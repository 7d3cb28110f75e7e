//! Host-specific extractors.
//!
//! The pass-through extractors do not decrypt anything: each one appends
//! a single placeholder entry for its host and returns a copy of its
//! current state, satisfying the shared extractor contract. The
//! encrypted-manifest extractor's data model and verified computations
//! live in the manifest, envelope and playlist modules; its network
//! orchestration is I/O and stays with the caller.

use vstd::prelude::*;

use crate::error::ExtractorError;
use crate::models::types::ExtractConfig;
use crate::models::types::IVideo;
use crate::models::video_extractor::VideoExtractor;

verus! {

/// One source resolved by the asian-load host.
#[derive(Clone, Debug)]
pub struct AsianLoadSource {
    pub url: String,
    pub is_m3u8: bool,
}

/// One subtitle resolved by the asian-load host.
#[derive(Clone, Debug)]
pub struct AsianLoadSubtitle {
    pub url: String,
    pub lang: String,
}

/// The asian-load extractor's state.
#[derive(Clone, Debug)]
pub struct AsianLoad {
    pub sources: Vec<AsianLoadSource>,
    pub subtitles: Vec<AsianLoadSubtitle>,
}

impl VideoExtractor for AsianLoad {
    type VideoSource = AsianLoad;

    fn extract(&mut self, _video_url: String, _args: ExtractConfig) -> (r: Result<
        AsianLoad,
        ExtractorError,
    >)
        ensures
            final(self).sources@.len() == old(self).sources@.len() + 1,
            final(self).sources@.last().url@ == Seq::<char>::empty(),
            final(self).sources@.last().is_m3u8 == false,
            forall|i: int|
                0 <= i < old(self).sources@.len() ==> final(self).sources@[i] == old(
                    self,
                ).sources@[i],
            final(self).subtitles@.len() == old(self).subtitles@.len() + 1,
            final(self).subtitles@.last().url@ == Seq::<char>::empty(),
            final(self).subtitles@.last().lang@ == Seq::<char>::empty(),
            forall|i: int|
                0 <= i < old(self).subtitles@.len() ==> final(self).subtitles@[i] == old(
                    self,
                ).subtitles@[i],
            r is Ok,
            r matches Ok(v) ==> v.sources@.len() == final(self).sources@.len()
                && v.subtitles@.len() == final(self).subtitles@.len(),
    {
        self.sources.push(AsianLoadSource { url: String::new(), is_m3u8: false });
        self.subtitles.push(AsianLoadSubtitle { url: String::new(), lang: String::new() });
        Ok(AsianLoad { sources: self.sources.clone(), subtitles: self.subtitles.clone() })
    }
}

/// One source resolved by the bilibili host.
#[derive(Clone, Debug)]
pub struct BilibiliSources {
    pub url: String,
    pub is_m3u8: bool,
    pub is_dash: bool,
}

/// The bilibili extractor's state.
#[derive(Clone, Debug)]
pub struct Bilibili {
    pub sources: Vec<BilibiliSources>,
}

impl VideoExtractor for Bilibili {
    type VideoSource = Bilibili;

    fn extract(&mut self, _video_url: String, _args: ExtractConfig) -> (r: Result<
        Bilibili,
        ExtractorError,
    >)
        ensures
            final(self).sources@.len() == old(self).sources@.len() + 1,
            final(self).sources@.last().url@ == Seq::<char>::empty(),
            final(self).sources@.last().is_m3u8 == false,
            final(self).sources@.last().is_dash == false,
            forall|i: int|
                0 <= i < old(self).sources@.len() ==> final(self).sources@[i] == old(
                    self,
                ).sources@[i],
            r is Ok,
            r matches Ok(v) ==> v.sources@.len() == final(self).sources@.len(),
    {
        self.sources.push(BilibiliSources { url: String::new(), is_m3u8: false, is_dash: false });
        Ok(Bilibili { sources: self.sources.clone() })
    }
}

/// The filemoon extractor's state.
#[derive(Clone, Debug)]
pub struct FileMoon {
    pub sources: Vec<IVideo>,
}

impl VideoExtractor for FileMoon {
    type VideoSource = FileMoon;

    fn extract(&mut self, _video_url: String, _args: ExtractConfig) -> (r: Result<
        FileMoon,
        ExtractorError,
    >)
        ensures
            final(self).sources@.len() == old(self).sources@.len() + 1,
            final(self).sources@.last().url is None,
            final(self).sources@.last().quality is None,
            final(self).sources@.last().is_m3u8 is None,
            forall|i: int|
                0 <= i < old(self).sources@.len() ==> final(self).sources@[i] == old(
                    self,
                ).sources@[i],
            r is Ok,
            r matches Ok(v) ==> v.sources@.len() == final(self).sources@.len(),
    {
        self.sources.push(IVideo::empty());
        Ok(FileMoon { sources: self.sources.clone() })
    }
}

/// One source resolved by the gogo CDN host.
#[derive(Clone, Debug)]
pub struct GogoCDNSources {
    pub url: String,
    pub quality: String,
    pub is_m3u8: bool,
}

/// The gogo CDN extractor's state.
#[derive(Clone, Debug)]
pub struct GogoCDN {
    pub sources: Vec<GogoCDNSources>,
}

impl VideoExtractor for GogoCDN {
    type VideoSource = GogoCDN;

    fn extract(&mut self, _video_url: String, _args: ExtractConfig) -> (r: Result<
        GogoCDN,
        ExtractorError,
    >)
        ensures
            final(self).sources@.len() == old(self).sources@.len() + 1,
            final(self).sources@.last().url@ == Seq::<char>::empty(),
            final(self).sources@.last().quality@ == Seq::<char>::empty(),
            final(self).sources@.last().is_m3u8 == false,
            forall|i: int|
                0 <= i < old(self).sources@.len() ==> final(self).sources@[i] == old(
                    self,
                ).sources@[i],
            r is Ok,
            r matches Ok(v) ==> v.sources@.len() == final(self).sources@.len(),
    {
        self.sources.push(GogoCDNSources { url: String::new(), quality: String::new(), is_m3u8: false });
        Ok(GogoCDN { sources: self.sources.clone() })
    }
}

/// One source resolved by the kwik host.
#[derive(Clone, Debug)]
pub struct KwikSources {
    pub url: String,
    pub is_m3u8: bool,
}

/// The kwik extractor's state.
#[derive(Clone, Debug)]
pub struct Kwik {
    pub sources: Vec<KwikSources>,
}

impl VideoExtractor for Kwik {
    type VideoSource = Kwik;

    fn extract(&mut self, _video_url: String, _args: ExtractConfig) -> (r: Result<
        Kwik,
        ExtractorError,
    >)
        ensures
            final(self).sources@.len() == old(self).sources@.len() + 1,
            final(self).sources@.last().url@ == Seq::<char>::empty(),
            final(self).sources@.last().is_m3u8 == false,
            forall|i: int|
                0 <= i < old(self).sources@.len() ==> final(self).sources@[i] == old(
                    self,
                ).sources@[i],
            r is Ok,
            r matches Ok(v) ==> v.sources@.len() == final(self).sources@.len(),
    {
        self.sources.push(KwikSources { url: String::new(), is_m3u8: false });
        Ok(Kwik { sources: self.sources.clone() })
    }
}

/// One source resolved by the megacloud host.
#[derive(Clone, Debug)]
pub struct MegaCloudSources {
    pub url: String,
    pub media_type: String,
    pub is_m3u8: bool,
}

/// One subtitle resolved by the megacloud host.
#[derive(Clone, Debug)]
pub struct MegaCloudSubtitles {
    pub url: String,
    pub lang: String,
}

/// The megacloud extractor's state.
#[derive(Clone, Debug)]
pub struct MegaCloud {
    pub sources: Vec<MegaCloudSources>,
    pub subtitles: Vec<MegaCloudSubtitles>,
}

impl VideoExtractor for MegaCloud {
    type VideoSource = MegaCloud;

    fn extract(&mut self, _video_url: String, _args: ExtractConfig) -> (r: Result<
        MegaCloud,
        ExtractorError,
    >)
        ensures
            final(self).sources@.len() == old(self).sources@.len() + 1,
            final(self).sources@.last().url@ == Seq::<char>::empty(),
            final(self).sources@.last().media_type@ == Seq::<char>::empty(),
            final(self).sources@.last().is_m3u8 == false,
            forall|i: int|
                0 <= i < old(self).sources@.len() ==> final(self).sources@[i] == old(
                    self,
                ).sources@[i],
            final(self).subtitles@.len() == old(self).subtitles@.len() + 1,
            final(self).subtitles@.last().url@ == Seq::<char>::empty(),
            final(self).subtitles@.last().lang@ == Seq::<char>::empty(),
            forall|i: int|
                0 <= i < old(self).subtitles@.len() ==> final(self).subtitles@[i] == old(
                    self,
                ).subtitles@[i],
            r is Ok,
            r matches Ok(v) ==> v.sources@.len() == final(self).sources@.len()
                && v.subtitles@.len() == final(self).subtitles@.len(),
    {
        self.sources.push(MegaCloudSources { url: String::new(), media_type: String::new(), is_m3u8: false });
        self.subtitles.push(MegaCloudSubtitles { url: String::new(), lang: String::new() });
        Ok(MegaCloud { sources: self.sources.clone(), subtitles: self.subtitles.clone() })
    }
}

/// One source resolved by the mixdrop host.
#[derive(Clone, Debug)]
pub struct MixDropSource {
    pub url: String,
    pub quality: String,
    pub is_m3u8: bool,
}

/// One subtitle resolved by the mixdrop host.
#[derive(Clone, Debug)]
pub struct MixDropSubtitle {
    pub url: String,
    pub lang: String,
}

/// The mixdrop extractor's state.
#[derive(Clone, Debug)]
pub struct MixDrop {
    pub sources: Vec<MixDropSource>,
    pub subtitles: Vec<MixDropSubtitle>,
}

impl VideoExtractor for MixDrop {
    type VideoSource = MixDrop;

    fn extract(&mut self, _video_url: String, _args: ExtractConfig) -> (r: Result<
        MixDrop,
        ExtractorError,
    >)
        ensures
            final(self).sources@.len() == old(self).sources@.len() + 1,
            final(self).sources@.last().url@ == Seq::<char>::empty(),
            final(self).sources@.last().quality@ == Seq::<char>::empty(),
            final(self).sources@.last().is_m3u8 == false,
            forall|i: int|
                0 <= i < old(self).sources@.len() ==> final(self).sources@[i] == old(
                    self,
                ).sources@[i],
            final(self).subtitles@.len() == old(self).subtitles@.len() + 1,
            final(self).subtitles@.last().url@ == Seq::<char>::empty(),
            final(self).subtitles@.last().lang@ == Seq::<char>::empty(),
            forall|i: int|
                0 <= i < old(self).subtitles@.len() ==> final(self).subtitles@[i] == old(
                    self,
                ).subtitles@[i],
            r is Ok,
            r matches Ok(v) ==> v.sources@.len() == final(self).sources@.len()
                && v.subtitles@.len() == final(self).subtitles@.len(),
    {
        self.sources.push(MixDropSource { url: String::new(), quality: String::new(), is_m3u8: false });
        self.subtitles.push(MixDropSubtitle { url: String::new(), lang: String::new() });
        Ok(MixDrop { sources: self.sources.clone(), subtitles: self.subtitles.clone() })
    }
}

/// One source resolved by the mp4player host.
#[derive(Clone, Debug)]
pub struct Mp4PlayerSources {
    pub url: String,
    pub quality: String,
    pub is_m3u8: bool,
}

/// The mp4player extractor's state.
#[derive(Clone, Debug)]
pub struct Mp4Player {
    pub sources: Vec<Mp4PlayerSources>,
}

impl VideoExtractor for Mp4Player {
    type VideoSource = Mp4Player;

    fn extract(&mut self, _video_url: String, _args: ExtractConfig) -> (r: Result<
        Mp4Player,
        ExtractorError,
    >)
        ensures
            final(self).sources@.len() == old(self).sources@.len() + 1,
            final(self).sources@.last().url@ == Seq::<char>::empty(),
            final(self).sources@.last().quality@ == Seq::<char>::empty(),
            final(self).sources@.last().is_m3u8 == false,
            forall|i: int|
                0 <= i < old(self).sources@.len() ==> final(self).sources@[i] == old(
                    self,
                ).sources@[i],
            r is Ok,
            r matches Ok(v) ==> v.sources@.len() == final(self).sources@.len(),
    {
        self.sources.push(Mp4PlayerSources { url: String::new(), quality: String::new(), is_m3u8: false });
        Ok(Mp4Player { sources: self.sources.clone() })
    }
}

/// One source resolved by the mp4upload host.
#[derive(Clone, Debug)]
pub struct Mp4UploadSources {
    pub quality: String,
    pub url: String,
    pub is_m3u8: bool,
}

/// The mp4upload extractor's state.
#[derive(Clone, Debug)]
pub struct Mp4Upload {
    pub sources: Vec<Mp4UploadSources>,
}

impl VideoExtractor for Mp4Upload {
    type VideoSource = Mp4Upload;

    fn extract(&mut self, _video_url: String, _args: ExtractConfig) -> (r: Result<
        Mp4Upload,
        ExtractorError,
    >)
        ensures
            final(self).sources@.len() == old(self).sources@.len() + 1,
            final(self).sources@.last().quality@ == Seq::<char>::empty(),
            final(self).sources@.last().url@ == Seq::<char>::empty(),
            final(self).sources@.last().is_m3u8 == false,
            forall|i: int|
                0 <= i < old(self).sources@.len() ==> final(self).sources@[i] == old(
                    self,
                ).sources@[i],
            r is Ok,
            r matches Ok(v) ==> v.sources@.len() == final(self).sources@.len(),
    {
        self.sources.push(Mp4UploadSources { quality: String::new(), url: String::new(), is_m3u8: false });
        Ok(Mp4Upload { sources: self.sources.clone() })
    }
}

/// One source resolved by the rapidcloud host.
#[derive(Clone, Debug)]
pub struct RapidCloudSources {
    pub url: String,
    pub quality: String,
    pub is_m3u8: bool,
}

/// One subtitle resolved by the rapidcloud host.
#[derive(Clone, Debug)]
pub struct RapidCloudSubtitles {
    pub url: String,
    pub lang: String,
}

/// The rapidcloud extractor's state.
#[derive(Clone, Debug)]
pub struct RapidCloud {
    pub sources: Vec<RapidCloudSources>,
    pub subtitles: Vec<RapidCloudSubtitles>,
}

impl VideoExtractor for RapidCloud {
    type VideoSource = RapidCloud;

    fn extract(&mut self, _video_url: String, _args: ExtractConfig) -> (r: Result<
        RapidCloud,
        ExtractorError,
    >)
        ensures
            final(self).sources@.len() == old(self).sources@.len() + 1,
            final(self).sources@.last().url@ == Seq::<char>::empty(),
            final(self).sources@.last().quality@ == Seq::<char>::empty(),
            final(self).sources@.last().is_m3u8 == false,
            forall|i: int|
                0 <= i < old(self).sources@.len() ==> final(self).sources@[i] == old(
                    self,
                ).sources@[i],
            final(self).subtitles@.len() == old(self).subtitles@.len() + 1,
            final(self).subtitles@.last().url@ == Seq::<char>::empty(),
            final(self).subtitles@.last().lang@ == Seq::<char>::empty(),
            forall|i: int|
                0 <= i < old(self).subtitles@.len() ==> final(self).subtitles@[i] == old(
                    self,
                ).subtitles@[i],
            r is Ok,
            r matches Ok(v) ==> v.sources@.len() == final(self).sources@.len()
                && v.subtitles@.len() == final(self).subtitles@.len(),
    {
        self.sources.push(RapidCloudSources { url: String::new(), quality: String::new(), is_m3u8: false });
        self.subtitles.push(RapidCloudSubtitles { url: String::new(), lang: String::new() });
        Ok(RapidCloud { sources: self.sources.clone(), subtitles: self.subtitles.clone() })
    }
}

/// One source resolved by the smashystream host.
#[derive(Clone, Debug)]
pub struct SmashyStreamSources {
    pub url: String,
    pub quality: String,
    pub is_m3u8: bool,
}

/// One subtitle resolved by the smashystream host.
#[derive(Clone, Debug)]
pub struct SmashyStreamSubtitles {
    pub url: String,
    pub lang: String,
}

/// The smashystream extractor's state.
#[derive(Clone, Debug)]
pub struct SmashyStream {
    pub sources: Vec<SmashyStreamSources>,
    pub subtitles: Vec<SmashyStreamSubtitles>,
}

impl VideoExtractor for SmashyStream {
    type VideoSource = SmashyStream;

    fn extract(&mut self, _video_url: String, _args: ExtractConfig) -> (r: Result<
        SmashyStream,
        ExtractorError,
    >)
        ensures
            final(self).sources@.len() == old(self).sources@.len() + 1,
            final(self).sources@.last().url@ == Seq::<char>::empty(),
            final(self).sources@.last().quality@ == Seq::<char>::empty(),
            final(self).sources@.last().is_m3u8 == false,
            forall|i: int|
                0 <= i < old(self).sources@.len() ==> final(self).sources@[i] == old(
                    self,
                ).sources@[i],
            final(self).subtitles@.len() == old(self).subtitles@.len() + 1,
            final(self).subtitles@.last().url@ == Seq::<char>::empty(),
            final(self).subtitles@.last().lang@ == Seq::<char>::empty(),
            forall|i: int|
                0 <= i < old(self).subtitles@.len() ==> final(self).subtitles@[i] == old(
                    self,
                ).subtitles@[i],
            r is Ok,
            r matches Ok(v) ==> v.sources@.len() == final(self).sources@.len()
                && v.subtitles@.len() == final(self).subtitles@.len(),
    {
        self.sources.push(SmashyStreamSources { url: String::new(), quality: String::new(), is_m3u8: false });
        self.subtitles.push(SmashyStreamSubtitles { url: String::new(), lang: String::new() });
        Ok(SmashyStream { sources: self.sources.clone(), subtitles: self.subtitles.clone() })
    }
}

/// One source resolved by the streamhub host.
#[derive(Clone, Debug)]
pub struct StreamHubSources {
    pub url: String,
    pub quality: String,
    pub is_m3u8: bool,
}

/// The streamhub extractor's state.
#[derive(Clone, Debug)]
pub struct StreamHub {
    pub sources: Vec<StreamHubSources>,
}

impl VideoExtractor for StreamHub {
    type VideoSource = StreamHub;

    fn extract(&mut self, _video_url: String, _args: ExtractConfig) -> (r: Result<
        StreamHub,
        ExtractorError,
    >)
        ensures
            final(self).sources@.len() == old(self).sources@.len() + 1,
            final(self).sources@.last().url@ == Seq::<char>::empty(),
            final(self).sources@.last().quality@ == Seq::<char>::empty(),
            final(self).sources@.last().is_m3u8 == false,
            forall|i: int|
                0 <= i < old(self).sources@.len() ==> final(self).sources@[i] == old(
                    self,
                ).sources@[i],
            r is Ok,
            r matches Ok(v) ==> v.sources@.len() == final(self).sources@.len(),
    {
        self.sources.push(StreamHubSources { url: String::new(), quality: String::new(), is_m3u8: false });
        Ok(StreamHub { sources: self.sources.clone() })
    }
}

/// The streamlare extractor's state.
#[derive(Clone, Debug)]
pub struct StreamLare {
    pub sources: Vec<IVideo>,
}

impl StreamLare {
    /// An empty extractor state.
    pub fn new() -> (r: StreamLare)
        ensures
            r.sources@.len() == 0,
    {
        StreamLare { sources: Vec::new() }
    }
}

impl VideoExtractor for StreamLare {
    type VideoSource = StreamLare;

    fn extract(&mut self, _video_url: String, _args: ExtractConfig) -> (r: Result<
        StreamLare,
        ExtractorError,
    >)
        ensures
            final(self).sources@.len() == old(self).sources@.len() + 1,
            final(self).sources@.last().url is None,
            final(self).sources@.last().quality is None,
            final(self).sources@.last().is_m3u8 is None,
            forall|i: int|
                0 <= i < old(self).sources@.len() ==> final(self).sources@[i] == old(
                    self,
                ).sources@[i],
            r is Ok,
            r matches Ok(v) ==> v.sources@.len() == final(self).sources@.len(),
    {
        self.sources.push(IVideo::empty());
        Ok(StreamLare { sources: self.sources.clone() })
    }
}

/// One source resolved by the streamsb host.
#[derive(Clone, Debug)]
pub struct StreamSBSources {
    pub url: String,
    pub quality: String,
    pub is_m3u8: bool,
}

/// The streamsb extractor's state.
#[derive(Clone, Debug)]
pub struct StreamSB {
    pub sources: Vec<StreamSBSources>,
}

impl VideoExtractor for StreamSB {
    type VideoSource = StreamSB;

    fn extract(&mut self, _video_url: String, _args: ExtractConfig) -> (r: Result<
        StreamSB,
        ExtractorError,
    >)
        ensures
            final(self).sources@.len() == old(self).sources@.len() + 1,
            final(self).sources@.last().url@ == Seq::<char>::empty(),
            final(self).sources@.last().quality@ == Seq::<char>::empty(),
            final(self).sources@.last().is_m3u8 == false,
            forall|i: int|
                0 <= i < old(self).sources@.len() ==> final(self).sources@[i] == old(
                    self,
                ).sources@[i],
            r is Ok,
            r matches Ok(v) ==> v.sources@.len() == final(self).sources@.len(),
    {
        self.sources.push(StreamSBSources { url: String::new(), quality: String::new(), is_m3u8: false });
        Ok(StreamSB { sources: self.sources.clone() })
    }
}

/// One source resolved by the streamtape host.
#[derive(Clone, Debug)]
pub struct StreamTapeSources {
    pub url: String,
    pub is_m3u8: bool,
}

/// The streamtape extractor's state.
#[derive(Clone, Debug)]
pub struct StreamTape {
    pub sources: Vec<StreamTapeSources>,
}

impl VideoExtractor for StreamTape {
    type VideoSource = StreamTape;

    fn extract(&mut self, _video_url: String, _args: ExtractConfig) -> (r: Result<
        StreamTape,
        ExtractorError,
    >)
        ensures
            final(self).sources@.len() == old(self).sources@.len() + 1,
            final(self).sources@.last().url@ == Seq::<char>::empty(),
            final(self).sources@.last().is_m3u8 == false,
            forall|i: int|
                0 <= i < old(self).sources@.len() ==> final(self).sources@[i] == old(
                    self,
                ).sources@[i],
            r is Ok,
            r matches Ok(v) ==> v.sources@.len() == final(self).sources@.len(),
    {
        self.sources.push(StreamTapeSources { url: String::new(), is_m3u8: false });
        Ok(StreamTape { sources: self.sources.clone() })
    }
}

/// One source resolved by the streamwish host.
#[derive(Clone, Debug)]
pub struct StreamWishSources {
    pub url: String,
    pub quality: String,
    pub is_m3u8: bool,
}

/// The streamwish extractor's state.
#[derive(Clone, Debug)]
pub struct StreamWish {
    pub sources: Vec<StreamWishSources>,
}

impl VideoExtractor for StreamWish {
    type VideoSource = StreamWish;

    fn extract(&mut self, _video_url: String, _args: ExtractConfig) -> (r: Result<
        StreamWish,
        ExtractorError,
    >)
        ensures
            final(self).sources@.len() == old(self).sources@.len() + 1,
            final(self).sources@.last().url@ == Seq::<char>::empty(),
            final(self).sources@.last().quality@ == Seq::<char>::empty(),
            final(self).sources@.last().is_m3u8 == false,
            forall|i: int|
                0 <= i < old(self).sources@.len() ==> final(self).sources@[i] == old(
                    self,
                ).sources@[i],
            r is Ok,
            r matches Ok(v) ==> v.sources@.len() == final(self).sources@.len(),
    {
        self.sources.push(StreamWishSources { url: String::new(), quality: String::new(), is_m3u8: false });
        Ok(StreamWish { sources: self.sources.clone() })
    }
}

/// One source resolved by the vidmoly host.
#[derive(Clone, Debug)]
pub struct VidMolySources {
    pub url: String,
    pub quality: String,
    pub is_m3u8: bool,
}

/// The vidmoly extractor's state.
#[derive(Clone, Debug)]
pub struct VidMoly {
    pub sources: Vec<VidMolySources>,
}

impl VideoExtractor for VidMoly {
    type VideoSource = VidMoly;

    fn extract(&mut self, _video_url: String, _args: ExtractConfig) -> (r: Result<
        VidMoly,
        ExtractorError,
    >)
        ensures
            final(self).sources@.len() == old(self).sources@.len() + 1,
            final(self).sources@.last().url@ == Seq::<char>::empty(),
            final(self).sources@.last().quality@ == Seq::<char>::empty(),
            final(self).sources@.last().is_m3u8 == false,
            forall|i: int|
                0 <= i < old(self).sources@.len() ==> final(self).sources@[i] == old(
                    self,
                ).sources@[i],
            r is Ok,
            r matches Ok(v) ==> v.sources@.len() == final(self).sources@.len(),
    {
        self.sources.push(VidMolySources { url: String::new(), quality: String::new(), is_m3u8: false });
        Ok(VidMoly { sources: self.sources.clone() })
    }
}

/// One source resolved by the vizcloud host.
#[derive(Clone, Debug)]
pub struct VizCloudSources {
    pub url: String,
    pub quality: String,
    pub is_m3u8: bool,
}

/// The vizcloud extractor's state.
#[derive(Clone, Debug)]
pub struct VizCloud {
    pub sources: Vec<VizCloudSources>,
}

impl VideoExtractor for VizCloud {
    type VideoSource = VizCloud;

    fn extract(&mut self, _video_url: String, _args: ExtractConfig) -> (r: Result<
        VizCloud,
        ExtractorError,
    >)
        ensures
            final(self).sources@.len() == old(self).sources@.len() + 1,
            final(self).sources@.last().url@ == Seq::<char>::empty(),
            final(self).sources@.last().quality@ == Seq::<char>::empty(),
            final(self).sources@.last().is_m3u8 == false,
            forall|i: int|
                0 <= i < old(self).sources@.len() ==> final(self).sources@[i] == old(
                    self,
                ).sources@[i],
            r is Ok,
            r matches Ok(v) ==> v.sources@.len() == final(self).sources@.len(),
    {
        self.sources.push(VizCloudSources { url: String::new(), quality: String::new(), is_m3u8: false });
        Ok(VizCloud { sources: self.sources.clone() })
    }
}

/// One source resolved by the voe host.
#[derive(Clone, Debug)]
pub struct VoeSources {
    pub url: String,
    pub quality: String,
    pub is_m3u8: bool,
}

/// The voe extractor's state.
#[derive(Clone, Debug)]
pub struct Voe {
    pub sources: Vec<VoeSources>,
}

impl VideoExtractor for Voe {
    type VideoSource = Voe;

    fn extract(&mut self, _video_url: String, _args: ExtractConfig) -> (r: Result<
        Voe,
        ExtractorError,
    >)
        ensures
            final(self).sources@.len() == old(self).sources@.len() + 1,
            final(self).sources@.last().url@ == Seq::<char>::empty(),
            final(self).sources@.last().quality@ == Seq::<char>::empty(),
            final(self).sources@.last().is_m3u8 == false,
            forall|i: int|
                0 <= i < old(self).sources@.len() ==> final(self).sources@[i] == old(
                    self,
                ).sources@[i],
            r is Ok,
            r matches Ok(v) ==> v.sources@.len() == final(self).sources@.len(),
    {
        self.sources.push(VoeSources { url: String::new(), quality: String::new(), is_m3u8: false });
        Ok(Voe { sources: self.sources.clone() })
    }
}

} // verus!
