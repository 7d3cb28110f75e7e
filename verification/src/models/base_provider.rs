//! The provider identity interface.

use vstd::prelude::*;

verus! {

/// The identity card of a provider.
#[derive(Debug)]
pub struct IProviderStats {
    pub name: &'static str,
    pub base_url: &'static str,
    pub lang: &'static str,
    pub is_nsfw: bool,
    pub logo: &'static str,
    pub class_path: &'static str,
    pub is_working: bool,
}

/// What every provider says about itself.
pub trait BaseProvider {
    /// The provider's name.
    fn name(&self) -> &'static str;

    /// The provider's base URL.
    fn base_url(&self) -> &'static str;

    /// The provider's language code; providers that do not say otherwise
    /// serve English.
    fn languages(&self) -> &'static str {
        "en"
    }

    /// Whether the provider serves NSFW content; assumed not unless the
    /// provider says otherwise.
    fn is_nsfw(&self) -> bool {
        false
    }

    /// A URL to the provider's logo.
    fn logo(&self) -> &'static str;

    /// The provider's class path.
    fn class_path(&self) -> &'static str;

    /// Whether the provider is currently working; assumed so unless the
    /// provider says otherwise.
    fn is_working(&self) -> bool {
        true
    }

    /// The provider's stats, assembled from the answers above.
    fn get_stats(&self) -> IProviderStats {
        IProviderStats {
            name: self.name(),
            base_url: self.base_url(),
            lang: self.languages(),
            is_nsfw: self.is_nsfw(),
            logo: self.logo(),
            class_path: self.class_path(),
            is_working: self.is_working(),
        }
    }
}

} // verus!
