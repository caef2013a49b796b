//! Where what is loaded of a plugin is kept, and whether a hot instance
//! of it is used.

use crate::bindings::{percent_encode, percent_encoded};
use crate::path_utils::{join_path, joined};
use vstd::prelude::*;

verus! {

/// How a plugin is run.
#[derive(Debug)]
pub struct PluginSetting {
    /// The URL the plugin is loaded from.
    pub source: String,
    /// Whether the plugin allows a hot instance to be kept.
    pub cache: bool,
}

/// Whether a hot instance of the plugin is used: the request must allow
/// the cache, and so must the plugin.
pub fn uses_hot_instance(setting: &PluginSetting, use_cache: bool) -> (r: bool)
    ensures
        r == (use_cache && setting.cache),
{
    use_cache && setting.cache
}

/// The directory of a plugin in the cache: `cache-url` under the cache
/// directory, and under that the plugin's URL, percent-encoded.
pub open spec fn cache_path_of(cache_dir: Seq<char>, url: Seq<char>) -> Seq<char> {
    joined(joined(cache_dir, "cache-url"@), percent_encoded(vstd::utf8::encode_utf8(url)))
}

/// The directory under `cache_dir` that keeps what was loaded from `url`.
pub fn plugin_cache_path(cache_dir: &str, url: &str) -> (r: String)
    ensures
        r@ == cache_path_of(cache_dir@, url@),
{
    let base = join_path(cache_dir, "cache-url");
    let name = percent_encode(url);
    join_path(base.as_str(), name.as_str())
}

} // verus!
