//! The build identity: one string that tells binaries of different builds
//! apart, made of the package version, the compiler, the target and the
//! profile.

use crate::text::{push_all, replace_char, replaced, str_chars, string_from_chars};
use vstd::prelude::*;

verus! {

/// What a build is made of.
pub struct BuildInfo<'a> {
    pub version: &'a str,
    pub rustc_version: &'a str,
    pub target: &'a str,
    pub profile: &'a str,
}

/// `s` with every space and every hyphen turned into an underscore.
pub open spec fn normalized(s: Seq<char>) -> Seq<char> {
    replaced(replaced(s, ' ', '_'), '-', '_')
}

/// The build id of the four parts: each normalized, with hyphens between.
pub open spec fn build_id_of(
    version: Seq<char>,
    rustc_version: Seq<char>,
    target: Seq<char>,
    profile: Seq<char>,
) -> Seq<char> {
    normalized(version) + seq!['-'] + normalized(rustc_version) + seq!['-'] + normalized(target)
        + seq!['-'] + normalized(profile)
}

/// The characters of `s` with every space and hyphen turned into an underscore.
fn normalize_chars(s: &str) -> (r: Vec<char>)
    ensures
        r@ == normalized(s@),
{
    let chars = str_chars(s);
    let spaced = replace_char(&chars, ' ', '_');
    replace_char(&spaced, '-', '_')
}

/// `s` with every space and every hyphen turned into an underscore.
pub fn normalize(s: &str) -> (r: String)
    ensures
        r@ == normalized(s@),
{
    let chars = normalize_chars(s);
    string_from_chars(&chars)
}

impl<'a> BuildInfo<'a> {
    /// The build id: the four parts, normalized, with hyphens between.
    pub fn build_id(&self) -> (r: String)
        ensures
            r@ == build_id_of(self.version@, self.rustc_version@, self.target@, self.profile@),
    {
        let mut out = normalize_chars(self.version);
        out.push('-');
        let rustc = normalize_chars(self.rustc_version);
        push_all(&mut out, &rustc);
        out.push('-');
        let target = normalize_chars(self.target);
        push_all(&mut out, &target);
        out.push('-');
        let profile = normalize_chars(self.profile);
        push_all(&mut out, &profile);
        string_from_chars(&out)
    }
}

/// The build id of a build made of the four parts.
pub fn get_build_id(version: &str, rustc_version: &str, target: &str, profile: &str) -> (r: String)
    ensures
        r@ == build_id_of(version@, rustc_version@, target@, profile@),
{
    BuildInfo { version, rustc_version, target, profile }.build_id()
}

/// A normalized text holds no hyphen, so a build id has exactly three: it
/// falls into four parts.
pub proof fn lemma_build_id_has_four_parts(
    version: Seq<char>,
    rustc_version: Seq<char>,
    target: Seq<char>,
    profile: Seq<char>,
)
    ensures
        crate::text::split_on(build_id_of(version, rustc_version, target, profile), '-') == seq![
            normalized(version),
            normalized(rustc_version),
            normalized(target),
            normalized(profile),
        ],
{
    let a = normalized(version);
    let b = normalized(rustc_version);
    let c = normalized(target);
    let d = normalized(profile);
    crate::text::lemma_split_single(a, '-');
    crate::text::lemma_split_append(a, b, '-');
    crate::text::lemma_split_append(a + seq!['-'] + b, c, '-');
    crate::text::lemma_split_append(a + seq!['-'] + b + seq!['-'] + c, d, '-');
}

} // verus!
