//! Paths as text: joining, and the two forms a target is known by, the
//! host's own and the POSIX form that a sandboxed plugin sees.

use crate::text::{push_all, push_str, replace_char, replaced, str_chars, string_from_chars};
use vstd::prelude::*;

verus! {

/// `name` under the directory `dir`: a separator stands between the two
/// unless `dir` is empty or ends in one.
pub open spec fn joined(dir: Seq<char>, name: Seq<char>) -> Seq<char> {
    if dir.len() == 0 || dir.last() == '/' {
        dir + name
    } else {
        dir + seq!['/'] + name
    }
}

/// The path of `name` under the directory `dir`.
pub fn join_path(dir: &str, name: &str) -> (r: String)
    ensures
        r@ == joined(dir@, name@),
{
    let mut out = str_chars(dir);
    if out.len() > 0 && out[out.len() - 1] != '/' {
        out.push('/');
    }
    push_str(&mut out, name);
    string_from_chars(&out)
}

/// Whether the final component of `path` is `name`.
pub fn file_name_is(path: &str, name: &str) -> (r: bool)
    ensures
        r == (crate::config::model::file_name_of(path@) == name@),
{
    let chars = crate::config::model::trim_path(&str_chars(path));
    let start = match crate::config::model::find_last(&chars, '/') {
        Some(i) => i + 1,
        None => 0,
    };
    let last = skip_chars(&chars, start);
    let wanted = str_chars(name);
    crate::config::model::chars_eq(&last, &wanted)
}

/// How the host writes its paths.
#[derive(Clone, Copy, PartialEq, Eq, Structural, Debug)]
pub enum PathStyle {
    /// Absolute paths start at `/`.
    Posix,
    /// Canonical paths start with the verbatim prefix and a drive letter.
    Windows,
}

/// Why a canonical path could not be converted.
#[derive(Clone, Copy, PartialEq, Eq, Structural, Debug)]
pub enum PathError {
    /// The path is shorter than the verbatim prefix.
    NoPrefix,
    /// Nothing follows the verbatim prefix.
    NoDrive,
    /// The drive letter is not followed by a colon's place.
    NoRoot,
}

/// The length of the verbatim prefix of a canonical Windows path.
pub const VERBATIM_PREFIX_LEN: usize = 4;

/// A canonical Windows path without its verbatim prefix: all but the first
/// four characters.
pub open spec fn stripped(path: Seq<char>) -> Result<Seq<char>, PathError> {
    if path.len() < VERBATIM_PREFIX_LEN {
        Err(PathError::NoPrefix)
    } else {
        Ok(path.skip(VERBATIM_PREFIX_LEN as int))
    }
}

/// The lower-case form of an ASCII capital; any other character is itself.
pub open spec fn lower_ascii(c: char) -> char {
    if 65 <= c as u32 <= 90 {
        ((c as u32 + 32) as u8) as char
    } else {
        c
    }
}

/// The POSIX form of a canonical Windows path: a slash, the drive letter
/// in lower case, and what follows the colon with every backslash turned
/// into a slash.
pub open spec fn converted(path: Seq<char>) -> Result<Seq<char>, PathError> {
    match stripped(path) {
        Err(e) => Err(e),
        Ok(rest) => if rest.len() == 0 {
            Err(PathError::NoDrive)
        } else if rest.len() < 2 {
            Err(PathError::NoRoot)
        } else {
            Ok(seq!['/', lower_ascii(rest[0])] + replaced(rest.skip(2), '\\', '/'))
        },
    }
}

/// The characters of `chars` from `from` on.
fn skip_chars(chars: &Vec<char>, from: usize) -> (r: Vec<char>)
    requires
        from <= chars.len(),
    ensures
        r@ == chars@.skip(from as int),
{
    let mut out: Vec<char> = Vec::new();
    let mut i: usize = from;
    while i < chars.len()
        invariant
            from <= i <= chars.len(),
            out@ == chars@.subrange(from as int, i as int),
        decreases chars.len() - i,
    {
        out.push(chars[i]);
        assert(chars@.subrange(from as int, i + 1) =~= chars@.subrange(from as int, i as int).push(
            chars[i as int],
        ));
        i += 1;
    }
    assert(chars@.subrange(from as int, chars.len() as int) =~= chars@.skip(from as int));
    out
}

/// Removes the verbatim prefix of a canonical Windows path.
pub fn strip_windows_path(path_str: &str) -> (r: Result<String, PathError>)
    ensures
        match r {
            Ok(s) => stripped(path_str@) == Ok::<Seq<char>, PathError>(s@),
            Err(e) => stripped(path_str@) == Err::<Seq<char>, PathError>(e),
        },
{
    let chars = str_chars(path_str);
    if chars.len() < VERBATIM_PREFIX_LEN {
        return Err(PathError::NoPrefix);
    }
    let rest = skip_chars(&chars, VERBATIM_PREFIX_LEN);
    Ok(string_from_chars(&rest))
}

/// The lower-case form of an ASCII capital.
fn to_lower_ascii(c: char) -> (r: char)
    ensures
        r == lower_ascii(c),
{
    let code = c as u32;
    if 65 <= code && code <= 90 {
        let low: u8 = (code + 32) as u8;
        low as char
    } else {
        c
    }
}

/// Turns a canonical Windows path into its POSIX form.
pub fn convert_windows_path(path_str: &str) -> (r: Result<String, PathError>)
    ensures
        match r {
            Ok(s) => converted(path_str@) == Ok::<Seq<char>, PathError>(s@),
            Err(e) => converted(path_str@) == Err::<Seq<char>, PathError>(e),
        },
{
    let chars = str_chars(path_str);
    if chars.len() < VERBATIM_PREFIX_LEN {
        return Err(PathError::NoPrefix);
    }
    let rest = skip_chars(&chars, VERBATIM_PREFIX_LEN);
    if rest.len() == 0 {
        return Err(PathError::NoDrive);
    }
    if rest.len() < 2 {
        return Err(PathError::NoRoot);
    }
    let tail = skip_chars(&rest, 2);
    let slashed = replace_char(&tail, '\\', '/');
    let mut out: Vec<char> = Vec::new();
    out.push('/');
    out.push(to_lower_ascii(rest[0]));
    push_all(&mut out, &slashed);
    assert(out@ =~= seq!['/', lower_ascii(rest@[0])] + replaced(rest@.skip(2), '\\', '/'));
    Ok(string_from_chars(&out))
}

/// The host's own form of a canonical path.
pub open spec fn normalized(style: PathStyle, canonical: Seq<char>) -> Result<Seq<char>, PathError> {
    match style {
        PathStyle::Posix => Ok(canonical),
        PathStyle::Windows => stripped(canonical),
    }
}

/// The form of a canonical path that a sandboxed plugin sees.
pub open spec fn wasm_form(style: PathStyle, canonical: Seq<char>) -> Result<Seq<char>, PathError> {
    match style {
        PathStyle::Posix => Ok(canonical),
        PathStyle::Windows => converted(canonical),
    }
}

/// The host's own form of the canonical path `canonical`: the path itself
/// on a POSIX host, the path without its verbatim prefix on Windows.
pub fn normalize_path(style: PathStyle, canonical: &str) -> (r: Result<String, PathError>)
    ensures
        match r {
            Ok(s) => normalized(style, canonical@) == Ok::<Seq<char>, PathError>(s@),
            Err(e) => normalized(style, canonical@) == Err::<Seq<char>, PathError>(e),
        },
{
    match style {
        PathStyle::Posix => Ok(canonical.to_owned()),
        PathStyle::Windows => strip_windows_path(canonical),
    }
}

/// The form of the canonical path `canonical` that a sandboxed plugin
/// sees: the path itself on a POSIX host, `/<drive>/<rest>` on Windows.
pub fn to_wasm_path(style: PathStyle, canonical: &str) -> (r: Result<String, PathError>)
    ensures
        match r {
            Ok(s) => wasm_form(style, canonical@) == Ok::<Seq<char>, PathError>(s@),
            Err(e) => wasm_form(style, canonical@) == Err::<Seq<char>, PathError>(e),
        },
{
    match style {
        PathStyle::Posix => Ok(canonical.to_owned()),
        PathStyle::Windows => convert_windows_path(canonical),
    }
}

/// A path as the rules read it: with `/` between its components. A
/// Windows host also parts components with `\`; each becomes `/`, so
/// that a dot in the name of a directory is not taken for the start of an
/// extension.
pub open spec fn rule_form(style: PathStyle, path: Seq<char>) -> Seq<char> {
    match style {
        PathStyle::Posix => path,
        PathStyle::Windows => replaced(path, '\\', '/'),
    }
}

/// The path of a host that writes its paths in `style`, as the rules read
/// it.
pub fn rule_path(style: PathStyle, path: &str) -> (r: String)
    ensures
        r@ == rule_form(style, path@),
{
    match style {
        PathStyle::Posix => path.to_owned(),
        PathStyle::Windows => {
            let chars = str_chars(path);
            string_from_chars(&replace_char(&chars, '\\', '/'))
        },
    }
}

} // verus!
