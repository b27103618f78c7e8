//! Where the override file is looked for.
//!
//! The caller reads the environment and resolves the tool home; this
//! module only decides, from those plain values, which path names the
//! override file: the environment value when set and not blank, else
//! `models.json` under the tool home, else none.

use crate::text::chars_of;
use vstd::prelude::*;
use vstd::string::StringExecFns;

verus! {

/// Unicode whitespace, the set `char::is_whitespace` recognises.
pub open spec fn is_space(c: char) -> bool {
    let u = c as u32;
    (0x09 <= u && u <= 0x0D) || u == 0x20 || u == 0x85 || u == 0xA0 || u == 0x1680 || (0x2000 <= u
        && u <= 0x200A) || u == 0x2028 || u == 0x2029 || u == 0x202F || u == 0x205F || u == 0x3000
}

/// Nothing but whitespace.
pub open spec fn is_blank(s: Seq<char>) -> bool {
    forall|k: int| 0 <= k < s.len() ==> is_space(s[k])
}

/// The default location: `models.json` under the tool home, when a home is
/// known.
pub open spec fn default_path(home: Option<Seq<char>>) -> Option<Seq<char>> {
    match home {
        Some(h) => Some(h + "/models.json"@),
        None => None,
    }
}

/// The override path: the environment value verbatim when set and not
/// blank, else the default location.
pub open spec fn path_spec(env: Option<Seq<char>>, home: Option<Seq<char>>) -> Option<Seq<char>> {
    match env {
        Some(e) => if !is_blank(e) {
            Some(e)
        } else {
            default_path(home)
        },
        None => default_path(home),
    }
}

/// The view of an optional borrowed string.
pub open spec fn opt_str_view(o: Option<&str>) -> Option<Seq<char>> {
    match o {
        Some(s) => Some(s@),
        None => None,
    }
}

/// The view of an optional owned string.
pub open spec fn opt_string_view(o: Option<String>) -> Option<Seq<char>> {
    match o {
        Some(s) => Some(s@),
        None => None,
    }
}

/// Whether the string holds nothing but whitespace.
fn is_blank_x(s: &str) -> (r: bool)
    ensures
        r == is_blank(s@),
{
    let v = chars_of(s);
    let mut i: usize = 0;
    while i < v.len()
        invariant
            i <= v@.len(),
            v@ == s@,
            forall|k: int| 0 <= k < i ==> is_space(s@[k]),
        decreases v@.len() - i,
    {
        let u = v[i] as u32;
        if !((0x09 <= u && u <= 0x0D) || u == 0x20 || u == 0x85 || u == 0xA0 || u == 0x1680 || (
        0x2000 <= u && u <= 0x200A) || u == 0x2028 || u == 0x2029 || u == 0x202F || u == 0x205F
            || u == 0x3000) {
            return false;
        }
        i = i + 1;
    }
    true
}

/// Determines the file path for user-defined model presets.
///
/// `models_file` is the override environment value, if any; `codex_home`
/// the tool home directory, if one could be resolved.  The environment
/// value wins when it is not blank; otherwise `models.json` under the
/// home; otherwise there is no path to consult.
pub fn user_presets_path(models_file: Option<&str>, codex_home: Option<&str>) -> (r: Option<
    String,
>)
    ensures
        opt_string_view(r) == path_spec(opt_str_view(models_file), opt_str_view(codex_home)),
{
    match models_file {
        Some(e) => {
            if !is_blank_x(e) {
                return Some(e.to_owned());
            }
        },
        None => {},
    }
    match codex_home {
        Some(h) => Some(h.to_owned().concat("/models.json")),
        None => None,
    }
}

/// A blank override environment value behaves exactly as an unset one.
pub proof fn lemma_blank_env_like_unset(e: Seq<char>, home: Option<Seq<char>>)
    requires
        is_blank(e),
    ensures
        path_spec(Some(e), home) == path_spec(None, home),
{
}

} // verus!
