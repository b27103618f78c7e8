//! Model preset catalog with an optional user override file.
//!
//! The library ships a fixed catalog of model presets (a model slug paired
//! with an optional reasoning effort) and can replace it with presets read
//! from a user-supplied JSON document.  All catalog, path-resolution and
//! parsing logic lives here, verified; reading the environment and the
//! filesystem is left to the caller, who hands in plain values.

use vstd::prelude::*;

pub mod jsontext;
pub mod overrides;
pub mod paths;
pub mod preset;
pub mod text;

use crate::overrides::{parse_user_presets, user_presets_spec};
use crate::paths::opt_str_view;
use crate::preset::{
    builtin_model_presets, builtin_presets_spec, catalog_view, owned_catalog_view,
    OwnedModelPreset, PresetSpec,
};

verus! {

/// What a load yields from the override file content, when the file could
/// be read: the override presets where the content yields some, else the
/// built-in catalog.
pub open spec fn load_spec(content: Option<Seq<char>>) -> Seq<PresetSpec> {
    match content {
        Some(c) => match user_presets_spec(c) {
            Some(ps) => ps,
            None => builtin_presets_spec(),
        },
        None => builtin_presets_spec(),
    }
}

/// Loads model presets from override file content if it yields any;
/// otherwise returns the built-ins in owned form.
///
/// `file_content` is the text of the override file, or `None` where no
/// override path was configured or the file could not be read; either way
/// the result is never empty.
pub fn load_model_presets_owned(file_content: Option<&str>) -> (r: Vec<OwnedModelPreset>)
    ensures
        owned_catalog_view(r@) == load_spec(opt_str_view(file_content)),
        r@.len() > 0,
{
    match file_content {
        Some(c) => {
            match parse_user_presets(c) {
                Some(list) => {
                    return list;
                },
                None => {},
            }
        },
        None => {},
    }
    let base = builtin_model_presets();
    let mut out: Vec<OwnedModelPreset> = Vec::new();
    let mut i: usize = 0;
    proof {
        assert(owned_catalog_view(out@) =~= builtin_presets_spec().take(0));
    }
    while i < base.len()
        invariant
            i <= base@.len(),
            base@.len() == 7,
            catalog_view(base@) == builtin_presets_spec(),
            owned_catalog_view(out@) == builtin_presets_spec().take(i as int),
        decreases base@.len() - i,
    {
        let p = base[i];
        proof {
            assert(catalog_view(base@)[i as int] == base@[i as int]@);
        }
        let o = OwnedModelPreset::from(&p);
        proof {
            assert(owned_catalog_view(out@.push(o)) =~= owned_catalog_view(out@).push(o@));
            assert(builtin_presets_spec().take(i + 1) =~= builtin_presets_spec().take(
                i as int,
            ).push(builtin_presets_spec()[i as int]));
        }
        out.push(o);
        i = i + 1;
    }
    proof {
        assert(builtin_presets_spec().take(7) =~= builtin_presets_spec());
    }
    out
}

/// The loader never yields an empty catalog, whatever the override file
/// held and whether one could be read at all.
pub proof fn lemma_load_never_empty(content: Option<Seq<char>>)
    ensures
        load_spec(content).len() > 0,
{
    match content {
        Some(c) => {
            if user_presets_spec(c) is Some {
            } else {
                assert(builtin_presets_spec().len() == 7);
            }
        },
        None => {
            assert(builtin_presets_spec().len() == 7);
        },
    }
}

/// Loading is idempotent: with the same environment and file state, every
/// load yields the same catalog, value for value.
pub proof fn lemma_load_deterministic(
    content: Option<Seq<char>>,
    r1: Seq<PresetSpec>,
    r2: Seq<PresetSpec>,
)
    requires
        r1 == load_spec(content),
        r2 == load_spec(content),
    ensures
        r1 == r2,
{
}

} // verus!
