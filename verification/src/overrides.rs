//! Decoding user-supplied preset overrides from JSON text.
//!
//! The override document must be a JSON array.  Each element may be a bare
//! string (a model slug; id and label default to it) or an object with a
//! required string `model` and optional `id`, `label`, `description` and
//! `effort` members.  An element of any other shape, an object without a
//! string `model`, or an unrecognised `effort` token makes that element
//! invalid: it is skipped, and the others still count.  A document that is
//! not valid JSON, not an array, or yields no valid element gives no list
//! at all.
//!
//! Within one object, a repeated member name counts by its last
//! occurrence, and an explicit `null` counts as an absent member.

use crate::jsontext::{
    arr_items, is_json_array_doc, lemma_skip_ws, null_at, obj_members, parse_string,
    parse_string_x, skip_value, skip_value_x, skip_ws, skip_ws_x,
};
use crate::preset::{OwnedModelPreset, PresetSpec, ReasoningEffort, owned_catalog_view};
use crate::text::{chars_of, string_of};
use vstd::prelude::*;

verus! {

/// Latest state of one optional string member of an override object.
pub ghost enum FieldState {
    /// The member never occurred.
    Absent,
    /// The member occurred last with value `null`.
    Cleared,
    /// The member occurred last with this string value.
    Text(Seq<char>),
    /// The member occurred last with a value of the wrong shape.
    Bad,
}

/// Latest state of the `effort` member of an override object.
pub ghost enum EffortState {
    Absent,
    Cleared,
    Level(ReasoningEffort),
    Bad,
}

/// The five recognised members of an override object.
pub ghost struct FieldsSpec {
    pub model: FieldState,
    pub id: FieldState,
    pub label: FieldState,
    pub description: FieldState,
    pub effort: EffortState,
}

/// All members still unseen.
pub open spec fn fields_init() -> FieldsSpec {
    FieldsSpec {
        model: FieldState::Absent,
        id: FieldState::Absent,
        label: FieldState::Absent,
        description: FieldState::Absent,
        effort: EffortState::Absent,
    }
}

/// The reasoning-effort tokens accepted in an override.
pub open spec fn effort_token(t: Seq<char>) -> Option<ReasoningEffort> {
    if t == "minimal"@ {
        Some(ReasoningEffort::Minimal)
    } else if t == "low"@ {
        Some(ReasoningEffort::Low)
    } else if t == "medium"@ {
        Some(ReasoningEffort::Medium)
    } else if t == "high"@ {
        Some(ReasoningEffort::High)
    } else {
        None
    }
}

/// State contributed by a string member whose value starts at `vi`.
pub open spec fn str_value_state(s: Seq<char>, vi: int) -> FieldState {
    match parse_string(s, vi) {
        Some((t, e)) => FieldState::Text(t),
        None => if null_at(s, vi) {
            FieldState::Cleared
        } else {
            FieldState::Bad
        },
    }
}

/// State contributed by an `effort` member whose value starts at `vi`.
pub open spec fn effort_value_state(s: Seq<char>, vi: int) -> EffortState {
    match parse_string(s, vi) {
        Some((t, e)) => match effort_token(t) {
            Some(l) => EffortState::Level(l),
            None => EffortState::Bad,
        },
        None => if null_at(s, vi) {
            EffortState::Cleared
        } else {
            EffortState::Bad
        },
    }
}

/// Folds one object member (key and value position) into the field record;
/// a later occurrence of the same key overrides an earlier one, and an
/// unrecognised key changes nothing.
pub open spec fn apply_member(s: Seq<char>, key: Seq<char>, vi: int, f: FieldsSpec) -> FieldsSpec {
    if key == "model"@ {
        FieldsSpec { model: str_value_state(s, vi), ..f }
    } else if key == "id"@ {
        FieldsSpec { id: str_value_state(s, vi), ..f }
    } else if key == "label"@ {
        FieldsSpec { label: str_value_state(s, vi), ..f }
    } else if key == "description"@ {
        FieldsSpec { description: str_value_state(s, vi), ..f }
    } else if key == "effort"@ {
        FieldsSpec { effort: effort_value_state(s, vi), ..f }
    } else {
        f
    }
}

/// The preset an override object yields, if any: `model` must have
/// occurred as a string, no recognised member may have the wrong shape,
/// `id` and `label` default to the model, the description to empty, the
/// effort to absent.
pub open spec fn entry_of_fields(f: FieldsSpec) -> Option<PresetSpec> {
    match f.model {
        FieldState::Text(m) => {
            if f.id is Bad || f.label is Bad || f.description is Bad || f.effort is Bad {
                None
            } else {
                Some(
                    PresetSpec {
                        id: match f.id {
                            FieldState::Text(x) => x,
                            _ => m,
                        },
                        label: match f.label {
                            FieldState::Text(x) => x,
                            _ => m,
                        },
                        description: match f.description {
                            FieldState::Text(x) => x,
                            _ => Seq::empty(),
                        },
                        model: m,
                        effort: match f.effort {
                            EffortState::Level(l) => Some(l),
                            _ => None,
                        },
                    },
                )
            }
        },
        _ => None,
    }
}

/// The preset a bare-string element yields: id and label equal the model,
/// no description, no effort.
pub open spec fn shorthand_preset(m: Seq<char>) -> PresetSpec {
    PresetSpec { id: m, label: m, description: Seq::empty(), model: m, effort: None }
}

/// Walks the members of an override object whose next key starts at `i`,
/// folding each into the field record: the record and the position after
/// the closing brace, or `None` where the object is not valid JSON.
pub open spec fn obj_members_cls(s: Seq<char>, i: int, f: FieldsSpec) -> Option<(FieldsSpec, int)>
    decreases s.len() - i,
{
    match parse_string(s, i) {
        None => None,
        Some((key, j)) => {
            let c1 = skip_ws(s, j);
            if 0 <= c1 < s.len() && s[c1] == ':' {
                let vi = skip_ws(s, c1 + 1);
                if i < vi <= s.len() {
                    match skip_value(s, vi) {
                        None => None,
                        Some(w) => {
                            let f2 = apply_member(s, key, vi, f);
                            let k = skip_ws(s, w);
                            if 0 <= k < s.len() && s[k] == '}' {
                                Some((f2, k + 1))
                            } else if 0 <= k < s.len() && s[k] == ',' {
                                let m = skip_ws(s, k + 1);
                                if i < m <= s.len() {
                                    obj_members_cls(s, m, f2)
                                } else {
                                    None
                                }
                            } else {
                                None
                            }
                        },
                    }
                } else {
                    None
                }
            } else {
                None
            }
        },
    }
}

/// Classifies the array element starting at `i`: the preset it yields (or
/// `None` where it is valid JSON of the wrong shape) and the position
/// after it, or `None` where it is not valid JSON.
pub open spec fn elem_cls(s: Seq<char>, i: int) -> Option<(Option<PresetSpec>, int)> {
    if !(0 <= i < s.len()) {
        None
    } else if s[i] == '"' {
        match parse_string(s, i) {
            Some((m, e)) => Some((Some(shorthand_preset(m)), e)),
            None => None,
        }
    } else if s[i] == '{' {
        let j = skip_ws(s, i + 1);
        if 0 <= j < s.len() && s[j] == '}' {
            Some((None, j + 1))
        } else {
            match obj_members_cls(s, j, fields_init()) {
                Some((f, e)) => Some((entry_of_fields(f), e)),
                None => None,
            }
        }
    } else {
        match skip_value(s, i) {
            Some(e) => Some((None, e)),
            None => None,
        }
    }
}

/// Walks the array items whose next element starts at `i`, keeping the
/// presets of the valid elements in order: the presets and the position
/// after the closing bracket, or `None` where the array is not valid JSON.
pub open spec fn arr_items_cls(s: Seq<char>, i: int, acc: Seq<PresetSpec>) -> Option<
    (Seq<PresetSpec>, int),
>
    decreases s.len() - i,
{
    match elem_cls(s, i) {
        None => None,
        Some((e, j)) => {
            let acc2 = match e {
                Some(p) => acc.push(p),
                None => acc,
            };
            let k = skip_ws(s, j);
            if 0 <= k < s.len() && s[k] == ']' {
                Some((acc2, k + 1))
            } else if 0 <= k < s.len() && s[k] == ',' {
                let m = skip_ws(s, k + 1);
                if i < m <= s.len() {
                    arr_items_cls(s, m, acc2)
                } else {
                    None
                }
            } else {
                None
            }
        },
    }
}

/// What the override document yields: the presets of its valid elements,
/// in order, or `None` where the text is not valid JSON, not an array, or
/// yields no valid element.
pub open spec fn user_presets_spec(s: Seq<char>) -> Option<Seq<PresetSpec>> {
    let i = skip_ws(s, 0);
    if 0 <= i < s.len() && s[i] == '[' {
        let j = skip_ws(s, i + 1);
        let r = if 0 <= j < s.len() && s[j] == ']' {
            Some((Seq::<PresetSpec>::empty(), j + 1))
        } else {
            arr_items_cls(s, j, Seq::empty())
        };
        match r {
            None => None,
            Some((ps, e)) => if skip_ws(s, e) == s.len() && ps.len() > 0 {
                Some(ps)
            } else {
                None
            },
        }
    } else {
        None
    }
}

/// The members walk accepts a member list exactly where the JSON grammar
/// does, and ends at the same place.
proof fn lemma_obj_members_agree(s: Seq<char>, i: int, f: FieldsSpec)
    ensures
        match obj_members_cls(s, i, f) {
            Some((f2, e)) => obj_members(s, i) == Some(e),
            None => obj_members(s, i) is None,
        },
    decreases s.len() - i,
{
    match parse_string(s, i) {
        None => {},
        Some((key, j)) => {
            let c1 = skip_ws(s, j);
            if 0 <= c1 < s.len() && s[c1] == ':' {
                let vi = skip_ws(s, c1 + 1);
                if i < vi <= s.len() {
                    match skip_value(s, vi) {
                        None => {},
                        Some(w) => {
                            let k = skip_ws(s, w);
                            if 0 <= k < s.len() && s[k] == ',' {
                                let m = skip_ws(s, k + 1);
                                if i < m <= s.len() {
                                    lemma_obj_members_agree(s, m, apply_member(s, key, vi, f));
                                }
                            }
                        },
                    }
                }
            }
        },
    }
}

/// An element is classified exactly where a JSON value stands, and both
/// end at the same place.
proof fn lemma_elem_agrees(s: Seq<char>, i: int)
    ensures
        match elem_cls(s, i) {
            Some((op, e)) => skip_value(s, i) == Some(e),
            None => skip_value(s, i) is None,
        },
{
    if 0 <= i < s.len() && s[i] == '{' {
        lemma_skip_ws(s, i + 1);
        let j = skip_ws(s, i + 1);
        if !(0 <= j < s.len() && s[j] == '}') {
            lemma_obj_members_agree(s, j, fields_init());
        }
    }
}

/// The items walk accepts an item list exactly where the JSON grammar
/// does, and ends at the same place.
proof fn lemma_arr_items_agree(s: Seq<char>, i: int, acc: Seq<PresetSpec>)
    ensures
        match arr_items_cls(s, i, acc) {
            Some((ps, e)) => arr_items(s, i) == Some(e),
            None => arr_items(s, i) is None,
        },
    decreases s.len() - i,
{
    lemma_elem_agrees(s, i);
    match elem_cls(s, i) {
        None => {},
        Some((op, j)) => {
            let k = skip_ws(s, j);
            if 0 <= k < s.len() && s[k] == ',' {
                let m = skip_ws(s, k + 1);
                if i < m <= s.len() {
                    let acc2 = match op {
                        Some(p) => acc.push(p),
                        None => acc,
                    };
                    lemma_arr_items_agree(s, m, acc2);
                }
            }
        },
    }
}

/// An override list is only ever taken from text that is, in whole, one
/// well-formed JSON array; on any other text the loader falls back to the
/// built-in catalog.
pub proof fn lemma_overrides_only_from_json(s: Seq<char>)
    ensures
        user_presets_spec(s) is Some ==> is_json_array_doc(s),
{
    if user_presets_spec(s) is Some {
        lemma_skip_ws(s, 0);
        let i = skip_ws(s, 0);
        lemma_skip_ws(s, i + 1);
        let j = skip_ws(s, i + 1);
        if !(0 <= j < s.len() && s[j] == ']') {
            lemma_arr_items_agree(s, j, Seq::empty());
        }
    }
}

/// The view of an element's yield.
pub open spec fn opt_preset_view(op: Option<OwnedModelPreset>) -> Option<PresetSpec> {
    match op {
        Some(p) => Some(p@),
        None => None,
    }
}

/// Latest state of one optional string member, executable form.
enum StrFieldX {
    Absent,
    Cleared,
    Text(Vec<char>),
    Bad,
}

impl View for StrFieldX {
    type V = FieldState;

    closed spec fn view(&self) -> FieldState {
        match self {
            StrFieldX::Absent => FieldState::Absent,
            StrFieldX::Cleared => FieldState::Cleared,
            StrFieldX::Text(v) => FieldState::Text(v@),
            StrFieldX::Bad => FieldState::Bad,
        }
    }
}

/// Latest state of the `effort` member, executable form.
enum EffortFieldX {
    Absent,
    Cleared,
    Level(ReasoningEffort),
    Bad,
}

impl View for EffortFieldX {
    type V = EffortState;

    closed spec fn view(&self) -> EffortState {
        match self {
            EffortFieldX::Absent => EffortState::Absent,
            EffortFieldX::Cleared => EffortState::Cleared,
            EffortFieldX::Level(l) => EffortState::Level(*l),
            EffortFieldX::Bad => EffortState::Bad,
        }
    }
}

/// The five recognised members, executable form.
struct FieldsX {
    model: StrFieldX,
    id: StrFieldX,
    label: StrFieldX,
    description: StrFieldX,
    effort: EffortFieldX,
}

impl View for FieldsX {
    type V = FieldsSpec;

    closed spec fn view(&self) -> FieldsSpec {
        FieldsSpec {
            model: self.model@,
            id: self.id@,
            label: self.label@,
            description: self.description@,
            effort: self.effort@,
        }
    }
}

/// Character-for-character equality of two vectors.
fn chars_eq(a: &Vec<char>, b: &Vec<char>) -> (r: bool)
    ensures
        r == (a@ == b@),
{
    if a.len() != b.len() {
        return false;
    }
    let mut i: usize = 0;
    while i < a.len()
        invariant
            i <= a@.len(),
            a@.len() == b@.len(),
            forall|k: int| 0 <= k < i ==> a@[k] == b@[k],
        decreases a@.len() - i,
    {
        if a[i] != b[i] {
            return false;
        }
        i = i + 1;
    }
    proof {
        assert(a@ =~= b@);
    }
    true
}

/// Whether `v` holds exactly the characters of the literal.
fn chars_eq_lit(v: &Vec<char>, lit: &str) -> (r: bool)
    ensures
        r == (v@ == lit@),
{
    let l = chars_of(lit);
    chars_eq(v, &l)
}

/// Scanner for [`null_at`].
fn null_at_x(s: &Vec<char>, i: usize) -> (r: bool)
    requires
        i <= s@.len(),
    ensures
        r == null_at(s@, i as int),
{
    s.len() - i >= 4 && s[i] == 'n' && s[i + 1] == 'u' && s[i + 2] == 'l' && s[i + 3] == 'l'
}

/// Decoder for [`effort_token`].
fn effort_token_x(t: &Vec<char>) -> (r: Option<ReasoningEffort>)
    ensures
        r == effort_token(t@),
{
    if chars_eq_lit(t, "minimal") {
        Some(ReasoningEffort::Minimal)
    } else if chars_eq_lit(t, "low") {
        Some(ReasoningEffort::Low)
    } else if chars_eq_lit(t, "medium") {
        Some(ReasoningEffort::Medium)
    } else if chars_eq_lit(t, "high") {
        Some(ReasoningEffort::High)
    } else {
        None
    }
}

/// Scanner for [`str_value_state`].
fn str_value_state_x(s: &Vec<char>, vi: usize) -> (r: StrFieldX)
    requires
        vi <= s@.len(),
    ensures
        r@ == str_value_state(s@, vi as int),
{
    match parse_string_x(s, vi) {
        Some((t, _e)) => StrFieldX::Text(t),
        None => if null_at_x(s, vi) {
            StrFieldX::Cleared
        } else {
            StrFieldX::Bad
        },
    }
}

/// Scanner for [`effort_value_state`].
fn effort_value_state_x(s: &Vec<char>, vi: usize) -> (r: EffortFieldX)
    requires
        vi <= s@.len(),
    ensures
        r@ == effort_value_state(s@, vi as int),
{
    match parse_string_x(s, vi) {
        Some((t, _e)) => match effort_token_x(&t) {
            Some(l) => EffortFieldX::Level(l),
            None => EffortFieldX::Bad,
        },
        None => if null_at_x(s, vi) {
            EffortFieldX::Cleared
        } else {
            EffortFieldX::Bad
        },
    }
}

/// Folder for [`apply_member`].
fn apply_member_x(s: &Vec<char>, key: &Vec<char>, vi: usize, f: FieldsX) -> (r: FieldsX)
    requires
        vi <= s@.len(),
    ensures
        r@ == apply_member(s@, key@, vi as int, f@),
{
    if chars_eq_lit(key, "model") {
        FieldsX { model: str_value_state_x(s, vi), ..f }
    } else if chars_eq_lit(key, "id") {
        FieldsX { id: str_value_state_x(s, vi), ..f }
    } else if chars_eq_lit(key, "label") {
        FieldsX { label: str_value_state_x(s, vi), ..f }
    } else if chars_eq_lit(key, "description") {
        FieldsX { description: str_value_state_x(s, vi), ..f }
    } else if chars_eq_lit(key, "effort") {
        FieldsX { effort: effort_value_state_x(s, vi), ..f }
    } else {
        f
    }
}

/// Builder for [`entry_of_fields`].
fn entry_from_fields(f: FieldsX) -> (r: Option<OwnedModelPreset>)
    ensures
        opt_preset_view(r) == entry_of_fields(f@),
{
    let FieldsX { model, id, label, description, effort } = f;
    let m = match model {
        StrFieldX::Text(v) => v,
        _ => {
            return None;
        },
    };
    let id_bad = match id {
        StrFieldX::Bad => true,
        _ => false,
    };
    let label_bad = match label {
        StrFieldX::Bad => true,
        _ => false,
    };
    let description_bad = match description {
        StrFieldX::Bad => true,
        _ => false,
    };
    let effort_bad = match effort {
        EffortFieldX::Bad => true,
        _ => false,
    };
    if id_bad || label_bad || description_bad || effort_bad {
        return None;
    }
    let id_s = match id {
        StrFieldX::Text(v) => string_of(&v),
        _ => string_of(&m),
    };
    let label_s = match label {
        StrFieldX::Text(v) => string_of(&v),
        _ => string_of(&m),
    };
    let description_s = match description {
        StrFieldX::Text(v) => string_of(&v),
        _ => String::new(),
    };
    let eff = match effort {
        EffortFieldX::Level(l) => Some(l),
        _ => None,
    };
    Some(
        OwnedModelPreset {
            id: id_s,
            label: label_s,
            description: description_s,
            model: string_of(&m),
            effort: eff,
        },
    )
}

/// Walker for [`obj_members_cls`].
fn obj_members_cls_x(s: &Vec<char>, i: usize, f: FieldsX) -> (r: Option<(FieldsX, usize)>)
    requires
        i <= s@.len(),
    ensures
        match r {
            Some((f2, j)) => obj_members_cls(s@, i as int, f@) == Some((f2@, j as int)) && i < j
                <= s@.len(),
            None => obj_members_cls(s@, i as int, f@) is None,
        },
    decreases s@.len() - i,
{
    match parse_string_x(s, i) {
        None => None,
        Some((key, j)) => {
            let c1 = skip_ws_x(s, j);
            if c1 < s.len() && s[c1] == ':' {
                let vi = skip_ws_x(s, c1 + 1);
                match skip_value_x(s, vi) {
                    None => None,
                    Some(w) => {
                        let f2 = apply_member_x(s, &key, vi, f);
                        let k = skip_ws_x(s, w);
                        if k < s.len() && s[k] == '}' {
                            Some((f2, k + 1))
                        } else if k < s.len() && s[k] == ',' {
                            let m = skip_ws_x(s, k + 1);
                            obj_members_cls_x(s, m, f2)
                        } else {
                            None
                        }
                    },
                }
            } else {
                None
            }
        },
    }
}

/// Classifier for [`elem_cls`].
fn elem_x(s: &Vec<char>, i: usize) -> (r: Option<(Option<OwnedModelPreset>, usize)>)
    requires
        i <= s@.len(),
    ensures
        match r {
            Some((op, j)) => elem_cls(s@, i as int) == Some((opt_preset_view(op), j as int)) && i
                < j <= s@.len(),
            None => elem_cls(s@, i as int) is None,
        },
{
    if i >= s.len() {
        return None;
    }
    let c = s[i];
    if c == '"' {
        match parse_string_x(s, i) {
            Some((m, e)) => {
                let p = OwnedModelPreset {
                    id: string_of(&m),
                    label: string_of(&m),
                    description: String::new(),
                    model: string_of(&m),
                    effort: None,
                };
                Some((Some(p), e))
            },
            None => None,
        }
    } else if c == '{' {
        let j = skip_ws_x(s, i + 1);
        if j < s.len() && s[j] == '}' {
            Some((None, j + 1))
        } else {
            let f0 = FieldsX {
                model: StrFieldX::Absent,
                id: StrFieldX::Absent,
                label: StrFieldX::Absent,
                description: StrFieldX::Absent,
                effort: EffortFieldX::Absent,
            };
            match obj_members_cls_x(s, j, f0) {
                Some((f, e)) => Some((entry_from_fields(f), e)),
                None => None,
            }
        }
    } else {
        match skip_value_x(s, i) {
            Some(e) => Some((None, e)),
            None => None,
        }
    }
}

/// Walker for [`arr_items_cls`].
fn arr_items_cls_x(s: &Vec<char>, i: usize, acc: Vec<OwnedModelPreset>) -> (r: Option<
    (Vec<OwnedModelPreset>, usize),
>)
    requires
        i <= s@.len(),
    ensures
        match r {
            Some((v, j)) => arr_items_cls(s@, i as int, owned_catalog_view(acc@)) == Some(
                (owned_catalog_view(v@), j as int),
            ) && i < j <= s@.len(),
            None => arr_items_cls(s@, i as int, owned_catalog_view(acc@)) is None,
        },
    decreases s@.len() - i,
{
    match elem_x(s, i) {
        None => None,
        Some((e, j)) => {
            let mut acc2 = acc;
            match e {
                Some(p) => {
                    proof {
                        assert(owned_catalog_view(acc2@.push(p)) =~= owned_catalog_view(
                            acc2@,
                        ).push(p@));
                    }
                    acc2.push(p);
                },
                None => {},
            }
            let k = skip_ws_x(s, j);
            if k < s.len() && s[k] == ']' {
                Some((acc2, k + 1))
            } else if k < s.len() && s[k] == ',' {
                let m = skip_ws_x(s, k + 1);
                arr_items_cls_x(s, m, acc2)
            } else {
                None
            }
        },
    }
}

/// Decodes a list of presets from override document text: the presets of
/// the valid elements, in order, or `None` where the text is not valid
/// JSON, not an array, or yields no valid element.
pub fn parse_user_presets(json: &str) -> (r: Option<Vec<OwnedModelPreset>>)
    ensures
        match r {
            Some(v) => user_presets_spec(json@) == Some(owned_catalog_view(v@)) && v@.len() > 0,
            None => user_presets_spec(json@) is None,
        },
{
    let s = chars_of(json);
    let i = skip_ws_x(&s, 0);
    if i >= s.len() || s[i] != '[' {
        return None;
    }
    let j = skip_ws_x(&s, i + 1);
    proof {
        assert(owned_catalog_view(Seq::<OwnedModelPreset>::empty())
            =~= Seq::<PresetSpec>::empty());
    }
    let r = if j < s.len() && s[j] == ']' {
        Some((Vec::<OwnedModelPreset>::new(), j + 1))
    } else {
        arr_items_cls_x(&s, j, Vec::new())
    };
    match r {
        None => None,
        Some((ps, e)) => {
            let k = skip_ws_x(&s, e);
            if k == s.len() && ps.len() > 0 {
                Some(ps)
            } else {
                None
            }
        },
    }
}

} // verus!
