//! JSON documents as their text. A document read from an item is kept in the
//! form that `serde_json` writes it in.
use vstd::prelude::*;

use crate::item::{s_at, Item};

verus! {

/// The text that `serde_json` writes for the value it reads from a text with
/// `serde_json::from_str::<serde_json::Value>`, if it reads one.
pub uninterp spec fn json_canonical(s: Seq<char>) -> Option<Seq<char>>;

/// Reads a JSON value from a text with `serde_json::from_str::<Value>` and
/// writes it back with `serde_json::to_string`, which does not fail on a `Value`.
#[verifier::external_body]
pub(crate) fn canonical_json(s: &str) -> (res: Option<String>)
    ensures
        match json_canonical(s@) {
            Some(t) => res matches Some(r) && r@ == t,
            None => res is None,
        },
{
    match serde_json::from_str::<serde_json::Value>(s) {
        Ok(v) => serde_json::to_string(&v).ok(),
        Err(_) => None,
    }
}

/// The text of an empty JSON object, as `serde_json` writes it.
pub open spec fn empty_object_text() -> Seq<char> {
    seq!['{', '}']
}

/// The document read from an optional text, or an empty object where there
/// is none or it is not JSON.
pub open spec fn json_or_empty_object(s: Option<Seq<char>>) -> Seq<char> {
    match s {
        Some(t) => match json_canonical(t) {
            Some(c) => c,
            None => empty_object_text(),
        },
        None => empty_object_text(),
    }
}

/// The text of an empty JSON object.
pub fn empty_object() -> (res: String)
    ensures
        res@ == empty_object_text(),
{
    let cs = ['{', '}'];
    let res = crate::text::string_from_chars(&cs);
    assert(cs@ =~= empty_object_text());
    res
}

/// The document held as text under a name, or an empty object.
pub fn read_json_or_empty_object(item: &Item, k: &str) -> (res: String)
    ensures
        res@ == json_or_empty_object(s_at(item@, k@)),
{
    match item.get_s(k) {
        Some(t) => match canonical_json(t.as_str()) {
            Some(c) => c,
            None => empty_object(),
        },
        None => empty_object(),
    }
}

} // verus!
