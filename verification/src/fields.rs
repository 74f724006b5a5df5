//! Reading and writing the kinds of attributes that entities keep in items.
use vstd::prelude::*;

use crate::item::{bool_at, l_at, n_at, s_at, ss_at, strings_view, AttrValue, AttrView, Item, ItemView};
use crate::numeric::{format_i32, parse_i32, spec_format_i32, spec_parse_i32};
use crate::time::{chrono_format_datetime, chrono_parse_datetime, format_datetime, parse_datetime, Timestamp};

verus! {

/// The instant held as text under a name, where `chrono` reads one from it.
pub open spec fn timestamp_at(iv: ItemView, k: Seq<char>) -> Option<Timestamp> {
    match s_at(iv, k) {
        Some(s) => chrono_parse_datetime(s),
        None => None,
    }
}

/// The instant held under a name, or `default` where there is none to read.
pub open spec fn timestamp_or(iv: ItemView, k: Seq<char>, default: Timestamp) -> Timestamp {
    match timestamp_at(iv, k) {
        Some(t) => t,
        None => default,
    }
}

/// The `i32` held as a number under a name, where it reads as one.
pub open spec fn i32_at(iv: ItemView, k: Seq<char>) -> Option<i32> {
    match n_at(iv, k) {
        Some(s) => spec_parse_i32(s),
        None => None,
    }
}

/// The `i32` held under a name, or `default`.
pub open spec fn i32_or(iv: ItemView, k: Seq<char>, default: i32) -> i32 {
    match i32_at(iv, k) {
        Some(n) => n,
        None => default,
    }
}

/// The flag held under a name, or `default`.
pub open spec fn bool_or(iv: ItemView, k: Seq<char>, default: bool) -> bool {
    match bool_at(iv, k) {
        Some(b) => b,
        None => default,
    }
}

/// The strings held under a name, or none.
pub open spec fn ss_or_empty(iv: ItemView, k: Seq<char>) -> Seq<Seq<char>> {
    match ss_at(iv, k) {
        Some(v) => v,
        None => Seq::empty(),
    }
}

/// The list held under a name, or none.
pub open spec fn l_or_empty(iv: ItemView, k: Seq<char>) -> Seq<AttrValue> {
    match l_at(iv, k) {
        Some(l) => l,
        None => Seq::empty(),
    }
}

/// The text of an optional string.
pub open spec fn opt_view(o: Option<String>) -> Option<Seq<char>> {
    match o {
        Some(s) => Some(s@),
        None => None,
    }
}

/// A copy of a string.
pub fn copy_string(s: &String) -> (res: String)
    ensures
        res@ == s@,
{
    s.clone()
}

/// A copy of a list of strings.
pub fn copy_strings(v: &Vec<String>) -> (res: Vec<String>)
    ensures
        strings_view(res@) == strings_view(v@),
        res@.len() == v@.len(),
{
    let mut out: Vec<String> = Vec::new();
    let mut i: usize = 0;
    while i < v.len()
        invariant
            i <= v.len(),
            out@.len() == i,
            forall|j: int| 0 <= j < i ==> #[trigger] out@[j]@ == v@[j]@,
        decreases v.len() - i,
    {
        out.push(v[i].clone());
        i = i + 1;
    }
    assert(strings_view(out@) =~= strings_view(v@));
    out
}

/// The string held under a name (`get(k)?.as_s().ok()?.to_string()`).
pub fn read_s(item: &Item, k: &str) -> (res: Option<String>)
    ensures
        opt_view(res) == s_at(item@, k@),
{
    match item.get_s(k) {
        Some(s) => Some(s.clone()),
        None => None,
    }
}

/// The instant held under a name, where `chrono` reads one.
pub fn read_timestamp(item: &Item, k: &str) -> (res: Option<Timestamp>)
    ensures
        res == timestamp_at(item@, k@),
        res matches Some(t) ==> t.valid(),
{
    match item.get_s(k) {
        Some(s) => parse_datetime(s.as_str()),
        None => None,
    }
}

/// The instant held under a name, or `default`.
pub fn read_timestamp_or(item: &Item, k: &str, default: Timestamp) -> (res: Timestamp)
    requires
        default.valid(),
    ensures
        res == timestamp_or(item@, k@, default),
        res.valid(),
{
    match read_timestamp(item, k) {
        Some(t) => t,
        None => default,
    }
}

/// The `i32` held as a number under a name, where it reads as one.
pub fn read_i32(item: &Item, k: &str) -> (res: Option<i32>)
    ensures
        res == i32_at(item@, k@),
{
    match item.get_n(k) {
        Some(s) => parse_i32(s.as_str()),
        None => None,
    }
}

/// The `i32` held under a name, or `default`.
pub fn read_i32_or(item: &Item, k: &str, default: i32) -> (res: i32)
    ensures
        res == i32_or(item@, k@, default),
{
    match read_i32(item, k) {
        Some(n) => n,
        None => default,
    }
}

/// The flag held under a name, or `default`.
pub fn read_bool_or(item: &Item, k: &str, default: bool) -> (res: bool)
    ensures
        res == bool_or(item@, k@, default),
{
    match item.get_bool(k) {
        Some(b) => b,
        None => default,
    }
}

/// The strings held under a name, or none.
pub fn read_ss_or_empty(item: &Item, k: &str) -> (res: Vec<String>)
    ensures
        strings_view(res@) == ss_or_empty(item@, k@),
{
    match item.get_ss(k) {
        Some(v) => copy_strings(v),
        None => {
            let res: Vec<String> = Vec::new();
            assert(strings_view(res@) =~= Seq::<Seq<char>>::empty());
            res
        },
    }
}

/// Puts an instant under a name, as its text.
pub fn write_timestamp(item: &mut Item, k: &str, t: &Timestamp)
    requires
        t.valid(),
    ensures
        final(item)@ == old(item)@.push((k@, AttrView::S(chrono_format_datetime(*t)))),
        chrono_parse_datetime(chrono_format_datetime(*t)) == Some(*t),
{
    let s = format_datetime(t);
    item.insert_s(k, s);
}

/// Puts an `i32` under a name, as a number.
pub fn write_i32(item: &mut Item, k: &str, n: i32)
    ensures
        final(item)@ == old(item)@.push((k@, AttrView::N(spec_format_i32(n)))),
{
    item.insert_n(k, format_i32(n));
}

} // verus!
