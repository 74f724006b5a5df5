//! DynamoDB items as plain values: a sequence of named attribute values, where
//! a later entry for a name stands over an earlier one, as successive inserts
//! into a map do.
use vstd::prelude::*;

verus! {

/// An attribute value of a DynamoDB item.
#[derive(Debug)]
pub enum AttrValue {
    S(String),
    N(String),
    Bool(bool),
    Null(bool),
    Ss(Vec<String>),
    L(Vec<AttrValue>),
    M(Item),
}

/// A DynamoDB item: attribute names and values, in the order they were put.
#[derive(Debug)]
pub struct Item {
    pub entries: Vec<(String, AttrValue)>,
}

/// The content of an attribute value; nested lists and maps are kept as values.
pub enum AttrView {
    S(Seq<char>),
    N(Seq<char>),
    Bool(bool),
    Null(bool),
    Ss(Seq<Seq<char>>),
    L(Seq<AttrValue>),
    M(Seq<(String, AttrValue)>),
}

pub type ItemView = Seq<(Seq<char>, AttrView)>;

impl View for AttrValue {
    type V = AttrView;

    open spec fn view(&self) -> AttrView {
        match self {
            AttrValue::S(s) => AttrView::S(s@),
            AttrValue::N(s) => AttrView::N(s@),
            AttrValue::Bool(b) => AttrView::Bool(*b),
            AttrValue::Null(b) => AttrView::Null(*b),
            AttrValue::Ss(v) => AttrView::Ss(strings_view(v@)),
            AttrValue::L(v) => AttrView::L(v@),
            AttrValue::M(i) => AttrView::M(i.entries@),
        }
    }
}

impl View for Item {
    type V = ItemView;

    open spec fn view(&self) -> ItemView {
        entries_view(self.entries@)
    }
}

/// The texts of a list of strings.
pub open spec fn strings_view(v: Seq<String>) -> Seq<Seq<char>> {
    v.map_values(|s: String| s@)
}

pub open spec fn entries_view(es: Seq<(String, AttrValue)>) -> ItemView {
    es.map_values(|e: (String, AttrValue)| (e.0@, e.1@))
}

/// The value that an item holds for a name: that of the last entry with the name.
pub open spec fn lookup(iv: ItemView, k: Seq<char>) -> Option<AttrView>
    decreases iv.len(),
{
    if iv.len() == 0 {
        None
    } else if iv.last().0 == k {
        Some(iv.last().1)
    } else {
        lookup(iv.drop_last(), k)
    }
}

/// The item with the entry added at its end where `cond` holds.
#[verifier::opaque]
pub open spec fn push_if(iv: ItemView, cond: bool, e: (Seq<char>, AttrView)) -> ItemView {
    if cond {
        iv.push(e)
    } else {
        iv
    }
}

/// The string held for a name, where the value is a string (`as_s`).
pub open spec fn s_at(iv: ItemView, k: Seq<char>) -> Option<Seq<char>> {
    match lookup(iv, k) {
        Some(AttrView::S(s)) => Some(s),
        _ => None,
    }
}

/// The number text held for a name, where the value is a number (`as_n`).
pub open spec fn n_at(iv: ItemView, k: Seq<char>) -> Option<Seq<char>> {
    match lookup(iv, k) {
        Some(AttrView::N(s)) => Some(s),
        _ => None,
    }
}

/// The flag held for a name, where the value is a boolean (`as_bool`).
pub open spec fn bool_at(iv: ItemView, k: Seq<char>) -> Option<bool> {
    match lookup(iv, k) {
        Some(AttrView::Bool(b)) => Some(b),
        _ => None,
    }
}

/// The strings held for a name, where the value is a string set (`as_ss`).
pub open spec fn ss_at(iv: ItemView, k: Seq<char>) -> Option<Seq<Seq<char>>> {
    match lookup(iv, k) {
        Some(AttrView::Ss(v)) => Some(v),
        _ => None,
    }
}

/// The list held for a name, where the value is a list (`as_l`).
pub open spec fn l_at(iv: ItemView, k: Seq<char>) -> Option<Seq<AttrValue>> {
    match lookup(iv, k) {
        Some(AttrView::L(v)) => Some(v),
        _ => None,
    }
}

/// The entries of the map held for a name, where the value is a map (`as_m`).
pub open spec fn m_at(iv: ItemView, k: Seq<char>) -> Option<Seq<(String, AttrValue)>> {
    match lookup(iv, k) {
        Some(AttrView::M(es)) => Some(es),
        _ => None,
    }
}

/// Looking a name up in an item that ends with a new entry: the entry answers
/// for its own name, the rest of the item for the others.
pub broadcast proof fn lemma_lookup_push(iv: ItemView, e: (Seq<char>, AttrView), k: Seq<char>)
    ensures
        #[trigger] lookup(iv.push(e), k) == (if e.0 == k { Some(e.1) } else { lookup(iv, k) }),
{
    assert(iv.push(e).drop_last() =~= iv);
}

/// Looking a name up in an item that may end with a new entry.
pub broadcast proof fn lemma_lookup_push_if(iv: ItemView, cond: bool, e: (Seq<char>, AttrView), k: Seq<char>)
    ensures
        #[trigger] lookup(push_if(iv, cond, e), k) == (if cond && e.0 == k { Some(e.1) } else { lookup(iv, k) }),
{
    reveal(push_if);
    if cond {
        lemma_lookup_push(iv, e, k);
    }
}

proof fn lemma_lookup_take(iv: ItemView, k: Seq<char>, i: int)
    requires
        0 <= i < iv.len(),
        iv[i].0 != k,
    ensures
        lookup(iv.take(i + 1), k) == lookup(iv.take(i), k),
{
    assert(iv.take(i + 1).drop_last() =~= iv.take(i));
}

impl Item {
    /// An item with no attributes.
    pub fn new() -> (res: Item)
        ensures
            res@ == Seq::<(Seq<char>, AttrView)>::empty(),
    {
        let res = Item { entries: Vec::new() };
        assert(res@ =~= Seq::<(Seq<char>, AttrView)>::empty());
        res
    }

    /// Puts a value under a name; it stands over any earlier value of the name.
    pub fn insert(&mut self, k: String, v: AttrValue)
        ensures
            final(self)@ == old(self)@.push((k@, v@)),
    {
        self.entries.push((k, v));
        assert(self@ =~= old(self)@.push((k@, v@)));
    }

    /// Puts a string under a name.
    pub fn insert_s(&mut self, k: &str, v: String)
        ensures
            final(self)@ == old(self)@.push((k@, AttrView::S(v@))),
    {
        self.insert(k.to_owned(), AttrValue::S(v));
    }

    /// Puts a number, given as its text, under a name.
    pub fn insert_n(&mut self, k: &str, v: String)
        ensures
            final(self)@ == old(self)@.push((k@, AttrView::N(v@))),
    {
        self.insert(k.to_owned(), AttrValue::N(v));
    }

    /// Puts a flag under a name.
    pub fn insert_bool(&mut self, k: &str, v: bool)
        ensures
            final(self)@ == old(self)@.push((k@, AttrView::Bool(v))),
    {
        self.insert(k.to_owned(), AttrValue::Bool(v));
    }

    /// Puts a string set under a name.
    pub fn insert_ss(&mut self, k: &str, v: Vec<String>)
        ensures
            final(self)@ == old(self)@.push((k@, AttrView::Ss(strings_view(v@)))),
    {
        self.insert(k.to_owned(), AttrValue::Ss(v));
    }

    /// The value held for a name, if any.
    pub fn get(&self, k: &str) -> (res: Option<&AttrValue>)
        ensures
            match lookup(self@, k@) {
                None => res is None,
                Some(av) => res matches Some(v) && v@ == av,
            },
    {
        let mut i = self.entries.len();
        assert(self@.take(i as int) =~= self@);
        while i > 0
            invariant
                i <= self.entries.len(),
                self@.len() == self.entries.len(),
                lookup(self@, k@) == lookup(self@.take(i as int), k@),
            decreases i,
        {
            let e = &self.entries[i - 1];
            assert(self@[i - 1] == (e.0@, e.1@));
            if crate::text::str_eq(e.0.as_str(), k) {
                assert(self@.take(i as int).last() == self@[i - 1]);
                return Some(&e.1);
            }
            proof {
                lemma_lookup_take(self@, k@, i - 1);
            }
            i = i - 1;
        }
        None
    }

    /// The string held for a name (`get(k)` then `as_s`).
    pub fn get_s(&self, k: &str) -> (res: Option<&String>)
        ensures
            match s_at(self@, k@) {
                None => res is None,
                Some(s) => res matches Some(v) && v@ == s,
            },
    {
        match self.get(k) {
            Some(AttrValue::S(s)) => Some(s),
            _ => None,
        }
    }

    /// The number text held for a name (`get(k)` then `as_n`).
    pub fn get_n(&self, k: &str) -> (res: Option<&String>)
        ensures
            match n_at(self@, k@) {
                None => res is None,
                Some(s) => res matches Some(v) && v@ == s,
            },
    {
        match self.get(k) {
            Some(AttrValue::N(s)) => Some(s),
            _ => None,
        }
    }

    /// The flag held for a name (`get(k)` then `as_bool`).
    pub fn get_bool(&self, k: &str) -> (res: Option<bool>)
        ensures
            res == bool_at(self@, k@),
    {
        match self.get(k) {
            Some(AttrValue::Bool(b)) => Some(*b),
            _ => None,
        }
    }

    /// The string set held for a name (`get(k)` then `as_ss`).
    pub fn get_ss(&self, k: &str) -> (res: Option<&Vec<String>>)
        ensures
            match ss_at(self@, k@) {
                None => res is None,
                Some(v) => res matches Some(x) && strings_view(x@) == v,
            },
    {
        match self.get(k) {
            Some(AttrValue::Ss(v)) => Some(v),
            _ => None,
        }
    }

    /// The list held for a name (`get(k)` then `as_l`).
    pub fn get_l(&self, k: &str) -> (res: Option<&Vec<AttrValue>>)
        ensures
            match l_at(self@, k@) {
                None => res is None,
                Some(v) => res matches Some(x) && x@ == v,
            },
    {
        match self.get(k) {
            Some(AttrValue::L(v)) => Some(v),
            _ => None,
        }
    }

    /// The map held for a name (`get(k)` then `as_m`).
    pub fn get_m(&self, k: &str) -> (res: Option<&Item>)
        ensures
            match m_at(self@, k@) {
                None => res is None,
                Some(es) => res matches Some(x) && x.entries@ == es,
            },
    {
        match self.get(k) {
            Some(AttrValue::M(m)) => Some(m),
            _ => None,
        }
    }
}

} // verus!
