//! The kinds of locations.
use vstd::prelude::*;

use crate::fields::{read_s, read_timestamp_or, timestamp_or, write_timestamp};
use crate::item::{push_if, s_at, AttrView, Item, ItemView};

use crate::text::{is_blank, is_blank_spec};
use crate::time::{chrono_format_datetime, chrono_parse_datetime, now, Timestamp};

use crate::tables::{attr_fits, item_fits_table, spec_location_types_table};

verus! {

/// A kind of location, such as a kitchen or a warehouse.
#[derive(Clone, Debug)]
pub struct LocationType {
    pub id: String,
    pub name: String,
    pub description: String,
    pub created_at: Timestamp,
    pub updated_at: Timestamp,
}

impl LocationType {
    /// The instants are ones that `chrono` represents.
    pub open spec fn wf(&self) -> bool {
        &&& self.created_at.valid()
        &&& self.updated_at.valid()
    }

    /// Whether an item holds what this entity needs to be read from it.
    pub open spec fn item_readable(iv: ItemView) -> bool {
        &&& s_at(iv, "id"@) is Some
        &&& s_at(iv, "name"@) is Some
        &&& s_at(iv, "description"@) is Some
    }

    /// Whether this entity is what is read from an item, where instants that
    /// cannot be read are taken to be `now`.
    pub open spec fn read_from(&self, iv: ItemView, now: Timestamp) -> bool {
        &&& Some(self.id@) == s_at(iv, "id"@)
        &&& Some(self.name@) == s_at(iv, "name"@)
        &&& Some(self.description@) == s_at(iv, "description"@)
        &&& self.created_at == timestamp_or(iv, "created_at"@, now)
        &&& self.updated_at == timestamp_or(iv, "updated_at"@, now)
    }

    /// The item that `to_item` writes.
    pub open spec fn spec_item(&self) -> ItemView {
        let iv = Seq::empty();
        let iv = iv.push(("id"@, AttrView::S(self.id@)));
        let iv = iv.push(("name"@, AttrView::S(self.name@)));
        let iv = iv.push(("description"@, AttrView::S(self.description@)));
        let iv = iv.push(("created_at"@, AttrView::S(chrono_format_datetime(self.created_at))));
        let iv = iv.push(("updated_at"@, AttrView::S(chrono_format_datetime(self.updated_at))));
        iv
    }

    /// Whether two entities hold the same values.
    pub open spec fn same_as(&self, other: &LocationType) -> bool {
        &&& self.id@ == other.id@
        &&& self.name@ == other.name@
        &&& self.description@ == other.description@
        &&& self.created_at == other.created_at
        &&& self.updated_at == other.updated_at
    }

    /// Reads the entity from an item, taking `now` for instants that are missing.
    pub fn from_item_at(item: &Item, now: Timestamp) -> (res: Option<Self>)
        requires
            now.valid(),
        ensures
            res is Some <==> Self::item_readable(item@),
            res matches Some(e) ==> e.read_from(item@, now) && e.wf(),
    {
        let id = read_s(item, "id")?;
        let name = read_s(item, "name")?;
        let description = read_s(item, "description")?;
        let created_at = read_timestamp_or(item, "created_at", now);
        let updated_at = read_timestamp_or(item, "updated_at", now);
        Some(LocationType {
            id,
            name,
            description,
            created_at,
            updated_at,
        })
    }

    /// Reads the entity from an item; instants that are missing are read from the clock.
    pub fn from_item(item: &Item) -> (res: Option<Self>)
        ensures
            res is Some <==> Self::item_readable(item@),
            res matches Some(e) ==> e.wf() && exists|t: Timestamp| t.valid() && e.read_from(item@, t),
    {
        let t = now();
        Self::from_item_at(item, t)
    }

    /// Writes the entity as an item.
    pub fn to_item(&self) -> (res: Item)
        requires
            self.wf(),
        ensures
            res@ == self.spec_item(),
            Self::item_readable(res@),
            forall|b: LocationType, now: Timestamp| #[trigger] b.read_from(res@, now) ==> b.same_as(self),
    {
        reveal(push_if);
        let mut item = Item::new();
        let ghost mut iv: ItemView = Seq::empty();
        item.insert_s("id", self.id.clone());
        proof { iv = iv.push(("id"@, AttrView::S(self.id@))); }
        assert(item@ == iv);
        item.insert_s("name", self.name.clone());
        proof { iv = iv.push(("name"@, AttrView::S(self.name@))); }
        assert(item@ == iv);
        item.insert_s("description", self.description.clone());
        proof { iv = iv.push(("description"@, AttrView::S(self.description@))); }
        assert(item@ == iv);
        write_timestamp(&mut item, "created_at", &self.created_at);
        proof { iv = iv.push(("created_at"@, AttrView::S(chrono_format_datetime(self.created_at)))); }
        assert(item@ == iv);
        write_timestamp(&mut item, "updated_at", &self.updated_at);
        proof { iv = iv.push(("updated_at"@, AttrView::S(chrono_format_datetime(self.updated_at)))); }
        assert(item@ == iv);
        proof {
            Self::lemma_item_roundtrip(self, self, Timestamp { secs: 0, nanos: 0 });
            assert forall|b: LocationType, now: Timestamp| #[trigger] b.read_from(item@, now) implies b.same_as(self) by {
                Self::lemma_item_roundtrip(self, &b, now);
            }
        }
        item
    }

    /// Every attribute the `LocationTypes` table defines holds, in the item the entity is
    /// written as, nothing or a value of the type the table gives it, so
    /// DynamoDB accepts the item.
    pub proof fn lemma_item_fits_table(a: &LocationType)
        ensures
            item_fits_table(a.spec_item(), spec_location_types_table()),
    {
        broadcast use crate::item::lemma_lookup_push, crate::item::lemma_lookup_push_if;
        lemma_keys_distinct();
        let t = spec_location_types_table();
        assert forall|i: int| 0 <= i < t.attributes.len() implies match #[trigger] crate::item::lookup(a.spec_item(), t.attributes[i].0) {
            Some(v) => attr_fits(t.attributes[i].1, v),
            None => true,
        } by {
            if i == 0 { assert(t.attributes[0].0 == "id"@); }
        }
    }

    /// Reading the entity back from the item it is written as gives the same
    /// entity, where `chrono` reads back the text of its instants.
    pub proof fn lemma_item_roundtrip(a: &LocationType, b: &LocationType, now: Timestamp)
        requires
            a.wf(),
            chrono_parse_datetime(chrono_format_datetime(a.created_at)) == Some(a.created_at),
            chrono_parse_datetime(chrono_format_datetime(a.updated_at)) == Some(a.updated_at),
        ensures
            Self::item_readable(a.spec_item()),
            b.read_from(a.spec_item(), now) ==> b.same_as(a),
    {
        broadcast use crate::item::lemma_lookup_push, crate::item::lemma_lookup_push_if;
        lemma_keys_distinct();
    }

    /// Creates a location type stamped with the current time.
    pub fn new(id: String, name: String, description: String) -> (res: Self)
        ensures
            res.id == id && res.name == name && res.description == description,
            res.created_at == res.updated_at,
            res.wf(),
    {
        let now = now();
        LocationType { id, name, description, created_at: now, updated_at: now }
    }

    /// Refuses a location type whose name or description is blank.
    pub fn validate(&self) -> (res: Result<(), String>)
        ensures
            res is Ok <==> !is_blank_spec(self.name@) && !is_blank_spec(self.description@),
            res matches Err(m) ==> m@ == "Name and Description cannot be empty"@,
    {
        if is_blank(self.name.as_str()) || is_blank(self.description.as_str()) {
            return Err("Name and Description cannot be empty".to_owned());
        }
        Ok(())
    }

}

proof fn lemma_keys_distinct()
    ensures
        "id"@ != "name"@,
        "id"@ != "description"@,
        "id"@ != "created_at"@,
        "id"@ != "updated_at"@,
        "name"@ != "description"@,
        "name"@ != "created_at"@,
        "name"@ != "updated_at"@,
        "description"@ != "created_at"@,
        "description"@ != "updated_at"@,
        "created_at"@ != "updated_at"@,
{
    broadcast use vstd::string::group_string_axioms;
    reveal_strlit("id");
    reveal_strlit("name");
    reveal_strlit("description");
    reveal_strlit("created_at");
    reveal_strlit("updated_at");
    assert("id"@.len() == 2);
    assert("name"@.len() == 4);
    assert("description"@.len() == 11);
    assert("created_at"@.len() == 10);
    assert("updated_at"@.len() == 10);
    assert("created_at"@[0] != "updated_at"@[0]);
}

} // verus!
