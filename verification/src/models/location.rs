//! Locations where assets stand.
use vstd::prelude::*;

use crate::fields::{
    bool_or, opt_view, read_bool_or, read_s, read_timestamp_or, timestamp_or, write_timestamp,
};
use crate::item::{push_if, s_at, AttrView, Item, ItemView};

use crate::text::{contains_char, is_blank, is_blank_spec};
use crate::time::{chrono_format_datetime, chrono_parse_datetime, now, Timestamp};

use crate::tables::{attr_fits, item_fits_table, spec_locations_table};

verus! {

/// A place where assets are installed.
#[derive(Clone, Debug)]
pub struct Location {
    pub id: String,
    pub name: String,
    pub description: String,
    pub location_type_id: String,
    pub parent_location_id: Option<String>,
    pub address: Option<String>,
    /// Typically `latitude,longitude`.
    pub coordinates: Option<String>,
    pub is_active: bool,
    pub created_at: Timestamp,
    pub updated_at: Timestamp,
}

impl Location {
    /// The instants are ones that `chrono` represents.
    pub open spec fn wf(&self) -> bool {
        &&& self.created_at.valid()
        &&& self.updated_at.valid()
    }

    /// The DynamoDB table of this entity.
    pub fn table_name() -> (res: &'static str)
        ensures
            res@ == "Locations"@,
    {
        "Locations"
    }

    /// The key of the entity in its table.
    pub fn primary_key(&self) -> (res: String)
        ensures
            res@ == self.id@,
    {
        self.id.clone()
    }

    /// Whether an item holds what this entity needs to be read from it.
    pub open spec fn item_readable(iv: ItemView) -> bool {
        &&& s_at(iv, "id"@) is Some
        &&& s_at(iv, "name"@) is Some
        &&& s_at(iv, "description"@) is Some
        &&& s_at(iv, "location_type_id"@) is Some
    }

    /// Whether this entity is what is read from an item, where instants that
    /// cannot be read are taken to be `now`.
    pub open spec fn read_from(&self, iv: ItemView, now: Timestamp) -> bool {
        &&& Some(self.id@) == s_at(iv, "id"@)
        &&& Some(self.name@) == s_at(iv, "name"@)
        &&& Some(self.description@) == s_at(iv, "description"@)
        &&& Some(self.location_type_id@) == s_at(iv, "location_type_id"@)
        &&& opt_view(self.parent_location_id) == s_at(iv, "parent_location_id"@)
        &&& opt_view(self.address) == s_at(iv, "address"@)
        &&& opt_view(self.coordinates) == s_at(iv, "coordinates"@)
        &&& self.is_active == bool_or(iv, "is_active"@, true)
        &&& self.created_at == timestamp_or(iv, "created_at"@, now)
        &&& self.updated_at == timestamp_or(iv, "updated_at"@, now)
    }

    /// The item that `to_item` writes.
    pub open spec fn spec_item(&self) -> ItemView {
        let iv = Seq::empty();
        let iv = iv.push(("id"@, AttrView::S(self.id@)));
        let iv = iv.push(("name"@, AttrView::S(self.name@)));
        let iv = iv.push(("description"@, AttrView::S(self.description@)));
        let iv = iv.push(("location_type_id"@, AttrView::S(self.location_type_id@)));
        let iv = push_if(iv, self.parent_location_id is Some, ("parent_location_id"@, AttrView::S(self.parent_location_id->0@)));
        let iv = push_if(iv, self.address is Some, ("address"@, AttrView::S(self.address->0@)));
        let iv = push_if(iv, self.coordinates is Some, ("coordinates"@, AttrView::S(self.coordinates->0@)));
        let iv = iv.push(("is_active"@, AttrView::Bool(self.is_active)));
        let iv = iv.push(("created_at"@, AttrView::S(chrono_format_datetime(self.created_at))));
        let iv = iv.push(("updated_at"@, AttrView::S(chrono_format_datetime(self.updated_at))));
        iv
    }

    /// Whether two entities hold the same values.
    pub open spec fn same_as(&self, other: &Location) -> bool {
        &&& self.id@ == other.id@
        &&& self.name@ == other.name@
        &&& self.description@ == other.description@
        &&& self.location_type_id@ == other.location_type_id@
        &&& opt_view(self.parent_location_id) == opt_view(other.parent_location_id)
        &&& opt_view(self.address) == opt_view(other.address)
        &&& opt_view(self.coordinates) == opt_view(other.coordinates)
        &&& self.is_active == other.is_active
        &&& self.created_at == other.created_at
        &&& self.updated_at == other.updated_at
    }

    /// Reads the entity from an item, taking `now` for instants that are missing.
    pub fn from_item_at(item: &Item, now: Timestamp) -> (res: Option<Self>)
        requires
            now.valid(),
        ensures
            res is Some <==> Self::item_readable(item@),
            res matches Some(e) ==> e.read_from(item@, now) && e.wf(),
    {
        let id = read_s(item, "id")?;
        let name = read_s(item, "name")?;
        let description = read_s(item, "description")?;
        let location_type_id = read_s(item, "location_type_id")?;
        let parent_location_id = read_s(item, "parent_location_id");
        let address = read_s(item, "address");
        let coordinates = read_s(item, "coordinates");
        let is_active = read_bool_or(item, "is_active", true);
        let created_at = read_timestamp_or(item, "created_at", now);
        let updated_at = read_timestamp_or(item, "updated_at", now);
        Some(Location {
            id,
            name,
            description,
            location_type_id,
            parent_location_id,
            address,
            coordinates,
            is_active,
            created_at,
            updated_at,
        })
    }

    /// Reads the entity from an item; instants that are missing are read from the clock.
    pub fn from_item(item: &Item) -> (res: Option<Self>)
        ensures
            res is Some <==> Self::item_readable(item@),
            res matches Some(e) ==> e.wf() && exists|t: Timestamp| t.valid() && e.read_from(item@, t),
    {
        let t = now();
        Self::from_item_at(item, t)
    }

    /// Writes the entity as an item.
    pub fn to_item(&self) -> (res: Item)
        requires
            self.wf(),
        ensures
            res@ == self.spec_item(),
            Self::item_readable(res@),
            forall|b: Location, now: Timestamp| #[trigger] b.read_from(res@, now) ==> b.same_as(self),
    {
        reveal(push_if);
        let mut item = Item::new();
        let ghost mut iv: ItemView = Seq::empty();
        item.insert_s("id", self.id.clone());
        proof { iv = iv.push(("id"@, AttrView::S(self.id@))); }
        assert(item@ == iv);
        item.insert_s("name", self.name.clone());
        proof { iv = iv.push(("name"@, AttrView::S(self.name@))); }
        assert(item@ == iv);
        item.insert_s("description", self.description.clone());
        proof { iv = iv.push(("description"@, AttrView::S(self.description@))); }
        assert(item@ == iv);
        item.insert_s("location_type_id", self.location_type_id.clone());
        proof { iv = iv.push(("location_type_id"@, AttrView::S(self.location_type_id@))); }
        assert(item@ == iv);
        if let Some(x) = &self.parent_location_id {
            item.insert_s("parent_location_id", x.clone());
        }
        proof { iv = push_if(iv, self.parent_location_id is Some, ("parent_location_id"@, AttrView::S(self.parent_location_id->0@))); }
        assert(item@ == iv);
        if let Some(x) = &self.address {
            item.insert_s("address", x.clone());
        }
        proof { iv = push_if(iv, self.address is Some, ("address"@, AttrView::S(self.address->0@))); }
        assert(item@ == iv);
        if let Some(x) = &self.coordinates {
            item.insert_s("coordinates", x.clone());
        }
        proof { iv = push_if(iv, self.coordinates is Some, ("coordinates"@, AttrView::S(self.coordinates->0@))); }
        assert(item@ == iv);
        item.insert_bool("is_active", self.is_active);
        proof { iv = iv.push(("is_active"@, AttrView::Bool(self.is_active))); }
        assert(item@ == iv);
        write_timestamp(&mut item, "created_at", &self.created_at);
        proof { iv = iv.push(("created_at"@, AttrView::S(chrono_format_datetime(self.created_at)))); }
        assert(item@ == iv);
        write_timestamp(&mut item, "updated_at", &self.updated_at);
        proof { iv = iv.push(("updated_at"@, AttrView::S(chrono_format_datetime(self.updated_at)))); }
        assert(item@ == iv);
        proof {
            Self::lemma_item_roundtrip(self, self, Timestamp { secs: 0, nanos: 0 });
            assert forall|b: Location, now: Timestamp| #[trigger] b.read_from(item@, now) implies b.same_as(self) by {
                Self::lemma_item_roundtrip(self, &b, now);
            }
        }
        item
    }

    /// Every attribute the `Locations` table defines holds, in the item the entity is
    /// written as, nothing or a value of the type the table gives it, so
    /// DynamoDB accepts the item.
    pub proof fn lemma_item_fits_table(a: &Location)
        ensures
            item_fits_table(a.spec_item(), spec_locations_table()),
    {
        broadcast use crate::item::lemma_lookup_push, crate::item::lemma_lookup_push_if;
        lemma_keys_distinct();
        let t = spec_locations_table();
        assert forall|i: int| 0 <= i < t.attributes.len() implies match #[trigger] crate::item::lookup(a.spec_item(), t.attributes[i].0) {
            Some(v) => attr_fits(t.attributes[i].1, v),
            None => true,
        } by {
            if i == 0 { assert(t.attributes[0].0 == "id"@); } else if i == 1 { assert(t.attributes[1].0 == "location_type_id"@); }
        }
    }

    /// Reading the entity back from the item it is written as gives the same
    /// entity, where `chrono` reads back the text of its instants.
    pub proof fn lemma_item_roundtrip(a: &Location, b: &Location, now: Timestamp)
        requires
            a.wf(),
            chrono_parse_datetime(chrono_format_datetime(a.created_at)) == Some(a.created_at),
            chrono_parse_datetime(chrono_format_datetime(a.updated_at)) == Some(a.updated_at),
        ensures
            Self::item_readable(a.spec_item()),
            b.read_from(a.spec_item(), now) ==> b.same_as(a),
    {
        broadcast use crate::item::lemma_lookup_push, crate::item::lemma_lookup_push_if;
        lemma_keys_distinct();
    }

    /// Creates an active location stamped with the current time.
    pub fn new(
        id: String,
        name: String,
        description: String,
        location_type_id: String,
        parent_location_id: Option<String>,
        address: Option<String>,
        coordinates: Option<String>,
    ) -> (res: Self)
        ensures
            res.id == id && res.name == name && res.description == description,
            res.location_type_id == location_type_id,
            res.parent_location_id == parent_location_id,
            res.address == address && res.coordinates == coordinates,
            res.is_active,
            res.created_at == res.updated_at,
            res.wf(),
    {
        let now = now();
        Location {
            id,
            name,
            description,
            location_type_id,
            parent_location_id,
            address,
            coordinates,
            is_active: true,
            created_at: now,
            updated_at: now,
        }
    }

    /// Which check, if any, a location fails, in the order they are made.
    pub open spec fn spec_validation_error(&self) -> Option<Seq<char>> {
        if is_blank_spec(self.name@) || is_blank_spec(self.description@) {
            Some("Name and Description cannot be empty"@)
        } else if is_blank_spec(self.location_type_id@) {
            Some("Location type ID cannot be empty"@)
        } else if self.coordinates matches Some(c) && !is_blank_spec(c@) && !c@.contains(',') {
            Some("Coordinates must be in format 'latitude,longitude'"@)
        } else {
            None
        }
    }

    /// Refuses a location with a blank name, description or location type, or
    /// with coordinates that are not blank and hold no comma.
    pub fn validate(&self) -> (res: Result<(), String>)
        ensures
            match self.spec_validation_error() {
                None => res is Ok,
                Some(m) => res matches Err(e) && e@ == m,
            },
    {
        if is_blank(self.name.as_str()) || is_blank(self.description.as_str()) {
            return Err("Name and Description cannot be empty".to_owned());
        }
        if is_blank(self.location_type_id.as_str()) {
            return Err("Location type ID cannot be empty".to_owned());
        }
        if let Some(coords) = &self.coordinates {
            if !is_blank(coords.as_str()) && !contains_char(coords.as_str(), ',') {
                return Err("Coordinates must be in format 'latitude,longitude'".to_owned());
            }
        }
        Ok(())
    }

}

proof fn lemma_keys_distinct()
    ensures
        "id"@ != "name"@,
        "id"@ != "description"@,
        "id"@ != "location_type_id"@,
        "id"@ != "parent_location_id"@,
        "id"@ != "address"@,
        "id"@ != "coordinates"@,
        "id"@ != "is_active"@,
        "id"@ != "created_at"@,
        "id"@ != "updated_at"@,
        "name"@ != "description"@,
        "name"@ != "location_type_id"@,
        "name"@ != "parent_location_id"@,
        "name"@ != "address"@,
        "name"@ != "coordinates"@,
        "name"@ != "is_active"@,
        "name"@ != "created_at"@,
        "name"@ != "updated_at"@,
        "description"@ != "location_type_id"@,
        "description"@ != "parent_location_id"@,
        "description"@ != "address"@,
        "description"@ != "coordinates"@,
        "description"@ != "is_active"@,
        "description"@ != "created_at"@,
        "description"@ != "updated_at"@,
        "location_type_id"@ != "parent_location_id"@,
        "location_type_id"@ != "address"@,
        "location_type_id"@ != "coordinates"@,
        "location_type_id"@ != "is_active"@,
        "location_type_id"@ != "created_at"@,
        "location_type_id"@ != "updated_at"@,
        "parent_location_id"@ != "address"@,
        "parent_location_id"@ != "coordinates"@,
        "parent_location_id"@ != "is_active"@,
        "parent_location_id"@ != "created_at"@,
        "parent_location_id"@ != "updated_at"@,
        "address"@ != "coordinates"@,
        "address"@ != "is_active"@,
        "address"@ != "created_at"@,
        "address"@ != "updated_at"@,
        "coordinates"@ != "is_active"@,
        "coordinates"@ != "created_at"@,
        "coordinates"@ != "updated_at"@,
        "is_active"@ != "created_at"@,
        "is_active"@ != "updated_at"@,
        "created_at"@ != "updated_at"@,
{
    broadcast use vstd::string::group_string_axioms;
    reveal_strlit("id");
    reveal_strlit("name");
    reveal_strlit("description");
    reveal_strlit("location_type_id");
    reveal_strlit("parent_location_id");
    reveal_strlit("address");
    reveal_strlit("coordinates");
    reveal_strlit("is_active");
    reveal_strlit("created_at");
    reveal_strlit("updated_at");
    assert("id"@.len() == 2);
    assert("name"@.len() == 4);
    assert("description"@.len() == 11);
    assert("location_type_id"@.len() == 16);
    assert("parent_location_id"@.len() == 18);
    assert("address"@.len() == 7);
    assert("coordinates"@.len() == 11);
    assert("is_active"@.len() == 9);
    assert("created_at"@.len() == 10);
    assert("updated_at"@.len() == 10);
    assert("description"@[0] != "coordinates"@[0]);
    assert("created_at"@[0] != "updated_at"@[0]);
}

} // verus!
