//! Manufacturers of equipment.
use vstd::prelude::*;

use crate::error::{is_validation_error, AppError};
use crate::fields::{
    bool_or, opt_view, read_bool_or, read_s, read_timestamp_or, timestamp_or, write_timestamp,
};
use crate::item::{lookup, push_if, s_at, AttrView, Item, ItemView};

use crate::text::{is_blank, is_blank_spec};
use crate::time::{chrono_format_datetime, chrono_parse_datetime, now, Timestamp};

use crate::models::address::Address;

use crate::tables::{attr_fits, item_fits_table, spec_manufacturers_table};

verus! {

/// A maker of equipment.
#[derive(Clone, Debug)]
pub struct Manufacturer {
    pub id: String,
    pub name: String,
    pub phone: String,
    pub email: String,
    pub website: Option<String>,
    pub notes: Option<String>,
    pub address: Address,
    pub support_contact: Option<String>,
    pub warranty_contact: Option<String>,
    pub active: bool,
    pub created_at: Timestamp,
    pub updated_at: Timestamp,
}

impl Manufacturer {
    /// The instants are ones that `chrono` represents.
    pub open spec fn wf(&self) -> bool {
        &&& self.created_at.valid()
        &&& self.updated_at.valid()
    }

    /// Whether an item holds what this entity needs to be read from it.
    pub open spec fn item_readable(iv: ItemView) -> bool {
        &&& s_at(iv, "id"@) is Some
        &&& s_at(iv, "name"@) is Some
        &&& s_at(iv, "phone"@) is Some
        &&& s_at(iv, "email"@) is Some
        &&& lookup(iv, "address"@) matches Some(v) && Address::value_readable(v)
    }

    /// Whether this entity is what is read from an item, where instants that
    /// cannot be read are taken to be `now`.
    pub open spec fn read_from(&self, iv: ItemView, now: Timestamp) -> bool {
        &&& Some(self.id@) == s_at(iv, "id"@)
        &&& Some(self.name@) == s_at(iv, "name"@)
        &&& Some(self.phone@) == s_at(iv, "phone"@)
        &&& Some(self.email@) == s_at(iv, "email"@)
        &&& opt_view(self.website) == s_at(iv, "website"@)
        &&& opt_view(self.notes) == s_at(iv, "notes"@)
        &&& lookup(iv, "address"@) matches Some(v) && self.address.read_from_value(v)
        &&& opt_view(self.support_contact) == s_at(iv, "support_contact"@)
        &&& opt_view(self.warranty_contact) == s_at(iv, "warranty_contact"@)
        &&& self.active == bool_or(iv, "active"@, true)
        &&& self.created_at == timestamp_or(iv, "created_at"@, now)
        &&& self.updated_at == timestamp_or(iv, "updated_at"@, now)
    }

    /// The item that `to_item` writes.
    /// `av` is the value written for the address.
    pub open spec fn spec_item(&self, av: AttrView) -> ItemView {
        let iv = Seq::empty();
        let iv = iv.push(("id"@, AttrView::S(self.id@)));
        let iv = iv.push(("name"@, AttrView::S(self.name@)));
        let iv = iv.push(("phone"@, AttrView::S(self.phone@)));
        let iv = iv.push(("email"@, AttrView::S(self.email@)));
        let iv = push_if(iv, self.website is Some, ("website"@, AttrView::S(self.website->0@)));
        let iv = push_if(iv, self.notes is Some, ("notes"@, AttrView::S(self.notes->0@)));
        let iv = iv.push(("address"@, av));
        let iv = push_if(iv, self.support_contact is Some, ("support_contact"@, AttrView::S(self.support_contact->0@)));
        let iv = push_if(iv, self.warranty_contact is Some, ("warranty_contact"@, AttrView::S(self.warranty_contact->0@)));
        let iv = iv.push(("active"@, AttrView::Bool(self.active)));
        let iv = iv.push(("created_at"@, AttrView::S(chrono_format_datetime(self.created_at))));
        let iv = iv.push(("updated_at"@, AttrView::S(chrono_format_datetime(self.updated_at))));
        iv
    }

    /// Whether two entities hold the same values.
    pub open spec fn same_as(&self, other: &Manufacturer) -> bool {
        &&& self.id@ == other.id@
        &&& self.name@ == other.name@
        &&& self.phone@ == other.phone@
        &&& self.email@ == other.email@
        &&& opt_view(self.website) == opt_view(other.website)
        &&& opt_view(self.notes) == opt_view(other.notes)
        &&& self.address.same_as(&other.address)
        &&& opt_view(self.support_contact) == opt_view(other.support_contact)
        &&& opt_view(self.warranty_contact) == opt_view(other.warranty_contact)
        &&& self.active == other.active
        &&& self.created_at == other.created_at
        &&& self.updated_at == other.updated_at
    }

    /// Reads the entity from an item, taking `now` for instants that are missing.
    pub fn from_item_at(item: &Item, now: Timestamp) -> (res: Option<Self>)
        requires
            now.valid(),
        ensures
            res is Some <==> Self::item_readable(item@),
            res matches Some(e) ==> e.read_from(item@, now) && e.wf(),
    {
        let id = read_s(item, "id")?;
        let name = read_s(item, "name")?;
        let phone = read_s(item, "phone")?;
        let email = read_s(item, "email")?;
        let website = read_s(item, "website");
        let notes = read_s(item, "notes");
        let address = Address::from_item(item.get("address")?)?;
        let support_contact = read_s(item, "support_contact");
        let warranty_contact = read_s(item, "warranty_contact");
        let active = read_bool_or(item, "active", true);
        let created_at = read_timestamp_or(item, "created_at", now);
        let updated_at = read_timestamp_or(item, "updated_at", now);
        Some(Manufacturer {
            id,
            name,
            phone,
            email,
            website,
            notes,
            address,
            support_contact,
            warranty_contact,
            active,
            created_at,
            updated_at,
        })
    }

    /// Reads the entity from an item; instants that are missing are read from the clock.
    pub fn from_item(item: &Item) -> (res: Option<Self>)
        ensures
            res is Some <==> Self::item_readable(item@),
            res matches Some(e) ==> e.wf() && exists|t: Timestamp| t.valid() && e.read_from(item@, t),
    {
        let t = now();
        Self::from_item_at(item, t)
    }

    /// Writes the entity as an item.
    pub fn to_item(&self) -> (res: Item)
        requires
            self.wf(),
        ensures
            exists|av: AttrView| res@ == self.spec_item(av) && Address::written_as(av, self.address),
    {
        let ghost mut av: AttrView = AttrView::Bool(false);
        reveal(push_if);
        let mut item = Item::new();
        let ghost mut iv: ItemView = Seq::empty();
        item.insert_s("id", self.id.clone());
        proof { iv = iv.push(("id"@, AttrView::S(self.id@))); }
        assert(item@ == iv);
        item.insert_s("name", self.name.clone());
        proof { iv = iv.push(("name"@, AttrView::S(self.name@))); }
        assert(item@ == iv);
        item.insert_s("phone", self.phone.clone());
        proof { iv = iv.push(("phone"@, AttrView::S(self.phone@))); }
        assert(item@ == iv);
        item.insert_s("email", self.email.clone());
        proof { iv = iv.push(("email"@, AttrView::S(self.email@))); }
        assert(item@ == iv);
        if let Some(x) = &self.website {
            item.insert_s("website", x.clone());
        }
        proof { iv = push_if(iv, self.website is Some, ("website"@, AttrView::S(self.website->0@))); }
        assert(item@ == iv);
        if let Some(x) = &self.notes {
            item.insert_s("notes", x.clone());
        }
        proof { iv = push_if(iv, self.notes is Some, ("notes"@, AttrView::S(self.notes->0@))); }
        assert(item@ == iv);
        let value = self.address.to_item();
        proof { av = value@; }
        item.insert("address".to_owned(), value);
        proof { iv = iv.push(("address"@, av)); }
        assert(item@ == iv);
        if let Some(x) = &self.support_contact {
            item.insert_s("support_contact", x.clone());
        }
        proof { iv = push_if(iv, self.support_contact is Some, ("support_contact"@, AttrView::S(self.support_contact->0@))); }
        assert(item@ == iv);
        if let Some(x) = &self.warranty_contact {
            item.insert_s("warranty_contact", x.clone());
        }
        proof { iv = push_if(iv, self.warranty_contact is Some, ("warranty_contact"@, AttrView::S(self.warranty_contact->0@))); }
        assert(item@ == iv);
        item.insert_bool("active", self.active);
        proof { iv = iv.push(("active"@, AttrView::Bool(self.active))); }
        assert(item@ == iv);
        write_timestamp(&mut item, "created_at", &self.created_at);
        proof { iv = iv.push(("created_at"@, AttrView::S(chrono_format_datetime(self.created_at)))); }
        assert(item@ == iv);
        write_timestamp(&mut item, "updated_at", &self.updated_at);
        proof { iv = iv.push(("updated_at"@, AttrView::S(chrono_format_datetime(self.updated_at)))); }
        assert(item@ == iv);
        assert(item@ == self.spec_item(av));
        item
    }

    /// Every attribute the `Manufacturers` table defines holds, in the item the entity is
    /// written as, nothing or a value of the type the table gives it, so
    /// DynamoDB accepts the item.
    pub proof fn lemma_item_fits_table(a: &Manufacturer, av: AttrView)
        ensures
            item_fits_table(a.spec_item(av), spec_manufacturers_table()),
    {
        broadcast use crate::item::lemma_lookup_push, crate::item::lemma_lookup_push_if;
        lemma_keys_distinct();
        let t = spec_manufacturers_table();
        assert forall|i: int| 0 <= i < t.attributes.len() implies match #[trigger] crate::item::lookup(a.spec_item(av), t.attributes[i].0) {
            Some(v) => attr_fits(t.attributes[i].1, v),
            None => true,
        } by {
            if i == 0 { assert(t.attributes[0].0 == "id"@); }
        }
    }

    /// Reading the entity back from the item it is written as gives the same
    /// entity, where `chrono` reads back the text of its instants.
    pub proof fn lemma_item_roundtrip(a: &Manufacturer, b: &Manufacturer, now: Timestamp, av: AttrView)
        requires
            a.wf(),
            Address::written_as(av, a.address),
            chrono_parse_datetime(chrono_format_datetime(a.created_at)) == Some(a.created_at),
            chrono_parse_datetime(chrono_format_datetime(a.updated_at)) == Some(a.updated_at),
        ensures
            Self::item_readable(a.spec_item(av)),
            b.read_from(a.spec_item(av), now) ==> b.same_as(a),
    {
        broadcast use crate::item::lemma_lookup_push, crate::item::lemma_lookup_push_if;
        lemma_keys_distinct();
        Address::lemma_value_roundtrip(&a.address, &b.address, av);
    }

    /// Which check, if any, the arguments of `new` fail, in the order they are made.
    pub open spec fn spec_new_error(name: Seq<char>, email: Seq<char>) -> Option<Seq<char>> {
        if is_blank_spec(name) {
            Some("Manufacturer name cannot be empty"@)
        } else if is_blank_spec(email) {
            Some("Email cannot be empty"@)
        } else {
            None
        }
    }

    /// Creates a manufacturer; its name and e-mail must be filled.
    pub fn new(
        id: String,
        name: String,
        phone: String,
        email: String,
        website: Option<String>,
        notes: Option<String>,
        address: Address,
        support_contact: Option<String>,
        warranty_contact: Option<String>,
        active: bool,
    ) -> (res: Result<Self, AppError>)
        ensures
            match Self::spec_new_error(name@, email@) {
                Some(m) => is_validation_error(res, m),
                None => res matches Ok(m) && {
                    &&& m.id == id && m.name == name && m.phone == phone && m.email == email
                    &&& m.website == website && m.notes == notes && m.address == address
                    &&& m.support_contact == support_contact && m.warranty_contact == warranty_contact
                    &&& m.active == active && m.created_at == m.updated_at && m.created_at.valid()
                },
            },
            res matches Ok(x) ==> !is_blank_spec(x.name@) && !is_blank_spec(x.email@),
    {
        let now = now();
        if is_blank(name.as_str()) {
            return Err(AppError::ValidationError("Manufacturer name cannot be empty".to_owned()));
        }
        if is_blank(email.as_str()) {
            return Err(AppError::ValidationError("Email cannot be empty".to_owned()));
        }
        Ok(Manufacturer {
            id,
            name,
            phone,
            email,
            website,
            notes,
            address,
            support_contact,
            warranty_contact,
            active,
            created_at: now,
            updated_at: now,
        })
    }

}

proof fn lemma_keys_distinct()
    ensures
        "id"@ != "name"@,
        "id"@ != "phone"@,
        "id"@ != "email"@,
        "id"@ != "website"@,
        "id"@ != "notes"@,
        "id"@ != "address"@,
        "id"@ != "support_contact"@,
        "id"@ != "warranty_contact"@,
        "id"@ != "active"@,
        "id"@ != "created_at"@,
        "id"@ != "updated_at"@,
        "name"@ != "phone"@,
        "name"@ != "email"@,
        "name"@ != "website"@,
        "name"@ != "notes"@,
        "name"@ != "address"@,
        "name"@ != "support_contact"@,
        "name"@ != "warranty_contact"@,
        "name"@ != "active"@,
        "name"@ != "created_at"@,
        "name"@ != "updated_at"@,
        "phone"@ != "email"@,
        "phone"@ != "website"@,
        "phone"@ != "notes"@,
        "phone"@ != "address"@,
        "phone"@ != "support_contact"@,
        "phone"@ != "warranty_contact"@,
        "phone"@ != "active"@,
        "phone"@ != "created_at"@,
        "phone"@ != "updated_at"@,
        "email"@ != "website"@,
        "email"@ != "notes"@,
        "email"@ != "address"@,
        "email"@ != "support_contact"@,
        "email"@ != "warranty_contact"@,
        "email"@ != "active"@,
        "email"@ != "created_at"@,
        "email"@ != "updated_at"@,
        "website"@ != "notes"@,
        "website"@ != "address"@,
        "website"@ != "support_contact"@,
        "website"@ != "warranty_contact"@,
        "website"@ != "active"@,
        "website"@ != "created_at"@,
        "website"@ != "updated_at"@,
        "notes"@ != "address"@,
        "notes"@ != "support_contact"@,
        "notes"@ != "warranty_contact"@,
        "notes"@ != "active"@,
        "notes"@ != "created_at"@,
        "notes"@ != "updated_at"@,
        "address"@ != "support_contact"@,
        "address"@ != "warranty_contact"@,
        "address"@ != "active"@,
        "address"@ != "created_at"@,
        "address"@ != "updated_at"@,
        "support_contact"@ != "warranty_contact"@,
        "support_contact"@ != "active"@,
        "support_contact"@ != "created_at"@,
        "support_contact"@ != "updated_at"@,
        "warranty_contact"@ != "active"@,
        "warranty_contact"@ != "created_at"@,
        "warranty_contact"@ != "updated_at"@,
        "active"@ != "created_at"@,
        "active"@ != "updated_at"@,
        "created_at"@ != "updated_at"@,
{
    broadcast use vstd::string::group_string_axioms;
    reveal_strlit("id");
    reveal_strlit("name");
    reveal_strlit("phone");
    reveal_strlit("email");
    reveal_strlit("website");
    reveal_strlit("notes");
    reveal_strlit("address");
    reveal_strlit("support_contact");
    reveal_strlit("warranty_contact");
    reveal_strlit("active");
    reveal_strlit("created_at");
    reveal_strlit("updated_at");
    assert("id"@.len() == 2);
    assert("name"@.len() == 4);
    assert("phone"@.len() == 5);
    assert("email"@.len() == 5);
    assert("website"@.len() == 7);
    assert("notes"@.len() == 5);
    assert("address"@.len() == 7);
    assert("support_contact"@.len() == 15);
    assert("warranty_contact"@.len() == 16);
    assert("active"@.len() == 6);
    assert("created_at"@.len() == 10);
    assert("updated_at"@.len() == 10);
    assert("phone"@[0] != "email"@[0]);
    assert("phone"@[0] != "notes"@[0]);
    assert("email"@[0] != "notes"@[0]);
    assert("website"@[0] != "address"@[0]);
    assert("created_at"@[0] != "updated_at"@[0]);
}

} // verus!
