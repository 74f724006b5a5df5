//! Postal addresses, and the map values they are kept as.
use vstd::prelude::*;

use crate::error::AppError;
use crate::fields::{opt_view, read_s};
use crate::item::{entries_view, push_if, s_at, AttrValue, AttrView, Item, ItemView};
use crate::pattern::{check_pattern, pattern_matches, regex_compile_error, regex_is_match};
use crate::text::{is_blank, is_blank_spec, spec_trim, trim};

verus! {

/// The pattern of a street address: a number, then a word.
pub const STREET_ADDRESS_PATTERN: &'static str = r"^\d+\s+\w+.*";

/// The pattern of a post office box.
pub const PO_BOX_PATTERN: &'static str = r"(?i)^P\.?O\.?\s*Box\s+\d+|Post\s*Office\s*Box\s+\d+|Postal\s*Box\s+\d+";

/// A postal address.
#[derive(Clone, Debug)]
pub struct Address {
    pub street: String,
    pub unit: Option<String>,
    pub city: String,
    pub state: String,
    pub country: String,
    pub zip: String,
}

/// An address as a request gives it.
#[derive(Clone, Debug)]
pub struct AddressInput {
    pub street: String,
    pub unit: Option<String>,
    pub city: String,
    pub state: String,
    pub country: String,
    pub zip: String,
}

impl From<AddressInput> for Address {
    fn from(input: AddressInput) -> (res: Address) {
        Address {
            street: input.street,
            unit: input.unit,
            city: input.city,
            state: input.state,
            country: input.country,
            zip: input.zip,
        }
    }
}

impl vstd::std_specs::convert::FromSpecImpl<AddressInput> for Address {
    open spec fn obeys_from_spec() -> bool {
        true
    }

    /// The same fields.
    open spec fn from_spec(input: AddressInput) -> Address {
        Address {
            street: input.street,
            unit: input.unit,
            city: input.city,
            state: input.state,
            country: input.country,
            zip: input.zip,
        }
    }
}

impl From<Address> for AddressInput {
    fn from(address: Address) -> (res: AddressInput) {
        AddressInput {
            street: address.street,
            unit: address.unit,
            city: address.city,
            state: address.state,
            country: address.country,
            zip: address.zip,
        }
    }
}

impl vstd::std_specs::convert::FromSpecImpl<Address> for AddressInput {
    open spec fn obeys_from_spec() -> bool {
        true
    }

    /// The same fields.
    open spec fn from_spec(address: Address) -> AddressInput {
        AddressInput {
            street: address.street,
            unit: address.unit,
            city: address.city,
            state: address.state,
            country: address.country,
            zip: address.zip,
        }
    }
}

impl Address {
    pub fn new(street: String, unit: Option<String>, city: String, state: String, country: String, zip: String) -> (res: Self)
        ensures
            res == (Address { street, unit, city, state, country, zip }),
    {
        Address { street, unit, city, state, country, zip }
    }

    /// What `validate` reports for an address, given how the two patterns
    /// compile: the first check that fails, in the order they are made.
    pub open spec fn spec_validation_error(&self) -> Option<Seq<char>> {
        let street = spec_trim(self.street@);
        if regex_compile_error(PO_BOX_PATTERN@) is Some {
            Some("Internal server error: "@ + regex_compile_error(PO_BOX_PATTERN@)->0)
        } else if regex_compile_error(STREET_ADDRESS_PATTERN@) is Some {
            Some("Internal server error: "@ + regex_compile_error(STREET_ADDRESS_PATTERN@)->0)
        } else if is_blank_spec(self.street@) {
            Some("Street field cannot be empty"@)
        } else if !regex_is_match(STREET_ADDRESS_PATTERN@, street) && !regex_is_match(PO_BOX_PATTERN@, street) {
            Some("Street value invalid"@)
        } else if is_blank_spec(self.city@) {
            Some("City field cannot be empty"@)
        } else if is_blank_spec(self.state@) {
            Some("State field cannot be empty"@)
        } else if is_blank_spec(self.country@) {
            Some("Country field cannot be empty"@)
        } else if is_blank_spec(self.zip@) {
            Some("Zip field cannot be empty"@)
        } else {
            None
        }
    }

    /// Checks the address: every field but the unit is filled, and the street
    /// is a street address or a post office box.
    pub fn validate(&self) -> (res: Result<(), String>)
        ensures
            match self.spec_validation_error() {
                None => res is Ok,
                Some(m) => res matches Err(e) && e@ == m,
            },
    {
        if let Err(e) = check_pattern(PO_BOX_PATTERN) {
            return Err(AppError::InternalServerError(e).to_string());
        }
        if let Err(e) = check_pattern(STREET_ADDRESS_PATTERN) {
            return Err(AppError::InternalServerError(e).to_string());
        }
        if is_blank(self.street.as_str()) {
            return Err("Street field cannot be empty".to_owned());
        }
        let street = trim(self.street.as_str());
        if !pattern_matches(STREET_ADDRESS_PATTERN, street.as_str()) && !pattern_matches(PO_BOX_PATTERN, street.as_str()) {
            return Err("Street value invalid".to_owned());
        }
        if is_blank(self.city.as_str()) {
            return Err("City field cannot be empty".to_owned());
        }
        if is_blank(self.state.as_str()) {
            return Err("State field cannot be empty".to_owned());
        }
        if is_blank(self.country.as_str()) {
            return Err("Country field cannot be empty".to_owned());
        }
        if is_blank(self.zip.as_str()) {
            return Err("Zip field cannot be empty".to_owned());
        }
        Ok(())
    }

    /// Whether a map holds what an address needs to be read from it.
    pub open spec fn entries_readable(iv: ItemView) -> bool {
        &&& s_at(iv, "street"@) is Some
        &&& s_at(iv, "city"@) is Some
        &&& s_at(iv, "state"@) is Some
        &&& s_at(iv, "country"@) is Some
        &&& s_at(iv, "zip"@) is Some
    }

    /// Whether an attribute value is a map that an address can be read from.
    pub open spec fn value_readable(v: AttrView) -> bool {
        v matches AttrView::M(es) && Self::entries_readable(entries_view(es))
    }

    /// Whether this address is what is read from a map.
    pub open spec fn read_from_entries(&self, iv: ItemView) -> bool {
        &&& Some(self.street@) == s_at(iv, "street"@)
        &&& opt_view(self.unit) == s_at(iv, "unit"@)
        &&& Some(self.city@) == s_at(iv, "city"@)
        &&& Some(self.state@) == s_at(iv, "state"@)
        &&& Some(self.country@) == s_at(iv, "country"@)
        &&& Some(self.zip@) == s_at(iv, "zip"@)
    }

    /// Whether this address is what is read from an attribute value.
    pub open spec fn read_from_value(&self, v: AttrView) -> bool {
        v matches AttrView::M(es) && self.read_from_entries(entries_view(es))
    }

    /// The map that `to_item` writes.
    pub open spec fn spec_entries(&self) -> ItemView {
        let iv = Seq::empty();
        let iv = iv.push(("street"@, AttrView::S(self.street@)));
        let iv = push_if(iv, self.unit is Some, ("unit"@, AttrView::S(self.unit->0@)));
        let iv = iv.push(("city"@, AttrView::S(self.city@)));
        let iv = iv.push(("state"@, AttrView::S(self.state@)));
        let iv = iv.push(("country"@, AttrView::S(self.country@)));
        iv.push(("zip"@, AttrView::S(self.zip@)))
    }

    /// Whether `v` is the value written for the address: a map of its fields.
    pub open spec fn written_as(v: AttrView, a: Address) -> bool {
        v matches AttrView::M(es) && entries_view(es) == a.spec_entries()
    }

    /// Whether two addresses hold the same values.
    pub open spec fn same_as(&self, other: &Address) -> bool {
        &&& self.street@ == other.street@
        &&& opt_view(self.unit) == opt_view(other.unit)
        &&& self.city@ == other.city@
        &&& self.state@ == other.state@
        &&& self.country@ == other.country@
        &&& self.zip@ == other.zip@
    }

    /// Reads an address from a map value; a unit that is not a string reads as none.
    pub fn from_item(av: &AttrValue) -> (res: Option<Self>)
        ensures
            res is Some <==> Self::value_readable(av@),
            res matches Some(a) ==> a.read_from_value(av@),
    {
        match av {
            AttrValue::M(item) => {
                let street = read_s(item, "street")?;
                let unit = read_s(item, "unit");
                let city = read_s(item, "city")?;
                let state = read_s(item, "state")?;
                let country = read_s(item, "country")?;
                let zip = read_s(item, "zip")?;
                Some(Address { street, unit, city, state, country, zip })
            },
            _ => None,
        }
    }

    /// Writes the address as a map value.
    pub fn to_item(&self) -> (res: AttrValue)
        ensures
            Self::written_as(res@, *self),
    {
        reveal(push_if);
        let mut item = Item::new();
        item.insert_s("street", self.street.clone());
        if let Some(u) = &self.unit {
            item.insert_s("unit", u.clone());
        }
        item.insert_s("city", self.city.clone());
        item.insert_s("state", self.state.clone());
        item.insert_s("country", self.country.clone());
        item.insert_s("zip", self.zip.clone());
        AttrValue::M(item)
    }

    /// Reading an address back from the value it is written as gives the same address.
    pub proof fn lemma_value_roundtrip(a: &Address, b: &Address, v: AttrView)
        requires
            Self::written_as(v, *a),
        ensures
            Self::value_readable(v),
            b.read_from_value(v) ==> b.same_as(a),
    {
        broadcast use crate::item::lemma_lookup_push, crate::item::lemma_lookup_push_if;
        lemma_keys_distinct();
    }
}

proof fn lemma_keys_distinct()
    ensures
        "street"@ != "unit"@,
        "street"@ != "city"@,
        "street"@ != "state"@,
        "street"@ != "country"@,
        "street"@ != "zip"@,
        "unit"@ != "city"@,
        "unit"@ != "state"@,
        "unit"@ != "country"@,
        "unit"@ != "zip"@,
        "city"@ != "state"@,
        "city"@ != "country"@,
        "city"@ != "zip"@,
        "state"@ != "country"@,
        "state"@ != "zip"@,
        "country"@ != "zip"@,
{
    broadcast use vstd::string::group_string_axioms;
    reveal_strlit("street");
    reveal_strlit("unit");
    reveal_strlit("city");
    reveal_strlit("state");
    reveal_strlit("country");
    reveal_strlit("zip");
    assert("street"@.len() == 6);
    assert("unit"@.len() == 4);
    assert("city"@.len() == 4);
    assert("state"@.len() == 5);
    assert("country"@.len() == 7);
    assert("zip"@.len() == 3);
    assert("unit"@[0] != "city"@[0]);
}

} // verus!
