//! Asset types and the categories they fall in.
use vstd::prelude::*;

use crate::error::AppError;
use crate::fields::{read_s, read_timestamp_or, timestamp_or, write_timestamp};
use crate::item::{s_at, AttrView, Item, ItemView};
use crate::text::{ascii_lower, is_ascii_text, is_blank, is_blank_spec, str_eq, str_lowercase, to_lowercase};
use crate::time::{chrono_format_datetime, chrono_parse_datetime, now, Timestamp};

use crate::tables::{attr_fits, item_fits_table, spec_asset_types_table};

verus! {

/// The kind of place or activity that an asset type serves.
#[derive(Clone, Copy, Debug, PartialEq, Eq, Structural, Hash)]
pub enum AssetTypeCategory {
    FoodProduction,
    BeverageProduction,
    Bar,
    Refrigeration,
    Storage,
    Office,
    Garage,
    Entertainment,
    Infrastructure,
    Utilities,
    Lab,
    Miscellaneous,
}

impl AssetTypeCategory {
    /// The text that stands for the variant in items and requests.
    pub open spec fn spec_str(self) -> Seq<char> {
        match self {
            AssetTypeCategory::FoodProduction => "food-production"@,
            AssetTypeCategory::BeverageProduction => "beverage-production"@,
            AssetTypeCategory::Bar => "bar"@,
            AssetTypeCategory::Refrigeration => "refrigeration"@,
            AssetTypeCategory::Storage => "storage"@,
            AssetTypeCategory::Office => "office"@,
            AssetTypeCategory::Garage => "garage"@,
            AssetTypeCategory::Entertainment => "entertainment"@,
            AssetTypeCategory::Infrastructure => "infrastructure"@,
            AssetTypeCategory::Utilities => "utilities"@,
            AssetTypeCategory::Lab => "lab"@,
            AssetTypeCategory::Miscellaneous => "miscellaneous"@,
        }
    }

    /// The variant that a text stands for, if any.
    pub open spec fn spec_parse(s: Seq<char>) -> Option<AssetTypeCategory> {
        if s == "food-production"@ {
            Some(AssetTypeCategory::FoodProduction)
        } else if s == "beverage-production"@ {
            Some(AssetTypeCategory::BeverageProduction)
        } else if s == "bar"@ {
            Some(AssetTypeCategory::Bar)
        } else if s == "refrigeration"@ {
            Some(AssetTypeCategory::Refrigeration)
        } else if s == "storage"@ {
            Some(AssetTypeCategory::Storage)
        } else if s == "office"@ {
            Some(AssetTypeCategory::Office)
        } else if s == "garage"@ {
            Some(AssetTypeCategory::Garage)
        } else if s == "entertainment"@ {
            Some(AssetTypeCategory::Entertainment)
        } else if s == "infrastructure"@ {
            Some(AssetTypeCategory::Infrastructure)
        } else if s == "utilities"@ {
            Some(AssetTypeCategory::Utilities)
        } else if s == "lab"@ {
            Some(AssetTypeCategory::Lab)
        } else if s == "miscellaneous"@ {
            Some(AssetTypeCategory::Miscellaneous)
        } else {
            None
        }
    }

    pub fn to_str(&self) -> (res: &'static str)
        ensures
            res@ == self.spec_str(),
    {
        match self {
            AssetTypeCategory::FoodProduction => "food-production",
            AssetTypeCategory::BeverageProduction => "beverage-production",
            AssetTypeCategory::Bar => "bar",
            AssetTypeCategory::Refrigeration => "refrigeration",
            AssetTypeCategory::Storage => "storage",
            AssetTypeCategory::Office => "office",
            AssetTypeCategory::Garage => "garage",
            AssetTypeCategory::Entertainment => "entertainment",
            AssetTypeCategory::Infrastructure => "infrastructure",
            AssetTypeCategory::Utilities => "utilities",
            AssetTypeCategory::Lab => "lab",
            AssetTypeCategory::Miscellaneous => "miscellaneous",
        }
    }

    pub fn to_string(&self) -> (res: String)
        ensures
            res@ == self.spec_str(),
    {
        self.to_str().to_owned()
    }

    /// Reads a variant from its text; any other text is refused with a `DatabaseError`.
    pub fn from_string(s: &str) -> (res: Result<AssetTypeCategory, AppError>)
        ensures
            match AssetTypeCategory::spec_parse(s@) {
                Some(v) => res == Ok::<AssetTypeCategory, AppError>(v),
                None => res matches Err(AppError::DatabaseError(m)) && m@ == "Invalid category string string for asset type"@,
            },
    {
        if str_eq(s, "food-production") {
            Ok(AssetTypeCategory::FoodProduction)
        } else if str_eq(s, "beverage-production") {
            Ok(AssetTypeCategory::BeverageProduction)
        } else if str_eq(s, "bar") {
            Ok(AssetTypeCategory::Bar)
        } else if str_eq(s, "refrigeration") {
            Ok(AssetTypeCategory::Refrigeration)
        } else if str_eq(s, "storage") {
            Ok(AssetTypeCategory::Storage)
        } else if str_eq(s, "office") {
            Ok(AssetTypeCategory::Office)
        } else if str_eq(s, "garage") {
            Ok(AssetTypeCategory::Garage)
        } else if str_eq(s, "entertainment") {
            Ok(AssetTypeCategory::Entertainment)
        } else if str_eq(s, "infrastructure") {
            Ok(AssetTypeCategory::Infrastructure)
        } else if str_eq(s, "utilities") {
            Ok(AssetTypeCategory::Utilities)
        } else if str_eq(s, "lab") {
            Ok(AssetTypeCategory::Lab)
        } else if str_eq(s, "miscellaneous") {
            Ok(AssetTypeCategory::Miscellaneous)
        } else {
            Err(AppError::DatabaseError("Invalid category string string for asset type".to_owned()))
        }
    }

    /// Reading back the text of a variant gives the variant.
    pub proof fn lemma_parse_str(v: AssetTypeCategory)
        ensures
            AssetTypeCategory::spec_parse(v.spec_str()) == Some(v),
    {
        broadcast use vstd::string::group_string_axioms;
        reveal_strlit("food-production");
        reveal_strlit("beverage-production");
        reveal_strlit("bar");
        reveal_strlit("refrigeration");
        reveal_strlit("storage");
        reveal_strlit("office");
        reveal_strlit("garage");
        reveal_strlit("entertainment");
        reveal_strlit("infrastructure");
        reveal_strlit("utilities");
        reveal_strlit("lab");
        reveal_strlit("miscellaneous");
        assert("food-production"@.len() == 15);
        assert("beverage-production"@.len() == 19);
        assert("bar"@.len() == 3);
        assert("refrigeration"@.len() == 13);
        assert("storage"@.len() == 7);
        assert("office"@.len() == 6);
        assert("garage"@.len() == 6);
        assert("entertainment"@.len() == 13);
        assert("infrastructure"@.len() == 14);
        assert("utilities"@.len() == 9);
        assert("lab"@.len() == 3);
        assert("miscellaneous"@.len() == 13);
        assert("bar"@[0] != "lab"@[0]);
        assert("refrigeration"@[0] != "entertainment"@[0]);
        assert("refrigeration"@[0] != "miscellaneous"@[0]);
        assert("office"@[0] != "garage"@[0]);
        assert("entertainment"@[0] != "miscellaneous"@[0]);
    }
}

/// A kind of asset, such as a walk-in cooler or a forklift.
#[derive(Clone, Debug)]
pub struct AssetType {
    pub id: String,
    pub name: String,
    pub description: String,
    pub category: AssetTypeCategory,
    pub created_at: Timestamp,
    pub updated_at: Timestamp,
}

impl AssetType {
    /// The instants are ones that `chrono` represents.
    pub open spec fn wf(&self) -> bool {
        self.created_at.valid() && self.updated_at.valid()
    }

    /// Creates an asset type; the category is read from its text in lower case.
    pub fn new(id: String, name: String, description: String, category: String) -> (res: Result<Self, AppError>)
        ensures
            match AssetTypeCategory::spec_parse(str_lowercase(category@)) {
                Some(c) => res matches Ok(a) && {
                    &&& a.id == id && a.name == name && a.description == description
                    &&& a.category == c
                    &&& a.created_at == a.updated_at
                    &&& a.wf()
                },
                None => res matches Err(AppError::DatabaseError(m))
                    && m@ == "Invalid category string string for asset type"@,
            },
            is_ascii_text(category@) ==> str_lowercase(category@) == category@.map_values(|c: char| ascii_lower(c)),
    {
        let now = now();
        let lower = to_lowercase(category.as_str());
        let cat = AssetTypeCategory::from_string(lower.as_str())?;
        Ok(AssetType { id, name, description, category: cat, created_at: now, updated_at: now })
    }

    /// Refuses an asset type whose name or description is blank.
    pub fn validate(&self) -> (res: Result<(), String>)
        ensures
            res is Ok <==> !is_blank_spec(self.name@) && !is_blank_spec(self.description@),
            res matches Err(m) ==> m@ == "Name and Description cannot be empty"@,
    {
        if is_blank(self.name.as_str()) || is_blank(self.description.as_str()) {
            return Err("Name and Description cannot be empty".to_owned());
        }
        Ok(())
    }

    /// The DynamoDB table of asset types.
    pub fn table_name() -> (res: &'static str)
        ensures
            res@ == "AssetTypes"@,
    {
        "AssetTypes"
    }

    /// The key of the asset type in its table.
    pub fn primary_key(&self) -> (res: String)
        ensures
            res@ == self.id@,
    {
        self.id.clone()
    }

    /// Whether an item holds what an asset type needs: id, name, description
    /// and a known category.
    pub open spec fn item_readable(iv: ItemView) -> bool {
        &&& s_at(iv, "id"@) is Some
        &&& s_at(iv, "name"@) is Some
        &&& s_at(iv, "description"@) is Some
        &&& s_at(iv, "category"@) matches Some(c) && AssetTypeCategory::spec_parse(c) is Some
    }

    /// Whether this asset type is what `from_item` reads from an item, where
    /// instants that cannot be read are taken to be `now`.
    pub open spec fn read_from(&self, iv: ItemView, now: Timestamp) -> bool {
        &&& Some(self.id@) == s_at(iv, "id"@)
        &&& Some(self.name@) == s_at(iv, "name"@)
        &&& Some(self.description@) == s_at(iv, "description"@)
        &&& Some(self.category) == AssetTypeCategory::spec_parse(s_at(iv, "category"@)->0)
        &&& self.created_at == timestamp_or(iv, "created_at"@, now)
        &&& self.updated_at == timestamp_or(iv, "updated_at"@, now)
    }

    /// The item that `to_item` writes.
    pub open spec fn spec_item(&self) -> ItemView {
        Seq::empty()
            .push(("id"@, AttrView::S(self.id@)))
            .push(("name"@, AttrView::S(self.name@)))
            .push(("description"@, AttrView::S(self.description@)))
            .push(("category"@, AttrView::S(self.category.spec_str())))
            .push(("created_at"@, AttrView::S(chrono_format_datetime(self.created_at))))
            .push(("updated_at"@, AttrView::S(chrono_format_datetime(self.updated_at))))
    }

    /// Whether two asset types hold the same values.
    pub open spec fn same_as(&self, other: &AssetType) -> bool {
        &&& self.id@ == other.id@
        &&& self.name@ == other.name@
        &&& self.description@ == other.description@
        &&& self.category == other.category
        &&& self.created_at == other.created_at
        &&& self.updated_at == other.updated_at
    }

    /// Reads an asset type from an item, taking `now` for instants that are missing.
    pub fn from_item_at(item: &Item, now: Timestamp) -> (res: Option<Self>)
        requires
            now.valid(),
        ensures
            res is Some <==> Self::item_readable(item@),
            res matches Some(a) ==> a.read_from(item@, now) && a.wf(),
    {
        let id = read_s(item, "id")?;
        let name = read_s(item, "name")?;
        let description = read_s(item, "description")?;
        let category_str = item.get_s("category")?;
        let category = AssetTypeCategory::from_string(category_str.as_str()).ok()?;
        let created_at = read_timestamp_or(item, "created_at", now);
        let updated_at = read_timestamp_or(item, "updated_at", now);
        Some(AssetType { id, name, description, category, created_at, updated_at })
    }

    /// Reads an asset type from an item; instants that are missing are read
    /// from the clock.
    pub fn from_item(item: &Item) -> (res: Option<Self>)
        ensures
            res is Some <==> Self::item_readable(item@),
            res matches Some(a) ==> a.wf() && exists|t: Timestamp| t.valid() && a.read_from(item@, t),
    {
        let t = now();
        Self::from_item_at(item, t)
    }

    /// Writes the asset type as an item.
    pub fn to_item(&self) -> (res: Item)
        requires
            self.wf(),
        ensures
            res@ == self.spec_item(),
            Self::item_readable(res@),
            forall|b: AssetType, now: Timestamp| #[trigger] b.read_from(res@, now) ==> b.same_as(self),
    {
        let mut item = Item::new();
        item.insert_s("id", self.id.clone());
        item.insert_s("name", self.name.clone());
        item.insert_s("description", self.description.clone());
        item.insert_s("category", self.category.to_string());
        write_timestamp(&mut item, "created_at", &self.created_at);
        write_timestamp(&mut item, "updated_at", &self.updated_at);
        assert(item@ =~= self.spec_item());
        proof {
            Self::lemma_item_roundtrip(self, self, Timestamp { secs: 0, nanos: 0 });
            assert forall|b: AssetType, now: Timestamp| #[trigger] b.read_from(item@, now) implies b.same_as(self) by {
                Self::lemma_item_roundtrip(self, &b, now);
            }
        }
        item
    }

    /// Every attribute the `AssetTypes` table defines holds, in the item the entity is
    /// written as, nothing or a value of the type the table gives it, so
    /// DynamoDB accepts the item.
    pub proof fn lemma_item_fits_table(a: &AssetType)
        ensures
            item_fits_table(a.spec_item(), spec_asset_types_table()),
    {
        broadcast use crate::item::lemma_lookup_push;
        lemma_keys_distinct();
        let t = spec_asset_types_table();
        assert forall|i: int| 0 <= i < t.attributes.len() implies match #[trigger] crate::item::lookup(a.spec_item(), t.attributes[i].0) {
            Some(v) => attr_fits(t.attributes[i].1, v),
            None => true,
        } by {
            if i == 0 { assert(t.attributes[0].0 == "id"@); }
        }
    }

    /// Reading an asset type back from the item it is written as gives the same
    /// asset type, where `chrono` reads back the text of its instants.
    pub proof fn lemma_item_roundtrip(a: &AssetType, b: &AssetType, now: Timestamp)
        requires
            a.wf(),
            chrono_parse_datetime(chrono_format_datetime(a.created_at)) == Some(a.created_at),
            chrono_parse_datetime(chrono_format_datetime(a.updated_at)) == Some(a.updated_at),
        ensures
            Self::item_readable(a.spec_item()),
            b.read_from(a.spec_item(), now) ==> b.same_as(a),
    {
        broadcast use crate::item::lemma_lookup_push;
        AssetTypeCategory::lemma_parse_str(a.category);
        lemma_keys_distinct();
    }
}

proof fn lemma_keys_distinct()
    ensures
        "id"@ != "name"@,
        "id"@ != "description"@,
        "id"@ != "category"@,
        "id"@ != "created_at"@,
        "id"@ != "updated_at"@,
        "name"@ != "description"@,
        "name"@ != "category"@,
        "name"@ != "created_at"@,
        "name"@ != "updated_at"@,
        "description"@ != "category"@,
        "description"@ != "created_at"@,
        "description"@ != "updated_at"@,
        "category"@ != "created_at"@,
        "category"@ != "updated_at"@,
        "created_at"@ != "updated_at"@,
{
    broadcast use vstd::string::group_string_axioms;
    reveal_strlit("id");
    reveal_strlit("name");
    reveal_strlit("description");
    reveal_strlit("category");
    reveal_strlit("created_at");
    reveal_strlit("updated_at");
    assert("id"@.len() == 2);
    assert("name"@.len() == 4);
    assert("description"@.len() == 11);
    assert("category"@.len() == 8);
    assert("created_at"@.len() == 10);
    assert("updated_at"@.len() == 10);
    assert("created_at"@[0] != "updated_at"@[0]);
}

} // verus!
