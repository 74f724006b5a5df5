//! Categories that vendors are grouped in.
use vstd::prelude::*;

use crate::error::{is_validation_error, AppError};
use crate::fields::{
    bool_or, copy_strings, i32_or, opt_view, read_bool_or, read_i32_or, read_s, read_ss_or_empty,
    read_timestamp_or, ss_or_empty, timestamp_or, write_i32, write_timestamp,
};
use crate::item::{lookup, push_if, s_at, strings_view, AttrView, Item, ItemView};
use crate::numeric::{lemma_parse_format_i32, spec_format_i32};
use crate::text::{is_blank, is_blank_spec, str_eq};
use crate::time::{chrono_format_datetime, chrono_parse_datetime, now, Timestamp};

use crate::ieee::{below_zero, spec_below_zero};
use crate::strlist::{add_unique, holds, remove_first, with_added, without_first};

use crate::tables::{attr_fits, item_fits_table, spec_vendor_categories_table};

verus! {

/// What kind of vendors a category holds.
#[derive(Clone, Copy, Debug, PartialEq, Eq, Structural, Hash)]
pub enum CategoryType {
    Service,
    Supplier,
    Contractor,
    Consultant,
    Technology,
    Equipment,
    Emergency,
    Utility,
    Other,
}

impl CategoryType {
    /// The text that stands for the variant in items and requests.
    pub open spec fn spec_str(self) -> Seq<char> {
        match self {
            CategoryType::Service => "service"@,
            CategoryType::Supplier => "supplier"@,
            CategoryType::Contractor => "contractor"@,
            CategoryType::Consultant => "consultant"@,
            CategoryType::Technology => "technology"@,
            CategoryType::Equipment => "equipment"@,
            CategoryType::Emergency => "emergency"@,
            CategoryType::Utility => "utility"@,
            CategoryType::Other => "other"@,
        }
    }

    /// The variant that a text stands for, if any.
    pub open spec fn spec_parse(s: Seq<char>) -> Option<CategoryType> {
        if s == "service"@ {
            Some(CategoryType::Service)
        } else if s == "supplier"@ {
            Some(CategoryType::Supplier)
        } else if s == "contractor"@ {
            Some(CategoryType::Contractor)
        } else if s == "consultant"@ {
            Some(CategoryType::Consultant)
        } else if s == "technology"@ {
            Some(CategoryType::Technology)
        } else if s == "equipment"@ {
            Some(CategoryType::Equipment)
        } else if s == "emergency"@ {
            Some(CategoryType::Emergency)
        } else if s == "utility"@ {
            Some(CategoryType::Utility)
        } else if s == "other"@ {
            Some(CategoryType::Other)
        } else {
            None
        }
    }

    pub fn to_str(&self) -> (res: &'static str)
        ensures
            res@ == self.spec_str(),
    {
        match self {
            CategoryType::Service => "service",
            CategoryType::Supplier => "supplier",
            CategoryType::Contractor => "contractor",
            CategoryType::Consultant => "consultant",
            CategoryType::Technology => "technology",
            CategoryType::Equipment => "equipment",
            CategoryType::Emergency => "emergency",
            CategoryType::Utility => "utility",
            CategoryType::Other => "other",
        }
    }

    pub fn to_string(&self) -> (res: String)
        ensures
            res@ == self.spec_str(),
    {
        self.to_str().to_owned()
    }

    /// Reads a variant from its text; any other text is refused with a `ValidationError`.
    pub fn from_string(s: &str) -> (res: Result<CategoryType, AppError>)
        ensures
            match CategoryType::spec_parse(s@) {
                Some(v) => res == Ok::<CategoryType, AppError>(v),
                None => res matches Err(AppError::ValidationError(m)) && m@ == "Invalid category type"@,
            },
    {
        if str_eq(s, "service") {
            Ok(CategoryType::Service)
        } else if str_eq(s, "supplier") {
            Ok(CategoryType::Supplier)
        } else if str_eq(s, "contractor") {
            Ok(CategoryType::Contractor)
        } else if str_eq(s, "consultant") {
            Ok(CategoryType::Consultant)
        } else if str_eq(s, "technology") {
            Ok(CategoryType::Technology)
        } else if str_eq(s, "equipment") {
            Ok(CategoryType::Equipment)
        } else if str_eq(s, "emergency") {
            Ok(CategoryType::Emergency)
        } else if str_eq(s, "utility") {
            Ok(CategoryType::Utility)
        } else if str_eq(s, "other") {
            Ok(CategoryType::Other)
        } else {
            Err(AppError::ValidationError("Invalid category type".to_owned()))
        }
    }

    /// Reading back the text of a variant gives the variant.
    pub proof fn lemma_parse_str(v: CategoryType)
        ensures
            CategoryType::spec_parse(v.spec_str()) == Some(v),
    {
        broadcast use vstd::string::group_string_axioms;
        reveal_strlit("service");
        reveal_strlit("supplier");
        reveal_strlit("contractor");
        reveal_strlit("consultant");
        reveal_strlit("technology");
        reveal_strlit("equipment");
        reveal_strlit("emergency");
        reveal_strlit("utility");
        reveal_strlit("other");
        assert("service"@.len() == 7);
        assert("supplier"@.len() == 8);
        assert("contractor"@.len() == 10);
        assert("consultant"@.len() == 10);
        assert("technology"@.len() == 10);
        assert("equipment"@.len() == 9);
        assert("emergency"@.len() == 9);
        assert("utility"@.len() == 7);
        assert("other"@.len() == 5);
        assert("service"@[0] != "utility"@[0]);
        assert("contractor"@[3] != "consultant"@[3]);
        assert("contractor"@[0] != "technology"@[0]);
        assert("consultant"@[0] != "technology"@[0]);
        assert("equipment"@[1] != "emergency"@[1]);
    }
}


/// Where a category stands.
#[derive(Clone, Copy, Debug, PartialEq, Eq, Structural, Hash)]
pub enum CategoryStatus {
    Active,
    Inactive,
    Deprecated,
    Archived,
}

impl CategoryStatus {
    /// The text that stands for the variant in items and requests.
    pub open spec fn spec_str(self) -> Seq<char> {
        match self {
            CategoryStatus::Active => "active"@,
            CategoryStatus::Inactive => "inactive"@,
            CategoryStatus::Deprecated => "deprecated"@,
            CategoryStatus::Archived => "archived"@,
        }
    }

    /// The variant that a text stands for, if any.
    pub open spec fn spec_parse(s: Seq<char>) -> Option<CategoryStatus> {
        if s == "active"@ {
            Some(CategoryStatus::Active)
        } else if s == "inactive"@ {
            Some(CategoryStatus::Inactive)
        } else if s == "deprecated"@ {
            Some(CategoryStatus::Deprecated)
        } else if s == "archived"@ {
            Some(CategoryStatus::Archived)
        } else {
            None
        }
    }

    pub fn to_str(&self) -> (res: &'static str)
        ensures
            res@ == self.spec_str(),
    {
        match self {
            CategoryStatus::Active => "active",
            CategoryStatus::Inactive => "inactive",
            CategoryStatus::Deprecated => "deprecated",
            CategoryStatus::Archived => "archived",
        }
    }

    pub fn to_string(&self) -> (res: String)
        ensures
            res@ == self.spec_str(),
    {
        self.to_str().to_owned()
    }

    /// Reads a variant from its text; any other text is refused with a `ValidationError`.
    pub fn from_string(s: &str) -> (res: Result<CategoryStatus, AppError>)
        ensures
            match CategoryStatus::spec_parse(s@) {
                Some(v) => res == Ok::<CategoryStatus, AppError>(v),
                None => res matches Err(AppError::ValidationError(m)) && m@ == "Invalid category status"@,
            },
    {
        if str_eq(s, "active") {
            Ok(CategoryStatus::Active)
        } else if str_eq(s, "inactive") {
            Ok(CategoryStatus::Inactive)
        } else if str_eq(s, "deprecated") {
            Ok(CategoryStatus::Deprecated)
        } else if str_eq(s, "archived") {
            Ok(CategoryStatus::Archived)
        } else {
            Err(AppError::ValidationError("Invalid category status".to_owned()))
        }
    }

    /// Reading back the text of a variant gives the variant.
    pub proof fn lemma_parse_str(v: CategoryStatus)
        ensures
            CategoryStatus::spec_parse(v.spec_str()) == Some(v),
    {
        broadcast use vstd::string::group_string_axioms;
        reveal_strlit("active");
        reveal_strlit("inactive");
        reveal_strlit("deprecated");
        reveal_strlit("archived");
        assert("active"@.len() == 6);
        assert("inactive"@.len() == 8);
        assert("deprecated"@.len() == 10);
        assert("archived"@.len() == 8);
        assert("inactive"@[0] != "archived"@[0]);
    }
}


/// A category that vendors are grouped in.
#[derive(Clone, Debug)]
pub struct VendorCategory {
    pub id: String,
    pub name: String,
    pub description: Option<String>,
    pub category_type: CategoryType,
    pub status: CategoryStatus,
    pub parent_category_id: Option<String>,
    pub level: i32,
    pub sort_order: i32,
    pub code: Option<String>,
    pub color: Option<String>,
    pub icon: Option<String>,
    pub required_fields: Vec<String>,
    pub default_approval_workflow: Option<String>,
    pub compliance_requirements: Vec<String>,
    pub tax_category: Option<String>,
    pub risk_level: String,
    /// The limit under which orders are approved at once, as the bit pattern of an `f64` (`f64::to_bits`).
    pub auto_approval_limit: Option<u64>,
    pub vendor_count: i32,
    pub active: bool,
    pub created_by: Option<String>,
    pub created_at: Timestamp,
    pub updated_at: Timestamp,
}

impl VendorCategory {
    /// The instants are ones that `chrono` represents.
    pub open spec fn wf(&self) -> bool {
        &&& self.created_at.valid()
        &&& self.updated_at.valid()
    }

    /// Whether an item holds what this entity needs to be read from it.
    pub open spec fn item_readable(iv: ItemView) -> bool {
        &&& s_at(iv, "id"@) is Some
        &&& s_at(iv, "name"@) is Some
        &&& s_at(iv, "category_type"@) matches Some(c) && CategoryType::spec_parse(c) is Some
        &&& s_at(iv, "status"@) matches Some(c) && CategoryStatus::spec_parse(c) is Some
    }

    /// Whether this entity is what is read from an item, where instants that
    /// cannot be read are taken to be `now`.
    pub open spec fn read_from(&self, iv: ItemView, now: Timestamp) -> bool {
        &&& Some(self.id@) == s_at(iv, "id"@)
        &&& Some(self.name@) == s_at(iv, "name"@)
        &&& opt_view(self.description) == s_at(iv, "description"@)
        &&& Some(self.category_type) == CategoryType::spec_parse(s_at(iv, "category_type"@)->0)
        &&& Some(self.status) == CategoryStatus::spec_parse(s_at(iv, "status"@)->0)
        &&& opt_view(self.parent_category_id) == s_at(iv, "parent_category_id"@)
        &&& self.level == i32_or(iv, "level"@, 0)
        &&& self.sort_order == i32_or(iv, "sort_order"@, 0)
        &&& opt_view(self.code) == s_at(iv, "code"@)
        &&& opt_view(self.color) == s_at(iv, "color"@)
        &&& opt_view(self.icon) == s_at(iv, "icon"@)
        &&& strings_view(self.required_fields@) == ss_or_empty(iv, "required_fields"@)
        &&& opt_view(self.default_approval_workflow) == s_at(iv, "default_approval_workflow"@)
        &&& strings_view(self.compliance_requirements@) == ss_or_empty(iv, "compliance_requirements"@)
        &&& opt_view(self.tax_category) == s_at(iv, "tax_category"@)
        &&& self.risk_level@ == (match s_at(iv, "risk_level"@) { Some(s) => s, None => "medium"@ })
        &&& self.vendor_count == i32_or(iv, "vendor_count"@, 0)
        &&& self.active == bool_or(iv, "active"@, true)
        &&& opt_view(self.created_by) == s_at(iv, "created_by"@)
        &&& self.created_at == timestamp_or(iv, "created_at"@, now)
        &&& self.updated_at == timestamp_or(iv, "updated_at"@, now)
    }

    /// The entries that `to_item` writes for id, name, description, category_type, status, parent_category_id, level, sort_order, code, color, icon, required_fields, after those of `iv`.
    pub open spec fn spec_item_part1(&self, iv: ItemView) -> ItemView {
        let iv = iv.push(("id"@, AttrView::S(self.id@)));
        let iv = iv.push(("name"@, AttrView::S(self.name@)));
        let iv = push_if(iv, self.description is Some, ("description"@, AttrView::S(self.description->0@)));
        let iv = iv.push(("category_type"@, AttrView::S(self.category_type.spec_str())));
        let iv = iv.push(("status"@, AttrView::S(self.status.spec_str())));
        let iv = push_if(iv, self.parent_category_id is Some, ("parent_category_id"@, AttrView::S(self.parent_category_id->0@)));
        let iv = iv.push(("level"@, AttrView::N(spec_format_i32(self.level))));
        let iv = iv.push(("sort_order"@, AttrView::N(spec_format_i32(self.sort_order))));
        let iv = push_if(iv, self.code is Some, ("code"@, AttrView::S(self.code->0@)));
        let iv = push_if(iv, self.color is Some, ("color"@, AttrView::S(self.color->0@)));
        let iv = push_if(iv, self.icon is Some, ("icon"@, AttrView::S(self.icon->0@)));
        let iv = push_if(iv, self.required_fields@.len() > 0, ("required_fields"@, AttrView::Ss(strings_view(self.required_fields@))));
        iv
    }

    /// The entries that `to_item` writes for default_approval_workflow, compliance_requirements, tax_category, risk_level, vendor_count, active, created_by, created_at, updated_at, after those of `iv`.
    pub open spec fn spec_item_part2(&self, iv: ItemView) -> ItemView {
        let iv = push_if(iv, self.default_approval_workflow is Some, ("default_approval_workflow"@, AttrView::S(self.default_approval_workflow->0@)));
        let iv = push_if(iv, self.compliance_requirements@.len() > 0, ("compliance_requirements"@, AttrView::Ss(strings_view(self.compliance_requirements@))));
        let iv = push_if(iv, self.tax_category is Some, ("tax_category"@, AttrView::S(self.tax_category->0@)));
        let iv = iv.push(("risk_level"@, AttrView::S(self.risk_level@)));
        let iv = iv.push(("vendor_count"@, AttrView::N(spec_format_i32(self.vendor_count))));
        let iv = iv.push(("active"@, AttrView::Bool(self.active)));
        let iv = push_if(iv, self.created_by is Some, ("created_by"@, AttrView::S(self.created_by->0@)));
        let iv = iv.push(("created_at"@, AttrView::S(chrono_format_datetime(self.created_at))));
        let iv = iv.push(("updated_at"@, AttrView::S(chrono_format_datetime(self.updated_at))));
        iv
    }

    /// The item that `to_item` writes.
    pub open spec fn spec_item(&self) -> ItemView {
        self.spec_item_part2(self.spec_item_part1(Seq::empty()))
    }

    /// Whether two entities hold the same values.
    pub open spec fn same_as(&self, other: &VendorCategory) -> bool {
        &&& self.id@ == other.id@
        &&& self.name@ == other.name@
        &&& opt_view(self.description) == opt_view(other.description)
        &&& self.category_type == other.category_type
        &&& self.status == other.status
        &&& opt_view(self.parent_category_id) == opt_view(other.parent_category_id)
        &&& self.level == other.level
        &&& self.sort_order == other.sort_order
        &&& opt_view(self.code) == opt_view(other.code)
        &&& opt_view(self.color) == opt_view(other.color)
        &&& opt_view(self.icon) == opt_view(other.icon)
        &&& strings_view(self.required_fields@) == strings_view(other.required_fields@)
        &&& opt_view(self.default_approval_workflow) == opt_view(other.default_approval_workflow)
        &&& strings_view(self.compliance_requirements@) == strings_view(other.compliance_requirements@)
        &&& opt_view(self.tax_category) == opt_view(other.tax_category)
        &&& self.risk_level@ == other.risk_level@
        &&& self.vendor_count == other.vendor_count
        &&& self.active == other.active
        &&& opt_view(self.created_by) == opt_view(other.created_by)
        &&& self.created_at == other.created_at
        &&& self.updated_at == other.updated_at
    }

    /// Reads the entity from an item, taking `now` for instants that are missing.
    pub fn from_item_at(item: &Item, now: Timestamp, auto_approval_limit: Option<u64>) -> (res: Option<Self>)
        requires
            now.valid(),
        ensures
            res is Some <==> Self::item_readable(item@),
            res matches Some(e) ==> e.read_from(item@, now) && e.wf() && e.auto_approval_limit == auto_approval_limit,
    {
        let id = read_s(item, "id")?;
        let name = read_s(item, "name")?;
        let description = read_s(item, "description");
        let category_type_text = item.get_s("category_type")?;
        let category_type = CategoryType::from_string(category_type_text.as_str()).ok()?;
        let status_text = item.get_s("status")?;
        let status = CategoryStatus::from_string(status_text.as_str()).ok()?;
        let parent_category_id = read_s(item, "parent_category_id");
        let level = read_i32_or(item, "level", 0);
        let sort_order = read_i32_or(item, "sort_order", 0);
        let code = read_s(item, "code");
        let color = read_s(item, "color");
        let icon = read_s(item, "icon");
        let required_fields = read_ss_or_empty(item, "required_fields");
        let default_approval_workflow = read_s(item, "default_approval_workflow");
        let compliance_requirements = read_ss_or_empty(item, "compliance_requirements");
        let tax_category = read_s(item, "tax_category");
        let risk_level = match read_s(item, "risk_level") {
            Some(s) => s,
            None => "medium".to_owned(),
        };
        let vendor_count = read_i32_or(item, "vendor_count", 0);
        let active = read_bool_or(item, "active", true);
        let created_by = read_s(item, "created_by");
        let created_at = read_timestamp_or(item, "created_at", now);
        let updated_at = read_timestamp_or(item, "updated_at", now);
        Some(VendorCategory {
            id,
            name,
            description,
            category_type,
            status,
            parent_category_id,
            level,
            sort_order,
            code,
            color,
            icon,
            required_fields,
            default_approval_workflow,
            compliance_requirements,
            tax_category,
            risk_level,
            auto_approval_limit,
            vendor_count,
            active,
            created_by,
            created_at,
            updated_at,
        })
    }

    /// Reads the entity from an item; instants that are missing are read from the clock.
    pub fn from_item(item: &Item, auto_approval_limit: Option<u64>) -> (res: Option<Self>)
        ensures
            res is Some <==> Self::item_readable(item@),
            res matches Some(e) ==> e.wf() && e.auto_approval_limit == auto_approval_limit && exists|t: Timestamp| t.valid() && e.read_from(item@, t),
    {
        let t = now();
        Self::from_item_at(item, t, auto_approval_limit)
    }

    fn write_part1(&self, item: &mut Item)
        requires
            self.wf(),
        ensures
            final(item)@ == self.spec_item_part1(old(item)@),
    {
        reveal(push_if);
        let ghost mut iv: ItemView = old(item)@;
        item.insert_s("id", self.id.clone());
        proof { iv = iv.push(("id"@, AttrView::S(self.id@))); }
        assert(item@ == iv);
        item.insert_s("name", self.name.clone());
        proof { iv = iv.push(("name"@, AttrView::S(self.name@))); }
        assert(item@ == iv);
        if let Some(x) = &self.description {
            item.insert_s("description", x.clone());
        }
        proof { iv = push_if(iv, self.description is Some, ("description"@, AttrView::S(self.description->0@))); }
        assert(item@ == iv);
        item.insert_s("category_type", self.category_type.to_string());
        proof { iv = iv.push(("category_type"@, AttrView::S(self.category_type.spec_str()))); }
        assert(item@ == iv);
        item.insert_s("status", self.status.to_string());
        proof { iv = iv.push(("status"@, AttrView::S(self.status.spec_str()))); }
        assert(item@ == iv);
        if let Some(x) = &self.parent_category_id {
            item.insert_s("parent_category_id", x.clone());
        }
        proof { iv = push_if(iv, self.parent_category_id is Some, ("parent_category_id"@, AttrView::S(self.parent_category_id->0@))); }
        assert(item@ == iv);
        write_i32(item, "level", self.level);
        proof { iv = iv.push(("level"@, AttrView::N(spec_format_i32(self.level)))); }
        assert(item@ == iv);
        write_i32(item, "sort_order", self.sort_order);
        proof { iv = iv.push(("sort_order"@, AttrView::N(spec_format_i32(self.sort_order)))); }
        assert(item@ == iv);
        if let Some(x) = &self.code {
            item.insert_s("code", x.clone());
        }
        proof { iv = push_if(iv, self.code is Some, ("code"@, AttrView::S(self.code->0@))); }
        assert(item@ == iv);
        if let Some(x) = &self.color {
            item.insert_s("color", x.clone());
        }
        proof { iv = push_if(iv, self.color is Some, ("color"@, AttrView::S(self.color->0@))); }
        assert(item@ == iv);
        if let Some(x) = &self.icon {
            item.insert_s("icon", x.clone());
        }
        proof { iv = push_if(iv, self.icon is Some, ("icon"@, AttrView::S(self.icon->0@))); }
        assert(item@ == iv);
        if self.required_fields.len() > 0 {
            item.insert_ss("required_fields", copy_strings(&self.required_fields));
        }
        proof { iv = push_if(iv, self.required_fields@.len() > 0, ("required_fields"@, AttrView::Ss(strings_view(self.required_fields@)))); }
        assert(item@ == iv);
    }

    fn write_part2(&self, item: &mut Item)
        requires
            self.wf(),
        ensures
            final(item)@ == self.spec_item_part2(old(item)@),
            chrono_parse_datetime(chrono_format_datetime(self.created_at)) == Some(self.created_at),
            chrono_parse_datetime(chrono_format_datetime(self.updated_at)) == Some(self.updated_at),
    {
        reveal(push_if);
        let ghost mut iv: ItemView = old(item)@;
        if let Some(x) = &self.default_approval_workflow {
            item.insert_s("default_approval_workflow", x.clone());
        }
        proof { iv = push_if(iv, self.default_approval_workflow is Some, ("default_approval_workflow"@, AttrView::S(self.default_approval_workflow->0@))); }
        assert(item@ == iv);
        if self.compliance_requirements.len() > 0 {
            item.insert_ss("compliance_requirements", copy_strings(&self.compliance_requirements));
        }
        proof { iv = push_if(iv, self.compliance_requirements@.len() > 0, ("compliance_requirements"@, AttrView::Ss(strings_view(self.compliance_requirements@)))); }
        assert(item@ == iv);
        if let Some(x) = &self.tax_category {
            item.insert_s("tax_category", x.clone());
        }
        proof { iv = push_if(iv, self.tax_category is Some, ("tax_category"@, AttrView::S(self.tax_category->0@))); }
        assert(item@ == iv);
        item.insert_s("risk_level", self.risk_level.clone());
        proof { iv = iv.push(("risk_level"@, AttrView::S(self.risk_level@))); }
        assert(item@ == iv);
        write_i32(item, "vendor_count", self.vendor_count);
        proof { iv = iv.push(("vendor_count"@, AttrView::N(spec_format_i32(self.vendor_count)))); }
        assert(item@ == iv);
        item.insert_bool("active", self.active);
        proof { iv = iv.push(("active"@, AttrView::Bool(self.active))); }
        assert(item@ == iv);
        if let Some(x) = &self.created_by {
            item.insert_s("created_by", x.clone());
        }
        proof { iv = push_if(iv, self.created_by is Some, ("created_by"@, AttrView::S(self.created_by->0@))); }
        assert(item@ == iv);
        write_timestamp(item, "created_at", &self.created_at);
        proof { iv = iv.push(("created_at"@, AttrView::S(chrono_format_datetime(self.created_at)))); }
        assert(item@ == iv);
        write_timestamp(item, "updated_at", &self.updated_at);
        proof { iv = iv.push(("updated_at"@, AttrView::S(chrono_format_datetime(self.updated_at)))); }
        assert(item@ == iv);
    }

    /// Writes the entity as an item.
    pub fn to_item(&self) -> (res: Item)
        requires
            self.wf(),
        ensures
            res@ == self.spec_item(),
            Self::item_readable(res@),
            forall|b: VendorCategory, now: Timestamp| #[trigger] b.read_from(res@, now) ==> b.same_as(self),
    {
        let mut item = Item::new();
        self.write_part1(&mut item);
        self.write_part2(&mut item);
        proof {
            Self::lemma_item_roundtrip(self, self, Timestamp { secs: 0, nanos: 0 });
            assert forall|b: VendorCategory, now: Timestamp| #[trigger] b.read_from(item@, now) implies b.same_as(self) by {
                Self::lemma_item_roundtrip(self, &b, now);
            }
        }
        item
    }

    proof fn lemma_part1_values(&self, iv: ItemView)
        ensures
            lookup(self.spec_item_part1(iv), "id"@) == Some(AttrView::S(self.id@)),
            lookup(self.spec_item_part1(iv), "name"@) == Some(AttrView::S(self.name@)),
            lookup(self.spec_item_part1(iv), "description"@) == (if self.description is Some { Some(AttrView::S(self.description->0@)) } else { lookup(iv, "description"@) }),
            lookup(self.spec_item_part1(iv), "category_type"@) == Some(AttrView::S(self.category_type.spec_str())),
            lookup(self.spec_item_part1(iv), "status"@) == Some(AttrView::S(self.status.spec_str())),
            lookup(self.spec_item_part1(iv), "parent_category_id"@) == (if self.parent_category_id is Some { Some(AttrView::S(self.parent_category_id->0@)) } else { lookup(iv, "parent_category_id"@) }),
            lookup(self.spec_item_part1(iv), "level"@) == Some(AttrView::N(spec_format_i32(self.level))),
            lookup(self.spec_item_part1(iv), "sort_order"@) == Some(AttrView::N(spec_format_i32(self.sort_order))),
            lookup(self.spec_item_part1(iv), "code"@) == (if self.code is Some { Some(AttrView::S(self.code->0@)) } else { lookup(iv, "code"@) }),
            lookup(self.spec_item_part1(iv), "color"@) == (if self.color is Some { Some(AttrView::S(self.color->0@)) } else { lookup(iv, "color"@) }),
            lookup(self.spec_item_part1(iv), "icon"@) == (if self.icon is Some { Some(AttrView::S(self.icon->0@)) } else { lookup(iv, "icon"@) }),
            lookup(self.spec_item_part1(iv), "required_fields"@) == (if self.required_fields@.len() > 0 { Some(AttrView::Ss(strings_view(self.required_fields@))) } else { lookup(iv, "required_fields"@) }),
    {
        broadcast use crate::item::lemma_lookup_push, crate::item::lemma_lookup_push_if;
        lemma_keys_distinct();
    }

    proof fn lemma_part1_frame(&self, iv: ItemView, k: Seq<char>)
        requires
            k != "id"@,
            k != "name"@,
            k != "description"@,
            k != "category_type"@,
            k != "status"@,
            k != "parent_category_id"@,
            k != "level"@,
            k != "sort_order"@,
            k != "code"@,
            k != "color"@,
            k != "icon"@,
            k != "required_fields"@,
        ensures
            lookup(self.spec_item_part1(iv), k) == lookup(iv, k),
    {
        broadcast use crate::item::lemma_lookup_push, crate::item::lemma_lookup_push_if;
    }

    proof fn lemma_part2_values(&self, iv: ItemView)
        ensures
            lookup(self.spec_item_part2(iv), "default_approval_workflow"@) == (if self.default_approval_workflow is Some { Some(AttrView::S(self.default_approval_workflow->0@)) } else { lookup(iv, "default_approval_workflow"@) }),
            lookup(self.spec_item_part2(iv), "compliance_requirements"@) == (if self.compliance_requirements@.len() > 0 { Some(AttrView::Ss(strings_view(self.compliance_requirements@))) } else { lookup(iv, "compliance_requirements"@) }),
            lookup(self.spec_item_part2(iv), "tax_category"@) == (if self.tax_category is Some { Some(AttrView::S(self.tax_category->0@)) } else { lookup(iv, "tax_category"@) }),
            lookup(self.spec_item_part2(iv), "risk_level"@) == Some(AttrView::S(self.risk_level@)),
            lookup(self.spec_item_part2(iv), "vendor_count"@) == Some(AttrView::N(spec_format_i32(self.vendor_count))),
            lookup(self.spec_item_part2(iv), "active"@) == Some(AttrView::Bool(self.active)),
            lookup(self.spec_item_part2(iv), "created_by"@) == (if self.created_by is Some { Some(AttrView::S(self.created_by->0@)) } else { lookup(iv, "created_by"@) }),
            lookup(self.spec_item_part2(iv), "created_at"@) == Some(AttrView::S(chrono_format_datetime(self.created_at))),
            lookup(self.spec_item_part2(iv), "updated_at"@) == Some(AttrView::S(chrono_format_datetime(self.updated_at))),
    {
        broadcast use crate::item::lemma_lookup_push, crate::item::lemma_lookup_push_if;
        lemma_keys_distinct();
    }

    proof fn lemma_part2_frame(&self, iv: ItemView, k: Seq<char>)
        requires
            k != "default_approval_workflow"@,
            k != "compliance_requirements"@,
            k != "tax_category"@,
            k != "risk_level"@,
            k != "vendor_count"@,
            k != "active"@,
            k != "created_by"@,
            k != "created_at"@,
            k != "updated_at"@,
        ensures
            lookup(self.spec_item_part2(iv), k) == lookup(iv, k),
    {
        broadcast use crate::item::lemma_lookup_push, crate::item::lemma_lookup_push_if;
    }

    /// Every attribute the `VendorCategories` table defines holds, in the item the entity is
    /// written as, nothing or a value of the type the table gives it, so
    /// DynamoDB accepts the item.
    pub proof fn lemma_item_fits_table(a: &VendorCategory)
        ensures
            item_fits_table(a.spec_item(), spec_vendor_categories_table()),
    {
        lemma_keys_distinct();
        let e: ItemView = Seq::empty();
        let p1 = a.spec_item_part1(e);
        let p2 = a.spec_item_part2(p1);
        assert(a.spec_item() == p2);
        a.lemma_part1_values(e);
        a.lemma_part2_values(p1);
        a.lemma_part2_frame(p1, "id"@);
        let t = spec_vendor_categories_table();
        assert forall|i: int| 0 <= i < t.attributes.len() implies match #[trigger] crate::item::lookup(a.spec_item(), t.attributes[i].0) {
            Some(v) => attr_fits(t.attributes[i].1, v),
            None => true,
        } by {
            if i == 0 { assert(t.attributes[0].0 == "id"@); }
        }
    }

    /// Reading the entity back from the item it is written as gives the same
    /// entity, where `chrono` reads back the text of its instants.
    #[verifier::rlimit(100)]
    pub proof fn lemma_item_roundtrip(a: &VendorCategory, b: &VendorCategory, now: Timestamp)
        requires
            a.wf(),
            chrono_parse_datetime(chrono_format_datetime(a.created_at)) == Some(a.created_at),
            chrono_parse_datetime(chrono_format_datetime(a.updated_at)) == Some(a.updated_at),
        ensures
            Self::item_readable(a.spec_item()),
            b.read_from(a.spec_item(), now) ==> b.same_as(a),
    {
        lemma_keys_distinct();
        let e: ItemView = Seq::empty();
        let p1 = a.spec_item_part1(e);
        let p2 = a.spec_item_part2(p1);
        assert(a.spec_item() == p2);
        a.lemma_part1_values(e);
        a.lemma_part2_values(p1);
        a.lemma_part2_frame(p1, "id"@);
        a.lemma_part2_frame(p1, "name"@);
        a.lemma_part2_frame(p1, "description"@);
        a.lemma_part2_frame(p1, "category_type"@);
        a.lemma_part2_frame(p1, "status"@);
        a.lemma_part2_frame(p1, "parent_category_id"@);
        a.lemma_part2_frame(p1, "level"@);
        a.lemma_part2_frame(p1, "sort_order"@);
        a.lemma_part2_frame(p1, "code"@);
        a.lemma_part2_frame(p1, "color"@);
        a.lemma_part2_frame(p1, "icon"@);
        a.lemma_part2_frame(p1, "required_fields"@);
        a.lemma_part1_frame(e, "default_approval_workflow"@);
        a.lemma_part1_frame(e, "compliance_requirements"@);
        a.lemma_part1_frame(e, "tax_category"@);
        a.lemma_part1_frame(e, "risk_level"@);
        a.lemma_part1_frame(e, "vendor_count"@);
        a.lemma_part1_frame(e, "active"@);
        a.lemma_part1_frame(e, "created_by"@);
        a.lemma_part1_frame(e, "created_at"@);
        a.lemma_part1_frame(e, "updated_at"@);
        CategoryType::lemma_parse_str(a.category_type);
        CategoryStatus::lemma_parse_str(a.status);
        lemma_parse_format_i32(a.level);
        lemma_parse_format_i32(a.sort_order);
        if a.required_fields@.len() == 0 { assert(strings_view(a.required_fields@) =~= Seq::<Seq<char>>::empty()); }
        if a.compliance_requirements@.len() == 0 { assert(strings_view(a.compliance_requirements@) =~= Seq::<Seq<char>>::empty()); }
        lemma_parse_format_i32(a.vendor_count);
    }

    /// The risk levels a category may have.
    pub open spec fn spec_valid_risk_level(r: Seq<char>) -> bool {
        r == "low"@ || r == "medium"@ || r == "high"@ || r == "critical"@
    }

    pub fn is_valid_risk_level(r: &str) -> (res: bool)
        ensures
            res == Self::spec_valid_risk_level(r@),
    {
        str_eq(r, "low") || str_eq(r, "medium") || str_eq(r, "high") || str_eq(r, "critical")
    }

    /// Which check, if any, the arguments of `new` fail, in the order they are made.
    pub open spec fn spec_new_error(
        name: Seq<char>,
        category_type: Seq<char>,
        status: Seq<char>,
        level: i32,
        sort_order: i32,
        risk_level: Seq<char>,
        auto_approval_limit: Option<u64>,
    ) -> Option<Seq<char>> {
        if is_blank_spec(name) {
            Some("Category name cannot be empty"@)
        } else if CategoryType::spec_parse(category_type) is None {
            Some("Invalid category type"@)
        } else if CategoryStatus::spec_parse(status) is None {
            Some("Invalid category status"@)
        } else if level < 0 {
            Some("Level cannot be negative"@)
        } else if sort_order < 0 {
            Some("Sort order cannot be negative"@)
        } else if auto_approval_limit matches Some(l) && spec_below_zero(l) {
            Some("Auto approval limit cannot be negative"@)
        } else if !Self::spec_valid_risk_level(risk_level) {
            Some("Risk level must be one of: low, medium, high, critical"@)
        } else {
            None
        }
    }

    /// Creates a category with no vendors yet; the limit is the bit pattern of an `f64`.
    pub fn new(
        id: String,
        name: String,
        description: Option<String>,
        category_type: String,
        status: String,
        parent_category_id: Option<String>,
        level: i32,
        sort_order: i32,
        code: Option<String>,
        color: Option<String>,
        icon: Option<String>,
        required_fields: Vec<String>,
        default_approval_workflow: Option<String>,
        compliance_requirements: Vec<String>,
        tax_category: Option<String>,
        risk_level: String,
        auto_approval_limit: Option<u64>,
        active: bool,
        created_by: Option<String>,
    ) -> (res: Result<Self, AppError>)
        ensures
            match Self::spec_new_error(name@, category_type@, status@, level, sort_order, risk_level@, auto_approval_limit) {
                Some(m) => is_validation_error(res, m),
                None => res matches Ok(c) && {
                    &&& c.id == id && c.name == name && c.description == description
                    &&& Some(c.category_type) == CategoryType::spec_parse(category_type@)
                    &&& Some(c.status) == CategoryStatus::spec_parse(status@)
                    &&& c.parent_category_id == parent_category_id && c.level == level && c.sort_order == sort_order
                    &&& c.code == code && c.color == color && c.icon == icon && c.required_fields == required_fields
                    &&& c.default_approval_workflow == default_approval_workflow
                    &&& c.compliance_requirements == compliance_requirements && c.tax_category == tax_category
                    &&& c.risk_level == risk_level && c.auto_approval_limit == auto_approval_limit
                    &&& c.vendor_count == 0 && c.active == active && c.created_by == created_by
                    &&& c.created_at == c.updated_at && c.created_at.valid()
                },
            },
    {
        let now = now();
        if is_blank(name.as_str()) {
            return Err(AppError::ValidationError("Category name cannot be empty".to_owned()));
        }
        let category_type_enum = CategoryType::from_string(category_type.as_str())?;
        let status_enum = CategoryStatus::from_string(status.as_str())?;
        if level < 0 {
            return Err(AppError::ValidationError("Level cannot be negative".to_owned()));
        }
        if sort_order < 0 {
            return Err(AppError::ValidationError("Sort order cannot be negative".to_owned()));
        }
        if let Some(limit) = auto_approval_limit {
            if below_zero(limit) {
                return Err(AppError::ValidationError("Auto approval limit cannot be negative".to_owned()));
            }
        }
        if !Self::is_valid_risk_level(risk_level.as_str()) {
            return Err(AppError::ValidationError("Risk level must be one of: low, medium, high, critical".to_owned()));
        }
        Ok(VendorCategory {
            id,
            name,
            description,
            category_type: category_type_enum,
            status: status_enum,
            parent_category_id,
            level,
            sort_order,
            code,
            color,
            icon,
            required_fields,
            default_approval_workflow,
            compliance_requirements,
            tax_category,
            risk_level,
            auto_approval_limit,
            vendor_count: 0,
            active,
            created_by,
            created_at: now,
            updated_at: now,
        })
    }

    pub fn is_root_category(&self) -> (res: bool)
        ensures
            res == (self.parent_category_id is None && self.level == 0),
    {
        self.parent_category_id.is_none() && self.level == 0
    }

    pub fn has_parent(&self) -> (res: bool)
        ensures
            res == self.parent_category_id is Some,
    {
        self.parent_category_id.is_some()
    }

    /// Whether vendors can be put in the category: it is active in both senses.
    pub fn is_usable(&self) -> (res: bool)
        ensures
            res == (self.active && self.status == CategoryStatus::Active),
    {
        self.active && self.status == CategoryStatus::Active
    }

    /// Counts one more vendor.
    pub fn increment_vendor_count(&mut self)
        requires
            old(self).vendor_count < i32::MAX,
        ensures
            *final(self) == (VendorCategory {
                vendor_count: (old(self).vendor_count + 1) as i32,
                updated_at: final(self).updated_at,
                ..*old(self)
            }),
            final(self).updated_at.valid(),
    {
        self.vendor_count = self.vendor_count + 1;
        self.updated_at = now();
    }

    /// Counts one vendor less; a count of zero stays as it is.
    pub fn decrement_vendor_count(&mut self)
        ensures
            old(self).vendor_count > 0 ==> *final(self) == (VendorCategory {
                vendor_count: (old(self).vendor_count - 1) as i32,
                updated_at: final(self).updated_at,
                ..*old(self)
            }) && final(self).updated_at.valid(),
            old(self).vendor_count <= 0 ==> *final(self) == *old(self),
    {
        if self.vendor_count > 0 {
            self.vendor_count = self.vendor_count - 1;
            self.updated_at = now();
        }
    }

    /// Sets the vendor count; a negative count is refused.
    pub fn update_vendor_count(&mut self, count: i32) -> (res: Result<(), AppError>)
        ensures
            count < 0 ==> *final(self) == *old(self) && is_validation_error(res, "Vendor count cannot be negative"@),
            count >= 0 ==> res is Ok && *final(self) == (VendorCategory {
                vendor_count: count,
                updated_at: final(self).updated_at,
                ..*old(self)
            }) && final(self).updated_at.valid(),
    {
        if count < 0 {
            return Err(AppError::ValidationError("Vendor count cannot be negative".to_owned()));
        }
        self.vendor_count = count;
        self.updated_at = now();
        Ok(())
    }

    /// Adds a required field unless the list holds it already; the update time moves only when it was added.
    pub fn add_required_field(&mut self, field: String)
        ensures
            strings_view(final(self).required_fields@) == with_added(strings_view(old(self).required_fields@), field@),
            strings_view(old(self).required_fields@).contains(field@) ==> *final(self) == *old(self),
            !strings_view(old(self).required_fields@).contains(field@) ==> *final(self) == (VendorCategory {
                required_fields: final(self).required_fields,
                updated_at: final(self).updated_at,
                ..*old(self)
            }) && final(self).updated_at.valid(),
    {
        if add_unique(&mut self.required_fields, field) {
            self.updated_at = now();
        }
    }

    /// Removes the first occurrence of a required field; the update time moves only when there was one.
    pub fn remove_required_field(&mut self, field: &str)
        ensures
            strings_view(final(self).required_fields@) == without_first(strings_view(old(self).required_fields@), field@),
            !strings_view(old(self).required_fields@).contains(field@) ==> *final(self) == *old(self),
            strings_view(old(self).required_fields@).contains(field@) ==> *final(self) == (VendorCategory {
                required_fields: final(self).required_fields,
                updated_at: final(self).updated_at,
                ..*old(self)
            }) && final(self).updated_at.valid(),
    {
        if remove_first(&mut self.required_fields, field) {
            self.updated_at = now();
        }
    }

    /// Whether the list holds a required field.
    pub fn has_required_field(&self, field: &str) -> (res: bool)
        ensures
            res == strings_view(self.required_fields@).contains(field@),
    {
        holds(&self.required_fields, field)
    }

    /// Adds a compliance requirement unless the list holds it already; the update time moves only when it was added.
    pub fn add_compliance_requirement(&mut self, requirement: String)
        ensures
            strings_view(final(self).compliance_requirements@) == with_added(strings_view(old(self).compliance_requirements@), requirement@),
            strings_view(old(self).compliance_requirements@).contains(requirement@) ==> *final(self) == *old(self),
            !strings_view(old(self).compliance_requirements@).contains(requirement@) ==> *final(self) == (VendorCategory {
                compliance_requirements: final(self).compliance_requirements,
                updated_at: final(self).updated_at,
                ..*old(self)
            }) && final(self).updated_at.valid(),
    {
        if add_unique(&mut self.compliance_requirements, requirement) {
            self.updated_at = now();
        }
    }

    /// Removes the first occurrence of a compliance requirement; the update time moves only when there was one.
    pub fn remove_compliance_requirement(&mut self, requirement: &str)
        ensures
            strings_view(final(self).compliance_requirements@) == without_first(strings_view(old(self).compliance_requirements@), requirement@),
            !strings_view(old(self).compliance_requirements@).contains(requirement@) ==> *final(self) == *old(self),
            strings_view(old(self).compliance_requirements@).contains(requirement@) ==> *final(self) == (VendorCategory {
                compliance_requirements: final(self).compliance_requirements,
                updated_at: final(self).updated_at,
                ..*old(self)
            }) && final(self).updated_at.valid(),
    {
        if remove_first(&mut self.compliance_requirements, requirement) {
            self.updated_at = now();
        }
    }

    /// Whether the list holds a compliance requirement.
    pub fn has_compliance_requirement(&self, requirement: &str) -> (res: bool)
        ensures
            res == strings_view(self.compliance_requirements@).contains(requirement@),
    {
        holds(&self.compliance_requirements, requirement)
    }

    /// Sets the status from its text.
    pub fn update_status(&mut self, new_status: String) -> (res: Result<(), AppError>)
        ensures
            match CategoryStatus::spec_parse(new_status@) {
                None => *final(self) == *old(self) && is_validation_error(res, "Invalid category status"@),
                Some(s) => res is Ok && *final(self) == (VendorCategory {
                    status: s,
                    updated_at: final(self).updated_at,
                    ..*old(self)
                }) && final(self).updated_at.valid(),
            },
    {
        let status_enum = CategoryStatus::from_string(new_status.as_str())?;
        self.status = status_enum;
        self.updated_at = now();
        Ok(())
    }

    /// Archives the category, which also makes it inactive.
    pub fn archive(&mut self)
        ensures
            *final(self) == (VendorCategory {
                status: CategoryStatus::Archived,
                active: false,
                updated_at: final(self).updated_at,
                ..*old(self)
            }),
            final(self).updated_at.valid(),
    {
        self.status = CategoryStatus::Archived;
        self.active = false;
        self.updated_at = now();
    }

    /// Makes a category that is not archived active again.
    pub fn reactivate(&mut self) -> (res: Result<(), AppError>)
        ensures
            old(self).status == CategoryStatus::Archived ==> *final(self) == *old(self)
                && is_validation_error(res, "Cannot reactivate archived category"@),
            old(self).status != CategoryStatus::Archived ==> res is Ok && *final(self) == (VendorCategory {
                status: CategoryStatus::Active,
                active: true,
                updated_at: final(self).updated_at,
                ..*old(self)
            }) && final(self).updated_at.valid(),
    {
        if self.status == CategoryStatus::Archived {
            return Err(AppError::ValidationError("Cannot reactivate archived category".to_owned()));
        }
        self.status = CategoryStatus::Active;
        self.active = true;
        self.updated_at = now();
        Ok(())
    }

    /// Counting a vendor in and out again leaves the count as it was.
    pub proof fn lemma_increment_decrement(a: &VendorCategory, b: &VendorCategory, c: &VendorCategory)
        requires
            0 <= a.vendor_count < i32::MAX,
            b.vendor_count == a.vendor_count + 1,
            b.vendor_count > 0 ==> c.vendor_count == b.vendor_count - 1,
        ensures
            c.vendor_count == a.vendor_count,
    {
    }


}

proof fn lemma_keys_distinct()
    ensures
        "id"@ != "name"@,
        "id"@ != "description"@,
        "id"@ != "category_type"@,
        "id"@ != "status"@,
        "id"@ != "parent_category_id"@,
        "id"@ != "level"@,
        "id"@ != "sort_order"@,
        "id"@ != "code"@,
        "id"@ != "color"@,
        "id"@ != "icon"@,
        "id"@ != "required_fields"@,
        "id"@ != "default_approval_workflow"@,
        "id"@ != "compliance_requirements"@,
        "id"@ != "tax_category"@,
        "id"@ != "risk_level"@,
        "id"@ != "auto_approval_limit"@,
        "id"@ != "vendor_count"@,
        "id"@ != "active"@,
        "id"@ != "created_by"@,
        "id"@ != "created_at"@,
        "id"@ != "updated_at"@,
        "name"@ != "description"@,
        "name"@ != "category_type"@,
        "name"@ != "status"@,
        "name"@ != "parent_category_id"@,
        "name"@ != "level"@,
        "name"@ != "sort_order"@,
        "name"@ != "code"@,
        "name"@ != "color"@,
        "name"@ != "icon"@,
        "name"@ != "required_fields"@,
        "name"@ != "default_approval_workflow"@,
        "name"@ != "compliance_requirements"@,
        "name"@ != "tax_category"@,
        "name"@ != "risk_level"@,
        "name"@ != "auto_approval_limit"@,
        "name"@ != "vendor_count"@,
        "name"@ != "active"@,
        "name"@ != "created_by"@,
        "name"@ != "created_at"@,
        "name"@ != "updated_at"@,
        "description"@ != "category_type"@,
        "description"@ != "status"@,
        "description"@ != "parent_category_id"@,
        "description"@ != "level"@,
        "description"@ != "sort_order"@,
        "description"@ != "code"@,
        "description"@ != "color"@,
        "description"@ != "icon"@,
        "description"@ != "required_fields"@,
        "description"@ != "default_approval_workflow"@,
        "description"@ != "compliance_requirements"@,
        "description"@ != "tax_category"@,
        "description"@ != "risk_level"@,
        "description"@ != "auto_approval_limit"@,
        "description"@ != "vendor_count"@,
        "description"@ != "active"@,
        "description"@ != "created_by"@,
        "description"@ != "created_at"@,
        "description"@ != "updated_at"@,
        "category_type"@ != "status"@,
        "category_type"@ != "parent_category_id"@,
        "category_type"@ != "level"@,
        "category_type"@ != "sort_order"@,
        "category_type"@ != "code"@,
        "category_type"@ != "color"@,
        "category_type"@ != "icon"@,
        "category_type"@ != "required_fields"@,
        "category_type"@ != "default_approval_workflow"@,
        "category_type"@ != "compliance_requirements"@,
        "category_type"@ != "tax_category"@,
        "category_type"@ != "risk_level"@,
        "category_type"@ != "auto_approval_limit"@,
        "category_type"@ != "vendor_count"@,
        "category_type"@ != "active"@,
        "category_type"@ != "created_by"@,
        "category_type"@ != "created_at"@,
        "category_type"@ != "updated_at"@,
        "status"@ != "parent_category_id"@,
        "status"@ != "level"@,
        "status"@ != "sort_order"@,
        "status"@ != "code"@,
        "status"@ != "color"@,
        "status"@ != "icon"@,
        "status"@ != "required_fields"@,
        "status"@ != "default_approval_workflow"@,
        "status"@ != "compliance_requirements"@,
        "status"@ != "tax_category"@,
        "status"@ != "risk_level"@,
        "status"@ != "auto_approval_limit"@,
        "status"@ != "vendor_count"@,
        "status"@ != "active"@,
        "status"@ != "created_by"@,
        "status"@ != "created_at"@,
        "status"@ != "updated_at"@,
        "parent_category_id"@ != "level"@,
        "parent_category_id"@ != "sort_order"@,
        "parent_category_id"@ != "code"@,
        "parent_category_id"@ != "color"@,
        "parent_category_id"@ != "icon"@,
        "parent_category_id"@ != "required_fields"@,
        "parent_category_id"@ != "default_approval_workflow"@,
        "parent_category_id"@ != "compliance_requirements"@,
        "parent_category_id"@ != "tax_category"@,
        "parent_category_id"@ != "risk_level"@,
        "parent_category_id"@ != "auto_approval_limit"@,
        "parent_category_id"@ != "vendor_count"@,
        "parent_category_id"@ != "active"@,
        "parent_category_id"@ != "created_by"@,
        "parent_category_id"@ != "created_at"@,
        "parent_category_id"@ != "updated_at"@,
        "level"@ != "sort_order"@,
        "level"@ != "code"@,
        "level"@ != "color"@,
        "level"@ != "icon"@,
        "level"@ != "required_fields"@,
        "level"@ != "default_approval_workflow"@,
        "level"@ != "compliance_requirements"@,
        "level"@ != "tax_category"@,
        "level"@ != "risk_level"@,
        "level"@ != "auto_approval_limit"@,
        "level"@ != "vendor_count"@,
        "level"@ != "active"@,
        "level"@ != "created_by"@,
        "level"@ != "created_at"@,
        "level"@ != "updated_at"@,
        "sort_order"@ != "code"@,
        "sort_order"@ != "color"@,
        "sort_order"@ != "icon"@,
        "sort_order"@ != "required_fields"@,
        "sort_order"@ != "default_approval_workflow"@,
        "sort_order"@ != "compliance_requirements"@,
        "sort_order"@ != "tax_category"@,
        "sort_order"@ != "risk_level"@,
        "sort_order"@ != "auto_approval_limit"@,
        "sort_order"@ != "vendor_count"@,
        "sort_order"@ != "active"@,
        "sort_order"@ != "created_by"@,
        "sort_order"@ != "created_at"@,
        "sort_order"@ != "updated_at"@,
        "code"@ != "color"@,
        "code"@ != "icon"@,
        "code"@ != "required_fields"@,
        "code"@ != "default_approval_workflow"@,
        "code"@ != "compliance_requirements"@,
        "code"@ != "tax_category"@,
        "code"@ != "risk_level"@,
        "code"@ != "auto_approval_limit"@,
        "code"@ != "vendor_count"@,
        "code"@ != "active"@,
        "code"@ != "created_by"@,
        "code"@ != "created_at"@,
        "code"@ != "updated_at"@,
        "color"@ != "icon"@,
        "color"@ != "required_fields"@,
        "color"@ != "default_approval_workflow"@,
        "color"@ != "compliance_requirements"@,
        "color"@ != "tax_category"@,
        "color"@ != "risk_level"@,
        "color"@ != "auto_approval_limit"@,
        "color"@ != "vendor_count"@,
        "color"@ != "active"@,
        "color"@ != "created_by"@,
        "color"@ != "created_at"@,
        "color"@ != "updated_at"@,
        "icon"@ != "required_fields"@,
        "icon"@ != "default_approval_workflow"@,
        "icon"@ != "compliance_requirements"@,
        "icon"@ != "tax_category"@,
        "icon"@ != "risk_level"@,
        "icon"@ != "auto_approval_limit"@,
        "icon"@ != "vendor_count"@,
        "icon"@ != "active"@,
        "icon"@ != "created_by"@,
        "icon"@ != "created_at"@,
        "icon"@ != "updated_at"@,
        "required_fields"@ != "default_approval_workflow"@,
        "required_fields"@ != "compliance_requirements"@,
        "required_fields"@ != "tax_category"@,
        "required_fields"@ != "risk_level"@,
        "required_fields"@ != "auto_approval_limit"@,
        "required_fields"@ != "vendor_count"@,
        "required_fields"@ != "active"@,
        "required_fields"@ != "created_by"@,
        "required_fields"@ != "created_at"@,
        "required_fields"@ != "updated_at"@,
        "default_approval_workflow"@ != "compliance_requirements"@,
        "default_approval_workflow"@ != "tax_category"@,
        "default_approval_workflow"@ != "risk_level"@,
        "default_approval_workflow"@ != "auto_approval_limit"@,
        "default_approval_workflow"@ != "vendor_count"@,
        "default_approval_workflow"@ != "active"@,
        "default_approval_workflow"@ != "created_by"@,
        "default_approval_workflow"@ != "created_at"@,
        "default_approval_workflow"@ != "updated_at"@,
        "compliance_requirements"@ != "tax_category"@,
        "compliance_requirements"@ != "risk_level"@,
        "compliance_requirements"@ != "auto_approval_limit"@,
        "compliance_requirements"@ != "vendor_count"@,
        "compliance_requirements"@ != "active"@,
        "compliance_requirements"@ != "created_by"@,
        "compliance_requirements"@ != "created_at"@,
        "compliance_requirements"@ != "updated_at"@,
        "tax_category"@ != "risk_level"@,
        "tax_category"@ != "auto_approval_limit"@,
        "tax_category"@ != "vendor_count"@,
        "tax_category"@ != "active"@,
        "tax_category"@ != "created_by"@,
        "tax_category"@ != "created_at"@,
        "tax_category"@ != "updated_at"@,
        "risk_level"@ != "auto_approval_limit"@,
        "risk_level"@ != "vendor_count"@,
        "risk_level"@ != "active"@,
        "risk_level"@ != "created_by"@,
        "risk_level"@ != "created_at"@,
        "risk_level"@ != "updated_at"@,
        "auto_approval_limit"@ != "vendor_count"@,
        "auto_approval_limit"@ != "active"@,
        "auto_approval_limit"@ != "created_by"@,
        "auto_approval_limit"@ != "created_at"@,
        "auto_approval_limit"@ != "updated_at"@,
        "vendor_count"@ != "active"@,
        "vendor_count"@ != "created_by"@,
        "vendor_count"@ != "created_at"@,
        "vendor_count"@ != "updated_at"@,
        "active"@ != "created_by"@,
        "active"@ != "created_at"@,
        "active"@ != "updated_at"@,
        "created_by"@ != "created_at"@,
        "created_by"@ != "updated_at"@,
        "created_at"@ != "updated_at"@,
{
    broadcast use vstd::string::group_string_axioms;
    reveal_strlit("id");
    reveal_strlit("name");
    reveal_strlit("description");
    reveal_strlit("category_type");
    reveal_strlit("status");
    reveal_strlit("parent_category_id");
    reveal_strlit("level");
    reveal_strlit("sort_order");
    reveal_strlit("code");
    reveal_strlit("color");
    reveal_strlit("icon");
    reveal_strlit("required_fields");
    reveal_strlit("default_approval_workflow");
    reveal_strlit("compliance_requirements");
    reveal_strlit("tax_category");
    reveal_strlit("risk_level");
    reveal_strlit("auto_approval_limit");
    reveal_strlit("vendor_count");
    reveal_strlit("active");
    reveal_strlit("created_by");
    reveal_strlit("created_at");
    reveal_strlit("updated_at");
    assert("id"@.len() == 2);
    assert("name"@.len() == 4);
    assert("description"@.len() == 11);
    assert("category_type"@.len() == 13);
    assert("status"@.len() == 6);
    assert("parent_category_id"@.len() == 18);
    assert("level"@.len() == 5);
    assert("sort_order"@.len() == 10);
    assert("code"@.len() == 4);
    assert("color"@.len() == 5);
    assert("icon"@.len() == 4);
    assert("required_fields"@.len() == 15);
    assert("default_approval_workflow"@.len() == 25);
    assert("compliance_requirements"@.len() == 23);
    assert("tax_category"@.len() == 12);
    assert("risk_level"@.len() == 10);
    assert("auto_approval_limit"@.len() == 19);
    assert("vendor_count"@.len() == 12);
    assert("active"@.len() == 6);
    assert("created_by"@.len() == 10);
    assert("created_at"@.len() == 10);
    assert("updated_at"@.len() == 10);
    assert("name"@[0] != "code"@[0]);
    assert("name"@[0] != "icon"@[0]);
    assert("status"@[0] != "active"@[0]);
    assert("level"@[0] != "color"@[0]);
    assert("sort_order"@[0] != "risk_level"@[0]);
    assert("sort_order"@[0] != "created_by"@[0]);
    assert("sort_order"@[0] != "created_at"@[0]);
    assert("sort_order"@[0] != "updated_at"@[0]);
    assert("code"@[0] != "icon"@[0]);
    assert("tax_category"@[0] != "vendor_count"@[0]);
    assert("risk_level"@[0] != "created_by"@[0]);
    assert("risk_level"@[0] != "created_at"@[0]);
    assert("risk_level"@[0] != "updated_at"@[0]);
    assert("created_by"@[8] != "created_at"@[8]);
    assert("created_by"@[0] != "updated_at"@[0]);
    assert("created_at"@[0] != "updated_at"@[0]);
}

} // verus!
