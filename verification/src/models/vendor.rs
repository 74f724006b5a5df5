//! Vendors, their contracts, orders and ratings.
use vstd::prelude::*;

use crate::error::{is_validation_error, AppError};
use crate::fields::{
    bool_or, copy_strings, i32_or, opt_view, read_bool_or, read_i32_or, read_s, read_ss_or_empty,
    read_timestamp, read_timestamp_or, ss_or_empty, timestamp_at, timestamp_or, write_i32,
    write_timestamp,
};
use crate::item::{lookup, push_if, s_at, strings_view, AttrView, Item, ItemView};
use crate::numeric::{lemma_parse_format_i32, spec_format_i32};
use crate::text::{contains_char, is_blank, is_blank_spec, str_eq};
use crate::time::{chrono_format_datetime, chrono_parse_datetime, now, some_valid, Timestamp};

use crate::json::{canonical_json, json_canonical};
use crate::ieee::{above, below_zero, spec_above, spec_below_zero};
use crate::strlist::{add_unique, holds, remove_first, with_added, without_first};
use crate::text::join_text;

use crate::tables::{attr_fits, item_fits_table, spec_vendors_table};

verus! {

/// Where a vendor stands.
#[derive(Clone, Copy, Debug, PartialEq, Eq, Structural, Hash)]
pub enum VendorStatus {
    Active,
    Inactive,
    Pending,
    Suspended,
    Blacklisted,
    Terminated,
}

impl VendorStatus {
    /// The text that stands for the variant in items and requests.
    pub open spec fn spec_str(self) -> Seq<char> {
        match self {
            VendorStatus::Active => "active"@,
            VendorStatus::Inactive => "inactive"@,
            VendorStatus::Pending => "pending"@,
            VendorStatus::Suspended => "suspended"@,
            VendorStatus::Blacklisted => "blacklisted"@,
            VendorStatus::Terminated => "terminated"@,
        }
    }

    /// The variant that a text stands for, if any.
    pub open spec fn spec_parse(s: Seq<char>) -> Option<VendorStatus> {
        if s == "active"@ {
            Some(VendorStatus::Active)
        } else if s == "inactive"@ {
            Some(VendorStatus::Inactive)
        } else if s == "pending"@ {
            Some(VendorStatus::Pending)
        } else if s == "suspended"@ {
            Some(VendorStatus::Suspended)
        } else if s == "blacklisted"@ {
            Some(VendorStatus::Blacklisted)
        } else if s == "terminated"@ {
            Some(VendorStatus::Terminated)
        } else {
            None
        }
    }

    pub fn to_str(&self) -> (res: &'static str)
        ensures
            res@ == self.spec_str(),
    {
        match self {
            VendorStatus::Active => "active",
            VendorStatus::Inactive => "inactive",
            VendorStatus::Pending => "pending",
            VendorStatus::Suspended => "suspended",
            VendorStatus::Blacklisted => "blacklisted",
            VendorStatus::Terminated => "terminated",
        }
    }

    pub fn to_string(&self) -> (res: String)
        ensures
            res@ == self.spec_str(),
    {
        self.to_str().to_owned()
    }

    /// Reads a variant from its text; any other text is refused with a `ValidationError`.
    pub fn from_string(s: &str) -> (res: Result<VendorStatus, AppError>)
        ensures
            match VendorStatus::spec_parse(s@) {
                Some(v) => res == Ok::<VendorStatus, AppError>(v),
                None => res matches Err(AppError::ValidationError(m)) && m@ == "Invalid vendor status"@,
            },
    {
        if str_eq(s, "active") {
            Ok(VendorStatus::Active)
        } else if str_eq(s, "inactive") {
            Ok(VendorStatus::Inactive)
        } else if str_eq(s, "pending") {
            Ok(VendorStatus::Pending)
        } else if str_eq(s, "suspended") {
            Ok(VendorStatus::Suspended)
        } else if str_eq(s, "blacklisted") {
            Ok(VendorStatus::Blacklisted)
        } else if str_eq(s, "terminated") {
            Ok(VendorStatus::Terminated)
        } else {
            Err(AppError::ValidationError("Invalid vendor status".to_owned()))
        }
    }

    /// Reading back the text of a variant gives the variant.
    pub proof fn lemma_parse_str(v: VendorStatus)
        ensures
            VendorStatus::spec_parse(v.spec_str()) == Some(v),
    {
        broadcast use vstd::string::group_string_axioms;
        reveal_strlit("active");
        reveal_strlit("inactive");
        reveal_strlit("pending");
        reveal_strlit("suspended");
        reveal_strlit("blacklisted");
        reveal_strlit("terminated");
        assert("active"@.len() == 6);
        assert("inactive"@.len() == 8);
        assert("pending"@.len() == 7);
        assert("suspended"@.len() == 9);
        assert("blacklisted"@.len() == 11);
        assert("terminated"@.len() == 10);
    }
}


/// How a vendor is ranked.
#[derive(Clone, Copy, Debug, PartialEq, Eq, Structural, Hash)]
pub enum VendorTier {
    Preferred,
    Standard,
    Occasional,
    Trial,
}

impl VendorTier {
    /// The text that stands for the variant in items and requests.
    pub open spec fn spec_str(self) -> Seq<char> {
        match self {
            VendorTier::Preferred => "preferred"@,
            VendorTier::Standard => "standard"@,
            VendorTier::Occasional => "occasional"@,
            VendorTier::Trial => "trial"@,
        }
    }

    /// The variant that a text stands for, if any.
    pub open spec fn spec_parse(s: Seq<char>) -> Option<VendorTier> {
        if s == "preferred"@ {
            Some(VendorTier::Preferred)
        } else if s == "standard"@ {
            Some(VendorTier::Standard)
        } else if s == "occasional"@ {
            Some(VendorTier::Occasional)
        } else if s == "trial"@ {
            Some(VendorTier::Trial)
        } else {
            None
        }
    }

    pub fn to_str(&self) -> (res: &'static str)
        ensures
            res@ == self.spec_str(),
    {
        match self {
            VendorTier::Preferred => "preferred",
            VendorTier::Standard => "standard",
            VendorTier::Occasional => "occasional",
            VendorTier::Trial => "trial",
        }
    }

    pub fn to_string(&self) -> (res: String)
        ensures
            res@ == self.spec_str(),
    {
        self.to_str().to_owned()
    }

    /// Reads a variant from its text; any other text is refused with a `ValidationError`.
    pub fn from_string(s: &str) -> (res: Result<VendorTier, AppError>)
        ensures
            match VendorTier::spec_parse(s@) {
                Some(v) => res == Ok::<VendorTier, AppError>(v),
                None => res matches Err(AppError::ValidationError(m)) && m@ == "Invalid vendor tier"@,
            },
    {
        if str_eq(s, "preferred") {
            Ok(VendorTier::Preferred)
        } else if str_eq(s, "standard") {
            Ok(VendorTier::Standard)
        } else if str_eq(s, "occasional") {
            Ok(VendorTier::Occasional)
        } else if str_eq(s, "trial") {
            Ok(VendorTier::Trial)
        } else {
            Err(AppError::ValidationError("Invalid vendor tier".to_owned()))
        }
    }

    /// Reading back the text of a variant gives the variant.
    pub proof fn lemma_parse_str(v: VendorTier)
        ensures
            VendorTier::spec_parse(v.spec_str()) == Some(v),
    {
        broadcast use vstd::string::group_string_axioms;
        reveal_strlit("preferred");
        reveal_strlit("standard");
        reveal_strlit("occasional");
        reveal_strlit("trial");
        assert("preferred"@.len() == 9);
        assert("standard"@.len() == 8);
        assert("occasional"@.len() == 10);
        assert("trial"@.len() == 5);
    }
}


/// The bit pattern of `5.0`.
pub const FIVE_BITS: u64 = 0x4014_0000_0000_0000;

/// A supplier of goods or services.
#[derive(Clone, Debug)]
pub struct Vendor {
    pub id: String,
    pub name: String,
    pub legal_name: Option<String>,
    pub vendor_code: Option<String>,
    pub vendor_category_id: String,
    pub status: VendorStatus,
    pub tier: VendorTier,
    pub phone_number: String,
    pub secondary_phone: Option<String>,
    pub email_address: String,
    pub secondary_email: Option<String>,
    pub website: Option<String>,
    pub tax_id: String,
    pub registration_number: Option<String>,
    pub payment_terms: String,
    pub currency: String,
    /// The credit limit, as the bit pattern of an `f64` (`f64::to_bits`).
    pub credit_limit: Option<u64>,
    pub primary_contact_name: String,
    pub primary_contact_title: String,
    pub primary_contact_email: Option<String>,
    pub primary_contact_phone: Option<String>,
    pub billing_address: Option<String>,
    pub shipping_address: Option<String>,
    pub certifications: Vec<String>,
    pub compliance_status: String,
    pub insurance_info: Option<String>,
    pub contract_start_date: Option<Timestamp>,
    pub contract_end_date: Option<Timestamp>,
    pub last_order_date: Option<Timestamp>,
    pub total_orders: i32,
    /// The amount spent so far, as the bit pattern of an `f64` (`f64::to_bits`).
    pub total_spent: u64,
    /// The average rating, as the bit pattern of an `f64` (`f64::to_bits`).
    pub average_rating: Option<u64>,
    pub performance_notes: Option<String>,
    pub emergency_contact: Option<String>,
    pub preferred_communication: String,
    pub time_zone: Option<String>,
    pub business_hours: Option<String>,
    pub tags: Vec<String>,
    pub custom_fields: Option<String>,
    pub attachments: Vec<String>,
    pub approval_required: bool,
    /// The limit under which orders are approved at once, as the bit pattern of an `f64` (`f64::to_bits`).
    pub auto_approval_limit: Option<u64>,
    pub notes: Option<String>,
    pub created_by: Option<String>,
    pub created_at: Timestamp,
    pub updated_at: Timestamp,
}

impl Vendor {
    /// The instants are ones that `chrono` represents.
    pub open spec fn wf(&self) -> bool {
        &&& (self.contract_start_date matches Some(t) ==> t.valid())
        &&& (self.contract_end_date matches Some(t) ==> t.valid())
        &&& (self.last_order_date matches Some(t) ==> t.valid())
        &&& self.created_at.valid()
        &&& self.updated_at.valid()
    }

    /// Whether an item holds what this entity needs to be read from it.
    pub open spec fn item_readable(iv: ItemView) -> bool {
        &&& s_at(iv, "id"@) is Some
        &&& s_at(iv, "name"@) is Some
        &&& s_at(iv, "vendor_category_id"@) is Some
        &&& s_at(iv, "status"@) matches Some(c) && VendorStatus::spec_parse(c) is Some
        &&& s_at(iv, "tier"@) matches Some(c) && VendorTier::spec_parse(c) is Some
        &&& s_at(iv, "phone_number"@) is Some
        &&& s_at(iv, "email_address"@) is Some
        &&& s_at(iv, "tax_id"@) is Some
        &&& s_at(iv, "payment_terms"@) is Some
        &&& s_at(iv, "currency"@) is Some
        &&& s_at(iv, "primary_contact_name"@) is Some
        &&& s_at(iv, "primary_contact_title"@) is Some
        &&& s_at(iv, "compliance_status"@) is Some
        &&& s_at(iv, "preferred_communication"@) is Some
    }

    /// Whether this entity is what is read from an item, where instants that
    /// cannot be read are taken to be `now`.
    pub open spec fn read_from(&self, iv: ItemView, now: Timestamp) -> bool {
        &&& Some(self.id@) == s_at(iv, "id"@)
        &&& Some(self.name@) == s_at(iv, "name"@)
        &&& opt_view(self.legal_name) == s_at(iv, "legal_name"@)
        &&& opt_view(self.vendor_code) == s_at(iv, "vendor_code"@)
        &&& Some(self.vendor_category_id@) == s_at(iv, "vendor_category_id"@)
        &&& Some(self.status) == VendorStatus::spec_parse(s_at(iv, "status"@)->0)
        &&& Some(self.tier) == VendorTier::spec_parse(s_at(iv, "tier"@)->0)
        &&& Some(self.phone_number@) == s_at(iv, "phone_number"@)
        &&& opt_view(self.secondary_phone) == s_at(iv, "secondary_phone"@)
        &&& Some(self.email_address@) == s_at(iv, "email_address"@)
        &&& opt_view(self.secondary_email) == s_at(iv, "secondary_email"@)
        &&& opt_view(self.website) == s_at(iv, "website"@)
        &&& Some(self.tax_id@) == s_at(iv, "tax_id"@)
        &&& opt_view(self.registration_number) == s_at(iv, "registration_number"@)
        &&& Some(self.payment_terms@) == s_at(iv, "payment_terms"@)
        &&& Some(self.currency@) == s_at(iv, "currency"@)
        &&& Some(self.primary_contact_name@) == s_at(iv, "primary_contact_name"@)
        &&& Some(self.primary_contact_title@) == s_at(iv, "primary_contact_title"@)
        &&& opt_view(self.primary_contact_email) == s_at(iv, "primary_contact_email"@)
        &&& opt_view(self.primary_contact_phone) == s_at(iv, "primary_contact_phone"@)
        &&& opt_view(self.billing_address) == (match s_at(iv, "billing_address"@) { Some(s) => json_canonical(s), None => None })
        &&& opt_view(self.shipping_address) == (match s_at(iv, "shipping_address"@) { Some(s) => json_canonical(s), None => None })
        &&& strings_view(self.certifications@) == ss_or_empty(iv, "certifications"@)
        &&& Some(self.compliance_status@) == s_at(iv, "compliance_status"@)
        &&& opt_view(self.insurance_info) == (match s_at(iv, "insurance_info"@) { Some(s) => json_canonical(s), None => None })
        &&& self.contract_start_date == timestamp_at(iv, "contract_start_date"@)
        &&& self.contract_end_date == timestamp_at(iv, "contract_end_date"@)
        &&& self.last_order_date == timestamp_at(iv, "last_order_date"@)
        &&& self.total_orders == i32_or(iv, "total_orders"@, 0)
        &&& opt_view(self.performance_notes) == s_at(iv, "performance_notes"@)
        &&& opt_view(self.emergency_contact) == (match s_at(iv, "emergency_contact"@) { Some(s) => json_canonical(s), None => None })
        &&& Some(self.preferred_communication@) == s_at(iv, "preferred_communication"@)
        &&& opt_view(self.time_zone) == s_at(iv, "time_zone"@)
        &&& opt_view(self.business_hours) == (match s_at(iv, "business_hours"@) { Some(s) => json_canonical(s), None => None })
        &&& strings_view(self.tags@) == ss_or_empty(iv, "tags"@)
        &&& opt_view(self.custom_fields) == (match s_at(iv, "custom_fields"@) { Some(s) => json_canonical(s), None => None })
        &&& strings_view(self.attachments@) == ss_or_empty(iv, "attachments"@)
        &&& self.approval_required == bool_or(iv, "approval_required"@, true)
        &&& opt_view(self.notes) == s_at(iv, "notes"@)
        &&& opt_view(self.created_by) == s_at(iv, "created_by"@)
        &&& self.created_at == timestamp_or(iv, "created_at"@, now)
        &&& self.updated_at == timestamp_or(iv, "updated_at"@, now)
    }

    /// The entries that `to_item` writes for id, name, legal_name, vendor_code, vendor_category_id, status, tier, phone_number, secondary_phone, email_address, secondary_email, website, after those of `iv`.
    pub open spec fn spec_item_part1(&self, iv: ItemView) -> ItemView {
        let iv = iv.push(("id"@, AttrView::S(self.id@)));
        let iv = iv.push(("name"@, AttrView::S(self.name@)));
        let iv = push_if(iv, self.legal_name is Some, ("legal_name"@, AttrView::S(self.legal_name->0@)));
        let iv = push_if(iv, self.vendor_code is Some, ("vendor_code"@, AttrView::S(self.vendor_code->0@)));
        let iv = iv.push(("vendor_category_id"@, AttrView::S(self.vendor_category_id@)));
        let iv = iv.push(("status"@, AttrView::S(self.status.spec_str())));
        let iv = iv.push(("tier"@, AttrView::S(self.tier.spec_str())));
        let iv = iv.push(("phone_number"@, AttrView::S(self.phone_number@)));
        let iv = push_if(iv, self.secondary_phone is Some, ("secondary_phone"@, AttrView::S(self.secondary_phone->0@)));
        let iv = iv.push(("email_address"@, AttrView::S(self.email_address@)));
        let iv = push_if(iv, self.secondary_email is Some, ("secondary_email"@, AttrView::S(self.secondary_email->0@)));
        let iv = push_if(iv, self.website is Some, ("website"@, AttrView::S(self.website->0@)));
        iv
    }

    /// The entries that `to_item` writes for tax_id, registration_number, payment_terms, currency, primary_contact_name, primary_contact_title, primary_contact_email, primary_contact_phone, billing_address, shipping_address, certifications, compliance_status, after those of `iv`.
    pub open spec fn spec_item_part2(&self, iv: ItemView) -> ItemView {
        let iv = iv.push(("tax_id"@, AttrView::S(self.tax_id@)));
        let iv = push_if(iv, self.registration_number is Some, ("registration_number"@, AttrView::S(self.registration_number->0@)));
        let iv = iv.push(("payment_terms"@, AttrView::S(self.payment_terms@)));
        let iv = iv.push(("currency"@, AttrView::S(self.currency@)));
        let iv = iv.push(("primary_contact_name"@, AttrView::S(self.primary_contact_name@)));
        let iv = iv.push(("primary_contact_title"@, AttrView::S(self.primary_contact_title@)));
        let iv = push_if(iv, self.primary_contact_email is Some, ("primary_contact_email"@, AttrView::S(self.primary_contact_email->0@)));
        let iv = push_if(iv, self.primary_contact_phone is Some, ("primary_contact_phone"@, AttrView::S(self.primary_contact_phone->0@)));
        let iv = push_if(iv, self.billing_address is Some, ("billing_address"@, AttrView::S(self.billing_address->0@)));
        let iv = push_if(iv, self.shipping_address is Some, ("shipping_address"@, AttrView::S(self.shipping_address->0@)));
        let iv = push_if(iv, self.certifications@.len() > 0, ("certifications"@, AttrView::Ss(strings_view(self.certifications@))));
        let iv = iv.push(("compliance_status"@, AttrView::S(self.compliance_status@)));
        iv
    }

    /// The entries that `to_item` writes for insurance_info, contract_start_date, contract_end_date, last_order_date, total_orders, performance_notes, emergency_contact, preferred_communication, time_zone, business_hours, tags, custom_fields, after those of `iv`.
    pub open spec fn spec_item_part3(&self, iv: ItemView) -> ItemView {
        let iv = push_if(iv, self.insurance_info is Some, ("insurance_info"@, AttrView::S(self.insurance_info->0@)));
        let iv = push_if(iv, self.contract_start_date is Some, ("contract_start_date"@, AttrView::S(chrono_format_datetime(self.contract_start_date->0))));
        let iv = push_if(iv, self.contract_end_date is Some, ("contract_end_date"@, AttrView::S(chrono_format_datetime(self.contract_end_date->0))));
        let iv = push_if(iv, self.last_order_date is Some, ("last_order_date"@, AttrView::S(chrono_format_datetime(self.last_order_date->0))));
        let iv = iv.push(("total_orders"@, AttrView::N(spec_format_i32(self.total_orders))));
        let iv = push_if(iv, self.performance_notes is Some, ("performance_notes"@, AttrView::S(self.performance_notes->0@)));
        let iv = push_if(iv, self.emergency_contact is Some, ("emergency_contact"@, AttrView::S(self.emergency_contact->0@)));
        let iv = iv.push(("preferred_communication"@, AttrView::S(self.preferred_communication@)));
        let iv = push_if(iv, self.time_zone is Some, ("time_zone"@, AttrView::S(self.time_zone->0@)));
        let iv = push_if(iv, self.business_hours is Some, ("business_hours"@, AttrView::S(self.business_hours->0@)));
        let iv = push_if(iv, self.tags@.len() > 0, ("tags"@, AttrView::Ss(strings_view(self.tags@))));
        let iv = push_if(iv, self.custom_fields is Some, ("custom_fields"@, AttrView::S(self.custom_fields->0@)));
        iv
    }

    /// The entries that `to_item` writes for attachments, approval_required, notes, created_by, created_at, updated_at, after those of `iv`.
    pub open spec fn spec_item_part4(&self, iv: ItemView) -> ItemView {
        let iv = push_if(iv, self.attachments@.len() > 0, ("attachments"@, AttrView::Ss(strings_view(self.attachments@))));
        let iv = iv.push(("approval_required"@, AttrView::Bool(self.approval_required)));
        let iv = push_if(iv, self.notes is Some, ("notes"@, AttrView::S(self.notes->0@)));
        let iv = push_if(iv, self.created_by is Some, ("created_by"@, AttrView::S(self.created_by->0@)));
        let iv = iv.push(("created_at"@, AttrView::S(chrono_format_datetime(self.created_at))));
        let iv = iv.push(("updated_at"@, AttrView::S(chrono_format_datetime(self.updated_at))));
        iv
    }

    /// The item that `to_item` writes.
    pub open spec fn spec_item(&self) -> ItemView {
        self.spec_item_part4(self.spec_item_part3(self.spec_item_part2(self.spec_item_part1(Seq::empty()))))
    }

    /// Whether two entities hold the same values.
    pub open spec fn same_as(&self, other: &Vendor) -> bool {
        &&& self.id@ == other.id@
        &&& self.name@ == other.name@
        &&& opt_view(self.legal_name) == opt_view(other.legal_name)
        &&& opt_view(self.vendor_code) == opt_view(other.vendor_code)
        &&& self.vendor_category_id@ == other.vendor_category_id@
        &&& self.status == other.status
        &&& self.tier == other.tier
        &&& self.phone_number@ == other.phone_number@
        &&& opt_view(self.secondary_phone) == opt_view(other.secondary_phone)
        &&& self.email_address@ == other.email_address@
        &&& opt_view(self.secondary_email) == opt_view(other.secondary_email)
        &&& opt_view(self.website) == opt_view(other.website)
        &&& self.tax_id@ == other.tax_id@
        &&& opt_view(self.registration_number) == opt_view(other.registration_number)
        &&& self.payment_terms@ == other.payment_terms@
        &&& self.currency@ == other.currency@
        &&& self.primary_contact_name@ == other.primary_contact_name@
        &&& self.primary_contact_title@ == other.primary_contact_title@
        &&& opt_view(self.primary_contact_email) == opt_view(other.primary_contact_email)
        &&& opt_view(self.primary_contact_phone) == opt_view(other.primary_contact_phone)
        &&& opt_view(self.billing_address) == opt_view(other.billing_address)
        &&& opt_view(self.shipping_address) == opt_view(other.shipping_address)
        &&& strings_view(self.certifications@) == strings_view(other.certifications@)
        &&& self.compliance_status@ == other.compliance_status@
        &&& opt_view(self.insurance_info) == opt_view(other.insurance_info)
        &&& self.contract_start_date == other.contract_start_date
        &&& self.contract_end_date == other.contract_end_date
        &&& self.last_order_date == other.last_order_date
        &&& self.total_orders == other.total_orders
        &&& opt_view(self.performance_notes) == opt_view(other.performance_notes)
        &&& opt_view(self.emergency_contact) == opt_view(other.emergency_contact)
        &&& self.preferred_communication@ == other.preferred_communication@
        &&& opt_view(self.time_zone) == opt_view(other.time_zone)
        &&& opt_view(self.business_hours) == opt_view(other.business_hours)
        &&& strings_view(self.tags@) == strings_view(other.tags@)
        &&& opt_view(self.custom_fields) == opt_view(other.custom_fields)
        &&& strings_view(self.attachments@) == strings_view(other.attachments@)
        &&& self.approval_required == other.approval_required
        &&& opt_view(self.notes) == opt_view(other.notes)
        &&& opt_view(self.created_by) == opt_view(other.created_by)
        &&& self.created_at == other.created_at
        &&& self.updated_at == other.updated_at
    }

    /// Reads the entity from an item, taking `now` for instants that are missing.
    pub fn from_item_at(item: &Item, now: Timestamp, credit_limit: Option<u64>, total_spent: u64, average_rating: Option<u64>, auto_approval_limit: Option<u64>) -> (res: Option<Self>)
        requires
            now.valid(),
        ensures
            res is Some <==> Self::item_readable(item@),
            res matches Some(e) ==> e.read_from(item@, now) && e.wf() && e.credit_limit == credit_limit && e.total_spent == total_spent && e.average_rating == average_rating && e.auto_approval_limit == auto_approval_limit,
    {
        let id = read_s(item, "id")?;
        let name = read_s(item, "name")?;
        let legal_name = read_s(item, "legal_name");
        let vendor_code = read_s(item, "vendor_code");
        let vendor_category_id = read_s(item, "vendor_category_id")?;
        let status_text = item.get_s("status")?;
        let status = VendorStatus::from_string(status_text.as_str()).ok()?;
        let tier_text = item.get_s("tier")?;
        let tier = VendorTier::from_string(tier_text.as_str()).ok()?;
        let phone_number = read_s(item, "phone_number")?;
        let secondary_phone = read_s(item, "secondary_phone");
        let email_address = read_s(item, "email_address")?;
        let secondary_email = read_s(item, "secondary_email");
        let website = read_s(item, "website");
        let tax_id = read_s(item, "tax_id")?;
        let registration_number = read_s(item, "registration_number");
        let payment_terms = read_s(item, "payment_terms")?;
        let currency = read_s(item, "currency")?;
        let primary_contact_name = read_s(item, "primary_contact_name")?;
        let primary_contact_title = read_s(item, "primary_contact_title")?;
        let primary_contact_email = read_s(item, "primary_contact_email");
        let primary_contact_phone = read_s(item, "primary_contact_phone");
        let billing_address = match item.get_s("billing_address") {
            Some(t) => canonical_json(t.as_str()),
            None => None,
        };
        let shipping_address = match item.get_s("shipping_address") {
            Some(t) => canonical_json(t.as_str()),
            None => None,
        };
        let certifications = read_ss_or_empty(item, "certifications");
        let compliance_status = read_s(item, "compliance_status")?;
        let insurance_info = match item.get_s("insurance_info") {
            Some(t) => canonical_json(t.as_str()),
            None => None,
        };
        let contract_start_date = read_timestamp(item, "contract_start_date");
        let contract_end_date = read_timestamp(item, "contract_end_date");
        let last_order_date = read_timestamp(item, "last_order_date");
        let total_orders = read_i32_or(item, "total_orders", 0);
        let performance_notes = read_s(item, "performance_notes");
        let emergency_contact = match item.get_s("emergency_contact") {
            Some(t) => canonical_json(t.as_str()),
            None => None,
        };
        let preferred_communication = read_s(item, "preferred_communication")?;
        let time_zone = read_s(item, "time_zone");
        let business_hours = match item.get_s("business_hours") {
            Some(t) => canonical_json(t.as_str()),
            None => None,
        };
        let tags = read_ss_or_empty(item, "tags");
        let custom_fields = match item.get_s("custom_fields") {
            Some(t) => canonical_json(t.as_str()),
            None => None,
        };
        let attachments = read_ss_or_empty(item, "attachments");
        let approval_required = read_bool_or(item, "approval_required", true);
        let notes = read_s(item, "notes");
        let created_by = read_s(item, "created_by");
        let created_at = read_timestamp_or(item, "created_at", now);
        let updated_at = read_timestamp_or(item, "updated_at", now);
        Some(Vendor {
            id,
            name,
            legal_name,
            vendor_code,
            vendor_category_id,
            status,
            tier,
            phone_number,
            secondary_phone,
            email_address,
            secondary_email,
            website,
            tax_id,
            registration_number,
            payment_terms,
            currency,
            credit_limit,
            primary_contact_name,
            primary_contact_title,
            primary_contact_email,
            primary_contact_phone,
            billing_address,
            shipping_address,
            certifications,
            compliance_status,
            insurance_info,
            contract_start_date,
            contract_end_date,
            last_order_date,
            total_orders,
            total_spent,
            average_rating,
            performance_notes,
            emergency_contact,
            preferred_communication,
            time_zone,
            business_hours,
            tags,
            custom_fields,
            attachments,
            approval_required,
            auto_approval_limit,
            notes,
            created_by,
            created_at,
            updated_at,
        })
    }

    /// Reads the entity from an item; instants that are missing are read from the clock.
    pub fn from_item(item: &Item, credit_limit: Option<u64>, total_spent: u64, average_rating: Option<u64>, auto_approval_limit: Option<u64>) -> (res: Option<Self>)
        ensures
            res is Some <==> Self::item_readable(item@),
            res matches Some(e) ==> e.wf() && e.credit_limit == credit_limit && e.total_spent == total_spent && e.average_rating == average_rating && e.auto_approval_limit == auto_approval_limit && exists|t: Timestamp| t.valid() && e.read_from(item@, t),
    {
        let t = now();
        Self::from_item_at(item, t, credit_limit, total_spent, average_rating, auto_approval_limit)
    }

    fn write_part1(&self, item: &mut Item)
        requires
            self.wf(),
        ensures
            final(item)@ == self.spec_item_part1(old(item)@),
    {
        reveal(push_if);
        let ghost mut iv: ItemView = old(item)@;
        item.insert_s("id", self.id.clone());
        proof { iv = iv.push(("id"@, AttrView::S(self.id@))); }
        assert(item@ == iv);
        item.insert_s("name", self.name.clone());
        proof { iv = iv.push(("name"@, AttrView::S(self.name@))); }
        assert(item@ == iv);
        if let Some(x) = &self.legal_name {
            item.insert_s("legal_name", x.clone());
        }
        proof { iv = push_if(iv, self.legal_name is Some, ("legal_name"@, AttrView::S(self.legal_name->0@))); }
        assert(item@ == iv);
        if let Some(x) = &self.vendor_code {
            item.insert_s("vendor_code", x.clone());
        }
        proof { iv = push_if(iv, self.vendor_code is Some, ("vendor_code"@, AttrView::S(self.vendor_code->0@))); }
        assert(item@ == iv);
        item.insert_s("vendor_category_id", self.vendor_category_id.clone());
        proof { iv = iv.push(("vendor_category_id"@, AttrView::S(self.vendor_category_id@))); }
        assert(item@ == iv);
        item.insert_s("status", self.status.to_string());
        proof { iv = iv.push(("status"@, AttrView::S(self.status.spec_str()))); }
        assert(item@ == iv);
        item.insert_s("tier", self.tier.to_string());
        proof { iv = iv.push(("tier"@, AttrView::S(self.tier.spec_str()))); }
        assert(item@ == iv);
        item.insert_s("phone_number", self.phone_number.clone());
        proof { iv = iv.push(("phone_number"@, AttrView::S(self.phone_number@))); }
        assert(item@ == iv);
        if let Some(x) = &self.secondary_phone {
            item.insert_s("secondary_phone", x.clone());
        }
        proof { iv = push_if(iv, self.secondary_phone is Some, ("secondary_phone"@, AttrView::S(self.secondary_phone->0@))); }
        assert(item@ == iv);
        item.insert_s("email_address", self.email_address.clone());
        proof { iv = iv.push(("email_address"@, AttrView::S(self.email_address@))); }
        assert(item@ == iv);
        if let Some(x) = &self.secondary_email {
            item.insert_s("secondary_email", x.clone());
        }
        proof { iv = push_if(iv, self.secondary_email is Some, ("secondary_email"@, AttrView::S(self.secondary_email->0@))); }
        assert(item@ == iv);
        if let Some(x) = &self.website {
            item.insert_s("website", x.clone());
        }
        proof { iv = push_if(iv, self.website is Some, ("website"@, AttrView::S(self.website->0@))); }
        assert(item@ == iv);
    }

    fn write_part2(&self, item: &mut Item)
        requires
            self.wf(),
        ensures
            final(item)@ == self.spec_item_part2(old(item)@),
    {
        reveal(push_if);
        let ghost mut iv: ItemView = old(item)@;
        item.insert_s("tax_id", self.tax_id.clone());
        proof { iv = iv.push(("tax_id"@, AttrView::S(self.tax_id@))); }
        assert(item@ == iv);
        if let Some(x) = &self.registration_number {
            item.insert_s("registration_number", x.clone());
        }
        proof { iv = push_if(iv, self.registration_number is Some, ("registration_number"@, AttrView::S(self.registration_number->0@))); }
        assert(item@ == iv);
        item.insert_s("payment_terms", self.payment_terms.clone());
        proof { iv = iv.push(("payment_terms"@, AttrView::S(self.payment_terms@))); }
        assert(item@ == iv);
        item.insert_s("currency", self.currency.clone());
        proof { iv = iv.push(("currency"@, AttrView::S(self.currency@))); }
        assert(item@ == iv);
        item.insert_s("primary_contact_name", self.primary_contact_name.clone());
        proof { iv = iv.push(("primary_contact_name"@, AttrView::S(self.primary_contact_name@))); }
        assert(item@ == iv);
        item.insert_s("primary_contact_title", self.primary_contact_title.clone());
        proof { iv = iv.push(("primary_contact_title"@, AttrView::S(self.primary_contact_title@))); }
        assert(item@ == iv);
        if let Some(x) = &self.primary_contact_email {
            item.insert_s("primary_contact_email", x.clone());
        }
        proof { iv = push_if(iv, self.primary_contact_email is Some, ("primary_contact_email"@, AttrView::S(self.primary_contact_email->0@))); }
        assert(item@ == iv);
        if let Some(x) = &self.primary_contact_phone {
            item.insert_s("primary_contact_phone", x.clone());
        }
        proof { iv = push_if(iv, self.primary_contact_phone is Some, ("primary_contact_phone"@, AttrView::S(self.primary_contact_phone->0@))); }
        assert(item@ == iv);
        if let Some(x) = &self.billing_address {
            item.insert_s("billing_address", x.clone());
        }
        proof { iv = push_if(iv, self.billing_address is Some, ("billing_address"@, AttrView::S(self.billing_address->0@))); }
        assert(item@ == iv);
        if let Some(x) = &self.shipping_address {
            item.insert_s("shipping_address", x.clone());
        }
        proof { iv = push_if(iv, self.shipping_address is Some, ("shipping_address"@, AttrView::S(self.shipping_address->0@))); }
        assert(item@ == iv);
        if self.certifications.len() > 0 {
            item.insert_ss("certifications", copy_strings(&self.certifications));
        }
        proof { iv = push_if(iv, self.certifications@.len() > 0, ("certifications"@, AttrView::Ss(strings_view(self.certifications@)))); }
        assert(item@ == iv);
        item.insert_s("compliance_status", self.compliance_status.clone());
        proof { iv = iv.push(("compliance_status"@, AttrView::S(self.compliance_status@))); }
        assert(item@ == iv);
    }

    fn write_part3(&self, item: &mut Item)
        requires
            self.wf(),
        ensures
            final(item)@ == self.spec_item_part3(old(item)@),
            self.contract_start_date matches Some(t) ==> chrono_parse_datetime(chrono_format_datetime(t)) == Some(t),
            self.contract_end_date matches Some(t) ==> chrono_parse_datetime(chrono_format_datetime(t)) == Some(t),
            self.last_order_date matches Some(t) ==> chrono_parse_datetime(chrono_format_datetime(t)) == Some(t),
    {
        reveal(push_if);
        let ghost mut iv: ItemView = old(item)@;
        if let Some(x) = &self.insurance_info {
            item.insert_s("insurance_info", x.clone());
        }
        proof { iv = push_if(iv, self.insurance_info is Some, ("insurance_info"@, AttrView::S(self.insurance_info->0@))); }
        assert(item@ == iv);
        if let Some(t) = &self.contract_start_date {
            write_timestamp(item, "contract_start_date", t);
        }
        proof { iv = push_if(iv, self.contract_start_date is Some, ("contract_start_date"@, AttrView::S(chrono_format_datetime(self.contract_start_date->0)))); }
        assert(item@ == iv);
        if let Some(t) = &self.contract_end_date {
            write_timestamp(item, "contract_end_date", t);
        }
        proof { iv = push_if(iv, self.contract_end_date is Some, ("contract_end_date"@, AttrView::S(chrono_format_datetime(self.contract_end_date->0)))); }
        assert(item@ == iv);
        if let Some(t) = &self.last_order_date {
            write_timestamp(item, "last_order_date", t);
        }
        proof { iv = push_if(iv, self.last_order_date is Some, ("last_order_date"@, AttrView::S(chrono_format_datetime(self.last_order_date->0)))); }
        assert(item@ == iv);
        write_i32(item, "total_orders", self.total_orders);
        proof { iv = iv.push(("total_orders"@, AttrView::N(spec_format_i32(self.total_orders)))); }
        assert(item@ == iv);
        if let Some(x) = &self.performance_notes {
            item.insert_s("performance_notes", x.clone());
        }
        proof { iv = push_if(iv, self.performance_notes is Some, ("performance_notes"@, AttrView::S(self.performance_notes->0@))); }
        assert(item@ == iv);
        if let Some(x) = &self.emergency_contact {
            item.insert_s("emergency_contact", x.clone());
        }
        proof { iv = push_if(iv, self.emergency_contact is Some, ("emergency_contact"@, AttrView::S(self.emergency_contact->0@))); }
        assert(item@ == iv);
        item.insert_s("preferred_communication", self.preferred_communication.clone());
        proof { iv = iv.push(("preferred_communication"@, AttrView::S(self.preferred_communication@))); }
        assert(item@ == iv);
        if let Some(x) = &self.time_zone {
            item.insert_s("time_zone", x.clone());
        }
        proof { iv = push_if(iv, self.time_zone is Some, ("time_zone"@, AttrView::S(self.time_zone->0@))); }
        assert(item@ == iv);
        if let Some(x) = &self.business_hours {
            item.insert_s("business_hours", x.clone());
        }
        proof { iv = push_if(iv, self.business_hours is Some, ("business_hours"@, AttrView::S(self.business_hours->0@))); }
        assert(item@ == iv);
        if self.tags.len() > 0 {
            item.insert_ss("tags", copy_strings(&self.tags));
        }
        proof { iv = push_if(iv, self.tags@.len() > 0, ("tags"@, AttrView::Ss(strings_view(self.tags@)))); }
        assert(item@ == iv);
        if let Some(x) = &self.custom_fields {
            item.insert_s("custom_fields", x.clone());
        }
        proof { iv = push_if(iv, self.custom_fields is Some, ("custom_fields"@, AttrView::S(self.custom_fields->0@))); }
        assert(item@ == iv);
    }

    fn write_part4(&self, item: &mut Item)
        requires
            self.wf(),
        ensures
            final(item)@ == self.spec_item_part4(old(item)@),
            chrono_parse_datetime(chrono_format_datetime(self.created_at)) == Some(self.created_at),
            chrono_parse_datetime(chrono_format_datetime(self.updated_at)) == Some(self.updated_at),
    {
        reveal(push_if);
        let ghost mut iv: ItemView = old(item)@;
        if self.attachments.len() > 0 {
            item.insert_ss("attachments", copy_strings(&self.attachments));
        }
        proof { iv = push_if(iv, self.attachments@.len() > 0, ("attachments"@, AttrView::Ss(strings_view(self.attachments@)))); }
        assert(item@ == iv);
        item.insert_bool("approval_required", self.approval_required);
        proof { iv = iv.push(("approval_required"@, AttrView::Bool(self.approval_required))); }
        assert(item@ == iv);
        if let Some(x) = &self.notes {
            item.insert_s("notes", x.clone());
        }
        proof { iv = push_if(iv, self.notes is Some, ("notes"@, AttrView::S(self.notes->0@))); }
        assert(item@ == iv);
        if let Some(x) = &self.created_by {
            item.insert_s("created_by", x.clone());
        }
        proof { iv = push_if(iv, self.created_by is Some, ("created_by"@, AttrView::S(self.created_by->0@))); }
        assert(item@ == iv);
        write_timestamp(item, "created_at", &self.created_at);
        proof { iv = iv.push(("created_at"@, AttrView::S(chrono_format_datetime(self.created_at)))); }
        assert(item@ == iv);
        write_timestamp(item, "updated_at", &self.updated_at);
        proof { iv = iv.push(("updated_at"@, AttrView::S(chrono_format_datetime(self.updated_at)))); }
        assert(item@ == iv);
    }

    /// What reading the entity back from its item needs beyond well-formedness:
    /// each JSON text it holds is already in the form `serde_json` writes, the
    /// form that reading the item gives.
    pub open spec fn readback_conditions(&self) -> bool {
        &&& self.billing_address matches Some(j) ==> json_canonical(j@) == Some(j@)
        &&& self.shipping_address matches Some(j) ==> json_canonical(j@) == Some(j@)
        &&& self.insurance_info matches Some(j) ==> json_canonical(j@) == Some(j@)
        &&& self.emergency_contact matches Some(j) ==> json_canonical(j@) == Some(j@)
        &&& self.business_hours matches Some(j) ==> json_canonical(j@) == Some(j@)
        &&& self.custom_fields matches Some(j) ==> json_canonical(j@) == Some(j@)
    }

    /// Writes the entity as an item.
    pub fn to_item(&self) -> (res: Item)
        requires
            self.wf(),
        ensures
            res@ == self.spec_item(),
            self.readback_conditions() ==> Self::item_readable(res@),
            self.readback_conditions() ==> forall|b: Vendor, now: Timestamp| #[trigger] b.read_from(res@, now) ==> b.same_as(self),
    {
        let mut item = Item::new();
        self.write_part1(&mut item);
        self.write_part2(&mut item);
        self.write_part3(&mut item);
        self.write_part4(&mut item);
        proof {
            if self.readback_conditions() {
                Self::lemma_item_roundtrip(self, self, Timestamp { secs: 0, nanos: 0 });
                assert forall|b: Vendor, now: Timestamp| #[trigger] b.read_from(item@, now) implies b.same_as(self) by {
                    Self::lemma_item_roundtrip(self, &b, now);
                }
            }
        }
        item
    }

    proof fn lemma_part1_values(&self, iv: ItemView)
        ensures
            lookup(self.spec_item_part1(iv), "id"@) == Some(AttrView::S(self.id@)),
            lookup(self.spec_item_part1(iv), "name"@) == Some(AttrView::S(self.name@)),
            lookup(self.spec_item_part1(iv), "legal_name"@) == (if self.legal_name is Some { Some(AttrView::S(self.legal_name->0@)) } else { lookup(iv, "legal_name"@) }),
            lookup(self.spec_item_part1(iv), "vendor_code"@) == (if self.vendor_code is Some { Some(AttrView::S(self.vendor_code->0@)) } else { lookup(iv, "vendor_code"@) }),
            lookup(self.spec_item_part1(iv), "vendor_category_id"@) == Some(AttrView::S(self.vendor_category_id@)),
            lookup(self.spec_item_part1(iv), "status"@) == Some(AttrView::S(self.status.spec_str())),
            lookup(self.spec_item_part1(iv), "tier"@) == Some(AttrView::S(self.tier.spec_str())),
            lookup(self.spec_item_part1(iv), "phone_number"@) == Some(AttrView::S(self.phone_number@)),
            lookup(self.spec_item_part1(iv), "secondary_phone"@) == (if self.secondary_phone is Some { Some(AttrView::S(self.secondary_phone->0@)) } else { lookup(iv, "secondary_phone"@) }),
            lookup(self.spec_item_part1(iv), "email_address"@) == Some(AttrView::S(self.email_address@)),
            lookup(self.spec_item_part1(iv), "secondary_email"@) == (if self.secondary_email is Some { Some(AttrView::S(self.secondary_email->0@)) } else { lookup(iv, "secondary_email"@) }),
            lookup(self.spec_item_part1(iv), "website"@) == (if self.website is Some { Some(AttrView::S(self.website->0@)) } else { lookup(iv, "website"@) }),
    {
        broadcast use crate::item::lemma_lookup_push, crate::item::lemma_lookup_push_if;
        lemma_keys_distinct_0_0(); lemma_keys_distinct_0_1(); lemma_keys_distinct_0_2(); lemma_keys_distinct_0_3(); lemma_keys_distinct_1_1(); lemma_keys_distinct_1_2(); lemma_keys_distinct_1_3(); lemma_keys_distinct_2_2(); lemma_keys_distinct_2_3(); lemma_keys_distinct_3_3();
    }

    proof fn lemma_part1_frame(&self, iv: ItemView, k: Seq<char>)
        requires
            k != "id"@,
            k != "name"@,
            k != "legal_name"@,
            k != "vendor_code"@,
            k != "vendor_category_id"@,
            k != "status"@,
            k != "tier"@,
            k != "phone_number"@,
            k != "secondary_phone"@,
            k != "email_address"@,
            k != "secondary_email"@,
            k != "website"@,
        ensures
            lookup(self.spec_item_part1(iv), k) == lookup(iv, k),
    {
        broadcast use crate::item::lemma_lookup_push, crate::item::lemma_lookup_push_if;
    }

    proof fn lemma_part2_values(&self, iv: ItemView)
        ensures
            lookup(self.spec_item_part2(iv), "tax_id"@) == Some(AttrView::S(self.tax_id@)),
            lookup(self.spec_item_part2(iv), "registration_number"@) == (if self.registration_number is Some { Some(AttrView::S(self.registration_number->0@)) } else { lookup(iv, "registration_number"@) }),
            lookup(self.spec_item_part2(iv), "payment_terms"@) == Some(AttrView::S(self.payment_terms@)),
            lookup(self.spec_item_part2(iv), "currency"@) == Some(AttrView::S(self.currency@)),
            lookup(self.spec_item_part2(iv), "primary_contact_name"@) == Some(AttrView::S(self.primary_contact_name@)),
            lookup(self.spec_item_part2(iv), "primary_contact_title"@) == Some(AttrView::S(self.primary_contact_title@)),
            lookup(self.spec_item_part2(iv), "primary_contact_email"@) == (if self.primary_contact_email is Some { Some(AttrView::S(self.primary_contact_email->0@)) } else { lookup(iv, "primary_contact_email"@) }),
            lookup(self.spec_item_part2(iv), "primary_contact_phone"@) == (if self.primary_contact_phone is Some { Some(AttrView::S(self.primary_contact_phone->0@)) } else { lookup(iv, "primary_contact_phone"@) }),
            lookup(self.spec_item_part2(iv), "billing_address"@) == (if self.billing_address is Some { Some(AttrView::S(self.billing_address->0@)) } else { lookup(iv, "billing_address"@) }),
            lookup(self.spec_item_part2(iv), "shipping_address"@) == (if self.shipping_address is Some { Some(AttrView::S(self.shipping_address->0@)) } else { lookup(iv, "shipping_address"@) }),
            lookup(self.spec_item_part2(iv), "certifications"@) == (if self.certifications@.len() > 0 { Some(AttrView::Ss(strings_view(self.certifications@))) } else { lookup(iv, "certifications"@) }),
            lookup(self.spec_item_part2(iv), "compliance_status"@) == Some(AttrView::S(self.compliance_status@)),
    {
        broadcast use crate::item::lemma_lookup_push, crate::item::lemma_lookup_push_if;
        lemma_keys_distinct_0_0(); lemma_keys_distinct_0_1(); lemma_keys_distinct_0_2(); lemma_keys_distinct_0_3(); lemma_keys_distinct_1_1(); lemma_keys_distinct_1_2(); lemma_keys_distinct_1_3(); lemma_keys_distinct_2_2(); lemma_keys_distinct_2_3(); lemma_keys_distinct_3_3();
    }

    proof fn lemma_part2_frame(&self, iv: ItemView, k: Seq<char>)
        requires
            k != "tax_id"@,
            k != "registration_number"@,
            k != "payment_terms"@,
            k != "currency"@,
            k != "primary_contact_name"@,
            k != "primary_contact_title"@,
            k != "primary_contact_email"@,
            k != "primary_contact_phone"@,
            k != "billing_address"@,
            k != "shipping_address"@,
            k != "certifications"@,
            k != "compliance_status"@,
        ensures
            lookup(self.spec_item_part2(iv), k) == lookup(iv, k),
    {
        broadcast use crate::item::lemma_lookup_push, crate::item::lemma_lookup_push_if;
    }

    proof fn lemma_part3_values(&self, iv: ItemView)
        ensures
            lookup(self.spec_item_part3(iv), "insurance_info"@) == (if self.insurance_info is Some { Some(AttrView::S(self.insurance_info->0@)) } else { lookup(iv, "insurance_info"@) }),
            lookup(self.spec_item_part3(iv), "contract_start_date"@) == (if self.contract_start_date is Some { Some(AttrView::S(chrono_format_datetime(self.contract_start_date->0))) } else { lookup(iv, "contract_start_date"@) }),
            lookup(self.spec_item_part3(iv), "contract_end_date"@) == (if self.contract_end_date is Some { Some(AttrView::S(chrono_format_datetime(self.contract_end_date->0))) } else { lookup(iv, "contract_end_date"@) }),
            lookup(self.spec_item_part3(iv), "last_order_date"@) == (if self.last_order_date is Some { Some(AttrView::S(chrono_format_datetime(self.last_order_date->0))) } else { lookup(iv, "last_order_date"@) }),
            lookup(self.spec_item_part3(iv), "total_orders"@) == Some(AttrView::N(spec_format_i32(self.total_orders))),
            lookup(self.spec_item_part3(iv), "performance_notes"@) == (if self.performance_notes is Some { Some(AttrView::S(self.performance_notes->0@)) } else { lookup(iv, "performance_notes"@) }),
            lookup(self.spec_item_part3(iv), "emergency_contact"@) == (if self.emergency_contact is Some { Some(AttrView::S(self.emergency_contact->0@)) } else { lookup(iv, "emergency_contact"@) }),
            lookup(self.spec_item_part3(iv), "preferred_communication"@) == Some(AttrView::S(self.preferred_communication@)),
            lookup(self.spec_item_part3(iv), "time_zone"@) == (if self.time_zone is Some { Some(AttrView::S(self.time_zone->0@)) } else { lookup(iv, "time_zone"@) }),
            lookup(self.spec_item_part3(iv), "business_hours"@) == (if self.business_hours is Some { Some(AttrView::S(self.business_hours->0@)) } else { lookup(iv, "business_hours"@) }),
            lookup(self.spec_item_part3(iv), "tags"@) == (if self.tags@.len() > 0 { Some(AttrView::Ss(strings_view(self.tags@))) } else { lookup(iv, "tags"@) }),
            lookup(self.spec_item_part3(iv), "custom_fields"@) == (if self.custom_fields is Some { Some(AttrView::S(self.custom_fields->0@)) } else { lookup(iv, "custom_fields"@) }),
    {
        broadcast use crate::item::lemma_lookup_push, crate::item::lemma_lookup_push_if;
        lemma_keys_distinct_0_0(); lemma_keys_distinct_0_1(); lemma_keys_distinct_0_2(); lemma_keys_distinct_0_3(); lemma_keys_distinct_1_1(); lemma_keys_distinct_1_2(); lemma_keys_distinct_1_3(); lemma_keys_distinct_2_2(); lemma_keys_distinct_2_3(); lemma_keys_distinct_3_3();
    }

    proof fn lemma_part3_frame(&self, iv: ItemView, k: Seq<char>)
        requires
            k != "insurance_info"@,
            k != "contract_start_date"@,
            k != "contract_end_date"@,
            k != "last_order_date"@,
            k != "total_orders"@,
            k != "performance_notes"@,
            k != "emergency_contact"@,
            k != "preferred_communication"@,
            k != "time_zone"@,
            k != "business_hours"@,
            k != "tags"@,
            k != "custom_fields"@,
        ensures
            lookup(self.spec_item_part3(iv), k) == lookup(iv, k),
    {
        broadcast use crate::item::lemma_lookup_push, crate::item::lemma_lookup_push_if;
    }

    proof fn lemma_part4_values(&self, iv: ItemView)
        ensures
            lookup(self.spec_item_part4(iv), "attachments"@) == (if self.attachments@.len() > 0 { Some(AttrView::Ss(strings_view(self.attachments@))) } else { lookup(iv, "attachments"@) }),
            lookup(self.spec_item_part4(iv), "approval_required"@) == Some(AttrView::Bool(self.approval_required)),
            lookup(self.spec_item_part4(iv), "notes"@) == (if self.notes is Some { Some(AttrView::S(self.notes->0@)) } else { lookup(iv, "notes"@) }),
            lookup(self.spec_item_part4(iv), "created_by"@) == (if self.created_by is Some { Some(AttrView::S(self.created_by->0@)) } else { lookup(iv, "created_by"@) }),
            lookup(self.spec_item_part4(iv), "created_at"@) == Some(AttrView::S(chrono_format_datetime(self.created_at))),
            lookup(self.spec_item_part4(iv), "updated_at"@) == Some(AttrView::S(chrono_format_datetime(self.updated_at))),
    {
        broadcast use crate::item::lemma_lookup_push, crate::item::lemma_lookup_push_if;
        lemma_keys_distinct_0_0(); lemma_keys_distinct_0_1(); lemma_keys_distinct_0_2(); lemma_keys_distinct_0_3(); lemma_keys_distinct_1_1(); lemma_keys_distinct_1_2(); lemma_keys_distinct_1_3(); lemma_keys_distinct_2_2(); lemma_keys_distinct_2_3(); lemma_keys_distinct_3_3();
    }

    proof fn lemma_part4_frame(&self, iv: ItemView, k: Seq<char>)
        requires
            k != "attachments"@,
            k != "approval_required"@,
            k != "notes"@,
            k != "created_by"@,
            k != "created_at"@,
            k != "updated_at"@,
        ensures
            lookup(self.spec_item_part4(iv), k) == lookup(iv, k),
    {
        broadcast use crate::item::lemma_lookup_push, crate::item::lemma_lookup_push_if;
    }

    /// Every attribute the `Vendors` table defines holds, in the item the entity is
    /// written as, nothing or a value of the type the table gives it, so
    /// DynamoDB accepts the item.
    pub proof fn lemma_item_fits_table(a: &Vendor)
        ensures
            item_fits_table(a.spec_item(), spec_vendors_table()),
    {
        lemma_keys_distinct_0_0(); lemma_keys_distinct_0_1(); lemma_keys_distinct_0_2(); lemma_keys_distinct_0_3(); lemma_keys_distinct_1_1(); lemma_keys_distinct_1_2(); lemma_keys_distinct_1_3(); lemma_keys_distinct_2_2(); lemma_keys_distinct_2_3(); lemma_keys_distinct_3_3();
        let e: ItemView = Seq::empty();
        let p1 = a.spec_item_part1(e);
        let p2 = a.spec_item_part2(p1);
        let p3 = a.spec_item_part3(p2);
        let p4 = a.spec_item_part4(p3);
        assert(a.spec_item() == p4);
        a.lemma_part1_values(e);
        a.lemma_part2_values(p1);
        a.lemma_part3_values(p2);
        a.lemma_part4_values(p3);
        a.lemma_part2_frame(p1, "id"@);
        a.lemma_part3_frame(p2, "id"@);
        a.lemma_part4_frame(p3, "id"@);
        a.lemma_part2_frame(p1, "status"@);
        a.lemma_part3_frame(p2, "status"@);
        a.lemma_part4_frame(p3, "status"@);
        lemma_table_keys_absent();
        a.lemma_part1_frame(e, "category_id"@);
        a.lemma_part2_frame(p1, "category_id"@);
        a.lemma_part3_frame(p2, "category_id"@);
        a.lemma_part4_frame(p3, "category_id"@);
        a.lemma_part1_frame(e, "rating"@);
        a.lemma_part2_frame(p1, "rating"@);
        a.lemma_part3_frame(p2, "rating"@);
        a.lemma_part4_frame(p3, "rating"@);
        let t = spec_vendors_table();
        assert forall|i: int| 0 <= i < t.attributes.len() implies match #[trigger] crate::item::lookup(a.spec_item(), t.attributes[i].0) {
            Some(v) => attr_fits(t.attributes[i].1, v),
            None => true,
        } by {
            if i == 0 { assert(t.attributes[0].0 == "id"@); } else if i == 1 { assert(t.attributes[1].0 == "category_id"@); } else if i == 2 { assert(t.attributes[2].0 == "status"@); } else if i == 3 { assert(t.attributes[3].0 == "rating"@); }
        }
    }

    /// Reading the entity back from the item it is written as gives the same
    /// entity, where `chrono` reads back the text of its instants.
    #[verifier::rlimit(100)]
    pub proof fn lemma_item_roundtrip(a: &Vendor, b: &Vendor, now: Timestamp)
        requires
            a.wf(),
            a.billing_address matches Some(j) ==> json_canonical(j@) == Some(j@),
            a.shipping_address matches Some(j) ==> json_canonical(j@) == Some(j@),
            a.insurance_info matches Some(j) ==> json_canonical(j@) == Some(j@),
            a.contract_start_date matches Some(t) ==> chrono_parse_datetime(chrono_format_datetime(t)) == Some(t),
            a.contract_end_date matches Some(t) ==> chrono_parse_datetime(chrono_format_datetime(t)) == Some(t),
            a.last_order_date matches Some(t) ==> chrono_parse_datetime(chrono_format_datetime(t)) == Some(t),
            a.emergency_contact matches Some(j) ==> json_canonical(j@) == Some(j@),
            a.business_hours matches Some(j) ==> json_canonical(j@) == Some(j@),
            a.custom_fields matches Some(j) ==> json_canonical(j@) == Some(j@),
            chrono_parse_datetime(chrono_format_datetime(a.created_at)) == Some(a.created_at),
            chrono_parse_datetime(chrono_format_datetime(a.updated_at)) == Some(a.updated_at),
        ensures
            Self::item_readable(a.spec_item()),
            b.read_from(a.spec_item(), now) ==> b.same_as(a),
    {
        lemma_keys_distinct_0_0(); lemma_keys_distinct_0_1(); lemma_keys_distinct_0_2(); lemma_keys_distinct_0_3(); lemma_keys_distinct_1_1(); lemma_keys_distinct_1_2(); lemma_keys_distinct_1_3(); lemma_keys_distinct_2_2(); lemma_keys_distinct_2_3(); lemma_keys_distinct_3_3();
        let e: ItemView = Seq::empty();
        let p1 = a.spec_item_part1(e);
        let p2 = a.spec_item_part2(p1);
        let p3 = a.spec_item_part3(p2);
        let p4 = a.spec_item_part4(p3);
        assert(a.spec_item() == p4);
        a.lemma_part1_values(e);
        a.lemma_part2_values(p1);
        a.lemma_part3_values(p2);
        a.lemma_part4_values(p3);
        a.lemma_part2_frame(p1, "id"@);
        a.lemma_part3_frame(p2, "id"@);
        a.lemma_part4_frame(p3, "id"@);
        a.lemma_part2_frame(p1, "name"@);
        a.lemma_part3_frame(p2, "name"@);
        a.lemma_part4_frame(p3, "name"@);
        a.lemma_part2_frame(p1, "legal_name"@);
        a.lemma_part3_frame(p2, "legal_name"@);
        a.lemma_part4_frame(p3, "legal_name"@);
        a.lemma_part2_frame(p1, "vendor_code"@);
        a.lemma_part3_frame(p2, "vendor_code"@);
        a.lemma_part4_frame(p3, "vendor_code"@);
        a.lemma_part2_frame(p1, "vendor_category_id"@);
        a.lemma_part3_frame(p2, "vendor_category_id"@);
        a.lemma_part4_frame(p3, "vendor_category_id"@);
        a.lemma_part2_frame(p1, "status"@);
        a.lemma_part3_frame(p2, "status"@);
        a.lemma_part4_frame(p3, "status"@);
        a.lemma_part2_frame(p1, "tier"@);
        a.lemma_part3_frame(p2, "tier"@);
        a.lemma_part4_frame(p3, "tier"@);
        a.lemma_part2_frame(p1, "phone_number"@);
        a.lemma_part3_frame(p2, "phone_number"@);
        a.lemma_part4_frame(p3, "phone_number"@);
        a.lemma_part2_frame(p1, "secondary_phone"@);
        a.lemma_part3_frame(p2, "secondary_phone"@);
        a.lemma_part4_frame(p3, "secondary_phone"@);
        a.lemma_part2_frame(p1, "email_address"@);
        a.lemma_part3_frame(p2, "email_address"@);
        a.lemma_part4_frame(p3, "email_address"@);
        a.lemma_part2_frame(p1, "secondary_email"@);
        a.lemma_part3_frame(p2, "secondary_email"@);
        a.lemma_part4_frame(p3, "secondary_email"@);
        a.lemma_part2_frame(p1, "website"@);
        a.lemma_part3_frame(p2, "website"@);
        a.lemma_part4_frame(p3, "website"@);
        a.lemma_part1_frame(e, "tax_id"@);
        a.lemma_part3_frame(p2, "tax_id"@);
        a.lemma_part4_frame(p3, "tax_id"@);
        a.lemma_part1_frame(e, "registration_number"@);
        a.lemma_part3_frame(p2, "registration_number"@);
        a.lemma_part4_frame(p3, "registration_number"@);
        a.lemma_part1_frame(e, "payment_terms"@);
        a.lemma_part3_frame(p2, "payment_terms"@);
        a.lemma_part4_frame(p3, "payment_terms"@);
        a.lemma_part1_frame(e, "currency"@);
        a.lemma_part3_frame(p2, "currency"@);
        a.lemma_part4_frame(p3, "currency"@);
        a.lemma_part1_frame(e, "primary_contact_name"@);
        a.lemma_part3_frame(p2, "primary_contact_name"@);
        a.lemma_part4_frame(p3, "primary_contact_name"@);
        a.lemma_part1_frame(e, "primary_contact_title"@);
        a.lemma_part3_frame(p2, "primary_contact_title"@);
        a.lemma_part4_frame(p3, "primary_contact_title"@);
        a.lemma_part1_frame(e, "primary_contact_email"@);
        a.lemma_part3_frame(p2, "primary_contact_email"@);
        a.lemma_part4_frame(p3, "primary_contact_email"@);
        a.lemma_part1_frame(e, "primary_contact_phone"@);
        a.lemma_part3_frame(p2, "primary_contact_phone"@);
        a.lemma_part4_frame(p3, "primary_contact_phone"@);
        a.lemma_part1_frame(e, "billing_address"@);
        a.lemma_part3_frame(p2, "billing_address"@);
        a.lemma_part4_frame(p3, "billing_address"@);
        a.lemma_part1_frame(e, "shipping_address"@);
        a.lemma_part3_frame(p2, "shipping_address"@);
        a.lemma_part4_frame(p3, "shipping_address"@);
        a.lemma_part1_frame(e, "certifications"@);
        a.lemma_part3_frame(p2, "certifications"@);
        a.lemma_part4_frame(p3, "certifications"@);
        a.lemma_part1_frame(e, "compliance_status"@);
        a.lemma_part3_frame(p2, "compliance_status"@);
        a.lemma_part4_frame(p3, "compliance_status"@);
        a.lemma_part1_frame(e, "insurance_info"@);
        a.lemma_part2_frame(p1, "insurance_info"@);
        a.lemma_part4_frame(p3, "insurance_info"@);
        a.lemma_part1_frame(e, "contract_start_date"@);
        a.lemma_part2_frame(p1, "contract_start_date"@);
        a.lemma_part4_frame(p3, "contract_start_date"@);
        a.lemma_part1_frame(e, "contract_end_date"@);
        a.lemma_part2_frame(p1, "contract_end_date"@);
        a.lemma_part4_frame(p3, "contract_end_date"@);
        a.lemma_part1_frame(e, "last_order_date"@);
        a.lemma_part2_frame(p1, "last_order_date"@);
        a.lemma_part4_frame(p3, "last_order_date"@);
        a.lemma_part1_frame(e, "total_orders"@);
        a.lemma_part2_frame(p1, "total_orders"@);
        a.lemma_part4_frame(p3, "total_orders"@);
        a.lemma_part1_frame(e, "performance_notes"@);
        a.lemma_part2_frame(p1, "performance_notes"@);
        a.lemma_part4_frame(p3, "performance_notes"@);
        a.lemma_part1_frame(e, "emergency_contact"@);
        a.lemma_part2_frame(p1, "emergency_contact"@);
        a.lemma_part4_frame(p3, "emergency_contact"@);
        a.lemma_part1_frame(e, "preferred_communication"@);
        a.lemma_part2_frame(p1, "preferred_communication"@);
        a.lemma_part4_frame(p3, "preferred_communication"@);
        a.lemma_part1_frame(e, "time_zone"@);
        a.lemma_part2_frame(p1, "time_zone"@);
        a.lemma_part4_frame(p3, "time_zone"@);
        a.lemma_part1_frame(e, "business_hours"@);
        a.lemma_part2_frame(p1, "business_hours"@);
        a.lemma_part4_frame(p3, "business_hours"@);
        a.lemma_part1_frame(e, "tags"@);
        a.lemma_part2_frame(p1, "tags"@);
        a.lemma_part4_frame(p3, "tags"@);
        a.lemma_part1_frame(e, "custom_fields"@);
        a.lemma_part2_frame(p1, "custom_fields"@);
        a.lemma_part4_frame(p3, "custom_fields"@);
        a.lemma_part1_frame(e, "attachments"@);
        a.lemma_part2_frame(p1, "attachments"@);
        a.lemma_part3_frame(p2, "attachments"@);
        a.lemma_part1_frame(e, "approval_required"@);
        a.lemma_part2_frame(p1, "approval_required"@);
        a.lemma_part3_frame(p2, "approval_required"@);
        a.lemma_part1_frame(e, "notes"@);
        a.lemma_part2_frame(p1, "notes"@);
        a.lemma_part3_frame(p2, "notes"@);
        a.lemma_part1_frame(e, "created_by"@);
        a.lemma_part2_frame(p1, "created_by"@);
        a.lemma_part3_frame(p2, "created_by"@);
        a.lemma_part1_frame(e, "created_at"@);
        a.lemma_part2_frame(p1, "created_at"@);
        a.lemma_part3_frame(p2, "created_at"@);
        a.lemma_part1_frame(e, "updated_at"@);
        a.lemma_part2_frame(p1, "updated_at"@);
        a.lemma_part3_frame(p2, "updated_at"@);
        VendorStatus::lemma_parse_str(a.status);
        VendorTier::lemma_parse_str(a.tier);
        if a.certifications@.len() == 0 { assert(strings_view(a.certifications@) =~= Seq::<Seq<char>>::empty()); }
        lemma_parse_format_i32(a.total_orders);
        if a.tags@.len() == 0 { assert(strings_view(a.tags@) =~= Seq::<Seq<char>>::empty()); }
        if a.attachments@.len() == 0 { assert(strings_view(a.attachments@) =~= Seq::<Seq<char>>::empty()); }
    }

    /// Whether a text passes the basic e-mail check: it holds an `@` and a `.`.
    pub open spec fn spec_email_shaped(s: Seq<char>) -> bool {
        s.contains('@') && s.contains('.')
    }

    /// Whether an optional e-mail is missing, blank or e-mail shaped.
    pub open spec fn spec_optional_email_ok(s: Option<Seq<char>>) -> bool {
        !(s matches Some(e) && !is_blank_spec(e) && !Self::spec_email_shaped(e))
    }

    /// Which check, if any, the arguments of `new` fail, in the order they are made.
    pub open spec fn spec_new_error(
        name: Seq<char>,
        vendor_category_id: Seq<char>,
        status: Seq<char>,
        tier: Seq<char>,
        phone_number: Seq<char>,
        email_address: Seq<char>,
        secondary_email: Option<Seq<char>>,
        tax_id: Seq<char>,
        payment_terms: Seq<char>,
        currency: Seq<char>,
        credit_limit: Option<u64>,
        primary_contact_name: Seq<char>,
        primary_contact_title: Seq<char>,
        primary_contact_email: Option<Seq<char>>,
        compliance_status: Seq<char>,
        contract_start_date: Option<Timestamp>,
        contract_end_date: Option<Timestamp>,
        preferred_communication: Seq<char>,
        auto_approval_limit: Option<u64>,
    ) -> Option<Seq<char>> {
        if is_blank_spec(name) {
            Some("Vendor name cannot be empty"@)
        } else if is_blank_spec(vendor_category_id) {
            Some("Vendor category ID cannot be empty"@)
        } else if is_blank_spec(phone_number) {
            Some("Phone number cannot be empty"@)
        } else if is_blank_spec(email_address) {
            Some("Email address cannot be empty"@)
        } else if !Self::spec_email_shaped(email_address) {
            Some("Invalid email format"@)
        } else if is_blank_spec(tax_id) {
            Some("Tax ID cannot be empty"@)
        } else if is_blank_spec(payment_terms) {
            Some("Payment terms cannot be empty"@)
        } else if is_blank_spec(currency) {
            Some("Currency cannot be empty"@)
        } else if is_blank_spec(primary_contact_name) {
            Some("Primary contact name cannot be empty"@)
        } else if is_blank_spec(primary_contact_title) {
            Some("Primary contact title cannot be empty"@)
        } else if is_blank_spec(compliance_status) {
            Some("Compliance status cannot be empty"@)
        } else if is_blank_spec(preferred_communication) {
            Some("Preferred communication cannot be empty"@)
        } else if !Self::spec_optional_email_ok(secondary_email) {
            Some("Invalid secondary email format"@)
        } else if !Self::spec_optional_email_ok(primary_contact_email) {
            Some("Invalid primary contact email format"@)
        } else if credit_limit matches Some(l) && spec_below_zero(l) {
            Some("Credit limit cannot be negative"@)
        } else if auto_approval_limit matches Some(l) && spec_below_zero(l) {
            Some("Auto approval limit cannot be negative"@)
        } else if contract_start_date matches Some(s) && contract_end_date matches Some(e) && !s.precedes(e) {
            Some("Contract end date must be after start date"@)
        } else if VendorStatus::spec_parse(status) is None {
            Some("Invalid vendor status"@)
        } else if VendorTier::spec_parse(tier) is None {
            Some("Invalid vendor tier"@)
        } else {
            None
        }
    }

    /// Whether a text passes the basic e-mail check.
    pub fn email_shaped(s: &str) -> (res: bool)
        ensures
            res == Self::spec_email_shaped(s@),
    {
        contains_char(s, '@') && contains_char(s, '.')
    }

    fn optional_email_ok(s: &Option<String>) -> (res: bool)
        ensures
            res == Self::spec_optional_email_ok(opt_view(*s)),
    {
        match s {
            Some(e) => is_blank(e.as_str()) || Self::email_shaped(e.as_str()),
            None => true,
        }
    }

    /// Registers a vendor with no orders and no rating yet. The limits are bit
    /// patterns of `f64`s; the addresses, insurance, emergency contact, business
    /// hours and custom fields are JSON texts.
    pub fn new(
        id: String,
        name: String,
        legal_name: Option<String>,
        vendor_code: Option<String>,
        vendor_category_id: String,
        status: String,
        tier: String,
        phone_number: String,
        secondary_phone: Option<String>,
        email_address: String,
        secondary_email: Option<String>,
        website: Option<String>,
        tax_id: String,
        registration_number: Option<String>,
        payment_terms: String,
        currency: String,
        credit_limit: Option<u64>,
        primary_contact_name: String,
        primary_contact_title: String,
        primary_contact_email: Option<String>,
        primary_contact_phone: Option<String>,
        billing_address: Option<String>,
        shipping_address: Option<String>,
        certifications: Vec<String>,
        compliance_status: String,
        insurance_info: Option<String>,
        contract_start_date: Option<Timestamp>,
        contract_end_date: Option<Timestamp>,
        emergency_contact: Option<String>,
        preferred_communication: String,
        time_zone: Option<String>,
        business_hours: Option<String>,
        tags: Vec<String>,
        custom_fields: Option<String>,
        attachments: Vec<String>,
        approval_required: &bool,
        auto_approval_limit: Option<u64>,
        notes: Option<String>,
        created_by: Option<String>,
    ) -> (res: Result<Self, AppError>)
        ensures
            match Self::spec_new_error(name@, vendor_category_id@, status@, tier@, phone_number@, email_address@,
                opt_view(secondary_email), tax_id@, payment_terms@, currency@, credit_limit, primary_contact_name@,
                primary_contact_title@, opt_view(primary_contact_email), compliance_status@, contract_start_date,
                contract_end_date, preferred_communication@, auto_approval_limit) {
                Some(m) => is_validation_error(res, m),
                None => res matches Ok(v) && {
                    &&& v.id == id && v.name == name && v.legal_name == legal_name && v.vendor_code == vendor_code
                    &&& v.vendor_category_id == vendor_category_id
                    &&& Some(v.status) == VendorStatus::spec_parse(status@)
                    &&& Some(v.tier) == VendorTier::spec_parse(tier@)
                    &&& v.phone_number == phone_number && v.secondary_phone == secondary_phone
                    &&& v.email_address == email_address && v.secondary_email == secondary_email
                    &&& v.website == website && v.tax_id == tax_id && v.registration_number == registration_number
                    &&& v.payment_terms == payment_terms && v.currency == currency && v.credit_limit == credit_limit
                    &&& v.primary_contact_name == primary_contact_name
                    &&& v.primary_contact_title == primary_contact_title
                    &&& v.primary_contact_email == primary_contact_email
                    &&& v.primary_contact_phone == primary_contact_phone
                    &&& v.billing_address == billing_address && v.shipping_address == shipping_address
                    &&& v.certifications == certifications && v.compliance_status == compliance_status
                    &&& v.insurance_info == insurance_info && v.contract_start_date == contract_start_date
                    &&& v.contract_end_date == contract_end_date && v.last_order_date is None
                    &&& v.total_orders == 0 && v.total_spent == 0 && v.average_rating is None
                    &&& v.performance_notes is None && v.emergency_contact == emergency_contact
                    &&& v.preferred_communication == preferred_communication && v.time_zone == time_zone
                    &&& v.business_hours == business_hours && v.tags == tags && v.custom_fields == custom_fields
                    &&& v.attachments == attachments && v.approval_required == *approval_required
                    &&& v.auto_approval_limit == auto_approval_limit && v.notes == notes
                    &&& v.created_by == created_by
                    &&& v.created_at == v.updated_at && v.created_at.valid()
                },
            },
            res matches Ok(x) ==> (x.readback_conditions() <==> ((billing_address matches Some(j) ==> json_canonical(j@) == Some(j@)) && (shipping_address matches Some(j) ==> json_canonical(j@) == Some(j@)) && (insurance_info matches Some(j) ==> json_canonical(j@) == Some(j@)) && (emergency_contact matches Some(j) ==> json_canonical(j@) == Some(j@)) && (business_hours matches Some(j) ==> json_canonical(j@) == Some(j@)) && (custom_fields matches Some(j) ==> json_canonical(j@) == Some(j@)))),
    {
        let now = now();
        if is_blank(name.as_str()) {
            return Err(AppError::ValidationError("Vendor name cannot be empty".to_owned()));
        }
        if is_blank(vendor_category_id.as_str()) {
            return Err(AppError::ValidationError("Vendor category ID cannot be empty".to_owned()));
        }
        if is_blank(phone_number.as_str()) {
            return Err(AppError::ValidationError("Phone number cannot be empty".to_owned()));
        }
        if is_blank(email_address.as_str()) {
            return Err(AppError::ValidationError("Email address cannot be empty".to_owned()));
        }
        if !Self::email_shaped(email_address.as_str()) {
            return Err(AppError::ValidationError("Invalid email format".to_owned()));
        }
        if is_blank(tax_id.as_str()) {
            return Err(AppError::ValidationError("Tax ID cannot be empty".to_owned()));
        }
        if is_blank(payment_terms.as_str()) {
            return Err(AppError::ValidationError("Payment terms cannot be empty".to_owned()));
        }
        if is_blank(currency.as_str()) {
            return Err(AppError::ValidationError("Currency cannot be empty".to_owned()));
        }
        if is_blank(primary_contact_name.as_str()) {
            return Err(AppError::ValidationError("Primary contact name cannot be empty".to_owned()));
        }
        if is_blank(primary_contact_title.as_str()) {
            return Err(AppError::ValidationError("Primary contact title cannot be empty".to_owned()));
        }
        if is_blank(compliance_status.as_str()) {
            return Err(AppError::ValidationError("Compliance status cannot be empty".to_owned()));
        }
        if is_blank(preferred_communication.as_str()) {
            return Err(AppError::ValidationError("Preferred communication cannot be empty".to_owned()));
        }
        if !Self::optional_email_ok(&secondary_email) {
            return Err(AppError::ValidationError("Invalid secondary email format".to_owned()));
        }
        if !Self::optional_email_ok(&primary_contact_email) {
            return Err(AppError::ValidationError("Invalid primary contact email format".to_owned()));
        }
        if let Some(limit) = credit_limit {
            if below_zero(limit) {
                return Err(AppError::ValidationError("Credit limit cannot be negative".to_owned()));
            }
        }
        if let Some(limit) = auto_approval_limit {
            if below_zero(limit) {
                return Err(AppError::ValidationError("Auto approval limit cannot be negative".to_owned()));
            }
        }
        if let (Some(start), Some(end)) = (&contract_start_date, &contract_end_date) {
            if !start.is_before(end) {
                return Err(AppError::ValidationError("Contract end date must be after start date".to_owned()));
            }
        }
        let status_enum = VendorStatus::from_string(status.as_str())?;
        let tier_enum = VendorTier::from_string(tier.as_str())?;
        Ok(Vendor {
            id,
            name,
            legal_name,
            vendor_code,
            vendor_category_id,
            status: status_enum,
            tier: tier_enum,
            phone_number,
            secondary_phone,
            email_address,
            secondary_email,
            website,
            tax_id,
            registration_number,
            payment_terms,
            currency,
            credit_limit,
            primary_contact_name,
            primary_contact_title,
            primary_contact_email,
            primary_contact_phone,
            billing_address,
            shipping_address,
            certifications,
            compliance_status,
            insurance_info,
            contract_start_date,
            contract_end_date,
            last_order_date: None,
            total_orders: 0,
            total_spent: 0,
            average_rating: None,
            performance_notes: None,
            emergency_contact,
            preferred_communication,
            time_zone,
            business_hours,
            tags,
            custom_fields,
            attachments,
            approval_required: *approval_required,
            auto_approval_limit,
            notes,
            created_by,
            created_at: now,
            updated_at: now,
        })
    }

    pub fn is_active(&self) -> (res: bool)
        ensures
            res == (self.status == VendorStatus::Active),
    {
        self.status == VendorStatus::Active
    }

    /// Whether the contract has ended at `now`.
    pub open spec fn spec_contract_expired_at(&self, now: Timestamp) -> bool {
        self.contract_end_date matches Some(e) && e.precedes(now)
    }

    pub fn is_contract_expired_at(&self, now: &Timestamp) -> (res: bool)
        ensures
            res == self.spec_contract_expired_at(*now),
            self.contract_end_date is None ==> !res,
            self.contract_end_date matches Some(e) ==> (res <==> e.secs < now.secs || (e.secs == now.secs && e.nanos < now.nanos)),
    {
        match &self.contract_end_date {
            Some(e) => now.is_after(e),
            None => false,
        }
    }

    /// Whether the contract has ended.
    pub fn is_contract_expired(&self) -> (res: bool)
        ensures
            exists|t: Timestamp| t.valid() && res == self.spec_contract_expired_at(t),
    {
        let t = now();
        self.is_contract_expired_at(&t)
    }

    /// Whether orders can be placed at `now`: the vendor is active, its contract
    /// has not ended, and it is neither suspended, blacklisted nor terminated.
    pub open spec fn spec_can_place_orders_at(&self, now: Timestamp) -> bool {
        &&& self.status == VendorStatus::Active
        &&& !self.spec_contract_expired_at(now)
        &&& !(self.status == VendorStatus::Suspended || self.status == VendorStatus::Blacklisted
            || self.status == VendorStatus::Terminated)
    }

    pub fn can_place_orders_at(&self, now: &Timestamp) -> (res: bool)
        ensures
            res == self.spec_can_place_orders_at(*now),
            res ==> self.status == VendorStatus::Active,
            self.status == VendorStatus::Active && self.contract_end_date is None ==> res,
            self.contract_end_date matches Some(e) && (e.secs < now.secs || (e.secs == now.secs && e.nanos < now.nanos)) ==> !res,
    {
        self.is_active() && !self.is_contract_expired_at(now) && !(self.status == VendorStatus::Suspended
            || self.status == VendorStatus::Blacklisted || self.status == VendorStatus::Terminated)
    }

    /// A vendor without a contract end date has no expired contract at any
    /// instant, and a contract with an end date has expired exactly at the
    /// instants after it.
    pub proof fn lemma_contract_expiry(v: &Vendor, now: Timestamp)
        ensures
            v.contract_end_date is None ==> !v.spec_contract_expired_at(now),
            v.contract_end_date matches Some(e) ==> (v.spec_contract_expired_at(now)
                <==> (e.secs < now.secs || (e.secs == now.secs && e.nanos < now.nanos))),
    {
    }

    /// An active vendor without a contract end date can place orders at every
    /// instant; a vendor that is not active never can.
    pub proof fn lemma_orders_without_contract_end(v: &Vendor, now: Timestamp)
        ensures
            v.status == VendorStatus::Active && v.contract_end_date is None ==> v.spec_can_place_orders_at(now),
            v.status != VendorStatus::Active ==> !v.spec_can_place_orders_at(now),
    {
    }

    /// A vendor that can place orders at some instant could at every earlier
    /// one: a contract only runs out.
    pub proof fn lemma_orders_earlier(v: &Vendor, earlier: Timestamp, later: Timestamp)
        requires
            earlier.secs < later.secs || (earlier.secs == later.secs && earlier.nanos <= later.nanos),
            v.spec_can_place_orders_at(later),
        ensures
            v.spec_can_place_orders_at(earlier),
    {
    }

    /// Whether orders can be placed now.
    pub fn can_place_orders(&self) -> (res: bool)
        ensures
            exists|t: Timestamp| t.valid() && res == self.spec_can_place_orders_at(t),
    {
        let t = now();
        self.can_place_orders_at(&t)
    }

    /// Records an order of `order_amount`; `total_spent_after` is the new amount
    /// spent, the sum that the caller works out in floating point. Both are bit
    /// patterns of `f64`s. A negative amount is refused.
    pub fn record_order(&mut self, order_amount: u64, total_spent_after: u64) -> (res: Result<(), AppError>)
        requires
            old(self).total_orders < i32::MAX,
        ensures
            spec_below_zero(order_amount) ==> *final(self) == *old(self)
                && is_validation_error(res, "Order amount cannot be negative"@),
            !spec_below_zero(order_amount) ==> res is Ok && *final(self) == (Vendor {
                total_orders: (old(self).total_orders + 1) as i32,
                total_spent: total_spent_after,
                last_order_date: final(self).last_order_date,
                updated_at: final(self).updated_at,
                ..*old(self)
            }) && some_valid(final(self).last_order_date) && final(self).updated_at.valid(),
    {
        if below_zero(order_amount) {
            return Err(AppError::ValidationError("Order amount cannot be negative".to_owned()));
        }
        self.total_orders = self.total_orders + 1;
        self.total_spent = total_spent_after;
        self.last_order_date = Some(now());
        self.updated_at = now();
        Ok(())
    }

    /// Sets the rating, a bit pattern of an `f64`, which must lie between 0 and 5
    /// (a NaN passes, as no comparison holds of it).
    pub fn update_rating(&mut self, new_rating: u64) -> (res: Result<(), AppError>)
        ensures
            ({
                let out = spec_below_zero(new_rating) || spec_above(new_rating, FIVE_BITS);
                &&& out ==> *final(self) == *old(self)
                    && is_validation_error(res, "Rating must be between 0.0 and 5.0"@)
                &&& !out ==> res is Ok && *final(self) == (Vendor {
                    average_rating: Some(new_rating),
                    updated_at: final(self).updated_at,
                    ..*old(self)
                }) && final(self).updated_at.valid()
            }),
    {
        if below_zero(new_rating) || above(new_rating, FIVE_BITS) {
            return Err(AppError::ValidationError("Rating must be between 0.0 and 5.0".to_owned()));
        }
        self.average_rating = Some(new_rating);
        self.updated_at = now();
        Ok(())
    }

    /// Adds a certification unless the list holds it already; the update time moves only when it was added.
    pub fn add_certification(&mut self, certification: String)
        ensures
            strings_view(final(self).certifications@) == with_added(strings_view(old(self).certifications@), certification@),
            strings_view(old(self).certifications@).contains(certification@) ==> *final(self) == *old(self),
            !strings_view(old(self).certifications@).contains(certification@) ==> *final(self) == (Vendor {
                certifications: final(self).certifications,
                updated_at: final(self).updated_at,
                ..*old(self)
            }) && final(self).updated_at.valid(),
    {
        if add_unique(&mut self.certifications, certification) {
            self.updated_at = now();
        }
    }

    /// Removes the first occurrence of a certification; the update time moves only when there was one.
    pub fn remove_certification(&mut self, certification: &str)
        ensures
            strings_view(final(self).certifications@) == without_first(strings_view(old(self).certifications@), certification@),
            !strings_view(old(self).certifications@).contains(certification@) ==> *final(self) == *old(self),
            strings_view(old(self).certifications@).contains(certification@) ==> *final(self) == (Vendor {
                certifications: final(self).certifications,
                updated_at: final(self).updated_at,
                ..*old(self)
            }) && final(self).updated_at.valid(),
    {
        if remove_first(&mut self.certifications, certification) {
            self.updated_at = now();
        }
    }

    /// Whether the list holds a certification.
    pub fn has_certification(&self, certification: &str) -> (res: bool)
        ensures
            res == strings_view(self.certifications@).contains(certification@),
    {
        holds(&self.certifications, certification)
    }

    /// Adds a tag unless the list holds it already; the update time moves only when it was added.
    pub fn add_tag(&mut self, tag: String)
        ensures
            strings_view(final(self).tags@) == with_added(strings_view(old(self).tags@), tag@),
            strings_view(old(self).tags@).contains(tag@) ==> *final(self) == *old(self),
            !strings_view(old(self).tags@).contains(tag@) ==> *final(self) == (Vendor {
                tags: final(self).tags,
                updated_at: final(self).updated_at,
                ..*old(self)
            }) && final(self).updated_at.valid(),
    {
        if add_unique(&mut self.tags, tag) {
            self.updated_at = now();
        }
    }

    /// Removes the first occurrence of a tag; the update time moves only when there was one.
    pub fn remove_tag(&mut self, tag: &str)
        ensures
            strings_view(final(self).tags@) == without_first(strings_view(old(self).tags@), tag@),
            !strings_view(old(self).tags@).contains(tag@) ==> *final(self) == *old(self),
            strings_view(old(self).tags@).contains(tag@) ==> *final(self) == (Vendor {
                tags: final(self).tags,
                updated_at: final(self).updated_at,
                ..*old(self)
            }) && final(self).updated_at.valid(),
    {
        if remove_first(&mut self.tags, tag) {
            self.updated_at = now();
        }
    }

    /// Whether the list holds a tag.
    pub fn has_tag(&self, tag: &str) -> (res: bool)
        ensures
            res == strings_view(self.tags@).contains(tag@),
    {
        holds(&self.tags, tag)
    }

    /// The notes after a suspension for `reason`: the reason is appended to the notes.
    pub open spec fn spec_suspension_notes(notes: Option<String>, reason: Seq<char>) -> Seq<char> {
        (match notes {
            Some(n) => n@,
            None => Seq::empty(),
        }) + "; SUSPENDED: "@ + reason
    }

    /// Suspends a vendor that is neither terminated nor blacklisted; a reason is appended to the notes.
    pub fn suspend(&mut self, reason: Option<String>) -> (res: Result<(), AppError>)
        ensures
            ({
                let barred = old(self).status == VendorStatus::Terminated || old(self).status == VendorStatus::Blacklisted;
                &&& barred ==> *final(self) == *old(self)
                    && is_validation_error(res, "Cannot suspend terminated or blacklisted vendor"@)
                &&& !barred ==> res is Ok && *final(self) == (Vendor {
                    status: VendorStatus::Suspended,
                    notes: final(self).notes,
                    updated_at: final(self).updated_at,
                    ..*old(self)
                }) && final(self).updated_at.valid() && match reason {
                    Some(r) => final(self).notes matches Some(n) && n@ == Self::spec_suspension_notes(old(self).notes, r@),
                    None => final(self).notes == old(self).notes,
                }
            }),
    {
        if self.status == VendorStatus::Terminated || self.status == VendorStatus::Blacklisted {
            return Err(AppError::ValidationError("Cannot suspend terminated or blacklisted vendor".to_owned()));
        }
        self.status = VendorStatus::Suspended;
        if let Some(reason_text) = reason {
            let current = match &self.notes {
                Some(n) => n.clone(),
                None => String::new(),
            };
            let head = join_text(current.as_str(), "; SUSPENDED: ");
            self.notes = Some(join_text(head.as_str(), reason_text.as_str()));
        }
        self.updated_at = now();
        Ok(())
    }

    /// Reactivates a suspended or inactive vendor.
    pub fn reactivate(&mut self) -> (res: Result<(), AppError>)
        ensures
            ({
                let ok = old(self).status == VendorStatus::Suspended || old(self).status == VendorStatus::Inactive;
                &&& ok ==> res is Ok && *final(self) == (Vendor {
                    status: VendorStatus::Active,
                    updated_at: final(self).updated_at,
                    ..*old(self)
                }) && final(self).updated_at.valid()
                &&& !ok ==> *final(self) == *old(self)
                    && is_validation_error(res, "Only suspended or inactive vendors can be reactivated"@)
            }),
    {
        if !(self.status == VendorStatus::Suspended || self.status == VendorStatus::Inactive) {
            return Err(AppError::ValidationError("Only suspended or inactive vendors can be reactivated".to_owned()));
        }
        self.status = VendorStatus::Active;
        self.updated_at = now();
        Ok(())
    }

    /// A vendor that can place orders is active.
    pub proof fn lemma_ordering_vendor_active(v: &Vendor, t: Timestamp)
        requires
            v.spec_can_place_orders_at(t),
        ensures
            v.status == VendorStatus::Active,
    {
    }

}

proof fn lemma_keys_distinct_0_0()
    ensures
        "id"@ != "name"@,
        "id"@ != "legal_name"@,
        "id"@ != "vendor_code"@,
        "id"@ != "vendor_category_id"@,
        "id"@ != "status"@,
        "id"@ != "tier"@,
        "id"@ != "phone_number"@,
        "id"@ != "secondary_phone"@,
        "id"@ != "email_address"@,
        "id"@ != "secondary_email"@,
        "id"@ != "website"@,
        "name"@ != "legal_name"@,
        "name"@ != "vendor_code"@,
        "name"@ != "vendor_category_id"@,
        "name"@ != "status"@,
        "name"@ != "tier"@,
        "name"@ != "phone_number"@,
        "name"@ != "secondary_phone"@,
        "name"@ != "email_address"@,
        "name"@ != "secondary_email"@,
        "name"@ != "website"@,
        "legal_name"@ != "vendor_code"@,
        "legal_name"@ != "vendor_category_id"@,
        "legal_name"@ != "status"@,
        "legal_name"@ != "tier"@,
        "legal_name"@ != "phone_number"@,
        "legal_name"@ != "secondary_phone"@,
        "legal_name"@ != "email_address"@,
        "legal_name"@ != "secondary_email"@,
        "legal_name"@ != "website"@,
        "vendor_code"@ != "vendor_category_id"@,
        "vendor_code"@ != "status"@,
        "vendor_code"@ != "tier"@,
        "vendor_code"@ != "phone_number"@,
        "vendor_code"@ != "secondary_phone"@,
        "vendor_code"@ != "email_address"@,
        "vendor_code"@ != "secondary_email"@,
        "vendor_code"@ != "website"@,
        "vendor_category_id"@ != "status"@,
        "vendor_category_id"@ != "tier"@,
        "vendor_category_id"@ != "phone_number"@,
        "vendor_category_id"@ != "secondary_phone"@,
        "vendor_category_id"@ != "email_address"@,
        "vendor_category_id"@ != "secondary_email"@,
        "vendor_category_id"@ != "website"@,
        "status"@ != "tier"@,
        "status"@ != "phone_number"@,
        "status"@ != "secondary_phone"@,
        "status"@ != "email_address"@,
        "status"@ != "secondary_email"@,
        "status"@ != "website"@,
        "tier"@ != "phone_number"@,
        "tier"@ != "secondary_phone"@,
        "tier"@ != "email_address"@,
        "tier"@ != "secondary_email"@,
        "tier"@ != "website"@,
        "phone_number"@ != "secondary_phone"@,
        "phone_number"@ != "email_address"@,
        "phone_number"@ != "secondary_email"@,
        "phone_number"@ != "website"@,
        "secondary_phone"@ != "email_address"@,
        "secondary_phone"@ != "secondary_email"@,
        "secondary_phone"@ != "website"@,
        "email_address"@ != "secondary_email"@,
        "email_address"@ != "website"@,
        "secondary_email"@ != "website"@,
{
    broadcast use vstd::string::group_string_axioms;
    reveal_strlit("id");
    reveal_strlit("name");
    reveal_strlit("legal_name");
    reveal_strlit("vendor_code");
    reveal_strlit("vendor_category_id");
    reveal_strlit("status");
    reveal_strlit("tier");
    reveal_strlit("phone_number");
    reveal_strlit("secondary_phone");
    reveal_strlit("email_address");
    reveal_strlit("secondary_email");
    reveal_strlit("website");
    assert("id"@.len() == 2);
    assert("name"@.len() == 4);
    assert("legal_name"@.len() == 10);
    assert("vendor_code"@.len() == 11);
    assert("vendor_category_id"@.len() == 18);
    assert("status"@.len() == 6);
    assert("tier"@.len() == 4);
    assert("phone_number"@.len() == 12);
    assert("secondary_phone"@.len() == 15);
    assert("email_address"@.len() == 13);
    assert("secondary_email"@.len() == 15);
    assert("website"@.len() == 7);
    assert("name"@[0] != "tier"@[0]);
    assert("secondary_phone"@[10] != "secondary_email"@[10]);
}

proof fn lemma_keys_distinct_0_1()
    ensures
        "id"@ != "tax_id"@,
        "id"@ != "registration_number"@,
        "id"@ != "payment_terms"@,
        "id"@ != "currency"@,
        "id"@ != "credit_limit"@,
        "id"@ != "primary_contact_name"@,
        "id"@ != "primary_contact_title"@,
        "id"@ != "primary_contact_email"@,
        "id"@ != "primary_contact_phone"@,
        "id"@ != "billing_address"@,
        "id"@ != "shipping_address"@,
        "id"@ != "certifications"@,
        "name"@ != "tax_id"@,
        "name"@ != "registration_number"@,
        "name"@ != "payment_terms"@,
        "name"@ != "currency"@,
        "name"@ != "credit_limit"@,
        "name"@ != "primary_contact_name"@,
        "name"@ != "primary_contact_title"@,
        "name"@ != "primary_contact_email"@,
        "name"@ != "primary_contact_phone"@,
        "name"@ != "billing_address"@,
        "name"@ != "shipping_address"@,
        "name"@ != "certifications"@,
        "legal_name"@ != "tax_id"@,
        "legal_name"@ != "registration_number"@,
        "legal_name"@ != "payment_terms"@,
        "legal_name"@ != "currency"@,
        "legal_name"@ != "credit_limit"@,
        "legal_name"@ != "primary_contact_name"@,
        "legal_name"@ != "primary_contact_title"@,
        "legal_name"@ != "primary_contact_email"@,
        "legal_name"@ != "primary_contact_phone"@,
        "legal_name"@ != "billing_address"@,
        "legal_name"@ != "shipping_address"@,
        "legal_name"@ != "certifications"@,
        "vendor_code"@ != "tax_id"@,
        "vendor_code"@ != "registration_number"@,
        "vendor_code"@ != "payment_terms"@,
        "vendor_code"@ != "currency"@,
        "vendor_code"@ != "credit_limit"@,
        "vendor_code"@ != "primary_contact_name"@,
        "vendor_code"@ != "primary_contact_title"@,
        "vendor_code"@ != "primary_contact_email"@,
        "vendor_code"@ != "primary_contact_phone"@,
        "vendor_code"@ != "billing_address"@,
        "vendor_code"@ != "shipping_address"@,
        "vendor_code"@ != "certifications"@,
        "vendor_category_id"@ != "tax_id"@,
        "vendor_category_id"@ != "registration_number"@,
        "vendor_category_id"@ != "payment_terms"@,
        "vendor_category_id"@ != "currency"@,
        "vendor_category_id"@ != "credit_limit"@,
        "vendor_category_id"@ != "primary_contact_name"@,
        "vendor_category_id"@ != "primary_contact_title"@,
        "vendor_category_id"@ != "primary_contact_email"@,
        "vendor_category_id"@ != "primary_contact_phone"@,
        "vendor_category_id"@ != "billing_address"@,
        "vendor_category_id"@ != "shipping_address"@,
        "vendor_category_id"@ != "certifications"@,
        "status"@ != "tax_id"@,
        "status"@ != "registration_number"@,
        "status"@ != "payment_terms"@,
        "status"@ != "currency"@,
        "status"@ != "credit_limit"@,
        "status"@ != "primary_contact_name"@,
        "status"@ != "primary_contact_title"@,
        "status"@ != "primary_contact_email"@,
        "status"@ != "primary_contact_phone"@,
        "status"@ != "billing_address"@,
        "status"@ != "shipping_address"@,
        "status"@ != "certifications"@,
        "tier"@ != "tax_id"@,
        "tier"@ != "registration_number"@,
        "tier"@ != "payment_terms"@,
        "tier"@ != "currency"@,
        "tier"@ != "credit_limit"@,
        "tier"@ != "primary_contact_name"@,
        "tier"@ != "primary_contact_title"@,
        "tier"@ != "primary_contact_email"@,
        "tier"@ != "primary_contact_phone"@,
        "tier"@ != "billing_address"@,
        "tier"@ != "shipping_address"@,
        "tier"@ != "certifications"@,
        "phone_number"@ != "tax_id"@,
        "phone_number"@ != "registration_number"@,
        "phone_number"@ != "payment_terms"@,
        "phone_number"@ != "currency"@,
        "phone_number"@ != "credit_limit"@,
        "phone_number"@ != "primary_contact_name"@,
        "phone_number"@ != "primary_contact_title"@,
        "phone_number"@ != "primary_contact_email"@,
        "phone_number"@ != "primary_contact_phone"@,
        "phone_number"@ != "billing_address"@,
        "phone_number"@ != "shipping_address"@,
        "phone_number"@ != "certifications"@,
        "secondary_phone"@ != "tax_id"@,
        "secondary_phone"@ != "registration_number"@,
        "secondary_phone"@ != "payment_terms"@,
        "secondary_phone"@ != "currency"@,
        "secondary_phone"@ != "credit_limit"@,
        "secondary_phone"@ != "primary_contact_name"@,
        "secondary_phone"@ != "primary_contact_title"@,
        "secondary_phone"@ != "primary_contact_email"@,
        "secondary_phone"@ != "primary_contact_phone"@,
        "secondary_phone"@ != "billing_address"@,
        "secondary_phone"@ != "shipping_address"@,
        "secondary_phone"@ != "certifications"@,
        "email_address"@ != "tax_id"@,
        "email_address"@ != "registration_number"@,
        "email_address"@ != "payment_terms"@,
        "email_address"@ != "currency"@,
        "email_address"@ != "credit_limit"@,
        "email_address"@ != "primary_contact_name"@,
        "email_address"@ != "primary_contact_title"@,
        "email_address"@ != "primary_contact_email"@,
        "email_address"@ != "primary_contact_phone"@,
        "email_address"@ != "billing_address"@,
        "email_address"@ != "shipping_address"@,
        "email_address"@ != "certifications"@,
        "secondary_email"@ != "tax_id"@,
        "secondary_email"@ != "registration_number"@,
        "secondary_email"@ != "payment_terms"@,
        "secondary_email"@ != "currency"@,
        "secondary_email"@ != "credit_limit"@,
        "secondary_email"@ != "primary_contact_name"@,
        "secondary_email"@ != "primary_contact_title"@,
        "secondary_email"@ != "primary_contact_email"@,
        "secondary_email"@ != "primary_contact_phone"@,
        "secondary_email"@ != "billing_address"@,
        "secondary_email"@ != "shipping_address"@,
        "secondary_email"@ != "certifications"@,
        "website"@ != "tax_id"@,
        "website"@ != "registration_number"@,
        "website"@ != "payment_terms"@,
        "website"@ != "currency"@,
        "website"@ != "credit_limit"@,
        "website"@ != "primary_contact_name"@,
        "website"@ != "primary_contact_title"@,
        "website"@ != "primary_contact_email"@,
        "website"@ != "primary_contact_phone"@,
        "website"@ != "billing_address"@,
        "website"@ != "shipping_address"@,
        "website"@ != "certifications"@,
{
    broadcast use vstd::string::group_string_axioms;
    reveal_strlit("id");
    reveal_strlit("name");
    reveal_strlit("legal_name");
    reveal_strlit("vendor_code");
    reveal_strlit("vendor_category_id");
    reveal_strlit("status");
    reveal_strlit("tier");
    reveal_strlit("phone_number");
    reveal_strlit("secondary_phone");
    reveal_strlit("email_address");
    reveal_strlit("secondary_email");
    reveal_strlit("website");
    reveal_strlit("tax_id");
    reveal_strlit("registration_number");
    reveal_strlit("payment_terms");
    reveal_strlit("currency");
    reveal_strlit("credit_limit");
    reveal_strlit("primary_contact_name");
    reveal_strlit("primary_contact_title");
    reveal_strlit("primary_contact_email");
    reveal_strlit("primary_contact_phone");
    reveal_strlit("billing_address");
    reveal_strlit("shipping_address");
    reveal_strlit("certifications");
    assert("id"@.len() == 2);
    assert("name"@.len() == 4);
    assert("legal_name"@.len() == 10);
    assert("vendor_code"@.len() == 11);
    assert("vendor_category_id"@.len() == 18);
    assert("status"@.len() == 6);
    assert("tier"@.len() == 4);
    assert("phone_number"@.len() == 12);
    assert("secondary_phone"@.len() == 15);
    assert("email_address"@.len() == 13);
    assert("secondary_email"@.len() == 15);
    assert("website"@.len() == 7);
    assert("tax_id"@.len() == 6);
    assert("registration_number"@.len() == 19);
    assert("payment_terms"@.len() == 13);
    assert("currency"@.len() == 8);
    assert("credit_limit"@.len() == 12);
    assert("primary_contact_name"@.len() == 20);
    assert("primary_contact_title"@.len() == 21);
    assert("primary_contact_email"@.len() == 21);
    assert("primary_contact_phone"@.len() == 21);
    assert("billing_address"@.len() == 15);
    assert("shipping_address"@.len() == 16);
    assert("certifications"@.len() == 14);
    assert("status"@[0] != "tax_id"@[0]);
    assert("phone_number"@[0] != "credit_limit"@[0]);
    assert("secondary_phone"@[0] != "billing_address"@[0]);
    assert("email_address"@[0] != "payment_terms"@[0]);
    assert("secondary_email"@[0] != "billing_address"@[0]);
}

proof fn lemma_keys_distinct_0_2()
    ensures
        "id"@ != "compliance_status"@,
        "id"@ != "insurance_info"@,
        "id"@ != "contract_start_date"@,
        "id"@ != "contract_end_date"@,
        "id"@ != "last_order_date"@,
        "id"@ != "total_orders"@,
        "id"@ != "total_spent"@,
        "id"@ != "average_rating"@,
        "id"@ != "performance_notes"@,
        "id"@ != "emergency_contact"@,
        "id"@ != "preferred_communication"@,
        "id"@ != "time_zone"@,
        "name"@ != "compliance_status"@,
        "name"@ != "insurance_info"@,
        "name"@ != "contract_start_date"@,
        "name"@ != "contract_end_date"@,
        "name"@ != "last_order_date"@,
        "name"@ != "total_orders"@,
        "name"@ != "total_spent"@,
        "name"@ != "average_rating"@,
        "name"@ != "performance_notes"@,
        "name"@ != "emergency_contact"@,
        "name"@ != "preferred_communication"@,
        "name"@ != "time_zone"@,
        "legal_name"@ != "compliance_status"@,
        "legal_name"@ != "insurance_info"@,
        "legal_name"@ != "contract_start_date"@,
        "legal_name"@ != "contract_end_date"@,
        "legal_name"@ != "last_order_date"@,
        "legal_name"@ != "total_orders"@,
        "legal_name"@ != "total_spent"@,
        "legal_name"@ != "average_rating"@,
        "legal_name"@ != "performance_notes"@,
        "legal_name"@ != "emergency_contact"@,
        "legal_name"@ != "preferred_communication"@,
        "legal_name"@ != "time_zone"@,
        "vendor_code"@ != "compliance_status"@,
        "vendor_code"@ != "insurance_info"@,
        "vendor_code"@ != "contract_start_date"@,
        "vendor_code"@ != "contract_end_date"@,
        "vendor_code"@ != "last_order_date"@,
        "vendor_code"@ != "total_orders"@,
        "vendor_code"@ != "total_spent"@,
        "vendor_code"@ != "average_rating"@,
        "vendor_code"@ != "performance_notes"@,
        "vendor_code"@ != "emergency_contact"@,
        "vendor_code"@ != "preferred_communication"@,
        "vendor_code"@ != "time_zone"@,
        "vendor_category_id"@ != "compliance_status"@,
        "vendor_category_id"@ != "insurance_info"@,
        "vendor_category_id"@ != "contract_start_date"@,
        "vendor_category_id"@ != "contract_end_date"@,
        "vendor_category_id"@ != "last_order_date"@,
        "vendor_category_id"@ != "total_orders"@,
        "vendor_category_id"@ != "total_spent"@,
        "vendor_category_id"@ != "average_rating"@,
        "vendor_category_id"@ != "performance_notes"@,
        "vendor_category_id"@ != "emergency_contact"@,
        "vendor_category_id"@ != "preferred_communication"@,
        "vendor_category_id"@ != "time_zone"@,
        "status"@ != "compliance_status"@,
        "status"@ != "insurance_info"@,
        "status"@ != "contract_start_date"@,
        "status"@ != "contract_end_date"@,
        "status"@ != "last_order_date"@,
        "status"@ != "total_orders"@,
        "status"@ != "total_spent"@,
        "status"@ != "average_rating"@,
        "status"@ != "performance_notes"@,
        "status"@ != "emergency_contact"@,
        "status"@ != "preferred_communication"@,
        "status"@ != "time_zone"@,
        "tier"@ != "compliance_status"@,
        "tier"@ != "insurance_info"@,
        "tier"@ != "contract_start_date"@,
        "tier"@ != "contract_end_date"@,
        "tier"@ != "last_order_date"@,
        "tier"@ != "total_orders"@,
        "tier"@ != "total_spent"@,
        "tier"@ != "average_rating"@,
        "tier"@ != "performance_notes"@,
        "tier"@ != "emergency_contact"@,
        "tier"@ != "preferred_communication"@,
        "tier"@ != "time_zone"@,
        "phone_number"@ != "compliance_status"@,
        "phone_number"@ != "insurance_info"@,
        "phone_number"@ != "contract_start_date"@,
        "phone_number"@ != "contract_end_date"@,
        "phone_number"@ != "last_order_date"@,
        "phone_number"@ != "total_orders"@,
        "phone_number"@ != "total_spent"@,
        "phone_number"@ != "average_rating"@,
        "phone_number"@ != "performance_notes"@,
        "phone_number"@ != "emergency_contact"@,
        "phone_number"@ != "preferred_communication"@,
        "phone_number"@ != "time_zone"@,
        "secondary_phone"@ != "compliance_status"@,
        "secondary_phone"@ != "insurance_info"@,
        "secondary_phone"@ != "contract_start_date"@,
        "secondary_phone"@ != "contract_end_date"@,
        "secondary_phone"@ != "last_order_date"@,
        "secondary_phone"@ != "total_orders"@,
        "secondary_phone"@ != "total_spent"@,
        "secondary_phone"@ != "average_rating"@,
        "secondary_phone"@ != "performance_notes"@,
        "secondary_phone"@ != "emergency_contact"@,
        "secondary_phone"@ != "preferred_communication"@,
        "secondary_phone"@ != "time_zone"@,
        "email_address"@ != "compliance_status"@,
        "email_address"@ != "insurance_info"@,
        "email_address"@ != "contract_start_date"@,
        "email_address"@ != "contract_end_date"@,
        "email_address"@ != "last_order_date"@,
        "email_address"@ != "total_orders"@,
        "email_address"@ != "total_spent"@,
        "email_address"@ != "average_rating"@,
        "email_address"@ != "performance_notes"@,
        "email_address"@ != "emergency_contact"@,
        "email_address"@ != "preferred_communication"@,
        "email_address"@ != "time_zone"@,
        "secondary_email"@ != "compliance_status"@,
        "secondary_email"@ != "insurance_info"@,
        "secondary_email"@ != "contract_start_date"@,
        "secondary_email"@ != "contract_end_date"@,
        "secondary_email"@ != "last_order_date"@,
        "secondary_email"@ != "total_orders"@,
        "secondary_email"@ != "total_spent"@,
        "secondary_email"@ != "average_rating"@,
        "secondary_email"@ != "performance_notes"@,
        "secondary_email"@ != "emergency_contact"@,
        "secondary_email"@ != "preferred_communication"@,
        "secondary_email"@ != "time_zone"@,
        "website"@ != "compliance_status"@,
        "website"@ != "insurance_info"@,
        "website"@ != "contract_start_date"@,
        "website"@ != "contract_end_date"@,
        "website"@ != "last_order_date"@,
        "website"@ != "total_orders"@,
        "website"@ != "total_spent"@,
        "website"@ != "average_rating"@,
        "website"@ != "performance_notes"@,
        "website"@ != "emergency_contact"@,
        "website"@ != "preferred_communication"@,
        "website"@ != "time_zone"@,
{
    broadcast use vstd::string::group_string_axioms;
    reveal_strlit("id");
    reveal_strlit("name");
    reveal_strlit("legal_name");
    reveal_strlit("vendor_code");
    reveal_strlit("vendor_category_id");
    reveal_strlit("status");
    reveal_strlit("tier");
    reveal_strlit("phone_number");
    reveal_strlit("secondary_phone");
    reveal_strlit("email_address");
    reveal_strlit("secondary_email");
    reveal_strlit("website");
    reveal_strlit("compliance_status");
    reveal_strlit("insurance_info");
    reveal_strlit("contract_start_date");
    reveal_strlit("contract_end_date");
    reveal_strlit("last_order_date");
    reveal_strlit("total_orders");
    reveal_strlit("total_spent");
    reveal_strlit("average_rating");
    reveal_strlit("performance_notes");
    reveal_strlit("emergency_contact");
    reveal_strlit("preferred_communication");
    reveal_strlit("time_zone");
    assert("id"@.len() == 2);
    assert("name"@.len() == 4);
    assert("legal_name"@.len() == 10);
    assert("vendor_code"@.len() == 11);
    assert("vendor_category_id"@.len() == 18);
    assert("status"@.len() == 6);
    assert("tier"@.len() == 4);
    assert("phone_number"@.len() == 12);
    assert("secondary_phone"@.len() == 15);
    assert("email_address"@.len() == 13);
    assert("secondary_email"@.len() == 15);
    assert("website"@.len() == 7);
    assert("compliance_status"@.len() == 17);
    assert("insurance_info"@.len() == 14);
    assert("contract_start_date"@.len() == 19);
    assert("contract_end_date"@.len() == 17);
    assert("last_order_date"@.len() == 15);
    assert("total_orders"@.len() == 12);
    assert("total_spent"@.len() == 11);
    assert("average_rating"@.len() == 14);
    assert("performance_notes"@.len() == 17);
    assert("emergency_contact"@.len() == 17);
    assert("preferred_communication"@.len() == 23);
    assert("time_zone"@.len() == 9);
    assert("vendor_code"@[0] != "total_spent"@[0]);
    assert("phone_number"@[0] != "total_orders"@[0]);
    assert("secondary_phone"@[0] != "last_order_date"@[0]);
    assert("secondary_email"@[0] != "last_order_date"@[0]);
}

proof fn lemma_keys_distinct_0_3()
    ensures
        "id"@ != "business_hours"@,
        "id"@ != "tags"@,
        "id"@ != "custom_fields"@,
        "id"@ != "attachments"@,
        "id"@ != "approval_required"@,
        "id"@ != "auto_approval_limit"@,
        "id"@ != "notes"@,
        "id"@ != "created_by"@,
        "id"@ != "created_at"@,
        "id"@ != "updated_at"@,
        "name"@ != "business_hours"@,
        "name"@ != "tags"@,
        "name"@ != "custom_fields"@,
        "name"@ != "attachments"@,
        "name"@ != "approval_required"@,
        "name"@ != "auto_approval_limit"@,
        "name"@ != "notes"@,
        "name"@ != "created_by"@,
        "name"@ != "created_at"@,
        "name"@ != "updated_at"@,
        "legal_name"@ != "business_hours"@,
        "legal_name"@ != "tags"@,
        "legal_name"@ != "custom_fields"@,
        "legal_name"@ != "attachments"@,
        "legal_name"@ != "approval_required"@,
        "legal_name"@ != "auto_approval_limit"@,
        "legal_name"@ != "notes"@,
        "legal_name"@ != "created_by"@,
        "legal_name"@ != "created_at"@,
        "legal_name"@ != "updated_at"@,
        "vendor_code"@ != "business_hours"@,
        "vendor_code"@ != "tags"@,
        "vendor_code"@ != "custom_fields"@,
        "vendor_code"@ != "attachments"@,
        "vendor_code"@ != "approval_required"@,
        "vendor_code"@ != "auto_approval_limit"@,
        "vendor_code"@ != "notes"@,
        "vendor_code"@ != "created_by"@,
        "vendor_code"@ != "created_at"@,
        "vendor_code"@ != "updated_at"@,
        "vendor_category_id"@ != "business_hours"@,
        "vendor_category_id"@ != "tags"@,
        "vendor_category_id"@ != "custom_fields"@,
        "vendor_category_id"@ != "attachments"@,
        "vendor_category_id"@ != "approval_required"@,
        "vendor_category_id"@ != "auto_approval_limit"@,
        "vendor_category_id"@ != "notes"@,
        "vendor_category_id"@ != "created_by"@,
        "vendor_category_id"@ != "created_at"@,
        "vendor_category_id"@ != "updated_at"@,
        "status"@ != "business_hours"@,
        "status"@ != "tags"@,
        "status"@ != "custom_fields"@,
        "status"@ != "attachments"@,
        "status"@ != "approval_required"@,
        "status"@ != "auto_approval_limit"@,
        "status"@ != "notes"@,
        "status"@ != "created_by"@,
        "status"@ != "created_at"@,
        "status"@ != "updated_at"@,
        "tier"@ != "business_hours"@,
        "tier"@ != "tags"@,
        "tier"@ != "custom_fields"@,
        "tier"@ != "attachments"@,
        "tier"@ != "approval_required"@,
        "tier"@ != "auto_approval_limit"@,
        "tier"@ != "notes"@,
        "tier"@ != "created_by"@,
        "tier"@ != "created_at"@,
        "tier"@ != "updated_at"@,
        "phone_number"@ != "business_hours"@,
        "phone_number"@ != "tags"@,
        "phone_number"@ != "custom_fields"@,
        "phone_number"@ != "attachments"@,
        "phone_number"@ != "approval_required"@,
        "phone_number"@ != "auto_approval_limit"@,
        "phone_number"@ != "notes"@,
        "phone_number"@ != "created_by"@,
        "phone_number"@ != "created_at"@,
        "phone_number"@ != "updated_at"@,
        "secondary_phone"@ != "business_hours"@,
        "secondary_phone"@ != "tags"@,
        "secondary_phone"@ != "custom_fields"@,
        "secondary_phone"@ != "attachments"@,
        "secondary_phone"@ != "approval_required"@,
        "secondary_phone"@ != "auto_approval_limit"@,
        "secondary_phone"@ != "notes"@,
        "secondary_phone"@ != "created_by"@,
        "secondary_phone"@ != "created_at"@,
        "secondary_phone"@ != "updated_at"@,
        "email_address"@ != "business_hours"@,
        "email_address"@ != "tags"@,
        "email_address"@ != "custom_fields"@,
        "email_address"@ != "attachments"@,
        "email_address"@ != "approval_required"@,
        "email_address"@ != "auto_approval_limit"@,
        "email_address"@ != "notes"@,
        "email_address"@ != "created_by"@,
        "email_address"@ != "created_at"@,
        "email_address"@ != "updated_at"@,
        "secondary_email"@ != "business_hours"@,
        "secondary_email"@ != "tags"@,
        "secondary_email"@ != "custom_fields"@,
        "secondary_email"@ != "attachments"@,
        "secondary_email"@ != "approval_required"@,
        "secondary_email"@ != "auto_approval_limit"@,
        "secondary_email"@ != "notes"@,
        "secondary_email"@ != "created_by"@,
        "secondary_email"@ != "created_at"@,
        "secondary_email"@ != "updated_at"@,
        "website"@ != "business_hours"@,
        "website"@ != "tags"@,
        "website"@ != "custom_fields"@,
        "website"@ != "attachments"@,
        "website"@ != "approval_required"@,
        "website"@ != "auto_approval_limit"@,
        "website"@ != "notes"@,
        "website"@ != "created_by"@,
        "website"@ != "created_at"@,
        "website"@ != "updated_at"@,
{
    broadcast use vstd::string::group_string_axioms;
    reveal_strlit("id");
    reveal_strlit("name");
    reveal_strlit("legal_name");
    reveal_strlit("vendor_code");
    reveal_strlit("vendor_category_id");
    reveal_strlit("status");
    reveal_strlit("tier");
    reveal_strlit("phone_number");
    reveal_strlit("secondary_phone");
    reveal_strlit("email_address");
    reveal_strlit("secondary_email");
    reveal_strlit("website");
    reveal_strlit("business_hours");
    reveal_strlit("tags");
    reveal_strlit("custom_fields");
    reveal_strlit("attachments");
    reveal_strlit("approval_required");
    reveal_strlit("auto_approval_limit");
    reveal_strlit("notes");
    reveal_strlit("created_by");
    reveal_strlit("created_at");
    reveal_strlit("updated_at");
    assert("id"@.len() == 2);
    assert("name"@.len() == 4);
    assert("legal_name"@.len() == 10);
    assert("vendor_code"@.len() == 11);
    assert("vendor_category_id"@.len() == 18);
    assert("status"@.len() == 6);
    assert("tier"@.len() == 4);
    assert("phone_number"@.len() == 12);
    assert("secondary_phone"@.len() == 15);
    assert("email_address"@.len() == 13);
    assert("secondary_email"@.len() == 15);
    assert("website"@.len() == 7);
    assert("business_hours"@.len() == 14);
    assert("tags"@.len() == 4);
    assert("custom_fields"@.len() == 13);
    assert("attachments"@.len() == 11);
    assert("approval_required"@.len() == 17);
    assert("auto_approval_limit"@.len() == 19);
    assert("notes"@.len() == 5);
    assert("created_by"@.len() == 10);
    assert("created_at"@.len() == 10);
    assert("updated_at"@.len() == 10);
    assert("name"@[0] != "tags"@[0]);
    assert("legal_name"@[0] != "created_by"@[0]);
    assert("legal_name"@[0] != "created_at"@[0]);
    assert("legal_name"@[0] != "updated_at"@[0]);
    assert("vendor_code"@[0] != "attachments"@[0]);
    assert("tier"@[1] != "tags"@[1]);
    assert("email_address"@[0] != "custom_fields"@[0]);
}

proof fn lemma_keys_distinct_1_1()
    ensures
        "tax_id"@ != "registration_number"@,
        "tax_id"@ != "payment_terms"@,
        "tax_id"@ != "currency"@,
        "tax_id"@ != "credit_limit"@,
        "tax_id"@ != "primary_contact_name"@,
        "tax_id"@ != "primary_contact_title"@,
        "tax_id"@ != "primary_contact_email"@,
        "tax_id"@ != "primary_contact_phone"@,
        "tax_id"@ != "billing_address"@,
        "tax_id"@ != "shipping_address"@,
        "tax_id"@ != "certifications"@,
        "registration_number"@ != "payment_terms"@,
        "registration_number"@ != "currency"@,
        "registration_number"@ != "credit_limit"@,
        "registration_number"@ != "primary_contact_name"@,
        "registration_number"@ != "primary_contact_title"@,
        "registration_number"@ != "primary_contact_email"@,
        "registration_number"@ != "primary_contact_phone"@,
        "registration_number"@ != "billing_address"@,
        "registration_number"@ != "shipping_address"@,
        "registration_number"@ != "certifications"@,
        "payment_terms"@ != "currency"@,
        "payment_terms"@ != "credit_limit"@,
        "payment_terms"@ != "primary_contact_name"@,
        "payment_terms"@ != "primary_contact_title"@,
        "payment_terms"@ != "primary_contact_email"@,
        "payment_terms"@ != "primary_contact_phone"@,
        "payment_terms"@ != "billing_address"@,
        "payment_terms"@ != "shipping_address"@,
        "payment_terms"@ != "certifications"@,
        "currency"@ != "credit_limit"@,
        "currency"@ != "primary_contact_name"@,
        "currency"@ != "primary_contact_title"@,
        "currency"@ != "primary_contact_email"@,
        "currency"@ != "primary_contact_phone"@,
        "currency"@ != "billing_address"@,
        "currency"@ != "shipping_address"@,
        "currency"@ != "certifications"@,
        "credit_limit"@ != "primary_contact_name"@,
        "credit_limit"@ != "primary_contact_title"@,
        "credit_limit"@ != "primary_contact_email"@,
        "credit_limit"@ != "primary_contact_phone"@,
        "credit_limit"@ != "billing_address"@,
        "credit_limit"@ != "shipping_address"@,
        "credit_limit"@ != "certifications"@,
        "primary_contact_name"@ != "primary_contact_title"@,
        "primary_contact_name"@ != "primary_contact_email"@,
        "primary_contact_name"@ != "primary_contact_phone"@,
        "primary_contact_name"@ != "billing_address"@,
        "primary_contact_name"@ != "shipping_address"@,
        "primary_contact_name"@ != "certifications"@,
        "primary_contact_title"@ != "primary_contact_email"@,
        "primary_contact_title"@ != "primary_contact_phone"@,
        "primary_contact_title"@ != "billing_address"@,
        "primary_contact_title"@ != "shipping_address"@,
        "primary_contact_title"@ != "certifications"@,
        "primary_contact_email"@ != "primary_contact_phone"@,
        "primary_contact_email"@ != "billing_address"@,
        "primary_contact_email"@ != "shipping_address"@,
        "primary_contact_email"@ != "certifications"@,
        "primary_contact_phone"@ != "billing_address"@,
        "primary_contact_phone"@ != "shipping_address"@,
        "primary_contact_phone"@ != "certifications"@,
        "billing_address"@ != "shipping_address"@,
        "billing_address"@ != "certifications"@,
        "shipping_address"@ != "certifications"@,
{
    broadcast use vstd::string::group_string_axioms;
    reveal_strlit("tax_id");
    reveal_strlit("registration_number");
    reveal_strlit("payment_terms");
    reveal_strlit("currency");
    reveal_strlit("credit_limit");
    reveal_strlit("primary_contact_name");
    reveal_strlit("primary_contact_title");
    reveal_strlit("primary_contact_email");
    reveal_strlit("primary_contact_phone");
    reveal_strlit("billing_address");
    reveal_strlit("shipping_address");
    reveal_strlit("certifications");
    assert("tax_id"@.len() == 6);
    assert("registration_number"@.len() == 19);
    assert("payment_terms"@.len() == 13);
    assert("currency"@.len() == 8);
    assert("credit_limit"@.len() == 12);
    assert("primary_contact_name"@.len() == 20);
    assert("primary_contact_title"@.len() == 21);
    assert("primary_contact_email"@.len() == 21);
    assert("primary_contact_phone"@.len() == 21);
    assert("billing_address"@.len() == 15);
    assert("shipping_address"@.len() == 16);
    assert("certifications"@.len() == 14);
    assert("primary_contact_title"@[16] != "primary_contact_email"@[16]);
    assert("primary_contact_title"@[16] != "primary_contact_phone"@[16]);
    assert("primary_contact_email"@[16] != "primary_contact_phone"@[16]);
}

proof fn lemma_keys_distinct_1_2()
    ensures
        "tax_id"@ != "compliance_status"@,
        "tax_id"@ != "insurance_info"@,
        "tax_id"@ != "contract_start_date"@,
        "tax_id"@ != "contract_end_date"@,
        "tax_id"@ != "last_order_date"@,
        "tax_id"@ != "total_orders"@,
        "tax_id"@ != "total_spent"@,
        "tax_id"@ != "average_rating"@,
        "tax_id"@ != "performance_notes"@,
        "tax_id"@ != "emergency_contact"@,
        "tax_id"@ != "preferred_communication"@,
        "tax_id"@ != "time_zone"@,
        "registration_number"@ != "compliance_status"@,
        "registration_number"@ != "insurance_info"@,
        "registration_number"@ != "contract_start_date"@,
        "registration_number"@ != "contract_end_date"@,
        "registration_number"@ != "last_order_date"@,
        "registration_number"@ != "total_orders"@,
        "registration_number"@ != "total_spent"@,
        "registration_number"@ != "average_rating"@,
        "registration_number"@ != "performance_notes"@,
        "registration_number"@ != "emergency_contact"@,
        "registration_number"@ != "preferred_communication"@,
        "registration_number"@ != "time_zone"@,
        "payment_terms"@ != "compliance_status"@,
        "payment_terms"@ != "insurance_info"@,
        "payment_terms"@ != "contract_start_date"@,
        "payment_terms"@ != "contract_end_date"@,
        "payment_terms"@ != "last_order_date"@,
        "payment_terms"@ != "total_orders"@,
        "payment_terms"@ != "total_spent"@,
        "payment_terms"@ != "average_rating"@,
        "payment_terms"@ != "performance_notes"@,
        "payment_terms"@ != "emergency_contact"@,
        "payment_terms"@ != "preferred_communication"@,
        "payment_terms"@ != "time_zone"@,
        "currency"@ != "compliance_status"@,
        "currency"@ != "insurance_info"@,
        "currency"@ != "contract_start_date"@,
        "currency"@ != "contract_end_date"@,
        "currency"@ != "last_order_date"@,
        "currency"@ != "total_orders"@,
        "currency"@ != "total_spent"@,
        "currency"@ != "average_rating"@,
        "currency"@ != "performance_notes"@,
        "currency"@ != "emergency_contact"@,
        "currency"@ != "preferred_communication"@,
        "currency"@ != "time_zone"@,
        "credit_limit"@ != "compliance_status"@,
        "credit_limit"@ != "insurance_info"@,
        "credit_limit"@ != "contract_start_date"@,
        "credit_limit"@ != "contract_end_date"@,
        "credit_limit"@ != "last_order_date"@,
        "credit_limit"@ != "total_orders"@,
        "credit_limit"@ != "total_spent"@,
        "credit_limit"@ != "average_rating"@,
        "credit_limit"@ != "performance_notes"@,
        "credit_limit"@ != "emergency_contact"@,
        "credit_limit"@ != "preferred_communication"@,
        "credit_limit"@ != "time_zone"@,
        "primary_contact_name"@ != "compliance_status"@,
        "primary_contact_name"@ != "insurance_info"@,
        "primary_contact_name"@ != "contract_start_date"@,
        "primary_contact_name"@ != "contract_end_date"@,
        "primary_contact_name"@ != "last_order_date"@,
        "primary_contact_name"@ != "total_orders"@,
        "primary_contact_name"@ != "total_spent"@,
        "primary_contact_name"@ != "average_rating"@,
        "primary_contact_name"@ != "performance_notes"@,
        "primary_contact_name"@ != "emergency_contact"@,
        "primary_contact_name"@ != "preferred_communication"@,
        "primary_contact_name"@ != "time_zone"@,
        "primary_contact_title"@ != "compliance_status"@,
        "primary_contact_title"@ != "insurance_info"@,
        "primary_contact_title"@ != "contract_start_date"@,
        "primary_contact_title"@ != "contract_end_date"@,
        "primary_contact_title"@ != "last_order_date"@,
        "primary_contact_title"@ != "total_orders"@,
        "primary_contact_title"@ != "total_spent"@,
        "primary_contact_title"@ != "average_rating"@,
        "primary_contact_title"@ != "performance_notes"@,
        "primary_contact_title"@ != "emergency_contact"@,
        "primary_contact_title"@ != "preferred_communication"@,
        "primary_contact_title"@ != "time_zone"@,
        "primary_contact_email"@ != "compliance_status"@,
        "primary_contact_email"@ != "insurance_info"@,
        "primary_contact_email"@ != "contract_start_date"@,
        "primary_contact_email"@ != "contract_end_date"@,
        "primary_contact_email"@ != "last_order_date"@,
        "primary_contact_email"@ != "total_orders"@,
        "primary_contact_email"@ != "total_spent"@,
        "primary_contact_email"@ != "average_rating"@,
        "primary_contact_email"@ != "performance_notes"@,
        "primary_contact_email"@ != "emergency_contact"@,
        "primary_contact_email"@ != "preferred_communication"@,
        "primary_contact_email"@ != "time_zone"@,
        "primary_contact_phone"@ != "compliance_status"@,
        "primary_contact_phone"@ != "insurance_info"@,
        "primary_contact_phone"@ != "contract_start_date"@,
        "primary_contact_phone"@ != "contract_end_date"@,
        "primary_contact_phone"@ != "last_order_date"@,
        "primary_contact_phone"@ != "total_orders"@,
        "primary_contact_phone"@ != "total_spent"@,
        "primary_contact_phone"@ != "average_rating"@,
        "primary_contact_phone"@ != "performance_notes"@,
        "primary_contact_phone"@ != "emergency_contact"@,
        "primary_contact_phone"@ != "preferred_communication"@,
        "primary_contact_phone"@ != "time_zone"@,
        "billing_address"@ != "compliance_status"@,
        "billing_address"@ != "insurance_info"@,
        "billing_address"@ != "contract_start_date"@,
        "billing_address"@ != "contract_end_date"@,
        "billing_address"@ != "last_order_date"@,
        "billing_address"@ != "total_orders"@,
        "billing_address"@ != "total_spent"@,
        "billing_address"@ != "average_rating"@,
        "billing_address"@ != "performance_notes"@,
        "billing_address"@ != "emergency_contact"@,
        "billing_address"@ != "preferred_communication"@,
        "billing_address"@ != "time_zone"@,
        "shipping_address"@ != "compliance_status"@,
        "shipping_address"@ != "insurance_info"@,
        "shipping_address"@ != "contract_start_date"@,
        "shipping_address"@ != "contract_end_date"@,
        "shipping_address"@ != "last_order_date"@,
        "shipping_address"@ != "total_orders"@,
        "shipping_address"@ != "total_spent"@,
        "shipping_address"@ != "average_rating"@,
        "shipping_address"@ != "performance_notes"@,
        "shipping_address"@ != "emergency_contact"@,
        "shipping_address"@ != "preferred_communication"@,
        "shipping_address"@ != "time_zone"@,
        "certifications"@ != "compliance_status"@,
        "certifications"@ != "insurance_info"@,
        "certifications"@ != "contract_start_date"@,
        "certifications"@ != "contract_end_date"@,
        "certifications"@ != "last_order_date"@,
        "certifications"@ != "total_orders"@,
        "certifications"@ != "total_spent"@,
        "certifications"@ != "average_rating"@,
        "certifications"@ != "performance_notes"@,
        "certifications"@ != "emergency_contact"@,
        "certifications"@ != "preferred_communication"@,
        "certifications"@ != "time_zone"@,
{
    broadcast use vstd::string::group_string_axioms;
    reveal_strlit("tax_id");
    reveal_strlit("registration_number");
    reveal_strlit("payment_terms");
    reveal_strlit("currency");
    reveal_strlit("credit_limit");
    reveal_strlit("primary_contact_name");
    reveal_strlit("primary_contact_title");
    reveal_strlit("primary_contact_email");
    reveal_strlit("primary_contact_phone");
    reveal_strlit("billing_address");
    reveal_strlit("shipping_address");
    reveal_strlit("certifications");
    reveal_strlit("compliance_status");
    reveal_strlit("insurance_info");
    reveal_strlit("contract_start_date");
    reveal_strlit("contract_end_date");
    reveal_strlit("last_order_date");
    reveal_strlit("total_orders");
    reveal_strlit("total_spent");
    reveal_strlit("average_rating");
    reveal_strlit("performance_notes");
    reveal_strlit("emergency_contact");
    reveal_strlit("preferred_communication");
    reveal_strlit("time_zone");
    assert("tax_id"@.len() == 6);
    assert("registration_number"@.len() == 19);
    assert("payment_terms"@.len() == 13);
    assert("currency"@.len() == 8);
    assert("credit_limit"@.len() == 12);
    assert("primary_contact_name"@.len() == 20);
    assert("primary_contact_title"@.len() == 21);
    assert("primary_contact_email"@.len() == 21);
    assert("primary_contact_phone"@.len() == 21);
    assert("billing_address"@.len() == 15);
    assert("shipping_address"@.len() == 16);
    assert("certifications"@.len() == 14);
    assert("compliance_status"@.len() == 17);
    assert("insurance_info"@.len() == 14);
    assert("contract_start_date"@.len() == 19);
    assert("contract_end_date"@.len() == 17);
    assert("last_order_date"@.len() == 15);
    assert("total_orders"@.len() == 12);
    assert("total_spent"@.len() == 11);
    assert("average_rating"@.len() == 14);
    assert("performance_notes"@.len() == 17);
    assert("emergency_contact"@.len() == 17);
    assert("preferred_communication"@.len() == 23);
    assert("time_zone"@.len() == 9);
    assert("registration_number"@[0] != "contract_start_date"@[0]);
    assert("credit_limit"@[0] != "total_orders"@[0]);
    assert("billing_address"@[0] != "last_order_date"@[0]);
    assert("certifications"@[0] != "insurance_info"@[0]);
    assert("certifications"@[0] != "average_rating"@[0]);
}

proof fn lemma_keys_distinct_1_3()
    ensures
        "tax_id"@ != "business_hours"@,
        "tax_id"@ != "tags"@,
        "tax_id"@ != "custom_fields"@,
        "tax_id"@ != "attachments"@,
        "tax_id"@ != "approval_required"@,
        "tax_id"@ != "auto_approval_limit"@,
        "tax_id"@ != "notes"@,
        "tax_id"@ != "created_by"@,
        "tax_id"@ != "created_at"@,
        "tax_id"@ != "updated_at"@,
        "registration_number"@ != "business_hours"@,
        "registration_number"@ != "tags"@,
        "registration_number"@ != "custom_fields"@,
        "registration_number"@ != "attachments"@,
        "registration_number"@ != "approval_required"@,
        "registration_number"@ != "auto_approval_limit"@,
        "registration_number"@ != "notes"@,
        "registration_number"@ != "created_by"@,
        "registration_number"@ != "created_at"@,
        "registration_number"@ != "updated_at"@,
        "payment_terms"@ != "business_hours"@,
        "payment_terms"@ != "tags"@,
        "payment_terms"@ != "custom_fields"@,
        "payment_terms"@ != "attachments"@,
        "payment_terms"@ != "approval_required"@,
        "payment_terms"@ != "auto_approval_limit"@,
        "payment_terms"@ != "notes"@,
        "payment_terms"@ != "created_by"@,
        "payment_terms"@ != "created_at"@,
        "payment_terms"@ != "updated_at"@,
        "currency"@ != "business_hours"@,
        "currency"@ != "tags"@,
        "currency"@ != "custom_fields"@,
        "currency"@ != "attachments"@,
        "currency"@ != "approval_required"@,
        "currency"@ != "auto_approval_limit"@,
        "currency"@ != "notes"@,
        "currency"@ != "created_by"@,
        "currency"@ != "created_at"@,
        "currency"@ != "updated_at"@,
        "credit_limit"@ != "business_hours"@,
        "credit_limit"@ != "tags"@,
        "credit_limit"@ != "custom_fields"@,
        "credit_limit"@ != "attachments"@,
        "credit_limit"@ != "approval_required"@,
        "credit_limit"@ != "auto_approval_limit"@,
        "credit_limit"@ != "notes"@,
        "credit_limit"@ != "created_by"@,
        "credit_limit"@ != "created_at"@,
        "credit_limit"@ != "updated_at"@,
        "primary_contact_name"@ != "business_hours"@,
        "primary_contact_name"@ != "tags"@,
        "primary_contact_name"@ != "custom_fields"@,
        "primary_contact_name"@ != "attachments"@,
        "primary_contact_name"@ != "approval_required"@,
        "primary_contact_name"@ != "auto_approval_limit"@,
        "primary_contact_name"@ != "notes"@,
        "primary_contact_name"@ != "created_by"@,
        "primary_contact_name"@ != "created_at"@,
        "primary_contact_name"@ != "updated_at"@,
        "primary_contact_title"@ != "business_hours"@,
        "primary_contact_title"@ != "tags"@,
        "primary_contact_title"@ != "custom_fields"@,
        "primary_contact_title"@ != "attachments"@,
        "primary_contact_title"@ != "approval_required"@,
        "primary_contact_title"@ != "auto_approval_limit"@,
        "primary_contact_title"@ != "notes"@,
        "primary_contact_title"@ != "created_by"@,
        "primary_contact_title"@ != "created_at"@,
        "primary_contact_title"@ != "updated_at"@,
        "primary_contact_email"@ != "business_hours"@,
        "primary_contact_email"@ != "tags"@,
        "primary_contact_email"@ != "custom_fields"@,
        "primary_contact_email"@ != "attachments"@,
        "primary_contact_email"@ != "approval_required"@,
        "primary_contact_email"@ != "auto_approval_limit"@,
        "primary_contact_email"@ != "notes"@,
        "primary_contact_email"@ != "created_by"@,
        "primary_contact_email"@ != "created_at"@,
        "primary_contact_email"@ != "updated_at"@,
        "primary_contact_phone"@ != "business_hours"@,
        "primary_contact_phone"@ != "tags"@,
        "primary_contact_phone"@ != "custom_fields"@,
        "primary_contact_phone"@ != "attachments"@,
        "primary_contact_phone"@ != "approval_required"@,
        "primary_contact_phone"@ != "auto_approval_limit"@,
        "primary_contact_phone"@ != "notes"@,
        "primary_contact_phone"@ != "created_by"@,
        "primary_contact_phone"@ != "created_at"@,
        "primary_contact_phone"@ != "updated_at"@,
        "billing_address"@ != "business_hours"@,
        "billing_address"@ != "tags"@,
        "billing_address"@ != "custom_fields"@,
        "billing_address"@ != "attachments"@,
        "billing_address"@ != "approval_required"@,
        "billing_address"@ != "auto_approval_limit"@,
        "billing_address"@ != "notes"@,
        "billing_address"@ != "created_by"@,
        "billing_address"@ != "created_at"@,
        "billing_address"@ != "updated_at"@,
        "shipping_address"@ != "business_hours"@,
        "shipping_address"@ != "tags"@,
        "shipping_address"@ != "custom_fields"@,
        "shipping_address"@ != "attachments"@,
        "shipping_address"@ != "approval_required"@,
        "shipping_address"@ != "auto_approval_limit"@,
        "shipping_address"@ != "notes"@,
        "shipping_address"@ != "created_by"@,
        "shipping_address"@ != "created_at"@,
        "shipping_address"@ != "updated_at"@,
        "certifications"@ != "business_hours"@,
        "certifications"@ != "tags"@,
        "certifications"@ != "custom_fields"@,
        "certifications"@ != "attachments"@,
        "certifications"@ != "approval_required"@,
        "certifications"@ != "auto_approval_limit"@,
        "certifications"@ != "notes"@,
        "certifications"@ != "created_by"@,
        "certifications"@ != "created_at"@,
        "certifications"@ != "updated_at"@,
{
    broadcast use vstd::string::group_string_axioms;
    reveal_strlit("tax_id");
    reveal_strlit("registration_number");
    reveal_strlit("payment_terms");
    reveal_strlit("currency");
    reveal_strlit("credit_limit");
    reveal_strlit("primary_contact_name");
    reveal_strlit("primary_contact_title");
    reveal_strlit("primary_contact_email");
    reveal_strlit("primary_contact_phone");
    reveal_strlit("billing_address");
    reveal_strlit("shipping_address");
    reveal_strlit("certifications");
    reveal_strlit("business_hours");
    reveal_strlit("tags");
    reveal_strlit("custom_fields");
    reveal_strlit("attachments");
    reveal_strlit("approval_required");
    reveal_strlit("auto_approval_limit");
    reveal_strlit("notes");
    reveal_strlit("created_by");
    reveal_strlit("created_at");
    reveal_strlit("updated_at");
    assert("tax_id"@.len() == 6);
    assert("registration_number"@.len() == 19);
    assert("payment_terms"@.len() == 13);
    assert("currency"@.len() == 8);
    assert("credit_limit"@.len() == 12);
    assert("primary_contact_name"@.len() == 20);
    assert("primary_contact_title"@.len() == 21);
    assert("primary_contact_email"@.len() == 21);
    assert("primary_contact_phone"@.len() == 21);
    assert("billing_address"@.len() == 15);
    assert("shipping_address"@.len() == 16);
    assert("certifications"@.len() == 14);
    assert("business_hours"@.len() == 14);
    assert("tags"@.len() == 4);
    assert("custom_fields"@.len() == 13);
    assert("attachments"@.len() == 11);
    assert("approval_required"@.len() == 17);
    assert("auto_approval_limit"@.len() == 19);
    assert("notes"@.len() == 5);
    assert("created_by"@.len() == 10);
    assert("created_at"@.len() == 10);
    assert("updated_at"@.len() == 10);
    assert("registration_number"@[0] != "auto_approval_limit"@[0]);
    assert("payment_terms"@[0] != "custom_fields"@[0]);
    assert("certifications"@[0] != "business_hours"@[0]);
}

proof fn lemma_keys_distinct_2_2()
    ensures
        "compliance_status"@ != "insurance_info"@,
        "compliance_status"@ != "contract_start_date"@,
        "compliance_status"@ != "contract_end_date"@,
        "compliance_status"@ != "last_order_date"@,
        "compliance_status"@ != "total_orders"@,
        "compliance_status"@ != "total_spent"@,
        "compliance_status"@ != "average_rating"@,
        "compliance_status"@ != "performance_notes"@,
        "compliance_status"@ != "emergency_contact"@,
        "compliance_status"@ != "preferred_communication"@,
        "compliance_status"@ != "time_zone"@,
        "insurance_info"@ != "contract_start_date"@,
        "insurance_info"@ != "contract_end_date"@,
        "insurance_info"@ != "last_order_date"@,
        "insurance_info"@ != "total_orders"@,
        "insurance_info"@ != "total_spent"@,
        "insurance_info"@ != "average_rating"@,
        "insurance_info"@ != "performance_notes"@,
        "insurance_info"@ != "emergency_contact"@,
        "insurance_info"@ != "preferred_communication"@,
        "insurance_info"@ != "time_zone"@,
        "contract_start_date"@ != "contract_end_date"@,
        "contract_start_date"@ != "last_order_date"@,
        "contract_start_date"@ != "total_orders"@,
        "contract_start_date"@ != "total_spent"@,
        "contract_start_date"@ != "average_rating"@,
        "contract_start_date"@ != "performance_notes"@,
        "contract_start_date"@ != "emergency_contact"@,
        "contract_start_date"@ != "preferred_communication"@,
        "contract_start_date"@ != "time_zone"@,
        "contract_end_date"@ != "last_order_date"@,
        "contract_end_date"@ != "total_orders"@,
        "contract_end_date"@ != "total_spent"@,
        "contract_end_date"@ != "average_rating"@,
        "contract_end_date"@ != "performance_notes"@,
        "contract_end_date"@ != "emergency_contact"@,
        "contract_end_date"@ != "preferred_communication"@,
        "contract_end_date"@ != "time_zone"@,
        "last_order_date"@ != "total_orders"@,
        "last_order_date"@ != "total_spent"@,
        "last_order_date"@ != "average_rating"@,
        "last_order_date"@ != "performance_notes"@,
        "last_order_date"@ != "emergency_contact"@,
        "last_order_date"@ != "preferred_communication"@,
        "last_order_date"@ != "time_zone"@,
        "total_orders"@ != "total_spent"@,
        "total_orders"@ != "average_rating"@,
        "total_orders"@ != "performance_notes"@,
        "total_orders"@ != "emergency_contact"@,
        "total_orders"@ != "preferred_communication"@,
        "total_orders"@ != "time_zone"@,
        "total_spent"@ != "average_rating"@,
        "total_spent"@ != "performance_notes"@,
        "total_spent"@ != "emergency_contact"@,
        "total_spent"@ != "preferred_communication"@,
        "total_spent"@ != "time_zone"@,
        "average_rating"@ != "performance_notes"@,
        "average_rating"@ != "emergency_contact"@,
        "average_rating"@ != "preferred_communication"@,
        "average_rating"@ != "time_zone"@,
        "performance_notes"@ != "emergency_contact"@,
        "performance_notes"@ != "preferred_communication"@,
        "performance_notes"@ != "time_zone"@,
        "emergency_contact"@ != "preferred_communication"@,
        "emergency_contact"@ != "time_zone"@,
        "preferred_communication"@ != "time_zone"@,
{
    broadcast use vstd::string::group_string_axioms;
    reveal_strlit("compliance_status");
    reveal_strlit("insurance_info");
    reveal_strlit("contract_start_date");
    reveal_strlit("contract_end_date");
    reveal_strlit("last_order_date");
    reveal_strlit("total_orders");
    reveal_strlit("total_spent");
    reveal_strlit("average_rating");
    reveal_strlit("performance_notes");
    reveal_strlit("emergency_contact");
    reveal_strlit("preferred_communication");
    reveal_strlit("time_zone");
    assert("compliance_status"@.len() == 17);
    assert("insurance_info"@.len() == 14);
    assert("contract_start_date"@.len() == 19);
    assert("contract_end_date"@.len() == 17);
    assert("last_order_date"@.len() == 15);
    assert("total_orders"@.len() == 12);
    assert("total_spent"@.len() == 11);
    assert("average_rating"@.len() == 14);
    assert("performance_notes"@.len() == 17);
    assert("emergency_contact"@.len() == 17);
    assert("preferred_communication"@.len() == 23);
    assert("time_zone"@.len() == 9);
    assert("compliance_status"@[2] != "contract_end_date"@[2]);
    assert("compliance_status"@[0] != "performance_notes"@[0]);
    assert("compliance_status"@[0] != "emergency_contact"@[0]);
    assert("insurance_info"@[0] != "average_rating"@[0]);
    assert("contract_end_date"@[0] != "performance_notes"@[0]);
    assert("contract_end_date"@[0] != "emergency_contact"@[0]);
    assert("performance_notes"@[0] != "emergency_contact"@[0]);
}

proof fn lemma_keys_distinct_2_3()
    ensures
        "compliance_status"@ != "business_hours"@,
        "compliance_status"@ != "tags"@,
        "compliance_status"@ != "custom_fields"@,
        "compliance_status"@ != "attachments"@,
        "compliance_status"@ != "approval_required"@,
        "compliance_status"@ != "auto_approval_limit"@,
        "compliance_status"@ != "notes"@,
        "compliance_status"@ != "created_by"@,
        "compliance_status"@ != "created_at"@,
        "compliance_status"@ != "updated_at"@,
        "insurance_info"@ != "business_hours"@,
        "insurance_info"@ != "tags"@,
        "insurance_info"@ != "custom_fields"@,
        "insurance_info"@ != "attachments"@,
        "insurance_info"@ != "approval_required"@,
        "insurance_info"@ != "auto_approval_limit"@,
        "insurance_info"@ != "notes"@,
        "insurance_info"@ != "created_by"@,
        "insurance_info"@ != "created_at"@,
        "insurance_info"@ != "updated_at"@,
        "contract_start_date"@ != "business_hours"@,
        "contract_start_date"@ != "tags"@,
        "contract_start_date"@ != "custom_fields"@,
        "contract_start_date"@ != "attachments"@,
        "contract_start_date"@ != "approval_required"@,
        "contract_start_date"@ != "auto_approval_limit"@,
        "contract_start_date"@ != "notes"@,
        "contract_start_date"@ != "created_by"@,
        "contract_start_date"@ != "created_at"@,
        "contract_start_date"@ != "updated_at"@,
        "contract_end_date"@ != "business_hours"@,
        "contract_end_date"@ != "tags"@,
        "contract_end_date"@ != "custom_fields"@,
        "contract_end_date"@ != "attachments"@,
        "contract_end_date"@ != "approval_required"@,
        "contract_end_date"@ != "auto_approval_limit"@,
        "contract_end_date"@ != "notes"@,
        "contract_end_date"@ != "created_by"@,
        "contract_end_date"@ != "created_at"@,
        "contract_end_date"@ != "updated_at"@,
        "last_order_date"@ != "business_hours"@,
        "last_order_date"@ != "tags"@,
        "last_order_date"@ != "custom_fields"@,
        "last_order_date"@ != "attachments"@,
        "last_order_date"@ != "approval_required"@,
        "last_order_date"@ != "auto_approval_limit"@,
        "last_order_date"@ != "notes"@,
        "last_order_date"@ != "created_by"@,
        "last_order_date"@ != "created_at"@,
        "last_order_date"@ != "updated_at"@,
        "total_orders"@ != "business_hours"@,
        "total_orders"@ != "tags"@,
        "total_orders"@ != "custom_fields"@,
        "total_orders"@ != "attachments"@,
        "total_orders"@ != "approval_required"@,
        "total_orders"@ != "auto_approval_limit"@,
        "total_orders"@ != "notes"@,
        "total_orders"@ != "created_by"@,
        "total_orders"@ != "created_at"@,
        "total_orders"@ != "updated_at"@,
        "total_spent"@ != "business_hours"@,
        "total_spent"@ != "tags"@,
        "total_spent"@ != "custom_fields"@,
        "total_spent"@ != "attachments"@,
        "total_spent"@ != "approval_required"@,
        "total_spent"@ != "auto_approval_limit"@,
        "total_spent"@ != "notes"@,
        "total_spent"@ != "created_by"@,
        "total_spent"@ != "created_at"@,
        "total_spent"@ != "updated_at"@,
        "average_rating"@ != "business_hours"@,
        "average_rating"@ != "tags"@,
        "average_rating"@ != "custom_fields"@,
        "average_rating"@ != "attachments"@,
        "average_rating"@ != "approval_required"@,
        "average_rating"@ != "auto_approval_limit"@,
        "average_rating"@ != "notes"@,
        "average_rating"@ != "created_by"@,
        "average_rating"@ != "created_at"@,
        "average_rating"@ != "updated_at"@,
        "performance_notes"@ != "business_hours"@,
        "performance_notes"@ != "tags"@,
        "performance_notes"@ != "custom_fields"@,
        "performance_notes"@ != "attachments"@,
        "performance_notes"@ != "approval_required"@,
        "performance_notes"@ != "auto_approval_limit"@,
        "performance_notes"@ != "notes"@,
        "performance_notes"@ != "created_by"@,
        "performance_notes"@ != "created_at"@,
        "performance_notes"@ != "updated_at"@,
        "emergency_contact"@ != "business_hours"@,
        "emergency_contact"@ != "tags"@,
        "emergency_contact"@ != "custom_fields"@,
        "emergency_contact"@ != "attachments"@,
        "emergency_contact"@ != "approval_required"@,
        "emergency_contact"@ != "auto_approval_limit"@,
        "emergency_contact"@ != "notes"@,
        "emergency_contact"@ != "created_by"@,
        "emergency_contact"@ != "created_at"@,
        "emergency_contact"@ != "updated_at"@,
        "preferred_communication"@ != "business_hours"@,
        "preferred_communication"@ != "tags"@,
        "preferred_communication"@ != "custom_fields"@,
        "preferred_communication"@ != "attachments"@,
        "preferred_communication"@ != "approval_required"@,
        "preferred_communication"@ != "auto_approval_limit"@,
        "preferred_communication"@ != "notes"@,
        "preferred_communication"@ != "created_by"@,
        "preferred_communication"@ != "created_at"@,
        "preferred_communication"@ != "updated_at"@,
        "time_zone"@ != "business_hours"@,
        "time_zone"@ != "tags"@,
        "time_zone"@ != "custom_fields"@,
        "time_zone"@ != "attachments"@,
        "time_zone"@ != "approval_required"@,
        "time_zone"@ != "auto_approval_limit"@,
        "time_zone"@ != "notes"@,
        "time_zone"@ != "created_by"@,
        "time_zone"@ != "created_at"@,
        "time_zone"@ != "updated_at"@,
{
    broadcast use vstd::string::group_string_axioms;
    reveal_strlit("compliance_status");
    reveal_strlit("insurance_info");
    reveal_strlit("contract_start_date");
    reveal_strlit("contract_end_date");
    reveal_strlit("last_order_date");
    reveal_strlit("total_orders");
    reveal_strlit("total_spent");
    reveal_strlit("average_rating");
    reveal_strlit("performance_notes");
    reveal_strlit("emergency_contact");
    reveal_strlit("preferred_communication");
    reveal_strlit("time_zone");
    reveal_strlit("business_hours");
    reveal_strlit("tags");
    reveal_strlit("custom_fields");
    reveal_strlit("attachments");
    reveal_strlit("approval_required");
    reveal_strlit("auto_approval_limit");
    reveal_strlit("notes");
    reveal_strlit("created_by");
    reveal_strlit("created_at");
    reveal_strlit("updated_at");
    assert("compliance_status"@.len() == 17);
    assert("insurance_info"@.len() == 14);
    assert("contract_start_date"@.len() == 19);
    assert("contract_end_date"@.len() == 17);
    assert("last_order_date"@.len() == 15);
    assert("total_orders"@.len() == 12);
    assert("total_spent"@.len() == 11);
    assert("average_rating"@.len() == 14);
    assert("performance_notes"@.len() == 17);
    assert("emergency_contact"@.len() == 17);
    assert("preferred_communication"@.len() == 23);
    assert("time_zone"@.len() == 9);
    assert("business_hours"@.len() == 14);
    assert("tags"@.len() == 4);
    assert("custom_fields"@.len() == 13);
    assert("attachments"@.len() == 11);
    assert("approval_required"@.len() == 17);
    assert("auto_approval_limit"@.len() == 19);
    assert("notes"@.len() == 5);
    assert("created_by"@.len() == 10);
    assert("created_at"@.len() == 10);
    assert("updated_at"@.len() == 10);
    assert("compliance_status"@[0] != "approval_required"@[0]);
    assert("insurance_info"@[0] != "business_hours"@[0]);
    assert("contract_start_date"@[0] != "auto_approval_limit"@[0]);
    assert("contract_end_date"@[0] != "approval_required"@[0]);
    assert("total_spent"@[0] != "attachments"@[0]);
    assert("average_rating"@[0] != "business_hours"@[0]);
    assert("performance_notes"@[0] != "approval_required"@[0]);
    assert("emergency_contact"@[0] != "approval_required"@[0]);
}

proof fn lemma_keys_distinct_3_3()
    ensures
        "business_hours"@ != "tags"@,
        "business_hours"@ != "custom_fields"@,
        "business_hours"@ != "attachments"@,
        "business_hours"@ != "approval_required"@,
        "business_hours"@ != "auto_approval_limit"@,
        "business_hours"@ != "notes"@,
        "business_hours"@ != "created_by"@,
        "business_hours"@ != "created_at"@,
        "business_hours"@ != "updated_at"@,
        "tags"@ != "custom_fields"@,
        "tags"@ != "attachments"@,
        "tags"@ != "approval_required"@,
        "tags"@ != "auto_approval_limit"@,
        "tags"@ != "notes"@,
        "tags"@ != "created_by"@,
        "tags"@ != "created_at"@,
        "tags"@ != "updated_at"@,
        "custom_fields"@ != "attachments"@,
        "custom_fields"@ != "approval_required"@,
        "custom_fields"@ != "auto_approval_limit"@,
        "custom_fields"@ != "notes"@,
        "custom_fields"@ != "created_by"@,
        "custom_fields"@ != "created_at"@,
        "custom_fields"@ != "updated_at"@,
        "attachments"@ != "approval_required"@,
        "attachments"@ != "auto_approval_limit"@,
        "attachments"@ != "notes"@,
        "attachments"@ != "created_by"@,
        "attachments"@ != "created_at"@,
        "attachments"@ != "updated_at"@,
        "approval_required"@ != "auto_approval_limit"@,
        "approval_required"@ != "notes"@,
        "approval_required"@ != "created_by"@,
        "approval_required"@ != "created_at"@,
        "approval_required"@ != "updated_at"@,
        "auto_approval_limit"@ != "notes"@,
        "auto_approval_limit"@ != "created_by"@,
        "auto_approval_limit"@ != "created_at"@,
        "auto_approval_limit"@ != "updated_at"@,
        "notes"@ != "created_by"@,
        "notes"@ != "created_at"@,
        "notes"@ != "updated_at"@,
        "created_by"@ != "created_at"@,
        "created_by"@ != "updated_at"@,
        "created_at"@ != "updated_at"@,
{
    broadcast use vstd::string::group_string_axioms;
    reveal_strlit("business_hours");
    reveal_strlit("tags");
    reveal_strlit("custom_fields");
    reveal_strlit("attachments");
    reveal_strlit("approval_required");
    reveal_strlit("auto_approval_limit");
    reveal_strlit("notes");
    reveal_strlit("created_by");
    reveal_strlit("created_at");
    reveal_strlit("updated_at");
    assert("business_hours"@.len() == 14);
    assert("tags"@.len() == 4);
    assert("custom_fields"@.len() == 13);
    assert("attachments"@.len() == 11);
    assert("approval_required"@.len() == 17);
    assert("auto_approval_limit"@.len() == 19);
    assert("notes"@.len() == 5);
    assert("created_by"@.len() == 10);
    assert("created_at"@.len() == 10);
    assert("updated_at"@.len() == 10);
    assert("created_by"@[8] != "created_at"@[8]);
    assert("created_by"@[0] != "updated_at"@[0]);
    assert("created_at"@[0] != "updated_at"@[0]);
}

proof fn lemma_table_keys_absent()
    ensures
        "category_id"@ != "approval_required"@,
        "category_id"@ != "attachments"@,
        "category_id"@ != "billing_address"@,
        "category_id"@ != "business_hours"@,
        "category_id"@ != "certifications"@,
        "category_id"@ != "compliance_status"@,
        "category_id"@ != "contract_end_date"@,
        "category_id"@ != "contract_start_date"@,
        "category_id"@ != "created_at"@,
        "category_id"@ != "created_by"@,
        "category_id"@ != "currency"@,
        "category_id"@ != "custom_fields"@,
        "category_id"@ != "email_address"@,
        "category_id"@ != "emergency_contact"@,
        "category_id"@ != "id"@,
        "category_id"@ != "insurance_info"@,
        "category_id"@ != "last_order_date"@,
        "category_id"@ != "legal_name"@,
        "category_id"@ != "name"@,
        "category_id"@ != "notes"@,
        "category_id"@ != "payment_terms"@,
        "category_id"@ != "performance_notes"@,
        "category_id"@ != "phone_number"@,
        "category_id"@ != "preferred_communication"@,
        "category_id"@ != "primary_contact_email"@,
        "category_id"@ != "primary_contact_name"@,
        "category_id"@ != "primary_contact_phone"@,
        "category_id"@ != "primary_contact_title"@,
        "category_id"@ != "registration_number"@,
        "category_id"@ != "secondary_email"@,
        "category_id"@ != "secondary_phone"@,
        "category_id"@ != "shipping_address"@,
        "category_id"@ != "status"@,
        "category_id"@ != "tags"@,
        "category_id"@ != "tax_id"@,
        "category_id"@ != "tier"@,
        "category_id"@ != "time_zone"@,
        "category_id"@ != "total_orders"@,
        "category_id"@ != "updated_at"@,
        "category_id"@ != "vendor_category_id"@,
        "category_id"@ != "vendor_code"@,
        "category_id"@ != "website"@,
        "rating"@ != "approval_required"@,
        "rating"@ != "attachments"@,
        "rating"@ != "billing_address"@,
        "rating"@ != "business_hours"@,
        "rating"@ != "certifications"@,
        "rating"@ != "compliance_status"@,
        "rating"@ != "contract_end_date"@,
        "rating"@ != "contract_start_date"@,
        "rating"@ != "created_at"@,
        "rating"@ != "created_by"@,
        "rating"@ != "currency"@,
        "rating"@ != "custom_fields"@,
        "rating"@ != "email_address"@,
        "rating"@ != "emergency_contact"@,
        "rating"@ != "id"@,
        "rating"@ != "insurance_info"@,
        "rating"@ != "last_order_date"@,
        "rating"@ != "legal_name"@,
        "rating"@ != "name"@,
        "rating"@ != "notes"@,
        "rating"@ != "payment_terms"@,
        "rating"@ != "performance_notes"@,
        "rating"@ != "phone_number"@,
        "rating"@ != "preferred_communication"@,
        "rating"@ != "primary_contact_email"@,
        "rating"@ != "primary_contact_name"@,
        "rating"@ != "primary_contact_phone"@,
        "rating"@ != "primary_contact_title"@,
        "rating"@ != "registration_number"@,
        "rating"@ != "secondary_email"@,
        "rating"@ != "secondary_phone"@,
        "rating"@ != "shipping_address"@,
        "rating"@ != "status"@,
        "rating"@ != "tags"@,
        "rating"@ != "tax_id"@,
        "rating"@ != "tier"@,
        "rating"@ != "time_zone"@,
        "rating"@ != "total_orders"@,
        "rating"@ != "updated_at"@,
        "rating"@ != "vendor_category_id"@,
        "rating"@ != "vendor_code"@,
        "rating"@ != "website"@,
{
    broadcast use vstd::string::group_string_axioms;
    reveal_strlit("category_id");
    reveal_strlit("rating");
    reveal_strlit("approval_required");
    reveal_strlit("attachments");
    reveal_strlit("billing_address");
    reveal_strlit("business_hours");
    reveal_strlit("certifications");
    reveal_strlit("compliance_status");
    reveal_strlit("contract_end_date");
    reveal_strlit("contract_start_date");
    reveal_strlit("created_at");
    reveal_strlit("created_by");
    reveal_strlit("currency");
    reveal_strlit("custom_fields");
    reveal_strlit("email_address");
    reveal_strlit("emergency_contact");
    reveal_strlit("id");
    reveal_strlit("insurance_info");
    reveal_strlit("last_order_date");
    reveal_strlit("legal_name");
    reveal_strlit("name");
    reveal_strlit("notes");
    reveal_strlit("payment_terms");
    reveal_strlit("performance_notes");
    reveal_strlit("phone_number");
    reveal_strlit("preferred_communication");
    reveal_strlit("primary_contact_email");
    reveal_strlit("primary_contact_name");
    reveal_strlit("primary_contact_phone");
    reveal_strlit("primary_contact_title");
    reveal_strlit("registration_number");
    reveal_strlit("secondary_email");
    reveal_strlit("secondary_phone");
    reveal_strlit("shipping_address");
    reveal_strlit("status");
    reveal_strlit("tags");
    reveal_strlit("tax_id");
    reveal_strlit("tier");
    reveal_strlit("time_zone");
    reveal_strlit("total_orders");
    reveal_strlit("updated_at");
    reveal_strlit("vendor_category_id");
    reveal_strlit("vendor_code");
    reveal_strlit("website");
    assert("category_id"@.len() == 11);
    assert("rating"@.len() == 6);
    assert("approval_required"@.len() == 17);
    assert("attachments"@.len() == 11);
    assert("billing_address"@.len() == 15);
    assert("business_hours"@.len() == 14);
    assert("certifications"@.len() == 14);
    assert("compliance_status"@.len() == 17);
    assert("contract_end_date"@.len() == 17);
    assert("contract_start_date"@.len() == 19);
    assert("created_at"@.len() == 10);
    assert("created_by"@.len() == 10);
    assert("currency"@.len() == 8);
    assert("custom_fields"@.len() == 13);
    assert("email_address"@.len() == 13);
    assert("emergency_contact"@.len() == 17);
    assert("id"@.len() == 2);
    assert("insurance_info"@.len() == 14);
    assert("last_order_date"@.len() == 15);
    assert("legal_name"@.len() == 10);
    assert("name"@.len() == 4);
    assert("notes"@.len() == 5);
    assert("payment_terms"@.len() == 13);
    assert("performance_notes"@.len() == 17);
    assert("phone_number"@.len() == 12);
    assert("preferred_communication"@.len() == 23);
    assert("primary_contact_email"@.len() == 21);
    assert("primary_contact_name"@.len() == 20);
    assert("primary_contact_phone"@.len() == 21);
    assert("primary_contact_title"@.len() == 21);
    assert("registration_number"@.len() == 19);
    assert("secondary_email"@.len() == 15);
    assert("secondary_phone"@.len() == 15);
    assert("shipping_address"@.len() == 16);
    assert("status"@.len() == 6);
    assert("tags"@.len() == 4);
    assert("tax_id"@.len() == 6);
    assert("tier"@.len() == 4);
    assert("time_zone"@.len() == 9);
    assert("total_orders"@.len() == 12);
    assert("updated_at"@.len() == 10);
    assert("vendor_category_id"@.len() == 18);
    assert("vendor_code"@.len() == 11);
    assert("website"@.len() == 7);
    assert("category_id"@.len() != "approval_required"@.len());
    assert("category_id"@[0] != "attachments"@[0]);
    assert("category_id"@.len() != "billing_address"@.len());
    assert("category_id"@.len() != "business_hours"@.len());
    assert("category_id"@.len() != "certifications"@.len());
    assert("category_id"@.len() != "compliance_status"@.len());
    assert("category_id"@.len() != "contract_end_date"@.len());
    assert("category_id"@.len() != "contract_start_date"@.len());
    assert("category_id"@.len() != "created_at"@.len());
    assert("category_id"@.len() != "created_by"@.len());
    assert("category_id"@.len() != "currency"@.len());
    assert("category_id"@.len() != "custom_fields"@.len());
    assert("category_id"@.len() != "email_address"@.len());
    assert("category_id"@.len() != "emergency_contact"@.len());
    assert("category_id"@.len() != "id"@.len());
    assert("category_id"@.len() != "insurance_info"@.len());
    assert("category_id"@.len() != "last_order_date"@.len());
    assert("category_id"@.len() != "legal_name"@.len());
    assert("category_id"@.len() != "name"@.len());
    assert("category_id"@.len() != "notes"@.len());
    assert("category_id"@.len() != "payment_terms"@.len());
    assert("category_id"@.len() != "performance_notes"@.len());
    assert("category_id"@.len() != "phone_number"@.len());
    assert("category_id"@.len() != "preferred_communication"@.len());
    assert("category_id"@.len() != "primary_contact_email"@.len());
    assert("category_id"@.len() != "primary_contact_name"@.len());
    assert("category_id"@.len() != "primary_contact_phone"@.len());
    assert("category_id"@.len() != "primary_contact_title"@.len());
    assert("category_id"@.len() != "registration_number"@.len());
    assert("category_id"@.len() != "secondary_email"@.len());
    assert("category_id"@.len() != "secondary_phone"@.len());
    assert("category_id"@.len() != "shipping_address"@.len());
    assert("category_id"@.len() != "status"@.len());
    assert("category_id"@.len() != "tags"@.len());
    assert("category_id"@.len() != "tax_id"@.len());
    assert("category_id"@.len() != "tier"@.len());
    assert("category_id"@.len() != "time_zone"@.len());
    assert("category_id"@.len() != "total_orders"@.len());
    assert("category_id"@.len() != "updated_at"@.len());
    assert("category_id"@.len() != "vendor_category_id"@.len());
    assert("category_id"@[0] != "vendor_code"@[0]);
    assert("category_id"@.len() != "website"@.len());
    assert("rating"@.len() != "approval_required"@.len());
    assert("rating"@.len() != "attachments"@.len());
    assert("rating"@.len() != "billing_address"@.len());
    assert("rating"@.len() != "business_hours"@.len());
    assert("rating"@.len() != "certifications"@.len());
    assert("rating"@.len() != "compliance_status"@.len());
    assert("rating"@.len() != "contract_end_date"@.len());
    assert("rating"@.len() != "contract_start_date"@.len());
    assert("rating"@.len() != "created_at"@.len());
    assert("rating"@.len() != "created_by"@.len());
    assert("rating"@.len() != "currency"@.len());
    assert("rating"@.len() != "custom_fields"@.len());
    assert("rating"@.len() != "email_address"@.len());
    assert("rating"@.len() != "emergency_contact"@.len());
    assert("rating"@.len() != "id"@.len());
    assert("rating"@.len() != "insurance_info"@.len());
    assert("rating"@.len() != "last_order_date"@.len());
    assert("rating"@.len() != "legal_name"@.len());
    assert("rating"@.len() != "name"@.len());
    assert("rating"@.len() != "notes"@.len());
    assert("rating"@.len() != "payment_terms"@.len());
    assert("rating"@.len() != "performance_notes"@.len());
    assert("rating"@.len() != "phone_number"@.len());
    assert("rating"@.len() != "preferred_communication"@.len());
    assert("rating"@.len() != "primary_contact_email"@.len());
    assert("rating"@.len() != "primary_contact_name"@.len());
    assert("rating"@.len() != "primary_contact_phone"@.len());
    assert("rating"@.len() != "primary_contact_title"@.len());
    assert("rating"@.len() != "registration_number"@.len());
    assert("rating"@.len() != "secondary_email"@.len());
    assert("rating"@.len() != "secondary_phone"@.len());
    assert("rating"@.len() != "shipping_address"@.len());
    assert("rating"@[0] != "status"@[0]);
    assert("rating"@.len() != "tags"@.len());
    assert("rating"@[0] != "tax_id"@[0]);
    assert("rating"@.len() != "tier"@.len());
    assert("rating"@.len() != "time_zone"@.len());
    assert("rating"@.len() != "total_orders"@.len());
    assert("rating"@.len() != "updated_at"@.len());
    assert("rating"@.len() != "vendor_category_id"@.len());
    assert("rating"@.len() != "vendor_code"@.len());
    assert("rating"@.len() != "website"@.len());
}

} // verus!
