//! Users, their accounts, logins and lockouts.
use vstd::prelude::*;

use crate::error::{is_validation_error, AppError};
use crate::fields::{
    i32_or, opt_view, read_i32_or, read_s, read_timestamp, read_timestamp_or, timestamp_at,
    timestamp_or, write_i32, write_timestamp,
};
use crate::item::{lookup, push_if, s_at, AttrView, Item, ItemView};
use crate::numeric::{lemma_parse_format_i32, spec_format_i32};
use crate::text::{contains_char, is_blank, is_blank_spec, str_eq};
use crate::time::{chrono_format_datetime, chrono_parse_datetime, now, some_valid, Timestamp};

use crate::json::{canonical_json, json_canonical, json_or_empty_object, read_json_or_empty_object};
use crate::text::join_text;

verus! {

/// Where a user's account stands.
#[derive(Clone, Copy, Debug, PartialEq, Eq, Structural, Hash)]
pub enum UserStatus {
    Active,
    Inactive,
    Suspended,
    Pending,
    Locked,
    Terminated,
}

impl UserStatus {
    /// The text that stands for the variant in items and requests.
    pub open spec fn spec_str(self) -> Seq<char> {
        match self {
            UserStatus::Active => "active"@,
            UserStatus::Inactive => "inactive"@,
            UserStatus::Suspended => "suspended"@,
            UserStatus::Pending => "pending"@,
            UserStatus::Locked => "locked"@,
            UserStatus::Terminated => "terminated"@,
        }
    }

    /// The variant that a text stands for, if any.
    pub open spec fn spec_parse(s: Seq<char>) -> Option<UserStatus> {
        if s == "active"@ {
            Some(UserStatus::Active)
        } else if s == "inactive"@ {
            Some(UserStatus::Inactive)
        } else if s == "suspended"@ {
            Some(UserStatus::Suspended)
        } else if s == "pending"@ {
            Some(UserStatus::Pending)
        } else if s == "locked"@ {
            Some(UserStatus::Locked)
        } else if s == "terminated"@ {
            Some(UserStatus::Terminated)
        } else {
            None
        }
    }

    pub fn to_str(&self) -> (res: &'static str)
        ensures
            res@ == self.spec_str(),
    {
        match self {
            UserStatus::Active => "active",
            UserStatus::Inactive => "inactive",
            UserStatus::Suspended => "suspended",
            UserStatus::Pending => "pending",
            UserStatus::Locked => "locked",
            UserStatus::Terminated => "terminated",
        }
    }

    pub fn to_string(&self) -> (res: String)
        ensures
            res@ == self.spec_str(),
    {
        self.to_str().to_owned()
    }

    /// Reads a variant from its text; any other text is refused with a `ValidationError`.
    pub fn from_string(s: &str) -> (res: Result<UserStatus, AppError>)
        ensures
            match UserStatus::spec_parse(s@) {
                Some(v) => res == Ok::<UserStatus, AppError>(v),
                None => res matches Err(AppError::ValidationError(m)) && m@ == "Invalid user status"@,
            },
    {
        if str_eq(s, "active") {
            Ok(UserStatus::Active)
        } else if str_eq(s, "inactive") {
            Ok(UserStatus::Inactive)
        } else if str_eq(s, "suspended") {
            Ok(UserStatus::Suspended)
        } else if str_eq(s, "pending") {
            Ok(UserStatus::Pending)
        } else if str_eq(s, "locked") {
            Ok(UserStatus::Locked)
        } else if str_eq(s, "terminated") {
            Ok(UserStatus::Terminated)
        } else {
            Err(AppError::ValidationError("Invalid user status".to_owned()))
        }
    }

    /// Reading back the text of a variant gives the variant.
    pub proof fn lemma_parse_str(v: UserStatus)
        ensures
            UserStatus::spec_parse(v.spec_str()) == Some(v),
    {
        broadcast use vstd::string::group_string_axioms;
        reveal_strlit("active");
        reveal_strlit("inactive");
        reveal_strlit("suspended");
        reveal_strlit("pending");
        reveal_strlit("locked");
        reveal_strlit("terminated");
        assert("active"@.len() == 6);
        assert("inactive"@.len() == 8);
        assert("suspended"@.len() == 9);
        assert("pending"@.len() == 7);
        assert("locked"@.len() == 6);
        assert("terminated"@.len() == 10);
        assert("active"@[0] != "locked"@[0]);
    }
}


/// What kind of user a user is.
#[derive(Clone, Copy, Debug, PartialEq, Eq, Structural, Hash)]
pub enum UserType {
    Employee,
    Admin,
    System,
    Service,
}

impl UserType {
    /// The text that stands for the variant in items and requests.
    pub open spec fn spec_str(self) -> Seq<char> {
        match self {
            UserType::Employee => "employee"@,
            UserType::Admin => "admin"@,
            UserType::System => "system"@,
            UserType::Service => "service"@,
        }
    }

    /// The variant that a text stands for, if any.
    pub open spec fn spec_parse(s: Seq<char>) -> Option<UserType> {
        if s == "employee"@ {
            Some(UserType::Employee)
        } else if s == "admin"@ {
            Some(UserType::Admin)
        } else if s == "system"@ {
            Some(UserType::System)
        } else if s == "service"@ {
            Some(UserType::Service)
        } else {
            None
        }
    }

    pub fn to_str(&self) -> (res: &'static str)
        ensures
            res@ == self.spec_str(),
    {
        match self {
            UserType::Employee => "employee",
            UserType::Admin => "admin",
            UserType::System => "system",
            UserType::Service => "service",
        }
    }

    pub fn to_string(&self) -> (res: String)
        ensures
            res@ == self.spec_str(),
    {
        self.to_str().to_owned()
    }

    /// Reads a variant from its text; any other text is refused with a `ValidationError`.
    pub fn from_string(s: &str) -> (res: Result<UserType, AppError>)
        ensures
            match UserType::spec_parse(s@) {
                Some(v) => res == Ok::<UserType, AppError>(v),
                None => res matches Err(AppError::ValidationError(m)) && m@ == "Invalid user type"@,
            },
    {
        if str_eq(s, "employee") {
            Ok(UserType::Employee)
        } else if str_eq(s, "admin") {
            Ok(UserType::Admin)
        } else if str_eq(s, "system") {
            Ok(UserType::System)
        } else if str_eq(s, "service") {
            Ok(UserType::Service)
        } else {
            Err(AppError::ValidationError("Invalid user type".to_owned()))
        }
    }

    /// Reading back the text of a variant gives the variant.
    pub proof fn lemma_parse_str(v: UserType)
        ensures
            UserType::spec_parse(v.spec_str()) == Some(v),
    {
        broadcast use vstd::string::group_string_axioms;
        reveal_strlit("employee");
        reveal_strlit("admin");
        reveal_strlit("system");
        reveal_strlit("service");
        assert("employee"@.len() == 8);
        assert("admin"@.len() == 5);
        assert("system"@.len() == 6);
        assert("service"@.len() == 7);
    }
}


/// A person or service that uses the system.
#[derive(Clone, Debug)]
pub struct User {
    pub id: String,
    pub username: String,
    pub email: String,
    pub first_name: String,
    pub last_name: String,
    pub display_name: Option<String>,
    pub user_type: UserType,
    pub status: UserStatus,
    pub primary_role_id: Option<String>,
    pub department: Option<String>,
    pub job_title: Option<String>,
    pub manager_id: Option<String>,
    pub contact_number: Option<String>,
    pub secondary_email: Option<String>,
    pub hire_date: Option<Timestamp>,
    pub termination_date: Option<Timestamp>,
    pub last_login_at: Option<Timestamp>,
    pub password_changed_at: Option<Timestamp>,
    pub failed_login_attempts: i32,
    pub account_locked_until: Option<Timestamp>,
    pub certification_levels: String,
    pub profile_image_url: Option<String>,
    pub timezone: Option<String>,
    pub locale: Option<String>,
    pub emergency_contact: Option<String>,
    pub address: Option<String>,
    pub employee_id: Option<String>,
    pub cost_center: Option<String>,
    pub security_clearance: Option<String>,
    pub notes: Option<String>,
    pub metadata: Option<String>,
    pub created_by: Option<String>,
    pub created_at: Timestamp,
    pub updated_at: Timestamp,
}

impl User {
    /// The instants are ones that `chrono` represents.
    pub open spec fn wf(&self) -> bool {
        &&& (self.hire_date matches Some(t) ==> t.valid())
        &&& (self.termination_date matches Some(t) ==> t.valid())
        &&& (self.last_login_at matches Some(t) ==> t.valid())
        &&& (self.password_changed_at matches Some(t) ==> t.valid())
        &&& (self.account_locked_until matches Some(t) ==> t.valid())
        &&& self.created_at.valid()
        &&& self.updated_at.valid()
    }

    /// Whether an item holds what this entity needs to be read from it.
    pub open spec fn item_readable(iv: ItemView) -> bool {
        &&& s_at(iv, "id"@) is Some
        &&& s_at(iv, "username"@) is Some
        &&& s_at(iv, "email"@) is Some
        &&& s_at(iv, "first_name"@) is Some
        &&& s_at(iv, "last_name"@) is Some
        &&& s_at(iv, "user_type"@) matches Some(c) && UserType::spec_parse(c) is Some
        &&& s_at(iv, "status"@) matches Some(c) && UserStatus::spec_parse(c) is Some
    }

    /// Whether this entity is what is read from an item, where instants that
    /// cannot be read are taken to be `now`.
    pub open spec fn read_from(&self, iv: ItemView, now: Timestamp) -> bool {
        &&& Some(self.id@) == s_at(iv, "id"@)
        &&& Some(self.username@) == s_at(iv, "username"@)
        &&& Some(self.email@) == s_at(iv, "email"@)
        &&& Some(self.first_name@) == s_at(iv, "first_name"@)
        &&& Some(self.last_name@) == s_at(iv, "last_name"@)
        &&& opt_view(self.display_name) == s_at(iv, "display_name"@)
        &&& Some(self.user_type) == UserType::spec_parse(s_at(iv, "user_type"@)->0)
        &&& Some(self.status) == UserStatus::spec_parse(s_at(iv, "status"@)->0)
        &&& opt_view(self.primary_role_id) == s_at(iv, "primary_role_id"@)
        &&& opt_view(self.department) == s_at(iv, "department"@)
        &&& opt_view(self.job_title) == s_at(iv, "job_title"@)
        &&& opt_view(self.manager_id) == s_at(iv, "manager_id"@)
        &&& opt_view(self.contact_number) == s_at(iv, "contact_number"@)
        &&& opt_view(self.secondary_email) == s_at(iv, "secondary_email"@)
        &&& self.hire_date == timestamp_at(iv, "hire_date"@)
        &&& self.termination_date == timestamp_at(iv, "termination_date"@)
        &&& self.last_login_at == timestamp_at(iv, "last_login_at"@)
        &&& self.password_changed_at == timestamp_at(iv, "password_changed_at"@)
        &&& self.failed_login_attempts == i32_or(iv, "failed_login_attempts"@, 0)
        &&& self.account_locked_until == timestamp_at(iv, "account_locked_until"@)
        &&& self.certification_levels@ == json_or_empty_object(s_at(iv, "certification_levels"@))
        &&& opt_view(self.profile_image_url) == s_at(iv, "profile_image_url"@)
        &&& opt_view(self.timezone) == s_at(iv, "timezone"@)
        &&& opt_view(self.locale) == s_at(iv, "locale"@)
        &&& opt_view(self.emergency_contact) == (match s_at(iv, "emergency_contact"@) { Some(s) => json_canonical(s), None => None })
        &&& opt_view(self.address) == (match s_at(iv, "address"@) { Some(s) => json_canonical(s), None => None })
        &&& opt_view(self.employee_id) == s_at(iv, "employee_id"@)
        &&& opt_view(self.cost_center) == s_at(iv, "cost_center"@)
        &&& opt_view(self.security_clearance) == s_at(iv, "security_clearance"@)
        &&& opt_view(self.notes) == s_at(iv, "notes"@)
        &&& opt_view(self.metadata) == (match s_at(iv, "metadata"@) { Some(s) => json_canonical(s), None => None })
        &&& opt_view(self.created_by) == s_at(iv, "created_by"@)
        &&& self.created_at == timestamp_or(iv, "created_at"@, now)
        &&& self.updated_at == timestamp_or(iv, "updated_at"@, now)
    }

    /// The entries that `to_item` writes for id, username, email, first_name, last_name, display_name, user_type, status, primary_role_id, department, job_title, manager_id, after those of `iv`.
    pub open spec fn spec_item_part1(&self, iv: ItemView) -> ItemView {
        let iv = iv.push(("id"@, AttrView::S(self.id@)));
        let iv = iv.push(("username"@, AttrView::S(self.username@)));
        let iv = iv.push(("email"@, AttrView::S(self.email@)));
        let iv = iv.push(("first_name"@, AttrView::S(self.first_name@)));
        let iv = iv.push(("last_name"@, AttrView::S(self.last_name@)));
        let iv = push_if(iv, self.display_name is Some, ("display_name"@, AttrView::S(self.display_name->0@)));
        let iv = iv.push(("user_type"@, AttrView::S(self.user_type.spec_str())));
        let iv = iv.push(("status"@, AttrView::S(self.status.spec_str())));
        let iv = push_if(iv, self.primary_role_id is Some, ("primary_role_id"@, AttrView::S(self.primary_role_id->0@)));
        let iv = push_if(iv, self.department is Some, ("department"@, AttrView::S(self.department->0@)));
        let iv = push_if(iv, self.job_title is Some, ("job_title"@, AttrView::S(self.job_title->0@)));
        let iv = push_if(iv, self.manager_id is Some, ("manager_id"@, AttrView::S(self.manager_id->0@)));
        iv
    }

    /// The entries that `to_item` writes for contact_number, secondary_email, hire_date, termination_date, last_login_at, password_changed_at, failed_login_attempts, account_locked_until, certification_levels, profile_image_url, timezone, locale, after those of `iv`.
    pub open spec fn spec_item_part2(&self, iv: ItemView) -> ItemView {
        let iv = push_if(iv, self.contact_number is Some, ("contact_number"@, AttrView::S(self.contact_number->0@)));
        let iv = push_if(iv, self.secondary_email is Some, ("secondary_email"@, AttrView::S(self.secondary_email->0@)));
        let iv = push_if(iv, self.hire_date is Some, ("hire_date"@, AttrView::S(chrono_format_datetime(self.hire_date->0))));
        let iv = push_if(iv, self.termination_date is Some, ("termination_date"@, AttrView::S(chrono_format_datetime(self.termination_date->0))));
        let iv = push_if(iv, self.last_login_at is Some, ("last_login_at"@, AttrView::S(chrono_format_datetime(self.last_login_at->0))));
        let iv = push_if(iv, self.password_changed_at is Some, ("password_changed_at"@, AttrView::S(chrono_format_datetime(self.password_changed_at->0))));
        let iv = iv.push(("failed_login_attempts"@, AttrView::N(spec_format_i32(self.failed_login_attempts))));
        let iv = push_if(iv, self.account_locked_until is Some, ("account_locked_until"@, AttrView::S(chrono_format_datetime(self.account_locked_until->0))));
        let iv = iv.push(("certification_levels"@, AttrView::S(self.certification_levels@)));
        let iv = push_if(iv, self.profile_image_url is Some, ("profile_image_url"@, AttrView::S(self.profile_image_url->0@)));
        let iv = push_if(iv, self.timezone is Some, ("timezone"@, AttrView::S(self.timezone->0@)));
        let iv = push_if(iv, self.locale is Some, ("locale"@, AttrView::S(self.locale->0@)));
        iv
    }

    /// The entries that `to_item` writes for emergency_contact, address, employee_id, cost_center, security_clearance, notes, metadata, created_by, created_at, updated_at, after those of `iv`.
    pub open spec fn spec_item_part3(&self, iv: ItemView) -> ItemView {
        let iv = push_if(iv, self.emergency_contact is Some, ("emergency_contact"@, AttrView::S(self.emergency_contact->0@)));
        let iv = push_if(iv, self.address is Some, ("address"@, AttrView::S(self.address->0@)));
        let iv = push_if(iv, self.employee_id is Some, ("employee_id"@, AttrView::S(self.employee_id->0@)));
        let iv = push_if(iv, self.cost_center is Some, ("cost_center"@, AttrView::S(self.cost_center->0@)));
        let iv = push_if(iv, self.security_clearance is Some, ("security_clearance"@, AttrView::S(self.security_clearance->0@)));
        let iv = push_if(iv, self.notes is Some, ("notes"@, AttrView::S(self.notes->0@)));
        let iv = push_if(iv, self.metadata is Some, ("metadata"@, AttrView::S(self.metadata->0@)));
        let iv = push_if(iv, self.created_by is Some, ("created_by"@, AttrView::S(self.created_by->0@)));
        let iv = iv.push(("created_at"@, AttrView::S(chrono_format_datetime(self.created_at))));
        let iv = iv.push(("updated_at"@, AttrView::S(chrono_format_datetime(self.updated_at))));
        iv
    }

    /// The item that `to_item` writes.
    pub open spec fn spec_item(&self) -> ItemView {
        self.spec_item_part3(self.spec_item_part2(self.spec_item_part1(Seq::empty())))
    }

    /// Whether two entities hold the same values.
    pub open spec fn same_as(&self, other: &User) -> bool {
        &&& self.id@ == other.id@
        &&& self.username@ == other.username@
        &&& self.email@ == other.email@
        &&& self.first_name@ == other.first_name@
        &&& self.last_name@ == other.last_name@
        &&& opt_view(self.display_name) == opt_view(other.display_name)
        &&& self.user_type == other.user_type
        &&& self.status == other.status
        &&& opt_view(self.primary_role_id) == opt_view(other.primary_role_id)
        &&& opt_view(self.department) == opt_view(other.department)
        &&& opt_view(self.job_title) == opt_view(other.job_title)
        &&& opt_view(self.manager_id) == opt_view(other.manager_id)
        &&& opt_view(self.contact_number) == opt_view(other.contact_number)
        &&& opt_view(self.secondary_email) == opt_view(other.secondary_email)
        &&& self.hire_date == other.hire_date
        &&& self.termination_date == other.termination_date
        &&& self.last_login_at == other.last_login_at
        &&& self.password_changed_at == other.password_changed_at
        &&& self.failed_login_attempts == other.failed_login_attempts
        &&& self.account_locked_until == other.account_locked_until
        &&& self.certification_levels@ == other.certification_levels@
        &&& opt_view(self.profile_image_url) == opt_view(other.profile_image_url)
        &&& opt_view(self.timezone) == opt_view(other.timezone)
        &&& opt_view(self.locale) == opt_view(other.locale)
        &&& opt_view(self.emergency_contact) == opt_view(other.emergency_contact)
        &&& opt_view(self.address) == opt_view(other.address)
        &&& opt_view(self.employee_id) == opt_view(other.employee_id)
        &&& opt_view(self.cost_center) == opt_view(other.cost_center)
        &&& opt_view(self.security_clearance) == opt_view(other.security_clearance)
        &&& opt_view(self.notes) == opt_view(other.notes)
        &&& opt_view(self.metadata) == opt_view(other.metadata)
        &&& opt_view(self.created_by) == opt_view(other.created_by)
        &&& self.created_at == other.created_at
        &&& self.updated_at == other.updated_at
    }

    /// Reads the entity from an item, taking `now` for instants that are missing.
    pub fn from_item_at(item: &Item, now: Timestamp) -> (res: Option<Self>)
        requires
            now.valid(),
        ensures
            res is Some <==> Self::item_readable(item@),
            res matches Some(e) ==> e.read_from(item@, now) && e.wf(),
    {
        let id = read_s(item, "id")?;
        let username = read_s(item, "username")?;
        let email = read_s(item, "email")?;
        let first_name = read_s(item, "first_name")?;
        let last_name = read_s(item, "last_name")?;
        let display_name = read_s(item, "display_name");
        let user_type_text = item.get_s("user_type")?;
        let user_type = UserType::from_string(user_type_text.as_str()).ok()?;
        let status_text = item.get_s("status")?;
        let status = UserStatus::from_string(status_text.as_str()).ok()?;
        let primary_role_id = read_s(item, "primary_role_id");
        let department = read_s(item, "department");
        let job_title = read_s(item, "job_title");
        let manager_id = read_s(item, "manager_id");
        let contact_number = read_s(item, "contact_number");
        let secondary_email = read_s(item, "secondary_email");
        let hire_date = read_timestamp(item, "hire_date");
        let termination_date = read_timestamp(item, "termination_date");
        let last_login_at = read_timestamp(item, "last_login_at");
        let password_changed_at = read_timestamp(item, "password_changed_at");
        let failed_login_attempts = read_i32_or(item, "failed_login_attempts", 0);
        let account_locked_until = read_timestamp(item, "account_locked_until");
        let certification_levels = read_json_or_empty_object(item, "certification_levels");
        let profile_image_url = read_s(item, "profile_image_url");
        let timezone = read_s(item, "timezone");
        let locale = read_s(item, "locale");
        let emergency_contact = match item.get_s("emergency_contact") {
            Some(t) => canonical_json(t.as_str()),
            None => None,
        };
        let address = match item.get_s("address") {
            Some(t) => canonical_json(t.as_str()),
            None => None,
        };
        let employee_id = read_s(item, "employee_id");
        let cost_center = read_s(item, "cost_center");
        let security_clearance = read_s(item, "security_clearance");
        let notes = read_s(item, "notes");
        let metadata = match item.get_s("metadata") {
            Some(t) => canonical_json(t.as_str()),
            None => None,
        };
        let created_by = read_s(item, "created_by");
        let created_at = read_timestamp_or(item, "created_at", now);
        let updated_at = read_timestamp_or(item, "updated_at", now);
        Some(User {
            id,
            username,
            email,
            first_name,
            last_name,
            display_name,
            user_type,
            status,
            primary_role_id,
            department,
            job_title,
            manager_id,
            contact_number,
            secondary_email,
            hire_date,
            termination_date,
            last_login_at,
            password_changed_at,
            failed_login_attempts,
            account_locked_until,
            certification_levels,
            profile_image_url,
            timezone,
            locale,
            emergency_contact,
            address,
            employee_id,
            cost_center,
            security_clearance,
            notes,
            metadata,
            created_by,
            created_at,
            updated_at,
        })
    }

    /// Reads the entity from an item; instants that are missing are read from the clock.
    pub fn from_item(item: &Item) -> (res: Option<Self>)
        ensures
            res is Some <==> Self::item_readable(item@),
            res matches Some(e) ==> e.wf() && exists|t: Timestamp| t.valid() && e.read_from(item@, t),
    {
        let t = now();
        Self::from_item_at(item, t)
    }

    fn write_part1(&self, item: &mut Item)
        requires
            self.wf(),
        ensures
            final(item)@ == self.spec_item_part1(old(item)@),
    {
        reveal(push_if);
        let ghost mut iv: ItemView = old(item)@;
        item.insert_s("id", self.id.clone());
        proof { iv = iv.push(("id"@, AttrView::S(self.id@))); }
        assert(item@ == iv);
        item.insert_s("username", self.username.clone());
        proof { iv = iv.push(("username"@, AttrView::S(self.username@))); }
        assert(item@ == iv);
        item.insert_s("email", self.email.clone());
        proof { iv = iv.push(("email"@, AttrView::S(self.email@))); }
        assert(item@ == iv);
        item.insert_s("first_name", self.first_name.clone());
        proof { iv = iv.push(("first_name"@, AttrView::S(self.first_name@))); }
        assert(item@ == iv);
        item.insert_s("last_name", self.last_name.clone());
        proof { iv = iv.push(("last_name"@, AttrView::S(self.last_name@))); }
        assert(item@ == iv);
        if let Some(x) = &self.display_name {
            item.insert_s("display_name", x.clone());
        }
        proof { iv = push_if(iv, self.display_name is Some, ("display_name"@, AttrView::S(self.display_name->0@))); }
        assert(item@ == iv);
        item.insert_s("user_type", self.user_type.to_string());
        proof { iv = iv.push(("user_type"@, AttrView::S(self.user_type.spec_str()))); }
        assert(item@ == iv);
        item.insert_s("status", self.status.to_string());
        proof { iv = iv.push(("status"@, AttrView::S(self.status.spec_str()))); }
        assert(item@ == iv);
        if let Some(x) = &self.primary_role_id {
            item.insert_s("primary_role_id", x.clone());
        }
        proof { iv = push_if(iv, self.primary_role_id is Some, ("primary_role_id"@, AttrView::S(self.primary_role_id->0@))); }
        assert(item@ == iv);
        if let Some(x) = &self.department {
            item.insert_s("department", x.clone());
        }
        proof { iv = push_if(iv, self.department is Some, ("department"@, AttrView::S(self.department->0@))); }
        assert(item@ == iv);
        if let Some(x) = &self.job_title {
            item.insert_s("job_title", x.clone());
        }
        proof { iv = push_if(iv, self.job_title is Some, ("job_title"@, AttrView::S(self.job_title->0@))); }
        assert(item@ == iv);
        if let Some(x) = &self.manager_id {
            item.insert_s("manager_id", x.clone());
        }
        proof { iv = push_if(iv, self.manager_id is Some, ("manager_id"@, AttrView::S(self.manager_id->0@))); }
        assert(item@ == iv);
    }

    fn write_part2(&self, item: &mut Item)
        requires
            self.wf(),
        ensures
            final(item)@ == self.spec_item_part2(old(item)@),
            self.hire_date matches Some(t) ==> chrono_parse_datetime(chrono_format_datetime(t)) == Some(t),
            self.termination_date matches Some(t) ==> chrono_parse_datetime(chrono_format_datetime(t)) == Some(t),
            self.last_login_at matches Some(t) ==> chrono_parse_datetime(chrono_format_datetime(t)) == Some(t),
            self.password_changed_at matches Some(t) ==> chrono_parse_datetime(chrono_format_datetime(t)) == Some(t),
            self.account_locked_until matches Some(t) ==> chrono_parse_datetime(chrono_format_datetime(t)) == Some(t),
    {
        reveal(push_if);
        let ghost mut iv: ItemView = old(item)@;
        if let Some(x) = &self.contact_number {
            item.insert_s("contact_number", x.clone());
        }
        proof { iv = push_if(iv, self.contact_number is Some, ("contact_number"@, AttrView::S(self.contact_number->0@))); }
        assert(item@ == iv);
        if let Some(x) = &self.secondary_email {
            item.insert_s("secondary_email", x.clone());
        }
        proof { iv = push_if(iv, self.secondary_email is Some, ("secondary_email"@, AttrView::S(self.secondary_email->0@))); }
        assert(item@ == iv);
        if let Some(t) = &self.hire_date {
            write_timestamp(item, "hire_date", t);
        }
        proof { iv = push_if(iv, self.hire_date is Some, ("hire_date"@, AttrView::S(chrono_format_datetime(self.hire_date->0)))); }
        assert(item@ == iv);
        if let Some(t) = &self.termination_date {
            write_timestamp(item, "termination_date", t);
        }
        proof { iv = push_if(iv, self.termination_date is Some, ("termination_date"@, AttrView::S(chrono_format_datetime(self.termination_date->0)))); }
        assert(item@ == iv);
        if let Some(t) = &self.last_login_at {
            write_timestamp(item, "last_login_at", t);
        }
        proof { iv = push_if(iv, self.last_login_at is Some, ("last_login_at"@, AttrView::S(chrono_format_datetime(self.last_login_at->0)))); }
        assert(item@ == iv);
        if let Some(t) = &self.password_changed_at {
            write_timestamp(item, "password_changed_at", t);
        }
        proof { iv = push_if(iv, self.password_changed_at is Some, ("password_changed_at"@, AttrView::S(chrono_format_datetime(self.password_changed_at->0)))); }
        assert(item@ == iv);
        write_i32(item, "failed_login_attempts", self.failed_login_attempts);
        proof { iv = iv.push(("failed_login_attempts"@, AttrView::N(spec_format_i32(self.failed_login_attempts)))); }
        assert(item@ == iv);
        if let Some(t) = &self.account_locked_until {
            write_timestamp(item, "account_locked_until", t);
        }
        proof { iv = push_if(iv, self.account_locked_until is Some, ("account_locked_until"@, AttrView::S(chrono_format_datetime(self.account_locked_until->0)))); }
        assert(item@ == iv);
        item.insert_s("certification_levels", self.certification_levels.clone());
        proof { iv = iv.push(("certification_levels"@, AttrView::S(self.certification_levels@))); }
        assert(item@ == iv);
        if let Some(x) = &self.profile_image_url {
            item.insert_s("profile_image_url", x.clone());
        }
        proof { iv = push_if(iv, self.profile_image_url is Some, ("profile_image_url"@, AttrView::S(self.profile_image_url->0@))); }
        assert(item@ == iv);
        if let Some(x) = &self.timezone {
            item.insert_s("timezone", x.clone());
        }
        proof { iv = push_if(iv, self.timezone is Some, ("timezone"@, AttrView::S(self.timezone->0@))); }
        assert(item@ == iv);
        if let Some(x) = &self.locale {
            item.insert_s("locale", x.clone());
        }
        proof { iv = push_if(iv, self.locale is Some, ("locale"@, AttrView::S(self.locale->0@))); }
        assert(item@ == iv);
    }

    fn write_part3(&self, item: &mut Item)
        requires
            self.wf(),
        ensures
            final(item)@ == self.spec_item_part3(old(item)@),
            chrono_parse_datetime(chrono_format_datetime(self.created_at)) == Some(self.created_at),
            chrono_parse_datetime(chrono_format_datetime(self.updated_at)) == Some(self.updated_at),
    {
        reveal(push_if);
        let ghost mut iv: ItemView = old(item)@;
        if let Some(x) = &self.emergency_contact {
            item.insert_s("emergency_contact", x.clone());
        }
        proof { iv = push_if(iv, self.emergency_contact is Some, ("emergency_contact"@, AttrView::S(self.emergency_contact->0@))); }
        assert(item@ == iv);
        if let Some(x) = &self.address {
            item.insert_s("address", x.clone());
        }
        proof { iv = push_if(iv, self.address is Some, ("address"@, AttrView::S(self.address->0@))); }
        assert(item@ == iv);
        if let Some(x) = &self.employee_id {
            item.insert_s("employee_id", x.clone());
        }
        proof { iv = push_if(iv, self.employee_id is Some, ("employee_id"@, AttrView::S(self.employee_id->0@))); }
        assert(item@ == iv);
        if let Some(x) = &self.cost_center {
            item.insert_s("cost_center", x.clone());
        }
        proof { iv = push_if(iv, self.cost_center is Some, ("cost_center"@, AttrView::S(self.cost_center->0@))); }
        assert(item@ == iv);
        if let Some(x) = &self.security_clearance {
            item.insert_s("security_clearance", x.clone());
        }
        proof { iv = push_if(iv, self.security_clearance is Some, ("security_clearance"@, AttrView::S(self.security_clearance->0@))); }
        assert(item@ == iv);
        if let Some(x) = &self.notes {
            item.insert_s("notes", x.clone());
        }
        proof { iv = push_if(iv, self.notes is Some, ("notes"@, AttrView::S(self.notes->0@))); }
        assert(item@ == iv);
        if let Some(x) = &self.metadata {
            item.insert_s("metadata", x.clone());
        }
        proof { iv = push_if(iv, self.metadata is Some, ("metadata"@, AttrView::S(self.metadata->0@))); }
        assert(item@ == iv);
        if let Some(x) = &self.created_by {
            item.insert_s("created_by", x.clone());
        }
        proof { iv = push_if(iv, self.created_by is Some, ("created_by"@, AttrView::S(self.created_by->0@))); }
        assert(item@ == iv);
        write_timestamp(item, "created_at", &self.created_at);
        proof { iv = iv.push(("created_at"@, AttrView::S(chrono_format_datetime(self.created_at)))); }
        assert(item@ == iv);
        write_timestamp(item, "updated_at", &self.updated_at);
        proof { iv = iv.push(("updated_at"@, AttrView::S(chrono_format_datetime(self.updated_at)))); }
        assert(item@ == iv);
    }

    /// What reading the entity back from its item needs beyond well-formedness:
    /// each JSON text it holds is already in the form `serde_json` writes, the
    /// form that reading the item gives.
    pub open spec fn readback_conditions(&self) -> bool {
        &&& json_canonical(self.certification_levels@) == Some(self.certification_levels@)
        &&& self.emergency_contact matches Some(j) ==> json_canonical(j@) == Some(j@)
        &&& self.address matches Some(j) ==> json_canonical(j@) == Some(j@)
        &&& self.metadata matches Some(j) ==> json_canonical(j@) == Some(j@)
    }

    /// Writes the entity as an item.
    pub fn to_item(&self) -> (res: Item)
        requires
            self.wf(),
        ensures
            res@ == self.spec_item(),
            self.readback_conditions() ==> Self::item_readable(res@),
            self.readback_conditions() ==> forall|b: User, now: Timestamp| #[trigger] b.read_from(res@, now) ==> b.same_as(self),
    {
        let mut item = Item::new();
        self.write_part1(&mut item);
        self.write_part2(&mut item);
        self.write_part3(&mut item);
        proof {
            if self.readback_conditions() {
                Self::lemma_item_roundtrip(self, self, Timestamp { secs: 0, nanos: 0 });
                assert forall|b: User, now: Timestamp| #[trigger] b.read_from(item@, now) implies b.same_as(self) by {
                    Self::lemma_item_roundtrip(self, &b, now);
                }
            }
        }
        item
    }

    proof fn lemma_part1_values(&self, iv: ItemView)
        ensures
            lookup(self.spec_item_part1(iv), "id"@) == Some(AttrView::S(self.id@)),
            lookup(self.spec_item_part1(iv), "username"@) == Some(AttrView::S(self.username@)),
            lookup(self.spec_item_part1(iv), "email"@) == Some(AttrView::S(self.email@)),
            lookup(self.spec_item_part1(iv), "first_name"@) == Some(AttrView::S(self.first_name@)),
            lookup(self.spec_item_part1(iv), "last_name"@) == Some(AttrView::S(self.last_name@)),
            lookup(self.spec_item_part1(iv), "display_name"@) == (if self.display_name is Some { Some(AttrView::S(self.display_name->0@)) } else { lookup(iv, "display_name"@) }),
            lookup(self.spec_item_part1(iv), "user_type"@) == Some(AttrView::S(self.user_type.spec_str())),
            lookup(self.spec_item_part1(iv), "status"@) == Some(AttrView::S(self.status.spec_str())),
            lookup(self.spec_item_part1(iv), "primary_role_id"@) == (if self.primary_role_id is Some { Some(AttrView::S(self.primary_role_id->0@)) } else { lookup(iv, "primary_role_id"@) }),
            lookup(self.spec_item_part1(iv), "department"@) == (if self.department is Some { Some(AttrView::S(self.department->0@)) } else { lookup(iv, "department"@) }),
            lookup(self.spec_item_part1(iv), "job_title"@) == (if self.job_title is Some { Some(AttrView::S(self.job_title->0@)) } else { lookup(iv, "job_title"@) }),
            lookup(self.spec_item_part1(iv), "manager_id"@) == (if self.manager_id is Some { Some(AttrView::S(self.manager_id->0@)) } else { lookup(iv, "manager_id"@) }),
    {
        broadcast use crate::item::lemma_lookup_push, crate::item::lemma_lookup_push_if;
        lemma_keys_distinct_0_0(); lemma_keys_distinct_0_1(); lemma_keys_distinct_0_2(); lemma_keys_distinct_1_1(); lemma_keys_distinct_1_2(); lemma_keys_distinct_2_2();
    }

    proof fn lemma_part1_frame(&self, iv: ItemView, k: Seq<char>)
        requires
            k != "id"@,
            k != "username"@,
            k != "email"@,
            k != "first_name"@,
            k != "last_name"@,
            k != "display_name"@,
            k != "user_type"@,
            k != "status"@,
            k != "primary_role_id"@,
            k != "department"@,
            k != "job_title"@,
            k != "manager_id"@,
        ensures
            lookup(self.spec_item_part1(iv), k) == lookup(iv, k),
    {
        broadcast use crate::item::lemma_lookup_push, crate::item::lemma_lookup_push_if;
    }

    proof fn lemma_part2_values(&self, iv: ItemView)
        ensures
            lookup(self.spec_item_part2(iv), "contact_number"@) == (if self.contact_number is Some { Some(AttrView::S(self.contact_number->0@)) } else { lookup(iv, "contact_number"@) }),
            lookup(self.spec_item_part2(iv), "secondary_email"@) == (if self.secondary_email is Some { Some(AttrView::S(self.secondary_email->0@)) } else { lookup(iv, "secondary_email"@) }),
            lookup(self.spec_item_part2(iv), "hire_date"@) == (if self.hire_date is Some { Some(AttrView::S(chrono_format_datetime(self.hire_date->0))) } else { lookup(iv, "hire_date"@) }),
            lookup(self.spec_item_part2(iv), "termination_date"@) == (if self.termination_date is Some { Some(AttrView::S(chrono_format_datetime(self.termination_date->0))) } else { lookup(iv, "termination_date"@) }),
            lookup(self.spec_item_part2(iv), "last_login_at"@) == (if self.last_login_at is Some { Some(AttrView::S(chrono_format_datetime(self.last_login_at->0))) } else { lookup(iv, "last_login_at"@) }),
            lookup(self.spec_item_part2(iv), "password_changed_at"@) == (if self.password_changed_at is Some { Some(AttrView::S(chrono_format_datetime(self.password_changed_at->0))) } else { lookup(iv, "password_changed_at"@) }),
            lookup(self.spec_item_part2(iv), "failed_login_attempts"@) == Some(AttrView::N(spec_format_i32(self.failed_login_attempts))),
            lookup(self.spec_item_part2(iv), "account_locked_until"@) == (if self.account_locked_until is Some { Some(AttrView::S(chrono_format_datetime(self.account_locked_until->0))) } else { lookup(iv, "account_locked_until"@) }),
            lookup(self.spec_item_part2(iv), "certification_levels"@) == Some(AttrView::S(self.certification_levels@)),
            lookup(self.spec_item_part2(iv), "profile_image_url"@) == (if self.profile_image_url is Some { Some(AttrView::S(self.profile_image_url->0@)) } else { lookup(iv, "profile_image_url"@) }),
            lookup(self.spec_item_part2(iv), "timezone"@) == (if self.timezone is Some { Some(AttrView::S(self.timezone->0@)) } else { lookup(iv, "timezone"@) }),
            lookup(self.spec_item_part2(iv), "locale"@) == (if self.locale is Some { Some(AttrView::S(self.locale->0@)) } else { lookup(iv, "locale"@) }),
    {
        broadcast use crate::item::lemma_lookup_push, crate::item::lemma_lookup_push_if;
        lemma_keys_distinct_0_0(); lemma_keys_distinct_0_1(); lemma_keys_distinct_0_2(); lemma_keys_distinct_1_1(); lemma_keys_distinct_1_2(); lemma_keys_distinct_2_2();
    }

    proof fn lemma_part2_frame(&self, iv: ItemView, k: Seq<char>)
        requires
            k != "contact_number"@,
            k != "secondary_email"@,
            k != "hire_date"@,
            k != "termination_date"@,
            k != "last_login_at"@,
            k != "password_changed_at"@,
            k != "failed_login_attempts"@,
            k != "account_locked_until"@,
            k != "certification_levels"@,
            k != "profile_image_url"@,
            k != "timezone"@,
            k != "locale"@,
        ensures
            lookup(self.spec_item_part2(iv), k) == lookup(iv, k),
    {
        broadcast use crate::item::lemma_lookup_push, crate::item::lemma_lookup_push_if;
    }

    proof fn lemma_part3_values(&self, iv: ItemView)
        ensures
            lookup(self.spec_item_part3(iv), "emergency_contact"@) == (if self.emergency_contact is Some { Some(AttrView::S(self.emergency_contact->0@)) } else { lookup(iv, "emergency_contact"@) }),
            lookup(self.spec_item_part3(iv), "address"@) == (if self.address is Some { Some(AttrView::S(self.address->0@)) } else { lookup(iv, "address"@) }),
            lookup(self.spec_item_part3(iv), "employee_id"@) == (if self.employee_id is Some { Some(AttrView::S(self.employee_id->0@)) } else { lookup(iv, "employee_id"@) }),
            lookup(self.spec_item_part3(iv), "cost_center"@) == (if self.cost_center is Some { Some(AttrView::S(self.cost_center->0@)) } else { lookup(iv, "cost_center"@) }),
            lookup(self.spec_item_part3(iv), "security_clearance"@) == (if self.security_clearance is Some { Some(AttrView::S(self.security_clearance->0@)) } else { lookup(iv, "security_clearance"@) }),
            lookup(self.spec_item_part3(iv), "notes"@) == (if self.notes is Some { Some(AttrView::S(self.notes->0@)) } else { lookup(iv, "notes"@) }),
            lookup(self.spec_item_part3(iv), "metadata"@) == (if self.metadata is Some { Some(AttrView::S(self.metadata->0@)) } else { lookup(iv, "metadata"@) }),
            lookup(self.spec_item_part3(iv), "created_by"@) == (if self.created_by is Some { Some(AttrView::S(self.created_by->0@)) } else { lookup(iv, "created_by"@) }),
            lookup(self.spec_item_part3(iv), "created_at"@) == Some(AttrView::S(chrono_format_datetime(self.created_at))),
            lookup(self.spec_item_part3(iv), "updated_at"@) == Some(AttrView::S(chrono_format_datetime(self.updated_at))),
    {
        broadcast use crate::item::lemma_lookup_push, crate::item::lemma_lookup_push_if;
        lemma_keys_distinct_0_0(); lemma_keys_distinct_0_1(); lemma_keys_distinct_0_2(); lemma_keys_distinct_1_1(); lemma_keys_distinct_1_2(); lemma_keys_distinct_2_2();
    }

    proof fn lemma_part3_frame(&self, iv: ItemView, k: Seq<char>)
        requires
            k != "emergency_contact"@,
            k != "address"@,
            k != "employee_id"@,
            k != "cost_center"@,
            k != "security_clearance"@,
            k != "notes"@,
            k != "metadata"@,
            k != "created_by"@,
            k != "created_at"@,
            k != "updated_at"@,
        ensures
            lookup(self.spec_item_part3(iv), k) == lookup(iv, k),
    {
        broadcast use crate::item::lemma_lookup_push, crate::item::lemma_lookup_push_if;
    }

    /// Reading the entity back from the item it is written as gives the same
    /// entity, where `chrono` reads back the text of its instants.
    #[verifier::rlimit(100)]
    pub proof fn lemma_item_roundtrip(a: &User, b: &User, now: Timestamp)
        requires
            a.wf(),
            a.hire_date matches Some(t) ==> chrono_parse_datetime(chrono_format_datetime(t)) == Some(t),
            a.termination_date matches Some(t) ==> chrono_parse_datetime(chrono_format_datetime(t)) == Some(t),
            a.last_login_at matches Some(t) ==> chrono_parse_datetime(chrono_format_datetime(t)) == Some(t),
            a.password_changed_at matches Some(t) ==> chrono_parse_datetime(chrono_format_datetime(t)) == Some(t),
            a.account_locked_until matches Some(t) ==> chrono_parse_datetime(chrono_format_datetime(t)) == Some(t),
            json_canonical(a.certification_levels@) == Some(a.certification_levels@),
            a.emergency_contact matches Some(j) ==> json_canonical(j@) == Some(j@),
            a.address matches Some(j) ==> json_canonical(j@) == Some(j@),
            a.metadata matches Some(j) ==> json_canonical(j@) == Some(j@),
            chrono_parse_datetime(chrono_format_datetime(a.created_at)) == Some(a.created_at),
            chrono_parse_datetime(chrono_format_datetime(a.updated_at)) == Some(a.updated_at),
        ensures
            Self::item_readable(a.spec_item()),
            b.read_from(a.spec_item(), now) ==> b.same_as(a),
    {
        lemma_keys_distinct_0_0(); lemma_keys_distinct_0_1(); lemma_keys_distinct_0_2(); lemma_keys_distinct_1_1(); lemma_keys_distinct_1_2(); lemma_keys_distinct_2_2();
        let e: ItemView = Seq::empty();
        let p1 = a.spec_item_part1(e);
        let p2 = a.spec_item_part2(p1);
        let p3 = a.spec_item_part3(p2);
        assert(a.spec_item() == p3);
        a.lemma_part1_values(e);
        a.lemma_part2_values(p1);
        a.lemma_part3_values(p2);
        a.lemma_part2_frame(p1, "id"@);
        a.lemma_part3_frame(p2, "id"@);
        a.lemma_part2_frame(p1, "username"@);
        a.lemma_part3_frame(p2, "username"@);
        a.lemma_part2_frame(p1, "email"@);
        a.lemma_part3_frame(p2, "email"@);
        a.lemma_part2_frame(p1, "first_name"@);
        a.lemma_part3_frame(p2, "first_name"@);
        a.lemma_part2_frame(p1, "last_name"@);
        a.lemma_part3_frame(p2, "last_name"@);
        a.lemma_part2_frame(p1, "display_name"@);
        a.lemma_part3_frame(p2, "display_name"@);
        a.lemma_part2_frame(p1, "user_type"@);
        a.lemma_part3_frame(p2, "user_type"@);
        a.lemma_part2_frame(p1, "status"@);
        a.lemma_part3_frame(p2, "status"@);
        a.lemma_part2_frame(p1, "primary_role_id"@);
        a.lemma_part3_frame(p2, "primary_role_id"@);
        a.lemma_part2_frame(p1, "department"@);
        a.lemma_part3_frame(p2, "department"@);
        a.lemma_part2_frame(p1, "job_title"@);
        a.lemma_part3_frame(p2, "job_title"@);
        a.lemma_part2_frame(p1, "manager_id"@);
        a.lemma_part3_frame(p2, "manager_id"@);
        a.lemma_part1_frame(e, "contact_number"@);
        a.lemma_part3_frame(p2, "contact_number"@);
        a.lemma_part1_frame(e, "secondary_email"@);
        a.lemma_part3_frame(p2, "secondary_email"@);
        a.lemma_part1_frame(e, "hire_date"@);
        a.lemma_part3_frame(p2, "hire_date"@);
        a.lemma_part1_frame(e, "termination_date"@);
        a.lemma_part3_frame(p2, "termination_date"@);
        a.lemma_part1_frame(e, "last_login_at"@);
        a.lemma_part3_frame(p2, "last_login_at"@);
        a.lemma_part1_frame(e, "password_changed_at"@);
        a.lemma_part3_frame(p2, "password_changed_at"@);
        a.lemma_part1_frame(e, "failed_login_attempts"@);
        a.lemma_part3_frame(p2, "failed_login_attempts"@);
        a.lemma_part1_frame(e, "account_locked_until"@);
        a.lemma_part3_frame(p2, "account_locked_until"@);
        a.lemma_part1_frame(e, "certification_levels"@);
        a.lemma_part3_frame(p2, "certification_levels"@);
        a.lemma_part1_frame(e, "profile_image_url"@);
        a.lemma_part3_frame(p2, "profile_image_url"@);
        a.lemma_part1_frame(e, "timezone"@);
        a.lemma_part3_frame(p2, "timezone"@);
        a.lemma_part1_frame(e, "locale"@);
        a.lemma_part3_frame(p2, "locale"@);
        a.lemma_part1_frame(e, "emergency_contact"@);
        a.lemma_part2_frame(p1, "emergency_contact"@);
        a.lemma_part1_frame(e, "address"@);
        a.lemma_part2_frame(p1, "address"@);
        a.lemma_part1_frame(e, "employee_id"@);
        a.lemma_part2_frame(p1, "employee_id"@);
        a.lemma_part1_frame(e, "cost_center"@);
        a.lemma_part2_frame(p1, "cost_center"@);
        a.lemma_part1_frame(e, "security_clearance"@);
        a.lemma_part2_frame(p1, "security_clearance"@);
        a.lemma_part1_frame(e, "notes"@);
        a.lemma_part2_frame(p1, "notes"@);
        a.lemma_part1_frame(e, "metadata"@);
        a.lemma_part2_frame(p1, "metadata"@);
        a.lemma_part1_frame(e, "created_by"@);
        a.lemma_part2_frame(p1, "created_by"@);
        a.lemma_part1_frame(e, "created_at"@);
        a.lemma_part2_frame(p1, "created_at"@);
        a.lemma_part1_frame(e, "updated_at"@);
        a.lemma_part2_frame(p1, "updated_at"@);
        UserType::lemma_parse_str(a.user_type);
        UserStatus::lemma_parse_str(a.status);
        lemma_parse_format_i32(a.failed_login_attempts);
    }

    /// Whether a text passes the basic e-mail check: it holds an `@` and a `.`.
    pub open spec fn spec_email_shaped(s: Seq<char>) -> bool {
        s.contains('@') && s.contains('.')
    }

    /// Which check, if any, the arguments of `new` fail, in the order they are made.
    pub open spec fn spec_new_error(
        username: Seq<char>,
        email: Seq<char>,
        first_name: Seq<char>,
        last_name: Seq<char>,
        secondary_email: Option<Seq<char>>,
        user_type: Seq<char>,
        status: Seq<char>,
    ) -> Option<Seq<char>> {
        if is_blank_spec(username) {
            Some("Username cannot be empty"@)
        } else if is_blank_spec(email) {
            Some("Email cannot be empty"@)
        } else if is_blank_spec(first_name) {
            Some("First name cannot be empty"@)
        } else if is_blank_spec(last_name) {
            Some("Last name cannot be empty"@)
        } else if !Self::spec_email_shaped(email) {
            Some("Invalid email format"@)
        } else if secondary_email matches Some(s) && !is_blank_spec(s) && !Self::spec_email_shaped(s) {
            Some("Invalid secondary email format"@)
        } else if UserType::spec_parse(user_type) is None {
            Some("Invalid user type"@)
        } else if UserStatus::spec_parse(status) is None {
            Some("Invalid user status"@)
        } else {
            None
        }
    }

    /// Whether a text passes the basic e-mail check.
    pub fn email_shaped(s: &str) -> (res: bool)
        ensures
            res == Self::spec_email_shaped(s@),
    {
        contains_char(s, '@') && contains_char(s, '.')
    }

    /// Creates a user; the password counts as changed when the user is created.
    /// The certification levels, emergency contact, address and metadata are JSON texts.
    pub fn new(
        id: String,
        username: String,
        email: String,
        first_name: String,
        last_name: String,
        display_name: Option<String>,
        user_type: String,
        status: String,
        primary_role_id: Option<String>,
        department: Option<String>,
        job_title: Option<String>,
        manager_id: Option<String>,
        contact_number: Option<String>,
        secondary_email: Option<String>,
        hire_date: Option<Timestamp>,
        certification_levels: String,
        profile_image_url: Option<String>,
        timezone: Option<String>,
        locale: Option<String>,
        emergency_contact: Option<String>,
        address: Option<String>,
        employee_id: Option<String>,
        cost_center: Option<String>,
        security_clearance: Option<String>,
        notes: Option<String>,
        metadata: Option<String>,
        created_by: Option<String>,
    ) -> (res: Result<Self, AppError>)
        ensures
            match Self::spec_new_error(username@, email@, first_name@, last_name@, opt_view(secondary_email),
                user_type@, status@) {
                Some(m) => is_validation_error(res, m),
                None => res matches Ok(u) && {
                    &&& u.id == id && u.username == username && u.email == email
                    &&& u.first_name == first_name && u.last_name == last_name && u.display_name == display_name
                    &&& Some(u.user_type) == UserType::spec_parse(user_type@)
                    &&& Some(u.status) == UserStatus::spec_parse(status@)
                    &&& u.primary_role_id == primary_role_id && u.department == department
                    &&& u.job_title == job_title && u.manager_id == manager_id
                    &&& u.contact_number == contact_number && u.secondary_email == secondary_email
                    &&& u.hire_date == hire_date && u.termination_date is None && u.last_login_at is None
                    &&& u.password_changed_at == Some(u.created_at) && u.failed_login_attempts == 0
                    &&& u.account_locked_until is None && u.certification_levels == certification_levels
                    &&& u.profile_image_url == profile_image_url && u.timezone == timezone && u.locale == locale
                    &&& u.emergency_contact == emergency_contact && u.address == address
                    &&& u.employee_id == employee_id && u.cost_center == cost_center
                    &&& u.security_clearance == security_clearance && u.notes == notes
                    &&& u.metadata == metadata && u.created_by == created_by
                    &&& u.created_at == u.updated_at && u.created_at.valid()
                },
            },
            res matches Ok(x) ==> (x.readback_conditions() <==> (json_canonical(certification_levels@) == Some(certification_levels@) && (emergency_contact matches Some(j) ==> json_canonical(j@) == Some(j@)) && (address matches Some(j) ==> json_canonical(j@) == Some(j@)) && (metadata matches Some(j) ==> json_canonical(j@) == Some(j@)))),
            res matches Ok(x) ==> !is_blank_spec(x.username@) && !is_blank_spec(x.email@) && !is_blank_spec(x.first_name@) && !is_blank_spec(x.last_name@),
    {
        let now = now();
        if is_blank(username.as_str()) {
            return Err(AppError::ValidationError("Username cannot be empty".to_owned()));
        }
        if is_blank(email.as_str()) {
            return Err(AppError::ValidationError("Email cannot be empty".to_owned()));
        }
        if is_blank(first_name.as_str()) {
            return Err(AppError::ValidationError("First name cannot be empty".to_owned()));
        }
        if is_blank(last_name.as_str()) {
            return Err(AppError::ValidationError("Last name cannot be empty".to_owned()));
        }
        if !Self::email_shaped(email.as_str()) {
            return Err(AppError::ValidationError("Invalid email format".to_owned()));
        }
        if let Some(sec_email) = &secondary_email {
            if !is_blank(sec_email.as_str()) && !Self::email_shaped(sec_email.as_str()) {
                return Err(AppError::ValidationError("Invalid secondary email format".to_owned()));
            }
        }
        let user_type_enum = UserType::from_string(user_type.as_str())?;
        let status_enum = UserStatus::from_string(status.as_str())?;
        Ok(User {
            id,
            username,
            email,
            first_name,
            last_name,
            display_name,
            user_type: user_type_enum,
            status: status_enum,
            primary_role_id,
            department,
            job_title,
            manager_id,
            contact_number,
            secondary_email,
            hire_date,
            termination_date: None,
            last_login_at: None,
            password_changed_at: Some(now),
            failed_login_attempts: 0,
            account_locked_until: None,
            certification_levels,
            profile_image_url,
            timezone,
            locale,
            emergency_contact,
            address,
            employee_id,
            cost_center,
            security_clearance,
            notes,
            metadata,
            created_by,
            created_at: now,
            updated_at: now,
        })
    }

    /// The first and last name with a space between them.
    pub fn full_name(&self) -> (res: String)
        ensures
            res@ == self.first_name@ + " "@ + self.last_name@,
    {
        proof {
            reveal_strlit(" ");
        }
        let head = join_text(self.first_name.as_str(), " ");
        join_text(head.as_str(), self.last_name.as_str())
    }

    /// The display name where one is set, else the full name.
    pub fn effective_display_name(&self) -> (res: String)
        ensures
            res@ == (match self.display_name {
                Some(d) => d@,
                None => self.first_name@ + " "@ + self.last_name@,
            }),
    {
        match &self.display_name {
            Some(d) => d.clone(),
            None => self.full_name(),
        }
    }

    /// Whether the account is locked at `now`: a lock is set that lasts past `now`.
    pub open spec fn spec_locked_at(&self, now: Timestamp) -> bool {
        self.account_locked_until matches Some(l) && now.precedes(l)
    }

    /// Without a lock no account is locked; with one, it is locked exactly
    /// at the instants before its end, and a lock in force at some instant
    /// was in force at every earlier one.
    pub proof fn lemma_lock_window(u: &User, now: Timestamp, earlier: Timestamp)
        ensures
            u.account_locked_until is None ==> !u.spec_locked_at(now),
            u.account_locked_until matches Some(l) ==> (u.spec_locked_at(now) <==> (now.secs < l.secs || (now.secs == l.secs && now.nanos < l.nanos))),
            u.spec_locked_at(now) && !(now.secs < earlier.secs || (now.secs == earlier.secs && now.nanos < earlier.nanos)) ==> u.spec_locked_at(earlier),
            u.spec_active_at(now) ==> u.status == UserStatus::Active,
            u.status == UserStatus::Active && u.account_locked_until is None ==> u.spec_active_at(now),
    {
    }

    pub fn is_account_locked_at(&self, now: &Timestamp) -> (res: bool)
        ensures
            res == self.spec_locked_at(*now),
            self.account_locked_until is None ==> !res,
            self.account_locked_until matches Some(l) ==> (res <==> (now.secs < l.secs || (now.secs == l.secs && now.nanos < l.nanos))),
    {
        match &self.account_locked_until {
            Some(l) => now.is_before(l),
            None => false,
        }
    }

    /// Whether the account is locked now.
    pub fn is_account_locked(&self) -> (res: bool)
        ensures
            exists|t: Timestamp| t.valid() && res == self.spec_locked_at(t),
    {
        let t = now();
        self.is_account_locked_at(&t)
    }

    /// Whether the user is active at `now`: of active status and not locked out.
    pub open spec fn spec_active_at(&self, now: Timestamp) -> bool {
        self.status == UserStatus::Active && !self.spec_locked_at(now)
    }

    pub fn is_active_at(&self, now: &Timestamp) -> (res: bool)
        ensures
            res == self.spec_active_at(*now),
            res ==> self.status == UserStatus::Active,
            self.status == UserStatus::Active && self.account_locked_until is None ==> res,
    {
        self.status == UserStatus::Active && !self.is_account_locked_at(now)
    }

    /// Whether the user is active now.
    pub fn is_active(&self) -> (res: bool)
        ensures
            exists|t: Timestamp| t.valid() && res == self.spec_active_at(t),
    {
        let t = now();
        self.is_active_at(&t)
    }

    /// Whether the user is terminated: by status, or by a termination date.
    pub fn is_terminated(&self) -> (res: bool)
        ensures
            res == (self.status == UserStatus::Terminated || self.termination_date is Some),
    {
        self.status == UserStatus::Terminated || self.termination_date.is_some()
    }

    /// Records a successful login: the failed attempts are forgotten and any lock is lifted.
    pub fn record_login(&mut self)
        ensures
            *final(self) == (User {
                last_login_at: final(self).last_login_at,
                failed_login_attempts: 0,
                account_locked_until: None,
                updated_at: final(self).updated_at,
                ..*old(self)
            }),
            some_valid(final(self).last_login_at),
            final(self).updated_at.valid(),
    {
        self.last_login_at = Some(now());
        self.failed_login_attempts = 0;
        self.account_locked_until = None;
        self.updated_at = now();
    }

    /// Whether a lockout of `minutes` from `now` can be computed: the seconds fit
    /// in an `i64` and the end lies in `chrono`'s range.
    pub open spec fn lockout_fits(now: Timestamp, minutes: i64) -> bool {
        &&& i64::MIN <= minutes * 60 <= i64::MAX
        &&& now.can_add_seconds(minutes * 60)
    }

    /// The end of a lockout of `minutes` from `now`.
    pub open spec fn spec_lockout_end(now: Timestamp, minutes: i64) -> Timestamp {
        Timestamp {
            secs: now.spec_plus_seconds(minutes * 60).0 as i64,
            nanos: now.spec_plus_seconds(minutes * 60).1 as u32,
        }
    }

    /// The user after a failed login recorded at `now`.
    pub open spec fn spec_after_failed_login(self, now: Timestamp, max_attempts: i32, lockout_duration_minutes: i64) -> User {
        User {
            failed_login_attempts: (self.failed_login_attempts + 1) as i32,
            account_locked_until: if self.failed_login_attempts + 1 >= max_attempts {
                Some(Self::spec_lockout_end(now, lockout_duration_minutes))
            } else {
                self.account_locked_until
            },
            updated_at: now,
            ..self
        }
    }

    /// Whether a failed login at `now` can be recorded: below the limit always;
    /// at the limit where the lockout from `now` can be computed.
    pub open spec fn failed_login_recordable(self, now: Timestamp, max_attempts: i32, lockout_duration_minutes: i64) -> bool {
        self.failed_login_attempts + 1 < max_attempts || Self::lockout_fits(now, lockout_duration_minutes)
    }

    /// Records a failed login at `now`; reaching `max_attempts` locks the account
    /// for `lockout_duration_minutes` from `now`. Where that lockout cannot be
    /// computed (`chrono` would panic on it), nothing is
    /// recorded and the result is `false`.
    pub fn record_failed_login_at(&mut self, now: &Timestamp, max_attempts: i32, lockout_duration_minutes: i64) -> (recorded: bool)
        requires
            old(self).failed_login_attempts < i32::MAX,
            now.valid(),
        ensures
            recorded == old(self).failed_login_recordable(*now, max_attempts, lockout_duration_minutes),
            recorded ==> *final(self) == old(self).spec_after_failed_login(*now, max_attempts, lockout_duration_minutes),
            !recorded ==> *final(self) == *old(self),
    {
        if self.failed_login_attempts + 1 >= max_attempts {
            let fits = match lockout_duration_minutes.checked_mul(60) {
                Some(k) => now.can_add(k),
                None => false,
            };
            if !fits {
                return false;
            }
        }
        self.failed_login_attempts = self.failed_login_attempts + 1;
        if self.failed_login_attempts >= max_attempts {
            let end = now.plus_seconds(lockout_duration_minutes * 60);
            self.account_locked_until = Some(end);
        }
        self.updated_at = *now;
        true
    }

    /// Records a failed login now (see `record_failed_login_at`): below the
    /// limit, or with a lockout of no minutes, it is always recorded; with a
    /// lockout whose seconds do not fit an `i64`, never at the limit.
    pub fn record_failed_login(&mut self, max_attempts: i32, lockout_duration_minutes: i64) -> (recorded: bool)
        requires
            old(self).failed_login_attempts < i32::MAX,
        ensures
            exists|t: Timestamp| t.valid()
                && recorded == old(self).failed_login_recordable(t, max_attempts, lockout_duration_minutes)
                && (recorded ==> *final(self) == old(self).spec_after_failed_login(t, max_attempts, lockout_duration_minutes)),
            !recorded ==> *final(self) == *old(self),
            old(self).failed_login_attempts + 1 < max_attempts || lockout_duration_minutes == 0 ==> recorded,
            old(self).failed_login_attempts + 1 >= max_attempts
                && !(i64::MIN <= lockout_duration_minutes * 60 <= i64::MAX) ==> !recorded,
    {
        let t = now();
        self.record_failed_login_at(&t, max_attempts, lockout_duration_minutes)
    }

    /// Lifts any lock and forgets the failed attempts.
    pub fn unlock_account(&mut self)
        ensures
            *final(self) == (User {
                failed_login_attempts: 0,
                account_locked_until: None,
                updated_at: final(self).updated_at,
                ..*old(self)
            }),
            final(self).updated_at.valid(),
    {
        self.failed_login_attempts = 0;
        self.account_locked_until = None;
        self.updated_at = now();
    }

    /// The notes after a suspension for `reason`: the reason is appended to the notes.
    pub open spec fn spec_suspension_notes(notes: Option<String>, reason: Seq<char>) -> Seq<char> {
        (match notes {
            Some(n) => n@,
            None => Seq::empty(),
        }) + "; SUSPENDED: "@ + reason
    }

    /// Suspends a user that is not terminated; a reason is appended to the notes.
    pub fn suspend(&mut self, reason: Option<String>) -> (res: Result<(), AppError>)
        ensures
            old(self).status == UserStatus::Terminated ==> *final(self) == *old(self)
                && is_validation_error(res, "Cannot suspend terminated user"@),
            old(self).status != UserStatus::Terminated ==> res is Ok && *final(self) == (User {
                status: UserStatus::Suspended,
                notes: final(self).notes,
                updated_at: final(self).updated_at,
                ..*old(self)
            }) && final(self).updated_at.valid() && match reason {
                Some(r) => final(self).notes matches Some(n) && n@ == Self::spec_suspension_notes(old(self).notes, r@),
                None => final(self).notes == old(self).notes,
            },
    {
        if self.status == UserStatus::Terminated {
            return Err(AppError::ValidationError("Cannot suspend terminated user".to_owned()));
        }
        self.status = UserStatus::Suspended;
        if let Some(reason_text) = reason {
            let current = match &self.notes {
                Some(n) => n.clone(),
                None => String::new(),
            };
            proof {
                reveal_strlit("; SUSPENDED: ");
            }
            let head = join_text(current.as_str(), "; SUSPENDED: ");
            self.notes = Some(join_text(head.as_str(), reason_text.as_str()));
        }
        self.updated_at = now();
        Ok(())
    }

    /// Reactivates a suspended or inactive user, lifting any lock.
    pub fn reactivate(&mut self) -> (res: Result<(), AppError>)
        ensures
            ({
                let ok = old(self).status == UserStatus::Suspended || old(self).status == UserStatus::Inactive;
                &&& ok ==> res is Ok && *final(self) == (User {
                    status: UserStatus::Active,
                    failed_login_attempts: 0,
                    account_locked_until: None,
                    updated_at: final(self).updated_at,
                    ..*old(self)
                }) && final(self).updated_at.valid()
                &&& !ok ==> *final(self) == *old(self)
                    && is_validation_error(res, "Only suspended or inactive users can be reactivated"@)
            }),
    {
        if !(self.status == UserStatus::Suspended || self.status == UserStatus::Inactive) {
            return Err(AppError::ValidationError("Only suspended or inactive users can be reactivated".to_owned()));
        }
        self.status = UserStatus::Active;
        self.failed_login_attempts = 0;
        self.account_locked_until = None;
        self.updated_at = now();
        Ok(())
    }

    /// Terminates a user; without a date, the termination dates from now.
    pub fn terminate(&mut self, termination_date: Option<Timestamp>) -> (res: Result<(), AppError>)
        ensures
            old(self).status == UserStatus::Terminated ==> *final(self) == *old(self)
                && is_validation_error(res, "User is already terminated"@),
            old(self).status != UserStatus::Terminated ==> res is Ok && *final(self) == (User {
                status: UserStatus::Terminated,
                termination_date: final(self).termination_date,
                updated_at: final(self).updated_at,
                ..*old(self)
            }) && final(self).updated_at.valid() && match termination_date {
                Some(d) => final(self).termination_date == Some(d),
                None => some_valid(final(self).termination_date),
            },
    {
        if self.status == UserStatus::Terminated {
            return Err(AppError::ValidationError("User is already terminated".to_owned()));
        }
        self.status = UserStatus::Terminated;
        self.termination_date = match termination_date {
            Some(d) => Some(d),
            None => Some(now()),
        };
        self.updated_at = now();
        Ok(())
    }

    /// Records that the password was just changed.
    pub fn record_password_change(&mut self)
        ensures
            *final(self) == (User {
                password_changed_at: final(self).password_changed_at,
                updated_at: final(self).updated_at,
                ..*old(self)
            }),
            some_valid(final(self).password_changed_at),
            final(self).updated_at.valid(),
    {
        self.password_changed_at = Some(now());
        self.updated_at = now();
    }

    /// A lockout of a positive number of minutes locks the account at the
    /// instant of the attempt that set it.
    pub proof fn lemma_lockout_locks_now(u: &User, now: Timestamp, minutes: i64)
        requires
            minutes > 0,
            u.account_locked_until == Some(Self::spec_lockout_end(now, minutes)),
            Self::lockout_fits(now, minutes),
        ensures
            u.spec_locked_at(now),
    {
    }

    /// Without a lock, a user of active status is active at every instant.
    pub proof fn lemma_unlocked_active(u: &User, t: Timestamp)
        requires
            u.status == UserStatus::Active,
            u.account_locked_until is None,
        ensures
            u.spec_active_at(t),
    {
    }

}

proof fn lemma_keys_distinct_0_0()
    ensures
        "id"@ != "username"@,
        "id"@ != "email"@,
        "id"@ != "first_name"@,
        "id"@ != "last_name"@,
        "id"@ != "display_name"@,
        "id"@ != "user_type"@,
        "id"@ != "status"@,
        "id"@ != "primary_role_id"@,
        "id"@ != "department"@,
        "id"@ != "job_title"@,
        "id"@ != "manager_id"@,
        "username"@ != "email"@,
        "username"@ != "first_name"@,
        "username"@ != "last_name"@,
        "username"@ != "display_name"@,
        "username"@ != "user_type"@,
        "username"@ != "status"@,
        "username"@ != "primary_role_id"@,
        "username"@ != "department"@,
        "username"@ != "job_title"@,
        "username"@ != "manager_id"@,
        "email"@ != "first_name"@,
        "email"@ != "last_name"@,
        "email"@ != "display_name"@,
        "email"@ != "user_type"@,
        "email"@ != "status"@,
        "email"@ != "primary_role_id"@,
        "email"@ != "department"@,
        "email"@ != "job_title"@,
        "email"@ != "manager_id"@,
        "first_name"@ != "last_name"@,
        "first_name"@ != "display_name"@,
        "first_name"@ != "user_type"@,
        "first_name"@ != "status"@,
        "first_name"@ != "primary_role_id"@,
        "first_name"@ != "department"@,
        "first_name"@ != "job_title"@,
        "first_name"@ != "manager_id"@,
        "last_name"@ != "display_name"@,
        "last_name"@ != "user_type"@,
        "last_name"@ != "status"@,
        "last_name"@ != "primary_role_id"@,
        "last_name"@ != "department"@,
        "last_name"@ != "job_title"@,
        "last_name"@ != "manager_id"@,
        "display_name"@ != "user_type"@,
        "display_name"@ != "status"@,
        "display_name"@ != "primary_role_id"@,
        "display_name"@ != "department"@,
        "display_name"@ != "job_title"@,
        "display_name"@ != "manager_id"@,
        "user_type"@ != "status"@,
        "user_type"@ != "primary_role_id"@,
        "user_type"@ != "department"@,
        "user_type"@ != "job_title"@,
        "user_type"@ != "manager_id"@,
        "status"@ != "primary_role_id"@,
        "status"@ != "department"@,
        "status"@ != "job_title"@,
        "status"@ != "manager_id"@,
        "primary_role_id"@ != "department"@,
        "primary_role_id"@ != "job_title"@,
        "primary_role_id"@ != "manager_id"@,
        "department"@ != "job_title"@,
        "department"@ != "manager_id"@,
        "job_title"@ != "manager_id"@,
{
    broadcast use vstd::string::group_string_axioms;
    reveal_strlit("id");
    reveal_strlit("username");
    reveal_strlit("email");
    reveal_strlit("first_name");
    reveal_strlit("last_name");
    reveal_strlit("display_name");
    reveal_strlit("user_type");
    reveal_strlit("status");
    reveal_strlit("primary_role_id");
    reveal_strlit("department");
    reveal_strlit("job_title");
    reveal_strlit("manager_id");
    assert("id"@.len() == 2);
    assert("username"@.len() == 8);
    assert("email"@.len() == 5);
    assert("first_name"@.len() == 10);
    assert("last_name"@.len() == 9);
    assert("display_name"@.len() == 12);
    assert("user_type"@.len() == 9);
    assert("status"@.len() == 6);
    assert("primary_role_id"@.len() == 15);
    assert("department"@.len() == 10);
    assert("job_title"@.len() == 9);
    assert("manager_id"@.len() == 10);
    assert("first_name"@[0] != "department"@[0]);
    assert("first_name"@[0] != "manager_id"@[0]);
    assert("last_name"@[0] != "user_type"@[0]);
    assert("last_name"@[0] != "job_title"@[0]);
    assert("user_type"@[0] != "job_title"@[0]);
    assert("department"@[0] != "manager_id"@[0]);
}

proof fn lemma_keys_distinct_0_1()
    ensures
        "id"@ != "contact_number"@,
        "id"@ != "secondary_email"@,
        "id"@ != "hire_date"@,
        "id"@ != "termination_date"@,
        "id"@ != "last_login_at"@,
        "id"@ != "password_changed_at"@,
        "id"@ != "failed_login_attempts"@,
        "id"@ != "account_locked_until"@,
        "id"@ != "certification_levels"@,
        "id"@ != "profile_image_url"@,
        "id"@ != "timezone"@,
        "id"@ != "locale"@,
        "username"@ != "contact_number"@,
        "username"@ != "secondary_email"@,
        "username"@ != "hire_date"@,
        "username"@ != "termination_date"@,
        "username"@ != "last_login_at"@,
        "username"@ != "password_changed_at"@,
        "username"@ != "failed_login_attempts"@,
        "username"@ != "account_locked_until"@,
        "username"@ != "certification_levels"@,
        "username"@ != "profile_image_url"@,
        "username"@ != "timezone"@,
        "username"@ != "locale"@,
        "email"@ != "contact_number"@,
        "email"@ != "secondary_email"@,
        "email"@ != "hire_date"@,
        "email"@ != "termination_date"@,
        "email"@ != "last_login_at"@,
        "email"@ != "password_changed_at"@,
        "email"@ != "failed_login_attempts"@,
        "email"@ != "account_locked_until"@,
        "email"@ != "certification_levels"@,
        "email"@ != "profile_image_url"@,
        "email"@ != "timezone"@,
        "email"@ != "locale"@,
        "first_name"@ != "contact_number"@,
        "first_name"@ != "secondary_email"@,
        "first_name"@ != "hire_date"@,
        "first_name"@ != "termination_date"@,
        "first_name"@ != "last_login_at"@,
        "first_name"@ != "password_changed_at"@,
        "first_name"@ != "failed_login_attempts"@,
        "first_name"@ != "account_locked_until"@,
        "first_name"@ != "certification_levels"@,
        "first_name"@ != "profile_image_url"@,
        "first_name"@ != "timezone"@,
        "first_name"@ != "locale"@,
        "last_name"@ != "contact_number"@,
        "last_name"@ != "secondary_email"@,
        "last_name"@ != "hire_date"@,
        "last_name"@ != "termination_date"@,
        "last_name"@ != "last_login_at"@,
        "last_name"@ != "password_changed_at"@,
        "last_name"@ != "failed_login_attempts"@,
        "last_name"@ != "account_locked_until"@,
        "last_name"@ != "certification_levels"@,
        "last_name"@ != "profile_image_url"@,
        "last_name"@ != "timezone"@,
        "last_name"@ != "locale"@,
        "display_name"@ != "contact_number"@,
        "display_name"@ != "secondary_email"@,
        "display_name"@ != "hire_date"@,
        "display_name"@ != "termination_date"@,
        "display_name"@ != "last_login_at"@,
        "display_name"@ != "password_changed_at"@,
        "display_name"@ != "failed_login_attempts"@,
        "display_name"@ != "account_locked_until"@,
        "display_name"@ != "certification_levels"@,
        "display_name"@ != "profile_image_url"@,
        "display_name"@ != "timezone"@,
        "display_name"@ != "locale"@,
        "user_type"@ != "contact_number"@,
        "user_type"@ != "secondary_email"@,
        "user_type"@ != "hire_date"@,
        "user_type"@ != "termination_date"@,
        "user_type"@ != "last_login_at"@,
        "user_type"@ != "password_changed_at"@,
        "user_type"@ != "failed_login_attempts"@,
        "user_type"@ != "account_locked_until"@,
        "user_type"@ != "certification_levels"@,
        "user_type"@ != "profile_image_url"@,
        "user_type"@ != "timezone"@,
        "user_type"@ != "locale"@,
        "status"@ != "contact_number"@,
        "status"@ != "secondary_email"@,
        "status"@ != "hire_date"@,
        "status"@ != "termination_date"@,
        "status"@ != "last_login_at"@,
        "status"@ != "password_changed_at"@,
        "status"@ != "failed_login_attempts"@,
        "status"@ != "account_locked_until"@,
        "status"@ != "certification_levels"@,
        "status"@ != "profile_image_url"@,
        "status"@ != "timezone"@,
        "status"@ != "locale"@,
        "primary_role_id"@ != "contact_number"@,
        "primary_role_id"@ != "secondary_email"@,
        "primary_role_id"@ != "hire_date"@,
        "primary_role_id"@ != "termination_date"@,
        "primary_role_id"@ != "last_login_at"@,
        "primary_role_id"@ != "password_changed_at"@,
        "primary_role_id"@ != "failed_login_attempts"@,
        "primary_role_id"@ != "account_locked_until"@,
        "primary_role_id"@ != "certification_levels"@,
        "primary_role_id"@ != "profile_image_url"@,
        "primary_role_id"@ != "timezone"@,
        "primary_role_id"@ != "locale"@,
        "department"@ != "contact_number"@,
        "department"@ != "secondary_email"@,
        "department"@ != "hire_date"@,
        "department"@ != "termination_date"@,
        "department"@ != "last_login_at"@,
        "department"@ != "password_changed_at"@,
        "department"@ != "failed_login_attempts"@,
        "department"@ != "account_locked_until"@,
        "department"@ != "certification_levels"@,
        "department"@ != "profile_image_url"@,
        "department"@ != "timezone"@,
        "department"@ != "locale"@,
        "job_title"@ != "contact_number"@,
        "job_title"@ != "secondary_email"@,
        "job_title"@ != "hire_date"@,
        "job_title"@ != "termination_date"@,
        "job_title"@ != "last_login_at"@,
        "job_title"@ != "password_changed_at"@,
        "job_title"@ != "failed_login_attempts"@,
        "job_title"@ != "account_locked_until"@,
        "job_title"@ != "certification_levels"@,
        "job_title"@ != "profile_image_url"@,
        "job_title"@ != "timezone"@,
        "job_title"@ != "locale"@,
        "manager_id"@ != "contact_number"@,
        "manager_id"@ != "secondary_email"@,
        "manager_id"@ != "hire_date"@,
        "manager_id"@ != "termination_date"@,
        "manager_id"@ != "last_login_at"@,
        "manager_id"@ != "password_changed_at"@,
        "manager_id"@ != "failed_login_attempts"@,
        "manager_id"@ != "account_locked_until"@,
        "manager_id"@ != "certification_levels"@,
        "manager_id"@ != "profile_image_url"@,
        "manager_id"@ != "timezone"@,
        "manager_id"@ != "locale"@,
{
    broadcast use vstd::string::group_string_axioms;
    reveal_strlit("id");
    reveal_strlit("username");
    reveal_strlit("email");
    reveal_strlit("first_name");
    reveal_strlit("last_name");
    reveal_strlit("display_name");
    reveal_strlit("user_type");
    reveal_strlit("status");
    reveal_strlit("primary_role_id");
    reveal_strlit("department");
    reveal_strlit("job_title");
    reveal_strlit("manager_id");
    reveal_strlit("contact_number");
    reveal_strlit("secondary_email");
    reveal_strlit("hire_date");
    reveal_strlit("termination_date");
    reveal_strlit("last_login_at");
    reveal_strlit("password_changed_at");
    reveal_strlit("failed_login_attempts");
    reveal_strlit("account_locked_until");
    reveal_strlit("certification_levels");
    reveal_strlit("profile_image_url");
    reveal_strlit("timezone");
    reveal_strlit("locale");
    assert("id"@.len() == 2);
    assert("username"@.len() == 8);
    assert("email"@.len() == 5);
    assert("first_name"@.len() == 10);
    assert("last_name"@.len() == 9);
    assert("display_name"@.len() == 12);
    assert("user_type"@.len() == 9);
    assert("status"@.len() == 6);
    assert("primary_role_id"@.len() == 15);
    assert("department"@.len() == 10);
    assert("job_title"@.len() == 9);
    assert("manager_id"@.len() == 10);
    assert("contact_number"@.len() == 14);
    assert("secondary_email"@.len() == 15);
    assert("hire_date"@.len() == 9);
    assert("termination_date"@.len() == 16);
    assert("last_login_at"@.len() == 13);
    assert("password_changed_at"@.len() == 19);
    assert("failed_login_attempts"@.len() == 21);
    assert("account_locked_until"@.len() == 20);
    assert("certification_levels"@.len() == 20);
    assert("profile_image_url"@.len() == 17);
    assert("timezone"@.len() == 8);
    assert("locale"@.len() == 6);
    assert("username"@[0] != "timezone"@[0]);
    assert("last_name"@[0] != "hire_date"@[0]);
    assert("user_type"@[0] != "hire_date"@[0]);
    assert("status"@[0] != "locale"@[0]);
    assert("primary_role_id"@[0] != "secondary_email"@[0]);
    assert("job_title"@[0] != "hire_date"@[0]);
}

proof fn lemma_keys_distinct_0_2()
    ensures
        "id"@ != "emergency_contact"@,
        "id"@ != "address"@,
        "id"@ != "employee_id"@,
        "id"@ != "cost_center"@,
        "id"@ != "security_clearance"@,
        "id"@ != "notes"@,
        "id"@ != "metadata"@,
        "id"@ != "created_by"@,
        "id"@ != "created_at"@,
        "id"@ != "updated_at"@,
        "username"@ != "emergency_contact"@,
        "username"@ != "address"@,
        "username"@ != "employee_id"@,
        "username"@ != "cost_center"@,
        "username"@ != "security_clearance"@,
        "username"@ != "notes"@,
        "username"@ != "metadata"@,
        "username"@ != "created_by"@,
        "username"@ != "created_at"@,
        "username"@ != "updated_at"@,
        "email"@ != "emergency_contact"@,
        "email"@ != "address"@,
        "email"@ != "employee_id"@,
        "email"@ != "cost_center"@,
        "email"@ != "security_clearance"@,
        "email"@ != "notes"@,
        "email"@ != "metadata"@,
        "email"@ != "created_by"@,
        "email"@ != "created_at"@,
        "email"@ != "updated_at"@,
        "first_name"@ != "emergency_contact"@,
        "first_name"@ != "address"@,
        "first_name"@ != "employee_id"@,
        "first_name"@ != "cost_center"@,
        "first_name"@ != "security_clearance"@,
        "first_name"@ != "notes"@,
        "first_name"@ != "metadata"@,
        "first_name"@ != "created_by"@,
        "first_name"@ != "created_at"@,
        "first_name"@ != "updated_at"@,
        "last_name"@ != "emergency_contact"@,
        "last_name"@ != "address"@,
        "last_name"@ != "employee_id"@,
        "last_name"@ != "cost_center"@,
        "last_name"@ != "security_clearance"@,
        "last_name"@ != "notes"@,
        "last_name"@ != "metadata"@,
        "last_name"@ != "created_by"@,
        "last_name"@ != "created_at"@,
        "last_name"@ != "updated_at"@,
        "display_name"@ != "emergency_contact"@,
        "display_name"@ != "address"@,
        "display_name"@ != "employee_id"@,
        "display_name"@ != "cost_center"@,
        "display_name"@ != "security_clearance"@,
        "display_name"@ != "notes"@,
        "display_name"@ != "metadata"@,
        "display_name"@ != "created_by"@,
        "display_name"@ != "created_at"@,
        "display_name"@ != "updated_at"@,
        "user_type"@ != "emergency_contact"@,
        "user_type"@ != "address"@,
        "user_type"@ != "employee_id"@,
        "user_type"@ != "cost_center"@,
        "user_type"@ != "security_clearance"@,
        "user_type"@ != "notes"@,
        "user_type"@ != "metadata"@,
        "user_type"@ != "created_by"@,
        "user_type"@ != "created_at"@,
        "user_type"@ != "updated_at"@,
        "status"@ != "emergency_contact"@,
        "status"@ != "address"@,
        "status"@ != "employee_id"@,
        "status"@ != "cost_center"@,
        "status"@ != "security_clearance"@,
        "status"@ != "notes"@,
        "status"@ != "metadata"@,
        "status"@ != "created_by"@,
        "status"@ != "created_at"@,
        "status"@ != "updated_at"@,
        "primary_role_id"@ != "emergency_contact"@,
        "primary_role_id"@ != "address"@,
        "primary_role_id"@ != "employee_id"@,
        "primary_role_id"@ != "cost_center"@,
        "primary_role_id"@ != "security_clearance"@,
        "primary_role_id"@ != "notes"@,
        "primary_role_id"@ != "metadata"@,
        "primary_role_id"@ != "created_by"@,
        "primary_role_id"@ != "created_at"@,
        "primary_role_id"@ != "updated_at"@,
        "department"@ != "emergency_contact"@,
        "department"@ != "address"@,
        "department"@ != "employee_id"@,
        "department"@ != "cost_center"@,
        "department"@ != "security_clearance"@,
        "department"@ != "notes"@,
        "department"@ != "metadata"@,
        "department"@ != "created_by"@,
        "department"@ != "created_at"@,
        "department"@ != "updated_at"@,
        "job_title"@ != "emergency_contact"@,
        "job_title"@ != "address"@,
        "job_title"@ != "employee_id"@,
        "job_title"@ != "cost_center"@,
        "job_title"@ != "security_clearance"@,
        "job_title"@ != "notes"@,
        "job_title"@ != "metadata"@,
        "job_title"@ != "created_by"@,
        "job_title"@ != "created_at"@,
        "job_title"@ != "updated_at"@,
        "manager_id"@ != "emergency_contact"@,
        "manager_id"@ != "address"@,
        "manager_id"@ != "employee_id"@,
        "manager_id"@ != "cost_center"@,
        "manager_id"@ != "security_clearance"@,
        "manager_id"@ != "notes"@,
        "manager_id"@ != "metadata"@,
        "manager_id"@ != "created_by"@,
        "manager_id"@ != "created_at"@,
        "manager_id"@ != "updated_at"@,
{
    broadcast use vstd::string::group_string_axioms;
    reveal_strlit("id");
    reveal_strlit("username");
    reveal_strlit("email");
    reveal_strlit("first_name");
    reveal_strlit("last_name");
    reveal_strlit("display_name");
    reveal_strlit("user_type");
    reveal_strlit("status");
    reveal_strlit("primary_role_id");
    reveal_strlit("department");
    reveal_strlit("job_title");
    reveal_strlit("manager_id");
    reveal_strlit("emergency_contact");
    reveal_strlit("address");
    reveal_strlit("employee_id");
    reveal_strlit("cost_center");
    reveal_strlit("security_clearance");
    reveal_strlit("notes");
    reveal_strlit("metadata");
    reveal_strlit("created_by");
    reveal_strlit("created_at");
    reveal_strlit("updated_at");
    assert("id"@.len() == 2);
    assert("username"@.len() == 8);
    assert("email"@.len() == 5);
    assert("first_name"@.len() == 10);
    assert("last_name"@.len() == 9);
    assert("display_name"@.len() == 12);
    assert("user_type"@.len() == 9);
    assert("status"@.len() == 6);
    assert("primary_role_id"@.len() == 15);
    assert("department"@.len() == 10);
    assert("job_title"@.len() == 9);
    assert("manager_id"@.len() == 10);
    assert("emergency_contact"@.len() == 17);
    assert("address"@.len() == 7);
    assert("employee_id"@.len() == 11);
    assert("cost_center"@.len() == 11);
    assert("security_clearance"@.len() == 18);
    assert("notes"@.len() == 5);
    assert("metadata"@.len() == 8);
    assert("created_by"@.len() == 10);
    assert("created_at"@.len() == 10);
    assert("updated_at"@.len() == 10);
    assert("username"@[0] != "metadata"@[0]);
    assert("email"@[0] != "notes"@[0]);
    assert("first_name"@[0] != "created_by"@[0]);
    assert("first_name"@[0] != "created_at"@[0]);
    assert("first_name"@[0] != "updated_at"@[0]);
    assert("department"@[0] != "created_by"@[0]);
    assert("department"@[0] != "created_at"@[0]);
    assert("department"@[0] != "updated_at"@[0]);
    assert("manager_id"@[0] != "created_by"@[0]);
    assert("manager_id"@[0] != "created_at"@[0]);
    assert("manager_id"@[0] != "updated_at"@[0]);
}

proof fn lemma_keys_distinct_1_1()
    ensures
        "contact_number"@ != "secondary_email"@,
        "contact_number"@ != "hire_date"@,
        "contact_number"@ != "termination_date"@,
        "contact_number"@ != "last_login_at"@,
        "contact_number"@ != "password_changed_at"@,
        "contact_number"@ != "failed_login_attempts"@,
        "contact_number"@ != "account_locked_until"@,
        "contact_number"@ != "certification_levels"@,
        "contact_number"@ != "profile_image_url"@,
        "contact_number"@ != "timezone"@,
        "contact_number"@ != "locale"@,
        "secondary_email"@ != "hire_date"@,
        "secondary_email"@ != "termination_date"@,
        "secondary_email"@ != "last_login_at"@,
        "secondary_email"@ != "password_changed_at"@,
        "secondary_email"@ != "failed_login_attempts"@,
        "secondary_email"@ != "account_locked_until"@,
        "secondary_email"@ != "certification_levels"@,
        "secondary_email"@ != "profile_image_url"@,
        "secondary_email"@ != "timezone"@,
        "secondary_email"@ != "locale"@,
        "hire_date"@ != "termination_date"@,
        "hire_date"@ != "last_login_at"@,
        "hire_date"@ != "password_changed_at"@,
        "hire_date"@ != "failed_login_attempts"@,
        "hire_date"@ != "account_locked_until"@,
        "hire_date"@ != "certification_levels"@,
        "hire_date"@ != "profile_image_url"@,
        "hire_date"@ != "timezone"@,
        "hire_date"@ != "locale"@,
        "termination_date"@ != "last_login_at"@,
        "termination_date"@ != "password_changed_at"@,
        "termination_date"@ != "failed_login_attempts"@,
        "termination_date"@ != "account_locked_until"@,
        "termination_date"@ != "certification_levels"@,
        "termination_date"@ != "profile_image_url"@,
        "termination_date"@ != "timezone"@,
        "termination_date"@ != "locale"@,
        "last_login_at"@ != "password_changed_at"@,
        "last_login_at"@ != "failed_login_attempts"@,
        "last_login_at"@ != "account_locked_until"@,
        "last_login_at"@ != "certification_levels"@,
        "last_login_at"@ != "profile_image_url"@,
        "last_login_at"@ != "timezone"@,
        "last_login_at"@ != "locale"@,
        "password_changed_at"@ != "failed_login_attempts"@,
        "password_changed_at"@ != "account_locked_until"@,
        "password_changed_at"@ != "certification_levels"@,
        "password_changed_at"@ != "profile_image_url"@,
        "password_changed_at"@ != "timezone"@,
        "password_changed_at"@ != "locale"@,
        "failed_login_attempts"@ != "account_locked_until"@,
        "failed_login_attempts"@ != "certification_levels"@,
        "failed_login_attempts"@ != "profile_image_url"@,
        "failed_login_attempts"@ != "timezone"@,
        "failed_login_attempts"@ != "locale"@,
        "account_locked_until"@ != "certification_levels"@,
        "account_locked_until"@ != "profile_image_url"@,
        "account_locked_until"@ != "timezone"@,
        "account_locked_until"@ != "locale"@,
        "certification_levels"@ != "profile_image_url"@,
        "certification_levels"@ != "timezone"@,
        "certification_levels"@ != "locale"@,
        "profile_image_url"@ != "timezone"@,
        "profile_image_url"@ != "locale"@,
        "timezone"@ != "locale"@,
{
    broadcast use vstd::string::group_string_axioms;
    reveal_strlit("contact_number");
    reveal_strlit("secondary_email");
    reveal_strlit("hire_date");
    reveal_strlit("termination_date");
    reveal_strlit("last_login_at");
    reveal_strlit("password_changed_at");
    reveal_strlit("failed_login_attempts");
    reveal_strlit("account_locked_until");
    reveal_strlit("certification_levels");
    reveal_strlit("profile_image_url");
    reveal_strlit("timezone");
    reveal_strlit("locale");
    assert("contact_number"@.len() == 14);
    assert("secondary_email"@.len() == 15);
    assert("hire_date"@.len() == 9);
    assert("termination_date"@.len() == 16);
    assert("last_login_at"@.len() == 13);
    assert("password_changed_at"@.len() == 19);
    assert("failed_login_attempts"@.len() == 21);
    assert("account_locked_until"@.len() == 20);
    assert("certification_levels"@.len() == 20);
    assert("profile_image_url"@.len() == 17);
    assert("timezone"@.len() == 8);
    assert("locale"@.len() == 6);
    assert("account_locked_until"@[0] != "certification_levels"@[0]);
}

proof fn lemma_keys_distinct_1_2()
    ensures
        "contact_number"@ != "emergency_contact"@,
        "contact_number"@ != "address"@,
        "contact_number"@ != "employee_id"@,
        "contact_number"@ != "cost_center"@,
        "contact_number"@ != "security_clearance"@,
        "contact_number"@ != "notes"@,
        "contact_number"@ != "metadata"@,
        "contact_number"@ != "created_by"@,
        "contact_number"@ != "created_at"@,
        "contact_number"@ != "updated_at"@,
        "secondary_email"@ != "emergency_contact"@,
        "secondary_email"@ != "address"@,
        "secondary_email"@ != "employee_id"@,
        "secondary_email"@ != "cost_center"@,
        "secondary_email"@ != "security_clearance"@,
        "secondary_email"@ != "notes"@,
        "secondary_email"@ != "metadata"@,
        "secondary_email"@ != "created_by"@,
        "secondary_email"@ != "created_at"@,
        "secondary_email"@ != "updated_at"@,
        "hire_date"@ != "emergency_contact"@,
        "hire_date"@ != "address"@,
        "hire_date"@ != "employee_id"@,
        "hire_date"@ != "cost_center"@,
        "hire_date"@ != "security_clearance"@,
        "hire_date"@ != "notes"@,
        "hire_date"@ != "metadata"@,
        "hire_date"@ != "created_by"@,
        "hire_date"@ != "created_at"@,
        "hire_date"@ != "updated_at"@,
        "termination_date"@ != "emergency_contact"@,
        "termination_date"@ != "address"@,
        "termination_date"@ != "employee_id"@,
        "termination_date"@ != "cost_center"@,
        "termination_date"@ != "security_clearance"@,
        "termination_date"@ != "notes"@,
        "termination_date"@ != "metadata"@,
        "termination_date"@ != "created_by"@,
        "termination_date"@ != "created_at"@,
        "termination_date"@ != "updated_at"@,
        "last_login_at"@ != "emergency_contact"@,
        "last_login_at"@ != "address"@,
        "last_login_at"@ != "employee_id"@,
        "last_login_at"@ != "cost_center"@,
        "last_login_at"@ != "security_clearance"@,
        "last_login_at"@ != "notes"@,
        "last_login_at"@ != "metadata"@,
        "last_login_at"@ != "created_by"@,
        "last_login_at"@ != "created_at"@,
        "last_login_at"@ != "updated_at"@,
        "password_changed_at"@ != "emergency_contact"@,
        "password_changed_at"@ != "address"@,
        "password_changed_at"@ != "employee_id"@,
        "password_changed_at"@ != "cost_center"@,
        "password_changed_at"@ != "security_clearance"@,
        "password_changed_at"@ != "notes"@,
        "password_changed_at"@ != "metadata"@,
        "password_changed_at"@ != "created_by"@,
        "password_changed_at"@ != "created_at"@,
        "password_changed_at"@ != "updated_at"@,
        "failed_login_attempts"@ != "emergency_contact"@,
        "failed_login_attempts"@ != "address"@,
        "failed_login_attempts"@ != "employee_id"@,
        "failed_login_attempts"@ != "cost_center"@,
        "failed_login_attempts"@ != "security_clearance"@,
        "failed_login_attempts"@ != "notes"@,
        "failed_login_attempts"@ != "metadata"@,
        "failed_login_attempts"@ != "created_by"@,
        "failed_login_attempts"@ != "created_at"@,
        "failed_login_attempts"@ != "updated_at"@,
        "account_locked_until"@ != "emergency_contact"@,
        "account_locked_until"@ != "address"@,
        "account_locked_until"@ != "employee_id"@,
        "account_locked_until"@ != "cost_center"@,
        "account_locked_until"@ != "security_clearance"@,
        "account_locked_until"@ != "notes"@,
        "account_locked_until"@ != "metadata"@,
        "account_locked_until"@ != "created_by"@,
        "account_locked_until"@ != "created_at"@,
        "account_locked_until"@ != "updated_at"@,
        "certification_levels"@ != "emergency_contact"@,
        "certification_levels"@ != "address"@,
        "certification_levels"@ != "employee_id"@,
        "certification_levels"@ != "cost_center"@,
        "certification_levels"@ != "security_clearance"@,
        "certification_levels"@ != "notes"@,
        "certification_levels"@ != "metadata"@,
        "certification_levels"@ != "created_by"@,
        "certification_levels"@ != "created_at"@,
        "certification_levels"@ != "updated_at"@,
        "profile_image_url"@ != "emergency_contact"@,
        "profile_image_url"@ != "address"@,
        "profile_image_url"@ != "employee_id"@,
        "profile_image_url"@ != "cost_center"@,
        "profile_image_url"@ != "security_clearance"@,
        "profile_image_url"@ != "notes"@,
        "profile_image_url"@ != "metadata"@,
        "profile_image_url"@ != "created_by"@,
        "profile_image_url"@ != "created_at"@,
        "profile_image_url"@ != "updated_at"@,
        "timezone"@ != "emergency_contact"@,
        "timezone"@ != "address"@,
        "timezone"@ != "employee_id"@,
        "timezone"@ != "cost_center"@,
        "timezone"@ != "security_clearance"@,
        "timezone"@ != "notes"@,
        "timezone"@ != "metadata"@,
        "timezone"@ != "created_by"@,
        "timezone"@ != "created_at"@,
        "timezone"@ != "updated_at"@,
        "locale"@ != "emergency_contact"@,
        "locale"@ != "address"@,
        "locale"@ != "employee_id"@,
        "locale"@ != "cost_center"@,
        "locale"@ != "security_clearance"@,
        "locale"@ != "notes"@,
        "locale"@ != "metadata"@,
        "locale"@ != "created_by"@,
        "locale"@ != "created_at"@,
        "locale"@ != "updated_at"@,
{
    broadcast use vstd::string::group_string_axioms;
    reveal_strlit("contact_number");
    reveal_strlit("secondary_email");
    reveal_strlit("hire_date");
    reveal_strlit("termination_date");
    reveal_strlit("last_login_at");
    reveal_strlit("password_changed_at");
    reveal_strlit("failed_login_attempts");
    reveal_strlit("account_locked_until");
    reveal_strlit("certification_levels");
    reveal_strlit("profile_image_url");
    reveal_strlit("timezone");
    reveal_strlit("locale");
    reveal_strlit("emergency_contact");
    reveal_strlit("address");
    reveal_strlit("employee_id");
    reveal_strlit("cost_center");
    reveal_strlit("security_clearance");
    reveal_strlit("notes");
    reveal_strlit("metadata");
    reveal_strlit("created_by");
    reveal_strlit("created_at");
    reveal_strlit("updated_at");
    assert("contact_number"@.len() == 14);
    assert("secondary_email"@.len() == 15);
    assert("hire_date"@.len() == 9);
    assert("termination_date"@.len() == 16);
    assert("last_login_at"@.len() == 13);
    assert("password_changed_at"@.len() == 19);
    assert("failed_login_attempts"@.len() == 21);
    assert("account_locked_until"@.len() == 20);
    assert("certification_levels"@.len() == 20);
    assert("profile_image_url"@.len() == 17);
    assert("timezone"@.len() == 8);
    assert("locale"@.len() == 6);
    assert("emergency_contact"@.len() == 17);
    assert("address"@.len() == 7);
    assert("employee_id"@.len() == 11);
    assert("cost_center"@.len() == 11);
    assert("security_clearance"@.len() == 18);
    assert("notes"@.len() == 5);
    assert("metadata"@.len() == 8);
    assert("created_by"@.len() == 10);
    assert("created_at"@.len() == 10);
    assert("updated_at"@.len() == 10);
    assert("profile_image_url"@[0] != "emergency_contact"@[0]);
    assert("timezone"@[0] != "metadata"@[0]);
}

proof fn lemma_keys_distinct_2_2()
    ensures
        "emergency_contact"@ != "address"@,
        "emergency_contact"@ != "employee_id"@,
        "emergency_contact"@ != "cost_center"@,
        "emergency_contact"@ != "security_clearance"@,
        "emergency_contact"@ != "notes"@,
        "emergency_contact"@ != "metadata"@,
        "emergency_contact"@ != "created_by"@,
        "emergency_contact"@ != "created_at"@,
        "emergency_contact"@ != "updated_at"@,
        "address"@ != "employee_id"@,
        "address"@ != "cost_center"@,
        "address"@ != "security_clearance"@,
        "address"@ != "notes"@,
        "address"@ != "metadata"@,
        "address"@ != "created_by"@,
        "address"@ != "created_at"@,
        "address"@ != "updated_at"@,
        "employee_id"@ != "cost_center"@,
        "employee_id"@ != "security_clearance"@,
        "employee_id"@ != "notes"@,
        "employee_id"@ != "metadata"@,
        "employee_id"@ != "created_by"@,
        "employee_id"@ != "created_at"@,
        "employee_id"@ != "updated_at"@,
        "cost_center"@ != "security_clearance"@,
        "cost_center"@ != "notes"@,
        "cost_center"@ != "metadata"@,
        "cost_center"@ != "created_by"@,
        "cost_center"@ != "created_at"@,
        "cost_center"@ != "updated_at"@,
        "security_clearance"@ != "notes"@,
        "security_clearance"@ != "metadata"@,
        "security_clearance"@ != "created_by"@,
        "security_clearance"@ != "created_at"@,
        "security_clearance"@ != "updated_at"@,
        "notes"@ != "metadata"@,
        "notes"@ != "created_by"@,
        "notes"@ != "created_at"@,
        "notes"@ != "updated_at"@,
        "metadata"@ != "created_by"@,
        "metadata"@ != "created_at"@,
        "metadata"@ != "updated_at"@,
        "created_by"@ != "created_at"@,
        "created_by"@ != "updated_at"@,
        "created_at"@ != "updated_at"@,
{
    broadcast use vstd::string::group_string_axioms;
    reveal_strlit("emergency_contact");
    reveal_strlit("address");
    reveal_strlit("employee_id");
    reveal_strlit("cost_center");
    reveal_strlit("security_clearance");
    reveal_strlit("notes");
    reveal_strlit("metadata");
    reveal_strlit("created_by");
    reveal_strlit("created_at");
    reveal_strlit("updated_at");
    assert("emergency_contact"@.len() == 17);
    assert("address"@.len() == 7);
    assert("employee_id"@.len() == 11);
    assert("cost_center"@.len() == 11);
    assert("security_clearance"@.len() == 18);
    assert("notes"@.len() == 5);
    assert("metadata"@.len() == 8);
    assert("created_by"@.len() == 10);
    assert("created_at"@.len() == 10);
    assert("updated_at"@.len() == 10);
    assert("employee_id"@[0] != "cost_center"@[0]);
    assert("created_by"@[8] != "created_at"@[8]);
    assert("created_by"@[0] != "updated_at"@[0]);
    assert("created_at"@[0] != "updated_at"@[0]);
}

} // verus!
