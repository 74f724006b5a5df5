//! Assignments of roles to users.
use vstd::prelude::*;

use crate::error::{is_validation_error, AppError};
use crate::fields::{
    bool_or, opt_view, read_bool_or, read_s, read_timestamp, read_timestamp_or, timestamp_at,
    timestamp_or, write_timestamp,
};
use crate::item::{lookup, push_if, s_at, AttrView, Item, ItemView};

use crate::text::{is_blank, is_blank_spec, str_eq};
use crate::time::{chrono_format_datetime, chrono_parse_datetime, now, some_valid, Timestamp};

use crate::tables::{attr_fits, item_fits_table, spec_user_roles_table};

verus! {

/// Where a role assignment stands.
#[derive(Clone, Copy, Debug, PartialEq, Eq, Structural, Hash)]
pub enum RoleAssignmentStatus {
    Active,
    Suspended,
    Expired,
    Revoked,
    Pending,
}

impl RoleAssignmentStatus {
    /// The text that stands for the variant in items and requests.
    pub open spec fn spec_str(self) -> Seq<char> {
        match self {
            RoleAssignmentStatus::Active => "active"@,
            RoleAssignmentStatus::Suspended => "suspended"@,
            RoleAssignmentStatus::Expired => "expired"@,
            RoleAssignmentStatus::Revoked => "revoked"@,
            RoleAssignmentStatus::Pending => "pending"@,
        }
    }

    /// The variant that a text stands for, if any.
    pub open spec fn spec_parse(s: Seq<char>) -> Option<RoleAssignmentStatus> {
        if s == "active"@ {
            Some(RoleAssignmentStatus::Active)
        } else if s == "suspended"@ {
            Some(RoleAssignmentStatus::Suspended)
        } else if s == "expired"@ {
            Some(RoleAssignmentStatus::Expired)
        } else if s == "revoked"@ {
            Some(RoleAssignmentStatus::Revoked)
        } else if s == "pending"@ {
            Some(RoleAssignmentStatus::Pending)
        } else {
            None
        }
    }

    pub fn to_str(&self) -> (res: &'static str)
        ensures
            res@ == self.spec_str(),
    {
        match self {
            RoleAssignmentStatus::Active => "active",
            RoleAssignmentStatus::Suspended => "suspended",
            RoleAssignmentStatus::Expired => "expired",
            RoleAssignmentStatus::Revoked => "revoked",
            RoleAssignmentStatus::Pending => "pending",
        }
    }

    pub fn to_string(&self) -> (res: String)
        ensures
            res@ == self.spec_str(),
    {
        self.to_str().to_owned()
    }

    /// Reads a variant from its text; any other text is refused with a `ValidationError`.
    pub fn from_string(s: &str) -> (res: Result<RoleAssignmentStatus, AppError>)
        ensures
            match RoleAssignmentStatus::spec_parse(s@) {
                Some(v) => res == Ok::<RoleAssignmentStatus, AppError>(v),
                None => res matches Err(AppError::ValidationError(m)) && m@ == "Invalid role assignment status"@,
            },
    {
        if str_eq(s, "active") {
            Ok(RoleAssignmentStatus::Active)
        } else if str_eq(s, "suspended") {
            Ok(RoleAssignmentStatus::Suspended)
        } else if str_eq(s, "expired") {
            Ok(RoleAssignmentStatus::Expired)
        } else if str_eq(s, "revoked") {
            Ok(RoleAssignmentStatus::Revoked)
        } else if str_eq(s, "pending") {
            Ok(RoleAssignmentStatus::Pending)
        } else {
            Err(AppError::ValidationError("Invalid role assignment status".to_owned()))
        }
    }

    /// Reading back the text of a variant gives the variant.
    pub proof fn lemma_parse_str(v: RoleAssignmentStatus)
        ensures
            RoleAssignmentStatus::spec_parse(v.spec_str()) == Some(v),
    {
        broadcast use vstd::string::group_string_axioms;
        reveal_strlit("active");
        reveal_strlit("suspended");
        reveal_strlit("expired");
        reveal_strlit("revoked");
        reveal_strlit("pending");
        assert("active"@.len() == 6);
        assert("suspended"@.len() == 9);
        assert("expired"@.len() == 7);
        assert("revoked"@.len() == 7);
        assert("pending"@.len() == 7);
        assert("expired"@[0] != "revoked"@[0]);
        assert("expired"@[0] != "pending"@[0]);
        assert("revoked"@[0] != "pending"@[0]);
    }
}


/// How a role came to be assigned.
#[derive(Clone, Copy, Debug, PartialEq, Eq, Structural, Hash)]
pub enum AssignmentSource {
    Manual,
    Automatic,
    Elevation,
    Inheritance,
    Import,
}

impl AssignmentSource {
    /// The text that stands for the variant in items and requests.
    pub open spec fn spec_str(self) -> Seq<char> {
        match self {
            AssignmentSource::Manual => "manual"@,
            AssignmentSource::Automatic => "automatic"@,
            AssignmentSource::Elevation => "elevation"@,
            AssignmentSource::Inheritance => "inheritance"@,
            AssignmentSource::Import => "import"@,
        }
    }

    /// The variant that a text stands for, if any.
    pub open spec fn spec_parse(s: Seq<char>) -> Option<AssignmentSource> {
        if s == "manual"@ {
            Some(AssignmentSource::Manual)
        } else if s == "automatic"@ {
            Some(AssignmentSource::Automatic)
        } else if s == "elevation"@ {
            Some(AssignmentSource::Elevation)
        } else if s == "inheritance"@ {
            Some(AssignmentSource::Inheritance)
        } else if s == "import"@ {
            Some(AssignmentSource::Import)
        } else {
            None
        }
    }

    pub fn to_str(&self) -> (res: &'static str)
        ensures
            res@ == self.spec_str(),
    {
        match self {
            AssignmentSource::Manual => "manual",
            AssignmentSource::Automatic => "automatic",
            AssignmentSource::Elevation => "elevation",
            AssignmentSource::Inheritance => "inheritance",
            AssignmentSource::Import => "import",
        }
    }

    pub fn to_string(&self) -> (res: String)
        ensures
            res@ == self.spec_str(),
    {
        self.to_str().to_owned()
    }

    /// Reads a variant from its text; any other text is refused with a `ValidationError`.
    pub fn from_string(s: &str) -> (res: Result<AssignmentSource, AppError>)
        ensures
            match AssignmentSource::spec_parse(s@) {
                Some(v) => res == Ok::<AssignmentSource, AppError>(v),
                None => res matches Err(AppError::ValidationError(m)) && m@ == "Invalid assignment source"@,
            },
    {
        if str_eq(s, "manual") {
            Ok(AssignmentSource::Manual)
        } else if str_eq(s, "automatic") {
            Ok(AssignmentSource::Automatic)
        } else if str_eq(s, "elevation") {
            Ok(AssignmentSource::Elevation)
        } else if str_eq(s, "inheritance") {
            Ok(AssignmentSource::Inheritance)
        } else if str_eq(s, "import") {
            Ok(AssignmentSource::Import)
        } else {
            Err(AppError::ValidationError("Invalid assignment source".to_owned()))
        }
    }

    /// Reading back the text of a variant gives the variant.
    pub proof fn lemma_parse_str(v: AssignmentSource)
        ensures
            AssignmentSource::spec_parse(v.spec_str()) == Some(v),
    {
        broadcast use vstd::string::group_string_axioms;
        reveal_strlit("manual");
        reveal_strlit("automatic");
        reveal_strlit("elevation");
        reveal_strlit("inheritance");
        reveal_strlit("import");
        assert("manual"@.len() == 6);
        assert("automatic"@.len() == 9);
        assert("elevation"@.len() == 9);
        assert("inheritance"@.len() == 11);
        assert("import"@.len() == 6);
        assert("manual"@[0] != "import"@[0]);
        assert("automatic"@[0] != "elevation"@[0]);
    }
}


/// The assignment of a role to a user.
#[derive(Clone, Debug)]
pub struct UserRole {
    pub id: String,
    pub user_id: String,
    pub role_id: String,
    pub assignment_source: AssignmentSource,
    pub status: RoleAssignmentStatus,
    pub is_primary_role: bool,
    pub assigned_at: Timestamp,
    pub assigned_by_user_id: Option<String>,
    pub effective_from: Timestamp,
    pub expires_at: Option<Timestamp>,
    pub last_used_at: Option<Timestamp>,
    pub conditions: Option<String>,
    pub elevation_request_id: Option<String>,
    pub revoked_at: Option<Timestamp>,
    pub revoked_by_user_id: Option<String>,
    pub revocation_reason: Option<String>,
    pub metadata: Option<String>,
    pub created_at: Timestamp,
    pub updated_at: Timestamp,
}

impl UserRole {
    /// The instants are ones that `chrono` represents.
    pub open spec fn wf(&self) -> bool {
        &&& self.assigned_at.valid()
        &&& self.effective_from.valid()
        &&& (self.expires_at matches Some(t) ==> t.valid())
        &&& (self.last_used_at matches Some(t) ==> t.valid())
        &&& (self.revoked_at matches Some(t) ==> t.valid())
        &&& self.created_at.valid()
        &&& self.updated_at.valid()
    }

    /// The DynamoDB table of this entity.
    pub fn table_name() -> (res: &'static str)
        ensures
            res@ == "UserRoles"@,
    {
        "UserRoles"
    }

    /// The key of the entity in its table.
    pub fn primary_key(&self) -> (res: String)
        ensures
            res@ == self.id@,
    {
        self.id.clone()
    }

    /// Whether an item holds what this entity needs to be read from it.
    pub open spec fn item_readable(iv: ItemView) -> bool {
        &&& s_at(iv, "id"@) is Some
        &&& s_at(iv, "user_id"@) is Some
        &&& s_at(iv, "role_id"@) is Some
        &&& s_at(iv, "assignment_source"@) matches Some(c) && AssignmentSource::spec_parse(c) is Some
        &&& s_at(iv, "status"@) matches Some(c) && RoleAssignmentStatus::spec_parse(c) is Some
    }

    /// Whether this entity is what is read from an item, where instants that
    /// cannot be read are taken to be `now`.
    pub open spec fn read_from(&self, iv: ItemView, now: Timestamp) -> bool {
        &&& Some(self.id@) == s_at(iv, "id"@)
        &&& Some(self.user_id@) == s_at(iv, "user_id"@)
        &&& Some(self.role_id@) == s_at(iv, "role_id"@)
        &&& Some(self.assignment_source) == AssignmentSource::spec_parse(s_at(iv, "assignment_source"@)->0)
        &&& Some(self.status) == RoleAssignmentStatus::spec_parse(s_at(iv, "status"@)->0)
        &&& self.is_primary_role == bool_or(iv, "is_primary_role"@, false)
        &&& self.assigned_at == timestamp_or(iv, "assigned_at"@, now)
        &&& opt_view(self.assigned_by_user_id) == s_at(iv, "assigned_by_user_id"@)
        &&& self.effective_from == timestamp_or(iv, "effective_from"@, now)
        &&& self.expires_at == timestamp_at(iv, "expires_at"@)
        &&& self.last_used_at == timestamp_at(iv, "last_used_at"@)
        &&& opt_view(self.conditions) == s_at(iv, "conditions"@)
        &&& opt_view(self.elevation_request_id) == s_at(iv, "elevation_request_id"@)
        &&& self.revoked_at == timestamp_at(iv, "revoked_at"@)
        &&& opt_view(self.revoked_by_user_id) == s_at(iv, "revoked_by_user_id"@)
        &&& opt_view(self.revocation_reason) == s_at(iv, "revocation_reason"@)
        &&& opt_view(self.metadata) == s_at(iv, "metadata"@)
        &&& self.created_at == timestamp_or(iv, "created_at"@, now)
        &&& self.updated_at == timestamp_or(iv, "updated_at"@, now)
    }

    /// The entries that `to_item` writes for id, user_id, role_id, assignment_source, status, is_primary_role, assigned_at, assigned_by_user_id, effective_from, expires_at, last_used_at, conditions, after those of `iv`.
    pub open spec fn spec_item_part1(&self, iv: ItemView) -> ItemView {
        let iv = iv.push(("id"@, AttrView::S(self.id@)));
        let iv = iv.push(("user_id"@, AttrView::S(self.user_id@)));
        let iv = iv.push(("role_id"@, AttrView::S(self.role_id@)));
        let iv = iv.push(("assignment_source"@, AttrView::S(self.assignment_source.spec_str())));
        let iv = iv.push(("status"@, AttrView::S(self.status.spec_str())));
        let iv = iv.push(("is_primary_role"@, AttrView::Bool(self.is_primary_role)));
        let iv = iv.push(("assigned_at"@, AttrView::S(chrono_format_datetime(self.assigned_at))));
        let iv = push_if(iv, self.assigned_by_user_id is Some, ("assigned_by_user_id"@, AttrView::S(self.assigned_by_user_id->0@)));
        let iv = iv.push(("effective_from"@, AttrView::S(chrono_format_datetime(self.effective_from))));
        let iv = push_if(iv, self.expires_at is Some, ("expires_at"@, AttrView::S(chrono_format_datetime(self.expires_at->0))));
        let iv = push_if(iv, self.last_used_at is Some, ("last_used_at"@, AttrView::S(chrono_format_datetime(self.last_used_at->0))));
        let iv = push_if(iv, self.conditions is Some, ("conditions"@, AttrView::S(self.conditions->0@)));
        iv
    }

    /// The entries that `to_item` writes for elevation_request_id, revoked_at, revoked_by_user_id, revocation_reason, metadata, created_at, updated_at, after those of `iv`.
    pub open spec fn spec_item_part2(&self, iv: ItemView) -> ItemView {
        let iv = push_if(iv, self.elevation_request_id is Some, ("elevation_request_id"@, AttrView::S(self.elevation_request_id->0@)));
        let iv = push_if(iv, self.revoked_at is Some, ("revoked_at"@, AttrView::S(chrono_format_datetime(self.revoked_at->0))));
        let iv = push_if(iv, self.revoked_by_user_id is Some, ("revoked_by_user_id"@, AttrView::S(self.revoked_by_user_id->0@)));
        let iv = push_if(iv, self.revocation_reason is Some, ("revocation_reason"@, AttrView::S(self.revocation_reason->0@)));
        let iv = push_if(iv, self.metadata is Some, ("metadata"@, AttrView::S(self.metadata->0@)));
        let iv = iv.push(("created_at"@, AttrView::S(chrono_format_datetime(self.created_at))));
        let iv = iv.push(("updated_at"@, AttrView::S(chrono_format_datetime(self.updated_at))));
        iv
    }

    /// The item that `to_item` writes.
    pub open spec fn spec_item(&self) -> ItemView {
        self.spec_item_part2(self.spec_item_part1(Seq::empty()))
    }

    /// Whether two entities hold the same values.
    pub open spec fn same_as(&self, other: &UserRole) -> bool {
        &&& self.id@ == other.id@
        &&& self.user_id@ == other.user_id@
        &&& self.role_id@ == other.role_id@
        &&& self.assignment_source == other.assignment_source
        &&& self.status == other.status
        &&& self.is_primary_role == other.is_primary_role
        &&& self.assigned_at == other.assigned_at
        &&& opt_view(self.assigned_by_user_id) == opt_view(other.assigned_by_user_id)
        &&& self.effective_from == other.effective_from
        &&& self.expires_at == other.expires_at
        &&& self.last_used_at == other.last_used_at
        &&& opt_view(self.conditions) == opt_view(other.conditions)
        &&& opt_view(self.elevation_request_id) == opt_view(other.elevation_request_id)
        &&& self.revoked_at == other.revoked_at
        &&& opt_view(self.revoked_by_user_id) == opt_view(other.revoked_by_user_id)
        &&& opt_view(self.revocation_reason) == opt_view(other.revocation_reason)
        &&& opt_view(self.metadata) == opt_view(other.metadata)
        &&& self.created_at == other.created_at
        &&& self.updated_at == other.updated_at
    }

    /// Reads the entity from an item, taking `now` for instants that are missing.
    pub fn from_item_at(item: &Item, now: Timestamp) -> (res: Option<Self>)
        requires
            now.valid(),
        ensures
            res is Some <==> Self::item_readable(item@),
            res matches Some(e) ==> e.read_from(item@, now) && e.wf(),
    {
        let id = read_s(item, "id")?;
        let user_id = read_s(item, "user_id")?;
        let role_id = read_s(item, "role_id")?;
        let assignment_source_text = item.get_s("assignment_source")?;
        let assignment_source = AssignmentSource::from_string(assignment_source_text.as_str()).ok()?;
        let status_text = item.get_s("status")?;
        let status = RoleAssignmentStatus::from_string(status_text.as_str()).ok()?;
        let is_primary_role = read_bool_or(item, "is_primary_role", false);
        let assigned_at = read_timestamp_or(item, "assigned_at", now);
        let assigned_by_user_id = read_s(item, "assigned_by_user_id");
        let effective_from = read_timestamp_or(item, "effective_from", now);
        let expires_at = read_timestamp(item, "expires_at");
        let last_used_at = read_timestamp(item, "last_used_at");
        let conditions = read_s(item, "conditions");
        let elevation_request_id = read_s(item, "elevation_request_id");
        let revoked_at = read_timestamp(item, "revoked_at");
        let revoked_by_user_id = read_s(item, "revoked_by_user_id");
        let revocation_reason = read_s(item, "revocation_reason");
        let metadata = read_s(item, "metadata");
        let created_at = read_timestamp_or(item, "created_at", now);
        let updated_at = read_timestamp_or(item, "updated_at", now);
        Some(UserRole {
            id,
            user_id,
            role_id,
            assignment_source,
            status,
            is_primary_role,
            assigned_at,
            assigned_by_user_id,
            effective_from,
            expires_at,
            last_used_at,
            conditions,
            elevation_request_id,
            revoked_at,
            revoked_by_user_id,
            revocation_reason,
            metadata,
            created_at,
            updated_at,
        })
    }

    /// Reads the entity from an item; instants that are missing are read from the clock.
    pub fn from_item(item: &Item) -> (res: Option<Self>)
        ensures
            res is Some <==> Self::item_readable(item@),
            res matches Some(e) ==> e.wf() && exists|t: Timestamp| t.valid() && e.read_from(item@, t),
    {
        let t = now();
        Self::from_item_at(item, t)
    }

    fn write_part1(&self, item: &mut Item)
        requires
            self.wf(),
        ensures
            final(item)@ == self.spec_item_part1(old(item)@),
            chrono_parse_datetime(chrono_format_datetime(self.assigned_at)) == Some(self.assigned_at),
            chrono_parse_datetime(chrono_format_datetime(self.effective_from)) == Some(self.effective_from),
            self.expires_at matches Some(t) ==> chrono_parse_datetime(chrono_format_datetime(t)) == Some(t),
            self.last_used_at matches Some(t) ==> chrono_parse_datetime(chrono_format_datetime(t)) == Some(t),
    {
        reveal(push_if);
        let ghost mut iv: ItemView = old(item)@;
        item.insert_s("id", self.id.clone());
        proof { iv = iv.push(("id"@, AttrView::S(self.id@))); }
        assert(item@ == iv);
        item.insert_s("user_id", self.user_id.clone());
        proof { iv = iv.push(("user_id"@, AttrView::S(self.user_id@))); }
        assert(item@ == iv);
        item.insert_s("role_id", self.role_id.clone());
        proof { iv = iv.push(("role_id"@, AttrView::S(self.role_id@))); }
        assert(item@ == iv);
        item.insert_s("assignment_source", self.assignment_source.to_string());
        proof { iv = iv.push(("assignment_source"@, AttrView::S(self.assignment_source.spec_str()))); }
        assert(item@ == iv);
        item.insert_s("status", self.status.to_string());
        proof { iv = iv.push(("status"@, AttrView::S(self.status.spec_str()))); }
        assert(item@ == iv);
        item.insert_bool("is_primary_role", self.is_primary_role);
        proof { iv = iv.push(("is_primary_role"@, AttrView::Bool(self.is_primary_role))); }
        assert(item@ == iv);
        write_timestamp(item, "assigned_at", &self.assigned_at);
        proof { iv = iv.push(("assigned_at"@, AttrView::S(chrono_format_datetime(self.assigned_at)))); }
        assert(item@ == iv);
        if let Some(x) = &self.assigned_by_user_id {
            item.insert_s("assigned_by_user_id", x.clone());
        }
        proof { iv = push_if(iv, self.assigned_by_user_id is Some, ("assigned_by_user_id"@, AttrView::S(self.assigned_by_user_id->0@))); }
        assert(item@ == iv);
        write_timestamp(item, "effective_from", &self.effective_from);
        proof { iv = iv.push(("effective_from"@, AttrView::S(chrono_format_datetime(self.effective_from)))); }
        assert(item@ == iv);
        if let Some(t) = &self.expires_at {
            write_timestamp(item, "expires_at", t);
        }
        proof { iv = push_if(iv, self.expires_at is Some, ("expires_at"@, AttrView::S(chrono_format_datetime(self.expires_at->0)))); }
        assert(item@ == iv);
        if let Some(t) = &self.last_used_at {
            write_timestamp(item, "last_used_at", t);
        }
        proof { iv = push_if(iv, self.last_used_at is Some, ("last_used_at"@, AttrView::S(chrono_format_datetime(self.last_used_at->0)))); }
        assert(item@ == iv);
        if let Some(x) = &self.conditions {
            item.insert_s("conditions", x.clone());
        }
        proof { iv = push_if(iv, self.conditions is Some, ("conditions"@, AttrView::S(self.conditions->0@))); }
        assert(item@ == iv);
    }

    fn write_part2(&self, item: &mut Item)
        requires
            self.wf(),
        ensures
            final(item)@ == self.spec_item_part2(old(item)@),
            self.revoked_at matches Some(t) ==> chrono_parse_datetime(chrono_format_datetime(t)) == Some(t),
            chrono_parse_datetime(chrono_format_datetime(self.created_at)) == Some(self.created_at),
            chrono_parse_datetime(chrono_format_datetime(self.updated_at)) == Some(self.updated_at),
    {
        reveal(push_if);
        let ghost mut iv: ItemView = old(item)@;
        if let Some(x) = &self.elevation_request_id {
            item.insert_s("elevation_request_id", x.clone());
        }
        proof { iv = push_if(iv, self.elevation_request_id is Some, ("elevation_request_id"@, AttrView::S(self.elevation_request_id->0@))); }
        assert(item@ == iv);
        if let Some(t) = &self.revoked_at {
            write_timestamp(item, "revoked_at", t);
        }
        proof { iv = push_if(iv, self.revoked_at is Some, ("revoked_at"@, AttrView::S(chrono_format_datetime(self.revoked_at->0)))); }
        assert(item@ == iv);
        if let Some(x) = &self.revoked_by_user_id {
            item.insert_s("revoked_by_user_id", x.clone());
        }
        proof { iv = push_if(iv, self.revoked_by_user_id is Some, ("revoked_by_user_id"@, AttrView::S(self.revoked_by_user_id->0@))); }
        assert(item@ == iv);
        if let Some(x) = &self.revocation_reason {
            item.insert_s("revocation_reason", x.clone());
        }
        proof { iv = push_if(iv, self.revocation_reason is Some, ("revocation_reason"@, AttrView::S(self.revocation_reason->0@))); }
        assert(item@ == iv);
        if let Some(x) = &self.metadata {
            item.insert_s("metadata", x.clone());
        }
        proof { iv = push_if(iv, self.metadata is Some, ("metadata"@, AttrView::S(self.metadata->0@))); }
        assert(item@ == iv);
        write_timestamp(item, "created_at", &self.created_at);
        proof { iv = iv.push(("created_at"@, AttrView::S(chrono_format_datetime(self.created_at)))); }
        assert(item@ == iv);
        write_timestamp(item, "updated_at", &self.updated_at);
        proof { iv = iv.push(("updated_at"@, AttrView::S(chrono_format_datetime(self.updated_at)))); }
        assert(item@ == iv);
    }

    /// Writes the entity as an item.
    pub fn to_item(&self) -> (res: Item)
        requires
            self.wf(),
        ensures
            res@ == self.spec_item(),
            Self::item_readable(res@),
            forall|b: UserRole, now: Timestamp| #[trigger] b.read_from(res@, now) ==> b.same_as(self),
    {
        let mut item = Item::new();
        self.write_part1(&mut item);
        self.write_part2(&mut item);
        proof {
            Self::lemma_item_roundtrip(self, self, Timestamp { secs: 0, nanos: 0 });
            assert forall|b: UserRole, now: Timestamp| #[trigger] b.read_from(item@, now) implies b.same_as(self) by {
                Self::lemma_item_roundtrip(self, &b, now);
            }
        }
        item
    }

    proof fn lemma_part1_values(&self, iv: ItemView)
        ensures
            lookup(self.spec_item_part1(iv), "id"@) == Some(AttrView::S(self.id@)),
            lookup(self.spec_item_part1(iv), "user_id"@) == Some(AttrView::S(self.user_id@)),
            lookup(self.spec_item_part1(iv), "role_id"@) == Some(AttrView::S(self.role_id@)),
            lookup(self.spec_item_part1(iv), "assignment_source"@) == Some(AttrView::S(self.assignment_source.spec_str())),
            lookup(self.spec_item_part1(iv), "status"@) == Some(AttrView::S(self.status.spec_str())),
            lookup(self.spec_item_part1(iv), "is_primary_role"@) == Some(AttrView::Bool(self.is_primary_role)),
            lookup(self.spec_item_part1(iv), "assigned_at"@) == Some(AttrView::S(chrono_format_datetime(self.assigned_at))),
            lookup(self.spec_item_part1(iv), "assigned_by_user_id"@) == (if self.assigned_by_user_id is Some { Some(AttrView::S(self.assigned_by_user_id->0@)) } else { lookup(iv, "assigned_by_user_id"@) }),
            lookup(self.spec_item_part1(iv), "effective_from"@) == Some(AttrView::S(chrono_format_datetime(self.effective_from))),
            lookup(self.spec_item_part1(iv), "expires_at"@) == (if self.expires_at is Some { Some(AttrView::S(chrono_format_datetime(self.expires_at->0))) } else { lookup(iv, "expires_at"@) }),
            lookup(self.spec_item_part1(iv), "last_used_at"@) == (if self.last_used_at is Some { Some(AttrView::S(chrono_format_datetime(self.last_used_at->0))) } else { lookup(iv, "last_used_at"@) }),
            lookup(self.spec_item_part1(iv), "conditions"@) == (if self.conditions is Some { Some(AttrView::S(self.conditions->0@)) } else { lookup(iv, "conditions"@) }),
    {
        broadcast use crate::item::lemma_lookup_push, crate::item::lemma_lookup_push_if;
        lemma_keys_distinct();
    }

    proof fn lemma_part1_frame(&self, iv: ItemView, k: Seq<char>)
        requires
            k != "id"@,
            k != "user_id"@,
            k != "role_id"@,
            k != "assignment_source"@,
            k != "status"@,
            k != "is_primary_role"@,
            k != "assigned_at"@,
            k != "assigned_by_user_id"@,
            k != "effective_from"@,
            k != "expires_at"@,
            k != "last_used_at"@,
            k != "conditions"@,
        ensures
            lookup(self.spec_item_part1(iv), k) == lookup(iv, k),
    {
        broadcast use crate::item::lemma_lookup_push, crate::item::lemma_lookup_push_if;
    }

    proof fn lemma_part2_values(&self, iv: ItemView)
        ensures
            lookup(self.spec_item_part2(iv), "elevation_request_id"@) == (if self.elevation_request_id is Some { Some(AttrView::S(self.elevation_request_id->0@)) } else { lookup(iv, "elevation_request_id"@) }),
            lookup(self.spec_item_part2(iv), "revoked_at"@) == (if self.revoked_at is Some { Some(AttrView::S(chrono_format_datetime(self.revoked_at->0))) } else { lookup(iv, "revoked_at"@) }),
            lookup(self.spec_item_part2(iv), "revoked_by_user_id"@) == (if self.revoked_by_user_id is Some { Some(AttrView::S(self.revoked_by_user_id->0@)) } else { lookup(iv, "revoked_by_user_id"@) }),
            lookup(self.spec_item_part2(iv), "revocation_reason"@) == (if self.revocation_reason is Some { Some(AttrView::S(self.revocation_reason->0@)) } else { lookup(iv, "revocation_reason"@) }),
            lookup(self.spec_item_part2(iv), "metadata"@) == (if self.metadata is Some { Some(AttrView::S(self.metadata->0@)) } else { lookup(iv, "metadata"@) }),
            lookup(self.spec_item_part2(iv), "created_at"@) == Some(AttrView::S(chrono_format_datetime(self.created_at))),
            lookup(self.spec_item_part2(iv), "updated_at"@) == Some(AttrView::S(chrono_format_datetime(self.updated_at))),
    {
        broadcast use crate::item::lemma_lookup_push, crate::item::lemma_lookup_push_if;
        lemma_keys_distinct();
    }

    proof fn lemma_part2_frame(&self, iv: ItemView, k: Seq<char>)
        requires
            k != "elevation_request_id"@,
            k != "revoked_at"@,
            k != "revoked_by_user_id"@,
            k != "revocation_reason"@,
            k != "metadata"@,
            k != "created_at"@,
            k != "updated_at"@,
        ensures
            lookup(self.spec_item_part2(iv), k) == lookup(iv, k),
    {
        broadcast use crate::item::lemma_lookup_push, crate::item::lemma_lookup_push_if;
    }

    /// Every attribute the `UserRoles` table defines holds, in the item the entity is
    /// written as, nothing or a value of the type the table gives it, so
    /// DynamoDB accepts the item.
    pub proof fn lemma_item_fits_table(a: &UserRole)
        ensures
            item_fits_table(a.spec_item(), spec_user_roles_table()),
    {
        lemma_keys_distinct();
        let e: ItemView = Seq::empty();
        let p1 = a.spec_item_part1(e);
        let p2 = a.spec_item_part2(p1);
        assert(a.spec_item() == p2);
        a.lemma_part1_values(e);
        a.lemma_part2_values(p1);
        a.lemma_part2_frame(p1, "id"@);
        a.lemma_part2_frame(p1, "user_id"@);
        a.lemma_part2_frame(p1, "role_id"@);
        a.lemma_part2_frame(p1, "status"@);
        let t = spec_user_roles_table();
        assert forall|i: int| 0 <= i < t.attributes.len() implies match #[trigger] crate::item::lookup(a.spec_item(), t.attributes[i].0) {
            Some(v) => attr_fits(t.attributes[i].1, v),
            None => true,
        } by {
            if i == 0 { assert(t.attributes[0].0 == "id"@); } else if i == 1 { assert(t.attributes[1].0 == "user_id"@); } else if i == 2 { assert(t.attributes[2].0 == "role_id"@); } else if i == 3 { assert(t.attributes[3].0 == "status"@); }
        }
    }

    /// Reading the entity back from the item it is written as gives the same
    /// entity, where `chrono` reads back the text of its instants.
    #[verifier::rlimit(100)]
    pub proof fn lemma_item_roundtrip(a: &UserRole, b: &UserRole, now: Timestamp)
        requires
            a.wf(),
            chrono_parse_datetime(chrono_format_datetime(a.assigned_at)) == Some(a.assigned_at),
            chrono_parse_datetime(chrono_format_datetime(a.effective_from)) == Some(a.effective_from),
            a.expires_at matches Some(t) ==> chrono_parse_datetime(chrono_format_datetime(t)) == Some(t),
            a.last_used_at matches Some(t) ==> chrono_parse_datetime(chrono_format_datetime(t)) == Some(t),
            a.revoked_at matches Some(t) ==> chrono_parse_datetime(chrono_format_datetime(t)) == Some(t),
            chrono_parse_datetime(chrono_format_datetime(a.created_at)) == Some(a.created_at),
            chrono_parse_datetime(chrono_format_datetime(a.updated_at)) == Some(a.updated_at),
        ensures
            Self::item_readable(a.spec_item()),
            b.read_from(a.spec_item(), now) ==> b.same_as(a),
    {
        lemma_keys_distinct();
        let e: ItemView = Seq::empty();
        let p1 = a.spec_item_part1(e);
        let p2 = a.spec_item_part2(p1);
        assert(a.spec_item() == p2);
        a.lemma_part1_values(e);
        a.lemma_part2_values(p1);
        a.lemma_part2_frame(p1, "id"@);
        a.lemma_part2_frame(p1, "user_id"@);
        a.lemma_part2_frame(p1, "role_id"@);
        a.lemma_part2_frame(p1, "assignment_source"@);
        a.lemma_part2_frame(p1, "status"@);
        a.lemma_part2_frame(p1, "is_primary_role"@);
        a.lemma_part2_frame(p1, "assigned_at"@);
        a.lemma_part2_frame(p1, "assigned_by_user_id"@);
        a.lemma_part2_frame(p1, "effective_from"@);
        a.lemma_part2_frame(p1, "expires_at"@);
        a.lemma_part2_frame(p1, "last_used_at"@);
        a.lemma_part2_frame(p1, "conditions"@);
        a.lemma_part1_frame(e, "elevation_request_id"@);
        a.lemma_part1_frame(e, "revoked_at"@);
        a.lemma_part1_frame(e, "revoked_by_user_id"@);
        a.lemma_part1_frame(e, "revocation_reason"@);
        a.lemma_part1_frame(e, "metadata"@);
        a.lemma_part1_frame(e, "created_at"@);
        a.lemma_part1_frame(e, "updated_at"@);
        AssignmentSource::lemma_parse_str(a.assignment_source);
        RoleAssignmentStatus::lemma_parse_str(a.status);
    }

    /// Which check, if any, the arguments of `new` fail, in the order they are made.
    pub open spec fn spec_new_error(user_id: Seq<char>, role_id: Seq<char>, assignment_source: Seq<char>) -> Option<Seq<char>> {
        if is_blank_spec(user_id) {
            Some("User ID cannot be empty"@)
        } else if is_blank_spec(role_id) {
            Some("Role ID cannot be empty"@)
        } else if AssignmentSource::spec_parse(assignment_source) is None {
            Some("Invalid assignment source"@)
        } else {
            None
        }
    }

    /// Assigns a role to a user. The assignment is pending while it is not yet
    /// effective at the time it is made, and active otherwise.
    pub fn new(
        id: String,
        user_id: String,
        role_id: String,
        assignment_source: String,
        is_primary_role: bool,
        assigned_by_user_id: Option<String>,
        effective_from: Timestamp,
        expires_at: Option<Timestamp>,
        conditions: Option<String>,
        elevation_request_id: Option<String>,
        metadata: Option<String>,
    ) -> (res: Result<Self, AppError>)
        ensures
            match Self::spec_new_error(user_id@, role_id@, assignment_source@) {
                Some(m) => is_validation_error(res, m),
                None => res matches Ok(r) && {
                    &&& r.id == id && r.user_id == user_id && r.role_id == role_id
                    &&& Some(r.assignment_source) == AssignmentSource::spec_parse(assignment_source@)
                    &&& r.status == (if r.assigned_at.precedes(effective_from) {
                        RoleAssignmentStatus::Pending
                    } else {
                        RoleAssignmentStatus::Active
                    })
                    &&& r.is_primary_role == is_primary_role && r.assigned_by_user_id == assigned_by_user_id
                    &&& r.effective_from == effective_from && r.expires_at == expires_at
                    &&& r.last_used_at is None && r.conditions == conditions
                    &&& r.elevation_request_id == elevation_request_id
                    &&& r.revoked_at is None && r.revoked_by_user_id is None && r.revocation_reason is None
                    &&& r.metadata == metadata
                    &&& r.assigned_at == r.created_at && r.created_at == r.updated_at && r.created_at.valid()
                },
            },
    {
        let now = now();
        if is_blank(user_id.as_str()) {
            return Err(AppError::ValidationError("User ID cannot be empty".to_owned()));
        }
        if is_blank(role_id.as_str()) {
            return Err(AppError::ValidationError("Role ID cannot be empty".to_owned()));
        }
        let source_enum = AssignmentSource::from_string(assignment_source.as_str())?;
        let status = if effective_from.is_after(&now) {
            RoleAssignmentStatus::Pending
        } else {
            RoleAssignmentStatus::Active
        };
        Ok(UserRole {
            id,
            user_id,
            role_id,
            assignment_source: source_enum,
            status,
            is_primary_role,
            assigned_at: now,
            assigned_by_user_id,
            effective_from,
            expires_at,
            last_used_at: None,
            conditions,
            elevation_request_id,
            revoked_at: None,
            revoked_by_user_id: None,
            revocation_reason: None,
            metadata,
            created_at: now,
            updated_at: now,
        })
    }

    /// Whether the assignment is in force at `now`: active, already effective,
    /// not past its expiry and not revoked.
    pub open spec fn spec_effective_at(&self, now: Timestamp) -> bool {
        &&& self.status == RoleAssignmentStatus::Active
        &&& !now.precedes(self.effective_from)
        &&& !(self.expires_at matches Some(e) && e.precedes(now))
        &&& self.revoked_at is None
    }

    /// An assignment is in force exactly while it is active, not revoked,
    /// already effective and not past its expiry.
    pub proof fn lemma_effective_window(a: &UserRole, now: Timestamp)
        ensures
            a.spec_effective_at(now) <==> (a.status == RoleAssignmentStatus::Active && !(now.secs < a.effective_from.secs || (now.secs == a.effective_from.secs && now.nanos < a.effective_from.nanos)) && !(a.expires_at matches Some(e) && (e.secs < now.secs || (e.secs == now.secs && e.nanos < now.nanos))) && a.revoked_at is None),
    {
    }

    pub fn is_effective_at(&self, now: &Timestamp) -> (res: bool)
        ensures
            res == self.spec_effective_at(*now),
            res <==> (self.status == RoleAssignmentStatus::Active && !(now.secs < self.effective_from.secs || (now.secs == self.effective_from.secs && now.nanos < self.effective_from.nanos)) && !(self.expires_at matches Some(e) && (e.secs < now.secs || (e.secs == now.secs && e.nanos < now.nanos))) && self.revoked_at is None),
    {
        if self.status != RoleAssignmentStatus::Active {
            return false;
        }
        if now.is_before(&self.effective_from) {
            return false;
        }
        if let Some(expires_at) = &self.expires_at {
            if now.is_after(expires_at) {
                return false;
            }
        }
        if self.revoked_at.is_some() {
            return false;
        }
        true
    }

    /// Whether the assignment is in force now.
    pub fn is_effective(&self) -> (res: bool)
        ensures
            exists|t: Timestamp| t.valid() && res == self.spec_effective_at(t),
    {
        let t = now();
        self.is_effective_at(&t)
    }

    /// Whether the assignment is past its expiry at `now`.
    pub open spec fn spec_expired_at(&self, now: Timestamp) -> bool {
        self.expires_at matches Some(e) && e.precedes(now)
    }

    /// Without an expiry nothing expires; with one, expiry holds exactly at
    /// the instants after it, and once reached it holds from then on.
    pub proof fn lemma_expiry(a: &UserRole, now: Timestamp, later: Timestamp)
        ensures
            a.expires_at is None ==> !a.spec_expired_at(now),
            a.expires_at matches Some(e) ==> (a.spec_expired_at(now) <==> (e.secs < now.secs || (e.secs == now.secs && e.nanos < now.nanos))),
            a.spec_expired_at(now) && !(later.secs < now.secs || (later.secs == now.secs && later.nanos < now.nanos)) ==> a.spec_expired_at(later),
    {
    }

    pub fn is_expired_at(&self, now: &Timestamp) -> (res: bool)
        ensures
            res == self.spec_expired_at(*now),
            self.expires_at is None ==> !res,
            self.expires_at matches Some(e) ==> (res <==> (e.secs < now.secs || (e.secs == now.secs && e.nanos < now.nanos))),
    {
        match &self.expires_at {
            Some(e) => now.is_after(e),
            None => false,
        }
    }

    pub fn is_expired(&self) -> (res: bool)
        ensures
            exists|t: Timestamp| t.valid() && res == self.spec_expired_at(t),
    {
        let t = now();
        self.is_expired_at(&t)
    }

    /// Records that the role was just used.
    pub fn mark_as_used(&mut self)
        ensures
            *final(self) == (UserRole {
                last_used_at: final(self).last_used_at,
                updated_at: final(self).updated_at,
                ..*old(self)
            }),
            some_valid(final(self).last_used_at),
            final(self).updated_at.valid(),
    {
        self.last_used_at = Some(now());
        self.updated_at = now();
    }

    /// Revokes an assignment that is not revoked yet.
    pub fn revoke(&mut self, revoked_by_user_id: String, reason: Option<String>) -> (res: Result<(), AppError>)
        ensures
            old(self).status != RoleAssignmentStatus::Revoked ==> res is Ok && *final(self) == (UserRole {
                status: RoleAssignmentStatus::Revoked,
                revoked_at: final(self).revoked_at,
                revoked_by_user_id: Some(revoked_by_user_id),
                revocation_reason: reason,
                updated_at: final(self).updated_at,
                ..*old(self)
            }) && some_valid(final(self).revoked_at) && final(self).updated_at.valid(),
            old(self).status == RoleAssignmentStatus::Revoked ==> *final(self) == *old(self)
                && is_validation_error(res, "Role assignment is already revoked"@),
    {
        if self.status == RoleAssignmentStatus::Revoked {
            return Err(AppError::ValidationError("Role assignment is already revoked".to_owned()));
        }
        self.status = RoleAssignmentStatus::Revoked;
        self.revoked_at = Some(now());
        self.revoked_by_user_id = Some(revoked_by_user_id);
        self.revocation_reason = reason;
        self.updated_at = now();
        Ok(())
    }

    /// Suspends an active assignment; who suspended it and why are kept with the revocation fields.
    pub fn suspend(&mut self, suspended_by_user_id: String, reason: Option<String>) -> (res: Result<(), AppError>)
        ensures
            old(self).status == RoleAssignmentStatus::Active ==> res is Ok && *final(self) == (UserRole {
                status: RoleAssignmentStatus::Suspended,
                revoked_by_user_id: Some(suspended_by_user_id),
                revocation_reason: reason,
                updated_at: final(self).updated_at,
                ..*old(self)
            }) && final(self).updated_at.valid(),
            old(self).status != RoleAssignmentStatus::Active ==> *final(self) == *old(self)
                && is_validation_error(res, "Only active role assignments can be suspended"@),
    {
        if self.status != RoleAssignmentStatus::Active {
            return Err(AppError::ValidationError("Only active role assignments can be suspended".to_owned()));
        }
        self.status = RoleAssignmentStatus::Suspended;
        self.revoked_by_user_id = Some(suspended_by_user_id);
        self.revocation_reason = reason;
        self.updated_at = now();
        Ok(())
    }

    /// Reactivates a suspended assignment and clears who suspended it and why.
    pub fn reactivate(&mut self) -> (res: Result<(), AppError>)
        ensures
            old(self).status == RoleAssignmentStatus::Suspended ==> res is Ok && *final(self) == (UserRole {
                status: RoleAssignmentStatus::Active,
                revoked_by_user_id: None,
                revocation_reason: None,
                updated_at: final(self).updated_at,
                ..*old(self)
            }) && final(self).updated_at.valid(),
            old(self).status != RoleAssignmentStatus::Suspended ==> *final(self) == *old(self)
                && is_validation_error(res, "Only suspended role assignments can be reactivated"@),
    {
        if self.status != RoleAssignmentStatus::Suspended {
            return Err(AppError::ValidationError("Only suspended role assignments can be reactivated".to_owned()));
        }
        self.status = RoleAssignmentStatus::Active;
        self.revoked_by_user_id = None;
        self.revocation_reason = None;
        self.updated_at = now();
        Ok(())
    }

    /// Moves the expiry to `new_expiration`, which must lie after `now`; the
    /// update time becomes `now`.
    pub fn extend_expiration_at(&mut self, new_expiration: Timestamp, now: &Timestamp) -> (res: Result<(), AppError>)
        requires
            now.valid(),
        ensures
            res is Ok <==> now.precedes(new_expiration),
            res is Ok ==> *final(self) == (UserRole {
                expires_at: Some(new_expiration),
                updated_at: *now,
                ..*old(self)
            }),
            res is Err ==> *final(self) == *old(self)
                && is_validation_error(res, "New expiration must be in the future"@),
    {
        if !now.is_before(&new_expiration) {
            return Err(AppError::ValidationError("New expiration must be in the future".to_owned()));
        }
        self.expires_at = Some(new_expiration);
        self.updated_at = *now;
        Ok(())
    }

    /// Moves the expiry to a later instant; it must lie after the clock's
    /// reading (see `extend_expiration_at`).
    pub fn extend_expiration(&mut self, new_expiration: Timestamp) -> (res: Result<(), AppError>)
        ensures
            exists|t: Timestamp| t.valid() && (res is Ok <==> t.precedes(new_expiration)) && (res is Ok ==> *final(self) == (UserRole {
                expires_at: Some(new_expiration),
                updated_at: t,
                ..*old(self)
            })),
            res is Err ==> *final(self) == *old(self)
                && is_validation_error(res, "New expiration must be in the future"@),
    {
        let t = now();
        self.extend_expiration_at(new_expiration, &t)
    }

    /// Suspending an active assignment that holds no revocation and then
    /// reactivating it gives back the assignment, but for its update time.
    pub proof fn lemma_suspend_reactivate(a: UserRole, b: UserRole, c: UserRole, by: String, reason: Option<String>)
        requires
            a.status == RoleAssignmentStatus::Active,
            a.revoked_by_user_id is None,
            a.revocation_reason is None,
            b == (UserRole {
                status: RoleAssignmentStatus::Suspended,
                revoked_by_user_id: Some(by),
                revocation_reason: reason,
                updated_at: b.updated_at,
                ..a
            }),
            c == (UserRole {
                status: RoleAssignmentStatus::Active,
                revoked_by_user_id: None,
                revocation_reason: None,
                updated_at: c.updated_at,
                ..b
            }),
        ensures
            c == (UserRole { updated_at: c.updated_at, ..a }),
    {
    }

}

proof fn lemma_keys_distinct()
    ensures
        "id"@ != "user_id"@,
        "id"@ != "role_id"@,
        "id"@ != "assignment_source"@,
        "id"@ != "status"@,
        "id"@ != "is_primary_role"@,
        "id"@ != "assigned_at"@,
        "id"@ != "assigned_by_user_id"@,
        "id"@ != "effective_from"@,
        "id"@ != "expires_at"@,
        "id"@ != "last_used_at"@,
        "id"@ != "conditions"@,
        "id"@ != "elevation_request_id"@,
        "id"@ != "revoked_at"@,
        "id"@ != "revoked_by_user_id"@,
        "id"@ != "revocation_reason"@,
        "id"@ != "metadata"@,
        "id"@ != "created_at"@,
        "id"@ != "updated_at"@,
        "user_id"@ != "role_id"@,
        "user_id"@ != "assignment_source"@,
        "user_id"@ != "status"@,
        "user_id"@ != "is_primary_role"@,
        "user_id"@ != "assigned_at"@,
        "user_id"@ != "assigned_by_user_id"@,
        "user_id"@ != "effective_from"@,
        "user_id"@ != "expires_at"@,
        "user_id"@ != "last_used_at"@,
        "user_id"@ != "conditions"@,
        "user_id"@ != "elevation_request_id"@,
        "user_id"@ != "revoked_at"@,
        "user_id"@ != "revoked_by_user_id"@,
        "user_id"@ != "revocation_reason"@,
        "user_id"@ != "metadata"@,
        "user_id"@ != "created_at"@,
        "user_id"@ != "updated_at"@,
        "role_id"@ != "assignment_source"@,
        "role_id"@ != "status"@,
        "role_id"@ != "is_primary_role"@,
        "role_id"@ != "assigned_at"@,
        "role_id"@ != "assigned_by_user_id"@,
        "role_id"@ != "effective_from"@,
        "role_id"@ != "expires_at"@,
        "role_id"@ != "last_used_at"@,
        "role_id"@ != "conditions"@,
        "role_id"@ != "elevation_request_id"@,
        "role_id"@ != "revoked_at"@,
        "role_id"@ != "revoked_by_user_id"@,
        "role_id"@ != "revocation_reason"@,
        "role_id"@ != "metadata"@,
        "role_id"@ != "created_at"@,
        "role_id"@ != "updated_at"@,
        "assignment_source"@ != "status"@,
        "assignment_source"@ != "is_primary_role"@,
        "assignment_source"@ != "assigned_at"@,
        "assignment_source"@ != "assigned_by_user_id"@,
        "assignment_source"@ != "effective_from"@,
        "assignment_source"@ != "expires_at"@,
        "assignment_source"@ != "last_used_at"@,
        "assignment_source"@ != "conditions"@,
        "assignment_source"@ != "elevation_request_id"@,
        "assignment_source"@ != "revoked_at"@,
        "assignment_source"@ != "revoked_by_user_id"@,
        "assignment_source"@ != "revocation_reason"@,
        "assignment_source"@ != "metadata"@,
        "assignment_source"@ != "created_at"@,
        "assignment_source"@ != "updated_at"@,
        "status"@ != "is_primary_role"@,
        "status"@ != "assigned_at"@,
        "status"@ != "assigned_by_user_id"@,
        "status"@ != "effective_from"@,
        "status"@ != "expires_at"@,
        "status"@ != "last_used_at"@,
        "status"@ != "conditions"@,
        "status"@ != "elevation_request_id"@,
        "status"@ != "revoked_at"@,
        "status"@ != "revoked_by_user_id"@,
        "status"@ != "revocation_reason"@,
        "status"@ != "metadata"@,
        "status"@ != "created_at"@,
        "status"@ != "updated_at"@,
        "is_primary_role"@ != "assigned_at"@,
        "is_primary_role"@ != "assigned_by_user_id"@,
        "is_primary_role"@ != "effective_from"@,
        "is_primary_role"@ != "expires_at"@,
        "is_primary_role"@ != "last_used_at"@,
        "is_primary_role"@ != "conditions"@,
        "is_primary_role"@ != "elevation_request_id"@,
        "is_primary_role"@ != "revoked_at"@,
        "is_primary_role"@ != "revoked_by_user_id"@,
        "is_primary_role"@ != "revocation_reason"@,
        "is_primary_role"@ != "metadata"@,
        "is_primary_role"@ != "created_at"@,
        "is_primary_role"@ != "updated_at"@,
        "assigned_at"@ != "assigned_by_user_id"@,
        "assigned_at"@ != "effective_from"@,
        "assigned_at"@ != "expires_at"@,
        "assigned_at"@ != "last_used_at"@,
        "assigned_at"@ != "conditions"@,
        "assigned_at"@ != "elevation_request_id"@,
        "assigned_at"@ != "revoked_at"@,
        "assigned_at"@ != "revoked_by_user_id"@,
        "assigned_at"@ != "revocation_reason"@,
        "assigned_at"@ != "metadata"@,
        "assigned_at"@ != "created_at"@,
        "assigned_at"@ != "updated_at"@,
        "assigned_by_user_id"@ != "effective_from"@,
        "assigned_by_user_id"@ != "expires_at"@,
        "assigned_by_user_id"@ != "last_used_at"@,
        "assigned_by_user_id"@ != "conditions"@,
        "assigned_by_user_id"@ != "elevation_request_id"@,
        "assigned_by_user_id"@ != "revoked_at"@,
        "assigned_by_user_id"@ != "revoked_by_user_id"@,
        "assigned_by_user_id"@ != "revocation_reason"@,
        "assigned_by_user_id"@ != "metadata"@,
        "assigned_by_user_id"@ != "created_at"@,
        "assigned_by_user_id"@ != "updated_at"@,
        "effective_from"@ != "expires_at"@,
        "effective_from"@ != "last_used_at"@,
        "effective_from"@ != "conditions"@,
        "effective_from"@ != "elevation_request_id"@,
        "effective_from"@ != "revoked_at"@,
        "effective_from"@ != "revoked_by_user_id"@,
        "effective_from"@ != "revocation_reason"@,
        "effective_from"@ != "metadata"@,
        "effective_from"@ != "created_at"@,
        "effective_from"@ != "updated_at"@,
        "expires_at"@ != "last_used_at"@,
        "expires_at"@ != "conditions"@,
        "expires_at"@ != "elevation_request_id"@,
        "expires_at"@ != "revoked_at"@,
        "expires_at"@ != "revoked_by_user_id"@,
        "expires_at"@ != "revocation_reason"@,
        "expires_at"@ != "metadata"@,
        "expires_at"@ != "created_at"@,
        "expires_at"@ != "updated_at"@,
        "last_used_at"@ != "conditions"@,
        "last_used_at"@ != "elevation_request_id"@,
        "last_used_at"@ != "revoked_at"@,
        "last_used_at"@ != "revoked_by_user_id"@,
        "last_used_at"@ != "revocation_reason"@,
        "last_used_at"@ != "metadata"@,
        "last_used_at"@ != "created_at"@,
        "last_used_at"@ != "updated_at"@,
        "conditions"@ != "elevation_request_id"@,
        "conditions"@ != "revoked_at"@,
        "conditions"@ != "revoked_by_user_id"@,
        "conditions"@ != "revocation_reason"@,
        "conditions"@ != "metadata"@,
        "conditions"@ != "created_at"@,
        "conditions"@ != "updated_at"@,
        "elevation_request_id"@ != "revoked_at"@,
        "elevation_request_id"@ != "revoked_by_user_id"@,
        "elevation_request_id"@ != "revocation_reason"@,
        "elevation_request_id"@ != "metadata"@,
        "elevation_request_id"@ != "created_at"@,
        "elevation_request_id"@ != "updated_at"@,
        "revoked_at"@ != "revoked_by_user_id"@,
        "revoked_at"@ != "revocation_reason"@,
        "revoked_at"@ != "metadata"@,
        "revoked_at"@ != "created_at"@,
        "revoked_at"@ != "updated_at"@,
        "revoked_by_user_id"@ != "revocation_reason"@,
        "revoked_by_user_id"@ != "metadata"@,
        "revoked_by_user_id"@ != "created_at"@,
        "revoked_by_user_id"@ != "updated_at"@,
        "revocation_reason"@ != "metadata"@,
        "revocation_reason"@ != "created_at"@,
        "revocation_reason"@ != "updated_at"@,
        "metadata"@ != "created_at"@,
        "metadata"@ != "updated_at"@,
        "created_at"@ != "updated_at"@,
{
    broadcast use vstd::string::group_string_axioms;
    reveal_strlit("id");
    reveal_strlit("user_id");
    reveal_strlit("role_id");
    reveal_strlit("assignment_source");
    reveal_strlit("status");
    reveal_strlit("is_primary_role");
    reveal_strlit("assigned_at");
    reveal_strlit("assigned_by_user_id");
    reveal_strlit("effective_from");
    reveal_strlit("expires_at");
    reveal_strlit("last_used_at");
    reveal_strlit("conditions");
    reveal_strlit("elevation_request_id");
    reveal_strlit("revoked_at");
    reveal_strlit("revoked_by_user_id");
    reveal_strlit("revocation_reason");
    reveal_strlit("metadata");
    reveal_strlit("created_at");
    reveal_strlit("updated_at");
    assert("id"@.len() == 2);
    assert("user_id"@.len() == 7);
    assert("role_id"@.len() == 7);
    assert("assignment_source"@.len() == 17);
    assert("status"@.len() == 6);
    assert("is_primary_role"@.len() == 15);
    assert("assigned_at"@.len() == 11);
    assert("assigned_by_user_id"@.len() == 19);
    assert("effective_from"@.len() == 14);
    assert("expires_at"@.len() == 10);
    assert("last_used_at"@.len() == 12);
    assert("conditions"@.len() == 10);
    assert("elevation_request_id"@.len() == 20);
    assert("revoked_at"@.len() == 10);
    assert("revoked_by_user_id"@.len() == 18);
    assert("revocation_reason"@.len() == 17);
    assert("metadata"@.len() == 8);
    assert("created_at"@.len() == 10);
    assert("updated_at"@.len() == 10);
    assert("user_id"@[0] != "role_id"@[0]);
    assert("assignment_source"@[0] != "revocation_reason"@[0]);
    assert("expires_at"@[0] != "conditions"@[0]);
    assert("expires_at"@[0] != "revoked_at"@[0]);
    assert("expires_at"@[0] != "created_at"@[0]);
    assert("expires_at"@[0] != "updated_at"@[0]);
    assert("conditions"@[0] != "revoked_at"@[0]);
    assert("conditions"@[1] != "created_at"@[1]);
    assert("conditions"@[0] != "updated_at"@[0]);
    assert("revoked_at"@[0] != "created_at"@[0]);
    assert("revoked_at"@[0] != "updated_at"@[0]);
    assert("created_at"@[0] != "updated_at"@[0]);
}

} // verus!
