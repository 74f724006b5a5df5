//! Audit records of permission checks, and the actions and resources they concern.
use vstd::prelude::*;

use crate::error::{is_validation_error, AppError};
use crate::fields::{
    opt_view, read_s, read_timestamp, read_timestamp_or, timestamp_at, timestamp_or,
    write_timestamp,
};
use crate::item::{push_if, s_at, strings_view, AttrView, Item, ItemView};

use crate::text::{is_blank, is_blank_spec, str_eq};
use crate::time::{chrono_format_datetime, chrono_parse_datetime, now, Timestamp};

use crate::tables::{attr_fits, item_fits_table, spec_permission_logs_table};

verus! {

/// What a permission allows one to do.
#[derive(Clone, Copy, Debug, PartialEq, Eq, Structural, Hash)]
pub enum PermissionAction {
    Create,
    Read,
    Update,
    Delete,
    Execute,
    Approve,
    Assign,
    View,
    Export,
    Import,
}

impl PermissionAction {
    /// The text that stands for the variant in items and requests.
    pub open spec fn spec_str(self) -> Seq<char> {
        match self {
            PermissionAction::Create => "create"@,
            PermissionAction::Read => "read"@,
            PermissionAction::Update => "update"@,
            PermissionAction::Delete => "delete"@,
            PermissionAction::Execute => "execute"@,
            PermissionAction::Approve => "approve"@,
            PermissionAction::Assign => "assign"@,
            PermissionAction::View => "view"@,
            PermissionAction::Export => "export"@,
            PermissionAction::Import => "import"@,
        }
    }

    /// The variant that a text stands for, if any.
    pub open spec fn spec_parse(s: Seq<char>) -> Option<PermissionAction> {
        if s == "create"@ {
            Some(PermissionAction::Create)
        } else if s == "read"@ {
            Some(PermissionAction::Read)
        } else if s == "update"@ {
            Some(PermissionAction::Update)
        } else if s == "delete"@ {
            Some(PermissionAction::Delete)
        } else if s == "execute"@ {
            Some(PermissionAction::Execute)
        } else if s == "approve"@ {
            Some(PermissionAction::Approve)
        } else if s == "assign"@ {
            Some(PermissionAction::Assign)
        } else if s == "view"@ {
            Some(PermissionAction::View)
        } else if s == "export"@ {
            Some(PermissionAction::Export)
        } else if s == "import"@ {
            Some(PermissionAction::Import)
        } else {
            None
        }
    }

    pub fn to_str(&self) -> (res: &'static str)
        ensures
            res@ == self.spec_str(),
    {
        match self {
            PermissionAction::Create => "create",
            PermissionAction::Read => "read",
            PermissionAction::Update => "update",
            PermissionAction::Delete => "delete",
            PermissionAction::Execute => "execute",
            PermissionAction::Approve => "approve",
            PermissionAction::Assign => "assign",
            PermissionAction::View => "view",
            PermissionAction::Export => "export",
            PermissionAction::Import => "import",
        }
    }

    pub fn to_string(&self) -> (res: String)
        ensures
            res@ == self.spec_str(),
    {
        self.to_str().to_owned()
    }

    /// Reads a variant from its text; any other text is refused with a `ValidationError`.
    pub fn from_string(s: &str) -> (res: Result<PermissionAction, AppError>)
        ensures
            match PermissionAction::spec_parse(s@) {
                Some(v) => res == Ok::<PermissionAction, AppError>(v),
                None => res matches Err(AppError::ValidationError(m)) && m@ == "Invalid permission action"@,
            },
    {
        if str_eq(s, "create") {
            Ok(PermissionAction::Create)
        } else if str_eq(s, "read") {
            Ok(PermissionAction::Read)
        } else if str_eq(s, "update") {
            Ok(PermissionAction::Update)
        } else if str_eq(s, "delete") {
            Ok(PermissionAction::Delete)
        } else if str_eq(s, "execute") {
            Ok(PermissionAction::Execute)
        } else if str_eq(s, "approve") {
            Ok(PermissionAction::Approve)
        } else if str_eq(s, "assign") {
            Ok(PermissionAction::Assign)
        } else if str_eq(s, "view") {
            Ok(PermissionAction::View)
        } else if str_eq(s, "export") {
            Ok(PermissionAction::Export)
        } else if str_eq(s, "import") {
            Ok(PermissionAction::Import)
        } else {
            Err(AppError::ValidationError("Invalid permission action".to_owned()))
        }
    }

    /// Reading back the text of a variant gives the variant.
    pub proof fn lemma_parse_str(v: PermissionAction)
        ensures
            PermissionAction::spec_parse(v.spec_str()) == Some(v),
    {
        broadcast use vstd::string::group_string_axioms;
        reveal_strlit("create");
        reveal_strlit("read");
        reveal_strlit("update");
        reveal_strlit("delete");
        reveal_strlit("execute");
        reveal_strlit("approve");
        reveal_strlit("assign");
        reveal_strlit("view");
        reveal_strlit("export");
        reveal_strlit("import");
        assert("create"@.len() == 6);
        assert("read"@.len() == 4);
        assert("update"@.len() == 6);
        assert("delete"@.len() == 6);
        assert("execute"@.len() == 7);
        assert("approve"@.len() == 7);
        assert("assign"@.len() == 6);
        assert("view"@.len() == 4);
        assert("export"@.len() == 6);
        assert("import"@.len() == 6);
        assert("create"@[0] != "update"@[0]);
        assert("create"@[0] != "delete"@[0]);
        assert("create"@[0] != "assign"@[0]);
        assert("create"@[0] != "export"@[0]);
        assert("create"@[0] != "import"@[0]);
        assert("read"@[0] != "view"@[0]);
        assert("update"@[0] != "delete"@[0]);
        assert("update"@[0] != "assign"@[0]);
        assert("update"@[0] != "export"@[0]);
        assert("update"@[0] != "import"@[0]);
        assert("delete"@[0] != "assign"@[0]);
        assert("delete"@[0] != "export"@[0]);
        assert("delete"@[0] != "import"@[0]);
        assert("execute"@[0] != "approve"@[0]);
        assert("assign"@[0] != "export"@[0]);
        assert("assign"@[0] != "import"@[0]);
        assert("export"@[0] != "import"@[0]);
    }
}


impl PermissionAction {
    /// The variants that a list of texts stands for, in order; texts that stand for none are skipped.
    pub open spec fn spec_parse_all(s: Seq<Seq<char>>) -> Seq<PermissionAction>
        decreases s.len(),
    {
        if s.len() == 0 {
            Seq::empty()
        } else {
            let rest = PermissionAction::spec_parse_all(s.drop_last());
            match PermissionAction::spec_parse(s.last()) {
                Some(v) => rest.push(v),
                None => rest,
            }
        }
    }

    /// The texts of a list of variants.
    pub open spec fn spec_strs(v: Seq<PermissionAction>) -> Seq<Seq<char>> {
        v.map_values(|x: PermissionAction| x.spec_str())
    }

    /// Whether every text of the list stands for a variant.
    pub open spec fn all_parse(s: Seq<Seq<char>>) -> bool {
        forall|i: int| 0 <= i < s.len() ==> #[trigger] PermissionAction::spec_parse(s[i]) is Some
    }

    /// Reads the variants of a list of texts, skipping texts that stand for none.
    pub fn parse_all(texts: &Vec<String>) -> (res: Vec<PermissionAction>)
        ensures
            res@ == PermissionAction::spec_parse_all(strings_view(texts@)),
    {
        let ghost sv = strings_view(texts@);
        let mut res: Vec<PermissionAction> = Vec::new();
        let mut i: usize = 0;
        while i < texts.len()
            invariant
                i <= texts.len(),
                sv == strings_view(texts@),
                res@ == PermissionAction::spec_parse_all(sv.take(i as int)),
            decreases texts.len() - i,
        {
            assert(sv.take(i + 1).drop_last() =~= sv.take(i as int));
            assert(sv.take(i + 1).last() == texts@[i as int]@);
            if let Ok(v) = PermissionAction::from_string(texts[i].as_str()) {
                res.push(v);
            }
            i = i + 1;
        }
        assert(sv.take(i as int) =~= sv);
        res
    }

    /// Reads the variants of a list of texts; the first text that stands for none is refused.
    pub fn from_strings(texts: &Vec<String>) -> (res: Result<Vec<PermissionAction>, AppError>)
        ensures
            PermissionAction::all_parse(strings_view(texts@)) ==> (res matches Ok(v)
                && v@ == PermissionAction::spec_parse_all(strings_view(texts@))),
            !PermissionAction::all_parse(strings_view(texts@)) ==> (res matches Err(AppError::ValidationError(m)) && m@ == "Invalid permission action"@),
    {
        let ghost sv = strings_view(texts@);
        let mut res: Vec<PermissionAction> = Vec::new();
        let mut i: usize = 0;
        while i < texts.len()
            invariant
                i <= texts.len(),
                sv == strings_view(texts@),
                res@ == PermissionAction::spec_parse_all(sv.take(i as int)),
                forall|j: int| 0 <= j < i ==> #[trigger] PermissionAction::spec_parse(sv[j]) is Some,
            decreases texts.len() - i,
        {
            assert(sv.take(i + 1).drop_last() =~= sv.take(i as int));
            assert(sv.take(i + 1).last() == texts@[i as int]@);
            assert(sv[i as int] == texts@[i as int]@);
            let v = PermissionAction::from_string(texts[i].as_str())?;
            res.push(v);
            i = i + 1;
        }
        assert(sv.take(i as int) =~= sv);
        Ok(res)
    }

    /// Whether a list of variants holds `x`.
    pub fn list_holds(v: &Vec<PermissionAction>, x: &PermissionAction) -> (res: bool)
        ensures
            res == v@.contains(*x),
    {
        let mut i: usize = 0;
        while i < v.len()
            invariant
                i <= v.len(),
                forall|j: int| 0 <= j < i ==> v@[j] != *x,
            decreases v.len() - i,
        {
            if v[i] == *x {
                assert(v@[i as int] == *x);
                return true;
            }
            i = i + 1;
        }
        false
    }

    /// Writes the texts of a list of variants.
    pub fn to_strings(v: &Vec<PermissionAction>) -> (res: Vec<String>)
        ensures
            strings_view(res@) == PermissionAction::spec_strs(v@),
    {
        let mut res: Vec<String> = Vec::new();
        let mut i: usize = 0;
        while i < v.len()
            invariant
                i <= v.len(),
                res.len() == i,
                forall|j: int| 0 <= j < i ==> #[trigger] res@[j]@ == v@[j].spec_str(),
            decreases v.len() - i,
        {
            res.push(v[i].to_string());
            i = i + 1;
        }
        assert(strings_view(res@) =~= PermissionAction::spec_strs(v@));
        res
    }

    /// Reading back the texts of a list of variants gives the list.
    pub proof fn lemma_parse_all_strs(v: Seq<PermissionAction>)
        ensures
            PermissionAction::spec_parse_all(PermissionAction::spec_strs(v)) == v,
        decreases v.len(),
    {
        if v.len() > 0 {
            PermissionAction::lemma_parse_all_strs(v.drop_last());
            assert(PermissionAction::spec_strs(v).drop_last() =~= PermissionAction::spec_strs(v.drop_last()));
            PermissionAction::lemma_parse_str(v.last());
            assert(v.drop_last().push(v.last()) =~= v);
        } else {
            assert(PermissionAction::spec_strs(v) =~= Seq::<Seq<char>>::empty());
        }
    }
}


/// What came of a permission check.
#[derive(Clone, Copy, Debug, PartialEq, Eq, Structural, Hash)]
pub enum PermissionStatus {
    Granted,
    Denied,
    Pending,
    Expired,
    Revoked,
}

impl PermissionStatus {
    /// The text that stands for the variant in items and requests.
    pub open spec fn spec_str(self) -> Seq<char> {
        match self {
            PermissionStatus::Granted => "granted"@,
            PermissionStatus::Denied => "denied"@,
            PermissionStatus::Pending => "pending"@,
            PermissionStatus::Expired => "expired"@,
            PermissionStatus::Revoked => "revoked"@,
        }
    }

    /// The variant that a text stands for, if any.
    pub open spec fn spec_parse(s: Seq<char>) -> Option<PermissionStatus> {
        if s == "granted"@ {
            Some(PermissionStatus::Granted)
        } else if s == "denied"@ {
            Some(PermissionStatus::Denied)
        } else if s == "pending"@ {
            Some(PermissionStatus::Pending)
        } else if s == "expired"@ {
            Some(PermissionStatus::Expired)
        } else if s == "revoked"@ {
            Some(PermissionStatus::Revoked)
        } else {
            None
        }
    }

    pub fn to_str(&self) -> (res: &'static str)
        ensures
            res@ == self.spec_str(),
    {
        match self {
            PermissionStatus::Granted => "granted",
            PermissionStatus::Denied => "denied",
            PermissionStatus::Pending => "pending",
            PermissionStatus::Expired => "expired",
            PermissionStatus::Revoked => "revoked",
        }
    }

    pub fn to_string(&self) -> (res: String)
        ensures
            res@ == self.spec_str(),
    {
        self.to_str().to_owned()
    }

    /// Reads a variant from its text; any other text is refused with a `ValidationError`.
    pub fn from_string(s: &str) -> (res: Result<PermissionStatus, AppError>)
        ensures
            match PermissionStatus::spec_parse(s@) {
                Some(v) => res == Ok::<PermissionStatus, AppError>(v),
                None => res matches Err(AppError::ValidationError(m)) && m@ == "Invalid permission status"@,
            },
    {
        if str_eq(s, "granted") {
            Ok(PermissionStatus::Granted)
        } else if str_eq(s, "denied") {
            Ok(PermissionStatus::Denied)
        } else if str_eq(s, "pending") {
            Ok(PermissionStatus::Pending)
        } else if str_eq(s, "expired") {
            Ok(PermissionStatus::Expired)
        } else if str_eq(s, "revoked") {
            Ok(PermissionStatus::Revoked)
        } else {
            Err(AppError::ValidationError("Invalid permission status".to_owned()))
        }
    }

    /// Reading back the text of a variant gives the variant.
    pub proof fn lemma_parse_str(v: PermissionStatus)
        ensures
            PermissionStatus::spec_parse(v.spec_str()) == Some(v),
    {
        broadcast use vstd::string::group_string_axioms;
        reveal_strlit("granted");
        reveal_strlit("denied");
        reveal_strlit("pending");
        reveal_strlit("expired");
        reveal_strlit("revoked");
        assert("granted"@.len() == 7);
        assert("denied"@.len() == 6);
        assert("pending"@.len() == 7);
        assert("expired"@.len() == 7);
        assert("revoked"@.len() == 7);
        assert("granted"@[0] != "pending"@[0]);
        assert("granted"@[0] != "expired"@[0]);
        assert("granted"@[0] != "revoked"@[0]);
        assert("pending"@[0] != "expired"@[0]);
        assert("pending"@[0] != "revoked"@[0]);
        assert("expired"@[0] != "revoked"@[0]);
    }
}


/// The kinds of resource that permissions govern.
#[derive(Clone, Copy, Debug, PartialEq, Eq, Structural, Hash)]
pub enum ResourceType {
    Asset,
    Location,
    MaintenanceSchedule,
    WorkOrder,
    User,
    Role,
    Notification,
    Report,
    System,
}

impl ResourceType {
    /// The text that stands for the variant in items and requests.
    pub open spec fn spec_str(self) -> Seq<char> {
        match self {
            ResourceType::Asset => "asset"@,
            ResourceType::Location => "location"@,
            ResourceType::MaintenanceSchedule => "maintenance_schedule"@,
            ResourceType::WorkOrder => "work_order"@,
            ResourceType::User => "user"@,
            ResourceType::Role => "role"@,
            ResourceType::Notification => "notification"@,
            ResourceType::Report => "report"@,
            ResourceType::System => "system"@,
        }
    }

    /// The variant that a text stands for, if any.
    pub open spec fn spec_parse(s: Seq<char>) -> Option<ResourceType> {
        if s == "asset"@ {
            Some(ResourceType::Asset)
        } else if s == "location"@ {
            Some(ResourceType::Location)
        } else if s == "maintenance_schedule"@ {
            Some(ResourceType::MaintenanceSchedule)
        } else if s == "work_order"@ {
            Some(ResourceType::WorkOrder)
        } else if s == "user"@ {
            Some(ResourceType::User)
        } else if s == "role"@ {
            Some(ResourceType::Role)
        } else if s == "notification"@ {
            Some(ResourceType::Notification)
        } else if s == "report"@ {
            Some(ResourceType::Report)
        } else if s == "system"@ {
            Some(ResourceType::System)
        } else {
            None
        }
    }

    pub fn to_str(&self) -> (res: &'static str)
        ensures
            res@ == self.spec_str(),
    {
        match self {
            ResourceType::Asset => "asset",
            ResourceType::Location => "location",
            ResourceType::MaintenanceSchedule => "maintenance_schedule",
            ResourceType::WorkOrder => "work_order",
            ResourceType::User => "user",
            ResourceType::Role => "role",
            ResourceType::Notification => "notification",
            ResourceType::Report => "report",
            ResourceType::System => "system",
        }
    }

    pub fn to_string(&self) -> (res: String)
        ensures
            res@ == self.spec_str(),
    {
        self.to_str().to_owned()
    }

    /// Reads a variant from its text; any other text is refused with a `ValidationError`.
    pub fn from_string(s: &str) -> (res: Result<ResourceType, AppError>)
        ensures
            match ResourceType::spec_parse(s@) {
                Some(v) => res == Ok::<ResourceType, AppError>(v),
                None => res matches Err(AppError::ValidationError(m)) && m@ == "Invalid resource type"@,
            },
    {
        if str_eq(s, "asset") {
            Ok(ResourceType::Asset)
        } else if str_eq(s, "location") {
            Ok(ResourceType::Location)
        } else if str_eq(s, "maintenance_schedule") {
            Ok(ResourceType::MaintenanceSchedule)
        } else if str_eq(s, "work_order") {
            Ok(ResourceType::WorkOrder)
        } else if str_eq(s, "user") {
            Ok(ResourceType::User)
        } else if str_eq(s, "role") {
            Ok(ResourceType::Role)
        } else if str_eq(s, "notification") {
            Ok(ResourceType::Notification)
        } else if str_eq(s, "report") {
            Ok(ResourceType::Report)
        } else if str_eq(s, "system") {
            Ok(ResourceType::System)
        } else {
            Err(AppError::ValidationError("Invalid resource type".to_owned()))
        }
    }

    /// Reading back the text of a variant gives the variant.
    pub proof fn lemma_parse_str(v: ResourceType)
        ensures
            ResourceType::spec_parse(v.spec_str()) == Some(v),
    {
        broadcast use vstd::string::group_string_axioms;
        reveal_strlit("asset");
        reveal_strlit("location");
        reveal_strlit("maintenance_schedule");
        reveal_strlit("work_order");
        reveal_strlit("user");
        reveal_strlit("role");
        reveal_strlit("notification");
        reveal_strlit("report");
        reveal_strlit("system");
        assert("asset"@.len() == 5);
        assert("location"@.len() == 8);
        assert("maintenance_schedule"@.len() == 20);
        assert("work_order"@.len() == 10);
        assert("user"@.len() == 4);
        assert("role"@.len() == 4);
        assert("notification"@.len() == 12);
        assert("report"@.len() == 6);
        assert("system"@.len() == 6);
        assert("user"@[0] != "role"@[0]);
        assert("report"@[0] != "system"@[0]);
    }
}


/// An audit record of one permission check.
#[derive(Clone, Debug)]
pub struct PermissionLog {
    pub id: String,
    pub user_id: String,
    pub resource_type: ResourceType,
    pub resource_id: String,
    pub action: PermissionAction,
    pub status: PermissionStatus,
    pub attempted_at: Timestamp,
    pub granted_at: Option<Timestamp>,
    pub denied_reason: Option<String>,
    pub ip_address: String,
    pub user_agent: String,
    pub session_id: Option<String>,
    pub role_at_time: Option<String>,
    pub created_at: Timestamp,
    pub updated_at: Timestamp,
}

impl PermissionLog {
    /// The instants are ones that `chrono` represents.
    pub open spec fn wf(&self) -> bool {
        &&& self.attempted_at.valid()
        &&& (self.granted_at matches Some(t) ==> t.valid())
        &&& self.created_at.valid()
        &&& self.updated_at.valid()
    }

    /// Whether an item holds what this entity needs to be read from it.
    pub open spec fn item_readable(iv: ItemView) -> bool {
        &&& s_at(iv, "id"@) is Some
        &&& s_at(iv, "user_id"@) is Some
        &&& s_at(iv, "resource_type"@) matches Some(c) && ResourceType::spec_parse(c) is Some
        &&& s_at(iv, "resource_id"@) is Some
        &&& s_at(iv, "action"@) matches Some(c) && PermissionAction::spec_parse(c) is Some
        &&& s_at(iv, "status"@) matches Some(c) && PermissionStatus::spec_parse(c) is Some
        &&& s_at(iv, "ip_address"@) is Some
        &&& s_at(iv, "user_agent"@) is Some
    }

    /// Whether this entity is what is read from an item, where instants that
    /// cannot be read are taken to be `now`.
    pub open spec fn read_from(&self, iv: ItemView, now: Timestamp) -> bool {
        &&& Some(self.id@) == s_at(iv, "id"@)
        &&& Some(self.user_id@) == s_at(iv, "user_id"@)
        &&& Some(self.resource_type) == ResourceType::spec_parse(s_at(iv, "resource_type"@)->0)
        &&& Some(self.resource_id@) == s_at(iv, "resource_id"@)
        &&& Some(self.action) == PermissionAction::spec_parse(s_at(iv, "action"@)->0)
        &&& Some(self.status) == PermissionStatus::spec_parse(s_at(iv, "status"@)->0)
        &&& self.attempted_at == timestamp_or(iv, "attempted_at"@, now)
        &&& self.granted_at == timestamp_at(iv, "granted_at"@)
        &&& opt_view(self.denied_reason) == s_at(iv, "denied_reason"@)
        &&& Some(self.ip_address@) == s_at(iv, "ip_address"@)
        &&& Some(self.user_agent@) == s_at(iv, "user_agent"@)
        &&& opt_view(self.session_id) == s_at(iv, "session_id"@)
        &&& opt_view(self.role_at_time) == s_at(iv, "role_at_time"@)
        &&& self.created_at == timestamp_or(iv, "created_at"@, now)
        &&& self.updated_at == timestamp_or(iv, "updated_at"@, now)
    }

    /// The item that `to_item` writes.
    pub open spec fn spec_item(&self) -> ItemView {
        let iv = Seq::empty();
        let iv = iv.push(("id"@, AttrView::S(self.id@)));
        let iv = iv.push(("user_id"@, AttrView::S(self.user_id@)));
        let iv = iv.push(("resource_type"@, AttrView::S(self.resource_type.spec_str())));
        let iv = iv.push(("resource_id"@, AttrView::S(self.resource_id@)));
        let iv = iv.push(("action"@, AttrView::S(self.action.spec_str())));
        let iv = iv.push(("status"@, AttrView::S(self.status.spec_str())));
        let iv = iv.push(("attempted_at"@, AttrView::S(chrono_format_datetime(self.attempted_at))));
        let iv = push_if(iv, self.granted_at is Some, ("granted_at"@, AttrView::S(chrono_format_datetime(self.granted_at->0))));
        let iv = push_if(iv, self.denied_reason is Some, ("denied_reason"@, AttrView::S(self.denied_reason->0@)));
        let iv = iv.push(("ip_address"@, AttrView::S(self.ip_address@)));
        let iv = iv.push(("user_agent"@, AttrView::S(self.user_agent@)));
        let iv = push_if(iv, self.session_id is Some, ("session_id"@, AttrView::S(self.session_id->0@)));
        let iv = push_if(iv, self.role_at_time is Some, ("role_at_time"@, AttrView::S(self.role_at_time->0@)));
        let iv = iv.push(("created_at"@, AttrView::S(chrono_format_datetime(self.created_at))));
        let iv = iv.push(("updated_at"@, AttrView::S(chrono_format_datetime(self.updated_at))));
        iv
    }

    /// Whether two entities hold the same values.
    pub open spec fn same_as(&self, other: &PermissionLog) -> bool {
        &&& self.id@ == other.id@
        &&& self.user_id@ == other.user_id@
        &&& self.resource_type == other.resource_type
        &&& self.resource_id@ == other.resource_id@
        &&& self.action == other.action
        &&& self.status == other.status
        &&& self.attempted_at == other.attempted_at
        &&& self.granted_at == other.granted_at
        &&& opt_view(self.denied_reason) == opt_view(other.denied_reason)
        &&& self.ip_address@ == other.ip_address@
        &&& self.user_agent@ == other.user_agent@
        &&& opt_view(self.session_id) == opt_view(other.session_id)
        &&& opt_view(self.role_at_time) == opt_view(other.role_at_time)
        &&& self.created_at == other.created_at
        &&& self.updated_at == other.updated_at
    }

    /// Reads the entity from an item, taking `now` for instants that are missing.
    pub fn from_item_at(item: &Item, now: Timestamp) -> (res: Option<Self>)
        requires
            now.valid(),
        ensures
            res is Some <==> Self::item_readable(item@),
            res matches Some(e) ==> e.read_from(item@, now) && e.wf(),
    {
        let id = read_s(item, "id")?;
        let user_id = read_s(item, "user_id")?;
        let resource_type_text = item.get_s("resource_type")?;
        let resource_type = ResourceType::from_string(resource_type_text.as_str()).ok()?;
        let resource_id = read_s(item, "resource_id")?;
        let action_text = item.get_s("action")?;
        let action = PermissionAction::from_string(action_text.as_str()).ok()?;
        let status_text = item.get_s("status")?;
        let status = PermissionStatus::from_string(status_text.as_str()).ok()?;
        let attempted_at = read_timestamp_or(item, "attempted_at", now);
        let granted_at = read_timestamp(item, "granted_at");
        let denied_reason = read_s(item, "denied_reason");
        let ip_address = read_s(item, "ip_address")?;
        let user_agent = read_s(item, "user_agent")?;
        let session_id = read_s(item, "session_id");
        let role_at_time = read_s(item, "role_at_time");
        let created_at = read_timestamp_or(item, "created_at", now);
        let updated_at = read_timestamp_or(item, "updated_at", now);
        Some(PermissionLog {
            id,
            user_id,
            resource_type,
            resource_id,
            action,
            status,
            attempted_at,
            granted_at,
            denied_reason,
            ip_address,
            user_agent,
            session_id,
            role_at_time,
            created_at,
            updated_at,
        })
    }

    /// Reads the entity from an item; instants that are missing are read from the clock.
    pub fn from_item(item: &Item) -> (res: Option<Self>)
        ensures
            res is Some <==> Self::item_readable(item@),
            res matches Some(e) ==> e.wf() && exists|t: Timestamp| t.valid() && e.read_from(item@, t),
    {
        let t = now();
        Self::from_item_at(item, t)
    }

    /// Writes the entity as an item.
    pub fn to_item(&self) -> (res: Item)
        requires
            self.wf(),
        ensures
            res@ == self.spec_item(),
            Self::item_readable(res@),
            forall|b: PermissionLog, now: Timestamp| #[trigger] b.read_from(res@, now) ==> b.same_as(self),
    {
        reveal(push_if);
        let mut item = Item::new();
        let ghost mut iv: ItemView = Seq::empty();
        item.insert_s("id", self.id.clone());
        proof { iv = iv.push(("id"@, AttrView::S(self.id@))); }
        assert(item@ == iv);
        item.insert_s("user_id", self.user_id.clone());
        proof { iv = iv.push(("user_id"@, AttrView::S(self.user_id@))); }
        assert(item@ == iv);
        item.insert_s("resource_type", self.resource_type.to_string());
        proof { iv = iv.push(("resource_type"@, AttrView::S(self.resource_type.spec_str()))); }
        assert(item@ == iv);
        item.insert_s("resource_id", self.resource_id.clone());
        proof { iv = iv.push(("resource_id"@, AttrView::S(self.resource_id@))); }
        assert(item@ == iv);
        item.insert_s("action", self.action.to_string());
        proof { iv = iv.push(("action"@, AttrView::S(self.action.spec_str()))); }
        assert(item@ == iv);
        item.insert_s("status", self.status.to_string());
        proof { iv = iv.push(("status"@, AttrView::S(self.status.spec_str()))); }
        assert(item@ == iv);
        write_timestamp(&mut item, "attempted_at", &self.attempted_at);
        proof { iv = iv.push(("attempted_at"@, AttrView::S(chrono_format_datetime(self.attempted_at)))); }
        assert(item@ == iv);
        if let Some(t) = &self.granted_at {
            write_timestamp(&mut item, "granted_at", t);
        }
        proof { iv = push_if(iv, self.granted_at is Some, ("granted_at"@, AttrView::S(chrono_format_datetime(self.granted_at->0)))); }
        assert(item@ == iv);
        if let Some(x) = &self.denied_reason {
            item.insert_s("denied_reason", x.clone());
        }
        proof { iv = push_if(iv, self.denied_reason is Some, ("denied_reason"@, AttrView::S(self.denied_reason->0@))); }
        assert(item@ == iv);
        item.insert_s("ip_address", self.ip_address.clone());
        proof { iv = iv.push(("ip_address"@, AttrView::S(self.ip_address@))); }
        assert(item@ == iv);
        item.insert_s("user_agent", self.user_agent.clone());
        proof { iv = iv.push(("user_agent"@, AttrView::S(self.user_agent@))); }
        assert(item@ == iv);
        if let Some(x) = &self.session_id {
            item.insert_s("session_id", x.clone());
        }
        proof { iv = push_if(iv, self.session_id is Some, ("session_id"@, AttrView::S(self.session_id->0@))); }
        assert(item@ == iv);
        if let Some(x) = &self.role_at_time {
            item.insert_s("role_at_time", x.clone());
        }
        proof { iv = push_if(iv, self.role_at_time is Some, ("role_at_time"@, AttrView::S(self.role_at_time->0@))); }
        assert(item@ == iv);
        write_timestamp(&mut item, "created_at", &self.created_at);
        proof { iv = iv.push(("created_at"@, AttrView::S(chrono_format_datetime(self.created_at)))); }
        assert(item@ == iv);
        write_timestamp(&mut item, "updated_at", &self.updated_at);
        proof { iv = iv.push(("updated_at"@, AttrView::S(chrono_format_datetime(self.updated_at)))); }
        assert(item@ == iv);
        proof {
            Self::lemma_item_roundtrip(self, self, Timestamp { secs: 0, nanos: 0 });
            assert forall|b: PermissionLog, now: Timestamp| #[trigger] b.read_from(item@, now) implies b.same_as(self) by {
                Self::lemma_item_roundtrip(self, &b, now);
            }
        }
        item
    }

    /// Every attribute the `PermissionLogs` table defines holds, in the item the entity is
    /// written as, nothing or a value of the type the table gives it, so
    /// DynamoDB accepts the item.
    pub proof fn lemma_item_fits_table(a: &PermissionLog)
        ensures
            item_fits_table(a.spec_item(), spec_permission_logs_table()),
    {
        broadcast use crate::item::lemma_lookup_push, crate::item::lemma_lookup_push_if;
        lemma_keys_distinct();
        lemma_table_keys_absent();
        let t = spec_permission_logs_table();
        assert forall|i: int| 0 <= i < t.attributes.len() implies match #[trigger] crate::item::lookup(a.spec_item(), t.attributes[i].0) {
            Some(v) => attr_fits(t.attributes[i].1, v),
            None => true,
        } by {
            if i == 0 { assert(t.attributes[0].0 == "id"@); } else if i == 1 { assert(t.attributes[1].0 == "user_id"@); } else if i == 2 { assert(t.attributes[2].0 == "action_type"@); } else if i == 3 { assert(t.attributes[3].0 == "resource_id"@); }
        }
    }

    /// Reading the entity back from the item it is written as gives the same
    /// entity, where `chrono` reads back the text of its instants.
    #[verifier::rlimit(100)]
    pub proof fn lemma_item_roundtrip(a: &PermissionLog, b: &PermissionLog, now: Timestamp)
        requires
            a.wf(),
            chrono_parse_datetime(chrono_format_datetime(a.attempted_at)) == Some(a.attempted_at),
            a.granted_at matches Some(t) ==> chrono_parse_datetime(chrono_format_datetime(t)) == Some(t),
            chrono_parse_datetime(chrono_format_datetime(a.created_at)) == Some(a.created_at),
            chrono_parse_datetime(chrono_format_datetime(a.updated_at)) == Some(a.updated_at),
        ensures
            Self::item_readable(a.spec_item()),
            b.read_from(a.spec_item(), now) ==> b.same_as(a),
    {
        broadcast use crate::item::lemma_lookup_push, crate::item::lemma_lookup_push_if;
        lemma_keys_distinct();
        ResourceType::lemma_parse_str(a.resource_type);
        PermissionAction::lemma_parse_str(a.action);
        PermissionStatus::lemma_parse_str(a.status);
    }

    /// Which check, if any, the arguments of `new` fail, in the order they are made.
    pub open spec fn spec_new_error(
        user_id: Seq<char>,
        resource_type: Seq<char>,
        resource_id: Seq<char>,
        action: Seq<char>,
        status: Seq<char>,
    ) -> Option<Seq<char>> {
        if is_blank_spec(user_id) {
            Some("User ID cannot be empty"@)
        } else if is_blank_spec(resource_id) {
            Some("Resource ID cannot be empty"@)
        } else if ResourceType::spec_parse(resource_type) is None {
            Some("Invalid resource type"@)
        } else if PermissionAction::spec_parse(action) is None {
            Some("Invalid permission action"@)
        } else if PermissionStatus::spec_parse(status) is None {
            Some("Invalid permission status"@)
        } else {
            None
        }
    }

    /// Records an attempt to act on a resource and what came of it.
    pub fn new(
        id: String,
        user_id: String,
        resource_type: String,
        resource_id: String,
        action: String,
        status: String,
        attempted_at: Timestamp,
        granted_at: Option<Timestamp>,
        denied_reason: Option<String>,
        ip_address: String,
        user_agent: String,
        session_id: Option<String>,
        role_at_time: Option<String>,
    ) -> (res: Result<Self, AppError>)
        ensures
            match Self::spec_new_error(user_id@, resource_type@, resource_id@, action@, status@) {
                Some(m) => is_validation_error(res, m),
                None => res matches Ok(l) && {
                    &&& l.id == id && l.user_id == user_id && l.resource_id == resource_id
                    &&& Some(l.resource_type) == ResourceType::spec_parse(resource_type@)
                    &&& Some(l.action) == PermissionAction::spec_parse(action@)
                    &&& Some(l.status) == PermissionStatus::spec_parse(status@)
                    &&& l.attempted_at == attempted_at && l.granted_at == granted_at
                    &&& l.denied_reason == denied_reason && l.ip_address == ip_address
                    &&& l.user_agent == user_agent && l.session_id == session_id && l.role_at_time == role_at_time
                    &&& l.created_at == l.updated_at && l.created_at.valid()
                },
            },
            res matches Ok(x) ==> !is_blank_spec(x.user_id@) && !is_blank_spec(x.resource_id@),
    {
        let now = now();
        if is_blank(user_id.as_str()) {
            return Err(AppError::ValidationError("User ID cannot be empty".to_owned()));
        }
        if is_blank(resource_id.as_str()) {
            return Err(AppError::ValidationError("Resource ID cannot be empty".to_owned()));
        }
        let resource_type_enum = ResourceType::from_string(resource_type.as_str())?;
        let action_enum = PermissionAction::from_string(action.as_str())?;
        let status_enum = PermissionStatus::from_string(status.as_str())?;
        Ok(PermissionLog {
            id,
            user_id,
            resource_type: resource_type_enum,
            resource_id,
            action: action_enum,
            status: status_enum,
            attempted_at,
            granted_at,
            denied_reason,
            ip_address,
            user_agent,
            session_id,
            role_at_time,
            created_at: now,
            updated_at: now,
        })
    }

}

proof fn lemma_keys_distinct()
    ensures
        "id"@ != "user_id"@,
        "id"@ != "resource_type"@,
        "id"@ != "resource_id"@,
        "id"@ != "action"@,
        "id"@ != "status"@,
        "id"@ != "attempted_at"@,
        "id"@ != "granted_at"@,
        "id"@ != "denied_reason"@,
        "id"@ != "ip_address"@,
        "id"@ != "user_agent"@,
        "id"@ != "session_id"@,
        "id"@ != "role_at_time"@,
        "id"@ != "created_at"@,
        "id"@ != "updated_at"@,
        "user_id"@ != "resource_type"@,
        "user_id"@ != "resource_id"@,
        "user_id"@ != "action"@,
        "user_id"@ != "status"@,
        "user_id"@ != "attempted_at"@,
        "user_id"@ != "granted_at"@,
        "user_id"@ != "denied_reason"@,
        "user_id"@ != "ip_address"@,
        "user_id"@ != "user_agent"@,
        "user_id"@ != "session_id"@,
        "user_id"@ != "role_at_time"@,
        "user_id"@ != "created_at"@,
        "user_id"@ != "updated_at"@,
        "resource_type"@ != "resource_id"@,
        "resource_type"@ != "action"@,
        "resource_type"@ != "status"@,
        "resource_type"@ != "attempted_at"@,
        "resource_type"@ != "granted_at"@,
        "resource_type"@ != "denied_reason"@,
        "resource_type"@ != "ip_address"@,
        "resource_type"@ != "user_agent"@,
        "resource_type"@ != "session_id"@,
        "resource_type"@ != "role_at_time"@,
        "resource_type"@ != "created_at"@,
        "resource_type"@ != "updated_at"@,
        "resource_id"@ != "action"@,
        "resource_id"@ != "status"@,
        "resource_id"@ != "attempted_at"@,
        "resource_id"@ != "granted_at"@,
        "resource_id"@ != "denied_reason"@,
        "resource_id"@ != "ip_address"@,
        "resource_id"@ != "user_agent"@,
        "resource_id"@ != "session_id"@,
        "resource_id"@ != "role_at_time"@,
        "resource_id"@ != "created_at"@,
        "resource_id"@ != "updated_at"@,
        "action"@ != "status"@,
        "action"@ != "attempted_at"@,
        "action"@ != "granted_at"@,
        "action"@ != "denied_reason"@,
        "action"@ != "ip_address"@,
        "action"@ != "user_agent"@,
        "action"@ != "session_id"@,
        "action"@ != "role_at_time"@,
        "action"@ != "created_at"@,
        "action"@ != "updated_at"@,
        "status"@ != "attempted_at"@,
        "status"@ != "granted_at"@,
        "status"@ != "denied_reason"@,
        "status"@ != "ip_address"@,
        "status"@ != "user_agent"@,
        "status"@ != "session_id"@,
        "status"@ != "role_at_time"@,
        "status"@ != "created_at"@,
        "status"@ != "updated_at"@,
        "attempted_at"@ != "granted_at"@,
        "attempted_at"@ != "denied_reason"@,
        "attempted_at"@ != "ip_address"@,
        "attempted_at"@ != "user_agent"@,
        "attempted_at"@ != "session_id"@,
        "attempted_at"@ != "role_at_time"@,
        "attempted_at"@ != "created_at"@,
        "attempted_at"@ != "updated_at"@,
        "granted_at"@ != "denied_reason"@,
        "granted_at"@ != "ip_address"@,
        "granted_at"@ != "user_agent"@,
        "granted_at"@ != "session_id"@,
        "granted_at"@ != "role_at_time"@,
        "granted_at"@ != "created_at"@,
        "granted_at"@ != "updated_at"@,
        "denied_reason"@ != "ip_address"@,
        "denied_reason"@ != "user_agent"@,
        "denied_reason"@ != "session_id"@,
        "denied_reason"@ != "role_at_time"@,
        "denied_reason"@ != "created_at"@,
        "denied_reason"@ != "updated_at"@,
        "ip_address"@ != "user_agent"@,
        "ip_address"@ != "session_id"@,
        "ip_address"@ != "role_at_time"@,
        "ip_address"@ != "created_at"@,
        "ip_address"@ != "updated_at"@,
        "user_agent"@ != "session_id"@,
        "user_agent"@ != "role_at_time"@,
        "user_agent"@ != "created_at"@,
        "user_agent"@ != "updated_at"@,
        "session_id"@ != "role_at_time"@,
        "session_id"@ != "created_at"@,
        "session_id"@ != "updated_at"@,
        "role_at_time"@ != "created_at"@,
        "role_at_time"@ != "updated_at"@,
        "created_at"@ != "updated_at"@,
{
    broadcast use vstd::string::group_string_axioms;
    reveal_strlit("id");
    reveal_strlit("user_id");
    reveal_strlit("resource_type");
    reveal_strlit("resource_id");
    reveal_strlit("action");
    reveal_strlit("status");
    reveal_strlit("attempted_at");
    reveal_strlit("granted_at");
    reveal_strlit("denied_reason");
    reveal_strlit("ip_address");
    reveal_strlit("user_agent");
    reveal_strlit("session_id");
    reveal_strlit("role_at_time");
    reveal_strlit("created_at");
    reveal_strlit("updated_at");
    assert("id"@.len() == 2);
    assert("user_id"@.len() == 7);
    assert("resource_type"@.len() == 13);
    assert("resource_id"@.len() == 11);
    assert("action"@.len() == 6);
    assert("status"@.len() == 6);
    assert("attempted_at"@.len() == 12);
    assert("granted_at"@.len() == 10);
    assert("denied_reason"@.len() == 13);
    assert("ip_address"@.len() == 10);
    assert("user_agent"@.len() == 10);
    assert("session_id"@.len() == 10);
    assert("role_at_time"@.len() == 12);
    assert("created_at"@.len() == 10);
    assert("updated_at"@.len() == 10);
    assert("resource_type"@[0] != "denied_reason"@[0]);
    assert("action"@[0] != "status"@[0]);
    assert("attempted_at"@[0] != "role_at_time"@[0]);
    assert("granted_at"@[0] != "ip_address"@[0]);
    assert("granted_at"@[0] != "user_agent"@[0]);
    assert("granted_at"@[0] != "session_id"@[0]);
    assert("granted_at"@[0] != "created_at"@[0]);
    assert("granted_at"@[0] != "updated_at"@[0]);
    assert("ip_address"@[0] != "user_agent"@[0]);
    assert("ip_address"@[0] != "session_id"@[0]);
    assert("ip_address"@[0] != "created_at"@[0]);
    assert("ip_address"@[0] != "updated_at"@[0]);
    assert("user_agent"@[0] != "session_id"@[0]);
    assert("user_agent"@[0] != "created_at"@[0]);
    assert("user_agent"@[1] != "updated_at"@[1]);
    assert("session_id"@[0] != "created_at"@[0]);
    assert("session_id"@[0] != "updated_at"@[0]);
    assert("created_at"@[0] != "updated_at"@[0]);
}

proof fn lemma_table_keys_absent()
    ensures
        "action_type"@ != "action"@,
        "action_type"@ != "attempted_at"@,
        "action_type"@ != "created_at"@,
        "action_type"@ != "denied_reason"@,
        "action_type"@ != "granted_at"@,
        "action_type"@ != "id"@,
        "action_type"@ != "ip_address"@,
        "action_type"@ != "resource_id"@,
        "action_type"@ != "resource_type"@,
        "action_type"@ != "role_at_time"@,
        "action_type"@ != "session_id"@,
        "action_type"@ != "status"@,
        "action_type"@ != "updated_at"@,
        "action_type"@ != "user_agent"@,
        "action_type"@ != "user_id"@,
{
    broadcast use vstd::string::group_string_axioms;
    reveal_strlit("action_type");
    reveal_strlit("action");
    reveal_strlit("attempted_at");
    reveal_strlit("created_at");
    reveal_strlit("denied_reason");
    reveal_strlit("granted_at");
    reveal_strlit("id");
    reveal_strlit("ip_address");
    reveal_strlit("resource_id");
    reveal_strlit("resource_type");
    reveal_strlit("role_at_time");
    reveal_strlit("session_id");
    reveal_strlit("status");
    reveal_strlit("updated_at");
    reveal_strlit("user_agent");
    reveal_strlit("user_id");
    assert("action_type"@.len() == 11);
    assert("action"@.len() == 6);
    assert("attempted_at"@.len() == 12);
    assert("created_at"@.len() == 10);
    assert("denied_reason"@.len() == 13);
    assert("granted_at"@.len() == 10);
    assert("id"@.len() == 2);
    assert("ip_address"@.len() == 10);
    assert("resource_id"@.len() == 11);
    assert("resource_type"@.len() == 13);
    assert("role_at_time"@.len() == 12);
    assert("session_id"@.len() == 10);
    assert("status"@.len() == 6);
    assert("updated_at"@.len() == 10);
    assert("user_agent"@.len() == 10);
    assert("user_id"@.len() == 7);
    assert("action_type"@.len() != "action"@.len());
    assert("action_type"@.len() != "attempted_at"@.len());
    assert("action_type"@.len() != "created_at"@.len());
    assert("action_type"@.len() != "denied_reason"@.len());
    assert("action_type"@.len() != "granted_at"@.len());
    assert("action_type"@.len() != "id"@.len());
    assert("action_type"@.len() != "ip_address"@.len());
    assert("action_type"@[0] != "resource_id"@[0]);
    assert("action_type"@.len() != "resource_type"@.len());
    assert("action_type"@.len() != "role_at_time"@.len());
    assert("action_type"@.len() != "session_id"@.len());
    assert("action_type"@.len() != "status"@.len());
    assert("action_type"@.len() != "updated_at"@.len());
    assert("action_type"@.len() != "user_agent"@.len());
    assert("action_type"@.len() != "user_id"@.len());
}

} // verus!
