//! Temporary elevations of a user to a higher role, and their approval.
use vstd::prelude::*;

use crate::error::{is_validation_error, AppError};
use crate::fields::{
    bool_or, opt_view, read_bool_or, read_s, read_timestamp, read_timestamp_or, timestamp_at,
    timestamp_or, write_timestamp,
};
use crate::item::{lookup, push_if, s_at, AttrView, Item, ItemView};

use crate::text::{is_blank, is_blank_spec, str_eq};
use crate::time::{chrono_format_datetime, chrono_parse_datetime, now, some_valid, Timestamp};

use crate::tables::{attr_fits, item_fits_table, spec_temp_role_elevation_table};

verus! {

/// Where an elevation stands.
#[derive(Clone, Copy, Debug, PartialEq, Eq, Structural, Hash)]
pub enum ElevationStatus {
    Pending,
    Approved,
    Active,
    Expired,
    Revoked,
    Denied,
    Cancelled,
}

impl ElevationStatus {
    /// The text that stands for the variant in items and requests.
    pub open spec fn spec_str(self) -> Seq<char> {
        match self {
            ElevationStatus::Pending => "pending"@,
            ElevationStatus::Approved => "approved"@,
            ElevationStatus::Active => "active"@,
            ElevationStatus::Expired => "expired"@,
            ElevationStatus::Revoked => "revoked"@,
            ElevationStatus::Denied => "denied"@,
            ElevationStatus::Cancelled => "cancelled"@,
        }
    }

    /// The variant that a text stands for, if any.
    pub open spec fn spec_parse(s: Seq<char>) -> Option<ElevationStatus> {
        if s == "pending"@ {
            Some(ElevationStatus::Pending)
        } else if s == "approved"@ {
            Some(ElevationStatus::Approved)
        } else if s == "active"@ {
            Some(ElevationStatus::Active)
        } else if s == "expired"@ {
            Some(ElevationStatus::Expired)
        } else if s == "revoked"@ {
            Some(ElevationStatus::Revoked)
        } else if s == "denied"@ {
            Some(ElevationStatus::Denied)
        } else if s == "cancelled"@ {
            Some(ElevationStatus::Cancelled)
        } else {
            None
        }
    }

    pub fn to_str(&self) -> (res: &'static str)
        ensures
            res@ == self.spec_str(),
    {
        match self {
            ElevationStatus::Pending => "pending",
            ElevationStatus::Approved => "approved",
            ElevationStatus::Active => "active",
            ElevationStatus::Expired => "expired",
            ElevationStatus::Revoked => "revoked",
            ElevationStatus::Denied => "denied",
            ElevationStatus::Cancelled => "cancelled",
        }
    }

    pub fn to_string(&self) -> (res: String)
        ensures
            res@ == self.spec_str(),
    {
        self.to_str().to_owned()
    }

    /// Reads a variant from its text; any other text is refused with a `ValidationError`.
    pub fn from_string(s: &str) -> (res: Result<ElevationStatus, AppError>)
        ensures
            match ElevationStatus::spec_parse(s@) {
                Some(v) => res == Ok::<ElevationStatus, AppError>(v),
                None => res matches Err(AppError::ValidationError(m)) && m@ == "Invalid elevation status"@,
            },
    {
        if str_eq(s, "pending") {
            Ok(ElevationStatus::Pending)
        } else if str_eq(s, "approved") {
            Ok(ElevationStatus::Approved)
        } else if str_eq(s, "active") {
            Ok(ElevationStatus::Active)
        } else if str_eq(s, "expired") {
            Ok(ElevationStatus::Expired)
        } else if str_eq(s, "revoked") {
            Ok(ElevationStatus::Revoked)
        } else if str_eq(s, "denied") {
            Ok(ElevationStatus::Denied)
        } else if str_eq(s, "cancelled") {
            Ok(ElevationStatus::Cancelled)
        } else {
            Err(AppError::ValidationError("Invalid elevation status".to_owned()))
        }
    }

    /// Reading back the text of a variant gives the variant.
    pub proof fn lemma_parse_str(v: ElevationStatus)
        ensures
            ElevationStatus::spec_parse(v.spec_str()) == Some(v),
    {
        broadcast use vstd::string::group_string_axioms;
        reveal_strlit("pending");
        reveal_strlit("approved");
        reveal_strlit("active");
        reveal_strlit("expired");
        reveal_strlit("revoked");
        reveal_strlit("denied");
        reveal_strlit("cancelled");
        assert("pending"@.len() == 7);
        assert("approved"@.len() == 8);
        assert("active"@.len() == 6);
        assert("expired"@.len() == 7);
        assert("revoked"@.len() == 7);
        assert("denied"@.len() == 6);
        assert("cancelled"@.len() == 9);
        assert("pending"@[0] != "expired"@[0]);
        assert("pending"@[0] != "revoked"@[0]);
        assert("active"@[0] != "denied"@[0]);
        assert("expired"@[0] != "revoked"@[0]);
    }
}


/// How urgent an elevation is.
#[derive(Clone, Copy, Debug, PartialEq, Eq, Structural, Hash)]
pub enum ElevationPriority {
    Low,
    Normal,
    High,
    Emergency,
}

impl ElevationPriority {
    /// The text that stands for the variant in items and requests.
    pub open spec fn spec_str(self) -> Seq<char> {
        match self {
            ElevationPriority::Low => "low"@,
            ElevationPriority::Normal => "normal"@,
            ElevationPriority::High => "high"@,
            ElevationPriority::Emergency => "emergency"@,
        }
    }

    /// The variant that a text stands for, if any.
    pub open spec fn spec_parse(s: Seq<char>) -> Option<ElevationPriority> {
        if s == "low"@ {
            Some(ElevationPriority::Low)
        } else if s == "normal"@ {
            Some(ElevationPriority::Normal)
        } else if s == "high"@ {
            Some(ElevationPriority::High)
        } else if s == "emergency"@ {
            Some(ElevationPriority::Emergency)
        } else {
            None
        }
    }

    pub fn to_str(&self) -> (res: &'static str)
        ensures
            res@ == self.spec_str(),
    {
        match self {
            ElevationPriority::Low => "low",
            ElevationPriority::Normal => "normal",
            ElevationPriority::High => "high",
            ElevationPriority::Emergency => "emergency",
        }
    }

    pub fn to_string(&self) -> (res: String)
        ensures
            res@ == self.spec_str(),
    {
        self.to_str().to_owned()
    }

    /// Reads a variant from its text; any other text is refused with a `ValidationError`.
    pub fn from_string(s: &str) -> (res: Result<ElevationPriority, AppError>)
        ensures
            match ElevationPriority::spec_parse(s@) {
                Some(v) => res == Ok::<ElevationPriority, AppError>(v),
                None => res matches Err(AppError::ValidationError(m)) && m@ == "Invalid elevation priority"@,
            },
    {
        if str_eq(s, "low") {
            Ok(ElevationPriority::Low)
        } else if str_eq(s, "normal") {
            Ok(ElevationPriority::Normal)
        } else if str_eq(s, "high") {
            Ok(ElevationPriority::High)
        } else if str_eq(s, "emergency") {
            Ok(ElevationPriority::Emergency)
        } else {
            Err(AppError::ValidationError("Invalid elevation priority".to_owned()))
        }
    }

    /// Reading back the text of a variant gives the variant.
    pub proof fn lemma_parse_str(v: ElevationPriority)
        ensures
            ElevationPriority::spec_parse(v.spec_str()) == Some(v),
    {
        broadcast use vstd::string::group_string_axioms;
        reveal_strlit("low");
        reveal_strlit("normal");
        reveal_strlit("high");
        reveal_strlit("emergency");
        assert("low"@.len() == 3);
        assert("normal"@.len() == 6);
        assert("high"@.len() == 4);
        assert("emergency"@.len() == 9);
    }
}


/// A request to hold a higher role for a limited time.
#[derive(Clone, Debug)]
pub struct TempRoleElevation {
    pub id: String,
    pub user_id: String,
    pub original_role_id: String,
    pub elevated_role_id: String,
    pub reason: Option<String>,
    pub justification: Option<String>,
    pub requested_by_user_id: String,
    pub approved_by_user_id: Option<String>,
    pub start_time: Timestamp,
    pub end_time: Timestamp,
    pub actual_start_time: Option<Timestamp>,
    pub actual_end_time: Option<Timestamp>,
    pub status: ElevationStatus,
    pub priority: ElevationPriority,
    pub auto_revoke: bool,
    pub notification_sent: bool,
    pub approval_required: bool,
    pub approval_deadline: Option<Timestamp>,
    pub revoked_by_user_id: Option<String>,
    pub revocation_reason: Option<String>,
    pub created_at: Timestamp,
    pub updated_at: Timestamp,
}

impl TempRoleElevation {
    /// The instants are ones that `chrono` represents.
    pub open spec fn wf(&self) -> bool {
        &&& self.start_time.valid()
        &&& self.end_time.valid()
        &&& (self.actual_start_time matches Some(t) ==> t.valid())
        &&& (self.actual_end_time matches Some(t) ==> t.valid())
        &&& (self.approval_deadline matches Some(t) ==> t.valid())
        &&& self.created_at.valid()
        &&& self.updated_at.valid()
    }

    /// Whether an item holds what this entity needs to be read from it.
    pub open spec fn item_readable(iv: ItemView) -> bool {
        &&& s_at(iv, "id"@) is Some
        &&& s_at(iv, "user_id"@) is Some
        &&& s_at(iv, "original_role_id"@) is Some
        &&& s_at(iv, "elevated_role_id"@) is Some
        &&& s_at(iv, "requested_by_user_id"@) is Some
        &&& s_at(iv, "status"@) matches Some(c) && ElevationStatus::spec_parse(c) is Some
        &&& s_at(iv, "priority"@) matches Some(c) && ElevationPriority::spec_parse(c) is Some
    }

    /// Whether this entity is what is read from an item, where instants that
    /// cannot be read are taken to be `now`.
    pub open spec fn read_from(&self, iv: ItemView, now: Timestamp) -> bool {
        &&& Some(self.id@) == s_at(iv, "id"@)
        &&& Some(self.user_id@) == s_at(iv, "user_id"@)
        &&& Some(self.original_role_id@) == s_at(iv, "original_role_id"@)
        &&& Some(self.elevated_role_id@) == s_at(iv, "elevated_role_id"@)
        &&& opt_view(self.reason) == s_at(iv, "reason"@)
        &&& opt_view(self.justification) == s_at(iv, "justification"@)
        &&& Some(self.requested_by_user_id@) == s_at(iv, "requested_by_user_id"@)
        &&& opt_view(self.approved_by_user_id) == s_at(iv, "approved_by_user_id"@)
        &&& self.start_time == timestamp_or(iv, "start_time"@, now)
        &&& self.end_time == timestamp_or(iv, "end_time"@, now)
        &&& self.actual_start_time == timestamp_at(iv, "actual_start_time"@)
        &&& self.actual_end_time == timestamp_at(iv, "actual_end_time"@)
        &&& Some(self.status) == ElevationStatus::spec_parse(s_at(iv, "status"@)->0)
        &&& Some(self.priority) == ElevationPriority::spec_parse(s_at(iv, "priority"@)->0)
        &&& self.auto_revoke == bool_or(iv, "auto_revoke"@, true)
        &&& self.notification_sent == bool_or(iv, "notification_sent"@, false)
        &&& self.approval_required == bool_or(iv, "approval_required"@, true)
        &&& self.approval_deadline == timestamp_at(iv, "approval_deadline"@)
        &&& opt_view(self.revoked_by_user_id) == s_at(iv, "revoked_by_user_id"@)
        &&& opt_view(self.revocation_reason) == s_at(iv, "revocation_reason"@)
        &&& self.created_at == timestamp_or(iv, "created_at"@, now)
        &&& self.updated_at == timestamp_or(iv, "updated_at"@, now)
    }

    /// The entries that `to_item` writes for id, user_id, original_role_id, elevated_role_id, reason, justification, requested_by_user_id, approved_by_user_id, start_time, end_time, actual_start_time, actual_end_time, after those of `iv`.
    pub open spec fn spec_item_part1(&self, iv: ItemView) -> ItemView {
        let iv = iv.push(("id"@, AttrView::S(self.id@)));
        let iv = iv.push(("user_id"@, AttrView::S(self.user_id@)));
        let iv = iv.push(("original_role_id"@, AttrView::S(self.original_role_id@)));
        let iv = iv.push(("elevated_role_id"@, AttrView::S(self.elevated_role_id@)));
        let iv = push_if(iv, self.reason is Some, ("reason"@, AttrView::S(self.reason->0@)));
        let iv = push_if(iv, self.justification is Some, ("justification"@, AttrView::S(self.justification->0@)));
        let iv = iv.push(("requested_by_user_id"@, AttrView::S(self.requested_by_user_id@)));
        let iv = push_if(iv, self.approved_by_user_id is Some, ("approved_by_user_id"@, AttrView::S(self.approved_by_user_id->0@)));
        let iv = iv.push(("start_time"@, AttrView::S(chrono_format_datetime(self.start_time))));
        let iv = iv.push(("end_time"@, AttrView::S(chrono_format_datetime(self.end_time))));
        let iv = push_if(iv, self.actual_start_time is Some, ("actual_start_time"@, AttrView::S(chrono_format_datetime(self.actual_start_time->0))));
        let iv = push_if(iv, self.actual_end_time is Some, ("actual_end_time"@, AttrView::S(chrono_format_datetime(self.actual_end_time->0))));
        iv
    }

    /// The entries that `to_item` writes for status, priority, auto_revoke, notification_sent, approval_required, approval_deadline, revoked_by_user_id, revocation_reason, created_at, updated_at, after those of `iv`.
    pub open spec fn spec_item_part2(&self, iv: ItemView) -> ItemView {
        let iv = iv.push(("status"@, AttrView::S(self.status.spec_str())));
        let iv = iv.push(("priority"@, AttrView::S(self.priority.spec_str())));
        let iv = iv.push(("auto_revoke"@, AttrView::Bool(self.auto_revoke)));
        let iv = iv.push(("notification_sent"@, AttrView::Bool(self.notification_sent)));
        let iv = iv.push(("approval_required"@, AttrView::Bool(self.approval_required)));
        let iv = push_if(iv, self.approval_deadline is Some, ("approval_deadline"@, AttrView::S(chrono_format_datetime(self.approval_deadline->0))));
        let iv = push_if(iv, self.revoked_by_user_id is Some, ("revoked_by_user_id"@, AttrView::S(self.revoked_by_user_id->0@)));
        let iv = push_if(iv, self.revocation_reason is Some, ("revocation_reason"@, AttrView::S(self.revocation_reason->0@)));
        let iv = iv.push(("created_at"@, AttrView::S(chrono_format_datetime(self.created_at))));
        let iv = iv.push(("updated_at"@, AttrView::S(chrono_format_datetime(self.updated_at))));
        iv
    }

    /// The item that `to_item` writes.
    pub open spec fn spec_item(&self) -> ItemView {
        self.spec_item_part2(self.spec_item_part1(Seq::empty()))
    }

    /// Whether two entities hold the same values.
    pub open spec fn same_as(&self, other: &TempRoleElevation) -> bool {
        &&& self.id@ == other.id@
        &&& self.user_id@ == other.user_id@
        &&& self.original_role_id@ == other.original_role_id@
        &&& self.elevated_role_id@ == other.elevated_role_id@
        &&& opt_view(self.reason) == opt_view(other.reason)
        &&& opt_view(self.justification) == opt_view(other.justification)
        &&& self.requested_by_user_id@ == other.requested_by_user_id@
        &&& opt_view(self.approved_by_user_id) == opt_view(other.approved_by_user_id)
        &&& self.start_time == other.start_time
        &&& self.end_time == other.end_time
        &&& self.actual_start_time == other.actual_start_time
        &&& self.actual_end_time == other.actual_end_time
        &&& self.status == other.status
        &&& self.priority == other.priority
        &&& self.auto_revoke == other.auto_revoke
        &&& self.notification_sent == other.notification_sent
        &&& self.approval_required == other.approval_required
        &&& self.approval_deadline == other.approval_deadline
        &&& opt_view(self.revoked_by_user_id) == opt_view(other.revoked_by_user_id)
        &&& opt_view(self.revocation_reason) == opt_view(other.revocation_reason)
        &&& self.created_at == other.created_at
        &&& self.updated_at == other.updated_at
    }

    /// Reads the entity from an item, taking `now` for instants that are missing.
    pub fn from_item_at(item: &Item, now: Timestamp) -> (res: Option<Self>)
        requires
            now.valid(),
        ensures
            res is Some <==> Self::item_readable(item@),
            res matches Some(e) ==> e.read_from(item@, now) && e.wf(),
    {
        let id = read_s(item, "id")?;
        let user_id = read_s(item, "user_id")?;
        let original_role_id = read_s(item, "original_role_id")?;
        let elevated_role_id = read_s(item, "elevated_role_id")?;
        let reason = read_s(item, "reason");
        let justification = read_s(item, "justification");
        let requested_by_user_id = read_s(item, "requested_by_user_id")?;
        let approved_by_user_id = read_s(item, "approved_by_user_id");
        let start_time = read_timestamp_or(item, "start_time", now);
        let end_time = read_timestamp_or(item, "end_time", now);
        let actual_start_time = read_timestamp(item, "actual_start_time");
        let actual_end_time = read_timestamp(item, "actual_end_time");
        let status_text = item.get_s("status")?;
        let status = ElevationStatus::from_string(status_text.as_str()).ok()?;
        let priority_text = item.get_s("priority")?;
        let priority = ElevationPriority::from_string(priority_text.as_str()).ok()?;
        let auto_revoke = read_bool_or(item, "auto_revoke", true);
        let notification_sent = read_bool_or(item, "notification_sent", false);
        let approval_required = read_bool_or(item, "approval_required", true);
        let approval_deadline = read_timestamp(item, "approval_deadline");
        let revoked_by_user_id = read_s(item, "revoked_by_user_id");
        let revocation_reason = read_s(item, "revocation_reason");
        let created_at = read_timestamp_or(item, "created_at", now);
        let updated_at = read_timestamp_or(item, "updated_at", now);
        Some(TempRoleElevation {
            id,
            user_id,
            original_role_id,
            elevated_role_id,
            reason,
            justification,
            requested_by_user_id,
            approved_by_user_id,
            start_time,
            end_time,
            actual_start_time,
            actual_end_time,
            status,
            priority,
            auto_revoke,
            notification_sent,
            approval_required,
            approval_deadline,
            revoked_by_user_id,
            revocation_reason,
            created_at,
            updated_at,
        })
    }

    /// Reads the entity from an item; instants that are missing are read from the clock.
    pub fn from_item(item: &Item) -> (res: Option<Self>)
        ensures
            res is Some <==> Self::item_readable(item@),
            res matches Some(e) ==> e.wf() && exists|t: Timestamp| t.valid() && e.read_from(item@, t),
    {
        let t = now();
        Self::from_item_at(item, t)
    }

    fn write_part1(&self, item: &mut Item)
        requires
            self.wf(),
        ensures
            final(item)@ == self.spec_item_part1(old(item)@),
            chrono_parse_datetime(chrono_format_datetime(self.start_time)) == Some(self.start_time),
            chrono_parse_datetime(chrono_format_datetime(self.end_time)) == Some(self.end_time),
            self.actual_start_time matches Some(t) ==> chrono_parse_datetime(chrono_format_datetime(t)) == Some(t),
            self.actual_end_time matches Some(t) ==> chrono_parse_datetime(chrono_format_datetime(t)) == Some(t),
    {
        reveal(push_if);
        let ghost mut iv: ItemView = old(item)@;
        item.insert_s("id", self.id.clone());
        proof { iv = iv.push(("id"@, AttrView::S(self.id@))); }
        assert(item@ == iv);
        item.insert_s("user_id", self.user_id.clone());
        proof { iv = iv.push(("user_id"@, AttrView::S(self.user_id@))); }
        assert(item@ == iv);
        item.insert_s("original_role_id", self.original_role_id.clone());
        proof { iv = iv.push(("original_role_id"@, AttrView::S(self.original_role_id@))); }
        assert(item@ == iv);
        item.insert_s("elevated_role_id", self.elevated_role_id.clone());
        proof { iv = iv.push(("elevated_role_id"@, AttrView::S(self.elevated_role_id@))); }
        assert(item@ == iv);
        if let Some(x) = &self.reason {
            item.insert_s("reason", x.clone());
        }
        proof { iv = push_if(iv, self.reason is Some, ("reason"@, AttrView::S(self.reason->0@))); }
        assert(item@ == iv);
        if let Some(x) = &self.justification {
            item.insert_s("justification", x.clone());
        }
        proof { iv = push_if(iv, self.justification is Some, ("justification"@, AttrView::S(self.justification->0@))); }
        assert(item@ == iv);
        item.insert_s("requested_by_user_id", self.requested_by_user_id.clone());
        proof { iv = iv.push(("requested_by_user_id"@, AttrView::S(self.requested_by_user_id@))); }
        assert(item@ == iv);
        if let Some(x) = &self.approved_by_user_id {
            item.insert_s("approved_by_user_id", x.clone());
        }
        proof { iv = push_if(iv, self.approved_by_user_id is Some, ("approved_by_user_id"@, AttrView::S(self.approved_by_user_id->0@))); }
        assert(item@ == iv);
        write_timestamp(item, "start_time", &self.start_time);
        proof { iv = iv.push(("start_time"@, AttrView::S(chrono_format_datetime(self.start_time)))); }
        assert(item@ == iv);
        write_timestamp(item, "end_time", &self.end_time);
        proof { iv = iv.push(("end_time"@, AttrView::S(chrono_format_datetime(self.end_time)))); }
        assert(item@ == iv);
        if let Some(t) = &self.actual_start_time {
            write_timestamp(item, "actual_start_time", t);
        }
        proof { iv = push_if(iv, self.actual_start_time is Some, ("actual_start_time"@, AttrView::S(chrono_format_datetime(self.actual_start_time->0)))); }
        assert(item@ == iv);
        if let Some(t) = &self.actual_end_time {
            write_timestamp(item, "actual_end_time", t);
        }
        proof { iv = push_if(iv, self.actual_end_time is Some, ("actual_end_time"@, AttrView::S(chrono_format_datetime(self.actual_end_time->0)))); }
        assert(item@ == iv);
    }

    fn write_part2(&self, item: &mut Item)
        requires
            self.wf(),
        ensures
            final(item)@ == self.spec_item_part2(old(item)@),
            self.approval_deadline matches Some(t) ==> chrono_parse_datetime(chrono_format_datetime(t)) == Some(t),
            chrono_parse_datetime(chrono_format_datetime(self.created_at)) == Some(self.created_at),
            chrono_parse_datetime(chrono_format_datetime(self.updated_at)) == Some(self.updated_at),
    {
        reveal(push_if);
        let ghost mut iv: ItemView = old(item)@;
        item.insert_s("status", self.status.to_string());
        proof { iv = iv.push(("status"@, AttrView::S(self.status.spec_str()))); }
        assert(item@ == iv);
        item.insert_s("priority", self.priority.to_string());
        proof { iv = iv.push(("priority"@, AttrView::S(self.priority.spec_str()))); }
        assert(item@ == iv);
        item.insert_bool("auto_revoke", self.auto_revoke);
        proof { iv = iv.push(("auto_revoke"@, AttrView::Bool(self.auto_revoke))); }
        assert(item@ == iv);
        item.insert_bool("notification_sent", self.notification_sent);
        proof { iv = iv.push(("notification_sent"@, AttrView::Bool(self.notification_sent))); }
        assert(item@ == iv);
        item.insert_bool("approval_required", self.approval_required);
        proof { iv = iv.push(("approval_required"@, AttrView::Bool(self.approval_required))); }
        assert(item@ == iv);
        if let Some(t) = &self.approval_deadline {
            write_timestamp(item, "approval_deadline", t);
        }
        proof { iv = push_if(iv, self.approval_deadline is Some, ("approval_deadline"@, AttrView::S(chrono_format_datetime(self.approval_deadline->0)))); }
        assert(item@ == iv);
        if let Some(x) = &self.revoked_by_user_id {
            item.insert_s("revoked_by_user_id", x.clone());
        }
        proof { iv = push_if(iv, self.revoked_by_user_id is Some, ("revoked_by_user_id"@, AttrView::S(self.revoked_by_user_id->0@))); }
        assert(item@ == iv);
        if let Some(x) = &self.revocation_reason {
            item.insert_s("revocation_reason", x.clone());
        }
        proof { iv = push_if(iv, self.revocation_reason is Some, ("revocation_reason"@, AttrView::S(self.revocation_reason->0@))); }
        assert(item@ == iv);
        write_timestamp(item, "created_at", &self.created_at);
        proof { iv = iv.push(("created_at"@, AttrView::S(chrono_format_datetime(self.created_at)))); }
        assert(item@ == iv);
        write_timestamp(item, "updated_at", &self.updated_at);
        proof { iv = iv.push(("updated_at"@, AttrView::S(chrono_format_datetime(self.updated_at)))); }
        assert(item@ == iv);
    }

    /// Writes the entity as an item.
    pub fn to_item(&self) -> (res: Item)
        requires
            self.wf(),
        ensures
            res@ == self.spec_item(),
            Self::item_readable(res@),
            forall|b: TempRoleElevation, now: Timestamp| #[trigger] b.read_from(res@, now) ==> b.same_as(self),
    {
        let mut item = Item::new();
        self.write_part1(&mut item);
        self.write_part2(&mut item);
        proof {
            Self::lemma_item_roundtrip(self, self, Timestamp { secs: 0, nanos: 0 });
            assert forall|b: TempRoleElevation, now: Timestamp| #[trigger] b.read_from(item@, now) implies b.same_as(self) by {
                Self::lemma_item_roundtrip(self, &b, now);
            }
        }
        item
    }

    proof fn lemma_part1_values(&self, iv: ItemView)
        ensures
            lookup(self.spec_item_part1(iv), "id"@) == Some(AttrView::S(self.id@)),
            lookup(self.spec_item_part1(iv), "user_id"@) == Some(AttrView::S(self.user_id@)),
            lookup(self.spec_item_part1(iv), "original_role_id"@) == Some(AttrView::S(self.original_role_id@)),
            lookup(self.spec_item_part1(iv), "elevated_role_id"@) == Some(AttrView::S(self.elevated_role_id@)),
            lookup(self.spec_item_part1(iv), "reason"@) == (if self.reason is Some { Some(AttrView::S(self.reason->0@)) } else { lookup(iv, "reason"@) }),
            lookup(self.spec_item_part1(iv), "justification"@) == (if self.justification is Some { Some(AttrView::S(self.justification->0@)) } else { lookup(iv, "justification"@) }),
            lookup(self.spec_item_part1(iv), "requested_by_user_id"@) == Some(AttrView::S(self.requested_by_user_id@)),
            lookup(self.spec_item_part1(iv), "approved_by_user_id"@) == (if self.approved_by_user_id is Some { Some(AttrView::S(self.approved_by_user_id->0@)) } else { lookup(iv, "approved_by_user_id"@) }),
            lookup(self.spec_item_part1(iv), "start_time"@) == Some(AttrView::S(chrono_format_datetime(self.start_time))),
            lookup(self.spec_item_part1(iv), "end_time"@) == Some(AttrView::S(chrono_format_datetime(self.end_time))),
            lookup(self.spec_item_part1(iv), "actual_start_time"@) == (if self.actual_start_time is Some { Some(AttrView::S(chrono_format_datetime(self.actual_start_time->0))) } else { lookup(iv, "actual_start_time"@) }),
            lookup(self.spec_item_part1(iv), "actual_end_time"@) == (if self.actual_end_time is Some { Some(AttrView::S(chrono_format_datetime(self.actual_end_time->0))) } else { lookup(iv, "actual_end_time"@) }),
    {
        broadcast use crate::item::lemma_lookup_push, crate::item::lemma_lookup_push_if;
        lemma_keys_distinct();
    }

    proof fn lemma_part1_frame(&self, iv: ItemView, k: Seq<char>)
        requires
            k != "id"@,
            k != "user_id"@,
            k != "original_role_id"@,
            k != "elevated_role_id"@,
            k != "reason"@,
            k != "justification"@,
            k != "requested_by_user_id"@,
            k != "approved_by_user_id"@,
            k != "start_time"@,
            k != "end_time"@,
            k != "actual_start_time"@,
            k != "actual_end_time"@,
        ensures
            lookup(self.spec_item_part1(iv), k) == lookup(iv, k),
    {
        broadcast use crate::item::lemma_lookup_push, crate::item::lemma_lookup_push_if;
    }

    proof fn lemma_part2_values(&self, iv: ItemView)
        ensures
            lookup(self.spec_item_part2(iv), "status"@) == Some(AttrView::S(self.status.spec_str())),
            lookup(self.spec_item_part2(iv), "priority"@) == Some(AttrView::S(self.priority.spec_str())),
            lookup(self.spec_item_part2(iv), "auto_revoke"@) == Some(AttrView::Bool(self.auto_revoke)),
            lookup(self.spec_item_part2(iv), "notification_sent"@) == Some(AttrView::Bool(self.notification_sent)),
            lookup(self.spec_item_part2(iv), "approval_required"@) == Some(AttrView::Bool(self.approval_required)),
            lookup(self.spec_item_part2(iv), "approval_deadline"@) == (if self.approval_deadline is Some { Some(AttrView::S(chrono_format_datetime(self.approval_deadline->0))) } else { lookup(iv, "approval_deadline"@) }),
            lookup(self.spec_item_part2(iv), "revoked_by_user_id"@) == (if self.revoked_by_user_id is Some { Some(AttrView::S(self.revoked_by_user_id->0@)) } else { lookup(iv, "revoked_by_user_id"@) }),
            lookup(self.spec_item_part2(iv), "revocation_reason"@) == (if self.revocation_reason is Some { Some(AttrView::S(self.revocation_reason->0@)) } else { lookup(iv, "revocation_reason"@) }),
            lookup(self.spec_item_part2(iv), "created_at"@) == Some(AttrView::S(chrono_format_datetime(self.created_at))),
            lookup(self.spec_item_part2(iv), "updated_at"@) == Some(AttrView::S(chrono_format_datetime(self.updated_at))),
    {
        broadcast use crate::item::lemma_lookup_push, crate::item::lemma_lookup_push_if;
        lemma_keys_distinct();
    }

    proof fn lemma_part2_frame(&self, iv: ItemView, k: Seq<char>)
        requires
            k != "status"@,
            k != "priority"@,
            k != "auto_revoke"@,
            k != "notification_sent"@,
            k != "approval_required"@,
            k != "approval_deadline"@,
            k != "revoked_by_user_id"@,
            k != "revocation_reason"@,
            k != "created_at"@,
            k != "updated_at"@,
        ensures
            lookup(self.spec_item_part2(iv), k) == lookup(iv, k),
    {
        broadcast use crate::item::lemma_lookup_push, crate::item::lemma_lookup_push_if;
    }

    /// Every attribute the `TempRoleElevation` table defines holds, in the item the entity is
    /// written as, nothing or a value of the type the table gives it, so
    /// DynamoDB accepts the item.
    pub proof fn lemma_item_fits_table(a: &TempRoleElevation)
        ensures
            item_fits_table(a.spec_item(), spec_temp_role_elevation_table()),
    {
        lemma_keys_distinct();
        let e: ItemView = Seq::empty();
        let p1 = a.spec_item_part1(e);
        let p2 = a.spec_item_part2(p1);
        assert(a.spec_item() == p2);
        a.lemma_part1_values(e);
        a.lemma_part2_values(p1);
        a.lemma_part2_frame(p1, "id"@);
        a.lemma_part2_frame(p1, "user_id"@);
        a.lemma_part1_frame(e, "status"@);
        lemma_table_keys_absent();
        a.lemma_part1_frame(e, "target_role_id"@);
        a.lemma_part2_frame(p1, "target_role_id"@);
        let t = spec_temp_role_elevation_table();
        assert forall|i: int| 0 <= i < t.attributes.len() implies match #[trigger] crate::item::lookup(a.spec_item(), t.attributes[i].0) {
            Some(v) => attr_fits(t.attributes[i].1, v),
            None => true,
        } by {
            if i == 0 { assert(t.attributes[0].0 == "id"@); } else if i == 1 { assert(t.attributes[1].0 == "user_id"@); } else if i == 2 { assert(t.attributes[2].0 == "target_role_id"@); } else if i == 3 { assert(t.attributes[3].0 == "status"@); }
        }
    }

    /// Reading the entity back from the item it is written as gives the same
    /// entity, where `chrono` reads back the text of its instants.
    #[verifier::rlimit(100)]
    pub proof fn lemma_item_roundtrip(a: &TempRoleElevation, b: &TempRoleElevation, now: Timestamp)
        requires
            a.wf(),
            chrono_parse_datetime(chrono_format_datetime(a.start_time)) == Some(a.start_time),
            chrono_parse_datetime(chrono_format_datetime(a.end_time)) == Some(a.end_time),
            a.actual_start_time matches Some(t) ==> chrono_parse_datetime(chrono_format_datetime(t)) == Some(t),
            a.actual_end_time matches Some(t) ==> chrono_parse_datetime(chrono_format_datetime(t)) == Some(t),
            a.approval_deadline matches Some(t) ==> chrono_parse_datetime(chrono_format_datetime(t)) == Some(t),
            chrono_parse_datetime(chrono_format_datetime(a.created_at)) == Some(a.created_at),
            chrono_parse_datetime(chrono_format_datetime(a.updated_at)) == Some(a.updated_at),
        ensures
            Self::item_readable(a.spec_item()),
            b.read_from(a.spec_item(), now) ==> b.same_as(a),
    {
        lemma_keys_distinct();
        let e: ItemView = Seq::empty();
        let p1 = a.spec_item_part1(e);
        let p2 = a.spec_item_part2(p1);
        assert(a.spec_item() == p2);
        a.lemma_part1_values(e);
        a.lemma_part2_values(p1);
        a.lemma_part2_frame(p1, "id"@);
        a.lemma_part2_frame(p1, "user_id"@);
        a.lemma_part2_frame(p1, "original_role_id"@);
        a.lemma_part2_frame(p1, "elevated_role_id"@);
        a.lemma_part2_frame(p1, "reason"@);
        a.lemma_part2_frame(p1, "justification"@);
        a.lemma_part2_frame(p1, "requested_by_user_id"@);
        a.lemma_part2_frame(p1, "approved_by_user_id"@);
        a.lemma_part2_frame(p1, "start_time"@);
        a.lemma_part2_frame(p1, "end_time"@);
        a.lemma_part2_frame(p1, "actual_start_time"@);
        a.lemma_part2_frame(p1, "actual_end_time"@);
        a.lemma_part1_frame(e, "status"@);
        a.lemma_part1_frame(e, "priority"@);
        a.lemma_part1_frame(e, "auto_revoke"@);
        a.lemma_part1_frame(e, "notification_sent"@);
        a.lemma_part1_frame(e, "approval_required"@);
        a.lemma_part1_frame(e, "approval_deadline"@);
        a.lemma_part1_frame(e, "revoked_by_user_id"@);
        a.lemma_part1_frame(e, "revocation_reason"@);
        a.lemma_part1_frame(e, "created_at"@);
        a.lemma_part1_frame(e, "updated_at"@);
        ElevationStatus::lemma_parse_str(a.status);
        ElevationPriority::lemma_parse_str(a.priority);
    }

    /// Which check, if any, the arguments of `new` fail, in the order they are made.
    pub open spec fn spec_new_error(
        user_id: Seq<char>,
        original_role_id: Seq<char>,
        elevated_role_id: Seq<char>,
        requested_by_user_id: Seq<char>,
        start_time: Timestamp,
        end_time: Timestamp,
        priority: Seq<char>,
    ) -> Option<Seq<char>> {
        if is_blank_spec(user_id) {
            Some("User ID cannot be empty"@)
        } else if is_blank_spec(original_role_id) {
            Some("Original role ID cannot be empty"@)
        } else if is_blank_spec(elevated_role_id) {
            Some("Elevated role ID cannot be empty"@)
        } else if is_blank_spec(requested_by_user_id) {
            Some("Requested by user ID cannot be empty"@)
        } else if !start_time.precedes(end_time) {
            Some("End time must be after start time"@)
        } else if ElevationPriority::spec_parse(priority) is None {
            Some("Invalid elevation priority"@)
        } else {
            None
        }
    }

    /// Requests an elevation; it waits for approval where approval is required
    /// and is approved at once otherwise.
    pub fn new(
        id: String,
        user_id: String,
        original_role_id: String,
        elevated_role_id: String,
        reason: Option<String>,
        justification: Option<String>,
        requested_by_user_id: String,
        start_time: Timestamp,
        end_time: Timestamp,
        priority: String,
        auto_revoke: bool,
        approval_required: bool,
        approval_deadline: Option<Timestamp>,
    ) -> (res: Result<Self, AppError>)
        ensures
            match Self::spec_new_error(user_id@, original_role_id@, elevated_role_id@, requested_by_user_id@,
                start_time, end_time, priority@) {
                Some(m) => is_validation_error(res, m),
                None => res matches Ok(e) && {
                    &&& e.id == id && e.user_id == user_id && e.original_role_id == original_role_id
                    &&& e.elevated_role_id == elevated_role_id && e.reason == reason
                    &&& e.justification == justification && e.requested_by_user_id == requested_by_user_id
                    &&& e.approved_by_user_id is None && e.start_time == start_time && e.end_time == end_time
                    &&& e.actual_start_time is None && e.actual_end_time is None
                    &&& e.status == (if approval_required { ElevationStatus::Pending } else { ElevationStatus::Approved })
                    &&& Some(e.priority) == ElevationPriority::spec_parse(priority@)
                    &&& e.auto_revoke == auto_revoke && !e.notification_sent
                    &&& e.approval_required == approval_required && e.approval_deadline == approval_deadline
                    &&& e.revoked_by_user_id is None && e.revocation_reason is None
                    &&& e.created_at == e.updated_at && e.created_at.valid()
                },
            },
            res matches Ok(x) ==> !is_blank_spec(x.user_id@) && !is_blank_spec(x.original_role_id@) && !is_blank_spec(x.elevated_role_id@) && !is_blank_spec(x.requested_by_user_id@),
            res matches Ok(x) ==> (x.start_time.secs < x.end_time.secs || (x.start_time.secs == x.end_time.secs && x.start_time.nanos < x.end_time.nanos)),
    {
        let now = now();
        if is_blank(user_id.as_str()) {
            return Err(AppError::ValidationError("User ID cannot be empty".to_owned()));
        }
        if is_blank(original_role_id.as_str()) {
            return Err(AppError::ValidationError("Original role ID cannot be empty".to_owned()));
        }
        if is_blank(elevated_role_id.as_str()) {
            return Err(AppError::ValidationError("Elevated role ID cannot be empty".to_owned()));
        }
        if is_blank(requested_by_user_id.as_str()) {
            return Err(AppError::ValidationError("Requested by user ID cannot be empty".to_owned()));
        }
        if !start_time.is_before(&end_time) {
            return Err(AppError::ValidationError("End time must be after start time".to_owned()));
        }
        let priority_enum = ElevationPriority::from_string(priority.as_str())?;
        let status = if approval_required { ElevationStatus::Pending } else { ElevationStatus::Approved };
        Ok(TempRoleElevation {
            id,
            user_id,
            original_role_id,
            elevated_role_id,
            reason,
            justification,
            requested_by_user_id,
            approved_by_user_id: None,
            start_time,
            end_time,
            actual_start_time: None,
            actual_end_time: None,
            status,
            priority: priority_enum,
            auto_revoke,
            notification_sent: false,
            approval_required,
            approval_deadline,
            revoked_by_user_id: None,
            revocation_reason: None,
            created_at: now,
            updated_at: now,
        })
    }

    /// Whether the elevation is in force at `now`: active, and `now` lies in its window.
    pub open spec fn spec_active_at(&self, now: Timestamp) -> bool {
        &&& self.status == ElevationStatus::Active
        &&& !now.precedes(self.start_time)
        &&& !self.end_time.precedes(now)
    }

    /// An elevation is in force exactly while it is active and `now` lies
    /// between its start and its end, both included.
    pub proof fn lemma_active_window(a: &TempRoleElevation, now: Timestamp)
        ensures
            a.spec_active_at(now) <==> (a.status == ElevationStatus::Active && !(now.secs < a.start_time.secs || (now.secs == a.start_time.secs && now.nanos < a.start_time.nanos)) && !(a.end_time.secs < now.secs || (a.end_time.secs == now.secs && a.end_time.nanos < now.nanos))),
    {
    }

    pub fn is_active_at(&self, now: &Timestamp) -> (res: bool)
        ensures
            res == self.spec_active_at(*now),
            res ==> self.status == ElevationStatus::Active,
            res <==> (self.status == ElevationStatus::Active && !(now.secs < self.start_time.secs || (now.secs == self.start_time.secs && now.nanos < self.start_time.nanos)) && !(self.end_time.secs < now.secs || (self.end_time.secs == now.secs && self.end_time.nanos < now.nanos))),
    {
        self.status == ElevationStatus::Active && !now.is_before(&self.start_time) && !now.is_after(&self.end_time)
    }

    /// Whether the elevation is in force now.
    pub fn is_active(&self) -> (res: bool)
        ensures
            exists|t: Timestamp| t.valid() && res == self.spec_active_at(t),
    {
        let t = now();
        self.is_active_at(&t)
    }

    /// Whether the elevation's window has closed at `now`.
    pub fn is_expired_at(&self, now: &Timestamp) -> (res: bool)
        ensures
            res == self.end_time.precedes(*now),
    {
        now.is_after(&self.end_time)
    }

    /// Whether the elevation's window has closed.
    pub fn is_expired(&self) -> (res: bool)
        ensures
            exists|t: Timestamp| t.valid() && res == self.end_time.precedes(t),
    {
        let t = now();
        self.is_expired_at(&t)
    }

    pub fn is_pending(&self) -> (res: bool)
        ensures
            res == (self.status == ElevationStatus::Pending),
    {
        self.status == ElevationStatus::Pending
    }

    /// Puts an approved elevation into force and records when it started.
    pub fn activate(&mut self) -> (res: Result<(), AppError>)
        ensures
            old(self).status == ElevationStatus::Approved ==> res is Ok && *final(self) == (TempRoleElevation {
                status: ElevationStatus::Active,
                actual_start_time: final(self).actual_start_time,
                updated_at: final(self).updated_at,
                ..*old(self)
            }) && some_valid(final(self).actual_start_time) && final(self).updated_at.valid(),
            old(self).status != ElevationStatus::Approved ==> *final(self) == *old(self)
                && is_validation_error(res, "Elevation must be approved before activation"@),
    {
        if self.status != ElevationStatus::Approved {
            return Err(AppError::ValidationError("Elevation must be approved before activation".to_owned()));
        }
        self.status = ElevationStatus::Active;
        self.actual_start_time = Some(now());
        self.updated_at = now();
        Ok(())
    }

    /// Revokes an elevation that has neither expired nor been revoked.
    pub fn revoke(&mut self, revoked_by_user_id: String, reason: Option<String>) -> (res: Result<(), AppError>)
        ensures
            ({
                let over = old(self).status == ElevationStatus::Expired || old(self).status == ElevationStatus::Revoked;
                &&& !over ==> res is Ok && *final(self) == (TempRoleElevation {
                    status: ElevationStatus::Revoked,
                    actual_end_time: final(self).actual_end_time,
                    revoked_by_user_id: Some(revoked_by_user_id),
                    revocation_reason: reason,
                    updated_at: final(self).updated_at,
                    ..*old(self)
                }) && some_valid(final(self).actual_end_time) && final(self).updated_at.valid()
                &&& over ==> *final(self) == *old(self)
                    && is_validation_error(res, "Elevation is already expired or revoked"@)
            }),
    {
        if self.status == ElevationStatus::Expired || self.status == ElevationStatus::Revoked {
            return Err(AppError::ValidationError("Elevation is already expired or revoked".to_owned()));
        }
        self.status = ElevationStatus::Revoked;
        self.actual_end_time = Some(now());
        self.revoked_by_user_id = Some(revoked_by_user_id);
        self.revocation_reason = reason;
        self.updated_at = now();
        Ok(())
    }

    /// Approves a pending elevation.
    pub fn approve(&mut self, approved_by_user_id: String) -> (res: Result<(), AppError>)
        ensures
            old(self).status == ElevationStatus::Pending ==> res is Ok && *final(self) == (TempRoleElevation {
                status: ElevationStatus::Approved,
                approved_by_user_id: Some(approved_by_user_id),
                updated_at: final(self).updated_at,
                ..*old(self)
            }) && final(self).updated_at.valid(),
            old(self).status != ElevationStatus::Pending ==> *final(self) == *old(self)
                && is_validation_error(res, "Only pending elevations can be approved"@),
    {
        if self.status != ElevationStatus::Pending {
            return Err(AppError::ValidationError("Only pending elevations can be approved".to_owned()));
        }
        self.status = ElevationStatus::Approved;
        self.approved_by_user_id = Some(approved_by_user_id);
        self.updated_at = now();
        Ok(())
    }

    /// Denies a pending elevation; the one who denied it is recorded as its approver.
    pub fn deny(&mut self, denied_by_user_id: String, reason: Option<String>) -> (res: Result<(), AppError>)
        ensures
            old(self).status == ElevationStatus::Pending ==> res is Ok && *final(self) == (TempRoleElevation {
                status: ElevationStatus::Denied,
                approved_by_user_id: Some(denied_by_user_id),
                revocation_reason: reason,
                updated_at: final(self).updated_at,
                ..*old(self)
            }) && final(self).updated_at.valid(),
            old(self).status != ElevationStatus::Pending ==> *final(self) == *old(self)
                && is_validation_error(res, "Only pending elevations can be denied"@),
    {
        if self.status != ElevationStatus::Pending {
            return Err(AppError::ValidationError("Only pending elevations can be denied".to_owned()));
        }
        self.status = ElevationStatus::Denied;
        self.approved_by_user_id = Some(denied_by_user_id);
        self.revocation_reason = reason;
        self.updated_at = now();
        Ok(())
    }

}

proof fn lemma_keys_distinct()
    ensures
        "id"@ != "user_id"@,
        "id"@ != "original_role_id"@,
        "id"@ != "elevated_role_id"@,
        "id"@ != "reason"@,
        "id"@ != "justification"@,
        "id"@ != "requested_by_user_id"@,
        "id"@ != "approved_by_user_id"@,
        "id"@ != "start_time"@,
        "id"@ != "end_time"@,
        "id"@ != "actual_start_time"@,
        "id"@ != "actual_end_time"@,
        "id"@ != "status"@,
        "id"@ != "priority"@,
        "id"@ != "auto_revoke"@,
        "id"@ != "notification_sent"@,
        "id"@ != "approval_required"@,
        "id"@ != "approval_deadline"@,
        "id"@ != "revoked_by_user_id"@,
        "id"@ != "revocation_reason"@,
        "id"@ != "created_at"@,
        "id"@ != "updated_at"@,
        "user_id"@ != "original_role_id"@,
        "user_id"@ != "elevated_role_id"@,
        "user_id"@ != "reason"@,
        "user_id"@ != "justification"@,
        "user_id"@ != "requested_by_user_id"@,
        "user_id"@ != "approved_by_user_id"@,
        "user_id"@ != "start_time"@,
        "user_id"@ != "end_time"@,
        "user_id"@ != "actual_start_time"@,
        "user_id"@ != "actual_end_time"@,
        "user_id"@ != "status"@,
        "user_id"@ != "priority"@,
        "user_id"@ != "auto_revoke"@,
        "user_id"@ != "notification_sent"@,
        "user_id"@ != "approval_required"@,
        "user_id"@ != "approval_deadline"@,
        "user_id"@ != "revoked_by_user_id"@,
        "user_id"@ != "revocation_reason"@,
        "user_id"@ != "created_at"@,
        "user_id"@ != "updated_at"@,
        "original_role_id"@ != "elevated_role_id"@,
        "original_role_id"@ != "reason"@,
        "original_role_id"@ != "justification"@,
        "original_role_id"@ != "requested_by_user_id"@,
        "original_role_id"@ != "approved_by_user_id"@,
        "original_role_id"@ != "start_time"@,
        "original_role_id"@ != "end_time"@,
        "original_role_id"@ != "actual_start_time"@,
        "original_role_id"@ != "actual_end_time"@,
        "original_role_id"@ != "status"@,
        "original_role_id"@ != "priority"@,
        "original_role_id"@ != "auto_revoke"@,
        "original_role_id"@ != "notification_sent"@,
        "original_role_id"@ != "approval_required"@,
        "original_role_id"@ != "approval_deadline"@,
        "original_role_id"@ != "revoked_by_user_id"@,
        "original_role_id"@ != "revocation_reason"@,
        "original_role_id"@ != "created_at"@,
        "original_role_id"@ != "updated_at"@,
        "elevated_role_id"@ != "reason"@,
        "elevated_role_id"@ != "justification"@,
        "elevated_role_id"@ != "requested_by_user_id"@,
        "elevated_role_id"@ != "approved_by_user_id"@,
        "elevated_role_id"@ != "start_time"@,
        "elevated_role_id"@ != "end_time"@,
        "elevated_role_id"@ != "actual_start_time"@,
        "elevated_role_id"@ != "actual_end_time"@,
        "elevated_role_id"@ != "status"@,
        "elevated_role_id"@ != "priority"@,
        "elevated_role_id"@ != "auto_revoke"@,
        "elevated_role_id"@ != "notification_sent"@,
        "elevated_role_id"@ != "approval_required"@,
        "elevated_role_id"@ != "approval_deadline"@,
        "elevated_role_id"@ != "revoked_by_user_id"@,
        "elevated_role_id"@ != "revocation_reason"@,
        "elevated_role_id"@ != "created_at"@,
        "elevated_role_id"@ != "updated_at"@,
        "reason"@ != "justification"@,
        "reason"@ != "requested_by_user_id"@,
        "reason"@ != "approved_by_user_id"@,
        "reason"@ != "start_time"@,
        "reason"@ != "end_time"@,
        "reason"@ != "actual_start_time"@,
        "reason"@ != "actual_end_time"@,
        "reason"@ != "status"@,
        "reason"@ != "priority"@,
        "reason"@ != "auto_revoke"@,
        "reason"@ != "notification_sent"@,
        "reason"@ != "approval_required"@,
        "reason"@ != "approval_deadline"@,
        "reason"@ != "revoked_by_user_id"@,
        "reason"@ != "revocation_reason"@,
        "reason"@ != "created_at"@,
        "reason"@ != "updated_at"@,
        "justification"@ != "requested_by_user_id"@,
        "justification"@ != "approved_by_user_id"@,
        "justification"@ != "start_time"@,
        "justification"@ != "end_time"@,
        "justification"@ != "actual_start_time"@,
        "justification"@ != "actual_end_time"@,
        "justification"@ != "status"@,
        "justification"@ != "priority"@,
        "justification"@ != "auto_revoke"@,
        "justification"@ != "notification_sent"@,
        "justification"@ != "approval_required"@,
        "justification"@ != "approval_deadline"@,
        "justification"@ != "revoked_by_user_id"@,
        "justification"@ != "revocation_reason"@,
        "justification"@ != "created_at"@,
        "justification"@ != "updated_at"@,
        "requested_by_user_id"@ != "approved_by_user_id"@,
        "requested_by_user_id"@ != "start_time"@,
        "requested_by_user_id"@ != "end_time"@,
        "requested_by_user_id"@ != "actual_start_time"@,
        "requested_by_user_id"@ != "actual_end_time"@,
        "requested_by_user_id"@ != "status"@,
        "requested_by_user_id"@ != "priority"@,
        "requested_by_user_id"@ != "auto_revoke"@,
        "requested_by_user_id"@ != "notification_sent"@,
        "requested_by_user_id"@ != "approval_required"@,
        "requested_by_user_id"@ != "approval_deadline"@,
        "requested_by_user_id"@ != "revoked_by_user_id"@,
        "requested_by_user_id"@ != "revocation_reason"@,
        "requested_by_user_id"@ != "created_at"@,
        "requested_by_user_id"@ != "updated_at"@,
        "approved_by_user_id"@ != "start_time"@,
        "approved_by_user_id"@ != "end_time"@,
        "approved_by_user_id"@ != "actual_start_time"@,
        "approved_by_user_id"@ != "actual_end_time"@,
        "approved_by_user_id"@ != "status"@,
        "approved_by_user_id"@ != "priority"@,
        "approved_by_user_id"@ != "auto_revoke"@,
        "approved_by_user_id"@ != "notification_sent"@,
        "approved_by_user_id"@ != "approval_required"@,
        "approved_by_user_id"@ != "approval_deadline"@,
        "approved_by_user_id"@ != "revoked_by_user_id"@,
        "approved_by_user_id"@ != "revocation_reason"@,
        "approved_by_user_id"@ != "created_at"@,
        "approved_by_user_id"@ != "updated_at"@,
        "start_time"@ != "end_time"@,
        "start_time"@ != "actual_start_time"@,
        "start_time"@ != "actual_end_time"@,
        "start_time"@ != "status"@,
        "start_time"@ != "priority"@,
        "start_time"@ != "auto_revoke"@,
        "start_time"@ != "notification_sent"@,
        "start_time"@ != "approval_required"@,
        "start_time"@ != "approval_deadline"@,
        "start_time"@ != "revoked_by_user_id"@,
        "start_time"@ != "revocation_reason"@,
        "start_time"@ != "created_at"@,
        "start_time"@ != "updated_at"@,
        "end_time"@ != "actual_start_time"@,
        "end_time"@ != "actual_end_time"@,
        "end_time"@ != "status"@,
        "end_time"@ != "priority"@,
        "end_time"@ != "auto_revoke"@,
        "end_time"@ != "notification_sent"@,
        "end_time"@ != "approval_required"@,
        "end_time"@ != "approval_deadline"@,
        "end_time"@ != "revoked_by_user_id"@,
        "end_time"@ != "revocation_reason"@,
        "end_time"@ != "created_at"@,
        "end_time"@ != "updated_at"@,
        "actual_start_time"@ != "actual_end_time"@,
        "actual_start_time"@ != "status"@,
        "actual_start_time"@ != "priority"@,
        "actual_start_time"@ != "auto_revoke"@,
        "actual_start_time"@ != "notification_sent"@,
        "actual_start_time"@ != "approval_required"@,
        "actual_start_time"@ != "approval_deadline"@,
        "actual_start_time"@ != "revoked_by_user_id"@,
        "actual_start_time"@ != "revocation_reason"@,
        "actual_start_time"@ != "created_at"@,
        "actual_start_time"@ != "updated_at"@,
        "actual_end_time"@ != "status"@,
        "actual_end_time"@ != "priority"@,
        "actual_end_time"@ != "auto_revoke"@,
        "actual_end_time"@ != "notification_sent"@,
        "actual_end_time"@ != "approval_required"@,
        "actual_end_time"@ != "approval_deadline"@,
        "actual_end_time"@ != "revoked_by_user_id"@,
        "actual_end_time"@ != "revocation_reason"@,
        "actual_end_time"@ != "created_at"@,
        "actual_end_time"@ != "updated_at"@,
        "status"@ != "priority"@,
        "status"@ != "auto_revoke"@,
        "status"@ != "notification_sent"@,
        "status"@ != "approval_required"@,
        "status"@ != "approval_deadline"@,
        "status"@ != "revoked_by_user_id"@,
        "status"@ != "revocation_reason"@,
        "status"@ != "created_at"@,
        "status"@ != "updated_at"@,
        "priority"@ != "auto_revoke"@,
        "priority"@ != "notification_sent"@,
        "priority"@ != "approval_required"@,
        "priority"@ != "approval_deadline"@,
        "priority"@ != "revoked_by_user_id"@,
        "priority"@ != "revocation_reason"@,
        "priority"@ != "created_at"@,
        "priority"@ != "updated_at"@,
        "auto_revoke"@ != "notification_sent"@,
        "auto_revoke"@ != "approval_required"@,
        "auto_revoke"@ != "approval_deadline"@,
        "auto_revoke"@ != "revoked_by_user_id"@,
        "auto_revoke"@ != "revocation_reason"@,
        "auto_revoke"@ != "created_at"@,
        "auto_revoke"@ != "updated_at"@,
        "notification_sent"@ != "approval_required"@,
        "notification_sent"@ != "approval_deadline"@,
        "notification_sent"@ != "revoked_by_user_id"@,
        "notification_sent"@ != "revocation_reason"@,
        "notification_sent"@ != "created_at"@,
        "notification_sent"@ != "updated_at"@,
        "approval_required"@ != "approval_deadline"@,
        "approval_required"@ != "revoked_by_user_id"@,
        "approval_required"@ != "revocation_reason"@,
        "approval_required"@ != "created_at"@,
        "approval_required"@ != "updated_at"@,
        "approval_deadline"@ != "revoked_by_user_id"@,
        "approval_deadline"@ != "revocation_reason"@,
        "approval_deadline"@ != "created_at"@,
        "approval_deadline"@ != "updated_at"@,
        "revoked_by_user_id"@ != "revocation_reason"@,
        "revoked_by_user_id"@ != "created_at"@,
        "revoked_by_user_id"@ != "updated_at"@,
        "revocation_reason"@ != "created_at"@,
        "revocation_reason"@ != "updated_at"@,
        "created_at"@ != "updated_at"@,
{
    broadcast use vstd::string::group_string_axioms;
    reveal_strlit("id");
    reveal_strlit("user_id");
    reveal_strlit("original_role_id");
    reveal_strlit("elevated_role_id");
    reveal_strlit("reason");
    reveal_strlit("justification");
    reveal_strlit("requested_by_user_id");
    reveal_strlit("approved_by_user_id");
    reveal_strlit("start_time");
    reveal_strlit("end_time");
    reveal_strlit("actual_start_time");
    reveal_strlit("actual_end_time");
    reveal_strlit("status");
    reveal_strlit("priority");
    reveal_strlit("auto_revoke");
    reveal_strlit("notification_sent");
    reveal_strlit("approval_required");
    reveal_strlit("approval_deadline");
    reveal_strlit("revoked_by_user_id");
    reveal_strlit("revocation_reason");
    reveal_strlit("created_at");
    reveal_strlit("updated_at");
    assert("id"@.len() == 2);
    assert("user_id"@.len() == 7);
    assert("original_role_id"@.len() == 16);
    assert("elevated_role_id"@.len() == 16);
    assert("reason"@.len() == 6);
    assert("justification"@.len() == 13);
    assert("requested_by_user_id"@.len() == 20);
    assert("approved_by_user_id"@.len() == 19);
    assert("start_time"@.len() == 10);
    assert("end_time"@.len() == 8);
    assert("actual_start_time"@.len() == 17);
    assert("actual_end_time"@.len() == 15);
    assert("status"@.len() == 6);
    assert("priority"@.len() == 8);
    assert("auto_revoke"@.len() == 11);
    assert("notification_sent"@.len() == 17);
    assert("approval_required"@.len() == 17);
    assert("approval_deadline"@.len() == 17);
    assert("revoked_by_user_id"@.len() == 18);
    assert("revocation_reason"@.len() == 17);
    assert("created_at"@.len() == 10);
    assert("updated_at"@.len() == 10);
    assert("original_role_id"@[0] != "elevated_role_id"@[0]);
    assert("reason"@[0] != "status"@[0]);
    assert("start_time"@[0] != "created_at"@[0]);
    assert("start_time"@[0] != "updated_at"@[0]);
    assert("end_time"@[0] != "priority"@[0]);
    assert("actual_start_time"@[0] != "notification_sent"@[0]);
    assert("actual_start_time"@[1] != "approval_required"@[1]);
    assert("actual_start_time"@[1] != "approval_deadline"@[1]);
    assert("actual_start_time"@[0] != "revocation_reason"@[0]);
    assert("notification_sent"@[0] != "approval_required"@[0]);
    assert("notification_sent"@[0] != "approval_deadline"@[0]);
    assert("notification_sent"@[0] != "revocation_reason"@[0]);
    assert("approval_required"@[9] != "approval_deadline"@[9]);
    assert("approval_required"@[0] != "revocation_reason"@[0]);
    assert("approval_deadline"@[0] != "revocation_reason"@[0]);
    assert("created_at"@[0] != "updated_at"@[0]);
}

proof fn lemma_table_keys_absent()
    ensures
        "target_role_id"@ != "actual_end_time"@,
        "target_role_id"@ != "actual_start_time"@,
        "target_role_id"@ != "approval_deadline"@,
        "target_role_id"@ != "approval_required"@,
        "target_role_id"@ != "approved_by_user_id"@,
        "target_role_id"@ != "auto_revoke"@,
        "target_role_id"@ != "created_at"@,
        "target_role_id"@ != "elevated_role_id"@,
        "target_role_id"@ != "end_time"@,
        "target_role_id"@ != "id"@,
        "target_role_id"@ != "justification"@,
        "target_role_id"@ != "notification_sent"@,
        "target_role_id"@ != "original_role_id"@,
        "target_role_id"@ != "priority"@,
        "target_role_id"@ != "reason"@,
        "target_role_id"@ != "requested_by_user_id"@,
        "target_role_id"@ != "revocation_reason"@,
        "target_role_id"@ != "revoked_by_user_id"@,
        "target_role_id"@ != "start_time"@,
        "target_role_id"@ != "status"@,
        "target_role_id"@ != "updated_at"@,
        "target_role_id"@ != "user_id"@,
{
    broadcast use vstd::string::group_string_axioms;
    reveal_strlit("target_role_id");
    reveal_strlit("actual_end_time");
    reveal_strlit("actual_start_time");
    reveal_strlit("approval_deadline");
    reveal_strlit("approval_required");
    reveal_strlit("approved_by_user_id");
    reveal_strlit("auto_revoke");
    reveal_strlit("created_at");
    reveal_strlit("elevated_role_id");
    reveal_strlit("end_time");
    reveal_strlit("id");
    reveal_strlit("justification");
    reveal_strlit("notification_sent");
    reveal_strlit("original_role_id");
    reveal_strlit("priority");
    reveal_strlit("reason");
    reveal_strlit("requested_by_user_id");
    reveal_strlit("revocation_reason");
    reveal_strlit("revoked_by_user_id");
    reveal_strlit("start_time");
    reveal_strlit("status");
    reveal_strlit("updated_at");
    reveal_strlit("user_id");
    assert("target_role_id"@.len() == 14);
    assert("actual_end_time"@.len() == 15);
    assert("actual_start_time"@.len() == 17);
    assert("approval_deadline"@.len() == 17);
    assert("approval_required"@.len() == 17);
    assert("approved_by_user_id"@.len() == 19);
    assert("auto_revoke"@.len() == 11);
    assert("created_at"@.len() == 10);
    assert("elevated_role_id"@.len() == 16);
    assert("end_time"@.len() == 8);
    assert("id"@.len() == 2);
    assert("justification"@.len() == 13);
    assert("notification_sent"@.len() == 17);
    assert("original_role_id"@.len() == 16);
    assert("priority"@.len() == 8);
    assert("reason"@.len() == 6);
    assert("requested_by_user_id"@.len() == 20);
    assert("revocation_reason"@.len() == 17);
    assert("revoked_by_user_id"@.len() == 18);
    assert("start_time"@.len() == 10);
    assert("status"@.len() == 6);
    assert("updated_at"@.len() == 10);
    assert("user_id"@.len() == 7);
    assert("target_role_id"@.len() != "actual_end_time"@.len());
    assert("target_role_id"@.len() != "actual_start_time"@.len());
    assert("target_role_id"@.len() != "approval_deadline"@.len());
    assert("target_role_id"@.len() != "approval_required"@.len());
    assert("target_role_id"@.len() != "approved_by_user_id"@.len());
    assert("target_role_id"@.len() != "auto_revoke"@.len());
    assert("target_role_id"@.len() != "created_at"@.len());
    assert("target_role_id"@.len() != "elevated_role_id"@.len());
    assert("target_role_id"@.len() != "end_time"@.len());
    assert("target_role_id"@.len() != "id"@.len());
    assert("target_role_id"@.len() != "justification"@.len());
    assert("target_role_id"@.len() != "notification_sent"@.len());
    assert("target_role_id"@.len() != "original_role_id"@.len());
    assert("target_role_id"@.len() != "priority"@.len());
    assert("target_role_id"@.len() != "reason"@.len());
    assert("target_role_id"@.len() != "requested_by_user_id"@.len());
    assert("target_role_id"@.len() != "revocation_reason"@.len());
    assert("target_role_id"@.len() != "revoked_by_user_id"@.len());
    assert("target_role_id"@.len() != "start_time"@.len());
    assert("target_role_id"@.len() != "status"@.len());
    assert("target_role_id"@.len() != "updated_at"@.len());
    assert("target_role_id"@.len() != "user_id"@.len());
}

} // verus!
