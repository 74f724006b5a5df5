//! Requests for maintenance, as staff submit them.
use vstd::prelude::*;

use crate::error::{is_validation_error, AppError};
use crate::fields::{opt_view, read_s, read_timestamp_or, timestamp_or, write_timestamp};
use crate::item::{bool_at, push_if, s_at, AttrView, Item, ItemView};

use crate::text::{is_blank, is_blank_spec, str_eq};
use crate::time::{chrono_format_datetime, chrono_parse_datetime, now, Timestamp};

use crate::models::work_order::WorkOrderSeverity;

use crate::tables::{attr_fits, item_fits_table, spec_maintenance_requests_table};

verus! {

/// Where a maintenance request stands.
#[derive(Clone, Copy, Debug, PartialEq, Eq, Structural, Hash)]
pub enum MaintenanceRequestStatus {
    Submitted,
    Read,
    Accepted,
    Denied,
    Archived,
}

impl MaintenanceRequestStatus {
    /// The text that stands for the variant in items and requests.
    pub open spec fn spec_str(self) -> Seq<char> {
        match self {
            MaintenanceRequestStatus::Submitted => "Submitted"@,
            MaintenanceRequestStatus::Read => "Read"@,
            MaintenanceRequestStatus::Accepted => "Accepted"@,
            MaintenanceRequestStatus::Denied => "Denied"@,
            MaintenanceRequestStatus::Archived => "Archived"@,
        }
    }

    /// The variant that a text stands for, if any.
    pub open spec fn spec_parse(s: Seq<char>) -> Option<MaintenanceRequestStatus> {
        if s == "Submitted"@ {
            Some(MaintenanceRequestStatus::Submitted)
        } else if s == "Read"@ {
            Some(MaintenanceRequestStatus::Read)
        } else if s == "Accepted"@ {
            Some(MaintenanceRequestStatus::Accepted)
        } else if s == "Denied"@ {
            Some(MaintenanceRequestStatus::Denied)
        } else if s == "Archived"@ {
            Some(MaintenanceRequestStatus::Archived)
        } else {
            None
        }
    }

    pub fn to_str(&self) -> (res: &'static str)
        ensures
            res@ == self.spec_str(),
    {
        match self {
            MaintenanceRequestStatus::Submitted => "Submitted",
            MaintenanceRequestStatus::Read => "Read",
            MaintenanceRequestStatus::Accepted => "Accepted",
            MaintenanceRequestStatus::Denied => "Denied",
            MaintenanceRequestStatus::Archived => "Archived",
        }
    }

    pub fn to_string(&self) -> (res: String)
        ensures
            res@ == self.spec_str(),
    {
        self.to_str().to_owned()
    }

    /// Reads a variant from its text; any other text is refused with a `ValidationError`.
    pub fn from_string(s: &str) -> (res: Result<MaintenanceRequestStatus, AppError>)
        ensures
            match MaintenanceRequestStatus::spec_parse(s@) {
                Some(v) => res == Ok::<MaintenanceRequestStatus, AppError>(v),
                None => res matches Err(AppError::ValidationError(m)) && m@ == "Invalid maintenance request status"@,
            },
    {
        if str_eq(s, "Submitted") {
            Ok(MaintenanceRequestStatus::Submitted)
        } else if str_eq(s, "Read") {
            Ok(MaintenanceRequestStatus::Read)
        } else if str_eq(s, "Accepted") {
            Ok(MaintenanceRequestStatus::Accepted)
        } else if str_eq(s, "Denied") {
            Ok(MaintenanceRequestStatus::Denied)
        } else if str_eq(s, "Archived") {
            Ok(MaintenanceRequestStatus::Archived)
        } else {
            Err(AppError::ValidationError("Invalid maintenance request status".to_owned()))
        }
    }

    /// Reading back the text of a variant gives the variant.
    pub proof fn lemma_parse_str(v: MaintenanceRequestStatus)
        ensures
            MaintenanceRequestStatus::spec_parse(v.spec_str()) == Some(v),
    {
        broadcast use vstd::string::group_string_axioms;
        reveal_strlit("Submitted");
        reveal_strlit("Read");
        reveal_strlit("Accepted");
        reveal_strlit("Denied");
        reveal_strlit("Archived");
        assert("Submitted"@.len() == 9);
        assert("Read"@.len() == 4);
        assert("Accepted"@.len() == 8);
        assert("Denied"@.len() == 6);
        assert("Archived"@.len() == 8);
        assert("Accepted"@[1] != "Archived"@[1]);
    }
}


/// A request, filed from a site, to look into a maintenance problem.
#[derive(Clone, Debug)]
pub struct MaintenanceRequest {
    pub id: String,
    pub submitted_by: String,
    pub manager_on_site: String,
    pub work_order_created: bool,
    pub status: MaintenanceRequestStatus,
    pub read_by_id: Option<String>,
    pub description: String,
    pub reported_location: String,
    pub troubleshooting_performed: String,
    pub severity: WorkOrderSeverity,
    pub created_at: Timestamp,
    pub updated_at: Timestamp,
}

impl MaintenanceRequest {
    /// The instants are ones that `chrono` represents.
    pub open spec fn wf(&self) -> bool {
        &&& self.created_at.valid()
        &&& self.updated_at.valid()
    }

    /// The DynamoDB table of this entity.
    pub fn table_name() -> (res: &'static str)
        ensures
            res@ == "MaintenanceRequests"@,
    {
        "MaintenanceRequests"
    }

    /// The key of the entity in its table.
    pub fn primary_key(&self) -> (res: String)
        ensures
            res@ == self.id@,
    {
        self.id.clone()
    }

    /// Whether an item holds what this entity needs to be read from it.
    pub open spec fn item_readable(iv: ItemView) -> bool {
        &&& s_at(iv, "id"@) is Some
        &&& s_at(iv, "submitted_by"@) is Some
        &&& s_at(iv, "manager_on_site"@) is Some
        &&& bool_at(iv, "work_order_created"@) is Some
        &&& s_at(iv, "status"@) matches Some(c) && MaintenanceRequestStatus::spec_parse(c) is Some
        &&& s_at(iv, "description"@) is Some
        &&& s_at(iv, "reported_location"@) is Some
        &&& s_at(iv, "troubleshooting_performed"@) is Some
        &&& s_at(iv, "severity"@) matches Some(c) && WorkOrderSeverity::spec_parse(c) is Some
    }

    /// Whether this entity is what is read from an item, where instants that
    /// cannot be read are taken to be `now`.
    pub open spec fn read_from(&self, iv: ItemView, now: Timestamp) -> bool {
        &&& Some(self.id@) == s_at(iv, "id"@)
        &&& Some(self.submitted_by@) == s_at(iv, "submitted_by"@)
        &&& Some(self.manager_on_site@) == s_at(iv, "manager_on_site"@)
        &&& Some(self.work_order_created) == bool_at(iv, "work_order_created"@)
        &&& Some(self.status) == MaintenanceRequestStatus::spec_parse(s_at(iv, "status"@)->0)
        &&& opt_view(self.read_by_id) == s_at(iv, "read_by_id"@)
        &&& Some(self.description@) == s_at(iv, "description"@)
        &&& Some(self.reported_location@) == s_at(iv, "reported_location"@)
        &&& Some(self.troubleshooting_performed@) == s_at(iv, "troubleshooting_performed"@)
        &&& Some(self.severity) == WorkOrderSeverity::spec_parse(s_at(iv, "severity"@)->0)
        &&& self.created_at == timestamp_or(iv, "created_at"@, now)
        &&& self.updated_at == timestamp_or(iv, "updated_at"@, now)
    }

    /// The item that `to_item` writes.
    pub open spec fn spec_item(&self) -> ItemView {
        let iv = Seq::empty();
        let iv = iv.push(("id"@, AttrView::S(self.id@)));
        let iv = iv.push(("submitted_by"@, AttrView::S(self.submitted_by@)));
        let iv = iv.push(("manager_on_site"@, AttrView::S(self.manager_on_site@)));
        let iv = iv.push(("work_order_created"@, AttrView::Bool(self.work_order_created)));
        let iv = iv.push(("status"@, AttrView::S(self.status.spec_str())));
        let iv = push_if(iv, self.read_by_id is Some, ("read_by_id"@, AttrView::S(self.read_by_id->0@)));
        let iv = iv.push(("description"@, AttrView::S(self.description@)));
        let iv = iv.push(("reported_location"@, AttrView::S(self.reported_location@)));
        let iv = iv.push(("troubleshooting_performed"@, AttrView::S(self.troubleshooting_performed@)));
        let iv = iv.push(("severity"@, AttrView::S(self.severity.spec_str())));
        let iv = iv.push(("created_at"@, AttrView::S(chrono_format_datetime(self.created_at))));
        let iv = iv.push(("updated_at"@, AttrView::S(chrono_format_datetime(self.updated_at))));
        iv
    }

    /// Whether two entities hold the same values.
    pub open spec fn same_as(&self, other: &MaintenanceRequest) -> bool {
        &&& self.id@ == other.id@
        &&& self.submitted_by@ == other.submitted_by@
        &&& self.manager_on_site@ == other.manager_on_site@
        &&& self.work_order_created == other.work_order_created
        &&& self.status == other.status
        &&& opt_view(self.read_by_id) == opt_view(other.read_by_id)
        &&& self.description@ == other.description@
        &&& self.reported_location@ == other.reported_location@
        &&& self.troubleshooting_performed@ == other.troubleshooting_performed@
        &&& self.severity == other.severity
        &&& self.created_at == other.created_at
        &&& self.updated_at == other.updated_at
    }

    /// Reads the entity from an item, taking `now` for instants that are missing.
    pub fn from_item_at(item: &Item, now: Timestamp) -> (res: Option<Self>)
        requires
            now.valid(),
        ensures
            res is Some <==> Self::item_readable(item@),
            res matches Some(e) ==> e.read_from(item@, now) && e.wf(),
    {
        let id = read_s(item, "id")?;
        let submitted_by = read_s(item, "submitted_by")?;
        let manager_on_site = read_s(item, "manager_on_site")?;
        let work_order_created = item.get_bool("work_order_created")?;
        let status_text = item.get_s("status")?;
        let status = MaintenanceRequestStatus::from_string(status_text.as_str()).ok()?;
        let read_by_id = read_s(item, "read_by_id");
        let description = read_s(item, "description")?;
        let reported_location = read_s(item, "reported_location")?;
        let troubleshooting_performed = read_s(item, "troubleshooting_performed")?;
        let severity_text = item.get_s("severity")?;
        let severity = WorkOrderSeverity::from_string(severity_text.as_str()).ok()?;
        let created_at = read_timestamp_or(item, "created_at", now);
        let updated_at = read_timestamp_or(item, "updated_at", now);
        Some(MaintenanceRequest {
            id,
            submitted_by,
            manager_on_site,
            work_order_created,
            status,
            read_by_id,
            description,
            reported_location,
            troubleshooting_performed,
            severity,
            created_at,
            updated_at,
        })
    }

    /// Reads the entity from an item; instants that are missing are read from the clock.
    pub fn from_item(item: &Item) -> (res: Option<Self>)
        ensures
            res is Some <==> Self::item_readable(item@),
            res matches Some(e) ==> e.wf() && exists|t: Timestamp| t.valid() && e.read_from(item@, t),
    {
        let t = now();
        Self::from_item_at(item, t)
    }

    /// Writes the entity as an item.
    pub fn to_item(&self) -> (res: Item)
        requires
            self.wf(),
        ensures
            res@ == self.spec_item(),
            Self::item_readable(res@),
            forall|b: MaintenanceRequest, now: Timestamp| #[trigger] b.read_from(res@, now) ==> b.same_as(self),
    {
        reveal(push_if);
        let mut item = Item::new();
        let ghost mut iv: ItemView = Seq::empty();
        item.insert_s("id", self.id.clone());
        proof { iv = iv.push(("id"@, AttrView::S(self.id@))); }
        assert(item@ == iv);
        item.insert_s("submitted_by", self.submitted_by.clone());
        proof { iv = iv.push(("submitted_by"@, AttrView::S(self.submitted_by@))); }
        assert(item@ == iv);
        item.insert_s("manager_on_site", self.manager_on_site.clone());
        proof { iv = iv.push(("manager_on_site"@, AttrView::S(self.manager_on_site@))); }
        assert(item@ == iv);
        item.insert_bool("work_order_created", self.work_order_created);
        proof { iv = iv.push(("work_order_created"@, AttrView::Bool(self.work_order_created))); }
        assert(item@ == iv);
        item.insert_s("status", self.status.to_string());
        proof { iv = iv.push(("status"@, AttrView::S(self.status.spec_str()))); }
        assert(item@ == iv);
        if let Some(x) = &self.read_by_id {
            item.insert_s("read_by_id", x.clone());
        }
        proof { iv = push_if(iv, self.read_by_id is Some, ("read_by_id"@, AttrView::S(self.read_by_id->0@))); }
        assert(item@ == iv);
        item.insert_s("description", self.description.clone());
        proof { iv = iv.push(("description"@, AttrView::S(self.description@))); }
        assert(item@ == iv);
        item.insert_s("reported_location", self.reported_location.clone());
        proof { iv = iv.push(("reported_location"@, AttrView::S(self.reported_location@))); }
        assert(item@ == iv);
        item.insert_s("troubleshooting_performed", self.troubleshooting_performed.clone());
        proof { iv = iv.push(("troubleshooting_performed"@, AttrView::S(self.troubleshooting_performed@))); }
        assert(item@ == iv);
        item.insert_s("severity", self.severity.to_string());
        proof { iv = iv.push(("severity"@, AttrView::S(self.severity.spec_str()))); }
        assert(item@ == iv);
        write_timestamp(&mut item, "created_at", &self.created_at);
        proof { iv = iv.push(("created_at"@, AttrView::S(chrono_format_datetime(self.created_at)))); }
        assert(item@ == iv);
        write_timestamp(&mut item, "updated_at", &self.updated_at);
        proof { iv = iv.push(("updated_at"@, AttrView::S(chrono_format_datetime(self.updated_at)))); }
        assert(item@ == iv);
        proof {
            Self::lemma_item_roundtrip(self, self, Timestamp { secs: 0, nanos: 0 });
            assert forall|b: MaintenanceRequest, now: Timestamp| #[trigger] b.read_from(item@, now) implies b.same_as(self) by {
                Self::lemma_item_roundtrip(self, &b, now);
            }
        }
        item
    }

    /// Every attribute the `MaintenanceRequests` table defines holds, in the item the entity is
    /// written as, nothing or a value of the type the table gives it, so
    /// DynamoDB accepts the item.
    pub proof fn lemma_item_fits_table(a: &MaintenanceRequest)
        ensures
            item_fits_table(a.spec_item(), spec_maintenance_requests_table()),
    {
        broadcast use crate::item::lemma_lookup_push, crate::item::lemma_lookup_push_if;
        lemma_keys_distinct();
        let t = spec_maintenance_requests_table();
        assert forall|i: int| 0 <= i < t.attributes.len() implies match #[trigger] crate::item::lookup(a.spec_item(), t.attributes[i].0) {
            Some(v) => attr_fits(t.attributes[i].1, v),
            None => true,
        } by {
            if i == 0 { assert(t.attributes[0].0 == "id"@); } else if i == 1 { assert(t.attributes[1].0 == "submitted_by"@); } else if i == 2 { assert(t.attributes[2].0 == "status"@); } else if i == 3 { assert(t.attributes[3].0 == "severity"@); } else if i == 4 { assert(t.attributes[4].0 == "created_at"@); }
        }
    }

    /// Reading the entity back from the item it is written as gives the same
    /// entity, where `chrono` reads back the text of its instants.
    pub proof fn lemma_item_roundtrip(a: &MaintenanceRequest, b: &MaintenanceRequest, now: Timestamp)
        requires
            a.wf(),
            chrono_parse_datetime(chrono_format_datetime(a.created_at)) == Some(a.created_at),
            chrono_parse_datetime(chrono_format_datetime(a.updated_at)) == Some(a.updated_at),
        ensures
            Self::item_readable(a.spec_item()),
            b.read_from(a.spec_item(), now) ==> b.same_as(a),
    {
        broadcast use crate::item::lemma_lookup_push, crate::item::lemma_lookup_push_if;
        lemma_keys_distinct();
        MaintenanceRequestStatus::lemma_parse_str(a.status);
        WorkOrderSeverity::lemma_parse_str(a.severity);
    }

    /// Which check, if any, the arguments of `new` fail, in the order they are made.
    pub open spec fn spec_new_error(
        id: Seq<char>,
        submitted_by: Seq<char>,
        manager_on_site: Seq<char>,
        description: Seq<char>,
        reported_location: Seq<char>,
        troubleshooting_performed: Seq<char>,
    ) -> Option<Seq<char>> {
        if is_blank_spec(id) {
            Some("id cannot be empty"@)
        } else if is_blank_spec(submitted_by) {
            Some("submitted_by cannot be empty"@)
        } else if is_blank_spec(manager_on_site) {
            Some("manager_on_site cannot be empty"@)
        } else if is_blank_spec(description) {
            Some("description cannot be empty"@)
        } else if is_blank_spec(reported_location) {
            Some("reported_location cannot be empty"@)
        } else if is_blank_spec(troubleshooting_performed) {
            Some("troubleshooting_performed cannot be empty"@)
        } else {
            None
        }
    }

    /// Files a maintenance request; it starts out submitted, unread and without a work order.
    pub fn new(
        id: String,
        submitted_by: String,
        manager_on_site: String,
        description: String,
        reported_location: String,
        troubleshooting_performed: String,
        severity: WorkOrderSeverity,
    ) -> (res: Result<Self, AppError>)
        ensures
            match Self::spec_new_error(id@, submitted_by@, manager_on_site@, description@,
                reported_location@, troubleshooting_performed@) {
                Some(m) => is_validation_error(res, m),
                None => res matches Ok(r) && {
                    &&& r.id == id && r.submitted_by == submitted_by && r.manager_on_site == manager_on_site
                    &&& r.description == description && r.reported_location == reported_location
                    &&& r.troubleshooting_performed == troubleshooting_performed && r.severity == severity
                    &&& !r.work_order_created && r.status == MaintenanceRequestStatus::Submitted
                    &&& r.read_by_id is None
                    &&& r.created_at == r.updated_at && r.wf()
                },
            },
            res matches Ok(x) ==> !is_blank_spec(x.id@) && !is_blank_spec(x.submitted_by@) && !is_blank_spec(x.manager_on_site@) && !is_blank_spec(x.description@) && !is_blank_spec(x.reported_location@) && !is_blank_spec(x.troubleshooting_performed@),
    {
        let now = now();
        if is_blank(id.as_str()) {
            return Err(AppError::ValidationError("id cannot be empty".to_owned()));
        }
        if is_blank(submitted_by.as_str()) {
            return Err(AppError::ValidationError("submitted_by cannot be empty".to_owned()));
        }
        if is_blank(manager_on_site.as_str()) {
            return Err(AppError::ValidationError("manager_on_site cannot be empty".to_owned()));
        }
        if is_blank(description.as_str()) {
            return Err(AppError::ValidationError("description cannot be empty".to_owned()));
        }
        if is_blank(reported_location.as_str()) {
            return Err(AppError::ValidationError("reported_location cannot be empty".to_owned()));
        }
        if is_blank(troubleshooting_performed.as_str()) {
            return Err(AppError::ValidationError("troubleshooting_performed cannot be empty".to_owned()));
        }
        Ok(MaintenanceRequest {
            id,
            submitted_by,
            manager_on_site,
            work_order_created: false,
            status: MaintenanceRequestStatus::Submitted,
            read_by_id: None,
            description,
            reported_location,
            troubleshooting_performed,
            severity,
            created_at: now,
            updated_at: now,
        })
    }

    pub fn is_accepted(&self) -> (res: bool)
        ensures
            res == (self.status == MaintenanceRequestStatus::Accepted),
    {
        self.status == MaintenanceRequestStatus::Accepted
    }

    pub fn is_denied(&self) -> (res: bool)
        ensures
            res == (self.status == MaintenanceRequestStatus::Denied),
    {
        self.status == MaintenanceRequestStatus::Denied
    }

    pub fn is_archived(&self) -> (res: bool)
        ensures
            res == (self.status == MaintenanceRequestStatus::Archived),
    {
        self.status == MaintenanceRequestStatus::Archived
    }

    pub fn has_been_read(&self) -> (res: bool)
        ensures
            res == (self.status == MaintenanceRequestStatus::Read),
    {
        self.status == MaintenanceRequestStatus::Read
    }

    /// Archives a request that has been read.
    pub fn archive(&mut self) -> (res: Result<(), AppError>)
        ensures
            old(self).status == MaintenanceRequestStatus::Read ==> res is Ok && *final(self) == (MaintenanceRequest {
                status: MaintenanceRequestStatus::Archived,
                updated_at: final(self).updated_at,
                ..*old(self)
            }) && final(self).updated_at.valid(),
            old(self).status != MaintenanceRequestStatus::Read ==> *final(self) == *old(self)
                && is_validation_error(res, "Only read maintenance requests can be archived"@),
    {
        if self.status != MaintenanceRequestStatus::Read {
            return Err(AppError::ValidationError("Only read maintenance requests can be archived".to_owned()));
        }
        self.status = MaintenanceRequestStatus::Archived;
        self.updated_at = now();
        Ok(())
    }

    /// Records who read the request; the time of the update is left as it was.
    pub fn mark_as_read(&mut self, user_id: String) -> (res: Result<(), AppError>)
        ensures
            !is_blank_spec(user_id@) ==> res is Ok && *final(self) == (MaintenanceRequest {
                read_by_id: Some(user_id),
                status: MaintenanceRequestStatus::Read,
                ..*old(self)
            }),
            is_blank_spec(user_id@) ==> *final(self) == *old(self)
                && is_validation_error(res, "UserId cannot be empty"@),
    {
        if is_blank(user_id.as_str()) {
            return Err(AppError::ValidationError("UserId cannot be empty".to_owned()));
        }
        self.read_by_id = Some(user_id);
        self.status = MaintenanceRequestStatus::Read;
        Ok(())
    }

}

proof fn lemma_keys_distinct()
    ensures
        "id"@ != "submitted_by"@,
        "id"@ != "manager_on_site"@,
        "id"@ != "work_order_created"@,
        "id"@ != "status"@,
        "id"@ != "read_by_id"@,
        "id"@ != "description"@,
        "id"@ != "reported_location"@,
        "id"@ != "troubleshooting_performed"@,
        "id"@ != "severity"@,
        "id"@ != "created_at"@,
        "id"@ != "updated_at"@,
        "submitted_by"@ != "manager_on_site"@,
        "submitted_by"@ != "work_order_created"@,
        "submitted_by"@ != "status"@,
        "submitted_by"@ != "read_by_id"@,
        "submitted_by"@ != "description"@,
        "submitted_by"@ != "reported_location"@,
        "submitted_by"@ != "troubleshooting_performed"@,
        "submitted_by"@ != "severity"@,
        "submitted_by"@ != "created_at"@,
        "submitted_by"@ != "updated_at"@,
        "manager_on_site"@ != "work_order_created"@,
        "manager_on_site"@ != "status"@,
        "manager_on_site"@ != "read_by_id"@,
        "manager_on_site"@ != "description"@,
        "manager_on_site"@ != "reported_location"@,
        "manager_on_site"@ != "troubleshooting_performed"@,
        "manager_on_site"@ != "severity"@,
        "manager_on_site"@ != "created_at"@,
        "manager_on_site"@ != "updated_at"@,
        "work_order_created"@ != "status"@,
        "work_order_created"@ != "read_by_id"@,
        "work_order_created"@ != "description"@,
        "work_order_created"@ != "reported_location"@,
        "work_order_created"@ != "troubleshooting_performed"@,
        "work_order_created"@ != "severity"@,
        "work_order_created"@ != "created_at"@,
        "work_order_created"@ != "updated_at"@,
        "status"@ != "read_by_id"@,
        "status"@ != "description"@,
        "status"@ != "reported_location"@,
        "status"@ != "troubleshooting_performed"@,
        "status"@ != "severity"@,
        "status"@ != "created_at"@,
        "status"@ != "updated_at"@,
        "read_by_id"@ != "description"@,
        "read_by_id"@ != "reported_location"@,
        "read_by_id"@ != "troubleshooting_performed"@,
        "read_by_id"@ != "severity"@,
        "read_by_id"@ != "created_at"@,
        "read_by_id"@ != "updated_at"@,
        "description"@ != "reported_location"@,
        "description"@ != "troubleshooting_performed"@,
        "description"@ != "severity"@,
        "description"@ != "created_at"@,
        "description"@ != "updated_at"@,
        "reported_location"@ != "troubleshooting_performed"@,
        "reported_location"@ != "severity"@,
        "reported_location"@ != "created_at"@,
        "reported_location"@ != "updated_at"@,
        "troubleshooting_performed"@ != "severity"@,
        "troubleshooting_performed"@ != "created_at"@,
        "troubleshooting_performed"@ != "updated_at"@,
        "severity"@ != "created_at"@,
        "severity"@ != "updated_at"@,
        "created_at"@ != "updated_at"@,
{
    broadcast use vstd::string::group_string_axioms;
    reveal_strlit("id");
    reveal_strlit("submitted_by");
    reveal_strlit("manager_on_site");
    reveal_strlit("work_order_created");
    reveal_strlit("status");
    reveal_strlit("read_by_id");
    reveal_strlit("description");
    reveal_strlit("reported_location");
    reveal_strlit("troubleshooting_performed");
    reveal_strlit("severity");
    reveal_strlit("created_at");
    reveal_strlit("updated_at");
    assert("id"@.len() == 2);
    assert("submitted_by"@.len() == 12);
    assert("manager_on_site"@.len() == 15);
    assert("work_order_created"@.len() == 18);
    assert("status"@.len() == 6);
    assert("read_by_id"@.len() == 10);
    assert("description"@.len() == 11);
    assert("reported_location"@.len() == 17);
    assert("troubleshooting_performed"@.len() == 25);
    assert("severity"@.len() == 8);
    assert("created_at"@.len() == 10);
    assert("updated_at"@.len() == 10);
    assert("read_by_id"@[0] != "created_at"@[0]);
    assert("read_by_id"@[0] != "updated_at"@[0]);
    assert("created_at"@[0] != "updated_at"@[0]);
}

} // verus!
