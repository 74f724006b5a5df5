//! Tasks that staff carry out.
use vstd::prelude::*;

use crate::error::{is_validation_error, AppError};
use crate::fields::{
    bool_or, opt_view, read_bool_or, read_s, read_timestamp_or, timestamp_or, write_timestamp,
};
use crate::item::{lookup, push_if, s_at, AttrView, Item, ItemView};

use crate::text::{is_blank, is_blank_spec, str_eq};
use crate::time::{chrono_format_datetime, chrono_parse_datetime, now, Timestamp};

verus! {

/// What a task belongs to.
#[derive(Clone, Copy, Debug, PartialEq, Eq, Structural, Hash)]
pub enum TaskType {
    WorkOrder,
    Cleaning,
    MaintenanceRequest,
}

impl TaskType {
    /// The text that stands for the variant in items and requests.
    pub open spec fn spec_str(self) -> Seq<char> {
        match self {
            TaskType::WorkOrder => "workOrder"@,
            TaskType::Cleaning => "cleaning"@,
            TaskType::MaintenanceRequest => "maintenanceRequest"@,
        }
    }

    /// The variant that a text stands for, if any.
    pub open spec fn spec_parse(s: Seq<char>) -> Option<TaskType> {
        if s == "workOrder"@ {
            Some(TaskType::WorkOrder)
        } else if s == "cleaning"@ {
            Some(TaskType::Cleaning)
        } else if s == "maintenanceRequest"@ {
            Some(TaskType::MaintenanceRequest)
        } else {
            None
        }
    }

    pub fn to_str(&self) -> (res: &'static str)
        ensures
            res@ == self.spec_str(),
    {
        match self {
            TaskType::WorkOrder => "workOrder",
            TaskType::Cleaning => "cleaning",
            TaskType::MaintenanceRequest => "maintenanceRequest",
        }
    }

    pub fn to_string(&self) -> (res: String)
        ensures
            res@ == self.spec_str(),
    {
        self.to_str().to_owned()
    }

    /// Reads a variant from its text; any other text is refused with a `ValidationError`.
    pub fn from_string(s: &str) -> (res: Result<TaskType, AppError>)
        ensures
            match TaskType::spec_parse(s@) {
                Some(v) => res == Ok::<TaskType, AppError>(v),
                None => res matches Err(AppError::ValidationError(m)) && m@ == "Invalid task type"@,
            },
    {
        if str_eq(s, "workOrder") {
            Ok(TaskType::WorkOrder)
        } else if str_eq(s, "cleaning") {
            Ok(TaskType::Cleaning)
        } else if str_eq(s, "maintenanceRequest") {
            Ok(TaskType::MaintenanceRequest)
        } else {
            Err(AppError::ValidationError("Invalid task type".to_owned()))
        }
    }

    /// Reading back the text of a variant gives the variant.
    pub proof fn lemma_parse_str(v: TaskType)
        ensures
            TaskType::spec_parse(v.spec_str()) == Some(v),
    {
        broadcast use vstd::string::group_string_axioms;
        reveal_strlit("workOrder");
        reveal_strlit("cleaning");
        reveal_strlit("maintenanceRequest");
        assert("workOrder"@.len() == 9);
        assert("cleaning"@.len() == 8);
        assert("maintenanceRequest"@.len() == 18);
    }
}


/// A piece of work tied to a work order, a cleaning round or a maintenance request.
#[derive(Clone, Debug)]
pub struct Task {
    pub id: String,
    pub task_number: String,
    pub title: String,
    pub description: String,
    pub work_order_id: Option<String>,
    pub task_type: TaskType,
    pub private: bool,
    pub completed: bool,
    pub assigned_to: Option<String>,
    pub completed_by: Option<String>,
    pub created_at: Timestamp,
    pub updated_at: Timestamp,
}

impl Task {
    /// The instants are ones that `chrono` represents.
    pub open spec fn wf(&self) -> bool {
        &&& self.created_at.valid()
        &&& self.updated_at.valid()
    }

    /// The DynamoDB table of this entity.
    pub fn table_name() -> (res: &'static str)
        ensures
            res@ == "Tasks"@,
    {
        "Tasks"
    }

    /// The key of the entity in its table.
    pub fn primary_key(&self) -> (res: String)
        ensures
            res@ == self.id@,
    {
        self.id.clone()
    }

    /// Whether an item holds what this entity needs to be read from it.
    pub open spec fn item_readable(iv: ItemView) -> bool {
        &&& s_at(iv, "id"@) is Some
        &&& s_at(iv, "task_number"@) is Some
        &&& s_at(iv, "title"@) is Some
        &&& s_at(iv, "description"@) is Some
        &&& s_at(iv, "task_type"@) matches Some(c) && TaskType::spec_parse(c) is Some
        &&& lookup(iv, "private"@) is Some
        &&& lookup(iv, "completed"@) is Some
    }

    /// Whether this entity is what is read from an item, where instants that
    /// cannot be read are taken to be `now`.
    pub open spec fn read_from(&self, iv: ItemView, now: Timestamp) -> bool {
        &&& Some(self.id@) == s_at(iv, "id"@)
        &&& Some(self.task_number@) == s_at(iv, "task_number"@)
        &&& Some(self.title@) == s_at(iv, "title"@)
        &&& Some(self.description@) == s_at(iv, "description"@)
        &&& opt_view(self.work_order_id) == s_at(iv, "work_order_id"@)
        &&& Some(self.task_type) == TaskType::spec_parse(s_at(iv, "task_type"@)->0)
        &&& self.private == bool_or(iv, "private"@, false)
        &&& self.completed == bool_or(iv, "completed"@, false)
        &&& opt_view(self.assigned_to) == s_at(iv, "assigned_to"@)
        &&& opt_view(self.completed_by) == s_at(iv, "completed_by"@)
        &&& self.created_at == timestamp_or(iv, "created_at"@, now)
        &&& self.updated_at == timestamp_or(iv, "updated_at"@, now)
    }

    /// The item that `to_item` writes.
    pub open spec fn spec_item(&self) -> ItemView {
        let iv = Seq::empty();
        let iv = iv.push(("id"@, AttrView::S(self.id@)));
        let iv = iv.push(("task_number"@, AttrView::S(self.task_number@)));
        let iv = iv.push(("title"@, AttrView::S(self.title@)));
        let iv = iv.push(("description"@, AttrView::S(self.description@)));
        let iv = push_if(iv, self.work_order_id is Some, ("work_order_id"@, AttrView::S(self.work_order_id->0@)));
        let iv = iv.push(("task_type"@, AttrView::S(self.task_type.spec_str())));
        let iv = iv.push(("private"@, AttrView::Bool(self.private)));
        let iv = iv.push(("completed"@, AttrView::Bool(self.completed)));
        let iv = push_if(iv, self.assigned_to is Some, ("assigned_to"@, AttrView::S(self.assigned_to->0@)));
        let iv = push_if(iv, self.completed_by is Some, ("completed_by"@, AttrView::S(self.completed_by->0@)));
        let iv = iv.push(("created_at"@, AttrView::S(chrono_format_datetime(self.created_at))));
        let iv = iv.push(("updated_at"@, AttrView::S(chrono_format_datetime(self.updated_at))));
        iv
    }

    /// Whether two entities hold the same values.
    pub open spec fn same_as(&self, other: &Task) -> bool {
        &&& self.id@ == other.id@
        &&& self.task_number@ == other.task_number@
        &&& self.title@ == other.title@
        &&& self.description@ == other.description@
        &&& opt_view(self.work_order_id) == opt_view(other.work_order_id)
        &&& self.task_type == other.task_type
        &&& self.private == other.private
        &&& self.completed == other.completed
        &&& opt_view(self.assigned_to) == opt_view(other.assigned_to)
        &&& opt_view(self.completed_by) == opt_view(other.completed_by)
        &&& self.created_at == other.created_at
        &&& self.updated_at == other.updated_at
    }

    /// Reads the entity from an item, taking `now` for instants that are missing.
    pub fn from_item_at(item: &Item, now: Timestamp) -> (res: Option<Self>)
        requires
            now.valid(),
        ensures
            res is Some <==> Self::item_readable(item@),
            res matches Some(e) ==> e.read_from(item@, now) && e.wf(),
    {
        let id = read_s(item, "id")?;
        let task_number = read_s(item, "task_number")?;
        let title = read_s(item, "title")?;
        let description = read_s(item, "description")?;
        let work_order_id = read_s(item, "work_order_id");
        let task_type_text = item.get_s("task_type")?;
        let task_type = TaskType::from_string(task_type_text.as_str()).ok()?;
        let _ = item.get("private")?;
        let private = read_bool_or(item, "private", false);
        let _ = item.get("completed")?;
        let completed = read_bool_or(item, "completed", false);
        let assigned_to = read_s(item, "assigned_to");
        let completed_by = read_s(item, "completed_by");
        let created_at = read_timestamp_or(item, "created_at", now);
        let updated_at = read_timestamp_or(item, "updated_at", now);
        Some(Task {
            id,
            task_number,
            title,
            description,
            work_order_id,
            task_type,
            private,
            completed,
            assigned_to,
            completed_by,
            created_at,
            updated_at,
        })
    }

    /// Reads the entity from an item; instants that are missing are read from the clock.
    pub fn from_item(item: &Item) -> (res: Option<Self>)
        ensures
            res is Some <==> Self::item_readable(item@),
            res matches Some(e) ==> e.wf() && exists|t: Timestamp| t.valid() && e.read_from(item@, t),
    {
        let t = now();
        Self::from_item_at(item, t)
    }

    /// Writes the entity as an item.
    pub fn to_item(&self) -> (res: Item)
        requires
            self.wf(),
        ensures
            res@ == self.spec_item(),
            Self::item_readable(res@),
            forall|b: Task, now: Timestamp| #[trigger] b.read_from(res@, now) ==> b.same_as(self),
    {
        reveal(push_if);
        let mut item = Item::new();
        let ghost mut iv: ItemView = Seq::empty();
        item.insert_s("id", self.id.clone());
        proof { iv = iv.push(("id"@, AttrView::S(self.id@))); }
        assert(item@ == iv);
        item.insert_s("task_number", self.task_number.clone());
        proof { iv = iv.push(("task_number"@, AttrView::S(self.task_number@))); }
        assert(item@ == iv);
        item.insert_s("title", self.title.clone());
        proof { iv = iv.push(("title"@, AttrView::S(self.title@))); }
        assert(item@ == iv);
        item.insert_s("description", self.description.clone());
        proof { iv = iv.push(("description"@, AttrView::S(self.description@))); }
        assert(item@ == iv);
        if let Some(x) = &self.work_order_id {
            item.insert_s("work_order_id", x.clone());
        }
        proof { iv = push_if(iv, self.work_order_id is Some, ("work_order_id"@, AttrView::S(self.work_order_id->0@))); }
        assert(item@ == iv);
        item.insert_s("task_type", self.task_type.to_string());
        proof { iv = iv.push(("task_type"@, AttrView::S(self.task_type.spec_str()))); }
        assert(item@ == iv);
        item.insert_bool("private", self.private);
        proof { iv = iv.push(("private"@, AttrView::Bool(self.private))); }
        assert(item@ == iv);
        item.insert_bool("completed", self.completed);
        proof { iv = iv.push(("completed"@, AttrView::Bool(self.completed))); }
        assert(item@ == iv);
        if let Some(x) = &self.assigned_to {
            item.insert_s("assigned_to", x.clone());
        }
        proof { iv = push_if(iv, self.assigned_to is Some, ("assigned_to"@, AttrView::S(self.assigned_to->0@))); }
        assert(item@ == iv);
        if let Some(x) = &self.completed_by {
            item.insert_s("completed_by", x.clone());
        }
        proof { iv = push_if(iv, self.completed_by is Some, ("completed_by"@, AttrView::S(self.completed_by->0@))); }
        assert(item@ == iv);
        write_timestamp(&mut item, "created_at", &self.created_at);
        proof { iv = iv.push(("created_at"@, AttrView::S(chrono_format_datetime(self.created_at)))); }
        assert(item@ == iv);
        write_timestamp(&mut item, "updated_at", &self.updated_at);
        proof { iv = iv.push(("updated_at"@, AttrView::S(chrono_format_datetime(self.updated_at)))); }
        assert(item@ == iv);
        proof {
            Self::lemma_item_roundtrip(self, self, Timestamp { secs: 0, nanos: 0 });
            assert forall|b: Task, now: Timestamp| #[trigger] b.read_from(item@, now) implies b.same_as(self) by {
                Self::lemma_item_roundtrip(self, &b, now);
            }
        }
        item
    }

    /// Reading the entity back from the item it is written as gives the same
    /// entity, where `chrono` reads back the text of its instants.
    pub proof fn lemma_item_roundtrip(a: &Task, b: &Task, now: Timestamp)
        requires
            a.wf(),
            chrono_parse_datetime(chrono_format_datetime(a.created_at)) == Some(a.created_at),
            chrono_parse_datetime(chrono_format_datetime(a.updated_at)) == Some(a.updated_at),
        ensures
            Self::item_readable(a.spec_item()),
            b.read_from(a.spec_item(), now) ==> b.same_as(a),
    {
        broadcast use crate::item::lemma_lookup_push, crate::item::lemma_lookup_push_if;
        lemma_keys_distinct();
        TaskType::lemma_parse_str(a.task_type);
    }

    /// Which check, if any, the arguments of `new` fail, in the order they are made.
    pub open spec fn spec_new_error(
        task_number: Seq<char>,
        title: Seq<char>,
        description: Seq<char>,
        work_order_id: Option<String>,
        task_type: Seq<char>,
    ) -> Option<Seq<char>> {
        if is_blank_spec(task_number) {
            Some("Task number cannot be empty"@)
        } else if is_blank_spec(title) {
            Some("Title cannot be empty"@)
        } else if is_blank_spec(description) {
            Some("Description cannot be empty"@)
        } else if task_type == TaskType::WorkOrder.spec_str() && work_order_id is None {
            Some("If task is of type work order, work_order_id is required"@)
        } else if task_type != TaskType::WorkOrder.spec_str() && work_order_id is Some {
            Some("If task is not of type work order, work_order_id must be empty"@)
        } else if is_blank_spec(task_type) {
            Some("Task type cannot be empty"@)
        } else if TaskType::spec_parse(task_type) is None {
            Some("Invalid task type"@)
        } else {
            None
        }
    }

    /// The arguments that `new` accepts pair the work order type with a work
    /// order: a task of that type names one, a task of any other type none.
    pub proof fn lemma_new_work_order_link(
        task_number: Seq<char>,
        title: Seq<char>,
        description: Seq<char>,
        work_order_id: Option<String>,
        task_type: Seq<char>,
    )
        requires
            Self::spec_new_error(task_number, title, description, work_order_id, task_type) is None,
        ensures
            TaskType::spec_parse(task_type) == Some(TaskType::WorkOrder) <==> work_order_id is Some,
    {
        TaskType::lemma_parse_str(TaskType::WorkOrder);
    }

    /// Creates an open task. A task of the work order type belongs to a work
    /// order; a task of any other type belongs to none.
    pub fn new(
        id: String,
        task_number: String,
        title: String,
        description: String,
        work_order_id: Option<String>,
        task_type: String,
        private: bool,
        assigned_to: Option<String>,
    ) -> (res: Result<Self, AppError>)
        ensures
            match Self::spec_new_error(task_number@, title@, description@, work_order_id, task_type@) {
                Some(m) => is_validation_error(res, m),
                None => res matches Ok(t) && {
                    &&& t.id == id && t.task_number == task_number && t.title == title
                    &&& t.description == description && t.work_order_id == work_order_id
                    &&& Some(t.task_type) == TaskType::spec_parse(task_type@)
                    &&& t.private == private && !t.completed
                    &&& t.assigned_to == assigned_to && t.completed_by is None
                    &&& t.created_at == t.updated_at && t.wf()
                },
            },
            res matches Ok(t) ==> (t.task_type == TaskType::WorkOrder <==> t.work_order_id is Some),
            res matches Ok(t) ==> t.work_order_id == work_order_id,
            res matches Ok(x) ==> !is_blank_spec(x.task_number@) && !is_blank_spec(x.title@) && !is_blank_spec(x.description@),
    {
        let now = now();
        if is_blank(task_number.as_str()) {
            return Err(AppError::ValidationError("Task number cannot be empty".to_owned()));
        }
        if is_blank(title.as_str()) {
            return Err(AppError::ValidationError("Title cannot be empty".to_owned()));
        }
        if is_blank(description.as_str()) {
            return Err(AppError::ValidationError("Description cannot be empty".to_owned()));
        }
        let work_order_text = TaskType::WorkOrder.to_string();
        let is_work_order = str_eq(task_type.as_str(), work_order_text.as_str());
        if is_work_order && work_order_id.is_none() {
            return Err(AppError::ValidationError(
                "If task is of type work order, work_order_id is required".to_owned(),
            ));
        }
        if !is_work_order && work_order_id.is_some() {
            return Err(AppError::ValidationError(
                "If task is not of type work order, work_order_id must be empty".to_owned(),
            ));
        }
        if is_blank(task_type.as_str()) {
            return Err(AppError::ValidationError("Task type cannot be empty".to_owned()));
        }
        let task_type_enum = TaskType::from_string(task_type.as_str())?;
        Ok(Task {
            id,
            task_number,
            title,
            description,
            work_order_id,
            task_type: task_type_enum,
            private,
            completed: false,
            assigned_to,
            completed_by: None,
            created_at: now,
            updated_at: now,
        })
    }

    pub fn is_completed(&self) -> (res: bool)
        ensures
            res == self.completed,
    {
        self.completed
    }

    /// Marks the task complete, by whoever is given.
    pub fn complete_task(&mut self, completed_by: Option<String>)
        ensures
            *final(self) == (Task { completed: true, completed_by, updated_at: final(self).updated_at, ..*old(self) }),
            final(self).updated_at.valid(),
    {
        self.completed = true;
        self.completed_by = completed_by;
        self.updated_at = now();
    }

    pub fn assign_to(&mut self, user_id: String)
        ensures
            *final(self) == (Task { assigned_to: Some(user_id), updated_at: final(self).updated_at, ..*old(self) }),
            final(self).updated_at.valid(),
    {
        self.assigned_to = Some(user_id);
        self.updated_at = now();
    }

    pub fn unassign(&mut self)
        ensures
            *final(self) == (Task { assigned_to: None, updated_at: final(self).updated_at, ..*old(self) }),
            final(self).updated_at.valid(),
    {
        self.assigned_to = None;
        self.updated_at = now();
    }

    /// Replaces the title and the description where new ones are given.
    pub fn update_details(&mut self, title: Option<String>, description: Option<String>)
        ensures
            *final(self) == (Task {
                title: match title { Some(t) => t, None => old(self).title },
                description: match description { Some(d) => d, None => old(self).description },
                updated_at: final(self).updated_at,
                ..*old(self)
            }),
            final(self).updated_at.valid(),
    {
        if let Some(t) = title {
            self.title = t;
        }
        if let Some(d) = description {
            self.description = d;
        }
        self.updated_at = now();
    }

    pub fn update_work_order_id(&mut self, work_order_id: Option<String>)
        ensures
            *final(self) == (Task { work_order_id, updated_at: final(self).updated_at, ..*old(self) }),
            final(self).updated_at.valid(),
    {
        self.work_order_id = work_order_id;
        self.updated_at = now();
    }

}

proof fn lemma_keys_distinct()
    ensures
        "id"@ != "task_number"@,
        "id"@ != "title"@,
        "id"@ != "description"@,
        "id"@ != "work_order_id"@,
        "id"@ != "task_type"@,
        "id"@ != "private"@,
        "id"@ != "completed"@,
        "id"@ != "assigned_to"@,
        "id"@ != "completed_by"@,
        "id"@ != "created_at"@,
        "id"@ != "updated_at"@,
        "task_number"@ != "title"@,
        "task_number"@ != "description"@,
        "task_number"@ != "work_order_id"@,
        "task_number"@ != "task_type"@,
        "task_number"@ != "private"@,
        "task_number"@ != "completed"@,
        "task_number"@ != "assigned_to"@,
        "task_number"@ != "completed_by"@,
        "task_number"@ != "created_at"@,
        "task_number"@ != "updated_at"@,
        "title"@ != "description"@,
        "title"@ != "work_order_id"@,
        "title"@ != "task_type"@,
        "title"@ != "private"@,
        "title"@ != "completed"@,
        "title"@ != "assigned_to"@,
        "title"@ != "completed_by"@,
        "title"@ != "created_at"@,
        "title"@ != "updated_at"@,
        "description"@ != "work_order_id"@,
        "description"@ != "task_type"@,
        "description"@ != "private"@,
        "description"@ != "completed"@,
        "description"@ != "assigned_to"@,
        "description"@ != "completed_by"@,
        "description"@ != "created_at"@,
        "description"@ != "updated_at"@,
        "work_order_id"@ != "task_type"@,
        "work_order_id"@ != "private"@,
        "work_order_id"@ != "completed"@,
        "work_order_id"@ != "assigned_to"@,
        "work_order_id"@ != "completed_by"@,
        "work_order_id"@ != "created_at"@,
        "work_order_id"@ != "updated_at"@,
        "task_type"@ != "private"@,
        "task_type"@ != "completed"@,
        "task_type"@ != "assigned_to"@,
        "task_type"@ != "completed_by"@,
        "task_type"@ != "created_at"@,
        "task_type"@ != "updated_at"@,
        "private"@ != "completed"@,
        "private"@ != "assigned_to"@,
        "private"@ != "completed_by"@,
        "private"@ != "created_at"@,
        "private"@ != "updated_at"@,
        "completed"@ != "assigned_to"@,
        "completed"@ != "completed_by"@,
        "completed"@ != "created_at"@,
        "completed"@ != "updated_at"@,
        "assigned_to"@ != "completed_by"@,
        "assigned_to"@ != "created_at"@,
        "assigned_to"@ != "updated_at"@,
        "completed_by"@ != "created_at"@,
        "completed_by"@ != "updated_at"@,
        "created_at"@ != "updated_at"@,
{
    broadcast use vstd::string::group_string_axioms;
    reveal_strlit("id");
    reveal_strlit("task_number");
    reveal_strlit("title");
    reveal_strlit("description");
    reveal_strlit("work_order_id");
    reveal_strlit("task_type");
    reveal_strlit("private");
    reveal_strlit("completed");
    reveal_strlit("assigned_to");
    reveal_strlit("completed_by");
    reveal_strlit("created_at");
    reveal_strlit("updated_at");
    assert("id"@.len() == 2);
    assert("task_number"@.len() == 11);
    assert("title"@.len() == 5);
    assert("description"@.len() == 11);
    assert("work_order_id"@.len() == 13);
    assert("task_type"@.len() == 9);
    assert("private"@.len() == 7);
    assert("completed"@.len() == 9);
    assert("assigned_to"@.len() == 11);
    assert("completed_by"@.len() == 12);
    assert("created_at"@.len() == 10);
    assert("updated_at"@.len() == 10);
    assert("task_number"@[0] != "description"@[0]);
    assert("task_number"@[0] != "assigned_to"@[0]);
    assert("description"@[0] != "assigned_to"@[0]);
    assert("task_type"@[0] != "completed"@[0]);
    assert("created_at"@[0] != "updated_at"@[0]);
}

} // verus!
