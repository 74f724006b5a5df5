//! Templates that notifications are made from, and their variables.
use vstd::prelude::*;

use crate::error::{is_validation_error, AppError};
use crate::fields::{
    bool_or, i32_or, opt_view, read_bool_or, read_i32_or, read_s, read_ss_or_empty,
    read_timestamp_or, ss_or_empty, timestamp_or, write_i32, write_timestamp,
};
use crate::item::{lookup, push_if, s_at, strings_view, AttrView, Item, ItemView};
use crate::numeric::{lemma_parse_format_i32, spec_format_i32};
use crate::text::{is_blank, is_blank_spec, str_eq};
use crate::time::{chrono_format_datetime, chrono_parse_datetime, now, Timestamp};

use crate::fields::l_or_empty;
use crate::item::AttrValue;
use crate::models::notification::{NotificationChannels, SeverityLevel};

use crate::tables::{attr_fits, item_fits_table, spec_notification_templates_table};

verus! {

/// What a notification is about.
#[derive(Clone, Copy, Debug, PartialEq, Eq, Structural, Hash)]
pub enum NotificationType {
    Alert,
    Reminder,
    Status,
    Maintenance,
    Emergency,
    Update,
}

impl NotificationType {
    /// The text that stands for the variant in items and requests.
    pub open spec fn spec_str(self) -> Seq<char> {
        match self {
            NotificationType::Alert => "alert"@,
            NotificationType::Reminder => "reminder"@,
            NotificationType::Status => "status"@,
            NotificationType::Maintenance => "maintenance"@,
            NotificationType::Emergency => "emergency"@,
            NotificationType::Update => "update"@,
        }
    }

    /// The variant that a text stands for, if any.
    pub open spec fn spec_parse(s: Seq<char>) -> Option<NotificationType> {
        if s == "alert"@ {
            Some(NotificationType::Alert)
        } else if s == "reminder"@ {
            Some(NotificationType::Reminder)
        } else if s == "status"@ {
            Some(NotificationType::Status)
        } else if s == "maintenance"@ {
            Some(NotificationType::Maintenance)
        } else if s == "emergency"@ {
            Some(NotificationType::Emergency)
        } else if s == "update"@ {
            Some(NotificationType::Update)
        } else {
            None
        }
    }

    pub fn to_str(&self) -> (res: &'static str)
        ensures
            res@ == self.spec_str(),
    {
        match self {
            NotificationType::Alert => "alert",
            NotificationType::Reminder => "reminder",
            NotificationType::Status => "status",
            NotificationType::Maintenance => "maintenance",
            NotificationType::Emergency => "emergency",
            NotificationType::Update => "update",
        }
    }

    pub fn to_string(&self) -> (res: String)
        ensures
            res@ == self.spec_str(),
    {
        self.to_str().to_owned()
    }

    /// Reads a variant from its text; any other text is refused with a `ValidationError`.
    pub fn from_string(s: &str) -> (res: Result<NotificationType, AppError>)
        ensures
            match NotificationType::spec_parse(s@) {
                Some(v) => res == Ok::<NotificationType, AppError>(v),
                None => res matches Err(AppError::ValidationError(m)) && m@ == "Invalid notification type"@,
            },
    {
        if str_eq(s, "alert") {
            Ok(NotificationType::Alert)
        } else if str_eq(s, "reminder") {
            Ok(NotificationType::Reminder)
        } else if str_eq(s, "status") {
            Ok(NotificationType::Status)
        } else if str_eq(s, "maintenance") {
            Ok(NotificationType::Maintenance)
        } else if str_eq(s, "emergency") {
            Ok(NotificationType::Emergency)
        } else if str_eq(s, "update") {
            Ok(NotificationType::Update)
        } else {
            Err(AppError::ValidationError("Invalid notification type".to_owned()))
        }
    }

    /// Reading back the text of a variant gives the variant.
    pub proof fn lemma_parse_str(v: NotificationType)
        ensures
            NotificationType::spec_parse(v.spec_str()) == Some(v),
    {
        broadcast use vstd::string::group_string_axioms;
        reveal_strlit("alert");
        reveal_strlit("reminder");
        reveal_strlit("status");
        reveal_strlit("maintenance");
        reveal_strlit("emergency");
        reveal_strlit("update");
        assert("alert"@.len() == 5);
        assert("reminder"@.len() == 8);
        assert("status"@.len() == 6);
        assert("maintenance"@.len() == 11);
        assert("emergency"@.len() == 9);
        assert("update"@.len() == 6);
        assert("status"@[0] != "update"@[0]);
    }
}



/// A variable that a template's texts may refer to.
#[derive(Clone, Debug)]
pub struct TemplateVariable {
    pub name: String,
    pub description: String,
    /// "string", "datetime", "number" or "boolean".
    pub variable_type: String,
    pub required: bool,
    pub default_value: Option<String>,
}

impl TemplateVariable {
    /// Whether a map holds what a variable needs to be read from it.
    pub open spec fn item_readable(iv: ItemView) -> bool {
        &&& s_at(iv, "name"@) is Some
        &&& s_at(iv, "description"@) is Some
        &&& s_at(iv, "variable_type"@) is Some
        &&& lookup(iv, "required"@) is Some
    }

    /// Whether this variable is what is read from a map.
    pub open spec fn read_from(&self, iv: ItemView) -> bool {
        &&& Some(self.name@) == s_at(iv, "name"@)
        &&& Some(self.description@) == s_at(iv, "description"@)
        &&& Some(self.variable_type@) == s_at(iv, "variable_type"@)
        &&& self.required == bool_or(iv, "required"@, false)
        &&& opt_view(self.default_value) == s_at(iv, "default_value"@)
    }

    /// The map that `to_item` writes.
    pub open spec fn spec_item(&self) -> ItemView {
        let iv = Seq::empty();
        let iv = iv.push(("name"@, AttrView::S(self.name@)));
        let iv = iv.push(("description"@, AttrView::S(self.description@)));
        let iv = iv.push(("variable_type"@, AttrView::S(self.variable_type@)));
        let iv = iv.push(("required"@, AttrView::Bool(self.required)));
        push_if(iv, self.default_value is Some, ("default_value"@, AttrView::S(self.default_value->0@)))
    }

    /// Whether two variables hold the same values.
    pub open spec fn same_as(&self, other: &TemplateVariable) -> bool {
        &&& self.name@ == other.name@
        &&& self.description@ == other.description@
        &&& self.variable_type@ == other.variable_type@
        &&& self.required == other.required
        &&& opt_view(self.default_value) == opt_view(other.default_value)
    }

    /// Reads a variable from a map; a present `required` that is not a flag reads as `false`.
    pub fn from_item(item: &Item) -> (res: Option<Self>)
        ensures
            res is Some <==> Self::item_readable(item@),
            res matches Some(v) ==> v.read_from(item@),
    {
        let name = read_s(item, "name")?;
        let description = read_s(item, "description")?;
        let variable_type = read_s(item, "variable_type")?;
        let _ = item.get("required")?;
        let required = read_bool_or(item, "required", false);
        let default_value = read_s(item, "default_value");
        Some(TemplateVariable { name, description, variable_type, required, default_value })
    }

    /// Writes the variable as a map.
    pub fn to_item(&self) -> (res: Item)
        ensures
            res@ == self.spec_item(),
    {
        reveal(push_if);
        let mut item = Item::new();
        item.insert_s("name", self.name.clone());
        item.insert_s("description", self.description.clone());
        item.insert_s("variable_type", self.variable_type.clone());
        item.insert_bool("required", self.required);
        if let Some(d) = &self.default_value {
            item.insert_s("default_value", d.clone());
        }
        item
    }

    /// Reading a variable back from the map it is written as gives the same variable.
    pub proof fn lemma_item_roundtrip(a: &TemplateVariable, b: &TemplateVariable)
        ensures
            Self::item_readable(a.spec_item()),
            b.read_from(a.spec_item()) ==> b.same_as(a),
    {
        broadcast use crate::item::lemma_lookup_push, crate::item::lemma_lookup_push_if;
        lemma_keys_distinct();
    }


    /// The maps of a list that an element can be read from, in order.
    pub open spec fn readable_maps(l: Seq<AttrValue>) -> Seq<ItemView>
        decreases l.len(),
    {
        if l.len() == 0 {
            Seq::empty()
        } else {
            let rest = Self::readable_maps(l.drop_last());
            match l.last() {
                AttrValue::M(m) => if Self::item_readable(m@) { rest.push(m@) } else { rest },
                _ => rest,
            }
        }
    }

    /// Whether `vars` is what is read from a list: one element for each map
    /// that holds one, in order; other values are skipped.
    pub open spec fn list_read_from(vars: Seq<TemplateVariable>, l: Seq<AttrValue>) -> bool {
        &&& vars.len() == Self::readable_maps(l).len()
        &&& forall|i: int| 0 <= i < vars.len() ==> #[trigger] vars[i].read_from(Self::readable_maps(l)[i])
    }

    /// Whether two lists hold the same values.
    pub open spec fn list_same_as(a: Seq<TemplateVariable>, b: Seq<TemplateVariable>) -> bool {
        &&& a.len() == b.len()
        &&& forall|i: int| 0 <= i < a.len() ==> #[trigger] a[i].same_as(&b[i])
    }

    /// Whether `l` is the list written for `vars`: each element as a map, in order.
    pub open spec fn written_as(l: Seq<AttrValue>, vars: Seq<TemplateVariable>) -> bool {
        &&& l.len() == vars.len()
        &&& forall|i: int| 0 <= i < l.len() ==> (#[trigger] l[i] matches AttrValue::M(m) && m@ == vars[i].spec_item())
    }

    /// Reads the elements of a list, skipping values that do not hold one.
    pub fn read_list(l: &Vec<AttrValue>) -> (res: Vec<TemplateVariable>)
        ensures
            Self::list_read_from(res@, l@),
    {
        let mut res: Vec<TemplateVariable> = Vec::new();
        let mut i: usize = 0;
        while i < l.len()
            invariant
                i <= l.len(),
                Self::list_read_from(res@, l@.take(i as int)),
            decreases l.len() - i,
        {
            assert(l@.take(i + 1).drop_last() =~= l@.take(i as int));
            assert(l@.take(i + 1).last() == l@[i as int]);
            let ghost before = res@;
            match &l[i] {
                AttrValue::M(m) => {
                    if let Some(v) = TemplateVariable::from_item(m) {
                        res.push(v);
                        assert forall|j: int| 0 <= j < res@.len() implies #[trigger] res@[j].read_from(
                            Self::readable_maps(l@.take(i + 1))[j]) by {
                            if j < before.len() {
                                assert(res@[j] == before[j]);
                            }
                        }
                    }
                },
                _ => {},
            }
            i = i + 1;
        }
        assert(l@.take(i as int) =~= l@);
        res
    }

    /// Writes each element of a list as a map.
    pub fn write_list(vars: &Vec<TemplateVariable>) -> (res: Vec<AttrValue>)
        ensures
            Self::written_as(res@, vars@),
    {
        let mut res: Vec<AttrValue> = Vec::new();
        let mut i: usize = 0;
        while i < vars.len()
            invariant
                i <= vars.len(),
                Self::written_as(res@, vars@.take(i as int)),
            decreases vars.len() - i,
        {
            let m = vars[i].to_item();
            res.push(AttrValue::M(m));
            i = i + 1;
            assert forall|j: int| 0 <= j < res@.len() implies (#[trigger] res@[j] matches AttrValue::M(m)
                && m@ == vars@.take(i as int)[j].spec_item()) by {
                assert(vars@.take(i as int)[j] == vars@[j]);
                if j < i - 1 {
                    assert(vars@.take(i - 1)[j] == vars@[j]);
                }
            }
        }
        assert(vars@.take(i as int) =~= vars@);
        res
    }

    proof fn lemma_readable_maps_written(l: Seq<AttrValue>, vars: Seq<TemplateVariable>)
        requires
            Self::written_as(l, vars),
        ensures
            Self::readable_maps(l).len() == vars.len(),
            forall|i: int| 0 <= i < vars.len() ==> #[trigger] Self::readable_maps(l)[i] == vars[i].spec_item(),
        decreases l.len(),
    {
        if l.len() > 0 {
            let n = l.len() - 1;
            assert(Self::written_as(l.drop_last(), vars.drop_last())) by {
                assert forall|i: int| 0 <= i < l.drop_last().len() implies (#[trigger] l.drop_last()[i] matches AttrValue::M(m)
                    && m@ == vars.drop_last()[i].spec_item()) by {
                    assert(l.drop_last()[i] == l[i]);
                }
            }
            Self::lemma_readable_maps_written(l.drop_last(), vars.drop_last());
            Self::lemma_item_roundtrip(&vars[n], &vars[n]);
            assert(l[n] == l.last());
        }
    }

    /// Reading back the list written for some elements gives the same elements.
    pub proof fn lemma_list_roundtrip(vars: Seq<TemplateVariable>, l: Seq<AttrValue>, back: Seq<TemplateVariable>)
        requires
            Self::written_as(l, vars),
        ensures
            Self::list_read_from(back, l) ==> Self::list_same_as(back, vars),
    {
        Self::lemma_readable_maps_written(l, vars);
        if Self::list_read_from(back, l) {
            assert forall|i: int| 0 <= i < back.len() implies #[trigger] back[i].same_as(&vars[i]) by {
                assert(back[i].read_from(Self::readable_maps(l)[i]));
                Self::lemma_item_roundtrip(&vars[i], &back[i]);
            }
        }
    }

}

/// A pattern that notifications are made from.
#[derive(Clone, Debug)]
pub struct NotificationTemplate {
    pub id: String,
    pub name: String,
    pub notification_type: NotificationType,
    pub subject_template: String,
    pub message_template: String,
    pub default_severity: SeverityLevel,
    pub supported_channels: Vec<NotificationChannels>,
    pub variables: Vec<TemplateVariable>,
    pub template_engine: String,
    pub active: bool,
    pub version: i32,
    pub created_by: Option<String>,
    pub created_at: Timestamp,
    pub updated_at: Timestamp,
}

impl NotificationTemplate {
    /// The instants are ones that `chrono` represents.
    pub open spec fn wf(&self) -> bool {
        &&& self.created_at.valid()
        &&& self.updated_at.valid()
    }

    /// The DynamoDB table of this entity.
    pub fn table_name() -> (res: &'static str)
        ensures
            res@ == "NotificationTemplates"@,
    {
        "NotificationTemplates"
    }

    /// The key of the entity in its table.
    pub fn primary_key(&self) -> (res: String)
        ensures
            res@ == self.id@,
    {
        self.id.clone()
    }

    /// Whether an item holds what this entity needs to be read from it.
    pub open spec fn item_readable(iv: ItemView) -> bool {
        &&& s_at(iv, "id"@) is Some
        &&& s_at(iv, "name"@) is Some
        &&& s_at(iv, "notification_type"@) matches Some(c) && NotificationType::spec_parse(c) is Some
        &&& s_at(iv, "subject_template"@) is Some
        &&& s_at(iv, "message_template"@) is Some
        &&& s_at(iv, "default_severity"@) matches Some(c) && SeverityLevel::spec_parse(c) is Some
    }

    /// Whether this entity is what is read from an item, where instants that
    /// cannot be read are taken to be `now`.
    pub open spec fn read_from(&self, iv: ItemView, now: Timestamp) -> bool {
        &&& Some(self.id@) == s_at(iv, "id"@)
        &&& Some(self.name@) == s_at(iv, "name"@)
        &&& Some(self.notification_type) == NotificationType::spec_parse(s_at(iv, "notification_type"@)->0)
        &&& Some(self.subject_template@) == s_at(iv, "subject_template"@)
        &&& Some(self.message_template@) == s_at(iv, "message_template"@)
        &&& Some(self.default_severity) == SeverityLevel::spec_parse(s_at(iv, "default_severity"@)->0)
        &&& self.supported_channels@ == NotificationChannels::spec_parse_all(ss_or_empty(iv, "supported_channels"@))
        &&& TemplateVariable::list_read_from(self.variables@, l_or_empty(iv, "variables"@))
        &&& self.template_engine@ == (match s_at(iv, "template_engine"@) { Some(s) => s, None => "simple"@ })
        &&& self.active == bool_or(iv, "active"@, true)
        &&& self.version == i32_or(iv, "version"@, 1)
        &&& opt_view(self.created_by) == s_at(iv, "created_by"@)
        &&& self.created_at == timestamp_or(iv, "created_at"@, now)
        &&& self.updated_at == timestamp_or(iv, "updated_at"@, now)
    }

    /// The item that `to_item` writes.
    /// `vl` is the list written for `variables`.
    pub open spec fn spec_item(&self, vl: Seq<AttrValue>) -> ItemView {
        let iv = Seq::empty();
        let iv = iv.push(("id"@, AttrView::S(self.id@)));
        let iv = iv.push(("name"@, AttrView::S(self.name@)));
        let iv = iv.push(("notification_type"@, AttrView::S(self.notification_type.spec_str())));
        let iv = iv.push(("subject_template"@, AttrView::S(self.subject_template@)));
        let iv = iv.push(("message_template"@, AttrView::S(self.message_template@)));
        let iv = iv.push(("default_severity"@, AttrView::S(self.default_severity.spec_str())));
        let iv = push_if(iv, self.supported_channels@.len() > 0, ("supported_channels"@, AttrView::Ss(NotificationChannels::spec_strs(self.supported_channels@))));
        let iv = push_if(iv, self.variables@.len() > 0, ("variables"@, AttrView::L(vl)));
        let iv = iv.push(("template_engine"@, AttrView::S(self.template_engine@)));
        let iv = iv.push(("active"@, AttrView::Bool(self.active)));
        let iv = iv.push(("version"@, AttrView::N(spec_format_i32(self.version))));
        let iv = push_if(iv, self.created_by is Some, ("created_by"@, AttrView::S(self.created_by->0@)));
        let iv = iv.push(("created_at"@, AttrView::S(chrono_format_datetime(self.created_at))));
        let iv = iv.push(("updated_at"@, AttrView::S(chrono_format_datetime(self.updated_at))));
        iv
    }

    /// Whether two entities hold the same values.
    pub open spec fn same_as(&self, other: &NotificationTemplate) -> bool {
        &&& self.id@ == other.id@
        &&& self.name@ == other.name@
        &&& self.notification_type == other.notification_type
        &&& self.subject_template@ == other.subject_template@
        &&& self.message_template@ == other.message_template@
        &&& self.default_severity == other.default_severity
        &&& self.supported_channels@ == other.supported_channels@
        &&& TemplateVariable::list_same_as(self.variables@, other.variables@)
        &&& self.template_engine@ == other.template_engine@
        &&& self.active == other.active
        &&& self.version == other.version
        &&& opt_view(self.created_by) == opt_view(other.created_by)
        &&& self.created_at == other.created_at
        &&& self.updated_at == other.updated_at
    }

    /// Reads the entity from an item, taking `now` for instants that are missing.
    pub fn from_item_at(item: &Item, now: Timestamp) -> (res: Option<Self>)
        requires
            now.valid(),
        ensures
            res is Some <==> Self::item_readable(item@),
            res matches Some(e) ==> e.read_from(item@, now) && e.wf(),
    {
        let id = read_s(item, "id")?;
        let name = read_s(item, "name")?;
        let notification_type_text = item.get_s("notification_type")?;
        let notification_type = NotificationType::from_string(notification_type_text.as_str()).ok()?;
        let subject_template = read_s(item, "subject_template")?;
        let message_template = read_s(item, "message_template")?;
        let default_severity_text = item.get_s("default_severity")?;
        let default_severity = SeverityLevel::from_string(default_severity_text.as_str()).ok()?;
        let supported_channels_texts = read_ss_or_empty(item, "supported_channels");
        let supported_channels = NotificationChannels::parse_all(&supported_channels_texts);
        let variables = match item.get_l("variables") {
            Some(l) => TemplateVariable::read_list(l),
            None => Vec::new(),
        };
        let template_engine = match read_s(item, "template_engine") {
            Some(s) => s,
            None => "simple".to_owned(),
        };
        let active = read_bool_or(item, "active", true);
        let version = read_i32_or(item, "version", 1);
        let created_by = read_s(item, "created_by");
        let created_at = read_timestamp_or(item, "created_at", now);
        let updated_at = read_timestamp_or(item, "updated_at", now);
        Some(NotificationTemplate {
            id,
            name,
            notification_type,
            subject_template,
            message_template,
            default_severity,
            supported_channels,
            variables,
            template_engine,
            active,
            version,
            created_by,
            created_at,
            updated_at,
        })
    }

    /// Reads the entity from an item; instants that are missing are read from the clock.
    pub fn from_item(item: &Item) -> (res: Option<Self>)
        ensures
            res is Some <==> Self::item_readable(item@),
            res matches Some(e) ==> e.wf() && exists|t: Timestamp| t.valid() && e.read_from(item@, t),
    {
        let t = now();
        Self::from_item_at(item, t)
    }

    /// Writes the entity as an item.
    pub fn to_item(&self) -> (res: Item)
        requires
            self.wf(),
        ensures
            exists|vl: Seq<AttrValue>| res@ == self.spec_item(vl) && TemplateVariable::written_as(vl, self.variables@),
    {
        let ghost mut vl: Seq<AttrValue> = Seq::empty();
        reveal(push_if);
        let mut item = Item::new();
        let ghost mut iv: ItemView = Seq::empty();
        item.insert_s("id", self.id.clone());
        proof { iv = iv.push(("id"@, AttrView::S(self.id@))); }
        assert(item@ == iv);
        item.insert_s("name", self.name.clone());
        proof { iv = iv.push(("name"@, AttrView::S(self.name@))); }
        assert(item@ == iv);
        item.insert_s("notification_type", self.notification_type.to_string());
        proof { iv = iv.push(("notification_type"@, AttrView::S(self.notification_type.spec_str()))); }
        assert(item@ == iv);
        item.insert_s("subject_template", self.subject_template.clone());
        proof { iv = iv.push(("subject_template"@, AttrView::S(self.subject_template@))); }
        assert(item@ == iv);
        item.insert_s("message_template", self.message_template.clone());
        proof { iv = iv.push(("message_template"@, AttrView::S(self.message_template@))); }
        assert(item@ == iv);
        item.insert_s("default_severity", self.default_severity.to_string());
        proof { iv = iv.push(("default_severity"@, AttrView::S(self.default_severity.spec_str()))); }
        assert(item@ == iv);
        if self.supported_channels.len() > 0 {
            item.insert_ss("supported_channels", NotificationChannels::to_strings(&self.supported_channels));
        }
        proof { iv = push_if(iv, self.supported_channels@.len() > 0, ("supported_channels"@, AttrView::Ss(NotificationChannels::spec_strs(self.supported_channels@)))); }
        assert(item@ == iv);
        let list = TemplateVariable::write_list(&self.variables);
        proof { vl = list@; }
        if self.variables.len() > 0 {
            item.insert("variables".to_owned(), AttrValue::L(list));
        }
        proof { iv = push_if(iv, self.variables@.len() > 0, ("variables"@, AttrView::L(vl))); }
        assert(item@ == iv);
        item.insert_s("template_engine", self.template_engine.clone());
        proof { iv = iv.push(("template_engine"@, AttrView::S(self.template_engine@))); }
        assert(item@ == iv);
        item.insert_bool("active", self.active);
        proof { iv = iv.push(("active"@, AttrView::Bool(self.active))); }
        assert(item@ == iv);
        write_i32(&mut item, "version", self.version);
        proof { iv = iv.push(("version"@, AttrView::N(spec_format_i32(self.version)))); }
        assert(item@ == iv);
        if let Some(x) = &self.created_by {
            item.insert_s("created_by", x.clone());
        }
        proof { iv = push_if(iv, self.created_by is Some, ("created_by"@, AttrView::S(self.created_by->0@))); }
        assert(item@ == iv);
        write_timestamp(&mut item, "created_at", &self.created_at);
        proof { iv = iv.push(("created_at"@, AttrView::S(chrono_format_datetime(self.created_at)))); }
        assert(item@ == iv);
        write_timestamp(&mut item, "updated_at", &self.updated_at);
        proof { iv = iv.push(("updated_at"@, AttrView::S(chrono_format_datetime(self.updated_at)))); }
        assert(item@ == iv);
        assert(item@ == self.spec_item(vl));
        item
    }

    /// Every attribute the `NotificationTemplates` table defines holds, in the item the entity is
    /// written as, nothing or a value of the type the table gives it, so
    /// DynamoDB accepts the item.
    pub proof fn lemma_item_fits_table(a: &NotificationTemplate, vl: Seq<AttrValue>)
        ensures
            item_fits_table(a.spec_item(vl), spec_notification_templates_table()),
    {
        broadcast use crate::item::lemma_lookup_push, crate::item::lemma_lookup_push_if;
        lemma_keys_distinct();
        lemma_table_keys_absent();
        let t = spec_notification_templates_table();
        assert forall|i: int| 0 <= i < t.attributes.len() implies match #[trigger] crate::item::lookup(a.spec_item(vl), t.attributes[i].0) {
            Some(v) => attr_fits(t.attributes[i].1, v),
            None => true,
        } by {
            if i == 0 { assert(t.attributes[0].0 == "id"@); } else if i == 1 { assert(t.attributes[1].0 == "template_type"@); }
        }
    }

    /// Reading the entity back from the item it is written as gives the same
    /// entity, where `chrono` reads back the text of its instants.
    #[verifier::rlimit(100)]
    pub proof fn lemma_item_roundtrip(a: &NotificationTemplate, b: &NotificationTemplate, now: Timestamp, vl: Seq<AttrValue>)
        requires
            a.wf(),
            TemplateVariable::written_as(vl, a.variables@),
            chrono_parse_datetime(chrono_format_datetime(a.created_at)) == Some(a.created_at),
            chrono_parse_datetime(chrono_format_datetime(a.updated_at)) == Some(a.updated_at),
        ensures
            Self::item_readable(a.spec_item(vl)),
            b.read_from(a.spec_item(vl), now) ==> b.same_as(a),
    {
        broadcast use crate::item::lemma_lookup_push, crate::item::lemma_lookup_push_if;
        lemma_keys_distinct();
        NotificationType::lemma_parse_str(a.notification_type);
        SeverityLevel::lemma_parse_str(a.default_severity);
        NotificationChannels::lemma_parse_all_strs(a.supported_channels@);
        if a.supported_channels@.len() == 0 { assert(a.supported_channels@ =~= Seq::<NotificationChannels>::empty()); }
        TemplateVariable::lemma_list_roundtrip(a.variables@, vl, b.variables@);
        lemma_parse_format_i32(a.version);
    }

    /// Which check, if any, the arguments of `new` fail, in the order they are made.
    pub open spec fn spec_new_error(
        name: Seq<char>,
        notification_type: Seq<char>,
        message_template: Seq<char>,
        default_severity: Seq<char>,
        supported_channels: Seq<Seq<char>>,
    ) -> Option<Seq<char>> {
        if is_blank_spec(name) {
            Some("Template name cannot be empty"@)
        } else if is_blank_spec(message_template) {
            Some("Message template cannot be empty"@)
        } else if NotificationType::spec_parse(notification_type) is None {
            Some("Invalid notification type"@)
        } else if SeverityLevel::spec_parse(default_severity) is None {
            Some("Invalid severity level"@)
        } else if !NotificationChannels::all_parse(supported_channels) {
            Some("Invalid notification channel"@)
        } else {
            None
        }
    }

    /// Creates a template.
    pub fn new(
        id: String,
        name: String,
        notification_type: String,
        subject_template: String,
        message_template: String,
        default_severity: String,
        supported_channels: Vec<String>,
        variables: Vec<TemplateVariable>,
        template_engine: String,
        active: bool,
        version: i32,
        created_by: Option<String>,
    ) -> (res: Result<Self, AppError>)
        ensures
            match Self::spec_new_error(name@, notification_type@, message_template@, default_severity@,
                strings_view(supported_channels@)) {
                Some(m) => is_validation_error(res, m),
                None => res matches Ok(t) && {
                    &&& t.id == id && t.name == name
                    &&& Some(t.notification_type) == NotificationType::spec_parse(notification_type@)
                    &&& t.subject_template == subject_template && t.message_template == message_template
                    &&& Some(t.default_severity) == SeverityLevel::spec_parse(default_severity@)
                    &&& t.supported_channels@ == NotificationChannels::spec_parse_all(strings_view(supported_channels@))
                    &&& t.variables == variables && t.template_engine == template_engine
                    &&& t.active == active && t.version == version && t.created_by == created_by
                    &&& t.created_at == t.updated_at && t.created_at.valid()
                },
            },
            res matches Ok(x) ==> !is_blank_spec(x.name@) && !is_blank_spec(x.message_template@),
    {
        let now = now();
        if is_blank(name.as_str()) {
            return Err(AppError::ValidationError("Template name cannot be empty".to_owned()));
        }
        if is_blank(message_template.as_str()) {
            return Err(AppError::ValidationError("Message template cannot be empty".to_owned()));
        }
        let notif_type = NotificationType::from_string(notification_type.as_str())?;
        let severity = SeverityLevel::from_string(default_severity.as_str())?;
        let channels = NotificationChannels::from_strings(&supported_channels)?;
        Ok(NotificationTemplate {
            id,
            name,
            notification_type: notif_type,
            subject_template,
            message_template,
            default_severity: severity,
            supported_channels: channels,
            variables,
            template_engine,
            active,
            version,
            created_by,
            created_at: now,
            updated_at: now,
        })
    }

}

proof fn lemma_keys_distinct()
    ensures
        "id"@ != "name"@,
        "id"@ != "notification_type"@,
        "id"@ != "subject_template"@,
        "id"@ != "message_template"@,
        "id"@ != "default_severity"@,
        "id"@ != "supported_channels"@,
        "id"@ != "variables"@,
        "id"@ != "template_engine"@,
        "id"@ != "active"@,
        "id"@ != "version"@,
        "id"@ != "created_by"@,
        "id"@ != "created_at"@,
        "id"@ != "updated_at"@,
        "id"@ != "required"@,
        "id"@ != "description"@,
        "id"@ != "variable_type"@,
        "id"@ != "default_value"@,
        "name"@ != "notification_type"@,
        "name"@ != "subject_template"@,
        "name"@ != "message_template"@,
        "name"@ != "default_severity"@,
        "name"@ != "supported_channels"@,
        "name"@ != "variables"@,
        "name"@ != "template_engine"@,
        "name"@ != "active"@,
        "name"@ != "version"@,
        "name"@ != "created_by"@,
        "name"@ != "created_at"@,
        "name"@ != "updated_at"@,
        "name"@ != "required"@,
        "name"@ != "description"@,
        "name"@ != "variable_type"@,
        "name"@ != "default_value"@,
        "notification_type"@ != "subject_template"@,
        "notification_type"@ != "message_template"@,
        "notification_type"@ != "default_severity"@,
        "notification_type"@ != "supported_channels"@,
        "notification_type"@ != "variables"@,
        "notification_type"@ != "template_engine"@,
        "notification_type"@ != "active"@,
        "notification_type"@ != "version"@,
        "notification_type"@ != "created_by"@,
        "notification_type"@ != "created_at"@,
        "notification_type"@ != "updated_at"@,
        "notification_type"@ != "required"@,
        "notification_type"@ != "description"@,
        "notification_type"@ != "variable_type"@,
        "notification_type"@ != "default_value"@,
        "subject_template"@ != "message_template"@,
        "subject_template"@ != "default_severity"@,
        "subject_template"@ != "supported_channels"@,
        "subject_template"@ != "variables"@,
        "subject_template"@ != "template_engine"@,
        "subject_template"@ != "active"@,
        "subject_template"@ != "version"@,
        "subject_template"@ != "created_by"@,
        "subject_template"@ != "created_at"@,
        "subject_template"@ != "updated_at"@,
        "subject_template"@ != "required"@,
        "subject_template"@ != "description"@,
        "subject_template"@ != "variable_type"@,
        "subject_template"@ != "default_value"@,
        "message_template"@ != "default_severity"@,
        "message_template"@ != "supported_channels"@,
        "message_template"@ != "variables"@,
        "message_template"@ != "template_engine"@,
        "message_template"@ != "active"@,
        "message_template"@ != "version"@,
        "message_template"@ != "created_by"@,
        "message_template"@ != "created_at"@,
        "message_template"@ != "updated_at"@,
        "message_template"@ != "required"@,
        "message_template"@ != "description"@,
        "message_template"@ != "variable_type"@,
        "message_template"@ != "default_value"@,
        "default_severity"@ != "supported_channels"@,
        "default_severity"@ != "variables"@,
        "default_severity"@ != "template_engine"@,
        "default_severity"@ != "active"@,
        "default_severity"@ != "version"@,
        "default_severity"@ != "created_by"@,
        "default_severity"@ != "created_at"@,
        "default_severity"@ != "updated_at"@,
        "default_severity"@ != "required"@,
        "default_severity"@ != "description"@,
        "default_severity"@ != "variable_type"@,
        "default_severity"@ != "default_value"@,
        "supported_channels"@ != "variables"@,
        "supported_channels"@ != "template_engine"@,
        "supported_channels"@ != "active"@,
        "supported_channels"@ != "version"@,
        "supported_channels"@ != "created_by"@,
        "supported_channels"@ != "created_at"@,
        "supported_channels"@ != "updated_at"@,
        "supported_channels"@ != "required"@,
        "supported_channels"@ != "description"@,
        "supported_channels"@ != "variable_type"@,
        "supported_channels"@ != "default_value"@,
        "variables"@ != "template_engine"@,
        "variables"@ != "active"@,
        "variables"@ != "version"@,
        "variables"@ != "created_by"@,
        "variables"@ != "created_at"@,
        "variables"@ != "updated_at"@,
        "variables"@ != "required"@,
        "variables"@ != "description"@,
        "variables"@ != "variable_type"@,
        "variables"@ != "default_value"@,
        "template_engine"@ != "active"@,
        "template_engine"@ != "version"@,
        "template_engine"@ != "created_by"@,
        "template_engine"@ != "created_at"@,
        "template_engine"@ != "updated_at"@,
        "template_engine"@ != "required"@,
        "template_engine"@ != "description"@,
        "template_engine"@ != "variable_type"@,
        "template_engine"@ != "default_value"@,
        "active"@ != "version"@,
        "active"@ != "created_by"@,
        "active"@ != "created_at"@,
        "active"@ != "updated_at"@,
        "active"@ != "required"@,
        "active"@ != "description"@,
        "active"@ != "variable_type"@,
        "active"@ != "default_value"@,
        "version"@ != "created_by"@,
        "version"@ != "created_at"@,
        "version"@ != "updated_at"@,
        "version"@ != "required"@,
        "version"@ != "description"@,
        "version"@ != "variable_type"@,
        "version"@ != "default_value"@,
        "created_by"@ != "created_at"@,
        "created_by"@ != "updated_at"@,
        "created_by"@ != "required"@,
        "created_by"@ != "description"@,
        "created_by"@ != "variable_type"@,
        "created_by"@ != "default_value"@,
        "created_at"@ != "updated_at"@,
        "created_at"@ != "required"@,
        "created_at"@ != "description"@,
        "created_at"@ != "variable_type"@,
        "created_at"@ != "default_value"@,
        "updated_at"@ != "required"@,
        "updated_at"@ != "description"@,
        "updated_at"@ != "variable_type"@,
        "updated_at"@ != "default_value"@,
        "required"@ != "description"@,
        "required"@ != "variable_type"@,
        "required"@ != "default_value"@,
        "description"@ != "variable_type"@,
        "description"@ != "default_value"@,
        "variable_type"@ != "default_value"@,
{
    broadcast use vstd::string::group_string_axioms;
    reveal_strlit("id");
    reveal_strlit("name");
    reveal_strlit("notification_type");
    reveal_strlit("subject_template");
    reveal_strlit("message_template");
    reveal_strlit("default_severity");
    reveal_strlit("supported_channels");
    reveal_strlit("variables");
    reveal_strlit("template_engine");
    reveal_strlit("active");
    reveal_strlit("version");
    reveal_strlit("created_by");
    reveal_strlit("created_at");
    reveal_strlit("updated_at");
    reveal_strlit("required");
    reveal_strlit("description");
    reveal_strlit("variable_type");
    reveal_strlit("default_value");
    assert("id"@.len() == 2);
    assert("name"@.len() == 4);
    assert("notification_type"@.len() == 17);
    assert("subject_template"@.len() == 16);
    assert("message_template"@.len() == 16);
    assert("default_severity"@.len() == 16);
    assert("supported_channels"@.len() == 18);
    assert("variables"@.len() == 9);
    assert("template_engine"@.len() == 15);
    assert("active"@.len() == 6);
    assert("version"@.len() == 7);
    assert("created_by"@.len() == 10);
    assert("created_at"@.len() == 10);
    assert("updated_at"@.len() == 10);
    assert("required"@.len() == 8);
    assert("description"@.len() == 11);
    assert("variable_type"@.len() == 13);
    assert("default_value"@.len() == 13);
    assert("subject_template"@[0] != "message_template"@[0]);
    assert("subject_template"@[0] != "default_severity"@[0]);
    assert("message_template"@[0] != "default_severity"@[0]);
    assert("created_by"@[8] != "created_at"@[8]);
    assert("created_by"@[0] != "updated_at"@[0]);
    assert("created_at"@[0] != "updated_at"@[0]);
    assert("variable_type"@[0] != "default_value"@[0]);
}

proof fn lemma_table_keys_absent()
    ensures
        "template_type"@ != "active"@,
        "template_type"@ != "created_at"@,
        "template_type"@ != "created_by"@,
        "template_type"@ != "default_severity"@,
        "template_type"@ != "id"@,
        "template_type"@ != "message_template"@,
        "template_type"@ != "name"@,
        "template_type"@ != "notification_type"@,
        "template_type"@ != "subject_template"@,
        "template_type"@ != "supported_channels"@,
        "template_type"@ != "template_engine"@,
        "template_type"@ != "updated_at"@,
        "template_type"@ != "variables"@,
        "template_type"@ != "version"@,
{
    broadcast use vstd::string::group_string_axioms;
    reveal_strlit("template_type");
    reveal_strlit("active");
    reveal_strlit("created_at");
    reveal_strlit("created_by");
    reveal_strlit("default_severity");
    reveal_strlit("id");
    reveal_strlit("message_template");
    reveal_strlit("name");
    reveal_strlit("notification_type");
    reveal_strlit("subject_template");
    reveal_strlit("supported_channels");
    reveal_strlit("template_engine");
    reveal_strlit("updated_at");
    reveal_strlit("variables");
    reveal_strlit("version");
    assert("template_type"@.len() == 13);
    assert("active"@.len() == 6);
    assert("created_at"@.len() == 10);
    assert("created_by"@.len() == 10);
    assert("default_severity"@.len() == 16);
    assert("id"@.len() == 2);
    assert("message_template"@.len() == 16);
    assert("name"@.len() == 4);
    assert("notification_type"@.len() == 17);
    assert("subject_template"@.len() == 16);
    assert("supported_channels"@.len() == 18);
    assert("template_engine"@.len() == 15);
    assert("updated_at"@.len() == 10);
    assert("variables"@.len() == 9);
    assert("version"@.len() == 7);
    assert("template_type"@.len() != "active"@.len());
    assert("template_type"@.len() != "created_at"@.len());
    assert("template_type"@.len() != "created_by"@.len());
    assert("template_type"@.len() != "default_severity"@.len());
    assert("template_type"@.len() != "id"@.len());
    assert("template_type"@.len() != "message_template"@.len());
    assert("template_type"@.len() != "name"@.len());
    assert("template_type"@.len() != "notification_type"@.len());
    assert("template_type"@.len() != "subject_template"@.len());
    assert("template_type"@.len() != "supported_channels"@.len());
    assert("template_type"@.len() != "template_engine"@.len());
    assert("template_type"@.len() != "updated_at"@.len());
    assert("template_type"@.len() != "variables"@.len());
    assert("template_type"@.len() != "version"@.len());
}

} // verus!
