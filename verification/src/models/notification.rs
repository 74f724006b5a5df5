//! Notifications to users, their severities and channels.
use vstd::prelude::*;

use crate::error::{is_validation_error, AppError};
use crate::fields::{
    i32_or, opt_view, read_i32_or, read_s, read_ss_or_empty, read_timestamp, read_timestamp_or,
    ss_or_empty, timestamp_at, timestamp_or, write_i32, write_timestamp,
};
use crate::item::{lookup, push_if, s_at, strings_view, AttrView, Item, ItemView};
use crate::numeric::{lemma_parse_format_i32, spec_format_i32};
use crate::text::{is_blank, is_blank_spec, str_eq};
use crate::time::{chrono_format_datetime, chrono_parse_datetime, now, Timestamp};

use crate::json::{canonical_json, json_canonical};

use crate::tables::{attr_fits, item_fits_table, spec_notifications_table};

verus! {

/// How serious a notification is.
#[derive(Clone, Copy, Debug, PartialEq, Eq, Structural, Hash)]
pub enum SeverityLevel {
    Low,
    Medium,
    High,
    Critical,
    Informational,
}

impl SeverityLevel {
    /// The text that stands for the variant in items and requests.
    pub open spec fn spec_str(self) -> Seq<char> {
        match self {
            SeverityLevel::Low => "low"@,
            SeverityLevel::Medium => "medium"@,
            SeverityLevel::High => "high"@,
            SeverityLevel::Critical => "critical"@,
            SeverityLevel::Informational => "informational"@,
        }
    }

    /// The variant that a text stands for, if any.
    pub open spec fn spec_parse(s: Seq<char>) -> Option<SeverityLevel> {
        if s == "low"@ {
            Some(SeverityLevel::Low)
        } else if s == "medium"@ {
            Some(SeverityLevel::Medium)
        } else if s == "high"@ {
            Some(SeverityLevel::High)
        } else if s == "critical"@ {
            Some(SeverityLevel::Critical)
        } else if s == "informational"@ {
            Some(SeverityLevel::Informational)
        } else {
            None
        }
    }

    pub fn to_str(&self) -> (res: &'static str)
        ensures
            res@ == self.spec_str(),
    {
        match self {
            SeverityLevel::Low => "low",
            SeverityLevel::Medium => "medium",
            SeverityLevel::High => "high",
            SeverityLevel::Critical => "critical",
            SeverityLevel::Informational => "informational",
        }
    }

    pub fn to_string(&self) -> (res: String)
        ensures
            res@ == self.spec_str(),
    {
        self.to_str().to_owned()
    }

    /// Reads a variant from its text; any other text is refused with a `ValidationError`.
    pub fn from_string(s: &str) -> (res: Result<SeverityLevel, AppError>)
        ensures
            match SeverityLevel::spec_parse(s@) {
                Some(v) => res == Ok::<SeverityLevel, AppError>(v),
                None => res matches Err(AppError::ValidationError(m)) && m@ == "Invalid severity level"@,
            },
    {
        if str_eq(s, "low") {
            Ok(SeverityLevel::Low)
        } else if str_eq(s, "medium") {
            Ok(SeverityLevel::Medium)
        } else if str_eq(s, "high") {
            Ok(SeverityLevel::High)
        } else if str_eq(s, "critical") {
            Ok(SeverityLevel::Critical)
        } else if str_eq(s, "informational") {
            Ok(SeverityLevel::Informational)
        } else {
            Err(AppError::ValidationError("Invalid severity level".to_owned()))
        }
    }

    /// Reading back the text of a variant gives the variant.
    pub proof fn lemma_parse_str(v: SeverityLevel)
        ensures
            SeverityLevel::spec_parse(v.spec_str()) == Some(v),
    {
        broadcast use vstd::string::group_string_axioms;
        reveal_strlit("low");
        reveal_strlit("medium");
        reveal_strlit("high");
        reveal_strlit("critical");
        reveal_strlit("informational");
        assert("low"@.len() == 3);
        assert("medium"@.len() == 6);
        assert("high"@.len() == 4);
        assert("critical"@.len() == 8);
        assert("informational"@.len() == 13);
    }
}


/// The channels a notification can go out on.
#[derive(Clone, Copy, Debug, PartialEq, Eq, Structural, Hash)]
pub enum NotificationChannels {
    Email,
    Push,
    Sms,
    Slack,
    Teams,
    Webhook,
    InApp,
    Desktop,
}

impl NotificationChannels {
    /// The text that stands for the variant in items and requests.
    pub open spec fn spec_str(self) -> Seq<char> {
        match self {
            NotificationChannels::Email => "email"@,
            NotificationChannels::Push => "push"@,
            NotificationChannels::Sms => "sms"@,
            NotificationChannels::Slack => "slack"@,
            NotificationChannels::Teams => "teams"@,
            NotificationChannels::Webhook => "webhook"@,
            NotificationChannels::InApp => "in_app"@,
            NotificationChannels::Desktop => "desktop"@,
        }
    }

    /// The variant that a text stands for, if any.
    pub open spec fn spec_parse(s: Seq<char>) -> Option<NotificationChannels> {
        if s == "email"@ {
            Some(NotificationChannels::Email)
        } else if s == "push"@ {
            Some(NotificationChannels::Push)
        } else if s == "sms"@ {
            Some(NotificationChannels::Sms)
        } else if s == "slack"@ {
            Some(NotificationChannels::Slack)
        } else if s == "teams"@ {
            Some(NotificationChannels::Teams)
        } else if s == "webhook"@ {
            Some(NotificationChannels::Webhook)
        } else if s == "in_app"@ {
            Some(NotificationChannels::InApp)
        } else if s == "desktop"@ {
            Some(NotificationChannels::Desktop)
        } else {
            None
        }
    }

    pub fn to_str(&self) -> (res: &'static str)
        ensures
            res@ == self.spec_str(),
    {
        match self {
            NotificationChannels::Email => "email",
            NotificationChannels::Push => "push",
            NotificationChannels::Sms => "sms",
            NotificationChannels::Slack => "slack",
            NotificationChannels::Teams => "teams",
            NotificationChannels::Webhook => "webhook",
            NotificationChannels::InApp => "in_app",
            NotificationChannels::Desktop => "desktop",
        }
    }

    pub fn to_string(&self) -> (res: String)
        ensures
            res@ == self.spec_str(),
    {
        self.to_str().to_owned()
    }

    /// Reads a variant from its text; any other text is refused with a `ValidationError`.
    pub fn from_string(s: &str) -> (res: Result<NotificationChannels, AppError>)
        ensures
            match NotificationChannels::spec_parse(s@) {
                Some(v) => res == Ok::<NotificationChannels, AppError>(v),
                None => res matches Err(AppError::ValidationError(m)) && m@ == "Invalid notification channel"@,
            },
    {
        if str_eq(s, "email") {
            Ok(NotificationChannels::Email)
        } else if str_eq(s, "push") {
            Ok(NotificationChannels::Push)
        } else if str_eq(s, "sms") {
            Ok(NotificationChannels::Sms)
        } else if str_eq(s, "slack") {
            Ok(NotificationChannels::Slack)
        } else if str_eq(s, "teams") {
            Ok(NotificationChannels::Teams)
        } else if str_eq(s, "webhook") {
            Ok(NotificationChannels::Webhook)
        } else if str_eq(s, "in_app") {
            Ok(NotificationChannels::InApp)
        } else if str_eq(s, "desktop") {
            Ok(NotificationChannels::Desktop)
        } else {
            Err(AppError::ValidationError("Invalid notification channel".to_owned()))
        }
    }

    /// Reading back the text of a variant gives the variant.
    pub proof fn lemma_parse_str(v: NotificationChannels)
        ensures
            NotificationChannels::spec_parse(v.spec_str()) == Some(v),
    {
        broadcast use vstd::string::group_string_axioms;
        reveal_strlit("email");
        reveal_strlit("push");
        reveal_strlit("sms");
        reveal_strlit("slack");
        reveal_strlit("teams");
        reveal_strlit("webhook");
        reveal_strlit("in_app");
        reveal_strlit("desktop");
        assert("email"@.len() == 5);
        assert("push"@.len() == 4);
        assert("sms"@.len() == 3);
        assert("slack"@.len() == 5);
        assert("teams"@.len() == 5);
        assert("webhook"@.len() == 7);
        assert("in_app"@.len() == 6);
        assert("desktop"@.len() == 7);
        assert("email"@[0] != "slack"@[0]);
        assert("email"@[0] != "teams"@[0]);
        assert("slack"@[0] != "teams"@[0]);
        assert("webhook"@[0] != "desktop"@[0]);
    }
}


impl NotificationChannels {
    /// The variants that a list of texts stands for, in order; texts that stand for none are skipped.
    pub open spec fn spec_parse_all(s: Seq<Seq<char>>) -> Seq<NotificationChannels>
        decreases s.len(),
    {
        if s.len() == 0 {
            Seq::empty()
        } else {
            let rest = NotificationChannels::spec_parse_all(s.drop_last());
            match NotificationChannels::spec_parse(s.last()) {
                Some(v) => rest.push(v),
                None => rest,
            }
        }
    }

    /// The texts of a list of variants.
    pub open spec fn spec_strs(v: Seq<NotificationChannels>) -> Seq<Seq<char>> {
        v.map_values(|x: NotificationChannels| x.spec_str())
    }

    /// Whether every text of the list stands for a variant.
    pub open spec fn all_parse(s: Seq<Seq<char>>) -> bool {
        forall|i: int| 0 <= i < s.len() ==> #[trigger] NotificationChannels::spec_parse(s[i]) is Some
    }

    /// Reads the variants of a list of texts, skipping texts that stand for none.
    pub fn parse_all(texts: &Vec<String>) -> (res: Vec<NotificationChannels>)
        ensures
            res@ == NotificationChannels::spec_parse_all(strings_view(texts@)),
    {
        let ghost sv = strings_view(texts@);
        let mut res: Vec<NotificationChannels> = Vec::new();
        let mut i: usize = 0;
        while i < texts.len()
            invariant
                i <= texts.len(),
                sv == strings_view(texts@),
                res@ == NotificationChannels::spec_parse_all(sv.take(i as int)),
            decreases texts.len() - i,
        {
            assert(sv.take(i + 1).drop_last() =~= sv.take(i as int));
            assert(sv.take(i + 1).last() == texts@[i as int]@);
            if let Ok(v) = NotificationChannels::from_string(texts[i].as_str()) {
                res.push(v);
            }
            i = i + 1;
        }
        assert(sv.take(i as int) =~= sv);
        res
    }

    /// Reads the variants of a list of texts; the first text that stands for none is refused.
    pub fn from_strings(texts: &Vec<String>) -> (res: Result<Vec<NotificationChannels>, AppError>)
        ensures
            NotificationChannels::all_parse(strings_view(texts@)) ==> (res matches Ok(v)
                && v@ == NotificationChannels::spec_parse_all(strings_view(texts@))),
            !NotificationChannels::all_parse(strings_view(texts@)) ==> (res matches Err(AppError::ValidationError(m)) && m@ == "Invalid notification channel"@),
    {
        let ghost sv = strings_view(texts@);
        let mut res: Vec<NotificationChannels> = Vec::new();
        let mut i: usize = 0;
        while i < texts.len()
            invariant
                i <= texts.len(),
                sv == strings_view(texts@),
                res@ == NotificationChannels::spec_parse_all(sv.take(i as int)),
                forall|j: int| 0 <= j < i ==> #[trigger] NotificationChannels::spec_parse(sv[j]) is Some,
            decreases texts.len() - i,
        {
            assert(sv.take(i + 1).drop_last() =~= sv.take(i as int));
            assert(sv.take(i + 1).last() == texts@[i as int]@);
            assert(sv[i as int] == texts@[i as int]@);
            let v = NotificationChannels::from_string(texts[i].as_str())?;
            res.push(v);
            i = i + 1;
        }
        assert(sv.take(i as int) =~= sv);
        Ok(res)
    }

    /// Whether a list of variants holds `x`.
    pub fn list_holds(v: &Vec<NotificationChannels>, x: &NotificationChannels) -> (res: bool)
        ensures
            res == v@.contains(*x),
    {
        let mut i: usize = 0;
        while i < v.len()
            invariant
                i <= v.len(),
                forall|j: int| 0 <= j < i ==> v@[j] != *x,
            decreases v.len() - i,
        {
            if v[i] == *x {
                assert(v@[i as int] == *x);
                return true;
            }
            i = i + 1;
        }
        false
    }

    /// Writes the texts of a list of variants.
    pub fn to_strings(v: &Vec<NotificationChannels>) -> (res: Vec<String>)
        ensures
            strings_view(res@) == NotificationChannels::spec_strs(v@),
    {
        let mut res: Vec<String> = Vec::new();
        let mut i: usize = 0;
        while i < v.len()
            invariant
                i <= v.len(),
                res.len() == i,
                forall|j: int| 0 <= j < i ==> #[trigger] res@[j]@ == v@[j].spec_str(),
            decreases v.len() - i,
        {
            res.push(v[i].to_string());
            i = i + 1;
        }
        assert(strings_view(res@) =~= NotificationChannels::spec_strs(v@));
        res
    }

    /// Reading back the texts of a list of variants gives the list.
    pub proof fn lemma_parse_all_strs(v: Seq<NotificationChannels>)
        ensures
            NotificationChannels::spec_parse_all(NotificationChannels::spec_strs(v)) == v,
        decreases v.len(),
    {
        if v.len() > 0 {
            NotificationChannels::lemma_parse_all_strs(v.drop_last());
            assert(NotificationChannels::spec_strs(v).drop_last() =~= NotificationChannels::spec_strs(v.drop_last()));
            NotificationChannels::lemma_parse_str(v.last());
            assert(v.drop_last().push(v.last()) =~= v);
        } else {
            assert(NotificationChannels::spec_strs(v) =~= Seq::<Seq<char>>::empty());
        }
    }
}


/// Where a notification stands.
#[derive(Clone, Copy, Debug, PartialEq, Eq, Structural, Hash)]
pub enum NotificationStatus {
    Draft,
    Pending,
    Sent,
    Failed,
    Cancelled,
    Partial,
}

impl NotificationStatus {
    /// The text that stands for the variant in items and requests.
    pub open spec fn spec_str(self) -> Seq<char> {
        match self {
            NotificationStatus::Draft => "draft"@,
            NotificationStatus::Pending => "pending"@,
            NotificationStatus::Sent => "sent"@,
            NotificationStatus::Failed => "failed"@,
            NotificationStatus::Cancelled => "cancelled"@,
            NotificationStatus::Partial => "partial"@,
        }
    }

    /// The variant that a text stands for, if any.
    pub open spec fn spec_parse(s: Seq<char>) -> Option<NotificationStatus> {
        if s == "draft"@ {
            Some(NotificationStatus::Draft)
        } else if s == "pending"@ {
            Some(NotificationStatus::Pending)
        } else if s == "sent"@ {
            Some(NotificationStatus::Sent)
        } else if s == "failed"@ {
            Some(NotificationStatus::Failed)
        } else if s == "cancelled"@ {
            Some(NotificationStatus::Cancelled)
        } else if s == "partial"@ {
            Some(NotificationStatus::Partial)
        } else {
            None
        }
    }

    pub fn to_str(&self) -> (res: &'static str)
        ensures
            res@ == self.spec_str(),
    {
        match self {
            NotificationStatus::Draft => "draft",
            NotificationStatus::Pending => "pending",
            NotificationStatus::Sent => "sent",
            NotificationStatus::Failed => "failed",
            NotificationStatus::Cancelled => "cancelled",
            NotificationStatus::Partial => "partial",
        }
    }

    pub fn to_string(&self) -> (res: String)
        ensures
            res@ == self.spec_str(),
    {
        self.to_str().to_owned()
    }

    /// Reads a variant from its text; any other text is refused with a `ValidationError`.
    pub fn from_string(s: &str) -> (res: Result<NotificationStatus, AppError>)
        ensures
            match NotificationStatus::spec_parse(s@) {
                Some(v) => res == Ok::<NotificationStatus, AppError>(v),
                None => res matches Err(AppError::ValidationError(m)) && m@ == "Invalid notification status"@,
            },
    {
        if str_eq(s, "draft") {
            Ok(NotificationStatus::Draft)
        } else if str_eq(s, "pending") {
            Ok(NotificationStatus::Pending)
        } else if str_eq(s, "sent") {
            Ok(NotificationStatus::Sent)
        } else if str_eq(s, "failed") {
            Ok(NotificationStatus::Failed)
        } else if str_eq(s, "cancelled") {
            Ok(NotificationStatus::Cancelled)
        } else if str_eq(s, "partial") {
            Ok(NotificationStatus::Partial)
        } else {
            Err(AppError::ValidationError("Invalid notification status".to_owned()))
        }
    }

    /// Reading back the text of a variant gives the variant.
    pub proof fn lemma_parse_str(v: NotificationStatus)
        ensures
            NotificationStatus::spec_parse(v.spec_str()) == Some(v),
    {
        broadcast use vstd::string::group_string_axioms;
        reveal_strlit("draft");
        reveal_strlit("pending");
        reveal_strlit("sent");
        reveal_strlit("failed");
        reveal_strlit("cancelled");
        reveal_strlit("partial");
        assert("draft"@.len() == 5);
        assert("pending"@.len() == 7);
        assert("sent"@.len() == 4);
        assert("failed"@.len() == 6);
        assert("cancelled"@.len() == 9);
        assert("partial"@.len() == 7);
        assert("pending"@[1] != "partial"@[1]);
    }
}


/// A message to one recipient, sent over some channels.
#[derive(Clone, Debug)]
pub struct Notification {
    pub id: String,
    pub template_id: String,
    pub recipient_id: String,
    pub subject: String,
    pub message: String,
    pub context: Option<String>,
    pub severity: SeverityLevel,
    pub status: NotificationStatus,
    pub scheduled_at: Timestamp,
    pub sent_at: Option<Timestamp>,
    pub delivered_channels: Vec<NotificationChannels>,
    pub failed_channels: Vec<NotificationChannels>,
    pub read_at: Option<Timestamp>,
    pub expires_at: Option<Timestamp>,
    pub retry_count: i32,
    pub created_at: Timestamp,
    pub updated_at: Timestamp,
}

impl Notification {
    /// The instants are ones that `chrono` represents.
    pub open spec fn wf(&self) -> bool {
        &&& self.scheduled_at.valid()
        &&& (self.sent_at matches Some(t) ==> t.valid())
        &&& (self.read_at matches Some(t) ==> t.valid())
        &&& (self.expires_at matches Some(t) ==> t.valid())
        &&& self.created_at.valid()
        &&& self.updated_at.valid()
    }

    /// Whether an item holds what this entity needs to be read from it.
    pub open spec fn item_readable(iv: ItemView) -> bool {
        &&& s_at(iv, "id"@) is Some
        &&& s_at(iv, "template_id"@) is Some
        &&& s_at(iv, "recipient_id"@) is Some
        &&& s_at(iv, "subject"@) is Some
        &&& s_at(iv, "message"@) is Some
        &&& s_at(iv, "severity"@) matches Some(c) && SeverityLevel::spec_parse(c) is Some
        &&& s_at(iv, "status"@) matches Some(c) && NotificationStatus::spec_parse(c) is Some
    }

    /// Whether this entity is what is read from an item, where instants that
    /// cannot be read are taken to be `now`.
    pub open spec fn read_from(&self, iv: ItemView, now: Timestamp) -> bool {
        &&& Some(self.id@) == s_at(iv, "id"@)
        &&& Some(self.template_id@) == s_at(iv, "template_id"@)
        &&& Some(self.recipient_id@) == s_at(iv, "recipient_id"@)
        &&& Some(self.subject@) == s_at(iv, "subject"@)
        &&& Some(self.message@) == s_at(iv, "message"@)
        &&& opt_view(self.context) == (match s_at(iv, "context"@) { Some(s) => json_canonical(s), None => None })
        &&& Some(self.severity) == SeverityLevel::spec_parse(s_at(iv, "severity"@)->0)
        &&& Some(self.status) == NotificationStatus::spec_parse(s_at(iv, "status"@)->0)
        &&& self.scheduled_at == timestamp_or(iv, "scheduled_at"@, now)
        &&& self.sent_at == timestamp_at(iv, "sent_at"@)
        &&& self.delivered_channels@ == NotificationChannels::spec_parse_all(ss_or_empty(iv, "delivered_channels"@))
        &&& self.failed_channels@ == NotificationChannels::spec_parse_all(ss_or_empty(iv, "failed_channels"@))
        &&& self.read_at == timestamp_at(iv, "read_at"@)
        &&& self.expires_at == timestamp_at(iv, "expires_at"@)
        &&& self.retry_count == i32_or(iv, "retry_count"@, 0)
        &&& self.created_at == timestamp_or(iv, "created_at"@, now)
        &&& self.updated_at == timestamp_or(iv, "updated_at"@, now)
    }

    /// The entries that `to_item` writes for id, template_id, recipient_id, subject, message, context, severity, status, scheduled_at, sent_at, delivered_channels, failed_channels, after those of `iv`.
    pub open spec fn spec_item_part1(&self, iv: ItemView) -> ItemView {
        let iv = iv.push(("id"@, AttrView::S(self.id@)));
        let iv = iv.push(("template_id"@, AttrView::S(self.template_id@)));
        let iv = iv.push(("recipient_id"@, AttrView::S(self.recipient_id@)));
        let iv = iv.push(("subject"@, AttrView::S(self.subject@)));
        let iv = iv.push(("message"@, AttrView::S(self.message@)));
        let iv = push_if(iv, self.context is Some, ("context"@, AttrView::S(self.context->0@)));
        let iv = iv.push(("severity"@, AttrView::S(self.severity.spec_str())));
        let iv = iv.push(("status"@, AttrView::S(self.status.spec_str())));
        let iv = iv.push(("scheduled_at"@, AttrView::S(chrono_format_datetime(self.scheduled_at))));
        let iv = push_if(iv, self.sent_at is Some, ("sent_at"@, AttrView::S(chrono_format_datetime(self.sent_at->0))));
        let iv = push_if(iv, self.delivered_channels@.len() > 0, ("delivered_channels"@, AttrView::Ss(NotificationChannels::spec_strs(self.delivered_channels@))));
        let iv = push_if(iv, self.failed_channels@.len() > 0, ("failed_channels"@, AttrView::Ss(NotificationChannels::spec_strs(self.failed_channels@))));
        iv
    }

    /// The entries that `to_item` writes for read_at, expires_at, retry_count, created_at, updated_at, after those of `iv`.
    pub open spec fn spec_item_part2(&self, iv: ItemView) -> ItemView {
        let iv = push_if(iv, self.read_at is Some, ("read_at"@, AttrView::S(chrono_format_datetime(self.read_at->0))));
        let iv = push_if(iv, self.expires_at is Some, ("expires_at"@, AttrView::S(chrono_format_datetime(self.expires_at->0))));
        let iv = iv.push(("retry_count"@, AttrView::N(spec_format_i32(self.retry_count))));
        let iv = iv.push(("created_at"@, AttrView::S(chrono_format_datetime(self.created_at))));
        let iv = iv.push(("updated_at"@, AttrView::S(chrono_format_datetime(self.updated_at))));
        iv
    }

    /// The item that `to_item` writes.
    pub open spec fn spec_item(&self) -> ItemView {
        self.spec_item_part2(self.spec_item_part1(Seq::empty()))
    }

    /// Whether two entities hold the same values.
    pub open spec fn same_as(&self, other: &Notification) -> bool {
        &&& self.id@ == other.id@
        &&& self.template_id@ == other.template_id@
        &&& self.recipient_id@ == other.recipient_id@
        &&& self.subject@ == other.subject@
        &&& self.message@ == other.message@
        &&& opt_view(self.context) == opt_view(other.context)
        &&& self.severity == other.severity
        &&& self.status == other.status
        &&& self.scheduled_at == other.scheduled_at
        &&& self.sent_at == other.sent_at
        &&& self.delivered_channels@ == other.delivered_channels@
        &&& self.failed_channels@ == other.failed_channels@
        &&& self.read_at == other.read_at
        &&& self.expires_at == other.expires_at
        &&& self.retry_count == other.retry_count
        &&& self.created_at == other.created_at
        &&& self.updated_at == other.updated_at
    }

    /// Reads the entity from an item, taking `now` for instants that are missing.
    pub fn from_item_at(item: &Item, now: Timestamp) -> (res: Option<Self>)
        requires
            now.valid(),
        ensures
            res is Some <==> Self::item_readable(item@),
            res matches Some(e) ==> e.read_from(item@, now) && e.wf(),
    {
        let id = read_s(item, "id")?;
        let template_id = read_s(item, "template_id")?;
        let recipient_id = read_s(item, "recipient_id")?;
        let subject = read_s(item, "subject")?;
        let message = read_s(item, "message")?;
        let context = match item.get_s("context") {
            Some(t) => canonical_json(t.as_str()),
            None => None,
        };
        let severity_text = item.get_s("severity")?;
        let severity = SeverityLevel::from_string(severity_text.as_str()).ok()?;
        let status_text = item.get_s("status")?;
        let status = NotificationStatus::from_string(status_text.as_str()).ok()?;
        let scheduled_at = read_timestamp_or(item, "scheduled_at", now);
        let sent_at = read_timestamp(item, "sent_at");
        let delivered_channels_texts = read_ss_or_empty(item, "delivered_channels");
        let delivered_channels = NotificationChannels::parse_all(&delivered_channels_texts);
        let failed_channels_texts = read_ss_or_empty(item, "failed_channels");
        let failed_channels = NotificationChannels::parse_all(&failed_channels_texts);
        let read_at = read_timestamp(item, "read_at");
        let expires_at = read_timestamp(item, "expires_at");
        let retry_count = read_i32_or(item, "retry_count", 0);
        let created_at = read_timestamp_or(item, "created_at", now);
        let updated_at = read_timestamp_or(item, "updated_at", now);
        Some(Notification {
            id,
            template_id,
            recipient_id,
            subject,
            message,
            context,
            severity,
            status,
            scheduled_at,
            sent_at,
            delivered_channels,
            failed_channels,
            read_at,
            expires_at,
            retry_count,
            created_at,
            updated_at,
        })
    }

    /// Reads the entity from an item; instants that are missing are read from the clock.
    pub fn from_item(item: &Item) -> (res: Option<Self>)
        ensures
            res is Some <==> Self::item_readable(item@),
            res matches Some(e) ==> e.wf() && exists|t: Timestamp| t.valid() && e.read_from(item@, t),
    {
        let t = now();
        Self::from_item_at(item, t)
    }

    fn write_part1(&self, item: &mut Item)
        requires
            self.wf(),
        ensures
            final(item)@ == self.spec_item_part1(old(item)@),
            chrono_parse_datetime(chrono_format_datetime(self.scheduled_at)) == Some(self.scheduled_at),
            self.sent_at matches Some(t) ==> chrono_parse_datetime(chrono_format_datetime(t)) == Some(t),
    {
        reveal(push_if);
        let ghost mut iv: ItemView = old(item)@;
        item.insert_s("id", self.id.clone());
        proof { iv = iv.push(("id"@, AttrView::S(self.id@))); }
        assert(item@ == iv);
        item.insert_s("template_id", self.template_id.clone());
        proof { iv = iv.push(("template_id"@, AttrView::S(self.template_id@))); }
        assert(item@ == iv);
        item.insert_s("recipient_id", self.recipient_id.clone());
        proof { iv = iv.push(("recipient_id"@, AttrView::S(self.recipient_id@))); }
        assert(item@ == iv);
        item.insert_s("subject", self.subject.clone());
        proof { iv = iv.push(("subject"@, AttrView::S(self.subject@))); }
        assert(item@ == iv);
        item.insert_s("message", self.message.clone());
        proof { iv = iv.push(("message"@, AttrView::S(self.message@))); }
        assert(item@ == iv);
        if let Some(x) = &self.context {
            item.insert_s("context", x.clone());
        }
        proof { iv = push_if(iv, self.context is Some, ("context"@, AttrView::S(self.context->0@))); }
        assert(item@ == iv);
        item.insert_s("severity", self.severity.to_string());
        proof { iv = iv.push(("severity"@, AttrView::S(self.severity.spec_str()))); }
        assert(item@ == iv);
        item.insert_s("status", self.status.to_string());
        proof { iv = iv.push(("status"@, AttrView::S(self.status.spec_str()))); }
        assert(item@ == iv);
        write_timestamp(item, "scheduled_at", &self.scheduled_at);
        proof { iv = iv.push(("scheduled_at"@, AttrView::S(chrono_format_datetime(self.scheduled_at)))); }
        assert(item@ == iv);
        if let Some(t) = &self.sent_at {
            write_timestamp(item, "sent_at", t);
        }
        proof { iv = push_if(iv, self.sent_at is Some, ("sent_at"@, AttrView::S(chrono_format_datetime(self.sent_at->0)))); }
        assert(item@ == iv);
        if self.delivered_channels.len() > 0 {
            item.insert_ss("delivered_channels", NotificationChannels::to_strings(&self.delivered_channels));
        }
        proof { iv = push_if(iv, self.delivered_channels@.len() > 0, ("delivered_channels"@, AttrView::Ss(NotificationChannels::spec_strs(self.delivered_channels@)))); }
        assert(item@ == iv);
        if self.failed_channels.len() > 0 {
            item.insert_ss("failed_channels", NotificationChannels::to_strings(&self.failed_channels));
        }
        proof { iv = push_if(iv, self.failed_channels@.len() > 0, ("failed_channels"@, AttrView::Ss(NotificationChannels::spec_strs(self.failed_channels@)))); }
        assert(item@ == iv);
    }

    fn write_part2(&self, item: &mut Item)
        requires
            self.wf(),
        ensures
            final(item)@ == self.spec_item_part2(old(item)@),
            self.read_at matches Some(t) ==> chrono_parse_datetime(chrono_format_datetime(t)) == Some(t),
            self.expires_at matches Some(t) ==> chrono_parse_datetime(chrono_format_datetime(t)) == Some(t),
            chrono_parse_datetime(chrono_format_datetime(self.created_at)) == Some(self.created_at),
            chrono_parse_datetime(chrono_format_datetime(self.updated_at)) == Some(self.updated_at),
    {
        reveal(push_if);
        let ghost mut iv: ItemView = old(item)@;
        if let Some(t) = &self.read_at {
            write_timestamp(item, "read_at", t);
        }
        proof { iv = push_if(iv, self.read_at is Some, ("read_at"@, AttrView::S(chrono_format_datetime(self.read_at->0)))); }
        assert(item@ == iv);
        if let Some(t) = &self.expires_at {
            write_timestamp(item, "expires_at", t);
        }
        proof { iv = push_if(iv, self.expires_at is Some, ("expires_at"@, AttrView::S(chrono_format_datetime(self.expires_at->0)))); }
        assert(item@ == iv);
        write_i32(item, "retry_count", self.retry_count);
        proof { iv = iv.push(("retry_count"@, AttrView::N(spec_format_i32(self.retry_count)))); }
        assert(item@ == iv);
        write_timestamp(item, "created_at", &self.created_at);
        proof { iv = iv.push(("created_at"@, AttrView::S(chrono_format_datetime(self.created_at)))); }
        assert(item@ == iv);
        write_timestamp(item, "updated_at", &self.updated_at);
        proof { iv = iv.push(("updated_at"@, AttrView::S(chrono_format_datetime(self.updated_at)))); }
        assert(item@ == iv);
    }

    /// What reading the entity back from its item needs beyond well-formedness:
    /// each JSON text it holds is already in the form `serde_json` writes, the
    /// form that reading the item gives.
    pub open spec fn readback_conditions(&self) -> bool {
        &&& self.context matches Some(j) ==> json_canonical(j@) == Some(j@)
    }

    /// Writes the entity as an item.
    pub fn to_item(&self) -> (res: Item)
        requires
            self.wf(),
        ensures
            res@ == self.spec_item(),
            self.readback_conditions() ==> Self::item_readable(res@),
            self.readback_conditions() ==> forall|b: Notification, now: Timestamp| #[trigger] b.read_from(res@, now) ==> b.same_as(self),
    {
        let mut item = Item::new();
        self.write_part1(&mut item);
        self.write_part2(&mut item);
        proof {
            if self.readback_conditions() {
                Self::lemma_item_roundtrip(self, self, Timestamp { secs: 0, nanos: 0 });
                assert forall|b: Notification, now: Timestamp| #[trigger] b.read_from(item@, now) implies b.same_as(self) by {
                    Self::lemma_item_roundtrip(self, &b, now);
                }
            }
        }
        item
    }

    proof fn lemma_part1_values(&self, iv: ItemView)
        ensures
            lookup(self.spec_item_part1(iv), "id"@) == Some(AttrView::S(self.id@)),
            lookup(self.spec_item_part1(iv), "template_id"@) == Some(AttrView::S(self.template_id@)),
            lookup(self.spec_item_part1(iv), "recipient_id"@) == Some(AttrView::S(self.recipient_id@)),
            lookup(self.spec_item_part1(iv), "subject"@) == Some(AttrView::S(self.subject@)),
            lookup(self.spec_item_part1(iv), "message"@) == Some(AttrView::S(self.message@)),
            lookup(self.spec_item_part1(iv), "context"@) == (if self.context is Some { Some(AttrView::S(self.context->0@)) } else { lookup(iv, "context"@) }),
            lookup(self.spec_item_part1(iv), "severity"@) == Some(AttrView::S(self.severity.spec_str())),
            lookup(self.spec_item_part1(iv), "status"@) == Some(AttrView::S(self.status.spec_str())),
            lookup(self.spec_item_part1(iv), "scheduled_at"@) == Some(AttrView::S(chrono_format_datetime(self.scheduled_at))),
            lookup(self.spec_item_part1(iv), "sent_at"@) == (if self.sent_at is Some { Some(AttrView::S(chrono_format_datetime(self.sent_at->0))) } else { lookup(iv, "sent_at"@) }),
            lookup(self.spec_item_part1(iv), "delivered_channels"@) == (if self.delivered_channels@.len() > 0 { Some(AttrView::Ss(NotificationChannels::spec_strs(self.delivered_channels@))) } else { lookup(iv, "delivered_channels"@) }),
            lookup(self.spec_item_part1(iv), "failed_channels"@) == (if self.failed_channels@.len() > 0 { Some(AttrView::Ss(NotificationChannels::spec_strs(self.failed_channels@))) } else { lookup(iv, "failed_channels"@) }),
    {
        broadcast use crate::item::lemma_lookup_push, crate::item::lemma_lookup_push_if;
        lemma_keys_distinct();
    }

    proof fn lemma_part1_frame(&self, iv: ItemView, k: Seq<char>)
        requires
            k != "id"@,
            k != "template_id"@,
            k != "recipient_id"@,
            k != "subject"@,
            k != "message"@,
            k != "context"@,
            k != "severity"@,
            k != "status"@,
            k != "scheduled_at"@,
            k != "sent_at"@,
            k != "delivered_channels"@,
            k != "failed_channels"@,
        ensures
            lookup(self.spec_item_part1(iv), k) == lookup(iv, k),
    {
        broadcast use crate::item::lemma_lookup_push, crate::item::lemma_lookup_push_if;
    }

    proof fn lemma_part2_values(&self, iv: ItemView)
        ensures
            lookup(self.spec_item_part2(iv), "read_at"@) == (if self.read_at is Some { Some(AttrView::S(chrono_format_datetime(self.read_at->0))) } else { lookup(iv, "read_at"@) }),
            lookup(self.spec_item_part2(iv), "expires_at"@) == (if self.expires_at is Some { Some(AttrView::S(chrono_format_datetime(self.expires_at->0))) } else { lookup(iv, "expires_at"@) }),
            lookup(self.spec_item_part2(iv), "retry_count"@) == Some(AttrView::N(spec_format_i32(self.retry_count))),
            lookup(self.spec_item_part2(iv), "created_at"@) == Some(AttrView::S(chrono_format_datetime(self.created_at))),
            lookup(self.spec_item_part2(iv), "updated_at"@) == Some(AttrView::S(chrono_format_datetime(self.updated_at))),
    {
        broadcast use crate::item::lemma_lookup_push, crate::item::lemma_lookup_push_if;
        lemma_keys_distinct();
    }

    proof fn lemma_part2_frame(&self, iv: ItemView, k: Seq<char>)
        requires
            k != "read_at"@,
            k != "expires_at"@,
            k != "retry_count"@,
            k != "created_at"@,
            k != "updated_at"@,
        ensures
            lookup(self.spec_item_part2(iv), k) == lookup(iv, k),
    {
        broadcast use crate::item::lemma_lookup_push, crate::item::lemma_lookup_push_if;
    }

    /// Every attribute the `Notifications` table defines holds, in the item the entity is
    /// written as, nothing or a value of the type the table gives it, so
    /// DynamoDB accepts the item.
    pub proof fn lemma_item_fits_table(a: &Notification)
        ensures
            item_fits_table(a.spec_item(), spec_notifications_table()),
    {
        lemma_keys_distinct();
        let e: ItemView = Seq::empty();
        let p1 = a.spec_item_part1(e);
        let p2 = a.spec_item_part2(p1);
        assert(a.spec_item() == p2);
        a.lemma_part1_values(e);
        a.lemma_part2_values(p1);
        a.lemma_part2_frame(p1, "id"@);
        a.lemma_part2_frame(p1, "status"@);
        lemma_table_keys_absent();
        a.lemma_part1_frame(e, "user_id"@);
        a.lemma_part2_frame(p1, "user_id"@);
        a.lemma_part1_frame(e, "notification_type"@);
        a.lemma_part2_frame(p1, "notification_type"@);
        a.lemma_part1_frame(e, "priority"@);
        a.lemma_part2_frame(p1, "priority"@);
        let t = spec_notifications_table();
        assert forall|i: int| 0 <= i < t.attributes.len() implies match #[trigger] crate::item::lookup(a.spec_item(), t.attributes[i].0) {
            Some(v) => attr_fits(t.attributes[i].1, v),
            None => true,
        } by {
            if i == 0 { assert(t.attributes[0].0 == "id"@); } else if i == 1 { assert(t.attributes[1].0 == "user_id"@); } else if i == 2 { assert(t.attributes[2].0 == "notification_type"@); } else if i == 3 { assert(t.attributes[3].0 == "status"@); } else if i == 4 { assert(t.attributes[4].0 == "priority"@); }
        }
    }

    /// Reading the entity back from the item it is written as gives the same
    /// entity, where `chrono` reads back the text of its instants.
    #[verifier::rlimit(100)]
    pub proof fn lemma_item_roundtrip(a: &Notification, b: &Notification, now: Timestamp)
        requires
            a.wf(),
            a.context matches Some(j) ==> json_canonical(j@) == Some(j@),
            chrono_parse_datetime(chrono_format_datetime(a.scheduled_at)) == Some(a.scheduled_at),
            a.sent_at matches Some(t) ==> chrono_parse_datetime(chrono_format_datetime(t)) == Some(t),
            a.read_at matches Some(t) ==> chrono_parse_datetime(chrono_format_datetime(t)) == Some(t),
            a.expires_at matches Some(t) ==> chrono_parse_datetime(chrono_format_datetime(t)) == Some(t),
            chrono_parse_datetime(chrono_format_datetime(a.created_at)) == Some(a.created_at),
            chrono_parse_datetime(chrono_format_datetime(a.updated_at)) == Some(a.updated_at),
        ensures
            Self::item_readable(a.spec_item()),
            b.read_from(a.spec_item(), now) ==> b.same_as(a),
    {
        lemma_keys_distinct();
        let e: ItemView = Seq::empty();
        let p1 = a.spec_item_part1(e);
        let p2 = a.spec_item_part2(p1);
        assert(a.spec_item() == p2);
        a.lemma_part1_values(e);
        a.lemma_part2_values(p1);
        a.lemma_part2_frame(p1, "id"@);
        a.lemma_part2_frame(p1, "template_id"@);
        a.lemma_part2_frame(p1, "recipient_id"@);
        a.lemma_part2_frame(p1, "subject"@);
        a.lemma_part2_frame(p1, "message"@);
        a.lemma_part2_frame(p1, "context"@);
        a.lemma_part2_frame(p1, "severity"@);
        a.lemma_part2_frame(p1, "status"@);
        a.lemma_part2_frame(p1, "scheduled_at"@);
        a.lemma_part2_frame(p1, "sent_at"@);
        a.lemma_part2_frame(p1, "delivered_channels"@);
        a.lemma_part2_frame(p1, "failed_channels"@);
        a.lemma_part1_frame(e, "read_at"@);
        a.lemma_part1_frame(e, "expires_at"@);
        a.lemma_part1_frame(e, "retry_count"@);
        a.lemma_part1_frame(e, "created_at"@);
        a.lemma_part1_frame(e, "updated_at"@);
        SeverityLevel::lemma_parse_str(a.severity);
        NotificationStatus::lemma_parse_str(a.status);
        NotificationChannels::lemma_parse_all_strs(a.delivered_channels@);
        if a.delivered_channels@.len() == 0 { assert(a.delivered_channels@ =~= Seq::<NotificationChannels>::empty()); }
        NotificationChannels::lemma_parse_all_strs(a.failed_channels@);
        if a.failed_channels@.len() == 0 { assert(a.failed_channels@ =~= Seq::<NotificationChannels>::empty()); }
        lemma_parse_format_i32(a.retry_count);
    }

    /// Which check, if any, the arguments of `new` fail, in the order they are made.
    pub open spec fn spec_new_error(
        template_id: Seq<char>,
        recipient_id: Seq<char>,
        message: Seq<char>,
        severity: Seq<char>,
    ) -> Option<Seq<char>> {
        if is_blank_spec(template_id) {
            Some("Template ID cannot be empty"@)
        } else if is_blank_spec(recipient_id) {
            Some("Recipient ID cannot be empty"@)
        } else if is_blank_spec(message) {
            Some("Message cannot be empty"@)
        } else if SeverityLevel::spec_parse(severity) is None {
            Some("Invalid severity level"@)
        } else {
            None
        }
    }

    /// Drafts a notification for a recipient; nothing is sent or delivered yet.
    /// The context is a JSON text.
    pub fn new(
        id: String,
        template_id: String,
        recipient_id: String,
        subject: String,
        message: String,
        context: Option<String>,
        severity: String,
        scheduled_at: Timestamp,
        expires_at: Option<Timestamp>,
    ) -> (res: Result<Self, AppError>)
        ensures
            match Self::spec_new_error(template_id@, recipient_id@, message@, severity@) {
                Some(m) => is_validation_error(res, m),
                None => res matches Ok(n) && {
                    &&& n.id == id && n.template_id == template_id && n.recipient_id == recipient_id
                    &&& n.subject == subject && n.message == message && n.context == context
                    &&& Some(n.severity) == SeverityLevel::spec_parse(severity@)
                    &&& n.status == NotificationStatus::Draft && n.scheduled_at == scheduled_at
                    &&& n.sent_at is None && n.delivered_channels@.len() == 0 && n.failed_channels@.len() == 0
                    &&& n.read_at is None && n.expires_at == expires_at && n.retry_count == 0
                    &&& n.created_at == n.updated_at && n.created_at.valid()
                },
            },
            res matches Ok(x) ==> (x.readback_conditions() <==> ((context matches Some(j) ==> json_canonical(j@) == Some(j@)))),
            res matches Ok(x) ==> !is_blank_spec(x.template_id@) && !is_blank_spec(x.recipient_id@) && !is_blank_spec(x.message@),
    {
        let now = now();
        if is_blank(template_id.as_str()) {
            return Err(AppError::ValidationError("Template ID cannot be empty".to_owned()));
        }
        if is_blank(recipient_id.as_str()) {
            return Err(AppError::ValidationError("Recipient ID cannot be empty".to_owned()));
        }
        if is_blank(message.as_str()) {
            return Err(AppError::ValidationError("Message cannot be empty".to_owned()));
        }
        let severity_enum = SeverityLevel::from_string(severity.as_str())?;
        Ok(Notification {
            id,
            template_id,
            recipient_id,
            subject,
            message,
            context,
            severity: severity_enum,
            status: NotificationStatus::Draft,
            scheduled_at,
            sent_at: None,
            delivered_channels: Vec::new(),
            failed_channels: Vec::new(),
            read_at: None,
            expires_at,
            retry_count: 0,
            created_at: now,
            updated_at: now,
        })
    }

}

proof fn lemma_keys_distinct()
    ensures
        "id"@ != "template_id"@,
        "id"@ != "recipient_id"@,
        "id"@ != "subject"@,
        "id"@ != "message"@,
        "id"@ != "context"@,
        "id"@ != "severity"@,
        "id"@ != "status"@,
        "id"@ != "scheduled_at"@,
        "id"@ != "sent_at"@,
        "id"@ != "delivered_channels"@,
        "id"@ != "failed_channels"@,
        "id"@ != "read_at"@,
        "id"@ != "expires_at"@,
        "id"@ != "retry_count"@,
        "id"@ != "created_at"@,
        "id"@ != "updated_at"@,
        "template_id"@ != "recipient_id"@,
        "template_id"@ != "subject"@,
        "template_id"@ != "message"@,
        "template_id"@ != "context"@,
        "template_id"@ != "severity"@,
        "template_id"@ != "status"@,
        "template_id"@ != "scheduled_at"@,
        "template_id"@ != "sent_at"@,
        "template_id"@ != "delivered_channels"@,
        "template_id"@ != "failed_channels"@,
        "template_id"@ != "read_at"@,
        "template_id"@ != "expires_at"@,
        "template_id"@ != "retry_count"@,
        "template_id"@ != "created_at"@,
        "template_id"@ != "updated_at"@,
        "recipient_id"@ != "subject"@,
        "recipient_id"@ != "message"@,
        "recipient_id"@ != "context"@,
        "recipient_id"@ != "severity"@,
        "recipient_id"@ != "status"@,
        "recipient_id"@ != "scheduled_at"@,
        "recipient_id"@ != "sent_at"@,
        "recipient_id"@ != "delivered_channels"@,
        "recipient_id"@ != "failed_channels"@,
        "recipient_id"@ != "read_at"@,
        "recipient_id"@ != "expires_at"@,
        "recipient_id"@ != "retry_count"@,
        "recipient_id"@ != "created_at"@,
        "recipient_id"@ != "updated_at"@,
        "subject"@ != "message"@,
        "subject"@ != "context"@,
        "subject"@ != "severity"@,
        "subject"@ != "status"@,
        "subject"@ != "scheduled_at"@,
        "subject"@ != "sent_at"@,
        "subject"@ != "delivered_channels"@,
        "subject"@ != "failed_channels"@,
        "subject"@ != "read_at"@,
        "subject"@ != "expires_at"@,
        "subject"@ != "retry_count"@,
        "subject"@ != "created_at"@,
        "subject"@ != "updated_at"@,
        "message"@ != "context"@,
        "message"@ != "severity"@,
        "message"@ != "status"@,
        "message"@ != "scheduled_at"@,
        "message"@ != "sent_at"@,
        "message"@ != "delivered_channels"@,
        "message"@ != "failed_channels"@,
        "message"@ != "read_at"@,
        "message"@ != "expires_at"@,
        "message"@ != "retry_count"@,
        "message"@ != "created_at"@,
        "message"@ != "updated_at"@,
        "context"@ != "severity"@,
        "context"@ != "status"@,
        "context"@ != "scheduled_at"@,
        "context"@ != "sent_at"@,
        "context"@ != "delivered_channels"@,
        "context"@ != "failed_channels"@,
        "context"@ != "read_at"@,
        "context"@ != "expires_at"@,
        "context"@ != "retry_count"@,
        "context"@ != "created_at"@,
        "context"@ != "updated_at"@,
        "severity"@ != "status"@,
        "severity"@ != "scheduled_at"@,
        "severity"@ != "sent_at"@,
        "severity"@ != "delivered_channels"@,
        "severity"@ != "failed_channels"@,
        "severity"@ != "read_at"@,
        "severity"@ != "expires_at"@,
        "severity"@ != "retry_count"@,
        "severity"@ != "created_at"@,
        "severity"@ != "updated_at"@,
        "status"@ != "scheduled_at"@,
        "status"@ != "sent_at"@,
        "status"@ != "delivered_channels"@,
        "status"@ != "failed_channels"@,
        "status"@ != "read_at"@,
        "status"@ != "expires_at"@,
        "status"@ != "retry_count"@,
        "status"@ != "created_at"@,
        "status"@ != "updated_at"@,
        "scheduled_at"@ != "sent_at"@,
        "scheduled_at"@ != "delivered_channels"@,
        "scheduled_at"@ != "failed_channels"@,
        "scheduled_at"@ != "read_at"@,
        "scheduled_at"@ != "expires_at"@,
        "scheduled_at"@ != "retry_count"@,
        "scheduled_at"@ != "created_at"@,
        "scheduled_at"@ != "updated_at"@,
        "sent_at"@ != "delivered_channels"@,
        "sent_at"@ != "failed_channels"@,
        "sent_at"@ != "read_at"@,
        "sent_at"@ != "expires_at"@,
        "sent_at"@ != "retry_count"@,
        "sent_at"@ != "created_at"@,
        "sent_at"@ != "updated_at"@,
        "delivered_channels"@ != "failed_channels"@,
        "delivered_channels"@ != "read_at"@,
        "delivered_channels"@ != "expires_at"@,
        "delivered_channels"@ != "retry_count"@,
        "delivered_channels"@ != "created_at"@,
        "delivered_channels"@ != "updated_at"@,
        "failed_channels"@ != "read_at"@,
        "failed_channels"@ != "expires_at"@,
        "failed_channels"@ != "retry_count"@,
        "failed_channels"@ != "created_at"@,
        "failed_channels"@ != "updated_at"@,
        "read_at"@ != "expires_at"@,
        "read_at"@ != "retry_count"@,
        "read_at"@ != "created_at"@,
        "read_at"@ != "updated_at"@,
        "expires_at"@ != "retry_count"@,
        "expires_at"@ != "created_at"@,
        "expires_at"@ != "updated_at"@,
        "retry_count"@ != "created_at"@,
        "retry_count"@ != "updated_at"@,
        "created_at"@ != "updated_at"@,
{
    broadcast use vstd::string::group_string_axioms;
    reveal_strlit("id");
    reveal_strlit("template_id");
    reveal_strlit("recipient_id");
    reveal_strlit("subject");
    reveal_strlit("message");
    reveal_strlit("context");
    reveal_strlit("severity");
    reveal_strlit("status");
    reveal_strlit("scheduled_at");
    reveal_strlit("sent_at");
    reveal_strlit("delivered_channels");
    reveal_strlit("failed_channels");
    reveal_strlit("read_at");
    reveal_strlit("expires_at");
    reveal_strlit("retry_count");
    reveal_strlit("created_at");
    reveal_strlit("updated_at");
    assert("id"@.len() == 2);
    assert("template_id"@.len() == 11);
    assert("recipient_id"@.len() == 12);
    assert("subject"@.len() == 7);
    assert("message"@.len() == 7);
    assert("context"@.len() == 7);
    assert("severity"@.len() == 8);
    assert("status"@.len() == 6);
    assert("scheduled_at"@.len() == 12);
    assert("sent_at"@.len() == 7);
    assert("delivered_channels"@.len() == 18);
    assert("failed_channels"@.len() == 15);
    assert("read_at"@.len() == 7);
    assert("expires_at"@.len() == 10);
    assert("retry_count"@.len() == 11);
    assert("created_at"@.len() == 10);
    assert("updated_at"@.len() == 10);
    assert("template_id"@[0] != "retry_count"@[0]);
    assert("recipient_id"@[0] != "scheduled_at"@[0]);
    assert("subject"@[0] != "message"@[0]);
    assert("subject"@[0] != "context"@[0]);
    assert("subject"@[1] != "sent_at"@[1]);
    assert("subject"@[0] != "read_at"@[0]);
    assert("message"@[0] != "context"@[0]);
    assert("message"@[0] != "sent_at"@[0]);
    assert("message"@[0] != "read_at"@[0]);
    assert("context"@[0] != "sent_at"@[0]);
    assert("context"@[0] != "read_at"@[0]);
    assert("sent_at"@[0] != "read_at"@[0]);
    assert("expires_at"@[0] != "created_at"@[0]);
    assert("expires_at"@[0] != "updated_at"@[0]);
    assert("created_at"@[0] != "updated_at"@[0]);
}

proof fn lemma_table_keys_absent()
    ensures
        "user_id"@ != "context"@,
        "user_id"@ != "created_at"@,
        "user_id"@ != "delivered_channels"@,
        "user_id"@ != "expires_at"@,
        "user_id"@ != "failed_channels"@,
        "user_id"@ != "id"@,
        "user_id"@ != "message"@,
        "user_id"@ != "read_at"@,
        "user_id"@ != "recipient_id"@,
        "user_id"@ != "retry_count"@,
        "user_id"@ != "scheduled_at"@,
        "user_id"@ != "sent_at"@,
        "user_id"@ != "severity"@,
        "user_id"@ != "status"@,
        "user_id"@ != "subject"@,
        "user_id"@ != "template_id"@,
        "user_id"@ != "updated_at"@,
        "notification_type"@ != "context"@,
        "notification_type"@ != "created_at"@,
        "notification_type"@ != "delivered_channels"@,
        "notification_type"@ != "expires_at"@,
        "notification_type"@ != "failed_channels"@,
        "notification_type"@ != "id"@,
        "notification_type"@ != "message"@,
        "notification_type"@ != "read_at"@,
        "notification_type"@ != "recipient_id"@,
        "notification_type"@ != "retry_count"@,
        "notification_type"@ != "scheduled_at"@,
        "notification_type"@ != "sent_at"@,
        "notification_type"@ != "severity"@,
        "notification_type"@ != "status"@,
        "notification_type"@ != "subject"@,
        "notification_type"@ != "template_id"@,
        "notification_type"@ != "updated_at"@,
        "priority"@ != "context"@,
        "priority"@ != "created_at"@,
        "priority"@ != "delivered_channels"@,
        "priority"@ != "expires_at"@,
        "priority"@ != "failed_channels"@,
        "priority"@ != "id"@,
        "priority"@ != "message"@,
        "priority"@ != "read_at"@,
        "priority"@ != "recipient_id"@,
        "priority"@ != "retry_count"@,
        "priority"@ != "scheduled_at"@,
        "priority"@ != "sent_at"@,
        "priority"@ != "severity"@,
        "priority"@ != "status"@,
        "priority"@ != "subject"@,
        "priority"@ != "template_id"@,
        "priority"@ != "updated_at"@,
{
    broadcast use vstd::string::group_string_axioms;
    reveal_strlit("user_id");
    reveal_strlit("notification_type");
    reveal_strlit("priority");
    reveal_strlit("context");
    reveal_strlit("created_at");
    reveal_strlit("delivered_channels");
    reveal_strlit("expires_at");
    reveal_strlit("failed_channels");
    reveal_strlit("id");
    reveal_strlit("message");
    reveal_strlit("read_at");
    reveal_strlit("recipient_id");
    reveal_strlit("retry_count");
    reveal_strlit("scheduled_at");
    reveal_strlit("sent_at");
    reveal_strlit("severity");
    reveal_strlit("status");
    reveal_strlit("subject");
    reveal_strlit("template_id");
    reveal_strlit("updated_at");
    assert("user_id"@.len() == 7);
    assert("notification_type"@.len() == 17);
    assert("priority"@.len() == 8);
    assert("context"@.len() == 7);
    assert("created_at"@.len() == 10);
    assert("delivered_channels"@.len() == 18);
    assert("expires_at"@.len() == 10);
    assert("failed_channels"@.len() == 15);
    assert("id"@.len() == 2);
    assert("message"@.len() == 7);
    assert("read_at"@.len() == 7);
    assert("recipient_id"@.len() == 12);
    assert("retry_count"@.len() == 11);
    assert("scheduled_at"@.len() == 12);
    assert("sent_at"@.len() == 7);
    assert("severity"@.len() == 8);
    assert("status"@.len() == 6);
    assert("subject"@.len() == 7);
    assert("template_id"@.len() == 11);
    assert("updated_at"@.len() == 10);
    assert("user_id"@[0] != "context"@[0]);
    assert("user_id"@.len() != "created_at"@.len());
    assert("user_id"@.len() != "delivered_channels"@.len());
    assert("user_id"@.len() != "expires_at"@.len());
    assert("user_id"@.len() != "failed_channels"@.len());
    assert("user_id"@.len() != "id"@.len());
    assert("user_id"@[0] != "message"@[0]);
    assert("user_id"@[0] != "read_at"@[0]);
    assert("user_id"@.len() != "recipient_id"@.len());
    assert("user_id"@.len() != "retry_count"@.len());
    assert("user_id"@.len() != "scheduled_at"@.len());
    assert("user_id"@[0] != "sent_at"@[0]);
    assert("user_id"@.len() != "severity"@.len());
    assert("user_id"@.len() != "status"@.len());
    assert("user_id"@[0] != "subject"@[0]);
    assert("user_id"@.len() != "template_id"@.len());
    assert("user_id"@.len() != "updated_at"@.len());
    assert("notification_type"@.len() != "context"@.len());
    assert("notification_type"@.len() != "created_at"@.len());
    assert("notification_type"@.len() != "delivered_channels"@.len());
    assert("notification_type"@.len() != "expires_at"@.len());
    assert("notification_type"@.len() != "failed_channels"@.len());
    assert("notification_type"@.len() != "id"@.len());
    assert("notification_type"@.len() != "message"@.len());
    assert("notification_type"@.len() != "read_at"@.len());
    assert("notification_type"@.len() != "recipient_id"@.len());
    assert("notification_type"@.len() != "retry_count"@.len());
    assert("notification_type"@.len() != "scheduled_at"@.len());
    assert("notification_type"@.len() != "sent_at"@.len());
    assert("notification_type"@.len() != "severity"@.len());
    assert("notification_type"@.len() != "status"@.len());
    assert("notification_type"@.len() != "subject"@.len());
    assert("notification_type"@.len() != "template_id"@.len());
    assert("notification_type"@.len() != "updated_at"@.len());
    assert("priority"@.len() != "context"@.len());
    assert("priority"@.len() != "created_at"@.len());
    assert("priority"@.len() != "delivered_channels"@.len());
    assert("priority"@.len() != "expires_at"@.len());
    assert("priority"@.len() != "failed_channels"@.len());
    assert("priority"@.len() != "id"@.len());
    assert("priority"@.len() != "message"@.len());
    assert("priority"@.len() != "read_at"@.len());
    assert("priority"@.len() != "recipient_id"@.len());
    assert("priority"@.len() != "retry_count"@.len());
    assert("priority"@.len() != "scheduled_at"@.len());
    assert("priority"@.len() != "sent_at"@.len());
    assert("priority"@[0] != "severity"@[0]);
    assert("priority"@.len() != "status"@.len());
    assert("priority"@.len() != "subject"@.len());
    assert("priority"@.len() != "template_id"@.len());
    assert("priority"@.len() != "updated_at"@.len());
}

} // verus!
