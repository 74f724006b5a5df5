//! How users want to be notified: channels, severities and quiet hours.
use vstd::prelude::*;

use crate::error::{is_validation_error, AppError};
use crate::fields::{
    bool_or, i32_or, opt_view, read_bool_or, read_i32_or, read_s, read_ss_or_empty,
    read_timestamp_or, ss_or_empty, timestamp_or, write_i32, write_timestamp,
};
use crate::item::{lookup, push_if, s_at, strings_view, AttrView, Item, ItemView};
use crate::numeric::{lemma_parse_format_i32, spec_format_i32};
use crate::text::{is_blank, is_blank_spec, str_eq};
use crate::time::{
    chrono_format_datetime, chrono_format_time_hms, chrono_parse_datetime, chrono_parse_time_hms,
    format_time_hms, now, parse_time_hms, TimeOfDay, Timestamp,
};

use crate::models::notification::{NotificationChannels, SeverityLevel};

use crate::tables::{attr_fits, item_fits_table, spec_user_notification_preferences_table};

verus! {

/// What a set of notification preferences applies to.
#[derive(Clone, Copy, Debug, PartialEq, Eq, Structural, Hash)]
pub enum PreferenceScope {
    Global,
    Template,
    Type,
    Severity,
}

impl PreferenceScope {
    /// The text that stands for the variant in items and requests.
    pub open spec fn spec_str(self) -> Seq<char> {
        match self {
            PreferenceScope::Global => "global"@,
            PreferenceScope::Template => "template"@,
            PreferenceScope::Type => "type"@,
            PreferenceScope::Severity => "severity"@,
        }
    }

    /// The variant that a text stands for, if any.
    pub open spec fn spec_parse(s: Seq<char>) -> Option<PreferenceScope> {
        if s == "global"@ {
            Some(PreferenceScope::Global)
        } else if s == "template"@ {
            Some(PreferenceScope::Template)
        } else if s == "type"@ {
            Some(PreferenceScope::Type)
        } else if s == "severity"@ {
            Some(PreferenceScope::Severity)
        } else {
            None
        }
    }

    pub fn to_str(&self) -> (res: &'static str)
        ensures
            res@ == self.spec_str(),
    {
        match self {
            PreferenceScope::Global => "global",
            PreferenceScope::Template => "template",
            PreferenceScope::Type => "type",
            PreferenceScope::Severity => "severity",
        }
    }

    pub fn to_string(&self) -> (res: String)
        ensures
            res@ == self.spec_str(),
    {
        self.to_str().to_owned()
    }

    /// Reads a variant from its text; any other text is refused with a `ValidationError`.
    pub fn from_string(s: &str) -> (res: Result<PreferenceScope, AppError>)
        ensures
            match PreferenceScope::spec_parse(s@) {
                Some(v) => res == Ok::<PreferenceScope, AppError>(v),
                None => res matches Err(AppError::ValidationError(m)) && m@ == "Invalid preference scope"@,
            },
    {
        if str_eq(s, "global") {
            Ok(PreferenceScope::Global)
        } else if str_eq(s, "template") {
            Ok(PreferenceScope::Template)
        } else if str_eq(s, "type") {
            Ok(PreferenceScope::Type)
        } else if str_eq(s, "severity") {
            Ok(PreferenceScope::Severity)
        } else {
            Err(AppError::ValidationError("Invalid preference scope".to_owned()))
        }
    }

    /// Reading back the text of a variant gives the variant.
    pub proof fn lemma_parse_str(v: PreferenceScope)
        ensures
            PreferenceScope::spec_parse(v.spec_str()) == Some(v),
    {
        broadcast use vstd::string::group_string_axioms;
        reveal_strlit("global");
        reveal_strlit("template");
        reveal_strlit("type");
        reveal_strlit("severity");
        assert("global"@.len() == 6);
        assert("template"@.len() == 8);
        assert("type"@.len() == 4);
        assert("severity"@.len() == 8);
        assert("template"@[0] != "severity"@[0]);
    }
}


/// How a user wants to be notified.
#[derive(Clone, Debug)]
pub struct UserNotificationPreferences {
    pub id: String,
    pub user_id: String,
    pub scope: PreferenceScope,
    pub scope_value: Option<String>,
    pub enabled: bool,
    pub preferred_channels: Vec<NotificationChannels>,
    pub blocked_channels: Vec<NotificationChannels>,
    pub do_not_disturb: bool,
    pub quiet_hours_start: Option<TimeOfDay>,
    pub quiet_hours_end: Option<TimeOfDay>,
    pub quiet_hours_timezone: Option<String>,
    pub min_severity_level: Option<SeverityLevel>,
    pub frequency_limit: i32,
    pub digest_enabled: bool,
    pub digest_frequency_hours: i32,
    pub escalation_enabled: bool,
    pub escalation_delay_minutes: i32,
    pub active: bool,
    pub created_at: Timestamp,
    pub updated_at: Timestamp,
}

impl UserNotificationPreferences {
    /// The instants are ones that `chrono` represents.
    pub open spec fn wf(&self) -> bool {
        &&& (self.quiet_hours_start matches Some(t) ==> t.valid())
        &&& (self.quiet_hours_end matches Some(t) ==> t.valid())
        &&& self.created_at.valid()
        &&& self.updated_at.valid()
    }

    /// Whether an item holds what this entity needs to be read from it.
    pub open spec fn item_readable(iv: ItemView) -> bool {
        &&& s_at(iv, "id"@) is Some
        &&& s_at(iv, "user_id"@) is Some
        &&& s_at(iv, "scope"@) matches Some(c) && PreferenceScope::spec_parse(c) is Some
    }

    /// Whether this entity is what is read from an item, where instants that
    /// cannot be read are taken to be `now`.
    pub open spec fn read_from(&self, iv: ItemView, now: Timestamp) -> bool {
        &&& Some(self.id@) == s_at(iv, "id"@)
        &&& Some(self.user_id@) == s_at(iv, "user_id"@)
        &&& Some(self.scope) == PreferenceScope::spec_parse(s_at(iv, "scope"@)->0)
        &&& opt_view(self.scope_value) == s_at(iv, "scope_value"@)
        &&& self.enabled == bool_or(iv, "enabled"@, true)
        &&& self.preferred_channels@ == NotificationChannels::spec_parse_all(ss_or_empty(iv, "preferred_channels"@))
        &&& self.blocked_channels@ == NotificationChannels::spec_parse_all(ss_or_empty(iv, "blocked_channels"@))
        &&& self.do_not_disturb == bool_or(iv, "do_not_disturb"@, false)
        &&& self.quiet_hours_start == (match s_at(iv, "quiet_hours_start"@) { Some(s) => chrono_parse_time_hms(s), None => None })
        &&& self.quiet_hours_end == (match s_at(iv, "quiet_hours_end"@) { Some(s) => chrono_parse_time_hms(s), None => None })
        &&& opt_view(self.quiet_hours_timezone) == s_at(iv, "quiet_hours_timezone"@)
        &&& self.min_severity_level == (match s_at(iv, "min_severity_level"@) { Some(c) => SeverityLevel::spec_parse(c), None => None })
        &&& self.frequency_limit == i32_or(iv, "frequency_limit"@, 0)
        &&& self.digest_enabled == bool_or(iv, "digest_enabled"@, false)
        &&& self.digest_frequency_hours == i32_or(iv, "digest_frequency_hours"@, 24)
        &&& self.escalation_enabled == bool_or(iv, "escalation_enabled"@, false)
        &&& self.escalation_delay_minutes == i32_or(iv, "escalation_delay_minutes"@, 15)
        &&& self.active == bool_or(iv, "active"@, true)
        &&& self.created_at == timestamp_or(iv, "created_at"@, now)
        &&& self.updated_at == timestamp_or(iv, "updated_at"@, now)
    }

    /// The entries that `to_item` writes for id, user_id, scope, scope_value, enabled, preferred_channels, blocked_channels, do_not_disturb, quiet_hours_start, quiet_hours_end, quiet_hours_timezone, min_severity_level, after those of `iv`.
    pub open spec fn spec_item_part1(&self, iv: ItemView) -> ItemView {
        let iv = iv.push(("id"@, AttrView::S(self.id@)));
        let iv = iv.push(("user_id"@, AttrView::S(self.user_id@)));
        let iv = iv.push(("scope"@, AttrView::S(self.scope.spec_str())));
        let iv = push_if(iv, self.scope_value is Some, ("scope_value"@, AttrView::S(self.scope_value->0@)));
        let iv = iv.push(("enabled"@, AttrView::Bool(self.enabled)));
        let iv = push_if(iv, self.preferred_channels@.len() > 0, ("preferred_channels"@, AttrView::Ss(NotificationChannels::spec_strs(self.preferred_channels@))));
        let iv = push_if(iv, self.blocked_channels@.len() > 0, ("blocked_channels"@, AttrView::Ss(NotificationChannels::spec_strs(self.blocked_channels@))));
        let iv = iv.push(("do_not_disturb"@, AttrView::Bool(self.do_not_disturb)));
        let iv = push_if(iv, self.quiet_hours_start is Some, ("quiet_hours_start"@, AttrView::S(chrono_format_time_hms(self.quiet_hours_start->0))));
        let iv = push_if(iv, self.quiet_hours_end is Some, ("quiet_hours_end"@, AttrView::S(chrono_format_time_hms(self.quiet_hours_end->0))));
        let iv = push_if(iv, self.quiet_hours_timezone is Some, ("quiet_hours_timezone"@, AttrView::S(self.quiet_hours_timezone->0@)));
        let iv = push_if(iv, self.min_severity_level is Some, ("min_severity_level"@, AttrView::S(self.min_severity_level->0.spec_str())));
        iv
    }

    /// The entries that `to_item` writes for frequency_limit, digest_enabled, digest_frequency_hours, escalation_enabled, escalation_delay_minutes, active, created_at, updated_at, after those of `iv`.
    pub open spec fn spec_item_part2(&self, iv: ItemView) -> ItemView {
        let iv = iv.push(("frequency_limit"@, AttrView::N(spec_format_i32(self.frequency_limit))));
        let iv = iv.push(("digest_enabled"@, AttrView::Bool(self.digest_enabled)));
        let iv = iv.push(("digest_frequency_hours"@, AttrView::N(spec_format_i32(self.digest_frequency_hours))));
        let iv = iv.push(("escalation_enabled"@, AttrView::Bool(self.escalation_enabled)));
        let iv = iv.push(("escalation_delay_minutes"@, AttrView::N(spec_format_i32(self.escalation_delay_minutes))));
        let iv = iv.push(("active"@, AttrView::Bool(self.active)));
        let iv = iv.push(("created_at"@, AttrView::S(chrono_format_datetime(self.created_at))));
        let iv = iv.push(("updated_at"@, AttrView::S(chrono_format_datetime(self.updated_at))));
        iv
    }

    /// The item that `to_item` writes.
    pub open spec fn spec_item(&self) -> ItemView {
        self.spec_item_part2(self.spec_item_part1(Seq::empty()))
    }

    /// Whether two entities hold the same values.
    pub open spec fn same_as(&self, other: &UserNotificationPreferences) -> bool {
        &&& self.id@ == other.id@
        &&& self.user_id@ == other.user_id@
        &&& self.scope == other.scope
        &&& opt_view(self.scope_value) == opt_view(other.scope_value)
        &&& self.enabled == other.enabled
        &&& self.preferred_channels@ == other.preferred_channels@
        &&& self.blocked_channels@ == other.blocked_channels@
        &&& self.do_not_disturb == other.do_not_disturb
        &&& self.quiet_hours_start == other.quiet_hours_start
        &&& self.quiet_hours_end == other.quiet_hours_end
        &&& opt_view(self.quiet_hours_timezone) == opt_view(other.quiet_hours_timezone)
        &&& self.min_severity_level == other.min_severity_level
        &&& self.frequency_limit == other.frequency_limit
        &&& self.digest_enabled == other.digest_enabled
        &&& self.digest_frequency_hours == other.digest_frequency_hours
        &&& self.escalation_enabled == other.escalation_enabled
        &&& self.escalation_delay_minutes == other.escalation_delay_minutes
        &&& self.active == other.active
        &&& self.created_at == other.created_at
        &&& self.updated_at == other.updated_at
    }

    /// Reads the entity from an item, taking `now` for instants that are missing.
    pub fn from_item_at(item: &Item, now: Timestamp) -> (res: Option<Self>)
        requires
            now.valid(),
        ensures
            res is Some <==> Self::item_readable(item@),
            res matches Some(e) ==> e.read_from(item@, now) && e.wf(),
    {
        let id = read_s(item, "id")?;
        let user_id = read_s(item, "user_id")?;
        let scope_text = item.get_s("scope")?;
        let scope = PreferenceScope::from_string(scope_text.as_str()).ok()?;
        let scope_value = read_s(item, "scope_value");
        let enabled = read_bool_or(item, "enabled", true);
        let preferred_channels_texts = read_ss_or_empty(item, "preferred_channels");
        let preferred_channels = NotificationChannels::parse_all(&preferred_channels_texts);
        let blocked_channels_texts = read_ss_or_empty(item, "blocked_channels");
        let blocked_channels = NotificationChannels::parse_all(&blocked_channels_texts);
        let do_not_disturb = read_bool_or(item, "do_not_disturb", false);
        let quiet_hours_start = match item.get_s("quiet_hours_start") {
            Some(t) => parse_time_hms(t.as_str()),
            None => None,
        };
        let quiet_hours_end = match item.get_s("quiet_hours_end") {
            Some(t) => parse_time_hms(t.as_str()),
            None => None,
        };
        let quiet_hours_timezone = read_s(item, "quiet_hours_timezone");
        let min_severity_level = match item.get_s("min_severity_level") {
            Some(t) => SeverityLevel::from_string(t.as_str()).ok(),
            None => None,
        };
        let frequency_limit = read_i32_or(item, "frequency_limit", 0);
        let digest_enabled = read_bool_or(item, "digest_enabled", false);
        let digest_frequency_hours = read_i32_or(item, "digest_frequency_hours", 24);
        let escalation_enabled = read_bool_or(item, "escalation_enabled", false);
        let escalation_delay_minutes = read_i32_or(item, "escalation_delay_minutes", 15);
        let active = read_bool_or(item, "active", true);
        let created_at = read_timestamp_or(item, "created_at", now);
        let updated_at = read_timestamp_or(item, "updated_at", now);
        Some(UserNotificationPreferences {
            id,
            user_id,
            scope,
            scope_value,
            enabled,
            preferred_channels,
            blocked_channels,
            do_not_disturb,
            quiet_hours_start,
            quiet_hours_end,
            quiet_hours_timezone,
            min_severity_level,
            frequency_limit,
            digest_enabled,
            digest_frequency_hours,
            escalation_enabled,
            escalation_delay_minutes,
            active,
            created_at,
            updated_at,
        })
    }

    /// Reads the entity from an item; instants that are missing are read from the clock.
    pub fn from_item(item: &Item) -> (res: Option<Self>)
        ensures
            res is Some <==> Self::item_readable(item@),
            res matches Some(e) ==> e.wf() && exists|t: Timestamp| t.valid() && e.read_from(item@, t),
    {
        let t = now();
        Self::from_item_at(item, t)
    }

    fn write_part1(&self, item: &mut Item)
        requires
            self.wf(),
        ensures
            final(item)@ == self.spec_item_part1(old(item)@),
    {
        reveal(push_if);
        let ghost mut iv: ItemView = old(item)@;
        item.insert_s("id", self.id.clone());
        proof { iv = iv.push(("id"@, AttrView::S(self.id@))); }
        assert(item@ == iv);
        item.insert_s("user_id", self.user_id.clone());
        proof { iv = iv.push(("user_id"@, AttrView::S(self.user_id@))); }
        assert(item@ == iv);
        item.insert_s("scope", self.scope.to_string());
        proof { iv = iv.push(("scope"@, AttrView::S(self.scope.spec_str()))); }
        assert(item@ == iv);
        if let Some(x) = &self.scope_value {
            item.insert_s("scope_value", x.clone());
        }
        proof { iv = push_if(iv, self.scope_value is Some, ("scope_value"@, AttrView::S(self.scope_value->0@))); }
        assert(item@ == iv);
        item.insert_bool("enabled", self.enabled);
        proof { iv = iv.push(("enabled"@, AttrView::Bool(self.enabled))); }
        assert(item@ == iv);
        if self.preferred_channels.len() > 0 {
            item.insert_ss("preferred_channels", NotificationChannels::to_strings(&self.preferred_channels));
        }
        proof { iv = push_if(iv, self.preferred_channels@.len() > 0, ("preferred_channels"@, AttrView::Ss(NotificationChannels::spec_strs(self.preferred_channels@)))); }
        assert(item@ == iv);
        if self.blocked_channels.len() > 0 {
            item.insert_ss("blocked_channels", NotificationChannels::to_strings(&self.blocked_channels));
        }
        proof { iv = push_if(iv, self.blocked_channels@.len() > 0, ("blocked_channels"@, AttrView::Ss(NotificationChannels::spec_strs(self.blocked_channels@)))); }
        assert(item@ == iv);
        item.insert_bool("do_not_disturb", self.do_not_disturb);
        proof { iv = iv.push(("do_not_disturb"@, AttrView::Bool(self.do_not_disturb))); }
        assert(item@ == iv);
        if let Some(t) = &self.quiet_hours_start {
            item.insert_s("quiet_hours_start", format_time_hms(t));
        }
        proof { iv = push_if(iv, self.quiet_hours_start is Some, ("quiet_hours_start"@, AttrView::S(chrono_format_time_hms(self.quiet_hours_start->0)))); }
        assert(item@ == iv);
        if let Some(t) = &self.quiet_hours_end {
            item.insert_s("quiet_hours_end", format_time_hms(t));
        }
        proof { iv = push_if(iv, self.quiet_hours_end is Some, ("quiet_hours_end"@, AttrView::S(chrono_format_time_hms(self.quiet_hours_end->0)))); }
        assert(item@ == iv);
        if let Some(x) = &self.quiet_hours_timezone {
            item.insert_s("quiet_hours_timezone", x.clone());
        }
        proof { iv = push_if(iv, self.quiet_hours_timezone is Some, ("quiet_hours_timezone"@, AttrView::S(self.quiet_hours_timezone->0@))); }
        assert(item@ == iv);
        if let Some(x) = &self.min_severity_level {
            item.insert_s("min_severity_level", x.to_string());
        }
        proof { iv = push_if(iv, self.min_severity_level is Some, ("min_severity_level"@, AttrView::S(self.min_severity_level->0.spec_str()))); }
        assert(item@ == iv);
    }

    fn write_part2(&self, item: &mut Item)
        requires
            self.wf(),
        ensures
            final(item)@ == self.spec_item_part2(old(item)@),
            chrono_parse_datetime(chrono_format_datetime(self.created_at)) == Some(self.created_at),
            chrono_parse_datetime(chrono_format_datetime(self.updated_at)) == Some(self.updated_at),
    {
        reveal(push_if);
        let ghost mut iv: ItemView = old(item)@;
        write_i32(item, "frequency_limit", self.frequency_limit);
        proof { iv = iv.push(("frequency_limit"@, AttrView::N(spec_format_i32(self.frequency_limit)))); }
        assert(item@ == iv);
        item.insert_bool("digest_enabled", self.digest_enabled);
        proof { iv = iv.push(("digest_enabled"@, AttrView::Bool(self.digest_enabled))); }
        assert(item@ == iv);
        write_i32(item, "digest_frequency_hours", self.digest_frequency_hours);
        proof { iv = iv.push(("digest_frequency_hours"@, AttrView::N(spec_format_i32(self.digest_frequency_hours)))); }
        assert(item@ == iv);
        item.insert_bool("escalation_enabled", self.escalation_enabled);
        proof { iv = iv.push(("escalation_enabled"@, AttrView::Bool(self.escalation_enabled))); }
        assert(item@ == iv);
        write_i32(item, "escalation_delay_minutes", self.escalation_delay_minutes);
        proof { iv = iv.push(("escalation_delay_minutes"@, AttrView::N(spec_format_i32(self.escalation_delay_minutes)))); }
        assert(item@ == iv);
        item.insert_bool("active", self.active);
        proof { iv = iv.push(("active"@, AttrView::Bool(self.active))); }
        assert(item@ == iv);
        write_timestamp(item, "created_at", &self.created_at);
        proof { iv = iv.push(("created_at"@, AttrView::S(chrono_format_datetime(self.created_at)))); }
        assert(item@ == iv);
        write_timestamp(item, "updated_at", &self.updated_at);
        proof { iv = iv.push(("updated_at"@, AttrView::S(chrono_format_datetime(self.updated_at)))); }
        assert(item@ == iv);
    }

    /// What reading the preferences back from their item needs beyond
    /// well-formedness: the quiet hours are written to the second, so they read
    /// back only where they fall on a whole second.
    pub open spec fn readback_conditions(&self) -> bool {
        &&& self.quiet_hours_start matches Some(t) ==> chrono_parse_time_hms(chrono_format_time_hms(t)) == Some(t)
        &&& self.quiet_hours_end matches Some(t) ==> chrono_parse_time_hms(chrono_format_time_hms(t)) == Some(t)
    }

    /// Writes the entity as an item.
    pub fn to_item(&self) -> (res: Item)
        requires
            self.wf(),
        ensures
            res@ == self.spec_item(),
            self.readback_conditions() ==> Self::item_readable(res@),
            self.readback_conditions() ==> forall|b: UserNotificationPreferences, now: Timestamp| #[trigger] b.read_from(res@, now) ==> b.same_as(self),
    {
        let mut item = Item::new();
        self.write_part1(&mut item);
        self.write_part2(&mut item);
        proof {
            if self.readback_conditions() {
                Self::lemma_item_roundtrip(self, self, Timestamp { secs: 0, nanos: 0 });
                assert forall|b: UserNotificationPreferences, now: Timestamp| #[trigger] b.read_from(item@, now) implies b.same_as(self) by {
                    Self::lemma_item_roundtrip(self, &b, now);
                }
            }
        }
        item
    }

    proof fn lemma_part1_values(&self, iv: ItemView)
        ensures
            lookup(self.spec_item_part1(iv), "id"@) == Some(AttrView::S(self.id@)),
            lookup(self.spec_item_part1(iv), "user_id"@) == Some(AttrView::S(self.user_id@)),
            lookup(self.spec_item_part1(iv), "scope"@) == Some(AttrView::S(self.scope.spec_str())),
            lookup(self.spec_item_part1(iv), "scope_value"@) == (if self.scope_value is Some { Some(AttrView::S(self.scope_value->0@)) } else { lookup(iv, "scope_value"@) }),
            lookup(self.spec_item_part1(iv), "enabled"@) == Some(AttrView::Bool(self.enabled)),
            lookup(self.spec_item_part1(iv), "preferred_channels"@) == (if self.preferred_channels@.len() > 0 { Some(AttrView::Ss(NotificationChannels::spec_strs(self.preferred_channels@))) } else { lookup(iv, "preferred_channels"@) }),
            lookup(self.spec_item_part1(iv), "blocked_channels"@) == (if self.blocked_channels@.len() > 0 { Some(AttrView::Ss(NotificationChannels::spec_strs(self.blocked_channels@))) } else { lookup(iv, "blocked_channels"@) }),
            lookup(self.spec_item_part1(iv), "do_not_disturb"@) == Some(AttrView::Bool(self.do_not_disturb)),
            lookup(self.spec_item_part1(iv), "quiet_hours_start"@) == (if self.quiet_hours_start is Some { Some(AttrView::S(chrono_format_time_hms(self.quiet_hours_start->0))) } else { lookup(iv, "quiet_hours_start"@) }),
            lookup(self.spec_item_part1(iv), "quiet_hours_end"@) == (if self.quiet_hours_end is Some { Some(AttrView::S(chrono_format_time_hms(self.quiet_hours_end->0))) } else { lookup(iv, "quiet_hours_end"@) }),
            lookup(self.spec_item_part1(iv), "quiet_hours_timezone"@) == (if self.quiet_hours_timezone is Some { Some(AttrView::S(self.quiet_hours_timezone->0@)) } else { lookup(iv, "quiet_hours_timezone"@) }),
            lookup(self.spec_item_part1(iv), "min_severity_level"@) == (if self.min_severity_level is Some { Some(AttrView::S(self.min_severity_level->0.spec_str())) } else { lookup(iv, "min_severity_level"@) }),
    {
        broadcast use crate::item::lemma_lookup_push, crate::item::lemma_lookup_push_if;
        lemma_keys_distinct();
    }

    proof fn lemma_part1_frame(&self, iv: ItemView, k: Seq<char>)
        requires
            k != "id"@,
            k != "user_id"@,
            k != "scope"@,
            k != "scope_value"@,
            k != "enabled"@,
            k != "preferred_channels"@,
            k != "blocked_channels"@,
            k != "do_not_disturb"@,
            k != "quiet_hours_start"@,
            k != "quiet_hours_end"@,
            k != "quiet_hours_timezone"@,
            k != "min_severity_level"@,
        ensures
            lookup(self.spec_item_part1(iv), k) == lookup(iv, k),
    {
        broadcast use crate::item::lemma_lookup_push, crate::item::lemma_lookup_push_if;
    }

    proof fn lemma_part2_values(&self, iv: ItemView)
        ensures
            lookup(self.spec_item_part2(iv), "frequency_limit"@) == Some(AttrView::N(spec_format_i32(self.frequency_limit))),
            lookup(self.spec_item_part2(iv), "digest_enabled"@) == Some(AttrView::Bool(self.digest_enabled)),
            lookup(self.spec_item_part2(iv), "digest_frequency_hours"@) == Some(AttrView::N(spec_format_i32(self.digest_frequency_hours))),
            lookup(self.spec_item_part2(iv), "escalation_enabled"@) == Some(AttrView::Bool(self.escalation_enabled)),
            lookup(self.spec_item_part2(iv), "escalation_delay_minutes"@) == Some(AttrView::N(spec_format_i32(self.escalation_delay_minutes))),
            lookup(self.spec_item_part2(iv), "active"@) == Some(AttrView::Bool(self.active)),
            lookup(self.spec_item_part2(iv), "created_at"@) == Some(AttrView::S(chrono_format_datetime(self.created_at))),
            lookup(self.spec_item_part2(iv), "updated_at"@) == Some(AttrView::S(chrono_format_datetime(self.updated_at))),
    {
        broadcast use crate::item::lemma_lookup_push, crate::item::lemma_lookup_push_if;
        lemma_keys_distinct();
    }

    proof fn lemma_part2_frame(&self, iv: ItemView, k: Seq<char>)
        requires
            k != "frequency_limit"@,
            k != "digest_enabled"@,
            k != "digest_frequency_hours"@,
            k != "escalation_enabled"@,
            k != "escalation_delay_minutes"@,
            k != "active"@,
            k != "created_at"@,
            k != "updated_at"@,
        ensures
            lookup(self.spec_item_part2(iv), k) == lookup(iv, k),
    {
        broadcast use crate::item::lemma_lookup_push, crate::item::lemma_lookup_push_if;
    }

    /// Every attribute the `UserNotificationPreferences` table defines holds, in the item the entity is
    /// written as, nothing or a value of the type the table gives it, so
    /// DynamoDB accepts the item.
    pub proof fn lemma_item_fits_table(a: &UserNotificationPreferences)
        ensures
            item_fits_table(a.spec_item(), spec_user_notification_preferences_table()),
    {
        lemma_keys_distinct();
        let e: ItemView = Seq::empty();
        let p1 = a.spec_item_part1(e);
        let p2 = a.spec_item_part2(p1);
        assert(a.spec_item() == p2);
        a.lemma_part1_values(e);
        a.lemma_part2_values(p1);
        a.lemma_part2_frame(p1, "user_id"@);
        lemma_table_keys_absent();
        a.lemma_part1_frame(e, "notification_type"@);
        a.lemma_part2_frame(p1, "notification_type"@);
        let t = spec_user_notification_preferences_table();
        assert forall|i: int| 0 <= i < t.attributes.len() implies match #[trigger] crate::item::lookup(a.spec_item(), t.attributes[i].0) {
            Some(v) => attr_fits(t.attributes[i].1, v),
            None => true,
        } by {
            if i == 0 { assert(t.attributes[0].0 == "user_id"@); } else if i == 1 { assert(t.attributes[1].0 == "notification_type"@); }
        }
    }

    /// Reading the entity back from the item it is written as gives the same
    /// entity, where `chrono` reads back the text of its instants.
    #[verifier::rlimit(100)]
    pub proof fn lemma_item_roundtrip(a: &UserNotificationPreferences, b: &UserNotificationPreferences, now: Timestamp)
        requires
            a.wf(),
            a.quiet_hours_start matches Some(t) ==> chrono_parse_time_hms(chrono_format_time_hms(t)) == Some(t),
            a.quiet_hours_end matches Some(t) ==> chrono_parse_time_hms(chrono_format_time_hms(t)) == Some(t),
            chrono_parse_datetime(chrono_format_datetime(a.created_at)) == Some(a.created_at),
            chrono_parse_datetime(chrono_format_datetime(a.updated_at)) == Some(a.updated_at),
        ensures
            Self::item_readable(a.spec_item()),
            b.read_from(a.spec_item(), now) ==> b.same_as(a),
    {
        lemma_keys_distinct();
        let e: ItemView = Seq::empty();
        let p1 = a.spec_item_part1(e);
        let p2 = a.spec_item_part2(p1);
        assert(a.spec_item() == p2);
        a.lemma_part1_values(e);
        a.lemma_part2_values(p1);
        a.lemma_part2_frame(p1, "id"@);
        a.lemma_part2_frame(p1, "user_id"@);
        a.lemma_part2_frame(p1, "scope"@);
        a.lemma_part2_frame(p1, "scope_value"@);
        a.lemma_part2_frame(p1, "enabled"@);
        a.lemma_part2_frame(p1, "preferred_channels"@);
        a.lemma_part2_frame(p1, "blocked_channels"@);
        a.lemma_part2_frame(p1, "do_not_disturb"@);
        a.lemma_part2_frame(p1, "quiet_hours_start"@);
        a.lemma_part2_frame(p1, "quiet_hours_end"@);
        a.lemma_part2_frame(p1, "quiet_hours_timezone"@);
        a.lemma_part2_frame(p1, "min_severity_level"@);
        a.lemma_part1_frame(e, "frequency_limit"@);
        a.lemma_part1_frame(e, "digest_enabled"@);
        a.lemma_part1_frame(e, "digest_frequency_hours"@);
        a.lemma_part1_frame(e, "escalation_enabled"@);
        a.lemma_part1_frame(e, "escalation_delay_minutes"@);
        a.lemma_part1_frame(e, "active"@);
        a.lemma_part1_frame(e, "created_at"@);
        a.lemma_part1_frame(e, "updated_at"@);
        PreferenceScope::lemma_parse_str(a.scope);
        NotificationChannels::lemma_parse_all_strs(a.preferred_channels@);
        if a.preferred_channels@.len() == 0 { assert(a.preferred_channels@ =~= Seq::<NotificationChannels>::empty()); }
        NotificationChannels::lemma_parse_all_strs(a.blocked_channels@);
        if a.blocked_channels@.len() == 0 { assert(a.blocked_channels@ =~= Seq::<NotificationChannels>::empty()); }
        if let Some(x) = a.min_severity_level { SeverityLevel::lemma_parse_str(x); }
        lemma_parse_format_i32(a.frequency_limit);
        lemma_parse_format_i32(a.digest_frequency_hours);
        lemma_parse_format_i32(a.escalation_delay_minutes);
    }

    /// Which check, if any, the arguments of `new` fail, in the order they are made.
    pub open spec fn spec_new_error(
        user_id: Seq<char>,
        scope: Seq<char>,
        preferred_channels: Seq<Seq<char>>,
        blocked_channels: Seq<Seq<char>>,
        min_severity_level: Option<Seq<char>>,
    ) -> Option<Seq<char>> {
        if is_blank_spec(user_id) {
            Some("User ID cannot be empty"@)
        } else if PreferenceScope::spec_parse(scope) is None {
            Some("Invalid preference scope"@)
        } else if !NotificationChannels::all_parse(preferred_channels) {
            Some("Invalid notification channel"@)
        } else if !NotificationChannels::all_parse(blocked_channels) {
            Some("Invalid notification channel"@)
        } else if min_severity_level matches Some(s) && SeverityLevel::spec_parse(s) is None {
            Some("Invalid severity level"@)
        } else {
            None
        }
    }

    /// Creates a user's preferences for some scope of notifications.
    pub fn new(
        id: String,
        user_id: String,
        scope: String,
        scope_value: Option<String>,
        enabled: bool,
        preferred_channels: Vec<String>,
        blocked_channels: Vec<String>,
        do_not_disturb: bool,
        quiet_hours_start: Option<TimeOfDay>,
        quiet_hours_end: Option<TimeOfDay>,
        quiet_hours_timezone: Option<String>,
        min_severity_level: Option<String>,
        frequency_limit: i32,
        digest_enabled: bool,
        digest_frequency_hours: i32,
        escalation_enabled: bool,
        escalation_delay_minutes: i32,
        active: bool,
    ) -> (res: Result<Self, AppError>)
        ensures
            match Self::spec_new_error(user_id@, scope@, strings_view(preferred_channels@),
                strings_view(blocked_channels@), opt_view(min_severity_level)) {
                Some(m) => is_validation_error(res, m),
                None => res matches Ok(p) && {
                    &&& p.id == id && p.user_id == user_id
                    &&& Some(p.scope) == PreferenceScope::spec_parse(scope@) && p.scope_value == scope_value
                    &&& p.enabled == enabled
                    &&& p.preferred_channels@ == NotificationChannels::spec_parse_all(strings_view(preferred_channels@))
                    &&& p.blocked_channels@ == NotificationChannels::spec_parse_all(strings_view(blocked_channels@))
                    &&& p.do_not_disturb == do_not_disturb && p.quiet_hours_start == quiet_hours_start
                    &&& p.quiet_hours_end == quiet_hours_end && p.quiet_hours_timezone == quiet_hours_timezone
                    &&& p.min_severity_level == (match min_severity_level {
                        Some(s) => SeverityLevel::spec_parse(s@),
                        None => None,
                    })
                    &&& p.frequency_limit == frequency_limit && p.digest_enabled == digest_enabled
                    &&& p.digest_frequency_hours == digest_frequency_hours
                    &&& p.escalation_enabled == escalation_enabled
                    &&& p.escalation_delay_minutes == escalation_delay_minutes && p.active == active
                    &&& p.created_at == p.updated_at && p.created_at.valid()
                },
            },
    {
        let now = now();
        if is_blank(user_id.as_str()) {
            return Err(AppError::ValidationError("User ID cannot be empty".to_owned()));
        }
        let scope_enum = PreferenceScope::from_string(scope.as_str())?;
        let preferred = NotificationChannels::from_strings(&preferred_channels)?;
        let blocked = NotificationChannels::from_strings(&blocked_channels)?;
        let min_severity = match &min_severity_level {
            Some(s) => Some(SeverityLevel::from_string(s.as_str())?),
            None => None,
        };
        Ok(UserNotificationPreferences {
            id,
            user_id,
            scope: scope_enum,
            scope_value,
            enabled,
            preferred_channels: preferred,
            blocked_channels: blocked,
            do_not_disturb,
            quiet_hours_start,
            quiet_hours_end,
            quiet_hours_timezone,
            min_severity_level: min_severity,
            frequency_limit,
            digest_enabled,
            digest_frequency_hours,
            escalation_enabled,
            escalation_delay_minutes,
            active,
            created_at: now,
            updated_at: now,
        })
    }

    /// Whether `t` falls in the quiet hours from `start` to `end`, both ends
    /// included; where `start` comes after `end` the hours run past midnight.
    pub open spec fn in_quiet_hours(start: TimeOfDay, end: TimeOfDay, t: TimeOfDay) -> bool {
        if !end.precedes(start) {
            !t.precedes(start) && !end.precedes(t)
        } else {
            !t.precedes(start) || !end.precedes(t)
        }
    }

    /// Whether a notification may be sent at time of day `t` (UTC).
    pub open spec fn spec_allowed_at(&self, t: TimeOfDay) -> bool {
        &&& self.enabled && self.active
        &&& !self.do_not_disturb
        &&& !(self.quiet_hours_start matches Some(s) && self.quiet_hours_end matches Some(e)
            && Self::in_quiet_hours(s, e, t))
    }

    pub fn is_notification_allowed_at(&self, t: &TimeOfDay) -> (res: bool)
        ensures
            res == self.spec_allowed_at(*t),
    {
        if !self.enabled || !self.active {
            return false;
        }
        if self.do_not_disturb {
            return false;
        }
        if let (Some(start), Some(end)) = (&self.quiet_hours_start, &self.quiet_hours_end) {
            if start.is_at_or_before(end) {
                if start.is_at_or_before(t) && t.is_at_or_before(end) {
                    return false;
                }
            } else {
                if start.is_at_or_before(t) || t.is_at_or_before(end) {
                    return false;
                }
            }
        }
        true
    }

    /// Whether a notification may be sent now.
    pub fn is_notification_allowed_now(&self) -> (res: bool)
        ensures
            exists|t: Timestamp| t.valid() && res == self.spec_allowed_at(t.spec_time_of_day()),
    {
        let t = now();
        let tod = t.time_of_day();
        self.is_notification_allowed_at(&tod)
    }

    /// Whether a channel may be used: never a blocked one, and where channels
    /// are preferred, only those.
    pub open spec fn spec_channel_allowed(&self, c: NotificationChannels) -> bool {
        if self.blocked_channels@.contains(c) {
            false
        } else if self.preferred_channels@.len() > 0 {
            self.preferred_channels@.contains(c)
        } else {
            true
        }
    }

    pub fn is_channel_allowed(&self, channel: &NotificationChannels) -> (res: bool)
        ensures
            res == self.spec_channel_allowed(*channel),
    {
        if NotificationChannels::list_holds(&self.blocked_channels, channel) {
            return false;
        }
        if self.preferred_channels.len() > 0 {
            return NotificationChannels::list_holds(&self.preferred_channels, channel);
        }
        true
    }

    /// The rank of a severity; a higher rank is more severe.
    pub open spec fn spec_severity_rank(s: SeverityLevel) -> int {
        match s {
            SeverityLevel::Informational => 1,
            SeverityLevel::Low => 2,
            SeverityLevel::Medium => 3,
            SeverityLevel::High => 4,
            SeverityLevel::Critical => 5,
        }
    }

    pub fn severity_rank(s: &SeverityLevel) -> (res: u8)
        ensures
            res == Self::spec_severity_rank(*s),
    {
        match s {
            SeverityLevel::Informational => 1,
            SeverityLevel::Low => 2,
            SeverityLevel::Medium => 3,
            SeverityLevel::High => 4,
            SeverityLevel::Critical => 5,
        }
    }

    /// Whether a severity reaches the minimum, where one is set.
    pub open spec fn spec_severity_allowed(&self, s: SeverityLevel) -> bool {
        match self.min_severity_level {
            Some(m) => Self::spec_severity_rank(s) >= Self::spec_severity_rank(m),
            None => true,
        }
    }

    pub fn is_severity_allowed(&self, severity: &SeverityLevel) -> (res: bool)
        ensures
            res == self.spec_severity_allowed(*severity),
    {
        match &self.min_severity_level {
            Some(m) => Self::severity_rank(severity) >= Self::severity_rank(m),
            None => true,
        }
    }

    /// Whether the channel named by a text may be used; a text that names no
    /// channel may not.
    pub fn check_is_channel_allowed(&self, channel: String) -> (res: bool)
        ensures
            res == (match NotificationChannels::spec_parse(channel@) {
                Some(c) => self.spec_channel_allowed(c),
                None => false,
            }),
    {
        match NotificationChannels::from_string(channel.as_str()) {
            Ok(c) => self.is_channel_allowed(&c),
            Err(_) => false,
        }
    }

    /// Whether the severity named by a text reaches the minimum; a text that
    /// names no severity does not.
    pub fn check_is_severity_allowed(&self, severity: String) -> (res: bool)
        ensures
            res == (match SeverityLevel::spec_parse(severity@) {
                Some(s) => self.spec_severity_allowed(s),
                None => false,
            }),
    {
        match SeverityLevel::from_string(severity.as_str()) {
            Ok(s) => self.is_severity_allowed(&s),
            Err(_) => false,
        }
    }

    /// A blocked channel is never allowed, whatever the preferred channels are.
    pub proof fn lemma_blocked_channel_refused(p: &UserNotificationPreferences, c: NotificationChannels)
        requires
            p.blocked_channels@.contains(c),
        ensures
            !p.spec_channel_allowed(c),
    {
    }

    /// Where channels are preferred, an allowed channel is a preferred one.
    pub proof fn lemma_allowed_channel_preferred(p: &UserNotificationPreferences, c: NotificationChannels)
        requires
            p.preferred_channels@.len() > 0,
            p.spec_channel_allowed(c),
        ensures
            p.preferred_channels@.contains(c),
    {
    }

    /// A severity at least as high as an allowed one is allowed too.
    pub proof fn lemma_severity_allowed_upward(p: &UserNotificationPreferences, s: SeverityLevel, t: SeverityLevel)
        requires
            p.spec_severity_allowed(s),
            Self::spec_severity_rank(s) <= Self::spec_severity_rank(t),
        ensures
            p.spec_severity_allowed(t),
    {
    }

    /// The minimum severity itself is allowed.
    pub proof fn lemma_min_severity_allowed(p: &UserNotificationPreferences)
        requires
            p.min_severity_level is Some,
        ensures
            p.spec_severity_allowed(p.min_severity_level->0),
    {
    }

    /// Do-not-disturb holds back notifications at every time of day.
    pub proof fn lemma_do_not_disturb_silences(p: &UserNotificationPreferences, t: TimeOfDay)
        requires
            p.do_not_disturb,
        ensures
            !p.spec_allowed_at(t),
    {
    }

    /// The ends of the quiet hours are quiet.
    pub proof fn lemma_quiet_hours_ends_quiet(start: TimeOfDay, end: TimeOfDay)
        ensures
            Self::in_quiet_hours(start, end, start),
            Self::in_quiet_hours(start, end, end),
    {
    }

}

proof fn lemma_keys_distinct()
    ensures
        "id"@ != "user_id"@,
        "id"@ != "scope"@,
        "id"@ != "scope_value"@,
        "id"@ != "enabled"@,
        "id"@ != "preferred_channels"@,
        "id"@ != "blocked_channels"@,
        "id"@ != "do_not_disturb"@,
        "id"@ != "quiet_hours_start"@,
        "id"@ != "quiet_hours_end"@,
        "id"@ != "quiet_hours_timezone"@,
        "id"@ != "min_severity_level"@,
        "id"@ != "frequency_limit"@,
        "id"@ != "digest_enabled"@,
        "id"@ != "digest_frequency_hours"@,
        "id"@ != "escalation_enabled"@,
        "id"@ != "escalation_delay_minutes"@,
        "id"@ != "active"@,
        "id"@ != "created_at"@,
        "id"@ != "updated_at"@,
        "user_id"@ != "scope"@,
        "user_id"@ != "scope_value"@,
        "user_id"@ != "enabled"@,
        "user_id"@ != "preferred_channels"@,
        "user_id"@ != "blocked_channels"@,
        "user_id"@ != "do_not_disturb"@,
        "user_id"@ != "quiet_hours_start"@,
        "user_id"@ != "quiet_hours_end"@,
        "user_id"@ != "quiet_hours_timezone"@,
        "user_id"@ != "min_severity_level"@,
        "user_id"@ != "frequency_limit"@,
        "user_id"@ != "digest_enabled"@,
        "user_id"@ != "digest_frequency_hours"@,
        "user_id"@ != "escalation_enabled"@,
        "user_id"@ != "escalation_delay_minutes"@,
        "user_id"@ != "active"@,
        "user_id"@ != "created_at"@,
        "user_id"@ != "updated_at"@,
        "scope"@ != "scope_value"@,
        "scope"@ != "enabled"@,
        "scope"@ != "preferred_channels"@,
        "scope"@ != "blocked_channels"@,
        "scope"@ != "do_not_disturb"@,
        "scope"@ != "quiet_hours_start"@,
        "scope"@ != "quiet_hours_end"@,
        "scope"@ != "quiet_hours_timezone"@,
        "scope"@ != "min_severity_level"@,
        "scope"@ != "frequency_limit"@,
        "scope"@ != "digest_enabled"@,
        "scope"@ != "digest_frequency_hours"@,
        "scope"@ != "escalation_enabled"@,
        "scope"@ != "escalation_delay_minutes"@,
        "scope"@ != "active"@,
        "scope"@ != "created_at"@,
        "scope"@ != "updated_at"@,
        "scope_value"@ != "enabled"@,
        "scope_value"@ != "preferred_channels"@,
        "scope_value"@ != "blocked_channels"@,
        "scope_value"@ != "do_not_disturb"@,
        "scope_value"@ != "quiet_hours_start"@,
        "scope_value"@ != "quiet_hours_end"@,
        "scope_value"@ != "quiet_hours_timezone"@,
        "scope_value"@ != "min_severity_level"@,
        "scope_value"@ != "frequency_limit"@,
        "scope_value"@ != "digest_enabled"@,
        "scope_value"@ != "digest_frequency_hours"@,
        "scope_value"@ != "escalation_enabled"@,
        "scope_value"@ != "escalation_delay_minutes"@,
        "scope_value"@ != "active"@,
        "scope_value"@ != "created_at"@,
        "scope_value"@ != "updated_at"@,
        "enabled"@ != "preferred_channels"@,
        "enabled"@ != "blocked_channels"@,
        "enabled"@ != "do_not_disturb"@,
        "enabled"@ != "quiet_hours_start"@,
        "enabled"@ != "quiet_hours_end"@,
        "enabled"@ != "quiet_hours_timezone"@,
        "enabled"@ != "min_severity_level"@,
        "enabled"@ != "frequency_limit"@,
        "enabled"@ != "digest_enabled"@,
        "enabled"@ != "digest_frequency_hours"@,
        "enabled"@ != "escalation_enabled"@,
        "enabled"@ != "escalation_delay_minutes"@,
        "enabled"@ != "active"@,
        "enabled"@ != "created_at"@,
        "enabled"@ != "updated_at"@,
        "preferred_channels"@ != "blocked_channels"@,
        "preferred_channels"@ != "do_not_disturb"@,
        "preferred_channels"@ != "quiet_hours_start"@,
        "preferred_channels"@ != "quiet_hours_end"@,
        "preferred_channels"@ != "quiet_hours_timezone"@,
        "preferred_channels"@ != "min_severity_level"@,
        "preferred_channels"@ != "frequency_limit"@,
        "preferred_channels"@ != "digest_enabled"@,
        "preferred_channels"@ != "digest_frequency_hours"@,
        "preferred_channels"@ != "escalation_enabled"@,
        "preferred_channels"@ != "escalation_delay_minutes"@,
        "preferred_channels"@ != "active"@,
        "preferred_channels"@ != "created_at"@,
        "preferred_channels"@ != "updated_at"@,
        "blocked_channels"@ != "do_not_disturb"@,
        "blocked_channels"@ != "quiet_hours_start"@,
        "blocked_channels"@ != "quiet_hours_end"@,
        "blocked_channels"@ != "quiet_hours_timezone"@,
        "blocked_channels"@ != "min_severity_level"@,
        "blocked_channels"@ != "frequency_limit"@,
        "blocked_channels"@ != "digest_enabled"@,
        "blocked_channels"@ != "digest_frequency_hours"@,
        "blocked_channels"@ != "escalation_enabled"@,
        "blocked_channels"@ != "escalation_delay_minutes"@,
        "blocked_channels"@ != "active"@,
        "blocked_channels"@ != "created_at"@,
        "blocked_channels"@ != "updated_at"@,
        "do_not_disturb"@ != "quiet_hours_start"@,
        "do_not_disturb"@ != "quiet_hours_end"@,
        "do_not_disturb"@ != "quiet_hours_timezone"@,
        "do_not_disturb"@ != "min_severity_level"@,
        "do_not_disturb"@ != "frequency_limit"@,
        "do_not_disturb"@ != "digest_enabled"@,
        "do_not_disturb"@ != "digest_frequency_hours"@,
        "do_not_disturb"@ != "escalation_enabled"@,
        "do_not_disturb"@ != "escalation_delay_minutes"@,
        "do_not_disturb"@ != "active"@,
        "do_not_disturb"@ != "created_at"@,
        "do_not_disturb"@ != "updated_at"@,
        "quiet_hours_start"@ != "quiet_hours_end"@,
        "quiet_hours_start"@ != "quiet_hours_timezone"@,
        "quiet_hours_start"@ != "min_severity_level"@,
        "quiet_hours_start"@ != "frequency_limit"@,
        "quiet_hours_start"@ != "digest_enabled"@,
        "quiet_hours_start"@ != "digest_frequency_hours"@,
        "quiet_hours_start"@ != "escalation_enabled"@,
        "quiet_hours_start"@ != "escalation_delay_minutes"@,
        "quiet_hours_start"@ != "active"@,
        "quiet_hours_start"@ != "created_at"@,
        "quiet_hours_start"@ != "updated_at"@,
        "quiet_hours_end"@ != "quiet_hours_timezone"@,
        "quiet_hours_end"@ != "min_severity_level"@,
        "quiet_hours_end"@ != "frequency_limit"@,
        "quiet_hours_end"@ != "digest_enabled"@,
        "quiet_hours_end"@ != "digest_frequency_hours"@,
        "quiet_hours_end"@ != "escalation_enabled"@,
        "quiet_hours_end"@ != "escalation_delay_minutes"@,
        "quiet_hours_end"@ != "active"@,
        "quiet_hours_end"@ != "created_at"@,
        "quiet_hours_end"@ != "updated_at"@,
        "quiet_hours_timezone"@ != "min_severity_level"@,
        "quiet_hours_timezone"@ != "frequency_limit"@,
        "quiet_hours_timezone"@ != "digest_enabled"@,
        "quiet_hours_timezone"@ != "digest_frequency_hours"@,
        "quiet_hours_timezone"@ != "escalation_enabled"@,
        "quiet_hours_timezone"@ != "escalation_delay_minutes"@,
        "quiet_hours_timezone"@ != "active"@,
        "quiet_hours_timezone"@ != "created_at"@,
        "quiet_hours_timezone"@ != "updated_at"@,
        "min_severity_level"@ != "frequency_limit"@,
        "min_severity_level"@ != "digest_enabled"@,
        "min_severity_level"@ != "digest_frequency_hours"@,
        "min_severity_level"@ != "escalation_enabled"@,
        "min_severity_level"@ != "escalation_delay_minutes"@,
        "min_severity_level"@ != "active"@,
        "min_severity_level"@ != "created_at"@,
        "min_severity_level"@ != "updated_at"@,
        "frequency_limit"@ != "digest_enabled"@,
        "frequency_limit"@ != "digest_frequency_hours"@,
        "frequency_limit"@ != "escalation_enabled"@,
        "frequency_limit"@ != "escalation_delay_minutes"@,
        "frequency_limit"@ != "active"@,
        "frequency_limit"@ != "created_at"@,
        "frequency_limit"@ != "updated_at"@,
        "digest_enabled"@ != "digest_frequency_hours"@,
        "digest_enabled"@ != "escalation_enabled"@,
        "digest_enabled"@ != "escalation_delay_minutes"@,
        "digest_enabled"@ != "active"@,
        "digest_enabled"@ != "created_at"@,
        "digest_enabled"@ != "updated_at"@,
        "digest_frequency_hours"@ != "escalation_enabled"@,
        "digest_frequency_hours"@ != "escalation_delay_minutes"@,
        "digest_frequency_hours"@ != "active"@,
        "digest_frequency_hours"@ != "created_at"@,
        "digest_frequency_hours"@ != "updated_at"@,
        "escalation_enabled"@ != "escalation_delay_minutes"@,
        "escalation_enabled"@ != "active"@,
        "escalation_enabled"@ != "created_at"@,
        "escalation_enabled"@ != "updated_at"@,
        "escalation_delay_minutes"@ != "active"@,
        "escalation_delay_minutes"@ != "created_at"@,
        "escalation_delay_minutes"@ != "updated_at"@,
        "active"@ != "created_at"@,
        "active"@ != "updated_at"@,
        "created_at"@ != "updated_at"@,
{
    broadcast use vstd::string::group_string_axioms;
    reveal_strlit("id");
    reveal_strlit("user_id");
    reveal_strlit("scope");
    reveal_strlit("scope_value");
    reveal_strlit("enabled");
    reveal_strlit("preferred_channels");
    reveal_strlit("blocked_channels");
    reveal_strlit("do_not_disturb");
    reveal_strlit("quiet_hours_start");
    reveal_strlit("quiet_hours_end");
    reveal_strlit("quiet_hours_timezone");
    reveal_strlit("min_severity_level");
    reveal_strlit("frequency_limit");
    reveal_strlit("digest_enabled");
    reveal_strlit("digest_frequency_hours");
    reveal_strlit("escalation_enabled");
    reveal_strlit("escalation_delay_minutes");
    reveal_strlit("active");
    reveal_strlit("created_at");
    reveal_strlit("updated_at");
    assert("id"@.len() == 2);
    assert("user_id"@.len() == 7);
    assert("scope"@.len() == 5);
    assert("scope_value"@.len() == 11);
    assert("enabled"@.len() == 7);
    assert("preferred_channels"@.len() == 18);
    assert("blocked_channels"@.len() == 16);
    assert("do_not_disturb"@.len() == 14);
    assert("quiet_hours_start"@.len() == 17);
    assert("quiet_hours_end"@.len() == 15);
    assert("quiet_hours_timezone"@.len() == 20);
    assert("min_severity_level"@.len() == 18);
    assert("frequency_limit"@.len() == 15);
    assert("digest_enabled"@.len() == 14);
    assert("digest_frequency_hours"@.len() == 22);
    assert("escalation_enabled"@.len() == 18);
    assert("escalation_delay_minutes"@.len() == 24);
    assert("active"@.len() == 6);
    assert("created_at"@.len() == 10);
    assert("updated_at"@.len() == 10);
    assert("user_id"@[0] != "enabled"@[0]);
    assert("preferred_channels"@[0] != "min_severity_level"@[0]);
    assert("preferred_channels"@[0] != "escalation_enabled"@[0]);
    assert("do_not_disturb"@[1] != "digest_enabled"@[1]);
    assert("quiet_hours_end"@[0] != "frequency_limit"@[0]);
    assert("min_severity_level"@[0] != "escalation_enabled"@[0]);
    assert("created_at"@[0] != "updated_at"@[0]);
}

proof fn lemma_table_keys_absent()
    ensures
        "notification_type"@ != "active"@,
        "notification_type"@ != "blocked_channels"@,
        "notification_type"@ != "created_at"@,
        "notification_type"@ != "digest_enabled"@,
        "notification_type"@ != "digest_frequency_hours"@,
        "notification_type"@ != "do_not_disturb"@,
        "notification_type"@ != "enabled"@,
        "notification_type"@ != "escalation_delay_minutes"@,
        "notification_type"@ != "escalation_enabled"@,
        "notification_type"@ != "frequency_limit"@,
        "notification_type"@ != "id"@,
        "notification_type"@ != "min_severity_level"@,
        "notification_type"@ != "preferred_channels"@,
        "notification_type"@ != "quiet_hours_end"@,
        "notification_type"@ != "quiet_hours_start"@,
        "notification_type"@ != "quiet_hours_timezone"@,
        "notification_type"@ != "scope"@,
        "notification_type"@ != "scope_value"@,
        "notification_type"@ != "updated_at"@,
        "notification_type"@ != "user_id"@,
{
    broadcast use vstd::string::group_string_axioms;
    reveal_strlit("notification_type");
    reveal_strlit("active");
    reveal_strlit("blocked_channels");
    reveal_strlit("created_at");
    reveal_strlit("digest_enabled");
    reveal_strlit("digest_frequency_hours");
    reveal_strlit("do_not_disturb");
    reveal_strlit("enabled");
    reveal_strlit("escalation_delay_minutes");
    reveal_strlit("escalation_enabled");
    reveal_strlit("frequency_limit");
    reveal_strlit("id");
    reveal_strlit("min_severity_level");
    reveal_strlit("preferred_channels");
    reveal_strlit("quiet_hours_end");
    reveal_strlit("quiet_hours_start");
    reveal_strlit("quiet_hours_timezone");
    reveal_strlit("scope");
    reveal_strlit("scope_value");
    reveal_strlit("updated_at");
    reveal_strlit("user_id");
    assert("notification_type"@.len() == 17);
    assert("active"@.len() == 6);
    assert("blocked_channels"@.len() == 16);
    assert("created_at"@.len() == 10);
    assert("digest_enabled"@.len() == 14);
    assert("digest_frequency_hours"@.len() == 22);
    assert("do_not_disturb"@.len() == 14);
    assert("enabled"@.len() == 7);
    assert("escalation_delay_minutes"@.len() == 24);
    assert("escalation_enabled"@.len() == 18);
    assert("frequency_limit"@.len() == 15);
    assert("id"@.len() == 2);
    assert("min_severity_level"@.len() == 18);
    assert("preferred_channels"@.len() == 18);
    assert("quiet_hours_end"@.len() == 15);
    assert("quiet_hours_start"@.len() == 17);
    assert("quiet_hours_timezone"@.len() == 20);
    assert("scope"@.len() == 5);
    assert("scope_value"@.len() == 11);
    assert("updated_at"@.len() == 10);
    assert("user_id"@.len() == 7);
    assert("notification_type"@.len() != "active"@.len());
    assert("notification_type"@.len() != "blocked_channels"@.len());
    assert("notification_type"@.len() != "created_at"@.len());
    assert("notification_type"@.len() != "digest_enabled"@.len());
    assert("notification_type"@.len() != "digest_frequency_hours"@.len());
    assert("notification_type"@.len() != "do_not_disturb"@.len());
    assert("notification_type"@.len() != "enabled"@.len());
    assert("notification_type"@.len() != "escalation_delay_minutes"@.len());
    assert("notification_type"@.len() != "escalation_enabled"@.len());
    assert("notification_type"@.len() != "frequency_limit"@.len());
    assert("notification_type"@.len() != "id"@.len());
    assert("notification_type"@.len() != "min_severity_level"@.len());
    assert("notification_type"@.len() != "preferred_channels"@.len());
    assert("notification_type"@.len() != "quiet_hours_end"@.len());
    assert("notification_type"@[0] != "quiet_hours_start"@[0]);
    assert("notification_type"@.len() != "quiet_hours_timezone"@.len());
    assert("notification_type"@.len() != "scope"@.len());
    assert("notification_type"@.len() != "scope_value"@.len());
    assert("notification_type"@.len() != "updated_at"@.len());
    assert("notification_type"@.len() != "user_id"@.len());
}

} // verus!
