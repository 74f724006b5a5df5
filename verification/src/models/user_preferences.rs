//! Users' display settings and their updates.
use vstd::prelude::*;

use crate::error::{is_validation_error, AppError};
use crate::fields::{
    bool_or, i32_or, opt_view, read_bool_or, read_i32_or, read_s, read_timestamp_or, timestamp_or,
    write_i32, write_timestamp,
};
use crate::item::{lookup, push_if, s_at, AttrView, Item, ItemView};
use crate::numeric::{lemma_parse_format_i32, spec_format_i32};
use crate::text::{is_blank, is_blank_spec, str_eq};
use crate::time::{chrono_format_datetime, chrono_parse_datetime, now, TimeOfDay, Timestamp};

use crate::json::{canonical_json, json_canonical, json_or_empty_object, read_json_or_empty_object};
use crate::ieee::{
    above, at_least, at_most, below, spec_above, spec_at_least, spec_at_most, spec_below,
};
use crate::text::join_text;

use crate::tables::{attr_fits, item_fits_table, spec_user_preferences_table};

verus! {

/// The colour themes.
#[derive(Clone, Copy, Debug, PartialEq, Eq, Structural, Hash)]
pub enum ThemeOptions {
    Light,
    Dark,
    Auto,
    HighContrast,
}

impl ThemeOptions {
    /// The text that stands for the variant in items and requests.
    pub open spec fn spec_str(self) -> Seq<char> {
        match self {
            ThemeOptions::Light => "light"@,
            ThemeOptions::Dark => "dark"@,
            ThemeOptions::Auto => "auto"@,
            ThemeOptions::HighContrast => "high_contrast"@,
        }
    }

    /// The variant that a text stands for, if any.
    pub open spec fn spec_parse(s: Seq<char>) -> Option<ThemeOptions> {
        if s == "light"@ {
            Some(ThemeOptions::Light)
        } else if s == "dark"@ {
            Some(ThemeOptions::Dark)
        } else if s == "auto"@ {
            Some(ThemeOptions::Auto)
        } else if s == "high_contrast"@ {
            Some(ThemeOptions::HighContrast)
        } else {
            None
        }
    }

    pub fn to_str(&self) -> (res: &'static str)
        ensures
            res@ == self.spec_str(),
    {
        match self {
            ThemeOptions::Light => "light",
            ThemeOptions::Dark => "dark",
            ThemeOptions::Auto => "auto",
            ThemeOptions::HighContrast => "high_contrast",
        }
    }

    pub fn to_string(&self) -> (res: String)
        ensures
            res@ == self.spec_str(),
    {
        self.to_str().to_owned()
    }

    /// Reads a variant from its text; any other text is refused with a `ValidationError`.
    pub fn from_string(s: &str) -> (res: Result<ThemeOptions, AppError>)
        ensures
            match ThemeOptions::spec_parse(s@) {
                Some(v) => res == Ok::<ThemeOptions, AppError>(v),
                None => res matches Err(AppError::ValidationError(m)) && m@ == "Invalid theme option"@,
            },
    {
        if str_eq(s, "light") {
            Ok(ThemeOptions::Light)
        } else if str_eq(s, "dark") {
            Ok(ThemeOptions::Dark)
        } else if str_eq(s, "auto") {
            Ok(ThemeOptions::Auto)
        } else if str_eq(s, "high_contrast") {
            Ok(ThemeOptions::HighContrast)
        } else {
            Err(AppError::ValidationError("Invalid theme option".to_owned()))
        }
    }

    /// Reading back the text of a variant gives the variant.
    pub proof fn lemma_parse_str(v: ThemeOptions)
        ensures
            ThemeOptions::spec_parse(v.spec_str()) == Some(v),
    {
        broadcast use vstd::string::group_string_axioms;
        reveal_strlit("light");
        reveal_strlit("dark");
        reveal_strlit("auto");
        reveal_strlit("high_contrast");
        assert("light"@.len() == 5);
        assert("dark"@.len() == 4);
        assert("auto"@.len() == 4);
        assert("high_contrast"@.len() == 13);
        assert("dark"@[0] != "auto"@[0]);
    }
}


/// The languages of the interface.
#[derive(Clone, Copy, Debug, PartialEq, Eq, Structural, Hash)]
pub enum LanguageOptions {
    English,
    Spanish,
    French,
    German,
    Portuguese,
    Chinese,
    Japanese,
}

impl LanguageOptions {
    /// The text that stands for the variant in items and requests.
    pub open spec fn spec_str(self) -> Seq<char> {
        match self {
            LanguageOptions::English => "en"@,
            LanguageOptions::Spanish => "es"@,
            LanguageOptions::French => "fr"@,
            LanguageOptions::German => "de"@,
            LanguageOptions::Portuguese => "pt"@,
            LanguageOptions::Chinese => "zh"@,
            LanguageOptions::Japanese => "ja"@,
        }
    }

    /// The variant that a text stands for, if any.
    pub open spec fn spec_parse(s: Seq<char>) -> Option<LanguageOptions> {
        if s == "en"@ {
            Some(LanguageOptions::English)
        } else if s == "es"@ {
            Some(LanguageOptions::Spanish)
        } else if s == "fr"@ {
            Some(LanguageOptions::French)
        } else if s == "de"@ {
            Some(LanguageOptions::German)
        } else if s == "pt"@ {
            Some(LanguageOptions::Portuguese)
        } else if s == "zh"@ {
            Some(LanguageOptions::Chinese)
        } else if s == "ja"@ {
            Some(LanguageOptions::Japanese)
        } else {
            None
        }
    }

    pub fn to_str(&self) -> (res: &'static str)
        ensures
            res@ == self.spec_str(),
    {
        match self {
            LanguageOptions::English => "en",
            LanguageOptions::Spanish => "es",
            LanguageOptions::French => "fr",
            LanguageOptions::German => "de",
            LanguageOptions::Portuguese => "pt",
            LanguageOptions::Chinese => "zh",
            LanguageOptions::Japanese => "ja",
        }
    }

    pub fn to_string(&self) -> (res: String)
        ensures
            res@ == self.spec_str(),
    {
        self.to_str().to_owned()
    }

    /// Reads a variant from its text; any other text is refused with a `ValidationError`.
    pub fn from_string(s: &str) -> (res: Result<LanguageOptions, AppError>)
        ensures
            match LanguageOptions::spec_parse(s@) {
                Some(v) => res == Ok::<LanguageOptions, AppError>(v),
                None => res matches Err(AppError::ValidationError(m)) && m@ == "Invalid language option"@,
            },
    {
        if str_eq(s, "en") {
            Ok(LanguageOptions::English)
        } else if str_eq(s, "es") {
            Ok(LanguageOptions::Spanish)
        } else if str_eq(s, "fr") {
            Ok(LanguageOptions::French)
        } else if str_eq(s, "de") {
            Ok(LanguageOptions::German)
        } else if str_eq(s, "pt") {
            Ok(LanguageOptions::Portuguese)
        } else if str_eq(s, "zh") {
            Ok(LanguageOptions::Chinese)
        } else if str_eq(s, "ja") {
            Ok(LanguageOptions::Japanese)
        } else {
            Err(AppError::ValidationError("Invalid language option".to_owned()))
        }
    }

    /// Reading back the text of a variant gives the variant.
    pub proof fn lemma_parse_str(v: LanguageOptions)
        ensures
            LanguageOptions::spec_parse(v.spec_str()) == Some(v),
    {
        broadcast use vstd::string::group_string_axioms;
        reveal_strlit("en");
        reveal_strlit("es");
        reveal_strlit("fr");
        reveal_strlit("de");
        reveal_strlit("pt");
        reveal_strlit("zh");
        reveal_strlit("ja");
        assert("en"@.len() == 2);
        assert("es"@.len() == 2);
        assert("fr"@.len() == 2);
        assert("de"@.len() == 2);
        assert("pt"@.len() == 2);
        assert("zh"@.len() == 2);
        assert("ja"@.len() == 2);
        assert("en"@[1] != "es"@[1]);
        assert("en"@[0] != "fr"@[0]);
        assert("en"@[0] != "de"@[0]);
        assert("en"@[0] != "pt"@[0]);
        assert("en"@[0] != "zh"@[0]);
        assert("en"@[0] != "ja"@[0]);
        assert("es"@[0] != "fr"@[0]);
        assert("es"@[0] != "de"@[0]);
        assert("es"@[0] != "pt"@[0]);
        assert("es"@[0] != "zh"@[0]);
        assert("es"@[0] != "ja"@[0]);
        assert("fr"@[0] != "de"@[0]);
        assert("fr"@[0] != "pt"@[0]);
        assert("fr"@[0] != "zh"@[0]);
        assert("fr"@[0] != "ja"@[0]);
        assert("de"@[0] != "pt"@[0]);
        assert("de"@[0] != "zh"@[0]);
        assert("de"@[0] != "ja"@[0]);
        assert("pt"@[0] != "zh"@[0]);
        assert("pt"@[0] != "ja"@[0]);
        assert("zh"@[0] != "ja"@[0]);
    }
}


/// How times of day are shown.
#[derive(Clone, Copy, Debug, PartialEq, Eq, Structural, Hash)]
pub enum TimezoneFormat {
    TwelveHour,
    TwentyFourHour,
}

impl TimezoneFormat {
    /// The text that stands for the variant in items and requests.
    pub open spec fn spec_str(self) -> Seq<char> {
        match self {
            TimezoneFormat::TwelveHour => "12h"@,
            TimezoneFormat::TwentyFourHour => "24h"@,
        }
    }

    /// The variant that a text stands for, if any.
    pub open spec fn spec_parse(s: Seq<char>) -> Option<TimezoneFormat> {
        if s == "12h"@ {
            Some(TimezoneFormat::TwelveHour)
        } else if s == "24h"@ {
            Some(TimezoneFormat::TwentyFourHour)
        } else {
            None
        }
    }

    pub fn to_str(&self) -> (res: &'static str)
        ensures
            res@ == self.spec_str(),
    {
        match self {
            TimezoneFormat::TwelveHour => "12h",
            TimezoneFormat::TwentyFourHour => "24h",
        }
    }

    pub fn to_string(&self) -> (res: String)
        ensures
            res@ == self.spec_str(),
    {
        self.to_str().to_owned()
    }

    /// Reads a variant from its text; any other text is refused with a `ValidationError`.
    pub fn from_string(s: &str) -> (res: Result<TimezoneFormat, AppError>)
        ensures
            match TimezoneFormat::spec_parse(s@) {
                Some(v) => res == Ok::<TimezoneFormat, AppError>(v),
                None => res matches Err(AppError::ValidationError(m)) && m@ == "Invalid timezone format"@,
            },
    {
        if str_eq(s, "12h") {
            Ok(TimezoneFormat::TwelveHour)
        } else if str_eq(s, "24h") {
            Ok(TimezoneFormat::TwentyFourHour)
        } else {
            Err(AppError::ValidationError("Invalid timezone format".to_owned()))
        }
    }

    /// Reading back the text of a variant gives the variant.
    pub proof fn lemma_parse_str(v: TimezoneFormat)
        ensures
            TimezoneFormat::spec_parse(v.spec_str()) == Some(v),
    {
        broadcast use vstd::string::group_string_axioms;
        reveal_strlit("12h");
        reveal_strlit("24h");
        assert("12h"@.len() == 3);
        assert("24h"@.len() == 3);
        assert("12h"@[0] != "24h"@[0]);
    }
}



/// The bit pattern of `0.5`.
pub const HALF_BITS: u64 = 0x3FE0_0000_0000_0000;

/// The bit pattern of `1.0`.
pub const ONE_BITS: u64 = 0x3FF0_0000_0000_0000;

/// The bit pattern of `3.0`.
pub const THREE_BITS: u64 = 0x4008_0000_0000_0000;

/// The dashboard that preferences start with, as `serde_json` writes it.
pub const DEFAULT_DASHBOARD: &'static str = "{\"layout\":\"grid\",\"widgets\":[{\"position\":{\"h\":4,\"w\":6,\"x\":0,\"y\":0},\"type\":\"asset_summary\"},{\"position\":{\"h\":4,\"w\":6,\"x\":6,\"y\":0},\"type\":\"maintenance_schedule\"},{\"position\":{\"h\":3,\"w\":12,\"x\":0,\"y\":4},\"type\":\"recent_notifications\"}]}";

/// One update of the preferences: the key, and the readings of its JSON value
/// that the updates use (`as_str`, `as_i64`, `as_f64` as a bit pattern, and
/// the value's own text).
#[derive(Clone, Debug)]
pub struct PreferenceUpdate {
    pub key: String,
    pub text: Option<String>,
    pub integer: Option<i64>,
    pub number: Option<u64>,
    pub json: String,
}

/// `n` cut to its low 32 bits as an `i32` (`n as i32`).
pub open spec fn wrap_i32(n: int) -> i32 {
    let r = n % 0x1_0000_0000;
    if r >= 0x8000_0000 { (r - 0x1_0000_0000) as i32 } else { r as i32 }
}

/// `n as i32` for a non-negative `n`.
pub fn wrapping_to_i32(n: i64) -> (res: i32)
    requires
        n >= 0,
    ensures
        res == wrap_i32(n as int),
{
    let r = n % 0x1_0000_0000;
    if r >= 0x8000_0000 {
        (r - 0x1_0000_0000) as i32
    } else {
        r as i32
    }
}

/// A user's display and notification settings.
#[derive(Clone, Debug)]
pub struct UserPreferences {
    pub id: String,
    pub user_id: String,
    pub language: LanguageOptions,
    pub theme: ThemeOptions,
    pub timezone: String,
    pub time_format: TimezoneFormat,
    pub date_format: String,
    pub dashboard_layout: String,
    pub email_notifications_enabled: bool,
    pub mobile_notifications_enabled: bool,
    pub desktop_notifications_enabled: bool,
    pub default_location_id: Option<String>,
    pub auto_refresh_interval: i32,
    pub accessibility_enabled: bool,
    pub high_contrast_mode: bool,
    /// The font size multiplier, as the bit pattern of an `f64` (`f64::to_bits`).
    pub font_size_multiplier: u64,
    pub sidebar_collapsed: bool,
    pub show_tooltips: bool,
    pub default_page_size: i32,
    pub custom_shortcuts: Option<String>,
    pub created_at: Timestamp,
    pub updated_at: Timestamp,
}

impl UserPreferences {
    /// The instants are ones that `chrono` represents.
    pub open spec fn wf(&self) -> bool {
        &&& self.created_at.valid()
        &&& self.updated_at.valid()
    }

    /// Whether an item holds what this entity needs to be read from it.
    pub open spec fn item_readable(iv: ItemView) -> bool {
        &&& s_at(iv, "id"@) is Some
        &&& s_at(iv, "user_id"@) is Some
        &&& s_at(iv, "language"@) matches Some(c) && LanguageOptions::spec_parse(c) is Some
        &&& s_at(iv, "theme"@) matches Some(c) && ThemeOptions::spec_parse(c) is Some
        &&& s_at(iv, "timezone"@) is Some
        &&& s_at(iv, "time_format"@) matches Some(c) && TimezoneFormat::spec_parse(c) is Some
        &&& s_at(iv, "date_format"@) is Some
    }

    /// Whether this entity is what is read from an item, where instants that
    /// cannot be read are taken to be `now`.
    pub open spec fn read_from(&self, iv: ItemView, now: Timestamp) -> bool {
        &&& Some(self.id@) == s_at(iv, "id"@)
        &&& Some(self.user_id@) == s_at(iv, "user_id"@)
        &&& Some(self.language) == LanguageOptions::spec_parse(s_at(iv, "language"@)->0)
        &&& Some(self.theme) == ThemeOptions::spec_parse(s_at(iv, "theme"@)->0)
        &&& Some(self.timezone@) == s_at(iv, "timezone"@)
        &&& Some(self.time_format) == TimezoneFormat::spec_parse(s_at(iv, "time_format"@)->0)
        &&& Some(self.date_format@) == s_at(iv, "date_format"@)
        &&& self.dashboard_layout@ == json_or_empty_object(s_at(iv, "dashboard_layout"@))
        &&& self.email_notifications_enabled == bool_or(iv, "email_notifications_enabled"@, true)
        &&& self.mobile_notifications_enabled == bool_or(iv, "mobile_notifications_enabled"@, true)
        &&& self.desktop_notifications_enabled == bool_or(iv, "desktop_notifications_enabled"@, true)
        &&& opt_view(self.default_location_id) == s_at(iv, "default_location_id"@)
        &&& self.auto_refresh_interval == i32_or(iv, "auto_refresh_interval"@, 30)
        &&& self.accessibility_enabled == bool_or(iv, "accessibility_enabled"@, false)
        &&& self.high_contrast_mode == bool_or(iv, "high_contrast_mode"@, false)
        &&& self.sidebar_collapsed == bool_or(iv, "sidebar_collapsed"@, false)
        &&& self.show_tooltips == bool_or(iv, "show_tooltips"@, true)
        &&& self.default_page_size == i32_or(iv, "default_page_size"@, 25)
        &&& opt_view(self.custom_shortcuts) == (match s_at(iv, "custom_shortcuts"@) { Some(s) => json_canonical(s), None => None })
        &&& self.created_at == timestamp_or(iv, "created_at"@, now)
        &&& self.updated_at == timestamp_or(iv, "updated_at"@, now)
    }

    /// The entries that `to_item` writes for id, user_id, language, theme, timezone, time_format, date_format, dashboard_layout, email_notifications_enabled, mobile_notifications_enabled, desktop_notifications_enabled, default_location_id, after those of `iv`.
    pub open spec fn spec_item_part1(&self, iv: ItemView) -> ItemView {
        let iv = iv.push(("id"@, AttrView::S(self.id@)));
        let iv = iv.push(("user_id"@, AttrView::S(self.user_id@)));
        let iv = iv.push(("language"@, AttrView::S(self.language.spec_str())));
        let iv = iv.push(("theme"@, AttrView::S(self.theme.spec_str())));
        let iv = iv.push(("timezone"@, AttrView::S(self.timezone@)));
        let iv = iv.push(("time_format"@, AttrView::S(self.time_format.spec_str())));
        let iv = iv.push(("date_format"@, AttrView::S(self.date_format@)));
        let iv = iv.push(("dashboard_layout"@, AttrView::S(self.dashboard_layout@)));
        let iv = iv.push(("email_notifications_enabled"@, AttrView::Bool(self.email_notifications_enabled)));
        let iv = iv.push(("mobile_notifications_enabled"@, AttrView::Bool(self.mobile_notifications_enabled)));
        let iv = iv.push(("desktop_notifications_enabled"@, AttrView::Bool(self.desktop_notifications_enabled)));
        let iv = push_if(iv, self.default_location_id is Some, ("default_location_id"@, AttrView::S(self.default_location_id->0@)));
        iv
    }

    /// The entries that `to_item` writes for auto_refresh_interval, accessibility_enabled, high_contrast_mode, sidebar_collapsed, show_tooltips, default_page_size, custom_shortcuts, created_at, updated_at, after those of `iv`.
    pub open spec fn spec_item_part2(&self, iv: ItemView) -> ItemView {
        let iv = iv.push(("auto_refresh_interval"@, AttrView::N(spec_format_i32(self.auto_refresh_interval))));
        let iv = iv.push(("accessibility_enabled"@, AttrView::Bool(self.accessibility_enabled)));
        let iv = iv.push(("high_contrast_mode"@, AttrView::Bool(self.high_contrast_mode)));
        let iv = iv.push(("sidebar_collapsed"@, AttrView::Bool(self.sidebar_collapsed)));
        let iv = iv.push(("show_tooltips"@, AttrView::Bool(self.show_tooltips)));
        let iv = iv.push(("default_page_size"@, AttrView::N(spec_format_i32(self.default_page_size))));
        let iv = push_if(iv, self.custom_shortcuts is Some, ("custom_shortcuts"@, AttrView::S(self.custom_shortcuts->0@)));
        let iv = iv.push(("created_at"@, AttrView::S(chrono_format_datetime(self.created_at))));
        let iv = iv.push(("updated_at"@, AttrView::S(chrono_format_datetime(self.updated_at))));
        iv
    }

    /// The item that `to_item` writes.
    pub open spec fn spec_item(&self) -> ItemView {
        self.spec_item_part2(self.spec_item_part1(Seq::empty()))
    }

    /// Whether two entities hold the same values.
    pub open spec fn same_as(&self, other: &UserPreferences) -> bool {
        &&& self.id@ == other.id@
        &&& self.user_id@ == other.user_id@
        &&& self.language == other.language
        &&& self.theme == other.theme
        &&& self.timezone@ == other.timezone@
        &&& self.time_format == other.time_format
        &&& self.date_format@ == other.date_format@
        &&& self.dashboard_layout@ == other.dashboard_layout@
        &&& self.email_notifications_enabled == other.email_notifications_enabled
        &&& self.mobile_notifications_enabled == other.mobile_notifications_enabled
        &&& self.desktop_notifications_enabled == other.desktop_notifications_enabled
        &&& opt_view(self.default_location_id) == opt_view(other.default_location_id)
        &&& self.auto_refresh_interval == other.auto_refresh_interval
        &&& self.accessibility_enabled == other.accessibility_enabled
        &&& self.high_contrast_mode == other.high_contrast_mode
        &&& self.sidebar_collapsed == other.sidebar_collapsed
        &&& self.show_tooltips == other.show_tooltips
        &&& self.default_page_size == other.default_page_size
        &&& opt_view(self.custom_shortcuts) == opt_view(other.custom_shortcuts)
        &&& self.created_at == other.created_at
        &&& self.updated_at == other.updated_at
    }

    /// Reads the entity from an item, taking `now` for instants that are missing.
    pub fn from_item_at(item: &Item, now: Timestamp, font_size_multiplier: u64) -> (res: Option<Self>)
        requires
            now.valid(),
        ensures
            res is Some <==> Self::item_readable(item@),
            res matches Some(e) ==> e.read_from(item@, now) && e.wf() && e.font_size_multiplier == font_size_multiplier,
    {
        let id = read_s(item, "id")?;
        let user_id = read_s(item, "user_id")?;
        let language_text = item.get_s("language")?;
        let language = LanguageOptions::from_string(language_text.as_str()).ok()?;
        let theme_text = item.get_s("theme")?;
        let theme = ThemeOptions::from_string(theme_text.as_str()).ok()?;
        let timezone = read_s(item, "timezone")?;
        let time_format_text = item.get_s("time_format")?;
        let time_format = TimezoneFormat::from_string(time_format_text.as_str()).ok()?;
        let date_format = read_s(item, "date_format")?;
        let dashboard_layout = read_json_or_empty_object(item, "dashboard_layout");
        let email_notifications_enabled = read_bool_or(item, "email_notifications_enabled", true);
        let mobile_notifications_enabled = read_bool_or(item, "mobile_notifications_enabled", true);
        let desktop_notifications_enabled = read_bool_or(item, "desktop_notifications_enabled", true);
        let default_location_id = read_s(item, "default_location_id");
        let auto_refresh_interval = read_i32_or(item, "auto_refresh_interval", 30);
        let accessibility_enabled = read_bool_or(item, "accessibility_enabled", false);
        let high_contrast_mode = read_bool_or(item, "high_contrast_mode", false);
        let sidebar_collapsed = read_bool_or(item, "sidebar_collapsed", false);
        let show_tooltips = read_bool_or(item, "show_tooltips", true);
        let default_page_size = read_i32_or(item, "default_page_size", 25);
        let custom_shortcuts = match item.get_s("custom_shortcuts") {
            Some(t) => canonical_json(t.as_str()),
            None => None,
        };
        let created_at = read_timestamp_or(item, "created_at", now);
        let updated_at = read_timestamp_or(item, "updated_at", now);
        Some(UserPreferences {
            id,
            user_id,
            language,
            theme,
            timezone,
            time_format,
            date_format,
            dashboard_layout,
            email_notifications_enabled,
            mobile_notifications_enabled,
            desktop_notifications_enabled,
            default_location_id,
            auto_refresh_interval,
            accessibility_enabled,
            high_contrast_mode,
            font_size_multiplier,
            sidebar_collapsed,
            show_tooltips,
            default_page_size,
            custom_shortcuts,
            created_at,
            updated_at,
        })
    }

    /// Reads the entity from an item; instants that are missing are read from the clock.
    pub fn from_item(item: &Item, font_size_multiplier: u64) -> (res: Option<Self>)
        ensures
            res is Some <==> Self::item_readable(item@),
            res matches Some(e) ==> e.wf() && e.font_size_multiplier == font_size_multiplier && exists|t: Timestamp| t.valid() && e.read_from(item@, t),
    {
        let t = now();
        Self::from_item_at(item, t, font_size_multiplier)
    }

    fn write_part1(&self, item: &mut Item)
        requires
            self.wf(),
        ensures
            final(item)@ == self.spec_item_part1(old(item)@),
    {
        reveal(push_if);
        let ghost mut iv: ItemView = old(item)@;
        item.insert_s("id", self.id.clone());
        proof { iv = iv.push(("id"@, AttrView::S(self.id@))); }
        assert(item@ == iv);
        item.insert_s("user_id", self.user_id.clone());
        proof { iv = iv.push(("user_id"@, AttrView::S(self.user_id@))); }
        assert(item@ == iv);
        item.insert_s("language", self.language.to_string());
        proof { iv = iv.push(("language"@, AttrView::S(self.language.spec_str()))); }
        assert(item@ == iv);
        item.insert_s("theme", self.theme.to_string());
        proof { iv = iv.push(("theme"@, AttrView::S(self.theme.spec_str()))); }
        assert(item@ == iv);
        item.insert_s("timezone", self.timezone.clone());
        proof { iv = iv.push(("timezone"@, AttrView::S(self.timezone@))); }
        assert(item@ == iv);
        item.insert_s("time_format", self.time_format.to_string());
        proof { iv = iv.push(("time_format"@, AttrView::S(self.time_format.spec_str()))); }
        assert(item@ == iv);
        item.insert_s("date_format", self.date_format.clone());
        proof { iv = iv.push(("date_format"@, AttrView::S(self.date_format@))); }
        assert(item@ == iv);
        item.insert_s("dashboard_layout", self.dashboard_layout.clone());
        proof { iv = iv.push(("dashboard_layout"@, AttrView::S(self.dashboard_layout@))); }
        assert(item@ == iv);
        item.insert_bool("email_notifications_enabled", self.email_notifications_enabled);
        proof { iv = iv.push(("email_notifications_enabled"@, AttrView::Bool(self.email_notifications_enabled))); }
        assert(item@ == iv);
        item.insert_bool("mobile_notifications_enabled", self.mobile_notifications_enabled);
        proof { iv = iv.push(("mobile_notifications_enabled"@, AttrView::Bool(self.mobile_notifications_enabled))); }
        assert(item@ == iv);
        item.insert_bool("desktop_notifications_enabled", self.desktop_notifications_enabled);
        proof { iv = iv.push(("desktop_notifications_enabled"@, AttrView::Bool(self.desktop_notifications_enabled))); }
        assert(item@ == iv);
        if let Some(x) = &self.default_location_id {
            item.insert_s("default_location_id", x.clone());
        }
        proof { iv = push_if(iv, self.default_location_id is Some, ("default_location_id"@, AttrView::S(self.default_location_id->0@))); }
        assert(item@ == iv);
    }

    fn write_part2(&self, item: &mut Item)
        requires
            self.wf(),
        ensures
            final(item)@ == self.spec_item_part2(old(item)@),
            chrono_parse_datetime(chrono_format_datetime(self.created_at)) == Some(self.created_at),
            chrono_parse_datetime(chrono_format_datetime(self.updated_at)) == Some(self.updated_at),
    {
        reveal(push_if);
        let ghost mut iv: ItemView = old(item)@;
        write_i32(item, "auto_refresh_interval", self.auto_refresh_interval);
        proof { iv = iv.push(("auto_refresh_interval"@, AttrView::N(spec_format_i32(self.auto_refresh_interval)))); }
        assert(item@ == iv);
        item.insert_bool("accessibility_enabled", self.accessibility_enabled);
        proof { iv = iv.push(("accessibility_enabled"@, AttrView::Bool(self.accessibility_enabled))); }
        assert(item@ == iv);
        item.insert_bool("high_contrast_mode", self.high_contrast_mode);
        proof { iv = iv.push(("high_contrast_mode"@, AttrView::Bool(self.high_contrast_mode))); }
        assert(item@ == iv);
        item.insert_bool("sidebar_collapsed", self.sidebar_collapsed);
        proof { iv = iv.push(("sidebar_collapsed"@, AttrView::Bool(self.sidebar_collapsed))); }
        assert(item@ == iv);
        item.insert_bool("show_tooltips", self.show_tooltips);
        proof { iv = iv.push(("show_tooltips"@, AttrView::Bool(self.show_tooltips))); }
        assert(item@ == iv);
        write_i32(item, "default_page_size", self.default_page_size);
        proof { iv = iv.push(("default_page_size"@, AttrView::N(spec_format_i32(self.default_page_size)))); }
        assert(item@ == iv);
        if let Some(x) = &self.custom_shortcuts {
            item.insert_s("custom_shortcuts", x.clone());
        }
        proof { iv = push_if(iv, self.custom_shortcuts is Some, ("custom_shortcuts"@, AttrView::S(self.custom_shortcuts->0@))); }
        assert(item@ == iv);
        write_timestamp(item, "created_at", &self.created_at);
        proof { iv = iv.push(("created_at"@, AttrView::S(chrono_format_datetime(self.created_at)))); }
        assert(item@ == iv);
        write_timestamp(item, "updated_at", &self.updated_at);
        proof { iv = iv.push(("updated_at"@, AttrView::S(chrono_format_datetime(self.updated_at)))); }
        assert(item@ == iv);
    }

    /// What reading the entity back from its item needs beyond well-formedness:
    /// each JSON text it holds is already in the form `serde_json` writes, the
    /// form that reading the item gives.
    pub open spec fn readback_conditions(&self) -> bool {
        &&& json_canonical(self.dashboard_layout@) == Some(self.dashboard_layout@)
        &&& self.custom_shortcuts matches Some(j) ==> json_canonical(j@) == Some(j@)
    }

    /// Writes the entity as an item.
    pub fn to_item(&self) -> (res: Item)
        requires
            self.wf(),
        ensures
            res@ == self.spec_item(),
            self.readback_conditions() ==> Self::item_readable(res@),
            self.readback_conditions() ==> forall|b: UserPreferences, now: Timestamp| #[trigger] b.read_from(res@, now) ==> b.same_as(self),
    {
        let mut item = Item::new();
        self.write_part1(&mut item);
        self.write_part2(&mut item);
        proof {
            if self.readback_conditions() {
                Self::lemma_item_roundtrip(self, self, Timestamp { secs: 0, nanos: 0 });
                assert forall|b: UserPreferences, now: Timestamp| #[trigger] b.read_from(item@, now) implies b.same_as(self) by {
                    Self::lemma_item_roundtrip(self, &b, now);
                }
            }
        }
        item
    }

    proof fn lemma_part1_values(&self, iv: ItemView)
        ensures
            lookup(self.spec_item_part1(iv), "id"@) == Some(AttrView::S(self.id@)),
            lookup(self.spec_item_part1(iv), "user_id"@) == Some(AttrView::S(self.user_id@)),
            lookup(self.spec_item_part1(iv), "language"@) == Some(AttrView::S(self.language.spec_str())),
            lookup(self.spec_item_part1(iv), "theme"@) == Some(AttrView::S(self.theme.spec_str())),
            lookup(self.spec_item_part1(iv), "timezone"@) == Some(AttrView::S(self.timezone@)),
            lookup(self.spec_item_part1(iv), "time_format"@) == Some(AttrView::S(self.time_format.spec_str())),
            lookup(self.spec_item_part1(iv), "date_format"@) == Some(AttrView::S(self.date_format@)),
            lookup(self.spec_item_part1(iv), "dashboard_layout"@) == Some(AttrView::S(self.dashboard_layout@)),
            lookup(self.spec_item_part1(iv), "email_notifications_enabled"@) == Some(AttrView::Bool(self.email_notifications_enabled)),
            lookup(self.spec_item_part1(iv), "mobile_notifications_enabled"@) == Some(AttrView::Bool(self.mobile_notifications_enabled)),
            lookup(self.spec_item_part1(iv), "desktop_notifications_enabled"@) == Some(AttrView::Bool(self.desktop_notifications_enabled)),
            lookup(self.spec_item_part1(iv), "default_location_id"@) == (if self.default_location_id is Some { Some(AttrView::S(self.default_location_id->0@)) } else { lookup(iv, "default_location_id"@) }),
    {
        broadcast use crate::item::lemma_lookup_push, crate::item::lemma_lookup_push_if;
        lemma_keys_distinct();
    }

    proof fn lemma_part1_frame(&self, iv: ItemView, k: Seq<char>)
        requires
            k != "id"@,
            k != "user_id"@,
            k != "language"@,
            k != "theme"@,
            k != "timezone"@,
            k != "time_format"@,
            k != "date_format"@,
            k != "dashboard_layout"@,
            k != "email_notifications_enabled"@,
            k != "mobile_notifications_enabled"@,
            k != "desktop_notifications_enabled"@,
            k != "default_location_id"@,
        ensures
            lookup(self.spec_item_part1(iv), k) == lookup(iv, k),
    {
        broadcast use crate::item::lemma_lookup_push, crate::item::lemma_lookup_push_if;
    }

    proof fn lemma_part2_values(&self, iv: ItemView)
        ensures
            lookup(self.spec_item_part2(iv), "auto_refresh_interval"@) == Some(AttrView::N(spec_format_i32(self.auto_refresh_interval))),
            lookup(self.spec_item_part2(iv), "accessibility_enabled"@) == Some(AttrView::Bool(self.accessibility_enabled)),
            lookup(self.spec_item_part2(iv), "high_contrast_mode"@) == Some(AttrView::Bool(self.high_contrast_mode)),
            lookup(self.spec_item_part2(iv), "sidebar_collapsed"@) == Some(AttrView::Bool(self.sidebar_collapsed)),
            lookup(self.spec_item_part2(iv), "show_tooltips"@) == Some(AttrView::Bool(self.show_tooltips)),
            lookup(self.spec_item_part2(iv), "default_page_size"@) == Some(AttrView::N(spec_format_i32(self.default_page_size))),
            lookup(self.spec_item_part2(iv), "custom_shortcuts"@) == (if self.custom_shortcuts is Some { Some(AttrView::S(self.custom_shortcuts->0@)) } else { lookup(iv, "custom_shortcuts"@) }),
            lookup(self.spec_item_part2(iv), "created_at"@) == Some(AttrView::S(chrono_format_datetime(self.created_at))),
            lookup(self.spec_item_part2(iv), "updated_at"@) == Some(AttrView::S(chrono_format_datetime(self.updated_at))),
    {
        broadcast use crate::item::lemma_lookup_push, crate::item::lemma_lookup_push_if;
        lemma_keys_distinct();
    }

    proof fn lemma_part2_frame(&self, iv: ItemView, k: Seq<char>)
        requires
            k != "auto_refresh_interval"@,
            k != "accessibility_enabled"@,
            k != "high_contrast_mode"@,
            k != "sidebar_collapsed"@,
            k != "show_tooltips"@,
            k != "default_page_size"@,
            k != "custom_shortcuts"@,
            k != "created_at"@,
            k != "updated_at"@,
        ensures
            lookup(self.spec_item_part2(iv), k) == lookup(iv, k),
    {
        broadcast use crate::item::lemma_lookup_push, crate::item::lemma_lookup_push_if;
    }

    /// Every attribute the `UserPreferences` table defines holds, in the item the entity is
    /// written as, nothing or a value of the type the table gives it, so
    /// DynamoDB accepts the item.
    pub proof fn lemma_item_fits_table(a: &UserPreferences)
        ensures
            item_fits_table(a.spec_item(), spec_user_preferences_table()),
    {
        lemma_keys_distinct();
        let e: ItemView = Seq::empty();
        let p1 = a.spec_item_part1(e);
        let p2 = a.spec_item_part2(p1);
        assert(a.spec_item() == p2);
        a.lemma_part1_values(e);
        a.lemma_part2_values(p1);
        a.lemma_part2_frame(p1, "user_id"@);
        let t = spec_user_preferences_table();
        assert forall|i: int| 0 <= i < t.attributes.len() implies match #[trigger] crate::item::lookup(a.spec_item(), t.attributes[i].0) {
            Some(v) => attr_fits(t.attributes[i].1, v),
            None => true,
        } by {
            if i == 0 { assert(t.attributes[0].0 == "user_id"@); }
        }
    }

    /// Reading the entity back from the item it is written as gives the same
    /// entity, where `chrono` reads back the text of its instants.
    #[verifier::rlimit(100)]
    pub proof fn lemma_item_roundtrip(a: &UserPreferences, b: &UserPreferences, now: Timestamp)
        requires
            a.wf(),
            json_canonical(a.dashboard_layout@) == Some(a.dashboard_layout@),
            a.custom_shortcuts matches Some(j) ==> json_canonical(j@) == Some(j@),
            chrono_parse_datetime(chrono_format_datetime(a.created_at)) == Some(a.created_at),
            chrono_parse_datetime(chrono_format_datetime(a.updated_at)) == Some(a.updated_at),
        ensures
            Self::item_readable(a.spec_item()),
            b.read_from(a.spec_item(), now) ==> b.same_as(a),
    {
        lemma_keys_distinct();
        let e: ItemView = Seq::empty();
        let p1 = a.spec_item_part1(e);
        let p2 = a.spec_item_part2(p1);
        assert(a.spec_item() == p2);
        a.lemma_part1_values(e);
        a.lemma_part2_values(p1);
        a.lemma_part2_frame(p1, "id"@);
        a.lemma_part2_frame(p1, "user_id"@);
        a.lemma_part2_frame(p1, "language"@);
        a.lemma_part2_frame(p1, "theme"@);
        a.lemma_part2_frame(p1, "timezone"@);
        a.lemma_part2_frame(p1, "time_format"@);
        a.lemma_part2_frame(p1, "date_format"@);
        a.lemma_part2_frame(p1, "dashboard_layout"@);
        a.lemma_part2_frame(p1, "email_notifications_enabled"@);
        a.lemma_part2_frame(p1, "mobile_notifications_enabled"@);
        a.lemma_part2_frame(p1, "desktop_notifications_enabled"@);
        a.lemma_part2_frame(p1, "default_location_id"@);
        a.lemma_part1_frame(e, "auto_refresh_interval"@);
        a.lemma_part1_frame(e, "accessibility_enabled"@);
        a.lemma_part1_frame(e, "high_contrast_mode"@);
        a.lemma_part1_frame(e, "sidebar_collapsed"@);
        a.lemma_part1_frame(e, "show_tooltips"@);
        a.lemma_part1_frame(e, "default_page_size"@);
        a.lemma_part1_frame(e, "custom_shortcuts"@);
        a.lemma_part1_frame(e, "created_at"@);
        a.lemma_part1_frame(e, "updated_at"@);
        LanguageOptions::lemma_parse_str(a.language);
        ThemeOptions::lemma_parse_str(a.theme);
        TimezoneFormat::lemma_parse_str(a.time_format);
        lemma_parse_format_i32(a.auto_refresh_interval);
        lemma_parse_format_i32(a.default_page_size);
    }

    /// Which check, if any, the arguments of `new` fail, in the order they are made.
    pub open spec fn spec_new_error(
        user_id: Seq<char>,
        language: Seq<char>,
        theme: Seq<char>,
        time_format: Seq<char>,
        auto_refresh_interval: i32,
        font_size_multiplier: u64,
        default_page_size: i32,
    ) -> Option<Seq<char>> {
        if is_blank_spec(user_id) {
            Some("User ID cannot be empty"@)
        } else if LanguageOptions::spec_parse(language) is None {
            Some("Invalid language option"@)
        } else if ThemeOptions::spec_parse(theme) is None {
            Some("Invalid theme option"@)
        } else if TimezoneFormat::spec_parse(time_format) is None {
            Some("Invalid timezone format"@)
        } else if spec_below(font_size_multiplier, HALF_BITS) || spec_above(font_size_multiplier, THREE_BITS) {
            Some("Font size multiplier must be between 0.5 and 3.0"@)
        } else if default_page_size < 5 || default_page_size > 500 {
            Some("Default page size must be between 5 and 500"@)
        } else if auto_refresh_interval < 0 {
            Some("Auto refresh interval cannot be negative"@)
        } else {
            None
        }
    }

    /// Creates a user's preferences. The multiplier is the bit pattern of an
    /// `f64`; the dashboard layout and shortcuts are JSON texts.
    pub fn new(
        id: String,
        user_id: String,
        language: String,
        theme: String,
        timezone: String,
        time_format: String,
        date_format: String,
        dashboard_layout: String,
        email_notifications_enabled: bool,
        mobile_notifications_enabled: bool,
        desktop_notifications_enabled: bool,
        default_location_id: Option<String>,
        auto_refresh_interval: i32,
        accessibility_enabled: bool,
        high_contrast_mode: bool,
        font_size_multiplier: u64,
        sidebar_collapsed: bool,
        show_tooltips: bool,
        default_page_size: i32,
        custom_shortcuts: Option<String>,
    ) -> (res: Result<Self, AppError>)
        ensures
            match Self::spec_new_error(user_id@, language@, theme@, time_format@, auto_refresh_interval,
                font_size_multiplier, default_page_size) {
                Some(m) => is_validation_error(res, m),
                None => res matches Ok(p) && {
                    &&& p.id == id && p.user_id == user_id
                    &&& Some(p.language) == LanguageOptions::spec_parse(language@)
                    &&& Some(p.theme) == ThemeOptions::spec_parse(theme@)
                    &&& p.timezone == timezone
                    &&& Some(p.time_format) == TimezoneFormat::spec_parse(time_format@)
                    &&& p.date_format == date_format && p.dashboard_layout == dashboard_layout
                    &&& p.email_notifications_enabled == email_notifications_enabled
                    &&& p.mobile_notifications_enabled == mobile_notifications_enabled
                    &&& p.desktop_notifications_enabled == desktop_notifications_enabled
                    &&& p.default_location_id == default_location_id
                    &&& p.auto_refresh_interval == auto_refresh_interval
                    &&& p.accessibility_enabled == accessibility_enabled && p.high_contrast_mode == high_contrast_mode
                    &&& p.font_size_multiplier == font_size_multiplier && p.sidebar_collapsed == sidebar_collapsed
                    &&& p.show_tooltips == show_tooltips && p.default_page_size == default_page_size
                    &&& p.custom_shortcuts == custom_shortcuts
                    &&& p.created_at == p.updated_at && p.created_at.valid()
                },
            },
            res matches Ok(x) ==> (x.readback_conditions() <==> (json_canonical(dashboard_layout@) == Some(dashboard_layout@) && (custom_shortcuts matches Some(j) ==> json_canonical(j@) == Some(j@)))),
    {
        let now = now();
        if is_blank(user_id.as_str()) {
            return Err(AppError::ValidationError("User ID cannot be empty".to_owned()));
        }
        let language_enum = LanguageOptions::from_string(language.as_str())?;
        let theme_enum = ThemeOptions::from_string(theme.as_str())?;
        let time_format_enum = TimezoneFormat::from_string(time_format.as_str())?;
        if below(font_size_multiplier, HALF_BITS) || above(font_size_multiplier, THREE_BITS) {
            return Err(AppError::ValidationError("Font size multiplier must be between 0.5 and 3.0".to_owned()));
        }
        if default_page_size < 5 || default_page_size > 500 {
            return Err(AppError::ValidationError("Default page size must be between 5 and 500".to_owned()));
        }
        if auto_refresh_interval < 0 {
            return Err(AppError::ValidationError("Auto refresh interval cannot be negative".to_owned()));
        }
        Ok(UserPreferences {
            id,
            user_id,
            language: language_enum,
            theme: theme_enum,
            timezone,
            time_format: time_format_enum,
            date_format,
            dashboard_layout,
            email_notifications_enabled,
            mobile_notifications_enabled,
            desktop_notifications_enabled,
            default_location_id,
            auto_refresh_interval,
            accessibility_enabled,
            high_contrast_mode,
            font_size_multiplier,
            sidebar_collapsed,
            show_tooltips,
            default_page_size,
            custom_shortcuts,
            created_at: now,
            updated_at: now,
        })
    }

    /// The preferences a user starts with: English, automatic theme, UTC,
    /// twelve-hour time, the standard dashboard, and the usual sizes.
    pub fn create_default(user_id: String) -> (res: Result<Self, AppError>)
        ensures
            is_blank_spec(user_id@) ==> is_validation_error(res, "User ID cannot be empty"@),
            !is_blank_spec(user_id@) ==> (res matches Ok(p) && {
                &&& p.id@ == "pref_"@ + user_id@ && p.user_id == user_id
                &&& p.language == LanguageOptions::English && p.theme == ThemeOptions::Auto
                &&& p.timezone@ == "UTC"@ && p.time_format == TimezoneFormat::TwelveHour
                &&& p.date_format@ == "MM/DD/YYYY"@ && p.dashboard_layout@ == DEFAULT_DASHBOARD@
                &&& p.email_notifications_enabled && p.mobile_notifications_enabled
                &&& p.desktop_notifications_enabled && p.default_location_id is None
                &&& p.auto_refresh_interval == 30 && !p.accessibility_enabled && !p.high_contrast_mode
                &&& p.font_size_multiplier == ONE_BITS && !p.sidebar_collapsed && p.show_tooltips
                &&& p.default_page_size == 25 && p.custom_shortcuts is None
                &&& p.created_at == p.updated_at && p.created_at.valid()
            }),
    {
        proof {
            reveal_strlit("en");
            reveal_strlit("auto");
            reveal_strlit("12h");
            LanguageOptions::lemma_parse_str(LanguageOptions::English);
            ThemeOptions::lemma_parse_str(ThemeOptions::Auto);
            TimezoneFormat::lemma_parse_str(TimezoneFormat::TwelveHour);
            assert(!spec_below(ONE_BITS, HALF_BITS) && !spec_above(ONE_BITS, THREE_BITS));
        }
        let id = join_text("pref_", user_id.as_str());
        Self::new(
            id,
            user_id,
            "en".to_owned(),
            "auto".to_owned(),
            "UTC".to_owned(),
            "12h".to_owned(),
            "MM/DD/YYYY".to_owned(),
            DEFAULT_DASHBOARD.to_owned(),
            true,
            true,
            true,
            None,
            30,
            false,
            false,
            ONE_BITS,
            false,
            true,
            25,
            None,
        )
    }

    /// What one update makes of the preferences, or the error it stops at.
    /// Updates of unknown keys, and values of the wrong kind or out of range,
    /// change nothing.
    pub open spec fn spec_apply(p: UserPreferences, u: PreferenceUpdate) -> Result<UserPreferences, Seq<char>> {
        if u.key@ == "language"@ {
            match u.text {
                Some(t) => match LanguageOptions::spec_parse(t@) {
                    Some(l) => Ok(UserPreferences { language: l, ..p }),
                    None => Err("Invalid language option"@),
                },
                None => Ok(p),
            }
        } else if u.key@ == "theme"@ {
            match u.text {
                Some(t) => match ThemeOptions::spec_parse(t@) {
                    Some(th) => Ok(UserPreferences { theme: th, ..p }),
                    None => Err("Invalid theme option"@),
                },
                None => Ok(p),
            }
        } else if u.key@ == "timezone"@ {
            match u.text {
                Some(t) => Ok(UserPreferences { timezone: t, ..p }),
                None => Ok(p),
            }
        } else if u.key@ == "dashboard_layout"@ {
            Ok(UserPreferences { dashboard_layout: u.json, ..p })
        } else if u.key@ == "auto_refresh_interval"@ {
            match u.integer {
                Some(i) => if i >= 0 { Ok(UserPreferences { auto_refresh_interval: wrap_i32(i as int), ..p }) } else { Ok(p) },
                None => Ok(p),
            }
        } else if u.key@ == "font_size_multiplier"@ {
            match u.number {
                Some(b) => if spec_at_least(b, HALF_BITS) && spec_at_most(b, THREE_BITS) {
                    Ok(UserPreferences { font_size_multiplier: b, ..p })
                } else {
                    Ok(p)
                },
                None => Ok(p),
            }
        } else if u.key@ == "default_page_size"@ {
            match u.integer {
                Some(s) => if 5 <= s <= 500 { Ok(UserPreferences { default_page_size: s as i32, ..p }) } else { Ok(p) },
                None => Ok(p),
            }
        } else {
            Ok(p)
        }
    }

    /// What a run of updates makes of the preferences: the preferences after
    /// all of them, or those reached before the first update that fails, with its error.
    pub open spec fn spec_apply_all(p: UserPreferences, us: Seq<PreferenceUpdate>) -> Result<UserPreferences, (UserPreferences, Seq<char>)>
        decreases us.len(),
    {
        if us.len() == 0 {
            Ok(p)
        } else {
            match Self::spec_apply_all(p, us.drop_last()) {
                Err(e) => Err(e),
                Ok(q) => match Self::spec_apply(q, us.last()) {
                    Ok(r) => Ok(r),
                    Err(m) => Err((q, m)),
                },
            }
        }
    }

    fn apply_update(&mut self, u: &PreferenceUpdate) -> (res: Result<(), AppError>)
        ensures
            match Self::spec_apply(*old(self), *u) {
                Ok(r) => res is Ok && *final(self) == r,
                Err(m) => is_validation_error(res, m) && *final(self) == *old(self),
            },
    {
        let key = u.key.as_str();
        if str_eq(key, "language") {
            if let Some(t) = &u.text {
                self.language = LanguageOptions::from_string(t.as_str())?;
            }
        } else if str_eq(key, "theme") {
            if let Some(t) = &u.text {
                self.theme = ThemeOptions::from_string(t.as_str())?;
            }
        } else if str_eq(key, "timezone") {
            if let Some(t) = &u.text {
                self.timezone = t.clone();
            }
        } else if str_eq(key, "dashboard_layout") {
            self.dashboard_layout = u.json.clone();
        } else if str_eq(key, "auto_refresh_interval") {
            if let Some(i) = u.integer {
                if i >= 0 {
                    self.auto_refresh_interval = wrapping_to_i32(i);
                }
            }
        } else if str_eq(key, "font_size_multiplier") {
            if let Some(b) = u.number {
                if at_least(b, HALF_BITS) && at_most(b, THREE_BITS) {
                    self.font_size_multiplier = b;
                }
            }
        } else if str_eq(key, "default_page_size") {
            if let Some(s) = u.integer {
                if 5 <= s && s <= 500 {
                    self.default_page_size = s as i32;
                }
            }
        }
        Ok(())
    }

    /// Applies updates in the order given (the order in which the caller
    /// walked its map). The first update that fails stops the run with its
    /// error, and the updates before it stay; otherwise the update time moves.
    pub fn update_preferences(&mut self, updates: Vec<PreferenceUpdate>) -> (res: Result<(), AppError>)
        ensures
            match Self::spec_apply_all(*old(self), updates@) {
                Ok(r) => res is Ok && *final(self) == (UserPreferences { updated_at: final(self).updated_at, ..r })
                    && final(self).updated_at.valid(),
                Err((q, m)) => is_validation_error(res, m) && *final(self) == q,
            },
    {
        let mut i: usize = 0;
        while i < updates.len()
            invariant
                i <= updates.len(),
                Self::spec_apply_all(*old(self), updates@.take(i as int)) == Ok::<UserPreferences, (UserPreferences, Seq<char>)>(*self),
            decreases updates.len() - i,
        {
            assert(updates@.take(i + 1).drop_last() =~= updates@.take(i as int));
            assert(updates@.take(i + 1).last() == updates@[i as int]);
            let ghost before = *self;
            let r = self.apply_update(&updates[i]);
            if r.is_err() {
                proof {
                    Self::lemma_apply_all_stops(*old(self), updates@, i as int, before);
                }
                return r;
            }
            i = i + 1;
        }
        assert(updates@.take(i as int) =~= updates@);
        self.updated_at = now();
        Ok(())
    }

    proof fn lemma_apply_all_stops(p: UserPreferences, us: Seq<PreferenceUpdate>, i: int, q: UserPreferences)
        requires
            0 <= i < us.len(),
            Self::spec_apply_all(p, us.take(i)) == Ok::<UserPreferences, (UserPreferences, Seq<char>)>(q),
            Self::spec_apply(q, us[i]) is Err,
        ensures
            Self::spec_apply_all(p, us) == Err::<UserPreferences, (UserPreferences, Seq<char>)>((q, Self::spec_apply(q, us[i])->Err_0)),
        decreases us.len() - i,
    {
        if i + 1 == us.len() {
            assert(us.drop_last() =~= us.take(i));
        } else {
            assert(us.drop_last().take(i) =~= us.take(i));
            assert(us.drop_last()[i] == us[i]);
            Self::lemma_apply_all_stops(p, us.drop_last(), i, q);
        }
    }

    /// Whether the preferences refresh on their own.
    pub fn is_auto_refresh_enabled(&self) -> (res: bool)
        ensures
            res == (self.auto_refresh_interval > 0),
    {
        self.auto_refresh_interval > 0
    }

    /// The hour of a time of day on the 24-hour clock, 0 to 23.
    pub open spec fn spec_theme_hour(t: TimeOfDay) -> int {
        (t.secs / 3600) as int
    }

    /// The theme in effect at time of day `t` (UTC): the automatic theme is dark
    /// from 18:00 to before 06:00, and light otherwise.
    pub open spec fn spec_effective_theme(&self, t: TimeOfDay) -> Seq<char> {
        match self.theme {
            ThemeOptions::Auto => {
                let h = Self::spec_theme_hour(t);
                if h >= 18 || h < 6 { "dark"@ } else { "light"@ }
            },
            _ => self.theme.spec_str(),
        }
    }

    pub fn effective_theme_at(&self, t: &TimeOfDay) -> (res: &'static str)
        requires
            t.valid(),
        ensures
            res@ == self.spec_effective_theme(*t),
    {
        match self.theme {
            ThemeOptions::Auto => {
                let h = t.secs / 3600;
                if h >= 18 || h < 6 { "dark" } else { "light" }
            },
            _ => self.theme.to_str(),
        }
    }

    /// The theme in effect now.
    pub fn effective_theme(&self) -> (res: &'static str)
        ensures
            exists|t: Timestamp| t.valid() && res@ == self.spec_effective_theme(t.spec_time_of_day()),
    {
        let t = now();
        let tod = t.time_of_day();
        proof {
            assert(tod.valid());
        }
        self.effective_theme_at(&tod)
    }

}

proof fn lemma_keys_distinct()
    ensures
        "id"@ != "user_id"@,
        "id"@ != "language"@,
        "id"@ != "theme"@,
        "id"@ != "timezone"@,
        "id"@ != "time_format"@,
        "id"@ != "date_format"@,
        "id"@ != "dashboard_layout"@,
        "id"@ != "email_notifications_enabled"@,
        "id"@ != "mobile_notifications_enabled"@,
        "id"@ != "desktop_notifications_enabled"@,
        "id"@ != "default_location_id"@,
        "id"@ != "auto_refresh_interval"@,
        "id"@ != "accessibility_enabled"@,
        "id"@ != "high_contrast_mode"@,
        "id"@ != "font_size_multiplier"@,
        "id"@ != "sidebar_collapsed"@,
        "id"@ != "show_tooltips"@,
        "id"@ != "default_page_size"@,
        "id"@ != "custom_shortcuts"@,
        "id"@ != "created_at"@,
        "id"@ != "updated_at"@,
        "user_id"@ != "language"@,
        "user_id"@ != "theme"@,
        "user_id"@ != "timezone"@,
        "user_id"@ != "time_format"@,
        "user_id"@ != "date_format"@,
        "user_id"@ != "dashboard_layout"@,
        "user_id"@ != "email_notifications_enabled"@,
        "user_id"@ != "mobile_notifications_enabled"@,
        "user_id"@ != "desktop_notifications_enabled"@,
        "user_id"@ != "default_location_id"@,
        "user_id"@ != "auto_refresh_interval"@,
        "user_id"@ != "accessibility_enabled"@,
        "user_id"@ != "high_contrast_mode"@,
        "user_id"@ != "font_size_multiplier"@,
        "user_id"@ != "sidebar_collapsed"@,
        "user_id"@ != "show_tooltips"@,
        "user_id"@ != "default_page_size"@,
        "user_id"@ != "custom_shortcuts"@,
        "user_id"@ != "created_at"@,
        "user_id"@ != "updated_at"@,
        "language"@ != "theme"@,
        "language"@ != "timezone"@,
        "language"@ != "time_format"@,
        "language"@ != "date_format"@,
        "language"@ != "dashboard_layout"@,
        "language"@ != "email_notifications_enabled"@,
        "language"@ != "mobile_notifications_enabled"@,
        "language"@ != "desktop_notifications_enabled"@,
        "language"@ != "default_location_id"@,
        "language"@ != "auto_refresh_interval"@,
        "language"@ != "accessibility_enabled"@,
        "language"@ != "high_contrast_mode"@,
        "language"@ != "font_size_multiplier"@,
        "language"@ != "sidebar_collapsed"@,
        "language"@ != "show_tooltips"@,
        "language"@ != "default_page_size"@,
        "language"@ != "custom_shortcuts"@,
        "language"@ != "created_at"@,
        "language"@ != "updated_at"@,
        "theme"@ != "timezone"@,
        "theme"@ != "time_format"@,
        "theme"@ != "date_format"@,
        "theme"@ != "dashboard_layout"@,
        "theme"@ != "email_notifications_enabled"@,
        "theme"@ != "mobile_notifications_enabled"@,
        "theme"@ != "desktop_notifications_enabled"@,
        "theme"@ != "default_location_id"@,
        "theme"@ != "auto_refresh_interval"@,
        "theme"@ != "accessibility_enabled"@,
        "theme"@ != "high_contrast_mode"@,
        "theme"@ != "font_size_multiplier"@,
        "theme"@ != "sidebar_collapsed"@,
        "theme"@ != "show_tooltips"@,
        "theme"@ != "default_page_size"@,
        "theme"@ != "custom_shortcuts"@,
        "theme"@ != "created_at"@,
        "theme"@ != "updated_at"@,
        "timezone"@ != "time_format"@,
        "timezone"@ != "date_format"@,
        "timezone"@ != "dashboard_layout"@,
        "timezone"@ != "email_notifications_enabled"@,
        "timezone"@ != "mobile_notifications_enabled"@,
        "timezone"@ != "desktop_notifications_enabled"@,
        "timezone"@ != "default_location_id"@,
        "timezone"@ != "auto_refresh_interval"@,
        "timezone"@ != "accessibility_enabled"@,
        "timezone"@ != "high_contrast_mode"@,
        "timezone"@ != "font_size_multiplier"@,
        "timezone"@ != "sidebar_collapsed"@,
        "timezone"@ != "show_tooltips"@,
        "timezone"@ != "default_page_size"@,
        "timezone"@ != "custom_shortcuts"@,
        "timezone"@ != "created_at"@,
        "timezone"@ != "updated_at"@,
        "time_format"@ != "date_format"@,
        "time_format"@ != "dashboard_layout"@,
        "time_format"@ != "email_notifications_enabled"@,
        "time_format"@ != "mobile_notifications_enabled"@,
        "time_format"@ != "desktop_notifications_enabled"@,
        "time_format"@ != "default_location_id"@,
        "time_format"@ != "auto_refresh_interval"@,
        "time_format"@ != "accessibility_enabled"@,
        "time_format"@ != "high_contrast_mode"@,
        "time_format"@ != "font_size_multiplier"@,
        "time_format"@ != "sidebar_collapsed"@,
        "time_format"@ != "show_tooltips"@,
        "time_format"@ != "default_page_size"@,
        "time_format"@ != "custom_shortcuts"@,
        "time_format"@ != "created_at"@,
        "time_format"@ != "updated_at"@,
        "date_format"@ != "dashboard_layout"@,
        "date_format"@ != "email_notifications_enabled"@,
        "date_format"@ != "mobile_notifications_enabled"@,
        "date_format"@ != "desktop_notifications_enabled"@,
        "date_format"@ != "default_location_id"@,
        "date_format"@ != "auto_refresh_interval"@,
        "date_format"@ != "accessibility_enabled"@,
        "date_format"@ != "high_contrast_mode"@,
        "date_format"@ != "font_size_multiplier"@,
        "date_format"@ != "sidebar_collapsed"@,
        "date_format"@ != "show_tooltips"@,
        "date_format"@ != "default_page_size"@,
        "date_format"@ != "custom_shortcuts"@,
        "date_format"@ != "created_at"@,
        "date_format"@ != "updated_at"@,
        "dashboard_layout"@ != "email_notifications_enabled"@,
        "dashboard_layout"@ != "mobile_notifications_enabled"@,
        "dashboard_layout"@ != "desktop_notifications_enabled"@,
        "dashboard_layout"@ != "default_location_id"@,
        "dashboard_layout"@ != "auto_refresh_interval"@,
        "dashboard_layout"@ != "accessibility_enabled"@,
        "dashboard_layout"@ != "high_contrast_mode"@,
        "dashboard_layout"@ != "font_size_multiplier"@,
        "dashboard_layout"@ != "sidebar_collapsed"@,
        "dashboard_layout"@ != "show_tooltips"@,
        "dashboard_layout"@ != "default_page_size"@,
        "dashboard_layout"@ != "custom_shortcuts"@,
        "dashboard_layout"@ != "created_at"@,
        "dashboard_layout"@ != "updated_at"@,
        "email_notifications_enabled"@ != "mobile_notifications_enabled"@,
        "email_notifications_enabled"@ != "desktop_notifications_enabled"@,
        "email_notifications_enabled"@ != "default_location_id"@,
        "email_notifications_enabled"@ != "auto_refresh_interval"@,
        "email_notifications_enabled"@ != "accessibility_enabled"@,
        "email_notifications_enabled"@ != "high_contrast_mode"@,
        "email_notifications_enabled"@ != "font_size_multiplier"@,
        "email_notifications_enabled"@ != "sidebar_collapsed"@,
        "email_notifications_enabled"@ != "show_tooltips"@,
        "email_notifications_enabled"@ != "default_page_size"@,
        "email_notifications_enabled"@ != "custom_shortcuts"@,
        "email_notifications_enabled"@ != "created_at"@,
        "email_notifications_enabled"@ != "updated_at"@,
        "mobile_notifications_enabled"@ != "desktop_notifications_enabled"@,
        "mobile_notifications_enabled"@ != "default_location_id"@,
        "mobile_notifications_enabled"@ != "auto_refresh_interval"@,
        "mobile_notifications_enabled"@ != "accessibility_enabled"@,
        "mobile_notifications_enabled"@ != "high_contrast_mode"@,
        "mobile_notifications_enabled"@ != "font_size_multiplier"@,
        "mobile_notifications_enabled"@ != "sidebar_collapsed"@,
        "mobile_notifications_enabled"@ != "show_tooltips"@,
        "mobile_notifications_enabled"@ != "default_page_size"@,
        "mobile_notifications_enabled"@ != "custom_shortcuts"@,
        "mobile_notifications_enabled"@ != "created_at"@,
        "mobile_notifications_enabled"@ != "updated_at"@,
        "desktop_notifications_enabled"@ != "default_location_id"@,
        "desktop_notifications_enabled"@ != "auto_refresh_interval"@,
        "desktop_notifications_enabled"@ != "accessibility_enabled"@,
        "desktop_notifications_enabled"@ != "high_contrast_mode"@,
        "desktop_notifications_enabled"@ != "font_size_multiplier"@,
        "desktop_notifications_enabled"@ != "sidebar_collapsed"@,
        "desktop_notifications_enabled"@ != "show_tooltips"@,
        "desktop_notifications_enabled"@ != "default_page_size"@,
        "desktop_notifications_enabled"@ != "custom_shortcuts"@,
        "desktop_notifications_enabled"@ != "created_at"@,
        "desktop_notifications_enabled"@ != "updated_at"@,
        "default_location_id"@ != "auto_refresh_interval"@,
        "default_location_id"@ != "accessibility_enabled"@,
        "default_location_id"@ != "high_contrast_mode"@,
        "default_location_id"@ != "font_size_multiplier"@,
        "default_location_id"@ != "sidebar_collapsed"@,
        "default_location_id"@ != "show_tooltips"@,
        "default_location_id"@ != "default_page_size"@,
        "default_location_id"@ != "custom_shortcuts"@,
        "default_location_id"@ != "created_at"@,
        "default_location_id"@ != "updated_at"@,
        "auto_refresh_interval"@ != "accessibility_enabled"@,
        "auto_refresh_interval"@ != "high_contrast_mode"@,
        "auto_refresh_interval"@ != "font_size_multiplier"@,
        "auto_refresh_interval"@ != "sidebar_collapsed"@,
        "auto_refresh_interval"@ != "show_tooltips"@,
        "auto_refresh_interval"@ != "default_page_size"@,
        "auto_refresh_interval"@ != "custom_shortcuts"@,
        "auto_refresh_interval"@ != "created_at"@,
        "auto_refresh_interval"@ != "updated_at"@,
        "accessibility_enabled"@ != "high_contrast_mode"@,
        "accessibility_enabled"@ != "font_size_multiplier"@,
        "accessibility_enabled"@ != "sidebar_collapsed"@,
        "accessibility_enabled"@ != "show_tooltips"@,
        "accessibility_enabled"@ != "default_page_size"@,
        "accessibility_enabled"@ != "custom_shortcuts"@,
        "accessibility_enabled"@ != "created_at"@,
        "accessibility_enabled"@ != "updated_at"@,
        "high_contrast_mode"@ != "font_size_multiplier"@,
        "high_contrast_mode"@ != "sidebar_collapsed"@,
        "high_contrast_mode"@ != "show_tooltips"@,
        "high_contrast_mode"@ != "default_page_size"@,
        "high_contrast_mode"@ != "custom_shortcuts"@,
        "high_contrast_mode"@ != "created_at"@,
        "high_contrast_mode"@ != "updated_at"@,
        "font_size_multiplier"@ != "sidebar_collapsed"@,
        "font_size_multiplier"@ != "show_tooltips"@,
        "font_size_multiplier"@ != "default_page_size"@,
        "font_size_multiplier"@ != "custom_shortcuts"@,
        "font_size_multiplier"@ != "created_at"@,
        "font_size_multiplier"@ != "updated_at"@,
        "sidebar_collapsed"@ != "show_tooltips"@,
        "sidebar_collapsed"@ != "default_page_size"@,
        "sidebar_collapsed"@ != "custom_shortcuts"@,
        "sidebar_collapsed"@ != "created_at"@,
        "sidebar_collapsed"@ != "updated_at"@,
        "show_tooltips"@ != "default_page_size"@,
        "show_tooltips"@ != "custom_shortcuts"@,
        "show_tooltips"@ != "created_at"@,
        "show_tooltips"@ != "updated_at"@,
        "default_page_size"@ != "custom_shortcuts"@,
        "default_page_size"@ != "created_at"@,
        "default_page_size"@ != "updated_at"@,
        "custom_shortcuts"@ != "created_at"@,
        "custom_shortcuts"@ != "updated_at"@,
        "created_at"@ != "updated_at"@,
{
    broadcast use vstd::string::group_string_axioms;
    reveal_strlit("id");
    reveal_strlit("user_id");
    reveal_strlit("language");
    reveal_strlit("theme");
    reveal_strlit("timezone");
    reveal_strlit("time_format");
    reveal_strlit("date_format");
    reveal_strlit("dashboard_layout");
    reveal_strlit("email_notifications_enabled");
    reveal_strlit("mobile_notifications_enabled");
    reveal_strlit("desktop_notifications_enabled");
    reveal_strlit("default_location_id");
    reveal_strlit("auto_refresh_interval");
    reveal_strlit("accessibility_enabled");
    reveal_strlit("high_contrast_mode");
    reveal_strlit("font_size_multiplier");
    reveal_strlit("sidebar_collapsed");
    reveal_strlit("show_tooltips");
    reveal_strlit("default_page_size");
    reveal_strlit("custom_shortcuts");
    reveal_strlit("created_at");
    reveal_strlit("updated_at");
    assert("id"@.len() == 2);
    assert("user_id"@.len() == 7);
    assert("language"@.len() == 8);
    assert("theme"@.len() == 5);
    assert("timezone"@.len() == 8);
    assert("time_format"@.len() == 11);
    assert("date_format"@.len() == 11);
    assert("dashboard_layout"@.len() == 16);
    assert("email_notifications_enabled"@.len() == 27);
    assert("mobile_notifications_enabled"@.len() == 28);
    assert("desktop_notifications_enabled"@.len() == 29);
    assert("default_location_id"@.len() == 19);
    assert("auto_refresh_interval"@.len() == 21);
    assert("accessibility_enabled"@.len() == 21);
    assert("high_contrast_mode"@.len() == 18);
    assert("font_size_multiplier"@.len() == 20);
    assert("sidebar_collapsed"@.len() == 17);
    assert("show_tooltips"@.len() == 13);
    assert("default_page_size"@.len() == 17);
    assert("custom_shortcuts"@.len() == 16);
    assert("created_at"@.len() == 10);
    assert("updated_at"@.len() == 10);
    assert("language"@[0] != "timezone"@[0]);
    assert("time_format"@[0] != "date_format"@[0]);
    assert("dashboard_layout"@[0] != "custom_shortcuts"@[0]);
    assert("auto_refresh_interval"@[1] != "accessibility_enabled"@[1]);
    assert("sidebar_collapsed"@[0] != "default_page_size"@[0]);
    assert("created_at"@[0] != "updated_at"@[0]);
}

} // verus!
