//! Assets: the equipment that is maintained, and when its maintenance falls due.
use vstd::prelude::*;

use crate::error::{is_database_error, AppError};
use crate::fields::{
    copy_strings, i32_or, opt_view, read_i32_or, read_s, read_ss_or_empty, read_timestamp,
    read_timestamp_or, ss_or_empty, timestamp_at, timestamp_or, write_i32, write_timestamp,
};
use crate::item::{lookup, push_if, s_at, strings_view, AttrView, Item, ItemView};
use crate::numeric::{lemma_parse_format_i32, spec_format_i32};
use crate::text::str_eq;
use crate::time::{chrono_format_datetime, chrono_parse_datetime, now, Timestamp};
use crate::decimal::{decimal_format, decimal_parse, format_decimal, parse_decimal, DecimalNumber};

use crate::item::AttrValue;
use crate::time::{days_until, spec_days_until, NANOS_PER_SEC};

use crate::tables::{attr_fits, item_fits_table, spec_assets_table};

verus! {

/// The length of a new asset's warranty, in seconds: 365 days.
pub const WARRANTY_SECS: i64 = 31_536_000;

/// How often an asset needs maintenance.
#[derive(Clone, Copy, Debug, PartialEq, Eq, Structural, Hash)]
pub enum MaintenanceFrequencyOptions {
    OneTime,
    Monthly,
    Quarterly,
    Annually,
    AsNeeded,
}

impl MaintenanceFrequencyOptions {
    /// The text that stands for the variant in items and requests.
    pub open spec fn spec_str(self) -> Seq<char> {
        match self {
            MaintenanceFrequencyOptions::OneTime => "one-time"@,
            MaintenanceFrequencyOptions::Monthly => "monthly"@,
            MaintenanceFrequencyOptions::Quarterly => "quarterly"@,
            MaintenanceFrequencyOptions::Annually => "annually"@,
            MaintenanceFrequencyOptions::AsNeeded => "as-needed"@,
        }
    }

    /// The variant that a text stands for, if any.
    pub open spec fn spec_parse(s: Seq<char>) -> Option<MaintenanceFrequencyOptions> {
        if s == "one-time"@ {
            Some(MaintenanceFrequencyOptions::OneTime)
        } else if s == "monthly"@ {
            Some(MaintenanceFrequencyOptions::Monthly)
        } else if s == "quarterly"@ {
            Some(MaintenanceFrequencyOptions::Quarterly)
        } else if s == "annually"@ {
            Some(MaintenanceFrequencyOptions::Annually)
        } else if s == "as-needed"@ {
            Some(MaintenanceFrequencyOptions::AsNeeded)
        } else {
            None
        }
    }

    pub fn to_str(&self) -> (res: &'static str)
        ensures
            res@ == self.spec_str(),
    {
        match self {
            MaintenanceFrequencyOptions::OneTime => "one-time",
            MaintenanceFrequencyOptions::Monthly => "monthly",
            MaintenanceFrequencyOptions::Quarterly => "quarterly",
            MaintenanceFrequencyOptions::Annually => "annually",
            MaintenanceFrequencyOptions::AsNeeded => "as-needed",
        }
    }

    pub fn to_string(&self) -> (res: String)
        ensures
            res@ == self.spec_str(),
    {
        self.to_str().to_owned()
    }

    /// Reads a variant from its text; any other text is refused with a `DatabaseError`.
    pub fn from_string(s: &str) -> (res: Result<MaintenanceFrequencyOptions, AppError>)
        ensures
            match MaintenanceFrequencyOptions::spec_parse(s@) {
                Some(v) => res == Ok::<MaintenanceFrequencyOptions, AppError>(v),
                None => res matches Err(AppError::DatabaseError(m)) && m@ == "Cannot perform from_string on MaintenanceFrequencyOption input"@,
            },
    {
        if str_eq(s, "one-time") {
            Ok(MaintenanceFrequencyOptions::OneTime)
        } else if str_eq(s, "monthly") {
            Ok(MaintenanceFrequencyOptions::Monthly)
        } else if str_eq(s, "quarterly") {
            Ok(MaintenanceFrequencyOptions::Quarterly)
        } else if str_eq(s, "annually") {
            Ok(MaintenanceFrequencyOptions::Annually)
        } else if str_eq(s, "as-needed") {
            Ok(MaintenanceFrequencyOptions::AsNeeded)
        } else {
            Err(AppError::DatabaseError("Cannot perform from_string on MaintenanceFrequencyOption input".to_owned()))
        }
    }

    /// Reading back the text of a variant gives the variant.
    pub proof fn lemma_parse_str(v: MaintenanceFrequencyOptions)
        ensures
            MaintenanceFrequencyOptions::spec_parse(v.spec_str()) == Some(v),
    {
        broadcast use vstd::string::group_string_axioms;
        reveal_strlit("one-time");
        reveal_strlit("monthly");
        reveal_strlit("quarterly");
        reveal_strlit("annually");
        reveal_strlit("as-needed");
        assert("one-time"@.len() == 8);
        assert("monthly"@.len() == 7);
        assert("quarterly"@.len() == 9);
        assert("annually"@.len() == 8);
        assert("as-needed"@.len() == 9);
        assert("one-time"@[0] != "annually"@[0]);
        assert("quarterly"@[0] != "as-needed"@[0]);
    }
}

impl MaintenanceFrequencyOptions {
    /// The number of days between maintenance visits (0 where none is planned).
    pub open spec fn spec_days(self) -> i32 {
        match self {
            MaintenanceFrequencyOptions::OneTime => 0,
            MaintenanceFrequencyOptions::Monthly => 30,
            MaintenanceFrequencyOptions::Quarterly => 90,
            MaintenanceFrequencyOptions::Annually => 365,
            MaintenanceFrequencyOptions::AsNeeded => 0,
        }
    }

    /// The interval in days for a frequency; it never fails.
    pub fn to_days(f: &MaintenanceFrequencyOptions) -> (res: Result<i32, AppError>)
        ensures
            res == Ok::<i32, AppError>(f.spec_days()),
    {
        match f {
            MaintenanceFrequencyOptions::OneTime => Ok(0),
            MaintenanceFrequencyOptions::Annually => Ok(365),
            MaintenanceFrequencyOptions::Quarterly => Ok(90),
            MaintenanceFrequencyOptions::Monthly => Ok(30),
            MaintenanceFrequencyOptions::AsNeeded => Ok(0),
        }
    }
}

/// The operational state of an asset.
#[derive(Clone, Copy, Debug, PartialEq, Eq, Structural, Hash)]
pub enum AssetCurrentStatusOptions {
    Operational,
    Down,
    Maintenance,
    Retired,
    NeedsAttention,
}

impl AssetCurrentStatusOptions {
    /// The text that stands for the variant in items and requests.
    pub open spec fn spec_str(self) -> Seq<char> {
        match self {
            AssetCurrentStatusOptions::Operational => "operational"@,
            AssetCurrentStatusOptions::Down => "down"@,
            AssetCurrentStatusOptions::Maintenance => "maintenance"@,
            AssetCurrentStatusOptions::Retired => "retired"@,
            AssetCurrentStatusOptions::NeedsAttention => "needs-attention"@,
        }
    }

    /// The variant that a text stands for, if any.
    pub open spec fn spec_parse(s: Seq<char>) -> Option<AssetCurrentStatusOptions> {
        if s == "operational"@ {
            Some(AssetCurrentStatusOptions::Operational)
        } else if s == "down"@ {
            Some(AssetCurrentStatusOptions::Down)
        } else if s == "maintenance"@ {
            Some(AssetCurrentStatusOptions::Maintenance)
        } else if s == "retired"@ {
            Some(AssetCurrentStatusOptions::Retired)
        } else if s == "needs-attention"@ {
            Some(AssetCurrentStatusOptions::NeedsAttention)
        } else {
            None
        }
    }

    pub fn to_str(&self) -> (res: &'static str)
        ensures
            res@ == self.spec_str(),
    {
        match self {
            AssetCurrentStatusOptions::Operational => "operational",
            AssetCurrentStatusOptions::Down => "down",
            AssetCurrentStatusOptions::Maintenance => "maintenance",
            AssetCurrentStatusOptions::Retired => "retired",
            AssetCurrentStatusOptions::NeedsAttention => "needs-attention",
        }
    }

    pub fn to_string(&self) -> (res: String)
        ensures
            res@ == self.spec_str(),
    {
        self.to_str().to_owned()
    }

    /// Reads a variant from its text; any other text is refused with a `DatabaseError`.
    pub fn from_string(s: &str) -> (res: Result<AssetCurrentStatusOptions, AppError>)
        ensures
            match AssetCurrentStatusOptions::spec_parse(s@) {
                Some(v) => res == Ok::<AssetCurrentStatusOptions, AppError>(v),
                None => res matches Err(AppError::DatabaseError(m)) && m@ == "Invalid maintenance frequency option string for asset"@,
            },
    {
        if str_eq(s, "operational") {
            Ok(AssetCurrentStatusOptions::Operational)
        } else if str_eq(s, "down") {
            Ok(AssetCurrentStatusOptions::Down)
        } else if str_eq(s, "maintenance") {
            Ok(AssetCurrentStatusOptions::Maintenance)
        } else if str_eq(s, "retired") {
            Ok(AssetCurrentStatusOptions::Retired)
        } else if str_eq(s, "needs-attention") {
            Ok(AssetCurrentStatusOptions::NeedsAttention)
        } else {
            Err(AppError::DatabaseError("Invalid maintenance frequency option string for asset".to_owned()))
        }
    }

    /// Reading back the text of a variant gives the variant.
    pub proof fn lemma_parse_str(v: AssetCurrentStatusOptions)
        ensures
            AssetCurrentStatusOptions::spec_parse(v.spec_str()) == Some(v),
    {
        broadcast use vstd::string::group_string_axioms;
        reveal_strlit("operational");
        reveal_strlit("down");
        reveal_strlit("maintenance");
        reveal_strlit("retired");
        reveal_strlit("needs-attention");
        assert("operational"@.len() == 11);
        assert("down"@.len() == 4);
        assert("maintenance"@.len() == 11);
        assert("retired"@.len() == 7);
        assert("needs-attention"@.len() == 15);
        assert("operational"@[0] != "maintenance"@[0]);
    }
}

/// A piece of equipment that is maintained.
#[derive(Clone, Debug)]
pub struct Asset {
    pub id: String,
    pub name: String,
    pub asset_type_id: String,
    pub serial_number: String,
    pub model_number: String,
    pub purchase_date: Timestamp,
    pub installation_date: Timestamp,
    pub current_status: AssetCurrentStatusOptions,
    pub location_id: String,
    pub manufacturer_id: String,
    pub maintenance_frequency: MaintenanceFrequencyOptions,
    pub maintenance_schedule_id: Option<String>,
    pub interval_days: i32,
    pub documentation_keys: Vec<String>,
    pub work_order_ids: Vec<String>,
    pub warranty_start_date: Option<Timestamp>,
    pub warranty_end_date: Option<Timestamp>,
    pub total_downtime_hours: DecimalNumber,
    pub last_downtime_date: Timestamp,
    pub created_at: Timestamp,
    pub updated_at: Timestamp,
}

impl Asset {
    /// The instants are ones that `chrono` represents.
    pub open spec fn wf(&self) -> bool {
        &&& self.purchase_date.valid()
        &&& self.installation_date.valid()
        &&& (self.warranty_start_date matches Some(t) ==> t.valid())
        &&& (self.warranty_end_date matches Some(t) ==> t.valid())
        &&& self.total_downtime_hours.valid()
        &&& self.last_downtime_date.valid()
        &&& self.created_at.valid()
        &&& self.updated_at.valid()
    }

    /// The DynamoDB table of this entity.
    pub fn table_name() -> (res: &'static str)
        ensures
            res@ == "Assets"@,
    {
        "Assets"
    }

    /// The key of the entity in its table.
    pub fn primary_key(&self) -> (res: String)
        ensures
            res@ == self.id@,
    {
        self.id.clone()
    }

    /// Whether an item holds what this entity needs to be read from it.
    pub open spec fn item_readable(iv: ItemView) -> bool {
        &&& s_at(iv, "id"@) is Some
        &&& s_at(iv, "name"@) is Some
        &&& s_at(iv, "asset_type_id"@) is Some
        &&& s_at(iv, "serial_number"@) is Some
        &&& s_at(iv, "model_number"@) is Some
        &&& s_at(iv, "current_status"@) matches Some(c) && AssetCurrentStatusOptions::spec_parse(c) is Some
        &&& s_at(iv, "location_id"@) is Some
        &&& s_at(iv, "manufacturer_id"@) is Some
        &&& s_at(iv, "maintenance_frequency"@) matches Some(c) && MaintenanceFrequencyOptions::spec_parse(c) is Some
    }

    /// Whether this entity is what is read from an item, where instants that
    /// cannot be read are taken to be `now`.
    pub open spec fn read_from(&self, iv: ItemView, now: Timestamp) -> bool {
        &&& Some(self.id@) == s_at(iv, "id"@)
        &&& Some(self.name@) == s_at(iv, "name"@)
        &&& Some(self.asset_type_id@) == s_at(iv, "asset_type_id"@)
        &&& Some(self.serial_number@) == s_at(iv, "serial_number"@)
        &&& Some(self.model_number@) == s_at(iv, "model_number"@)
        &&& self.purchase_date == timestamp_or(iv, "purchase_date"@, now)
        &&& self.installation_date == timestamp_or(iv, "installation_date"@, now)
        &&& Some(self.current_status) == AssetCurrentStatusOptions::spec_parse(s_at(iv, "current_status"@)->0)
        &&& Some(self.location_id@) == s_at(iv, "location_id"@)
        &&& Some(self.manufacturer_id@) == s_at(iv, "manufacturer_id"@)
        &&& Some(self.maintenance_frequency) == MaintenanceFrequencyOptions::spec_parse(s_at(iv, "maintenance_frequency"@)->0)
        &&& opt_view(self.maintenance_schedule_id) == s_at(iv, "maintenance_schedule_id"@)
        &&& self.interval_days == i32_or(iv, "interval_days"@, 0)
        &&& strings_view(self.documentation_keys@) == ss_or_empty(iv, "documentation_keys"@)
        &&& strings_view(self.work_order_ids@) == ss_or_empty(iv, "work_order_ids"@)
        &&& self.warranty_start_date == timestamp_at(iv, "warranty_start_date"@)
        &&& self.warranty_end_date == timestamp_at(iv, "warranty_end_date"@)
        &&& self.total_downtime_hours == (match s_at(iv, "total_downtime_hours"@) { Some(s) => match decimal_parse(s) { Some(d) => d, None => DecimalNumber { mantissa: 0, scale: 0 } }, None => DecimalNumber { mantissa: 0, scale: 0 } })
        &&& self.last_downtime_date == timestamp_or(iv, "last_downtime_date"@, now)
        &&& self.created_at == timestamp_or(iv, "created_at"@, now)
        &&& self.updated_at == timestamp_or(iv, "updated_at"@, now)
    }

    /// The entries that `to_item` writes for id, name, asset_type_id, serial_number, model_number, purchase_date, installation_date, current_status, location_id, manufacturer_id, maintenance_frequency, maintenance_schedule_id, after those of `iv`.
    pub open spec fn spec_item_part1(&self, iv: ItemView) -> ItemView {
        let iv = iv.push(("id"@, AttrView::S(self.id@)));
        let iv = iv.push(("name"@, AttrView::S(self.name@)));
        let iv = iv.push(("asset_type_id"@, AttrView::S(self.asset_type_id@)));
        let iv = iv.push(("serial_number"@, AttrView::S(self.serial_number@)));
        let iv = iv.push(("model_number"@, AttrView::S(self.model_number@)));
        let iv = iv.push(("purchase_date"@, AttrView::S(chrono_format_datetime(self.purchase_date))));
        let iv = iv.push(("installation_date"@, AttrView::S(chrono_format_datetime(self.installation_date))));
        let iv = iv.push(("current_status"@, AttrView::S(self.current_status.spec_str())));
        let iv = iv.push(("location_id"@, AttrView::S(self.location_id@)));
        let iv = iv.push(("manufacturer_id"@, AttrView::S(self.manufacturer_id@)));
        let iv = iv.push(("maintenance_frequency"@, AttrView::S(self.maintenance_frequency.spec_str())));
        let iv = iv.push(("maintenance_schedule_id"@, if self.maintenance_schedule_id is Some { AttrView::S(self.maintenance_schedule_id->0@) } else { AttrView::Null(true) }));
        iv
    }

    /// The entries that `to_item` writes for interval_days, documentation_keys, work_order_ids, warranty_start_date, warranty_end_date, total_downtime_hours, last_downtime_date, created_at, updated_at, after those of `iv`.
    pub open spec fn spec_item_part2(&self, iv: ItemView) -> ItemView {
        let iv = iv.push(("interval_days"@, AttrView::N(spec_format_i32(self.interval_days))));
        let iv = push_if(iv, self.documentation_keys@.len() > 0, ("documentation_keys"@, AttrView::Ss(strings_view(self.documentation_keys@))));
        let iv = push_if(iv, self.work_order_ids@.len() > 0, ("work_order_ids"@, AttrView::Ss(strings_view(self.work_order_ids@))));
        let iv = push_if(iv, self.warranty_start_date is Some, ("warranty_start_date"@, AttrView::S(chrono_format_datetime(self.warranty_start_date->0))));
        let iv = push_if(iv, self.warranty_end_date is Some, ("warranty_end_date"@, AttrView::S(chrono_format_datetime(self.warranty_end_date->0))));
        let iv = iv.push(("total_downtime_hours"@, AttrView::S(decimal_format(self.total_downtime_hours))));
        let iv = iv.push(("last_downtime_date"@, AttrView::S(chrono_format_datetime(self.last_downtime_date))));
        let iv = iv.push(("created_at"@, AttrView::S(chrono_format_datetime(self.created_at))));
        let iv = iv.push(("updated_at"@, AttrView::S(chrono_format_datetime(self.updated_at))));
        iv
    }

    /// The item that `to_item` writes.
    pub open spec fn spec_item(&self) -> ItemView {
        self.spec_item_part2(self.spec_item_part1(Seq::empty()))
    }

    /// Whether two entities hold the same values.
    pub open spec fn same_as(&self, other: &Asset) -> bool {
        &&& self.id@ == other.id@
        &&& self.name@ == other.name@
        &&& self.asset_type_id@ == other.asset_type_id@
        &&& self.serial_number@ == other.serial_number@
        &&& self.model_number@ == other.model_number@
        &&& self.purchase_date == other.purchase_date
        &&& self.installation_date == other.installation_date
        &&& self.current_status == other.current_status
        &&& self.location_id@ == other.location_id@
        &&& self.manufacturer_id@ == other.manufacturer_id@
        &&& self.maintenance_frequency == other.maintenance_frequency
        &&& opt_view(self.maintenance_schedule_id) == opt_view(other.maintenance_schedule_id)
        &&& self.interval_days == other.interval_days
        &&& strings_view(self.documentation_keys@) == strings_view(other.documentation_keys@)
        &&& strings_view(self.work_order_ids@) == strings_view(other.work_order_ids@)
        &&& self.warranty_start_date == other.warranty_start_date
        &&& self.warranty_end_date == other.warranty_end_date
        &&& self.total_downtime_hours == other.total_downtime_hours
        &&& self.last_downtime_date == other.last_downtime_date
        &&& self.created_at == other.created_at
        &&& self.updated_at == other.updated_at
    }

    /// Reads the entity from an item, taking `now` for instants that are missing.
    pub fn from_item_at(item: &Item, now: Timestamp) -> (res: Option<Self>)
        requires
            now.valid(),
        ensures
            res is Some <==> Self::item_readable(item@),
            res matches Some(e) ==> e.read_from(item@, now) && e.wf(),
    {
        let id = read_s(item, "id")?;
        let name = read_s(item, "name")?;
        let asset_type_id = read_s(item, "asset_type_id")?;
        let serial_number = read_s(item, "serial_number")?;
        let model_number = read_s(item, "model_number")?;
        let purchase_date = read_timestamp_or(item, "purchase_date", now);
        let installation_date = read_timestamp_or(item, "installation_date", now);
        let current_status_text = item.get_s("current_status")?;
        let current_status = AssetCurrentStatusOptions::from_string(current_status_text.as_str()).ok()?;
        let location_id = read_s(item, "location_id")?;
        let manufacturer_id = read_s(item, "manufacturer_id")?;
        let maintenance_frequency_text = item.get_s("maintenance_frequency")?;
        let maintenance_frequency = MaintenanceFrequencyOptions::from_string(maintenance_frequency_text.as_str()).ok()?;
        let maintenance_schedule_id = read_s(item, "maintenance_schedule_id");
        let interval_days = read_i32_or(item, "interval_days", 0);
        let documentation_keys = read_ss_or_empty(item, "documentation_keys");
        let work_order_ids = read_ss_or_empty(item, "work_order_ids");
        let warranty_start_date = read_timestamp(item, "warranty_start_date");
        let warranty_end_date = read_timestamp(item, "warranty_end_date");
        let total_downtime_hours = match item.get_s("total_downtime_hours") {
            Some(t) => match parse_decimal(t.as_str()) {
                Some(d) => d,
                None => DecimalNumber::zero(),
            },
            None => DecimalNumber::zero(),
        };
        let last_downtime_date = read_timestamp_or(item, "last_downtime_date", now);
        let created_at = read_timestamp_or(item, "created_at", now);
        let updated_at = read_timestamp_or(item, "updated_at", now);
        Some(Asset {
            id,
            name,
            asset_type_id,
            serial_number,
            model_number,
            purchase_date,
            installation_date,
            current_status,
            location_id,
            manufacturer_id,
            maintenance_frequency,
            maintenance_schedule_id,
            interval_days,
            documentation_keys,
            work_order_ids,
            warranty_start_date,
            warranty_end_date,
            total_downtime_hours,
            last_downtime_date,
            created_at,
            updated_at,
        })
    }

    /// Reads the entity from an item; instants that are missing are read from the clock.
    pub fn from_item(item: &Item) -> (res: Option<Self>)
        ensures
            res is Some <==> Self::item_readable(item@),
            res matches Some(e) ==> e.wf() && exists|t: Timestamp| t.valid() && e.read_from(item@, t),
    {
        let t = now();
        Self::from_item_at(item, t)
    }

    fn write_part1(&self, item: &mut Item)
        requires
            self.wf(),
        ensures
            final(item)@ == self.spec_item_part1(old(item)@),
            chrono_parse_datetime(chrono_format_datetime(self.purchase_date)) == Some(self.purchase_date),
            chrono_parse_datetime(chrono_format_datetime(self.installation_date)) == Some(self.installation_date),
    {
        reveal(push_if);
        let ghost mut iv: ItemView = old(item)@;
        item.insert_s("id", self.id.clone());
        proof { iv = iv.push(("id"@, AttrView::S(self.id@))); }
        assert(item@ == iv);
        item.insert_s("name", self.name.clone());
        proof { iv = iv.push(("name"@, AttrView::S(self.name@))); }
        assert(item@ == iv);
        item.insert_s("asset_type_id", self.asset_type_id.clone());
        proof { iv = iv.push(("asset_type_id"@, AttrView::S(self.asset_type_id@))); }
        assert(item@ == iv);
        item.insert_s("serial_number", self.serial_number.clone());
        proof { iv = iv.push(("serial_number"@, AttrView::S(self.serial_number@))); }
        assert(item@ == iv);
        item.insert_s("model_number", self.model_number.clone());
        proof { iv = iv.push(("model_number"@, AttrView::S(self.model_number@))); }
        assert(item@ == iv);
        write_timestamp(item, "purchase_date", &self.purchase_date);
        proof { iv = iv.push(("purchase_date"@, AttrView::S(chrono_format_datetime(self.purchase_date)))); }
        assert(item@ == iv);
        write_timestamp(item, "installation_date", &self.installation_date);
        proof { iv = iv.push(("installation_date"@, AttrView::S(chrono_format_datetime(self.installation_date)))); }
        assert(item@ == iv);
        item.insert_s("current_status", self.current_status.to_string());
        proof { iv = iv.push(("current_status"@, AttrView::S(self.current_status.spec_str()))); }
        assert(item@ == iv);
        item.insert_s("location_id", self.location_id.clone());
        proof { iv = iv.push(("location_id"@, AttrView::S(self.location_id@))); }
        assert(item@ == iv);
        item.insert_s("manufacturer_id", self.manufacturer_id.clone());
        proof { iv = iv.push(("manufacturer_id"@, AttrView::S(self.manufacturer_id@))); }
        assert(item@ == iv);
        item.insert_s("maintenance_frequency", self.maintenance_frequency.to_string());
        proof { iv = iv.push(("maintenance_frequency"@, AttrView::S(self.maintenance_frequency.spec_str()))); }
        assert(item@ == iv);
        match &self.maintenance_schedule_id {
            Some(x) => item.insert_s("maintenance_schedule_id", x.clone()),
            None => item.insert("maintenance_schedule_id".to_owned(), AttrValue::Null(true)),
        }
        proof { iv = iv.push(("maintenance_schedule_id"@, if self.maintenance_schedule_id is Some { AttrView::S(self.maintenance_schedule_id->0@) } else { AttrView::Null(true) })); }
        assert(item@ == iv);
    }

    fn write_part2(&self, item: &mut Item)
        requires
            self.wf(),
        ensures
            final(item)@ == self.spec_item_part2(old(item)@),
            self.warranty_start_date matches Some(t) ==> chrono_parse_datetime(chrono_format_datetime(t)) == Some(t),
            self.warranty_end_date matches Some(t) ==> chrono_parse_datetime(chrono_format_datetime(t)) == Some(t),
            decimal_parse(decimal_format(self.total_downtime_hours)) == Some(self.total_downtime_hours),
            chrono_parse_datetime(chrono_format_datetime(self.last_downtime_date)) == Some(self.last_downtime_date),
            chrono_parse_datetime(chrono_format_datetime(self.created_at)) == Some(self.created_at),
            chrono_parse_datetime(chrono_format_datetime(self.updated_at)) == Some(self.updated_at),
    {
        reveal(push_if);
        let ghost mut iv: ItemView = old(item)@;
        write_i32(item, "interval_days", self.interval_days);
        proof { iv = iv.push(("interval_days"@, AttrView::N(spec_format_i32(self.interval_days)))); }
        assert(item@ == iv);
        if self.documentation_keys.len() > 0 {
            item.insert_ss("documentation_keys", copy_strings(&self.documentation_keys));
        }
        proof { iv = push_if(iv, self.documentation_keys@.len() > 0, ("documentation_keys"@, AttrView::Ss(strings_view(self.documentation_keys@)))); }
        assert(item@ == iv);
        if self.work_order_ids.len() > 0 {
            item.insert_ss("work_order_ids", copy_strings(&self.work_order_ids));
        }
        proof { iv = push_if(iv, self.work_order_ids@.len() > 0, ("work_order_ids"@, AttrView::Ss(strings_view(self.work_order_ids@)))); }
        assert(item@ == iv);
        if let Some(t) = &self.warranty_start_date {
            write_timestamp(item, "warranty_start_date", t);
        }
        proof { iv = push_if(iv, self.warranty_start_date is Some, ("warranty_start_date"@, AttrView::S(chrono_format_datetime(self.warranty_start_date->0)))); }
        assert(item@ == iv);
        if let Some(t) = &self.warranty_end_date {
            write_timestamp(item, "warranty_end_date", t);
        }
        proof { iv = push_if(iv, self.warranty_end_date is Some, ("warranty_end_date"@, AttrView::S(chrono_format_datetime(self.warranty_end_date->0)))); }
        assert(item@ == iv);
        item.insert_s("total_downtime_hours", format_decimal(&self.total_downtime_hours));
        proof { iv = iv.push(("total_downtime_hours"@, AttrView::S(decimal_format(self.total_downtime_hours)))); }
        assert(item@ == iv);
        write_timestamp(item, "last_downtime_date", &self.last_downtime_date);
        proof { iv = iv.push(("last_downtime_date"@, AttrView::S(chrono_format_datetime(self.last_downtime_date)))); }
        assert(item@ == iv);
        write_timestamp(item, "created_at", &self.created_at);
        proof { iv = iv.push(("created_at"@, AttrView::S(chrono_format_datetime(self.created_at)))); }
        assert(item@ == iv);
        write_timestamp(item, "updated_at", &self.updated_at);
        proof { iv = iv.push(("updated_at"@, AttrView::S(chrono_format_datetime(self.updated_at)))); }
        assert(item@ == iv);
    }

    /// Writes the entity as an item.
    /// Writes the asset as an item; reading the asset back from that item
    /// gives the same asset.
    pub fn to_item(&self) -> (res: Item)
        requires
            self.wf(),
        ensures
            res@ == self.spec_item(),
            Self::item_readable(res@),
            forall|b: Asset, now: Timestamp| #[trigger] b.read_from(res@, now) ==> b.same_as(self),
    {
        let mut item = Item::new();
        self.write_part1(&mut item);
        self.write_part2(&mut item);
        proof {
            Self::lemma_item_roundtrip(self, self, Timestamp { secs: 0, nanos: 0 });
            assert forall|b: Asset, now: Timestamp| #[trigger] b.read_from(item@, now) implies b.same_as(self) by {
                Self::lemma_item_roundtrip(self, &b, now);
            }
        }
        item
    }

    proof fn lemma_part1_values(&self, iv: ItemView)
        ensures
            lookup(self.spec_item_part1(iv), "id"@) == Some(AttrView::S(self.id@)),
            lookup(self.spec_item_part1(iv), "name"@) == Some(AttrView::S(self.name@)),
            lookup(self.spec_item_part1(iv), "asset_type_id"@) == Some(AttrView::S(self.asset_type_id@)),
            lookup(self.spec_item_part1(iv), "serial_number"@) == Some(AttrView::S(self.serial_number@)),
            lookup(self.spec_item_part1(iv), "model_number"@) == Some(AttrView::S(self.model_number@)),
            lookup(self.spec_item_part1(iv), "purchase_date"@) == Some(AttrView::S(chrono_format_datetime(self.purchase_date))),
            lookup(self.spec_item_part1(iv), "installation_date"@) == Some(AttrView::S(chrono_format_datetime(self.installation_date))),
            lookup(self.spec_item_part1(iv), "current_status"@) == Some(AttrView::S(self.current_status.spec_str())),
            lookup(self.spec_item_part1(iv), "location_id"@) == Some(AttrView::S(self.location_id@)),
            lookup(self.spec_item_part1(iv), "manufacturer_id"@) == Some(AttrView::S(self.manufacturer_id@)),
            lookup(self.spec_item_part1(iv), "maintenance_frequency"@) == Some(AttrView::S(self.maintenance_frequency.spec_str())),
            lookup(self.spec_item_part1(iv), "maintenance_schedule_id"@) == Some(if self.maintenance_schedule_id is Some { AttrView::S(self.maintenance_schedule_id->0@) } else { AttrView::Null(true) }),
    {
        broadcast use crate::item::lemma_lookup_push, crate::item::lemma_lookup_push_if;
        lemma_keys_distinct();
    }

    proof fn lemma_part1_frame(&self, iv: ItemView, k: Seq<char>)
        requires
            k != "id"@,
            k != "name"@,
            k != "asset_type_id"@,
            k != "serial_number"@,
            k != "model_number"@,
            k != "purchase_date"@,
            k != "installation_date"@,
            k != "current_status"@,
            k != "location_id"@,
            k != "manufacturer_id"@,
            k != "maintenance_frequency"@,
            k != "maintenance_schedule_id"@,
        ensures
            lookup(self.spec_item_part1(iv), k) == lookup(iv, k),
    {
        broadcast use crate::item::lemma_lookup_push, crate::item::lemma_lookup_push_if;
    }

    proof fn lemma_part2_values(&self, iv: ItemView)
        ensures
            lookup(self.spec_item_part2(iv), "interval_days"@) == Some(AttrView::N(spec_format_i32(self.interval_days))),
            lookup(self.spec_item_part2(iv), "documentation_keys"@) == (if self.documentation_keys@.len() > 0 { Some(AttrView::Ss(strings_view(self.documentation_keys@))) } else { lookup(iv, "documentation_keys"@) }),
            lookup(self.spec_item_part2(iv), "work_order_ids"@) == (if self.work_order_ids@.len() > 0 { Some(AttrView::Ss(strings_view(self.work_order_ids@))) } else { lookup(iv, "work_order_ids"@) }),
            lookup(self.spec_item_part2(iv), "warranty_start_date"@) == (if self.warranty_start_date is Some { Some(AttrView::S(chrono_format_datetime(self.warranty_start_date->0))) } else { lookup(iv, "warranty_start_date"@) }),
            lookup(self.spec_item_part2(iv), "warranty_end_date"@) == (if self.warranty_end_date is Some { Some(AttrView::S(chrono_format_datetime(self.warranty_end_date->0))) } else { lookup(iv, "warranty_end_date"@) }),
            lookup(self.spec_item_part2(iv), "total_downtime_hours"@) == Some(AttrView::S(decimal_format(self.total_downtime_hours))),
            lookup(self.spec_item_part2(iv), "last_downtime_date"@) == Some(AttrView::S(chrono_format_datetime(self.last_downtime_date))),
            lookup(self.spec_item_part2(iv), "created_at"@) == Some(AttrView::S(chrono_format_datetime(self.created_at))),
            lookup(self.spec_item_part2(iv), "updated_at"@) == Some(AttrView::S(chrono_format_datetime(self.updated_at))),
    {
        broadcast use crate::item::lemma_lookup_push, crate::item::lemma_lookup_push_if;
        lemma_keys_distinct();
    }

    proof fn lemma_part2_frame(&self, iv: ItemView, k: Seq<char>)
        requires
            k != "interval_days"@,
            k != "documentation_keys"@,
            k != "work_order_ids"@,
            k != "warranty_start_date"@,
            k != "warranty_end_date"@,
            k != "total_downtime_hours"@,
            k != "last_downtime_date"@,
            k != "created_at"@,
            k != "updated_at"@,
        ensures
            lookup(self.spec_item_part2(iv), k) == lookup(iv, k),
    {
        broadcast use crate::item::lemma_lookup_push, crate::item::lemma_lookup_push_if;
    }

    /// Every attribute the `Assets` table defines holds, in the item the entity is
    /// written as, nothing or a value of the type the table gives it, so
    /// DynamoDB accepts the item.
    pub proof fn lemma_item_fits_table(a: &Asset)
        ensures
            item_fits_table(a.spec_item(), spec_assets_table()),
    {
        lemma_keys_distinct();
        let e: ItemView = Seq::empty();
        let p1 = a.spec_item_part1(e);
        let p2 = a.spec_item_part2(p1);
        assert(a.spec_item() == p2);
        a.lemma_part1_values(e);
        a.lemma_part2_values(p1);
        a.lemma_part2_frame(p1, "id"@);
        a.lemma_part2_frame(p1, "current_status"@);
        a.lemma_part2_frame(p1, "location_id"@);
        a.lemma_part2_frame(p1, "manufacturer_id"@);
        a.lemma_part2_frame(p1, "maintenance_frequency"@);
        lemma_table_keys_absent();
        a.lemma_part1_frame(e, "type_id"@);
        a.lemma_part2_frame(p1, "type_id"@);
        let t = spec_assets_table();
        assert forall|i: int| 0 <= i < t.attributes.len() implies match #[trigger] crate::item::lookup(a.spec_item(), t.attributes[i].0) {
            Some(v) => attr_fits(t.attributes[i].1, v),
            None => true,
        } by {
            if i == 0 { assert(t.attributes[0].0 == "id"@); } else if i == 1 { assert(t.attributes[1].0 == "type_id"@); } else if i == 2 { assert(t.attributes[2].0 == "location_id"@); } else if i == 3 { assert(t.attributes[3].0 == "manufacturer_id"@); } else if i == 4 { assert(t.attributes[4].0 == "current_status"@); } else if i == 5 { assert(t.attributes[5].0 == "maintenance_frequency"@); }
        }
    }

    /// Reading the entity back from the item it is written as gives the same
    /// entity, where `chrono` reads back the text of its instants.
    #[verifier::rlimit(100)]
    pub proof fn lemma_item_roundtrip(a: &Asset, b: &Asset, now: Timestamp)
        requires
            a.wf(),
            chrono_parse_datetime(chrono_format_datetime(a.purchase_date)) == Some(a.purchase_date),
            chrono_parse_datetime(chrono_format_datetime(a.installation_date)) == Some(a.installation_date),
            a.warranty_start_date matches Some(t) ==> chrono_parse_datetime(chrono_format_datetime(t)) == Some(t),
            a.warranty_end_date matches Some(t) ==> chrono_parse_datetime(chrono_format_datetime(t)) == Some(t),
            decimal_parse(decimal_format(a.total_downtime_hours)) == Some(a.total_downtime_hours),
            chrono_parse_datetime(chrono_format_datetime(a.last_downtime_date)) == Some(a.last_downtime_date),
            chrono_parse_datetime(chrono_format_datetime(a.created_at)) == Some(a.created_at),
            chrono_parse_datetime(chrono_format_datetime(a.updated_at)) == Some(a.updated_at),
        ensures
            Self::item_readable(a.spec_item()),
            b.read_from(a.spec_item(), now) ==> b.same_as(a),
    {
        lemma_keys_distinct();
        let e: ItemView = Seq::empty();
        let p1 = a.spec_item_part1(e);
        let p2 = a.spec_item_part2(p1);
        assert(a.spec_item() == p2);
        a.lemma_part1_values(e);
        a.lemma_part2_values(p1);
        a.lemma_part2_frame(p1, "id"@);
        a.lemma_part2_frame(p1, "name"@);
        a.lemma_part2_frame(p1, "asset_type_id"@);
        a.lemma_part2_frame(p1, "serial_number"@);
        a.lemma_part2_frame(p1, "model_number"@);
        a.lemma_part2_frame(p1, "purchase_date"@);
        a.lemma_part2_frame(p1, "installation_date"@);
        a.lemma_part2_frame(p1, "current_status"@);
        a.lemma_part2_frame(p1, "location_id"@);
        a.lemma_part2_frame(p1, "manufacturer_id"@);
        a.lemma_part2_frame(p1, "maintenance_frequency"@);
        a.lemma_part1_frame(e, "interval_days"@);
        a.lemma_part1_frame(e, "documentation_keys"@);
        a.lemma_part1_frame(e, "work_order_ids"@);
        a.lemma_part1_frame(e, "warranty_start_date"@);
        a.lemma_part1_frame(e, "warranty_end_date"@);
        a.lemma_part1_frame(e, "total_downtime_hours"@);
        a.lemma_part1_frame(e, "last_downtime_date"@);
        a.lemma_part1_frame(e, "created_at"@);
        a.lemma_part1_frame(e, "updated_at"@);
        a.lemma_part2_frame(p1, "maintenance_schedule_id"@);
        AssetCurrentStatusOptions::lemma_parse_str(a.current_status);
        MaintenanceFrequencyOptions::lemma_parse_str(a.maintenance_frequency);
        lemma_parse_format_i32(a.interval_days);
        if a.documentation_keys@.len() == 0 { assert(strings_view(a.documentation_keys@) =~= Seq::<Seq<char>>::empty()); }
        if a.work_order_ids@.len() == 0 { assert(strings_view(a.work_order_ids@) =~= Seq::<Seq<char>>::empty()); }
    }

    /// The spec form of the end of a warranty that starts at `w`: one year
    /// (365 days) later.
    pub open spec fn spec_warranty_end(w: Timestamp) -> Timestamp {
        Timestamp {
            secs: w.spec_plus_seconds(WARRANTY_SECS as int).0 as i64,
            nanos: w.spec_plus_seconds(WARRANTY_SECS as int).1 as u32,
        }
    }

    /// Creates an operational asset whose maintenance interval follows its
    /// frequency. The last downtime is the one given, or the epoch where none
    /// is; a warranty that starts at the given instant ends one year (365 days)
    /// later.
    pub fn new(
        id: String,
        name: String,
        asset_type_id: String,
        serial_number: String,
        model_number: String,
        purchase_date: Timestamp,
        installation_date: Timestamp,
        location_id: String,
        manufacturer_id: String,
        maintenance_frequency: String,
        last_downtime_date: Option<Timestamp>,
        warranty_start_date: Option<Timestamp>,
    ) -> (res: Result<Self, AppError>)
        requires
            warranty_start_date matches Some(w) ==> w.valid() && w.can_add_seconds(WARRANTY_SECS as int),
        ensures
            match MaintenanceFrequencyOptions::spec_parse(maintenance_frequency@) {
                None => is_database_error(res, "Cannot perform from_string on MaintenanceFrequencyOption input"@),
                Some(f) => res matches Ok(a) && {
                    &&& a.id == id && a.name == name && a.asset_type_id == asset_type_id
                    &&& a.serial_number == serial_number && a.model_number == model_number
                    &&& a.purchase_date == purchase_date && a.installation_date == installation_date
                    &&& a.current_status == AssetCurrentStatusOptions::Operational
                    &&& a.location_id == location_id && a.manufacturer_id == manufacturer_id
                    &&& a.maintenance_frequency == f && a.maintenance_schedule_id is None
                    &&& a.interval_days == f.spec_days()
                    &&& a.documentation_keys@.len() == 0 && a.work_order_ids@.len() == 0
                    &&& a.warranty_start_date == warranty_start_date
                    &&& a.warranty_end_date == (match warranty_start_date {
                        Some(w) => Some(Self::spec_warranty_end(w)),
                        None => None,
                    })
                    &&& a.total_downtime_hours == (DecimalNumber { mantissa: 0, scale: 0 })
                    &&& a.last_downtime_date == (match last_downtime_date {
                        Some(d) => d,
                        None => Timestamp { secs: 0, nanos: 0 },
                    })
                    &&& a.created_at == a.updated_at && a.created_at.valid()
                },
            },
    {
        let now = now();
        let maint_freq = MaintenanceFrequencyOptions::from_string(maintenance_frequency.as_str())?;
        let maint_freq_days = MaintenanceFrequencyOptions::to_days(&maint_freq)?;
        let warranty_end_date = match &warranty_start_date {
            Some(w) => Some(w.plus_seconds(WARRANTY_SECS)),
            None => None,
        };
        let last_downtime_date = match last_downtime_date {
            Some(d) => d,
            None => Timestamp::unix_epoch(),
        };
        Ok(Asset {
            id,
            name,
            asset_type_id,
            serial_number,
            model_number,
            purchase_date,
            installation_date,
            current_status: AssetCurrentStatusOptions::Operational,
            location_id,
            manufacturer_id,
            maintenance_frequency: maint_freq,
            maintenance_schedule_id: None,
            interval_days: maint_freq_days,
            documentation_keys: Vec::new(),
            work_order_ids: Vec::new(),
            warranty_start_date,
            warranty_end_date,
            total_downtime_hours: DecimalNumber::zero(),
            last_downtime_date,
            created_at: now,
            updated_at: now,
        })
    }

    /// The instant maintenance is counted from: the last downtime, or the
    /// installation where no downtime is recorded (the last downtime is the epoch).
    pub open spec fn spec_maintenance_base(&self) -> Timestamp {
        if self.last_downtime_date == (Timestamp { secs: 0, nanos: 0 }) {
            self.installation_date
        } else {
            self.last_downtime_date
        }
    }

    /// Whether the next maintenance instant lies in `chrono`'s range.
    pub open spec fn can_compute_next_due(&self) -> bool {
        self.spec_maintenance_base().can_add_seconds(self.interval_days * 86_400)
    }

    /// The next maintenance instant: the interval added to the base instant.
    pub open spec fn spec_next_maintenance_due(&self) -> Timestamp {
        let b = self.spec_maintenance_base();
        Timestamp {
            secs: b.spec_plus_seconds(self.interval_days * 86_400).0 as i64,
            nanos: b.spec_plus_seconds(self.interval_days * 86_400).1 as u32,
        }
    }

    pub fn next_maintenance_due(&self) -> (res: Timestamp)
        requires
            self.wf(),
            self.can_compute_next_due(),
        ensures
            res == self.spec_next_maintenance_due(),
            res.valid(),
    {
        let base = if self.last_downtime_date == Timestamp::unix_epoch() {
            self.installation_date
        } else {
            self.last_downtime_date
        };
        let days = self.interval_days as i64;
        base.plus_seconds(days * 86_400)
    }

    /// Whether maintenance is overdue at `now`: its instant has passed.
    pub fn is_maintenance_overdue_at(&self, now: &Timestamp) -> (res: bool)
        requires
            self.wf(),
            self.can_compute_next_due(),
        ensures
            res == self.spec_next_maintenance_due().precedes(*now),
    {
        self.next_maintenance_due().is_before(now)
    }

    /// Whether maintenance is overdue now.
    pub fn is_maintenance_overdue(&self) -> (res: bool)
        requires
            self.wf(),
            self.can_compute_next_due(),
        ensures
            exists|t: Timestamp| t.valid() && res == self.spec_next_maintenance_due().precedes(t),
    {
        let t = now();
        self.is_maintenance_overdue_at(&t)
    }

    /// The whole days from `now` until maintenance is due, rounded down, so
    /// negative once maintenance is overdue.
    pub fn days_until_maintenance_at(&self, now: &Timestamp) -> (res: i64)
        requires
            self.wf(),
            self.can_compute_next_due(),
            now.valid(),
        ensures
            res == spec_days_until(self.spec_next_maintenance_due(), *now),
            self.spec_next_maintenance_due().nanos < NANOS_PER_SEC && now.nanos < NANOS_PER_SEC
                ==> (res < 0 <==> self.spec_next_maintenance_due().precedes(*now)),
    {
        let next_due = self.next_maintenance_due();
        days_until(&next_due, now)
    }

    /// The whole days from now until maintenance is due, rounded down, so
    /// negative once maintenance is overdue.
    pub fn days_until_maintenance(&self) -> (res: i64)
        requires
            self.wf(),
            self.can_compute_next_due(),
        ensures
            exists|t: Timestamp| t.valid() && res == spec_days_until(self.spec_next_maintenance_due(), t)
                && (self.spec_next_maintenance_due().nanos < NANOS_PER_SEC && t.nanos < NANOS_PER_SEC
                    ==> (res < 0 <==> self.spec_next_maintenance_due().precedes(t))),
    {
        let t = now();
        self.days_until_maintenance_at(&t)
    }

    /// Maintenance of a positive interval falls due after the instant it is counted from.
    pub proof fn lemma_next_due_after_base(a: &Asset)
        requires
            a.wf(),
            a.interval_days > 0,
            a.can_compute_next_due(),
        ensures
            a.spec_maintenance_base().precedes(a.spec_next_maintenance_due()),
    {
    }

}

proof fn lemma_keys_distinct()
    ensures
        "id"@ != "name"@,
        "id"@ != "asset_type_id"@,
        "id"@ != "serial_number"@,
        "id"@ != "model_number"@,
        "id"@ != "purchase_date"@,
        "id"@ != "installation_date"@,
        "id"@ != "current_status"@,
        "id"@ != "location_id"@,
        "id"@ != "manufacturer_id"@,
        "id"@ != "maintenance_frequency"@,
        "id"@ != "maintenance_schedule_id"@,
        "id"@ != "interval_days"@,
        "id"@ != "documentation_keys"@,
        "id"@ != "work_order_ids"@,
        "id"@ != "warranty_start_date"@,
        "id"@ != "warranty_end_date"@,
        "id"@ != "total_downtime_hours"@,
        "id"@ != "last_downtime_date"@,
        "id"@ != "created_at"@,
        "id"@ != "updated_at"@,
        "name"@ != "asset_type_id"@,
        "name"@ != "serial_number"@,
        "name"@ != "model_number"@,
        "name"@ != "purchase_date"@,
        "name"@ != "installation_date"@,
        "name"@ != "current_status"@,
        "name"@ != "location_id"@,
        "name"@ != "manufacturer_id"@,
        "name"@ != "maintenance_frequency"@,
        "name"@ != "maintenance_schedule_id"@,
        "name"@ != "interval_days"@,
        "name"@ != "documentation_keys"@,
        "name"@ != "work_order_ids"@,
        "name"@ != "warranty_start_date"@,
        "name"@ != "warranty_end_date"@,
        "name"@ != "total_downtime_hours"@,
        "name"@ != "last_downtime_date"@,
        "name"@ != "created_at"@,
        "name"@ != "updated_at"@,
        "asset_type_id"@ != "serial_number"@,
        "asset_type_id"@ != "model_number"@,
        "asset_type_id"@ != "purchase_date"@,
        "asset_type_id"@ != "installation_date"@,
        "asset_type_id"@ != "current_status"@,
        "asset_type_id"@ != "location_id"@,
        "asset_type_id"@ != "manufacturer_id"@,
        "asset_type_id"@ != "maintenance_frequency"@,
        "asset_type_id"@ != "maintenance_schedule_id"@,
        "asset_type_id"@ != "interval_days"@,
        "asset_type_id"@ != "documentation_keys"@,
        "asset_type_id"@ != "work_order_ids"@,
        "asset_type_id"@ != "warranty_start_date"@,
        "asset_type_id"@ != "warranty_end_date"@,
        "asset_type_id"@ != "total_downtime_hours"@,
        "asset_type_id"@ != "last_downtime_date"@,
        "asset_type_id"@ != "created_at"@,
        "asset_type_id"@ != "updated_at"@,
        "serial_number"@ != "model_number"@,
        "serial_number"@ != "purchase_date"@,
        "serial_number"@ != "installation_date"@,
        "serial_number"@ != "current_status"@,
        "serial_number"@ != "location_id"@,
        "serial_number"@ != "manufacturer_id"@,
        "serial_number"@ != "maintenance_frequency"@,
        "serial_number"@ != "maintenance_schedule_id"@,
        "serial_number"@ != "interval_days"@,
        "serial_number"@ != "documentation_keys"@,
        "serial_number"@ != "work_order_ids"@,
        "serial_number"@ != "warranty_start_date"@,
        "serial_number"@ != "warranty_end_date"@,
        "serial_number"@ != "total_downtime_hours"@,
        "serial_number"@ != "last_downtime_date"@,
        "serial_number"@ != "created_at"@,
        "serial_number"@ != "updated_at"@,
        "model_number"@ != "purchase_date"@,
        "model_number"@ != "installation_date"@,
        "model_number"@ != "current_status"@,
        "model_number"@ != "location_id"@,
        "model_number"@ != "manufacturer_id"@,
        "model_number"@ != "maintenance_frequency"@,
        "model_number"@ != "maintenance_schedule_id"@,
        "model_number"@ != "interval_days"@,
        "model_number"@ != "documentation_keys"@,
        "model_number"@ != "work_order_ids"@,
        "model_number"@ != "warranty_start_date"@,
        "model_number"@ != "warranty_end_date"@,
        "model_number"@ != "total_downtime_hours"@,
        "model_number"@ != "last_downtime_date"@,
        "model_number"@ != "created_at"@,
        "model_number"@ != "updated_at"@,
        "purchase_date"@ != "installation_date"@,
        "purchase_date"@ != "current_status"@,
        "purchase_date"@ != "location_id"@,
        "purchase_date"@ != "manufacturer_id"@,
        "purchase_date"@ != "maintenance_frequency"@,
        "purchase_date"@ != "maintenance_schedule_id"@,
        "purchase_date"@ != "interval_days"@,
        "purchase_date"@ != "documentation_keys"@,
        "purchase_date"@ != "work_order_ids"@,
        "purchase_date"@ != "warranty_start_date"@,
        "purchase_date"@ != "warranty_end_date"@,
        "purchase_date"@ != "total_downtime_hours"@,
        "purchase_date"@ != "last_downtime_date"@,
        "purchase_date"@ != "created_at"@,
        "purchase_date"@ != "updated_at"@,
        "installation_date"@ != "current_status"@,
        "installation_date"@ != "location_id"@,
        "installation_date"@ != "manufacturer_id"@,
        "installation_date"@ != "maintenance_frequency"@,
        "installation_date"@ != "maintenance_schedule_id"@,
        "installation_date"@ != "interval_days"@,
        "installation_date"@ != "documentation_keys"@,
        "installation_date"@ != "work_order_ids"@,
        "installation_date"@ != "warranty_start_date"@,
        "installation_date"@ != "warranty_end_date"@,
        "installation_date"@ != "total_downtime_hours"@,
        "installation_date"@ != "last_downtime_date"@,
        "installation_date"@ != "created_at"@,
        "installation_date"@ != "updated_at"@,
        "current_status"@ != "location_id"@,
        "current_status"@ != "manufacturer_id"@,
        "current_status"@ != "maintenance_frequency"@,
        "current_status"@ != "maintenance_schedule_id"@,
        "current_status"@ != "interval_days"@,
        "current_status"@ != "documentation_keys"@,
        "current_status"@ != "work_order_ids"@,
        "current_status"@ != "warranty_start_date"@,
        "current_status"@ != "warranty_end_date"@,
        "current_status"@ != "total_downtime_hours"@,
        "current_status"@ != "last_downtime_date"@,
        "current_status"@ != "created_at"@,
        "current_status"@ != "updated_at"@,
        "location_id"@ != "manufacturer_id"@,
        "location_id"@ != "maintenance_frequency"@,
        "location_id"@ != "maintenance_schedule_id"@,
        "location_id"@ != "interval_days"@,
        "location_id"@ != "documentation_keys"@,
        "location_id"@ != "work_order_ids"@,
        "location_id"@ != "warranty_start_date"@,
        "location_id"@ != "warranty_end_date"@,
        "location_id"@ != "total_downtime_hours"@,
        "location_id"@ != "last_downtime_date"@,
        "location_id"@ != "created_at"@,
        "location_id"@ != "updated_at"@,
        "manufacturer_id"@ != "maintenance_frequency"@,
        "manufacturer_id"@ != "maintenance_schedule_id"@,
        "manufacturer_id"@ != "interval_days"@,
        "manufacturer_id"@ != "documentation_keys"@,
        "manufacturer_id"@ != "work_order_ids"@,
        "manufacturer_id"@ != "warranty_start_date"@,
        "manufacturer_id"@ != "warranty_end_date"@,
        "manufacturer_id"@ != "total_downtime_hours"@,
        "manufacturer_id"@ != "last_downtime_date"@,
        "manufacturer_id"@ != "created_at"@,
        "manufacturer_id"@ != "updated_at"@,
        "maintenance_frequency"@ != "maintenance_schedule_id"@,
        "maintenance_frequency"@ != "interval_days"@,
        "maintenance_frequency"@ != "documentation_keys"@,
        "maintenance_frequency"@ != "work_order_ids"@,
        "maintenance_frequency"@ != "warranty_start_date"@,
        "maintenance_frequency"@ != "warranty_end_date"@,
        "maintenance_frequency"@ != "total_downtime_hours"@,
        "maintenance_frequency"@ != "last_downtime_date"@,
        "maintenance_frequency"@ != "created_at"@,
        "maintenance_frequency"@ != "updated_at"@,
        "maintenance_schedule_id"@ != "interval_days"@,
        "maintenance_schedule_id"@ != "documentation_keys"@,
        "maintenance_schedule_id"@ != "work_order_ids"@,
        "maintenance_schedule_id"@ != "warranty_start_date"@,
        "maintenance_schedule_id"@ != "warranty_end_date"@,
        "maintenance_schedule_id"@ != "total_downtime_hours"@,
        "maintenance_schedule_id"@ != "last_downtime_date"@,
        "maintenance_schedule_id"@ != "created_at"@,
        "maintenance_schedule_id"@ != "updated_at"@,
        "interval_days"@ != "documentation_keys"@,
        "interval_days"@ != "work_order_ids"@,
        "interval_days"@ != "warranty_start_date"@,
        "interval_days"@ != "warranty_end_date"@,
        "interval_days"@ != "total_downtime_hours"@,
        "interval_days"@ != "last_downtime_date"@,
        "interval_days"@ != "created_at"@,
        "interval_days"@ != "updated_at"@,
        "documentation_keys"@ != "work_order_ids"@,
        "documentation_keys"@ != "warranty_start_date"@,
        "documentation_keys"@ != "warranty_end_date"@,
        "documentation_keys"@ != "total_downtime_hours"@,
        "documentation_keys"@ != "last_downtime_date"@,
        "documentation_keys"@ != "created_at"@,
        "documentation_keys"@ != "updated_at"@,
        "work_order_ids"@ != "warranty_start_date"@,
        "work_order_ids"@ != "warranty_end_date"@,
        "work_order_ids"@ != "total_downtime_hours"@,
        "work_order_ids"@ != "last_downtime_date"@,
        "work_order_ids"@ != "created_at"@,
        "work_order_ids"@ != "updated_at"@,
        "warranty_start_date"@ != "warranty_end_date"@,
        "warranty_start_date"@ != "total_downtime_hours"@,
        "warranty_start_date"@ != "last_downtime_date"@,
        "warranty_start_date"@ != "created_at"@,
        "warranty_start_date"@ != "updated_at"@,
        "warranty_end_date"@ != "total_downtime_hours"@,
        "warranty_end_date"@ != "last_downtime_date"@,
        "warranty_end_date"@ != "created_at"@,
        "warranty_end_date"@ != "updated_at"@,
        "total_downtime_hours"@ != "last_downtime_date"@,
        "total_downtime_hours"@ != "created_at"@,
        "total_downtime_hours"@ != "updated_at"@,
        "last_downtime_date"@ != "created_at"@,
        "last_downtime_date"@ != "updated_at"@,
        "created_at"@ != "updated_at"@,
{
    broadcast use vstd::string::group_string_axioms;
    reveal_strlit("id");
    reveal_strlit("name");
    reveal_strlit("asset_type_id");
    reveal_strlit("serial_number");
    reveal_strlit("model_number");
    reveal_strlit("purchase_date");
    reveal_strlit("installation_date");
    reveal_strlit("current_status");
    reveal_strlit("location_id");
    reveal_strlit("manufacturer_id");
    reveal_strlit("maintenance_frequency");
    reveal_strlit("maintenance_schedule_id");
    reveal_strlit("interval_days");
    reveal_strlit("documentation_keys");
    reveal_strlit("work_order_ids");
    reveal_strlit("warranty_start_date");
    reveal_strlit("warranty_end_date");
    reveal_strlit("total_downtime_hours");
    reveal_strlit("last_downtime_date");
    reveal_strlit("created_at");
    reveal_strlit("updated_at");
    assert("id"@.len() == 2);
    assert("name"@.len() == 4);
    assert("asset_type_id"@.len() == 13);
    assert("serial_number"@.len() == 13);
    assert("model_number"@.len() == 12);
    assert("purchase_date"@.len() == 13);
    assert("installation_date"@.len() == 17);
    assert("current_status"@.len() == 14);
    assert("location_id"@.len() == 11);
    assert("manufacturer_id"@.len() == 15);
    assert("maintenance_frequency"@.len() == 21);
    assert("maintenance_schedule_id"@.len() == 23);
    assert("interval_days"@.len() == 13);
    assert("documentation_keys"@.len() == 18);
    assert("work_order_ids"@.len() == 14);
    assert("warranty_start_date"@.len() == 19);
    assert("warranty_end_date"@.len() == 17);
    assert("total_downtime_hours"@.len() == 20);
    assert("last_downtime_date"@.len() == 18);
    assert("created_at"@.len() == 10);
    assert("updated_at"@.len() == 10);
    assert("asset_type_id"@[0] != "serial_number"@[0]);
    assert("asset_type_id"@[0] != "purchase_date"@[0]);
    assert("asset_type_id"@[0] != "interval_days"@[0]);
    assert("serial_number"@[0] != "purchase_date"@[0]);
    assert("serial_number"@[0] != "interval_days"@[0]);
    assert("purchase_date"@[0] != "interval_days"@[0]);
    assert("installation_date"@[0] != "warranty_end_date"@[0]);
    assert("current_status"@[0] != "work_order_ids"@[0]);
    assert("documentation_keys"@[0] != "last_downtime_date"@[0]);
    assert("created_at"@[0] != "updated_at"@[0]);
}

proof fn lemma_table_keys_absent()
    ensures
        "type_id"@ != "asset_type_id"@,
        "type_id"@ != "created_at"@,
        "type_id"@ != "current_status"@,
        "type_id"@ != "documentation_keys"@,
        "type_id"@ != "id"@,
        "type_id"@ != "installation_date"@,
        "type_id"@ != "interval_days"@,
        "type_id"@ != "last_downtime_date"@,
        "type_id"@ != "location_id"@,
        "type_id"@ != "maintenance_frequency"@,
        "type_id"@ != "maintenance_schedule_id"@,
        "type_id"@ != "manufacturer_id"@,
        "type_id"@ != "model_number"@,
        "type_id"@ != "name"@,
        "type_id"@ != "purchase_date"@,
        "type_id"@ != "serial_number"@,
        "type_id"@ != "total_downtime_hours"@,
        "type_id"@ != "updated_at"@,
        "type_id"@ != "warranty_end_date"@,
        "type_id"@ != "warranty_start_date"@,
        "type_id"@ != "work_order_ids"@,
{
    broadcast use vstd::string::group_string_axioms;
    reveal_strlit("type_id");
    reveal_strlit("asset_type_id");
    reveal_strlit("created_at");
    reveal_strlit("current_status");
    reveal_strlit("documentation_keys");
    reveal_strlit("id");
    reveal_strlit("installation_date");
    reveal_strlit("interval_days");
    reveal_strlit("last_downtime_date");
    reveal_strlit("location_id");
    reveal_strlit("maintenance_frequency");
    reveal_strlit("maintenance_schedule_id");
    reveal_strlit("manufacturer_id");
    reveal_strlit("model_number");
    reveal_strlit("name");
    reveal_strlit("purchase_date");
    reveal_strlit("serial_number");
    reveal_strlit("total_downtime_hours");
    reveal_strlit("updated_at");
    reveal_strlit("warranty_end_date");
    reveal_strlit("warranty_start_date");
    reveal_strlit("work_order_ids");
    assert("type_id"@.len() == 7);
    assert("asset_type_id"@.len() == 13);
    assert("created_at"@.len() == 10);
    assert("current_status"@.len() == 14);
    assert("documentation_keys"@.len() == 18);
    assert("id"@.len() == 2);
    assert("installation_date"@.len() == 17);
    assert("interval_days"@.len() == 13);
    assert("last_downtime_date"@.len() == 18);
    assert("location_id"@.len() == 11);
    assert("maintenance_frequency"@.len() == 21);
    assert("maintenance_schedule_id"@.len() == 23);
    assert("manufacturer_id"@.len() == 15);
    assert("model_number"@.len() == 12);
    assert("name"@.len() == 4);
    assert("purchase_date"@.len() == 13);
    assert("serial_number"@.len() == 13);
    assert("total_downtime_hours"@.len() == 20);
    assert("updated_at"@.len() == 10);
    assert("warranty_end_date"@.len() == 17);
    assert("warranty_start_date"@.len() == 19);
    assert("work_order_ids"@.len() == 14);
    assert("type_id"@.len() != "asset_type_id"@.len());
    assert("type_id"@.len() != "created_at"@.len());
    assert("type_id"@.len() != "current_status"@.len());
    assert("type_id"@.len() != "documentation_keys"@.len());
    assert("type_id"@.len() != "id"@.len());
    assert("type_id"@.len() != "installation_date"@.len());
    assert("type_id"@.len() != "interval_days"@.len());
    assert("type_id"@.len() != "last_downtime_date"@.len());
    assert("type_id"@.len() != "location_id"@.len());
    assert("type_id"@.len() != "maintenance_frequency"@.len());
    assert("type_id"@.len() != "maintenance_schedule_id"@.len());
    assert("type_id"@.len() != "manufacturer_id"@.len());
    assert("type_id"@.len() != "model_number"@.len());
    assert("type_id"@.len() != "name"@.len());
    assert("type_id"@.len() != "purchase_date"@.len());
    assert("type_id"@.len() != "serial_number"@.len());
    assert("type_id"@.len() != "total_downtime_hours"@.len());
    assert("type_id"@.len() != "updated_at"@.len());
    assert("type_id"@.len() != "warranty_end_date"@.len());
    assert("type_id"@.len() != "warranty_start_date"@.len());
    assert("type_id"@.len() != "work_order_ids"@.len());
}

} // verus!
