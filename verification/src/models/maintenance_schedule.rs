//! Maintenance schedules and the cadences they recur at.
use vstd::prelude::*;

use crate::error::{is_validation_error, AppError};
use crate::fields::{
    bool_or, i32_at, opt_view, read_bool_or, read_i32, read_s, read_timestamp, read_timestamp_or,
    timestamp_at, timestamp_or, write_i32, write_timestamp,
};
use crate::item::{push_if, s_at, AttrView, Item, ItemView};
use crate::numeric::{lemma_parse_format_i32, spec_format_i32};
use crate::text::str_eq;
use crate::time::{chrono_format_datetime, chrono_parse_datetime, now, Timestamp};

use crate::fields::l_or_empty;
use crate::item::AttrValue;
use crate::numeric::{format_i32, lemma_format_i32_chars, parse_i32, spec_parse_i32};
use crate::text::{join_text, str_chars, string_from_chars};

use crate::tables::{attr_fits, item_fits_table, spec_maintenance_schedules_table};

verus! {

/// The units a cadence counts in.
#[derive(Clone, Copy, Debug, PartialEq, Eq, Structural, Hash)]
pub enum CadenceUnit {
    Hours,
    Days,
    Weeks,
    Months,
    Years,
    RunHours,
    Cycles,
}

impl CadenceUnit {
    /// The text that stands for the variant in items and requests.
    pub open spec fn spec_str(self) -> Seq<char> {
        match self {
            CadenceUnit::Hours => "hours"@,
            CadenceUnit::Days => "days"@,
            CadenceUnit::Weeks => "weeks"@,
            CadenceUnit::Months => "months"@,
            CadenceUnit::Years => "years"@,
            CadenceUnit::RunHours => "run_hours"@,
            CadenceUnit::Cycles => "cycles"@,
        }
    }

    /// The variant that a text stands for, if any.
    pub open spec fn spec_parse(s: Seq<char>) -> Option<CadenceUnit> {
        if s == "hours"@ {
            Some(CadenceUnit::Hours)
        } else if s == "days"@ {
            Some(CadenceUnit::Days)
        } else if s == "weeks"@ {
            Some(CadenceUnit::Weeks)
        } else if s == "months"@ {
            Some(CadenceUnit::Months)
        } else if s == "years"@ {
            Some(CadenceUnit::Years)
        } else if s == "run_hours"@ {
            Some(CadenceUnit::RunHours)
        } else if s == "cycles"@ {
            Some(CadenceUnit::Cycles)
        } else {
            None
        }
    }

    pub fn to_str(&self) -> (res: &'static str)
        ensures
            res@ == self.spec_str(),
    {
        match self {
            CadenceUnit::Hours => "hours",
            CadenceUnit::Days => "days",
            CadenceUnit::Weeks => "weeks",
            CadenceUnit::Months => "months",
            CadenceUnit::Years => "years",
            CadenceUnit::RunHours => "run_hours",
            CadenceUnit::Cycles => "cycles",
        }
    }

    pub fn to_string(&self) -> (res: String)
        ensures
            res@ == self.spec_str(),
    {
        self.to_str().to_owned()
    }

    /// Reads a variant from its text; any other text is refused with a `ValidationError`.
    pub fn from_string(s: &str) -> (res: Result<CadenceUnit, AppError>)
        ensures
            match CadenceUnit::spec_parse(s@) {
                Some(v) => res == Ok::<CadenceUnit, AppError>(v),
                None => res matches Err(AppError::ValidationError(m)) && m@ == "Invalid cadence unit"@,
            },
    {
        if str_eq(s, "hours") {
            Ok(CadenceUnit::Hours)
        } else if str_eq(s, "days") {
            Ok(CadenceUnit::Days)
        } else if str_eq(s, "weeks") {
            Ok(CadenceUnit::Weeks)
        } else if str_eq(s, "months") {
            Ok(CadenceUnit::Months)
        } else if str_eq(s, "years") {
            Ok(CadenceUnit::Years)
        } else if str_eq(s, "run_hours") {
            Ok(CadenceUnit::RunHours)
        } else if str_eq(s, "cycles") {
            Ok(CadenceUnit::Cycles)
        } else {
            Err(AppError::ValidationError("Invalid cadence unit".to_owned()))
        }
    }

    /// Reading back the text of a variant gives the variant.
    pub proof fn lemma_parse_str(v: CadenceUnit)
        ensures
            CadenceUnit::spec_parse(v.spec_str()) == Some(v),
    {
        broadcast use vstd::string::group_string_axioms;
        reveal_strlit("hours");
        reveal_strlit("days");
        reveal_strlit("weeks");
        reveal_strlit("months");
        reveal_strlit("years");
        reveal_strlit("run_hours");
        reveal_strlit("cycles");
        assert("hours"@.len() == 5);
        assert("days"@.len() == 4);
        assert("weeks"@.len() == 5);
        assert("months"@.len() == 6);
        assert("years"@.len() == 5);
        assert("run_hours"@.len() == 9);
        assert("cycles"@.len() == 6);
        assert("hours"@[0] != "weeks"@[0]);
        assert("hours"@[0] != "years"@[0]);
        assert("weeks"@[0] != "years"@[0]);
        assert("months"@[0] != "cycles"@[0]);
    }
}



/// How often maintenance recurs: a number of units.
#[derive(Clone, Copy, Debug, PartialEq, Eq, Structural)]
pub struct MaintenanceCadence {
    pub interval: i32,
    pub unit: CadenceUnit,
}

/// Whether `k` is the one position of `_` in `s`.
pub open spec fn is_sole_underscore(s: Seq<char>, k: int) -> bool {
    &&& 0 <= k < s.len()
    &&& s[k] == '_'
    &&& forall|j: int| 0 <= j < s.len() && j != k ==> s[j] != '_'
}

/// `n / d` rounded toward zero, as Rust's `/` divides integers.
pub open spec fn div_toward_zero(n: int, d: int) -> int {
    if n >= 0 {
        n / d
    } else {
        -((-n) / d)
    }
}

impl MaintenanceCadence {
    /// The text of a cadence: the interval, `_`, then the unit.
    pub open spec fn spec_text(self) -> Seq<char> {
        spec_format_i32(self.interval) + "_"@ + self.unit.spec_str()
    }

    pub fn to_string(&self) -> (res: String)
        ensures
            res@ == self.spec_text(),
    {
        let n = format_i32(self.interval);
        let head = join_text(n.as_str(), "_");
        join_text(head.as_str(), self.unit.to_str())
    }

    /// What `from_string` makes of a text: split at `_`, there must be two
    /// parts, an `i32` and a unit.
    pub open spec fn spec_from_string(s: Seq<char>) -> Result<MaintenanceCadence, Seq<char>> {
        if !(exists|k: int| is_sole_underscore(s, k)) {
            Err("Invalid cadence format"@)
        } else {
            let k = choose|k: int| is_sole_underscore(s, k);
            match spec_parse_i32(s.take(k)) {
                None => Err("Invalid interval"@),
                Some(n) => match CadenceUnit::spec_parse(s.skip(k + 1)) {
                    None => Err("Invalid cadence unit"@),
                    Some(u) => Ok(MaintenanceCadence { interval: n, unit: u }),
                },
            }
        }
    }

    /// Reads a cadence from its text.
    pub fn from_string(s: &str) -> (res: Result<Self, AppError>)
        ensures
            match Self::spec_from_string(s@) {
                Ok(c) => res matches Ok(r) && r == c,
                Err(m) => is_validation_error(res, m),
            },
    {
        let cs = str_chars(s);
        let n = cs.len();
        let mut p: usize = 0;
        while p < n && cs[p] != '_'
            invariant
                cs@ == s@,
                n == cs.len(),
                p <= n,
                forall|j: int| 0 <= j < p ==> s@[j] != '_',
            decreases n - p,
        {
            p = p + 1;
        }
        if p == n {
            proof {
                if exists|k: int| is_sole_underscore(s@, k) {
                    let k = choose|k: int| is_sole_underscore(s@, k);
                    assert(s@[k] == '_');
                }
            }
            return Err(AppError::ValidationError("Invalid cadence format".to_owned()));
        }
        let mut q: usize = p + 1;
        while q < n && cs[q] != '_'
            invariant
                cs@ == s@,
                n == cs.len(),
                p < q <= n,
                forall|j: int| p < j < q ==> s@[j] != '_',
            decreases n - q,
        {
            q = q + 1;
        }
        if q < n {
            proof {
                if exists|k: int| is_sole_underscore(s@, k) {
                    let k = choose|k: int| is_sole_underscore(s@, k);
                    if k == p as int {
                        assert(s@[q as int] == '_');
                    } else {
                        assert(s@[p as int] == '_');
                    }
                }
            }
            return Err(AppError::ValidationError("Invalid cadence format".to_owned()));
        }
        proof {
            assert(is_sole_underscore(s@, p as int));
            let k = choose|k: int| is_sole_underscore(s@, k);
            if k != p as int {
                assert(s@[p as int] == '_');
            }
        }
        let head = string_from_chars(&cs.as_slice()[0..p]);
        let tail = string_from_chars(&cs.as_slice()[p + 1..n]);
        assert(head@ == s@.take(p as int));
        assert(tail@ == s@.skip(p + 1));
        let interval = match parse_i32(head.as_str()) {
            Some(v) => v,
            None => {
                return Err(AppError::ValidationError("Invalid interval".to_owned()));
            },
        };
        let unit = CadenceUnit::from_string(tail.as_str())?;
        Ok(MaintenanceCadence { interval, unit })
    }

    /// The days a cadence stands for; runtime and cycle cadences have none.
    /// Months count 30 days and years 365.
    pub open spec fn spec_days(self) -> Result<int, Seq<char>> {
        match self.unit {
            CadenceUnit::Hours => Ok(div_toward_zero(self.interval as int, 24)),
            CadenceUnit::Days => Ok(self.interval as int),
            CadenceUnit::Weeks => Ok(self.interval * 7),
            CadenceUnit::Months => Ok(self.interval * 30),
            CadenceUnit::Years => Ok(self.interval * 365),
            CadenceUnit::RunHours | CadenceUnit::Cycles => Err("Cannot convert runtime-based cadence to days"@),
        }
    }

    /// Whether the days of the cadence fit in an `i32` (the multiplication would overflow otherwise).
    pub open spec fn days_fit(self) -> bool {
        match self.spec_days() {
            Ok(d) => i32::MIN <= d <= i32::MAX,
            Err(_) => true,
        }
    }

    pub fn to_days(&self) -> (res: Result<i32, AppError>)
        requires
            self.days_fit(),
        ensures
            match self.spec_days() {
                Ok(d) => res matches Ok(x) && x == d,
                Err(m) => is_validation_error(res, m),
            },
    {
        match self.unit {
            CadenceUnit::Hours => {
                let n = self.interval as i64;
                let q: i64 = if n >= 0 { n / 24 } else { -((-n) / 24) };
                Ok(q as i32)
            },
            CadenceUnit::Days => Ok(self.interval),
            CadenceUnit::Weeks => Ok(self.interval * 7),
            CadenceUnit::Months => Ok(self.interval * 30),
            CadenceUnit::Years => Ok(self.interval * 365),
            CadenceUnit::RunHours | CadenceUnit::Cycles => {
                Err(AppError::ValidationError("Cannot convert runtime-based cadence to days".to_owned()))
            },
        }
    }

    /// Reading back the text of a cadence gives the cadence, unless its unit is
    /// the run-hours unit, whose own text holds a `_`.
    pub proof fn lemma_text_roundtrip(c: MaintenanceCadence)
        requires
            c.unit != CadenceUnit::RunHours,
        ensures
            Self::spec_from_string(c.spec_text()) == Ok::<MaintenanceCadence, Seq<char>>(c),
    {
        lemma_unit_texts();
        reveal_strlit("_");
        let f = spec_format_i32(c.interval);
        let u = c.unit.spec_str();
        let s = c.spec_text();
        lemma_format_i32_chars(c.interval);
        let k = f.len() as int;
        assert(s[k] == '_');
        assert forall|j: int| 0 <= j < s.len() && j != k implies s[j] != '_' by {
            if j < k {
                assert(s[j] == f[j]);
            } else {
                assert(s[j] == u[j - k - 1]);
            }
        }
        assert(is_sole_underscore(s, k));
        let c2 = choose|k2: int| is_sole_underscore(s, k2);
        if c2 != k {
            assert(s[k] == '_');
        }
        assert(s.take(k) =~= f);
        assert(s.skip(k + 1) =~= u);
        lemma_parse_format_i32(c.interval);
        CadenceUnit::lemma_parse_str(c.unit);
    }

    /// The text of a run-hours cadence does not read back: it splits in three.
    pub proof fn lemma_run_hours_text_refused(c: MaintenanceCadence)
        requires
            c.unit == CadenceUnit::RunHours,
        ensures
            Self::spec_from_string(c.spec_text()) == Err::<MaintenanceCadence, Seq<char>>("Invalid cadence format"@),
    {
        lemma_unit_texts();
        reveal_strlit("_");
        let f = spec_format_i32(c.interval);
        let s = c.spec_text();
        let k = f.len() as int;
        assert(s[k] == '_');
        assert(s[k + 4] == '_');
        if exists|k2: int| is_sole_underscore(s, k2) {
            let k2 = choose|k2: int| is_sole_underscore(s, k2);
            if k2 == k {
                assert(s[k + 4] == '_');
            } else {
                assert(s[k] == '_');
            }
        }
    }

    /// Whether a map holds what a cadence needs to be read from it.
    pub open spec fn item_readable(iv: ItemView) -> bool {
        &&& i32_at(iv, "interval"@) is Some
        &&& s_at(iv, "unit"@) matches Some(u) && CadenceUnit::spec_parse(u) is Some
    }

    /// Whether this cadence is what is read from a map.
    pub open spec fn read_from(&self, iv: ItemView) -> bool {
        &&& Some(self.interval) == i32_at(iv, "interval"@)
        &&& Some(self.unit) == CadenceUnit::spec_parse(s_at(iv, "unit"@)->0)
    }

    /// The map that `to_item` writes: the interval as a number and the unit as its text.
    pub open spec fn spec_item(&self) -> ItemView {
        seq![("interval"@, AttrView::N(spec_format_i32(self.interval))), ("unit"@, AttrView::S(self.unit.spec_str()))]
    }

    /// Whether two cadences are the same.
    pub open spec fn same_as(&self, other: &MaintenanceCadence) -> bool {
        self == other
    }

    /// Reads a cadence from a map.
    pub fn from_item(item: &Item) -> (res: Option<Self>)
        ensures
            res is Some <==> Self::item_readable(item@),
            res matches Some(c) ==> c.read_from(item@),
    {
        let interval = read_i32(item, "interval")?;
        let unit_text = item.get_s("unit")?;
        let unit = CadenceUnit::from_string(unit_text.as_str()).ok()?;
        Some(MaintenanceCadence { interval, unit })
    }

    /// Writes the cadence as a map.
    pub fn to_item(&self) -> (res: Item)
        ensures
            res@ == self.spec_item(),
    {
        let mut item = Item::new();
        write_i32(&mut item, "interval", self.interval);
        item.insert_s("unit", self.unit.to_string());
        assert(item@ =~= self.spec_item());
        item
    }

    /// Reading a cadence back from the map it is written as gives the same cadence.
    pub proof fn lemma_item_roundtrip(a: &MaintenanceCadence, b: &MaintenanceCadence)
        ensures
            Self::item_readable(a.spec_item()),
            b.read_from(a.spec_item()) ==> b.same_as(a),
    {
        broadcast use crate::item::lemma_lookup_push;
        lemma_keys_distinct();
        let iv = a.spec_item();
        assert(iv == Seq::<(Seq<char>, AttrView)>::empty().push(iv[0]).push(iv[1]));
        lemma_parse_format_i32(a.interval);
        CadenceUnit::lemma_parse_str(a.unit);
    }

    /// The maps of a list that an element can be read from, in order.
    pub open spec fn readable_maps(l: Seq<AttrValue>) -> Seq<ItemView>
        decreases l.len(),
    {
        if l.len() == 0 {
            Seq::empty()
        } else {
            let rest = Self::readable_maps(l.drop_last());
            match l.last() {
                AttrValue::M(m) => if Self::item_readable(m@) { rest.push(m@) } else { rest },
                _ => rest,
            }
        }
    }

    /// Whether `vars` is what is read from a list: one element for each map
    /// that holds one, in order; other values are skipped.
    pub open spec fn list_read_from(vars: Seq<MaintenanceCadence>, l: Seq<AttrValue>) -> bool {
        &&& vars.len() == Self::readable_maps(l).len()
        &&& forall|i: int| 0 <= i < vars.len() ==> #[trigger] vars[i].read_from(Self::readable_maps(l)[i])
    }

    /// Whether two lists hold the same values.
    pub open spec fn list_same_as(a: Seq<MaintenanceCadence>, b: Seq<MaintenanceCadence>) -> bool {
        &&& a.len() == b.len()
        &&& forall|i: int| 0 <= i < a.len() ==> #[trigger] a[i].same_as(&b[i])
    }

    /// Whether `l` is the list written for `vars`: each element as a map, in order.
    pub open spec fn written_as(l: Seq<AttrValue>, vars: Seq<MaintenanceCadence>) -> bool {
        &&& l.len() == vars.len()
        &&& forall|i: int| 0 <= i < l.len() ==> (#[trigger] l[i] matches AttrValue::M(m) && m@ == vars[i].spec_item())
    }

    /// Reads the elements of a list, skipping values that do not hold one.
    pub fn read_list(l: &Vec<AttrValue>) -> (res: Vec<MaintenanceCadence>)
        ensures
            Self::list_read_from(res@, l@),
    {
        let mut res: Vec<MaintenanceCadence> = Vec::new();
        let mut i: usize = 0;
        while i < l.len()
            invariant
                i <= l.len(),
                Self::list_read_from(res@, l@.take(i as int)),
            decreases l.len() - i,
        {
            assert(l@.take(i + 1).drop_last() =~= l@.take(i as int));
            assert(l@.take(i + 1).last() == l@[i as int]);
            let ghost before = res@;
            match &l[i] {
                AttrValue::M(m) => {
                    if let Some(v) = MaintenanceCadence::from_item(m) {
                        res.push(v);
                        assert forall|j: int| 0 <= j < res@.len() implies #[trigger] res@[j].read_from(
                            Self::readable_maps(l@.take(i + 1))[j]) by {
                            if j < before.len() {
                                assert(res@[j] == before[j]);
                            }
                        }
                    }
                },
                _ => {},
            }
            i = i + 1;
        }
        assert(l@.take(i as int) =~= l@);
        res
    }

    /// Writes each element of a list as a map.
    pub fn write_list(vars: &Vec<MaintenanceCadence>) -> (res: Vec<AttrValue>)
        ensures
            Self::written_as(res@, vars@),
    {
        let mut res: Vec<AttrValue> = Vec::new();
        let mut i: usize = 0;
        while i < vars.len()
            invariant
                i <= vars.len(),
                Self::written_as(res@, vars@.take(i as int)),
            decreases vars.len() - i,
        {
            let m = vars[i].to_item();
            res.push(AttrValue::M(m));
            i = i + 1;
            assert forall|j: int| 0 <= j < res@.len() implies (#[trigger] res@[j] matches AttrValue::M(m)
                && m@ == vars@.take(i as int)[j].spec_item()) by {
                assert(vars@.take(i as int)[j] == vars@[j]);
                if j < i - 1 {
                    assert(vars@.take(i - 1)[j] == vars@[j]);
                }
            }
        }
        assert(vars@.take(i as int) =~= vars@);
        res
    }

    proof fn lemma_readable_maps_written(l: Seq<AttrValue>, vars: Seq<MaintenanceCadence>)
        requires
            Self::written_as(l, vars),
        ensures
            Self::readable_maps(l).len() == vars.len(),
            forall|i: int| 0 <= i < vars.len() ==> #[trigger] Self::readable_maps(l)[i] == vars[i].spec_item(),
        decreases l.len(),
    {
        if l.len() > 0 {
            let n = l.len() - 1;
            assert(Self::written_as(l.drop_last(), vars.drop_last())) by {
                assert forall|i: int| 0 <= i < l.drop_last().len() implies (#[trigger] l.drop_last()[i] matches AttrValue::M(m)
                    && m@ == vars.drop_last()[i].spec_item()) by {
                    assert(l.drop_last()[i] == l[i]);
                }
            }
            Self::lemma_readable_maps_written(l.drop_last(), vars.drop_last());
            Self::lemma_item_roundtrip(&vars[n], &vars[n]);
            assert(l[n] == l.last());
        }
    }

    /// Reading back the list written for some elements gives the same elements.
    pub proof fn lemma_list_roundtrip(vars: Seq<MaintenanceCadence>, l: Seq<AttrValue>, back: Seq<MaintenanceCadence>)
        requires
            Self::written_as(l, vars),
        ensures
            Self::list_read_from(back, l) ==> Self::list_same_as(back, vars),
    {
        Self::lemma_readable_maps_written(l, vars);
        if Self::list_read_from(back, l) {
            assert forall|i: int| 0 <= i < back.len() implies #[trigger] back[i].same_as(&vars[i]) by {
                assert(back[i].read_from(Self::readable_maps(l)[i]));
                Self::lemma_item_roundtrip(&vars[i], &back[i]);
            }
        }
    }

}

/// The texts of the units hold a `_` only in the run-hours unit, after four characters.
proof fn lemma_unit_texts()
    ensures
        forall|u: CadenceUnit, i: int| u != CadenceUnit::RunHours && 0 <= i < u.spec_str().len()
            ==> #[trigger] u.spec_str()[i] != '_',
        "run_hours"@[3] == '_',
        "run_hours"@.len() == 9,
{
    reveal_strlit("hours");
    reveal_strlit("days");
    reveal_strlit("weeks");
    reveal_strlit("months");
    reveal_strlit("years");
    reveal_strlit("run_hours");
    reveal_strlit("cycles");
}

/// When an asset is to be maintained.
#[derive(Clone, Debug)]
pub struct MaintenanceSchedule {
    pub id: String,
    pub asset_id: String,
    pub cadences: Vec<MaintenanceCadence>,
    pub last_completed_at: Option<Timestamp>,
    pub last_completed_by_user_id: Option<String>,
    pub next_due_at: Timestamp,
    pub duration_estimate: Option<i32>,
    pub recurring: bool,
    pub active: bool,
    pub created_at: Timestamp,
    pub updated_at: Timestamp,
}

impl MaintenanceSchedule {
    /// The instants are ones that `chrono` represents.
    pub open spec fn wf(&self) -> bool {
        &&& (self.last_completed_at matches Some(t) ==> t.valid())
        &&& self.next_due_at.valid()
        &&& self.created_at.valid()
        &&& self.updated_at.valid()
    }

    /// Whether an item holds what this entity needs to be read from it.
    pub open spec fn item_readable(iv: ItemView) -> bool {
        &&& s_at(iv, "id"@) is Some
        &&& s_at(iv, "asset_id"@) is Some
    }

    /// Whether this entity is what is read from an item, where instants that
    /// cannot be read are taken to be `now`.
    pub open spec fn read_from(&self, iv: ItemView, now: Timestamp) -> bool {
        &&& Some(self.id@) == s_at(iv, "id"@)
        &&& Some(self.asset_id@) == s_at(iv, "asset_id"@)
        &&& MaintenanceCadence::list_read_from(self.cadences@, l_or_empty(iv, "cadences"@))
        &&& self.last_completed_at == timestamp_at(iv, "last_completed_at"@)
        &&& opt_view(self.last_completed_by_user_id) == s_at(iv, "last_completed_by_user_id"@)
        &&& self.next_due_at == timestamp_or(iv, "next_due_at"@, now)
        &&& self.duration_estimate == i32_at(iv, "duration_estimate"@)
        &&& self.recurring == bool_or(iv, "recurring"@, false)
        &&& self.active == bool_or(iv, "active"@, true)
        &&& self.created_at == timestamp_or(iv, "created_at"@, now)
        &&& self.updated_at == timestamp_or(iv, "updated_at"@, now)
    }

    /// The item that `to_item` writes.
    /// `vl` is the list written for `cadences`.
    pub open spec fn spec_item(&self, vl: Seq<AttrValue>) -> ItemView {
        let iv = Seq::empty();
        let iv = iv.push(("id"@, AttrView::S(self.id@)));
        let iv = iv.push(("asset_id"@, AttrView::S(self.asset_id@)));
        let iv = iv.push(("cadences"@, AttrView::L(vl)));
        let iv = push_if(iv, self.last_completed_at is Some, ("last_completed_at"@, AttrView::S(chrono_format_datetime(self.last_completed_at->0))));
        let iv = push_if(iv, self.last_completed_by_user_id is Some, ("last_completed_by_user_id"@, AttrView::S(self.last_completed_by_user_id->0@)));
        let iv = iv.push(("next_due_at"@, AttrView::S(chrono_format_datetime(self.next_due_at))));
        let iv = push_if(iv, self.duration_estimate is Some, ("duration_estimate"@, AttrView::N(spec_format_i32(self.duration_estimate->0))));
        let iv = iv.push(("recurring"@, AttrView::Bool(self.recurring)));
        let iv = iv.push(("active"@, AttrView::Bool(self.active)));
        let iv = iv.push(("created_at"@, AttrView::S(chrono_format_datetime(self.created_at))));
        let iv = iv.push(("updated_at"@, AttrView::S(chrono_format_datetime(self.updated_at))));
        iv
    }

    /// Whether two entities hold the same values.
    pub open spec fn same_as(&self, other: &MaintenanceSchedule) -> bool {
        &&& self.id@ == other.id@
        &&& self.asset_id@ == other.asset_id@
        &&& MaintenanceCadence::list_same_as(self.cadences@, other.cadences@)
        &&& self.last_completed_at == other.last_completed_at
        &&& opt_view(self.last_completed_by_user_id) == opt_view(other.last_completed_by_user_id)
        &&& self.next_due_at == other.next_due_at
        &&& self.duration_estimate == other.duration_estimate
        &&& self.recurring == other.recurring
        &&& self.active == other.active
        &&& self.created_at == other.created_at
        &&& self.updated_at == other.updated_at
    }

    /// Reads the entity from an item, taking `now` for instants that are missing.
    pub fn from_item_at(item: &Item, now: Timestamp) -> (res: Option<Self>)
        requires
            now.valid(),
        ensures
            res is Some <==> Self::item_readable(item@),
            res matches Some(e) ==> e.read_from(item@, now) && e.wf(),
    {
        let id = read_s(item, "id")?;
        let asset_id = read_s(item, "asset_id")?;
        let cadences = match item.get_l("cadences") {
            Some(l) => MaintenanceCadence::read_list(l),
            None => Vec::new(),
        };
        let last_completed_at = read_timestamp(item, "last_completed_at");
        let last_completed_by_user_id = read_s(item, "last_completed_by_user_id");
        let next_due_at = read_timestamp_or(item, "next_due_at", now);
        let duration_estimate = read_i32(item, "duration_estimate");
        let recurring = read_bool_or(item, "recurring", false);
        let active = read_bool_or(item, "active", true);
        let created_at = read_timestamp_or(item, "created_at", now);
        let updated_at = read_timestamp_or(item, "updated_at", now);
        Some(MaintenanceSchedule {
            id,
            asset_id,
            cadences,
            last_completed_at,
            last_completed_by_user_id,
            next_due_at,
            duration_estimate,
            recurring,
            active,
            created_at,
            updated_at,
        })
    }

    /// Reads the entity from an item; instants that are missing are read from the clock.
    pub fn from_item(item: &Item) -> (res: Option<Self>)
        ensures
            res is Some <==> Self::item_readable(item@),
            res matches Some(e) ==> e.wf() && exists|t: Timestamp| t.valid() && e.read_from(item@, t),
    {
        let t = now();
        Self::from_item_at(item, t)
    }

    /// Writes the entity as an item.
    pub fn to_item(&self) -> (res: Item)
        requires
            self.wf(),
        ensures
            exists|vl: Seq<AttrValue>| res@ == self.spec_item(vl) && MaintenanceCadence::written_as(vl, self.cadences@),
    {
        let ghost mut vl: Seq<AttrValue> = Seq::empty();
        reveal(push_if);
        let mut item = Item::new();
        let ghost mut iv: ItemView = Seq::empty();
        item.insert_s("id", self.id.clone());
        proof { iv = iv.push(("id"@, AttrView::S(self.id@))); }
        assert(item@ == iv);
        item.insert_s("asset_id", self.asset_id.clone());
        proof { iv = iv.push(("asset_id"@, AttrView::S(self.asset_id@))); }
        assert(item@ == iv);
        let list = MaintenanceCadence::write_list(&self.cadences);
        proof { vl = list@; }
        item.insert("cadences".to_owned(), AttrValue::L(list));
        proof { iv = iv.push(("cadences"@, AttrView::L(vl))); }
        assert(item@ == iv);
        if let Some(t) = &self.last_completed_at {
            write_timestamp(&mut item, "last_completed_at", t);
        }
        proof { iv = push_if(iv, self.last_completed_at is Some, ("last_completed_at"@, AttrView::S(chrono_format_datetime(self.last_completed_at->0)))); }
        assert(item@ == iv);
        if let Some(x) = &self.last_completed_by_user_id {
            item.insert_s("last_completed_by_user_id", x.clone());
        }
        proof { iv = push_if(iv, self.last_completed_by_user_id is Some, ("last_completed_by_user_id"@, AttrView::S(self.last_completed_by_user_id->0@))); }
        assert(item@ == iv);
        write_timestamp(&mut item, "next_due_at", &self.next_due_at);
        proof { iv = iv.push(("next_due_at"@, AttrView::S(chrono_format_datetime(self.next_due_at)))); }
        assert(item@ == iv);
        if let Some(x) = self.duration_estimate {
            write_i32(&mut item, "duration_estimate", x);
        }
        proof { iv = push_if(iv, self.duration_estimate is Some, ("duration_estimate"@, AttrView::N(spec_format_i32(self.duration_estimate->0)))); }
        assert(item@ == iv);
        item.insert_bool("recurring", self.recurring);
        proof { iv = iv.push(("recurring"@, AttrView::Bool(self.recurring))); }
        assert(item@ == iv);
        item.insert_bool("active", self.active);
        proof { iv = iv.push(("active"@, AttrView::Bool(self.active))); }
        assert(item@ == iv);
        write_timestamp(&mut item, "created_at", &self.created_at);
        proof { iv = iv.push(("created_at"@, AttrView::S(chrono_format_datetime(self.created_at)))); }
        assert(item@ == iv);
        write_timestamp(&mut item, "updated_at", &self.updated_at);
        proof { iv = iv.push(("updated_at"@, AttrView::S(chrono_format_datetime(self.updated_at)))); }
        assert(item@ == iv);
        assert(item@ == self.spec_item(vl));
        item
    }

    /// Every attribute the `MaintenanceSchedules` table defines holds, in the item the entity is
    /// written as, nothing or a value of the type the table gives it, so
    /// DynamoDB accepts the item.
    pub proof fn lemma_item_fits_table(a: &MaintenanceSchedule, vl: Seq<AttrValue>)
        ensures
            item_fits_table(a.spec_item(vl), spec_maintenance_schedules_table()),
    {
        broadcast use crate::item::lemma_lookup_push, crate::item::lemma_lookup_push_if;
        lemma_keys_distinct();
        lemma_table_keys_absent();
        let t = spec_maintenance_schedules_table();
        assert forall|i: int| 0 <= i < t.attributes.len() implies match #[trigger] crate::item::lookup(a.spec_item(vl), t.attributes[i].0) {
            Some(v) => attr_fits(t.attributes[i].1, v),
            None => true,
        } by {
            if i == 0 { assert(t.attributes[0].0 == "id"@); } else if i == 1 { assert(t.attributes[1].0 == "asset_id"@); } else if i == 2 { assert(t.attributes[2].0 == "next_due_date"@); }
        }
    }

    /// Reading the entity back from the item it is written as gives the same
    /// entity, where `chrono` reads back the text of its instants.
    pub proof fn lemma_item_roundtrip(a: &MaintenanceSchedule, b: &MaintenanceSchedule, now: Timestamp, vl: Seq<AttrValue>)
        requires
            a.wf(),
            MaintenanceCadence::written_as(vl, a.cadences@),
            a.last_completed_at matches Some(t) ==> chrono_parse_datetime(chrono_format_datetime(t)) == Some(t),
            chrono_parse_datetime(chrono_format_datetime(a.next_due_at)) == Some(a.next_due_at),
            chrono_parse_datetime(chrono_format_datetime(a.created_at)) == Some(a.created_at),
            chrono_parse_datetime(chrono_format_datetime(a.updated_at)) == Some(a.updated_at),
        ensures
            Self::item_readable(a.spec_item(vl)),
            b.read_from(a.spec_item(vl), now) ==> b.same_as(a),
    {
        broadcast use crate::item::lemma_lookup_push, crate::item::lemma_lookup_push_if;
        lemma_keys_distinct();
        MaintenanceCadence::lemma_list_roundtrip(a.cadences@, vl, b.cadences@);
        if let Some(x) = a.duration_estimate { lemma_parse_format_i32(x); }
    }

    /// Creates a schedule; it needs at least one cadence.
    pub fn new(
        id: String,
        asset_id: String,
        cadences: Vec<MaintenanceCadence>,
        last_completed_at: Option<Timestamp>,
        last_completed_by_user_id: Option<String>,
        next_due_at: Timestamp,
        duration_estimate: Option<i32>,
        recurring: bool,
        active: bool,
    ) -> (res: Result<Self, AppError>)
        ensures
            cadences@.len() == 0 ==> is_validation_error(res, "At least one cadence is required"@),
            cadences@.len() > 0 ==> (res matches Ok(s) && {
                &&& s.id == id && s.asset_id == asset_id && s.cadences == cadences
                &&& s.last_completed_at == last_completed_at
                &&& s.last_completed_by_user_id == last_completed_by_user_id
                &&& s.next_due_at == next_due_at && s.duration_estimate == duration_estimate
                &&& s.recurring == recurring && s.active == active
                &&& s.created_at == s.updated_at && s.created_at.valid()
            }),
    {
        let now = now();
        if cadences.len() == 0 {
            return Err(AppError::ValidationError("At least one cadence is required".to_owned()));
        }
        Ok(MaintenanceSchedule {
            id,
            asset_id,
            cadences,
            last_completed_at,
            last_completed_by_user_id,
            next_due_at,
            duration_estimate,
            recurring,
            active,
            created_at: now,
            updated_at: now,
        })
    }

}

proof fn lemma_keys_distinct()
    ensures
        "id"@ != "asset_id"@,
        "id"@ != "cadences"@,
        "id"@ != "last_completed_at"@,
        "id"@ != "last_completed_by_user_id"@,
        "id"@ != "next_due_at"@,
        "id"@ != "duration_estimate"@,
        "id"@ != "recurring"@,
        "id"@ != "active"@,
        "id"@ != "created_at"@,
        "id"@ != "updated_at"@,
        "id"@ != "interval"@,
        "id"@ != "unit"@,
        "asset_id"@ != "cadences"@,
        "asset_id"@ != "last_completed_at"@,
        "asset_id"@ != "last_completed_by_user_id"@,
        "asset_id"@ != "next_due_at"@,
        "asset_id"@ != "duration_estimate"@,
        "asset_id"@ != "recurring"@,
        "asset_id"@ != "active"@,
        "asset_id"@ != "created_at"@,
        "asset_id"@ != "updated_at"@,
        "asset_id"@ != "interval"@,
        "asset_id"@ != "unit"@,
        "cadences"@ != "last_completed_at"@,
        "cadences"@ != "last_completed_by_user_id"@,
        "cadences"@ != "next_due_at"@,
        "cadences"@ != "duration_estimate"@,
        "cadences"@ != "recurring"@,
        "cadences"@ != "active"@,
        "cadences"@ != "created_at"@,
        "cadences"@ != "updated_at"@,
        "cadences"@ != "interval"@,
        "cadences"@ != "unit"@,
        "last_completed_at"@ != "last_completed_by_user_id"@,
        "last_completed_at"@ != "next_due_at"@,
        "last_completed_at"@ != "duration_estimate"@,
        "last_completed_at"@ != "recurring"@,
        "last_completed_at"@ != "active"@,
        "last_completed_at"@ != "created_at"@,
        "last_completed_at"@ != "updated_at"@,
        "last_completed_at"@ != "interval"@,
        "last_completed_at"@ != "unit"@,
        "last_completed_by_user_id"@ != "next_due_at"@,
        "last_completed_by_user_id"@ != "duration_estimate"@,
        "last_completed_by_user_id"@ != "recurring"@,
        "last_completed_by_user_id"@ != "active"@,
        "last_completed_by_user_id"@ != "created_at"@,
        "last_completed_by_user_id"@ != "updated_at"@,
        "last_completed_by_user_id"@ != "interval"@,
        "last_completed_by_user_id"@ != "unit"@,
        "next_due_at"@ != "duration_estimate"@,
        "next_due_at"@ != "recurring"@,
        "next_due_at"@ != "active"@,
        "next_due_at"@ != "created_at"@,
        "next_due_at"@ != "updated_at"@,
        "next_due_at"@ != "interval"@,
        "next_due_at"@ != "unit"@,
        "duration_estimate"@ != "recurring"@,
        "duration_estimate"@ != "active"@,
        "duration_estimate"@ != "created_at"@,
        "duration_estimate"@ != "updated_at"@,
        "duration_estimate"@ != "interval"@,
        "duration_estimate"@ != "unit"@,
        "recurring"@ != "active"@,
        "recurring"@ != "created_at"@,
        "recurring"@ != "updated_at"@,
        "recurring"@ != "interval"@,
        "recurring"@ != "unit"@,
        "active"@ != "created_at"@,
        "active"@ != "updated_at"@,
        "active"@ != "interval"@,
        "active"@ != "unit"@,
        "created_at"@ != "updated_at"@,
        "created_at"@ != "interval"@,
        "created_at"@ != "unit"@,
        "updated_at"@ != "interval"@,
        "updated_at"@ != "unit"@,
        "interval"@ != "unit"@,
{
    broadcast use vstd::string::group_string_axioms;
    reveal_strlit("id");
    reveal_strlit("asset_id");
    reveal_strlit("cadences");
    reveal_strlit("last_completed_at");
    reveal_strlit("last_completed_by_user_id");
    reveal_strlit("next_due_at");
    reveal_strlit("duration_estimate");
    reveal_strlit("recurring");
    reveal_strlit("active");
    reveal_strlit("created_at");
    reveal_strlit("updated_at");
    reveal_strlit("interval");
    reveal_strlit("unit");
    assert("id"@.len() == 2);
    assert("asset_id"@.len() == 8);
    assert("cadences"@.len() == 8);
    assert("last_completed_at"@.len() == 17);
    assert("last_completed_by_user_id"@.len() == 25);
    assert("next_due_at"@.len() == 11);
    assert("duration_estimate"@.len() == 17);
    assert("recurring"@.len() == 9);
    assert("active"@.len() == 6);
    assert("created_at"@.len() == 10);
    assert("updated_at"@.len() == 10);
    assert("interval"@.len() == 8);
    assert("unit"@.len() == 4);
    assert("asset_id"@[0] != "cadences"@[0]);
    assert("asset_id"@[0] != "interval"@[0]);
    assert("cadences"@[0] != "interval"@[0]);
    assert("last_completed_at"@[0] != "duration_estimate"@[0]);
    assert("created_at"@[0] != "updated_at"@[0]);
}

proof fn lemma_table_keys_absent()
    ensures
        "next_due_date"@ != "active"@,
        "next_due_date"@ != "asset_id"@,
        "next_due_date"@ != "cadences"@,
        "next_due_date"@ != "created_at"@,
        "next_due_date"@ != "duration_estimate"@,
        "next_due_date"@ != "id"@,
        "next_due_date"@ != "last_completed_at"@,
        "next_due_date"@ != "last_completed_by_user_id"@,
        "next_due_date"@ != "next_due_at"@,
        "next_due_date"@ != "recurring"@,
        "next_due_date"@ != "updated_at"@,
{
    broadcast use vstd::string::group_string_axioms;
    reveal_strlit("next_due_date");
    reveal_strlit("active");
    reveal_strlit("asset_id");
    reveal_strlit("cadences");
    reveal_strlit("created_at");
    reveal_strlit("duration_estimate");
    reveal_strlit("id");
    reveal_strlit("last_completed_at");
    reveal_strlit("last_completed_by_user_id");
    reveal_strlit("next_due_at");
    reveal_strlit("recurring");
    reveal_strlit("updated_at");
    assert("next_due_date"@.len() == 13);
    assert("active"@.len() == 6);
    assert("asset_id"@.len() == 8);
    assert("cadences"@.len() == 8);
    assert("created_at"@.len() == 10);
    assert("duration_estimate"@.len() == 17);
    assert("id"@.len() == 2);
    assert("last_completed_at"@.len() == 17);
    assert("last_completed_by_user_id"@.len() == 25);
    assert("next_due_at"@.len() == 11);
    assert("recurring"@.len() == 9);
    assert("updated_at"@.len() == 10);
    assert("next_due_date"@.len() != "active"@.len());
    assert("next_due_date"@.len() != "asset_id"@.len());
    assert("next_due_date"@.len() != "cadences"@.len());
    assert("next_due_date"@.len() != "created_at"@.len());
    assert("next_due_date"@.len() != "duration_estimate"@.len());
    assert("next_due_date"@.len() != "id"@.len());
    assert("next_due_date"@.len() != "last_completed_at"@.len());
    assert("next_due_date"@.len() != "last_completed_by_user_id"@.len());
    assert("next_due_date"@.len() != "next_due_at"@.len());
    assert("next_due_date"@.len() != "recurring"@.len());
    assert("next_due_date"@.len() != "updated_at"@.len());
}

} // verus!
