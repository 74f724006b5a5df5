//! Work orders and their life cycle.
use vstd::prelude::*;

use crate::error::{is_validation_error, AppError};
use crate::fields::{
    i32_at, i32_or, opt_view, read_i32, read_i32_or, read_s, read_timestamp, read_timestamp_or,
    timestamp_at, timestamp_or, write_i32, write_timestamp,
};
use crate::item::{lookup, push_if, s_at, AttrView, Item, ItemView};
use crate::numeric::{lemma_parse_format_i32, spec_format_i32};
use crate::text::{is_blank, is_blank_spec, str_eq};
use crate::time::{chrono_format_datetime, chrono_parse_datetime, now, Timestamp, NANOS_PER_SEC};
use crate::decimal::{decimal_format, decimal_parse, format_decimal, parse_decimal, DecimalNumber};

use crate::tables::{attr_fits, item_fits_table, spec_work_orders_table};

verus! {

#[derive(Clone, Copy, Debug, PartialEq, Eq, Structural, Hash)]
pub enum WorkOrderSeverity {
    Critical,
    Important,
    Valuable,
    Nice,
}

impl WorkOrderSeverity {
    /// The text that stands for the variant in items and requests.
    pub open spec fn spec_str(self) -> Seq<char> {
        match self {
            WorkOrderSeverity::Critical => "critical"@,
            WorkOrderSeverity::Important => "important"@,
            WorkOrderSeverity::Valuable => "valuable"@,
            WorkOrderSeverity::Nice => "nice"@,
        }
    }

    /// The variant that a text stands for, if any.
    pub open spec fn spec_parse(s: Seq<char>) -> Option<WorkOrderSeverity> {
        if s == "critical"@ {
            Some(WorkOrderSeverity::Critical)
        } else if s == "important"@ {
            Some(WorkOrderSeverity::Important)
        } else if s == "valuable"@ {
            Some(WorkOrderSeverity::Valuable)
        } else if s == "nice"@ {
            Some(WorkOrderSeverity::Nice)
        } else {
            None
        }
    }

    pub fn to_str(&self) -> (res: &'static str)
        ensures
            res@ == self.spec_str(),
    {
        match self {
            WorkOrderSeverity::Critical => "critical",
            WorkOrderSeverity::Important => "important",
            WorkOrderSeverity::Valuable => "valuable",
            WorkOrderSeverity::Nice => "nice",
        }
    }

    pub fn to_string(&self) -> (res: String)
        ensures
            res@ == self.spec_str(),
    {
        self.to_str().to_owned()
    }

    /// Reads a variant from its text; any other text is refused with a `ValidationError`.
    pub fn from_string(s: &str) -> (res: Result<WorkOrderSeverity, AppError>)
        ensures
            match WorkOrderSeverity::spec_parse(s@) {
                Some(v) => res == Ok::<WorkOrderSeverity, AppError>(v),
                None => res matches Err(AppError::ValidationError(m)) && m@ == "Invalid work order severity"@,
            },
    {
        if str_eq(s, "critical") {
            Ok(WorkOrderSeverity::Critical)
        } else if str_eq(s, "important") {
            Ok(WorkOrderSeverity::Important)
        } else if str_eq(s, "valuable") {
            Ok(WorkOrderSeverity::Valuable)
        } else if str_eq(s, "nice") {
            Ok(WorkOrderSeverity::Nice)
        } else {
            Err(AppError::ValidationError("Invalid work order severity".to_owned()))
        }
    }

    /// Reading back the text of a variant gives the variant.
    pub proof fn lemma_parse_str(v: WorkOrderSeverity)
        ensures
            WorkOrderSeverity::spec_parse(v.spec_str()) == Some(v),
    {
        broadcast use vstd::string::group_string_axioms;
        reveal_strlit("critical");
        reveal_strlit("important");
        reveal_strlit("valuable");
        reveal_strlit("nice");
        assert("critical"@.len() == 8);
        assert("important"@.len() == 9);
        assert("valuable"@.len() == 8);
        assert("nice"@.len() == 4);
        assert("critical"@[0] != "valuable"@[0]);
    }
}


#[derive(Clone, Copy, Debug, PartialEq, Eq, Structural, Hash)]
pub enum WorkOrderDifficulty {
    Normal,
    Extended,
    Advanced,
    HireOut,
}

impl WorkOrderDifficulty {
    /// The text that stands for the variant in items and requests.
    pub open spec fn spec_str(self) -> Seq<char> {
        match self {
            WorkOrderDifficulty::Normal => "normal"@,
            WorkOrderDifficulty::Extended => "extended"@,
            WorkOrderDifficulty::Advanced => "advanced"@,
            WorkOrderDifficulty::HireOut => "hireOut"@,
        }
    }

    /// The variant that a text stands for, if any.
    pub open spec fn spec_parse(s: Seq<char>) -> Option<WorkOrderDifficulty> {
        if s == "normal"@ {
            Some(WorkOrderDifficulty::Normal)
        } else if s == "extended"@ {
            Some(WorkOrderDifficulty::Extended)
        } else if s == "advanced"@ {
            Some(WorkOrderDifficulty::Advanced)
        } else if s == "hireOut"@ {
            Some(WorkOrderDifficulty::HireOut)
        } else {
            None
        }
    }

    pub fn to_str(&self) -> (res: &'static str)
        ensures
            res@ == self.spec_str(),
    {
        match self {
            WorkOrderDifficulty::Normal => "normal",
            WorkOrderDifficulty::Extended => "extended",
            WorkOrderDifficulty::Advanced => "advanced",
            WorkOrderDifficulty::HireOut => "hireOut",
        }
    }

    pub fn to_string(&self) -> (res: String)
        ensures
            res@ == self.spec_str(),
    {
        self.to_str().to_owned()
    }

    /// Reads a variant from its text; any other text is refused with a `ValidationError`.
    pub fn from_string(s: &str) -> (res: Result<WorkOrderDifficulty, AppError>)
        ensures
            match WorkOrderDifficulty::spec_parse(s@) {
                Some(v) => res == Ok::<WorkOrderDifficulty, AppError>(v),
                None => res matches Err(AppError::ValidationError(m)) && m@ == "Invalid work order difficulty"@,
            },
    {
        if str_eq(s, "normal") {
            Ok(WorkOrderDifficulty::Normal)
        } else if str_eq(s, "extended") {
            Ok(WorkOrderDifficulty::Extended)
        } else if str_eq(s, "advanced") {
            Ok(WorkOrderDifficulty::Advanced)
        } else if str_eq(s, "hireOut") {
            Ok(WorkOrderDifficulty::HireOut)
        } else {
            Err(AppError::ValidationError("Invalid work order difficulty".to_owned()))
        }
    }

    /// Reading back the text of a variant gives the variant.
    pub proof fn lemma_parse_str(v: WorkOrderDifficulty)
        ensures
            WorkOrderDifficulty::spec_parse(v.spec_str()) == Some(v),
    {
        broadcast use vstd::string::group_string_axioms;
        reveal_strlit("normal");
        reveal_strlit("extended");
        reveal_strlit("advanced");
        reveal_strlit("hireOut");
        assert("normal"@.len() == 6);
        assert("extended"@.len() == 8);
        assert("advanced"@.len() == 8);
        assert("hireOut"@.len() == 7);
        assert("extended"@[0] != "advanced"@[0]);
    }
}


#[derive(Clone, Copy, Debug, PartialEq, Eq, Structural, Hash)]
pub enum WorkOrderCost {
    One,
    Two,
    Three,
    Four,
}

impl WorkOrderCost {
    /// The text that stands for the variant in items and requests.
    pub open spec fn spec_str(self) -> Seq<char> {
        match self {
            WorkOrderCost::One => "one"@,
            WorkOrderCost::Two => "two"@,
            WorkOrderCost::Three => "three"@,
            WorkOrderCost::Four => "four"@,
        }
    }

    /// The variant that a text stands for, if any.
    pub open spec fn spec_parse(s: Seq<char>) -> Option<WorkOrderCost> {
        if s == "one"@ {
            Some(WorkOrderCost::One)
        } else if s == "two"@ {
            Some(WorkOrderCost::Two)
        } else if s == "three"@ {
            Some(WorkOrderCost::Three)
        } else if s == "four"@ {
            Some(WorkOrderCost::Four)
        } else {
            None
        }
    }

    pub fn to_str(&self) -> (res: &'static str)
        ensures
            res@ == self.spec_str(),
    {
        match self {
            WorkOrderCost::One => "one",
            WorkOrderCost::Two => "two",
            WorkOrderCost::Three => "three",
            WorkOrderCost::Four => "four",
        }
    }

    pub fn to_string(&self) -> (res: String)
        ensures
            res@ == self.spec_str(),
    {
        self.to_str().to_owned()
    }

    /// Reads a variant from its text; any other text is refused with a `ValidationError`.
    pub fn from_string(s: &str) -> (res: Result<WorkOrderCost, AppError>)
        ensures
            match WorkOrderCost::spec_parse(s@) {
                Some(v) => res == Ok::<WorkOrderCost, AppError>(v),
                None => res matches Err(AppError::ValidationError(m)) && m@ == "Invalid work order cost"@,
            },
    {
        if str_eq(s, "one") {
            Ok(WorkOrderCost::One)
        } else if str_eq(s, "two") {
            Ok(WorkOrderCost::Two)
        } else if str_eq(s, "three") {
            Ok(WorkOrderCost::Three)
        } else if str_eq(s, "four") {
            Ok(WorkOrderCost::Four)
        } else {
            Err(AppError::ValidationError("Invalid work order cost".to_owned()))
        }
    }

    /// Reading back the text of a variant gives the variant.
    pub proof fn lemma_parse_str(v: WorkOrderCost)
        ensures
            WorkOrderCost::spec_parse(v.spec_str()) == Some(v),
    {
        broadcast use vstd::string::group_string_axioms;
        reveal_strlit("one");
        reveal_strlit("two");
        reveal_strlit("three");
        reveal_strlit("four");
        assert("one"@.len() == 3);
        assert("two"@.len() == 3);
        assert("three"@.len() == 5);
        assert("four"@.len() == 4);
        assert("one"@[0] != "two"@[0]);
    }
}


#[derive(Clone, Copy, Debug, PartialEq, Eq, Structural, Hash)]
pub enum WorkOrderStatus {
    Draft,
    Scheduled,
    InProgress,
    OnHold,
    Completed,
    Cancelled,
    Failed,
    Deferred,
    WaitingParts,
    WaitingApproval,
}

impl WorkOrderStatus {
    /// The text that stands for the variant in items and requests.
    pub open spec fn spec_str(self) -> Seq<char> {
        match self {
            WorkOrderStatus::Draft => "draft"@,
            WorkOrderStatus::Scheduled => "scheduled"@,
            WorkOrderStatus::InProgress => "in_progress"@,
            WorkOrderStatus::OnHold => "on_hold"@,
            WorkOrderStatus::Completed => "completed"@,
            WorkOrderStatus::Cancelled => "cancelled"@,
            WorkOrderStatus::Failed => "failed"@,
            WorkOrderStatus::Deferred => "deferred"@,
            WorkOrderStatus::WaitingParts => "waiting_parts"@,
            WorkOrderStatus::WaitingApproval => "waiting_approval"@,
        }
    }

    /// The variant that a text stands for, if any.
    pub open spec fn spec_parse(s: Seq<char>) -> Option<WorkOrderStatus> {
        if s == "draft"@ {
            Some(WorkOrderStatus::Draft)
        } else if s == "scheduled"@ {
            Some(WorkOrderStatus::Scheduled)
        } else if s == "in_progress"@ {
            Some(WorkOrderStatus::InProgress)
        } else if s == "on_hold"@ {
            Some(WorkOrderStatus::OnHold)
        } else if s == "completed"@ {
            Some(WorkOrderStatus::Completed)
        } else if s == "cancelled"@ {
            Some(WorkOrderStatus::Cancelled)
        } else if s == "failed"@ {
            Some(WorkOrderStatus::Failed)
        } else if s == "deferred"@ {
            Some(WorkOrderStatus::Deferred)
        } else if s == "waiting_parts"@ {
            Some(WorkOrderStatus::WaitingParts)
        } else if s == "waiting_approval"@ {
            Some(WorkOrderStatus::WaitingApproval)
        } else {
            None
        }
    }

    pub fn to_str(&self) -> (res: &'static str)
        ensures
            res@ == self.spec_str(),
    {
        match self {
            WorkOrderStatus::Draft => "draft",
            WorkOrderStatus::Scheduled => "scheduled",
            WorkOrderStatus::InProgress => "in_progress",
            WorkOrderStatus::OnHold => "on_hold",
            WorkOrderStatus::Completed => "completed",
            WorkOrderStatus::Cancelled => "cancelled",
            WorkOrderStatus::Failed => "failed",
            WorkOrderStatus::Deferred => "deferred",
            WorkOrderStatus::WaitingParts => "waiting_parts",
            WorkOrderStatus::WaitingApproval => "waiting_approval",
        }
    }

    pub fn to_string(&self) -> (res: String)
        ensures
            res@ == self.spec_str(),
    {
        self.to_str().to_owned()
    }

    /// Reads a variant from its text; any other text is refused with a `ValidationError`.
    pub fn from_string(s: &str) -> (res: Result<WorkOrderStatus, AppError>)
        ensures
            match WorkOrderStatus::spec_parse(s@) {
                Some(v) => res == Ok::<WorkOrderStatus, AppError>(v),
                None => res matches Err(AppError::ValidationError(m)) && m@ == "Invalid work order status"@,
            },
    {
        if str_eq(s, "draft") {
            Ok(WorkOrderStatus::Draft)
        } else if str_eq(s, "scheduled") {
            Ok(WorkOrderStatus::Scheduled)
        } else if str_eq(s, "in_progress") {
            Ok(WorkOrderStatus::InProgress)
        } else if str_eq(s, "on_hold") {
            Ok(WorkOrderStatus::OnHold)
        } else if str_eq(s, "completed") {
            Ok(WorkOrderStatus::Completed)
        } else if str_eq(s, "cancelled") {
            Ok(WorkOrderStatus::Cancelled)
        } else if str_eq(s, "failed") {
            Ok(WorkOrderStatus::Failed)
        } else if str_eq(s, "deferred") {
            Ok(WorkOrderStatus::Deferred)
        } else if str_eq(s, "waiting_parts") {
            Ok(WorkOrderStatus::WaitingParts)
        } else if str_eq(s, "waiting_approval") {
            Ok(WorkOrderStatus::WaitingApproval)
        } else {
            Err(AppError::ValidationError("Invalid work order status".to_owned()))
        }
    }

    /// Reading back the text of a variant gives the variant.
    pub proof fn lemma_parse_str(v: WorkOrderStatus)
        ensures
            WorkOrderStatus::spec_parse(v.spec_str()) == Some(v),
    {
        broadcast use vstd::string::group_string_axioms;
        reveal_strlit("draft");
        reveal_strlit("scheduled");
        reveal_strlit("in_progress");
        reveal_strlit("on_hold");
        reveal_strlit("completed");
        reveal_strlit("cancelled");
        reveal_strlit("failed");
        reveal_strlit("deferred");
        reveal_strlit("waiting_parts");
        reveal_strlit("waiting_approval");
        assert("draft"@.len() == 5);
        assert("scheduled"@.len() == 9);
        assert("in_progress"@.len() == 11);
        assert("on_hold"@.len() == 7);
        assert("completed"@.len() == 9);
        assert("cancelled"@.len() == 9);
        assert("failed"@.len() == 6);
        assert("deferred"@.len() == 8);
        assert("waiting_parts"@.len() == 13);
        assert("waiting_approval"@.len() == 16);
        assert("scheduled"@[0] != "completed"@[0]);
        assert("scheduled"@[0] != "cancelled"@[0]);
        assert("completed"@[1] != "cancelled"@[1]);
    }
}


#[derive(Clone, Copy, Debug, PartialEq, Eq, Structural, Hash)]
pub enum WorkOrderPriority {
    Low,
    Normal,
    High,
    Urgent,
    Emergency,
}

impl WorkOrderPriority {
    /// The text that stands for the variant in items and requests.
    pub open spec fn spec_str(self) -> Seq<char> {
        match self {
            WorkOrderPriority::Low => "low"@,
            WorkOrderPriority::Normal => "normal"@,
            WorkOrderPriority::High => "high"@,
            WorkOrderPriority::Urgent => "urgent"@,
            WorkOrderPriority::Emergency => "emergency"@,
        }
    }

    /// The variant that a text stands for, if any.
    pub open spec fn spec_parse(s: Seq<char>) -> Option<WorkOrderPriority> {
        if s == "low"@ {
            Some(WorkOrderPriority::Low)
        } else if s == "normal"@ {
            Some(WorkOrderPriority::Normal)
        } else if s == "high"@ {
            Some(WorkOrderPriority::High)
        } else if s == "urgent"@ {
            Some(WorkOrderPriority::Urgent)
        } else if s == "emergency"@ {
            Some(WorkOrderPriority::Emergency)
        } else {
            None
        }
    }

    pub fn to_str(&self) -> (res: &'static str)
        ensures
            res@ == self.spec_str(),
    {
        match self {
            WorkOrderPriority::Low => "low",
            WorkOrderPriority::Normal => "normal",
            WorkOrderPriority::High => "high",
            WorkOrderPriority::Urgent => "urgent",
            WorkOrderPriority::Emergency => "emergency",
        }
    }

    pub fn to_string(&self) -> (res: String)
        ensures
            res@ == self.spec_str(),
    {
        self.to_str().to_owned()
    }

    /// Reads a variant from its text; any other text is refused with a `ValidationError`.
    pub fn from_string(s: &str) -> (res: Result<WorkOrderPriority, AppError>)
        ensures
            match WorkOrderPriority::spec_parse(s@) {
                Some(v) => res == Ok::<WorkOrderPriority, AppError>(v),
                None => res matches Err(AppError::ValidationError(m)) && m@ == "Invalid work order priority"@,
            },
    {
        if str_eq(s, "low") {
            Ok(WorkOrderPriority::Low)
        } else if str_eq(s, "normal") {
            Ok(WorkOrderPriority::Normal)
        } else if str_eq(s, "high") {
            Ok(WorkOrderPriority::High)
        } else if str_eq(s, "urgent") {
            Ok(WorkOrderPriority::Urgent)
        } else if str_eq(s, "emergency") {
            Ok(WorkOrderPriority::Emergency)
        } else {
            Err(AppError::ValidationError("Invalid work order priority".to_owned()))
        }
    }

    /// Reading back the text of a variant gives the variant.
    pub proof fn lemma_parse_str(v: WorkOrderPriority)
        ensures
            WorkOrderPriority::spec_parse(v.spec_str()) == Some(v),
    {
        broadcast use vstd::string::group_string_axioms;
        reveal_strlit("low");
        reveal_strlit("normal");
        reveal_strlit("high");
        reveal_strlit("urgent");
        reveal_strlit("emergency");
        assert("low"@.len() == 3);
        assert("normal"@.len() == 6);
        assert("high"@.len() == 4);
        assert("urgent"@.len() == 6);
        assert("emergency"@.len() == 9);
        assert("normal"@[0] != "urgent"@[0]);
    }
}


#[derive(Clone, Copy, Debug, PartialEq, Eq, Structural, Hash)]
pub enum WorkOrderType {
    Preventive,
    Corrective,
    Emergency,
    Inspection,
    Calibration,
    Installation,
    Upgrade,
    Replacement,
    Cleaning,
    Safety,
}

impl WorkOrderType {
    /// The text that stands for the variant in items and requests.
    pub open spec fn spec_str(self) -> Seq<char> {
        match self {
            WorkOrderType::Preventive => "preventive"@,
            WorkOrderType::Corrective => "corrective"@,
            WorkOrderType::Emergency => "emergency"@,
            WorkOrderType::Inspection => "inspection"@,
            WorkOrderType::Calibration => "calibration"@,
            WorkOrderType::Installation => "installation"@,
            WorkOrderType::Upgrade => "upgrade"@,
            WorkOrderType::Replacement => "replacement"@,
            WorkOrderType::Cleaning => "cleaning"@,
            WorkOrderType::Safety => "safety"@,
        }
    }

    /// The variant that a text stands for, if any.
    pub open spec fn spec_parse(s: Seq<char>) -> Option<WorkOrderType> {
        if s == "preventive"@ {
            Some(WorkOrderType::Preventive)
        } else if s == "corrective"@ {
            Some(WorkOrderType::Corrective)
        } else if s == "emergency"@ {
            Some(WorkOrderType::Emergency)
        } else if s == "inspection"@ {
            Some(WorkOrderType::Inspection)
        } else if s == "calibration"@ {
            Some(WorkOrderType::Calibration)
        } else if s == "installation"@ {
            Some(WorkOrderType::Installation)
        } else if s == "upgrade"@ {
            Some(WorkOrderType::Upgrade)
        } else if s == "replacement"@ {
            Some(WorkOrderType::Replacement)
        } else if s == "cleaning"@ {
            Some(WorkOrderType::Cleaning)
        } else if s == "safety"@ {
            Some(WorkOrderType::Safety)
        } else {
            None
        }
    }

    pub fn to_str(&self) -> (res: &'static str)
        ensures
            res@ == self.spec_str(),
    {
        match self {
            WorkOrderType::Preventive => "preventive",
            WorkOrderType::Corrective => "corrective",
            WorkOrderType::Emergency => "emergency",
            WorkOrderType::Inspection => "inspection",
            WorkOrderType::Calibration => "calibration",
            WorkOrderType::Installation => "installation",
            WorkOrderType::Upgrade => "upgrade",
            WorkOrderType::Replacement => "replacement",
            WorkOrderType::Cleaning => "cleaning",
            WorkOrderType::Safety => "safety",
        }
    }

    pub fn to_string(&self) -> (res: String)
        ensures
            res@ == self.spec_str(),
    {
        self.to_str().to_owned()
    }

    /// Reads a variant from its text; any other text is refused with a `ValidationError`.
    pub fn from_string(s: &str) -> (res: Result<WorkOrderType, AppError>)
        ensures
            match WorkOrderType::spec_parse(s@) {
                Some(v) => res == Ok::<WorkOrderType, AppError>(v),
                None => res matches Err(AppError::ValidationError(m)) && m@ == "Invalid work order type"@,
            },
    {
        if str_eq(s, "preventive") {
            Ok(WorkOrderType::Preventive)
        } else if str_eq(s, "corrective") {
            Ok(WorkOrderType::Corrective)
        } else if str_eq(s, "emergency") {
            Ok(WorkOrderType::Emergency)
        } else if str_eq(s, "inspection") {
            Ok(WorkOrderType::Inspection)
        } else if str_eq(s, "calibration") {
            Ok(WorkOrderType::Calibration)
        } else if str_eq(s, "installation") {
            Ok(WorkOrderType::Installation)
        } else if str_eq(s, "upgrade") {
            Ok(WorkOrderType::Upgrade)
        } else if str_eq(s, "replacement") {
            Ok(WorkOrderType::Replacement)
        } else if str_eq(s, "cleaning") {
            Ok(WorkOrderType::Cleaning)
        } else if str_eq(s, "safety") {
            Ok(WorkOrderType::Safety)
        } else {
            Err(AppError::ValidationError("Invalid work order type".to_owned()))
        }
    }

    /// Reading back the text of a variant gives the variant.
    pub proof fn lemma_parse_str(v: WorkOrderType)
        ensures
            WorkOrderType::spec_parse(v.spec_str()) == Some(v),
    {
        broadcast use vstd::string::group_string_axioms;
        reveal_strlit("preventive");
        reveal_strlit("corrective");
        reveal_strlit("emergency");
        reveal_strlit("inspection");
        reveal_strlit("calibration");
        reveal_strlit("installation");
        reveal_strlit("upgrade");
        reveal_strlit("replacement");
        reveal_strlit("cleaning");
        reveal_strlit("safety");
        assert("preventive"@.len() == 10);
        assert("corrective"@.len() == 10);
        assert("emergency"@.len() == 9);
        assert("inspection"@.len() == 10);
        assert("calibration"@.len() == 11);
        assert("installation"@.len() == 12);
        assert("upgrade"@.len() == 7);
        assert("replacement"@.len() == 11);
        assert("cleaning"@.len() == 8);
        assert("safety"@.len() == 6);
        assert("preventive"@[0] != "corrective"@[0]);
        assert("preventive"@[0] != "inspection"@[0]);
        assert("corrective"@[0] != "inspection"@[0]);
        assert("calibration"@[0] != "replacement"@[0]);
    }
}



impl WorkOrderSeverity {
    /// What the severity means.
    pub fn description(&self) -> (res: &'static str)
        ensures
            res@ == match self {
                WorkOrderSeverity::Critical => "Critical to Safety / Property Damage"@,
                WorkOrderSeverity::Important => "Important to facilitate sales"@,
                WorkOrderSeverity::Valuable => "Valuable to allow job function"@,
                WorkOrderSeverity::Nice => "Nice to have addressed"@,
            },
    {
        match self {
            WorkOrderSeverity::Critical => "Critical to Safety / Property Damage",
            WorkOrderSeverity::Important => "Important to facilitate sales",
            WorkOrderSeverity::Valuable => "Valuable to allow job function",
            WorkOrderSeverity::Nice => "Nice to have addressed",
        }
    }

    /// The rank of the severity, 1 being the most severe.
    pub open spec fn spec_level(self) -> u8 {
        match self {
            WorkOrderSeverity::Critical => 1,
            WorkOrderSeverity::Important => 2,
            WorkOrderSeverity::Valuable => 3,
            WorkOrderSeverity::Nice => 4,
        }
    }

    pub fn numeric_level(&self) -> (res: u8)
        ensures
            res == self.spec_level(),
    {
        match self {
            WorkOrderSeverity::Critical => 1,
            WorkOrderSeverity::Important => 2,
            WorkOrderSeverity::Valuable => 3,
            WorkOrderSeverity::Nice => 4,
        }
    }
}

impl WorkOrderDifficulty {
    /// What the difficulty means.
    pub fn description(&self) -> (res: &'static str)
        ensures
            res@ == match self {
                WorkOrderDifficulty::Normal => "Anticipated to be within normal maintenance"@,
                WorkOrderDifficulty::Extended => "Extended resources or materials needed"@,
                WorkOrderDifficulty::Advanced => "Coordinated work and materials involved"@,
                WorkOrderDifficulty::HireOut => "Need a professional"@,
            },
    {
        match self {
            WorkOrderDifficulty::Normal => "Anticipated to be within normal maintenance",
            WorkOrderDifficulty::Extended => "Extended resources or materials needed",
            WorkOrderDifficulty::Advanced => "Coordinated work and materials involved",
            WorkOrderDifficulty::HireOut => "Need a professional",
        }
    }

    /// The rank of the difficulty, 1 being the easiest.
    pub open spec fn spec_level(self) -> u8 {
        match self {
            WorkOrderDifficulty::Normal => 1,
            WorkOrderDifficulty::Extended => 2,
            WorkOrderDifficulty::Advanced => 3,
            WorkOrderDifficulty::HireOut => 4,
        }
    }

    pub fn numeric_level(&self) -> (res: u8)
        ensures
            res == self.spec_level(),
    {
        match self {
            WorkOrderDifficulty::Normal => 1,
            WorkOrderDifficulty::Extended => 2,
            WorkOrderDifficulty::Advanced => 3,
            WorkOrderDifficulty::HireOut => 4,
        }
    }
}

impl WorkOrderCost {
    /// The range of cost that the class stands for.
    pub fn description(&self) -> (res: &'static str)
        ensures
            res@ == match self {
                WorkOrderCost::One => "Under $250"@,
                WorkOrderCost::Two => "$250 - $499"@,
                WorkOrderCost::Three => "$500 - $2K"@,
                WorkOrderCost::Four => "Over $2k"@,
            },
    {
        match self {
            WorkOrderCost::One => "Under $250",
            WorkOrderCost::Two => "$250 - $499",
            WorkOrderCost::Three => "$500 - $2K",
            WorkOrderCost::Four => "Over $2k",
        }
    }

    /// The rank of the cost class, 1 being the cheapest.
    pub open spec fn spec_level(self) -> u8 {
        match self {
            WorkOrderCost::One => 1,
            WorkOrderCost::Two => 2,
            WorkOrderCost::Three => 3,
            WorkOrderCost::Four => 4,
        }
    }

    pub fn numeric_level(&self) -> (res: u8)
        ensures
            res == self.spec_level(),
    {
        match self {
            WorkOrderCost::One => 1,
            WorkOrderCost::Two => 2,
            WorkOrderCost::Three => 3,
            WorkOrderCost::Four => 4,
        }
    }
}

/// A unit of maintenance work on an asset.
#[derive(Clone, Debug)]
pub struct WorkOrder {
    pub id: String,
    pub work_order_number: String,
    pub title: String,
    pub description: String,
    pub asset_id: String,
    pub work_order_type: WorkOrderType,
    pub status: WorkOrderStatus,
    /// Read back from the completion notes of a stored item.
    pub notes: Option<String>,
    pub priority: WorkOrderPriority,
    pub severity: WorkOrderSeverity,
    pub difficulty: WorkOrderDifficulty,
    pub assigned_technician_id: Option<String>,
    pub estimated_duration_minutes: i32,
    pub actual_duration_minutes: Option<i32>,
    pub completed_date: Option<Timestamp>,
    pub estimated_cost: WorkOrderCost,
    pub actual_cost: Option<DecimalNumber>,
    /// The IEEE 754 binary64 bits of the labor hours; read and written as a number by the service around this library.
    pub labor_hours: Option<u64>,
    pub completion_notes: Option<String>,
    pub created_by: String,
    pub created_at: Timestamp,
    pub updated_at: Timestamp,
}

impl WorkOrder {
    /// The instants are ones that `chrono` represents.
    pub open spec fn wf(&self) -> bool {
        &&& (self.completed_date matches Some(t) ==> t.valid())
        &&& (self.actual_cost matches Some(d) ==> d.valid())
        &&& self.created_at.valid()
        &&& self.updated_at.valid()
    }

    /// The DynamoDB table of this entity.
    pub fn table_name() -> (res: &'static str)
        ensures
            res@ == "WorkOrders"@,
    {
        "WorkOrders"
    }

    /// The key of the entity in its table.
    pub fn primary_key(&self) -> (res: String)
        ensures
            res@ == self.id@,
    {
        self.id.clone()
    }

    /// Whether an item holds what this entity needs to be read from it.
    pub open spec fn item_readable(iv: ItemView) -> bool {
        &&& s_at(iv, "id"@) is Some
        &&& s_at(iv, "work_order_number"@) is Some
        &&& s_at(iv, "title"@) is Some
        &&& s_at(iv, "description"@) is Some
        &&& s_at(iv, "asset_id"@) is Some
        &&& s_at(iv, "work_order_type"@) matches Some(c) && WorkOrderType::spec_parse(c) is Some
        &&& s_at(iv, "status"@) matches Some(c) && WorkOrderStatus::spec_parse(c) is Some
        &&& s_at(iv, "priority"@) matches Some(c) && WorkOrderPriority::spec_parse(c) is Some
        &&& s_at(iv, "severity"@) matches Some(c) && WorkOrderSeverity::spec_parse(c) is Some
        &&& s_at(iv, "difficulty"@) matches Some(c) && WorkOrderDifficulty::spec_parse(c) is Some
        &&& s_at(iv, "estimated_cost"@) matches Some(c) && WorkOrderCost::spec_parse(c) is Some
        &&& s_at(iv, "created_by"@) is Some
    }

    /// Whether this entity is what is read from an item, where instants that
    /// cannot be read are taken to be `now`.
    pub open spec fn read_from(&self, iv: ItemView, now: Timestamp) -> bool {
        &&& Some(self.id@) == s_at(iv, "id"@)
        &&& Some(self.work_order_number@) == s_at(iv, "work_order_number"@)
        &&& Some(self.title@) == s_at(iv, "title"@)
        &&& Some(self.description@) == s_at(iv, "description"@)
        &&& Some(self.asset_id@) == s_at(iv, "asset_id"@)
        &&& Some(self.work_order_type) == WorkOrderType::spec_parse(s_at(iv, "work_order_type"@)->0)
        &&& Some(self.status) == WorkOrderStatus::spec_parse(s_at(iv, "status"@)->0)
        &&& opt_view(self.notes) == s_at(iv, "completion_notes"@)
        &&& Some(self.priority) == WorkOrderPriority::spec_parse(s_at(iv, "priority"@)->0)
        &&& Some(self.severity) == WorkOrderSeverity::spec_parse(s_at(iv, "severity"@)->0)
        &&& Some(self.difficulty) == WorkOrderDifficulty::spec_parse(s_at(iv, "difficulty"@)->0)
        &&& opt_view(self.assigned_technician_id) == s_at(iv, "assigned_technician_id"@)
        &&& self.estimated_duration_minutes == i32_or(iv, "estimated_duration_minutes"@, 60)
        &&& self.actual_duration_minutes == i32_at(iv, "actual_duration_minutes"@)
        &&& self.completed_date == timestamp_at(iv, "completed_date"@)
        &&& Some(self.estimated_cost) == WorkOrderCost::spec_parse(s_at(iv, "estimated_cost"@)->0)
        &&& self.actual_cost == (match s_at(iv, "actual_cost"@) { Some(s) => decimal_parse(s), None => None })
        &&& opt_view(self.completion_notes) == s_at(iv, "completion_notes"@)
        &&& Some(self.created_by@) == s_at(iv, "created_by"@)
        &&& self.created_at == timestamp_or(iv, "created_at"@, now)
        &&& self.updated_at == timestamp_or(iv, "updated_at"@, now)
    }

    /// The entries that `to_item` writes for id, work_order_number, title, description, asset_id, work_order_type, status, notes, priority, severity, difficulty, assigned_technician_id, after those of `iv`.
    pub open spec fn spec_item_part1(&self, iv: ItemView) -> ItemView {
        let iv = iv.push(("id"@, AttrView::S(self.id@)));
        let iv = iv.push(("work_order_number"@, AttrView::S(self.work_order_number@)));
        let iv = iv.push(("title"@, AttrView::S(self.title@)));
        let iv = iv.push(("description"@, AttrView::S(self.description@)));
        let iv = iv.push(("asset_id"@, AttrView::S(self.asset_id@)));
        let iv = iv.push(("work_order_type"@, AttrView::S(self.work_order_type.spec_str())));
        let iv = iv.push(("status"@, AttrView::S(self.status.spec_str())));
        let iv = push_if(iv, self.notes is Some, ("notes"@, AttrView::S(self.notes->0@)));
        let iv = iv.push(("priority"@, AttrView::S(self.priority.spec_str())));
        let iv = iv.push(("severity"@, AttrView::S(self.severity.spec_str())));
        let iv = iv.push(("difficulty"@, AttrView::S(self.difficulty.spec_str())));
        let iv = push_if(iv, self.assigned_technician_id is Some, ("assigned_technician_id"@, AttrView::S(self.assigned_technician_id->0@)));
        iv
    }

    /// The entries that `to_item` writes for estimated_duration_minutes, actual_duration_minutes, completed_date, estimated_cost, actual_cost, completion_notes, created_by, created_at, updated_at, after those of `iv`.
    pub open spec fn spec_item_part2(&self, iv: ItemView) -> ItemView {
        let iv = iv.push(("estimated_duration_minutes"@, AttrView::N(spec_format_i32(self.estimated_duration_minutes))));
        let iv = push_if(iv, self.actual_duration_minutes is Some, ("actual_duration_minutes"@, AttrView::N(spec_format_i32(self.actual_duration_minutes->0))));
        let iv = push_if(iv, self.completed_date is Some, ("completed_date"@, AttrView::S(chrono_format_datetime(self.completed_date->0))));
        let iv = iv.push(("estimated_cost"@, AttrView::S(self.estimated_cost.spec_str())));
        let iv = push_if(iv, self.actual_cost is Some, ("actual_cost"@, AttrView::S(decimal_format(self.actual_cost->0))));
        let iv = push_if(iv, self.completion_notes is Some, ("completion_notes"@, AttrView::S(self.completion_notes->0@)));
        let iv = iv.push(("created_by"@, AttrView::S(self.created_by@)));
        let iv = iv.push(("created_at"@, AttrView::S(chrono_format_datetime(self.created_at))));
        let iv = iv.push(("updated_at"@, AttrView::S(chrono_format_datetime(self.updated_at))));
        iv
    }

    /// The item that `to_item` writes.
    pub open spec fn spec_item(&self) -> ItemView {
        self.spec_item_part2(self.spec_item_part1(Seq::empty()))
    }

    /// Whether two entities hold the same values.
    pub open spec fn same_as(&self, other: &WorkOrder) -> bool {
        &&& self.id@ == other.id@
        &&& self.work_order_number@ == other.work_order_number@
        &&& self.title@ == other.title@
        &&& self.description@ == other.description@
        &&& self.asset_id@ == other.asset_id@
        &&& self.work_order_type == other.work_order_type
        &&& self.status == other.status
        &&& opt_view(self.notes) == opt_view(other.notes)
        &&& self.priority == other.priority
        &&& self.severity == other.severity
        &&& self.difficulty == other.difficulty
        &&& opt_view(self.assigned_technician_id) == opt_view(other.assigned_technician_id)
        &&& self.estimated_duration_minutes == other.estimated_duration_minutes
        &&& self.actual_duration_minutes == other.actual_duration_minutes
        &&& self.completed_date == other.completed_date
        &&& self.estimated_cost == other.estimated_cost
        &&& self.actual_cost == other.actual_cost
        &&& opt_view(self.completion_notes) == opt_view(other.completion_notes)
        &&& self.created_by@ == other.created_by@
        &&& self.created_at == other.created_at
        &&& self.updated_at == other.updated_at
    }

    /// Reads the entity from an item, taking `now` for instants that are missing.
    pub fn from_item_at(item: &Item, now: Timestamp, labor_hours: Option<u64>) -> (res: Option<Self>)
        requires
            now.valid(),
        ensures
            res is Some <==> Self::item_readable(item@),
            res matches Some(e) ==> e.read_from(item@, now) && e.wf() && e.labor_hours == labor_hours,
    {
        let id = read_s(item, "id")?;
        let work_order_number = read_s(item, "work_order_number")?;
        let title = read_s(item, "title")?;
        let description = read_s(item, "description")?;
        let asset_id = read_s(item, "asset_id")?;
        let work_order_type_text = item.get_s("work_order_type")?;
        let work_order_type = WorkOrderType::from_string(work_order_type_text.as_str()).ok()?;
        let status_text = item.get_s("status")?;
        let status = WorkOrderStatus::from_string(status_text.as_str()).ok()?;
        let notes = read_s(item, "completion_notes");
        let priority_text = item.get_s("priority")?;
        let priority = WorkOrderPriority::from_string(priority_text.as_str()).ok()?;
        let severity_text = item.get_s("severity")?;
        let severity = WorkOrderSeverity::from_string(severity_text.as_str()).ok()?;
        let difficulty_text = item.get_s("difficulty")?;
        let difficulty = WorkOrderDifficulty::from_string(difficulty_text.as_str()).ok()?;
        let assigned_technician_id = read_s(item, "assigned_technician_id");
        let estimated_duration_minutes = read_i32_or(item, "estimated_duration_minutes", 60);
        let actual_duration_minutes = read_i32(item, "actual_duration_minutes");
        let completed_date = read_timestamp(item, "completed_date");
        let estimated_cost_text = item.get_s("estimated_cost")?;
        let estimated_cost = WorkOrderCost::from_string(estimated_cost_text.as_str()).ok()?;
        let actual_cost = match item.get_s("actual_cost") {
            Some(t) => parse_decimal(t.as_str()),
            None => None,
        };
        let completion_notes = read_s(item, "completion_notes");
        let created_by = read_s(item, "created_by")?;
        let created_at = read_timestamp_or(item, "created_at", now);
        let updated_at = read_timestamp_or(item, "updated_at", now);
        Some(WorkOrder {
            id,
            work_order_number,
            title,
            description,
            asset_id,
            work_order_type,
            status,
            notes,
            priority,
            severity,
            difficulty,
            assigned_technician_id,
            estimated_duration_minutes,
            actual_duration_minutes,
            completed_date,
            estimated_cost,
            actual_cost,
            labor_hours,
            completion_notes,
            created_by,
            created_at,
            updated_at,
        })
    }

    /// Reads the entity from an item; instants that are missing are read from the clock.
    pub fn from_item(item: &Item, labor_hours: Option<u64>) -> (res: Option<Self>)
        ensures
            res is Some <==> Self::item_readable(item@),
            res matches Some(e) ==> e.wf() && e.labor_hours == labor_hours && exists|t: Timestamp| t.valid() && e.read_from(item@, t),
    {
        let t = now();
        Self::from_item_at(item, t, labor_hours)
    }

    fn write_part1(&self, item: &mut Item)
        requires
            self.wf(),
        ensures
            final(item)@ == self.spec_item_part1(old(item)@),
    {
        reveal(push_if);
        let ghost mut iv: ItemView = old(item)@;
        item.insert_s("id", self.id.clone());
        proof { iv = iv.push(("id"@, AttrView::S(self.id@))); }
        assert(item@ == iv);
        item.insert_s("work_order_number", self.work_order_number.clone());
        proof { iv = iv.push(("work_order_number"@, AttrView::S(self.work_order_number@))); }
        assert(item@ == iv);
        item.insert_s("title", self.title.clone());
        proof { iv = iv.push(("title"@, AttrView::S(self.title@))); }
        assert(item@ == iv);
        item.insert_s("description", self.description.clone());
        proof { iv = iv.push(("description"@, AttrView::S(self.description@))); }
        assert(item@ == iv);
        item.insert_s("asset_id", self.asset_id.clone());
        proof { iv = iv.push(("asset_id"@, AttrView::S(self.asset_id@))); }
        assert(item@ == iv);
        item.insert_s("work_order_type", self.work_order_type.to_string());
        proof { iv = iv.push(("work_order_type"@, AttrView::S(self.work_order_type.spec_str()))); }
        assert(item@ == iv);
        item.insert_s("status", self.status.to_string());
        proof { iv = iv.push(("status"@, AttrView::S(self.status.spec_str()))); }
        assert(item@ == iv);
        if let Some(x) = &self.notes {
            item.insert_s("notes", x.clone());
        }
        proof { iv = push_if(iv, self.notes is Some, ("notes"@, AttrView::S(self.notes->0@))); }
        assert(item@ == iv);
        item.insert_s("priority", self.priority.to_string());
        proof { iv = iv.push(("priority"@, AttrView::S(self.priority.spec_str()))); }
        assert(item@ == iv);
        item.insert_s("severity", self.severity.to_string());
        proof { iv = iv.push(("severity"@, AttrView::S(self.severity.spec_str()))); }
        assert(item@ == iv);
        item.insert_s("difficulty", self.difficulty.to_string());
        proof { iv = iv.push(("difficulty"@, AttrView::S(self.difficulty.spec_str()))); }
        assert(item@ == iv);
        if let Some(x) = &self.assigned_technician_id {
            item.insert_s("assigned_technician_id", x.clone());
        }
        proof { iv = push_if(iv, self.assigned_technician_id is Some, ("assigned_technician_id"@, AttrView::S(self.assigned_technician_id->0@))); }
        assert(item@ == iv);
    }

    fn write_part2(&self, item: &mut Item)
        requires
            self.wf(),
        ensures
            final(item)@ == self.spec_item_part2(old(item)@),
            self.completed_date matches Some(t) ==> chrono_parse_datetime(chrono_format_datetime(t)) == Some(t),
            self.actual_cost matches Some(d) ==> decimal_parse(decimal_format(d)) == Some(d),
            chrono_parse_datetime(chrono_format_datetime(self.created_at)) == Some(self.created_at),
            chrono_parse_datetime(chrono_format_datetime(self.updated_at)) == Some(self.updated_at),
    {
        reveal(push_if);
        let ghost mut iv: ItemView = old(item)@;
        write_i32(item, "estimated_duration_minutes", self.estimated_duration_minutes);
        proof { iv = iv.push(("estimated_duration_minutes"@, AttrView::N(spec_format_i32(self.estimated_duration_minutes)))); }
        assert(item@ == iv);
        if let Some(x) = self.actual_duration_minutes {
            write_i32(item, "actual_duration_minutes", x);
        }
        proof { iv = push_if(iv, self.actual_duration_minutes is Some, ("actual_duration_minutes"@, AttrView::N(spec_format_i32(self.actual_duration_minutes->0)))); }
        assert(item@ == iv);
        if let Some(t) = &self.completed_date {
            write_timestamp(item, "completed_date", t);
        }
        proof { iv = push_if(iv, self.completed_date is Some, ("completed_date"@, AttrView::S(chrono_format_datetime(self.completed_date->0)))); }
        assert(item@ == iv);
        item.insert_s("estimated_cost", self.estimated_cost.to_string());
        proof { iv = iv.push(("estimated_cost"@, AttrView::S(self.estimated_cost.spec_str()))); }
        assert(item@ == iv);
        if let Some(d) = &self.actual_cost {
            item.insert_s("actual_cost", format_decimal(d));
        }
        proof { iv = push_if(iv, self.actual_cost is Some, ("actual_cost"@, AttrView::S(decimal_format(self.actual_cost->0)))); }
        assert(item@ == iv);
        if let Some(x) = &self.completion_notes {
            item.insert_s("completion_notes", x.clone());
        }
        proof { iv = push_if(iv, self.completion_notes is Some, ("completion_notes"@, AttrView::S(self.completion_notes->0@))); }
        assert(item@ == iv);
        item.insert_s("created_by", self.created_by.clone());
        proof { iv = iv.push(("created_by"@, AttrView::S(self.created_by@))); }
        assert(item@ == iv);
        write_timestamp(item, "created_at", &self.created_at);
        proof { iv = iv.push(("created_at"@, AttrView::S(chrono_format_datetime(self.created_at)))); }
        assert(item@ == iv);
        write_timestamp(item, "updated_at", &self.updated_at);
        proof { iv = iv.push(("updated_at"@, AttrView::S(chrono_format_datetime(self.updated_at)))); }
        assert(item@ == iv);
    }

    /// What reading the work order back from its item needs beyond
    /// well-formedness: reading takes both the notes and the completion notes
    /// from the completion notes, so they read back only where the two agree.
    pub open spec fn readback_conditions(&self) -> bool {
        &&& opt_view(self.notes) == opt_view(self.completion_notes)
    }

    /// Writes the entity as an item.
    pub fn to_item(&self) -> (res: Item)
        requires
            self.wf(),
        ensures
            res@ == self.spec_item(),
            self.readback_conditions() ==> Self::item_readable(res@),
            self.readback_conditions() ==> forall|b: WorkOrder, now: Timestamp| #[trigger] b.read_from(res@, now) ==> b.same_as(self),
    {
        let mut item = Item::new();
        self.write_part1(&mut item);
        self.write_part2(&mut item);
        proof {
            if self.readback_conditions() {
                Self::lemma_item_roundtrip(self, self, Timestamp { secs: 0, nanos: 0 });
                assert forall|b: WorkOrder, now: Timestamp| #[trigger] b.read_from(item@, now) implies b.same_as(self) by {
                    Self::lemma_item_roundtrip(self, &b, now);
                }
            }
        }
        item
    }

    proof fn lemma_part1_values(&self, iv: ItemView)
        ensures
            lookup(self.spec_item_part1(iv), "id"@) == Some(AttrView::S(self.id@)),
            lookup(self.spec_item_part1(iv), "work_order_number"@) == Some(AttrView::S(self.work_order_number@)),
            lookup(self.spec_item_part1(iv), "title"@) == Some(AttrView::S(self.title@)),
            lookup(self.spec_item_part1(iv), "description"@) == Some(AttrView::S(self.description@)),
            lookup(self.spec_item_part1(iv), "asset_id"@) == Some(AttrView::S(self.asset_id@)),
            lookup(self.spec_item_part1(iv), "work_order_type"@) == Some(AttrView::S(self.work_order_type.spec_str())),
            lookup(self.spec_item_part1(iv), "status"@) == Some(AttrView::S(self.status.spec_str())),
            lookup(self.spec_item_part1(iv), "notes"@) == (if self.notes is Some { Some(AttrView::S(self.notes->0@)) } else { lookup(iv, "notes"@) }),
            lookup(self.spec_item_part1(iv), "priority"@) == Some(AttrView::S(self.priority.spec_str())),
            lookup(self.spec_item_part1(iv), "severity"@) == Some(AttrView::S(self.severity.spec_str())),
            lookup(self.spec_item_part1(iv), "difficulty"@) == Some(AttrView::S(self.difficulty.spec_str())),
            lookup(self.spec_item_part1(iv), "assigned_technician_id"@) == (if self.assigned_technician_id is Some { Some(AttrView::S(self.assigned_technician_id->0@)) } else { lookup(iv, "assigned_technician_id"@) }),
    {
        broadcast use crate::item::lemma_lookup_push, crate::item::lemma_lookup_push_if;
        lemma_keys_distinct();
    }

    proof fn lemma_part1_frame(&self, iv: ItemView, k: Seq<char>)
        requires
            k != "id"@,
            k != "work_order_number"@,
            k != "title"@,
            k != "description"@,
            k != "asset_id"@,
            k != "work_order_type"@,
            k != "status"@,
            k != "notes"@,
            k != "priority"@,
            k != "severity"@,
            k != "difficulty"@,
            k != "assigned_technician_id"@,
        ensures
            lookup(self.spec_item_part1(iv), k) == lookup(iv, k),
    {
        broadcast use crate::item::lemma_lookup_push, crate::item::lemma_lookup_push_if;
    }

    proof fn lemma_part2_values(&self, iv: ItemView)
        ensures
            lookup(self.spec_item_part2(iv), "estimated_duration_minutes"@) == Some(AttrView::N(spec_format_i32(self.estimated_duration_minutes))),
            lookup(self.spec_item_part2(iv), "actual_duration_minutes"@) == (if self.actual_duration_minutes is Some { Some(AttrView::N(spec_format_i32(self.actual_duration_minutes->0))) } else { lookup(iv, "actual_duration_minutes"@) }),
            lookup(self.spec_item_part2(iv), "completed_date"@) == (if self.completed_date is Some { Some(AttrView::S(chrono_format_datetime(self.completed_date->0))) } else { lookup(iv, "completed_date"@) }),
            lookup(self.spec_item_part2(iv), "estimated_cost"@) == Some(AttrView::S(self.estimated_cost.spec_str())),
            lookup(self.spec_item_part2(iv), "actual_cost"@) == (if self.actual_cost is Some { Some(AttrView::S(decimal_format(self.actual_cost->0))) } else { lookup(iv, "actual_cost"@) }),
            lookup(self.spec_item_part2(iv), "completion_notes"@) == (if self.completion_notes is Some { Some(AttrView::S(self.completion_notes->0@)) } else { lookup(iv, "completion_notes"@) }),
            lookup(self.spec_item_part2(iv), "created_by"@) == Some(AttrView::S(self.created_by@)),
            lookup(self.spec_item_part2(iv), "created_at"@) == Some(AttrView::S(chrono_format_datetime(self.created_at))),
            lookup(self.spec_item_part2(iv), "updated_at"@) == Some(AttrView::S(chrono_format_datetime(self.updated_at))),
    {
        broadcast use crate::item::lemma_lookup_push, crate::item::lemma_lookup_push_if;
        lemma_keys_distinct();
    }

    proof fn lemma_part2_frame(&self, iv: ItemView, k: Seq<char>)
        requires
            k != "estimated_duration_minutes"@,
            k != "actual_duration_minutes"@,
            k != "completed_date"@,
            k != "estimated_cost"@,
            k != "actual_cost"@,
            k != "completion_notes"@,
            k != "created_by"@,
            k != "created_at"@,
            k != "updated_at"@,
        ensures
            lookup(self.spec_item_part2(iv), k) == lookup(iv, k),
    {
        broadcast use crate::item::lemma_lookup_push, crate::item::lemma_lookup_push_if;
    }

    /// Every attribute the `WorkOrders` table defines holds, in the item the entity is
    /// written as, nothing or a value of the type the table gives it, so
    /// DynamoDB accepts the item.
    pub proof fn lemma_item_fits_table(a: &WorkOrder)
        ensures
            item_fits_table(a.spec_item(), spec_work_orders_table()),
    {
        lemma_keys_distinct();
        let e: ItemView = Seq::empty();
        let p1 = a.spec_item_part1(e);
        let p2 = a.spec_item_part2(p1);
        assert(a.spec_item() == p2);
        a.lemma_part1_values(e);
        a.lemma_part2_values(p1);
        a.lemma_part2_frame(p1, "id"@);
        a.lemma_part2_frame(p1, "asset_id"@);
        a.lemma_part2_frame(p1, "status"@);
        a.lemma_part2_frame(p1, "priority"@);
        lemma_table_keys_absent();
        a.lemma_part1_frame(e, "assigned_to"@);
        a.lemma_part2_frame(p1, "assigned_to"@);
        let t = spec_work_orders_table();
        assert forall|i: int| 0 <= i < t.attributes.len() implies match #[trigger] crate::item::lookup(a.spec_item(), t.attributes[i].0) {
            Some(v) => attr_fits(t.attributes[i].1, v),
            None => true,
        } by {
            if i == 0 { assert(t.attributes[0].0 == "id"@); } else if i == 1 { assert(t.attributes[1].0 == "asset_id"@); } else if i == 2 { assert(t.attributes[2].0 == "assigned_to"@); } else if i == 3 { assert(t.attributes[3].0 == "status"@); } else if i == 4 { assert(t.attributes[4].0 == "priority"@); }
        }
    }

    /// Reading the entity back from the item it is written as gives the same
    /// entity, where `chrono` reads back the text of its instants.
    #[verifier::rlimit(100)]
    pub proof fn lemma_item_roundtrip(a: &WorkOrder, b: &WorkOrder, now: Timestamp)
        requires
            a.wf(),
            a.completed_date matches Some(t) ==> chrono_parse_datetime(chrono_format_datetime(t)) == Some(t),
            a.actual_cost matches Some(d) ==> decimal_parse(decimal_format(d)) == Some(d),
            chrono_parse_datetime(chrono_format_datetime(a.created_at)) == Some(a.created_at),
            chrono_parse_datetime(chrono_format_datetime(a.updated_at)) == Some(a.updated_at),
            opt_view(a.notes) == opt_view(a.completion_notes),
        ensures
            Self::item_readable(a.spec_item()),
            b.read_from(a.spec_item(), now) ==> b.same_as(a),
    {
        lemma_keys_distinct();
        let e: ItemView = Seq::empty();
        let p1 = a.spec_item_part1(e);
        let p2 = a.spec_item_part2(p1);
        assert(a.spec_item() == p2);
        a.lemma_part1_values(e);
        a.lemma_part2_values(p1);
        a.lemma_part2_frame(p1, "id"@);
        a.lemma_part2_frame(p1, "work_order_number"@);
        a.lemma_part2_frame(p1, "title"@);
        a.lemma_part2_frame(p1, "description"@);
        a.lemma_part2_frame(p1, "asset_id"@);
        a.lemma_part2_frame(p1, "work_order_type"@);
        a.lemma_part2_frame(p1, "status"@);
        a.lemma_part2_frame(p1, "notes"@);
        a.lemma_part2_frame(p1, "priority"@);
        a.lemma_part2_frame(p1, "severity"@);
        a.lemma_part2_frame(p1, "difficulty"@);
        a.lemma_part2_frame(p1, "assigned_technician_id"@);
        a.lemma_part1_frame(e, "estimated_duration_minutes"@);
        a.lemma_part1_frame(e, "actual_duration_minutes"@);
        a.lemma_part1_frame(e, "completed_date"@);
        a.lemma_part1_frame(e, "estimated_cost"@);
        a.lemma_part1_frame(e, "actual_cost"@);
        a.lemma_part1_frame(e, "completion_notes"@);
        a.lemma_part1_frame(e, "created_by"@);
        a.lemma_part1_frame(e, "created_at"@);
        a.lemma_part1_frame(e, "updated_at"@);
        WorkOrderType::lemma_parse_str(a.work_order_type);
        WorkOrderStatus::lemma_parse_str(a.status);
        WorkOrderPriority::lemma_parse_str(a.priority);
        WorkOrderSeverity::lemma_parse_str(a.severity);
        WorkOrderDifficulty::lemma_parse_str(a.difficulty);
        lemma_parse_format_i32(a.estimated_duration_minutes);
        if let Some(x) = a.actual_duration_minutes { lemma_parse_format_i32(x); }
        WorkOrderCost::lemma_parse_str(a.estimated_cost);
    }

    /// Which check, if any, the arguments of `new` fail, in the order they are made.
    pub open spec fn spec_new_error(
        work_order_number: Seq<char>,
        title: Seq<char>,
        description: Seq<char>,
        asset_id: Seq<char>,
        work_order_type: Seq<char>,
        priority: Seq<char>,
        estimated_duration_minutes: i32,
        created_by: Seq<char>,
    ) -> Option<Seq<char>> {
        if is_blank_spec(work_order_number) {
            Some("Work order number cannot be empty"@)
        } else if is_blank_spec(title) {
            Some("Title cannot be empty"@)
        } else if is_blank_spec(description) {
            Some("Description cannot be empty"@)
        } else if is_blank_spec(asset_id) {
            Some("Asset ID cannot be empty"@)
        } else if is_blank_spec(created_by) {
            Some("Created by cannot be empty"@)
        } else if estimated_duration_minutes <= 0 {
            Some("Estimated duration must be positive"@)
        } else if WorkOrderType::spec_parse(work_order_type) is None {
            Some("Invalid work order type"@)
        } else if WorkOrderPriority::spec_parse(priority) is None {
            Some("Invalid work order priority"@)
        } else {
            None
        }
    }

    /// Creates a draft work order; every refusal is a `ValidationError`.
    pub fn new(
        id: String,
        work_order_number: String,
        title: String,
        description: String,
        notes: Option<String>,
        asset_id: String,
        work_order_type: String,
        priority: String,
        severity: WorkOrderSeverity,
        difficulty: WorkOrderDifficulty,
        assigned_technician_id: Option<String>,
        estimated_duration_minutes: i32,
        estimated_cost: WorkOrderCost,
        created_by: String,
    ) -> (res: Result<Self, AppError>)
        ensures
            match Self::spec_new_error(work_order_number@, title@, description@, asset_id@,
                work_order_type@, priority@, estimated_duration_minutes, created_by@) {
                Some(m) => res matches Err(AppError::ValidationError(e)) && e@ == m,
                None => res matches Ok(w) && {
                    &&& w.id == id && w.work_order_number == work_order_number && w.title == title
                    &&& w.description == description && w.notes == notes && w.asset_id == asset_id
                    &&& Some(w.work_order_type) == WorkOrderType::spec_parse(work_order_type@)
                    &&& Some(w.priority) == WorkOrderPriority::spec_parse(priority@)
                    &&& w.status == WorkOrderStatus::Draft
                    &&& w.severity == severity && w.difficulty == difficulty
                    &&& w.assigned_technician_id == assigned_technician_id
                    &&& w.estimated_duration_minutes == estimated_duration_minutes
                    &&& w.actual_duration_minutes is None && w.completed_date is None
                    &&& w.estimated_cost == estimated_cost && w.actual_cost is None
                    &&& w.labor_hours is None && w.completion_notes is None
                    &&& w.created_by == created_by
                    &&& w.created_at == w.updated_at && w.wf()
                },
            },
    {
        let now = now();
        if is_blank(work_order_number.as_str()) {
            return Err(AppError::ValidationError("Work order number cannot be empty".to_owned()));
        }
        if is_blank(title.as_str()) {
            return Err(AppError::ValidationError("Title cannot be empty".to_owned()));
        }
        if is_blank(description.as_str()) {
            return Err(AppError::ValidationError("Description cannot be empty".to_owned()));
        }
        if is_blank(asset_id.as_str()) {
            return Err(AppError::ValidationError("Asset ID cannot be empty".to_owned()));
        }
        if is_blank(created_by.as_str()) {
            return Err(AppError::ValidationError("Created by cannot be empty".to_owned()));
        }
        if estimated_duration_minutes <= 0 {
            return Err(AppError::ValidationError("Estimated duration must be positive".to_owned()));
        }
        let work_order_type_enum = WorkOrderType::from_string(work_order_type.as_str())?;
        let priority_enum = WorkOrderPriority::from_string(priority.as_str())?;
        Ok(WorkOrder {
            id,
            work_order_number,
            title,
            description,
            asset_id,
            notes,
            work_order_type: work_order_type_enum,
            status: WorkOrderStatus::Draft,
            priority: priority_enum,
            severity,
            difficulty,
            assigned_technician_id,
            estimated_duration_minutes,
            actual_duration_minutes: None,
            estimated_cost,
            actual_cost: None,
            completed_date: None,
            labor_hours: None,
            completion_notes: None,
            created_by,
            created_at: now,
            updated_at: now,
        })
    }

    pub fn is_in_progress(&self) -> (res: bool)
        ensures
            res == (self.status == WorkOrderStatus::InProgress),
    {
        self.status == WorkOrderStatus::InProgress
    }

    pub fn is_completed(&self) -> (res: bool)
        ensures
            res == (self.status == WorkOrderStatus::Completed),
    {
        self.status == WorkOrderStatus::Completed
    }

    /// Starts a scheduled work order and assigns the technician to it.
    pub fn start_work(&mut self, technician_id: String) -> (res: Result<(), AppError>)
        ensures
            old(self).status == WorkOrderStatus::Scheduled ==> res is Ok && *final(self) == (WorkOrder {
                status: WorkOrderStatus::InProgress,
                assigned_technician_id: Some(technician_id),
                updated_at: final(self).updated_at,
                ..*old(self)
            }) && final(self).updated_at.valid(),
            old(self).status != WorkOrderStatus::Scheduled ==> *final(self) == *old(self)
                && is_validation_error(res, "Only scheduled work orders can be started"@),
    {
        if self.status != WorkOrderStatus::Scheduled {
            return Err(AppError::ValidationError("Only scheduled work orders can be started".to_owned()));
        }
        self.status = WorkOrderStatus::InProgress;
        self.assigned_technician_id = Some(technician_id);
        self.updated_at = now();
        Ok(())
    }

    /// Completes a work order in progress; it is stamped complete at the time it is updated.
    pub fn complete_work(&mut self, completion_notes: Option<String>) -> (res: Result<(), AppError>)
        ensures
            old(self).status == WorkOrderStatus::InProgress ==> res is Ok && *final(self) == (WorkOrder {
                status: WorkOrderStatus::Completed,
                completion_notes: completion_notes,
                updated_at: final(self).updated_at,
                completed_date: Some(final(self).updated_at),
                ..*old(self)
            }) && final(self).updated_at.valid(),
            old(self).status != WorkOrderStatus::InProgress ==> *final(self) == *old(self)
                && is_validation_error(res, "Only in-progress work orders can be completed"@),
    {
        if self.status != WorkOrderStatus::InProgress {
            return Err(AppError::ValidationError("Only in-progress work orders can be completed".to_owned()));
        }
        let now = now();
        self.status = WorkOrderStatus::Completed;
        self.completion_notes = completion_notes;
        self.updated_at = now;
        self.completed_date = Some(now);
        Ok(())
    }

    /// Cancels a work order that is neither completed nor already cancelled.
    pub fn cancel_work(&mut self, reason: String) -> (res: Result<(), AppError>)
        ensures
            ({
                let closed = old(self).status == WorkOrderStatus::Completed
                    || old(self).status == WorkOrderStatus::Cancelled;
                &&& !closed ==> res is Ok && *final(self) == (WorkOrder {
                    status: WorkOrderStatus::Cancelled,
                    completion_notes: Some(reason),
                    updated_at: final(self).updated_at,
                    completed_date: Some(final(self).updated_at),
                    ..*old(self)
                }) && final(self).updated_at.valid()
                &&& closed ==> *final(self) == *old(self)
                    && is_validation_error(res, "Cannot cancel completed or already cancelled work order"@)
            }),
    {
        if self.status == WorkOrderStatus::Completed || self.status == WorkOrderStatus::Cancelled {
            return Err(AppError::ValidationError(
                "Cannot cancel completed or already cancelled work order".to_owned(),
            ));
        }
        let now = now();
        self.status = WorkOrderStatus::Cancelled;
        self.completion_notes = Some(reason);
        self.updated_at = now;
        self.completed_date = Some(now);
        Ok(())
    }

    /// Puts a scheduled or in-progress work order on hold, noting the reason.
    pub fn put_on_hold(&mut self, reason: String) -> (res: Result<(), AppError>)
        ensures
            ({
                let open = old(self).status == WorkOrderStatus::InProgress
                    || old(self).status == WorkOrderStatus::Scheduled;
                &&& open ==> res is Ok && *final(self) == (WorkOrder {
                    status: WorkOrderStatus::OnHold,
                    completion_notes: Some(reason),
                    updated_at: final(self).updated_at,
                    ..*old(self)
                }) && final(self).updated_at.valid()
                &&& !open ==> *final(self) == *old(self)
                    && is_validation_error(res, "Only scheduled or in-progress work orders can be put on hold"@)
            }),
    {
        if !(self.status == WorkOrderStatus::InProgress || self.status == WorkOrderStatus::Scheduled) {
            return Err(AppError::ValidationError(
                "Only scheduled or in-progress work orders can be put on hold".to_owned(),
            ));
        }
        self.status = WorkOrderStatus::OnHold;
        self.completion_notes = Some(reason);
        self.updated_at = now();
        Ok(())
    }

    /// Returns a work order on hold to the schedule.
    pub fn resume_from_hold(&mut self) -> (res: Result<(), AppError>)
        ensures
            old(self).status == WorkOrderStatus::OnHold ==> res is Ok && *final(self) == (WorkOrder {
                status: WorkOrderStatus::Scheduled,
                updated_at: final(self).updated_at,
                ..*old(self)
            }) && final(self).updated_at.valid(),
            old(self).status != WorkOrderStatus::OnHold ==> *final(self) == *old(self)
                && is_validation_error(res, "Only work orders on hold can be resumed"@),
    {
        if self.status != WorkOrderStatus::OnHold {
            return Err(AppError::ValidationError("Only work orders on hold can be resumed".to_owned()));
        }
        self.status = WorkOrderStatus::Scheduled;
        self.updated_at = now();
        Ok(())
    }

    /// The instant by which the work was estimated to be done.
    pub open spec fn spec_due(&self) -> Timestamp {
        let p = self.created_at.spec_plus_seconds(self.estimated_duration_minutes * 60);
        Timestamp { secs: p.0 as i64, nanos: p.1 as u32 }
    }

    /// Whether the work order is overdue at `now`: it is still open and `now`
    /// is past its creation plus the estimated duration.
    pub open spec fn spec_overdue_at(&self, now: Timestamp) -> bool {
        &&& self.status != WorkOrderStatus::Completed
        &&& self.status != WorkOrderStatus::Cancelled
        &&& self.spec_due().precedes(now)
    }

    /// Whether the work order is overdue at `now`; for an open work order
    /// `chrono` panics where the due instant leaves its range.
    pub fn is_overdue_at(&self, now: &Timestamp) -> (res: bool)
        requires
            self.wf(),
            self.status == WorkOrderStatus::Completed || self.status == WorkOrderStatus::Cancelled
                || self.created_at.can_add_seconds(self.estimated_duration_minutes * 60),
        ensures
            res == self.spec_overdue_at(*now),
            self.status == WorkOrderStatus::Completed || self.status == WorkOrderStatus::Cancelled ==> !res,
            self.status != WorkOrderStatus::Completed && self.status != WorkOrderStatus::Cancelled
                && self.created_at.nanos < NANOS_PER_SEC ==> (res <==> ({
                    let due_secs = self.created_at.secs + self.estimated_duration_minutes * 60;
                    due_secs < now.secs || (due_secs == now.secs && self.created_at.nanos < now.nanos)
                })),
    {
        if self.status == WorkOrderStatus::Completed || self.status == WorkOrderStatus::Cancelled {
            return false;
        }
        let due = self.created_at.plus_seconds(self.estimated_duration_minutes as i64 * 60);
        now.is_after(&due)
    }

    /// A completed or cancelled work order is never overdue; an open one
    /// created outside a leap second, whose due instant `chrono` can compute,
    /// is overdue at `now` exactly when its creation plus the estimated
    /// minutes lies strictly before `now`.
    pub proof fn lemma_overdue_exactly(w: &WorkOrder, now: Timestamp)
        requires
            w.created_at.can_add_seconds(w.estimated_duration_minutes * 60),
        ensures
            w.status == WorkOrderStatus::Completed || w.status == WorkOrderStatus::Cancelled ==> !w.spec_overdue_at(now),
            w.status != WorkOrderStatus::Completed && w.status != WorkOrderStatus::Cancelled
                && w.created_at.nanos < NANOS_PER_SEC ==> (w.spec_overdue_at(now) <==> ({
                    let due_secs = w.created_at.secs + w.estimated_duration_minutes * 60;
                    due_secs < now.secs || (due_secs == now.secs && w.created_at.nanos < now.nanos)
                })),
    {
    }

    /// A work order overdue at some instant stays overdue at every later one.
    pub proof fn lemma_overdue_stays(w: &WorkOrder, earlier: Timestamp, later: Timestamp)
        requires
            earlier.secs < later.secs || (earlier.secs == later.secs && earlier.nanos <= later.nanos),
            w.spec_overdue_at(earlier),
        ensures
            w.spec_overdue_at(later),
    {
    }

    /// Whether the work order is overdue now.
    pub fn is_overdue(&self) -> (res: bool)
        requires
            self.wf(),
            self.status == WorkOrderStatus::Completed || self.status == WorkOrderStatus::Cancelled
                || self.created_at.can_add_seconds(self.estimated_duration_minutes * 60),
        ensures
            exists|t: Timestamp| t.valid() && res == self.spec_overdue_at(t),
    {
        if self.status == WorkOrderStatus::Completed || self.status == WorkOrderStatus::Cancelled {
            return false;
        }
        let t = now();
        self.is_overdue_at(&t)
    }

    /// Sets the severity and difficulty of the work order.
    pub fn set_classification(&mut self, severity: WorkOrderSeverity, difficulty: WorkOrderDifficulty)
        ensures
            *final(self) == (WorkOrder { severity, difficulty, updated_at: final(self).updated_at, ..*old(self) }),
            final(self).updated_at.valid(),
    {
        self.severity = severity;
        self.difficulty = difficulty;
        self.updated_at = now();
    }

    /// Putting a scheduled work order on hold and resuming it gives it back,
    /// with the reason for the hold kept as its completion notes.
    pub proof fn lemma_hold_resume(a: WorkOrder, b: WorkOrder, c: WorkOrder, reason: String)
        requires
            a.status == WorkOrderStatus::Scheduled,
            b == (WorkOrder {
                status: WorkOrderStatus::OnHold,
                completion_notes: Some(reason),
                updated_at: b.updated_at,
                ..a
            }),
            c == (WorkOrder { status: WorkOrderStatus::Scheduled, updated_at: c.updated_at, ..b }),
        ensures
            c == (WorkOrder { completion_notes: Some(reason), updated_at: c.updated_at, ..a }),
    {
    }

}

proof fn lemma_keys_distinct()
    ensures
        "id"@ != "work_order_number"@,
        "id"@ != "title"@,
        "id"@ != "description"@,
        "id"@ != "asset_id"@,
        "id"@ != "work_order_type"@,
        "id"@ != "status"@,
        "id"@ != "completion_notes"@,
        "id"@ != "priority"@,
        "id"@ != "severity"@,
        "id"@ != "difficulty"@,
        "id"@ != "assigned_technician_id"@,
        "id"@ != "estimated_duration_minutes"@,
        "id"@ != "actual_duration_minutes"@,
        "id"@ != "completed_date"@,
        "id"@ != "estimated_cost"@,
        "id"@ != "actual_cost"@,
        "id"@ != "labor_hours"@,
        "id"@ != "created_by"@,
        "id"@ != "created_at"@,
        "id"@ != "updated_at"@,
        "id"@ != "notes"@,
        "work_order_number"@ != "title"@,
        "work_order_number"@ != "description"@,
        "work_order_number"@ != "asset_id"@,
        "work_order_number"@ != "work_order_type"@,
        "work_order_number"@ != "status"@,
        "work_order_number"@ != "completion_notes"@,
        "work_order_number"@ != "priority"@,
        "work_order_number"@ != "severity"@,
        "work_order_number"@ != "difficulty"@,
        "work_order_number"@ != "assigned_technician_id"@,
        "work_order_number"@ != "estimated_duration_minutes"@,
        "work_order_number"@ != "actual_duration_minutes"@,
        "work_order_number"@ != "completed_date"@,
        "work_order_number"@ != "estimated_cost"@,
        "work_order_number"@ != "actual_cost"@,
        "work_order_number"@ != "labor_hours"@,
        "work_order_number"@ != "created_by"@,
        "work_order_number"@ != "created_at"@,
        "work_order_number"@ != "updated_at"@,
        "work_order_number"@ != "notes"@,
        "title"@ != "description"@,
        "title"@ != "asset_id"@,
        "title"@ != "work_order_type"@,
        "title"@ != "status"@,
        "title"@ != "completion_notes"@,
        "title"@ != "priority"@,
        "title"@ != "severity"@,
        "title"@ != "difficulty"@,
        "title"@ != "assigned_technician_id"@,
        "title"@ != "estimated_duration_minutes"@,
        "title"@ != "actual_duration_minutes"@,
        "title"@ != "completed_date"@,
        "title"@ != "estimated_cost"@,
        "title"@ != "actual_cost"@,
        "title"@ != "labor_hours"@,
        "title"@ != "created_by"@,
        "title"@ != "created_at"@,
        "title"@ != "updated_at"@,
        "title"@ != "notes"@,
        "description"@ != "asset_id"@,
        "description"@ != "work_order_type"@,
        "description"@ != "status"@,
        "description"@ != "completion_notes"@,
        "description"@ != "priority"@,
        "description"@ != "severity"@,
        "description"@ != "difficulty"@,
        "description"@ != "assigned_technician_id"@,
        "description"@ != "estimated_duration_minutes"@,
        "description"@ != "actual_duration_minutes"@,
        "description"@ != "completed_date"@,
        "description"@ != "estimated_cost"@,
        "description"@ != "actual_cost"@,
        "description"@ != "labor_hours"@,
        "description"@ != "created_by"@,
        "description"@ != "created_at"@,
        "description"@ != "updated_at"@,
        "description"@ != "notes"@,
        "asset_id"@ != "work_order_type"@,
        "asset_id"@ != "status"@,
        "asset_id"@ != "completion_notes"@,
        "asset_id"@ != "priority"@,
        "asset_id"@ != "severity"@,
        "asset_id"@ != "difficulty"@,
        "asset_id"@ != "assigned_technician_id"@,
        "asset_id"@ != "estimated_duration_minutes"@,
        "asset_id"@ != "actual_duration_minutes"@,
        "asset_id"@ != "completed_date"@,
        "asset_id"@ != "estimated_cost"@,
        "asset_id"@ != "actual_cost"@,
        "asset_id"@ != "labor_hours"@,
        "asset_id"@ != "created_by"@,
        "asset_id"@ != "created_at"@,
        "asset_id"@ != "updated_at"@,
        "asset_id"@ != "notes"@,
        "work_order_type"@ != "status"@,
        "work_order_type"@ != "completion_notes"@,
        "work_order_type"@ != "priority"@,
        "work_order_type"@ != "severity"@,
        "work_order_type"@ != "difficulty"@,
        "work_order_type"@ != "assigned_technician_id"@,
        "work_order_type"@ != "estimated_duration_minutes"@,
        "work_order_type"@ != "actual_duration_minutes"@,
        "work_order_type"@ != "completed_date"@,
        "work_order_type"@ != "estimated_cost"@,
        "work_order_type"@ != "actual_cost"@,
        "work_order_type"@ != "labor_hours"@,
        "work_order_type"@ != "created_by"@,
        "work_order_type"@ != "created_at"@,
        "work_order_type"@ != "updated_at"@,
        "work_order_type"@ != "notes"@,
        "status"@ != "completion_notes"@,
        "status"@ != "priority"@,
        "status"@ != "severity"@,
        "status"@ != "difficulty"@,
        "status"@ != "assigned_technician_id"@,
        "status"@ != "estimated_duration_minutes"@,
        "status"@ != "actual_duration_minutes"@,
        "status"@ != "completed_date"@,
        "status"@ != "estimated_cost"@,
        "status"@ != "actual_cost"@,
        "status"@ != "labor_hours"@,
        "status"@ != "created_by"@,
        "status"@ != "created_at"@,
        "status"@ != "updated_at"@,
        "status"@ != "notes"@,
        "completion_notes"@ != "priority"@,
        "completion_notes"@ != "severity"@,
        "completion_notes"@ != "difficulty"@,
        "completion_notes"@ != "assigned_technician_id"@,
        "completion_notes"@ != "estimated_duration_minutes"@,
        "completion_notes"@ != "actual_duration_minutes"@,
        "completion_notes"@ != "completed_date"@,
        "completion_notes"@ != "estimated_cost"@,
        "completion_notes"@ != "actual_cost"@,
        "completion_notes"@ != "labor_hours"@,
        "completion_notes"@ != "created_by"@,
        "completion_notes"@ != "created_at"@,
        "completion_notes"@ != "updated_at"@,
        "completion_notes"@ != "notes"@,
        "priority"@ != "severity"@,
        "priority"@ != "difficulty"@,
        "priority"@ != "assigned_technician_id"@,
        "priority"@ != "estimated_duration_minutes"@,
        "priority"@ != "actual_duration_minutes"@,
        "priority"@ != "completed_date"@,
        "priority"@ != "estimated_cost"@,
        "priority"@ != "actual_cost"@,
        "priority"@ != "labor_hours"@,
        "priority"@ != "created_by"@,
        "priority"@ != "created_at"@,
        "priority"@ != "updated_at"@,
        "priority"@ != "notes"@,
        "severity"@ != "difficulty"@,
        "severity"@ != "assigned_technician_id"@,
        "severity"@ != "estimated_duration_minutes"@,
        "severity"@ != "actual_duration_minutes"@,
        "severity"@ != "completed_date"@,
        "severity"@ != "estimated_cost"@,
        "severity"@ != "actual_cost"@,
        "severity"@ != "labor_hours"@,
        "severity"@ != "created_by"@,
        "severity"@ != "created_at"@,
        "severity"@ != "updated_at"@,
        "severity"@ != "notes"@,
        "difficulty"@ != "assigned_technician_id"@,
        "difficulty"@ != "estimated_duration_minutes"@,
        "difficulty"@ != "actual_duration_minutes"@,
        "difficulty"@ != "completed_date"@,
        "difficulty"@ != "estimated_cost"@,
        "difficulty"@ != "actual_cost"@,
        "difficulty"@ != "labor_hours"@,
        "difficulty"@ != "created_by"@,
        "difficulty"@ != "created_at"@,
        "difficulty"@ != "updated_at"@,
        "difficulty"@ != "notes"@,
        "assigned_technician_id"@ != "estimated_duration_minutes"@,
        "assigned_technician_id"@ != "actual_duration_minutes"@,
        "assigned_technician_id"@ != "completed_date"@,
        "assigned_technician_id"@ != "estimated_cost"@,
        "assigned_technician_id"@ != "actual_cost"@,
        "assigned_technician_id"@ != "labor_hours"@,
        "assigned_technician_id"@ != "created_by"@,
        "assigned_technician_id"@ != "created_at"@,
        "assigned_technician_id"@ != "updated_at"@,
        "assigned_technician_id"@ != "notes"@,
        "estimated_duration_minutes"@ != "actual_duration_minutes"@,
        "estimated_duration_minutes"@ != "completed_date"@,
        "estimated_duration_minutes"@ != "estimated_cost"@,
        "estimated_duration_minutes"@ != "actual_cost"@,
        "estimated_duration_minutes"@ != "labor_hours"@,
        "estimated_duration_minutes"@ != "created_by"@,
        "estimated_duration_minutes"@ != "created_at"@,
        "estimated_duration_minutes"@ != "updated_at"@,
        "estimated_duration_minutes"@ != "notes"@,
        "actual_duration_minutes"@ != "completed_date"@,
        "actual_duration_minutes"@ != "estimated_cost"@,
        "actual_duration_minutes"@ != "actual_cost"@,
        "actual_duration_minutes"@ != "labor_hours"@,
        "actual_duration_minutes"@ != "created_by"@,
        "actual_duration_minutes"@ != "created_at"@,
        "actual_duration_minutes"@ != "updated_at"@,
        "actual_duration_minutes"@ != "notes"@,
        "completed_date"@ != "estimated_cost"@,
        "completed_date"@ != "actual_cost"@,
        "completed_date"@ != "labor_hours"@,
        "completed_date"@ != "created_by"@,
        "completed_date"@ != "created_at"@,
        "completed_date"@ != "updated_at"@,
        "completed_date"@ != "notes"@,
        "estimated_cost"@ != "actual_cost"@,
        "estimated_cost"@ != "labor_hours"@,
        "estimated_cost"@ != "created_by"@,
        "estimated_cost"@ != "created_at"@,
        "estimated_cost"@ != "updated_at"@,
        "estimated_cost"@ != "notes"@,
        "actual_cost"@ != "labor_hours"@,
        "actual_cost"@ != "created_by"@,
        "actual_cost"@ != "created_at"@,
        "actual_cost"@ != "updated_at"@,
        "actual_cost"@ != "notes"@,
        "labor_hours"@ != "created_by"@,
        "labor_hours"@ != "created_at"@,
        "labor_hours"@ != "updated_at"@,
        "labor_hours"@ != "notes"@,
        "created_by"@ != "created_at"@,
        "created_by"@ != "updated_at"@,
        "created_by"@ != "notes"@,
        "created_at"@ != "updated_at"@,
        "created_at"@ != "notes"@,
        "updated_at"@ != "notes"@,
{
    broadcast use vstd::string::group_string_axioms;
    reveal_strlit("id");
    reveal_strlit("work_order_number");
    reveal_strlit("title");
    reveal_strlit("description");
    reveal_strlit("asset_id");
    reveal_strlit("work_order_type");
    reveal_strlit("status");
    reveal_strlit("completion_notes");
    reveal_strlit("priority");
    reveal_strlit("severity");
    reveal_strlit("difficulty");
    reveal_strlit("assigned_technician_id");
    reveal_strlit("estimated_duration_minutes");
    reveal_strlit("actual_duration_minutes");
    reveal_strlit("completed_date");
    reveal_strlit("estimated_cost");
    reveal_strlit("actual_cost");
    reveal_strlit("labor_hours");
    reveal_strlit("created_by");
    reveal_strlit("created_at");
    reveal_strlit("updated_at");
    reveal_strlit("notes");
    assert("id"@.len() == 2);
    assert("work_order_number"@.len() == 17);
    assert("title"@.len() == 5);
    assert("description"@.len() == 11);
    assert("asset_id"@.len() == 8);
    assert("work_order_type"@.len() == 15);
    assert("status"@.len() == 6);
    assert("completion_notes"@.len() == 16);
    assert("priority"@.len() == 8);
    assert("severity"@.len() == 8);
    assert("difficulty"@.len() == 10);
    assert("assigned_technician_id"@.len() == 22);
    assert("estimated_duration_minutes"@.len() == 26);
    assert("actual_duration_minutes"@.len() == 23);
    assert("completed_date"@.len() == 14);
    assert("estimated_cost"@.len() == 14);
    assert("actual_cost"@.len() == 11);
    assert("labor_hours"@.len() == 11);
    assert("created_by"@.len() == 10);
    assert("created_at"@.len() == 10);
    assert("updated_at"@.len() == 10);
    assert("notes"@.len() == 5);
    assert("title"@[0] != "notes"@[0]);
    assert("description"@[0] != "actual_cost"@[0]);
    assert("description"@[0] != "labor_hours"@[0]);
    assert("asset_id"@[0] != "priority"@[0]);
    assert("asset_id"@[0] != "severity"@[0]);
    assert("priority"@[0] != "severity"@[0]);
    assert("difficulty"@[0] != "created_by"@[0]);
    assert("difficulty"@[0] != "created_at"@[0]);
    assert("difficulty"@[0] != "updated_at"@[0]);
    assert("completed_date"@[0] != "estimated_cost"@[0]);
    assert("actual_cost"@[0] != "labor_hours"@[0]);
    assert("created_by"@[8] != "created_at"@[8]);
    assert("created_by"@[0] != "updated_at"@[0]);
    assert("created_at"@[0] != "updated_at"@[0]);
}

proof fn lemma_table_keys_absent()
    ensures
        "assigned_to"@ != "actual_cost"@,
        "assigned_to"@ != "actual_duration_minutes"@,
        "assigned_to"@ != "asset_id"@,
        "assigned_to"@ != "assigned_technician_id"@,
        "assigned_to"@ != "completed_date"@,
        "assigned_to"@ != "completion_notes"@,
        "assigned_to"@ != "created_at"@,
        "assigned_to"@ != "created_by"@,
        "assigned_to"@ != "description"@,
        "assigned_to"@ != "difficulty"@,
        "assigned_to"@ != "estimated_cost"@,
        "assigned_to"@ != "estimated_duration_minutes"@,
        "assigned_to"@ != "id"@,
        "assigned_to"@ != "notes"@,
        "assigned_to"@ != "priority"@,
        "assigned_to"@ != "severity"@,
        "assigned_to"@ != "status"@,
        "assigned_to"@ != "title"@,
        "assigned_to"@ != "updated_at"@,
        "assigned_to"@ != "work_order_number"@,
        "assigned_to"@ != "work_order_type"@,
{
    broadcast use vstd::string::group_string_axioms;
    reveal_strlit("assigned_to");
    reveal_strlit("actual_cost");
    reveal_strlit("actual_duration_minutes");
    reveal_strlit("asset_id");
    reveal_strlit("assigned_technician_id");
    reveal_strlit("completed_date");
    reveal_strlit("completion_notes");
    reveal_strlit("created_at");
    reveal_strlit("created_by");
    reveal_strlit("description");
    reveal_strlit("difficulty");
    reveal_strlit("estimated_cost");
    reveal_strlit("estimated_duration_minutes");
    reveal_strlit("id");
    reveal_strlit("notes");
    reveal_strlit("priority");
    reveal_strlit("severity");
    reveal_strlit("status");
    reveal_strlit("title");
    reveal_strlit("updated_at");
    reveal_strlit("work_order_number");
    reveal_strlit("work_order_type");
    assert("assigned_to"@.len() == 11);
    assert("actual_cost"@.len() == 11);
    assert("actual_duration_minutes"@.len() == 23);
    assert("asset_id"@.len() == 8);
    assert("assigned_technician_id"@.len() == 22);
    assert("completed_date"@.len() == 14);
    assert("completion_notes"@.len() == 16);
    assert("created_at"@.len() == 10);
    assert("created_by"@.len() == 10);
    assert("description"@.len() == 11);
    assert("difficulty"@.len() == 10);
    assert("estimated_cost"@.len() == 14);
    assert("estimated_duration_minutes"@.len() == 26);
    assert("id"@.len() == 2);
    assert("notes"@.len() == 5);
    assert("priority"@.len() == 8);
    assert("severity"@.len() == 8);
    assert("status"@.len() == 6);
    assert("title"@.len() == 5);
    assert("updated_at"@.len() == 10);
    assert("work_order_number"@.len() == 17);
    assert("work_order_type"@.len() == 15);
    assert("assigned_to"@[1] != "actual_cost"@[1]);
    assert("assigned_to"@.len() != "actual_duration_minutes"@.len());
    assert("assigned_to"@.len() != "asset_id"@.len());
    assert("assigned_to"@.len() != "assigned_technician_id"@.len());
    assert("assigned_to"@.len() != "completed_date"@.len());
    assert("assigned_to"@.len() != "completion_notes"@.len());
    assert("assigned_to"@.len() != "created_at"@.len());
    assert("assigned_to"@.len() != "created_by"@.len());
    assert("assigned_to"@[0] != "description"@[0]);
    assert("assigned_to"@.len() != "difficulty"@.len());
    assert("assigned_to"@.len() != "estimated_cost"@.len());
    assert("assigned_to"@.len() != "estimated_duration_minutes"@.len());
    assert("assigned_to"@.len() != "id"@.len());
    assert("assigned_to"@.len() != "notes"@.len());
    assert("assigned_to"@.len() != "priority"@.len());
    assert("assigned_to"@.len() != "severity"@.len());
    assert("assigned_to"@.len() != "status"@.len());
    assert("assigned_to"@.len() != "title"@.len());
    assert("assigned_to"@.len() != "updated_at"@.len());
    assert("assigned_to"@.len() != "work_order_number"@.len());
    assert("assigned_to"@.len() != "work_order_type"@.len());
}

} // verus!
