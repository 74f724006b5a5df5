//! Records of attempts to deliver notifications.
use vstd::prelude::*;

use crate::error::{is_validation_error, AppError};
use crate::fields::{
    i32_or, opt_view, read_i32_or, read_s, read_timestamp, read_timestamp_or, timestamp_at,
    timestamp_or, write_i32, write_timestamp,
};
use crate::item::{push_if, s_at, AttrView, Item, ItemView};
use crate::numeric::{lemma_parse_format_i32, spec_format_i32};
use crate::text::{is_blank, is_blank_spec, str_eq};
use crate::time::{chrono_format_datetime, chrono_parse_datetime, now, Timestamp};

use crate::models::notification::NotificationChannels;

use crate::tables::{attr_fits, item_fits_table, spec_notification_delivery_logs_table};

verus! {

/// Where a delivery attempt stands.
#[derive(Clone, Copy, Debug, PartialEq, Eq, Structural, Hash)]
pub enum DeliveryStatus {
    Pending,
    Delivered,
    Failed,
    Retrying,
    Cancelled,
}

impl DeliveryStatus {
    /// The text that stands for the variant in items and requests.
    pub open spec fn spec_str(self) -> Seq<char> {
        match self {
            DeliveryStatus::Pending => "pending"@,
            DeliveryStatus::Delivered => "delivered"@,
            DeliveryStatus::Failed => "failed"@,
            DeliveryStatus::Retrying => "retrying"@,
            DeliveryStatus::Cancelled => "cancelled"@,
        }
    }

    /// The variant that a text stands for, if any.
    pub open spec fn spec_parse(s: Seq<char>) -> Option<DeliveryStatus> {
        if s == "pending"@ {
            Some(DeliveryStatus::Pending)
        } else if s == "delivered"@ {
            Some(DeliveryStatus::Delivered)
        } else if s == "failed"@ {
            Some(DeliveryStatus::Failed)
        } else if s == "retrying"@ {
            Some(DeliveryStatus::Retrying)
        } else if s == "cancelled"@ {
            Some(DeliveryStatus::Cancelled)
        } else {
            None
        }
    }

    pub fn to_str(&self) -> (res: &'static str)
        ensures
            res@ == self.spec_str(),
    {
        match self {
            DeliveryStatus::Pending => "pending",
            DeliveryStatus::Delivered => "delivered",
            DeliveryStatus::Failed => "failed",
            DeliveryStatus::Retrying => "retrying",
            DeliveryStatus::Cancelled => "cancelled",
        }
    }

    pub fn to_string(&self) -> (res: String)
        ensures
            res@ == self.spec_str(),
    {
        self.to_str().to_owned()
    }

    /// Reads a variant from its text; any other text is refused with a `ValidationError`.
    pub fn from_string(s: &str) -> (res: Result<DeliveryStatus, AppError>)
        ensures
            match DeliveryStatus::spec_parse(s@) {
                Some(v) => res == Ok::<DeliveryStatus, AppError>(v),
                None => res matches Err(AppError::ValidationError(m)) && m@ == "Invalid delivery status"@,
            },
    {
        if str_eq(s, "pending") {
            Ok(DeliveryStatus::Pending)
        } else if str_eq(s, "delivered") {
            Ok(DeliveryStatus::Delivered)
        } else if str_eq(s, "failed") {
            Ok(DeliveryStatus::Failed)
        } else if str_eq(s, "retrying") {
            Ok(DeliveryStatus::Retrying)
        } else if str_eq(s, "cancelled") {
            Ok(DeliveryStatus::Cancelled)
        } else {
            Err(AppError::ValidationError("Invalid delivery status".to_owned()))
        }
    }

    /// Reading back the text of a variant gives the variant.
    pub proof fn lemma_parse_str(v: DeliveryStatus)
        ensures
            DeliveryStatus::spec_parse(v.spec_str()) == Some(v),
    {
        broadcast use vstd::string::group_string_axioms;
        reveal_strlit("pending");
        reveal_strlit("delivered");
        reveal_strlit("failed");
        reveal_strlit("retrying");
        reveal_strlit("cancelled");
        assert("pending"@.len() == 7);
        assert("delivered"@.len() == 9);
        assert("failed"@.len() == 6);
        assert("retrying"@.len() == 8);
        assert("cancelled"@.len() == 9);
        assert("delivered"@[0] != "cancelled"@[0]);
    }
}


/// A record of one attempt to deliver a notification.
#[derive(Clone, Debug)]
pub struct NotificationDeliveryLog {
    pub id: String,
    pub notification_id: String,
    pub channel: NotificationChannels,
    pub delivery_status: DeliveryStatus,
    pub attempted_at: Timestamp,
    pub delivered_at: Option<Timestamp>,
    pub error_message: Option<String>,
    pub retry_count: i32,
    pub recipient_address: Option<String>,
    pub created_at: Timestamp,
    pub updated_at: Timestamp,
}

impl NotificationDeliveryLog {
    /// The instants are ones that `chrono` represents.
    pub open spec fn wf(&self) -> bool {
        &&& self.attempted_at.valid()
        &&& (self.delivered_at matches Some(t) ==> t.valid())
        &&& self.created_at.valid()
        &&& self.updated_at.valid()
    }

    /// The DynamoDB table of this entity.
    pub fn table_name() -> (res: &'static str)
        ensures
            res@ == "NotificationDeliveryLogs"@,
    {
        "NotificationDeliveryLogs"
    }

    /// The key of the entity in its table.
    pub fn primary_key(&self) -> (res: String)
        ensures
            res@ == self.id@,
    {
        self.id.clone()
    }

    /// Whether an item holds what this entity needs to be read from it.
    pub open spec fn item_readable(iv: ItemView) -> bool {
        &&& s_at(iv, "id"@) is Some
        &&& s_at(iv, "notification_id"@) is Some
        &&& s_at(iv, "channel"@) matches Some(c) && NotificationChannels::spec_parse(c) is Some
        &&& s_at(iv, "delivery_status"@) matches Some(c) && DeliveryStatus::spec_parse(c) is Some
    }

    /// Whether this entity is what is read from an item, where instants that
    /// cannot be read are taken to be `now`.
    pub open spec fn read_from(&self, iv: ItemView, now: Timestamp) -> bool {
        &&& Some(self.id@) == s_at(iv, "id"@)
        &&& Some(self.notification_id@) == s_at(iv, "notification_id"@)
        &&& Some(self.channel) == NotificationChannels::spec_parse(s_at(iv, "channel"@)->0)
        &&& Some(self.delivery_status) == DeliveryStatus::spec_parse(s_at(iv, "delivery_status"@)->0)
        &&& self.attempted_at == timestamp_or(iv, "attempted_at"@, now)
        &&& self.delivered_at == timestamp_at(iv, "delivered_at"@)
        &&& opt_view(self.error_message) == s_at(iv, "error_message"@)
        &&& self.retry_count == i32_or(iv, "retry_count"@, 0)
        &&& opt_view(self.recipient_address) == s_at(iv, "recipient_address"@)
        &&& self.created_at == timestamp_or(iv, "created_at"@, now)
        &&& self.updated_at == timestamp_or(iv, "updated_at"@, now)
    }

    /// The item that `to_item` writes.
    pub open spec fn spec_item(&self) -> ItemView {
        let iv = Seq::empty();
        let iv = iv.push(("id"@, AttrView::S(self.id@)));
        let iv = iv.push(("notification_id"@, AttrView::S(self.notification_id@)));
        let iv = iv.push(("channel"@, AttrView::S(self.channel.spec_str())));
        let iv = iv.push(("delivery_status"@, AttrView::S(self.delivery_status.spec_str())));
        let iv = iv.push(("attempted_at"@, AttrView::S(chrono_format_datetime(self.attempted_at))));
        let iv = push_if(iv, self.delivered_at is Some, ("delivered_at"@, AttrView::S(chrono_format_datetime(self.delivered_at->0))));
        let iv = push_if(iv, self.error_message is Some, ("error_message"@, AttrView::S(self.error_message->0@)));
        let iv = iv.push(("retry_count"@, AttrView::N(spec_format_i32(self.retry_count))));
        let iv = push_if(iv, self.recipient_address is Some, ("recipient_address"@, AttrView::S(self.recipient_address->0@)));
        let iv = iv.push(("created_at"@, AttrView::S(chrono_format_datetime(self.created_at))));
        let iv = iv.push(("updated_at"@, AttrView::S(chrono_format_datetime(self.updated_at))));
        iv
    }

    /// Whether two entities hold the same values.
    pub open spec fn same_as(&self, other: &NotificationDeliveryLog) -> bool {
        &&& self.id@ == other.id@
        &&& self.notification_id@ == other.notification_id@
        &&& self.channel == other.channel
        &&& self.delivery_status == other.delivery_status
        &&& self.attempted_at == other.attempted_at
        &&& self.delivered_at == other.delivered_at
        &&& opt_view(self.error_message) == opt_view(other.error_message)
        &&& self.retry_count == other.retry_count
        &&& opt_view(self.recipient_address) == opt_view(other.recipient_address)
        &&& self.created_at == other.created_at
        &&& self.updated_at == other.updated_at
    }

    /// Reads the entity from an item, taking `now` for instants that are missing.
    pub fn from_item_at(item: &Item, now: Timestamp) -> (res: Option<Self>)
        requires
            now.valid(),
        ensures
            res is Some <==> Self::item_readable(item@),
            res matches Some(e) ==> e.read_from(item@, now) && e.wf(),
    {
        let id = read_s(item, "id")?;
        let notification_id = read_s(item, "notification_id")?;
        let channel_text = item.get_s("channel")?;
        let channel = NotificationChannels::from_string(channel_text.as_str()).ok()?;
        let delivery_status_text = item.get_s("delivery_status")?;
        let delivery_status = DeliveryStatus::from_string(delivery_status_text.as_str()).ok()?;
        let attempted_at = read_timestamp_or(item, "attempted_at", now);
        let delivered_at = read_timestamp(item, "delivered_at");
        let error_message = read_s(item, "error_message");
        let retry_count = read_i32_or(item, "retry_count", 0);
        let recipient_address = read_s(item, "recipient_address");
        let created_at = read_timestamp_or(item, "created_at", now);
        let updated_at = read_timestamp_or(item, "updated_at", now);
        Some(NotificationDeliveryLog {
            id,
            notification_id,
            channel,
            delivery_status,
            attempted_at,
            delivered_at,
            error_message,
            retry_count,
            recipient_address,
            created_at,
            updated_at,
        })
    }

    /// Reads the entity from an item; instants that are missing are read from the clock.
    pub fn from_item(item: &Item) -> (res: Option<Self>)
        ensures
            res is Some <==> Self::item_readable(item@),
            res matches Some(e) ==> e.wf() && exists|t: Timestamp| t.valid() && e.read_from(item@, t),
    {
        let t = now();
        Self::from_item_at(item, t)
    }

    /// Writes the entity as an item.
    pub fn to_item(&self) -> (res: Item)
        requires
            self.wf(),
        ensures
            res@ == self.spec_item(),
            Self::item_readable(res@),
            forall|b: NotificationDeliveryLog, now: Timestamp| #[trigger] b.read_from(res@, now) ==> b.same_as(self),
    {
        reveal(push_if);
        let mut item = Item::new();
        let ghost mut iv: ItemView = Seq::empty();
        item.insert_s("id", self.id.clone());
        proof { iv = iv.push(("id"@, AttrView::S(self.id@))); }
        assert(item@ == iv);
        item.insert_s("notification_id", self.notification_id.clone());
        proof { iv = iv.push(("notification_id"@, AttrView::S(self.notification_id@))); }
        assert(item@ == iv);
        item.insert_s("channel", self.channel.to_string());
        proof { iv = iv.push(("channel"@, AttrView::S(self.channel.spec_str()))); }
        assert(item@ == iv);
        item.insert_s("delivery_status", self.delivery_status.to_string());
        proof { iv = iv.push(("delivery_status"@, AttrView::S(self.delivery_status.spec_str()))); }
        assert(item@ == iv);
        write_timestamp(&mut item, "attempted_at", &self.attempted_at);
        proof { iv = iv.push(("attempted_at"@, AttrView::S(chrono_format_datetime(self.attempted_at)))); }
        assert(item@ == iv);
        if let Some(t) = &self.delivered_at {
            write_timestamp(&mut item, "delivered_at", t);
        }
        proof { iv = push_if(iv, self.delivered_at is Some, ("delivered_at"@, AttrView::S(chrono_format_datetime(self.delivered_at->0)))); }
        assert(item@ == iv);
        if let Some(x) = &self.error_message {
            item.insert_s("error_message", x.clone());
        }
        proof { iv = push_if(iv, self.error_message is Some, ("error_message"@, AttrView::S(self.error_message->0@))); }
        assert(item@ == iv);
        write_i32(&mut item, "retry_count", self.retry_count);
        proof { iv = iv.push(("retry_count"@, AttrView::N(spec_format_i32(self.retry_count)))); }
        assert(item@ == iv);
        if let Some(x) = &self.recipient_address {
            item.insert_s("recipient_address", x.clone());
        }
        proof { iv = push_if(iv, self.recipient_address is Some, ("recipient_address"@, AttrView::S(self.recipient_address->0@))); }
        assert(item@ == iv);
        write_timestamp(&mut item, "created_at", &self.created_at);
        proof { iv = iv.push(("created_at"@, AttrView::S(chrono_format_datetime(self.created_at)))); }
        assert(item@ == iv);
        write_timestamp(&mut item, "updated_at", &self.updated_at);
        proof { iv = iv.push(("updated_at"@, AttrView::S(chrono_format_datetime(self.updated_at)))); }
        assert(item@ == iv);
        proof {
            Self::lemma_item_roundtrip(self, self, Timestamp { secs: 0, nanos: 0 });
            assert forall|b: NotificationDeliveryLog, now: Timestamp| #[trigger] b.read_from(item@, now) implies b.same_as(self) by {
                Self::lemma_item_roundtrip(self, &b, now);
            }
        }
        item
    }

    /// Every attribute the `NotificationDeliveryLogs` table defines holds, in the item the entity is
    /// written as, nothing or a value of the type the table gives it, so
    /// DynamoDB accepts the item.
    pub proof fn lemma_item_fits_table(a: &NotificationDeliveryLog)
        ensures
            item_fits_table(a.spec_item(), spec_notification_delivery_logs_table()),
    {
        broadcast use crate::item::lemma_lookup_push, crate::item::lemma_lookup_push_if;
        lemma_keys_distinct();
        lemma_table_keys_absent();
        let t = spec_notification_delivery_logs_table();
        assert forall|i: int| 0 <= i < t.attributes.len() implies match #[trigger] crate::item::lookup(a.spec_item(), t.attributes[i].0) {
            Some(v) => attr_fits(t.attributes[i].1, v),
            None => true,
        } by {
            if i == 0 { assert(t.attributes[0].0 == "id"@); } else if i == 1 { assert(t.attributes[1].0 == "notification_id"@); } else if i == 2 { assert(t.attributes[2].0 == "delivery_status"@); } else if i == 3 { assert(t.attributes[3].0 == "delivery_channel"@); }
        }
    }

    /// Reading the entity back from the item it is written as gives the same
    /// entity, where `chrono` reads back the text of its instants.
    pub proof fn lemma_item_roundtrip(a: &NotificationDeliveryLog, b: &NotificationDeliveryLog, now: Timestamp)
        requires
            a.wf(),
            chrono_parse_datetime(chrono_format_datetime(a.attempted_at)) == Some(a.attempted_at),
            a.delivered_at matches Some(t) ==> chrono_parse_datetime(chrono_format_datetime(t)) == Some(t),
            chrono_parse_datetime(chrono_format_datetime(a.created_at)) == Some(a.created_at),
            chrono_parse_datetime(chrono_format_datetime(a.updated_at)) == Some(a.updated_at),
        ensures
            Self::item_readable(a.spec_item()),
            b.read_from(a.spec_item(), now) ==> b.same_as(a),
    {
        broadcast use crate::item::lemma_lookup_push, crate::item::lemma_lookup_push_if;
        lemma_keys_distinct();
        NotificationChannels::lemma_parse_str(a.channel);
        DeliveryStatus::lemma_parse_str(a.delivery_status);
        lemma_parse_format_i32(a.retry_count);
    }

    /// Which check, if any, the arguments of `new` fail, in the order they are made.
    pub open spec fn spec_new_error(notification_id: Seq<char>, channel: Seq<char>, delivery_status: Seq<char>) -> Option<Seq<char>> {
        if NotificationChannels::spec_parse(channel) is None {
            Some("Invalid notification channel"@)
        } else if DeliveryStatus::spec_parse(delivery_status) is None {
            Some("Invalid delivery status"@)
        } else if is_blank_spec(notification_id) {
            Some("Notification ID cannot be empty"@)
        } else {
            None
        }
    }

    /// Records one attempt to deliver a notification over a channel.
    pub fn new(
        id: String,
        notification_id: String,
        channel: String,
        delivery_status: String,
        attempted_at: Timestamp,
        delivered_at: Option<Timestamp>,
        error_message: Option<String>,
        retry_count: i32,
        recipient_address: Option<String>,
    ) -> (res: Result<Self, AppError>)
        ensures
            match Self::spec_new_error(notification_id@, channel@, delivery_status@) {
                Some(m) => is_validation_error(res, m),
                None => res matches Ok(d) && {
                    &&& d.id == id && d.notification_id == notification_id
                    &&& Some(d.channel) == NotificationChannels::spec_parse(channel@)
                    &&& Some(d.delivery_status) == DeliveryStatus::spec_parse(delivery_status@)
                    &&& d.attempted_at == attempted_at && d.delivered_at == delivered_at
                    &&& d.error_message == error_message && d.retry_count == retry_count
                    &&& d.recipient_address == recipient_address
                    &&& d.created_at == d.updated_at && d.created_at.valid()
                },
            },
            res matches Ok(x) ==> !is_blank_spec(x.notification_id@),
    {
        let now = now();
        let channel_enum = NotificationChannels::from_string(channel.as_str())?;
        let status_enum = DeliveryStatus::from_string(delivery_status.as_str())?;
        if is_blank(notification_id.as_str()) {
            return Err(AppError::ValidationError("Notification ID cannot be empty".to_owned()));
        }
        Ok(NotificationDeliveryLog {
            id,
            notification_id,
            channel: channel_enum,
            delivery_status: status_enum,
            attempted_at,
            delivered_at,
            error_message,
            retry_count,
            recipient_address,
            created_at: now,
            updated_at: now,
        })
    }

}

proof fn lemma_keys_distinct()
    ensures
        "id"@ != "notification_id"@,
        "id"@ != "channel"@,
        "id"@ != "delivery_status"@,
        "id"@ != "attempted_at"@,
        "id"@ != "delivered_at"@,
        "id"@ != "error_message"@,
        "id"@ != "retry_count"@,
        "id"@ != "recipient_address"@,
        "id"@ != "created_at"@,
        "id"@ != "updated_at"@,
        "notification_id"@ != "channel"@,
        "notification_id"@ != "delivery_status"@,
        "notification_id"@ != "attempted_at"@,
        "notification_id"@ != "delivered_at"@,
        "notification_id"@ != "error_message"@,
        "notification_id"@ != "retry_count"@,
        "notification_id"@ != "recipient_address"@,
        "notification_id"@ != "created_at"@,
        "notification_id"@ != "updated_at"@,
        "channel"@ != "delivery_status"@,
        "channel"@ != "attempted_at"@,
        "channel"@ != "delivered_at"@,
        "channel"@ != "error_message"@,
        "channel"@ != "retry_count"@,
        "channel"@ != "recipient_address"@,
        "channel"@ != "created_at"@,
        "channel"@ != "updated_at"@,
        "delivery_status"@ != "attempted_at"@,
        "delivery_status"@ != "delivered_at"@,
        "delivery_status"@ != "error_message"@,
        "delivery_status"@ != "retry_count"@,
        "delivery_status"@ != "recipient_address"@,
        "delivery_status"@ != "created_at"@,
        "delivery_status"@ != "updated_at"@,
        "attempted_at"@ != "delivered_at"@,
        "attempted_at"@ != "error_message"@,
        "attempted_at"@ != "retry_count"@,
        "attempted_at"@ != "recipient_address"@,
        "attempted_at"@ != "created_at"@,
        "attempted_at"@ != "updated_at"@,
        "delivered_at"@ != "error_message"@,
        "delivered_at"@ != "retry_count"@,
        "delivered_at"@ != "recipient_address"@,
        "delivered_at"@ != "created_at"@,
        "delivered_at"@ != "updated_at"@,
        "error_message"@ != "retry_count"@,
        "error_message"@ != "recipient_address"@,
        "error_message"@ != "created_at"@,
        "error_message"@ != "updated_at"@,
        "retry_count"@ != "recipient_address"@,
        "retry_count"@ != "created_at"@,
        "retry_count"@ != "updated_at"@,
        "recipient_address"@ != "created_at"@,
        "recipient_address"@ != "updated_at"@,
        "created_at"@ != "updated_at"@,
{
    broadcast use vstd::string::group_string_axioms;
    reveal_strlit("id");
    reveal_strlit("notification_id");
    reveal_strlit("channel");
    reveal_strlit("delivery_status");
    reveal_strlit("attempted_at");
    reveal_strlit("delivered_at");
    reveal_strlit("error_message");
    reveal_strlit("retry_count");
    reveal_strlit("recipient_address");
    reveal_strlit("created_at");
    reveal_strlit("updated_at");
    assert("id"@.len() == 2);
    assert("notification_id"@.len() == 15);
    assert("channel"@.len() == 7);
    assert("delivery_status"@.len() == 15);
    assert("attempted_at"@.len() == 12);
    assert("delivered_at"@.len() == 12);
    assert("error_message"@.len() == 13);
    assert("retry_count"@.len() == 11);
    assert("recipient_address"@.len() == 17);
    assert("created_at"@.len() == 10);
    assert("updated_at"@.len() == 10);
    assert("notification_id"@[0] != "delivery_status"@[0]);
    assert("attempted_at"@[0] != "delivered_at"@[0]);
    assert("created_at"@[0] != "updated_at"@[0]);
}

proof fn lemma_table_keys_absent()
    ensures
        "delivery_channel"@ != "attempted_at"@,
        "delivery_channel"@ != "channel"@,
        "delivery_channel"@ != "created_at"@,
        "delivery_channel"@ != "delivered_at"@,
        "delivery_channel"@ != "delivery_status"@,
        "delivery_channel"@ != "error_message"@,
        "delivery_channel"@ != "id"@,
        "delivery_channel"@ != "notification_id"@,
        "delivery_channel"@ != "recipient_address"@,
        "delivery_channel"@ != "retry_count"@,
        "delivery_channel"@ != "updated_at"@,
{
    broadcast use vstd::string::group_string_axioms;
    reveal_strlit("delivery_channel");
    reveal_strlit("attempted_at");
    reveal_strlit("channel");
    reveal_strlit("created_at");
    reveal_strlit("delivered_at");
    reveal_strlit("delivery_status");
    reveal_strlit("error_message");
    reveal_strlit("id");
    reveal_strlit("notification_id");
    reveal_strlit("recipient_address");
    reveal_strlit("retry_count");
    reveal_strlit("updated_at");
    assert("delivery_channel"@.len() == 16);
    assert("attempted_at"@.len() == 12);
    assert("channel"@.len() == 7);
    assert("created_at"@.len() == 10);
    assert("delivered_at"@.len() == 12);
    assert("delivery_status"@.len() == 15);
    assert("error_message"@.len() == 13);
    assert("id"@.len() == 2);
    assert("notification_id"@.len() == 15);
    assert("recipient_address"@.len() == 17);
    assert("retry_count"@.len() == 11);
    assert("updated_at"@.len() == 10);
    assert("delivery_channel"@.len() != "attempted_at"@.len());
    assert("delivery_channel"@.len() != "channel"@.len());
    assert("delivery_channel"@.len() != "created_at"@.len());
    assert("delivery_channel"@.len() != "delivered_at"@.len());
    assert("delivery_channel"@.len() != "delivery_status"@.len());
    assert("delivery_channel"@.len() != "error_message"@.len());
    assert("delivery_channel"@.len() != "id"@.len());
    assert("delivery_channel"@.len() != "notification_id"@.len());
    assert("delivery_channel"@.len() != "recipient_address"@.len());
    assert("delivery_channel"@.len() != "retry_count"@.len());
    assert("delivery_channel"@.len() != "updated_at"@.len());
}

} // verus!
