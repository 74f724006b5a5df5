//! The DynamoDB tables of the service as plain data: their billing mode,
//! attributes, keys and global secondary indexes with their projections, and
//! the texts that name each part when building it fails.
use vstd::prelude::*;

use crate::error::AppError;
use crate::item::{lookup, strings_view, AttrView, ItemView};
use crate::strlist::holds;
use crate::text::{join_text, debug_quoted, str_debug_repr};

verus! {

/// The type of a key attribute.
#[derive(Clone, Copy, Debug, PartialEq, Eq, Structural)]
pub enum AttrType {
    S,
    N,
    B,
}

/// How a table is billed.
#[derive(Clone, Copy, Debug, PartialEq, Eq, Structural)]
pub enum BillingMode {
    PayPerRequest,
    Provisioned,
}

/// Which attributes an index projects.
#[derive(Clone, Copy, Debug, PartialEq, Eq, Structural)]
pub enum ProjectionKind {
    All,
    KeysOnly,
}

/// The role of an attribute in a key.
#[derive(Clone, Copy, Debug, PartialEq, Eq, Structural)]
pub enum KeyRole {
    Hash,
    Range,
}

/// An attribute definition: a name and a type.
#[derive(Clone, Debug)]
pub struct AttributeSpec {
    pub name: String,
    pub attr_type: AttrType,
}

/// An element of a key schema: an attribute and its role.
#[derive(Clone, Debug)]
pub struct KeySpec {
    pub name: String,
    pub role: KeyRole,
}

/// A global secondary index: its name, its key, what it projects, and the
/// short label that names its key when building the key fails.
#[derive(Clone, Debug)]
pub struct IndexSpec {
    pub name: String,
    pub keys: Vec<KeySpec>,
    pub projection: ProjectionKind,
    pub label: String,
}

/// A table.
#[derive(Clone, Debug)]
pub struct TableSpec {
    pub name: String,
    pub billing: BillingMode,
    pub attributes: Vec<AttributeSpec>,
    pub keys: Vec<KeySpec>,
    pub indexes: Vec<IndexSpec>,
}

/// An index as values: name, key, projection and label.
pub type IndexView = (Seq<char>, Seq<(Seq<char>, KeyRole)>, ProjectionKind, Seq<char>);

/// A table as values.
pub struct TableView {
    pub name: Seq<char>,
    pub billing: BillingMode,
    pub attributes: Seq<(Seq<char>, AttrType)>,
    pub keys: Seq<(Seq<char>, KeyRole)>,
    pub indexes: Seq<IndexView>,
}

pub open spec fn key_view(k: KeySpec) -> (Seq<char>, KeyRole) {
    (k.name@, k.role)
}

pub open spec fn keys_view(ks: Seq<KeySpec>) -> Seq<(Seq<char>, KeyRole)> {
    ks.map_values(|k: KeySpec| key_view(k))
}

impl View for TableSpec {
    type V = TableView;

    open spec fn view(&self) -> TableView {
        TableView {
            name: self.name@,
            billing: self.billing,
            attributes: self.attributes@.map_values(|a: AttributeSpec| (a.name@, a.attr_type)),
            keys: keys_view(self.keys@),
            indexes: self.indexes@.map_values(|i: IndexSpec| (i.name@, keys_view(i.keys@), i.projection, i.label@)),
        }
    }
}

/// Whether a table defines an attribute of that name.
pub open spec fn defines(t: TableView, a: Seq<char>) -> bool {
    exists|i: int| 0 <= i < t.attributes.len() && t.attributes[i].0 == a
}

/// Whether a table uses an attribute in its key or in an index's key.
pub open spec fn uses(t: TableView, a: Seq<char>) -> bool {
    ||| exists|i: int| 0 <= i < t.keys.len() && t.keys[i].0 == a
    ||| exists|i: int, j: int| 0 <= i < t.indexes.len() && 0 <= j < t.indexes[i].1.len() && t.indexes[i].1[j].0 == a
}

/// What DynamoDB asks of a table's definition: the attributes defined are
/// exactly those used in keys, each defined once, and the indexes have
/// distinct names.
pub open spec fn well_formed(t: TableView) -> bool {
    &&& forall|i: int| 0 <= i < t.attributes.len() ==> uses(t, #[trigger] t.attributes[i].0)
    &&& forall|i: int| 0 <= i < t.keys.len() ==> defines(t, #[trigger] t.keys[i].0)
    &&& forall|i: int, j: int| 0 <= i < t.indexes.len() && 0 <= j < t.indexes[i].1.len()
        ==> defines(t, #[trigger] t.indexes[i].1[j].0)
    &&& forall|i: int, j: int| 0 <= i < j < t.attributes.len() ==> t.attributes[i].0 != t.attributes[j].0
    &&& forall|i: int, j: int| 0 <= i < j < t.indexes.len() ==> t.indexes[i].0 != t.indexes[j].0
}

fn attribute(name: &str, attr_type: AttrType) -> (res: AttributeSpec)
    ensures
        res.name@ == name@,
        res.attr_type == attr_type,
{
    AttributeSpec { name: name.to_owned(), attr_type }
}

fn key(name: &str, role: KeyRole) -> (res: KeySpec)
    ensures
        res.name@ == name@,
        res.role == role,
{
    KeySpec { name: name.to_owned(), role }
}

fn hash_index(name: &str, label: &str, key_name: &str) -> (res: IndexSpec)
    ensures
        res.name@ == name@,
        keys_view(res.keys@) == seq![(key_name@, KeyRole::Hash)],
        res.projection == ProjectionKind::All,
        res.label@ == label@,
{
    let keys = vec![key(key_name, KeyRole::Hash)];
    assert(keys_view(keys@) =~= seq![(key_name@, KeyRole::Hash)]);
    IndexSpec { name: name.to_owned(), keys, projection: ProjectionKind::All, label: label.to_owned() }
}

/// The `Assets` table.
pub open spec fn spec_assets_table() -> TableView {
    TableView {
        name: "Assets"@,
        billing: BillingMode::PayPerRequest,
        attributes: seq![("id"@, AttrType::S), ("type_id"@, AttrType::S), ("location_id"@, AttrType::S), ("manufacturer_id"@, AttrType::S), ("current_status"@, AttrType::S), ("maintenance_frequency"@, AttrType::S)],
        keys: seq![("id"@, KeyRole::Hash)],
        indexes: seq![("TypeIndex"@, seq![("type_id"@, KeyRole::Hash)], ProjectionKind::All, "Type"@), ("LocationIndex"@, seq![("location_id"@, KeyRole::Hash)], ProjectionKind::All, "Location"@), ("ManufacturerIndex"@, seq![("manufacturer_id"@, KeyRole::Hash)], ProjectionKind::All, "Manufacturer"@), ("StatusIndex"@, seq![("current_status"@, KeyRole::Hash)], ProjectionKind::All, "Status"@), ("MaintenanceFrequencyIndex"@, seq![("maintenance_frequency"@, KeyRole::Hash)], ProjectionKind::All, "MaintenanceFrequency"@)],
    }
}

/// The definition of the `Assets` table.
pub fn assets_table() -> (res: TableSpec)
    ensures
        res@ == spec_assets_table(),
{
    let attributes = vec![attribute("id", AttrType::S), attribute("type_id", AttrType::S), attribute("location_id", AttrType::S), attribute("manufacturer_id", AttrType::S), attribute("current_status", AttrType::S), attribute("maintenance_frequency", AttrType::S)];
    let keys = vec![key("id", KeyRole::Hash)];
    let indexes: Vec<IndexSpec> = vec![hash_index("TypeIndex", "Type", "type_id"), hash_index("LocationIndex", "Location", "location_id"), hash_index("ManufacturerIndex", "Manufacturer", "manufacturer_id"), hash_index("StatusIndex", "Status", "current_status"), hash_index("MaintenanceFrequencyIndex", "MaintenanceFrequency", "maintenance_frequency")];
    let res = TableSpec { name: "Assets".to_owned(), billing: BillingMode::PayPerRequest, attributes, keys, indexes };
    assert(res@.attributes =~= spec_assets_table().attributes);
    assert(res@.keys =~= spec_assets_table().keys);
    assert(res@.indexes =~= spec_assets_table().indexes);
    res
}

/// The `AssetTypes` table.
pub open spec fn spec_asset_types_table() -> TableView {
    TableView {
        name: "AssetTypes"@,
        billing: BillingMode::PayPerRequest,
        attributes: seq![("id"@, AttrType::S)],
        keys: seq![("id"@, KeyRole::Hash)],
        indexes: seq![],
    }
}

/// The definition of the `AssetTypes` table.
pub fn asset_types_table() -> (res: TableSpec)
    ensures
        res@ == spec_asset_types_table(),
{
    let attributes = vec![attribute("id", AttrType::S)];
    let keys = vec![key("id", KeyRole::Hash)];
    let indexes: Vec<IndexSpec> = vec![];
    let res = TableSpec { name: "AssetTypes".to_owned(), billing: BillingMode::PayPerRequest, attributes, keys, indexes };
    assert(res@.attributes =~= spec_asset_types_table().attributes);
    assert(res@.keys =~= spec_asset_types_table().keys);
    assert(res@.indexes =~= spec_asset_types_table().indexes);
    res
}

/// The `Locations` table.
pub open spec fn spec_locations_table() -> TableView {
    TableView {
        name: "Locations"@,
        billing: BillingMode::PayPerRequest,
        attributes: seq![("id"@, AttrType::S), ("location_type_id"@, AttrType::S)],
        keys: seq![("id"@, KeyRole::Hash)],
        indexes: seq![("LocationTypeIndex"@, seq![("location_type_id"@, KeyRole::Hash)], ProjectionKind::All, "LocationType"@)],
    }
}

/// The definition of the `Locations` table.
pub fn locations_table() -> (res: TableSpec)
    ensures
        res@ == spec_locations_table(),
{
    let attributes = vec![attribute("id", AttrType::S), attribute("location_type_id", AttrType::S)];
    let keys = vec![key("id", KeyRole::Hash)];
    let indexes: Vec<IndexSpec> = vec![hash_index("LocationTypeIndex", "LocationType", "location_type_id")];
    let res = TableSpec { name: "Locations".to_owned(), billing: BillingMode::PayPerRequest, attributes, keys, indexes };
    assert(res@.attributes =~= spec_locations_table().attributes);
    assert(res@.keys =~= spec_locations_table().keys);
    assert(res@.indexes =~= spec_locations_table().indexes);
    res
}

/// The `LocationTypes` table.
pub open spec fn spec_location_types_table() -> TableView {
    TableView {
        name: "LocationTypes"@,
        billing: BillingMode::PayPerRequest,
        attributes: seq![("id"@, AttrType::S)],
        keys: seq![("id"@, KeyRole::Hash)],
        indexes: seq![],
    }
}

/// The definition of the `LocationTypes` table.
pub fn location_types_table() -> (res: TableSpec)
    ensures
        res@ == spec_location_types_table(),
{
    let attributes = vec![attribute("id", AttrType::S)];
    let keys = vec![key("id", KeyRole::Hash)];
    let indexes: Vec<IndexSpec> = vec![];
    let res = TableSpec { name: "LocationTypes".to_owned(), billing: BillingMode::PayPerRequest, attributes, keys, indexes };
    assert(res@.attributes =~= spec_location_types_table().attributes);
    assert(res@.keys =~= spec_location_types_table().keys);
    assert(res@.indexes =~= spec_location_types_table().indexes);
    res
}

/// The `Manufacturers` table.
pub open spec fn spec_manufacturers_table() -> TableView {
    TableView {
        name: "Manufacturers"@,
        billing: BillingMode::PayPerRequest,
        attributes: seq![("id"@, AttrType::S)],
        keys: seq![("id"@, KeyRole::Hash)],
        indexes: seq![],
    }
}

/// The definition of the `Manufacturers` table.
pub fn manufacturers_table() -> (res: TableSpec)
    ensures
        res@ == spec_manufacturers_table(),
{
    let attributes = vec![attribute("id", AttrType::S)];
    let keys = vec![key("id", KeyRole::Hash)];
    let indexes: Vec<IndexSpec> = vec![];
    let res = TableSpec { name: "Manufacturers".to_owned(), billing: BillingMode::PayPerRequest, attributes, keys, indexes };
    assert(res@.attributes =~= spec_manufacturers_table().attributes);
    assert(res@.keys =~= spec_manufacturers_table().keys);
    assert(res@.indexes =~= spec_manufacturers_table().indexes);
    res
}

/// The `MaintenanceSchedules` table.
pub open spec fn spec_maintenance_schedules_table() -> TableView {
    TableView {
        name: "MaintenanceSchedules"@,
        billing: BillingMode::PayPerRequest,
        attributes: seq![("id"@, AttrType::S), ("asset_id"@, AttrType::S), ("next_due_date"@, AttrType::S)],
        keys: seq![("id"@, KeyRole::Hash)],
        indexes: seq![("AssetIndex"@, seq![("asset_id"@, KeyRole::Hash)], ProjectionKind::All, "Asset"@), ("DueDateIndex"@, seq![("next_due_date"@, KeyRole::Hash)], ProjectionKind::All, "DueDate"@)],
    }
}

/// The definition of the `MaintenanceSchedules` table.
pub fn maintenance_schedules_table() -> (res: TableSpec)
    ensures
        res@ == spec_maintenance_schedules_table(),
{
    let attributes = vec![attribute("id", AttrType::S), attribute("asset_id", AttrType::S), attribute("next_due_date", AttrType::S)];
    let keys = vec![key("id", KeyRole::Hash)];
    let indexes: Vec<IndexSpec> = vec![hash_index("AssetIndex", "Asset", "asset_id"), hash_index("DueDateIndex", "DueDate", "next_due_date")];
    let res = TableSpec { name: "MaintenanceSchedules".to_owned(), billing: BillingMode::PayPerRequest, attributes, keys, indexes };
    assert(res@.attributes =~= spec_maintenance_schedules_table().attributes);
    assert(res@.keys =~= spec_maintenance_schedules_table().keys);
    assert(res@.indexes =~= spec_maintenance_schedules_table().indexes);
    res
}

/// The `WorkOrders` table.
pub open spec fn spec_work_orders_table() -> TableView {
    TableView {
        name: "WorkOrders"@,
        billing: BillingMode::PayPerRequest,
        attributes: seq![("id"@, AttrType::S), ("asset_id"@, AttrType::S), ("assigned_to"@, AttrType::S), ("status"@, AttrType::S), ("priority"@, AttrType::S)],
        keys: seq![("id"@, KeyRole::Hash)],
        indexes: seq![("AssetIndex"@, seq![("asset_id"@, KeyRole::Hash)], ProjectionKind::All, "Asset"@), ("AssignedToIndex"@, seq![("assigned_to"@, KeyRole::Hash)], ProjectionKind::All, "AssignedTo"@), ("StatusIndex"@, seq![("status"@, KeyRole::Hash)], ProjectionKind::All, "Status"@), ("PriorityIndex"@, seq![("priority"@, KeyRole::Hash)], ProjectionKind::All, "Priority"@)],
    }
}

/// The definition of the `WorkOrders` table.
pub fn work_orders_table() -> (res: TableSpec)
    ensures
        res@ == spec_work_orders_table(),
{
    let attributes = vec![attribute("id", AttrType::S), attribute("asset_id", AttrType::S), attribute("assigned_to", AttrType::S), attribute("status", AttrType::S), attribute("priority", AttrType::S)];
    let keys = vec![key("id", KeyRole::Hash)];
    let indexes: Vec<IndexSpec> = vec![hash_index("AssetIndex", "Asset", "asset_id"), hash_index("AssignedToIndex", "AssignedTo", "assigned_to"), hash_index("StatusIndex", "Status", "status"), hash_index("PriorityIndex", "Priority", "priority")];
    let res = TableSpec { name: "WorkOrders".to_owned(), billing: BillingMode::PayPerRequest, attributes, keys, indexes };
    assert(res@.attributes =~= spec_work_orders_table().attributes);
    assert(res@.keys =~= spec_work_orders_table().keys);
    assert(res@.indexes =~= spec_work_orders_table().indexes);
    res
}

/// The `MaintenanceRequests` table.
pub open spec fn spec_maintenance_requests_table() -> TableView {
    TableView {
        name: "MaintenanceRequests"@,
        billing: BillingMode::PayPerRequest,
        attributes: seq![("id"@, AttrType::S), ("submitted_by"@, AttrType::S), ("status"@, AttrType::S), ("severity"@, AttrType::S), ("created_at"@, AttrType::S)],
        keys: seq![("id"@, KeyRole::Hash)],
        indexes: seq![("SubmittedByIndex"@, seq![("submitted_by"@, KeyRole::Hash)], ProjectionKind::All, "SubmittedBy"@), ("StatusIndex"@, seq![("status"@, KeyRole::Hash)], ProjectionKind::All, "Status"@), ("SeverityIndex"@, seq![("severity"@, KeyRole::Hash)], ProjectionKind::All, "Severity"@), ("CreatedAtIndex"@, seq![("created_at"@, KeyRole::Hash)], ProjectionKind::All, "CreatedAt"@)],
    }
}

/// The definition of the `MaintenanceRequests` table.
pub fn maintenance_requests_table() -> (res: TableSpec)
    ensures
        res@ == spec_maintenance_requests_table(),
{
    let attributes = vec![attribute("id", AttrType::S), attribute("submitted_by", AttrType::S), attribute("status", AttrType::S), attribute("severity", AttrType::S), attribute("created_at", AttrType::S)];
    let keys = vec![key("id", KeyRole::Hash)];
    let indexes: Vec<IndexSpec> = vec![hash_index("SubmittedByIndex", "SubmittedBy", "submitted_by"), hash_index("StatusIndex", "Status", "status"), hash_index("SeverityIndex", "Severity", "severity"), hash_index("CreatedAtIndex", "CreatedAt", "created_at")];
    let res = TableSpec { name: "MaintenanceRequests".to_owned(), billing: BillingMode::PayPerRequest, attributes, keys, indexes };
    assert(res@.attributes =~= spec_maintenance_requests_table().attributes);
    assert(res@.keys =~= spec_maintenance_requests_table().keys);
    assert(res@.indexes =~= spec_maintenance_requests_table().indexes);
    res
}

/// The `Notifications` table.
pub open spec fn spec_notifications_table() -> TableView {
    TableView {
        name: "Notifications"@,
        billing: BillingMode::PayPerRequest,
        attributes: seq![("id"@, AttrType::S), ("user_id"@, AttrType::S), ("notification_type"@, AttrType::S), ("status"@, AttrType::S), ("priority"@, AttrType::S)],
        keys: seq![("id"@, KeyRole::Hash)],
        indexes: seq![("UserIndex"@, seq![("user_id"@, KeyRole::Hash)], ProjectionKind::All, "User"@), ("TypeIndex"@, seq![("notification_type"@, KeyRole::Hash)], ProjectionKind::All, "Type"@), ("StatusIndex"@, seq![("status"@, KeyRole::Hash)], ProjectionKind::All, "Status"@), ("PriorityIndex"@, seq![("priority"@, KeyRole::Hash)], ProjectionKind::All, "Priority"@)],
    }
}

/// The definition of the `Notifications` table.
pub fn notifications_table() -> (res: TableSpec)
    ensures
        res@ == spec_notifications_table(),
{
    let attributes = vec![attribute("id", AttrType::S), attribute("user_id", AttrType::S), attribute("notification_type", AttrType::S), attribute("status", AttrType::S), attribute("priority", AttrType::S)];
    let keys = vec![key("id", KeyRole::Hash)];
    let indexes: Vec<IndexSpec> = vec![hash_index("UserIndex", "User", "user_id"), hash_index("TypeIndex", "Type", "notification_type"), hash_index("StatusIndex", "Status", "status"), hash_index("PriorityIndex", "Priority", "priority")];
    let res = TableSpec { name: "Notifications".to_owned(), billing: BillingMode::PayPerRequest, attributes, keys, indexes };
    assert(res@.attributes =~= spec_notifications_table().attributes);
    assert(res@.keys =~= spec_notifications_table().keys);
    assert(res@.indexes =~= spec_notifications_table().indexes);
    res
}

/// The `NotificationTemplates` table.
pub open spec fn spec_notification_templates_table() -> TableView {
    TableView {
        name: "NotificationTemplates"@,
        billing: BillingMode::PayPerRequest,
        attributes: seq![("id"@, AttrType::S), ("template_type"@, AttrType::S)],
        keys: seq![("id"@, KeyRole::Hash)],
        indexes: seq![("TypeIndex"@, seq![("template_type"@, KeyRole::Hash)], ProjectionKind::All, "Type"@)],
    }
}

/// The definition of the `NotificationTemplates` table.
pub fn notification_templates_table() -> (res: TableSpec)
    ensures
        res@ == spec_notification_templates_table(),
{
    let attributes = vec![attribute("id", AttrType::S), attribute("template_type", AttrType::S)];
    let keys = vec![key("id", KeyRole::Hash)];
    let indexes: Vec<IndexSpec> = vec![hash_index("TypeIndex", "Type", "template_type")];
    let res = TableSpec { name: "NotificationTemplates".to_owned(), billing: BillingMode::PayPerRequest, attributes, keys, indexes };
    assert(res@.attributes =~= spec_notification_templates_table().attributes);
    assert(res@.keys =~= spec_notification_templates_table().keys);
    assert(res@.indexes =~= spec_notification_templates_table().indexes);
    res
}

/// The `NotificationDeliveryLogs` table.
pub open spec fn spec_notification_delivery_logs_table() -> TableView {
    TableView {
        name: "NotificationDeliveryLogs"@,
        billing: BillingMode::PayPerRequest,
        attributes: seq![("id"@, AttrType::S), ("notification_id"@, AttrType::S), ("delivery_status"@, AttrType::S), ("delivery_channel"@, AttrType::S)],
        keys: seq![("id"@, KeyRole::Hash)],
        indexes: seq![("NotificationIndex"@, seq![("notification_id"@, KeyRole::Hash)], ProjectionKind::All, "Notification"@), ("StatusIndex"@, seq![("delivery_status"@, KeyRole::Hash)], ProjectionKind::All, "Status"@), ("ChannelIndex"@, seq![("delivery_channel"@, KeyRole::Hash)], ProjectionKind::All, "Channel"@)],
    }
}

/// The definition of the `NotificationDeliveryLogs` table.
pub fn notification_delivery_logs_table() -> (res: TableSpec)
    ensures
        res@ == spec_notification_delivery_logs_table(),
{
    let attributes = vec![attribute("id", AttrType::S), attribute("notification_id", AttrType::S), attribute("delivery_status", AttrType::S), attribute("delivery_channel", AttrType::S)];
    let keys = vec![key("id", KeyRole::Hash)];
    let indexes: Vec<IndexSpec> = vec![hash_index("NotificationIndex", "Notification", "notification_id"), hash_index("StatusIndex", "Status", "delivery_status"), hash_index("ChannelIndex", "Channel", "delivery_channel")];
    let res = TableSpec { name: "NotificationDeliveryLogs".to_owned(), billing: BillingMode::PayPerRequest, attributes, keys, indexes };
    assert(res@.attributes =~= spec_notification_delivery_logs_table().attributes);
    assert(res@.keys =~= spec_notification_delivery_logs_table().keys);
    assert(res@.indexes =~= spec_notification_delivery_logs_table().indexes);
    res
}

/// The `UserNotificationPreferences` table.
pub open spec fn spec_user_notification_preferences_table() -> TableView {
    TableView {
        name: "UserNotificationPreferences"@,
        billing: BillingMode::PayPerRequest,
        attributes: seq![("user_id"@, AttrType::S), ("notification_type"@, AttrType::S)],
        keys: seq![("user_id"@, KeyRole::Hash), ("notification_type"@, KeyRole::Range)],
        indexes: seq![("TypeIndex"@, seq![("notification_type"@, KeyRole::Hash)], ProjectionKind::All, "Type"@)],
    }
}

/// The definition of the `UserNotificationPreferences` table.
pub fn user_notification_preferences_table() -> (res: TableSpec)
    ensures
        res@ == spec_user_notification_preferences_table(),
{
    let attributes = vec![attribute("user_id", AttrType::S), attribute("notification_type", AttrType::S)];
    let keys = vec![key("user_id", KeyRole::Hash), key("notification_type", KeyRole::Range)];
    let indexes: Vec<IndexSpec> = vec![hash_index("TypeIndex", "Type", "notification_type")];
    let res = TableSpec { name: "UserNotificationPreferences".to_owned(), billing: BillingMode::PayPerRequest, attributes, keys, indexes };
    assert(res@.attributes =~= spec_user_notification_preferences_table().attributes);
    assert(res@.keys =~= spec_user_notification_preferences_table().keys);
    assert(res@.indexes =~= spec_user_notification_preferences_table().indexes);
    res
}

/// The `Roles` table.
pub open spec fn spec_roles_table() -> TableView {
    TableView {
        name: "Roles"@,
        billing: BillingMode::PayPerRequest,
        attributes: seq![("id"@, AttrType::S), ("role_type"@, AttrType::S), ("status"@, AttrType::S)],
        keys: seq![("id"@, KeyRole::Hash)],
        indexes: seq![("TypeIndex"@, seq![("role_type"@, KeyRole::Hash)], ProjectionKind::All, "Type"@), ("StatusIndex"@, seq![("status"@, KeyRole::Hash)], ProjectionKind::All, "Status"@)],
    }
}

/// The definition of the `Roles` table.
pub fn roles_table() -> (res: TableSpec)
    ensures
        res@ == spec_roles_table(),
{
    let attributes = vec![attribute("id", AttrType::S), attribute("role_type", AttrType::S), attribute("status", AttrType::S)];
    let keys = vec![key("id", KeyRole::Hash)];
    let indexes: Vec<IndexSpec> = vec![hash_index("TypeIndex", "Type", "role_type"), hash_index("StatusIndex", "Status", "status")];
    let res = TableSpec { name: "Roles".to_owned(), billing: BillingMode::PayPerRequest, attributes, keys, indexes };
    assert(res@.attributes =~= spec_roles_table().attributes);
    assert(res@.keys =~= spec_roles_table().keys);
    assert(res@.indexes =~= spec_roles_table().indexes);
    res
}

/// The `UserRoles` table.
pub open spec fn spec_user_roles_table() -> TableView {
    TableView {
        name: "UserRoles"@,
        billing: BillingMode::PayPerRequest,
        attributes: seq![("id"@, AttrType::S), ("user_id"@, AttrType::S), ("role_id"@, AttrType::S), ("status"@, AttrType::S)],
        keys: seq![("id"@, KeyRole::Hash)],
        indexes: seq![("UserIndex"@, seq![("user_id"@, KeyRole::Hash)], ProjectionKind::All, "User"@), ("RoleIndex"@, seq![("role_id"@, KeyRole::Hash)], ProjectionKind::All, "Role"@), ("StatusIndex"@, seq![("status"@, KeyRole::Hash)], ProjectionKind::All, "Status"@)],
    }
}

/// The definition of the `UserRoles` table.
pub fn user_roles_table() -> (res: TableSpec)
    ensures
        res@ == spec_user_roles_table(),
{
    let attributes = vec![attribute("id", AttrType::S), attribute("user_id", AttrType::S), attribute("role_id", AttrType::S), attribute("status", AttrType::S)];
    let keys = vec![key("id", KeyRole::Hash)];
    let indexes: Vec<IndexSpec> = vec![hash_index("UserIndex", "User", "user_id"), hash_index("RoleIndex", "Role", "role_id"), hash_index("StatusIndex", "Status", "status")];
    let res = TableSpec { name: "UserRoles".to_owned(), billing: BillingMode::PayPerRequest, attributes, keys, indexes };
    assert(res@.attributes =~= spec_user_roles_table().attributes);
    assert(res@.keys =~= spec_user_roles_table().keys);
    assert(res@.indexes =~= spec_user_roles_table().indexes);
    res
}

/// The `Permissions` table.
pub open spec fn spec_permissions_table() -> TableView {
    TableView {
        name: "Permissions"@,
        billing: BillingMode::PayPerRequest,
        attributes: seq![("id"@, AttrType::S), ("resource_type"@, AttrType::S), ("permission_type"@, AttrType::S)],
        keys: seq![("id"@, KeyRole::Hash)],
        indexes: seq![("ResourceTypeIndex"@, seq![("resource_type"@, KeyRole::Hash)], ProjectionKind::All, "ResourceType"@), ("PermissionTypeIndex"@, seq![("permission_type"@, KeyRole::Hash)], ProjectionKind::All, "PermissionType"@)],
    }
}

/// The definition of the `Permissions` table.
pub fn permissions_table() -> (res: TableSpec)
    ensures
        res@ == spec_permissions_table(),
{
    let attributes = vec![attribute("id", AttrType::S), attribute("resource_type", AttrType::S), attribute("permission_type", AttrType::S)];
    let keys = vec![key("id", KeyRole::Hash)];
    let indexes: Vec<IndexSpec> = vec![hash_index("ResourceTypeIndex", "ResourceType", "resource_type"), hash_index("PermissionTypeIndex", "PermissionType", "permission_type")];
    let res = TableSpec { name: "Permissions".to_owned(), billing: BillingMode::PayPerRequest, attributes, keys, indexes };
    assert(res@.attributes =~= spec_permissions_table().attributes);
    assert(res@.keys =~= spec_permissions_table().keys);
    assert(res@.indexes =~= spec_permissions_table().indexes);
    res
}

/// The `PermissionLogs` table.
pub open spec fn spec_permission_logs_table() -> TableView {
    TableView {
        name: "PermissionLogs"@,
        billing: BillingMode::PayPerRequest,
        attributes: seq![("id"@, AttrType::S), ("user_id"@, AttrType::S), ("action_type"@, AttrType::S), ("resource_id"@, AttrType::S)],
        keys: seq![("id"@, KeyRole::Hash)],
        indexes: seq![("UserIndex"@, seq![("user_id"@, KeyRole::Hash)], ProjectionKind::All, "User"@), ("ActionTypeIndex"@, seq![("action_type"@, KeyRole::Hash)], ProjectionKind::All, "ActionType"@), ("ResourceIndex"@, seq![("resource_id"@, KeyRole::Hash)], ProjectionKind::All, "Resource"@)],
    }
}

/// The definition of the `PermissionLogs` table.
pub fn permission_logs_table() -> (res: TableSpec)
    ensures
        res@ == spec_permission_logs_table(),
{
    let attributes = vec![attribute("id", AttrType::S), attribute("user_id", AttrType::S), attribute("action_type", AttrType::S), attribute("resource_id", AttrType::S)];
    let keys = vec![key("id", KeyRole::Hash)];
    let indexes: Vec<IndexSpec> = vec![hash_index("UserIndex", "User", "user_id"), hash_index("ActionTypeIndex", "ActionType", "action_type"), hash_index("ResourceIndex", "Resource", "resource_id")];
    let res = TableSpec { name: "PermissionLogs".to_owned(), billing: BillingMode::PayPerRequest, attributes, keys, indexes };
    assert(res@.attributes =~= spec_permission_logs_table().attributes);
    assert(res@.keys =~= spec_permission_logs_table().keys);
    assert(res@.indexes =~= spec_permission_logs_table().indexes);
    res
}

/// The `RoleHierarchy` table.
pub open spec fn spec_role_hierarchy_table() -> TableView {
    TableView {
        name: "RoleHierarchy"@,
        billing: BillingMode::PayPerRequest,
        attributes: seq![("parent_role_id"@, AttrType::S), ("child_role_id"@, AttrType::S)],
        keys: seq![("parent_role_id"@, KeyRole::Hash), ("child_role_id"@, KeyRole::Range)],
        indexes: seq![("ChildRoleIndex"@, seq![("child_role_id"@, KeyRole::Hash)], ProjectionKind::All, "ChildRole"@)],
    }
}

/// The definition of the `RoleHierarchy` table.
pub fn role_hierarchy_table() -> (res: TableSpec)
    ensures
        res@ == spec_role_hierarchy_table(),
{
    let attributes = vec![attribute("parent_role_id", AttrType::S), attribute("child_role_id", AttrType::S)];
    let keys = vec![key("parent_role_id", KeyRole::Hash), key("child_role_id", KeyRole::Range)];
    let indexes: Vec<IndexSpec> = vec![hash_index("ChildRoleIndex", "ChildRole", "child_role_id")];
    let res = TableSpec { name: "RoleHierarchy".to_owned(), billing: BillingMode::PayPerRequest, attributes, keys, indexes };
    assert(res@.attributes =~= spec_role_hierarchy_table().attributes);
    assert(res@.keys =~= spec_role_hierarchy_table().keys);
    assert(res@.indexes =~= spec_role_hierarchy_table().indexes);
    res
}

/// The `TempRoleElevation` table.
pub open spec fn spec_temp_role_elevation_table() -> TableView {
    TableView {
        name: "TempRoleElevation"@,
        billing: BillingMode::PayPerRequest,
        attributes: seq![("id"@, AttrType::S), ("user_id"@, AttrType::S), ("target_role_id"@, AttrType::S), ("status"@, AttrType::S)],
        keys: seq![("id"@, KeyRole::Hash)],
        indexes: seq![("UserIndex"@, seq![("user_id"@, KeyRole::Hash)], ProjectionKind::All, "User"@), ("TargetRoleIndex"@, seq![("target_role_id"@, KeyRole::Hash)], ProjectionKind::All, "TargetRole"@), ("StatusIndex"@, seq![("status"@, KeyRole::Hash)], ProjectionKind::All, "Status"@)],
    }
}

/// The definition of the `TempRoleElevation` table.
pub fn temp_role_elevation_table() -> (res: TableSpec)
    ensures
        res@ == spec_temp_role_elevation_table(),
{
    let attributes = vec![attribute("id", AttrType::S), attribute("user_id", AttrType::S), attribute("target_role_id", AttrType::S), attribute("status", AttrType::S)];
    let keys = vec![key("id", KeyRole::Hash)];
    let indexes: Vec<IndexSpec> = vec![hash_index("UserIndex", "User", "user_id"), hash_index("TargetRoleIndex", "TargetRole", "target_role_id"), hash_index("StatusIndex", "Status", "status")];
    let res = TableSpec { name: "TempRoleElevation".to_owned(), billing: BillingMode::PayPerRequest, attributes, keys, indexes };
    assert(res@.attributes =~= spec_temp_role_elevation_table().attributes);
    assert(res@.keys =~= spec_temp_role_elevation_table().keys);
    assert(res@.indexes =~= spec_temp_role_elevation_table().indexes);
    res
}

/// The `Vendors` table.
pub open spec fn spec_vendors_table() -> TableView {
    TableView {
        name: "Vendors"@,
        billing: BillingMode::PayPerRequest,
        attributes: seq![("id"@, AttrType::S), ("category_id"@, AttrType::S), ("status"@, AttrType::S), ("rating"@, AttrType::N)],
        keys: seq![("id"@, KeyRole::Hash)],
        indexes: seq![("CategoryIndex"@, seq![("category_id"@, KeyRole::Hash)], ProjectionKind::All, "Category"@), ("StatusIndex"@, seq![("status"@, KeyRole::Hash)], ProjectionKind::All, "Status"@), ("RatingIndex"@, seq![("rating"@, KeyRole::Hash)], ProjectionKind::All, "Rating"@)],
    }
}

/// The definition of the `Vendors` table.
pub fn vendors_table() -> (res: TableSpec)
    ensures
        res@ == spec_vendors_table(),
{
    let attributes = vec![attribute("id", AttrType::S), attribute("category_id", AttrType::S), attribute("status", AttrType::S), attribute("rating", AttrType::N)];
    let keys = vec![key("id", KeyRole::Hash)];
    let indexes: Vec<IndexSpec> = vec![hash_index("CategoryIndex", "Category", "category_id"), hash_index("StatusIndex", "Status", "status"), hash_index("RatingIndex", "Rating", "rating")];
    let res = TableSpec { name: "Vendors".to_owned(), billing: BillingMode::PayPerRequest, attributes, keys, indexes };
    assert(res@.attributes =~= spec_vendors_table().attributes);
    assert(res@.keys =~= spec_vendors_table().keys);
    assert(res@.indexes =~= spec_vendors_table().indexes);
    res
}

/// The `VendorCategories` table.
pub open spec fn spec_vendor_categories_table() -> TableView {
    TableView {
        name: "VendorCategories"@,
        billing: BillingMode::PayPerRequest,
        attributes: seq![("id"@, AttrType::S)],
        keys: seq![("id"@, KeyRole::Hash)],
        indexes: seq![],
    }
}

/// The definition of the `VendorCategories` table.
pub fn vendor_categories_table() -> (res: TableSpec)
    ensures
        res@ == spec_vendor_categories_table(),
{
    let attributes = vec![attribute("id", AttrType::S)];
    let keys = vec![key("id", KeyRole::Hash)];
    let indexes: Vec<IndexSpec> = vec![];
    let res = TableSpec { name: "VendorCategories".to_owned(), billing: BillingMode::PayPerRequest, attributes, keys, indexes };
    assert(res@.attributes =~= spec_vendor_categories_table().attributes);
    assert(res@.keys =~= spec_vendor_categories_table().keys);
    assert(res@.indexes =~= spec_vendor_categories_table().indexes);
    res
}

/// The `UserPreferences` table.
pub open spec fn spec_user_preferences_table() -> TableView {
    TableView {
        name: "UserPreferences"@,
        billing: BillingMode::PayPerRequest,
        attributes: seq![("user_id"@, AttrType::S)],
        keys: seq![("user_id"@, KeyRole::Hash)],
        indexes: seq![],
    }
}

/// The definition of the `UserPreferences` table.
pub fn user_preferences_table() -> (res: TableSpec)
    ensures
        res@ == spec_user_preferences_table(),
{
    let attributes = vec![attribute("user_id", AttrType::S)];
    let keys = vec![key("user_id", KeyRole::Hash)];
    let indexes: Vec<IndexSpec> = vec![];
    let res = TableSpec { name: "UserPreferences".to_owned(), billing: BillingMode::PayPerRequest, attributes, keys, indexes };
    assert(res@.attributes =~= spec_user_preferences_table().attributes);
    assert(res@.keys =~= spec_user_preferences_table().keys);
    assert(res@.indexes =~= spec_user_preferences_table().indexes);
    res
}

/// The `Assets` table is well formed.
pub proof fn lemma_assets_table_well_formed()
    ensures
        well_formed(spec_assets_table()),
{
    let t = spec_assets_table();
    broadcast use vstd::string::group_string_axioms;
    reveal_strlit("id");
    reveal_strlit("type_id");
    reveal_strlit("location_id");
    reveal_strlit("manufacturer_id");
    reveal_strlit("current_status");
    reveal_strlit("maintenance_frequency");
    reveal_strlit("TypeIndex");
    reveal_strlit("LocationIndex");
    reveal_strlit("ManufacturerIndex");
    reveal_strlit("StatusIndex");
    reveal_strlit("MaintenanceFrequencyIndex");
    assert(t.keys[0].0 == "id"@);
    assert(uses(t, t.attributes[0].0));
    assert(t.attributes[0].0 == "id"@);
    assert(t.indexes[0].1[0].0 == "type_id"@);
    assert(uses(t, t.attributes[1].0));
    assert(t.attributes[1].0 == "type_id"@);
    assert(t.indexes[1].1[0].0 == "location_id"@);
    assert(uses(t, t.attributes[2].0));
    assert(t.attributes[2].0 == "location_id"@);
    assert(t.indexes[2].1[0].0 == "manufacturer_id"@);
    assert(uses(t, t.attributes[3].0));
    assert(t.attributes[3].0 == "manufacturer_id"@);
    assert(t.indexes[3].1[0].0 == "current_status"@);
    assert(uses(t, t.attributes[4].0));
    assert(t.attributes[4].0 == "current_status"@);
    assert(t.indexes[4].1[0].0 == "maintenance_frequency"@);
    assert(uses(t, t.attributes[5].0));
    assert(t.attributes[5].0 == "maintenance_frequency"@);
    assert(defines(t, t.keys[0].0)) by { assert(t.attributes[0].0 == t.keys[0].0); }
    assert(defines(t, t.indexes[0].1[0].0)) by { assert(t.attributes[1].0 == t.indexes[0].1[0].0); }
    assert(defines(t, t.indexes[1].1[0].0)) by { assert(t.attributes[2].0 == t.indexes[1].1[0].0); }
    assert(defines(t, t.indexes[2].1[0].0)) by { assert(t.attributes[3].0 == t.indexes[2].1[0].0); }
    assert(defines(t, t.indexes[3].1[0].0)) by { assert(t.attributes[4].0 == t.indexes[3].1[0].0); }
    assert(defines(t, t.indexes[4].1[0].0)) by { assert(t.attributes[5].0 == t.indexes[4].1[0].0); }
    assert("id"@.len() != "type_id"@.len());
    assert("id"@.len() != "location_id"@.len());
    assert("id"@.len() != "manufacturer_id"@.len());
    assert("id"@.len() != "current_status"@.len());
    assert("id"@.len() != "maintenance_frequency"@.len());
    assert("type_id"@.len() != "location_id"@.len());
    assert("type_id"@.len() != "manufacturer_id"@.len());
    assert("type_id"@.len() != "current_status"@.len());
    assert("type_id"@.len() != "maintenance_frequency"@.len());
    assert("location_id"@.len() != "manufacturer_id"@.len());
    assert("location_id"@.len() != "current_status"@.len());
    assert("location_id"@.len() != "maintenance_frequency"@.len());
    assert("manufacturer_id"@.len() != "current_status"@.len());
    assert("manufacturer_id"@.len() != "maintenance_frequency"@.len());
    assert("current_status"@.len() != "maintenance_frequency"@.len());
    assert("TypeIndex"@.len() != "LocationIndex"@.len());
    assert("TypeIndex"@.len() != "ManufacturerIndex"@.len());
    assert("TypeIndex"@.len() != "StatusIndex"@.len());
    assert("TypeIndex"@.len() != "MaintenanceFrequencyIndex"@.len());
    assert("LocationIndex"@.len() != "ManufacturerIndex"@.len());
    assert("LocationIndex"@.len() != "StatusIndex"@.len());
    assert("LocationIndex"@.len() != "MaintenanceFrequencyIndex"@.len());
    assert("ManufacturerIndex"@.len() != "StatusIndex"@.len());
    assert("ManufacturerIndex"@.len() != "MaintenanceFrequencyIndex"@.len());
    assert("StatusIndex"@.len() != "MaintenanceFrequencyIndex"@.len());
}

/// The `AssetTypes` table is well formed.
pub proof fn lemma_asset_types_table_well_formed()
    ensures
        well_formed(spec_asset_types_table()),
{
    let t = spec_asset_types_table();
    assert(t.keys[0].0 == "id"@);
    assert(uses(t, t.attributes[0].0));
    assert(t.attributes[0].0 == "id"@);
    assert(defines(t, t.keys[0].0)) by { assert(t.attributes[0].0 == t.keys[0].0); }
}

/// The `Locations` table is well formed.
pub proof fn lemma_locations_table_well_formed()
    ensures
        well_formed(spec_locations_table()),
{
    let t = spec_locations_table();
    broadcast use vstd::string::group_string_axioms;
    reveal_strlit("id");
    reveal_strlit("location_type_id");
    reveal_strlit("LocationTypeIndex");
    assert(t.keys[0].0 == "id"@);
    assert(uses(t, t.attributes[0].0));
    assert(t.attributes[0].0 == "id"@);
    assert(t.indexes[0].1[0].0 == "location_type_id"@);
    assert(uses(t, t.attributes[1].0));
    assert(t.attributes[1].0 == "location_type_id"@);
    assert(defines(t, t.keys[0].0)) by { assert(t.attributes[0].0 == t.keys[0].0); }
    assert(defines(t, t.indexes[0].1[0].0)) by { assert(t.attributes[1].0 == t.indexes[0].1[0].0); }
    assert("id"@.len() != "location_type_id"@.len());
}

/// The `LocationTypes` table is well formed.
pub proof fn lemma_location_types_table_well_formed()
    ensures
        well_formed(spec_location_types_table()),
{
    let t = spec_location_types_table();
    assert(t.keys[0].0 == "id"@);
    assert(uses(t, t.attributes[0].0));
    assert(t.attributes[0].0 == "id"@);
    assert(defines(t, t.keys[0].0)) by { assert(t.attributes[0].0 == t.keys[0].0); }
}

/// The `Manufacturers` table is well formed.
pub proof fn lemma_manufacturers_table_well_formed()
    ensures
        well_formed(spec_manufacturers_table()),
{
    let t = spec_manufacturers_table();
    assert(t.keys[0].0 == "id"@);
    assert(uses(t, t.attributes[0].0));
    assert(t.attributes[0].0 == "id"@);
    assert(defines(t, t.keys[0].0)) by { assert(t.attributes[0].0 == t.keys[0].0); }
}

/// The `MaintenanceSchedules` table is well formed.
pub proof fn lemma_maintenance_schedules_table_well_formed()
    ensures
        well_formed(spec_maintenance_schedules_table()),
{
    let t = spec_maintenance_schedules_table();
    broadcast use vstd::string::group_string_axioms;
    reveal_strlit("id");
    reveal_strlit("asset_id");
    reveal_strlit("next_due_date");
    reveal_strlit("AssetIndex");
    reveal_strlit("DueDateIndex");
    assert(t.keys[0].0 == "id"@);
    assert(uses(t, t.attributes[0].0));
    assert(t.attributes[0].0 == "id"@);
    assert(t.indexes[0].1[0].0 == "asset_id"@);
    assert(uses(t, t.attributes[1].0));
    assert(t.attributes[1].0 == "asset_id"@);
    assert(t.indexes[1].1[0].0 == "next_due_date"@);
    assert(uses(t, t.attributes[2].0));
    assert(t.attributes[2].0 == "next_due_date"@);
    assert(defines(t, t.keys[0].0)) by { assert(t.attributes[0].0 == t.keys[0].0); }
    assert(defines(t, t.indexes[0].1[0].0)) by { assert(t.attributes[1].0 == t.indexes[0].1[0].0); }
    assert(defines(t, t.indexes[1].1[0].0)) by { assert(t.attributes[2].0 == t.indexes[1].1[0].0); }
    assert("id"@.len() != "asset_id"@.len());
    assert("id"@.len() != "next_due_date"@.len());
    assert("asset_id"@.len() != "next_due_date"@.len());
    assert("AssetIndex"@.len() != "DueDateIndex"@.len());
}

/// The `WorkOrders` table is well formed.
pub proof fn lemma_work_orders_table_well_formed()
    ensures
        well_formed(spec_work_orders_table()),
{
    let t = spec_work_orders_table();
    broadcast use vstd::string::group_string_axioms;
    reveal_strlit("id");
    reveal_strlit("asset_id");
    reveal_strlit("assigned_to");
    reveal_strlit("status");
    reveal_strlit("priority");
    reveal_strlit("AssetIndex");
    reveal_strlit("AssignedToIndex");
    reveal_strlit("StatusIndex");
    reveal_strlit("PriorityIndex");
    assert(t.keys[0].0 == "id"@);
    assert(uses(t, t.attributes[0].0));
    assert(t.attributes[0].0 == "id"@);
    assert(t.indexes[0].1[0].0 == "asset_id"@);
    assert(uses(t, t.attributes[1].0));
    assert(t.attributes[1].0 == "asset_id"@);
    assert(t.indexes[1].1[0].0 == "assigned_to"@);
    assert(uses(t, t.attributes[2].0));
    assert(t.attributes[2].0 == "assigned_to"@);
    assert(t.indexes[2].1[0].0 == "status"@);
    assert(uses(t, t.attributes[3].0));
    assert(t.attributes[3].0 == "status"@);
    assert(t.indexes[3].1[0].0 == "priority"@);
    assert(uses(t, t.attributes[4].0));
    assert(t.attributes[4].0 == "priority"@);
    assert(defines(t, t.keys[0].0)) by { assert(t.attributes[0].0 == t.keys[0].0); }
    assert(defines(t, t.indexes[0].1[0].0)) by { assert(t.attributes[1].0 == t.indexes[0].1[0].0); }
    assert(defines(t, t.indexes[1].1[0].0)) by { assert(t.attributes[2].0 == t.indexes[1].1[0].0); }
    assert(defines(t, t.indexes[2].1[0].0)) by { assert(t.attributes[3].0 == t.indexes[2].1[0].0); }
    assert(defines(t, t.indexes[3].1[0].0)) by { assert(t.attributes[4].0 == t.indexes[3].1[0].0); }
    assert("id"@.len() != "asset_id"@.len());
    assert("id"@.len() != "assigned_to"@.len());
    assert("id"@.len() != "status"@.len());
    assert("id"@.len() != "priority"@.len());
    assert("asset_id"@.len() != "assigned_to"@.len());
    assert("asset_id"@.len() != "status"@.len());
    assert("asset_id"@[0] != "priority"@[0]);
    assert("assigned_to"@.len() != "status"@.len());
    assert("assigned_to"@.len() != "priority"@.len());
    assert("status"@.len() != "priority"@.len());
    assert("AssetIndex"@.len() != "AssignedToIndex"@.len());
    assert("AssetIndex"@.len() != "StatusIndex"@.len());
    assert("AssetIndex"@.len() != "PriorityIndex"@.len());
    assert("AssignedToIndex"@.len() != "StatusIndex"@.len());
    assert("AssignedToIndex"@.len() != "PriorityIndex"@.len());
    assert("StatusIndex"@.len() != "PriorityIndex"@.len());
}

/// The `MaintenanceRequests` table is well formed.
pub proof fn lemma_maintenance_requests_table_well_formed()
    ensures
        well_formed(spec_maintenance_requests_table()),
{
    let t = spec_maintenance_requests_table();
    broadcast use vstd::string::group_string_axioms;
    reveal_strlit("id");
    reveal_strlit("submitted_by");
    reveal_strlit("status");
    reveal_strlit("severity");
    reveal_strlit("created_at");
    reveal_strlit("SubmittedByIndex");
    reveal_strlit("StatusIndex");
    reveal_strlit("SeverityIndex");
    reveal_strlit("CreatedAtIndex");
    assert(t.keys[0].0 == "id"@);
    assert(uses(t, t.attributes[0].0));
    assert(t.attributes[0].0 == "id"@);
    assert(t.indexes[0].1[0].0 == "submitted_by"@);
    assert(uses(t, t.attributes[1].0));
    assert(t.attributes[1].0 == "submitted_by"@);
    assert(t.indexes[1].1[0].0 == "status"@);
    assert(uses(t, t.attributes[2].0));
    assert(t.attributes[2].0 == "status"@);
    assert(t.indexes[2].1[0].0 == "severity"@);
    assert(uses(t, t.attributes[3].0));
    assert(t.attributes[3].0 == "severity"@);
    assert(t.indexes[3].1[0].0 == "created_at"@);
    assert(uses(t, t.attributes[4].0));
    assert(t.attributes[4].0 == "created_at"@);
    assert(defines(t, t.keys[0].0)) by { assert(t.attributes[0].0 == t.keys[0].0); }
    assert(defines(t, t.indexes[0].1[0].0)) by { assert(t.attributes[1].0 == t.indexes[0].1[0].0); }
    assert(defines(t, t.indexes[1].1[0].0)) by { assert(t.attributes[2].0 == t.indexes[1].1[0].0); }
    assert(defines(t, t.indexes[2].1[0].0)) by { assert(t.attributes[3].0 == t.indexes[2].1[0].0); }
    assert(defines(t, t.indexes[3].1[0].0)) by { assert(t.attributes[4].0 == t.indexes[3].1[0].0); }
    assert("id"@.len() != "submitted_by"@.len());
    assert("id"@.len() != "status"@.len());
    assert("id"@.len() != "severity"@.len());
    assert("id"@.len() != "created_at"@.len());
    assert("submitted_by"@.len() != "status"@.len());
    assert("submitted_by"@.len() != "severity"@.len());
    assert("submitted_by"@.len() != "created_at"@.len());
    assert("status"@.len() != "severity"@.len());
    assert("status"@.len() != "created_at"@.len());
    assert("severity"@.len() != "created_at"@.len());
    assert("SubmittedByIndex"@.len() != "StatusIndex"@.len());
    assert("SubmittedByIndex"@.len() != "SeverityIndex"@.len());
    assert("SubmittedByIndex"@.len() != "CreatedAtIndex"@.len());
    assert("StatusIndex"@.len() != "SeverityIndex"@.len());
    assert("StatusIndex"@.len() != "CreatedAtIndex"@.len());
    assert("SeverityIndex"@.len() != "CreatedAtIndex"@.len());
}

/// The `Notifications` table is well formed.
pub proof fn lemma_notifications_table_well_formed()
    ensures
        well_formed(spec_notifications_table()),
{
    let t = spec_notifications_table();
    broadcast use vstd::string::group_string_axioms;
    reveal_strlit("id");
    reveal_strlit("user_id");
    reveal_strlit("notification_type");
    reveal_strlit("status");
    reveal_strlit("priority");
    reveal_strlit("UserIndex");
    reveal_strlit("TypeIndex");
    reveal_strlit("StatusIndex");
    reveal_strlit("PriorityIndex");
    assert(t.keys[0].0 == "id"@);
    assert(uses(t, t.attributes[0].0));
    assert(t.attributes[0].0 == "id"@);
    assert(t.indexes[0].1[0].0 == "user_id"@);
    assert(uses(t, t.attributes[1].0));
    assert(t.attributes[1].0 == "user_id"@);
    assert(t.indexes[1].1[0].0 == "notification_type"@);
    assert(uses(t, t.attributes[2].0));
    assert(t.attributes[2].0 == "notification_type"@);
    assert(t.indexes[2].1[0].0 == "status"@);
    assert(uses(t, t.attributes[3].0));
    assert(t.attributes[3].0 == "status"@);
    assert(t.indexes[3].1[0].0 == "priority"@);
    assert(uses(t, t.attributes[4].0));
    assert(t.attributes[4].0 == "priority"@);
    assert(defines(t, t.keys[0].0)) by { assert(t.attributes[0].0 == t.keys[0].0); }
    assert(defines(t, t.indexes[0].1[0].0)) by { assert(t.attributes[1].0 == t.indexes[0].1[0].0); }
    assert(defines(t, t.indexes[1].1[0].0)) by { assert(t.attributes[2].0 == t.indexes[1].1[0].0); }
    assert(defines(t, t.indexes[2].1[0].0)) by { assert(t.attributes[3].0 == t.indexes[2].1[0].0); }
    assert(defines(t, t.indexes[3].1[0].0)) by { assert(t.attributes[4].0 == t.indexes[3].1[0].0); }
    assert("id"@.len() != "user_id"@.len());
    assert("id"@.len() != "notification_type"@.len());
    assert("id"@.len() != "status"@.len());
    assert("id"@.len() != "priority"@.len());
    assert("user_id"@.len() != "notification_type"@.len());
    assert("user_id"@.len() != "status"@.len());
    assert("user_id"@.len() != "priority"@.len());
    assert("notification_type"@.len() != "status"@.len());
    assert("notification_type"@.len() != "priority"@.len());
    assert("status"@.len() != "priority"@.len());
    assert("UserIndex"@[0] != "TypeIndex"@[0]);
    assert("UserIndex"@.len() != "StatusIndex"@.len());
    assert("UserIndex"@.len() != "PriorityIndex"@.len());
    assert("TypeIndex"@.len() != "StatusIndex"@.len());
    assert("TypeIndex"@.len() != "PriorityIndex"@.len());
    assert("StatusIndex"@.len() != "PriorityIndex"@.len());
}

/// The `NotificationTemplates` table is well formed.
pub proof fn lemma_notification_templates_table_well_formed()
    ensures
        well_formed(spec_notification_templates_table()),
{
    let t = spec_notification_templates_table();
    broadcast use vstd::string::group_string_axioms;
    reveal_strlit("id");
    reveal_strlit("template_type");
    reveal_strlit("TypeIndex");
    assert(t.keys[0].0 == "id"@);
    assert(uses(t, t.attributes[0].0));
    assert(t.attributes[0].0 == "id"@);
    assert(t.indexes[0].1[0].0 == "template_type"@);
    assert(uses(t, t.attributes[1].0));
    assert(t.attributes[1].0 == "template_type"@);
    assert(defines(t, t.keys[0].0)) by { assert(t.attributes[0].0 == t.keys[0].0); }
    assert(defines(t, t.indexes[0].1[0].0)) by { assert(t.attributes[1].0 == t.indexes[0].1[0].0); }
    assert("id"@.len() != "template_type"@.len());
}

/// The `NotificationDeliveryLogs` table is well formed.
pub proof fn lemma_notification_delivery_logs_table_well_formed()
    ensures
        well_formed(spec_notification_delivery_logs_table()),
{
    let t = spec_notification_delivery_logs_table();
    broadcast use vstd::string::group_string_axioms;
    reveal_strlit("id");
    reveal_strlit("notification_id");
    reveal_strlit("delivery_status");
    reveal_strlit("delivery_channel");
    reveal_strlit("NotificationIndex");
    reveal_strlit("StatusIndex");
    reveal_strlit("ChannelIndex");
    assert(t.keys[0].0 == "id"@);
    assert(uses(t, t.attributes[0].0));
    assert(t.attributes[0].0 == "id"@);
    assert(t.indexes[0].1[0].0 == "notification_id"@);
    assert(uses(t, t.attributes[1].0));
    assert(t.attributes[1].0 == "notification_id"@);
    assert(t.indexes[1].1[0].0 == "delivery_status"@);
    assert(uses(t, t.attributes[2].0));
    assert(t.attributes[2].0 == "delivery_status"@);
    assert(t.indexes[2].1[0].0 == "delivery_channel"@);
    assert(uses(t, t.attributes[3].0));
    assert(t.attributes[3].0 == "delivery_channel"@);
    assert(defines(t, t.keys[0].0)) by { assert(t.attributes[0].0 == t.keys[0].0); }
    assert(defines(t, t.indexes[0].1[0].0)) by { assert(t.attributes[1].0 == t.indexes[0].1[0].0); }
    assert(defines(t, t.indexes[1].1[0].0)) by { assert(t.attributes[2].0 == t.indexes[1].1[0].0); }
    assert(defines(t, t.indexes[2].1[0].0)) by { assert(t.attributes[3].0 == t.indexes[2].1[0].0); }
    assert("id"@.len() != "notification_id"@.len());
    assert("id"@.len() != "delivery_status"@.len());
    assert("id"@.len() != "delivery_channel"@.len());
    assert("notification_id"@[0] != "delivery_status"@[0]);
    assert("notification_id"@.len() != "delivery_channel"@.len());
    assert("delivery_status"@.len() != "delivery_channel"@.len());
    assert("NotificationIndex"@.len() != "StatusIndex"@.len());
    assert("NotificationIndex"@.len() != "ChannelIndex"@.len());
    assert("StatusIndex"@.len() != "ChannelIndex"@.len());
}

/// The `UserNotificationPreferences` table is well formed.
pub proof fn lemma_user_notification_preferences_table_well_formed()
    ensures
        well_formed(spec_user_notification_preferences_table()),
{
    let t = spec_user_notification_preferences_table();
    broadcast use vstd::string::group_string_axioms;
    reveal_strlit("user_id");
    reveal_strlit("notification_type");
    reveal_strlit("TypeIndex");
    assert(t.keys[0].0 == "user_id"@);
    assert(uses(t, t.attributes[0].0));
    assert(t.attributes[0].0 == "user_id"@);
    assert(t.keys[1].0 == "notification_type"@);
    assert(uses(t, t.attributes[1].0));
    assert(t.attributes[1].0 == "notification_type"@);
    assert(defines(t, t.keys[0].0)) by { assert(t.attributes[0].0 == t.keys[0].0); }
    assert(defines(t, t.keys[1].0)) by { assert(t.attributes[1].0 == t.keys[1].0); }
    assert(defines(t, t.indexes[0].1[0].0)) by { assert(t.attributes[1].0 == t.indexes[0].1[0].0); }
    assert("user_id"@.len() != "notification_type"@.len());
}

/// The `Roles` table is well formed.
pub proof fn lemma_roles_table_well_formed()
    ensures
        well_formed(spec_roles_table()),
{
    let t = spec_roles_table();
    broadcast use vstd::string::group_string_axioms;
    reveal_strlit("id");
    reveal_strlit("role_type");
    reveal_strlit("status");
    reveal_strlit("TypeIndex");
    reveal_strlit("StatusIndex");
    assert(t.keys[0].0 == "id"@);
    assert(uses(t, t.attributes[0].0));
    assert(t.attributes[0].0 == "id"@);
    assert(t.indexes[0].1[0].0 == "role_type"@);
    assert(uses(t, t.attributes[1].0));
    assert(t.attributes[1].0 == "role_type"@);
    assert(t.indexes[1].1[0].0 == "status"@);
    assert(uses(t, t.attributes[2].0));
    assert(t.attributes[2].0 == "status"@);
    assert(defines(t, t.keys[0].0)) by { assert(t.attributes[0].0 == t.keys[0].0); }
    assert(defines(t, t.indexes[0].1[0].0)) by { assert(t.attributes[1].0 == t.indexes[0].1[0].0); }
    assert(defines(t, t.indexes[1].1[0].0)) by { assert(t.attributes[2].0 == t.indexes[1].1[0].0); }
    assert("id"@.len() != "role_type"@.len());
    assert("id"@.len() != "status"@.len());
    assert("role_type"@.len() != "status"@.len());
    assert("TypeIndex"@.len() != "StatusIndex"@.len());
}

/// The `UserRoles` table is well formed.
pub proof fn lemma_user_roles_table_well_formed()
    ensures
        well_formed(spec_user_roles_table()),
{
    let t = spec_user_roles_table();
    broadcast use vstd::string::group_string_axioms;
    reveal_strlit("id");
    reveal_strlit("user_id");
    reveal_strlit("role_id");
    reveal_strlit("status");
    reveal_strlit("UserIndex");
    reveal_strlit("RoleIndex");
    reveal_strlit("StatusIndex");
    assert(t.keys[0].0 == "id"@);
    assert(uses(t, t.attributes[0].0));
    assert(t.attributes[0].0 == "id"@);
    assert(t.indexes[0].1[0].0 == "user_id"@);
    assert(uses(t, t.attributes[1].0));
    assert(t.attributes[1].0 == "user_id"@);
    assert(t.indexes[1].1[0].0 == "role_id"@);
    assert(uses(t, t.attributes[2].0));
    assert(t.attributes[2].0 == "role_id"@);
    assert(t.indexes[2].1[0].0 == "status"@);
    assert(uses(t, t.attributes[3].0));
    assert(t.attributes[3].0 == "status"@);
    assert(defines(t, t.keys[0].0)) by { assert(t.attributes[0].0 == t.keys[0].0); }
    assert(defines(t, t.indexes[0].1[0].0)) by { assert(t.attributes[1].0 == t.indexes[0].1[0].0); }
    assert(defines(t, t.indexes[1].1[0].0)) by { assert(t.attributes[2].0 == t.indexes[1].1[0].0); }
    assert(defines(t, t.indexes[2].1[0].0)) by { assert(t.attributes[3].0 == t.indexes[2].1[0].0); }
    assert("id"@.len() != "user_id"@.len());
    assert("id"@.len() != "role_id"@.len());
    assert("id"@.len() != "status"@.len());
    assert("user_id"@[0] != "role_id"@[0]);
    assert("user_id"@.len() != "status"@.len());
    assert("role_id"@.len() != "status"@.len());
    assert("UserIndex"@[0] != "RoleIndex"@[0]);
    assert("UserIndex"@.len() != "StatusIndex"@.len());
    assert("RoleIndex"@.len() != "StatusIndex"@.len());
}

/// The `Permissions` table is well formed.
pub proof fn lemma_permissions_table_well_formed()
    ensures
        well_formed(spec_permissions_table()),
{
    let t = spec_permissions_table();
    broadcast use vstd::string::group_string_axioms;
    reveal_strlit("id");
    reveal_strlit("resource_type");
    reveal_strlit("permission_type");
    reveal_strlit("ResourceTypeIndex");
    reveal_strlit("PermissionTypeIndex");
    assert(t.keys[0].0 == "id"@);
    assert(uses(t, t.attributes[0].0));
    assert(t.attributes[0].0 == "id"@);
    assert(t.indexes[0].1[0].0 == "resource_type"@);
    assert(uses(t, t.attributes[1].0));
    assert(t.attributes[1].0 == "resource_type"@);
    assert(t.indexes[1].1[0].0 == "permission_type"@);
    assert(uses(t, t.attributes[2].0));
    assert(t.attributes[2].0 == "permission_type"@);
    assert(defines(t, t.keys[0].0)) by { assert(t.attributes[0].0 == t.keys[0].0); }
    assert(defines(t, t.indexes[0].1[0].0)) by { assert(t.attributes[1].0 == t.indexes[0].1[0].0); }
    assert(defines(t, t.indexes[1].1[0].0)) by { assert(t.attributes[2].0 == t.indexes[1].1[0].0); }
    assert("id"@.len() != "resource_type"@.len());
    assert("id"@.len() != "permission_type"@.len());
    assert("resource_type"@.len() != "permission_type"@.len());
    assert("ResourceTypeIndex"@.len() != "PermissionTypeIndex"@.len());
}

/// The `PermissionLogs` table is well formed.
pub proof fn lemma_permission_logs_table_well_formed()
    ensures
        well_formed(spec_permission_logs_table()),
{
    let t = spec_permission_logs_table();
    broadcast use vstd::string::group_string_axioms;
    reveal_strlit("id");
    reveal_strlit("user_id");
    reveal_strlit("action_type");
    reveal_strlit("resource_id");
    reveal_strlit("UserIndex");
    reveal_strlit("ActionTypeIndex");
    reveal_strlit("ResourceIndex");
    assert(t.keys[0].0 == "id"@);
    assert(uses(t, t.attributes[0].0));
    assert(t.attributes[0].0 == "id"@);
    assert(t.indexes[0].1[0].0 == "user_id"@);
    assert(uses(t, t.attributes[1].0));
    assert(t.attributes[1].0 == "user_id"@);
    assert(t.indexes[1].1[0].0 == "action_type"@);
    assert(uses(t, t.attributes[2].0));
    assert(t.attributes[2].0 == "action_type"@);
    assert(t.indexes[2].1[0].0 == "resource_id"@);
    assert(uses(t, t.attributes[3].0));
    assert(t.attributes[3].0 == "resource_id"@);
    assert(defines(t, t.keys[0].0)) by { assert(t.attributes[0].0 == t.keys[0].0); }
    assert(defines(t, t.indexes[0].1[0].0)) by { assert(t.attributes[1].0 == t.indexes[0].1[0].0); }
    assert(defines(t, t.indexes[1].1[0].0)) by { assert(t.attributes[2].0 == t.indexes[1].1[0].0); }
    assert(defines(t, t.indexes[2].1[0].0)) by { assert(t.attributes[3].0 == t.indexes[2].1[0].0); }
    assert("id"@.len() != "user_id"@.len());
    assert("id"@.len() != "action_type"@.len());
    assert("id"@.len() != "resource_id"@.len());
    assert("user_id"@.len() != "action_type"@.len());
    assert("user_id"@.len() != "resource_id"@.len());
    assert("action_type"@[0] != "resource_id"@[0]);
    assert("UserIndex"@.len() != "ActionTypeIndex"@.len());
    assert("UserIndex"@.len() != "ResourceIndex"@.len());
    assert("ActionTypeIndex"@.len() != "ResourceIndex"@.len());
}

/// The `RoleHierarchy` table is well formed.
pub proof fn lemma_role_hierarchy_table_well_formed()
    ensures
        well_formed(spec_role_hierarchy_table()),
{
    let t = spec_role_hierarchy_table();
    broadcast use vstd::string::group_string_axioms;
    reveal_strlit("parent_role_id");
    reveal_strlit("child_role_id");
    reveal_strlit("ChildRoleIndex");
    assert(t.keys[0].0 == "parent_role_id"@);
    assert(uses(t, t.attributes[0].0));
    assert(t.attributes[0].0 == "parent_role_id"@);
    assert(t.keys[1].0 == "child_role_id"@);
    assert(uses(t, t.attributes[1].0));
    assert(t.attributes[1].0 == "child_role_id"@);
    assert(defines(t, t.keys[0].0)) by { assert(t.attributes[0].0 == t.keys[0].0); }
    assert(defines(t, t.keys[1].0)) by { assert(t.attributes[1].0 == t.keys[1].0); }
    assert(defines(t, t.indexes[0].1[0].0)) by { assert(t.attributes[1].0 == t.indexes[0].1[0].0); }
    assert("parent_role_id"@.len() != "child_role_id"@.len());
}

/// The `TempRoleElevation` table is well formed.
pub proof fn lemma_temp_role_elevation_table_well_formed()
    ensures
        well_formed(spec_temp_role_elevation_table()),
{
    let t = spec_temp_role_elevation_table();
    broadcast use vstd::string::group_string_axioms;
    reveal_strlit("id");
    reveal_strlit("user_id");
    reveal_strlit("target_role_id");
    reveal_strlit("status");
    reveal_strlit("UserIndex");
    reveal_strlit("TargetRoleIndex");
    reveal_strlit("StatusIndex");
    assert(t.keys[0].0 == "id"@);
    assert(uses(t, t.attributes[0].0));
    assert(t.attributes[0].0 == "id"@);
    assert(t.indexes[0].1[0].0 == "user_id"@);
    assert(uses(t, t.attributes[1].0));
    assert(t.attributes[1].0 == "user_id"@);
    assert(t.indexes[1].1[0].0 == "target_role_id"@);
    assert(uses(t, t.attributes[2].0));
    assert(t.attributes[2].0 == "target_role_id"@);
    assert(t.indexes[2].1[0].0 == "status"@);
    assert(uses(t, t.attributes[3].0));
    assert(t.attributes[3].0 == "status"@);
    assert(defines(t, t.keys[0].0)) by { assert(t.attributes[0].0 == t.keys[0].0); }
    assert(defines(t, t.indexes[0].1[0].0)) by { assert(t.attributes[1].0 == t.indexes[0].1[0].0); }
    assert(defines(t, t.indexes[1].1[0].0)) by { assert(t.attributes[2].0 == t.indexes[1].1[0].0); }
    assert(defines(t, t.indexes[2].1[0].0)) by { assert(t.attributes[3].0 == t.indexes[2].1[0].0); }
    assert("id"@.len() != "user_id"@.len());
    assert("id"@.len() != "target_role_id"@.len());
    assert("id"@.len() != "status"@.len());
    assert("user_id"@.len() != "target_role_id"@.len());
    assert("user_id"@.len() != "status"@.len());
    assert("target_role_id"@.len() != "status"@.len());
    assert("UserIndex"@.len() != "TargetRoleIndex"@.len());
    assert("UserIndex"@.len() != "StatusIndex"@.len());
    assert("TargetRoleIndex"@.len() != "StatusIndex"@.len());
}

/// The `Vendors` table is well formed.
pub proof fn lemma_vendors_table_well_formed()
    ensures
        well_formed(spec_vendors_table()),
{
    let t = spec_vendors_table();
    broadcast use vstd::string::group_string_axioms;
    reveal_strlit("id");
    reveal_strlit("category_id");
    reveal_strlit("status");
    reveal_strlit("rating");
    reveal_strlit("CategoryIndex");
    reveal_strlit("StatusIndex");
    reveal_strlit("RatingIndex");
    assert(t.keys[0].0 == "id"@);
    assert(uses(t, t.attributes[0].0));
    assert(t.attributes[0].0 == "id"@);
    assert(t.indexes[0].1[0].0 == "category_id"@);
    assert(uses(t, t.attributes[1].0));
    assert(t.attributes[1].0 == "category_id"@);
    assert(t.indexes[1].1[0].0 == "status"@);
    assert(uses(t, t.attributes[2].0));
    assert(t.attributes[2].0 == "status"@);
    assert(t.indexes[2].1[0].0 == "rating"@);
    assert(uses(t, t.attributes[3].0));
    assert(t.attributes[3].0 == "rating"@);
    assert(defines(t, t.keys[0].0)) by { assert(t.attributes[0].0 == t.keys[0].0); }
    assert(defines(t, t.indexes[0].1[0].0)) by { assert(t.attributes[1].0 == t.indexes[0].1[0].0); }
    assert(defines(t, t.indexes[1].1[0].0)) by { assert(t.attributes[2].0 == t.indexes[1].1[0].0); }
    assert(defines(t, t.indexes[2].1[0].0)) by { assert(t.attributes[3].0 == t.indexes[2].1[0].0); }
    assert("id"@.len() != "category_id"@.len());
    assert("id"@.len() != "status"@.len());
    assert("id"@.len() != "rating"@.len());
    assert("category_id"@.len() != "status"@.len());
    assert("category_id"@.len() != "rating"@.len());
    assert("status"@[0] != "rating"@[0]);
    assert("CategoryIndex"@.len() != "StatusIndex"@.len());
    assert("CategoryIndex"@.len() != "RatingIndex"@.len());
    assert("StatusIndex"@[0] != "RatingIndex"@[0]);
}

/// The `VendorCategories` table is well formed.
pub proof fn lemma_vendor_categories_table_well_formed()
    ensures
        well_formed(spec_vendor_categories_table()),
{
    let t = spec_vendor_categories_table();
    assert(t.keys[0].0 == "id"@);
    assert(uses(t, t.attributes[0].0));
    assert(t.attributes[0].0 == "id"@);
    assert(defines(t, t.keys[0].0)) by { assert(t.attributes[0].0 == t.keys[0].0); }
}

/// The `UserPreferences` table is well formed.
pub proof fn lemma_user_preferences_table_well_formed()
    ensures
        well_formed(spec_user_preferences_table()),
{
    let t = spec_user_preferences_table();
    assert(t.keys[0].0 == "user_id"@);
    assert(uses(t, t.attributes[0].0));
    assert(t.attributes[0].0 == "user_id"@);
    assert(defines(t, t.keys[0].0)) by { assert(t.attributes[0].0 == t.keys[0].0); }
}

/// Whether a value an item holds has the type a table gives its attribute.
pub open spec fn attr_fits(t: AttrType, v: AttrView) -> bool {
    match t {
        AttrType::S => v is S,
        AttrType::N => v is N,
        AttrType::B => false,
    }
}

/// Whether an item holds, under each attribute a table defines, either
/// nothing or a value of the type the table gives it: DynamoDB refuses an
/// item where a key attribute has another type.
pub open spec fn item_fits_table(iv: ItemView, t: TableView) -> bool {
    forall|i: int| 0 <= i < t.attributes.len() ==> match #[trigger] lookup(iv, t.attributes[i].0) {
        Some(v) => attr_fits(t.attributes[i].1, v),
        None => true,
    }
}

/// The text naming an attribute definition whose building failed.
pub fn attribute_context(a: &AttributeSpec) -> (res: String)
    ensures
        res@ == "Failed to build "@ + a.name@ + " attribute definition"@,
{
    let s = join_text("Failed to build ", a.name.as_str());
    join_text(s.as_str(), " attribute definition")
}

/// The text naming a table key whose building failed.
pub fn key_context(k: &KeySpec) -> (res: String)
    ensures
        res@ == "Failed to build "@ + k.name@ + " key schema"@,
{
    let s = join_text("Failed to build ", k.name.as_str());
    join_text(s.as_str(), " key schema")
}

/// The text naming an index key whose building failed, by the index's label.
pub fn index_key_context(i: &IndexSpec) -> (res: String)
    ensures
        res@ == "Failed to build "@ + i.label@ + " GSI PK"@,
{
    let s = join_text("Failed to build ", i.label.as_str());
    join_text(s.as_str(), " GSI PK")
}

/// The text naming an index whose building failed.
pub fn index_context(i: &IndexSpec) -> (res: String)
    ensures
        res@ == "Failed to build "@ + i.name@ + " GSI"@,
{
    let s = join_text("Failed to build ", i.name.as_str());
    join_text(s.as_str(), " GSI")
}

/// Whether a table of this name is to be created: none of the existing tables has its name.
pub fn needs_creation(existing: &Vec<String>, name: &str) -> (res: bool)
    ensures
        res == !strings_view(existing@).contains(name@),
{
    !holds(existing, name)
}

/// The error reported when a table cannot be created.
pub fn creation_failure(table: &str, cause: &str) -> (res: AppError)
    ensures
        res matches AppError::DatabaseError(m) && m@ == "Failed to create "@ + table@ + " table: "@ + str_debug_repr(cause@),
{
    let a = join_text("Failed to create ", table);
    let b = join_text(a.as_str(), " table: ");
    let q = debug_quoted(cause);
    AppError::DatabaseError(join_text(b.as_str(), q.as_str()))
}

/// The error reported when the existing tables cannot be listed.
pub fn listing_failure(cause: &str) -> (res: AppError)
    ensures
        res matches AppError::DatabaseError(m) && m@ == "Failed to retrieve tables list from db client: "@ + str_debug_repr(cause@),
{
    let q = debug_quoted(cause);
    AppError::DatabaseError(join_text("Failed to retrieve tables list from db client: ", q.as_str()))
}

/// The tables that the service needs, in the order they are made sure of.
pub open spec fn spec_all_tables() -> Seq<TableView> {
    seq![spec_assets_table(), spec_asset_types_table(), spec_locations_table(), spec_location_types_table(), spec_manufacturers_table(), spec_maintenance_schedules_table(), spec_work_orders_table(), spec_maintenance_requests_table(), spec_notifications_table(), spec_notification_templates_table(), spec_notification_delivery_logs_table(), spec_user_notification_preferences_table(), spec_roles_table(), spec_user_roles_table(), spec_permissions_table(), spec_permission_logs_table(), spec_role_hierarchy_table(), spec_temp_role_elevation_table(), spec_vendors_table(), spec_vendor_categories_table(), spec_user_preferences_table()]
}

pub fn all_tables() -> (res: Vec<TableSpec>)
    ensures
        res@.map_values(|t: TableSpec| t@) == spec_all_tables(),
{
    let res = vec![assets_table(), asset_types_table(), locations_table(), location_types_table(), manufacturers_table(), maintenance_schedules_table(), work_orders_table(), maintenance_requests_table(), notifications_table(), notification_templates_table(), notification_delivery_logs_table(), user_notification_preferences_table(), roles_table(), user_roles_table(), permissions_table(), permission_logs_table(), role_hierarchy_table(), temp_role_elevation_table(), vendors_table(), vendor_categories_table(), user_preferences_table()];
    assert(res@.map_values(|t: TableSpec| t@) =~= spec_all_tables());
    res
}

/// Every table the service needs is well formed.
pub proof fn lemma_all_tables_well_formed()
    ensures
        forall|i: int| 0 <= i < spec_all_tables().len() ==> well_formed(#[trigger] spec_all_tables()[i]),
{
    lemma_assets_table_well_formed();
    lemma_asset_types_table_well_formed();
    lemma_locations_table_well_formed();
    lemma_location_types_table_well_formed();
    lemma_manufacturers_table_well_formed();
    lemma_maintenance_schedules_table_well_formed();
    lemma_work_orders_table_well_formed();
    lemma_maintenance_requests_table_well_formed();
    lemma_notifications_table_well_formed();
    lemma_notification_templates_table_well_formed();
    lemma_notification_delivery_logs_table_well_formed();
    lemma_user_notification_preferences_table_well_formed();
    lemma_roles_table_well_formed();
    lemma_user_roles_table_well_formed();
    lemma_permissions_table_well_formed();
    lemma_permission_logs_table_well_formed();
    lemma_role_hierarchy_table_well_formed();
    lemma_temp_role_elevation_table_well_formed();
    lemma_vendors_table_well_formed();
    lemma_vendor_categories_table_well_formed();
    lemma_user_preferences_table_well_formed();
    let ts = spec_all_tables();
    assert forall|i: int| 0 <= i < ts.len() implies well_formed(#[trigger] ts[i]) by {
        if i == 0 { assert(ts[0] == spec_assets_table()); }
        if i == 1 { assert(ts[1] == spec_asset_types_table()); }
        if i == 2 { assert(ts[2] == spec_locations_table()); }
        if i == 3 { assert(ts[3] == spec_location_types_table()); }
        if i == 4 { assert(ts[4] == spec_manufacturers_table()); }
        if i == 5 { assert(ts[5] == spec_maintenance_schedules_table()); }
        if i == 6 { assert(ts[6] == spec_work_orders_table()); }
        if i == 7 { assert(ts[7] == spec_maintenance_requests_table()); }
        if i == 8 { assert(ts[8] == spec_notifications_table()); }
        if i == 9 { assert(ts[9] == spec_notification_templates_table()); }
        if i == 10 { assert(ts[10] == spec_notification_delivery_logs_table()); }
        if i == 11 { assert(ts[11] == spec_user_notification_preferences_table()); }
        if i == 12 { assert(ts[12] == spec_roles_table()); }
        if i == 13 { assert(ts[13] == spec_user_roles_table()); }
        if i == 14 { assert(ts[14] == spec_permissions_table()); }
        if i == 15 { assert(ts[15] == spec_permission_logs_table()); }
        if i == 16 { assert(ts[16] == spec_role_hierarchy_table()); }
        if i == 17 { assert(ts[17] == spec_temp_role_elevation_table()); }
        if i == 18 { assert(ts[18] == spec_vendors_table()); }
        if i == 19 { assert(ts[19] == spec_vendor_categories_table()); }
        if i == 20 { assert(ts[20] == spec_user_preferences_table()); }
    }
}

} // verus!
