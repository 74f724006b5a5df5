//! The domain model: one module per entity, with the options it uses.
pub mod asset;
pub mod asset_type;
pub mod location;
pub mod location_type;
pub mod work_order;
pub mod maintenance_request;
pub mod task;
pub mod temp_role_elevation;
pub mod user_role;
pub mod role;
pub mod role_hierarchy;
pub mod permission;
pub mod permission_log;
pub mod notification;
pub mod notification_delivery_log;
pub mod notification_template;
pub mod user_notification_preferences;
pub mod user;
pub mod address;
pub mod manufacturer;
pub mod maintenance_schedule;
pub mod vendor;
pub mod vendor_category;
pub mod user_preferences;
