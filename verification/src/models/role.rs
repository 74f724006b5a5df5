//! Roles: named sets of permissions.
use vstd::prelude::*;

use crate::error::{is_validation_error, AppError};
use crate::fields::{
    bool_or, copy_strings, i32_at, i32_or, opt_view, read_bool_or, read_i32, read_i32_or, read_s,
    read_ss_or_empty, read_timestamp, read_timestamp_or, ss_or_empty, timestamp_at, timestamp_or,
    write_i32, write_timestamp,
};
use crate::item::{push_if, s_at, strings_view, AttrView, Item, ItemView};
use crate::numeric::{lemma_parse_format_i32, spec_format_i32};
use crate::text::{is_blank, is_blank_spec, str_eq};
use crate::time::{chrono_format_datetime, chrono_parse_datetime, now, Timestamp};

use crate::strlist::{add_unique, holds, remove_first, with_added, without_first};

use crate::tables::{attr_fits, item_fits_table, spec_roles_table};

verus! {

/// What kind of role a role is.
#[derive(Clone, Copy, Debug, PartialEq, Eq, Structural, Hash)]
pub enum RoleType {
    System,
    Custom,
    Group,
    Temporary,
}

impl RoleType {
    /// The text that stands for the variant in items and requests.
    pub open spec fn spec_str(self) -> Seq<char> {
        match self {
            RoleType::System => "system"@,
            RoleType::Custom => "custom"@,
            RoleType::Group => "group"@,
            RoleType::Temporary => "temporary"@,
        }
    }

    /// The variant that a text stands for, if any.
    pub open spec fn spec_parse(s: Seq<char>) -> Option<RoleType> {
        if s == "system"@ {
            Some(RoleType::System)
        } else if s == "custom"@ {
            Some(RoleType::Custom)
        } else if s == "group"@ {
            Some(RoleType::Group)
        } else if s == "temporary"@ {
            Some(RoleType::Temporary)
        } else {
            None
        }
    }

    pub fn to_str(&self) -> (res: &'static str)
        ensures
            res@ == self.spec_str(),
    {
        match self {
            RoleType::System => "system",
            RoleType::Custom => "custom",
            RoleType::Group => "group",
            RoleType::Temporary => "temporary",
        }
    }

    pub fn to_string(&self) -> (res: String)
        ensures
            res@ == self.spec_str(),
    {
        self.to_str().to_owned()
    }

    /// Reads a variant from its text; any other text is refused with a `ValidationError`.
    pub fn from_string(s: &str) -> (res: Result<RoleType, AppError>)
        ensures
            match RoleType::spec_parse(s@) {
                Some(v) => res == Ok::<RoleType, AppError>(v),
                None => res matches Err(AppError::ValidationError(m)) && m@ == "Invalid role type"@,
            },
    {
        if str_eq(s, "system") {
            Ok(RoleType::System)
        } else if str_eq(s, "custom") {
            Ok(RoleType::Custom)
        } else if str_eq(s, "group") {
            Ok(RoleType::Group)
        } else if str_eq(s, "temporary") {
            Ok(RoleType::Temporary)
        } else {
            Err(AppError::ValidationError("Invalid role type".to_owned()))
        }
    }

    /// Reading back the text of a variant gives the variant.
    pub proof fn lemma_parse_str(v: RoleType)
        ensures
            RoleType::spec_parse(v.spec_str()) == Some(v),
    {
        broadcast use vstd::string::group_string_axioms;
        reveal_strlit("system");
        reveal_strlit("custom");
        reveal_strlit("group");
        reveal_strlit("temporary");
        assert("system"@.len() == 6);
        assert("custom"@.len() == 6);
        assert("group"@.len() == 5);
        assert("temporary"@.len() == 9);
        assert("system"@[0] != "custom"@[0]);
    }
}


/// A named set of permissions that users can be given.
#[derive(Clone, Debug)]
pub struct Role {
    pub id: String,
    pub name: String,
    pub description: Option<String>,
    pub role_type: RoleType,
    pub is_system_role: bool,
    pub permission_ids: Vec<String>,
    pub parent_role_id: Option<String>,
    pub priority: i32,
    pub active: bool,
    pub expires_at: Option<Timestamp>,
    pub max_users: Option<i32>,
    pub created_by: Option<String>,
    pub created_at: Timestamp,
    pub updated_at: Timestamp,
}

impl Role {
    /// The instants are ones that `chrono` represents.
    pub open spec fn wf(&self) -> bool {
        &&& (self.expires_at matches Some(t) ==> t.valid())
        &&& self.created_at.valid()
        &&& self.updated_at.valid()
    }

    /// Whether an item holds what this entity needs to be read from it.
    pub open spec fn item_readable(iv: ItemView) -> bool {
        &&& s_at(iv, "id"@) is Some
        &&& s_at(iv, "name"@) is Some
        &&& s_at(iv, "role_type"@) matches Some(c) && RoleType::spec_parse(c) is Some
    }

    /// Whether this entity is what is read from an item, where instants that
    /// cannot be read are taken to be `now`.
    pub open spec fn read_from(&self, iv: ItemView, now: Timestamp) -> bool {
        &&& Some(self.id@) == s_at(iv, "id"@)
        &&& Some(self.name@) == s_at(iv, "name"@)
        &&& opt_view(self.description) == s_at(iv, "description"@)
        &&& Some(self.role_type) == RoleType::spec_parse(s_at(iv, "role_type"@)->0)
        &&& self.is_system_role == bool_or(iv, "is_system_role"@, false)
        &&& strings_view(self.permission_ids@) == ss_or_empty(iv, "permission_ids"@)
        &&& opt_view(self.parent_role_id) == s_at(iv, "parent_role_id"@)
        &&& self.priority == i32_or(iv, "priority"@, 0)
        &&& self.active == bool_or(iv, "active"@, true)
        &&& self.expires_at == timestamp_at(iv, "expires_at"@)
        &&& self.max_users == i32_at(iv, "max_users"@)
        &&& opt_view(self.created_by) == s_at(iv, "created_by"@)
        &&& self.created_at == timestamp_or(iv, "created_at"@, now)
        &&& self.updated_at == timestamp_or(iv, "updated_at"@, now)
    }

    /// The item that `to_item` writes.
    pub open spec fn spec_item(&self) -> ItemView {
        let iv = Seq::empty();
        let iv = iv.push(("id"@, AttrView::S(self.id@)));
        let iv = iv.push(("name"@, AttrView::S(self.name@)));
        let iv = push_if(iv, self.description is Some, ("description"@, AttrView::S(self.description->0@)));
        let iv = iv.push(("role_type"@, AttrView::S(self.role_type.spec_str())));
        let iv = iv.push(("is_system_role"@, AttrView::Bool(self.is_system_role)));
        let iv = push_if(iv, self.permission_ids@.len() > 0, ("permission_ids"@, AttrView::Ss(strings_view(self.permission_ids@))));
        let iv = push_if(iv, self.parent_role_id is Some, ("parent_role_id"@, AttrView::S(self.parent_role_id->0@)));
        let iv = iv.push(("priority"@, AttrView::N(spec_format_i32(self.priority))));
        let iv = iv.push(("active"@, AttrView::Bool(self.active)));
        let iv = push_if(iv, self.expires_at is Some, ("expires_at"@, AttrView::S(chrono_format_datetime(self.expires_at->0))));
        let iv = push_if(iv, self.max_users is Some, ("max_users"@, AttrView::N(spec_format_i32(self.max_users->0))));
        let iv = push_if(iv, self.created_by is Some, ("created_by"@, AttrView::S(self.created_by->0@)));
        let iv = iv.push(("created_at"@, AttrView::S(chrono_format_datetime(self.created_at))));
        let iv = iv.push(("updated_at"@, AttrView::S(chrono_format_datetime(self.updated_at))));
        iv
    }

    /// Whether two entities hold the same values.
    pub open spec fn same_as(&self, other: &Role) -> bool {
        &&& self.id@ == other.id@
        &&& self.name@ == other.name@
        &&& opt_view(self.description) == opt_view(other.description)
        &&& self.role_type == other.role_type
        &&& self.is_system_role == other.is_system_role
        &&& strings_view(self.permission_ids@) == strings_view(other.permission_ids@)
        &&& opt_view(self.parent_role_id) == opt_view(other.parent_role_id)
        &&& self.priority == other.priority
        &&& self.active == other.active
        &&& self.expires_at == other.expires_at
        &&& self.max_users == other.max_users
        &&& opt_view(self.created_by) == opt_view(other.created_by)
        &&& self.created_at == other.created_at
        &&& self.updated_at == other.updated_at
    }

    /// Reads the entity from an item, taking `now` for instants that are missing.
    pub fn from_item_at(item: &Item, now: Timestamp) -> (res: Option<Self>)
        requires
            now.valid(),
        ensures
            res is Some <==> Self::item_readable(item@),
            res matches Some(e) ==> e.read_from(item@, now) && e.wf(),
    {
        let id = read_s(item, "id")?;
        let name = read_s(item, "name")?;
        let description = read_s(item, "description");
        let role_type_text = item.get_s("role_type")?;
        let role_type = RoleType::from_string(role_type_text.as_str()).ok()?;
        let is_system_role = read_bool_or(item, "is_system_role", false);
        let permission_ids = read_ss_or_empty(item, "permission_ids");
        let parent_role_id = read_s(item, "parent_role_id");
        let priority = read_i32_or(item, "priority", 0);
        let active = read_bool_or(item, "active", true);
        let expires_at = read_timestamp(item, "expires_at");
        let max_users = read_i32(item, "max_users");
        let created_by = read_s(item, "created_by");
        let created_at = read_timestamp_or(item, "created_at", now);
        let updated_at = read_timestamp_or(item, "updated_at", now);
        Some(Role {
            id,
            name,
            description,
            role_type,
            is_system_role,
            permission_ids,
            parent_role_id,
            priority,
            active,
            expires_at,
            max_users,
            created_by,
            created_at,
            updated_at,
        })
    }

    /// Reads the entity from an item; instants that are missing are read from the clock.
    pub fn from_item(item: &Item) -> (res: Option<Self>)
        ensures
            res is Some <==> Self::item_readable(item@),
            res matches Some(e) ==> e.wf() && exists|t: Timestamp| t.valid() && e.read_from(item@, t),
    {
        let t = now();
        Self::from_item_at(item, t)
    }

    /// Writes the entity as an item.
    pub fn to_item(&self) -> (res: Item)
        requires
            self.wf(),
        ensures
            res@ == self.spec_item(),
            Self::item_readable(res@),
            forall|b: Role, now: Timestamp| #[trigger] b.read_from(res@, now) ==> b.same_as(self),
    {
        reveal(push_if);
        let mut item = Item::new();
        let ghost mut iv: ItemView = Seq::empty();
        item.insert_s("id", self.id.clone());
        proof { iv = iv.push(("id"@, AttrView::S(self.id@))); }
        assert(item@ == iv);
        item.insert_s("name", self.name.clone());
        proof { iv = iv.push(("name"@, AttrView::S(self.name@))); }
        assert(item@ == iv);
        if let Some(x) = &self.description {
            item.insert_s("description", x.clone());
        }
        proof { iv = push_if(iv, self.description is Some, ("description"@, AttrView::S(self.description->0@))); }
        assert(item@ == iv);
        item.insert_s("role_type", self.role_type.to_string());
        proof { iv = iv.push(("role_type"@, AttrView::S(self.role_type.spec_str()))); }
        assert(item@ == iv);
        item.insert_bool("is_system_role", self.is_system_role);
        proof { iv = iv.push(("is_system_role"@, AttrView::Bool(self.is_system_role))); }
        assert(item@ == iv);
        if self.permission_ids.len() > 0 {
            item.insert_ss("permission_ids", copy_strings(&self.permission_ids));
        }
        proof { iv = push_if(iv, self.permission_ids@.len() > 0, ("permission_ids"@, AttrView::Ss(strings_view(self.permission_ids@)))); }
        assert(item@ == iv);
        if let Some(x) = &self.parent_role_id {
            item.insert_s("parent_role_id", x.clone());
        }
        proof { iv = push_if(iv, self.parent_role_id is Some, ("parent_role_id"@, AttrView::S(self.parent_role_id->0@))); }
        assert(item@ == iv);
        write_i32(&mut item, "priority", self.priority);
        proof { iv = iv.push(("priority"@, AttrView::N(spec_format_i32(self.priority)))); }
        assert(item@ == iv);
        item.insert_bool("active", self.active);
        proof { iv = iv.push(("active"@, AttrView::Bool(self.active))); }
        assert(item@ == iv);
        if let Some(t) = &self.expires_at {
            write_timestamp(&mut item, "expires_at", t);
        }
        proof { iv = push_if(iv, self.expires_at is Some, ("expires_at"@, AttrView::S(chrono_format_datetime(self.expires_at->0)))); }
        assert(item@ == iv);
        if let Some(x) = self.max_users {
            write_i32(&mut item, "max_users", x);
        }
        proof { iv = push_if(iv, self.max_users is Some, ("max_users"@, AttrView::N(spec_format_i32(self.max_users->0)))); }
        assert(item@ == iv);
        if let Some(x) = &self.created_by {
            item.insert_s("created_by", x.clone());
        }
        proof { iv = push_if(iv, self.created_by is Some, ("created_by"@, AttrView::S(self.created_by->0@))); }
        assert(item@ == iv);
        write_timestamp(&mut item, "created_at", &self.created_at);
        proof { iv = iv.push(("created_at"@, AttrView::S(chrono_format_datetime(self.created_at)))); }
        assert(item@ == iv);
        write_timestamp(&mut item, "updated_at", &self.updated_at);
        proof { iv = iv.push(("updated_at"@, AttrView::S(chrono_format_datetime(self.updated_at)))); }
        assert(item@ == iv);
        proof {
            Self::lemma_item_roundtrip(self, self, Timestamp { secs: 0, nanos: 0 });
            assert forall|b: Role, now: Timestamp| #[trigger] b.read_from(item@, now) implies b.same_as(self) by {
                Self::lemma_item_roundtrip(self, &b, now);
            }
        }
        item
    }

    /// Every attribute the `Roles` table defines holds, in the item the entity is
    /// written as, nothing or a value of the type the table gives it, so
    /// DynamoDB accepts the item.
    pub proof fn lemma_item_fits_table(a: &Role)
        ensures
            item_fits_table(a.spec_item(), spec_roles_table()),
    {
        broadcast use crate::item::lemma_lookup_push, crate::item::lemma_lookup_push_if;
        lemma_keys_distinct();
        lemma_table_keys_absent();
        let t = spec_roles_table();
        assert forall|i: int| 0 <= i < t.attributes.len() implies match #[trigger] crate::item::lookup(a.spec_item(), t.attributes[i].0) {
            Some(v) => attr_fits(t.attributes[i].1, v),
            None => true,
        } by {
            if i == 0 { assert(t.attributes[0].0 == "id"@); } else if i == 1 { assert(t.attributes[1].0 == "role_type"@); } else if i == 2 { assert(t.attributes[2].0 == "status"@); }
        }
    }

    /// Reading the entity back from the item it is written as gives the same
    /// entity, where `chrono` reads back the text of its instants.
    #[verifier::rlimit(100)]
    pub proof fn lemma_item_roundtrip(a: &Role, b: &Role, now: Timestamp)
        requires
            a.wf(),
            a.expires_at matches Some(t) ==> chrono_parse_datetime(chrono_format_datetime(t)) == Some(t),
            chrono_parse_datetime(chrono_format_datetime(a.created_at)) == Some(a.created_at),
            chrono_parse_datetime(chrono_format_datetime(a.updated_at)) == Some(a.updated_at),
        ensures
            Self::item_readable(a.spec_item()),
            b.read_from(a.spec_item(), now) ==> b.same_as(a),
    {
        broadcast use crate::item::lemma_lookup_push, crate::item::lemma_lookup_push_if;
        lemma_keys_distinct();
        RoleType::lemma_parse_str(a.role_type);
        if a.permission_ids@.len() == 0 { assert(strings_view(a.permission_ids@) =~= Seq::<Seq<char>>::empty()); }
        lemma_parse_format_i32(a.priority);
        if let Some(x) = a.max_users { lemma_parse_format_i32(x); }
    }

    /// Which check, if any, the arguments of `new` fail, in the order they are made.
    pub open spec fn spec_new_error(name: Seq<char>, role_type: Seq<char>, is_system_role: bool) -> Option<Seq<char>> {
        if is_blank_spec(name) {
            Some("Role name cannot be empty"@)
        } else if RoleType::spec_parse(role_type) is None {
            Some("Invalid role type"@)
        } else if is_system_role && RoleType::spec_parse(role_type) != Some(RoleType::System) {
            Some("System roles must have System type"@)
        } else {
            None
        }
    }

    /// Creates a role; a system role must be of the system type.
    pub fn new(
        id: String,
        name: String,
        description: Option<String>,
        role_type: String,
        is_system_role: bool,
        permission_ids: Vec<String>,
        parent_role_id: Option<String>,
        priority: i32,
        active: bool,
        expires_at: Option<Timestamp>,
        max_users: Option<i32>,
        created_by: Option<String>,
    ) -> (res: Result<Self, AppError>)
        ensures
            match Self::spec_new_error(name@, role_type@, is_system_role) {
                Some(m) => is_validation_error(res, m),
                None => res matches Ok(r) && {
                    &&& r.id == id && r.name == name && r.description == description
                    &&& Some(r.role_type) == RoleType::spec_parse(role_type@)
                    &&& r.is_system_role == is_system_role && r.permission_ids == permission_ids
                    &&& r.parent_role_id == parent_role_id && r.priority == priority && r.active == active
                    &&& r.expires_at == expires_at && r.max_users == max_users && r.created_by == created_by
                    &&& r.created_at == r.updated_at && r.created_at.valid()
                },
            },
            res matches Ok(x) ==> !is_blank_spec(x.name@),
            res matches Ok(x) ==> x.is_system_role ==> x.role_type == RoleType::System,
    {
        let now = now();
        if is_blank(name.as_str()) {
            return Err(AppError::ValidationError("Role name cannot be empty".to_owned()));
        }
        let role_type_enum = RoleType::from_string(role_type.as_str())?;
        if is_system_role && role_type_enum != RoleType::System {
            return Err(AppError::ValidationError("System roles must have System type".to_owned()));
        }
        Ok(Role {
            id,
            name,
            description,
            role_type: role_type_enum,
            is_system_role,
            permission_ids,
            parent_role_id,
            priority,
            active,
            expires_at,
            max_users,
            created_by,
            created_at: now,
            updated_at: now,
        })
    }

    /// Whether the role is past its expiry at `now`.
    pub open spec fn spec_expired_at(&self, now: Timestamp) -> bool {
        self.expires_at matches Some(e) && e.precedes(now)
    }

    /// Without an expiry nothing expires; with one, expiry holds exactly at
    /// the instants after it, and once reached it holds from then on.
    pub proof fn lemma_expiry(a: &Role, now: Timestamp, later: Timestamp)
        ensures
            a.expires_at is None ==> !a.spec_expired_at(now),
            a.expires_at matches Some(e) ==> (a.spec_expired_at(now) <==> (e.secs < now.secs || (e.secs == now.secs && e.nanos < now.nanos))),
            a.spec_expired_at(now) && !(later.secs < now.secs || (later.secs == now.secs && later.nanos < now.nanos)) ==> a.spec_expired_at(later),
    {
    }

    pub fn is_expired_at(&self, now: &Timestamp) -> (res: bool)
        ensures
            res == self.spec_expired_at(*now),
            self.expires_at is None ==> !res,
            self.expires_at matches Some(e) ==> (res <==> (e.secs < now.secs || (e.secs == now.secs && e.nanos < now.nanos))),
    {
        match &self.expires_at {
            Some(e) => now.is_after(e),
            None => false,
        }
    }

    /// Whether the role is past its expiry now.
    pub fn is_expired(&self) -> (res: bool)
        ensures
            exists|t: Timestamp| t.valid() && res == self.spec_expired_at(t),
    {
        let t = now();
        self.is_expired_at(&t)
    }

    /// Whether the role can be used at `now`: active and not expired.
    pub fn is_usable_at(&self, now: &Timestamp) -> (res: bool)
        ensures
            res == (self.active && !self.spec_expired_at(*now)),
    {
        self.active && !self.is_expired_at(now)
    }

    /// Whether the role can be used now.
    pub fn is_usable(&self) -> (res: bool)
        ensures
            exists|t: Timestamp| t.valid() && res == (self.active && !self.spec_expired_at(t)),
    {
        let t = now();
        self.is_usable_at(&t)
    }

    /// Adds a permission id unless the list holds it already; the update time moves only when it was added.
    pub fn add_permission(&mut self, permission_id: String)
        ensures
            strings_view(final(self).permission_ids@) == with_added(strings_view(old(self).permission_ids@), permission_id@),
            strings_view(old(self).permission_ids@).contains(permission_id@) ==> *final(self) == *old(self),
            !strings_view(old(self).permission_ids@).contains(permission_id@) ==> *final(self) == (Role {
                permission_ids: final(self).permission_ids,
                updated_at: final(self).updated_at,
                ..*old(self)
            }) && final(self).updated_at.valid(),
    {
        if add_unique(&mut self.permission_ids, permission_id) {
            self.updated_at = now();
        }
    }

    /// Removes the first occurrence of a permission id; the update time moves only when there was one.
    pub fn remove_permission(&mut self, permission_id: &str)
        ensures
            strings_view(final(self).permission_ids@) == without_first(strings_view(old(self).permission_ids@), permission_id@),
            !strings_view(old(self).permission_ids@).contains(permission_id@) ==> *final(self) == *old(self),
            strings_view(old(self).permission_ids@).contains(permission_id@) ==> *final(self) == (Role {
                permission_ids: final(self).permission_ids,
                updated_at: final(self).updated_at,
                ..*old(self)
            }) && final(self).updated_at.valid(),
    {
        if remove_first(&mut self.permission_ids, permission_id) {
            self.updated_at = now();
        }
    }

    /// Whether the list holds a permission id.
    pub fn has_permission(&self, permission_id: &str) -> (res: bool)
        ensures
            res == strings_view(self.permission_ids@).contains(permission_id@),
    {
        holds(&self.permission_ids, permission_id)
    }

}

proof fn lemma_keys_distinct()
    ensures
        "id"@ != "name"@,
        "id"@ != "description"@,
        "id"@ != "role_type"@,
        "id"@ != "is_system_role"@,
        "id"@ != "permission_ids"@,
        "id"@ != "parent_role_id"@,
        "id"@ != "priority"@,
        "id"@ != "active"@,
        "id"@ != "expires_at"@,
        "id"@ != "max_users"@,
        "id"@ != "created_by"@,
        "id"@ != "created_at"@,
        "id"@ != "updated_at"@,
        "name"@ != "description"@,
        "name"@ != "role_type"@,
        "name"@ != "is_system_role"@,
        "name"@ != "permission_ids"@,
        "name"@ != "parent_role_id"@,
        "name"@ != "priority"@,
        "name"@ != "active"@,
        "name"@ != "expires_at"@,
        "name"@ != "max_users"@,
        "name"@ != "created_by"@,
        "name"@ != "created_at"@,
        "name"@ != "updated_at"@,
        "description"@ != "role_type"@,
        "description"@ != "is_system_role"@,
        "description"@ != "permission_ids"@,
        "description"@ != "parent_role_id"@,
        "description"@ != "priority"@,
        "description"@ != "active"@,
        "description"@ != "expires_at"@,
        "description"@ != "max_users"@,
        "description"@ != "created_by"@,
        "description"@ != "created_at"@,
        "description"@ != "updated_at"@,
        "role_type"@ != "is_system_role"@,
        "role_type"@ != "permission_ids"@,
        "role_type"@ != "parent_role_id"@,
        "role_type"@ != "priority"@,
        "role_type"@ != "active"@,
        "role_type"@ != "expires_at"@,
        "role_type"@ != "max_users"@,
        "role_type"@ != "created_by"@,
        "role_type"@ != "created_at"@,
        "role_type"@ != "updated_at"@,
        "is_system_role"@ != "permission_ids"@,
        "is_system_role"@ != "parent_role_id"@,
        "is_system_role"@ != "priority"@,
        "is_system_role"@ != "active"@,
        "is_system_role"@ != "expires_at"@,
        "is_system_role"@ != "max_users"@,
        "is_system_role"@ != "created_by"@,
        "is_system_role"@ != "created_at"@,
        "is_system_role"@ != "updated_at"@,
        "permission_ids"@ != "parent_role_id"@,
        "permission_ids"@ != "priority"@,
        "permission_ids"@ != "active"@,
        "permission_ids"@ != "expires_at"@,
        "permission_ids"@ != "max_users"@,
        "permission_ids"@ != "created_by"@,
        "permission_ids"@ != "created_at"@,
        "permission_ids"@ != "updated_at"@,
        "parent_role_id"@ != "priority"@,
        "parent_role_id"@ != "active"@,
        "parent_role_id"@ != "expires_at"@,
        "parent_role_id"@ != "max_users"@,
        "parent_role_id"@ != "created_by"@,
        "parent_role_id"@ != "created_at"@,
        "parent_role_id"@ != "updated_at"@,
        "priority"@ != "active"@,
        "priority"@ != "expires_at"@,
        "priority"@ != "max_users"@,
        "priority"@ != "created_by"@,
        "priority"@ != "created_at"@,
        "priority"@ != "updated_at"@,
        "active"@ != "expires_at"@,
        "active"@ != "max_users"@,
        "active"@ != "created_by"@,
        "active"@ != "created_at"@,
        "active"@ != "updated_at"@,
        "expires_at"@ != "max_users"@,
        "expires_at"@ != "created_by"@,
        "expires_at"@ != "created_at"@,
        "expires_at"@ != "updated_at"@,
        "max_users"@ != "created_by"@,
        "max_users"@ != "created_at"@,
        "max_users"@ != "updated_at"@,
        "created_by"@ != "created_at"@,
        "created_by"@ != "updated_at"@,
        "created_at"@ != "updated_at"@,
{
    broadcast use vstd::string::group_string_axioms;
    reveal_strlit("id");
    reveal_strlit("name");
    reveal_strlit("description");
    reveal_strlit("role_type");
    reveal_strlit("is_system_role");
    reveal_strlit("permission_ids");
    reveal_strlit("parent_role_id");
    reveal_strlit("priority");
    reveal_strlit("active");
    reveal_strlit("expires_at");
    reveal_strlit("max_users");
    reveal_strlit("created_by");
    reveal_strlit("created_at");
    reveal_strlit("updated_at");
    assert("id"@.len() == 2);
    assert("name"@.len() == 4);
    assert("description"@.len() == 11);
    assert("role_type"@.len() == 9);
    assert("is_system_role"@.len() == 14);
    assert("permission_ids"@.len() == 14);
    assert("parent_role_id"@.len() == 14);
    assert("priority"@.len() == 8);
    assert("active"@.len() == 6);
    assert("expires_at"@.len() == 10);
    assert("max_users"@.len() == 9);
    assert("created_by"@.len() == 10);
    assert("created_at"@.len() == 10);
    assert("updated_at"@.len() == 10);
    assert("role_type"@[0] != "max_users"@[0]);
    assert("is_system_role"@[0] != "permission_ids"@[0]);
    assert("is_system_role"@[0] != "parent_role_id"@[0]);
    assert("permission_ids"@[1] != "parent_role_id"@[1]);
    assert("expires_at"@[0] != "created_by"@[0]);
    assert("expires_at"@[0] != "created_at"@[0]);
    assert("expires_at"@[0] != "updated_at"@[0]);
    assert("created_by"@[8] != "created_at"@[8]);
    assert("created_by"@[0] != "updated_at"@[0]);
    assert("created_at"@[0] != "updated_at"@[0]);
}

proof fn lemma_table_keys_absent()
    ensures
        "status"@ != "active"@,
        "status"@ != "created_at"@,
        "status"@ != "created_by"@,
        "status"@ != "description"@,
        "status"@ != "expires_at"@,
        "status"@ != "id"@,
        "status"@ != "is_system_role"@,
        "status"@ != "max_users"@,
        "status"@ != "name"@,
        "status"@ != "parent_role_id"@,
        "status"@ != "permission_ids"@,
        "status"@ != "priority"@,
        "status"@ != "role_type"@,
        "status"@ != "updated_at"@,
{
    broadcast use vstd::string::group_string_axioms;
    reveal_strlit("status");
    reveal_strlit("active");
    reveal_strlit("created_at");
    reveal_strlit("created_by");
    reveal_strlit("description");
    reveal_strlit("expires_at");
    reveal_strlit("id");
    reveal_strlit("is_system_role");
    reveal_strlit("max_users");
    reveal_strlit("name");
    reveal_strlit("parent_role_id");
    reveal_strlit("permission_ids");
    reveal_strlit("priority");
    reveal_strlit("role_type");
    reveal_strlit("updated_at");
    assert("status"@.len() == 6);
    assert("active"@.len() == 6);
    assert("created_at"@.len() == 10);
    assert("created_by"@.len() == 10);
    assert("description"@.len() == 11);
    assert("expires_at"@.len() == 10);
    assert("id"@.len() == 2);
    assert("is_system_role"@.len() == 14);
    assert("max_users"@.len() == 9);
    assert("name"@.len() == 4);
    assert("parent_role_id"@.len() == 14);
    assert("permission_ids"@.len() == 14);
    assert("priority"@.len() == 8);
    assert("role_type"@.len() == 9);
    assert("updated_at"@.len() == 10);
    assert("status"@[0] != "active"@[0]);
    assert("status"@.len() != "created_at"@.len());
    assert("status"@.len() != "created_by"@.len());
    assert("status"@.len() != "description"@.len());
    assert("status"@.len() != "expires_at"@.len());
    assert("status"@.len() != "id"@.len());
    assert("status"@.len() != "is_system_role"@.len());
    assert("status"@.len() != "max_users"@.len());
    assert("status"@.len() != "name"@.len());
    assert("status"@.len() != "parent_role_id"@.len());
    assert("status"@.len() != "permission_ids"@.len());
    assert("status"@.len() != "priority"@.len());
    assert("status"@.len() != "role_type"@.len());
    assert("status"@.len() != "updated_at"@.len());
}

} // verus!
