//! Links that place roles under other roles.
use vstd::prelude::*;

use crate::error::{is_validation_error, AppError};
use crate::fields::{
    bool_or, copy_strings, i32_or, opt_view, read_bool_or, read_i32_or, read_s, read_ss_or_empty,
    read_timestamp, read_timestamp_or, ss_or_empty, timestamp_at, timestamp_or, write_i32,
    write_timestamp,
};
use crate::item::{push_if, s_at, strings_view, AttrView, Item, ItemView};
use crate::numeric::{lemma_parse_format_i32, spec_format_i32};
use crate::text::{is_blank, is_blank_spec, str_eq};
use crate::time::{chrono_format_datetime, chrono_parse_datetime, now, Timestamp};

use crate::strlist::{add_unique, holds, remove_first, with_added, without_first};

use crate::tables::{attr_fits, item_fits_table, spec_role_hierarchy_table};

verus! {

/// How a child role relates to its parent.
#[derive(Clone, Copy, Debug, PartialEq, Eq, Structural, Hash)]
pub enum HierarchyType {
    Direct,
    Inherited,
    Delegated,
    Conditional,
}

impl HierarchyType {
    /// The text that stands for the variant in items and requests.
    pub open spec fn spec_str(self) -> Seq<char> {
        match self {
            HierarchyType::Direct => "direct"@,
            HierarchyType::Inherited => "inherited"@,
            HierarchyType::Delegated => "delegated"@,
            HierarchyType::Conditional => "conditional"@,
        }
    }

    /// The variant that a text stands for, if any.
    pub open spec fn spec_parse(s: Seq<char>) -> Option<HierarchyType> {
        if s == "direct"@ {
            Some(HierarchyType::Direct)
        } else if s == "inherited"@ {
            Some(HierarchyType::Inherited)
        } else if s == "delegated"@ {
            Some(HierarchyType::Delegated)
        } else if s == "conditional"@ {
            Some(HierarchyType::Conditional)
        } else {
            None
        }
    }

    pub fn to_str(&self) -> (res: &'static str)
        ensures
            res@ == self.spec_str(),
    {
        match self {
            HierarchyType::Direct => "direct",
            HierarchyType::Inherited => "inherited",
            HierarchyType::Delegated => "delegated",
            HierarchyType::Conditional => "conditional",
        }
    }

    pub fn to_string(&self) -> (res: String)
        ensures
            res@ == self.spec_str(),
    {
        self.to_str().to_owned()
    }

    /// Reads a variant from its text; any other text is refused with a `ValidationError`.
    pub fn from_string(s: &str) -> (res: Result<HierarchyType, AppError>)
        ensures
            match HierarchyType::spec_parse(s@) {
                Some(v) => res == Ok::<HierarchyType, AppError>(v),
                None => res matches Err(AppError::ValidationError(m)) && m@ == "Invalid hierarchy type"@,
            },
    {
        if str_eq(s, "direct") {
            Ok(HierarchyType::Direct)
        } else if str_eq(s, "inherited") {
            Ok(HierarchyType::Inherited)
        } else if str_eq(s, "delegated") {
            Ok(HierarchyType::Delegated)
        } else if str_eq(s, "conditional") {
            Ok(HierarchyType::Conditional)
        } else {
            Err(AppError::ValidationError("Invalid hierarchy type".to_owned()))
        }
    }

    /// Reading back the text of a variant gives the variant.
    pub proof fn lemma_parse_str(v: HierarchyType)
        ensures
            HierarchyType::spec_parse(v.spec_str()) == Some(v),
    {
        broadcast use vstd::string::group_string_axioms;
        reveal_strlit("direct");
        reveal_strlit("inherited");
        reveal_strlit("delegated");
        reveal_strlit("conditional");
        assert("direct"@.len() == 6);
        assert("inherited"@.len() == 9);
        assert("delegated"@.len() == 9);
        assert("conditional"@.len() == 11);
        assert("inherited"@[0] != "delegated"@[0]);
    }
}


/// A link that places one role under another.
#[derive(Clone, Debug)]
pub struct RoleHierarchy {
    pub id: String,
    pub parent_role_id: String,
    pub child_role_id: String,
    pub hierarchy_type: HierarchyType,
    pub inherited_permissions: bool,
    pub permission_overrides: Vec<String>,
    pub depth_level: i32,
    pub active: bool,
    pub priority: i32,
    pub conditions: Option<String>,
    pub delegation_expires_at: Option<Timestamp>,
    pub created_by: String,
    pub created_at: Timestamp,
    pub updated_at: Timestamp,
}

impl RoleHierarchy {
    /// The instants are ones that `chrono` represents.
    pub open spec fn wf(&self) -> bool {
        &&& (self.delegation_expires_at matches Some(t) ==> t.valid())
        &&& self.created_at.valid()
        &&& self.updated_at.valid()
    }

    /// Whether an item holds what this entity needs to be read from it.
    pub open spec fn item_readable(iv: ItemView) -> bool {
        &&& s_at(iv, "id"@) is Some
        &&& s_at(iv, "parent_role_id"@) is Some
        &&& s_at(iv, "child_role_id"@) is Some
        &&& s_at(iv, "hierarchy_type"@) matches Some(c) && HierarchyType::spec_parse(c) is Some
        &&& s_at(iv, "created_by"@) is Some
    }

    /// Whether this entity is what is read from an item, where instants that
    /// cannot be read are taken to be `now`.
    pub open spec fn read_from(&self, iv: ItemView, now: Timestamp) -> bool {
        &&& Some(self.id@) == s_at(iv, "id"@)
        &&& Some(self.parent_role_id@) == s_at(iv, "parent_role_id"@)
        &&& Some(self.child_role_id@) == s_at(iv, "child_role_id"@)
        &&& Some(self.hierarchy_type) == HierarchyType::spec_parse(s_at(iv, "hierarchy_type"@)->0)
        &&& self.inherited_permissions == bool_or(iv, "inherited_permissions"@, true)
        &&& strings_view(self.permission_overrides@) == ss_or_empty(iv, "permission_overrides"@)
        &&& self.depth_level == i32_or(iv, "depth_level"@, 0)
        &&& self.active == bool_or(iv, "active"@, true)
        &&& self.priority == i32_or(iv, "priority"@, 0)
        &&& opt_view(self.conditions) == s_at(iv, "conditions"@)
        &&& self.delegation_expires_at == timestamp_at(iv, "delegation_expires_at"@)
        &&& Some(self.created_by@) == s_at(iv, "created_by"@)
        &&& self.created_at == timestamp_or(iv, "created_at"@, now)
        &&& self.updated_at == timestamp_or(iv, "updated_at"@, now)
    }

    /// The item that `to_item` writes.
    pub open spec fn spec_item(&self) -> ItemView {
        let iv = Seq::empty();
        let iv = iv.push(("id"@, AttrView::S(self.id@)));
        let iv = iv.push(("parent_role_id"@, AttrView::S(self.parent_role_id@)));
        let iv = iv.push(("child_role_id"@, AttrView::S(self.child_role_id@)));
        let iv = iv.push(("hierarchy_type"@, AttrView::S(self.hierarchy_type.spec_str())));
        let iv = iv.push(("inherited_permissions"@, AttrView::Bool(self.inherited_permissions)));
        let iv = push_if(iv, self.permission_overrides@.len() > 0, ("permission_overrides"@, AttrView::Ss(strings_view(self.permission_overrides@))));
        let iv = iv.push(("depth_level"@, AttrView::N(spec_format_i32(self.depth_level))));
        let iv = iv.push(("active"@, AttrView::Bool(self.active)));
        let iv = iv.push(("priority"@, AttrView::N(spec_format_i32(self.priority))));
        let iv = push_if(iv, self.conditions is Some, ("conditions"@, AttrView::S(self.conditions->0@)));
        let iv = push_if(iv, self.delegation_expires_at is Some, ("delegation_expires_at"@, AttrView::S(chrono_format_datetime(self.delegation_expires_at->0))));
        let iv = iv.push(("created_by"@, AttrView::S(self.created_by@)));
        let iv = iv.push(("created_at"@, AttrView::S(chrono_format_datetime(self.created_at))));
        let iv = iv.push(("updated_at"@, AttrView::S(chrono_format_datetime(self.updated_at))));
        iv
    }

    /// Whether two entities hold the same values.
    pub open spec fn same_as(&self, other: &RoleHierarchy) -> bool {
        &&& self.id@ == other.id@
        &&& self.parent_role_id@ == other.parent_role_id@
        &&& self.child_role_id@ == other.child_role_id@
        &&& self.hierarchy_type == other.hierarchy_type
        &&& self.inherited_permissions == other.inherited_permissions
        &&& strings_view(self.permission_overrides@) == strings_view(other.permission_overrides@)
        &&& self.depth_level == other.depth_level
        &&& self.active == other.active
        &&& self.priority == other.priority
        &&& opt_view(self.conditions) == opt_view(other.conditions)
        &&& self.delegation_expires_at == other.delegation_expires_at
        &&& self.created_by@ == other.created_by@
        &&& self.created_at == other.created_at
        &&& self.updated_at == other.updated_at
    }

    /// Reads the entity from an item, taking `now` for instants that are missing.
    pub fn from_item_at(item: &Item, now: Timestamp) -> (res: Option<Self>)
        requires
            now.valid(),
        ensures
            res is Some <==> Self::item_readable(item@),
            res matches Some(e) ==> e.read_from(item@, now) && e.wf(),
    {
        let id = read_s(item, "id")?;
        let parent_role_id = read_s(item, "parent_role_id")?;
        let child_role_id = read_s(item, "child_role_id")?;
        let hierarchy_type_text = item.get_s("hierarchy_type")?;
        let hierarchy_type = HierarchyType::from_string(hierarchy_type_text.as_str()).ok()?;
        let inherited_permissions = read_bool_or(item, "inherited_permissions", true);
        let permission_overrides = read_ss_or_empty(item, "permission_overrides");
        let depth_level = read_i32_or(item, "depth_level", 0);
        let active = read_bool_or(item, "active", true);
        let priority = read_i32_or(item, "priority", 0);
        let conditions = read_s(item, "conditions");
        let delegation_expires_at = read_timestamp(item, "delegation_expires_at");
        let created_by = read_s(item, "created_by")?;
        let created_at = read_timestamp_or(item, "created_at", now);
        let updated_at = read_timestamp_or(item, "updated_at", now);
        Some(RoleHierarchy {
            id,
            parent_role_id,
            child_role_id,
            hierarchy_type,
            inherited_permissions,
            permission_overrides,
            depth_level,
            active,
            priority,
            conditions,
            delegation_expires_at,
            created_by,
            created_at,
            updated_at,
        })
    }

    /// Reads the entity from an item; instants that are missing are read from the clock.
    pub fn from_item(item: &Item) -> (res: Option<Self>)
        ensures
            res is Some <==> Self::item_readable(item@),
            res matches Some(e) ==> e.wf() && exists|t: Timestamp| t.valid() && e.read_from(item@, t),
    {
        let t = now();
        Self::from_item_at(item, t)
    }

    /// Writes the entity as an item.
    pub fn to_item(&self) -> (res: Item)
        requires
            self.wf(),
        ensures
            res@ == self.spec_item(),
            Self::item_readable(res@),
            forall|b: RoleHierarchy, now: Timestamp| #[trigger] b.read_from(res@, now) ==> b.same_as(self),
    {
        reveal(push_if);
        let mut item = Item::new();
        let ghost mut iv: ItemView = Seq::empty();
        item.insert_s("id", self.id.clone());
        proof { iv = iv.push(("id"@, AttrView::S(self.id@))); }
        assert(item@ == iv);
        item.insert_s("parent_role_id", self.parent_role_id.clone());
        proof { iv = iv.push(("parent_role_id"@, AttrView::S(self.parent_role_id@))); }
        assert(item@ == iv);
        item.insert_s("child_role_id", self.child_role_id.clone());
        proof { iv = iv.push(("child_role_id"@, AttrView::S(self.child_role_id@))); }
        assert(item@ == iv);
        item.insert_s("hierarchy_type", self.hierarchy_type.to_string());
        proof { iv = iv.push(("hierarchy_type"@, AttrView::S(self.hierarchy_type.spec_str()))); }
        assert(item@ == iv);
        item.insert_bool("inherited_permissions", self.inherited_permissions);
        proof { iv = iv.push(("inherited_permissions"@, AttrView::Bool(self.inherited_permissions))); }
        assert(item@ == iv);
        if self.permission_overrides.len() > 0 {
            item.insert_ss("permission_overrides", copy_strings(&self.permission_overrides));
        }
        proof { iv = push_if(iv, self.permission_overrides@.len() > 0, ("permission_overrides"@, AttrView::Ss(strings_view(self.permission_overrides@)))); }
        assert(item@ == iv);
        write_i32(&mut item, "depth_level", self.depth_level);
        proof { iv = iv.push(("depth_level"@, AttrView::N(spec_format_i32(self.depth_level)))); }
        assert(item@ == iv);
        item.insert_bool("active", self.active);
        proof { iv = iv.push(("active"@, AttrView::Bool(self.active))); }
        assert(item@ == iv);
        write_i32(&mut item, "priority", self.priority);
        proof { iv = iv.push(("priority"@, AttrView::N(spec_format_i32(self.priority)))); }
        assert(item@ == iv);
        if let Some(x) = &self.conditions {
            item.insert_s("conditions", x.clone());
        }
        proof { iv = push_if(iv, self.conditions is Some, ("conditions"@, AttrView::S(self.conditions->0@))); }
        assert(item@ == iv);
        if let Some(t) = &self.delegation_expires_at {
            write_timestamp(&mut item, "delegation_expires_at", t);
        }
        proof { iv = push_if(iv, self.delegation_expires_at is Some, ("delegation_expires_at"@, AttrView::S(chrono_format_datetime(self.delegation_expires_at->0)))); }
        assert(item@ == iv);
        item.insert_s("created_by", self.created_by.clone());
        proof { iv = iv.push(("created_by"@, AttrView::S(self.created_by@))); }
        assert(item@ == iv);
        write_timestamp(&mut item, "created_at", &self.created_at);
        proof { iv = iv.push(("created_at"@, AttrView::S(chrono_format_datetime(self.created_at)))); }
        assert(item@ == iv);
        write_timestamp(&mut item, "updated_at", &self.updated_at);
        proof { iv = iv.push(("updated_at"@, AttrView::S(chrono_format_datetime(self.updated_at)))); }
        assert(item@ == iv);
        proof {
            Self::lemma_item_roundtrip(self, self, Timestamp { secs: 0, nanos: 0 });
            assert forall|b: RoleHierarchy, now: Timestamp| #[trigger] b.read_from(item@, now) implies b.same_as(self) by {
                Self::lemma_item_roundtrip(self, &b, now);
            }
        }
        item
    }

    /// Every attribute the `RoleHierarchy` table defines holds, in the item the entity is
    /// written as, nothing or a value of the type the table gives it, so
    /// DynamoDB accepts the item.
    pub proof fn lemma_item_fits_table(a: &RoleHierarchy)
        ensures
            item_fits_table(a.spec_item(), spec_role_hierarchy_table()),
    {
        broadcast use crate::item::lemma_lookup_push, crate::item::lemma_lookup_push_if;
        lemma_keys_distinct();
        let t = spec_role_hierarchy_table();
        assert forall|i: int| 0 <= i < t.attributes.len() implies match #[trigger] crate::item::lookup(a.spec_item(), t.attributes[i].0) {
            Some(v) => attr_fits(t.attributes[i].1, v),
            None => true,
        } by {
            if i == 0 { assert(t.attributes[0].0 == "parent_role_id"@); } else if i == 1 { assert(t.attributes[1].0 == "child_role_id"@); }
        }
    }

    /// Reading the entity back from the item it is written as gives the same
    /// entity, where `chrono` reads back the text of its instants.
    #[verifier::rlimit(100)]
    pub proof fn lemma_item_roundtrip(a: &RoleHierarchy, b: &RoleHierarchy, now: Timestamp)
        requires
            a.wf(),
            a.delegation_expires_at matches Some(t) ==> chrono_parse_datetime(chrono_format_datetime(t)) == Some(t),
            chrono_parse_datetime(chrono_format_datetime(a.created_at)) == Some(a.created_at),
            chrono_parse_datetime(chrono_format_datetime(a.updated_at)) == Some(a.updated_at),
        ensures
            Self::item_readable(a.spec_item()),
            b.read_from(a.spec_item(), now) ==> b.same_as(a),
    {
        broadcast use crate::item::lemma_lookup_push, crate::item::lemma_lookup_push_if;
        lemma_keys_distinct();
        HierarchyType::lemma_parse_str(a.hierarchy_type);
        if a.permission_overrides@.len() == 0 { assert(strings_view(a.permission_overrides@) =~= Seq::<Seq<char>>::empty()); }
        lemma_parse_format_i32(a.depth_level);
        lemma_parse_format_i32(a.priority);
    }

    /// Which check, if any, the arguments of `new` fail, in the order they are made.
    pub open spec fn spec_new_error(
        parent_role_id: Seq<char>,
        child_role_id: Seq<char>,
        hierarchy_type: Seq<char>,
        created_by: Seq<char>,
    ) -> Option<Seq<char>> {
        if is_blank_spec(parent_role_id) {
            Some("Parent role ID cannot be empty"@)
        } else if is_blank_spec(child_role_id) {
            Some("Child role ID cannot be empty"@)
        } else if parent_role_id == child_role_id {
            Some("Parent and child role cannot be the same"@)
        } else if is_blank_spec(created_by) {
            Some("Created by cannot be empty"@)
        } else if HierarchyType::spec_parse(hierarchy_type) is None {
            Some("Invalid hierarchy type"@)
        } else {
            None
        }
    }

    /// Links a child role under a parent role; a role cannot be its own parent.
    pub fn new(
        id: String,
        parent_role_id: String,
        child_role_id: String,
        hierarchy_type: String,
        inherited_permissions: bool,
        permission_overrides: Vec<String>,
        depth_level: i32,
        active: bool,
        priority: i32,
        conditions: Option<String>,
        delegation_expires_at: Option<Timestamp>,
        created_by: String,
    ) -> (res: Result<Self, AppError>)
        ensures
            match Self::spec_new_error(parent_role_id@, child_role_id@, hierarchy_type@, created_by@) {
                Some(m) => is_validation_error(res, m),
                None => res matches Ok(h) && {
                    &&& h.id == id && h.parent_role_id == parent_role_id && h.child_role_id == child_role_id
                    &&& Some(h.hierarchy_type) == HierarchyType::spec_parse(hierarchy_type@)
                    &&& h.inherited_permissions == inherited_permissions
                    &&& h.permission_overrides == permission_overrides && h.depth_level == depth_level
                    &&& h.active == active && h.priority == priority && h.conditions == conditions
                    &&& h.delegation_expires_at == delegation_expires_at && h.created_by == created_by
                    &&& h.created_at == h.updated_at && h.created_at.valid()
                },
            },
            res matches Ok(x) ==> !is_blank_spec(x.parent_role_id@) && !is_blank_spec(x.child_role_id@) && !is_blank_spec(x.created_by@),
            res matches Ok(x) ==> x.parent_role_id@ != x.child_role_id@,
    {
        let now = now();
        if is_blank(parent_role_id.as_str()) {
            return Err(AppError::ValidationError("Parent role ID cannot be empty".to_owned()));
        }
        if is_blank(child_role_id.as_str()) {
            return Err(AppError::ValidationError("Child role ID cannot be empty".to_owned()));
        }
        if str_eq(parent_role_id.as_str(), child_role_id.as_str()) {
            return Err(AppError::ValidationError("Parent and child role cannot be the same".to_owned()));
        }
        if is_blank(created_by.as_str()) {
            return Err(AppError::ValidationError("Created by cannot be empty".to_owned()));
        }
        let hierarchy_type_enum = HierarchyType::from_string(hierarchy_type.as_str())?;
        Ok(RoleHierarchy {
            id,
            parent_role_id,
            child_role_id,
            hierarchy_type: hierarchy_type_enum,
            inherited_permissions,
            permission_overrides,
            depth_level,
            active,
            priority,
            conditions,
            delegation_expires_at,
            created_by,
            created_at: now,
            updated_at: now,
        })
    }

    /// Whether the delegation is past its expiry at `now`.
    pub open spec fn spec_expired_at(&self, now: Timestamp) -> bool {
        self.delegation_expires_at matches Some(e) && e.precedes(now)
    }

    /// Without an expiry nothing expires; with one, expiry holds exactly at
    /// the instants after it, and once reached it holds from then on.
    pub proof fn lemma_expiry(a: &RoleHierarchy, now: Timestamp, later: Timestamp)
        ensures
            a.delegation_expires_at is None ==> !a.spec_expired_at(now),
            a.delegation_expires_at matches Some(e) ==> (a.spec_expired_at(now) <==> (e.secs < now.secs || (e.secs == now.secs && e.nanos < now.nanos))),
            a.spec_expired_at(now) && !(later.secs < now.secs || (later.secs == now.secs && later.nanos < now.nanos)) ==> a.spec_expired_at(later),
    {
    }

    pub fn is_expired_at(&self, now: &Timestamp) -> (res: bool)
        ensures
            res == self.spec_expired_at(*now),
            self.delegation_expires_at is None ==> !res,
            self.delegation_expires_at matches Some(e) ==> (res <==> (e.secs < now.secs || (e.secs == now.secs && e.nanos < now.nanos))),
    {
        match &self.delegation_expires_at {
            Some(e) => now.is_after(e),
            None => false,
        }
    }

    /// Whether the delegation is past its expiry now.
    pub fn is_expired(&self) -> (res: bool)
        ensures
            exists|t: Timestamp| t.valid() && res == self.spec_expired_at(t),
    {
        let t = now();
        self.is_expired_at(&t)
    }

    /// Whether the link is in force at `now`: active and not expired.
    pub fn is_effective_at(&self, now: &Timestamp) -> (res: bool)
        ensures
            res == (self.active && !self.spec_expired_at(*now)),
    {
        self.active && !self.is_expired_at(now)
    }

    /// Whether the link is in force now.
    pub fn is_effective(&self) -> (res: bool)
        ensures
            exists|t: Timestamp| t.valid() && res == (self.active && !self.spec_expired_at(t)),
    {
        let t = now();
        self.is_effective_at(&t)
    }

    /// Adds a permission override unless the list holds it already; the update time moves only when it was added.
    pub fn add_permission_override(&mut self, permission_id: String)
        ensures
            strings_view(final(self).permission_overrides@) == with_added(strings_view(old(self).permission_overrides@), permission_id@),
            strings_view(old(self).permission_overrides@).contains(permission_id@) ==> *final(self) == *old(self),
            !strings_view(old(self).permission_overrides@).contains(permission_id@) ==> *final(self) == (RoleHierarchy {
                permission_overrides: final(self).permission_overrides,
                updated_at: final(self).updated_at,
                ..*old(self)
            }) && final(self).updated_at.valid(),
    {
        if add_unique(&mut self.permission_overrides, permission_id) {
            self.updated_at = now();
        }
    }

    /// Removes the first occurrence of a permission override; the update time moves only when there was one.
    pub fn remove_permission_override(&mut self, permission_id: &str)
        ensures
            strings_view(final(self).permission_overrides@) == without_first(strings_view(old(self).permission_overrides@), permission_id@),
            !strings_view(old(self).permission_overrides@).contains(permission_id@) ==> *final(self) == *old(self),
            strings_view(old(self).permission_overrides@).contains(permission_id@) ==> *final(self) == (RoleHierarchy {
                permission_overrides: final(self).permission_overrides,
                updated_at: final(self).updated_at,
                ..*old(self)
            }) && final(self).updated_at.valid(),
    {
        if remove_first(&mut self.permission_overrides, permission_id) {
            self.updated_at = now();
        }
    }

    /// Whether the list holds a permission override.
    pub fn has_permission_override(&self, permission_id: &str) -> (res: bool)
        ensures
            res == strings_view(self.permission_overrides@).contains(permission_id@),
    {
        holds(&self.permission_overrides, permission_id)
    }

}

proof fn lemma_keys_distinct()
    ensures
        "id"@ != "parent_role_id"@,
        "id"@ != "child_role_id"@,
        "id"@ != "hierarchy_type"@,
        "id"@ != "inherited_permissions"@,
        "id"@ != "permission_overrides"@,
        "id"@ != "depth_level"@,
        "id"@ != "active"@,
        "id"@ != "priority"@,
        "id"@ != "conditions"@,
        "id"@ != "delegation_expires_at"@,
        "id"@ != "created_by"@,
        "id"@ != "created_at"@,
        "id"@ != "updated_at"@,
        "parent_role_id"@ != "child_role_id"@,
        "parent_role_id"@ != "hierarchy_type"@,
        "parent_role_id"@ != "inherited_permissions"@,
        "parent_role_id"@ != "permission_overrides"@,
        "parent_role_id"@ != "depth_level"@,
        "parent_role_id"@ != "active"@,
        "parent_role_id"@ != "priority"@,
        "parent_role_id"@ != "conditions"@,
        "parent_role_id"@ != "delegation_expires_at"@,
        "parent_role_id"@ != "created_by"@,
        "parent_role_id"@ != "created_at"@,
        "parent_role_id"@ != "updated_at"@,
        "child_role_id"@ != "hierarchy_type"@,
        "child_role_id"@ != "inherited_permissions"@,
        "child_role_id"@ != "permission_overrides"@,
        "child_role_id"@ != "depth_level"@,
        "child_role_id"@ != "active"@,
        "child_role_id"@ != "priority"@,
        "child_role_id"@ != "conditions"@,
        "child_role_id"@ != "delegation_expires_at"@,
        "child_role_id"@ != "created_by"@,
        "child_role_id"@ != "created_at"@,
        "child_role_id"@ != "updated_at"@,
        "hierarchy_type"@ != "inherited_permissions"@,
        "hierarchy_type"@ != "permission_overrides"@,
        "hierarchy_type"@ != "depth_level"@,
        "hierarchy_type"@ != "active"@,
        "hierarchy_type"@ != "priority"@,
        "hierarchy_type"@ != "conditions"@,
        "hierarchy_type"@ != "delegation_expires_at"@,
        "hierarchy_type"@ != "created_by"@,
        "hierarchy_type"@ != "created_at"@,
        "hierarchy_type"@ != "updated_at"@,
        "inherited_permissions"@ != "permission_overrides"@,
        "inherited_permissions"@ != "depth_level"@,
        "inherited_permissions"@ != "active"@,
        "inherited_permissions"@ != "priority"@,
        "inherited_permissions"@ != "conditions"@,
        "inherited_permissions"@ != "delegation_expires_at"@,
        "inherited_permissions"@ != "created_by"@,
        "inherited_permissions"@ != "created_at"@,
        "inherited_permissions"@ != "updated_at"@,
        "permission_overrides"@ != "depth_level"@,
        "permission_overrides"@ != "active"@,
        "permission_overrides"@ != "priority"@,
        "permission_overrides"@ != "conditions"@,
        "permission_overrides"@ != "delegation_expires_at"@,
        "permission_overrides"@ != "created_by"@,
        "permission_overrides"@ != "created_at"@,
        "permission_overrides"@ != "updated_at"@,
        "depth_level"@ != "active"@,
        "depth_level"@ != "priority"@,
        "depth_level"@ != "conditions"@,
        "depth_level"@ != "delegation_expires_at"@,
        "depth_level"@ != "created_by"@,
        "depth_level"@ != "created_at"@,
        "depth_level"@ != "updated_at"@,
        "active"@ != "priority"@,
        "active"@ != "conditions"@,
        "active"@ != "delegation_expires_at"@,
        "active"@ != "created_by"@,
        "active"@ != "created_at"@,
        "active"@ != "updated_at"@,
        "priority"@ != "conditions"@,
        "priority"@ != "delegation_expires_at"@,
        "priority"@ != "created_by"@,
        "priority"@ != "created_at"@,
        "priority"@ != "updated_at"@,
        "conditions"@ != "delegation_expires_at"@,
        "conditions"@ != "created_by"@,
        "conditions"@ != "created_at"@,
        "conditions"@ != "updated_at"@,
        "delegation_expires_at"@ != "created_by"@,
        "delegation_expires_at"@ != "created_at"@,
        "delegation_expires_at"@ != "updated_at"@,
        "created_by"@ != "created_at"@,
        "created_by"@ != "updated_at"@,
        "created_at"@ != "updated_at"@,
{
    broadcast use vstd::string::group_string_axioms;
    reveal_strlit("id");
    reveal_strlit("parent_role_id");
    reveal_strlit("child_role_id");
    reveal_strlit("hierarchy_type");
    reveal_strlit("inherited_permissions");
    reveal_strlit("permission_overrides");
    reveal_strlit("depth_level");
    reveal_strlit("active");
    reveal_strlit("priority");
    reveal_strlit("conditions");
    reveal_strlit("delegation_expires_at");
    reveal_strlit("created_by");
    reveal_strlit("created_at");
    reveal_strlit("updated_at");
    assert("id"@.len() == 2);
    assert("parent_role_id"@.len() == 14);
    assert("child_role_id"@.len() == 13);
    assert("hierarchy_type"@.len() == 14);
    assert("inherited_permissions"@.len() == 21);
    assert("permission_overrides"@.len() == 20);
    assert("depth_level"@.len() == 11);
    assert("active"@.len() == 6);
    assert("priority"@.len() == 8);
    assert("conditions"@.len() == 10);
    assert("delegation_expires_at"@.len() == 21);
    assert("created_by"@.len() == 10);
    assert("created_at"@.len() == 10);
    assert("updated_at"@.len() == 10);
    assert("parent_role_id"@[0] != "hierarchy_type"@[0]);
    assert("inherited_permissions"@[0] != "delegation_expires_at"@[0]);
    assert("conditions"@[1] != "created_by"@[1]);
    assert("conditions"@[1] != "created_at"@[1]);
    assert("conditions"@[0] != "updated_at"@[0]);
    assert("created_by"@[8] != "created_at"@[8]);
    assert("created_by"@[0] != "updated_at"@[0]);
    assert("created_at"@[0] != "updated_at"@[0]);
}

} // verus!
