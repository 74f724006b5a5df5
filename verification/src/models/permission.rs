//! Permissions that roles hold on kinds of resources.
use vstd::prelude::*;

use crate::error::{is_validation_error, AppError};
use crate::fields::{
    bool_or, opt_view, read_bool_or, read_s, read_ss_or_empty, read_timestamp, read_timestamp_or,
    ss_or_empty, timestamp_at, timestamp_or, write_timestamp,
};
use crate::item::{push_if, s_at, strings_view, AttrView, Item, ItemView};

use crate::text::{is_blank, is_blank_spec, str_eq};
use crate::time::{chrono_format_datetime, chrono_parse_datetime, now, Timestamp};

use crate::json::{canonical_json, json_canonical};
use crate::models::permission_log::{PermissionAction, ResourceType};

use crate::tables::{attr_fits, item_fits_table, spec_permissions_table};

verus! {

/// How far a permission reaches.
#[derive(Clone, Copy, Debug, PartialEq, Eq, Structural, Hash)]
pub enum PermissionScope {
    Global,
    Organization,
    Location,
    Asset,
    Own,
}

impl PermissionScope {
    /// The text that stands for the variant in items and requests.
    pub open spec fn spec_str(self) -> Seq<char> {
        match self {
            PermissionScope::Global => "global"@,
            PermissionScope::Organization => "organization"@,
            PermissionScope::Location => "location"@,
            PermissionScope::Asset => "asset"@,
            PermissionScope::Own => "own"@,
        }
    }

    /// The variant that a text stands for, if any.
    pub open spec fn spec_parse(s: Seq<char>) -> Option<PermissionScope> {
        if s == "global"@ {
            Some(PermissionScope::Global)
        } else if s == "organization"@ {
            Some(PermissionScope::Organization)
        } else if s == "location"@ {
            Some(PermissionScope::Location)
        } else if s == "asset"@ {
            Some(PermissionScope::Asset)
        } else if s == "own"@ {
            Some(PermissionScope::Own)
        } else {
            None
        }
    }

    pub fn to_str(&self) -> (res: &'static str)
        ensures
            res@ == self.spec_str(),
    {
        match self {
            PermissionScope::Global => "global",
            PermissionScope::Organization => "organization",
            PermissionScope::Location => "location",
            PermissionScope::Asset => "asset",
            PermissionScope::Own => "own",
        }
    }

    pub fn to_string(&self) -> (res: String)
        ensures
            res@ == self.spec_str(),
    {
        self.to_str().to_owned()
    }

    /// Reads a variant from its text; any other text is refused with a `ValidationError`.
    pub fn from_string(s: &str) -> (res: Result<PermissionScope, AppError>)
        ensures
            match PermissionScope::spec_parse(s@) {
                Some(v) => res == Ok::<PermissionScope, AppError>(v),
                None => res matches Err(AppError::ValidationError(m)) && m@ == "Invalid permission scope"@,
            },
    {
        if str_eq(s, "global") {
            Ok(PermissionScope::Global)
        } else if str_eq(s, "organization") {
            Ok(PermissionScope::Organization)
        } else if str_eq(s, "location") {
            Ok(PermissionScope::Location)
        } else if str_eq(s, "asset") {
            Ok(PermissionScope::Asset)
        } else if str_eq(s, "own") {
            Ok(PermissionScope::Own)
        } else {
            Err(AppError::ValidationError("Invalid permission scope".to_owned()))
        }
    }

    /// Reading back the text of a variant gives the variant.
    pub proof fn lemma_parse_str(v: PermissionScope)
        ensures
            PermissionScope::spec_parse(v.spec_str()) == Some(v),
    {
        broadcast use vstd::string::group_string_axioms;
        reveal_strlit("global");
        reveal_strlit("organization");
        reveal_strlit("location");
        reveal_strlit("asset");
        reveal_strlit("own");
        assert("global"@.len() == 6);
        assert("organization"@.len() == 12);
        assert("location"@.len() == 8);
        assert("asset"@.len() == 5);
        assert("own"@.len() == 3);
    }
}


/// What a role may do with one kind of resource.
#[derive(Clone, Debug)]
pub struct Permission {
    pub id: String,
    pub role_id: String,
    pub resource_type: ResourceType,
    pub actions: Vec<PermissionAction>,
    pub scope: PermissionScope,
    pub conditions: Option<String>,
    pub resource_filters: Option<String>,
    pub active: bool,
    pub expires_at: Option<Timestamp>,
    pub created_by: String,
    pub created_at: Timestamp,
    pub updated_at: Timestamp,
}

impl Permission {
    /// The instants are ones that `chrono` represents.
    pub open spec fn wf(&self) -> bool {
        &&& (self.expires_at matches Some(t) ==> t.valid())
        &&& self.created_at.valid()
        &&& self.updated_at.valid()
    }

    /// Whether an item holds what this entity needs to be read from it.
    pub open spec fn item_readable(iv: ItemView) -> bool {
        &&& s_at(iv, "id"@) is Some
        &&& s_at(iv, "role_id"@) is Some
        &&& s_at(iv, "resource_type"@) matches Some(c) && ResourceType::spec_parse(c) is Some
        &&& s_at(iv, "scope"@) matches Some(c) && PermissionScope::spec_parse(c) is Some
        &&& s_at(iv, "created_by"@) is Some
    }

    /// Whether this entity is what is read from an item, where instants that
    /// cannot be read are taken to be `now`.
    pub open spec fn read_from(&self, iv: ItemView, now: Timestamp) -> bool {
        &&& Some(self.id@) == s_at(iv, "id"@)
        &&& Some(self.role_id@) == s_at(iv, "role_id"@)
        &&& Some(self.resource_type) == ResourceType::spec_parse(s_at(iv, "resource_type"@)->0)
        &&& self.actions@ == PermissionAction::spec_parse_all(ss_or_empty(iv, "actions"@))
        &&& Some(self.scope) == PermissionScope::spec_parse(s_at(iv, "scope"@)->0)
        &&& opt_view(self.conditions) == (match s_at(iv, "conditions"@) { Some(s) => json_canonical(s), None => None })
        &&& opt_view(self.resource_filters) == (match s_at(iv, "resource_filters"@) { Some(s) => json_canonical(s), None => None })
        &&& self.active == bool_or(iv, "active"@, true)
        &&& self.expires_at == timestamp_at(iv, "expires_at"@)
        &&& Some(self.created_by@) == s_at(iv, "created_by"@)
        &&& self.created_at == timestamp_or(iv, "created_at"@, now)
        &&& self.updated_at == timestamp_or(iv, "updated_at"@, now)
    }

    /// The item that `to_item` writes.
    pub open spec fn spec_item(&self) -> ItemView {
        let iv = Seq::empty();
        let iv = iv.push(("id"@, AttrView::S(self.id@)));
        let iv = iv.push(("role_id"@, AttrView::S(self.role_id@)));
        let iv = iv.push(("resource_type"@, AttrView::S(self.resource_type.spec_str())));
        let iv = push_if(iv, self.actions@.len() > 0, ("actions"@, AttrView::Ss(PermissionAction::spec_strs(self.actions@))));
        let iv = iv.push(("scope"@, AttrView::S(self.scope.spec_str())));
        let iv = push_if(iv, self.conditions is Some, ("conditions"@, AttrView::S(self.conditions->0@)));
        let iv = push_if(iv, self.resource_filters is Some, ("resource_filters"@, AttrView::S(self.resource_filters->0@)));
        let iv = iv.push(("active"@, AttrView::Bool(self.active)));
        let iv = push_if(iv, self.expires_at is Some, ("expires_at"@, AttrView::S(chrono_format_datetime(self.expires_at->0))));
        let iv = iv.push(("created_by"@, AttrView::S(self.created_by@)));
        let iv = iv.push(("created_at"@, AttrView::S(chrono_format_datetime(self.created_at))));
        let iv = iv.push(("updated_at"@, AttrView::S(chrono_format_datetime(self.updated_at))));
        iv
    }

    /// Whether two entities hold the same values.
    pub open spec fn same_as(&self, other: &Permission) -> bool {
        &&& self.id@ == other.id@
        &&& self.role_id@ == other.role_id@
        &&& self.resource_type == other.resource_type
        &&& self.actions@ == other.actions@
        &&& self.scope == other.scope
        &&& opt_view(self.conditions) == opt_view(other.conditions)
        &&& opt_view(self.resource_filters) == opt_view(other.resource_filters)
        &&& self.active == other.active
        &&& self.expires_at == other.expires_at
        &&& self.created_by@ == other.created_by@
        &&& self.created_at == other.created_at
        &&& self.updated_at == other.updated_at
    }

    /// Reads the entity from an item, taking `now` for instants that are missing.
    pub fn from_item_at(item: &Item, now: Timestamp) -> (res: Option<Self>)
        requires
            now.valid(),
        ensures
            res is Some <==> Self::item_readable(item@),
            res matches Some(e) ==> e.read_from(item@, now) && e.wf(),
    {
        let id = read_s(item, "id")?;
        let role_id = read_s(item, "role_id")?;
        let resource_type_text = item.get_s("resource_type")?;
        let resource_type = ResourceType::from_string(resource_type_text.as_str()).ok()?;
        let actions_texts = read_ss_or_empty(item, "actions");
        let actions = PermissionAction::parse_all(&actions_texts);
        let scope_text = item.get_s("scope")?;
        let scope = PermissionScope::from_string(scope_text.as_str()).ok()?;
        let conditions = match item.get_s("conditions") {
            Some(t) => canonical_json(t.as_str()),
            None => None,
        };
        let resource_filters = match item.get_s("resource_filters") {
            Some(t) => canonical_json(t.as_str()),
            None => None,
        };
        let active = read_bool_or(item, "active", true);
        let expires_at = read_timestamp(item, "expires_at");
        let created_by = read_s(item, "created_by")?;
        let created_at = read_timestamp_or(item, "created_at", now);
        let updated_at = read_timestamp_or(item, "updated_at", now);
        Some(Permission {
            id,
            role_id,
            resource_type,
            actions,
            scope,
            conditions,
            resource_filters,
            active,
            expires_at,
            created_by,
            created_at,
            updated_at,
        })
    }

    /// Reads the entity from an item; instants that are missing are read from the clock.
    pub fn from_item(item: &Item) -> (res: Option<Self>)
        ensures
            res is Some <==> Self::item_readable(item@),
            res matches Some(e) ==> e.wf() && exists|t: Timestamp| t.valid() && e.read_from(item@, t),
    {
        let t = now();
        Self::from_item_at(item, t)
    }

    /// What reading the entity back from its item needs beyond well-formedness:
    /// each JSON text it holds is already in the form `serde_json` writes, the
    /// form that reading the item gives.
    pub open spec fn readback_conditions(&self) -> bool {
        &&& self.conditions matches Some(j) ==> json_canonical(j@) == Some(j@)
        &&& self.resource_filters matches Some(j) ==> json_canonical(j@) == Some(j@)
    }

    /// Writes the entity as an item.
    pub fn to_item(&self) -> (res: Item)
        requires
            self.wf(),
        ensures
            res@ == self.spec_item(),
            self.readback_conditions() ==> Self::item_readable(res@),
            self.readback_conditions() ==> forall|b: Permission, now: Timestamp| #[trigger] b.read_from(res@, now) ==> b.same_as(self),
    {
        reveal(push_if);
        let mut item = Item::new();
        let ghost mut iv: ItemView = Seq::empty();
        item.insert_s("id", self.id.clone());
        proof { iv = iv.push(("id"@, AttrView::S(self.id@))); }
        assert(item@ == iv);
        item.insert_s("role_id", self.role_id.clone());
        proof { iv = iv.push(("role_id"@, AttrView::S(self.role_id@))); }
        assert(item@ == iv);
        item.insert_s("resource_type", self.resource_type.to_string());
        proof { iv = iv.push(("resource_type"@, AttrView::S(self.resource_type.spec_str()))); }
        assert(item@ == iv);
        if self.actions.len() > 0 {
            item.insert_ss("actions", PermissionAction::to_strings(&self.actions));
        }
        proof { iv = push_if(iv, self.actions@.len() > 0, ("actions"@, AttrView::Ss(PermissionAction::spec_strs(self.actions@)))); }
        assert(item@ == iv);
        item.insert_s("scope", self.scope.to_string());
        proof { iv = iv.push(("scope"@, AttrView::S(self.scope.spec_str()))); }
        assert(item@ == iv);
        if let Some(x) = &self.conditions {
            item.insert_s("conditions", x.clone());
        }
        proof { iv = push_if(iv, self.conditions is Some, ("conditions"@, AttrView::S(self.conditions->0@))); }
        assert(item@ == iv);
        if let Some(x) = &self.resource_filters {
            item.insert_s("resource_filters", x.clone());
        }
        proof { iv = push_if(iv, self.resource_filters is Some, ("resource_filters"@, AttrView::S(self.resource_filters->0@))); }
        assert(item@ == iv);
        item.insert_bool("active", self.active);
        proof { iv = iv.push(("active"@, AttrView::Bool(self.active))); }
        assert(item@ == iv);
        if let Some(t) = &self.expires_at {
            write_timestamp(&mut item, "expires_at", t);
        }
        proof { iv = push_if(iv, self.expires_at is Some, ("expires_at"@, AttrView::S(chrono_format_datetime(self.expires_at->0)))); }
        assert(item@ == iv);
        item.insert_s("created_by", self.created_by.clone());
        proof { iv = iv.push(("created_by"@, AttrView::S(self.created_by@))); }
        assert(item@ == iv);
        write_timestamp(&mut item, "created_at", &self.created_at);
        proof { iv = iv.push(("created_at"@, AttrView::S(chrono_format_datetime(self.created_at)))); }
        assert(item@ == iv);
        write_timestamp(&mut item, "updated_at", &self.updated_at);
        proof { iv = iv.push(("updated_at"@, AttrView::S(chrono_format_datetime(self.updated_at)))); }
        assert(item@ == iv);
        proof {
            if self.readback_conditions() {
                Self::lemma_item_roundtrip(self, self, Timestamp { secs: 0, nanos: 0 });
                assert forall|b: Permission, now: Timestamp| #[trigger] b.read_from(item@, now) implies b.same_as(self) by {
                    Self::lemma_item_roundtrip(self, &b, now);
                }
            }
        }
        item
    }

    /// Every attribute the `Permissions` table defines holds, in the item the entity is
    /// written as, nothing or a value of the type the table gives it, so
    /// DynamoDB accepts the item.
    pub proof fn lemma_item_fits_table(a: &Permission)
        ensures
            item_fits_table(a.spec_item(), spec_permissions_table()),
    {
        broadcast use crate::item::lemma_lookup_push, crate::item::lemma_lookup_push_if;
        lemma_keys_distinct();
        lemma_table_keys_absent();
        let t = spec_permissions_table();
        assert forall|i: int| 0 <= i < t.attributes.len() implies match #[trigger] crate::item::lookup(a.spec_item(), t.attributes[i].0) {
            Some(v) => attr_fits(t.attributes[i].1, v),
            None => true,
        } by {
            if i == 0 { assert(t.attributes[0].0 == "id"@); } else if i == 1 { assert(t.attributes[1].0 == "resource_type"@); } else if i == 2 { assert(t.attributes[2].0 == "permission_type"@); }
        }
    }

    /// Reading the entity back from the item it is written as gives the same
    /// entity, where `chrono` reads back the text of its instants.
    pub proof fn lemma_item_roundtrip(a: &Permission, b: &Permission, now: Timestamp)
        requires
            a.wf(),
            a.conditions matches Some(j) ==> json_canonical(j@) == Some(j@),
            a.resource_filters matches Some(j) ==> json_canonical(j@) == Some(j@),
            a.expires_at matches Some(t) ==> chrono_parse_datetime(chrono_format_datetime(t)) == Some(t),
            chrono_parse_datetime(chrono_format_datetime(a.created_at)) == Some(a.created_at),
            chrono_parse_datetime(chrono_format_datetime(a.updated_at)) == Some(a.updated_at),
        ensures
            Self::item_readable(a.spec_item()),
            b.read_from(a.spec_item(), now) ==> b.same_as(a),
    {
        broadcast use crate::item::lemma_lookup_push, crate::item::lemma_lookup_push_if;
        lemma_keys_distinct();
        ResourceType::lemma_parse_str(a.resource_type);
        PermissionAction::lemma_parse_all_strs(a.actions@);
        if a.actions@.len() == 0 { assert(a.actions@ =~= Seq::<PermissionAction>::empty()); }
        PermissionScope::lemma_parse_str(a.scope);
    }

    /// Which check, if any, the arguments of `new` fail, in the order they are made.
    pub open spec fn spec_new_error(
        role_id: Seq<char>,
        resource_type: Seq<char>,
        actions: Seq<Seq<char>>,
        scope: Seq<char>,
        created_by: Seq<char>,
    ) -> Option<Seq<char>> {
        if is_blank_spec(role_id) {
            Some("Role ID cannot be empty"@)
        } else if is_blank_spec(created_by) {
            Some("Created by cannot be empty"@)
        } else if actions.len() == 0 {
            Some("At least one action is required"@)
        } else if ResourceType::spec_parse(resource_type) is None {
            Some("Invalid resource type"@)
        } else if PermissionScope::spec_parse(scope) is None {
            Some("Invalid permission scope"@)
        } else if !PermissionAction::all_parse(actions) {
            Some("Invalid permission action"@)
        } else {
            None
        }
    }

    /// Grants a role some actions on a kind of resource. The conditions and
    /// filters are JSON texts.
    pub fn new(
        id: String,
        role_id: String,
        resource_type: String,
        actions: Vec<String>,
        scope: String,
        conditions: Option<String>,
        resource_filters: Option<String>,
        active: bool,
        expires_at: Option<Timestamp>,
        created_by: String,
    ) -> (res: Result<Self, AppError>)
        ensures
            match Self::spec_new_error(role_id@, resource_type@, strings_view(actions@), scope@, created_by@) {
                Some(m) => is_validation_error(res, m),
                None => res matches Ok(p) && {
                    &&& p.id == id && p.role_id == role_id
                    &&& Some(p.resource_type) == ResourceType::spec_parse(resource_type@)
                    &&& p.actions@ == PermissionAction::spec_parse_all(strings_view(actions@))
                    &&& Some(p.scope) == PermissionScope::spec_parse(scope@)
                    &&& p.conditions == conditions && p.resource_filters == resource_filters
                    &&& p.active == active && p.expires_at == expires_at && p.created_by == created_by
                    &&& p.created_at == p.updated_at && p.created_at.valid()
                },
            },
            res matches Ok(x) ==> (x.readback_conditions() <==> ((conditions matches Some(j) ==> json_canonical(j@) == Some(j@)) && (resource_filters matches Some(j) ==> json_canonical(j@) == Some(j@)))),
            res matches Ok(x) ==> !is_blank_spec(x.role_id@) && !is_blank_spec(x.created_by@),
            res matches Ok(x) ==> x.actions@.len() > 0,
    {
        let now = now();
        if is_blank(role_id.as_str()) {
            return Err(AppError::ValidationError("Role ID cannot be empty".to_owned()));
        }
        if is_blank(created_by.as_str()) {
            return Err(AppError::ValidationError("Created by cannot be empty".to_owned()));
        }
        if actions.len() == 0 {
            return Err(AppError::ValidationError("At least one action is required".to_owned()));
        }
        let resource_type_enum = ResourceType::from_string(resource_type.as_str())?;
        let scope_enum = PermissionScope::from_string(scope.as_str())?;
        let action_enums = PermissionAction::from_strings(&actions)?;
        Ok(Permission {
            id,
            role_id,
            resource_type: resource_type_enum,
            actions: action_enums,
            scope: scope_enum,
            conditions,
            resource_filters,
            active,
            expires_at,
            created_by,
            created_at: now,
            updated_at: now,
        })
    }

    /// Whether the permission is past its expiry at `now`.
    pub open spec fn spec_expired_at(&self, now: Timestamp) -> bool {
        self.expires_at matches Some(e) && e.precedes(now)
    }

    pub fn is_expired_at(&self, now: &Timestamp) -> (res: bool)
        ensures
            res == self.spec_expired_at(*now),
            self.expires_at is None ==> !res,
            self.expires_at matches Some(e) ==> (res <==> e.secs < now.secs || (e.secs == now.secs && e.nanos < now.nanos)),
    {
        match &self.expires_at {
            Some(e) => now.is_after(e),
            None => false,
        }
    }

    /// Whether the permission is past its expiry now.
    pub fn is_expired(&self) -> (res: bool)
        ensures
            exists|t: Timestamp| t.valid() && res == self.spec_expired_at(t),
    {
        let t = now();
        self.is_expired_at(&t)
    }

    /// Whether the permission lists the action.
    pub fn lists_action(&self, action: &PermissionAction) -> (res: bool)
        ensures
            res == self.actions@.contains(*action),
    {
        let mut i: usize = 0;
        while i < self.actions.len()
            invariant
                i <= self.actions.len(),
                forall|j: int| 0 <= j < i ==> self.actions@[j] != *action,
            decreases self.actions.len() - i,
        {
            if self.actions[i] == *action {
                assert(self.actions@[i as int] == *action);
                return true;
            }
            i = i + 1;
        }
        false
    }

    /// Whether the permission allows the action at `now`: active, listing the action, not expired.
    pub open spec fn spec_allows_action_at(&self, action: PermissionAction, now: Timestamp) -> bool {
        self.active && self.actions@.contains(action) && !self.spec_expired_at(now)
    }

    pub fn allows_action_at(&self, action: &PermissionAction, now: &Timestamp) -> (res: bool)
        ensures
            res == self.spec_allows_action_at(*action, *now),
            !self.active ==> !res,
            res ==> self.actions@.contains(*action),
            res ==> (self.expires_at matches Some(e) ==> !(e.secs < now.secs || (e.secs == now.secs && e.nanos < now.nanos))),
            self.active && self.actions@.contains(*action) && self.expires_at is None ==> res,
    {
        self.active && self.lists_action(action) && !self.is_expired_at(now)
    }

    /// An inactive permission allows no action at any instant.
    pub proof fn lemma_inactive_allows_nothing(p: &Permission, action: PermissionAction, now: Timestamp)
        requires
            !p.active,
        ensures
            !p.spec_allows_action_at(action, now),
    {
    }

    /// A permission allows an action only while it is active, lists the action
    /// and has not passed its expiry; an active permission without expiry
    /// allows every action it lists at every instant.
    pub proof fn lemma_allows_exactly(p: &Permission, action: PermissionAction, now: Timestamp)
        ensures
            p.spec_allows_action_at(action, now) ==> p.active && p.actions@.contains(action)
                && (p.expires_at matches Some(e) ==> !(e.secs < now.secs || (e.secs == now.secs && e.nanos < now.nanos))),
            p.active && p.actions@.contains(action) && p.expires_at is None ==> p.spec_allows_action_at(action, now),
    {
    }

    /// What a permission allows at an instant it allowed at every earlier one:
    /// permissions only run out.
    pub proof fn lemma_allows_earlier(p: &Permission, action: PermissionAction, earlier: Timestamp, later: Timestamp)
        requires
            earlier.secs < later.secs || (earlier.secs == later.secs && earlier.nanos <= later.nanos),
            p.spec_allows_action_at(action, later),
        ensures
            p.spec_allows_action_at(action, earlier),
    {
    }

    /// Whether the permission allows the action now.
    pub fn allows_action(&self, action: &PermissionAction) -> (res: bool)
        ensures
            exists|t: Timestamp| t.valid() && res == self.spec_allows_action_at(*action, t),
    {
        let t = now();
        self.allows_action_at(action, &t)
    }

    /// Whether the permission allows the action named by a text now; a text
    /// that names no action is not allowed.
    pub fn check_allows_action(&self, action: String) -> (res: bool)
        ensures
            match PermissionAction::spec_parse(action@) {
                Some(a) => exists|t: Timestamp| t.valid() && res == self.spec_allows_action_at(a, t),
                None => !res,
            },
    {
        match PermissionAction::from_string(action.as_str()) {
            Ok(a) => self.allows_action(&a),
            Err(_) => false,
        }
    }

    /// Whether the permission covers a resource: its kind must match; the
    /// resource's id and the filters play no part.
    pub fn applies_to_resource(&self, resource_type: &ResourceType, resource_id: &str) -> (res: bool)
        ensures
            res == (self.resource_type == *resource_type),
    {
        self.resource_type == *resource_type
    }

}

proof fn lemma_keys_distinct()
    ensures
        "id"@ != "role_id"@,
        "id"@ != "resource_type"@,
        "id"@ != "actions"@,
        "id"@ != "scope"@,
        "id"@ != "conditions"@,
        "id"@ != "resource_filters"@,
        "id"@ != "active"@,
        "id"@ != "expires_at"@,
        "id"@ != "created_by"@,
        "id"@ != "created_at"@,
        "id"@ != "updated_at"@,
        "role_id"@ != "resource_type"@,
        "role_id"@ != "actions"@,
        "role_id"@ != "scope"@,
        "role_id"@ != "conditions"@,
        "role_id"@ != "resource_filters"@,
        "role_id"@ != "active"@,
        "role_id"@ != "expires_at"@,
        "role_id"@ != "created_by"@,
        "role_id"@ != "created_at"@,
        "role_id"@ != "updated_at"@,
        "resource_type"@ != "actions"@,
        "resource_type"@ != "scope"@,
        "resource_type"@ != "conditions"@,
        "resource_type"@ != "resource_filters"@,
        "resource_type"@ != "active"@,
        "resource_type"@ != "expires_at"@,
        "resource_type"@ != "created_by"@,
        "resource_type"@ != "created_at"@,
        "resource_type"@ != "updated_at"@,
        "actions"@ != "scope"@,
        "actions"@ != "conditions"@,
        "actions"@ != "resource_filters"@,
        "actions"@ != "active"@,
        "actions"@ != "expires_at"@,
        "actions"@ != "created_by"@,
        "actions"@ != "created_at"@,
        "actions"@ != "updated_at"@,
        "scope"@ != "conditions"@,
        "scope"@ != "resource_filters"@,
        "scope"@ != "active"@,
        "scope"@ != "expires_at"@,
        "scope"@ != "created_by"@,
        "scope"@ != "created_at"@,
        "scope"@ != "updated_at"@,
        "conditions"@ != "resource_filters"@,
        "conditions"@ != "active"@,
        "conditions"@ != "expires_at"@,
        "conditions"@ != "created_by"@,
        "conditions"@ != "created_at"@,
        "conditions"@ != "updated_at"@,
        "resource_filters"@ != "active"@,
        "resource_filters"@ != "expires_at"@,
        "resource_filters"@ != "created_by"@,
        "resource_filters"@ != "created_at"@,
        "resource_filters"@ != "updated_at"@,
        "active"@ != "expires_at"@,
        "active"@ != "created_by"@,
        "active"@ != "created_at"@,
        "active"@ != "updated_at"@,
        "expires_at"@ != "created_by"@,
        "expires_at"@ != "created_at"@,
        "expires_at"@ != "updated_at"@,
        "created_by"@ != "created_at"@,
        "created_by"@ != "updated_at"@,
        "created_at"@ != "updated_at"@,
{
    broadcast use vstd::string::group_string_axioms;
    reveal_strlit("id");
    reveal_strlit("role_id");
    reveal_strlit("resource_type");
    reveal_strlit("actions");
    reveal_strlit("scope");
    reveal_strlit("conditions");
    reveal_strlit("resource_filters");
    reveal_strlit("active");
    reveal_strlit("expires_at");
    reveal_strlit("created_by");
    reveal_strlit("created_at");
    reveal_strlit("updated_at");
    assert("id"@.len() == 2);
    assert("role_id"@.len() == 7);
    assert("resource_type"@.len() == 13);
    assert("actions"@.len() == 7);
    assert("scope"@.len() == 5);
    assert("conditions"@.len() == 10);
    assert("resource_filters"@.len() == 16);
    assert("active"@.len() == 6);
    assert("expires_at"@.len() == 10);
    assert("created_by"@.len() == 10);
    assert("created_at"@.len() == 10);
    assert("updated_at"@.len() == 10);
    assert("role_id"@[0] != "actions"@[0]);
    assert("conditions"@[0] != "expires_at"@[0]);
    assert("conditions"@[1] != "created_by"@[1]);
    assert("conditions"@[1] != "created_at"@[1]);
    assert("conditions"@[0] != "updated_at"@[0]);
    assert("expires_at"@[0] != "created_by"@[0]);
    assert("expires_at"@[0] != "created_at"@[0]);
    assert("expires_at"@[0] != "updated_at"@[0]);
    assert("created_by"@[8] != "created_at"@[8]);
    assert("created_by"@[0] != "updated_at"@[0]);
    assert("created_at"@[0] != "updated_at"@[0]);
}

proof fn lemma_table_keys_absent()
    ensures
        "permission_type"@ != "actions"@,
        "permission_type"@ != "active"@,
        "permission_type"@ != "conditions"@,
        "permission_type"@ != "created_at"@,
        "permission_type"@ != "created_by"@,
        "permission_type"@ != "expires_at"@,
        "permission_type"@ != "id"@,
        "permission_type"@ != "resource_filters"@,
        "permission_type"@ != "resource_type"@,
        "permission_type"@ != "role_id"@,
        "permission_type"@ != "scope"@,
        "permission_type"@ != "updated_at"@,
{
    broadcast use vstd::string::group_string_axioms;
    reveal_strlit("permission_type");
    reveal_strlit("actions");
    reveal_strlit("active");
    reveal_strlit("conditions");
    reveal_strlit("created_at");
    reveal_strlit("created_by");
    reveal_strlit("expires_at");
    reveal_strlit("id");
    reveal_strlit("resource_filters");
    reveal_strlit("resource_type");
    reveal_strlit("role_id");
    reveal_strlit("scope");
    reveal_strlit("updated_at");
    assert("permission_type"@.len() == 15);
    assert("actions"@.len() == 7);
    assert("active"@.len() == 6);
    assert("conditions"@.len() == 10);
    assert("created_at"@.len() == 10);
    assert("created_by"@.len() == 10);
    assert("expires_at"@.len() == 10);
    assert("id"@.len() == 2);
    assert("resource_filters"@.len() == 16);
    assert("resource_type"@.len() == 13);
    assert("role_id"@.len() == 7);
    assert("scope"@.len() == 5);
    assert("updated_at"@.len() == 10);
    assert("permission_type"@.len() != "actions"@.len());
    assert("permission_type"@.len() != "active"@.len());
    assert("permission_type"@.len() != "conditions"@.len());
    assert("permission_type"@.len() != "created_at"@.len());
    assert("permission_type"@.len() != "created_by"@.len());
    assert("permission_type"@.len() != "expires_at"@.len());
    assert("permission_type"@.len() != "id"@.len());
    assert("permission_type"@.len() != "resource_filters"@.len());
    assert("permission_type"@.len() != "resource_type"@.len());
    assert("permission_type"@.len() != "role_id"@.len());
    assert("permission_type"@.len() != "scope"@.len());
    assert("permission_type"@.len() != "updated_at"@.len());
}

} // verus!
