//! Principals (RFC 9670): users, groups, resources and domains, and their
//! availability.
use vstd::prelude::*;
use vstd::string::*;

use crate::assoc::{first_named, lemma_put_keeps_distinct, names_of, position_named, put_named};
use crate::jmap_core::parse::opt_distinct;
use crate::calendar_event::event::{create_id_string, create_id_text};
use crate::json::{JsonMap, JsonValue};
use crate::text::{opt_string_view, opt_text, to_owned};
use crate::{Draft, Get};

verus! {

/// A principal.
#[derive(Debug)]
pub struct Principal<State = Get> {
    pub _create_id: Option<usize>,
    pub _state: std::marker::PhantomData<State>,
    pub id: Option<String>,
    pub ptype: Option<Type>,
    pub name: Option<String>,
    pub description: Option<String>,
    pub email: Option<String>,
    pub timezone: Option<String>,
    /// Capability URN to domain-specific data.
    pub capabilities: Option<JsonMap>,
    /// Account id to the account's description.
    pub accounts: Option<Vec<(String, PrincipalAccount)>>,
    pub aliases: Option<Vec<String>>,
    pub secret: Option<String>,
    pub dkim: Option<DKIM>,
    pub quota: Option<u32>,
    pub picture: Option<String>,
    pub members: Option<Vec<String>>,
    pub acl: Option<Vec<(String, Vec<ACL>)>>,
    /// Changes to single members of list properties, such as
    /// `aliases/<alias>`, each to add (`true`) or remove (`false`).
    pub property_patch: Option<Vec<(String, bool)>>,
}

/// An account that a principal can reach (RFC 9670).
#[derive(Debug)]
pub struct PrincipalAccount {
    pub name: Option<String>,
    pub is_personal: bool,
    pub is_read_only: bool,
    pub account_capabilities: JsonMap,
}

impl PrincipalAccount {
    pub fn new(name: String, is_personal: bool, is_read_only: bool) -> (r: Self)
        ensures
            r.name == Some(name),
            r.is_personal == is_personal,
            r.is_read_only == is_read_only,
            r.account_capabilities.wf(),
            r.account_capabilities@ == Map::<Seq<char>, JsonValue>::empty(),
    {
        PrincipalAccount { name: Some(name), is_personal, is_read_only, account_capabilities: JsonMap::new() }
    }

    /// Adds the account's data for a capability.
    pub fn account_capability(self, uri: String, config: JsonValue) -> (r: Self)
        requires
            self.account_capabilities.wf(),
        ensures
            r.account_capabilities.wf(),
            r.account_capabilities@ == self.account_capabilities@.insert(uri@, config),
            r.name == self.name,
            r.is_personal == self.is_personal,
            r.is_read_only == self.is_read_only,
    {
        let mut s = self;
        s.account_capabilities.insert(uri, config);
        s
    }

    /// The account's name.
    pub fn name(&self) -> (r: Option<&str>)
        ensures
            opt_text(r) == opt_string_view(self.name),
    {
        match &self.name {
            Some(s) => Some(s.as_str()),
            None => None,
        }
    }

    /// Whether the account is the principal's own.
    pub fn is_personal(&self) -> (r: bool)
        ensures
            r == self.is_personal,
    {
        self.is_personal
    }

    /// Whether the account is read-only.
    pub fn is_read_only(&self) -> (r: bool)
        ensures
            r == self.is_read_only,
    {
        self.is_read_only
    }

    /// The account's data, by capability.
    pub fn account_capabilities(&self) -> (r: &JsonMap)
        ensures
            r == &self.account_capabilities,
    {
        &self.account_capabilities
    }
}

/// Properties of a principal.
#[derive(Debug, Clone, Copy, PartialEq, Eq, Hash)]
#[non_exhaustive]
pub enum Property {
    Id,
    Type,
    Name,
    Description,
    Email,
    Timezone,
    Capabilities,
    Aliases,
    Secret,
    DKIM,
    Quota,
    Picture,
    Members,
    Accounts,
    ShareWith,
}

/// The wire name of a `Property` value.
pub open spec fn principal_property_name(p: Property) -> Seq<char> {
    match p {
        Property::Id => "id"@,
        Property::Type => "type"@,
        Property::Name => "name"@,
        Property::Description => "description"@,
        Property::Email => "email"@,
        Property::Timezone => "timezone"@,
        Property::Capabilities => "capabilities"@,
        Property::Aliases => "aliases"@,
        Property::Secret => "secret"@,
        Property::DKIM => "dkim"@,
        Property::Quota => "quota"@,
        Property::Picture => "picture"@,
        Property::Members => "members"@,
        Property::Accounts => "accounts"@,
        Property::ShareWith => "shareWith"@,
    }
}

impl Property {
    /// The property's name on the wire.
    pub fn as_str(&self) -> (s: &'static str)
        ensures
            s@ == principal_property_name(*self),
    {
        match self {
            Property::Id => "id",
            Property::Type => "type",
            Property::Name => "name",
            Property::Description => "description",
            Property::Email => "email",
            Property::Timezone => "timezone",
            Property::Capabilities => "capabilities",
            Property::Aliases => "aliases",
            Property::Secret => "secret",
            Property::DKIM => "dkim",
            Property::Quota => "quota",
            Property::Picture => "picture",
            Property::Members => "members",
            Property::Accounts => "accounts",
            Property::ShareWith => "shareWith",
        }
    }
}

/// Rights that an access control list grants.
#[derive(Debug, Clone, Copy, PartialEq, Eq, Hash)]
#[non_exhaustive]
pub enum ACL {
    Rename,
    Delete,
    ReadItems,
    AddItems,
    SetKeywords,
    RemoveItems,
    CreateChild,
    Administer,
    Submit,
    SetSeen,
}

/// The wire name of a `ACL` value.
pub open spec fn acl_name(p: ACL) -> Seq<char> {
    match p {
        ACL::Rename => "rename"@,
        ACL::Delete => "delete"@,
        ACL::ReadItems => "readItems"@,
        ACL::AddItems => "addItems"@,
        ACL::SetKeywords => "setKeywords"@,
        ACL::RemoveItems => "removeItems"@,
        ACL::CreateChild => "createChild"@,
        ACL::Administer => "administer"@,
        ACL::Submit => "submit"@,
        ACL::SetSeen => "setSeen"@,
    }
}

impl ACL {
    /// The right's name as text (what `Display` writes).
    pub fn as_str(&self) -> (s: &'static str)
        ensures
            s@ == acl_name(*self),
    {
        match self {
            ACL::Rename => "rename",
            ACL::Delete => "delete",
            ACL::ReadItems => "readItems",
            ACL::AddItems => "addItems",
            ACL::SetKeywords => "setKeywords",
            ACL::RemoveItems => "removeItems",
            ACL::CreateChild => "createChild",
            ACL::Administer => "administer",
            ACL::Submit => "submit",
            ACL::SetSeen => "setSeen",
        }
    }
}

/// The kind of a principal.
#[derive(Debug, Clone, Copy, PartialEq, Eq)]
#[non_exhaustive]
pub enum Type {
    Individual,
    Group,
    Resource,
    Location,
    Domain,
    List,
    Other,
}

/// The DKIM settings of a domain.
#[derive(Debug, Clone, PartialEq, Eq)]
pub struct DKIM {
    pub dkim_selector: Option<String>,
    pub dkim_expiration: Option<i64>,
}

impl DKIM {
    pub fn new(dkim_selector: Option<String>, dkim_expiration: Option<i64>) -> (r: DKIM)
        ensures
            r == (DKIM { dkim_selector, dkim_expiration }),
    {
        DKIM { dkim_selector, dkim_expiration }
    }

    /// The selector.
    pub fn selector(&self) -> (r: Option<&str>)
        ensures
            opt_text(r) == opt_string_view(self.dkim_selector),
    {
        match &self.dkim_selector {
            Some(s) => Some(s.as_str()),
            None => None,
        }
    }

    /// When the key expires.
    pub fn expiration(&self) -> (r: Option<i64>)
        ensures
            r == self.dkim_expiration,
    {
        self.dkim_expiration
    }
}

/// The name of a patch to one member of a list property: the property's
/// name, `/`, and the member.
pub open spec fn patch_key(property: Seq<char>, member: Seq<char>) -> Seq<char> {
    property + "/"@ + member
}

impl<State> Principal<State> {
    /// The ACL's principals, the accounts' ids and the patched paths occur
    /// once each, as in the JSON objects they stand for.
    pub open spec fn wf(&self) -> bool {
        &&& opt_distinct(self.acl)
        &&& opt_distinct(self.accounts)
        &&& opt_distinct(self.property_patch)
    }
}

impl Principal<Get> {
    /// The id.
    pub fn id(&self) -> (r: Option<&str>)
        ensures
            opt_text(r) == opt_string_view(self.id),
    {
        match &self.id {
            Some(s) => Some(s.as_str()),
            None => None,
        }
    }

    /// Takes the id, leaving none; an object without id gives an empty
    /// text.
    pub fn take_id(&mut self) -> (r: String)
        ensures
            match old(self).id {
                Some(s) => r == s,
                None => r@ == Seq::<char>::empty(),
            },
            *final(self) == (Principal { id: None, ..*old(self) }),
    {
        match self.id.take() {
            Some(s) => s,
            None => String::new(),
        }
    }

    /// The kind of principal.
    pub fn ptype(&self) -> (r: Option<&Type>)
        ensures
            r == match &self.ptype {
                Some(v) => Some(v),
                None => None,
            },
    {
        self.ptype.as_ref()
    }

    /// The name.
    pub fn name(&self) -> (r: Option<&str>)
        ensures
            opt_text(r) == opt_string_view(self.name),
    {
        match &self.name {
            Some(s) => Some(s.as_str()),
            None => None,
        }
    }

    /// The email address.
    pub fn email(&self) -> (r: Option<&str>)
        ensures
            opt_text(r) == opt_string_view(self.email),
    {
        match &self.email {
            Some(s) => Some(s.as_str()),
            None => None,
        }
    }

    /// The description.
    pub fn description(&self) -> (r: Option<&str>)
        ensures
            opt_text(r) == opt_string_view(self.description),
    {
        match &self.description {
            Some(s) => Some(s.as_str()),
            None => None,
        }
    }

    /// The time zone.
    pub fn timezone(&self) -> (r: Option<&str>)
        ensures
            opt_text(r) == opt_string_view(self.timezone),
    {
        match &self.timezone {
            Some(s) => Some(s.as_str()),
            None => None,
        }
    }

    /// The secret.
    pub fn secret(&self) -> (r: Option<&str>)
        ensures
            opt_text(r) == opt_string_view(self.secret),
    {
        match &self.secret {
            Some(s) => Some(s.as_str()),
            None => None,
        }
    }

    /// The picture.
    pub fn picture(&self) -> (r: Option<&str>)
        ensures
            opt_text(r) == opt_string_view(self.picture),
    {
        match &self.picture {
            Some(s) => Some(s.as_str()),
            None => None,
        }
    }

    /// The quota.
    pub fn quota(&self) -> (r: Option<u32>)
        ensures
            r == self.quota,
    {
        self.quota
    }

    /// Capability URN to domain-specific data.
    pub fn capabilities(&self) -> (r: Option<&JsonMap>)
        ensures
            r == match &self.capabilities {
                Some(v) => Some(v),
                None => None,
            },
    {
        self.capabilities.as_ref()
    }

    /// The accounts the principal can reach.
    pub fn accounts(&self) -> (r: Option<&Vec<(String, PrincipalAccount)>>)
        ensures
            r == match &self.accounts {
                Some(v) => Some(v),
                None => None,
            },
    {
        self.accounts.as_ref()
    }

    /// The aliases.
    pub fn aliases(&self) -> (r: Option<&Vec<String>>)
        ensures
            r == match &self.aliases {
                Some(v) => Some(v),
                None => None,
            },
    {
        self.aliases.as_ref()
    }

    /// The members.
    pub fn members(&self) -> (r: Option<&Vec<String>>)
        ensures
            r == match &self.members {
                Some(v) => Some(v),
                None => None,
            },
    {
        self.members.as_ref()
    }

    /// The DKIM settings.
    pub fn dkim(&self) -> (r: Option<&DKIM>)
        ensures
            r == match &self.dkim {
                Some(v) => Some(v),
                None => None,
            },
    {
        self.dkim.as_ref()
    }

    /// The access control list.
    pub fn acl(&self) -> (r: Option<&Vec<(String, Vec<ACL>)>>)
        ensures
            r == match &self.acl {
                Some(v) => Some(v),
                None => None,
            },
    {
        self.acl.as_ref()
    }
}

impl Principal<Draft> {
    /// A new principal to create, numbered `create_id` within its request,
    /// or an update when `None`: text properties and lists set empty (which
    /// are left out when written), the others left out.
    pub fn new(create_id: Option<usize>) -> (r: Self)
        ensures
            r._create_id == create_id,
            r.id is None,
            r.ptype is None,
            r.name matches Some(s) && s@.len() == 0,
            r.description matches Some(s) && s@.len() == 0,
            r.email matches Some(s) && s@.len() == 0,
            r.timezone matches Some(s) && s@.len() == 0,
            r.capabilities is None,
            r.accounts is None,
            r.aliases matches Some(v) && v@.len() == 0,
            r.secret matches Some(s) && s@.len() == 0,
            r.dkim is None,
            r.quota is None,
            r.picture matches Some(s) && s@.len() == 0,
            r.members matches Some(v) && v@.len() == 0,
            r.acl matches Some(v) && v@.len() == 0,
            r.property_patch is None,
    {
        Principal {
            _create_id: create_id,
            _state: std::marker::PhantomData,
            id: None,
            ptype: None,
            name: Some(String::new()),
            description: Some(String::new()),
            email: Some(String::new()),
            timezone: Some(String::new()),
            capabilities: None,
            accounts: None,
            aliases: Some(Vec::new()),
            secret: Some(String::new()),
            dkim: None,
            quota: None,
            picture: Some(String::new()),
            members: Some(Vec::new()),
            acl: Some(Vec::new()),
            property_patch: None,
        }
    }

    /// The creation id `c{n}` of a new object; `None` for an update.
    pub fn create_id(&self) -> (r: Option<String>)
        ensures
            match self._create_id {
                Some(n) => r matches Some(s) && s@ == create_id_text(n),
                None => r is None,
            },
    {
        match self._create_id {
            Some(n) => Some(create_id_string(n)),
            None => None,
        }
    }

    /// Sets the name.
    pub fn name(&mut self, name: String) -> (r: &mut Self)
        ensures
            *r == (Principal { name: Some(name), ..*old(self) }),
            *final(self) == *final(r),
    {
        self.name = Some(name);
        self
    }

    /// Sets the email address.
    pub fn email(&mut self, email: String) -> (r: &mut Self)
        ensures
            *r == (Principal { email: Some(email), ..*old(self) }),
            *final(self) == *final(r),
    {
        self.email = Some(email);
        self
    }

    /// Sets the secret.
    pub fn secret(&mut self, secret: String) -> (r: &mut Self)
        ensures
            *r == (Principal { secret: Some(secret), ..*old(self) }),
            *final(self) == *final(r),
    {
        self.secret = Some(secret);
        self
    }

    /// Sets the description, or none.
    pub fn description(&mut self, description: Option<String>) -> (r: &mut Self)
        ensures
            *r == (Principal { description: description, ..*old(self) }),
            *final(self) == *final(r),
    {
        self.description = description;
        self
    }

    /// Sets the time zone, or none.
    pub fn timezone(&mut self, timezone: Option<String>) -> (r: &mut Self)
        ensures
            *r == (Principal { timezone: timezone, ..*old(self) }),
            *final(self) == *final(r),
    {
        self.timezone = timezone;
        self
    }

    /// Sets the picture, or none.
    pub fn picture(&mut self, picture: Option<String>) -> (r: &mut Self)
        ensures
            *r == (Principal { picture: picture, ..*old(self) }),
            *final(self) == *final(r),
    {
        self.picture = picture;
        self
    }

    /// Sets the quota, or none.
    pub fn quota(&mut self, quota: Option<u32>) -> (r: &mut Self)
        ensures
            *r == (Principal { quota: quota, ..*old(self) }),
            *final(self) == *final(r),
    {
        self.quota = quota;
        self
    }

    /// Sets the kind of principal.
    pub fn ptype(&mut self, ptype: Type) -> (r: &mut Self)
        ensures
            *r == (Principal { ptype: Some(ptype), ..*old(self) }),
            *final(self) == *final(r),
    {
        self.ptype = Some(ptype);
        self
    }

    /// Sets the DKIM settings.
    pub fn dkim(&mut self, dkim: DKIM) -> (r: &mut Self)
        ensures
            *r == (Principal { dkim: Some(dkim), ..*old(self) }),
            *final(self) == *final(r),
    {
        self.dkim = Some(dkim);
        self
    }

    /// Sets the access control list, or none.
    pub fn acl(&mut self, acl: Option<Vec<(String, Vec<ACL>)>>) -> (r: &mut Self)
        ensures
            *r == (Principal { acl: acl, ..*old(self) }),
            *final(self) == *final(r),
    {
        self.acl = acl;
        self
    }

    /// Sets the aliases, or none.
    pub fn aliases(&mut self, aliases: Option<Vec<String>>) -> (r: &mut Self)
        ensures
            *r == (Principal { aliases: aliases, ..*old(self) }),
            *final(self) == *final(r),
    {
        self.aliases = aliases;
        self
    }

    /// Sets the capabilities' data, or none.
    pub fn capabilities(&mut self, capabilities: Option<JsonMap>) -> (r: &mut Self)
        ensures
            *r == (Principal { capabilities: capabilities, ..*old(self) }),
            *final(self) == *final(r),
    {
        self.capabilities = capabilities;
        self
    }

    /// Sets the accounts, or none.
    pub fn accounts(&mut self, accounts: Option<Vec<(String, PrincipalAccount)>>) -> (r: &mut Self)
        ensures
            *r == (Principal { accounts: accounts, ..*old(self) }),
            *final(self) == *final(r),
    {
        self.accounts = accounts;
        self
    }

    /// Sets the members, or none.
    pub fn members(&mut self, members: Option<Vec<String>>) -> (r: &mut Self)
        ensures
            *r == (Principal { members: members, ..*old(self) }),
            *final(self) == *final(r),
    {
        self.members = members;
        self
    }

    /// Adds (`set`) or removes one alias, as a patch `aliases/<alias>`.
    pub fn alias(&mut self, alias: &str, set: bool) -> (r: &mut Self)
        ensures
            ({
                let patch = match old(self).property_patch {
                    Some(l) => l@,
                    None => Seq::empty(),
                };
                let key = patch_key("aliases"@, alias@);
                r.property_patch matches Some(nl) && if names_of(patch).contains(key) {
                    nl@ == patch.update(position_named(patch, key), (nl@[position_named(patch, key)].0, set))
                        && nl@[position_named(patch, key)].0@ == key
                } else {
                    nl@.len() == patch.len() + 1 && nl@.drop_last() == patch && nl@.last().0@ == key
                        && nl@.last().1 == set
                }
            }),
            *r == (Principal { property_patch: r.property_patch, ..*old(self) }),
            old(self).wf() ==> r.wf(),
            *final(self) == *final(r),
    {
        let mut key = String::from_str("aliases/");
        key.append(alias);
        proof {
            reveal_strlit("aliases/");
            reveal_strlit("aliases");
            reveal_strlit("/");
            assert("aliases/"@ =~= "aliases"@ + "/"@);
        }
        let mut patch = match self.property_patch.take() {
            Some(l) => l,
            None => Vec::new(),
        };
        let ghost before = patch@;
        let ghost k = key;
        put_named(&mut patch, key, set);
        proof {
            if opt_distinct(old(self).property_patch) {
                lemma_put_keeps_distinct(before, k, set, patch@);
            }
        }
        self.property_patch = Some(patch);
        self
    }

    /// Adds (`set`) or removes one member, as a patch `members/<member>`.
    pub fn member(&mut self, member: &str, set: bool) -> (r: &mut Self)
        ensures
            ({
                let patch = match old(self).property_patch {
                    Some(l) => l@,
                    None => Seq::empty(),
                };
                let key = patch_key("members"@, member@);
                r.property_patch matches Some(nl) && if names_of(patch).contains(key) {
                    nl@ == patch.update(position_named(patch, key), (nl@[position_named(patch, key)].0, set))
                        && nl@[position_named(patch, key)].0@ == key
                } else {
                    nl@.len() == patch.len() + 1 && nl@.drop_last() == patch && nl@.last().0@ == key
                        && nl@.last().1 == set
                }
            }),
            *r == (Principal { property_patch: r.property_patch, ..*old(self) }),
            old(self).wf() ==> r.wf(),
            *final(self) == *final(r),
    {
        let mut key = String::from_str("members/");
        key.append(member);
        proof {
            reveal_strlit("members/");
            reveal_strlit("members");
            reveal_strlit("/");
            assert("members/"@ =~= "members"@ + "/"@);
        }
        let mut patch = match self.property_patch.take() {
            Some(l) => l,
            None => Vec::new(),
        };
        let ghost before = patch@;
        let ghost k = key;
        put_named(&mut patch, key, set);
        proof {
            if opt_distinct(old(self).property_patch) {
                lemma_put_keeps_distinct(before, k, set, patch@);
            }
        }
        self.property_patch = Some(patch);
        self
    }
}

/// A Principal/getAvailability request: the busy periods of a principal
/// between two UTC times.
#[derive(Debug, Clone)]
pub struct PrincipalGetAvailabilityRequest {
    pub account_id: String,
    pub id: String,
    pub utc_start: String,
    pub utc_end: String,
    pub show_details: Option<bool>,
}

impl PrincipalGetAvailabilityRequest {
    pub fn new(account_id: &str, id: String, utc_start: String, utc_end: String) -> (r: Self)
        ensures
            r.account_id@ == account_id@,
            r.id == id,
            r.utc_start == utc_start,
            r.utc_end == utc_end,
            r.show_details is None,
    {
        PrincipalGetAvailabilityRequest { account_id: to_owned(account_id), id, utc_start, utc_end, show_details: None }
    }

    /// Whether to return details of the events.
    pub fn show_details(&mut self, show: bool) -> (r: &mut Self)
        ensures
            *r == (PrincipalGetAvailabilityRequest { show_details: Some(show), ..*old(self) }),
            *final(self) == *final(r),
    {
        self.show_details = Some(show);
        self
    }
}

/// The response of Principal/getAvailability.
#[derive(Debug)]
pub struct PrincipalGetAvailabilityResponse {
    pub account_id: String,
    pub list: Vec<AvailabilityEntry>,
}

/// A busy period.
#[derive(Debug)]
pub struct AvailabilityEntry {
    pub utc_start: String,
    pub utc_end: String,
    pub busy_status: Option<String>,
    pub event: Option<JsonValue>,
}

impl PrincipalGetAvailabilityResponse {
    pub fn account_id(&self) -> (r: &str)
        ensures
            r@ == self.account_id@,
    {
        self.account_id.as_str()
    }

    /// The busy periods.
    pub fn list(&self) -> (r: &Vec<AvailabilityEntry>)
        ensures
            r == &self.list,
    {
        &self.list
    }

    /// Takes the busy periods, leaving the list empty.
    pub fn take_list(&mut self) -> (r: Vec<AvailabilityEntry>)
        ensures
            r@ == old(self).list@,
            final(self).list@.len() == 0,
            final(self).account_id == old(self).account_id,
    {
        let mut list = Vec::new();
        std::mem::swap(&mut list, &mut self.list);
        list
    }
}

} // verus!
