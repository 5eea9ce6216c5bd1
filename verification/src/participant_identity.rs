//! Participant identities: the addresses by which the user takes part in
//! calendar events.
use vstd::prelude::*;

use crate::calendar_event::event::{create_id_string, create_id_text};
use crate::text::{opt_string_view, opt_text};
use crate::{Draft, Get};

verus! {

/// `ahash::AHashMap`, made known to Verus as an opaque type: nothing is
/// claimed of its contents but what `send_to_contents` is said to be.
#[verifier::external_type_specification]
#[verifier::external_body]
#[verifier::reject_recursive_types(K)]
#[verifier::reject_recursive_types(V)]
#[verifier::reject_recursive_types(S)]
pub struct ExAHashMap<K, V, S>(ahash::AHashMap<K, V, S>);

/// `ahash::RandomState`, the hasher of an `AHashMap`, made known to Verus
/// as an opaque type; nothing is claimed of it.
#[verifier::external_type_specification]
#[verifier::external_body]
pub struct ExRandomState(ahash::RandomState);

/// The map of scheduling methods to addresses.
pub type SendToMap = ahash::AHashMap<String, String>;

/// What a `send_to` map holds: from scheduling method to address.
pub uninterp spec fn send_to_contents(m: SendToMap) -> Map<Seq<char>, Seq<char>>;

/// An empty map, made by `ahash::AHashMap::new`; the contract claims that it
/// holds nothing, as the constructor's source shows.
#[verifier::external_body]
fn empty_send_to() -> (r: SendToMap)
    ensures
        send_to_contents(r).is_empty(),
{
    ahash::AHashMap::new()
}

/// Extra arguments of ParticipantIdentity/set.
#[derive(Debug, Clone, Default)]
pub struct ParticipantIdentitySetArguments {
    pub on_success_set_is_default: Option<String>,
}

impl ParticipantIdentitySetArguments {
    /// The identity to make the default after a successful create or update: a creation reference such as `#c0`, or an id.
    pub fn on_success_set_is_default(&mut self, id: String) -> (r: &mut Self)
        ensures
            *r == (ParticipantIdentitySetArguments { on_success_set_is_default: Some(id), ..*old(self) }),
            *final(self) == *final(r),
    {
        self.on_success_set_is_default = Some(id);
        self
    }
}

/// A participant identity.
#[derive(Debug)]
pub struct ParticipantIdentity<State = Get> {
    pub _create_id: Option<usize>,
    pub _state: std::marker::PhantomData<State>,
    pub id: Option<String>,
    pub name: Option<String>,
    pub send_to: Option<ahash::AHashMap<String, String>>,
    pub is_default: Option<bool>,
}

/// Properties of a participant identity.
#[derive(Debug, Clone, Copy, PartialEq, Eq, Hash)]
pub enum Property {
    Id,
    Name,
    SendTo,
    IsDefault,
}

/// The wire name of a `Property` value.
pub open spec fn participant_property_name(p: Property) -> Seq<char> {
    match p {
        Property::Id => "id"@,
        Property::Name => "name"@,
        Property::SendTo => "sendTo"@,
        Property::IsDefault => "isDefault"@,
    }
}

impl Property {
    /// The property's name on the wire.
    pub fn as_str(&self) -> (s: &'static str)
        ensures
            s@ == participant_property_name(*self),
    {
        match self {
            Property::Id => "id",
            Property::Name => "name",
            Property::SendTo => "sendTo",
            Property::IsDefault => "isDefault",
        }
    }
}

impl ParticipantIdentity<Get> {
    /// The id.
    pub fn id(&self) -> (r: Option<&str>)
        ensures
            opt_text(r) == opt_string_view(self.id),
    {
        match &self.id {
            Some(s) => Some(s.as_str()),
            None => None,
        }
    }

    /// Takes the id, leaving none; an object without id gives an empty
    /// text.
    pub fn take_id(&mut self) -> (r: String)
        ensures
            match old(self).id {
                Some(s) => r == s,
                None => r@ == Seq::<char>::empty(),
            },
            *final(self) == (ParticipantIdentity { id: None, ..*old(self) }),
    {
        match self.id.take() {
            Some(s) => s,
            None => String::new(),
        }
    }

    /// The display name.
    pub fn name(&self) -> (r: Option<&str>)
        ensures
            opt_text(r) == opt_string_view(self.name),
    {
        match &self.name {
            Some(s) => Some(s.as_str()),
            None => None,
        }
    }

    /// The addresses, by scheduling method.
    pub fn send_to(&self) -> (r: Option<&ahash::AHashMap<String, String>>)
        ensures
            r == match &self.send_to {
                Some(v) => Some(v),
                None => None,
            },
    {
        self.send_to.as_ref()
    }

    /// Whether it is the default identity.
    pub fn is_default(&self) -> (r: Option<bool>)
        ensures
            r == self.is_default,
    {
        self.is_default
    }
}

impl ParticipantIdentity<Draft> {
    /// A new identity to create, numbered `create_id` within its request,
    /// or an update when `None`: no name or default flag, and an empty
    /// `sendTo` map.
    pub fn new(create_id: Option<usize>) -> (r: Self)
        ensures
            r._create_id == create_id,
            r.id is None,
            r.name is None,
            r.send_to matches Some(m) && send_to_contents(m) == Map::<Seq<char>, Seq<char>>::empty(),
            r.is_default is None,
    {
        ParticipantIdentity {
            _create_id: create_id,
            _state: std::marker::PhantomData,
            id: None,
            name: None,
            send_to: Some(empty_send_to()),
            is_default: None,
        }
    }

    /// The creation id `c{n}` of a new object; `None` for an update.
    pub fn create_id(&self) -> (r: Option<String>)
        ensures
            match self._create_id {
                Some(n) => r matches Some(s) && s@ == create_id_text(n),
                None => r is None,
            },
    {
        match self._create_id {
            Some(n) => Some(create_id_string(n)),
            None => None,
        }
    }

    /// Sets the display name.
    pub fn name(&mut self, name: String) -> (r: &mut Self)
        ensures
            *r == (ParticipantIdentity { name: Some(name), ..*old(self) }),
            *final(self) == *final(r),
    {
        self.name = Some(name);
        self
    }

    /// Sets the addresses, by scheduling method.
    pub fn send_to(&mut self, send_to: ahash::AHashMap<String, String>) -> (r: &mut Self)
        ensures
            *r == (ParticipantIdentity { send_to: Some(send_to), ..*old(self) }),
            *final(self) == *final(r),
    {
        self.send_to = Some(send_to);
        self
    }

    /// Sets whether it is the default identity.
    pub fn is_default(&mut self, is_default: bool) -> (r: &mut Self)
        ensures
            *r == (ParticipantIdentity { is_default: Some(is_default), ..*old(self) }),
            *final(self) == *final(r),
    {
        self.is_default = Some(is_default);
        self
    }
}

} // verus!
