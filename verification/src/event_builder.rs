//! Responses of the contract: attributes and events, as plain data.

use crate::text::{decimal, to_decimal};
use vstd::prelude::*;

verus! {

/// A key-value pair attached to a response or an event.
#[derive(Debug, Clone, PartialEq, Eq)]
pub struct Attribute {
    pub key: String,
    pub value: String,
}

/// An event the contract emits.
#[derive(Debug, Clone, PartialEq, Eq)]
pub struct Event {
    pub ty: String,
    pub attributes: Vec<Attribute>,
}

/// What the contract answers to an executed message: its attributes and events.
#[derive(Debug, Clone, PartialEq, Eq)]
pub struct Response {
    pub attributes: Vec<Attribute>,
    pub events: Vec<Event>,
}

/// An attribute as text: key and value.
pub type AttributeView = (Seq<char>, Seq<char>);

/// An event as text: type and attributes.
pub type EventView = (Seq<char>, Seq<AttributeView>);

impl View for Attribute {
    type V = AttributeView;

    open spec fn view(&self) -> AttributeView {
        (self.key@, self.value@)
    }
}

impl View for Event {
    type V = EventView;

    open spec fn view(&self) -> EventView {
        (self.ty@, self.attributes@.map_values(|a: Attribute| a@))
    }
}

impl View for Response {
    type V = (Seq<AttributeView>, Seq<EventView>);

    open spec fn view(&self) -> (Seq<AttributeView>, Seq<EventView>) {
        (self.attributes@.map_values(|a: Attribute| a@), self.events@.map_values(|e: Event| e@))
    }
}

impl Attribute {
    /// An attribute with the given key and value.
    pub fn new(key: &str, value: &str) -> (a: Attribute)
        ensures
            a@ == (key@, value@),
    {
        Attribute { key: String::from_str(key), value: String::from_str(value) }
    }
}

impl Event {
    /// An event of the given type, without attributes.
    pub fn new(ty: &str) -> (e: Event)
        ensures
            e@ == (ty@, Seq::<AttributeView>::empty()),
    {
        let e = Event { ty: String::from_str(ty), attributes: Vec::new() };
        assert(e@.1 =~= Seq::<AttributeView>::empty());
        e
    }

    /// The event with one more attribute at the end.
    pub fn add_attribute(self, key: &str, value: &str) -> (e: Event)
        ensures
            e@ == (self@.0, self@.1.push((key@, value@))),
    {
        let mut e = self;
        let ghost before = e.attributes@;
        e.attributes.push(Attribute::new(key, value));
        assert(e.attributes@.map_values(|a: Attribute| a@) =~= before.map_values(|a: Attribute| a@).push(
            (key@, value@),
        ));
        e
    }
}

impl Response {
    /// A response without attributes or events.
    pub fn new() -> (r: Response)
        ensures
            r@ == (Seq::<AttributeView>::empty(), Seq::<EventView>::empty()),
    {
        let r = Response { attributes: Vec::new(), events: Vec::new() };
        assert(r@.0 =~= Seq::<AttributeView>::empty());
        assert(r@.1 =~= Seq::<EventView>::empty());
        r
    }

    /// The response with one more attribute at the end.
    pub fn add_attribute(self, key: &str, value: &str) -> (r: Response)
        ensures
            r@ == (self@.0.push((key@, value@)), self@.1),
    {
        let mut r = self;
        let ghost before = r.attributes@;
        r.attributes.push(Attribute::new(key, value));
        assert(r.attributes@.map_values(|a: Attribute| a@) =~= before.map_values(|a: Attribute| a@).push(
            (key@, value@),
        ));
        r
    }

    /// The response with one more event at the end.
    pub fn add_event(self, event: Event) -> (r: Response)
        ensures
            r@ == (self@.0, self@.1.push(event@)),
    {
        let mut r = self;
        let ghost before = r.events@;
        let ghost ev = event@;
        r.events.push(event);
        assert(r.events@.map_values(|e: Event| e@) =~= before.map_values(|e: Event| e@).push(ev));
        r
    }
}

/// The event naming a signer of a verified proof.
pub open spec fn signer_event(signer: Seq<char>) -> EventView {
    ("signer"@, seq![("address"@, signer)])
}

/// The event of an added epoch.
pub open spec fn epoch_event(epoch_id: u128, minimum_witness: u128) -> EventView {
    ("add_epoch"@, seq![("epoch_id"@, decimal(epoch_id as nat)), ("minimum_witness"@, decimal(minimum_witness as nat))])
}

/// The event of the contract's instantiation.
pub open spec fn instantiate_event(owner: Seq<char>) -> EventView {
    ("instantiate"@, seq![("owner"@, owner)])
}

/// The event of a successful proof verification.
pub open spec fn verify_event(epoch_id: u64) -> EventView {
    ("verify_proof"@, seq![("result"@, "success"@), ("epoch_id"@, decimal(epoch_id as nat))])
}

/// Adds a signer event to the response.
pub fn add_signer_event(response: Response, signer: &str) -> (r: Response)
    ensures
        r@ == (response@.0, response@.1.push(signer_event(signer@))),
{
    let event = Event::new("signer").add_attribute("address", signer);
    assert(event@.1 =~= seq![("address"@, signer@)]);
    response.add_event(event)
}

/// Adds an epoch creation event to the response.
pub fn add_epoch_event(response: Response, epoch_id: u128, minimum_witness: u128) -> (r: Response)
    ensures
        r@ == (response@.0, response@.1.push(epoch_event(epoch_id, minimum_witness))),
{
    let id_text = to_decimal(epoch_id);
    let minimum_text = to_decimal(minimum_witness);
    let event = Event::new("add_epoch").add_attribute("epoch_id", id_text.as_str()).add_attribute(
        "minimum_witness",
        minimum_text.as_str(),
    );
    assert(event@.1 =~= epoch_event(epoch_id, minimum_witness).1);
    response.add_event(event)
}

/// Adds an instantiate event to the response.
pub fn add_instantiate_event(response: Response, owner: &str) -> (r: Response)
    ensures
        r@ == (response@.0, response@.1.push(instantiate_event(owner@))),
{
    let event = Event::new("instantiate").add_attribute("owner", owner);
    assert(event@.1 =~= seq![("owner"@, owner@)]);
    response.add_event(event)
}

/// Adds a verify proof success event to the response.
pub fn add_verify_event(response: Response, epoch_id: u64) -> (r: Response)
    ensures
        r@ == (response@.0, response@.1.push(verify_event(epoch_id))),
{
    let id_text = to_decimal(epoch_id as u128);
    let event = Event::new("verify_proof").add_attribute("result", "success").add_attribute(
        "epoch_id",
        id_text.as_str(),
    );
    assert(event@.1 =~= verify_event(epoch_id).1);
    response.add_event(event)
}

} // verus!
