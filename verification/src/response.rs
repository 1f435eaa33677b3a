//! The structured success outcome of a mutating operation: a list of
//! events, each a type tag with key/value attributes, which the host turns
//! into its own observable response.

use vstd::prelude::*;

verus! {

/// One key/value pair attached to an event.
#[derive(Debug, PartialEq, Eq)]
pub struct Attribute {
    pub key: String,
    pub value: String,
}

/// Mathematical image of an [`Attribute`].
#[verifier::ext_equal]
pub ghost struct AttributeView {
    pub key: Seq<char>,
    pub value: Seq<char>,
}

impl View for Attribute {
    type V = AttributeView;

    open spec fn view(&self) -> AttributeView {
        AttributeView { key: self.key@, value: self.value@ }
    }
}

impl DeepView for Attribute {
    type V = AttributeView;

    open spec fn deep_view(&self) -> AttributeView {
        self@
    }
}

/// One observable event emitted by a successful operation.
#[derive(Debug, PartialEq, Eq)]
pub struct Event {
    /// The event's type tag.
    pub ty: String,
    /// The event's attributes, in emission order.
    pub attributes: Vec<Attribute>,
}

/// Mathematical image of an [`Event`].
#[verifier::ext_equal]
pub ghost struct EventView {
    pub ty: Seq<char>,
    pub attributes: Seq<AttributeView>,
}

impl View for Event {
    type V = EventView;

    open spec fn view(&self) -> EventView {
        EventView { ty: self.ty@, attributes: self.attributes.deep_view() }
    }
}

/// The success outcome handed back to the host.
#[derive(Debug, PartialEq, Eq)]
pub struct Response {
    /// The events emitted, in emission order.
    pub events: Vec<Event>,
}

/// Mathematical image of a [`Response`].
#[verifier::ext_equal]
pub ghost struct ResponseView {
    pub events: Seq<EventView>,
}

impl View for Response {
    type V = ResponseView;

    open spec fn view(&self) -> ResponseView {
        ResponseView {
            events: self.events@.map_values(|e: Event| e@),
        }
    }
}

/// An attribute from a key literal and an owned value.
pub fn attr(key: &str, value: String) -> (a: Attribute)
    ensures
        a@ == (AttributeView { key: key@, value: value@ }),
{
    Attribute { key: key.to_owned(), value }
}

/// A response that carries exactly one event.
pub fn response_one_event(ty: &str, attributes: Vec<Attribute>) -> (r: Response)
    ensures
        r@ == (ResponseView {
            events: seq![EventView { ty: ty@, attributes: attributes.deep_view() }],
        }),
{
    let event = Event { ty: ty.to_owned(), attributes };
    let mut events: Vec<Event> = Vec::new();
    events.push(event);
    let r = Response { events };
    proof {
        assert(r@.events =~= seq![
            EventView { ty: ty@, attributes: attributes.deep_view() },
        ]);
    }
    r
}

} // verus!
