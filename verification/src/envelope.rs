//! What this library takes on trust of `cloudevents`, the envelope in which
//! events arrive.

use cloudevents::{Data, Event};
use serde_json::Value;
use vstd::prelude::*;

verus! {

/// An event in the envelope of `cloudevents`. Nothing of its inside is
/// known here: it is read through the functions below.
#[verifier::external_type_specification]
#[verifier::external_body]
pub struct ExEvent(cloudevents::Event);

/// The data of an event, in whichever form the event carries it: as bytes,
/// as text or as JSON.
#[verifier::external_type_specification]
#[verifier::external_body]
pub struct ExData(cloudevents::Data);

/// The data that an event carries, if it carries any.
pub uninterp spec fn event_data(event: Event) -> Option<Data>;

/// The JSON document that the data of an event holds, if it holds one.
pub uninterp spec fn data_document(data: Data) -> Option<Value>;

/// Takes the data out of an event with `cloudevents::Event::data`, which
/// gives the data attribute, and nothing for an event without one.
#[verifier::external_body]
pub(crate) fn data_of<'a>(event: &'a Event) -> (found: Option<&'a Data>)
    ensures
        match found {
            Some(data) => event_data(*event) == Some(*data),
            None => event_data(*event) is None,
        },
{
    event.data()
}

/// Reads the data of an event as JSON with the `TryFrom<Data>` that
/// `cloudevents` has for `serde_json::Value`: JSON comes out as it is, and
/// bytes and text are parsed; why a text was refused is dropped. The
/// contract claims only that the outcome is a function of the data.
#[verifier::external_body]
pub(crate) fn document_of(data: &Data) -> (document: Option<Value>)
    ensures
        document == data_document(*data),
{
    Value::try_from(data.to_owned()).ok()
}

} // verus!
