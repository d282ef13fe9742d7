//! The audit log entry that announces a new version of a secret, and how it
//! is decoded.

use crate::envelope::{data_document, data_of, document_of, event_data};
use crate::error::DecodeError;
use crate::json::{json_member, json_parsed, json_text, member, parse, text};
use crate::resource::{identified, SecretIdentifier, MIN_SEGMENTS};
use crate::text::segments;
use crate::views::{agrees, view_of};
use cloudevents::Event;
use serde_json::Value;
use vstd::prelude::*;

verus! {

/// Who caused the audited operation.
#[derive(Clone, Debug, PartialEq, Eq)]
pub struct AuthenticationInfo {
    pub principal_email: String,
}

/// What an [`AuthenticationInfo`] holds.
pub struct AuthenticationInfoView {
    pub principal_email: Seq<char>,
}

impl View for AuthenticationInfo {
    type V = AuthenticationInfoView;

    open spec fn view(&self) -> AuthenticationInfoView {
        AuthenticationInfoView { principal_email: self.principal_email@ }
    }
}

/// The audited operation: who did it, and to which resource.
#[derive(Clone, Debug, PartialEq, Eq)]
pub struct ProtoPayload {
    pub authentication_info: AuthenticationInfo,
    pub resource_name: String,
}

/// What a [`ProtoPayload`] holds.
pub struct ProtoPayloadView {
    pub authentication_info: AuthenticationInfoView,
    pub resource_name: Seq<char>,
}

impl View for ProtoPayload {
    type V = ProtoPayloadView;

    open spec fn view(&self) -> ProtoPayloadView {
        ProtoPayloadView {
            authentication_info: self.authentication_info@,
            resource_name: self.resource_name@,
        }
    }
}

/// An audit log entry that announces a new version of a secret.
#[derive(Clone, Debug, PartialEq, Eq)]
pub struct Entry {
    pub proto_payload: ProtoPayload,
}

/// What an [`Entry`] holds.
pub struct EntryView {
    pub proto_payload: ProtoPayloadView,
}

impl View for Entry {
    type V = EntryView;

    open spec fn view(&self) -> EntryView {
        EntryView { proto_payload: self.proto_payload@ }
    }
}

/// The key of the audited operation in an entry.
pub const PROTO_PAYLOAD: &'static str = "protoPayload";

/// The key of the actor in an audited operation.
pub const AUTHENTICATION_INFO: &'static str = "authenticationInfo";

/// The key of the actor's address.
pub const PRINCIPAL_EMAIL: &'static str = "principalEmail";

/// The key of the resource in an audited operation.
pub const RESOURCE_NAME: &'static str = "resourceName";

/// The entry with the given actor and resource.
pub open spec fn entry_view(principal: Seq<char>, resource: Seq<char>) -> EntryView {
    EntryView {
        proto_payload: ProtoPayloadView {
            authentication_info: AuthenticationInfoView { principal_email: principal },
            resource_name: resource,
        },
    }
}

/// The entry that two fields make. Both must be there, and the resource
/// name must identify a secret. The actor is looked at first.
pub open spec fn entry_of(principal: Option<Seq<char>>, resource: Option<Seq<char>>) -> Result<
    EntryView,
    DecodeError,
> {
    match (principal, resource) {
        (None, _) => Err(DecodeError::MissingPrincipalEmail),
        (Some(_), None) => Err(DecodeError::MissingResourceName),
        (Some(p), Some(r)) => match identified(r) {
            Ok(_) => Ok(entry_view(p, r)),
            Err(e) => Err(e),
        },
    }
}

/// The string under a key of a JSON value, if the value is an object that
/// has a string there.
pub open spec fn text_member(value: Value, key: Seq<char>) -> Option<Seq<char>> {
    match json_member(value, key) {
        Some(inner) => json_text(inner),
        None => None,
    }
}

/// The actor's address in a JSON document: the string at
/// `protoPayload.authenticationInfo.principalEmail`.
pub open spec fn principal_in(document: Value) -> Option<Seq<char>> {
    match json_member(document, PROTO_PAYLOAD@) {
        Some(payload) => match json_member(payload, AUTHENTICATION_INFO@) {
            Some(info) => text_member(info, PRINCIPAL_EMAIL@),
            None => None,
        },
        None => None,
    }
}

/// The resource in a JSON document: the string at
/// `protoPayload.resourceName`.
pub open spec fn resource_in(document: Value) -> Option<Seq<char>> {
    match json_member(document, PROTO_PAYLOAD@) {
        Some(payload) => text_member(payload, RESOURCE_NAME@),
        None => None,
    }
}

/// The entry that a JSON document holds.
pub open spec fn entry_in(document: Value) -> Result<EntryView, DecodeError> {
    entry_of(principal_in(document), resource_in(document))
}

/// The entry that a payload spells.
pub open spec fn decoded(bytes: Seq<u8>) -> Result<EntryView, DecodeError> {
    match json_parsed(bytes) {
        Some(document) => entry_in(document),
        None => Err(DecodeError::MalformedJson),
    }
}

/// The entry that an event carries: its data must be there, must be JSON,
/// and must hold an entry.
pub open spec fn carried(event: Event) -> Result<EntryView, DecodeError> {
    match event_data(event) {
        Some(data) => match data_document(data) {
            Some(document) => entry_in(document),
            None => Err(DecodeError::MalformedJson),
        },
        None => Err(DecodeError::MissingData),
    }
}

/// Whatever is decoded identifies a secret: an entry whose resource name
/// has fewer than four segments is refused, so that no entry comes out
/// that the rest of the request could not go on with.
pub proof fn lemma_decoded_identifies(bytes: Seq<u8>, event: Event)
    ensures
        decoded(bytes) matches Ok(entry) ==> identified(entry.proto_payload.resource_name) is Ok
            && segments(entry.proto_payload.resource_name).len() >= MIN_SEGMENTS,
        carried(event) matches Ok(entry) ==> identified(entry.proto_payload.resource_name) is Ok
            && segments(entry.proto_payload.resource_name).len() >= MIN_SEGMENTS,
{
}

/// A resource name with fewer than four segments is refused, whoever the
/// actor is.
pub proof fn lemma_short_resource_is_refused(principal: Seq<char>, resource: Seq<char>)
    requires
        segments(resource).len() < MIN_SEGMENTS,
    ensures
        entry_of(Some(principal), Some(resource)) == Err::<EntryView, DecodeError>(
            DecodeError::InvalidResourceName,
        ),
{
}

fn text_at(value: &Value, key: &str) -> (found: Option<String>)
    ensures
        view_of(found) == text_member(*value, key@),
{
    match member(value, key) {
        Some(inner) => match text(inner) {
            Some(s) => Some(s.to_owned()),
            None => None,
        },
        None => None,
    }
}

impl Entry {
    /// Whether the entry's resource name identifies a secret. Every entry
    /// that is decoded is well formed; one that is put together by hand
    /// need not be.
    pub open spec fn well_formed(&self) -> bool {
        identified(self@.proto_payload.resource_name) is Ok
    }

    /// Who caused the new version.
    pub fn actor(&self) -> (actor: &str)
        ensures
            actor@ == self@.proto_payload.authentication_info.principal_email,
    {
        self.proto_payload.authentication_info.principal_email.as_str()
    }

    /// The name of the new version.
    pub fn resource_name(&self) -> (name: &str)
        ensures
            name@ == self@.proto_payload.resource_name,
    {
        self.proto_payload.resource_name.as_str()
    }

    /// Makes an entry of the two fields that a payload must carry.
    pub fn from_fields(principal: Option<String>, resource: Option<String>) -> (result: Result<
        Entry,
        DecodeError,
    >)
        ensures
            agrees(result, entry_of(view_of(principal), view_of(resource))),
            result matches Ok(entry) ==> entry.well_formed(),
    {
        let principal_email = match principal {
            Some(p) => p,
            None => { return Err(DecodeError::MissingPrincipalEmail); },
        };
        let resource_name = match resource {
            Some(r) => r,
            None => { return Err(DecodeError::MissingResourceName); },
        };
        match SecretIdentifier::parse(resource_name.as_str()) {
            Ok(_) => Ok(
                Entry {
                    proto_payload: ProtoPayload {
                        authentication_info: AuthenticationInfo { principal_email },
                        resource_name,
                    },
                },
            ),
            Err(e) => Err(e),
        }
    }

    /// Reads an entry out of a JSON document.
    pub fn from_document(document: &Value) -> (result: Result<Entry, DecodeError>)
        ensures
            agrees(result, entry_in(*document)),
            result matches Ok(entry) ==> entry.well_formed(),
    {
        let payload = member(document, PROTO_PAYLOAD);
        let principal = match payload {
            Some(p) => match member(p, AUTHENTICATION_INFO) {
                Some(info) => text_at(info, PRINCIPAL_EMAIL),
                None => None,
            },
            None => None,
        };
        let resource = match payload {
            Some(p) => text_at(p, RESOURCE_NAME),
            None => None,
        };
        Entry::from_fields(principal, resource)
    }

    /// Decodes an event.
    pub fn from_event(event: &Event) -> (result: Result<Entry, DecodeError>)
        ensures
            agrees(result, carried(*event)),
            result matches Ok(entry) ==> entry.well_formed(),
    {
        match data_of(event) {
            Some(data) => match document_of(data) {
                Some(document) => Entry::from_document(&document),
                None => Err(DecodeError::MalformedJson),
            },
            None => Err(DecodeError::MissingData),
        }
    }

    /// Decodes the payload of an event.
    pub fn decode(bytes: &[u8]) -> (result: Result<Entry, DecodeError>)
        ensures
            agrees(result, decoded(bytes@)),
            result matches Ok(entry) ==> entry.well_formed(),
    {
        match parse(bytes) {
            Some(document) => Entry::from_document(&document),
            None => Err(DecodeError::MalformedJson),
        }
    }

    /// The secret that the entry is about.
    pub fn secret(&self) -> (result: Result<SecretIdentifier, DecodeError>)
        ensures
            agrees(result, identified(self@.proto_payload.resource_name)),
            result is Ok <==> self.well_formed(),
    {
        SecretIdentifier::parse(self.proto_payload.resource_name.as_str())
    }
}

} // verus!
