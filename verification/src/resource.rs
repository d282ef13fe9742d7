//! Resource names of secret versions, and what they identify.

use crate::error::DecodeError;
use crate::text::{
    joined, lemma_joined_segments, lemma_segments_of_joined, plain, segments, split, SEPARATOR,
};
use crate::views::agrees;
use vstd::prelude::*;

verus! {

/// Which secret of which project a rotation event is about.
#[derive(Clone, Debug, PartialEq, Eq)]
pub struct SecretIdentifier {
    pub project: String,
    pub secret_name: String,
}

/// What a [`SecretIdentifier`] holds.
pub struct SecretIdentifierView {
    pub project: Seq<char>,
    pub secret_name: Seq<char>,
}

impl View for SecretIdentifier {
    type V = SecretIdentifierView;

    open spec fn view(&self) -> SecretIdentifierView {
        SecretIdentifierView { project: self.project@, secret_name: self.secret_name@ }
    }
}

/// The fewest segments that a secret version's resource name can have:
/// `projects/{project}/secrets/{secret}`, with or without a version behind it.
pub const MIN_SEGMENTS: usize = 4;

/// The position of the project among the segments of a resource name.
pub const PROJECT_SEGMENT: usize = 1;

/// The position of the secret's name among the segments of a resource name.
pub const SECRET_SEGMENT: usize = 3;

/// What a resource name identifies: its segments are read by position, and a
/// name with too few of them identifies nothing.
pub open spec fn identified(resource: Seq<char>) -> Result<SecretIdentifierView, DecodeError> {
    let parts = segments(resource);
    if parts.len() < MIN_SEGMENTS {
        Err(DecodeError::InvalidResourceName)
    } else {
        Ok(
            SecretIdentifierView {
                project: parts[PROJECT_SEGMENT as int],
                secret_name: parts[SECRET_SEGMENT as int],
            },
        )
    }
}

/// A resource name is read by position, whatever its words are: of four or
/// more plain parts the second is the project and the fourth the secret; of
/// fewer than four parts nothing is read.
pub proof fn lemma_identified_by_position(parts: Seq<Seq<char>>)
    requires
        parts.len() >= 1,
        plain(parts),
    ensures
        parts.len() >= MIN_SEGMENTS ==> identified(joined(parts)) == Ok::<
            SecretIdentifierView,
            DecodeError,
        >(
            SecretIdentifierView {
                project: parts[PROJECT_SEGMENT as int],
                secret_name: parts[SECRET_SEGMENT as int],
            },
        ),
        parts.len() < MIN_SEGMENTS ==> identified(joined(parts)) == Err::<
            SecretIdentifierView,
            DecodeError,
        >(DecodeError::InvalidResourceName),
{
    lemma_segments_of_joined(parts);
}

/// A resource name is refused exactly if it has fewer than four segments,
/// and what is read of it holds no separator.
pub proof fn lemma_identified_or_short(resource: Seq<char>)
    ensures
        identified(resource) is Err <==> segments(resource).len() < MIN_SEGMENTS,
        identified(resource) matches Ok(id) ==> !id.project.contains(SEPARATOR)
            && !id.secret_name.contains(SEPARATOR),
{
    lemma_joined_segments(resource);
}

impl SecretIdentifier {
    /// Reads the project and the secret's name out of a resource name of the form
    /// `projects/{project}/secrets/{secret}/versions/{version}`.
    pub fn parse(resource: &str) -> (result: Result<SecretIdentifier, DecodeError>)
        ensures
            agrees(result, identified(resource@)),
            result is Err <==> segments(resource@).len() < MIN_SEGMENTS,
    {
        let parts = split(resource);
        if parts.len() < MIN_SEGMENTS {
            return Err(DecodeError::InvalidResourceName);
        }
        Ok(
            SecretIdentifier {
                project: parts[PROJECT_SEGMENT].to_owned(),
                secret_name: parts[SECRET_SEGMENT].to_owned(),
            },
        )
    }
}

} // verus!
