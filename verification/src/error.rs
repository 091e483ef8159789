//! The ways in which a trigger can fail.

use vstd::prelude::*;

verus! {

/// Why a step of a trigger failed.
#[derive(Clone, Copy, Debug, PartialEq, Eq, Structural)]
pub enum TrackerError {
    /// The ranking service knows no player of that handle or identifier.
    NotFound,
    /// The ranking service rejected the credential.
    AuthError,
    /// The ranking service could not be reached, failed, or answered with
    /// something that is no answer.
    UpstreamError,
    /// The store of tracked players could not be reached or failed.
    StoreError,
    /// The chat platform refused or failed a change of roles.
    RoleMutationError,
}

impl TrackerError {
    /// The words shown to the member whose command failed.
    pub open spec fn spec_reply(self) -> Seq<char> {
        match self {
            TrackerError::NotFound => "No player of that name was found."@,
            TrackerError::AuthError => "The ranking service rejected the bot's credential."@,
            TrackerError::UpstreamError => "The ranking service could not be reached."@,
            TrackerError::StoreError => "The tracked players could not be read or written."@,
            TrackerError::RoleMutationError => "The role could not be changed."@,
        }
    }

    /// The words shown to the member whose command failed.
    pub fn reply(&self) -> (r: &'static str)
        ensures
            r@ == self.spec_reply(),
    {
        match self {
            TrackerError::NotFound => "No player of that name was found.",
            TrackerError::AuthError => "The ranking service rejected the bot's credential.",
            TrackerError::UpstreamError => "The ranking service could not be reached.",
            TrackerError::StoreError => "The tracked players could not be read or written.",
            TrackerError::RoleMutationError => "The role could not be changed.",
        }
    }
}

} // verus!
