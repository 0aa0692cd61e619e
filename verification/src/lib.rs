//! Core logic of a Discord bot that runs a small capture-the-flag event.
//!
//! Administrators register challenges (a display name plus a secret flag
//! string); participants submit flag guesses through a modal form and are
//! told whether the guess matches a stored challenge exactly. A secondary
//! feature lets administrators post and edit bot-authored channel messages
//! through modal forms.
//!
//! This crate holds everything that can be stated and proved: the challenge
//! store, the permission guard, field extraction from submitted forms,
//! decimal identifier parsing, interaction routing, and each handler's
//! decision logic. The gateway connection, the modal and embed construction,
//! and the locking around the shared store are the surrounding binary's
//! plumbing: it feeds plain values in and carries the decided responses out.

use vstd::prelude::*;

pub mod challenges;
pub mod db;
pub mod interaction;
pub mod messages;
pub mod parse;
pub mod perm;
pub mod router;
pub mod text;

use crate::db::DbError;

verus! {

/// Why a handler declined or failed an interaction. The router logs the
/// value and contains the failure to that one interaction; user-visible
/// responses stay generic and disclose no detail.
#[derive(Debug)]
pub enum InteractionError {
    /// The payload does not match the expected shape: a missing row, field
    /// or option, a component of the wrong type, or an unparseable
    /// identifier. Defensively checked even though the declared schema
    /// should make it unreachable.
    UnprocessableRequest,
    /// The invoking member lacks the administrative role, or no member
    /// context was available at all (for example, a direct message).
    Permissions,
    /// The remote messaging service reported a failure, described in words.
    Remote(String),
    /// The challenge store failed.
    Db(DbError),
    /// Anything else, such as an unroutable command name or modal
    /// identifier, described in words.
    Other(String),
}

/// The result every interaction handler ultimately reduces to: done, or a
/// contained, logged failure.
pub type InteractionResult = Result<(), InteractionError>;

impl From<DbError> for InteractionError {
    fn from(e: DbError) -> Self {
        InteractionError::Db(e)
    }
}

impl vstd::std_specs::convert::FromSpecImpl<DbError> for InteractionError {
    open spec fn obeys_from_spec() -> bool {
        true
    }

    open spec fn from_spec(e: DbError) -> Self {
        InteractionError::Db(e)
    }
}

} // verus!
