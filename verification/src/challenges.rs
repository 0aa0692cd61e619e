//! Handlers for the challenge commands: submitting a flag guess and, for
//! administrators, registering a new challenge.
//!
//! Each handler here is the decision half of an interaction: it checks
//! permissions, extracts the submitted fields positionally, consults the
//! store, and says what response is owed. Presenting the modal forms and
//! sending the decided response are the caller's I/O.

use vstd::prelude::*;
use vstd::string::StringExecFns;

use crate::InteractionError;
use crate::db::Database;
use crate::db::models::Challenge;
use crate::db::models::flag_index;
use crate::interaction::ModalSubmission;
use crate::interaction::text_at;
use crate::interaction::text_field;
use crate::perm::has_admin_role;
use crate::perm::holds_admin_role;
use crate::perm::roles_view;

verus! {

/// The decided response to a flag submission.
pub enum FlagOutcome {
    /// The guess matched a stored flag: answer with the "correct" embed,
    /// naming the matched challenge and mentioning the submitter.
    Correct { challenge_name: String },
    /// No stored flag equals the guess: answer with the "incorrect" embed.
    Incorrect,
}

/// The body of the "correct" embed: it mentions the submitter (the caller
/// supplies the rendered mention) and names the matched challenge.
pub fn scored_description(mention: &str, challenge_name: &str) -> (r: String)
    ensures
        r@ == mention@ + " has scored the flag for challenge **"@ + challenge_name@ + "**"@,
{
    let mut s: String = mention.to_owned();
    s.append(" has scored the flag for challenge **");
    s.append(challenge_name);
    s.append("**");
    s
}

/// Decides the add-challenge command: only a holder of the administrative
/// role may be shown the add-challenge modal; anyone else is denied before
/// any modal appears.
pub fn cmd_addchallenge(member_roles: &Option<Vec<u64>>, admin_role_id: u64) -> (r: Result<
    (),
    InteractionError,
>)
    ensures
        match r {
            Ok(_) => holds_admin_role(roles_view(*member_roles), admin_role_id),
            Err(e) => !holds_admin_role(roles_view(*member_roles), admin_role_id) && e matches
                InteractionError::Permissions,
        },
{
    if has_admin_role(member_roles, admin_role_id) {
        Ok(())
    } else {
        Err(InteractionError::Permissions)
    }
}

/// Handles a submitted add-challenge modal. The submitting member's roles
/// are re-checked — submitting the modal is not itself proof of
/// authorization. The name is read from the first row's first field and the
/// flag from the second row's first field; a missing or non-text field fails
/// the submission. On success exactly one row, holding the submitted name
/// and flag under the next id, is appended to the store; on any failure the
/// store is untouched.
pub fn modal_chal_add_response(
    db: &mut Database,
    submission: &ModalSubmission,
    admin_role_id: u64,
) -> (r: Result<(), InteractionError>)
    requires
        old(db).wf(),
        old(db).can_insert(),
    ensures
        final(db).wf(),
        ({
            let guard = holds_admin_role(roles_view(submission.member_roles), admin_role_id);
            let name = text_at(submission.rows@, 0, 0);
            let flag = text_at(submission.rows@, 1, 0);
            match r {
                Ok(_) => guard && name is Some && flag is Some
                    && final(db)@.len() == old(db)@.len() + 1
                    && (forall|i: int| 0 <= i < old(db)@.len() ==> final(db)@[i] == old(db)@[i])
                    && final(db)@.last().id as int == old(db)@.len() + 1
                    && final(db)@.last().name@ == name.unwrap()
                    && final(db)@.last().flag@ == flag.unwrap(),
                Err(e) => final(db)@ == old(db)@ && if !guard {
                    e matches InteractionError::Permissions
                } else {
                    (name is None || flag is None) && e matches
                        InteractionError::UnprocessableRequest
                },
            }
        }),
{
    if !has_admin_role(&submission.member_roles, admin_role_id) {
        return Err(InteractionError::Permissions);
    }
    let name = match text_field(&submission.rows, 0, 0) {
        Some(s) => s,
        None => {
            return Err(InteractionError::UnprocessableRequest);
        },
    };
    let flag = match text_field(&submission.rows, 1, 0) {
        Some(s) => s,
        None => {
            return Err(InteractionError::UnprocessableRequest);
        },
    };
    match Challenge::create_challenge(db, name.as_str(), flag.as_str()) {
        Ok(_) => Ok(()),
        Err(e) => Err(InteractionError::Db(e)),
    }
}

/// Handles a submitted flag-guess modal. No permission check: any user may
/// guess. The guess is read from the first row's first field and compared
/// exactly — case-sensitive, untrimmed — against the stored flags; the first
/// matching challenge's name is announced, and a miss is announced as
/// incorrect, not as an error.
pub fn modal_submit_flag_response(db: &Database, submission: &ModalSubmission) -> (r: Result<
    FlagOutcome,
    InteractionError,
>)
    ensures
        ({
            let field = text_at(submission.rows@, 0, 0);
            match r {
                Ok(out) => field matches Some(guess) && match flag_index(db@, guess) {
                    Some(i) => out matches FlagOutcome::Correct { challenge_name }
                        && challenge_name@ == db@[i].name@,
                    None => out is Incorrect,
                },
                Err(e) => field is None && e matches InteractionError::UnprocessableRequest,
            }
        }),
{
    let flag = match text_field(&submission.rows, 0, 0) {
        Some(s) => s,
        None => {
            return Err(InteractionError::UnprocessableRequest);
        },
    };
    match Challenge::get_by_flag(db, flag.as_str()) {
        Ok(Some(c)) => Ok(FlagOutcome::Correct { challenge_name: c.name }),
        Ok(None) => Ok(FlagOutcome::Incorrect),
        Err(e) => Err(InteractionError::Db(e)),
    }
}

} // verus!
