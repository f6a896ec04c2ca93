use vstd::prelude::*;

verus! {

/// The query parameter a confirmation request carries.
pub struct Parameters {
    pub subscription_token: String,
}

/// What a confirmation request does next after the token lookup.
#[derive(PartialEq, Eq, Structural, Debug)]
pub enum ConfirmAction {
    /// Finish immediately with this status.
    Respond(u16),
    /// Mark this subscriber as confirmed, then respond by the write's
    /// outcome.
    Confirm(u128),
}

/// Decides a confirmation request from the token lookup's result: a storage
/// failure is fatal (500), an unknown token is rejected (401), and a known
/// token confirms exactly the subscriber it was stored for.
pub fn confirm(lookup: Result<Option<u128>, String>) -> (r: ConfirmAction)
    ensures
        lookup is Err ==> r == ConfirmAction::Respond(500),
        lookup matches Ok(row) ==> match row {
            None => r == ConfirmAction::Respond(401),
            Some(id) => r == ConfirmAction::Confirm(id),
        },
{
    match lookup {
        Err(_) => ConfirmAction::Respond(500),
        Ok(None) => ConfirmAction::Respond(401),
        Ok(Some(id)) => ConfirmAction::Confirm(id),
    }
}

/// Decides the response once the confirmed-status write has finished: success
/// is 200, a storage failure is 500.
pub fn confirm_update_response(update: Result<(), String>) -> (r: u16)
    ensures
        update is Ok ==> r == 200,
        update is Err ==> r == 500,
{
    match update {
        Ok(()) => 200,
        Err(_) => 500,
    }
}

} // verus!
