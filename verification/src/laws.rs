use vstd::prelude::*;
use crate::identity::Identity;
use crate::sale::{State, authorized, initial_state, start_result, end_result};

verus! {

/// Law: an owner may start a sale, end it, and start it again. Because
/// `start_sale` and `end_sale` leave the vault and the signer untouched,
/// one authorized caller stays authorized across the whole sequence, and
/// each call succeeds; composing their transitions from any lifecycle
/// leaves the sale reopened: started and not ended.
pub proof fn lemma_lifecycle_reopen(admin: Identity, owner: Identity, s0: State)
    requires
        authorized(admin, owner),
    ensures
        start_result(end_result(start_result(s0))) == (State { started: true, ended: false }),
        end_result(start_result(s0)) == (State { started: true, ended: true }),
{
}

/// Law: ending a sale that was never started succeeds and yields the one
/// lifecycle reading that no legal transition path otherwise produces:
/// ended but not started. No ordering guard forbids it.
pub proof fn lemma_end_before_start()
    ensures
        end_result(initial_state()) == (State { started: false, ended: true }),
{
}

} // verus!
