//! One command's worth of selection work: the store as it was read, the
//! backend's listing as it came, and what is to be done about them.

use vstd::prelude::*;
use vstd::utf8::{decode_utf8, valid_utf8};
use crate::error::Error;
use crate::players::{player_lines, player_lines_are_names, PlayerSet};
use crate::selection::{
    resolve, resolved, still_valid, switch, switch_selects_running, switched, Decision,
    SwitchPolicy,
};
use crate::store::{loaded, Store};

verus! {

/// The players that the bytes of a backend listing name.
pub open spec fn listed(listing: Seq<u8>) -> Seq<Seq<char>> {
    player_lines(decode_utf8(listing))
}

/// Why nothing can be selected from a listing, if nothing can: it is no
/// text, or it names no player.
pub open spec fn refusal(listing: Seq<u8>) -> Option<Error> {
    if !valid_utf8(listing) {
        Some(Error::BackendProtocolError)
    } else if listed(listing).len() == 0 {
        Some(Error::NoPlayersAvailable)
    } else {
        None
    }
}

/// The first player of a listing is a valid identifier.
proof fn first_listed_is_valid(listing: Seq<u8>)
    requires
        listed(listing).len() > 0,
    ensures
        listed(listing)[0].len() > 0,
{
    player_lines_are_names(decode_utf8(listing), 0);
}

/// Repairs the stored selection against a fresh listing of the backend,
/// before any command is served.
///
/// A stored selection that names a listed player stays and the store is left
/// alone. Otherwise the first listed player is stored. Either way the store
/// then loads as a listed player. Where the listing is no text or names no
/// player, the store is left alone and the reason is returned.
pub fn repair(store: &mut Store, listing: Vec<u8>) -> (outcome: Result<Decision, Error>)
    ensures
        match outcome {
            Ok(decision) => {
                &&& refusal(listing@) is None
                &&& decision.selection@ == resolved(loaded(old(store)@), listed(listing@))
                &&& decision.persist == !still_valid(loaded(old(store)@), listed(listing@))
                &&& !decision.broadcast
                &&& final(store)@ == if decision.persist {
                    Some(decision.selection@)
                } else {
                    old(store)@
                }
                &&& loaded(final(store)@) == Some(decision.selection@)
                &&& listed(listing@).contains(decision.selection@)
            },
            Err(e) => refusal(listing@) == Some(e) && final(store)@ == old(store)@,
        },
{
    let live = PlayerSet::from_backend(listing)?;
    let decision = resolve(store.load(), &live)?;
    store.record(&decision);
    proof {
        first_listed_is_valid(listing@);
        assert(live@[0] == live@.first());
    }
    Ok(decision)
}

/// Moves the stored selection as `policy` says, against a fresh listing of
/// the backend.
///
/// The outcome of the switch is stored whether or not it differs from what
/// was stored, and is to be broadcast. Where the listing is no text or names
/// no player, the store is left alone and the reason is returned.
pub fn switch_stored(store: &mut Store, listing: Vec<u8>, policy: SwitchPolicy) -> (outcome: Result<
    Decision,
    Error,
>)
    ensures
        match outcome {
            Ok(decision) => {
                &&& refusal(listing@) is None
                &&& decision.selection@ == switched(
                    loaded(old(store)@),
                    listed(listing@),
                    policy,
                )
                &&& decision.persist
                &&& decision.broadcast
                &&& final(store)@ == Some(decision.selection@)
            },
            Err(e) => refusal(listing@) == Some(e) && final(store)@ == old(store)@,
        },
{
    let live = PlayerSet::from_backend(listing)?;
    let decision = switch(store.load(), &live, policy)?;
    store.record(&decision);
    Ok(decision)
}

/// A switch on a store that was repaired against the same listing ends on a
/// listed player, whatever the policy.
pub proof fn switch_after_repair_selects_listed(
    stored: Option<Seq<char>>,
    live: Seq<Seq<char>>,
    policy: SwitchPolicy,
)
    requires
        live.len() > 0,
    ensures
        live.contains(switched(Some(resolved(stored, live)), live, policy)),
{
    assert(live[0] == live.first());
    switch_selects_running(Some(resolved(stored, live)), live, policy);
}

} // verus!
