//! Which player is current: repairing the persisted choice against the
//! running players, and moving it on request.

use vstd::arithmetic::div_mod::{lemma_mod_add_multiples_vanish, lemma_mod_self_0, lemma_small_mod};
use vstd::prelude::*;
use crate::error::Error;
use crate::players::PlayerSet;
use crate::text::text_of;

verus! {

/// How a switch picks the new selection.
#[derive(Debug, Clone, PartialEq, Eq)]
pub enum SwitchPolicy {
    /// The player with this identifier, if it is running.
    Named(String),
    /// The player after the current one, the first after the last.
    Next,
    /// The player before the current one, the last before the first.
    Previous,
}

impl SwitchPolicy {
    /// The policy that the switch command's options ask for: the named player
    /// where one is named, else the previous one where `back` is set, else
    /// the next one.
    pub open spec fn chosen_by(player: Option<String>, back: bool) -> SwitchPolicy {
        match player {
            Some(id) => SwitchPolicy::Named(id),
            None => if back {
                SwitchPolicy::Previous
            } else {
                SwitchPolicy::Next
            },
        }
    }

    /// The policy that the switch command's options ask for. Asking for the
    /// next player is the default, so that flag changes nothing.
    pub fn from_flags(player: Option<String>, _next: bool, back: bool) -> (policy: SwitchPolicy)
        ensures
            policy == SwitchPolicy::chosen_by(player, back),
    {
        match player {
            Some(id) => SwitchPolicy::Named(id),
            None => if back {
                SwitchPolicy::Previous
            } else {
                SwitchPolicy::Next
            },
        }
    }
}

/// What a resolve or a switch settled on, and what is to be done about it.
#[derive(Debug, Clone, PartialEq, Eq)]
pub struct Decision {
    /// The player that is current from now on.
    pub selection: String,
    /// Whether the selection has to be written to the store.
    pub persist: bool,
    /// Whether the other running instances have to be told.
    pub broadcast: bool,
}

/// Whether the persisted selection names a running player.
pub open spec fn still_valid(persisted: Option<Seq<char>>, live: Seq<Seq<char>>) -> bool {
    match persisted {
        Some(id) => live.contains(id),
        None => false,
    }
}

/// The selection after a repair: the persisted one while it names a running
/// player, else the first running player.
pub open spec fn resolved(persisted: Option<Seq<char>>, live: Seq<Seq<char>>) -> Seq<char>
    recommends
        live.len() > 0,
{
    if still_valid(persisted, live) {
        persisted->0
    } else {
        live[0]
    }
}

/// The selection `step` places after the first occurrence of the persisted
/// one, counted round the list; none where the persisted one is absent or
/// not running.
pub open spec fn rotated(persisted: Option<Seq<char>>, live: Seq<Seq<char>>, step: int) -> Option<
    Seq<char>,
> {
    match persisted {
        Some(current) => match live.index_of_first(current) {
            Some(i) => Some(live[(i + step) % (live.len() as int)]),
            None => None,
        },
        None => None,
    }
}

/// What the policy alone arrives at; `None` where it arrives at nothing:
/// a name that is not running beside an absent selection, or a step from a
/// selection that is absent or not running.
pub open spec fn policy_target(
    persisted: Option<Seq<char>>,
    live: Seq<Seq<char>>,
    policy: SwitchPolicy,
) -> Option<Seq<char>> {
    match policy {
        SwitchPolicy::Named(id) => if live.contains(id@) {
            Some(id@)
        } else {
            persisted
        },
        SwitchPolicy::Next => rotated(persisted, live, 1),
        SwitchPolicy::Previous => rotated(persisted, live, live.len() - 1),
    }
}

/// Whether a switch that arrives at `id` ends on it. An empty identifier is
/// no selection and gives way to the first running player, which may be `id`
/// all the same.
pub open spec fn holds_as_selection(id: Seq<char>, live: Seq<Seq<char>>) -> bool {
    id.len() > 0 || (live.len() > 0 && live[0] == id)
}

/// The selection after a switch: what the policy arrives at, or the first
/// running player where it arrives at nothing or at an empty identifier.
pub open spec fn switched(
    persisted: Option<Seq<char>>,
    live: Seq<Seq<char>>,
    policy: SwitchPolicy,
) -> Seq<char>
    recommends
        live.len() > 0,
{
    match policy_target(persisted, live, policy) {
        Some(id) => if id.len() > 0 {
            id
        } else {
            live[0]
        },
        None => live[0],
    }
}

/// A persisted selection that names a running player is kept as it is, and
/// nothing is to be written.
pub proof fn resolve_keeps_running_selection(persisted: Seq<char>, live: Seq<Seq<char>>)
    requires
        live.contains(persisted),
    ensures
        resolved(Some(persisted), live) == persisted,
        still_valid(Some(persisted), live),
{
}

/// A persisted selection that is absent or names no running player is
/// replaced by the first running player, which is to be written.
pub proof fn resolve_repairs_to_first(persisted: Option<Seq<char>>, live: Seq<Seq<char>>)
    requires
        live.len() > 0,
        persisted matches Some(id) ==> !live.contains(id),
    ensures
        resolved(persisted, live) == live[0],
        !still_valid(persisted, live),
{
}

/// Whatever was persisted, the repaired selection names a running player.
pub proof fn resolve_selects_running(persisted: Option<Seq<char>>, live: Seq<Seq<char>>)
    requires
        live.len() > 0,
    ensures
        live.contains(resolved(persisted, live)),
{
    assert(live[0] == live.first());
}

/// From the first place at which the current player stands, `Next` selects
/// the player one place on, and from the last place the first.
pub proof fn switch_next_steps_forward(live: Seq<Seq<char>>, i: int)
    requires
        0 <= i < live.len(),
        forall|j: int| 0 <= j < i ==> live[j] != live[i],
        holds_as_selection(live[(i + 1) % (live.len() as int)], live),
    ensures
        switched(Some(live[i]), live, SwitchPolicy::Next) == live[(i + 1) % (live.len() as int)],
{
    live.index_of_first_ensures(live[i]);
}

/// From the first place at which the current player stands, `Previous`
/// selects the player one place back, and from the first place the last.
pub proof fn switch_previous_steps_back(live: Seq<Seq<char>>, i: int)
    requires
        0 <= i < live.len(),
        forall|j: int| 0 <= j < i ==> live[j] != live[i],
        holds_as_selection(live[(i - 1 + live.len()) % (live.len() as int)], live),
    ensures
        switched(Some(live[i]), live, SwitchPolicy::Previous) == live[(i - 1 + live.len()) % (
        live.len() as int)],
{
    live.index_of_first_ensures(live[i]);
}

/// `Named` selects the named player whenever it is running, whatever was
/// selected before.
pub proof fn switch_named_selects_running(
    persisted: Option<Seq<char>>,
    live: Seq<Seq<char>>,
    id: String,
)
    requires
        live.contains(id@),
        holds_as_selection(id@, live),
    ensures
        switched(persisted, live, SwitchPolicy::Named(id)) == id@,
{
}

/// `Named` with a name that is not running leaves a selection as it was,
/// running or not.
pub proof fn switch_named_keeps_selection(persisted: Seq<char>, live: Seq<Seq<char>>, id: String)
    requires
        !live.contains(id@),
        persisted.len() > 0,
    ensures
        switched(Some(persisted), live, SwitchPolicy::Named(id)) == persisted,
{
}

/// `Next` and `Previous` from a selection that is absent or not running do
/// not step: they take the first running player.
pub proof fn switch_without_place_takes_first(
    persisted: Option<Seq<char>>,
    live: Seq<Seq<char>>,
    policy: SwitchPolicy,
)
    requires
        !(policy is Named),
        persisted matches Some(id) ==> !live.contains(id),
    ensures
        switched(persisted, live, policy) == live[0],
{
    match persisted {
        Some(id) => {
            live.index_of_first_ensures(id);
        },
        None => {},
    }
}

/// A switch ends on a running player, unless it is asked for a name that is
/// not running while the selection is a stale one, which it then keeps.
pub proof fn switch_selects_running(
    persisted: Option<Seq<char>>,
    live: Seq<Seq<char>>,
    policy: SwitchPolicy,
)
    requires
        live.len() > 0,
        policy matches SwitchPolicy::Named(id) ==> live.contains(id@) || !(persisted matches Some(p)
            && p.len() > 0 && !live.contains(p)),
    ensures
        live.contains(switched(persisted, live, policy)),
{
    assert(live[0] == live.first());
    match persisted {
        Some(id) => {
            live.index_of_first_ensures(id);
            if live.contains(id) {
                let i = live.index_of_first(id)->0;
                let n = live.len() as int;
                assert(0 <= (i + 1) % n < n);
                assert(0 <= (i + (n - 1)) % n < n);
                assert(live.contains(live[(i + 1) % n]));
                assert(live.contains(live[(i + (n - 1)) % n]));
            }
        },
        None => {},
    }
}

/// Validates the persisted selection against the running players and repairs
/// it where it is absent or stale.
///
/// A selection that still names a running player is kept and nothing is to be
/// written. Otherwise the first running player is chosen and has to be
/// persisted. With no player running there is nothing to choose from.
pub fn resolve(persisted: Option<String>, live: &PlayerSet) -> (outcome: Result<Decision, Error>)
    ensures
        live@.len() == 0 ==> outcome == Err::<Decision, Error>(Error::NoPlayersAvailable),
        live@.len() > 0 ==> match outcome {
            Ok(decision) => {
                &&& decision.selection@ == resolved(text_of(persisted), live@)
                &&& decision.persist == !still_valid(text_of(persisted), live@)
                &&& !decision.broadcast
            },
            Err(_) => false,
        },
{
    if live.is_empty() {
        return Err(Error::NoPlayersAvailable);
    }
    match persisted {
        Some(id) => {
            if live.has(id.as_str()) {
                Ok(Decision { selection: id, persist: false, broadcast: false })
            } else {
                Ok(Decision { selection: live.at(0).clone(), persist: true, broadcast: false })
            }
        },
        None => Ok(Decision { selection: live.at(0).clone(), persist: true, broadcast: false }),
    }
}

/// The place one after `i` in a list of `n`, the first after the last.
fn place_after(i: usize, n: usize) -> (j: usize)
    requires
        i < n,
    ensures
        j == (i + 1) % (n as int),
        j < n,
{
    if i + 1 == n {
        proof {
            lemma_mod_self_0(n as int);
        }
        0
    } else {
        proof {
            lemma_small_mod((i + 1) as nat, n as nat);
        }
        i + 1
    }
}

/// The place one before `i` in a list of `n`, the last before the first.
fn place_before(i: usize, n: usize) -> (j: usize)
    requires
        i < n,
    ensures
        j == (i + (n - 1)) % (n as int),
        j < n,
{
    if i == 0 {
        proof {
            lemma_small_mod((n - 1) as nat, n as nat);
        }
        n - 1
    } else {
        proof {
            lemma_mod_add_multiples_vanish(i - 1, n as int);
            lemma_small_mod((i - 1) as nat, n as nat);
        }
        i - 1
    }
}

/// Moves the selection as the policy says.
///
/// `Named` takes the given player if it is running and otherwise leaves the
/// selection as it was. `Next` and `Previous` step from the first place at
/// which the persisted selection stands, round the ends of the list; from a
/// selection that is absent or not running there is no step. Where that
/// leaves no selection, or an empty one, the first running player is taken.
/// The outcome is always to be persisted and broadcast, whether or not it
/// differs from before.
pub fn switch(persisted: Option<String>, live: &PlayerSet, policy: SwitchPolicy) -> (outcome: Result<
    Decision,
    Error,
>)
    ensures
        live@.len() == 0 ==> outcome == Err::<Decision, Error>(Error::NoPlayersAvailable),
        live@.len() > 0 ==> match outcome {
            Ok(decision) => {
                &&& decision.selection@ == switched(text_of(persisted), live@, policy)
                &&& decision.persist
                &&& decision.broadcast
            },
            Err(_) => false,
        },
{
    if live.is_empty() {
        return Err(Error::NoPlayersAvailable);
    }
    let n = live.len();
    let target: Option<String> = match policy {
        SwitchPolicy::Named(id) => {
            if live.has(id.as_str()) {
                Some(id)
            } else {
                persisted
            }
        },
        SwitchPolicy::Next => match persisted {
            Some(current) => match live.position(current.as_str()) {
                Some(i) => Some(live.at(place_after(i, n)).clone()),
                None => None,
            },
            None => None,
        },
        SwitchPolicy::Previous => match persisted {
            Some(current) => match live.position(current.as_str()) {
                Some(i) => Some(live.at(place_before(i, n)).clone()),
                None => None,
            },
            None => None,
        },
    };
    let selection = match target {
        Some(id) => if id.as_str().is_empty() {
            live.at(0).clone()
        } else {
            id
        },
        None => live.at(0).clone(),
    };
    Ok(Decision { selection, persist: true, broadcast: true })
}

} // verus!
