use vstd::prelude::*;

use crate::contract::{step, step_add_bonus, step_guess, step_reset, step_start, Event};
use crate::error::ContractError;
use crate::msg::ExecuteMsg;
use crate::state::{init_state, StateModel};

verus! {

/// The record one invocation leaves behind: the transition's result when it
/// succeeds, the record unchanged when it fails.
pub open spec fn apply(m: StateModel, e: Event) -> StateModel {
    match step(m, e) {
        Ok(n) => n,
        Err(_) => m,
    }
}

/// The record a whole sequence of invocations leaves behind.
pub open spec fn run(m: StateModel, es: Seq<Event>) -> StateModel
    decreases es.len(),
{
    if es.len() == 0 {
        m
    } else {
        apply(run(m, es.drop_last()), es.last())
    }
}

/// Event `es[k]`'s transition commits (does not abort) in the run from `m`.
pub open spec fn succeeds_at(m: StateModel, es: Seq<Event>, k: int) -> bool
    recommends
        0 <= k < es.len(),
{
    step(run(m, es.take(k)), es[k]) is Ok
}

/// Splitting a run after its first `k` events: the record after `k + 1` events
/// is one invocation applied to the record after `k` events.
pub proof fn lemma_run_take_succ(m: StateModel, es: Seq<Event>, k: int)
    requires
        0 <= k < es.len(),
    ensures
        run(m, es.take(k + 1)) == apply(run(m, es.take(k)), es[k]),
{
    assert(es.take(k + 1).drop_last() =~= es.take(k));
    assert(es.take(k + 1).last() == es[k]);
}

/// The pool covers what the bettor has paid in.
pub open spec fn pool_covers_paid(m: StateModel) -> bool {
    m.user_payed <= m.bonus
}

/// Along the run from `m`, every reset that commits does so while nothing of
/// the bettor's money is held. (A reset empties the pool but carries the paid
/// amount over, so a reset committed over a nonzero paid amount is the one
/// transition that leaves the paid amount above the pool.)
pub open spec fn resets_only_unpaid(m: StateModel, es: Seq<Event>) -> bool
    decreases es.len(),
{
    if es.len() == 0 {
        true
    } else {
        resets_only_unpaid(m, es.drop_last()) && ((es.last().msg is Reset && step(
            run(m, es.drop_last()),
            es.last(),
        ) is Ok) ==> run(m, es.drop_last()).user_payed == 0)
    }
}

/// A shorter run keeps the discipline of its extension.
pub proof fn lemma_resets_only_unpaid_prefix(m: StateModel, es: Seq<Event>, k: int)
    requires
        0 <= k <= es.len(),
        resets_only_unpaid(m, es),
    ensures
        resets_only_unpaid(m, es.take(k)),
    decreases es.len() - k,
{
    if k == es.len() {
        assert(es.take(k) =~= es);
    } else {
        lemma_resets_only_unpaid_prefix(m, es, k + 1);
        assert(es.take(k + 1).drop_last() =~= es.take(k));
    }
}

proof fn lemma_pool_covers_paid_run(m: StateModel, es: Seq<Event>)
    requires
        pool_covers_paid(m),
        resets_only_unpaid(m, es),
    ensures
        pool_covers_paid(run(m, es)),
    decreases es.len(),
{
    if es.len() > 0 {
        lemma_pool_covers_paid_run(m, es.drop_last());
    }
}

/// The paid amount never exceeds the pool: after every committed transition of
/// any sequence of invocations from creation, `user_payed <= bonus` — provided
/// every committed reset happens while the paid amount is zero.
pub proof fn lemma_paid_never_exceeds_pool(owner: Seq<char>, es: Seq<Event>)
    requires
        resets_only_unpaid(init_state(owner), es),
    ensures
        forall|k: int|
            0 <= k <= es.len() ==> pool_covers_paid(#[trigger] run(init_state(owner), es.take(k))),
{
    assert forall|k: int|
        0 <= k <= es.len() implies pool_covers_paid(
        #[trigger] run(init_state(owner), es.take(k)),
    ) by {
        lemma_resets_only_unpaid_prefix(init_state(owner), es, k);
        lemma_pool_covers_paid_run(init_state(owner), es.take(k));
    }
}

/// Whether some wager has committed since the last committed reset (or since
/// creation, when no reset ever committed) along the run from `m`.
pub open spec fn wager_since_reset(m: StateModel, es: Seq<Event>, since_start: bool) -> bool
    decreases es.len(),
{
    if es.len() == 0 {
        since_start
    } else {
        let before = wager_since_reset(m, es.drop_last(), since_start);
        if step(run(m, es.drop_last()), es.last()) is Ok {
            match es.last().msg {
                ExecuteMsg::Guess { .. } => true,
                ExecuteMsg::Reset { .. } => false,
                _ => before,
            }
        } else {
            before
        }
    }
}

proof fn lemma_bettor_tracks_wagers(m: StateModel, es: Seq<Event>, since_start: bool)
    requires
        m.user is Some <==> since_start,
    ensures
        run(m, es).user is Some <==> wager_since_reset(m, es, since_start),
    decreases es.len(),
{
    if es.len() > 0 {
        lemma_bettor_tracks_wagers(m, es.drop_last(), since_start);
    }
}

/// The bettor slot is occupied if and only if some wager has committed since
/// the last committed reset (or since creation), whatever sequence of
/// invocations ran.
pub proof fn lemma_bettor_iff_wager_since_reset(owner: Seq<char>, es: Seq<Event>)
    ensures
        run(init_state(owner), es).user is Some <==> wager_since_reset(
            init_state(owner),
            es,
            false,
        ),
{
    lemma_bettor_tracks_wagers(init_state(owner), es, false);
}

/// Once a round is settled, it stays settled until a reset commits: no other
/// transition clears the settled flag.
proof fn lemma_settled_sticks(owner: Seq<char>, es: Seq<Event>, i: int, t: int)
    requires
        0 <= i < t <= es.len(),
        es[i].msg is Lottery,
        succeeds_at(init_state(owner), es, i),
        forall|k: int|
            i < k < t ==> !(es[k].msg is Reset && #[trigger] succeeds_at(init_state(owner), es, k)),
    ensures
        run(init_state(owner), es.take(t)).is_lottery,
    decreases t - i,
{
    if t == i + 1 {
        lemma_run_take_succ(init_state(owner), es, i);
    } else {
        lemma_settled_sticks(owner, es, i, t - 1);
        lemma_run_take_succ(init_state(owner), es, t - 1);
        assert(!(es[t - 1].msg is Reset && succeeds_at(init_state(owner), es, t - 1)));
    }
}

/// Resolution never commits twice in a row: between any two committed
/// `Lottery` transitions there is a committed `Reset`.
pub proof fn lemma_resolve_needs_reset_between(owner: Seq<char>, es: Seq<Event>, i: int, j: int)
    requires
        0 <= i < j < es.len(),
        es[i].msg is Lottery,
        succeeds_at(init_state(owner), es, i),
        es[j].msg is Lottery,
        succeeds_at(init_state(owner), es, j),
    ensures
        exists|k: int|
            i < k < j && es[k].msg is Reset && #[trigger] succeeds_at(init_state(owner), es, k),
{
    if !(exists|k: int|
        i < k < j && es[k].msg is Reset && #[trigger] succeeds_at(init_state(owner), es, k)) {
        assert forall|k: int|
            i < k < j implies !(es[k].msg is Reset && #[trigger] succeeds_at(
            init_state(owner),
            es,
            k,
        )) by {
            if es[k].msg is Reset && succeeds_at(init_state(owner), es, k) {
                assert(i < k < j && es[k].msg is Reset && succeeds_at(init_state(owner), es, k));
            }
        }
        lemma_settled_sticks(owner, es, i, j);
        assert(step(run(init_state(owner), es.take(j)), es[j]) is Err);
    }
}

/// Start, bonus funding and reset refuse any caller but the owner: from any
/// record they never commit for another account, and they fail with
/// `Unauthorized` — except that reset's round-in-progress precheck comes
/// first, so over an open, claimed round reset fails with `IsPlaying` instead.
pub proof fn lemma_owner_only_transitions(
    m: StateModel,
    sender: Seq<char>,
    amount: nat,
    number: int,
)
    requires
        sender != m.owner,
    ensures
        step_start(m, sender) == Err::<StateModel, ContractError>(ContractError::Unauthorized),
        step_add_bonus(m, sender, amount) == Err::<StateModel, ContractError>(
            ContractError::Unauthorized,
        ),
        step_reset(m, sender, number) is Err,
        !(m.is_playing && m.user is Some) ==> step_reset(m, sender, number) == Err::<
            StateModel,
            ContractError,
        >(ContractError::Unauthorized),
{
}

/// A wager whose attached amount does not complete the pool exactly never
/// commits, whatever amount was attempted; when the round is open, unresolved
/// and the caller holds (or may claim) the bettor slot, the failure is the
/// payment mismatch error.
pub proof fn lemma_wager_amount_mismatch(
    m: StateModel,
    sender: Seq<char>,
    is_odd: bool,
    amount: nat,
)
    requires
        m.user_payed + amount != m.bonus,
    ensures
        step_guess(m, sender, is_odd, amount) is Err,
        (m.is_playing && !m.is_lottery && (m.user is None || m.user.unwrap() == sender))
            ==> step_guess(m, sender, is_odd, amount) == Err::<StateModel, ContractError>(
            ContractError::Pay,
        ),
{
}

/// A settled round is always closed and always has a bettor on record:
/// `is_lottery` implies `is_playing` is clear and `user` is present, after any
/// sequence of invocations from creation.
pub open spec fn settled_round_closed(m: StateModel) -> bool {
    m.is_lottery ==> (!m.is_playing && m.user is Some)
}

proof fn lemma_settled_round_closed_run(m: StateModel, es: Seq<Event>)
    requires
        settled_round_closed(m),
    ensures
        settled_round_closed(run(m, es)),
    decreases es.len(),
{
    if es.len() > 0 {
        lemma_settled_round_closed_run(m, es.drop_last());
    }
}

/// A resolved round is never simultaneously open: after every committed
/// transition from creation, `is_lottery` implies `is_playing` is clear.
pub proof fn lemma_settled_round_closed(owner: Seq<char>, es: Seq<Event>)
    ensures
        forall|k: int|
            0 <= k <= es.len() ==> settled_round_closed(
                #[trigger] run(init_state(owner), es.take(k)),
            ),
{
    assert forall|k: int|
        0 <= k <= es.len() implies settled_round_closed(
        #[trigger] run(init_state(owner), es.take(k)),
    ) by {
        lemma_settled_round_closed_run(init_state(owner), es.take(k));
    }
}

} // verus!
