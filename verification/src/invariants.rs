//! What holds of the contract over any run of operations.
//!
//! A run starts from some records and applies calls one after another; a
//! refused call leaves the records as they were. The theorems here are about
//! the model, and so, through the contracts of the operations, about the
//! records themselves.

use vstd::prelude::*;
use crate::accrual::{
    lemma_accrued_nothing_at_checkpoint, lemma_compounded_grows, reward_after, ONE,
};
use crate::error::StdError;
use crate::model::{
    claim_outcome, execute_outcome, index_at, instantiate_outcome, ledger_or_empty, settled,
    stake_outcome, storage_after, topped_up, unstake_outcome,
};
use crate::msg::{EnvView, ExecuteMsgView, InstantiateMsgView, MessageInfoView, ResponseView};
use crate::state::{
    distinct_users, is_first, known, ledger_of, lemma_read_after_write,
    lemma_some_entry_is_known, place, staked_sum, with_ledger, ConfigView, StakerEntryView,
    StakerInfoView, StateView, StorageView,
};

verus! {

/// One call: what the host answered, who called with what, and the operation.
pub struct Call {
    pub env: EnvView,
    pub info: MessageInfoView,
    pub msg: ExecuteMsgView,
}

/// The records after one call.
pub open spec fn step(storage: StorageView, call: Call) -> StorageView {
    storage_after(storage, execute_outcome(storage, call.env, call.info, call.msg))
}

/// The records after a run of calls.
pub open spec fn run(storage: StorageView, calls: Seq<Call>) -> StorageView
    decreases calls.len(),
{
    if calls.len() == 0 {
        storage
    } else {
        step(run(storage, calls.drop_last()), calls.last())
    }
}

/// The reward that one call takes out of a ledger: what a claim that
/// succeeded has set to zero and ordered paid, nothing otherwise.
pub open spec fn claimed(storage: StorageView, call: Call) -> nat {
    match execute_outcome(storage, call.env, call.info, call.msg) {
        Ok((_, ResponseView::Claim { payment })) => payment.amount.amount,
        _ => 0,
    }
}

/// The rewards that a run of calls takes out of the ledgers.
pub open spec fn claimed_in_run(storage: StorageView, calls: Seq<Call>) -> nat
    decreases calls.len(),
{
    if calls.len() == 0 {
        0
    } else {
        claimed_in_run(storage, calls.drop_last()) + claimed(
            run(storage, calls.drop_last()),
            calls.last(),
        )
    }
}

/// Whether the total staked is what the ledgers hold together.
pub open spec fn conserved(storage: StorageView) -> bool {
    storage.state.total_staked == staked_sum(storage.user_stakings)
}

/// Whether no ledger's checkpoint lies above the index.
pub open spec fn checkpoints_behind(storage: StorageView) -> bool {
    forall|i: int|
        0 <= i < storage.user_stakings.len() ==> storage.user_stakings[i].info.ci_0
            <= storage.state.ci_current
}

/// Whether the records are as a run from genesis leaves them: every user has
/// one ledger, the total staked is the sum of the stakes, and no checkpoint
/// lies above the index.
pub open spec fn well_formed(storage: StorageView) -> bool {
    &&& distinct_users(storage.user_stakings)
    &&& conserved(storage)
    &&& checkpoints_behind(storage)
}

/// Writing an entry in place changes the sum by the difference of the stakes.
pub proof fn lemma_sum_after_update(entries: Seq<StakerEntryView>, i: int, entry: StakerEntryView)
    requires
        0 <= i < entries.len(),
    ensures
        staked_sum(entries.update(i, entry)) + entries[i].info.staked == staked_sum(entries)
            + entry.info.staked,
    decreases entries.len(),
{
    let updated = entries.update(i, entry);
    if i == entries.len() - 1 {
        assert(updated.drop_last() =~= entries.drop_last());
    } else {
        assert(updated.drop_last() =~= entries.drop_last().update(i, entry));
        lemma_sum_after_update(entries.drop_last(), i, entry);
    }
}

/// Writing a ledger changes the sum by the difference between the new stake
/// and the one that the user had.
pub proof fn lemma_sum_after_write(
    entries: Seq<StakerEntryView>,
    user: Seq<char>,
    info: StakerInfoView,
)
    ensures
        staked_sum(with_ledger(entries, user, info)) + (match ledger_of(entries, user) {
            Some(prior) => prior.staked,
            None => 0,
        }) == staked_sum(entries) + info.staked,
{
    let entry = StakerEntryView { user, info };
    if known(entries, user) {
        let p = place(entries, user);
        assert(is_first(entries, user, p));
        lemma_sum_after_update(entries, p, entry);
    } else {
        assert(entries.push(entry).drop_last() =~= entries);
    }
}

/// Writing a ledger keeps every user at one ledger.
pub proof fn lemma_distinct_after_write(
    entries: Seq<StakerEntryView>,
    user: Seq<char>,
    info: StakerInfoView,
)
    requires
        distinct_users(entries),
    ensures
        distinct_users(with_ledger(entries, user, info)),
{
    let entry = StakerEntryView { user, info };
    let after = with_ledger(entries, user, info);
    if known(entries, user) {
        let p = place(entries, user);
        assert(is_first(entries, user, p));
        assert forall|i: int, j: int| 0 <= i < j < after.len() implies after[i].user
            != after[j].user by {
            assert(after[i].user == entries[i].user);
            assert(after[j].user == entries[j].user);
        }
    } else {
        assert forall|i: int, j: int| 0 <= i < j < after.len() implies after[i].user
            != after[j].user by {
            if j == entries.len() {
                if entries[i].user == user {
                    lemma_some_entry_is_known(entries, user, i);
                }
            }
        }
    }
}

/// Writing a ledger whose checkpoint is the new index, under an index that
/// has not fallen, keeps every checkpoint behind the index.
pub proof fn lemma_checkpoints_after_write(
    storage: StorageView,
    user: Seq<char>,
    info: StakerInfoView,
    state: StateView,
)
    requires
        checkpoints_behind(storage),
        storage.state.ci_current <= state.ci_current,
        info.ci_0 <= state.ci_current,
    ensures
        checkpoints_behind(
            StorageView {
                state,
                user_stakings: with_ledger(storage.user_stakings, user, info),
                ..storage
            },
        ),
{
    let entries = storage.user_stakings;
    let after = with_ledger(entries, user, info);
    if known(entries, user) {
        let p = place(entries, user);
        assert(is_first(entries, user, p));
    }
    assert forall|i: int| 0 <= i < after.len() implies after[i].info.ci_0
        <= state.ci_current by {
        if i < entries.len() && !(known(entries, user) && i == place(entries, user)) {
            assert(after[i] == entries[i]);
        }
    }
}

/// The index at any time is at least the index on record.
pub proof fn lemma_index_at_grows(config: ConfigView, state: StateView, now: nat)
    ensures
        match index_at(config, state, now) {
            Ok(ci) => state.ci_current <= ci,
            Err(_) => true,
        },
{
    if state.total_staked != 0 {
        let then = crate::timestamp::whole_seconds(state.ci_time_current);
        let current = crate::timestamp::whole_seconds(now);
        if then <= current {
            lemma_compounded_grows(state.ci_current, config.apr, (current - then) as nat);
        }
    }
}

/// While nothing is staked the index stands still, whatever the time.
pub proof fn lemma_index_stands_without_stake(config: ConfigView, state: StateView, now: nat)
    requires
        state.total_staked == 0,
    ensures
        index_at(config, state, now) == Ok::<nat, StdError>(state.ci_current),
{
}

/// A ledger that has been settled at an index earns nothing more when it is
/// settled at that index again: the second settling leaves it as it is.
pub proof fn lemma_settled_twice(ledger: StakerInfoView, ci: nat)
    requires
        settled(ledger, ci) is Ok,
    ensures
        reward_after(settled(ledger, ci)->Ok_0.staked, ci, settled(ledger, ci)->Ok_0.ci_0) == Ok::<
            nat,
            StdError,
        >(0),
        settled(settled(ledger, ci)->Ok_0, ci) == settled(ledger, ci),
{
    let once = settled(ledger, ci)->Ok_0;
    lemma_accrued_nothing_at_checkpoint(once.staked, ci);
}

/// No operation lets the index fall.
pub proof fn lemma_step_index_grows(storage: StorageView, call: Call)
    ensures
        storage.state.ci_current <= step(storage, call).state.ci_current,
{
    lemma_index_at_grows(storage.config, storage.state, call.env.block_time);
}

/// Over any run of operations the index never falls.
pub proof fn lemma_run_index_grows(storage: StorageView, calls: Seq<Call>)
    ensures
        storage.state.ci_current <= run(storage, calls).state.ci_current,
    decreases calls.len(),
{
    if calls.len() > 0 {
        lemma_run_index_grows(storage, calls.drop_last());
        lemma_step_index_grows(run(storage, calls.drop_last()), calls.last());
    }
}

/// An operation carried out while nothing is staked leaves the index as it
/// is.
pub proof fn lemma_step_without_stake(storage: StorageView, call: Call)
    requires
        storage.state.total_staked == 0,
    ensures
        step(storage, call).state.ci_current == storage.state.ci_current,
{
}

/// The records at genesis are well formed.
pub proof fn lemma_genesis_well_formed(
    env: EnvView,
    info: MessageInfoView,
    msg: InstantiateMsgView,
)
    requires
        instantiate_outcome(env, info, msg) is Ok,
    ensures
        well_formed(instantiate_outcome(env, info, msg)->Ok_0.0),
        instantiate_outcome(env, info, msg)->Ok_0.0.state.ci_current == ONE,
        instantiate_outcome(env, info, msg)->Ok_0.0.state.total_withdrawn == 0,
{
}

/// Every operation keeps well-formed records well formed, and adds to the
/// total withdrawn exactly what it takes out of a ledger.
pub proof fn lemma_step_well_formed(storage: StorageView, call: Call)
    requires
        well_formed(storage),
    ensures
        well_formed(step(storage, call)),
        step(storage, call).state.total_withdrawn == storage.state.total_withdrawn + claimed(
            storage,
            call,
        ),
{
    let after = step(storage, call);
    let sender = call.info.sender;
    let now = call.env.block_time;
    lemma_index_at_grows(storage.config, storage.state, now);
    match call.msg {
        ExecuteMsgView::Stake => {
            if stake_outcome(storage, call.env, call.info) is Ok {
                let ci = index_at(storage.config, storage.state, now)->Ok_0;
                let amount = call.info.funds[0].amount;
                let ledger = topped_up(ledger_or_empty(storage, sender, now), ci, amount)->Ok_0;
                lemma_sum_after_write(storage.user_stakings, sender, ledger);
                lemma_distinct_after_write(storage.user_stakings, sender, ledger);
                lemma_checkpoints_after_write(storage, sender, ledger, after.state);
            }
        },
        ExecuteMsgView::Unstake { amount } => {
            if unstake_outcome(storage, call.env, call.info, amount) is Ok {
                let ci = index_at(storage.config, storage.state, now)->Ok_0;
                let settled_ledger = settled(ledger_or_empty(storage, sender, 0), ci)->Ok_0;
                let ledger = StakerInfoView {
                    staked: (settled_ledger.staked - amount) as nat,
                    ..settled_ledger
                };
                lemma_sum_after_write(storage.user_stakings, sender, ledger);
                lemma_distinct_after_write(storage.user_stakings, sender, ledger);
                lemma_checkpoints_after_write(storage, sender, ledger, after.state);
            }
        },
        ExecuteMsgView::Claim => {
            if claim_outcome(storage, call.env, call.info) is Ok {
                let ci = index_at(storage.config, storage.state, now)->Ok_0;
                let settled_ledger = settled(ledger_or_empty(storage, sender, 0), ci)->Ok_0;
                let ledger = StakerInfoView { reward: 0, ..settled_ledger };
                lemma_sum_after_write(storage.user_stakings, sender, ledger);
                lemma_distinct_after_write(storage.user_stakings, sender, ledger);
                lemma_checkpoints_after_write(storage, sender, ledger, after.state);
            }
        },
        ExecuteMsgView::ChangeApr { new_apr } => {},
        ExecuteMsgView::ChangeAdmin { address } => {},
        ExecuteMsgView::ChangeInjexToken { new_injex_token } => {},
    }
}

/// Over any run of operations from well-formed records, the total staked
/// stays the sum of the stakes of all ledgers, and the total withdrawn grows
/// by exactly the rewards that the claims of the run have taken out.
pub proof fn lemma_run_conserves(storage: StorageView, calls: Seq<Call>)
    requires
        well_formed(storage),
    ensures
        well_formed(run(storage, calls)),
        run(storage, calls).state.total_staked == staked_sum(run(storage, calls).user_stakings),
        run(storage, calls).state.total_withdrawn == storage.state.total_withdrawn
            + claimed_in_run(storage, calls),
    decreases calls.len(),
{
    if calls.len() > 0 {
        lemma_run_conserves(storage, calls.drop_last());
        lemma_step_well_formed(run(storage, calls.drop_last()), calls.last());
    }
}

/// Whether the call is a stake, an unstake or a claim: the operations that
/// write the sender's ledger.
pub open spec fn writes_ledger(call: Call) -> bool {
    call.msg is Stake || call.msg is Unstake || call.msg is Claim
}

/// No operation touches the ledger of anyone but the sender.
pub proof fn lemma_step_leaves_others(storage: StorageView, call: Call, other: Seq<char>)
    requires
        other != call.info.sender,
    ensures
        ledger_of(step(storage, call).user_stakings, other) == ledger_of(
            storage.user_stakings,
            other,
        ),
{
    let sender = call.info.sender;
    let now = call.env.block_time;
    if writes_ledger(call) && execute_outcome(storage, call.env, call.info, call.msg) is Ok {
        let ci = index_at(storage.config, storage.state, now)->Ok_0;
        let written = ledger_of(step(storage, call).user_stakings, sender);
        match call.msg {
            ExecuteMsgView::Stake => {
                let ledger = topped_up(
                    ledger_or_empty(storage, sender, now),
                    ci,
                    call.info.funds[0].amount,
                )->Ok_0;
                lemma_read_after_write(storage.user_stakings, sender, ledger, other);
            },
            ExecuteMsgView::Unstake { amount } => {
                let settled_ledger = settled(ledger_or_empty(storage, sender, 0), ci)->Ok_0;
                let ledger = StakerInfoView {
                    staked: (settled_ledger.staked - amount) as nat,
                    ..settled_ledger
                };
                lemma_read_after_write(storage.user_stakings, sender, ledger, other);
            },
            ExecuteMsgView::Claim => {
                let settled_ledger = settled(ledger_or_empty(storage, sender, 0), ci)->Ok_0;
                let ledger = StakerInfoView { reward: 0, ..settled_ledger };
                lemma_read_after_write(storage.user_stakings, sender, ledger, other);
            },
            _ => {},
        }
    }
}

/// A stake, an unstake or a claim that succeeds leaves the sender's ledger
/// with its checkpoint at the index on record: no write leaves a ledger
/// behind the index. The reward falls only by a claim, which sets it to zero;
/// otherwise it stays or grows.
pub proof fn lemma_step_settles_sender(storage: StorageView, call: Call)
    requires
        writes_ledger(call),
        execute_outcome(storage, call.env, call.info, call.msg) is Ok,
    ensures
        ({
            let before = ledger_or_empty(storage, call.info.sender, 0);
            let after = ledger_of(step(storage, call).user_stakings, call.info.sender);
            &&& after is Some
            &&& after->0.ci_0 == step(storage, call).state.ci_current
            &&& call.msg is Claim ==> after->0.reward == 0 && after->0.staked == before.staked
            &&& !(call.msg is Claim) ==> before.reward <= after->0.reward
        }),
{
    let sender = call.info.sender;
    let now = call.env.block_time;
    let ci = index_at(storage.config, storage.state, now)->Ok_0;
    match call.msg {
        ExecuteMsgView::Stake => {
            let ledger = topped_up(
                ledger_or_empty(storage, sender, now),
                ci,
                call.info.funds[0].amount,
            )->Ok_0;
            lemma_read_after_write(storage.user_stakings, sender, ledger, sender);
        },
        ExecuteMsgView::Unstake { amount } => {
            let settled_ledger = settled(ledger_or_empty(storage, sender, 0), ci)->Ok_0;
            let ledger = StakerInfoView {
                staked: (settled_ledger.staked - amount) as nat,
                ..settled_ledger
            };
            lemma_read_after_write(storage.user_stakings, sender, ledger, sender);
        },
        ExecuteMsgView::Claim => {
            let settled_ledger = settled(ledger_or_empty(storage, sender, 0), ci)->Ok_0;
            let ledger = StakerInfoView { reward: 0, ..settled_ledger };
            lemma_read_after_write(storage.user_stakings, sender, ledger, sender);
        },
        _ => {},
    }
}

/// Under a clock that does not go back, the time of the last update does not
/// go back either.
pub proof fn lemma_step_time_grows(storage: StorageView, call: Call)
    requires
        storage.state.ci_time_current <= call.env.block_time,
    ensures
        storage.state.ci_time_current <= step(storage, call).state.ci_time_current,
        step(storage, call).state.ci_time_current <= call.env.block_time,
{
}

/// After any run of operations from genesis, every user has one ledger, the
/// total staked is the sum of the stakes of all ledgers, the total withdrawn
/// is the sum of the rewards that claims have taken out, and the index is at
/// least `ONE`.
pub proof fn lemma_history_from_genesis(
    env: EnvView,
    info: MessageInfoView,
    msg: InstantiateMsgView,
    calls: Seq<Call>,
)
    requires
        instantiate_outcome(env, info, msg) is Ok,
    ensures
        ({
            let genesis = instantiate_outcome(env, info, msg)->Ok_0.0;
            let now = run(genesis, calls);
            &&& well_formed(now)
            &&& now.state.total_staked == staked_sum(now.user_stakings)
            &&& now.state.total_withdrawn == claimed_in_run(genesis, calls)
            &&& ONE <= now.state.ci_current
        }),
{
    let genesis = instantiate_outcome(env, info, msg)->Ok_0.0;
    lemma_genesis_well_formed(env, info, msg);
    lemma_run_conserves(genesis, calls);
    lemma_run_index_grows(genesis, calls);
}

} // verus!
