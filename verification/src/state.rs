//! The records that the contract keeps, and what they stand for.
//!
//! Each record has a view in which every amount is a natural number and every
//! name a sequence of characters. The contracts of the operations are stated
//! over these views.

use vstd::prelude::*;
use crate::timestamp::Timestamp;
use crate::uint256::Uint256;

verus! {

/// The rate and the token.
#[derive(Clone, Debug, PartialEq)]
pub struct Config {
    /// The annual rate, in hundredths of a percent.
    pub apr: Uint256,
    /// The denomination that is staked and paid out.
    pub injex_token: String,
}

/// The totals and the compounding index.
#[derive(Clone, Copy, Debug, PartialEq)]
pub struct State {
    /// The principal that all users hold staked.
    pub total_staked: Uint256,
    /// The rewards paid out so far.
    pub total_withdrawn: Uint256,
    /// The compounding index, scaled by `ONE`.
    pub ci_current: Uint256,
    /// When the index was last brought up to date.
    pub ci_time_current: Timestamp,
}

/// One user's ledger.
#[derive(Clone, Copy, Debug, PartialEq)]
pub struct StakerInfo {
    /// The principal that the user holds staked.
    pub staked: Uint256,
    /// When the ledger was opened.
    pub block_time: Timestamp,
    /// The index at which the ledger was last settled.
    pub ci_0: Uint256,
    /// The reward settled and not yet paid out.
    pub reward: Uint256,
}

/// A user and their ledger.
#[derive(Clone, Debug, PartialEq)]
pub struct StakerEntry {
    pub user: String,
    pub info: StakerInfo,
}

/// Everything that the contract keeps. The ledgers stand in the order in
/// which they were opened; a user is looked up by the first entry that bears
/// their name.
#[derive(Clone, Debug, PartialEq)]
pub struct Storage {
    pub config: Config,
    pub state: State,
    pub admin: String,
    pub user_stakings: Vec<StakerEntry>,
}

/// What a [`Config`] stands for.
pub struct ConfigView {
    pub apr: nat,
    pub injex_token: Seq<char>,
}

/// What a [`State`] stands for.
pub struct StateView {
    pub total_staked: nat,
    pub total_withdrawn: nat,
    pub ci_current: nat,
    pub ci_time_current: nat,
}

/// What a [`StakerInfo`] stands for.
pub struct StakerInfoView {
    pub staked: nat,
    pub block_time: nat,
    pub ci_0: nat,
    pub reward: nat,
}

/// What a [`StakerEntry`] stands for.
pub struct StakerEntryView {
    pub user: Seq<char>,
    pub info: StakerInfoView,
}

/// What a [`Storage`] stands for.
pub struct StorageView {
    pub config: ConfigView,
    pub state: StateView,
    pub admin: Seq<char>,
    pub user_stakings: Seq<StakerEntryView>,
}

impl View for Config {
    type V = ConfigView;

    open spec fn view(&self) -> ConfigView {
        ConfigView { apr: self.apr@, injex_token: self.injex_token@ }
    }
}

impl View for State {
    type V = StateView;

    open spec fn view(&self) -> StateView {
        StateView {
            total_staked: self.total_staked@,
            total_withdrawn: self.total_withdrawn@,
            ci_current: self.ci_current@,
            ci_time_current: self.ci_time_current@,
        }
    }
}

impl View for StakerInfo {
    type V = StakerInfoView;

    open spec fn view(&self) -> StakerInfoView {
        StakerInfoView {
            staked: self.staked@,
            block_time: self.block_time@,
            ci_0: self.ci_0@,
            reward: self.reward@,
        }
    }
}

impl View for StakerEntry {
    type V = StakerEntryView;

    open spec fn view(&self) -> StakerEntryView {
        StakerEntryView { user: self.user@, info: self.info@ }
    }
}

impl View for Storage {
    type V = StorageView;

    open spec fn view(&self) -> StorageView {
        StorageView {
            config: self.config@,
            state: self.state@,
            admin: self.admin@,
            user_stakings: self.user_stakings@.map_values(|e: StakerEntry| e@),
        }
    }
}

/// Whether the entry at `i` is the first one that bears the name `user`.
pub open spec fn is_first(entries: Seq<StakerEntryView>, user: Seq<char>, i: int) -> bool {
    &&& 0 <= i < entries.len()
    &&& entries[i].user == user
    &&& forall|j: int| 0 <= j < i ==> entries[j].user != user
}

/// Whether a ledger is kept for `user`.
pub open spec fn known(entries: Seq<StakerEntryView>, user: Seq<char>) -> bool {
    exists|i: int| is_first(entries, user, i)
}

/// Where the ledger of `user` stands, if one is kept.
pub open spec fn place(entries: Seq<StakerEntryView>, user: Seq<char>) -> int {
    choose|i: int| is_first(entries, user, i)
}

/// The ledger of `user`, if one is kept.
pub open spec fn ledger_of(entries: Seq<StakerEntryView>, user: Seq<char>) -> Option<
    StakerInfoView,
> {
    if known(entries, user) {
        Some(entries[place(entries, user)].info)
    } else {
        None
    }
}

/// The ledgers after `info` has been written for `user`: in place where the
/// user had one, at the end where not.
pub open spec fn with_ledger(
    entries: Seq<StakerEntryView>,
    user: Seq<char>,
    info: StakerInfoView,
) -> Seq<StakerEntryView> {
    if known(entries, user) {
        entries.update(place(entries, user), StakerEntryView { user, info })
    } else {
        entries.push(StakerEntryView { user, info })
    }
}

/// The principal that all the ledgers hold together.
pub open spec fn staked_sum(entries: Seq<StakerEntryView>) -> nat
    decreases entries.len(),
{
    if entries.len() == 0 {
        0
    } else {
        staked_sum(entries.drop_last()) + entries.last().info.staked
    }
}

/// Whether no two ledgers bear one name.
pub open spec fn distinct_users(entries: Seq<StakerEntryView>) -> bool {
    forall|i: int, j: int|
        0 <= i < j < entries.len() ==> entries[i].user != entries[j].user
}

/// The first entry with a name is the only place where that name is looked up.
pub proof fn lemma_place_is_first(entries: Seq<StakerEntryView>, user: Seq<char>, i: int)
    requires
        is_first(entries, user, i),
    ensures
        known(entries, user),
        place(entries, user) == i,
{
    let p = place(entries, user);
    assert(is_first(entries, user, p));
    if p < i {
        assert(entries[p].user != user);
    }
    if i < p {
        assert(entries[i].user != user);
    }
}

/// A name that no entry bears has no ledger.
pub proof fn lemma_absent_is_unknown(entries: Seq<StakerEntryView>, user: Seq<char>)
    requires
        forall|j: int| 0 <= j < entries.len() ==> entries[j].user != user,
    ensures
        !known(entries, user),
{
    if known(entries, user) {
        let p = place(entries, user);
        assert(is_first(entries, user, p));
        assert(entries[p].user != user);
    }
}

/// A name that some entry bears has a ledger.
pub proof fn lemma_some_entry_is_known(entries: Seq<StakerEntryView>, user: Seq<char>, i: int)
    requires
        0 <= i < entries.len(),
        entries[i].user == user,
    ensures
        known(entries, user),
    decreases i,
{
    if forall|j: int| 0 <= j < i ==> entries[j].user != user {
        assert(is_first(entries, user, i));
    } else {
        let j = choose|j: int| 0 <= j < i && entries[j].user == user;
        lemma_some_entry_is_known(entries, user, j);
    }
}

/// The ledgers behave as a map from names: after `info` has been written for
/// `user`, it is what is read for `user`, and what is read for anyone else is
/// what it was.
pub proof fn lemma_read_after_write(
    entries: Seq<StakerEntryView>,
    user: Seq<char>,
    info: StakerInfoView,
    other: Seq<char>,
)
    ensures
        ledger_of(with_ledger(entries, user, info), other) == if other == user {
            Some(info)
        } else {
            ledger_of(entries, other)
        },
{
    let after = with_ledger(entries, user, info);
    let written = if known(entries, user) {
        place(entries, user)
    } else {
        entries.len() as int
    };
    if known(entries, user) {
        assert(is_first(entries, user, written));
    }
    assert(after.len() >= entries.len());
    assert(forall|j: int| 0 <= j < entries.len() && j != written ==> after[j] == entries[j]);
    assert(after[written] == StakerEntryView { user, info });
    if other == user {
        if !known(entries, user) {
            assert forall|j: int| 0 <= j < written implies after[j].user != user by {
                if entries[j].user == user {
                    lemma_some_entry_is_known(entries, user, j);
                }
            }
        }
        lemma_place_is_first(after, user, written);
    } else if known(entries, other) {
        let q = place(entries, other);
        assert(is_first(entries, other, q));
        assert forall|j: int| 0 <= j < q implies after[j].user != other by {
            if j != written {
                assert(after[j] == entries[j]);
            }
        }
        lemma_place_is_first(after, other, q);
    } else {
        if known(after, other) {
            let q = place(after, other);
            assert(is_first(after, other, q));
            assert(q != written);
            assert(after[q] == entries[q]);
            lemma_some_entry_is_known(entries, other, q);
        }
    }
}

impl Storage {
    /// Where the ledger of `user` stands, if one is kept.
    pub fn find(&self, user: &String) -> (r: Option<usize>)
        ensures
            r is Some <==> known(self@.user_stakings, user@),
            r is Some ==> r->0 == place(self@.user_stakings, user@),
            r is Some ==> r->0 < self.user_stakings.len(),
    {
        let ghost entries = self@.user_stakings;
        let mut i: usize = 0;
        while i < self.user_stakings.len()
            invariant
                i <= self.user_stakings.len(),
                entries == self@.user_stakings,
                entries.len() == self.user_stakings.len(),
                forall|j: int| 0 <= j < i ==> entries[j].user != user@,
            decreases self.user_stakings.len() - i,
        {
            if self.user_stakings[i].user == *user {
                proof {
                    assert(entries[i as int] == self.user_stakings@[i as int]@);
                    lemma_place_is_first(entries, user@, i as int);
                }
                return Some(i);
            }
            assert(entries[i as int] == self.user_stakings@[i as int]@);
            i += 1;
        }
        proof {
            lemma_absent_is_unknown(entries, user@);
        }
        None
    }
}

impl Storage {
    /// The ledger of `user`, if one is kept.
    pub fn ledger(&self, user: &String) -> (r: Option<StakerInfo>)
        ensures
            match r {
                Some(info) => ledger_of(self@.user_stakings, user@) == Some(info@),
                None => ledger_of(self@.user_stakings, user@) is None,
            },
    {
        match self.find(user) {
            Some(i) => {
                assert(self@.user_stakings[i as int] == self.user_stakings@[i as int]@);
                Some(self.user_stakings[i].info)
            },
            None => None,
        }
    }

    /// Writes `info` as the ledger of `user`, in place where the user has
    /// one, at the end where not.
    pub fn set_ledger(&mut self, user: &String, info: StakerInfo)
        ensures
            final(self)@.user_stakings == with_ledger(old(self)@.user_stakings, user@, info@),
            final(self).config == old(self).config,
            final(self).state == old(self).state,
            final(self).admin == old(self).admin,
    {
        let entry = StakerEntry { user: user.clone(), info };
        match self.find(user) {
            Some(i) => {
                self.user_stakings.set(i, entry);
                assert(self@.user_stakings =~= old(self)@.user_stakings.update(i as int, entry@));
            },
            None => {
                self.user_stakings.push(entry);
                assert(self@.user_stakings =~= old(self)@.user_stakings.push(entry@));
            },
        }
    }
}

} // verus!
