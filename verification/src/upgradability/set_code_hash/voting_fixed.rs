//! The vote of `voting` with counts widened to 64 bits. It takes over the
//! storage of `voting`; `migrate` then carries the old counts into the new
//! counters, once.

use vstd::prelude::*;
use crate::account::AccountId;
use crate::account_map::{lemma_part_written_back, AccountMap};
use crate::upgradability::set_code_hash::voting::{winner, Voting, VotingView};
pub use crate::upgradability::set_code_hash::voting::{Error, Result};

verus! {

/// The counters that the new code works on.
pub struct NewVotes {
    /// The votes counted for option 0 and for option 1.
    pub data: [u64; 2],
    /// Whether the old counts have been carried over. Once set it stays set.
    pub migration_performed: bool,
}

pub struct VotingFixed {
    /// The counts that the old code left behind.
    pub _old_votes: [u8; 2],
    /// The account that may run the migration.
    pub _admin: AccountId,
    /// The registered voters, each with whether they have voted.
    pub voters: AccountMap<bool>,
    /// The counters of the new code.
    pub votes: NewVotes,
}

/// The content of a `VotingFixed` as mathematical values.
pub struct VotingFixedView {
    pub old_votes: Seq<u8>,
    pub admin: AccountId,
    pub voters: Map<AccountId, bool>,
    pub votes: Seq<u64>,
    pub migration_performed: bool,
}

impl VotingFixedView {
    /// The content that the new code finds when it takes over the storage
    /// of a vote with the content `legacy`: the counts as old counts, admin
    /// and voters as they are, the new counters at zero, nothing migrated.
    pub open spec fn taken_over(legacy: VotingView) -> VotingFixedView {
        VotingFixedView {
            old_votes: legacy.votes,
            admin: legacy.admin,
            voters: legacy.voters,
            votes: seq![0u64, 0u64],
            migration_performed: false,
        }
    }

    /// The content with the voters among `accounts` and no others: what a
    /// call sees that is shown only the entries of `accounts`.
    pub open spec fn part(self, accounts: Set<AccountId>) -> VotingFixedView {
        VotingFixedView { voters: self.voters.restrict(accounts), ..self }
    }

    /// The content after a call that was shown a part and left it as
    /// `part`: counts, admin and flag as the call left them, and the voters
    /// of `part` written over those that the call was not shown.
    pub open spec fn written_back(self, part: VotingFixedView) -> VotingFixedView {
        VotingFixedView { voters: self.voters.union_prefer_right(part.voters), ..part }
    }

    /// The voters who have voted.
    pub open spec fn voted(self) -> Set<AccountId> {
        Set::new(|a: AccountId| self.voters.contains_key(a) && self.voters[a])
    }

    /// The new counts add up: there are as many votes in the new counters
    /// as voters who have voted.
    pub open spec fn tallied(self) -> bool {
        &&& self.votes.len() == 2
        &&& self.voted().finite()
        &&& self.votes[0] + self.votes[1] == self.voted().len()
    }

    /// What `migrate` answers to `caller`.
    pub open spec fn migrate_result(self, caller: AccountId) -> Result {
        if caller != self.admin {
            Err(Error::PermissionDenied)
        } else {
            Ok(())
        }
    }

    /// The content after `caller` has called `migrate`: for anyone but the
    /// admin, and for the admin once the migration has been performed, the
    /// content as it was; else each old count widened into the new counter
    /// of the same option, and the migration marked as performed.
    pub open spec fn migrate(self, caller: AccountId) -> VotingFixedView {
        if caller != self.admin || self.migration_performed {
            self
        } else {
            VotingFixedView {
                votes: seq![self.old_votes[0] as u64, self.old_votes[1] as u64],
                migration_performed: true,
                ..self
            }
        }
    }

    /// What a vote by `caller` answers.
    pub open spec fn vote_result(self, caller: AccountId) -> Result {
        if !self.voters.contains_key(caller) {
            Err(Error::NotVoter)
        } else if self.voters[caller] {
            Err(Error::HasAlreadyVoted)
        } else {
            Ok(())
        }
    }

    /// Whether `caller` is registered and has not voted yet.
    pub open spec fn may_vote(self, caller: AccountId) -> bool {
        self.vote_result(caller) is Ok
    }

    /// The content after `caller` has voted for option `on` in the new counters.
    pub open spec fn vote(self, caller: AccountId, on: int) -> VotingFixedView {
        if self.may_vote(caller) {
            VotingFixedView {
                votes: self.votes.update(on, (self.votes[on] + 1) as u64),
                voters: self.voters.insert(caller, true),
                ..self
            }
        } else {
            self
        }
    }

    /// The content after `caller` has voted for option `on` in the old counters.
    pub open spec fn old_vote(self, caller: AccountId, on: int) -> VotingFixedView {
        if self.may_vote(caller) {
            VotingFixedView {
                old_votes: self.old_votes.update(on, (self.old_votes[on] + 1) as u8),
                voters: self.voters.insert(caller, true),
                ..self
            }
        } else {
            self
        }
    }
}

impl View for VotingFixed {
    type V = VotingFixedView;

    open spec fn view(&self) -> VotingFixedView {
        VotingFixedView {
            old_votes: self._old_votes@,
            admin: self._admin,
            voters: self.voters@,
            votes: self.votes.data@,
            migration_performed: self.votes.migration_performed,
        }
    }
}

impl VotingFixed {
    /// A vote without voters or votes, administered by `caller`, with nothing
    /// migrated yet.
    pub fn new(caller: AccountId) -> (v: Self)
        ensures
            v@ == (VotingFixedView {
                old_votes: seq![0u8, 0u8],
                admin: caller,
                voters: Map::empty(),
                votes: seq![0u64, 0u64],
                migration_performed: false,
            }),
    {
        let v = VotingFixed {
            _old_votes: [0, 0],
            _admin: caller,
            voters: AccountMap::new(),
            votes: NewVotes { data: [0, 0], migration_performed: false },
        };
        v
    }

    /// Takes over the storage that `voting` leaves behind: its counts become
    /// the old counts, admin and voters stay, and the new counters start at
    /// zero with nothing migrated yet.
    pub fn from_legacy(legacy: Voting) -> (v: Self)
        ensures
            v@ == VotingFixedView::taken_over(legacy@),
    {
        let v = VotingFixed {
            _old_votes: legacy.votes,
            _admin: legacy.admin,
            voters: legacy.voters,
            votes: NewVotes { data: [0, 0], migration_performed: false },
        };
        v
    }

    /// Performs the migration from `voting`: carries each old count into the
    /// new counter of the same option. Only the admin can do this. The first
    /// call of the admin migrates; every later one succeeds and changes
    /// nothing. A call that fails leaves the contract as it was.
    pub fn migrate(&mut self, caller: AccountId) -> (r: Result)
        ensures
            r == old(self)@.migrate_result(caller),
            final(self)@ == old(self)@.migrate(caller),
            r is Err || old(self).votes.migration_performed ==> *final(self) == *old(self),
    {
        if caller != self._admin {
            return Err(Error::PermissionDenied);
        }
        if self.votes.migration_performed {
            return Ok(());
        }
        self.votes.data[0] = self._old_votes[0] as u64;
        self.votes.data[1] = self._old_votes[1] as u64;
        self.votes.migration_performed = true;
        assert(self.votes.data@ =~= seq![old(self)._old_votes[0] as u64, old(self)._old_votes[1] as u64]);
        Ok(())
    }

    /// Current result of the vote: the option that leads in the new
    /// counters, option 0 on a tie.
    pub fn get_winner(&self) -> (w: u8)
        ensures
            w == winner(self@.votes[0] as int, self@.votes[1] as int),
    {
        if self.votes.data[0] < self.votes.data[1] {
            1
        } else {
            0
        }
    }

    fn vote(&mut self, caller: AccountId, on: usize) -> (r: Result)
        requires
            on < 2,
            old(self)@.may_vote(caller) ==> old(self)@.votes[on as int] < u64::MAX,
        ensures
            r == old(self)@.vote_result(caller),
            final(self)@ == old(self)@.vote(caller, on as int),
            r is Err ==> *final(self) == *old(self),
    {
        match self.voters.get(caller) {
            None => {
                return Err(Error::NotVoter);
            },
            Some(has_voted) => {
                if *has_voted {
                    return Err(Error::HasAlreadyVoted);
                }
            },
        }
        self.votes.data[on] = self.votes.data[on] + 1;
        self.voters.insert(caller, true);
        Ok(())
    }

    /// Casts the vote of `caller` for option 0. The caller must be registered
    /// and must not have voted before; a call that fails leaves the contract
    /// as it was. A count that has reached `u64::MAX` takes no further vote.
    pub fn vote_0(&mut self, caller: AccountId) -> (r: Result)
        requires
            old(self)@.may_vote(caller) ==> old(self)@.votes[0] < u64::MAX,
        ensures
            r == old(self)@.vote_result(caller),
            final(self)@ == old(self)@.vote(caller, 0),
            r is Err ==> *final(self) == *old(self),
    {
        self.vote(caller, 0)
    }

    /// Casts the vote of `caller` for option 1, as `vote_0` does for option 0.
    pub fn vote_1(&mut self, caller: AccountId) -> (r: Result)
        requires
            old(self)@.may_vote(caller) ==> old(self)@.votes[1] < u64::MAX,
        ensures
            r == old(self)@.vote_result(caller),
            final(self)@ == old(self)@.vote(caller, 1),
            r is Err ==> *final(self) == *old(self),
    {
        self.vote(caller, 1)
    }

    /// Number of votes for option 0.
    pub fn votes_for_0(&self) -> (n: u64)
        ensures
            n == self@.votes[0],
    {
        self.votes.data[0]
    }

    /// Number of votes for option 1.
    pub fn votes_for_1(&self) -> (n: u64)
        ensures
            n == self@.votes[1],
    {
        self.votes.data[1]
    }

    /// Registers `voter` as the old code did, without asking who calls: for
    /// setting up the storage that an upgrade finds.
    pub fn _old_add_new_voter(&mut self, voter: AccountId) -> (r: Result)
        ensures
            old(self)@.voters.contains_key(voter) ==> r == Err::<(), Error>(Error::AlreadyVoter)
                && *final(self) == *old(self),
            !old(self)@.voters.contains_key(voter) ==> r == Ok::<(), Error>(()) && final(self)@
                == (VotingFixedView {
                voters: old(self)@.voters.insert(voter, false),
                ..old(self)@
            }),
    {
        if self.voters.contains(voter) {
            return Err(Error::AlreadyVoter);
        }
        self.voters.insert(voter, false);
        Ok(())
    }

    fn _old_vote(&mut self, caller: AccountId, on: usize) -> (r: Result)
        requires
            on < 2,
            old(self)@.may_vote(caller) ==> old(self)@.old_votes[on as int] < u8::MAX,
        ensures
            r == old(self)@.vote_result(caller),
            final(self)@ == old(self)@.old_vote(caller, on as int),
            r is Err ==> *final(self) == *old(self),
    {
        match self.voters.get(caller) {
            None => {
                return Err(Error::NotVoter);
            },
            Some(has_voted) => {
                if *has_voted {
                    return Err(Error::HasAlreadyVoted);
                }
            },
        }
        self._old_votes[on] = self._old_votes[on] + 1;
        self.voters.insert(caller, true);
        Ok(())
    }

    /// Casts the vote of `caller` for option 0 in the old counters, as the
    /// old code did. The old count of an option stops at 255.
    pub fn _old_vote_0(&mut self, caller: AccountId) -> (r: Result)
        requires
            old(self)@.may_vote(caller) ==> old(self)@.old_votes[0] < u8::MAX,
        ensures
            r == old(self)@.vote_result(caller),
            final(self)@ == old(self)@.old_vote(caller, 0),
            r is Err ==> *final(self) == *old(self),
    {
        self._old_vote(caller, 0)
    }

    /// Casts the vote of `caller` for option 1 in the old counters.
    pub fn _old_vote_1(&mut self, caller: AccountId) -> (r: Result)
        requires
            old(self)@.may_vote(caller) ==> old(self)@.old_votes[1] < u8::MAX,
        ensures
            r == old(self)@.vote_result(caller),
            final(self)@ == old(self)@.old_vote(caller, 1),
            r is Err ==> *final(self) == *old(self),
    {
        self._old_vote(caller, 1)
    }
}

/// Calling `migrate` twice in a row leaves the contract as calling it once
/// does: once the admin has migrated, a further call by anyone changes
/// nothing, and a call by anyone else never changed anything.
pub proof fn lemma_migrate_idempotent(s: VotingFixedView, first: AccountId, second: AccountId)
    ensures
        s.migrate(first).migrate(first) == s.migrate(first),
        first == s.admin ==> s.migrate(first).migrate(second) == s.migrate(first),
        first != s.admin ==> s.migrate(first).migrate(second) == s.migrate(second),
{
}

/// Nobody but the admin migrates: such a call fails with
/// `PermissionDenied` and leaves the contract as it was.
pub proof fn lemma_only_admin_migrates(s: VotingFixedView, caller: AccountId)
    requires
        caller != s.admin,
    ensures
        s.migrate_result(caller) == Err::<(), Error>(Error::PermissionDenied),
        s.migrate(caller) == s,
{
}

/// The first migration by the admin makes each new counter hold what the
/// old counter of its option holds, and leaves the old counters alone.
pub proof fn lemma_migration_widens(s: VotingFixedView)
    requires
        !s.migration_performed,
        s.old_votes.len() == 2,
    ensures
        s.migrate(s.admin).votes.len() == 2,
        s.migrate(s.admin).votes[0] == s.old_votes[0],
        s.migrate(s.admin).votes[1] == s.old_votes[1],
        s.migrate(s.admin).old_votes == s.old_votes,
        s.migrate(s.admin).voters == s.voters,
{
}

/// An upgrade loses nothing: once the new code has taken over a vote and
/// its admin has migrated, each option has the count it had, the leading
/// option is the same, and every voter stands as before.
pub proof fn lemma_upgrade_keeps_the_vote(legacy: VotingView)
    requires
        legacy.votes.len() == 2,
    ensures
        ({
            let upgraded = VotingFixedView::taken_over(legacy).migrate(legacy.admin);
            &&& upgraded.migration_performed
            &&& upgraded.votes.len() == 2
            &&& upgraded.votes[0] == legacy.votes[0]
            &&& upgraded.votes[1] == legacy.votes[1]
            &&& winner(upgraded.votes[0] as int, upgraded.votes[1] as int) == winner(
                legacy.votes[0] as int,
                legacy.votes[1] as int,
            )
            &&& upgraded.voters == legacy.voters
            &&& upgraded.admin == legacy.admin
            &&& forall|caller: AccountId|
                upgraded.vote_result(caller) == legacy.vote_result(caller)
        }),
{
}

/// Counts that added up before an upgrade add up after it: once the new
/// code has taken over and the admin has migrated, the new counters hold as
/// many votes as there are voters who have voted.
pub proof fn lemma_tally_survives_upgrade(legacy: VotingView)
    requires
        legacy.tallied(),
    ensures
        VotingFixedView::taken_over(legacy).migrate(legacy.admin).tallied(),
{
    // the same voters have voted before and after
    let upgraded = VotingFixedView::taken_over(legacy).migrate(legacy.admin);
    assert(upgraded.voted() =~= legacy.voted());
}

/// After the migration, counts that add up keep adding up: a vote that the
/// new code takes adds one to both sides, and a further call of `migrate`
/// changes neither. (A count that stands at its limit takes no vote.)
pub proof fn lemma_tally_kept(s: VotingFixedView, caller: AccountId, on: int)
    requires
        s.tallied(),
        s.migration_performed,
        0 <= on < 2,
        s.may_vote(caller) ==> s.votes[on] < u64::MAX,
    ensures
        s.vote(caller, on).tallied(),
        s.migrate(caller).tallied(),
{
    if s.may_vote(caller) {
        assert(s.vote(caller, on).voted() =~= s.voted().insert(caller));
    }
}

/// A voter who has voted cannot vote again, whether the vote went to the
/// old counters or the new: a further attempt fails with `HasAlreadyVoted`
/// and leaves counts and voters as they were.
pub proof fn lemma_no_double_vote(s: VotingFixedView, caller: AccountId, on: int, again: int)
    requires
        s.may_vote(caller),
    ensures
        s.vote(caller, on).vote_result(caller) == Err::<(), Error>(Error::HasAlreadyVoted),
        s.vote(caller, on).vote(caller, again) == s.vote(caller, on),
        s.vote(caller, on).old_vote(caller, again) == s.vote(caller, on),
        s.old_vote(caller, on).vote_result(caller) == Err::<(), Error>(Error::HasAlreadyVoted),
        s.old_vote(caller, on).vote(caller, again) == s.old_vote(caller, on),
        s.old_vote(caller, on).old_vote(caller, again) == s.old_vote(caller, on),
{
}

/// The migration flag only ever goes from unset to set.
pub proof fn lemma_migration_flag_monotonic(s: VotingFixedView, caller: AccountId, on: int)
    requires
        s.migration_performed,
    ensures
        s.migrate(caller).migration_performed,
        s.vote(caller, on).migration_performed,
        s.old_vote(caller, on).migration_performed,
{
}

/// A call touches one voter at most. A vote reads and writes the entry of
/// the caller and no other, and the migration none at all: shown only a
/// part of the voters, which for a vote holds the caller's entry, the call
/// answers the same, and its effect written back over the rest is its
/// effect on the whole.
pub proof fn lemma_calls_touch_one_voter(
    s: VotingFixedView,
    accounts: Set<AccountId>,
    caller: AccountId,
    on: int,
)
    ensures
        s.part(accounts).migrate_result(caller) == s.migrate_result(caller),
        s.written_back(s.part(accounts).migrate(caller)) == s.migrate(caller),
        accounts.contains(caller) ==> s.part(accounts).vote_result(caller) == s.vote_result(
            caller,
        ),
        accounts.contains(caller) ==> s.written_back(s.part(accounts).vote(caller, on)) == s.vote(
            caller,
            on,
        ),
        accounts.contains(caller) ==> s.written_back(s.part(accounts).old_vote(caller, on))
            == s.old_vote(caller, on),
{
    assert(s.voters.union_prefer_right(s.voters.restrict(accounts)) =~= s.voters);
    if accounts.contains(caller) {
        lemma_part_written_back(s.voters, accounts, caller, true);
    }
}

} // verus!
