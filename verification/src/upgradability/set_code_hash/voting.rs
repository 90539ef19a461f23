//! A vote between two options, counted in one byte each, that its admin can
//! move to new code.

use vstd::prelude::*;
use crate::account::AccountId;
use crate::account_map::{lemma_part_written_back, AccountMap};
use crate::host::{HostError, SetCodeHash};

verus! {

#[derive(Debug, Clone, Copy, PartialEq, Eq, Structural)]
pub enum Error {
    PermissionDenied,
    NotVoter,
    HasAlreadyVoted,
    AlreadyVoter,
    SetCodeFailed,
}

pub type Result = core::result::Result<(), Error>;

pub struct Voting {
    /// The votes counted for option 0 and for option 1.
    pub votes: [u8; 2],
    /// The account that registers voters and may replace the code.
    pub admin: AccountId,
    /// The registered voters, each with whether they have voted.
    pub voters: AccountMap<bool>,
}

/// The option that leads when the count stands at `zero` to `one`: option 1
/// with strictly more votes, option 0 otherwise, so a tie goes to option 0.
pub open spec fn winner(zero: int, one: int) -> u8 {
    if zero < one {
        1
    } else {
        0
    }
}

/// The content of a vote as mathematical values.
pub struct VotingView {
    pub votes: Seq<u8>,
    pub admin: AccountId,
    pub voters: Map<AccountId, bool>,
}

impl VotingView {
    /// What `add_new_voter` answers when `caller` registers `voter`.
    pub open spec fn add_new_voter_result(self, caller: AccountId, voter: AccountId) -> Result {
        if caller != self.admin {
            Err(Error::PermissionDenied)
        } else if self.voters.contains_key(voter) {
            Err(Error::AlreadyVoter)
        } else {
            Ok(())
        }
    }

    /// The content after `caller` has asked to register `voter`.
    pub open spec fn add_new_voter(self, caller: AccountId, voter: AccountId) -> VotingView {
        if self.add_new_voter_result(caller, voter) is Ok {
            VotingView { voters: self.voters.insert(voter, false), ..self }
        } else {
            self
        }
    }

    /// What a vote by `caller` answers.
    pub open spec fn vote_result(self, caller: AccountId) -> Result {
        if !self.voters.contains_key(caller) {
            Err(Error::NotVoter)
        } else if self.voters[caller] {
            Err(Error::HasAlreadyVoted)
        } else {
            Ok(())
        }
    }

    /// Whether `caller` is registered and has not voted yet.
    pub open spec fn may_vote(self, caller: AccountId) -> bool {
        self.vote_result(caller) is Ok
    }

    /// The content after `caller` has asked to vote for option `on`.
    pub open spec fn vote(self, caller: AccountId, on: int) -> VotingView {
        if self.may_vote(caller) {
            VotingView {
                votes: self.votes.update(on, (self.votes[on] + 1) as u8),
                voters: self.voters.insert(caller, true),
                ..self
            }
        } else {
            self
        }
    }

    /// The content with the voters among `accounts` and no others: what a
    /// call sees that is shown only the entries of `accounts`.
    pub open spec fn part(self, accounts: Set<AccountId>) -> VotingView {
        VotingView { voters: self.voters.restrict(accounts), ..self }
    }

    /// The content after a call that was shown a part and left it as
    /// `part`: counts and admin as the call left them, and the voters of
    /// `part` written over those that the call was not shown.
    pub open spec fn written_back(self, part: VotingView) -> VotingView {
        VotingView { voters: self.voters.union_prefer_right(part.voters), ..part }
    }

    /// The voters who have voted.
    pub open spec fn voted(self) -> Set<AccountId> {
        Set::new(|a: AccountId| self.voters.contains_key(a) && self.voters[a])
    }

    /// The counts add up: there are as many votes as voters who have voted.
    pub open spec fn tallied(self) -> bool {
        &&& self.votes.len() == 2
        &&& self.voted().finite()
        &&& self.votes[0] + self.votes[1] == self.voted().len()
    }

    /// What `set_code` answers when `caller` asks for the code `code_hash`.
    pub open spec fn set_code_result(
        self,
        caller: AccountId,
        code_hash: [u8; 32],
    ) -> core::result::Result<SetCodeHash, Error> {
        if caller != self.admin {
            Err(Error::PermissionDenied)
        } else {
            Ok(SetCodeHash { code_hash })
        }
    }
}

impl View for Voting {
    type V = VotingView;

    open spec fn view(&self) -> VotingView {
        VotingView { votes: self.votes@, admin: self.admin, voters: self.voters@ }
    }
}

impl Voting {
    /// A vote without voters or votes, administered by `caller`.
    pub fn new(caller: AccountId) -> (v: Self)
        ensures
            v@ == (VotingView { votes: seq![0u8, 0u8], admin: caller, voters: Map::empty() }),
    {
        let v = Voting { votes: [0, 0], admin: caller, voters: AccountMap::new() };
        v
    }

    /// Registers `voter`. Only the admin can do this, and only once for each
    /// account. A call that fails leaves the contract as it was.
    pub fn add_new_voter(&mut self, caller: AccountId, voter: AccountId) -> (r: Result)
        ensures
            r == old(self)@.add_new_voter_result(caller, voter),
            final(self)@ == old(self)@.add_new_voter(caller, voter),
            r is Err ==> *final(self) == *old(self),
    {
        if caller != self.admin {
            return Err(Error::PermissionDenied);
        }
        if self.voters.contains(voter) {
            return Err(Error::AlreadyVoter);
        }
        self.voters.insert(voter, false);
        Ok(())
    }

    /// Current result of the vote: the option that leads, option 0 on a tie.
    pub fn get_winner(&self) -> (w: u8)
        ensures
            w == winner(self@.votes[0] as int, self@.votes[1] as int),
    {
        if self.votes[0] < self.votes[1] {
            1
        } else {
            0
        }
    }

    fn vote(&mut self, caller: AccountId, on: usize) -> (r: Result)
        requires
            on < 2,
            old(self)@.may_vote(caller) ==> old(self)@.votes[on as int] < u8::MAX,
        ensures
            r == old(self)@.vote_result(caller),
            final(self)@ == old(self)@.vote(caller, on as int),
            r is Err ==> *final(self) == *old(self),
    {
        match self.voters.get(caller) {
            None => {
                return Err(Error::NotVoter);
            },
            Some(has_voted) => {
                if *has_voted {
                    return Err(Error::HasAlreadyVoted);
                }
            },
        }
        self.votes[on] = self.votes[on] + 1;
        self.voters.insert(caller, true);
        Ok(())
    }

    /// Casts the vote of `caller` for option 0. The caller must be registered
    /// and must not have voted before; a call that fails leaves the contract
    /// as it was. The count of an option stops at 255: a vote that would go
    /// beyond must not be made.
    pub fn vote_0(&mut self, caller: AccountId) -> (r: Result)
        requires
            old(self)@.may_vote(caller) ==> old(self)@.votes[0] < u8::MAX,
        ensures
            r == old(self)@.vote_result(caller),
            final(self)@ == old(self)@.vote(caller, 0),
            r is Err ==> *final(self) == *old(self),
    {
        self.vote(caller, 0)
    }

    /// Casts the vote of `caller` for option 1, as `vote_0` does for option 0.
    pub fn vote_1(&mut self, caller: AccountId) -> (r: Result)
        requires
            old(self)@.may_vote(caller) ==> old(self)@.votes[1] < u8::MAX,
        ensures
            r == old(self)@.vote_result(caller),
            final(self)@ == old(self)@.vote(caller, 1),
            r is Err ==> *final(self) == *old(self),
    {
        self.vote(caller, 1)
    }

    /// Decides a request by `caller` to replace the contract's code by
    /// `code_hash`. Only the admin may: for the admin the answer is the
    /// request to hand to the host, for anyone else `PermissionDenied`. The
    /// contract's storage is not touched either way.
    pub fn set_code(&self, caller: AccountId, code_hash: [u8; 32]) -> (r: core::result::Result<
        SetCodeHash,
        Error,
    >)
        ensures
            r == self@.set_code_result(caller, code_hash),
    {
        if caller != self.admin {
            return Err(Error::PermissionDenied);
        }
        Ok(SetCodeHash { code_hash })
    }

    /// Ends a code replacement with the host's reply: success if the host
    /// bound the new code, `SetCodeFailed` if it refused.
    pub fn set_code_reply(reply: core::result::Result<(), HostError>) -> (r: Result)
        ensures
            reply is Ok ==> r == Ok::<(), Error>(()),
            reply is Err ==> r == Err::<(), Error>(Error::SetCodeFailed),
    {
        if reply.is_err() {
            return Err(Error::SetCodeFailed);
        }
        Ok(())
    }
}

/// Nobody but the admin registers a voter or replaces the code: such a call
/// fails with `PermissionDenied` and leaves the contract as it was.
pub proof fn lemma_only_admin(
    s: VotingView,
    caller: AccountId,
    voter: AccountId,
    code_hash: [u8; 32],
)
    requires
        caller != s.admin,
    ensures
        s.add_new_voter_result(caller, voter) == Err::<(), Error>(Error::PermissionDenied),
        s.add_new_voter(caller, voter) == s,
        s.set_code_result(caller, code_hash) == Err::<SetCodeHash, Error>(
            Error::PermissionDenied,
        ),
{
}

/// A voter who has voted cannot vote again: the second attempt, for either
/// option, fails with `HasAlreadyVoted` and leaves counts and voters as the
/// first vote left them.
pub proof fn lemma_no_double_vote(s: VotingView, caller: AccountId, on: int, again: int)
    requires
        s.may_vote(caller),
    ensures
        s.vote(caller, on).vote_result(caller) == Err::<(), Error>(Error::HasAlreadyVoted),
        s.vote(caller, on).vote(caller, again) == s.vote(caller, on),
{
}

/// A vote starts out with counts that add up.
pub proof fn lemma_tally_starts(caller: AccountId)
    ensures
        (VotingView { votes: seq![0u8, 0u8], admin: caller, voters: Map::empty() }).tallied(),
{
    let s = VotingView { votes: seq![0u8, 0u8], admin: caller, voters: Map::empty() };
    assert(s.voted() =~= Set::empty());
}

/// Counts that add up keep adding up: registering a voter changes neither
/// side, and a vote that is taken adds one to both. (A count that stands at
/// its limit takes no vote.)
pub proof fn lemma_tally_kept(s: VotingView, caller: AccountId, voter: AccountId, on: int)
    requires
        s.tallied(),
        0 <= on < 2,
        s.may_vote(caller) ==> s.votes[on] < u8::MAX,
    ensures
        s.add_new_voter(caller, voter).tallied(),
        s.vote(caller, on).tallied(),
{
    assert(s.add_new_voter(caller, voter).voted() =~= s.voted());
    if s.may_vote(caller) {
        assert(s.vote(caller, on).voted() =~= s.voted().insert(caller));
    }
}

/// A call touches one voter. Registering reads and writes the entry of the
/// account to register, a vote that of the caller, and neither any other:
/// shown only a part of the voters that holds that entry, the call answers
/// the same, and its effect written back over the rest is its effect on the
/// whole.
pub proof fn lemma_calls_touch_one_voter(
    s: VotingView,
    accounts: Set<AccountId>,
    caller: AccountId,
    voter: AccountId,
    on: int,
)
    ensures
        accounts.contains(voter) ==> s.part(accounts).add_new_voter_result(caller, voter)
            == s.add_new_voter_result(caller, voter),
        accounts.contains(voter) ==> s.written_back(s.part(accounts).add_new_voter(caller, voter))
            == s.add_new_voter(caller, voter),
        accounts.contains(caller) ==> s.part(accounts).vote_result(caller) == s.vote_result(
            caller,
        ),
        accounts.contains(caller) ==> s.written_back(s.part(accounts).vote(caller, on)) == s.vote(
            caller,
            on,
        ),
{
    if accounts.contains(voter) {
        lemma_part_written_back(s.voters, accounts, voter, false);
    }
    if accounts.contains(caller) {
        lemma_part_written_back(s.voters, accounts, caller, true);
    }
}

} // verus!
