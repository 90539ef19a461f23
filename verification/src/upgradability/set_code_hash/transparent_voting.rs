//! The vote of `voting`, on the same storage, that also tells the count of
//! each option.

use vstd::prelude::*;
use crate::account::AccountId;
use crate::account_map::AccountMap;
use crate::host::{HostError, SetCodeHash};
use crate::upgradability::set_code_hash::voting::{winner, Voting, VotingView};
pub use crate::upgradability::set_code_hash::voting::{Error, Result};

verus! {

pub struct TransparentVoting {
    /// The votes counted for option 0 and for option 1.
    pub votes: [u8; 2],
    /// The account that registers voters and may replace the code.
    pub admin: AccountId,
    /// The registered voters, each with whether they have voted.
    pub voters: AccountMap<bool>,
}

impl View for TransparentVoting {
    type V = VotingView;

    open spec fn view(&self) -> VotingView {
        VotingView { votes: self.votes@, admin: self.admin, voters: self.voters@ }
    }
}

impl TransparentVoting {
    /// A vote without voters or votes, administered by `caller`.
    pub fn new(caller: AccountId) -> (v: Self)
        ensures
            v@ == (VotingView { votes: seq![0u8, 0u8], admin: caller, voters: Map::empty() }),
    {
        let v = TransparentVoting { votes: [0, 0], admin: caller, voters: AccountMap::new() };
        v
    }

    /// Takes over the storage that `voting` leaves behind, as it is.
    pub fn from_legacy(legacy: Voting) -> (v: Self)
        ensures
            v@ == legacy@,
    {
        TransparentVoting { votes: legacy.votes, admin: legacy.admin, voters: legacy.voters }
    }

    /// Registers `voter`. Only the admin can do this, and only once for each
    /// account. A call that fails leaves the contract as it was.
    pub fn add_new_voter(&mut self, caller: AccountId, voter: AccountId) -> (r: Result)
        ensures
            r == old(self)@.add_new_voter_result(caller, voter),
            final(self)@ == old(self)@.add_new_voter(caller, voter),
            r is Err ==> *final(self) == *old(self),
    {
        if caller != self.admin {
            return Err(Error::PermissionDenied);
        }
        if self.voters.contains(voter) {
            return Err(Error::AlreadyVoter);
        }
        self.voters.insert(voter, false);
        Ok(())
    }

    /// Current result of the vote: the option that leads, option 0 on a tie.
    pub fn get_winner(&self) -> (w: u8)
        ensures
            w == winner(self@.votes[0] as int, self@.votes[1] as int),
    {
        if self.votes[0] < self.votes[1] {
            1
        } else {
            0
        }
    }

    fn vote(&mut self, caller: AccountId, on: usize) -> (r: Result)
        requires
            on < 2,
            old(self)@.may_vote(caller) ==> old(self)@.votes[on as int] < u8::MAX,
        ensures
            r == old(self)@.vote_result(caller),
            final(self)@ == old(self)@.vote(caller, on as int),
            r is Err ==> *final(self) == *old(self),
    {
        match self.voters.get(caller) {
            None => {
                return Err(Error::NotVoter);
            },
            Some(has_voted) => {
                if *has_voted {
                    return Err(Error::HasAlreadyVoted);
                }
            },
        }
        self.votes[on] = self.votes[on] + 1;
        self.voters.insert(caller, true);
        Ok(())
    }

    /// Casts the vote of `caller` for option 0. The caller must be registered
    /// and must not have voted before; a call that fails leaves the contract
    /// as it was. The count of an option stops at 255: a vote that would go
    /// beyond must not be made.
    pub fn vote_0(&mut self, caller: AccountId) -> (r: Result)
        requires
            old(self)@.may_vote(caller) ==> old(self)@.votes[0] < u8::MAX,
        ensures
            r == old(self)@.vote_result(caller),
            final(self)@ == old(self)@.vote(caller, 0),
            r is Err ==> *final(self) == *old(self),
    {
        self.vote(caller, 0)?;
        Ok(())
    }

    /// Casts the vote of `caller` for option 1, as `vote_0` does for option 0.
    pub fn vote_1(&mut self, caller: AccountId) -> (r: Result)
        requires
            old(self)@.may_vote(caller) ==> old(self)@.votes[1] < u8::MAX,
        ensures
            r == old(self)@.vote_result(caller),
            final(self)@ == old(self)@.vote(caller, 1),
            r is Err ==> *final(self) == *old(self),
    {
        self.vote(caller, 1)?;
        Ok(())
    }

    /// Number of votes for option 0.
    pub fn votes_for_0(&self) -> (n: u8)
        ensures
            n == self@.votes[0],
    {
        self.votes[0]
    }

    /// Number of votes for option 1.
    pub fn votes_for_1(&self) -> (n: u8)
        ensures
            n == self@.votes[1],
    {
        self.votes[1]
    }

    /// Decides a request by `caller` to replace the contract's code by
    /// `code_hash`. Only the admin may: for the admin the answer is the
    /// request to hand to the host, for anyone else `PermissionDenied`. The
    /// contract's storage is not touched either way.
    pub fn set_code(&self, caller: AccountId, code_hash: [u8; 32]) -> (r: core::result::Result<
        SetCodeHash,
        Error,
    >)
        ensures
            r == self@.set_code_result(caller, code_hash),
    {
        if caller != self.admin {
            return Err(Error::PermissionDenied);
        }
        Ok(SetCodeHash { code_hash })
    }

    /// Ends a code replacement with the host's reply: success if the host
    /// bound the new code, `SetCodeFailed` if it refused.
    pub fn set_code_reply(reply: core::result::Result<(), HostError>) -> (r: Result)
        ensures
            reply is Ok ==> r == Ok::<(), Error>(()),
            reply is Err ==> r == Err::<(), Error>(Error::SetCodeFailed),
    {
        if let Err(_) = reply {
            return Err(Error::SetCodeFailed);
        }
        Ok(())
    }
}

} // verus!
