//! An escrow between a buyer and a seller.
//!
//! The buyer deposits funds with the contract. The seller confirms delivery,
//! upon which the funds go to the seller; or the escrow period runs out, upon
//! which the buyer may take the deposit back. The contract holds no clock and
//! moves no funds itself: every call is told the current block and the
//! contract's balance, and answers with the transfer that the host is to
//! make. The host's answer to that transfer then settles the call: only a
//! transfer that was made completes the contract.

use vstd::prelude::*;
use crate::account::AccountId;
use crate::host::HostError;

verus! {

/// An amount of the ledger's currency.
pub type Balance = u128;

/// The escrow's state.
#[derive(Debug, Clone, Copy, PartialEq, Eq, Structural)]
pub enum State {
    /// The buyer has yet to deposit funds. The initial state, from which the clock runs.
    AwaitPayment,
    /// Funds are deposited; the seller has yet to confirm delivery.
    AwaitDelivery,
    /// The funds went to the seller or back to the buyer, or the escrow period
    /// was seen to have run out.
    Completed,
}

#[derive(Debug, Clone, Copy)]
pub struct Escrow {
    /// The escrow's state.
    pub state: State,
    /// Buyer's account.
    pub buyer: AccountId,
    /// Seller's account.
    pub seller: AccountId,
    /// The last block of the escrow period. In any later block the contract
    /// counts as completed, and a deposit can be claimed back by the buyer.
    pub escrow_end_time_at_block: u64,
}

/// The buyer has deposited funds.
#[derive(Debug, Clone, Copy, PartialEq, Eq)]
pub struct Deposit {
    pub buyer: AccountId,
}

/// The seller has marked the delivery as done.
#[derive(Debug, Clone, Copy, PartialEq, Eq)]
pub struct Delivery {
    pub seller: AccountId,
}

/// Funds leave the contract: `value` goes to `to`.
#[derive(Debug, Clone, Copy, PartialEq, Eq)]
pub struct Transfer {
    pub to: AccountId,
    pub value: Balance,
}

/// What can go wrong in a call.
#[derive(Debug, Clone, Copy, PartialEq, Eq, Structural)]
pub enum Error {
    /// Someone else than the buyer tries to deposit funds.
    DepositFundsNotAsBuyer,
    /// Someone else than the seller tries to confirm delivery.
    ConfirmDeliveryNotAsSeller,
    /// The buyer already deposited the funds.
    FundsAlreadyDeposited,
    /// The seller tries to confirm a delivery before the buyer deposited funds.
    FundsNotDepositedYet,
    /// A deposit or a confirmation reaches a contract that is completed.
    ContractAlreadyCompleted,
    /// Someone else than the buyer claims the funds back, or the buyer does so
    /// before the contract is completed, or there is nothing to give back.
    FundsCannotBeReturned,
    /// The host did not carry out a transfer.
    TransferFailed,
}

impl Escrow {
    /// Whether a call made in block `current_block` finds the contract
    /// completed: it was completed before, or the escrow period is over.
    pub open spec fn completed_at(&self, current_block: u64) -> bool {
        self.state == State::Completed || current_block > self.escrow_end_time_at_block
    }

    /// `self` with the state replaced.
    pub open spec fn with_state(&self, state: State) -> Escrow {
        Escrow {
            state,
            buyer: self.buyer,
            seller: self.seller,
            escrow_end_time_at_block: self.escrow_end_time_at_block,
        }
    }

    /// A new escrow between `buyer` and `seller`, made in block
    /// `current_block`, whose period ends `escrow_period_in_blocks` later.
    pub fn new(
        buyer: AccountId,
        seller: AccountId,
        escrow_period_in_blocks: u64,
        current_block: u64,
    ) -> (escrow: Self)
        requires
            current_block + escrow_period_in_blocks <= u64::MAX,
        ensures
            escrow == (Escrow {
                state: State::AwaitPayment,
                buyer,
                seller,
                escrow_end_time_at_block: (current_block + escrow_period_in_blocks) as u64,
            }),
    {
        Escrow {
            state: State::AwaitPayment,
            buyer,
            seller,
            escrow_end_time_at_block: current_block + escrow_period_in_blocks,
        }
    }

    /// Marks the contract completed if block `current_block` lies after the
    /// escrow period, and leaves it as it is otherwise.
    pub fn mark_contract_as_completed_when_time_passed(&mut self, current_block: u64)
        ensures
            current_block > old(self).escrow_end_time_at_block ==> *final(self) == old(
                self,
            ).with_state(State::Completed),
            current_block <= old(self).escrow_end_time_at_block ==> *final(self) == *old(self),
    {
        if current_block > self.escrow_end_time_at_block {
            self.state = State::Completed;
        }
    }

    /// Fails with `ContractAlreadyCompleted` exactly when the state is `Completed`.
    pub fn check_if_contract_not_completed_yet(&self) -> (r: Result<(), Error>)
        ensures
            self.state == State::Completed ==> r == Err::<(), Error>(
                Error::ContractAlreadyCompleted,
            ),
            self.state != State::Completed ==> r == Ok::<(), Error>(()),
    {
        if self.state == State::Completed {
            return Err(Error::ContractAlreadyCompleted);
        }
        Ok(())
    }

    /// Settles a transfer of `value` to `to` that the host was asked to make:
    /// `TransferFailed` if the host reports a failure, and otherwise the
    /// transfer as the event to announce.
    pub fn make_transfer(
        &self,
        to: AccountId,
        value: Balance,
        transferred: Result<(), HostError>,
    ) -> (r: Result<Transfer, Error>)
        ensures
            transferred is Ok ==> r == Ok::<Transfer, Error>(Transfer { to, value }),
            transferred is Err ==> r == Err::<Transfer, Error>(Error::TransferFailed),
    {
        match transferred {
            Ok(_) => Ok(Transfer { to, value }),
            Err(_) => Err(Error::TransferFailed),
        }
    }

    /// The last block of the escrow period, after which the contract counts
    /// as completed whatever buyer and seller have done.
    pub fn get_contract_termination_time(&self) -> (block: u64)
        ensures
            block == self.escrow_end_time_at_block,
    {
        self.escrow_end_time_at_block
    }

    /// What `deposit` answers.
    pub open spec fn deposit_spec(&self, caller: AccountId, current_block: u64) -> Result<
        (),
        Error,
    > {
        if self.completed_at(current_block) {
            Err(Error::ContractAlreadyCompleted)
        } else if caller != self.buyer {
            Err(Error::DepositFundsNotAsBuyer)
        } else if self.state != State::AwaitPayment {
            Err(Error::FundsAlreadyDeposited)
        } else {
            Ok(())
        }
    }

    /// Records that the buyer has deposited funds. Only the buyer can do
    /// this, once, and while the escrow period runs. A call that fails
    /// leaves the contract as it was.
    pub fn deposit(&mut self, caller: AccountId, current_block: u64) -> (r: Result<(), Error>)
        ensures
            r == old(self).deposit_spec(caller, current_block),
            r is Ok ==> *final(self) == old(self).with_state(State::AwaitDelivery),
            r is Err ==> *final(self) == *old(self),
    {
        let mut next = *self;
        next.mark_contract_as_completed_when_time_passed(current_block);
        next.check_if_contract_not_completed_yet()?;
        if caller != next.buyer {
            return Err(Error::DepositFundsNotAsBuyer);
        }
        if next.state != State::AwaitPayment {
            return Err(Error::FundsAlreadyDeposited);
        }
        next.state = State::AwaitDelivery;
        *self = next;
        Ok(())
    }

    /// What `confirm_delivery` answers when the contract holds `balance`.
    pub open spec fn confirm_delivery_spec(
        &self,
        caller: AccountId,
        current_block: u64,
        balance: Balance,
    ) -> Result<Transfer, Error> {
        if self.completed_at(current_block) {
            Err(Error::ContractAlreadyCompleted)
        } else if caller != self.seller {
            Err(Error::ConfirmDeliveryNotAsSeller)
        } else if self.state != State::AwaitDelivery {
            Err(Error::FundsNotDepositedYet)
        } else {
            Ok(Transfer { to: self.seller, value: balance })
        }
    }

    /// The contract after the host has answered a transfer that the
    /// contract asked for: completed if the transfer was made, as it was if
    /// the host refused.
    pub open spec fn settled(&self, transferred: Result<(), HostError>) -> Escrow {
        if transferred is Ok {
            self.with_state(State::Completed)
        } else {
            *self
        }
    }

    /// What a call answers once the host has answered its transfer: the
    /// transfer if it was made, `TransferFailed` if the host refused.
    pub open spec fn settled_result(
        transfer: Transfer,
        transferred: Result<(), HostError>,
    ) -> Result<Transfer, Error> {
        if transferred is Ok {
            Ok(transfer)
        } else {
            Err(Error::TransferFailed)
        }
    }

    /// Decides a confirmation of the delivery. Only the seller can confirm,
    /// after the deposit and while the escrow period runs. Where the
    /// confirmation stands, the answer is the transfer of the whole
    /// `balance` to the seller, which the host is to make; the contract
    /// itself stays as it is until the host's answer to that transfer comes
    /// in through `confirm_delivery_reply`.
    pub fn confirm_delivery(&self, caller: AccountId, current_block: u64, balance: Balance) -> (r:
        Result<Transfer, Error>)
        ensures
            r == self.confirm_delivery_spec(caller, current_block, balance),
    {
        let mut next = *self;
        next.mark_contract_as_completed_when_time_passed(current_block);
        if next.check_if_contract_not_completed_yet().is_err() {
            return Err(Error::ContractAlreadyCompleted);
        }
        if caller != next.seller {
            return Err(Error::ConfirmDeliveryNotAsSeller);
        }
        if next.state != State::AwaitDelivery {
            return Err(Error::FundsNotDepositedYet);
        }
        Ok(Transfer { to: next.seller, value: balance })
    }

    /// Ends a confirmation with the host's answer to the transfer that
    /// `confirm_delivery` named. If the transfer was made, the contract is
    /// completed and the answer is the transfer, as the event to announce.
    /// If the host refused, the call fails with `TransferFailed` and the
    /// contract stays as it was.
    pub fn confirm_delivery_reply(
        &mut self,
        transfer: Transfer,
        transferred: Result<(), HostError>,
    ) -> (r: Result<Transfer, Error>)
        ensures
            r == Self::settled_result(transfer, transferred),
            *final(self) == old(self).settled(transferred),
    {
        let event = self.make_transfer(transfer.to, transfer.value, transferred)?;
        self.state = State::Completed;
        Ok(event)
    }

    /// What `refund_deposit` answers when the contract holds `balance`.
    pub open spec fn refund_deposit_spec(
        &self,
        caller: AccountId,
        current_block: u64,
        balance: Balance,
    ) -> Result<Transfer, Error> {
        if !self.completed_at(current_block) || caller != self.buyer || balance == 0 {
            Err(Error::FundsCannotBeReturned)
        } else {
            Ok(Transfer { to: self.buyer, value: balance })
        }
    }

    /// Decides a claim of the deposit. This takes the buyer as caller, a
    /// contract that is completed or whose escrow period is over, and a
    /// balance that is not zero; anything else fails with
    /// `FundsCannotBeReturned`. Where the claim stands, the answer is the
    /// transfer of the whole `balance` to the buyer, which the host is to
    /// make; the contract itself stays as it is until the host's answer to
    /// that transfer comes in through `refund_deposit_reply`.
    pub fn refund_deposit(&self, caller: AccountId, current_block: u64, balance: Balance) -> (r:
        Result<Transfer, Error>)
        ensures
            r == self.refund_deposit_spec(caller, current_block, balance),
    {
        let mut next = *self;
        next.mark_contract_as_completed_when_time_passed(current_block);
        if next.check_if_contract_not_completed_yet().is_ok() {
            return Err(Error::FundsCannotBeReturned);
        }
        if caller != next.buyer {
            return Err(Error::FundsCannotBeReturned);
        }
        if balance == 0 {
            return Err(Error::FundsCannotBeReturned);
        }
        Ok(Transfer { to: next.buyer, value: balance })
    }

    /// Ends a refund with the host's answer to the transfer that
    /// `refund_deposit` named. If the transfer was made, the contract is
    /// completed and the answer is the transfer, as the event to announce.
    /// If the host refused, the call fails with `TransferFailed` and the
    /// contract stays as it was.
    pub fn refund_deposit_reply(
        &mut self,
        transfer: Transfer,
        transferred: Result<(), HostError>,
    ) -> (r: Result<Transfer, Error>)
        ensures
            r == Self::settled_result(transfer, transferred),
            *final(self) == old(self).settled(transferred),
    {
        let event = self.make_transfer(transfer.to, transfer.value, transferred)?;
        self.state = State::Completed;
        Ok(event)
    }
}

/// A call whose transfer the host refuses changes nothing, whatever the
/// state; one whose transfer is made completes the contract.
pub proof fn lemma_state_follows_the_transfer(escrow: Escrow, refused: HostError)
    ensures
        escrow.settled(Err::<(), HostError>(refused)) == escrow,
        escrow.settled(Ok::<(), HostError>(())).state == State::Completed,
        escrow.settled(Ok::<(), HostError>(())) == escrow.with_state(State::Completed),
{
}

/// A completed contract stays completed: it takes no deposit and no
/// confirmation, and a refund leaves it completed.
pub proof fn lemma_completed_is_final(
    escrow: Escrow,
    caller: AccountId,
    current_block: u64,
    balance: Balance,
)
    requires
        escrow.state == State::Completed,
    ensures
        escrow.deposit_spec(caller, current_block) == Err::<(), Error>(
            Error::ContractAlreadyCompleted,
        ),
        escrow.confirm_delivery_spec(caller, current_block, balance) == Err::<Transfer, Error>(
            Error::ContractAlreadyCompleted,
        ),
        escrow.with_state(State::Completed) == escrow,
        forall|transferred: Result<(), HostError>| escrow.settled(transferred) == escrow,
{
}

/// Funds only ever go to the seller upon a confirmation and to the buyer
/// upon a refund, and always the whole balance.
pub proof fn lemma_transfers_go_to_the_parties(
    escrow: Escrow,
    caller: AccountId,
    current_block: u64,
    balance: Balance,
)
    ensures
        escrow.confirm_delivery_spec(caller, current_block, balance) matches Ok(t) ==> t.to
            == escrow.seller && caller == escrow.seller && t.value == balance,
        escrow.refund_deposit_spec(caller, current_block, balance) matches Ok(t) ==> t.to
            == escrow.buyer && caller == escrow.buyer && t.value == balance && balance > 0,
{
}

} // verus!
