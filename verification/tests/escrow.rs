use contract_patterns::account::AccountId;
use contract_patterns::escrow::{Balance, Error, Escrow, State, Transfer};
use contract_patterns::host::HostError;

fn alice() -> AccountId {
    AccountId::from([1u8; 32])
}

fn eve() -> AccountId {
    AccountId::from([5u8; 32])
}

fn frank() -> AccountId {
    AccountId::from([6u8; 32])
}

/// The part of the ledger that the escrow is told about: the current block
/// and what the contract and the two parties hold.
struct Ledger {
    block: u64,
    contract: Balance,
    buyer: Balance,
    seller: Balance,
}

impl Ledger {
    fn advance_n_blocks(&mut self, n: u64) {
        self.block += n;
    }

    /// Carries out a transfer the way a host would, and reports how it went.
    fn transfer(&mut self, t: &Transfer, buyer: AccountId, seller: AccountId) -> Result<(), HostError> {
        if t.value > self.contract {
            return Err(HostError { cause: String::from("TransferFailed") });
        }
        self.contract -= t.value;
        if t.to == buyer {
            self.buyer += t.value;
        } else if t.to == seller {
            self.seller += t.value;
        }
        Ok(())
    }
}

fn create_contract(initial_balance: Balance, period_in_blocks: u64) -> (Escrow, Ledger, AccountId, AccountId, AccountId) {
    let contract_founder = alice();
    let buyer = eve();
    let seller = frank();
    let ledger = Ledger { block: 0, contract: initial_balance, buyer: 0, seller: 0 };
    let escrow = Escrow::new(buyer, seller, period_in_blocks, ledger.block);
    assert_eq!(escrow.buyer, buyer);
    assert_eq!(escrow.seller, seller);
    assert_eq!(escrow.state, State::AwaitPayment);
    (escrow, ledger, contract_founder, buyer, seller)
}

fn deposit(escrow: &mut Escrow, ledger: &mut Ledger, caller: AccountId, initial_buyer_balance: Balance) -> Result<(), Error> {
    assert_eq!(escrow.state, State::AwaitPayment);
    ledger.buyer = initial_buyer_balance;
    let result = escrow.deposit(caller, ledger.block);
    if result.is_ok() {
        assert_eq!(escrow.state, State::AwaitDelivery);
    }
    result
}

fn confirm_delivery(escrow: &mut Escrow, ledger: &mut Ledger, seller: AccountId, expected_deposit_value: Balance) -> Result<(), Error> {
    assert_eq!(escrow.state, State::AwaitDelivery);
    assert_eq!(ledger.contract, expected_deposit_value);
    let buyer = escrow.buyer;
    let result = match escrow.confirm_delivery(seller, ledger.block, ledger.contract) {
        Ok(t) => {
            let done = ledger.transfer(&t, buyer, seller);
            escrow.confirm_delivery_reply(t, done).map(|_| ())
        }
        Err(e) => Err(e),
    };
    if result.is_ok() {
        assert_eq!(escrow.state, State::Completed);
        assert_eq!(ledger.seller, expected_deposit_value);
        assert_eq!(ledger.contract, 0);
    }
    result
}

fn refund_deposit(
    escrow: &mut Escrow,
    ledger: &mut Ledger,
    buyer: AccountId,
    expected_deposit_value: Balance,
    expected_buyers_balance: Balance,
) -> Result<(), Error> {
    assert_eq!(escrow.state, State::Completed);
    assert_eq!(ledger.contract, expected_deposit_value);
    let seller = escrow.seller;
    let result = match escrow.refund_deposit(buyer, ledger.block, ledger.contract) {
        Ok(t) => {
            let done = ledger.transfer(&t, buyer, seller);
            escrow.refund_deposit_reply(t, done).map(|_| ())
        }
        Err(e) => Err(e),
    };
    if result.is_ok() {
        assert_eq!(escrow.state, State::Completed);
        assert_eq!(ledger.buyer, expected_buyers_balance);
        assert_eq!(ledger.contract, 0);
    }
    result
}

#[test]
fn given_new_escrow_contract_when_constructor_is_called_then_contract_is_initialized() {
    let (escrow, _, _, _, _) = create_contract(0, 100);
    assert_eq!(escrow.get_contract_termination_time(), 100);
}

#[test]
fn given_new_escrow_contract_when_block_advances_long_enough_then_contract_completes() {
    let (mut escrow, mut ledger, _, _, _) = create_contract(0, 100);
    assert_eq!(escrow.check_if_contract_not_completed_yet(), Ok(()));
    ledger.advance_n_blocks(1);
    escrow.mark_contract_as_completed_when_time_passed(ledger.block);
    assert_eq!(escrow.check_if_contract_not_completed_yet(), Ok(()));
    ledger.advance_n_blocks(99);
    escrow.mark_contract_as_completed_when_time_passed(ledger.block);
    assert_eq!(escrow.check_if_contract_not_completed_yet(), Ok(()));
    ledger.advance_n_blocks(1);
    escrow.mark_contract_as_completed_when_time_passed(ledger.block);
    assert_eq!(escrow.check_if_contract_not_completed_yet(), Err(Error::ContractAlreadyCompleted));
    ledger.advance_n_blocks(20000);
    escrow.mark_contract_as_completed_when_time_passed(ledger.block);
    assert_eq!(escrow.check_if_contract_not_completed_yet(), Err(Error::ContractAlreadyCompleted));
}

#[test]
fn given_new_escrow_contract_when_deposit_is_made_then_contract_balance_is_equal_to_deposit() {
    let (mut escrow, mut ledger, constructor_account, buyer, _) = create_contract(0, 100);
    assert_eq!(constructor_account, alice());
    assert_eq!(ledger.contract, 0);
    assert_eq!(deposit(&mut escrow, &mut ledger, buyer, 100), Ok(()));
}

#[test]
fn given_new_escrow_contract_when_deposit_is_made_more_than_once_then_error_is_returned() {
    let (mut escrow, mut ledger, _, buyer, _) = create_contract(10, 100);
    assert_eq!(deposit(&mut escrow, &mut ledger, buyer, 199), Ok(()));
    assert_eq!(escrow.deposit(buyer, ledger.block), Err(Error::FundsAlreadyDeposited));
    assert_eq!(escrow.state, State::AwaitDelivery);
}

#[test]
fn given_new_escrow_contract_when_deposit_is_made_not_by_buyer_then_error_is_returned() {
    let (mut escrow, mut ledger, _, _, seller) = create_contract(10, 100);
    let impersonated_buyer = alice();
    assert_eq!(
        deposit(&mut escrow, &mut ledger, impersonated_buyer, 98127345),
        Err(Error::DepositFundsNotAsBuyer)
    );

    let impersonated_buyer = seller;
    assert_eq!(
        deposit(&mut escrow, &mut ledger, impersonated_buyer, 19810238),
        Err(Error::DepositFundsNotAsBuyer)
    );
}

#[test]
fn given_completed_escrow_contract_when_deposit_is_made_by_buyer_then_error_is_returned() {
    let (mut escrow, mut ledger, _, buyer, _) = create_contract(10, 1000);
    ledger.advance_n_blocks(1001);
    ledger.buyer = 199;
    assert_eq!(escrow.deposit(buyer, ledger.block), Err(Error::ContractAlreadyCompleted));
}

#[test]
fn given_new_escrow_contract_when_deposit_is_made_and_delivery_done_then_seller_receives_deposit() {
    let (mut escrow, mut ledger, _, buyer, seller) = create_contract(10, 1000);
    assert_eq!(deposit(&mut escrow, &mut ledger, buyer, 199), Ok(()));
    assert_eq!(confirm_delivery(&mut escrow, &mut ledger, seller, 10), Ok(()));
}

#[test]
fn given_new_escrow_contract_when_deposit_is_not_made_and_delivery_done_then_error_is_returned() {
    let (mut escrow, ledger, _, _, seller) = create_contract(10, 1000);
    assert_eq!(
        escrow.confirm_delivery(seller, ledger.block, ledger.contract),
        Err(Error::FundsNotDepositedYet)
    );
}

#[test]
fn given_new_escrow_contract_when_delivery_done_as_not_seller_then_error_is_returned() {
    let (mut escrow, ledger, _, buyer, _) = create_contract(10, 1000);
    assert_eq!(
        escrow.confirm_delivery(buyer, ledger.block, ledger.contract),
        Err(Error::ConfirmDeliveryNotAsSeller)
    );
}

#[test]
fn given_completed_escrow_contract_with_deposit_when_delivery_done_then_error_is_returned() {
    let (mut escrow, mut ledger, _, buyer, seller) = create_contract(10, 1000);
    assert_eq!(deposit(&mut escrow, &mut ledger, buyer, 199), Ok(()));
    ledger.advance_n_blocks(1001);
    ledger.seller = 199;
    assert_eq!(
        escrow.confirm_delivery(seller, ledger.block, ledger.contract),
        Err(Error::ContractAlreadyCompleted)
    );
}

#[test]
fn given_completed_escrow_contract_without_deposit_when_delivery_done_then_error_is_returned() {
    let (mut escrow, mut ledger, _, _, seller) = create_contract(10, 1000);
    ledger.advance_n_blocks(1001);
    ledger.seller = 199;
    assert_eq!(
        escrow.confirm_delivery(seller, ledger.block, ledger.contract),
        Err(Error::ContractAlreadyCompleted)
    );
}

#[test]
fn given_deposited_escrow_contract_completes_via_time_when_refund_deposit_is_called_then_deposit_is_returned() {
    let (mut escrow, mut ledger, _, buyer, _) = create_contract(10, 99);
    assert_eq!(deposit(&mut escrow, &mut ledger, buyer, 199), Ok(()));

    ledger.advance_n_blocks(100);
    escrow.mark_contract_as_completed_when_time_passed(ledger.block);

    assert_eq!(refund_deposit(&mut escrow, &mut ledger, buyer, 10, 209), Ok(()));
}

#[test]
fn given_not_deposited_escrow_contract_completes_via_time_when_refund_deposit_is_called_then_deposit_is_not_returned() {
    let (mut escrow, mut ledger, _, buyer, _) = create_contract(0, 99);

    ledger.advance_n_blocks(100);
    escrow.mark_contract_as_completed_when_time_passed(ledger.block);

    assert_eq!(
        refund_deposit(&mut escrow, &mut ledger, buyer, 0, 209),
        Err(Error::FundsCannotBeReturned)
    );
}

#[test]
fn given_deposited_escrow_contract_not_completes_via_time_when_refund_deposit_is_called_then_deposit_is_not_returned() {
    let (mut escrow, mut ledger, _, buyer, _) = create_contract(10, 99);
    assert_eq!(deposit(&mut escrow, &mut ledger, buyer, 199), Ok(()));

    ledger.advance_n_blocks(50);
    escrow.mark_contract_as_completed_when_time_passed(ledger.block);

    assert_eq!(
        escrow.refund_deposit(buyer, ledger.block, ledger.contract),
        Err(Error::FundsCannotBeReturned)
    );
}

#[test]
fn given_deposited_escrow_contract_not_completes_via_time_when_refund_deposit_is_called_by_not_buyer_then_deposit_is_not_returned() {
    let (mut escrow, mut ledger, _, buyer, seller) = create_contract(10, 99);
    assert_eq!(deposit(&mut escrow, &mut ledger, buyer, 199), Ok(()));

    ledger.advance_n_blocks(50);
    escrow.mark_contract_as_completed_when_time_passed(ledger.block);

    assert_eq!(
        escrow.refund_deposit(seller, ledger.block, ledger.contract),
        Err(Error::FundsCannotBeReturned)
    );
}

#[test]
fn escrow_period_ends_with_its_last_block() {
    let (mut escrow, _, _, buyer, _) = create_contract(0, 100);
    // block 100 is still inside the period, block 101 is not
    assert_eq!(escrow.deposit(alice(), 100), Err(Error::DepositFundsNotAsBuyer));
    assert_eq!(escrow.deposit(alice(), 101), Err(Error::ContractAlreadyCompleted));
    assert_eq!(escrow.deposit(buyer, 100), Ok(()));
}

#[test]
fn escrow_failed_call_leaves_the_state() {
    let (mut escrow, _, _, buyer, seller) = create_contract(10, 100);
    assert_eq!(escrow.deposit(buyer, 1), Ok(()));
    // time is up, but a failing call does not record that
    assert_eq!(escrow.deposit(buyer, 500), Err(Error::ContractAlreadyCompleted));
    assert_eq!(escrow.state, State::AwaitDelivery);
    assert_eq!(escrow.confirm_delivery(seller, 500, 10), Err(Error::ContractAlreadyCompleted));
    assert_eq!(escrow.state, State::AwaitDelivery);
    assert_eq!(escrow.refund_deposit(seller, 500, 10), Err(Error::FundsCannotBeReturned));
    assert_eq!(escrow.state, State::AwaitDelivery);
    assert_eq!(escrow.refund_deposit(buyer, 500, 0), Err(Error::FundsCannotBeReturned));
    assert_eq!(escrow.state, State::AwaitDelivery);
}

#[test]
fn escrow_names_the_transfer_to_make() {
    let (mut escrow, _, _, buyer, seller) = create_contract(10, 100);
    assert_eq!(escrow.deposit(buyer, 1), Ok(()));
    assert_eq!(escrow.confirm_delivery(seller, 2, 10), Ok(Transfer { to: seller, value: 10 }));
    // naming the transfer does not complete the contract
    assert_eq!(escrow.state, State::AwaitDelivery);
    assert_eq!(
        escrow.confirm_delivery_reply(Transfer { to: seller, value: 10 }, Ok(())),
        Ok(Transfer { to: seller, value: 10 })
    );
    assert_eq!(escrow.state, State::Completed);

    let (mut escrow, _, _, buyer, _) = create_contract(10, 100);
    assert_eq!(escrow.deposit(buyer, 1), Ok(()));
    assert_eq!(escrow.refund_deposit(buyer, 101, 7), Ok(Transfer { to: buyer, value: 7 }));
    assert_eq!(escrow.state, State::AwaitDelivery);
    assert_eq!(
        escrow.refund_deposit_reply(Transfer { to: buyer, value: 7 }, Ok(())),
        Ok(Transfer { to: buyer, value: 7 })
    );
    assert_eq!(escrow.state, State::Completed);
}

#[test]
fn escrow_transfer_refused_by_the_host_fails() {
    let (escrow, _, _, _, seller) = create_contract(10, 100);
    let refused = Err(HostError { cause: String::from("below minimum balance") });
    assert_eq!(escrow.make_transfer(seller, 10, refused), Err(Error::TransferFailed));
    assert_eq!(escrow.make_transfer(seller, 10, Ok(())), Ok(Transfer { to: seller, value: 10 }));
}

#[test]
fn confirmation_with_a_refused_transfer_leaves_the_state() {
    let (mut escrow, _, _, buyer, seller) = create_contract(10, 100);
    assert_eq!(escrow.deposit(buyer, 1), Ok(()));
    let transfer = escrow.confirm_delivery(seller, 2, 10).unwrap();
    let refused = Err(HostError { cause: String::from("TransferFailed") });
    assert_eq!(escrow.confirm_delivery_reply(transfer, refused), Err(Error::TransferFailed));
    assert_eq!(escrow.state, State::AwaitDelivery);
    assert_eq!(escrow.buyer, buyer);
    assert_eq!(escrow.seller, seller);
    assert_eq!(escrow.get_contract_termination_time(), 100);
    // the seller can confirm again, and this time the host makes the transfer
    let transfer = escrow.confirm_delivery(seller, 3, 10).unwrap();
    assert_eq!(escrow.confirm_delivery_reply(transfer, Ok(())), Ok(Transfer { to: seller, value: 10 }));
    assert_eq!(escrow.state, State::Completed);
}

#[test]
fn refund_with_a_refused_transfer_leaves_the_state() {
    let (mut escrow, _, _, buyer, _) = create_contract(10, 100);
    assert_eq!(escrow.deposit(buyer, 1), Ok(()));
    // the period is over, the state in storage is still the one of the deposit
    let transfer = escrow.refund_deposit(buyer, 101, 10).unwrap();
    assert_eq!(transfer, Transfer { to: buyer, value: 10 });
    let refused = Err(HostError { cause: String::from("TransferFailed") });
    assert_eq!(escrow.refund_deposit_reply(transfer, refused), Err(Error::TransferFailed));
    assert_eq!(escrow.state, State::AwaitDelivery);
    // the buyer can claim again
    let transfer = escrow.refund_deposit(buyer, 102, 10).unwrap();
    assert_eq!(escrow.refund_deposit_reply(transfer, Ok(())), Ok(Transfer { to: buyer, value: 10 }));
    assert_eq!(escrow.state, State::Completed);
}

#[test]
fn refused_transfer_through_the_ledger() {
    // the contract is told of more than the ledger holds for it
    let (mut escrow, mut ledger, _, buyer, seller) = create_contract(10, 1000);
    assert_eq!(deposit(&mut escrow, &mut ledger, buyer, 199), Ok(()));
    let transfer = escrow.confirm_delivery(seller, ledger.block, 11).unwrap();
    let done = ledger.transfer(&transfer, buyer, seller);
    assert!(done.is_err());
    assert_eq!(escrow.confirm_delivery_reply(transfer, done), Err(Error::TransferFailed));
    assert_eq!(escrow.state, State::AwaitDelivery);
    assert_eq!(ledger.contract, 10);
    assert_eq!(ledger.seller, 0);
    assert_eq!(confirm_delivery(&mut escrow, &mut ledger, seller, 10), Ok(()));
}

#[test]
fn escrow_refund_after_completed_delivery_needs_a_balance() {
    let (mut escrow, mut ledger, _, buyer, seller) = create_contract(10, 1000);
    assert_eq!(deposit(&mut escrow, &mut ledger, buyer, 199), Ok(()));
    assert_eq!(confirm_delivery(&mut escrow, &mut ledger, seller, 10), Ok(()));
    // the funds are gone, so there is nothing to give back
    assert_eq!(
        escrow.refund_deposit(buyer, ledger.block, ledger.contract),
        Err(Error::FundsCannotBeReturned)
    );
}
