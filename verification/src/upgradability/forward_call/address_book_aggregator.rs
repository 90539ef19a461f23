//! An aggregator that looks an account up in several address books, the
//! highest slot first, and answers with the first usable reply.
//!
//! The books are other contracts, which only the host can reach. So a
//! lookup goes in steps: the aggregator names the book to ask, the host asks
//! it and reports the reply, and the aggregator ends the lookup or names the
//! next book.

use vstd::prelude::*;
use crate::account::AccountId;
use crate::host::{HostError, InfoQuery};
use crate::text::{byte_len, stored_len};

verus! {

/// The number of address book slots.
pub const MAX_BOOK_COUNT: usize = 5;

/// The longest reply, in bytes, that the aggregator passes on.
pub const MAX_RETURNED_INFO_SIZE: usize = 20;

#[derive(Debug, Clone, Copy, PartialEq, Eq, Structural)]
pub enum Error {
    PermissionDenied,
    InvalidBookId,
}

/// Where a lookup stands.
#[derive(Debug, PartialEq, Eq)]
pub enum Lookup {
    /// The host is to put `query` to the book in slot `book_id` and report the reply.
    Ask { book_id: usize, query: InfoQuery },
    /// The lookup is over, with this answer.
    Done(Option<String>),
}

pub struct AddressBookAggregator {
    /// Owner of the contract, can change the books that queries go to.
    pub owner: AccountId,
    /// The books to query, each with the selector of its lookup entry point.
    pub address_books: [Option<(AccountId, [u8; 4])>; MAX_BOOK_COUNT],
}

/// The highest occupied slot below `below`, if there is one.
pub open spec fn next_book(books: Seq<Option<(AccountId, [u8; 4])>>, below: int) -> Option<int>
    decreases below,
{
    if below <= 0 || below > books.len() {
        None
    } else if books[below - 1] is Some {
        Some(below - 1)
    } else {
        next_book(books, below - 1)
    }
}

/// Whether a book's reply is one that the aggregator passes on: the call
/// went through, the book knows the account, and the information is short
/// enough.
pub open spec fn usable(reply: Result<Option<String>, HostError>) -> bool {
    match reply {
        Ok(Some(info)) => byte_len(info@) <= MAX_RETURNED_INFO_SIZE,
        _ => false,
    }
}

impl AddressBookAggregator {
    /// The step that a lookup for `account_id` takes once every slot from
    /// `below` upwards is done with: ask the highest occupied slot under
    /// `below`, or end without an answer if there is none.
    pub open spec fn lookup_below(&self, below: int, account_id: AccountId) -> Lookup {
        match next_book(self.address_books@, below) {
            Some(i) => Lookup::Ask {
                book_id: i as usize,
                query: InfoQuery {
                    callee: self.address_books[i].unwrap().0,
                    selector: self.address_books[i].unwrap().1,
                    account_id,
                },
            },
            None => Lookup::Done(None),
        }
    }

    /// The step that follows the reply of the book in slot `book_id`.
    pub open spec fn lookup_after(
        &self,
        account_id: AccountId,
        book_id: usize,
        reply: Result<Option<String>, HostError>,
    ) -> Lookup {
        if usable(reply) {
            Lookup::Done(reply->Ok_0)
        } else {
            self.lookup_below(book_id as int, account_id)
        }
    }

    /// An aggregator owned by `caller`, with every slot empty.
    pub fn new(caller: AccountId) -> (a: Self)
        ensures
            a.owner == caller,
            forall|i: int| 0 <= i < MAX_BOOK_COUNT ==> a.address_books[i] is None,
    {
        AddressBookAggregator { owner: caller, address_books: [None, None, None, None, None] }
    }

    /// What `set_address_book` and `remove_address_book` answer.
    pub open spec fn change_result(&self, caller: AccountId, book_id: u64) -> Result<(), Error> {
        if caller != self.owner {
            Err(Error::PermissionDenied)
        } else if book_id > MAX_BOOK_COUNT {
            Err(Error::InvalidBookId)
        } else {
            Ok(())
        }
    }

    /// Lets the owner put the book `contract_id`, with the selector of its
    /// lookup entry point, into slot `book_id`. A call that fails leaves the
    /// aggregator as it was.
    ///
    /// The slot check lets `book_id == MAX_BOOK_COUNT` through, one past the
    /// last slot. No slot can take that request, so the owner must not make it.
    pub fn set_address_book(
        &mut self,
        caller: AccountId,
        contract_id: AccountId,
        get_selector: [u8; 4],
        book_id: u64,
    ) -> (r: Result<(), Error>)
        requires
            caller == old(self).owner ==> book_id != MAX_BOOK_COUNT,
        ensures
            r == old(self).change_result(caller, book_id),
            r is Err ==> *final(self) == *old(self),
            r is Ok ==> final(self).owner == old(self).owner && final(self).address_books@ == old(
                self,
            ).address_books@.update(book_id as int, Some((contract_id, get_selector))),
    {
        if caller != self.owner {
            return Err(Error::PermissionDenied);
        }
        if book_id > MAX_BOOK_COUNT as u64 {
            return Err(Error::InvalidBookId);
        }
        self.address_books[book_id as usize] = Some((contract_id, get_selector));
        Ok(())
    }

    /// Lets the owner empty slot `book_id`. A call that fails leaves the
    /// aggregator as it was.
    ///
    /// As in `set_address_book`, the owner must not name the slot one past the last.
    pub fn remove_address_book(&mut self, caller: AccountId, book_id: u64) -> (r: Result<
        (),
        Error,
    >)
        requires
            caller == old(self).owner ==> book_id != MAX_BOOK_COUNT,
        ensures
            r == old(self).change_result(caller, book_id),
            r is Err ==> *final(self) == *old(self),
            r is Ok ==> final(self).owner == old(self).owner && final(self).address_books@ == old(
                self,
            ).address_books@.update(book_id as int, None),
    {
        if caller != self.owner {
            return Err(Error::PermissionDenied);
        }
        if book_id > MAX_BOOK_COUNT as u64 {
            return Err(Error::InvalidBookId);
        }
        self.address_books[book_id as usize] = None;
        Ok(())
    }

    fn lookup_from(&self, below: usize, account_id: AccountId) -> (r: Lookup)
        ensures
            r == self.lookup_below(below as int, account_id),
    {
        if below > MAX_BOOK_COUNT {
            return Lookup::Done(None);
        }
        let mut id = below;
        while id > 0
            invariant
                id <= below <= MAX_BOOK_COUNT,
                next_book(self.address_books@, id as int) == next_book(
                    self.address_books@,
                    below as int,
                ),
            decreases id,
        {
            id -= 1;
            if let Some((forward_to, selector)) = self.address_books[id] {
                return Lookup::Ask {
                    book_id: id,
                    query: InfoQuery { callee: forward_to, selector, account_id },
                };
            }
        }
        Lookup::Done(None)
    }

    /// Starts a lookup of the contact information of `account_id`: names
    /// the first book to ask, the one in the highest occupied slot. With
    /// every slot empty the lookup is over at once, without an answer.
    pub fn get_info(&self, account_id: AccountId) -> (r: Lookup)
        ensures
            r == self.lookup_below(MAX_BOOK_COUNT as int, account_id),
    {
        self.lookup_from(MAX_BOOK_COUNT, account_id)
    }

    /// Goes on with a lookup after the book in slot `book_id` has replied.
    /// A usable reply ends the lookup with that information. After any
    /// other reply, a failed call or an unknown account or information of
    /// more than `MAX_RETURNED_INFO_SIZE` bytes, the next occupied slot
    /// below is asked, and with none left the lookup ends without an answer.
    pub fn get_info_reply(
        &self,
        account_id: AccountId,
        book_id: usize,
        reply: Result<Option<String>, HostError>,
    ) -> (r: Lookup)
        ensures
            r == self.lookup_after(account_id, book_id, reply),
    {
        if let Ok(Some(info)) = reply {
            if stored_len(&info) <= MAX_RETURNED_INFO_SIZE {
                return Lookup::Done(Some(info));
            }
        }
        self.lookup_from(book_id, account_id)
    }
}

/// What the books would reply if asked, slot by slot.
pub type Replies = spec_fn(int) -> Result<Option<String>, HostError>;

/// The answer of a lookup that has every slot from `below` upwards behind
/// it: the information of the highest occupied slot under `below` whose
/// book gives a usable reply, and `None` if there is no such slot.
pub open spec fn answer_below(
    books: Seq<Option<(AccountId, [u8; 4])>>,
    below: int,
    replies: Replies,
) -> Option<String>
    decreases below,
{
    if below <= 0 || below > books.len() {
        None
    } else if books[below - 1] is Some && usable(replies(below - 1)) {
        replies(below - 1)->Ok_0
    } else {
        answer_below(books, below - 1, replies)
    }
}

/// Where a lookup that stands at `step` ends when it is carried through,
/// each book asked replying as `replies` says.
pub open spec fn carried_through(
    a: AddressBookAggregator,
    account_id: AccountId,
    step: Lookup,
    replies: Replies,
    rounds: nat,
) -> Option<String>
    decreases rounds,
{
    match step {
        Lookup::Done(answer) => answer,
        Lookup::Ask { book_id, query } => if rounds == 0 {
            None
        } else {
            carried_through(
                a,
                account_id,
                a.lookup_after(account_id, book_id, replies(book_id as int)),
                replies,
                (rounds - 1) as nat,
            )
        },
    }
}

/// Carried through step by step, a lookup ends with the information of the
/// highest occupied slot whose book gives a usable reply, and without an
/// answer if no book does. As many rounds as there are slots always suffice.
pub proof fn lemma_lookup_answer(
    a: AddressBookAggregator,
    account_id: AccountId,
    below: int,
    replies: Replies,
    rounds: nat,
)
    requires
        0 <= below <= MAX_BOOK_COUNT,
        rounds >= below,
    ensures
        carried_through(a, account_id, a.lookup_below(below, account_id), replies, rounds)
            == answer_below(a.address_books@, below, replies),
    decreases below,
{
    let books = a.address_books@;
    lemma_next_book(books, below);
    lemma_answer_skips_empty(books, below, replies);
    reveal_with_fuel(carried_through, 2);
    match next_book(books, below) {
        None => {},
        Some(i) => {
            if !usable(replies(i)) {
                lemma_lookup_answer(a, account_id, i, replies, (rounds - 1) as nat);
            }
        },
    }
}

/// Empty slots do not bear on the answer: below `below` it is decided by
/// the highest occupied slot, and open if that slot's reply is not usable.
proof fn lemma_answer_skips_empty(
    books: Seq<Option<(AccountId, [u8; 4])>>,
    below: int,
    replies: Replies,
)
    requires
        below <= books.len(),
    ensures
        match next_book(books, below) {
            None => answer_below(books, below, replies) is None,
            Some(i) => answer_below(books, below, replies) == if usable(replies(i)) {
                replies(i)->Ok_0
            } else {
                answer_below(books, i, replies)
            },
        },
    decreases below,
{
    if below <= 0 {
    } else if books[below - 1] is Some {
    } else {
        lemma_answer_skips_empty(books, below - 1, replies);
    }
}

/// A lookup never asks an empty slot, never asks a slot twice and goes
/// down: the book it asks next has a lower slot than any it asked before.
pub proof fn lemma_lookup_descends(a: AddressBookAggregator, below: int, account_id: AccountId)
    ensures
        a.lookup_below(below, account_id) matches Lookup::Ask { book_id, query } ==> 0 <= book_id
            < below && book_id < MAX_BOOK_COUNT && a.address_books[book_id as int] == Some(
            (query.callee, query.selector),
        ) && query.account_id == account_id,
{
    lemma_next_book(a.address_books@, below);
}

/// `next_book` names an occupied slot under `below`, and every slot
/// between the two is empty.
pub proof fn lemma_next_book(books: Seq<Option<(AccountId, [u8; 4])>>, below: int)
    ensures
        match next_book(books, below) {
            Some(i) => 0 <= i < below && i < books.len() && books[i] is Some && forall|j: int|
                i < j < below ==> books[j] is None,
            None => below <= books.len() ==> forall|j: int| 0 <= j < below ==> books[j] is None,
        },
    decreases below,
{
    if below <= 0 || below > books.len() {
    } else if books[below - 1] is Some {
    } else {
        lemma_next_book(books, below - 1);
    }
}

} // verus!
