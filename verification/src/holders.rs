//! The holder count of a seller's token, held against the balances that the
//! token ledger keeps.

use crate::pricing::{fitting, holders_after_acquiring, holders_after_releasing};
use vstd::prelude::*;

verus! {

/// One movement of a seller's token between the vault and a trader.
pub enum Movement {
    /// Tokens leave the vault for the trader: an exchange, or a withdrawal.
    Acquire { trader: Seq<u8>, quantity: u64 },
    /// The trader sends tokens back to the vault.
    Release { trader: Seq<u8>, amount: u64 },
}

/// The traders of one seller's token: what each of them holds, as the token
/// ledger has it, and the holder count that the seller's record keeps.
pub struct Book {
    pub balances: Map<Seq<u8>, u64>,
    pub holders: u64,
}

/// What a trader holds; nothing, if the ledger does not know the trader.
pub open spec fn balance_of(balances: Map<Seq<u8>, u64>, trader: Seq<u8>) -> u64 {
    if balances.dom().contains(trader) {
        balances[trader]
    } else {
        0
    }
}

/// The traders who hold something.
pub open spec fn holder_set(balances: Map<Seq<u8>, u64>) -> Set<Seq<u8>> {
    Set::new(|trader: Seq<u8>| balances.dom().contains(trader) && balances[trader] > 0)
}

/// The record's count is the number of traders who hold something.
pub open spec fn count_is_exact(book: Book) -> bool {
    &&& book.balances.dom().finite()
    &&& book.holders == holder_set(book.balances).len()
}

/// The book after one movement, with the count updated as the exchange
/// updates it; `None` where the movement fails: the balance that tokens
/// are taken from is too small, or a sum or the count does not fit.
pub open spec fn after_movement(book: Book, movement: Movement) -> Option<Book> {
    match movement {
        Movement::Acquire { trader, quantity } => {
            let before = balance_of(book.balances, trader);
            match (fitting(before + quantity), holders_after_acquiring(book.holders, before)) {
                (Some(after), Some(holders)) => Some(
                    Book { balances: book.balances.insert(trader, after), holders },
                ),
                _ => None,
            }
        },
        Movement::Release { trader, amount } => {
            let before = balance_of(book.balances, trader);
            match fitting(before - amount) {
                Some(after) => match holders_after_releasing(book.holders, after) {
                    Some(holders) => Some(
                        Book { balances: book.balances.insert(trader, after), holders },
                    ),
                    None => None,
                },
                None => None,
            }
        },
    }
}

/// The book after a sequence of movements, `None` if one of them fails.
pub open spec fn after_movements(book: Book, movements: Seq<Movement>) -> Option<Book>
    decreases movements.len(),
{
    if movements.len() == 0 {
        Some(book)
    } else {
        match after_movement(book, movements[0]) {
            Some(next) => after_movements(next, movements.drop_first()),
            None => None,
        }
    }
}

/// A movement of at least one token.
pub open spec fn moves_something(movement: Movement) -> bool {
    match movement {
        Movement::Acquire { quantity, .. } => quantity > 0,
        Movement::Release { amount, .. } => amount > 0,
    }
}

/// The count moves by one at most, and only when a balance leaves zero or
/// comes to it.
pub proof fn lemma_count_moves_only_at_zero(holders: u64, balance: u64)
    ensures
        holders_after_acquiring(holders, balance) matches Some(count) ==> (if balance == 0 {
            count == holders + 1
        } else {
            count == holders
        }),
        holders_after_releasing(holders, balance) matches Some(count) ==> (if balance == 0 {
            count == holders - 1
        } else {
            count == holders
        }),
{
}

proof fn lemma_holder_set_is_finite(balances: Map<Seq<u8>, u64>)
    requires
        balances.dom().finite(),
    ensures
        holder_set(balances).finite(),
        holder_set(balances).len() <= balances.dom().len(),
{
    vstd::set_lib::lemma_len_subset(holder_set(balances), balances.dom());
}

/// One movement of at least one token keeps the count exact.
pub proof fn lemma_movement_keeps_count(book: Book, movement: Movement)
    requires
        count_is_exact(book),
        moves_something(movement),
        after_movement(book, movement) is Some,
    ensures
        count_is_exact(after_movement(book, movement)->0),
{
    let next = after_movement(book, movement)->0;
    let old_set = holder_set(book.balances);
    let new_set = holder_set(next.balances);
    lemma_holder_set_is_finite(book.balances);
    match movement {
        Movement::Acquire { trader, quantity } => {
            let before = balance_of(book.balances, trader);
            if before == 0 {
                assert(new_set =~= old_set.insert(trader));
            } else {
                assert(new_set =~= old_set);
            }
        },
        Movement::Release { trader, amount } => {
            let before = balance_of(book.balances, trader);
            if before - amount == 0 {
                assert(new_set =~= old_set.remove(trader));
            } else {
                assert(new_set =~= old_set);
            }
        },
    }
}

/// Across any sequence of exchanges and transfers that each move at least
/// one token, the holder count stays the number of traders whose balance is
/// not zero.
pub proof fn lemma_holder_count_is_conserved(book: Book, movements: Seq<Movement>)
    requires
        count_is_exact(book),
        forall|i: int| 0 <= i < movements.len() ==> moves_something(#[trigger] movements[i]),
        after_movements(book, movements) is Some,
    ensures
        count_is_exact(after_movements(book, movements)->0),
    decreases movements.len(),
{
    if movements.len() > 0 {
        let next = after_movement(book, movements[0])->0;
        lemma_movement_keeps_count(book, movements[0]);
        let rest = movements.drop_first();
        assert forall|i: int| 0 <= i < rest.len() implies moves_something(#[trigger] rest[i]) by {
        }
        lemma_holder_count_is_conserved(next, rest);
    }
}

/// While the count is exact, a trader who sends back no more than the
/// trader holds is never refused for the count's sake.
pub proof fn lemma_release_never_underflows(book: Book, trader: Seq<u8>, amount: u64)
    requires
        count_is_exact(book),
        0 < amount <= balance_of(book.balances, trader),
    ensures
        after_movement(book, Movement::Release { trader, amount }) is Some,
{
    lemma_holder_set_is_finite(book.balances);
    let holders = holder_set(book.balances);
    assert(holders.contains(trader));
    if holders.len() == 0 {
        assert(holders =~= Set::empty()) by {
            vstd::set_lib::lemma_set_empty_equivalency_len(holders);
        }
    }
}

} // verus!
