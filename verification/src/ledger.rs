//! The pool's total against the positions it is the total of.
//!
//! A book is one pool record with the positions staked in it. Stakes and
//! unstakes change a book as the operations change the records; the laws here
//! say that the total follows the positions through any sequence of them.

use vstd::prelude::*;
use crate::address::Address;
use crate::laws::{stake_raises_total, unstake_lowers_total};
use crate::processor::{
    closed, opened, payout_holdings, pool_minus, pool_plus, settlement, stake_spec, unstake_spec,
};
use crate::state::{StakingPool, UserStake};
use crate::step::AccountView;

verus! {

/// A pool and its positions.
pub struct Book {
    pub pool: StakingPool,
    pub positions: Seq<UserStake>,
}

/// A change to a book: position `who` stakes `amount` at `now`, or takes
/// its whole principal back, `claimed` being its rewards paid after that.
pub enum Move {
    Stake { who: int, amount: u64, now: i64 },
    Unstake { who: int, claimed: u64 },
}

/// The sum of the positions' principals.
pub open spec fn staked_sum(positions: Seq<UserStake>) -> nat
    decreases positions.len(),
{
    if positions.len() == 0 {
        0
    } else {
        staked_sum(positions.drop_last()) + positions.last().amount as nat
    }
}

/// The pool's total is the sum of its positions' principals.
pub open spec fn balanced(book: Book) -> bool {
    book.pool.total_staked == staked_sum(book.positions)
}

/// Whether the operation behind the move gets as far as changing records:
/// a stake needs an amount, an inactive position and room in the total; an
/// unstake needs an active position and a total that covers it.
pub open spec fn admits(book: Book, step: Move) -> bool {
    match step {
        Move::Stake { who, amount, now } => {
            &&& 0 <= who < book.positions.len()
            &&& amount != 0
            &&& book.positions[who].amount == 0
            &&& book.pool.total_staked + amount <= u64::MAX
        },
        Move::Unstake { who, claimed } => {
            &&& 0 <= who < book.positions.len()
            &&& book.positions[who].amount != 0
            &&& book.positions[who].amount <= book.pool.total_staked
        },
    }
}

/// The book after a move; a move that is not admitted changes nothing.
pub open spec fn after(book: Book, step: Move) -> Book {
    if !admits(book, step) {
        book
    } else {
        match step {
            Move::Stake { who, amount, now } => Book {
                pool: pool_plus(book.pool, amount),
                positions: book.positions.update(who, opened(book.positions[who], amount, now)),
            },
            Move::Unstake { who, claimed } => Book {
                pool: pool_minus(book.pool, book.positions[who].amount),
                positions: book.positions.update(who, closed(book.positions[who], claimed)),
            },
        }
    }
}

/// The book after a sequence of moves, first to last.
pub open spec fn after_all(book: Book, steps: Seq<Move>) -> Book
    decreases steps.len(),
{
    if steps.len() == 0 {
        book
    } else {
        after(after_all(book, steps.drop_last()), steps.last())
    }
}

/// Replacing one position changes the sum by the difference of the two
/// principals.
pub proof fn staked_sum_of_update(positions: Seq<UserStake>, who: int, position: UserStake)
    requires
        0 <= who < positions.len(),
    ensures
        staked_sum(positions.update(who, position)) + positions[who].amount == staked_sum(positions)
            + position.amount,
    decreases positions.len(),
{
    let updated = positions.update(who, position);
    if who == positions.len() - 1 {
        assert(updated.drop_last() =~= positions.drop_last());
    } else {
        assert(updated.drop_last() =~= positions.drop_last().update(who, position));
        staked_sum_of_update(positions.drop_last(), who, position);
    }
}

/// A single principal is no larger than the sum.
pub proof fn staked_sum_covers(positions: Seq<UserStake>, who: int)
    requires
        0 <= who < positions.len(),
    ensures
        positions[who].amount <= staked_sum(positions),
    decreases positions.len(),
{
    if who < positions.len() - 1 {
        staked_sum_covers(positions.drop_last(), who);
    }
}

/// One move keeps a balanced book balanced: a stake raises the total by the
/// amount staked, an unstake lowers it by the principal returned.
pub proof fn move_keeps_balance(book: Book, step: Move)
    requires
        balanced(book),
    ensures
        balanced(after(book, step)),
        admits(book, step) ==> (match step {
            Move::Stake { who, amount, now } => after(book, step).pool.total_staked
                == book.pool.total_staked + amount,
            Move::Unstake { who, claimed } => after(book, step).pool.total_staked
                == book.pool.total_staked - book.positions[who].amount,
        }),
{
    if admits(book, step) {
        match step {
            Move::Stake { who, amount, now } => {
                staked_sum_of_update(book.positions, who, opened(book.positions[who], amount, now));
            },
            Move::Unstake { who, claimed } => {
                staked_sum_of_update(book.positions, who, closed(book.positions[who], claimed));
            },
        }
    }
}

/// Any sequence of stakes and unstakes, by any positions in any order,
/// keeps a balanced book balanced.
pub proof fn moves_keep_balance(book: Book, steps: Seq<Move>)
    requires
        balanced(book),
    ensures
        balanced(after_all(book, steps)),
    decreases steps.len(),
{
    if steps.len() > 0 {
        moves_keep_balance(book, steps.drop_last());
        move_keeps_balance(after_all(book, steps.drop_last()), steps.last());
    }
}

/// In a balanced book the total always covers the principal of an active
/// position, so returning it cannot make the total wrap.
pub proof fn balanced_total_covers(book: Book, who: int)
    requires
        balanced(book),
        0 <= who < book.positions.len(),
    ensures
        book.positions[who].amount <= book.pool.total_staked,
{
    staked_sum_covers(book.positions, who);
}

/// A `Stake` that succeeds is an admitted stake on the book that holds the
/// records it read: what it writes are the book's records after the move.
pub proof fn stake_is_a_move(
    program: Address,
    accounts: Seq<AccountView>,
    amount: u64,
    clock: Option<i64>,
    book: Book,
    who: int,
)
    requires
        stake_spec(program, accounts, amount, clock) is Ok,
        0 <= who < book.positions.len(),
        StakingPool::decode(accounts[3].data@) == Some(book.pool),
        UserStake::decode(accounts[4].data@) == Some(book.positions[who]),
    ensures
        ({
            let step = stake_spec(program, accounts, amount, clock)->Ok_0;
            let taken = Move::Stake { who, amount, now: clock->0 };
            &&& admits(book, taken)
            &&& UserStake::decode(step->writes[0].data) == Some(after(book, taken).positions[who])
            &&& StakingPool::decode(step->writes[1].data) == Some(after(book, taken).pool)
        }),
{
    stake_raises_total(program, accounts, amount, clock);
}

/// An `Unstake` of an active position that succeeds is an admitted unstake
/// on the book that holds the records it read: what it writes are the
/// book's records after the move.
pub proof fn unstake_is_a_move(
    program: Address,
    accounts: Seq<AccountView>,
    clock: Option<i64>,
    book: Book,
    who: int,
)
    requires
        unstake_spec(program, accounts, clock) is Ok,
        0 <= who < book.positions.len(),
        StakingPool::decode(accounts[4].data@) == Some(book.pool),
        UserStake::decode(accounts[3].data@) == Some(book.positions[who]),
        book.positions[who].amount != 0,
    ensures
        ({
            let step = unstake_spec(program, accounts, clock)->Ok_0;
            let held = payout_holdings(program, accounts)->Ok_0;
            let claimed = settlement(program, accounts, held, clock->0)->Ok_0.claimed;
            let taken = Move::Unstake { who, claimed };
            &&& admits(book, taken)
            &&& UserStake::decode(step->writes[0].data) == Some(after(book, taken).positions[who])
            &&& StakingPool::decode(step->writes[1].data) == Some(after(book, taken).pool)
        }),
{
    unstake_lowers_total(program, accounts, clock);
    let held = payout_holdings(program, accounts)->Ok_0;
    let claimed = settlement(program, accounts, held, clock->0)->Ok_0.claimed;
    closed(held.position, claimed).decode_of_encoding();
}

} // verus!
