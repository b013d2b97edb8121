//! Satisfiability of the registered constraints, category by category.
//!
//! Each lemma fixes a set of active selectors and characterizes exactly
//! which rows satisfy the whole constraint set: the row is satisfiable
//! when the stated condition holds, and unsatisfiable otherwise. The
//! builders' contracts state that they register exactly these modelled
//! lists bound to the given selector and column handles
//! ([`crate::chip::VanillaHoldemChip::configure`] and its adjacency
//! form), so the lemmas characterize what a configured schema enforces.

use vstd::prelude::*;

use crate::model::{
    adjacent_constraints, constraint_holds, flush_constraints, four_of_a_kind_constraints,
    full_house_constraints, one_pair_constraints, row_satisfies, straight_adjacent_constraints,
    straight_constraints, three_of_a_kind_constraints, two_pair_constraints, vanilla_constraints,
    RowValues, SelectorFlags,
};

verus! {

/// Positions of each gate's constraints inside the concatenated lists.
proof fn lemma_gate_positions()
    ensures
        vanilla_constraints().len() == 14,
        adjacent_constraints().len() == 14,
        forall|i: int| 0 <= i < 4 ==> vanilla_constraints()[i] == straight_constraints()[i],
        forall|i: int|
            0 <= i < 4 ==> adjacent_constraints()[i] == straight_adjacent_constraints()[i],
        forall|i: int| 0 <= i < 4 ==> vanilla_constraints()[4 + i] == flush_constraints()[i],
        forall|i: int| 0 <= i < 4 ==> adjacent_constraints()[4 + i] == flush_constraints()[i],
        forall|i: int|
            8 <= i < 14 ==> vanilla_constraints()[i] == adjacent_constraints()[i],
        vanilla_constraints()[8] == one_pair_constraints()[0],
        vanilla_constraints()[9] == two_pair_constraints()[0],
        vanilla_constraints()[10] == three_of_a_kind_constraints()[0],
        vanilla_constraints()[11] == four_of_a_kind_constraints()[0],
        vanilla_constraints()[12] == full_house_constraints()[0],
        vanilla_constraints()[13] == full_house_constraints()[1],
{
}

/// With no selector active every constraint is vacuous: any row at all
/// satisfies both forms of the constraint list, whatever its card and count
/// values. The selectors, not the cell contents, gate the constraints.
pub proof fn lemma_no_selector_vacuous(row: RowValues, flags: SelectorFlags)
    requires
        !flags.q_straight,
        !flags.q_flush,
        !flags.q_one_pair,
        !flags.q_two_pair,
        !flags.q_three_of_a_kind,
        !flags.q_four_of_a_kind,
    ensures
        row_satisfies(row, flags, vanilla_constraints()),
        row_satisfies(row, flags, adjacent_constraints()),
{
}

/// The straight gate as registered (`card - 1` for the four non-first
/// columns): with only the straight selector active, the row is
/// satisfiable exactly when cards `1..5` all equal the constant one,
/// independent of the first card. This pins the literal behaviour of the
/// registered gate; the intended adjacency semantics is
/// [`lemma_straight_adjacent_gate`].
pub proof fn lemma_straight_gate(row: RowValues, flags: SelectorFlags)
    requires
        flags.q_straight,
        !flags.q_flush,
        !flags.q_one_pair,
        !flags.q_two_pair,
        !flags.q_three_of_a_kind,
        !flags.q_four_of_a_kind,
    ensures
        row_satisfies(row, flags, vanilla_constraints()) <==> (forall|i: int|
            1 <= i < 5 ==> row.cards[i] == 1),
{
    lemma_gate_positions();
    let cs = vanilla_constraints();
    if row_satisfies(row, flags, cs) {
        assert forall|i: int| 1 <= i < 5 implies row.cards[i] == 1 by {
            assert(constraint_holds(row, flags, cs[i - 1]));
        }
    }
    if forall|i: int| 1 <= i < 5 ==> row.cards[i] == 1 {
        assert forall|i: int| 0 <= i < cs.len() implies constraint_holds(
            row,
            flags,
            #[trigger] cs[i],
        ) by {
            if i < 4 {
                assert(row.cards[i + 1] == 1);
            }
        }
    }
}

/// The adjacency form of the straight gate: with only the straight
/// selector active, the row is satisfiable exactly when each card exceeds
/// its predecessor by one, i.e. the five ranks are consecutive in
/// sequence.
pub proof fn lemma_straight_adjacent_gate(row: RowValues, flags: SelectorFlags)
    requires
        flags.q_straight,
        !flags.q_flush,
        !flags.q_one_pair,
        !flags.q_two_pair,
        !flags.q_three_of_a_kind,
        !flags.q_four_of_a_kind,
    ensures
        row_satisfies(row, flags, adjacent_constraints()) <==> (forall|i: int|
            1 <= i < 5 ==> #[trigger] row.cards[i] == row.cards[i - 1] + 1),
{
    lemma_gate_positions();
    let cs = adjacent_constraints();
    if row_satisfies(row, flags, cs) {
        assert forall|i: int| 1 <= i < 5 implies #[trigger] row.cards[i] == row.cards[i - 1]
            + 1 by {
            assert(constraint_holds(row, flags, cs[i - 1]));
        }
    }
    if forall|i: int| 1 <= i < 5 ==> #[trigger] row.cards[i] == row.cards[i - 1] + 1 {
        assert forall|i: int| 0 <= i < cs.len() implies constraint_holds(
            row,
            flags,
            #[trigger] cs[i],
        ) by {
            if i < 4 {
                assert(row.cards[i + 1] == row.cards[i] + 1);
            }
        }
    }
}

/// The flush gate: with only the flush selector active, the row is
/// satisfiable exactly when the five cards carry one and the same value
/// (equivalently, each adjacent pair of card columns is equal) — so a
/// single card with a differing suit encoding makes the row
/// unsatisfiable.
pub proof fn lemma_flush_gate(row: RowValues, flags: SelectorFlags)
    requires
        !flags.q_straight,
        flags.q_flush,
        !flags.q_one_pair,
        !flags.q_two_pair,
        !flags.q_three_of_a_kind,
        !flags.q_four_of_a_kind,
    ensures
        row_satisfies(row, flags, vanilla_constraints()) <==> (forall|i: int|
            0 <= i < 4 ==> #[trigger] row.cards[i] == row.cards[i + 1]),
        row_satisfies(row, flags, vanilla_constraints()) <==> (forall|i: int|
            0 <= i < 5 ==> #[trigger] row.cards[i] == row.cards[0]),
{
    lemma_gate_positions();
    let cs = vanilla_constraints();
    if row_satisfies(row, flags, cs) {
        assert forall|i: int| 0 <= i < 4 implies #[trigger] row.cards[i] == row.cards[i + 1] by {
            assert(constraint_holds(row, flags, cs[4 + i]));
        }
    }
    if forall|i: int| 0 <= i < 4 ==> #[trigger] row.cards[i] == row.cards[i + 1] {
        assert(row.cards[0] == row.cards[1]);
        assert(row.cards[1] == row.cards[2]);
        assert(row.cards[2] == row.cards[3]);
        assert(row.cards[3] == row.cards[4]);
        assert forall|i: int| 0 <= i < cs.len() implies constraint_holds(
            row,
            flags,
            #[trigger] cs[i],
        ) by {
            if 4 <= i < 8 {
                assert(row.cards[i - 4] == row.cards[i - 3]);
            }
        }
    }
    if forall|i: int| 0 <= i < 5 ==> #[trigger] row.cards[i] == row.cards[0] {
        assert forall|i: int| 0 <= i < 4 implies #[trigger] row.cards[i] == row.cards[i + 1] by {
            assert(row.cards[i] == row.cards[0]);
            assert(row.cards[i + 1] == row.cards[0]);
        }
    }
}

/// The one-pair gate: with only the one-pair selector active (which also
/// enables the pair leg of the full-house gate), the row is satisfiable
/// exactly when the supplied pair count equals one — so `num_of_pair` of
/// zero or two leaves it unsatisfiable.
pub proof fn lemma_one_pair_gate(row: RowValues, flags: SelectorFlags)
    requires
        !flags.q_straight,
        !flags.q_flush,
        flags.q_one_pair,
        !flags.q_two_pair,
        !flags.q_three_of_a_kind,
        !flags.q_four_of_a_kind,
    ensures
        row_satisfies(row, flags, vanilla_constraints()) <==> row.num_of_pair == 1,
{
    lemma_gate_positions();
    let cs = vanilla_constraints();
    if row_satisfies(row, flags, cs) {
        assert(constraint_holds(row, flags, cs[8]));
    }
}

/// The two-pair gate: with only the two-pair selector active, the row is
/// satisfiable exactly when the supplied pair count equals two.
pub proof fn lemma_two_pair_gate(row: RowValues, flags: SelectorFlags)
    requires
        !flags.q_straight,
        !flags.q_flush,
        !flags.q_one_pair,
        flags.q_two_pair,
        !flags.q_three_of_a_kind,
        !flags.q_four_of_a_kind,
    ensures
        row_satisfies(row, flags, vanilla_constraints()) <==> row.num_of_pair == 2,
{
    lemma_gate_positions();
    let cs = vanilla_constraints();
    if row_satisfies(row, flags, cs) {
        assert(constraint_holds(row, flags, cs[9]));
    }
}

/// The three-of-a-kind gate: with only the three-of-a-kind selector
/// active (which also enables the triple leg of the full-house gate), the
/// row is satisfiable exactly when the supplied largest-group size equals
/// three.
pub proof fn lemma_three_of_a_kind_gate(row: RowValues, flags: SelectorFlags)
    requires
        !flags.q_straight,
        !flags.q_flush,
        !flags.q_one_pair,
        !flags.q_two_pair,
        flags.q_three_of_a_kind,
        !flags.q_four_of_a_kind,
    ensures
        row_satisfies(row, flags, vanilla_constraints()) <==> row.num_of_same_kind == 3,
{
    lemma_gate_positions();
    let cs = vanilla_constraints();
    if row_satisfies(row, flags, cs) {
        assert(constraint_holds(row, flags, cs[10]));
    }
}

/// The four-of-a-kind gate: with only the four-of-a-kind selector active,
/// the row is satisfiable exactly when the supplied largest-group size
/// equals four.
pub proof fn lemma_four_of_a_kind_gate(row: RowValues, flags: SelectorFlags)
    requires
        !flags.q_straight,
        !flags.q_flush,
        !flags.q_one_pair,
        !flags.q_two_pair,
        !flags.q_three_of_a_kind,
        flags.q_four_of_a_kind,
    ensures
        row_satisfies(row, flags, vanilla_constraints()) <==> row.num_of_same_kind == 4,
{
    lemma_gate_positions();
    let cs = vanilla_constraints();
    if row_satisfies(row, flags, cs) {
        assert(constraint_holds(row, flags, cs[11]));
    }
}

/// The full-house claim: with the one-pair and three-of-a-kind selectors
/// both active, the row is satisfiable exactly when the supplied
/// largest-group size equals three and the supplied pair count equals one
/// — either sub-condition failing leaves it unsatisfiable.
pub proof fn lemma_full_house_gates(row: RowValues, flags: SelectorFlags)
    requires
        !flags.q_straight,
        !flags.q_flush,
        flags.q_one_pair,
        !flags.q_two_pair,
        flags.q_three_of_a_kind,
        !flags.q_four_of_a_kind,
    ensures
        row_satisfies(row, flags, vanilla_constraints()) <==> (row.num_of_same_kind == 3
            && row.num_of_pair == 1),
{
    lemma_gate_positions();
    let cs = vanilla_constraints();
    if row_satisfies(row, flags, cs) {
        assert(constraint_holds(row, flags, cs[8]));
        assert(constraint_holds(row, flags, cs[10]));
    }
}

} // verus!
