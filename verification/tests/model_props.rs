//! Satisfiability of the modelled gate set on concrete rows.

use vanilla_holdem::model::{
    adjacent_gates, check_row, vanilla_gates, Atom, Category, CellRef, GateConstraint, RowValues,
    SelectorFlags,
};

fn flags(
    straight: bool,
    flush: bool,
    one_pair: bool,
    two_pair: bool,
    three: bool,
    four: bool,
) -> SelectorFlags {
    SelectorFlags {
        q_straight: straight,
        q_flush: flush,
        q_one_pair: one_pair,
        q_two_pair: two_pair,
        q_three_of_a_kind: three,
        q_four_of_a_kind: four,
    }
}

fn row(cards: [u64; 5], num_of_pair: u64, num_of_same_kind: u64) -> RowValues {
    RowValues { cards, num_of_pair, num_of_same_kind }
}

#[test]
fn no_selector_makes_every_row_satisfiable() {
    let gates = vanilla_gates();
    let junk = row([17, 3, 99, 0, 42], 7, 9);
    assert!(check_row(&junk, &SelectorFlags::none(), &gates));
    assert!(check_row(&junk, &SelectorFlags::none(), &adjacent_gates()));
}

#[test]
fn straight_literal_gate_pins_cards_to_one() {
    let gates = vanilla_gates();
    let f = flags(true, false, false, false, false, false);
    // the registered gate accepts exactly rows whose cards 1..5 equal 1
    assert!(check_row(&row([9, 1, 1, 1, 1], 0, 0), &f, &gates));
    assert!(check_row(&row([1, 1, 1, 1, 1], 0, 0), &f, &gates));
    // a genuine run of consecutive ranks does not satisfy the literal gate
    assert!(!check_row(&row([3, 4, 5, 6, 7], 0, 0), &f, &gates));
    assert!(!check_row(&row([9, 1, 1, 1, 2], 0, 0), &f, &gates));
}

#[test]
fn straight_adjacent_gate_accepts_consecutive_ranks() {
    let gates = adjacent_gates();
    let f = flags(true, false, false, false, false, false);
    assert!(check_row(&row([3, 4, 5, 6, 7], 0, 0), &f, &gates));
    assert!(check_row(&row([10, 11, 12, 13, 14], 0, 0), &f, &gates));
    assert!(!check_row(&row([3, 4, 5, 6, 8], 0, 0), &f, &gates));
    assert!(!check_row(&row([9, 1, 1, 1, 1], 0, 0), &f, &gates));
}

#[test]
fn flush_gate_requires_all_cards_equal() {
    let gates = vanilla_gates();
    let f = flags(false, true, false, false, false, false);
    assert!(check_row(&row([23, 23, 23, 23, 23], 0, 0), &f, &gates));
    // a single differing suit encoding makes the row unsatisfiable
    assert!(!check_row(&row([23, 23, 24, 23, 23], 0, 0), &f, &gates));
    assert!(!check_row(&row([22, 23, 23, 23, 23], 0, 0), &f, &gates));
}

#[test]
fn one_pair_gate_requires_count_one() {
    let gates = vanilla_gates();
    let f = flags(false, false, true, false, false, false);
    assert!(check_row(&row([5, 5, 8, 9, 10], 1, 2), &f, &gates));
    assert!(!check_row(&row([5, 5, 8, 9, 10], 0, 2), &f, &gates));
    assert!(!check_row(&row([5, 5, 8, 8, 10], 2, 2), &f, &gates));
}

#[test]
fn two_pair_gate_requires_count_two() {
    let gates = vanilla_gates();
    let f = flags(false, false, false, true, false, false);
    assert!(check_row(&row([5, 5, 8, 8, 10], 2, 2), &f, &gates));
    assert!(!check_row(&row([5, 5, 8, 9, 10], 1, 2), &f, &gates));
    assert!(!check_row(&row([5, 5, 8, 9, 10], 0, 2), &f, &gates));
    assert!(!check_row(&row([5, 5, 8, 9, 10], 3, 2), &f, &gates));
}

#[test]
fn three_of_a_kind_gate_requires_group_of_three() {
    let gates = vanilla_gates();
    let f = flags(false, false, false, false, true, false);
    assert!(check_row(&row([5, 5, 5, 9, 10], 0, 3), &f, &gates));
    assert!(!check_row(&row([5, 5, 8, 9, 10], 0, 2), &f, &gates));
    assert!(!check_row(&row([5, 5, 5, 5, 10], 0, 4), &f, &gates));
}

#[test]
fn four_of_a_kind_gate_requires_group_of_four() {
    let gates = vanilla_gates();
    let f = flags(false, false, false, false, false, true);
    assert!(check_row(&row([5, 5, 5, 5, 10], 0, 4), &f, &gates));
    assert!(!check_row(&row([5, 5, 5, 9, 10], 0, 3), &f, &gates));
}

#[test]
fn full_house_requires_triple_and_pair() {
    let gates = vanilla_gates();
    let f = flags(false, false, true, false, true, false);
    assert!(check_row(&row([5, 5, 5, 9, 9], 1, 3), &f, &gates));
    // either sub-condition failing leaves the row unsatisfiable
    assert!(!check_row(&row([5, 5, 5, 9, 9], 0, 3), &f, &gates));
    assert!(!check_row(&row([5, 5, 5, 9, 9], 1, 2), &f, &gates));
    assert!(!check_row(&row([5, 5, 5, 9, 9], 2, 4), &f, &gates));
}

#[test]
fn vanilla_gate_list_contents() {
    let gates = vanilla_gates();
    assert_eq!(gates.len(), 14);
    // straight: card[i] - 1 for i in 1..5
    assert_eq!(
        gates[0],
        GateConstraint {
            selector: Category::Straight,
            lhs: Atom::Cell(CellRef::Card(1)),
            rhs: Atom::Const(1),
            shift: 0,
        }
    );
    assert_eq!(
        gates[3],
        GateConstraint {
            selector: Category::Straight,
            lhs: Atom::Cell(CellRef::Card(4)),
            rhs: Atom::Const(1),
            shift: 0,
        }
    );
    // flush: card[i] - card[i + 1] for i in 0..4
    assert_eq!(
        gates[4],
        GateConstraint {
            selector: Category::Flush,
            lhs: Atom::Cell(CellRef::Card(0)),
            rhs: Atom::Cell(CellRef::Card(1)),
            shift: 0,
        }
    );
    // the count gates
    assert_eq!(
        gates[8],
        GateConstraint {
            selector: Category::OnePair,
            lhs: Atom::Const(1),
            rhs: Atom::Cell(CellRef::NumOfPair),
            shift: 0,
        }
    );
    assert_eq!(
        gates[9],
        GateConstraint {
            selector: Category::TwoPair,
            lhs: Atom::Const(2),
            rhs: Atom::Cell(CellRef::NumOfPair),
            shift: 0,
        }
    );
    assert_eq!(
        gates[10],
        GateConstraint {
            selector: Category::ThreeOfAKind,
            lhs: Atom::Const(3),
            rhs: Atom::Cell(CellRef::NumOfSameKind),
            shift: 0,
        }
    );
    assert_eq!(
        gates[11],
        GateConstraint {
            selector: Category::FourOfAKind,
            lhs: Atom::Const(4),
            rhs: Atom::Cell(CellRef::NumOfSameKind),
            shift: 0,
        }
    );
    // full house: the triple and the pair legs under their own selectors
    assert_eq!(
        gates[12],
        GateConstraint {
            selector: Category::ThreeOfAKind,
            lhs: Atom::Const(3),
            rhs: Atom::Cell(CellRef::NumOfSameKind),
            shift: 0,
        }
    );
    assert_eq!(
        gates[13],
        GateConstraint {
            selector: Category::OnePair,
            lhs: Atom::Const(1),
            rhs: Atom::Cell(CellRef::NumOfPair),
            shift: 0,
        }
    );
}

#[test]
fn adjacent_gate_list_contents() {
    let gates = adjacent_gates();
    assert_eq!(gates.len(), 14);
    assert_eq!(
        gates[0],
        GateConstraint {
            selector: Category::Straight,
            lhs: Atom::Cell(CellRef::Card(1)),
            rhs: Atom::Cell(CellRef::Card(0)),
            shift: 1,
        }
    );
    assert_eq!(
        gates[3],
        GateConstraint {
            selector: Category::Straight,
            lhs: Atom::Cell(CellRef::Card(4)),
            rhs: Atom::Cell(CellRef::Card(3)),
            shift: 1,
        }
    );
    // the rest of the list agrees with the literal form
    let vanilla = vanilla_gates();
    for i in 4..14 {
        assert_eq!(gates[i], vanilla[i]);
    }
}
