//! The arithmetized hand-check, modelled over plain integers.
//!
//! A circuit row holds five card values and two caller-supplied counts
//! (`num_of_pair`, `num_of_same_kind`). Each hand category contributes a
//! gate: a list of polynomial constraints of the shape
//! `selector * (lhs - rhs - shift)`, enforced to equal zero on the row.
//! Where the selector is inactive the constraint is trivially satisfied.
//!
//! Card and count values are modelled as `u64`: the field encoding embeds
//! them canonically, and in a field whose characteristic exceeds `2^66`
//! the difference of two such embedded values (less a small shift) is zero
//! exactly when the integer difference is, so satisfaction over `int`
//! below coincides with satisfaction over the field.

use vstd::prelude::*;

verus! {

/// A cell of the single circuit row that the gates read: one of the five
/// card columns, or one of the two auxiliary count columns.
#[derive(Clone, Copy, Debug, PartialEq, Eq, Structural)]
pub enum CellRef {
    /// Card column `i` (`0` and `1` hold the private cards, `2..=4` the
    /// community cards).
    Card(usize),
    /// The caller-supplied count of rank pairs in the hand.
    NumOfPair,
    /// The caller-supplied size of the largest same-rank group.
    NumOfSameKind,
}

/// One operand of a constraint: a small constant, or a cell of the row.
#[derive(Clone, Copy, Debug, PartialEq, Eq, Structural)]
pub enum Atom {
    Const(u64),
    Cell(CellRef),
}

/// The hand categories, one selector flag each. A full house has no flag
/// of its own: it is claimed by activating the one-pair and
/// three-of-a-kind selectors together.
#[derive(Clone, Copy, Debug, PartialEq, Eq, Structural)]
pub enum Category {
    Straight,
    Flush,
    OnePair,
    TwoPair,
    ThreeOfAKind,
    FourOfAKind,
}

/// One polynomial constraint, `selector * (lhs - rhs - shift)`: whenever
/// the row activates `selector`, the value `lhs - rhs - shift` must be
/// zero.
#[derive(Clone, Copy, Debug, PartialEq, Eq, Structural)]
pub struct GateConstraint {
    pub selector: Category,
    pub lhs: Atom,
    pub rhs: Atom,
    pub shift: u64,
}

/// Which category selectors are active for the row. Activation is the
/// caller's public claim of the category being proven; the gates never
/// infer it from the card values.
#[derive(Clone, Copy, Debug, PartialEq, Eq, Structural)]
pub struct SelectorFlags {
    pub q_straight: bool,
    pub q_flush: bool,
    pub q_one_pair: bool,
    pub q_two_pair: bool,
    pub q_three_of_a_kind: bool,
    pub q_four_of_a_kind: bool,
}

impl SelectorFlags {
    /// The row with no claim: every gate is vacuous (see
    /// [`crate::laws::lemma_no_selector_vacuous`]).
    pub fn none() -> (r: SelectorFlags)
        ensures
            r == (SelectorFlags {
                q_straight: false,
                q_flush: false,
                q_one_pair: false,
                q_two_pair: false,
                q_three_of_a_kind: false,
                q_four_of_a_kind: false,
            }),
    {
        SelectorFlags {
            q_straight: false,
            q_flush: false,
            q_one_pair: false,
            q_two_pair: false,
            q_three_of_a_kind: false,
            q_four_of_a_kind: false,
        }
    }
}

/// The values of one witness row: the five cards (two private, then three
/// community), and the two caller-supplied counts the count gates read.
#[derive(Clone, Copy, Debug)]
pub struct RowValues {
    pub cards: [u64; 5],
    pub num_of_pair: u64,
    pub num_of_same_kind: u64,
}

/// Whether `flags` activates the selector of category `c`.
pub open spec fn selector_active(flags: SelectorFlags, c: Category) -> bool {
    match c {
        Category::Straight => flags.q_straight,
        Category::Flush => flags.q_flush,
        Category::OnePair => flags.q_one_pair,
        Category::TwoPair => flags.q_two_pair,
        Category::ThreeOfAKind => flags.q_three_of_a_kind,
        Category::FourOfAKind => flags.q_four_of_a_kind,
    }
}

/// The integer value a cell takes on the row (a reference to a card
/// column outside `0..5` reads as zero; no gate of this schema makes one).
pub open spec fn cell_value(row: RowValues, c: CellRef) -> int {
    match c {
        CellRef::Card(i) => if i < 5 { row.cards[i as int] as int } else { 0 },
        CellRef::NumOfPair => row.num_of_pair as int,
        CellRef::NumOfSameKind => row.num_of_same_kind as int,
    }
}

/// The integer value of a constraint operand on the row.
pub open spec fn atom_value(row: RowValues, a: Atom) -> int {
    match a {
        Atom::Const(k) => k as int,
        Atom::Cell(c) => cell_value(row, c),
    }
}

/// Whether the row satisfies one constraint: either its selector is
/// inactive, or `lhs - rhs - shift` evaluates to zero.
pub open spec fn constraint_holds(row: RowValues, flags: SelectorFlags, c: GateConstraint) -> bool {
    selector_active(flags, c.selector) ==> atom_value(row, c.lhs) - atom_value(row, c.rhs)
        - c.shift == 0
}

/// Whether the row satisfies every constraint of the list.
pub open spec fn row_satisfies(row: RowValues, flags: SelectorFlags, cs: Seq<GateConstraint>) -> bool {
    forall|i: int| 0 <= i < cs.len() ==> constraint_holds(row, flags, #[trigger] cs[i])
}

/// The straight gate as registered: for each non-first card column,
/// `card - 1` must vanish. As written this pins cards `1..5` to the
/// constant one instead of asserting rank adjacency with the first card;
/// [`straight_adjacent_constraints`] states the adjacency check that a
/// rotation over the card columns would give. Both are offered and the
/// caller chooses.
pub open spec fn straight_constraints() -> Seq<GateConstraint> {
    seq![
        GateConstraint {
            selector: Category::Straight,
            lhs: Atom::Cell(CellRef::Card(1)),
            rhs: Atom::Const(1),
            shift: 0,
        },
        GateConstraint {
            selector: Category::Straight,
            lhs: Atom::Cell(CellRef::Card(2)),
            rhs: Atom::Const(1),
            shift: 0,
        },
        GateConstraint {
            selector: Category::Straight,
            lhs: Atom::Cell(CellRef::Card(3)),
            rhs: Atom::Const(1),
            shift: 0,
        },
        GateConstraint {
            selector: Category::Straight,
            lhs: Atom::Cell(CellRef::Card(4)),
            rhs: Atom::Const(1),
            shift: 0,
        },
    ]
}

/// The adjacency form of the straight gate: for each non-first card
/// column, `card[i] - card[i-1] - 1` must vanish, so consecutive columns
/// carry consecutive ranks.
pub open spec fn straight_adjacent_constraints() -> Seq<GateConstraint> {
    seq![
        GateConstraint {
            selector: Category::Straight,
            lhs: Atom::Cell(CellRef::Card(1)),
            rhs: Atom::Cell(CellRef::Card(0)),
            shift: 1,
        },
        GateConstraint {
            selector: Category::Straight,
            lhs: Atom::Cell(CellRef::Card(2)),
            rhs: Atom::Cell(CellRef::Card(1)),
            shift: 1,
        },
        GateConstraint {
            selector: Category::Straight,
            lhs: Atom::Cell(CellRef::Card(3)),
            rhs: Atom::Cell(CellRef::Card(2)),
            shift: 1,
        },
        GateConstraint {
            selector: Category::Straight,
            lhs: Atom::Cell(CellRef::Card(4)),
            rhs: Atom::Cell(CellRef::Card(3)),
            shift: 1,
        },
    ]
}

/// The flush gate: each adjacent pair of card columns must carry equal
/// values, so all five cards carry the same suit encoding.
pub open spec fn flush_constraints() -> Seq<GateConstraint> {
    seq![
        GateConstraint {
            selector: Category::Flush,
            lhs: Atom::Cell(CellRef::Card(0)),
            rhs: Atom::Cell(CellRef::Card(1)),
            shift: 0,
        },
        GateConstraint {
            selector: Category::Flush,
            lhs: Atom::Cell(CellRef::Card(1)),
            rhs: Atom::Cell(CellRef::Card(2)),
            shift: 0,
        },
        GateConstraint {
            selector: Category::Flush,
            lhs: Atom::Cell(CellRef::Card(2)),
            rhs: Atom::Cell(CellRef::Card(3)),
            shift: 0,
        },
        GateConstraint {
            selector: Category::Flush,
            lhs: Atom::Cell(CellRef::Card(3)),
            rhs: Atom::Cell(CellRef::Card(4)),
            shift: 0,
        },
    ]
}

/// The one-pair gate: `1 - num_of_pair` must vanish.
pub open spec fn one_pair_constraints() -> Seq<GateConstraint> {
    seq![
        GateConstraint {
            selector: Category::OnePair,
            lhs: Atom::Const(1),
            rhs: Atom::Cell(CellRef::NumOfPair),
            shift: 0,
        },
    ]
}

/// The two-pair gate: `2 - num_of_pair` must vanish.
pub open spec fn two_pair_constraints() -> Seq<GateConstraint> {
    seq![
        GateConstraint {
            selector: Category::TwoPair,
            lhs: Atom::Const(2),
            rhs: Atom::Cell(CellRef::NumOfPair),
            shift: 0,
        },
    ]
}

/// The three-of-a-kind gate: `3 - num_of_same_kind` must vanish.
pub open spec fn three_of_a_kind_constraints() -> Seq<GateConstraint> {
    seq![
        GateConstraint {
            selector: Category::ThreeOfAKind,
            lhs: Atom::Const(3),
            rhs: Atom::Cell(CellRef::NumOfSameKind),
            shift: 0,
        },
    ]
}

/// The four-of-a-kind gate: `4 - num_of_same_kind` must vanish.
pub open spec fn four_of_a_kind_constraints() -> Seq<GateConstraint> {
    seq![
        GateConstraint {
            selector: Category::FourOfAKind,
            lhs: Atom::Const(4),
            rhs: Atom::Cell(CellRef::NumOfSameKind),
            shift: 0,
        },
    ]
}

/// The full-house gate: a triple claimed through the three-of-a-kind
/// selector together with a pair claimed through the one-pair selector.
pub open spec fn full_house_constraints() -> Seq<GateConstraint> {
    seq![
        GateConstraint {
            selector: Category::ThreeOfAKind,
            lhs: Atom::Const(3),
            rhs: Atom::Cell(CellRef::NumOfSameKind),
            shift: 0,
        },
        GateConstraint {
            selector: Category::OnePair,
            lhs: Atom::Const(1),
            rhs: Atom::Cell(CellRef::NumOfPair),
            shift: 0,
        },
    ]
}

/// The constraints the two forms of the schema share: the flush gate and
/// the five count gates, in registration order.
pub open spec fn common_constraints() -> Seq<GateConstraint> {
    flush_constraints() + one_pair_constraints() + two_pair_constraints()
        + three_of_a_kind_constraints() + four_of_a_kind_constraints() + full_house_constraints()
}

/// The whole registered constraint set, gate by gate, with the straight
/// gate in its literal `card - 1` form.
pub open spec fn vanilla_constraints() -> Seq<GateConstraint> {
    straight_constraints() + common_constraints()
}

/// The same constraint set with the straight gate in its adjacency form.
pub open spec fn adjacent_constraints() -> Seq<GateConstraint> {
    straight_adjacent_constraints() + common_constraints()
}

/// The registered constraint set as data, with the straight gate in its
/// literal `card - 1` form.
pub fn vanilla_gates() -> (r: Vec<GateConstraint>)
    ensures
        r@ == vanilla_constraints(),
{
    let mut r: Vec<GateConstraint> = Vec::new();
    push_straight(&mut r);
    push_common(&mut r);
    assert(r@ =~= vanilla_constraints());
    r
}

/// The constraint set as data, with the straight gate in its adjacency
/// form.
pub fn adjacent_gates() -> (r: Vec<GateConstraint>)
    ensures
        r@ == adjacent_constraints(),
{
    let mut r: Vec<GateConstraint> = Vec::new();
    push_straight_adjacent(&mut r);
    push_common(&mut r);
    assert(r@ =~= adjacent_constraints());
    r
}

/// Appends the literal straight gate.
fn push_straight(r: &mut Vec<GateConstraint>)
    ensures
        final(r)@ == old(r)@ + straight_constraints(),
{
    let mut i: usize = 1;
    while i < 5
        invariant
            1 <= i <= 5,
            r@.len() == old(r)@.len() + i - 1,
            forall|j: int| 0 <= j < old(r)@.len() ==> r@[j] == old(r)@[j],
            forall|j: int|
                old(r)@.len() <= j < r@.len() ==> r@[j] == straight_constraints()[j - old(
                    r,
                )@.len()],
        decreases 5 - i,
    {
        r.push(
            GateConstraint {
                selector: Category::Straight,
                lhs: Atom::Cell(CellRef::Card(i)),
                rhs: Atom::Const(1),
                shift: 0,
            },
        );
        i += 1;
    }
    assert(r@ =~= old(r)@ + straight_constraints());
}

/// Appends the adjacency straight gate.
fn push_straight_adjacent(r: &mut Vec<GateConstraint>)
    ensures
        final(r)@ == old(r)@ + straight_adjacent_constraints(),
{
    let mut i: usize = 1;
    while i < 5
        invariant
            1 <= i <= 5,
            r@.len() == old(r)@.len() + i - 1,
            forall|j: int| 0 <= j < old(r)@.len() ==> r@[j] == old(r)@[j],
            forall|j: int|
                old(r)@.len() <= j < r@.len() ==> r@[j] == straight_adjacent_constraints()[j - old(
                    r,
                )@.len()],
        decreases 5 - i,
    {
        r.push(
            GateConstraint {
                selector: Category::Straight,
                lhs: Atom::Cell(CellRef::Card(i)),
                rhs: Atom::Cell(CellRef::Card(i - 1)),
                shift: 1,
            },
        );
        i += 1;
    }
    assert(r@ =~= old(r)@ + straight_adjacent_constraints());
}

/// Appends the flush gate and the five count gates, the part the two
/// forms of the constraint set share.
fn push_common(r: &mut Vec<GateConstraint>)
    ensures
        final(r)@ == old(r)@ + common_constraints(),
{
    let mut i: usize = 0;
    while i < 4
        invariant
            i <= 4,
            r@.len() == old(r)@.len() + i,
            forall|j: int| 0 <= j < old(r)@.len() ==> r@[j] == old(r)@[j],
            forall|j: int|
                old(r)@.len() <= j < r@.len() ==> r@[j] == flush_constraints()[j - old(r)@.len()],
        decreases 4 - i,
    {
        r.push(
            GateConstraint {
                selector: Category::Flush,
                lhs: Atom::Cell(CellRef::Card(i)),
                rhs: Atom::Cell(CellRef::Card(i + 1)),
                shift: 0,
            },
        );
        i += 1;
    }
    r.push(
        GateConstraint {
            selector: Category::OnePair,
            lhs: Atom::Const(1),
            rhs: Atom::Cell(CellRef::NumOfPair),
            shift: 0,
        },
    );
    r.push(
        GateConstraint {
            selector: Category::TwoPair,
            lhs: Atom::Const(2),
            rhs: Atom::Cell(CellRef::NumOfPair),
            shift: 0,
        },
    );
    r.push(
        GateConstraint {
            selector: Category::ThreeOfAKind,
            lhs: Atom::Const(3),
            rhs: Atom::Cell(CellRef::NumOfSameKind),
            shift: 0,
        },
    );
    r.push(
        GateConstraint {
            selector: Category::FourOfAKind,
            lhs: Atom::Const(4),
            rhs: Atom::Cell(CellRef::NumOfSameKind),
            shift: 0,
        },
    );
    r.push(
        GateConstraint {
            selector: Category::ThreeOfAKind,
            lhs: Atom::Const(3),
            rhs: Atom::Cell(CellRef::NumOfSameKind),
            shift: 0,
        },
    );
    r.push(
        GateConstraint {
            selector: Category::OnePair,
            lhs: Atom::Const(1),
            rhs: Atom::Cell(CellRef::NumOfPair),
            shift: 0,
        },
    );
    assert(r@ =~= old(r)@ + common_constraints());
}

/// Whether `flags` activates the selector of category `c`.
pub fn selector_is_active(flags: &SelectorFlags, c: Category) -> (r: bool)
    ensures
        r == selector_active(*flags, c),
{
    match c {
        Category::Straight => flags.q_straight,
        Category::Flush => flags.q_flush,
        Category::OnePair => flags.q_one_pair,
        Category::TwoPair => flags.q_two_pair,
        Category::ThreeOfAKind => flags.q_three_of_a_kind,
        Category::FourOfAKind => flags.q_four_of_a_kind,
    }
}

/// The value a constraint operand takes on the row.
pub fn eval_atom(row: &RowValues, a: Atom) -> (r: u64)
    ensures
        r as int == atom_value(*row, a),
{
    match a {
        Atom::Const(k) => k,
        Atom::Cell(c) => match c {
            CellRef::Card(i) => if i < 5 {
                row.cards[i]
            } else {
                0
            },
            CellRef::NumOfPair => row.num_of_pair,
            CellRef::NumOfSameKind => row.num_of_same_kind,
        },
    }
}

/// Whether the row satisfies one constraint.
pub fn check_constraint(row: &RowValues, flags: &SelectorFlags, c: &GateConstraint) -> (r: bool)
    ensures
        r == constraint_holds(*row, *flags, *c),
{
    if !selector_is_active(flags, c.selector) {
        true
    } else {
        let lhs = eval_atom(row, c.lhs);
        let rhs = eval_atom(row, c.rhs);
        (lhs as u128) == (rhs as u128) + (c.shift as u128)
    }
}

/// Whether the row satisfies every constraint of the list.
pub fn check_row(row: &RowValues, flags: &SelectorFlags, cs: &Vec<GateConstraint>) -> (r: bool)
    ensures
        r == row_satisfies(*row, *flags, cs@),
{
    let mut i: usize = 0;
    while i < cs.len()
        invariant
            i <= cs@.len(),
            forall|j: int| 0 <= j < i ==> constraint_holds(*row, *flags, #[trigger] cs@[j]),
        decreases cs@.len() - i,
    {
        if !check_constraint(row, flags, &cs[i]) {
            return false;
        }
        i += 1;
    }
    true
}

} // verus!
