//! The witness row and the assignment procedure that fills it.
//!
//! A row is write-once: it holds one cell per column (five card columns,
//! then the two auxiliary count columns), each assigned at most once.
//! Placing a hand writes exactly the five card cells, the two private
//! cards first and the three community cards after them, as one
//! all-or-nothing transaction. The auxiliary cells and the selector
//! activation are deliberately left to the caller assembling the full
//! witness: the assigner never decides which category is claimed.

use vstd::prelude::*;

verus! {

/// The number of card cells of a row.
pub const CARD_CELLS: usize = 5;

/// The number of cells of a row: the five card cells followed by the
/// `num_of_pair` and `num_of_same_kind` cells.
pub const ROW_CELLS: usize = 7;

/// A card value handed to the assigner: a concrete field element
/// (embedded canonically from a `u64` encoding), or the explicit
/// placeholder used when only the circuit's shape is being built, as
/// during key generation.
#[derive(Clone, Copy, Debug, PartialEq, Eq, Structural)]
pub enum CardValue {
    Known(u64),
    Unknown,
}

/// Why a cell write was rejected: the cell is not one of the declared
/// columns, or it was assigned before.
#[derive(Clone, Copy, Debug, PartialEq, Eq, Structural)]
pub enum AssignError {
    NotInSchema,
    AlreadyAssigned,
}

/// Whether the five card cells of the row are all still unassigned.
pub open spec fn card_cells_free(s: Seq<Option<CardValue>>) -> bool {
    forall|i: int| 0 <= i < CARD_CELLS ==> s[i] is None
}

/// The row after a hand was placed: the five card cells hold the hand in
/// order, every other cell is as before.
pub open spec fn placed_row(s: Seq<Option<CardValue>>, hand: Seq<CardValue>) -> Seq<
    Option<CardValue>,
> {
    Seq::new(s.len(), |i: int| if 0 <= i < CARD_CELLS { Some(hand[i]) } else { s[i] })
}

/// Once a hand was placed, the card cells are occupied, so a second
/// placement into the same row must be rejected.
pub proof fn lemma_placed_row_not_free(s: Seq<Option<CardValue>>, hand: Seq<CardValue>)
    requires
        s.len() >= CARD_CELLS,
    ensures
        !card_cells_free(placed_row(s, hand)),
{
    assert(placed_row(s, hand)[0] is Some);
}

/// The five-card hand in its fixed column order: the two private cards
/// first, then the three community cards.
pub fn hand_of(cards: &[CardValue; 2], table_cards: &[CardValue; 3]) -> (r: Vec<CardValue>)
    ensures
        r@ == cards@ + table_cards@,
        r@.len() == CARD_CELLS,
{
    let mut r: Vec<CardValue> = Vec::new();
    r.push(cards[0]);
    r.push(cards[1]);
    r.push(table_cards[0]);
    r.push(table_cards[1]);
    r.push(table_cards[2]);
    assert(r@ =~= cards@ + table_cards@);
    r
}

/// One witness row, write-once cell by cell. Constructed fresh for a
/// single proof instance and consumed by the backend afterwards.
pub struct HandRow {
    cells: Vec<Option<CardValue>>,
}

impl View for HandRow {
    type V = Seq<Option<CardValue>>;

    closed spec fn view(&self) -> Seq<Option<CardValue>> {
        self.cells@
    }
}

impl HandRow {
    /// A row is well formed when it has exactly one cell per declared
    /// column.
    pub open spec fn wf(&self) -> bool {
        self@.len() == ROW_CELLS
    }

    /// A fresh row: every cell unassigned.
    pub fn new() -> (r: HandRow)
        ensures
            r.wf(),
            forall|i: int| 0 <= i < ROW_CELLS ==> r@[i] is None,
    {
        let mut cells: Vec<Option<CardValue>> = Vec::new();
        let mut i: usize = 0;
        while i < ROW_CELLS
            invariant
                i <= ROW_CELLS,
                cells@.len() == i,
                forall|j: int| 0 <= j < i ==> cells@[j] is None,
            decreases ROW_CELLS - i,
        {
            cells.push(None);
            i += 1;
        }
        HandRow { cells }
    }

    /// The content of cell `i`: `None` while unassigned.
    pub fn cell(&self, i: usize) -> (r: Option<CardValue>)
        requires
            self.wf(),
            i < ROW_CELLS,
        ensures
            r == self@[i as int],
    {
        self.cells[i]
    }

    /// Writes one cell, rejecting a column outside the schema and a
    /// second write to the same cell; on rejection the row is unchanged.
    pub fn assign(&mut self, i: usize, v: CardValue) -> (r: Result<(), AssignError>)
        requires
            old(self).wf(),
        ensures
            final(self).wf(),
            i >= ROW_CELLS ==> r == Err::<(), AssignError>(AssignError::NotInSchema),
            i < ROW_CELLS && old(self)@[i as int] is Some ==> r == Err::<(), AssignError>(
                AssignError::AlreadyAssigned,
            ),
            i < ROW_CELLS && old(self)@[i as int] is None ==> r == Ok::<(), AssignError>(())
                && final(self)@ == old(self)@.update(i as int, Some(v)),
            r is Err ==> final(self)@ == old(self)@,
    {
        if i >= ROW_CELLS {
            return Err(AssignError::NotInSchema);
        }
        if self.cells[i].is_some() {
            return Err(AssignError::AlreadyAssigned);
        }
        self.cells.set(i, Some(v));
        Ok(())
    }

    /// Places a hand into the five card cells, private cards first, as
    /// one transaction: it succeeds exactly when all five card cells are
    /// still unassigned, writes exactly those five cells, and on
    /// rejection leaves the row unchanged.
    pub fn place_hand(&mut self, cards: &[CardValue; 2], table_cards: &[CardValue; 3]) -> (r:
        Result<(), AssignError>)
        requires
            old(self).wf(),
        ensures
            final(self).wf(),
            r is Ok <==> card_cells_free(old(self)@),
            r is Ok ==> final(self)@ == placed_row(old(self)@, cards@ + table_cards@),
            r is Err ==> final(self)@ == old(self)@ && r == Err::<(), AssignError>(
                AssignError::AlreadyAssigned,
            ),
    {
        let mut i: usize = 0;
        while i < CARD_CELLS
            invariant
                old(self).wf(),
                self == old(self),
                i <= CARD_CELLS,
                forall|j: int| 0 <= j < i ==> self@[j] is None,
            decreases CARD_CELLS - i,
        {
            if self.cells[i].is_some() {
                return Err(AssignError::AlreadyAssigned);
            }
            i += 1;
        }
        let hand = hand_of(cards, table_cards);
        let mut k: usize = 0;
        while k < CARD_CELLS
            invariant
                self.wf(),
                hand@.len() == CARD_CELLS,
                hand@ == cards@ + table_cards@,
                k <= CARD_CELLS,
                forall|j: int| 0 <= j < k ==> self@[j] == Some(hand@[j]),
                forall|j: int| k <= j < ROW_CELLS ==> self@[j] == old(self)@[j],
            decreases CARD_CELLS - k,
        {
            self.cells.set(k, Some(hand[k]));
            k += 1;
        }
        assert(self@ =~= placed_row(old(self)@, cards@ + table_cards@));
        Ok(())
    }
}

} // verus!
