//! The write-once witness row and the hand-placement transaction.

use vanilla_holdem::row::{hand_of, AssignError, CardValue, HandRow, CARD_CELLS, ROW_CELLS};

#[test]
fn fresh_row_has_every_cell_unassigned() {
    let row = HandRow::new();
    for i in 0..ROW_CELLS {
        assert_eq!(row.cell(i), None);
    }
}

#[test]
fn assign_rejects_a_column_outside_the_schema() {
    let mut row = HandRow::new();
    assert_eq!(row.assign(ROW_CELLS, CardValue::Known(3)), Err(AssignError::NotInSchema));
    for i in 0..ROW_CELLS {
        assert_eq!(row.cell(i), None);
    }
}

#[test]
fn assign_rejects_a_second_write_to_the_same_cell() {
    let mut row = HandRow::new();
    assert_eq!(row.assign(2, CardValue::Known(3)), Ok(()));
    assert_eq!(row.assign(2, CardValue::Known(4)), Err(AssignError::AlreadyAssigned));
    assert_eq!(row.cell(2), Some(CardValue::Known(3)));
}

#[test]
fn hand_is_ordered_private_cards_first() {
    let hand = hand_of(
        &[CardValue::Known(10), CardValue::Known(20)],
        &[CardValue::Known(30), CardValue::Known(40), CardValue::Known(50)],
    );
    assert_eq!(
        hand,
        vec![
            CardValue::Known(10),
            CardValue::Known(20),
            CardValue::Known(30),
            CardValue::Known(40),
            CardValue::Known(50),
        ]
    );
}

#[test]
fn place_hand_writes_exactly_the_five_card_cells() {
    let mut row = HandRow::new();
    let r = row.place_hand(
        &[CardValue::Known(10), CardValue::Known(20)],
        &[CardValue::Known(30), CardValue::Unknown, CardValue::Known(50)],
    );
    assert_eq!(r, Ok(()));
    assert_eq!(row.cell(0), Some(CardValue::Known(10)));
    assert_eq!(row.cell(1), Some(CardValue::Known(20)));
    assert_eq!(row.cell(2), Some(CardValue::Known(30)));
    assert_eq!(row.cell(3), Some(CardValue::Unknown));
    assert_eq!(row.cell(4), Some(CardValue::Known(50)));
    // the auxiliary count cells are left to the caller
    assert_eq!(row.cell(5), None);
    assert_eq!(row.cell(6), None);
}

#[test]
fn second_placement_into_the_same_row_is_rejected() {
    let mut row = HandRow::new();
    let first = row.place_hand(
        &[CardValue::Known(1), CardValue::Known(2)],
        &[CardValue::Known(3), CardValue::Known(4), CardValue::Known(5)],
    );
    assert_eq!(first, Ok(()));
    let second = row.place_hand(
        &[CardValue::Known(6), CardValue::Known(7)],
        &[CardValue::Known(8), CardValue::Known(9), CardValue::Known(10)],
    );
    assert_eq!(second, Err(AssignError::AlreadyAssigned));
    // the rejected placement changed nothing
    assert_eq!(row.cell(0), Some(CardValue::Known(1)));
    assert_eq!(row.cell(4), Some(CardValue::Known(5)));
}

#[test]
fn placement_is_all_or_nothing() {
    let mut row = HandRow::new();
    assert_eq!(row.assign(3, CardValue::Known(99)), Ok(()));
    let r = row.place_hand(
        &[CardValue::Known(1), CardValue::Known(2)],
        &[CardValue::Known(3), CardValue::Known(4), CardValue::Known(5)],
    );
    assert_eq!(r, Err(AssignError::AlreadyAssigned));
    // no cell before the occupied one was written either
    for i in 0..CARD_CELLS {
        if i == 3 {
            assert_eq!(row.cell(i), Some(CardValue::Known(99)));
        } else {
            assert_eq!(row.cell(i), None);
        }
    }
}

#[test]
fn placement_succeeds_after_an_aux_cell_was_assigned() {
    let mut row = HandRow::new();
    assert_eq!(row.assign(5, CardValue::Known(1)), Ok(()));
    let r = row.place_hand(
        &[CardValue::Known(1), CardValue::Known(2)],
        &[CardValue::Known(3), CardValue::Known(4), CardValue::Known(5)],
    );
    assert_eq!(r, Ok(()));
    assert_eq!(row.cell(5), Some(CardValue::Known(1)));
    assert_eq!(row.cell(6), None);
}
