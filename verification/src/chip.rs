//! The schema builder and the witness assigner against the backend.
//!
//! `configure` registers, gate by gate, exactly the constraint set that
//! [`crate::model::vanilla_constraints`] states (`configure_adjacent` its
//! adjacency variant), bound to the given selector and column handles:
//! its contract states, over the schema handle's ghost registration
//! record, which constraints were registered. `assign_card` places one
//! hand into the five card columns of a fresh region, private cards
//! first; the cell writes are stated over the region handle's ghost write
//! record.

use vstd::prelude::*;

use halo2_proofs::circuit::Layouter;
use halo2_proofs::pasta::Fp;
use halo2_proofs::plonk::{Error, Selector};

use crate::backend::{
    allocate_advice_column, allocate_instance_column, allocate_selector, region_assign_known,
    region_assign_unknown, register_cell_diff_gate, register_cell_diff_minus_const_gate,
    register_cells_minus_const_gate, register_const_minus_cell_gate, AdviceColumn, CellWrite,
    InstanceColumn, RegionHandle, RegionRef, RegisteredConstraint, RegisteredOperand, SchemaHandle,
};
use crate::model::{
    adjacent_constraints, common_constraints, straight_adjacent_constraints, straight_constraints,
    vanilla_constraints, Atom, Category, CellRef, GateConstraint,
};
use crate::row::{hand_of, CardValue, CARD_CELLS};

verus! {

/// The declared schema: one selector per category, the five card columns
/// (two private cards, then three community cards), and the two public
/// columns meant to bind the proof to the board. The board holds three
/// cards against the two declared public columns — an arity mismatch of
/// the schema as designed, carried as is; the two auxiliary count columns
/// are referenced by the registered gates but deliberately not bundled
/// here, so the caller assembling the full witness must keep them.
#[derive(Clone, Copy)]
pub struct VanillaHoldemConfig {
    pub q_straight: Selector,
    pub q_flush: Selector,
    pub q_one_pair: Selector,
    pub q_two_pair: Selector,
    pub q_three_of_a_kind: Selector,
    pub q_four_of_a_kind: Selector,
    pub cards: [AdviceColumn; 5],
    pub table_cards: [InstanceColumn; 2],
}

/// The handles a configuration binds the modelled cells and selectors to.
pub struct GateHandles {
    pub q_straight: Selector,
    pub q_flush: Selector,
    pub q_one_pair: Selector,
    pub q_two_pair: Selector,
    pub q_three_of_a_kind: Selector,
    pub q_four_of_a_kind: Selector,
    pub cards: [AdviceColumn; 5],
    pub num_of_pair: AdviceColumn,
    pub num_of_same_kind: AdviceColumn,
}

/// The selector handle standing for a category.
pub open spec fn bound_selector(h: GateHandles, c: Category) -> Selector {
    match c {
        Category::Straight => h.q_straight,
        Category::Flush => h.q_flush,
        Category::OnePair => h.q_one_pair,
        Category::TwoPair => h.q_two_pair,
        Category::ThreeOfAKind => h.q_three_of_a_kind,
        Category::FourOfAKind => h.q_four_of_a_kind,
    }
}

/// The column handle standing for a cell of the row (no gate of this
/// schema refers to a card column outside `0..5`, so that branch is
/// immaterial).
pub open spec fn bound_column(h: GateHandles, c: CellRef) -> AdviceColumn {
    match c {
        CellRef::Card(i) => if i < 5 {
            h.cards[i as int]
        } else {
            h.num_of_pair
        },
        CellRef::NumOfPair => h.num_of_pair,
        CellRef::NumOfSameKind => h.num_of_same_kind,
    }
}

/// A modelled constraint operand bound to backend handles.
pub open spec fn bound_operand(h: GateHandles, a: Atom) -> RegisteredOperand {
    match a {
        Atom::Const(k) => RegisteredOperand::Const(k),
        Atom::Cell(c) => RegisteredOperand::Col(bound_column(h, c)),
    }
}

/// A modelled constraint bound to backend handles.
pub open spec fn bound_constraint(h: GateHandles, c: GateConstraint) -> RegisteredConstraint {
    RegisteredConstraint {
        selector: bound_selector(h, c.selector),
        lhs: bound_operand(h, c.lhs),
        rhs: bound_operand(h, c.rhs),
        shift: c.shift,
    }
}

/// A modelled constraint list bound to backend handles, in order. The
/// satisfiability laws of [`crate::laws`] speak of the modelled list;
/// through this binding they speak of what the builders register.
pub open spec fn bound_constraints(h: GateHandles, cs: Seq<GateConstraint>) -> Seq<
    RegisteredConstraint,
> {
    cs.map(|i: int, c: GateConstraint| bound_constraint(h, c))
}

/// Whether every advice handle the gates will query lies below the
/// handle's advice-column count.
pub open spec fn handles_in_schema(h: GateHandles, advice_count: nat) -> bool {
    &&& forall|i: int| 0 <= i < 5 ==> #[trigger] h.cards[i].idx@ < advice_count
    &&& h.num_of_pair.idx@ < advice_count
    &&& h.num_of_same_kind.idx@ < advice_count
}

/// The hand-check chip: a bundle of the declared schema.
pub struct VanillaHoldemChip {
    config: VanillaHoldemConfig,
}

impl View for VanillaHoldemChip {
    type V = VanillaHoldemConfig;

    closed spec fn view(&self) -> VanillaHoldemConfig {
        self.config
    }
}

impl VanillaHoldemChip {
    /// Bundles a declared schema into a chip.
    pub fn construct(config: VanillaHoldemConfig) -> (r: VanillaHoldemChip)
        ensures
            r@ == config,
    {
        VanillaHoldemChip { config }
    }

    /// Declares the whole gate set against the backend's constraint
    /// system, one registration per gate, in the fixed order: straight
    /// (literal `card - 1` form; see
    /// [`crate::model::straight_constraints`]), flush, one pair, two
    /// pair, three of a kind, four of a kind, full house. The registered
    /// constraints are exactly the modelled list bound to the given
    /// handles; no selector or column is allocated (the handle's
    /// allocation count is unchanged). Returns the schema descriptor
    /// bundling the handles it was given.
    pub fn configure(
        meta: &mut SchemaHandle<'_>,
        q_flush: Selector,
        q_straight: Selector,
        q_one_pair: Selector,
        q_two_pair: Selector,
        q_three_of_a_kind: Selector,
        q_four_of_a_kind: Selector,
        cards: [AdviceColumn; 5],
        table_cards: [InstanceColumn; 2],
        num_of_pair: AdviceColumn,
        num_of_same_kind: AdviceColumn,
    ) -> (r: VanillaHoldemConfig)
        requires
            handles_in_schema(
                (GateHandles {
                    q_straight,
                    q_flush,
                    q_one_pair,
                    q_two_pair,
                    q_three_of_a_kind,
                    q_four_of_a_kind,
                    cards,
                    num_of_pair,
                    num_of_same_kind,
                }),
                old(meta).advice_count(),
            ),
        ensures
            final(meta).advice_count() == old(meta).advice_count(),
            final(meta).allocations() == old(meta).allocations(),
            final(meta).gates() == old(meta).gates() + bound_constraints(
                (GateHandles {
                    q_straight,
                    q_flush,
                    q_one_pair,
                    q_two_pair,
                    q_three_of_a_kind,
                    q_four_of_a_kind,
                    cards,
                    num_of_pair,
                    num_of_same_kind,
                }),
                vanilla_constraints(),
            ),
            r == (VanillaHoldemConfig {
                q_straight,
                q_flush,
                q_one_pair,
                q_two_pair,
                q_three_of_a_kind,
                q_four_of_a_kind,
                cards,
                table_cards,
            }),
    {
        let ghost h = GateHandles {
            q_straight,
            q_flush,
            q_one_pair,
            q_two_pair,
            q_three_of_a_kind,
            q_four_of_a_kind,
            cards,
            num_of_pair,
            num_of_same_kind,
        };

        // straight: card[i] - 1 for the four non-first card columns
        let mut straight_cols: Vec<AdviceColumn> = Vec::new();
        straight_cols.push(cards[1]);
        straight_cols.push(cards[2]);
        straight_cols.push(cards[3]);
        straight_cols.push(cards[4]);
        proof {
            assert forall|i: int|
                0 <= i < straight_cols@.len() implies #[trigger] straight_cols@[i].idx@ < meta.advice_count() by {
                assert(h.cards[i + 1].idx@ < meta.advice_count());
            }
        }
        register_cells_minus_const_gate(meta, "straight", q_straight, &straight_cols, 1);
        proof {
            assert(meta.gates() =~= old(meta).gates() + bound_constraints(
                h,
                straight_constraints(),
            ));
        }

        register_common_gates(
            meta,
            Ghost(h),
            q_flush,
            q_one_pair,
            q_two_pair,
            q_three_of_a_kind,
            q_four_of_a_kind,
            &cards,
            num_of_pair,
            num_of_same_kind,
        );
        proof {
            assert(meta.gates() =~= old(meta).gates() + bound_constraints(
                h,
                vanilla_constraints(),
            ));
        }

        VanillaHoldemConfig {
            q_straight,
            q_flush,
            q_one_pair,
            q_two_pair,
            q_three_of_a_kind,
            q_four_of_a_kind,
            cards,
            table_cards,
        }
    }

    /// Declares the same gates as [`VanillaHoldemChip::configure`], with
    /// the straight gate in its adjacency form
    /// ([`crate::model::straight_adjacent_constraints`]): `card[i] -
    /// card[i-1] - 1` for the four non-first card columns. The caller
    /// chooses between the two forms at configuration time.
    pub fn configure_adjacent(
        meta: &mut SchemaHandle<'_>,
        q_flush: Selector,
        q_straight: Selector,
        q_one_pair: Selector,
        q_two_pair: Selector,
        q_three_of_a_kind: Selector,
        q_four_of_a_kind: Selector,
        cards: [AdviceColumn; 5],
        table_cards: [InstanceColumn; 2],
        num_of_pair: AdviceColumn,
        num_of_same_kind: AdviceColumn,
    ) -> (r: VanillaHoldemConfig)
        requires
            handles_in_schema(
                (GateHandles {
                    q_straight,
                    q_flush,
                    q_one_pair,
                    q_two_pair,
                    q_three_of_a_kind,
                    q_four_of_a_kind,
                    cards,
                    num_of_pair,
                    num_of_same_kind,
                }),
                old(meta).advice_count(),
            ),
        ensures
            final(meta).advice_count() == old(meta).advice_count(),
            final(meta).allocations() == old(meta).allocations(),
            final(meta).gates() == old(meta).gates() + bound_constraints(
                (GateHandles {
                    q_straight,
                    q_flush,
                    q_one_pair,
                    q_two_pair,
                    q_three_of_a_kind,
                    q_four_of_a_kind,
                    cards,
                    num_of_pair,
                    num_of_same_kind,
                }),
                adjacent_constraints(),
            ),
            r == (VanillaHoldemConfig {
                q_straight,
                q_flush,
                q_one_pair,
                q_two_pair,
                q_three_of_a_kind,
                q_four_of_a_kind,
                cards,
                table_cards,
            }),
    {
        let ghost h = GateHandles {
            q_straight,
            q_flush,
            q_one_pair,
            q_two_pair,
            q_three_of_a_kind,
            q_four_of_a_kind,
            cards,
            num_of_pair,
            num_of_same_kind,
        };

        // straight: card[i] - card[i - 1] - 1 for the four non-first card
        // columns, so consecutive columns carry consecutive ranks
        let mut adjacent_pairs: Vec<(AdviceColumn, AdviceColumn)> = Vec::new();
        adjacent_pairs.push((cards[1], cards[0]));
        adjacent_pairs.push((cards[2], cards[1]));
        adjacent_pairs.push((cards[3], cards[2]));
        adjacent_pairs.push((cards[4], cards[3]));
        proof {
            assert forall|i: int|
                0 <= i < adjacent_pairs@.len() implies (#[trigger] adjacent_pairs@[i]).0.idx@
                    < meta.advice_count() && adjacent_pairs@[i].1.idx@ < meta.advice_count() by {
                assert(h.cards[i + 1].idx@ < meta.advice_count());
                assert(h.cards[i].idx@ < meta.advice_count());
            }
        }
        register_cell_diff_minus_const_gate(meta, "straight", q_straight, &adjacent_pairs, 1);
        proof {
            assert(meta.gates() =~= old(meta).gates() + bound_constraints(
                h,
                straight_adjacent_constraints(),
            ));
        }

        register_common_gates(
            meta,
            Ghost(h),
            q_flush,
            q_one_pair,
            q_two_pair,
            q_three_of_a_kind,
            q_four_of_a_kind,
            &cards,
            num_of_pair,
            num_of_same_kind,
        );
        proof {
            assert(meta.gates() =~= old(meta).gates() + bound_constraints(
                h,
                adjacent_constraints(),
            ));
        }

        VanillaHoldemConfig {
            q_straight,
            q_flush,
            q_one_pair,
            q_two_pair,
            q_three_of_a_kind,
            q_four_of_a_kind,
            cards,
            table_cards,
        }
    }

    /// Places one hand into the five card columns of a single fresh row:
    /// the two private cards, then the three community cards, one cell
    /// each (the writes [`assign_hand_cells`] states of its region). The
    /// backend's verdict is returned verbatim; the auxiliary count
    /// columns and the selector activation are left to the caller.
    pub fn assign_card<L: Layouter<Fp>>(
        &self,
        layouter: &mut L,
        cards: [CardValue; 2],
        table_cards: [CardValue; 3],
    ) -> Result<(), Error> {
        let hand = hand_of(&cards, &table_cards);
        layouter_assign_hand(layouter, &self.config, &hand)
    }
}

/// Allocates the whole schema in the fixed order — the six selectors,
/// the five card columns, the two public columns, and the two auxiliary
/// count columns — and registers every gate over it (literal straight
/// form). The two auxiliary handles are not part of the returned
/// descriptor, so they are bound existentially here.
pub fn circuit_configure(meta: &mut SchemaHandle<'_>) -> (r: VanillaHoldemConfig)
    ensures
        final(meta).advice_count() == old(meta).advice_count() + 7,
        final(meta).allocations() == old(meta).allocations() + 15,
        forall|i: int| 0 <= i < 5 ==> #[trigger] r.cards[i].idx@ == old(meta).advice_count() + i,
        exists|h: GateHandles|
            {
                &&& h.q_straight == r.q_straight
                &&& h.q_flush == r.q_flush
                &&& h.q_one_pair == r.q_one_pair
                &&& h.q_two_pair == r.q_two_pair
                &&& h.q_three_of_a_kind == r.q_three_of_a_kind
                &&& h.q_four_of_a_kind == r.q_four_of_a_kind
                &&& h.cards == r.cards
                &&& final(meta).gates() == old(meta).gates() + #[trigger] bound_constraints(
                    h,
                    vanilla_constraints(),
                )
            },
{
    let q_flush = allocate_selector(meta);
    let q_straight = allocate_selector(meta);
    let q_one_pair = allocate_selector(meta);
    let q_two_pair = allocate_selector(meta);
    let q_three_of_a_kind = allocate_selector(meta);
    let q_four_of_a_kind = allocate_selector(meta);

    let cards = [
        allocate_advice_column(meta),
        allocate_advice_column(meta),
        allocate_advice_column(meta),
        allocate_advice_column(meta),
        allocate_advice_column(meta),
    ];
    let table_cards = [allocate_instance_column(meta), allocate_instance_column(meta)];
    let num_of_pair = allocate_advice_column(meta);
    let num_of_same_kind = allocate_advice_column(meta);

    let ghost h = GateHandles {
        q_straight,
        q_flush,
        q_one_pair,
        q_two_pair,
        q_three_of_a_kind,
        q_four_of_a_kind,
        cards,
        num_of_pair,
        num_of_same_kind,
    };
    let r = VanillaHoldemChip::configure(
        meta,
        q_flush,
        q_straight,
        q_one_pair,
        q_two_pair,
        q_three_of_a_kind,
        q_four_of_a_kind,
        cards,
        table_cards,
        num_of_pair,
        num_of_same_kind,
    );
    proof {
        assert(meta.gates() == old(meta).gates() + bound_constraints(h, vanilla_constraints()));
    }
    r
}

/// Registers the gates the two configuration forms share: flush, one
/// pair, two pair, three of a kind, four of a kind, and full house, in
/// that order; the ghost `h` names the binding the registered constraints
/// follow.
fn register_common_gates(
    meta: &mut SchemaHandle<'_>,
    h: Ghost<GateHandles>,
    q_flush: Selector,
    q_one_pair: Selector,
    q_two_pair: Selector,
    q_three_of_a_kind: Selector,
    q_four_of_a_kind: Selector,
    cards: &[AdviceColumn; 5],
    num_of_pair: AdviceColumn,
    num_of_same_kind: AdviceColumn,
)
    requires
        h@.q_flush == q_flush,
        h@.q_one_pair == q_one_pair,
        h@.q_two_pair == q_two_pair,
        h@.q_three_of_a_kind == q_three_of_a_kind,
        h@.q_four_of_a_kind == q_four_of_a_kind,
        h@.cards == *cards,
        h@.num_of_pair == num_of_pair,
        h@.num_of_same_kind == num_of_same_kind,
        handles_in_schema(h@, old(meta).advice_count()),
    ensures
        final(meta).advice_count() == old(meta).advice_count(),
        final(meta).allocations() == old(meta).allocations(),
        final(meta).gates() == old(meta).gates() + bound_constraints(h@, common_constraints()),
{
    // flush: card[i] - card[i + 1] for each adjacent column pair
    let mut flush_pairs: Vec<(AdviceColumn, AdviceColumn)> = Vec::new();
    flush_pairs.push((cards[0], cards[1]));
    flush_pairs.push((cards[1], cards[2]));
    flush_pairs.push((cards[2], cards[3]));
    flush_pairs.push((cards[3], cards[4]));
    register_cell_diff_gate(meta, "flush", q_flush, &flush_pairs);

    // one pair: 1 - num_of_pair
    let mut one_pair: Vec<(Selector, u64, AdviceColumn)> = Vec::new();
    one_pair.push((q_one_pair, 1, num_of_pair));
    register_const_minus_cell_gate(meta, "one pair", &one_pair);

    // two pair: 2 - num_of_pair
    let mut two_pair: Vec<(Selector, u64, AdviceColumn)> = Vec::new();
    two_pair.push((q_two_pair, 2, num_of_pair));
    register_const_minus_cell_gate(meta, "two pair", &two_pair);

    // three of a kind: 3 - num_of_same_kind
    let mut three: Vec<(Selector, u64, AdviceColumn)> = Vec::new();
    three.push((q_three_of_a_kind, 3, num_of_same_kind));
    register_const_minus_cell_gate(meta, "three of a kind", &three);

    // four of a kind: 4 - num_of_same_kind
    let mut four: Vec<(Selector, u64, AdviceColumn)> = Vec::new();
    four.push((q_four_of_a_kind, 4, num_of_same_kind));
    register_const_minus_cell_gate(meta, "four of a kind", &four);

    // full house: the triple under the three-of-a-kind selector and the
    // pair under the one-pair selector, jointly
    let mut full_house: Vec<(Selector, u64, AdviceColumn)> = Vec::new();
    full_house.push((q_three_of_a_kind, 3, num_of_same_kind));
    full_house.push((q_one_pair, 1, num_of_pair));
    register_const_minus_cell_gate(meta, "full house", &full_house);

    proof {
        assert(meta.gates() =~= old(meta).gates() + bound_constraints(h@, common_constraints()));
    }
}

/// The five cell writes a hand placement issues: the hand values into the
/// five card columns at row offset zero, in hand order.
pub open spec fn hand_writes(cards: [AdviceColumn; 5], hand: Seq<CardValue>) -> Seq<CellWrite> {
    Seq::new(5, |i: int| CellWrite { column: cards[i], offset: 0, value: hand[i] })
}

/// Writes the five card cells of row zero of a fresh region, in the fixed
/// column order, stopping at the first write the backend refuses (whose
/// error is returned verbatim): on success the region accepted exactly
/// the five card-cell writes, in order, and nothing else; on failure a
/// proper prefix of them, and no write after the refused one was issued.
pub fn assign_hand_cells(
    region: &mut RegionHandle<'_, '_>,
    config: &VanillaHoldemConfig,
    hand: &Vec<CardValue>,
) -> (r: Result<(), Error>)
    requires
        hand@.len() == CARD_CELLS,
    ensures
        r is Ok ==> final(region).writes() == old(region).writes() + hand_writes(
            config.cards,
            hand@,
        ),
        r is Err ==> exists|k: int|
            0 <= k < CARD_CELLS && final(region).writes() == old(region).writes()
                + #[trigger] hand_writes(config.cards, hand@).take(k),
{
    let mut i: usize = 0;
    while i < CARD_CELLS
        invariant
            hand@.len() == CARD_CELLS,
            i <= CARD_CELLS,
            region.writes() == old(region).writes() + hand_writes(config.cards, hand@).take(i as int),
        decreases CARD_CELLS - i,
    {
        let col = config.cards[i];
        let res = match hand[i] {
            CardValue::Known(x) => region_assign_known(region, col, 0, x),
            CardValue::Unknown => region_assign_unknown(region, col, 0),
        };
        match res {
            Ok(()) => {},
            Err(e) => {
                proof {
                    assert(region.writes() == old(region).writes() + hand_writes(
                        config.cards,
                        hand@,
                    ).take(i as int));
                }
                return Err(e);
            },
        }
        proof {
            assert(region.writes() =~= old(region).writes() + hand_writes(config.cards, hand@).take(
                i as int + 1,
            ));
        }
        i += 1;
    }
    proof {
        assert(hand_writes(config.cards, hand@).take(CARD_CELLS as int) =~= hand_writes(
            config.cards,
            hand@,
        ));
    }
    Ok(())
}

/// Relies on Layouter::assign_region: opens one scoped region (finalized
/// on success and on early exit alike) and hands it, as a fresh region
/// handle, to the verified cell-writing routine above; the backend's
/// verdict is returned verbatim.
#[verifier::external_body]
fn layouter_assign_hand<L: Layouter<Fp>>(
    layouter: &mut L,
    config: &VanillaHoldemConfig,
    hand: &Vec<CardValue>,
) -> Result<(), Error>
    requires
        hand@.len() == CARD_CELLS,
{
    layouter.assign_region(
        || "hand check",
        |mut region| {
            let mut handle = RegionHandle::new(RegionRef { region: &mut region });
            assign_hand_cells(&mut handle, config, hand)
        },
    )
}

} // verus!
