//! The trusted boundary to the proving backend.
//!
//! The backend is consumed through three narrow interfaces: allocation of
//! selectors and columns, gate registration against its constraint
//! system, and cell writes into a scoped region. Each wrapper below makes
//! exactly one backend call; its doc comment names the function relied
//! on. Every column handle, selector handle and constant a gate carries
//! is passed in by verified code — nothing of the schema is decided here.
//!
//! Two ghost logs record the boundary's effect, so the verified builders
//! and assigners can state theirs: [`SchemaHandle`] carries the sequence
//! of constraints registered through it (and the count of advice columns
//! it allocated, which bounds the column indices a gate may query — the
//! backend indexes an internal table by them without a check), and
//! [`RegionHandle`] carries the sequence of accepted cell writes.
//!
//! The backend's constraint system, column and region types carry a
//! field-trait bound on their type parameter, so they are held opaquely
//! inside reference structs of the library rather than declared directly;
//! those structs' contents are visible to the embedding code, which
//! builds them around the backend objects it owns.

use vstd::prelude::*;

use crate::row::CardValue;
use halo2_proofs::circuit::{Region, Value};
use halo2_proofs::pasta::Fp;
use halo2_proofs::plonk::{
    Advice, Assigned, Column, ConstraintSystem, Error, Expression, Instance, Selector,
};
use halo2_proofs::poly::Rotation;

verus! {

#[verifier::external_type_specification]
#[verifier::external_body]
pub struct ExSelector(Selector);

#[verifier::external_type_specification]
#[verifier::external_body]
pub struct ExError(Error);

#[verifier::external_type_specification]
#[verifier::external_body]
pub struct ExFp(Fp);

/// The backend's handle to one advice (witness) column.
#[verifier::external_body]
pub struct AdviceColumnRef {
    pub col: Column<Advice>,
}

/// Relies on the Copy of halo2's Column<Advice>: a second handle to the
/// same column.
#[verifier::external_body]
fn copy_advice_column_ref(c: &AdviceColumnRef) -> (r: AdviceColumnRef)
    ensures
        r == *c,
{
    AdviceColumnRef { col: c.col }
}

impl Clone for AdviceColumnRef {
    fn clone(&self) -> (r: Self)
        ensures
            r == *self,
    {
        copy_advice_column_ref(self)
    }
}

impl Copy for AdviceColumnRef {
}

/// A witness-column handle together with its allocation index within the
/// schema handle that made it: registration requires each queried index
/// to lie below the handle's column count.
#[derive(Clone, Copy)]
pub struct AdviceColumn {
    pub inner: AdviceColumnRef,
    pub idx: Ghost<nat>,
}

/// A public-column handle of the backend (an instance column). No gate of
/// this schema queries one, so it carries no index.
#[verifier::external_body]
pub struct InstanceColumn {
    pub inner: Column<Instance>,
}

/// Relies on the Copy of halo2's Column<Instance>: a second handle to the
/// same column.
#[verifier::external_body]
fn copy_instance_column(c: &InstanceColumn) -> (r: InstanceColumn)
    ensures
        r == *c,
{
    InstanceColumn { inner: c.inner }
}

impl Clone for InstanceColumn {
    fn clone(&self) -> (r: Self)
        ensures
            r == *self,
    {
        copy_instance_column(self)
    }
}

impl Copy for InstanceColumn {
}

/// The backend's constraint system, borrowed while the schema is being
/// declared.
#[verifier::external_body]
pub struct MetaRef<'a> {
    pub meta: &'a mut ConstraintSystem<Fp>,
}

/// One operand of a registered constraint: a constant, or an advice
/// column.
pub enum RegisteredOperand {
    Const(u64),
    Col(AdviceColumn),
}

/// One constraint as registered with the backend: whenever `selector` is
/// active on a row, `lhs - rhs - shift` must vanish there.
pub struct RegisteredConstraint {
    pub selector: Selector,
    pub lhs: RegisteredOperand,
    pub rhs: RegisteredOperand,
    pub shift: u64,
}

/// The constraint system under construction, with the ghost record of
/// what went through this handle: how many advice columns it allocated
/// and which constraints it registered. The records are private, so only
/// the allocation and registration functions below shape them.
pub struct SchemaHandle<'a> {
    inner: MetaRef<'a>,
    count: Ghost<nat>,
    alloc: Ghost<nat>,
    log: Ghost<Seq<RegisteredConstraint>>,
}

impl<'a> SchemaHandle<'a> {
    /// How many advice columns were allocated through this handle.
    pub closed spec fn advice_count(&self) -> nat {
        self.count@
    }

    /// How many selectors and columns of any kind were allocated through
    /// this handle.
    pub closed spec fn allocations(&self) -> nat {
        self.alloc@
    }

    /// The constraints registered through this handle, in order.
    pub closed spec fn gates(&self) -> Seq<RegisteredConstraint> {
        self.log@
    }

    /// Wraps a borrowed constraint system, with empty records.
    pub fn new(inner: MetaRef<'a>) -> (r: SchemaHandle<'a>)
        ensures
            r.advice_count() == 0,
            r.allocations() == 0,
            r.gates() == Seq::<RegisteredConstraint>::empty(),
    {
        SchemaHandle { inner, count: Ghost(0), alloc: Ghost(0), log: Ghost(Seq::empty()) }
    }
}

/// Relies on ConstraintSystem::selector: a fresh (simple) selector.
#[verifier::external_body]
pub fn allocate_selector(meta: &mut SchemaHandle<'_>) -> (r: Selector)
    ensures
        final(meta).advice_count() == old(meta).advice_count(),
        final(meta).allocations() == old(meta).allocations() + 1,
        final(meta).gates() == old(meta).gates(),
{
    meta.inner.meta.selector()
}

/// Relies on ConstraintSystem::advice_column: a fresh advice column.
#[verifier::external_body]
fn fresh_advice_column(meta: &mut SchemaHandle<'_>) -> (r: AdviceColumnRef)
    ensures
        final(meta).advice_count() == old(meta).advice_count(),
        final(meta).allocations() == old(meta).allocations(),
        final(meta).gates() == old(meta).gates(),
{
    AdviceColumnRef { col: meta.inner.meta.advice_column() }
}

/// A fresh advice column, recorded under the next allocation index.
pub fn allocate_advice_column(meta: &mut SchemaHandle<'_>) -> (r: AdviceColumn)
    ensures
        r.idx@ == old(meta).advice_count(),
        final(meta).advice_count() == old(meta).advice_count() + 1,
        final(meta).allocations() == old(meta).allocations() + 1,
        final(meta).gates() == old(meta).gates(),
{
    let inner = fresh_advice_column(meta);
    let ghost i = meta.count@;
    meta.count = Ghost(i + 1);
    meta.alloc = Ghost(meta.alloc@ + 1);
    AdviceColumn { inner, idx: Ghost(i) }
}

/// Relies on ConstraintSystem::instance_column: a fresh instance column.
#[verifier::external_body]
pub fn allocate_instance_column(meta: &mut SchemaHandle<'_>) -> (r: InstanceColumn)
    ensures
        final(meta).advice_count() == old(meta).advice_count(),
        final(meta).allocations() == old(meta).allocations() + 1,
        final(meta).gates() == old(meta).gates(),
{
    InstanceColumn { inner: meta.inner.meta.instance_column() }
}

/// Relies on ConstraintSystem::create_gate: registers one gate that, for
/// each column `c` of `cols`, enforces `sel * (c - k)` to vanish on every
/// row. The backend rejects a gate with no constraints, so the list must
/// not be empty, and querying a column indexes the backend's advice table
/// without a check, so each index must lie below this handle's count.
#[verifier::external_body]
pub(crate) fn register_cells_minus_const_gate(
    meta: &mut SchemaHandle<'_>,
    name: &'static str,
    sel: Selector,
    cols: &Vec<AdviceColumn>,
    k: u64,
)
    requires
        cols@.len() > 0,
        forall|i: int| 0 <= i < cols@.len() ==> #[trigger] cols@[i].idx@ < old(meta).advice_count(),
    ensures
        final(meta).advice_count() == old(meta).advice_count(),
        final(meta).allocations() == old(meta).allocations(),
        final(meta).gates() == old(meta).gates() + Seq::new(
            cols@.len(),
            |i: int|
                RegisteredConstraint {
                    selector: sel,
                    lhs: RegisteredOperand::Col(cols@[i]),
                    rhs: RegisteredOperand::Const(k),
                    shift: 0,
                },
        ),
{
    let cols: Vec<Column<Advice>> = cols.iter().map(|c| c.inner.col).collect();
    meta.inner.meta.create_gate(name, move |m| {
        let q = m.query_selector(sel);
        cols.iter().map(|c| {
            q.clone() * (m.query_advice(*c, Rotation::cur()) - Expression::Constant(Fp::from(k)))
        }).collect::<Vec<_>>()
    });
}

/// Relies on ConstraintSystem::create_gate: registers one gate that, for
/// each pair `(a, b)` of `pairs`, enforces `sel * (a - b)` to vanish on
/// every row. The backend rejects a gate with no constraints, so the list
/// must not be empty, and each column index must lie below this handle's
/// count (see above).
#[verifier::external_body]
pub(crate) fn register_cell_diff_gate(
    meta: &mut SchemaHandle<'_>,
    name: &'static str,
    sel: Selector,
    pairs: &Vec<(AdviceColumn, AdviceColumn)>,
)
    requires
        pairs@.len() > 0,
        forall|i: int|
            0 <= i < pairs@.len() ==> (#[trigger] pairs@[i]).0.idx@ < old(meta).advice_count()
                && pairs@[i].1.idx@ < old(meta).advice_count(),
    ensures
        final(meta).advice_count() == old(meta).advice_count(),
        final(meta).allocations() == old(meta).allocations(),
        final(meta).gates() == old(meta).gates() + Seq::new(
            pairs@.len(),
            |i: int|
                RegisteredConstraint {
                    selector: sel,
                    lhs: RegisteredOperand::Col(pairs@[i].0),
                    rhs: RegisteredOperand::Col(pairs@[i].1),
                    shift: 0,
                },
        ),
{
    let pairs: Vec<(Column<Advice>, Column<Advice>)> =
        pairs.iter().map(|p| (p.0.inner.col, p.1.inner.col)).collect();
    meta.inner.meta.create_gate(name, move |m| {
        let q = m.query_selector(sel);
        pairs.iter().map(|p| {
            q.clone() * (m.query_advice(p.0, Rotation::cur()) - m.query_advice(p.1, Rotation::cur()))
        }).collect::<Vec<_>>()
    });
}

/// Relies on ConstraintSystem::create_gate: registers one gate that, for
/// each pair `(a, b)` of `pairs`, enforces `sel * (a - b - k)` to vanish
/// on every row. The backend rejects a gate with no constraints, so the
/// list must not be empty, and each column index must lie below this
/// handle's count (see above).
#[verifier::external_body]
pub(crate) fn register_cell_diff_minus_const_gate(
    meta: &mut SchemaHandle<'_>,
    name: &'static str,
    sel: Selector,
    pairs: &Vec<(AdviceColumn, AdviceColumn)>,
    k: u64,
)
    requires
        pairs@.len() > 0,
        forall|i: int|
            0 <= i < pairs@.len() ==> (#[trigger] pairs@[i]).0.idx@ < old(meta).advice_count()
                && pairs@[i].1.idx@ < old(meta).advice_count(),
    ensures
        final(meta).advice_count() == old(meta).advice_count(),
        final(meta).allocations() == old(meta).allocations(),
        final(meta).gates() == old(meta).gates() + Seq::new(
            pairs@.len(),
            |i: int|
                RegisteredConstraint {
                    selector: sel,
                    lhs: RegisteredOperand::Col(pairs@[i].0),
                    rhs: RegisteredOperand::Col(pairs@[i].1),
                    shift: k,
                },
        ),
{
    let pairs: Vec<(Column<Advice>, Column<Advice>)> =
        pairs.iter().map(|p| (p.0.inner.col, p.1.inner.col)).collect();
    meta.inner.meta.create_gate(name, move |m| {
        let q = m.query_selector(sel);
        pairs.iter().map(|p| {
            q.clone() * (m.query_advice(p.0, Rotation::cur()) - m.query_advice(p.1, Rotation::cur())
                - Expression::Constant(Fp::from(k)))
        }).collect::<Vec<_>>()
    });
}

/// Relies on ConstraintSystem::create_gate: registers one gate that, for
/// each item `(sel, k, c)` of `items`, enforces `sel * (k - c)` to vanish
/// on every row (the selectors may differ item by item, as in the
/// full-house gate). The backend rejects a gate with no constraints, so
/// the list must not be empty, and each column index must lie below this
/// handle's count (see above).
#[verifier::external_body]
pub(crate) fn register_const_minus_cell_gate(
    meta: &mut SchemaHandle<'_>,
    name: &'static str,
    items: &Vec<(Selector, u64, AdviceColumn)>,
)
    requires
        items@.len() > 0,
        forall|i: int|
            0 <= i < items@.len() ==> (#[trigger] items@[i]).2.idx@ < old(meta).advice_count(),
    ensures
        final(meta).advice_count() == old(meta).advice_count(),
        final(meta).allocations() == old(meta).allocations(),
        final(meta).gates() == old(meta).gates() + Seq::new(
            items@.len(),
            |i: int|
                RegisteredConstraint {
                    selector: items@[i].0,
                    lhs: RegisteredOperand::Const(items@[i].1),
                    rhs: RegisteredOperand::Col(items@[i].2),
                    shift: 0,
                },
        ),
{
    let items: Vec<(Selector, u64, Column<Advice>)> =
        items.iter().map(|it| (it.0, it.1, it.2.inner.col)).collect();
    meta.inner.meta.create_gate(name, move |m| {
        items.iter().map(|it| {
            m.query_selector(it.0) * (Expression::Constant(Fp::from(it.1))
                - m.query_advice(it.2, Rotation::cur()))
        }).collect::<Vec<_>>()
    });
}

/// One scoped region of the backend, open for cell writes, with the
/// ghost record of the writes it accepted.
#[verifier::external_body]
pub struct RegionRef<'a, 'r> {
    pub region: &'a mut Region<'r, Fp>,
}

/// One accepted cell write: a value into an advice column at a row
/// offset.
pub struct CellWrite {
    pub column: AdviceColumn,
    pub offset: usize,
    pub value: CardValue,
}

/// The region under assignment, with the ghost record of the cell writes
/// it accepted through this handle. The record is private, so only the
/// write functions below shape it.
pub struct RegionHandle<'a, 'r> {
    inner: RegionRef<'a, 'r>,
    log: Ghost<Seq<CellWrite>>,
}

impl<'a, 'r> RegionHandle<'a, 'r> {
    /// The cell writes the region accepted through this handle, in order.
    pub closed spec fn writes(&self) -> Seq<CellWrite> {
        self.log@
    }

    /// Wraps a borrowed region, with an empty record.
    pub fn new(inner: RegionRef<'a, 'r>) -> (r: RegionHandle<'a, 'r>)
        ensures
            r.writes() == Seq::<CellWrite>::empty(),
    {
        RegionHandle { inner, log: Ghost(Seq::empty()) }
    }
}

/// Relies on Region::assign_advice and the canonical embedding Fp::from:
/// writes the concrete value `v` into `col` at `offset`. On success the
/// write is recorded; a write the backend refuses leaves the record as it
/// was and is surfaced verbatim as the backend's error.
#[verifier::external_body]
pub(crate) fn region_assign_known(
    region: &mut RegionHandle<'_, '_>,
    col: AdviceColumn,
    offset: usize,
    v: u64,
) -> (r: Result<(), Error>)
    ensures
        r is Ok ==> final(region).writes() == old(region).writes() + seq![
            (CellWrite { column: col, offset, value: CardValue::Known(v) }),
        ],
        r is Err ==> final(region).writes() == old(region).writes(),
{
    let value = Value::known(Assigned::from(Fp::from(v)));
    region.inner.region.assign_advice(|| "cards", col.inner.col, offset, || value).map(|_| ())
}

/// Relies on Region::assign_advice and Value::unknown: writes the
/// shape-only placeholder into `col` at `offset` (a witness-building pass
/// rejects it, a shape-determination pass accepts it). On success the
/// write is recorded; a refused write leaves the record as it was and is
/// surfaced verbatim.
#[verifier::external_body]
pub(crate) fn region_assign_unknown(
    region: &mut RegionHandle<'_, '_>,
    col: AdviceColumn,
    offset: usize,
) -> (r: Result<(), Error>)
    ensures
        r is Ok ==> final(region).writes() == old(region).writes() + seq![
            (CellWrite { column: col, offset, value: CardValue::Unknown }),
        ],
        r is Err ==> final(region).writes() == old(region).writes(),
{
    let value: Value<Assigned<Fp>> = Value::unknown();
    region.inner.region.assign_advice(|| "cards", col.inner.col, offset, || value).map(|_| ())
}

} // verus!
