//! A verified arithmetization of poker-hand category checks.
//!
//! The library declares, for a single circuit row holding five card values
//! and two auxiliary count values, one polynomial gate per hand category
//! (straight, flush, one pair, two pair, three of a kind, four of a kind,
//! and full house as the joint pair + triple claim). Each gate is enforced
//! only where its selector is active. The gates, their satisfiability
//! semantics, and the witness-assignment procedure are modelled and proved
//! here; the proving backend that turns the schema and a satisfying row
//! into a succinct proof is consumed through a narrow trusted boundary.
//!
//! The two auxiliary counts are taken as the caller supplies them: the
//! count gates punish inconsistency between the claimed category and the
//! supplied counts, never between the counts and the five cards
//! themselves. A dishonest count therefore still satisfies the row — a
//! known soundness gap of this schema, left open here because closing it
//! (arithmetizing the counting itself) would change the circuit's public
//! contract.

pub mod backend;
pub mod chip;
pub mod laws;
pub mod model;
pub mod row;
