//! Intermediate representation of Datalog query plans: plan operators
//! (`IRNode`) with schema tracking and pretty printing, and filter predicates
//! (`Predicate`) with column tracking, constant folding and reindexing for
//! projections.
pub mod plan;
pub mod plan_laws;
pub mod predicate;
pub mod predicate_laws;
pub mod text;
pub mod text_laws;

pub use plan::IRNode;
pub use predicate::Predicate;
