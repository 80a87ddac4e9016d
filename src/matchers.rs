//! The matchers themselves: leaves, negation, and the conjunctive and
//! disjunctive chains, together with the laws that relate them.
pub mod combinators;
pub mod laws;
pub mod leaves;
