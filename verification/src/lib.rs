//! A verified AtomSpace for symbolic knowledge: atoms keyed by identifier,
//! statistics over their kinds, substring pattern queries, and the decision
//! logic of a goal-directed inference run.

pub mod types;
pub mod text;
pub mod config;
pub mod error;
pub mod atomspace;
pub mod clock;
pub mod inference;
pub mod api;
