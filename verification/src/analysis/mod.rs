//! Static analysis over abstract values: the abstract domain, dead-module
//! detection, hints derived from analysis facts, and the data of the
//! pushdown and race analyses.

pub mod abstract_domain;
pub mod assoc;
pub mod module_dce;
pub mod derived;
pub mod race_detection;
pub mod pushdown;
pub mod abstract_transition;
pub mod fixpoint;
