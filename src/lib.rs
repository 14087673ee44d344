//! Constraint-system core of a stack-based zero-knowledge virtual machine: the column layout of
//! its trace tables, the shared expression graph that its polynomial constraints are built in, and
//! the degree lowering that rewrites those constraints to a bounded degree.

pub mod table_column;
pub mod circuit;
pub mod lowering;
pub mod constraints;
pub mod claim;
pub mod air;
