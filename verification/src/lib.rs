//! Finding and sizing regenerable build artifacts, and the rules that decide
//! which directories are safe to reclaim.

pub mod text;
pub mod detectors;
pub mod model;
pub mod scanner;
pub mod order;
pub mod triage;
pub mod ignore;
pub mod report;
pub mod walk;
pub mod known;
