//! Time-series regression support: the record grammar of the two-column
//! dataset format, the loader's line-by-line decisions, the admission rules of
//! the statistics, and the structured failures that all of them report.

pub mod admissao;
pub mod erro;
pub mod leitor;
pub mod registro;
pub mod texto;
