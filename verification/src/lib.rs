//! A small tensor compiler: an architecture independent graph, its lowering,
//! rule driven instruction selection, and kernel source emission.

pub mod text;
pub mod bytes;
pub mod float_bits;
pub mod base;
pub mod storage;
pub mod storage_laws;
pub mod storage_history;
pub mod graph;
pub mod summary;
pub mod pass;
pub mod graph_laws;
pub mod compaction_laws;
pub mod compaction_order;
pub mod common;
pub mod arch;
pub mod lisp;
pub mod frontend;
pub mod isel;
pub mod backend;
pub mod operator_laws;
pub mod text_laws;
pub mod validate;
pub mod cli;
pub mod cli_laws;
pub mod interface;
pub mod showing_laws;
