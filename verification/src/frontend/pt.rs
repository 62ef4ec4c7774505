//! PyTorch files.

use vstd::prelude::*;
use crate::base::{ErrorKind, NeutronError, Result};
use crate::graph::Graph;

verus! {

/// Reads a PyTorch file as a graph; there is no support for that yet.
pub fn parse(_bytes: &[u8]) -> (r: Result<Graph>)
    ensures
        r is Err,
        r->Err_0@ == (ErrorKind::Frontend, ".pt 前端尚未实现"@),
{
    Err(NeutronError::Frontend(".pt 前端尚未实现".to_owned()))
}

} // verus!
