# Neutron

A small tensor compiler whose library is verified with Verus. It reads ONNX
models and a line based text format into an architecture independent graph,
lowers the graph to native operations, selects instructions with rules written
as S-expressions, and generates kernel source for CUDA, Triton, Metal and
Ascend CANN.

## Layout

| path | contents |
|------|----------|
| `src/base.rs` | types, operators, identifiers and errors |
| `src/storage.rs`, `src/storage_laws.rs`, `src/storage_history.rs` | the packed storage of a graph, and what is read back from it |
| `src/graph.rs`, `src/graph_laws.rs`, `src/compaction_laws.rs` | the graph over that storage, and what its operations keep |
| `src/pass.rs`, `src/summary.rs`, `src/validate.rs` | passes and visitors, short texts, checks at run time |
| `src/common.rs` | targets, configuration, identifiers, arenas, dumps |
| `src/frontend/` | ONNX and the text format |
| `src/arch.rs` | lowering |
| `src/lisp/`, `src/isel/` | S-expressions, rules and instruction selection |
| `src/backend/` | kernels, launches and source |
| `src/interface.rs`, `src/cli.rs` | the whole compilation, and the command line |
| `app/` | the `neutron` program |

## Floats

The library holds floats by their bits. What only floating point arithmetic
can compute (sums, decimal texts) is asked for: an operation ends with a
request, its caller answers it and runs the operation again. `app/floats.rs`
does so; `lisp::replay` proves that further answers change nothing.
