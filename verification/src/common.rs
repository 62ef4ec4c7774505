//! Shared helpers: configuration, identifiers, an arena and text dumps.

use vstd::prelude::*;
use crate::base::{ValueId, heading, numbered};
use crate::graph::{Graph, GraphModel};
use crate::text::{dec, push_dec};

verus! {

/// The backend that is compiled for.
#[derive(Debug, Clone, Copy, PartialEq, Eq, Hash, Structural)]
pub enum Target {
    Cuda,
    Npu,
    Cpu,
}

impl Default for Target {
    fn default() -> (r: Self)
        ensures
            r == Target::Cuda,
    {
        Target::Cuda
    }
}

/// How much to optimize.
#[derive(Debug, Clone, Copy, PartialEq, Eq, PartialOrd, Ord, Hash, Structural)]
pub enum OptLevel {
    O0,
    O1,
    O2,
    O3,
}

/// How registers are allocated.
#[derive(Debug, Clone, Copy, PartialEq, Eq, Structural)]
pub enum RegAllocMode {
    /// Linear scan.
    Fast,
    /// Graph coloring with coalescing.
    Standard,
    /// As `Standard`, coalescing short live ranges more eagerly.
    Quality,
    /// Exhaustive search.
    Exhaustive,
}

impl Default for RegAllocMode {
    fn default() -> (r: Self)
        ensures
            r == RegAllocMode::Standard,
    {
        RegAllocMode::Standard
    }
}

/// Hands out numbers, starting at zero.
#[derive(Debug)]
pub struct IdGen {
    next: u64,
}

impl View for IdGen {
    type V = u64;

    closed spec fn view(&self) -> u64 {
        self.next
    }
}

impl Default for IdGen {
    fn default() -> (r: Self)
        ensures
            r@ == 0,
    {
        IdGen::new()
    }
}

impl IdGen {
    pub fn new() -> (r: Self)
        ensures
            r@ == 0,
    {
        IdGen { next: 0 }
    }

    /// The next number.
    pub fn gen(&mut self) -> (r: u64)
        requires
            old(self)@ < u64::MAX,
        ensures
            r == old(self)@,
            final(self)@ == old(self)@ + 1,
    {
        let v = self.next;
        self.next = v + 1;
        v
    }
}

/// Items that are found again by the index they were given.
#[derive(Debug)]
pub struct Arena<T> {
    items: Vec<T>,
}

impl<T> View for Arena<T> {
    type V = Seq<T>;

    closed spec fn view(&self) -> Seq<T> {
        self.items@
    }
}

impl<T> Default for Arena<T> {
    fn default() -> (r: Self)
        ensures
            r@ == Seq::<T>::empty(),
    {
        Arena::new()
    }
}

impl<T> Arena<T> {
    pub fn new() -> (r: Self)
        ensures
            r@ == Seq::<T>::empty(),
    {
        Arena { items: Vec::new() }
    }

    /// Adds an item and returns its index.
    pub fn allocate(&mut self, v: T) -> (r: usize)
        ensures
            r == old(self)@.len(),
            final(self)@ == old(self)@.push(v),
    {
        let i = self.items.len();
        self.items.push(v);
        i
    }

    pub fn get(&self, i: usize) -> (r: Option<&T>)
        ensures
            match r {
                Some(v) => i < self@.len() && *v == self@[i as int],
                None => i >= self@.len(),
            },
    {
        if i < self.items.len() {
            Some(&self.items[i])
        } else {
            None
        }
    }

    pub fn get_mut(&mut self, i: usize) -> (r: Option<&mut T>)
        ensures
            match r {
                Some(v) => i < old(self)@.len() && *v == old(self)@[i as int] && final(self)@
                    == old(self)@.update(i as int, *final(v)),
                None => i >= old(self)@.len() && final(self)@ == old(self)@,
            },
    {
        if i < self.items.len() {
            Some(&mut self.items[i])
        } else {
            None
        }
    }

    pub fn len(&self) -> (r: usize)
        ensures
            r == self@.len(),
    {
        self.items.len()
    }

    pub fn is_empty(&self) -> (r: bool)
        ensures
            r == (self@.len() == 0),
    {
        self.items.len() == 0
    }
}

/// What was allocated is found at its index, and earlier items stay where they were.
pub proof fn arena_finds_again<T>(before: Seq<T>, v: T)
    ensures
        before.push(v)[before.len() as int] == v,
        forall|i: int| 0 <= i < before.len() ==> before.push(v)[i] == before[i],
{
}

/// What to compile for and how.
#[derive(Debug, Clone)]
pub struct Config {
    pub target: Target,
    pub opt_level: OptLevel,
    pub dump_ir: bool,
    pub trace_isel: bool,
    /// Whether to use algebraic rules that do not hold for NaN and infinities.
    pub algebra_unsafe_opts: bool,
    pub regalloc_mode: RegAllocMode,
}

impl Default for Config {
    fn default() -> (r: Self)
        ensures
            r.target == Target::Cuda,
            r.opt_level == OptLevel::O2,
            !r.dump_ir,
            !r.trace_isel,
            !r.algebra_unsafe_opts,
            r.regalloc_mode == RegAllocMode::Standard,
    {
        Config {
            target: Target::Cuda,
            opt_level: OptLevel::O2,
            dump_ir: false,
            trace_isel: false,
            algebra_unsafe_opts: false,
            regalloc_mode: RegAllocMode::Standard,
        }
    }
}

/// Collects lines of text with an indentation of two spaces for each level.
#[derive(Debug)]
pub struct Printer {
    buf: String,
    indent: usize,
}

/// The text so far, and the level.
pub struct PrinterModel {
    pub text: Seq<char>,
    pub level: nat,
}

impl View for Printer {
    type V = PrinterModel;

    closed spec fn view(&self) -> PrinterModel {
        PrinterModel { text: self.buf@, level: self.indent as nat }
    }
}

/// The spaces of an indentation level.
pub open spec fn indentation(level: nat) -> Seq<char> {
    Seq::new(2 * level, |i: int| ' ')
}

/// A line of text at an indentation level.
pub open spec fn text_line(level: nat, s: Seq<char>) -> Seq<char> {
    (indentation(level) + s).push('\n')
}

impl Default for Printer {
    fn default() -> (r: Self)
        ensures
            r@ == (PrinterModel { text: Seq::empty(), level: 0 }),
    {
        Printer::new()
    }
}

impl Printer {
    pub fn new() -> (r: Self)
        ensures
            r@ == (PrinterModel { text: Seq::empty(), level: 0 }),
    {
        Printer { buf: String::new(), indent: 0 }
    }

    pub fn indent(&mut self)
        requires
            old(self)@.level < usize::MAX,
        ensures
            final(self)@ == (PrinterModel { level: old(self)@.level + 1, ..old(self)@ }),
    {
        self.indent = self.indent + 1;
    }

    pub fn dedent(&mut self)
        ensures
            final(self)@ == (PrinterModel {
                level: if old(self)@.level > 0 {
                    (old(self)@.level - 1) as nat
                } else {
                    0
                },
                ..old(self)@
            }),
    {
        if self.indent > 0 {
            self.indent = self.indent - 1;
        }
    }

    pub fn line(&mut self, s: &str)
        ensures
            final(self)@ == (PrinterModel {
                text: old(self)@.text + text_line(old(self)@.level, s@),
                ..old(self)@
            }),
    {
        let mut k: usize = 0;
        assert(self.buf@ == old(self).buf@ + indentation(0));
        while k < self.indent
            invariant
                k <= self.indent,
                self.indent == old(self).indent,
                self.buf@ == old(self).buf@ + indentation(k as nat),
            decreases self.indent - k,
        {
            self.buf.push(' ');
            self.buf.push(' ');
            k += 1;
            assert(indentation(k as nat) == indentation((k - 1) as nat).push(' ').push(' '));
        }
        self.buf.append(s);
        self.buf.push('\n');
        assert(self.buf@ == old(self).buf@ + text_line(old(self).indent as nat, s@));
    }

    pub fn finish(self) -> (r: String)
        ensures
            r@ == self@.text,
    {
        self.buf
    }
}

/// Value identifiers with a leading `%`, separated by commas.
pub open spec fn value_list(vs: Seq<u32>) -> Seq<char>
    decreases vs.len(),
{
    if vs.len() == 0 {
        Seq::empty()
    } else if vs.len() == 1 {
        "%"@ + dec(vs[0] as nat)
    } else {
        value_list(vs.drop_last()) + ", "@ + ("%"@ + dec(vs.last() as nat))
    }
}

fn push_value_list(s: &mut String, vs: &[ValueId])
    ensures
        final(s)@ == old(s)@ + value_list(vs@),
{
    let mut k: usize = 0;
    assert(old(s)@ + value_list(vs@.take(0)) == old(s)@);
    while k < vs.len()
        invariant
            k <= vs@.len(),
            s@ == old(s)@ + value_list(vs@.take(k as int)),
        decreases vs@.len() - k,
    {
        assert(vs@.take(k + 1).drop_last() == vs@.take(k as int));
        if k > 0 {
            s.append(", ");
        }
        s.append("%");
        push_dec(s, vs[k] as u64);
        k += 1;
        assert(s@ == old(s)@ + value_list(vs@.take(k as int)));
    }
    assert(vs@.take(k as int) == vs@);
}

/// The line of a dump about one node.
pub open spec fn node_line(g: GraphModel, i: u32) -> Seq<char> {
    match g.node_error(i) {
        Some(e) => "  n"@ + dec(i as nat) + " = <err: "@ + (heading(e.0) + e.1) + ">"@,
        None => "  n"@ + dec(i as nat) + " = "@ + g.kind(i as int)->0.spelling() + "("@ + value_list(
            g.storage.node_inputs(i as int),
        ) + ") -> ["@ + value_list(g.storage.node_outputs(i as int)) + "]"@,
    }
}

/// The lines about the first `n` nodes.
pub open spec fn node_lines(g: GraphModel, n: nat) -> Seq<char>
    decreases n,
{
    if n == 0 {
        Seq::empty()
    } else {
        node_lines(g, (n - 1) as nat) + text_line(1, node_line(g, (n - 1) as u32))
    }
}

/// The line with the sizes of a graph.
pub open spec fn size_line(g: GraphModel) -> Seq<char> {
    "// "@ + dec(g.storage.nodes.len()) + " nodes, "@ + dec(g.storage.values.len()) + " values, "@ + dec(
        g.storage.inputs.len(),
    ) + " inputs, "@ + dec(g.storage.outputs.len()) + " outputs"@
}

/// A graph as text: its name, its sizes, and one line for each node.
pub open spec fn dumped(g: GraphModel) -> Seq<char> {
    text_line(0, "graph \""@ + g.name + "\" {"@) + text_line(1, size_line(g)) + node_lines(
        g,
        g.storage.nodes.len(),
    ) + text_line(0, "}"@)
}

/// Whether a graph can be shown: the operands of every node with a known operator
/// can be read.
pub open spec fn dumpable(g: GraphModel) -> bool {
    &&& g.storage.nodes.len() <= u32::MAX
    &&& forall|i: int|
        0 <= i < g.storage.nodes.len() && g.kind(i) is Some ==> #[trigger] g.operands_readable(i)
}

fn node_text(graph: &Graph, id: u32) -> (r: String)
    requires
        dumpable(graph@),
        id < graph@.storage.nodes.len(),
    ensures
        r@ == node_line(graph@, id),
{
    let mut s = numbered("  n", id as u64);
    match graph.node(id) {
        Ok(n) => {
            assert(graph@.operands_readable(id as int));
            s.append(" = ");
            s.append(n.kind.name());
            s.append("(");
            push_value_list(&mut s, n.inputs());
            s.append(") -> [");
            push_value_list(&mut s, n.outputs());
            s.append("]");
        },
        Err(e) => {
            s.append(" = <err: ");
            s.append(e.message().as_str());
            s.append(">");
        },
    }
    s
}

/// A graph as text.
pub fn dump_graph(graph: &Graph) -> (r: String)
    requires
        dumpable(graph@),
    ensures
        r@ == dumped(graph@),
{
    let mut p = Printer::new();
    let mut first = "graph \"".to_owned();
    first.append(graph.name.as_str());
    first.append("\" {");
    p.line(first.as_str());
    p.indent();
    let mut sizes = numbered("// ", graph.node_count() as u64);
    sizes.append(" nodes, ");
    push_dec(&mut sizes, graph.value_count() as u64);
    sizes.append(" values, ");
    push_dec(&mut sizes, graph.inputs().len() as u64);
    sizes.append(" inputs, ");
    push_dec(&mut sizes, graph.outputs().len() as u64);
    sizes.append(" outputs");
    p.line(sizes.as_str());
    let n = graph.node_count() as u32;
    let ghost head = p@.text;
    let mut i: u32 = 0;
    assert(head + node_lines(graph@, 0) == head);
    while i < n
        invariant
            i <= n,
            n == graph@.storage.nodes.len(),
            dumpable(graph@),
            p@.level == 1,
            p@.text == head + node_lines(graph@, i as nat),
        decreases n - i,
    {
        p.line(node_text(graph, i).as_str());
        i += 1;
        assert(p@.text == head + node_lines(graph@, i as nat));
    }
    p.dedent();
    p.line("}");
    let r = p.finish();
    assert(r@ == dumped(graph@));
    r
}

} // verus!
