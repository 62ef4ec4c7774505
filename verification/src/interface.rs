//! From an input to instructions and source.

use vstd::prelude::*;
use crate::arch::{ArchGraph, ArchOpModel, kinds_known, lower, lowerable, lowered, op_models};
use crate::backend::spec::{GpuArch, SourceLang};
use crate::backend::{emission_repeats, emit, emittable, emitted_as, language_of};
use crate::base::{ErrorKind, ErrorModel, NeutronError, Result};
use crate::common::{Config, Target, dump_graph, dumpable, dumped};
use crate::frontend::dsl::dsl_graph;
use crate::frontend::messages::{Parsed, model_of};
use crate::frontend::onnx::graph_of;
use crate::frontend::{dsl, onnx, pt};
use crate::graph::{Graph, GraphModel};
use crate::isel::laws::lowered_graph_is_selected;
use crate::isel::select::{
    Instruction, InstructionModel, Operand, VReg, default_selections, instruction_models, op_text,
    operand_total, push_op, select, target_str, target_text,
};
use crate::lisp::replay::repeats;
use crate::lisp::{AnswerModel, Floats, FloatsModel, Outcome, OutcomeModel};
use crate::text::{dec, parts, push_dec};
use crate::validate::{has_registers, is_emittable};

verus! {

/// What is compiled.
#[derive(Debug)]
pub enum Input {
    Onnx(Vec<u8>),
    Dsl(String),
    Pt(Vec<u8>),
}

impl Clone for Input {
    fn clone(&self) -> (r: Self)
        ensures
            match (self, r) {
                (Input::Onnx(a), Input::Onnx(b)) => b@ == a@,
                (Input::Dsl(a), Input::Dsl(b)) => b@ == a@,
                (Input::Pt(a), Input::Pt(b)) => b@ == a@,
                _ => false,
            },
            r.graph() == self.graph(),
    {
        match self {
            Input::Onnx(b) => {
                let copy: Vec<u8> = b.clone();
                assert(copy@ == b@);
                Input::Onnx(copy)
            },
            Input::Dsl(s) => Input::Dsl(s.clone()),
            Input::Pt(b) => {
                let copy: Vec<u8> = b.clone();
                assert(copy@ == b@);
                Input::Pt(copy)
            },
        }
    }
}

impl Input {
    /// Whether node identifiers are sure to fit their type.
    pub open spec fn readable(&self) -> bool {
        match self {
            Input::Onnx(b) => b@.len() < u32::MAX && b@.len() + 8 <= usize::MAX,
            Input::Dsl(s) => parts(s@, '\n').len() < u32::MAX,
            Input::Pt(_) => true,
        }
    }

    /// The graph that the input stands for, or the error.
    pub open spec fn graph(&self) -> Parsed<GraphModel> {
        match self {
            Input::Onnx(b) => if b@.len() == 0 {
                Ok(GraphModel::empty("onnx"@))
            } else {
                match model_of(b@) {
                    Ok(m) => Ok(graph_of(m)),
                    Err(e) => Err(e),
                }
            },
            Input::Dsl(s) => match dsl_graph(s@) {
                Ok(b) => Ok(b.graph),
                Err(e) => Err(e),
            },
            Input::Pt(_) => Err((ErrorKind::Frontend, ".pt 前端尚未实现"@)),
        }
    }

    /// Reads the graph.
    pub fn read(&self) -> (r: Result<Graph>)
        requires
            self.readable(),
        ensures
            match r {
                Ok(g) => self.graph() == Ok::<GraphModel, ErrorModel>(g@),
                Err(e) => self.graph() == Err::<GraphModel, ErrorModel>(e@),
            },
    {
        match self {
            Input::Onnx(bytes) => onnx::parse(bytes.as_slice()),
            Input::Dsl(src) => dsl::parse(src.as_str()),
            Input::Pt(bytes) => pt::parse(bytes.as_slice()),
        }
    }
}

/// What compilation yields.
#[derive(Debug)]
pub struct Output {
    pub target: String,
    pub instructions: Vec<Instruction>,
    /// The graphs and instructions as text, if they were asked for.
    pub debug: Option<String>,
    /// The source for the target, if an architecture was given.
    pub backend_source: Option<String>,
}

#[verifier::ext_equal]
pub struct CompiledModel {
    pub target: Seq<char>,
    pub instructions: Seq<InstructionModel>,
    pub debug: Option<Seq<char>>,
    pub backend_source: Option<Seq<char>>,
}

/// The characters of an optional string.
pub open spec fn optional(s: Option<String>) -> Option<Seq<char>> {
    match s {
        Some(t) => Some(t@),
        None => None,
    }
}

impl View for Output {
    type V = CompiledModel;

    open spec fn view(&self) -> CompiledModel {
        CompiledModel {
            target: self.target@,
            instructions: instruction_models(self.instructions@),
            debug: optional(self.debug),
            backend_source: optional(self.backend_source),
        }
    }
}

fn copy_optional(s: &Option<String>) -> (r: Option<String>)
    ensures
        optional(r) == optional(*s),
{
    match s {
        Some(t) => Some(t.clone()),
        None => None,
    }
}

impl Clone for Output {
    fn clone(&self) -> (r: Self)
        ensures
            r@ == self@,
    {
        let mut instructions: Vec<Instruction> = Vec::new();
        let mut k: usize = 0;
        while k < self.instructions.len()
            invariant
                k <= self.instructions@.len(),
                instructions@.len() == k,
                forall|i: int|
                    0 <= i < k ==> (#[trigger] instructions@[i])@ == self.instructions@[i]@,
            decreases self.instructions@.len() - k,
        {
            instructions.push(self.instructions[k].clone());
            k += 1;
        }
        assert(instruction_models(instructions@) == instruction_models(self.instructions@));
        Output {
            target: self.target.clone(),
            instructions,
            debug: copy_optional(&self.debug),
            backend_source: copy_optional(&self.backend_source),
        }
    }
}

/// The first `n` operations, one a line.
pub open spec fn op_lines(ops: Seq<ArchOpModel>, n: nat) -> Seq<char>
    decreases n,
{
    if n == 0 {
        Seq::empty()
    } else {
        op_lines(ops, (n - 1) as nat) + "  ["@ + dec((n - 1) as nat) + "] "@ + op_text(ops[n - 1])
            + "\n"@
    }
}

fn make_op_lines(ag: &ArchGraph) -> (r: String)
    ensures
        r@ == op_lines(ag@, ag@.len()),
{
    let ghost ops = ag@;
    let mut s = String::new();
    let mut k: usize = 0;
    while k < ag.ops.len()
        invariant
            k <= ag.ops@.len(),
            ops == op_models(ag.ops@),
            s@ == op_lines(ops, k as nat),
        decreases ag.ops@.len() - k,
    {
        assert(ops[k as int] == ag.ops@[k as int]@);
        s.append("  [");
        push_dec(&mut s, k as u64);
        s.append("] ");
        push_op(&mut s, &ag.ops[k]);
        s.append("\n");
        k += 1;
    }
    s
}

/// An operand as text: the number of a register, or the bits of a constant.
pub open spec fn operand_text(o: Operand) -> Seq<char> {
    match o {
        Operand::VReg(r) => "%"@ + dec(r.0 as nat),
        Operand::Imm(bits) => "#"@ + dec(bits as nat),
    }
}

/// The operands of an instruction: what it reads, then what it writes.
pub open spec fn all_operands(i: InstructionModel) -> Seq<Operand> {
    i.inputs + Seq::new(i.outputs.len(), |k: int| Operand::VReg(i.outputs[k]))
}

/// Operands with spaces between them.
pub open spec fn operands_text(os: Seq<Operand>) -> Seq<char>
    decreases os.len(),
{
    if os.len() == 0 {
        Seq::empty()
    } else if os.len() == 1 {
        operand_text(os[0])
    } else {
        operands_text(os.drop_last()) + " "@ + operand_text(os.last())
    }
}

fn make_operand(o: Operand) -> (r: String)
    ensures
        r@ == operand_text(o),
{
    match o {
        Operand::VReg(r) => {
            let mut s = "%".to_owned();
            push_dec(&mut s, r.0 as u64);
            s
        },
        Operand::Imm(bits) => {
            let mut s = "#".to_owned();
            push_dec(&mut s, bits);
            s
        },
    }
}

fn make_operands(i: &Instruction) -> (r: String)
    ensures
        r@ == operands_text(all_operands(i@)),
{
    let ghost os = all_operands(i@);
    let ins: usize = i.inputs.len();
    let mut s = String::new();
    let mut k: usize = 0;
    while k < ins
        invariant
            k <= ins,
            ins == i.inputs@.len(),
            os == all_operands(i@),
            s@ == operands_text(os.take(k as int)),
        decreases ins - k,
    {
        if k > 0 {
            s.append(" ");
        }
        s.append(make_operand(i.inputs[k]).as_str());
        k += 1;
        assert(os.take(k as int).drop_last() == os.take(k - 1));
        assert(Seq::<char>::empty() + operand_text(os[0]) == operand_text(os[0]));
    }
    let mut j: usize = 0;
    while j < i.outputs.len()
        invariant
            j <= i.outputs@.len(),
            ins == i.inputs@.len(),
            os == all_operands(i@),
            s@ == operands_text(os.take(ins + j)),
        decreases i.outputs@.len() - j,
    {
        if ins > 0 || j > 0 {
            s.append(" ");
        }
        s.append(make_operand(Operand::VReg(i.outputs[j])).as_str());
        j += 1;
        assert(os.take(ins + j).drop_last() == os.take(ins + j - 1));
        assert(os.take(ins + j).last() == Operand::VReg(i.outputs@[j - 1]));
        assert(Seq::<char>::empty() + operand_text(os[0]) == operand_text(os[0]));
    }
    assert(os.take(ins + j) == os);
    s
}

/// The first `n` instructions, one a line.
pub open spec fn instruction_lines(is: Seq<InstructionModel>, n: nat) -> Seq<char>
    decreases n,
{
    if n == 0 {
        Seq::empty()
    } else {
        instruction_lines(is, (n - 1) as nat) + "  ["@ + dec((n - 1) as nat) + "] "@ + is[n - 1].op
            + " "@ + operands_text(all_operands(is[n - 1])) + "\n"@
    }
}

fn make_instruction_lines(v: &Vec<Instruction>) -> (r: String)
    ensures
        r@ == instruction_lines(instruction_models(v@), v@.len()),
{
    let ghost is = instruction_models(v@);
    let mut s = String::new();
    let mut k: usize = 0;
    while k < v.len()
        invariant
            k <= v@.len(),
            is == instruction_models(v@),
            s@ == instruction_lines(is, k as nat),
        decreases v@.len() - k,
    {
        assert(is[k as int] == v@[k as int]@);
        s.append("  [");
        push_dec(&mut s, k as u64);
        s.append("] ");
        s.append(v[k].op.as_str());
        s.append(" ");
        s.append(make_operands(&v[k]).as_str());
        s.append("\n");
        k += 1;
    }
    s
}

/// The operations of a graph, lowered.
pub open spec fn operations(g: GraphModel) -> Seq<ArchOpModel> {
    lowered(g, g.storage.nodes.len())
}

/// The instructions of a graph.
pub open spec fn program(g: GraphModel) -> Seq<InstructionModel> {
    default_selections(operations(g), operations(g).len())
}

/// What is shown of a compilation.
pub open spec fn trace(read: GraphModel, optimized: GraphModel) -> Seq<char> {
    let ops = operations(optimized);
    let is = program(optimized);
    "// === 前端输出 ===\n"@ + dumped(read) + "\n// === 优化后 ===\n"@ + dumped(optimized)
        + "\n// === Lowering 后 ("@ + dec(ops.len()) + " ops) ===\n"@ + op_lines(ops, ops.len())
        + "\n// === 最终指令 ("@ + dec(is.len()) + " 条) ===\n"@ + instruction_lines(is, is.len())
}

/// What compilation yields for a graph as it was read and as it is after
/// optimization, given the source.
pub open spec fn output_for(
    read: GraphModel,
    optimized: GraphModel,
    config: Config,
    source: Option<Seq<char>>,
) -> CompiledModel {
    CompiledModel {
        target: target_text(config.target),
        instructions: program(optimized),
        debug: if config.dump_ir {
            Some(trace(read, optimized))
        } else {
            None
        },
        backend_source: source,
    }
}

/// What a graph can be compiled to: instructions by the default rules, the
/// trace if it is asked for, and source if an architecture is given.
pub open spec fn compiled(
    read: GraphModel,
    optimized: GraphModel,
    config: Config,
    arch: Option<GpuArch>,
    f: FloatsModel,
) -> (OutcomeModel<CompiledModel, ErrorModel>, FloatsModel) {
    match arch {
        None => (OutcomeModel::Done(output_for(read, optimized, config, None)), f),
        Some(a) => match emitted_as(optimized.all_kernels(), language_of(config.target), a, f) {
            (OutcomeModel::Done(out), g) => (
                OutcomeModel::Done(output_for(read, optimized, config, Some(out.source))),
                g,
            ),
            (o, g) => (o.passed_on(), g),
        },
    }
}

/// Whether a graph can be compiled: it can be shown, if that is asked for, and
/// lowered; and if its operators are known, there are enough registers, and
/// source can be generated if an architecture is given.
pub open spec fn compilable(
    read: GraphModel,
    optimized: GraphModel,
    config: Config,
    arch: Option<GpuArch>,
) -> bool {
    &&& config.dump_ir ==> dumpable(read) && dumpable(optimized)
    &&& lowerable(optimized)
    &&& kinds_known(optimized, optimized.storage.nodes.len()) ==> {
        &&& operand_total(operations(optimized)) <= u32::MAX
        &&& arch is Some ==> emittable(optimized, language_of(config.target))
    }
}

/// The architecture that source is generated for, unless another is asked for.
pub fn arch_for(target: Target) -> (r: GpuArch)
    ensures
        r == match target {
            Target::Cuda => GpuArch::Ampere80,
            Target::Cpu => GpuArch::Ampere80,
            Target::Npu => GpuArch::Ascend910B1,
        },
{
    match target {
        Target::Cuda | Target::Cpu => GpuArch::Ampere80,
        Target::Npu => GpuArch::Ascend910B1,
    }
}

/// Whether a graph can be compiled.
pub fn is_compilable(read: &Graph, optimized: &Graph, config: &Config, arch: Option<GpuArch>) -> (r: bool)
    ensures
        r == compilable(read@, optimized@, *config, arch),
{
    if config.dump_ir && !(read.is_dumpable() && optimized.is_dumpable()) {
        return false;
    }
    if !optimized.is_lowerable() {
        return false;
    }
    match lower(optimized, config.target) {
        Ok(ag) => {
            if !has_registers(&ag) {
                return false;
            }
            match arch {
                Some(_) => {
                    let lang = match config.target {
                        Target::Cuda => SourceLang::Cuda,
                        Target::Npu => SourceLang::Cann,
                        Target::Cpu => SourceLang::Cpu,
                    };
                    is_emittable(optimized, lang)
                },
                None => true,
            }
        },
        Err(e) => {
            let ghost i = choose|i: u32|
                {
                    &&& i < optimized@.storage.nodes.len()
                    &&& #[trigger] optimized@.node_error(i) == Some(e@)
                    &&& kinds_known(optimized@, i as nat)
                };
            assert(optimized@.kind(i as int) is None);
            true
        },
    }
}

/// Compiles a graph, given as it was read and as it is after optimization.
/// Fails exactly if the operator of a node is not known, on the first such
/// node.
pub fn compile(
    read: &Graph,
    optimized: &Graph,
    config: &Config,
    arch: Option<GpuArch>,
    floats: &mut Floats,
) -> (r: Outcome<Output, NeutronError>)
    requires
        compilable(read@, optimized@, *config, arch),
    ensures
        if kinds_known(optimized@, optimized@.storage.nodes.len()) {
            (r@, final(floats)@) == compiled(read@, optimized@, *config, arch, old(floats)@)
        } else {
            &&& final(floats)@ == old(floats)@
            &&& r@ is Failed
            &&& exists|i: u32|
                {
                    &&& i < optimized@.storage.nodes.len()
                    &&& #[trigger] optimized@.node_error(i) == Some(r@->Failed_0)
                    &&& kinds_known(optimized@, i as nat)
                }
        },
{
    let ag = match lower(optimized, config.target) {
        Ok(ag) => ag,
        Err(e) => {
            let ghost i = choose|i: u32|
                {
                    &&& i < optimized@.storage.nodes.len()
                    &&& #[trigger] optimized@.node_error(i) == Some(e@)
                    &&& kinds_known(optimized@, i as nat)
                };
            assert(optimized@.kind(i as int) is None);
            return Outcome::Failed(e);
        },
    };
    proof {
        lowered_graph_is_selected(optimized@);
    }
    let instructions = match select(&ag) {
        Ok(v) => v,
        Err(e) => {
            return Outcome::Failed(e);
        },
    };
    let debug = if config.dump_ir {
        let mut s = "// === 前端输出 ===\n".to_owned();
        s.append(dump_graph(read).as_str());
        s.append("\n// === 优化后 ===\n");
        s.append(dump_graph(optimized).as_str());
        s.append("\n// === Lowering 后 (");
        push_dec(&mut s, ag.len() as u64);
        s.append(" ops) ===\n");
        s.append(make_op_lines(&ag).as_str());
        s.append("\n// === 最终指令 (");
        push_dec(&mut s, instructions.len() as u64);
        s.append(" 条) ===\n");
        s.append(make_instruction_lines(&instructions).as_str());
        Some(s)
    } else {
        None
    };
    let target = target_str(config.target).to_owned();
    match arch {
        None => Outcome::Done(Output { target, instructions, debug, backend_source: None }),
        Some(a) => match emit(optimized, config.target, a, floats) {
            Outcome::Done(out) => Outcome::Done(
                Output { target, instructions, debug, backend_source: Some(out.source) },
            ),
            Outcome::Failed(e) => Outcome::Failed(e),
            Outcome::Stuck => Outcome::Stuck,
            Outcome::Needs(q) => Outcome::Needs(q),
        },
    }
}

/// What a graph is compiled to stays as it is when more answers follow.
pub proof fn compilation_repeats(
    read: GraphModel,
    optimized: GraphModel,
    config: Config,
    arch: Option<GpuArch>,
    f: FloatsModel,
    more: Seq<AnswerModel>,
)
    ensures
        repeats(
            compiled(read, optimized, config, arch, f),
            compiled(read, optimized, config, arch, f.followed_by(more)),
            more,
        ),
{
    if let Some(a) = arch {
        emission_repeats(optimized.all_kernels(), language_of(config.target), a, f, more);
    }
}

} // verus!
