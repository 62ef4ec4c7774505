//! What the command line asks for.

use vstd::prelude::*;
use crate::common::{Config, OptLevel, RegAllocMode, Target};
use crate::text::{str_eq, texts};

verus! {

/// What to compile and where to write the source.
#[derive(Debug)]
pub struct Job {
    pub input: String,
    pub target: Target,
    pub opt_level: OptLevel,
    pub dump_ir: bool,
    /// The file that the source goes to, instead of the standard output.
    pub output: Option<String>,
}

/// What the command line asks for.
#[derive(Debug)]
pub enum Command {
    /// Nothing; how to use the program is shown.
    Usage,
    Help,
    Version,
    /// Something that is not understood, with the complaint.
    Refuse(String),
    Run(Job),
}

/// What a job says.
#[verifier::ext_equal]
pub struct JobModel {
    pub input: Seq<char>,
    pub target: Target,
    pub opt_level: OptLevel,
    pub dump_ir: bool,
    pub output: Option<Seq<char>>,
}

/// What a command says.
pub enum CommandModel {
    Usage,
    Help,
    Version,
    Refuse(Seq<char>),
    Run(JobModel),
}

impl View for Job {
    type V = JobModel;

    open spec fn view(&self) -> JobModel {
        JobModel {
            input: self.input@,
            target: self.target,
            opt_level: self.opt_level,
            dump_ir: self.dump_ir,
            output: match self.output {
                Some(s) => Some(s@),
                None => None,
            },
        }
    }
}

impl View for Command {
    type V = CommandModel;

    open spec fn view(&self) -> CommandModel {
        match self {
            Command::Usage => CommandModel::Usage,
            Command::Help => CommandModel::Help,
            Command::Version => CommandModel::Version,
            Command::Refuse(s) => CommandModel::Refuse(s@),
            Command::Run(j) => CommandModel::Run(j@),
        }
    }
}

/// The target with a name.
pub open spec fn target_named(s: Seq<char>) -> Option<Target> {
    if s == "cuda"@ {
        Some(Target::Cuda)
    } else if s == "npu"@ {
        Some(Target::Npu)
    } else if s == "cpu"@ {
        Some(Target::Cpu)
    } else {
        None
    }
}

/// The optimization level with a number.
pub open spec fn level_named(s: Seq<char>) -> Option<OptLevel> {
    if s == "0"@ {
        Some(OptLevel::O0)
    } else if s == "1"@ {
        Some(OptLevel::O1)
    } else if s == "2"@ {
        Some(OptLevel::O2)
    } else if s == "3"@ {
        Some(OptLevel::O3)
    } else {
        None
    }
}

/// What the options from `i` on make of a job. The first option that asks for
/// help or the version, or is not understood, decides; of two settings of the
/// same thing the later counts.
pub open spec fn options_from(args: Seq<Seq<char>>, i: int, job: JobModel) -> CommandModel
    decreases args.len() - i,
{
    if i < 0 || i >= args.len() {
        CommandModel::Run(job)
    } else if args[i] == "--target"@ {
        if i + 1 >= args.len() {
            CommandModel::Refuse("--target 需要值 (可选: cuda, npu, cpu)"@)
        } else {
            match target_named(args[i + 1]) {
                Some(target) => options_from(args, i + 2, JobModel { target, ..job }),
                None => CommandModel::Refuse(
                    "未知 target: "@ + args[i + 1] + " (可选: cuda, npu, cpu)"@,
                ),
            }
        }
    } else if args[i] == "--opt"@ {
        if i + 1 >= args.len() {
            CommandModel::Refuse("--opt 需要值 (可选: 0, 1, 2, 3)"@)
        } else {
            match level_named(args[i + 1]) {
                Some(opt_level) => options_from(args, i + 2, JobModel { opt_level, ..job }),
                None => CommandModel::Refuse(
                    "未知 opt level: "@ + args[i + 1] + " (可选: 0, 1, 2, 3)"@,
                ),
            }
        }
    } else if args[i] == "-o"@ || args[i] == "--output"@ {
        if i + 1 >= args.len() {
            CommandModel::Refuse("-o 需要值 (输出文件路径)"@)
        } else {
            options_from(args, i + 2, JobModel { output: Some(args[i + 1]), ..job })
        }
    } else if args[i] == "--dump"@ {
        options_from(args, i + 1, JobModel { dump_ir: true, ..job })
    } else if args[i] == "--help"@ || args[i] == "-h"@ {
        CommandModel::Help
    } else if args[i] == "--version"@ || args[i] == "-V"@ {
        CommandModel::Version
    } else {
        CommandModel::Refuse("未知参数: "@ + args[i] + "\n运行 neutron --help 查看用法"@)
    }
}

/// What a command line, the name of the program included, asks for. The first
/// argument is the input file, unless it asks for help or the version.
pub open spec fn command(args: Seq<Seq<char>>) -> CommandModel {
    if args.len() < 2 {
        CommandModel::Usage
    } else if args[1] == "--help"@ || args[1] == "-h"@ {
        CommandModel::Help
    } else if args[1] == "--version"@ || args[1] == "-V"@ {
        CommandModel::Version
    } else {
        options_from(
            args,
            2,
            JobModel {
                input: args[1],
                target: Target::Cuda,
                opt_level: OptLevel::O2,
                dump_ir: false,
                output: None,
            },
        )
    }
}

fn find_target(s: &str) -> (r: Option<Target>)
    ensures
        r == target_named(s@),
{
    if str_eq(s, "cuda") {
        Some(Target::Cuda)
    } else if str_eq(s, "npu") {
        Some(Target::Npu)
    } else if str_eq(s, "cpu") {
        Some(Target::Cpu)
    } else {
        None
    }
}

fn find_level(s: &str) -> (r: Option<OptLevel>)
    ensures
        r == level_named(s@),
{
    if str_eq(s, "0") {
        Some(OptLevel::O0)
    } else if str_eq(s, "1") {
        Some(OptLevel::O1)
    } else if str_eq(s, "2") {
        Some(OptLevel::O2)
    } else if str_eq(s, "3") {
        Some(OptLevel::O3)
    } else {
        None
    }
}

fn refuse(head: &str, what: &str, tail: &str) -> (r: Command)
    ensures
        r@ == CommandModel::Refuse(head@ + what@ + tail@),
{
    let mut s = head.to_owned();
    s.append(what);
    s.append(tail);
    Command::Refuse(s)
}

/// Reads a command line, the name of the program included.
pub fn parse_args(args: &[String]) -> (r: Command)
    ensures
        r@ == command(texts(args@)),
{
    let ghost all = texts(args@);
    let n: usize = args.len();
    if n < 2 {
        return Command::Usage;
    }
    let first = args[1].as_str();
    assert(all[1] == first@);
    if str_eq(first, "--help") || str_eq(first, "-h") {
        return Command::Help;
    }
    if str_eq(first, "--version") || str_eq(first, "-V") {
        return Command::Version;
    }
    let mut job = Job {
        input: first.to_owned(),
        target: Target::Cuda,
        opt_level: OptLevel::O2,
        dump_ir: false,
        output: None,
    };
    let mut i: usize = 2;
    while i < n
        invariant
            i <= n,
            n == args@.len(),
            all == texts(args@),
            command(all) == options_from(all, i as int, job@),
        decreases n - i,
    {
        let arg = args[i].as_str();
        assert(all[i as int] == arg@);
        if str_eq(arg, "--target") {
            if i + 1 >= n {
                return Command::Refuse("--target 需要值 (可选: cuda, npu, cpu)".to_owned());
            }
            let value = args[i + 1].as_str();
            assert(all[i + 1] == value@);
            match find_target(value) {
                Some(t) => {
                    job.target = t;
                },
                None => {
                    return refuse("未知 target: ", value, " (可选: cuda, npu, cpu)");
                },
            }
            i += 2;
        } else if str_eq(arg, "--opt") {
            if i + 1 >= n {
                return Command::Refuse("--opt 需要值 (可选: 0, 1, 2, 3)".to_owned());
            }
            let value = args[i + 1].as_str();
            assert(all[i + 1] == value@);
            match find_level(value) {
                Some(l) => {
                    job.opt_level = l;
                },
                None => {
                    return refuse("未知 opt level: ", value, " (可选: 0, 1, 2, 3)");
                },
            }
            i += 2;
        } else if str_eq(arg, "-o") || str_eq(arg, "--output") {
            if i + 1 >= n {
                return Command::Refuse("-o 需要值 (输出文件路径)".to_owned());
            }
            assert(all[i + 1] == args@[i + 1]@);
            job.output = Some(args[i + 1].clone());
            i += 2;
        } else if str_eq(arg, "--dump") {
            job.dump_ir = true;
            i += 1;
        } else if str_eq(arg, "--help") || str_eq(arg, "-h") {
            return Command::Help;
        } else if str_eq(arg, "--version") || str_eq(arg, "-V") {
            return Command::Version;
        } else {
            return refuse("未知参数: ", arg, "\n运行 neutron --help 查看用法");
        }
    }
    Command::Run(job)
}

impl Job {
    /// How the job is to be compiled.
    pub fn config(&self) -> (r: Config)
        ensures
            r.target == self.target,
            r.opt_level == self.opt_level,
            r.dump_ir == self.dump_ir,
            !r.trace_isel,
            !r.algebra_unsafe_opts,
            r.regalloc_mode == RegAllocMode::Standard,
    {
        Config {
            target: self.target,
            opt_level: self.opt_level,
            dump_ir: self.dump_ir,
            trace_isel: false,
            algebra_unsafe_opts: false,
            regalloc_mode: RegAllocMode::Standard,
        }
    }
}

impl Command {
    /// The exit status of a command that does not compile: zero for what was
    /// asked for, two for wrong usage.
    pub fn exit_status(&self) -> (r: Option<i32>)
        ensures
            r == match self@ {
                CommandModel::Usage => Some(2i32),
                CommandModel::Refuse(_) => Some(2i32),
                CommandModel::Help => Some(0i32),
                CommandModel::Version => Some(0i32),
                CommandModel::Run(_) => None,
            },
    {
        match self {
            Command::Usage => Some(2),
            Command::Refuse(_) => Some(2),
            Command::Help => Some(0),
            Command::Version => Some(0),
            Command::Run(_) => None,
        }
    }
}

/// How to use the program, after its name and version.
pub const OPTIONS: &'static str = " — ONNX → GPU/NPU kernel 编译器

用法: neutron <input.onnx> [--target cuda|npu|cpu] [--opt 0|1|2|3] [--dump] [-o <file>] [--help] [--version]

选项:
  --target <t>   目标后端: cuda (NVIDIA), npu (昇腾), cpu (回退)
  --opt <n>      优化等级: 0=关闭, 1=基础, 2=默认, 3=激进
  --dump         输出 IR 调试信息到 stderr
  -o <file>      后端源码写入文件 (默认写 stdout)
  --help, -h     显示帮助
  --version, -V  显示版本号
";

/// How to use the program.
pub fn usage(version: &str) -> (r: String)
    ensures
        r@ == "neutron v"@ + version@ + OPTIONS@,
{
    let mut s = "neutron v".to_owned();
    s.append(version);
    s.append(OPTIONS);
    s
}

} // verus!
