use neutron::cli::{parse_args, usage, Command};
use neutron::common::{OptLevel, RegAllocMode, Target};

fn parse(args: &[&str]) -> Command {
    let mut all = vec!["neutron".to_string()];
    all.extend(args.iter().map(|s| s.to_string()));
    parse_args(&all)
}

fn complaint(args: &[&str]) -> String {
    let c = parse(args);
    assert_eq!(c.exit_status(), Some(2));
    match c {
        Command::Refuse(s) => s,
        other => panic!("{other:?}"),
    }
}

#[test]
fn without_arguments_usage_is_shown() {
    assert!(matches!(parse(&[]), Command::Usage));
    assert_eq!(parse(&[]).exit_status(), Some(2));
    assert!(matches!(parse_args(&[]), Command::Usage));
}

#[test]
fn help_and_version_end_well() {
    for args in [&["--help"][..], &["-h"], &["m.onnx", "--dump", "-h"], &["m.onnx", "--help", "--bad"]] {
        assert!(matches!(parse(args), Command::Help));
        assert_eq!(parse(args).exit_status(), Some(0));
    }
    for args in [&["--version"][..], &["-V"], &["m.onnx", "--version"]] {
        assert!(matches!(parse(args), Command::Version));
        assert_eq!(parse(args).exit_status(), Some(0));
    }
}

#[test]
fn defaults_of_a_job() {
    match parse(&["m.onnx"]) {
        Command::Run(job) => {
            assert_eq!(job.input, "m.onnx");
            assert_eq!(job.target, Target::Cuda);
            assert_eq!(job.opt_level, OptLevel::O2);
            assert!(!job.dump_ir);
            assert_eq!(job.output, None);
            let c = job.config();
            assert_eq!(c.target, Target::Cuda);
            assert_eq!(c.regalloc_mode, RegAllocMode::Standard);
        }
        other => panic!("{other:?}"),
    }
}

#[test]
fn options_of_a_job() {
    let c = parse(&["m.onnx", "--target", "npu", "--opt", "3", "-o", "kernel.cpp", "--dump"]);
    assert_eq!(c.exit_status(), None);
    match c {
        Command::Run(job) => {
            assert_eq!(job.target, Target::Npu);
            assert_eq!(job.opt_level, OptLevel::O3);
            assert_eq!(job.output.as_deref(), Some("kernel.cpp"));
            assert!(job.dump_ir);
            assert!(job.config().dump_ir);
        }
        other => panic!("{other:?}"),
    }
    match parse(&["m.onnx", "--target", "npu", "--target", "cpu", "--output", "a"]) {
        Command::Run(job) => {
            assert_eq!(job.target, Target::Cpu);
            assert_eq!(job.output.as_deref(), Some("a"));
        }
        other => panic!("{other:?}"),
    }
}

#[test]
fn wrong_usage_is_refused() {
    assert_eq!(complaint(&["m", "--target"]), "--target 需要值 (可选: cuda, npu, cpu)");
    assert_eq!(complaint(&["m", "--target", "tpu"]), "未知 target: tpu (可选: cuda, npu, cpu)");
    assert_eq!(complaint(&["m", "--opt"]), "--opt 需要值 (可选: 0, 1, 2, 3)");
    assert_eq!(complaint(&["m", "--opt", "4"]), "未知 opt level: 4 (可选: 0, 1, 2, 3)");
    assert_eq!(complaint(&["m", "-o"]), "-o 需要值 (输出文件路径)");
    assert_eq!(complaint(&["m", "--fast"]), "未知参数: --fast\n运行 neutron --help 查看用法");
}

#[test]
fn usage_names_the_version() {
    let u = usage("0.1.1");
    assert!(u.starts_with("neutron v0.1.1 — ONNX → GPU/NPU kernel 编译器\n\n用法: neutron <input.onnx>"));
    assert!(u.contains("  --opt <n>      优化等级: 0=关闭, 1=基础, 2=默认, 3=激进\n"));
    assert!(u.ends_with("  --version, -V  显示版本号\n"));
}
