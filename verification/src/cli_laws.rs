//! What command lines ask for.

use vstd::prelude::*;
use crate::cli::{CommandModel, JobModel, command, level_named, options_from, target_named};
use crate::common::{OptLevel, Target};

verus! {

/// The words of command lines differ.
proof fn words_differ()
    ensures
        "--target"@.len() == 8 && "--target"@[2] == 't',
        "--output"@.len() == 8 && "--output"@[2] == 'o',
        "--opt"@.len() == 5,
        "-o"@.len() == 2 && "-o"@[1] == 'o',
        "--dump"@.len() == 6 && "--dump"@[2] == 'd',
        "--help"@.len() == 6 && "--help"@[2] == 'h',
        "-h"@.len() == 2 && "-h"@[1] == 'h',
        "--version"@.len() == 9,
        "-V"@.len() == 2 && "-V"@[1] == 'V',
        "cuda"@.len() == 4,
        "npu"@.len() == 3 && "npu"@[0] == 'n',
        "cpu"@.len() == 3 && "cpu"@[0] == 'c',
        "0"@[0] == '0' && "1"@[0] == '1' && "2"@[0] == '2' && "3"@[0] == '3',
{
    reveal_strlit("--target");
    reveal_strlit("--output");
    reveal_strlit("--opt");
    reveal_strlit("-o");
    reveal_strlit("--dump");
    reveal_strlit("--help");
    reveal_strlit("-h");
    reveal_strlit("--version");
    reveal_strlit("-V");
    reveal_strlit("cuda");
    reveal_strlit("npu");
    reveal_strlit("cpu");
    reveal_strlit("0");
    reveal_strlit("1");
    reveal_strlit("2");
    reveal_strlit("3");
}

/// The targets and the levels have their names.
pub proof fn settings_are_named()
    ensures
        target_named("cuda"@) == Some(Target::Cuda),
        target_named("npu"@) == Some(Target::Npu),
        target_named("cpu"@) == Some(Target::Cpu),
        level_named("0"@) == Some(OptLevel::O0),
        level_named("1"@) == Some(OptLevel::O1),
        level_named("2"@) == Some(OptLevel::O2),
        level_named("3"@) == Some(OptLevel::O3),
{
    words_differ();
}

/// More options go on from the job of those before.
proof fn options_go_on(args: Seq<Seq<char>>, tail: Seq<Seq<char>>, i: int, job: JobModel)
    requires
        0 <= i <= args.len(),
        options_from(args, i, job) is Run,
    ensures
        options_from(args + tail, i, job) == options_from(
            args + tail,
            args.len() as int,
            options_from(args, i, job)->Run_0,
        ),
    decreases args.len() - i,
{
    let all = args + tail;
    if i < args.len() {
        assert(all[i] == args[i]);
        if i + 1 < args.len() {
            assert(all[i + 1] == args[i + 1]);
        }
        if args[i] == "--target"@ {
            options_go_on(
                args,
                tail,
                i + 2,
                JobModel { target: target_named(args[i + 1])->0, ..job },
            );
        } else if args[i] == "--opt"@ {
            options_go_on(
                args,
                tail,
                i + 2,
                JobModel { opt_level: level_named(args[i + 1])->0, ..job },
            );
        } else if args[i] == "-o"@ || args[i] == "--output"@ {
            options_go_on(args, tail, i + 2, JobModel { output: Some(args[i + 1]), ..job });
        } else {
            options_go_on(args, tail, i + 1, JobModel { dump_ir: true, ..job });
        }
    }
}

/// An option behind a command line that asks for a job changes the one thing that
/// it is for, whatever stands before, and nothing else: the last setting counts.
pub proof fn options_set_one_thing(args: Seq<Seq<char>>, value: Seq<char>)
    requires
        args.len() >= 2,
        command(args) is Run,
    ensures
        ({
            let job = command(args)->Run_0;
            &&& target_named(value) is Some ==> command(args + seq!["--target"@, value])
                == CommandModel::Run((JobModel { target: target_named(value)->0, ..job }))
            &&& level_named(value) is Some ==> command(args + seq!["--opt"@, value])
                == CommandModel::Run((JobModel { opt_level: level_named(value)->0, ..job }))
            &&& command(args + seq!["-o"@, value]) == CommandModel::Run(
                (JobModel { output: Some(value), ..job }),
            )
            &&& command(args + seq!["--output"@, value]) == CommandModel::Run(
                (JobModel { output: Some(value), ..job }),
            )
            &&& command(args + seq!["--dump"@]) == CommandModel::Run(
                (JobModel { dump_ir: true, ..job }),
            )
            &&& command(args + seq!["--help"@]) == CommandModel::Help
            &&& command(args + seq!["-h"@]) == CommandModel::Help
            &&& command(args + seq!["--version"@]) == CommandModel::Version
            &&& command(args + seq!["-V"@]) == CommandModel::Version
            &&& target_named(value) is None ==> command(args + seq!["--target"@, value]) is Refuse
            &&& level_named(value) is None ==> command(args + seq!["--opt"@, value]) is Refuse
            &&& job.input == args[1]
        }),
{
    words_differ();
    let start = JobModel {
        input: args[1],
        target: Target::Cuda,
        opt_level: OptLevel::O2,
        dump_ir: false,
        output: None,
    };
    let job = options_from(args, 2, start)->Run_0;
    assert(command(args) == options_from(args, 2, start));
    input_stays(args, 2, start);
    let n = args.len() as int;
    let target = args + seq!["--target"@, value];
    let level = args + seq!["--opt"@, value];
    let short = args + seq!["-o"@, value];
    let long = args + seq!["--output"@, value];
    let dump = args + seq!["--dump"@];
    one_option(args, seq!["--target"@, value], start);
    one_option(args, seq!["--opt"@, value], start);
    one_option(args, seq!["-o"@, value], start);
    one_option(args, seq!["--output"@, value], start);
    one_option(args, seq!["--dump"@], start);
    one_option(args, seq!["--help"@], start);
    one_option(args, seq!["-h"@], start);
    one_option(args, seq!["--version"@], start);
    one_option(args, seq!["-V"@], start);
    let with_target = JobModel { target: target_named(value)->0, ..job };
    let with_level = JobModel { opt_level: level_named(value)->0, ..job };
    let with_output = JobModel { output: Some(value), ..job };
    let with_dump = JobModel { dump_ir: true, ..job };
    assert(options_from(target, n + 2, with_target) == CommandModel::Run(with_target));
    assert(options_from(level, n + 2, with_level) == CommandModel::Run(with_level));
    assert(options_from(short, n + 2, with_output) == CommandModel::Run(with_output));
    assert(options_from(long, n + 2, with_output) == CommandModel::Run(with_output));
    assert(options_from(dump, n + 1, with_dump) == CommandModel::Run(with_dump));
}

/// A command line with one more option.
proof fn one_option(args: Seq<Seq<char>>, tail: Seq<Seq<char>>, start: JobModel)
    requires
        args.len() >= 2,
        start == (JobModel {
            input: args[1],
            target: Target::Cuda,
            opt_level: OptLevel::O2,
            dump_ir: false,
            output: None,
        }),
        command(args) == options_from(args, 2, start),
        command(args) is Run,
        1 <= tail.len() <= 2,
    ensures
        ({
            let job = options_from(args, 2, start)->Run_0;
            let n = args.len() as int;
            let all = args + tail;
            &&& command(all) == options_from(all, n, job)
            &&& all[n] == tail[0]
            &&& tail.len() == 2 ==> all[n + 1] == tail[1]
            &&& all.len() == n + tail.len()
        }),
{
    let all = args + tail;
    assert(all[1] == args[1]);
    options_go_on(args, tail, 2, start);
    words_differ();
}

/// Options do not change the input.
proof fn input_stays(args: Seq<Seq<char>>, i: int, job: JobModel)
    requires
        0 <= i <= args.len(),
        options_from(args, i, job) is Run,
    ensures
        options_from(args, i, job)->Run_0.input == job.input,
    decreases args.len() - i,
{
    if i < args.len() {
        if args[i] == "--target"@ {
            input_stays(args, i + 2, JobModel { target: target_named(args[i + 1])->0, ..job });
        } else if args[i] == "--opt"@ {
            input_stays(args, i + 2, JobModel { opt_level: level_named(args[i + 1])->0, ..job });
        } else if args[i] == "-o"@ || args[i] == "--output"@ {
            input_stays(args, i + 2, JobModel { output: Some(args[i + 1]), ..job });
        } else {
            input_stays(args, i + 1, JobModel { dump_ir: true, ..job });
        }
    }
}

} // verus!
