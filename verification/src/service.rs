use vstd::prelude::*;

use crate::service_config::ServiceConfig;
use crate::text::{concat, copy_str, lines, lines_of};

verus! {

// The decisions of the service mode: how the configured command line turns
// into a process to start, and what the supervisor does next.

#[verifier::external_type_specification]
#[verifier::external_body]
pub struct ExShellParseError(shell_words::ParseError);

/// What `shell_words::split` returns for a line: its words, or `None` where
/// a quote is not closed.
pub uninterp spec fn shell_split(line: Seq<char>) -> Option<Seq<Seq<char>>>;

/// `shell_words::split`: splits a command line into words as a POSIX shell
/// would, without expansions. Its result depends on the line alone and is
/// named `shell_split`; nothing more of it is stated here.
#[verifier::external_body]
fn split_shell_words(line: &str) -> (r: Result<Vec<String>, shell_words::ParseError>)
    ensures
        match r {
            Ok(words) => shell_split(line@) == Some(words.deep_view()),
            Err(_) => shell_split(line@) is None,
        },
{
    shell_words::split(line)
}

/// `<shell_words::ParseError as Display>::fmt`: the text of the error of
/// `shell_words::split`. The error is a unit struct whose text is always
/// `missing closing quote`, and that is what is stated here.
#[verifier::external_body]
fn parse_error_text(e: &shell_words::ParseError) -> (r: String)
    ensures
        r@ == "missing closing quote"@,
{
    format!("{}", e)
}

/// Why a process could not be prepared.
#[derive(Debug, Clone, PartialEq, Eq)]
pub enum LaunchError {
    /// The configuration has no command line (`未配置 executable`).
    NoExecutable,
    /// The command line does not split into words, with the splitter's
    /// reason (`命令解析失败: <reason>`).
    ParseFailed(String),
    /// The command line holds no word (`命令为空`).
    EmptyCommand,
    /// No working directory is configured and the directory of the
    /// controller could not be found, for the reason given.
    NoWorkDir(String),
}

/// The value of a `LaunchError`, its texts taken as characters.
pub enum LaunchErrorModel {
    NoExecutable,
    ParseFailed(Seq<char>),
    EmptyCommand,
    NoWorkDir(Seq<char>),
}

impl View for LaunchError {
    type V = LaunchErrorModel;

    open spec fn view(&self) -> LaunchErrorModel {
        match self {
            LaunchError::NoExecutable => LaunchErrorModel::NoExecutable,
            LaunchError::ParseFailed(t) => LaunchErrorModel::ParseFailed(t@),
            LaunchError::EmptyCommand => LaunchErrorModel::EmptyCommand,
            LaunchError::NoWorkDir(t) => LaunchErrorModel::NoWorkDir(t@),
        }
    }
}

/// The message that reports a launch error: a fixed text, the splitter's
/// reason after `命令解析失败: `, or the reason why the controller's
/// directory could not be found.
pub open spec fn spec_launch_error_message(e: LaunchErrorModel) -> Seq<char> {
    match e {
        LaunchErrorModel::NoExecutable => "未配置 executable"@,
        LaunchErrorModel::ParseFailed(reason) => "命令解析失败: "@ + reason,
        LaunchErrorModel::EmptyCommand => "命令为空"@,
        LaunchErrorModel::NoWorkDir(reason) => reason,
    }
}

/// The message that reports a launch error.
pub fn launch_error_message(e: &LaunchError) -> (r: String)
    ensures
        r@ == spec_launch_error_message(e@),
{
    match e {
        LaunchError::NoExecutable => copy_str("未配置 executable"),
        LaunchError::ParseFailed(reason) => concat("命令解析失败: ", reason.as_str()),
        LaunchError::EmptyCommand => copy_str("命令为空"),
        LaunchError::NoWorkDir(reason) => reason.clone(),
    }
}

/// Where the program of the command is found.
#[derive(Debug, Clone, Copy, PartialEq, Eq, Structural)]
pub enum ExeLocation {
    /// The program is an absolute path and is run as it is.
    Absolute,
    /// A bare name without `.`, `/` or `\`: looked up in the system path.
    SystemPath,
    /// Any other relative path: taken relative to the working directory.
    RelativeToWorkDir,
}

/// The process to start.
pub struct LaunchPlan {
    /// The program, as written in the command line.
    pub program: String,
    /// Its arguments.
    pub args: Vec<String>,
    /// The working directory.
    pub work_dir: String,
}

/// The program and arguments of a command line split into `words`: the
/// first word and the rest; an error where there is no word.
pub open spec fn spec_command_from_words(words: Seq<Seq<char>>) -> Result<
    (Seq<char>, Seq<Seq<char>>),
    LaunchErrorModel,
> {
    if words.len() == 0 {
        Err(LaunchErrorModel::EmptyCommand)
    } else {
        Ok((words[0], words.drop_first()))
    }
}

/// The program and arguments of a command line: its shell words split into
/// the first and the rest; an error where it is empty, or where it does not
/// split, with the splitter's reason `missing closing quote`.
pub open spec fn spec_parse_command_line(line: Seq<char>) -> Result<
    (Seq<char>, Seq<Seq<char>>),
    LaunchErrorModel,
> {
    match shell_split(line) {
        Some(words) => spec_command_from_words(words),
        None => Err(LaunchErrorModel::ParseFailed("missing closing quote"@)),
    }
}

/// The program and its arguments from the words of a command line.
pub fn command_from_words(words: Vec<String>) -> (r: Result<(String, Vec<String>), LaunchError>)
    ensures
        match r {
            Ok((p, a)) => spec_command_from_words(words.deep_view()) == Ok::<
                (Seq<char>, Seq<Seq<char>>),
                LaunchErrorModel,
            >((p@, a.deep_view())),
            Err(e) => spec_command_from_words(words.deep_view()) == Err::<
                (Seq<char>, Seq<Seq<char>>),
                LaunchErrorModel,
            >(e@),
        },
{
    let mut words = words;
    if words.len() == 0 {
        return Err(LaunchError::EmptyCommand);
    }
    let ghost all = words.deep_view();
    let program: String = words.remove(0);
    assert(program@ == all[0]);
    assert(words.deep_view() =~= all.drop_first());
    Ok((program, words))
}

/// Splits a command line into its program and arguments.
pub fn parse_command_line(line: &str) -> (r: Result<(String, Vec<String>), LaunchError>)
    ensures
        match r {
            Ok((p, a)) => spec_parse_command_line(line@) == Ok::<
                (Seq<char>, Seq<Seq<char>>),
                LaunchErrorModel,
            >((p@, a.deep_view())),
            Err(e) => spec_parse_command_line(line@) == Err::<
                (Seq<char>, Seq<Seq<char>>),
                LaunchErrorModel,
            >(e@),
        },
{
    match split_shell_words(line) {
        Ok(words) => command_from_words(words),
        Err(e) => Err(LaunchError::ParseFailed(parse_error_text(&e))),
    }
}

/// `r` with its texts taken as characters.
pub open spec fn res_str(r: Result<String, String>) -> Result<Seq<char>, Seq<char>> {
    match r {
        Ok(d) => Ok(d@),
        Err(e) => Err(e@),
    }
}

/// The process that the service runs for `cfg`: the configured command
/// line split into program and arguments, run in the configured working
/// directory, else in the controller's directory `exe_dir`, or failing with
/// the reason why that directory could not be found.
pub open spec fn spec_prepare_launch(cfg_executable: Option<Seq<char>>, cfg_work_dir: Option<Seq<char>>, exe_dir: Result<Seq<char>, Seq<char>>) -> Result<
    (Seq<char>, Seq<Seq<char>>, Seq<char>),
    LaunchErrorModel,
> {
    match cfg_executable {
        None => Err(LaunchErrorModel::NoExecutable),
        Some(line) => match spec_parse_command_line(line) {
            Err(e) => Err(e),
            Ok((program, args)) => match cfg_work_dir {
                Some(w) => Ok((program, args, w)),
                None => match exe_dir {
                    Ok(d) => Ok((program, args, d)),
                    Err(reason) => Err(LaunchErrorModel::NoWorkDir(reason)),
                },
            },
        },
    }
}

/// Prepares the process of the service of `cfg`; `exe_dir` is the directory
/// of the controller, or the reason why it could not be found.
pub fn prepare_launch(cfg: &ServiceConfig, exe_dir: Result<String, String>) -> (r: Result<
    LaunchPlan,
    LaunchError,
>)
    ensures
        match r {
            Ok(plan) => spec_prepare_launch(
                crate::service_config::opt_str(cfg.executable),
                crate::service_config::opt_str(cfg.working_directory),
                res_str(exe_dir),
            ) == Ok::<(Seq<char>, Seq<Seq<char>>, Seq<char>), LaunchErrorModel>(
                (plan.program@, plan.args.deep_view(), plan.work_dir@),
            ),
            Err(e) => spec_prepare_launch(
                crate::service_config::opt_str(cfg.executable),
                crate::service_config::opt_str(cfg.working_directory),
                res_str(exe_dir),
            ) == Err::<(Seq<char>, Seq<Seq<char>>, Seq<char>), LaunchErrorModel>(e@),
        },
{
    let line: &String = match &cfg.executable {
        Some(l) => l,
        None => {
            return Err(LaunchError::NoExecutable);
        },
    };
    let (program, args) = match parse_command_line(line.as_str()) {
        Ok(pa) => pa,
        Err(e) => {
            return Err(e);
        },
    };
    let work_dir: String = match &cfg.working_directory {
        Some(w) => w.clone(),
        None => match exe_dir {
            Ok(d) => d,
            Err(reason) => {
                return Err(LaunchError::NoWorkDir(reason));
            },
        },
    };
    Ok(LaunchPlan { program, args, work_dir })
}

/// The configured working directory decides where the process runs: when
/// the command line splits into a program and its arguments, a configured
/// working directory `w` is the plan's directory whatever is known of the
/// controller's directory; only without one is the controller's directory
/// taken, or its absence reported with its reason. The program and
/// arguments do not depend on the directories.
pub proof fn lemma_configured_work_dir_wins(
    line: Seq<char>,
    work_dir: Option<Seq<char>>,
    exe_dir: Result<Seq<char>, Seq<char>>,
)
    requires
        spec_parse_command_line(line) is Ok,
    ensures
        ({
            let (program, args) = spec_parse_command_line(line)->Ok_0;
            spec_prepare_launch(Some(line), work_dir, exe_dir) == match work_dir {
                Some(w) => Ok((program, args, w)),
                None => match exe_dir {
                    Ok(d) => Ok((program, args, d)),
                    Err(reason) => Err(LaunchErrorModel::NoWorkDir(reason)),
                },
            }
        }),
        forall|other: Result<Seq<char>, Seq<char>>|
            work_dir is Some ==> spec_prepare_launch(Some(line), work_dir, exe_dir)
                == #[trigger] spec_prepare_launch(Some(line), work_dir, other),
{
}

/// Where a program of the command line is found, given whether it is an
/// absolute path on this system.
pub open spec fn spec_exe_location(program: Seq<char>, is_absolute: bool) -> ExeLocation {
    if is_absolute {
        ExeLocation::Absolute
    } else if !program.contains('.') && !program.contains('/') && !program.contains('\\') {
        ExeLocation::SystemPath
    } else {
        ExeLocation::RelativeToWorkDir
    }
}

/// Where the program `program` is found; `is_absolute` says whether the
/// system takes it as an absolute path.
pub fn exe_location(program: &str, is_absolute: bool) -> (r: ExeLocation)
    ensures
        r == spec_exe_location(program@, is_absolute),
{
    if is_absolute {
        ExeLocation::Absolute
    } else if !crate::text::has_char(program, '.') && !crate::text::has_char(program, '/')
        && !crate::text::has_char(program, '\\') {
        ExeLocation::SystemPath
    } else {
        ExeLocation::RelativeToWorkDir
    }
}

/// What the supervisor saw when it last looked at the child process.
#[derive(Debug, Clone, Copy, PartialEq, Eq, Structural)]
pub enum ChildState {
    /// It is still running.
    Running,
    /// It has exited.
    Exited,
    /// Its state could not be read.
    Unknown,
}

/// What the supervisor does next.
#[derive(Debug, Clone, Copy, PartialEq, Eq, Structural)]
pub enum SupervisorStep {
    /// Kill the child and stop supervising it.
    Kill,
    /// Stop supervising: the child has exited.
    Finish,
    /// Stop supervising: the child's state is unknown.
    Abandon,
    /// Wait a moment and look again.
    Poll,
}

/// The supervisor's next step: a stop request kills the child whatever its
/// state; otherwise an exit or an unreadable state ends the supervision and
/// a running child is looked at again.
pub open spec fn spec_supervise(stop_requested: bool, child: ChildState) -> SupervisorStep {
    if stop_requested {
        SupervisorStep::Kill
    } else {
        match child {
            ChildState::Exited => SupervisorStep::Finish,
            ChildState::Running => SupervisorStep::Poll,
            ChildState::Unknown => SupervisorStep::Abandon,
        }
    }
}

/// The supervisor's next step.
pub fn supervise(stop_requested: bool, child: ChildState) -> (r: SupervisorStep)
    ensures
        r == spec_supervise(stop_requested, child),
{
    if stop_requested {
        SupervisorStep::Kill
    } else {
        match child {
            ChildState::Exited => SupervisorStep::Finish,
            ChildState::Running => SupervisorStep::Poll,
            ChildState::Unknown => SupervisorStep::Abandon,
        }
    }
}

/// What the service loop does after a run of the process ended.
#[derive(Debug, Clone, Copy, PartialEq, Eq, Structural)]
pub enum ServiceLoopStep {
    /// Leave the loop and report the service as stopped.
    Stop,
    /// Sleep this many seconds, then run the process again.
    RestartAfter(u32),
}

/// After a run: stop if a stop was requested, else restart after the
/// configured delay.
pub fn after_run(cfg: &ServiceConfig, stop_requested: bool) -> (r: ServiceLoopStep)
    ensures
        r == (if stop_requested {
            ServiceLoopStep::Stop
        } else {
            ServiceLoopStep::RestartAfter(cfg.on_failure_delay)
        }),
{
    if stop_requested {
        ServiceLoopStep::Stop
    } else {
        ServiceLoopStep::RestartAfter(cfg.on_failure_delay)
    }
}

/// The lines that a chunk of the child's standard output adds to its log.
pub fn stdout_log_lines(chunk: &str) -> (r: Vec<String>)
    ensures
        r.deep_view() == lines(chunk@),
{
    lines_of(chunk)
}

/// The process log line for a line of the child's standard error: `ERROR: <line>`.
pub fn stderr_exec_line(line: &str) -> (r: String)
    ensures
        r@ == "ERROR: "@ + line@,
{
    concat("ERROR: ", line)
}

/// The wrapper log line for a line of the child's standard error.
pub fn stderr_wrapper_line(line: &str) -> (r: String)
    ensures
        r@ == "子进程错误："@ + line@,
{
    concat("子进程错误：", line)
}

/// A stop request is always obeyed: whatever the child's state, the
/// supervisor kills it, and the service loop does not restart it.
pub proof fn lemma_stop_is_obeyed(child: ChildState)
    ensures
        spec_supervise(true, child) == SupervisorStep::Kill,
{
}

} // verus!
