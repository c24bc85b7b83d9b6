use vstd::prelude::*;

use crate::service_config::ServiceConfig;
use crate::text::{
    after_first, concat, concat3, copy_str, eq_ignore_ascii_case, eq_ignore_ascii_case_spec, join,
    lines, lines_of, seq_join, starts_with, starts_with_str, trim, trim_start, trim_start_str,
    trim_str, after_first_str,
};

verus! {

// Service management through the `sc` command line tool.

/// One run of a command: a title for the log, the program and its arguments.
pub struct ScInvocation {
    pub title: String,
    pub program: String,
    pub params: Vec<String>,
}

pub struct ScInvocationModel {
    pub title: Seq<char>,
    pub program: Seq<char>,
    pub params: Seq<Seq<char>>,
}

impl View for ScInvocation {
    type V = ScInvocationModel;

    open spec fn view(&self) -> ScInvocationModel {
        ScInvocationModel {
            title: self.title@,
            program: self.program@,
            params: self.params.deep_view(),
        }
    }
}

/// How a command run ended, with its output decoded as text.
pub enum CommandOutcome {
    /// The command ran; whether it reported success, and what it printed.
    Finished { success: bool, stdout: String, stderr: String },
    /// The command could not be run.
    Failed(String),
}

pub enum CommandOutcomeModel {
    Finished { success: bool, stdout: Seq<char>, stderr: Seq<char> },
    Failed(Seq<char>),
}

impl View for CommandOutcome {
    type V = CommandOutcomeModel;

    open spec fn view(&self) -> CommandOutcomeModel {
        match self {
            CommandOutcome::Finished { success, stdout, stderr } => CommandOutcomeModel::Finished {
                success: *success,
                stdout: stdout@,
                stderr: stderr@,
            },
            CommandOutcome::Failed(e) => CommandOutcomeModel::Failed(e@),
        }
    }
}

/// The `sc` start type for a start mode: `auto` for `automatic` in any
/// ASCII case, else `demand`.
pub open spec fn spec_sc_start_type(start_mode: Seq<char>) -> Seq<char> {
    if eq_ignore_ascii_case_spec(start_mode, "automatic"@) {
        "auto"@
    } else {
        "demand"@
    }
}

pub open spec fn spec_invocation(title: Seq<char>, params: Seq<Seq<char>>) -> ScInvocationModel {
    ScInvocationModel { title, program: "sc"@, params }
}

fn strings2(a: String, b: String) -> (r: Vec<String>)
    ensures
        r.deep_view() == seq![a@, b@],
{
    let mut v: Vec<String> = Vec::new();
    v.push(a);
    v.push(b);
    assert(v.deep_view() =~= seq![a@, b@]);
    v
}

fn invocation(title: &str, params: Vec<String>) -> (r: ScInvocation)
    ensures
        r@ == spec_invocation(title@, params.deep_view()),
{
    ScInvocation { title: copy_str(title), program: copy_str("sc"), params }
}

/// The two runs that install the service of `cfg` for the controller at
/// `exe_path`: `sc create <id> binPath= "<exe> -service" start= <type>
/// DisplayName= <name>`, then `sc description <id> <description or "">`.
pub fn install_service(cfg: &ServiceConfig, exe_path: &str) -> (r: Vec<ScInvocation>)
    ensures
        r@.len() == 2,
        r@[0]@ == spec_invocation(
            "安装"@,
            seq![
                "create"@,
                cfg.service_id@,
                "binPath="@,
                exe_path@ + " -service"@,
                "start="@,
                spec_sc_start_type(cfg.start_mode@),
                "DisplayName="@,
                cfg.service_name@,
            ],
        ),
        r@[1]@ == spec_invocation(
            "设置描述"@,
            seq![
                "description"@,
                cfg.service_id@,
                match cfg.description {
                    Some(d) => d@,
                    None => seq![],
                },
            ],
        ),
{
    let start_type: String = if eq_ignore_ascii_case(cfg.start_mode.as_str(), "automatic") {
        copy_str("auto")
    } else {
        copy_str("demand")
    };
    let mut create: Vec<String> = Vec::new();
    create.push(copy_str("create"));
    create.push(cfg.service_id.clone());
    create.push(copy_str("binPath="));
    create.push(concat(exe_path, " -service"));
    create.push(copy_str("start="));
    create.push(start_type);
    create.push(copy_str("DisplayName="));
    create.push(cfg.service_name.clone());
    let mut describe: Vec<String> = Vec::new();
    describe.push(copy_str("description"));
    describe.push(cfg.service_id.clone());
    describe.push(
        match &cfg.description {
            Some(d) => d.clone(),
            None => String::new(),
        },
    );
    let mut r: Vec<ScInvocation> = Vec::new();
    let first: ScInvocation = invocation("安装", create);
    let second: ScInvocation = invocation("设置描述", describe);
    proof {
        assert(first@.params =~= seq![
            "create"@,
            cfg.service_id@,
            "binPath="@,
            exe_path@ + " -service"@,
            "start="@,
            spec_sc_start_type(cfg.start_mode@),
            "DisplayName="@,
            cfg.service_name@,
        ]);
        assert(second@.params =~= seq![
            "description"@,
            cfg.service_id@,
            match cfg.description {
                Some(d) => d@,
                None => seq![],
            },
        ]);
    }
    r.push(first);
    r.push(second);
    r
}

/// The run that starts the service: `sc start <id>`.
pub fn start_service(cfg: &ServiceConfig) -> (r: ScInvocation)
    ensures
        r@ == spec_invocation("启动"@, seq!["start"@, cfg.service_id@]),
{
    invocation("启动", strings2(copy_str("start"), cfg.service_id.clone()))
}

/// The run that stops the service: `sc stop <id>`.
pub fn stop_service(cfg: &ServiceConfig) -> (r: ScInvocation)
    ensures
        r@ == spec_invocation("停止"@, seq!["stop"@, cfg.service_id@]),
{
    invocation("停止", strings2(copy_str("stop"), cfg.service_id.clone()))
}

/// The runs that remove the service: it is stopped, then `sc delete <id>`.
pub fn uninstall_service(cfg: &ServiceConfig) -> (r: Vec<ScInvocation>)
    ensures
        r@.len() == 2,
        r@[0]@ == spec_invocation("停止"@, seq!["stop"@, cfg.service_id@]),
        r@[1]@ == spec_invocation("卸载"@, seq!["delete"@, cfg.service_id@]),
{
    let mut r: Vec<ScInvocation> = Vec::new();
    r.push(stop_service(cfg));
    r.push(invocation("卸载", strings2(copy_str("delete"), cfg.service_id.clone())));
    r
}

/// The arguments that query the state of a service: `query <id>`.
pub fn query_params(id: &str) -> (r: Vec<String>)
    ensures
        r.deep_view() == seq!["query"@, id@],
{
    strings2(copy_str("query"), copy_str(id))
}

/// The log message for a management run titled `title`:
/// `服务<title>成功：<stdout>` when it succeeded, `服务<title>失败：<stderr>`
/// when it reported failure, `服务<title>失败：<error>` when it could not run.
pub open spec fn spec_option_message(title: Seq<char>, outcome: CommandOutcomeModel) -> Seq<char> {
    match outcome {
        CommandOutcomeModel::Finished { success, stdout, stderr } => if success {
            "服务"@ + title + "成功："@ + stdout
        } else {
            "服务"@ + title + "失败："@ + stderr
        },
        CommandOutcomeModel::Failed(e) => "服务"@ + title + "失败："@ + e,
    }
}

/// The log message that reports how a management run ended.
pub fn option_service(title: &str, outcome: &CommandOutcome) -> (r: String)
    ensures
        r@ == spec_option_message(title@, outcome@),
{
    let head: String = concat("服务", title);
    match outcome {
        CommandOutcome::Finished { success, stdout, stderr } => {
            if *success {
                concat3(head.as_str(), "成功：", stdout.as_str())
            } else {
                concat3(head.as_str(), "失败：", stderr.as_str())
            }
        },
        CommandOutcome::Failed(e) => concat3(head.as_str(), "失败：", e.as_str()),
    }
}

/// The log line for a finished command:
/// `命令：[<program>] 参数：[<params>] 状态：[<status>] 输出：[<stdout>] 错误：[<stderr>]`.
pub open spec fn spec_command_log_line(
    program: Seq<char>,
    params: Seq<Seq<char>>,
    status: Seq<char>,
    stdout: Seq<char>,
    stderr: Seq<char>,
) -> Seq<char> {
    "命令：["@ + program + "] 参数：["@ + seq_join(params, " "@) + "] 状态：["@ + status
        + "] 输出：["@ + stdout + "] 错误：["@ + stderr + "]"@
}

/// The log line for a finished command, given the text of its exit status.
pub fn command_log_line(
    program: &str,
    params: &Vec<String>,
    status: &str,
    stdout: &str,
    stderr: &str,
) -> (r: String)
    ensures
        r@ == spec_command_log_line(program@, params.deep_view(), status@, stdout@, stderr@),
{
    let p: String = join(params, " ");
    let a: String = concat3("命令：[", program, "] 参数：[");
    let b: String = concat3(a.as_str(), p.as_str(), "] 状态：[");
    let c: String = concat3(b.as_str(), status, "] 输出：[");
    let d: String = concat3(c.as_str(), stdout, "] 错误：[");
    let r: String = concat3(d.as_str(), stderr, "]");
    proof {
        let s1 = "命令：["@ + program@ + "] 参数：["@;
        let s2 = s1 + seq_join(params.deep_view(), " "@) + "] 状态：["@;
        let s3 = s2 + status@ + "] 输出：["@;
        let s4 = s3 + stdout@ + "] 错误：["@;
        assert(r@ =~= s4 + stderr@ + "]"@);
    }
    r
}

/// The state that `sc query` reports on the first line of `ls` whose text
/// starts with `STATE` after leading whitespace: what follows its first `:`,
/// trimmed.
pub open spec fn state_from_lines(ls: Seq<Seq<char>>) -> Option<Seq<char>>
    decreases ls.len(),
{
    if ls.len() == 0 {
        None
    } else if starts_with(trim_start(ls[0]), "STATE"@) {
        Some(trim(after_first(trim_start(ls[0]), ':')))
    } else {
        state_from_lines(ls.drop_first())
    }
}

/// The state of a service as `sc query` reports it: the `STATE` line's
/// value, or `未安装` (not installed) where there is no such line or the
/// query could not run.
pub open spec fn spec_query_status(outcome: CommandOutcomeModel) -> Seq<char> {
    match outcome {
        CommandOutcomeModel::Finished { stdout, .. } => match state_from_lines(lines(stdout)) {
            Some(s) => s,
            None => "未安装"@,
        },
        CommandOutcomeModel::Failed(_) => "未安装"@,
    }
}

/// The state of a service from the outcome of `sc query <id>`.
pub fn query_service_status(outcome: &CommandOutcome) -> (r: String)
    ensures
        r@ == spec_query_status(outcome@),
{
    match outcome {
        CommandOutcome::Finished { stdout, .. } => {
            let ls: Vec<String> = lines_of(stdout.as_str());
            let mut i: usize = 0;
            assert(ls.deep_view().skip(0) =~= ls.deep_view());
            while i < ls.len()
                invariant
                    i <= ls.len(),
                    ls.deep_view() == lines(stdout@),
                    spec_query_status(outcome@) == match state_from_lines(lines(stdout@)) {
                        Some(s) => s,
                        None => "未安装"@,
                    },
                    state_from_lines(ls.deep_view().skip(i as int)) == state_from_lines(
                        lines(stdout@),
                    ),
                decreases ls.len() - i,
            {
                let line: String = trim_start_str(ls[i].as_str());
                let ghost rest = ls.deep_view().skip(i as int);
                assert(rest[0] == ls@[i as int]@);
                assert(line@ == trim_start(rest[0]));
                assert(rest.drop_first() =~= ls.deep_view().skip(i + 1));
                if starts_with_str(line.as_str(), "STATE") {
                    let value: String = after_first_str(line.as_str(), ':');
                    let r: String = trim_str(value.as_str());
                    assert(state_from_lines(rest) == Some(r@));
                    return r;
                }
                i = i + 1;
            }
            copy_str("未安装")
        },
        CommandOutcome::Failed(_) => copy_str("未安装"),
    }
}

} // verus!
