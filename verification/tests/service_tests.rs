use service_gen::exec_config_utils::{config_payload, config_trailer, has_config_trailer};
use service_gen::gui::{
    button_states, command_for_id, service_label, status_text, ServiceCommand, ID_INSTALL,
    ID_START, ID_STATUS, ID_STOP, ID_UNINSTALL,
};
use service_gen::gui_utils::to_wstring;
use service_gen::log_utils::{
    exec_log_file_name, exec_log_overwrites, wrapper_log_file_name, write_exec_log, write_wrapper_log,
    LogTask,
};
use service_gen::package_export::{jar_file_name, ExportStep, PackageExportService};
use service_gen::sc_utils::{
    command_log_line, install_service, option_service, query_params, query_service_status,
    start_service, stop_service, uninstall_service, CommandOutcome,
};
use service_gen::service::{
    after_run, command_from_words, exe_location, launch_error_message, parse_command_line,
    prepare_launch,
    stderr_exec_line, stderr_wrapper_line, stdout_log_lines, supervise, ChildState, ExeLocation,
    LaunchError, ServiceLoopStep, SupervisorStep,
};
use service_gen::service_config::ServiceConfig;
use service_gen::service_utils::{self, StartType};

fn cfg(id: &str) -> ServiceConfig {
    let mut c = ServiceConfig::default();
    c.service_id = id.into();
    c.service_name = format!("{} name", id);
    c
}

#[test]
fn trailer_round_trip() {
    let json = r#"{"service_id":"svc","service_name":"服务"}"#;
    let mut exe = vec![0x4d, 0x5a, 1, 2, 3];
    let trailer = config_trailer(json);
    assert_eq!(trailer.len(), json.len() + 2);
    assert_eq!(trailer[json.len()], (json.len() % 256) as u8);
    assert_eq!(trailer[json.len() + 1], (json.len() / 256) as u8);
    exe.extend_from_slice(&trailer);
    assert!(has_config_trailer(&exe));
    assert_eq!(config_payload(&exe), json.as_bytes().to_vec());
}

#[test]
fn trailer_rejects_short_or_inconsistent_images() {
    assert!(!has_config_trailer(&[]));
    assert!(!has_config_trailer(&[5]));
    assert!(!has_config_trailer(&[1, 2, 10, 0]));
    assert!(has_config_trailer(&[7, 7, 2, 0]));
    assert_eq!(config_payload(&[7, 8, 2, 0]), vec![7, 8]);
    assert!(has_config_trailer(&[0, 0]));
    assert!(config_payload(&[0, 0]).is_empty());
}

#[test]
fn trailer_length_wraps_like_u16_cast() {
    let long = "x".repeat(70000);
    let t = config_trailer(&long);
    let n = (70000usize as u16).to_le_bytes();
    assert_eq!(&t[70000..], &n[..]);
}

#[test]
fn sc_invocations() {
    let mut c = cfg("svc");
    c.start_mode = "AUTOMATIC".into();
    c.description = Some("desc".into());
    let runs = install_service(&c, "C:\\x\\svc-control.exe");
    assert_eq!(runs.len(), 2);
    assert_eq!(runs[0].title, "安装");
    assert_eq!(runs[0].program, "sc");
    assert_eq!(
        runs[0].params,
        vec![
            "create", "svc", "binPath=", "C:\\x\\svc-control.exe -service", "start=", "auto",
            "DisplayName=", "svc name"
        ]
    );
    assert_eq!(runs[1].title, "设置描述");
    assert_eq!(runs[1].params, vec!["description", "svc", "desc"]);
    c.start_mode = "Manual".into();
    c.description = None;
    let runs = install_service(&c, "e.exe");
    assert_eq!(runs[0].params[5], "demand");
    assert_eq!(runs[1].params[2], "");
    let s = start_service(&c);
    assert_eq!((s.title.as_str(), s.params.clone()), ("启动", vec!["start".to_string(), "svc".into()]));
    let s = stop_service(&c);
    assert_eq!((s.title.as_str(), s.params.clone()), ("停止", vec!["stop".to_string(), "svc".into()]));
    let u = uninstall_service(&c);
    assert_eq!(u[0].params, vec!["stop", "svc"]);
    assert_eq!(u[1].title, "卸载");
    assert_eq!(u[1].params, vec!["delete", "svc"]);
    assert_eq!(query_params("svc"), vec!["query", "svc"]);
}

#[test]
fn option_messages() {
    let ok = CommandOutcome::Finished { success: true, stdout: "done".into(), stderr: "".into() };
    let bad = CommandOutcome::Finished { success: false, stdout: "".into(), stderr: "1060".into() };
    let gone = CommandOutcome::Failed("not found".into());
    assert_eq!(option_service("启动", &ok), "服务启动成功：done");
    assert_eq!(option_service("启动", &bad), "服务启动失败：1060");
    assert_eq!(option_service("启动", &gone), "服务启动失败：not found");
    let params = vec!["query".to_string(), "svc".to_string()];
    assert_eq!(
        command_log_line("sc", &params, "exit code: 0", "o", "e"),
        "命令：[sc] 参数：[query svc] 状态：[exit code: 0] 输出：[o] 错误：[e]"
    );
}

#[test]
fn sc_query_state_line() {
    let out = "\r\nSERVICE_NAME: svc\r\n        TYPE               : 10  WIN32_OWN_PROCESS\r\n        STATE              : 4  RUNNING\r\n                                (STOPPABLE)\r\n";
    let o = CommandOutcome::Finished { success: true, stdout: out.into(), stderr: "".into() };
    assert_eq!(query_service_status(&o), "4  RUNNING");
    let o = CommandOutcome::Finished { success: false, stdout: "FAILED 1060".into(), stderr: "".into() };
    assert_eq!(query_service_status(&o), "未安装");
    assert_eq!(query_service_status(&CommandOutcome::Failed("x".into())), "未安装");
    let o = CommandOutcome::Finished { success: true, stdout: "STATE".into(), stderr: "".into() };
    assert_eq!(query_service_status(&o), "");
}

#[test]
fn service_manager_states() {
    let labels = ["已停止", "启动中", "停止中", "运行中", "恢复中", "暂停中", "已暂停"];
    for (i, l) in labels.iter().enumerate() {
        assert_eq!(service_utils::query_service_status(Some(i as u32 + 1)), *l);
    }
    assert_eq!(service_utils::query_service_status(Some(0)), "未知");
    assert_eq!(service_utils::query_service_status(Some(8)), "未知");
    assert_eq!(service_utils::query_service_status(None), "未安装");
    let mut c = cfg("svc");
    assert_eq!(service_utils::start_type(&c), StartType::AutoStart);
    c.start_mode = "Manual".into();
    c.description = Some("d".into());
    let plan = service_utils::install_service(&c, "C:\\svc.exe");
    assert_eq!(plan.start_type, StartType::DemandStart);
    assert_eq!(plan.bin_path, "C:\\svc.exe -service");
    assert_eq!(plan.display_name, "svc name");
    assert_eq!(plan.description.as_deref(), Some("d"));
    assert_eq!(service_utils::to_pcwstr("ab"), vec![0x61, 0x62, 0]);
    assert_eq!(to_wstring("服"), vec![0x670d, 0]);
}

#[test]
fn control_window_decisions() {
    assert_eq!(command_for_id(ID_INSTALL), Some(ServiceCommand::Install));
    assert_eq!(command_for_id(ID_UNINSTALL), Some(ServiceCommand::Uninstall));
    assert_eq!(command_for_id(ID_START), Some(ServiceCommand::Start));
    assert_eq!(command_for_id(ID_STOP), Some(ServiceCommand::Stop));
    assert_eq!(command_for_id(ID_STATUS), None);
    assert_eq!(command_for_id(999), None);
    let b = button_states("未安装", "未安装");
    assert!(b.install && !b.uninstall && !b.start && !b.stop);
    let b = button_states("运行中", "运行中");
    assert!(!b.install && b.uninstall && !b.start && b.stop);
    let b = button_states("已停止", "已停止");
    assert!(!b.install && b.uninstall && b.start && !b.stop);
    assert_eq!(status_text("运行中"), "状态: 运行中");
    assert_eq!(service_label(&cfg("svc")), "服务: svc");
}

#[test]
fn logging_decisions() {
    match write_wrapper_log("2024-01-02 03:04:05", "hello") {
        LogTask::Wrapper(l) => assert_eq!(l, "[2024-01-02 03:04:05] WRAPPER | hello"),
        _ => panic!(),
    }
    assert!(write_exec_log("none", "x").is_none());
    assert!(write_exec_log("NoNe", "x").is_none());
    match write_exec_log("rotate", "line") {
        Some(LogTask::Exec(m, mode)) => assert_eq!((m.as_str(), mode.as_str()), ("line", "rotate")),
        _ => panic!(),
    }
    assert_eq!(exec_log_file_name("rotate", "2024-01-02"), "exec_2024-01-02.log");
    assert_eq!(exec_log_file_name("reset", "2024-01-02"), "exec.log");
    assert_eq!(exec_log_file_name("Rotate", "2024-01-02"), "exec.log");
    assert_eq!(wrapper_log_file_name(), "wrapper.log");
}

#[test]
fn command_line_parsing() {
    assert_eq!(
        parse_command_line("java -jar 'my app.jar' \"--name=a b\""),
        Ok(("java".to_string(), vec!["-jar".to_string(), "my app.jar".into(), "--name=a b".into()]))
    );
    assert_eq!(
        parse_command_line("java 'unclosed"),
        Err(LaunchError::ParseFailed("missing closing quote".into()))
    );
    assert_eq!(parse_command_line("   "), Err(LaunchError::EmptyCommand));
    assert_eq!(command_from_words(vec![]), Err(LaunchError::EmptyCommand));
    assert_eq!(
        command_from_words(vec!["a".into(), "b".into()]),
        Ok(("a".to_string(), vec!["b".to_string()]))
    );
}

#[test]
fn launch_preparation() {
    let mut c = cfg("svc");
    assert_eq!(prepare_launch(&c, Ok("D:\\svc".into())).err(), Some(LaunchError::NoExecutable));
    c.executable = Some("jre/bin/java -Xmx1g -jar app.jar".into());
    let p = prepare_launch(&c, Ok("D:\\svc".into())).unwrap();
    assert_eq!(p.program, "jre/bin/java");
    assert_eq!(p.args, vec!["-Xmx1g", "-jar", "app.jar"]);
    assert_eq!(p.work_dir, "D:\\svc");
    assert_eq!(
        prepare_launch(&c, Err("获取目录失败".into())).err(),
        Some(LaunchError::NoWorkDir("获取目录失败".into()))
    );
    c.working_directory = Some("E:\\w".into());
    assert_eq!(prepare_launch(&c, Err("no exe".into())).unwrap().work_dir, "E:\\w");
    c.executable = Some("\"unclosed".into());
    assert_eq!(
        prepare_launch(&c, Err("no exe".into())).err(),
        Some(LaunchError::ParseFailed("missing closing quote".into()))
    );
    assert_eq!(exe_location("java", false), ExeLocation::SystemPath);
    assert_eq!(exe_location("jre/bin/java", false), ExeLocation::RelativeToWorkDir);
    assert_eq!(exe_location("run.bat", false), ExeLocation::RelativeToWorkDir);
    assert_eq!(exe_location("C:\\java\\bin\\java.exe", true), ExeLocation::Absolute);
}

#[test]
fn supervision_and_restart() {
    assert_eq!(supervise(true, ChildState::Running), SupervisorStep::Kill);
    assert_eq!(supervise(true, ChildState::Exited), SupervisorStep::Kill);
    assert_eq!(supervise(false, ChildState::Exited), SupervisorStep::Finish);
    assert_eq!(supervise(false, ChildState::Running), SupervisorStep::Poll);
    assert_eq!(supervise(false, ChildState::Unknown), SupervisorStep::Abandon);
    let c = cfg("svc");
    assert_eq!(after_run(&c, true), ServiceLoopStep::Stop);
    assert_eq!(after_run(&c, false), ServiceLoopStep::RestartAfter(30));
    assert_eq!(stdout_log_lines("a\r\nb"), vec!["a", "b"]);
    assert_eq!(stderr_exec_line("boom"), "ERROR: boom");
    assert_eq!(stderr_wrapper_line("boom"), "子进程错误：boom");
}

#[test]
fn executable_command_line() {
    let svc = PackageExportService::new();
    let mut c = cfg("demo");
    c.jar_path = "C:\\apps\\demo.jar".into();
    c.jvm_options = Some(vec!["-Xmx512m".into(), "-Xms256m".into()]);
    c.enable_debug = true;
    c.app_args = Some(vec!["--server.port=8080".into()]);
    svc.create_executable(&mut c);
    assert_eq!(
        c.executable.as_deref(),
        Some("java -Xmx512m -Xms256m -agentlib:jdwp=transport=dt_socket,server=y,suspend=n,address=localhost:5005 -jar demo.jar --server.port=8080")
    );
    let mut c = cfg("demo");
    c.jar_path = "C:\\apps\\demo.jar".into();
    c.include_jar = false;
    c.bundle_jre = true;
    c.enable_debug = true;
    c.debug_host = Some("0.0.0.0".into());
    c.debug_port = Some(8000);
    svc.create_executable(&mut c);
    assert_eq!(
        c.executable.as_deref(),
        Some("jre/bin/java -agentlib:jdwp=transport=dt_socket,server=y,suspend=n,address=0.0.0.0:8000 -jar C:\\apps\\demo.jar")
    );
    let mut c = cfg("demo");
    c.java_executable = Some("D:\\jdk\\bin\\java.exe".into());
    c.bundle_jre = true;
    c.jar_path = "".into();
    svc.create_executable(&mut c);
    assert_eq!(c.executable.as_deref(), Some("D:\\jdk\\bin\\java.exe -jar app.jar"));
    assert_eq!(jar_file_name("x/y/z.jar"), "z.jar");
    assert_eq!(jar_file_name("x/.."), "app.jar");
}

#[test]
fn export_plan_and_names() {
    let svc = PackageExportService::new();
    let mut c = cfg("demo");
    assert_eq!(svc.package_dir_name(&c), "demo-package");
    assert_eq!(svc.zip_file_name(&c), "demo-package.zip");
    assert_eq!(svc.controller_file_name(&c), "demo-control.exe");
    assert_eq!(svc.zip_entry_name("jre\\bin\\java.exe"), "jre/bin/java.exe");
    let steps = svc.export_steps(&c);
    assert!(matches!(
        steps.as_slice(),
        [ExportStep::CopyJar, ExportStep::CreateExecutable, ExportStep::WriteController, ExportStep::CreateZip]
    ));
    c.include_jar = false;
    c.bundle_jre = true;
    assert_eq!(svc.export_steps(&c).len(), 3);
    c.jre_path = Some("C:\\jre".into());
    match &svc.export_steps(&c)[0] {
        ExportStep::CopyJre(p) => assert_eq!(p, "C:\\jre"),
        _ => panic!(),
    }
}

#[test]
fn buttons_follow_service_manager_state() {
    let absent = service_utils::query_service_status(None);
    let b = button_states(&absent, &absent);
    assert!(b.install && !b.uninstall && !b.start && !b.stop);
    let running = service_utils::query_service_status(Some(4));
    let b = button_states(&running, &running);
    assert!(!b.install && b.uninstall && !b.start && b.stop);
    for code in [0u32, 1, 2, 3, 5, 6, 7, 9] {
        let s = service_utils::query_service_status(Some(code));
        let b = button_states(&s, &s);
        assert!(!b.install && b.uninstall && b.start && !b.stop, "code {}", code);
    }
}

#[test]
fn launch_error_messages() {
    assert_eq!(launch_error_message(&LaunchError::NoExecutable), "未配置 executable");
    assert_eq!(
        launch_error_message(&LaunchError::ParseFailed("missing closing quote".into())),
        "命令解析失败: missing closing quote"
    );
    assert_eq!(launch_error_message(&LaunchError::EmptyCommand), "命令为空");
    assert_eq!(launch_error_message(&LaunchError::NoWorkDir("获取目录失败".into())), "获取目录失败");
    // the message of a line with an unclosed quote, end to end
    let e = parse_command_line("java \"-jar app.jar").unwrap_err();
    assert_eq!(launch_error_message(&e), "命令解析失败: missing closing quote");
}

#[test]
fn reset_mode_overwrites_the_old_log_once_per_run() {
    assert!(exec_log_overwrites("reset", true));
    assert!(!exec_log_overwrites("reset", false));
    assert!(!exec_log_overwrites("rotate", true));
    assert!(!exec_log_overwrites("none", true));
    assert!(!exec_log_overwrites("Reset", true));
}
