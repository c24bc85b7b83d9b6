use service_gen::config_view::{ConfigAction, ConfigMessage, ConfigView, LogMode, StartMode};
use service_gen::service_config::{
    default_failure_delay, default_log_mode, default_start_mode, default_true, ServiceConfig,
};

#[test]
fn default_config_values() {
    let c = ServiceConfig::default();
    assert_eq!(c.service_id, "");
    assert_eq!(c.start_mode, "Automatic");
    assert_eq!(c.log_mode, "rotate");
    assert_eq!(c.on_failure_delay, 30);
    assert!(c.include_jar);
    assert!(!c.bundle_jre && !c.enable_debug && !c.save_to_history);
    assert!(c.description.is_none() && c.executable.is_none() && c.jvm_options.is_none());
    assert_eq!(default_start_mode(), "Automatic");
    assert_eq!(default_log_mode(), "rotate");
    assert_eq!(default_failure_delay(), 30);
    assert!(default_true());
}

#[test]
fn new_form_values() {
    let v = ConfigView::new();
    assert_eq!(v.failure_delay, "30");
    assert_eq!(v.start_mode, StartMode::Automatic);
    assert_eq!(v.log_mode, LogMode::Rotate);
    assert!(v.include_jar);
    assert!(!v.use_custom_java && !v.bundle_jre && !v.enable_debug && !v.use_work_dir);
}

#[test]
fn edits_change_only_their_field() {
    let mut v = ConfigView::new();
    assert_eq!(v.update(ConfigMessage::ServiceIdChanged("svc".into())), ConfigAction::Idle);
    assert_eq!(v.update(ConfigMessage::DebugPortChanged("8000".into())), ConfigAction::Idle);
    assert_eq!(v.service_id, "svc");
    assert_eq!(v.debug_port, "8000");
    assert_eq!(v.service_name, "");
    v.update(ConfigMessage::StartModeChanged("Manual".into()));
    assert_eq!(v.start_mode, StartMode::Manual);
    v.update(ConfigMessage::StartModeChanged("automatic".into()));
    assert_eq!(v.start_mode, StartMode::Manual);
    v.update(ConfigMessage::StartModeChanged("Automatic".into()));
    assert_eq!(v.start_mode, StartMode::Automatic);
    v.update(ConfigMessage::LogModeChanged("none".into()));
    assert_eq!(v.log_mode, LogMode::Disabled);
    v.update(ConfigMessage::LogModeChanged("reset".into()));
    assert_eq!(v.log_mode, LogMode::Reset);
    v.update(ConfigMessage::LogModeChanged("whatever".into()));
    assert_eq!(v.log_mode, LogMode::Rotate);
    assert_eq!(v.update(ConfigMessage::BrowseJarPressed), ConfigAction::BrowseJar);
    assert_eq!(v.service_id, "svc");
}

#[test]
fn form_writes_into_config() {
    let mut v = ConfigView::new();
    v.service_id = "demo".into();
    v.service_name = "Demo Service".into();
    v.jar_path = "C:\\apps\\demo.jar".into();
    v.jvm_options = "  -Xmx512m   -Xms256m ".into();
    v.enable_debug = true;
    v.debug_port = "not a port".into();
    v.failure_delay = "abc".into();
    v.use_custom_java = false;
    v.java_executable = "C:\\java\\bin\\java.exe".into();
    v.bundle_jre = true;
    v.jre_path = "".into();
    v.log_mode = LogMode::Disabled;
    v.start_mode = StartMode::Manual;
    let mut c = ServiceConfig::default();
    c.description = Some("kept".into());
    c.jre_path = Some("old-jre".into());
    c.debug_port = Some(1234);
    v.update_config(&mut c);
    assert_eq!(c.service_id, "demo");
    assert_eq!(c.service_name, "Demo Service");
    assert_eq!(c.description.as_deref(), Some("kept"));
    assert_eq!(c.java_executable, None);
    assert!(c.bundle_jre);
    assert_eq!(c.jre_path.as_deref(), Some("old-jre"));
    assert_eq!(c.jvm_options, Some(vec!["-Xmx512m".to_string(), "-Xms256m".to_string()]));
    assert!(c.enable_debug);
    assert_eq!(c.debug_port, None);
    assert_eq!(c.on_failure_delay, 30);
    assert_eq!(c.start_mode, "Manual");
    assert_eq!(c.log_mode, "none");
}

#[test]
fn config_loads_into_form() {
    let mut c = ServiceConfig::default();
    c.service_id = "svc".into();
    c.description = None;
    c.java_executable = Some("jdk/bin/java".into());
    c.jvm_options = Some(vec!["-Xmx1g".into(), "-ea".into()]);
    c.debug_port = Some(5005);
    c.start_mode = "manual".into();
    c.log_mode = "reset".into();
    c.on_failure_delay = 45;
    c.working_directory = Some("D:\\work".into());
    c.include_jar = false;
    let mut v = ConfigView::new();
    v.description = "stale".into();
    v.app_args = "--kept".into();
    v.load_from_config(&c);
    assert_eq!(v.service_id, "svc");
    assert_eq!(v.description, "");
    assert!(v.use_custom_java);
    assert_eq!(v.java_executable, "jdk/bin/java");
    assert_eq!(v.jvm_options, "-Xmx1g -ea");
    assert_eq!(v.debug_port, "5005");
    assert_eq!(v.start_mode, StartMode::Manual);
    assert_eq!(v.log_mode, LogMode::Reset);
    assert_eq!(v.failure_delay, "45");
    assert!(v.use_work_dir);
    assert_eq!(v.working_directory, "D:\\work");
    assert!(!v.include_jar);
    assert_eq!(v.app_args, "--kept");
}

#[test]
fn load_then_store_gives_back_the_config() {
    let mut c = ServiceConfig::default();
    c.service_id = "svc".into();
    c.service_name = "Svc".into();
    c.jar_path = "a.jar".into();
    c.description = Some("d".into());
    c.java_executable = Some("java11".into());
    c.bundle_jre = true;
    c.jre_path = Some("jre11".into());
    c.jvm_options = Some(vec!["-Xmx1g".into(), "-ea".into()]);
    c.enable_debug = true;
    c.debug_port = Some(9000);
    c.start_mode = "Manual".into();
    c.log_mode = "none".into();
    c.on_failure_delay = 7;
    c.working_directory = Some("w".into());
    c.include_jar = false;
    let mut v = ConfigView::new();
    v.load_from_config(&c);
    let mut back = c.duplicate();
    v.update_config(&mut back);
    assert_eq!(format!("{:?}", back), format!("{:?}", c));
}

#[test]
fn new_form_describes_default_config() {
    let mut c = ServiceConfig::default();
    ConfigView::new().update_config(&mut c);
    assert_eq!(format!("{:?}", c), format!("{:?}", ServiceConfig::default()));
}

#[test]
fn layout_follows_switches() {
    let mut v = ConfigView::new();
    let l = v.layout();
    assert!(!l.show_java_executable && !l.show_jre_path && !l.show_debug_port);
    assert!(!l.show_working_directory);
    assert!(l.automatic_checked && !l.manual_checked);
    assert!(l.rotate_checked && !l.reset_checked && !l.none_checked);
    v.enable_debug = true;
    v.use_work_dir = true;
    v.log_mode = LogMode::Disabled;
    let l = v.layout();
    assert!(l.show_debug_port && l.show_working_directory && l.none_checked && !l.rotate_checked);
}

#[test]
fn form_writes_app_args_into_config() {
    let mut v = ConfigView::new();
    v.app_args = "--server.port=8080 --x".into();
    let mut c = ServiceConfig::default();
    v.update_config(&mut c);
    assert_eq!(c.app_args, Some(vec!["--server.port=8080".to_string(), "--x".to_string()]));
    // an empty input keeps what the configuration had
    let mut c2 = ServiceConfig::default();
    c2.app_args = Some(vec!["--kept".into()]);
    ConfigView::new().update_config(&mut c2);
    assert_eq!(c2.app_args, Some(vec!["--kept".to_string()]));
}

#[test]
fn config_app_args_load_into_form() {
    let mut c = ServiceConfig::default();
    c.app_args = Some(vec!["--server.port=8080".into(), "--x".into()]);
    let mut v = ConfigView::new();
    v.load_from_config(&c);
    assert_eq!(v.app_args, "--server.port=8080 --x");
    let mut back = c.duplicate();
    v.update_config(&mut back);
    assert_eq!(back.app_args, c.app_args);
}

#[test]
fn mode_choices_send_their_modes() {
    let l = ConfigView::new().layout();
    let text = |m: &ConfigMessage| format!("{:?}", m);
    assert_eq!(text(&l.automatic_message), text(&ConfigMessage::StartModeChanged("Automatic".into())));
    assert_eq!(text(&l.manual_message), text(&ConfigMessage::StartModeChanged("Manual".into())));
    assert_eq!(text(&l.rotate_message), text(&ConfigMessage::LogModeChanged("rotate".into())));
    assert_eq!(text(&l.reset_message), text(&ConfigMessage::LogModeChanged("reset".into())));
    assert_eq!(text(&l.none_message), text(&ConfigMessage::LogModeChanged("none".into())));
    assert!(matches!(l.browse_message, ConfigMessage::BrowseJarPressed));
    let mut v = ConfigView::new();
    v.update(l.manual_message.clone());
    v.update(l.reset_message.clone());
    assert_eq!(v.start_mode, StartMode::Manual);
    assert_eq!(v.log_mode, LogMode::Reset);
}
