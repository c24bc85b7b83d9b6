use service_gen::app_view::{AppAction, AppState, Message};
use service_gen::config_view::ConfigMessage;
use service_gen::service_config::ServiceConfig;

fn status(app: &AppState) -> Option<String> {
    app.status_message().clone()
}

#[test]
fn title_of_the_window() {
    assert_eq!(AppState::new().title(), "服务包装器生成");
}

#[test]
fn generate_exports_the_form_once() {
    let mut app = AppState::new();
    app.update(Message::AdvancedConfig(ConfigMessage::ServiceIdChanged("svc".into())));
    app.update(Message::OutputDirSelected(Some("D:\\out".into())));
    assert_eq!(status(&app).as_deref(), Some("输出目录已设置为：D:\\out"));
    match app.update(Message::GenerateButtonPressed) {
        AppAction::ExportPackage { config, output_dir } => {
            assert_eq!(config.service_id, "svc");
            assert_eq!(output_dir.as_deref(), Some("D:\\out"));
        }
        _ => panic!("expected an export"),
    }
    assert!(app.is_generating());
    assert_eq!(status(&app).as_deref(), Some("正在生成包装器..."));
    let layout = app.layout();
    assert_eq!(layout.generate_label, "生成中...");
    assert!(!layout.generate_enabled);
    // a second press while generating does nothing
    assert!(matches!(app.update(Message::GenerateButtonPressed), AppAction::Idle));
    app.update(Message::PackageGenerated(Ok("D:\\out\\svc-package.zip".into())));
    assert!(!app.is_generating());
    assert_eq!(status(&app).as_deref(), Some("包装器已生成：D:\\out\\svc-package.zip"));
    assert_eq!(app.layout().generate_label, "生  成");
    app.update(Message::GenerateButtonPressed);
    app.update(Message::PackageGenerated(Err("JAR 文件不存在".into())));
    assert_eq!(status(&app).as_deref(), Some("生成失败：JAR 文件不存在"));
}

#[test]
fn reset_restores_defaults() {
    let mut app = AppState::new();
    app.update(Message::AdvancedConfig(ConfigMessage::ServiceIdChanged("x".into())));
    app.update(Message::SaveConfigPressed);
    assert_eq!(app.config().service_id, "x");
    app.update(Message::ResetButtonPressed);
    assert_eq!(app.config().service_id, "");
    assert_eq!(app.advanced_config().service_id, "");
    assert_eq!(status(&app).as_deref(), Some("表单已重置"));
    match app.update(Message::GenerateButtonPressed) {
        AppAction::ExportPackage { config, .. } => {
            assert_eq!(format!("{:?}", config), format!("{:?}", ServiceConfig::default()))
        }
        _ => panic!("expected an export"),
    }
}

#[test]
fn saving_and_loading_ask_for_files() {
    let mut app = AppState::new();
    assert!(matches!(app.update(Message::SaveConfigPressed), AppAction::PickSaveFile));
    assert!(matches!(app.update(Message::ConfigSaved(None)), AppAction::Idle));
    match app.update(Message::ConfigSaved(Some("c.json".into()))) {
        AppAction::WriteConfig { path, config } => {
            assert_eq!(path, "c.json");
            assert_eq!(config.start_mode, "Automatic");
        }
        _ => panic!("expected a write"),
    }
    app.update(Message::ConfigWritten(Ok(())));
    assert_eq!(status(&app).as_deref(), Some("配置已保存"));
    app.update(Message::ConfigWritten(Err("denied".into())));
    assert_eq!(status(&app).as_deref(), Some("保存配置失败：denied"));
    assert!(matches!(app.update(Message::LoadConfigPressed), AppAction::PickConfigFile));
    match app.update(Message::ConfigFileSelected(Some("c.json".into()))) {
        AppAction::LoadConfig { path } => assert_eq!(path, "c.json"),
        _ => panic!("expected a load"),
    }
    app.update(Message::ConfigLoaded(None));
    assert_eq!(status(&app).as_deref(), Some("加载配置失败"));
    let mut c = ServiceConfig::default();
    c.service_id = "loaded".into();
    c.on_failure_delay = 12;
    app.update(Message::ConfigLoaded(Some(c)));
    assert_eq!(status(&app).as_deref(), Some("配置已加载"));
    assert_eq!(app.config().service_id, "loaded");
    assert_eq!(app.advanced_config().failure_delay, "12");
}

#[test]
fn load_then_save_writes_the_loaded_config() {
    let mut app = AppState::new();
    let mut c = ServiceConfig::default();
    c.service_id = "svc".into();
    c.jvm_options = Some(vec!["-Xmx1g".into()]);
    c.enable_debug = true;
    c.debug_port = Some(8000);
    let expected = format!("{:?}", c);
    app.update(Message::ConfigLoaded(Some(c)));
    app.update(Message::SaveConfigPressed);
    match app.update(Message::ConfigSaved(Some("out.json".into()))) {
        AppAction::WriteConfig { config, .. } => assert_eq!(format!("{:?}", config), expected),
        _ => panic!("expected a write"),
    }
}

#[test]
fn jar_choice_and_browse() {
    let mut app = AppState::new();
    assert!(matches!(
        app.update(Message::AdvancedConfig(ConfigMessage::BrowseJarPressed)),
        AppAction::PickJarFile
    ));
    app.update(Message::JarFileSelected(Some("C:\\a.jar".into())));
    assert_eq!(app.advanced_config().jar_path, "C:\\a.jar");
    app.update(Message::JarFileSelected(None));
    assert_eq!(app.advanced_config().jar_path, "C:\\a.jar");
    assert!(matches!(app.update(Message::SelectOutputDirPressed), AppAction::PickOutputDir));
    app.update(Message::OutputDirSelected(None));
    assert!(app.output_dir().is_none());
}

#[test]
fn buttons_send_their_messages() {
    let mut app = AppState::new();
    let layout = app.layout();
    assert!(matches!(layout.generate_message, Some(Message::GenerateButtonPressed)));
    assert!(matches!(layout.reset_message, Message::ResetButtonPressed));
    assert!(matches!(layout.save_message, Message::SaveConfigPressed));
    assert!(matches!(layout.load_message, Message::LoadConfigPressed));
    assert!(matches!(layout.output_dir_message, Message::SelectOutputDirPressed));
    assert_eq!(layout.status_text, "");
    app.update(Message::AdvancedConfig(ConfigMessage::ServiceIdChanged("svc".into())));
    app.update(Message::GenerateButtonPressed);
    assert!(app.is_generating());
    let layout = app.layout();
    assert!(layout.generate_message.is_none());
    assert!(matches!(layout.reset_message, Message::ResetButtonPressed));
    assert_eq!(layout.status_text, "正在生成包装器...");
}
