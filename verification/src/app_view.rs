use vstd::prelude::*;

use crate::config_view::{
    spec_load_from_config, spec_new_view, spec_update_config, spec_update_view, ConfigAction,
    ConfigMessage, ConfigMessageModel, ConfigView, ConfigViewModel,
};
use crate::service_config::{default_model, opt_str, ServiceConfig, ServiceConfigModel};
use crate::text::{concat, copy_str};

verus! {

/// The state of the generator's main window.
pub struct AppState {
    advanced_config: ConfigView,
    is_generating: bool,
    status_message: Option<String>,
    output_dir: Option<String>,
    config: ServiceConfig,
}

/// An event of the generator's main window: a user action or the outcome
/// of an action that the window asked for.
#[derive(Debug)]
pub enum Message {
    /// An edit of the configuration form.
    AdvancedConfig(ConfigMessage),
    GenerateButtonPressed,
    ResetButtonPressed,
    SaveConfigPressed,
    LoadConfigPressed,
    SelectOutputDirPressed,
    /// The JAR package chosen in a file dialog, if any.
    JarFileSelected(Option<String>),
    /// The configuration file chosen to load, if any.
    ConfigFileSelected(Option<String>),
    /// The file chosen to save the configuration to, if any.
    ConfigSaved(Option<String>),
    /// The output directory chosen, if any.
    OutputDirSelected(Option<String>),
    /// The configuration read from the chosen file, if it could be read.
    ConfigLoaded(Option<ServiceConfig>),
    /// The path of the generated package, or the error that stopped it.
    PackageGenerated(Result<String, String>),
    /// Whether the configuration could be written, with the error if not.
    ConfigWritten(Result<(), String>),
}

/// What the window asks of its surroundings after an event.
pub enum AppAction {
    Idle,
    /// Open a file dialog to choose the JAR package.
    PickJarFile,
    /// Export the package of `config` into `output_dir`, or into the current
    /// directory where none is chosen; answer with `PackageGenerated`.
    ExportPackage { config: ServiceConfig, output_dir: Option<String> },
    /// Open a dialog to choose where to save the configuration; answer with `ConfigSaved`.
    PickSaveFile,
    /// Open a dialog to choose a configuration file; answer with `ConfigFileSelected`.
    PickConfigFile,
    /// Open a dialog to choose the output directory; answer with `OutputDirSelected`.
    PickOutputDir,
    /// Write `config` as JSON to `path`; answer with `ConfigWritten`.
    WriteConfig { path: String, config: ServiceConfig },
    /// Read a configuration from `path`; answer with `ConfigLoaded`.
    LoadConfig { path: String },
}

/// What the window shows besides the form.
pub struct AppLayout {
    /// The label of the generate button.
    pub generate_label: String,
    /// Whether the generate button reacts.
    pub generate_enabled: bool,
    /// The status line.
    pub status_text: String,
    /// What the generate button sends; nothing while it does not react.
    pub generate_message: Option<Message>,
    /// What the reset, save, load and output directory buttons send.
    pub reset_message: Message,
    pub save_message: Message,
    pub load_message: Message,
    pub output_dir_message: Message,
}

#[verifier::ext_equal]
pub struct AppStateModel {
    pub advanced_config: ConfigViewModel,
    pub is_generating: bool,
    pub status_message: Option<Seq<char>>,
    pub output_dir: Option<Seq<char>>,
    pub config: ServiceConfigModel,
}

pub enum MessageModel {
    AdvancedConfig(ConfigMessageModel),
    GenerateButtonPressed,
    ResetButtonPressed,
    SaveConfigPressed,
    LoadConfigPressed,
    SelectOutputDirPressed,
    JarFileSelected(Option<Seq<char>>),
    ConfigFileSelected(Option<Seq<char>>),
    ConfigSaved(Option<Seq<char>>),
    OutputDirSelected(Option<Seq<char>>),
    ConfigLoaded(Option<ServiceConfigModel>),
    PackageGenerated(Result<Seq<char>, Seq<char>>),
    ConfigWritten(Result<(), Seq<char>>),
}

pub enum AppActionModel {
    Idle,
    PickJarFile,
    ExportPackage { config: ServiceConfigModel, output_dir: Option<Seq<char>> },
    PickSaveFile,
    PickConfigFile,
    PickOutputDir,
    WriteConfig { path: Seq<char>, config: ServiceConfigModel },
    LoadConfig { path: Seq<char> },
}

impl View for AppState {
    type V = AppStateModel;

    closed spec fn view(&self) -> AppStateModel {
        AppStateModel {
            advanced_config: self.advanced_config@,
            is_generating: self.is_generating,
            status_message: opt_str(self.status_message),
            output_dir: opt_str(self.output_dir),
            config: self.config@,
        }
    }
}

pub open spec fn opt_config(c: Option<ServiceConfig>) -> Option<ServiceConfigModel> {
    match c {
        Some(c) => Some(c@),
        None => None,
    }
}

impl View for Message {
    type V = MessageModel;

    open spec fn view(&self) -> MessageModel {
        match self {
            Message::AdvancedConfig(m) => MessageModel::AdvancedConfig(m@),
            Message::GenerateButtonPressed => MessageModel::GenerateButtonPressed,
            Message::ResetButtonPressed => MessageModel::ResetButtonPressed,
            Message::SaveConfigPressed => MessageModel::SaveConfigPressed,
            Message::LoadConfigPressed => MessageModel::LoadConfigPressed,
            Message::SelectOutputDirPressed => MessageModel::SelectOutputDirPressed,
            Message::JarFileSelected(p) => MessageModel::JarFileSelected(opt_str(*p)),
            Message::ConfigFileSelected(p) => MessageModel::ConfigFileSelected(opt_str(*p)),
            Message::ConfigSaved(p) => MessageModel::ConfigSaved(opt_str(*p)),
            Message::OutputDirSelected(p) => MessageModel::OutputDirSelected(opt_str(*p)),
            Message::ConfigLoaded(c) => MessageModel::ConfigLoaded(opt_config(*c)),
            Message::PackageGenerated(r) => MessageModel::PackageGenerated(
                match r {
                    Ok(p) => Ok(p@),
                    Err(e) => Err(e@),
                },
            ),
            Message::ConfigWritten(r) => MessageModel::ConfigWritten(
                match r {
                    Ok(()) => Ok(()),
                    Err(e) => Err(e@),
                },
            ),
        }
    }
}

impl View for AppAction {
    type V = AppActionModel;

    open spec fn view(&self) -> AppActionModel {
        match self {
            AppAction::Idle => AppActionModel::Idle,
            AppAction::PickJarFile => AppActionModel::PickJarFile,
            AppAction::ExportPackage { config, output_dir } => AppActionModel::ExportPackage {
                config: config@,
                output_dir: opt_str(*output_dir),
            },
            AppAction::PickSaveFile => AppActionModel::PickSaveFile,
            AppAction::PickConfigFile => AppActionModel::PickConfigFile,
            AppAction::PickOutputDir => AppActionModel::PickOutputDir,
            AppAction::WriteConfig { path, config } => AppActionModel::WriteConfig {
                path: path@,
                config: config@,
            },
            AppAction::LoadConfig { path } => AppActionModel::LoadConfig { path: path@ },
        }
    }
}

/// The window title.
pub open spec fn spec_title() -> Seq<char> {
    "服务包装器生成"@
}

/// A fresh window: an empty form and the default configuration, no output
/// directory, no status, not generating.
pub open spec fn spec_new_app() -> AppStateModel {
    AppStateModel {
        advanced_config: spec_new_view(),
        is_generating: false,
        status_message: None,
        output_dir: None,
        config: default_model(),
    }
}

/// The state after an event and the action it asks for.
///
/// A form edit changes the form (and browsing asks for a JAR dialog). Generate,
/// unless a generation is running, writes the form into the configuration,
/// marks the window as generating and asks for an export of that
/// configuration. Reset empties the form and the configuration. The end of a
/// generation clears the mark and reports the path or the error. Saving
/// writes the form into the configuration and asks for a file; a chosen file
/// asks for the write, whose outcome is reported. Loading asks for a file; a
/// chosen file asks for the read; a read configuration replaces the
/// configuration and is loaded into the form. A chosen JAR or output
/// directory is taken.
pub open spec fn spec_update(s: AppStateModel, m: MessageModel) -> (AppStateModel, AppActionModel) {
    match m {
        MessageModel::AdvancedConfig(cm) => (
            AppStateModel { advanced_config: spec_update_view(s.advanced_config, cm), ..s },
            if cm is BrowseJarPressed {
                AppActionModel::PickJarFile
            } else {
                AppActionModel::Idle
            },
        ),
        MessageModel::GenerateButtonPressed => if s.is_generating {
            (s, AppActionModel::Idle)
        } else {
            let config = spec_update_config(s.advanced_config, s.config);
            (
                AppStateModel {
                    config,
                    is_generating: true,
                    status_message: Some("正在生成包装器..."@),
                    ..s
                },
                AppActionModel::ExportPackage { config, output_dir: s.output_dir },
            )
        },
        MessageModel::JarFileSelected(p) => match p {
            Some(p) => (
                AppStateModel {
                    advanced_config: ConfigViewModel { jar_path: p, ..s.advanced_config },
                    ..s
                },
                AppActionModel::Idle,
            ),
            None => (s, AppActionModel::Idle),
        },
        MessageModel::ResetButtonPressed => (
            AppStateModel {
                advanced_config: spec_new_view(),
                config: default_model(),
                status_message: Some("表单已重置"@),
                ..s
            },
            AppActionModel::Idle,
        ),
        MessageModel::PackageGenerated(r) => (
            AppStateModel {
                is_generating: false,
                status_message: Some(
                    match r {
                        Ok(path) => "包装器已生成："@ + path,
                        Err(e) => "生成失败："@ + e,
                    },
                ),
                ..s
            },
            AppActionModel::Idle,
        ),
        MessageModel::SaveConfigPressed => (
            AppStateModel { config: spec_update_config(s.advanced_config, s.config), ..s },
            AppActionModel::PickSaveFile,
        ),
        MessageModel::LoadConfigPressed => (s, AppActionModel::PickConfigFile),
        MessageModel::SelectOutputDirPressed => (s, AppActionModel::PickOutputDir),
        MessageModel::ConfigSaved(p) => match p {
            Some(p) => (s, AppActionModel::WriteConfig { path: p, config: s.config }),
            None => (s, AppActionModel::Idle),
        },
        MessageModel::ConfigWritten(r) => (
            AppStateModel {
                status_message: Some(
                    match r {
                        Ok(()) => "配置已保存"@,
                        Err(e) => "保存配置失败："@ + e,
                    },
                ),
                ..s
            },
            AppActionModel::Idle,
        ),
        MessageModel::ConfigFileSelected(p) => match p {
            Some(p) => (s, AppActionModel::LoadConfig { path: p }),
            None => (s, AppActionModel::Idle),
        },
        MessageModel::OutputDirSelected(p) => match p {
            Some(p) => (
                AppStateModel {
                    output_dir: Some(p),
                    status_message: Some("输出目录已设置为："@ + p),
                    ..s
                },
                AppActionModel::Idle,
            ),
            None => (s, AppActionModel::Idle),
        },
        MessageModel::ConfigLoaded(c) => match c {
            Some(c) => (
                AppStateModel {
                    config: c,
                    advanced_config: spec_load_from_config(s.advanced_config, c),
                    status_message: Some("配置已加载"@),
                    ..s
                },
                AppActionModel::Idle,
            ),
            None => (
                AppStateModel { status_message: Some("加载配置失败"@), ..s },
                AppActionModel::Idle,
            ),
        },
    }
}

/// What the window shows: the generate button reads `生成中...` and does not
/// react while a generation runs, else reads `生  成`; the status line
/// shows the status message, or nothing.
pub open spec fn spec_layout(s: AppStateModel) -> (Seq<char>, bool, Seq<char>) {
    (
        if s.is_generating {
            "生成中..."@
        } else {
            "生  成"@
        },
        !s.is_generating,
        match s.status_message {
            Some(m) => m,
            None => seq![],
        },
    )
}

impl AppState {
    /// A fresh window.
    pub fn new() -> (r: Self)
        ensures
            r@ == spec_new_app(),
    {
        AppState {
            advanced_config: ConfigView::new(),
            is_generating: false,
            status_message: None,
            output_dir: None,
            config: ServiceConfig::default(),
        }
    }

    /// The window title.
    pub fn title(&self) -> (r: String)
        ensures
            r@ == spec_title(),
    {
        copy_str("服务包装器生成")
    }

    /// The configuration form.
    pub fn advanced_config(&self) -> (r: &ConfigView)
        ensures
            r@ == self@.advanced_config,
    {
        &self.advanced_config
    }

    /// Whether a generation is running.
    pub fn is_generating(&self) -> (r: bool)
        ensures
            r == self@.is_generating,
    {
        self.is_generating
    }

    /// The status message.
    pub fn status_message(&self) -> (r: &Option<String>)
        ensures
            opt_str(*r) == self@.status_message,
    {
        &self.status_message
    }

    /// The chosen output directory.
    pub fn output_dir(&self) -> (r: &Option<String>)
        ensures
            opt_str(*r) == self@.output_dir,
    {
        &self.output_dir
    }

    /// The configuration.
    pub fn config(&self) -> (r: &ServiceConfig)
        ensures
            r@ == self@.config,
    {
        &self.config
    }

    /// What the window shows besides the form, and what each button sends.
    pub fn layout(&self) -> (r: AppLayout)
        ensures
            (r.generate_label@, r.generate_enabled, r.status_text@) == spec_layout(self@),
            match r.generate_message {
                Some(m) => !self@.is_generating && m@ == MessageModel::GenerateButtonPressed,
                None => self@.is_generating,
            },
            r.reset_message@ == MessageModel::ResetButtonPressed,
            r.save_message@ == MessageModel::SaveConfigPressed,
            r.load_message@ == MessageModel::LoadConfigPressed,
            r.output_dir_message@ == MessageModel::SelectOutputDirPressed,
    {
        AppLayout {
            generate_label: if self.is_generating {
                copy_str("生成中...")
            } else {
                copy_str("生  成")
            },
            generate_enabled: !self.is_generating,
            status_text: match &self.status_message {
                Some(m) => m.clone(),
                None => String::new(),
            },
            generate_message: if self.is_generating {
                None
            } else {
                Some(Message::GenerateButtonPressed)
            },
            reset_message: Message::ResetButtonPressed,
            save_message: Message::SaveConfigPressed,
            load_message: Message::LoadConfigPressed,
            output_dir_message: Message::SelectOutputDirPressed,
        }
    }

    /// Handles an event; returns what the window asks for next.
    pub fn update(&mut self, message: Message) -> (action: AppAction)
        ensures
            (final(self)@, action@) == spec_update(old(self)@, message@),
    {
        match message {
            Message::AdvancedConfig(msg) => {
                let a: ConfigAction = self.advanced_config.update(msg);
                match a {
                    ConfigAction::BrowseJar => AppAction::PickJarFile,
                    ConfigAction::Idle => AppAction::Idle,
                }
            },
            Message::GenerateButtonPressed => {
                if self.is_generating {
                    return AppAction::Idle;
                }
                self.advanced_config.update_config(&mut self.config);
                self.is_generating = true;
                self.status_message = Some(copy_str("正在生成包装器..."));
                let output_dir: Option<String> = crate::service_config::clone_opt_str(
                    &self.output_dir,
                );
                AppAction::ExportPackage { config: self.config.duplicate(), output_dir }
            },
            Message::JarFileSelected(file_path) => {
                match file_path {
                    Some(path) => {
                        self.advanced_config.jar_path = path;
                    },
                    None => {},
                }
                AppAction::Idle
            },
            Message::ResetButtonPressed => {
                self.advanced_config = ConfigView::new();
                self.config = ServiceConfig::default();
                self.status_message = Some(copy_str("表单已重置"));
                AppAction::Idle
            },
            Message::PackageGenerated(result) => {
                self.is_generating = false;
                match result {
                    Ok(path) => {
                        self.status_message = Some(concat("包装器已生成：", path.as_str()));
                    },
                    Err(e) => {
                        self.status_message = Some(concat("生成失败：", e.as_str()));
                    },
                }
                AppAction::Idle
            },
            Message::SaveConfigPressed => {
                self.advanced_config.update_config(&mut self.config);
                AppAction::PickSaveFile
            },
            Message::LoadConfigPressed => AppAction::PickConfigFile,
            Message::SelectOutputDirPressed => AppAction::PickOutputDir,
            Message::ConfigSaved(path) => match path {
                Some(p) => AppAction::WriteConfig { path: p, config: self.config.duplicate() },
                None => AppAction::Idle,
            },
            Message::ConfigWritten(result) => {
                match result {
                    Ok(()) => {
                        self.status_message = Some(copy_str("配置已保存"));
                    },
                    Err(e) => {
                        self.status_message = Some(concat("保存配置失败：", e.as_str()));
                    },
                }
                AppAction::Idle
            },
            Message::ConfigFileSelected(path) => match path {
                Some(p) => AppAction::LoadConfig { path: p },
                None => AppAction::Idle,
            },
            Message::OutputDirSelected(path) => {
                match path {
                    Some(p) => {
                        self.status_message = Some(concat("输出目录已设置为：", p.as_str()));
                        self.output_dir = Some(p);
                    },
                    None => {},
                }
                AppAction::Idle
            },
            Message::ConfigLoaded(config) => {
                match config {
                    Some(c) => {
                        self.config = c;
                        self.advanced_config.load_from_config(&self.config);
                        self.status_message = Some(copy_str("配置已加载"));
                    },
                    None => {
                        self.status_message = Some(copy_str("加载配置失败"));
                    },
                }
                AppAction::Idle
            },
        }
    }
}

impl Default for AppState {
    fn default() -> (r: Self)
        ensures
            r@ == spec_new_app(),
    {
        AppState::new()
    }
}

/// While a generation runs, pressing generate again changes nothing and
/// asks for nothing.
pub proof fn lemma_generate_ignored_while_generating(s: AppStateModel)
    requires
        s.is_generating,
    ensures
        spec_update(s, MessageModel::GenerateButtonPressed) == (s, AppActionModel::Idle),
{
}

/// A generation that starts always ends: generate asks for the export of
/// the configuration it stores, and its outcome, whatever it is, clears the
/// generating mark and becomes the status message.
pub proof fn lemma_generation_completes(s: AppStateModel, outcome: Result<Seq<char>, Seq<char>>)
    requires
        !s.is_generating,
    ensures
        ({
            let (s1, a) = spec_update(s, MessageModel::GenerateButtonPressed);
            let (s2, a2) = spec_update(s1, MessageModel::PackageGenerated(outcome));
            &&& s1.is_generating
            &&& a == AppActionModel::ExportPackage { config: s1.config, output_dir: s.output_dir }
            &&& !s2.is_generating
            &&& s2.config == s1.config
            &&& s2.status_message == Some(
                match outcome {
                    Ok(path) => "包装器已生成："@ + path,
                    Err(e) => "生成失败："@ + e,
                },
            )
            &&& a2 == AppActionModel::Idle
        }),
{
}

/// Reset empties the form and the configuration, and a generation right
/// after it exports the default configuration.
pub proof fn lemma_reset_then_generate(s: AppStateModel)
    requires
        !s.is_generating,
    ensures
        ({
            let (s1, _) = spec_update(s, MessageModel::ResetButtonPressed);
            let (_, a) = spec_update(s1, MessageModel::GenerateButtonPressed);
            &&& s1.advanced_config == spec_new_view()
            &&& s1.config == default_model()
            &&& a == AppActionModel::ExportPackage { config: default_model(), output_dir: s.output_dir }
        }),
{
    crate::config_view::lemma_new_form_is_default();
}

/// Saving after loading writes back what was loaded: a configuration that
/// the form can show, once loaded into a fresh window, is the one that a
/// save asks to write.
pub proof fn lemma_load_then_save(c: ServiceConfigModel, path: Seq<char>)
    requires
        crate::config_view::is_form_representable(c),
    ensures
        ({
            let (s1, _) = spec_update(spec_new_app(), MessageModel::ConfigLoaded(Some(c)));
            let (s2, _) = spec_update(s1, MessageModel::SaveConfigPressed);
            let (_, a) = spec_update(s2, MessageModel::ConfigSaved(Some(path)));
            a == AppActionModel::WriteConfig { path, config: c }
        }),
{
    crate::config_view::lemma_load_then_store(c);
}

} // verus!
