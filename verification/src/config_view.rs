use vstd::prelude::*;

use crate::service_config::{opt_str, ServiceConfig, ServiceConfigModel};
use crate::text::{
    digit_char, is_word, lemma_parse_decimal, lemma_words_of_join, copy_str, decimal, join, parse_u16, parse_u32, parse_unsigned, seq_join, split_whitespace,
    str_eq, u16_to_decimal, u32_to_decimal, words,
};

verus! {

/// An edit of the configuration form.
#[derive(Debug, Clone)]
pub enum ConfigMessage {
    DescriptionChanged(String),
    UseCustomJavaToggled(bool),
    JavaExecutableChanged(String),
    BundleJreToggled(bool),
    JrePathChanged(String),
    JvmOptionsChanged(String),
    AppArgsChanged(String),
    EnableDebugToggled(bool),
    DebugPortChanged(String),
    StartModeChanged(String),
    LogModeChanged(String),
    FailureDelayChanged(String),
    UseWorkDirToggled(bool),
    WorkingDirectoryChanged(String),
    IncludeJarToggled(bool),
    ServiceIdChanged(String),
    ServiceNameChanged(String),
    JarPathChanged(String),
    BrowseJarPressed,
}

/// Start mode of the service.
#[derive(Debug, Clone, Copy, PartialEq, Eq, Structural)]
pub enum StartMode {
    Automatic,
    Manual,
}

/// Log mode of the wrapped process.
#[derive(Debug, Clone, Copy, PartialEq, Eq, Structural)]
pub enum LogMode {
    Rotate,
    Reset,
    Disabled,
}

/// What the form asks of its surroundings after an edit.
#[derive(Debug, Clone, Copy, PartialEq, Eq, Structural)]
pub enum ConfigAction {
    /// Nothing.
    Idle,
    /// Open a file dialog to choose the JAR package.
    BrowseJar,
}

/// The configuration form.
pub struct ConfigView {
    pub service_id: String,
    pub service_name: String,
    pub jar_path: String,
    pub description: String,
    pub use_custom_java: bool,
    pub java_executable: String,
    pub bundle_jre: bool,
    pub jre_path: String,
    pub jvm_options: String,
    pub app_args: String,
    pub enable_debug: bool,
    pub debug_port: String,
    pub start_mode: StartMode,
    pub log_mode: LogMode,
    pub failure_delay: String,
    pub use_work_dir: bool,
    pub working_directory: String,
    pub include_jar: bool,
}

/// The value of a `ConfigView` with every string taken as its characters.
#[verifier::ext_equal]
pub struct ConfigViewModel {
    pub service_id: Seq<char>,
    pub service_name: Seq<char>,
    pub jar_path: Seq<char>,
    pub description: Seq<char>,
    pub use_custom_java: bool,
    pub java_executable: Seq<char>,
    pub bundle_jre: bool,
    pub jre_path: Seq<char>,
    pub jvm_options: Seq<char>,
    pub app_args: Seq<char>,
    pub enable_debug: bool,
    pub debug_port: Seq<char>,
    pub start_mode: StartMode,
    pub log_mode: LogMode,
    pub failure_delay: Seq<char>,
    pub use_work_dir: bool,
    pub working_directory: Seq<char>,
    pub include_jar: bool,
}

impl View for ConfigView {
    type V = ConfigViewModel;

    open spec fn view(&self) -> ConfigViewModel {
        ConfigViewModel {
            service_id: self.service_id@,
            service_name: self.service_name@,
            jar_path: self.jar_path@,
            description: self.description@,
            use_custom_java: self.use_custom_java,
            java_executable: self.java_executable@,
            bundle_jre: self.bundle_jre,
            jre_path: self.jre_path@,
            jvm_options: self.jvm_options@,
            app_args: self.app_args@,
            enable_debug: self.enable_debug,
            debug_port: self.debug_port@,
            start_mode: self.start_mode,
            log_mode: self.log_mode,
            failure_delay: self.failure_delay@,
            use_work_dir: self.use_work_dir,
            working_directory: self.working_directory@,
            include_jar: self.include_jar,
        }
    }
}

/// The value of a `ConfigMessage`.
pub enum ConfigMessageModel {
    DescriptionChanged(Seq<char>),
    UseCustomJavaToggled(bool),
    JavaExecutableChanged(Seq<char>),
    BundleJreToggled(bool),
    JrePathChanged(Seq<char>),
    JvmOptionsChanged(Seq<char>),
    AppArgsChanged(Seq<char>),
    EnableDebugToggled(bool),
    DebugPortChanged(Seq<char>),
    StartModeChanged(Seq<char>),
    LogModeChanged(Seq<char>),
    FailureDelayChanged(Seq<char>),
    UseWorkDirToggled(bool),
    WorkingDirectoryChanged(Seq<char>),
    IncludeJarToggled(bool),
    ServiceIdChanged(Seq<char>),
    ServiceNameChanged(Seq<char>),
    JarPathChanged(Seq<char>),
    BrowseJarPressed,
}

impl View for ConfigMessage {
    type V = ConfigMessageModel;

    open spec fn view(&self) -> ConfigMessageModel {
        match self {
            ConfigMessage::DescriptionChanged(v) => ConfigMessageModel::DescriptionChanged(v@),
            ConfigMessage::UseCustomJavaToggled(b) => ConfigMessageModel::UseCustomJavaToggled(*b),
            ConfigMessage::JavaExecutableChanged(v) => ConfigMessageModel::JavaExecutableChanged(
                v@,
            ),
            ConfigMessage::BundleJreToggled(b) => ConfigMessageModel::BundleJreToggled(*b),
            ConfigMessage::JrePathChanged(v) => ConfigMessageModel::JrePathChanged(v@),
            ConfigMessage::JvmOptionsChanged(v) => ConfigMessageModel::JvmOptionsChanged(v@),
            ConfigMessage::AppArgsChanged(v) => ConfigMessageModel::AppArgsChanged(v@),
            ConfigMessage::EnableDebugToggled(b) => ConfigMessageModel::EnableDebugToggled(*b),
            ConfigMessage::DebugPortChanged(v) => ConfigMessageModel::DebugPortChanged(v@),
            ConfigMessage::StartModeChanged(v) => ConfigMessageModel::StartModeChanged(v@),
            ConfigMessage::LogModeChanged(v) => ConfigMessageModel::LogModeChanged(v@),
            ConfigMessage::FailureDelayChanged(v) => ConfigMessageModel::FailureDelayChanged(v@),
            ConfigMessage::UseWorkDirToggled(b) => ConfigMessageModel::UseWorkDirToggled(*b),
            ConfigMessage::WorkingDirectoryChanged(v) =>
                ConfigMessageModel::WorkingDirectoryChanged(v@),
            ConfigMessage::IncludeJarToggled(b) => ConfigMessageModel::IncludeJarToggled(*b),
            ConfigMessage::ServiceIdChanged(v) => ConfigMessageModel::ServiceIdChanged(v@),
            ConfigMessage::ServiceNameChanged(v) => ConfigMessageModel::ServiceNameChanged(v@),
            ConfigMessage::JarPathChanged(v) => ConfigMessageModel::JarPathChanged(v@),
            ConfigMessage::BrowseJarPressed => ConfigMessageModel::BrowseJarPressed,
        }
    }
}

/// The start mode that a chosen value selects: `Automatic` for exactly
/// that text, `Manual` for anything else.
pub open spec fn spec_start_mode_of(value: Seq<char>) -> StartMode {
    if value == "Automatic"@ {
        StartMode::Automatic
    } else {
        StartMode::Manual
    }
}

/// The log mode that a chosen value selects: `reset` and `none` select
/// theirs, anything else selects `rotate`.
pub open spec fn spec_log_mode_of(value: Seq<char>) -> LogMode {
    if value == "reset"@ {
        LogMode::Reset
    } else if value == "none"@ {
        LogMode::Disabled
    } else {
        LogMode::Rotate
    }
}

/// The text that a start mode is stored as.
pub open spec fn spec_start_mode_text(m: StartMode) -> Seq<char> {
    match m {
        StartMode::Automatic => "Automatic"@,
        StartMode::Manual => "Manual"@,
    }
}

/// The text that a log mode is stored as.
pub open spec fn spec_log_mode_text(m: LogMode) -> Seq<char> {
    match m {
        LogMode::Rotate => "rotate"@,
        LogMode::Reset => "reset"@,
        LogMode::Disabled => "none"@,
    }
}

/// The empty form: nothing filled in, start mode `Automatic`, log mode
/// `rotate`, a restart delay of `30`, and the JAR package included.
pub open spec fn spec_new_view() -> ConfigViewModel {
    ConfigViewModel {
        service_id: seq![],
        service_name: seq![],
        jar_path: seq![],
        description: seq![],
        use_custom_java: false,
        java_executable: seq![],
        bundle_jre: false,
        jre_path: seq![],
        jvm_options: seq![],
        app_args: seq![],
        enable_debug: false,
        debug_port: seq![],
        start_mode: StartMode::Automatic,
        log_mode: LogMode::Rotate,
        failure_delay: "30"@,
        use_work_dir: false,
        working_directory: seq![],
        include_jar: true,
    }
}

/// The form after an edit: the edited field takes the new value, the start
/// and log modes are chosen from their text; browsing changes nothing.
pub open spec fn spec_update_view(v: ConfigViewModel, m: ConfigMessageModel) -> ConfigViewModel {
    match m {
        ConfigMessageModel::DescriptionChanged(x) => ConfigViewModel { description: x, ..v },
        ConfigMessageModel::UseCustomJavaToggled(b) => ConfigViewModel { use_custom_java: b, ..v },
        ConfigMessageModel::JavaExecutableChanged(x) => ConfigViewModel {
            java_executable: x,
            ..v
        },
        ConfigMessageModel::BundleJreToggled(b) => ConfigViewModel { bundle_jre: b, ..v },
        ConfigMessageModel::JrePathChanged(x) => ConfigViewModel { jre_path: x, ..v },
        ConfigMessageModel::JvmOptionsChanged(x) => ConfigViewModel { jvm_options: x, ..v },
        ConfigMessageModel::AppArgsChanged(x) => ConfigViewModel { app_args: x, ..v },
        ConfigMessageModel::EnableDebugToggled(b) => ConfigViewModel { enable_debug: b, ..v },
        ConfigMessageModel::DebugPortChanged(x) => ConfigViewModel { debug_port: x, ..v },
        ConfigMessageModel::StartModeChanged(x) => ConfigViewModel {
            start_mode: spec_start_mode_of(x),
            ..v
        },
        ConfigMessageModel::LogModeChanged(x) => ConfigViewModel {
            log_mode: spec_log_mode_of(x),
            ..v
        },
        ConfigMessageModel::FailureDelayChanged(x) => ConfigViewModel { failure_delay: x, ..v },
        ConfigMessageModel::UseWorkDirToggled(b) => ConfigViewModel { use_work_dir: b, ..v },
        ConfigMessageModel::WorkingDirectoryChanged(x) => ConfigViewModel {
            working_directory: x,
            ..v
        },
        ConfigMessageModel::IncludeJarToggled(b) => ConfigViewModel { include_jar: b, ..v },
        ConfigMessageModel::ServiceIdChanged(x) => ConfigViewModel { service_id: x, ..v },
        ConfigMessageModel::ServiceNameChanged(x) => ConfigViewModel { service_name: x, ..v },
        ConfigMessageModel::JarPathChanged(x) => ConfigViewModel { jar_path: x, ..v },
        ConfigMessageModel::BrowseJarPressed => v,
    }
}

/// `Some(text)` where the text is not empty, else the old value.
pub open spec fn set_if_filled(text: Seq<char>, old: Option<Seq<char>>) -> Option<Seq<char>> {
    if text.len() > 0 {
        Some(text)
    } else {
        old
    }
}

/// The configuration `c` after the form `v` is written into it: identity
/// and flags are copied; a description, Java executable (when a custom one
/// is used), JRE path (when a JRE is bundled), JVM options and application
/// arguments (each split at whitespace) and working directory (when a custom
/// one is used) are set only where their field is filled in, else kept; the
/// debug port is parsed when debugging is enabled, else kept; the restart
/// delay is parsed, 30 where it does not parse; command line, debug host and
/// history flag are kept.
pub open spec fn spec_update_config(v: ConfigViewModel, c: ServiceConfigModel) -> ServiceConfigModel {
    ServiceConfigModel {
        service_id: v.service_id,
        service_name: v.service_name,
        jar_path: v.jar_path,
        description: set_if_filled(v.description, c.description),
        java_executable: if v.use_custom_java {
            set_if_filled(v.java_executable, c.java_executable)
        } else {
            c.java_executable
        },
        bundle_jre: v.bundle_jre,
        jre_path: if v.bundle_jre {
            set_if_filled(v.jre_path, c.jre_path)
        } else {
            c.jre_path
        },
        jvm_options: if v.jvm_options.len() > 0 {
            Some(words(v.jvm_options))
        } else {
            c.jvm_options
        },
        enable_debug: v.enable_debug,
        debug_port: if v.enable_debug {
            match parse_unsigned(v.debug_port, 0xffff) {
                Some(p) => Some(p as u16),
                None => None,
            }
        } else {
            c.debug_port
        },
        start_mode: spec_start_mode_text(v.start_mode),
        log_mode: spec_log_mode_text(v.log_mode),
        on_failure_delay: match parse_unsigned(v.failure_delay, 0xffff_ffff) {
            Some(d) => d as u32,
            None => 30,
        },
        working_directory: if v.use_work_dir {
            set_if_filled(v.working_directory, c.working_directory)
        } else {
            c.working_directory
        },
        include_jar: v.include_jar,
        app_args: if v.app_args.len() > 0 {
            Some(words(v.app_args))
        } else {
            c.app_args
        },
        ..c
    }
}

/// The form `v` after the configuration `c` is loaded into it: identity,
/// description (empty where there is none), flags, modes and delay are
/// taken from `c`; the Java executable and working directory, where `c`
/// has them, are taken and their custom switch set; the JRE path, JVM
/// options and application arguments (each joined by spaces) and debug port,
/// where `c` has them, are taken; other fields are kept.
pub open spec fn spec_load_from_config(v: ConfigViewModel, c: ServiceConfigModel) -> ConfigViewModel {
    ConfigViewModel {
        service_id: c.service_id,
        service_name: c.service_name,
        jar_path: c.jar_path,
        description: match c.description {
            Some(d) => d,
            None => seq![],
        },
        use_custom_java: match c.java_executable {
            Some(_) => true,
            None => v.use_custom_java,
        },
        java_executable: match c.java_executable {
            Some(j) => j,
            None => v.java_executable,
        },
        bundle_jre: c.bundle_jre,
        jre_path: match c.jre_path {
            Some(j) => j,
            None => v.jre_path,
        },
        jvm_options: match c.jvm_options {
            Some(o) => seq_join(o, " "@),
            None => v.jvm_options,
        },
        enable_debug: c.enable_debug,
        debug_port: match c.debug_port {
            Some(p) => decimal(p as nat),
            None => v.debug_port,
        },
        start_mode: spec_start_mode_of(c.start_mode),
        log_mode: spec_log_mode_of(c.log_mode),
        failure_delay: decimal(c.on_failure_delay as nat),
        use_work_dir: match c.working_directory {
            Some(_) => true,
            None => v.use_work_dir,
        },
        working_directory: match c.working_directory {
            Some(w) => w,
            None => v.working_directory,
        },
        include_jar: c.include_jar,
        app_args: match c.app_args {
            Some(a) => seq_join(a, " "@),
            None => v.app_args,
        },
        ..v
    }
}

fn start_mode_of(value: &str) -> (m: StartMode)
    ensures
        m == spec_start_mode_of(value@),
{
    if str_eq(value, "Automatic") {
        StartMode::Automatic
    } else {
        StartMode::Manual
    }
}

fn log_mode_of(value: &str) -> (m: LogMode)
    ensures
        m == spec_log_mode_of(value@),
{
    if str_eq(value, "reset") {
        LogMode::Reset
    } else if str_eq(value, "none") {
        LogMode::Disabled
    } else {
        LogMode::Rotate
    }
}

fn filled(text: &String, old: &Option<String>) -> (r: Option<String>)
    ensures
        opt_str(r) == set_if_filled(text@, opt_str(*old)),
{
    if !text.as_str().is_empty() {
        Some(text.clone())
    } else {
        crate::service_config::clone_opt_str(old)
    }
}

impl ConfigView {
    /// An empty form.
    pub fn new() -> (r: Self)
        ensures
            r@ == spec_new_view(),
    {
        ConfigView {
            service_id: String::new(),
            service_name: String::new(),
            jar_path: String::new(),
            description: String::new(),
            use_custom_java: false,
            java_executable: String::new(),
            bundle_jre: false,
            jre_path: String::new(),
            jvm_options: String::new(),
            app_args: String::new(),
            enable_debug: false,
            debug_port: String::new(),
            start_mode: StartMode::Automatic,
            log_mode: LogMode::Rotate,
            failure_delay: copy_str("30"),
            use_work_dir: false,
            working_directory: String::new(),
            include_jar: true,
        }
    }

    /// Applies an edit; browsing for the JAR package asks for a file dialog.
    pub fn update(&mut self, message: ConfigMessage) -> (action: ConfigAction)
        ensures
            final(self)@ == spec_update_view(old(self)@, message@),
            action == (if message@ is BrowseJarPressed {
                ConfigAction::BrowseJar
            } else {
                ConfigAction::Idle
            }),
    {
        match message {
            ConfigMessage::DescriptionChanged(value) => {
                self.description = value;
            },
            ConfigMessage::UseCustomJavaToggled(value) => {
                self.use_custom_java = value;
            },
            ConfigMessage::JavaExecutableChanged(value) => {
                self.java_executable = value;
            },
            ConfigMessage::BundleJreToggled(value) => {
                self.bundle_jre = value;
            },
            ConfigMessage::JrePathChanged(value) => {
                self.jre_path = value;
            },
            ConfigMessage::JvmOptionsChanged(value) => {
                self.jvm_options = value;
            },
            ConfigMessage::AppArgsChanged(value) => {
                self.app_args = value;
            },
            ConfigMessage::EnableDebugToggled(value) => {
                self.enable_debug = value;
            },
            ConfigMessage::DebugPortChanged(value) => {
                self.debug_port = value;
            },
            ConfigMessage::StartModeChanged(value) => {
                self.start_mode = start_mode_of(value.as_str());
            },
            ConfigMessage::LogModeChanged(value) => {
                self.log_mode = log_mode_of(value.as_str());
            },
            ConfigMessage::FailureDelayChanged(value) => {
                self.failure_delay = value;
            },
            ConfigMessage::UseWorkDirToggled(value) => {
                self.use_work_dir = value;
            },
            ConfigMessage::WorkingDirectoryChanged(value) => {
                self.working_directory = value;
            },
            ConfigMessage::IncludeJarToggled(value) => {
                self.include_jar = value;
            },
            ConfigMessage::ServiceIdChanged(value) => {
                self.service_id = value;
            },
            ConfigMessage::ServiceNameChanged(value) => {
                self.service_name = value;
            },
            ConfigMessage::JarPathChanged(value) => {
                self.jar_path = value;
            },
            ConfigMessage::BrowseJarPressed => {
                return ConfigAction::BrowseJar;
            },
        }
        ConfigAction::Idle
    }

    /// Writes the form into `config`.
    pub fn update_config(&self, config: &mut ServiceConfig)
        ensures
            final(config)@ == spec_update_config(self@, old(config)@),
    {
        config.service_id = self.service_id.clone();
        config.service_name = self.service_name.clone();
        config.jar_path = self.jar_path.clone();
        config.description = filled(&self.description, &config.description);
        if self.use_custom_java {
            config.java_executable = filled(&self.java_executable, &config.java_executable);
        }
        config.bundle_jre = self.bundle_jre;
        if self.bundle_jre {
            config.jre_path = filled(&self.jre_path, &config.jre_path);
        }
        if !self.jvm_options.as_str().is_empty() {
            config.jvm_options = Some(split_whitespace(self.jvm_options.as_str()));
        }
        if !self.app_args.as_str().is_empty() {
            config.app_args = Some(split_whitespace(self.app_args.as_str()));
        }
        config.enable_debug = self.enable_debug;
        if self.enable_debug {
            config.debug_port = parse_u16(self.debug_port.as_str());
        }
        config.start_mode = match self.start_mode {
            StartMode::Automatic => copy_str("Automatic"),
            StartMode::Manual => copy_str("Manual"),
        };
        config.log_mode = match self.log_mode {
            LogMode::Rotate => copy_str("rotate"),
            LogMode::Reset => copy_str("reset"),
            LogMode::Disabled => copy_str("none"),
        };
        config.on_failure_delay = match parse_u32(self.failure_delay.as_str()) {
            Some(d) => d,
            None => 30,
        };
        if self.use_work_dir {
            config.working_directory = filled(&self.working_directory, &config.working_directory);
        }
        config.include_jar = self.include_jar;
    }

    /// Loads `config` into the form.
    pub fn load_from_config(&mut self, config: &ServiceConfig)
        ensures
            final(self)@ == spec_load_from_config(old(self)@, config@),
    {
        let ghost v = self@;
        let ghost c = config@;
        let description: String = match &config.description {
            Some(d) => d.clone(),
            None => String::new(),
        };
        let (use_custom_java, java_executable): (bool, String) = match &config.java_executable {
            Some(java) => (true, java.clone()),
            None => (self.use_custom_java, self.java_executable.clone()),
        };
        let jre_path: String = match &config.jre_path {
            Some(jre) => jre.clone(),
            None => self.jre_path.clone(),
        };
        let jvm_options: String = match &config.jvm_options {
            Some(options) => join(options, " "),
            None => self.jvm_options.clone(),
        };
        let debug_port: String = match config.debug_port {
            Some(port) => u16_to_decimal(port),
            None => self.debug_port.clone(),
        };
        let (use_work_dir, working_directory): (bool, String) = match &config.working_directory {
            Some(work_dir) => (true, work_dir.clone()),
            None => (self.use_work_dir, self.working_directory.clone()),
        };
        let start_mode: StartMode = start_mode_of(config.start_mode.as_str());
        let log_mode: LogMode = log_mode_of(config.log_mode.as_str());
        let failure_delay: String = u32_to_decimal(config.on_failure_delay);
        let app_args: String = match &config.app_args {
            Some(args) => join(args, " "),
            None => self.app_args.clone(),
        };
        let loaded = ConfigView {
            service_id: config.service_id.clone(),
            service_name: config.service_name.clone(),
            jar_path: config.jar_path.clone(),
            description,
            use_custom_java,
            java_executable,
            bundle_jre: config.bundle_jre,
            jre_path,
            jvm_options,
            app_args,
            enable_debug: config.enable_debug,
            debug_port,
            start_mode,
            log_mode,
            failure_delay,
            use_work_dir,
            working_directory,
            include_jar: config.include_jar,
        };
        assert(loaded@ =~= spec_load_from_config(v, c));
        *self = loaded;
    }
}

impl Default for ConfigView {
    fn default() -> (r: Self)
        ensures
            r@ == spec_new_view(),
    {
        Self::new()
    }
}

/// An edit changes only the field it names: each `…Changed(x)` or
/// `…Toggled(x)` message sets its own field to `x` (the start and log modes
/// to the mode its text selects) and every other field keeps its value;
/// browsing for the JAR package changes nothing.
pub proof fn lemma_edit_sets_only_its_field(v: ConfigViewModel, m: ConfigMessageModel)
    ensures
        ({
            let r = spec_update_view(v, m);
            &&& r.service_id == (match m {
                ConfigMessageModel::ServiceIdChanged(x) => x,
                _ => v.service_id,
            })
            &&& r.service_name == (match m {
                ConfigMessageModel::ServiceNameChanged(x) => x,
                _ => v.service_name,
            })
            &&& r.jar_path == (match m {
                ConfigMessageModel::JarPathChanged(x) => x,
                _ => v.jar_path,
            })
            &&& r.description == (match m {
                ConfigMessageModel::DescriptionChanged(x) => x,
                _ => v.description,
            })
            &&& r.use_custom_java == (match m {
                ConfigMessageModel::UseCustomJavaToggled(b) => b,
                _ => v.use_custom_java,
            })
            &&& r.java_executable == (match m {
                ConfigMessageModel::JavaExecutableChanged(x) => x,
                _ => v.java_executable,
            })
            &&& r.bundle_jre == (match m {
                ConfigMessageModel::BundleJreToggled(b) => b,
                _ => v.bundle_jre,
            })
            &&& r.jre_path == (match m {
                ConfigMessageModel::JrePathChanged(x) => x,
                _ => v.jre_path,
            })
            &&& r.jvm_options == (match m {
                ConfigMessageModel::JvmOptionsChanged(x) => x,
                _ => v.jvm_options,
            })
            &&& r.app_args == (match m {
                ConfigMessageModel::AppArgsChanged(x) => x,
                _ => v.app_args,
            })
            &&& r.enable_debug == (match m {
                ConfigMessageModel::EnableDebugToggled(b) => b,
                _ => v.enable_debug,
            })
            &&& r.debug_port == (match m {
                ConfigMessageModel::DebugPortChanged(x) => x,
                _ => v.debug_port,
            })
            &&& r.start_mode == (match m {
                ConfigMessageModel::StartModeChanged(x) => if x == "Automatic"@ {
                    StartMode::Automatic
                } else {
                    StartMode::Manual
                },
                _ => v.start_mode,
            })
            &&& r.log_mode == (match m {
                ConfigMessageModel::LogModeChanged(x) => if x == "reset"@ {
                    LogMode::Reset
                } else if x == "none"@ {
                    LogMode::Disabled
                } else {
                    LogMode::Rotate
                },
                _ => v.log_mode,
            })
            &&& r.failure_delay == (match m {
                ConfigMessageModel::FailureDelayChanged(x) => x,
                _ => v.failure_delay,
            })
            &&& r.use_work_dir == (match m {
                ConfigMessageModel::UseWorkDirToggled(b) => b,
                _ => v.use_work_dir,
            })
            &&& r.working_directory == (match m {
                ConfigMessageModel::WorkingDirectoryChanged(x) => x,
                _ => v.working_directory,
            })
            &&& r.include_jar == (match m {
                ConfigMessageModel::IncludeJarToggled(b) => b,
                _ => v.include_jar,
            })
        }),
        m is BrowseJarPressed ==> spec_update_view(v, m) == v,
{
}

/// Writing the form sets each optional text of the configuration exactly
/// where its switch is on (the description and the JVM options and
/// application arguments need none) and its input is filled in: the
/// working directory under the custom working directory switch, the Java
/// executable under the custom Java switch, the JRE path under the bundled
/// JRE switch; every other one keeps the configuration's value, whatever
/// the other switches are.
pub proof fn lemma_filled_inputs_are_written(v: ConfigViewModel, c: ServiceConfigModel)
    ensures
        ({
            let r = spec_update_config(v, c);
            &&& r.working_directory == if v.use_work_dir && v.working_directory.len() > 0 {
                Some(v.working_directory)
            } else {
                c.working_directory
            }
            &&& r.java_executable == if v.use_custom_java && v.java_executable.len() > 0 {
                Some(v.java_executable)
            } else {
                c.java_executable
            }
            &&& r.jre_path == if v.bundle_jre && v.jre_path.len() > 0 {
                Some(v.jre_path)
            } else {
                c.jre_path
            }
            &&& r.description == if v.description.len() > 0 {
                Some(v.description)
            } else {
                c.description
            }
            &&& (v.jvm_options.len() == 0 ==> r.jvm_options == c.jvm_options)
            &&& (v.app_args.len() == 0 ==> r.app_args == c.app_args)
            &&& r.service_id == v.service_id
            &&& r.service_name == v.service_name
            &&& r.jar_path == v.jar_path
            &&& r.bundle_jre == v.bundle_jre
            &&& r.enable_debug == v.enable_debug
            &&& r.include_jar == v.include_jar
            &&& r.executable == c.executable
        }),
{
}

/// Whether the stored modes and options of `c` are ones the form can show
/// unchanged: a start mode `Automatic` or `Manual`, a log mode `rotate`,
/// `reset` or `none`, and JVM options and application arguments that are
/// words without whitespace.
pub open spec fn is_form_representable(c: ServiceConfigModel) -> bool {
    &&& (c.start_mode == "Automatic"@ || c.start_mode == "Manual"@)
    &&& (c.log_mode == "rotate"@ || c.log_mode == "reset"@ || c.log_mode == "none"@)
    &&& match c.jvm_options {
        Some(o) => forall|i: int| 0 <= i < o.len() ==> is_word(#[trigger] o[i]),
        None => true,
    }
    &&& match c.app_args {
        Some(a) => forall|i: int| 0 <= i < a.len() ==> is_word(#[trigger] a[i]),
        None => true,
    }
}

/// Loading a configuration into an empty form and writing the form back
/// into it changes nothing, for every configuration whose modes and options
/// the form can show.
pub proof fn lemma_load_then_store(c: ServiceConfigModel)
    requires
        is_form_representable(c),
    ensures
        spec_update_config(spec_load_from_config(spec_new_view(), c), c) == c,
{
    reveal_strlit("Automatic");
    reveal_strlit("Manual");
    reveal_strlit("rotate");
    reveal_strlit("reset");
    reveal_strlit("none");
    reveal_strlit("30");
    let v = spec_load_from_config(spec_new_view(), c);
    let r = spec_update_config(v, c);
    // modes
    assert(spec_start_mode_text(spec_start_mode_of(c.start_mode)) == c.start_mode);
    assert(spec_log_mode_text(spec_log_mode_of(c.log_mode)) == c.log_mode);
    // restart delay
    lemma_parse_decimal(c.on_failure_delay as nat, 0xffff_ffff);
    // debug port
    if c.enable_debug {
        match c.debug_port {
            Some(p) => {
                lemma_parse_decimal(p as nat, 0xffff);
            },
            None => {
                assert(parse_unsigned(Seq::<char>::empty(), 0xffff) is None);
            },
        }
    }
    // JVM options
    match c.jvm_options {
        Some(o) => {
            if seq_join(o, " "@).len() > 0 {
                lemma_words_of_join(o);
            } else {
                assert(v.jvm_options.len() == 0);
            }
        },
        None => {},
    }
    // application arguments
    match c.app_args {
        Some(a) => {
            if seq_join(a, " "@).len() > 0 {
                lemma_words_of_join(a);
            } else {
                assert(v.app_args.len() == 0);
            }
        },
        None => {},
    }
    assert(r =~= c);
}

/// Which optional inputs and which choices the form shows.
pub struct ConfigLayout {
    /// The Java executable input, shown when a custom Java is used.
    pub show_java_executable: bool,
    /// The JRE path input, shown when a JRE is bundled.
    pub show_jre_path: bool,
    /// The debug port input, shown when debugging is enabled.
    pub show_debug_port: bool,
    /// The working directory input, shown when a custom one is used.
    pub show_working_directory: bool,
    /// The start mode choices that are ticked.
    pub automatic_checked: bool,
    pub manual_checked: bool,
    /// The log mode choices that are ticked.
    pub rotate_checked: bool,
    pub reset_checked: bool,
    pub none_checked: bool,
    /// What the browse button next to the JAR path sends.
    pub browse_message: ConfigMessage,
    /// What each start mode choice sends when it is toggled.
    pub automatic_message: ConfigMessage,
    pub manual_message: ConfigMessage,
    /// What each log mode choice sends when it is toggled.
    pub rotate_message: ConfigMessage,
    pub reset_message: ConfigMessage,
    pub none_message: ConfigMessage,
}

impl ConfigView {
    /// What the form shows: each optional input only when its switch is on,
    /// and exactly the chosen start and log modes ticked; each start or log
    /// mode choice sends the text of its own mode, and the browse button
    /// asks for a JAR package.
    pub fn layout(&self) -> (r: ConfigLayout)
        ensures
            r.show_java_executable == self.use_custom_java,
            r.show_jre_path == self.bundle_jre,
            r.show_debug_port == self.enable_debug,
            r.show_working_directory == self.use_work_dir,
            r.automatic_checked == (self.start_mode == StartMode::Automatic),
            r.manual_checked == (self.start_mode == StartMode::Manual),
            r.rotate_checked == (self.log_mode == LogMode::Rotate),
            r.reset_checked == (self.log_mode == LogMode::Reset),
            r.none_checked == (self.log_mode == LogMode::Disabled),
            r.browse_message@ == ConfigMessageModel::BrowseJarPressed,
            r.automatic_message@ == ConfigMessageModel::StartModeChanged("Automatic"@),
            r.manual_message@ == ConfigMessageModel::StartModeChanged("Manual"@),
            r.rotate_message@ == ConfigMessageModel::LogModeChanged("rotate"@),
            r.reset_message@ == ConfigMessageModel::LogModeChanged("reset"@),
            r.none_message@ == ConfigMessageModel::LogModeChanged("none"@),
    {
        ConfigLayout {
            show_java_executable: self.use_custom_java,
            show_jre_path: self.bundle_jre,
            show_debug_port: self.enable_debug,
            show_working_directory: self.use_work_dir,
            automatic_checked: self.start_mode == StartMode::Automatic,
            manual_checked: self.start_mode == StartMode::Manual,
            rotate_checked: self.log_mode == LogMode::Rotate,
            reset_checked: self.log_mode == LogMode::Reset,
            none_checked: self.log_mode == LogMode::Disabled,
            browse_message: ConfigMessage::BrowseJarPressed,
            automatic_message: ConfigMessage::StartModeChanged(copy_str("Automatic")),
            manual_message: ConfigMessage::StartModeChanged(copy_str("Manual")),
            rotate_message: ConfigMessage::LogModeChanged(copy_str("rotate")),
            reset_message: ConfigMessage::LogModeChanged(copy_str("reset")),
            none_message: ConfigMessage::LogModeChanged(copy_str("none")),
        }
    }
}

/// An empty form describes the default configuration: writing it into the
/// default configuration changes nothing.
pub proof fn lemma_new_form_is_default()
    ensures
        spec_update_config(spec_new_view(), crate::service_config::default_model())
            == crate::service_config::default_model(),
{
    reveal_strlit("30");
    reveal_strlit("Automatic");
    reveal_strlit("rotate");
    lemma_parse_decimal(30, 0xffff_ffff);
    assert(decimal(3) =~= seq![digit_char(3)]);
    assert(decimal(30) =~= seq![digit_char(3), digit_char(0)]);
    assert(digit_char(3) == '3');
    assert(digit_char(0) == '0');
    assert("30"@ =~= decimal(30));
    assert(spec_update_config(spec_new_view(), crate::service_config::default_model())
        =~= crate::service_config::default_model());
}

} // verus!
