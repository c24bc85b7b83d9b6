use vstd::prelude::*;

use crate::text::copy_str;

verus! {

/// A Windows service configuration: what the generator writes into a
/// controller executable and what the controller runs.
#[derive(Debug, Clone)]
pub struct ServiceConfig {
    /// Service ID (file names and the identifier that the service manager knows).
    pub service_id: String,
    /// Service name shown in the service list.
    pub service_name: String,
    /// Path of the JAR package.
    pub jar_path: String,
    /// Service description.
    pub description: Option<String>,
    /// The full command line that the service runs.
    pub executable: Option<String>,
    /// A Java executable of the user's choice.
    pub java_executable: Option<String>,
    /// Whether a JRE is bundled into the package.
    pub bundle_jre: bool,
    /// The JRE directory to bundle.
    pub jre_path: Option<String>,
    /// JVM options.
    pub jvm_options: Option<Vec<String>>,
    /// Arguments of the application.
    pub app_args: Option<Vec<String>>,
    /// Whether remote debugging is enabled.
    pub enable_debug: bool,
    /// Remote debugging port.
    pub debug_port: Option<u16>,
    /// Remote debugging host.
    pub debug_host: Option<String>,
    /// Start mode: `Automatic` or `Manual`.
    pub start_mode: String,
    /// Log mode: `rotate`, `reset` or `none`.
    pub log_mode: String,
    /// Seconds to wait before restarting the process after it ended.
    pub on_failure_delay: u32,
    /// Working directory of the process.
    pub working_directory: Option<String>,
    /// Whether the JAR package is copied into the package.
    pub include_jar: bool,
    /// Whether the configuration is kept in the history.
    pub save_to_history: bool,
}

/// The value of a `ServiceConfig` with every string taken as its characters.
#[verifier::ext_equal]
pub struct ServiceConfigModel {
    pub service_id: Seq<char>,
    pub service_name: Seq<char>,
    pub jar_path: Seq<char>,
    pub description: Option<Seq<char>>,
    pub executable: Option<Seq<char>>,
    pub java_executable: Option<Seq<char>>,
    pub bundle_jre: bool,
    pub jre_path: Option<Seq<char>>,
    pub jvm_options: Option<Seq<Seq<char>>>,
    pub app_args: Option<Seq<Seq<char>>>,
    pub enable_debug: bool,
    pub debug_port: Option<u16>,
    pub debug_host: Option<Seq<char>>,
    pub start_mode: Seq<char>,
    pub log_mode: Seq<char>,
    pub on_failure_delay: u32,
    pub working_directory: Option<Seq<char>>,
    pub include_jar: bool,
    pub save_to_history: bool,
}

/// An optional string taken as its characters.
pub open spec fn opt_str(o: Option<String>) -> Option<Seq<char>> {
    match o {
        Some(s) => Some(s@),
        None => None,
    }
}

/// An optional list of strings taken as their characters.
pub open spec fn opt_strs(o: Option<Vec<String>>) -> Option<Seq<Seq<char>>> {
    match o {
        Some(v) => Some(v.deep_view()),
        None => None,
    }
}

impl View for ServiceConfig {
    type V = ServiceConfigModel;

    open spec fn view(&self) -> ServiceConfigModel {
        ServiceConfigModel {
            service_id: self.service_id@,
            service_name: self.service_name@,
            jar_path: self.jar_path@,
            description: opt_str(self.description),
            executable: opt_str(self.executable),
            java_executable: opt_str(self.java_executable),
            bundle_jre: self.bundle_jre,
            jre_path: opt_str(self.jre_path),
            jvm_options: opt_strs(self.jvm_options),
            app_args: opt_strs(self.app_args),
            enable_debug: self.enable_debug,
            debug_port: self.debug_port,
            debug_host: opt_str(self.debug_host),
            start_mode: self.start_mode@,
            log_mode: self.log_mode@,
            on_failure_delay: self.on_failure_delay,
            working_directory: opt_str(self.working_directory),
            include_jar: self.include_jar,
            save_to_history: self.save_to_history,
        }
    }
}

/// The default start mode, `Automatic`.
pub open spec fn spec_default_start_mode() -> Seq<char> {
    seq!['A', 'u', 't', 'o', 'm', 'a', 't', 'i', 'c']
}

/// The default log mode, `rotate`.
pub open spec fn spec_default_log_mode() -> Seq<char> {
    seq!['r', 'o', 't', 'a', 't', 'e']
}

/// The configuration that a new form starts from: empty identity, no
/// optional setting, start mode `Automatic`, log mode `rotate`, a restart
/// delay of 30 seconds, and the JAR package included.
pub open spec fn default_model() -> ServiceConfigModel {
    ServiceConfigModel {
        service_id: seq![],
        service_name: seq![],
        jar_path: seq![],
        description: None,
        executable: None,
        java_executable: None,
        bundle_jre: false,
        jre_path: None,
        jvm_options: None,
        app_args: None,
        enable_debug: false,
        debug_port: None,
        debug_host: None,
        start_mode: spec_default_start_mode(),
        log_mode: spec_default_log_mode(),
        on_failure_delay: 30,
        working_directory: None,
        include_jar: true,
        save_to_history: false,
    }
}

/// The start mode that a configuration without one gets.
pub fn default_start_mode() -> (s: String)
    ensures
        s@ == spec_default_start_mode(),
{
    let s: String = copy_str("Automatic");
    proof {
        reveal_strlit("Automatic");
        assert(s@ =~= spec_default_start_mode());
    }
    s
}

/// The log mode that a configuration without one gets.
pub fn default_log_mode() -> (s: String)
    ensures
        s@ == spec_default_log_mode(),
{
    let s: String = copy_str("rotate");
    proof {
        reveal_strlit("rotate");
        assert(s@ =~= spec_default_log_mode());
    }
    s
}

/// The restart delay that a configuration without one gets.
pub fn default_failure_delay() -> (d: u32)
    ensures
        d == 30,
{
    30
}

/// The value of flags whose default is on.
pub fn default_true() -> (b: bool)
    ensures
        b,
{
    true
}

/// A copy of an optional string.
pub fn clone_opt_str(o: &Option<String>) -> (r: Option<String>)
    ensures
        opt_str(r) == opt_str(*o),
{
    match o {
        Some(s) => Some(s.clone()),
        None => None,
    }
}

/// A copy of a list of strings.
pub fn clone_strs(v: &Vec<String>) -> (r: Vec<String>)
    ensures
        r.deep_view() == v.deep_view(),
{
    let mut r: Vec<String> = Vec::new();
    let mut i: usize = 0;
    while i < v.len()
        invariant
            i <= v.len(),
            r.len() == i,
            forall|j: int| 0 <= j < i ==> (#[trigger] r@[j])@ == v@[j]@,
        decreases v.len() - i,
    {
        let c: String = v[i].clone();
        r.push(c);
        i = i + 1;
    }
    assert(r.deep_view() =~= v.deep_view());
    r
}

/// A copy of an optional list of strings.
pub fn clone_opt_strs(o: &Option<Vec<String>>) -> (r: Option<Vec<String>>)
    ensures
        opt_strs(r) == opt_strs(*o),
{
    match o {
        Some(v) => Some(clone_strs(v)),
        None => None,
    }
}

impl ServiceConfig {
    /// A copy of this configuration.
    pub fn duplicate(&self) -> (r: ServiceConfig)
        ensures
            r@ == self@,
    {
        ServiceConfig {
            service_id: self.service_id.clone(),
            service_name: self.service_name.clone(),
            jar_path: self.jar_path.clone(),
            description: clone_opt_str(&self.description),
            executable: clone_opt_str(&self.executable),
            java_executable: clone_opt_str(&self.java_executable),
            bundle_jre: self.bundle_jre,
            jre_path: clone_opt_str(&self.jre_path),
            jvm_options: clone_opt_strs(&self.jvm_options),
            app_args: clone_opt_strs(&self.app_args),
            enable_debug: self.enable_debug,
            debug_port: self.debug_port,
            debug_host: clone_opt_str(&self.debug_host),
            start_mode: self.start_mode.clone(),
            log_mode: self.log_mode.clone(),
            on_failure_delay: self.on_failure_delay,
            working_directory: clone_opt_str(&self.working_directory),
            include_jar: self.include_jar,
            save_to_history: self.save_to_history,
        }
    }
}

impl Default for ServiceConfig {
    fn default() -> (r: ServiceConfig)
        ensures
            r@ == default_model(),
    {
        ServiceConfig {
            service_id: String::new(),
            service_name: String::new(),
            jar_path: String::new(),
            description: None,
            java_executable: None,
            bundle_jre: false,
            jre_path: None,
            jvm_options: None,
            enable_debug: false,
            debug_host: None,
            debug_port: None,
            start_mode: default_start_mode(),
            log_mode: default_log_mode(),
            on_failure_delay: default_failure_delay(),
            working_directory: None,
            include_jar: true,
            save_to_history: false,
            executable: None,
            app_args: None,
        }
    }
}

} // verus!
