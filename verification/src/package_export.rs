use vstd::prelude::*;

use crate::service_config::{ServiceConfig, ServiceConfigModel};
use crate::text::{
    concat, concat3, copy_str, file_name, file_name_of, join, replace_char, replace_char_str,
    seq_join, u16_to_decimal, decimal,
};

verus! {

/// Builds the deployment package of a service: the wrapper's command line,
/// the names of the files it writes, and the order of the export steps.
pub struct PackageExportService {}

/// One step of an export, in the order in which they run.
pub enum ExportStep {
    /// Copy the JAR package into the package directory.
    CopyJar,
    /// Copy the JRE directory at this path into the package as `jre`.
    CopyJre(String),
    /// Compose the command line of the service (`create_executable`).
    CreateExecutable,
    /// Write the controller executable with the configuration appended.
    WriteController,
    /// Pack the package directory into a ZIP file.
    CreateZip,
}

/// The view of an `ExportStep`.
pub enum ExportStepModel {
    CopyJar,
    CopyJre(Seq<char>),
    CreateExecutable,
    WriteController,
    CreateZip,
}

impl View for ExportStep {
    type V = ExportStepModel;

    open spec fn view(&self) -> ExportStepModel {
        match self {
            ExportStep::CopyJar => ExportStepModel::CopyJar,
            ExportStep::CopyJre(p) => ExportStepModel::CopyJre(p@),
            ExportStep::CreateExecutable => ExportStepModel::CreateExecutable,
            ExportStep::WriteController => ExportStepModel::WriteController,
            ExportStep::CreateZip => ExportStepModel::CreateZip,
        }
    }
}

/// The program that starts the JVM: the configured Java executable, else
/// the bundled `jre/bin/java`, else `java` from the system path.
pub open spec fn spec_java_program(c: ServiceConfigModel) -> Seq<char> {
    match c.java_executable {
        Some(j) => j,
        None => if c.bundle_jre {
            "jre/bin/java"@
        } else {
            "java"@
        },
    }
}

/// `base` followed by the JVM options, if any, separated by spaces.
pub open spec fn spec_with_jvm_options(c: ServiceConfigModel, base: Seq<char>) -> Seq<char> {
    match c.jvm_options {
        Some(opts) => base + " "@ + seq_join(opts, " "@),
        None => base,
    }
}

/// The remote debugging port: the configured one, else 5005.
pub open spec fn spec_debug_port(c: ServiceConfigModel) -> u16 {
    match c.debug_port {
        Some(p) => p,
        None => 5005,
    }
}

/// The remote debugging host: the configured one, else `localhost`.
pub open spec fn spec_debug_host(c: ServiceConfigModel) -> Seq<char> {
    match c.debug_host {
        Some(h) => h,
        None => "localhost"@,
    }
}

/// `base` followed, where debugging is enabled, by the JDWP agent option
/// that listens on the debugging host and port.
pub open spec fn spec_with_debug(c: ServiceConfigModel, base: Seq<char>) -> Seq<char> {
    if c.enable_debug {
        base + " -agentlib:jdwp=transport=dt_socket,server=y,suspend=n,address="@
            + spec_debug_host(c) + ":"@ + decimal(spec_debug_port(c) as nat)
    } else {
        base
    }
}

/// The file name of a JAR path, or `app.jar` where the path names none.
pub open spec fn spec_jar_file_name(jar_path: Seq<char>) -> Seq<char> {
    match file_name(jar_path) {
        Some(n) => n,
        None => "app.jar"@,
    }
}

/// The JAR that the command runs: its file name in the package when it is
/// included, else the configured path.
pub open spec fn spec_jar_reference(c: ServiceConfigModel) -> Seq<char> {
    if c.include_jar {
        spec_jar_file_name(c.jar_path)
    } else {
        c.jar_path
    }
}

/// The command line of the service:
/// `<java> [<jvm options>] [<debug agent>] -jar <jar> [<app args>]`.
pub open spec fn spec_command_line(c: ServiceConfigModel) -> Seq<char> {
    let with_jar = spec_with_debug(c, spec_with_jvm_options(c, spec_java_program(c))) + " -jar "@
        + spec_jar_reference(c);
    match c.app_args {
        Some(args) => with_jar + " "@ + seq_join(args, " "@),
        None => with_jar,
    }
}

/// The steps of an export: the JAR copy if it is included, the JRE copy if
/// one is bundled and its path is set, then the command line, the
/// controller and the ZIP file.
pub open spec fn spec_export_steps(c: ServiceConfigModel) -> Seq<ExportStepModel> {
    let jar: Seq<ExportStepModel> = if c.include_jar {
        seq![ExportStepModel::CopyJar]
    } else {
        seq![]
    };
    let jre: Seq<ExportStepModel> = match c.jre_path {
        Some(p) => if c.bundle_jre {
            seq![ExportStepModel::CopyJre(p)]
        } else {
            seq![]
        },
        None => seq![],
    };
    jar + jre + seq![
        ExportStepModel::CreateExecutable,
        ExportStepModel::WriteController,
        ExportStepModel::CreateZip,
    ]
}

/// The JDWP agent option that listens on the debugging host and port of `c`.
pub open spec fn spec_debug_agent(c: ServiceConfigModel) -> Seq<char> {
    " -agentlib:jdwp=transport=dt_socket,server=y,suspend=n,address="@ + spec_debug_host(c)
        + ":"@ + decimal(spec_debug_port(c) as nat)
}

/// The command line begins with the Java program followed by the JVM
/// options joined by single spaces, whenever options are configured and
/// whether or not remote debugging is enabled; enabling debugging inserts
/// only the debugging agent option right after them and leaves the rest of
/// the line as it is.
pub proof fn lemma_jvm_options_then_debug_agent(c: ServiceConfigModel)
    ensures
        ({
            let head = spec_java_program(c) + match c.jvm_options {
                Some(opts) => " "@ + seq_join(opts, " "@),
                None => seq![],
            };
            let off = spec_command_line(ServiceConfigModel { enable_debug: false, ..c });
            let on = spec_command_line(ServiceConfigModel { enable_debug: true, ..c });
            &&& head.is_prefix_of(off)
            &&& head.is_prefix_of(on)
            &&& on == head + spec_debug_agent(c) + off.skip(head.len() as int)
            &&& spec_command_line(c) == if c.enable_debug { on } else { off }
        }),
{
    let head = spec_java_program(c) + match c.jvm_options {
        Some(opts) => " "@ + seq_join(opts, " "@),
        None => seq![],
    };
    let c_off = ServiceConfigModel { enable_debug: false, ..c };
    let c_on = ServiceConfigModel { enable_debug: true, ..c };
    let base = spec_java_program(c);
    assert(spec_java_program(c_off) == base);
    assert(spec_java_program(c_on) == base);
    assert(spec_with_jvm_options(c_off, base) =~= head);
    assert(spec_with_jvm_options(c_on, base) =~= head);
    let ag = spec_debug_agent(c);
    assert(spec_debug_agent(c_on) == ag);
    assert(spec_with_debug(c_on, head) =~= head + ag);
    assert(spec_with_debug(c_off, head) == head);
    let jar = " -jar "@ + spec_jar_reference(c);
    let args: Seq<char> = match c.app_args {
        Some(a) => " "@ + seq_join(a, " "@),
        None => seq![],
    };
    let tail = jar + args;
    lemma_with_jar_and_args(c_off, head, jar, args);
    lemma_with_jar_and_args(c_on, head + ag, jar, args);
    let off = spec_command_line(c_off);
    let on = spec_command_line(c_on);
    assert(off == head + tail);
    assert(on == (head + ag) + tail);
    lemma_insert_after_prefix(head, ag, tail);
    assert(c_off == c || c_on == c);
}

/// Inserting `mid` between `head` and `tail` keeps `head` in front and
/// `tail` after it.
proof fn lemma_insert_after_prefix(head: Seq<char>, mid: Seq<char>, tail: Seq<char>)
    ensures
        head.is_prefix_of(head + tail),
        head.is_prefix_of((head + mid) + tail),
        (head + tail).skip(head.len() as int) == tail,
        (head + mid) + tail == head + mid + (head + tail).skip(head.len() as int),
{
    assert((head + tail).subrange(0, head.len() as int) =~= head);
    assert(((head + mid) + tail).subrange(0, head.len() as int) =~= head);
    assert((head + tail).skip(head.len() as int) =~= tail);
}

/// The command line of `c` is the part before `-jar` followed by the JAR
/// reference and the application arguments.
proof fn lemma_with_jar_and_args(
    c: ServiceConfigModel,
    before: Seq<char>,
    jar: Seq<char>,
    args: Seq<char>,
)
    requires
        spec_with_debug(c, spec_with_jvm_options(c, spec_java_program(c))) == before,
        jar == " -jar "@ + spec_jar_reference(c),
        args == match c.app_args {
            Some(a) => " "@ + seq_join(a, " "@),
            None => seq![],
        },
    ensures
        spec_command_line(c) == before + (jar + args),
{
    assert(spec_command_line(c) =~= before + (jar + args));
}

/// The export copies the JAR package exactly when it is included, and
/// copies a JRE directory `p` exactly when a JRE is bundled and its path is
/// `p`, whether or not the JAR is included; it always ends by composing the
/// command line, writing the controller and packing the ZIP file, in that
/// order.
pub proof fn lemma_export_copies_what_is_chosen(c: ServiceConfigModel, p: Seq<char>)
    ensures
        spec_export_steps(c).contains(ExportStepModel::CopyJar) <==> c.include_jar,
        spec_export_steps(c).contains(ExportStepModel::CopyJre(p)) <==> (c.bundle_jre
            && c.jre_path == Some(p)),
        ({
            let s = spec_export_steps(c);
            &&& s.len() >= 3
            &&& s[s.len() - 3] == ExportStepModel::CreateExecutable
            &&& s[s.len() - 2] == ExportStepModel::WriteController
            &&& s[s.len() - 1] == ExportStepModel::CreateZip
        }),
{
    let jar: Seq<ExportStepModel> = if c.include_jar {
        seq![ExportStepModel::CopyJar]
    } else {
        seq![]
    };
    let jre: Seq<ExportStepModel> = match c.jre_path {
        Some(q) => if c.bundle_jre {
            seq![ExportStepModel::CopyJre(q)]
        } else {
            seq![]
        },
        None => seq![],
    };
    let tail: Seq<ExportStepModel> = seq![
        ExportStepModel::CreateExecutable,
        ExportStepModel::WriteController,
        ExportStepModel::CreateZip,
    ];
    let s = spec_export_steps(c);
    assert(s =~= jar + jre + tail);
    let n = jar.len() + jre.len();
    assert forall|i: int| 0 <= i < s.len() implies (#[trigger] s[i] == ExportStepModel::CopyJar
        ==> c.include_jar) && (s[i] == ExportStepModel::CopyJre(p) ==> c.bundle_jre
        && c.jre_path == Some(p)) by {
        if i < jar.len() {
            assert(s[i] == jar[i]);
        } else if i < n {
            assert(s[i] == jre[i - jar.len()]);
        } else {
            assert(s[i] == tail[i - n]);
        }
    }
    if c.include_jar {
        assert(s[0] == ExportStepModel::CopyJar);
    }
    if c.bundle_jre && c.jre_path == Some(p) {
        assert(s[jar.len() as int] == ExportStepModel::CopyJre(p));
    }
    assert(s[s.len() - 3] == tail[0]);
    assert(s[s.len() - 2] == tail[1]);
    assert(s[s.len() - 1] == tail[2]);
}

/// The file name of a JAR path, or `app.jar` where the path names none.
pub fn jar_file_name(jar_path: &str) -> (r: String)
    ensures
        r@ == spec_jar_file_name(jar_path@),
{
    match file_name_of(jar_path) {
        Some(n) => n,
        None => copy_str("app.jar"),
    }
}

fn java_program(config: &ServiceConfig) -> (r: String)
    ensures
        r@ == spec_java_program(config@),
{
    match &config.java_executable {
        Some(j) => j.clone(),
        None => if config.bundle_jre {
            copy_str("jre/bin/java")
        } else {
            copy_str("java")
        },
    }
}

impl PackageExportService {
    /// A new export service.
    pub fn new() -> (r: Self) {
        PackageExportService {  }
    }

    /// The directory that collects the package: `<service id>-package`.
    pub fn package_dir_name(&self, config: &ServiceConfig) -> (r: String)
        ensures
            r@ == config.service_id@ + "-package"@,
    {
        concat(config.service_id.as_str(), "-package")
    }

    /// The ZIP file of the package: `<service id>-package.zip`.
    pub fn zip_file_name(&self, config: &ServiceConfig) -> (r: String)
        ensures
            r@ == config.service_id@ + "-package.zip"@,
    {
        concat(config.service_id.as_str(), "-package.zip")
    }

    /// The controller executable in the package: `<service id>-control.exe`.
    pub fn controller_file_name(&self, config: &ServiceConfig) -> (r: String)
        ensures
            r@ == config.service_id@ + "-control.exe"@,
    {
        concat(config.service_id.as_str(), "-control.exe")
    }

    /// The name of a ZIP entry for a path relative to the package directory:
    /// the path with every `\` turned into `/`.
    pub fn zip_entry_name(&self, relative_path: &str) -> (r: String)
        ensures
            r@ == replace_char(relative_path@, '\\', '/'),
    {
        replace_char_str(relative_path, '\\', '/')
    }

    /// The steps of `export_package` for this configuration, in order.
    pub fn export_steps(&self, config: &ServiceConfig) -> (r: Vec<ExportStep>)
        ensures
            r@.map_values(|s: ExportStep| s@) == spec_export_steps(config@),
    {
        let mut steps: Vec<ExportStep> = Vec::new();
        if config.include_jar {
            steps.push(ExportStep::CopyJar);
        }
        if config.bundle_jre {
            match &config.jre_path {
                Some(p) => {
                    steps.push(ExportStep::CopyJre(p.clone()));
                },
                None => {},
            }
        }
        steps.push(ExportStep::CreateExecutable);
        steps.push(ExportStep::WriteController);
        steps.push(ExportStep::CreateZip);
        assert(steps@.map_values(|s: ExportStep| s@) =~= spec_export_steps(config@));
        steps
    }

    /// Composes the command line of the service and stores it in
    /// `config.executable`; nothing else of the configuration changes.
    pub fn create_executable(&self, config: &mut ServiceConfig)
        ensures
            final(config)@ == (ServiceConfigModel {
                executable: Some(spec_command_line(old(config)@)),
                ..old(config)@
            }),
    {
        let ghost c = config@;
        let program: String = java_program(config);
        let with_jvm: String = match &config.jvm_options {
            Some(opts) => {
                let joined: String = join(opts, " ");
                concat3(program.as_str(), " ", joined.as_str())
            },
            None => program,
        };
        assert(with_jvm@ == spec_with_jvm_options(c, spec_java_program(c)));
        let with_debug: String = if config.enable_debug {
            let port: u16 = match config.debug_port {
                Some(p) => p,
                None => 5005,
            };
            let host: String = match &config.debug_host {
                Some(h) => h.clone(),
                None => copy_str("localhost"),
            };
            let port_text: String = u16_to_decimal(port);
            let agent: String = concat(
                with_jvm.as_str(),
                " -agentlib:jdwp=transport=dt_socket,server=y,suspend=n,address=",
            );
            let with_host: String = concat3(agent.as_str(), host.as_str(), ":");
            concat(with_host.as_str(), port_text.as_str())
        } else {
            with_jvm
        };
        assert(with_debug@ == spec_with_debug(c, spec_with_jvm_options(c, spec_java_program(c))));
        let jar: String = if config.include_jar {
            jar_file_name(config.jar_path.as_str())
        } else {
            config.jar_path.clone()
        };
        let with_jar: String = concat3(with_debug.as_str(), " -jar ", jar.as_str());
        let command: String = match &config.app_args {
            Some(args) => {
                let joined: String = join(args, " ");
                concat3(with_jar.as_str(), " ", joined.as_str())
            },
            None => with_jar,
        };
        assert(command@ == spec_command_line(c));
        config.executable = Some(command);
        assert(config@ =~= (ServiceConfigModel { executable: Some(spec_command_line(c)), ..c }));
    }
}

} // verus!
