//! Deciding how a project should be built.
//!
//! Detection proposes; this module decides. It is the only place that turns a
//! [`Detection`], or a runtime the user named, into the [`RuntimeSpec`] that
//! goes into the database.

pub mod commands;
pub mod laws;

use crate::ordered::TextMap;
use crate::text::{copied, owned, same};
use vstd::prelude::*;

verus! {

/// What a project is written in.
#[derive(Debug, Clone, Copy, PartialEq, Eq, Structural)]
pub enum Runtime {
    NodeJs,
    TypeScript,
    Bun,
    Deno,
    Python,
    Go,
    Rust,
    Java,
    Php,
    Ruby,
    DotNet,
    Static,
    Polyglot,
}

impl Runtime {
    /// The wire value of the runtime.
    pub open spec fn word(self) -> Seq<char> {
        match self {
            Runtime::NodeJs => "NODEJS"@,
            Runtime::TypeScript => "TYPESCRIPT"@,
            Runtime::Bun => "BUN"@,
            Runtime::Deno => "DENO"@,
            Runtime::Python => "PYTHON"@,
            Runtime::Go => "GO"@,
            Runtime::Rust => "RUST"@,
            Runtime::Java => "JAVA"@,
            Runtime::Php => "PHP"@,
            Runtime::Ruby => "RUBY"@,
            Runtime::DotNet => "DOTNET"@,
            Runtime::Static => "STATIC"@,
            Runtime::Polyglot => "POLYGLOT"@,
        }
    }

    pub fn as_str(self) -> (word: &'static str)
        ensures
            word@ == self.word(),
    {
        match self {
            Runtime::NodeJs => "NODEJS",
            Runtime::TypeScript => "TYPESCRIPT",
            Runtime::Bun => "BUN",
            Runtime::Deno => "DENO",
            Runtime::Python => "PYTHON",
            Runtime::Go => "GO",
            Runtime::Rust => "RUST",
            Runtime::Java => "JAVA",
            Runtime::Php => "PHP",
            Runtime::Ruby => "RUBY",
            Runtime::DotNet => "DOTNET",
            Runtime::Static => "STATIC",
            Runtime::Polyglot => "POLYGLOT",
        }
    }
}

/// The coarse category stored on the project row.
#[derive(Debug, Clone, Copy, PartialEq, Eq, Structural)]
pub enum ProjectType {
    DiscordBot,
    NodeApp,
    PythonApp,
    Website,
    StaticSite,
    RestApi,
    Worker,
    Service,
}

impl ProjectType {
    /// The word the column holds.
    pub open spec fn word(self) -> Seq<char> {
        match self {
            ProjectType::DiscordBot => "DISCORD_BOT"@,
            ProjectType::NodeApp => "NODE_APP"@,
            ProjectType::PythonApp => "PYTHON_APP"@,
            ProjectType::Website => "WEBSITE"@,
            ProjectType::StaticSite => "STATIC_SITE"@,
            ProjectType::RestApi => "REST_API"@,
            ProjectType::Worker => "WORKER"@,
            ProjectType::Service => "SERVICE"@,
        }
    }

    pub fn as_str(self) -> (word: &'static str)
        ensures
            word@ == self.word(),
    {
        match self {
            ProjectType::DiscordBot => "DISCORD_BOT",
            ProjectType::NodeApp => "NODE_APP",
            ProjectType::PythonApp => "PYTHON_APP",
            ProjectType::Website => "WEBSITE",
            ProjectType::StaticSite => "STATIC_SITE",
            ProjectType::RestApi => "REST_API",
            ProjectType::Worker => "WORKER",
            ProjectType::Service => "SERVICE",
        }
    }
}

/// A runtime the interface offers, and what it calls it.
#[derive(Debug, PartialEq, Eq)]
pub struct Offered {
    pub runtime: Runtime,
    pub display_name: String,
}

/// What identifies a project's toolchain.
#[derive(Debug, PartialEq, Eq)]
pub struct RuntimeSpec {
    pub runtime: String,
    pub runtime_version: String,
    pub package_manager: String,
    pub entry_file: Option<String>,
    pub publish_dir: Option<String>,
    pub template_id: String,
}

/// A toolchain as a mathematical value.
pub struct Toolset {
    pub runtime: Seq<char>,
    pub runtime_version: Seq<char>,
    pub package_manager: Seq<char>,
    pub entry_file: Option<Seq<char>>,
    pub publish_dir: Option<Seq<char>>,
    pub template_id: Seq<char>,
}

impl View for RuntimeSpec {
    type V = Toolset;

    open spec fn view(&self) -> Toolset {
        Toolset {
            runtime: self.runtime@,
            runtime_version: self.runtime_version@,
            package_manager: self.package_manager@,
            entry_file: crate::text::optional(self.entry_file),
            publish_dir: crate::text::optional(self.publish_dir),
            template_id: self.template_id@,
        }
    }
}

/// A process a project is planned with.
#[derive(Debug, PartialEq, Eq)]
pub struct NewProcess {
    pub name: String,
    pub start_order: i64,
    pub command: String,
    pub working_dir: String,
    pub install_command: Option<String>,
    pub build_command: Option<String>,
    pub health_check_type: String,
    pub health_check_target: Option<String>,
    pub health_interval_s: i64,
    pub health_timeout_s: i64,
    pub health_retries: i64,
    pub health_start_period_s: i64,
}

/// A planned process as a mathematical value.
pub struct Planned {
    pub name: Seq<char>,
    pub start_order: i64,
    pub command: Seq<char>,
    pub working_dir: Seq<char>,
    pub install_command: Option<Seq<char>>,
    pub build_command: Option<Seq<char>>,
    pub health_check_type: Seq<char>,
    pub health_check_target: Option<Seq<char>>,
    pub health_interval_s: i64,
    pub health_timeout_s: i64,
    pub health_retries: i64,
    pub health_start_period_s: i64,
}

impl View for NewProcess {
    type V = Planned;

    open spec fn view(&self) -> Planned {
        Planned {
            name: self.name@,
            start_order: self.start_order,
            command: self.command@,
            working_dir: self.working_dir@,
            install_command: crate::text::optional(self.install_command),
            build_command: crate::text::optional(self.build_command),
            health_check_type: self.health_check_type@,
            health_check_target: crate::text::optional(self.health_check_target),
            health_interval_s: self.health_interval_s,
            health_timeout_s: self.health_timeout_s,
            health_retries: self.health_retries,
            health_start_period_s: self.health_start_period_s,
        }
    }
}

/// A process in the project's own directory, with nothing to prepare and no
/// health check.
pub open spec fn simple_process(name: Seq<char>, start_order: i64, command: Seq<char>) -> Planned {
    Planned {
        name,
        start_order,
        command,
        working_dir: "."@,
        install_command: None,
        build_command: None,
        health_check_type: "NONE"@,
        health_check_target: None,
        health_interval_s: 30,
        health_timeout_s: 5,
        health_retries: 3,
        health_start_period_s: 20,
    }
}

impl NewProcess {
    /// A process in the project's own directory, with nothing to prepare and
    /// no health check.
    pub fn simple(name: &str, start_order: i64, command: &str) -> (process: NewProcess)
        ensures
            process@ == simple_process(name@, start_order, command@),
    {
        NewProcess {
            name: name.to_owned(),
            start_order,
            command: command.to_owned(),
            working_dir: ".".to_owned(),
            install_command: None,
            build_command: None,
            health_check_type: "NONE".to_owned(),
            health_check_target: None,
            health_interval_s: 30,
            health_timeout_s: 5,
            health_retries: 3,
            health_start_period_s: 20,
        }
    }
}

/// What looking at a project's files found.
#[derive(Debug)]
pub struct Detection {
    pub runtime: Runtime,
    /// The package manager's word.
    pub package_manager: String,
    /// The scripts the project declares, by name.
    pub scripts: TextMap<String>,
    pub suggested_start: Option<String>,
    pub suggested_build_command: Option<String>,
    pub suggested_entry_file: Option<String>,
    pub suggested_publish_dir: Option<String>,
    pub has_lockfile: bool,
    /// Every language the tree showed evidence of, in the words of the
    /// interface.
    pub languages: Vec<String>,
    /// What the user should be told, in the words they should see.
    pub warnings: Vec<String>,
    pub errors: Vec<String>,
}

/// What to build, and what that is based on.
#[derive(Debug, PartialEq, Eq)]
pub struct RuntimePlan {
    pub spec: RuntimeSpec,
    /// What the project runs. One process for every runtime this build plans
    /// for.
    pub processes: Vec<NewProcess>,
    /// The port the project listens on. Not part of `RuntimeSpec` because a
    /// port is a network fact, not a runtime one.
    pub port: i64,
    /// True when the runtime came from looking at the files rather than from
    /// the user naming it.
    pub detected: bool,
    /// The coarse category for `projects.project_type`.
    pub project_type: ProjectType,
    /// Every language the tree showed evidence of, for the interface to report.
    pub languages: Vec<String>,
    /// Detection warnings, in the words the user should see.
    pub notes: Vec<String>,
}

/// A plan as a mathematical value.
#[verifier::ext_equal]
pub struct Plan {
    pub toolset: Toolset,
    pub processes: Seq<Planned>,
    pub port: i64,
    pub detected: bool,
    pub project_type: ProjectType,
    pub languages: Seq<Seq<char>>,
    pub notes: Seq<Seq<char>>,
}

impl View for RuntimePlan {
    type V = Plan;

    open spec fn view(&self) -> Plan {
        Plan {
            toolset: self.spec@,
            processes: self.processes@.map_values(|process: NewProcess| process@),
            port: self.port,
            detected: self.detected,
            project_type: self.project_type,
            languages: crate::text::texts(self.languages@),
            notes: crate::text::texts(self.notes@),
        }
    }
}

#[derive(Debug, PartialEq, Eq)]
pub enum PlanError {
    /// Nothing in the tree identifies a language, and the user named none
    /// either. The message is detection's own, which says what was looked for.
    Undetermined(String),
    UnknownRuntime(String),
}

/// Why there is no plan, as a mathematical value.
pub enum Unplanned {
    Undetermined(Seq<char>),
    UnknownRuntime(Seq<char>),
}

impl View for PlanError {
    type V = Unplanned;

    open spec fn view(&self) -> Unplanned {
        match self {
            PlanError::Undetermined(message) => Unplanned::Undetermined(message@),
            PlanError::UnknownRuntime(runtime) => Unplanned::UnknownRuntime(runtime@),
        }
    }
}

impl Unplanned {
    /// The words the user is shown.
    pub open spec fn text(self) -> Seq<char> {
        match self {
            Unplanned::Undetermined(message) => message,
            Unplanned::UnknownRuntime(runtime) => "`"@ + runtime
                + "` is not a runtime this build offers"@,
        }
    }
}

impl PlanError {
    /// The words the user is shown.
    pub fn message(&self) -> (text: String)
        ensures
            text@ == self@.text(),
    {
        match self {
            PlanError::Undetermined(message) => message.clone(),
            PlanError::UnknownRuntime(runtime) => "`".to_owned().concat(runtime.as_str()).concat(
                "` is not a runtime this build offers",
            ),
        }
    }
}

/// What a fallible plan came to, as a mathematical value.
pub open spec fn planned(result: Result<RuntimePlan, PlanError>) -> Result<Plan, Unplanned> {
    match result {
        Ok(plan) => Ok(plan@),
        Err(error) => Err(error@),
    }
}

/// The defaults of one runtime, as a mathematical value.
pub struct Defaults {
    pub version: Seq<char>,
    pub manager: Seq<char>,
    pub install: Option<Seq<char>>,
    pub build: Option<Seq<char>>,
    pub start: Seq<char>,
    pub entry: Option<Seq<char>>,
    pub publish: Option<Seq<char>>,
    pub port: i64,
}

/// The defaults of each runtime. None of it comes from the project being
/// built, which is what keeps a hostile repository from choosing the command
/// that runs it.
pub open spec fn defaults(runtime: Runtime) -> Defaults {
    match runtime {
        Runtime::NodeJs => Defaults {
            version: "22"@,
            manager: "NPM"@,
            install: Some("npm ci --omit=dev"@),
            build: None,
            start: "node index.js"@,
            entry: Some("index.js"@),
            publish: None,
            port: 3000,
        },
        Runtime::TypeScript => Defaults {
            version: "22"@,
            manager: "NPM"@,
            install: Some("npm ci"@),
            build: Some("npm run build"@),
            start: "node dist/index.js"@,
            entry: Some("src/index.ts"@),
            publish: Some("dist"@),
            port: 3000,
        },
        Runtime::Bun => Defaults {
            version: "1"@,
            manager: "BUN"@,
            install: Some("bun install --frozen-lockfile"@),
            build: None,
            start: "bun run index.ts"@,
            entry: Some("index.ts"@),
            publish: None,
            port: 3000,
        },
        Runtime::Deno => Defaults {
            version: "2"@,
            manager: "DENO"@,
            install: None,
            build: None,
            start: "deno run --allow-net --allow-env main.ts"@,
            entry: Some("main.ts"@),
            publish: None,
            port: 8000,
        },
        Runtime::Python => Defaults {
            version: "3.12"@,
            manager: "PIP"@,
            install: Some("pip install --no-cache-dir -r requirements.txt"@),
            build: None,
            start: "python main.py"@,
            entry: Some("main.py"@),
            publish: None,
            port: 8000,
        },
        Runtime::Go => Defaults {
            version: "1.23"@,
            manager: "GO_MODULES"@,
            install: Some("go mod download"@),
            build: Some("go build -o server ./..."@),
            start: "./server"@,
            entry: Some("main.go"@),
            publish: None,
            port: 8080,
        },
        Runtime::Rust => Defaults {
            version: "1.83"@,
            manager: "CARGO"@,
            install: Some("cargo fetch --locked"@),
            build: Some("cargo build --release --locked"@),
            start: "cargo run --release --locked"@,
            entry: Some("src/main.rs"@),
            publish: None,
            port: 8080,
        },
        Runtime::Java => Defaults {
            version: "21"@,
            manager: "MAVEN"@,
            install: Some("mvn -B dependency:go-offline"@),
            build: Some("mvn -B -DskipTests package"@),
            start: "java -jar target/app.jar"@,
            entry: Some("pom.xml"@),
            publish: None,
            port: 8080,
        },
        Runtime::Php => Defaults {
            version: "8.3"@,
            manager: "COMPOSER"@,
            install: Some("composer install --no-dev --no-interaction"@),
            build: None,
            start: "php -S 0.0.0.0:8080 -t ."@,
            entry: Some("index.php"@),
            publish: None,
            port: 8080,
        },
        Runtime::Ruby => Defaults {
            version: "3.3"@,
            manager: "BUNDLER"@,
            install: Some("bundle install --without development test"@),
            build: None,
            start: "bundle exec rackup --host 0.0.0.0 --port 8080"@,
            entry: Some("config.ru"@),
            publish: None,
            port: 8080,
        },
        Runtime::DotNet => Defaults {
            version: "8.0"@,
            manager: "NUGET"@,
            install: Some("dotnet restore"@),
            build: Some("dotnet publish -c Release -o publish"@),
            start: "dotnet publish/app.dll"@,
            entry: None,
            publish: None,
            port: 8080,
        },
        Runtime::Static => Defaults {
            version: "1"@,
            manager: "NONE"@,
            install: None,
            build: None,
            start: "serve the published directory"@,
            entry: None,
            publish: Some("public"@),
            port: 8080,
        },
        Runtime::Polyglot => Defaults {
            version: "1"@,
            manager: "NONE"@,
            install: None,
            build: None,
            start: "./start.sh"@,
            entry: None,
            publish: None,
            port: 8080,
        },
    }
}

/// The toolchain of a runtime's defaults.
pub open spec fn default_toolset(runtime: Runtime) -> Toolset {
    Toolset {
        runtime: runtime.word(),
        runtime_version: defaults(runtime).version,
        package_manager: defaults(runtime).manager,
        entry_file: defaults(runtime).entry,
        publish_dir: defaults(runtime).publish,
        template_id: crate::text::lowered(runtime.word()),
    }
}

/// The one process of a runtime's defaults.
pub open spec fn default_process(runtime: Runtime) -> Planned {
    Planned {
        install_command: defaults(runtime).install,
        build_command: defaults(runtime).build,
        ..simple_process("main"@, 0, defaults(runtime).start)
    }
}

/// The template of a runtime: its wire value in lower case.
fn template_of(runtime: Runtime) -> (template: &'static str)
    ensures
        template@ == crate::text::lowered(runtime.word()),
{
    match runtime {
        Runtime::NodeJs => {
            proof {
                reveal_strlit("NODEJS");
                reveal_strlit("nodejs");
            }
            assert("nodejs"@ =~= crate::text::lowered("NODEJS"@));
            "nodejs"
        },
        Runtime::TypeScript => {
            proof {
                reveal_strlit("TYPESCRIPT");
                reveal_strlit("typescript");
            }
            assert("typescript"@ =~= crate::text::lowered("TYPESCRIPT"@));
            "typescript"
        },
        Runtime::Bun => {
            proof {
                reveal_strlit("BUN");
                reveal_strlit("bun");
            }
            assert("bun"@ =~= crate::text::lowered("BUN"@));
            "bun"
        },
        Runtime::Deno => {
            proof {
                reveal_strlit("DENO");
                reveal_strlit("deno");
            }
            assert("deno"@ =~= crate::text::lowered("DENO"@));
            "deno"
        },
        Runtime::Python => {
            proof {
                reveal_strlit("PYTHON");
                reveal_strlit("python");
            }
            assert("python"@ =~= crate::text::lowered("PYTHON"@));
            "python"
        },
        Runtime::Go => {
            proof {
                reveal_strlit("GO");
                reveal_strlit("go");
            }
            assert("go"@ =~= crate::text::lowered("GO"@));
            "go"
        },
        Runtime::Rust => {
            proof {
                reveal_strlit("RUST");
                reveal_strlit("rust");
            }
            assert("rust"@ =~= crate::text::lowered("RUST"@));
            "rust"
        },
        Runtime::Java => {
            proof {
                reveal_strlit("JAVA");
                reveal_strlit("java");
            }
            assert("java"@ =~= crate::text::lowered("JAVA"@));
            "java"
        },
        Runtime::Php => {
            proof {
                reveal_strlit("PHP");
                reveal_strlit("php");
            }
            assert("php"@ =~= crate::text::lowered("PHP"@));
            "php"
        },
        Runtime::Ruby => {
            proof {
                reveal_strlit("RUBY");
                reveal_strlit("ruby");
            }
            assert("ruby"@ =~= crate::text::lowered("RUBY"@));
            "ruby"
        },
        Runtime::DotNet => {
            proof {
                reveal_strlit("DOTNET");
                reveal_strlit("dotnet");
            }
            assert("dotnet"@ =~= crate::text::lowered("DOTNET"@));
            "dotnet"
        },
        Runtime::Static => {
            proof {
                reveal_strlit("STATIC");
                reveal_strlit("static");
            }
            assert("static"@ =~= crate::text::lowered("STATIC"@));
            "static"
        },
        Runtime::Polyglot => {
            proof {
                reveal_strlit("POLYGLOT");
                reveal_strlit("polyglot");
            }
            assert("polyglot"@ =~= crate::text::lowered("POLYGLOT"@));
            "polyglot"
        },
    }
}

/// The defaults for one runtime: version, commands, working directory, port.
///
/// One process, named `main`: every runtime this build plans for is a
/// single-process project until somebody says otherwise.
pub fn defaults_for(runtime: Runtime) -> (found: (RuntimeSpec, NewProcess, i64))
    ensures
        found.0@ == default_toolset(runtime),
        found.1@ == default_process(runtime),
        found.2 == defaults(runtime).port,
{
    let (version, manager, install, build, start, entry, publish, port): (
        &'static str,
        &'static str,
        Option<&'static str>,
        Option<&'static str>,
        &'static str,
        Option<&'static str>,
        Option<&'static str>,
        i64,
    ) = match runtime {
        Runtime::NodeJs => (
            "22",
            "NPM",
            Some("npm ci --omit=dev"),
            None,
            "node index.js",
            Some("index.js"),
            None,
            3000,
        ),
        Runtime::TypeScript => (
            "22",
            "NPM",
            Some("npm ci"),
            Some("npm run build"),
            "node dist/index.js",
            Some("src/index.ts"),
            Some("dist"),
            3000,
        ),
        Runtime::Bun => (
            "1",
            "BUN",
            Some("bun install --frozen-lockfile"),
            None,
            "bun run index.ts",
            Some("index.ts"),
            None,
            3000,
        ),
        Runtime::Deno => (
            "2",
            "DENO",
            None,
            None,
            "deno run --allow-net --allow-env main.ts",
            Some("main.ts"),
            None,
            8000,
        ),
        Runtime::Python => (
            "3.12",
            "PIP",
            Some("pip install --no-cache-dir -r requirements.txt"),
            None,
            "python main.py",
            Some("main.py"),
            None,
            8000,
        ),
        // Builds into the project's own directory, and starts what it built.
        Runtime::Go => (
            "1.23",
            "GO_MODULES",
            Some("go mod download"),
            Some("go build -o server ./..."),
            "./server",
            Some("main.go"),
            None,
            8080,
        ),
        // `cargo run` rather than a path to a binary: the binary is named after
        // the crate, which is not knowable when the project is planned.
        Runtime::Rust => (
            "1.83",
            "CARGO",
            Some("cargo fetch --locked"),
            Some("cargo build --release --locked"),
            "cargo run --release --locked",
            Some("src/main.rs"),
            None,
            8080,
        ),
        // Maven names the jar after the artefact and its version, neither of
        // which is knowable here, so this is a guess the user is expected to
        // correct.
        Runtime::Java => (
            "21",
            "MAVEN",
            Some("mvn -B dependency:go-offline"),
            Some("mvn -B -DskipTests package"),
            "java -jar target/app.jar",
            Some("pom.xml"),
            None,
            8080,
        ),
        Runtime::Php => (
            "8.3",
            "COMPOSER",
            Some("composer install --no-dev --no-interaction"),
            None,
            "php -S 0.0.0.0:8080 -t .",
            Some("index.php"),
            None,
            8080,
        ),
        Runtime::Ruby => (
            "3.3",
            "BUNDLER",
            Some("bundle install --without development test"),
            None,
            "bundle exec rackup --host 0.0.0.0 --port 8080",
            Some("config.ru"),
            None,
            8080,
        ),
        Runtime::DotNet => (
            "8.0",
            "NUGET",
            Some("dotnet restore"),
            Some("dotnet publish -c Release -o publish"),
            "dotnet publish/app.dll",
            None,
            None,
            8080,
        ),
        // The start command is never run for a static site: this application
        // serves it. The value is what the interface shows.
        Runtime::Static => (
            "1",
            "NONE",
            None,
            None,
            "serve the published directory",
            None,
            Some("public"),
            8080,
        ),
        // No install: several toolchains could own the project, so it comes
        // from detection or the user.
        Runtime::Polyglot => (
            "1",
            "NONE",
            None,
            None,
            "./start.sh",
            None,
            None,
            8080,
        ),
    };
    let spec = RuntimeSpec {
        runtime: runtime.as_str().to_owned(),
        runtime_version: version.to_owned(),
        package_manager: manager.to_owned(),
        entry_file: owned(entry),
        publish_dir: owned(publish),
        template_id: template_of(runtime).to_owned(),
    };
    let mut process = NewProcess::simple("main", 0, start);
    process.install_command = owned(install);
    process.build_command = owned(build);
    (spec, process, port)
}

/// The coarse category stored on the project row, derived from its runtime.
pub open spec fn category(runtime: Runtime) -> ProjectType {
    match runtime {
        Runtime::NodeJs => ProjectType::NodeApp,
        Runtime::TypeScript => ProjectType::NodeApp,
        Runtime::Bun => ProjectType::NodeApp,
        Runtime::Deno => ProjectType::NodeApp,
        Runtime::Python => ProjectType::PythonApp,
        Runtime::Static => ProjectType::StaticSite,
        _ => ProjectType::Service,
    }
}

/// The coarse category stored on the project row, derived from its runtime.
///
/// Only the categories a runtime can honestly imply are produced here. The
/// others describe what a project is *for*, which no amount of looking at its
/// files can establish, so they are never guessed.
pub fn project_type_for(runtime: Runtime) -> (kind: ProjectType)
    ensures
        kind == category(runtime),
{
    match runtime {
        // Anything on a Node-compatible toolchain. Deno and Bun are their own
        // runtimes but produce the same shape of application.
        Runtime::NodeJs | Runtime::TypeScript | Runtime::Bun | Runtime::Deno => {
            ProjectType::NodeApp
        },
        Runtime::Python => ProjectType::PythonApp,
        // The one runtime that says something about the output rather than the
        // toolchain: a static build has no server process.
        Runtime::Static => ProjectType::StaticSite,
        // A long-running process in a language whose category cannot be
        // narrowed further.
        Runtime::Go | Runtime::Rust | Runtime::Java | Runtime::Php | Runtime::Ruby
        | Runtime::DotNet | Runtime::Polyglot => ProjectType::Service,
    }
}

/// `<manager> run <script>`, in the words of the package manager.
pub open spec fn script_run(manager: Seq<char>, script: Seq<char>) -> Seq<char> {
    if manager == "PNPM"@ {
        "pnpm run "@ + script
    } else if manager == "YARN"@ {
        "yarn run "@ + script
    } else if manager == "BUN"@ {
        "bun run "@ + script
    } else if manager == "DENO"@ {
        "deno task "@ + script
    } else {
        "npm run "@ + script
    }
}

/// `<manager> run <script>`, built from parts rather than concatenated from
/// user text.
pub fn run_script(manager: &str, script: &str) -> (command: String)
    ensures
        command@ == script_run(manager@, script@),
{
    let runner = if same(manager, "PNPM") {
        "pnpm run "
    } else if same(manager, "YARN") {
        "yarn run "
    } else if same(manager, "BUN") {
        "bun run "
    } else if same(manager, "DENO") {
        "deno task "
    } else {
        "npm run "
    };
    runner.to_owned().concat(script)
}

/// What installs dependencies, given a manager and whether there is a lockfile.
pub open spec fn installing(manager: Seq<char>, has_lockfile: bool) -> Option<Seq<char>> {
    if manager == "PNPM"@ {
        Some(
            if has_lockfile {
                "pnpm install --frozen-lockfile"@
            } else {
                "pnpm install"@
            },
        )
    } else if manager == "NPM"@ {
        Some(
            if has_lockfile {
                "npm ci"@
            } else {
                "npm install"@
            },
        )
    } else if manager == "YARN"@ {
        Some(
            if has_lockfile {
                "yarn install --frozen-lockfile"@
            } else {
                "yarn install"@
            },
        )
    } else if manager == "BUN"@ {
        Some(
            if has_lockfile {
                "bun install --frozen-lockfile"@
            } else {
                "bun install"@
            },
        )
    } else if manager == "PIP"@ {
        Some("pip install --no-cache-dir -r requirements.txt"@)
    } else if manager == "POETRY"@ {
        Some("poetry install --no-root --only main"@)
    } else if manager == "UV"@ {
        Some("uv sync --frozen"@)
    } else if manager == "PIPENV"@ {
        Some("pipenv install --deploy"@)
    } else if manager == "GO_MODULES"@ {
        Some("go mod download"@)
    } else if manager == "CARGO"@ {
        Some("cargo fetch --locked"@)
    } else if manager == "MAVEN"@ {
        Some("mvn -B dependency:go-offline"@)
    } else if manager == "GRADLE"@ {
        Some("gradle --no-daemon dependencies"@)
    } else if manager == "COMPOSER"@ {
        Some(
            if has_lockfile {
                "composer install --no-dev --no-interaction"@
            } else {
                "composer update --no-dev --no-interaction"@
            },
        )
    } else if manager == "BUNDLER"@ {
        Some("bundle install --without development test"@)
    } else if manager == "NUGET"@ {
        Some("dotnet restore"@)
    } else {
        None
    }
}

/// What installs dependencies, given a manager and whether there is a lockfile.
///
/// Nothing for a manager that is not known, nor for Deno, which resolves
/// imports as it runs.
pub fn install_command(manager: &str, has_lockfile: bool) -> (command: Option<String>)
    ensures
        crate::text::optional(command) == installing(manager@, has_lockfile),
{
    let command = if same(manager, "PNPM") {
        if has_lockfile {
            "pnpm install --frozen-lockfile"
        } else {
            "pnpm install"
        }
    } else if same(manager, "NPM") {
        if has_lockfile {
            "npm ci"
        } else {
            "npm install"
        }
    } else if same(manager, "YARN") {
        if has_lockfile {
            "yarn install --frozen-lockfile"
        } else {
            "yarn install"
        }
    } else if same(manager, "BUN") {
        if has_lockfile {
            "bun install --frozen-lockfile"
        } else {
            "bun install"
        }
    } else if same(manager, "PIP") {
        "pip install --no-cache-dir -r requirements.txt"
    } else if same(manager, "POETRY") {
        "poetry install --no-root --only main"
    } else if same(manager, "UV") {
        "uv sync --frozen"
    } else if same(manager, "PIPENV") {
        "pipenv install --deploy"
    } else if same(manager, "GO_MODULES") {
        "go mod download"
    } else if same(manager, "CARGO") {
        "cargo fetch --locked"
    } else if same(manager, "MAVEN") {
        "mvn -B dependency:go-offline"
    } else if same(manager, "GRADLE") {
        "gradle --no-daemon dependencies"
    } else if same(manager, "COMPOSER") {
        if has_lockfile {
            "composer install --no-dev --no-interaction"
        } else {
            "composer update --no-dev --no-interaction"
        }
    } else if same(manager, "BUNDLER") {
        "bundle install --without development test"
    } else if same(manager, "NUGET") {
        "dotnet restore"
    } else {
        return None;
    };
    Some(command.to_owned())
}

/// A suggested command: run through the package manager where it is the name
/// of a script, and taken as it is where it is already a command.
pub open spec fn suggested(
    manager: Seq<char>,
    scripts: Seq<(Seq<char>, String)>,
    text: Seq<char>,
) -> Seq<char> {
    if crate::ordered::keyed(scripts, text) {
        script_run(manager, text)
    } else {
        text
    }
}

/// The toolchain with what detection found laid over the defaults.
pub open spec fn detected_toolset(defaults: Toolset, detection: Detection) -> Toolset {
    Toolset {
        package_manager: detection.package_manager@,
        entry_file: match detection.suggested_entry_file {
            Some(entry) => Some(entry@),
            None => defaults.entry_file,
        },
        publish_dir: match detection.suggested_publish_dir {
            Some(publish) => Some(publish@),
            None => defaults.publish_dir,
        },
        ..defaults
    }
}

/// The process with what detection found laid over the defaults.
pub open spec fn detected_process(defaults: Planned, detection: Detection) -> Planned {
    let manager = detection.package_manager@;
    Planned {
        command: match detection.suggested_start {
            Some(start) => suggested(manager, detection.scripts@, start@),
            None => defaults.command,
        },
        build_command: match detection.suggested_build_command {
            Some(build) => Some(suggested(manager, detection.scripts@, build@)),
            None => defaults.build_command,
        },
        install_command: installing(manager, detection.has_lockfile),
        ..defaults
    }
}

fn suggestion(manager: &str, scripts: &TextMap<String>, text: &str) -> (command: String)
    ensures
        command@ == suggested(manager@, scripts@, text@),
{
    if scripts.contains_key(text) {
        run_script(manager, text)
    } else {
        text.to_owned()
    }
}

/// Overlay what detection actually found onto the runtime's defaults.
///
/// Only fields detection has real evidence for: a `None` leaves the default
/// alone rather than blanking a value the template needs. The install command
/// depends on the manager *and* on whether the project pinned its
/// dependencies: `npm ci` fails without a lockfile, which is a confusing first
/// build for someone who just cloned a repository that has none.
fn apply(spec: &mut RuntimeSpec, process: &mut NewProcess, detection: &Detection)
    ensures
        final(spec)@ == detected_toolset(old(spec)@, *detection),
        final(process)@ == detected_process(old(process)@, *detection),
{
    let manager = detection.package_manager.as_str();
    spec.package_manager = manager.to_owned();
    if let Some(start) = &detection.suggested_start {
        process.command = suggestion(manager, &detection.scripts, start.as_str());
    }
    if let Some(build) = &detection.suggested_build_command {
        process.build_command = Some(suggestion(manager, &detection.scripts, build.as_str()));
    }
    if detection.suggested_entry_file.is_some() {
        spec.entry_file = copied(&detection.suggested_entry_file);
    }
    if detection.suggested_publish_dir.is_some() {
        spec.publish_dir = copied(&detection.suggested_publish_dir);
    }
    process.install_command = install_command(manager, detection.has_lockfile);
}

/// The first runtime on offer with that wire value, at or after `from`; the
/// number of them where there is none.
pub open spec fn first_offered(offered: Seq<Offered>, word: Seq<char>, from: int) -> int
    decreases offered.len() - from,
{
    if from >= offered.len() || offered[from].runtime.word() == word {
        from
    } else {
        first_offered(offered, word, from + 1)
    }
}

/// The plan of a runtime that was named.
pub open spec fn named(offered: Seq<Offered>, word: Seq<char>) -> Result<Plan, Unplanned> {
    let at = first_offered(offered, word, 0);
    if at < offered.len() {
        let runtime = offered[at].runtime;
        Ok(
            Plan {
                toolset: default_toolset(runtime),
                processes: seq![default_process(runtime)],
                port: defaults(runtime).port,
                detected: false,
                project_type: category(runtime),
                languages: seq![offered[at].display_name@],
                notes: Seq::empty(),
            },
        )
    } else {
        Err(Unplanned::UnknownRuntime(word))
    }
}

/// The plan of a tree that was looked at. A runtime the user named wins, but
/// what detection has to say is still reported.
pub open spec fn looked_at(
    offered: Seq<Offered>,
    detection: Detection,
    override_runtime: Option<Seq<char>>,
) -> Result<Plan, Unplanned> {
    let languages = crate::text::texts(detection.languages@);
    let notes = crate::text::texts(detection.warnings@);
    match override_runtime {
        Some(word) => match named(offered, word) {
            Ok(plan) => Ok(Plan { languages, notes, ..plan }),
            Err(error) => Err(error),
        },
        None => if detection.errors@.len() > 0 {
            Err(Unplanned::Undetermined(detection.errors@[0]@))
        } else {
            let runtime = detection.runtime;
            Ok(
                Plan {
                    toolset: detected_toolset(default_toolset(runtime), detection),
                    processes: seq![detected_process(default_process(runtime), detection)],
                    port: defaults(runtime).port,
                    detected: true,
                    project_type: category(runtime),
                    languages,
                    notes,
                },
            )
        },
    }
}

/// Every runtime this build can plan for, as wire values and what the
/// interface calls them, for its override list.
pub fn supported_runtimes(offered: &Vec<Offered>) -> (list: Vec<(&'static str, &str)>)
    ensures
        list@.len() == offered@.len(),
        forall|i: int|
            0 <= i < list@.len() ==> (#[trigger] list@[i]).0@ == offered@[i].runtime.word()
                && list@[i].1@ == offered@[i].display_name@,
{
    let mut list: Vec<(&'static str, &str)> = Vec::new();
    let mut index: usize = 0;
    while index < offered.len()
        invariant
            index <= offered@.len(),
            list@.len() == index,
            forall|i: int|
                0 <= i < list@.len() ==> (#[trigger] list@[i]).0@ == offered@[i].runtime.word()
                    && list@[i].1@ == offered@[i].display_name@,
        decreases offered@.len() - index,
    {
        let runtime = &offered[index];
        list.push((runtime.runtime.as_str(), runtime.display_name.as_str()));
        index += 1;
    }
    list
}

/// Plan from an explicit choice, ignoring whatever is on disk.
///
/// What an empty project uses: there are no files to look at, so a choice is
/// the only thing available.
pub fn plan_named(offered: &Vec<Offered>, runtime: &str) -> (plan: Result<RuntimePlan, PlanError>)
    ensures
        planned(plan) == named(offered@, runtime@),
{
    let mut at: usize = 0;
    while at < offered.len() && !same(offered[at].runtime.as_str(), runtime)
        invariant
            at <= offered@.len(),
            first_offered(offered@, runtime@, at as int) == first_offered(offered@, runtime@, 0),
        decreases offered@.len() - at,
    {
        at += 1;
    }
    if at >= offered.len() {
        return Err(PlanError::UnknownRuntime(runtime.to_owned()));
    }
    let chosen = offered[at].runtime;
    let (spec, process, port) = defaults_for(chosen);
    let mut processes: Vec<NewProcess> = Vec::new();
    processes.push(process);
    let mut languages: Vec<String> = Vec::new();
    languages.push(offered[at].display_name.clone());
    let plan = RuntimePlan {
        spec,
        processes,
        port,
        detected: false,
        project_type: project_type_for(chosen),
        languages,
        notes: Vec::new(),
    };
    assert(plan@.processes =~= seq![default_process(chosen)]);
    assert(plan@.languages =~= seq![offered@[at as int].display_name@]);
    assert(plan@.notes =~= Seq::empty());
    Ok(plan)
}

/// Plan by looking at the files.
///
/// `override_runtime` wins when present, for a user who disagrees with
/// detection is not argued with, but the detection notes are still reported.
pub fn plan_detected(
    offered: &Vec<Offered>,
    detection: Detection,
    override_runtime: Option<&str>,
) -> (plan: Result<RuntimePlan, PlanError>)
    ensures
        planned(plan) == looked_at(
            offered@,
            detection,
            crate::text::optional_slice(override_runtime),
        ),
{
    if let Some(named) = override_runtime {
        return match plan_named(offered, named) {
            Ok(plan) => Ok(
                RuntimePlan {
                    languages: detection.languages,
                    notes: detection.warnings,
                    ..plan
                },
            ),
            Err(error) => Err(error),
        };
    }
    // Detection failing is not a bug to be papered over with a default. A
    // project built as the wrong runtime exits immediately, and the message
    // here says exactly what was looked for.
    if detection.errors.len() > 0 {
        return Err(PlanError::Undetermined(detection.errors[0].clone()));
    }
    let (mut spec, mut process, port) = defaults_for(detection.runtime);
    apply(&mut spec, &mut process, &detection);
    let ghost made = process@;
    let mut processes: Vec<NewProcess> = Vec::new();
    processes.push(process);
    let plan = RuntimePlan {
        spec,
        processes,
        port,
        detected: true,
        project_type: project_type_for(detection.runtime),
        languages: detection.languages,
        notes: detection.warnings,
    };
    assert(plan@.processes =~= seq![made]);
    Ok(plan)
}

pub(crate) proof fn first_offered_is_offered(offered: Seq<Offered>, word: Seq<char>, from: int)
    requires
        0 <= from <= offered.len(),
    ensures
        from <= first_offered(offered, word, from) <= offered.len(),
        first_offered(offered, word, from) < offered.len() ==> offered[first_offered(
            offered,
            word,
            from,
        )].runtime.word() == word,
        forall|i: int|
            from <= i < first_offered(offered, word, from) ==> (
            #[trigger] offered[i]).runtime.word() != word,
    decreases offered.len() - from,
{
    if from < offered.len() && offered[from].runtime.word() != word {
        first_offered_is_offered(offered, word, from + 1);
    }
}

/// The list the interface offers and the list that can be planned for are the
/// same list: a name is planned for exactly when it is on offer, and the plan
/// is one of that runtime.
pub proof fn law_exactly_what_is_offered_can_be_planned(offered: Seq<Offered>, word: Seq<char>)
    ensures
        named(offered, word) is Ok <==> exists|i: int|
            0 <= i < offered.len() && (#[trigger] offered[i]).runtime.word() == word,
        named(offered, word) is Ok ==> named(offered, word)->Ok_0.toolset.runtime == word,
        named(offered, word) is Err ==> named(offered, word)->Err_0 == Unplanned::UnknownRuntime(
            word,
        ),
{
    first_offered_is_offered(offered, word, 0);
}

/// Every plan, named or detected, is one process called `main`, first in the
/// start order, in the project's own directory, with a port to listen on.
pub proof fn law_a_plan_is_one_main_process(
    offered: Seq<Offered>,
    detection: Detection,
    override_runtime: Option<Seq<char>>,
)
    requires
        looked_at(offered, detection, override_runtime) is Ok,
    ensures
        ({
            let plan = looked_at(offered, detection, override_runtime)->Ok_0;
            &&& plan.processes.len() == 1
            &&& plan.processes[0].name == "main"@
            &&& plan.processes[0].start_order == 0
            &&& plan.processes[0].working_dir == "."@
            &&& plan.port > 0
            &&& plan.detected == (override_runtime is None)
        }),
{
}

/// A named runtime wins over detection, and what detection has to say of the
/// tree is reported all the same.
pub proof fn law_an_override_keeps_the_advice(
    offered: Seq<Offered>,
    detection: Detection,
    word: Seq<char>,
)
    requires
        named(offered, word) is Ok,
    ensures
        looked_at(offered, detection, Some(word)) == Ok::<Plan, Unplanned>(
            (Plan {
                languages: crate::text::texts(detection.languages@),
                notes: crate::text::texts(detection.warnings@),
                ..named(offered, word)->Ok_0
            }),
        ),
{
}

/// A tree that shows no language is refused with detection's own words rather
/// than built as a guess.
pub proof fn law_nothing_is_guessed(offered: Seq<Offered>, detection: Detection)
    ensures
        looked_at(offered, detection, None) is Err <==> detection.errors@.len() > 0,
        detection.errors@.len() > 0 ==> looked_at(offered, detection, None) == Err::<
            Plan,
            Unplanned,
        >(Unplanned::Undetermined(detection.errors@[0]@)),
{
}

/// What a script holds never becomes a command: a suggested start that names a
/// script is run by name through the package manager, whatever the script's
/// text is.
pub proof fn law_a_scripts_text_is_never_a_command(
    offered: Seq<Offered>,
    detection: Detection,
    start: String,
)
    requires
        detection.errors@.len() == 0,
        detection.suggested_start == Some(start),
        crate::ordered::keyed(detection.scripts@, start@),
    ensures
        looked_at(offered, detection, None)->Ok_0.processes[0].command == script_run(
            detection.package_manager@,
            start@,
        ),
{
}

/// Only the categories a runtime can honestly imply are ever produced.
pub proof fn law_no_category_is_guessed(runtime: Runtime)
    ensures
        category(runtime) is NodeApp || category(runtime) is PythonApp || category(runtime)
            is StaticSite || category(runtime) is Service,
        category(runtime) is StaticSite <==> runtime is Static,
        category(runtime) is NodeApp <==> runtime is NodeJs || runtime is TypeScript || runtime
            is Bun || runtime is Deno,
{
}

} // verus!
