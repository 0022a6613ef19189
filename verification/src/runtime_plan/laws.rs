//! What a plan says, field by field, of what was named or found.

use super::{Detection, Offered, Planned, Runtime, Toolset, Unplanned};
use vstd::prelude::*;

verus! {

/// The command that runs a script by its name, for each package manager: what
/// is not known is run as npm runs it.
pub proof fn law_a_script_is_run_by_its_manager(manager: Seq<char>, script: Seq<char>)
    ensures
        manager == "PNPM"@ ==> super::script_run(manager, script) == "pnpm run "@ + script,
        manager == "YARN"@ ==> super::script_run(manager, script) == "yarn run "@ + script,
        manager == "BUN"@ ==> super::script_run(manager, script) == "bun run "@ + script,
        manager == "DENO"@ ==> super::script_run(manager, script) == "deno task "@ + script,
        manager != "PNPM"@ && manager != "YARN"@ && manager != "BUN"@ && manager != "DENO"@
            ==> super::script_run(manager, script) == "npm run "@ + script,
{
    managers_differ();
}

proof fn managers_differ()
    ensures
        "PNPM"@ != "NPM"@,
        "PNPM"@ != "YARN"@,
        "PNPM"@ != "BUN"@,
        "PNPM"@ != "DENO"@,
        "PNPM"@ != "PIP"@,
        "PNPM"@ != "POETRY"@,
        "PNPM"@ != "UV"@,
        "PNPM"@ != "PIPENV"@,
        "PNPM"@ != "GO_MODULES"@,
        "PNPM"@ != "CARGO"@,
        "PNPM"@ != "MAVEN"@,
        "PNPM"@ != "GRADLE"@,
        "PNPM"@ != "COMPOSER"@,
        "PNPM"@ != "BUNDLER"@,
        "PNPM"@ != "NUGET"@,
        "NPM"@ != "YARN"@,
        "NPM"@ != "BUN"@,
        "NPM"@ != "DENO"@,
        "NPM"@ != "PIP"@,
        "NPM"@ != "POETRY"@,
        "NPM"@ != "UV"@,
        "NPM"@ != "PIPENV"@,
        "NPM"@ != "GO_MODULES"@,
        "NPM"@ != "CARGO"@,
        "NPM"@ != "MAVEN"@,
        "NPM"@ != "GRADLE"@,
        "NPM"@ != "COMPOSER"@,
        "NPM"@ != "BUNDLER"@,
        "NPM"@ != "NUGET"@,
        "YARN"@ != "BUN"@,
        "YARN"@ != "DENO"@,
        "YARN"@ != "PIP"@,
        "YARN"@ != "POETRY"@,
        "YARN"@ != "UV"@,
        "YARN"@ != "PIPENV"@,
        "YARN"@ != "GO_MODULES"@,
        "YARN"@ != "CARGO"@,
        "YARN"@ != "MAVEN"@,
        "YARN"@ != "GRADLE"@,
        "YARN"@ != "COMPOSER"@,
        "YARN"@ != "BUNDLER"@,
        "YARN"@ != "NUGET"@,
        "BUN"@ != "DENO"@,
        "BUN"@ != "PIP"@,
        "BUN"@ != "POETRY"@,
        "BUN"@ != "UV"@,
        "BUN"@ != "PIPENV"@,
        "BUN"@ != "GO_MODULES"@,
        "BUN"@ != "CARGO"@,
        "BUN"@ != "MAVEN"@,
        "BUN"@ != "GRADLE"@,
        "BUN"@ != "COMPOSER"@,
        "BUN"@ != "BUNDLER"@,
        "BUN"@ != "NUGET"@,
        "DENO"@ != "PIP"@,
        "DENO"@ != "POETRY"@,
        "DENO"@ != "UV"@,
        "DENO"@ != "PIPENV"@,
        "DENO"@ != "GO_MODULES"@,
        "DENO"@ != "CARGO"@,
        "DENO"@ != "MAVEN"@,
        "DENO"@ != "GRADLE"@,
        "DENO"@ != "COMPOSER"@,
        "DENO"@ != "BUNDLER"@,
        "DENO"@ != "NUGET"@,
        "PIP"@ != "POETRY"@,
        "PIP"@ != "UV"@,
        "PIP"@ != "PIPENV"@,
        "PIP"@ != "GO_MODULES"@,
        "PIP"@ != "CARGO"@,
        "PIP"@ != "MAVEN"@,
        "PIP"@ != "GRADLE"@,
        "PIP"@ != "COMPOSER"@,
        "PIP"@ != "BUNDLER"@,
        "PIP"@ != "NUGET"@,
        "POETRY"@ != "UV"@,
        "POETRY"@ != "PIPENV"@,
        "POETRY"@ != "GO_MODULES"@,
        "POETRY"@ != "CARGO"@,
        "POETRY"@ != "MAVEN"@,
        "POETRY"@ != "GRADLE"@,
        "POETRY"@ != "COMPOSER"@,
        "POETRY"@ != "BUNDLER"@,
        "POETRY"@ != "NUGET"@,
        "UV"@ != "PIPENV"@,
        "UV"@ != "GO_MODULES"@,
        "UV"@ != "CARGO"@,
        "UV"@ != "MAVEN"@,
        "UV"@ != "GRADLE"@,
        "UV"@ != "COMPOSER"@,
        "UV"@ != "BUNDLER"@,
        "UV"@ != "NUGET"@,
        "PIPENV"@ != "GO_MODULES"@,
        "PIPENV"@ != "CARGO"@,
        "PIPENV"@ != "MAVEN"@,
        "PIPENV"@ != "GRADLE"@,
        "PIPENV"@ != "COMPOSER"@,
        "PIPENV"@ != "BUNDLER"@,
        "PIPENV"@ != "NUGET"@,
        "GO_MODULES"@ != "CARGO"@,
        "GO_MODULES"@ != "MAVEN"@,
        "GO_MODULES"@ != "GRADLE"@,
        "GO_MODULES"@ != "COMPOSER"@,
        "GO_MODULES"@ != "BUNDLER"@,
        "GO_MODULES"@ != "NUGET"@,
        "CARGO"@ != "MAVEN"@,
        "CARGO"@ != "GRADLE"@,
        "CARGO"@ != "COMPOSER"@,
        "CARGO"@ != "BUNDLER"@,
        "CARGO"@ != "NUGET"@,
        "MAVEN"@ != "GRADLE"@,
        "MAVEN"@ != "COMPOSER"@,
        "MAVEN"@ != "BUNDLER"@,
        "MAVEN"@ != "NUGET"@,
        "GRADLE"@ != "COMPOSER"@,
        "GRADLE"@ != "BUNDLER"@,
        "GRADLE"@ != "NUGET"@,
        "COMPOSER"@ != "BUNDLER"@,
        "COMPOSER"@ != "NUGET"@,
        "BUNDLER"@ != "NUGET"@,
{
    reveal_strlit("PNPM");
    reveal_strlit("NPM");
    reveal_strlit("YARN");
    reveal_strlit("BUN");
    reveal_strlit("DENO");
    reveal_strlit("PIP");
    reveal_strlit("POETRY");
    reveal_strlit("UV");
    reveal_strlit("PIPENV");
    reveal_strlit("GO_MODULES");
    reveal_strlit("CARGO");
    reveal_strlit("MAVEN");
    reveal_strlit("GRADLE");
    reveal_strlit("COMPOSER");
    reveal_strlit("BUNDLER");
    reveal_strlit("NUGET");
    assert("PNPM"@.len() == 4 && "PNPM"@[0] == 'P' && "PNPM"@[1] == 'N');
    assert("NPM"@.len() == 3 && "NPM"@[0] == 'N' && "NPM"@[1] == 'P');
    assert("YARN"@.len() == 4 && "YARN"@[0] == 'Y' && "YARN"@[1] == 'A');
    assert("BUN"@.len() == 3 && "BUN"@[0] == 'B' && "BUN"@[1] == 'U');
    assert("DENO"@.len() == 4 && "DENO"@[0] == 'D' && "DENO"@[1] == 'E');
    assert("PIP"@.len() == 3 && "PIP"@[0] == 'P' && "PIP"@[1] == 'I');
    assert("POETRY"@.len() == 6 && "POETRY"@[0] == 'P' && "POETRY"@[1] == 'O');
    assert("UV"@.len() == 2 && "UV"@[0] == 'U' && "UV"@[1] == 'V');
    assert("PIPENV"@.len() == 6 && "PIPENV"@[0] == 'P' && "PIPENV"@[1] == 'I');
    assert("GO_MODULES"@.len() == 10 && "GO_MODULES"@[0] == 'G' && "GO_MODULES"@[1] == 'O');
    assert("CARGO"@.len() == 5 && "CARGO"@[0] == 'C' && "CARGO"@[1] == 'A');
    assert("MAVEN"@.len() == 5 && "MAVEN"@[0] == 'M' && "MAVEN"@[1] == 'A');
    assert("GRADLE"@.len() == 6 && "GRADLE"@[0] == 'G' && "GRADLE"@[1] == 'R');
    assert("COMPOSER"@.len() == 8 && "COMPOSER"@[0] == 'C' && "COMPOSER"@[1] == 'O');
    assert("BUNDLER"@.len() == 7 && "BUNDLER"@[0] == 'B' && "BUNDLER"@[1] == 'U');
    assert("NUGET"@.len() == 5 && "NUGET"@[0] == 'N' && "NUGET"@[1] == 'U');
}

/// A manager that can insist on a lockfile does where there is one, and does
/// not where there is none.
pub proof fn law_only_a_lockfile_is_insisted_on()
    ensures
        super::installing("PNPM"@, true) == Some("pnpm install --frozen-lockfile"@),
        super::installing("PNPM"@, false) == Some("pnpm install"@),
        super::installing("NPM"@, true) == Some("npm ci"@),
        super::installing("NPM"@, false) == Some("npm install"@),
        super::installing("YARN"@, true) == Some("yarn install --frozen-lockfile"@),
        super::installing("YARN"@, false) == Some("yarn install"@),
        super::installing("BUN"@, true) == Some("bun install --frozen-lockfile"@),
        super::installing("BUN"@, false) == Some("bun install"@),
        super::installing("COMPOSER"@, true) == Some("composer install --no-dev --no-interaction"@),
        super::installing("COMPOSER"@, false) == Some("composer update --no-dev --no-interaction"@),
{
    managers_differ();
}

/// Any other manager installs the same way with a lockfile and without, and one
/// that is not known, like Deno, installs nothing.
pub proof fn law_other_managers_install_one_way(manager: Seq<char>, has_lockfile: bool)
    ensures
        manager == "PIP"@
            ==> super::installing(manager, has_lockfile) == Some("pip install --no-cache-dir -r requirements.txt"@),
        manager == "POETRY"@
            ==> super::installing(manager, has_lockfile) == Some("poetry install --no-root --only main"@),
        manager == "UV"@ ==> super::installing(manager, has_lockfile) == Some("uv sync --frozen"@),
        manager == "PIPENV"@
            ==> super::installing(manager, has_lockfile) == Some("pipenv install --deploy"@),
        manager == "GO_MODULES"@
            ==> super::installing(manager, has_lockfile) == Some("go mod download"@),
        manager == "CARGO"@
            ==> super::installing(manager, has_lockfile) == Some("cargo fetch --locked"@),
        manager == "MAVEN"@
            ==> super::installing(manager, has_lockfile) == Some("mvn -B dependency:go-offline"@),
        manager == "GRADLE"@
            ==> super::installing(manager, has_lockfile) == Some("gradle --no-daemon dependencies"@),
        manager == "BUNDLER"@
            ==> super::installing(manager, has_lockfile) == Some("bundle install --without development test"@),
        manager == "NUGET"@ ==> super::installing(manager, has_lockfile) == Some("dotnet restore"@),
        manager != "PNPM"@ && manager != "NPM"@ && manager != "YARN"@ && manager != "BUN"@
            && manager != "COMPOSER"@ && manager != "PIP"@ && manager != "POETRY"@
            && manager != "UV"@ && manager != "PIPENV"@ && manager != "GO_MODULES"@
            && manager != "CARGO"@ && manager != "MAVEN"@ && manager != "GRADLE"@
            && manager != "BUNDLER"@ && manager != "NUGET"@
            ==> super::installing(manager, has_lockfile) is None,
        manager == "DENO"@ ==> super::installing(manager, has_lockfile) is None,
{
    managers_differ();
}

/// Each runtime is planned in its own version.
pub proof fn law_a_runtime_is_planned_in_its_version(runtime: Runtime)
    ensures
        runtime is NodeJs || runtime is TypeScript
            ==> super::default_toolset(runtime).runtime_version == "22"@,
        runtime is Bun || runtime is Static || runtime is Polyglot
            ==> super::default_toolset(runtime).runtime_version == "1"@,
        runtime is Deno ==> super::default_toolset(runtime).runtime_version == "2"@,
        runtime is Python ==> super::default_toolset(runtime).runtime_version == "3.12"@,
        runtime is Go ==> super::default_toolset(runtime).runtime_version == "1.23"@,
        runtime is Rust ==> super::default_toolset(runtime).runtime_version == "1.83"@,
        runtime is Java ==> super::default_toolset(runtime).runtime_version == "21"@,
        runtime is Php ==> super::default_toolset(runtime).runtime_version == "8.3"@,
        runtime is Ruby ==> super::default_toolset(runtime).runtime_version == "3.3"@,
        runtime is DotNet ==> super::default_toolset(runtime).runtime_version == "8.0"@,
{
}

/// Each runtime's dependencies are its own manager's.
pub proof fn law_a_runtime_has_its_manager(runtime: Runtime)
    ensures
        runtime is NodeJs || runtime is TypeScript
            ==> super::default_toolset(runtime).package_manager == "NPM"@,
        runtime is Bun ==> super::default_toolset(runtime).package_manager == "BUN"@,
        runtime is Deno ==> super::default_toolset(runtime).package_manager == "DENO"@,
        runtime is Python ==> super::default_toolset(runtime).package_manager == "PIP"@,
        runtime is Go ==> super::default_toolset(runtime).package_manager == "GO_MODULES"@,
        runtime is Rust ==> super::default_toolset(runtime).package_manager == "CARGO"@,
        runtime is Java ==> super::default_toolset(runtime).package_manager == "MAVEN"@,
        runtime is Php ==> super::default_toolset(runtime).package_manager == "COMPOSER"@,
        runtime is Ruby ==> super::default_toolset(runtime).package_manager == "BUNDLER"@,
        runtime is DotNet ==> super::default_toolset(runtime).package_manager == "NUGET"@,
        runtime is Static || runtime is Polyglot
            ==> super::default_toolset(runtime).package_manager == "NONE"@,
{
}

/// Each runtime installs its own way, or not at all.
pub proof fn law_a_runtime_installs_its_own_way(runtime: Runtime)
    ensures
        runtime is NodeJs
            ==> super::default_process(runtime).install_command == Some("npm ci --omit=dev"@),
        runtime is TypeScript
            ==> super::default_process(runtime).install_command == Some("npm ci"@),
        runtime is Bun
            ==> super::default_process(runtime).install_command == Some("bun install --frozen-lockfile"@),
        runtime is Deno || runtime is Static || runtime is Polyglot
            ==> super::default_process(runtime).install_command is None,
        runtime is Python
            ==> super::default_process(runtime).install_command == Some("pip install --no-cache-dir -r requirements.txt"@),
        runtime is Go
            ==> super::default_process(runtime).install_command == Some("go mod download"@),
        runtime is Rust
            ==> super::default_process(runtime).install_command == Some("cargo fetch --locked"@),
        runtime is Java
            ==> super::default_process(runtime).install_command == Some("mvn -B dependency:go-offline"@),
        runtime is Php
            ==> super::default_process(runtime).install_command == Some("composer install --no-dev --no-interaction"@),
        runtime is Ruby
            ==> super::default_process(runtime).install_command == Some("bundle install --without development test"@),
        runtime is DotNet
            ==> super::default_process(runtime).install_command == Some("dotnet restore"@),
{
}

/// A runtime that has to be built is, and no other.
pub proof fn law_a_runtime_builds_its_own_way(runtime: Runtime)
    ensures
        runtime is NodeJs || runtime is Bun || runtime is Deno || runtime is Python
            || runtime is Php || runtime is Ruby || runtime is Static || runtime is Polyglot
            ==> super::default_process(runtime).build_command is None,
        runtime is TypeScript
            ==> super::default_process(runtime).build_command == Some("npm run build"@),
        runtime is Go
            ==> super::default_process(runtime).build_command == Some("go build -o server ./..."@),
        runtime is Rust
            ==> super::default_process(runtime).build_command == Some("cargo build --release --locked"@),
        runtime is Java
            ==> super::default_process(runtime).build_command == Some("mvn -B -DskipTests package"@),
        runtime is DotNet
            ==> super::default_process(runtime).build_command == Some("dotnet publish -c Release -o publish"@),
{
}

/// Each runtime is started its own way.
pub proof fn law_a_runtime_starts_its_own_way(runtime: Runtime)
    ensures
        runtime is NodeJs ==> super::default_process(runtime).command == "node index.js"@,
        runtime is TypeScript ==> super::default_process(runtime).command == "node dist/index.js"@,
        runtime is Bun ==> super::default_process(runtime).command == "bun run index.ts"@,
        runtime is Deno
            ==> super::default_process(runtime).command == "deno run --allow-net --allow-env main.ts"@,
        runtime is Python ==> super::default_process(runtime).command == "python main.py"@,
        runtime is Go ==> super::default_process(runtime).command == "./server"@,
        runtime is Rust
            ==> super::default_process(runtime).command == "cargo run --release --locked"@,
        runtime is Java ==> super::default_process(runtime).command == "java -jar target/app.jar"@,
        runtime is Php ==> super::default_process(runtime).command == "php -S 0.0.0.0:8080 -t ."@,
        runtime is Ruby
            ==> super::default_process(runtime).command == "bundle exec rackup --host 0.0.0.0 --port 8080"@,
        runtime is DotNet ==> super::default_process(runtime).command == "dotnet publish/app.dll"@,
        runtime is Static
            ==> super::default_process(runtime).command == "serve the published directory"@,
        runtime is Polyglot ==> super::default_process(runtime).command == "./start.sh"@,
{
}

/// Each runtime is entered at the file it is usually entered at.
pub proof fn law_a_runtime_is_entered_at_its_file(runtime: Runtime)
    ensures
        runtime is NodeJs ==> super::default_toolset(runtime).entry_file == Some("index.js"@),
        runtime is TypeScript
            ==> super::default_toolset(runtime).entry_file == Some("src/index.ts"@),
        runtime is Bun ==> super::default_toolset(runtime).entry_file == Some("index.ts"@),
        runtime is Deno ==> super::default_toolset(runtime).entry_file == Some("main.ts"@),
        runtime is Python ==> super::default_toolset(runtime).entry_file == Some("main.py"@),
        runtime is Go ==> super::default_toolset(runtime).entry_file == Some("main.go"@),
        runtime is Rust ==> super::default_toolset(runtime).entry_file == Some("src/main.rs"@),
        runtime is Java ==> super::default_toolset(runtime).entry_file == Some("pom.xml"@),
        runtime is Php ==> super::default_toolset(runtime).entry_file == Some("index.php"@),
        runtime is Ruby ==> super::default_toolset(runtime).entry_file == Some("config.ru"@),
        runtime is DotNet || runtime is Static || runtime is Polyglot
            ==> super::default_toolset(runtime).entry_file is None,
{
}

/// Only what is built for the web or served as it is has a directory to publish.
pub proof fn law_only_what_is_built_or_served_is_published(runtime: Runtime)
    ensures
        runtime is NodeJs || runtime is Bun || runtime is Deno || runtime is Python
            || runtime is Go || runtime is Rust || runtime is Java || runtime is Php
            || runtime is Ruby || runtime is DotNet || runtime is Polyglot
            ==> super::default_toolset(runtime).publish_dir is None,
        runtime is TypeScript ==> super::default_toolset(runtime).publish_dir == Some("dist"@),
        runtime is Static ==> super::default_toolset(runtime).publish_dir == Some("public"@),
{
}

/// Each runtime listens on the port it usually listens on.
pub proof fn law_a_runtime_listens_on_its_usual_port(runtime: Runtime)
    ensures
        runtime is NodeJs || runtime is TypeScript || runtime is Bun
            ==> super::defaults(runtime).port == 3000,
        runtime is Deno || runtime is Python ==> super::defaults(runtime).port == 8000,
        runtime is Go || runtime is Rust || runtime is Java || runtime is Php || runtime is Ruby
            || runtime is DotNet || runtime is Static || runtime is Polyglot
            ==> super::defaults(runtime).port == 8080,
{
}

/// Each runtime goes by its own word.
pub proof fn law_a_runtime_is_named_by_its_word(runtime: Runtime)
    ensures
        runtime is NodeJs ==> super::default_toolset(runtime).runtime == "NODEJS"@,
        runtime is TypeScript ==> super::default_toolset(runtime).runtime == "TYPESCRIPT"@,
        runtime is Bun ==> super::default_toolset(runtime).runtime == "BUN"@,
        runtime is Deno ==> super::default_toolset(runtime).runtime == "DENO"@,
        runtime is Python ==> super::default_toolset(runtime).runtime == "PYTHON"@,
        runtime is Go ==> super::default_toolset(runtime).runtime == "GO"@,
        runtime is Rust ==> super::default_toolset(runtime).runtime == "RUST"@,
        runtime is Java ==> super::default_toolset(runtime).runtime == "JAVA"@,
        runtime is Php ==> super::default_toolset(runtime).runtime == "PHP"@,
        runtime is Ruby ==> super::default_toolset(runtime).runtime == "RUBY"@,
        runtime is DotNet ==> super::default_toolset(runtime).runtime == "DOTNET"@,
        runtime is Static ==> super::default_toolset(runtime).runtime == "STATIC"@,
        runtime is Polyglot ==> super::default_toolset(runtime).runtime == "POLYGLOT"@,
        super::default_toolset(runtime).runtime == runtime.word(),
{
}

/// A template goes by the runtime's word in lower case.
pub proof fn law_a_template_is_named_after_its_runtime(runtime: Runtime)
    ensures
        runtime is NodeJs ==> super::default_toolset(runtime).template_id == "nodejs"@,
        runtime is TypeScript ==> super::default_toolset(runtime).template_id == "typescript"@,
        runtime is Bun ==> super::default_toolset(runtime).template_id == "bun"@,
        runtime is Deno ==> super::default_toolset(runtime).template_id == "deno"@,
        runtime is Python ==> super::default_toolset(runtime).template_id == "python"@,
        runtime is Go ==> super::default_toolset(runtime).template_id == "go"@,
        runtime is Rust ==> super::default_toolset(runtime).template_id == "rust"@,
        runtime is Java ==> super::default_toolset(runtime).template_id == "java"@,
        runtime is Php ==> super::default_toolset(runtime).template_id == "php"@,
        runtime is Ruby ==> super::default_toolset(runtime).template_id == "ruby"@,
        runtime is DotNet ==> super::default_toolset(runtime).template_id == "dotnet"@,
        runtime is Static ==> super::default_toolset(runtime).template_id == "static"@,
        runtime is Polyglot ==> super::default_toolset(runtime).template_id == "polyglot"@,
{
    match runtime {
        Runtime::NodeJs => {
            reveal_strlit("NODEJS");
            reveal_strlit("nodejs");
            assert("nodejs"@ =~= crate::text::lowered("NODEJS"@));
        },
        Runtime::TypeScript => {
            reveal_strlit("TYPESCRIPT");
            reveal_strlit("typescript");
            assert("typescript"@ =~= crate::text::lowered("TYPESCRIPT"@));
        },
        Runtime::Bun => {
            reveal_strlit("BUN");
            reveal_strlit("bun");
            assert("bun"@ =~= crate::text::lowered("BUN"@));
        },
        Runtime::Deno => {
            reveal_strlit("DENO");
            reveal_strlit("deno");
            assert("deno"@ =~= crate::text::lowered("DENO"@));
        },
        Runtime::Python => {
            reveal_strlit("PYTHON");
            reveal_strlit("python");
            assert("python"@ =~= crate::text::lowered("PYTHON"@));
        },
        Runtime::Go => {
            reveal_strlit("GO");
            reveal_strlit("go");
            assert("go"@ =~= crate::text::lowered("GO"@));
        },
        Runtime::Rust => {
            reveal_strlit("RUST");
            reveal_strlit("rust");
            assert("rust"@ =~= crate::text::lowered("RUST"@));
        },
        Runtime::Java => {
            reveal_strlit("JAVA");
            reveal_strlit("java");
            assert("java"@ =~= crate::text::lowered("JAVA"@));
        },
        Runtime::Php => {
            reveal_strlit("PHP");
            reveal_strlit("php");
            assert("php"@ =~= crate::text::lowered("PHP"@));
        },
        Runtime::Ruby => {
            reveal_strlit("RUBY");
            reveal_strlit("ruby");
            assert("ruby"@ =~= crate::text::lowered("RUBY"@));
        },
        Runtime::DotNet => {
            reveal_strlit("DOTNET");
            reveal_strlit("dotnet");
            assert("dotnet"@ =~= crate::text::lowered("DOTNET"@));
        },
        Runtime::Static => {
            reveal_strlit("STATIC");
            reveal_strlit("static");
            assert("static"@ =~= crate::text::lowered("STATIC"@));
        },
        Runtime::Polyglot => {
            reveal_strlit("POLYGLOT");
            reveal_strlit("polyglot");
            assert("polyglot"@ =~= crate::text::lowered("POLYGLOT"@));
        },
    }
}

/// Whatever is not named for a process is the same for every runtime: it is
/// called `main`, goes first, runs in the project's own directory and has no
/// health check.
pub proof fn law_a_default_process_is_plain(runtime: Runtime)
    ensures
        plain(super::default_process(runtime)),
{
}

/// Whether a process is the one of a project nobody has said more of.
pub open spec fn plain(process: Planned) -> bool {
    &&& process.name == "main"@
    &&& process.start_order == 0
    &&& process.working_dir == "."@
    &&& process.health_check_type == "NONE"@
    &&& process.health_check_target is None
    &&& process.health_interval_s == 30
    &&& process.health_timeout_s == 5
    &&& process.health_retries == 3
    &&& process.health_start_period_s == 20
}

/// A simple process runs what it is told, where the project is, with nothing to
/// prepare.
pub proof fn law_a_simple_process_only_runs(name: Seq<char>, start_order: i64, command: Seq<char>)
    ensures
        ({
            let process = super::simple_process(name, start_order, command);
            &&& process.name == name
            &&& process.start_order == start_order
            &&& process.command == command
            &&& process.install_command is None
            &&& process.build_command is None
            &&& plain(Planned { name: "main"@, start_order: 0, ..process })
        }),
{
}

/// A plan that was named is that of the first runtime on offer under the name:
/// its own toolchain, its one process, its port and its category, under the
/// name the interface calls it by.
pub proof fn law_a_named_plan_is_the_runtimes_own(offered: Seq<Offered>, at: int)
    requires
        0 <= at < offered.len(),
        forall|i: int|
            0 <= i < at ==> (#[trigger] offered[i]).runtime.word() != offered[at].runtime.word(),
    ensures
        ({
            let runtime = offered[at].runtime;
            let plan = super::named(offered, runtime.word())->Ok_0;
            &&& super::named(offered, runtime.word()) is Ok
            &&& plan.toolset == super::default_toolset(runtime)
            &&& plan.processes == seq![super::default_process(runtime)]
            &&& plan.port == super::defaults(runtime).port
            &&& !plan.detected
            &&& plan.project_type == super::category(runtime)
            &&& plan.languages == seq![offered[at].display_name@]
            &&& plan.notes.len() == 0
        }),
{
    super::first_offered_is_offered(offered, offered[at].runtime.word(), 0);
    let first = super::first_offered(offered, offered[at].runtime.word(), 0);
    if first < at {
        assert(offered[first].runtime.word() == offered[at].runtime.word());
    }
}

/// Whether a project declares a script of that name.
pub open spec fn declares(detection: Detection, name: Seq<char>) -> bool {
    exists|i: int| 0 <= i < detection.scripts@.len() && (#[trigger] detection.scripts@[i]).0 == name
}

/// A suggested command that names a script is run by that name through the
/// package manager, and any other is taken as it is.
pub open spec fn follows(command: Seq<char>, detection: Detection, suggested: Seq<char>) -> bool {
    if declares(detection, suggested) {
        command == super::script_run(detection.package_manager@, suggested)
    } else {
        command == suggested
    }
}

/// A detected plan follows the evidence: the start and the build that were
/// suggested, each run by name where it is a script; the entry file and the
/// directory that were suggested; the manager that was found, and its way to
/// install with or without a lockfile.
pub proof fn law_a_detected_plan_follows_the_evidence(
    offered: Seq<Offered>,
    detection: Detection,
)
    requires
        detection.errors@.len() == 0,
    ensures
        ({
            let plan = super::looked_at(offered, detection, None)->Ok_0;
            &&& super::looked_at(offered, detection, None) is Ok
            &&& plan.processes.len() == 1
            &&& plan.detected
            &&& plan.toolset.package_manager == detection.package_manager@
            &&& plan.processes[0].install_command == super::installing(
                detection.package_manager@,
                detection.has_lockfile,
            )
            &&& detection.suggested_start is Some ==> follows(
                plan.processes[0].command,
                detection,
                detection.suggested_start->0@,
            )
            &&& detection.suggested_build_command is Some ==> plan.processes[0].build_command
                is Some && follows(
                plan.processes[0].build_command->0,
                detection,
                detection.suggested_build_command->0@,
            )
            &&& detection.suggested_entry_file is Some ==> plan.toolset.entry_file == Some(
                detection.suggested_entry_file->0@,
            )
            &&& detection.suggested_publish_dir is Some ==> plan.toolset.publish_dir == Some(
                detection.suggested_publish_dir->0@,
            )
        }),
{
}

/// Where detection has nothing to say, a detected plan is the one of the
/// runtime it found.
pub proof fn law_no_evidence_leaves_the_defaults(offered: Seq<Offered>, detection: Detection)
    requires
        detection.errors@.len() == 0,
    ensures
        ({
            let plan = super::looked_at(offered, detection, None)->Ok_0;
            let runtime = detection.runtime;
            &&& plan.toolset.runtime == runtime.word()
            &&& plan.toolset.runtime_version == super::default_toolset(runtime).runtime_version
            &&& plan.toolset.template_id == super::default_toolset(runtime).template_id
            &&& plan.port == super::defaults(runtime).port
            &&& plan.project_type == super::category(runtime)
            &&& plain(plan.processes[0])
            &&& detection.suggested_start is None ==> plan.processes[0].command
                == super::default_process(runtime).command
            &&& detection.suggested_build_command is None ==> plan.processes[0].build_command
                == super::default_process(runtime).build_command
            &&& detection.suggested_entry_file is None ==> plan.toolset.entry_file
                == super::default_toolset(runtime).entry_file
            &&& detection.suggested_publish_dir is None ==> plan.toolset.publish_dir
                == super::default_toolset(runtime).publish_dir
        }),
{
}

/// What detection says of the tree is reported word for word, whether or not a
/// runtime was named over it.
pub proof fn law_the_advice_is_reported(
    offered: Seq<Offered>,
    detection: Detection,
    override_runtime: Option<Seq<char>>,
)
    requires
        super::looked_at(offered, detection, override_runtime) is Ok,
    ensures
        ({
            let plan = super::looked_at(offered, detection, override_runtime)->Ok_0;
            &&& plan.languages.len() == detection.languages@.len()
            &&& forall|i: int|
                0 <= i < detection.languages@.len() ==> #[trigger] plan.languages[i]
                    == detection.languages@[i]@
            &&& plan.notes.len() == detection.warnings@.len()
            &&& forall|i: int|
                0 <= i < detection.warnings@.len() ==> #[trigger] plan.notes[i]
                    == detection.warnings@[i]@
        }),
{
}

/// A runtime that was named is planned as if nobody had looked at the tree: its
/// toolchain, process, port and category owe nothing to detection.
pub proof fn law_a_named_runtime_is_not_argued_with(
    offered: Seq<Offered>,
    detection: Detection,
    word: Seq<char>,
)
    ensures
        super::named(offered, word) is Err ==> super::looked_at(offered, detection, Some(word))
            == super::named(offered, word),
        super::named(offered, word) is Ok ==> ({
            let plan = super::looked_at(offered, detection, Some(word))->Ok_0;
            let own = super::named(offered, word)->Ok_0;
            &&& super::looked_at(offered, detection, Some(word)) is Ok
            &&& plan.toolset == own.toolset
            &&& plan.processes == own.processes
            &&& plan.port == own.port
            &&& plan.project_type == own.project_type
            &&& !plan.detected
        }),
{
}

/// A category is what the runtime makes of it and nothing more.
pub proof fn law_a_category_follows_the_runtime(runtime: Runtime)
    ensures
        runtime is NodeJs || runtime is TypeScript || runtime is Bun || runtime is Deno
            <==> super::category(runtime) is NodeApp,
        runtime is Python <==> super::category(runtime) is PythonApp,
        runtime is Static <==> super::category(runtime) is StaticSite,
        runtime is Go || runtime is Rust || runtime is Java || runtime is Php || runtime is Ruby
            || runtime is DotNet || runtime is Polyglot <==> super::category(runtime) is Service,
{
}

/// A category is written by its own word.
pub proof fn law_a_category_is_written_by_its_word(kind: super::ProjectType)
    ensures
        kind is DiscordBot ==> kind.word() == "DISCORD_BOT"@,
        kind is NodeApp ==> kind.word() == "NODE_APP"@,
        kind is PythonApp ==> kind.word() == "PYTHON_APP"@,
        kind is Website ==> kind.word() == "WEBSITE"@,
        kind is StaticSite ==> kind.word() == "STATIC_SITE"@,
        kind is RestApi ==> kind.word() == "REST_API"@,
        kind is Worker ==> kind.word() == "WORKER"@,
        kind is Service ==> kind.word() == "SERVICE"@,
{
}

/// A refusal says why: in detection's own words, or by the name that is not on
/// offer.
pub proof fn law_a_refusal_says_why(error: Unplanned)
    ensures
        match error {
            Unplanned::Undetermined(message) => error.text() == message,
            Unplanned::UnknownRuntime(runtime) => error.text() == "`"@ + runtime
                + "` is not a runtime this build offers"@,
        },
{
}

/// A plan is read as it is written: nothing of a toolchain or a process is
/// lost.
pub proof fn law_a_plan_is_read_whole(plan: super::RuntimePlan, at: int)
    requires
        0 <= at < plan.processes@.len(),
    ensures
        plan@.port == plan.port,
        plan@.detected == plan.detected,
        plan@.project_type == plan.project_type,
        plan@.processes.len() == plan.processes@.len(),
        plan@.languages.len() == plan.languages@.len(),
        plan@.notes.len() == plan.notes@.len(),
        forall|i: int|
            0 <= i < plan.languages@.len() ==> #[trigger] plan@.languages[i]
                == plan.languages@[i]@,
        forall|i: int|
            0 <= i < plan.notes@.len() ==> #[trigger] plan@.notes[i] == plan.notes@[i]@,
        ({
            let process = plan.processes@[at];
            let seen = plan@.processes[at];
            &&& seen.name == process.name@
            &&& seen.start_order == process.start_order
            &&& seen.command == process.command@
            &&& seen.working_dir == process.working_dir@
            &&& process.install_command is Some <==> seen.install_command is Some
            &&& process.install_command is Some ==> seen.install_command->0
                == process.install_command->0@
            &&& process.build_command is Some <==> seen.build_command is Some
            &&& process.build_command is Some ==> seen.build_command->0
                == process.build_command->0@
            &&& seen.health_check_type == process.health_check_type@
            &&& process.health_check_target is Some <==> seen.health_check_target is Some
            &&& process.health_check_target is Some ==> seen.health_check_target->0
                == process.health_check_target->0@
            &&& seen.health_interval_s == process.health_interval_s
            &&& seen.health_timeout_s == process.health_timeout_s
            &&& seen.health_retries == process.health_retries
            &&& seen.health_start_period_s == process.health_start_period_s
        }),
        ({
            let tools = plan.spec;
            let seen: Toolset = plan@.toolset;
            &&& seen.runtime == tools.runtime@
            &&& seen.runtime_version == tools.runtime_version@
            &&& seen.package_manager == tools.package_manager@
            &&& seen.template_id == tools.template_id@
            &&& tools.entry_file is Some <==> seen.entry_file is Some
            &&& tools.entry_file is Some ==> seen.entry_file->0 == tools.entry_file->0@
            &&& tools.publish_dir is Some <==> seen.publish_dir is Some
            &&& tools.publish_dir is Some ==> seen.publish_dir->0 == tools.publish_dir->0@
        }),
{
}

/// What planning came to is passed on, and so is why it came to nothing.
pub proof fn law_what_planning_came_to_is_passed_on(
    result: Result<super::RuntimePlan, super::PlanError>,
)
    ensures
        match result {
            Ok(plan) => super::planned(result) == Ok::<super::Plan, Unplanned>(plan@),
            Err(super::PlanError::Undetermined(message)) => super::planned(result) == Err::<
                super::Plan,
                Unplanned,
            >(Unplanned::Undetermined(message@)),
            Err(super::PlanError::UnknownRuntime(runtime)) => super::planned(result) == Err::<
                super::Plan,
                Unplanned,
            >(Unplanned::UnknownRuntime(runtime@)),
        },
{
}

} // verus!
