//! Where the default commands of a runtime may point.

use super::Runtime;
use vstd::prelude::*;

verus! {

/// Whether a word of a command begins at a position.
pub open spec fn word_begins(command: Seq<char>, at: int) -> bool {
    at == 0 || crate::text::space(command[at - 1])
}

/// Whether `/app` stands at a position: the directory a container image would
/// have been built into, and one that no host has.
pub open spec fn image_path(command: Seq<char>, at: int) -> bool {
    &&& 0 <= at
    &&& at + 4 <= command.len()
    &&& command[at] == '/'
    &&& command[at + 1] == 'a'
    &&& command[at + 2] == 'p'
    &&& command[at + 3] == 'p'
}

/// Whether a command can run on a host: none of its words begins with a path
/// inside an image. A path of the project that merely goes on with the same
/// letters, such as `target/app.jar`, is no such word.
pub open spec fn runs_on_a_host(command: Seq<char>) -> bool {
    forall|at: int| #[trigger] image_path(command, at) ==> !word_begins(command, at)
}

spec fn clear_from(command: Seq<char>, from: int) -> bool
    decreases command.len() - from,
{
    from >= command.len() || (!(image_path(command, from) && word_begins(command, from))
        && clear_from(command, from + 1))
}

proof fn clear_everywhere(command: Seq<char>, from: int)
    requires
        clear_from(command, from),
    ensures
        forall|at: int|
            from <= at && #[trigger] image_path(command, at) ==> !word_begins(command, at),
    decreases command.len() - from,
{
    if from < command.len() {
        clear_everywhere(command, from + 1);
    }
}

proof fn commands_of_node_js()
    ensures
        runs_on_a_host("npm ci --omit=dev"@),
        runs_on_a_host("node index.js"@),
{
    assert(runs_on_a_host("npm ci --omit=dev"@)) by {
        reveal_strlit("npm ci --omit=dev");
        reveal_with_fuel(clear_from, 18);
        clear_everywhere("npm ci --omit=dev"@, 0);
    }
    assert(runs_on_a_host("node index.js"@)) by {
        reveal_strlit("node index.js");
        reveal_with_fuel(clear_from, 14);
        clear_everywhere("node index.js"@, 0);
    }
}

proof fn commands_of_type_script()
    ensures
        runs_on_a_host("npm ci"@),
        runs_on_a_host("npm run build"@),
        runs_on_a_host("node dist/index.js"@),
{
    assert(runs_on_a_host("npm ci"@)) by {
        reveal_strlit("npm ci");
        reveal_with_fuel(clear_from, 7);
        clear_everywhere("npm ci"@, 0);
    }
    assert(runs_on_a_host("npm run build"@)) by {
        reveal_strlit("npm run build");
        reveal_with_fuel(clear_from, 14);
        clear_everywhere("npm run build"@, 0);
    }
    assert(runs_on_a_host("node dist/index.js"@)) by {
        reveal_strlit("node dist/index.js");
        reveal_with_fuel(clear_from, 19);
        clear_everywhere("node dist/index.js"@, 0);
    }
}

proof fn commands_of_bun()
    ensures
        runs_on_a_host("bun install --frozen-lockfile"@),
        runs_on_a_host("bun run index.ts"@),
{
    assert(runs_on_a_host("bun install --frozen-lockfile"@)) by {
        reveal_strlit("bun install --frozen-lockfile");
        reveal_with_fuel(clear_from, 30);
        clear_everywhere("bun install --frozen-lockfile"@, 0);
    }
    assert(runs_on_a_host("bun run index.ts"@)) by {
        reveal_strlit("bun run index.ts");
        reveal_with_fuel(clear_from, 17);
        clear_everywhere("bun run index.ts"@, 0);
    }
}

proof fn commands_of_deno()
    ensures
        runs_on_a_host("deno run --allow-net --allow-env main.ts"@),
{
    assert(runs_on_a_host("deno run --allow-net --allow-env main.ts"@)) by {
        reveal_strlit("deno run --allow-net --allow-env main.ts");
        reveal_with_fuel(clear_from, 41);
        clear_everywhere("deno run --allow-net --allow-env main.ts"@, 0);
    }
}

proof fn commands_of_python()
    ensures
        runs_on_a_host("pip install --no-cache-dir -r requirements.txt"@),
        runs_on_a_host("python main.py"@),
{
    assert(runs_on_a_host("pip install --no-cache-dir -r requirements.txt"@)) by {
        reveal_strlit("pip install --no-cache-dir -r requirements.txt");
        reveal_with_fuel(clear_from, 47);
        clear_everywhere("pip install --no-cache-dir -r requirements.txt"@, 0);
    }
    assert(runs_on_a_host("python main.py"@)) by {
        reveal_strlit("python main.py");
        reveal_with_fuel(clear_from, 15);
        clear_everywhere("python main.py"@, 0);
    }
}

proof fn commands_of_go()
    ensures
        runs_on_a_host("go mod download"@),
        runs_on_a_host("go build -o server ./..."@),
        runs_on_a_host("./server"@),
{
    assert(runs_on_a_host("go mod download"@)) by {
        reveal_strlit("go mod download");
        reveal_with_fuel(clear_from, 16);
        clear_everywhere("go mod download"@, 0);
    }
    assert(runs_on_a_host("go build -o server ./..."@)) by {
        reveal_strlit("go build -o server ./...");
        reveal_with_fuel(clear_from, 25);
        clear_everywhere("go build -o server ./..."@, 0);
    }
    assert(runs_on_a_host("./server"@)) by {
        reveal_strlit("./server");
        reveal_with_fuel(clear_from, 9);
        clear_everywhere("./server"@, 0);
    }
}

proof fn commands_of_rust()
    ensures
        runs_on_a_host("cargo fetch --locked"@),
        runs_on_a_host("cargo build --release --locked"@),
        runs_on_a_host("cargo run --release --locked"@),
{
    assert(runs_on_a_host("cargo fetch --locked"@)) by {
        reveal_strlit("cargo fetch --locked");
        reveal_with_fuel(clear_from, 21);
        clear_everywhere("cargo fetch --locked"@, 0);
    }
    assert(runs_on_a_host("cargo build --release --locked"@)) by {
        reveal_strlit("cargo build --release --locked");
        reveal_with_fuel(clear_from, 31);
        clear_everywhere("cargo build --release --locked"@, 0);
    }
    assert(runs_on_a_host("cargo run --release --locked"@)) by {
        reveal_strlit("cargo run --release --locked");
        reveal_with_fuel(clear_from, 29);
        clear_everywhere("cargo run --release --locked"@, 0);
    }
}

proof fn commands_of_java()
    ensures
        runs_on_a_host("mvn -B dependency:go-offline"@),
        runs_on_a_host("mvn -B -DskipTests package"@),
        runs_on_a_host("java -jar target/app.jar"@),
{
    assert(runs_on_a_host("mvn -B dependency:go-offline"@)) by {
        reveal_strlit("mvn -B dependency:go-offline");
        reveal_with_fuel(clear_from, 29);
        clear_everywhere("mvn -B dependency:go-offline"@, 0);
    }
    assert(runs_on_a_host("mvn -B -DskipTests package"@)) by {
        reveal_strlit("mvn -B -DskipTests package");
        reveal_with_fuel(clear_from, 27);
        clear_everywhere("mvn -B -DskipTests package"@, 0);
    }
    assert(runs_on_a_host("java -jar target/app.jar"@)) by {
        reveal_strlit("java -jar target/app.jar");
        reveal_with_fuel(clear_from, 25);
        clear_everywhere("java -jar target/app.jar"@, 0);
    }
}

proof fn commands_of_php()
    ensures
        runs_on_a_host("composer install --no-dev --no-interaction"@),
        runs_on_a_host("php -S 0.0.0.0:8080 -t ."@),
{
    assert(runs_on_a_host("composer install --no-dev --no-interaction"@)) by {
        reveal_strlit("composer install --no-dev --no-interaction");
        reveal_with_fuel(clear_from, 43);
        clear_everywhere("composer install --no-dev --no-interaction"@, 0);
    }
    assert(runs_on_a_host("php -S 0.0.0.0:8080 -t ."@)) by {
        reveal_strlit("php -S 0.0.0.0:8080 -t .");
        reveal_with_fuel(clear_from, 25);
        clear_everywhere("php -S 0.0.0.0:8080 -t ."@, 0);
    }
}

proof fn commands_of_ruby()
    ensures
        runs_on_a_host("bundle install --without development test"@),
        runs_on_a_host("bundle exec rackup --host 0.0.0.0 --port 8080"@),
{
    assert(runs_on_a_host("bundle install --without development test"@)) by {
        reveal_strlit("bundle install --without development test");
        reveal_with_fuel(clear_from, 42);
        clear_everywhere("bundle install --without development test"@, 0);
    }
    assert(runs_on_a_host("bundle exec rackup --host 0.0.0.0 --port 8080"@)) by {
        reveal_strlit("bundle exec rackup --host 0.0.0.0 --port 8080");
        reveal_with_fuel(clear_from, 46);
        clear_everywhere("bundle exec rackup --host 0.0.0.0 --port 8080"@, 0);
    }
}

proof fn commands_of_dot_net()
    ensures
        runs_on_a_host("dotnet restore"@),
        runs_on_a_host("dotnet publish -c Release -o publish"@),
        runs_on_a_host("dotnet publish/app.dll"@),
{
    assert(runs_on_a_host("dotnet restore"@)) by {
        reveal_strlit("dotnet restore");
        reveal_with_fuel(clear_from, 15);
        clear_everywhere("dotnet restore"@, 0);
    }
    assert(runs_on_a_host("dotnet publish -c Release -o publish"@)) by {
        reveal_strlit("dotnet publish -c Release -o publish");
        reveal_with_fuel(clear_from, 37);
        clear_everywhere("dotnet publish -c Release -o publish"@, 0);
    }
    assert(runs_on_a_host("dotnet publish/app.dll"@)) by {
        reveal_strlit("dotnet publish/app.dll");
        reveal_with_fuel(clear_from, 23);
        clear_everywhere("dotnet publish/app.dll"@, 0);
    }
}

proof fn commands_of_static()
    ensures
        runs_on_a_host("serve the published directory"@),
{
    assert(runs_on_a_host("serve the published directory"@)) by {
        reveal_strlit("serve the published directory");
        reveal_with_fuel(clear_from, 30);
        clear_everywhere("serve the published directory"@, 0);
    }
}

proof fn commands_of_polyglot()
    ensures
        runs_on_a_host("./start.sh"@),
{
    assert(runs_on_a_host("./start.sh"@)) by {
        reveal_strlit("./start.sh");
        reveal_with_fuel(clear_from, 11);
        clear_everywhere("./start.sh"@, 0);
    }
}

/// No default command names a path inside an image, so a plan made for any
/// runtime can build and start on a host.
pub proof fn law_no_default_command_names_an_image_path(runtime: Runtime)
    ensures
        runs_on_a_host(super::default_process(runtime).command),
        super::default_process(runtime).install_command matches Some(command) ==> runs_on_a_host(
            command,
        ),
        super::default_process(runtime).build_command matches Some(command) ==> runs_on_a_host(
            command,
        ),
{
    match runtime {
        Runtime::NodeJs => commands_of_node_js(),
        Runtime::TypeScript => commands_of_type_script(),
        Runtime::Bun => commands_of_bun(),
        Runtime::Deno => commands_of_deno(),
        Runtime::Python => commands_of_python(),
        Runtime::Go => commands_of_go(),
        Runtime::Rust => commands_of_rust(),
        Runtime::Java => commands_of_java(),
        Runtime::Php => commands_of_php(),
        Runtime::Ruby => commands_of_ruby(),
        Runtime::DotNet => commands_of_dot_net(),
        Runtime::Static => commands_of_static(),
        Runtime::Polyglot => commands_of_polyglot(),
    }
}

} // verus!
