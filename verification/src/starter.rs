//! The files a genuinely empty project starts life with.
//!
//! Nothing here touches the disk, and [`scaffold`] never names a file that
//! already exists: once a project exists, its files belong to the user.

pub mod laws;

use crate::text::same;
use vstd::prelude::*;

verus! {

pub const HELLO_SCRIPT: &'static str = "console.log('Hello from Panel Platform');\n";

pub const NODEJS_PACKAGE_JSON: &'static str = "{\n  \"name\": \"project\",\n  \"private\": true,\n  \"version\": \"1.0.0\",\n  \"main\": \"index.js\"\n}\n";

pub const TYPESCRIPT_PACKAGE_JSON: &'static str = "{\n  \"name\": \"project\",\n  \"private\": true,\n  \"version\": \"1.0.0\",\n  \"scripts\": {\n    \"build\": \"tsc\",\n    \"start\": \"node dist/index.js\"\n  }\n}\n";

pub const TYPESCRIPT_TSCONFIG_JSON: &'static str = "{\n  \"compilerOptions\": {\n    \"target\": \"ES2022\",\n    \"module\": \"NodeNext\",\n    \"outDir\": \"dist\",\n    \"strict\": true\n  },\n  \"include\": [\"src\"]\n}\n";

pub const BUN_BUNFIG_TOML: &'static str = "# Bun configuration.\n";

pub const BUN_PACKAGE_JSON: &'static str = "{\n  \"name\": \"project\",\n  \"private\": true,\n  \"version\": \"1.0.0\"\n}\n";

pub const DENO_DENO_JSON: &'static str = "{\n  \"tasks\": {}\n}\n";

pub const PYTHON_MAIN_PY: &'static str = "print('Hello from Panel Platform', flush=True)\n";

pub const NOTHING: &'static str = "";

pub const GO_MAIN_GO: &'static str = "package main\n\nimport \"fmt\"\n\nfunc main() {\n\tfmt.Println(\"Hello from Panel Platform\")\n}\n";

pub const GO_GO_MOD: &'static str = "module project\n\ngo 1.23\n";

pub const RUST_MAIN_RS: &'static str = "fn main() {\n    println!(\"Hello from Panel Platform\");\n}\n";

pub const RUST_CARGO_TOML: &'static str = "[package]\nname = \"project\"\nversion = \"0.1.0\"\nedition = \"2021\"\n";

pub const JAVA_MAIN_JAVA: &'static str = "public class Main {\n    public static void main(String[] args) {\n        System.out.println(\"Hello from Panel Platform\");\n    }\n}\n";

pub const JAVA_POM_XML: &'static str = "<?xml version=\"1.0\" encoding=\"UTF-8\"?>\n<project xmlns=\"http://maven.apache.org/POM/4.0.0\">\n  <modelVersion>4.0.0</modelVersion>\n  <groupId>platform.panel</groupId>\n  <artifactId>project</artifactId>\n  <version>1.0.0</version>\n  <properties>\n    <maven.compiler.release>21</maven.compiler.release>\n  </properties>\n</project>\n";

pub const PHP_INDEX_PHP: &'static str = "<?php\n\necho \"Hello from Panel Platform\\n\";\n";

pub const RUBY_APP_RB: &'static str = "puts 'Hello from Panel Platform'\n";

pub const RUBY_GEMFILE: &'static str = "source 'https://rubygems.org'\n";

pub const DOTNET_PROGRAM_CS: &'static str = "System.Console.WriteLine(\"Hello from Panel Platform\");\n";

pub const DOTNET_APP_CSPROJ: &'static str = "<Project Sdk=\"Microsoft.NET.Sdk\">\n  <PropertyGroup>\n    <OutputType>Exe</OutputType>\n    <TargetFramework>net8.0</TargetFramework>\n  </PropertyGroup>\n</Project>\n";

pub const STATIC_INDEX_HTML: &'static str = "<!doctype html>\n<html lang=\"en\">\n  <head>\n    <meta charset=\"utf-8\" />\n    <title>Panel Platform</title>\n  </head>\n  <body>\n    <h1>It works</h1>\n  </body>\n</html>\n";

/// The "hello world" a genuinely empty project of a runtime needs, as paths and
/// contents. Nothing for a runtime that is not known, and nothing for a
/// polyglot project, which by definition already has files in more than one
/// language.
pub open spec fn starters(runtime: Seq<char>) -> Seq<(Seq<char>, Seq<char>)> {
    if runtime == "NODEJS"@ {
        seq![("index.js"@, HELLO_SCRIPT@), ("package.json"@, NODEJS_PACKAGE_JSON@)]
    } else if runtime == "TYPESCRIPT"@ {
        seq![("src/index.ts"@, HELLO_SCRIPT@), ("package.json"@, TYPESCRIPT_PACKAGE_JSON@), ("tsconfig.json"@, TYPESCRIPT_TSCONFIG_JSON@)]
    } else if runtime == "BUN"@ {
        seq![("index.ts"@, HELLO_SCRIPT@), ("bunfig.toml"@, BUN_BUNFIG_TOML@), ("package.json"@, BUN_PACKAGE_JSON@)]
    } else if runtime == "DENO"@ {
        seq![("main.ts"@, HELLO_SCRIPT@), ("deno.json"@, DENO_DENO_JSON@)]
    } else if runtime == "PYTHON"@ {
        seq![("main.py"@, PYTHON_MAIN_PY@), ("requirements.txt"@, NOTHING@)]
    } else if runtime == "GO"@ {
        seq![("main.go"@, GO_MAIN_GO@), ("go.mod"@, GO_GO_MOD@)]
    } else if runtime == "RUST"@ {
        seq![("src/main.rs"@, RUST_MAIN_RS@), ("Cargo.toml"@, RUST_CARGO_TOML@)]
    } else if runtime == "JAVA"@ {
        seq![("src/main/java/Main.java"@, JAVA_MAIN_JAVA@), ("pom.xml"@, JAVA_POM_XML@)]
    } else if runtime == "PHP"@ {
        seq![("index.php"@, PHP_INDEX_PHP@)]
    } else if runtime == "RUBY"@ {
        seq![("app.rb"@, RUBY_APP_RB@), ("Gemfile"@, RUBY_GEMFILE@)]
    } else if runtime == "DOTNET"@ {
        seq![("Program.cs"@, DOTNET_PROGRAM_CS@), ("app.csproj"@, DOTNET_APP_CSPROJ@)]
    } else if runtime == "STATIC"@ {
        seq![("public/index.html"@, STATIC_INDEX_HTML@)]
    } else {
        Seq::empty()
    }
}

/// Paths and contents as mathematical values.
pub open spec fn files(list: Seq<(&'static str, &'static str)>) -> Seq<(Seq<char>, Seq<char>)> {
    list.map_values(|file: (&'static str, &'static str)| (file.0@, file.1@))
}

/// The "hello world" a genuinely empty project needs, as paths and contents.
///
/// Only ever written when absent, so a fetched repository never receives any of
/// it: its own files are already there.
pub fn starter_files(runtime: &str) -> (list: Vec<(&'static str, &'static str)>)
    ensures
        files(list@) == starters(runtime@),
{
    let mut list: Vec<(&'static str, &'static str)> = Vec::new();
    if same(runtime, "NODEJS") {
        list.push(("index.js", HELLO_SCRIPT));
        list.push(("package.json", NODEJS_PACKAGE_JSON));
    } else if same(runtime, "TYPESCRIPT") {
        list.push(("src/index.ts", HELLO_SCRIPT));
        list.push(("package.json", TYPESCRIPT_PACKAGE_JSON));
        list.push(("tsconfig.json", TYPESCRIPT_TSCONFIG_JSON));
    } else if same(runtime, "BUN") {
        list.push(("index.ts", HELLO_SCRIPT));
        // What makes this a Bun project rather than a Node one, and detection
        // reads it back to decide the runtime.
        list.push(("bunfig.toml", BUN_BUNFIG_TOML));
        list.push(("package.json", BUN_PACKAGE_JSON));
    } else if same(runtime, "DENO") {
        list.push(("main.ts", HELLO_SCRIPT));
        list.push(("deno.json", DENO_DENO_JSON));
    } else if same(runtime, "PYTHON") {
        list.push(("main.py", PYTHON_MAIN_PY));
        list.push(("requirements.txt", NOTHING));
    } else if same(runtime, "GO") {
        list.push(("main.go", GO_MAIN_GO));
        list.push(("go.mod", GO_GO_MOD));
    } else if same(runtime, "RUST") {
        list.push(("src/main.rs", RUST_MAIN_RS));
        list.push(("Cargo.toml", RUST_CARGO_TOML));
    } else if same(runtime, "JAVA") {
        list.push(("src/main/java/Main.java", JAVA_MAIN_JAVA));
        // Without a build file this is a directory of Java source, and
        // detection would not call it a Java project at all.
        list.push(("pom.xml", JAVA_POM_XML));
    } else if same(runtime, "PHP") {
        list.push(("index.php", PHP_INDEX_PHP));
    } else if same(runtime, "RUBY") {
        list.push(("app.rb", RUBY_APP_RB));
        list.push(("Gemfile", RUBY_GEMFILE));
    } else if same(runtime, "DOTNET") {
        list.push(("Program.cs", DOTNET_PROGRAM_CS));
        // The project file is the marker, and its stem becomes the assembly
        // name the start command expects.
        list.push(("app.csproj", DOTNET_APP_CSPROJ));
    } else if same(runtime, "STATIC") {
        list.push(("public/index.html", STATIC_INDEX_HTML));
    }
    assert(files(list@) =~= starters(runtime@));
    list
}

/// The files that are not there yet.
pub open spec fn absent(list: Seq<(Seq<char>, Seq<char>)>, present: Seq<Seq<char>>) -> Seq<
    (Seq<char>, Seq<char>),
> {
    list.filter(|file: (Seq<char>, Seq<char>)| !present.contains(file.0))
}

fn is_present(path: &str, present: &Vec<String>) -> (found: bool)
    ensures
        found == crate::text::texts(present@).contains(path@),
{
    let mut index: usize = 0;
    while index < present.len()
        invariant
            index <= present@.len(),
            forall|i: int| 0 <= i < index ==> crate::text::texts(present@)[i] != path@,
        decreases present@.len() - index,
    {
        if same(present[index].as_str(), path) {
            assert(crate::text::texts(present@)[index as int] == path@);
            return true;
        }
        index += 1;
    }
    false
}

/// The starter files to write into a project's directory: those of its runtime
/// that are not already `present`.
///
/// Never one that is: a scaffold that clobbered an edited file on every start
/// would be a data-loss bug wearing a convenience hat. That is also what makes
/// this safe to ask for a fetched repository.
pub fn scaffold(runtime: &str, present: &Vec<String>) -> (missing: Vec<
    (&'static str, &'static str),
>)
    ensures
        files(missing@) == absent(starters(runtime@), crate::text::texts(present@)),
{
    let list = starter_files(runtime);
    let ghost there = crate::text::texts(present@);
    let ghost kept = |file: (Seq<char>, Seq<char>)| !there.contains(file.0);
    let mut missing: Vec<(&'static str, &'static str)> = Vec::new();
    let mut index: usize = 0;
    assert(files(list@).take(0) =~= Seq::empty());
    assert(files(missing@) =~= Seq::empty());
    while index < list.len()
        invariant
            index <= list@.len(),
            there == crate::text::texts(present@),
            kept == (|file: (Seq<char>, Seq<char>)| !there.contains(file.0)),
            files(missing@) == files(list@).take(index as int).filter(kept),
        decreases list@.len() - index,
    {
        let ghost all = files(list@);
        let ghost earlier = files(missing@);
        assert(all.take(index + 1).drop_last() =~= all.take(index as int));
        proof {
            reveal(Seq::filter);
        }
        let file = list[index];
        if !is_present(file.0, present) {
            missing.push(file);
            assert(files(missing@) =~= earlier.push(all[index as int]));
        }
        index += 1;
    }
    assert(files(list@).take(list@.len() as int) =~= files(list@));
    missing
}

/// A scaffold never names a file that is already there, and names every
/// starter file that is not.
pub proof fn law_a_scaffold_never_overwrites(
    runtime: Seq<char>,
    present: Seq<Seq<char>>,
    path: Seq<char>,
    contents: Seq<char>,
)
    ensures
        absent(starters(runtime), present).contains((path, contents)) <==> starters(
            runtime,
        ).contains((path, contents)) && !present.contains(path),
{
    let kept = |file: (Seq<char>, Seq<char>)| !present.contains(file.0);
    let all = starters(runtime);
    let missing = all.filter(kept);
    if missing.contains((path, contents)) {
        let i = choose|i: int| 0 <= i < missing.len() && missing[i] == (path, contents);
        all.lemma_filter_pred(kept, i);
        all.lemma_filter_contains_rev(kept, (path, contents));
    }
    if all.contains((path, contents)) && !present.contains(path) {
        let i = choose|i: int| 0 <= i < all.len() && all[i] == (path, contents);
        all.lemma_filter_contains(kept, i);
    }
}

/// Every runtime but the polyglot one gets something to run.
pub proof fn law_only_a_polyglot_project_starts_empty(runtime: crate::runtime_plan::Runtime)
    ensures
        starters(runtime.word()).len() == 0 <==> runtime is Polyglot,
{
    reveal_strlit("POLYGLOT");
    reveal_strlit("NODEJS");
    reveal_strlit("TYPESCRIPT");
    reveal_strlit("BUN");
    reveal_strlit("DENO");
    reveal_strlit("PYTHON");
    reveal_strlit("GO");
    reveal_strlit("RUST");
    reveal_strlit("JAVA");
    reveal_strlit("PHP");
    reveal_strlit("RUBY");
    reveal_strlit("DOTNET");
    reveal_strlit("STATIC");
    assert("POLYGLOT"@.len() == 8);
    assert("NODEJS"@.len() == 6 && "TYPESCRIPT"@.len() == 10 && "BUN"@.len() == 3);
    assert("DENO"@.len() == 4 && "PYTHON"@.len() == 6 && "GO"@.len() == 2 && "RUST"@.len() == 4);
    assert("JAVA"@.len() == 4 && "PHP"@.len() == 3 && "RUBY"@.len() == 4);
    assert("DOTNET"@.len() == 6 && "STATIC"@.len() == 6);
}

/// No project is given a `Dockerfile`, and no starter file is named by a path
/// that begins at the root.
pub proof fn law_no_starter_file_is_a_dockerfile(runtime: Seq<char>, at: int)
    requires
        0 <= at < starters(runtime).len(),
    ensures
        starters(runtime)[at].0 != "Dockerfile"@,
        starters(runtime)[at].0.len() > 0,
        starters(runtime)[at].0[0] != '/',
{
    reveal_strlit("Dockerfile");
    assert("Dockerfile"@[0] == 'D');
    reveal_strlit("index.js");
    reveal_strlit("package.json");
    reveal_strlit("src/index.ts");
    reveal_strlit("tsconfig.json");
    reveal_strlit("index.ts");
    reveal_strlit("bunfig.toml");
    reveal_strlit("main.ts");
    reveal_strlit("deno.json");
    reveal_strlit("main.py");
    reveal_strlit("requirements.txt");
    reveal_strlit("main.go");
    reveal_strlit("go.mod");
    reveal_strlit("src/main.rs");
    reveal_strlit("Cargo.toml");
    reveal_strlit("src/main/java/Main.java");
    reveal_strlit("pom.xml");
    reveal_strlit("index.php");
    reveal_strlit("app.rb");
    reveal_strlit("Gemfile");
    reveal_strlit("Program.cs");
    reveal_strlit("app.csproj");
    reveal_strlit("public/index.html");
    assert("index.js"@[0] == 'i');
    assert("package.json"@[0] == 'p');
    assert("src/index.ts"@[0] == 's');
    assert("tsconfig.json"@[0] == 't');
    assert("index.ts"@[0] == 'i');
    assert("bunfig.toml"@[0] == 'b');
    assert("main.ts"@[0] == 'm');
    assert("deno.json"@[0] == 'd');
    assert("main.py"@[0] == 'm');
    assert("requirements.txt"@[0] == 'r');
    assert("main.go"@[0] == 'm');
    assert("go.mod"@[0] == 'g');
    assert("src/main.rs"@[0] == 's');
    assert("Cargo.toml"@[0] == 'C');
    assert("src/main/java/Main.java"@[0] == 's');
    assert("pom.xml"@[0] == 'p');
    assert("index.php"@[0] == 'i');
    assert("app.rb"@[0] == 'a');
    assert("Gemfile"@[0] == 'G');
    assert("Program.cs"@[0] == 'P');
    assert("app.csproj"@[0] == 'a');
    assert("public/index.html"@[0] == 'p');
}

} // verus!
