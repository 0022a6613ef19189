//! Which files a project starts life with, and what stands in them.

use crate::runtime_plan::Runtime;
use vstd::prelude::*;

verus! {

proof fn runtimes_differ()
    ensures
        "NODEJS"@ != "TYPESCRIPT"@,
        "NODEJS"@ != "BUN"@,
        "NODEJS"@ != "DENO"@,
        "NODEJS"@ != "PYTHON"@,
        "NODEJS"@ != "GO"@,
        "NODEJS"@ != "RUST"@,
        "NODEJS"@ != "JAVA"@,
        "NODEJS"@ != "PHP"@,
        "NODEJS"@ != "RUBY"@,
        "NODEJS"@ != "DOTNET"@,
        "NODEJS"@ != "STATIC"@,
        "NODEJS"@ != "POLYGLOT"@,
        "TYPESCRIPT"@ != "BUN"@,
        "TYPESCRIPT"@ != "DENO"@,
        "TYPESCRIPT"@ != "PYTHON"@,
        "TYPESCRIPT"@ != "GO"@,
        "TYPESCRIPT"@ != "RUST"@,
        "TYPESCRIPT"@ != "JAVA"@,
        "TYPESCRIPT"@ != "PHP"@,
        "TYPESCRIPT"@ != "RUBY"@,
        "TYPESCRIPT"@ != "DOTNET"@,
        "TYPESCRIPT"@ != "STATIC"@,
        "TYPESCRIPT"@ != "POLYGLOT"@,
        "BUN"@ != "DENO"@,
        "BUN"@ != "PYTHON"@,
        "BUN"@ != "GO"@,
        "BUN"@ != "RUST"@,
        "BUN"@ != "JAVA"@,
        "BUN"@ != "PHP"@,
        "BUN"@ != "RUBY"@,
        "BUN"@ != "DOTNET"@,
        "BUN"@ != "STATIC"@,
        "BUN"@ != "POLYGLOT"@,
        "DENO"@ != "PYTHON"@,
        "DENO"@ != "GO"@,
        "DENO"@ != "RUST"@,
        "DENO"@ != "JAVA"@,
        "DENO"@ != "PHP"@,
        "DENO"@ != "RUBY"@,
        "DENO"@ != "DOTNET"@,
        "DENO"@ != "STATIC"@,
        "DENO"@ != "POLYGLOT"@,
        "PYTHON"@ != "GO"@,
        "PYTHON"@ != "RUST"@,
        "PYTHON"@ != "JAVA"@,
        "PYTHON"@ != "PHP"@,
        "PYTHON"@ != "RUBY"@,
        "PYTHON"@ != "DOTNET"@,
        "PYTHON"@ != "STATIC"@,
        "PYTHON"@ != "POLYGLOT"@,
        "GO"@ != "RUST"@,
        "GO"@ != "JAVA"@,
        "GO"@ != "PHP"@,
        "GO"@ != "RUBY"@,
        "GO"@ != "DOTNET"@,
        "GO"@ != "STATIC"@,
        "GO"@ != "POLYGLOT"@,
        "RUST"@ != "JAVA"@,
        "RUST"@ != "PHP"@,
        "RUST"@ != "RUBY"@,
        "RUST"@ != "DOTNET"@,
        "RUST"@ != "STATIC"@,
        "RUST"@ != "POLYGLOT"@,
        "JAVA"@ != "PHP"@,
        "JAVA"@ != "RUBY"@,
        "JAVA"@ != "DOTNET"@,
        "JAVA"@ != "STATIC"@,
        "JAVA"@ != "POLYGLOT"@,
        "PHP"@ != "RUBY"@,
        "PHP"@ != "DOTNET"@,
        "PHP"@ != "STATIC"@,
        "PHP"@ != "POLYGLOT"@,
        "RUBY"@ != "DOTNET"@,
        "RUBY"@ != "STATIC"@,
        "RUBY"@ != "POLYGLOT"@,
        "DOTNET"@ != "STATIC"@,
        "DOTNET"@ != "POLYGLOT"@,
        "STATIC"@ != "POLYGLOT"@,
{
    reveal_strlit("NODEJS");
    reveal_strlit("TYPESCRIPT");
    reveal_strlit("BUN");
    reveal_strlit("DENO");
    reveal_strlit("PYTHON");
    reveal_strlit("GO");
    reveal_strlit("RUST");
    reveal_strlit("JAVA");
    reveal_strlit("PHP");
    reveal_strlit("RUBY");
    reveal_strlit("DOTNET");
    reveal_strlit("STATIC");
    reveal_strlit("POLYGLOT");
    assert("NODEJS"@.len() == 6 && "NODEJS"@[0] == 'N' && "NODEJS"@[1] == 'O');
    assert("TYPESCRIPT"@.len() == 10 && "TYPESCRIPT"@[0] == 'T' && "TYPESCRIPT"@[1] == 'Y');
    assert("BUN"@.len() == 3 && "BUN"@[0] == 'B' && "BUN"@[1] == 'U');
    assert("DENO"@.len() == 4 && "DENO"@[0] == 'D' && "DENO"@[1] == 'E');
    assert("PYTHON"@.len() == 6 && "PYTHON"@[0] == 'P' && "PYTHON"@[1] == 'Y');
    assert("GO"@.len() == 2 && "GO"@[0] == 'G' && "GO"@[1] == 'O');
    assert("RUST"@.len() == 4 && "RUST"@[0] == 'R' && "RUST"@[1] == 'U');
    assert("JAVA"@.len() == 4 && "JAVA"@[0] == 'J' && "JAVA"@[1] == 'A');
    assert("PHP"@.len() == 3 && "PHP"@[0] == 'P' && "PHP"@[1] == 'H');
    assert("RUBY"@.len() == 4 && "RUBY"@[0] == 'R' && "RUBY"@[1] == 'U');
    assert("DOTNET"@.len() == 6 && "DOTNET"@[0] == 'D' && "DOTNET"@[1] == 'O');
    assert("STATIC"@.len() == 6 && "STATIC"@[0] == 'S' && "STATIC"@[1] == 'T');
    assert("POLYGLOT"@.len() == 8 && "POLYGLOT"@[0] == 'P' && "POLYGLOT"@[1] == 'O');
    assert("RUST"@[2] == 'S' && "RUBY"@[2] == 'B');
}

/// Each runtime starts with its own files: something to run, and what makes it
/// a project of that runtime.
pub proof fn law_a_project_starts_with_its_own_files(runtime: Runtime)
    ensures
        ({
            let files = super::starters(runtime.word());
            &&& runtime is NodeJs ==> files.len() == 2 && files[0].0 == "index.js"@
                && files[1].0 == "package.json"@
            &&& runtime is TypeScript ==> files.len() == 3 && files[0].0 == "src/index.ts"@
                && files[1].0 == "package.json"@ && files[2].0 == "tsconfig.json"@
            &&& runtime is Bun ==> files.len() == 3 && files[0].0 == "index.ts"@
                && files[1].0 == "bunfig.toml"@ && files[2].0 == "package.json"@
            &&& runtime is Deno ==> files.len() == 2 && files[0].0 == "main.ts"@
                && files[1].0 == "deno.json"@
            &&& runtime is Python ==> files.len() == 2 && files[0].0 == "main.py"@
                && files[1].0 == "requirements.txt"@
            &&& runtime is Go ==> files.len() == 2 && files[0].0 == "main.go"@
                && files[1].0 == "go.mod"@
            &&& runtime is Rust ==> files.len() == 2 && files[0].0 == "src/main.rs"@
                && files[1].0 == "Cargo.toml"@
            &&& runtime is Java ==> files.len() == 2 && files[0].0 == "src/main/java/Main.java"@
                && files[1].0 == "pom.xml"@
            &&& runtime is Php ==> files.len() == 1 && files[0].0 == "index.php"@
            &&& runtime is Ruby ==> files.len() == 2 && files[0].0 == "app.rb"@
                && files[1].0 == "Gemfile"@
            &&& runtime is DotNet ==> files.len() == 2 && files[0].0 == "Program.cs"@
                && files[1].0 == "app.csproj"@
            &&& runtime is Static ==> files.len() == 1 && files[0].0 == "public/index.html"@
            &&& runtime is Polyglot ==> files.len() == 0
        }),
{
    runtimes_differ();
}

/// What stands in the files a project starts with.
pub proof fn law_the_first_files_say_what_they_should(runtime: Runtime)
    ensures
        ({
            let files = super::starters(runtime.word());
            &&& runtime is NodeJs ==> files[0].1
                == "console.log('Hello from Panel Platform');\n"@
            &&& runtime is NodeJs ==> files[1].1
                == "{\n  \"name\": \"project\",\n  \"private\": true,\n  \"version\": \"1.0.0\",\n  \"main\": \"index.js\"\n}\n"@
            &&& runtime is TypeScript ==> files[0].1
                == "console.log('Hello from Panel Platform');\n"@
            &&& runtime is TypeScript ==> files[1].1
                == "{\n  \"name\": \"project\",\n  \"private\": true,\n  \"version\": \"1.0.0\",\n  \"scripts\": {\n    \"build\": \"tsc\",\n    \"start\": \"node dist/index.js\"\n  }\n}\n"@
            &&& runtime is TypeScript ==> files[2].1
                == "{\n  \"compilerOptions\": {\n    \"target\": \"ES2022\",\n    \"module\": \"NodeNext\",\n    \"outDir\": \"dist\",\n    \"strict\": true\n  },\n  \"include\": [\"src\"]\n}\n"@
            &&& runtime is Bun ==> files[0].1
                == "console.log('Hello from Panel Platform');\n"@
            &&& runtime is Bun ==> files[1].1
                == "# Bun configuration.\n"@
            &&& runtime is Bun ==> files[2].1
                == "{\n  \"name\": \"project\",\n  \"private\": true,\n  \"version\": \"1.0.0\"\n}\n"@
            &&& runtime is Deno ==> files[0].1
                == "console.log('Hello from Panel Platform');\n"@
            &&& runtime is Deno ==> files[1].1
                == "{\n  \"tasks\": {}\n}\n"@
            &&& runtime is Python ==> files[0].1
                == "print('Hello from Panel Platform', flush=True)\n"@
            &&& runtime is Python ==> files[1].1
                == ""@
            &&& runtime is Go ==> files[0].1
                == "package main\n\nimport \"fmt\"\n\nfunc main() {\n\tfmt.Println(\"Hello from Panel Platform\")\n}\n"@
            &&& runtime is Go ==> files[1].1
                == "module project\n\ngo 1.23\n"@
            &&& runtime is Rust ==> files[0].1
                == "fn main() {\n    println!(\"Hello from Panel Platform\");\n}\n"@
            &&& runtime is Rust ==> files[1].1
                == "[package]\nname = \"project\"\nversion = \"0.1.0\"\nedition = \"2021\"\n"@
            &&& runtime is Java ==> files[0].1
                == "public class Main {\n    public static void main(String[] args) {\n        System.out.println(\"Hello from Panel Platform\");\n    }\n}\n"@
            &&& runtime is Java ==> files[1].1
                == "<?xml version=\"1.0\" encoding=\"UTF-8\"?>\n<project xmlns=\"http://maven.apache.org/POM/4.0.0\">\n  <modelVersion>4.0.0</modelVersion>\n  <groupId>platform.panel</groupId>\n  <artifactId>project</artifactId>\n  <version>1.0.0</version>\n  <properties>\n    <maven.compiler.release>21</maven.compiler.release>\n  </properties>\n</project>\n"@
            &&& runtime is Php ==> files[0].1
                == "<?php\n\necho \"Hello from Panel Platform\\n\";\n"@
            &&& runtime is Ruby ==> files[0].1
                == "puts 'Hello from Panel Platform'\n"@
            &&& runtime is Ruby ==> files[1].1
                == "source 'https://rubygems.org'\n"@
            &&& runtime is DotNet ==> files[0].1
                == "System.Console.WriteLine(\"Hello from Panel Platform\");\n"@
            &&& runtime is DotNet ==> files[1].1
                == "<Project Sdk=\"Microsoft.NET.Sdk\">\n  <PropertyGroup>\n    <OutputType>Exe</OutputType>\n    <TargetFramework>net8.0</TargetFramework>\n  </PropertyGroup>\n</Project>\n"@
            &&& runtime is Static ==> files[0].1
                == "<!doctype html>\n<html lang=\"en\">\n  <head>\n    <meta charset=\"utf-8\" />\n    <title>Panel Platform</title>\n  </head>\n  <body>\n    <h1>It works</h1>\n  </body>\n</html>\n"@
        }),
{
    runtimes_differ();
}

/// A runtime that is not known starts with nothing.
pub proof fn law_an_unknown_runtime_starts_empty(runtime: Seq<char>)
    requires
        runtime != "NODEJS"@,
        runtime != "TYPESCRIPT"@,
        runtime != "BUN"@,
        runtime != "DENO"@,
        runtime != "PYTHON"@,
        runtime != "GO"@,
        runtime != "RUST"@,
        runtime != "JAVA"@,
        runtime != "PHP"@,
        runtime != "RUBY"@,
        runtime != "DOTNET"@,
        runtime != "STATIC"@,
    ensures
        super::starters(runtime).len() == 0,
{
}

/// Files are written in the order they are listed in, and those that are there
/// already are passed over: one more file listed is one more written, last,
/// unless its path is there.
pub proof fn law_only_missing_files_are_written(
    list: Seq<(Seq<char>, Seq<char>)>,
    more: (Seq<char>, Seq<char>),
    present: Seq<Seq<char>>,
)
    ensures
        super::absent(Seq::empty(), present).len() == 0,
        super::absent(list.push(more), present) == if exists|i: int|
            0 <= i < present.len() && #[trigger] present[i] == more.0 {
            super::absent(list, present)
        } else {
            super::absent(list, present).push(more)
        },
{
    reveal(Seq::filter);
    assert(list.push(more).drop_last() =~= list);
}

} // verus!
