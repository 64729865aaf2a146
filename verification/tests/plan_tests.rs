use include_tailwind_build::{build_tailwind, BuildConfig, EnvSnapshot, Error, Step};

fn env(profile: Option<&str>, fresh: bool) -> EnvSnapshot {
    EnvSnapshot {
        profile: profile.map(|p| p.to_owned()),
        out_dir: "/out".to_owned(),
        src_dir: Some("/proj/src".to_owned()),
        package_json_exists: !fresh,
        node_modules_exists: !fresh,
        custom_css_exists: false,
        root_css_exists: false,
    }
}

fn is_install_plan(steps: &[Step]) -> bool {
    steps.iter().any(|s| matches!(s, Step::RunCompile { .. }))
}

#[test]
fn selection_release_picks_install() {
    let plan = BuildConfig::new().build(&env(Some("release"), true)).unwrap();
    assert!(is_install_plan(&plan.steps));
}

#[test]
fn selection_release_with_always_picks_install() {
    let plan = BuildConfig::new().always().build(&env(Some("release"), true)).unwrap();
    assert!(is_install_plan(&plan.steps));
}

#[test]
fn selection_debug_with_always_picks_install() {
    let plan = BuildConfig::new().always().build(&env(Some("debug"), true)).unwrap();
    assert!(is_install_plan(&plan.steps));
}

#[test]
fn selection_debug_picks_jit() {
    let plan = BuildConfig::new().build(&env(Some("debug"), true)).unwrap();
    assert!(!is_install_plan(&plan.steps));
}

#[test]
fn selection_unrecognized_profile_picks_jit_with_warning() {
    let plan = BuildConfig::new().build(&env(Some("profiling"), true)).unwrap();
    assert!(!is_install_plan(&plan.steps));
    assert!(plan.steps.iter().any(|s| matches!(
        s,
        Step::Warn { message } if message.as_str() == "'PROFILE' was neither release nor debug ('profiling')"
    )));
}

#[test]
fn selection_missing_profile_picks_jit_with_warning() {
    let plan = BuildConfig::new().build(&env(None, true)).unwrap();
    assert!(!is_install_plan(&plan.steps));
    assert!(plan.steps.iter().any(|s| matches!(
        s,
        Step::Warn { message } if message.as_str() == "'PROFILE' was not defined, defaulting to debug"
    )));
}

#[test]
fn both_pipelines_emit_profile_rerun_hint() {
    for e in [env(Some("release"), true), env(Some("debug"), true)] {
        let plan = BuildConfig::new().build(&e).unwrap();
        assert!(matches!(&plan.steps[0], Step::RerunIfEnvChanged { var } if var.as_str() == "PROFILE"));
    }
}

#[test]
fn existing_manifest_is_never_written() {
    let mut e = env(Some("release"), true);
    e.package_json_exists = true;
    let plan = BuildConfig::new().build(&e).unwrap();
    for s in &plan.steps {
        match s {
            Step::WriteFile { path, .. } => assert_ne!(path.as_str(), "/out/package.json"),
            Step::CopyFile { to, .. } => assert_ne!(to.as_str(), "/out/package.json"),
            _ => {},
        }
    }
}

#[test]
fn missing_manifest_is_created_with_default_content() {
    let plan = BuildConfig::new().build(&env(Some("release"), true)).unwrap();
    let expected = "{\n    \"name\": \"include-tailwind\",\n    \"version\": \"1.0.0\",\n    \"description\": \"the autogenerated package.json for include-tailwind\",\n    \"devDependencies\": {\n        \"tailwindcss\": \"^3.4.4\"\n    }\n}\n";
    let found: Vec<&Step> = plan
        .steps
        .iter()
        .filter(|s| matches!(s, Step::WriteFile { path, .. } if path.as_str() == "/out/package.json"))
        .collect();
    assert_eq!(found.len(), 1);
    match found[0] {
        Step::WriteFile { contents, .. } => assert_eq!(contents.as_str(), expected),
        _ => unreachable!(),
    }
}

#[test]
fn existing_dependency_cache_skips_install() {
    let mut e = env(Some("release"), true);
    e.node_modules_exists = true;
    let plan = BuildConfig::new().build(&e).unwrap();
    assert!(!plan.steps.iter().any(|s| matches!(s, Step::RunInstall { .. })));
}

#[test]
fn missing_dependency_cache_installs_once() {
    let plan = BuildConfig::new().build(&env(Some("release"), true)).unwrap();
    let installs = plan.steps.iter().filter(|s| matches!(s, Step::RunInstall { .. })).count();
    assert_eq!(installs, 1);
}

#[test]
fn default_input_stylesheet_is_synthesized() {
    let plan = BuildConfig::new().build(&env(Some("release"), true)).unwrap();
    let expected = "\n@tailwind base;\n@tailwind components;\n@tailwind utilities;\n";
    assert!(plan.steps.iter().any(|s| matches!(
        s,
        Step::WriteFile { path, contents } if path.as_str() == "/out/style.in.css" && contents.as_str() == expected
    )));
}

#[test]
fn conventional_stylesheet_is_copied() {
    let mut e = env(Some("release"), true);
    e.root_css_exists = true;
    let plan = BuildConfig::new().build(&e).unwrap();
    assert!(plan.steps.iter().any(|s| matches!(
        s,
        Step::CopyFile { from, to } if from.as_str() == "style.css" && to.as_str() == "/out/style.in.css"
    )));
}

#[test]
fn custom_stylesheet_is_copied_and_watched() {
    let mut e = env(Some("release"), true);
    e.custom_css_exists = true;
    let plan = BuildConfig::new()
        .with_path(Some("assets/my.css".to_owned()))
        .build(&e)
        .unwrap();
    assert!(plan.steps.iter().any(|s| matches!(
        s,
        Step::RerunIfChanged { path } if path.as_str() == "assets/my.css"
    )));
    assert!(plan.steps.iter().any(|s| matches!(
        s,
        Step::CopyFile { from, to } if from.as_str() == "assets/my.css" && to.as_str() == "/out/style.in.css"
    )));
}

#[test]
fn missing_custom_stylesheet_fails_without_any_step() {
    let e = env(Some("release"), true);
    let r = BuildConfig::new().with_path(Some("assets/my.css".to_owned())).build(&e);
    assert!(matches!(r, Err(Error::MissingCssFile)));
}

#[test]
fn missing_custom_stylesheet_is_ignored_in_jit_mode() {
    let e = env(Some("debug"), true);
    let r = BuildConfig::new().with_path(Some("assets/my.css".to_owned())).build(&e);
    assert!(r.is_ok());
}

#[test]
fn unrepresentable_source_dir_fails() {
    let mut e = env(Some("release"), true);
    e.src_dir = None;
    let r = BuildConfig::new().build(&e);
    assert!(matches!(r, Err(Error::InvalidSrcPath)));
}

#[test]
fn debug_scenario_writes_one_file_and_two_directives() {
    let plan = build_tailwind(&env(Some("debug"), true)).unwrap();
    let writes: Vec<&Step> =
        plan.steps.iter().filter(|s| matches!(s, Step::WriteFile { .. })).collect();
    assert_eq!(writes.len(), 1);
    match writes[0] {
        Step::WriteFile { path, contents } => {
            assert_eq!(path.as_str(), "/out/jit_config.js");
            assert!(contents.starts_with("tailwind.config = {"));
        },
        _ => unreachable!(),
    }
    let directives: Vec<&Step> =
        plan.steps.iter().filter(|s| matches!(s, Step::EmitEnv { .. })).collect();
    assert_eq!(directives.len(), 2);
    assert!(matches!(
        directives[0],
        Step::EmitEnv { key, value }
            if key.as_str() == "INCLUDE_TAILWIND_JIT_CONFIG_PATH" && value.as_str() == "/out/jit_config.js"
    ));
    assert!(matches!(
        directives[1],
        Step::EmitEnv { key, value }
            if key.as_str() == "INCLUDE_TAILWIND_JIT_URL" && value.as_str() == "https://cdn.tailwindcss.com"
    ));
    assert!(!plan.steps.iter().any(|s| matches!(s, Step::RunInstall { .. } | Step::RunCompile { .. })));
    assert!(!plan.steps.iter().any(|s| matches!(s, Step::CopyFile { .. })));
}

#[test]
fn jit_config_script_assigns_the_rendered_document() {
    let plan = build_tailwind(&env(Some("debug"), true)).unwrap();
    let contents = plan
        .steps
        .iter()
        .find_map(|s| match s {
            Step::WriteFile { contents, .. } => Some(contents.clone()),
            _ => None,
        })
        .unwrap();
    let expected = "tailwind.config = {\n  \"content\": [\n    \"/proj/src/**/*.{html,js,rs}\"\n  ],\n  \"theme\": {\n    \"extend\": {}\n  },\n  \"plugins\": []\n}";
    assert_eq!(contents.as_str(), expected);
}

#[test]
fn install_scenario_full_order_on_fresh_output_dir() {
    let plan = BuildConfig::new().build(&env(Some("release"), true)).unwrap();
    assert_eq!(plan.steps.len(), 7);
    assert!(matches!(&plan.steps[0], Step::RerunIfEnvChanged { var } if var.as_str() == "PROFILE"));
    assert!(matches!(&plan.steps[1], Step::WriteFile { path, .. } if path.as_str() == "/out/package.json"));
    assert!(matches!(&plan.steps[2], Step::RunInstall { dir } if dir.as_str() == "/out"));
    assert!(matches!(&plan.steps[3], Step::WriteFile { path, .. } if path.as_str() == "/out/tailwind.config.js"));
    assert!(matches!(&plan.steps[4], Step::WriteFile { path, .. } if path.as_str() == "/out/style.in.css"));
    assert!(matches!(
        &plan.steps[5],
        Step::RunCompile { dir, input, output }
            if dir.as_str() == "/out" && input.as_str() == "/out/style.in.css" && output.as_str() == "/out/style.css"
    ));
    assert!(matches!(
        &plan.steps[6],
        Step::EmitEnv { key, value }
            if key.as_str() == "INCLUDE_TAILWIND_PATH" && value.as_str() == "/out/style.css"
    ));
}

#[test]
fn tool_config_is_rewritten_even_when_everything_exists() {
    let plan = BuildConfig::new().build(&env(Some("release"), false)).unwrap();
    let writes: Vec<&Step> = plan
        .steps
        .iter()
        .filter(|s| matches!(s, Step::WriteFile { path, .. } if path.as_str() == "/out/tailwind.config.js"))
        .collect();
    assert_eq!(writes.len(), 1);
}

#[test]
fn error_messages() {
    assert_eq!(Error::InvalidSrcPath.message(), "the source dir contained invalid unicode");
    assert_eq!(Error::MissingCssFile.message(), "specified a css path but it does not exist");
    assert_eq!(Error::TailwindInstallError.message(), "tailwind could not be installed");
    let io = Error::Io(std::io::Error::new(std::io::ErrorKind::Other, "x"));
    assert_eq!(io.message(), "io error");
}
