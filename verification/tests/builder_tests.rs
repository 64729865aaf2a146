use include_tailwind_build::{BuildConfig, BuildProfile, EnvSnapshot, JsonValue, Step};
use include_tailwind_build::profile::detect;

fn base_env() -> EnvSnapshot {
    EnvSnapshot {
        profile: Some("debug".to_owned()),
        out_dir: "/out".to_owned(),
        src_dir: Some("/proj/src".to_owned()),
        package_json_exists: false,
        node_modules_exists: false,
        custom_css_exists: false,
        root_css_exists: false,
    }
}

#[test]
fn detect_recognizes_exact_profiles() {
    assert_eq!(detect(&Some("release".to_owned())), BuildProfile::Release);
    assert_eq!(detect(&Some("debug".to_owned())), BuildProfile::Debug);
    assert_eq!(detect(&Some("Release".to_owned())), BuildProfile::Unknown);
    assert_eq!(detect(&Some("bench".to_owned())), BuildProfile::Unknown);
    assert_eq!(detect(&Some("".to_owned())), BuildProfile::Unknown);
    assert_eq!(detect(&None), BuildProfile::Unknown);
}

#[test]
fn with_cdn_src_overrides_jit_source() {
    let plan = BuildConfig::new()
        .with_cdn_src("https://my.cdn.example/tw.js".to_owned())
        .build(&base_env())
        .unwrap();
    assert!(plan.steps.iter().any(|s| matches!(
        s,
        Step::EmitEnv { key, value }
            if key.as_str() == "INCLUDE_TAILWIND_JIT_URL" && value.as_str() == "https://my.cdn.example/tw.js"
    )));
}

#[test]
fn always_forces_install_pipeline() {
    let plan = BuildConfig::new().always().build(&base_env()).unwrap();
    assert!(plan.steps.iter().any(|s| matches!(s, Step::RunCompile { .. })));
}

#[test]
fn custom_document_is_rendered_into_tool_config() {
    let doc = JsonValue::Obj(vec![(
        "content".to_owned(),
        JsonValue::Arr(vec![JsonValue::Str("{src_dir}/**/*.html".to_owned())]),
    )]);
    let plan = BuildConfig::new().with_tw_config(doc).always().build(&base_env()).unwrap();
    let contents = plan
        .steps
        .iter()
        .find_map(|s| match s {
            Step::WriteFile { path, contents } if path.as_str() == "/out/tailwind.config.js" => {
                Some(contents.clone())
            },
            _ => None,
        })
        .unwrap();
    let body = contents
        .strip_prefix("module.exports = ")
        .unwrap()
        .trim_end();
    let v: serde_json::Value = serde_json::from_str(body).unwrap();
    let expected = serde_json::Value::Array(vec![serde_json::Value::String(
        "/proj/src/**/*.html".to_owned(),
    )]);
    assert_eq!(v.get("content").unwrap(), &expected);
}

#[test]
fn builder_operations_compose() {
    let e = EnvSnapshot { custom_css_exists: true, ..base_env() };
    let doc = JsonValue::Obj(vec![("plugins".to_owned(), JsonValue::Arr(vec![]))]);
    let plan = BuildConfig::new()
        .with_path(Some("in.css".to_owned()))
        .with_cdn_src("https://x".to_owned())
        .with_tw_config(doc)
        .always()
        .build(&e)
        .unwrap();
    assert!(plan.steps.iter().any(|s| matches!(
        s,
        Step::CopyFile { from, .. } if from.as_str() == "in.css"
    )));
    assert!(plan.steps.iter().any(|s| matches!(
        s,
        Step::WriteFile { path, contents }
            if path.as_str() == "/out/tailwind.config.js"
                && contents.as_str() == "module.exports = {\n  \"plugins\": []\n}\n"
    )));
}

#[test]
fn with_path_none_restores_default_lookup() {
    let e = base_env();
    let plan = BuildConfig::new()
        .with_path(Some("in.css".to_owned()))
        .with_path(None)
        .always()
        .build(&e)
        .unwrap();
    assert!(plan.steps.iter().any(|s| matches!(
        s,
        Step::WriteFile { path, .. } if path.as_str() == "/out/style.in.css"
    )));
}

#[test]
fn same_document_renders_identically_in_both_pipelines() {
    let jit = BuildConfig::new().build(&base_env()).unwrap();
    let mut release_env = base_env();
    release_env.profile = Some("release".to_owned());
    let install = BuildConfig::new().build(&release_env).unwrap();
    let jit_body = jit
        .steps
        .iter()
        .find_map(|s| match s {
            Step::WriteFile { contents, .. } => {
                contents.strip_prefix("tailwind.config = ").map(|b| b.to_owned())
            },
            _ => None,
        })
        .unwrap();
    let install_body = install
        .steps
        .iter()
        .find_map(|s| match s {
            Step::WriteFile { path, contents } if path.as_str() == "/out/tailwind.config.js" => {
                contents
                    .strip_prefix("module.exports = ")
                    .map(|b| b.trim_end().to_owned())
            },
            _ => None,
        })
        .unwrap();
    assert_eq!(jit_body, install_body);
}
