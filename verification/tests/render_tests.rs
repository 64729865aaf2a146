use include_tailwind_build::{render::render, JsonValue};

fn default_doc() -> JsonValue {
    JsonValue::Obj(vec![
        (
            "content".to_owned(),
            JsonValue::Arr(vec![JsonValue::Str("{src_dir}/**/*.{html,js,rs}".to_owned())]),
        ),
        ("theme".to_owned(), JsonValue::Obj(vec![("extend".to_owned(), JsonValue::Obj(vec![]))])),
        ("plugins".to_owned(), JsonValue::Arr(vec![])),
    ])
}

#[test]
fn render_default_doc_exact() {
    let out = render(&default_doc(), "/proj/src");
    let expected = "{\n  \"content\": [\n    \"/proj/src/**/*.{html,js,rs}\"\n  ],\n  \"theme\": {\n    \"extend\": {}\n  },\n  \"plugins\": []\n}";
    assert_eq!(out, expected);
}

#[test]
fn render_output_is_valid_json() {
    let out = render(&default_doc(), "/proj/src");
    let v: serde_json::Value = serde_json::from_str(&out).unwrap();
    assert_eq!(
        v.get("content").unwrap().get(0).unwrap().as_str().unwrap(),
        "/proj/src/**/*.{html,js,rs}"
    );
}

#[test]
fn render_removes_every_placeholder() {
    let doc = JsonValue::Obj(vec![
        ("{src_dir}".to_owned(), JsonValue::Str("{src_dir}".to_owned())),
        ("other".to_owned(), JsonValue::Str("x{src_dir}y".to_owned())),
    ]);
    let out = render(&doc, "/proj/src");
    assert!(!out.contains("{src_dir}"));
    assert_eq!(out.matches("/proj/src").count(), 3);
}

#[test]
fn render_without_placeholder_changes_nothing() {
    let doc = JsonValue::Obj(vec![("a".to_owned(), JsonValue::Str("plain".to_owned()))]);
    let out = render(&doc, "/proj/src");
    assert_eq!(out, "{\n  \"a\": \"plain\"\n}");
}

#[test]
fn render_escapes_quote_in_source_dir() {
    let out = render(&default_doc(), "/we\"ird");
    let v: serde_json::Value = serde_json::from_str(&out).unwrap();
    assert_eq!(
        v.get("content").unwrap().get(0).unwrap().as_str().unwrap(),
        "/we\"ird/**/*.{html,js,rs}"
    );
}

#[test]
fn render_escapes_backslash_in_source_dir() {
    let out = render(&default_doc(), "C:\\proj\\src");
    let v: serde_json::Value = serde_json::from_str(&out).unwrap();
    assert_eq!(
        v.get("content").unwrap().get(0).unwrap().as_str().unwrap(),
        "C:\\proj\\src/**/*.{html,js,rs}"
    );
}

#[test]
fn render_escapes_strings_in_document() {
    let doc = JsonValue::Obj(vec![(
        "ke\"y".to_owned(),
        JsonValue::Str("line\nbreak\tand \\ \u{1}".to_owned()),
    )]);
    let out = render(&doc, "/p");
    assert_eq!(out, "{\n  \"ke\\\"y\": \"line\\nbreak\\tand \\\\ \\u0001\"\n}");
    let v: serde_json::Value = serde_json::from_str(&out).unwrap();
    assert_eq!(v.get("ke\"y").unwrap().as_str().unwrap(), "line\nbreak\tand \\ \u{1}");
}

#[test]
fn render_scalars_exact() {
    let doc = JsonValue::Arr(vec![
        JsonValue::Null,
        JsonValue::Bool(true),
        JsonValue::Bool(false),
        JsonValue::Int(0),
        JsonValue::Int(-42),
        JsonValue::Int(1234567890123),
        JsonValue::Int(i64::MIN),
        JsonValue::Str(String::new()),
    ]);
    let out = render(&doc, "/p");
    assert_eq!(
        out,
        "[\n  null,\n  true,\n  false,\n  0,\n  -42,\n  1234567890123,\n  -9223372036854775808,\n  \"\"\n]"
    );
}

#[test]
fn render_empty_containers() {
    assert_eq!(render(&JsonValue::Obj(vec![]), "/p"), "{}");
    assert_eq!(render(&JsonValue::Arr(vec![]), "/p"), "[]");
}

#[test]
fn render_nested_indentation_matches_reference_serializer() {
    let doc = JsonValue::Obj(vec![
        (
            "a".to_owned(),
            JsonValue::Arr(vec![
                JsonValue::Int(1),
                JsonValue::Obj(vec![("b".to_owned(), JsonValue::Arr(vec![JsonValue::Null]))]),
            ]),
        ),
        ("c".to_owned(), JsonValue::Bool(false)),
    ]);
    let out = render(&doc, "/p");
    let reparsed: serde_json::Value = serde_json::from_str(&out).unwrap();
    let reference = serde_json::to_string_pretty(&reparsed).unwrap();
    assert_eq!(out, reference);
}

#[test]
fn render_substitutes_inside_nested_values() {
    let doc = JsonValue::Arr(vec![JsonValue::Obj(vec![(
        "glob".to_owned(),
        JsonValue::Arr(vec![JsonValue::Str("{src_dir}/a".to_owned()), JsonValue::Str(
            "{src_dir}/b".to_owned(),
        )]),
    )])]);
    let out = render(&doc, "/root");
    assert!(out.contains("\"/root/a\""));
    assert!(out.contains("\"/root/b\""));
    assert!(!out.contains("{src_dir}"));
}

#[test]
fn degenerate_source_dir_can_splice_a_new_placeholder() {
    // The substitution never rescans replacement text, yet a replacement
    // that is itself a fragment of the placeholder can splice a new
    // occurrence together with surrounding document text.  The proved law
    // therefore excludes such replacements; this records one of them.
    let doc = JsonValue::Arr(vec![JsonValue::Str("{src{src_dir}dir}".to_owned())]);
    let out = render(&doc, "_");
    assert!(out.contains("{src_dir}"));
}
