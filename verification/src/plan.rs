//! The orchestrator.
//!
//! From an immutable `BuildConfig` and an `EnvSnapshot` — the values read
//! once from the environment and the filesystem at the start of an
//! invocation — `BuildConfig::build` selects one of the two pipelines and
//! returns the exact, ordered `Plan` of steps to perform: files to write or
//! copy, external commands to run, and build-system directives to emit.
//! The caller performs the steps; everything decided here is verified.

use crate::json::JsonValue;
use crate::profile::{detect, spec_detect, BuildProfile};
use crate::render::{render, spec_render};
use crate::text::join;
use vstd::prelude::*;

verus! {

/// Declares the standard I/O error type so that `Error` can carry it.
#[verifier::external_type_specification]
#[verifier::external_body]
pub struct ExIoError(std::io::Error);

/// How an invocation can fail.
#[derive(Debug)]
pub enum Error {
    /// A filesystem operation failed while the plan was performed.
    Io(std::io::Error),
    /// The source directory cannot be represented as text.
    InvalidSrcPath,
    /// A custom stylesheet path was configured but no file exists there.
    MissingCssFile,
    /// The toolchain could not be installed or run.
    TailwindInstallError,
}

impl Error {
    /// A short description of the failure.
    pub fn message(&self) -> (r: &'static str)
        ensures
            (match self {
                Error::Io(_) => r@ == "io error"@,
                Error::InvalidSrcPath => r@ == "the source dir contained invalid unicode"@,
                Error::MissingCssFile => r@ == "specified a css path but it does not exist"@,
                Error::TailwindInstallError => r@ == "tailwind could not be installed"@,
            }),
    {
        match self {
            Error::Io(_) => "io error",
            Error::InvalidSrcPath => "the source dir contained invalid unicode",
            Error::MissingCssFile => "specified a css path but it does not exist",
            Error::TailwindInstallError => "tailwind could not be installed",
        }
    }
}

/// Everything an invocation reads from the environment and the filesystem,
/// captured once before any decision is made.
#[derive(Debug, Clone)]
pub struct EnvSnapshot {
    /// The value of the build-profile variable, `None` when unset.
    pub profile: Option<String>,
    /// The build output directory (its variable is required; the caller
    /// fails as the build system would when it is missing).
    pub out_dir: String,
    /// The canonicalized source directory, `None` when it cannot be
    /// represented as text.
    pub src_dir: Option<String>,
    /// Whether the package manifest already exists in the output directory.
    pub package_json_exists: bool,
    /// Whether the dependency-cache directory already exists there.
    pub node_modules_exists: bool,
    /// Whether the configured custom stylesheet exists (meaningful only
    /// when a custom path is configured).
    pub custom_css_exists: bool,
    /// Whether a conventional `style.css` exists at the project root.
    pub root_css_exists: bool,
}

/// One step of a plan, to be performed in order by the caller.
#[derive(Debug, Clone, PartialEq, Eq)]
pub enum Step {
    /// Write `contents` to the file at `path`.
    WriteFile { path: String, contents: String },
    /// Copy the file at `from` to `to`.
    CopyFile { from: String, to: String },
    /// Run the package-installation command in `dir`.
    RunInstall { dir: String },
    /// Run the stylesheet compiler in `dir`, reading `input` and writing a
    /// minified `output`.
    RunCompile { dir: String, input: String, output: String },
    /// Expose `value` under the key `key` to the consuming build.
    EmitEnv { key: String, value: String },
    /// Ask the build system to re-run when the file at `path` changes.
    RerunIfChanged { path: String },
    /// Ask the build system to re-run when the variable `var` changes.
    RerunIfEnvChanged { var: String },
    /// Surface a non-fatal warning to the build log.
    Warn { message: String },
}

/// The mathematical form of a step: the same shape over character
/// sequences.
#[verifier::ext_equal]
pub enum StepView {
    WriteFile { path: Seq<char>, contents: Seq<char> },
    CopyFile { from: Seq<char>, to: Seq<char> },
    RunInstall { dir: Seq<char> },
    RunCompile { dir: Seq<char>, input: Seq<char>, output: Seq<char> },
    EmitEnv { key: Seq<char>, value: Seq<char> },
    RerunIfChanged { path: Seq<char> },
    RerunIfEnvChanged { var: Seq<char> },
    Warn { message: Seq<char> },
}

impl View for Step {
    type V = StepView;

    open spec fn view(&self) -> StepView {
        match self {
            Step::WriteFile { path, contents } => StepView::WriteFile {
                path: path@,
                contents: contents@,
            },
            Step::CopyFile { from, to } => StepView::CopyFile { from: from@, to: to@ },
            Step::RunInstall { dir } => StepView::RunInstall { dir: dir@ },
            Step::RunCompile { dir, input, output } => StepView::RunCompile {
                dir: dir@,
                input: input@,
                output: output@,
            },
            Step::EmitEnv { key, value } => StepView::EmitEnv { key: key@, value: value@ },
            Step::RerunIfChanged { path } => StepView::RerunIfChanged { path: path@ },
            Step::RerunIfEnvChanged { var } => StepView::RerunIfEnvChanged { var: var@ },
            Step::Warn { message } => StepView::Warn { message: message@ },
        }
    }
}

/// The ordered list of steps of one invocation.
#[derive(Debug)]
pub struct Plan {
    pub steps: Vec<Step>,
}

impl View for Plan {
    type V = Seq<StepView>;

    open spec fn view(&self) -> Seq<StepView> {
        self.steps@.map_values(|s: Step| s@)
    }
}

/// The immutable configuration of one invocation, assembled by the builder
/// operations below and then only read.
#[derive(Debug)]
pub struct BuildConfig {
    /// A custom stylesheet path; `None` means "use a conventional
    /// `style.css` at the project root, else the built-in default".
    pub css_path: Option<String>,
    /// Force the install-and-compile pipeline even outside release builds.
    pub always: bool,
    /// The framework configuration document.
    pub tailwind_config: JsonValue,
    /// The script source used in just-in-time mode.
    pub cdn_src: String,
}

/// The built-in default configuration document: a content glob over the
/// unresolved source-directory placeholder for the common source
/// extensions, an empty theme extension, and no plugins.
pub open spec fn is_default_config(v: JsonValue) -> bool {
    &&& v matches JsonValue::Obj(fields)
    &&& fields@.len() == 3
    &&& fields@[0].0@ == "content"@
    &&& fields@[0].1 matches JsonValue::Arr(globs)
    &&& globs@.len() == 1
    &&& globs@[0] matches JsonValue::Str(g)
    &&& g@ == "{src_dir}/**/*.{html,js,rs}"@
    &&& fields@[1].0@ == "theme"@
    &&& fields@[1].1 matches JsonValue::Obj(theme)
    &&& theme@.len() == 1
    &&& theme@[0].0@ == "extend"@
    &&& theme@[0].1 matches JsonValue::Obj(ext)
    &&& ext@.len() == 0
    &&& fields@[2].0@ == "plugins"@
    &&& fields@[2].1 matches JsonValue::Arr(plugins)
    &&& plugins@.len() == 0
}

/// A configuration exactly as `BuildConfig::new` returns it.
pub open spec fn is_default_build_config(c: BuildConfig) -> bool {
    &&& c.css_path is None
    &&& !c.always
    &&& c.cdn_src@ == "https://cdn.tailwindcss.com"@
    &&& is_default_config(c.tailwind_config)
}

/// The content of the package manifest created when none exists.
pub open spec fn default_package_json() -> Seq<char> {
    "{\n    \"name\": \"include-tailwind\",\n    \"version\": \"1.0.0\",\n    \"description\": \"the autogenerated package.json for include-tailwind\",\n    \"devDependencies\": {\n        \"tailwindcss\": \"^3.4.4\"\n    }\n}\n"@
}

/// The built-in stylesheet with the three standard framework directives,
/// written when neither a custom nor a conventional stylesheet exists.
pub open spec fn default_style_css() -> Seq<char> {
    "\n@tailwind base;\n@tailwind components;\n@tailwind utilities;\n"@
}

/// The package manifest text, as a value.
pub fn default_package_json_text() -> (r: String)
    ensures
        r@ == default_package_json(),
{
    "{\n    \"name\": \"include-tailwind\",\n    \"version\": \"1.0.0\",\n    \"description\": \"the autogenerated package.json for include-tailwind\",\n    \"devDependencies\": {\n        \"tailwindcss\": \"^3.4.4\"\n    }\n}\n".to_owned()
}

/// The built-in stylesheet text, as a value.
pub fn default_style_css_text() -> (r: String)
    ensures
        r@ == default_style_css(),
{
    "\n@tailwind base;\n@tailwind components;\n@tailwind utilities;\n".to_owned()
}

/// The install-and-compile pipeline is selected exactly for a release
/// profile or a forced-always configuration.
pub open spec fn selects_install(c: BuildConfig, e: EnvSnapshot) -> bool {
    spec_detect(e.profile) is Release || c.always
}

/// Planning succeeds exactly when the source directory is representable as
/// text and, on the install-and-compile path, a configured custom
/// stylesheet exists.
pub open spec fn spec_plan_ok(c: BuildConfig, e: EnvSnapshot) -> bool {
    &&& e.src_dir is Some
    &&& (selects_install(c, e) && c.css_path is Some ==> e.custom_css_exists)
}

/// The rendered configuration document of an invocation.
pub open spec fn spec_rendered(c: BuildConfig, e: EnvSnapshot) -> Seq<char> {
    spec_render(c.tailwind_config, (e.src_dir->Some_0)@)
}

/// The steps shared by both pipelines: the profile re-run hint, and a
/// warning when the profile was missing or unrecognized.
pub open spec fn spec_profile_steps(e: EnvSnapshot) -> Seq<StepView> {
    seq![StepView::RerunIfEnvChanged { var: "PROFILE"@ }] + match e.profile {
        Option::None => seq![
            StepView::Warn { message: "'PROFILE' was not defined, defaulting to debug"@ },
        ],
        Option::Some(p) => if p@ == "release"@ || p@ == "debug"@ {
            Seq::<StepView>::empty()
        } else {
            seq![
                StepView::Warn {
                    message: "'PROFILE' was neither release nor debug ('"@ + p@ + "')"@,
                },
            ]
        },
    }
}

/// The steps of the install-and-compile pipeline: create the package
/// manifest only if absent, install the toolchain only if the dependency
/// cache is absent, always rewrite the tool configuration, resolve the
/// input stylesheet, compile, and expose the compiled stylesheet's path.
pub open spec fn spec_install_steps(c: BuildConfig, e: EnvSnapshot) -> Seq<StepView> {
    let out = e.out_dir@;
    let rendered = spec_rendered(c, e);
    (if e.package_json_exists {
        Seq::<StepView>::empty()
    } else {
        seq![StepView::WriteFile { path: out + "/package.json"@, contents: default_package_json() }]
    }) + (if e.node_modules_exists {
        Seq::<StepView>::empty()
    } else {
        seq![StepView::RunInstall { dir: out }]
    }) + seq![
        StepView::WriteFile {
            path: out + "/tailwind.config.js"@,
            contents: "module.exports = "@ + rendered + "\n"@,
        },
    ] + (match c.css_path {
        Option::Some(p) => seq![
            StepView::RerunIfChanged { path: p@ },
            StepView::CopyFile { from: p@, to: out + "/style.in.css"@ },
        ],
        Option::None => if e.root_css_exists {
            seq![StepView::CopyFile { from: "style.css"@, to: out + "/style.in.css"@ }]
        } else {
            seq![
                StepView::WriteFile {
                    path: out + "/style.in.css"@,
                    contents: default_style_css(),
                },
            ]
        },
    }) + seq![
        StepView::RunCompile {
            dir: out,
            input: out + "/style.in.css"@,
            output: out + "/style.css"@,
        },
        StepView::EmitEnv { key: "INCLUDE_TAILWIND_PATH"@, value: out + "/style.css"@ },
    ]
}

/// The steps of the just-in-time pipeline: write the configuration script
/// and expose its path and the script source to the consuming build.
pub open spec fn spec_jit_steps(c: BuildConfig, e: EnvSnapshot) -> Seq<StepView> {
    let out = e.out_dir@;
    let rendered = spec_rendered(c, e);
    seq![
        StepView::WriteFile {
            path: out + "/jit_config.js"@,
            contents: "tailwind.config = "@ + rendered,
        },
        StepView::EmitEnv { key: "INCLUDE_TAILWIND_JIT_CONFIG_PATH"@, value: out + "/jit_config.js"@ },
        StepView::EmitEnv { key: "INCLUDE_TAILWIND_JIT_URL"@, value: c.cdn_src@ },
    ]
}

/// The full plan of an invocation whose planning succeeds.
pub open spec fn spec_steps(c: BuildConfig, e: EnvSnapshot) -> Seq<StepView> {
    spec_profile_steps(e) + if selects_install(c, e) {
        spec_install_steps(c, e)
    } else {
        spec_jit_steps(c, e)
    }
}

impl BuildConfig {
    /// A configuration with the default values: no custom stylesheet, no
    /// forcing, the default configuration document, the default script
    /// source.
    pub fn new() -> (r: BuildConfig)
        ensures
            is_default_build_config(r),
    {
        let mut globs: Vec<JsonValue> = Vec::new();
        globs.push(JsonValue::Str("{src_dir}/**/*.{html,js,rs}".to_owned()));
        let mut theme: Vec<(String, JsonValue)> = Vec::new();
        theme.push(("extend".to_owned(), JsonValue::Obj(Vec::new())));
        let mut fields: Vec<(String, JsonValue)> = Vec::new();
        fields.push(("content".to_owned(), JsonValue::Arr(globs)));
        fields.push(("theme".to_owned(), JsonValue::Obj(theme)));
        fields.push(("plugins".to_owned(), JsonValue::Arr(Vec::new())));
        BuildConfig {
            css_path: None,
            always: false,
            tailwind_config: JsonValue::Obj(fields),
            cdn_src: "https://cdn.tailwindcss.com".to_owned(),
        }
    }

    /// Sets or clears the custom stylesheet path.
    pub fn with_path(self, p: Option<String>) -> (r: BuildConfig)
        ensures
            r == (BuildConfig { css_path: p, ..self }),
    {
        BuildConfig { css_path: p, ..self }
    }

    /// Overrides the script source used in just-in-time mode.
    pub fn with_cdn_src(self, s: String) -> (r: BuildConfig)
        ensures
            r == (BuildConfig { cdn_src: s, ..self }),
    {
        BuildConfig { cdn_src: s, ..self }
    }

    /// Replaces the configuration document.
    pub fn with_tw_config(self, config: JsonValue) -> (r: BuildConfig)
        ensures
            r == (BuildConfig { tailwind_config: config, ..self }),
    {
        BuildConfig { tailwind_config: config, ..self }
    }

    /// Forces the install-and-compile pipeline, whatever the profile.
    pub fn always(self) -> (r: BuildConfig)
        ensures
            r == (BuildConfig { always: true, ..self }),
    {
        BuildConfig { always: true, ..self }
    }

    /// Renders the configuration document against the source directory;
    /// fails exactly when the source directory is not representable.
    pub fn config_string(&self, src_dir: &Option<String>) -> (r: Result<String, Error>)
        ensures
            (match r {
                Ok(s) => src_dir is Some && s@ == spec_render(
                    self.tailwind_config,
                    (src_dir->Some_0)@,
                ),
                Err(e) => src_dir is None && e is InvalidSrcPath,
            }),
    {
        match src_dir {
            Option::None => Err(Error::InvalidSrcPath),
            Option::Some(s) => Ok(render(&self.tailwind_config, s.as_str())),
        }
    }

    /// Plans one invocation: selects the pipeline and returns the exact
    /// list of steps, or the failure.
    pub fn build(&self, env: &EnvSnapshot) -> (r: Result<Plan, Error>)
        ensures
            (match r {
                Ok(p) => spec_plan_ok(*self, *env) && p@ == spec_steps(*self, *env),
                Err(e) => !spec_plan_ok(*self, *env) && ((e is InvalidSrcPath
                    && env.src_dir is None) || (e is MissingCssFile && env.src_dir is Some
                    && selects_install(*self, *env) && self.css_path is Some
                    && !env.custom_css_exists)),
            }),
    {
        let mut steps: Vec<Step> = Vec::new();
        steps.push(Step::RerunIfEnvChanged { var: "PROFILE".to_owned() });
        match &env.profile {
            Option::None => {
                steps.push(
                    Step::Warn {
                        message: "'PROFILE' was not defined, defaulting to debug".to_owned(),
                    },
                );
            },
            Option::Some(p) => {
                let release = "release".to_owned();
                let debug = "debug".to_owned();
                if !(*p == release) && !(*p == debug) {
                    let message = "'PROFILE' was neither release nor debug ('".to_owned().concat(
                        p.as_str(),
                    ).concat("')");
                    steps.push(Step::Warn { message });
                }
            },
        }
        proof {
            assert(steps@.map_values(|s: Step| s@) =~~= spec_profile_steps(*env));
        }
        let rendered = match self.config_string(&env.src_dir) {
            Err(e) => {
                return Err(e);
            },
            Ok(s) => s,
        };
        let profile = detect(&env.profile);
        let install = matches!(profile, BuildProfile::Release) || self.always;
        let out = env.out_dir.as_str();
        if install {
            if self.css_path.is_some() && !env.custom_css_exists {
                return Err(Error::MissingCssFile);
            }
            if !env.package_json_exists {
                steps.push(
                    Step::WriteFile {
                        path: join(out, "/package.json"),
                        contents: default_package_json_text(),
                    },
                );
            }
            if !env.node_modules_exists {
                steps.push(Step::RunInstall { dir: env.out_dir.clone() });
            }
            steps.push(
                Step::WriteFile {
                    path: join(out, "/tailwind.config.js"),
                    contents: "module.exports = ".to_owned().concat(rendered.as_str()).concat(
                        "\n",
                    ),
                },
            );
            match &self.css_path {
                Option::Some(p) => {
                    steps.push(Step::RerunIfChanged { path: p.clone() });
                    steps.push(
                        Step::CopyFile { from: p.clone(), to: join(out, "/style.in.css") },
                    );
                },
                Option::None => {
                    if env.root_css_exists {
                        steps.push(
                            Step::CopyFile {
                                from: "style.css".to_owned(),
                                to: join(out, "/style.in.css"),
                            },
                        );
                    } else {
                        steps.push(
                            Step::WriteFile {
                                path: join(out, "/style.in.css"),
                                contents: default_style_css_text(),
                            },
                        );
                    }
                },
            }
            steps.push(
                Step::RunCompile {
                    dir: env.out_dir.clone(),
                    input: join(out, "/style.in.css"),
                    output: join(out, "/style.css"),
                },
            );
            steps.push(
                Step::EmitEnv {
                    key: "INCLUDE_TAILWIND_PATH".to_owned(),
                    value: join(out, "/style.css"),
                },
            );
        } else {
            steps.push(
                Step::WriteFile {
                    path: join(out, "/jit_config.js"),
                    contents: "tailwind.config = ".to_owned().concat(rendered.as_str()),
                },
            );
            steps.push(
                Step::EmitEnv {
                    key: "INCLUDE_TAILWIND_JIT_CONFIG_PATH".to_owned(),
                    value: join(out, "/jit_config.js"),
                },
            );
            steps.push(
                Step::EmitEnv {
                    key: "INCLUDE_TAILWIND_JIT_URL".to_owned(),
                    value: self.cdn_src.clone(),
                },
            );
        }
        let plan = Plan { steps };
        proof {
            assert(plan@ =~~= spec_steps(*self, *env));
        }
        Ok(plan)
    }
}

/// The serialized form of the default configuration document.
pub open spec fn default_config_text() -> Seq<char> {
    "{\n  \"content\": [\n    \"{src_dir}/**/*.{html,js,rs}\"\n  ],\n  \"theme\": {\n    \"extend\": {}\n  },\n  \"plugins\": []\n}"@
}

/// The default configuration document serializes to exactly
/// `default_config_text`.
#[verifier::rlimit(100)]
pub proof fn lemma_default_config_text(v: JsonValue)
    requires
        is_default_config(v),
    ensures
        crate::json::spec_json(v, 0) == default_config_text(),
{
    reveal_strlit(
        "{\n  \"content\": [\n    \"{src_dir}/**/*.{html,js,rs}\"\n  ],\n  \"theme\": {\n    \"extend\": {}\n  },\n  \"plugins\": []\n}",
    );
    reveal_strlit("content");
    reveal_strlit("theme");
    reveal_strlit("extend");
    reveal_strlit("plugins");
    reveal_strlit("{src_dir}/**/*.{html,js,rs}");
    let fields = v->Obj_0;
    crate::json::lemma_escape_plain("content"@);
    crate::json::lemma_escape_plain("theme"@);
    crate::json::lemma_escape_plain("extend"@);
    crate::json::lemma_escape_plain("plugins"@);
    crate::json::lemma_escape_plain("{src_dir}/**/*.{html,js,rs}"@);
    reveal_with_fuel(crate::json::spec_fields, 8);
    reveal_with_fuel(crate::json::spec_json, 8);
    reveal_with_fuel(crate::json::spec_items, 8);
    reveal_strlit("[\n    \"{src_dir}/**/*.{html,js,rs}\"\n  ]");
    reveal_strlit("{\n    \"extend\": {}\n  }");
    assert(crate::json::spec_json(v->Obj_0@[0].1, 1) =~= "[\n    \"{src_dir}/**/*.{html,js,rs}\"\n  ]"@);
    assert(crate::json::spec_json(v->Obj_0@[1].1, 1) =~= "{\n    \"extend\": {}\n  }"@);
    assert(crate::json::spec_json(v->Obj_0@[2].1, 1) =~= "[]"@) by {
        reveal_strlit("[]");
    }
    assert(crate::json::spec_json(v, 0) =~= default_config_text());
}

/// If two sequences differ, they still differ after the same prefix.
proof fn lemma_append_ne(x: Seq<char>, a: Seq<char>, b: Seq<char>)
    requires
        a != b,
    ensures
        x + a != x + b,
{
    if x + a == x + b {
        assert(a =~= (x + a).skip(x.len() as int));
        assert(b =~= (x + b).skip(x.len() as int));
    }
}

/// MODE SELECTION: the install-and-compile pipeline is taken exactly for a
/// release profile or a forced-always configuration; otherwise, and in
/// particular for a debug or an unknown profile without forcing, the
/// just-in-time pipeline is taken.
pub proof fn lemma_mode_selection(c: BuildConfig, e: EnvSnapshot)
    ensures
        selects_install(c, e) <==> (spec_detect(e.profile) is Release || c.always),
        selects_install(c, e) ==> spec_steps(c, e) == spec_profile_steps(e) + spec_install_steps(
            c,
            e,
        ),
        !selects_install(c, e) ==> spec_steps(c, e) == spec_profile_steps(e) + spec_jit_steps(c, e),
{
}

/// MANIFEST IDEMPOTENCE: when the package manifest already exists, no step
/// of the plan writes or copies to its path, so its content persists across
/// re-runs.
pub proof fn lemma_manifest_preserved(c: BuildConfig, e: EnvSnapshot)
    requires
        e.package_json_exists,
    ensures
        forall|i: int|
            0 <= i < spec_steps(c, e).len() ==> match #[trigger] spec_steps(c, e)[i] {
                StepView::WriteFile { path, .. } => path != e.out_dir@ + "/package.json"@,
                StepView::CopyFile { to, .. } => to != e.out_dir@ + "/package.json"@,
                _ => true,
            },
{
    let out = e.out_dir@;
    let manifest = out + "/package.json"@;
    reveal_strlit("/package.json");
    reveal_strlit("/tailwind.config.js");
    reveal_strlit("/style.in.css");
    reveal_strlit("/jit_config.js");
    assert("/tailwind.config.js"@ != "/package.json"@);
    assert("/style.in.css"@ != "/package.json"@) by {
        if "/style.in.css"@ == "/package.json"@ {
            assert("/style.in.css"@[1] == "/package.json"@[1]);
        }
    }
    assert("/jit_config.js"@ != "/package.json"@);
    lemma_append_ne(out, "/tailwind.config.js"@, "/package.json"@);
    lemma_append_ne(out, "/style.in.css"@, "/package.json"@);
    lemma_append_ne(out, "/jit_config.js"@, "/package.json"@);
}

/// INSTALL IDEMPOTENCE: when the dependency-cache directory already
/// exists, no step of the plan invokes the package-installation command.
pub proof fn lemma_install_skipped(c: BuildConfig, e: EnvSnapshot)
    requires
        e.node_modules_exists,
    ensures
        forall|i: int|
            0 <= i < spec_steps(c, e).len() ==> !(#[trigger] spec_steps(c, e)[i] is RunInstall),
{
}

/// NO SUBPROCESS IN JIT MODE: the just-in-time pipeline never invokes an
/// external command.
pub proof fn lemma_jit_no_subprocess(c: BuildConfig, e: EnvSnapshot)
    requires
        !selects_install(c, e),
    ensures
        forall|i: int|
            0 <= i < spec_steps(c, e).len() ==> !(#[trigger] spec_steps(c, e)[i] is RunInstall)
                && !(spec_steps(c, e)[i] is RunCompile),
{
}

/// DEFAULT STYLESHEET: with no custom stylesheet configured and no
/// conventional stylesheet present, the plan writes the input stylesheet
/// with exactly the built-in default content.
pub proof fn lemma_default_stylesheet(c: BuildConfig, e: EnvSnapshot)
    requires
        selects_install(c, e),
        c.css_path is None,
        !e.root_css_exists,
    ensures
        spec_steps(c, e).contains(
            StepView::WriteFile {
                path: e.out_dir@ + "/style.in.css"@,
                contents: default_style_css(),
            },
        ),
{
    let target = StepView::WriteFile {
        path: e.out_dir@ + "/style.in.css"@,
        contents: default_style_css(),
    };
    let idx = spec_profile_steps(e).len() + (if e.package_json_exists {
        0int
    } else {
        1int
    }) + (if e.node_modules_exists {
        0int
    } else {
        1int
    }) + 1;
    assert(spec_steps(c, e)[idx] == target);
    assert(spec_steps(c, e).contains(target));
}

/// FAILURE BEFORE ANY PROCESS: with a custom stylesheet path pointing at a
/// nonexistent file, planning fails, so no step — in particular no
/// external command — is ever performed.
pub proof fn lemma_missing_stylesheet_fails(c: BuildConfig, e: EnvSnapshot)
    requires
        selects_install(c, e),
        c.css_path is Some,
        !e.custom_css_exists,
    ensures
        !spec_plan_ok(c, e),
{
}

/// Plans one invocation with the default configuration.
pub fn build_tailwind(env: &EnvSnapshot) -> (r: Result<Plan, Error>)
    ensures
        (match r {
            Ok(p) => env.src_dir is Some && exists|c: BuildConfig|
                is_default_build_config(c) && p@ == #[trigger] spec_steps(c, *env),
            Err(e) => env.src_dir is None && e is InvalidSrcPath,
        }),
{
    let c = BuildConfig::new();
    let r = c.build(env);
    proof {
        if r is Ok {
            assert(is_default_build_config(c) && (r->Ok_0)@ == spec_steps(c, *env));
        }
    }
    r
}

} // verus!
