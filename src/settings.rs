//! The fixed configuration under which the language server drives the
//! project compiler, and the settings it derives for each package.
use vstd::prelude::*;

verus! {

/// A compilation profile.
#[derive(Clone, Copy, Debug, PartialEq, Eq, Structural)]
pub enum Mode {
    Dev,
    Prod,
    Lsp,
}

/// A target platform.
#[derive(Clone, Copy, Debug, PartialEq, Eq, Structural)]
pub enum Target {
    Erlang,
    JavaScript,
}

/// Which packages get code generated.
#[derive(Clone, Copy, Debug, PartialEq, Eq, Structural)]
pub enum Codegen {
    All,
    DepsOnly,
    Disabled,
}

/// Whether every function must have an implementation for the target.
#[derive(Clone, Copy, Debug, PartialEq, Eq, Structural)]
pub enum TargetSupport {
    Enforced,
    NotEnforced,
}

/// What becomes of the standard output of tools the compiler runs.
#[derive(Clone, Copy, Debug, PartialEq, Eq, Structural)]
pub enum Stdio {
    Inherit,
    Null,
}

/// Options of the project compiler.
#[derive(Clone, Copy, Debug, PartialEq, Eq, Structural)]
pub struct Options {
    pub warnings_as_errors: bool,
    pub mode: Mode,
    pub target: Option<Target>,
    pub codegen: Codegen,
    pub root_target_support: TargetSupport,
}

/// The root package's configuration, as far as the compile reads it.
#[derive(Clone, Debug)]
pub struct PackageConfig {
    pub name: String,
    pub target: Target,
    pub typescript_declarations: bool,
}

/// A build-output directory: the cache of one package for one mode and
/// target.
#[derive(Clone, Debug)]
pub struct BuildDirectory {
    pub mode: Mode,
    pub target: Target,
    pub package: String,
}

/// A package of the resolved manifest, as far as code generation reads it.
#[derive(Clone, Debug)]
pub struct ManifestPackage {
    pub name: String,
    /// The application name the package is built under, where it is not
    /// the package's own name.
    pub otp_app: Option<String>,
}

/// Where the JavaScript prelude lies, relative to each package's output
/// directory.
pub open spec fn spec_prelude_location() -> Seq<char> {
    "../prelude.mjs"@
}

/// Target-specific code generation settings of one package.
#[derive(Clone, Debug, PartialEq, Eq)]
pub enum TargetCodegen {
    Erlang { include_dev_deps: bool, package_name_overrides: Vec<(String, String)> },
    JavaScript { emit_typescript_definitions: bool, prelude_location: String },
}

/// What a `TargetCodegen` holds, with strings as character sequences.
pub enum TargetCodegenView {
    Erlang { include_dev_deps: bool, package_name_overrides: Seq<(Seq<char>, Seq<char>)> },
    JavaScript { emit_typescript_definitions: bool, prelude_location: Seq<char> },
}

/// The views of a sequence of string pairs.
pub open spec fn pairs_view(v: Seq<(String, String)>) -> Seq<(Seq<char>, Seq<char>)> {
    v.map_values(|p: (String, String)| (p.0@, p.1@))
}

impl View for TargetCodegen {
    type V = TargetCodegenView;

    open spec fn view(&self) -> TargetCodegenView {
        match self {
            TargetCodegen::Erlang { include_dev_deps, package_name_overrides } => TargetCodegenView::Erlang {
                include_dev_deps: *include_dev_deps,
                package_name_overrides: pairs_view(package_name_overrides@),
            },
            TargetCodegen::JavaScript { emit_typescript_definitions, prelude_location } => TargetCodegenView::JavaScript {
                emit_typescript_definitions: *emit_typescript_definitions,
                prelude_location: prelude_location@,
            },
        }
    }
}

/// How one package is compiled.
#[derive(Clone, Debug, PartialEq, Eq)]
pub struct PackageSettings {
    pub mode: Mode,
    pub codegen: TargetCodegen,
    pub write_metadata: bool,
    pub write_entrypoint: bool,
    pub perform_codegen: bool,
    pub compile_beam_bytecode: bool,
    pub subprocess_stdio: Stdio,
    pub target_support: TargetSupport,
}

/// What a `PackageSettings` holds, with the code generation settings viewed.
pub struct PackageSettingsView {
    pub mode: Mode,
    pub codegen: TargetCodegenView,
    pub write_metadata: bool,
    pub write_entrypoint: bool,
    pub perform_codegen: bool,
    pub compile_beam_bytecode: bool,
    pub subprocess_stdio: Stdio,
    pub target_support: TargetSupport,
}

impl View for PackageSettings {
    type V = PackageSettingsView;

    open spec fn view(&self) -> PackageSettingsView {
        PackageSettingsView {
            mode: self.mode,
            codegen: self.codegen@,
            write_metadata: self.write_metadata,
            write_entrypoint: self.write_entrypoint,
            perform_codegen: self.perform_codegen,
            compile_beam_bytecode: self.compile_beam_bytecode,
            subprocess_stdio: self.subprocess_stdio,
            target_support: self.target_support,
        }
    }
}

/// The application name overrides of `packages`: the name and application
/// of each package that has one, in manifest order.
pub open spec fn spec_name_overrides(packages: Seq<ManifestPackage>) -> Seq<(Seq<char>, Seq<char>)>
    decreases packages.len(),
{
    if packages.len() == 0 {
        Seq::empty()
    } else {
        let rest = spec_name_overrides(packages.drop_last());
        match packages.last().otp_app {
            Some(app) => rest.push((packages.last().name@, app@)),
            None => rest,
        }
    }
}

/// The application name overrides of `packages`.
pub fn name_overrides(packages: &Vec<ManifestPackage>) -> (r: Vec<(String, String)>)
    ensures
        pairs_view(r@) == spec_name_overrides(packages@),
{
    let mut r: Vec<(String, String)> = Vec::new();
    let mut i: usize = 0;
    while i < packages.len()
        invariant
            i <= packages@.len(),
            pairs_view(r@) == spec_name_overrides(packages@.take(i as int)),
        decreases packages@.len() - i,
    {
        let ghost before = r@;
        assert(packages@.take(i + 1).drop_last() == packages@.take(i as int));
        let p = &packages[i];
        if let Some(app) = &p.otp_app {
            r.push((p.name.clone(), app.clone()));
            assert(pairs_view(r@) =~= pairs_view(before).push((p.name@, app@)));
        }
        i = i + 1;
    }
    assert(packages@.take(packages@.len() as int) == packages@);
    r
}

pub open spec fn spec_should_codegen(codegen: Codegen, is_root: bool) -> bool {
    match codegen {
        Codegen::All => true,
        Codegen::DepsOnly => !is_root,
        Codegen::Disabled => false,
    }
}

impl Codegen {
    /// Whether a package, the root or a dependency, gets code generated.
    pub fn should_codegen(&self, is_root: bool) -> (r: bool)
        ensures
            r == spec_should_codegen(*self, is_root),
    {
        match self {
            Codegen::All => true,
            Codegen::DepsOnly => !is_root,
            Codegen::Disabled => false,
        }
    }
}

/// The options of a language-server compile: warnings stay warnings, the
/// language-server mode, the target of the package configuration, no code
/// generation, and full target support demanded of the root package.
pub open spec fn spec_lsp_options() -> Options {
    Options {
        warnings_as_errors: false,
        mode: Mode::Lsp,
        target: None,
        codegen: Codegen::Disabled,
        root_target_support: TargetSupport::Enforced,
    }
}

/// The options under which the language server compiles.
pub fn lsp_options() -> (r: Options)
    ensures
        r == spec_lsp_options(),
{
    Options {
        warnings_as_errors: false,
        mode: Mode::Lsp,
        target: None,
        codegen: Codegen::Disabled,
        root_target_support: TargetSupport::Enforced,
    }
}

/// The target a compile is for: the one of the options, else the package's.
pub open spec fn spec_effective_target(options: Options, config_target: Target) -> Target {
    match options.target {
        Some(t) => t,
        None => config_target,
    }
}

pub open spec fn spec_package_settings(
    options: Options,
    config_target: Target,
    typescript_declarations: bool,
    packages: Seq<ManifestPackage>,
    is_root: bool,
    stdio: Stdio,
) -> PackageSettingsView {
    PackageSettingsView {
        mode: if is_root { options.mode } else { Mode::Prod },
        codegen: match spec_effective_target(options, config_target) {
            Target::Erlang => TargetCodegenView::Erlang {
                include_dev_deps: is_root,
                package_name_overrides: spec_name_overrides(packages),
            },
            Target::JavaScript => TargetCodegenView::JavaScript {
                emit_typescript_definitions: typescript_declarations,
                prelude_location: spec_prelude_location(),
            },
        },
        write_metadata: true,
        write_entrypoint: is_root,
        perform_codegen: spec_should_codegen(options.codegen, is_root),
        compile_beam_bytecode: spec_should_codegen(options.codegen, is_root),
        subprocess_stdio: stdio,
        target_support: if is_root { options.root_target_support } else { TargetSupport::NotEnforced },
    }
}

/// The settings for compiling the root package (`is_root`) or a dependency:
/// dependencies are built in production mode, without an entrypoint, and are
/// never held to full target support. Erlang builds carry the application
/// name overrides of the manifest's `packages`; JavaScript builds find the
/// prelude one directory up.
pub fn package_settings(
    options: &Options,
    config: &PackageConfig,
    packages: &Vec<ManifestPackage>,
    is_root: bool,
    stdio: Stdio,
) -> (r: PackageSettings)
    ensures
        r@ == spec_package_settings(
            *options,
            config.target,
            config.typescript_declarations,
            packages@,
            is_root,
            stdio,
        ),
{
    let target = match options.target {
        Some(t) => t,
        None => config.target,
    };
    let codegen = match target {
        Target::Erlang => TargetCodegen::Erlang {
            include_dev_deps: is_root,
            package_name_overrides: name_overrides(packages),
        },
        Target::JavaScript => TargetCodegen::JavaScript {
            emit_typescript_definitions: config.typescript_declarations,
            prelude_location: "../prelude.mjs".to_owned(),
        },
    };
    let generate = options.codegen.should_codegen(is_root);
    PackageSettings {
        mode: if is_root { options.mode } else { Mode::Prod },
        codegen,
        write_metadata: true,
        write_entrypoint: is_root,
        perform_codegen: generate,
        compile_beam_bytecode: generate,
        subprocess_stdio: stdio,
        target_support: if is_root { options.root_target_support } else { TargetSupport::NotEnforced },
    }
}

} // verus!
