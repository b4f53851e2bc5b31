//! Repeated recompilation of the package under edit, reusing the packages it
//! depends on, with a last good snapshot of every module compiled so far.
use vstd::prelude::*;
use crate::settings::{
    lsp_options, package_settings, spec_lsp_options, spec_package_settings, BuildDirectory,
    ManifestPackage, Mode, Options, PackageConfig, PackageSettings, Stdio, Target,
};
use crate::snapshot::{
    insert_modules, insert_sources, paths_of, string_views, Module, ModuleSourceInformation,
    Snapshot,
};
use crate::warnings::{is_take, WarningSink};

verus! {

/// What one phase of the project compiler hands back: its outcome and the
/// warnings it raised.
pub struct PhaseOutput<T, E, W> {
    pub result: Result<T, E>,
    pub warnings: Vec<W>,
}

/// The compiler of a whole project: it compiles the dependency packages and
/// the root package, keeps the interfaces of the modules that can be
/// imported, and owns the file system access of the build.
pub trait ProjectCompiler {
    /// The compiled representation of a module.
    type Ast;

    /// The interface of an importable module.
    type Interface;

    type Error;

    type Warning;

    /// Fails where the build directory was written by another compiler version.
    fn check_version(&mut self) -> Result<(), Self::Error>;

    /// Compiles every package but the root, reusing their caches.
    fn compile_dependencies(&mut self, settings: &PackageSettings) -> PhaseOutput<
        Vec<Module<Self::Ast>>,
        Self::Error,
        Self::Warning,
    >;

    /// Compiles the root package.
    fn compile_root_package(&mut self, settings: &PackageSettings) -> PhaseOutput<
        Vec<Module<Self::Ast>>,
        Self::Error,
        Self::Warning,
    >;

    /// The interfaces of the modules that can be imported, by name.
    spec fn importable(&self) -> Map<Seq<char>, Self::Interface>;

    /// The interface of the importable module `name`, if there is one.
    fn importable_module(&self, name: &str) -> (r: Option<&Self::Interface>)
        ensures
            match r {
                Some(i) => self.importable().contains_key(name@) && *i == self.importable()[name@],
                None => !self.importable().contains_key(name@),
            },
    ;

    /// Deletes `directory`; a directory that does not exist is no error.
    fn delete_directory(&mut self, directory: &BuildDirectory) -> Result<(), Self::Error>;
}

/// Exclusive access to the build directory, held for as long as the guard
/// lives.
pub trait Locker {
    type Guard;

    fn lock_for_build(&self) -> Self::Guard;
}

/// The build directory of the root package for the language-server mode and
/// the package's target.
pub open spec fn spec_lsp_build_directory(config: PackageConfig) -> (Mode, Target, Seq<char>) {
    (Mode::Lsp, config.target, config.name@)
}

/// The build directory whose cache is discarded before the first compile.
pub fn lsp_build_directory(config: &PackageConfig) -> (r: BuildDirectory)
    ensures
        (r.mode, r.target, r.package@) == spec_lsp_build_directory(*config),
{
    BuildDirectory { mode: Mode::Lsp, target: config.target, package: config.name.clone() }
}

/// Wraps a project compiler so that the root package can be compiled again
/// and again, reusing what is known of the compiled dependencies.
pub struct LspProjectCompiler<C: ProjectCompiler, L: Locker> {
    project_compiler: C,
    locker: L,
    options: Options,
    root_settings: PackageSettings,
    dependency_settings: PackageSettings,
    snapshot: Snapshot<C::Ast>,
    warnings: WarningSink<C::Warning>,
}

impl<C: ProjectCompiler, L: Locker> LspProjectCompiler<C, L> {
    /// The snapshot is well formed.
    pub closed spec fn inv(&self) -> bool {
        self.snapshot.well_formed()
    }

    /// The whole snapshot: modules, source information and their order.
    pub closed spec fn current_snapshot(&self) -> Snapshot<C::Ast> {
        self.snapshot
    }

    /// The modules compiled so far, by name.
    pub closed spec fn modules(&self) -> Map<Seq<char>, Module<C::Ast>> {
        self.snapshot.modules()
    }

    /// The source information of the modules compiled so far, by name.
    pub closed spec fn sources(&self) -> Map<Seq<char>, (Seq<char>, Seq<u8>)> {
        self.snapshot.sources()
    }

    /// The interfaces the project compiler holds as importable, by name.
    pub closed spec fn interfaces(&self) -> Map<Seq<char>, C::Interface> {
        self.project_compiler.importable()
    }

    /// Everything but the pending warnings is as in `before`: the snapshot,
    /// both of its maps, the importable interfaces, the options and the
    /// settings of both phases.
    pub open spec fn keeps_compiled_state(&self, before: &Self) -> bool {
        &&& self.current_snapshot() == before.current_snapshot()
        &&& self.modules() == before.modules()
        &&& self.sources() == before.sources()
        &&& self.inv() == before.inv()
        &&& self.spec_options() == before.spec_options()
        &&& self.spec_root_settings() == before.spec_root_settings()
        &&& self.spec_dependency_settings() == before.spec_dependency_settings()
    }

    /// The warnings not yet taken.
    pub closed spec fn pending_warnings(&self) -> Seq<C::Warning> {
        self.warnings@
    }

    /// The options the project compiler runs under.
    pub closed spec fn spec_options(&self) -> Options {
        self.options
    }

    /// The settings handed to the compile of the root package.
    pub closed spec fn spec_root_settings(&self) -> PackageSettings {
        self.root_settings
    }

    /// The settings handed to the compile of the dependencies.
    pub closed spec fn spec_dependency_settings(&self) -> PackageSettings {
        self.dependency_settings
    }

    /// Discards the root package's language-server cache, under the build
    /// lock, fixes the settings of both phases from the manifest's `packages`
    /// and the package configuration, and sets up an empty snapshot and
    /// warning buffer. Fails with the error of the deletion.
    pub fn new(
        packages: Vec<ManifestPackage>,
        config: PackageConfig,
        project_compiler: C,
        locker: L,
    ) -> (r: Result<Self, C::Error>)
        ensures
            r matches Ok(c) ==> {
                &&& c.inv()
                &&& c.modules() == Map::<Seq<char>, Module<C::Ast>>::empty()
                &&& c.sources() == Map::<Seq<char>, (Seq<char>, Seq<u8>)>::empty()
                &&& c.pending_warnings() == Seq::<C::Warning>::empty()
                &&& c.spec_options() == spec_lsp_options()
                &&& c.spec_root_settings()@ == spec_package_settings(
                    spec_lsp_options(),
                    config.target,
                    config.typescript_declarations,
                    packages@,
                    true,
                    Stdio::Null,
                )
                &&& c.spec_dependency_settings()@ == spec_package_settings(
                    spec_lsp_options(),
                    config.target,
                    config.typescript_declarations,
                    packages@,
                    false,
                    Stdio::Null,
                )
            },
    {
        let mut project_compiler = project_compiler;
        let directory = lsp_build_directory(&config);
        let deleted = {
            let _guard = locker.lock_for_build();
            project_compiler.delete_directory(&directory)
        };
        if let Err(e) = deleted {
            return Err(e);
        }
        let options = lsp_options();
        let root_settings = package_settings(&options, &config, &packages, true, Stdio::Null);
        let dependency_settings = package_settings(&options, &config, &packages, false, Stdio::Null);
        Ok(LspProjectCompiler {
            project_compiler,
            locker,
            options,
            root_settings,
            dependency_settings,
            snapshot: Snapshot::new(),
            warnings: WarningSink::new(),
        })
    }

    /// Compiles the dependencies, then the root package, under the build lock.
    /// On success every module compiled in this call is recorded, and the
    /// paths of those modules come back, dependencies first. On any failure
    /// the snapshot is left exactly as it was.
    pub fn compile(&mut self) -> (r: Result<Vec<String>, C::Error>)
        requires
            old(self).inv(),
        ensures
            final(self).inv(),
            final(self).spec_options() == old(self).spec_options(),
            final(self).spec_root_settings() == old(self).spec_root_settings(),
            final(self).spec_dependency_settings() == old(self).spec_dependency_settings(),
            r is Err ==> {
                &&& final(self).current_snapshot() == old(self).current_snapshot()
                &&& final(self).modules() == old(self).modules()
                &&& final(self).sources() == old(self).sources()
            },
            r matches Ok(paths) ==> exists|ms: Seq<Module<C::Ast>>|
                {
                    &&& string_views(paths@) == paths_of(ms)
                    &&& final(self).modules() == #[trigger] insert_modules(old(self).modules(), ms)
                    &&& final(self).sources() == insert_sources(old(self).sources(), ms)
                },
    {
        let _guard = self.locker.lock_for_build();
        if let Err(e) = self.project_compiler.check_version() {
            return Err(e);
        }
        let dependencies = self.project_compiler.compile_dependencies(&self.dependency_settings);
        let compiled_dependencies = match self.take_dependencies(dependencies) {
            Ok(ms) => ms,
            Err(e) => {
                return Err(e);
            },
        };
        let root = self.project_compiler.compile_root_package(&self.root_settings);
        let ghost deps = compiled_dependencies@;
        let ghost root_result = root.result;
        let ghost before = self.modules();
        let ghost before_sources = self.sources();
        let r = self.finish_compile(compiled_dependencies, root);
        proof {
            if let Ok(ms) = root_result {
                if let Ok(paths) = &r {
                    let w = deps + ms@;
                    assert(string_views(paths@) == paths_of(w));
                    assert(self.sources() == insert_sources(before_sources, w));
                    assert(self.modules() == insert_modules(before, w));
                    assert(before == old(self).modules());
                    assert(before_sources == old(self).sources());
                }
            }
        }
        r
    }

    /// Takes the outcome of the dependency phase. Its warnings are dropped,
    /// as they are not the user's to fix: nothing pending changes, and the
    /// phase's result comes back as it is.
    pub fn take_dependencies(
        &mut self,
        dependencies: PhaseOutput<Vec<Module<C::Ast>>, C::Error, C::Warning>,
    ) -> (r: Result<Vec<Module<C::Ast>>, C::Error>)
        ensures
            r == dependencies.result,
            final(self).pending_warnings() == old(self).pending_warnings(),
            final(self).interfaces() == old(self).interfaces(),
            final(self).keeps_compiled_state(&*old(self)),
    {
        let PhaseOutput { result, warnings: _ } = dependencies;
        result
    }

    /// Concludes a compile whose dependencies compiled to `dependencies` and
    /// whose root package gave `root`. The warnings pending afterwards are
    /// exactly those of the root phase. Where the root failed, its error comes
    /// back and the snapshot is untouched; else the dependencies and then the
    /// root modules are recorded, and their paths come back in that order.
    pub fn finish_compile(
        &mut self,
        dependencies: Vec<Module<C::Ast>>,
        root: PhaseOutput<Vec<Module<C::Ast>>, C::Error, C::Warning>,
    ) -> (r: Result<Vec<String>, C::Error>)
        requires
            old(self).inv(),
        ensures
            final(self).inv(),
            final(self).pending_warnings() == root.warnings@,
            final(self).interfaces() == old(self).interfaces(),
            final(self).spec_options() == old(self).spec_options(),
            final(self).spec_root_settings() == old(self).spec_root_settings(),
            final(self).spec_dependency_settings() == old(self).spec_dependency_settings(),
            match root.result {
                Err(e) => r == Err::<Vec<String>, C::Error>(e) && final(self).keeps_compiled_state(
                    &*old(self),
                ),
                Ok(ms) => r matches Ok(paths) && {
                    &&& string_views(paths@) == paths_of(dependencies@ + ms@)
                    &&& final(self).modules() == insert_modules(
                        old(self).modules(),
                        dependencies@ + ms@,
                    )
                    &&& final(self).sources() == insert_sources(
                        old(self).sources(),
                        dependencies@ + ms@,
                    )
                },
            },
    {
        let _ = self.warnings.take();
        let PhaseOutput { result, warnings } = root;
        self.warnings.extend(warnings);
        let mut modules = dependencies;
        match result {
            Err(e) => Err(e),
            Ok(root_modules) => {
                let mut root_modules = root_modules;
                modules.append(&mut root_modules);
                Ok(self.snapshot.record_all(modules))
            },
        }
    }

    /// The interface of the importable module `name`, as the project compiler
    /// has it; none where the name is unknown.
    pub fn get_module_inferface(&self, name: &str) -> (r: Option<&C::Interface>)
        ensures
            match r {
                Some(i) => self.interfaces().contains_key(name@) && *i == self.interfaces()[name@],
                None => !self.interfaces().contains_key(name@),
            },
    {
        self.project_compiler.importable_module(name)
    }

    /// Hands out every pending warning and empties the buffer.
    pub fn take_warnings(&mut self) -> (r: Vec<C::Warning>)
        ensures
            is_take(old(self).pending_warnings(), r@, final(self).pending_warnings()),
            final(self).interfaces() == old(self).interfaces(),
            final(self).keeps_compiled_state(&*old(self)),
    {
        self.warnings.take()
    }

    /// The source information of the module `name`, if it was ever compiled.
    pub fn get_source(&self, module: &str) -> (r: Option<&ModuleSourceInformation>)
        requires
            self.inv(),
        ensures
            match r {
                Some(s) => self.sources().contains_key(module@) && self.sources()[module@] == (
                    s.path@,
                    s.line_numbers@,
                ),
                None => !self.sources().contains_key(module@),
            },
    {
        self.snapshot.get_source(module)
    }

    /// The module `name` as last compiled, if it was ever compiled.
    pub fn get_module(&self, name: &str) -> (r: Option<&Module<C::Ast>>)
        requires
            self.inv(),
        ensures
            match r {
                Some(m) => self.modules().contains_key(name@) && *m == self.modules()[name@],
                None => !self.modules().contains_key(name@),
            },
    {
        self.snapshot.get_module(name)
    }
}

} // verus!
