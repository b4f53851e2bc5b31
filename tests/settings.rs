use lsp_project_compiler::settings::{
    name_overrides, package_settings, Codegen, ManifestPackage, Mode, Options, PackageConfig, Stdio, Target, TargetCodegen,
    TargetSupport,
};
use lsp_project_compiler::warnings::WarningSink;

#[test]
fn second_take_is_empty() {
    let mut sink: WarningSink<u32> = WarningSink::new();
    sink.emit(1);
    sink.extend(vec![2, 3]);
    assert_eq!(sink.take(), vec![1, 2, 3]);
    assert!(sink.take().is_empty());
}

#[test]
fn dependency_settings_for_javascript() {
    let options = Options {
        warnings_as_errors: false,
        mode: Mode::Dev,
        target: None,
        codegen: Codegen::DepsOnly,
        root_target_support: TargetSupport::Enforced,
    };
    let packages = vec![ManifestPackage { name: "a".to_string(), otp_app: Some("b".to_string()) }];
    let config = PackageConfig { name: "p".to_string(), target: Target::JavaScript, typescript_declarations: true };
    let dep = package_settings(&options, &config, &packages, false, Stdio::Inherit);
    assert_eq!(dep.mode, Mode::Prod);
    assert!(dep.perform_codegen);
    assert!(dep.compile_beam_bytecode);
    assert!(!dep.write_entrypoint);
    assert!(dep.write_metadata);
    assert_eq!(dep.codegen, TargetCodegen::JavaScript { emit_typescript_definitions: true, prelude_location: "../prelude.mjs".to_string() });
    assert_eq!(dep.target_support, TargetSupport::NotEnforced);
    let root = package_settings(&options, &config, &packages, true, Stdio::Inherit);
    assert_eq!(root.mode, Mode::Dev);
    assert!(!root.perform_codegen);
    assert_eq!(root.target_support, TargetSupport::Enforced);
    assert_eq!(root.subprocess_stdio, Stdio::Inherit);
}

#[test]
fn erlang_settings_follow_option_target() {
    let options = Options {
        warnings_as_errors: false,
        mode: Mode::Lsp,
        target: Some(Target::Erlang),
        codegen: Codegen::All,
        root_target_support: TargetSupport::NotEnforced,
    };
    let packages = vec![ManifestPackage { name: "a".to_string(), otp_app: Some("b".to_string()) }];
    let config = PackageConfig { name: "p".to_string(), target: Target::JavaScript, typescript_declarations: true };
    let root = package_settings(&options, &config, &packages, true, Stdio::Null);
    assert_eq!(root.codegen, TargetCodegen::Erlang { include_dev_deps: true, package_name_overrides: vec![("a".to_string(), "b".to_string())] });
    assert!(root.perform_codegen);
    assert_eq!(root.target_support, TargetSupport::NotEnforced);
    assert!(Codegen::All.should_codegen(true));
    assert!(!Codegen::DepsOnly.should_codegen(true));
    assert!(!Codegen::Disabled.should_codegen(false));
}

#[test]
fn overrides_keep_manifest_order_and_skip_plain_packages() {
    let packages = vec![
        ManifestPackage { name: "x".to_string(), otp_app: Some("x_app".to_string()) },
        ManifestPackage { name: "y".to_string(), otp_app: None },
        ManifestPackage { name: "z".to_string(), otp_app: Some("z_app".to_string()) },
    ];
    assert_eq!(
        name_overrides(&packages),
        vec![("x".to_string(), "x_app".to_string()), ("z".to_string(), "z_app".to_string())]
    );
    assert!(name_overrides(&vec![]).is_empty());
}
