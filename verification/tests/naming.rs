use lets_get_coding::bootstrap::{failure_message, BootstrapFailure, ProjectRequest};
use lets_get_coding::language::{language_spec, Language};
use lets_get_coding::template::{template_dest_path, template_source_path};
use lets_get_coding::text::sanitize_project_name;

#[test]
fn language_names_parse_case_insensitively() {
    assert_eq!(Language::from_str("python"), Ok(Language::Python));
    assert_eq!(Language::from_str("Python"), Ok(Language::Python));
    assert_eq!(Language::from_str("PYTHON"), Ok(Language::Python));
    assert_eq!(Language::from_str("mojo"), Ok(Language::Mojo));
    assert_eq!(Language::from_str("julia"), Ok(Language::Julia));
    assert_eq!(Language::from_str("r"), Ok(Language::R));
    assert_eq!(Language::from_str("R"), Ok(Language::R));
    assert_eq!(Language::from_str("go"), Ok(Language::Go));
    assert_eq!(Language::from_str("GO"), Ok(Language::Go));
    assert_eq!(Language::from_str("rust"), Ok(Language::Rust));
}

#[test]
fn unknown_language_names_are_rejected() {
    assert_eq!(Language::from_str("perl"), Err(()));
    assert_eq!(Language::from_str(""), Err(()));
    assert_eq!(Language::from_str("pythonn"), Err(()));
    assert_eq!(Language::from_str("go "), Err(()));
}

#[test]
fn canonical_names_and_extensions() {
    assert_eq!(Language::Python.name(), "Python");
    assert_eq!(Language::Mojo.name(), "Mojo");
    assert_eq!(Language::Julia.name(), "Julia");
    assert_eq!(Language::R.name(), "R");
    assert_eq!(Language::Go.name(), "Go");
    assert_eq!(Language::Rust.name(), "Rust");
    assert_eq!(Language::Python.extension(), "py");
    assert_eq!(Language::Mojo.extension(), "mojo");
    assert_eq!(Language::Julia.extension(), "jl");
    assert_eq!(Language::R.extension(), "r");
    assert_eq!(Language::Go.extension(), "go");
    assert_eq!(Language::Rust.extension(), "rs");
}

#[test]
fn registry_covers_exactly_the_wired_up_languages() {
    assert!(language_spec(&Language::Python).is_some());
    assert!(language_spec(&Language::Julia).is_some());
    assert!(language_spec(&Language::Go).is_some());
    assert!(language_spec(&Language::Mojo).is_none());
    assert!(language_spec(&Language::R).is_none());
    assert!(language_spec(&Language::Rust).is_none());
    for language in [
        Language::Python,
        Language::Mojo,
        Language::Julia,
        Language::R,
        Language::Go,
        Language::Rust,
    ] {
        assert_eq!(language.supported(), language_spec(&language).is_some());
    }
}

#[test]
fn registry_commands_for_python() {
    let spec = language_spec(&Language::Python).unwrap();
    assert_eq!(spec.toolchain, "Poetry");
    assert_eq!(spec.probe_program, "poetry");
    assert_eq!(spec.probe_arg, "--version");
    assert_eq!(spec.install_program, "pip");
    assert_eq!(spec.install_arg1, "install");
    assert_eq!(spec.install_arg2, "poetry");
    assert_eq!(spec.scaffold_program, "poetry");
    assert_eq!(spec.scaffold_arg, "new");
    assert_eq!(spec.extension, "py");
}

#[test]
fn registry_commands_for_julia_and_go() {
    let julia = language_spec(&Language::Julia).unwrap();
    assert_eq!(julia.probe_program, "julia");
    assert_eq!(julia.probe_arg, "--help");
    assert_eq!(julia.extension, "jl");
    let go = language_spec(&Language::Go).unwrap();
    assert_eq!(go.probe_program, "go");
    assert_eq!(go.probe_arg, "--help");
    assert_eq!(go.extension, "go");
}

#[test]
fn project_names_are_sanitized() {
    assert_eq!(sanitize_project_name("My Project"), "My_Project");
    assert_eq!(sanitize_project_name("my-project"), "my_project");
    assert_eq!(sanitize_project_name("a b-c"), "a_b_c");
    assert_eq!(sanitize_project_name("plain"), "plain");
    assert_eq!(sanitize_project_name(""), "");
}

#[test]
fn every_language_request_sanitizes_the_name() {
    for language in [Language::Python, Language::Julia, Language::Go] {
        let req = ProjectRequest::new("My Project", language).unwrap();
        assert_eq!(req.project_name, "My_Project");
        assert_eq!(req.spec.language, language);
    }
}

#[test]
fn unsupported_languages_are_rejected_before_any_action() {
    for language in [Language::Mojo, Language::R, Language::Rust] {
        let err = ProjectRequest::new("proj", language).unwrap_err();
        assert_eq!(err, BootstrapFailure::UnsupportedLanguage);
    }
}

#[test]
fn template_paths() {
    let python = language_spec(&Language::Python).unwrap();
    assert_eq!(template_source_path(&python), "templates/Python/template.py");
    assert_eq!(
        template_dest_path("My_Project", &python),
        "My_Project/My_Project/template.py"
    );
    let go = language_spec(&Language::Go).unwrap();
    assert_eq!(template_source_path(&go), "templates/Go/template.go");
    assert_eq!(template_dest_path("demo", &go), "demo/demo/template.go");
    let julia = language_spec(&Language::Julia).unwrap();
    assert_eq!(template_source_path(&julia), "templates/Julia/template.jl");
    assert_eq!(template_dest_path("demo", &julia), "demo/demo/template.jl");
}

#[test]
fn failure_messages() {
    assert_eq!(
        failure_message(&BootstrapFailure::UnsupportedLanguage),
        "Only Python, Julia, and Go are supported at this time."
    );
    assert_eq!(
        failure_message(&BootstrapFailure::InstallationDeclined),
        "environment cannot be set up without the toolchain"
    );
    assert_eq!(
        failure_message(&BootstrapFailure::TemplateCopyFailed),
        "template copy failed"
    );
}
