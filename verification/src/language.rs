//! The fixed set of languages the bootstrapper knows, and the per-language
//! descriptor binding a language to its probe command, scaffold command,
//! install command, and starter-file extension.

use vstd::prelude::*;
use crate::text::seq_eq_fold;

verus! {

/// A language a project can be created for. The set is fixed at startup;
/// adding a language means adding one variant here and one arm to the
/// registry in [`language_spec`].
#[derive(Clone, Copy, PartialEq, Eq, Debug, Structural)]
pub enum Language {
    Python,
    Mojo,
    Julia,
    R,
    Go,
    Rust,
}

/// The language named by `s`, compared without regard to ASCII case.
pub open spec fn spec_language_from_str(s: Seq<char>) -> Result<Language, ()> {
    if seq_eq_fold(s, "python"@) {
        Ok(Language::Python)
    } else if seq_eq_fold(s, "mojo"@) {
        Ok(Language::Mojo)
    } else if seq_eq_fold(s, "julia"@) {
        Ok(Language::Julia)
    } else if seq_eq_fold(s, "r"@) {
        Ok(Language::R)
    } else if seq_eq_fold(s, "go"@) {
        Ok(Language::Go)
    } else if seq_eq_fold(s, "rust"@) {
        Ok(Language::Rust)
    } else {
        Err(())
    }
}

impl Language {
    /// The canonical display name, which also names the language's directory
    /// in the template store.
    pub open spec fn spec_name(self) -> Seq<char> {
        match self {
            Language::Python => "Python"@,
            Language::Mojo => "Mojo"@,
            Language::Julia => "Julia"@,
            Language::R => "R"@,
            Language::Go => "Go"@,
            Language::Rust => "Rust"@,
        }
    }

    /// The file extension of the language's starter source file.
    pub open spec fn spec_extension(self) -> Seq<char> {
        match self {
            Language::Python => "py"@,
            Language::Mojo => "mojo"@,
            Language::Julia => "jl"@,
            Language::R => "r"@,
            Language::Go => "go"@,
            Language::Rust => "rs"@,
        }
    }

    /// The languages whose whole workflow (probe, install, scaffold) is wired
    /// up; choosing any other language is rejected before any subprocess
    /// runs.
    pub open spec fn spec_supported(self) -> bool {
        match self {
            Language::Python | Language::Julia | Language::Go => true,
            _ => false,
        }
    }

    /// Parses a language name, without regard to ASCII case.
    pub fn from_str(s: &str) -> (r: Result<Language, ()>)
        ensures
            r == spec_language_from_str(s@),
    {
        if crate::text::eq_ignore_ascii_case(s, "python") {
            Ok(Language::Python)
        } else if crate::text::eq_ignore_ascii_case(s, "mojo") {
            Ok(Language::Mojo)
        } else if crate::text::eq_ignore_ascii_case(s, "julia") {
            Ok(Language::Julia)
        } else if crate::text::eq_ignore_ascii_case(s, "r") {
            Ok(Language::R)
        } else if crate::text::eq_ignore_ascii_case(s, "go") {
            Ok(Language::Go)
        } else if crate::text::eq_ignore_ascii_case(s, "rust") {
            Ok(Language::Rust)
        } else {
            Err(())
        }
    }

    /// The canonical display name of the language.
    pub fn name(&self) -> (r: &'static str)
        ensures
            r@ == self.spec_name(),
    {
        match self {
            Language::Python => "Python",
            Language::Mojo => "Mojo",
            Language::Julia => "Julia",
            Language::R => "R",
            Language::Go => "Go",
            Language::Rust => "Rust",
        }
    }

    /// The file extension of the language's starter source file.
    pub fn extension(&self) -> (r: &'static str)
        ensures
            r@ == self.spec_extension(),
    {
        match self {
            Language::Python => "py",
            Language::Mojo => "mojo",
            Language::Julia => "jl",
            Language::R => "r",
            Language::Go => "go",
            Language::Rust => "rs",
        }
    }

    /// Whether the language's bootstrap workflow is wired up.
    pub fn supported(&self) -> (r: bool)
        ensures
            r == self.spec_supported(),
    {
        match self {
            Language::Python | Language::Julia | Language::Go => true,
            _ => false,
        }
    }
}

/// Everything the bootstrapper needs to know about one language: how to
/// probe for its toolchain, what to call to install the toolchain, how to
/// scaffold a project, and which starter file to seed it with.
#[derive(Debug)]
pub struct LanguageSpec {
    /// The language this descriptor belongs to.
    pub language: Language,
    /// The name of the toolchain shown to the user when it is missing.
    pub toolchain: String,
    /// The program run to probe for the toolchain.
    pub probe_program: String,
    /// The single argument handed to the probe program.
    pub probe_arg: String,
    /// The program run to install a missing toolchain.
    pub install_program: String,
    /// The two arguments handed to the install program.
    pub install_arg1: String,
    pub install_arg2: String,
    /// The program run to scaffold a new project; it receives
    /// `scaffold_arg` followed by the project name.
    pub scaffold_program: String,
    pub scaffold_arg: String,
    /// The extension of the starter source file.
    pub extension: String,
}

impl LanguageSpec {
    /// The descriptor's fields agree with the fixed registry entry for its
    /// language.
    pub open spec fn wf(self) -> bool {
        &&& self.language.spec_supported()
        &&& self.toolchain@ == spec_toolchain_name(self.language)
        &&& self.probe_program@ == spec_probe_program(self.language)
        &&& self.probe_arg@ == spec_probe_arg(self.language)
        &&& self.install_program@ == "pip"@
        &&& self.install_arg1@ == "install"@
        &&& self.install_arg2@ == "poetry"@
        &&& self.scaffold_program@ == "poetry"@
        &&& self.scaffold_arg@ == "new"@
        &&& self.extension@ == self.language.spec_extension()
    }
}

/// The toolchain whose absence the prompt reports for `lang`.
pub open spec fn spec_toolchain_name(lang: Language) -> Seq<char> {
    match lang {
        Language::Python => "Poetry"@,
        Language::Julia => "Julia"@,
        Language::Go => "Go"@,
        _ => lang.spec_name(),
    }
}

/// The program probed to decide whether `lang`'s toolchain is present.
pub open spec fn spec_probe_program(lang: Language) -> Seq<char> {
    match lang {
        Language::Python => "poetry"@,
        Language::Julia => "julia"@,
        Language::Go => "go"@,
        _ => lang.spec_name(),
    }
}

/// The argument handed to the probe program.
pub open spec fn spec_probe_arg(lang: Language) -> Seq<char> {
    match lang {
        Language::Python => "--version"@,
        _ => "--help"@,
    }
}

/// The fixed registry: the full descriptor for a supported language, `None`
/// for a language whose workflow is not wired up.
pub fn language_spec(lang: &Language) -> (r: Option<LanguageSpec>)
    ensures
        r is Some <==> lang.spec_supported(),
        r matches Some(sp) ==> sp.wf() && sp.language == *lang,
{
    match lang {
        Language::Python => Some(
            LanguageSpec {
                language: Language::Python,
                toolchain: "Poetry".to_owned(),
                probe_program: "poetry".to_owned(),
                probe_arg: "--version".to_owned(),
                install_program: "pip".to_owned(),
                install_arg1: "install".to_owned(),
                install_arg2: "poetry".to_owned(),
                scaffold_program: "poetry".to_owned(),
                scaffold_arg: "new".to_owned(),
                extension: "py".to_owned(),
            },
        ),
        Language::Julia => Some(
            LanguageSpec {
                language: Language::Julia,
                toolchain: "Julia".to_owned(),
                probe_program: "julia".to_owned(),
                probe_arg: "--help".to_owned(),
                install_program: "pip".to_owned(),
                install_arg1: "install".to_owned(),
                install_arg2: "poetry".to_owned(),
                scaffold_program: "poetry".to_owned(),
                scaffold_arg: "new".to_owned(),
                extension: "jl".to_owned(),
            },
        ),
        Language::Go => Some(
            LanguageSpec {
                language: Language::Go,
                toolchain: "Go".to_owned(),
                probe_program: "go".to_owned(),
                probe_arg: "--help".to_owned(),
                install_program: "pip".to_owned(),
                install_arg1: "install".to_owned(),
                install_arg2: "poetry".to_owned(),
                scaffold_program: "poetry".to_owned(),
                scaffold_arg: "new".to_owned(),
                extension: "go".to_owned(),
            },
        ),
        _ => None,
    }
}

} // verus!
