//! Bootstraps a new source-code project for a chosen programming language:
//! checks that the language's toolchain is present, offers to install a
//! missing toolchain, runs the native project-scaffolding command, and seeds
//! the generated project with a language-specific starter source file.
//!
//! The decision logic lives here, fully verified: the language registry, the
//! sanitizing of project names, the construction of template paths, and the
//! orchestration state machine that decides which external action (probe,
//! prompt, install, scaffold, copy) runs next. The actual subprocess and
//! file-system work is carried out by an unverified front end that drives the
//! state machine and reports each outcome back as an event.

pub mod bootstrap;
pub mod language;
pub mod template;
pub mod text;
pub mod user;
