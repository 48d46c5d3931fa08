use lets_get_coding::bootstrap::{
    initial_phase, interpret_answer, next_action, outcome_of, prompt_question, step, Action,
    BootstrapFailure, BootstrapOutcome, Event, Phase, ProbeOutcome,
};
use lets_get_coding::language::{language_spec, Language};

/// Drives one whole run: every pending action is answered by `respond`,
/// and the actions are recorded in order.
fn drive(respond: fn(Action) -> Event) -> (Vec<Action>, Option<BootstrapOutcome>) {
    let mut phase = initial_phase();
    let mut actions: Vec<Action> = Vec::new();
    while let Some(action) = next_action(phase) {
        actions.push(action);
        let event = respond(action);
        phase = step(phase, event);
    }
    (actions, outcome_of(phase))
}

#[test]
fn available_toolchain_scaffolds_then_installs_template() {
    let (actions, outcome) = drive(|action| match action {
        Action::RunProbe => Event::ProbeFinished(ProbeOutcome::Available),
        Action::PromptUser => panic!("the installation question must never be asked"),
        Action::RunInstall => panic!("no install may be attempted"),
        Action::RunScaffold => Event::ScaffoldFinished(true),
        Action::CopyTemplate => Event::TemplateCopied,
    });
    assert_eq!(
        actions,
        vec![Action::RunProbe, Action::RunScaffold, Action::CopyTemplate]
    );
    assert_eq!(outcome, Some(BootstrapOutcome::Success));
}

#[test]
fn available_toolchain_continues_past_failed_scaffold() {
    let (actions, outcome) = drive(|action| match action {
        Action::RunProbe => Event::ProbeFinished(ProbeOutcome::Available),
        Action::PromptUser => panic!("the installation question must never be asked"),
        Action::RunInstall => panic!("no install may be attempted"),
        Action::RunScaffold => Event::ScaffoldFinished(false),
        Action::CopyTemplate => Event::TemplateCopyFailed,
    });
    assert_eq!(
        actions,
        vec![Action::RunProbe, Action::RunScaffold, Action::CopyTemplate]
    );
    assert_eq!(
        outcome,
        Some(BootstrapOutcome::Failure(BootstrapFailure::TemplateCopyFailed))
    );
}

#[test]
fn missing_toolchain_with_yes_installs_once_then_proceeds() {
    let (actions, outcome) = drive(|action| match action {
        Action::RunProbe => Event::ProbeFinished(ProbeOutcome::Unavailable),
        Action::PromptUser => Event::AnswerGiven(interpret_answer("y\n")),
        Action::RunInstall => Event::InstallAttempted,
        Action::RunScaffold => Event::ScaffoldFinished(true),
        Action::CopyTemplate => Event::TemplateCopied,
    });
    assert_eq!(
        actions,
        vec![
            Action::RunProbe,
            Action::PromptUser,
            Action::RunInstall,
            Action::RunScaffold,
            Action::CopyTemplate,
        ]
    );
    assert_eq!(
        actions.iter().filter(|a| **a == Action::RunInstall).count(),
        1
    );
    assert_eq!(outcome, Some(BootstrapOutcome::Success));
}

#[test]
fn missing_toolchain_with_no_terminates_without_scaffold() {
    let (actions, outcome) = drive(|action| match action {
        Action::RunProbe => Event::ProbeFinished(ProbeOutcome::Unavailable),
        Action::PromptUser => Event::AnswerGiven(interpret_answer("n\n")),
        Action::RunInstall => panic!("no install may be attempted after a declined answer"),
        Action::RunScaffold => panic!("the scaffold must not run after a declined answer"),
        Action::CopyTemplate => panic!("the template must not be copied after a declined answer"),
    });
    assert_eq!(actions, vec![Action::RunProbe, Action::PromptUser]);
    assert_eq!(
        outcome,
        Some(BootstrapOutcome::Failure(BootstrapFailure::InstallationDeclined))
    );
}

#[test]
fn affirmative_answers() {
    assert!(interpret_answer("y\n"));
    assert!(interpret_answer("Y\n"));
    assert!(interpret_answer("yes\n"));
    assert!(interpret_answer("YES"));
    assert!(interpret_answer("  yEs  \r\n"));
}

#[test]
fn non_affirmative_answers() {
    assert!(!interpret_answer("n\n"));
    assert!(!interpret_answer("no"));
    assert!(!interpret_answer(""));
    assert!(!interpret_answer("\n"));
    assert!(!interpret_answer("maybe"));
    assert!(!interpret_answer("yess"));
}

#[test]
fn prompt_names_the_missing_toolchain() {
    let python = language_spec(&Language::Python).unwrap();
    assert_eq!(
        prompt_question(&python),
        "Poetry installation not found. Would you like to install it? (y/n)"
    );
    let julia = language_spec(&Language::Julia).unwrap();
    assert_eq!(
        prompt_question(&julia),
        "Julia installation not found. Would you like to install it? (y/n)"
    );
    let go = language_spec(&Language::Go).unwrap();
    assert_eq!(
        prompt_question(&go),
        "Go installation not found. Would you like to install it? (y/n)"
    );
}

#[test]
fn runs_start_probing_and_terminal_phases_have_no_action() {
    assert_eq!(initial_phase(), Phase::Probing);
    assert_eq!(next_action(Phase::Done), None);
    assert_eq!(
        next_action(Phase::Fatal(BootstrapFailure::TemplateCopyFailed)),
        None
    );
}

#[test]
fn mismatched_events_leave_the_phase_unchanged() {
    assert_eq!(step(Phase::Probing, Event::InstallAttempted), Phase::Probing);
    assert_eq!(
        step(Phase::Scaffolding, Event::TemplateCopied),
        Phase::Scaffolding
    );
    assert_eq!(
        step(Phase::Done, Event::ProbeFinished(ProbeOutcome::Unavailable)),
        Phase::Done
    );
    assert_eq!(
        step(
            Phase::Fatal(BootstrapFailure::InstallationDeclined),
            Event::AnswerGiven(true)
        ),
        Phase::Fatal(BootstrapFailure::InstallationDeclined)
    );
}

#[test]
fn outcome_is_none_while_running() {
    assert_eq!(outcome_of(Phase::Probing), None);
    assert_eq!(outcome_of(Phase::Prompting), None);
    assert_eq!(outcome_of(Phase::Installing), None);
    assert_eq!(outcome_of(Phase::Scaffolding), None);
    assert_eq!(outcome_of(Phase::InstallingTemplate), None);
    assert_eq!(outcome_of(Phase::Done), Some(BootstrapOutcome::Success));
    assert_eq!(
        outcome_of(Phase::Fatal(BootstrapFailure::InstallationDeclined)),
        Some(BootstrapOutcome::Failure(BootstrapFailure::InstallationDeclined))
    );
}
