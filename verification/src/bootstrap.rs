//! The orchestrator: a state machine that decides, step by step, which
//! external action (probe, prompt, install, scaffold, template copy) runs
//! next. The unverified front end performs each action and reports its
//! outcome back as an [`Event`]; every decision is taken here.

use vstd::prelude::*;
use vstd::string::StringExecFns;
use crate::language::{Language, LanguageSpec};
use crate::text::{seq_eq_fold, spec_sanitize, spec_trim};

verus! {

/// What probing for a toolchain found: the probe binary could be launched,
/// or it could not be found at all.
#[derive(Clone, Copy, PartialEq, Eq, Debug, Structural)]
pub enum ProbeOutcome {
    Available,
    Unavailable,
}

/// Why a run ended without a populated project directory.
#[derive(Clone, Copy, PartialEq, Eq, Debug, Structural)]
pub enum BootstrapFailure {
    /// The chosen language's workflow is not wired up; rejected before any
    /// subprocess is launched.
    UnsupportedLanguage,
    /// The toolchain was missing and the user declined to install it.
    InstallationDeclined,
    /// The starter file could not be copied into the scaffolded project.
    TemplateCopyFailed,
}

/// The result of one whole run.
#[derive(Clone, Copy, PartialEq, Eq, Debug, Structural)]
pub enum BootstrapOutcome {
    Success,
    Failure(BootstrapFailure),
}

/// Where one run currently stands. `Done` and `Fatal` are terminal: no
/// action is pending in them.
#[derive(Clone, Copy, PartialEq, Eq, Debug, Structural)]
pub enum Phase {
    /// Checking whether the toolchain is callable.
    Probing,
    /// Asking the user whether to install the missing toolchain.
    Prompting,
    /// Attempting a best-effort installation of the toolchain.
    Installing,
    /// Running the native project-creation command.
    Scaffolding,
    /// Copying the starter file into the new project.
    InstallingTemplate,
    /// The project directory is populated.
    Done,
    /// The run ended with a terminating failure.
    Fatal(BootstrapFailure),
}

/// An external action the front end performs on the orchestrator's behalf.
#[derive(Clone, Copy, PartialEq, Eq, Debug, Structural)]
pub enum Action {
    /// Launch the probe command and report whether it could be launched.
    RunProbe,
    /// Show the installation question, read one line, and report the answer.
    PromptUser,
    /// Launch the install command; its own exit status is not checked.
    RunInstall,
    /// Launch the scaffold command and report whether it succeeded.
    RunScaffold,
    /// Copy the starter file and report whether the copy completed.
    CopyTemplate,
}

/// What the front end reports back after performing an action.
#[derive(Clone, Copy, PartialEq, Eq, Debug, Structural)]
pub enum Event {
    /// The probe finished with the given outcome.
    ProbeFinished(ProbeOutcome),
    /// The user answered the installation question; `true` is affirmative.
    AnswerGiven(bool),
    /// The install command was launched (best-effort; no status).
    InstallAttempted,
    /// The scaffold command finished; `true` if it reported success. A
    /// failed scaffold is a soft failure: the run continues either way.
    ScaffoldFinished(bool),
    /// The starter file was copied, byte-identical, to its destination.
    TemplateCopied,
    /// The copy could not complete.
    TemplateCopyFailed,
}

/// The phase a run starts in.
pub open spec fn spec_initial_phase() -> Phase {
    Phase::Probing
}

/// The action pending in phase `p`, or `None` if `p` is terminal.
pub open spec fn spec_action(p: Phase) -> Option<Action> {
    match p {
        Phase::Probing => Some(Action::RunProbe),
        Phase::Prompting => Some(Action::PromptUser),
        Phase::Installing => Some(Action::RunInstall),
        Phase::Scaffolding => Some(Action::RunScaffold),
        Phase::InstallingTemplate => Some(Action::CopyTemplate),
        Phase::Done => None,
        Phase::Fatal(_) => None,
    }
}

/// `e` is a possible outcome of performing `a`.
pub open spec fn event_answers(a: Action, e: Event) -> bool {
    match (a, e) {
        (Action::RunProbe, Event::ProbeFinished(_)) => true,
        (Action::PromptUser, Event::AnswerGiven(_)) => true,
        (Action::RunInstall, Event::InstallAttempted) => true,
        (Action::RunScaffold, Event::ScaffoldFinished(_)) => true,
        (Action::CopyTemplate, Event::TemplateCopied) => true,
        (Action::CopyTemplate, Event::TemplateCopyFailed) => true,
        _ => false,
    }
}

/// The phase after `e` is reported in phase `p`. An event that answers no
/// pending action of `p` leaves the phase unchanged.
pub open spec fn spec_step(p: Phase, e: Event) -> Phase {
    match (p, e) {
        (Phase::Probing, Event::ProbeFinished(ProbeOutcome::Available)) => Phase::Scaffolding,
        (Phase::Probing, Event::ProbeFinished(ProbeOutcome::Unavailable)) => Phase::Prompting,
        (Phase::Prompting, Event::AnswerGiven(yes)) => if yes {
            Phase::Installing
        } else {
            Phase::Fatal(BootstrapFailure::InstallationDeclined)
        },
        (Phase::Installing, Event::InstallAttempted) => Phase::Scaffolding,
        (Phase::Scaffolding, Event::ScaffoldFinished(_)) => Phase::InstallingTemplate,
        (Phase::InstallingTemplate, Event::TemplateCopied) => Phase::Done,
        (Phase::InstallingTemplate, Event::TemplateCopyFailed) => Phase::Fatal(
            BootstrapFailure::TemplateCopyFailed,
        ),
        (q, _) => q,
    }
}

/// The phase a run started in `p` reaches after the events in `events`.
pub open spec fn final_phase(p: Phase, events: Seq<Event>) -> Phase
    decreases events.len(),
{
    if events.len() == 0 {
        p
    } else {
        final_phase(spec_step(p, events[0]), events.drop_first())
    }
}

/// Each event in `events` answers the action pending in the phase it was
/// reported in: the run could actually unfold this way.
pub open spec fn valid_run(p: Phase, events: Seq<Event>) -> bool
    decreases events.len(),
{
    if events.len() == 0 {
        true
    } else {
        match spec_action(p) {
            Some(a) => event_answers(a, events[0]) && valid_run(
                spec_step(p, events[0]),
                events.drop_first(),
            ),
            None => false,
        }
    }
}

/// The actions issued along a run started in `p` with the events in
/// `events`, in order.
pub open spec fn actions_along(p: Phase, events: Seq<Event>) -> Seq<Action>
    decreases events.len(),
{
    if events.len() == 0 {
        Seq::empty()
    } else {
        match spec_action(p) {
            Some(a) => seq![a] + actions_along(spec_step(p, events[0]), events.drop_first()),
            None => Seq::empty(),
        }
    }
}

/// The phase every run starts in.
pub fn initial_phase() -> (r: Phase)
    ensures
        r == spec_initial_phase(),
{
    Phase::Probing
}

/// The action the front end must perform next, or `None` once the run is
/// over.
pub fn next_action(p: Phase) -> (r: Option<Action>)
    ensures
        r == spec_action(p),
{
    match p {
        Phase::Probing => Some(Action::RunProbe),
        Phase::Prompting => Some(Action::PromptUser),
        Phase::Installing => Some(Action::RunInstall),
        Phase::Scaffolding => Some(Action::RunScaffold),
        Phase::InstallingTemplate => Some(Action::CopyTemplate),
        Phase::Done => None,
        Phase::Fatal(_) => None,
    }
}

/// Advances the run by one reported event.
pub fn step(p: Phase, e: Event) -> (r: Phase)
    ensures
        r == spec_step(p, e),
{
    match (p, e) {
        (Phase::Probing, Event::ProbeFinished(ProbeOutcome::Available)) => Phase::Scaffolding,
        (Phase::Probing, Event::ProbeFinished(ProbeOutcome::Unavailable)) => Phase::Prompting,
        (Phase::Prompting, Event::AnswerGiven(yes)) => if yes {
            Phase::Installing
        } else {
            Phase::Fatal(BootstrapFailure::InstallationDeclined)
        },
        (Phase::Installing, Event::InstallAttempted) => Phase::Scaffolding,
        (Phase::Scaffolding, Event::ScaffoldFinished(_)) => Phase::InstallingTemplate,
        (Phase::InstallingTemplate, Event::TemplateCopied) => Phase::Done,
        (Phase::InstallingTemplate, Event::TemplateCopyFailed) => Phase::Fatal(
            BootstrapFailure::TemplateCopyFailed,
        ),
        (q, _) => q,
    }
}

/// The outcome of a finished run, or `None` while the run is still under
/// way.
pub fn outcome_of(p: Phase) -> (r: Option<BootstrapOutcome>)
    ensures
        p == Phase::Done ==> r == Some(BootstrapOutcome::Success),
        (p matches Phase::Fatal(c)) ==> r == Some(BootstrapOutcome::Failure(p->Fatal_0)),
        p != Phase::Done && !(p matches Phase::Fatal(_)) ==> r is None,
{
    match p {
        Phase::Done => Some(BootstrapOutcome::Success),
        Phase::Fatal(c) => Some(BootstrapOutcome::Failure(c)),
        _ => None,
    }
}

/// With the toolchain available, a complete run issues exactly the probe,
/// then the scaffold, then the template copy, in that order — so Scaffold
/// runs exactly once and the template is installed exactly once, after it —
/// and never asks the installation question, whatever the scaffold and copy
/// outcomes are.
pub proof fn lemma_available_run(scaffold_ok: bool, copy_event: Event)
    requires
        copy_event == Event::TemplateCopied || copy_event == Event::TemplateCopyFailed,
    ensures
        ({
            let events = seq![
                Event::ProbeFinished(ProbeOutcome::Available),
                Event::ScaffoldFinished(scaffold_ok),
                copy_event,
            ];
            &&& valid_run(spec_initial_phase(), events)
            &&& actions_along(spec_initial_phase(), events) == seq![
                Action::RunProbe,
                Action::RunScaffold,
                Action::CopyTemplate,
            ]
            &&& copy_event == Event::TemplateCopied ==> final_phase(spec_initial_phase(), events)
                == Phase::Done
            &&& copy_event == Event::TemplateCopyFailed ==> final_phase(
                spec_initial_phase(),
                events,
            ) == Phase::Fatal(BootstrapFailure::TemplateCopyFailed)
        }),
{
    reveal_with_fuel(valid_run, 8);
    reveal_with_fuel(actions_along, 8);
    reveal_with_fuel(final_phase, 8);
    let events = seq![
        Event::ProbeFinished(ProbeOutcome::Available),
        Event::ScaffoldFinished(scaffold_ok),
        copy_event,
    ];
    let r1 = events.drop_first();
    let r2 = r1.drop_first();
    let r3 = r2.drop_first();
    assert(r1 =~= seq![Event::ScaffoldFinished(scaffold_ok), copy_event]);
    assert(r2 =~= seq![copy_event]);
    assert(r3 =~= Seq::<Event>::empty());
    assert(valid_run(spec_initial_phase(), events));
    assert(actions_along(spec_initial_phase(), events) =~= seq![
        Action::RunProbe,
        Action::RunScaffold,
        Action::CopyTemplate,
    ]);
}

/// In every possible run that starts with an available toolchain — complete
/// or not — the installation question is never asked and no install is ever
/// attempted.
pub proof fn lemma_available_never_prompts(events: Seq<Event>)
    requires
        valid_run(spec_initial_phase(), events),
        events.len() > 0,
        events[0] == Event::ProbeFinished(ProbeOutcome::Available),
    ensures
        !actions_along(spec_initial_phase(), events).contains(Action::PromptUser),
        !actions_along(spec_initial_phase(), events).contains(Action::RunInstall),
{
    reveal_with_fuel(valid_run, 8);
    reveal_with_fuel(actions_along, 8);
    reveal_with_fuel(final_phase, 8);
    let acts = actions_along(spec_initial_phase(), events);
    let r1 = events.drop_first();
    assert(acts == seq![Action::RunProbe] + actions_along(Phase::Scaffolding, r1));
    if r1.len() == 0 {
        assert(acts =~= seq![Action::RunProbe]);
        assert(forall|i: int| 0 <= i < acts.len() ==> acts[i] == Action::RunProbe);
    } else {
        assert(event_answers(Action::RunScaffold, r1[0]));
        assert(spec_step(Phase::Scaffolding, r1[0]) == Phase::InstallingTemplate);
        let r2 = r1.drop_first();
        assert(actions_along(Phase::Scaffolding, r1) == seq![Action::RunScaffold]
            + actions_along(Phase::InstallingTemplate, r2));
        if r2.len() == 0 {
            assert(acts =~= seq![Action::RunProbe, Action::RunScaffold]);
            assert(forall|i: int| 0 <= i < acts.len() ==> acts[i] != Action::PromptUser
                && acts[i] != Action::RunInstall);
        } else {
            assert(event_answers(Action::CopyTemplate, r2[0]));
            let p3 = spec_step(Phase::InstallingTemplate, r2[0]);
            let r3 = r2.drop_first();
            assert(spec_action(p3) is None);
            assert(r3.len() == 0) by {
                if r3.len() > 0 {
                    assert(!valid_run(p3, r3));
                }
            }
            assert(actions_along(Phase::InstallingTemplate, r2) =~= seq![Action::CopyTemplate]);
            assert(acts =~= seq![Action::RunProbe, Action::RunScaffold, Action::CopyTemplate]);
            assert(forall|i: int| 0 <= i < acts.len() ==> acts[i] != Action::PromptUser
                && acts[i] != Action::RunInstall);
        }
    }
}

/// With the toolchain missing and an affirmative answer, a complete run
/// issues exactly the probe, the question, one install attempt, the
/// scaffold, and the template copy, in that order.
pub proof fn lemma_install_run(scaffold_ok: bool, copy_event: Event)
    requires
        copy_event == Event::TemplateCopied || copy_event == Event::TemplateCopyFailed,
    ensures
        ({
            let events = seq![
                Event::ProbeFinished(ProbeOutcome::Unavailable),
                Event::AnswerGiven(true),
                Event::InstallAttempted,
                Event::ScaffoldFinished(scaffold_ok),
                copy_event,
            ];
            &&& valid_run(spec_initial_phase(), events)
            &&& actions_along(spec_initial_phase(), events) == seq![
                Action::RunProbe,
                Action::PromptUser,
                Action::RunInstall,
                Action::RunScaffold,
                Action::CopyTemplate,
            ]
            &&& copy_event == Event::TemplateCopied ==> final_phase(spec_initial_phase(), events)
                == Phase::Done
        }),
{
    reveal_with_fuel(valid_run, 8);
    reveal_with_fuel(actions_along, 8);
    reveal_with_fuel(final_phase, 8);
    let events = seq![
        Event::ProbeFinished(ProbeOutcome::Unavailable),
        Event::AnswerGiven(true),
        Event::InstallAttempted,
        Event::ScaffoldFinished(scaffold_ok),
        copy_event,
    ];
    let r1 = events.drop_first();
    let r2 = r1.drop_first();
    let r3 = r2.drop_first();
    let r4 = r3.drop_first();
    let r5 = r4.drop_first();
    assert(r1 =~= seq![
        Event::AnswerGiven(true),
        Event::InstallAttempted,
        Event::ScaffoldFinished(scaffold_ok),
        copy_event,
    ]);
    assert(r2 =~= seq![Event::InstallAttempted, Event::ScaffoldFinished(scaffold_ok), copy_event]);
    assert(r3 =~= seq![Event::ScaffoldFinished(scaffold_ok), copy_event]);
    assert(r4 =~= seq![copy_event]);
    assert(r5 =~= Seq::<Event>::empty());
    assert(valid_run(spec_initial_phase(), events));
    assert(actions_along(spec_initial_phase(), events) =~= seq![
        Action::RunProbe,
        Action::PromptUser,
        Action::RunInstall,
        Action::RunScaffold,
        Action::CopyTemplate,
    ]);
}

/// With the toolchain missing and a declined installation, the run ends at
/// once with a terminating failure: only the probe and the question were
/// ever issued, and neither the scaffold nor the template copy runs.
pub proof fn lemma_declined_run()
    ensures
        ({
            let events = seq![
                Event::ProbeFinished(ProbeOutcome::Unavailable),
                Event::AnswerGiven(false),
            ];
            &&& valid_run(spec_initial_phase(), events)
            &&& actions_along(spec_initial_phase(), events) == seq![
                Action::RunProbe,
                Action::PromptUser,
            ]
            &&& final_phase(spec_initial_phase(), events) == Phase::Fatal(
                BootstrapFailure::InstallationDeclined,
            )
            &&& spec_action(final_phase(spec_initial_phase(), events)) is None
        }),
{
    reveal_with_fuel(valid_run, 8);
    reveal_with_fuel(actions_along, 8);
    reveal_with_fuel(final_phase, 8);
    let events = seq![Event::ProbeFinished(ProbeOutcome::Unavailable), Event::AnswerGiven(false)];
    let r1 = events.drop_first();
    let r2 = r1.drop_first();
    assert(r1 =~= seq![Event::AnswerGiven(false)]);
    assert(r2 =~= Seq::<Event>::empty());
    assert(valid_run(spec_initial_phase(), events));
    assert(actions_along(spec_initial_phase(), events) =~= seq![
        Action::RunProbe,
        Action::PromptUser,
    ]);
}

/// In every possible run in which the probe found no toolchain and the user
/// then declined the installation, nothing follows the question: the run has
/// exactly those two events, it ends in the terminating failure, and the
/// scaffold, the template copy and the install are never invoked.
pub proof fn lemma_declined_terminates(events: Seq<Event>)
    requires
        valid_run(spec_initial_phase(), events),
        events.len() >= 2,
        events[0] == Event::ProbeFinished(ProbeOutcome::Unavailable),
        events[1] == Event::AnswerGiven(false),
    ensures
        events.len() == 2,
        final_phase(spec_initial_phase(), events) == Phase::Fatal(
            BootstrapFailure::InstallationDeclined,
        ),
        !actions_along(spec_initial_phase(), events).contains(Action::RunScaffold),
        !actions_along(spec_initial_phase(), events).contains(Action::CopyTemplate),
        !actions_along(spec_initial_phase(), events).contains(Action::RunInstall),
{
    reveal_with_fuel(valid_run, 8);
    reveal_with_fuel(actions_along, 8);
    reveal_with_fuel(final_phase, 8);
    let acts = actions_along(spec_initial_phase(), events);
    let r1 = events.drop_first();
    let r2 = r1.drop_first();
    assert(r1[0] == events[1]);
    assert(spec_step(Phase::Prompting, r1[0]) == Phase::Fatal(
        BootstrapFailure::InstallationDeclined,
    ));
    assert(spec_action(Phase::Fatal(BootstrapFailure::InstallationDeclined)) is None);
    assert(r2.len() == 0) by {
        if r2.len() > 0 {
            assert(!valid_run(Phase::Fatal(BootstrapFailure::InstallationDeclined), r2));
        }
    }
    assert(events.len() == 2);
    assert(acts =~= seq![Action::RunProbe, Action::PromptUser]);
    assert(forall|i: int| 0 <= i < acts.len() ==> acts[i] != Action::RunScaffold
        && acts[i] != Action::CopyTemplate && acts[i] != Action::RunInstall);
}

/// In every possible run from the initial phase, the template copy is never
/// issued before the scaffold has run: every `CopyTemplate` action is
/// preceded by a `RunScaffold` action.
pub proof fn lemma_copy_never_before_scaffold(events: Seq<Event>)
    requires
        valid_run(spec_initial_phase(), events),
    ensures
        forall|i: int|
            0 <= i < actions_along(spec_initial_phase(), events).len() && actions_along(
                spec_initial_phase(),
                events,
            )[i] == Action::CopyTemplate ==> exists|j: int|
                0 <= j < i && actions_along(spec_initial_phase(), events)[j]
                    == Action::RunScaffold,
{
    lemma_copy_preceded_by_scaffold(spec_initial_phase(), events);
}

proof fn lemma_copy_preceded_by_scaffold(p: Phase, events: Seq<Event>)
    requires
        valid_run(p, events),
        p != Phase::InstallingTemplate,
    ensures
        forall|i: int|
            0 <= i < actions_along(p, events).len() && actions_along(p, events)[i]
                == Action::CopyTemplate ==> exists|j: int|
                0 <= j < i && actions_along(p, events)[j] == Action::RunScaffold,
    decreases events.len(),
{
    if events.len() > 0 {
        match spec_action(p) {
            Some(a) => {
                let p2 = spec_step(p, events[0]);
                let tail = events.drop_first();
                let acts = actions_along(p, events);
                let tacts = actions_along(p2, tail);
                assert(acts == seq![a] + tacts);
                assert(acts[0] == a);
                assert(a != Action::CopyTemplate);
                if p2 == Phase::InstallingTemplate {
                    // only the scaffolding phase leads into template
                    // installation, so the action just issued was the
                    // scaffold, and it precedes everything that follows
                    assert(p == Phase::Scaffolding);
                    assert(acts[0] == Action::RunScaffold);
                    assert forall|i: int|
                        0 <= i < acts.len() && acts[i] == Action::CopyTemplate implies exists|
                        j: int,
                    |
                        0 <= j < i && acts[j] == Action::RunScaffold by {
                        assert(i != 0);
                        assert(acts[0] == Action::RunScaffold);
                    }
                } else {
                    lemma_copy_preceded_by_scaffold(p2, tail);
                    assert forall|i: int|
                        0 <= i < acts.len() && acts[i] == Action::CopyTemplate implies exists|
                        j: int,
                    |
                        0 <= j < i && acts[j] == Action::RunScaffold by {
                        assert(i != 0);
                        assert(tacts[i - 1] == Action::CopyTemplate);
                        let j2 = choose|j2: int|
                            0 <= j2 < i - 1 && tacts[j2] == Action::RunScaffold;
                        assert(acts[j2 + 1] == Action::RunScaffold);
                    }
                }
            },
            None => {},
        }
    }
}

/// The answer counts as affirmative when, after trimming surrounding
/// whitespace, it reads `y` or `yes` in any ASCII case.
pub open spec fn spec_affirmative(s: Seq<char>) -> bool {
    seq_eq_fold(spec_trim(s), "y"@) || seq_eq_fold(spec_trim(s), "yes"@)
}

/// Interprets one line of input to the installation question.
pub fn interpret_answer(line: &str) -> (r: bool)
    ensures
        r == spec_affirmative(line@),
{
    let t = crate::text::trim_str(line);
    crate::text::eq_ignore_ascii_case(t, "y") || crate::text::eq_ignore_ascii_case(t, "yes")
}

/// The question shown when `spec`'s toolchain is missing.
pub open spec fn spec_prompt_question(toolchain: Seq<char>) -> Seq<char> {
    toolchain + " installation not found. Would you like to install it? (y/n)"@
}

/// Builds the fixed installation question for `spec`'s toolchain.
pub fn prompt_question(spec: &LanguageSpec) -> (r: String)
    ensures
        r@ == spec_prompt_question(spec.toolchain@),
{
    let mut out = spec.toolchain.clone();
    out.append(" installation not found. Would you like to install it? (y/n)");
    out
}

/// The human-readable cause reported for a failure.
pub open spec fn spec_failure_message(f: BootstrapFailure) -> Seq<char> {
    match f {
        BootstrapFailure::UnsupportedLanguage => "Only Python, Julia, and Go are supported at this time."@,
        BootstrapFailure::InstallationDeclined => "environment cannot be set up without the toolchain"@,
        BootstrapFailure::TemplateCopyFailed => "template copy failed"@,
    }
}

/// The message shown for a terminating failure.
pub fn failure_message(f: &BootstrapFailure) -> (r: String)
    ensures
        r@ == spec_failure_message(*f),
{
    match f {
        BootstrapFailure::UnsupportedLanguage => "Only Python, Julia, and Go are supported at this time.".to_owned(),
        BootstrapFailure::InstallationDeclined => "environment cannot be set up without the toolchain".to_owned(),
        BootstrapFailure::TemplateCopyFailed => "template copy failed".to_owned(),
    }
}

/// The validated input of one run: the sanitized project name and the
/// chosen language, with the language's registry entry.
#[derive(Debug)]
pub struct ProjectRequest {
    /// The project name with spaces and hyphens replaced by underscores.
    pub project_name: String,
    /// The registry entry of the chosen language.
    pub spec: LanguageSpec,
}

impl ProjectRequest {
    /// Validates the raw input of one run. A language whose workflow is not
    /// wired up is rejected here, before any subprocess could be launched;
    /// the project name is sanitized before any path is built from it.
    pub fn new(raw_name: &str, language: Language) -> (r: Result<ProjectRequest, BootstrapFailure>)
        ensures
            r is Ok <==> language.spec_supported(),
            r matches Ok(req) ==> {
                &&& req.spec.wf()
                &&& req.spec.language == language
                &&& req.project_name@ == spec_sanitize(raw_name@)
            },
            r matches Err(f) ==> f == BootstrapFailure::UnsupportedLanguage,
    {
        match crate::language::language_spec(&language) {
            Some(spec) => Ok(
                ProjectRequest {
                    project_name: crate::text::sanitize_project_name(raw_name),
                    spec,
                },
            ),
            None => Err(BootstrapFailure::UnsupportedLanguage),
        }
    }
}

} // verus!
