//! The print dispatcher: a state machine that drives one print request.
//!
//! The dispatcher never touches the file system, spawns a process or sleeps
//! itself. It emits one [`Action`] at a time; the embedding application
//! performs the action and feeds the observed [`Event`] back in with
//! [`Dispatcher::step`], until the action is [`Action::Respond`] and the
//! state is finished. A run passes through validation (source-path flow) or
//! artifact writing (payload flow), then printing, then cleanup:
//!
//! - a failed print on an owned artifact removes the artifact synchronously,
//!   before the dispatcher answers, so a failed print never leaks a file;
//! - a successful print on an owned artifact schedules a deferred removal
//!   after [`GRACE_DELAY_SECS`], because the print mechanisms return as soon
//!   as the external process is launched, not when it has finished reading
//!   the file; the dispatcher answers without waiting for that removal.

use vstd::prelude::*;

use crate::artifact::{Artifact, StoreModel, artifact_path, artifact_path_view};
use crate::outcome::{PrintError, PrintOutcome, WriteFailure};
use crate::request::PrintRequest;
use crate::strategy::{
    Platform, PrintCommand, ProcessReport, StrategyKind, command_matches, extension,
    interpret_report, plan_print, spec_extension, spec_interpret_report,
    spec_success_message, success_message,
};

verus! {

/// How long a deferred removal waits before deleting an owned artifact, in
/// seconds. A best-effort heuristic, meant to outlast the external viewer's
/// read of the file, not a guarantee.
pub const GRACE_DELAY_SECS: u64 = 10;

/// The fixed configuration a dispatcher runs under.
#[derive(Debug, PartialEq, Eq)]
pub struct Config {
    /// Which print strategy is active.
    pub strategy: StrategyKind,
    /// The host platform, observed at run time.
    pub platform: Platform,
    /// The dedicated temporary-files directory owned artifacts live in.
    pub artifact_dir: String,
}

/// What the embedding application must do next.
#[derive(Debug, PartialEq, Eq)]
pub enum Action {
    /// Check whether a file exists at the path; answer with
    /// [`Event::ExistsChecked`].
    CheckExists { path: String },
    /// Create the directory if absent and write the payload to the path;
    /// answer with [`Event::Written`].
    WriteArtifact { dir: String, path: String, payload: Vec<u8> },
    /// Launch the command and collect its outcome; answer with
    /// [`Event::Printed`].
    RunPrint { command: PrintCommand },
    /// Remove the file at the path now, absorbing any failure; answer with
    /// [`Event::Removed`].
    RemoveNow { path: String },
    /// On a detached execution context, wait `delay_secs` seconds, then
    /// remove the file at the path, absorbing any failure. Not answered:
    /// the dispatcher is already finished.
    ScheduleRemove { path: String, delay_secs: u64 },
    /// Nothing left to do: the dispatcher is finished; take its result.
    Respond,
}

/// What the embedding application observed while performing an action.
#[derive(Debug, PartialEq, Eq)]
pub enum Event {
    /// Answer to [`Action::CheckExists`].
    ExistsChecked { exists: bool },
    /// Answer to [`Action::WriteArtifact`].
    Written { result: Result<(), WriteFailure> },
    /// Answer to [`Action::RunPrint`].
    Printed { report: ProcessReport },
    /// Answer to [`Action::RemoveNow`].
    Removed,
}

/// Where a run stands.
#[derive(Debug, PartialEq, Eq)]
pub enum DispatchState {
    /// A source-path request waits for the existence check of its path.
    AwaitingValidation { path: String },
    /// A payload request waits for its artifact to be written at the path.
    AwaitingWrite { path: String },
    /// The artifact is ready; the print command is running.
    AwaitingPrint { artifact: Artifact },
    /// The print failed on an owned artifact; its synchronous removal is
    /// running, after which the error is reported.
    AwaitingFailureCleanup { error: PrintError, path: String },
    /// The run is over; the result is ready for the caller.
    Finished { result: Result<PrintOutcome, PrintError> },
}

/// The dispatcher for one print request.
#[derive(Debug, PartialEq, Eq)]
pub struct Dispatcher {
    pub config: Config,
    /// When the run started; owned artifacts carry it as their creation
    /// timestamp.
    pub started_at: u64,
    pub state: DispatchState,
}

/// What [`Dispatcher::start`] establishes: an invalid request finishes at
/// once with `InvalidRequest`; a source-path request asks for the existence
/// check; a payload request asks for the artifact write, at the path derived
/// from the identifier, carrying the payload unchanged.
pub open spec fn start_post(
    config: Config,
    request: PrintRequest,
    now: u64,
    d: Dispatcher,
    a: Action,
) -> bool {
    &&& d.config == config
    &&& d.started_at == now
    &&& if !request.is_valid() {
        &&& (d.state matches DispatchState::Finished { result } && (result matches Err(e)
            && e is InvalidRequest))
        &&& a is Respond
    } else if request.is_source() {
        &&& (d.state matches DispatchState::AwaitingValidation { path } && path@
            == request.source_path_view())
        &&& (a matches Action::CheckExists { path } && path@ == request.source_path_view())
    } else {
        let artifact_path = artifact_path_view(
            config.artifact_dir@,
            request.identifier@,
            spec_extension(config.strategy),
        );
        &&& (d.state matches DispatchState::AwaitingWrite { path } && path@ == artifact_path)
        &&& (a matches Action::WriteArtifact { dir, path, payload } && dir@
            == config.artifact_dir@ && path@ == artifact_path && payload@
            == request.payload_view())
    }
}

/// The dispatcher's transition relation: what one [`Dispatcher::step`] call
/// does for each state and event.
pub open spec fn transition(pre: Dispatcher, event: Event, post: Dispatcher, action: Action) -> bool {
    &&& post.config == pre.config
    &&& post.started_at == pre.started_at
    &&& match (pre.state, event) {
        (DispatchState::AwaitingValidation { path }, Event::ExistsChecked { exists }) => {
            if !exists {
                &&& (post.state matches DispatchState::Finished { result } && (result matches Err(
                    e,
                ) && (e matches PrintError::NotFound { path: missing } && missing@ == path@)))
                &&& action is Respond
            } else {
                match pre.config.platform {
                    Platform::Other => {
                        &&& (post.state matches DispatchState::Finished { result } && (
                        result matches Err(e) && e is UnsupportedPlatform))
                        &&& action is Respond
                    },
                    Platform::Windows => {
                        &&& (post.state matches DispatchState::AwaitingPrint { artifact }
                            && artifact.path@ == path@ && !artifact.owned && artifact.created_at
                            == pre.started_at)
                        &&& (action matches Action::RunPrint { command } && command_matches(
                            pre.config.strategy,
                            path@,
                            command,
                        ))
                    },
                }
            }
        },
        (DispatchState::AwaitingWrite { path }, Event::Written { result }) => {
            match result {
                Err(failure) => {
                    &&& (post.state matches DispatchState::Finished { result: fin } && (
                    fin matches Err(e) && (e matches PrintError::Io { failure: f } && f
                        == failure)))
                    &&& action is Respond
                },
                Ok(_) => match pre.config.platform {
                    Platform::Other => {
                        &&& (post.state matches DispatchState::AwaitingFailureCleanup {
                            error,
                            path: p,
                        } && error is UnsupportedPlatform && p@ == path@)
                        &&& (action matches Action::RemoveNow { path: p } && p@ == path@)
                    },
                    Platform::Windows => {
                        &&& (post.state matches DispatchState::AwaitingPrint { artifact }
                            && artifact.path@ == path@ && artifact.owned && artifact.created_at
                            == pre.started_at)
                        &&& (action matches Action::RunPrint { command } && command_matches(
                            pre.config.strategy,
                            path@,
                            command,
                        ))
                    },
                },
            }
        },
        (DispatchState::AwaitingPrint { artifact }, Event::Printed { report }) => {
            match spec_interpret_report(report) {
                Ok(_) => {
                    &&& (post.state matches DispatchState::Finished { result } && (
                    result matches Ok(outcome) && outcome.success && outcome.message@
                        == spec_success_message(pre.config.strategy)))
                    &&& if artifact.owned {
                        (action matches Action::ScheduleRemove { path, delay_secs } && path@
                            == artifact.path@ && delay_secs == GRACE_DELAY_SECS)
                    } else {
                        action is Respond
                    }
                },
                Err(e) => {
                    if artifact.owned {
                        &&& (post.state matches DispatchState::AwaitingFailureCleanup {
                            error,
                            path,
                        } && error == e && path@ == artifact.path@)
                        &&& (action matches Action::RemoveNow { path } && path@ == artifact.path@)
                    } else {
                        &&& (post.state matches DispatchState::Finished { result } && (
                        result matches Err(err) && err == e))
                        &&& action is Respond
                    }
                },
            }
        },
        (DispatchState::AwaitingFailureCleanup { error, path }, Event::Removed) => {
            &&& (post.state matches DispatchState::Finished { result } && (result matches Err(e)
                && e == error))
            &&& action is Respond
        },
        _ => false,
    }
}

impl Dispatcher {
    /// The event kinds this state answers; feeding any other event is a
    /// caller error.
    pub open spec fn expects(self, event: Event) -> bool {
        match (self.state, event) {
            (DispatchState::AwaitingValidation { .. }, Event::ExistsChecked { .. }) => true,
            (DispatchState::AwaitingWrite { .. }, Event::Written { .. }) => true,
            (DispatchState::AwaitingPrint { .. }, Event::Printed { .. }) => true,
            (DispatchState::AwaitingFailureCleanup { .. }, Event::Removed) => true,
            _ => false,
        }
    }

    /// Begins a run: validates the request and emits the first action.
    pub fn start(config: Config, request: PrintRequest, now: u64) -> (r: (Dispatcher, Action))
        ensures
            start_post(config, request, now, r.0, r.1),
    {
        let PrintRequest { payload, source_path, identifier } = request;
        match (payload, source_path) {
            (Some(payload), None) => {
                let ext = extension(config.strategy);
                let path = artifact_path(config.artifact_dir.as_str(), identifier.as_str(), ext);
                let dir = config.artifact_dir.clone();
                let action = Action::WriteArtifact { dir, path: path.clone(), payload };
                (
                    Dispatcher {
                        config,
                        started_at: now,
                        state: DispatchState::AwaitingWrite { path },
                    },
                    action,
                )
            },
            (None, Some(source)) => {
                let action = Action::CheckExists { path: source.clone() };
                (
                    Dispatcher {
                        config,
                        started_at: now,
                        state: DispatchState::AwaitingValidation { path: source },
                    },
                    action,
                )
            },
            _ => (
                Dispatcher {
                    config,
                    started_at: now,
                    state: DispatchState::Finished { result: Err(PrintError::InvalidRequest) },
                },
                Action::Respond,
            ),
        }
    }

    /// Feeds the observed event in and emits the next action.
    pub fn step(self, event: Event) -> (r: (Dispatcher, Action))
        requires
            self.expects(event),
        ensures
            transition(self, event, r.0, r.1),
    {
        let Dispatcher { config, started_at, state } = self;
        match (state, event) {
            (DispatchState::AwaitingValidation { path }, Event::ExistsChecked { exists }) => {
                if !exists {
                    (
                        Dispatcher {
                            config,
                            started_at,
                            state: DispatchState::Finished {
                                result: Err(PrintError::NotFound { path }),
                            },
                        },
                        Action::Respond,
                    )
                } else {
                    match plan_print(config.strategy, config.platform, path.as_str()) {
                        Ok(command) => (
                            Dispatcher {
                                config,
                                started_at,
                                state: DispatchState::AwaitingPrint {
                                    artifact: Artifact {
                                        path,
                                        created_at: started_at,
                                        owned: false,
                                    },
                                },
                            },
                            Action::RunPrint { command },
                        ),
                        Err(error) => (
                            Dispatcher {
                                config,
                                started_at,
                                state: DispatchState::Finished { result: Err(error) },
                            },
                            Action::Respond,
                        ),
                    }
                }
            },
            (DispatchState::AwaitingWrite { path }, Event::Written { result }) => {
                match result {
                    Err(failure) => (
                        Dispatcher {
                            config,
                            started_at,
                            state: DispatchState::Finished {
                                result: Err(PrintError::Io { failure }),
                            },
                        },
                        Action::Respond,
                    ),
                    Ok(_) => {
                        match plan_print(config.strategy, config.platform, path.as_str()) {
                            Ok(command) => (
                                Dispatcher {
                                    config,
                                    started_at,
                                    state: DispatchState::AwaitingPrint {
                                        artifact: Artifact {
                                            path,
                                            created_at: started_at,
                                            owned: true,
                                        },
                                    },
                                },
                                Action::RunPrint { command },
                            ),
                            Err(error) => {
                                let removal = Action::RemoveNow { path: path.clone() };
                                (
                                    Dispatcher {
                                        config,
                                        started_at,
                                        state: DispatchState::AwaitingFailureCleanup {
                                            error,
                                            path,
                                        },
                                    },
                                    removal,
                                )
                            },
                        }
                    },
                }
            },
            (DispatchState::AwaitingPrint { artifact }, Event::Printed { report }) => {
                match interpret_report(report) {
                    Ok(_) => {
                        let outcome = PrintOutcome {
                            success: true,
                            message: success_message(config.strategy),
                        };
                        let action = if artifact.owned {
                            Action::ScheduleRemove {
                                path: artifact.path,
                                delay_secs: GRACE_DELAY_SECS,
                            }
                        } else {
                            Action::Respond
                        };
                        (
                            Dispatcher {
                                config,
                                started_at,
                                state: DispatchState::Finished { result: Ok(outcome) },
                            },
                            action,
                        )
                    },
                    Err(error) => {
                        if artifact.owned {
                            let removal = Action::RemoveNow { path: artifact.path.clone() };
                            (
                                Dispatcher {
                                    config,
                                    started_at,
                                    state: DispatchState::AwaitingFailureCleanup {
                                        error,
                                        path: artifact.path,
                                    },
                                },
                                removal,
                            )
                        } else {
                            (
                                Dispatcher {
                                    config,
                                    started_at,
                                    state: DispatchState::Finished { result: Err(error) },
                                },
                                Action::Respond,
                            )
                        }
                    },
                }
            },
            (DispatchState::AwaitingFailureCleanup { error, path: _ }, Event::Removed) => (
                Dispatcher {
                    config,
                    started_at,
                    state: DispatchState::Finished { result: Err(error) },
                },
                Action::Respond,
            ),
            _ => unreached(),
        }
    }

    /// Takes the result of a finished run.
    pub fn take_result(self) -> (r: Result<PrintOutcome, PrintError>)
        requires
            self.state is Finished,
        ensures
            (self.state matches DispatchState::Finished { result } && r == result),
    {
        match self.state {
            DispatchState::Finished { result } => result,
            _ => unreached(),
        }
    }
}

/// How performing an action changes the artifact directory at once: a write
/// stores the payload at the path, a synchronous removal deletes the path;
/// checking existence, printing (the strategies only read the file) and
/// scheduling a deferred removal change nothing immediately.
pub open spec fn fs_apply_now(m: StoreModel, action: Action) -> StoreModel {
    match action {
        Action::WriteArtifact { path, payload, .. } => m.write(path@, payload@),
        Action::RemoveNow { path } => m.remove(path@),
        _ => m,
    }
}

/// The deferred removal a [`Action::ScheduleRemove`] performs once its grace
/// delay has elapsed, after the dispatcher has long answered.
pub open spec fn fs_apply_deferred(m: StoreModel, action: Action) -> StoreModel {
    match action {
        Action::ScheduleRemove { path, .. } => m.remove(path@),
        _ => m,
    }
}

/// The path a write action stores to (empty for any other action).
pub open spec fn write_action_path(action: Action) -> Seq<char> {
    match action {
        Action::WriteArtifact { path, .. } => path@,
        _ => Seq::empty(),
    }
}

/// Law: two payload requests with distinct identifiers, dispatched under one
/// configuration, write to distinct artifact paths, and after both writes
/// each path holds its own request's payload byte for byte: neither write
/// clobbers the other.
pub proof fn lemma_distinct_requests_do_not_collide(
    config: Config,
    request1: PrintRequest,
    request2: PrintRequest,
    now1: u64,
    now2: u64,
    d1: Dispatcher,
    a1: Action,
    d2: Dispatcher,
    a2: Action,
    m: StoreModel,
)
    requires
        request1.is_payload(),
        request2.is_payload(),
        request1.identifier@ != request2.identifier@,
        start_post(config, request1, now1, d1, a1),
        start_post(config, request2, now2, d2, a2),
    ensures
        a1 is WriteArtifact,
        a2 is WriteArtifact,
        write_action_path(a1) != write_action_path(a2),
        fs_apply_now(fs_apply_now(m, a1), a2).files[write_action_path(a1)]
            == request1.payload_view(),
        fs_apply_now(fs_apply_now(m, a1), a2).files[write_action_path(a2)]
            == request2.payload_view(),
{
    crate::artifact::lemma_distinct_identifiers_distinct_paths(
        config.artifact_dir@,
        request1.identifier@,
        request2.identifier@,
        spec_extension(config.strategy),
    );
}

/// Law: when the supplied source path does not exist, the dispatcher answers
/// `NotFound` and the run never writes an artifact and never launches a
/// print: the only actions it emits are the existence check and the final
/// respond, neither of which changes the directory.
pub proof fn lemma_missing_source_rejected(
    config: Config,
    request: PrintRequest,
    now: u64,
    d0: Dispatcher,
    a0: Action,
    ev: Event,
    d1: Dispatcher,
    a1: Action,
    m: StoreModel,
)
    requires
        request.is_source(),
        start_post(config, request, now, d0, a0),
        ev matches Event::ExistsChecked { exists: false },
        transition(d0, ev, d1, a1),
    ensures
        (d1.state matches DispatchState::Finished { result } && (result matches Err(e) && (
        e matches PrintError::NotFound { path } && path@ == request.source_path_view()))),
        (a0 matches Action::CheckExists { path } && path@ == request.source_path_view()),
        a1 is Respond,
        fs_apply_now(fs_apply_now(m, a0), a1) == m,
{
}

/// Law: after a successful print of an owned artifact the dispatcher answers
/// success at once, with the artifact still in place and holding the request
/// payload; only the deferred removal it scheduled, which fires after the
/// grace delay, takes the artifact away.
pub proof fn lemma_success_keeps_artifact_until_grace(
    config: Config,
    request: PrintRequest,
    now: u64,
    d0: Dispatcher,
    a0: Action,
    ev1: Event,
    d1: Dispatcher,
    a1: Action,
    ev2: Event,
    d2: Dispatcher,
    a2: Action,
    m: StoreModel,
)
    requires
        request.is_payload(),
        config.platform is Windows,
        start_post(config, request, now, d0, a0),
        (ev1 matches Event::Written { result } && result is Ok),
        transition(d0, ev1, d1, a1),
        (ev2 matches Event::Printed { report } && spec_interpret_report(report) is Ok),
        transition(d1, ev2, d2, a2),
    ensures
        (d2.state matches DispatchState::Finished { result } && (result matches Ok(outcome)
            && outcome.success && outcome.message@ == spec_success_message(config.strategy))),
        (a2 matches Action::ScheduleRemove { path, delay_secs } && path@ == write_action_path(a0)
            && delay_secs == GRACE_DELAY_SECS),
        ({
            let at_return = fs_apply_now(fs_apply_now(fs_apply_now(m, a0), a1), a2);
            &&& at_return.files.contains_key(write_action_path(a0))
            &&& at_return.files[write_action_path(a0)] == request.payload_view()
            &&& !fs_apply_deferred(at_return, a2).files.contains_key(write_action_path(a0))
        }),
{
}

/// Law: when the print command fails on an owned artifact, the dispatcher
/// removes the artifact synchronously, so by the time it answers with the
/// command's error the artifact is already gone — a failed print never
/// leaks a temporary file, and no removal is deferred.
pub proof fn lemma_failed_print_cleans_up_before_answering(
    config: Config,
    request: PrintRequest,
    now: u64,
    d0: Dispatcher,
    a0: Action,
    ev1: Event,
    d1: Dispatcher,
    a1: Action,
    ev2: Event,
    d2: Dispatcher,
    a2: Action,
    d3: Dispatcher,
    a3: Action,
    m: StoreModel,
)
    requires
        request.is_payload(),
        config.platform is Windows,
        start_post(config, request, now, d0, a0),
        (ev1 matches Event::Written { result } && result is Ok),
        transition(d0, ev1, d1, a1),
        (ev2 matches Event::Printed { report } && spec_interpret_report(report) is Err),
        transition(d1, ev2, d2, a2),
        transition(d2, Event::Removed, d3, a3),
    ensures
        (a2 matches Action::RemoveNow { path } && path@ == write_action_path(a0)),
        (d3.state matches DispatchState::Finished { result } && (result matches Err(e) && (
        ev2 matches Event::Printed { report } && e == spec_interpret_report(report)->Err_0))),
        a3 is Respond,
        ({
            let at_return = fs_apply_now(
                fs_apply_now(fs_apply_now(fs_apply_now(m, a0), a1), a2),
                a3,
            );
            &&& !at_return.files.contains_key(write_action_path(a0))
            &&& fs_apply_deferred(at_return, a3) == at_return
        }),
{
}

} // verus!
