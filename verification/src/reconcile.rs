//! The reconciliation loop, as a verified state machine.
//!
//! One reconciliation pass is a short sequence of cluster operations: load
//! the resource, list the workload objects of its current generation, then
//! create one (zero matches), do nothing (one match) or delete all but one
//! (several matches), and finally sweep every object of a stale generation.
//! The pass is level-triggered and idempotent: every mutation is an
//! "ensure" whose benign races ("already exists" on create, "not found" on
//! delete) count as success, so it is correct to run the pass again at any
//! time.
//!
//! The machine itself performs no I/O.  `Reconciler::step` maps the
//! current phase and one observed outcome to the next phase and the next
//! cluster operation; an unverified driver executes each `Command` against
//! the cluster and feeds the outcome back as an `Event`.

use vstd::prelude::*;
use vstd::string::StringExecFns;

use crate::builder::build_daemon_set;
use crate::builder::spec_build;
use crate::builder::WorkloadObject;
use crate::builder::WorkloadObjectView;
use crate::labels::current_selector;
use crate::labels::spec_current_selector;
use crate::labels::spec_stale_selector;
use crate::labels::stale_selector;
use crate::resource::ReadyImage;
use crate::resource::ReadyImageView;

verus! {

/// A failed cluster operation, tagged with the step it came from so the
/// dispatcher's log line identifies the operation without inspecting the
/// transport error.  Benign races are never reported as errors.
#[derive(Clone, Debug, PartialEq)]
pub enum Error {
    /// Listing existing workload objects failed.
    List { message: String },
    /// Creating the desired workload object failed (other than "already
    /// exists").
    Create { message: String },
    /// Deleting a superseded or surplus workload object failed (other than
    /// "not found").
    Delete { message: String },
}

/// Mathematical image of an `Error`.
#[verifier::ext_equal]
pub enum ErrorView {
    List { message: Seq<char> },
    Create { message: Seq<char> },
    Delete { message: Seq<char> },
}

impl DeepView for Error {
    type V = ErrorView;

    open spec fn deep_view(&self) -> ErrorView {
        match self {
            Error::List { message } => ErrorView::List { message: message.deep_view() },
            Error::Create { message } => ErrorView::Create { message: message.deep_view() },
            Error::Delete { message } => ErrorView::Delete { message: message.deep_view() },
        }
    }
}

/// What `Error::describe` returns for a given error.
pub open spec fn spec_describe(e: ErrorView) -> Seq<char> {
    match e {
        ErrorView::List { message } => "failed to list DaemonSet: "@ + message,
        ErrorView::Create { message } => "failed to create DaemonSet: "@ + message,
        ErrorView::Delete { message } => "failed to delete DaemonSets: "@ + message,
    }
}

impl Error {
    /// A log-ready description naming the failed operation.
    pub fn describe(&self) -> (r: String)
        ensures
            r@ == spec_describe(self.deep_view()),
    {
        match self {
            Error::List { message } => String::from_str("failed to list DaemonSet: ").concat(
                message.as_str(),
            ),
            Error::Create { message } => String::from_str("failed to create DaemonSet: ").concat(
                message.as_str(),
            ),
            Error::Delete { message } => String::from_str("failed to delete DaemonSets: ").concat(
                message.as_str(),
            ),
        }
    }
}

/// The requeue directive a finished pass hands back to the dispatcher.
/// The steady-state path never requests a requeue; failures fall back to
/// the dispatcher's own backoff.
#[derive(Clone, Copy, PartialEq, Eq, Structural, Debug)]
pub struct Action {
    pub requeue_after_seconds: Option<u64>,
}

/// What the dispatcher does when a pass fails: log the failure and fall
/// back to its own retry policy, with no explicit requeue from this core.
pub fn error_policy_action(_error: &Error) -> (a: Action)
    ensures
        a.requeue_after_seconds is None,
{
    Action { requeue_after_seconds: None }
}

impl DeepView for Action {
    type V = Action;

    open spec fn deep_view(&self) -> Action {
        *self
    }
}

/// One cluster operation the driver must perform next.
#[derive(Clone, Debug, PartialEq)]
pub enum Command {
    /// Fetch the resource's current identity and spec.
    LoadResource,
    /// List workload objects matching the given label filter.
    List { selector: String },
    /// Create the given workload object; "already exists" is success.
    Create { object: WorkloadObject },
    /// Delete the named workload object with immediate foreground cascade;
    /// "not found" is success.
    Delete { name: String },
    /// Delete every workload object matching the given label filter with
    /// immediate foreground cascade.
    DeleteCollection { selector: String },
    /// The pass is over; no further operation.
    Finish,
}

/// Mathematical image of a `Command`.
#[verifier::ext_equal]
pub enum CommandView {
    LoadResource,
    List { selector: Seq<char> },
    Create { object: WorkloadObjectView },
    Delete { name: Seq<char> },
    DeleteCollection { selector: Seq<char> },
    Finish,
}

impl DeepView for Command {
    type V = CommandView;

    open spec fn deep_view(&self) -> CommandView {
        match self {
            Command::LoadResource => CommandView::LoadResource,
            Command::List { selector } => CommandView::List { selector: selector.deep_view() },
            Command::Create { object } => CommandView::Create { object: object.deep_view() },
            Command::Delete { name } => CommandView::Delete { name: name.deep_view() },
            Command::DeleteCollection { selector } => CommandView::DeleteCollection {
                selector: selector.deep_view(),
            },
            Command::Finish => CommandView::Finish,
        }
    }
}

/// The observed outcome of the previous command, fed back by the driver as
/// plain values.
#[derive(Clone, Debug, PartialEq)]
pub enum Event {
    /// The resource exists; its current identity and spec.
    ResourceFound { resource: ReadyImage },
    /// The resource is gone (deleted between the event and the load).
    ResourceGone,
    /// Listing succeeded; the names of the matching workload objects.
    ListOk { names: Vec<String> },
    /// Listing failed.
    ListFailed { message: String },
    /// Creation succeeded.
    CreateOk,
    /// Creation answered "already exists": a concurrent pass won the race.
    CreateConflict,
    /// Creation failed for any other reason.
    CreateFailed { message: String },
    /// Deletion succeeded.
    DeleteOk,
    /// Deletion answered "not found": the object was already gone.
    DeleteNotFound,
    /// Deletion failed for any other reason.
    DeleteFailed { message: String },
    /// The stale-generation sweep succeeded.
    SweepOk,
    /// The stale-generation sweep failed.
    SweepFailed { message: String },
}

/// Mathematical image of an `Event`.
#[verifier::ext_equal]
pub enum EventView {
    ResourceFound { resource: ReadyImageView },
    ResourceGone,
    ListOk { names: Seq<Seq<char>> },
    ListFailed { message: Seq<char> },
    CreateOk,
    CreateConflict,
    CreateFailed { message: Seq<char> },
    DeleteOk,
    DeleteNotFound,
    DeleteFailed { message: Seq<char> },
    SweepOk,
    SweepFailed { message: Seq<char> },
}

impl DeepView for Event {
    type V = EventView;

    open spec fn deep_view(&self) -> EventView {
        match self {
            Event::ResourceFound { resource } => EventView::ResourceFound {
                resource: resource.deep_view(),
            },
            Event::ResourceGone => EventView::ResourceGone,
            Event::ListOk { names } => EventView::ListOk { names: names.deep_view() },
            Event::ListFailed { message } => EventView::ListFailed { message: message.deep_view() },
            Event::CreateOk => EventView::CreateOk,
            Event::CreateConflict => EventView::CreateConflict,
            Event::CreateFailed { message } => EventView::CreateFailed {
                message: message.deep_view(),
            },
            Event::DeleteOk => EventView::DeleteOk,
            Event::DeleteNotFound => EventView::DeleteNotFound,
            Event::DeleteFailed { message } => EventView::DeleteFailed {
                message: message.deep_view(),
            },
            Event::SweepOk => EventView::SweepOk,
            Event::SweepFailed { message } => EventView::SweepFailed {
                message: message.deep_view(),
            },
        }
    }
}

/// Classify a failed creation by its API status code: "already exists"
/// (HTTP 409) means a concurrent pass won the race and counts as success;
/// anything else is a reportable creation failure.
pub fn classify_create_failure(code: Option<u16>, message: String) -> (e: Event)
    ensures
        e.deep_view() == (if code == Some(409u16) {
            EventView::CreateConflict
        } else {
            EventView::CreateFailed { message: message.deep_view() }
        }),
{
    let conflict = match code {
        Some(c) => c == 409,
        None => false,
    };
    if conflict {
        Event::CreateConflict
    } else {
        Event::CreateFailed { message }
    }
}

/// Classify a failed deletion by its API status code: "not found"
/// (HTTP 404) means the object was already gone and counts as success;
/// anything else is a reportable deletion failure.
pub fn classify_delete_failure(code: Option<u16>, message: String) -> (e: Event)
    ensures
        e.deep_view() == (if code == Some(404u16) {
            EventView::DeleteNotFound
        } else {
            EventView::DeleteFailed { message: message.deep_view() }
        }),
{
    let gone = match code {
        Some(c) => c == 404,
        None => false,
    };
    if gone {
        Event::DeleteNotFound
    } else {
        Event::DeleteFailed { message }
    }
}

/// Where one reconciliation pass stands between two cluster operations.
#[derive(Clone, Debug, PartialEq)]
pub enum Phase {
    /// Waiting for the resource to be loaded.
    Loading,
    /// Waiting for the list of current-generation workload objects.
    Listing { rimg: ReadyImage },
    /// Waiting for the outcome of creating the desired object.
    Creating { rimg: ReadyImage },
    /// Several current-generation objects were found; the first is kept
    /// and `names[next]` is being deleted.
    DeletingExtras { rimg: ReadyImage, names: Vec<String>, next: usize },
    /// Waiting for the unconditional stale-generation sweep.
    Sweeping { rimg: ReadyImage },
    /// The pass finished; hand `action` to the dispatcher.
    Done { action: Action },
    /// The pass failed; hand `error` to the dispatcher.
    Failed { error: Error },
}

/// Mathematical image of a `Phase`.
#[verifier::ext_equal]
pub enum PhaseView {
    Loading,
    Listing { rimg: ReadyImageView },
    Creating { rimg: ReadyImageView },
    DeletingExtras { rimg: ReadyImageView, names: Seq<Seq<char>>, next: usize },
    Sweeping { rimg: ReadyImageView },
    Done { action: Action },
    Failed { error: ErrorView },
}

impl DeepView for Phase {
    type V = PhaseView;

    open spec fn deep_view(&self) -> PhaseView {
        match self {
            Phase::Loading => PhaseView::Loading,
            Phase::Listing { rimg } => PhaseView::Listing { rimg: rimg.deep_view() },
            Phase::Creating { rimg } => PhaseView::Creating { rimg: rimg.deep_view() },
            Phase::DeletingExtras { rimg, names, next } => PhaseView::DeletingExtras {
                rimg: rimg.deep_view(),
                names: names.deep_view(),
                next: *next,
            },
            Phase::Sweeping { rimg } => PhaseView::Sweeping { rimg: rimg.deep_view() },
            Phase::Done { action } => PhaseView::Done { action: *action },
            Phase::Failed { error } => PhaseView::Failed { error: error.deep_view() },
        }
    }
}

/// Phases that carry a resource carry one with both identity fields, and a
/// deletion cursor always points at a deletable entry past the survivor.
pub open spec fn spec_phase_wf(phase: PhaseView) -> bool {
    match phase {
        PhaseView::Loading => true,
        PhaseView::Listing { rimg } => rimg.has_identity(),
        PhaseView::Creating { rimg } => rimg.has_identity(),
        PhaseView::DeletingExtras { rimg, names, next } => rimg.has_identity() && 1 <= next
            < names.len(),
        PhaseView::Sweeping { rimg } => rimg.has_identity(),
        PhaseView::Done { .. } => true,
        PhaseView::Failed { .. } => true,
    }
}

/// The events a phase can observe: exactly the outcomes of the command the
/// machine issued on entering that phase.  A found resource must carry its
/// cluster-assigned identity; its absence is a platform-contract violation
/// on which the driver fails loudly instead of stepping the machine.
pub open spec fn spec_expects(phase: PhaseView, event: EventView) -> bool {
    match (phase, event) {
        (PhaseView::Loading, EventView::ResourceFound { resource }) => resource.has_identity(),
        (PhaseView::Loading, EventView::ResourceGone) => true,
        (PhaseView::Listing { .. }, EventView::ListOk { .. }) => true,
        (PhaseView::Listing { .. }, EventView::ListFailed { .. }) => true,
        (PhaseView::Creating { .. }, EventView::CreateOk) => true,
        (PhaseView::Creating { .. }, EventView::CreateConflict) => true,
        (PhaseView::Creating { .. }, EventView::CreateFailed { .. }) => true,
        (PhaseView::DeletingExtras { .. }, EventView::DeleteOk) => true,
        (PhaseView::DeletingExtras { .. }, EventView::DeleteNotFound) => true,
        (PhaseView::DeletingExtras { .. }, EventView::DeleteFailed { .. }) => true,
        (PhaseView::Sweeping { .. }, EventView::SweepOk) => true,
        (PhaseView::Sweeping { .. }, EventView::SweepFailed { .. }) => true,
        _ => false,
    }
}

/// The stale-generation sweep issued on entering the sweeping phase.
pub open spec fn spec_sweep_command(rimg: ReadyImageView) -> CommandView {
    CommandView::DeleteCollection {
        selector: spec_stale_selector(rimg.uid.unwrap(), rimg.resource_version.unwrap()),
    }
}

/// The no-requeue directive returned by every successful pass: the loop is
/// level-triggered and relies on the dispatcher to call it again.
pub open spec fn spec_done_action() -> Action {
    Action { requeue_after_seconds: None }
}

/// The transition function of the reconciliation pass: from the current
/// phase and the observed outcome to the next phase and the next cluster
/// operation.
pub open spec fn spec_step(sleeper_image: Seq<char>, phase: PhaseView, event: EventView) -> (
    PhaseView,
    CommandView,
) {
    match (phase, event) {
        (PhaseView::Loading, EventView::ResourceFound { resource }) => (
            PhaseView::Listing { rimg: resource },
            CommandView::List {
                selector: spec_current_selector(
                    resource.uid.unwrap(),
                    resource.resource_version.unwrap(),
                ),
            },
        ),
        (PhaseView::Loading, EventView::ResourceGone) => (
            PhaseView::Done { action: spec_done_action() },
            CommandView::Finish,
        ),
        (PhaseView::Listing { rimg }, EventView::ListOk { names }) => if names.len() == 0 {
            (
                PhaseView::Creating { rimg },
                CommandView::Create { object: spec_build(rimg, sleeper_image) },
            )
        } else if names.len() == 1 {
            (PhaseView::Sweeping { rimg }, spec_sweep_command(rimg))
        } else {
            (
                PhaseView::DeletingExtras { rimg, names, next: 1 },
                CommandView::Delete { name: names[1] },
            )
        },
        (PhaseView::Listing { .. }, EventView::ListFailed { message }) => (
            PhaseView::Failed { error: ErrorView::List { message } },
            CommandView::Finish,
        ),
        (PhaseView::Creating { rimg }, EventView::CreateOk) => (
            PhaseView::Sweeping { rimg },
            spec_sweep_command(rimg),
        ),
        (PhaseView::Creating { rimg }, EventView::CreateConflict) => (
            PhaseView::Sweeping { rimg },
            spec_sweep_command(rimg),
        ),
        (PhaseView::Creating { .. }, EventView::CreateFailed { message }) => (
            PhaseView::Failed { error: ErrorView::Create { message } },
            CommandView::Finish,
        ),
        (PhaseView::DeletingExtras { rimg, names, next }, EventView::DeleteOk) => if next + 1
            < names.len() {
            (
                PhaseView::DeletingExtras { rimg, names, next: (next + 1) as usize },
                CommandView::Delete { name: names[next + 1] },
            )
        } else {
            (PhaseView::Sweeping { rimg }, spec_sweep_command(rimg))
        },
        (PhaseView::DeletingExtras { rimg, names, next }, EventView::DeleteNotFound) => if next + 1
            < names.len() {
            (
                PhaseView::DeletingExtras { rimg, names, next: (next + 1) as usize },
                CommandView::Delete { name: names[next + 1] },
            )
        } else {
            (PhaseView::Sweeping { rimg }, spec_sweep_command(rimg))
        },
        (PhaseView::DeletingExtras { .. }, EventView::DeleteFailed { message }) => (
            PhaseView::Failed { error: ErrorView::Delete { message } },
            CommandView::Finish,
        ),
        (PhaseView::Sweeping { .. }, EventView::SweepOk) => (
            PhaseView::Done { action: spec_done_action() },
            CommandView::Finish,
        ),
        (PhaseView::Sweeping { .. }, EventView::SweepFailed { message }) => (
            PhaseView::Failed { error: ErrorView::Delete { message } },
            CommandView::Finish,
        ),
        _ => (phase, CommandView::Finish),
    }
}

/// Idempotence at the machine level: a pass that observes exactly one
/// current-generation object mutates nothing — it goes straight from the
/// read-only listing to the stale sweep, issuing no create and no delete.
pub proof fn lemma_no_mutation_when_satisfied(
    sleeper_image: Seq<char>,
    rimg: ReadyImageView,
    names: Seq<Seq<char>>,
)
    requires
        rimg.has_identity(),
        names.len() == 1,
    ensures
        spec_step(sleeper_image, PhaseView::Listing { rimg }, EventView::ListOk { names })
            == (PhaseView::Sweeping { rimg }, spec_sweep_command(rimg)),
{
}

/// The reconciliation pass driver-side configuration: the fixed data-plane
/// helper image reference handed to the desired-state builder.
pub struct Reconciler {
    pub sleeper_image: String,
}

impl Reconciler {
    /// A reconciler that builds workload objects around the given helper
    /// image.
    pub fn new(sleeper_image: String) -> (r: Reconciler)
        ensures
            r.sleeper_image == sleeper_image,
    {
        Reconciler { sleeper_image }
    }

    /// Begin a pass: the first operation is always loading the resource.
    pub fn start(&self) -> (r: (Phase, Command))
        ensures
            r.0.deep_view() == PhaseView::Loading,
            r.1.deep_view() == CommandView::LoadResource,
            spec_phase_wf(r.0.deep_view()),
    {
        (Phase::Loading, Command::LoadResource)
    }

    /// Advance the pass by one observed outcome.
    pub fn step(&self, phase: Phase, event: Event) -> (r: (Phase, Command))
        requires
            spec_phase_wf(phase.deep_view()),
            spec_expects(phase.deep_view(), event.deep_view()),
        ensures
            r.deep_view() == spec_step(self.sleeper_image@, phase.deep_view(), event.deep_view()),
            spec_phase_wf(r.0.deep_view()),
    {
        match (phase, event) {
            (Phase::Loading, Event::ResourceFound { resource }) => {
                let selector = current_selector(
                    resource.uid.as_ref().unwrap(),
                    resource.resource_version.as_ref().unwrap(),
                );
                (Phase::Listing { rimg: resource }, Command::List { selector })
            },
            (Phase::Loading, Event::ResourceGone) => (
                Phase::Done { action: Action { requeue_after_seconds: None } },
                Command::Finish,
            ),
            (Phase::Listing { rimg }, Event::ListOk { names }) => {
                if names.len() == 0 {
                    let object = build_daemon_set(&rimg, self.sleeper_image.as_str());
                    (Phase::Creating { rimg }, Command::Create { object })
                } else if names.len() == 1 {
                    let cmd = self.sweep_command(&rimg);
                    (Phase::Sweeping { rimg }, cmd)
                } else {
                    let name = names[1].clone();
                    (
                        Phase::DeletingExtras { rimg, names, next: 1 },
                        Command::Delete { name },
                    )
                }
            },
            (Phase::Listing { .. }, Event::ListFailed { message }) => (
                Phase::Failed { error: Error::List { message } },
                Command::Finish,
            ),
            (Phase::Creating { rimg }, Event::CreateOk) => {
                let cmd = self.sweep_command(&rimg);
                (Phase::Sweeping { rimg }, cmd)
            },
            (Phase::Creating { rimg }, Event::CreateConflict) => {
                let cmd = self.sweep_command(&rimg);
                (Phase::Sweeping { rimg }, cmd)
            },
            (Phase::Creating { .. }, Event::CreateFailed { message }) => (
                Phase::Failed { error: Error::Create { message } },
                Command::Finish,
            ),
            (Phase::DeletingExtras { rimg, names, next }, Event::DeleteOk) => self.advance_deletes(
                rimg,
                names,
                next,
            ),
            (Phase::DeletingExtras { rimg, names, next }, Event::DeleteNotFound) => self
                .advance_deletes(rimg, names, next),
            (Phase::DeletingExtras { .. }, Event::DeleteFailed { message }) => (
                Phase::Failed { error: Error::Delete { message } },
                Command::Finish,
            ),
            (Phase::Sweeping { .. }, Event::SweepOk) => (
                Phase::Done { action: Action { requeue_after_seconds: None } },
                Command::Finish,
            ),
            (Phase::Sweeping { .. }, Event::SweepFailed { message }) => (
                Phase::Failed { error: Error::Delete { message } },
                Command::Finish,
            ),
            (p, _) => (p, Command::Finish),
        }
    }

    /// Issue the unconditional stale-generation sweep.
    fn sweep_command(&self, rimg: &ReadyImage) -> (r: Command)
        requires
            rimg.has_identity(),
        ensures
            r.deep_view() == spec_sweep_command(rimg.deep_view()),
    {
        let selector = stale_selector(
            rimg.uid.as_ref().unwrap(),
            rimg.resource_version.as_ref().unwrap(),
        );
        Command::DeleteCollection { selector }
    }

    /// One surplus object was confirmed gone; delete the next one, or move
    /// on to the sweep when none is left.
    fn advance_deletes(&self, rimg: ReadyImage, names: Vec<String>, next: usize) -> (r: (
        Phase,
        Command,
    ))
        requires
            rimg.has_identity(),
            1 <= next < names.len(),
        ensures
            r.deep_view() == (if next + 1 < names.deep_view().len() {
                (
                    PhaseView::DeletingExtras {
                        rimg: rimg.deep_view(),
                        names: names.deep_view(),
                        next: (next + 1) as usize,
                    },
                    CommandView::Delete { name: names.deep_view()[next + 1] },
                )
            } else {
                (PhaseView::Sweeping { rimg: rimg.deep_view() }, spec_sweep_command(
                    rimg.deep_view(),
                ))
            }),
            spec_phase_wf(r.0.deep_view()),
    {
        if next + 1 < names.len() {
            let name = names[next + 1].clone();
            (
                Phase::DeletingExtras { rimg, names, next: next + 1 },
                Command::Delete { name },
            )
        } else {
            let cmd = self.sweep_command(&rimg);
            (Phase::Sweeping { rimg }, cmd)
        }
    }
}

} // verus!
