//! Planting a seed: the run from request to finished project.
//!
//! The run is a machine that is fed what the outside world answered and says
//! what to do next. It never goes back: each step either moves on to a later
//! stage or ends the run.

use crate::seed::Seed;
use crate::silo::{has_seed, is_first_named, not_found_text, seed_position, Silo};
use crate::text::{extended, join_path, TOHUMRC_FILENAME, TOHUMRC_GLOB_PATTERN};
use crate::variables::{
    assigned, bind_arguments, bind_reserved, bindings_of, declared_of, new_bindings, no_bindings,
    resolve_variables, resolved, with_reserved,
};
use vstd::prelude::*;
use vstd::string::*;

verus! {

/// What the user asked for.
#[derive(Clone, Debug)]
pub struct PlantRequest {
    pub project_name: String,
    pub silo_url: String,
    pub silo_branch: String,
    pub seed_name: String,
    /// The directory under which the project is created.
    pub path: String,
    /// Whether an existing destination may be replaced.
    pub force: bool,
    /// The `key=value` assignments, in the order given.
    pub variables: Vec<String>,
}

/// The stages of a run, in their order.
#[derive(Clone, Copy, Debug, PartialEq, Eq, Structural)]
pub enum PlantStage {
    ResolveDestination,
    ResolveSilo,
    LocateSeed,
    FetchPayload,
    CopyPayload,
    ResolveVariables,
    Render,
    Cleanup,
    Done,
    Failed,
}

/// What stands at a path.
#[derive(Clone, Copy, Debug, PartialEq, Eq, Structural)]
pub enum PathKind {
    Absent,
    File,
    Dir,
    /// Something that is neither a file nor a directory.
    Other,
}

/// Where a run stands: what it has asked for and not yet heard of.
#[derive(Clone, Debug)]
pub enum PlantState {
    /// Nothing has been asked yet.
    Created,
    /// Asked what stands at the destination.
    ProbingDestination,
    /// Asked to remove what stands at the destination.
    ClearingDestination,
    /// Asked whether the silo is a local directory.
    ProbingSilo,
    /// Asked for the seeds of the silo.
    ReadingSilo,
    /// Asked to fetch the payload of the seed.
    FetchingPayload { seed: Seed },
    /// Asked to copy the payload into the destination.
    CopyingPayload { seed: Seed },
    /// Asked to render the destination.
    Rendering,
    /// Asked to remove the marker file from the destination.
    CleaningUp,
    /// The project stands.
    Done,
    /// The run was given up.
    Failed,
}

/// What the outside world answered.
#[derive(Clone, Debug)]
pub enum PlantEvent {
    /// The run begins.
    Started,
    /// What stands at the path that was asked about.
    Found(PathKind),
    /// The seeds of the silo, in walk order.
    Seeds(Silo),
    /// What was asked for has been done.
    Completed,
    /// What was asked for has failed; the text says how.
    Failed(String),
}

/// What a run asks for next.
#[derive(Debug)]
pub enum PlantAction {
    /// Say what stands at the destination.
    ProbeDestination { path: String },
    /// Remove the file at the destination.
    RemoveFile { path: String },
    /// Remove the directory tree at the destination.
    RemoveDir { path: String },
    /// Say what stands at the path that the silo is named by.
    ProbeSilo { path: String },
    /// Walk the local directory and read its marker files.
    WalkSilo { root: String },
    /// Fetch the marker files of the remote silo into a scratch directory,
    /// walk it, and remove it.
    FetchSilo { url: String, branch: String, pattern: String },
    /// Fetch what the pattern selects of the silo into a scratch directory.
    FetchPayload { url: String, branch: String, pattern: String },
    /// Copy the directory `repo_path` of the scratch directory to the destination.
    CopyPayload { repo_path: String, destination: String },
    /// Render every text file under the root with the bindings.
    Render { root: String, bindings: tera::Context },
    /// Remove the marker file; a failure to do so fails the run.
    RemoveMarker { path: String },
    /// Tell the user that the project stands.
    Finish { message: String },
    /// Tell the user why the run was given up, and at which stage.
    Abort { stage: PlantStage, message: String },
}

impl PlantState {
    /// The stage that a state belongs to.
    pub open spec fn stage(&self) -> PlantStage {
        match self {
            PlantState::Created => PlantStage::ResolveDestination,
            PlantState::ProbingDestination => PlantStage::ResolveDestination,
            PlantState::ClearingDestination => PlantStage::ResolveDestination,
            PlantState::ProbingSilo => PlantStage::ResolveSilo,
            PlantState::ReadingSilo => PlantStage::ResolveSilo,
            PlantState::FetchingPayload { .. } => PlantStage::FetchPayload,
            PlantState::CopyingPayload { .. } => PlantStage::CopyPayload,
            PlantState::Rendering => PlantStage::Render,
            PlantState::CleaningUp => PlantStage::Cleanup,
            PlantState::Done => PlantStage::Done,
            PlantState::Failed => PlantStage::Failed,
        }
    }

    /// How far a state is into the run: a later state has a higher number.
    pub open spec fn progress(&self) -> nat {
        match self {
            PlantState::Created => 0,
            PlantState::ProbingDestination => 1,
            PlantState::ClearingDestination => 2,
            PlantState::ProbingSilo => 3,
            PlantState::ReadingSilo => 4,
            PlantState::FetchingPayload { .. } => 5,
            PlantState::CopyingPayload { .. } => 6,
            PlantState::Rendering => 7,
            PlantState::CleaningUp => 8,
            PlantState::Done => 9,
            PlantState::Failed => 9,
        }
    }

    /// Whether the run has ended, well or badly.
    pub open spec fn is_terminal(&self) -> bool {
        self is Done || self is Failed
    }

    /// The stage of the state.
    pub fn current_stage(&self) -> (stage: PlantStage)
        ensures
            stage == self.stage(),
    {
        match self {
            PlantState::Created => PlantStage::ResolveDestination,
            PlantState::ProbingDestination => PlantStage::ResolveDestination,
            PlantState::ClearingDestination => PlantStage::ResolveDestination,
            PlantState::ProbingSilo => PlantStage::ResolveSilo,
            PlantState::ReadingSilo => PlantStage::ResolveSilo,
            PlantState::FetchingPayload { .. } => PlantStage::FetchPayload,
            PlantState::CopyingPayload { .. } => PlantStage::CopyPayload,
            PlantState::Rendering => PlantStage::Render,
            PlantState::CleaningUp => PlantStage::Cleanup,
            PlantState::Done => PlantStage::Done,
            PlantState::Failed => PlantStage::Failed,
        }
    }
}

/// Where the project is created: the path with the project's name appended.
pub open spec fn destination_of(request: PlantRequest) -> Seq<char> {
    extended(request.path@, request.project_name@)
}

/// What the user is told when the destination exists and may not be replaced.
pub open spec fn collision_text(destination: Seq<char>) -> Seq<char> {
    "Target dir "@ + destination
        + " already exists. Either use another path, project name or \"--force\" flag to overwrite"@
}

/// What the user is told when the project stands.
pub open spec fn planted_text(request: PlantRequest) -> Seq<char> {
    "Project "@ + request.project_name@ + " planted at "@ + destination_of(request) + " from "@
        + request.seed_name@ + " seed!"@
}

/// What the user is told when the outside world answers what was not asked.
pub open spec fn unexpected_text() -> Seq<char> {
    "Unexpected answer for the stage of the run"@
}

/// The sparse pattern that selects the payload of a seed.
pub open spec fn payload_pattern(seed: Seed) -> Seq<char> {
    extended(seed.repo_path@, "*"@)
}

/// The bindings that a seed is rendered with: the user's assignments, then
/// the seed's defaults where the user gave nothing, then the reserved names;
/// or the text of the error that ends the run.
pub open spec fn planted_bindings(request: PlantRequest, seed: Seed) -> Result<
    Map<Seq<char>, serde_json::Value>,
    Seq<char>,
> {
    match assigned(no_bindings(), request.variables@) {
        Err(argument) => Err("Invalid variable format: "@ + argument + ". Use 'key=value'"@),
        Ok(supplied) => match resolved(supplied, declared_of(seed.variables)) {
            Err(name) => Err("Template variable "@ + name + " is required but not a value given"@),
            Ok(completed) => Ok(with_reserved(completed, request.project_name@, seed.authors@)),
        },
    }
}

/// Whether the run is given up at this stage with this text.
pub open spec fn gives_up(next: PlantState, action: PlantAction, at: PlantStage, text: Seq<char>) -> bool {
    &&& next is Failed
    &&& action matches PlantAction::Abort { stage, message }
    &&& stage == at
    &&& message@ == text
}

/// Whether the run goes on to ask what the silo is named by.
pub open spec fn turns_to_silo(request: PlantRequest, next: PlantState, action: PlantAction) -> bool {
    &&& next is ProbingSilo
    &&& action matches PlantAction::ProbeSilo { path }
    &&& path@ == request.silo_url@
}

/// The step that a run takes from a state on an answer.
pub open spec fn steps_to(
    request: PlantRequest,
    state: PlantState,
    event: PlantEvent,
    next: PlantState,
    action: PlantAction,
) -> bool {
    match (state, event) {
        (PlantState::Done, _) => {
            &&& next is Done
            &&& action matches PlantAction::Finish { message }
            &&& message@ == planted_text(request)
        },
        (_, PlantEvent::Failed(reason)) => gives_up(next, action, state.stage(), reason@),
        (PlantState::Created, PlantEvent::Started) => {
            &&& next is ProbingDestination
            &&& action matches PlantAction::ProbeDestination { path }
            &&& path@ == destination_of(request)
        },
        (PlantState::ProbingDestination, PlantEvent::Found(kind)) => {
            if kind == PathKind::Absent {
                turns_to_silo(request, next, action)
            } else if !request.force {
                gives_up(
                    next,
                    action,
                    PlantStage::ResolveDestination,
                    collision_text(destination_of(request)),
                )
            } else if kind == PathKind::File {
                &&& next is ClearingDestination
                &&& action matches PlantAction::RemoveFile { path }
                &&& path@ == destination_of(request)
            } else if kind == PathKind::Dir {
                &&& next is ClearingDestination
                &&& action matches PlantAction::RemoveDir { path }
                &&& path@ == destination_of(request)
            } else {
                turns_to_silo(request, next, action)
            }
        },
        (PlantState::ClearingDestination, PlantEvent::Completed) => turns_to_silo(
            request,
            next,
            action,
        ),
        (PlantState::ProbingSilo, PlantEvent::Found(kind)) => {
            if kind == PathKind::Dir {
                &&& next is ReadingSilo
                &&& action matches PlantAction::WalkSilo { root }
                &&& root@ == request.silo_url@
            } else {
                &&& next is ReadingSilo
                &&& action matches PlantAction::FetchSilo { url, branch, pattern }
                &&& url@ == request.silo_url@
                &&& branch@ == request.silo_branch@
                &&& pattern@ == TOHUMRC_GLOB_PATTERN@
            }
        },
        (PlantState::ReadingSilo, PlantEvent::Seeds(seeds)) => {
            if has_seed(seeds@, request.seed_name@) {
                &&& next matches PlantState::FetchingPayload { seed }
                &&& exists|i: int| is_first_named(seeds@, request.seed_name@, i) && seed == seeds@[i]
                &&& action matches PlantAction::FetchPayload { url, branch, pattern }
                &&& url@ == request.silo_url@
                &&& branch@ == request.silo_branch@
                &&& pattern@ == payload_pattern(seed)
            } else {
                gives_up(next, action, PlantStage::LocateSeed, not_found_text(request.seed_name@))
            }
        },
        (PlantState::FetchingPayload { seed }, PlantEvent::Completed) => {
            &&& next matches PlantState::CopyingPayload { seed: kept }
            &&& kept == seed
            &&& action matches PlantAction::CopyPayload { repo_path, destination }
            &&& repo_path@ == seed.repo_path@
            &&& destination@ == destination_of(request)
        },
        (PlantState::CopyingPayload { seed }, PlantEvent::Completed) => {
            match planted_bindings(request, seed) {
                Ok(wanted) => {
                    &&& next is Rendering
                    &&& action matches PlantAction::Render { root, bindings }
                    &&& root@ == destination_of(request)
                    &&& bindings_of(bindings) == wanted
                },
                Err(text) => gives_up(next, action, PlantStage::ResolveVariables, text),
            }
        },
        (PlantState::Rendering, PlantEvent::Completed) => {
            &&& next is CleaningUp
            &&& action matches PlantAction::RemoveMarker { path }
            &&& path@ == extended(destination_of(request), TOHUMRC_FILENAME@)
        },
        (PlantState::CleaningUp, PlantEvent::Completed) => {
            &&& next is Done
            &&& action matches PlantAction::Finish { message }
            &&& message@ == planted_text(request)
        },
        _ => gives_up(next, action, state.stage(), unexpected_text()),
    }
}

fn give_up(stage: PlantStage, message: String) -> (step: (PlantState, PlantAction))
    ensures
        gives_up(step.0, step.1, stage, message@),
{
    (PlantState::Failed, PlantAction::Abort { stage, message })
}

fn turn_to_silo(request: &PlantRequest) -> (step: (PlantState, PlantAction))
    ensures
        turns_to_silo(*request, step.0, step.1),
{
    (PlantState::ProbingSilo, PlantAction::ProbeSilo { path: request.silo_url.clone() })
}

fn finish(request: &PlantRequest) -> (step: (PlantState, PlantAction))
    ensures
        step.0 is Done,
        step.1 matches PlantAction::Finish { message } && message@ == planted_text(*request),
{
    let destination = join_path(request.path.as_str(), request.project_name.as_str());
    let mut message = String::from_str("Project ");
    message.append(request.project_name.as_str());
    message.append(" planted at ");
    message.append(destination.as_str());
    message.append(" from ");
    message.append(request.seed_name.as_str());
    message.append(" seed!");
    (PlantState::Done, PlantAction::Finish { message })
}

fn collide(request: &PlantRequest) -> (step: (PlantState, PlantAction))
    ensures
        gives_up(
            step.0,
            step.1,
            PlantStage::ResolveDestination,
            collision_text(destination_of(*request)),
        ),
{
    let destination = join_path(request.path.as_str(), request.project_name.as_str());
    let mut message = String::from_str("Target dir ");
    message.append(destination.as_str());
    message.append(
        " already exists. Either use another path, project name or \"--force\" flag to overwrite",
    );
    give_up(PlantStage::ResolveDestination, message)
}

fn unexpected(stage: PlantStage) -> (step: (PlantState, PlantAction))
    ensures
        gives_up(step.0, step.1, stage, unexpected_text()),
{
    give_up(stage, String::from_str("Unexpected answer for the stage of the run"))
}

/// Resolves the variables of a run and asks for the rendering, or gives the
/// run up on the first assignment without `=` or the first variable missing.
fn resolve_and_render(request: &PlantRequest, seed: &Seed) -> (step: (PlantState, PlantAction))
    ensures
        match planted_bindings(*request, *seed) {
            Ok(wanted) => {
                &&& step.0 is Rendering
                &&& step.1 matches PlantAction::Render { root, bindings }
                &&& root@ == destination_of(*request)
                &&& bindings_of(bindings) == wanted
            },
            Err(text) => gives_up(step.0, step.1, PlantStage::ResolveVariables, text),
        },
{
    let mut bindings = new_bindings();
    match bind_arguments(&mut bindings, &request.variables) {
        Ok(()) => {},
        Err(error) => {
            return give_up(PlantStage::ResolveVariables, error.message());
        },
    }
    match resolve_variables(&mut bindings, &seed.variables) {
        Ok(()) => {},
        Err(error) => {
            return give_up(PlantStage::ResolveVariables, error.message());
        },
    }
    bind_reserved(&mut bindings, request.project_name.as_str(), &seed.authors);
    let root = join_path(request.path.as_str(), request.project_name.as_str());
    (PlantState::Rendering, PlantAction::Render { root, bindings })
}

/// Locates the seed of the request among the seeds of the silo and asks for
/// its payload, or gives the run up where the silo holds no such seed.
fn locate_and_fetch(request: &PlantRequest, seeds: Silo) -> (step: (PlantState, PlantAction))
    ensures
        if has_seed(seeds@, request.seed_name@) {
            &&& step.0 matches PlantState::FetchingPayload { seed }
            &&& exists|i: int| is_first_named(seeds@, request.seed_name@, i) && seed == seeds@[i]
            &&& step.1 matches PlantAction::FetchPayload { url, branch, pattern }
            &&& url@ == request.silo_url@
            &&& branch@ == request.silo_branch@
            &&& pattern@ == payload_pattern(seed)
        } else {
            gives_up(step.0, step.1, PlantStage::LocateSeed, not_found_text(request.seed_name@))
        },
{
    let mut seeds = seeds;
    match seed_position(&seeds, request.seed_name.as_str()) {
        Some(at) => {
            let seed = seeds.remove(at);
            let pattern = join_path(seed.repo_path.as_str(), "*");
            (
                PlantState::FetchingPayload { seed },
                PlantAction::FetchPayload {
                    url: request.silo_url.clone(),
                    branch: request.silo_branch.clone(),
                    pattern,
                },
            )
        },
        None => {
            let mut message = String::from_str("Seed ");
            message.append(request.seed_name.as_str());
            message.append(" is not found in the silo");
            give_up(PlantStage::LocateSeed, message)
        },
    }
}

/// Takes the run one step on: from where it stands and what the outside world
/// answered to where it stands next and what it asks for.
///
/// The stages follow one another in a fixed order: the destination is
/// resolved, the silo read, the seed located, its payload fetched and copied,
/// the variables resolved, the destination rendered and the marker removed.
/// A failure at any stage ends the run with that failure's text; nothing is
/// tried twice.
pub fn plant_seed(request: &PlantRequest, state: PlantState, event: PlantEvent) -> (step: (
    PlantState,
    PlantAction,
))
    ensures
        steps_to(*request, state, event, step.0, step.1),
        step.0.is_terminal() || step.0.progress() > state.progress(),
        state.is_terminal() ==> step.0 == state,
{
    let stage = state.current_stage();
    match (state, event) {
        (PlantState::Done, _) => finish(request),
        (_, PlantEvent::Failed(reason)) => give_up(stage, reason),
        (PlantState::Created, PlantEvent::Started) => {
            let path = join_path(request.path.as_str(), request.project_name.as_str());
            (PlantState::ProbingDestination, PlantAction::ProbeDestination { path })
        },
        (PlantState::ProbingDestination, PlantEvent::Found(kind)) => {
            if kind == PathKind::Absent {
                turn_to_silo(request)
            } else if !request.force {
                collide(request)
            } else if kind == PathKind::File {
                let path = join_path(request.path.as_str(), request.project_name.as_str());
                (PlantState::ClearingDestination, PlantAction::RemoveFile { path })
            } else if kind == PathKind::Dir {
                let path = join_path(request.path.as_str(), request.project_name.as_str());
                (PlantState::ClearingDestination, PlantAction::RemoveDir { path })
            } else {
                turn_to_silo(request)
            }
        },
        (PlantState::ClearingDestination, PlantEvent::Completed) => turn_to_silo(request),
        (PlantState::ProbingSilo, PlantEvent::Found(kind)) => {
            if kind == PathKind::Dir {
                (PlantState::ReadingSilo, PlantAction::WalkSilo { root: request.silo_url.clone() })
            } else {
                (
                    PlantState::ReadingSilo,
                    PlantAction::FetchSilo {
                        url: request.silo_url.clone(),
                        branch: request.silo_branch.clone(),
                        pattern: String::from_str(TOHUMRC_GLOB_PATTERN),
                    },
                )
            }
        },
        (PlantState::ReadingSilo, PlantEvent::Seeds(seeds)) => locate_and_fetch(request, seeds),
        (PlantState::FetchingPayload { seed }, PlantEvent::Completed) => {
            let repo_path = seed.repo_path.clone();
            let destination = join_path(request.path.as_str(), request.project_name.as_str());
            (
                PlantState::CopyingPayload { seed },
                PlantAction::CopyPayload { repo_path, destination },
            )
        },
        (PlantState::CopyingPayload { seed }, PlantEvent::Completed) => resolve_and_render(
            request,
            &seed,
        ),
        (PlantState::Rendering, PlantEvent::Completed) => {
            let destination = join_path(request.path.as_str(), request.project_name.as_str());
            let path = join_path(destination.as_str(), TOHUMRC_FILENAME);
            (PlantState::CleaningUp, PlantAction::RemoveMarker { path })
        },
        (PlantState::CleaningUp, PlantEvent::Completed) => finish(request),
        _ => unexpected(stage),
    }
}

impl PlantStage {
    /// The place of a stage in the order of the run. The two ways in which a
    /// run ends stand last, side by side.
    pub open spec fn order(&self) -> nat {
        match self {
            PlantStage::ResolveDestination => 0,
            PlantStage::ResolveSilo => 1,
            PlantStage::LocateSeed => 2,
            PlantStage::FetchPayload => 3,
            PlantStage::CopyPayload => 4,
            PlantStage::ResolveVariables => 5,
            PlantStage::Render => 6,
            PlantStage::Cleanup => 7,
            PlantStage::Done => 8,
            PlantStage::Failed => 8,
        }
    }
}

/// A run never goes back: a step leaves it at the same stage or a later one,
/// a run that has ended stays as it ended, and a run that has not ended is
/// nearer its end after every step.
pub proof fn lemma_run_never_goes_back(
    request: PlantRequest,
    state: PlantState,
    event: PlantEvent,
    next: PlantState,
    action: PlantAction,
)
    requires
        steps_to(request, state, event, next, action),
    ensures
        next.stage().order() >= state.stage().order(),
        state is Done ==> next is Done,
        state is Failed ==> next is Failed,
        next.is_terminal() || next.progress() > state.progress(),
{
}

/// A failure at any stage ends the run, and the run is given up at the stage
/// at which the failure arrived, with the failure's own text.
pub proof fn lemma_failure_ends_the_run(
    request: PlantRequest,
    state: PlantState,
    reason: String,
    next: PlantState,
    action: PlantAction,
)
    requires
        !(state is Done),
        steps_to(request, state, PlantEvent::Failed(reason), next, action),
    ensures
        gives_up(next, action, state.stage(), reason@),
{
}

/// A run asks for nothing to be removed at the destination unless the request
/// allows replacing it. Without that, a run that finds something at the
/// destination is given up there and then, naming the destination.
pub proof fn lemma_destination_is_kept_without_force(
    request: PlantRequest,
    state: PlantState,
    event: PlantEvent,
    next: PlantState,
    action: PlantAction,
)
    requires
        !request.force,
        steps_to(request, state, event, next, action),
    ensures
        !(action is RemoveFile) && !(action is RemoveDir),
        state is ProbingDestination && event is Found && event->Found_0 != PathKind::Absent
            ==> gives_up(
            next,
            action,
            PlantStage::ResolveDestination,
            collision_text(destination_of(request)),
        ),
{
}

/// With leave to replace it, a file or a directory at the destination is
/// removed before the run goes on.
pub proof fn lemma_destination_is_replaced_with_force(
    request: PlantRequest,
    kind: PathKind,
    next: PlantState,
    action: PlantAction,
)
    requires
        request.force,
        kind == PathKind::File || kind == PathKind::Dir,
        steps_to(request, PlantState::ProbingDestination, PlantEvent::Found(kind), next, action),
    ensures
        next is ClearingDestination,
        kind == PathKind::File ==> (action matches PlantAction::RemoveFile { path } && path@
            == destination_of(request)),
        kind == PathKind::Dir ==> (action matches PlantAction::RemoveDir { path } && path@
            == destination_of(request)),
{
}

/// A seed that declares no variables is rendered without any input from the
/// user: the run goes on to render with the reserved names alone.
pub proof fn lemma_bare_seed_needs_no_input(
    request: PlantRequest,
    seed: Seed,
    next: PlantState,
    action: PlantAction,
)
    requires
        seed.variables is None,
        request.variables@.len() == 0,
        steps_to(request, PlantState::CopyingPayload { seed }, PlantEvent::Completed, next, action),
    ensures
        next is Rendering,
        action matches PlantAction::Render { root, bindings } && bindings_of(bindings)
            == with_reserved(no_bindings(), request.project_name@, seed.authors@),
{
}

/// A run whose seed requires a variable, declares no default for it and gets
/// none from the user ends before anything is rendered, and the user is told
/// which variable is missing: the first such in the order of declaration.
pub proof fn lemma_missing_variable_ends_the_run(
    request: PlantRequest,
    seed: Seed,
    supplied: Map<Seq<char>, serde_json::Value>,
    i: int,
    next: PlantState,
    action: PlantAction,
)
    requires
        seed.well_formed(),
        assigned(no_bindings(), request.variables@) == Ok::<Map<Seq<char>, serde_json::Value>, Seq<char>>(
            supplied,
        ),
        crate::variables::is_missing(supplied, declared_of(seed.variables), i),
        forall|j: int| 0 <= j < i ==> !crate::variables::is_missing(supplied, declared_of(seed.variables), j),
        steps_to(request, PlantState::CopyingPayload { seed }, PlantEvent::Completed, next, action),
    ensures
        gives_up(
            next,
            action,
            PlantStage::ResolveVariables,
            "Template variable "@ + declared_of(seed.variables)[i].0@
                + " is required but not a value given"@,
        ),
{
    crate::variables::lemma_missing_required_fails(supplied, declared_of(seed.variables), i);
}

/// What the user supplied reaches the rendering as supplied, unless it was
/// supplied under a reserved name.
pub proof fn lemma_supplied_value_is_rendered(
    request: PlantRequest,
    seed: Seed,
    supplied: Map<Seq<char>, serde_json::Value>,
    key: Seq<char>,
)
    requires
        assigned(no_bindings(), request.variables@) == Ok::<
            Map<Seq<char>, serde_json::Value>,
            Seq<char>,
        >(supplied),
        supplied.contains_key(key),
        key != crate::variables::PROJECT_NAME_KEY@,
        key != crate::variables::AUTHORS_KEY@,
        planted_bindings(request, seed) is Ok,
    ensures
        planted_bindings(request, seed)->Ok_0.contains_key(key),
        planted_bindings(request, seed)->Ok_0[key] == supplied[key],
{
    crate::variables::lemma_resolution_completes(supplied, declared_of(seed.variables));
}

/// A default that the seed declares for a variable reaches the rendering as
/// declared where the user supplied nothing for the variable, unless the
/// variable carries a reserved name.
pub proof fn lemma_default_is_rendered(
    request: PlantRequest,
    seed: Seed,
    supplied: Map<Seq<char>, serde_json::Value>,
    i: int,
)
    requires
        seed.well_formed(),
        assigned(no_bindings(), request.variables@) == Ok::<
            Map<Seq<char>, serde_json::Value>,
            Seq<char>,
        >(supplied),
        0 <= i < declared_of(seed.variables).len(),
        declared_of(seed.variables)[i].1.default is Some,
        !supplied.contains_key(declared_of(seed.variables)[i].0@),
        declared_of(seed.variables)[i].0@ != crate::variables::PROJECT_NAME_KEY@,
        declared_of(seed.variables)[i].0@ != crate::variables::AUTHORS_KEY@,
        planted_bindings(request, seed) is Ok,
    ensures
        planted_bindings(request, seed)->Ok_0.contains_key(declared_of(seed.variables)[i].0@),
        planted_bindings(request, seed)->Ok_0[declared_of(seed.variables)[i].0@] == declared_of(
            seed.variables,
        )[i].1.default->Some_0,
{
    crate::variables::lemma_omitted_gets_default(supplied, declared_of(seed.variables), i);
}

} // verus!
