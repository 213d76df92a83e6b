//! The commands of the command line, as a machine that decides each next
//! step from the answer to the previous one. The caller performs the steps
//! (waiting for the provider, mounting, touching files, querying the
//! database) and hands back what happened.
use vstd::prelude::*;
use crate::error::SuperfuseError;
use crate::listing::Report;
use crate::storage::{
    add_outcome,
    finish_add_mapping,
    finish_list_mappings,
    finish_remove_mapping,
    finish_update_mapping,
    list_outcome,
    remove_outcome,
    template_check,
    update_outcome,
    validate_template_exists,
    DbFailure,
    FileMapping,
};

verus! {

/// How the filesystem is to be mounted.
#[derive(Debug)]
pub struct MountRequest {
    pub mount_point: String,
    /// Unmount when the process exits.
    pub auto_unmount: bool,
    /// Let root use the filesystem.
    pub allow_root: bool,
    /// Number of worker threads.
    pub n_threads: usize,
    /// Give each worker thread its own device descriptor.
    pub clone_fd: bool,
}

/// A command given on the command line.
#[derive(Debug)]
pub enum Command {
    /// Mount the filesystem and serve it until a shutdown signal.
    Start {
        mount_point: String,
        auto_unmount: bool,
        allow_root: bool,
        n_threads: usize,
        clone_fd: bool,
    },
    /// Map a virtual path to a template file.
    Add { path: String, template: String },
    /// Remove the mapping of a virtual path.
    Remove { path: String },
    /// Point the mapping of a virtual path at another template file.
    Update { path: String, template: String },
    /// List all mappings.
    List,
}

/// Where a command stands: which answer it waits for.
#[derive(Debug)]
pub enum Stage {
    /// Waits for the configuration provider to start.
    StartingProvider(MountRequest),
    /// Waits for the filesystem to be mounted.
    Mounting,
    /// Serves the filesystem until a shutdown signal.
    Serving,
    /// Waits for the filesystem to be unmounted.
    Unmounting,
    /// Waits to learn whether the template file exists.
    CheckingTemplate { path: String, template: String, replace: bool },
    /// Waits for the template's canonical path.
    Resolving { path: String, replace: bool },
    /// Waits for the database to insert a mapping.
    Inserting { path: String },
    /// Waits for the database to update a mapping.
    Replacing { path: String },
    /// Waits for the database to remove a mapping.
    Removing { path: String },
    /// Waits for the database to list the mappings.
    Listing,
    /// The command has finished.
    Done,
}

/// What the caller is to do next.
#[derive(Debug)]
pub enum Action {
    /// Start the configuration provider.
    StartProvider,
    /// Mount the filesystem.
    Mount(MountRequest),
    /// Wait for SIGINT, SIGTERM or SIGHUP.
    AwaitShutdown,
    /// Unmount the filesystem.
    Unmount,
    /// Find out whether this template file exists.
    CheckTemplate(String),
    /// Find the canonical path of this template file.
    Canonicalize(String),
    /// Insert a mapping.
    InsertMapping { virtual_path: String, template_path: String },
    /// Point an existing mapping at another template.
    UpdateMapping { virtual_path: String, template_path: String },
    /// Delete the mapping of a virtual path.
    RemoveMapping(String),
    /// Read all mappings, ordered by virtual path.
    ListMappings,
    /// The command is over: report this, or fail with this error.
    Finish(Result<Report, SuperfuseError>),
}

/// What happened when the caller did what it was told.
#[derive(Debug)]
pub enum Event {
    /// The provider started, or failed with this description.
    ProviderStarted(Result<(), String>),
    /// The filesystem was mounted, or mounting failed.
    Mounted(Result<(), String>),
    /// A shutdown signal came, or the signal handlers could not be set up.
    ShutdownRequested(Result<(), String>),
    /// The filesystem was unmounted, or unmounting failed.
    Unmounted(Result<(), String>),
    /// Whether the template file exists.
    TemplateChecked(bool),
    /// The canonical path of the template, or why there is none.
    Canonicalized(Result<String, String>),
    /// The database's answer to inserting a mapping.
    MappingInserted(Result<FileMapping, DbFailure>),
    /// The database's answer to updating a mapping.
    MappingUpdated(Result<FileMapping, DbFailure>),
    /// The number of rows the database removed, or its failure.
    MappingRemoved(Result<u64, DbFailure>),
    /// The mappings, or the database's failure.
    MappingsListed(Result<Vec<FileMapping>, DbFailure>),
}

/// The first step of a command and the stage it leaves.
pub open spec fn begin(command: Command) -> (Stage, Action) {
    match command {
        Command::Start { mount_point, auto_unmount, allow_root, n_threads, clone_fd } => (
            Stage::StartingProvider(
                MountRequest { mount_point, auto_unmount, allow_root, n_threads, clone_fd },
            ),
            Action::StartProvider,
        ),
        Command::Add { path, template } => (
            Stage::CheckingTemplate { path, template, replace: false },
            Action::CheckTemplate(template),
        ),
        Command::Remove { path } => (Stage::Removing { path }, Action::RemoveMapping(path)),
        Command::Update { path, template } => (
            Stage::CheckingTemplate { path, template, replace: true },
            Action::CheckTemplate(template),
        ),
        Command::List => (Stage::Listing, Action::ListMappings),
    }
}

/// Is `event` the answer that `stage` waits for?
pub open spec fn accepts(stage: Stage, event: Event) -> bool {
    match stage {
        Stage::StartingProvider(_) => event is ProviderStarted,
        Stage::Mounting => event is Mounted,
        Stage::Serving => event is ShutdownRequested,
        Stage::Unmounting => event is Unmounted,
        Stage::CheckingTemplate { .. } => event is TemplateChecked,
        Stage::Resolving { .. } => event is Canonicalized,
        Stage::Inserting { .. } => event is MappingInserted,
        Stage::Replacing { .. } => event is MappingUpdated,
        Stage::Removing { .. } => event is MappingRemoved,
        Stage::Listing => event is MappingsListed,
        Stage::Done => false,
    }
}

/// Ends the command with `outcome`, reported as `report` says.
pub open spec fn finish_with<T>(outcome: Result<T, SuperfuseError>, report: Report) -> (Stage, Action) {
    match outcome {
        Ok(_) => (Stage::Done, Action::Finish(Ok(report))),
        Err(e) => (Stage::Done, Action::Finish(Err(e))),
    }
}

/// The step that follows `event` in `stage`, and the stage it leaves.
pub open spec fn next(stage: Stage, event: Event) -> (Stage, Action) {
    match (stage, event) {
        (Stage::StartingProvider(request), Event::ProviderStarted(answer)) => match answer {
            Ok(()) => (Stage::Mounting, Action::Mount(request)),
            Err(cause) => (Stage::Done, Action::Finish(Err(SuperfuseError::Provider(cause)))),
        },
        (Stage::Mounting, Event::Mounted(answer)) => match answer {
            Ok(()) => (Stage::Serving, Action::AwaitShutdown),
            Err(cause) => (Stage::Done, Action::Finish(Err(SuperfuseError::Io(cause)))),
        },
        (Stage::Serving, Event::ShutdownRequested(answer)) => match answer {
            Ok(()) => (Stage::Unmounting, Action::Unmount),
            Err(cause) => (Stage::Done, Action::Finish(Err(SuperfuseError::Io(cause)))),
        },
        (Stage::Unmounting, Event::Unmounted(answer)) => match answer {
            Ok(()) => (Stage::Done, Action::Finish(Ok(Report::Stopped))),
            Err(cause) => (Stage::Done, Action::Finish(Err(SuperfuseError::Io(cause)))),
        },
        (
            Stage::CheckingTemplate { path, template, replace },
            Event::TemplateChecked(exists),
        ) => match template_check(template, exists) {
            Ok(t) => (Stage::Resolving { path, replace }, Action::Canonicalize(t)),
            Err(e) => (Stage::Done, Action::Finish(Err(e))),
        },
        (Stage::Resolving { path, replace }, Event::Canonicalized(answer)) => match answer {
            Ok(canonical) => if replace {
                (
                    Stage::Replacing { path },
                    Action::UpdateMapping { virtual_path: path, template_path: canonical },
                )
            } else {
                (
                    Stage::Inserting { path },
                    Action::InsertMapping { virtual_path: path, template_path: canonical },
                )
            },
            Err(cause) => (Stage::Done, Action::Finish(Err(SuperfuseError::Io(cause)))),
        },
        (Stage::Inserting { path }, Event::MappingInserted(answer)) => match add_outcome(
            path,
            answer,
        ) {
            Ok(m) => (Stage::Done, Action::Finish(Ok(Report::Added(m)))),
            Err(e) => (Stage::Done, Action::Finish(Err(e))),
        },
        (Stage::Replacing { path }, Event::MappingUpdated(answer)) => match update_outcome(
            path,
            answer,
        ) {
            Ok(m) => (Stage::Done, Action::Finish(Ok(Report::Updated(m)))),
            Err(e) => (Stage::Done, Action::Finish(Err(e))),
        },
        (Stage::Removing { path }, Event::MappingRemoved(answer)) => finish_with(
            remove_outcome(path, answer),
            Report::Removed(path),
        ),
        (Stage::Listing, Event::MappingsListed(answer)) => match list_outcome(answer) {
            Ok(ms) => (Stage::Done, Action::Finish(Ok(Report::Listed(ms)))),
            Err(e) => (Stage::Done, Action::Finish(Err(e))),
        },
        // An answer the stage does not wait for: `step` is never given one.
        (stage, _) => (stage, Action::StartProvider),
    }
}

/// The steps that follow `events`, answered one after the other from
/// `stage`, up to the first answer that is not awaited.
pub open spec fn run(stage: Stage, events: Seq<Event>) -> Seq<Action>
    decreases events.len(),
{
    if events.len() == 0 || !accepts(stage, events[0]) {
        Seq::empty()
    } else {
        seq![next(stage, events[0]).1] + run(next(stage, events[0]).0, events.drop_first())
    }
}

/// The mapping an action writes, as (virtual path, template path).
pub open spec fn written(action: Action) -> Option<(String, String)> {
    match action {
        Action::InsertMapping { virtual_path, template_path } => Some((virtual_path, template_path)),
        Action::UpdateMapping { virtual_path, template_path } => Some((virtual_path, template_path)),
        _ => None,
    }
}

/// Is this answer a failure?
pub open spec fn is_failure(event: Event) -> bool {
    match event {
        Event::ProviderStarted(answer) => answer is Err,
        Event::Mounted(answer) => answer is Err,
        Event::ShutdownRequested(answer) => answer is Err,
        Event::Unmounted(answer) => answer is Err,
        Event::TemplateChecked(exists) => !exists,
        Event::Canonicalized(answer) => answer is Err,
        Event::MappingInserted(answer) => answer is Err,
        Event::MappingUpdated(answer) => answer is Err,
        Event::MappingRemoved(answer) => answer is Err || answer == Ok::<u64, DbFailure>(0),
        Event::MappingsListed(answer) => answer is Err,
    }
}

/// A finished command waits for nothing more: the step that finishes a
/// command leaves it done, and a done command accepts no answer.
pub proof fn lemma_finish_is_final(stage: Stage, event: Event, later: Event)
    requires
        accepts(stage, event),
        next(stage, event).1 is Finish,
    ensures
        next(stage, event).0 is Done,
        !accepts(next(stage, event).0, later),
{
}

/// Every failure ends the command at once, with an error.
pub proof fn lemma_failure_ends_command(stage: Stage, event: Event)
    requires
        accepts(stage, event),
        is_failure(event),
    ensures
        next(stage, event).0 is Done,
        next(stage, event).1 matches Action::Finish(outcome) && outcome is Err,
{
}

/// A command writes a mapping at most once, and only as its second step:
/// after the answer that its template file exists, with the canonical path
/// that came back for that template, under its own virtual path. `add`
/// inserts, `update` updates, and no other command writes.
pub proof fn lemma_writes_follow_template_check(command: Command, events: Seq<Event>, i: int)
    requires
        0 <= i < run(begin(command).0, events).len(),
        written(run(begin(command).0, events)[i]) is Some,
    ensures
        i == 1,
        events[0] == Event::TemplateChecked(true),
        match written(run(begin(command).0, events)[i]) {
            Some((virtual_path, template_path)) => events[1] == Event::Canonicalized(
                Ok::<String, String>(template_path),
            ) && match command {
                Command::Add { path, .. } => run(begin(command).0, events)[i] is InsertMapping
                    && virtual_path == path,
                Command::Update { path, .. } => run(begin(command).0, events)[i] is UpdateMapping
                    && virtual_path == path,
                _ => false,
            },
            None => false,
        },
{
    reveal_with_fuel(run, 6);
}

/// Every command finishes within four answers.
pub proof fn lemma_commands_are_short(command: Command, events: Seq<Event>)
    ensures
        run(begin(command).0, events).len() <= 4,
{
    reveal_with_fuel(run, 6);
}

impl Stage {
    /// Starts `command`: its first step and the stage it leaves.
    pub fn begin(command: Command) -> (r: (Stage, Action))
        ensures
            r == begin(command),
    {
        match command {
            Command::Start { mount_point, auto_unmount, allow_root, n_threads, clone_fd } => (
                Stage::StartingProvider(
                    MountRequest { mount_point, auto_unmount, allow_root, n_threads, clone_fd },
                ),
                Action::StartProvider,
            ),
            Command::Add { path, template } => {
                let t = template.clone();
                (Stage::CheckingTemplate { path, template, replace: false }, Action::CheckTemplate(t))
            },
            Command::Remove { path } => {
                let p = path.clone();
                (Stage::Removing { path }, Action::RemoveMapping(p))
            },
            Command::Update { path, template } => {
                let t = template.clone();
                (Stage::CheckingTemplate { path, template, replace: true }, Action::CheckTemplate(t))
            },
            Command::List => (Stage::Listing, Action::ListMappings),
        }
    }

    /// Is `event` the answer this stage waits for?
    pub fn expects(&self, event: &Event) -> (r: bool)
        ensures
            r == accepts(*self, *event),
    {
        match self {
            Stage::StartingProvider(_) => matches!(event, Event::ProviderStarted(_)),
            Stage::Mounting => matches!(event, Event::Mounted(_)),
            Stage::Serving => matches!(event, Event::ShutdownRequested(_)),
            Stage::Unmounting => matches!(event, Event::Unmounted(_)),
            Stage::CheckingTemplate { .. } => matches!(event, Event::TemplateChecked(_)),
            Stage::Resolving { .. } => matches!(event, Event::Canonicalized(_)),
            Stage::Inserting { .. } => matches!(event, Event::MappingInserted(_)),
            Stage::Replacing { .. } => matches!(event, Event::MappingUpdated(_)),
            Stage::Removing { .. } => matches!(event, Event::MappingRemoved(_)),
            Stage::Listing => matches!(event, Event::MappingsListed(_)),
            Stage::Done => false,
        }
    }

    /// Has the command finished?
    pub fn is_done(&self) -> (r: bool)
        ensures
            r == (*self is Done),
    {
        matches!(self, Stage::Done)
    }

    /// The step that follows `event`, and the stage it leaves.
    pub fn step(self, event: Event) -> (r: (Stage, Action))
        requires
            accepts(self, event),
        ensures
            r == next(self, event),
    {
        match (self, event) {
            (Stage::StartingProvider(request), Event::ProviderStarted(answer)) => match answer {
                Ok(()) => (Stage::Mounting, Action::Mount(request)),
                Err(cause) => (Stage::Done, Action::Finish(Err(SuperfuseError::Provider(cause)))),
            },
            (Stage::Mounting, Event::Mounted(answer)) => match answer {
                Ok(()) => (Stage::Serving, Action::AwaitShutdown),
                Err(cause) => (Stage::Done, Action::Finish(Err(SuperfuseError::Io(cause)))),
            },
            (Stage::Serving, Event::ShutdownRequested(answer)) => match answer {
                Ok(()) => (Stage::Unmounting, Action::Unmount),
                Err(cause) => (Stage::Done, Action::Finish(Err(SuperfuseError::Io(cause)))),
            },
            (Stage::Unmounting, Event::Unmounted(answer)) => match answer {
                Ok(()) => (Stage::Done, Action::Finish(Ok(Report::Stopped))),
                Err(cause) => (Stage::Done, Action::Finish(Err(SuperfuseError::Io(cause)))),
            },
            (
                Stage::CheckingTemplate { path, template, replace },
                Event::TemplateChecked(exists),
            ) => match validate_template_exists(template, exists) {
                Ok(t) => (Stage::Resolving { path, replace }, Action::Canonicalize(t)),
                Err(e) => (Stage::Done, Action::Finish(Err(e))),
            },
            (Stage::Resolving { path, replace }, Event::Canonicalized(answer)) => match answer {
                Ok(canonical) => {
                    let p = path.clone();
                    if replace {
                        (
                            Stage::Replacing { path },
                            Action::UpdateMapping { virtual_path: p, template_path: canonical },
                        )
                    } else {
                        (
                            Stage::Inserting { path },
                            Action::InsertMapping { virtual_path: p, template_path: canonical },
                        )
                    }
                },
                Err(cause) => (Stage::Done, Action::Finish(Err(SuperfuseError::Io(cause)))),
            },
            (Stage::Inserting { path }, Event::MappingInserted(answer)) => match finish_add_mapping(
                path,
                answer,
            ) {
                Ok(m) => (Stage::Done, Action::Finish(Ok(Report::Added(m)))),
                Err(e) => (Stage::Done, Action::Finish(Err(e))),
            },
            (Stage::Replacing { path }, Event::MappingUpdated(answer)) => match finish_update_mapping(
                path,
                answer,
            ) {
                Ok(m) => (Stage::Done, Action::Finish(Ok(Report::Updated(m)))),
                Err(e) => (Stage::Done, Action::Finish(Err(e))),
            },
            (Stage::Removing { path }, Event::MappingRemoved(answer)) => {
                let p = path.clone();
                match finish_remove_mapping(p, answer) {
                    Ok(()) => (Stage::Done, Action::Finish(Ok(Report::Removed(path)))),
                    Err(e) => (Stage::Done, Action::Finish(Err(e))),
                }
            },
            (Stage::Listing, Event::MappingsListed(answer)) => match finish_list_mappings(answer) {
                Ok(ms) => (Stage::Done, Action::Finish(Ok(Report::Listed(ms)))),
                Err(e) => (Stage::Done, Action::Finish(Err(e))),
            },
            (stage, _) => (stage, Action::StartProvider),
        }
    }
}

} // verus!
