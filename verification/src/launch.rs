//! The startup decision: whether the backend is launched, and what comes of it.
//!
//! The decision alternates with outside work, so it is taken in steps. Each
//! step either settles the launch or names the one thing the host has to do
//! next; the host does it and answers the request it was handed:
//!
//! ```text
//! begin ──► ProbeRequest ──(exists?)──► SpawnRequest ──(launched?)──► Launched
//!   │            │                                                       ▲
//!   └────────────┴───────────────────────────────────────────────────────┘
//! ```
//!
//! A request can only be had from the step before it, so nothing is launched
//! that was not looked for and found first. Nothing here waits, retries or
//! fails: every outcome is a `Launched`, with or without a handle.
//!
//! `determine_and_spawn` takes the steps in one call, for a host that can hand
//! its two pieces of work in as functions.

use crate::platform::BackendLocation;
use crate::platform::Platform;
use vstd::prelude::*;

verus! {

/// How the shell was built.
#[derive(Clone, Copy, Debug, PartialEq, Eq, Structural)]
pub enum BuildMode {
    /// A development build: the backend is run separately, by hand.
    Debug,
    /// A build that ships: the shell launches the backend itself.
    Release,
}

/// What the host is to report about a launch. None of these stops the shell.
#[derive(Debug, PartialEq, Eq)]
pub enum LaunchNote<R, E> {
    /// Development build: the backend is expected to be started separately.
    DevMode,
    /// Nothing lies at the location.
    NotFound(BackendLocation<R>),
    /// The backend was launched from the location.
    Started(BackendLocation<R>),
    /// The host could not launch the executable.
    SpawnFailed(E),
}

impl<R, E> LaunchNote<R, E> {
    /// Whether the note tells of something that went wrong.
    pub open spec fn reports_failure(self) -> bool {
        self is NotFound || self is SpawnFailed
    }

    /// Whether the note tells of something that went wrong, and so belongs on
    /// the error stream.
    pub fn is_error(&self) -> (failure: bool)
        ensures
            failure == self.reports_failure(),
    {
        match self {
            LaunchNote::NotFound(_) => true,
            LaunchNote::SpawnFailed(_) => true,
            _ => false,
        }
    }
}

/// How a launch ended.
#[derive(Debug, PartialEq, Eq)]
pub struct Launched<R, H, E> {
    /// The running backend, if one was launched.
    pub handle: Option<H>,
    /// What to report, if anything.
    pub note: Option<LaunchNote<R, E>>,
}

/// The request to find out whether an executable lies at a location.
#[derive(Debug)]
pub struct ProbeRequest<R> {
    location: BackendLocation<R>,
}

/// The request to launch the executable at a location, with no arguments and
/// without waiting for it.
#[derive(Debug)]
pub struct SpawnRequest<R> {
    location: BackendLocation<R>,
}

/// What the first step hands back.
#[derive(Debug)]
pub enum Planned<R, H, E> {
    /// The host is to look for the executable.
    Probe(ProbeRequest<R>),
    /// The launch ended before anything was asked for.
    Settled(Launched<R, H, E>),
}

/// What the step after the probe hands back.
#[derive(Debug)]
pub enum Probed<R, H, E> {
    /// The host is to launch the executable.
    Spawn(SpawnRequest<R>),
    /// The launch ended without a launch being asked for.
    Settled(Launched<R, H, E>),
}

/// A `Planned` with its request laid open.
pub enum PlannedView<R, H, E> {
    Probe(BackendLocation<R>),
    Settled(Launched<R, H, E>),
}

/// A `Probed` with its request laid open.
pub enum ProbedView<R, H, E> {
    Spawn(BackendLocation<R>),
    Settled(Launched<R, H, E>),
}

impl<R> View for ProbeRequest<R> {
    type V = BackendLocation<R>;

    closed spec fn view(&self) -> BackendLocation<R> {
        self.location
    }
}

impl<R> View for SpawnRequest<R> {
    type V = BackendLocation<R>;

    closed spec fn view(&self) -> BackendLocation<R> {
        self.location
    }
}

impl<R, H, E> View for Planned<R, H, E> {
    type V = PlannedView<R, H, E>;

    open spec fn view(&self) -> PlannedView<R, H, E> {
        match *self {
            Planned::Probe(request) => PlannedView::Probe(request@),
            Planned::Settled(launched) => PlannedView::Settled(launched),
        }
    }
}

impl<R, H, E> View for Probed<R, H, E> {
    type V = ProbedView<R, H, E>;

    open spec fn view(&self) -> ProbedView<R, H, E> {
        match *self {
            Probed::Spawn(request) => ProbedView::Spawn(request@),
            Probed::Settled(launched) => ProbedView::Settled(launched),
        }
    }
}

/// A launch that ended without a backend.
pub open spec fn without_backend<R, H, E>(note: Option<LaunchNote<R, E>>) -> Launched<R, H, E> {
    Launched { handle: None, note }
}

/// The first step. A development build launches nothing, whatever the root. A
/// shipped build with no resource root launches nothing and has nothing to
/// report. Otherwise the executable is looked for below the root.
pub open spec fn first_step<R, H, E>(
    mode: BuildMode,
    platform: Platform,
    resource_root: Option<R>,
) -> PlannedView<R, H, E> {
    match mode {
        BuildMode::Debug => PlannedView::Settled(without_backend(Some(LaunchNote::DevMode))),
        BuildMode::Release => match resource_root {
            None => PlannedView::Settled(without_backend(None)),
            Some(root) => PlannedView::Probe(BackendLocation { root, platform }),
        },
    }
}

/// The step after the host has looked: launch what is there, or end without a
/// backend.
pub open spec fn step_after_probe<R, H, E>(
    location: BackendLocation<R>,
    exists: bool,
) -> ProbedView<R, H, E> {
    if exists {
        ProbedView::Spawn(location)
    } else {
        ProbedView::Settled(without_backend(Some(LaunchNote::NotFound(location))))
    }
}

/// The end after the host has tried to launch: with the handle it gave, or
/// with its error and no backend.
pub open spec fn launched_after_spawn<R, H, E>(
    location: BackendLocation<R>,
    outcome: Result<H, E>,
) -> Launched<R, H, E> {
    match outcome {
        Ok(handle) => Launched { handle: Some(handle), note: Some(LaunchNote::Started(location)) },
        Err(error) => without_backend(Some(LaunchNote::SpawnFailed(error))),
    }
}

/// How a launch ends on a host that answers `exists` when asked to look and
/// `outcome` when asked to launch.
pub open spec fn launch_outcome<R, H, E>(
    mode: BuildMode,
    platform: Platform,
    resource_root: Option<R>,
    exists: bool,
    outcome: Result<H, E>,
) -> Launched<R, H, E> {
    if mode is Debug {
        without_backend(Some(LaunchNote::DevMode))
    } else if resource_root is None {
        without_backend(None)
    } else {
        let location = BackendLocation { root: resource_root->0, platform };
        if !exists {
            without_backend(Some(LaunchNote::NotFound(location)))
        } else {
            match outcome {
                Ok(handle) => Launched {
                    handle: Some(handle),
                    note: Some(LaunchNote::Started(location)),
                },
                Err(error) => without_backend(Some(LaunchNote::SpawnFailed(error))),
            }
        }
    }
}

/// Starts the launch decision for a shell built in `mode`, running on
/// `platform`, whose bundled resources lie below `resource_root` (`None` where
/// the host could not tell).
pub fn begin<R, H, E>(mode: BuildMode, platform: Platform, resource_root: Option<R>) -> (planned:
    Planned<R, H, E>)
    ensures
        planned@ == first_step::<R, H, E>(mode, platform, resource_root),
{
    match mode {
        BuildMode::Debug => Planned::Settled(
            Launched { handle: None, note: Some(LaunchNote::DevMode) },
        ),
        BuildMode::Release => match resource_root {
            None => Planned::Settled(Launched { handle: None, note: None }),
            Some(root) => Planned::Probe(
                ProbeRequest { location: BackendLocation { root, platform } },
            ),
        },
    }
}

impl<R> ProbeRequest<R> {
    /// Where to look.
    pub fn location(&self) -> (location: &BackendLocation<R>)
        ensures
            *location == self@,
    {
        &self.location
    }

    /// Takes the host's answer: whether something lies at the location.
    pub fn answer<H, E>(self, exists: bool) -> (probed: Probed<R, H, E>)
        ensures
            probed@ == step_after_probe::<R, H, E>(self@, exists),
    {
        if exists {
            Probed::Spawn(SpawnRequest { location: self.location })
        } else {
            Probed::Settled(
                Launched { handle: None, note: Some(LaunchNote::NotFound(self.location)) },
            )
        }
    }
}

impl<R> SpawnRequest<R> {
    /// What to launch.
    pub fn location(&self) -> (location: &BackendLocation<R>)
        ensures
            *location == self@,
    {
        &self.location
    }

    /// Takes the host's answer: the handle of the process it launched, or the
    /// error that kept it from launching one.
    pub fn answer<H, E>(self, outcome: Result<H, E>) -> (launched: Launched<R, H, E>)
        ensures
            launched == launched_after_spawn(self@, outcome),
    {
        match outcome {
            Ok(handle) => Launched {
                handle: Some(handle),
                note: Some(LaunchNote::Started(self.location)),
            },
            Err(error) => Launched { handle: None, note: Some(LaunchNote::SpawnFailed(error)) },
        }
    }
}

/// Decides whether the backend is launched and, where it is, has the host
/// launch it: `probe` tells whether an executable lies at a location, `spawn`
/// launches the one that lies there and does not wait for it.
///
/// The launch ends as `launch_outcome` says for the answers that the two
/// functions gave. `probe` is asked about the location below the root, and
/// `spawn` about that same location and only after `probe` said yes. A
/// development build and a build without a resource root ask neither.
pub fn determine_and_spawn<R, H, E, P, S>(
    mode: BuildMode,
    platform: Platform,
    resource_root: Option<R>,
    probe: P,
    spawn: S,
) -> (launched: Launched<R, H, E>) where
    P: FnOnce(&BackendLocation<R>) -> bool,
    S: FnOnce(&BackendLocation<R>) -> Result<H, E>,

    requires
        forall|location: &BackendLocation<R>| probe.requires((location,)),
        forall|location: &BackendLocation<R>| spawn.requires((location,)),
    ensures
        exists|found: bool, outcome: Result<H, E>|
            {
                &&& launched == #[trigger] launch_outcome(
                    mode,
                    platform,
                    resource_root,
                    found,
                    outcome,
                )
                &&& first_step::<R, H, E>(mode, platform, resource_root) matches PlannedView::Probe(
                    location,
                ) ==> {
                    &&& probe.ensures((&location,), found)
                    &&& found ==> spawn.ensures((&location,), outcome)
                }
            },
        mode is Debug ==> launched == without_backend::<R, H, E>(Some(LaunchNote::DevMode)),
        launched.handle is Some ==> mode is Release && resource_root is Some,
{
    let ghost unasked: Result<H, E> = arbitrary();
    match begin(mode, platform, resource_root) {
        Planned::Settled(launched) => {
            assert(launched == launch_outcome(mode, platform, resource_root, false, unasked));
            launched
        },
        Planned::Probe(request) => {
            let exists = probe(request.location());
            match request.answer(exists) {
                Probed::Settled(launched) => {
                    assert(launched == launch_outcome(
                        mode,
                        platform,
                        resource_root,
                        false,
                        unasked,
                    ));
                    launched
                },
                Probed::Spawn(request) => {
                    let outcome = spawn(request.location());
                    let launched = request.answer(outcome);
                    assert(launched == launch_outcome(
                        mode,
                        platform,
                        resource_root,
                        true,
                        outcome,
                    ));
                    launched
                },
            }
        },
    }
}

/// Taking the steps one after the other, with the host's answers, ends in
/// `launch_outcome`.
pub proof fn law_steps_reach_outcome<R, H, E>(
    mode: BuildMode,
    platform: Platform,
    resource_root: Option<R>,
    exists: bool,
    outcome: Result<H, E>,
)
    ensures
        match first_step::<R, H, E>(mode, platform, resource_root) {
            PlannedView::Settled(launched) => launched == launch_outcome(
                mode,
                platform,
                resource_root,
                exists,
                outcome,
            ),
            PlannedView::Probe(location) => match step_after_probe::<R, H, E>(location, exists) {
                ProbedView::Settled(launched) => launched == launch_outcome(
                    mode,
                    platform,
                    resource_root,
                    exists,
                    outcome,
                ),
                ProbedView::Spawn(found) => launched_after_spawn(found, outcome) == launch_outcome(
                    mode,
                    platform,
                    resource_root,
                    exists,
                    outcome,
                ),
            },
        },
{
}

/// A backend is launched if and only if the build ships, the resource root is
/// known, the executable is there and the host could launch it; the handle is
/// then the one the host gave.
pub proof fn law_launched_iff<R, H, E>(
    mode: BuildMode,
    platform: Platform,
    resource_root: Option<R>,
    exists: bool,
    outcome: Result<H, E>,
)
    ensures
        launch_outcome(mode, platform, resource_root, exists, outcome).handle is Some <==> mode
            is Release && resource_root is Some && exists && outcome is Ok,
        launch_outcome(mode, platform, resource_root, exists, outcome).handle is Some
            ==> launch_outcome(mode, platform, resource_root, exists, outcome).handle == Some(
            outcome->Ok_0,
        ),
{
}

/// A development build gives no handle, for any resource root and on any
/// host, and asks for nothing: the first step already settles the launch, so
/// nothing is looked for and nothing is launched.
pub proof fn law_debug_launches_nothing<R, H, E>(
    platform: Platform,
    resource_root: Option<R>,
    exists: bool,
    outcome: Result<H, E>,
)
    ensures
        first_step::<R, H, E>(BuildMode::Debug, platform, resource_root) == PlannedView::<
            R,
            H,
            E,
        >::Settled(without_backend(Some(LaunchNote::DevMode))),
        launch_outcome(BuildMode::Debug, platform, resource_root, exists, outcome).handle is None,
{
}

/// A shipped build whose executable is not there gives no handle, and after
/// the host's answer nothing more is asked for: no launch is requested.
pub proof fn law_missing_executable_launches_nothing<R, H, E>(
    platform: Platform,
    root: R,
    outcome: Result<H, E>,
)
    ensures
        step_after_probe::<R, H, E>(BackendLocation { root, platform }, false) == ProbedView::<
            R,
            H,
            E,
        >::Settled(without_backend(Some(LaunchNote::NotFound(BackendLocation { root, platform })))),
        launch_outcome(BuildMode::Release, platform, Some(root), false, outcome).handle is None,
{
}

/// A shipped build whose executable is there and can be launched gives the
/// handle of the launched process, and reports the location it was launched
/// from.
pub proof fn law_present_executable_is_launched<R, H, E>(platform: Platform, root: R, handle: H)
    ensures
        launch_outcome::<R, H, E>(BuildMode::Release, platform, Some(root), true, Ok(handle))
            == (Launched::<R, H, E> {
            handle: Some(handle),
            note: Some(LaunchNote::Started(BackendLocation { root, platform })),
        }),
{
}

} // verus!
