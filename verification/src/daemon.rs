//! The daemon's supervision decisions: whether the pipeline should exist,
//! when it is torn down and rebuilt, and what becomes of the camera it uses.
//! The daemon's loop performs each decision and reports back what happened.

use vstd::prelude::*;
use crate::camera::{camera_switch_wanted, should_switch_camera};
use crate::text::text_views;

verus! {

/// What the pipeline bus reported during one poll.
#[derive(Clone, Copy, Debug, PartialEq, Eq, Structural)]
pub enum BusEvent {
    /// An element reported an error.
    Error,
    /// The stream ended.
    EndOfStream,
    /// Any other message.
    Other,
    /// No message arrived before the poll timed out.
    Quiet,
}

/// What the daemon does about the pipeline's existence in one round.
#[derive(Clone, Copy, Debug, PartialEq, Eq, Structural)]
pub enum LifecycleAction {
    /// Build and start a pipeline on the camera at this index of the
    /// priority list.
    Build(usize),
    /// Stop the pipeline and drop it, releasing the camera.
    Destroy,
    /// The pipeline is wanted but no listed camera is available.
    AwaitCamera,
    /// Nothing to do.
    Keep,
}

/// The abstract state of the supervisor.
pub struct SupervisorView {
    /// A pipeline exists.
    pub running: bool,
    /// The camera the last pipeline was built on, while it is remembered.
    pub last_camera: Option<Seq<char>>,
}

/// The daemon's knowledge of its own pipeline.
pub struct Supervisor {
    running: bool,
    last_camera: Option<String>,
}

/// The pipeline is wanted: the effects are switched on and some application
/// consumes the virtual camera.
pub open spec fn pipeline_wanted(active: bool, sink_in_use: bool) -> bool {
    active && sink_in_use
}

/// The lifecycle decision for one round.
pub open spec fn lifecycle_decision(
    running: bool,
    active: bool,
    sink_in_use: bool,
    best: Option<usize>,
) -> LifecycleAction {
    if pipeline_wanted(active, sink_in_use) && !running {
        match best {
            Some(i) => LifecycleAction::Build(i),
            None => LifecycleAction::AwaitCamera,
        }
    } else if !pipeline_wanted(active, sink_in_use) && running {
        LifecycleAction::Destroy
    } else {
        LifecycleAction::Keep
    }
}

/// Whether a pipeline exists once `action` has been carried out, `built`
/// telling whether a requested build succeeded.
pub open spec fn running_after(running: bool, action: LifecycleAction, built: bool) -> bool {
    match action {
        LifecycleAction::Build(_) => built,
        LifecycleAction::Destroy => false,
        _ => running,
    }
}

/// Whether a bus report calls for tearing the pipeline down and building it anew.
pub open spec fn bus_calls_for_rebuild(event: BusEvent) -> bool {
    event == BusEvent::Error || event == BusEvent::EndOfStream
}

/// Whether an application holds the virtual camera, from what the listing of
/// its users printed; when the listing could not be run, the camera counts as
/// held.
pub open spec fn consumer_present(listing: Option<Seq<u8>>) -> bool {
    match listing {
        Some(out) => out.len() > 0,
        None => true,
    }
}

impl View for Supervisor {
    type V = SupervisorView;

    closed spec fn view(&self) -> SupervisorView {
        SupervisorView {
            running: self.running,
            last_camera: match self.last_camera {
                Some(c) => Some(c@),
                None => None,
            },
        }
    }
}

impl Supervisor {
    /// No pipeline, no camera remembered.
    pub fn new() -> (s: Self)
        ensures
            !s@.running,
            s@.last_camera is None,
    {
        Supervisor { running: false, last_camera: None }
    }

    /// Whether a pipeline exists.
    pub fn is_running(&self) -> (r: bool)
        ensures
            r == self@.running,
    {
        self.running
    }

    /// Decides what happens to the pipeline this round. `best` is the first
    /// available camera of the priority list; it is read only when a pipeline
    /// is wanted and none exists.
    pub fn lifecycle(&self, active: bool, sink_in_use: bool, best: Option<usize>) -> (r:
        LifecycleAction)
        ensures
            r == lifecycle_decision(self@.running, active, sink_in_use, best),
    {
        let wanted = active && sink_in_use;
        if wanted && !self.running {
            match best {
                Some(i) => LifecycleAction::Build(i),
                None => LifecycleAction::AwaitCamera,
            }
        } else if !wanted && self.running {
            LifecycleAction::Destroy
        } else {
            LifecycleAction::Keep
        }
    }

    /// A pipeline was built and started on `camera`.
    pub fn pipeline_built(&mut self, camera: String)
        ensures
            final(self)@.running,
            final(self)@.last_camera == Some(camera@),
    {
        self.running = true;
        self.last_camera = Some(camera);
    }

    /// The pipeline was stopped and dropped; the camera stays remembered.
    pub fn pipeline_destroyed(&mut self)
        ensures
            !final(self)@.running,
            final(self)@.last_camera == old(self)@.last_camera,
    {
        self.running = false;
    }

    /// Whether a camera of higher priority than the remembered one has
    /// appeared (or, for a camera no longer listed, any listed camera), so that
    /// the pipeline must be rebuilt.
    pub fn upgrade_wanted(&self, priority: &Vec<String>, available: &Vec<bool>) -> (r: bool)
        requires
            available.len() == priority.len(),
        ensures
            r == match self@.last_camera {
                Some(c) => camera_switch_wanted(text_views(priority@), c, available@),
                None => false,
            },
    {
        match &self.last_camera {
            Some(c) => should_switch_camera(priority, c, available),
            None => false,
        }
    }

    /// The pipeline was torn down for a rebuild; the camera is forgotten so
    /// that the next build picks the best one afresh.
    pub fn rebuild(&mut self)
        ensures
            !final(self)@.running,
            final(self)@.last_camera is None,
    {
        self.running = false;
        self.last_camera = None;
    }
}

/// Whether a bus report calls for tearing the pipeline down and building it
/// anew: errors and the end of the stream do.
pub fn bus_requires_rebuild(event: BusEvent) -> (r: bool)
    ensures
        r == bus_calls_for_rebuild(event),
{
    match event {
        BusEvent::Error => true,
        BusEvent::EndOfStream => true,
        _ => false,
    }
}

/// Whether an application holds the virtual camera, from the output of the
/// listing of its users (`None` when the listing could not be run).
pub fn sink_in_use(listing: &Option<Vec<u8>>) -> (r: bool)
    ensures
        r == consumer_present(
            match listing {
                Some(v) => Some(v@),
                None => None,
            },
        ),
{
    match listing {
        Some(out) => out.len() > 0,
        None => true,
    }
}

/// Zero-overhead idle: whenever the effects are off or no application consumes
/// the virtual camera, no pipeline exists after the round, whatever a build
/// would have given.
pub proof fn idle_releases_pipeline(
    running: bool,
    active: bool,
    sink_in_use: bool,
    best: Option<usize>,
    built: bool,
)
    requires
        !pipeline_wanted(active, sink_in_use),
    ensures
        !running_after(running, lifecycle_decision(running, active, sink_in_use, best), built),
{
}

/// A wanted pipeline that does not exist is built on the first available
/// camera, and only waited for when no listed camera is available.
pub proof fn wanted_pipeline_built_on_best_camera(
    active: bool,
    sink_in_use: bool,
    best: Option<usize>,
)
    requires
        pipeline_wanted(active, sink_in_use),
    ensures
        lifecycle_decision(false, active, sink_in_use, best) == match best {
            Some(i) => LifecycleAction::Build(i),
            None => LifecycleAction::AwaitCamera,
        },
{
}

/// An existing pipeline is never built a second time, and is kept as long as
/// it is wanted.
pub proof fn running_pipeline_never_rebuilt_in_place(
    active: bool,
    sink_in_use: bool,
    best: Option<usize>,
)
    ensures
        !(lifecycle_decision(true, active, sink_in_use, best) is Build),
        pipeline_wanted(active, sink_in_use) ==> lifecycle_decision(
            true,
            active,
            sink_in_use,
            best,
        ) == LifecycleAction::Keep,
{
}

/// After a rebuild, the next round builds a new pipeline on the camera that is
/// best then, if the pipeline is still wanted.
pub proof fn rebuild_restarts_on_best_camera(
    active: bool,
    sink_in_use: bool,
    best: usize,
)
    requires
        pipeline_wanted(active, sink_in_use),
    ensures
        ({
            let after = SupervisorView { running: false, last_camera: None };
            lifecycle_decision(after.running, active, sink_in_use, Some(best))
                == LifecycleAction::Build(best)
        }),
{
}

/// What each round decides, in terms of the settings and the state alone: a
/// build on the best camera exactly when the effects are on, an application
/// reads the virtual camera, no pipeline exists and a camera is available; a
/// wait for a camera when the same holds but none is available; destruction
/// exactly when a pipeline exists and is not wanted; otherwise nothing, in
/// particular when the pipeline is neither wanted nor present.
pub proof fn lifecycle_decides_by_want_and_state(
    running: bool,
    active: bool,
    sink_in_use: bool,
    best: Option<usize>,
)
    ensures
        forall|i: usize|
            lifecycle_decision(running, active, sink_in_use, best) == LifecycleAction::Build(i)
                <==> (active && sink_in_use && !running && best == Some(i)),
        lifecycle_decision(running, active, sink_in_use, best) == LifecycleAction::AwaitCamera
            <==> (active && sink_in_use && !running && best is None),
        lifecycle_decision(running, active, sink_in_use, best) == LifecycleAction::Destroy
            <==> (running && !(active && sink_in_use)),
        lifecycle_decision(running, active, sink_in_use, best) == LifecycleAction::Keep <==> (
        running == (active && sink_in_use)),
        !(active && sink_in_use) && !running ==> lifecycle_decision(
            running,
            active,
            sink_in_use,
            best,
        ) == LifecycleAction::Keep,
{
}

/// The bus calls for a rebuild on an error or the end of the stream, and on
/// nothing else.
pub proof fn rebuild_only_on_error_or_end(event: BusEvent)
    ensures
        bus_calls_for_rebuild(event) <==> (event == BusEvent::Error || event
            == BusEvent::EndOfStream),
        !bus_calls_for_rebuild(BusEvent::Other),
        !bus_calls_for_rebuild(BusEvent::Quiet),
{
}

/// The virtual camera counts as used when its listing printed anything, or
/// could not be run, and as unused only when the listing ran and printed
/// nothing.
pub proof fn sink_unused_only_on_empty_listing(listing: Option<Seq<u8>>)
    ensures
        !consumer_present(listing) <==> listing == Some(Seq::<u8>::empty()),
{
    if let Some(out) = listing {
        if out.len() == 0 {
            assert(out =~= Seq::<u8>::empty());
        }
    }
}

} // verus!
