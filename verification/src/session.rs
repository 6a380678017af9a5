//! The capture session: one per window. It takes the window's events and
//! the outcomes of the work it asked for, and answers with what to do next.
//!
//! The shell runs the loop. It hands a window event to [`CaptureState::handle`]
//! and carries out the reaction. A paint starts a tick: the shell then
//! performs each [`FrameAction`] and reports its outcome to
//! [`CaptureState::advance`] until that answers with [`FrameAction::Rest`].

use crate::capture::{frame_has_content, has_content, Duplication, Failure, ACQUIRE_TIMEOUT_MS};
use crate::commands::Command;
use crate::effects::{BindPlan, Roster, ShaderLibrary};
use crate::frame::{
    opaque_black, Color, FrameAction, FrameEvent, Phase, RenderPlan, TickOutcome, QUAD_VERTICES,
    SYNC_INTERVAL,
};
use crate::geometry::{Extent, FrameLayout, SourceRect};
use crate::resources::{Provisioning, ResourceCache, ResourceSet};
use crate::window::{Reaction, WindowEvent, HTCLIENT};
use vstd::prelude::*;

verus! {

/// The session as a mathematical value.
pub struct Session {
    pub roster: Roster,
    pub resources: ResourceSet,
    pub duplication: Duplication,
    pub phase: Phase,
    pub source_rect: SourceRect,
    pub always_on_top: bool,
    pub paused: bool,
}

impl Session {
    /// What holds of a session at every moment: one effect is active, the
    /// size-dependent resources are settled, and handle and tick go
    /// together.
    pub open spec fn wf(self) -> bool {
        &&& self.roster.valid()
        &&& self.resources.settled()
        &&& self.resources.consistent()
        &&& self.phase.honest()
        &&& self.attached()
    }

    /// How the duplication handle goes with the rest: a handle is opened
    /// only where there is none, frames are polled for and held only with
    /// one, and without one no size-dependent resource exists.
    pub open spec fn attached(self) -> bool {
        &&& self.phase is Opening ==> self.duplication is Uninitialized
        &&& self.phase is Acquiring || self.phase.holding() ==> self.duplication is Active
        &&& self.duplication is Uninitialized ==> self.resources.all_absent()
    }

    /// The session at startup.
    pub open spec fn initial(roster: Roster, client: Extent) -> Session {
        Session {
            roster,
            resources: ResourceSet::empty(client),
            duplication: Duplication::Uninitialized,
            phase: Phase::Idle,
            source_rect: SourceRect { left: 0, top: 0, width: 0, height: 0 },
            always_on_top: false,
            paused: false,
        }
    }

    /// The session once a tick has ended with `outcome`: a lost device
    /// costs the duplication handle and every size-dependent resource.
    pub open spec fn settle(self, outcome: TickOutcome) -> Session {
        if outcome.lost() {
            Session {
                phase: Phase::Idle,
                duplication: Duplication::Uninitialized,
                resources: self.resources.cleared(),
                ..self
            }
        } else {
            Session { phase: Phase::Idle, ..self }
        }
    }

    /// Ends the tick with `outcome`.
    pub open spec fn finish(self, outcome: TickOutcome) -> (Session, FrameAction) {
        (self.settle(outcome), FrameAction::Rest(outcome))
    }

    /// Asks for the release of the held frame; the tick then ends with
    /// `outcome`.
    pub open spec fn let_go(self, outcome: TickOutcome) -> (Session, FrameAction) {
        (Session { phase: Phase::Releasing(outcome), ..self }, FrameAction::ReleaseFrame)
    }

    /// The plan for a frame of client size `client` captured from a screen
    /// of size `screen`.
    pub open spec fn render_plan(self, client: Extent, screen: Extent) -> RenderPlan {
        let layout = FrameLayout::of(self.source_rect.resized_to(client), screen);
        RenderPlan {
            layout,
            shader: self.roster.current as usize,
            bind: BindPlan::of(self.roster.active().shader_type, layout.extended),
            viewport: client,
            clear: opaque_black(),
            vertex_count: QUAD_VERTICES,
            sync_interval: SYNC_INTERVAL,
        }
    }

    /// Whether the resources on record are those that `plan` was made for.
    pub open spec fn provisioned_for(self, plan: RenderPlan) -> bool {
        &&& self.resources.fully_present()
        &&& self.resources.client == plan.viewport
        &&& self.resources.extended == Some(plan.layout.extended)
    }

    /// A paint: the start of a tick. A frame still held from a tick that
    /// was never finished is released first. A paused session captures
    /// nothing. Without a duplication handle one is opened, with one the
    /// next frame is polled for.
    pub open spec fn paint(self) -> (Session, FrameAction) {
        if self.phase.holding() {
            self.let_go(TickOutcome::Abandoned)
        } else {
            let base = match self.phase {
                Phase::Releasing(pending) => self.settle(pending),
                _ => Session { phase: Phase::Idle, ..self },
            };
            if base.paused {
                (base, FrameAction::Rest(TickOutcome::Paused))
            } else if base.duplication is Uninitialized {
                (Session { phase: Phase::Opening, ..base }, FrameAction::OpenDuplication)
            } else {
                (
                    Session { phase: Phase::Acquiring, ..base },
                    FrameAction::AcquireFrame { timeout_ms: ACQUIRE_TIMEOUT_MS },
                )
            }
        }
    }

    /// The next step of a tick, given the outcome of the last action.
    pub open spec fn advance(self, event: FrameEvent) -> (Session, FrameAction) {
        match (self.phase, event) {
            (Phase::Opening, FrameEvent::DuplicationOpened) => (
                Session { duplication: Duplication::Active, phase: Phase::Acquiring, ..self },
                FrameAction::AcquireFrame { timeout_ms: ACQUIRE_TIMEOUT_MS },
            ),
            (Phase::Opening, FrameEvent::Failed { code }) => self.finish(
                TickOutcome::failed(code),
            ),
            (Phase::Acquiring, FrameEvent::FrameAcquired { present_time, has_surface }) => {
                if has_content(present_time, has_surface) {
                    (Session { phase: Phase::Measuring, ..self }, FrameAction::Measure)
                } else {
                    self.let_go(TickOutcome::NothingNew)
                }
            },
            (Phase::Acquiring, FrameEvent::Failed { code }) => {
                if Failure::of(code) is Timeout {
                    self.finish(TickOutcome::NoNewFrame)
                } else {
                    self.finish(TickOutcome::failed(code))
                }
            },
            (Phase::Measuring, FrameEvent::Measured { client, screen }) => {
                let source = self.source_rect.resized_to(client);
                if !FrameLayout::representable(source, screen) {
                    self.let_go(TickOutcome::TooLarge)
                } else {
                    let plan = self.render_plan(client, screen);
                    let need = self.resources.shortfall(client, plan.layout.extended);
                    let resources = self.resources.provisioned(client, plan.layout.extended);
                    if need == Provisioning::nothing() {
                        (
                            Session { resources, phase: Phase::Rendering, ..self },
                            FrameAction::Render(plan),
                        )
                    } else {
                        (
                            Session { resources, phase: Phase::Provisioning(plan), ..self },
                            FrameAction::Provision(need),
                        )
                    }
                }
            },
            (Phase::Measuring, FrameEvent::Failed { code }) => self.let_go(
                TickOutcome::failed(code),
            ),
            (Phase::Provisioning(plan), FrameEvent::Provisioned) => {
                if self.provisioned_for(plan) {
                    (Session { phase: Phase::Rendering, ..self }, FrameAction::Render(plan))
                } else {
                    self.let_go(TickOutcome::Abandoned)
                }
            },
            (Phase::Provisioning(_), FrameEvent::Failed { code }) => (Session {
                resources: self.resources.cleared(),
                ..self
            }).let_go(TickOutcome::failed(code)),
            (Phase::Rendering, FrameEvent::Rendered) => self.let_go(TickOutcome::Presented),
            (Phase::Rendering, FrameEvent::Failed { code }) => self.let_go(
                TickOutcome::failed(code),
            ),
            (Phase::Releasing(outcome), FrameEvent::FrameReleased) => self.finish(outcome),
            (Phase::Releasing(outcome), FrameEvent::Failed { code }) => {
                if outcome is Failed {
                    self.finish(outcome)
                } else {
                    self.finish(TickOutcome::failed(code))
                }
            },
            _ => (self, FrameAction::Rest(TickOutcome::OutOfTurn)),
        }
    }

    /// The session after a command, and the reaction to it.
    pub open spec fn command(self, id: u16) -> (Session, Reaction) {
        match Command::of_id(id) {
            Some(Command::Save) => (self, Reaction::SaveScreenshot),
            Some(Command::ToggleAlwaysOnTop) => (
                Session { always_on_top: !self.always_on_top, ..self },
                Reaction::SetTopmost(!self.always_on_top),
            ),
            Some(Command::TogglePause) => (
                Session { paused: !self.paused, ..self },
                Reaction::SetCaptureExcluded(self.paused),
            ),
            Some(Command::SelectShader(index)) => (
                Session { roster: self.roster.selected(index as int), ..self },
                if index < self.roster.entries.len() {
                    Reaction::EffectSwitched(index)
                } else {
                    Reaction::Done
                },
            ),
            None => (self, Reaction::Done),
        }
    }

    /// The session after a window event, and the reaction to it.
    pub open spec fn handle(self, event: WindowEvent) -> (Session, Reaction) {
        match event {
            WindowEvent::Destroy => (self, Reaction::Quit),
            WindowEvent::Size { origin_x, origin_y, client } => (
                Session {
                    source_rect: SourceRect {
                        left: origin_x,
                        top: origin_y,
                        width: client.width,
                        height: client.height,
                    },
                    resources: self.resources.resized(client),
                    ..self
                },
                Reaction::ResizeSwapChain(client),
            ),
            WindowEvent::Move { origin_x, origin_y, client } => (
                Session {
                    source_rect: SourceRect {
                        left: origin_x,
                        top: origin_y,
                        width: client.width,
                        height: client.height,
                    },
                    ..self
                },
                Reaction::Done,
            ),
            WindowEvent::SetCursor { hit_test } => (
                self,
                if hit_test == HTCLIENT {
                    Reaction::ShowArrowCursor
                } else {
                    Reaction::Default
                },
            ),
            WindowEvent::Paint => (self.paint().0, Reaction::Capture(self.paint().1)),
            WindowEvent::Command { id } => self.command(id),
            WindowEvent::Other => (self, Reaction::Default),
        }
    }
}

/// The capture session of one window.
pub struct CaptureState {
    shaders: ShaderLibrary,
    cache: ResourceCache,
    duplication: Duplication,
    phase: Phase,
    source_rect: SourceRect,
    always_on_top: bool,
    paused: bool,
}

impl View for CaptureState {
    type V = Session;

    closed spec fn view(&self) -> Session {
        Session {
            roster: self.shaders@,
            resources: self.cache@,
            duplication: self.duplication,
            phase: self.phase,
            source_rect: self.source_rect,
            always_on_top: self.always_on_top,
            paused: self.paused,
        }
    }
}

impl CaptureState {
    #[verifier::type_invariant]
    spec fn inv(self) -> bool {
        self.cache@.settled() && self.phase.honest() && self@.attached()
    }

    /// The session at startup, with the roster `shaders` and a client area
    /// of size `client`: no duplication handle, no size-dependent resource,
    /// neither paused nor on top.
    pub fn new(shaders: ShaderLibrary, client: Extent) -> (state: CaptureState)
        ensures
            state@ == Session::initial(shaders@, client),
            state@.wf(),
    {
        proof {
            use_type_invariant(&shaders);
        }
        CaptureState {
            shaders,
            cache: ResourceCache::new(client),
            duplication: Duplication::Uninitialized,
            phase: Phase::Idle,
            source_rect: SourceRect { left: 0, top: 0, width: 0, height: 0 },
            always_on_top: false,
            paused: false,
        }
    }

    /// The roster of effects.
    pub fn shaders(&self) -> (shaders: &ShaderLibrary)
        ensures
            shaders@ == self@.roster,
    {
        &self.shaders
    }

    /// What exists of the size-dependent resources. They are settled at
    /// every moment: nothing exists, or everything at matching sizes.
    pub fn resources(&self) -> (set: ResourceSet)
        ensures
            set == self@.resources,
            set.settled(),
            set.consistent(),
    {
        proof {
            use_type_invariant(self);
        }
        self.cache.snapshot()
    }

    /// Whether a duplication handle exists.
    pub fn duplication(&self) -> (d: Duplication)
        ensures
            d == self@.duplication,
    {
        self.duplication
    }

    /// Where the current tick stands.
    pub fn phase(&self) -> (p: Phase)
        ensures
            p == self@.phase,
    {
        self.phase
    }

    /// The screen-space rectangle of the client area, as of the last
    /// placement event.
    pub fn source_rect(&self) -> (r: SourceRect)
        ensures
            r == self@.source_rect,
    {
        self.source_rect
    }

    pub fn is_paused(&self) -> (p: bool)
        ensures
            p == self@.paused,
    {
        self.paused
    }

    pub fn is_always_on_top(&self) -> (t: bool)
        ensures
            t == self@.always_on_top,
    {
        self.always_on_top
    }

    /// Ends the tick with `outcome`.
    fn finish(&mut self, outcome: TickOutcome) -> (action: FrameAction)
        ensures
            final(self)@ == old(self)@.finish(outcome).0,
            action == old(self)@.finish(outcome).1,
    {
        proof {
            use_type_invariant(&*self);
        }
        let lost = match outcome {
            TickOutcome::Failed { lost, .. } => lost,
            _ => false,
        };
        self.phase = Phase::Idle;
        if lost {
            self.cache.invalidate_all();
            self.duplication = Duplication::Uninitialized;
        }
        FrameAction::Rest(outcome)
    }

    /// Asks for the release of the held frame.
    fn let_go(&mut self, outcome: TickOutcome) -> (action: FrameAction)
        requires
            outcome.honest(),
        ensures
            final(self)@ == old(self)@.let_go(outcome).0,
            action == old(self)@.let_go(outcome).1,
    {
        proof {
            use_type_invariant(&*self);
        }
        self.phase = Phase::Releasing(outcome);
        FrameAction::ReleaseFrame
    }

    /// The outcome of a step that failed with result code `code`.
    fn failed(code: i32) -> (outcome: TickOutcome)
        ensures
            outcome == TickOutcome::failed(code),
    {
        let lost = match Failure::classify(code) {
            Failure::AccessLost => true,
            _ => false,
        };
        TickOutcome::Failed { code, lost }
    }

    /// Starts a tick.
    fn paint(&mut self) -> (action: FrameAction)
        ensures
            final(self)@ == old(self)@.paint().0,
            action == old(self)@.paint().1,
    {
        proof {
            use_type_invariant(&*self);
        }
        match self.phase {
            Phase::Measuring | Phase::Provisioning(_) | Phase::Rendering => {
                return self.let_go(TickOutcome::Abandoned);
            },
            Phase::Releasing(pending) => {
                let _ = self.finish(pending);
            },
            _ => {
                self.phase = Phase::Idle;
            },
        }
        if self.paused {
            FrameAction::Rest(TickOutcome::Paused)
        } else {
            match self.duplication {
                Duplication::Uninitialized => {
                    self.phase = Phase::Opening;
                    FrameAction::OpenDuplication
                },
                Duplication::Active => {
                    self.phase = Phase::Acquiring;
                    FrameAction::AcquireFrame { timeout_ms: ACQUIRE_TIMEOUT_MS }
                },
            }
        }
    }

    /// Lays out and provisions a frame once its sizes are known.
    fn measured(&mut self, client: Extent, screen: Extent) -> (action: FrameAction)
        requires
            old(self)@.phase is Measuring,
        ensures
            final(self)@ == old(self)@.advance(FrameEvent::Measured { client, screen }).0,
            action == old(self)@.advance(FrameEvent::Measured { client, screen }).1,
    {
        proof {
            use_type_invariant(&*self);
        }
        let source = self.source_rect.with_extent(client);
        match FrameLayout::compute(source, screen) {
            None => self.let_go(TickOutcome::TooLarge),
            Some(layout) => {
                let shader = self.shaders.current();
                let bind = self.shaders.bind_plan(layout.extended);
                let plan = RenderPlan {
                    layout,
                    shader,
                    bind,
                    viewport: client,
                    clear: Color { red: 0, green: 0, blue: 0, alpha: 255 },
                    vertex_count: QUAD_VERTICES,
                    sync_interval: SYNC_INTERVAL,
                };
                let need = self.cache.ensure_all(client, layout.extended);
                if need.is_nothing() {
                    self.phase = Phase::Rendering;
                    FrameAction::Render(plan)
                } else {
                    self.phase = Phase::Provisioning(plan);
                    FrameAction::Provision(need)
                }
            },
        }
    }

    /// Whether the resources on record are those that `plan` was made for.
    fn provisioned_for(&self, plan: &RenderPlan) -> (b: bool)
        ensures
            b == self@.provisioned_for(*plan),
    {
        proof {
            use_type_invariant(self);
        }
        let set = self.cache.snapshot();
        let all = match (set.staging, set.extended, set.render_target) {
            (Some(_), Some(_), Some(_)) => true,
            _ => false,
        };
        let extended = match set.extended {
            Some(e) => e.width == plan.layout.extended.width && e.height
                == plan.layout.extended.height,
            None => false,
        };
        all && extended && set.client.width == plan.viewport.width && set.client.height
            == plan.viewport.height
    }

    /// Takes the outcome of the action that was asked for last and answers
    /// with the next one. An event that does not answer that action changes
    /// nothing and ends the exchange.
    pub fn advance(&mut self, event: FrameEvent) -> (action: FrameAction)
        ensures
            final(self)@ == old(self)@.advance(event).0,
            action == old(self)@.advance(event).1,
            old(self)@.wf(),
            final(self)@.wf(),
    {
        proof {
            use_type_invariant(&*self);
            use_type_invariant(&self.shaders);
            use_type_invariant(&self.cache);
            lemma_step_keeps_settled(self@, Input::Frame(event));
        }
        match (self.phase, event) {
            (Phase::Opening, FrameEvent::DuplicationOpened) => {
                self.phase = Phase::Idle;
                self.duplication = Duplication::Active;
                self.phase = Phase::Acquiring;
                FrameAction::AcquireFrame { timeout_ms: ACQUIRE_TIMEOUT_MS }
            },
            (Phase::Opening, FrameEvent::Failed { code }) => {
                let outcome = Self::failed(code);
                self.finish(outcome)
            },
            (Phase::Acquiring, FrameEvent::FrameAcquired { present_time, has_surface }) => {
                if frame_has_content(present_time, has_surface) {
                    self.phase = Phase::Measuring;
                    FrameAction::Measure
                } else {
                    self.let_go(TickOutcome::NothingNew)
                }
            },
            (Phase::Acquiring, FrameEvent::Failed { code }) => {
                match Failure::classify(code) {
                    Failure::Timeout => self.finish(TickOutcome::NoNewFrame),
                    _ => {
                        let outcome = Self::failed(code);
                        self.finish(outcome)
                    },
                }
            },
            (Phase::Measuring, FrameEvent::Measured { client, screen }) => self.measured(
                client,
                screen,
            ),
            (Phase::Measuring, FrameEvent::Failed { code }) => {
                let outcome = Self::failed(code);
                self.let_go(outcome)
            },
            (Phase::Provisioning(plan), FrameEvent::Provisioned) => {
                if self.provisioned_for(&plan) {
                    self.phase = Phase::Rendering;
                    FrameAction::Render(plan)
                } else {
                    self.let_go(TickOutcome::Abandoned)
                }
            },
            (Phase::Provisioning(_), FrameEvent::Failed { code }) => {
                self.cache.invalidate_all();
                let outcome = Self::failed(code);
                self.let_go(outcome)
            },
            (Phase::Rendering, FrameEvent::Rendered) => self.let_go(TickOutcome::Presented),
            (Phase::Rendering, FrameEvent::Failed { code }) => {
                let outcome = Self::failed(code);
                self.let_go(outcome)
            },
            (Phase::Releasing(outcome), FrameEvent::FrameReleased) => self.finish(outcome),
            (Phase::Releasing(outcome), FrameEvent::Failed { code }) => {
                match outcome {
                    TickOutcome::Failed { .. } => self.finish(outcome),
                    _ => {
                        let failure = Self::failed(code);
                        self.finish(failure)
                    },
                }
            },
            _ => FrameAction::Rest(TickOutcome::OutOfTurn),
        }
    }

    /// Carries out a command.
    fn command(&mut self, id: u16) -> (reaction: Reaction)
        ensures
            final(self)@ == old(self)@.command(id).0,
            reaction == old(self)@.command(id).1,
    {
        proof {
            use_type_invariant(&*self);
        }
        match Command::from_id(id) {
            Some(Command::Save) => Reaction::SaveScreenshot,
            Some(Command::ToggleAlwaysOnTop) => {
                self.always_on_top = !self.always_on_top;
                Reaction::SetTopmost(self.always_on_top)
            },
            Some(Command::TogglePause) => {
                self.paused = !self.paused;
                Reaction::SetCaptureExcluded(!self.paused)
            },
            Some(Command::SelectShader(index)) => {
                if self.shaders.select(index) {
                    Reaction::EffectSwitched(index)
                } else {
                    Reaction::Done
                }
            },
            None => Reaction::Done,
        }
    }

    /// Takes a window event and answers with what the shell has to do.
    pub fn handle(&mut self, event: WindowEvent) -> (reaction: Reaction)
        ensures
            final(self)@ == old(self)@.handle(event).0,
            reaction == old(self)@.handle(event).1,
            old(self)@.wf(),
            final(self)@.wf(),
    {
        proof {
            use_type_invariant(&*self);
            use_type_invariant(&self.shaders);
            use_type_invariant(&self.cache);
            lemma_step_keeps_settled(self@, Input::Window(event));
        }
        match event {
            WindowEvent::Destroy => Reaction::Quit,
            WindowEvent::Size { origin_x, origin_y, client } => {
                self.source_rect = SourceRect::from_placement(origin_x, origin_y, client);
                self.cache.resize(client);
                Reaction::ResizeSwapChain(client)
            },
            WindowEvent::Move { origin_x, origin_y, client } => {
                self.source_rect = SourceRect::from_placement(origin_x, origin_y, client);
                Reaction::Done
            },
            WindowEvent::SetCursor { hit_test } => {
                if hit_test == HTCLIENT {
                    Reaction::ShowArrowCursor
                } else {
                    Reaction::Default
                }
            },
            WindowEvent::Paint => Reaction::Capture(self.paint()),
            WindowEvent::Command { id } => self.command(id),
            WindowEvent::Other => Reaction::Default,
        }
    }
}

/// Anything the shell can hand to the session.
#[derive(Clone, Copy, Debug, PartialEq, Eq, Structural)]
pub enum Input {
    Window(WindowEvent),
    Frame(FrameEvent),
}

impl Session {
    /// The session after one input.
    pub open spec fn step(self, input: Input) -> Session {
        match input {
            Input::Window(event) => self.handle(event).0,
            Input::Frame(event) => self.advance(event).0,
        }
    }

    /// The frame action that the session answers one input with, if it
    /// answers with one.
    pub open spec fn asks(self, input: Input) -> Option<FrameAction> {
        match input {
            Input::Window(WindowEvent::Paint) => Some(self.paint().1),
            Input::Window(_) => None,
            Input::Frame(event) => Some(self.advance(event).1),
        }
    }

    /// The session after a sequence of inputs, first to last.
    pub open spec fn run(self, inputs: Seq<Input>) -> Session
        decreases inputs.len(),
    {
        if inputs.len() == 0 {
            self
        } else {
            self.run(inputs.drop_last()).step(inputs.last())
        }
    }

    /// Whether this input hands the session a frame: the acquisition that
    /// the session asked for succeeded.
    pub open spec fn takes_frame(self, input: Input) -> bool {
        self.phase is Acquiring && input matches Input::Frame(FrameEvent::FrameAcquired { .. })
    }

    /// Number of frames acquired over a sequence of inputs.
    pub open spec fn acquisitions(self, inputs: Seq<Input>) -> int
        decreases inputs.len(),
    {
        if inputs.len() == 0 {
            0
        } else {
            self.acquisitions(inputs.drop_last()) + if self.run(inputs.drop_last()).takes_frame(
                inputs.last(),
            ) {
                1int
            } else {
                0int
            }
        }
    }

    /// Number of releases asked for over a sequence of inputs.
    pub open spec fn releases(self, inputs: Seq<Input>) -> int
        decreases inputs.len(),
    {
        if inputs.len() == 0 {
            0
        } else {
            self.releases(inputs.drop_last()) + if self.run(inputs.drop_last()).asks(
                inputs.last(),
            ) == Some(FrameAction::ReleaseFrame) {
                1int
            } else {
                0int
            }
        }
    }

    /// Number of frames held whose release has not been asked for: one or
    /// none.
    pub open spec fn owed(self) -> int {
        if self.phase.holding() {
            1
        } else {
            0
        }
    }
}

/// Whatever the shell hands in, a well-formed session stays well-formed:
/// one effect is active, and the size-dependent resources are either all
/// absent or all present at matching sizes. After a resize they are all
/// absent and the record holds the new client size; a move changes no
/// resource.
pub proof fn lemma_step_keeps_settled(s: Session, input: Input)
    requires
        s.wf(),
    ensures
        s.step(input).wf(),
        input matches Input::Window(WindowEvent::Size { origin_x, origin_y, client })
            ==> s.step(input).resources == ResourceSet::empty(client) && s.step(
            input,
        ).source_rect == (SourceRect {
            left: origin_x,
            top: origin_y,
            width: client.width,
            height: client.height,
        }),
        input matches Input::Window(WindowEvent::Move { origin_x, origin_y, client })
            ==> s.step(input).resources == s.resources && s.step(input).source_rect
            == (SourceRect {
            left: origin_x,
            top: origin_y,
            width: client.width,
            height: client.height,
        }),
        s.asks(input) matches Some(FrameAction::Render(plan)) ==> s.step(input).provisioned_for(
            plan,
        ),
{
}

/// The same over any sequence of inputs.
pub proof fn lemma_run_keeps_settled(s: Session, inputs: Seq<Input>)
    requires
        s.wf(),
    ensures
        s.run(inputs).wf(),
    decreases inputs.len(),
{
    if inputs.len() > 0 {
        lemma_run_keeps_settled(s, inputs.drop_last());
        lemma_step_keeps_settled(s.run(inputs.drop_last()), inputs.last());
    }
}

/// One step of the pairing of acquisitions and releases. An acquisition is
/// asked for only while no frame is held, and leaves none held until one is
/// reported. A release is asked for only for a frame that is held or was
/// just handed in, and after it none is held. A frame that was handed in
/// and is not released in the same step is held.
pub proof fn lemma_step_pairs_release(s: Session, input: Input)
    ensures
        s.asks(input) matches Some(FrameAction::AcquireFrame { timeout_ms }) ==> !s.phase.holding()
            && s.step(input).phase is Acquiring && timeout_ms == ACQUIRE_TIMEOUT_MS,
        s.asks(input) == Some(FrameAction::ReleaseFrame) ==> (s.phase.holding() || s.takes_frame(
            input,
        )) && s.step(input).phase is Releasing,
        s.step(input).owed() - s.owed() == (if s.takes_frame(input) {
            1int
        } else {
            0int
        }) - (if s.asks(input) == Some(FrameAction::ReleaseFrame) {
            1int
        } else {
            0int
        }),
        input matches Input::Frame(FrameEvent::FrameAcquired { present_time, has_surface })
            ==> s.takes_frame(input) && !has_content(present_time, has_surface) ==> s.asks(input)
            == Some(FrameAction::ReleaseFrame),
        input matches Input::Frame(FrameEvent::Failed { .. }) ==> s.phase.holding() ==> s.asks(
            input,
        ) == Some(FrameAction::ReleaseFrame),
        s.phase.holding() && input == Input::Window(WindowEvent::Paint) ==> s.asks(input) == Some(
            FrameAction::ReleaseFrame,
        ),
{
}

/// Every frame acquired is released exactly once before the next
/// acquisition is asked for: over any sequence of inputs, the frames
/// acquired are the releases asked for plus the frame still held, which is
/// one at most; and an acquisition is never asked for while one is held.
pub proof fn lemma_acquire_release_pairing(s: Session, inputs: Seq<Input>)
    ensures
        s.acquisitions(inputs) - s.releases(inputs) == s.run(inputs).owed() - s.owed(),
        0 <= s.run(inputs).owed() <= 1,
    decreases inputs.len(),
{
    if inputs.len() > 0 {
        lemma_acquire_release_pairing(s, inputs.drop_last());
        lemma_step_pairs_release(s.run(inputs.drop_last()), inputs.last());
    }
}

/// A lost device is recovered from on the next tick. Whenever a tick ends
/// with a failure whose code reports lost access, the session is left
/// without duplication handle and without size-dependent resources; unless
/// it is paused, the next paint asks for a new handle, and once that is
/// there, for a frame.
pub proof fn lemma_access_lost_recovers(s: Session, event: FrameEvent, code: i32, lost: bool)
    requires
        s.wf(),
        s.advance(event).1 == FrameAction::Rest(TickOutcome::Failed { code, lost }),
    ensures
        lost == (code == crate::capture::DXGI_ERROR_ACCESS_LOST),
        s.advance(event).0.phase is Idle,
        lost ==> s.advance(event).0.duplication is Uninitialized,
        lost ==> s.advance(event).0.resources.all_absent(),
        !lost ==> s.advance(event).0.duplication == s.duplication,
        lost && !s.paused ==> ({
            let next = s.advance(event).0.paint();
            &&& next.1 == FrameAction::OpenDuplication
            &&& next.0.advance(FrameEvent::DuplicationOpened).1 == (FrameAction::AcquireFrame {
                timeout_ms: ACQUIRE_TIMEOUT_MS,
            })
            &&& next.0.advance(FrameEvent::DuplicationOpened).0.duplication is Active
        }),
{
}

/// A tick comes to its end. An event that answers the outstanding action
/// takes the tick strictly closer to its end, and the session rests
/// exactly when the tick is over; a shell that answers every action is
/// therefore told to rest after six answers at most. An event that does
/// not answer the outstanding action changes nothing.
pub proof fn lemma_tick_progresses(s: Session, event: FrameEvent)
    ensures
        s.phase.expects(event) ==> s.advance(event).0.phase.rank() < s.phase.rank(),
        s.phase.expects(event) ==> (s.advance(event).1 is Rest <==> s.advance(event).0.phase
            is Idle),
        !s.phase.expects(event) ==> s.advance(event) == (
            s,
            FrameAction::Rest(TickOutcome::OutOfTurn),
        ),
        s.phase.rank() <= 6,
{
}

/// A paused session captures nothing and lets go of nothing: a paint
/// between ticks is answered with rest and changes nothing. Whatever the
/// phase, a paint of a paused session asks neither for a handle nor for a
/// frame: it is answered with rest, or with the release of a frame that
/// was left held.
pub proof fn lemma_paused_captures_nothing(s: Session)
    requires
        s.paused,
    ensures
        s.phase is Idle ==> s.paint() == (s, FrameAction::Rest(TickOutcome::Paused)),
        s.paint().1 == FrameAction::Rest(TickOutcome::Paused) || s.paint().1
            == FrameAction::ReleaseFrame,
        s.paint().1 == FrameAction::ReleaseFrame <==> s.phase.holding(),
        s.paint().0.paused,
        !(s.phase matches Phase::Releasing(pending) && pending.lost()) ==> s.paint().0.resources
            == s.resources && s.paint().0.duplication == s.duplication,
{
}

/// A failed attempt to open the duplication handle ends the tick and
/// changes nothing else: there was no handle and no size-dependent
/// resource before, and there is none after, whatever the result code.
pub proof fn lemma_failed_open_changes_nothing(s: Session, code: i32)
    requires
        s.wf(),
        s.phase is Opening,
    ensures
        s.duplication is Uninitialized,
        s.resources.all_absent(),
        s.advance(FrameEvent::Failed { code }) == (
            Session { phase: Phase::Idle, ..s },
            FrameAction::Rest(TickOutcome::failed(code)),
        ),
{
}

/// The duplication handle is kept whatever the outcome of a step, but for
/// a tick that ends with lost access; and it comes into being only when
/// the shell reports it opened.
pub proof fn lemma_handle_is_kept(s: Session, event: FrameEvent)
    requires
        s.wf(),
    ensures
        s.advance(event).0.duplication != s.duplication ==> (s.phase is Opening && event
            is DuplicationOpened) || (s.advance(event).1 matches FrameAction::Rest(outcome)
            && outcome.lost()),
        s.phase is Opening && event is DuplicationOpened ==> s.advance(event).0.duplication
            is Active,
        s.advance(event).1 matches FrameAction::Rest(outcome) && outcome.lost() ==> s.advance(
            event,
        ).0.duplication is Uninitialized,
{
}

/// The toggles toggle: the same command given twice leaves the session as
/// it was, and neither toggle touches anything but its own flag.
pub proof fn lemma_toggles_undo_themselves(s: Session)
    ensures
        s.command(crate::commands::ID_ALWAYS_ON_TOP).0.command(
            crate::commands::ID_ALWAYS_ON_TOP,
        ).0 == s,
        s.command(crate::commands::ID_TOGGLE_PAUSE).0.command(crate::commands::ID_TOGGLE_PAUSE).0
            == s,
        s.command(crate::commands::ID_ALWAYS_ON_TOP).0 == (Session {
            always_on_top: !s.always_on_top,
            ..s
        }),
        s.command(crate::commands::ID_TOGGLE_PAUSE).0 == (Session { paused: !s.paused, ..s }),
        s.command(crate::commands::ID_TOGGLE_PAUSE).1 == Reaction::SetCaptureExcluded(s.paused),
        s.command(crate::commands::ID_SAVE) == (s, Reaction::SaveScreenshot),
{
}

} // verus!
