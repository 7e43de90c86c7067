//! The frame driver: what stands in for the host's presentation call.
//!
//! The driver owns the overlay for the life of the process. It decides and
//! does nothing outside itself: each of its entry points takes what has
//! happened and answers with the one thing to do next. Whoever runs the
//! driver does that thing and reports back:
//!
//! * the host presents a frame: [`FrameDriver::on_present`];
//! * [`DriverAction::Initialize`] has been tried:
//!   [`FrameDriver::on_init_finished`];
//! * [`DriverAction::Render`] has been tried:
//!   [`FrameDriver::on_frame_finished`];
//! * [`DriverAction::CallOriginal`] ends the presentation call: the
//!   original presentation function is called with the surface it names.
//!
//! The overlay is built on the first presentation call and never again. If
//! building it fails, the driver is disabled for good and every
//! presentation call goes straight to the original function. Whatever
//! happens, every presentation call ends in the original function.
//!
//! The resources that draw the overlay are of a type `R` that the driver
//! knows nothing of. It takes them over when the overlay is built, lends
//! them out with every frame that is to be drawn and takes them back when
//! the frame is done.

use vstd::prelude::*;
use vstd::string::StringExecFns;
use crate::input::{FrameInput, InputModel, InputState};
use crate::interceptor::{dispatch, disposition_of, Disposition, Interceptor};
use crate::keymap::{key_map, key_table, KeyBinding};
use crate::message::classification;
use crate::text::{decimal, with_decimal};
use crate::timing::FrameTiming;

verus! {

/// Width of the overlay's display area.
pub const DISPLAY_WIDTH: u32 = 600;

/// Height of the overlay's display area.
pub const DISPLAY_HEIGHT: u32 = 200;

/// The text for a surface without a window.
pub const NO_WINDOW: &'static str = "Failed building overlay: the surface has no window";

/// The text for a user-interface context that could not be created.
pub const NO_UI_CONTEXT: &'static str = "Failed building overlay: no user-interface context";

/// The text for a renderer that could not be bound.
pub const NO_RENDERER: &'static str = "Failed building overlay: no renderer";

/// What the text for a window procedure that could not be replaced begins with.
pub const PROCEDURE_SWAP_FAILED: &'static str = "Failed replacing window procedure, GetLastError: ";

/// Why the overlay could not be built.
#[derive(Clone, Copy, PartialEq, Eq, Debug, Structural)]
pub enum InitError {
    /// The presentation surface belongs to no window.
    NoWindow,
    /// The user-interface context could not be created.
    UiContext,
    /// The renderer could not be bound to the graphics functions.
    Renderer,
    /// The window's procedure could not be replaced; the platform gave this
    /// error code.
    ProcedureSwap(u32),
}

impl InitError {
    /// The diagnostic text of the error: the step that failed and, where
    /// the platform gave one, its error code in decimal.
    pub open spec fn message_of(self) -> Seq<char> {
        match self {
            InitError::NoWindow => NO_WINDOW@,
            InitError::UiContext => NO_UI_CONTEXT@,
            InitError::Renderer => NO_RENDERER@,
            InitError::ProcedureSwap(code) => PROCEDURE_SWAP_FAILED@ + decimal(code as nat),
        }
    }

    /// The diagnostic text of the error.
    pub fn message(&self) -> (text: String)
        ensures
            text@ == self.message_of(),
    {
        match self {
            InitError::NoWindow => String::from_str(NO_WINDOW),
            InitError::UiContext => String::from_str(NO_UI_CONTEXT),
            InitError::Renderer => String::from_str(NO_RENDERER),
            InitError::ProcedureSwap(code) => with_decimal(PROCEDURE_SWAP_FAILED, *code),
        }
    }
}

/// Reads the platform's answer to the question which window owns the
/// presentation surface: a null handle is no window.
pub fn check_window(window: isize) -> (outcome: Result<isize, InitError>)
    ensures
        outcome == if window == 0 {
            Err::<isize, InitError>(InitError::NoWindow)
        } else {
            Ok::<isize, InitError>(window)
        },
{
    if window == 0 {
        Err(InitError::NoWindow)
    } else {
        Ok(window)
    }
}

/// Reads the platform's answer to the replacement of the window's
/// procedure: a null procedure means that nothing was replaced, and `code`
/// is the platform's error code for it.
pub fn check_displaced(previous: isize, code: u32) -> (outcome: Result<isize, InitError>)
    ensures
        outcome == if previous == 0 {
            Err::<isize, InitError>(InitError::ProcedureSwap(code))
        } else {
            Ok::<isize, InitError>(previous)
        },
{
    if previous == 0 {
        Err(InitError::ProcedureSwap(code))
    } else {
        Ok(previous)
    }
}

/// How the user-interface context is set up.
#[derive(Clone, Copy, PartialEq, Eq, Debug, Structural)]
pub struct OverlaySettings {
    pub display_width: u32,
    pub display_height: u32,
    /// Keyboard navigation is in use.
    pub nav_active: bool,
    /// Keyboard navigation is shown.
    pub nav_visible: bool,
    /// Window positions are kept in a settings file between runs.
    pub persist_settings: bool,
}

impl OverlaySettings {
    /// The settings of the overlay: a display area of [`DISPLAY_WIDTH`] by
    /// [`DISPLAY_HEIGHT`], keyboard navigation on and shown, and no settings
    /// file.
    pub open spec fn standard() -> OverlaySettings {
        OverlaySettings {
            display_width: DISPLAY_WIDTH,
            display_height: DISPLAY_HEIGHT,
            nav_active: true,
            nav_visible: true,
            persist_settings: false,
        }
    }

    /// The settings of the overlay.
    pub fn new() -> (settings: OverlaySettings)
        ensures
            settings == OverlaySettings::standard(),
    {
        OverlaySettings {
            display_width: DISPLAY_WIDTH,
            display_height: DISPLAY_HEIGHT,
            nav_active: true,
            nav_visible: true,
            persist_settings: false,
        }
    }
}

/// What a successful build of the overlay hands to the driver: the window
/// procedure that the overlay's procedure displaced, and the resources that
/// draw the overlay.
pub struct Installed<R> {
    pub displaced: isize,
    pub backend: R,
}

/// What the report of a build means to the driver: a build that displaced
/// no procedure has built nothing, and counts as a failure to replace the
/// window's procedure.
pub open spec fn build_meaning<R>(outcome: Result<Installed<R>, InitError>) -> Result<
    Installed<R>,
    InitError,
> {
    match outcome {
        Ok(installed) => if installed.displaced == 0 {
            Err(InitError::ProcedureSwap(0))
        } else {
            Ok(installed)
        },
        Err(error) => Err(error),
    }
}

/// The one thing to do next.
pub enum DriverAction<R> {
    /// Build the overlay for the window that owns `surface`: create the
    /// user-interface context with `settings` and `key_map`, bind the
    /// renderer, and last of all replace the window's procedure.
    Initialize { surface: isize, settings: OverlaySettings, key_map: Vec<KeyBinding> },
    /// Advance the user interface by `timing`, feed it `input`, build the
    /// overlay's content and draw it with `backend`, which is lent for this
    /// frame and goes back with the report that the frame is done.
    Render { timing: FrameTiming, input: FrameInput, backend: R },
    /// Call the original presentation function with `surface` and give its
    /// result to the host.
    CallOriginal { surface: isize },
    /// The report matched nothing that the driver had asked for.
    Nothing,
}

/// [`DriverAction`] as a mathematical value.
#[verifier::ext_equal]
pub enum ActionModel<R> {
    Initialize { surface: isize, settings: OverlaySettings, key_map: Seq<KeyBinding> },
    Render { timing: FrameTiming, input: InputModel, backend: R },
    CallOriginal { surface: isize },
    Nothing,
}

impl<R> View for DriverAction<R> {
    type V = ActionModel<R>;

    open spec fn view(&self) -> ActionModel<R> {
        match *self {
            DriverAction::Initialize { surface, settings, key_map } => ActionModel::Initialize {
                surface,
                settings,
                key_map: key_map@,
            },
            DriverAction::Render { timing, input, backend } => ActionModel::Render {
                timing,
                input: input@,
                backend,
            },
            DriverAction::CallOriginal { surface } => ActionModel::CallOriginal { surface },
            DriverAction::Nothing => ActionModel::Nothing,
        }
    }
}

/// What the overlay holds of the window once it is built, as a mathematical
/// value.
#[verifier::ext_equal]
pub struct OverlayModel {
    /// The window procedure that the overlay's procedure displaced.
    pub displaced: isize,
    pub input: InputModel,
}

impl OverlayModel {
    /// A procedure was displaced, and the input is well formed.
    pub open spec fn wf(self) -> bool {
        self.displaced != 0 && self.input.wf()
    }
}

/// Where the driver stands, as a mathematical value.
#[verifier::ext_equal]
pub enum StateModel<R> {
    /// No presentation call has come yet.
    Uninitialized,
    /// The first presentation call, which came with this surface, is
    /// waiting for the overlay to be built.
    Initializing { surface: isize },
    /// The overlay is built, its resources are at hand, and no frame is
    /// being drawn.
    Ready(OverlayModel, R),
    /// The overlay is built, its resources are lent out, and a presentation
    /// call, which came with this surface, is waiting for its frame to be
    /// drawn.
    Rendering(OverlayModel, isize),
    /// The overlay could not be built and will not be tried again.
    Disabled(InitError),
}

/// The driver as a mathematical value.
#[verifier::ext_equal]
pub struct DriverModel<R> {
    pub state: StateModel<R>,
    pub timing: FrameTiming,
}

impl<R> DriverModel<R> {
    /// The driver before the first presentation call.
    pub open spec fn fresh() -> DriverModel<R> {
        DriverModel { state: StateModel::Uninitialized, timing: FrameTiming::initial() }
    }

    /// What holds of every driver: a built overlay has displaced a
    /// procedure, and its input is well formed.
    pub open spec fn wf(self) -> bool {
        match self.state {
            StateModel::Ready(overlay, _) => overlay.wf(),
            StateModel::Rendering(overlay, _) => overlay.wf(),
            _ => true,
        }
    }

    /// No presentation call is under way.
    pub open spec fn at_rest(self) -> bool {
        self.state is Uninitialized || self.state is Ready || self.state is Disabled
    }

    /// The overlay is built.
    pub open spec fn built(self) -> bool {
        self.state is Ready || self.state is Rendering
    }

    /// The window procedure in force: the overlay's own once the overlay is
    /// built, with the displaced one kept for forwarding.
    pub open spec fn interceptor(self) -> Interceptor {
        match self.state {
            StateModel::Ready(overlay, _) => Interceptor::Armed(overlay.displaced),
            StateModel::Rendering(overlay, _) => Interceptor::Armed(overlay.displaced),
            _ => Interceptor::Unarmed,
        }
    }

    /// The host presents a frame on `surface` at time `now`.
    ///
    /// At rest, the call is timed, and then: the first call asks for the
    /// overlay to be built, with the overlay's settings and the key map;
    /// with the overlay built, the frame gets the input gathered so far and
    /// the overlay's resources, and is to be drawn; with the driver
    /// disabled, the call goes to the original function.
    /// A call that comes while another is under way changes nothing and goes
    /// to the original function.
    pub open spec fn present(self, surface: isize, now: u64) -> (DriverModel<R>, ActionModel<R>) {
        match self.state {
            StateModel::Uninitialized => (
                DriverModel {
                    state: StateModel::Initializing { surface },
                    timing: self.timing.advanced(now),
                },
                ActionModel::Initialize {
                    surface,
                    settings: OverlaySettings::standard(),
                    key_map: key_table(),
                },
            ),
            StateModel::Ready(overlay, backend) => (
                DriverModel {
                    state: StateModel::Rendering(
                        OverlayModel { input: overlay.input.consumed(), ..overlay },
                        surface,
                    ),
                    timing: self.timing.advanced(now),
                },
                ActionModel::Render {
                    timing: self.timing.advanced(now),
                    input: overlay.input,
                    backend,
                },
            ),
            StateModel::Disabled(_) => (
                DriverModel { timing: self.timing.advanced(now), ..self },
                ActionModel::CallOriginal { surface },
            ),
            StateModel::Initializing { .. } => (self, ActionModel::CallOriginal { surface }),
            StateModel::Rendering(_, _) => (self, ActionModel::CallOriginal { surface }),
        }
    }

    /// The attempt to build the overlay has ended in `outcome`.
    ///
    /// Success makes the overlay whole in one step, with its input at rest,
    /// and the waiting call's frame is to be drawn. Failure disables the
    /// driver, and the waiting call goes to the original function. A report
    /// that nothing waits for changes nothing.
    pub open spec fn init_finished(self, outcome: Result<Installed<R>, InitError>) -> (
        DriverModel<R>,
        ActionModel<R>,
    ) {
        match self.state {
            StateModel::Initializing { surface } => match build_meaning(outcome) {
                Ok(installed) => (
                    DriverModel {
                        state: StateModel::Rendering(
                            OverlayModel {
                                displaced: installed.displaced,
                                input: InputModel::idle(),
                            },
                            surface,
                        ),
                        ..self
                    },
                    ActionModel::Render {
                        timing: self.timing,
                        input: InputModel::idle(),
                        backend: installed.backend,
                    },
                ),
                Err(error) => (
                    DriverModel { state: StateModel::Disabled(error), ..self },
                    ActionModel::CallOriginal { surface },
                ),
            },
            _ => (self, ActionModel::Nothing),
        }
    }

    /// The attempt to draw the frame has ended, well or not, and the
    /// overlay's resources come back as `backend`.
    ///
    /// The overlay is at rest again, with its input as the events have left
    /// it, and the waiting call goes to the original function. A report that
    /// nothing waits for changes nothing.
    pub open spec fn frame_finished(self, backend: R) -> (DriverModel<R>, ActionModel<R>) {
        match self.state {
            StateModel::Rendering(overlay, surface) => (
                DriverModel { state: StateModel::Ready(overlay, backend), ..self },
                ActionModel::CallOriginal { surface },
            ),
            _ => (self, ActionModel::Nothing),
        }
    }

    /// The window gets a native event.
    ///
    /// With the overlay built, the event is recorded in the input and is
    /// kept or forwarded as [`disposition_of`] says. Before that, and with
    /// the driver disabled, nothing changes and nothing is decided.
    pub open spec fn window_event(self, message: u32, wparam: usize, lparam: isize) -> (
        DriverModel<R>,
        Option<Disposition>,
    ) {
        match self.state {
            StateModel::Ready(overlay, backend) => (
                DriverModel {
                    state: StateModel::Ready(
                        OverlayModel {
                            input: overlay.input.apply(classification(message, wparam)),
                            ..overlay
                        },
                        backend,
                    ),
                    ..self
                },
                Some(disposition_of(overlay.displaced, message, wparam, lparam)),
            ),
            StateModel::Rendering(overlay, surface) => (
                DriverModel {
                    state: StateModel::Rendering(
                        OverlayModel {
                            input: overlay.input.apply(classification(message, wparam)),
                            ..overlay
                        },
                        surface,
                    ),
                    ..self
                },
                Some(disposition_of(overlay.displaced, message, wparam, lparam)),
            ),
            _ => (self, None),
        }
    }
}

/// What the overlay holds of the window once it is built.
struct Overlay {
    displaced: isize,
    input: InputState,
}

impl View for Overlay {
    type V = OverlayModel;

    closed spec fn view(&self) -> OverlayModel {
        OverlayModel { displaced: self.displaced, input: self.input@ }
    }
}

impl Overlay {
    /// Takes one native event.
    fn handle(&mut self, message: u32, wparam: usize, lparam: isize) -> (disposition: Disposition)
        ensures
            disposition == disposition_of(old(self).displaced, message, wparam, lparam),
            final(self)@ == (OverlayModel {
                input: old(self)@.input.apply(classification(message, wparam)),
                ..old(self)@
            }),
            final(self)@.input.wf(),
    {
        dispatch(self.displaced, &mut self.input, message, wparam, lparam)
    }
}

/// Where the driver stands.
enum State<R> {
    Uninitialized,
    Initializing { surface: isize },
    Ready(Overlay, R),
    Rendering(Overlay, isize),
    Disabled(InitError),
}

impl<R> View for State<R> {
    type V = StateModel<R>;

    closed spec fn view(&self) -> StateModel<R> {
        match *self {
            State::Uninitialized => StateModel::Uninitialized,
            State::Initializing { surface } => StateModel::Initializing { surface },
            State::Ready(overlay, backend) => StateModel::Ready(overlay@, backend),
            State::Rendering(overlay, surface) => StateModel::Rendering(overlay@, surface),
            State::Disabled(error) => StateModel::Disabled(error),
        }
    }
}

/// The frame driver. `R` is the type of the resources that draw the overlay.
pub struct FrameDriver<R> {
    state: State<R>,
    timing: FrameTiming,
}

impl<R> View for FrameDriver<R> {
    type V = DriverModel<R>;

    closed spec fn view(&self) -> DriverModel<R> {
        DriverModel { state: self.state@, timing: self.timing }
    }
}

impl<R> FrameDriver<R> {
    #[verifier::type_invariant]
    spec fn well_formed(self) -> bool {
        self@.wf()
    }

    /// A driver that has seen no presentation call.
    pub fn new() -> (driver: FrameDriver<R>)
        ensures
            driver@ == DriverModel::<R>::fresh(),
            driver@.wf(),
    {
        FrameDriver { state: State::Uninitialized, timing: FrameTiming::new() }
    }

    /// Takes the state out, leaving a placeholder that the caller
    /// overwrites.
    fn take_state(&mut self) -> (state: State<R>)
        ensures
            state == old(self).state,
            final(self).timing == old(self).timing,
    {
        let mut state: State<R> = State::Uninitialized;
        std::mem::swap(&mut state, &mut self.state);
        state
    }

    /// Times a presentation call.
    fn tick(&mut self, now_micros: u64) -> (timing: FrameTiming)
        ensures
            timing == old(self).timing.advanced(now_micros),
            final(self).timing == timing,
            final(self).state == old(self).state,
    {
        proof {
            use_type_invariant(&*self);
        }
        let mut timing = self.timing;
        timing.advance(now_micros);
        self.timing = timing;
        timing
    }

    /// The host presents a frame on `surface` at time `now_micros`.
    pub fn on_present(&mut self, surface: isize, now_micros: u64) -> (action: DriverAction<R>)
        ensures
            final(self)@ == old(self)@.present(surface, now_micros).0,
            action@ == old(self)@.present(surface, now_micros).1,
            final(self)@.wf(),
    {
        proof {
            use_type_invariant(&*self);
        }
        match self.take_state() {
            State::Uninitialized => {
                self.tick(now_micros);
                self.state = State::Initializing { surface };
                DriverAction::Initialize {
                    surface,
                    settings: OverlaySettings::new(),
                    key_map: key_map(),
                }
            },
            State::Ready(overlay, backend) => {
                let mut overlay = overlay;
                let timing = self.tick(now_micros);
                let input = overlay.input.take_frame();
                self.state = State::Rendering(overlay, surface);
                DriverAction::Render { timing, input, backend }
            },
            State::Disabled(error) => {
                self.tick(now_micros);
                self.state = State::Disabled(error);
                DriverAction::CallOriginal { surface }
            },
            other => {
                self.state = other;
                DriverAction::CallOriginal { surface }
            },
        }
    }

    /// The attempt to build the overlay has ended in `outcome`.
    pub fn on_init_finished(&mut self, outcome: Result<Installed<R>, InitError>) -> (action:
        DriverAction<R>)
        ensures
            final(self)@ == old(self)@.init_finished(outcome).0,
            action@ == old(self)@.init_finished(outcome).1,
            final(self)@.wf(),
    {
        proof {
            use_type_invariant(&*self);
        }
        match self.take_state() {
            State::Initializing { surface } => match outcome {
                Ok(installed) => if installed.displaced == 0 {
                    self.state = State::Disabled(InitError::ProcedureSwap(0));
                    DriverAction::CallOriginal { surface }
                } else {
                    let mut input = InputState::new();
                    let frame = input.take_frame();
                    self.state = State::Rendering(
                        Overlay { displaced: installed.displaced, input },
                        surface,
                    );
                    DriverAction::Render {
                        timing: self.timing,
                        input: frame,
                        backend: installed.backend,
                    }
                },
                Err(error) => {
                    self.state = State::Disabled(error);
                    DriverAction::CallOriginal { surface }
                },
            },
            other => {
                self.state = other;
                DriverAction::Nothing
            },
        }
    }

    /// The attempt to draw the frame has ended, well or not, and the
    /// overlay's resources come back as `backend`.
    pub fn on_frame_finished(&mut self, backend: R) -> (action: DriverAction<R>)
        ensures
            final(self)@ == old(self)@.frame_finished(backend).0,
            action@ == old(self)@.frame_finished(backend).1,
            final(self)@.wf(),
    {
        proof {
            use_type_invariant(&*self);
        }
        match self.take_state() {
            State::Rendering(overlay, surface) => {
                self.state = State::Ready(overlay, backend);
                DriverAction::CallOriginal { surface }
            },
            other => {
                self.state = other;
                DriverAction::Nothing
            },
        }
    }

    /// The window gets a native event. An event that is forwarded goes to a
    /// procedure that is not null.
    pub fn on_window_event(&mut self, message: u32, wparam: usize, lparam: isize) -> (decision:
        Option<Disposition>)
        ensures
            final(self)@ == old(self)@.window_event(message, wparam, lparam).0,
            decision == old(self)@.window_event(message, wparam, lparam).1,
            final(self)@.wf(),
            decision matches Some(Disposition::Forward(event)) ==> event.procedure != 0,
    {
        proof {
            use_type_invariant(&*self);
        }
        match self.take_state() {
            State::Ready(overlay, backend) => {
                let mut overlay = overlay;
                let disposition = overlay.handle(message, wparam, lparam);
                self.state = State::Ready(overlay, backend);
                Some(disposition)
            },
            State::Rendering(overlay, surface) => {
                let mut overlay = overlay;
                let disposition = overlay.handle(message, wparam, lparam);
                self.state = State::Rendering(overlay, surface);
                Some(disposition)
            },
            other => {
                self.state = other;
                None
            },
        }
    }

    /// The window procedure in force. An armed interceptor has displaced a
    /// procedure that is not null.
    pub fn interceptor(&self) -> (interceptor: Interceptor)
        ensures
            interceptor == self@.interceptor(),
            interceptor matches Interceptor::Armed(displaced) ==> displaced != 0,
    {
        proof {
            use_type_invariant(self);
        }
        match &self.state {
            State::Ready(overlay, _) => Interceptor::Armed(overlay.displaced),
            State::Rendering(overlay, _) => Interceptor::Armed(overlay.displaced),
            _ => Interceptor::Unarmed,
        }
    }

    /// Whether the overlay is built.
    pub fn is_initialized(&self) -> (built: bool)
        ensures
            built == self@.built(),
    {
        match &self.state {
            State::Ready(_, _) => true,
            State::Rendering(_, _) => true,
            _ => false,
        }
    }

    /// The resources that draw the overlay, while they are at hand: the
    /// overlay is built and no frame is being drawn.
    pub fn backend(&self) -> (backend: Option<&R>)
        ensures
            match self@.state {
                StateModel::Ready(_, resources) => backend == Some(&resources),
                _ => backend is None,
            },
    {
        match &self.state {
            State::Ready(_, backend) => Some(backend),
            _ => None,
        }
    }

    /// Why the driver is disabled, if it is.
    pub fn failure(&self) -> (error: Option<InitError>)
        ensures
            error == match self@.state {
                StateModel::Disabled(reason) => Some(reason),
                _ => None::<InitError>,
            },
    {
        match &self.state {
            State::Disabled(reason) => Some(*reason),
            _ => None,
        }
    }

    /// The timing of the last presentation call.
    pub fn timing(&self) -> (timing: FrameTiming)
        ensures
            timing == self@.timing,
    {
        self.timing
    }
}

} // verus!
