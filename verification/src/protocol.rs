//! Whole presentation calls: the frame driver's entry points strung
//! together as whoever runs the driver must string them, and what holds of
//! any number of such calls.

use vstd::prelude::*;
use crate::driver::{build_meaning, ActionModel, DriverModel, InitError, Installed};
use crate::driver::{OverlayModel, StateModel};
use crate::input::InputModel;
use crate::interceptor::{Disposition, Interceptor};
use crate::timing::FrameTiming;

verus! {

/// One presentation call as the outside world shapes it: the surface and
/// the time it comes with, how the attempt to build the overlay ends should
/// this call be the one that makes it, and the resources as they come back
/// should this call draw a frame.
pub struct PresentationCall<R> {
    pub surface: isize,
    pub now: u64,
    pub init: Result<Installed<R>, InitError>,
    pub returned: R,
}

/// What the driver has asked of the outside world so far.
#[verifier::ext_equal]
pub struct Tally {
    /// How often the overlay was to be built.
    pub initializations: nat,
    /// The timing of every frame that was to be drawn, in order.
    pub frames: Seq<FrameTiming>,
    /// The surface of every call of the original presentation function, in
    /// order.
    pub originals: Seq<isize>,
}

impl Tally {
    /// Nothing asked yet.
    pub open spec fn zero() -> Tally {
        Tally { initializations: 0, frames: Seq::empty(), originals: Seq::empty() }
    }

    /// The tally with `action` counted.
    pub open spec fn with<R>(self, action: ActionModel<R>) -> Tally {
        match action {
            ActionModel::Initialize { .. } => Tally {
                initializations: self.initializations + 1,
                ..self
            },
            ActionModel::Render { timing, .. } => Tally {
                frames: self.frames.push(timing),
                ..self
            },
            ActionModel::CallOriginal { surface } => Tally {
                originals: self.originals.push(surface),
                ..self
            },
            ActionModel::Nothing => self,
        }
    }
}

/// What a built driver holds of the window.
pub open spec fn overlay_of<R>(driver: DriverModel<R>) -> OverlayModel
    recommends
        driver.built(),
{
    match driver.state {
        StateModel::Ready(overlay, _) => overlay,
        StateModel::Rendering(overlay, _) => overlay,
        _ => arbitrary(),
    }
}

/// The surfaces that `calls` come with, in order.
pub open spec fn surfaces_of<R>(calls: Seq<PresentationCall<R>>) -> Seq<isize> {
    Seq::new(calls.len(), |i: int| calls[i].surface)
}

impl<R> DriverModel<R> {
    /// One presentation call from its arrival to the call of the original
    /// function: the driver is told of the call; a request to build the
    /// overlay is answered with the call's outcome; a request to draw is
    /// answered, when the frame is done, with the resources as they come
    /// back. Every action is counted as it is issued.
    pub open spec fn presentation(self, call: PresentationCall<R>, tally: Tally) -> (
        DriverModel<R>,
        Tally,
    ) {
        let (presented, first) = self.present(call.surface, call.now);
        let counted = tally.with(first);
        match first {
            ActionModel::Initialize { .. } => {
                let (built, second) = presented.init_finished(call.init);
                match second {
                    ActionModel::Render { .. } => {
                        let (drawn, third) = built.frame_finished(call.returned);
                        (drawn, counted.with(second).with(third))
                    },
                    _ => (built, counted.with(second)),
                }
            },
            ActionModel::Render { .. } => {
                let (drawn, second) = presented.frame_finished(call.returned);
                (drawn, counted.with(second))
            },
            _ => (presented, counted),
        }
    }

    /// The presentation calls `calls`, one after the other.
    pub open spec fn presentations(self, calls: Seq<PresentationCall<R>>, tally: Tally) -> (
        DriverModel<R>,
        Tally,
    )
        decreases calls.len(),
    {
        if calls.len() == 0 {
            (self, tally)
        } else {
            let (next, counted) = self.presentation(calls.first(), tally);
            next.presentations(calls.drop_first(), counted)
        }
    }
}

/// A presentation call that finds the driver at rest leaves it at rest, and
/// calls the original function once, last, with the surface that the call
/// came with. The overlay is to be built in this call exactly if no call
/// came before, and after the call it is never to be built again: the driver
/// is ready or disabled. A frame is to be drawn exactly if the overlay is
/// built by the end of the call, and it is timed by the call. Of a built
/// overlay the call changes nothing but what the frame has read: the keys
/// and buttons that are held, the pointer and the displaced procedure are
/// as they were, and the wheels and the character queue are at rest.
pub proof fn law_presentation_ends_in_original<R>(
    driver: DriverModel<R>,
    call: PresentationCall<R>,
    tally: Tally,
)
    requires
        driver.at_rest(),
    ensures
        ({
            let (next, counted) = driver.presentation(call, tally);
            &&& next.at_rest()
            &&& !(next.state is Uninitialized)
            &&& counted.originals == tally.originals.push(call.surface)
            &&& counted.initializations == tally.initializations + (if driver.state
                is Uninitialized {
                1nat
            } else {
                0nat
            })
            &&& next.timing == driver.timing.advanced(call.now)
            &&& counted.frames == if next.state is Ready {
                tally.frames.push(next.timing)
            } else {
                tally.frames
            }
            &&& driver.state is Disabled ==> next.state == driver.state
            &&& driver.state matches StateModel::Ready(overlay, _) ==> next.state
                matches StateModel::Ready(after, _) && after == (OverlayModel {
                input: overlay.input.consumed(),
                ..overlay
            })
            &&& driver.state is Uninitialized ==> (build_meaning(call.init) is Ok <==> next.state
                is Ready)
            &&& driver.state is Uninitialized && build_meaning(call.init) is Err ==> next.state
                == StateModel::<R>::Disabled(build_meaning(call.init)->Err_0)
            &&& next.state matches StateModel::Ready(_, backend) ==> backend == call.returned
        }),
{
}

/// Any number of presentation calls from rest: the overlay is to be built
/// once if the driver was fresh and there is a call at all, and otherwise
/// not; the original function is called once per call, in order, each time
/// with the surface that the call came with.
pub proof fn lemma_presentations<R>(
    driver: DriverModel<R>,
    calls: Seq<PresentationCall<R>>,
    tally: Tally,
)
    requires
        driver.at_rest(),
    ensures
        driver.presentations(calls, tally).0.at_rest(),
        driver.presentations(calls, tally).1.initializations == tally.initializations + (
        if driver.state is Uninitialized && calls.len() > 0 {
            1nat
        } else {
            0nat
        }),
        driver.presentations(calls, tally).1.originals == tally.originals + surfaces_of(calls),
    decreases calls.len(),
{
    if calls.len() > 0 {
        let (next, counted) = driver.presentation(calls.first(), tally);
        law_presentation_ends_in_original(driver, calls.first(), tally);
        lemma_presentations(next, calls.drop_first(), counted);
    }
}

/// Over one or more presentation calls to a fresh driver, whatever their
/// surfaces and times and however the attempt to build the overlay ends: the
/// overlay is to be built exactly once, and the original presentation
/// function is called exactly once per call, in order, each time with the
/// surface that the call came with.
pub proof fn law_initialization_runs_once<R>(calls: Seq<PresentationCall<R>>)
    requires
        calls.len() >= 1,
    ensures
        DriverModel::<R>::fresh().presentations(calls, Tally::zero()).1.initializations == 1,
        DriverModel::<R>::fresh().presentations(calls, Tally::zero()).1.originals == surfaces_of(
            calls,
        ),
        DriverModel::<R>::fresh().presentations(calls, Tally::zero()).1.originals.len()
            == calls.len(),
{
    lemma_presentations(DriverModel::<R>::fresh(), calls, Tally::zero());
}

/// The overlay is whole or absent: the window's procedure is displaced
/// exactly when the overlay is built, no entry point of the driver builds
/// the overlay but the report of a successful build, and none takes a built
/// overlay apart.
pub proof fn law_overlay_is_whole_or_absent<R>(
    driver: DriverModel<R>,
    surface: isize,
    now: u64,
    outcome: Result<Installed<R>, InitError>,
    backend: R,
    message: u32,
    wparam: usize,
    lparam: isize,
)
    ensures
        driver.interceptor() is Armed <==> driver.built(),
        DriverModel::<R>::fresh().interceptor() == Interceptor::Unarmed,
        driver.present(surface, now).0.interceptor() == driver.interceptor(),
        driver.frame_finished(backend).0.interceptor() == driver.interceptor(),
        driver.window_event(message, wparam, lparam).0.interceptor() == driver.interceptor(),
        driver.init_finished(outcome).0.interceptor() == if driver.state is Initializing
            && build_meaning(outcome) is Ok {
            Interceptor::Armed(outcome->Ok_0.displaced)
        } else {
            driver.interceptor()
        },
        driver.window_event(message, wparam, lparam).1 == driver.interceptor().decision(
            message,
            wparam,
            lparam,
        ),
{
}

/// A driver that is well formed stays so, whatever happens to it, and a
/// fresh driver is well formed: a built overlay always has a displaced
/// procedure to forward to, and its input is always well formed.
pub proof fn law_driver_stays_well_formed<R>(
    driver: DriverModel<R>,
    surface: isize,
    now: u64,
    outcome: Result<Installed<R>, InitError>,
    backend: R,
    message: u32,
    wparam: usize,
    lparam: isize,
)
    requires
        driver.wf(),
    ensures
        DriverModel::<R>::fresh().wf(),
        driver.present(surface, now).0.wf(),
        driver.init_finished(outcome).0.wf(),
        driver.frame_finished(backend).0.wf(),
        driver.window_event(message, wparam, lparam).0.wf(),
        driver.window_event(message, wparam, lparam).1 matches Some(Disposition::Forward(event))
            ==> event.procedure != 0,
{
}

/// A driver that is disabled stays disabled: every presentation call goes
/// straight to the original function, and no report changes that.
pub proof fn law_disabled_is_final<R>(
    driver: DriverModel<R>,
    surface: isize,
    now: u64,
    outcome: Result<Installed<R>, InitError>,
    backend: R,
    message: u32,
    wparam: usize,
    lparam: isize,
)
    requires
        driver.state is Disabled,
    ensures
        driver.present(surface, now).0.state == driver.state,
        driver.present(surface, now).1 == (ActionModel::<R>::CallOriginal { surface }),
        driver.init_finished(outcome) == (driver, ActionModel::<R>::Nothing),
        driver.frame_finished(backend) == (driver, ActionModel::<R>::Nothing),
        driver.window_event(message, wparam, lparam) == (driver, None::<Disposition>),
{
}

/// The driver reads the input and writes none of it but the two wheels and
/// the character queue, which the presentation call that draws a frame puts
/// to rest once: whatever is reported to the driver of a built overlay, the
/// keys and buttons that are held and the pointer are afterwards as they
/// were, and so is the displaced procedure.
pub proof fn law_driver_only_reads_input<R>(
    driver: DriverModel<R>,
    surface: isize,
    now: u64,
    outcome: Result<Installed<R>, InitError>,
    backend: R,
)
    requires
        driver.built(),
    ensures
        ({
            let before = overlay_of(driver);
            let presented = overlay_of(driver.present(surface, now).0);
            let drawn = overlay_of(driver.frame_finished(backend).0);
            let reported = overlay_of(driver.init_finished(outcome).0);
            &&& driver.present(surface, now).0.built()
            &&& driver.frame_finished(backend).0.built()
            &&& driver.init_finished(outcome).0.built()
            &&& presented == if driver.state is Ready {
                OverlayModel { input: before.input.consumed(), ..before }
            } else {
                before
            }
            &&& presented.input.keys_down == before.input.keys_down
            &&& presented.input.mouse_down == before.input.mouse_down
            &&& presented.input.pointer == before.input.pointer
            &&& drawn == before
            &&& reported == before
        }),
{
}

/// What the wheels gather and what is typed reaches exactly one frame: the
/// frame that a presentation call asks for reads all that was gathered, and
/// a frame that follows it at once reads wheels at rest and no characters,
/// with the same keys and buttons held and the pointer where it was.
pub proof fn law_gathered_input_is_read_once<R>(
    driver: DriverModel<R>,
    first: PresentationCall<R>,
    second: PresentationCall<R>,
)
    requires
        driver.state is Ready,
        driver.wf(),
    ensures
        ({
            let gathered = driver.state->Ready_0.input;
            let (drawing, frame) = driver.present(first.surface, first.now);
            let (rested, _) = drawing.frame_finished(first.returned);
            let (_, next) = rested.present(second.surface, second.now);
            &&& frame matches ActionModel::Render { input, .. } && input == gathered
            &&& next matches ActionModel::Render { input, .. } && input == (InputModel {
                wheel: 0,
                wheel_horizontal: 0,
                characters: Seq::<char>::empty(),
                ..gathered
            })
        }),
{
}

} // verus!
