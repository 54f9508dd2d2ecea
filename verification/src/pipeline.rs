//! The per-frame control loop as a state machine. The caller owns the camera,
//! the detection engine and the preview surface: it performs the action that
//! the machine hands out and reports what came of it as the next event.

use vstd::prelude::*;
use crate::detector::DetectorClass;
use crate::detector::Outline;
use crate::detector::ScanParams;
use crate::error::CustomError;
use crate::error::CustomErrorView;

verus! {

/// A bounding box reported by the detection engine.
#[derive(Clone, Copy, Debug, PartialEq, Eq, Structural)]
pub struct Rect {
    pub x: i32,
    pub y: i32,
    pub width: i32,
    pub height: i32,
}

/// What the loop is waiting for.
#[derive(Clone, Copy, Debug, PartialEq, Eq, Structural)]
pub enum Phase {
    /// A frame from the camera.
    Capture,
    /// The boxes that the class's detector finds on the annotated frame.
    Scan(DetectorClass),
    /// The class's boxes being drawn and, where asked for, the snapshot being
    /// written.
    Mark(DetectorClass),
    /// The annotated frame being shown.
    Present,
    /// The preview surface handling its events.
    Yield,
    /// Nothing: the loop has ended on a failure.
    Stopped,
}

/// What the caller reports back.
#[derive(Clone, Debug, PartialEq, Eq)]
pub enum Event {
    /// A frame was read; `width` is its width in pixels.
    Frame { width: i32 },
    /// The detection engine returned these boxes, in this order.
    Boxes(Vec<Rect>),
    Marked,
    Shown,
    Yielded,
    /// The action failed, with this error.
    Failed { error: CustomError },
}

/// What the caller is to do next.
#[derive(Clone, Debug, PartialEq, Eq)]
pub enum Action {
    /// Read the next frame. The frame read before, if any, is dropped; a new
    /// one is duplicated and the copy becomes the annotated frame.
    ReadFrame,
    /// Convert the annotated frame as it is now to grayscale and scan it.
    Detect { class: DetectorClass, params: ScanParams },
    /// Draw each box, in order, onto the annotated frame; then, if `persist`
    /// is set, notify the user and write a snapshot of the annotated frame.
    Annotate { class: DetectorClass, outline: Outline, boxes: Vec<Rect>, persist: bool },
    /// Show the annotated frame.
    Show,
    /// Let the preview surface work for this many milliseconds.
    Wait { millis: i32 },
    /// Give up with the error: no failure is recovered from.
    Abort { error: CustomError },
}

pub enum EventView {
    Frame { width: i32 },
    Boxes(Seq<Rect>),
    Marked,
    Shown,
    Yielded,
    Failed { error: CustomErrorView },
}

pub enum ActionView {
    ReadFrame,
    Detect { class: DetectorClass, params: ScanParams },
    Annotate { class: DetectorClass, outline: Outline, boxes: Seq<Rect>, persist: bool },
    Show,
    Wait { millis: i32 },
    Abort { error: CustomErrorView },
}

impl View for Event {
    type V = EventView;

    open spec fn view(&self) -> EventView {
        match *self {
            Event::Frame { width } => EventView::Frame { width },
            Event::Boxes(boxes) => EventView::Boxes(boxes@),
            Event::Marked => EventView::Marked,
            Event::Shown => EventView::Shown,
            Event::Yielded => EventView::Yielded,
            Event::Failed { error } => EventView::Failed { error: error@ },
        }
    }
}

impl View for Action {
    type V = ActionView;

    open spec fn view(&self) -> ActionView {
        match *self {
            Action::ReadFrame => ActionView::ReadFrame,
            Action::Detect { class, params } => ActionView::Detect { class, params },
            Action::Annotate { class, outline, boxes, persist } => ActionView::Annotate {
                class,
                outline,
                boxes: boxes@,
                persist,
            },
            Action::Show => ActionView::Show,
            Action::Wait { millis } => ActionView::Wait { millis },
            Action::Abort { error } => ActionView::Abort { error: error@ },
        }
    }
}

/// The machine's answer to an event.
#[derive(Clone, Debug, PartialEq, Eq)]
pub struct Step {
    pub phase: Phase,
    pub action: Action,
}

/// The shortest pause between two frames, in milliseconds.
pub const PREVIEW_PAUSE_MILLIS: i32 = 1;

/// The scan of `class` on the annotated frame.
pub open spec fn spec_detect(class: DetectorClass) -> (Phase, ActionView) {
    (Phase::Scan(class), ActionView::Detect { class, params: class.spec_params() })
}

/// What the machine does in `phase` when `event` arrives: the next phase and
/// the action to perform, or `None` where the event does not answer the
/// action that led to the phase.
pub open spec fn spec_advance(phase: Phase, event: EventView) -> Option<(Phase, ActionView)> {
    match (phase, event) {
        (Phase::Stopped, _) => None,
        (_, EventView::Failed { error }) => Some((Phase::Stopped, ActionView::Abort { error })),
        (Phase::Capture, EventView::Frame { width }) => if width > 0 {
            Some(spec_detect(DetectorClass::Face))
        } else {
            Some((Phase::Capture, ActionView::ReadFrame))
        },
        (Phase::Scan(class), EventView::Boxes(boxes)) => Some(
            (
                Phase::Mark(class),
                ActionView::Annotate {
                    class,
                    outline: class.spec_outline(),
                    boxes,
                    persist: boxes.len() > 0,
                },
            ),
        ),
        (Phase::Mark(class), EventView::Marked) => match class.spec_successor() {
            Some(next) => Some(spec_detect(next)),
            None => Some((Phase::Present, ActionView::Show)),
        },
        (Phase::Present, EventView::Shown) => Some(
            (Phase::Yield, ActionView::Wait { millis: PREVIEW_PAUSE_MILLIS }),
        ),
        (Phase::Yield, EventView::Yielded) => Some((Phase::Capture, ActionView::ReadFrame)),
        _ => None,
    }
}

/// The phase reached and the actions handed out, in order, when the first
/// `n` of `events` arrive one after another from `phase` on; `None` where one
/// of them is not accepted.
pub open spec fn spec_run(phase: Phase, events: Seq<EventView>, n: nat) -> Option<
    (Phase, Seq<ActionView>),
>
    decreases n,
{
    if n == 0 {
        Some((phase, Seq::empty()))
    } else {
        match spec_run(phase, events, (n - 1) as nat) {
            None => None,
            Some((before, actions)) => match spec_advance(before, events[n - 1]) {
                None => None,
                Some((after, action)) => Some((after, actions.push(action))),
            },
        }
    }
}

/// The annotation of a frame with the boxes that the detector of `class`
/// found on it.
pub open spec fn spec_annotate(class: DetectorClass, boxes: Seq<Rect>) -> ActionView {
    ActionView::Annotate { class, outline: class.spec_outline(), boxes, persist: boxes.len() > 0 }
}

/// The events of one frame that is `width > 0` pixels wide and on which the
/// four detectors find `face`, `eye`, `body` and `cat`.
pub open spec fn frame_events(
    width: i32,
    face: Seq<Rect>,
    eye: Seq<Rect>,
    body: Seq<Rect>,
    cat: Seq<Rect>,
) -> Seq<EventView> {
    seq![
        EventView::Frame { width },
        EventView::Boxes(face),
        EventView::Marked,
        EventView::Boxes(eye),
        EventView::Marked,
        EventView::Boxes(body),
        EventView::Marked,
        EventView::Boxes(cat),
        EventView::Marked,
        EventView::Shown,
        EventView::Yielded,
    ]
}

/// The actions that answer `frame_events`.
pub open spec fn frame_actions(face: Seq<Rect>, eye: Seq<Rect>, body: Seq<Rect>, cat: Seq<Rect>) -> Seq<
    ActionView,
> {
    seq![
        spec_detect(DetectorClass::Face).1,
        spec_annotate(DetectorClass::Face, face),
        spec_detect(DetectorClass::Eye).1,
        spec_annotate(DetectorClass::Eye, eye),
        spec_detect(DetectorClass::Body).1,
        spec_annotate(DetectorClass::Body, body),
        spec_detect(DetectorClass::CatFace).1,
        spec_annotate(DetectorClass::CatFace, cat),
        ActionView::Show,
        ActionView::Wait { millis: PREVIEW_PAUSE_MILLIS },
        ActionView::ReadFrame,
    ]
}

/// The phase in which the loop starts, with its first action.
pub fn start() -> (step: Step)
    ensures
        step.phase == Phase::Capture,
        step.action@ == ActionView::ReadFrame,
{
    Step { phase: Phase::Capture, action: Action::ReadFrame }
}

fn detect(class: DetectorClass) -> (step: Step)
    ensures
        (step.phase, step.action@) == spec_detect(class),
{
    Step { phase: Phase::Scan(class), action: Action::Detect { class, params: class.params() } }
}

/// Answers `event` in `phase`.
pub fn advance(phase: Phase, event: Event) -> (step: Option<Step>)
    ensures
        match spec_advance(phase, event@) {
            Some((next, action)) => step matches Some(s) && s.phase == next && s.action@ == action,
            None => step is None,
        },
{
    match (phase, event) {
        (Phase::Stopped, _) => None,
        (_, Event::Failed { error }) => Some(
            Step { phase: Phase::Stopped, action: Action::Abort { error } },
        ),
        (Phase::Capture, Event::Frame { width }) => {
            if width > 0 {
                Some(detect(DetectorClass::first()))
            } else {
                Some(start())
            }
        },
        (Phase::Scan(class), Event::Boxes(boxes)) => {
            let persist = boxes.len() > 0;
            Some(
                Step {
                    phase: Phase::Mark(class),
                    action: Action::Annotate { class, outline: class.outline(), boxes, persist },
                },
            )
        },
        (Phase::Mark(class), Event::Marked) => {
            match class.successor() {
                Some(next) => Some(detect(next)),
                None => Some(Step { phase: Phase::Present, action: Action::Show }),
            }
        },
        (Phase::Present, Event::Shown) => Some(
            Step { phase: Phase::Yield, action: Action::Wait { millis: PREVIEW_PAUSE_MILLIS } },
        ),
        (Phase::Yield, Event::Yielded) => Some(start()),
        _ => None,
    }
}

/// A frame without width is passed over: the machine asks for the next frame
/// at once, so that no detector runs on it, nothing is drawn or written, and
/// nothing is shown.
pub proof fn law_empty_frame_is_skipped(width: i32)
    requires
        width <= 0,
    ensures
        spec_advance(Phase::Capture, EventView::Frame { width }) == Some(
            (Phase::Capture, ActionView::ReadFrame),
        ),
        spec_run(Phase::Capture, seq![EventView::Frame { width }], 1) == Some(
            (Phase::Capture, seq![ActionView::ReadFrame]),
        ),
{
    reveal_with_fuel(spec_run, 2);
    let events = seq![EventView::Frame { width }];
    let out = spec_run(Phase::Capture, events, 1);
    assert(out is Some);
    assert(out.unwrap().1 =~= seq![ActionView::ReadFrame]);
}

/// A frame with width passes through the four detectors in the fixed order.
/// Each detector is run exactly once, with its class's parameters; exactly
/// the boxes it found are drawn, in its class's outline; a snapshot is asked
/// for once for each class that found a box and for no other; then the frame
/// is shown, the loop pauses, and the next frame is asked for.
pub proof fn law_frame_passes_every_detector(
    width: i32,
    face: Seq<Rect>,
    eye: Seq<Rect>,
    body: Seq<Rect>,
    cat: Seq<Rect>,
)
    requires
        width > 0,
    ensures
        spec_run(Phase::Capture, frame_events(width, face, eye, body, cat), 11) == Some(
            (Phase::Capture, frame_actions(face, eye, body, cat)),
        ),
{
    reveal_with_fuel(spec_run, 12);
    let events = frame_events(width, face, eye, body, cat);
    let out = spec_run(Phase::Capture, events, 11);
    assert(out is Some);
    assert(out.unwrap().0 == Phase::Capture);
    assert(out.unwrap().1 =~= frame_actions(face, eye, body, cat));
}

/// A failure of any action ends the loop with the error it came with: no
/// detector is skipped over and nothing is tried again. Once the loop has
/// ended, no event is accepted.
pub proof fn law_failure_stops_the_loop(phase: Phase, error: CustomErrorView, event: EventView)
    ensures
        phase != Phase::Stopped ==> spec_advance(phase, EventView::Failed { error }) == Some(
            (Phase::Stopped, ActionView::Abort { error }),
        ),
        spec_advance(Phase::Stopped, event) is None,
{
}

/// A snapshot is asked for exactly when the detector found something, and
/// the boxes to draw are the boxes found.
pub proof fn law_snapshot_iff_detection(class: DetectorClass, boxes: Seq<Rect>)
    ensures
        spec_advance(Phase::Scan(class), EventView::Boxes(boxes)) == Some(
            (Phase::Mark(class), spec_annotate(class, boxes)),
        ),
        spec_annotate(class, boxes)->persist <==> boxes.len() > 0,
        spec_annotate(class, boxes)->boxes == boxes,
        spec_annotate(class, boxes)->outline.color == class.spec_color(),
{
}

/// What `action` adds to a count kept for `class`: one where it asks for a
/// snapshot of the class, and every box where it draws for the class.
pub open spec fn spec_tally(action: ActionView, class: DetectorClass) -> (nat, nat) {
    match action {
        ActionView::Annotate { class: marked, boxes, persist, .. } => if marked == class {
            (
                if persist {
                    1nat
                } else {
                    0nat
                },
                boxes.len(),
            )
        } else {
            (0, 0)
        },
        _ => (0, 0),
    }
}

/// How many snapshots of `class` the first `n` of `actions` ask for.
pub open spec fn spec_snapshots(actions: Seq<ActionView>, class: DetectorClass, n: nat) -> nat
    decreases n,
{
    if n == 0 {
        0
    } else {
        spec_snapshots(actions, class, (n - 1) as nat) + spec_tally(actions[n - 1], class).0
    }
}

/// How many boxes the first `n` of `actions` draw for `class`.
pub open spec fn spec_rectangles(actions: Seq<ActionView>, class: DetectorClass, n: nat) -> nat
    decreases n,
{
    if n == 0 {
        0
    } else {
        spec_rectangles(actions, class, (n - 1) as nat) + spec_tally(actions[n - 1], class).1
    }
}

/// Over one frame, each class has as many boxes drawn as its detector
/// found, and has one snapshot asked for where its detector found any and
/// none where it found nothing, whatever the other detectors found.
pub proof fn law_one_snapshot_per_firing_class(
    face: Seq<Rect>,
    eye: Seq<Rect>,
    body: Seq<Rect>,
    cat: Seq<Rect>,
    class: DetectorClass,
)
    ensures
        ({
            let actions = frame_actions(face, eye, body, cat);
            let found = match class {
                DetectorClass::Face => face,
                DetectorClass::Eye => eye,
                DetectorClass::Body => body,
                DetectorClass::CatFace => cat,
            };
            &&& spec_rectangles(actions, class, actions.len()) == found.len()
            &&& spec_snapshots(actions, class, actions.len()) == if found.len() > 0 {
                1nat
            } else {
                0nat
            }
        }),
{
    reveal_with_fuel(spec_snapshots, 12);
    reveal_with_fuel(spec_rectangles, 12);
}

} // verus!
