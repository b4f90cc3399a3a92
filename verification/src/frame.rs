//! The frame loop: a two-state machine driven by input events, and what is
//! drawn in each frame while it runs.

use crate::mesh::QUAD_INDICES;
use crate::ratio::Ratio;
use vstd::prelude::*;

verus! {

/// An input event as the loop sees it: only a request to quit matters.
#[derive(Clone, Copy, Debug, PartialEq, Eq, Structural)]
pub enum InputEvent {
    /// The user or the platform asked the program to end.
    Quit,
    /// Any other event; the loop ignores it.
    Other,
}

/// The state of the frame loop.
#[derive(Clone, Copy, Debug, PartialEq, Eq, Structural)]
pub enum LoopState {
    /// Frames are being drawn.
    Running,
    /// A quit event was seen; no further frame is drawn.
    Quitting,
}

/// One thing that is done to the graphics card in a frame.
#[derive(Clone, Copy, Debug, PartialEq, Eq, Structural)]
pub enum FrameCommand {
    /// Work out the frame's matrix and store it in the transform uniform.
    UploadTransform,
    /// Clear the colour buffer.
    Clear,
    /// Draw triangles from the index buffer, `indices` indices in all.
    DrawTriangles { indices: i32 },
    /// Present the frame.
    Present,
}

/// One step in composing the frame's matrix. Each step is applied in the
/// space that the steps before it have made.
#[derive(Clone, Copy, Debug, PartialEq, Eq, Structural)]
pub enum TransformStep {
    /// Scale evenly by a fixed factor.
    Scale(Ratio),
    /// Rotate about the z axis by one radian for each second that has passed
    /// since the loop began.
    RotateAboutZ,
    /// Scale evenly by `amplitude * sin(t) + offset`, where `t` is the
    /// number of seconds that have passed since the loop began.
    Pulse { amplitude: Ratio, offset: Ratio },
}

impl LoopState {
    /// The state that follows `self` when `event` arrives.
    pub open spec fn step(self, event: InputEvent) -> LoopState {
        if event == InputEvent::Quit {
            LoopState::Quitting
        } else {
            self
        }
    }

    /// The state that follows `self` once every event of `events` has arrived, in order.
    pub open spec fn run(self, events: Seq<InputEvent>) -> LoopState
        decreases events.len(),
    {
        if events.len() == 0 {
            self
        } else {
            self.step(events.first()).run(events.drop_first())
        }
    }

    /// Handles one event.
    pub fn on_event(self, event: InputEvent) -> (next: LoopState)
        ensures
            next == self.step(event),
    {
        match event {
            InputEvent::Quit => LoopState::Quitting,
            InputEvent::Other => self,
        }
    }

    /// Handles the events that have queued up since the last frame.
    ///
    /// The loop quits if it was quitting already or if any of the events asks
    /// for it; otherwise it keeps running.
    pub fn on_events(self, events: &Vec<InputEvent>) -> (next: LoopState)
        ensures
            next == self.run(events@),
            (next == LoopState::Quitting) == (self == LoopState::Quitting || events@.contains(
                InputEvent::Quit,
            )),
    {
        let mut state: LoopState = self;
        let mut i: usize = 0;
        assert(events@.skip(0) == events@);
        while i < events.len()
            invariant
                i <= events.len(),
                state.run(events@.skip(i as int)) == self.run(events@),
            decreases events.len() - i,
        {
            assert(events@.skip(i as int).drop_first() == events@.skip(i + 1));
            state = state.on_event(events[i]);
            i += 1;
        }
        proof {
            lemma_run_quits(self, events@);
        }
        state
    }
}

/// What is done in one frame, in order.
pub open spec fn frame_plan() -> Seq<FrameCommand> {
    seq![
        FrameCommand::UploadTransform,
        FrameCommand::Clear,
        FrameCommand::DrawTriangles { indices: 6 },
        FrameCommand::Present,
    ]
}

/// How the frame's matrix is composed, starting from the identity: the quad
/// is halved, turned with time, and made to pulse.
pub open spec fn transform_recipe() -> Seq<TransformStep> {
    seq![
        TransformStep::Scale(Ratio { num: 1, den: 2 }),
        TransformStep::RotateAboutZ,
        TransformStep::Pulse {
            amplitude: Ratio { num: 1, den: 4 },
            offset: Ratio { num: 3, den: 4 },
        },
    ]
}

/// The colour that clears the frame: red, green, blue and alpha.
pub open spec fn clear_rgba() -> Seq<Ratio> {
    seq![
        Ratio { num: 1, den: 5 },
        Ratio { num: 3, den: 10 },
        Ratio { num: 3, den: 10 },
        Ratio { num: 1, den: 1 },
    ]
}

/// Begins an iteration of the loop: handles the queued events and says what
/// to do to the graphics card.
///
/// While the loop runs, that is one whole frame. Once an event has asked to
/// quit, it is nothing: the frame in which the event arrives is not drawn.
pub fn next_frame(state: LoopState, events: &Vec<InputEvent>) -> (out: (
    LoopState,
    Vec<FrameCommand>,
))
    ensures
        out.0 == state.run(events@),
        (out.0 == LoopState::Quitting) == (state == LoopState::Quitting || events@.contains(
            InputEvent::Quit,
        )),
        out.1@ == if out.0 == LoopState::Running {
            frame_plan()
        } else {
            Seq::<FrameCommand>::empty()
        },
{
    let next: LoopState = state.on_events(events);
    let mut commands: Vec<FrameCommand> = Vec::new();
    match next {
        LoopState::Quitting => {},
        LoopState::Running => {
            commands.push(FrameCommand::UploadTransform);
            commands.push(FrameCommand::Clear);
            commands.push(FrameCommand::DrawTriangles { indices: QUAD_INDICES as i32 });
            commands.push(FrameCommand::Present);
            assert(commands@ =~= frame_plan());
        },
    }
    (next, commands)
}

/// The steps that compose the frame's matrix, in order.
pub fn transform_steps() -> (steps: Vec<TransformStep>)
    ensures
        steps@ == transform_recipe(),
{
    let mut steps: Vec<TransformStep> = Vec::new();
    steps.push(TransformStep::Scale(Ratio::new(1, 2)));
    steps.push(TransformStep::RotateAboutZ);
    steps.push(TransformStep::Pulse { amplitude: Ratio::new(1, 4), offset: Ratio::new(3, 4) });
    assert(steps@ =~= transform_recipe());
    steps
}

/// The colour that clears the frame, each channel a well-formed fraction.
pub fn clear_color() -> (rgba: Vec<Ratio>)
    ensures
        rgba@ == clear_rgba(),
        forall|i: int| 0 <= i < rgba@.len() ==> (#[trigger] rgba@[i]).wf(),
{
    let mut rgba: Vec<Ratio> = Vec::new();
    rgba.push(Ratio::new(1, 5));
    rgba.push(Ratio::new(3, 10));
    rgba.push(Ratio::new(3, 10));
    rgba.push(Ratio::whole(1));
    assert(rgba@ =~= clear_rgba());
    rgba
}

/// The numerator of `amplitude * sine + offset` over the denominator [`pulse_den`].
pub open spec fn pulse_num(amplitude: Ratio, offset: Ratio, sine: Ratio) -> int {
    amplitude.num * sine.num * offset.den + offset.num * (amplitude.den * sine.den)
}

/// The denominator of `amplitude * sine + offset` under the numerator [`pulse_num`].
pub open spec fn pulse_den(amplitude: Ratio, offset: Ratio, sine: Ratio) -> int {
    amplitude.den * sine.den * offset.den
}

/// A quarter of `sine` and three quarters, over a common denominator.
proof fn lemma_pulse_value(sine: Ratio)
    ensures
        pulse_num(Ratio { num: 1, den: 4 }, Ratio { num: 3, den: 4 }, sine) == 4 * sine.num + 12
            * sine.den,
        pulse_den(Ratio { num: 1, den: 4 }, Ratio { num: 3, den: 4 }, sine) == 16 * sine.den,
{
    let a: int = 1;
    let b: int = 4;
    let c: int = 3;
    let sn: int = sine.num as int;
    let sd: int = sine.den as int;
    assert(a * sn * b + c * (b * sd) == 4 * sn + 12 * sd && b * sd * b == 16 * sd)
        by (nonlinear_arith)
        requires
            a == 1,
            b == 4,
            c == 3,
    ;
}

/// A sequence of events leaves the loop quitting exactly when the loop was
/// quitting before or one of the events asks to quit.
pub proof fn lemma_run_quits(state: LoopState, events: Seq<InputEvent>)
    ensures
        (state.run(events) == LoopState::Quitting) == (state == LoopState::Quitting
            || events.contains(InputEvent::Quit)),
    decreases events.len(),
{
    if events.len() > 0 {
        let rest = events.drop_first();
        lemma_run_quits(state.step(events.first()), rest);
        if rest.contains(InputEvent::Quit) {
            let k = choose|k: int| 0 <= k < rest.len() && rest[k] == InputEvent::Quit;
            assert(events[k + 1] == InputEvent::Quit);
        }
        if events.contains(InputEvent::Quit) && events.first() != InputEvent::Quit {
            let k = choose|k: int| 0 <= k < events.len() && events[k] == InputEvent::Quit;
            assert(rest[k - 1] == InputEvent::Quit);
        }
    }
}

/// A quit event ends the loop within the iteration that reads it.
///
/// Whatever the loop has seen before and whatever else is queued with it, an
/// iteration that reads a quit event leaves the loop quitting and draws
/// nothing, and no later event brings the loop back.
pub proof fn lemma_quit_is_final(
    state: LoopState,
    before: Seq<InputEvent>,
    after: Seq<InputEvent>,
    later: Seq<InputEvent>,
)
    ensures
        state.run(before + seq![InputEvent::Quit] + after) == LoopState::Quitting,
        state.run(before + seq![InputEvent::Quit] + after).run(later) == LoopState::Quitting,
{
    let events = before + seq![InputEvent::Quit] + after;
    assert(events[before.len() as int] == InputEvent::Quit);
    lemma_run_quits(state, events);
    lemma_run_quits(LoopState::Quitting, later);
}

/// The pulse stays between a half and one.
///
/// For every sine between minus one and one, given as a well-formed
/// fraction, a quarter of the sine and three quarters lies between a half
/// and one, both ends included.
pub proof fn lemma_pulse_in_range(sine: Ratio)
    requires
        sine.wf(),
        -sine.den <= sine.num <= sine.den,
    ensures
        ({
            let amplitude = Ratio { num: 1, den: 4 };
            let offset = Ratio { num: 3, den: 4 };
            let n = pulse_num(amplitude, offset, sine);
            let d = pulse_den(amplitude, offset, sine);
            &&& transform_recipe()[2] == (TransformStep::Pulse { amplitude, offset })
            &&& d > 0
            &&& d <= 2 * n
            &&& n <= d
        }),
{
    lemma_pulse_value(sine);
}

/// At rest the quad is drawn at three eighths of its size.
///
/// Where the sine is zero, as it is at the start of the loop, the fixed scale
/// of a half and the pulse of three quarters multiply to three eighths.
pub proof fn lemma_scale_at_rest()
    ensures
        ({
            let amplitude = Ratio { num: 1, den: 4 };
            let offset = Ratio { num: 3, den: 4 };
            let sine = Ratio { num: 0, den: 1 };
            let n = pulse_num(amplitude, offset, sine);
            let d = pulse_den(amplitude, offset, sine);
            &&& transform_recipe()[0] == TransformStep::Scale(Ratio { num: 1, den: 2 })
            &&& transform_recipe()[2] == (TransformStep::Pulse { amplitude, offset })
            &&& (1 * n) * 8 == 3 * (2 * d)
        }),
{
    lemma_pulse_value(Ratio { num: 0, den: 1 });
}

} // verus!
