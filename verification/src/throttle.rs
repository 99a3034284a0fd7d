//! The capture throttle: which cursor moves ask for a capture, and of which
//! screen rectangle.

use crate::placement::MonitorGeometry;
use vstd::prelude::*;

verus! {

/// Width of every capture region, in pixels.
pub const REGION_WIDTH: u32 = 30;

/// Height of every capture region, in pixels.
pub const REGION_HEIGHT: u32 = 30;

/// How far left of the cursor a capture region starts.
pub const REGION_INSET_X: i32 = 15;

/// How far above the cursor a capture region starts.
pub const REGION_INSET_Y: i32 = 20;

/// The cursor position of one tracking event, in screen pixels.
#[derive(Clone, Copy, Debug, PartialEq, Eq, Structural)]
pub struct CursorSample {
    /// The horizontal position, rounded toward zero.
    pub x: i32,
    /// The vertical position, rounded toward zero.
    pub y: i32,
    /// Whether the reported position lies between whole pixels on either
    /// axis, so that `x` and `y` are not the position itself.
    pub fractional: bool,
}

/// The flags of one pick interaction.
#[derive(Clone, Copy, Debug, PartialEq, Eq, Structural)]
pub struct CaptureState {
    /// A move was recorded and the next one asks for a capture.
    pub position_changed: bool,
    /// A preview of the current position is on display.
    pub has_preview: bool,
    /// A capture was asked for and has not been resolved.
    pub is_capturing: bool,
    /// The overlay follows the cursor with a fresh preview.
    pub moving: bool,
}

/// The screen rectangle to capture.
#[derive(Clone, Copy, Debug, PartialEq, Eq)]
pub struct CaptureRegion {
    pub origin: (i32, i32),
    pub width: u32,
    pub height: u32,
}

impl CursorSample {
    /// The reserved position `(0, 0)`, which stands for "no position". A
    /// position between pixels is never the sentinel, whatever it rounds to.
    pub open spec fn is_sentinel(&self) -> bool {
        self.x == 0 && self.y == 0 && !self.fractional
    }

    /// Whether this sample is the reserved "no position" value.
    pub fn is_none(&self) -> (out: bool)
        ensures
            out == self.is_sentinel(),
    {
        self.x == 0 && self.y == 0 && !self.fractional
    }

    /// The sample at a whole pixel.
    pub fn at(x: i32, y: i32) -> (out: CursorSample)
        ensures
            out == (CursorSample { x, y, fractional: false }),
    {
        CursorSample { x, y, fractional: false }
    }
}

/// The state with every flag cleared.
pub open spec fn idle() -> CaptureState {
    CaptureState { position_changed: false, has_preview: false, is_capturing: false, moving: false }
}

/// A coordinate moved back by `inset`, and up to zero where that is negative.
pub open spec fn inset_coordinate(cursor: i32, inset: i32) -> int {
    if cursor - inset < 0 {
        0
    } else {
        cursor - inset
    }
}

/// The capture region of a cursor sample: the fixed-size rectangle that
/// starts up-left of the cursor by the two insets, kept out of negative
/// coordinates.
pub open spec fn region_around(sample: CursorSample) -> CaptureRegion {
    CaptureRegion {
        origin: (
            inset_coordinate(sample.x, REGION_INSET_X) as i32,
            inset_coordinate(sample.y, REGION_INSET_Y) as i32,
        ),
        width: REGION_WIDTH,
        height: REGION_HEIGHT,
    }
}

/// A coordinate moved into `0 ..= extent - span`, or to zero where the
/// monitor is narrower than the span.
pub open spec fn clamped_coordinate(coordinate: i32, span: u32, extent: u32) -> int {
    if coordinate < 0 || extent < span {
        0
    } else if coordinate + span > extent {
        extent - span
    } else {
        coordinate as int
    }
}

/// The region that is captured for a cursor sample: the region around the
/// cursor, moved onto the monitor where the monitor is known.
pub open spec fn planned_region(
    sample: CursorSample,
    monitor: Option<MonitorGeometry>,
) -> CaptureRegion {
    match monitor {
        Some(geometry) => region_around(sample).clamped(geometry),
        None => region_around(sample),
    }
}

/// Whether the rectangle that starts at the cursor less the insets had to be
/// corrected: it reaches into negative coordinates or past the known monitor.
pub open spec fn leaves_bounds(sample: CursorSample, monitor: Option<MonitorGeometry>) -> bool {
    ||| sample.x - REGION_INSET_X < 0
    ||| sample.y - REGION_INSET_Y < 0
    ||| match monitor {
        Some(geometry) => !region_around(sample).fits(geometry),
        None => false,
    }
}

/// Where the overlay's crosshair circle goes for a cursor sample: a third of
/// the circle's radius right of and below the cursor.
pub open spec fn overlay_at(sample: CursorSample, radius: u32) -> (int, int) {
    (sample.x + radius / 3, sample.y + radius / 3)
}

/// One step of the throttle: the state after a cursor move, and the region
/// to capture if the move asks for one.
///
/// The sentinel changes nothing. Any other move withdraws the preview; where
/// no move is on record it records one, and where one is on record it clears
/// the record and asks for a capture.
pub open spec fn throttle_step(sample: CursorSample, state: CaptureState) -> (
    CaptureState,
    Option<CaptureRegion>,
) {
    if sample.is_sentinel() {
        (state, None)
    } else if !state.position_changed {
        (
            CaptureState {
                position_changed: true,
                has_preview: false,
                is_capturing: state.is_capturing,
                moving: false,
            },
            None,
        )
    } else {
        (
            CaptureState {
                position_changed: false,
                has_preview: false,
                is_capturing: true,
                moving: false,
            },
            Some(region_around(sample)),
        )
    }
}

impl CaptureState {
    /// A state with every flag cleared.
    pub fn new() -> (out: CaptureState)
        ensures
            out == idle(),
    {
        CaptureState {
            position_changed: false,
            has_preview: false,
            is_capturing: false,
            moving: false,
        }
    }

    /// Clears every flag, as at the start and at the end of pick mode.
    pub fn reset(&mut self)
        ensures
            *final(self) == idle(),
    {
        self.position_changed = false;
        self.has_preview = false;
        self.is_capturing = false;
        self.moving = false;
    }

    /// The state after a capture came back and was put on display.
    pub open spec fn after_success(self) -> CaptureState {
        CaptureState {
            position_changed: false,
            has_preview: true,
            is_capturing: false,
            moving: true,
        }
    }

    /// The state after a capture came back without a preview: nothing is on
    /// display, and the move is back on record, so that the next move asks
    /// for the capture again.
    pub open spec fn after_failure(self) -> CaptureState {
        CaptureState {
            position_changed: true,
            has_preview: false,
            is_capturing: false,
            moving: false,
        }
    }

    /// Records that a capture succeeded: the preview is on display, the
    /// overlay moves, and the throttle starts over.
    pub fn capture_succeeded(&mut self)
        ensures
            *final(self) == old(self).after_success(),
    {
        self.position_changed = false;
        self.has_preview = true;
        self.is_capturing = false;
        self.moving = true;
    }

    /// Records that a capture failed: nothing is shown, and the move that
    /// asked for the capture goes back on record, so that the next real move
    /// asks again instead of waiting for another one.
    pub fn capture_failed(&mut self)
        ensures
            *final(self) == old(self).after_failure(),
            final(self).position_changed,
            !final(self).has_preview,
            !final(self).is_capturing,
    {
        self.position_changed = true;
        self.has_preview = false;
        self.is_capturing = false;
        self.moving = false;
    }
}

/// A coordinate moved back by `inset`, not below zero.
fn inset_from(cursor: i32, inset: i32) -> (out: i32)
    requires
        inset >= 0,
    ensures
        out == inset_coordinate(cursor, inset),
{
    if cursor < inset {
        0
    } else {
        cursor - inset
    }
}

/// A coordinate moved into the monitor.
fn clamp_into(coordinate: i32, span: u32, extent: u32) -> (out: i32)
    ensures
        out == clamped_coordinate(coordinate, span, extent),
{
    if coordinate < 0 || extent < span {
        0
    } else if coordinate as i64 + span as i64 > extent as i64 {
        (extent - span) as i32
    } else {
        coordinate
    }
}

impl CaptureRegion {
    /// The fixed size, and an origin out of negative coordinates.
    pub open spec fn well_formed(&self) -> bool {
        &&& self.width == REGION_WIDTH
        &&& self.height == REGION_HEIGHT
        &&& self.origin.0 >= 0
        &&& self.origin.1 >= 0
    }

    /// The region lies on the monitor.
    pub open spec fn fits(&self, monitor: MonitorGeometry) -> bool {
        &&& self.origin.0 >= 0
        &&& self.origin.1 >= 0
        &&& self.origin.0 + self.width <= monitor.width
        &&& self.origin.1 + self.height <= monitor.height
    }

    /// The region moved onto the monitor by the shortest way, its size kept.
    pub open spec fn clamped(&self, monitor: MonitorGeometry) -> CaptureRegion {
        CaptureRegion {
            origin: (
                clamped_coordinate(self.origin.0, self.width, monitor.width) as i32,
                clamped_coordinate(self.origin.1, self.height, monitor.height) as i32,
            ),
            width: self.width,
            height: self.height,
        }
    }

    /// The capture region of a cursor sample.
    pub fn around(sample: CursorSample) -> (out: CaptureRegion)
        ensures
            out == region_around(sample),
            out.well_formed(),
    {
        CaptureRegion {
            origin: (inset_from(sample.x, REGION_INSET_X), inset_from(sample.y, REGION_INSET_Y)),
            width: REGION_WIDTH,
            height: REGION_HEIGHT,
        }
    }

    /// Whether the region lies on the monitor.
    pub fn is_within(&self, monitor: MonitorGeometry) -> (out: bool)
        ensures
            out == self.fits(monitor),
    {
        self.origin.0 >= 0 && self.origin.1 >= 0 && self.origin.0 as i64 + self.width as i64
            <= monitor.width as i64 && self.origin.1 as i64 + self.height as i64
            <= monitor.height as i64
    }

    /// Moves the region onto the monitor: each coordinate goes to the nearest
    /// value that keeps the region on the monitor, and to zero where the
    /// monitor is smaller than the region. A region on the monitor stays.
    pub fn clamp_to(&self, monitor: MonitorGeometry) -> (out: CaptureRegion)
        ensures
            out == self.clamped(monitor),
            out.width == self.width && out.height == self.height,
            out.origin.0 >= 0 && out.origin.1 >= 0,
            self.fits(monitor) ==> out == *self,
            monitor.width >= self.width && monitor.height >= self.height ==> out.fits(monitor),
    {
        CaptureRegion {
            origin: (
                clamp_into(self.origin.0, self.width, monitor.width),
                clamp_into(self.origin.1, self.height, monitor.height),
            ),
            width: self.width,
            height: self.height,
        }
    }
}

/// Plans the capture for a cursor sample: the region to capture, and whether
/// the rectangle around the cursor had to be corrected to get it. The region
/// always has the fixed size and lies out of negative coordinates; on a known
/// monitor that is no smaller than the region it lies on the monitor.
pub fn plan_region(sample: CursorSample, monitor: Option<MonitorGeometry>) -> (out: (
    CaptureRegion,
    bool,
))
    ensures
        out.0 == planned_region(sample, monitor),
        out.1 == leaves_bounds(sample, monitor),
        out.0.well_formed(),
        !out.1 ==> out.0.origin == (
            (sample.x - REGION_INSET_X) as i32,
            (sample.y - REGION_INSET_Y) as i32,
        ),
        match monitor {
            Some(geometry) => geometry.width >= REGION_WIDTH && geometry.height >= REGION_HEIGHT
                ==> out.0.fits(geometry),
            None => true,
        },
{
    let around = CaptureRegion::around(sample);
    let negative = sample.x < REGION_INSET_X || sample.y < REGION_INSET_Y;
    match monitor {
        Some(geometry) => {
            let outside = !around.is_within(geometry);
            (around.clamp_to(geometry), negative || outside)
        },
        None => (around, negative),
    }
}

/// The position of the overlay's crosshair circle for a cursor sample and a
/// circle of the given radius.
pub fn overlay_position(sample: CursorSample, radius: u32) -> (out: (i64, i64))
    ensures
        out.0 == overlay_at(sample, radius).0,
        out.1 == overlay_at(sample, radius).1,
{
    let shift: i64 = (radius / 3) as i64;
    (sample.x as i64 + shift, sample.y as i64 + shift)
}

/// Handles one cursor move: decides whether it asks for a capture, and of
/// which region.
///
/// The sentinel is ignored. Of the other moves every second one asks for a
/// capture: the first after a reset or a successful capture only puts the
/// move on record, the next one takes the record back and returns the region
/// around the cursor. After a failed capture the move is on record again, so
/// the very next move asks once more.
pub fn on_cursor_move(sample: CursorSample, state: &mut CaptureState) -> (out: Option<
    CaptureRegion,
>)
    ensures
        (*final(state), out) == throttle_step(sample, *old(state)),
        sample.is_sentinel() ==> out.is_none() && *final(state) == *old(state),
        out.is_some() <==> !sample.is_sentinel() && old(state).position_changed,
        out.is_some() ==> out.unwrap().well_formed(),
{
    if sample.is_none() {
        return None;
    }
    state.has_preview = false;
    state.moving = false;
    if state.position_changed {
        state.position_changed = false;
        state.is_capturing = true;
        Some(CaptureRegion::around(sample))
    } else {
        state.position_changed = true;
        None
    }
}

/// The state after a sequence of cursor moves, taken in order.
pub open spec fn after_moves(start: CaptureState, moves: Seq<CursorSample>) -> CaptureState
    decreases moves.len(),
{
    if moves.len() == 0 {
        start
    } else {
        throttle_step(moves.last(), after_moves(start, moves.drop_last())).0
    }
}

/// Whether move `i` of a sequence asks for a capture.
pub open spec fn asks_capture(start: CaptureState, moves: Seq<CursorSample>, i: int) -> bool {
    throttle_step(moves[i], after_moves(start, moves.take(i))).1.is_some()
}

/// How many moves of a sequence are not the sentinel.
pub open spec fn real_moves(moves: Seq<CursorSample>) -> nat
    decreases moves.len(),
{
    if moves.len() == 0 {
        0
    } else if moves.last().is_sentinel() {
        real_moves(moves.drop_last())
    } else {
        real_moves(moves.drop_last()) + 1
    }
}

/// After any sequence of moves a move is on record exactly if the record at
/// the start and the parity of the real moves differ.
pub proof fn lemma_record_follows_parity(start: CaptureState, moves: Seq<CursorSample>)
    ensures
        after_moves(start, moves).position_changed == (start.position_changed != (real_moves(moves)
            % 2 == 1)),
    decreases moves.len(),
{
    if moves.len() > 0 {
        lemma_record_follows_parity(start, moves.drop_last());
    }
}

/// Throttle alternation: from a state with no move on record, a move asks for
/// a capture exactly if it is not the sentinel and an odd number of real
/// moves came before it. The sentinel never asks for one.
pub proof fn lemma_throttle_alternation(start: CaptureState, moves: Seq<CursorSample>, i: int)
    requires
        !start.position_changed,
        0 <= i < moves.len(),
    ensures
        asks_capture(start, moves, i) <==> !moves[i].is_sentinel() && real_moves(moves.take(i)) % 2
            == 1,
        moves[i].is_sentinel() ==> !asks_capture(start, moves, i),
{
    lemma_record_follows_parity(start, moves.take(i));
}

/// A capture that failed is tried again at once: in the state that the
/// failure leaves, the next move that is not the sentinel asks for a capture
/// of the region around it, and no preview is on display meanwhile.
pub proof fn lemma_failed_capture_is_retried(state: CaptureState, next: CursorSample)
    requires
        !next.is_sentinel(),
    ensures
        !state.after_failure().has_preview,
        !state.after_failure().is_capturing,
        throttle_step(next, state.after_failure()).1 == Some(region_around(next)),
{
}

/// After a capture that succeeded the cycle starts over: the next move only
/// goes on record, and the one after it asks for a capture.
pub proof fn lemma_successful_capture_restarts_cycle(
    state: CaptureState,
    first: CursorSample,
    second: CursorSample,
)
    requires
        !first.is_sentinel(),
        !second.is_sentinel(),
    ensures
        throttle_step(first, state.after_success()).1 is None,
        throttle_step(second, throttle_step(first, state.after_success()).0).1 is Some,
{
}

/// A sequence without the sentinel has as many real moves as moves.
pub proof fn lemma_real_moves_of_burst(moves: Seq<CursorSample>)
    requires
        forall|k: int| 0 <= k < moves.len() ==> !(#[trigger] moves[k]).is_sentinel(),
    ensures
        real_moves(moves) == moves.len(),
    decreases moves.len(),
{
    if moves.len() > 0 {
        lemma_real_moves_of_burst(moves.drop_last());
    }
}

/// In an uninterrupted burst, a sequence of moves none of which is the
/// sentinel, exactly every second move asks for a capture: the second, the
/// fourth, and so on.
pub proof fn lemma_burst_captures_every_second_move(
    start: CaptureState,
    moves: Seq<CursorSample>,
    i: int,
)
    requires
        !start.position_changed,
        0 <= i < moves.len(),
        forall|k: int| 0 <= k < moves.len() ==> !(#[trigger] moves[k]).is_sentinel(),
    ensures
        asks_capture(start, moves, i) <==> i % 2 == 1,
{
    lemma_throttle_alternation(start, moves, i);
    lemma_real_moves_of_burst(moves.take(i));
}

} // verus!
