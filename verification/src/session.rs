//! One pick session after another: the throttle state together with the
//! generation that tells the captures of one session from those of the next.

use crate::color::{canonical, description, CanonicalColor};
use crate::placement::{
    enter_pick_mode, enter_placement, exit_pick_mode, exit_placement, MonitorGeometry, Origin, Size,
};
use crate::sampler::{sample, sample_outcome, CaptureError, PreviewBuffer, RgbaBuffer};
use crate::throttle::{
    idle, leaves_bounds, on_cursor_move, plan_region, planned_region, throttle_step, CaptureRegion,
    CaptureState, CursorSample,
};
use vstd::prelude::*;

verus! {

/// The picker between and during pick sessions.
#[derive(Clone, Copy, Debug, PartialEq, Eq, Structural)]
pub struct PickSession {
    /// The throttle flags of the running session; all clear outside one.
    pub state: CaptureState,
    /// The tag of the latest session. Every start takes the next one.
    pub generation: u64,
    /// Whether pick mode is on.
    pub active: bool,
}

/// A capture that a cursor move asked for, tagged with its session.
#[derive(Clone, Copy, Debug, PartialEq, Eq)]
pub struct CaptureRequest {
    /// The session that asked.
    pub generation: u64,
    /// The cursor position that the capture is made for.
    pub cursor: CursorSample,
    /// The rectangle to capture.
    pub region: CaptureRegion,
    /// Whether the rectangle around the cursor left the valid bounds and was
    /// moved back into them.
    pub corrected: bool,
}

/// What goes on display after a capture succeeded.
#[derive(Clone, Debug)]
pub struct PickUpdate {
    /// The cursor position that the capture was made for.
    pub cursor: CursorSample,
    /// The magnified neighbourhood of the cursor.
    pub preview: PreviewBuffer,
    /// The colour at the centre of the preview.
    pub color: CanonicalColor,
    /// That colour as `#RRGGBB / rgb(R,G,B)`.
    pub description: String,
}

/// What became of a capture result.
#[derive(Clone, Debug)]
pub enum Resolution {
    /// The result belongs to a session that is over: it was dropped.
    Stale,
    /// The capture gave no preview: nothing new is shown.
    Failed(CaptureError),
    /// The capture gave a preview and a colour to show.
    Published(PickUpdate),
}

/// The generation after `generation`: the next number, and zero after the
/// largest, so that it always differs from `generation`.
pub open spec fn next_generation(generation: u64) -> u64 {
    if generation == u64::MAX {
        0
    } else {
        (generation + 1) as u64
    }
}

/// The picker after pick mode was started.
pub open spec fn started(session: PickSession) -> PickSession {
    PickSession { state: idle(), generation: next_generation(session.generation), active: true }
}

/// The picker after pick mode was stopped.
pub open spec fn stopped(session: PickSession) -> PickSession {
    PickSession { state: idle(), generation: session.generation, active: false }
}

/// The picker after a cursor move, and the capture that the move asks for.
/// Outside pick mode a move changes nothing and asks for nothing.
pub open spec fn moved(
    session: PickSession,
    cursor: CursorSample,
    monitor: Option<MonitorGeometry>,
) -> (PickSession, Option<CaptureRequest>) {
    if !session.active {
        (session, None)
    } else {
        let (state, region) = throttle_step(cursor, session.state);
        (
            PickSession { state, ..session },
            if region is Some {
                Some(
                    CaptureRequest {
                        generation: session.generation,
                        cursor,
                        region: planned_region(cursor, monitor),
                        corrected: leaves_bounds(cursor, monitor),
                    },
                )
            } else {
                None
            },
        )
    }
}

/// Whether a request was issued by the session that is running now.
pub open spec fn is_current(session: PickSession, request: CaptureRequest) -> bool {
    session.active && request.generation == session.generation
}

/// The picker after the result of a capture came in: unchanged for a stale
/// request, and otherwise with the flags that the outcome calls for.
pub open spec fn resolved(
    session: PickSession,
    request: CaptureRequest,
    raw: Option<RgbaBuffer>,
) -> PickSession {
    if !is_current(session, request) {
        session
    } else if sample_outcome(raw) is Ok {
        PickSession { state: session.state.after_success(), ..session }
    } else {
        PickSession { state: session.state.after_failure(), ..session }
    }
}

impl PickSession {
    /// A picker that has not been in pick mode yet.
    pub fn new() -> (out: PickSession)
        ensures
            out == (PickSession { state: idle(), generation: 0, active: false }),
    {
        PickSession { state: CaptureState::new(), generation: 0, active: false }
    }

    /// Starts pick mode: clears every flag, whatever state the picker was in,
    /// and opens a new generation, so that captures still under way are
    /// dropped when they come in. Returns the overlay's size and origin, or
    /// `None` where no monitor could be resolved and the window stays as it
    /// is.
    pub fn start_pick(&mut self, monitor: Option<MonitorGeometry>) -> (out: Option<(Size, Origin)>)
        ensures
            *final(self) == started(*old(self)),
            final(self).generation != old(self).generation,
            out == match monitor {
                Some(geometry) => Some(enter_placement(geometry)),
                None => None,
            },
    {
        self.state.reset();
        self.generation = if self.generation == u64::MAX {
            0
        } else {
            self.generation + 1
        };
        self.active = true;
        match monitor {
            Some(geometry) => Some(enter_pick_mode(geometry)),
            None => None,
        }
    }

    /// Stops pick mode: clears every flag and turns the picker off, so that a
    /// capture that comes in afterwards is dropped. Returns the default size
    /// and the centred origin, or `None` where no monitor could be resolved
    /// and the window stays as it is.
    pub fn stop_pick(&mut self, monitor: Option<MonitorGeometry>) -> (out: Option<(Size, Origin)>)
        ensures
            *final(self) == stopped(*old(self)),
            out == match monitor {
                Some(geometry) => Some(exit_placement(geometry)),
                None => None,
            },
    {
        self.state.reset();
        self.active = false;
        match monitor {
            Some(geometry) => Some(exit_pick_mode(geometry)),
            None => None,
        }
    }

    /// Handles a cursor move. In pick mode every second real move returns a
    /// capture request, tagged with the running generation; outside pick
    /// mode, and for the sentinel, nothing happens.
    ///
    /// The requested region is the one around the cursor, moved onto the
    /// monitor where `monitor` is known; the request says whether it had to
    /// be corrected.
    pub fn cursor_moved(&mut self, cursor: CursorSample, monitor: Option<MonitorGeometry>) -> (out:
        Option<CaptureRequest>)
        ensures
            (*final(self), out) == moved(*old(self), cursor, monitor),
            out.is_some() <==> old(self).active && !cursor.is_sentinel() && old(
                self,
            ).state.position_changed,
            out.is_some() ==> out.unwrap().region.well_formed(),
    {
        if !self.active {
            return None;
        }
        let generation = self.generation;
        match on_cursor_move(cursor, &mut self.state) {
            Some(_) => {
                let (region, corrected) = plan_region(cursor, monitor);
                Some(CaptureRequest { generation, cursor, region, corrected })
            },
            None => None,
        }
    }

    /// Takes in the result of a capture. `raw` is what the capturer
    /// delivered, `None` where it delivered nothing.
    ///
    /// A request of another generation, or one that comes in outside pick
    /// mode, is stale: the picker stays exactly as it is. Otherwise the
    /// buffer is magnified and sampled. On success the preview, the colour at
    /// its centre and the colour's description are published and the throttle
    /// starts over; on failure nothing is shown, the session goes on, and the
    /// next real move asks for a capture again.
    pub fn capture_resolved(&mut self, request: CaptureRequest, raw: Option<RgbaBuffer>) -> (out:
        Resolution)
        ensures
            *final(self) == resolved(*old(self), request, raw),
            !is_current(*old(self), request) ==> out is Stale && *final(self) == *old(self),
            is_current(*old(self), request) && sample_outcome(raw) is Err ==> {
                &&& final(self).state.position_changed
                &&& !final(self).state.has_preview
                &&& !final(self).state.is_capturing
                &&& final(self).active
            },
            is_current(*old(self), request) ==> match (out, sample_outcome(raw)) {
                (Resolution::Published(update), Ok((pixels, center))) => {
                    &&& update.cursor == request.cursor
                    &&& update.preview.well_formed()
                    &&& update.preview.pixels@ == pixels
                    &&& update.color == canonical(center)
                    &&& update.description@ == description(center)
                },
                (Resolution::Failed(found), Err(expected)) => found == expected,
                _ => false,
            },
    {
        if !self.active || request.generation != self.generation {
            return Resolution::Stale;
        }
        match sample(raw) {
            Ok((preview, sampled)) => {
                let (color, description) = crate::color::format(sampled);
                self.state.capture_succeeded();
                Resolution::Published(
                    PickUpdate { cursor: request.cursor, preview, color, description },
                )
            },
            Err(error) => {
                self.state.capture_failed();
                Resolution::Failed(error)
            },
        }
    }
}

/// Starting pick mode and stopping it at once leaves every flag clear, from
/// whatever state the picker started, and the first cursor move after a start
/// asks for no capture.
pub proof fn lemma_enter_then_exit_resets(
    session: PickSession,
    cursor: CursorSample,
    monitor: Option<MonitorGeometry>,
)
    ensures
        started(session).state == idle(),
        stopped(started(session)).state == idle(),
        !stopped(started(session)).active,
        moved(started(session), cursor, monitor).1 is None,
{
}

/// A capture of the running session that fails is tried again with the next
/// movement: the session stays on, nothing is on display, and the next move
/// that is not the sentinel asks for a capture.
pub proof fn lemma_failed_capture_is_retried_by_next_move(
    session: PickSession,
    request: CaptureRequest,
    raw: Option<RgbaBuffer>,
    next: CursorSample,
    monitor: Option<MonitorGeometry>,
)
    requires
        is_current(session, request),
        sample_outcome(raw) is Err,
        !next.is_sentinel(),
    ensures
        resolved(session, request, raw).active,
        resolved(session, request, raw).state.position_changed,
        !resolved(session, request, raw).state.has_preview,
        !resolved(session, request, raw).state.is_capturing,
        moved(resolved(session, request, raw), next, monitor).1 is Some,
{
}

/// A capture that was asked for in one session and comes in after that
/// session was stopped is dropped without a trace: the picker stays as the
/// stop left it, whatever the capture delivered. The same holds after pick
/// mode was started again.
pub proof fn lemma_stale_capture_is_dropped(
    session: PickSession,
    request: CaptureRequest,
    raw: Option<RgbaBuffer>,
)
    requires
        is_current(session, request),
    ensures
        resolved(stopped(session), request, raw) == stopped(session),
        resolved(started(stopped(session)), request, raw) == started(stopped(session)),
        resolved(started(session), request, raw) == started(session),
{
}

/// The whole course of a stale capture: pick mode is started, two moves lead
/// to a capture request, pick mode is stopped, and then the capture comes in.
/// The picker is then as the stop left it: off, with every flag clear.
pub proof fn lemma_capture_after_exit_changes_nothing(
    session: PickSession,
    first: CursorSample,
    second: CursorSample,
    monitor: Option<MonitorGeometry>,
    raw: Option<RgbaBuffer>,
)
    requires
        !first.is_sentinel(),
        !second.is_sentinel(),
    ensures
        ({
            let entered = started(session);
            let (flagged, none) = moved(entered, first, monitor);
            let (capturing, request) = moved(flagged, second, monitor);
            let left = stopped(capturing);
            &&& none is None
            &&& request is Some
            &&& resolved(left, request.unwrap(), raw) == left
            &&& left.state == idle()
            &&& !left.active
        }),
{
}

} // verus!
