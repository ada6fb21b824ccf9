//! The application controller: the window's startup literals, the
//! event-loop state machine, and the frame pacing that caps rendering near
//! 60 Hz.
//!
//! The windowing toolkit delivers events and performs the scheduled waits
//! in the surrounding application; every decision — what each event leads
//! to, when the loop exits, how long to sleep after a frame — is made and
//! proved here. Times are whole microseconds of a monotonic clock.

use vstd::prelude::*;

verus! {

/// The window's initial logical width.
pub const WINDOW_INITIAL_WIDTH: u32 = 1366;

/// The window's initial logical height.
pub const WINDOW_INITIAL_HEIGHT: u32 = 768;

/// The OpenGL-ES API major version the context must support.
pub const GL_ES_VERSION_MAJOR: u8 = 3;

/// The OpenGL-ES API minor version the context must support.
pub const GL_ES_VERSION_MINOR: u8 = 1;

/// The target frame period: one sixtieth of a second, in whole
/// microseconds.
pub const TARGET_FRAME_PERIOD_MICROS: u64 = 1_000_000 / 60;

/// The window's title.
pub fn window_title() -> (s: &'static str)
    ensures
        s@ == "A fantastic window!"@,
{
    "A fantastic window!"
}

/// Where the event loop stands: `Running` until the window's close
/// request arrives, then `Exiting`, which is terminal.
#[derive(Clone, Copy, Debug, PartialEq, Eq, Structural)]
pub enum LoopMode {
    Running,
    Exiting,
}

/// A windowing event, as the controller distinguishes them. Sizes are
/// physical pixels. Events the controller ignores — after forwarding them
/// to the GUI bridge like every other — arrive as `Other`.
#[derive(Clone, Copy, Debug, PartialEq, Eq, Structural)]
pub enum LoopEvent {
    NewEvents,
    Resized { width: u32, height: u32 },
    CloseRequested,
    MainEventsCleared,
    RedrawRequested,
    LoopDestroyed,
    Other,
}

/// What the loop does next: block until the wake time (or an earlier
/// event), or stop and tear the process down.
#[derive(Clone, Copy, Debug, PartialEq, Eq, Structural)]
pub enum Schedule {
    WaitUntil { wake_micros: u64 },
    ExitLoop,
}

/// Everything one event obliges the application to do, besides the
/// per-event GUI forwarding it always performs first.
#[derive(Clone, Copy, Debug, PartialEq, Eq)]
pub struct EventResponse {
    /// How the loop blocks next; `ExitLoop` once the mode is `Exiting`.
    pub schedule: Schedule,
    /// Recompute the GUI toolkit's delta time from the last-frame stamp.
    pub update_gui_delta: bool,
    /// Propagate this new physical size to the context and the renderer.
    pub resize: Option<(u32, u32)>,
    /// Ask the window for a redraw.
    pub request_redraw: bool,
    /// Render a frame now: scene, then panel, then present.
    pub render_frame: bool,
}

/// The loop's explicit state: its mode and the two timestamps the
/// original loop threads through its iterations.
#[derive(Clone, Copy, Debug, PartialEq, Eq, Structural)]
pub struct Controller {
    pub mode: LoopMode,
    /// When the GUI's delta time was last recomputed.
    pub last_frame_micros: u64,
    /// When the current frame began, for the post-draw pacing sleep.
    pub frame_start_micros: u64,
}

/// The microseconds the controller sleeps after presenting a frame: the
/// remainder of the target period, or nothing if the frame already took
/// that long.
pub open spec fn sleep_after_frame(frame_start_micros: u64, now_micros: u64) -> int
    recommends
        frame_start_micros <= now_micros,
{
    if now_micros - frame_start_micros < TARGET_FRAME_PERIOD_MICROS {
        TARGET_FRAME_PERIOD_MICROS - (now_micros - frame_start_micros)
    } else {
        0
    }
}

impl Controller {
    /// The loop as it starts: running, with both timestamps at "now".
    pub fn new(now_micros: u64) -> (c: Controller)
        ensures
            c.mode is Running,
            c.last_frame_micros == now_micros,
            c.frame_start_micros == now_micros,
    {
        Controller {
            mode: LoopMode::Running,
            last_frame_micros: now_micros,
            frame_start_micros: now_micros,
        }
    }

    /// Dispatches one windowing event. The application has already
    /// forwarded the event to the GUI bridge; this decides everything
    /// else: a new-events notification refreshes the GUI delta time, a
    /// resize is propagated and triggers a redraw, a close request moves
    /// the loop to its terminal `Exiting` mode, drained events trigger the
    /// unconditional redraw that keeps the animation running, and a redraw
    /// request renders a frame while the loop still runs. Unless the loop
    /// is exiting, the next wake is scheduled one target period from now.
    pub fn handle_event(&mut self, ev: LoopEvent, now_micros: u64) -> (r: EventResponse)
        requires
            now_micros + TARGET_FRAME_PERIOD_MICROS <= u64::MAX,
        ensures
            final(self).mode == (if ev is CloseRequested {
                LoopMode::Exiting
            } else {
                old(self).mode
            }),
            final(self).last_frame_micros == (if ev is NewEvents {
                now_micros
            } else {
                old(self).last_frame_micros
            }),
            final(self).frame_start_micros == old(self).frame_start_micros,
            r.schedule == (if final(self).mode is Exiting {
                Schedule::ExitLoop
            } else {
                Schedule::WaitUntil {
                    wake_micros: (now_micros + TARGET_FRAME_PERIOD_MICROS) as u64,
                }
            }),
            r.update_gui_delta == (ev is NewEvents),
            r.resize == (match ev {
                LoopEvent::Resized { width, height } => Some((width, height)),
                _ => None::<(u32, u32)>,
            }),
            r.request_redraw == (ev is Resized || ev is MainEventsCleared),
            r.render_frame == (ev is RedrawRequested && old(self).mode is Running),
    {
        let was_running = match self.mode {
            LoopMode::Running => true,
            LoopMode::Exiting => false,
        };
        let mut update_gui_delta = false;
        let mut resize: Option<(u32, u32)> = None;
        let mut request_redraw = false;
        let mut render_frame = false;
        match ev {
            LoopEvent::NewEvents => {
                update_gui_delta = true;
                self.last_frame_micros = now_micros;
            },
            LoopEvent::Resized { width, height } => {
                resize = Some((width, height));
                request_redraw = true;
            },
            LoopEvent::CloseRequested => {
                self.mode = LoopMode::Exiting;
            },
            LoopEvent::MainEventsCleared => {
                request_redraw = true;
            },
            LoopEvent::RedrawRequested => {
                render_frame = was_running;
            },
            LoopEvent::LoopDestroyed => {},
            LoopEvent::Other => {},
        }
        let schedule = match self.mode {
            LoopMode::Exiting => Schedule::ExitLoop,
            LoopMode::Running => Schedule::WaitUntil {
                wake_micros: now_micros + TARGET_FRAME_PERIOD_MICROS,
            },
        };
        EventResponse { schedule, update_gui_delta, resize, request_redraw, render_frame }
    }

    /// Ends a presented frame: returns how long to sleep — the remainder
    /// of the target period, nothing if the frame's work already took that
    /// long — and restarts the frame clock at the moment the sleep ends.
    /// Consecutive frame starts are thereby always at least one target
    /// period apart.
    pub fn end_of_frame(&mut self, now_micros: u64) -> (sleep_micros: u64)
        requires
            old(self).frame_start_micros <= now_micros,
            now_micros + TARGET_FRAME_PERIOD_MICROS <= u64::MAX,
        ensures
            sleep_micros == sleep_after_frame(old(self).frame_start_micros, now_micros),
            final(self).frame_start_micros == now_micros + sleep_micros,
            final(self).frame_start_micros >= old(self).frame_start_micros
                + TARGET_FRAME_PERIOD_MICROS,
            final(self).mode == old(self).mode,
            final(self).last_frame_micros == old(self).last_frame_micros,
    {
        let elapsed = now_micros - self.frame_start_micros;
        let sleep_micros = if elapsed < TARGET_FRAME_PERIOD_MICROS {
            TARGET_FRAME_PERIOD_MICROS - elapsed
        } else {
            0
        };
        self.frame_start_micros = now_micros + sleep_micros;
        sleep_micros
    }
}

/// A run of frame-start times is paced: each start is at least one target
/// period after the one before, as `end_of_frame` guarantees.
pub open spec fn paced_frame_times(times: Seq<u64>) -> bool {
    forall|i: int|
        0 <= i < times.len() - 1 ==> #[trigger] times[i] + TARGET_FRAME_PERIOD_MICROS <= times[
            i + 1
        ]
}

/// Between any two starts of a paced run lie at least as many whole
/// target periods as there are frames between them.
pub proof fn lemma_paced_frame_gap(times: Seq<u64>, i: int, j: int)
    requires
        paced_frame_times(times),
        0 <= i <= j < times.len(),
    ensures
        times[i] + (j - i) * TARGET_FRAME_PERIOD_MICROS <= times[j],
    decreases j - i,
{
    if i < j {
        lemma_paced_frame_gap(times, i, j - 1);
        assert((j - i) * TARGET_FRAME_PERIOD_MICROS == (j - 1 - i) * TARGET_FRAME_PERIOD_MICROS
            + TARGET_FRAME_PERIOD_MICROS) by (nonlinear_arith);
    }
}

/// Frame-pacing bound: in a paced run, any window spanning sixty target
/// periods — 999,960 µs, the loop's one-second budget for sixty frames —
/// contains at most sixty frame starts.
pub proof fn lemma_frame_rate_bound(times: Seq<u64>, i: int, j: int)
    requires
        paced_frame_times(times),
        0 <= i <= j < times.len(),
        times[j] < times[i] + 60 * TARGET_FRAME_PERIOD_MICROS,
    ensures
        j - i < 60,
{
    lemma_paced_frame_gap(times, i, j);
    assert(j - i < 60) by (nonlinear_arith)
        requires
            (j - i) * TARGET_FRAME_PERIOD_MICROS < 60 * TARGET_FRAME_PERIOD_MICROS,
            TARGET_FRAME_PERIOD_MICROS > 0,
    ;
}

} // verus!
