//! Per-buffer decisions of the plugin's audio callback: how an instance
//! linked to another (sender and receiver of a dry stream and of the
//! cabinet-profiling sweep) routes its buffer, where in the sweep each
//! sample falls, and the receiver's capture of the profiled response.

use vstd::prelude::*;

verus! {

/// What the audio callback does with the current buffer.
#[derive(Debug, Clone, Copy, PartialEq, Eq, Structural)]
pub struct BufferRouting {
    /// The sender saw the profiling trigger: it clears the trigger, marks
    /// the sweep active and restarts the sweep from its first sample.
    pub start_sweep: bool,
    /// The sender replaces the buffer with the sweep.
    pub play_sweep: bool,
    /// The receiver replaces the buffer with the streamed dry signal.
    pub use_streamed_dry: bool,
    /// The input gain applies to the buffer.
    pub apply_input_gain: bool,
    /// The sender streams the buffer out and then silences it.
    pub stream_out: bool,
    /// The effects rack does not run on the buffer.
    pub skip_processing: bool,
}

/// The routing of a buffer.  A receiver in stream mode (A/B mode 2) takes
/// the streamed dry signal when a whole buffer of it is ready.  A sender
/// plays the sweep while one is active or triggered (a trigger restarts
/// it); otherwise the input gain applies unless the streamed signal
/// replaced the input.  A sender in stream mode streams its buffer out.
/// The rack is skipped while a sender plays the sweep and for a receiver
/// in A/B mode 1.
pub open spec fn spec_routing(is_sender: bool, is_receiver: bool, ab_mode: u32, sweep_active: bool, sweep_trigger: bool, stream_ready: bool) -> BufferRouting {
    let use_streamed_dry = is_receiver && ab_mode == 2 && stream_ready;
    let play_sweep = is_sender && (sweep_trigger || sweep_active);
    BufferRouting {
        start_sweep: is_sender && sweep_trigger,
        play_sweep,
        use_streamed_dry,
        apply_input_gain: !play_sweep && !use_streamed_dry,
        stream_out: is_sender && ab_mode == 2,
        skip_processing: play_sweep || (is_receiver && ab_mode == 1),
    }
}

/// Decides the routing of the current buffer (see `spec_routing`).
pub fn buffer_routing(
    is_sender: bool,
    is_receiver: bool,
    ab_mode: u32,
    sweep_active: bool,
    sweep_trigger: bool,
    stream_ready: bool,
) -> (r: BufferRouting)
    ensures
        r == spec_routing(is_sender, is_receiver, ab_mode, sweep_active, sweep_trigger, stream_ready),
{
    let use_streamed_dry: bool = is_receiver && ab_mode == 2 && stream_ready;
    let mut active: bool = sweep_active;
    let mut start_sweep: bool = false;
    let mut play_sweep: bool = false;
    let mut apply_input_gain: bool = false;
    if is_sender && (sweep_trigger || sweep_active) {
        if sweep_trigger {
            start_sweep = true;
            active = true;
        }
        play_sweep = true;
    } else if !use_streamed_dry {
        apply_input_gain = true;
    }
    let stream_out: bool = is_sender && ab_mode == 2;
    let skip_processing: bool = (is_sender && active) || (is_receiver && ab_mode == 1);
    BufferRouting { start_sweep, play_sweep, use_streamed_dry, apply_input_gain, stream_out, skip_processing }
}

/// A sweep restarts only when the trigger is seen by the sender: a sweep
/// that runs without a new trigger goes on from where it is.  A sender
/// plays the sweep exactly while one runs or is triggered, and then
/// neither applies its input gain nor runs the rack; an instance that is
/// not the sender never plays or starts a sweep.
pub proof fn law_sweep_restarts_only_on_trigger(
    is_sender: bool,
    is_receiver: bool,
    ab_mode: u32,
    sweep_active: bool,
    sweep_trigger: bool,
    stream_ready: bool,
)
    ensures
        ({
            let r = spec_routing(is_sender, is_receiver, ab_mode, sweep_active, sweep_trigger, stream_ready);
            &&& r.start_sweep <==> (is_sender && sweep_trigger)
            &&& r.play_sweep <==> (is_sender && (sweep_active || sweep_trigger))
            &&& r.play_sweep ==> r.skip_processing && !r.apply_input_gain
            &&& !is_sender ==> !r.play_sweep && !r.start_sweep
        }),
{
}

/// Where a sweep sample falls.
#[derive(Debug, Clone, Copy, PartialEq, Eq, Structural)]
pub enum SweepSegment {
    /// In the opening fade: the level rises with the sample count.
    FadeIn,
    /// At full level.
    Hold,
    /// In the closing fade: the level falls towards the end.
    FadeOut,
    /// Past the end: the sweep stops and the sample is silent.
    Done,
}

/// The segment of sample `counter` in a sweep of `total` samples whose
/// fades last `fade` samples.
pub open spec fn spec_sweep_segment(counter: u32, total: u32, fade: u32) -> SweepSegment {
    if counter >= total {
        SweepSegment::Done
    } else if counter < fade {
        SweepSegment::FadeIn
    } else if counter > total - fade {
        SweepSegment::FadeOut
    } else {
        SweepSegment::Hold
    }
}

/// The segment of a sweep sample (see `spec_sweep_segment`).
pub fn sweep_segment(counter: u32, total: u32, fade: u32) -> (r: SweepSegment)
    ensures
        r == spec_sweep_segment(counter, total, fade),
{
    if counter < total {
        if counter < fade {
            SweepSegment::FadeIn
        } else if counter > total - fade {
            SweepSegment::FadeOut
        } else {
            SweepSegment::Hold
        }
    } else {
        SweepSegment::Done
    }
}

/// What a capture step reports.
#[derive(Debug, Clone, Copy, PartialEq, Eq, Structural)]
pub enum CaptureEvent {
    /// No capture is running.
    Idle,
    /// The capture holds this many samples so far.
    Progress(u32),
    /// The capture buffer is full and the capture has stopped.
    Finished,
}

/// The receiver's recording of a profiled response.
pub struct Capture<T> {
    active: bool,
    latency_gate: bool,
    buffer: Vec<T>,
    write_ptr: usize,
}

/// The abstract state of a capture: whether it runs, whether it waits for
/// the signal's onset, the capture buffer, and how much of it is written.
pub struct CaptureState<T> {
    pub active: bool,
    pub latency_gate: bool,
    pub buffer: Seq<T>,
    pub written: nat,
}

/// `s` with positions `at..at + items.len()` replaced by `items`.
pub open spec fn overwrite<T>(s: Seq<T>, at: int, items: Seq<T>) -> Seq<T> {
    s.subrange(0, at) + items + s.subrange(at + items.len(), s.len() as int)
}

/// One capture step on a buffer `block`.  An idle capture that sees the
/// trigger consumes it and restarts, not waiting for an onset, on a buffer
/// of `capture_len` copies of `zero`.  A running capture then writes as much of `block` as fits after
/// what it holds; when the buffer is full it stops and reports that it
/// finished, and otherwise reports how many samples it holds.  An idle
/// capture without a trigger stays as it is.
pub open spec fn capture_step<T>(s: CaptureState<T>, trigger: bool, capture_len: nat, zero: T, block: Seq<T>) -> (CaptureState<T>, bool, CaptureEvent) {
    let armed = !s.active && trigger;
    let buffer = if armed { Seq::new(capture_len, |_i: int| zero) } else { s.buffer };
    let written = if armed { 0 } else { s.written };
    let latency_gate = if armed { false } else { s.latency_gate };
    if s.active || armed {
        let room = buffer.len() - written;
        let n: int = if block.len() <= room { block.len() as int } else { room };
        let now = written + n;
        let full = now >= buffer.len();
        (
            CaptureState {
                active: !full,
                latency_gate,
                buffer: overwrite(buffer, written as int, block.take(n)),
                written: now as nat,
            },
            armed,
            if full { CaptureEvent::Finished } else { CaptureEvent::Progress(now as u32) },
        )
    } else {
        (s, false, CaptureEvent::Idle)
    }
}

impl<T> Capture<T> {
    /// The capture has written no more than its buffer holds.
    #[verifier::type_invariant]
    spec fn written_within_buffer(&self) -> bool {
        self.write_ptr <= self.buffer@.len()
    }

    /// The capture's abstract state.
    pub closed spec fn state(&self) -> CaptureState<T> {
        CaptureState {
            active: self.active,
            latency_gate: self.latency_gate,
            buffer: self.buffer@,
            written: self.write_ptr as nat,
        }
    }
}

impl<T: Copy> Capture<T> {
    /// An idle capture with an empty buffer.
    pub fn new() -> (r: Self)
        ensures
            r.state() == (CaptureState::<T> { active: false, latency_gate: false, buffer: Seq::empty(), written: 0 }),
    {
        Capture { active: false, latency_gate: false, buffer: Vec::new(), write_ptr: 0 }
    }

    /// Whether a capture is running.
    pub fn is_active(&self) -> (r: bool)
        ensures
            r == self.state().active,
    {
        self.active
    }

    /// The capture buffer.
    pub fn samples(&self) -> (r: &Vec<T>)
        ensures
            r@ == self.state().buffer,
    {
        &self.buffer
    }

    /// Runs one capture step (see `capture_step`); returns whether the
    /// trigger was consumed, and the event to report.
    pub fn step(&mut self, trigger: bool, capture_len: usize, zero: T, block: &[T]) -> (r: (bool, CaptureEvent))
        ensures
            (final(self).state(), r.0, r.1) == capture_step(old(self).state(), trigger, capture_len as nat, zero, block@),
    {
        proof { use_type_invariant(&*self); }
        let mut consumed: bool = false;
        if !self.active && trigger {
            consumed = true;
            let mut fresh: Vec<T> = Vec::new();
            let mut k: usize = 0;
            while k < capture_len
                invariant
                    k <= capture_len,
                    fresh@ =~= Seq::new(k as nat, |_i: int| zero),
                decreases capture_len - k,
            {
                fresh.push(zero);
                k = k + 1;
            }
            self.active = true;
            self.latency_gate = false;
            self.write_ptr = 0;
            self.buffer = fresh;
        }
        if !self.active {
            return (consumed, CaptureEvent::Idle);
        }
        let ptr: usize = self.write_ptr;
        let mut buffer: Vec<T> = Vec::new();
        self.write_ptr = 0;
        std::mem::swap(&mut buffer, &mut self.buffer);
        let ghost before = buffer@;
        let room: usize = buffer.len() - ptr;
        let n: usize = if block.len() <= room { block.len() } else { room };
        let mut j: usize = 0;
        while j < n
            invariant
                j <= n,
                ptr + n <= before.len(),
                before.len() <= usize::MAX,
                n <= block@.len(),
                buffer@ =~= overwrite(before, ptr as int, block@.take(j as int)),
                buffer@.len() == before.len(),
            decreases n - j,
        {
            buffer.set(ptr + j, block[j]);
            j = j + 1;
        }
        let len: usize = buffer.len();
        self.buffer = buffer;
        self.write_ptr = ptr + n;
        if ptr + n >= len {
            self.active = false;
            (consumed, CaptureEvent::Finished)
        } else {
            (consumed, CaptureEvent::Progress(#[verifier::truncate] ((ptr + n) as u32)))
        }
    }
}


/// A capture started by the trigger holds, from its start, the samples of
/// the buffer it was started on, and its buffer has the requested length.
pub proof fn law_capture_starts_with_block<T>(s: CaptureState<T>, capture_len: nat, zero: T, block: Seq<T>)
    requires
        !s.active,
    ensures
        ({
            let t = capture_step(s, true, capture_len, zero, block).0;
            &&& capture_step(s, true, capture_len, zero, block).1
            &&& t.buffer.len() == capture_len
            &&& t.written <= t.buffer.len()
            &&& t.buffer.take(t.written as int) == block.take(t.written as int)
        }),
{
    let t = capture_step(s, true, capture_len, zero, block).0;
    assert(t.buffer.take(t.written as int) =~= block.take(t.written as int));
}

/// A running capture records what it is fed: if it holds the samples
/// `fed` so far, then after a step on `block` it holds `fed` followed by
/// as much of `block` as fit, in its unchanged buffer; it stops exactly
/// when the buffer is full.
pub proof fn law_capture_records_fed_samples<T>(
    s: CaptureState<T>,
    fed: Seq<T>,
    trigger: bool,
    capture_len: nat,
    zero: T,
    block: Seq<T>,
)
    requires
        s.active,
        s.written <= s.buffer.len(),
        s.buffer.take(s.written as int) == fed,
    ensures
        ({
            let (t, consumed, event) = capture_step(s, trigger, capture_len, zero, block);
            &&& !consumed
            &&& t.buffer.len() == s.buffer.len()
            &&& s.written <= t.written <= t.buffer.len()
            &&& t.buffer.take(t.written as int) == (fed + block).take(t.written as int)
            &&& (event == CaptureEvent::Finished) == (t.written == t.buffer.len())
            &&& t.active == (t.written < t.buffer.len())
        }),
{
    let t = capture_step(s, trigger, capture_len, zero, block).0;
    assert(fed.len() == s.written);
    assert(t.buffer.take(t.written as int) =~= (fed + block).take(t.written as int));
}

} // verus!
