//! Time and frame-index bookkeeping, and the ping-pong state machine.

use vstd::prelude::*;

verus! {

/// Which of the two textures the next compute pass reads and writes.
///
/// `FtT2` is the state before the first pass of a frame, `F1T2` means the
/// first texture is the source and the second the destination, `F2T1` the
/// reverse.
#[derive(Debug, Copy, Clone, PartialEq, Eq, Structural)]
pub enum PinPongStatus {
    FtT2,
    F1T2,
    F2T1,
}

/// Bias added to the elapsed time before it is turned into a frame index:
/// half a second, in microseconds.
pub const INDEX_BIAS_MICROS: u64 = 500_000;

/// Microseconds in one second.
pub const MICROS_PER_SECOND: u64 = 1_000_000;

/// Default length of the frame-index cycle.
pub const DEFAULT_FRAME_LEN: u32 = 200;

/// Default frame rate, in frames per second.
pub const DEFAULT_FRAME_RATE: u32 = 60;

/// Byte size of the per-frame uniform block that is copied to the device.
pub const CONFIG_BUFFER_SIZE: u64 = 20;

/// `floor((0.5 + elapsed_seconds) * frame_rate) mod frame_len`, with the
/// elapsed time given in microseconds.
pub open spec fn frame_index_at(elapsed_micros: int, frame_rate: int, frame_len: int) -> int {
    ((INDEX_BIAS_MICROS + elapsed_micros) * frame_rate / (MICROS_PER_SECOND as int)) % frame_len
}

/// For every non-negative elapsed time, every rate and every non-empty
/// cycle, the frame index lies in `[0, frame_len)`.
pub proof fn lemma_frame_index_in_cycle(elapsed_micros: int, frame_rate: int, frame_len: int)
    requires
        elapsed_micros >= 0,
        frame_rate >= 0,
        frame_len > 0,
    ensures
        0 <= frame_index_at(elapsed_micros, frame_rate, frame_len) < frame_len,
{
    let biased = INDEX_BIAS_MICROS + elapsed_micros;
    assert(biased * frame_rate >= 0) by (nonlinear_arith)
        requires
            biased >= 0,
            frame_rate >= 0,
    ;
}

/// The state after one more compute pass. The seed pass leaves the initial
/// state for `F1T2`; every later pass flips between `F1T2` and `F2T1`.
pub open spec fn next_state(s: PinPongStatus) -> PinPongStatus {
    match s {
        PinPongStatus::FtT2 => PinPongStatus::F1T2,
        PinPongStatus::F1T2 => PinPongStatus::F2T1,
        PinPongStatus::F2T1 => PinPongStatus::F1T2,
    }
}

/// The state after `n` compute passes of a frame.
pub open spec fn state_after(n: nat) -> PinPongStatus
    decreases n,
{
    if n == 0 {
        PinPongStatus::FtT2
    } else {
        next_state(state_after((n - 1) as nat))
    }
}

impl PinPongStatus {
    /// The state after the next filter pass. Only the two alternating states
    /// are accepted: a filter pass never runs before the seed pass.
    pub fn flip(self) -> (r: PinPongStatus)
        requires
            self !is FtT2,
        ensures
            r == next_state(self),
            r !is FtT2,
    {
        match self {
            PinPongStatus::F2T1 => PinPongStatus::F1T2,
            _ => PinPongStatus::F2T1,
        }
    }
}

/// The frame index for a given elapsed time: exactly `frame_index_at`.
pub fn frame_index_for(elapsed_micros: u64, frame_rate: u32, frame_len: u32) -> (r: u32)
    requires
        frame_len > 0,
    ensures
        r == frame_index_at(elapsed_micros as int, frame_rate as int, frame_len as int),
        r < frame_len,
{
    let biased: u128 = INDEX_BIAS_MICROS as u128 + elapsed_micros as u128;
    assert(biased * (frame_rate as u128) <= 0x2_0000_0000_0000_0000u128 * 0x1_0000_0000u128)
        by (nonlinear_arith)
        requires
            biased <= 0x2_0000_0000_0000_0000u128,
            frame_rate <= 0x1_0000_0000u128,
    ;
    let scaled: u128 = biased * (frame_rate as u128);
    let ticks: u128 = scaled / (MICROS_PER_SECOND as u128);
    let index: u128 = ticks % (frame_len as u128);
    index as u32
}

/// The bookkeeping of one running pipeline: uniform size, frame-index cycle,
/// frame counter, clock origin and ping-pong state.
#[derive(Debug, Copy, Clone)]
pub struct Status {
    pub buffer_size: u64,
    pub frame_len: u32,
    pub frame_rate: u32,
    pub elapsed_frame: u32,
    pub next_frame_index: u32,
    pub start_time: std::time::Instant,
    pub ping_pong: PinPongStatus,
}

impl Status {
    /// The frame index lies inside the cycle, and the cycle is not empty.
    pub open spec fn wf(&self) -> bool {
        &&& self.frame_len > 0
        &&& self.next_frame_index < self.frame_len
    }

    /// A fresh status: clock started now, no frame drawn yet, index zero, and
    /// the ping-pong state before the first pass.
    pub fn new() -> (r: Status)
        ensures
            r.buffer_size == CONFIG_BUFFER_SIZE,
            r.frame_len == DEFAULT_FRAME_LEN,
            r.frame_rate == DEFAULT_FRAME_RATE,
            r.elapsed_frame == 0,
            r.next_frame_index == 0,
            r.ping_pong == PinPongStatus::FtT2,
            r.wf(),
    {
        let buffer_size: u64 = CONFIG_BUFFER_SIZE;
        let frame_len: u32 = DEFAULT_FRAME_LEN;
        let frame_rate: u32 = DEFAULT_FRAME_RATE;
        let elapsed_frame: u32 = 0;
        let next_frame_index: u32 = 0;
        let start_time = std::time::Instant::now();
        let ping_pong = PinPongStatus::FtT2;
        Status {
            buffer_size,
            frame_len,
            frame_rate,
            elapsed_frame,
            next_frame_index,
            start_time,
            ping_pong,
        }
    }

    /// Microseconds since the clock origin, saturated at `u64::MAX`.
    pub fn elapsed_micros(&self) -> (r: u64) {
        let since = self.start_time.elapsed();
        let micros = since.as_micros();
        if micros > u64::MAX as u128 {
            u64::MAX
        } else {
            micros as u64
        }
    }

    /// Recomputes the frame index for the given elapsed time; nothing else
    /// changes.
    pub fn set_elapsed(&mut self, elapsed_micros: u64)
        requires
            old(self).frame_len > 0,
        ensures
            *final(self) == (Status {
                next_frame_index: frame_index_at(
                    elapsed_micros as int,
                    old(self).frame_rate as int,
                    old(self).frame_len as int,
                ) as u32,
                ..*old(self)
            }),
            final(self).wf(),
    {
        self.next_frame_index = frame_index_for(elapsed_micros, self.frame_rate, self.frame_len);
    }

    /// Closes a frame: the frame counter advances by one (wrapping) and the
    /// ping-pong state returns to the state before the first pass.
    pub fn update_post(&mut self)
        ensures
            *final(self) == (Status {
                elapsed_frame: ((old(self).elapsed_frame as int + 1) % 0x1_0000_0000) as u32,
                ping_pong: PinPongStatus::FtT2,
                ..*old(self)
            }),
    {
        self.elapsed_frame = self.elapsed_frame.wrapping_add(1);
        self.ping_pong = PinPongStatus::FtT2;
    }
}

} // verus!
