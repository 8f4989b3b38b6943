//! The frame orchestrator: what happens on resize, on redraw and when the
//! presentation surface cannot hand out a target. It decides; the caller
//! talks to the window and the graphics device and reports back.

use vstd::prelude::*;

use crate::chain::{dispatch_at, holder_of, plan_passes, Dispatch, KernelChain, TextureSlot};
use crate::config::{is_memory_image, ConfigBlock};
use crate::status::{frame_index_at, state_after, PinPongStatus, Status};

verus! {

/// A width and a height in pixels.
#[derive(Debug, Copy, Clone, PartialEq, Eq, Structural)]
pub struct Extent {
    pub width: u32,
    pub height: u32,
}

/// Both dimensions are positive: the window is not minimized.
pub open spec fn is_drawable(e: Extent) -> bool {
    e.width > 0 && e.height > 0
}

/// Why the presentation surface could not hand out its current target.
#[derive(Debug, Copy, Clone, PartialEq, Eq, Structural)]
pub enum SurfaceFailure {
    /// The target was lost.
    Lost,
    /// The surface no longer matches the window.
    Outdated,
    /// The device ran out of memory.
    OutOfMemory,
    /// No target came in time.
    Timeout,
}

/// A lost or outdated surface: recovered by configuring it again.
pub open spec fn is_stale(f: SurfaceFailure) -> bool {
    f is Lost || f is Outdated
}

/// What the caller does after a resize notification.
#[derive(Debug, Copy, Clone, PartialEq, Eq, Structural)]
pub enum ResizeAction {
    /// Nothing: a zero dimension means the window is minimized.
    Ignore,
    /// Configure the surface, recreate both textures and rebuild both
    /// binding sets at this size.
    Rebuild(Extent),
}

/// The window events the orchestrator reacts to.
#[derive(Debug, Copy, Clone, PartialEq, Eq, Structural)]
pub enum WindowInput {
    Resized { width: u32, height: u32 },
    RedrawRequested,
    CloseRequested,
    EscapePressed,
    Other,
}

/// What the caller does after a window event.
#[derive(Debug, Copy, Clone, PartialEq, Eq, Structural)]
pub enum EventAction {
    /// Nothing.
    Idle,
    /// Leave the event loop.
    Exit,
    /// Configure the surface and rebuild textures and binding sets.
    Rebuild(Extent),
    /// Read the clock, acquire a target and run `redraw`.
    Draw,
}

/// Everything the caller records for one frame: the uniform bytes and how
/// many of them the device-side copy moves, the compute dispatches in order,
/// and the texture the render stage samples.
#[derive(Debug)]
pub struct FramePlan {
    pub config_bytes: Vec<u8>,
    pub copy_len: u64,
    pub dispatches: Vec<Dispatch>,
    pub blit: TextureSlot,
}

/// What the caller does with a redraw.
#[derive(Debug)]
pub enum FrameStep {
    /// Record the plan and the blit in one command sequence, submit it and
    /// present the target.
    Draw(FramePlan),
    /// Configure the surface again at this size; nothing is presented.
    Reconfigure(Extent),
    /// Nothing is presented; the next redraw tries again.
    Skip,
    /// The device is unusable: leave the event loop.
    Exit,
}

/// `plan` runs `kernels` once over a `width` by `height` surface at
/// `frame_index`, copying `buffer_size` bytes of uniforms.
pub open spec fn is_frame_plan(
    plan: FramePlan,
    kernels: Seq<u32>,
    width: u32,
    height: u32,
    frame_index: u32,
    buffer_size: u64,
) -> bool {
    &&& is_memory_image(plan.config_bytes@, seq![width, height, frame_index, 0u32, 0u32])
    &&& plan.copy_len == buffer_size
    &&& plan.dispatches@.len() == kernels.len()
    &&& forall|i: int|
        0 <= i < kernels.len() ==> plan.dispatches@[i] == dispatch_at(kernels, i, width, height)
    &&& plan.blit == holder_of(state_after(kernels.len()))
}

/// The state of a running pipeline: window size, the size the surface is
/// configured at, the size of the two ping-pong textures (and so of their
/// binding sets), the kernel chain, the frame status, and whether a resize
/// has been seen yet.
pub struct Model {
    pub size: Extent,
    pub config: Extent,
    pub textures: Extent,
    pub surface_configured: bool,
    pub chain: KernelChain,
    pub status: Status,
}

impl Model {
    /// The frame status is well formed.
    pub open spec fn wf(&self) -> bool {
        self.status.wf()
    }

    /// A pipeline for a window of the given size: surface and textures at
    /// that size, a fresh status, no resize seen yet.
    pub fn new(width: u32, height: u32, chain: KernelChain) -> (r: Model)
        ensures
            r.size == (Extent { width, height }),
            r.config == r.size,
            r.textures == r.size,
            !r.surface_configured,
            r.chain@ == chain@,
            r.status.elapsed_frame == 0,
            r.status.ping_pong == PinPongStatus::FtT2,
            r.wf(),
    {
        let size = Extent { width, height };
        Model {
            size,
            config: size,
            textures: size,
            surface_configured: false,
            chain,
            status: Status::new(),
        }
    }

    /// Whether the model consumes a window event itself: it never does.
    pub fn input(&self, _event: &WindowInput) -> (r: bool)
        ensures
            !r,
    {
        false
    }

    /// Recomputes the frame index for the elapsed time.
    pub fn update_pre(&mut self, elapsed_micros: u64)
        requires
            old(self).wf(),
        ensures
            final(self).status == (Status {
                next_frame_index: frame_index_at(
                    elapsed_micros as int,
                    old(self).status.frame_rate as int,
                    old(self).status.frame_len as int,
                ) as u32,
                ..old(self).status
            }),
            final(self).size == old(self).size,
            final(self).config == old(self).config,
            final(self).textures == old(self).textures,
            final(self).surface_configured == old(self).surface_configured,
            final(self).chain == old(self).chain,
            final(self).wf(),
    {
        self.status.set_elapsed(elapsed_micros);
    }

    /// Closes a frame: one more frame counted, ping-pong state reset.
    pub fn update_post(&mut self)
        requires
            old(self).wf(),
        ensures
            final(self).status == (Status {
                elapsed_frame: ((old(self).status.elapsed_frame as int + 1) % 0x1_0000_0000) as u32,
                ping_pong: PinPongStatus::FtT2,
                ..old(self).status
            }),
            final(self).size == old(self).size,
            final(self).config == old(self).config,
            final(self).textures == old(self).textures,
            final(self).surface_configured == old(self).surface_configured,
            final(self).chain == old(self).chain,
            final(self).wf(),
    {
        self.status.update_post();
    }

    /// A resize notification. With both dimensions positive the window size,
    /// the surface configuration and the textures all take the new size and
    /// the caller rebuilds them; with a zero dimension nothing changes.
    pub fn resize(&mut self, width: u32, height: u32) -> (r: ResizeAction)
        ensures
            width > 0 && height > 0 ==> {
                let e = Extent { width, height };
                &&& r == ResizeAction::Rebuild(e)
                &&& *final(self) == (Model { size: e, config: e, textures: e, ..*old(self) })
            },
            width == 0 || height == 0 ==> r == ResizeAction::Ignore && *final(self) == *old(self),
    {
        if width > 0 && height > 0 {
            let e = Extent { width, height };
            self.size = e;
            self.config = e;
            self.textures = e;
            ResizeAction::Rebuild(e)
        } else {
            ResizeAction::Ignore
        }
    }

    /// The plan of one frame once a target has been acquired; an acquisition
    /// failure is handed back and nothing changes. The plan uses the current
    /// size and frame index; the ping-pong state ends where the chain leaves
    /// it.
    pub fn render(&mut self, acquired: Result<(), SurfaceFailure>) -> (r: Result<
        FramePlan,
        SurfaceFailure,
    >)
        ensures
            match acquired {
                Ok(_) => {
                    &&& r matches Ok(plan) && is_frame_plan(
                        plan,
                        old(self).chain@,
                        old(self).size.width,
                        old(self).size.height,
                        old(self).status.next_frame_index,
                        old(self).status.buffer_size,
                    )
                    &&& *final(self) == (Model {
                        status: Status {
                            ping_pong: state_after(old(self).chain@.len()),
                            ..old(self).status
                        },
                        ..*old(self)
                    })
                },
                Err(e) => r == Err::<FramePlan, SurfaceFailure>(e) && *final(self) == *old(self),
            },
    {
        match acquired {
            Err(e) => Err(e),
            Ok(()) => {
                let block = ConfigBlock::for_frame(
                    self.size.width,
                    self.size.height,
                    self.status.next_frame_index,
                );
                let config_bytes = block.to_bytes();
                let copy_len = self.status.buffer_size;
                let dispatches = plan_passes(
                    &self.chain,
                    &mut self.status,
                    self.size.width,
                    self.size.height,
                );
                let n = self.chain.len();
                proof {
                    crate::chain::lemma_chain_parity(n as nat, n as nat);
                }
                let blit = self.status.ping_pong.final_slot();
                Ok(FramePlan { config_bytes, copy_len, dispatches, blit })
            },
        }
    }

    /// Recovery from a failed acquisition. A lost or outdated surface is
    /// configured again at the current size (skipped while a dimension is
    /// zero); running out of memory ends the loop; a timeout skips the frame.
    pub fn recover(&mut self, failure: SurfaceFailure) -> (r: FrameStep)
        ensures
            is_stale(failure) && is_drawable(old(self).size) ==> {
                &&& r == FrameStep::Reconfigure(old(self).size)
                &&& *final(self) == (Model { config: old(self).size, ..*old(self) })
            },
            is_stale(failure) && !is_drawable(old(self).size) ==> r == FrameStep::Skip
                && *final(self) == *old(self),
            failure is OutOfMemory ==> r == FrameStep::Exit && *final(self) == *old(self),
            failure is Timeout ==> r == FrameStep::Skip && *final(self) == *old(self),
    {
        match failure {
            SurfaceFailure::Lost | SurfaceFailure::Outdated => {
                if self.size.width > 0 && self.size.height > 0 {
                    self.config = self.size;
                    FrameStep::Reconfigure(self.size)
                } else {
                    FrameStep::Skip
                }
            },
            SurfaceFailure::OutOfMemory => FrameStep::Exit,
            SurfaceFailure::Timeout => FrameStep::Skip,
        }
    }

    /// One redraw, from the elapsed time and the outcome of acquiring the
    /// surface's current target: the frame index is recomputed, the frame is
    /// planned or the failure handled, and the frame is closed. Whatever the
    /// outcome, the frame counter advances exactly once and the ping-pong
    /// state is back before the first pass; a stale surface is configured
    /// again before the next acquisition.
    pub fn redraw(&mut self, elapsed_micros: u64, acquired: Result<(), SurfaceFailure>) -> (r:
        FrameStep)
        requires
            old(self).wf(),
        ensures
            ({
                let index = frame_index_at(
                    elapsed_micros as int,
                    old(self).status.frame_rate as int,
                    old(self).status.frame_len as int,
                ) as u32;
                &&& final(self).status == (Status {
                    next_frame_index: index,
                    elapsed_frame: ((old(self).status.elapsed_frame as int + 1)
                        % 0x1_0000_0000) as u32,
                    ping_pong: PinPongStatus::FtT2,
                    ..old(self).status
                })
                &&& final(self).size == old(self).size
                &&& final(self).textures == old(self).textures
                &&& final(self).surface_configured == old(self).surface_configured
                &&& final(self).chain == old(self).chain
                &&& final(self).wf()
                &&& match acquired {
                    Ok(_) => {
                        &&& r matches FrameStep::Draw(plan) && is_frame_plan(
                            plan,
                            old(self).chain@,
                            old(self).size.width,
                            old(self).size.height,
                            index,
                            old(self).status.buffer_size,
                        )
                        &&& final(self).config == old(self).config
                    },
                    Err(f) => {
                        &&& is_stale(f) && is_drawable(old(self).size) ==> r
                            == FrameStep::Reconfigure(old(self).size) && final(self).config
                            == old(self).size
                        &&& is_stale(f) && !is_drawable(old(self).size) ==> r == FrameStep::Skip
                            && final(self).config == old(self).config
                        &&& f is OutOfMemory ==> r == FrameStep::Exit && final(self).config
                            == old(self).config
                        &&& f is Timeout ==> r == FrameStep::Skip && final(self).config
                            == old(self).config
                    },
                }
            }),
    {
        self.update_pre(elapsed_micros);
        let step = match self.render(acquired) {
            Ok(plan) => FrameStep::Draw(plan),
            Err(failure) => self.recover(failure),
        };
        self.update_post();
        step
    }

    /// A window event. A resize marks the surface as configured and is then
    /// handled as by `resize`; a redraw asks for a frame once a resize has
    /// been seen; closing the window or pressing Escape ends the loop.
    pub fn handle(&mut self, input: WindowInput) -> (r: EventAction)
        ensures
            match input {
                WindowInput::Resized { width, height } => {
                    let e = Extent { width, height };
                    if width > 0 && height > 0 {
                        &&& r == EventAction::Rebuild(e)
                        &&& *final(self) == (Model {
                            size: e,
                            config: e,
                            textures: e,
                            surface_configured: true,
                            ..*old(self)
                        })
                    } else {
                        &&& r == EventAction::Idle
                        &&& *final(self) == (Model { surface_configured: true, ..*old(self) })
                    }
                },
                WindowInput::RedrawRequested => {
                    &&& r == (if old(self).surface_configured {
                        EventAction::Draw
                    } else {
                        EventAction::Idle
                    })
                    &&& *final(self) == *old(self)
                },
                WindowInput::CloseRequested | WindowInput::EscapePressed => r == EventAction::Exit
                    && *final(self) == *old(self),
                WindowInput::Other => r == EventAction::Idle && *final(self) == *old(self),
            },
    {
        match input {
            WindowInput::Resized { width, height } => {
                self.surface_configured = true;
                match self.resize(width, height) {
                    ResizeAction::Rebuild(e) => EventAction::Rebuild(e),
                    ResizeAction::Ignore => EventAction::Idle,
                }
            },
            WindowInput::RedrawRequested => {
                if self.surface_configured {
                    EventAction::Draw
                } else {
                    EventAction::Idle
                }
            },
            WindowInput::CloseRequested | WindowInput::EscapePressed => EventAction::Exit,
            WindowInput::Other => EventAction::Idle,
        }
    }
}

} // verus!
