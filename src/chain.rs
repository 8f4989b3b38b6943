//! The compute chain: an ordered, non-empty list of kernels, and the plan of
//! dispatches that runs it once over the two ping-pong textures.

use vstd::prelude::*;

use crate::status::{next_state, state_after, PinPongStatus, Status};

verus! {

/// Side of the square tile that one workgroup covers, in texels.
pub const TILE_SIZE: u32 = 16;

/// The two binding sets shared by every kernel: `Even` samples texture `A`
/// and writes texture `B`, `Odd` the reverse.
#[derive(Debug, Copy, Clone, PartialEq, Eq, Structural)]
pub enum BindingSet {
    Even,
    Odd,
}

/// One of the two ping-pong textures.
#[derive(Debug, Copy, Clone, PartialEq, Eq, Structural)]
pub enum TextureSlot {
    A,
    B,
}

/// The texture a pass with binding set `b` writes.
pub open spec fn destination_of(b: BindingSet) -> TextureSlot {
    match b {
        BindingSet::Even => TextureSlot::B,
        BindingSet::Odd => TextureSlot::A,
    }
}

/// The texture a pass with binding set `b` samples.
pub open spec fn source_of(b: BindingSet) -> TextureSlot {
    match b {
        BindingSet::Even => TextureSlot::A,
        BindingSet::Odd => TextureSlot::B,
    }
}

/// The binding set a pass uses when it starts in state `s`. The seed pass
/// (state `FtT2`) and a pass in state `F2T1` use `Even`; a pass in state
/// `F1T2` uses `Odd`.
pub open spec fn binding_for(s: PinPongStatus) -> BindingSet {
    match s {
        PinPongStatus::F1T2 => BindingSet::Odd,
        _ => BindingSet::Even,
    }
}

/// The texture that holds the latest output once the state is `s`.
pub open spec fn holder_of(s: PinPongStatus) -> TextureSlot {
    match s {
        PinPongStatus::F1T2 => TextureSlot::B,
        _ => TextureSlot::A,
    }
}

impl BindingSet {
    /// The texture this binding set writes.
    pub fn destination(self) -> (r: TextureSlot)
        ensures
            r == destination_of(self),
    {
        match self {
            BindingSet::Even => TextureSlot::B,
            BindingSet::Odd => TextureSlot::A,
        }
    }

    /// The texture this binding set samples.
    pub fn source(self) -> (r: TextureSlot)
        ensures
            r == source_of(self),
            r != destination_of(self),
    {
        match self {
            BindingSet::Even => TextureSlot::A,
            BindingSet::Odd => TextureSlot::B,
        }
    }
}

impl PinPongStatus {
    /// The binding set of the next filter pass.
    pub fn binding(self) -> (r: BindingSet)
        ensures
            r == binding_for(self),
    {
        match self {
            PinPongStatus::F1T2 => BindingSet::Odd,
            _ => BindingSet::Even,
        }
    }

    /// The texture that the render stage samples once the chain has run.
    pub fn final_slot(self) -> (r: TextureSlot)
        requires
            self !is FtT2,
        ensures
            r == holder_of(self),
    {
        match self {
            PinPongStatus::F1T2 => TextureSlot::B,
            _ => TextureSlot::A,
        }
    }
}

/// Why a kernel chain cannot be built.
#[derive(Debug, Copy, Clone, PartialEq, Eq, Structural)]
pub enum ChainError {
    /// A chain needs at least its seed kernel.
    EmptyChain,
}

/// An ordered list of kernel identifiers: the seed kernel first, then the
/// filter kernels in the order they run. Never empty, never changed.
pub struct KernelChain {
    kernels: Vec<u32>,
}

impl View for KernelChain {
    type V = Seq<u32>;

    closed spec fn view(&self) -> Seq<u32> {
        self.kernels@
    }
}

impl KernelChain {
    #[verifier::type_invariant]
    spec fn inv(&self) -> bool {
        self.kernels.len() > 0
    }

    /// A chain of the given kernels; an empty list is refused.
    pub fn new(kernels: Vec<u32>) -> (r: Result<KernelChain, ChainError>)
        ensures
            kernels@.len() == 0 <==> r is Err,
            r matches Err(e) ==> e == ChainError::EmptyChain,
            r matches Ok(c) ==> c@ == kernels@,
    {
        if kernels.len() == 0 {
            Err(ChainError::EmptyChain)
        } else {
            Ok(KernelChain { kernels })
        }
    }

    /// The number of kernels, seed included.
    pub fn len(&self) -> (r: usize)
        ensures
            r == self@.len(),
            r >= 1,
    {
        proof {
            use_type_invariant(self);
        }
        self.kernels.len()
    }

    /// The kernel at position `i`.
    pub fn kernel(&self, i: usize) -> (r: u32)
        requires
            i < self@.len(),
        ensures
            r == self@[i as int],
    {
        self.kernels[i]
    }
}

/// One compute dispatch: which kernel, with which binding set, over how
/// many workgroups.
#[derive(Debug, Copy, Clone, PartialEq, Eq, Structural)]
pub struct Dispatch {
    pub kernel: u32,
    pub binding: BindingSet,
    pub groups_x: u32,
    pub groups_y: u32,
}

/// The `i`-th dispatch of a frame over a surface of `width` by `height`.
pub open spec fn dispatch_at(kernels: Seq<u32>, i: int, width: u32, height: u32) -> Dispatch {
    Dispatch {
        kernel: kernels[i],
        binding: binding_for(state_after(i as nat)),
        groups_x: (width / TILE_SIZE) as u32,
        groups_y: (height / TILE_SIZE) as u32,
    }
}

/// Workgroups along each axis: the dimensions divided by the tile size,
/// rounded down.
pub fn workgroups(width: u32, height: u32) -> (r: (u32, u32))
    ensures
        r == ((width / TILE_SIZE) as u32, (height / TILE_SIZE) as u32),
{
    (width / TILE_SIZE, height / TILE_SIZE)
}

proof fn lemma_started(n: nat)
    requires
        n >= 1,
    ensures
        state_after(n) !is FtT2,
{
}

/// The dispatches of one frame, in order: the seed kernel with the `Even`
/// set, then each filter kernel with the set its incoming state selects.
/// Each pass advances the ping-pong state once; nothing else in the status
/// changes.
pub fn plan_passes(chain: &KernelChain, status: &mut Status, width: u32, height: u32) -> (r: Vec<
    Dispatch,
>)
    ensures
        r@.len() == chain@.len(),
        forall|i: int| 0 <= i < r@.len() ==> r@[i] == dispatch_at(chain@, i, width, height),
        *final(status) == (Status { ping_pong: state_after(chain@.len()), ..*old(status) }),
{
    let n = chain.len();
    let (groups_x, groups_y) = workgroups(width, height);
    let mut plan: Vec<Dispatch> = Vec::new();
    plan.push(
        Dispatch { kernel: chain.kernel(0), binding: BindingSet::Even, groups_x, groups_y },
    );
    status.ping_pong = PinPongStatus::F1T2;
    proof {
        reveal_with_fuel(state_after, 2);
    }
    let mut i: usize = 1;
    while i < n
        invariant
            1 <= i <= n,
            n == chain@.len(),
            groups_x == width / TILE_SIZE,
            groups_y == height / TILE_SIZE,
            plan@.len() == i,
            forall|j: int| 0 <= j < i ==> plan@[j] == dispatch_at(chain@, j, width, height),
            *status == (Status { ping_pong: state_after(i as nat), ..*old(status) }),
        decreases n - i,
    {
        proof {
            lemma_started(i as nat);
        }
        let binding = status.ping_pong.binding();
        plan.push(Dispatch { kernel: chain.kernel(i), binding, groups_x, groups_y });
        status.ping_pong = status.ping_pong.flip();
        assert(state_after((i + 1) as nat) == next_state(state_after(i as nat)));
        i = i + 1;
    }
    plan
}

proof fn lemma_state_parity(n: nat)
    requires
        n >= 1,
    ensures
        state_after(n) == (if n % 2 == 1 {
            PinPongStatus::F1T2
        } else {
            PinPongStatus::F2T1
        }),
    decreases n,
{
    if n > 1 {
        lemma_state_parity((n - 1) as nat);
    } else {
        reveal_with_fuel(state_after, 2);
    }
}

/// Ping-pong parity of a frame. Every pass changes the state, so a chain of
/// `n` kernels flips it exactly `n` times; afterwards the state is `F1T2`
/// for odd `n` and `F2T1` for even `n`, so chains of opposite parity end on
/// opposite states, and neither ends in the state before the first pass.
pub proof fn lemma_chain_parity(n: nat, m: nat)
    requires
        n >= 1,
        m >= 1,
    ensures
        forall|i: nat| 1 <= i <= n ==> #[trigger] state_after(i) != state_after((i - 1) as nat),
        state_after(n) == (if n % 2 == 1 {
            PinPongStatus::F1T2
        } else {
            PinPongStatus::F2T1
        }),
        state_after(n) !is FtT2,
        n % 2 != m % 2 ==> state_after(n) != state_after(m),
{
    lemma_state_parity(n);
    lemma_state_parity(m);
}

/// The render stage samples what the last pass wrote: after a chain of `n`
/// kernels the texture that holds the output is the destination of the
/// `n`-th pass, and never the texture that pass sampled.
pub proof fn lemma_blit_reads_last_output(n: nat)
    requires
        n >= 1,
    ensures
        holder_of(state_after(n)) == destination_of(binding_for(state_after((n - 1) as nat))),
        holder_of(state_after(n)) != source_of(binding_for(state_after((n - 1) as nat))),
{
    if n > 1 {
        lemma_state_parity((n - 1) as nat);
    }
    lemma_state_parity(n);
}

} // verus!
