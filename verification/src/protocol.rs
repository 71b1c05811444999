//! The generation-step protocol: the decisions of one upload → dispatch →
//! copy → map-and-wait → decode cycle, as a state machine the accelerator
//! driver walks phase by phase. The driver performs each device action and
//! reports its outcome; everything the device is told — byte images, sizes,
//! workgroup counts — is computed and checked here.

use vstd::prelude::*;
use crate::codec::DecodeError;
use crate::codec::decoded;
use crate::codec::encoded;
use crate::codec::valid_encoding;
use crate::grid::GameState;

verus! {

/// Bind-group slot of the input storage buffer.
pub const INPUT_BINDING: u32 = 0;

/// Bind-group slot of the output storage buffer.
pub const OUTPUT_BINDING: u32 = 1;

/// Bind-group slot of the width uniform.
pub const WIDTH_BINDING: u32 = 2;

/// Bind-group slot of the height uniform.
pub const HEIGHT_BINDING: u32 = 3;

/// Byte capacity of each scalar uniform buffer: one 32-bit word.
pub const UNIFORM_BYTES: u64 = 4;

/// The little-endian 4-byte image of a 32-bit scalar, the layout the
/// kernel reads its uniforms in.
pub open spec fn le32(v: int) -> Seq<u8> {
    seq![
        (v % 0x100) as u8,
        ((v / 0x100) % 0x100) as u8,
        ((v / 0x1_0000) % 0x100) as u8,
        ((v / 0x100_0000) % 0x100) as u8,
    ]
}

/// The host-side shape of a persistent accelerator context: the grid
/// dimensions its buffers and pipeline were built for. Fixed at creation;
/// every grid stepped against the context must match them.
pub struct ContextLayout {
    pub width: usize,
    pub height: usize,
}

impl ContextLayout {
    /// Dimension limits the device interface forces: uniforms and the
    /// dispatch count are 32-bit, buffer byte sizes must be addressable.
    pub open spec fn wf(self) -> bool {
        &&& self.width <= u32::MAX
        &&& self.height <= u32::MAX
        &&& self.width * self.height <= u32::MAX
        &&& self.width * self.height * 4 <= usize::MAX
    }

    pub fn new(width: usize, height: usize) -> (ctx: ContextLayout)
        requires
            width <= u32::MAX,
            height <= u32::MAX,
            width * height <= u32::MAX,
            width * height * 4 <= usize::MAX,
        ensures
            ctx.wf(),
            ctx.width == width,
            ctx.height == height,
    {
        ContextLayout { width, height }
    }

    /// Exact byte capacity of the input buffer, the output buffer and the
    /// per-generation staging buffer: one 4-byte word per cell.
    pub fn buffer_bytes(&self) -> (n: u64)
        requires
            self.wf(),
        ensures
            n == self.width * self.height * 4,
    {
        (self.width * self.height * 4) as u64
    }

    /// Number of workgroups to dispatch along x: one per cell, so the
    /// kernel can treat the invocation index as the linear cell index.
    pub fn workgroups(&self) -> (n: u32)
        requires
            self.wf(),
        ensures
            n == self.width * self.height,
    {
        (self.width * self.height) as u32
    }
}

/// Where a generation step stands; the driver may only perform the device
/// action of the phase the step is in.
#[derive(Clone, Copy, PartialEq, Eq, Structural, Debug)]
pub enum Phase {
    /// The upload packet is out; its writes must be queued next.
    Uploading,
    /// Uploads queued; the kernel dispatch must be recorded next.
    Dispatching,
    /// Dispatch recorded; the output-to-staging copy must be recorded next.
    Copying,
    /// Commands submitted; a read-mapping of the staging buffer is pending
    /// and must be waited on before any read.
    MappingPending,
    /// Mapping completed; the staging bytes may now be read and decoded.
    Mapped,
    /// The mapping was refused; the step is dead and holds no result.
    Failed,
}

/// Everything a step failure can be. Each is fatal to the generation:
/// the protocol never retries and never coerces a bad result.
#[derive(PartialEq, Eq, Structural, Debug)]
pub enum StepError {
    /// The grid's dimensions differ from the context's; rejected before
    /// any device interaction.
    DimensionMismatch { grid_width: usize, grid_height: usize, ctx_width: usize, ctx_height: usize },
    /// The asynchronous map request reported failure.
    MapFailed,
    /// The staging bytes were not a legal kernel output image.
    Decode(DecodeError),
}

/// The data the driver must queue at the start of a step: the encoded grid
/// for the input buffer and the two scalar uniforms.
pub struct UploadPacket {
    pub input: Vec<u8>,
    pub width_word: Vec<u8>,
    pub height_word: Vec<u8>,
}

/// One generation step in flight against one context. Consumed by
/// `finish`: a new step cannot begin until the previous step's staging
/// bytes have been read and released.
pub struct GenerationStep {
    pub width: usize,
    pub height: usize,
    pub phase: Phase,
}

impl GenerationStep {
    pub open spec fn wf(self) -> bool {
        &&& self.width <= u32::MAX
        &&& self.height <= u32::MAX
        &&& self.width * self.height <= u32::MAX
        &&& self.width * self.height * 4 <= usize::MAX
    }

    /// Begin a generation step: the dimension guard, then the upload
    /// packet. A grid whose dimensions differ from the context's is
    /// rejected here, before any device interaction, with no packet and
    /// no step produced.
    pub fn begin(ctx: &ContextLayout, grid: &GameState) -> (r: Result<
        (GenerationStep, UploadPacket),
        StepError,
    >)
        requires
            ctx.wf(),
            grid.wf(),
        ensures
            (r is Ok) <==> (grid.width == ctx.width && grid.height == ctx.height),
            match r {
                Ok((step, up)) => {
                    &&& step.wf()
                    &&& step.width == ctx.width
                    &&& step.height == ctx.height
                    &&& step.phase is Uploading
                    &&& up.input@ == encoded(grid.view())
                    &&& up.input@.len() == ctx.width * ctx.height * 4
                    &&& up.width_word@ == le32(ctx.width as int)
                    &&& up.height_word@ == le32(ctx.height as int)
                },
                Err(e) => e == (StepError::DimensionMismatch {
                    grid_width: grid.width,
                    grid_height: grid.height,
                    ctx_width: ctx.width,
                    ctx_height: ctx.height,
                }),
            },
    {
        if grid.width != ctx.width || grid.height != ctx.height {
            return Err(StepError::DimensionMismatch {
                grid_width: grid.width,
                grid_height: grid.height,
                ctx_width: ctx.width,
                ctx_height: ctx.height,
            });
        }
        let step = GenerationStep { width: ctx.width, height: ctx.height, phase: Phase::Uploading };
        let up = UploadPacket {
            input: grid.serialize(),
            width_word: u32_le(ctx.width as u32),
            height_word: u32_le(ctx.height as u32),
        };
        Ok((step, up))
    }

    /// The upload writes are queued; hand the driver the dispatch shape:
    /// one workgroup per cell along x, so the kernel's invocation index is
    /// the linear cell index.
    pub fn dispatch_workgroups(&mut self) -> (n: u32)
        requires
            old(self).wf(),
            old(self).phase is Uploading,
        ensures
            final(self).wf(),
            final(self).width == old(self).width,
            final(self).height == old(self).height,
            final(self).phase is Dispatching,
            n == old(self).width * old(self).height,
    {
        self.phase = Phase::Dispatching;
        (self.width * self.height) as u32
    }

    /// The dispatch is recorded; hand the driver the byte count of the
    /// device-side copy from the output buffer into the staging buffer:
    /// the full output, nothing less.
    pub fn copy_bytes(&mut self) -> (n: u64)
        requires
            old(self).wf(),
            old(self).phase is Dispatching,
        ensures
            final(self).wf(),
            final(self).width == old(self).width,
            final(self).height == old(self).height,
            final(self).phase is Copying,
            n == old(self).width * old(self).height * 4,
    {
        self.phase = Phase::Copying;
        (self.width * self.height * 4) as u64
    }

    /// The recorded commands went to the queue in one submission: uploads,
    /// dispatch and copy now execute in that order on the device. The map
    /// request on the staging buffer is pending from here on, and the
    /// driver must wait for it before reading anything.
    pub fn submitted(&mut self)
        requires
            old(self).wf(),
            old(self).phase is Copying,
        ensures
            final(self).wf(),
            final(self).width == old(self).width,
            final(self).height == old(self).height,
            final(self).phase is MappingPending,
    {
        self.phase = Phase::MappingPending;
    }

    /// The wait is over and the map callback reported `mapped`. Failure is
    /// fatal: the step is dead, nothing of it may be read or retried.
    pub fn map_complete(&mut self, mapped: bool) -> (r: Result<(), StepError>)
        requires
            old(self).wf(),
            old(self).phase is MappingPending,
        ensures
            final(self).wf(),
            final(self).width == old(self).width,
            final(self).height == old(self).height,
            (r is Ok) <==> mapped,
            mapped ==> final(self).phase is Mapped,
            !mapped ==> final(self).phase is Failed && r == Err::<(), StepError>(
                StepError::MapFailed,
            ),
    {
        if mapped {
            self.phase = Phase::Mapped;
            Ok(())
        } else {
            self.phase = Phase::Failed;
            Err(StepError::MapFailed)
        }
    }

    /// Decode the mapped staging bytes into the next generation, consuming
    /// the step: the staging buffer may be released, and only then may the
    /// next step begin. Succeeds exactly when the bytes are a legal kernel
    /// output image for the step's dimensions; anything else is a fatal
    /// decode error naming the first offending cell.
    pub fn finish(self, staging: &[u8]) -> (r: Result<GameState, StepError>)
        requires
            self.wf(),
            self.phase is Mapped,
        ensures
            (r is Ok) <==> (staging@.len() == self.width * self.height * 4 && valid_encoding(
                staging@,
            )),
            match r {
                Ok(g) => {
                    &&& g.wf()
                    &&& g.width == self.width
                    &&& g.height == self.height
                    &&& g.view() == decoded(staging@)
                },
                Err(e) => match e {
                    StepError::Decode(DecodeError::WrongLength { expected, actual }) => {
                        &&& expected == self.width * self.height * 4
                        &&& actual == staging@.len()
                        &&& staging@.len() != self.width * self.height * 4
                    },
                    StepError::Decode(DecodeError::BadCell { index, value }) => {
                        &&& staging@.len() == self.width * self.height * 4
                        &&& index < self.width * self.height
                        &&& !crate::codec::word_ok(staging@, index as int)
                        &&& value == crate::codec::word_val(staging@, index as int)
                    },
                    _ => false,
                },
            },
    {
        match GameState::deserialize(staging, self.width, self.height) {
            Ok(g) => Ok(g),
            Err(e) => Err(StepError::Decode(e)),
        }
    }
}

/// The little-endian byte image of a 32-bit scalar, as the uniform
/// buffers expect it.
fn u32_le(v: u32) -> (b: Vec<u8>)
    ensures
        b@ == le32(v as int),
{
    let mut b: Vec<u8> = Vec::new();
    b.push((v % 0x100) as u8);
    b.push((v / 0x100 % 0x100) as u8);
    b.push((v / 0x1_0000 % 0x100) as u8);
    b.push((v / 0x100_0000 % 0x100) as u8);
    proof {
        assert(b@ =~= le32(v as int));
    }
    b
}

} // verus!
