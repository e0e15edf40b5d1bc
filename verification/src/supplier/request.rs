//! Requests to a supplier and what it answers.

use vstd::prelude::*;
use crate::midi::MidiResetMessages;
use crate::units::{clamp_u64, scale, scale_spec, TempoFactor};

verus! {

/// A request for one block: `dest_frame_count` frames at `dest_frame_rate`,
/// to be taken from the source from `start_frame` on. A negative start frame
/// lies in the count-in before the material. The tempo factor says how much
/// faster than written the material is to pass.
#[derive(Copy, Clone, Debug, PartialEq, Eq, Structural)]
pub struct SupplyRequest {
    pub start_frame: i64,
    pub dest_frame_count: u64,
    pub dest_frame_rate: u32,
    pub tempo_factor: TempoFactor,
}

impl SupplyRequest {
    /// Source frames that pass per second of destination time, as the
    /// numerator of a ratio.
    pub open spec fn source_side(self, source_frame_rate: u32) -> nat {
        (source_frame_rate as nat) * self.tempo_factor.eff_num()
    }

    /// Destination frames per second, as the denominator of that ratio.
    pub open spec fn dest_side(self) -> nat {
        (self.dest_frame_rate as nat) * self.tempo_factor.eff_den()
    }

    /// The source frames that `dest_frames` destination frames take up.
    pub open spec fn source_frames_spec(self, dest_frames: u64, source_frame_rate: u32) -> u64 {
        scale_spec(dest_frames as nat, self.source_side(source_frame_rate), self.dest_side())
    }

    /// The destination frames that `source_frames` source frames fill.
    pub open spec fn dest_frames_spec(self, source_frames: u64, source_frame_rate: u32) -> u64 {
        scale_spec(source_frames as nat, self.dest_side(), self.source_side(source_frame_rate))
    }

    /// The same request from another start frame.
    pub open spec fn starting_at(self, start_frame: i64) -> SupplyRequest {
        SupplyRequest { start_frame, ..self }
    }

    /// The same request for another count of destination frames.
    pub open spec fn for_frames(self, dest_frame_count: u64) -> SupplyRequest {
        SupplyRequest { dest_frame_count, ..self }
    }

    /// Counts the source frames that `dest_frames` destination frames take
    /// up at the request's rate and tempo.
    pub fn source_frames(&self, dest_frames: u64, source_frame_rate: u32) -> (r: u64)
        ensures
            r == self.source_frames_spec(dest_frames, source_frame_rate),
    {
        let f = self.tempo_factor.floored();
        assert((source_frame_rate as nat) * (f.num as nat) <= u64::MAX) by (nonlinear_arith)
            requires
                source_frame_rate <= u32::MAX,
                f.num <= u32::MAX,
        ;
        assert((self.dest_frame_rate as nat) * (f.den as nat) <= u64::MAX) by (nonlinear_arith)
            requires
                self.dest_frame_rate <= u32::MAX,
                f.den <= u32::MAX,
        ;
        scale(
            dest_frames,
            source_frame_rate as u64 * f.num as u64,
            self.dest_frame_rate as u64 * f.den as u64,
        )
    }

    /// Counts the destination frames that `source_frames` source frames
    /// fill at the request's rate and tempo.
    pub fn dest_frames(&self, source_frames: u64, source_frame_rate: u32) -> (r: u64)
        ensures
            r == self.dest_frames_spec(source_frames, source_frame_rate),
    {
        let f = self.tempo_factor.floored();
        assert((source_frame_rate as nat) * (f.num as nat) <= u64::MAX) by (nonlinear_arith)
            requires
                source_frame_rate <= u32::MAX,
                f.num <= u32::MAX,
        ;
        assert((self.dest_frame_rate as nat) * (f.den as nat) <= u64::MAX) by (nonlinear_arith)
            requires
                self.dest_frame_rate <= u32::MAX,
                f.den <= u32::MAX,
        ;
        scale(
            source_frames,
            self.dest_frame_rate as u64 * f.den as u64,
            source_frame_rate as u64 * f.num as u64,
        )
    }
}

/// Whether a supplier has more material after the block.
#[derive(Copy, Clone, Debug, PartialEq, Eq, Structural)]
pub enum SupplyResponseStatus {
    /// There is more material.
    PleaseContinue,
    /// The material ended within this block, after `num_frames_written`
    /// destination frames.
    ReachedEnd { num_frames_written: u64 },
}

/// The answer to a request: how far the block moved through the source, and
/// whether the material goes on.
#[derive(Copy, Clone, Debug, PartialEq, Eq, Structural)]
pub struct SupplyResponse {
    pub num_frames_consumed: u64,
    pub status: SupplyResponseStatus,
}

impl SupplyResponse {
    pub open spec fn spec_please_continue(num_frames_consumed: u64) -> SupplyResponse {
        SupplyResponse { num_frames_consumed, status: SupplyResponseStatus::PleaseContinue }
    }

    pub open spec fn spec_reached_end(
        num_frames_consumed: u64,
        num_frames_written: u64,
    ) -> SupplyResponse {
        SupplyResponse {
            num_frames_consumed,
            status: SupplyResponseStatus::ReachedEnd { num_frames_written },
        }
    }

    pub open spec fn spec_exceeded_end() -> SupplyResponse {
        Self::spec_reached_end(0, 0)
    }

    /// Whether the response says that the material has ended.
    pub open spec fn is_end(self) -> bool {
        self.status is ReachedEnd
    }

    /// The whole block was filled and there is more.
    pub fn please_continue(num_frames_consumed: u64) -> (r: SupplyResponse)
        ensures
            r == Self::spec_please_continue(num_frames_consumed),
    {
        SupplyResponse { num_frames_consumed, status: SupplyResponseStatus::PleaseContinue }
    }

    /// The material ended within the block.
    pub fn reached_end(num_frames_consumed: u64, num_frames_written: u64) -> (r: SupplyResponse)
        ensures
            r == Self::spec_reached_end(num_frames_consumed, num_frames_written),
    {
        SupplyResponse {
            num_frames_consumed,
            status: SupplyResponseStatus::ReachedEnd { num_frames_written },
        }
    }

    /// The block started after the end of the material: nothing was written.
    pub fn exceeded_end() -> (r: SupplyResponse)
        ensures
            r == Self::spec_exceeded_end(),
    {
        Self::reached_end(0, 0)
    }
}

/// One stretch of source material to be played: `dest_frame_count`
/// destination frames from `dest_offset` on are filled with the source from
/// `source_start_frame` on. Destination frames that no stretch covers stay
/// silent. Where the stretch starts or ends a section of MIDI material,
/// reset messages go before or after it.
#[derive(Copy, Clone, Debug, PartialEq, Eq, Structural)]
pub struct ReadOp {
    pub source_start_frame: u64,
    pub dest_offset: u64,
    pub dest_frame_count: u64,
    pub reset_before: Option<MidiResetMessages>,
    pub reset_after: Option<MidiResetMessages>,
}

impl ReadOp {
    /// The stretch moved `offset` frames further into the destination
    /// block.
    pub open spec fn shifted_in_dest(self, offset: u64) -> ReadOp {
        ReadOp { dest_offset: clamp_u64(self.dest_offset + offset), ..self }
    }

    /// The destination frame after the last one that the stretch fills.
    pub open spec fn dest_end(self) -> int {
        self.dest_offset + self.dest_frame_count
    }
}

/// What a supplier answers: the response and the stretch of material that
/// the block plays, if any.
#[derive(Copy, Clone, Debug, PartialEq, Eq, Structural)]
pub struct Supply {
    pub response: SupplyResponse,
    pub read: Option<ReadOp>,
}

/// The stretches of material that one block plays, in the order of the
/// destination frames: a block that crosses the end of a loop cycle plays
/// two.
#[derive(Copy, Clone, Debug, PartialEq, Eq, Structural)]
pub struct BlockPlan {
    pub response: SupplyResponse,
    pub first: Option<ReadOp>,
    pub second: Option<ReadOp>,
}

impl BlockPlan {
    /// The plan of a block that plays at most one stretch.
    pub open spec fn single(supply: Supply) -> BlockPlan {
        BlockPlan { response: supply.response, first: supply.read, second: None }
    }
}

impl ReadOp {
    /// Whether the stretch fills only frames of a block of `frame_count`
    /// destination frames, and starts within material of `source_frames`
    /// frames.
    pub open spec fn fits(self, frame_count: u64, source_frames: u64) -> bool {
        self.dest_end() <= frame_count && self.source_start_frame <= source_frames
    }
}

impl BlockPlan {
    /// Whether the plan can be carried out on a block of `frame_count`
    /// destination frames over material of `source_frames` frames: each
    /// stretch stays within the block, and the second begins where the
    /// first has ended or later.
    pub open spec fn fits(self, frame_count: u64, source_frames: u64) -> bool {
        &&& self.first is Some ==> self.first->Some_0.fits(frame_count, source_frames)
        &&& self.second is Some ==> self.second->Some_0.fits(frame_count, source_frames)
        &&& self.first is Some && self.second is Some ==> self.first->Some_0.dest_end()
            <= self.second->Some_0.dest_offset
    }
}

} // verus!
