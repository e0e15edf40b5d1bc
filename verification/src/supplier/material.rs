//! The material of a source: the innermost supplier.

use vstd::prelude::*;
use crate::supplier::request::{ReadOp, Supply, SupplyRequest, SupplyResponse};
use crate::units::{clamp_u64, saturate_u64};

verus! {

/// The material of a loaded source, known by its frame rate and its length
/// in frames. Its frames are numbered from zero.
#[derive(Copy, Clone, Debug, PartialEq, Eq, Structural)]
pub struct SourceMaterial {
    pub frame_rate: u32,
    pub frame_count: u64,
}

impl SourceMaterial {
    /// The silent destination frames at the start of a block that begins in
    /// the count-in.
    pub open spec fn lead_in(self, request: SupplyRequest) -> u64 {
        if request.start_frame < 0 {
            let lead = request.dest_frames_spec(
                clamp_u64(-(request.start_frame as int)),
                self.frame_rate,
            );
            if lead < request.dest_frame_count {
                lead
            } else {
                request.dest_frame_count
            }
        } else {
            0
        }
    }

    /// The first source frame that a block plays: frame zero for a block
    /// that begins in the count-in.
    pub open spec fn first_frame(request: SupplyRequest) -> u64 {
        if request.start_frame < 0 {
            0
        } else {
            request.start_frame as u64
        }
    }

    /// What the material answers to a request.
    ///
    /// - From the end of the material on, nothing is written or consumed.
    /// - A block that ends in the count-in is consumed whole and plays
    ///   nothing.
    /// - A block that ends before the end of the material is consumed whole.
    /// - Any other block reaches the end: it consumes what is left.
    ///
    /// The material itself asks for no reset messages.
    pub open spec fn supply_spec(self, request: SupplyRequest) -> Supply {
        let n = request.dest_frame_count;
        let s = request.start_frame as int;
        let ideal = request.source_frames_spec(n, self.frame_rate);
        let lead = self.lead_in(request);
        let from = Self::first_frame(request);
        if s >= self.frame_count {
            Supply { response: SupplyResponse::spec_exceeded_end(), read: None }
        } else if s + ideal <= 0 {
            Supply { response: SupplyResponse::spec_please_continue(ideal), read: None }
        } else if s + ideal < self.frame_count {
            Supply {
                response: SupplyResponse::spec_please_continue(ideal),
                read: Some(
                    ReadOp {
                        source_start_frame: from,
                        dest_offset: lead,
                        dest_frame_count: (n - lead) as u64,
                        reset_before: None,
                        reset_after: None,
                    },
                ),
            }
        } else {
            let rest = request.dest_frames_spec((self.frame_count - from) as u64, self.frame_rate);
            let written = if lead + rest < n {
                (lead + rest) as u64
            } else {
                n
            };
            Supply {
                response: SupplyResponse::spec_reached_end(
                    clamp_u64(self.frame_count - s),
                    written,
                ),
                read: Some(
                    ReadOp {
                        source_start_frame: from,
                        dest_offset: lead,
                        dest_frame_count: (written - lead) as u64,
                        reset_before: None,
                        reset_after: None,
                    },
                ),
            }
        }
    }

    /// Material of the given rate and length.
    pub fn new(frame_rate: u32, frame_count: u64) -> (m: SourceMaterial)
        ensures
            m == (SourceMaterial { frame_rate, frame_count }),
    {
        SourceMaterial { frame_rate, frame_count }
    }

    pub fn frame_rate(&self) -> (r: u32)
        ensures
            r == self.frame_rate,
    {
        self.frame_rate
    }

    pub fn frame_count(&self) -> (r: u64)
        ensures
            r == self.frame_count,
    {
        self.frame_count
    }

    /// Answers a request for a block.
    pub fn supply(&self, request: &SupplyRequest) -> (r: Supply)
        ensures
            r == self.supply_spec(*request),
    {
        let n = request.dest_frame_count;
        let s: i128 = request.start_frame as i128;
        let count: i128 = self.frame_count as i128;
        let ideal = request.source_frames(n, self.frame_rate);
        if s >= count {
            return Supply { response: SupplyResponse::exceeded_end(), read: None };
        }
        if s + ideal as i128 <= 0 {
            return Supply { response: SupplyResponse::please_continue(ideal), read: None };
        }
        let lead: u64 = if request.start_frame < 0 {
            let lead = request.dest_frames(saturate_u64(-s), self.frame_rate);
            if lead < n {
                lead
            } else {
                n
            }
        } else {
            0
        };
        let from: u64 = if request.start_frame < 0 {
            0
        } else {
            request.start_frame as u64
        };
        if s + (ideal as i128) < count {
            Supply {
                response: SupplyResponse::please_continue(ideal),
                read: Some(
                    ReadOp {
                        source_start_frame: from,
                        dest_offset: lead,
                        dest_frame_count: n - lead,
                        reset_before: None,
                        reset_after: None,
                    },
                ),
            }
        } else {
            let rest = request.dest_frames(self.frame_count - from, self.frame_rate);
            let written: u64 = if (lead as u128) + (rest as u128) < n as u128 {
                lead + rest
            } else {
                n
            };
            Supply {
                response: SupplyResponse::reached_end(saturate_u64(count - s), written),
                read: Some(
                    ReadOp {
                        source_start_frame: from,
                        dest_offset: lead,
                        dest_frame_count: written - lead,
                        reset_before: None,
                        reset_after: None,
                    },
                ),
            }
        }
    }
}

} // verus!
