//! A supplier that restricts another one to a section of its material.

use vstd::prelude::*;
use crate::clip_source::state::START_END_FADE_LENGTH;
use crate::midi::{MidiResetMessageRange, MidiResetMessages};
use crate::supplier::fade::{ramp, ramp_spec, FadeFactor};
use crate::supplier::material::SourceMaterial;
use crate::supplier::request::{
    ReadOp, Supply, SupplyRequest, SupplyResponse, SupplyResponseStatus,
};
use crate::units::{
    clamp_i64, clamp_u64, convert_duration_in_frames_to_seconds, frames_to_nanos_spec,
    saturate_i64, saturate_u64,
};

verus! {

/// The bounds of a section: it starts `start_frame` frames into the
/// material and, where `length` is set, ends that many frames later.
#[derive(Copy, Clone, Debug, PartialEq, Eq, Structural)]
pub struct Boundary {
    pub start_frame: u64,
    pub length: Option<u64>,
}

impl Boundary {
    /// The bounds that leave the material as it is.
    pub open spec fn spec_default() -> Boundary {
        Boundary { start_frame: 0, length: None }
    }

    pub open spec fn is_default_spec(self) -> bool {
        self == Self::spec_default()
    }

    /// Whether the bounds leave the material as it is.
    pub fn is_default(&self) -> (r: bool)
        ensures
            r == self.is_default_spec(),
    {
        self.start_frame == 0 && self.length.is_none()
    }
}

/// A request to have material at hand before it is asked for.
#[derive(Copy, Clone, Debug, PartialEq, Eq, Structural)]
pub struct PreBufferFillRequest {
    pub start_frame: i64,
}

/// What a section makes of a request, once its bounds are known to apply.
#[derive(Copy, Clone, Debug, PartialEq, Eq, Structural)]
pub struct PhaseOne {
    /// Where the block starts in the material.
    pub start_frame: i64,
    /// How many destination frames the material is asked for.
    pub num_frames_to_be_written: u64,
}

/// How the answer of the inner supplier is turned into the section's own.
#[derive(Copy, Clone, Debug, PartialEq, Eq, Structural)]
pub enum PhaseTwo {
    /// The section has no end of its own.
    Unbounded,
    /// The section ends after a given length.
    Bounded {
        reached_bound: bool,
        bounded_num_frames_to_be_consumed: u64,
        bounded_num_frames_to_be_written: u64,
        ideal_num_frames_to_be_consumed: u64,
    },
}

#[derive(Copy, Clone, Debug, PartialEq, Eq, Structural)]
pub struct SectionRequestData {
    pub phase_one: PhaseOne,
    pub phase_two: PhaseTwo,
}

/// What a section does with a request.
#[derive(Copy, Clone, Debug, PartialEq, Eq, Structural)]
pub enum Instruction {
    /// Hand the request on unchanged.
    Bypass,
    /// Ask the inner supplier for a part of the section.
    ApplySection(SectionRequestData),
    /// Answer without asking the inner supplier.
    Return(SupplyResponse),
}

/// A supplier that plays only the frames of its material that lie within
/// its bounds. Its own frame zero is the first frame within them. Where it
/// cuts MIDI material, it asks for reset messages at the cut.
#[derive(Copy, Clone, Debug, PartialEq, Eq, Structural)]
pub struct Section {
    pub supplier: SourceMaterial,
    pub boundary: Boundary,
    pub midi_reset_msg_range: MidiResetMessageRange,
}

impl Section {
    /// What the section does with a request.
    ///
    /// With default bounds, and for a block that ends in the count-in, the
    /// request passes through. A block that starts after the end of a
    /// bounded section is answered at once. Any other block is asked from
    /// the material `start_frame` frames later, and cut off at the bound.
    pub open spec fn instruction_spec(self, request: SupplyRequest) -> Instruction {
        let n = request.dest_frame_count;
        let rate = self.supplier.frame_rate;
        let ideal = request.source_frames_spec(n, rate);
        let s = request.start_frame as int;
        let start_in_source = self.boundary.start_frame + s;
        if self.boundary.is_default_spec() {
            Instruction::Bypass
        } else if s + ideal <= 0 {
            Instruction::Bypass
        } else {
            match self.boundary.length {
                None => Instruction::ApplySection(
                    SectionRequestData {
                        phase_one: PhaseOne {
                            start_frame: clamp_i64(start_in_source),
                            num_frames_to_be_written: n,
                        },
                        phase_two: PhaseTwo::Unbounded,
                    },
                ),
                Some(length) => {
                    if s > length {
                        Instruction::Return(SupplyResponse::spec_exceeded_end())
                    } else {
                        let reached_bound = s + ideal >= length;
                        let consumed = if reached_bound {
                            clamp_u64(length - s)
                        } else {
                            ideal
                        };
                        let fill = request.dest_frames_spec(consumed, rate);
                        let written = if reached_bound && fill < n {
                            fill
                        } else {
                            n
                        };
                        Instruction::ApplySection(
                            SectionRequestData {
                                phase_one: PhaseOne {
                                    start_frame: clamp_i64(start_in_source),
                                    num_frames_to_be_written: written,
                                },
                                phase_two: PhaseTwo::Bounded {
                                    reached_bound,
                                    bounded_num_frames_to_be_consumed: consumed,
                                    bounded_num_frames_to_be_written: written,
                                    ideal_num_frames_to_be_consumed: ideal,
                                },
                            },
                        )
                    }
                },
            }
        }
    }

    /// The section's answer, given that of the inner supplier.
    ///
    /// An unbounded section answers as the material does. A bounded one
    /// that has reached its bound reports the end; one that has not goes
    /// on, also where the material itself has ended before the bound.
    pub open spec fn outer_response_spec(
        inner_response: SupplyResponse,
        phase_two: PhaseTwo,
    ) -> SupplyResponse {
        match phase_two {
            PhaseTwo::Unbounded => inner_response,
            PhaseTwo::Bounded {
                reached_bound,
                bounded_num_frames_to_be_consumed,
                bounded_num_frames_to_be_written,
                ideal_num_frames_to_be_consumed,
            } => {
                if reached_bound {
                    SupplyResponse::spec_reached_end(
                        bounded_num_frames_to_be_consumed,
                        bounded_num_frames_to_be_written,
                    )
                } else {
                    match inner_response.status {
                        SupplyResponseStatus::PleaseContinue => SupplyResponse::spec_please_continue(
                            bounded_num_frames_to_be_consumed,
                        ),
                        SupplyResponseStatus::ReachedEnd { .. } => SupplyResponse::spec_please_continue(
                            ideal_num_frames_to_be_consumed,
                        ),
                    }
                }
            },
        }
    }

    /// The reset messages that go before a block within the bounds: those
    /// for the start of the section, for a block that starts at the
    /// section's first frame or before it.
    pub open spec fn reset_before_spec(self, request: SupplyRequest) -> Option<MidiResetMessages> {
        if request.start_frame <= 0 {
            Some(self.midi_reset_msg_range.left)
        } else {
            None
        }
    }

    /// The reset messages that go after a block within the bounds: those
    /// for the end of the section, for a block that reaches the bound.
    pub open spec fn reset_after_spec(self, phase_two: PhaseTwo) -> Option<MidiResetMessages> {
        match phase_two {
            PhaseTwo::Bounded { reached_bound: true, .. } => Some(self.midi_reset_msg_range.right),
            _ => None,
        }
    }

    /// What the section answers to a request.
    ///
    /// A request that passes through is answered by the material. A block
    /// within the bounds is asked from the material at its place there; the
    /// stretch that it plays is marked with the reset messages of the
    /// section's ends where the block touches them.
    pub open spec fn supply_spec(self, request: SupplyRequest) -> Supply {
        match self.instruction_spec(request) {
            Instruction::Bypass => self.supplier.supply_spec(request),
            Instruction::Return(response) => Supply { response, read: None },
            Instruction::ApplySection(data) => {
                let inner = self.supplier.supply_spec(
                    request.starting_at(data.phase_one.start_frame).for_frames(
                        data.phase_one.num_frames_to_be_written,
                    ),
                );
                Supply {
                    response: Self::outer_response_spec(inner.response, data.phase_two),
                    read: match inner.read {
                        Some(op) => Some(
                            ReadOp {
                                reset_before: self.reset_before_spec(request),
                                reset_after: self.reset_after_spec(data.phase_two),
                                ..op
                            },
                        ),
                        None => None,
                    },
                }
            },
        }
    }

    /// The gain of the fade at the start of the section, at one of the
    /// section's frames: a section that starts within the material fades
    /// in from its first frame.
    pub open spec fn fade_in_spec(self, frame: i64) -> FadeFactor {
        if self.boundary.start_frame > 0 {
            ramp_spec(frame as int, START_END_FADE_LENGTH)
        } else {
            FadeFactor::full()
        }
    }

    /// The gain of the fade at the end of the section: a section with a
    /// length fades out towards its last frame.
    pub open spec fn fade_out_spec(self, frame: i64) -> FadeFactor {
        match self.boundary.length {
            Some(length) => ramp_spec(length - frame, START_END_FADE_LENGTH),
            None => FadeFactor::full(),
        }
    }

    /// The gain at one of the section's frames: that of both fades.
    pub open spec fn fade_factor_at_spec(self, frame: i64) -> FadeFactor {
        self.fade_in_spec(frame).times_spec(self.fade_out_spec(frame))
    }

    /// The length of the section in frames.
    pub open spec fn frame_count_spec(self) -> u64 {
        if self.boundary.is_default_spec() {
            self.supplier.frame_count
        } else {
            match self.boundary.length {
                Some(length) => length,
                None => if self.supplier.frame_count >= self.boundary.start_frame {
                    (self.supplier.frame_count - self.boundary.start_frame) as u64
                } else {
                    0
                },
            }
        }
    }

    /// A section with default bounds: the whole material, without reset
    /// messages.
    pub fn new(supplier: SourceMaterial) -> (s: Section)
        ensures
            s.supplier == supplier,
            s.boundary == Boundary::spec_default(),
            s.midi_reset_msg_range == MidiResetMessageRange::spec_none(),
    {
        Section {
            supplier,
            boundary: Boundary { start_frame: 0, length: None },
            midi_reset_msg_range: MidiResetMessageRange::none(),
        }
    }

    /// Sets the reset messages that are sent at the start and at the end of
    /// the section.
    pub fn set_midi_reset_msg_range(&mut self, range: MidiResetMessageRange)
        ensures
            *final(self) == (Section { midi_reset_msg_range: range, ..*old(self) }),
    {
        self.midi_reset_msg_range = range;
    }

    pub fn start_frame(&self) -> (r: u64)
        ensures
            r == self.boundary.start_frame,
    {
        self.boundary.start_frame
    }

    pub fn length(&self) -> (r: Option<u64>)
        ensures
            r == self.boundary.length,
    {
        self.boundary.length
    }

    /// Sets the bounds. The material stays as it is.
    pub fn set_bounds(&mut self, start_frame: u64, length: Option<u64>)
        ensures
            *final(self) == (Section { boundary: Boundary { start_frame, length }, ..*old(self) }),
    {
        self.boundary.start_frame = start_frame;
        self.boundary.length = length;
    }

    /// Goes back to default bounds.
    pub fn reset(&mut self)
        ensures
            *final(self) == (Section { boundary: Boundary::spec_default(), ..*old(self) }),
    {
        self.boundary = Boundary { start_frame: 0, length: None };
    }

    pub fn supplier(&self) -> (r: &SourceMaterial)
        ensures
            *r == self.supplier,
    {
        &self.supplier
    }

    pub fn supplier_mut(&mut self) -> (r: &mut SourceMaterial)
        ensures
            *r == old(self).supplier,
            *final(self) == (Section { supplier: *final(r), ..*old(self) }),
    {
        &mut self.supplier
    }

    /// Decides what to do with a request.
    pub fn get_instruction(&self, request: &SupplyRequest) -> (r: Instruction)
        ensures
            r == self.instruction_spec(*request),
    {
        if self.boundary.is_default() {
            return Instruction::Bypass;
        }
        let n = request.dest_frame_count;
        let rate = self.supplier.frame_rate();
        let ideal = request.source_frames(n, rate);
        let s: i128 = request.start_frame as i128;
        if s + ideal as i128 <= 0 {
            return Instruction::Bypass;
        }
        let start_in_source: i128 = self.boundary.start_frame as i128 + s;
        match self.boundary.length {
            None => Instruction::ApplySection(
                SectionRequestData {
                    phase_one: PhaseOne {
                        start_frame: saturate_i64(start_in_source),
                        num_frames_to_be_written: n,
                    },
                    phase_two: PhaseTwo::Unbounded,
                },
            ),
            Some(length) => {
                if s > length as i128 {
                    return Instruction::Return(SupplyResponse::exceeded_end());
                }
                let reached_bound = s + ideal as i128 >= length as i128;
                let consumed = if reached_bound {
                    saturate_u64(length as i128 - s)
                } else {
                    ideal
                };
                let fill = request.dest_frames(consumed, rate);
                let written = if reached_bound && fill < n {
                    fill
                } else {
                    n
                };
                Instruction::ApplySection(
                    SectionRequestData {
                        phase_one: PhaseOne {
                            start_frame: saturate_i64(start_in_source),
                            num_frames_to_be_written: written,
                        },
                        phase_two: PhaseTwo::Bounded {
                            reached_bound,
                            bounded_num_frames_to_be_consumed: consumed,
                            bounded_num_frames_to_be_written: written,
                            ideal_num_frames_to_be_consumed: ideal,
                        },
                    },
                )
            },
        }
    }

    /// Turns the answer of the inner supplier into the section's own.
    pub fn generate_outer_response(inner_response: SupplyResponse, phase_two: PhaseTwo) -> (r:
        SupplyResponse)
        ensures
            r == Self::outer_response_spec(inner_response, phase_two),
    {
        match phase_two {
            PhaseTwo::Unbounded => inner_response,
            PhaseTwo::Bounded {
                reached_bound,
                bounded_num_frames_to_be_consumed,
                bounded_num_frames_to_be_written,
                ideal_num_frames_to_be_consumed,
            } => {
                if reached_bound {
                    SupplyResponse::reached_end(
                        bounded_num_frames_to_be_consumed,
                        bounded_num_frames_to_be_written,
                    )
                } else {
                    match inner_response.status {
                        SupplyResponseStatus::PleaseContinue => SupplyResponse::please_continue(
                            bounded_num_frames_to_be_consumed,
                        ),
                        SupplyResponseStatus::ReachedEnd { .. } => SupplyResponse::please_continue(
                            ideal_num_frames_to_be_consumed,
                        ),
                    }
                }
            },
        }
    }

    /// Answers a request for a block.
    pub fn supply(&self, request: &SupplyRequest) -> (r: Supply)
        ensures
            r == self.supply_spec(*request),
    {
        match self.get_instruction(request) {
            Instruction::Bypass => self.supplier.supply(request),
            Instruction::Return(response) => Supply { response, read: None },
            Instruction::ApplySection(data) => {
                let inner_request = SupplyRequest {
                    start_frame: data.phase_one.start_frame,
                    dest_frame_count: data.phase_one.num_frames_to_be_written,
                    dest_frame_rate: request.dest_frame_rate,
                    tempo_factor: request.tempo_factor,
                };
                let inner = self.supplier.supply(&inner_request);
                // Reset MIDI at start if necessary
                let reset_before = if request.start_frame <= 0 {
                    Some(self.midi_reset_msg_range.left)
                } else {
                    None
                };
                // Reset MIDI at end if necessary
                let reset_after = match data.phase_two {
                    PhaseTwo::Bounded { reached_bound: true, .. } => Some(
                        self.midi_reset_msg_range.right,
                    ),
                    _ => None,
                };
                Supply {
                    response: Self::generate_outer_response(inner.response, data.phase_two),
                    read: match inner.read {
                        Some(op) => Some(
                            ReadOp {
                                source_start_frame: op.source_start_frame,
                                dest_offset: op.dest_offset,
                                dest_frame_count: op.dest_frame_count,
                                reset_before,
                                reset_after,
                            },
                        ),
                        None => None,
                    },
                }
            },
        }
    }

    /// The gain at one of the section's frames, by which the edges of the
    /// section are kept from clicking.
    pub fn fade_factor_at(&self, frame: i64) -> (r: FadeFactor)
        ensures
            r == self.fade_factor_at_spec(frame),
            r.is_gain(),
    {
        let fade_in = if self.boundary.start_frame > 0 {
            ramp(frame as i128, START_END_FADE_LENGTH)
        } else {
            FadeFactor { num: 1, den: 1 }
        };
        let fade_out = match self.boundary.length {
            Some(length) => ramp(length as i128 - frame as i128, START_END_FADE_LENGTH),
            None => FadeFactor { num: 1, den: 1 },
        };
        fade_in.times(fade_out)
    }

    /// The request to have material at hand, as it is handed on to the
    /// material: unchanged with default bounds, and otherwise from as many
    /// frames later as the section starts into the material.
    pub fn pre_buffer(&self, request: PreBufferFillRequest) -> (r: PreBufferFillRequest)
        ensures
            r == (if self.boundary.is_default_spec() {
                request
            } else {
                PreBufferFillRequest {
                    start_frame: clamp_i64(request.start_frame + self.boundary.start_frame),
                }
            }),
    {
        if self.boundary.is_default() {
            return request;
        }
        PreBufferFillRequest {
            start_frame: saturate_i64(
                request.start_frame as i128 + self.boundary.start_frame as i128,
            ),
        }
    }

    /// The frame rate of the material.
    pub fn frame_rate(&self) -> (r: u32)
        ensures
            r == self.supplier.frame_rate,
    {
        self.supplier.frame_rate()
    }

    /// The length of the section in frames.
    pub fn frame_count(&self) -> (r: u64)
        ensures
            r == self.frame_count_spec(),
    {
        if self.boundary.is_default() {
            return self.supplier.frame_count();
        }
        match self.boundary.length {
            Some(length) => length,
            None => {
                let source_frame_count = self.supplier.frame_count();
                if source_frame_count >= self.boundary.start_frame {
                    source_frame_count - self.boundary.start_frame
                } else {
                    0
                }
            },
        }
    }

    /// The length of the section in nanoseconds.
    pub fn duration(&self) -> (r: u64)
        ensures
            r == frames_to_nanos_spec(
                self.frame_count_spec() as nat,
                self.supplier.frame_rate as nat,
            ),
    {
        convert_duration_in_frames_to_seconds(self.frame_count(), self.frame_rate())
    }
}

/// A section with a set length is exactly that long, whatever the length of
/// its material.
pub proof fn law_bounded_section_has_its_own_length(section: Section, length: u64)
    requires
        section.boundary.length == Some(length),
    ensures
        section.frame_count_spec() == length,
{
}

/// Within a bounded section, a block that starts at section frame `s` plays
/// the material from frame `start_frame + s` on: the section's frame zero is
/// the material's frame `start_frame`.
pub proof fn law_section_frame_maps_to_source_frame(section: Section, request: SupplyRequest)
    requires
        !section.boundary.is_default_spec(),
        0 <= request.start_frame,
        section.boundary.start_frame + request.start_frame <= i64::MAX,
        section.supply_spec(request).read is Some,
    ensures
        section.supply_spec(request).read->Some_0.source_start_frame
            == section.boundary.start_frame + request.start_frame,
{
}

/// A bounded section reports the end in exactly the block that reaches its
/// bound, and that block consumes exactly the frames that were left: the
/// frames consumed from the section's frame zero up to the end add up to its
/// length.
pub proof fn law_section_ends_exactly_at_its_bound(
    section: Section,
    request: SupplyRequest,
    length: u64,
)
    requires
        section.boundary.length == Some(length),
        0 <= request.start_frame <= length,
        request.source_frames_spec(request.dest_frame_count, section.supplier.frame_rate) > 0,
    ensures
        ({
            let ideal = request.source_frames_spec(
                request.dest_frame_count,
                section.supplier.frame_rate,
            );
            let response = section.supply_spec(request).response;
            &&& response.is_end() <==> request.start_frame + ideal >= length
            &&& response.is_end() ==> request.start_frame + response.num_frames_consumed == length
            &&& !response.is_end() ==> response.num_frames_consumed == ideal
        }),
{
}

/// Within any section, a block that starts at one of the section's frames
/// either goes on, having consumed the frames it asked for, or reports the
/// end, and then it has consumed exactly the frames that were left.
pub proof fn law_section_consumes_up_to_its_end(section: Section, request: SupplyRequest)
    requires
        0 <= request.start_frame < section.frame_count_spec(),
        section.boundary.start_frame + request.start_frame <= i64::MAX,
        request.source_frames_spec(request.dest_frame_count, section.supplier.frame_rate) > 0,
    ensures
        ({
            let ideal = request.source_frames_spec(
                request.dest_frame_count,
                section.supplier.frame_rate,
            );
            let response = section.supply_spec(request).response;
            &&& response.is_end() <==> request.start_frame + ideal >= section.frame_count_spec()
            &&& response.is_end() ==> request.start_frame + response.num_frames_consumed
                == section.frame_count_spec()
            &&& !response.is_end() ==> response.num_frames_consumed == ideal
        }),
{
}

} // verus!
