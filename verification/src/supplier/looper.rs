//! A supplier that repeats another one.

use vstd::prelude::*;
use crate::clip_source::state::{Repetition, REPETITION_FADE_LENGTH};
use crate::supplier::fade::{FadeCalculator, FadeFactor};
use crate::supplier::request::{
    BlockPlan, ReadOp, SupplyRequest, SupplyResponse, SupplyResponseStatus,
};
use crate::supplier::section::Section;
use crate::units::{clamp_u64, saturate_u64};

verus! {

/// How often a looper repeats its material. Cycles are counted from zero.
#[derive(Copy, Clone, Debug, PartialEq, Eq, Structural)]
pub enum LoopBehavior {
    /// The material repeats without end.
    Infinitely,
    /// The material ends with the end of the given cycle.
    UntilEndOfCycle(u64),
    /// The material is played as it is, once.
    Disabled,
}

impl LoopBehavior {
    /// The behaviour that a repetition asks for at the time a clip is told
    /// to play: a clip that plays once ends with its first cycle.
    pub open spec fn spec_from_repetition(repetition: Repetition) -> LoopBehavior {
        match repetition {
            Repetition::Infinitely => LoopBehavior::Infinitely,
            Repetition::Once => LoopBehavior::UntilEndOfCycle(0),
        }
    }

    pub fn from_repetition(repetition: Repetition) -> (r: LoopBehavior)
        ensures
            r == Self::spec_from_repetition(repetition),
    {
        match repetition {
            Repetition::Infinitely => LoopBehavior::Infinitely,
            Repetition::Once => LoopBehavior::UntilEndOfCycle(0),
        }
    }
}

/// A supplier that starts its material over whenever it ends. Its frame `x`
/// is frame `x % n` of the material, where `n` is the material's length, in
/// cycle `x / n`.
#[derive(Copy, Clone, Debug, PartialEq, Eq, Structural)]
pub struct Looper {
    pub supplier: Section,
    pub loop_behavior: LoopBehavior,
    pub fades_enabled: bool,
}

impl Looper {
    /// The cycle that a frame lies in. Material without frames has only
    /// cycle zero.
    pub open spec fn cycle_at_frame_spec(self, frame: u64) -> u64 {
        let n = self.supplier.frame_count_spec();
        if n == 0 {
            0
        } else {
            (frame / n) as u64
        }
    }

    /// Whether looping applies to a block that starts at `start_frame`: not
    /// in the count-in, not where there is nothing to repeat, and not after
    /// the last cycle.
    pub open spec fn is_relevant_spec(self, start_frame: i64) -> bool {
        &&& start_frame >= 0
        &&& self.supplier.frame_count_spec() > 0
        &&& match self.loop_behavior {
            LoopBehavior::Infinitely => true,
            LoopBehavior::UntilEndOfCycle(last) => self.cycle_at_frame_spec(start_frame as u64)
                <= last,
            LoopBehavior::Disabled => false,
        }
    }

    /// Whether `cycle` is the one after which the material ends.
    pub open spec fn is_last_cycle_spec(self, cycle: u64) -> bool {
        self.loop_behavior == LoopBehavior::UntilEndOfCycle(cycle)
    }

    /// The destination frames of a block that are left after `written` of
    /// them.
    pub open spec fn rest_of_block(request: SupplyRequest, written: u64) -> u64 {
        if written <= request.dest_frame_count {
            (request.dest_frame_count - written) as u64
        } else {
            0
        }
    }

    /// The destination frames that a response has filled: all that were
    /// asked for, unless the material ended.
    pub open spec fn frames_written(request: SupplyRequest, response: SupplyResponse) -> u64 {
        match response.status {
            SupplyResponseStatus::PleaseContinue => request.dest_frame_count,
            SupplyResponseStatus::ReachedEnd { num_frames_written } => num_frames_written,
        }
    }

    /// What the looper answers to a request.
    ///
    /// Where looping does not apply, the material answers for itself.
    /// Otherwise the block is asked from the material at the start frame's
    /// place within its cycle. If the material goes on, or ends with the
    /// last cycle, that is the answer. If it ends with another cycle, the
    /// rest of the block is asked from the start of the material, and the
    /// looper goes on.
    pub open spec fn supply_spec(self, request: SupplyRequest) -> BlockPlan {
        if !self.is_relevant_spec(request.start_frame) {
            BlockPlan::single(self.supplier.supply_spec(request))
        } else {
            let n = self.supplier.frame_count_spec();
            let cycle = self.cycle_at_frame_spec(request.start_frame as u64);
            let modulo_start = (request.start_frame as u64 % n) as i64;
            let head = self.supplier.supply_spec(request.starting_at(modulo_start));
            if !head.response.is_end() || self.is_last_cycle_spec(cycle) {
                BlockPlan::single(head)
            } else {
                let written = Self::frames_written(request, head.response);
                let tail = self.supplier.supply_spec(
                    request.starting_at(0).for_frames(Self::rest_of_block(request, written)),
                );
                BlockPlan {
                    response: SupplyResponse::spec_please_continue(
                        clamp_u64(
                            head.response.num_frames_consumed + tail.response.num_frames_consumed,
                        ),
                    ),
                    first: head.read,
                    second: match tail.read {
                        Some(op) => Some(op.shifted_in_dest(written)),
                        None => None,
                    },
                }
            }
        }
    }

    /// The gains of the looper's fades: none at the start and the end of
    /// the whole, and a fade of the repetition's length on either side of
    /// each end of a cycle.
    pub open spec fn fade_calculator_spec(self) -> FadeCalculator {
        FadeCalculator {
            end_pos: u64::MAX,
            clip_length: self.supplier.frame_count_spec(),
            clip_cursor_offset: 0,
            start_end_fade_length: 0,
            intermediate_fade_length: REPETITION_FADE_LENGTH,
        }
    }

    /// The gain at a frame of the looper: full level where fades are
    /// switched off, and else falling towards the end of each cycle and
    /// rising from its start.
    pub open spec fn fade_factor_at_spec(self, frame: i64) -> FadeFactor {
        if self.fades_enabled {
            self.fade_calculator_spec().fade_factor_spec(frame)
        } else {
            FadeFactor::full()
        }
    }

    /// A looper that repeats without end, without fades.
    pub fn new(supplier: Section) -> (l: Looper)
        ensures
            l == (Looper { supplier, loop_behavior: LoopBehavior::Infinitely, fades_enabled: false }),
    {
        Looper { supplier, loop_behavior: LoopBehavior::Infinitely, fades_enabled: false }
    }

    pub fn supplier(&self) -> (r: &Section)
        ensures
            *r == self.supplier,
    {
        &self.supplier
    }

    pub fn supplier_mut(&mut self) -> (r: &mut Section)
        ensures
            *r == old(self).supplier,
            *final(self) == (Looper { supplier: *final(r), ..*old(self) }),
    {
        &mut self.supplier
    }

    pub fn loop_behavior(&self) -> (r: LoopBehavior)
        ensures
            r == self.loop_behavior,
    {
        self.loop_behavior
    }

    /// Sets how often the material repeats. This holds from the next
    /// request on.
    pub fn set_loop_behavior(&mut self, loop_behavior: LoopBehavior)
        ensures
            *final(self) == (Looper { loop_behavior, ..*old(self) }),
    {
        self.loop_behavior = loop_behavior;
    }

    /// Sets whether the ends of each cycle are faded.
    pub fn set_fades_enabled(&mut self, fades_enabled: bool)
        ensures
            *final(self) == (Looper { fades_enabled, ..*old(self) }),
    {
        self.fades_enabled = fades_enabled;
    }

    /// The gain at a frame of the looper.
    pub fn fade_factor_at(&self, frame: i64) -> (r: FadeFactor)
        ensures
            r == self.fade_factor_at_spec(frame),
            r.is_gain(),
    {
        if !self.fades_enabled {
            return FadeFactor { num: 1, den: 1 };
        }
        let calculator = FadeCalculator {
            end_pos: u64::MAX,
            clip_length: self.supplier.frame_count(),
            clip_cursor_offset: 0,
            start_end_fade_length: 0,
            intermediate_fade_length: REPETITION_FADE_LENGTH,
        };
        calculator.calculate_fade_factor(frame)
    }

    /// The cycle that a frame lies in.
    pub fn get_cycle_at_frame(&self, frame: u64) -> (r: u64)
        ensures
            r == self.cycle_at_frame_spec(frame),
    {
        let n = self.supplier.frame_count();
        if n == 0 {
            0
        } else {
            frame / n
        }
    }

    /// The frame rate of the material.
    pub fn frame_rate(&self) -> (r: u32)
        ensures
            r == self.supplier.supplier.frame_rate,
    {
        self.supplier.frame_rate()
    }

    /// The length of one cycle in frames.
    pub fn frame_count(&self) -> (r: u64)
        ensures
            r == self.supplier.frame_count_spec(),
    {
        self.supplier.frame_count()
    }

    fn is_relevant(&self, start_frame: i64) -> (r: bool)
        ensures
            r == self.is_relevant_spec(start_frame),
    {
        if start_frame < 0 || self.supplier.frame_count() == 0 {
            return false;
        }
        match self.loop_behavior {
            LoopBehavior::Infinitely => true,
            LoopBehavior::UntilEndOfCycle(last) => self.get_cycle_at_frame(start_frame as u64)
                <= last,
            LoopBehavior::Disabled => false,
        }
    }

    fn is_last_cycle(&self, cycle: u64) -> (r: bool)
        ensures
            r == self.is_last_cycle_spec(cycle),
    {
        match self.loop_behavior {
            LoopBehavior::UntilEndOfCycle(last) => last == cycle,
            _ => false,
        }
    }

    /// Answers a request for a block.
    pub fn supply(&self, request: &SupplyRequest) -> (r: BlockPlan)
        ensures
            r == self.supply_spec(*request),
    {
        if !self.is_relevant(request.start_frame) {
            let inner = self.supplier.supply(request);
            return BlockPlan { response: inner.response, first: inner.read, second: None };
        }
        let n = self.supplier.frame_count();
        let start: u64 = request.start_frame as u64;
        let cycle = self.get_cycle_at_frame(start);
        let modulo_request = SupplyRequest {
            start_frame: (start % n) as i64,
            dest_frame_count: request.dest_frame_count,
            dest_frame_rate: request.dest_frame_rate,
            tempo_factor: request.tempo_factor,
        };
        let head = self.supplier.supply(&modulo_request);
        match head.response.status {
            SupplyResponseStatus::PleaseContinue => BlockPlan {
                response: head.response,
                first: head.read,
                second: None,
            },
            SupplyResponseStatus::ReachedEnd { num_frames_written } => {
                if self.is_last_cycle(cycle) {
                    return BlockPlan { response: head.response, first: head.read, second: None };
                }
                let rest: u64 = if num_frames_written <= request.dest_frame_count {
                    request.dest_frame_count - num_frames_written
                } else {
                    0
                };
                let start_request = SupplyRequest {
                    start_frame: 0,
                    dest_frame_count: rest,
                    dest_frame_rate: request.dest_frame_rate,
                    tempo_factor: request.tempo_factor,
                };
                let tail = self.supplier.supply(&start_request);
                let consumed = saturate_u64(
                    head.response.num_frames_consumed as i128
                        + tail.response.num_frames_consumed as i128,
                );
                let second = match tail.read {
                    Some(op) => Some(
                        ReadOp {
                            source_start_frame: op.source_start_frame,
                            dest_offset: saturate_u64(
                                op.dest_offset as i128 + num_frames_written as i128,
                            ),
                            dest_frame_count: op.dest_frame_count,
                            reset_before: op.reset_before,
                            reset_after: op.reset_after,
                        },
                    ),
                    None => None,
                };
                BlockPlan {
                    response: SupplyResponse::please_continue(consumed),
                    first: head.read,
                    second,
                }
            },
        }
    }
}

/// After its last cycle a looper has nothing left: a block that starts
/// there reports the end and consumes nothing.
pub proof fn law_looper_has_ended_after_its_last_cycle(
    looper: Looper,
    request: SupplyRequest,
    last: u64,
)
    requires
        looper.loop_behavior == LoopBehavior::UntilEndOfCycle(last),
        looper.supplier.frame_count_spec() > 0,
        request.start_frame >= 0,
        looper.cycle_at_frame_spec(request.start_frame as u64) > last,
        looper.supplier.boundary.start_frame + request.start_frame <= i64::MAX,
    ensures
        looper.supply_spec(request).response.is_end(),
        looper.supply_spec(request).response.num_frames_consumed == 0,
        looper.supply_spec(request).second is None,
{
    let n = looper.supplier.frame_count_spec() as int;
    let s = request.start_frame as int;
    vstd::arithmetic::div_mod::lemma_fundamental_div_mod(s, n);
    assert(s >= n) by (nonlinear_arith)
        requires
            s == n * (s / n) + s % n,
            0 <= s % n,
            s / n >= 1,
            n > 0,
    ;
}

/// A looper that repeats without end never reports the end of a block that
/// starts at one of its frames.
pub proof fn law_endless_looper_never_ends(looper: Looper, request: SupplyRequest)
    requires
        looper.loop_behavior == LoopBehavior::Infinitely,
        looper.supplier.frame_count_spec() > 0,
        request.start_frame >= 0,
    ensures
        !looper.supply_spec(request).response.is_end(),
{
}

} // verus!
