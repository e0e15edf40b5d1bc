//! The chain of suppliers of one clip.

use vstd::prelude::*;
use crate::midi::MidiResetMessageRange;
use crate::supplier::looper::{LoopBehavior, Looper};
use crate::supplier::material::SourceMaterial;
use crate::supplier::request::{BlockPlan, SupplyRequest};
use crate::supplier::section::{Boundary, Instruction, Section};
use crate::supplier::stretcher::{StretchAudioMode, Stretcher};
use crate::units::TempoFactor;

verus! {

/// The suppliers of one clip, from the material outwards: a section cuts it
/// to its bounds, a looper repeats the section, and a stretcher, the head of
/// the chain, sets the tempo. The parts can be set anew at any time; the
/// chain is never rebuilt for that.
#[derive(Copy, Clone, Debug, PartialEq, Eq, Structural)]
pub struct ClipSupplierChain {
    pub head: Stretcher,
}

impl ClipSupplierChain {
    /// The looper of the chain.
    pub open spec fn spec_looper(self) -> Looper {
        self.head.supplier
    }

    /// The section of the chain.
    pub open spec fn spec_section(self) -> Section {
        self.head.supplier.supplier
    }

    /// The material at the bottom of the chain.
    pub open spec fn spec_material(self) -> SourceMaterial {
        self.head.supplier.supplier.supplier
    }

    /// What the chain answers to a request: what its head answers.
    pub open spec fn supply_spec(self, request: SupplyRequest) -> BlockPlan {
        self.head.supply_spec(request)
    }

    /// The chain in its first state.
    pub open spec fn spec_new(source: SourceMaterial) -> ClipSupplierChain {
        ClipSupplierChain {
            head: Stretcher {
                enabled: false,
                supplier: Looper {
                    supplier: Section {
                        supplier: source,
                        boundary: Boundary::spec_default(),
                        midi_reset_msg_range: MidiResetMessageRange::spec_none(),
                    },
                    loop_behavior: LoopBehavior::Infinitely,
                    fades_enabled: false,
                },
                tempo_factor: TempoFactor::one(),
                audio_mode: StretchAudioMode::Resampling,
            },
        }
    }

    /// A chain over the given material: the whole of it, repeated without
    /// end, at its own tempo.
    pub fn new(source: SourceMaterial) -> (c: ClipSupplierChain)
        ensures
            c == Self::spec_new(source),
    {
        ClipSupplierChain { head: Stretcher::new(Looper::new(Section::new(source))) }
    }

    /// The head of the chain, which answers the requests.
    pub fn head(&self) -> (r: &Stretcher)
        ensures
            *r == self.head,
    {
        &self.head
    }

    pub fn looper(&self) -> (r: &Looper)
        ensures
            *r == self.spec_looper(),
    {
        self.head.supplier()
    }

    pub fn section(&self) -> (r: &Section)
        ensures
            *r == self.spec_section(),
    {
        self.head.supplier().supplier()
    }

    pub fn stretcher_mut(&mut self) -> (r: &mut Stretcher)
        ensures
            *r == old(self).head,
            final(self).head == *final(r),
    {
        &mut self.head
    }

    pub fn looper_mut(&mut self) -> (r: &mut Looper)
        ensures
            *r == old(self).head.supplier,
            final(self).head == (Stretcher { supplier: *final(r), ..old(self).head }),
    {
        &mut self.head.supplier
    }

    pub fn section_mut(&mut self) -> (r: &mut Section)
        ensures
            *r == old(self).head.supplier.supplier,
            final(self).head == (Stretcher {
                supplier: Looper { supplier: *final(r), ..old(self).head.supplier },
                ..old(self).head
            }),
    {
        &mut self.head.supplier.supplier
    }

    /// Answers a request for a block.
    pub fn supply(&self, request: &SupplyRequest) -> (r: BlockPlan)
        ensures
            r == self.supply_spec(*request),
    {
        self.head.supply(request)
    }
}

proof fn lemma_material_read_fits(material: SourceMaterial, request: SupplyRequest)
    ensures
        ({
            let supply = material.supply_spec(request);
            &&& supply.read is Some ==> supply.read->Some_0.fits(
                request.dest_frame_count,
                material.frame_count,
            )
            &&& supply.read is Some ==> supply.read->Some_0.dest_end() <= Looper::frames_written(
                request,
                supply.response,
            )
            &&& Looper::frames_written(request, supply.response) <= request.dest_frame_count
        }),
{
}

proof fn lemma_section_read_fits(section: Section, request: SupplyRequest)
    ensures
        ({
            let supply = section.supply_spec(request);
            &&& supply.read is Some ==> supply.read->Some_0.fits(
                request.dest_frame_count,
                section.supplier.frame_count,
            )
            &&& supply.read is Some ==> supply.read->Some_0.dest_end() <= Looper::frames_written(
                request,
                supply.response,
            )
            &&& Looper::frames_written(request, supply.response) <= request.dest_frame_count
        }),
{
    lemma_material_read_fits(section.supplier, request);
    match section.instruction_spec(request) {
        Instruction::ApplySection(data) => {
            lemma_material_read_fits(
                section.supplier,
                request.starting_at(data.phase_one.start_frame).for_frames(
                    data.phase_one.num_frames_to_be_written,
                ),
            );
        },
        _ => {},
    }
}

/// Whatever a chain is asked, its plan can be carried out: each stretch of
/// material stays within the block that was asked for and starts within
/// the material, and where a block plays two stretches, the second follows
/// the first.
pub proof fn law_plan_stays_within_block_and_material(
    chain: ClipSupplierChain,
    request: SupplyRequest,
)
    ensures
        chain.supply_spec(request).fits(request.dest_frame_count, chain.spec_material().frame_count),
{
    let looper = chain.spec_looper();
    let section = chain.spec_section();
    let inner = chain.head.inner_request(request);
    lemma_section_read_fits(section, inner);
    if looper.is_relevant_spec(inner.start_frame) {
        let n = section.frame_count_spec();
        let modulo_start = (inner.start_frame as u64 % n) as i64;
        let head_request = inner.starting_at(modulo_start);
        lemma_section_read_fits(section, head_request);
        let head = section.supply_spec(head_request);
        let written = Looper::frames_written(inner, head.response);
        let tail_request = inner.starting_at(0).for_frames(Looper::rest_of_block(inner, written));
        lemma_section_read_fits(section, tail_request);
    }
}

} // verus!
