//! The supplier at the head of the chain: it sets the tempo at which the
//! material passes.

use vstd::prelude::*;
use crate::supplier::looper::Looper;
use crate::supplier::request::{BlockPlan, SupplyRequest};
use crate::units::{scale, scale_spec, TempoFactor};

verus! {

/// How audio material is brought to another tempo.
#[derive(Copy, Clone, Debug, PartialEq, Eq, Structural)]
pub enum StretchAudioMode {
    /// Changes time but also pitch.
    Resampling,
    /// Uses serious time stretching, without influencing pitch.
    Serious,
}

/// A supplier that plays its material faster or slower by a tempo factor:
/// per destination frame it consumes that many times the source frames.
/// It keeps no position of its own.
#[derive(Copy, Clone, Debug, PartialEq, Eq, Structural)]
pub struct Stretcher {
    pub enabled: bool,
    pub supplier: Looper,
    pub tempo_factor: TempoFactor,
    pub audio_mode: StretchAudioMode,
}

impl Stretcher {
    /// The request that is handed on: at the stretcher's tempo where it is
    /// enabled, unchanged where it is not.
    pub open spec fn inner_request(self, request: SupplyRequest) -> SupplyRequest {
        if self.enabled {
            SupplyRequest { tempo_factor: self.tempo_factor, ..request }
        } else {
            request
        }
    }

    /// What the stretcher answers to a request.
    pub open spec fn supply_spec(self, request: SupplyRequest) -> BlockPlan {
        self.supplier.supply_spec(self.inner_request(request))
    }

    /// The length of the material at the stretcher's tempo, in frames of the
    /// source's rate.
    pub open spec fn frame_count_spec(self) -> u64 {
        scale_spec(
            self.supplier.supplier.frame_count_spec() as nat,
            self.tempo_factor.eff_den(),
            self.tempo_factor.eff_num(),
        )
    }

    /// A stretcher that is switched off, at tempo factor one.
    pub fn new(supplier: Looper) -> (s: Stretcher)
        ensures
            s == (Stretcher {
                enabled: false,
                supplier,
                tempo_factor: TempoFactor::one(),
                audio_mode: StretchAudioMode::Resampling,
            }),
    {
        Stretcher {
            enabled: false,
            supplier,
            tempo_factor: TempoFactor::unity(),
            audio_mode: StretchAudioMode::Resampling,
        }
    }

    pub fn supplier(&self) -> (r: &Looper)
        ensures
            *r == self.supplier,
    {
        &self.supplier
    }

    pub fn supplier_mut(&mut self) -> (r: &mut Looper)
        ensures
            *r == old(self).supplier,
            *final(self) == (Stretcher { supplier: *final(r), ..*old(self) }),
    {
        &mut self.supplier
    }

    pub fn set_enabled(&mut self, enabled: bool)
        ensures
            *final(self) == (Stretcher { enabled, ..*old(self) }),
    {
        self.enabled = enabled;
    }

    /// Sets the tempo factor, which is kept strictly positive: a part that
    /// is zero is raised to one.
    pub fn set_tempo_factor(&mut self, tempo_factor: TempoFactor)
        ensures
            final(self).tempo_factor.is_positive(),
            final(self).tempo_factor.num as nat == tempo_factor.eff_num(),
            final(self).tempo_factor.den as nat == tempo_factor.eff_den(),
            final(self).enabled == old(self).enabled,
            final(self).supplier == old(self).supplier,
            final(self).audio_mode == old(self).audio_mode,
    {
        self.tempo_factor = tempo_factor.floored();
    }

    pub fn tempo_factor(&self) -> (r: TempoFactor)
        ensures
            r == self.tempo_factor,
    {
        self.tempo_factor
    }

    pub fn set_mode(&mut self, mode: StretchAudioMode)
        ensures
            *final(self) == (Stretcher { audio_mode: mode, ..*old(self) }),
    {
        self.audio_mode = mode;
    }

    /// Answers a request for a block.
    pub fn supply(&self, request: &SupplyRequest) -> (r: BlockPlan)
        ensures
            r == self.supply_spec(*request),
    {
        if !self.enabled {
            return self.supplier.supply(request);
        }
        let inner_request = SupplyRequest {
            start_frame: request.start_frame,
            dest_frame_count: request.dest_frame_count,
            dest_frame_rate: request.dest_frame_rate,
            tempo_factor: self.tempo_factor,
        };
        self.supplier.supply(&inner_request)
    }

    /// The length of the material at the stretcher's tempo.
    pub fn frame_count(&self) -> (r: u64)
        ensures
            r == self.frame_count_spec(),
    {
        let f = self.tempo_factor.floored();
        scale(self.supplier.frame_count(), f.den as u64, f.num as u64)
    }
}

} // verus!
