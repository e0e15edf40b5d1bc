//! The browser as an instance holds it: not yet loaded, with what was kept
//! of an earlier session, or loaded; and where a preset is loaded to.

use vstd::prelude::*;
use crate::pot::collection::RuntimePotUnit;
use crate::pot::{
    DestinationDescriptor, DestinationTrackDescriptor, PersistentFilterSettings,
    PersistentNksFilterSettings, PersistentState, RuntimeState,
};

verus! {

/// A track of a project.
#[derive(Copy, Clone, Debug, PartialEq, Eq, Structural)]
pub enum TrackRef {
    Master,
    /// The track at a place among the project's tracks, the first at 0.
    Track(u32),
}

/// What is read of a project to find a track.
#[derive(Copy, Clone, Debug, PartialEq, Eq, Structural)]
pub struct ProjectTracks {
    /// The first track that is selected, the master track counted.
    pub first_selected: Option<TrackRef>,
    /// Whether the master track can be had.
    pub has_master: bool,
    /// The number of tracks, the master track not counted.
    pub track_count: u32,
}

impl DestinationTrackDescriptor {
    /// The track that is meant, or why there is none.
    pub open spec fn resolve_spec(self, project: ProjectTracks) -> Result<TrackRef, Seq<char>> {
        match self {
            DestinationTrackDescriptor::SelectedTrack => match project.first_selected {
                Some(track) => Ok(track),
                None => Err("No track selected"@),
            },
            DestinationTrackDescriptor::MasterTrack => if project.has_master {
                Ok(TrackRef::Master)
            } else {
                Err("Couldn't get master track"@)
            },
            DestinationTrackDescriptor::Track(i) => if i < project.track_count {
                Ok(TrackRef::Track(i))
            } else {
                Err("No track at that position"@)
            },
        }
    }

    /// Finds the track that is meant in a project.
    pub fn resolve(&self, project: &ProjectTracks) -> (r: Result<TrackRef, &'static str>)
        ensures
            match (r, self.resolve_spec(*project)) {
                (Ok(track), Ok(wanted)) => track == wanted,
                (Err(e), Err(wanted)) => e@ == wanted,
                _ => false,
            },
    {
        match self {
            DestinationTrackDescriptor::SelectedTrack => match project.first_selected {
                Some(track) => Ok(track),
                None => Err("No track selected"),
            },
            DestinationTrackDescriptor::MasterTrack => if project.has_master {
                Ok(TrackRef::Master)
            } else {
                Err("Couldn't get master track")
            },
            DestinationTrackDescriptor::Track(i) => if *i < project.track_count {
                Ok(TrackRef::Track(*i))
            } else {
                Err("No track at that position")
            },
        }
    }
}

/// A place in the effect chain of a track.
#[derive(Copy, Clone, Debug, PartialEq, Eq, Structural)]
pub struct Destination {
    pub track: TrackRef,
    pub fx_index: u32,
}

/// What is to be done to have a destination.
#[derive(Copy, Clone, Debug, PartialEq, Eq, Structural)]
pub enum DestinationInstruction {
    /// The destination is there.
    Existing(Destination),
    /// A track has to be added first.
    AddTrack,
}

impl DestinationInstruction {
    pub fn get_existing(&self) -> (r: Option<&Destination>)
        ensures
            r == (match *self {
                DestinationInstruction::Existing(d) => Some(&d),
                DestinationInstruction::AddTrack => None,
            }),
    {
        match self {
            DestinationInstruction::Existing(d) => Some(d),
            DestinationInstruction::AddTrack => None,
        }
    }
}

impl DestinationDescriptor {
    /// The destination on the track that is meant, or the instruction to
    /// add a track where that track is not there.
    pub open spec fn resolve_destination_spec(
        self,
        project: ProjectTracks,
    ) -> DestinationInstruction {
        match self.track.resolve_spec(project) {
            Ok(track) => DestinationInstruction::Existing(
                Destination { track, fx_index: self.fx_index },
            ),
            Err(_) => DestinationInstruction::AddTrack,
        }
    }

    /// Finds the destination in a project. This never fails: where the
    /// track is not there, a track is to be added.
    pub fn resolve_destination(&self, project: &ProjectTracks) -> (r: Result<
        DestinationInstruction,
        &'static str,
    >)
        ensures
            r is Ok,
            r->Ok_0 == self.resolve_destination_spec(*project),
    {
        match self.track.resolve(project) {
            Ok(track) => Ok(
                DestinationInstruction::Existing(Destination { track, fx_index: self.fx_index }),
            ),
            Err(_) => Ok(DestinationInstruction::AddTrack),
        }
    }
}

fn copy_of(text: &Option<String>) -> (r: Option<String>)
    ensures
        r == *text,
{
    match text {
        Some(t) => Some(t.clone()),
        None => None,
    }
}

impl PersistentState {
    /// A copy of the state.
    pub fn duplicate(&self) -> (r: Self)
        ensures
            r == *self,
    {
        PersistentState {
            filter_settings: PersistentFilterSettings {
                nks: PersistentNksFilterSettings {
                    bank: copy_of(&self.filter_settings.nks.bank),
                    sub_bank: copy_of(&self.filter_settings.nks.sub_bank),
                    category: copy_of(&self.filter_settings.nks.category),
                    sub_category: copy_of(&self.filter_settings.nks.sub_category),
                    mode: copy_of(&self.filter_settings.nks.mode),
                },
            },
            preset_id: copy_of(&self.preset_id),
        }
    }

    /// The state in which nothing is kept.
    pub open spec fn is_blank(self) -> bool {
        &&& self.preset_id is None
        &&& self.filter_settings.nks.bank is None
        &&& self.filter_settings.nks.sub_bank is None
        &&& self.filter_settings.nks.category is None
        &&& self.filter_settings.nks.sub_category is None
        &&& self.filter_settings.nks.mode is None
    }

    /// The state in which nothing is kept.
    pub fn blank() -> (r: Self)
        ensures
            r.is_blank(),
    {
        PersistentState {
            filter_settings: PersistentFilterSettings {
                nks: PersistentNksFilterSettings {
                    bank: None,
                    sub_bank: None,
                    category: None,
                    sub_category: None,
                    mode: None,
                },
            },
            preset_id: None,
        }
    }
}

impl RuntimePotUnit {
    /// A unit that starts from what was kept of an earlier session.
    pub fn load(state: &PersistentState) -> (r: Result<Self, &'static str>)
        ensures
            r is Ok,
            r->Ok_0.is_fresh(),
    {
        match RuntimeState::load(state) {
            Ok(runtime_state) => Ok(RuntimePotUnit::new(runtime_state)),
            Err(e) => Err(e),
        }
    }

    /// What is kept of the unit between sessions: nothing.
    pub fn persistent_state(&self) -> (r: PersistentState)
        ensures
            r.is_blank(),
    {
        PersistentState::blank()
    }

    /// Finds the unit's destination in a project.
    pub fn resolve_destination(&self, project: &ProjectTracks) -> (r: Result<
        DestinationInstruction,
        &'static str,
    >)
        ensures
            r is Ok,
            r->Ok_0 == self.destination_descriptor.resolve_destination_spec(*project),
    {
        self.destination_descriptor.resolve_destination(project)
    }
}

/// The browser of an instance.
pub enum PotUnit {
    /// Not loaded yet: what was kept of an earlier session, and why the
    /// last attempt to load failed, empty where none did.
    Unloaded { state: PersistentState, previous_load_error: &'static str },
    Loaded(RuntimePotUnit),
}

impl PotUnit {
    /// A browser that is not loaded and has not failed to load.
    pub fn unloaded(state: PersistentState) -> (r: Self)
        ensures
            r == (PotUnit::Unloaded { state, previous_load_error: "" }),
    {
        PotUnit::Unloaded { state, previous_load_error: "" }
    }

    /// Loads the browser where it is not loaded. A browser that failed to
    /// load does not try again and fails as before; one that is loaded
    /// stays as it is.
    pub fn loaded(&mut self) -> (r: Result<(), &'static str>)
        ensures
            match *old(self) {
                PotUnit::Loaded(_) => r is Ok && *final(self) == *old(self),
                PotUnit::Unloaded { state, previous_load_error } => if previous_load_error@.len()
                    != 0 {
                    r == Err::<(), &'static str>(previous_load_error) && *final(self) == *old(self)
                } else {
                    r is Ok && (*final(self)) is Loaded && (*final(self))->Loaded_0.is_fresh()
                },
            },
    {
        let unit = match self {
            PotUnit::Loaded(_) => {
                return Ok(());
            },
            PotUnit::Unloaded { state, previous_load_error } => {
                if !previous_load_error.is_empty() {
                    return Err(*previous_load_error);
                }
                RuntimePotUnit::load(state)
            },
        };
        match unit {
            Ok(u) => {
                *self = PotUnit::Loaded(u);
                Ok(())
            },
            Err(e) => {
                let state = match self {
                    PotUnit::Unloaded { state, .. } => state.duplicate(),
                    PotUnit::Loaded(_) => PersistentState::blank(),
                };
                *self = PotUnit::Unloaded { state, previous_load_error: e };
                Err(e)
            },
        }
    }

    /// The unit, once the browser is loaded.
    pub fn unit(&self) -> (r: Option<&RuntimePotUnit>)
        ensures
            r == (match *self {
                PotUnit::Loaded(u) => Some(&u),
                PotUnit::Unloaded { .. } => None,
            }),
    {
        match self {
            PotUnit::Loaded(u) => Some(u),
            PotUnit::Unloaded { .. } => None,
        }
    }

    /// What is kept of the browser between sessions: of one that is not
    /// loaded what it was made with, of one that is loaded what its unit
    /// keeps.
    pub fn persistent_state(&self) -> (r: PersistentState)
        ensures
            match *self {
                PotUnit::Unloaded { state, .. } => r == state,
                PotUnit::Loaded(_) => r.is_blank(),
            },
    {
        match self {
            PotUnit::Unloaded { state, .. } => state.duplicate(),
            PotUnit::Loaded(u) => u.persistent_state(),
        }
    }
}

} // verus!
