//! The target that lets a control element drive the transport of a clip.

use vstd::prelude::*;
use crate::pot::collection::{place_number, PotStateChangedEvent, RuntimePotUnit};
use crate::pot::PresetId;
use crate::slot::{ClipChangedEvent, SlotPlayOptions, SlotStopBehavior};

verus! {

/// What a control element does to the transport of a clip.
#[derive(Copy, Clone, Debug, PartialEq, Eq, Structural)]
pub enum TransportAction {
    PlayStop,
    PlayPause,
    Stop,
    Pause,
    Record,
    Repeat,
}

/// A command to a slot.
#[derive(Copy, Clone, Debug, PartialEq, Eq, Structural)]
pub enum SlotCommand {
    Play { track: Option<u32>, options: SlotPlayOptions },
    Stop { stop_behavior: SlotStopBehavior },
    Pause,
    ToggleRepeat,
}

/// Why a target cannot be controlled.
#[derive(Copy, Clone, Debug, PartialEq, Eq, Structural)]
pub enum TargetError {
    NotSupported,
}

impl TargetError {
    /// The reason in words.
    pub fn message(&self) -> (r: &'static str)
        ensures
            r@ == "not supported at the moment"@,
    {
        "not supported at the moment"
    }
}

/// The target that plays, stops and pauses the clip of a slot.
#[derive(Copy, Clone, Debug, PartialEq, Eq, Structural)]
pub struct ClipTransportTarget {
    pub track: Option<u32>,
    pub slot_index: usize,
    pub action: TransportAction,
    pub play_options: SlotPlayOptions,
}

impl ClipTransportTarget {
    /// How the slot is told to stop: a clip that is synced to the bar plays
    /// to the end of the clip, any other stops at once.
    pub open spec fn stop_behavior(self) -> SlotStopBehavior {
        if self.play_options.next_bar {
            SlotStopBehavior::EndOfClip
        } else {
            SlotStopBehavior::Immediately
        }
    }

    /// The command that a control value means for the slot, `on` saying
    /// whether the value is above zero.
    ///
    /// - Play/stop and play/pause play when switched on and stop or pause
    ///   when switched off.
    /// - Stop and pause act when switched on and do nothing when switched
    ///   off.
    /// - Repeat toggles the repetition, whatever the value.
    /// - Record is not supported.
    pub open spec fn control_spec(self, on: bool) -> Result<Option<SlotCommand>, TargetError> {
        match self.action {
            TransportAction::PlayStop => Ok(
                Some(
                    if on {
                        SlotCommand::Play { track: self.track, options: self.play_options }
                    } else {
                        SlotCommand::Stop { stop_behavior: self.stop_behavior() }
                    },
                ),
            ),
            TransportAction::PlayPause => Ok(
                Some(
                    if on {
                        SlotCommand::Play { track: self.track, options: self.play_options }
                    } else {
                        SlotCommand::Pause
                    },
                ),
            ),
            TransportAction::Stop => Ok(
                if on {
                    Some(SlotCommand::Stop { stop_behavior: self.stop_behavior() })
                } else {
                    None
                },
            ),
            TransportAction::Pause => Ok(
                if on {
                    Some(SlotCommand::Pause)
                } else {
                    None
                },
            ),
            TransportAction::Record => Err(TargetError::NotSupported),
            TransportAction::Repeat => Ok(Some(SlotCommand::ToggleRepeat)),
        }
    }

    /// Works out the command that a control value means for the slot.
    pub fn control(&self, on: bool) -> (r: Result<Option<SlotCommand>, TargetError>)
        ensures
            r == self.control_spec(on),
    {
        let stop = SlotCommand::Stop {
            stop_behavior: if self.play_options.next_bar {
                SlotStopBehavior::EndOfClip
            } else {
                SlotStopBehavior::Immediately
            },
        };
        let play = SlotCommand::Play { track: self.track, options: self.play_options };
        match self.action {
            TransportAction::PlayStop => {
                if on {
                    Ok(Some(play))
                } else {
                    Ok(Some(stop))
                }
            },
            TransportAction::PlayPause => {
                if on {
                    Ok(Some(play))
                } else {
                    Ok(Some(SlotCommand::Pause))
                }
            },
            TransportAction::Stop => {
                if on {
                    Ok(Some(stop))
                } else {
                    Ok(None)
                }
            },
            TransportAction::Pause => {
                if on {
                    Ok(Some(SlotCommand::Pause))
                } else {
                    Ok(None)
                }
            },
            TransportAction::Record => Err(TargetError::NotSupported),
            TransportAction::Repeat => Ok(Some(SlotCommand::ToggleRepeat)),
        }
    }

    /// Whether an event of a slot changes what the target shows: a change
    /// of the play state for the actions that play, stop and pause, a
    /// change of the repetition for the action that repeats, and only if
    /// the event is of the target's own slot.
    pub fn is_affected_by(&self, slot_index: usize, event: ClipChangedEvent) -> (r: bool)
        ensures
            r == (slot_index == self.slot_index && match self.action {
                TransportAction::Record => false,
                TransportAction::Repeat => event is ClipRepeat,
                _ => event is PlayState,
            }),
    {
        if slot_index != self.slot_index {
            return false;
        }
        match self.action {
            TransportAction::PlayStop
            | TransportAction::PlayPause
            | TransportAction::Stop
            | TransportAction::Pause => match event {
                ClipChangedEvent::PlayState(_) => true,
                _ => false,
            },
            // Not supported at the moment.
            TransportAction::Record => false,
            TransportAction::Repeat => match event {
                ClipChangedEvent::ClipRepeat(_) => true,
                _ => false,
            },
        }
    }
}

/// So many of so many.
#[derive(Copy, Clone, Debug, PartialEq, Eq, Structural)]
pub struct Fraction {
    pub actual: u32,
    pub max: u32,
}

/// The target that moves through the presets of the browser, before it is
/// resolved.
#[derive(Copy, Clone, Debug, PartialEq, Eq, Structural)]
pub struct UnresolvededNavigateWithinNksPresetsTarget {}

impl UnresolvededNavigateWithinNksPresetsTarget {
    pub fn resolve(&self) -> (r: NavigateWithinNksPresetsTarget)
        ensures
            r == (NavigateWithinNksPresetsTarget {  }),
    {
        NavigateWithinNksPresetsTarget {  }
    }
}

/// The target that moves through the presets of the browser. Its values
/// are counted from zero, which stands for no preset; the preset at place
/// `i` has the value `i + 1`.
#[derive(Copy, Clone, Debug, PartialEq, Eq, Structural)]
pub struct NavigateWithinNksPresetsTarget {}

/// The value of the target for a place among the presets, or for no
/// preset.
pub open spec fn discrete_value_of(preset_index: Option<u32>) -> u32 {
    match preset_index {
        Some(i) => if i == u32::MAX {
            u32::MAX
        } else {
            (i + 1) as u32
        },
        None => 0,
    }
}

/// The place among the presets that a value of the target stands for.
pub open spec fn preset_index_of(value: u32) -> Option<u32> {
    if value == 0 {
        None
    } else {
        Some((value - 1) as u32)
    }
}

/// Going from a place to its value and back gives the place again.
pub proof fn law_preset_index_comes_back(preset_index: Option<u32>)
    requires
        preset_index != Some(u32::MAX),
    ensures
        preset_index_of(discrete_value_of(preset_index)) == preset_index,
{
}

/// Why a preset could not be picked.
#[derive(Copy, Clone, Debug, PartialEq, Eq, Structural)]
pub enum NavigationError {
    NoPresetAtIndex,
}

impl NavigationError {
    /// The reason in words.
    pub fn message(&self) -> (r: &'static str)
        ensures
            r@ == "no preset found for that index"@,
    {
        "no preset found for that index"
    }
}

impl NavigateWithinNksPresetsTarget {
    pub fn preset_count(&self, unit: &RuntimePotUnit) -> (r: u32)
        ensures
            r == place_number(unit.preset_collection@.len() as int),
    {
        unit.preset_count()
    }

    pub fn current_preset_id(&self, unit: &RuntimePotUnit) -> (r: Option<PresetId>)
        ensures
            r == unit.runtime_state.preset_id,
    {
        unit.preset_id()
    }

    pub fn find_index_of_preset(&self, unit: &RuntimePotUnit, id: PresetId) -> (r: Option<u32>)
        ensures
            match r {
                Some(index) => exists|i: int|
                    #[trigger] unit.preset_collection.is_place_of(i, id) && index == place_number(
                        i,
                    ),
                None => !unit.preset_collection@.contains(id),
            },
    {
        unit.find_index_of_preset(id)
    }

    /// The value of the target for a place among the presets, or for no
    /// preset.
    pub fn convert_preset_index_to_discrete_value(preset_index: Option<u32>) -> (r: u32)
        ensures
            r == discrete_value_of(preset_index),
    {
        match preset_index {
            Some(i) => {
                if i == u32::MAX {
                    u32::MAX
                } else {
                    i + 1
                }
            },
            None => 0,
        }
    }

    /// The place among the presets that a value of the target stands for.
    pub fn convert_discrete_value_to_preset_index(value: u32) -> (r: Option<u32>)
        ensures
            r == preset_index_of(value),
    {
        if value == 0 {
            None
        } else {
            Some(value - 1)
        }
    }

    /// The value of the target for a preset, as a part of the number of
    /// presets: zero for no preset and for one that is not shown.
    pub fn convert_preset_id_to_absolute_value(
        &self,
        unit: &RuntimePotUnit,
        preset_id: Option<PresetId>,
    ) -> (r: Fraction)
        ensures
            r.max == place_number(unit.preset_collection@.len() as int),
            (preset_id is None || !unit.preset_collection@.contains(preset_id->Some_0)) ==> r.actual
                == 0,
            forall|i: int|
                0 <= i < unit.preset_collection@.len() && preset_id == Some(
                    unit.preset_collection@[i],
                ) ==> r.actual == discrete_value_of(Some(place_number(i))),
    {
        let preset_index = match preset_id {
            Some(id) => self.find_index_of_preset(unit, id),
            None => None,
        };
        Fraction {
            actual: Self::convert_preset_index_to_discrete_value(preset_index),
            max: self.preset_count(unit),
        }
    }

    /// The number of the preset that is picked, counted from one, if one
    /// is picked and shown.
    pub fn numeric_value(&self, unit: &RuntimePotUnit) -> (r: Option<u32>)
        ensures
            (unit.runtime_state.preset_id is None || !unit.preset_collection@.contains(
                unit.runtime_state.preset_id->Some_0,
            )) <==> r is None,
            forall|i: int|
                0 <= i < unit.preset_collection@.len() && unit.runtime_state.preset_id == Some(
                    unit.preset_collection@[i],
                ) ==> r == Some(discrete_value_of(Some(place_number(i)))),
    {
        let preset_id = match self.current_preset_id(unit) {
            Some(id) => id,
            None => {
                return None;
            },
        };
        match self.find_index_of_preset(unit, preset_id) {
            Some(index) => Some(Self::convert_preset_index_to_discrete_value(Some(index))),
            None => None,
        }
    }

    /// Picks the preset at a place, or none. A place that the browser
    /// does not have is an error, and leaves what is picked.
    pub fn hit(&self, unit: &mut RuntimePotUnit, preset_index: Option<u32>) -> (r: Result<
        PotStateChangedEvent,
        NavigationError,
    >)
        ensures
            final(unit).preset_collection@ == old(unit).preset_collection@,
            match preset_index {
                None => r == Ok::<PotStateChangedEvent, NavigationError>(
                    PotStateChangedEvent::PresetChanged { id: None },
                ) && final(unit).runtime_state.preset_id is None,
                Some(i) => if i < old(unit).preset_collection@.len() {
                    r == Ok::<PotStateChangedEvent, NavigationError>(
                        PotStateChangedEvent::PresetChanged {
                            id: Some(old(unit).preset_collection@[i as int]),
                        },
                    ) && final(unit).runtime_state.preset_id == Some(
                        old(unit).preset_collection@[i as int],
                    )
                } else {
                    r == Err::<PotStateChangedEvent, NavigationError>(
                        NavigationError::NoPresetAtIndex,
                    ) && final(unit).runtime_state.preset_id == old(unit).runtime_state.preset_id
                },
            },
    {
        let preset_id = match preset_index {
            None => None,
            Some(i) => match unit.find_preset_id_at_index(i) {
                Some(id) => Some(id),
                None => {
                    return Err(NavigationError::NoPresetAtIndex);
                },
            },
        };
        Ok(unit.set_preset_id(preset_id))
    }
}

} // verus!
