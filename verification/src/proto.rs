//! What a client is told of a clip matrix when it connects.

use vstd::prelude::*;
use crate::clip_source::state::Proportion;
use crate::slot::{ClipContent, ClipPlayState, ClipSlot};

verus! {

/// A column of a clip matrix: its slots from the top down.
pub struct Column {
    pub slots: Vec<ClipSlot>,
}

/// A clip matrix: its columns from left to right.
pub struct Matrix {
    pub columns: Vec<Column>,
}

/// Where a slot is in a matrix.
#[derive(Copy, Clone, Debug, PartialEq, Eq, Structural)]
pub struct SlotAddress {
    pub column_index: u32,
    pub row_index: u32,
}

/// What is told of a slot.
#[derive(Copy, Clone, Debug, PartialEq, Eq, Structural)]
pub enum SlotUpdate {
    PlayState(ClipPlayState),
}

/// What is told of a slot, and of which.
#[derive(Copy, Clone, Debug, PartialEq, Eq, Structural)]
pub struct QualifiedOccasionalSlotUpdate {
    pub slot_address: Option<SlotAddress>,
    pub update: Option<SlotUpdate>,
}

/// What is told of a clip.
#[derive(Copy, Clone, Debug, PartialEq, Eq, Structural)]
pub enum ClipUpdate {
    ContentInfo(ClipContent),
}

/// What is told of a clip, and of which.
#[derive(Copy, Clone, Debug, PartialEq, Eq, Structural)]
pub struct QualifiedOccasionalClipUpdate {
    pub clip_address: Option<SlotAddress>,
    pub update: Option<ClipUpdate>,
}

/// A value that belongs to an instance.
#[derive(Clone)]
pub struct WithInstanceId<T> {
    pub instance_id: u64,
    pub value: T,
}

/// Where the clip of a slot is at a moment.
#[derive(Copy, Clone, Debug, PartialEq, Eq, Structural)]
pub struct ClipPositionUpdate {
    pub slot_index: u32,
    pub position: Proportion,
}

/// The positions of the clips of a session at a moment.
#[derive(Clone)]
pub struct GrpcClipPositionsUpdateEvent {
    pub session_id: String,
    pub updates: Vec<ClipPositionUpdate>,
}

/// The number of a column as it is told: the largest number there is
/// for a column beyond it.
pub open spec fn column_number(column_index: int) -> u32 {
    if column_index > u32::MAX {
        u32::MAX
    } else {
        column_index as u32
    }
}

/// What is told of one slot: where it is and its play state.
pub open spec fn slot_update_spec(column_index: int, slot: ClipSlot) -> QualifiedOccasionalSlotUpdate {
    QualifiedOccasionalSlotUpdate {
        slot_address: Some(
            SlotAddress { column_index: column_number(column_index), row_index: slot.index },
        ),
        update: Some(SlotUpdate::PlayState(slot.state.play_state_of(slot.register))),
    }
}

/// What is told of the slots of one column, from the top down.
pub open spec fn column_updates_spec(column_index: int, slots: Seq<ClipSlot>) -> Seq<
    QualifiedOccasionalSlotUpdate,
> {
    Seq::new(slots.len(), |r: int| slot_update_spec(column_index, slots[r]))
}

/// What is told of the slots of the first `count` columns, column by
/// column.
pub open spec fn slot_updates_spec(columns: Seq<Column>, count: nat) -> Seq<
    QualifiedOccasionalSlotUpdate,
>
    decreases count,
{
    if count == 0 {
        Seq::<QualifiedOccasionalSlotUpdate>::empty()
    } else {
        slot_updates_spec(columns, (count - 1) as nat) + column_updates_spec(
            count - 1,
            columns[count - 1].slots@,
        )
    }
}

/// What is told of the clips among the first `count` slots of a column.
pub open spec fn column_clip_updates_spec(column_index: int, slots: Seq<ClipSlot>, count: nat) -> Seq<
    QualifiedOccasionalClipUpdate,
>
    decreases count,
{
    if count == 0 {
        Seq::<QualifiedOccasionalClipUpdate>::empty()
    } else {
        let slot = slots[count - 1];
        let before = column_clip_updates_spec(column_index, slots, (count - 1) as nat);
        match slot.clip.content {
            Some(content) => before.push(
                QualifiedOccasionalClipUpdate {
                    clip_address: Some(
                        SlotAddress {
                            column_index: column_number(column_index),
                            row_index: slot.index,
                        },
                    ),
                    update: Some(ClipUpdate::ContentInfo(content)),
                },
            ),
            None => before,
        }
    }
}

/// What is told of the clips of the first `count` columns: one update for
/// each slot that holds a clip, column by column.
pub open spec fn clip_updates_spec(columns: Seq<Column>, count: nat) -> Seq<
    QualifiedOccasionalClipUpdate,
>
    decreases count,
{
    if count == 0 {
        Seq::<QualifiedOccasionalClipUpdate>::empty()
    } else {
        clip_updates_spec(columns, (count - 1) as nat) + column_clip_updates_spec(
            count - 1,
            columns[count - 1].slots@,
            columns[count - 1].slots@.len(),
        )
    }
}

fn column_number_of(column_index: usize) -> (r: u32)
    ensures
        r == column_number(column_index as int),
{
    if column_index > u32::MAX as usize {
        u32::MAX
    } else {
        column_index as u32
    }
}

/// Tells the play state of every slot of a matrix. Without a matrix there
/// is nothing to tell.
pub fn create_initial_slot_updates(matrix: Option<&Matrix>) -> (r: Vec<QualifiedOccasionalSlotUpdate>)
    ensures
        r@ == (match matrix {
            Some(m) => slot_updates_spec(m.columns@, m.columns@.len()),
            None => Seq::<QualifiedOccasionalSlotUpdate>::empty(),
        }),
{
    let matrix = match matrix {
        Some(m) => m,
        None => {
            return Vec::new();
        },
    };
    let mut updates: Vec<QualifiedOccasionalSlotUpdate> = Vec::new();
    let mut c: usize = 0;
    while c < matrix.columns.len()
        invariant
            c <= matrix.columns.len(),
            updates@ == slot_updates_spec(matrix.columns@, c as nat),
        decreases matrix.columns.len() - c,
    {
        let column = &matrix.columns[c];
        let ghost before = updates@;
        let mut r: usize = 0;
        while r < column.slots.len()
            invariant
                r <= column.slots.len(),
                updates@ == before + column_updates_spec(c as int, column.slots@.take(r as int)),
            decreases column.slots.len() - r,
        {
            let slot = &column.slots[r];
            let address = SlotAddress { column_index: column_number_of(c), row_index: slot.index };
            updates.push(
                QualifiedOccasionalSlotUpdate {
                    slot_address: Some(address),
                    update: Some(SlotUpdate::PlayState(slot.play_state())),
                },
            );
            assert(updates@ =~= before + column_updates_spec(
                c as int,
                column.slots@.take(r + 1),
            ));
            r += 1;
        }
        assert(column.slots@.take(column.slots.len() as int) =~= column.slots@);
        c += 1;
    }
    updates
}

/// Tells the content of every clip of a matrix. Without a matrix there is
/// nothing to tell.
pub fn create_initial_clip_updates(matrix: Option<&Matrix>) -> (r: Vec<QualifiedOccasionalClipUpdate>)
    ensures
        r@ == (match matrix {
            Some(m) => clip_updates_spec(m.columns@, m.columns@.len()),
            None => Seq::<QualifiedOccasionalClipUpdate>::empty(),
        }),
{
    let matrix = match matrix {
        Some(m) => m,
        None => {
            return Vec::new();
        },
    };
    let mut updates: Vec<QualifiedOccasionalClipUpdate> = Vec::new();
    let mut c: usize = 0;
    while c < matrix.columns.len()
        invariant
            c <= matrix.columns.len(),
            updates@ == clip_updates_spec(matrix.columns@, c as nat),
        decreases matrix.columns.len() - c,
    {
        let column = &matrix.columns[c];
        let ghost before = updates@;
        let mut r: usize = 0;
        assert(updates@ =~= before + column_clip_updates_spec(c as int, column.slots@, 0));
        while r < column.slots.len()
            invariant
                r <= column.slots.len(),
                updates@ == before + column_clip_updates_spec(c as int, column.slots@, r as nat),
            decreases column.slots.len() - r,
        {
            let slot = &column.slots[r];
            match slot.clip.content {
                Some(content) => {
                    updates.push(
                        QualifiedOccasionalClipUpdate {
                            clip_address: Some(
                                SlotAddress {
                                    column_index: column_number_of(c),
                                    row_index: slot.index,
                                },
                            ),
                            update: Some(ClipUpdate::ContentInfo(content)),
                        },
                    );
                    assert(updates@ =~= before + column_clip_updates_spec(
                        c as int,
                        column.slots@,
                        (r + 1) as nat,
                    ));
                },
                None => {},
            }
            r += 1;
        }
        c += 1;
    }
    updates
}

} // verus!
