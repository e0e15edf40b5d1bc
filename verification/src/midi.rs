//! The MIDI messages with which a clip silences its notes.

use helgoboss_midi::{
    Channel, ControllerNumber, RawShortMessage, ShortMessage, ShortMessageFactory, U7,
};
use vstd::prelude::*;

verus! {

/// The controller number of the message that turns all notes off.
pub const ALL_NOTES_OFF: u8 = 123;

/// The controller number of the message that turns all sound off.
pub const ALL_SOUND_OFF: u8 = 120;

/// The controller number of the sustain pedal.
pub const SUSTAIN: u8 = 64;

/// The controller number of the message that resets all controllers.
pub const RESET_ALL_CONTROLLERS: u8 = 121;

/// The status byte of a control change message on channel zero.
pub const CONTROL_CHANGE: u8 = 0xB0;

/// The number of MIDI channels.
pub const CHANNEL_COUNT: u8 = 16;

/// A short MIDI message as its three bytes.
#[derive(Copy, Clone, Debug, PartialEq, Eq, Structural)]
pub struct ShortMessageBytes {
    pub status: u8,
    pub data_1: u8,
    pub data_2: u8,
}

/// The control change message for a controller on a channel, with value
/// zero.
pub open spec fn reset_message(channel: u8, controller_number: u8) -> ShortMessageBytes {
    ShortMessageBytes {
        status: (CONTROL_CHANGE + channel) as u8,
        data_1: controller_number,
        data_2: 0,
    }
}

/// The messages that silence every channel: for each channel in turn, all
/// notes off and then all sound off.
pub open spec fn silence_messages() -> Seq<ShortMessageBytes> {
    Seq::new(
        2 * CHANNEL_COUNT as nat,
        |i: int|
            reset_message(
                (i / 2) as u8,
                if i % 2 == 0 {
                    ALL_NOTES_OFF
                } else {
                    ALL_SOUND_OFF
                },
            ),
    )
}

/// Builds a control change message with `RawShortMessage::control_change`
/// of the crate helgoboss-midi and takes its bytes. Trusted: that the
/// status byte is `0xB0` with the channel in its lower four bits, and that
/// the data bytes are the controller number and the value as given. The
/// crate panics on a channel above 15 and on a data byte above 127.
#[verifier::external_body]
fn control_change(channel: u8, controller_number: u8, control_value: u8) -> (m: ShortMessageBytes)
    requires
        channel < 16,
        controller_number < 128,
        control_value < 128,
    ensures
        m.status == 0xB0 + channel,
        m.data_1 == controller_number,
        m.data_2 == control_value,
{
    let msg = RawShortMessage::control_change(
        Channel::new(channel),
        ControllerNumber::new(controller_number),
        U7::new(control_value),
    );
    let bytes = msg.to_bytes();
    ShortMessageBytes { status: bytes.0, data_1: bytes.1.get(), data_2: bytes.2.get() }
}

/// Adds to the events of a block the messages that silence every channel.
pub fn silence_midi(events: &mut Vec<ShortMessageBytes>)
    ensures
        final(events)@ == old(events)@ + silence_messages(),
{
    let ghost before = events@;
    let mut ch: u8 = 0;
    while ch < CHANNEL_COUNT
        invariant
            ch <= CHANNEL_COUNT,
            events@ == before + silence_messages().subrange(0, 2 * ch as int),
        decreases CHANNEL_COUNT - ch,
    {
        let all_notes_off = control_change(ch, ALL_NOTES_OFF, 0);
        let all_sound_off = control_change(ch, ALL_SOUND_OFF, 0);
        events.push(all_notes_off);
        events.push(all_sound_off);
        proof {
            let done = silence_messages().subrange(0, 2 * ch as int);
            let next = silence_messages().subrange(0, 2 * (ch + 1) as int);
            assert(silence_messages()[2 * ch as int] == all_notes_off);
            assert(silence_messages()[2 * ch as int + 1] == all_sound_off);
            assert(next =~= done.push(all_notes_off).push(all_sound_off));
            assert(events@ =~= before + next);
        }
        ch += 1;
    }
    assert(silence_messages().subrange(0, 2 * CHANNEL_COUNT as int) =~= silence_messages());
}

/// Which messages are sent to bring the instruments of a clip to rest.
#[derive(Copy, Clone, Debug, PartialEq, Eq, Structural)]
pub struct MidiResetMessages {
    pub all_notes_off: bool,
    pub all_sound_off: bool,
    pub sustain_off: bool,
    pub reset_all_controllers: bool,
}

/// The messages that are sent where a section of a clip starts and where
/// it ends.
#[derive(Copy, Clone, Debug, PartialEq, Eq, Structural)]
pub struct MidiResetMessageRange {
    pub left: MidiResetMessages,
    pub right: MidiResetMessages,
}

impl MidiResetMessages {
    /// No message at all.
    pub open spec fn spec_none() -> MidiResetMessages {
        MidiResetMessages {
            all_notes_off: false,
            all_sound_off: false,
            sustain_off: false,
            reset_all_controllers: false,
        }
    }

    pub fn none() -> (r: MidiResetMessages)
        ensures
            r == Self::spec_none(),
    {
        MidiResetMessages {
            all_notes_off: false,
            all_sound_off: false,
            sustain_off: false,
            reset_all_controllers: false,
        }
    }

    /// The messages for one channel, in the order all notes off, all sound
    /// off, sustain off, reset all controllers, each only if it is chosen.
    pub open spec fn for_channel(self, channel: u8) -> Seq<ShortMessageBytes> {
        let notes = if self.all_notes_off {
            seq![reset_message(channel, ALL_NOTES_OFF)]
        } else {
            Seq::<ShortMessageBytes>::empty()
        };
        let sound = if self.all_sound_off {
            seq![reset_message(channel, ALL_SOUND_OFF)]
        } else {
            Seq::<ShortMessageBytes>::empty()
        };
        let sustain = if self.sustain_off {
            seq![reset_message(channel, SUSTAIN)]
        } else {
            Seq::<ShortMessageBytes>::empty()
        };
        let controllers = if self.reset_all_controllers {
            seq![reset_message(channel, RESET_ALL_CONTROLLERS)]
        } else {
            Seq::<ShortMessageBytes>::empty()
        };
        notes + sound + sustain + controllers
    }

    /// The messages for the first `channels` channels, channel by channel.
    pub open spec fn for_channels(self, channels: nat) -> Seq<ShortMessageBytes>
        decreases channels,
    {
        if channels == 0 {
            Seq::<ShortMessageBytes>::empty()
        } else {
            self.for_channels((channels - 1) as nat) + self.for_channel((channels - 1) as u8)
        }
    }
}

impl MidiResetMessageRange {
    /// No message at either end.
    pub open spec fn spec_none() -> MidiResetMessageRange {
        MidiResetMessageRange {
            left: MidiResetMessages::spec_none(),
            right: MidiResetMessages::spec_none(),
        }
    }

    pub fn none() -> (r: MidiResetMessageRange)
        ensures
            r == Self::spec_none(),
    {
        MidiResetMessageRange { left: MidiResetMessages::none(), right: MidiResetMessages::none() }
    }
}

/// Adds to the events of a block the chosen reset messages for every
/// channel.
pub fn reset_midi(events: &mut Vec<ShortMessageBytes>, messages: MidiResetMessages)
    ensures
        final(events)@ == old(events)@ + messages.for_channels(CHANNEL_COUNT as nat),
{
    let ghost before = events@;
    let mut ch: u8 = 0;
    assert(events@ =~= before + messages.for_channels(0));
    while ch < CHANNEL_COUNT
        invariant
            ch <= CHANNEL_COUNT,
            events@ == before + messages.for_channels(ch as nat),
        decreases CHANNEL_COUNT - ch,
    {
        let ghost done = events@;
        if messages.all_notes_off {
            events.push(control_change(ch, ALL_NOTES_OFF, 0));
        }
        if messages.all_sound_off {
            events.push(control_change(ch, ALL_SOUND_OFF, 0));
        }
        if messages.sustain_off {
            events.push(control_change(ch, SUSTAIN, 0));
        }
        if messages.reset_all_controllers {
            events.push(control_change(ch, RESET_ALL_CONTROLLERS, 0));
        }
        assert(events@ =~= done + messages.for_channel(ch));
        assert(events@ =~= before + messages.for_channels((ch + 1) as nat));
        ch += 1;
    }
}

} // verus!
