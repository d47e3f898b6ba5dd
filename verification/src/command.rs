//! The binary command protocol: every operation the firmware understands,
//! and its packing into the fixed-length wire frame.
//!
//! A frame is always `MAX_COMMAND_LENGTH` bytes: two magic header bytes
//! `0x32, 0xac`, the command opcode at position 2, and the opcode-specific
//! payload from position 3 on.

use vstd::prelude::*;

use crate::bitmap::Bitmap;
use crate::DISPLAY_HEIGHT;
use crate::DISPLAY_WIDTH;
use crate::DRAW_COMMAND_LENGTH;
use crate::MAX_COMMAND_LENGTH;

verus! {

broadcast use crate::bitmap::lemma_bitmap_len;

/// Built-in firmware-rendered patterns. `Percentage` carries a 0-100
/// parameter byte; every other variant is parameterless.
#[derive(Clone)]
pub enum Patterns {
    Percentage(u8),
    Gradient,
    DoubleGradient,
    DisplayLotus,
    ZigZag,
    FullBrightness,
    DisplayPanic,
    DisplayLotus2,
}

/// The two payload bytes a pattern encodes to: its own opcode, then its
/// parameter (the percentage value for `Percentage`, zero otherwise).
pub open spec fn pattern_encoding(p: Patterns) -> (u8, u8) {
    match p {
        Patterns::Percentage(value) => (0x00u8, value),
        Patterns::Gradient => (0x01u8, 0u8),
        Patterns::DoubleGradient => (0x02u8, 0u8),
        Patterns::DisplayLotus => (0x03u8, 0u8),
        Patterns::ZigZag => (0x04u8, 0u8),
        Patterns::FullBrightness => (0x05u8, 0u8),
        Patterns::DisplayPanic => (0x06u8, 0u8),
        Patterns::DisplayLotus2 => (0x07u8, 0u8),
    }
}

impl Patterns {
    /// Encode this pattern into its two-byte payload region.
    pub fn pack(&self) -> (r: (u8, u8))
        ensures
            r == pattern_encoding(*self),
    {
        match self {
            Patterns::Percentage(value) => (0x00, *value),
            Patterns::Gradient => (0x01, 0),
            Patterns::DoubleGradient => (0x02, 0),
            Patterns::DisplayLotus => (0x03, 0),
            Patterns::ZigZag => (0x04, 0),
            Patterns::FullBrightness => (0x05, 0),
            Patterns::DisplayPanic => (0x06, 0),
            Patterns::DisplayLotus2 => (0x07, 0),
        }
    }
}

/// Why a command refused to encode. Both conditions concern
/// `StageColumnBuffer`, the only variant with caller-supplied layout data.
#[derive(Clone, Copy, Debug, PartialEq, Eq, Structural)]
pub enum EncodeError {
    /// The column index exceeded `DISPLAY_WIDTH`.
    ColumnIndexTooLarge,
    /// The column slice length was not `DISPLAY_HEIGHT`.
    ColumnLengthMismatch,
}

/// Commands to execute. Each variant owns exactly the data its payload
/// needs; none owns any connection state.
#[derive(Clone)]
pub enum Command<'a> {
    Brightness(u8),
    Pattern(Patterns),
    Bootloader,
    Sleep(bool),
    Animate,
    Panic,
    Draw(Box<Bitmap>),
    StageColumnBuffer(u8, &'a [u8]),
    DrawBuffer,
    Version,
}

impl<'a> Command<'a> {
    /// The opcode byte, written at frame position 2.
    pub open spec fn opcode(&self) -> u8 {
        match self {
            Command::Brightness(_) => 0x00u8,
            Command::Pattern(_) => 0x01u8,
            Command::Bootloader => 0x02u8,
            Command::Sleep(_) => 0x03u8,
            Command::Animate => 0x04u8,
            Command::Panic => 0x05u8,
            Command::Draw(_) => 0x06u8,
            Command::StageColumnBuffer(_, _) => 0x07u8,
            Command::DrawBuffer => 0x08u8,
            Command::Version => 0x20u8,
        }
    }

    /// The payload bytes, written from frame position 3 on.
    pub open spec fn payload(&self) -> Seq<u8> {
        match self {
            Command::Brightness(x) => seq![*x],
            Command::Pattern(p) => seq![pattern_encoding(*p).0, pattern_encoding(*p).1],
            Command::Bootloader => seq![],
            Command::Sleep(value) => seq![
                if *value {
                    1u8
                } else {
                    0u8
                },
            ],
            Command::Animate => seq![],
            Command::Panic => seq![],
            Command::Draw(bitmap) => bitmap@,
            Command::StageColumnBuffer(index, value) => seq![*index] + value@,
            Command::DrawBuffer => seq![],
            Command::Version => seq![],
        }
    }

    /// Whether packing succeeds: a staged column must carry an index of at
    /// most `DISPLAY_WIDTH` and exactly `DISPLAY_HEIGHT` bytes of data; every
    /// other command always packs.
    pub open spec fn encodable(&self) -> bool {
        match self {
            Command::StageColumnBuffer(index, value) => *index as int <= DISPLAY_WIDTH as int
                && value@.len() == DISPLAY_HEIGHT as int,
            _ => true,
        }
    }

    /// Write this command's opcode and payload into the caller-supplied
    /// frame buffer. Positions 0..2 (the header) and the unused trailing
    /// positions keep their previous content; nothing is allocated. A
    /// command that cannot encode reports an error and leaves the whole
    /// buffer untouched.
    #[verifier::loop_isolation(false)]
    pub fn pack(&self, frame: &mut [u8; MAX_COMMAND_LENGTH]) -> (r: Result<(), EncodeError>)
        ensures
            match r {
                Ok(()) => self.encodable() && final(frame)@ == packed(old(frame)@, *self),
                Err(e) => !self.encodable() && final(frame)@ == old(frame)@ && match self {
                    Command::StageColumnBuffer(index, value) => if *index as int
                        > DISPLAY_WIDTH as int {
                        e == EncodeError::ColumnIndexTooLarge
                    } else {
                        e == EncodeError::ColumnLengthMismatch
                    },
                    _ => false,
                },
            },
    {
        match self {
            Command::Brightness(x) => {
                frame[2] = 0x00;
                frame[3] = *x;
            },
            Command::Pattern(pattern) => {
                let encoded = pattern.pack();
                frame[2] = 0x01;
                frame[3] = encoded.0;
                frame[4] = encoded.1;
            },
            Command::Bootloader => {
                frame[2] = 0x02;
            },
            Command::Sleep(value) => {
                frame[2] = 0x03;
                frame[3] = if *value {
                    1
                } else {
                    0
                };
            },
            Command::Animate => {
                frame[2] = 0x04;
            },
            Command::Panic => {
                frame[2] = 0x05;
            },
            Command::Draw(bitmap) => {
                frame[2] = 0x06;
                let bytes = bitmap.data();
                let mut i: usize = 0;
                while i < DRAW_COMMAND_LENGTH
                    invariant
                        i <= DRAW_COMMAND_LENGTH,
                        frame@[2] == 0x06u8,
                        forall|j: int| 0 <= j < i ==> frame@[3 + j] == bytes@[j],
                        forall|j: int|
                            0 <= j < MAX_COMMAND_LENGTH && !(2 <= j < 3 + i) ==> frame@[j] == old(
                                frame,
                            )@[j],
                    decreases DRAW_COMMAND_LENGTH - i,
                {
                    frame[3 + i] = bytes[i];
                    i = i + 1;
                }
            },
            Command::StageColumnBuffer(index, value) => {
                if *index as usize > DISPLAY_WIDTH {
                    return Err(EncodeError::ColumnIndexTooLarge);
                }
                if value.len() != DISPLAY_HEIGHT {
                    return Err(EncodeError::ColumnLengthMismatch);
                }
                frame[2] = 0x07;
                frame[3] = *index;
                let mut i: usize = 0;
                while i < DISPLAY_HEIGHT
                    invariant
                        i <= DISPLAY_HEIGHT,
                        frame@[2] == 0x07u8,
                        frame@[3] == *index,
                        forall|j: int| 0 <= j < i ==> frame@[4 + j] == value@[j],
                        forall|j: int|
                            0 <= j < MAX_COMMAND_LENGTH && !(2 <= j < 4 + i) ==> frame@[j] == old(
                                frame,
                            )@[j],
                    decreases DISPLAY_HEIGHT - i,
                {
                    frame[4 + i] = value[i];
                    i = i + 1;
                }
            },
            Command::DrawBuffer => {
                frame[2] = 0x08;
            },
            Command::Version => {
                frame[2] = 0x20;
            },
        }
        assert(frame@ =~= packed(old(frame)@, *self));
        Ok(())
    }

    /// Build the complete wire frame for this command: allocate one
    /// frame-sized zeroed buffer, write the magic header, and pack the
    /// opcode and payload into it.
    pub fn frame(&self) -> (r: Result<[u8; MAX_COMMAND_LENGTH], EncodeError>)
        ensures
            match r {
                Ok(f) => self.encodable() && f@ == frame_bytes(*self),
                Err(e) => !self.encodable() && match self {
                    Command::StageColumnBuffer(index, value) => if *index as int
                        > DISPLAY_WIDTH as int {
                        e == EncodeError::ColumnIndexTooLarge
                    } else {
                        e == EncodeError::ColumnLengthMismatch
                    },
                    _ => false,
                },
            },
    {
        let mut buffer = [0u8; MAX_COMMAND_LENGTH];
        buffer[0] = 0x32;
        buffer[1] = 0xac;
        match self.pack(&mut buffer) {
            Ok(()) => {
                assert(buffer@ =~= frame_bytes(*self));
                Ok(buffer)
            },
            Err(e) => Err(e),
        }
    }
}

/// The frame `s` after a command wrote itself into it: the opcode lands at
/// position 2, the payload from position 3 on, and every other position
/// keeps the previous content of `s`.
pub open spec fn packed(s: Seq<u8>, c: Command) -> Seq<u8> {
    Seq::new(
        s.len(),
        |i: int|
            if i == 2 {
                c.opcode()
            } else if 3 <= i < 3 + c.payload().len() {
                c.payload()[i - 3]
            } else {
                s[i]
            },
    )
}

/// The complete wire frame for a command: the two magic header bytes, the
/// opcode, the payload, and zeroed trailing bytes, `MAX_COMMAND_LENGTH`
/// bytes in all.
pub open spec fn frame_bytes(c: Command) -> Seq<u8> {
    Seq::new(
        MAX_COMMAND_LENGTH as nat,
        |i: int|
            if i == 0 {
                0x32u8
            } else if i == 1 {
                0xacu8
            } else if i == 2 {
                c.opcode()
            } else if i < 3 + c.payload().len() {
                c.payload()[i - 3]
            } else {
                0u8
            },
    )
}

/// Law: every encodable command's frame is exactly `MAX_COMMAND_LENGTH`
/// bytes, opens with the magic header `0x32, 0xac`, carries the command's
/// opcode at position 2 and its payload from position 3 on, and pads the
/// remainder with zeroes.
pub proof fn lemma_frame_layout(c: Command)
    requires
        c.encodable(),
    ensures
        frame_bytes(c).len() == MAX_COMMAND_LENGTH,
        frame_bytes(c)[0] == 0x32u8,
        frame_bytes(c)[1] == 0xacu8,
        frame_bytes(c)[2] == c.opcode(),
        3 + c.payload().len() <= MAX_COMMAND_LENGTH,
        forall|i: int| 0 <= i < c.payload().len() ==> frame_bytes(c)[3 + i] == c.payload()[i],
        forall|i: int|
            3 + c.payload().len() <= i < MAX_COMMAND_LENGTH ==> frame_bytes(c)[i] == 0u8,
{
}

} // verus!
