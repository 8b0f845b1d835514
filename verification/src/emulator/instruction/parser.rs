//! The instruction decoder: a 2-byte word (most-significant nibble first)
//! is read nibble by nibble into one of the tagged operations, and the
//! encoder that writes an operation back into its word.

use vstd::prelude::*;

use crate::emulator::instruction::Instruction;
use crate::emulator::types::{
    EightBitValue, FourBitValue, MemoryAddress, RegisterNumber, TwelveBitValue,
};

verus! {

/// The most-significant 4 bits of a byte.
pub open spec fn high_nibble(b: u8) -> u8 {
    (b / 16) as u8
}

/// The least-significant 4 bits of a byte.
pub open spec fn low_nibble(b: u8) -> u8 {
    (b % 16) as u8
}

/// The 12-bit address held in the low 12 bits of the instruction word.
pub open spec fn spec_word_address(b0: u8, b1: u8) -> u16 {
    (low_nibble(b0) * 256 + b1) as u16
}

/// What a 2-byte instruction word decodes to: `None` exactly when the word
/// matches no pattern of the grammar. The leading nibble selects one of 16
/// opcode families; families 0, 8, E and F sub-dispatch on a trailing
/// nibble or byte.
pub open spec fn spec_decode(b0: u8, b1: u8) -> Option<Instruction> {
    let x = RegisterNumber(FourBitValue(low_nibble(b0)));
    let y = RegisterNumber(FourBitValue(high_nibble(b1)));
    let immediate = EightBitValue(b1);
    let address = MemoryAddress(TwelveBitValue(spec_word_address(b0, b1)));
    match high_nibble(b0) {
        0x0 => if low_nibble(b0) == 0 && b1 == 0xE0 {
            Some(Instruction::ClearDisplay)
        } else if low_nibble(b0) == 0 && b1 == 0xEE {
            Some(Instruction::ReturnFromSubroutine)
        } else {
            Some(Instruction::System { address })
        },
        0x1 => Some(Instruction::Jump { address }),
        0x2 => Some(Instruction::Call { address }),
        0x3 => Some(Instruction::SkipNextInstructionIfMatch { read_value_from: x, immediate }),
        0x4 => Some(Instruction::SkipNextInstructionIfNotMatch { read_value_from: x, immediate }),
        0x5 => if low_nibble(b1) == 0 {
            Some(Instruction::SkipNextInstructionIfValuesMatch { lhs: x, rhs: y })
        } else {
            None
        },
        0x6 => Some(Instruction::LoadImmediateToRegister { immediate, destination: x }),
        0x7 => Some(Instruction::AddImmediateToRegister { immediate, destination: x }),
        0x8 => match low_nibble(b1) {
            0x0 => Some(Instruction::CopyRegisterValue { source: y, destination: x }),
            0x1 => Some(Instruction::BitwiseOrRegisters { source: y, destination: x }),
            0x2 => Some(Instruction::BitwiseAndRegisters { source: y, destination: x }),
            0x3 => Some(Instruction::BitwiseXorRegisters { source: y, destination: x }),
            0x4 => Some(Instruction::AddRegisters { source: y, destination: x }),
            0x5 => Some(Instruction::SubtractDestinationFromSource { source: y, destination: x }),
            0x6 => Some(Instruction::ShiftRightRegisters { source: y, destination: x }),
            0x7 => Some(Instruction::SubtractSourceFromDestination { source: y, destination: x }),
            0xE => Some(Instruction::ShiftLeftRegisters { source: y, destination: x }),
            _ => None,
        },
        0x9 => if low_nibble(b1) == 0 {
            Some(Instruction::SkipNextInstructionIfValuesDoNotMatch { lhs: x, rhs: y })
        } else {
            None
        },
        0xA => Some(Instruction::LoadToIRegister {
            immediate: TwelveBitValue(spec_word_address(b0, b1)),
        }),
        0xB => Some(Instruction::JumpToSumOfV0ValueAndImmediate {
            immediate: TwelveBitValue(spec_word_address(b0, b1)),
        }),
        0xC => Some(Instruction::LoadBitwiseAndOfRandomByteAndImmediate {
            destination: x,
            immediate,
        }),
        0xD => Some(Instruction::DrawSpritesFromMemory {
            read_x_axis_from: x,
            read_y_axis_from: y,
            bytes_to_read_from_i_register: FourBitValue(low_nibble(b1)),
        }),
        0xE => match b1 {
            0x9E => Some(Instruction::SkipNextInstructionIfKeyIsPressed {
                read_key_number_from: x,
            }),
            0xA1 => Some(Instruction::SkipNextInstructionIfKeyIsNotPressed {
                read_key_number_from: x,
            }),
            _ => None,
        },
        0xF => match b1 {
            0x07 => Some(Instruction::LoadDelayTimerIntoRegister { destination: x }),
            0x0A => Some(Instruction::AwaitKeyPressAndLoadIntoRegister { destination: x }),
            0x15 => Some(Instruction::LoadIntoDelayTimer { source: x }),
            0x18 => Some(Instruction::LoadIntoSoundTimer { source: x }),
            0x1E => Some(Instruction::AddValueToIRegister { source: x }),
            0x29 => Some(Instruction::LoadSpriteLocationForValueIntoIRegister { source: x }),
            0x33 => Some(
                Instruction::LoadBinaryCodedDecimalValueIntoSequenceStartingAtIRegisterValue {
                    source: x,
                },
            ),
            0x55 => Some(
                Instruction::LoadValuesFromV0ToRegisterIntoSequenceStartingAtIRegisterValue {
                    end: x,
                },
            ),
            0x65 => Some(Instruction::LoadSequenceStartingAtIRegisterValueIntoV0ToRegister {
                end: x,
            }),
            _ => None,
        },
        _ => None,
    }
}

/// Decode a 2-byte instruction word, most-significant byte first.
/// Fails exactly on the words that match no pattern of the grammar;
/// no partial instruction is ever returned.
pub fn parse_instruction(input: &[u8; 2]) -> (r: Option<Instruction>)
    ensures
        r == spec_decode(input[0], input[1]),
        r matches Some(i) ==> i.wf(),
{
    let b0: u8 = input[0];
    let b1: u8 = input[1];
    let family: u8 = b0 / 16;
    let x = RegisterNumber(FourBitValue(b0 % 16));
    let y = RegisterNumber(FourBitValue(b1 / 16));
    let immediate = EightBitValue(b1);
    let raw_address: u16 = (b0 % 16) as u16 * 256 + b1 as u16;
    let address = MemoryAddress(TwelveBitValue(raw_address));
    match family {
        0x0 => if b0 % 16 == 0 && b1 == 0xE0 {
            Some(Instruction::ClearDisplay)
        } else if b0 % 16 == 0 && b1 == 0xEE {
            Some(Instruction::ReturnFromSubroutine)
        } else {
            Some(Instruction::System { address })
        },
        0x1 => Some(Instruction::Jump { address }),
        0x2 => Some(Instruction::Call { address }),
        0x3 => Some(Instruction::SkipNextInstructionIfMatch { read_value_from: x, immediate }),
        0x4 => Some(Instruction::SkipNextInstructionIfNotMatch { read_value_from: x, immediate }),
        0x5 => if b1 % 16 == 0 {
            Some(Instruction::SkipNextInstructionIfValuesMatch { lhs: x, rhs: y })
        } else {
            None
        },
        0x6 => Some(Instruction::LoadImmediateToRegister { immediate, destination: x }),
        0x7 => Some(Instruction::AddImmediateToRegister { immediate, destination: x }),
        0x8 => match b1 % 16 {
            0x0 => Some(Instruction::CopyRegisterValue { source: y, destination: x }),
            0x1 => Some(Instruction::BitwiseOrRegisters { source: y, destination: x }),
            0x2 => Some(Instruction::BitwiseAndRegisters { source: y, destination: x }),
            0x3 => Some(Instruction::BitwiseXorRegisters { source: y, destination: x }),
            0x4 => Some(Instruction::AddRegisters { source: y, destination: x }),
            0x5 => Some(Instruction::SubtractDestinationFromSource { source: y, destination: x }),
            0x6 => Some(Instruction::ShiftRightRegisters { source: y, destination: x }),
            0x7 => Some(Instruction::SubtractSourceFromDestination { source: y, destination: x }),
            0xE => Some(Instruction::ShiftLeftRegisters { source: y, destination: x }),
            _ => None,
        },
        0x9 => if b1 % 16 == 0 {
            Some(Instruction::SkipNextInstructionIfValuesDoNotMatch { lhs: x, rhs: y })
        } else {
            None
        },
        0xA => Some(Instruction::LoadToIRegister { immediate: TwelveBitValue(raw_address) }),
        0xB => Some(Instruction::JumpToSumOfV0ValueAndImmediate {
            immediate: TwelveBitValue(raw_address),
        }),
        0xC => Some(Instruction::LoadBitwiseAndOfRandomByteAndImmediate {
            destination: x,
            immediate,
        }),
        0xD => Some(Instruction::DrawSpritesFromMemory {
            read_x_axis_from: x,
            read_y_axis_from: y,
            bytes_to_read_from_i_register: FourBitValue(b1 % 16),
        }),
        0xE => match b1 {
            0x9E => Some(Instruction::SkipNextInstructionIfKeyIsPressed {
                read_key_number_from: x,
            }),
            0xA1 => Some(Instruction::SkipNextInstructionIfKeyIsNotPressed {
                read_key_number_from: x,
            }),
            _ => None,
        },
        0xF => match b1 {
            0x07 => Some(Instruction::LoadDelayTimerIntoRegister { destination: x }),
            0x0A => Some(Instruction::AwaitKeyPressAndLoadIntoRegister { destination: x }),
            0x15 => Some(Instruction::LoadIntoDelayTimer { source: x }),
            0x18 => Some(Instruction::LoadIntoSoundTimer { source: x }),
            0x1E => Some(Instruction::AddValueToIRegister { source: x }),
            0x29 => Some(Instruction::LoadSpriteLocationForValueIntoIRegister { source: x }),
            0x33 => Some(
                Instruction::LoadBinaryCodedDecimalValueIntoSequenceStartingAtIRegisterValue {
                    source: x,
                },
            ),
            0x55 => Some(
                Instruction::LoadValuesFromV0ToRegisterIntoSequenceStartingAtIRegisterValue {
                    end: x,
                },
            ),
            0x65 => Some(Instruction::LoadSequenceStartingAtIRegisterValueIntoV0ToRegister {
                end: x,
            }),
            _ => None,
        },
        _ => None,
    }
}

/// The word an operation encodes to, most-significant byte first.
/// Inverse of `spec_decode` on well-formed operations (see
/// `lemma_parse_encode_round_trip`).
pub open spec fn spec_encode(instruction: Instruction) -> (u8, u8) {
    match instruction {
        Instruction::System { address } => pack_address(0x0, address.0.0),
        Instruction::ClearDisplay => (0x00, 0xE0),
        Instruction::ReturnFromSubroutine => (0x00, 0xEE),
        Instruction::Jump { address } => pack_address(0x1, address.0.0),
        Instruction::Call { address } => pack_address(0x2, address.0.0),
        Instruction::SkipNextInstructionIfMatch { read_value_from, immediate } =>
            (pack_nibbles(0x3, read_value_from.0.0), immediate.0),
        Instruction::SkipNextInstructionIfNotMatch { read_value_from, immediate } =>
            (pack_nibbles(0x4, read_value_from.0.0), immediate.0),
        Instruction::SkipNextInstructionIfValuesMatch { lhs, rhs } =>
            (pack_nibbles(0x5, lhs.0.0), pack_nibbles(rhs.0.0, 0x0)),
        Instruction::LoadImmediateToRegister { immediate, destination } =>
            (pack_nibbles(0x6, destination.0.0), immediate.0),
        Instruction::AddImmediateToRegister { immediate, destination } =>
            (pack_nibbles(0x7, destination.0.0), immediate.0),
        Instruction::CopyRegisterValue { source, destination } =>
            (pack_nibbles(0x8, destination.0.0), pack_nibbles(source.0.0, 0x0)),
        Instruction::BitwiseOrRegisters { source, destination } =>
            (pack_nibbles(0x8, destination.0.0), pack_nibbles(source.0.0, 0x1)),
        Instruction::BitwiseAndRegisters { source, destination } =>
            (pack_nibbles(0x8, destination.0.0), pack_nibbles(source.0.0, 0x2)),
        Instruction::BitwiseXorRegisters { source, destination } =>
            (pack_nibbles(0x8, destination.0.0), pack_nibbles(source.0.0, 0x3)),
        Instruction::AddRegisters { source, destination } =>
            (pack_nibbles(0x8, destination.0.0), pack_nibbles(source.0.0, 0x4)),
        Instruction::SubtractDestinationFromSource { source, destination } =>
            (pack_nibbles(0x8, destination.0.0), pack_nibbles(source.0.0, 0x5)),
        Instruction::ShiftRightRegisters { source, destination } =>
            (pack_nibbles(0x8, destination.0.0), pack_nibbles(source.0.0, 0x6)),
        Instruction::SubtractSourceFromDestination { source, destination } =>
            (pack_nibbles(0x8, destination.0.0), pack_nibbles(source.0.0, 0x7)),
        Instruction::ShiftLeftRegisters { source, destination } =>
            (pack_nibbles(0x8, destination.0.0), pack_nibbles(source.0.0, 0xE)),
        Instruction::SkipNextInstructionIfValuesDoNotMatch { lhs, rhs } =>
            (pack_nibbles(0x9, lhs.0.0), pack_nibbles(rhs.0.0, 0x0)),
        Instruction::LoadToIRegister { immediate } => pack_address(0xA, immediate.0),
        Instruction::JumpToSumOfV0ValueAndImmediate { immediate } =>
            pack_address(0xB, immediate.0),
        Instruction::LoadBitwiseAndOfRandomByteAndImmediate { destination, immediate } =>
            (pack_nibbles(0xC, destination.0.0), immediate.0),
        Instruction::DrawSpritesFromMemory {
            read_x_axis_from,
            read_y_axis_from,
            bytes_to_read_from_i_register,
        } => (
            pack_nibbles(0xD, read_x_axis_from.0.0),
            pack_nibbles(read_y_axis_from.0.0, bytes_to_read_from_i_register.0),
        ),
        Instruction::SkipNextInstructionIfKeyIsPressed { read_key_number_from } =>
            (pack_nibbles(0xE, read_key_number_from.0.0), 0x9E),
        Instruction::SkipNextInstructionIfKeyIsNotPressed { read_key_number_from } =>
            (pack_nibbles(0xE, read_key_number_from.0.0), 0xA1),
        Instruction::LoadDelayTimerIntoRegister { destination } =>
            (pack_nibbles(0xF, destination.0.0), 0x07),
        Instruction::AwaitKeyPressAndLoadIntoRegister { destination } =>
            (pack_nibbles(0xF, destination.0.0), 0x0A),
        Instruction::LoadIntoDelayTimer { source } => (pack_nibbles(0xF, source.0.0), 0x15),
        Instruction::LoadIntoSoundTimer { source } => (pack_nibbles(0xF, source.0.0), 0x18),
        Instruction::AddValueToIRegister { source } => (pack_nibbles(0xF, source.0.0), 0x1E),
        Instruction::LoadSpriteLocationForValueIntoIRegister { source } =>
            (pack_nibbles(0xF, source.0.0), 0x29),
        Instruction::LoadBinaryCodedDecimalValueIntoSequenceStartingAtIRegisterValue { source } =>
            (pack_nibbles(0xF, source.0.0), 0x33),
        Instruction::LoadValuesFromV0ToRegisterIntoSequenceStartingAtIRegisterValue { end } =>
            (pack_nibbles(0xF, end.0.0), 0x55),
        Instruction::LoadSequenceStartingAtIRegisterValueIntoV0ToRegister { end } =>
            (pack_nibbles(0xF, end.0.0), 0x65),
    }
}

/// One byte from two nibbles, most-significant first.
pub open spec fn pack_nibbles(high: u8, low: u8) -> u8 {
    (high * 16 + low) as u8
}

/// The word of a family that carries a 12-bit address in its tail.
pub open spec fn pack_address(family: u8, address: u16) -> (u8, u8) {
    (pack_nibbles(family, (address / 256) as u8), (address % 256) as u8)
}

/// Packing two nibbles and reading them back is the identity.
proof fn lemma_pack_nibbles(high: u8, low: u8)
    requires
        high <= 0xF,
        low <= 0xF,
    ensures
        high_nibble(pack_nibbles(high, low)) == high,
        low_nibble(pack_nibbles(high, low)) == low,
{
}

/// Splitting a 12-bit address over a nibble and a byte and reading it
/// back is the identity.
proof fn lemma_pack_address(family: u8, address: u16)
    requires
        family <= 0xF,
        address <= 0xFFF,
    ensures
        high_nibble(pack_address(family, address).0) == family,
        low_nibble(pack_address(family, address).0) == address / 256,
        spec_word_address(pack_address(family, address).0, pack_address(family, address).1)
            == address,
{
    lemma_pack_nibbles(family, (address / 256) as u8);
}

/// Encode an operation into its 2-byte instruction word.
pub fn encode_instruction(instruction: &Instruction) -> (r: (u8, u8))
    requires
        instruction.wf(),
    ensures
        r == spec_encode(*instruction),
{
    match *instruction {
        Instruction::System { address } => encode_address(0x0, address),
        Instruction::ClearDisplay => (0x00, 0xE0),
        Instruction::ReturnFromSubroutine => (0x00, 0xEE),
        Instruction::Jump { address } => encode_address(0x1, address),
        Instruction::Call { address } => encode_address(0x2, address),
        Instruction::SkipNextInstructionIfMatch { read_value_from, immediate } =>
            (0x30 + read_value_from.0.0, immediate.0),
        Instruction::SkipNextInstructionIfNotMatch { read_value_from, immediate } =>
            (0x40 + read_value_from.0.0, immediate.0),
        Instruction::SkipNextInstructionIfValuesMatch { lhs, rhs } =>
            (0x50 + lhs.0.0, rhs.0.0 * 16),
        Instruction::LoadImmediateToRegister { immediate, destination } =>
            (0x60 + destination.0.0, immediate.0),
        Instruction::AddImmediateToRegister { immediate, destination } =>
            (0x70 + destination.0.0, immediate.0),
        Instruction::CopyRegisterValue { source, destination } =>
            (0x80 + destination.0.0, source.0.0 * 16),
        Instruction::BitwiseOrRegisters { source, destination } =>
            (0x80 + destination.0.0, source.0.0 * 16 + 0x1),
        Instruction::BitwiseAndRegisters { source, destination } =>
            (0x80 + destination.0.0, source.0.0 * 16 + 0x2),
        Instruction::BitwiseXorRegisters { source, destination } =>
            (0x80 + destination.0.0, source.0.0 * 16 + 0x3),
        Instruction::AddRegisters { source, destination } =>
            (0x80 + destination.0.0, source.0.0 * 16 + 0x4),
        Instruction::SubtractDestinationFromSource { source, destination } =>
            (0x80 + destination.0.0, source.0.0 * 16 + 0x5),
        Instruction::ShiftRightRegisters { source, destination } =>
            (0x80 + destination.0.0, source.0.0 * 16 + 0x6),
        Instruction::SubtractSourceFromDestination { source, destination } =>
            (0x80 + destination.0.0, source.0.0 * 16 + 0x7),
        Instruction::ShiftLeftRegisters { source, destination } =>
            (0x80 + destination.0.0, source.0.0 * 16 + 0xE),
        Instruction::SkipNextInstructionIfValuesDoNotMatch { lhs, rhs } =>
            (0x90 + lhs.0.0, rhs.0.0 * 16),
        Instruction::LoadToIRegister { immediate } =>
            encode_address(0xA, MemoryAddress(immediate)),
        Instruction::JumpToSumOfV0ValueAndImmediate { immediate } =>
            encode_address(0xB, MemoryAddress(immediate)),
        Instruction::LoadBitwiseAndOfRandomByteAndImmediate { destination, immediate } =>
            (0xC0 + destination.0.0, immediate.0),
        Instruction::DrawSpritesFromMemory {
            read_x_axis_from,
            read_y_axis_from,
            bytes_to_read_from_i_register,
        } => (
            0xD0 + read_x_axis_from.0.0,
            read_y_axis_from.0.0 * 16 + bytes_to_read_from_i_register.0,
        ),
        Instruction::SkipNextInstructionIfKeyIsPressed { read_key_number_from } =>
            (0xE0 + read_key_number_from.0.0, 0x9E),
        Instruction::SkipNextInstructionIfKeyIsNotPressed { read_key_number_from } =>
            (0xE0 + read_key_number_from.0.0, 0xA1),
        Instruction::LoadDelayTimerIntoRegister { destination } =>
            (0xF0 + destination.0.0, 0x07),
        Instruction::AwaitKeyPressAndLoadIntoRegister { destination } =>
            (0xF0 + destination.0.0, 0x0A),
        Instruction::LoadIntoDelayTimer { source } => (0xF0 + source.0.0, 0x15),
        Instruction::LoadIntoSoundTimer { source } => (0xF0 + source.0.0, 0x18),
        Instruction::AddValueToIRegister { source } => (0xF0 + source.0.0, 0x1E),
        Instruction::LoadSpriteLocationForValueIntoIRegister { source } =>
            (0xF0 + source.0.0, 0x29),
        Instruction::LoadBinaryCodedDecimalValueIntoSequenceStartingAtIRegisterValue { source } =>
            (0xF0 + source.0.0, 0x33),
        Instruction::LoadValuesFromV0ToRegisterIntoSequenceStartingAtIRegisterValue { end } =>
            (0xF0 + end.0.0, 0x55),
        Instruction::LoadSequenceStartingAtIRegisterValueIntoV0ToRegister { end } =>
            (0xF0 + end.0.0, 0x65),
    }
}

/// The tail-address word of a family, in executable form.
fn encode_address(family_high: u8, address: MemoryAddress) -> (r: (u8, u8))
    requires
        family_high <= 0xF,
        address.wf(),
    ensures
        r == pack_address(family_high, address.0.0),
{
    let raw: u16 = address.0.0;
    (family_high * 16 + (raw / 256) as u8, (raw % 256) as u8)
}

/// Round trip: every well-formed operation decodes back from its encoding.
/// The one family-0 proviso: the words `00E0` and `00EE` belong to the
/// clear-display and return patterns, so a `System` operation naming one
/// of those two addresses has no word of its own.
pub proof fn lemma_parse_encode_round_trip(instruction: Instruction)
    requires
        instruction.wf(),
        instruction matches Instruction::System { address } ==> address.0.0 != 0x0E0
            && address.0.0 != 0x0EE,
    ensures
        spec_decode(spec_encode(instruction).0, spec_encode(instruction).1)
            == Some(instruction),
{
    match instruction {
        Instruction::System { address } => {
            lemma_pack_address(0x0, address.0.0);
        },
        Instruction::ClearDisplay => {},
        Instruction::ReturnFromSubroutine => {},
        Instruction::Jump { address } => {
            lemma_pack_address(0x1, address.0.0);
        },
        Instruction::Call { address } => {
            lemma_pack_address(0x2, address.0.0);
        },
        Instruction::SkipNextInstructionIfMatch { read_value_from, immediate } => {
            lemma_pack_nibbles(0x3, read_value_from.0.0);
        },
        Instruction::SkipNextInstructionIfNotMatch { read_value_from, immediate } => {
            lemma_pack_nibbles(0x4, read_value_from.0.0);
        },
        Instruction::SkipNextInstructionIfValuesMatch { lhs, rhs } => {
            lemma_pack_nibbles(0x5, lhs.0.0);
            lemma_pack_nibbles(rhs.0.0, 0x0);
        },
        Instruction::LoadImmediateToRegister { immediate, destination } => {
            lemma_pack_nibbles(0x6, destination.0.0);
        },
        Instruction::AddImmediateToRegister { immediate, destination } => {
            lemma_pack_nibbles(0x7, destination.0.0);
        },
        Instruction::CopyRegisterValue { source, destination } => {
            lemma_pack_nibbles(0x8, destination.0.0);
            lemma_pack_nibbles(source.0.0, 0x0);
        },
        Instruction::BitwiseOrRegisters { source, destination } => {
            lemma_pack_nibbles(0x8, destination.0.0);
            lemma_pack_nibbles(source.0.0, 0x1);
        },
        Instruction::BitwiseAndRegisters { source, destination } => {
            lemma_pack_nibbles(0x8, destination.0.0);
            lemma_pack_nibbles(source.0.0, 0x2);
        },
        Instruction::BitwiseXorRegisters { source, destination } => {
            lemma_pack_nibbles(0x8, destination.0.0);
            lemma_pack_nibbles(source.0.0, 0x3);
        },
        Instruction::AddRegisters { source, destination } => {
            lemma_pack_nibbles(0x8, destination.0.0);
            lemma_pack_nibbles(source.0.0, 0x4);
        },
        Instruction::SubtractDestinationFromSource { source, destination } => {
            lemma_pack_nibbles(0x8, destination.0.0);
            lemma_pack_nibbles(source.0.0, 0x5);
        },
        Instruction::ShiftRightRegisters { source, destination } => {
            lemma_pack_nibbles(0x8, destination.0.0);
            lemma_pack_nibbles(source.0.0, 0x6);
        },
        Instruction::SubtractSourceFromDestination { source, destination } => {
            lemma_pack_nibbles(0x8, destination.0.0);
            lemma_pack_nibbles(source.0.0, 0x7);
        },
        Instruction::ShiftLeftRegisters { source, destination } => {
            lemma_pack_nibbles(0x8, destination.0.0);
            lemma_pack_nibbles(source.0.0, 0xE);
        },
        Instruction::SkipNextInstructionIfValuesDoNotMatch { lhs, rhs } => {
            lemma_pack_nibbles(0x9, lhs.0.0);
            lemma_pack_nibbles(rhs.0.0, 0x0);
        },
        Instruction::LoadToIRegister { immediate } => {
            lemma_pack_address(0xA, immediate.0);
        },
        Instruction::JumpToSumOfV0ValueAndImmediate { immediate } => {
            lemma_pack_address(0xB, immediate.0);
        },
        Instruction::LoadBitwiseAndOfRandomByteAndImmediate { destination, immediate } => {
            lemma_pack_nibbles(0xC, destination.0.0);
        },
        Instruction::DrawSpritesFromMemory {
            read_x_axis_from,
            read_y_axis_from,
            bytes_to_read_from_i_register,
        } => {
            lemma_pack_nibbles(0xD, read_x_axis_from.0.0);
            lemma_pack_nibbles(read_y_axis_from.0.0, bytes_to_read_from_i_register.0);
        },
        Instruction::SkipNextInstructionIfKeyIsPressed { read_key_number_from } => {
            lemma_pack_nibbles(0xE, read_key_number_from.0.0);
        },
        Instruction::SkipNextInstructionIfKeyIsNotPressed { read_key_number_from } => {
            lemma_pack_nibbles(0xE, read_key_number_from.0.0);
        },
        Instruction::LoadDelayTimerIntoRegister { destination } => {
            lemma_pack_nibbles(0xF, destination.0.0);
        },
        Instruction::AwaitKeyPressAndLoadIntoRegister { destination } => {
            lemma_pack_nibbles(0xF, destination.0.0);
        },
        Instruction::LoadIntoDelayTimer { source } => {
            lemma_pack_nibbles(0xF, source.0.0);
        },
        Instruction::LoadIntoSoundTimer { source } => {
            lemma_pack_nibbles(0xF, source.0.0);
        },
        Instruction::AddValueToIRegister { source } => {
            lemma_pack_nibbles(0xF, source.0.0);
        },
        Instruction::LoadSpriteLocationForValueIntoIRegister { source } => {
            lemma_pack_nibbles(0xF, source.0.0);
        },
        Instruction::LoadBinaryCodedDecimalValueIntoSequenceStartingAtIRegisterValue { source } => {
            lemma_pack_nibbles(0xF, source.0.0);
        },
        Instruction::LoadValuesFromV0ToRegisterIntoSequenceStartingAtIRegisterValue { end } => {
            lemma_pack_nibbles(0xF, end.0.0);
        },
        Instruction::LoadSequenceStartingAtIRegisterValueIntoV0ToRegister { end } => {
            lemma_pack_nibbles(0xF, end.0.0);
        },
    }
}

/// The address form of opcode family 0 is the true fallback and nothing
/// more: a word with leading nibble 0 always decodes, and it decodes to
/// `System` exactly when it is neither the clear-display word `00E0` nor
/// the return word `00EE`.
pub proof fn lemma_system_is_fallback(b0: u8, b1: u8)
    requires
        high_nibble(b0) == 0,
    ensures
        spec_decode(b0, b1) is Some,
        low_nibble(b0) == 0 && b1 == 0xE0 ==> spec_decode(b0, b1)
            == Some(Instruction::ClearDisplay),
        low_nibble(b0) == 0 && b1 == 0xEE ==> spec_decode(b0, b1)
            == Some(Instruction::ReturnFromSubroutine),
        !(low_nibble(b0) == 0 && (b1 == 0xE0 || b1 == 0xEE)) ==> spec_decode(b0, b1)
            == Some(
            Instruction::System {
                address: MemoryAddress(TwelveBitValue(spec_word_address(b0, b1))),
            },
        ),
{
}

} // verus!
