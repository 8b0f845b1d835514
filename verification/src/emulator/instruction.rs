//! The tagged operation set: one variant per recognized opcode pattern,
//! each carrying only the operand fields it needs.

pub mod parser;

use vstd::prelude::*;

use super::types::{EightBitValue, FourBitValue, MemoryAddress, RegisterNumber, TwelveBitValue};

verus! {

/// One decoded CHIP-8 operation. The comments name the opcode family
/// (the leading nibble of the 2-byte instruction word) each variant
/// belongs to.
#[derive(Clone, Copy, Debug, PartialEq, Eq, Structural)]
#[allow(inconsistent_fields)]
pub enum Instruction {
    // OpCode 0
    System { address: MemoryAddress },
    ClearDisplay,
    ReturnFromSubroutine,
    // OpCode 1
    Jump { address: MemoryAddress },
    // OpCode 2
    Call { address: MemoryAddress },
    // OpCode 3
    SkipNextInstructionIfMatch { read_value_from: RegisterNumber, immediate: EightBitValue },
    // OpCode 4
    SkipNextInstructionIfNotMatch { read_value_from: RegisterNumber, immediate: EightBitValue },
    // OpCode 5
    SkipNextInstructionIfValuesMatch { lhs: RegisterNumber, rhs: RegisterNumber },
    // OpCode 6
    LoadImmediateToRegister { immediate: EightBitValue, destination: RegisterNumber },
    // OpCode 7
    AddImmediateToRegister { immediate: EightBitValue, destination: RegisterNumber },
    // OpCode 8
    CopyRegisterValue { source: RegisterNumber, destination: RegisterNumber },
    BitwiseOrRegisters { source: RegisterNumber, destination: RegisterNumber },
    BitwiseAndRegisters { source: RegisterNumber, destination: RegisterNumber },
    BitwiseXorRegisters { source: RegisterNumber, destination: RegisterNumber },
    AddRegisters { source: RegisterNumber, destination: RegisterNumber },
    SubtractDestinationFromSource { source: RegisterNumber, destination: RegisterNumber },
    ShiftRightRegisters { source: RegisterNumber, destination: RegisterNumber },
    SubtractSourceFromDestination { source: RegisterNumber, destination: RegisterNumber },
    ShiftLeftRegisters { source: RegisterNumber, destination: RegisterNumber },
    // OpCode 9
    SkipNextInstructionIfValuesDoNotMatch { lhs: RegisterNumber, rhs: RegisterNumber },
    // OpCode A
    LoadToIRegister { immediate: TwelveBitValue },
    // OpCode B
    JumpToSumOfV0ValueAndImmediate { immediate: TwelveBitValue },
    // OpCode C
    LoadBitwiseAndOfRandomByteAndImmediate { destination: RegisterNumber, immediate: EightBitValue },
    // OpCode D
    DrawSpritesFromMemory {
        read_x_axis_from: RegisterNumber,
        read_y_axis_from: RegisterNumber,
        bytes_to_read_from_i_register: FourBitValue,
    },
    // OpCode E
    SkipNextInstructionIfKeyIsPressed { read_key_number_from: RegisterNumber },
    SkipNextInstructionIfKeyIsNotPressed { read_key_number_from: RegisterNumber },
    // OpCode F
    LoadDelayTimerIntoRegister { destination: RegisterNumber },
    AwaitKeyPressAndLoadIntoRegister { destination: RegisterNumber },
    LoadIntoDelayTimer { source: RegisterNumber },
    LoadIntoSoundTimer { source: RegisterNumber },
    AddValueToIRegister { source: RegisterNumber },
    LoadSpriteLocationForValueIntoIRegister { source: RegisterNumber },
    LoadBinaryCodedDecimalValueIntoSequenceStartingAtIRegisterValue { source: RegisterNumber },
    LoadValuesFromV0ToRegisterIntoSequenceStartingAtIRegisterValue { end: RegisterNumber },
    LoadSequenceStartingAtIRegisterValueIntoV0ToRegister { end: RegisterNumber },
}

impl Instruction {
    /// Every operand field fits the bit width its position in the
    /// instruction word allots to it. The decoder only ever produces
    /// well-formed instructions.
    pub open spec fn wf(self) -> bool {
        match self {
            Instruction::System { address } => address.wf(),
            Instruction::ClearDisplay => true,
            Instruction::ReturnFromSubroutine => true,
            Instruction::Jump { address } => address.wf(),
            Instruction::Call { address } => address.wf(),
            Instruction::SkipNextInstructionIfMatch { read_value_from, immediate } =>
                read_value_from.wf(),
            Instruction::SkipNextInstructionIfNotMatch { read_value_from, immediate } =>
                read_value_from.wf(),
            Instruction::SkipNextInstructionIfValuesMatch { lhs, rhs } => lhs.wf() && rhs.wf(),
            Instruction::LoadImmediateToRegister { immediate, destination } => destination.wf(),
            Instruction::AddImmediateToRegister { immediate, destination } => destination.wf(),
            Instruction::CopyRegisterValue { source, destination } =>
                source.wf() && destination.wf(),
            Instruction::BitwiseOrRegisters { source, destination } =>
                source.wf() && destination.wf(),
            Instruction::BitwiseAndRegisters { source, destination } =>
                source.wf() && destination.wf(),
            Instruction::BitwiseXorRegisters { source, destination } =>
                source.wf() && destination.wf(),
            Instruction::AddRegisters { source, destination } =>
                source.wf() && destination.wf(),
            Instruction::SubtractDestinationFromSource { source, destination } =>
                source.wf() && destination.wf(),
            Instruction::ShiftRightRegisters { source, destination } =>
                source.wf() && destination.wf(),
            Instruction::SubtractSourceFromDestination { source, destination } =>
                source.wf() && destination.wf(),
            Instruction::ShiftLeftRegisters { source, destination } =>
                source.wf() && destination.wf(),
            Instruction::SkipNextInstructionIfValuesDoNotMatch { lhs, rhs } =>
                lhs.wf() && rhs.wf(),
            Instruction::LoadToIRegister { immediate } => immediate.wf(),
            Instruction::JumpToSumOfV0ValueAndImmediate { immediate } => immediate.wf(),
            Instruction::LoadBitwiseAndOfRandomByteAndImmediate { destination, immediate } =>
                destination.wf(),
            Instruction::DrawSpritesFromMemory {
                read_x_axis_from,
                read_y_axis_from,
                bytes_to_read_from_i_register,
            } => read_x_axis_from.wf() && read_y_axis_from.wf()
                && bytes_to_read_from_i_register.wf(),
            Instruction::SkipNextInstructionIfKeyIsPressed { read_key_number_from } =>
                read_key_number_from.wf(),
            Instruction::SkipNextInstructionIfKeyIsNotPressed { read_key_number_from } =>
                read_key_number_from.wf(),
            Instruction::LoadDelayTimerIntoRegister { destination } => destination.wf(),
            Instruction::AwaitKeyPressAndLoadIntoRegister { destination } => destination.wf(),
            Instruction::LoadIntoDelayTimer { source } => source.wf(),
            Instruction::LoadIntoSoundTimer { source } => source.wf(),
            Instruction::AddValueToIRegister { source } => source.wf(),
            Instruction::LoadSpriteLocationForValueIntoIRegister { source } => source.wf(),
            Instruction::LoadBinaryCodedDecimalValueIntoSequenceStartingAtIRegisterValue {
                source,
            } => source.wf(),
            Instruction::LoadValuesFromV0ToRegisterIntoSequenceStartingAtIRegisterValue { end } =>
                end.wf(),
            Instruction::LoadSequenceStartingAtIRegisterValueIntoV0ToRegister { end } => end.wf(),
        }
    }
}

} // verus!
