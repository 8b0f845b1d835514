use chip8::emulator::instruction::parser::{encode_instruction, parse_instruction};
use chip8::emulator::instruction::Instruction;
use chip8::emulator::types::{
    EightBitValue, FourBitValue, MemoryAddress, RegisterNumber, TwelveBitValue,
};

// OpCode 0
#[test]
fn clear_display() {
    let parsed = parse_instruction(b"\x00\xE0");

    let expected_value = Instruction::ClearDisplay;
    assert_eq!(parsed, Some(expected_value));
}

#[test]
fn system_instruction() {
    let parsed = parse_instruction(b"\x01\x23");

    let expected_value = Instruction::System {
        address: MemoryAddress(TwelveBitValue(0x123)),
    };
    assert_eq!(parsed, Some(expected_value));
}

#[test]
fn return_from_subroutine() {
    let parsed = parse_instruction(b"\x00\xEE");

    let expected_value = Instruction::ReturnFromSubroutine;
    assert_eq!(parsed, Some(expected_value));
}

// OpCode 1
#[test]
fn jump() {
    let parsed = parse_instruction(b"\x11\x23");

    let expected_value = Instruction::Jump {
        address: MemoryAddress(TwelveBitValue(0x123)),
    };
    assert_eq!(parsed, Some(expected_value));
}

// OpCode 2
#[test]
fn call() {
    let parsed = parse_instruction(b"\x21\x23");

    let expected_value = Instruction::Call {
        address: MemoryAddress(TwelveBitValue(0x123)),
    };
    assert_eq!(parsed, Some(expected_value));
}

// OpCode 3
#[test]
fn skip_next_instruction_if_match() {
    let parsed = parse_instruction(b"\x31\x23");

    let expected_value = Instruction::SkipNextInstructionIfMatch {
        read_value_from: RegisterNumber(FourBitValue(0x1)),
        immediate: EightBitValue(0x23),
    };
    assert_eq!(parsed, Some(expected_value));
}

// OpCode 4
#[test]
fn skip_next_instruction_if_not_match() {
    let parsed = parse_instruction(b"\x41\x23");

    let expected_value = Instruction::SkipNextInstructionIfNotMatch {
        read_value_from: RegisterNumber(FourBitValue(0x1)),
        immediate: EightBitValue(0x23),
    };
    assert_eq!(parsed, Some(expected_value));
}

// OpCode 5
#[test]
fn skip_next_instruction_if_values_match() {
    let parsed = parse_instruction(b"\x51\x20");

    let expected_value = Instruction::SkipNextInstructionIfValuesMatch {
        lhs: RegisterNumber(FourBitValue(0x1)),
        rhs: RegisterNumber(FourBitValue(0x2)),
    };
    assert_eq!(parsed, Some(expected_value));
}

// OpCode 6
#[test]
fn load_immediate_to_register() {
    let parsed = parse_instruction(b"\x61\x23");

    let expected_value = Instruction::LoadImmediateToRegister {
        destination: RegisterNumber(FourBitValue(0x1)),
        immediate: EightBitValue(0x23),
    };
    assert_eq!(parsed, Some(expected_value));
}

// OpCode 7
#[test]
fn add_immediate_to_register() {
    let parsed = parse_instruction(b"\x71\x23");

    let expected_value = Instruction::AddImmediateToRegister {
        destination: RegisterNumber(FourBitValue(0x1)),
        immediate: EightBitValue(0x23),
    };
    assert_eq!(parsed, Some(expected_value));
}

// OpCode 8
#[test]
fn copy_values() {
    let parsed = parse_instruction(b"\x81\x20");

    let expected_value = Instruction::CopyRegisterValue {
        destination: RegisterNumber(FourBitValue(0x1)),
        source: RegisterNumber(FourBitValue(0x2)),
    };
    assert_eq!(parsed, Some(expected_value));
}

#[test]
fn bitwise_or_values() {
    let parsed = parse_instruction(b"\x81\x21");

    let expected_value = Instruction::BitwiseOrRegisters {
        destination: RegisterNumber(FourBitValue(0x1)),
        source: RegisterNumber(FourBitValue(0x2)),
    };
    assert_eq!(parsed, Some(expected_value));
}

#[test]
fn bitwise_and_values() {
    let parsed = parse_instruction(b"\x81\x22");

    let expected_value = Instruction::BitwiseAndRegisters {
        destination: RegisterNumber(FourBitValue(0x1)),
        source: RegisterNumber(FourBitValue(0x2)),
    };
    assert_eq!(parsed, Some(expected_value));
}

#[test]
fn bitwise_values() {
    let parsed = parse_instruction(b"\x81\x23");

    let expected_value = Instruction::BitwiseXorRegisters {
        destination: RegisterNumber(FourBitValue(0x1)),
        source: RegisterNumber(FourBitValue(0x2)),
    };
    assert_eq!(parsed, Some(expected_value));
}

#[test]
fn add_values() {
    let parsed = parse_instruction(b"\x81\x24");

    let expected_value = Instruction::AddRegisters {
        destination: RegisterNumber(FourBitValue(0x1)),
        source: RegisterNumber(FourBitValue(0x2)),
    };
    assert_eq!(parsed, Some(expected_value));
}

#[test]
fn subtract_destination_from_source_values() {
    let parsed = parse_instruction(b"\x81\x25");

    let expected_value = Instruction::SubtractDestinationFromSource {
        destination: RegisterNumber(FourBitValue(0x1)),
        source: RegisterNumber(FourBitValue(0x2)),
    };
    assert_eq!(parsed, Some(expected_value));
}

#[test]
fn shift_right_values() {
    let parsed = parse_instruction(b"\x81\x26");

    let expected_value = Instruction::ShiftRightRegisters {
        destination: RegisterNumber(FourBitValue(0x1)),
        source: RegisterNumber(FourBitValue(0x2)),
    };
    assert_eq!(parsed, Some(expected_value));
}

#[test]
fn subtract_source_from_destination_values() {
    let parsed = parse_instruction(b"\x81\x27");

    let expected_value = Instruction::SubtractSourceFromDestination {
        destination: RegisterNumber(FourBitValue(0x1)),
        source: RegisterNumber(FourBitValue(0x2)),
    };
    assert_eq!(parsed, Some(expected_value));
}

#[test]
fn shift_left_values() {
    let parsed = parse_instruction(b"\x81\x2e");

    let expected_value = Instruction::ShiftLeftRegisters {
        destination: RegisterNumber(FourBitValue(0x1)),
        source: RegisterNumber(FourBitValue(0x2)),
    };
    assert_eq!(parsed, Some(expected_value));
}

// OpCode 9
#[test]
fn skip_next_instruction_if_values_do_not_match() {
    let parsed = parse_instruction(b"\x91\x20");

    let expected_value = Instruction::SkipNextInstructionIfValuesDoNotMatch {
        lhs: RegisterNumber(FourBitValue(0x1)),
        rhs: RegisterNumber(FourBitValue(0x2)),
    };
    assert_eq!(parsed, Some(expected_value));
}

// OpCode A
#[test]
fn load_to_i_register() {
    let parsed = parse_instruction(b"\xa1\x23");

    let expected_value = Instruction::LoadToIRegister {
        immediate: TwelveBitValue(0x123),
    };
    assert_eq!(parsed, Some(expected_value));
}

// OpCode B
#[test]
fn jump_to_sum_of_v0_value_and_immediate() {
    let parsed = parse_instruction(b"\xb1\x23");

    let expected_value = Instruction::JumpToSumOfV0ValueAndImmediate {
        immediate: TwelveBitValue(0x123),
    };
    assert_eq!(parsed, Some(expected_value));
}

// OpCode C
#[test]
fn load_sum_of_random_byte_and_immediate() {
    let parsed = parse_instruction(b"\xc1\x23");

    let expected_value = Instruction::LoadBitwiseAndOfRandomByteAndImmediate {
        destination: RegisterNumber(FourBitValue(0x1)),
        immediate: EightBitValue(0x23),
    };
    assert_eq!(parsed, Some(expected_value));
}

// OpCode D
#[test]
fn draw_sprites_from_memory() {
    let parsed = parse_instruction(b"\xd1\x23");

    let expected_value = Instruction::DrawSpritesFromMemory {
        read_x_axis_from: RegisterNumber(FourBitValue(0x1)),
        read_y_axis_from: RegisterNumber(FourBitValue(0x2)),
        bytes_to_read_from_i_register: FourBitValue(0x3),
    };
    assert_eq!(parsed, Some(expected_value));
}

// OpCode E
#[test]
fn skip_next_instruction_if_key_is_pressed() {
    let parsed = parse_instruction(b"\xe1\x9e");

    let expected_value = Instruction::SkipNextInstructionIfKeyIsPressed {
        read_key_number_from: RegisterNumber(FourBitValue(0x1)),
    };
    assert_eq!(parsed, Some(expected_value));
}

#[test]
fn skip_next_instruction_if_key_is_not_pressed() {
    let parsed = parse_instruction(b"\xe1\xa1");

    let expected_value = Instruction::SkipNextInstructionIfKeyIsNotPressed {
        read_key_number_from: RegisterNumber(FourBitValue(0x1)),
    };
    assert_eq!(parsed, Some(expected_value));
}

// OpCode F
#[test]
fn load_delay_timer_into_register() {
    let parsed = parse_instruction(b"\xf1\x07");

    let expected_value = Instruction::LoadDelayTimerIntoRegister {
        destination: RegisterNumber(FourBitValue(0x1)),
    };
    assert_eq!(parsed, Some(expected_value));
}

#[test]
fn await_key_press_and_load_into_register() {
    let parsed = parse_instruction(b"\xf1\x0a");

    let expected_value = Instruction::AwaitKeyPressAndLoadIntoRegister {
        destination: RegisterNumber(FourBitValue(0x1)),
    };
    assert_eq!(parsed, Some(expected_value));
}

#[test]
fn load_into_delay_timer() {
    let parsed = parse_instruction(b"\xf1\x15");

    let expected_value = Instruction::LoadIntoDelayTimer {
        source: RegisterNumber(FourBitValue(0x1)),
    };
    assert_eq!(parsed, Some(expected_value));
}

#[test]
fn load_into_sound_timer() {
    let parsed = parse_instruction(b"\xf1\x18");

    let expected_value = Instruction::LoadIntoSoundTimer {
        source: RegisterNumber(FourBitValue(0x1)),
    };
    assert_eq!(parsed, Some(expected_value));
}

#[test]
fn add_value_to_i_register() {
    let parsed = parse_instruction(b"\xf1\x1e");

    let expected_value = Instruction::AddValueToIRegister {
        source: RegisterNumber(FourBitValue(0x1)),
    };
    assert_eq!(parsed, Some(expected_value));
}

#[test]
fn load_sprite_location_for_value_into_i_register() {
    let parsed = parse_instruction(b"\xf1\x29");

    let expected_value = Instruction::LoadSpriteLocationForValueIntoIRegister {
        source: RegisterNumber(FourBitValue(0x1)),
    };
    assert_eq!(parsed, Some(expected_value));
}

#[test]
fn load_bcd_into_register_sequence() {
    let parsed = parse_instruction(b"\xf1\x33");

    let expected_value =
        Instruction::LoadBinaryCodedDecimalValueIntoSequenceStartingAtIRegisterValue {
            source: RegisterNumber(FourBitValue(0x1)),
        };
    assert_eq!(parsed, Some(expected_value));
}

#[test]
fn store_sequence_into_memory() {
    let parsed = parse_instruction(b"\xf1\x55");

    let expected_value =
        Instruction::LoadValuesFromV0ToRegisterIntoSequenceStartingAtIRegisterValue {
            end: RegisterNumber(FourBitValue(0x1)),
        };
    assert_eq!(parsed, Some(expected_value));
}

#[test]
fn load_sequence_from_memory() {
    let parsed = parse_instruction(b"\xf1\x65");

    let expected_value = Instruction::LoadSequenceStartingAtIRegisterValueIntoV0ToRegister {
        end: RegisterNumber(FourBitValue(0x1)),
    };
    assert_eq!(parsed, Some(expected_value));
}

// Words outside the grammar fail explicitly, never a partial decode.
#[test]
fn unmatched_words_fail_to_decode() {
    assert_eq!(parse_instruction(b"\x51\x21"), None);
    assert_eq!(parse_instruction(b"\x81\x28"), None);
    assert_eq!(parse_instruction(b"\x81\x2f"), None);
    assert_eq!(parse_instruction(b"\x91\x27"), None);
    assert_eq!(parse_instruction(b"\xe1\x9d"), None);
    assert_eq!(parse_instruction(b"\xe1\xff"), None);
    assert_eq!(parse_instruction(b"\xf1\x00"), None);
    assert_eq!(parse_instruction(b"\xf1\x66"), None);
    assert_eq!(parse_instruction(b"\xf1\xff"), None);
}

// The system-address form of family 0 is the true fallback: every
// family-0 word that is not the clear-display or return pattern decodes
// to it, and those two words never do.
#[test]
fn system_is_the_family_zero_fallback() {
    assert_eq!(
        parse_instruction(b"\x00\xE1"),
        Some(Instruction::System {
            address: MemoryAddress(TwelveBitValue(0x0E1)),
        })
    );
    assert_eq!(
        parse_instruction(b"\x00\xEF"),
        Some(Instruction::System {
            address: MemoryAddress(TwelveBitValue(0x0EF)),
        })
    );
    assert_eq!(
        parse_instruction(b"\x00\x00"),
        Some(Instruction::System {
            address: MemoryAddress(TwelveBitValue(0x000)),
        })
    );
    assert_eq!(parse_instruction(b"\x00\xE0"), Some(Instruction::ClearDisplay));
    assert_eq!(parse_instruction(b"\x00\xEE"), Some(Instruction::ReturnFromSubroutine));
}

// Round trip: encoding any operation and decoding the word gives the
// operation back, for every opcode family.
#[test]
fn encode_then_parse_round_trips_every_family() {
    let x = RegisterNumber(FourBitValue(0x1));
    let y = RegisterNumber(FourBitValue(0x2));
    let address = MemoryAddress(TwelveBitValue(0x123));
    let immediate = EightBitValue(0x23);
    let long = TwelveBitValue(0x123);
    let operations = vec![
        Instruction::System { address },
        Instruction::ClearDisplay,
        Instruction::ReturnFromSubroutine,
        Instruction::Jump { address },
        Instruction::Call { address },
        Instruction::SkipNextInstructionIfMatch { read_value_from: x, immediate },
        Instruction::SkipNextInstructionIfNotMatch { read_value_from: x, immediate },
        Instruction::SkipNextInstructionIfValuesMatch { lhs: x, rhs: y },
        Instruction::LoadImmediateToRegister { immediate, destination: x },
        Instruction::AddImmediateToRegister { immediate, destination: x },
        Instruction::CopyRegisterValue { source: y, destination: x },
        Instruction::BitwiseOrRegisters { source: y, destination: x },
        Instruction::BitwiseAndRegisters { source: y, destination: x },
        Instruction::BitwiseXorRegisters { source: y, destination: x },
        Instruction::AddRegisters { source: y, destination: x },
        Instruction::SubtractDestinationFromSource { source: y, destination: x },
        Instruction::ShiftRightRegisters { source: y, destination: x },
        Instruction::SubtractSourceFromDestination { source: y, destination: x },
        Instruction::ShiftLeftRegisters { source: y, destination: x },
        Instruction::SkipNextInstructionIfValuesDoNotMatch { lhs: x, rhs: y },
        Instruction::LoadToIRegister { immediate: long },
        Instruction::JumpToSumOfV0ValueAndImmediate { immediate: long },
        Instruction::LoadBitwiseAndOfRandomByteAndImmediate { destination: x, immediate },
        Instruction::DrawSpritesFromMemory {
            read_x_axis_from: x,
            read_y_axis_from: y,
            bytes_to_read_from_i_register: FourBitValue(0x3),
        },
        Instruction::SkipNextInstructionIfKeyIsPressed { read_key_number_from: x },
        Instruction::SkipNextInstructionIfKeyIsNotPressed { read_key_number_from: x },
        Instruction::LoadDelayTimerIntoRegister { destination: x },
        Instruction::AwaitKeyPressAndLoadIntoRegister { destination: x },
        Instruction::LoadIntoDelayTimer { source: x },
        Instruction::LoadIntoSoundTimer { source: x },
        Instruction::AddValueToIRegister { source: x },
        Instruction::LoadSpriteLocationForValueIntoIRegister { source: x },
        Instruction::LoadBinaryCodedDecimalValueIntoSequenceStartingAtIRegisterValue { source: x },
        Instruction::LoadValuesFromV0ToRegisterIntoSequenceStartingAtIRegisterValue { end: x },
        Instruction::LoadSequenceStartingAtIRegisterValueIntoV0ToRegister { end: x },
    ];
    for operation in operations {
        let (b0, b1) = encode_instruction(&operation);
        assert_eq!(parse_instruction(&[b0, b1]), Some(operation));
    }
}

// The encoder produces the documented words.
#[test]
fn encode_produces_expected_words() {
    assert_eq!(encode_instruction(&Instruction::ClearDisplay), (0x00, 0xE0));
    assert_eq!(encode_instruction(&Instruction::ReturnFromSubroutine), (0x00, 0xEE));
    assert_eq!(
        encode_instruction(&Instruction::Jump {
            address: MemoryAddress(TwelveBitValue(0x123)),
        }),
        (0x11, 0x23)
    );
    assert_eq!(
        encode_instruction(&Instruction::AddRegisters {
            destination: RegisterNumber(FourBitValue(0x1)),
            source: RegisterNumber(FourBitValue(0x2)),
        }),
        (0x81, 0x24)
    );
}
