use chip8::emulator::instruction::Instruction;
use chip8::emulator::platform::{BuzzerState, KeyState, KeypadNumber, Platform, TestPlatform};
use chip8::emulator::timing::{ClockAction, Scheduler};
use chip8::emulator::types::{
    EightBitValue, FourBitValue, MemoryAddress, RegisterNumber, TwelveBitValue,
};
use chip8::emulator::{Emulator, EmulatorError, ShiftSemantics};

fn reg(n: u8) -> RegisterNumber {
    RegisterNumber(FourBitValue(n))
}

fn new_test_emulator() -> Emulator<TestPlatform> {
    Emulator::new(TestPlatform::new(64, 32))
}

#[test]
fn new_emulator_starts_zeroed_at_program_start() {
    let emulator = new_test_emulator();
    assert_eq!(emulator.program_counter, 0x200);
    assert_eq!(emulator.stack_pointer, 0);
    assert_eq!(emulator.i_register, 0);
    assert_eq!(emulator.delay_timer, 0);
    assert_eq!(emulator.sound_timer, 0);
    assert!(emulator.memory.iter().all(|&b| b == 0));
    assert!(emulator.v_registers.iter().all(|&b| b == 0));
    assert!(emulator.stack.iter().all(|&w| w == 0));
}

#[test]
fn load_into_memory_copies_program_at_start_address() {
    let mut emulator = new_test_emulator();
    assert_eq!(emulator.load_into_memory(&[0x12, 0x34, 0x56]), Ok(()));
    assert_eq!(&emulator.memory[0x200..0x203], &[0x12, 0x34, 0x56]);
    assert_eq!(emulator.memory[0x203], 0);
}

#[test]
fn load_into_memory_rejects_an_image_that_does_not_fit() {
    let mut emulator = new_test_emulator();
    let image = vec![0u8; 4096 - 0x200 + 1];
    assert_eq!(
        emulator.load_into_memory(&image),
        Err(EmulatorError::ProgramTooLarge)
    );
    assert!(emulator.memory.iter().all(|&b| b == 0));
}

// Register addition reports its carry in VF: 0xFF + 0x01 wraps to 0x00
// with VF = 1; 0x01 + 0x01 gives 0x02 with VF = 0.
#[test]
fn add_registers_sets_carry_on_overflow() {
    let mut emulator = new_test_emulator();
    emulator.set_v_register(reg(1), EightBitValue(0xFF));
    emulator.set_v_register(reg(2), EightBitValue(0x01));
    let result = emulator.execute_instruction(Instruction::AddRegisters {
        source: reg(2),
        destination: reg(1),
    });
    assert_eq!(result, Ok(()));
    assert_eq!(emulator.v_registers[1], 0x00);
    assert_eq!(emulator.v_registers[0xF], 1);
}

#[test]
fn add_registers_clears_carry_without_overflow() {
    let mut emulator = new_test_emulator();
    emulator.set_v_register(reg(1), EightBitValue(0x01));
    emulator.set_v_register(reg(2), EightBitValue(0x01));
    let result = emulator.execute_instruction(Instruction::AddRegisters {
        source: reg(2),
        destination: reg(1),
    });
    assert_eq!(result, Ok(()));
    assert_eq!(emulator.v_registers[1], 0x02);
    assert_eq!(emulator.v_registers[0xF], 0);
}

// Add-immediate wraps without touching VF: the asymmetry with
// register-to-register addition is part of the instruction set.
#[test]
fn add_immediate_does_not_touch_the_carry_flag() {
    let mut emulator = new_test_emulator();
    emulator.set_v_register(reg(1), EightBitValue(0xFF));
    let result = emulator.execute_instruction(Instruction::AddImmediateToRegister {
        immediate: EightBitValue(0x01),
        destination: reg(1),
    });
    assert_eq!(result, Ok(()));
    assert_eq!(emulator.v_registers[1], 0x00);
    assert_eq!(emulator.v_registers[0xF], 0);
}

// BCD decomposition of 234 writes [2, 3, 4], most significant first.
#[test]
fn bcd_decomposition_writes_digits_in_order() {
    let mut emulator = new_test_emulator();
    emulator.set_v_register(reg(1), EightBitValue(234));
    emulator.i_register = 0x300;
    let result = emulator.execute_instruction(
        Instruction::LoadBinaryCodedDecimalValueIntoSequenceStartingAtIRegisterValue {
            source: reg(1),
        },
    );
    assert_eq!(result, Ok(()));
    assert_eq!(&emulator.memory[0x300..0x303], &[2, 3, 4]);
}

#[test]
fn bcd_decomposition_pads_small_values_with_zeros() {
    let mut emulator = new_test_emulator();
    emulator.set_v_register(reg(1), EightBitValue(7));
    emulator.i_register = 0x300;
    let result = emulator.execute_instruction(
        Instruction::LoadBinaryCodedDecimalValueIntoSequenceStartingAtIRegisterValue {
            source: reg(1),
        },
    );
    assert_eq!(result, Ok(()));
    assert_eq!(&emulator.memory[0x300..0x303], &[0, 0, 7]);
}

// Drawing the same single-byte sprite twice at the same location turns
// the pixels on and then back off, and flags the collision on the
// second draw.
#[test]
fn draw_twice_toggles_pixels_off_and_flags_collision() {
    let mut emulator = new_test_emulator();
    emulator.i_register = 0x300;
    emulator.memory[0x300] = 0b1111_0000;
    emulator.set_v_register(reg(1), EightBitValue(4));
    emulator.set_v_register(reg(2), EightBitValue(5));
    let draw = Instruction::DrawSpritesFromMemory {
        read_x_axis_from: reg(1),
        read_y_axis_from: reg(2),
        bytes_to_read_from_i_register: FourBitValue(1),
    };

    assert_eq!(emulator.execute_instruction(draw), Ok(()));
    assert_eq!(emulator.v_registers[0xF], 0);
    for column in 4..8 {
        assert!(emulator.platform.get_pixel(chip8::emulator::platform::Pixel {
            column,
            row: 5,
        }) == chip8::emulator::platform::PixelState::On);
    }

    assert_eq!(emulator.execute_instruction(draw), Ok(()));
    assert_eq!(emulator.v_registers[0xF], 1);
    for column in 4..12 {
        assert!(emulator.platform.get_pixel(chip8::emulator::platform::Pixel {
            column,
            row: 5,
        }) == chip8::emulator::platform::PixelState::Off);
    }
}

// The draw wraps its starting coordinates modulo the display size and
// clips what would overhang the edge.
#[test]
fn draw_wraps_start_and_clips_at_the_edge() {
    let mut emulator = new_test_emulator();
    emulator.i_register = 0x300;
    emulator.memory[0x300] = 0b1111_1111;
    emulator.set_v_register(reg(1), EightBitValue(64 + 60));
    emulator.set_v_register(reg(2), EightBitValue(32 + 3));
    let draw = Instruction::DrawSpritesFromMemory {
        read_x_axis_from: reg(1),
        read_y_axis_from: reg(2),
        bytes_to_read_from_i_register: FourBitValue(1),
    };
    assert_eq!(emulator.execute_instruction(draw), Ok(()));
    for column in 60..64 {
        assert!(emulator.platform.get_pixel(chip8::emulator::platform::Pixel {
            column,
            row: 3,
        }) == chip8::emulator::platform::PixelState::On);
    }
    for column in 0..4 {
        assert!(emulator.platform.get_pixel(chip8::emulator::platform::Pixel {
            column,
            row: 3,
        }) == chip8::emulator::platform::PixelState::Off);
    }
}

// A skip whose comparison matches advances the program counter by 4 in
// total from its pre-fetch value; a mismatch advances it by 2.
#[test]
fn skip_if_match_advances_by_four_on_match() {
    let mut emulator = new_test_emulator();
    assert_eq!(emulator.load_into_memory(&[0x31, 0x12]), Ok(()));
    emulator.set_v_register(reg(1), EightBitValue(0x12));
    assert_eq!(emulator.run_instruction_loop(), Ok(()));
    assert_eq!(emulator.program_counter, 0x204);
}

#[test]
fn skip_if_match_advances_by_two_on_mismatch() {
    let mut emulator = new_test_emulator();
    assert_eq!(emulator.load_into_memory(&[0x31, 0x34]), Ok(()));
    emulator.set_v_register(reg(1), EightBitValue(0x12));
    assert_eq!(emulator.run_instruction_loop(), Ok(()));
    assert_eq!(emulator.program_counter, 0x202);
}

// Storing registers V0..=3 holding [1, 2, 3, 4] at I = 0x300 writes
// those bytes to 0x300..=0x303; loading back restores the registers.
#[test]
fn memory_block_transfer_round_trips() {
    let mut emulator = new_test_emulator();
    for n in 0..4u8 {
        emulator.set_v_register(reg(n), EightBitValue(n + 1));
    }
    emulator.i_register = 0x300;
    assert_eq!(
        emulator.execute_instruction(
            Instruction::LoadValuesFromV0ToRegisterIntoSequenceStartingAtIRegisterValue {
                end: reg(3),
            },
        ),
        Ok(())
    );
    assert_eq!(&emulator.memory[0x300..0x304], &[1, 2, 3, 4]);

    for n in 0..4u8 {
        emulator.set_v_register(reg(n), EightBitValue(0));
    }
    assert_eq!(
        emulator.execute_instruction(
            Instruction::LoadSequenceStartingAtIRegisterValueIntoV0ToRegister { end: reg(3) },
        ),
        Ok(())
    );
    assert_eq!(&emulator.v_registers[0..4], &[1, 2, 3, 4]);
}

// Timer decay: a delay timer at 5 drops to 4 with the buzzer silent; a
// sound timer at 1 drops to 0 and the buzzer turns off from that tick.
#[test]
fn timer_tick_decays_delay_timer_and_leaves_buzzer_off() {
    let mut emulator = new_test_emulator();
    emulator.delay_timer = 5;
    emulator.sound_timer = 0;
    emulator.handle_timers();
    assert_eq!(emulator.delay_timer, 4);
    assert_eq!(emulator.sound_timer, 0);
    assert_eq!(emulator.platform.get_buzzer(), BuzzerState::Off);
}

#[test]
fn timer_tick_exhausts_sound_timer_and_silences_buzzer() {
    let mut emulator = new_test_emulator();
    emulator.sound_timer = 1;
    emulator.handle_timers();
    assert_eq!(emulator.sound_timer, 0);
    assert_eq!(emulator.platform.get_buzzer(), BuzzerState::Off);
}

#[test]
fn timer_tick_drives_buzzer_while_sound_timer_runs() {
    let mut emulator = new_test_emulator();
    emulator.sound_timer = 2;
    emulator.handle_timers();
    assert_eq!(emulator.sound_timer, 1);
    assert_eq!(emulator.platform.get_buzzer(), BuzzerState::On);
}

#[test]
fn loading_sound_timer_drives_buzzer_at_once() {
    let mut emulator = new_test_emulator();
    emulator.set_v_register(reg(1), EightBitValue(5));
    assert_eq!(
        emulator.execute_instruction(Instruction::LoadIntoSoundTimer { source: reg(1) }),
        Ok(())
    );
    assert_eq!(emulator.platform.get_buzzer(), BuzzerState::On);
}

// Call pushes the advanced program counter; return pops it back.
#[test]
fn call_and_return_round_trip_the_program_counter() {
    let mut emulator = new_test_emulator();
    emulator.set_program_counter(0x202);
    assert_eq!(
        emulator.execute_instruction(Instruction::Call {
            address: MemoryAddress(TwelveBitValue(0x400)),
        }),
        Ok(())
    );
    assert_eq!(emulator.program_counter, 0x400);
    assert_eq!(emulator.stack_pointer, 1);
    assert_eq!(
        emulator.execute_instruction(Instruction::ReturnFromSubroutine),
        Ok(())
    );
    assert_eq!(emulator.program_counter, 0x202);
    assert_eq!(emulator.stack_pointer, 0);
}

#[test]
fn return_with_empty_stack_underflows() {
    let mut emulator = new_test_emulator();
    let before = emulator.program_counter;
    assert_eq!(
        emulator.execute_instruction(Instruction::ReturnFromSubroutine),
        Err(EmulatorError::StackUnderflow)
    );
    assert_eq!(emulator.program_counter, before);
}

#[test]
fn call_with_full_stack_overflows() {
    let mut emulator = new_test_emulator();
    emulator.stack_pointer = 15;
    assert_eq!(
        emulator.execute_instruction(Instruction::Call {
            address: MemoryAddress(TwelveBitValue(0x400)),
        }),
        Err(EmulatorError::StackOverflow)
    );
    assert_eq!(emulator.stack_pointer, 15);
}

#[test]
fn block_transfer_past_end_of_memory_is_out_of_bounds() {
    let mut emulator = new_test_emulator();
    emulator.i_register = 4094;
    assert_eq!(
        emulator.execute_instruction(
            Instruction::LoadValuesFromV0ToRegisterIntoSequenceStartingAtIRegisterValue {
                end: reg(3),
            },
        ),
        Err(EmulatorError::MemoryOutOfBounds)
    );
}

#[test]
fn bcd_past_end_of_memory_is_out_of_bounds() {
    let mut emulator = new_test_emulator();
    emulator.i_register = 4094;
    assert_eq!(
        emulator.execute_instruction(
            Instruction::LoadBinaryCodedDecimalValueIntoSequenceStartingAtIRegisterValue {
                source: reg(1),
            },
        ),
        Err(EmulatorError::MemoryOutOfBounds)
    );
}

#[test]
fn fetch_past_end_of_memory_is_out_of_bounds() {
    let mut emulator = new_test_emulator();
    emulator.set_program_counter(4095);
    assert_eq!(
        emulator.run_instruction_loop(),
        Err(EmulatorError::MemoryOutOfBounds)
    );
    assert_eq!(emulator.program_counter, 4095);
}

// A fetched word outside the grammar fails the tick visibly, after the
// unconditional advance of the program counter.
#[test]
fn unrecognized_word_fails_the_tick() {
    let mut emulator = new_test_emulator();
    assert_eq!(emulator.load_into_memory(&[0x51, 0x21]), Ok(()));
    assert_eq!(
        emulator.run_instruction_loop(),
        Err(EmulatorError::DecodeFailure)
    );
    assert_eq!(emulator.program_counter, 0x202);
}

// Masking the random byte with 0 pins the destination to 0 whatever was
// drawn.
#[test]
fn random_and_with_zero_mask_clears_register() {
    let mut emulator = new_test_emulator();
    emulator.set_v_register(reg(1), EightBitValue(0xAB));
    assert_eq!(
        emulator.execute_instruction(Instruction::LoadBitwiseAndOfRandomByteAndImmediate {
            destination: reg(1),
            immediate: EightBitValue(0x00),
        }),
        Ok(())
    );
    assert_eq!(emulator.v_registers[1], 0);
}

#[test]
fn skip_if_key_pressed_reads_the_keypad() {
    let mut emulator = new_test_emulator();
    emulator.platform.set_keypress(KeypadNumber(4), KeyState::On);
    emulator.set_v_register(reg(1), EightBitValue(4));
    let before = emulator.program_counter;
    assert_eq!(
        emulator.execute_instruction(Instruction::SkipNextInstructionIfKeyIsPressed {
            read_key_number_from: reg(1),
        }),
        Ok(())
    );
    assert_eq!(emulator.program_counter, before + 2);

    emulator.platform.set_keypress(KeypadNumber(4), KeyState::Off);
    let before = emulator.program_counter;
    assert_eq!(
        emulator.execute_instruction(Instruction::SkipNextInstructionIfKeyIsPressed {
            read_key_number_from: reg(1),
        }),
        Ok(())
    );
    assert_eq!(emulator.program_counter, before);
}

#[test]
fn await_key_press_records_whether_a_press_resolved() {
    let mut emulator = new_test_emulator();
    emulator.platform.set_keypress(KeypadNumber(7), KeyState::On);
    assert_eq!(
        emulator.execute_instruction(Instruction::AwaitKeyPressAndLoadIntoRegister {
            destination: reg(1),
        }),
        Ok(())
    );
    assert_eq!(emulator.v_registers[1], 1);
}

#[test]
fn sprite_location_lookup_finds_first_occurrence() {
    let mut emulator = new_test_emulator();
    emulator.memory[0x250] = 7;
    emulator.memory[0x260] = 7;
    emulator.set_v_register(reg(1), EightBitValue(7));
    assert_eq!(
        emulator.execute_instruction(Instruction::LoadSpriteLocationForValueIntoIRegister {
            source: reg(1),
        }),
        Ok(())
    );
    assert_eq!(emulator.i_register, 0x250);
}

// The shift family reads its operand from the register the explicit
// configuration names, and records the shifted-out bit in VF.
#[test]
fn shift_right_uses_configured_operand_register() {
    let mut emulator = new_test_emulator();
    emulator.set_v_register(reg(1), EightBitValue(0x00));
    emulator.set_v_register(reg(2), EightBitValue(0b0000_0101));
    assert_eq!(
        emulator.execute_instruction(Instruction::ShiftRightRegisters {
            source: reg(2),
            destination: reg(1),
        }),
        Ok(())
    );
    assert_eq!(emulator.v_registers[1], 0b0000_0010);
    assert_eq!(emulator.v_registers[0xF], 1);

    emulator.set_shift_semantics(ShiftSemantics::DestinationRegister);
    emulator.set_v_register(reg(1), EightBitValue(0b0000_0100));
    emulator.set_v_register(reg(2), EightBitValue(0xFF));
    assert_eq!(
        emulator.execute_instruction(Instruction::ShiftRightRegisters {
            source: reg(2),
            destination: reg(1),
        }),
        Ok(())
    );
    assert_eq!(emulator.v_registers[1], 0b0000_0010);
    assert_eq!(emulator.v_registers[0xF], 0);
}

#[test]
fn shift_left_reports_the_high_bit_in_vf() {
    let mut emulator = new_test_emulator();
    emulator.set_v_register(reg(2), EightBitValue(0b1000_0001));
    assert_eq!(
        emulator.execute_instruction(Instruction::ShiftLeftRegisters {
            source: reg(2),
            destination: reg(1),
        }),
        Ok(())
    );
    assert_eq!(emulator.v_registers[1], 0b0000_0010);
    assert_eq!(emulator.v_registers[0xF], 1);
}

#[test]
fn subtraction_forms_differ_only_in_operand_order() {
    let mut emulator = new_test_emulator();
    emulator.set_v_register(reg(1), EightBitValue(3));
    emulator.set_v_register(reg(2), EightBitValue(10));
    assert_eq!(
        emulator.execute_instruction(Instruction::SubtractDestinationFromSource {
            source: reg(2),
            destination: reg(1),
        }),
        Ok(())
    );
    assert_eq!(emulator.v_registers[1], 7);

    emulator.set_v_register(reg(1), EightBitValue(3));
    assert_eq!(
        emulator.execute_instruction(Instruction::SubtractSourceFromDestination {
            source: reg(2),
            destination: reg(1),
        }),
        Ok(())
    );
    assert_eq!(emulator.v_registers[1], 0xF9);
}

#[test]
fn clear_display_turns_every_pixel_off() {
    let mut emulator = new_test_emulator();
    emulator.i_register = 0x300;
    emulator.memory[0x300] = 0xFF;
    assert_eq!(
        emulator.execute_instruction(Instruction::DrawSpritesFromMemory {
            read_x_axis_from: reg(0),
            read_y_axis_from: reg(0),
            bytes_to_read_from_i_register: FourBitValue(1),
        }),
        Ok(())
    );
    assert!(emulator.platform.pixels.iter().any(|&p| p));
    assert_eq!(emulator.execute_instruction(Instruction::ClearDisplay), Ok(()));
    assert!(emulator.platform.pixels.iter().all(|&p| !p));
}

#[test]
fn jump_sets_the_program_counter() {
    let mut emulator = new_test_emulator();
    assert_eq!(
        emulator.execute_instruction(Instruction::Jump {
            address: MemoryAddress(TwelveBitValue(0x345)),
        }),
        Ok(())
    );
    assert_eq!(emulator.program_counter, 0x345);
}

#[test]
fn indexed_jump_adds_v0() {
    let mut emulator = new_test_emulator();
    emulator.set_v_register(RegisterNumber::zero(), EightBitValue(0x10));
    assert_eq!(
        emulator.execute_instruction(Instruction::JumpToSumOfV0ValueAndImmediate {
            immediate: TwelveBitValue(0x300),
        }),
        Ok(())
    );
    assert_eq!(emulator.program_counter, 0x310);
}

#[test]
fn delay_timer_round_trips_through_a_register() {
    let mut emulator = new_test_emulator();
    emulator.set_v_register(reg(1), EightBitValue(42));
    assert_eq!(
        emulator.execute_instruction(Instruction::LoadIntoDelayTimer { source: reg(1) }),
        Ok(())
    );
    assert_eq!(emulator.delay_timer, 42);
    assert_eq!(
        emulator.execute_instruction(Instruction::LoadDelayTimerIntoRegister {
            destination: reg(2),
        }),
        Ok(())
    );
    assert_eq!(emulator.v_registers[2], 42);
}

// The scheduler services the timer clock first on a simultaneous
// firing, then re-arms the serviced clock one period later.
#[test]
fn scheduler_services_timer_first_on_tie() {
    let mut scheduler = Scheduler {
        next_instruction_due: 100,
        next_timer_due: 100,
    };
    assert_eq!(scheduler.next_action(100), ClockAction::RunTimerTick);
    assert_eq!(scheduler.next_instruction_due, 100);
    assert_eq!(scheduler.next_action(100), ClockAction::RunInstructionTick);
}

#[test]
fn scheduler_waits_until_the_earlier_deadline() {
    let mut scheduler = Scheduler::new(0);
    assert_eq!(scheduler.next_action(0), ClockAction::WaitUntil(2000));
    assert_eq!(scheduler.next_action(2000), ClockAction::RunInstructionTick);
    assert_eq!(scheduler.next_action(16666), ClockAction::RunTimerTick);
}

// A short program runs tick by tick: load an immediate, add to it, and
// jump back to the start.
#[test]
fn a_small_program_runs_tick_by_tick() {
    let mut emulator = new_test_emulator();
    let program = [0x61, 0x05, 0x71, 0x01, 0x12, 0x00];
    assert_eq!(emulator.load_into_memory(&program), Ok(()));

    assert_eq!(emulator.run_instruction_loop(), Ok(()));
    assert_eq!(emulator.v_registers[1], 5);
    assert_eq!(emulator.program_counter, 0x202);

    assert_eq!(emulator.run_instruction_loop(), Ok(()));
    assert_eq!(emulator.v_registers[1], 6);
    assert_eq!(emulator.program_counter, 0x204);

    assert_eq!(emulator.run_instruction_loop(), Ok(()));
    assert_eq!(emulator.program_counter, 0x200);
}

#[test]
fn find_address_reports_absence() {
    let emulator = new_test_emulator();
    assert_eq!(emulator.find_address_of_value_in_memory(9), None);
    assert_eq!(
        emulator.find_address_of_value_in_memory(0),
        Some(MemoryAddress(TwelveBitValue(0)))
    );
}
