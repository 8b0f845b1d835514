//! The execution engine: CPU state, fetch-decode-execute, and the
//! per-opcode semantics.

pub mod instruction;
pub mod platform;
pub mod timing;
pub mod types;

use vstd::prelude::*;

use self::instruction::parser::{parse_instruction, spec_decode};
use self::instruction::Instruction;
use self::platform::{
    same_geometry, same_keys, same_pixels, BuzzerState, KeyState, KeypadNumber, Pixel, PixelState,
    Platform,
};
use self::types::{FourBitValue, MemoryAddress, RegisterNumber};

verus! {

/// Number of 8-bit memory cells.
pub const MEMORY_SIZE: usize = 4096;

/// Number of general-purpose registers.
pub const REGISTER_BANK_SIZE: usize = 16;

/// Number of return-address slots on the call stack.
pub const STACK_SIZE: usize = 16;

/// Where a loaded program begins, and where the program counter starts.
pub const DATA_START_ADDRESS: u16 = 0x200;

/// Index of the carry/collision register VF.
pub const FLAG_REGISTER: usize = 0xF;

/// A failure surfaced by one tick of the engine. Ticks are never retried
/// automatically; the failure is returned to whoever drives the clock.
#[derive(Clone, Copy, Debug, PartialEq, Eq, Structural)]
pub enum EmulatorError {
    /// The fetched word matches no pattern of the instruction grammar.
    DecodeFailure,
    /// A call was executed with the return stack full.
    StackOverflow,
    /// A return was executed with the return stack empty.
    StackUnderflow,
    /// An instruction addressed memory beyond the 4096 cells.
    MemoryOutOfBounds,
    /// A loaded program image would not fit between the start address
    /// and the end of memory.
    ProgramTooLarge,
}

/// Which register a shift operation reads its operand from. Historic
/// implementations of the instruction set disagree: the earliest read the
/// source register and wrote the destination, later ones read and wrote
/// the destination alone. The engine makes the choice explicit instead of
/// assuming one silently.
#[derive(Clone, Copy, Debug, PartialEq, Eq, Structural)]
pub enum ShiftSemantics {
    SourceRegister,
    DestinationRegister,
}

/// The engine's own state, as mathematical values: everything an
/// instruction can read or write apart from the peripherals.
pub ghost struct CoreState {
    pub program_counter: u16,
    pub stack_pointer: int,
    pub stack: Seq<u16>,
    pub i_register: u16,
    pub v_registers: Seq<u8>,
    pub sound_timer: u8,
    pub delay_timer: u8,
    pub memory: Seq<u8>,
    pub shift_semantics: ShiftSemantics,
}

impl CoreState {
    pub open spec fn with_pc(self, program_counter: u16) -> Self {
        CoreState { program_counter, ..self }
    }

    pub open spec fn with_sp(self, stack_pointer: int) -> Self {
        CoreState { stack_pointer, ..self }
    }

    pub open spec fn with_stack(self, stack: Seq<u16>) -> Self {
        CoreState { stack, ..self }
    }

    pub open spec fn with_i(self, i_register: u16) -> Self {
        CoreState { i_register, ..self }
    }

    pub open spec fn with_regs(self, v_registers: Seq<u8>) -> Self {
        CoreState { v_registers, ..self }
    }

    pub open spec fn with_sound(self, sound_timer: u8) -> Self {
        CoreState { sound_timer, ..self }
    }

    pub open spec fn with_delay(self, delay_timer: u8) -> Self {
        CoreState { delay_timer, ..self }
    }

    pub open spec fn with_memory(self, memory: Seq<u8>) -> Self {
        CoreState { memory, ..self }
    }
}

/// Addition wrapped to 8 bits.
pub open spec fn wrap_add_u8(a: u8, b: u8) -> u8 {
    ((a + b) % 256) as u8
}

/// Subtraction wrapped to 8 bits.
pub open spec fn wrap_sub_u8(a: u8, b: u8) -> u8 {
    ((a - b) % 256) as u8
}

/// Addition wrapped to 16 bits.
pub open spec fn wrap_add_u16(a: u16, b: u16) -> u16 {
    ((a + b) % 0x10000) as u16
}

/// The program counter advanced past one 2-byte instruction word.
pub open spec fn pc_plus_2(pc: u16) -> u16 {
    wrap_add_u16(pc, 2)
}

/// `target` with `data` written over it starting at `start`; everything
/// outside that window keeps its old value.
pub open spec fn write_block(target: Seq<u8>, start: int, data: Seq<u8>) -> Seq<u8> {
    Seq::new(
        target.len(),
        |i: int|
            if start <= i < start + data.len() {
                data[i - start]
            } else {
                target[i]
            },
    )
}

/// `i` is the first cell of `memory` holding `value`.
pub open spec fn is_first_index_of(memory: Seq<u8>, value: u8, i: int) -> bool {
    &&& 0 <= i < memory.len()
    &&& memory[i] == value
    &&& forall|j: int| 0 <= j < i ==> memory[j] != value
}

/// Bit `bit` of a sprite byte, most-significant bit first.
pub open spec fn sprite_bit(byte: u8, bit: int) -> bool {
    (byte >> ((7 - bit) as u8)) & 1 == 1
}

/// The pixel (c, r) is toggled by drawing `sprite` with its top-left at
/// (x0, y0), where `rows` and `cols` are the extents left after clipping
/// at the display edges.
pub open spec fn draw_hit(
    sprite: Seq<u8>,
    x0: int,
    y0: int,
    rows: int,
    cols: int,
    c: int,
    r: int,
) -> bool {
    &&& y0 <= r < y0 + rows
    &&& x0 <= c < x0 + cols
    &&& sprite_bit(sprite[r - y0], c - x0)
}

/// As `draw_hit`, after `rows_done` full rows and `prefix` pixels of the
/// next row have been composited.
pub open spec fn draw_hit_prefix(
    sprite: Seq<u8>,
    x0: int,
    y0: int,
    rows_done: int,
    prefix: int,
    cols: int,
    c: int,
    r: int,
) -> bool {
    ||| draw_hit(sprite, x0, y0, rows_done, cols, c, r)
    ||| (r == y0 + rows_done && x0 <= c < x0 + prefix && sprite_bit(sprite[rows_done], c - x0))
}

/// Some pixel is toggled at all by the draw: at least one sprite bit
/// survives clipping.
pub open spec fn draw_touches(sprite: Seq<u8>, x0: int, y0: int, rows: int, cols: int) -> bool {
    exists|cc: int, rr: int| #[trigger] draw_hit(sprite, x0, y0, rows, cols, cc, rr)
}

/// Some pixel that the draw toggles was already lit: the collision that
/// the draw records in register VF.
pub open spec fn draw_collision<P: Platform>(
    platform: &P,
    sprite: Seq<u8>,
    x0: int,
    y0: int,
    rows: int,
    cols: int,
) -> bool {
    exists|cc: int, rr: int|
        #[trigger] draw_hit(sprite, x0, y0, rows, cols, cc, rr) && platform.pixel_on(cc, rr)
}

/// As `draw_collision`, over the part of the sprite composited so far.
pub open spec fn draw_collision_prefix<P: Platform>(
    platform: &P,
    sprite: Seq<u8>,
    x0: int,
    y0: int,
    rows_done: int,
    prefix: int,
    cols: int,
) -> bool {
    exists|cc: int, rr: int|
        #[trigger] draw_hit_prefix(sprite, x0, y0, rows_done, prefix, cols, cc, rr)
            && platform.pixel_on(cc, rr)
}

/// The CHIP-8 machine: 4096 cells of memory, 16 registers, a 16-slot
/// call stack, the I register, two 8-bit timers, and the peripheral set
/// it drives. It is constructed once per program run and mutated only
/// through instruction dispatch and timer ticks.
pub struct Emulator<PLATFORM: Platform> {
    // Internal state
    pub program_counter: u16,
    pub stack_pointer: usize,
    pub stack: Vec<u16>,
    // Program accessible
    pub i_register: u16,
    pub v_registers: Vec<u8>,
    pub sound_timer: u8,
    pub delay_timer: u8,
    // Memory
    pub memory: Vec<u8>,
    // Platform support
    pub platform: PLATFORM,
    // Configuration
    pub shift_semantics: ShiftSemantics,
}

/// A vector of `n` zeroed bytes.
fn zeroed_bytes(n: usize) -> (v: Vec<u8>)
    ensures
        v@ == Seq::new(n as nat, |i: int| 0u8),
{
    let mut v: Vec<u8> = Vec::new();
    let mut i: usize = 0;
    while i < n
        invariant
            i <= n,
            v@ == Seq::new(i as nat, |j: int| 0u8),
        decreases n - i,
    {
        v.push(0);
        i = i + 1;
        proof {
            assert(v@ =~= Seq::new(i as nat, |j: int| 0u8));
        }
    }
    v
}

/// A vector of `n` zeroed 16-bit words.
fn zeroed_words(n: usize) -> (v: Vec<u16>)
    ensures
        v@ == Seq::new(n as nat, |i: int| 0u16),
{
    let mut v: Vec<u16> = Vec::new();
    let mut i: usize = 0;
    while i < n
        invariant
            i <= n,
            v@ == Seq::new(i as nat, |j: int| 0u16),
        decreases n - i,
    {
        v.push(0);
        i = i + 1;
        proof {
            assert(v@ =~= Seq::new(i as nat, |j: int| 0u16));
        }
    }
    v
}

/// Relies on rand::random: a freshly sampled 8-bit value. Nothing is
/// promised of the result; callers are verified for every outcome.
#[verifier::external_body]
fn random_byte() -> u8 {
    rand::random()
}

impl<PLATFORM: Platform> Emulator<PLATFORM> {
    /// The engine's invariant: the fixed sizes of memory, register bank
    /// and stack, a stack pointer inside the stack, and a well-formed
    /// platform.
    pub open spec fn wf(self) -> bool {
        &&& self.stack.len() == STACK_SIZE
        &&& self.v_registers.len() == REGISTER_BANK_SIZE
        &&& self.memory.len() == MEMORY_SIZE
        &&& self.stack_pointer < STACK_SIZE
        &&& self.platform.inv()
    }

    /// This engine state as mathematical values.
    pub open spec fn model(self) -> CoreState {
        CoreState {
            program_counter: self.program_counter,
            stack_pointer: self.stack_pointer as int,
            stack: self.stack@,
            i_register: self.i_register,
            v_registers: self.v_registers@,
            sound_timer: self.sound_timer,
            delay_timer: self.delay_timer,
            memory: self.memory@,
            shift_semantics: self.shift_semantics,
        }
    }

    /// The same engine, with the program counter replaced.
    pub open spec fn spec_with_pc(self, program_counter: u16) -> Self {
        Emulator {
            program_counter,
            stack_pointer: self.stack_pointer,
            stack: self.stack,
            i_register: self.i_register,
            v_registers: self.v_registers,
            sound_timer: self.sound_timer,
            delay_timer: self.delay_timer,
            memory: self.memory,
            platform: self.platform,
            shift_semantics: self.shift_semantics,
        }
    }

    /// A fresh machine: memory, registers and stack zeroed, timers
    /// stopped, and the program counter at the program start address.
    /// Shift operations read the source register until
    /// `set_shift_semantics` says otherwise.
    pub fn new(platform: PLATFORM) -> (r: Self)
        requires
            platform.inv(),
        ensures
            r.wf(),
            r.program_counter == DATA_START_ADDRESS,
            r.stack_pointer == 0,
            r.stack@ == Seq::new(STACK_SIZE as nat, |i: int| 0u16),
            r.i_register == 0,
            r.v_registers@ == Seq::new(REGISTER_BANK_SIZE as nat, |i: int| 0u8),
            r.sound_timer == 0,
            r.delay_timer == 0,
            r.memory@ == Seq::new(MEMORY_SIZE as nat, |i: int| 0u8),
            r.platform == platform,
            r.shift_semantics == ShiftSemantics::SourceRegister,
    {
        let program_counter: u16 = DATA_START_ADDRESS;
        let stack_pointer: usize = 0;
        let i_register: u16 = 0;
        let sound_timer: u8 = 0;
        let delay_timer: u8 = 0;
        let memory = zeroed_bytes(MEMORY_SIZE);
        let v_registers = zeroed_bytes(REGISTER_BANK_SIZE);
        let stack = zeroed_words(STACK_SIZE);
        Emulator {
            program_counter,
            stack_pointer,
            i_register,
            sound_timer,
            delay_timer,
            platform,
            v_registers,
            memory,
            stack,
            shift_semantics: ShiftSemantics::SourceRegister,
        }
    }

    /// Choose which register shift operations read (see `ShiftSemantics`).
    pub fn set_shift_semantics(&mut self, shift_semantics: ShiftSemantics)
        ensures
            *final(self) == (Emulator { shift_semantics, ..*old(self) }),
    {
        self.shift_semantics = shift_semantics;
    }

    /// Copy a program image verbatim into memory at the start address:
    /// no header, no length prefix, no checksum. Fails, changing
    /// nothing, exactly when the image does not fit.
    pub fn load_into_memory(&mut self, data: &[u8]) -> (r: Result<(), EmulatorError>)
        requires
            old(self).wf(),
        ensures
            final(self).wf(),
            DATA_START_ADDRESS + data@.len() > MEMORY_SIZE ==> r
                == Err::<(), EmulatorError>(EmulatorError::ProgramTooLarge) && *final(self)
                == *old(self),
            DATA_START_ADDRESS + data@.len() <= MEMORY_SIZE ==> r == Ok::<(), EmulatorError>(())
                && final(self).model() == old(self).model().with_memory(
                write_block(old(self).memory@, DATA_START_ADDRESS as int, data@),
            ) && final(self).platform == old(self).platform,
    {
        let len: usize = data.len();
        if len > MEMORY_SIZE - DATA_START_ADDRESS as usize {
            return Err(EmulatorError::ProgramTooLarge);
        }
        let mut k: usize = 0;
        while k < len
            invariant
                old(self).wf(),
                len == data@.len(),
                DATA_START_ADDRESS + len <= MEMORY_SIZE,
                k <= len,
                self.memory@.len() == MEMORY_SIZE,
                forall|i: int|
                    0 <= i < MEMORY_SIZE ==> self.memory@[i] == (if DATA_START_ADDRESS <= i
                        < DATA_START_ADDRESS + k {
                        data@[i - DATA_START_ADDRESS]
                    } else {
                        old(self).memory@[i]
                    }),
                self.program_counter == old(self).program_counter,
                self.stack_pointer == old(self).stack_pointer,
                self.stack == old(self).stack,
                self.i_register == old(self).i_register,
                self.v_registers == old(self).v_registers,
                self.sound_timer == old(self).sound_timer,
                self.delay_timer == old(self).delay_timer,
                self.platform == old(self).platform,
                self.shift_semantics == old(self).shift_semantics,
            decreases len - k,
        {
            let byte: u8 = data[k];
            self.memory.set(DATA_START_ADDRESS as usize + k, byte);
            k = k + 1;
        }
        proof {
            assert(self.memory@ =~= write_block(
                old(self).memory@,
                DATA_START_ADDRESS as int,
                data@,
            ));
        }
        Ok(())
    }

    /// The first memory cell holding `value`, if any cell does.
    pub fn find_address_of_value_in_memory(&self, value: u8) -> (r: Option<MemoryAddress>)
        requires
            self.wf(),
        ensures
            match r {
                Some(address) => address.wf() && is_first_index_of(
                    self.memory@,
                    value,
                    address.index(),
                ),
                None => forall|j: int| 0 <= j < self.memory@.len() ==> self.memory@[j] != value,
            },
    {
        let mut k: usize = 0;
        while k < MEMORY_SIZE
            invariant
                self.wf(),
                k <= MEMORY_SIZE,
                forall|j: int| 0 <= j < k ==> self.memory@[j] != value,
            decreases MEMORY_SIZE - k,
        {
            if self.memory[k] == value {
                return Some(MemoryAddress(types::TwelveBitValue(k as u16)));
            }
            k = k + 1;
        }
        None
    }

    /// Advance the program counter past one instruction word.
    pub fn increment_program_counter(&mut self)
        ensures
            *final(self) == old(self).spec_with_pc(pc_plus_2(old(self).program_counter)),
    {
        self.program_counter = self.program_counter.wrapping_add(2);
    }

    /// Overwrite the program counter: jumps, calls and returns.
    pub fn set_program_counter(&mut self, value: u16)
        ensures
            *final(self) == old(self).spec_with_pc(value),
    {
        self.program_counter = value;
    }

    /// Record an arithmetic carry or sprite collision in register VF.
    pub fn set_carry_in_vf_register(&mut self, carry_set: bool)
        requires
            old(self).wf(),
        ensures
            final(self).wf(),
            final(self).model() == old(self).model().with_regs(
                old(self).v_registers@.update(FLAG_REGISTER as int, if carry_set { 1u8 } else { 0u8 }),
            ),
            final(self).platform == old(self).platform,
    {
        let flag: u8 = if carry_set {
            1
        } else {
            0
        };
        self.v_registers.set(FLAG_REGISTER, flag);
    }

    /// The value held in one general-purpose register.
    pub fn read_v_register(&self, number: RegisterNumber) -> (r: types::EightBitValue)
        requires
            self.wf(),
            number.wf(),
        ensures
            r.0 == self.v_registers@[number.index()],
    {
        types::EightBitValue(self.v_registers[number.as_usize()])
    }

    /// Store a value into one general-purpose register.
    pub fn set_v_register(&mut self, number: RegisterNumber, value: types::EightBitValue)
        requires
            old(self).wf(),
            number.wf(),
        ensures
            final(self).wf(),
            final(self).model() == old(self).model().with_regs(
                old(self).v_registers@.update(number.index(), value.0),
            ),
            final(self).platform == old(self).platform,
    {
        self.v_registers.set(number.as_usize(), value.0);
    }

    /// Drive the buzzer from the sound timer: on while it is nonzero.
    pub fn handler_buzzer_state(&mut self)
        requires
            old(self).wf(),
        ensures
            final(self).wf(),
            final(self).model() == old(self).model(),
            same_geometry(&old(self).platform, &final(self).platform),
            same_pixels(&old(self).platform, &final(self).platform),
            same_keys(&old(self).platform, &final(self).platform),
            final(self).platform.buzzer_on() == (old(self).sound_timer > 0),
    {
        if self.sound_timer > 0 {
            self.platform.set_buzzer(BuzzerState::On);
        } else {
            self.platform.set_buzzer(BuzzerState::Off);
        }
    }

    /// One 60 Hz timer tick: each timer that is running decays by one,
    /// independently, and the buzzer follows the sound timer.
    pub fn handle_timers(&mut self)
        requires
            old(self).wf(),
        ensures
            final(self).wf(),
            final(self).model() == old(self).model().with_delay(
                if old(self).delay_timer > 0 {
                    (old(self).delay_timer - 1) as u8
                } else {
                    0
                },
            ).with_sound(
                if old(self).sound_timer > 0 {
                    (old(self).sound_timer - 1) as u8
                } else {
                    0
                },
            ),
            same_geometry(&old(self).platform, &final(self).platform),
            same_pixels(&old(self).platform, &final(self).platform),
            same_keys(&old(self).platform, &final(self).platform),
            final(self).platform.buzzer_on() == (final(self).sound_timer > 0),
    {
        if self.delay_timer > 0 {
            self.delay_timer = self.delay_timer - 1;
        }
        if self.sound_timer > 0 {
            self.sound_timer = self.sound_timer - 1;
        }
        self.handler_buzzer_state();
    }

    /// What executing the await-key operation may do: the destination
    /// register records whether a key transition resolved as a press,
    /// nothing else of the engine changes, and of the peripherals only
    /// the key state may have moved while the tick was suspended.
    pub open spec fn await_key_spec(
        pre: Self,
        destination: RegisterNumber,
        post: Self,
        r: Result<(), EmulatorError>,
    ) -> bool {
        &&& r == Ok::<(), EmulatorError>(())
        &&& same_geometry(&pre.platform, &post.platform)
        &&& same_pixels(&pre.platform, &post.platform)
        &&& post.platform.buzzer_on() == pre.platform.buzzer_on()
        &&& (post.model() == pre.model().with_regs(
            pre.v_registers@.update(destination.index(), 1u8),
        ) || post.model() == pre.model().with_regs(
            pre.v_registers@.update(destination.index(), 0u8),
        ))
    }

    /// What the sprite-draw operation does. The sprite is `count` bytes
    /// at the I register; its top-left corner is the two registers'
    /// values wrapped modulo the display size before drawing begins, and
    /// whatever would then overhang the display edges is clipped. Every
    /// sprite bit that survives clipping is XOR-composited onto its
    /// pixel, and register VF records whether any lit pixel was toggled
    /// off (a collision). Fails, changing nothing, exactly when the
    /// sprite bytes would run past the end of memory.
    pub open spec fn draw_spec(
        pre: Self,
        read_x_axis_from: RegisterNumber,
        read_y_axis_from: RegisterNumber,
        count: FourBitValue,
        post: Self,
        r: Result<(), EmulatorError>,
    ) -> bool {
        let c = pre.model();
        let n = count.0 as int;
        let start = c.i_register as int;
        if start + n > MEMORY_SIZE {
            r == Err::<(), EmulatorError>(EmulatorError::MemoryOutOfBounds) && post == pre
        } else {
            let w = pre.platform.display_width() as int;
            let h = pre.platform.display_height() as int;
            let x0 = c.v_registers[read_x_axis_from.index()] as int % w;
            let y0 = c.v_registers[read_y_axis_from.index()] as int % h;
            let sprite = c.memory.subrange(start, start + n);
            let rows = if n <= h - y0 {
                n
            } else {
                h - y0
            };
            let cols = if 8 <= w - x0 {
                8
            } else {
                w - x0
            };
            let collision = draw_collision(&pre.platform, sprite, x0, y0, rows, cols);
            &&& r == Ok::<(), EmulatorError>(())
            &&& same_geometry(&pre.platform, &post.platform)
            &&& same_keys(&pre.platform, &post.platform)
            &&& post.platform.buzzer_on() == pre.platform.buzzer_on()
            &&& forall|cc: int, rr: int|
                #![trigger post.platform.pixel_on(cc, rr)]
                post.platform.pixel_on(cc, rr) == (if draw_hit(
                    sprite,
                    x0,
                    y0,
                    rows,
                    cols,
                    cc,
                    rr,
                ) {
                    !pre.platform.pixel_on(cc, rr)
                } else {
                    pre.platform.pixel_on(cc, rr)
                })
            &&& post.model() == c.with_regs(
                c.v_registers.update(
                    FLAG_REGISTER as int,
                    if collision {
                        1u8
                    } else {
                        0u8
                    },
                ),
            )
        }
    }

    /// The complete per-opcode semantics: how `post` and the result `r`
    /// relate to `pre` when `instruction` is dispatched. Every arm pins
    /// the whole engine state; errors change nothing and arise exactly
    /// from the stated resource-bound violations.
    pub open spec fn execute_spec(
        pre: Self,
        instruction: Instruction,
        post: Self,
        r: Result<(), EmulatorError>,
    ) -> bool {
        let c = pre.model();
        let regs = pre.v_registers@;
        let ok = r == Ok::<(), EmulatorError>(());
        match instruction {
            Instruction::System { address } => ok && post.platform == pre.platform
                && post.model() == c.with_pc(address.0.0),
            Instruction::ClearDisplay => ok && same_geometry(&pre.platform, &post.platform)
                && same_keys(&pre.platform, &post.platform) && post.platform.buzzer_on()
                == pre.platform.buzzer_on() && (forall|cc: int, rr: int|
                !post.platform.pixel_on(cc, rr)) && post.model() == c,
            Instruction::ReturnFromSubroutine => if c.stack_pointer == 0 {
                r == Err::<(), EmulatorError>(EmulatorError::StackUnderflow) && post == pre
            } else {
                ok && post.platform == pre.platform && post.model() == c.with_pc(
                    c.stack[c.stack_pointer],
                ).with_sp(c.stack_pointer - 1)
            },
            Instruction::Jump { address } => ok && post.platform == pre.platform && post.model()
                == c.with_pc(address.0.0),
            Instruction::Call { address } => if c.stack_pointer + 1 >= STACK_SIZE {
                r == Err::<(), EmulatorError>(EmulatorError::StackOverflow) && post == pre
            } else {
                ok && post.platform == pre.platform && post.model() == c.with_sp(
                    c.stack_pointer + 1,
                ).with_stack(c.stack.update(c.stack_pointer + 1, c.program_counter)).with_pc(
                    address.0.0,
                )
            },
            Instruction::SkipNextInstructionIfMatch { read_value_from, immediate } => ok
                && post.platform == pre.platform && post.model() == (if regs[read_value_from.index()]
                == immediate.0 {
                c.with_pc(pc_plus_2(c.program_counter))
            } else {
                c
            }),
            Instruction::SkipNextInstructionIfNotMatch { read_value_from, immediate } => ok
                && post.platform == pre.platform && post.model() == (if regs[read_value_from.index()]
                != immediate.0 {
                c.with_pc(pc_plus_2(c.program_counter))
            } else {
                c
            }),
            Instruction::SkipNextInstructionIfValuesMatch { lhs, rhs } => ok && post.platform
                == pre.platform && post.model() == (if regs[lhs.index()] == regs[rhs.index()] {
                c.with_pc(pc_plus_2(c.program_counter))
            } else {
                c
            }),
            Instruction::SkipNextInstructionIfValuesDoNotMatch { lhs, rhs } => ok && post.platform
                == pre.platform && post.model() == (if regs[lhs.index()] != regs[rhs.index()] {
                c.with_pc(pc_plus_2(c.program_counter))
            } else {
                c
            }),
            Instruction::LoadImmediateToRegister { immediate, destination } => ok && post.platform
                == pre.platform && post.model() == c.with_regs(
                regs.update(destination.index(), immediate.0),
            ),
            Instruction::AddImmediateToRegister { immediate, destination } => ok && post.platform
                == pre.platform && post.model() == c.with_regs(
                regs.update(
                    destination.index(),
                    wrap_add_u8(regs[destination.index()], immediate.0),
                ),
            ),
            Instruction::CopyRegisterValue { source, destination } => ok && post.platform
                == pre.platform && post.model() == c.with_regs(
                regs.update(destination.index(), regs[source.index()]),
            ),
            Instruction::BitwiseOrRegisters { source, destination } => ok && post.platform
                == pre.platform && post.model() == c.with_regs(
                regs.update(destination.index(), regs[destination.index()] | regs[source.index()]),
            ),
            Instruction::BitwiseAndRegisters { source, destination } => ok && post.platform
                == pre.platform && post.model() == c.with_regs(
                regs.update(destination.index(), regs[destination.index()] & regs[source.index()]),
            ),
            Instruction::BitwiseXorRegisters { source, destination } => ok && post.platform
                == pre.platform && post.model() == c.with_regs(
                regs.update(destination.index(), regs[destination.index()] ^ regs[source.index()]),
            ),
            Instruction::AddRegisters { source, destination } => {
                let sum = regs[source.index()] + regs[destination.index()];
                ok && post.platform == pre.platform && post.model() == c.with_regs(
                    regs.update(destination.index(), (sum % 256) as u8).update(
                        FLAG_REGISTER as int,
                        if sum > 255 {
                            1u8
                        } else {
                            0u8
                        },
                    ),
                )
            },
            Instruction::SubtractDestinationFromSource { source, destination } => ok
                && post.platform == pre.platform && post.model() == c.with_regs(
                regs.update(
                    destination.index(),
                    wrap_sub_u8(regs[source.index()], regs[destination.index()]),
                ),
            ),
            Instruction::SubtractSourceFromDestination { source, destination } => ok
                && post.platform == pre.platform && post.model() == c.with_regs(
                regs.update(
                    destination.index(),
                    wrap_sub_u8(regs[destination.index()], regs[source.index()]),
                ),
            ),
            Instruction::ShiftRightRegisters { source, destination } => {
                let operand = if c.shift_semantics is SourceRegister {
                    regs[source.index()]
                } else {
                    regs[destination.index()]
                };
                ok && post.platform == pre.platform && post.model() == c.with_regs(
                    regs.update(destination.index(), (operand / 2) as u8).update(
                        FLAG_REGISTER as int,
                        (operand % 2) as u8,
                    ),
                )
            },
            Instruction::ShiftLeftRegisters { source, destination } => {
                let operand = if c.shift_semantics is SourceRegister {
                    regs[source.index()]
                } else {
                    regs[destination.index()]
                };
                ok && post.platform == pre.platform && post.model() == c.with_regs(
                    regs.update(destination.index(), ((operand * 2) % 256) as u8).update(
                        FLAG_REGISTER as int,
                        (operand / 128) as u8,
                    ),
                )
            },
            Instruction::LoadToIRegister { immediate } => ok && post.platform == pre.platform
                && post.model() == c.with_i(immediate.0),
            Instruction::JumpToSumOfV0ValueAndImmediate { immediate } => ok && post.platform
                == pre.platform && post.model() == c.with_pc((immediate.0 + regs[0]) as u16),
            Instruction::LoadBitwiseAndOfRandomByteAndImmediate { destination, immediate } => ok
                && post.platform == pre.platform && (exists|random: u8|
                post.model() == c.with_regs(
                    #[trigger] regs.update(destination.index(), random & immediate.0),
                )),
            Instruction::DrawSpritesFromMemory {
                read_x_axis_from,
                read_y_axis_from,
                bytes_to_read_from_i_register,
            } => Self::draw_spec(
                pre,
                read_x_axis_from,
                read_y_axis_from,
                bytes_to_read_from_i_register,
                post,
                r,
            ),
            Instruction::SkipNextInstructionIfKeyIsPressed { read_key_number_from } => ok
                && post.platform == pre.platform && post.model() == (if pre.platform.key_pressed(
                regs[read_key_number_from.index()] as int,
            ) {
                c.with_pc(pc_plus_2(c.program_counter))
            } else {
                c
            }),
            Instruction::SkipNextInstructionIfKeyIsNotPressed { read_key_number_from } => ok
                && post.platform == pre.platform && post.model() == (if !pre.platform.key_pressed(
                regs[read_key_number_from.index()] as int,
            ) {
                c.with_pc(pc_plus_2(c.program_counter))
            } else {
                c
            }),
            Instruction::LoadDelayTimerIntoRegister { destination } => ok && post.platform
                == pre.platform && post.model() == c.with_regs(
                regs.update(destination.index(), c.delay_timer),
            ),
            Instruction::AwaitKeyPressAndLoadIntoRegister { destination } => Self::await_key_spec(
                pre,
                destination,
                post,
                r,
            ),
            Instruction::LoadIntoDelayTimer { source } => ok && post.platform == pre.platform
                && post.model() == c.with_delay(regs[source.index()]),
            Instruction::LoadIntoSoundTimer { source } => ok && same_geometry(
                &pre.platform,
                &post.platform,
            ) && same_pixels(&pre.platform, &post.platform) && same_keys(
                &pre.platform,
                &post.platform,
            ) && post.platform.buzzer_on() == (regs[source.index()] > 0) && post.model()
                == c.with_sound(regs[source.index()]),
            Instruction::AddValueToIRegister { source } => ok && post.platform == pre.platform
                && post.model() == c.with_i(
                wrap_add_u16(c.i_register, regs[source.index()] as u16),
            ),
            Instruction::LoadSpriteLocationForValueIntoIRegister { source } => {
                let value = regs[source.index()];
                ok && post.platform == pre.platform && (if exists|j: int|
                    is_first_index_of(c.memory, value, j) {
                    exists|j: int|
                        #[trigger] is_first_index_of(c.memory, value, j) && post.model()
                            == c.with_i(j as u16)
                } else {
                    post.model() == c
                })
            },
            Instruction::LoadBinaryCodedDecimalValueIntoSequenceStartingAtIRegisterValue {
                source,
            } => {
                let start = c.i_register as int;
                if start + 3 > MEMORY_SIZE {
                    r == Err::<(), EmulatorError>(EmulatorError::MemoryOutOfBounds) && post == pre
                } else {
                    let value = regs[source.index()];
                    ok && post.platform == pre.platform && post.model() == c.with_memory(
                        c.memory.update(start, (value / 100) as u8).update(
                            start + 1,
                            ((value / 10) % 10) as u8,
                        ).update(start + 2, (value % 10) as u8),
                    )
                }
            },
            Instruction::LoadValuesFromV0ToRegisterIntoSequenceStartingAtIRegisterValue { end } => {
                let n = end.index() + 1;
                let start = c.i_register as int;
                if start + n > MEMORY_SIZE {
                    r == Err::<(), EmulatorError>(EmulatorError::MemoryOutOfBounds) && post == pre
                } else {
                    ok && post.platform == pre.platform && post.model() == c.with_memory(
                        write_block(c.memory, start, regs.take(n)),
                    )
                }
            },
            Instruction::LoadSequenceStartingAtIRegisterValueIntoV0ToRegister { end } => {
                let n = end.index() + 1;
                let start = c.i_register as int;
                if start + n > MEMORY_SIZE {
                    r == Err::<(), EmulatorError>(EmulatorError::MemoryOutOfBounds) && post == pre
                } else {
                    ok && post.platform == pre.platform && post.model() == c.with_regs(
                        write_block(regs, 0, c.memory.subrange(start, start + n)),
                    )
                }
            },
        }
    }

    /// Copy registers V0..=end into memory at the I register's address.
    #[verifier::loop_isolation(false)]
    fn exec_store_registers(&mut self, end: RegisterNumber) -> (r: Result<(), EmulatorError>)
        requires
            old(self).wf(),
            end.wf(),
        ensures
            final(self).wf(),
            Self::execute_spec(
                *old(self),
                (Instruction::LoadValuesFromV0ToRegisterIntoSequenceStartingAtIRegisterValue {
                    end,
                }),
                *final(self),
                r,
            ),
    {
        let n: usize = end.as_usize() + 1;
        let start: usize = self.i_register as usize;
        if start + n > MEMORY_SIZE {
            return Err(EmulatorError::MemoryOutOfBounds);
        }
        let ghost pre = *old(self);
        let mut k: usize = 0;
        while k < n
            invariant
                k <= n,
                self.wf(),
                self.program_counter == pre.program_counter,
                self.stack_pointer == pre.stack_pointer,
                self.stack == pre.stack,
                self.i_register == pre.i_register,
                self.v_registers == pre.v_registers,
                self.sound_timer == pre.sound_timer,
                self.delay_timer == pre.delay_timer,
                self.platform == pre.platform,
                self.shift_semantics == pre.shift_semantics,
                self.memory@.len() == MEMORY_SIZE,
                forall|i: int|
                    0 <= i < MEMORY_SIZE ==> self.memory@[i] == (if start <= i < start + k {
                        pre.v_registers@[i - start]
                    } else {
                        pre.memory@[i]
                    }),
            decreases n - k,
        {
            let value: u8 = self.v_registers[k];
            self.memory.set(start + k, value);
            k = k + 1;
        }
        proof {
            assert(self.memory@ =~= write_block(
                pre.memory@,
                start as int,
                pre.v_registers@.take(n as int),
            ));
        }
        Ok(())
    }

    /// Fill registers V0..=end from memory at the I register's address.
    #[verifier::loop_isolation(false)]
    fn exec_load_registers(&mut self, end: RegisterNumber) -> (r: Result<(), EmulatorError>)
        requires
            old(self).wf(),
            end.wf(),
        ensures
            final(self).wf(),
            Self::execute_spec(
                *old(self),
                (Instruction::LoadSequenceStartingAtIRegisterValueIntoV0ToRegister { end }),
                *final(self),
                r,
            ),
    {
        let n: usize = end.as_usize() + 1;
        let start: usize = self.i_register as usize;
        if start + n > MEMORY_SIZE {
            return Err(EmulatorError::MemoryOutOfBounds);
        }
        let ghost pre = *old(self);
        let mut k: usize = 0;
        while k < n
            invariant
                k <= n,
                self.wf(),
                self.program_counter == pre.program_counter,
                self.stack_pointer == pre.stack_pointer,
                self.stack == pre.stack,
                self.i_register == pre.i_register,
                self.memory == pre.memory,
                self.sound_timer == pre.sound_timer,
                self.delay_timer == pre.delay_timer,
                self.platform == pre.platform,
                self.shift_semantics == pre.shift_semantics,
                self.v_registers@.len() == REGISTER_BANK_SIZE,
                forall|i: int|
                    0 <= i < REGISTER_BANK_SIZE ==> self.v_registers@[i] == (if 0 <= i < k {
                        pre.memory@[start + i]
                    } else {
                        pre.v_registers@[i]
                    }),
            decreases n - k,
        {
            let value: u8 = self.memory[start + k];
            self.v_registers.set(k, value);
            k = k + 1;
        }
        proof {
            assert(self.v_registers@ =~= write_block(
                pre.v_registers@,
                0,
                pre.memory@.subrange(start as int, start as int + n as int),
            ));
        }
        Ok(())
    }

    /// Write the decimal digits of a register's value — hundreds, tens,
    /// ones — into three consecutive memory cells at the I register.
    fn exec_store_bcd(&mut self, source: RegisterNumber) -> (r: Result<(), EmulatorError>)
        requires
            old(self).wf(),
            source.wf(),
        ensures
            final(self).wf(),
            Self::execute_spec(
                *old(self),
                (Instruction::LoadBinaryCodedDecimalValueIntoSequenceStartingAtIRegisterValue {
                    source,
                }),
                *final(self),
                r,
            ),
    {
        let start: usize = self.i_register as usize;
        if start + 3 > MEMORY_SIZE {
            return Err(EmulatorError::MemoryOutOfBounds);
        }
        let value: u8 = self.read_v_register(source).0;
        self.memory.set(start, value / 100);
        self.memory.set(start + 1, (value / 10) % 10);
        self.memory.set(start + 2, value % 10);
        Ok(())
    }

    /// XOR-composite a sprite from memory onto the display (see
    /// `draw_spec` for the full statement).
    #[verifier::loop_isolation(false)]
    #[verifier::rlimit(60)]
    fn exec_draw(
        &mut self,
        read_x_axis_from: RegisterNumber,
        read_y_axis_from: RegisterNumber,
        bytes_to_read_from_i_register: FourBitValue,
    ) -> (r: Result<(), EmulatorError>)
        requires
            old(self).wf(),
            read_x_axis_from.wf(),
            read_y_axis_from.wf(),
            bytes_to_read_from_i_register.wf(),
        ensures
            final(self).wf(),
            Self::draw_spec(
                *old(self),
                read_x_axis_from,
                read_y_axis_from,
                bytes_to_read_from_i_register,
                *final(self),
                r,
            ),
    {
        let n: usize = bytes_to_read_from_i_register.0 as usize;
        let start: usize = self.i_register as usize;
        if start + n > MEMORY_SIZE {
            return Err(EmulatorError::MemoryOutOfBounds);
        }
        let width: u8 = self.platform.get_display_width();
        let height: u8 = self.platform.get_display_height();
        let x0: u8 = self.v_registers[read_x_axis_from.as_usize()] % width;
        let y0: u8 = self.v_registers[read_y_axis_from.as_usize()] % height;
        let rows: usize = if n <= (height - y0) as usize {
            n
        } else {
            (height - y0) as usize
        };
        let cols: usize = if 8 <= (width - x0) as usize {
            8
        } else {
            (width - x0) as usize
        };
        let ghost pre = *old(self);
        let ghost sprite = pre.memory@.subrange(start as int, start as int + n as int);
        let ghost x0i = x0 as int;
        let ghost y0i = y0 as int;
        let ghost colsi = cols as int;
        let mut collision: bool = false;
        let mut i: usize = 0;
        while i < rows
            invariant
                i <= rows,
                self.wf(),
                self.program_counter == pre.program_counter,
                self.stack_pointer == pre.stack_pointer,
                self.stack == pre.stack,
                self.i_register == pre.i_register,
                self.v_registers == pre.v_registers,
                self.sound_timer == pre.sound_timer,
                self.delay_timer == pre.delay_timer,
                self.memory == pre.memory,
                self.shift_semantics == pre.shift_semantics,
                same_geometry(&pre.platform, &self.platform),
                same_keys(&pre.platform, &self.platform),
                self.platform.buzzer_on() == pre.platform.buzzer_on(),
                forall|cc: int, rr: int|
                    #![trigger self.platform.pixel_on(cc, rr)]
                    self.platform.pixel_on(cc, rr) == (if draw_hit(
                        sprite,
                        x0i,
                        y0i,
                        i as int,
                        colsi,
                        cc,
                        rr,
                    ) {
                        !pre.platform.pixel_on(cc, rr)
                    } else {
                        pre.platform.pixel_on(cc, rr)
                    }),
                collision == draw_collision(&pre.platform, sprite, x0i, y0i, i as int, colsi),
            decreases rows - i,
        {
            let byte: u8 = self.memory[start + i];
            assert(byte == sprite[i as int]);
            let mut j: usize = 0;
            proof {
                let ii = i as int;
                assert forall|cc: int, rr: int|
                    draw_hit_prefix(sprite, x0i, y0i, ii, 0, colsi, cc, rr) == draw_hit(
                        sprite,
                        x0i,
                        y0i,
                        ii,
                        colsi,
                        cc,
                        rr,
                    ) by {}
                if draw_collision(&pre.platform, sprite, x0i, y0i, ii, colsi) {
                    let (wc, wr) = choose|wc: int, wr: int|
                        #[trigger] draw_hit(sprite, x0i, y0i, ii, colsi, wc, wr)
                            && pre.platform.pixel_on(wc, wr);
                    assert(draw_hit_prefix(sprite, x0i, y0i, ii, 0, colsi, wc, wr)
                        && pre.platform.pixel_on(wc, wr));
                    assert(draw_collision_prefix(&pre.platform, sprite, x0i, y0i, ii, 0, colsi));
                }
                if draw_collision_prefix(&pre.platform, sprite, x0i, y0i, ii, 0, colsi) {
                    let (wc, wr) = choose|wc: int, wr: int|
                        #[trigger] draw_hit_prefix(sprite, x0i, y0i, ii, 0, colsi, wc, wr)
                            && pre.platform.pixel_on(wc, wr);
                    assert(draw_hit(sprite, x0i, y0i, ii, colsi, wc, wr)
                        && pre.platform.pixel_on(wc, wr));
                    assert(draw_collision(&pre.platform, sprite, x0i, y0i, ii, colsi));
                }
            }
            while j < cols
                invariant
                    i < rows,
                    j <= cols,
                    byte == sprite[i as int],
                    self.wf(),
                    self.program_counter == pre.program_counter,
                    self.stack_pointer == pre.stack_pointer,
                    self.stack == pre.stack,
                    self.i_register == pre.i_register,
                    self.v_registers == pre.v_registers,
                    self.sound_timer == pre.sound_timer,
                    self.delay_timer == pre.delay_timer,
                    self.memory == pre.memory,
                    self.shift_semantics == pre.shift_semantics,
                    same_geometry(&pre.platform, &self.platform),
                    same_keys(&pre.platform, &self.platform),
                    self.platform.buzzer_on() == pre.platform.buzzer_on(),
                    forall|cc: int, rr: int|
                        #![trigger self.platform.pixel_on(cc, rr)]
                        self.platform.pixel_on(cc, rr) == (if draw_hit_prefix(
                            sprite,
                            x0i,
                            y0i,
                            i as int,
                            j as int,
                            colsi,
                            cc,
                            rr,
                        ) {
                            !pre.platform.pixel_on(cc, rr)
                        } else {
                            pre.platform.pixel_on(cc, rr)
                        }),
                    collision == draw_collision_prefix(
                        &pre.platform,
                        sprite,
                        x0i,
                        y0i,
                        i as int,
                        j as int,
                        colsi,
                    ),
                decreases cols - j,
            {
                let column: u8 = x0 + j as u8;
                let row: u8 = y0 + i as u8;
                let shift: u8 = (7 - j) as u8;
                let ghost collision_before = collision;
                if (byte >> shift) & 1 == 1 {
                    assert(sprite_bit(sprite[i as int], j as int));
                    let pixel = Pixel { column, row };
                    let current = self.platform.get_pixel(pixel);
                    if current == PixelState::On {
                        self.platform.set_pixel(pixel, PixelState::Off);
                        collision = true;
                    } else {
                        self.platform.set_pixel(pixel, PixelState::On);
                    }
                } else {
                    assert(!sprite_bit(sprite[i as int], j as int));
                }
                proof {
                    let ii = i as int;
                    let ji = j as int;
                    let ci = column as int;
                    let ri = row as int;
                    assert forall|cc: int, rr: int|
                        self.platform.pixel_on(cc, rr) == (if draw_hit_prefix(
                            sprite,
                            x0i,
                            y0i,
                            ii,
                            ji + 1,
                            colsi,
                            cc,
                            rr,
                        ) {
                            !pre.platform.pixel_on(cc, rr)
                        } else {
                            pre.platform.pixel_on(cc, rr)
                        }) by {
                        if cc == ci && rr == ri {
                        } else {
                            assert(draw_hit_prefix(sprite, x0i, y0i, ii, ji + 1, colsi, cc, rr)
                                == draw_hit_prefix(sprite, x0i, y0i, ii, ji, colsi, cc, rr));
                        }
                    }
                    if collision {
                        if collision_before {
                            let (wc, wr) = choose|wc: int, wr: int|
                                #[trigger] draw_hit_prefix(sprite, x0i, y0i, ii, ji, colsi, wc, wr)
                                    && pre.platform.pixel_on(wc, wr);
                            assert(draw_hit_prefix(sprite, x0i, y0i, ii, ji + 1, colsi, wc, wr)
                                && pre.platform.pixel_on(wc, wr));
                        } else {
                            assert(draw_hit_prefix(sprite, x0i, y0i, ii, ji + 1, colsi, ci, ri)
                                && pre.platform.pixel_on(ci, ri));
                        }
                        assert(draw_collision_prefix(
                            &pre.platform,
                            sprite,
                            x0i,
                            y0i,
                            ii,
                            ji + 1,
                            colsi,
                        ));
                    } else {
                        assert forall|cc: int, rr: int|
                            !(#[trigger] draw_hit_prefix(sprite, x0i, y0i, ii, ji + 1, colsi, cc, rr)
                                && pre.platform.pixel_on(cc, rr)) by {
                            if draw_hit_prefix(sprite, x0i, y0i, ii, ji + 1, colsi, cc, rr) {
                                if cc == ci && rr == ri {
                                    assert(!pre.platform.pixel_on(cc, rr));
                                } else {
                                    assert(draw_hit_prefix(sprite, x0i, y0i, ii, ji, colsi, cc, rr));
                                    assert(!pre.platform.pixel_on(cc, rr));
                                }
                            }
                        }
                        assert(!draw_collision_prefix(
                            &pre.platform,
                            sprite,
                            x0i,
                            y0i,
                            ii,
                            ji + 1,
                            colsi,
                        ));
                    }
                }
                j = j + 1;
            }
            proof {
                let ii = i as int;
                assert forall|cc: int, rr: int|
                    draw_hit_prefix(sprite, x0i, y0i, ii, colsi, colsi, cc, rr) == draw_hit(
                        sprite,
                        x0i,
                        y0i,
                        ii + 1,
                        colsi,
                        cc,
                        rr,
                    ) by {}
                if draw_collision_prefix(&pre.platform, sprite, x0i, y0i, ii, colsi, colsi) {
                    let (wc, wr) = choose|wc: int, wr: int|
                        #[trigger] draw_hit_prefix(sprite, x0i, y0i, ii, colsi, colsi, wc, wr)
                            && pre.platform.pixel_on(wc, wr);
                    assert(draw_hit(sprite, x0i, y0i, ii + 1, colsi, wc, wr)
                        && pre.platform.pixel_on(wc, wr));
                    assert(draw_collision(&pre.platform, sprite, x0i, y0i, ii + 1, colsi));
                }
                if draw_collision(&pre.platform, sprite, x0i, y0i, ii + 1, colsi) {
                    let (wc, wr) = choose|wc: int, wr: int|
                        #[trigger] draw_hit(sprite, x0i, y0i, ii + 1, colsi, wc, wr)
                            && pre.platform.pixel_on(wc, wr);
                    assert(draw_hit_prefix(sprite, x0i, y0i, ii, colsi, colsi, wc, wr)
                        && pre.platform.pixel_on(wc, wr));
                }
            }
            i = i + 1;
        }
        let flag: u8 = if collision {
            1
        } else {
            0
        };
        self.v_registers.set(FLAG_REGISTER, flag);
        proof {
            let c = pre.model();
            let ni = bytes_to_read_from_i_register.0 as int;
            let starti = c.i_register as int;
            let wi = pre.platform.display_width() as int;
            let hi = pre.platform.display_height() as int;
            let sx0 = c.v_registers[read_x_axis_from.index()] as int % wi;
            let sy0 = c.v_registers[read_y_axis_from.index()] as int % hi;
            let ssprite = c.memory.subrange(starti, starti + ni);
            let srows = if ni <= hi - sy0 {
                ni
            } else {
                hi - sy0
            };
            let scols = if 8 <= wi - sx0 {
                8int
            } else {
                wi - sx0
            };
            assert(ssprite == sprite);
            assert(sx0 == x0i);
            assert(sy0 == y0i);
            assert(srows == i as int);
            assert(scols == colsi);
            assert(collision == draw_collision(&pre.platform, ssprite, sx0, sy0, srows, scols));
            assert(self.model() == c.with_regs(
                c.v_registers.update(
                    FLAG_REGISTER as int,
                    if draw_collision(&pre.platform, ssprite, sx0, sy0, srows, scols) {
                        1u8
                    } else {
                        0u8
                    },
                ),
            ));
        }
        Ok(())
    }

    /// Control flow and register moves: jumps, calls, returns, the four
    /// compare-and-skip forms, and immediate loads.
    fn exec_flow_instruction(&mut self, instruction: Instruction) -> (r: Result<
        (),
        EmulatorError,
    >)
        requires
            old(self).wf(),
            instruction.wf(),
            instruction matches Instruction::System { .. } || instruction
                matches Instruction::ClearDisplay || instruction
                matches Instruction::ReturnFromSubroutine || instruction
                matches Instruction::Jump { .. } || instruction matches Instruction::Call { .. }
                || instruction matches Instruction::SkipNextInstructionIfMatch { .. } || instruction
                matches Instruction::SkipNextInstructionIfNotMatch { .. } || instruction
                matches Instruction::SkipNextInstructionIfValuesMatch { .. } || instruction
                matches Instruction::SkipNextInstructionIfValuesDoNotMatch { .. } || instruction
                matches Instruction::LoadImmediateToRegister { .. } || instruction
                matches Instruction::AddImmediateToRegister { .. } || instruction
                matches Instruction::CopyRegisterValue { .. },
        ensures
            final(self).wf(),
            Self::execute_spec(*old(self), instruction, *final(self), r),
    {
        match instruction {
            Instruction::System { address } | Instruction::Jump { address } => {
                self.set_program_counter(address.as_u16());
                Ok(())
            },
            Instruction::ClearDisplay => {
                self.platform.clear_display();
                Ok(())
            },
            Instruction::ReturnFromSubroutine => {
                if self.stack_pointer == 0 {
                    return Err(EmulatorError::StackUnderflow);
                }
                let return_address: u16 = self.stack[self.stack_pointer];
                self.set_program_counter(return_address);
                self.stack_pointer = self.stack_pointer - 1;
                Ok(())
            },
            Instruction::Call { address } => {
                if self.stack_pointer + 1 >= STACK_SIZE {
                    return Err(EmulatorError::StackOverflow);
                }
                self.stack_pointer = self.stack_pointer + 1;
                let current: u16 = self.program_counter;
                self.stack.set(self.stack_pointer, current);
                self.set_program_counter(address.as_u16());
                Ok(())
            },
            Instruction::SkipNextInstructionIfMatch { read_value_from, immediate } => {
                let register_value = self.read_v_register(read_value_from);
                if register_value.0 == immediate.0 {
                    self.increment_program_counter();
                }
                Ok(())
            },
            Instruction::SkipNextInstructionIfNotMatch { read_value_from, immediate } => {
                let register_value = self.read_v_register(read_value_from);
                if register_value.0 != immediate.0 {
                    self.increment_program_counter();
                }
                Ok(())
            },
            Instruction::SkipNextInstructionIfValuesMatch { lhs, rhs } => {
                let lhs_value = self.read_v_register(lhs);
                let rhs_value = self.read_v_register(rhs);
                if lhs_value.0 == rhs_value.0 {
                    self.increment_program_counter();
                }
                Ok(())
            },
            Instruction::SkipNextInstructionIfValuesDoNotMatch { lhs, rhs } => {
                let lhs_value = self.read_v_register(lhs);
                let rhs_value = self.read_v_register(rhs);
                if lhs_value.0 != rhs_value.0 {
                    self.increment_program_counter();
                }
                Ok(())
            },
            Instruction::LoadImmediateToRegister { immediate, destination } => {
                self.set_v_register(destination, immediate);
                Ok(())
            },
            Instruction::AddImmediateToRegister { immediate, destination } => {
                let value: u8 = self.read_v_register(destination).0.wrapping_add(immediate.0);
                self.set_v_register(destination, types::EightBitValue(value));
                Ok(())
            },
            Instruction::CopyRegisterValue { source, destination } => {
                let value = self.read_v_register(source);
                self.set_v_register(destination, value);
                Ok(())
            },
            // Unreachable: the dispatcher sends only this group's
            // operations here.
            _ => {
                proof {
                    assert(false);
                }
                Ok(())
            },
        }
    }

    /// The register arithmetic and logic of opcode family 8, the I
    /// register loads, the indexed jump, the random byte, and the sprite
    /// draw.
    fn exec_arithmetic_instruction(&mut self, instruction: Instruction) -> (r: Result<
        (),
        EmulatorError,
    >)
        requires
            old(self).wf(),
            instruction.wf(),
            instruction matches Instruction::BitwiseOrRegisters { .. } || instruction
                matches Instruction::BitwiseAndRegisters { .. } || instruction
                matches Instruction::BitwiseXorRegisters { .. } || instruction
                matches Instruction::AddRegisters { .. } || instruction
                matches Instruction::SubtractDestinationFromSource { .. } || instruction
                matches Instruction::ShiftRightRegisters { .. } || instruction
                matches Instruction::SubtractSourceFromDestination { .. } || instruction
                matches Instruction::ShiftLeftRegisters { .. } || instruction
                matches Instruction::LoadToIRegister { .. } || instruction
                matches Instruction::JumpToSumOfV0ValueAndImmediate { .. } || instruction
                matches Instruction::LoadBitwiseAndOfRandomByteAndImmediate { .. } || instruction
                matches Instruction::DrawSpritesFromMemory { .. },
        ensures
            final(self).wf(),
            Self::execute_spec(*old(self), instruction, *final(self), r),
    {
        match instruction {
            Instruction::BitwiseOrRegisters { source, destination } => {
                let source_value: u8 = self.read_v_register(source).0;
                let destination_value: u8 = self.read_v_register(destination).0;
                self.set_v_register(
                    destination,
                    types::EightBitValue(destination_value | source_value),
                );
                Ok(())
            },
            Instruction::BitwiseAndRegisters { source, destination } => {
                let source_value: u8 = self.read_v_register(source).0;
                let destination_value: u8 = self.read_v_register(destination).0;
                self.set_v_register(
                    destination,
                    types::EightBitValue(destination_value & source_value),
                );
                Ok(())
            },
            Instruction::BitwiseXorRegisters { source, destination } => {
                let source_value: u8 = self.read_v_register(source).0;
                let destination_value: u8 = self.read_v_register(destination).0;
                self.set_v_register(
                    destination,
                    types::EightBitValue(destination_value ^ source_value),
                );
                Ok(())
            },
            Instruction::AddRegisters { source, destination } => {
                let source_value: u8 = self.read_v_register(source).0;
                let destination_value: u8 = self.read_v_register(destination).0;
                let sum: u16 = source_value as u16 + destination_value as u16;
                let value: u8 = (sum % 256) as u8;
                let carry: bool = sum > 255;
                self.set_v_register(destination, types::EightBitValue(value));
                self.set_carry_in_vf_register(carry);
                Ok(())
            },
            Instruction::SubtractDestinationFromSource { source, destination } => {
                let source_value: u8 = self.read_v_register(source).0;
                let destination_value: u8 = self.read_v_register(destination).0;
                let value: u8 = source_value.wrapping_sub(destination_value);
                self.set_v_register(destination, types::EightBitValue(value));
                Ok(())
            },
            Instruction::SubtractSourceFromDestination { source, destination } => {
                let source_value: u8 = self.read_v_register(source).0;
                let destination_value: u8 = self.read_v_register(destination).0;
                let value: u8 = destination_value.wrapping_sub(source_value);
                self.set_v_register(destination, types::EightBitValue(value));
                Ok(())
            },
            Instruction::ShiftRightRegisters { source, destination } => {
                let operand: u8 = match self.shift_semantics {
                    ShiftSemantics::SourceRegister => self.read_v_register(source).0,
                    ShiftSemantics::DestinationRegister => self.read_v_register(destination).0,
                };
                self.set_v_register(destination, types::EightBitValue(operand / 2));
                self.set_carry_in_vf_register(operand % 2 == 1);
                Ok(())
            },
            Instruction::ShiftLeftRegisters { source, destination } => {
                let operand: u8 = match self.shift_semantics {
                    ShiftSemantics::SourceRegister => self.read_v_register(source).0,
                    ShiftSemantics::DestinationRegister => self.read_v_register(destination).0,
                };
                let value: u8 = ((operand as u16 * 2) % 256) as u8;
                self.set_v_register(destination, types::EightBitValue(value));
                self.set_carry_in_vf_register(operand / 128 == 1);
                Ok(())
            },
            Instruction::LoadToIRegister { immediate } => {
                self.i_register = immediate.0;
                Ok(())
            },
            Instruction::JumpToSumOfV0ValueAndImmediate { immediate } => {
                let register_value: u8 = self.read_v_register(RegisterNumber::zero()).0;
                let target: u16 = immediate.0 + register_value as u16;
                self.set_program_counter(target);
                Ok(())
            },
            Instruction::LoadBitwiseAndOfRandomByteAndImmediate { destination, immediate } => {
                let random_value: u8 = random_byte();
                let value: u8 = random_value & immediate.0;
                self.set_v_register(destination, types::EightBitValue(value));
                proof {
                    let regs = old(self).v_registers@;
                    assert(self.model() == old(self).model().with_regs(
                        regs.update(destination.index(), random_value & immediate.0),
                    ));
                }
                Ok(())
            },
            Instruction::DrawSpritesFromMemory {
                read_x_axis_from,
                read_y_axis_from,
                bytes_to_read_from_i_register,
            } => self.exec_draw(read_x_axis_from, read_y_axis_from, bytes_to_read_from_i_register),
            // Unreachable: the dispatcher sends only this group's
            // operations here.
            _ => {
                proof {
                    assert(false);
                }
                Ok(())
            },
        }
    }

    /// The keypad and timer operations of families E and F, and the
    /// memory-block forms that work at the I register.
    fn exec_peripheral_instruction(&mut self, instruction: Instruction) -> (r: Result<
        (),
        EmulatorError,
    >)
        requires
            old(self).wf(),
            instruction.wf(),
            instruction matches Instruction::SkipNextInstructionIfKeyIsPressed { .. } || instruction
                matches Instruction::SkipNextInstructionIfKeyIsNotPressed { .. } || instruction
                matches Instruction::LoadDelayTimerIntoRegister { .. } || instruction
                matches Instruction::AwaitKeyPressAndLoadIntoRegister { .. } || instruction
                matches Instruction::LoadIntoDelayTimer { .. } || instruction
                matches Instruction::LoadIntoSoundTimer { .. } || instruction
                matches Instruction::AddValueToIRegister { .. } || instruction
                matches Instruction::LoadSpriteLocationForValueIntoIRegister { .. } || instruction
                matches Instruction::LoadBinaryCodedDecimalValueIntoSequenceStartingAtIRegisterValue { .. }
                || instruction
                matches Instruction::LoadValuesFromV0ToRegisterIntoSequenceStartingAtIRegisterValue { .. }
                || instruction
                matches Instruction::LoadSequenceStartingAtIRegisterValueIntoV0ToRegister { .. },
        ensures
            final(self).wf(),
            Self::execute_spec(*old(self), instruction, *final(self), r),
    {
        match instruction {
            Instruction::SkipNextInstructionIfKeyIsPressed { read_key_number_from } => {
                let register_value: u8 = self.read_v_register(read_key_number_from).0;
                let expected_key_number = KeypadNumber(register_value);
                match self.platform.read_keypress_state(expected_key_number) {
                    KeyState::On => self.increment_program_counter(),
                    KeyState::Off => {},
                }
                Ok(())
            },
            Instruction::SkipNextInstructionIfKeyIsNotPressed { read_key_number_from } => {
                let register_value: u8 = self.read_v_register(read_key_number_from).0;
                let expected_key_number = KeypadNumber(register_value);
                match self.platform.read_keypress_state(expected_key_number) {
                    KeyState::Off => self.increment_program_counter(),
                    KeyState::On => {},
                }
                Ok(())
            },
            Instruction::LoadDelayTimerIntoRegister { destination } => {
                let value: u8 = self.delay_timer;
                self.set_v_register(destination, types::EightBitValue(value));
                Ok(())
            },
            Instruction::AwaitKeyPressAndLoadIntoRegister { destination } => {
                let key_state = self.platform.block_for_any_keypress();
                match key_state {
                    KeyState::On => self.set_v_register(destination, types::EightBitValue(1)),
                    KeyState::Off => self.set_v_register(destination, types::EightBitValue(0)),
                }
                Ok(())
            },
            Instruction::LoadIntoDelayTimer { source } => {
                let register_value: u8 = self.read_v_register(source).0;
                self.delay_timer = register_value;
                Ok(())
            },
            Instruction::LoadIntoSoundTimer { source } => {
                let register_value: u8 = self.read_v_register(source).0;
                self.sound_timer = register_value;
                self.handler_buzzer_state();
                Ok(())
            },
            Instruction::AddValueToIRegister { source } => {
                let register_value: u8 = self.read_v_register(source).0;
                self.i_register = self.i_register.wrapping_add(register_value as u16);
                Ok(())
            },
            Instruction::LoadSpriteLocationForValueIntoIRegister { source } => {
                let register_value: u8 = self.read_v_register(source).0;
                match self.find_address_of_value_in_memory(register_value) {
                    Some(address) => {
                        self.i_register = address.as_u16();
                        proof {
                            let c = old(self).model();
                            assert(is_first_index_of(c.memory, register_value, address.index())
                                && self.model() == c.with_i(address.index() as u16));
                        }
                    },
                    None => {},
                }
                Ok(())
            },
            Instruction::LoadBinaryCodedDecimalValueIntoSequenceStartingAtIRegisterValue {
                source,
            } => self.exec_store_bcd(source),
            Instruction::LoadValuesFromV0ToRegisterIntoSequenceStartingAtIRegisterValue { end } => {
                self.exec_store_registers(end)
            },
            Instruction::LoadSequenceStartingAtIRegisterValueIntoV0ToRegister { end } => {
                self.exec_load_registers(end)
            },
            // Unreachable: the dispatcher sends only this group's
            // operations here.
            _ => {
                proof {
                    assert(false);
                }
                Ok(())
            },
        }
    }

    /// Dispatch one decoded operation against the engine state and the
    /// peripherals: the complete per-opcode semantics of `execute_spec`.
    pub fn execute_instruction(&mut self, instruction: Instruction) -> (r: Result<
        (),
        EmulatorError,
    >)
        requires
            old(self).wf(),
            instruction.wf(),
        ensures
            final(self).wf(),
            Self::execute_spec(*old(self), instruction, *final(self), r),
    {
        match instruction {
            Instruction::System { .. }
            | Instruction::ClearDisplay
            | Instruction::ReturnFromSubroutine
            | Instruction::Jump { .. }
            | Instruction::Call { .. }
            | Instruction::SkipNextInstructionIfMatch { .. }
            | Instruction::SkipNextInstructionIfNotMatch { .. }
            | Instruction::SkipNextInstructionIfValuesMatch { .. }
            | Instruction::SkipNextInstructionIfValuesDoNotMatch { .. }
            | Instruction::LoadImmediateToRegister { .. }
            | Instruction::AddImmediateToRegister { .. }
            | Instruction::CopyRegisterValue { .. } => self.exec_flow_instruction(instruction),
            Instruction::BitwiseOrRegisters { .. }
            | Instruction::BitwiseAndRegisters { .. }
            | Instruction::BitwiseXorRegisters { .. }
            | Instruction::AddRegisters { .. }
            | Instruction::SubtractDestinationFromSource { .. }
            | Instruction::ShiftRightRegisters { .. }
            | Instruction::SubtractSourceFromDestination { .. }
            | Instruction::ShiftLeftRegisters { .. }
            | Instruction::LoadToIRegister { .. }
            | Instruction::JumpToSumOfV0ValueAndImmediate { .. }
            | Instruction::LoadBitwiseAndOfRandomByteAndImmediate { .. }
            | Instruction::DrawSpritesFromMemory { .. } => self.exec_arithmetic_instruction(
                instruction,
            ),
            Instruction::SkipNextInstructionIfKeyIsPressed { .. }
            | Instruction::SkipNextInstructionIfKeyIsNotPressed { .. }
            | Instruction::LoadDelayTimerIntoRegister { .. }
            | Instruction::AwaitKeyPressAndLoadIntoRegister { .. }
            | Instruction::LoadIntoDelayTimer { .. }
            | Instruction::LoadIntoSoundTimer { .. }
            | Instruction::AddValueToIRegister { .. }
            | Instruction::LoadSpriteLocationForValueIntoIRegister { .. }
            | Instruction::LoadBinaryCodedDecimalValueIntoSequenceStartingAtIRegisterValue { .. }
            | Instruction::LoadValuesFromV0ToRegisterIntoSequenceStartingAtIRegisterValue { .. }
            | Instruction::LoadSequenceStartingAtIRegisterValueIntoV0ToRegister { .. } => self
                .exec_peripheral_instruction(instruction),
        }
    }

    /// One 500 Hz instruction tick: fetch the word at the program
    /// counter, advance the counter past it unconditionally, decode, and
    /// dispatch. A fetch that would run past the end of memory fails
    /// before anything changes; a word outside the grammar fails after
    /// the advance, visibly, so the caller can halt or report it.
    pub fn run_instruction_loop(&mut self) -> (r: Result<(), EmulatorError>)
        requires
            old(self).wf(),
        ensures
            final(self).wf(),
            old(self).program_counter + 2 > MEMORY_SIZE ==> r == Err::<(), EmulatorError>(
                EmulatorError::MemoryOutOfBounds,
            ) && *final(self) == *old(self),
            old(self).program_counter + 2 <= MEMORY_SIZE ==> {
                let b0 = old(self).memory@[old(self).program_counter as int];
                let b1 = old(self).memory@[old(self).program_counter as int + 1];
                let advanced = old(self).spec_with_pc(pc_plus_2(old(self).program_counter));
                match spec_decode(b0, b1) {
                    Option::None => r == Err::<(), EmulatorError>(EmulatorError::DecodeFailure)
                        && *final(self) == advanced,
                    Option::Some(instruction) => Self::execute_spec(
                        advanced,
                        instruction,
                        *final(self),
                        r,
                    ),
                }
            },
    {
        let pc: usize = self.program_counter as usize;
        if pc + 2 > MEMORY_SIZE {
            return Err(EmulatorError::MemoryOutOfBounds);
        }
        let b0: u8 = self.memory[pc];
        let b1: u8 = self.memory[pc + 1];
        self.increment_program_counter();
        let instruction_bytes: [u8; 2] = [b0, b1];
        match parse_instruction(&instruction_bytes) {
            Some(instruction) => self.execute_instruction(instruction),
            None => Err(EmulatorError::DecodeFailure),
        }
    }
}


/// Memory block transfer round trip: storing registers V0..=end to
/// memory at the I register writes exactly those register values there,
/// and loading them back restores the register bank unchanged.
pub proof fn lemma_store_load_round_trip<PLATFORM: Platform>(
    pre: Emulator<PLATFORM>,
    mid: Emulator<PLATFORM>,
    post: Emulator<PLATFORM>,
    end: RegisterNumber,
    r1: Result<(), EmulatorError>,
    r2: Result<(), EmulatorError>,
)
    requires
        pre.wf(),
        end.wf(),
        pre.i_register + end.index() + 1 <= MEMORY_SIZE,
        Emulator::execute_spec(
            pre,
            (Instruction::LoadValuesFromV0ToRegisterIntoSequenceStartingAtIRegisterValue { end }),
            mid,
            r1,
        ),
        Emulator::execute_spec(
            mid,
            (Instruction::LoadSequenceStartingAtIRegisterValueIntoV0ToRegister { end }),
            post,
            r2,
        ),
    ensures
        r1 == Ok::<(), EmulatorError>(()),
        r2 == Ok::<(), EmulatorError>(()),
        mid.memory@.subrange(pre.i_register as int, pre.i_register + end.index() + 1)
            == pre.v_registers@.take(end.index() + 1),
        post.v_registers@ == pre.v_registers@,
        post.memory@ == mid.memory@,
{
    let n = end.index() + 1;
    let start = pre.i_register as int;
    assert(mid.memory@.subrange(start, start + n) =~= pre.v_registers@.take(n));
    assert(post.v_registers@ =~= pre.v_registers@);
}

/// XOR self-cancellation of the sprite draw: drawing the same sprite
/// twice at the same location restores every pixel. On a display that
/// started dark, the first draw reports no collision, and the second
/// reports one exactly when some sprite bit survives clipping — its
/// pixels were lit by the first draw and are toggled back off.
/// The two coordinate registers must not be VF, which the first draw
/// overwrites with its collision flag.
pub proof fn lemma_draw_twice<PLATFORM: Platform>(
    pre: Emulator<PLATFORM>,
    mid: Emulator<PLATFORM>,
    post: Emulator<PLATFORM>,
    read_x_axis_from: RegisterNumber,
    read_y_axis_from: RegisterNumber,
    bytes_to_read_from_i_register: FourBitValue,
    r1: Result<(), EmulatorError>,
    r2: Result<(), EmulatorError>,
)
    requires
        pre.wf(),
        read_x_axis_from.wf(),
        read_y_axis_from.wf(),
        bytes_to_read_from_i_register.wf(),
        read_x_axis_from.index() != FLAG_REGISTER,
        read_y_axis_from.index() != FLAG_REGISTER,
        pre.i_register + bytes_to_read_from_i_register.0 <= MEMORY_SIZE,
        Emulator::draw_spec(
            pre,
            read_x_axis_from,
            read_y_axis_from,
            bytes_to_read_from_i_register,
            mid,
            r1,
        ),
        Emulator::draw_spec(
            mid,
            read_x_axis_from,
            read_y_axis_from,
            bytes_to_read_from_i_register,
            post,
            r2,
        ),
    ensures
        r1 == Ok::<(), EmulatorError>(()),
        r2 == Ok::<(), EmulatorError>(()),
        same_pixels(&pre.platform, &post.platform),
        ({
            let c = pre.model();
            let n = bytes_to_read_from_i_register.0 as int;
            let start = c.i_register as int;
            let w = pre.platform.display_width() as int;
            let h = pre.platform.display_height() as int;
            let x0 = c.v_registers[read_x_axis_from.index()] as int % w;
            let y0 = c.v_registers[read_y_axis_from.index()] as int % h;
            let sprite = c.memory.subrange(start, start + n);
            let rows = if n <= h - y0 {
                n
            } else {
                h - y0
            };
            let cols = if 8 <= w - x0 {
                8int
            } else {
                w - x0
            };
            (forall|cc: int, rr: int| !pre.platform.pixel_on(cc, rr)) ==> {
                &&& mid.v_registers@[FLAG_REGISTER as int] == 0
                &&& post.v_registers@[FLAG_REGISTER as int] == 1 <==> draw_touches(
                    sprite,
                    x0,
                    y0,
                    rows,
                    cols,
                )
            }
        }),
{
    let c = pre.model();
    let n = bytes_to_read_from_i_register.0 as int;
    let start = c.i_register as int;
    let w = pre.platform.display_width() as int;
    let h = pre.platform.display_height() as int;
    let x0 = c.v_registers[read_x_axis_from.index()] as int % w;
    let y0 = c.v_registers[read_y_axis_from.index()] as int % h;
    let sprite = c.memory.subrange(start, start + n);
    let rows = if n <= h - y0 {
        n
    } else {
        h - y0
    };
    let cols = if 8 <= w - x0 {
        8int
    } else {
        w - x0
    };
    // The second draw reads the same parameters: the first changed only
    // register VF and the display.
    let c2 = mid.model();
    assert(c2.v_registers[read_x_axis_from.index()]
        == c.v_registers[read_x_axis_from.index()]);
    assert(c2.v_registers[read_y_axis_from.index()]
        == c.v_registers[read_y_axis_from.index()]);
    assert(c2.i_register == c.i_register);
    assert(c2.memory == c.memory);
    let w2 = mid.platform.display_width() as int;
    let h2 = mid.platform.display_height() as int;
    assert(w2 == w);
    assert(h2 == h);
    assert(mid.platform.display_width() as int == w);
    // Pixel involution.
    assert forall|cc: int, rr: int|
        #![trigger pre.platform.pixel_on(cc, rr)]
        #![trigger post.platform.pixel_on(cc, rr)]
        post.platform.pixel_on(cc, rr) == pre.platform.pixel_on(cc, rr) by {
        if draw_hit(sprite, x0, y0, rows, cols, cc, rr) {
            assert(mid.platform.pixel_on(cc, rr) == !pre.platform.pixel_on(cc, rr));
            assert(post.platform.pixel_on(cc, rr) == !mid.platform.pixel_on(cc, rr));
        } else {
            assert(mid.platform.pixel_on(cc, rr) == pre.platform.pixel_on(cc, rr));
            assert(post.platform.pixel_on(cc, rr) == mid.platform.pixel_on(cc, rr));
        }
    }
    // Collision flags on a display that started dark.
    if forall|cc: int, rr: int| !pre.platform.pixel_on(cc, rr) {
        if draw_collision(&pre.platform, sprite, x0, y0, rows, cols) {
            let (wc, wr) = choose|wc: int, wr: int|
                #[trigger] draw_hit(sprite, x0, y0, rows, cols, wc, wr)
                    && pre.platform.pixel_on(wc, wr);
            assert(!pre.platform.pixel_on(wc, wr));
            assert(false);
        }
        assert(mid.v_registers@[FLAG_REGISTER as int] == 0);
        if draw_collision(&mid.platform, sprite, x0, y0, rows, cols) {
            let (wc, wr) = choose|wc: int, wr: int|
                #[trigger] draw_hit(sprite, x0, y0, rows, cols, wc, wr)
                    && mid.platform.pixel_on(wc, wr);
            assert(draw_touches(sprite, x0, y0, rows, cols));
        }
        if draw_touches(sprite, x0, y0, rows, cols) {
            let (wc, wr) = choose|wc: int, wr: int|
                #[trigger] draw_hit(sprite, x0, y0, rows, cols, wc, wr);
            assert(mid.platform.pixel_on(wc, wr) == !pre.platform.pixel_on(wc, wr));
            assert(mid.platform.pixel_on(wc, wr));
            assert(draw_collision(&mid.platform, sprite, x0, y0, rows, cols));
        }
        assert(post.v_registers@[FLAG_REGISTER as int] == 1 <==> draw_touches(
            sprite,
            x0,
            y0,
            rows,
            cols,
        ));
    }
}

} // verus!
