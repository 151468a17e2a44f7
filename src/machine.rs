use vstd::prelude::*;

verus! {

/// Bytes of addressable memory.
pub const RAM_SIZE: usize = 0x2000;

/// Entries of the call stack.
pub const STACK_SIZE: usize = 16;

/// General-purpose registers `V0` to `VF`.
pub const NUM_REGISTERS: usize = 16;

/// Keys of the hexadecimal keypad.
pub const NUM_KEYS: usize = 16;

/// Framebuffer width in pixels.
pub const DISP_WIDTH: usize = 64;

/// Framebuffer height in pixels.
pub const DISP_HEIGHT: usize = 32;

/// Address at which a program is loaded and execution starts.
pub const PROGRAM_START: usize = 0x200;

/// Bytes per glyph of the built-in font.
pub const FONT_GLYPH_BYTES: usize = 5;

/// Milliseconds between two decrements of the timers (about 60 Hz).
pub const TIMER_PERIOD_MS: u64 = 17;

/// Index of the flag register `VF`.
pub const FLAG_REGISTER: usize = 0xF;

/// Fatal conditions that stop the machine. The state is left as it was
/// before the failing instruction.
#[derive(PartialEq, Eq, Structural, Debug, Clone, Copy)]
pub enum VmError {
    /// The instruction word matches no operation of the instruction set.
    UnknownOpcode(u16),
    /// A `call` with every stack entry in use.
    StackOverflow,
    /// A `return` with an empty stack.
    StackUnderflow,
    /// The program counter does not address a whole instruction in memory.
    PcOutOfBounds(usize),
    /// An access through `I` (holding the given value) leaves memory.
    MemoryOutOfBounds(u16),
    /// A key instruction named a register whose value is not a key index.
    KeyOutOfRange(u8),
    /// A program image of the given length does not fit in memory.
    ProgramTooLarge(usize),
}

/// The mathematical state of the machine.
pub struct VmState {
    pub memory: Seq<u8>,
    pub stack: Seq<usize>,
    pub registers: Seq<u8>,
    pub pc: usize,
    pub sp: usize,
    pub i_register: u16,
    pub keys: Seq<bool>,
    /// Pixels row by row: the pixel at column `x`, row `y` is at `y * 64 + x`.
    pub display: Seq<bool>,
    pub dirty: bool,
    pub delay_timer: u8,
    pub sound_timer: u8,
}

/// The built-in font: sixteen glyphs of five rows, for the digits 0 to F.
pub open spec fn font() -> Seq<u8> {
    seq![
        0xF0u8, 0x90, 0x90, 0x90, 0xF0,
        0x20, 0x60, 0x20, 0x20, 0x70,
        0xF0, 0x10, 0xF0, 0x80, 0xF0,
        0xF0, 0x10, 0xF0, 0x10, 0xF0,
        0x90, 0x90, 0xF0, 0x10, 0x10,
        0xF0, 0x80, 0xF0, 0x10, 0xF0,
        0xF0, 0x80, 0xF0, 0x90, 0xF0,
        0xF0, 0x10, 0x20, 0x40, 0x40,
        0xF0, 0x90, 0xF0, 0x90, 0xF0,
        0xF0, 0x90, 0xF0, 0x10, 0xF0,
        0xF0, 0x90, 0xF0, 0x90, 0x90,
        0xE0, 0x90, 0xE0, 0x90, 0xE0,
        0xF0, 0x80, 0x80, 0x80, 0xF0,
        0xE0, 0x90, 0x90, 0x90, 0xE0,
        0xF0, 0x80, 0xF0, 0x80, 0xF0,
        0xF0, 0x80, 0xF0, 0x80, 0x80,
    ]
}

impl VmState {
    /// The state's shape: sizes of all tables, and a program counter and
    /// return addresses near memory.
    pub open spec fn wf(self) -> bool {
        &&& self.memory.len() == RAM_SIZE
        &&& self.stack.len() == STACK_SIZE
        &&& self.registers.len() == NUM_REGISTERS
        &&& self.keys.len() == NUM_KEYS
        &&& self.display.len() == DISP_WIDTH * DISP_HEIGHT
        &&& self.pc <= RAM_SIZE + 2
        &&& self.sp < STACK_SIZE
        &&& forall|k: int| 0 <= k < STACK_SIZE ==> #[trigger] self.stack[k] <= RAM_SIZE + 2
    }

    /// The state after a reset: everything zero, the program counter at
    /// the program's start.
    pub open spec fn zeroed() -> VmState {
        VmState {
            memory: Seq::new(RAM_SIZE as nat, |a: int| 0u8),
            stack: Seq::new(STACK_SIZE as nat, |k: int| 0usize),
            registers: Seq::new(NUM_REGISTERS as nat, |k: int| 0u8),
            pc: PROGRAM_START,
            sp: 0,
            i_register: 0,
            keys: Seq::new(NUM_KEYS as nat, |k: int| false),
            display: Seq::new((DISP_WIDTH * DISP_HEIGHT) as nat, |p: int| false),
            dirty: false,
            delay_timer: 0,
            sound_timer: 0,
        }
    }

    /// Memory with the font at its lowest addresses.
    pub open spec fn with_font(self) -> VmState {
        VmState {
            memory: font() + self.memory.subrange(font().len() as int, self.memory.len() as int),
            ..self
        }
    }

    /// Memory with `program` copied from the program start on.
    pub open spec fn with_program(self, program: Seq<u8>) -> VmState {
        VmState {
            memory: self.memory.subrange(0, PROGRAM_START as int) + program
                + self.memory.subrange(PROGRAM_START + program.len(), self.memory.len() as int),
            ..self
        }
    }

    /// The program counter moved on by `n` bytes.
    pub open spec fn advance(self, n: int) -> VmState {
        VmState { pc: (self.pc + n) as usize, ..self }
    }

    /// Register `x` set to `v`.
    pub open spec fn set_reg(self, x: int, v: u8) -> VmState {
        VmState { registers: self.registers.update(x, v), ..self }
    }

    /// Value of register `x`.
    pub open spec fn reg(self, x: int) -> int {
        self.registers[x] as int
    }
}

/// The whole machine.
pub struct Core {
    pub memory: Vec<u8>,
    pub stack: Vec<usize>,
    pub registers: Vec<u8>,
    pub pc: usize,
    pub sp: usize,
    pub i_register: u16,
    pub inputs: Vec<bool>,
    pub display: Vec<bool>,
    pub update_display: bool,
    pub delay_timer: u8,
    pub sound_timer: u8,
}

impl View for Core {
    type V = VmState;

    open spec fn view(&self) -> VmState {
        VmState {
            memory: self.memory@,
            stack: self.stack@,
            registers: self.registers@,
            pc: self.pc,
            sp: self.sp,
            i_register: self.i_register,
            keys: self.inputs@,
            display: self.display@,
            dirty: self.update_display,
            delay_timer: self.delay_timer,
            sound_timer: self.sound_timer,
        }
    }
}

impl Core {
    pub open spec fn wf(&self) -> bool {
        self@.wf()
    }

    /// A machine with zeroed memory, registers, stack, keys, display and
    /// timers, and the program counter at the program's start.
    pub fn new() -> (r: Core)
        ensures
            r.wf(),
            r@ == VmState::zeroed(),
    {
        let r = Core {
            memory: vec![0u8; RAM_SIZE],
            stack: vec![0usize; STACK_SIZE],
            registers: vec![0u8; NUM_REGISTERS],
            pc: PROGRAM_START,
            sp: 0,
            i_register: 0,
            inputs: vec![false; NUM_KEYS],
            display: vec![false; DISP_WIDTH * DISP_HEIGHT],
            update_display: false,
            delay_timer: 0,
            sound_timer: 0,
        };
        assert(r.memory@ =~= VmState::zeroed().memory);
        assert(r.stack@ =~= VmState::zeroed().stack);
        assert(r.registers@ =~= VmState::zeroed().registers);
        assert(r.inputs@ =~= VmState::zeroed().keys);
        assert(r.display@ =~= VmState::zeroed().display);
        r
    }

    /// Copies the built-in font into memory from address 0 on.
    pub fn read_font(&mut self)
        requires
            old(self).wf(),
        ensures
            final(self).wf(),
            final(self)@ == old(self)@.with_font(),
    {
        let fonts: Vec<u8> = vec![
            0xF0, 0x90, 0x90, 0x90, 0xF0, // 0
            0x20, 0x60, 0x20, 0x20, 0x70, // 1
            0xF0, 0x10, 0xF0, 0x80, 0xF0, // 2
            0xF0, 0x10, 0xF0, 0x10, 0xF0, // 3
            0x90, 0x90, 0xF0, 0x10, 0x10, // 4
            0xF0, 0x80, 0xF0, 0x10, 0xF0, // 5
            0xF0, 0x80, 0xF0, 0x90, 0xF0, // 6
            0xF0, 0x10, 0x20, 0x40, 0x40, // 7
            0xF0, 0x90, 0xF0, 0x90, 0xF0, // 8
            0xF0, 0x90, 0xF0, 0x10, 0xF0, // 9
            0xF0, 0x90, 0xF0, 0x90, 0x90, // A
            0xE0, 0x90, 0xE0, 0x90, 0xE0, // B
            0xF0, 0x80, 0x80, 0x80, 0xF0, // C
            0xE0, 0x90, 0x90, 0x90, 0xE0, // D
            0xF0, 0x80, 0xF0, 0x80, 0xF0, // E
            0xF0, 0x80, 0xF0, 0x80, 0x80, // F
        ];
        assert(fonts@ =~= font());
        let ghost pre = self@;
        let mut i: usize = 0;
        while i < fonts.len()
            invariant
                pre == old(self)@,
                pre.wf(),
                fonts@ == font(),
                0 <= i <= fonts.len(),
                self@ == (VmState { memory: self@.memory, ..pre }),
                self.memory@.len() == RAM_SIZE,
                forall|a: int|
                    0 <= a < RAM_SIZE ==> #[trigger] self.memory@[a] == if a < i {
                        font()[a]
                    } else {
                        pre.memory[a]
                    },
            decreases fonts.len() - i,
        {
            self.memory.set(i, fonts[i]);
            i += 1;
        }
        assert(self.memory@ =~= pre.with_font().memory);
    }

    /// Copies a program image into memory from the program start on; fails,
    /// changing nothing, if it does not fit.
    pub fn load_program(&mut self, program: &[u8]) -> (r: Result<(), VmError>)
        requires
            old(self).wf(),
        ensures
            final(self).wf(),
            r is Ok <==> PROGRAM_START + program@.len() <= RAM_SIZE,
            r is Ok ==> final(self)@ == old(self)@.with_program(program@),
            r is Err ==> r == Err::<(), VmError>(VmError::ProgramTooLarge(program@.len() as usize))
                && final(self)@ == old(self)@,
    {
        if program.len() > RAM_SIZE - PROGRAM_START {
            return Err(VmError::ProgramTooLarge(program.len()));
        }
        let ghost pre = self@;
        let mut i: usize = 0;
        while i < program.len()
            invariant
                pre == old(self)@,
                pre.wf(),
                PROGRAM_START + program@.len() <= RAM_SIZE,
                0 <= i <= program@.len(),
                self@ == (VmState { memory: self@.memory, ..pre }),
                self.memory@.len() == RAM_SIZE,
                forall|a: int|
                    0 <= a < RAM_SIZE ==> #[trigger] self.memory@[a] == if PROGRAM_START <= a
                        < PROGRAM_START + i {
                        program@[a - PROGRAM_START]
                    } else {
                        pre.memory[a]
                    },
            decreases program@.len() - i,
        {
            self.memory.set(PROGRAM_START + i, program[i]);
            i += 1;
        }
        assert(self.memory@ =~= pre.with_program(program@).memory);
        Ok(())
    }

    /// A machine ready to run `program`: zeroed state, the font in low
    /// memory, the program from the program start on. Fails if the program
    /// does not fit.
    pub fn initialize(program: &[u8]) -> (r: Result<Core, VmError>)
        ensures
            r is Ok <==> PROGRAM_START + program@.len() <= RAM_SIZE,
            r matches Ok(c) ==> c.wf() && c@ == VmState::zeroed().with_font().with_program(
                program@,
            ),
            r is Err ==> r == Err::<Core, VmError>(VmError::ProgramTooLarge(program@.len() as usize)),
    {
        let mut core = Core::new();
        core.read_font();
        match core.load_program(program) {
            Ok(()) => Ok(core),
            Err(e) => Err(e),
        }
    }

    /// Advances the timer clock by `elapsed_ms` milliseconds since the last
    /// decrement: once a full period has passed, both timers count down by
    /// one, stopping at zero, and the result is `true` (the caller restarts
    /// its measurement). Otherwise nothing changes.
    pub fn tick_timers(&mut self, elapsed_ms: u64) -> (fired: bool)
        requires
            old(self).wf(),
        ensures
            final(self).wf(),
            fired == (elapsed_ms >= TIMER_PERIOD_MS),
            final(self)@ == if fired {
                VmState {
                    delay_timer: if old(self).delay_timer > 0 { (old(self).delay_timer - 1) as u8 } else { 0 },
                    sound_timer: if old(self).sound_timer > 0 { (old(self).sound_timer - 1) as u8 } else { 0 },
                    ..old(self)@
                }
            } else {
                old(self)@
            },
    {
        if elapsed_ms < TIMER_PERIOD_MS {
            return false;
        }
        if self.delay_timer > 0 {
            self.delay_timer = self.delay_timer - 1;
        }
        if self.sound_timer > 0 {
            self.sound_timer = self.sound_timer - 1;
        }
        true
    }

    /// Sets the latch of key `index`: pressed or released.
    pub fn set_key(&mut self, index: usize, pressed: bool)
        requires
            old(self).wf(),
            index < NUM_KEYS,
        ensures
            final(self).wf(),
            final(self)@ == (VmState { keys: old(self)@.keys.update(index as int, pressed), ..old(self)@ }),
    {
        self.inputs.set(index, pressed);
    }

    /// Whether key `index` is latched as pressed.
    pub fn get_key(&self, index: usize) -> (r: bool)
        requires
            self.wf(),
            index < NUM_KEYS,
        ensures
            r == self@.keys[index as int],
    {
        self.inputs[index]
    }

    /// Whether the pixel at column `x`, row `y` is lit.
    pub fn pixel(&self, x: usize, y: usize) -> (r: bool)
        requires
            self.wf(),
            x < DISP_WIDTH,
            y < DISP_HEIGHT,
        ensures
            r == self@.display[y * DISP_WIDTH + x],
    {
        self.display[y * DISP_WIDTH + x]
    }

    /// Whether the framebuffer changed since the renderer last consumed it.
    pub fn display_dirty(&self) -> (r: bool)
        ensures
            r == self@.dirty,
    {
        self.update_display
    }

    /// Records that the renderer has consumed the framebuffer.
    pub fn mark_display_consumed(&mut self)
        requires
            old(self).wf(),
        ensures
            final(self).wf(),
            final(self)@ == (VmState { dirty: false, ..old(self)@ }),
    {
        self.update_display = false;
    }

    /// The value of register `Vx`.
    pub fn register(&self, x: usize) -> (r: u8)
        requires
            self.wf(),
            x < NUM_REGISTERS,
        ensures
            r == self@.registers[x as int],
    {
        self.registers[x]
    }

    /// The byte at memory address `addr`.
    pub fn memory_at(&self, addr: usize) -> (r: u8)
        requires
            self.wf(),
            addr < RAM_SIZE,
        ensures
            r == self@.memory[addr as int],
    {
        self.memory[addr]
    }
}

} // verus!
