use vstd::prelude::*;
use crate::display::{collides, draw_spec, Display, HEIGHT, PIXEL_COUNT, WIDTH};
use crate::keypad::{is_lowest_pressed, some_pressed, Keypad, KEY_COUNT};
use crate::timers::{beeps, tick_spec, Timers};

verus! {

/// Size of the addressable memory in bytes.
pub const MEMORY_SIZE: usize = 4096;

/// Address where programs are loaded and execution starts.
pub const PROGRAM_START: u16 = 0x200;

/// Number of general-purpose registers, `V0` to `VF`.
pub const REGISTER_COUNT: usize = 16;

/// Capacity of the return-address stack.
pub const STACK_DEPTH: usize = 16;

/// Size of the built-in font table: sixteen glyphs of five bytes each.
pub const FONT_SIZE: usize = 80;

/// The register that arithmetic, shift and draw instructions use as a flag.
pub const FLAG: usize = 15;

/// What can go wrong in one cycle or while loading a program.
#[derive(Debug, Clone, Copy, PartialEq, Eq, Structural)]
pub enum Fault {
    /// The opcode matches no instruction.
    UnknownOpcode(u16),
    /// A subroutine call with the stack already full.
    StackOverflow,
    /// A return with the stack empty.
    StackUnderflow,
    /// An instruction or fetch addresses memory past its last byte.
    MemoryOutOfRange,
    /// A key instruction names a key past the sixteenth.
    KeyOutOfRange,
    /// The program does not fit between the load address and the end of memory.
    ProgramTooLarge,
}

/// The whole machine state, as contracts see it. A well-formed state keeps
/// every stacked return address below the last memory address, since only
/// addresses that were fetched from are pushed.
#[verifier::ext_equal]
pub struct Machine {
    pub memory: Seq<u8>,
    pub v: Seq<u8>,
    pub index: u16,
    pub pc: u16,
    pub stack: Seq<u16>,
    pub sp: u16,
    pub pixels: Seq<bool>,
    pub redraw: bool,
    pub timers: Timers,
    pub keys: Seq<bool>,
}

/// The built-in glyphs of the hexadecimal digits, five bytes each.
pub open spec fn font_glyphs() -> Seq<u8> {
    seq![
        0xF0u8, 0x90, 0x90, 0x90, 0xF0, 0x20, 0x60, 0x20, 0x20, 0x70,
        0xF0, 0x10, 0xF0, 0x80, 0xF0, 0xF0, 0x10, 0xF0, 0x10, 0xF0,
        0x90, 0x90, 0xF0, 0x10, 0x10, 0xF0, 0x80, 0xF0, 0x10, 0xF0,
        0xF0, 0x80, 0xF0, 0x90, 0xF0, 0xF0, 0x10, 0x20, 0x40, 0x40,
        0xF0, 0x90, 0xF0, 0x90, 0xF0, 0xF0, 0x90, 0xF0, 0x10, 0xF0,
        0xF0, 0x90, 0xF0, 0x90, 0x90, 0xE0, 0x90, 0xE0, 0x90, 0xE0,
        0xF0, 0x80, 0x80, 0x80, 0xF0, 0xE0, 0x90, 0x90, 0x90, 0xE0,
        0xF0, 0x80, 0xF0, 0x80, 0xF0, 0xF0, 0x80, 0xF0, 0x80, 0x80,
    ]
}

/// Register index in bits 8 to 11 of an opcode.
pub open spec fn op_x(op: u16) -> int {
    (op as int / 256) % 16
}

/// Register index in bits 4 to 7 of an opcode.
pub open spec fn op_y(op: u16) -> int {
    (op as int / 16) % 16
}

/// The low nibble of an opcode.
pub open spec fn op_n(op: u16) -> int {
    op as int % 16
}

/// The low byte of an opcode.
pub open spec fn op_nn(op: u16) -> u8 {
    (op as int % 256) as u8
}

/// The 12-bit address in the low bits of an opcode.
pub open spec fn op_nnn(op: u16) -> u16 {
    (op as int % 4096) as u16
}

impl Machine {
    pub open spec fn wf(self) -> bool {
        &&& self.memory.len() == MEMORY_SIZE
        &&& self.v.len() == REGISTER_COUNT
        &&& self.stack.len() == STACK_DEPTH
        &&& self.sp <= STACK_DEPTH
        &&& self.pixels.len() == PIXEL_COUNT
        &&& self.keys.len() == KEY_COUNT
        &&& forall|i: int| 0 <= i < STACK_DEPTH ==> self.stack[i] < MEMORY_SIZE - 1
    }

    /// The state with the program counter moved on by `by` bytes.
    pub open spec fn advance(self, by: int) -> Machine {
        Machine { pc: (self.pc + by) as u16, ..self }
    }

    /// The state with register `i` set to `b`.
    pub open spec fn set_v(self, i: int, b: u8) -> Machine {
        Machine { v: self.v.update(i, b), ..self }
    }

    /// The state after a conditional skip: the next instruction is passed
    /// over when `cond` holds.
    pub open spec fn skip_if(self, cond: bool) -> Machine {
        self.advance(if cond { 4 } else { 2 })
    }

    /// The opcode at the program counter, high byte first.
    pub open spec fn fetch(self) -> u16 {
        (self.memory[self.pc as int] as int * 256 + self.memory[self.pc + 1] as int) as u16
    }
}

/// The `8xy_` register-to-register instructions, selected by the low nibble.
/// The flag is written last, so it survives when `x` is the flag register.
pub open spec fn arith_spec(next: Machine, op: u16, x: int, vx: u8, vy: u8) -> Result<
    Machine,
    Fault,
> {
    let sel = op_n(op);
    if sel == 0 {
        Ok(next.set_v(x, vy))
    } else if sel == 1 {
        Ok(next.set_v(x, vx | vy))
    } else if sel == 2 {
        Ok(next.set_v(x, vx & vy))
    } else if sel == 3 {
        Ok(next.set_v(x, vx ^ vy))
    } else if sel == 4 {
        Ok(
            next.set_v(x, ((vx + vy) % 256) as u8).set_v(
                FLAG as int,
                if vx + vy > 255 {
                    1
                } else {
                    0
                },
            ),
        )
    } else if sel == 5 {
        Ok(
            next.set_v(x, ((vx - vy + 256) % 256) as u8).set_v(
                FLAG as int,
                if vx >= vy {
                    1
                } else {
                    0
                },
            ),
        )
    } else if sel == 6 {
        Ok(next.set_v(x, vx / 2).set_v(FLAG as int, vx % 2))
    } else if sel == 7 {
        Ok(
            next.set_v(x, ((vy - vx + 256) % 256) as u8).set_v(
                FLAG as int,
                if vy >= vx {
                    1
                } else {
                    0
                },
            ),
        )
    } else if sel == 0xE {
        Ok(next.set_v(x, ((vx * 2) % 256) as u8).set_v(FLAG as int, vx / 128))
    } else {
        Err(Fault::UnknownOpcode(op))
    }
}

/// The memory after `Fx55` stores `V0..=Vx` from address `index` on.
pub open spec fn store_registers(m: Machine, x: int) -> Seq<u8> {
    Seq::new(
        m.memory.len(),
        |a: int|
            if m.index <= a <= m.index + x {
                m.v[a - m.index]
            } else {
                m.memory[a]
            },
    )
}

/// The registers after `Fx65` loads `V0..=Vx` from address `index` on.
pub open spec fn load_registers(m: Machine, x: int) -> Seq<u8> {
    Seq::new(
        m.v.len(),
        |i: int|
            if i <= x {
                m.memory[m.index + i]
            } else {
                m.v[i]
            },
    )
}

/// The `Fx__` instructions, selected by the low byte. `Fx1E` wraps the
/// index register at sixteen bits; memory transfers past the last address
/// fail.
pub open spec fn misc_spec(m: Machine, op: u16) -> Result<Machine, Fault> {
    let x = op_x(op);
    let vx = m.v[x];
    let next = m.advance(2);
    let sel = op_nn(op);
    if sel == 0x07 {
        Ok(next.set_v(x, m.timers.delay))
    } else if sel == 0x0A {
        if some_pressed(m.keys) {
            Ok(next.set_v(x, (choose|i: int| is_lowest_pressed(m.keys, i)) as u8))
        } else {
            Ok(m)
        }
    } else if sel == 0x15 {
        Ok(Machine { timers: Timers { delay: vx, ..m.timers }, ..next })
    } else if sel == 0x18 {
        Ok(Machine { timers: Timers { sound: vx, ..m.timers }, ..next })
    } else if sel == 0x1E {
        Ok(
            Machine { index: ((m.index + vx) % 0x10000) as u16, ..next }.set_v(
                FLAG as int,
                if m.index + vx > 0xFFF {
                    1
                } else {
                    0
                },
            ),
        )
    } else if sel == 0x29 {
        Ok(Machine { index: (vx * 5) as u16, ..next })
    } else if sel == 0x33 {
        if m.index + 3 > MEMORY_SIZE {
            Err(Fault::MemoryOutOfRange)
        } else {
            Ok(
                Machine {
                    memory: m.memory.update(m.index as int, vx / 100).update(
                        m.index + 1,
                        (vx / 10) % 10,
                    ).update(m.index + 2, vx % 10),
                    ..next
                },
            )
        }
    } else if sel == 0x55 {
        if m.index + x + 1 > MEMORY_SIZE {
            Err(Fault::MemoryOutOfRange)
        } else {
            Ok(
                Machine {
                    memory: store_registers(m, x),
                    index: (m.index + x + 1) as u16,
                    ..next
                },
            )
        }
    } else if sel == 0x65 {
        if m.index + x + 1 > MEMORY_SIZE {
            Err(Fault::MemoryOutOfRange)
        } else {
            Ok(Machine { v: load_registers(m, x), index: (m.index + x + 1) as u16, ..next })
        }
    } else {
        Err(Fault::UnknownOpcode(op))
    }
}

/// The effect of executing `op` on `m`, before the timers tick. `random_byte`
/// is the value that `Cxnn` masks. `Fx0A` with no key pressed succeeds and
/// leaves the program counter where it is, so it runs again next cycle.
pub open spec fn execute_spec(m: Machine, op: u16, random_byte: u8) -> Result<Machine, Fault> {
    let x = op_x(op);
    let y = op_y(op);
    let vx = m.v[x];
    let vy = m.v[y];
    let nn = op_nn(op);
    let nnn = op_nnn(op);
    let next = m.advance(2);
    let family = op / 4096;
    if family == 0 {
        if op == 0x00E0 {
            Ok(Machine { pixels: Seq::new(PIXEL_COUNT as nat, |p: int| false), redraw: true, ..next })
        } else if op == 0x00EE {
            if m.sp == 0 {
                Err(Fault::StackUnderflow)
            } else {
                Ok(Machine { sp: (m.sp - 1) as u16, pc: (m.stack[m.sp - 1] + 2) as u16, ..m })
            }
        } else {
            Err(Fault::UnknownOpcode(op))
        }
    } else if family == 1 {
        Ok(Machine { pc: nnn, ..m })
    } else if family == 2 {
        if m.sp >= STACK_DEPTH {
            Err(Fault::StackOverflow)
        } else {
            Ok(Machine { stack: m.stack.update(m.sp as int, m.pc), sp: (m.sp + 1) as u16, pc: nnn, ..m })
        }
    } else if family == 3 {
        Ok(m.skip_if(vx == nn))
    } else if family == 4 {
        Ok(m.skip_if(vx != nn))
    } else if family == 5 {
        if op_n(op) == 0 {
            Ok(m.skip_if(vx == vy))
        } else {
            Err(Fault::UnknownOpcode(op))
        }
    } else if family == 6 {
        Ok(next.set_v(x, nn))
    } else if family == 7 {
        Ok(next.set_v(x, ((vx + nn) % 256) as u8))
    } else if family == 8 {
        arith_spec(next, op, x, vx, vy)
    } else if family == 9 {
        if op_n(op) == 0 {
            Ok(m.skip_if(vx != vy))
        } else {
            Err(Fault::UnknownOpcode(op))
        }
    } else if family == 0xA {
        Ok(Machine { index: nnn, ..next })
    } else if family == 0xB {
        Ok(Machine { pc: (nnn + m.v[0]) as u16, ..m })
    } else if family == 0xC {
        Ok(next.set_v(x, random_byte & nn))
    } else if family == 0xD {
        let n = op_n(op);
        if m.index + n > MEMORY_SIZE {
            Err(Fault::MemoryOutOfRange)
        } else {
            let rows = m.memory.subrange(m.index as int, m.index + n);
            Ok(
                Machine {
                    pixels: draw_spec(m.pixels, rows, vx as int, vy as int),
                    redraw: true,
                    ..next
                }.set_v(
                    FLAG as int,
                    if collides(m.pixels, rows, vx as int, vy as int) {
                        1
                    } else {
                        0
                    },
                ),
            )
        }
    } else if family == 0xE {
        if nn != 0x9E && nn != 0xA1 {
            Err(Fault::UnknownOpcode(op))
        } else if vx >= KEY_COUNT {
            Err(Fault::KeyOutOfRange)
        } else if nn == 0x9E {
            Ok(m.skip_if(m.keys[vx as int]))
        } else {
            Ok(m.skip_if(!m.keys[vx as int]))
        }
    } else {
        misc_spec(m, op)
    }
}

/// One full cycle: fetch at the program counter, execute, then tick the
/// timers. On success it gives the new state and whether a beep is due.
pub open spec fn cycle_spec(m: Machine, random_byte: u8) -> Result<(Machine, bool), Fault> {
    if m.pc + 1 >= MEMORY_SIZE {
        Err(Fault::MemoryOutOfRange)
    } else {
        match execute_spec(m, m.fetch(), random_byte) {
            Ok(n) => Ok((Machine { timers: tick_spec(n.timers), ..n }, beeps(n.timers))),
            Err(e) => Err(e),
        }
    }
}

/// Whether a step from `before` to `after` returning `r` is the outcome
/// `expected`: the new state on success, the old state and the same fault on
/// failure.
pub open spec fn follows(before: Machine, after: Machine, r: Result<(), Fault>, expected: Result<
    Machine,
    Fault,
>) -> bool {
    match expected {
        Ok(m) => r is Ok && after == m,
        Err(e) => r == Err::<(), Fault>(e) && after == before,
    }
}

/// Whether a cycle from `before` to `after` returning `r` is the outcome of
/// `cycle_spec` with `random_byte`.
pub open spec fn cycle_follows(before: Machine, after: Machine, r: Result<bool, Fault>, random_byte: u8) -> bool {
    match cycle_spec(before, random_byte) {
        Ok((m, beep)) => r == Ok::<bool, Fault>(beep) && after == m,
        Err(e) => r == Err::<bool, Fault>(e) && after == before,
    }
}

/// A CHIP-8 machine: memory, registers, stack, timers, framebuffer and keypad.
pub struct Chip8 {
    memory: Vec<u8>,
    v: Vec<u8>,
    index: u16,
    pc: u16,
    stack: Vec<u16>,
    sp: u16,
    display: Display,
    timers: Timers,
    keypad: Keypad,
}

impl View for Chip8 {
    type V = Machine;

    closed spec fn view(&self) -> Machine {
        Machine {
            memory: self.memory@,
            v: self.v@,
            index: self.index,
            pc: self.pc,
            stack: self.stack@,
            sp: self.sp,
            pixels: self.display@,
            redraw: self.display.redraw_pending(),
            timers: self.timers,
            keys: self.keypad@,
        }
    }
}

/// The state of a freshly made machine: everything zero, nothing pressed
/// or lit.
pub open spec fn blank() -> Machine {
    Machine {
        memory: Seq::new(MEMORY_SIZE as nat, |a: int| 0u8),
        v: Seq::new(REGISTER_COUNT as nat, |i: int| 0u8),
        index: 0,
        pc: 0,
        stack: Seq::new(STACK_DEPTH as nat, |i: int| 0u16),
        sp: 0,
        pixels: Seq::new(PIXEL_COUNT as nat, |p: int| false),
        redraw: false,
        timers: Timers { delay: 0, sound: 0 },
        keys: Seq::new(KEY_COUNT as nat, |i: int| false),
    }
}

/// The memory with `program` placed at the load address.
pub open spec fn with_program(memory: Seq<u8>, program: Seq<u8>) -> Seq<u8> {
    Seq::new(
        memory.len(),
        |a: int|
            if PROGRAM_START <= a < PROGRAM_START + program.len() {
                program[a - PROGRAM_START]
            } else {
                memory[a]
            },
    )
}

/// The memory with the font table at its start.
pub open spec fn with_font(memory: Seq<u8>) -> Seq<u8> {
    Seq::new(
        memory.len(),
        |a: int|
            if a < FONT_SIZE {
                font_glyphs()[a]
            } else {
                memory[a]
            },
    )
}

/// The font table as bytes.
fn font() -> (r: Vec<u8>)
    ensures
        r@ == font_glyphs(),
{
    let r: Vec<u8> = vec![
        0xF0, 0x90, 0x90, 0x90, 0xF0, 0x20, 0x60, 0x20, 0x20, 0x70,
        0xF0, 0x10, 0xF0, 0x80, 0xF0, 0xF0, 0x10, 0xF0, 0x10, 0xF0,
        0x90, 0x90, 0xF0, 0x10, 0x10, 0xF0, 0x80, 0xF0, 0x10, 0xF0,
        0xF0, 0x80, 0xF0, 0x90, 0xF0, 0xF0, 0x10, 0x20, 0x40, 0x40,
        0xF0, 0x90, 0xF0, 0x90, 0xF0, 0xF0, 0x90, 0xF0, 0x10, 0xF0,
        0xF0, 0x90, 0xF0, 0x90, 0x90, 0xE0, 0x90, 0xE0, 0x90, 0xE0,
        0xF0, 0x80, 0x80, 0x80, 0xF0, 0xE0, 0x90, 0x90, 0x90, 0xE0,
        0xF0, 0x80, 0xF0, 0x80, 0xF0, 0xF0, 0x80, 0xF0, 0x80, 0x80,
    ];
    assert(r@ =~= font_glyphs());
    r
}

/// Relies on rand::random: a byte drawn from the thread-local generator.
/// Nothing is known of its value.
#[verifier::external_body]
fn random_byte() -> (r: u8) {
    rand::random::<u8>()
}

impl Chip8 {
    pub open spec fn wf(&self) -> bool {
        self@.wf()
    }

    /// A machine with all memory, registers, timers and pixels zero.
    pub fn new() -> (r: Chip8)
        ensures
            r.wf(),
            r@ == blank(),
    {
        let r = Chip8 {
            memory: vec![0u8; MEMORY_SIZE],
            v: vec![0u8; REGISTER_COUNT],
            index: 0,
            pc: 0,
            stack: vec![0u16; STACK_DEPTH],
            sp: 0,
            display: Display::new(),
            timers: Timers::new(),
            keypad: Keypad::new(),
        };
        assert(r@ =~= blank());
        r
    }

    /// Copies the font table to the start of memory.
    pub fn load_font(&mut self)
        requires
            old(self).wf(),
        ensures
            final(self)@ == (Machine { memory: with_font(old(self)@.memory), ..old(self)@ }),
    {
        let glyphs = font();
        let mut i: usize = 0;
        while i < FONT_SIZE
            invariant
                self.wf(),
                i <= FONT_SIZE,
                glyphs@ == font_glyphs(),
                self@ == (Machine { memory: self@.memory, ..old(self)@ }),
                forall|a: int|
                    0 <= a < MEMORY_SIZE ==> #[trigger] self@.memory[a] == if a < i {
                        font_glyphs()[a]
                    } else {
                        old(self)@.memory[a]
                    },
            decreases FONT_SIZE - i,
        {
            self.memory[i] = glyphs[i];
            i = i + 1;
        }
        assert(self@.memory =~= with_font(old(self)@.memory));
    }

    /// Prepares the machine to run: loads the font and points the program
    /// counter at the load address.
    pub fn init(&mut self)
        requires
            old(self).wf(),
        ensures
            final(self).wf(),
            final(self)@ == (Machine {
                memory: with_font(old(self)@.memory),
                pc: PROGRAM_START,
                ..old(self)@
            }),
    {
        self.load_font();
        self.pc = PROGRAM_START;
    }

    /// Copies `program` into memory at the load address. Fails, changing
    /// nothing, when it does not fit before the end of memory.
    pub fn load_program(&mut self, program: &Vec<u8>) -> (r: Result<(), Fault>)
        requires
            old(self).wf(),
        ensures
            final(self).wf(),
            PROGRAM_START + program@.len() <= MEMORY_SIZE ==> r is Ok && final(self)@ == (Machine {
                memory: with_program(old(self)@.memory, program@),
                ..old(self)@
            }),
            PROGRAM_START + program@.len() > MEMORY_SIZE ==> r == Err::<(), Fault>(
                Fault::ProgramTooLarge,
            ) && final(self)@ == old(self)@,
    {
        if program.len() > MEMORY_SIZE - PROGRAM_START as usize {
            return Err(Fault::ProgramTooLarge);
        }
        let mut i: usize = 0;
        while i < program.len()
            invariant
                self.wf(),
                i <= program@.len() <= MEMORY_SIZE - PROGRAM_START,
                self@ == (Machine { memory: self@.memory, ..old(self)@ }),
                forall|a: int|
                    0 <= a < MEMORY_SIZE ==> #[trigger] self@.memory[a] == if PROGRAM_START <= a
                        < PROGRAM_START + i {
                        program@[a - PROGRAM_START]
                    } else {
                        old(self)@.memory[a]
                    },
            decreases program@.len() - i,
        {
            self.memory[PROGRAM_START as usize + i] = program[i];
            i = i + 1;
        }
        assert(self@.memory =~= with_program(old(self)@.memory, program@));
        Ok(())
    }
}


impl Chip8 {
    /// Jumps, subroutine calls and returns, and screen clearing: families
    /// `0`, `1`, `2` and `B`.
    fn exec_flow(&mut self, op: u16, random_byte: u8) -> (r: Result<(), Fault>)
        requires
            old(self).wf(),
            old(self)@.pc + 1 < MEMORY_SIZE,
            op / 4096 == 0 || op / 4096 == 1 || op / 4096 == 2 || op / 4096 == 0xB,
        ensures
            final(self).wf(),
            follows(old(self)@, final(self)@, r, execute_spec(old(self)@, op, random_byte)),
    {
        let nnn = op % 4096;
        let family = op / 4096;
        if family == 0 {
            if op == 0x00E0 {
                self.display.clear();
                self.pc = self.pc + 2;
                Ok(())
            } else if op == 0x00EE {
                if self.sp == 0 {
                    return Err(Fault::StackUnderflow);
                }
                self.sp = self.sp - 1;
                self.pc = self.stack[self.sp as usize] + 2;
                Ok(())
            } else {
                Err(Fault::UnknownOpcode(op))
            }
        } else if family == 1 {
            self.pc = nnn;
            Ok(())
        } else if family == 2 {
            if self.sp as usize >= STACK_DEPTH {
                return Err(Fault::StackOverflow);
            }
            self.stack[self.sp as usize] = self.pc;
            self.sp = self.sp + 1;
            self.pc = nnn;
            Ok(())
        } else {
            self.pc = nnn + self.v[0] as u16;
            Ok(())
        }
    }

    /// Conditional skips on registers and keys: families `3`, `4`, `5`, `9`
    /// and `E`.
    fn exec_skip(&mut self, op: u16, random_byte: u8) -> (r: Result<(), Fault>)
        requires
            old(self).wf(),
            old(self)@.pc + 1 < MEMORY_SIZE,
            op / 4096 == 3 || op / 4096 == 4 || op / 4096 == 5 || op / 4096 == 9 || op / 4096
                == 0xE,
        ensures
            final(self).wf(),
            follows(old(self)@, final(self)@, r, execute_spec(old(self)@, op, random_byte)),
    {
        let family = op / 4096;
        let vx = self.v[((op / 256) % 16) as usize];
        let vy = self.v[((op / 16) % 16) as usize];
        let nn = (op % 256) as u8;
        let skip: bool;
        if family == 3 {
            skip = vx == nn;
        } else if family == 4 {
            skip = vx != nn;
        } else if family == 5 || family == 9 {
            if op % 16 != 0 {
                return Err(Fault::UnknownOpcode(op));
            }
            skip = if family == 5 {
                vx == vy
            } else {
                vx != vy
            };
        } else {
            if nn != 0x9E && nn != 0xA1 {
                return Err(Fault::UnknownOpcode(op));
            }
            if vx as usize >= KEY_COUNT {
                return Err(Fault::KeyOutOfRange);
            }
            let pressed = self.keypad.is_pressed(vx as usize);
            skip = if nn == 0x9E {
                pressed
            } else {
                !pressed
            };
        }
        self.pc = if skip {
            self.pc + 4
        } else {
            self.pc + 2
        };
        Ok(())
    }

    /// Loads of constants, random bytes and the index register: families
    /// `6`, `7`, `A` and `C`.
    fn exec_load(&mut self, op: u16, random_byte: u8) -> (r: Result<(), Fault>)
        requires
            old(self).wf(),
            old(self)@.pc + 1 < MEMORY_SIZE,
            op / 4096 == 6 || op / 4096 == 7 || op / 4096 == 0xA || op / 4096 == 0xC,
        ensures
            final(self).wf(),
            follows(old(self)@, final(self)@, r, execute_spec(old(self)@, op, random_byte)),
    {
        let family = op / 4096;
        let x = ((op / 256) % 16) as usize;
        let nn = (op % 256) as u8;
        if family == 6 {
            self.v[x] = nn;
        } else if family == 7 {
            let vx = self.v[x];
            self.v[x] = ((vx as u16 + nn as u16) % 256) as u8;
        } else if family == 0xA {
            self.index = op % 4096;
        } else {
            self.v[x] = random_byte & nn;
        }
        self.pc = self.pc + 2;
        Ok(())
    }

    /// Register-to-register arithmetic and logic: family `8`.
    fn exec_arith(&mut self, op: u16, random_byte: u8) -> (r: Result<(), Fault>)
        requires
            old(self).wf(),
            old(self)@.pc + 1 < MEMORY_SIZE,
            op / 4096 == 8,
        ensures
            final(self).wf(),
            follows(old(self)@, final(self)@, r, execute_spec(old(self)@, op, random_byte)),
    {
        let x = ((op / 256) % 16) as usize;
        let vx = self.v[x];
        let vy = self.v[((op / 16) % 16) as usize];
        let sel = op % 16;
        if sel == 0 {
            self.v[x] = vy;
        } else if sel == 1 {
            self.v[x] = vx | vy;
        } else if sel == 2 {
            self.v[x] = vx & vy;
        } else if sel == 3 {
            self.v[x] = vx ^ vy;
        } else if sel == 4 {
            let sum: u16 = vx as u16 + vy as u16;
            self.v[x] = (sum % 256) as u8;
            self.v[FLAG] = if sum > 255 {
                1
            } else {
                0
            };
        } else if sel == 5 {
            self.v[x] = ((vx as u16 + 256 - vy as u16) % 256) as u8;
            self.v[FLAG] = if vx >= vy {
                1
            } else {
                0
            };
        } else if sel == 6 {
            self.v[x] = vx / 2;
            self.v[FLAG] = vx % 2;
        } else if sel == 7 {
            self.v[x] = ((vy as u16 + 256 - vx as u16) % 256) as u8;
            self.v[FLAG] = if vy >= vx {
                1
            } else {
                0
            };
        } else if sel == 0xE {
            self.v[x] = ((vx as u16 * 2) % 256) as u8;
            self.v[FLAG] = vx / 128;
        } else {
            return Err(Fault::UnknownOpcode(op));
        }
        self.pc = self.pc + 2;
        Ok(())
    }

    /// Sprite drawing: family `D`.
    fn exec_draw(&mut self, op: u16, random_byte: u8) -> (r: Result<(), Fault>)
        requires
            old(self).wf(),
            old(self)@.pc + 1 < MEMORY_SIZE,
            op / 4096 == 0xD,
        ensures
            final(self).wf(),
            follows(old(self)@, final(self)@, r, execute_spec(old(self)@, op, random_byte)),
    {
        let vx = self.v[((op / 256) % 16) as usize];
        let vy = self.v[((op / 16) % 16) as usize];
        let n = (op % 16) as usize;
        let start = self.index as usize;
        if start + n > MEMORY_SIZE {
            return Err(Fault::MemoryOutOfRange);
        }
        let mut rows: Vec<u8> = Vec::new();
        let mut k: usize = 0;
        while k < n
            invariant
                self.wf(),
                start + n <= MEMORY_SIZE,
                k <= n,
                rows@ == self@.memory.subrange(start as int, start + k),
            decreases n - k,
        {
            rows.push(self.memory[start + k]);
            k = k + 1;
            assert(rows@ =~= self@.memory.subrange(start as int, start + k));
        }
        let hit = self.display.draw_sprite(vx, vy, &rows);
        self.v[FLAG] = if hit {
            1
        } else {
            0
        };
        self.pc = self.pc + 2;
        Ok(())
    }
}

impl Chip8 {
    /// Timers, keys, the index register and memory transfers: family `F`.
    fn exec_misc(&mut self, op: u16, random_byte: u8) -> (r: Result<(), Fault>)
        requires
            old(self).wf(),
            old(self)@.pc + 1 < MEMORY_SIZE,
            op / 4096 == 0xF,
        ensures
            final(self).wf(),
            follows(old(self)@, final(self)@, r, execute_spec(old(self)@, op, random_byte)),
    {
        let x = ((op / 256) % 16) as usize;
        let vx = self.v[x];
        let sel = op % 256;
        let start = self.index as usize;
        if sel == 0x07 {
            self.v[x] = self.timers.delay;
        } else if sel == 0x0A {
            match self.keypad.any_pressed() {
                Some(k) => {
                    proof {
                        let keys = old(self)@.keys;
                        assert(forall|j: int| is_lowest_pressed(keys, j) ==> j == k);
                        assert(some_pressed(keys));
                    }
                    self.v[x] = k as u8;
                },
                None => {
                    return Ok(());
                },
            }
        } else if sel == 0x15 {
            self.timers.delay = vx;
        } else if sel == 0x18 {
            self.timers.sound = vx;
        } else if sel == 0x1E {
            let sum: u32 = self.index as u32 + vx as u32;
            self.index = (sum % 0x10000) as u16;
            self.v[FLAG] = if sum > 0xFFF {
                1
            } else {
                0
            };
        } else if sel == 0x29 {
            self.index = vx as u16 * 5;
        } else if sel == 0x33 {
            if start + 3 > MEMORY_SIZE {
                return Err(Fault::MemoryOutOfRange);
            }
            self.memory[start] = vx / 100;
            self.memory[start + 1] = (vx / 10) % 10;
            self.memory[start + 2] = vx % 10;
        } else if sel == 0x55 {
            if start + x + 1 > MEMORY_SIZE {
                return Err(Fault::MemoryOutOfRange);
            }
            let mut i: usize = 0;
            while i <= x
                invariant
                    self.wf(),
                    start == old(self)@.index,
                    x == op_x(op),
                    x < REGISTER_COUNT,
                    start + x + 1 <= MEMORY_SIZE,
                    i <= x + 1,
                    self@ == (Machine { memory: self@.memory, ..old(self)@ }),
                    forall|a: int|
                        0 <= a < MEMORY_SIZE ==> #[trigger] self@.memory[a] == if start <= a
                            < start + i {
                            old(self)@.v[a - start]
                        } else {
                            old(self)@.memory[a]
                        },
                decreases x + 1 - i,
            {
                self.memory[start + i] = self.v[i];
                i = i + 1;
            }
            self.index = (start + x + 1) as u16;
            assert(self@.memory =~= store_registers(old(self)@, x as int));
        } else if sel == 0x65 {
            if start + x + 1 > MEMORY_SIZE {
                return Err(Fault::MemoryOutOfRange);
            }
            let mut i: usize = 0;
            while i <= x
                invariant
                    self.wf(),
                    start == old(self)@.index,
                    x == op_x(op),
                    x < REGISTER_COUNT,
                    start + x + 1 <= MEMORY_SIZE,
                    i <= x + 1,
                    self@ == (Machine { v: self@.v, ..old(self)@ }),
                    forall|j: int|
                        0 <= j < REGISTER_COUNT ==> #[trigger] self@.v[j] == if j < i {
                            old(self)@.memory[start + j]
                        } else {
                            old(self)@.v[j]
                        },
                decreases x + 1 - i,
            {
                self.v[i] = self.memory[start + i];
                i = i + 1;
            }
            self.index = (start + x + 1) as u16;
            assert(self@.v =~= load_registers(old(self)@, x as int));
        } else {
            return Err(Fault::UnknownOpcode(op));
        }
        self.pc = self.pc + 2;
        Ok(())
    }

    /// Executes one opcode, without fetching it or ticking the timers.
    /// `random_byte` is the value that `Cxnn` masks. A failed instruction
    /// changes nothing.
    fn execute(&mut self, op: u16, random_byte: u8) -> (r: Result<(), Fault>)
        requires
            old(self).wf(),
            old(self)@.pc + 1 < MEMORY_SIZE,
        ensures
            final(self).wf(),
            follows(old(self)@, final(self)@, r, execute_spec(old(self)@, op, random_byte)),
    {
        let family = op / 4096;
        if family == 0 || family == 1 || family == 2 || family == 0xB {
            self.exec_flow(op, random_byte)
        } else if family == 3 || family == 4 || family == 5 || family == 9 || family == 0xE {
            self.exec_skip(op, random_byte)
        } else if family == 6 || family == 7 || family == 0xA || family == 0xC {
            self.exec_load(op, random_byte)
        } else if family == 8 {
            self.exec_arith(op, random_byte)
        } else if family == 0xD {
            self.exec_draw(op, random_byte)
        } else {
            self.exec_misc(op, random_byte)
        }
    }

    /// Runs one fetch-execute cycle with `random_byte` as the value that
    /// `Cxnn` masks, then ticks the timers. Returns whether the sound timer
    /// ran out on this cycle, which is when the host should beep. A fault
    /// leaves the machine as it was.
    pub fn run_cycle_with(&mut self, random_byte: u8) -> (r: Result<bool, Fault>)
        requires
            old(self).wf(),
        ensures
            final(self).wf(),
            cycle_follows(old(self)@, final(self)@, r, random_byte),
    {
        let pc = self.pc as usize;
        if pc + 1 >= MEMORY_SIZE {
            return Err(Fault::MemoryOutOfRange);
        }
        let op: u16 = self.memory[pc] as u16 * 256 + self.memory[pc + 1] as u16;
        match self.execute(op, random_byte) {
            Ok(()) => Ok(self.timers.tick()),
            Err(e) => Err(e),
        }
    }

    /// Runs one fetch-execute cycle, drawing the byte that `Cxnn` masks at
    /// random, then ticks the timers. Returns whether a beep is due.
    pub fn run_cycle(&mut self) -> (r: Result<bool, Fault>)
        requires
            old(self).wf(),
        ensures
            final(self).wf(),
            exists|b: u8| cycle_follows(old(self)@, final(self)@, r, b),
    {
        let b = random_byte();
        let r = self.run_cycle_with(b);
        assert(cycle_follows(old(self)@, self@, r, b));
        r
    }
}

/// The text picture of a framebuffer: one line of 64 characters per row,
/// `O` for an unlit pixel and a space for a lit one, then an empty line.
pub open spec fn render_spec(pixels: Seq<bool>) -> Seq<u8> {
    Seq::new(
        (HEIGHT * (WIDTH + 1) + 1) as nat,
        |k: int|
            if k % 65 == 64 || k == HEIGHT * (WIDTH + 1) {
                10u8
            } else if pixels[(k / 65) * 64 + k % 65] {
                32u8
            } else {
                79u8
            },
    )
}

impl Chip8 {
    pub fn pc(&self) -> (r: u16)
        ensures
            r == self@.pc,
    {
        self.pc
    }

    pub fn index(&self) -> (r: u16)
        ensures
            r == self@.index,
    {
        self.index
    }

    pub fn stack_pointer(&self) -> (r: u16)
        ensures
            r == self@.sp,
    {
        self.sp
    }

    /// The value of register `V{i}`.
    pub fn register(&self, i: usize) -> (r: u8)
        requires
            self.wf(),
            i < REGISTER_COUNT,
        ensures
            r == self@.v[i as int],
    {
        self.v[i]
    }

    /// The byte at address `addr`.
    pub fn memory_at(&self, addr: usize) -> (r: u8)
        requires
            self.wf(),
            addr < MEMORY_SIZE,
        ensures
            r == self@.memory[addr as int],
    {
        self.memory[addr]
    }

    pub fn delay_timer(&self) -> (r: u8)
        ensures
            r == self@.timers.delay,
    {
        self.timers.delay
    }

    pub fn sound_timer(&self) -> (r: u8)
        ensures
            r == self@.timers.sound,
    {
        self.timers.sound
    }

    /// Whether the pixel at column `x`, row `y` is lit.
    pub fn pixel_at(&self, x: usize, y: usize) -> (r: bool)
        requires
            self.wf(),
            x < WIDTH,
            y < HEIGHT,
        ensures
            r == self@.pixels[y * 64 + x],
    {
        self.display.pixel_at(x, y)
    }

    /// Records whether key `index` is pressed.
    pub fn set_key(&mut self, index: usize, pressed: bool)
        requires
            old(self).wf(),
            index < KEY_COUNT,
        ensures
            final(self).wf(),
            final(self)@ == (Machine {
                keys: old(self)@.keys.update(index as int, pressed),
                ..old(self)@
            }),
    {
        self.keypad.set_key(index, pressed);
    }

    /// Whether the framebuffer changed since the host last took a frame.
    pub fn draw_flag(&self) -> (r: bool)
        ensures
            r == self@.redraw,
    {
        self.display.needs_redraw()
    }

    /// Returns whether the framebuffer changed since the host last took a
    /// frame, and clears that flag.
    pub fn take_redraw_flag(&mut self) -> (r: bool)
        requires
            old(self).wf(),
        ensures
            final(self).wf(),
            r == old(self)@.redraw,
            final(self)@ == (Machine { redraw: false, ..old(self)@ }),
    {
        self.display.take_redraw_flag()
    }

    /// The framebuffer as ASCII text, for a terminal: see `render_spec`.
    pub fn debug_render(&self) -> (r: Vec<u8>)
        requires
            self.wf(),
        ensures
            r@ == render_spec(self@.pixels),
    {
        let mut out: Vec<u8> = Vec::new();
        let mut y: usize = 0;
        while y < HEIGHT
            invariant
                self.wf(),
                y <= HEIGHT,
                out@ == render_spec(self@.pixels).subrange(0, (y * 65) as int),
            decreases HEIGHT - y,
        {
            let mut x: usize = 0;
            while x < WIDTH
                invariant
                    self.wf(),
                    y < HEIGHT,
                    x <= WIDTH,
                    out@ == render_spec(self@.pixels).subrange(0, (y * 65 + x) as int),
                decreases WIDTH - x,
            {
                let lit = self.display.pixel_at(x, y);
                out.push(if lit { 32u8 } else { 79u8 });
                proof {
                    let k = y * 65 + x;
                    assert(k / 65 == y && k % 65 == x) by (nonlinear_arith)
                        requires
                            k == y * 65 + x,
                            x < 64,
                    ;
                }
                x = x + 1;
                assert(out@ =~= render_spec(self@.pixels).subrange(0, (y * 65 + x) as int));
            }
            out.push(10u8);
            proof {
                let k = y * 65 + 64;
                assert(k % 65 == 64) by (nonlinear_arith)
                    requires
                        k == y * 65 + 64,
                ;
            }
            y = y + 1;
            assert(out@ =~= render_spec(self@.pixels).subrange(0, (y * 65) as int));
        }
        out.push(10u8);
        assert(out@ =~= render_spec(self@.pixels));
        out
    }
}
} // verus!
