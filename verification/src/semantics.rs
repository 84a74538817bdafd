//! The mathematical model of the machine: a ghost state record and the
//! small-step transition functions that every executable method of the
//! engine is proved against. Console I/O is part of the state — `input` is
//! the tape of bytes not yet consumed, `output` the bytes emitted so far —
//! so every transition is a total, deterministic function of the state.

use vstd::prelude::*;
use vstd::string::StringSliceAdditionalSpecFns;
use crate::error::VmError;
use crate::instruction::Instruction;
use crate::instruction::spec_decode;
use crate::opcode::Opcode;
use crate::registers::FL_ZRO;
use crate::registers::NUM_REGISTERS;
use crate::registers::R0;
use crate::registers::R7;
use crate::registers::RCOND;
use crate::registers::RPC;
use crate::word::spec_flag_of;
use crate::word::spec_sign_extend;
use crate::word::spec_wrap_add;

verus! {

/// Number of words in the address space: the full 16-bit range is valid.
pub const MEM_SIZE: usize = 0x10000;

/// Architecturally defined start address of the program counter.
pub const PC_START: u16 = 0x3000;

/// Keyboard status register: reading it blocks for one input byte, sets its
/// own ready bit and deposits the byte in the keyboard data register.
pub const MR_KBSR: u16 = 0xFE00;

/// Keyboard data register: holds the byte read by the last keyboard poll.
pub const MR_KBDR: u16 = 0xFE02;

/// Display status register.
pub const MR_DSR: u16 = 0xFE04;

/// Display data register.
pub const MR_DDR: u16 = 0xFE06;

/// Machine control register.
pub const MR_MCR: u16 = 0xFFFE;

/// Trap vector: read one byte, no echo, into R0.
pub const TRAP_GETC: u16 = 0x20;

/// Trap vector: write the low byte of R0 to the output.
pub const TRAP_OUT: u16 = 0x21;

/// Trap vector: write the zero-terminated word string at R0, one character
/// per word.
pub const TRAP_PUTS: u16 = 0x22;

/// Trap vector: prompt, read one byte, echo it, store it into R0.
pub const TRAP_IN: u16 = 0x23;

/// Trap vector: write the zero-terminated byte-packed string at R0, two
/// characters per word, high byte first.
pub const TRAP_PUTSP: u16 = 0x24;

/// Trap vector: halt the machine.
pub const TRAP_HALT: u16 = 0x25;

/// The run state of the engine: constructed but never run, in the
/// fetch-decode-execute loop, or stopped by the halt trap.
#[derive(Clone, Copy, Debug, PartialEq, Eq, Structural)]
pub enum VmState {
    Idle,
    Running,
    Halted,
}

/// The machine as mathematics: run state, the 65536 memory words, the ten
/// register slots, the unconsumed input bytes and the emitted output bytes.
#[verifier::ext_equal]
pub ghost struct VmV {
    pub state: VmState,
    pub mem: Seq<u16>,
    pub regs: Seq<u16>,
    pub input: Seq<u8>,
    pub output: Seq<u8>,
}

impl VmV {
    /// Shape of a valid machine state: full memory, ten registers.
    pub open spec fn wf(self) -> bool {
        self.mem.len() == MEM_SIZE && self.regs.len() == NUM_REGISTERS
    }

    /// The program counter.
    pub open spec fn pc(self) -> u16 {
        self.regs[RPC as int]
    }

    /// The condition-flag register.
    pub open spec fn cond(self) -> u16 {
        self.regs[RCOND as int]
    }
}

/// The machine as built: everything zero, COND showing the zero flag, PC at
/// the architectural start address, both tapes empty.
pub open spec fn spec_initial() -> VmV {
    VmV {
        state: VmState::Idle,
        mem: Seq::new(MEM_SIZE as nat, |a: int| 0u16),
        regs: Seq::new(
            NUM_REGISTERS as nat,
            |r: int|
                if r == RPC as int {
                    PC_START
                } else if r == RCOND as int {
                    FL_ZRO
                } else {
                    0u16
                },
        ),
        input: Seq::empty(),
        output: Seq::empty(),
    }
}

/// Writing one register slot.
pub open spec fn spec_set_reg(s: VmV, r: u16, v: u16) -> VmV {
    VmV { regs: s.regs.update(r as int, v), ..s }
}

/// Setting the condition flags from the value sitting in register `r`:
/// exactly one of negative, zero, positive.
pub open spec fn spec_update_flag(s: VmV, r: u16) -> VmV {
    spec_set_reg(s, RCOND, spec_flag_of(s.regs[r as int]))
}

/// A plain store: every address is writable, device registers included.
pub open spec fn spec_mem_write(s: VmV, addr: u16, value: u16) -> VmV {
    VmV { mem: s.mem.update(addr as int, value), ..s }
}

/// A memory read with the keyboard coupling. Reading the keyboard status
/// register blocks for one input byte, sets the ready bit and deposits the
/// byte in the keyboard data register — and fails, with the machine left
/// unchanged, when the tape is exhausted. Reading any other address clears
/// the ready bit first; programs busy-waiting on the keyboard depend on
/// this coupling, so it is part of the model.
pub open spec fn spec_mem_read(s: VmV, addr: u16) -> (VmV, Result<u16, VmError>) {
    if addr == MR_KBSR {
        if s.input.len() == 0 {
            (s, Err(VmError::InputExhausted))
        } else {
            let s1 = VmV {
                mem: s.mem.update(MR_KBSR as int, 0x8000).update(
                    MR_KBDR as int,
                    s.input[0] as u16,
                ),
                input: s.input.drop_first(),
                ..s
            };
            (s1, Ok(0x8000))
        }
    } else {
        let s1 = VmV { mem: s.mem.update(MR_KBSR as int, 0), ..s };
        (s1, Ok(s.mem[addr as int]))
    }
}

/// Distance from `addr` to the keyboard status register, walking upward
/// with wraparound: the termination measure of the string traps.
pub open spec fn kbsr_dist(addr: u16) -> int {
    if addr <= MR_KBSR {
        MR_KBSR - addr
    } else {
        0x10000 + MR_KBSR - addr
    }
}

/// The PUTS routine from address `addr` on: read words through the memory
/// coupling and emit each word's low byte until a zero word is read. Each
/// step either consumes input (only when the walk crosses the keyboard
/// status register) or moves one address closer to it, so the walk
/// terminates on every state.
pub open spec fn spec_puts(s: VmV, addr: u16) -> (VmV, Option<VmError>)
    decreases s.input.len(), kbsr_dist(addr),
{
    let (s1, read) = spec_mem_read(s, addr);
    match read {
        Err(e) => (s1, Some(e)),
        Ok(w) => {
            if w == 0 {
                (s1, None)
            } else {
                spec_puts(
                    VmV { output: s1.output.push((w & 0xFF) as u8), ..s1 },
                    spec_wrap_add(addr, 1),
                )
            }
        },
    }
}

/// The PUTSP routine from address `addr` on: each word packs two
/// characters, high byte first; a zero word stops the walk, and a word
/// whose high byte is the last character (non-zero high, zero low) emits
/// only that byte and stops.
pub open spec fn spec_putsp(s: VmV, addr: u16) -> (VmV, Option<VmError>)
    decreases s.input.len(), kbsr_dist(addr),
{
    let (s1, read) = spec_mem_read(s, addr);
    match read {
        Err(e) => (s1, Some(e)),
        Ok(w) => {
            if w == 0 {
                (s1, None)
            } else {
                let hi = (w >> 8) as u8;
                let lo = (w & 0xFF) as u8;
                if hi != 0 && lo == 0 {
                    (VmV { output: s1.output.push(hi), ..s1 }, None)
                } else {
                    spec_putsp(
                        VmV { output: s1.output.push(hi).push(lo), ..s1 },
                        spec_wrap_add(addr, 1),
                    )
                }
            }
        },
    }
}

/// The prompt emitted by the IN trap before it blocks for a byte.
pub open spec fn spec_in_prompt() -> Seq<u8> {
    "Please pass in a value!\n".spec_bytes()
}

/// The notice emitted by the HALT trap as it stops the machine.
pub open spec fn spec_halt_notice() -> Seq<u8> {
    "Program execution halted\n".spec_bytes()
}

/// The six trap routines, selected by the 8-bit vector; any other vector is
/// a fatal invalid-trap error that leaves the machine unchanged.
pub open spec fn spec_trap(s: VmV, vector: u16) -> (VmV, Option<VmError>) {
    if vector == TRAP_GETC {
        if s.input.len() == 0 {
            (s, Some(VmError::InputExhausted))
        } else {
            let byte = s.input[0];
            let s1 = VmV { input: s.input.drop_first(), ..s };
            (spec_update_flag(spec_set_reg(s1, R0, byte as u16), R0), None)
        }
    } else if vector == TRAP_OUT {
        (VmV { output: s.output.push((s.regs[R0 as int] & 0xFF) as u8), ..s }, None)
    } else if vector == TRAP_PUTS {
        spec_puts(s, s.regs[R0 as int])
    } else if vector == TRAP_IN {
        let s1 = VmV { output: s.output + spec_in_prompt(), ..s };
        if s1.input.len() == 0 {
            (s1, Some(VmError::InputExhausted))
        } else {
            let byte = s1.input[0];
            let s2 = VmV { input: s1.input.drop_first(), output: s1.output.push(byte), ..s1 };
            (spec_update_flag(spec_set_reg(s2, R0, byte as u16), R0), None)
        }
    } else if vector == TRAP_PUTSP {
        spec_putsp(s, s.regs[R0 as int])
    } else if vector == TRAP_HALT {
        (VmV { state: VmState::Halted, output: s.output + spec_halt_notice(), ..s }, None)
    } else {
        (s, Some(VmError::InvalidTrap(vector)))
    }
}

/// Executing one decoded instruction against a machine state whose program
/// counter has already been advanced past the instruction. This is the
/// per-opcode semantics: each arm says exactly which registers, memory
/// cells and tape bytes change.
pub open spec fn spec_execute(s: VmV, i: Instruction) -> (VmV, Option<VmError>) {
    match i.opcode {
        Opcode::Br => {
            if i.nzp & s.cond() != 0 {
                (
                    spec_set_reg(
                        s,
                        RPC,
                        spec_wrap_add(spec_sign_extend(i.pc_offset_9, 9), s.pc()),
                    ),
                    None,
                )
            } else {
                (s, None)
            }
        },
        Opcode::Add => {
            let operand2 = if i.imm_or_cond_flag == 0 {
                s.regs[i.sr2 as int]
            } else {
                spec_sign_extend(i.imm5, 5)
            };
            let value = spec_wrap_add(s.regs[i.sr1 as int], operand2);
            (spec_update_flag(spec_set_reg(s, i.dr, value), i.dr), None)
        },
        Opcode::And => {
            let operand2 = if i.imm_or_cond_flag == 1 {
                spec_sign_extend(i.imm5, 5)
            } else {
                s.regs[i.sr2 as int]
            };
            let value = s.regs[i.sr1 as int] & operand2;
            (spec_update_flag(spec_set_reg(s, i.dr, value), i.dr), None)
        },
        Opcode::Not => {
            let value = !s.regs[i.sr1 as int];
            (spec_update_flag(spec_set_reg(s, i.dr, value), i.dr), None)
        },
        Opcode::Ld => {
            let addr = spec_wrap_add(spec_sign_extend(i.pc_offset_9, 9), s.pc());
            let (s1, read) = spec_mem_read(s, addr);
            match read {
                Err(e) => (s1, Some(e)),
                Ok(v) => (spec_update_flag(spec_set_reg(s1, i.dr, v), i.dr), None),
            }
        },
        Opcode::Ldi => {
            let addr = spec_wrap_add(spec_sign_extend(i.pc_offset_9, 9), s.pc());
            let (s1, read1) = spec_mem_read(s, addr);
            match read1 {
                Err(e) => (s1, Some(e)),
                Ok(pointer) => {
                    let (s2, read2) = spec_mem_read(s1, pointer);
                    match read2 {
                        Err(e) => (s2, Some(e)),
                        Ok(v) => (spec_update_flag(spec_set_reg(s2, i.dr, v), i.dr), None),
                    }
                },
            }
        },
        Opcode::Ldr => {
            let addr = spec_wrap_add(spec_sign_extend(i.offset_6, 6), s.regs[i.base_r as int]);
            let (s1, read) = spec_mem_read(s, addr);
            match read {
                Err(e) => (s1, Some(e)),
                Ok(v) => (spec_update_flag(spec_set_reg(s1, i.dr, v), i.dr), None),
            }
        },
        Opcode::Lea => {
            let addr = spec_wrap_add(spec_sign_extend(i.pc_offset_9, 9), s.pc());
            (spec_update_flag(spec_set_reg(s, i.dr, addr), i.dr), None)
        },
        Opcode::St => {
            let addr = spec_wrap_add(spec_sign_extend(i.pc_offset_9, 9), s.pc());
            (spec_mem_write(s, addr, s.regs[i.sr1 as int]), None)
        },
        Opcode::Sti => {
            let addr = spec_wrap_add(spec_sign_extend(i.pc_offset_9, 9), s.pc());
            let (s1, read) = spec_mem_read(s, addr);
            match read {
                Err(e) => (s1, Some(e)),
                Ok(pointer) => (spec_mem_write(s1, pointer, s1.regs[i.sr1 as int]), None),
            }
        },
        Opcode::Str => {
            let addr = spec_wrap_add(spec_sign_extend(i.offset_6, 6), s.regs[i.base_r as int]);
            (spec_mem_write(s, addr, s.regs[i.sr1 as int]), None)
        },
        Opcode::Jsr => {
            let s1 = spec_set_reg(s, R7, s.pc());
            if i.imm_or_cond_flag == 1 {
                (
                    spec_set_reg(
                        s1,
                        RPC,
                        spec_wrap_add(spec_sign_extend(i.pc_offset_11, 11), s1.pc()),
                    ),
                    None,
                )
            } else {
                (spec_set_reg(s1, RPC, s1.regs[i.base_r as int]), None)
            }
        },
        Opcode::Jmp => (spec_set_reg(s, RPC, s.regs[i.base_r as int]), None),
        Opcode::Trap => spec_trap(s, i.trap_vect_8),
        Opcode::Rti | Opcode::Res => (s, Some(VmError::IllegalOpcode(i.opcode))),
    }
}

/// One turn of the fetch-decode-execute loop: fetch the word at PC through
/// the memory coupling, decode it, advance PC by one — before executing,
/// so that PC-relative addressing sees the incremented counter — and
/// execute.
pub open spec fn spec_step(s: VmV) -> (VmV, Option<VmError>) {
    let (s1, fetched) = spec_mem_read(s, s.pc());
    match fetched {
        Err(e) => (s1, Some(e)),
        Ok(w) => {
            let s2 = spec_set_reg(s1, RPC, spec_wrap_add(s1.pc(), 1));
            spec_execute(s2, spec_decode(w))
        },
    }
}

/// Up to `fuel` turns of the loop, stopping as soon as the machine is no
/// longer running or a step fails. Only the halt trap leaves the running
/// state, so a machine that is not running takes no step at all.
pub open spec fn spec_run(s: VmV, fuel: nat) -> (VmV, Option<VmError>)
    decreases fuel,
{
    if !(s.state is Running) || fuel == 0 {
        (s, None)
    } else {
        let (s1, stepped) = spec_step(s);
        match stepped {
            Some(e) => (s1, Some(e)),
            None => spec_run(s1, (fuel - 1) as nat),
        }
    }
}

/// The memory image after a program is loaded: the words after the origin
/// word are placed at consecutive addresses starting at the origin; every
/// other cell keeps its value.
pub open spec fn spec_loaded(mem: Seq<u16>, program: Seq<u16>) -> Seq<u16>
    recommends
        program.len() >= 1,
{
    let origin = program[0] as int;
    Seq::new(
        mem.len(),
        |a: int|
            if origin <= a && a < origin + program.len() - 1 {
                program[a - origin + 1]
            } else {
                mem[a]
            },
    )
}

/// A loadable program: it has an origin word, and origin plus length stays
/// inside the address space.
pub open spec fn spec_load_ok(program: Seq<u16>) -> bool {
    program.len() >= 1 && program[0] + program.len() <= 0x10000
}

} // verus!
