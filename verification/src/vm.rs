//! The executable machine: register file, address space, run state and the
//! two console tapes, with every method proved against the transition
//! functions of the semantic model.

use vstd::prelude::*;
use crate::error::VmError;
use crate::instruction::Instruction;
use crate::instruction::decode_instruction;
use crate::opcode::Opcode;
use crate::registers::NUM_REGISTERS;
use crate::registers::R7;
use crate::registers::FL_ZRO;
use crate::registers::RCOND;
use crate::registers::RPC;
use crate::semantics::MEM_SIZE;
use crate::semantics::MR_KBDR;
use crate::semantics::MR_KBSR;
use crate::semantics::PC_START;
use crate::semantics::VmState;
use crate::semantics::VmV;
use crate::semantics::spec_initial;
use crate::semantics::spec_load_ok;
use crate::semantics::spec_loaded;
use crate::semantics::spec_execute;
use crate::semantics::spec_mem_read;
use crate::semantics::spec_mem_write;
use crate::semantics::spec_run;
use crate::semantics::spec_set_reg;
use crate::semantics::spec_step;
use crate::semantics::spec_update_flag;
use crate::word::sign_extend;
use crate::word::spec_wrap_add;

verus! {

/// The virtual machine: 65536 words of memory, ten register slots (eight
/// general registers, PC, COND), the run state, and the modelled console —
/// `input` holds the bytes not yet consumed (from `input_pos` on), `output`
/// the bytes emitted so far.
pub struct Vm {
    pub state: VmState,
    pub memory: Vec<u16>,
    pub registers: Vec<u16>,
    pub input: Vec<u8>,
    pub input_pos: usize,
    pub output: Vec<u8>,
}

impl View for Vm {
    type V = VmV;

    open spec fn view(&self) -> VmV {
        VmV {
            state: self.state,
            mem: self.memory@,
            regs: self.registers@,
            input: self.input@.skip(self.input_pos as int),
            output: self.output@,
        }
    }
}

impl Vm {
    /// A machine whose backing stores have their fixed sizes and whose
    /// input cursor sits inside the tape.
    pub open spec fn wf(self) -> bool {
        &&& self@.wf()
        &&& self.input_pos <= self.input@.len()
    }

    /// Builds the machine in its initial state: memory and registers
    /// zeroed, COND showing the zero flag, PC at the architectural start
    /// address, idle, with empty tapes.
    pub fn initialize() -> (vm: Vm)
        ensures
            vm.wf(),
            vm@ == spec_initial(),
    {
        let mut vm = Vm {
            state: VmState::Idle,
            memory: vec![0u16; MEM_SIZE],
            registers: vec![0u16; NUM_REGISTERS],
            input: Vec::new(),
            input_pos: 0,
            output: Vec::new(),
        };
        vm.set_register(RCOND, FL_ZRO);
        vm.set_register(RPC, PC_START);
        proof {
            assert(vm@.mem =~= spec_initial().mem);
            assert(vm@.regs =~= spec_initial().regs);
            assert(vm@.input =~= spec_initial().input);
            assert(vm@ =~= spec_initial());
        }
        vm
    }

    /// Reads one register slot.
    pub fn get_register(&self, register_address: u16) -> (r: u16)
        requires
            self.wf(),
            register_address < 10,
        ensures
            r == self@.regs[register_address as int],
    {
        self.registers[register_address as usize]
    }

    /// Writes one register slot.
    pub fn set_register(&mut self, register_address: u16, value: u16)
        requires
            old(self).wf(),
            register_address < 10,
        ensures
            final(self).wf(),
            final(self)@ == spec_set_reg(old(self)@, register_address, value),
    {
        self.registers[register_address as usize] = value;
        proof {
            assert(final(self)@ =~= spec_set_reg(old(self)@, register_address, value));
        }
    }

    /// Sets the condition flags from the value just written to register
    /// `register_address`: negative, zero or positive — exactly one.
    pub fn update_flag(&mut self, register_address: u16)
        requires
            old(self).wf(),
            register_address < 10,
        ensures
            final(self).wf(),
            final(self)@ == spec_update_flag(old(self)@, register_address),
    {
        let value = self.get_register(register_address);
        if value == 0 {
            self.set_register(RCOND, FL_ZRO);
        } else if value >= 0x8000 {
            self.set_register(RCOND, crate::registers::FL_NEG);
        } else {
            self.set_register(RCOND, crate::registers::FL_POS);
        }
    }

    /// A plain store to any address; the full 16-bit range is valid.
    pub fn mem_write(&mut self, memory_address: u16, value: u16)
        requires
            old(self).wf(),
        ensures
            final(self).wf(),
            final(self)@ == spec_mem_write(old(self)@, memory_address, value),
    {
        self.memory[memory_address as usize] = value;
        proof {
            assert(final(self)@ =~= spec_mem_write(old(self)@, memory_address, value));
        }
    }

    /// A read with the keyboard coupling: reading the keyboard status
    /// register blocks for one input byte (failing, with the machine
    /// unchanged, when the tape is exhausted); reading anywhere else clears
    /// the keyboard ready bit first.
    pub fn mem_read(&mut self, memory_address: u16) -> (r: Result<u16, VmError>)
        requires
            old(self).wf(),
        ensures
            final(self).wf(),
            ({
                let (s1, read) = spec_mem_read(old(self)@, memory_address);
                final(self)@ == s1 && r == read
            }),
    {
        if memory_address == MR_KBSR {
            if self.input_pos < self.input.len() {
                let byte = self.input[self.input_pos];
                self.input_pos = self.input_pos + 1;
                self.memory[MR_KBSR as usize] = 0x8000;
                self.memory[MR_KBDR as usize] = byte as u16;
                proof {
                    assert(old(self)@.input[0] == byte);
                    assert(final(self)@.input =~= old(self)@.input.drop_first());
                    assert(final(self)@ =~= spec_mem_read(old(self)@, memory_address).0);
                }
                Ok(self.memory[memory_address as usize])
            } else {
                proof {
                    assert(old(self)@.input.len() == 0);
                }
                Err(VmError::InputExhausted)
            }
        } else {
            self.memory[MR_KBSR as usize] = 0;
            proof {
                assert(final(self)@ =~= spec_mem_read(old(self)@, memory_address).0);
            }
            Ok(self.memory[memory_address as usize])
        }
    }

    /// Advances the program counter by one word, wrapping at the top of the
    /// address space.
    pub fn update_pc(&mut self)
        requires
            old(self).wf(),
        ensures
            final(self).wf(),
            final(self)@ == spec_set_reg(old(self)@, RPC, spec_wrap_add(old(self)@.pc(), 1)),
    {
        let pc = self.get_register(RPC);
        self.set_register(RPC, pc.wrapping_add(1));
    }

    /// Fetches the word the program counter points at, through the memory
    /// coupling.
    pub fn fetch(&mut self) -> (r: Result<u16, VmError>)
        requires
            old(self).wf(),
        ensures
            final(self).wf(),
            ({
                let (s1, read) = spec_mem_read(old(self)@, old(self)@.pc());
                final(self)@ == s1 && r == read
            }),
    {
        let pc = self.get_register(RPC);
        self.mem_read(pc)
    }

    /// Writes a program into memory: the first word is the origin, every
    /// following word lands at consecutive addresses from the origin on. A
    /// program with no words, or one that would overrun the top of the
    /// address space, is rejected before any word is written.
    pub fn load_program(&mut self, program: Vec<u16>) -> (r: Result<(), VmError>)
        requires
            old(self).wf(),
        ensures
            final(self).wf(),
            spec_load_ok(program@) ==> r == Ok::<(), VmError>(()) && final(self)@ == (VmV {
                mem: spec_loaded(old(self)@.mem, program@),
                ..old(self)@
            }),
            program@.len() == 0 ==> r == Err::<(), VmError>(VmError::EmptyProgram) && final(self)@
                == old(self)@,
            program@.len() >= 1 && !spec_load_ok(program@) ==> r == Err::<(), VmError>(
                VmError::ProgramTooLarge,
            ) && final(self)@ == old(self)@,
    {
        if program.len() == 0 {
            return Err(VmError::EmptyProgram);
        }
        let origin = program[0];
        if program.len() > MEM_SIZE - origin as usize {
            return Err(VmError::ProgramTooLarge);
        }
        let ghost s0 = self@;
        proof {
            assert(spec_loaded(s0.mem, program@.take(1)) =~= s0.mem);
            assert(self@ =~= (VmV { mem: spec_loaded(s0.mem, program@.take(1)), ..s0 }));
        }
        let mut i: usize = 1;
        while i < program.len()
            invariant
                self.wf(),
                1 <= i <= program@.len(),
                program@.len() >= 1,
                origin == program@[0],
                origin + program@.len() <= 0x10000,
                self@ == (VmV { mem: spec_loaded(s0.mem, program@.take(i as int)), ..s0 }),
            decreases program@.len() - i,
        {
            let address = origin + (i as u16) - 1;
            self.mem_write(address, program[i]);
            proof {
                assert(self@.mem =~= spec_loaded(s0.mem, program@.take(i as int + 1)));
                assert(self@ =~= (VmV {
                    mem: spec_loaded(s0.mem, program@.take(i as int + 1)),
                    ..s0
                }));
            }
            i = i + 1;
        }
        proof {
            assert(program@.take(program@.len() as int) =~= program@);
            assert(self@ =~= (VmV { mem: spec_loaded(s0.mem, program@), ..s0 }));
        }
        Ok(())
    }

    /// Executes one decoded instruction. The program counter must already
    /// have been advanced past the instruction: PC-relative addressing sees
    /// the incremented counter. RTI and RES fail fatally, as does a TRAP
    /// with an undefined vector or a blocking read on an exhausted tape.
    pub fn execute(&mut self, instruction: Instruction) -> (r: Result<(), VmError>)
        requires
            old(self).wf(),
            instruction.wf(),
        ensures
            final(self).wf(),
            ({
                let (s1, outcome) = spec_execute(old(self)@, instruction);
                final(self)@ == s1 && r == (match outcome {
                    None => Ok::<(), VmError>(()),
                    Some(e) => Err::<(), VmError>(e),
                })
            }),
    {
        match instruction.opcode {
            Opcode::Br => {
                let cond = self.get_register(RCOND);
                if instruction.nzp & cond != 0 {
                    let target = sign_extend(instruction.pc_offset_9, 9).wrapping_add(
                        self.get_register(RPC),
                    );
                    self.set_register(RPC, target);
                }
                Ok(())
            },
            Opcode::Add => {
                let operand2 = if instruction.imm_or_cond_flag == 0 {
                    self.get_register(instruction.sr2)
                } else {
                    sign_extend(instruction.imm5, 5)
                };
                let value = self.get_register(instruction.sr1).wrapping_add(operand2);
                self.set_register(instruction.dr, value);
                self.update_flag(instruction.dr);
                Ok(())
            },
            Opcode::And => {
                let operand2 = if instruction.imm_or_cond_flag == 1 {
                    sign_extend(instruction.imm5, 5)
                } else {
                    self.get_register(instruction.sr2)
                };
                let value = self.get_register(instruction.sr1) & operand2;
                self.set_register(instruction.dr, value);
                self.update_flag(instruction.dr);
                Ok(())
            },
            Opcode::Not => {
                let value = !self.get_register(instruction.sr1);
                self.set_register(instruction.dr, value);
                self.update_flag(instruction.dr);
                Ok(())
            },
            Opcode::Ld => {
                let address = sign_extend(instruction.pc_offset_9, 9).wrapping_add(
                    self.get_register(RPC),
                );
                let value = self.mem_read(address)?;
                self.set_register(instruction.dr, value);
                self.update_flag(instruction.dr);
                Ok(())
            },
            Opcode::Ldi => {
                let address = sign_extend(instruction.pc_offset_9, 9).wrapping_add(
                    self.get_register(RPC),
                );
                let pointer = self.mem_read(address)?;
                let value = self.mem_read(pointer)?;
                self.set_register(instruction.dr, value);
                self.update_flag(instruction.dr);
                Ok(())
            },
            Opcode::Ldr => {
                let address = sign_extend(instruction.offset_6, 6).wrapping_add(
                    self.get_register(instruction.base_r),
                );
                let value = self.mem_read(address)?;
                self.set_register(instruction.dr, value);
                self.update_flag(instruction.dr);
                Ok(())
            },
            Opcode::Lea => {
                let address = sign_extend(instruction.pc_offset_9, 9).wrapping_add(
                    self.get_register(RPC),
                );
                self.set_register(instruction.dr, address);
                self.update_flag(instruction.dr);
                Ok(())
            },
            Opcode::St => {
                let address = sign_extend(instruction.pc_offset_9, 9).wrapping_add(
                    self.get_register(RPC),
                );
                let value = self.get_register(instruction.sr1);
                self.mem_write(address, value);
                Ok(())
            },
            Opcode::Sti => {
                let address = sign_extend(instruction.pc_offset_9, 9).wrapping_add(
                    self.get_register(RPC),
                );
                let pointer = self.mem_read(address)?;
                let value = self.get_register(instruction.sr1);
                self.mem_write(pointer, value);
                Ok(())
            },
            Opcode::Str => {
                let address = sign_extend(instruction.offset_6, 6).wrapping_add(
                    self.get_register(instruction.base_r),
                );
                let value = self.get_register(instruction.sr1);
                self.mem_write(address, value);
                Ok(())
            },
            Opcode::Jsr => {
                let pc = self.get_register(RPC);
                self.set_register(R7, pc);
                if instruction.imm_or_cond_flag == 1 {
                    let target = sign_extend(instruction.pc_offset_11, 11).wrapping_add(
                        self.get_register(RPC),
                    );
                    self.set_register(RPC, target);
                } else {
                    let target = self.get_register(instruction.base_r);
                    self.set_register(RPC, target);
                }
                Ok(())
            },
            Opcode::Jmp => {
                let target = self.get_register(instruction.base_r);
                self.set_register(RPC, target);
                Ok(())
            },
            Opcode::Trap => self.execute_trap(instruction.trap_vect_8),
            Opcode::Rti | Opcode::Res => Err(VmError::IllegalOpcode(instruction.opcode)),
        }
    }

    /// One turn of the fetch-decode-execute loop: fetch the word at PC,
    /// decode it, advance PC by one — before executing — and execute.
    pub fn step(&mut self) -> (r: Result<(), VmError>)
        requires
            old(self).wf(),
        ensures
            final(self).wf(),
            ({
                let (s1, outcome) = spec_step(old(self)@);
                final(self)@ == s1 && r == (match outcome {
                    None => Ok::<(), VmError>(()),
                    Some(e) => Err::<(), VmError>(e),
                })
            }),
    {
        let word = self.fetch()?;
        let instruction = decode_instruction(word);
        self.update_pc();
        self.execute(instruction)
    }

    /// Enters the running state and turns the fetch-decode-execute loop
    /// until the halt trap stops the machine, a step fails fatally, or
    /// `max_steps` turns have been taken. On success the machine is halted
    /// exactly when fewer than `max_steps` turns were needed; a machine
    /// still running afterwards simply ran out of the step budget.
    pub fn run(&mut self, max_steps: u64) -> (r: Result<(), VmError>)
        requires
            old(self).wf(),
        ensures
            final(self).wf(),
            ({
                let started = VmV { state: VmState::Running, ..old(self)@ };
                let (s1, outcome) = spec_run(started, max_steps as nat);
                final(self)@ == s1 && r == (match outcome {
                    None => Ok::<(), VmError>(()),
                    Some(e) => Err::<(), VmError>(e),
                })
            }),
    {
        self.state = VmState::Running;
        let ghost started = self@;
        let mut steps_left: u64 = max_steps;
        proof {
            assert(self@ =~= (VmV { state: VmState::Running, ..old(self)@ }));
        }
        loop
            invariant
                self.wf(),
                steps_left <= max_steps,
                spec_run(started, max_steps as nat) == spec_run(self@, steps_left as nat),
                started == (VmV { state: VmState::Running, ..old(self)@ }),
            decreases steps_left,
        {
            if steps_left == 0 || !(self.state == VmState::Running) {
                return Ok(());
            }
            let ghost pre = self@;
            match self.step() {
                Ok(()) => (),
                Err(e) => {
                    return Err(e);
                },
            }
            steps_left = steps_left - 1;
        }
    }

    /// Appends one byte to the unread end of the input tape.
    pub fn push_input(&mut self, byte: u8)
        requires
            old(self).wf(),
        ensures
            final(self).wf(),
            final(self)@ == (VmV { input: old(self)@.input.push(byte), ..old(self)@ }),
    {
        self.input.push(byte);
        proof {
            assert(final(self)@.input =~= old(self)@.input.push(byte));
            assert(final(self)@ =~= VmV { input: old(self)@.input.push(byte), ..old(self)@ });
        }
    }
}

/// The words of a program file: consecutive byte pairs read big-endian,
/// high byte first.
pub open spec fn spec_words_of(bytes: Seq<u8>) -> Seq<u16> {
    Seq::new((bytes.len() / 2) as nat, |k: int| ((bytes[2 * k] as u16) << 8) | bytes[2 * k + 1] as u16)
}

/// Pairs a raw byte stream two at a time, high byte first, into the word
/// sequence of a program file. An odd number of bytes is a malformed file.
pub fn words_from_bytes(bytes: &Vec<u8>) -> (r: Result<Vec<u16>, VmError>)
    ensures
        bytes@.len() % 2 == 0 ==> (r matches Ok(words) && words@ == spec_words_of(bytes@)),
        bytes@.len() % 2 != 0 ==> r == Err::<Vec<u16>, VmError>(VmError::MalformedFile),
{
    if bytes.len() % 2 != 0 {
        return Err(VmError::MalformedFile);
    }
    let mut words: Vec<u16> = Vec::new();
    let mut i: usize = 0;
    while i < bytes.len()
        invariant
            i % 2 == 0,
            i <= bytes@.len(),
            bytes@.len() % 2 == 0,
            words@.len() == i / 2,
            words@ == spec_words_of(bytes@).take(i as int / 2),
        decreases bytes@.len() - i,
    {
        let word = ((bytes[i] as u16) << 8) | bytes[i + 1] as u16;
        words.push(word);
        proof {
            assert(words@ =~= spec_words_of(bytes@).take(i as int / 2 + 1));
        }
        i = i + 2;
    }
    proof {
        assert(spec_words_of(bytes@).take(bytes@.len() as int / 2) =~= spec_words_of(bytes@));
    }
    Ok(words)
}

} // verus!
