//! The six trap routines: the system-call-like console services selected by
//! the 8-bit vector of a TRAP instruction. Each is proved against its
//! transition function in the semantic model.

use vstd::prelude::*;
use vstd::string::StrSliceExecFns;
use crate::error::VmError;
use crate::registers::R0;
use crate::semantics::TRAP_GETC;
use crate::semantics::TRAP_HALT;
use crate::semantics::TRAP_IN;
use crate::semantics::TRAP_OUT;
use crate::semantics::TRAP_PUTS;
use crate::semantics::TRAP_PUTSP;
use crate::semantics::VmState;
use crate::semantics::VmV;
use crate::semantics::kbsr_dist;
use crate::semantics::spec_halt_notice;
use crate::semantics::spec_in_prompt;
use crate::semantics::spec_puts;
use crate::semantics::spec_putsp;
use crate::semantics::spec_trap;
use crate::vm::Vm;
use crate::word::lemma_byte_bounds;

verus! {

impl Vm {
    /// Runs the trap routine named by `vector`: GETC, OUT, PUTS, IN, PUTSP
    /// or HALT. Any other vector is a fatal invalid-trap error that leaves
    /// the machine unchanged; a routine that blocks for input fails when
    /// the tape is exhausted.
    pub fn execute_trap(&mut self, vector: u16) -> (r: Result<(), VmError>)
        requires
            old(self).wf(),
        ensures
            final(self).wf(),
            ({
                let (s1, outcome) = spec_trap(old(self)@, vector);
                final(self)@ == s1 && r == (match outcome {
                    None => Ok::<(), VmError>(()),
                    Some(e) => Err::<(), VmError>(e),
                })
            }),
    {
        if vector == TRAP_GETC {
            self.trap_getc()
        } else if vector == TRAP_OUT {
            self.trap_out();
            Ok(())
        } else if vector == TRAP_PUTS {
            self.trap_puts()
        } else if vector == TRAP_IN {
            self.trap_in()
        } else if vector == TRAP_PUTSP {
            self.trap_putsp()
        } else if vector == TRAP_HALT {
            self.trap_halt();
            Ok(())
        } else {
            Err(VmError::InvalidTrap(vector))
        }
    }

    /// GETC: consume one input byte without echo, store it in R0 and set
    /// the flags from it.
    fn trap_getc(&mut self) -> (r: Result<(), VmError>)
        requires
            old(self).wf(),
        ensures
            final(self).wf(),
            ({
                let (s1, outcome) = spec_trap(old(self)@, TRAP_GETC);
                final(self)@ == s1 && r == (match outcome {
                    None => Ok::<(), VmError>(()),
                    Some(e) => Err::<(), VmError>(e),
                })
            }),
    {
        if self.input_pos < self.input.len() {
            let byte = self.input[self.input_pos];
            self.input_pos = self.input_pos + 1;
            proof {
                assert(old(self)@.input[0] == byte);
                assert(self@ =~= (VmV { input: old(self)@.input.drop_first(), ..old(self)@ }));
            }
            self.set_register(R0, byte as u16);
            self.update_flag(R0);
            Ok(())
        } else {
            Err(VmError::InputExhausted)
        }
    }

    /// OUT: emit the low byte of R0 as one character.
    fn trap_out(&mut self)
        requires
            old(self).wf(),
        ensures
            final(self).wf(),
            final(self)@ == spec_trap(old(self)@, TRAP_OUT).0,
    {
        let value = self.get_register(R0);
        proof {
            lemma_byte_bounds(value);
        }
        self.output.push((value & 0xFF) as u8);
        proof {
            assert(self@ =~= spec_trap(old(self)@, TRAP_OUT).0);
        }
    }

    /// PUTS: walk the words from the address in R0, emitting each word's
    /// low byte as one character, until a zero word is read. The reads go
    /// through the memory coupling, like every other read.
    fn trap_puts(&mut self) -> (r: Result<(), VmError>)
        requires
            old(self).wf(),
        ensures
            final(self).wf(),
            ({
                let (s1, outcome) = spec_trap(old(self)@, TRAP_PUTS);
                final(self)@ == s1 && r == (match outcome {
                    None => Ok::<(), VmError>(()),
                    Some(e) => Err::<(), VmError>(e),
                })
            }),
    {
        let mut address = self.get_register(R0);
        let ghost orig = self@;
        loop
            invariant
                self.wf(),
                spec_puts(self@, address) == spec_puts(orig, orig.regs[R0 as int]),
                spec_trap(orig, TRAP_PUTS) == spec_puts(orig, orig.regs[R0 as int]),
                orig == old(self)@,
            decreases self@.input.len(), kbsr_dist(address),
        {
            let ghost pre = self@;
            let word = match self.mem_read(address) {
                Ok(w) => w,
                Err(e) => {
                    return Err(e);
                },
            };
            if word == 0 {
                return Ok(());
            }
            proof {
                lemma_byte_bounds(word);
            }
            self.output.push((word & 0xFF) as u8);
            proof {
                let (s1, _) = crate::semantics::spec_mem_read(pre, address);
                assert(self@ =~= (VmV { output: s1.output.push((word & 0xFF) as u8), ..s1 }));
            }
            address = address.wrapping_add(1);
        }
    }

    /// IN: emit the prompt, consume one input byte, echo it, store it in
    /// R0 and set the flags from it.
    fn trap_in(&mut self) -> (r: Result<(), VmError>)
        requires
            old(self).wf(),
        ensures
            final(self).wf(),
            ({
                let (s1, outcome) = spec_trap(old(self)@, TRAP_IN);
                final(self)@ == s1 && r == (match outcome {
                    None => Ok::<(), VmError>(()),
                    Some(e) => Err::<(), VmError>(e),
                })
            }),
    {
        let mut prompt = "Please pass in a value!\n".as_bytes_vec();
        self.output.append(&mut prompt);
        proof {
            assert(self@ =~= (VmV {
                output: old(self)@.output + spec_in_prompt(),
                ..old(self)@
            }));
        }
        if self.input_pos < self.input.len() {
            let byte = self.input[self.input_pos];
            self.input_pos = self.input_pos + 1;
            self.output.push(byte);
            proof {
                let s1 = VmV { output: old(self)@.output + spec_in_prompt(), ..old(self)@ };
                assert(s1.input[0] == byte);
                assert(self@ =~= (VmV {
                    input: s1.input.drop_first(),
                    output: s1.output.push(byte),
                    ..s1
                }));
            }
            self.set_register(R0, byte as u16);
            self.update_flag(R0);
            Ok(())
        } else {
            Err(VmError::InputExhausted)
        }
    }

    /// PUTSP: walk the words from the address in R0, each packing two
    /// characters — high byte first — until a zero word is read; a word
    /// whose low byte is zero but whose high byte is not emits only the
    /// high byte and stops.
    fn trap_putsp(&mut self) -> (r: Result<(), VmError>)
        requires
            old(self).wf(),
        ensures
            final(self).wf(),
            ({
                let (s1, outcome) = spec_trap(old(self)@, TRAP_PUTSP);
                final(self)@ == s1 && r == (match outcome {
                    None => Ok::<(), VmError>(()),
                    Some(e) => Err::<(), VmError>(e),
                })
            }),
    {
        let mut address = self.get_register(R0);
        let ghost orig = self@;
        loop
            invariant
                self.wf(),
                spec_putsp(self@, address) == spec_putsp(orig, orig.regs[R0 as int]),
                spec_trap(orig, TRAP_PUTSP) == spec_putsp(orig, orig.regs[R0 as int]),
                orig == old(self)@,
            decreases self@.input.len(), kbsr_dist(address),
        {
            let ghost pre = self@;
            let word = match self.mem_read(address) {
                Ok(w) => w,
                Err(e) => {
                    return Err(e);
                },
            };
            if word == 0 {
                return Ok(());
            }
            proof {
                lemma_byte_bounds(word);
            }
            let hi = (word >> 8) as u8;
            let lo = (word & 0xFF) as u8;
            if hi != 0 && lo == 0 {
                self.output.push(hi);
                proof {
                    let (s1, _) = crate::semantics::spec_mem_read(pre, address);
                    assert(self@ =~= (VmV { output: s1.output.push(hi), ..s1 }));
                }
                return Ok(());
            }
            self.output.push(hi);
            self.output.push(lo);
            proof {
                let (s1, _) = crate::semantics::spec_mem_read(pre, address);
                assert(self@ =~= (VmV { output: s1.output.push(hi).push(lo), ..s1 }));
            }
            address = address.wrapping_add(1);
        }
    }

    /// HALT: leave the running state for good and emit the termination
    /// notice.
    fn trap_halt(&mut self)
        requires
            old(self).wf(),
        ensures
            final(self).wf(),
            final(self)@ == spec_trap(old(self)@, TRAP_HALT).0,
    {
        self.state = VmState::Halted;
        let mut notice = "Program execution halted\n".as_bytes_vec();
        self.output.append(&mut notice);
        proof {
            assert(self@ =~= (VmV {
                state: VmState::Halted,
                output: old(self)@.output + spec_halt_notice(),
                ..old(self)@
            }));
        }
    }
}

} // verus!
