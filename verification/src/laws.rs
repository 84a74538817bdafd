//! The machine's laws: properties that relate several transition functions,
//! stated over the semantic model and proved once and for all. The codec's
//! round trip lives beside the codec in `instruction`.

use vstd::prelude::*;
use crate::error::VmError;
use crate::instruction::Instruction;
use crate::registers::RPC;
use crate::semantics::MR_KBSR;
use crate::semantics::TRAP_HALT;
use crate::semantics::VmState;
use crate::semantics::VmV;
use crate::semantics::spec_execute;
use crate::semantics::spec_halt_notice;
use crate::semantics::spec_puts;
use crate::semantics::spec_run;
use crate::semantics::spec_set_reg;
use crate::word::spec_sign_extend;
use crate::word::spec_wrap_add;

verus! {

/// BR only modifies the machine when the instruction's condition mask
/// meets the current flags; otherwise the state is untouched — the program
/// counter keeps only its normal pre-execute increment, which happens
/// before `spec_execute` sees the state. When the mask meets the flags, the
/// one change is the branch of the program counter.
pub proof fn lemma_br_gating(s: VmV, i: Instruction)
    requires
        i.opcode is Br,
    ensures
        i.nzp & s.cond() == 0 ==> spec_execute(s, i) == (s, None::<VmError>),
        i.nzp & s.cond() != 0 ==> spec_execute(s, i) == (
            spec_set_reg(s, RPC, spec_wrap_add(spec_sign_extend(i.pc_offset_9, 9), s.pc())),
            None::<VmError>,
        ),
{
}

/// Executing the HALT trap vector leaves the machine halted: nothing but
/// the run state and the termination notice on the output changes, and no
/// error is reported.
pub proof fn lemma_halt_sets_halted(s: VmV, i: Instruction)
    requires
        i.opcode is Trap,
        i.trap_vect_8 == TRAP_HALT,
    ensures
        spec_execute(s, i) == (
            (VmV { state: VmState::Halted, output: s.output + spec_halt_notice(), ..s }),
            None::<VmError>,
        ),
{
}

/// A machine that is not running takes no step at all, however much fuel
/// the run loop is given: once the halt trap has left the running state, no
/// further instruction executes.
pub proof fn lemma_halted_runs_no_further(s: VmV, fuel: nat)
    requires
        !(s.state is Running),
    ensures
        spec_run(s, fuel) == (s, None::<VmError>),
{
}

/// The PUTS walk never changes the run state.
proof fn lemma_puts_preserves_state(s: VmV, addr: u16)
    ensures
        spec_puts(s, addr).0.state == s.state,
    decreases s.input.len(), crate::semantics::kbsr_dist(addr),
{
    let (s1, read) = crate::semantics::spec_mem_read(s, addr);
    match read {
        Err(_) => {},
        Ok(w) => {
            if w != 0 {
                lemma_puts_preserves_state(
                    VmV { output: s1.output.push((w & 0xFF) as u8), ..s1 },
                    spec_wrap_add(addr, 1),
                );
            }
        },
    }
}

/// The PUTSP walk never changes the run state.
proof fn lemma_putsp_preserves_state(s: VmV, addr: u16)
    ensures
        crate::semantics::spec_putsp(s, addr).0.state == s.state,
    decreases s.input.len(), crate::semantics::kbsr_dist(addr),
{
    let (s1, read) = crate::semantics::spec_mem_read(s, addr);
    match read {
        Err(_) => {},
        Ok(w) => {
            if w != 0 {
                let hi = (w >> 8) as u8;
                let lo = (w & 0xFF) as u8;
                if !(hi != 0 && lo == 0) {
                    lemma_putsp_preserves_state(
                        VmV { output: s1.output.push(hi).push(lo), ..s1 },
                        spec_wrap_add(addr, 1),
                    );
                }
            }
        },
    }
}

/// Only the halt trap leaves the running state: executing any other
/// instruction — any opcode, any other trap vector, successfully or not —
/// keeps the run state it found.
pub proof fn lemma_only_halt_stops(s: VmV, i: Instruction)
    requires
        !(i.opcode is Trap && i.trap_vect_8 == TRAP_HALT),
    ensures
        spec_execute(s, i).0.state == s.state,
{
    if i.opcode is Trap {
        if i.trap_vect_8 == crate::semantics::TRAP_PUTS {
            lemma_puts_preserves_state(s, s.regs[crate::registers::R0 as int]);
        } else if i.trap_vect_8 == crate::semantics::TRAP_PUTSP {
            lemma_putsp_preserves_state(s, s.regs[crate::registers::R0 as int]);
        }
    }
}

/// What PUTS emits: for a string of `k` non-zero words at `start`,
/// terminated by a zero word, lying below the top of the address space and
/// clear of the keyboard status register, PUTS emits exactly the low byte
/// of each of the `k` words — it stops at the zero word and never reads
/// past it — reports no error, and touches nothing else but the keyboard
/// ready bit that every read clears.
pub proof fn lemma_puts_output(s: VmV, start: u16, k: nat)
    requires
        s.wf(),
        start + k < 0x10000,
        forall|j: int| 0 <= j < k ==> #[trigger] s.mem[start + j] != 0,
        s.mem[start + k] == 0,
        forall|j: int| 0 <= j <= k ==> #[trigger] (start + j) != MR_KBSR as int,
    ensures
        spec_puts(s, start) == (
            (VmV {
                mem: s.mem.update(MR_KBSR as int, 0),
                output: s.output + Seq::new(k, |j: int| (s.mem[start + j] & 0xFF) as u8),
                ..s
            }),
            None::<VmError>,
        ),
    decreases k,
{
    if k == 0 {
        assert(s.output + Seq::new(0, |j: int| (s.mem[start + j] & 0xFF) as u8) =~= s.output);
        assert(spec_puts(s, start) == (
            (VmV {
                mem: s.mem.update(MR_KBSR as int, 0),
                output: s.output + Seq::new(k, |j: int| (s.mem[start + j] & 0xFF) as u8),
                ..s
            }),
            None::<VmError>,
        ));
    } else {
        assert((start + 0) != MR_KBSR as int);
        assert(s.mem[start + 0] != 0);
        let byte = (s.mem[start as int] & 0xFF) as u8;
        let s2 = VmV { mem: s.mem.update(MR_KBSR as int, 0), output: s.output.push(byte), ..s };
        let next = spec_wrap_add(start, 1);
        assert(next == start + 1);
        assert(spec_puts(s, start) == spec_puts(s2, next));
        assert forall|j: int| 0 <= j < k - 1 implies #[trigger] s2.mem[next + j] != 0 by {
            assert((start + (j + 1)) != MR_KBSR as int);
            assert(s.mem[start + (j + 1)] != 0);
        }
        assert forall|j: int| 0 <= j <= k - 1 implies #[trigger] (next + j) != MR_KBSR as int by {
            assert((start + (j + 1)) != MR_KBSR as int);
        }
        assert((start + k) != MR_KBSR as int);
        assert(s2.mem[next + (k - 1)] == s.mem[start + k]);
        lemma_puts_output(s2, next, (k - 1) as nat);
        assert(s2.mem.update(MR_KBSR as int, 0) =~= s.mem.update(MR_KBSR as int, 0));
        assert forall|j: int| 0 <= j < k - 1 implies #[trigger] s2.mem[next + j] == s.mem[start + (
        j + 1)] by {
            assert((start + (j + 1)) != MR_KBSR as int);
        }
        assert(s2.output + Seq::new((k - 1) as nat, |j: int| (s2.mem[next + j] & 0xFF) as u8)
            =~= s.output + Seq::new(k, |j: int| (s.mem[start + j] & 0xFF) as u8));
    }
}

} // verus!
