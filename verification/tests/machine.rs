use lc3_vm::error::VmError;
use lc3_vm::instruction::decode_instruction;
use lc3_vm::registers::{R7, RCOND, RPC};
use lc3_vm::semantics::VmState;
use lc3_vm::vm::Vm;
use lc3_vm::word::sign_extend;

fn create_vm() -> Vm {
    Vm::initialize()
}

#[test]
fn test_add_instruction() {
    let mut vm = create_vm();
    // set register 2 for immediate value 50
    vm.set_register(0x2, 50);
    assert_eq!(vm.get_register(0x2), 50);
    // Run instruction 0x1EAA
    // 1EAA -> 0001 111 010 1 01010
    vm.execute(decode_instruction(0x1EAA)).unwrap();
    assert_eq!(vm.get_register(R7), 60);
    assert_eq!(vm.get_register(RCOND), 1);
}

#[test]
fn test_ldi_instruction() {
    let mut vm = create_vm();

    let pc_offset = 0xBB;
    let memory_address = sign_extend(pc_offset, 9).wrapping_add(vm.get_register(RPC));

    vm.mem_write(memory_address, 98);
    assert_eq!(vm.mem_read(memory_address).unwrap(), 98);

    vm.mem_write(0x62, 10);
    assert_eq!(vm.mem_read(0x62).unwrap(), 10);

    // Run instruction
    //  A6BB -> 1010 011 010111011
    vm.execute(decode_instruction(0xA6BB)).unwrap();

    assert_eq!(vm.get_register(0x3), 10);
    assert_eq!(vm.get_register(RCOND), 1);
}

#[test]
fn test_br_instruction() {
    let mut vm = create_vm();

    // Instruction
    // 475 -> 0000 010 001110101
    println!("{}", vm.get_register(RPC));
    vm.execute(decode_instruction(0x475)).unwrap();
    println!("{}", vm.get_register(RPC));
    // COND starts as the zero flag, which the mask 010 selects.
    assert_eq!(vm.get_register(RPC), 0x3075);
}

#[test]
fn test_br_not_taken() {
    let mut vm = create_vm();
    // Mask 001 (positive) misses the initial zero flag: nothing changes.
    // 275 -> 0000 001 001110101
    vm.execute(decode_instruction(0x275)).unwrap();
    assert_eq!(vm.get_register(RPC), 0x3000);
    assert_eq!(vm.get_register(RCOND), 2);
}

#[test]
fn test_load_program() {
    let mut vm = create_vm();

    vm.set_register(0x2, 50);

    let program = vec![0x3000, 0x1EAA];
    vm.load_program(program).unwrap();
    let instruction = vm.fetch().unwrap();

    vm.execute(decode_instruction(instruction)).unwrap();

    assert_eq!(vm.get_register(R7), 60);
    assert_eq!(vm.get_register(RCOND), 1);
}

#[test]
fn test_load_bound_check() {
    let mut vm = create_vm();
    // Origin 0xFFF0 with a body longer than 0x10 words overruns the address
    // space and is rejected before any word is written.
    let mut program: Vec<u16> = vec![0xFFF0];
    for i in 0..0x11 {
        program.push(i as u16 + 1);
    }
    assert_eq!(vm.load_program(program), Err(VmError::ProgramTooLarge));
    assert_eq!(vm.mem_read(0xFFF0).unwrap(), 0);

    // The largest body that still fits loads cleanly.
    let mut fits: Vec<u16> = vec![0xFFF0];
    for i in 0..0x0F {
        fits.push(i as u16 + 1);
    }
    assert_eq!(vm.load_program(fits), Ok(()));
    assert_eq!(vm.mem_read(0xFFF0).unwrap(), 1);

    // A program with no words has no origin.
    assert_eq!(vm.load_program(vec![]), Err(VmError::EmptyProgram));
}

#[test]
fn test_run_halts() {
    let mut vm = create_vm();
    // A single HALT trap: the run loop takes one step and stops; the words
    // after the halt never execute.
    vm.load_program(vec![0x3000, 0xF025, 0xF021]).unwrap();
    vm.run(10).unwrap();
    assert_eq!(vm.state, VmState::Halted);
    assert_eq!(vm.get_register(RPC), 0x3001);
    assert_eq!(vm.output, b"Program execution halted\n".to_vec());
}

#[test]
fn test_run_step_budget() {
    let mut vm = create_vm();
    // BR with mask 111 and offset -1 branches to itself forever; the run
    // loop gives up after its step budget with the machine still running.
    vm.load_program(vec![0x3000, 0x0FFF]).unwrap();
    vm.run(5).unwrap();
    assert_eq!(vm.state, VmState::Running);
}

#[test]
fn test_rti_res_fail() {
    let mut vm = create_vm();
    assert_eq!(
        vm.execute(decode_instruction(0x8000)),
        Err(VmError::IllegalOpcode(lc3_vm::opcode::Opcode::Rti))
    );
    assert_eq!(
        vm.execute(decode_instruction(0xD000)),
        Err(VmError::IllegalOpcode(lc3_vm::opcode::Opcode::Res))
    );
}

#[test]
fn test_flags_zero_and_negative() {
    let mut vm = create_vm();
    // AND R0, R0, #0 clears R0: the zero flag.
    // 5020 -> 0101 000 000 1 00000
    vm.execute(decode_instruction(0x5020)).unwrap();
    assert_eq!(vm.get_register(RCOND), 2);
    // ADD R0, R0, #-1 gives 0xFFFF: the negative flag.
    // 103F -> 0001 000 000 1 11111
    vm.execute(decode_instruction(0x103F)).unwrap();
    assert_eq!(vm.get_register(0), 0xFFFF);
    assert_eq!(vm.get_register(RCOND), 4);
}

#[test]
fn test_keyboard_coupling() {
    let mut vm = create_vm();
    // Reading the keyboard status register blocks for a byte, sets the
    // ready bit and deposits the byte in the data register.
    vm.push_input(b'q');
    assert_eq!(vm.mem_read(0xFE00).unwrap(), 0x8000);
    assert_eq!(vm.mem_read(0xFE02).unwrap(), b'q' as u16);
    // That ordinary read just cleared the ready bit again.
    assert_eq!(vm.mem_read(0xFE00), Err(VmError::InputExhausted));
}

#[test]
fn test_words_from_bytes() {
    let bytes = vec![0x30, 0x00, 0x1E, 0xAA];
    assert_eq!(
        lc3_vm::vm::words_from_bytes(&bytes),
        Ok(vec![0x3000, 0x1EAA])
    );
    let odd = vec![0x30, 0x00, 0x1E];
    assert_eq!(
        lc3_vm::vm::words_from_bytes(&odd),
        Err(VmError::MalformedFile)
    );
    assert_eq!(lc3_vm::vm::words_from_bytes(&vec![]), Ok(vec![]));
}

#[test]
fn test_jsr_saves_link() {
    let mut vm = create_vm();
    // JSR with offset 0x75: R7 takes the PC, the PC takes PC + 0x75.
    // 4875 -> 0100 1 00001110101
    vm.execute(decode_instruction(0x4875)).unwrap();
    assert_eq!(vm.get_register(R7), 0x3000);
    assert_eq!(vm.get_register(RPC), 0x3075);
}
