use lc3_vm::error::VmError;
use lc3_vm::instruction::decode_instruction;
use lc3_vm::registers::{R0, RCOND};
use lc3_vm::semantics::VmState;
use lc3_vm::vm::Vm;

fn create_vm() -> Vm {
    Vm::initialize()
}

const PROMPT: &[u8] = b"Please pass in a value!\n";

#[test]
fn test_puts_trapcode() {
    let mut vm = create_vm();
    let r0 = vm.get_register(R0);
    vm.mem_write(r0, 0x61);
    vm.mem_write(r0 + 1, 0x62);
    vm.mem_write(r0 + 2, 0x63);
    vm.mem_write(r0 + 3, 0x0a);
    vm.mem_write(r0 + 4, 0x0);
    vm.mem_write(r0 + 5, 0x63);

    // instruction
    // F022 -> 1111 0000 00100010
    vm.execute(decode_instruction(0xF022)).unwrap();
    // Exactly "abc\n": the walk stops at the zero word and never reaches
    // the trailing 0x63.
    assert_eq!(vm.output, vec![0x61, 0x62, 0x63, 0x0a]);
}

#[test]
fn test_getc_trapcode() {
    let mut vm = create_vm();

    // instruction
    // F020 -> 1111 0000 00100000
    // With nothing on the input tape, the blocking read is a fatal error.
    assert_eq!(
        vm.execute(decode_instruction(0xF020)),
        Err(VmError::InputExhausted)
    );
}

#[test]
fn test_getc_reads_byte() {
    let mut vm = create_vm();
    vm.push_input(97);
    vm.execute(decode_instruction(0xF020)).unwrap();
    assert_eq!(vm.get_register(R0), 97);
    assert_eq!(vm.get_register(RCOND), 1);
    // No echo: nothing was emitted.
    assert_eq!(vm.output, Vec::<u8>::new());
}

#[test]
fn test_out_trapcode() {
    let mut vm = create_vm();
    vm.set_register(R0, 98);

    // instruction
    // F021 -> 1111 0000 00100001
    vm.execute(decode_instruction(0xF021)).unwrap();
    assert_eq!(vm.output, vec![98]);
}

#[test]
fn test_in_trapcode() {
    let mut vm = create_vm();

    // Instruction
    // F023 -> 1111 0000 00100011
    // The prompt is emitted before the blocking read fails on the empty
    // tape.
    assert_eq!(
        vm.execute(decode_instruction(0xF023)),
        Err(VmError::InputExhausted)
    );
    println!("{}", vm.get_register(R0));
    assert_eq!(vm.output, PROMPT.to_vec());
}

#[test]
fn test_in_echoes_byte() {
    let mut vm = create_vm();
    vm.push_input(98);
    vm.execute(decode_instruction(0xF023)).unwrap();
    assert_eq!(vm.get_register(R0), 98);
    assert_eq!(vm.get_register(RCOND), 1);
    let mut expected = PROMPT.to_vec();
    expected.push(98);
    assert_eq!(vm.output, expected);
}

#[test]
fn test_halt_trapcode() {
    let mut vm = create_vm();

    // Instruction
    // F025 -> 1111 0000 00100101
    vm.execute(decode_instruction(0xF025)).unwrap();
    assert_eq!(vm.state, VmState::Halted);
    assert_eq!(vm.output, b"Program execution halted\n".to_vec());
}

#[test]
fn test_putsp_trapcode() {
    let mut vm = create_vm();
    let r0 = vm.get_register(R0);
    vm.mem_write(r0, 0x6162);
    vm.mem_write(r0 + 1, 0x6364);
    vm.mem_write(r0 + 2, 0x0a);

    // instruction
    // F024 -> 1111 0000 00100100
    vm.execute(decode_instruction(0xF024)).unwrap();
    // Two characters per word, high byte first; the word 0x000a emits its
    // zero high byte too, and the zero word at r0 + 3 stops the walk.
    assert_eq!(vm.output, vec![0x61, 0x62, 0x63, 0x64, 0x00, 0x0a]);
}

#[test]
fn test_putsp_stops_on_low_zero() {
    let mut vm = create_vm();
    let r0 = vm.get_register(R0);
    vm.mem_write(r0, 0x6162);
    // High byte non-zero, low byte zero: the high byte is the last
    // character.
    vm.mem_write(r0 + 1, 0x6300);
    vm.mem_write(r0 + 2, 0x6464);

    vm.execute(decode_instruction(0xF024)).unwrap();
    assert_eq!(vm.output, vec![0x61, 0x62, 0x63]);
}

#[test]
fn test_invalid_trapcode() {
    let mut vm = create_vm();
    // F0FF -> 1111 0000 11111111: no routine has vector 0xFF.
    assert_eq!(
        vm.execute(decode_instruction(0xF0FF)),
        Err(VmError::InvalidTrap(0xFF))
    );
}
