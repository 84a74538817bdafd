use lc3_vm::assembler::encode_instruction_string;
use lc3_vm::error::VmError;
use lc3_vm::instruction::decode_instruction;
use lc3_vm::opcode::Opcode;
use lc3_vm::word::sign_extend;

#[test]
fn test_decode_instruction() {
    let instruction = decode_instruction(0x475);
    println!("{}", instruction.to_text());
    assert_eq!(instruction.to_text(), "BR 2 117");
}

#[test]
fn test_encode_instruction() {
    let instruction = decode_instruction(0x475);
    println!("{:0x}", instruction.encode().unwrap());
    println!("{}", instruction.to_text());
    let reparsed = encode_instruction_string("BR 2 117".to_string()).unwrap();
    assert_eq!(format!("{:0x}", reparsed.encode().unwrap()), "475");
}

#[test]
fn test_sign_extension() {
    assert_eq!(sign_extend(0x1FF, 9), 0xFFFF);
    assert_eq!(sign_extend(0x0FF, 9), 0x00FF);
    assert_eq!(sign_extend(0x0A, 5), 10);
    assert_eq!(sign_extend(0x1F, 5), 0xFFFF);
}

#[test]
fn test_round_trip_representative_words() {
    let words: [u16; 16] = [
        0x0475, // BR
        0x1EAA, // ADD immediate
        0x1042, // ADD register
        0x2ABB, // LD
        0x3ABB, // ST
        0x4FFF, // JSR
        0x41C0, // JSRR
        0x5EAA, // AND immediate
        0x5042, // AND register
        0x6ABB, // LDR
        0x7ABB, // STR
        0x9A5F, // NOT
        0xA6BB, // LDI
        0xB6BB, // STI
        0xC1C0, // JMP (RET form)
        0xF025, // TRAP
    ];
    for &w in words.iter() {
        let decoded = decode_instruction(w);
        assert_eq!(decoded.encode().unwrap(), w);
    }
}

#[test]
fn test_text_round_trip() {
    let words: [u16; 16] = [
        0x0475, 0x1EAA, 0x1042, 0x2ABB, 0x3ABB, 0x4FFF, 0x41C0, 0x5EAA, 0x5042, 0x6ABB, 0x7ABB,
        0x9A5F, 0xA6BB, 0xB6BB, 0xC1C0, 0xF025,
    ];
    for &w in words.iter() {
        let decoded = decode_instruction(w);
        let reparsed = encode_instruction_string(decoded.to_text()).unwrap();
        assert_eq!(reparsed, decoded);
    }
}

#[test]
fn test_to_text_aliases() {
    assert_eq!(decode_instruction(0xC1C0).to_text(), "RET 7");
    assert_eq!(decode_instruction(0xC080).to_text(), "JMP 2");
    assert_eq!(decode_instruction(0x41C0).to_text(), "JSRR 0 7");
    assert_eq!(decode_instruction(0x4FFF).to_text(), "JSR 1 2047");
    assert_eq!(decode_instruction(0x8000).to_text(), "RTI");
    assert_eq!(decode_instruction(0xD000).to_text(), "RES");
}

#[test]
fn test_decode_is_total() {
    let rti = decode_instruction(0x8123);
    assert_eq!(rti.opcode, Opcode::Rti);
    let res = decode_instruction(0xD456);
    assert_eq!(res.opcode, Opcode::Res);
}

#[test]
fn test_encode_refuses_rti_res() {
    assert_eq!(
        decode_instruction(0x8000).encode(),
        Err(VmError::IllegalOpcode(Opcode::Rti))
    );
    assert_eq!(
        decode_instruction(0xD000).encode(),
        Err(VmError::IllegalOpcode(Opcode::Res))
    );
}

#[test]
fn test_parse_rejects_bad_lines() {
    assert_eq!(
        encode_instruction_string("FOO 1".to_string()),
        Err(VmError::BadMnemonic)
    );
    assert_eq!(
        encode_instruction_string("ADD 1 2".to_string()),
        Err(VmError::BadMnemonic)
    );
    assert_eq!(
        encode_instruction_string("BR 9 1".to_string()),
        Err(VmError::BadMnemonic)
    );
    assert_eq!(
        encode_instruction_string("BR 2 70000".to_string()),
        Err(VmError::BadMnemonic)
    );
    assert_eq!(
        encode_instruction_string("BR 2 1x".to_string()),
        Err(VmError::BadMnemonic)
    );
    assert_eq!(
        encode_instruction_string("".to_string()),
        Err(VmError::BadMnemonic)
    );
}

#[test]
fn test_parse_jsr_forms() {
    let jsr = encode_instruction_string("JSR 1 100".to_string()).unwrap();
    assert_eq!(jsr.opcode, Opcode::Jsr);
    assert_eq!(jsr.imm_or_cond_flag, 1);
    assert_eq!(jsr.pc_offset_11, 100);
    let jsrr = encode_instruction_string("JSRR 0 5".to_string()).unwrap();
    assert_eq!(jsrr.opcode, Opcode::Jsr);
    assert_eq!(jsrr.imm_or_cond_flag, 0);
    assert_eq!(jsrr.base_r, 5);
    let ret = encode_instruction_string("RET 7".to_string()).unwrap();
    assert_eq!(ret.opcode, Opcode::Jmp);
    assert_eq!(ret.base_r, 7);
}
