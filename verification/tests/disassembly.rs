use nesemu::{can_disassemble, disassemble, try_disassemble};

#[test]
fn lists_instructions_with_offsets() {
    let code: Vec<u8> = vec![0xA9, 0x20, 0x8D, 0x00, 0x44];
    assert!(can_disassemble(&code));
    assert_eq!(disassemble(&code), "0000 LDA #$20\n\n0002 STA $4400\n");
}

#[test]
fn lists_the_stub_program() {
    let code: Vec<u8> = vec![0xA9, 0xC3, 0xFF];
    assert_eq!(try_disassemble(&code), Some("0000 LDA #$C3\n\n0002 FF\n".to_string()));
}

#[test]
fn lists_nothing_for_no_code() {
    let code: Vec<u8> = Vec::new();
    assert!(can_disassemble(&code));
    assert_eq!(disassemble(&code), "");
}

#[test]
fn lists_a_backward_branch() {
    let code: Vec<u8> = vec![0xA9, 0x20, 0x69, 0x10, 0xD0, 0xFA];
    assert_eq!(
        try_disassemble(&code),
        Some("0000 LDA #$20\n\n0002 ADC #$10\n\n0004 BNE $0000\n".to_string())
    );
}

#[test]
fn refuses_a_cut_off_instruction() {
    assert!(!can_disassemble(&vec![0xA9]));
    assert_eq!(try_disassemble(&vec![0xA9]), None);
    assert_eq!(try_disassemble(&vec![0xEA, 0x8D, 0x00]), None);
    assert_eq!(try_disassemble(&vec![0x6C, 0x00]), None);
    assert!(can_disassemble(&vec![0xEA, 0x8D, 0x00, 0x44]));
}

#[test]
fn refuses_an_extreme_branch_offset() {
    assert_eq!(try_disassemble(&vec![0xD0, 0xFF]), None);
    assert_eq!(try_disassemble(&vec![0x10, 0x80]), None);
    assert!(can_disassemble(&vec![0xD0, 0xFE]));
    assert!(can_disassemble(&vec![0xD0, 0x7F]));
    assert!(can_disassemble(&vec![0xA9, 0xFF]));
    assert!(can_disassemble(&vec![0xA9, 0x80]));
}

#[test]
fn a_byte_that_is_no_opcode_is_data() {
    assert!(can_disassemble(&vec![0x02]));
    assert_eq!(disassemble(&vec![0x02, 0xEA]), "0000 02\n\n0001 NOP\n");
}
