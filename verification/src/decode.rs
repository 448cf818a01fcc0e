use vstd::prelude::*;

verus! {

/// What the trap-and-emulate path needs from one decoded instruction: a word
/// store with its source register, a word load with its destination
/// register, some other instruction that decoded fine, or bytes that decode
/// rejected.
#[derive(Clone, Copy, Debug, PartialEq, Eq, Structural)]
pub enum MmioOp {
    Store { rs2: usize },
    Load { rd: usize },
    OtherInstruction,
    Undecodable,
}

/// A full-width word store: store opcode with the word-width function code.
pub open spec fn is_sw32(i: u32) -> bool {
    i & 0x7f == 0x23 && (i >> 12) & 7 == 2
}

/// A full-width word load: load opcode with the word-width function code.
pub open spec fn is_lw32(i: u32) -> bool {
    i & 0x7f == 0x03 && (i >> 12) & 7 == 2
}

/// A compressed word store through a three-bit register operand.
pub open spec fn is_c_sw(i: u32) -> bool {
    i & 3 == 0 && i >> 13 == 6
}

/// A compressed word load through a three-bit register operand.
pub open spec fn is_c_lw(i: u32) -> bool {
    i & 3 == 0 && i >> 13 == 2
}

/// A compressed word store relative to the stack pointer.
pub open spec fn is_c_swsp(i: u32) -> bool {
    i & 3 == 2 && i >> 13 == 6
}

/// The source register a word store names.
pub open spec fn store_rs2(i: u32) -> int {
    if is_sw32(i) {
        ((i >> 20) & 0x1f) as int
    } else if is_c_sw(i) {
        8 + ((i >> 2) & 7) as int
    } else {
        ((i >> 2) & 0x1f) as int
    }
}

/// The destination register a word load names.
pub open spec fn load_rd(i: u32) -> int {
    if is_lw32(i) {
        ((i >> 7) & 0x1f) as int
    } else {
        8 + ((i >> 2) & 7) as int
    }
}

/// A word store's source register is a five-bit field.
pub proof fn lemma_store_rs2_range(w: u32)
    ensures
        0 <= store_rs2(w) < 32,
{
    assert(((w >> 20) & 0x1f) < 32 && ((w >> 20) & 0x1f) >= 0) by (bit_vector);
    assert(((w >> 2) & 7) < 8 && ((w >> 2) & 7) >= 0) by (bit_vector);
    assert(((w >> 2) & 0x1f) < 32 && ((w >> 2) & 0x1f) >= 0) by (bit_vector);
}

/// A word load's destination register is a five-bit field.
pub proof fn lemma_load_rd_range(w: u32)
    ensures
        0 <= load_rd(w) < 32,
{
    assert(((w >> 7) & 0x1f) < 32 && ((w >> 7) & 0x1f) >= 0) by (bit_vector);
    assert(((w >> 2) & 7) < 8 && ((w >> 2) & 7) >= 0) by (bit_vector);
}

/// Whether the decoder accepts instruction bits `i` at all; what it accepts
/// beyond the word loads and stores above takes pages to state, so only the
/// name is held, fixed by the bits alone.
pub uninterp spec fn rv_decode_ok(i: u32) -> bool;

/// The length in bytes that the low 16 instruction bits announce, as the
/// decoder computes it.
pub open spec fn inst_len_spec(i: u16) -> usize {
    if i & 0b11 != 0b11 {
        2
    } else if i & 0b11100 != 0b11100 {
        4
    } else if i & 0b111111 == 0b011111 {
        6
    } else if i & 0b1111111 == 0b011111 {
        8
    } else {
        (10 + 2 * ((i >> 12) & 0b111)) as usize
    }
}

/// Relies on riscv_decode::instruction_length: the announced length follows
/// from the low bits exactly as `inst_len_spec` states.
pub assume_specification [ riscv_decode::instruction_length ](i: u16) -> (r: usize)
    ensures
        r == inst_len_spec(i),
;

/// Relies on riscv_decode::decode: word stores and word loads (full-width or
/// compressed) decode exactly at the bit patterns above, with the register
/// operands above; everything else decodes to some other instruction or is
/// rejected (`rv_decode_ok` names which).
#[verifier::external_body]
pub(crate) fn decode_mmio(inst: u32) -> (r: MmioOp)
    ensures
        is_sw32(inst) || is_c_sw(inst) || is_c_swsp(inst) ==> r == (MmioOp::Store {
            rs2: store_rs2(inst) as usize,
        }),
        is_lw32(inst) || is_c_lw(inst) ==> r == (MmioOp::Load { rd: load_rd(inst) as usize }),
        r is Store ==> is_sw32(inst) || is_c_sw(inst) || is_c_swsp(inst),
        r is Load ==> is_lw32(inst) || is_c_lw(inst),
        r matches MmioOp::Store { rs2 } ==> rs2 < 32,
        r matches MmioOp::Load { rd } ==> rd < 32,
        r is Undecodable <==> !rv_decode_ok(inst),
{
    match riscv_decode::decode(inst) {
        Ok(riscv_decode::Instruction::Sw(s)) => MmioOp::Store { rs2: s.rs2() as usize },
        Ok(riscv_decode::Instruction::Lw(i)) => MmioOp::Load { rd: i.rd() as usize },
        Ok(_) => MmioOp::OtherInstruction,
        Err(_) => MmioOp::Undecodable,
    }
}

/// Relies on riscv_decode::instruction_length through its specification
/// above; narrows the announced length to the two this platform's
/// instructions can have.
pub fn mmio_inst_len(inst: u32) -> (r: Option<usize>)
    ensures
        r == (if inst_len_spec(inst as u16) == 2 || inst_len_spec(inst as u16) == 4 {
            Some(inst_len_spec(inst as u16))
        } else {
            None::<usize>
        }),
{
    let len = riscv_decode::instruction_length(inst as u16);
    if len == 2 || len == 4 {
        Some(len)
    } else {
        None
    }
}

} // verus!
