use vstd::prelude::*;

verus! {

/// Combines two bytes into one big-endian instruction word.
pub fn convert_to_16bit(high_bits: &u8, low_bits: &u8) -> (r: u16)
    ensures
        r == (*high_bits as u16) * 256 + (*low_bits as u16),
{
    let r = (*high_bits as u16) << 8 | *low_bits as u16;
    assert(r == (*high_bits as u16) * 256 + (*low_bits as u16)) by (bit_vector)
        requires
            r == (*high_bits as u16) << 8 | *low_bits as u16,
    ;
    r
}

/// The lowest four bits of a word.
pub fn get_nibble(bits: &u16) -> (r: u16)
    ensures
        r == *bits % 16,
{
    let r = *bits & 0x000F;
    assert(r == *bits % 16) by (bit_vector)
        requires
            r == *bits & 0x000F,
    ;
    r
}

/// The lowest eight bits of a word.
pub fn get_byte(bits: &u16) -> (r: u16)
    ensures
        r == *bits % 256,
{
    let r = *bits & 0x00FF;
    assert(r == *bits % 256) by (bit_vector)
        requires
            r == *bits & 0x00FF,
    ;
    r
}

/// The class of an instruction: its top nibble.
pub open spec fn op_class(op: u16) -> int {
    op as int / 4096
}

/// The `x` register operand: the second nibble from the top.
pub open spec fn op_x(op: u16) -> int {
    (op as int / 256) % 16
}

/// The `y` register operand: the third nibble from the top.
pub open spec fn op_y(op: u16) -> int {
    (op as int / 16) % 16
}

/// The `n` operand: the lowest nibble.
pub open spec fn op_n(op: u16) -> int {
    op as int % 16
}

/// The `kk` operand: the low byte.
pub open spec fn op_kk(op: u16) -> int {
    op as int % 256
}

/// The `nnn` operand: the low twelve bits.
pub open spec fn op_nnn(op: u16) -> int {
    op as int % 4096
}

/// Index of the `x` register named by an instruction.
pub fn get_reg_x(op: &u16) -> (r: usize)
    ensures
        r == op_x(*op),
        r < 16,
{
    let shifted = *op >> 8;
    assert(shifted == *op / 256) by (bit_vector)
        requires
            shifted == *op >> 8,
    ;
    get_nibble(&shifted) as usize
}

/// Index of the `y` register named by an instruction.
pub fn get_reg_y(op: &u16) -> (r: usize)
    ensures
        r == op_y(*op),
        r < 16,
{
    let shifted = *op >> 4;
    assert(shifted == *op / 16) by (bit_vector)
        requires
            shifted == *op >> 4,
    ;
    get_nibble(&shifted) as usize
}

/// The immediate byte `kk` of an instruction.
pub fn get_byte_value(op: &u16) -> (r: u8)
    ensures
        r == op_kk(*op),
{
    get_byte(op) as u8
}

/// The address `nnn` of an instruction.
pub fn get_jump_addr(op: &u16) -> (r: usize)
    ensures
        r == op_nnn(*op),
        r < 4096,
{
    let a = *op & 0x0FFF;
    assert(a == *op % 4096) by (bit_vector)
        requires
            a == *op & 0x0FFF,
    ;
    a as usize
}

} // verus!
