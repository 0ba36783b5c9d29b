//! The 8-bit arithmetic and logic unit: result byte and flags of every
//! operation, stated over the integers and computed with machine operations.

use super::flags::Flags;
use crate::bits::{bit_of, lemma_bit_weight, lemma_single_bit, two_to, with_bit};
use vstd::prelude::*;

verus! {

#[derive(Clone, Copy, Debug, PartialEq, Eq)]
pub enum AluOp {
    ADD,
    ADC,
    SUB,
    SBC,
    AND,
    XOR,
    OR,
    CP,
    RLC,
    RRC,
    RL,
    RR,
    SLA,
    SRA,
    SWAP,
    SRL,
    BIT,
    RES,
    SET,
    DAA,
    CPL,
    CCF,
    SCF,
}

impl AluOp {
    /// Whether the second operand of the operation is a bit index.
    pub open spec fn takes_bit_index(self) -> bool {
        self is BIT || self is RES || self is SET
    }
}

/// The carry flag as a number.
pub open spec fn carry_in(flags: Flags) -> int {
    if flags.carry {
        1
    } else {
        0
    }
}

/// Addition, subtraction and comparison.
///
/// ADD and ADC: C is the carry out of bit 7, H the carry out of bit 3. SUB,
/// SBC and CP: C is the borrow into bit 7, H the borrow into bit 3. Z tells
/// whether the result is zero; CP keeps `x` and sets the flags of SUB.
#[verifier::opaque]
pub open spec fn summed(op: AluOp, x: u8, y: u8, flags: Flags) -> (u8, Flags) {
    let c = if op is ADC || op is SBC {
        carry_in(flags)
    } else {
        0
    };
    if op is ADD || op is ADC {
        let value = ((x + y + c) % 256) as u8;
        (
            value,
            Flags {
                zero: value == 0,
                subtract: false,
                half_carry: x % 16 + y % 16 + c > 15,
                carry: x + y + c > 255,
            },
        )
    } else {
        let value = ((x - y - c) % 256) as u8;
        (
            if op is CP {
                x
            } else {
                value
            },
            Flags {
                zero: value == 0,
                subtract: true,
                half_carry: x % 16 < y % 16 + c,
                carry: x < y + c,
            },
        )
    }
}

/// AND, XOR and OR. Z tells whether the result is zero; AND sets H; the other
/// flags are cleared.
#[verifier::opaque]
pub open spec fn combined(op: AluOp, x: u8, y: u8) -> (u8, Flags) {
    let value = if op is AND {
        x & y
    } else if op is XOR {
        x ^ y
    } else {
        x | y
    };
    (value, Flags { zero: value == 0, subtract: false, half_carry: op is AND, carry: false })
}

/// Rotations, shifts and SWAP. C takes the bit that leaves the byte; Z tells
/// whether the result is zero; N and H are cleared. RL and RR rotate through
/// C; SRA keeps bit 7; SWAP exchanges the nibbles and clears C.
#[verifier::opaque]
pub open spec fn rotated(op: AluOp, x: u8, flags: Flags) -> (u8, Flags) {
    let value = match op {
        AluOp::RLC => ((x * 2) % 256 + x / 128) as u8,
        AluOp::RRC => (x / 2 + (x % 2) * 128) as u8,
        AluOp::RL => ((x * 2) % 256 + carry_in(flags)) as u8,
        AluOp::RR => (x / 2 + carry_in(flags) * 128) as u8,
        AluOp::SLA => ((x * 2) % 256) as u8,
        AluOp::SRA => (x / 2 + (x / 128) * 128) as u8,
        AluOp::SWAP => ((x % 16) * 16 + x / 16) as u8,
        _ => x / 2,
    };
    let carry = match op {
        AluOp::RLC | AluOp::RL | AluOp::SLA => x >= 128,
        AluOp::SWAP => false,
        _ => x % 2 == 1,
    };
    (value, Flags { zero: value == 0, subtract: false, half_carry: false, carry })
}

/// BIT, RES and SET on bit `index` of `x`. BIT sets Z where the bit is clear,
/// clears N, sets H and keeps C and the byte; RES and SET change the bit and
/// no flag.
#[verifier::opaque]
pub open spec fn bit_changed(op: AluOp, x: u8, index: u8, flags: Flags) -> (u8, Flags) {
    match op {
        AluOp::BIT => (
            x,
            Flags {
                zero: !bit_of(x, index as int),
                subtract: false,
                half_carry: true,
                carry: flags.carry,
            },
        ),
        AluOp::RES => (with_bit(x, index as int, false) as u8, flags),
        _ => (with_bit(x, index as int, true) as u8, flags),
    }
}

/// What DAA adds to the accumulator after an addition, or takes from it after
/// a subtraction.
pub open spec fn daa_correction(x: u8, flags: Flags) -> int {
    if flags.subtract {
        (if flags.half_carry {
            0x06int
        } else {
            0
        }) + (if flags.carry {
            0x60int
        } else {
            0
        })
    } else {
        (if flags.half_carry || x % 16 > 9 {
            0x06int
        } else {
            0
        }) + (if flags.carry || x > 0x99 {
            0x60int
        } else {
            0
        })
    }
}

/// DAA: the accumulator is corrected to binary coded decimal. After an
/// addition C is also set where the value was above 0x99. Z tells whether the
/// result is zero, H is cleared, N stays.
#[verifier::opaque]
pub open spec fn adjusted(x: u8, flags: Flags) -> (u8, Flags) {
    let value = if flags.subtract {
        ((x - daa_correction(x, flags)) % 256) as u8
    } else {
        ((x + daa_correction(x, flags)) % 256) as u8
    };
    (
        value,
        Flags {
            zero: value == 0,
            subtract: flags.subtract,
            half_carry: false,
            carry: flags.carry || (!flags.subtract && x > 0x99),
        },
    )
}

/// CPL, CCF and SCF. CPL inverts the byte and sets N and H; CCF inverts C,
/// SCF sets it, and both clear N and H. Z stays.
#[verifier::opaque]
pub open spec fn flagged(op: AluOp, x: u8, flags: Flags) -> (u8, Flags) {
    match op {
        AluOp::CPL => (
            (255 - x) as u8,
            Flags { zero: flags.zero, subtract: true, half_carry: true, carry: flags.carry },
        ),
        AluOp::CCF => (
            x,
            Flags { zero: flags.zero, subtract: false, half_carry: false, carry: !flags.carry },
        ),
        _ => (x, Flags { zero: flags.zero, subtract: false, half_carry: false, carry: true }),
    }
}

/// The byte and the flags that an operation yields from `x`, `y` and the
/// flags before it.
pub open spec fn outcome(op: AluOp, x: u8, y: u8, flags: Flags) -> (u8, Flags) {
    match op {
        AluOp::ADD | AluOp::ADC | AluOp::SUB | AluOp::SBC | AluOp::CP => summed(op, x, y, flags),
        AluOp::AND | AluOp::XOR | AluOp::OR => combined(op, x, y),
        AluOp::RLC
        | AluOp::RRC
        | AluOp::RL
        | AluOp::RR
        | AluOp::SLA
        | AluOp::SRA
        | AluOp::SWAP
        | AluOp::SRL => rotated(op, x, flags),
        AluOp::BIT | AluOp::RES | AluOp::SET => bit_changed(op, x, y, flags),
        AluOp::DAA => adjusted(x, flags),
        AluOp::CPL | AluOp::CCF | AluOp::SCF => flagged(op, x, flags),
    }
}

/// The byte that an operation yields. Operations that only set flags yield `x`.
pub open spec fn result(op: AluOp, x: u8, y: u8, flags: Flags) -> u8 {
    outcome(op, x, y, flags).0
}

/// The flags after an operation.
pub open spec fn flags_after(op: AluOp, x: u8, y: u8, flags: Flags) -> Flags {
    outcome(op, x, y, flags).1
}

proof fn lemma_shifts(x: u8)
    by (bit_vector)
    ensures
        x << 1 == ((x * 2) % 256) as u8,
        x >> 1 == (x / 2) as u8,
        x >> 7 == (x / 128) as u8,
        x << 7 == ((x % 2) * 128) as u8,
        x >> 4 == (x / 16) as u8,
        x << 4 == ((x % 16) * 16) as u8,
        x & 0x80 == ((x / 128) * 128) as u8,
        !x == (255 - x) as u8,
{
}

fn bit_operation(op: AluOp, x: u8, n: u8, flags: Flags) -> (r: (u8, Flags))
    requires
        op.takes_bit_index(),
        n < 8,
    ensures
        r.0 == result(op, x, n, flags),
        r.1 == flags_after(op, x, n, flags),
{
    reveal(bit_changed);
    proof {
        lemma_single_bit(x, n);
        lemma_bit_weight(x, n);
        assert(((x >> n) & 1 == 1) == bit_of(x, n as int));
        assert((1u8 << n) == two_to(n as int));
    }
    match op {
        AluOp::BIT => (
            x,
            Flags {
                zero: (x >> n) & 1 != 1,
                subtract: false,
                half_carry: true,
                carry: flags.carry,
            },
        ),
        AluOp::RES => (x & !(1u8 << n), flags),
        _ => (x | (1u8 << n), flags),
    }
}

fn rotate(op: AluOp, x: u8, y: u8, flags: Flags) -> (r: (u8, Flags))
    requires
        op is RLC || op is RRC || op is RL || op is RR || op is SLA || op is SRA || op is SWAP
            || op is SRL,
    ensures
        r.0 == result(op, x, y, flags),
        r.1 == flags_after(op, x, y, flags),
{
    reveal(rotated);
    proof {
        lemma_shifts(x);
    }
    let c: u8 = if flags.carry { 1 } else { 0 };
    let (value, carry) = match op {
        AluOp::RLC => ((x << 1) + (x >> 7), x >= 0x80),
        AluOp::RRC => ((x >> 1) + (x << 7), x % 2 == 1),
        AluOp::RL => ((x << 1) + c, x >= 0x80),
        AluOp::RR => ((x >> 1) + c * 0x80, x % 2 == 1),
        AluOp::SLA => (x << 1, x >= 0x80),
        AluOp::SRA => ((x >> 1) + (x & 0x80), x % 2 == 1),
        AluOp::SWAP => ((x << 4) + (x >> 4), false),
        _ => (x >> 1, x % 2 == 1),
    };
    (value, Flags { zero: value == 0, subtract: false, half_carry: false, carry })
}

fn adjust_decimal(x: u8, y: u8, flags: Flags) -> (r: (u8, Flags))
    ensures
        r.0 == result(AluOp::DAA, x, y, flags),
        r.1 == flags_after(AluOp::DAA, x, y, flags),
{
    reveal(adjusted);
    let mut value = x;
    let mut carry = flags.carry;
    if flags.subtract {
        if flags.carry {
            value = value.wrapping_sub(0x60);
        }
        if flags.half_carry {
            value = value.wrapping_sub(0x06);
        }
    } else {
        if flags.carry || x > 0x99 {
            value = value.wrapping_add(0x60);
            carry = true;
        }
        if flags.half_carry || x % 16 > 9 {
            value = value.wrapping_add(0x06);
        }
    }
    (value, Flags { zero: value == 0, subtract: flags.subtract, half_carry: false, carry })
}

fn arithmetic(op: AluOp, x: u8, y: u8, flags: Flags) -> (r: (u8, Flags))
    requires
        op is ADD || op is ADC || op is SUB || op is SBC || op is CP,
    ensures
        r.0 == result(op, x, y, flags),
        r.1 == flags_after(op, x, y, flags),
{
    reveal(summed);
    let c: u8 = if flags.carry { 1 } else { 0 };
    match op {
        AluOp::ADD => {
            let value = x.wrapping_add(y);
            (
                value,
                Flags {
                    zero: value == 0,
                    subtract: false,
                    half_carry: x % 16 + y % 16 > 15,
                    carry: value < x,
                },
            )
        },
        AluOp::ADC => {
            let value = x.wrapping_add(y).wrapping_add(c);
            (
                value,
                Flags {
                    zero: value == 0,
                    subtract: false,
                    half_carry: x % 16 + y % 16 + c > 15,
                    carry: value < x || (c == 1 && value == x),
                },
            )
        },
        AluOp::SUB => {
            let value = x.wrapping_sub(y);
            (
                value,
                Flags { zero: value == 0, subtract: true, half_carry: x % 16 < y % 16, carry: x < y },
            )
        },
        AluOp::SBC => {
            let value = x.wrapping_sub(y).wrapping_sub(c);
            (
                value,
                Flags {
                    zero: value == 0,
                    subtract: true,
                    half_carry: x % 16 < y % 16 + c,
                    carry: x < y || (c == 1 && x == y),
                },
            )
        },
        _ => (
            x,
            Flags { zero: x == y, subtract: true, half_carry: x % 16 < y % 16, carry: x < y },
        ),
    }
}

fn logic(op: AluOp, x: u8, y: u8, flags: Flags) -> (r: (u8, Flags))
    requires
        op is AND || op is XOR || op is OR,
    ensures
        r.0 == result(op, x, y, flags),
        r.1 == flags_after(op, x, y, flags),
{
    reveal(combined);
    let (value, half_carry) = match op {
        AluOp::AND => (x & y, true),
        AluOp::XOR => (x ^ y, false),
        _ => (x | y, false),
    };
    (value, Flags { zero: value == 0, subtract: false, half_carry, carry: false })
}

fn flag_operation(op: AluOp, x: u8, y: u8, flags: Flags) -> (r: (u8, Flags))
    requires
        op is CPL || op is CCF || op is SCF,
    ensures
        r.0 == result(op, x, y, flags),
        r.1 == flags_after(op, x, y, flags),
{
    reveal(flagged);
    proof {
        lemma_shifts(x);
    }
    match op {
        AluOp::CPL => (
            !x,
            Flags { zero: flags.zero, subtract: true, half_carry: true, carry: flags.carry },
        ),
        AluOp::CCF => (
            x,
            Flags { zero: flags.zero, subtract: false, half_carry: false, carry: !flags.carry },
        ),
        _ => (x, Flags { zero: flags.zero, subtract: false, half_carry: false, carry: true }),
    }
}

/// Performs one operation. Addition, subtraction, logic, rotation and shift
/// follow the rules of the hardware bit for bit; BIT, RES and SET take the
/// bit index in `y`; the operations on the accumulator alone ignore `y`.
pub fn execute(op: AluOp, x: u8, y: u8, flags: Flags) -> (r: (u8, Flags))
    requires
        op.takes_bit_index() ==> y < 8,
    ensures
        r.0 == result(op, x, y, flags),
        r.1 == flags_after(op, x, y, flags),
{
    match op {
        AluOp::ADD | AluOp::ADC | AluOp::SUB | AluOp::SBC | AluOp::CP => arithmetic(
            op,
            x,
            y,
            flags,
        ),
        AluOp::AND | AluOp::XOR | AluOp::OR => logic(op, x, y, flags),
        AluOp::RLC
        | AluOp::RRC
        | AluOp::RL
        | AluOp::RR
        | AluOp::SLA
        | AluOp::SRA
        | AluOp::SWAP
        | AluOp::SRL => rotate(op, x, y, flags),
        AluOp::BIT | AluOp::RES | AluOp::SET => bit_operation(op, x, y, flags),
        AluOp::DAA => adjust_decimal(x, y, flags),
        AluOp::CPL | AluOp::CCF | AluOp::SCF => flag_operation(op, x, y, flags),
    }
}

} // verus!
