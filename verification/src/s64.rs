//! The execution engine: a register file of sixteen registers stored as
//! 64 lane slots of 64 bits each (four slots per register, of which a
//! register's width makes one, two or four active), a program counter, and
//! one method per opcode.

use vstd::prelude::*;

use crate::error::{RunError, RunStatus, SsError};
use crate::fp::{
    fp_add, fp_add_bits, fp_div, fp_div_bits, fp_mul, fp_mul_bits, fp_of_u16, fp_of_u16_bits,
    fp_rem, fp_rem_bits, fp_sub, fp_sub_bits,
};
use crate::instruction::Instruction;
use crate::opcode::{is_branch, opcode_of_tag, Opcode};
use crate::register::{is_float_id, width_of_id};

verus! {

/// The number of lane slots in the register file: sixteen registers of four
/// slots each.
pub const LANE_SLOTS: usize = 64;

/// Whether lane slot `j` is inactive: it belongs to the zero register, or it
/// lies at or past its register's width. Inactive slots always hold zero.
pub open spec fn inactive_slot(j: int) -> bool {
    j / 4 == 0 || j % 4 >= width_of_id(j / 4)
}

/// The register file is well formed: 64 lane slots, every inactive one zero.
pub open spec fn regs_wf(regs: Seq<u64>) -> bool {
    &&& regs.len() == 64
    &&& forall|j: int| 0 <= j < 64 && inactive_slot(j) ==> regs[j] == 0
}

/// The value of lane `k` of the register with id `r`.
pub open spec fn lane_of(regs: Seq<u64>, r: int, k: int) -> u64 {
    regs[4 * r + k]
}

/// A lane-wise unary operation: what one step writes into each active lane
/// of a destination register, as a function of the lane's old value.
#[derive(Clone, Copy, Debug)]
pub enum LaneUnOp {
    /// Zero the lane.
    Clear,
    /// Bitwise complement.
    NotB,
    /// Wrapping increment by one.
    IncW,
    /// Wrapping decrement by one.
    DecW,
    /// Two's-complement negation.
    NegW,
    /// IEEE-754 binary64 sign flip.
    FNeg,
    /// Left shift; an amount of 64 or more clears the lane.
    ShlSat(u64),
    /// Right shift; an amount of 64 or more clears the lane.
    ShrSat(u64),
    /// Broadcast a constant, ignoring the old value.
    ConstV(u64),
    /// IEEE-754 binary64 addition of a constant bit pattern.
    FAddC(u64),
    /// IEEE-754 binary64 subtraction of a constant bit pattern.
    FSubC(u64),
}

/// The value a unary lane operation leaves in a lane that held `a`.
pub open spec fn un_spec(op: LaneUnOp, a: u64) -> u64 {
    match op {
        LaneUnOp::Clear => 0u64,
        LaneUnOp::NotB => !a,
        LaneUnOp::IncW => vstd::wrapping::u64_specs::wrapping_add(a, 1),
        LaneUnOp::DecW => vstd::wrapping::u64_specs::wrapping_sub(a, 1),
        LaneUnOp::NegW => vstd::wrapping::u64_specs::wrapping_sub(0, a),
        LaneUnOp::FNeg => a ^ 0x8000_0000_0000_0000,
        LaneUnOp::ShlSat(s) => if s >= 64 {
            0u64
        } else {
            a << s
        },
        LaneUnOp::ShrSat(s) => if s >= 64 {
            0u64
        } else {
            a >> s
        },
        LaneUnOp::ConstV(c) => c,
        LaneUnOp::FAddC(c) => fp_add_bits(a, c),
        LaneUnOp::FSubC(c) => fp_sub_bits(a, c),
    }
}

/// A lane-wise binary operation: what one step writes into each active lane
/// of a destination register, as a function of the destination lane's old
/// value `a` and the source register's matching lane `b`.
#[derive(Clone, Copy, Debug)]
pub enum LaneBinOp {
    /// The source lane unchanged.
    CopyB,
    /// Bitwise and, or, exclusive or of destination and source.
    AndB,
    OrB,
    XorB,
    /// Wrapping sum, difference, product of destination and source.
    AddW,
    SubW,
    MulW,
    /// Integer quotient and remainder of destination by source; only applied
    /// with a nonzero divisor.
    DivI,
    ModI,
    /// IEEE-754 binary64 combination of destination and source lanes.
    FAdd,
    FSub,
    FMul,
    FDiv,
    FRem,
    /// Bitwise combination of the source lane with the literal operand.
    DandI(u16),
    DorI(u16),
    DxorI(u16),
    /// The source lane shifted by the literal operand; 64 or more clears.
    DshlI(u16),
    DshrI(u16),
    /// Wrapping arithmetic of the source lane with the literal operand.
    DaddW(u16),
    DsubW(u16),
    DmulW(u16),
    /// Quotient and remainder of the source lane by the literal operand;
    /// only applied with a nonzero operand.
    DdivI(u16),
    DmodI(u16),
    /// IEEE-754 binary64 combination of the source lane with the literal
    /// operand taken as a binary64 value.
    FDadd(u16),
    FDsub(u16),
    FDmul(u16),
    FDdiv(u16),
    FDrem(u16),
}

/// The value a binary lane operation leaves in a destination lane that held
/// `a`, with `b` the matching source lane.
pub open spec fn bin_spec(op: LaneBinOp, a: u64, b: u64) -> u64 {
    match op {
        LaneBinOp::CopyB => b,
        LaneBinOp::AndB => a & b,
        LaneBinOp::OrB => a | b,
        LaneBinOp::XorB => a ^ b,
        LaneBinOp::AddW => vstd::wrapping::u64_specs::wrapping_add(a, b),
        LaneBinOp::SubW => vstd::wrapping::u64_specs::wrapping_sub(a, b),
        LaneBinOp::MulW => vstd::wrapping::u64_specs::wrapping_mul(a, b),
        LaneBinOp::DivI => if b == 0 {
            0u64
        } else {
            a / b
        },
        LaneBinOp::ModI => if b == 0 {
            0u64
        } else {
            a % b
        },
        LaneBinOp::FAdd => fp_add_bits(a, b),
        LaneBinOp::FSub => fp_sub_bits(a, b),
        LaneBinOp::FMul => fp_mul_bits(a, b),
        LaneBinOp::FDiv => fp_div_bits(a, b),
        LaneBinOp::FRem => fp_rem_bits(a, b),
        LaneBinOp::DandI(d) => b & (d as u64),
        LaneBinOp::DorI(d) => b | (d as u64),
        LaneBinOp::DxorI(d) => b ^ (d as u64),
        LaneBinOp::DshlI(d) => if d >= 64 {
            0u64
        } else {
            b << (d as u64)
        },
        LaneBinOp::DshrI(d) => if d >= 64 {
            0u64
        } else {
            b >> (d as u64)
        },
        LaneBinOp::DaddW(d) => vstd::wrapping::u64_specs::wrapping_add(b, d as u64),
        LaneBinOp::DsubW(d) => vstd::wrapping::u64_specs::wrapping_sub(b, d as u64),
        LaneBinOp::DmulW(d) => vstd::wrapping::u64_specs::wrapping_mul(b, d as u64),
        LaneBinOp::DdivI(d) => if d == 0 {
            0u64
        } else {
            b / (d as u64)
        },
        LaneBinOp::DmodI(d) => if d == 0 {
            0u64
        } else {
            b % (d as u64)
        },
        LaneBinOp::FDadd(d) => fp_add_bits(b, fp_of_u16_bits(d)),
        LaneBinOp::FDsub(d) => fp_sub_bits(b, fp_of_u16_bits(d)),
        LaneBinOp::FDmul(d) => fp_mul_bits(b, fp_of_u16_bits(d)),
        LaneBinOp::FDdiv(d) => fp_div_bits(b, fp_of_u16_bits(d)),
        LaneBinOp::FDrem(d) => fp_rem_bits(b, fp_of_u16_bits(d)),
    }
}

/// The register file after a unary operation is applied to every active lane
/// of the register with id `r`. A write to the zero register is discarded.
pub open spec fn apply1_spec(regs: Seq<u64>, r: int, op: LaneUnOp) -> Seq<u64> {
    if r == 0 {
        regs
    } else {
        let w = width_of_id(r);
        let s1 = regs.update(4 * r, un_spec(op, regs[4 * r]));
        let s2 = if w >= 2 {
            s1.update(4 * r + 1, un_spec(op, regs[4 * r + 1]))
        } else {
            s1
        };
        if w >= 4 {
            s2.update(4 * r + 2, un_spec(op, regs[4 * r + 2])).update(
                4 * r + 3,
                un_spec(op, regs[4 * r + 3]),
            )
        } else {
            s2
        }
    }
}

/// The register file after a binary operation is applied to every active
/// lane of the register with id `r0`, combining it with the matching lane of
/// the register with id `r1`. A write to the zero register is discarded.
pub open spec fn apply2_spec(regs: Seq<u64>, r0: int, r1: int, op: LaneBinOp) -> Seq<u64> {
    if r0 == 0 {
        regs
    } else {
        let w = width_of_id(r0);
        let s1 = regs.update(4 * r0, bin_spec(op, regs[4 * r0], regs[4 * r1]));
        let s2 = if w >= 2 {
            s1.update(4 * r0 + 1, bin_spec(op, regs[4 * r0 + 1], regs[4 * r1 + 1]))
        } else {
            s1
        };
        if w >= 4 {
            s2.update(4 * r0 + 2, bin_spec(op, regs[4 * r0 + 2], regs[4 * r1 + 2])).update(
                4 * r0 + 3,
                bin_spec(op, regs[4 * r0 + 3], regs[4 * r1 + 3]),
            )
        } else {
            s2
        }
    }
}

/// The register file after the four given values are written into the active
/// lanes of the register with id `r`. A write to the zero register is
/// discarded; a narrow register takes only its first values.
pub open spec fn write_lanes_spec(regs: Seq<u64>, r: int, v0: u64, v1: u64, v2: u64, v3: u64)
    -> Seq<u64> {
    if r == 0 {
        regs
    } else {
        let w = width_of_id(r);
        let s1 = regs.update(4 * r, v0);
        let s2 = if w >= 2 {
            s1.update(4 * r + 1, v1)
        } else {
            s1
        };
        if w >= 4 {
            s2.update(4 * r + 2, v2).update(4 * r + 3, v3)
        } else {
            s2
        }
    }
}

/// The machine: the 64 lane slots of the register file, and the program
/// counter. Fresh machines are all zero.
pub struct S64 {
    pub lanes: Vec<u64>,
    pub pc: u64,
}

impl S64 {
    /// The mathematical register file of this machine.
    pub open spec fn regs(&self) -> Seq<u64> {
        self.lanes@
    }

    /// The machine is well formed: its register file is.
    pub open spec fn wf(&self) -> bool {
        regs_wf(self.lanes@)
    }

    /// A fresh machine: every lane of every register zero, the program
    /// counter at zero.
    pub fn new() -> (m: S64)
        ensures
            m.wf(),
            m.pc == 0,
            m.regs().len() == 64,
            forall|j: int| 0 <= j < 64 ==> m.regs()[j] == 0,
    {
        let mut lanes: Vec<u64> = Vec::new();
        let mut i: usize = 0;
        while i < LANE_SLOTS
            invariant
                i <= 64,
                lanes@.len() == i,
                forall|j: int| 0 <= j < i ==> lanes@[j] == 0,
            decreases 64 - i,
        {
            lanes.push(0);
            i = i + 1;
        }
        S64 { lanes, pc: 0 }
    }

    /// How many active lanes the register with id `r` has.
    fn width_of(r: u8) -> (w: usize)
        requires
            r < 16,
        ensures
            w == width_of_id(r as int),
            1 <= w <= 4,
    {
        if r < 10 {
            1
        } else if r < 13 {
            2
        } else {
            4
        }
    }

    /// Whether the register with id `r` is in the floating family.
    fn is_float_reg(r: u8) -> (b: bool)
        ensures
            b == is_float_id(r as int),
    {
        r >= 4 && r <= 6
    }

    /// The value of lane `k` of the register with id `r`.
    pub fn read_lane(&self, r: u8, k: usize) -> (v: u64)
        requires
            self.wf(),
            r < 16,
            k < 4,
        ensures
            v == lane_of(self.regs(), r as int, k as int),
    {
        self.lanes[4 * (r as usize) + k]
    }

    /// Applies a unary lane operation to every active lane of the register
    /// with id `r`; a write to the zero register is discarded. The program
    /// counter is untouched.
    fn apply1(&mut self, r: u8, op: LaneUnOp)
        requires
            old(self).wf(),
            r < 16,
        ensures
            final(self).wf(),
            final(self).regs() == apply1_spec(old(self).regs(), r as int, op),
            final(self).pc == old(self).pc,
    {
        if r == 0 {
            return ;
        }
        let base: usize = 4 * (r as usize);
        let w: usize = Self::width_of(r);
        let v0 = lane_un(op, self.lanes[base]);
        self.lanes[base] = v0;
        if w >= 2 {
            let v1 = lane_un(op, self.lanes[base + 1]);
            self.lanes[base + 1] = v1;
        }
        if w >= 4 {
            let v2 = lane_un(op, self.lanes[base + 2]);
            self.lanes[base + 2] = v2;
            let v3 = lane_un(op, self.lanes[base + 3]);
            self.lanes[base + 3] = v3;
        }
        proof {
            assert(self.regs() =~= apply1_spec(old(self).regs(), r as int, op));
        }
    }

    /// Applies a binary lane operation to every active lane of the register
    /// with id `r0`, with the matching lane of the register with id `r1` as
    /// the second operand; a write to the zero register is discarded. The
    /// program counter is untouched.
    fn apply2(&mut self, r0: u8, r1: u8, op: LaneBinOp)
        requires
            old(self).wf(),
            r0 < 16,
            r1 < 16,
        ensures
            final(self).wf(),
            final(self).regs() == apply2_spec(old(self).regs(), r0 as int, r1 as int, op),
            final(self).pc == old(self).pc,
    {
        if r0 == 0 {
            return ;
        }
        let b0: usize = 4 * (r0 as usize);
        let b1: usize = 4 * (r1 as usize);
        let w: usize = Self::width_of(r0);
        let v0 = lane_bin(op, self.lanes[b0], self.lanes[b1]);
        self.lanes[b0] = v0;
        if w >= 2 {
            let v1 = lane_bin(op, self.lanes[b0 + 1], self.lanes[b1 + 1]);
            self.lanes[b0 + 1] = v1;
        }
        if w >= 4 {
            let v2 = lane_bin(op, self.lanes[b0 + 2], self.lanes[b1 + 2]);
            self.lanes[b0 + 2] = v2;
            let v3 = lane_bin(op, self.lanes[b0 + 3], self.lanes[b1 + 3]);
            self.lanes[b0 + 3] = v3;
        }
        proof {
            assert(self.regs() =~= apply2_spec(old(self).regs(), r0 as int, r1 as int, op));
        }
    }

    /// Writes the four given values into the active lanes of the register
    /// with id `r`; a write to the zero register is discarded. The program
    /// counter is untouched.
    fn write_lanes(&mut self, r: u8, v0: u64, v1: u64, v2: u64, v3: u64)
        requires
            old(self).wf(),
            r < 16,
        ensures
            final(self).wf(),
            final(self).regs() == write_lanes_spec(old(self).regs(), r as int, v0, v1, v2, v3),
            final(self).pc == old(self).pc,
    {
        if r == 0 {
            return ;
        }
        let base: usize = 4 * (r as usize);
        let w: usize = Self::width_of(r);
        self.lanes[base] = v0;
        if w >= 2 {
            self.lanes[base + 1] = v1;
        }
        if w >= 4 {
            self.lanes[base + 2] = v2;
            self.lanes[base + 3] = v3;
        }
        proof {
            assert(self.regs() =~= write_lanes_spec(old(self).regs(), r as int, v0, v1, v2, v3));
        }
    }
}

/// One unary lane operation on one lane value.
fn lane_un(op: LaneUnOp, a: u64) -> (r: u64)
    ensures
        r == un_spec(op, a),
{
    match op {
        LaneUnOp::Clear => 0,
        LaneUnOp::NotB => !a,
        LaneUnOp::IncW => a.wrapping_add(1),
        LaneUnOp::DecW => a.wrapping_sub(1),
        LaneUnOp::NegW => 0u64.wrapping_sub(a),
        LaneUnOp::FNeg => a ^ 0x8000_0000_0000_0000,
        LaneUnOp::ShlSat(s) => if s >= 64 {
            0
        } else {
            a << s
        },
        LaneUnOp::ShrSat(s) => if s >= 64 {
            0
        } else {
            a >> s
        },
        LaneUnOp::ConstV(c) => c,
        LaneUnOp::FAddC(c) => fp_add(a, c),
        LaneUnOp::FSubC(c) => fp_sub(a, c),
    }
}

/// One binary lane operation on one pair of lane values.
fn lane_bin(op: LaneBinOp, a: u64, b: u64) -> (r: u64)
    ensures
        r == bin_spec(op, a, b),
{
    match op {
        LaneBinOp::CopyB => b,
        LaneBinOp::AndB => a & b,
        LaneBinOp::OrB => a | b,
        LaneBinOp::XorB => a ^ b,
        LaneBinOp::AddW => a.wrapping_add(b),
        LaneBinOp::SubW => a.wrapping_sub(b),
        LaneBinOp::MulW => a.wrapping_mul(b),
        LaneBinOp::DivI => if b == 0 {
            0
        } else {
            a / b
        },
        LaneBinOp::ModI => if b == 0 {
            0
        } else {
            a % b
        },
        LaneBinOp::FAdd => fp_add(a, b),
        LaneBinOp::FSub => fp_sub(a, b),
        LaneBinOp::FMul => fp_mul(a, b),
        LaneBinOp::FDiv => fp_div(a, b),
        LaneBinOp::FRem => fp_rem(a, b),
        LaneBinOp::DandI(d) => b & (d as u64),
        LaneBinOp::DorI(d) => b | (d as u64),
        LaneBinOp::DxorI(d) => b ^ (d as u64),
        LaneBinOp::DshlI(d) => if d >= 64 {
            0
        } else {
            b << (d as u64)
        },
        LaneBinOp::DshrI(d) => if d >= 64 {
            0
        } else {
            b >> (d as u64)
        },
        LaneBinOp::DaddW(d) => b.wrapping_add(d as u64),
        LaneBinOp::DsubW(d) => b.wrapping_sub(d as u64),
        LaneBinOp::DmulW(d) => b.wrapping_mul(d as u64),
        LaneBinOp::DdivI(d) => if d == 0 {
            0
        } else {
            b / (d as u64)
        },
        LaneBinOp::DmodI(d) => if d == 0 {
            0
        } else {
            b % (d as u64)
        },
        LaneBinOp::FDadd(d) => fp_add(b, fp_of_u16(d)),
        LaneBinOp::FDsub(d) => fp_sub(b, fp_of_u16(d)),
        LaneBinOp::FDmul(d) => fp_mul(b, fp_of_u16(d)),
        LaneBinOp::FDdiv(d) => fp_div(b, fp_of_u16(d)),
        LaneBinOp::FDrem(d) => fp_rem(b, fp_of_u16(d)),
    }
}

} // verus!

verus! {

/// The register file after the Set operation: the 16-bit slice of the
/// register with id `r0` selected by index `idx` is cleared and `d` is ORed
/// in. An index at or past the register's width degrades to lane 0, shift 0.
/// A write to the zero register is discarded.
pub open spec fn set_spec(regs: Seq<u64>, r0: int, idx: int, d: u16) -> Seq<u64> {
    if r0 == 0 {
        regs
    } else {
        let e = if idx < 4 * width_of_id(r0) {
            idx
        } else {
            0
        };
        let li = 4 * r0 + e / 4;
        let sh = (16 * (e % 4)) as u64;
        regs.update(li, (regs[li] & !(0xFFFFu64 << sh)) | ((d as u64) << sh))
    }
}

/// The register file after the Get operation: the 16-bit slice of the
/// register with id `r0` selected by index `idx` is read, and written into
/// the matching slice of the general-purpose accumulator (register id 1,
/// lane 0). An index at or past the register's width degrades to lane 0,
/// shift 0.
pub open spec fn get_spec(regs: Seq<u64>, r0: int, idx: int) -> Seq<u64> {
    let e = if idx < 4 * width_of_id(r0) {
        idx
    } else {
        0
    };
    let sh = (16 * (e % 4)) as u64;
    let v = (regs[4 * r0 + e / 4] >> sh) & 0xFFFF;
    regs.update(4, (regs[4] & !(0xFFFFu64 << sh)) | (v << sh))
}

/// The register file after the Swap operation: the active lanes of the
/// registers with ids `r0` and `r1` exchange values; writes to the zero
/// register are discarded.
pub open spec fn swap_spec(regs: Seq<u64>, r0: int, r1: int) -> Seq<u64> {
    write_lanes_spec(
        write_lanes_spec(
            regs,
            r0,
            lane_of(regs, r1, 0),
            lane_of(regs, r1, 1),
            lane_of(regs, r1, 2),
            lane_of(regs, r1, 3),
        ),
        r1,
        lane_of(regs, r0, 0),
        lane_of(regs, r0, 1),
        lane_of(regs, r0, 2),
        lane_of(regs, r0, 3),
    )
}

/// Whether a Div or Mod instruction faults: some active lane of the
/// destination register with id `r0` would divide by a zero lane of the
/// source register with id `r1`.
pub open spec fn div_fault(regs: Seq<u64>, r0: int, r1: int) -> bool {
    ||| lane_of(regs, r1, 0) == 0
    ||| width_of_id(r0) >= 2 && lane_of(regs, r1, 1) == 0
    ||| width_of_id(r0) >= 4 && (lane_of(regs, r1, 2) == 0 || lane_of(regs, r1, 3) == 0)
}

/// The increment operation for the register with id `r`: binary64 addition
/// of one for the floating family, a wrapping increment otherwise.
pub open spec fn inc_op(r: int) -> LaneUnOp {
    if is_float_id(r) {
        LaneUnOp::FAddC(fp_of_u16_bits(1))
    } else {
        LaneUnOp::IncW
    }
}

/// The decrement operation for the register with id `r`.
pub open spec fn dec_op(r: int) -> LaneUnOp {
    if is_float_id(r) {
        LaneUnOp::FSubC(fp_of_u16_bits(1))
    } else {
        LaneUnOp::DecW
    }
}

/// The negation operation for the register with id `r`: an IEEE-754 sign
/// flip for the floating family, two's-complement negation otherwise.
pub open spec fn neg_op(r: int) -> LaneUnOp {
    if is_float_id(r) {
        LaneUnOp::FNeg
    } else {
        LaneUnOp::NegW
    }
}

/// What Dinc broadcasts into the destination register with id `r`: the
/// literal operand plus one, as a binary64 value for the floating family.
pub open spec fn dinc_val(r: int, d: u16) -> u64 {
    if is_float_id(r) {
        fp_add_bits(fp_of_u16_bits(d), fp_of_u16_bits(1))
    } else {
        (d + 1) as u64
    }
}

/// What Ddec broadcasts into the destination register with id `r`: the
/// literal operand minus one (wrapping), as a binary64 value for the
/// floating family.
pub open spec fn ddec_val(r: int, d: u16) -> u64 {
    if is_float_id(r) {
        fp_sub_bits(fp_of_u16_bits(d), fp_of_u16_bits(1))
    } else {
        vstd::wrapping::u64_specs::wrapping_sub(d as u64, 1)
    }
}

/// What Dneg broadcasts into the destination register with id `r`: the
/// 16-bit two's complement of the literal operand, zero-extended, or taken
/// as a binary64 value for the floating family.
pub open spec fn dneg_val(r: int, d: u16) -> u64 {
    let n = vstd::wrapping::u16_specs::wrapping_sub(0, d);
    if is_float_id(r) {
        fp_of_u16_bits(n)
    } else {
        n as u64
    }
}

/// What Dinc, Ddec and Dneg broadcast into the source register with id `r`:
/// the literal operand itself, as a binary64 value for the floating family.
pub open spec fn dval(r: int, d: u16) -> u64 {
    if is_float_id(r) {
        fp_of_u16_bits(d)
    } else {
        d as u64
    }
}

/// The program counter after an advance of one.
pub open spec fn pc_advance(pc: u64) -> u64 {
    vstd::wrapping::u64_specs::wrapping_add(pc, 1)
}

/// The program counter after a branch with displacement `d`: a zero
/// displacement falls through to the next instruction; otherwise the
/// displacement, sign-extended, is added to the counter.
pub open spec fn pc_jump(pc: u64, d: u16) -> u64 {
    if d == 0 {
        pc_advance(pc)
    } else {
        vstd::wrapping::u64_specs::wrapping_add_signed(pc, (d as i16) as i64)
    }
}

} // verus!

verus! {

/// Which failure, if any, an instruction raises before it mutates anything:
/// Div and Mod fault on a zero divisor lane, Ddiv and Dmod on a zero literal
/// operand. A faulting instruction changes no state.
pub open spec fn step_fault(regs: Seq<u64>, op: Opcode, r0: int, r1: int, d: u16) -> Option<
    SsError,
> {
    match op {
        Opcode::Div | Opcode::Mod => if div_fault(regs, r0, r1) {
            Some(SsError::DivideFault)
        } else {
            None
        },
        Opcode::Ddiv | Opcode::Dmod => if d == 0 {
            Some(SsError::DivideFault)
        } else {
            None
        },
        _ => None,
    }
}

/// The register file after one non-faulting instruction: opcode `op` with
/// destination selector `r0`, source selector `r1` and literal operand `d`.
pub open spec fn regs_after(regs: Seq<u64>, op: Opcode, r0: int, r1: int, d: u16) -> Seq<u64> {
    match op {
        Opcode::Nop => apply1_spec(apply1_spec(regs, r0, LaneUnOp::Clear), r1, LaneUnOp::Clear),
        Opcode::Set16 => set_spec(regs, r0, r1, d),
        Opcode::Get => get_spec(regs, r0, r1),
        Opcode::Update => apply2_spec(regs, r0, r1, LaneBinOp::CopyB),
        Opcode::Delete => apply1_spec(
            apply2_spec(regs, r0, r1, LaneBinOp::CopyB),
            r1,
            LaneUnOp::Clear,
        ),
        Opcode::Swap => swap_spec(regs, r0, r1),
        Opcode::And => apply2_spec(regs, r0, r1, LaneBinOp::AndB),
        Opcode::Or => apply2_spec(regs, r0, r1, LaneBinOp::OrB),
        Opcode::Xor => apply2_spec(regs, r0, r1, LaneBinOp::XorB),
        Opcode::Not => apply1_spec(apply1_spec(regs, r1, LaneUnOp::NotB), r0, LaneUnOp::NotB),
        Opcode::Dnot => apply1_spec(apply1_spec(regs, r1, LaneUnOp::NotB), r0, LaneUnOp::NotB),
        Opcode::Shl => apply1_spec(regs, r0, LaneUnOp::ShlSat(lane_of(regs, r1, 0))),
        Opcode::Shr => apply1_spec(regs, r0, LaneUnOp::ShrSat(lane_of(regs, r1, 0))),
        Opcode::Dand => apply2_spec(regs, r0, r1, LaneBinOp::DandI(d)),
        Opcode::Dor => apply2_spec(regs, r0, r1, LaneBinOp::DorI(d)),
        Opcode::Dxor => apply2_spec(regs, r0, r1, LaneBinOp::DxorI(d)),
        Opcode::Dshl => apply2_spec(regs, r0, r1, LaneBinOp::DshlI(d)),
        Opcode::Dshr => apply2_spec(regs, r0, r1, LaneBinOp::DshrI(d)),
        Opcode::Add => apply2_spec(
            regs,
            r0,
            r1,
            if is_float_id(r0) {
                LaneBinOp::FAdd
            } else {
                LaneBinOp::AddW
            },
        ),
        Opcode::Sub => apply2_spec(
            regs,
            r0,
            r1,
            if is_float_id(r0) {
                LaneBinOp::FSub
            } else {
                LaneBinOp::SubW
            },
        ),
        Opcode::Mul => apply2_spec(
            regs,
            r0,
            r1,
            if is_float_id(r0) {
                LaneBinOp::FMul
            } else {
                LaneBinOp::MulW
            },
        ),
        Opcode::Div => apply2_spec(
            regs,
            r0,
            r1,
            if is_float_id(r0) {
                LaneBinOp::FDiv
            } else {
                LaneBinOp::DivI
            },
        ),
        Opcode::Mod => apply2_spec(
            regs,
            r0,
            r1,
            if is_float_id(r0) {
                LaneBinOp::FRem
            } else {
                LaneBinOp::ModI
            },
        ),
        Opcode::Inc => apply1_spec(apply1_spec(regs, r1, inc_op(r1)), r0, inc_op(r0)),
        Opcode::Dec => apply1_spec(apply1_spec(regs, r1, dec_op(r1)), r0, dec_op(r0)),
        Opcode::Neg => apply1_spec(apply1_spec(regs, r1, neg_op(r1)), r0, neg_op(r0)),
        Opcode::Dadd => apply2_spec(
            regs,
            r0,
            r1,
            if is_float_id(r0) {
                LaneBinOp::FDadd(d)
            } else {
                LaneBinOp::DaddW(d)
            },
        ),
        Opcode::Dsub => apply2_spec(
            regs,
            r0,
            r1,
            if is_float_id(r0) {
                LaneBinOp::FDsub(d)
            } else {
                LaneBinOp::DsubW(d)
            },
        ),
        Opcode::Dmul => apply2_spec(
            regs,
            r0,
            r1,
            if is_float_id(r0) {
                LaneBinOp::FDmul(d)
            } else {
                LaneBinOp::DmulW(d)
            },
        ),
        Opcode::Ddiv => apply2_spec(
            regs,
            r0,
            r1,
            if is_float_id(r0) {
                LaneBinOp::FDdiv(d)
            } else {
                LaneBinOp::DdivI(d)
            },
        ),
        Opcode::Dmod => apply2_spec(
            regs,
            r0,
            r1,
            if is_float_id(r0) {
                LaneBinOp::FDrem(d)
            } else {
                LaneBinOp::DmodI(d)
            },
        ),
        Opcode::Dinc => apply1_spec(
            apply1_spec(regs, r0, LaneUnOp::ConstV(dinc_val(r0, d))),
            r1,
            LaneUnOp::ConstV(dval(r1, d)),
        ),
        Opcode::Ddec => apply1_spec(
            apply1_spec(regs, r0, LaneUnOp::ConstV(ddec_val(r0, d))),
            r1,
            LaneUnOp::ConstV(dval(r1, d)),
        ),
        Opcode::Dneg => apply1_spec(
            apply1_spec(regs, r0, LaneUnOp::ConstV(dneg_val(r0, d))),
            r1,
            LaneUnOp::ConstV(dval(r1, d)),
        ),
    }
}

/// The program counter after one non-faulting instruction: a branch opcode
/// follows the displacement rule, any other opcode advances by one.
pub open spec fn pc_after(pc: u64, op: Opcode, d: u16) -> u64 {
    if is_branch(op) {
        pc_jump(pc, d)
    } else {
        pc_advance(pc)
    }
}

} // verus!

verus! {

impl S64 {
    /// The four lane slots of the register with id `reg0`. Slots past the
    /// register's width, and every slot of the zero register, read as zero.
    pub fn get_vals(&self, reg0: u8) -> (r: (u64, u64, u64, u64))
        requires
            self.wf(),
            reg0 < 16,
        ensures
            r.0 == lane_of(self.regs(), reg0 as int, 0),
            r.1 == lane_of(self.regs(), reg0 as int, 1),
            r.2 == lane_of(self.regs(), reg0 as int, 2),
            r.3 == lane_of(self.regs(), reg0 as int, 3),
    {
        let base: usize = 4 * (reg0 as usize);
        (self.lanes[base], self.lanes[base + 1], self.lanes[base + 2], self.lanes[base + 3])
    }

    /// Moves the program counter by the signed displacement `data`: zero
    /// falls through to the next instruction, anything else is added,
    /// sign-extended and wrapping, to the counter. Registers are untouched.
    pub fn jump_op(&mut self, data: u16)
        ensures
            final(self).regs() == old(self).regs(),
            final(self).pc == pc_jump(old(self).pc, data),
    {
        if data == 0 {
            self.pc = self.pc.wrapping_add(1);
        } else {
            self.pc = self.pc.wrapping_add_signed((data as i16) as i64);
        }
    }

    /// Nop: clears the registers selected by `reg0` and `reg1`,
    /// independently (the zero register is a no-op target); branches.
    pub fn nop(&mut self, reg0: u8, reg1: u8, data: u16)
        requires
            old(self).wf(),
            reg0 < 16,
            reg1 < 16,
        ensures
            final(self).wf(),
            final(self).regs() == regs_after(
                old(self).regs(),
                Opcode::Nop,
                reg0 as int,
                reg1 as int,
                data,
            ),
            final(self).pc == pc_jump(old(self).pc, data),
    {
        self.apply1(reg0, LaneUnOp::Clear);
        self.apply1(reg1, LaneUnOp::Clear);
        self.jump_op(data);
    }

    /// Set: clears the 16-bit slice of `reg0` selected by the index in
    /// `reg1`, then ORs `data` into it; does not branch. An index at or past
    /// the register's width degrades to lane 0, shift 0.
    pub fn set(&mut self, reg0: u8, reg1: u8, data: u16)
        requires
            old(self).wf(),
            reg0 < 16,
            reg1 < 16,
        ensures
            final(self).wf(),
            final(self).regs() == set_spec(old(self).regs(), reg0 as int, reg1 as int, data),
            final(self).pc == pc_advance(old(self).pc),
    {
        if reg0 != 0 {
            let w: usize = Self::width_of(reg0);
            let e: usize = if (reg1 as usize) < 4 * w {
                reg1 as usize
            } else {
                0
            };
            let li: usize = 4 * (reg0 as usize) + e / 4;
            let sh: u64 = 16 * ((e as u64) % 4);
            let oldv: u64 = self.lanes[li];
            self.lanes[li] = (oldv & !(0xFFFFu64 << sh)) | ((data as u64) << sh);
            proof {
                assert(self.regs() =~= set_spec(
                    old(self).regs(),
                    reg0 as int,
                    reg1 as int,
                    data,
                ));
            }
        }
        self.jump_op(0);
    }

    /// Get: reads the 16-bit slice of `reg0` selected by the index in
    /// `reg1` and writes it into the matching slice of the general-purpose
    /// accumulator (register r0); branches.
    pub fn get(&mut self, reg0: u8, reg1: u8, data: u16)
        requires
            old(self).wf(),
            reg0 < 16,
            reg1 < 16,
        ensures
            final(self).wf(),
            final(self).regs() == get_spec(old(self).regs(), reg0 as int, reg1 as int),
            final(self).pc == pc_jump(old(self).pc, data),
    {
        let w: usize = Self::width_of(reg0);
        let e: usize = if (reg1 as usize) < 4 * w {
            reg1 as usize
        } else {
            0
        };
        let li: usize = 4 * (reg0 as usize) + e / 4;
        let sh: u64 = 16 * ((e as u64) % 4);
        let v: u64 = (self.lanes[li] >> sh) & 0xFFFF;
        let acc: u64 = self.lanes[4];
        self.lanes[4] = (acc & !(0xFFFFu64 << sh)) | (v << sh);
        proof {
            assert(self.regs() =~= get_spec(old(self).regs(), reg0 as int, reg1 as int));
        }
        self.jump_op(data);
    }

    /// Update: copies all lanes of `reg1` into `reg0`; branches.
    pub fn update(&mut self, reg0: u8, reg1: u8, data: u16)
        requires
            old(self).wf(),
            reg0 < 16,
            reg1 < 16,
        ensures
            final(self).wf(),
            final(self).regs() == apply2_spec(
                old(self).regs(),
                reg0 as int,
                reg1 as int,
                LaneBinOp::CopyB,
            ),
            final(self).pc == pc_jump(old(self).pc, data),
    {
        self.apply2(reg0, reg1, LaneBinOp::CopyB);
        self.jump_op(data);
    }

    /// Delete: copies all lanes of `reg1` into `reg0`, then clears `reg1`;
    /// branches.
    pub fn delete(&mut self, reg0: u8, reg1: u8, data: u16)
        requires
            old(self).wf(),
            reg0 < 16,
            reg1 < 16,
        ensures
            final(self).wf(),
            final(self).regs() == regs_after(
                old(self).regs(),
                Opcode::Delete,
                reg0 as int,
                reg1 as int,
                data,
            ),
            final(self).pc == pc_jump(old(self).pc, data),
    {
        self.apply2(reg0, reg1, LaneBinOp::CopyB);
        self.apply1(reg1, LaneUnOp::Clear);
        self.jump_op(data);
    }

    /// Swap: exchanges all lanes of `reg0` and `reg1`; branches.
    pub fn swap(&mut self, reg0: u8, reg1: u8, data: u16)
        requires
            old(self).wf(),
            reg0 < 16,
            reg1 < 16,
        ensures
            final(self).wf(),
            final(self).regs() == swap_spec(old(self).regs(), reg0 as int, reg1 as int),
            final(self).pc == pc_jump(old(self).pc, data),
    {
        let (a0, a1, a2, a3) = self.get_vals(reg0);
        let (b0, b1, b2, b3) = self.get_vals(reg1);
        self.write_lanes(reg0, b0, b1, b2, b3);
        self.write_lanes(reg1, a0, a1, a2, a3);
        self.jump_op(data);
    }

    /// And: `reg0 &= reg1`, lane-wise; branches.
    pub fn and(&mut self, reg0: u8, reg1: u8, data: u16)
        requires
            old(self).wf(),
            reg0 < 16,
            reg1 < 16,
        ensures
            final(self).wf(),
            final(self).regs() == apply2_spec(
                old(self).regs(),
                reg0 as int,
                reg1 as int,
                LaneBinOp::AndB,
            ),
            final(self).pc == pc_jump(old(self).pc, data),
    {
        self.apply2(reg0, reg1, LaneBinOp::AndB);
        self.jump_op(data);
    }

    /// Or: `reg0 |= reg1`, lane-wise; branches.
    pub fn or(&mut self, reg0: u8, reg1: u8, data: u16)
        requires
            old(self).wf(),
            reg0 < 16,
            reg1 < 16,
        ensures
            final(self).wf(),
            final(self).regs() == apply2_spec(
                old(self).regs(),
                reg0 as int,
                reg1 as int,
                LaneBinOp::OrB,
            ),
            final(self).pc == pc_jump(old(self).pc, data),
    {
        self.apply2(reg0, reg1, LaneBinOp::OrB);
        self.jump_op(data);
    }

    /// Xor: `reg0 ^= reg1`, lane-wise; branches.
    pub fn xor(&mut self, reg0: u8, reg1: u8, data: u16)
        requires
            old(self).wf(),
            reg0 < 16,
            reg1 < 16,
        ensures
            final(self).wf(),
            final(self).regs() == apply2_spec(
                old(self).regs(),
                reg0 as int,
                reg1 as int,
                LaneBinOp::XorB,
            ),
            final(self).pc == pc_jump(old(self).pc, data),
    {
        self.apply2(reg0, reg1, LaneBinOp::XorB);
        self.jump_op(data);
    }

    /// Not: complements `reg1` and then `reg0`, each over its own lanes;
    /// branches.
    pub fn not(&mut self, reg0: u8, reg1: u8, data: u16)
        requires
            old(self).wf(),
            reg0 < 16,
            reg1 < 16,
        ensures
            final(self).wf(),
            final(self).regs() == regs_after(
                old(self).regs(),
                Opcode::Not,
                reg0 as int,
                reg1 as int,
                data,
            ),
            final(self).pc == pc_jump(old(self).pc, data),
    {
        self.apply1(reg1, LaneUnOp::NotB);
        self.apply1(reg0, LaneUnOp::NotB);
        self.jump_op(data);
    }

    /// Shl: shifts every lane of `reg0` left by the scalar amount in the
    /// first lane of `reg1`; an amount of 64 or more clears the register;
    /// branches.
    pub fn shl(&mut self, reg0: u8, reg1: u8, data: u16)
        requires
            old(self).wf(),
            reg0 < 16,
            reg1 < 16,
        ensures
            final(self).wf(),
            final(self).regs() == regs_after(
                old(self).regs(),
                Opcode::Shl,
                reg0 as int,
                reg1 as int,
                data,
            ),
            final(self).pc == pc_jump(old(self).pc, data),
    {
        let amt: u64 = self.read_lane(reg1, 0);
        self.apply1(reg0, LaneUnOp::ShlSat(amt));
        self.jump_op(data);
    }

    /// Shr: shifts every lane of `reg0` right by the scalar amount in the
    /// first lane of `reg1`; an amount of 64 or more clears the register;
    /// branches.
    pub fn shr(&mut self, reg0: u8, reg1: u8, data: u16)
        requires
            old(self).wf(),
            reg0 < 16,
            reg1 < 16,
        ensures
            final(self).wf(),
            final(self).regs() == regs_after(
                old(self).regs(),
                Opcode::Shr,
                reg0 as int,
                reg1 as int,
                data,
            ),
            final(self).pc == pc_jump(old(self).pc, data),
    {
        let amt: u64 = self.read_lane(reg1, 0);
        self.apply1(reg0, LaneUnOp::ShrSat(amt));
        self.jump_op(data);
    }

    /// Dand: `reg0 = reg1 & data`, lane-wise; does not branch.
    pub fn dand(&mut self, reg0: u8, reg1: u8, data: u16)
        requires
            old(self).wf(),
            reg0 < 16,
            reg1 < 16,
        ensures
            final(self).wf(),
            final(self).regs() == apply2_spec(
                old(self).regs(),
                reg0 as int,
                reg1 as int,
                LaneBinOp::DandI(data),
            ),
            final(self).pc == pc_advance(old(self).pc),
    {
        self.apply2(reg0, reg1, LaneBinOp::DandI(data));
        self.jump_op(0);
    }

    /// Dor: `reg0 = reg1 | data`, lane-wise; does not branch.
    pub fn dor(&mut self, reg0: u8, reg1: u8, data: u16)
        requires
            old(self).wf(),
            reg0 < 16,
            reg1 < 16,
        ensures
            final(self).wf(),
            final(self).regs() == apply2_spec(
                old(self).regs(),
                reg0 as int,
                reg1 as int,
                LaneBinOp::DorI(data),
            ),
            final(self).pc == pc_advance(old(self).pc),
    {
        self.apply2(reg0, reg1, LaneBinOp::DorI(data));
        self.jump_op(0);
    }

    /// Dxor: `reg0 = reg1 ^ data`, lane-wise; does not branch.
    pub fn dxor(&mut self, reg0: u8, reg1: u8, data: u16)
        requires
            old(self).wf(),
            reg0 < 16,
            reg1 < 16,
        ensures
            final(self).wf(),
            final(self).regs() == apply2_spec(
                old(self).regs(),
                reg0 as int,
                reg1 as int,
                LaneBinOp::DxorI(data),
            ),
            final(self).pc == pc_advance(old(self).pc),
    {
        self.apply2(reg0, reg1, LaneBinOp::DxorI(data));
        self.jump_op(0);
    }

    /// Dnot: complements `reg1` and then `reg0`, the same as Not — despite
    /// its name it never consumes `data` as a value; branches.
    pub fn dnot(&mut self, reg0: u8, reg1: u8, data: u16)
        requires
            old(self).wf(),
            reg0 < 16,
            reg1 < 16,
        ensures
            final(self).wf(),
            final(self).regs() == regs_after(
                old(self).regs(),
                Opcode::Dnot,
                reg0 as int,
                reg1 as int,
                data,
            ),
            final(self).pc == pc_jump(old(self).pc, data),
    {
        self.apply1(reg1, LaneUnOp::NotB);
        self.apply1(reg0, LaneUnOp::NotB);
        self.jump_op(data);
    }

    /// Dshl: `reg0 = reg1 << data`, lane-wise; a shift of 64 or more clears;
    /// does not branch.
    pub fn dshl(&mut self, reg0: u8, reg1: u8, data: u16)
        requires
            old(self).wf(),
            reg0 < 16,
            reg1 < 16,
        ensures
            final(self).wf(),
            final(self).regs() == apply2_spec(
                old(self).regs(),
                reg0 as int,
                reg1 as int,
                LaneBinOp::DshlI(data),
            ),
            final(self).pc == pc_advance(old(self).pc),
    {
        self.apply2(reg0, reg1, LaneBinOp::DshlI(data));
        self.jump_op(0);
    }

    /// Dshr: `reg0 = reg1 >> data`, lane-wise; a shift of 64 or more clears;
    /// does not branch.
    pub fn dshr(&mut self, reg0: u8, reg1: u8, data: u16)
        requires
            old(self).wf(),
            reg0 < 16,
            reg1 < 16,
        ensures
            final(self).wf(),
            final(self).regs() == apply2_spec(
                old(self).regs(),
                reg0 as int,
                reg1 as int,
                LaneBinOp::DshrI(data),
            ),
            final(self).pc == pc_advance(old(self).pc),
    {
        self.apply2(reg0, reg1, LaneBinOp::DshrI(data));
        self.jump_op(0);
    }
}

} // verus!

verus! {

impl S64 {
    /// Add: `reg0 += reg1`, lane-wise, wrapping for integer families and as
    /// IEEE-754 binary64 for the floating family; branches.
    pub fn add(&mut self, reg0: u8, reg1: u8, data: u16)
        requires
            old(self).wf(),
            reg0 < 16,
            reg1 < 16,
        ensures
            final(self).wf(),
            final(self).regs() == regs_after(
                old(self).regs(),
                Opcode::Add,
                reg0 as int,
                reg1 as int,
                data,
            ),
            final(self).pc == pc_jump(old(self).pc, data),
    {
        if Self::is_float_reg(reg0) {
            self.apply2(reg0, reg1, LaneBinOp::FAdd);
        } else {
            self.apply2(reg0, reg1, LaneBinOp::AddW);
        }
        self.jump_op(data);
    }

    /// Sub: `reg0 -= reg1`, lane-wise, wrapping for integer families and as
    /// IEEE-754 binary64 for the floating family; branches.
    pub fn sub(&mut self, reg0: u8, reg1: u8, data: u16)
        requires
            old(self).wf(),
            reg0 < 16,
            reg1 < 16,
        ensures
            final(self).wf(),
            final(self).regs() == regs_after(
                old(self).regs(),
                Opcode::Sub,
                reg0 as int,
                reg1 as int,
                data,
            ),
            final(self).pc == pc_jump(old(self).pc, data),
    {
        if Self::is_float_reg(reg0) {
            self.apply2(reg0, reg1, LaneBinOp::FSub);
        } else {
            self.apply2(reg0, reg1, LaneBinOp::SubW);
        }
        self.jump_op(data);
    }

    /// Mul: `reg0 *= reg1`, lane-wise, wrapping for integer families and as
    /// IEEE-754 binary64 for the floating family; branches.
    pub fn mul(&mut self, reg0: u8, reg1: u8, data: u16)
        requires
            old(self).wf(),
            reg0 < 16,
            reg1 < 16,
        ensures
            final(self).wf(),
            final(self).regs() == regs_after(
                old(self).regs(),
                Opcode::Mul,
                reg0 as int,
                reg1 as int,
                data,
            ),
            final(self).pc == pc_jump(old(self).pc, data),
    {
        if Self::is_float_reg(reg0) {
            self.apply2(reg0, reg1, LaneBinOp::FMul);
        } else {
            self.apply2(reg0, reg1, LaneBinOp::MulW);
        }
        self.jump_op(data);
    }

    /// Div: `reg0 /= reg1`, lane-wise; a zero lane of `reg1` among the
    /// active lanes of `reg0` faults the whole instruction with no state
    /// change; branches.
    pub fn div(&mut self, reg0: u8, reg1: u8, data: u16) -> (res: Result<(), SsError>)
        requires
            old(self).wf(),
            reg0 < 16,
            reg1 < 16,
        ensures
            final(self).wf(),
            div_fault(old(self).regs(), reg0 as int, reg1 as int) ==> res == Err::<(), SsError>(
                SsError::DivideFault,
            ) && final(self).regs() == old(self).regs() && final(self).pc == old(self).pc,
            !div_fault(old(self).regs(), reg0 as int, reg1 as int) ==> res == Ok::<(), SsError>(())
                && final(self).regs() == regs_after(
                old(self).regs(),
                Opcode::Div,
                reg0 as int,
                reg1 as int,
                data,
            ) && final(self).pc == pc_jump(old(self).pc, data),
    {
        if self.divisor_is_zero(reg0, reg1) {
            return Err(SsError::DivideFault);
        }
        if Self::is_float_reg(reg0) {
            self.apply2(reg0, reg1, LaneBinOp::FDiv);
        } else {
            self.apply2(reg0, reg1, LaneBinOp::DivI);
        }
        self.jump_op(data);
        Ok(())
    }

    /// Mod: `reg0 %= reg1`, lane-wise; a zero lane of `reg1` among the
    /// active lanes of `reg0` faults the whole instruction with no state
    /// change; branches.
    pub fn modulo(&mut self, reg0: u8, reg1: u8, data: u16) -> (res: Result<(), SsError>)
        requires
            old(self).wf(),
            reg0 < 16,
            reg1 < 16,
        ensures
            final(self).wf(),
            div_fault(old(self).regs(), reg0 as int, reg1 as int) ==> res == Err::<(), SsError>(
                SsError::DivideFault,
            ) && final(self).regs() == old(self).regs() && final(self).pc == old(self).pc,
            !div_fault(old(self).regs(), reg0 as int, reg1 as int) ==> res == Ok::<(), SsError>(())
                && final(self).regs() == regs_after(
                old(self).regs(),
                Opcode::Mod,
                reg0 as int,
                reg1 as int,
                data,
            ) && final(self).pc == pc_jump(old(self).pc, data),
    {
        if self.divisor_is_zero(reg0, reg1) {
            return Err(SsError::DivideFault);
        }
        if Self::is_float_reg(reg0) {
            self.apply2(reg0, reg1, LaneBinOp::FRem);
        } else {
            self.apply2(reg0, reg1, LaneBinOp::ModI);
        }
        self.jump_op(data);
        Ok(())
    }

    /// Whether some active lane of `reg0` would divide by a zero lane of
    /// `reg1`.
    fn divisor_is_zero(&self, reg0: u8, reg1: u8) -> (b: bool)
        requires
            self.wf(),
            reg0 < 16,
            reg1 < 16,
        ensures
            b == div_fault(self.regs(), reg0 as int, reg1 as int),
    {
        let w: usize = Self::width_of(reg0);
        self.read_lane(reg1, 0) == 0 || (w >= 2 && self.read_lane(reg1, 1) == 0) || (w >= 4 && (
        self.read_lane(reg1, 2) == 0 || self.read_lane(reg1, 3) == 0))
    }

    /// Inc: increments `reg1` and then `reg0` by one, lane-wise, each over
    /// its own lanes; branches.
    pub fn inc(&mut self, reg0: u8, reg1: u8, data: u16)
        requires
            old(self).wf(),
            reg0 < 16,
            reg1 < 16,
        ensures
            final(self).wf(),
            final(self).regs() == regs_after(
                old(self).regs(),
                Opcode::Inc,
                reg0 as int,
                reg1 as int,
                data,
            ),
            final(self).pc == pc_jump(old(self).pc, data),
    {
        let step1 = self.inc_sel(reg1);
        self.apply1(reg1, step1);
        let step0 = self.inc_sel(reg0);
        self.apply1(reg0, step0);
        self.jump_op(data);
    }

    /// The increment operation fitting the family of register `r`.
    fn inc_sel(&self, r: u8) -> (op: LaneUnOp)
        ensures
            op == inc_op(r as int),
    {
        if Self::is_float_reg(r) {
            LaneUnOp::FAddC(fp_of_u16(1))
        } else {
            LaneUnOp::IncW
        }
    }

    /// The decrement operation fitting the family of register `r`.
    fn dec_sel(&self, r: u8) -> (op: LaneUnOp)
        ensures
            op == dec_op(r as int),
    {
        if Self::is_float_reg(r) {
            LaneUnOp::FSubC(fp_of_u16(1))
        } else {
            LaneUnOp::DecW
        }
    }

    /// Dec: decrements `reg1` and then `reg0` by one, lane-wise, each over
    /// its own lanes; branches.
    pub fn dec(&mut self, reg0: u8, reg1: u8, data: u16)
        requires
            old(self).wf(),
            reg0 < 16,
            reg1 < 16,
        ensures
            final(self).wf(),
            final(self).regs() == regs_after(
                old(self).regs(),
                Opcode::Dec,
                reg0 as int,
                reg1 as int,
                data,
            ),
            final(self).pc == pc_jump(old(self).pc, data),
    {
        let step1 = self.dec_sel(reg1);
        self.apply1(reg1, step1);
        let step0 = self.dec_sel(reg0);
        self.apply1(reg0, step0);
        self.jump_op(data);
    }

    /// Neg: negates `reg1` and then `reg0`, lane-wise — two's-complement
    /// wrap for integer families, an IEEE-754 sign flip for the floating
    /// family; branches.
    pub fn neg(&mut self, reg0: u8, reg1: u8, data: u16)
        requires
            old(self).wf(),
            reg0 < 16,
            reg1 < 16,
        ensures
            final(self).wf(),
            final(self).regs() == regs_after(
                old(self).regs(),
                Opcode::Neg,
                reg0 as int,
                reg1 as int,
                data,
            ),
            final(self).pc == pc_jump(old(self).pc, data),
    {
        if Self::is_float_reg(reg1) {
            self.apply1(reg1, LaneUnOp::FNeg);
        } else {
            self.apply1(reg1, LaneUnOp::NegW);
        }
        if Self::is_float_reg(reg0) {
            self.apply1(reg0, LaneUnOp::FNeg);
        } else {
            self.apply1(reg0, LaneUnOp::NegW);
        }
        self.jump_op(data);
    }

    /// Dadd: `reg0 = reg1 + data`, lane-wise; does not branch.
    pub fn dadd(&mut self, reg0: u8, reg1: u8, data: u16)
        requires
            old(self).wf(),
            reg0 < 16,
            reg1 < 16,
        ensures
            final(self).wf(),
            final(self).regs() == regs_after(
                old(self).regs(),
                Opcode::Dadd,
                reg0 as int,
                reg1 as int,
                data,
            ),
            final(self).pc == pc_advance(old(self).pc),
    {
        if Self::is_float_reg(reg0) {
            self.apply2(reg0, reg1, LaneBinOp::FDadd(data));
        } else {
            self.apply2(reg0, reg1, LaneBinOp::DaddW(data));
        }
        self.jump_op(0);
    }

    /// Dsub: `reg0 = reg1 - data`, lane-wise; does not branch.
    pub fn dsub(&mut self, reg0: u8, reg1: u8, data: u16)
        requires
            old(self).wf(),
            reg0 < 16,
            reg1 < 16,
        ensures
            final(self).wf(),
            final(self).regs() == regs_after(
                old(self).regs(),
                Opcode::Dsub,
                reg0 as int,
                reg1 as int,
                data,
            ),
            final(self).pc == pc_advance(old(self).pc),
    {
        if Self::is_float_reg(reg0) {
            self.apply2(reg0, reg1, LaneBinOp::FDsub(data));
        } else {
            self.apply2(reg0, reg1, LaneBinOp::DsubW(data));
        }
        self.jump_op(0);
    }

    /// Dmul: `reg0 = reg1 * data`, lane-wise; does not branch.
    pub fn dmul(&mut self, reg0: u8, reg1: u8, data: u16)
        requires
            old(self).wf(),
            reg0 < 16,
            reg1 < 16,
        ensures
            final(self).wf(),
            final(self).regs() == regs_after(
                old(self).regs(),
                Opcode::Dmul,
                reg0 as int,
                reg1 as int,
                data,
            ),
            final(self).pc == pc_advance(old(self).pc),
    {
        if Self::is_float_reg(reg0) {
            self.apply2(reg0, reg1, LaneBinOp::FDmul(data));
        } else {
            self.apply2(reg0, reg1, LaneBinOp::DmulW(data));
        }
        self.jump_op(0);
    }

    /// Ddiv: `reg0 = reg1 / data`, lane-wise; zero `data` faults the whole
    /// instruction with no state change; does not branch.
    pub fn ddiv(&mut self, reg0: u8, reg1: u8, data: u16) -> (res: Result<(), SsError>)
        requires
            old(self).wf(),
            reg0 < 16,
            reg1 < 16,
        ensures
            final(self).wf(),
            data == 0 ==> res == Err::<(), SsError>(SsError::DivideFault) && final(self).regs()
                == old(self).regs() && final(self).pc == old(self).pc,
            data != 0 ==> res == Ok::<(), SsError>(()) && final(self).regs() == regs_after(
                old(self).regs(),
                Opcode::Ddiv,
                reg0 as int,
                reg1 as int,
                data,
            ) && final(self).pc == pc_advance(old(self).pc),
    {
        if data == 0 {
            return Err(SsError::DivideFault);
        }
        if Self::is_float_reg(reg0) {
            self.apply2(reg0, reg1, LaneBinOp::FDdiv(data));
        } else {
            self.apply2(reg0, reg1, LaneBinOp::DdivI(data));
        }
        self.jump_op(0);
        Ok(())
    }

    /// Dmod: `reg0 = reg1 % data`, lane-wise; zero `data` faults the whole
    /// instruction with no state change; does not branch.
    pub fn dmod(&mut self, reg0: u8, reg1: u8, data: u16) -> (res: Result<(), SsError>)
        requires
            old(self).wf(),
            reg0 < 16,
            reg1 < 16,
        ensures
            final(self).wf(),
            data == 0 ==> res == Err::<(), SsError>(SsError::DivideFault) && final(self).regs()
                == old(self).regs() && final(self).pc == old(self).pc,
            data != 0 ==> res == Ok::<(), SsError>(()) && final(self).regs() == regs_after(
                old(self).regs(),
                Opcode::Dmod,
                reg0 as int,
                reg1 as int,
                data,
            ) && final(self).pc == pc_advance(old(self).pc),
    {
        if data == 0 {
            return Err(SsError::DivideFault);
        }
        if Self::is_float_reg(reg0) {
            self.apply2(reg0, reg1, LaneBinOp::FDrem(data));
        } else {
            self.apply2(reg0, reg1, LaneBinOp::DmodI(data));
        }
        self.jump_op(0);
        Ok(())
    }

    /// Dinc: broadcasts `data + 1` to all lanes of `reg0` and `data` to all
    /// lanes of `reg1`; does not branch.
    pub fn dinc(&mut self, reg0: u8, reg1: u8, data: u16)
        requires
            old(self).wf(),
            reg0 < 16,
            reg1 < 16,
        ensures
            final(self).wf(),
            final(self).regs() == regs_after(
                old(self).regs(),
                Opcode::Dinc,
                reg0 as int,
                reg1 as int,
                data,
            ),
            final(self).pc == pc_advance(old(self).pc),
    {
        let c0: u64 = if Self::is_float_reg(reg0) {
            fp_add(fp_of_u16(data), fp_of_u16(1))
        } else {
            data as u64 + 1
        };
        self.apply1(reg0, LaneUnOp::ConstV(c0));
        let c1: u64 = self.dval_sel(reg1, data);
        self.apply1(reg1, LaneUnOp::ConstV(c1));
        self.jump_op(0);
    }

    /// Ddec: broadcasts `data - 1` (wrapping) to all lanes of `reg0` and
    /// `data` to all lanes of `reg1`; does not branch.
    pub fn ddec(&mut self, reg0: u8, reg1: u8, data: u16)
        requires
            old(self).wf(),
            reg0 < 16,
            reg1 < 16,
        ensures
            final(self).wf(),
            final(self).regs() == regs_after(
                old(self).regs(),
                Opcode::Ddec,
                reg0 as int,
                reg1 as int,
                data,
            ),
            final(self).pc == pc_advance(old(self).pc),
    {
        let c0: u64 = if Self::is_float_reg(reg0) {
            fp_sub(fp_of_u16(data), fp_of_u16(1))
        } else {
            (data as u64).wrapping_sub(1)
        };
        self.apply1(reg0, LaneUnOp::ConstV(c0));
        let c1: u64 = self.dval_sel(reg1, data);
        self.apply1(reg1, LaneUnOp::ConstV(c1));
        self.jump_op(0);
    }

    /// Dneg: broadcasts the 16-bit two's complement of `data`,
    /// zero-extended, to all lanes of `reg0` and `data` to all lanes of
    /// `reg1`; does not branch.
    pub fn dneg(&mut self, reg0: u8, reg1: u8, data: u16)
        requires
            old(self).wf(),
            reg0 < 16,
            reg1 < 16,
        ensures
            final(self).wf(),
            final(self).regs() == regs_after(
                old(self).regs(),
                Opcode::Dneg,
                reg0 as int,
                reg1 as int,
                data,
            ),
            final(self).pc == pc_advance(old(self).pc),
    {
        let n: u16 = 0u16.wrapping_sub(data);
        let c0: u64 = if Self::is_float_reg(reg0) {
            fp_of_u16(n)
        } else {
            n as u64
        };
        self.apply1(reg0, LaneUnOp::ConstV(c0));
        let c1: u64 = self.dval_sel(reg1, data);
        self.apply1(reg1, LaneUnOp::ConstV(c1));
        self.jump_op(0);
    }

    /// The broadcast value of the literal operand for register `r`: its
    /// bits, or its IEEE-754 binary64 value for the floating family.
    fn dval_sel(&self, r: u8, data: u16) -> (v: u64)
        ensures
            v == dval(r as int, data),
    {
        if Self::is_float_reg(r) {
            fp_of_u16(data)
        } else {
            data as u64
        }
    }

    /// Executes one instruction against this machine: decodes the opcode
    /// tag, applies the operation to the register file, and moves the
    /// program counter — by the sign-extended displacement for a branch
    /// opcode, by one otherwise. An unknown tag or a divide fault changes
    /// nothing.
    pub fn execute_instruction(&mut self, instruction: Instruction) -> (res: Result<(), SsError>)
        requires
            old(self).wf(),
        ensures
            final(self).wf(),
            ({
                let r0 = (instruction.regs & 0x0F) as int;
                let r1 = (instruction.regs >> 4) as int;
                let d = instruction.data;
                match opcode_of_tag(instruction.opcode) {
                    None => res == Err::<(), SsError>(SsError::UnknownOpcode) && final(self).regs()
                        == old(self).regs() && final(self).pc == old(self).pc,
                    Some(op) => match step_fault(old(self).regs(), op, r0, r1, d) {
                        Some(f) => res == Err::<(), SsError>(f) && final(self).regs() == old(
                            self,
                        ).regs() && final(self).pc == old(self).pc,
                        None => res == Ok::<(), SsError>(()) && final(self).regs() == regs_after(
                            old(self).regs(),
                            op,
                            r0,
                            r1,
                            d,
                        ) && final(self).pc == pc_after(old(self).pc, op, d),
                    },
                }
            }),
    {
        let (reg0, reg1) = instruction.strip_registers();
        let data = instruction.data;
        let op = match Opcode::from_tag(instruction.opcode) {
            None => {
                return Err(SsError::UnknownOpcode);
            },
            Some(op) => op,
        };
        match op {
            Opcode::Nop => {
                self.nop(reg0, reg1, data);
                Ok(())
            },
            Opcode::Set16 => {
                self.set(reg0, reg1, data);
                Ok(())
            },
            Opcode::Get => {
                self.get(reg0, reg1, data);
                Ok(())
            },
            Opcode::Update => {
                self.update(reg0, reg1, data);
                Ok(())
            },
            Opcode::Delete => {
                self.delete(reg0, reg1, data);
                Ok(())
            },
            Opcode::Swap => {
                self.swap(reg0, reg1, data);
                Ok(())
            },
            Opcode::And => {
                self.and(reg0, reg1, data);
                Ok(())
            },
            Opcode::Or => {
                self.or(reg0, reg1, data);
                Ok(())
            },
            Opcode::Xor => {
                self.xor(reg0, reg1, data);
                Ok(())
            },
            Opcode::Not => {
                self.not(reg0, reg1, data);
                Ok(())
            },
            Opcode::Shl => {
                self.shl(reg0, reg1, data);
                Ok(())
            },
            Opcode::Shr => {
                self.shr(reg0, reg1, data);
                Ok(())
            },
            Opcode::Dand => {
                self.dand(reg0, reg1, data);
                Ok(())
            },
            Opcode::Dor => {
                self.dor(reg0, reg1, data);
                Ok(())
            },
            Opcode::Dxor => {
                self.dxor(reg0, reg1, data);
                Ok(())
            },
            Opcode::Dnot => {
                self.dnot(reg0, reg1, data);
                Ok(())
            },
            Opcode::Dshl => {
                self.dshl(reg0, reg1, data);
                Ok(())
            },
            Opcode::Dshr => {
                self.dshr(reg0, reg1, data);
                Ok(())
            },
            Opcode::Add => {
                self.add(reg0, reg1, data);
                Ok(())
            },
            Opcode::Sub => {
                self.sub(reg0, reg1, data);
                Ok(())
            },
            Opcode::Mul => {
                self.mul(reg0, reg1, data);
                Ok(())
            },
            Opcode::Div => self.div(reg0, reg1, data),
            Opcode::Mod => self.modulo(reg0, reg1, data),
            Opcode::Inc => {
                self.inc(reg0, reg1, data);
                Ok(())
            },
            Opcode::Dec => {
                self.dec(reg0, reg1, data);
                Ok(())
            },
            Opcode::Neg => {
                self.neg(reg0, reg1, data);
                Ok(())
            },
            Opcode::Dadd => {
                self.dadd(reg0, reg1, data);
                Ok(())
            },
            Opcode::Dsub => {
                self.dsub(reg0, reg1, data);
                Ok(())
            },
            Opcode::Dmul => {
                self.dmul(reg0, reg1, data);
                Ok(())
            },
            Opcode::Ddiv => self.ddiv(reg0, reg1, data),
            Opcode::Dmod => self.dmod(reg0, reg1, data),
            Opcode::Dinc => {
                self.dinc(reg0, reg1, data);
                Ok(())
            },
            Opcode::Ddec => {
                self.ddec(reg0, reg1, data);
                Ok(())
            },
            Opcode::Dneg => {
                self.dneg(reg0, reg1, data);
                Ok(())
            },
        }
    }
}

} // verus!

verus! {

/// What a bounded run leaves behind: the register file, the program counter,
/// and how it ended.
pub struct RunModel {
    pub regs: Seq<u64>,
    pub pc: u64,
    pub out: Result<RunStatus, RunError>,
}

/// The branch target of one instruction, as an unbounded integer: the
/// sign-extended displacement added to the counter for a branch opcode with
/// nonzero `data`, the next index otherwise.
pub open spec fn step_target(pc: u64, op: Opcode, d: u16) -> int {
    if is_branch(op) && d != 0 {
        pc + ((d as i16) as int)
    } else {
        pc + 1
    }
}

/// A bounded run of a program, one instruction per step, starting at `pc`:
///
/// - a counter at or past the end of the program halts the run (the mandated
///   halting condition — there is no halt opcode);
/// - an exhausted step budget pauses it;
/// - an unmapped opcode tag aborts it with `UnknownOpcode` at the faulting
///   index, changing nothing;
/// - a divide fault skips the faulting instruction, changing no register,
///   and continues at the next index;
/// - a branch target before index 0 or past the end of the program aborts
///   with `ProgramCounterOutOfRange` at the faulting index, before any
///   mutation (a target exactly at the end is normal termination);
/// - otherwise the instruction's register effects apply and the counter
///   moves to the target.
pub open spec fn run_model(regs: Seq<u64>, pc: u64, code: Seq<u32>, fuel: nat) -> RunModel
    decreases fuel,
{
    if pc >= code.len() {
        RunModel { regs, pc, out: Ok(RunStatus::Halted) }
    } else if fuel == 0 {
        RunModel { regs, pc, out: Ok(RunStatus::Exhausted) }
    } else {
        let ins = crate::instruction::decode_spec(code[pc as int]);
        let r0 = (ins.regs & 0x0F) as int;
        let r1 = (ins.regs >> 4) as int;
        let d = ins.data;
        match opcode_of_tag(ins.opcode) {
            None => RunModel {
                regs,
                pc,
                out: Err(RunError { kind: SsError::UnknownOpcode, at: pc }),
            },
            Some(op) => {
                if step_fault(regs, op, r0, r1, d) is Some {
                    run_model(regs, (pc + 1) as u64, code, (fuel - 1) as nat)
                } else {
                    let t = step_target(pc, op, d);
                    if t > code.len() {
                        RunModel {
                            regs,
                            pc,
                            out: Err(
                                RunError { kind: SsError::ProgramCounterOutOfRange, at: pc },
                            ),
                        }
                    } else if t < 0 {
                        RunModel {
                            regs,
                            pc,
                            out: Err(
                                RunError { kind: SsError::ProgramCounterOutOfRange, at: pc },
                            ),
                        }
                    } else {
                        run_model(regs_after(regs, op, r0, r1, d), t as u64, code, (fuel - 1) as nat)
                    }
                }
            },
        }
    }
}

impl S64 {
    /// Runs a program of encoded instruction words against this machine,
    /// starting at the current program counter, for at most `fuel` steps.
    /// The run halts when the counter runs off the end of the program;
    /// a divide fault skips one instruction and continues; any other failure
    /// aborts with the faulting index and leaves the faulting instruction's
    /// state untouched. The result and the final state follow `run_model`.
    #[verifier::loop_isolation(false)]
    pub fn execute_code(&mut self, code: &Vec<u32>, fuel: u64) -> (res: Result<RunStatus, RunError>)
        requires
            old(self).wf(),
        ensures
            final(self).wf(),
            ({
                let m = run_model(old(self).regs(), old(self).pc, code@, fuel as nat);
                final(self).regs() == m.regs && final(self).pc == m.pc && res == m.out
            }),
    {
        let ghost m0 = run_model(old(self).regs(), old(self).pc, code@, fuel as nat);
        let mut left: u64 = fuel;
        loop
            invariant
                self.wf(),
                run_model(self.regs(), self.pc, code@, left as nat) == m0,
            decreases left,
        {
            if !(self.pc < code.len() as u64) {
                return Ok(RunStatus::Halted);
            }
            if left == 0 {
                return Ok(RunStatus::Exhausted);
            }
            let at: u64 = self.pc;
            let word: u32 = code[at as usize];
            let ins = Instruction::decode(word);
            let (reg0, reg1) = ins.strip_registers();
            let data: u16 = ins.data;
            let op = match Opcode::from_tag(ins.opcode) {
                None => {
                    return Err(RunError { kind: SsError::UnknownOpcode, at });
                },
                Some(op) => op,
            };
            let faulted: bool = match op {
                Opcode::Div | Opcode::Mod => self.divisor_is_zero(reg0, reg1),
                Opcode::Ddiv | Opcode::Dmod => data == 0,
                _ => false,
            };
            if faulted {
                self.pc = at + 1;
                left = left - 1;
                continue ;
            }
            let next: u64;
            if op.branches() && data != 0 {
                let di: i16 = data as i16;
                if di >= 0 {
                    let dm: u64 = di as u64;
                    if dm > u64::MAX - at {
                        return Err(RunError { kind: SsError::ProgramCounterOutOfRange, at });
                    }
                    next = at + dm;
                } else {
                    let mag: u64 = (-(di as i64)) as u64;
                    if mag > at {
                        return Err(RunError { kind: SsError::ProgramCounterOutOfRange, at });
                    }
                    next = at - mag;
                }
            } else {
                next = at + 1;
            }
            if next > code.len() as u64 {
                return Err(RunError { kind: SsError::ProgramCounterOutOfRange, at });
            }
            let _ = self.execute_instruction(ins);
            left = left - 1;
        }
    }
}

impl Default for S64 {
    /// A fresh machine, the same as `S64::new`: all lanes and the program
    /// counter zero.
    fn default() -> (m: Self)
        ensures
            m.wf(),
            m.pc == 0,
            forall|j: int| 0 <= j < 64 ==> m.regs()[j] == 0,
    {
        S64::new()
    }
}

} // verus!

verus! {

/// A unary lane operation keeps the register file well formed.
proof fn lemma_apply1_wf(regs: Seq<u64>, r: int, op: LaneUnOp)
    requires
        regs_wf(regs),
        0 <= r < 16,
    ensures
        regs_wf(apply1_spec(regs, r, op)),
{
}

/// A binary lane operation keeps the register file well formed.
proof fn lemma_apply2_wf(regs: Seq<u64>, r0: int, r1: int, op: LaneBinOp)
    requires
        regs_wf(regs),
        0 <= r0 < 16,
        0 <= r1 < 16,
    ensures
        regs_wf(apply2_spec(regs, r0, r1, op)),
{
}

/// A full-register write keeps the register file well formed.
proof fn lemma_write_lanes_wf(regs: Seq<u64>, r: int, v0: u64, v1: u64, v2: u64, v3: u64)
    requires
        regs_wf(regs),
        0 <= r < 16,
    ensures
        regs_wf(write_lanes_spec(regs, r, v0, v1, v2, v3)),
{
}

/// A slice write keeps the register file well formed.
proof fn lemma_set_wf(regs: Seq<u64>, r0: int, idx: int, d: u16)
    requires
        regs_wf(regs),
        0 <= r0 < 16,
        0 <= idx,
    ensures
        regs_wf(set_spec(regs, r0, idx, d)),
{
}

/// A slice read into the accumulator keeps the register file well formed.
proof fn lemma_get_wf(regs: Seq<u64>, r0: int, idx: int)
    requires
        regs_wf(regs),
        0 <= r0 < 16,
        0 <= idx,
    ensures
        regs_wf(get_spec(regs, r0, idx)),
{
}

/// One non-faulting instruction keeps the register file well formed: only
/// active lanes of non-zero registers are ever written.
pub proof fn lemma_step_preserves_wf(regs: Seq<u64>, op: Opcode, r0: int, r1: int, d: u16)
    requires
        regs_wf(regs),
        0 <= r0 < 16,
        0 <= r1 < 16,
    ensures
        regs_wf(regs_after(regs, op, r0, r1, d)),
{
    match op {
        Opcode::Nop => {
            lemma_apply1_wf(regs, r0, LaneUnOp::Clear);
            lemma_apply1_wf(apply1_spec(regs, r0, LaneUnOp::Clear), r1, LaneUnOp::Clear);
        },
        Opcode::Set16 => {
            lemma_set_wf(regs, r0, r1, d);
        },
        Opcode::Get => {
            lemma_get_wf(regs, r0, r1);
        },
        Opcode::Update | Opcode::And | Opcode::Or | Opcode::Xor | Opcode::Dand | Opcode::Dor
            | Opcode::Dxor | Opcode::Dshl | Opcode::Dshr | Opcode::Add | Opcode::Sub | Opcode::Mul
            | Opcode::Div | Opcode::Mod | Opcode::Dadd | Opcode::Dsub | Opcode::Dmul
            | Opcode::Ddiv | Opcode::Dmod => {
            assert forall|o: LaneBinOp| regs_wf(#[trigger] apply2_spec(regs, r0, r1, o)) by {
                lemma_apply2_wf(regs, r0, r1, o);
            }
        },
        Opcode::Delete => {
            lemma_apply2_wf(regs, r0, r1, LaneBinOp::CopyB);
            lemma_apply1_wf(apply2_spec(regs, r0, r1, LaneBinOp::CopyB), r1, LaneUnOp::Clear);
        },
        Opcode::Swap => {
            let s1 = write_lanes_spec(
                regs,
                r0,
                lane_of(regs, r1, 0),
                lane_of(regs, r1, 1),
                lane_of(regs, r1, 2),
                lane_of(regs, r1, 3),
            );
            lemma_write_lanes_wf(
                regs,
                r0,
                lane_of(regs, r1, 0),
                lane_of(regs, r1, 1),
                lane_of(regs, r1, 2),
                lane_of(regs, r1, 3),
            );
            lemma_write_lanes_wf(
                s1,
                r1,
                lane_of(regs, r0, 0),
                lane_of(regs, r0, 1),
                lane_of(regs, r0, 2),
                lane_of(regs, r0, 3),
            );
        },
        Opcode::Not | Opcode::Dnot | Opcode::Inc | Opcode::Dec | Opcode::Neg | Opcode::Dinc
            | Opcode::Ddec | Opcode::Dneg => {
            assert forall|o1: LaneUnOp, o2: LaneUnOp|
                regs_wf(#[trigger] apply1_spec(apply1_spec(regs, o1_first(r0, r1, op), o1), o2_second(r0, r1, op), o2)) by {
                lemma_apply1_wf(regs, o1_first(r0, r1, op), o1);
                lemma_apply1_wf(apply1_spec(regs, o1_first(r0, r1, op), o1), o2_second(r0, r1, op), o2);
            }
        },
        Opcode::Shl | Opcode::Shr => {
            assert forall|o: LaneUnOp| regs_wf(#[trigger] apply1_spec(regs, r0, o)) by {
                lemma_apply1_wf(regs, r0, o);
            }
        },
    }
}

/// Which register a two-register unary opcode touches first.
spec fn o1_first(r0: int, r1: int, op: Opcode) -> int {
    match op {
        Opcode::Dinc | Opcode::Ddec | Opcode::Dneg => r0,
        _ => r1,
    }
}

/// Which register a two-register unary opcode touches second.
spec fn o2_second(r0: int, r1: int, op: Opcode) -> int {
    match op {
        Opcode::Dinc | Opcode::Ddec | Opcode::Dneg => r1,
        _ => r0,
    }
}

/// An opcode that consumes `data` as a literal operand moves the program
/// counter by exactly one: only branch opcodes ever move it by anything
/// else.
pub proof fn lemma_data_ops_fall_through(pc: u64, op: Opcode, d: u16)
    requires
        crate::opcode::uses_data(op),
    ensures
        pc_after(pc, op, d) == pc_advance(pc),
{
    crate::opcode::lemma_data_branch_exclusive(op);
}

/// The zero-register invariant: however long a program runs, the register
/// file stays well formed, and every lane of the zero register reads zero —
/// writes aimed at it are discarded.
pub proof fn lemma_zero_register_invariant(regs: Seq<u64>, pc: u64, code: Seq<u32>, fuel: nat)
    requires
        regs_wf(regs),
    ensures
        regs_wf(run_model(regs, pc, code, fuel).regs),
        forall|k: int|
            0 <= k < 4 ==> lane_of(run_model(regs, pc, code, fuel).regs, 0, k) == 0,
    decreases fuel,
{
    if pc >= code.len() {
    } else if fuel == 0 {
    } else {
        let ins = crate::instruction::decode_spec(code[pc as int]);
        let rb = ins.regs;
        assert(rb & 0x0F < 16 && rb >> 4 < 16) by (bit_vector);
        let r0 = (rb & 0x0F) as int;
        let r1 = (rb >> 4) as int;
        let d = ins.data;
        match opcode_of_tag(ins.opcode) {
            None => {},
            Some(op) => {
                if step_fault(regs, op, r0, r1, d) is Some {
                    lemma_zero_register_invariant(regs, (pc + 1) as u64, code, (fuel - 1) as nat);
                } else {
                    let t = step_target(pc, op, d);
                    if t > code.len() || t < 0 {
                    } else {
                        lemma_step_preserves_wf(regs, op, r0, r1, d);
                        lemma_zero_register_invariant(
                            regs_after(regs, op, r0, r1, d),
                            t as u64,
                            code,
                            (fuel - 1) as nat,
                        );
                    }
                }
            },
        }
    }
    let m = run_model(regs, pc, code, fuel);
    assert forall|k: int| 0 <= k < 4 implies lane_of(m.regs, 0, k) == 0 by {
        assert(inactive_slot(k));
        assert(m.regs[k] == 0);
    }
}

/// Inserting a 16-bit value into a slice and extracting the same slice gives
/// the value back.
proof fn lemma_slice_insert_extract(x: u64, v: u64, sh: u64)
    requires
        sh <= 48,
        v <= 0xFFFF,
    ensures
        (((x & !(0xFFFFu64 << sh)) | (v << sh)) >> sh) & 0xFFFF == v,
{
    assert(sh <= 48 && v <= 0xFFFF ==> (((x & !(0xFFFFu64 << sh)) | (v << sh)) >> sh) & 0xFFFF
        == v) by (bit_vector);
}

/// The lane write/read inverse: writing `v` into the 16-bit slice of a
/// non-zero register selected by an in-range index via Set, then reading
/// the same slice via Get, leaves exactly `v` in the matching slice of the
/// general-purpose accumulator.
pub proof fn lemma_set_then_get(regs: Seq<u64>, r: int, i: int, v: u16)
    requires
        regs_wf(regs),
        1 <= r < 16,
        0 <= i < 4 * width_of_id(r),
    ensures
        ({
            let after = get_spec(set_spec(regs, r, i, v), r, i);
            (lane_of(after, 1, 0) >> ((16 * (i % 4)) as u64)) & 0xFFFF == v as u64
        }),
{
    let regs1 = set_spec(regs, r, i, v);
    let li = 4 * r + i / 4;
    let sh = (16 * (i % 4)) as u64;
    assert(regs1[li] == (regs[li] & !(0xFFFFu64 << sh)) | ((v as u64) << sh));
    lemma_slice_insert_extract(regs[li], v as u64, sh);
    let ext = (regs1[li] >> sh) & 0xFFFF;
    assert(ext == v as u64);
    lemma_slice_insert_extract(regs1[4], ext, sh);
}

} // verus!
