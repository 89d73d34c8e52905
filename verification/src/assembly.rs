//! The instruction IR: a closed vocabulary of emittable operations, the
//! [`Assembly`] sequence type that collects them together with
//! register-usage tracking, and deterministic rendering to a textual
//! inline-assembly block with an explicit operand/clobber interface.

use vstd::prelude::*;
use vstd::string::*;

verus! {

// ---------------------------------------------------------------------------
// Text helpers: decimal and hexadecimal rendering of small integers.
// ---------------------------------------------------------------------------
pub open spec fn spec_dec_digit(d: int) -> Seq<char> {
    if d == 0 {
        "0"@
    } else if d == 1 {
        "1"@
    } else if d == 2 {
        "2"@
    } else if d == 3 {
        "3"@
    } else if d == 4 {
        "4"@
    } else if d == 5 {
        "5"@
    } else if d == 6 {
        "6"@
    } else if d == 7 {
        "7"@
    } else if d == 8 {
        "8"@
    } else {
        "9"@
    }
}

/// Decimal rendering of a non-negative integer, no leading zeros.
pub open spec fn spec_dec(n: int) -> Seq<char>
    decreases n,
{
    if n < 10 {
        spec_dec_digit(n)
    } else {
        spec_dec(n / 10) + spec_dec_digit(n % 10)
    }
}

pub open spec fn spec_hex_digit(d: int) -> Seq<char> {
    if d < 10 {
        spec_dec_digit(d)
    } else if d == 10 {
        "a"@
    } else if d == 11 {
        "b"@
    } else if d == 12 {
        "c"@
    } else if d == 13 {
        "d"@
    } else if d == 14 {
        "e"@
    } else {
        "f"@
    }
}

/// Lowercase hexadecimal rendering of a non-negative integer, no leading
/// zeros and no base prefix.
pub open spec fn spec_hex(n: int) -> Seq<char>
    decreases n,
{
    if n < 16 {
        spec_hex_digit(n)
    } else {
        spec_hex(n / 16) + spec_hex_digit(n % 16)
    }
}

fn dec_digit_str(d: u8) -> (r: &'static str)
    requires
        d < 10,
    ensures
        r@ == spec_dec_digit(d as int),
{
    match d {
        0 => "0",
        1 => "1",
        2 => "2",
        3 => "3",
        4 => "4",
        5 => "5",
        6 => "6",
        7 => "7",
        8 => "8",
        _ => "9",
    }
}

fn hex_digit_str(d: u8) -> (r: &'static str)
    requires
        d < 16,
    ensures
        r@ == spec_hex_digit(d as int),
{
    match d {
        0 => "0",
        1 => "1",
        2 => "2",
        3 => "3",
        4 => "4",
        5 => "5",
        6 => "6",
        7 => "7",
        8 => "8",
        9 => "9",
        10 => "a",
        11 => "b",
        12 => "c",
        13 => "d",
        14 => "e",
        _ => "f",
    }
}

fn dec_u16(n: u16) -> (r: String)
    ensures
        r@ == spec_dec(n as int),
    decreases n,
{
    if n < 10 {
        String::from_str(dec_digit_str(n as u8))
    } else {
        let mut s = dec_u16(n / 10);
        s.append(dec_digit_str((n % 10) as u8));
        s
    }
}

fn dec_u8(n: u8) -> (r: String)
    ensures
        r@ == spec_dec(n as int),
{
    dec_u16(n as u16)
}

fn hex_u16(n: u16) -> (r: String)
    ensures
        r@ == spec_hex(n as int),
    decreases n,
{
    if n < 16 {
        String::from_str(hex_digit_str(n as u8))
    } else {
        let mut s = hex_u16(n / 16);
        s.append(hex_digit_str((n % 16) as u8));
        s
    }
}

/// The magnitude of a non-positive signed offset, exact also for the most
/// negative value.
fn neg_i16(n: i16) -> (r: u16)
    requires
        n <= 0,
    ensures
        r as int == -(n as int),
{
    (-(n as i32)) as u16
}

// ---------------------------------------------------------------------------
// Operand rendering: symbolic register aliases, numbered hardware registers,
// and base-plus-displacement addressing.
// ---------------------------------------------------------------------------
/// `%[NAME]`: a symbolic general-purpose-register alias.
pub open spec fn spec_var(name: Seq<char>) -> Seq<char> {
    "%["@ + name + "]"@
}

fn render_var(name: &str) -> (r: String)
    ensures
        r@ == spec_var(name@),
{
    let mut s = String::from_str("%[");
    s.append(name);
    s.append("]");
    s
}

/// A numbered hardware register with the given prefix, e.g. `%%zmm17`.
pub open spec fn spec_reg(prefix: Seq<char>, n: int) -> Seq<char> {
    prefix + spec_dec(n)
}

fn render_reg(prefix: &'static str, n: u8) -> (r: String)
    ensures
        r@ == spec_reg(prefix@, n as int),
{
    let mut s = String::from_str(prefix);
    let d = dec_u8(n);
    s.append(d.as_str());
    s
}

/// Base-plus-displacement addressing: a zero displacement omits the offset
/// term, a signed displacement renders as hexadecimal with an explicit sign.
pub open spec fn spec_addr(name: Seq<char>, off: int) -> Seq<char> {
    if off == 0 {
        "("@ + spec_var(name) + ")"@
    } else if off > 0 {
        "0x"@ + spec_hex(off) + "("@ + spec_var(name) + ")"@
    } else {
        "-0x"@ + spec_hex(-off) + "("@ + spec_var(name) + ")"@
    }
}

fn render_addr(name: &str, off: i16) -> (r: String)
    ensures
        r@ == spec_addr(name@, off as int),
{
    let mut s = if off == 0 {
        String::from_str("(")
    } else if off > 0 {
        let mut p = String::from_str("0x");
        let h = hex_u16(off as u16);
        p.append(h.as_str());
        p.append("(");
        p
    } else {
        let mut p = String::from_str("-0x");
        let h = hex_u16(neg_i16(off));
        p.append(h.as_str());
        p.append("(");
        p
    };
    let v = render_var(name);
    s.append(v.as_str());
    s.append(")");
    s
}

/// A signed immediate: `$0x..` when positive, else `$-0x..`.
pub open spec fn spec_imm(imm: int) -> Seq<char> {
    if imm > 0 {
        "$0x"@ + spec_hex(imm)
    } else {
        "$-0x"@ + spec_hex(-imm)
    }
}

fn render_imm(imm: i16) -> (r: String)
    ensures
        r@ == spec_imm(imm as int),
{
    if imm > 0 {
        let mut s = String::from_str("$0x");
        let h = hex_u16(imm as u16);
        s.append(h.as_str());
        s
    } else {
        let mut s = String::from_str("$-0x");
        let h = hex_u16(neg_i16(imm));
        s.append(h.as_str());
        s
    }
}

} // verus!

verus! {

// ---------------------------------------------------------------------------
// The instruction vocabulary.
// ---------------------------------------------------------------------------
/// Software-prefetch locality hint.
#[derive(Clone, Copy, PartialEq, Eq, Structural, Debug)]
pub enum PrefetchType {
    T0,
    T1,
    T2,
    NTA,
}

impl PrefetchType {
    /// The mnemonic of the prefetch instruction carrying this hint.
    pub open spec fn spec_mnemonic(self) -> Seq<char> {
        match self {
            PrefetchType::NTA => "prefetchnta"@,
            PrefetchType::T0 => "prefetcht0"@,
            PrefetchType::T1 => "prefetcht1"@,
            PrefetchType::T2 => "prefetcht2"@,
        }
    }

    fn mnemonic(&self) -> (r: &'static str)
        ensures
            r@ == self.spec_mnemonic(),
    {
        match self {
            PrefetchType::NTA => "prefetchnta",
            PrefetchType::T0 => "prefetcht0",
            PrefetchType::T1 => "prefetcht1",
            PrefetchType::T2 => "prefetcht2",
        }
    }
}

/// One emittable operation.  Register operands are slot numbers; memory
/// operands are a symbolic base-register alias plus a signed displacement.
#[derive(Clone, Copy)]
pub enum Instruction {
    Comment(&'static str),
    Nop,
    Label(&'static str),
    JumpNotZero(&'static str),
    MaskOn(u8),
    MaskSet(u8, &'static str),
    MaskNot(u8, u8),
    AddImmediate(&'static str, i16),
    SubImmediate(&'static str, i16),
    SetImmediate(&'static str, i16),
    ShiftRight(&'static str, u8),
    MovReg(&'static str, &'static str),
    MovF64x8(u8, u8),
    MovF64x2(u8, u8),
    MovI32x8(u8, u8),
    LoadF64x8(u8, &'static str, i16),
    LoadF64x1(u8, &'static str, i16),
    LoadI32x8(u8, &'static str, i16),
    StoreF64x8(&'static str, i16, u8),
    StoreF64x1(&'static str, i16, u8),
    GatherF64x8(u8, &'static str, u8, u8),
    Prefetch(PrefetchType, &'static str, i16),
    AddF64x8(u8, u8, u8),
    AddF64x4(u8, u8, u8),
    AddF64x2(u8, u8, u8),
    AddF64x1(u8, u8, u8),
    LoadAddF64x8(u8, u8, &'static str, i16),
    LoadAddF64x1(u8, u8, &'static str, i16),
    MulF64x8(u8, u8, u8),
    MulF64x1(u8, u8, u8),
    LoadMulF64x8(u8, u8, &'static str, i16),
    LoadMulF64x1(u8, u8, &'static str, i16),
    MulAddF64x8(u8, u8, u8),
    MulAddF64x1(u8, u8, u8),
    LoadMulAddF64x8(u8, u8, &'static str, i16),
    LoadMulAddF64x1(u8, u8, &'static str, i16),
    NMulSubF64x8(u8, u8, u8),
    LoadNMulSubF64x8(u8, u8, &'static str, i16),
    DivF64x8(u8, u8, u8),
    DivF64x1(u8, u8, u8),
    LoadDivF64x8(u8, u8, &'static str, i16),
    LoadDivF64x1(u8, u8, &'static str, i16),
    /// `vinsertf64x4 $0x0`: lower half of src1, upper half of src2.
    LUMix4F64x8(u8, u8, u8),
    /// `valignq $0x4`: upper half of src1, lower half of src2.
    ULMix4F64x8(u8, u8, u8),
    /// `vpermpd $0x4e` under a mask register.
    Mix2F64x8Mask(u8, u8, u8),
    /// `vshufpd $0xaa`.
    LUMix1F64x8(u8, u8, u8),
    /// `vshufpd $0x55`.
    ULMix1F64x8(u8, u8, u8),
    /// `vextractf64x4 $0x1`: upper 256-bit half.
    ExtractU4F64x8(u8, u8),
    /// `vextractf128 $0x1`: upper 128-bit half.
    ExtractU2F64x4(u8, u8),
    /// `vhaddpd`: horizontal pairwise add of two packed doubles.
    Fold1AddF64x2(u8, u8),
}

// Composite operand layouts shared by whole instruction families.
/// `mn %%Ps, %%Pd`.
pub open spec fn spec_op2(mn: Seq<char>, p: Seq<char>, d: int, s: int) -> Seq<char> {
    mn + " "@ + spec_reg(p, s) + ", "@ + spec_reg(p, d)
}

/// `mn %%Ps1, %%Ps0, %%Pd`.
pub open spec fn spec_op3(mn: Seq<char>, p: Seq<char>, d: int, s0: int, s1: int) -> Seq<char> {
    mn + " "@ + spec_reg(p, s1) + ", "@ + spec_reg(p, s0) + ", "@ + spec_reg(p, d)
}

/// `mn addr, %%Pd`.
pub open spec fn spec_load(mn: Seq<char>, p: Seq<char>, d: int, base: Seq<char>, off: int) -> Seq<
    char,
> {
    mn + " "@ + spec_addr(base, off) + ", "@ + spec_reg(p, d)
}

/// `mn %%Ps, addr`.
pub open spec fn spec_store(mn: Seq<char>, p: Seq<char>, s: int, base: Seq<char>, off: int) -> Seq<
    char,
> {
    mn + " "@ + spec_reg(p, s) + ", "@ + spec_addr(base, off)
}

/// `mn addr, %%Ps0, %%Pd`.
pub open spec fn spec_load_op(
    mn: Seq<char>,
    p: Seq<char>,
    d: int,
    s0: int,
    base: Seq<char>,
    off: int,
) -> Seq<char> {
    mn + " "@ + spec_addr(base, off) + ", "@ + spec_reg(p, s0) + ", "@ + spec_reg(p, d)
}

fn render_op2(mn: &'static str, p: &'static str, d: u8, s: u8) -> (r: String)
    ensures
        r@ == spec_op2(mn@, p@, d as int, s as int),
{
    let mut out = String::from_str(mn);
    out.append(" ");
    let rs = render_reg(p, s);
    out.append(rs.as_str());
    out.append(", ");
    let rd = render_reg(p, d);
    out.append(rd.as_str());
    out
}

fn render_op3(mn: &'static str, p: &'static str, d: u8, s0: u8, s1: u8) -> (r: String)
    ensures
        r@ == spec_op3(mn@, p@, d as int, s0 as int, s1 as int),
{
    let mut out = String::from_str(mn);
    out.append(" ");
    let r1 = render_reg(p, s1);
    out.append(r1.as_str());
    out.append(", ");
    let r0 = render_reg(p, s0);
    out.append(r0.as_str());
    out.append(", ");
    let rd = render_reg(p, d);
    out.append(rd.as_str());
    out
}

fn render_load(mn: &'static str, p: &'static str, d: u8, base: &str, off: i16) -> (r: String)
    ensures
        r@ == spec_load(mn@, p@, d as int, base@, off as int),
{
    let mut out = String::from_str(mn);
    out.append(" ");
    let a = render_addr(base, off);
    out.append(a.as_str());
    out.append(", ");
    let rd = render_reg(p, d);
    out.append(rd.as_str());
    out
}

fn render_store(mn: &'static str, p: &'static str, s: u8, base: &str, off: i16) -> (r: String)
    ensures
        r@ == spec_store(mn@, p@, s as int, base@, off as int),
{
    let mut out = String::from_str(mn);
    out.append(" ");
    let rs = render_reg(p, s);
    out.append(rs.as_str());
    out.append(", ");
    let a = render_addr(base, off);
    out.append(a.as_str());
    out
}

fn render_load_op(
    mn: &'static str,
    p: &'static str,
    d: u8,
    s0: u8,
    base: &str,
    off: i16,
) -> (r: String)
    ensures
        r@ == spec_load_op(mn@, p@, d as int, s0 as int, base@, off as int),
{
    let mut out = String::from_str(mn);
    out.append(" ");
    let a = render_addr(base, off);
    out.append(a.as_str());
    out.append(", ");
    let r0 = render_reg(p, s0);
    out.append(r0.as_str());
    out.append(", ");
    let rd = render_reg(p, d);
    out.append(rd.as_str());
    out
}

} // verus!

verus! {

impl Instruction {
    /// The assembler-syntax text of this instruction, one line, no
    /// terminator.  A blank comment renders as an empty line.
    pub open spec fn spec_line(self) -> Seq<char> {
        match self {
            Instruction::Comment(c) => if c@ == Seq::<char>::empty() {
                Seq::<char>::empty()
            } else {
                "// "@ + c@
            },
            Instruction::Nop => "nop"@,
            Instruction::Label(name) => name@ + ":"@,
            Instruction::JumpNotZero(label) => "jnz "@ + label@,
            Instruction::MaskOn(k) => "kxnorw %%k0, %%k0, %%k"@ + spec_dec(k as int),
            Instruction::MaskSet(k, reg) => "kmovw "@ + spec_var(reg@) + ", %%k"@ + spec_dec(
                k as int,
            ),
            Instruction::MaskNot(k_dst, k_src) => "knotw %%k"@ + spec_dec(k_src as int) + ", %%k"@
                + spec_dec(k_dst as int),
            Instruction::AddImmediate(reg, imm) => "add "@ + spec_imm(imm as int) + ", "@
                + spec_var(reg@),
            Instruction::SubImmediate(reg, imm) => "sub "@ + spec_imm(imm as int) + ", "@
                + spec_var(reg@),
            Instruction::SetImmediate(reg, imm) => "movl "@ + spec_imm(imm as int) + ", "@
                + spec_var(reg@),
            Instruction::ShiftRight(reg, imm) => if imm == 1 {
                "sar "@ + spec_var(reg@)
            } else {
                "sar $0x"@ + spec_hex(imm as int) + ", "@ + spec_var(reg@)
            },
            Instruction::MovReg(reg_dst, reg_src) => "mov "@ + spec_var(reg_src@) + ", "@
                + spec_var(reg_dst@),
            Instruction::MovF64x8(d, s) => spec_op2("vmovupd"@, "%%zmm"@, d as int, s as int),
            Instruction::MovF64x2(d, s) => spec_op2("vmovupd"@, "%%xmm"@, d as int, s as int),
            Instruction::MovI32x8(d, s) => spec_op2("vmovupd"@, "%%ymm"@, d as int, s as int),
            Instruction::LoadF64x8(d, base, off) => spec_load(
                "vmovupd"@,
                "%%zmm"@,
                d as int,
                base@,
                off as int,
            ),
            Instruction::LoadF64x1(d, base, off) => spec_load(
                "vmovsd"@,
                "%%xmm"@,
                d as int,
                base@,
                off as int,
            ),
            Instruction::LoadI32x8(d, base, off) => spec_load(
                "vmovdqa"@,
                "%%ymm"@,
                d as int,
                base@,
                off as int,
            ),
            Instruction::StoreF64x8(base, off, s) => spec_store(
                "vmovupd"@,
                "%%zmm"@,
                s as int,
                base@,
                off as int,
            ),
            Instruction::StoreF64x1(base, off, s) => spec_store(
                "vmovsd"@,
                "%%xmm"@,
                s as int,
                base@,
                off as int,
            ),
            Instruction::GatherF64x8(d, base, idx, k) => "vgatherdpd ("@ + spec_var(base@)
                + ",%%ymm"@ + spec_dec(idx as int) + ",8), %%zmm"@ + spec_dec(d as int) + "%{%%k"@
                + spec_dec(k as int) + "%}"@,
            Instruction::Prefetch(pt, base, off) => if off > 0 {
                pt.spec_mnemonic() + " 0x"@ + spec_hex(off as int) + "("@ + spec_var(base@) + ")"@
            } else {
                pt.spec_mnemonic() + " -0x"@ + spec_hex(-(off as int)) + "("@ + spec_var(base@)
                    + ")"@
            },
            Instruction::AddF64x8(d, s0, s1) => spec_op3(
                "vaddpd"@,
                "%%zmm"@,
                d as int,
                s0 as int,
                s1 as int,
            ),
            Instruction::AddF64x4(d, s0, s1) => spec_op3(
                "vaddpd"@,
                "%%ymm"@,
                d as int,
                s0 as int,
                s1 as int,
            ),
            Instruction::AddF64x2(d, s0, s1) => spec_op3(
                "vaddpd"@,
                "%%xmm"@,
                d as int,
                s0 as int,
                s1 as int,
            ),
            Instruction::AddF64x1(d, s0, s1) => spec_op3(
                "vaddsd"@,
                "%%xmm"@,
                d as int,
                s0 as int,
                s1 as int,
            ),
            Instruction::LoadAddF64x8(d, s0, base, off) => spec_load_op(
                "vaddpd"@,
                "%%zmm"@,
                d as int,
                s0 as int,
                base@,
                off as int,
            ),
            Instruction::LoadAddF64x1(d, s0, base, off) => spec_load_op(
                "vaddsd"@,
                "%%xmm"@,
                d as int,
                s0 as int,
                base@,
                off as int,
            ),
            Instruction::MulF64x8(d, s0, s1) => spec_op3(
                "vmulpd"@,
                "%%zmm"@,
                d as int,
                s0 as int,
                s1 as int,
            ),
            Instruction::MulF64x1(d, s0, s1) => spec_op3(
                "vmulsd"@,
                "%%xmm"@,
                d as int,
                s0 as int,
                s1 as int,
            ),
            Instruction::LoadMulF64x8(d, s0, base, off) => spec_load_op(
                "vmulpd"@,
                "%%zmm"@,
                d as int,
                s0 as int,
                base@,
                off as int,
            ),
            Instruction::LoadMulF64x1(d, s0, base, off) => spec_load_op(
                "vmulsd"@,
                "%%xmm"@,
                d as int,
                s0 as int,
                base@,
                off as int,
            ),
            Instruction::MulAddF64x8(d, s0, s1) => spec_op3(
                "vfmadd231pd"@,
                "%%zmm"@,
                d as int,
                s0 as int,
                s1 as int,
            ),
            Instruction::MulAddF64x1(d, s0, s1) => spec_op3(
                "vfmadd231sd"@,
                "%%xmm"@,
                d as int,
                s0 as int,
                s1 as int,
            ),
            Instruction::LoadMulAddF64x8(d, s0, base, off) => spec_load_op(
                "vfmadd231pd"@,
                "%%zmm"@,
                d as int,
                s0 as int,
                base@,
                off as int,
            ),
            Instruction::LoadMulAddF64x1(d, s0, base, off) => spec_load_op(
                "vfmadd231sd"@,
                "%%xmm"@,
                d as int,
                s0 as int,
                base@,
                off as int,
            ),
            Instruction::NMulSubF64x8(d, s0, s1) => spec_op3(
                "vfnmsub231pd"@,
                "%%zmm"@,
                d as int,
                s0 as int,
                s1 as int,
            ),
            Instruction::LoadNMulSubF64x8(d, s0, base, off) => spec_load_op(
                "vfnmsub231pd"@,
                "%%zmm"@,
                d as int,
                s0 as int,
                base@,
                off as int,
            ),
            Instruction::DivF64x8(d, s0, s1) => spec_op3(
                "vdivpd"@,
                "%%zmm"@,
                d as int,
                s0 as int,
                s1 as int,
            ),
            Instruction::DivF64x1(d, s0, s1) => spec_op3(
                "vdivsd"@,
                "%%xmm"@,
                d as int,
                s0 as int,
                s1 as int,
            ),
            Instruction::LoadDivF64x8(d, s0, base, off) => spec_load_op(
                "vdivpd"@,
                "%%zmm"@,
                d as int,
                s0 as int,
                base@,
                off as int,
            ),
            Instruction::LoadDivF64x1(d, s0, base, off) => spec_load_op(
                "vdivsd"@,
                "%%xmm"@,
                d as int,
                s0 as int,
                base@,
                off as int,
            ),
            Instruction::LUMix4F64x8(d, s0, s1) => "vinsertf64x4 $0x0, %%ymm"@ + spec_dec(s0 as int)
                + ", %%zmm"@ + spec_dec(s1 as int) + ", %%zmm"@ + spec_dec(d as int),
            Instruction::ULMix4F64x8(d, s0, s1) => "valignq $0x4, %%zmm"@ + spec_dec(s0 as int)
                + ", %%zmm"@ + spec_dec(s1 as int) + ", %%zmm"@ + spec_dec(d as int),
            Instruction::Mix2F64x8Mask(d, s, k) => "vpermpd $0x4e, %%zmm"@ + spec_dec(s as int)
                + ", %%zmm"@ + spec_dec(d as int) + "%{%%k"@ + spec_dec(k as int) + "%}"@,
            Instruction::LUMix1F64x8(d, s0, s1) => "vshufpd $0xaa, %%zmm"@ + spec_dec(s1 as int)
                + ", %%zmm"@ + spec_dec(s0 as int) + ", %%zmm"@ + spec_dec(d as int),
            Instruction::ULMix1F64x8(d, s0, s1) => "vshufpd $0x55, %%zmm"@ + spec_dec(s1 as int)
                + ", %%zmm"@ + spec_dec(s0 as int) + ", %%zmm"@ + spec_dec(d as int),
            Instruction::ExtractU4F64x8(d, s) => "vextractf64x4 $0x1, %%zmm"@ + spec_dec(s as int)
                + ", %%ymm"@ + spec_dec(d as int),
            Instruction::ExtractU2F64x4(d, s) => "vextractf128 $0x1, %%ymm"@ + spec_dec(s as int)
                + ", %%xmm"@ + spec_dec(d as int),
            Instruction::Fold1AddF64x2(d, s) => "vhaddpd %%xmm"@ + spec_dec(s as int) + ", %%xmm"@
                + spec_dec(s as int) + ", %%xmm"@ + spec_dec(d as int),
        }
    }

    /// Renders this instruction to its assembler-syntax line.
    pub fn line(&self) -> (r: String)
        ensures
            r@ == self.spec_line(),
    {
        match *self {
            Instruction::Comment(c) => {
                if c.is_empty() {
                    assert(c@ =~= Seq::<char>::empty());
                    String::new()
                } else {
                    assert(c@ != Seq::<char>::empty());
                    let mut out = String::from_str("// ");
                    out.append(c);
                    out
                }
            },
            Instruction::Nop => String::from_str("nop"),
            Instruction::Label(name) => {
                let mut out = String::from_str(name);
                out.append(":");
                out
            },
            Instruction::JumpNotZero(label) => {
                let mut out = String::from_str("jnz ");
                out.append(label);
                out
            },
            Instruction::MaskOn(k) => {
                let mut out = String::from_str("kxnorw %%k0, %%k0, %%k");
                let d = dec_u8(k);
                out.append(d.as_str());
                out
            },
            Instruction::MaskSet(k, reg) => {
                let mut out = String::from_str("kmovw ");
                let v = render_var(reg);
                out.append(v.as_str());
                out.append(", %%k");
                let d = dec_u8(k);
                out.append(d.as_str());
                out
            },
            Instruction::MaskNot(k_dst, k_src) => {
                let mut out = String::from_str("knotw %%k");
                let ds = dec_u8(k_src);
                out.append(ds.as_str());
                out.append(", %%k");
                let dd = dec_u8(k_dst);
                out.append(dd.as_str());
                out
            },
            Instruction::AddImmediate(reg, imm) => {
                let mut out = String::from_str("add ");
                let i = render_imm(imm);
                out.append(i.as_str());
                out.append(", ");
                let v = render_var(reg);
                out.append(v.as_str());
                out
            },
            Instruction::SubImmediate(reg, imm) => {
                let mut out = String::from_str("sub ");
                let i = render_imm(imm);
                out.append(i.as_str());
                out.append(", ");
                let v = render_var(reg);
                out.append(v.as_str());
                out
            },
            Instruction::SetImmediate(reg, imm) => {
                let mut out = String::from_str("movl ");
                let i = render_imm(imm);
                out.append(i.as_str());
                out.append(", ");
                let v = render_var(reg);
                out.append(v.as_str());
                out
            },
            Instruction::ShiftRight(reg, imm) => {
                if imm == 1 {
                    let mut out = String::from_str("sar ");
                    let v = render_var(reg);
                    out.append(v.as_str());
                    out
                } else {
                    let mut out = String::from_str("sar $0x");
                    let h = hex_u16(imm as u16);
                    out.append(h.as_str());
                    out.append(", ");
                    let v = render_var(reg);
                    out.append(v.as_str());
                    out
                }
            },
            Instruction::MovReg(reg_dst, reg_src) => {
                let mut out = String::from_str("mov ");
                let vs = render_var(reg_src);
                out.append(vs.as_str());
                out.append(", ");
                let vd = render_var(reg_dst);
                out.append(vd.as_str());
                out
            },
            Instruction::MovF64x8(d, s) => render_op2("vmovupd", "%%zmm", d, s),
            Instruction::MovF64x2(d, s) => render_op2("vmovupd", "%%xmm", d, s),
            Instruction::MovI32x8(d, s) => render_op2("vmovupd", "%%ymm", d, s),
            Instruction::LoadF64x8(d, base, off) => render_load("vmovupd", "%%zmm", d, base, off),
            Instruction::LoadF64x1(d, base, off) => render_load("vmovsd", "%%xmm", d, base, off),
            Instruction::LoadI32x8(d, base, off) => render_load("vmovdqa", "%%ymm", d, base, off),
            Instruction::StoreF64x8(base, off, s) => render_store("vmovupd", "%%zmm", s, base, off),
            Instruction::StoreF64x1(base, off, s) => render_store("vmovsd", "%%xmm", s, base, off),
            Instruction::GatherF64x8(d, base, idx, k) => {
                let mut out = String::from_str("vgatherdpd (");
                let v = render_var(base);
                out.append(v.as_str());
                out.append(",%%ymm");
                let di = dec_u8(idx);
                out.append(di.as_str());
                out.append(",8), %%zmm");
                let dd = dec_u8(d);
                out.append(dd.as_str());
                out.append("%{%%k");
                let dk = dec_u8(k);
                out.append(dk.as_str());
                out.append("%}");
                out
            },
            Instruction::Prefetch(pt, base, off) => {
                let mut out = String::from_str(pt.mnemonic());
                if off > 0 {
                    out.append(" 0x");
                    let h = hex_u16(off as u16);
                    out.append(h.as_str());
                } else {
                    out.append(" -0x");
                    let h = hex_u16(neg_i16(off));
                    out.append(h.as_str());
                }
                out.append("(");
                let v = render_var(base);
                out.append(v.as_str());
                out.append(")");
                out
            },
            Instruction::AddF64x8(d, s0, s1) => render_op3("vaddpd", "%%zmm", d, s0, s1),
            Instruction::AddF64x4(d, s0, s1) => render_op3("vaddpd", "%%ymm", d, s0, s1),
            Instruction::AddF64x2(d, s0, s1) => render_op3("vaddpd", "%%xmm", d, s0, s1),
            Instruction::AddF64x1(d, s0, s1) => render_op3("vaddsd", "%%xmm", d, s0, s1),
            Instruction::LoadAddF64x8(d, s0, base, off) => render_load_op(
                "vaddpd",
                "%%zmm",
                d,
                s0,
                base,
                off,
            ),
            Instruction::LoadAddF64x1(d, s0, base, off) => render_load_op(
                "vaddsd",
                "%%xmm",
                d,
                s0,
                base,
                off,
            ),
            Instruction::MulF64x8(d, s0, s1) => render_op3("vmulpd", "%%zmm", d, s0, s1),
            Instruction::MulF64x1(d, s0, s1) => render_op3("vmulsd", "%%xmm", d, s0, s1),
            Instruction::LoadMulF64x8(d, s0, base, off) => render_load_op(
                "vmulpd",
                "%%zmm",
                d,
                s0,
                base,
                off,
            ),
            Instruction::LoadMulF64x1(d, s0, base, off) => render_load_op(
                "vmulsd",
                "%%xmm",
                d,
                s0,
                base,
                off,
            ),
            Instruction::MulAddF64x8(d, s0, s1) => render_op3("vfmadd231pd", "%%zmm", d, s0, s1),
            Instruction::MulAddF64x1(d, s0, s1) => render_op3("vfmadd231sd", "%%xmm", d, s0, s1),
            Instruction::LoadMulAddF64x8(d, s0, base, off) => render_load_op(
                "vfmadd231pd",
                "%%zmm",
                d,
                s0,
                base,
                off,
            ),
            Instruction::LoadMulAddF64x1(d, s0, base, off) => render_load_op(
                "vfmadd231sd",
                "%%xmm",
                d,
                s0,
                base,
                off,
            ),
            Instruction::NMulSubF64x8(d, s0, s1) => render_op3("vfnmsub231pd", "%%zmm", d, s0, s1),
            Instruction::LoadNMulSubF64x8(d, s0, base, off) => render_load_op(
                "vfnmsub231pd",
                "%%zmm",
                d,
                s0,
                base,
                off,
            ),
            Instruction::DivF64x8(d, s0, s1) => render_op3("vdivpd", "%%zmm", d, s0, s1),
            Instruction::DivF64x1(d, s0, s1) => render_op3("vdivsd", "%%xmm", d, s0, s1),
            Instruction::LoadDivF64x8(d, s0, base, off) => render_load_op(
                "vdivpd",
                "%%zmm",
                d,
                s0,
                base,
                off,
            ),
            Instruction::LoadDivF64x1(d, s0, base, off) => render_load_op(
                "vdivsd",
                "%%xmm",
                d,
                s0,
                base,
                off,
            ),
            Instruction::LUMix4F64x8(d, s0, s1) => {
                let mut out = String::from_str("vinsertf64x4 $0x0, %%ymm");
                let r0 = dec_u8(s0);
                out.append(r0.as_str());
                out.append(", %%zmm");
                let r1 = dec_u8(s1);
                out.append(r1.as_str());
                out.append(", %%zmm");
                let rd = dec_u8(d);
                out.append(rd.as_str());
                out
            },
            Instruction::ULMix4F64x8(d, s0, s1) => {
                let mut out = String::from_str("valignq $0x4, %%zmm");
                let r0 = dec_u8(s0);
                out.append(r0.as_str());
                out.append(", %%zmm");
                let r1 = dec_u8(s1);
                out.append(r1.as_str());
                out.append(", %%zmm");
                let rd = dec_u8(d);
                out.append(rd.as_str());
                out
            },
            Instruction::Mix2F64x8Mask(d, s, k) => {
                let mut out = String::from_str("vpermpd $0x4e, %%zmm");
                let rs = dec_u8(s);
                out.append(rs.as_str());
                out.append(", %%zmm");
                let rd = dec_u8(d);
                out.append(rd.as_str());
                out.append("%{%%k");
                let rk = dec_u8(k);
                out.append(rk.as_str());
                out.append("%}");
                out
            },
            Instruction::LUMix1F64x8(d, s0, s1) => {
                let mut out = String::from_str("vshufpd $0xaa, %%zmm");
                let r1 = dec_u8(s1);
                out.append(r1.as_str());
                out.append(", %%zmm");
                let r0 = dec_u8(s0);
                out.append(r0.as_str());
                out.append(", %%zmm");
                let rd = dec_u8(d);
                out.append(rd.as_str());
                out
            },
            Instruction::ULMix1F64x8(d, s0, s1) => {
                let mut out = String::from_str("vshufpd $0x55, %%zmm");
                let r1 = dec_u8(s1);
                out.append(r1.as_str());
                out.append(", %%zmm");
                let r0 = dec_u8(s0);
                out.append(r0.as_str());
                out.append(", %%zmm");
                let rd = dec_u8(d);
                out.append(rd.as_str());
                out
            },
            Instruction::ExtractU4F64x8(d, s) => {
                let mut out = String::from_str("vextractf64x4 $0x1, %%zmm");
                let rs = dec_u8(s);
                out.append(rs.as_str());
                out.append(", %%ymm");
                let rd = dec_u8(d);
                out.append(rd.as_str());
                out
            },
            Instruction::ExtractU2F64x4(d, s) => {
                let mut out = String::from_str("vextractf128 $0x1, %%ymm");
                let rs = dec_u8(s);
                out.append(rs.as_str());
                out.append(", %%xmm");
                let rd = dec_u8(d);
                out.append(rd.as_str());
                out
            },
            Instruction::Fold1AddF64x2(d, s) => {
                let mut out = String::from_str("vhaddpd %%xmm");
                let rs0 = dec_u8(s);
                out.append(rs0.as_str());
                out.append(", %%xmm");
                let rs1 = dec_u8(s);
                out.append(rs1.as_str());
                out.append(", %%xmm");
                let rd = dec_u8(d);
                out.append(rd.as_str());
                out
            },
        }
    }
}

} // verus!

verus! {

// ---------------------------------------------------------------------------
// Instruction sequences.
// ---------------------------------------------------------------------------
/// The mathematical value of an [`Assembly`]: the instruction list, the
/// output-operand bindings, and the two usage bitsets.
#[verifier::ext_equal]
pub struct AssemblyView {
    pub instructions: Seq<Instruction>,
    pub var_asms: Seq<(&'static str, &'static str)>,
    pub zmm_used: Seq<bool>,
    pub k_used: Seq<bool>,
}

impl AssemblyView {
    /// Well-formed views have exactly one usage flag per vector register and
    /// per usable mask register.
    pub open spec fn wf(self) -> bool {
        self.zmm_used.len() == 32 && self.k_used.len() == 4
    }

    pub open spec fn push(self, i: Instruction) -> Self {
        AssemblyView { instructions: self.instructions.push(i), ..self }
    }

    /// Marks vector register `z` as touched.
    pub open spec fn mark_zmm(self, z: int) -> Self {
        AssemblyView { zmm_used: self.zmm_used.update(z, true), ..self }
    }

    /// Marks mask register `k` (numbered from 1) as touched.
    pub open spec fn mark_k(self, k: int) -> Self {
        AssemblyView { k_used: self.k_used.update(k - 1, true), ..self }
    }
}

/// Pointwise disjunction of two usage bitsets.
pub open spec fn or_mask(a: Seq<bool>, b: Seq<bool>) -> Seq<bool> {
    Seq::new(a.len(), |i: int| a[i] || b[i])
}

/// An ordered list of instructions plus the union of every instruction's
/// register and mask usage.  Concatenation is list-append plus bitwise-or of
/// the usage sets.
pub struct Assembly {
    arr: Vec<Instruction>,
    var_asms: Vec<(&'static str, &'static str)>,
    zmm_used: [bool; 32],
    k_used: [bool; 4],
}

impl View for Assembly {
    type V = AssemblyView;

    closed spec fn view(&self) -> AssemblyView {
        AssemblyView {
            instructions: self.arr@,
            var_asms: self.var_asms@,
            zmm_used: self.zmm_used@,
            k_used: self.k_used@,
        }
    }
}

impl Assembly {
    /// An empty sequence: no instructions, no bindings, nothing touched.
    pub fn new() -> (r: Self)
        ensures
            r@.wf(),
            r@.instructions == Seq::<Instruction>::empty(),
            r@.var_asms == Seq::<(&'static str, &'static str)>::empty(),
            r@.zmm_used == Seq::new(32, |i: int| false),
            r@.k_used == Seq::new(4, |i: int| false),
    {
        let r = Assembly {
            arr: Vec::new(),
            var_asms: Vec::new(),
            zmm_used: [false;32],
            k_used: [false;4],
        };
        proof {
            assert(r@.zmm_used =~= Seq::new(32, |i: int| false));
            assert(r@.k_used =~= Seq::new(4, |i: int| false));
        }
        r
    }

    /// Records an output-operand binding of a variable to a symbolic alias.
    pub fn var_asm(self, var: &'static str, alias: &'static str) -> (r: Self)
        ensures
            r@ == (AssemblyView { var_asms: self@.var_asms.push((var, alias)), ..self@ }),
    {
        let mut s = self;
        s.var_asms.push((var, alias));
        s
    }

    /// Concatenation: list-append of instructions and bindings, pointwise
    /// disjunction of the usage sets.
    pub fn append(self, other: Self) -> (r: Self)
        requires
            self@.wf(),
            other@.wf(),
        ensures
            r@.wf(),
            r@.instructions == self@.instructions + other@.instructions,
            r@.var_asms == self@.var_asms + other@.var_asms,
            r@.zmm_used == or_mask(self@.zmm_used, other@.zmm_used),
            r@.k_used == or_mask(self@.k_used, other@.k_used),
    {
        let mut s = self;
        let mut o = other;
        s.arr.append(&mut o.arr);
        s.var_asms.append(&mut o.var_asms);
        let mut i: usize = 0;
        while i < 32
            invariant
                i <= 32,
                s@.instructions == self@.instructions + other@.instructions,
                s@.var_asms == self@.var_asms + other@.var_asms,
                s@.k_used == self@.k_used,
                o@.zmm_used == other@.zmm_used,
                self@.wf(),
                other@.wf(),
                s@.zmm_used.len() == 32,
                forall|j: int| 0 <= j < i ==> s@.zmm_used[j] == (self@.zmm_used[j]
                    || other@.zmm_used[j]),
                forall|j: int| i <= j < 32 ==> s@.zmm_used[j] == self@.zmm_used[j],
            decreases 32 - i,
        {
            let v = s.zmm_used[i] || o.zmm_used[i];
            s.zmm_used.set(i, v);
            i += 1;
        }
        let mut i: usize = 0;
        while i < 4
            invariant
                i <= 4,
                s@.instructions == self@.instructions + other@.instructions,
                s@.var_asms == self@.var_asms + other@.var_asms,
                s@.zmm_used == or_mask(self@.zmm_used, other@.zmm_used),
                o@.k_used == other@.k_used,
                self@.wf(),
                other@.wf(),
                s@.k_used.len() == 4,
                forall|j: int| 0 <= j < i ==> s@.k_used[j] == (self@.k_used[j] || other@.k_used[j]),
                forall|j: int| i <= j < 4 ==> s@.k_used[j] == self@.k_used[j],
            decreases 4 - i,
        {
            let v = s.k_used[i] || o.k_used[i];
            s.k_used.set(i, v);
            i += 1;
        }
        proof {
            assert(s@.zmm_used =~= or_mask(self@.zmm_used, other@.zmm_used));
            assert(s@.k_used =~= or_mask(self@.k_used, other@.k_used));
        }
        s
    }

    /// Appends a blank line (rendered as visual spacing, not an operation).
    pub fn empty_line(self) -> (r: Self)
        ensures
            r@ == self@.push(Instruction::Comment("")),
    {
        let mut s = self;
        s.arr.push(Instruction::Comment(""));
        s
    }

    /// Appends a comment line.
    pub fn comment(self, comment: &'static str) -> (r: Self)
        ensures
            r@ == self@.push(Instruction::Comment(comment)),
    {
        let mut s = self;
        s.arr.push(Instruction::Comment(comment));
        s
    }

    /// Appends `size` padding `nop`s.
    pub fn nop(self, size: u8) -> (r: Self)
        ensures
            r@ == (AssemblyView {
                instructions: self@.instructions + Seq::new(size as nat, |i: int| Instruction::Nop),
                ..self@
            }),
    {
        let mut s = self;
        let mut i: u8 = 0;
        while i < size
            invariant
                i <= size,
                s@ =~= (AssemblyView {
                    instructions: self@.instructions + Seq::new(
                        i as nat,
                        |j: int| Instruction::Nop,
                    ),
                    ..self@
                }),
            decreases size - i,
        {
            s.arr.push(Instruction::Nop);
            proof {
                assert(self@.instructions + Seq::new(i as nat, |j: int| Instruction::Nop) + seq![
                    Instruction::Nop,
                ] =~= self@.instructions + Seq::new((i + 1) as nat, |j: int| Instruction::Nop));
            }
            i += 1;
        }
        proof {
            assert(s@ =~= (AssemblyView {
                instructions: self@.instructions + Seq::new(size as nat, |i: int| Instruction::Nop),
                ..self@
            }));
        }
        s
    }

    /// Appends a local label definition.
    pub fn label(self, name: &'static str) -> (r: Self)
        ensures
            r@ == self@.push(Instruction::Label(name)),
    {
        let mut s = self;
        s.arr.push(Instruction::Label(name));
        s
    }

    /// Appends a conditional jump-if-nonzero to a label.
    pub fn jump_nz(self, name: &'static str) -> (r: Self)
        ensures
            r@ == self@.push(Instruction::JumpNotZero(name)),
    {
        let mut s = self;
        s.arr.push(Instruction::JumpNotZero(name));
        s
    }

    /// Sets every bit of mask register `k` (numbered 1 to 4).
    pub fn mask_on(self, k: u8) -> (r: Self)
        requires
            1 <= k <= 4,
            self@.wf(),
        ensures
            r@ == self@.push(Instruction::MaskOn(k)).mark_k(k as int),
    {
        let mut s = self;
        s.arr.push(Instruction::MaskOn(k));
        s.k_used.set((k - 1) as usize, true);
        s
    }

    /// Appends a scalar add of an immediate to a named register.
    pub fn add_immediate(self, reg_name: &'static str, imm: i16) -> (r: Self)
        ensures
            r@ == self@.push(Instruction::AddImmediate(reg_name, imm)),
    {
        let mut s = self;
        s.arr.push(Instruction::AddImmediate(reg_name, imm));
        s
    }

    /// Appends a scalar subtract of an immediate from a named register.
    pub fn sub_immediate(self, reg_name: &'static str, imm: i16) -> (r: Self)
        ensures
            r@ == self@.push(Instruction::SubImmediate(reg_name, imm)),
    {
        let mut s = self;
        s.arr.push(Instruction::SubImmediate(reg_name, imm));
        s
    }

    /// Appends a scalar move of an immediate into a named register.
    pub fn set_immediate(self, reg_name: &'static str, imm: i16) -> (r: Self)
        ensures
            r@ == self@.push(Instruction::SetImmediate(reg_name, imm)),
    {
        let mut s = self;
        s.arr.push(Instruction::SetImmediate(reg_name, imm));
        s
    }

    /// Appends an arithmetic right shift of a named register.
    pub fn shift_right(self, reg_name: &'static str, imm: u8) -> (r: Self)
        ensures
            r@ == self@.push(Instruction::ShiftRight(reg_name, imm)),
    {
        let mut s = self;
        s.arr.push(Instruction::ShiftRight(reg_name, imm));
        s
    }

    /// Appends a scalar register-to-register move.
    pub fn move_reg(self, reg_dst: &'static str, reg_src: &'static str) -> (r: Self)
        ensures
            r@ == self@.push(Instruction::MovReg(reg_dst, reg_src)),
    {
        let mut s = self;
        s.arr.push(Instruction::MovReg(reg_dst, reg_src));
        s
    }

    /// Appends a 512-bit vector move.
    pub fn move_f64x8(self, zmm_dst: u8, zmm_src: u8) -> (r: Self)
        requires
            zmm_dst < 32,
            self@.wf(),
        ensures
            r@ == self@.push(Instruction::MovF64x8(zmm_dst, zmm_src)).mark_zmm(zmm_dst as int),
    {
        let mut s = self;
        s.arr.push(Instruction::MovF64x8(zmm_dst, zmm_src));
        s.zmm_used.set(zmm_dst as usize, true);
        s
    }

    /// Appends a 128-bit vector move.
    pub fn move_f64x2(self, xmm_dst: u8, xmm_src: u8) -> (r: Self)
        requires
            xmm_dst < 32,
            self@.wf(),
        ensures
            r@ == self@.push(Instruction::MovF64x2(xmm_dst, xmm_src)).mark_zmm(xmm_dst as int),
    {
        let mut s = self;
        s.arr.push(Instruction::MovF64x2(xmm_dst, xmm_src));
        s.zmm_used.set(xmm_dst as usize, true);
        s
    }

    /// Appends a 256-bit vector move.
    pub fn move_i32x8(self, ymm_dst: u8, ymm_src: u8) -> (r: Self)
        requires
            ymm_dst < 32,
            self@.wf(),
        ensures
            r@ == self@.push(Instruction::MovI32x8(ymm_dst, ymm_src)).mark_zmm(ymm_dst as int),
    {
        let mut s = self;
        s.arr.push(Instruction::MovI32x8(ymm_dst, ymm_src));
        s.zmm_used.set(ymm_dst as usize, true);
        s
    }

    /// Appends a load of 8 packed doubles.
    pub fn load_f64x8(self, zmm: u8, reg_name: &'static str, base: i16) -> (r: Self)
        requires
            zmm < 32,
            self@.wf(),
        ensures
            r@ == self@.push(Instruction::LoadF64x8(zmm, reg_name, base)).mark_zmm(zmm as int),
    {
        let mut s = self;
        s.arr.push(Instruction::LoadF64x8(zmm, reg_name, base));
        s.zmm_used.set(zmm as usize, true);
        s
    }

    /// Appends a load of one double.
    pub fn load_f64x1(self, xmm: u8, reg_name: &'static str, base: i16) -> (r: Self)
        requires
            xmm < 32,
            self@.wf(),
        ensures
            r@ == self@.push(Instruction::LoadF64x1(xmm, reg_name, base)).mark_zmm(xmm as int),
    {
        let mut s = self;
        s.arr.push(Instruction::LoadF64x1(xmm, reg_name, base));
        s.zmm_used.set(xmm as usize, true);
        s
    }

    /// Appends a load of 8 packed 32-bit integers.  The destination must be
    /// an encodable VEX operand (below 16).
    pub fn load_i32x8(self, ymm: u8, reg_name: &'static str, base: i16) -> (r: Self)
        requires
            ymm < 16,
            self@.wf(),
        ensures
            r@ == self@.push(Instruction::LoadI32x8(ymm, reg_name, base)).mark_zmm(ymm as int),
    {
        let mut s = self;
        s.arr.push(Instruction::LoadI32x8(ymm, reg_name, base));
        s.zmm_used.set(ymm as usize, true);
        s
    }

    /// Appends a store of 8 packed doubles.
    pub fn store_f64x8(self, reg_name: &'static str, base: i16, zmm: u8) -> (r: Self)
        ensures
            r@ == self@.push(Instruction::StoreF64x8(reg_name, base, zmm)),
    {
        let mut s = self;
        s.arr.push(Instruction::StoreF64x8(reg_name, base, zmm));
        s
    }

    /// Appends a store of one double.
    pub fn store_f64x1(self, reg_name: &'static str, base: i16, xmm: u8) -> (r: Self)
        ensures
            r@ == self@.push(Instruction::StoreF64x1(reg_name, base, xmm)),
    {
        let mut s = self;
        s.arr.push(Instruction::StoreF64x1(reg_name, base, xmm));
        s
    }

    /// Appends an indexed gather of 8 doubles under a mask.  The destination
    /// and index operands must differ.
    pub fn gather_f64x8(self, zmm: u8, reg_name: &'static str, ymm_idx: u8, k: u8) -> (r: Self)
        requires
            zmm != ymm_idx,
            zmm < 32,
            self@.wf(),
        ensures
            r@ == self@.push(Instruction::GatherF64x8(zmm, reg_name, ymm_idx, k)).mark_zmm(
                zmm as int,
            ),
    {
        let mut s = self;
        s.arr.push(Instruction::GatherF64x8(zmm, reg_name, ymm_idx, k));
        s.zmm_used.set(zmm as usize, true);
        s
    }

    /// Appends a software prefetch.
    pub fn prefetch(self, prefetch_type: PrefetchType, reg_name: &'static str, base: i16) -> (r:
        Self)
        ensures
            r@ == self@.push(Instruction::Prefetch(prefetch_type, reg_name, base)),
    {
        let mut s = self;
        s.arr.push(Instruction::Prefetch(prefetch_type, reg_name, base));
        s
    }

    /// Appends an 8-wide vector add.
    pub fn add_f64x8(self, zmm_dst: u8, zmm_src0: u8, zmm_src1: u8) -> (r: Self)
        requires
            zmm_dst < 32,
            self@.wf(),
        ensures
            r@ == self@.push(Instruction::AddF64x8(zmm_dst, zmm_src0, zmm_src1)).mark_zmm(
                zmm_dst as int,
            ),
    {
        let mut s = self;
        s.arr.push(Instruction::AddF64x8(zmm_dst, zmm_src0, zmm_src1));
        s.zmm_used.set(zmm_dst as usize, true);
        s
    }

    /// Appends a scalar double add.
    pub fn add_f64x1(self, xmm_dst: u8, xmm_src0: u8, xmm_src1: u8) -> (r: Self)
        requires
            xmm_dst < 32,
            self@.wf(),
        ensures
            r@ == self@.push(Instruction::AddF64x1(xmm_dst, xmm_src0, xmm_src1)).mark_zmm(
                xmm_dst as int,
            ),
    {
        let mut s = self;
        s.arr.push(Instruction::AddF64x1(xmm_dst, xmm_src0, xmm_src1));
        s.zmm_used.set(xmm_dst as usize, true);
        s
    }

    /// Appends an 8-wide add with a memory operand.
    pub fn loadadd_f64x8(
        self,
        zmm_dst: u8,
        zmm_src0: u8,
        reg_name_src1: &'static str,
        base_src1: i16,
    ) -> (r: Self)
        requires
            zmm_dst < 32,
            self@.wf(),
        ensures
            r@ == self@.push(
                Instruction::LoadAddF64x8(zmm_dst, zmm_src0, reg_name_src1, base_src1),
            ).mark_zmm(zmm_dst as int),
    {
        let mut s = self;
        s.arr.push(Instruction::LoadAddF64x8(zmm_dst, zmm_src0, reg_name_src1, base_src1));
        s.zmm_used.set(zmm_dst as usize, true);
        s
    }

    /// Appends a scalar double add with a memory operand.
    pub fn loadadd_f64x1(
        self,
        xmm_dst: u8,
        xmm_src0: u8,
        reg_name_src1: &'static str,
        base_src1: i16,
    ) -> (r: Self)
        requires
            xmm_dst < 32,
            self@.wf(),
        ensures
            r@ == self@.push(
                Instruction::LoadAddF64x1(xmm_dst, xmm_src0, reg_name_src1, base_src1),
            ).mark_zmm(xmm_dst as int),
    {
        let mut s = self;
        s.arr.push(Instruction::LoadAddF64x1(xmm_dst, xmm_src0, reg_name_src1, base_src1));
        s.zmm_used.set(xmm_dst as usize, true);
        s
    }

    /// Appends an 8-wide vector multiply.
    pub fn mul_f64x8(self, zmm_dst: u8, zmm_src0: u8, zmm_src1: u8) -> (r: Self)
        requires
            zmm_dst < 32,
            self@.wf(),
        ensures
            r@ == self@.push(Instruction::MulF64x8(zmm_dst, zmm_src0, zmm_src1)).mark_zmm(
                zmm_dst as int,
            ),
    {
        let mut s = self;
        s.arr.push(Instruction::MulF64x8(zmm_dst, zmm_src0, zmm_src1));
        s.zmm_used.set(zmm_dst as usize, true);
        s
    }

    /// Appends a scalar double multiply.
    pub fn mul_f64x1(self, xmm_dst: u8, xmm_src0: u8, xmm_src1: u8) -> (r: Self)
        requires
            xmm_dst < 32,
            self@.wf(),
        ensures
            r@ == self@.push(Instruction::MulF64x1(xmm_dst, xmm_src0, xmm_src1)).mark_zmm(
                xmm_dst as int,
            ),
    {
        let mut s = self;
        s.arr.push(Instruction::MulF64x1(xmm_dst, xmm_src0, xmm_src1));
        s.zmm_used.set(xmm_dst as usize, true);
        s
    }

    /// Appends an 8-wide multiply with a memory operand.
    pub fn loadmul_f64x8(
        self,
        zmm_dst: u8,
        zmm_src0: u8,
        reg_name_src1: &'static str,
        base_src1: i16,
    ) -> (r: Self)
        requires
            zmm_dst < 32,
            self@.wf(),
        ensures
            r@ == self@.push(
                Instruction::LoadMulF64x8(zmm_dst, zmm_src0, reg_name_src1, base_src1),
            ).mark_zmm(zmm_dst as int),
    {
        let mut s = self;
        s.arr.push(Instruction::LoadMulF64x8(zmm_dst, zmm_src0, reg_name_src1, base_src1));
        s.zmm_used.set(zmm_dst as usize, true);
        s
    }

    /// Appends a scalar double multiply with a memory operand.
    pub fn loadmul_f64x1(
        self,
        xmm_dst: u8,
        xmm_src0: u8,
        reg_name_src1: &'static str,
        base_src1: i16,
    ) -> (r: Self)
        requires
            xmm_dst < 32,
            self@.wf(),
        ensures
            r@ == self@.push(
                Instruction::LoadMulF64x1(xmm_dst, xmm_src0, reg_name_src1, base_src1),
            ).mark_zmm(xmm_dst as int),
    {
        let mut s = self;
        s.arr.push(Instruction::LoadMulF64x1(xmm_dst, xmm_src0, reg_name_src1, base_src1));
        s.zmm_used.set(xmm_dst as usize, true);
        s
    }

    /// Appends an 8-wide fused multiply-add.
    pub fn muladd_f64x8(self, zmm_dst: u8, zmm_src0: u8, zmm_src1: u8) -> (r: Self)
        requires
            zmm_dst < 32,
            self@.wf(),
        ensures
            r@ == self@.push(Instruction::MulAddF64x8(zmm_dst, zmm_src0, zmm_src1)).mark_zmm(
                zmm_dst as int,
            ),
    {
        let mut s = self;
        s.arr.push(Instruction::MulAddF64x8(zmm_dst, zmm_src0, zmm_src1));
        s.zmm_used.set(zmm_dst as usize, true);
        s
    }

    /// Appends a scalar fused multiply-add.
    pub fn muladd_f64x1(self, xmm_dst: u8, xmm_src0: u8, xmm_src1: u8) -> (r: Self)
        requires
            xmm_dst < 32,
            self@.wf(),
        ensures
            r@ == self@.push(Instruction::MulAddF64x1(xmm_dst, xmm_src0, xmm_src1)).mark_zmm(
                xmm_dst as int,
            ),
    {
        let mut s = self;
        s.arr.push(Instruction::MulAddF64x1(xmm_dst, xmm_src0, xmm_src1));
        s.zmm_used.set(xmm_dst as usize, true);
        s
    }

    /// Appends an 8-wide fused multiply-add with a memory operand.
    pub fn loadmuladd_f64x8(
        self,
        zmm_dst: u8,
        zmm_src0: u8,
        reg_src1: &'static str,
        base_src1: i16,
    ) -> (r: Self)
        requires
            zmm_dst < 32,
            self@.wf(),
        ensures
            r@ == self@.push(
                Instruction::LoadMulAddF64x8(zmm_dst, zmm_src0, reg_src1, base_src1),
            ).mark_zmm(zmm_dst as int),
    {
        let mut s = self;
        s.arr.push(Instruction::LoadMulAddF64x8(zmm_dst, zmm_src0, reg_src1, base_src1));
        s.zmm_used.set(zmm_dst as usize, true);
        s
    }

    /// Appends a scalar fused multiply-add with a memory operand.
    pub fn loadmuladd_f64x1(
        self,
        xmm_dst: u8,
        xmm_src0: u8,
        reg_src1: &'static str,
        base_src1: i16,
    ) -> (r: Self)
        requires
            xmm_dst < 32,
            self@.wf(),
        ensures
            r@ == self@.push(
                Instruction::LoadMulAddF64x1(xmm_dst, xmm_src0, reg_src1, base_src1),
            ).mark_zmm(xmm_dst as int),
    {
        let mut s = self;
        s.arr.push(Instruction::LoadMulAddF64x1(xmm_dst, xmm_src0, reg_src1, base_src1));
        s.zmm_used.set(xmm_dst as usize, true);
        s
    }

    /// Appends an 8-wide fused negate-multiply-subtract.
    pub fn nmulsub_f64x8(self, zmm_dst: u8, zmm_src0: u8, zmm_src1: u8) -> (r: Self)
        requires
            zmm_dst < 32,
            self@.wf(),
        ensures
            r@ == self@.push(Instruction::NMulSubF64x8(zmm_dst, zmm_src0, zmm_src1)).mark_zmm(
                zmm_dst as int,
            ),
    {
        let mut s = self;
        s.arr.push(Instruction::NMulSubF64x8(zmm_dst, zmm_src0, zmm_src1));
        s.zmm_used.set(zmm_dst as usize, true);
        s
    }

    /// Appends an 8-wide fused negate-multiply-subtract with a memory
    /// operand.
    pub fn loadnmulsub_f64x8(
        self,
        zmm_dst: u8,
        zmm_src0: u8,
        reg_src1: &'static str,
        base_src1: i16,
    ) -> (r: Self)
        requires
            zmm_dst < 32,
            self@.wf(),
        ensures
            r@ == self@.push(
                Instruction::LoadNMulSubF64x8(zmm_dst, zmm_src0, reg_src1, base_src1),
            ).mark_zmm(zmm_dst as int),
    {
        let mut s = self;
        s.arr.push(Instruction::LoadNMulSubF64x8(zmm_dst, zmm_src0, reg_src1, base_src1));
        s.zmm_used.set(zmm_dst as usize, true);
        s
    }

    /// Appends an 8-wide vector divide.
    pub fn div_f64x8(self, zmm_dst: u8, zmm_src0: u8, zmm_src1: u8) -> (r: Self)
        requires
            zmm_dst < 32,
            self@.wf(),
        ensures
            r@ == self@.push(Instruction::DivF64x8(zmm_dst, zmm_src0, zmm_src1)).mark_zmm(
                zmm_dst as int,
            ),
    {
        let mut s = self;
        s.arr.push(Instruction::DivF64x8(zmm_dst, zmm_src0, zmm_src1));
        s.zmm_used.set(zmm_dst as usize, true);
        s
    }

    /// Appends a scalar double divide.
    pub fn div_f64x1(self, xmm_dst: u8, xmm_src0: u8, xmm_src1: u8) -> (r: Self)
        requires
            xmm_dst < 32,
            self@.wf(),
        ensures
            r@ == self@.push(Instruction::DivF64x1(xmm_dst, xmm_src0, xmm_src1)).mark_zmm(
                xmm_dst as int,
            ),
    {
        let mut s = self;
        s.arr.push(Instruction::DivF64x1(xmm_dst, xmm_src0, xmm_src1));
        s.zmm_used.set(xmm_dst as usize, true);
        s
    }

    /// Appends an 8-wide divide with a memory operand.
    pub fn loaddiv_f64x8(
        self,
        zmm_dst: u8,
        zmm_src0: u8,
        reg_name_src1: &'static str,
        base_src1: i16,
    ) -> (r: Self)
        requires
            zmm_dst < 32,
            self@.wf(),
        ensures
            r@ == self@.push(
                Instruction::LoadDivF64x8(zmm_dst, zmm_src0, reg_name_src1, base_src1),
            ).mark_zmm(zmm_dst as int),
    {
        let mut s = self;
        s.arr.push(Instruction::LoadDivF64x8(zmm_dst, zmm_src0, reg_name_src1, base_src1));
        s.zmm_used.set(zmm_dst as usize, true);
        s
    }

    /// Appends a scalar double divide with a memory operand.
    pub fn loaddiv_f64x1(
        self,
        xmm_dst: u8,
        xmm_src0: u8,
        reg_name_src1: &'static str,
        base_src1: i16,
    ) -> (r: Self)
        requires
            xmm_dst < 32,
            self@.wf(),
        ensures
            r@ == self@.push(
                Instruction::LoadDivF64x1(xmm_dst, xmm_src0, reg_name_src1, base_src1),
            ).mark_zmm(xmm_dst as int),
    {
        let mut s = self;
        s.arr.push(Instruction::LoadDivF64x1(xmm_dst, xmm_src0, reg_name_src1, base_src1));
        s.zmm_used.set(xmm_dst as usize, true);
        s
    }
}

} // verus!

verus! {

impl Assembly {
    /// Cross-256-bit combine: insert-low and align-upper halves of two
    /// registers, then add.  The stride-4 reduction level.
    pub fn mix4add_f64x8(self, zmm_dst: u8, zmm_src0: u8, zmm_src1: u8) -> (r: Self)
        requires
            zmm_dst < 32,
            zmm_src1 < 32,
            self@.wf(),
        ensures
            r@ == self@.push(Instruction::LUMix4F64x8(zmm_dst, zmm_src0, zmm_src1)).push(
                Instruction::ULMix4F64x8(zmm_src1, zmm_src0, zmm_src1),
            ).push(Instruction::AddF64x8(zmm_dst, zmm_dst, zmm_src1)).mark_zmm(
                zmm_dst as int,
            ).mark_zmm(zmm_src1 as int),
    {
        let mut s = self;
        s.arr.push(Instruction::LUMix4F64x8(zmm_dst, zmm_src0, zmm_src1));
        s.arr.push(Instruction::ULMix4F64x8(zmm_src1, zmm_src0, zmm_src1));
        s.arr.push(Instruction::AddF64x8(zmm_dst, zmm_dst, zmm_src1));
        s.zmm_used.set(zmm_dst as usize, true);
        s.zmm_used.set(zmm_src1 as usize, true);
        s
    }

    /// Prepares the two complementary 128-bit-granularity masks used by the
    /// stride-2 reduction level.
    pub fn init_mix2mask(self, reg_name: &'static str, mask0: u8, mask1: u8) -> (r: Self)
        requires
            1 <= mask0 <= 4,
            1 <= mask1 <= 4,
            self@.wf(),
        ensures
            r@ == self@.push(Instruction::SetImmediate(reg_name, 0x33)).push(
                Instruction::MaskSet(mask0, reg_name),
            ).push(Instruction::MaskNot(mask1, mask0)).mark_k(mask0 as int).mark_k(mask1 as int),
    {
        let mut s = self;
        s.arr.push(Instruction::SetImmediate(reg_name, 0x33));
        s.arr.push(Instruction::MaskSet(mask0, reg_name));
        s.arr.push(Instruction::MaskNot(mask1, mask0));
        s.k_used.set((mask0 - 1) as usize, true);
        s.k_used.set((mask1 - 1) as usize, true);
        s
    }

    /// Mask-controlled 128-bit lane permute of two registers, then add.  The
    /// stride-2 reduction level.
    pub fn mix2add_f64x8(
        self,
        zmm_dst: u8,
        zmm_src0: u8,
        zmm_src1: u8,
        mask0: u8,
        mask1: u8,
    ) -> (r: Self)
        requires
            zmm_dst < 32,
            zmm_src0 < 32,
            zmm_src1 < 32,
            self@.wf(),
        ensures
            r@ == self@.push(Instruction::MovF64x8(zmm_dst, zmm_src1)).push(
                Instruction::Mix2F64x8Mask(zmm_src1, zmm_src0, mask0),
            ).push(Instruction::Mix2F64x8Mask(zmm_src0, zmm_dst, mask1)).push(
                Instruction::AddF64x8(zmm_dst, zmm_src0, zmm_src1),
            ).mark_zmm(zmm_dst as int).mark_zmm(zmm_src0 as int).mark_zmm(zmm_src1 as int),
    {
        let mut s = self;
        s.arr.push(Instruction::MovF64x8(zmm_dst, zmm_src1));
        s.arr.push(Instruction::Mix2F64x8Mask(zmm_src1, zmm_src0, mask0));
        s.arr.push(Instruction::Mix2F64x8Mask(zmm_src0, zmm_dst, mask1));
        s.arr.push(Instruction::AddF64x8(zmm_dst, zmm_src0, zmm_src1));
        s.zmm_used.set(zmm_dst as usize, true);
        s.zmm_used.set(zmm_src0 as usize, true);
        s.zmm_used.set(zmm_src1 as usize, true);
        s
    }

    /// 128-bit shuffle pair of two registers, then add.  The stride-1
    /// reduction level.
    pub fn mix1add_f64x8(self, zmm_dst: u8, zmm_src0: u8, zmm_src1: u8) -> (r: Self)
        requires
            zmm_dst < 32,
            zmm_src0 < 32,
            self@.wf(),
        ensures
            r@ == self@.push(Instruction::LUMix1F64x8(zmm_dst, zmm_src0, zmm_src1)).push(
                Instruction::ULMix1F64x8(zmm_src0, zmm_src0, zmm_src1),
            ).push(Instruction::AddF64x8(zmm_dst, zmm_dst, zmm_src0)).mark_zmm(
                zmm_dst as int,
            ).mark_zmm(zmm_src0 as int),
    {
        let mut s = self;
        s.arr.push(Instruction::LUMix1F64x8(zmm_dst, zmm_src0, zmm_src1));
        s.arr.push(Instruction::ULMix1F64x8(zmm_src0, zmm_src0, zmm_src1));
        s.arr.push(Instruction::AddF64x8(zmm_dst, zmm_dst, zmm_src0));
        s.zmm_used.set(zmm_dst as usize, true);
        s.zmm_used.set(zmm_src0 as usize, true);
        s
    }

    /// 512-to-256-bit narrowing fold: extract the upper half and add.
    pub fn fold4add_f64x8(self, ymm_dst: u8, zmm_src: u8) -> (r: Self)
        requires
            ymm_dst != zmm_src,
            ymm_dst < 32,
            self@.wf(),
        ensures
            r@ == self@.push(Instruction::ExtractU4F64x8(ymm_dst, zmm_src)).push(
                Instruction::AddF64x4(ymm_dst, ymm_dst, zmm_src),
            ).mark_zmm(ymm_dst as int),
    {
        let mut s = self;
        s.arr.push(Instruction::ExtractU4F64x8(ymm_dst, zmm_src));
        s.arr.push(Instruction::AddF64x4(ymm_dst, ymm_dst, zmm_src));
        s.zmm_used.set(ymm_dst as usize, true);
        s
    }

    /// 256-to-128-bit narrowing fold: extract the upper half and add.
    pub fn fold2add_f64x4(self, xmm_dst: u8, ymm_src: u8) -> (r: Self)
        requires
            xmm_dst != ymm_src,
            xmm_dst < 32,
            self@.wf(),
        ensures
            r@ == self@.push(Instruction::ExtractU2F64x4(xmm_dst, ymm_src)).push(
                Instruction::AddF64x2(xmm_dst, xmm_dst, ymm_src),
            ).mark_zmm(xmm_dst as int),
    {
        let mut s = self;
        s.arr.push(Instruction::ExtractU2F64x4(xmm_dst, ymm_src));
        s.arr.push(Instruction::AddF64x2(xmm_dst, xmm_dst, ymm_src));
        s.zmm_used.set(xmm_dst as usize, true);
        s
    }

    /// Final horizontal pairwise add of two packed doubles, producing one
    /// scalar.
    pub fn fold1add_f64x2(self, xmm_dst: u8, xmm_src: u8) -> (r: Self)
        requires
            xmm_dst < 32,
            self@.wf(),
        ensures
            r@ == self@.push(Instruction::Fold1AddF64x2(xmm_dst, xmm_src)).mark_zmm(xmm_dst as int),
    {
        let mut s = self;
        s.arr.push(Instruction::Fold1AddF64x2(xmm_dst, xmm_src));
        s.zmm_used.set(xmm_dst as usize, true);
        s
    }
}

} // verus!

verus! {

// ---------------------------------------------------------------------------
// Rendering of a whole sequence to an inline-assembly block.
// ---------------------------------------------------------------------------
/// `n` spaces.
pub open spec fn spec_spaces(n: int) -> Seq<char>
    decreases n,
{
    if n <= 0 {
        Seq::<char>::empty()
    } else {
        spec_spaces(n - 1) + " "@
    }
}

/// The indentation for `n` nesting levels, four spaces each.
pub open spec fn spec_tab(n: int) -> Seq<char>
    decreases n,
{
    if n <= 0 {
        Seq::<char>::empty()
    } else {
        spec_tab(n - 1) + "    "@
    }
}

/// Left-justified padding to the fixed 48-column alignment of emitted
/// blocks.
pub open spec fn spec_pad48(s: Seq<char>) -> Seq<char> {
    if s.len() >= 48 {
        s
    } else {
        s + spec_spaces(48 - s.len())
    }
}

/// Whether a rendered line is a comment line.
pub open spec fn spec_is_comment(s: Seq<char>) -> bool {
    s.len() > 2 && s[0] == '/' && s[1] == '/'
}

/// Whether a rendered line is a comment line (`//` with trailing text).
pub fn is_comment(text: &str) -> (r: bool)
    ensures
        r == spec_is_comment(text@),
{
    if text.unicode_len() > 2 {
        let c0 = text.get_char(0);
        let c1 = text.get_char(1);
        c0 == '/' && c1 == '/'
    } else {
        false
    }
}

/// One printed line of the block: blank comments become empty lines,
/// comments stay verbatim, instructions are wrapped as inline-assembly
/// string literals.
pub open spec fn spec_inst_text(tab: Seq<char>, inst: Instruction) -> Seq<char> {
    let line = inst.spec_line();
    if line == Seq::<char>::empty() {
        "\n"@
    } else if spec_is_comment(line) {
        tab + spec_pad48(line) + "\n"@
    } else {
        tab + "\" "@ + spec_pad48(line) + " \\t\\n\""@ + "\n"@
    }
}

/// All printed instruction lines, in order.
pub open spec fn spec_lines(tab: Seq<char>, instrs: Seq<Instruction>) -> Seq<char>
    decreases instrs.len(),
{
    if instrs.len() == 0 {
        Seq::<char>::empty()
    } else {
        spec_lines(tab, instrs.drop_last()) + spec_inst_text(tab, instrs.last())
    }
}

/// One output-operand binding, `[ALIAS]"+r"(variable)`.
pub open spec fn spec_operand(var: &str, alias: &str) -> Seq<char> {
    "["@ + alias@ + "]\"+r\"("@ + var@ + ")"@
}

/// The first `n` output-operand bindings, comma-separated.
pub open spec fn spec_operands(vars: Seq<&str>, aliases: Seq<&str>, n: int) -> Seq<char>
    decreases n,
{
    if n <= 0 {
        Seq::<char>::empty()
    } else if n == 1 {
        spec_operand(vars[0], aliases[0])
    } else {
        spec_operands(vars, aliases, n - 1) + ", "@ + spec_operand(vars[n - 1], aliases[n - 1])
    }
}

/// The clobber entries for the first `n` vector-register usage flags.
pub open spec fn spec_zmm_items(mask: Seq<bool>, n: int) -> Seq<Seq<char>>
    decreases n,
{
    if n <= 0 {
        Seq::<Seq<char>>::empty()
    } else {
        spec_zmm_items(mask, n - 1) + (if mask[n - 1] {
            seq!["\"zmm"@ + spec_dec(n - 1) + "\""@]
        } else {
            Seq::<Seq<char>>::empty()
        })
    }
}

/// The clobber entries for the first `n` mask-register usage flags; flag `i`
/// names hardware register `k(i+1)`.
pub open spec fn spec_k_items(mask: Seq<bool>, n: int) -> Seq<Seq<char>>
    decreases n,
{
    if n <= 0 {
        Seq::<Seq<char>>::empty()
    } else {
        spec_k_items(mask, n - 1) + (if mask[n - 1] {
            seq!["\"k"@ + spec_dec(n) + "\""@]
        } else {
            Seq::<Seq<char>>::empty()
        })
    }
}

/// Comma-separated joining of clobber entries.
pub open spec fn spec_join(items: Seq<Seq<char>>) -> Seq<char>
    decreases items.len(),
{
    if items.len() == 0 {
        Seq::<char>::empty()
    } else if items.len() == 1 {
        items[0]
    } else {
        spec_join(items.drop_last()) + ", "@ + items.last()
    }
}

/// The complete clobber clause: vector registers in ascending order, then
/// mask registers in ascending order.
pub open spec fn spec_clobbers(zmm: Seq<bool>, k: Seq<bool>) -> Seq<char> {
    spec_join(spec_zmm_items(zmm, 32) + spec_k_items(k, 4))
}

/// The complete rendered block for an instruction sequence.
pub open spec fn spec_print(
    v: AssemblyView,
    tab: int,
    vars: Seq<&str>,
    aliases: Seq<&str>,
) -> Seq<char> {
    let t = spec_tab(tab);
    let n = if vars.len() <= aliases.len() {
        vars.len() as int
    } else {
        aliases.len() as int
    };
    t + "asm volatile(\n"@ + spec_lines(t, v.instructions) + t + ": "@ + spec_operands(
        vars,
        aliases,
        n,
    ) + "\n"@ + t + ":\n"@ + t + ": "@ + spec_clobbers(v.zmm_used, v.k_used) + "\n"@ + t + ");\n"@
}

fn pad48(s: String) -> (r: String)
    ensures
        r@ == spec_pad48(s@),
{
    let len0 = s.unicode_len();
    if len0 >= 48 {
        s
    } else {
        let mut out = s;
        let mut i = len0;
        while i < 48
            invariant
                len0 <= i <= 48,
                out@ =~= s@ + spec_spaces(i - len0),
            decreases 48 - i,
        {
            out.append(" ");
            i += 1;
        }
        out
    }
}

fn render_tab(tab: usize) -> (r: String)
    ensures
        r@ == spec_tab(tab as int),
{
    let mut out = String::new();
    let mut i: usize = 0;
    while i < tab
        invariant
            i <= tab,
            out@ =~= spec_tab(i as int),
        decreases tab - i,
    {
        out.append("    ");
        i += 1;
    }
    out
}

impl Assembly {
    /// Renders this sequence to one textual inline-assembly block at the
    /// given indentation level: one line per non-blank instruction, then the
    /// output-operand clause binding each variable name to its symbolic
    /// alias, then the clobber clause listing exactly the vector and mask
    /// registers whose usage bits are set, ascending and de-duplicated.
    pub fn print(&self, tab: usize, variable_names: &[&'static str], asm_names: &[&'static str]) -> (r:
        String)
        requires
            self@.wf(),
        ensures
            r@ == spec_print(self@, tab as int, variable_names@, asm_names@),
    {
        let t = render_tab(tab);
        let ghost tseq = spec_tab(tab as int);

        let mut out = String::from_str(t.as_str());
        out.append("asm volatile(\n");
        let ghost header = tseq + "asm volatile(\n"@;

        let mut idx: usize = 0;
        while idx < self.arr.len()
            invariant
                idx <= self.arr@.len(),
                t@ == tseq,
                self@.wf(),
                out@ =~= header + spec_lines(tseq, self@.instructions.take(idx as int)),
            decreases self.arr@.len() - idx,
        {
            let inst = self.arr[idx];
            let line = inst.line();
            if line.as_str().is_empty() {
                assert(inst.spec_line() =~= Seq::<char>::empty());
                out.append("\n");
            } else if is_comment(line.as_str()) {
                out.append(t.as_str());
                let padded = pad48(line);
                out.append(padded.as_str());
                out.append("\n");
            } else {
                assert(inst.spec_line() != Seq::<char>::empty());
                out.append(t.as_str());
                out.append("\" ");
                let padded = pad48(line);
                out.append(padded.as_str());
                out.append(" \\t\\n\"");
                out.append("\n");
            }
            proof {
                let pre = self@.instructions.take(idx as int);
                let post = self@.instructions.take(idx + 1 as int);
                assert(post.drop_last() =~= pre);
                assert(post.last() == self@.instructions[idx as int]);
                assert(out@ =~= header + spec_lines(tseq, post));
            }
            idx += 1;
        }
        proof {
            assert(self@.instructions.take(self.arr@.len() as int) =~= self@.instructions);
        }

        out.append(t.as_str());
        out.append(": ");
        let n = if variable_names.len() <= asm_names.len() {
            variable_names.len()
        } else {
            asm_names.len()
        };
        let ghost ops_prefix = out@;
        let mut i: usize = 0;
        while i < n
            invariant
                i <= n,
                n == if variable_names@.len() <= asm_names@.len() {
                    variable_names@.len()
                } else {
                    asm_names@.len()
                },
                out@ =~= ops_prefix + spec_operands(variable_names@, asm_names@, i as int),
            decreases n - i,
        {
            if i > 0 {
                out.append(", ");
            }
            out.append("[");
            out.append(asm_names[i]);
            out.append("]\"+r\"(");
            out.append(variable_names[i]);
            out.append(")");
            i += 1;
        }
        out.append("\n");

        out.append(t.as_str());
        out.append(":\n");

        out.append(t.as_str());
        out.append(": ");
        let ghost clob_prefix = out@;
        let mut first = true;
        let ghost mut items = Seq::<Seq<char>>::empty();
        let mut z: usize = 0;
        while z < 32
            invariant
                z <= 32,
                self@.wf(),
                items =~= spec_zmm_items(self@.zmm_used, z as int),
                first == (items.len() == 0),
                out@ =~= clob_prefix + spec_join(items),
            decreases 32 - z,
        {
            if self.zmm_used[z] {
                if !first {
                    out.append(", ");
                }
                out.append("\"zmm");
                let d = dec_u16(z as u16);
                out.append(d.as_str());
                out.append("\"");
                first = false;
                proof {
                    let item = "\"zmm"@ + spec_dec(z as int) + "\""@;
                    assert(items.push(item).drop_last() =~= items);
                    assert(spec_join(items.push(item)) =~= spec_join(items) + (if items.len() == 0 {
                        item
                    } else {
                        ", "@ + item
                    }));
                    items = items.push(item);
                }
            }
            proof {
                assert(items =~= spec_zmm_items(self@.zmm_used, z + 1 as int));
            }
            z += 1;
        }
        let ghost zmm_items_all = items;
        let mut kz: usize = 0;
        while kz < 4
            invariant
                kz <= 4,
                self@.wf(),
                zmm_items_all == spec_zmm_items(self@.zmm_used, 32),
                items =~= zmm_items_all + spec_k_items(self@.k_used, kz as int),
                first == (items.len() == 0),
                out@ =~= clob_prefix + spec_join(items),
            decreases 4 - kz,
        {
            if self.k_used[kz] {
                if !first {
                    out.append(", ");
                }
                out.append("\"k");
                let d = dec_u16((kz + 1) as u16);
                out.append(d.as_str());
                out.append("\"");
                first = false;
                proof {
                    let item = "\"k"@ + spec_dec(kz + 1 as int) + "\""@;
                    assert(items.push(item).drop_last() =~= items);
                    assert(spec_join(items.push(item)) =~= spec_join(items) + (if items.len() == 0 {
                        item
                    } else {
                        ", "@ + item
                    }));
                    items = items.push(item);
                }
            }
            proof {
                assert(items =~= zmm_items_all + spec_k_items(self@.k_used, kz + 1 as int));
            }
            kz += 1;
        }
        out.append("\n");

        out.append(t.as_str());
        out.append(");\n");

        proof {
            assert(out@ =~= spec_print(self@, tab as int, variable_names@, asm_names@));
        }
        out
    }
}

} // verus!

verus! {

/// Law: concatenation of instruction sequences is associative.  Appending
/// `(a ++ b) ++ c` and `a ++ (b ++ c)` yields the same instruction list, the
/// same bindings, the same usage bitsets, and therefore the same rendered
/// clobber clause.
pub proof fn lemma_append_associative(a: AssemblyView, b: AssemblyView, c: AssemblyView)
    requires
        a.wf(),
        b.wf(),
        c.wf(),
    ensures
        (a.instructions + b.instructions) + c.instructions == a.instructions + (b.instructions
            + c.instructions),
        (a.var_asms + b.var_asms) + c.var_asms == a.var_asms + (b.var_asms + c.var_asms),
        or_mask(or_mask(a.zmm_used, b.zmm_used), c.zmm_used) == or_mask(
            a.zmm_used,
            or_mask(b.zmm_used, c.zmm_used),
        ),
        or_mask(or_mask(a.k_used, b.k_used), c.k_used) == or_mask(
            a.k_used,
            or_mask(b.k_used, c.k_used),
        ),
        spec_clobbers(or_mask(or_mask(a.zmm_used, b.zmm_used), c.zmm_used), or_mask(or_mask(a.k_used, b.k_used), c.k_used))
            == spec_clobbers(or_mask(a.zmm_used, or_mask(b.zmm_used, c.zmm_used)), or_mask(a.k_used, or_mask(b.k_used, c.k_used))),
{
    assert((a.instructions + b.instructions) + c.instructions =~= a.instructions + (b.instructions
        + c.instructions));
    assert((a.var_asms + b.var_asms) + c.var_asms =~= a.var_asms + (b.var_asms + c.var_asms));
    assert(or_mask(or_mask(a.zmm_used, b.zmm_used), c.zmm_used) =~= or_mask(
        a.zmm_used,
        or_mask(b.zmm_used, c.zmm_used),
    ));
    assert(or_mask(or_mask(a.k_used, b.k_used), c.k_used) =~= or_mask(
        a.k_used,
        or_mask(b.k_used, c.k_used),
    ));
}

/// Law: appending never removes a previously recorded register or mask
/// usage; the clobber set of a concatenation contains each operand's.
pub proof fn lemma_append_clobber_monotone(a: AssemblyView, b: AssemblyView)
    requires
        a.wf(),
        b.wf(),
    ensures
        forall|i: int| 0 <= i < 32 && a.zmm_used[i] ==> or_mask(a.zmm_used, b.zmm_used)[i],
        forall|i: int| 0 <= i < 32 && b.zmm_used[i] ==> or_mask(a.zmm_used, b.zmm_used)[i],
        forall|i: int| 0 <= i < 4 && a.k_used[i] ==> or_mask(a.k_used, b.k_used)[i],
        forall|i: int| 0 <= i < 4 && b.k_used[i] ==> or_mask(a.k_used, b.k_used)[i],
{
}

} // verus!
