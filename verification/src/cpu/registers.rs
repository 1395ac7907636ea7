use vstd::prelude::*;

verus! {

/// Bit of F that holds the zero flag.
pub const FLAG_Z: u8 = 0x80;

/// Bit of F that holds the subtract flag.
pub const FLAG_N: u8 = 0x40;

/// Bit of F that holds the half-carry flag.
pub const FLAG_H: u8 = 0x20;

/// Bit of F that holds the carry flag.
pub const FLAG_C: u8 = 0x10;

/// The register file as the contracts see it: seven 8-bit registers and
/// the four flags of F as booleans.
#[derive(Clone, Copy)]
pub struct RegFile {
    pub a: u8,
    pub b: u8,
    pub c: u8,
    pub d: u8,
    pub e: u8,
    pub h: u8,
    pub l: u8,
    pub zf: bool,
    pub nf: bool,
    pub hf: bool,
    pub cf: bool,
}

/// The byte F that the four flags make up; its low nibble is always zero.
pub open spec fn pack_flags(zf: bool, nf: bool, hf: bool, cf: bool) -> u8 {
    ((if zf { 0x80int } else { 0 }) + (if nf { 0x40int } else { 0 }) + (if hf { 0x20int } else {
        0
    }) + (if cf { 0x10int } else { 0 })) as u8
}

/// A 16-bit pair made of a high and a low byte.
pub open spec fn pair(hi: u8, lo: u8) -> u16 {
    (hi * 256 + lo) as u16
}

/// The high byte of a 16-bit value.
pub open spec fn hi_byte(v: u16) -> u8 {
    (v / 256) as u8
}

/// The low byte of a 16-bit value.
pub open spec fn lo_byte(v: u16) -> u8 {
    (v % 256) as u8
}

impl RegFile {
    pub open spec fn f(self) -> u8 {
        pack_flags(self.zf, self.nf, self.hf, self.cf)
    }

    pub open spec fn af(self) -> u16 {
        pair(self.a, self.f())
    }

    pub open spec fn bc(self) -> u16 {
        pair(self.b, self.c)
    }

    pub open spec fn de(self) -> u16 {
        pair(self.d, self.e)
    }

    pub open spec fn hl(self) -> u16 {
        pair(self.h, self.l)
    }

    /// The flags that a byte written to F leaves: its four high bits.
    pub open spec fn with_f(self, v: u8) -> RegFile {
        RegFile {
            zf: v >= 0x80,
            nf: v % 0x80 >= 0x40,
            hf: v % 0x40 >= 0x20,
            cf: v % 0x20 >= 0x10,
            ..self
        }
    }

    pub open spec fn with_af(self, v: u16) -> RegFile {
        RegFile { a: hi_byte(v), ..self.with_f(lo_byte(v)) }
    }

    pub open spec fn with_bc(self, v: u16) -> RegFile {
        RegFile { b: hi_byte(v), c: lo_byte(v), ..self }
    }

    pub open spec fn with_de(self, v: u16) -> RegFile {
        RegFile { d: hi_byte(v), e: lo_byte(v), ..self }
    }

    pub open spec fn with_hl(self, v: u16) -> RegFile {
        RegFile { h: hi_byte(v), l: lo_byte(v), ..self }
    }

    /// The register file of a freshly created CPU: everything zero.
    pub open spec fn zeroed() -> RegFile {
        RegFile {
            a: 0,
            b: 0,
            c: 0,
            d: 0,
            e: 0,
            h: 0,
            l: 0,
            zf: false,
            nf: false,
            hf: false,
            cf: false,
        }
    }
}

proof fn lemma_pair_bits(hi: u8, lo: u8)
    by (bit_vector)
    ensures
        ((hi as u16) << 8u16 | lo as u16) == (hi * 256 + lo) as u16,
{
}

proof fn lemma_split_bits(v: u16)
    by (bit_vector)
    ensures
        ((v & 0xFF00) >> 8u16) as u8 == (v / 256) as u8,
        (v & 0xFF) as u8 == (v % 256) as u8,
        v as u8 == (v % 256) as u8,
{
}

proof fn lemma_pack_bits(zf: bool, nf: bool, hf: bool, cf: bool, f: u8)
    by (bit_vector)
    requires
        f == ((if zf { 0x80int } else { 0 }) + (if nf { 0x40int } else { 0 }) + (if hf {
            0x20int
        } else {
            0
        }) + (if cf { 0x10int } else { 0 })) as u8,
    ensures
        f & 0x0F == 0,
        (f & 0x80 != 0) == zf,
        (f & 0x40 != 0) == nf,
        (f & 0x20 != 0) == hf,
        (f & 0x10 != 0) == cf,
{
}

/// What the flag byte's bit operations do, for a byte whose low nibble is clear.
proof fn lemma_byte_masks(v: u8)
    by (bit_vector)
    ensures
        0u8 & 0x0F == 0,
        0u8 & 0x80 == 0 && 0u8 & 0x40 == 0 && 0u8 & 0x20 == 0 && 0u8 & 0x10 == 0,
        (v & 0xF0) & 0x0F == 0,
        ((v & 0xF0) & 0x80 != 0) == (v >= 0x80),
        ((v & 0xF0) & 0x40 != 0) == (v % 0x80 >= 0x40),
        ((v & 0xF0) & 0x20 != 0) == (v % 0x40 >= 0x20),
        ((v & 0xF0) & 0x10 != 0) == (v % 0x20 >= 0x10),
{
}

proof fn lemma_flag_bits(f: u8)
    by (bit_vector)
    requires
        f & 0x0F == 0,
    ensures
        f == ((if f & 0x80 != 0 { 0x80int } else { 0 }) + (if f & 0x40 != 0 { 0x40int } else {
            0
        }) + (if f & 0x20 != 0 { 0x20int } else { 0 }) + (if f & 0x10 != 0 { 0x10int } else {
            0
        })) as u8,
        (f | 0x80) & 0x0F == 0 && (f & 0x7F) & 0x0F == 0,
        (f | 0x40) & 0x0F == 0 && (f & 0xBF) & 0x0F == 0,
        (f | 0x20) & 0x0F == 0 && (f & 0xDF) & 0x0F == 0,
        (f | 0x10) & 0x0F == 0 && (f & 0xEF) & 0x0F == 0,
        (f | 0x80) & 0x80 != 0 && (f & 0x7F) & 0x80 == 0,
        (f | 0x40) & 0x40 != 0 && (f & 0xBF) & 0x40 == 0,
        (f | 0x20) & 0x20 != 0 && (f & 0xDF) & 0x20 == 0,
        (f | 0x10) & 0x10 != 0 && (f & 0xEF) & 0x10 == 0,
        ((f | 0x80) & 0x40) == (f & 0x40) && ((f & 0x7F) & 0x40) == (f & 0x40),
        ((f | 0x80) & 0x20) == (f & 0x20) && ((f & 0x7F) & 0x20) == (f & 0x20),
        ((f | 0x80) & 0x10) == (f & 0x10) && ((f & 0x7F) & 0x10) == (f & 0x10),
        ((f | 0x40) & 0x80) == (f & 0x80) && ((f & 0xBF) & 0x80) == (f & 0x80),
        ((f | 0x40) & 0x20) == (f & 0x20) && ((f & 0xBF) & 0x20) == (f & 0x20),
        ((f | 0x40) & 0x10) == (f & 0x10) && ((f & 0xBF) & 0x10) == (f & 0x10),
        ((f | 0x20) & 0x80) == (f & 0x80) && ((f & 0xDF) & 0x80) == (f & 0x80),
        ((f | 0x20) & 0x40) == (f & 0x40) && ((f & 0xDF) & 0x40) == (f & 0x40),
        ((f | 0x20) & 0x10) == (f & 0x10) && ((f & 0xDF) & 0x10) == (f & 0x10),
        ((f | 0x10) & 0x80) == (f & 0x80) && ((f & 0xEF) & 0x80) == (f & 0x80),
        ((f | 0x10) & 0x40) == (f & 0x40) && ((f & 0xEF) & 0x40) == (f & 0x40),
        ((f | 0x10) & 0x20) == (f & 0x20) && ((f & 0xEF) & 0x20) == (f & 0x20),
{
}

/// The eight-bit registers of the CPU. F keeps only its four flag bits.
pub struct Registers {
    a_reg: u8,
    b_reg: u8,
    c_reg: u8,
    d_reg: u8,
    e_reg: u8,
    f_reg: u8,
    h_reg: u8,
    l_reg: u8,
}

impl View for Registers {
    type V = RegFile;

    closed spec fn view(&self) -> RegFile {
        RegFile {
            a: self.a_reg,
            b: self.b_reg,
            c: self.c_reg,
            d: self.d_reg,
            e: self.e_reg,
            h: self.h_reg,
            l: self.l_reg,
            zf: self.f_reg & 0x80 != 0,
            nf: self.f_reg & 0x40 != 0,
            hf: self.f_reg & 0x20 != 0,
            cf: self.f_reg & 0x10 != 0,
        }
    }
}

impl Registers {
    #[verifier::type_invariant]
    spec fn low_nibble_clear(self) -> bool {
        self.f_reg & 0x0F == 0
    }

    pub fn new() -> (r: Self)
        ensures
            r@ == RegFile::zeroed(),
    {
        proof {
            lemma_byte_masks(0);
        }
        let r = Registers {
            a_reg: 0,
            f_reg: 0,
            b_reg: 0,
            c_reg: 0,
            d_reg: 0,
            e_reg: 0,
            h_reg: 0,
            l_reg: 0,
        };
        r
    }

    /// All registers at once.
    pub fn get_all(&self) -> (r: RegFile)
        ensures
            r == self@,
    {
        RegFile {
            a: self.a_reg,
            b: self.b_reg,
            c: self.c_reg,
            d: self.d_reg,
            e: self.e_reg,
            h: self.h_reg,
            l: self.l_reg,
            zf: self.f_reg & FLAG_Z != 0,
            nf: self.f_reg & FLAG_N != 0,
            hf: self.f_reg & FLAG_H != 0,
            cf: self.f_reg & FLAG_C != 0,
        }
    }

    /// Sets all registers at once.
    pub fn set_all(&mut self, r: RegFile)
        ensures
            final(self)@ == r,
    {
        proof {
            use_type_invariant(&*self);
        }
        let f: u8 = (if r.zf { 0x80u8 } else { 0 }) + (if r.nf { 0x40u8 } else { 0 }) + (if r.hf {
            0x20u8
        } else {
            0
        }) + (if r.cf { 0x10u8 } else { 0 });
        proof {
            lemma_pack_bits(r.zf, r.nf, r.hf, r.cf, f);
        }
        self.a_reg = r.a;
        self.b_reg = r.b;
        self.c_reg = r.c;
        self.d_reg = r.d;
        self.e_reg = r.e;
        self.h_reg = r.h;
        self.l_reg = r.l;
        self.f_reg = f;
    }

    pub fn a(&self) -> (v: u8)
        ensures
            v == self@.a,
    {
        self.a_reg
    }

    pub fn set_a(&mut self, value: u8)
        ensures
            final(self)@ == (RegFile { a: value, ..old(self)@ }),
    {
        proof {
            use_type_invariant(&*self);
        }
        self.a_reg = value;
    }

    pub fn f(&self) -> (v: u8)
        ensures
            v == self@.f(),
            v & 0x0F == 0,
    {
        proof {
            use_type_invariant(self);
            lemma_flag_bits(self.f_reg);
        }
        self.f_reg
    }

    pub fn set_f(&mut self, value: u8)
        ensures
            final(self)@ == old(self)@.with_f(value),
    {
        proof {
            use_type_invariant(&*self);
        }
        let v = value & 0xF0;
        proof {
            lemma_byte_masks(value);
        }
        self.f_reg = v;
    }

    pub fn b(&self) -> (v: u8)
        ensures
            v == self@.b,
    {
        self.b_reg
    }

    pub fn set_b(&mut self, value: u8)
        ensures
            final(self)@ == (RegFile { b: value, ..old(self)@ }),
    {
        proof {
            use_type_invariant(&*self);
        }
        self.b_reg = value;
    }

    pub fn c(&self) -> (v: u8)
        ensures
            v == self@.c,
    {
        self.c_reg
    }

    pub fn set_c(&mut self, value: u8)
        ensures
            final(self)@ == (RegFile { c: value, ..old(self)@ }),
    {
        proof {
            use_type_invariant(&*self);
        }
        self.c_reg = value;
    }

    pub fn d(&self) -> (v: u8)
        ensures
            v == self@.d,
    {
        self.d_reg
    }

    pub fn set_d(&mut self, value: u8)
        ensures
            final(self)@ == (RegFile { d: value, ..old(self)@ }),
    {
        proof {
            use_type_invariant(&*self);
        }
        self.d_reg = value;
    }

    pub fn e(&self) -> (v: u8)
        ensures
            v == self@.e,
    {
        self.e_reg
    }

    pub fn set_e(&mut self, value: u8)
        ensures
            final(self)@ == (RegFile { e: value, ..old(self)@ }),
    {
        proof {
            use_type_invariant(&*self);
        }
        self.e_reg = value;
    }

    pub fn h(&self) -> (v: u8)
        ensures
            v == self@.h,
    {
        self.h_reg
    }

    pub fn set_h(&mut self, value: u8)
        ensures
            final(self)@ == (RegFile { h: value, ..old(self)@ }),
    {
        proof {
            use_type_invariant(&*self);
        }
        self.h_reg = value;
    }

    pub fn l(&self) -> (v: u8)
        ensures
            v == self@.l,
    {
        self.l_reg
    }

    pub fn set_l(&mut self, value: u8)
        ensures
            final(self)@ == (RegFile { l: value, ..old(self)@ }),
    {
        proof {
            use_type_invariant(&*self);
        }
        self.l_reg = value;
    }

    pub fn get_af(&self) -> (v: u16)
        ensures
            v == self@.af(),
    {
        let f = self.f();
        proof {
            lemma_pair_bits(self.a_reg, f);
        }
        (self.a_reg as u16) << 8u16 | f as u16
    }

    pub fn set_af(&mut self, value: u16)
        ensures
            final(self)@ == old(self)@.with_af(value),
    {
        proof {
            use_type_invariant(&*self);
        }
        proof {
            lemma_split_bits(value);
        }
        self.a_reg = ((value & 0xFF00) >> 8u16) as u8;
        self.set_f(value as u8);
    }

    pub fn get_bc(&self) -> (v: u16)
        ensures
            v == self@.bc(),
    {
        proof {
            lemma_pair_bits(self.b_reg, self.c_reg);
        }
        (self.b_reg as u16) << 8u16 | self.c_reg as u16
    }

    pub fn set_bc(&mut self, value: u16)
        ensures
            final(self)@ == old(self)@.with_bc(value),
    {
        proof {
            use_type_invariant(&*self);
        }
        proof {
            lemma_split_bits(value);
        }
        self.b_reg = ((value & 0xFF00) >> 8u16) as u8;
        self.c_reg = (value & 0xFF) as u8;
    }

    pub fn get_de(&self) -> (v: u16)
        ensures
            v == self@.de(),
    {
        proof {
            lemma_pair_bits(self.d_reg, self.e_reg);
        }
        (self.d_reg as u16) << 8u16 | self.e_reg as u16
    }

    pub fn set_de(&mut self, value: u16)
        ensures
            final(self)@ == old(self)@.with_de(value),
    {
        proof {
            use_type_invariant(&*self);
        }
        proof {
            lemma_split_bits(value);
        }
        self.d_reg = ((value & 0xFF00) >> 8u16) as u8;
        self.e_reg = (value & 0xFF) as u8;
    }

    pub fn get_hl(&self) -> (v: u16)
        ensures
            v == self@.hl(),
    {
        proof {
            lemma_pair_bits(self.h_reg, self.l_reg);
        }
        (self.h_reg as u16) << 8u16 | self.l_reg as u16
    }

    pub fn set_hl(&mut self, value: u16)
        ensures
            final(self)@ == old(self)@.with_hl(value),
    {
        proof {
            use_type_invariant(&*self);
        }
        proof {
            lemma_split_bits(value);
        }
        self.h_reg = ((value & 0xFF00) >> 8u16) as u8;
        self.l_reg = (value & 0xFF) as u8;
    }

    pub fn get_z(&self) -> (v: bool)
        ensures
            v == self@.zf,
    {
        self.f_reg & FLAG_Z != 0
    }

    pub fn get_n(&self) -> (v: bool)
        ensures
            v == self@.nf,
    {
        self.f_reg & FLAG_N != 0
    }

    pub fn get_hc(&self) -> (v: bool)
        ensures
            v == self@.hf,
    {
        self.f_reg & FLAG_H != 0
    }

    pub fn get_carry(&self) -> (v: bool)
        ensures
            v == self@.cf,
    {
        self.f_reg & FLAG_C != 0
    }

    pub fn set_z(&mut self, zf: bool)
        ensures
            final(self)@ == (RegFile { zf: zf, ..old(self)@ }),
    {
        proof {
            use_type_invariant(&*self);
        }
        let f = self.f_reg;
        let nf = if zf { f | 0x80 } else { f & 0x7F };
        proof {
            lemma_flag_bits(f);
        }
        self.f_reg = nf;
    }

    pub fn set_n(&mut self, nf: bool)
        ensures
            final(self)@ == (RegFile { nf: nf, ..old(self)@ }),
    {
        proof {
            use_type_invariant(&*self);
        }
        let f = self.f_reg;
        let g = if nf { f | 0x40 } else { f & 0xBF };
        proof {
            lemma_flag_bits(f);
        }
        self.f_reg = g;
    }

    pub fn set_hc(&mut self, hf: bool)
        ensures
            final(self)@ == (RegFile { hf: hf, ..old(self)@ }),
    {
        proof {
            use_type_invariant(&*self);
        }
        let f = self.f_reg;
        let g = if hf { f | 0x20 } else { f & 0xDF };
        proof {
            lemma_flag_bits(f);
        }
        self.f_reg = g;
    }

    pub fn set_carry(&mut self, cf: bool)
        ensures
            final(self)@ == (RegFile { cf: cf, ..old(self)@ }),
    {
        proof {
            use_type_invariant(&*self);
        }
        let f = self.f_reg;
        let g = if cf { f | 0x10 } else { f & 0xEF };
        proof {
            lemma_flag_bits(f);
        }
        self.f_reg = g;
    }
}

/// The flag byte written to F reads back with its low nibble cleared.
proof fn lemma_f_readback(v: u8)
    by (bit_vector)
    ensures
        ((if v >= 0x80 { 0x80int } else { 0 }) + (if v % 0x80 >= 0x40 { 0x40int } else { 0 }) + (if v
            % 0x40 >= 0x20 { 0x20int } else { 0 }) + (if v % 0x20 >= 0x10 { 0x10int } else { 0 })) as u8
            == v & 0xF0,
{
}

/// A 16-bit register pair reads back what was written to it; AF reads back
/// with the low nibble of F cleared, since F keeps only its four flag bits.
/// Writing one pair leaves the other registers as they were.
pub proof fn lemma_pair_roundtrip(r: RegFile, v: u16)
    ensures
        r.with_bc(v).bc() == v,
        r.with_de(v).de() == v,
        r.with_hl(v).hl() == v,
        r.with_af(v).af() == v & 0xFFF0,
        r.with_af(v).af() == pair(hi_byte(v), lo_byte(v) & 0xF0),
        r.with_bc(v).a == r.a && r.with_bc(v).de() == r.de() && r.with_bc(v).hl() == r.hl()
            && r.with_bc(v).f() == r.f(),
        r.with_de(v).a == r.a && r.with_de(v).bc() == r.bc() && r.with_de(v).hl() == r.hl()
            && r.with_de(v).f() == r.f(),
        r.with_hl(v).a == r.a && r.with_hl(v).bc() == r.bc() && r.with_hl(v).de() == r.de()
            && r.with_hl(v).f() == r.f(),
{
    lemma_f_readback(lo_byte(v));
    let lo = lo_byte(v);
    assert(pair(hi_byte(v), lo & 0xF0) == v & 0xFFF0) by (bit_vector)
        requires
            lo == (v % 256) as u8,
    ;
}

/// F keeps only its four high bits: a byte written to it reads back with
/// its low nibble cleared.
pub proof fn lemma_f_roundtrip(r: RegFile, v: u8)
    ensures
        r.with_f(v).f() == v & 0xF0,
{
    lemma_f_readback(v);
}

} // verus!
