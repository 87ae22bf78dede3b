//! GIF packets: the tags that carry graphics-synthesiser register writes.
use vstd::prelude::*;
use crate::bitfield::{
    get_field, set_field, spec_get_field, spec_set_field, low_mask, lemma_get_set_same,
    lemma_get_set_flag, lemma_get_field_bound,
};
use crate::ps2::gs::{lemma_low_masks, SetPrimitive};

verus! {

/// A value that can be written to a graphics-synthesiser register through a GIF packet.
pub trait GsRegisterPacketData {
    /// The register written.
    spec fn spec_register_num(&self) -> u64;

    /// The 64-bit value written.
    spec fn spec_dword(&self) -> u64;

    fn register_num(&self) -> (r: u64)
        ensures
            r == self.spec_register_num(),
    ;

    fn to_dword(&self) -> (r: u64)
        ensures
            r == self.spec_dword(),
    ;
}

/// A raw `[value, register]` pair.
impl GsRegisterPacketData for [u64; 2] {
    open spec fn spec_register_num(&self) -> u64 {
        self[1]
    }

    open spec fn spec_dword(&self) -> u64 {
        self[0]
    }

    fn register_num(&self) -> (r: u64) {
        self[1]
    }

    fn to_dword(&self) -> (r: u64) {
        self[0]
    }
}

/// How the data after a GIFtag is laid out.
#[derive(Clone, Copy, Debug, PartialEq, Eq, Structural)]
pub enum PacketDataFormat {
    Packed,
    RegList,
    Image,
}

impl PacketDataFormat {
    pub open spec fn spec_code(self) -> u8 {
        match self {
            PacketDataFormat::Packed => 0,
            PacketDataFormat::RegList => 1,
            PacketDataFormat::Image => 2,
        }
    }

    /// The format with hardware code `code` (two bits; 2 and 3 both mean image data).
    pub open spec fn spec_from_code(code: u8) -> Self {
        if code == 0 {
            PacketDataFormat::Packed
        } else if code == 1 {
            PacketDataFormat::RegList
        } else {
            PacketDataFormat::Image
        }
    }

    pub fn code(&self) -> (c: u8)
        ensures
            c == self.spec_code(),
            c < 3,
            Self::spec_from_code(c) == *self,
    {
        match self {
            PacketDataFormat::Packed => 0,
            PacketDataFormat::RegList => 1,
            PacketDataFormat::Image => 2,
        }
    }
}

/// The register descriptors of a GIFtag in packed mode.
#[derive(Clone, Copy, Debug, PartialEq, Eq, Structural)]
pub enum Register {
    Prim,
    Rgba,
    Stq,
    Uv,
    Xyzf,
    Xyz,
    Fog,
    AddressAndData,
    Nop,
}

impl Register {
    pub open spec fn spec_code(self) -> u64 {
        match self {
            Register::Prim => 0,
            Register::Rgba => 1,
            Register::Stq => 2,
            Register::Uv => 3,
            Register::Xyzf => 4,
            Register::Xyz => 5,
            Register::Fog => 10,
            Register::AddressAndData => 14,
            Register::Nop => 15,
        }
    }

    pub fn code(&self) -> (c: u64)
        ensures
            c == self.spec_code(),
    {
        match self {
            Register::Prim => 0,
            Register::Rgba => 1,
            Register::Stq => 2,
            Register::Uv => 3,
            Register::Xyzf => 4,
            Register::Xyz => 5,
            Register::Fog => 10,
            Register::AddressAndData => 14,
            Register::Nop => 15,
        }
    }
}

/// The 64-bit GIFtag head: loop count, end-of-packet flag, primitive, data format and register count.
#[derive(Clone, Copy, Debug, PartialEq, Eq, Structural)]
pub struct PacketFields(pub u64);

impl PacketFields {
    pub open spec fn spec_nloop(self) -> u16 {
        spec_get_field(self.0, 0, 15) as u16
    }

    pub fn get_nloop(&self) -> (r: u16)
        ensures
            r == self.spec_nloop(),
            r <= low_mask(15),
    {
        proof {
            lemma_get_field_bound(self.0, 0, 15);
            lemma_low_masks();
        }
        get_field(self.0, 0, 15) as u16
    }

    pub fn set_nloop(&mut self, value: u16)
        ensures
            final(self).0 == spec_set_field(old(self).0, 0, 15, value as u64),
            final(self).spec_nloop() == ((value as u64) & low_mask(15)) as u16,
    {
        proof {
            lemma_get_set_same(self.0, 0, 15, value as u64);
            lemma_get_field_bound(spec_set_field(self.0, 0, 15, value as u64), 0, 15);
            lemma_low_masks();
        }
        self.0 = set_field(self.0, 0, 15, value as u64);
    }

    pub open spec fn spec_end_of_packet(self) -> bool {
        spec_get_field(self.0, 15, 1) == 1
    }

    pub fn get_end_of_packet(&self) -> (r: bool)
        ensures
            r == self.spec_end_of_packet(),
    {
        get_field(self.0, 15, 1) == 1
    }

    pub fn set_end_of_packet(&mut self, value: bool)
        ensures
            final(self).0 == spec_set_field(old(self).0, 15, 1, if value { 1 } else { 0 }),
            final(self).spec_end_of_packet() == value,
    {
        proof {
            lemma_get_set_flag(self.0, 15, value);
        }
        self.0 = set_field(self.0, 15, 1, if value { 1 } else { 0 });
    }

    pub open spec fn spec_prim_enable(self) -> bool {
        spec_get_field(self.0, 46, 1) == 1
    }

    pub fn get_prim_enable(&self) -> (r: bool)
        ensures
            r == self.spec_prim_enable(),
    {
        get_field(self.0, 46, 1) == 1
    }

    pub fn set_prim_enable(&mut self, value: bool)
        ensures
            final(self).0 == spec_set_field(old(self).0, 46, 1, if value { 1 } else { 0 }),
            final(self).spec_prim_enable() == value,
    {
        proof {
            lemma_get_set_flag(self.0, 46, value);
        }
        self.0 = set_field(self.0, 46, 1, if value { 1 } else { 0 });
    }

    pub open spec fn spec_prim_data_raw(self) -> u16 {
        spec_get_field(self.0, 47, 11) as u16
    }

    pub fn get_prim_data_raw(&self) -> (r: u16)
        ensures
            r == self.spec_prim_data_raw(),
            r <= low_mask(11),
    {
        proof {
            lemma_get_field_bound(self.0, 47, 11);
            lemma_low_masks();
        }
        get_field(self.0, 47, 11) as u16
    }

    pub fn set_prim_data_raw(&mut self, value: u16)
        ensures
            final(self).0 == spec_set_field(old(self).0, 47, 11, value as u64),
            final(self).spec_prim_data_raw() == ((value as u64) & low_mask(11)) as u16,
    {
        proof {
            lemma_get_set_same(self.0, 47, 11, value as u64);
            lemma_get_field_bound(spec_set_field(self.0, 47, 11, value as u64), 47, 11);
            lemma_low_masks();
        }
        self.0 = set_field(self.0, 47, 11, value as u64);
    }

    pub open spec fn spec_data_format_raw(self) -> u8 {
        spec_get_field(self.0, 58, 2) as u8
    }

    pub fn get_data_format_raw(&self) -> (r: u8)
        ensures
            r == self.spec_data_format_raw(),
            r <= low_mask(2),
    {
        proof {
            lemma_get_field_bound(self.0, 58, 2);
            lemma_low_masks();
        }
        get_field(self.0, 58, 2) as u8
    }

    pub fn set_data_format_raw(&mut self, value: u8)
        ensures
            final(self).0 == spec_set_field(old(self).0, 58, 2, value as u64),
            final(self).spec_data_format_raw() == ((value as u64) & low_mask(2)) as u8,
    {
        proof {
            lemma_get_set_same(self.0, 58, 2, value as u64);
            lemma_get_field_bound(spec_set_field(self.0, 58, 2, value as u64), 58, 2);
            lemma_low_masks();
        }
        self.0 = set_field(self.0, 58, 2, value as u64);
    }

    pub open spec fn spec_num_regs_raw(self) -> u8 {
        spec_get_field(self.0, 60, 4) as u8
    }

    pub fn get_num_regs_raw(&self) -> (r: u8)
        ensures
            r == self.spec_num_regs_raw(),
            r <= low_mask(4),
    {
        proof {
            lemma_get_field_bound(self.0, 60, 4);
            lemma_low_masks();
        }
        get_field(self.0, 60, 4) as u8
    }

    pub fn set_num_regs_raw(&mut self, value: u8)
        ensures
            final(self).0 == spec_set_field(old(self).0, 60, 4, value as u64),
            final(self).spec_num_regs_raw() == ((value as u64) & low_mask(4)) as u8,
    {
        proof {
            lemma_get_set_same(self.0, 60, 4, value as u64);
            lemma_get_field_bound(spec_set_field(self.0, 60, 4, value as u64), 60, 4);
            lemma_low_masks();
        }
        self.0 = set_field(self.0, 60, 4, value as u64);
    }

    /// The PRIM value carried in the tag.
    pub open spec fn spec_prim_data(self) -> SetPrimitive {
        SetPrimitive(self.spec_prim_data_raw() as u64)
    }

    pub fn get_prim_data(&self) -> (r: SetPrimitive)
        ensures
            r == self.spec_prim_data(),
    {
        SetPrimitive(self.get_prim_data_raw() as u64)
    }

    /// Stores the low 11 bits of `prim_data`, all that the tag has room for.
    pub fn set_prim_data(&mut self, prim_data: SetPrimitive)
        ensures
            final(self).0 == spec_set_field(old(self).0, 47, 11, prim_data.0 & 0x7FF),
            final(self).spec_prim_data().0 == prim_data.0 & 0x7FF,
    {
        let raw = (prim_data.0 & 0x7FF) as u16;
        proof {
            let p = prim_data.0;
            lemma_low_masks();
            assert(((p & 0x7FF) as u16) as u64 == p & 0x7FF && ((((p & 0x7FF) as u16) as u64) & 2047)
                == p & 0x7FF) by (bit_vector);
        }
        self.set_prim_data_raw(raw);
    }

    /// The data format held (codes 2 and 3 both mean image data).
    pub open spec fn spec_data_format(self) -> PacketDataFormat {
        PacketDataFormat::spec_from_code(self.spec_data_format_raw())
    }

    pub fn get_data_format(&self) -> (r: PacketDataFormat)
        ensures
            r == self.spec_data_format(),
    {
        let raw = self.get_data_format_raw();
        if raw == 0 {
            PacketDataFormat::Packed
        } else if raw == 1 {
            PacketDataFormat::RegList
        } else {
            PacketDataFormat::Image
        }
    }

    pub fn set_data_format(&mut self, data_format: PacketDataFormat)
        ensures
            final(self).0 == spec_set_field(old(self).0, 58, 2, data_format.spec_code() as u64),
            final(self).spec_data_format() == data_format,
    {
        let code = data_format.code();
        proof {
            lemma_low_masks();
            assert((code as u64) & 3 == code as u64) by (bit_vector)
                requires
                    code < 3,
            ;
        }
        self.set_data_format_raw(code);
    }

    /// The number of registers per loop, 1 to 16 (a raw 0 means 16).
    pub open spec fn spec_num_regs(self) -> u8 {
        if self.spec_num_regs_raw() == 0 {
            16
        } else {
            self.spec_num_regs_raw()
        }
    }

    pub fn get_num_regs(&self) -> (r: u8)
        ensures
            r == self.spec_num_regs(),
            1 <= r <= 16,
    {
        let raw = self.get_num_regs_raw();
        proof {
            lemma_low_masks();
        }
        if raw == 0 {
            16
        } else {
            raw
        }
    }

    /// Stores a register count (16 is stored as 0; only the low 4 bits of other values fit).
    pub fn set_num_regs(&mut self, num_regs: u8)
        requires
            num_regs != 0,
        ensures
            final(self).0 == spec_set_field(
                old(self).0,
                60,
                4,
                (if num_regs == 16 {
                    0
                } else {
                    num_regs
                }) as u64,
            ),
            1 <= num_regs <= 16 ==> final(self).spec_num_regs() == num_regs,
    {
        let raw: u8 = if num_regs == 16 {
            0
        } else {
            num_regs
        };
        proof {
            lemma_low_masks();
            assert(raw < 16 ==> (raw as u64) & 15 == raw as u64) by (bit_vector);
        }
        self.set_num_regs_raw(raw);
    }
}

/// The GIFtag head of a packed packet of `n` register writes.
pub open spec fn spec_packed_fields(n: nat) -> u64 {
    spec_set_field(
        spec_set_field(
            spec_set_field(spec_set_field(0, 0, 15, n as u16 as u64), 15, 1, 1),
            58,
            2,
            0,
        ),
        60,
        4,
        1,
    )
}

/// A GIF packet: one GIFtag followed by one quadword per register write.
#[derive(Clone, Debug)]
pub struct Packet {
    fields: PacketFields,
    registers: u64,
    data: Vec<[u64; 2]>,
}

impl Packet {
    pub closed spec fn spec_fields(&self) -> PacketFields {
        self.fields
    }

    pub closed spec fn spec_registers(&self) -> u64 {
        self.registers
    }

    /// The `[value, register]` quadwords after the tag.
    pub closed spec fn spec_data(&self) -> Seq<[u64; 2]> {
        self.data@
    }

    /// A packed packet writing each of `tags`, in order, through the A+D register.
    pub fn packed_from_gs_reg_array(tags: &[&dyn GsRegisterPacketData]) -> (r: Self)
        requires
            tags@.len() <= 0x8000,
        ensures
            r.spec_fields().0 == spec_packed_fields(tags@.len()),
            r.spec_registers() == Register::AddressAndData.spec_code(),
            r.spec_data().len() == tags@.len(),
            forall|i: int|
                0 <= i < tags@.len() ==> #[trigger] r.spec_data()[i] == [
                    tags@[i].spec_dword(),
                    tags@[i].spec_register_num(),
                ],
    {
        let mut data: Vec<[u64; 2]> = Vec::new();
        let mut i: usize = 0;
        while i < tags.len()
            invariant
                i <= tags@.len(),
                data@.len() == i,
                forall|j: int|
                    0 <= j < i ==> #[trigger] data@[j] == [
                        tags@[j].spec_dword(),
                        tags@[j].spec_register_num(),
                    ],
            decreases tags@.len() - i,
        {
            let tag = tags[i];
            data.push([tag.to_dword(), tag.register_num()]);
            i = i + 1;
        }
        Self::packed_from_register_writes(data)
    }

    /// A packed packet of the `[value, register]` writes given, in order, through the A+D
    /// register.
    pub fn packed_from_register_writes(writes: Vec<[u64; 2]>) -> (r: Self)
        requires
            writes@.len() <= 0x8000,
        ensures
            r.spec_fields().0 == spec_packed_fields(writes@.len()),
            r.spec_fields().spec_nloop() == writes@.len() % 0x8000,
            r.spec_fields().spec_end_of_packet(),
            r.spec_fields().spec_data_format() == PacketDataFormat::Packed,
            r.spec_fields().spec_num_regs() == 1,
            r.spec_registers() == Register::AddressAndData.spec_code(),
            r.spec_data() == writes@,
    {
        let mut fields = PacketFields(0);
        fields.set_nloop(writes.len() as u16);
        fields.set_end_of_packet(true);
        fields.set_data_format(PacketDataFormat::Packed);
        fields.set_num_regs(1);
        proof {
            let n = writes@.len();
            let w0 = spec_set_field(0, 0, 15, n as u16 as u64);
            let w1 = spec_set_field(w0, 15, 1, 1);
            let w2 = spec_set_field(w1, 58, 2, 0);
            lemma_low_masks();
            lemma_get_set_same(0, 0, 15, n as u16 as u64);
            crate::bitfield::lemma_get_set_other(w0, 15, 1, 1, 0, 15);
            crate::bitfield::lemma_get_set_other(w1, 58, 2, 0, 0, 15);
            crate::bitfield::lemma_get_set_other(w2, 60, 4, 1, 0, 15);
            crate::bitfield::lemma_get_set_other(w1, 58, 2, 0, 15, 1);
            crate::bitfield::lemma_get_set_other(w2, 60, 4, 1, 15, 1);
            crate::bitfield::lemma_get_set_other(w2, 60, 4, 1, 58, 2);
            lemma_get_set_flag(w0, 15, true);
            let m = n as u16;
            assert((m as u64) & 0x7FFF == (m as u64) % 0x8000) by (bit_vector);
            assert(n <= 0x8000 ==> (n as u16) as int == n);
        }
        Packet { fields, registers: Register::AddressAndData.code(), data: writes }
    }

    /// The quadwords of the packet in the order DMA sends them: the tag, then the data.
    pub fn as_dma_packet(&self) -> (r: Vec<[u64; 2]>)
        ensures
            r@.len() == self.spec_data().len() + 1,
            r@[0] == [self.spec_fields().0, self.spec_registers()],
            forall|i: int| 0 <= i < self.spec_data().len() ==> #[trigger] r@[i + 1] == self.spec_data()[i],
    {
        let mut out: Vec<[u64; 2]> = Vec::new();
        out.push([self.fields.0, self.registers]);
        let mut i: usize = 0;
        while i < self.data.len()
            invariant
                i <= self.data@.len(),
                out@.len() == i + 1,
                out@[0] == [self.fields.0, self.registers],
                forall|j: int| 0 <= j < i ==> #[trigger] out@[j + 1] == self.data@[j],
            decreases self.data@.len() - i,
        {
            out.push(self.data[i]);
            i = i + 1;
        }
        out
    }
}

} // verus!
