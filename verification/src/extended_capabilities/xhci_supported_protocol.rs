//! xHCI Supported Protocol Capability
use crate::bits;
use vstd::prelude::*;

verus! {
/// Bit Rate
///
/// [`ProtocolSpeedId::protocol_speed_id_exponent`] returns a value of this type.
#[derive(Copy, Clone, PartialEq, Eq, Structural, PartialOrd, Ord, Hash, Debug)]
pub enum BitRate {
    /// Bits Per Second
    Bits,
    /// Kb/s
    Kb,
    /// Mb/s
    Mb,
    /// Gb/s
    Gb,
}

impl BitRate {
    /// The values of the Protocol Speed ID Exponent (PSIE) field are those of the xHCI
    /// specification: each variant is encoded as its number, each number decodes to its variant,
    /// and no other number decodes to a variant.
    pub proof fn lemma_numbers()
        ensures
            BitRate::Bits.encoding() == 0,
            BitRate::Kb.encoding() == 1,
            BitRate::Mb.encoding() == 2,
            BitRate::Gb.encoding() == 3,
            BitRate::decode(0) == Some(BitRate::Bits),
            BitRate::decode(1) == Some(BitRate::Kb),
            BitRate::decode(2) == Some(BitRate::Mb),
            BitRate::decode(3) == Some(BitRate::Gb),
            forall|v: u32|
                #[trigger] BitRate::decode(v) is Some ==> (
                    v == 0 || v == 1 || v == 2 || v == 3
                ),
    {
    }

    /// The number that encodes this value in its field.
    pub open spec fn encoding(self) -> u32 {
        match self {
            BitRate::Bits => 0,
            BitRate::Kb => 1,
            BitRate::Mb => 2,
            BitRate::Gb => 3,
        }
    }

    /// The value that the number `v` encodes, if it encodes one.
    pub open spec fn decode(v: u32) -> Option<BitRate> {
        if v == 0 {
            Some(BitRate::Bits)
        } else if v == 1 {
            Some(BitRate::Kb)
        } else if v == 2 {
            Some(BitRate::Mb)
        } else if v == 3 {
            Some(BitRate::Gb)
        } else {
            None
        }
    }

    /// Returns the number that encodes this value.
    pub fn to_u32(self) -> (r: u32)
        ensures
            r == self.encoding(),
    {
        match self {
            BitRate::Bits => 0,
            BitRate::Kb => 1,
            BitRate::Mb => 2,
            BitRate::Gb => 3,
        }
    }

    /// Returns the value that `v` encodes, or `None` if `v` is a reserved number.
    pub fn from_u32(v: u32) -> (r: Option<Self>)
        ensures
            r == Self::decode(v),
    {
        if v == 0 {
            Some(BitRate::Bits)
        } else if v == 1 {
            Some(BitRate::Kb)
        } else if v == 2 {
            Some(BitRate::Mb)
        } else if v == 3 {
            Some(BitRate::Gb)
        } else {
            None
        }
    }

    /// Decoding the number that encodes a value gives that value back.
    pub proof fn lemma_decode_encoding(self)
        ensures
            Self::decode(self.encoding()) == Some(self),
    {
    }
}

/// PSI Type
///
/// [`ProtocolSpeedId::psi_type`] returns a value of this type.
#[derive(Copy, Clone, PartialEq, Eq, Structural, PartialOrd, Ord, Hash, Debug)]
pub enum PsiType {
    /// Symmetric.
    ///
    /// Single DSI Dword.
    Symmetric,
    /// Asymmetric Rx.
    ///
    /// Paired with Asymmetric Tx PSI Dword.
    AsymmetricRx,
    /// Asymmetric Tx.
    ///
    /// Immediately follows Rx Asymmetric PSI Dword.
    AsymmetricTx,
}

impl PsiType {
    /// The values of the PSI Type (PLT) field are those of the xHCI specification: each variant is
    /// encoded as its number, each number decodes to its variant, and no other number decodes to a
    /// variant.
    pub proof fn lemma_numbers()
        ensures
            PsiType::Symmetric.encoding() == 0,
            PsiType::AsymmetricRx.encoding() == 2,
            PsiType::AsymmetricTx.encoding() == 3,
            PsiType::decode(0) == Some(PsiType::Symmetric),
            PsiType::decode(2) == Some(PsiType::AsymmetricRx),
            PsiType::decode(3) == Some(PsiType::AsymmetricTx),
            forall|v: u32|
                #[trigger] PsiType::decode(v) is Some ==> (
                    v == 0 || v == 2 || v == 3
                ),
    {
    }

    /// The number that encodes this value in its field.
    pub open spec fn encoding(self) -> u32 {
        match self {
            PsiType::Symmetric => 0,
            PsiType::AsymmetricRx => 2,
            PsiType::AsymmetricTx => 3,
        }
    }

    /// The value that the number `v` encodes, if it encodes one.
    pub open spec fn decode(v: u32) -> Option<PsiType> {
        if v == 0 {
            Some(PsiType::Symmetric)
        } else if v == 2 {
            Some(PsiType::AsymmetricRx)
        } else if v == 3 {
            Some(PsiType::AsymmetricTx)
        } else {
            None
        }
    }

    /// Returns the number that encodes this value.
    pub fn to_u32(self) -> (r: u32)
        ensures
            r == self.encoding(),
    {
        match self {
            PsiType::Symmetric => 0,
            PsiType::AsymmetricRx => 2,
            PsiType::AsymmetricTx => 3,
        }
    }

    /// Returns the value that `v` encodes, or `None` if `v` is a reserved number.
    pub fn from_u32(v: u32) -> (r: Option<Self>)
        ensures
            r == Self::decode(v),
    {
        if v == 0 {
            Some(PsiType::Symmetric)
        } else if v == 2 {
            Some(PsiType::AsymmetricRx)
        } else if v == 3 {
            Some(PsiType::AsymmetricTx)
        } else {
            None
        }
    }

    /// Decoding the number that encodes a value gives that value back.
    pub proof fn lemma_decode_encoding(self)
        ensures
            Self::decode(self.encoding()) == Some(self),
    {
    }
}

/// Link-level protocol
///
/// [`ProtocolSpeedId::link_protocol`] returns a value of this type.
#[derive(Copy, Clone, PartialEq, Eq, Structural, PartialOrd, Ord, Hash, Debug)]
pub enum LinkProtocol {
    /// Super Speed
    SuperSpeed,
    /// Super Speed Plus
    SuperSpeedPlus,
}

impl LinkProtocol {
    /// The values of the Link Protocol (LP) field are those of the xHCI specification: each variant
    /// is encoded as its number, each number decodes to its variant, and no other number decodes to
    /// a variant.
    pub proof fn lemma_numbers()
        ensures
            LinkProtocol::SuperSpeed.encoding() == 0,
            LinkProtocol::SuperSpeedPlus.encoding() == 1,
            LinkProtocol::decode(0) == Some(LinkProtocol::SuperSpeed),
            LinkProtocol::decode(1) == Some(LinkProtocol::SuperSpeedPlus),
            forall|v: u32|
                #[trigger] LinkProtocol::decode(v) is Some ==> (
                    v == 0 || v == 1
                ),
    {
    }

    /// The number that encodes this value in its field.
    pub open spec fn encoding(self) -> u32 {
        match self {
            LinkProtocol::SuperSpeed => 0,
            LinkProtocol::SuperSpeedPlus => 1,
        }
    }

    /// The value that the number `v` encodes, if it encodes one.
    pub open spec fn decode(v: u32) -> Option<LinkProtocol> {
        if v == 0 {
            Some(LinkProtocol::SuperSpeed)
        } else if v == 1 {
            Some(LinkProtocol::SuperSpeedPlus)
        } else {
            None
        }
    }

    /// Returns the number that encodes this value.
    pub fn to_u32(self) -> (r: u32)
        ensures
            r == self.encoding(),
    {
        match self {
            LinkProtocol::SuperSpeed => 0,
            LinkProtocol::SuperSpeedPlus => 1,
        }
    }

    /// Returns the value that `v` encodes, or `None` if `v` is a reserved number.
    pub fn from_u32(v: u32) -> (r: Option<Self>)
        ensures
            r == Self::decode(v),
    {
        if v == 0 {
            Some(LinkProtocol::SuperSpeed)
        } else if v == 1 {
            Some(LinkProtocol::SuperSpeedPlus)
        } else {
            None
        }
    }

    /// Decoding the number that encodes a value gives that value back.
    pub proof fn lemma_decode_encoding(self)
        ensures
            Self::decode(self.encoding()) == Some(self),
    {
    }
}

/// The location of the parts of an xHCI Supported Protocol Capability.
#[derive(Copy, Clone, Debug)]
pub struct XhciSupportedProtocol {
    base: usize,
}

impl XhciSupportedProtocol {
    #[verifier::type_invariant]
    spec fn fits(&self) -> bool {
        self.base + 0x10 <= usize::MAX
    }

    /// The address of the capability.
    pub closed spec fn spec_base(&self) -> usize {
        self.base
    }

    /// Locates the capability at `base`.
    pub fn new(base: usize) -> (r: Self)
        requires
            base + 0x10 <= usize::MAX,
        ensures
            r.spec_base() == base,
    {
        Self { base }
    }

    /// Returns where each of the first four Dwords of the capability lies, and its size: the
    /// header is read one Dword at a time.
    pub fn header_dwords(&self) -> (r: [(usize, usize); 4])
        ensures
            r@ == seq![
                (self.spec_base(), 4usize),
                ((self.spec_base() + 4) as usize, 4usize),
                ((self.spec_base() + 8) as usize, 4usize),
                ((self.spec_base() + 12) as usize, 4usize),
            ],
    {
        proof {
            use_type_invariant(self);
        }
        [(self.base, 4), (self.base + 0x4, 4), (self.base + 0x8, 4), (self.base + 0xc, 4)]
    }

    /// Returns the address of the Protocol Speed IDs and their number, or `None` if the
    /// Protocol Speed ID Count of the header is 0. The IDs follow the 16 bytes of the header.
    pub fn psis(&self, header: Header) -> (r: Option<(usize, usize)>)
        ensures
            r is None <==> bits::field32(header@[2], 28, 4) == 0,
            r matches Some(p) ==> p.0 == self.spec_base() + 0x10 && p.1 == bits::field32(
                header@[2],
                28,
                4,
            ),
    {
        proof {
            use_type_invariant(self);
        }
        let len = header.protocol_speed_id_count();
        if len > 0 {
            Some((self.base + 0x10, len as usize))
        } else {
            None
        }
    }
}

/// The first 16 bytes of xHCI Supported Protocol Capability.
#[derive(Copy, Clone, Debug)]
pub struct Header([u32; 4]);

impl View for Header {
    type V = Seq<u32>;

    closed spec fn view(&self) -> Seq<u32> {
        self.0@
    }
}

impl Header {
    /// Wraps a raw value of the register.
    pub fn from_raw(raw: [u32; 4]) -> (r: Self)
        ensures
            r@ == raw@,
    {
        Self(raw)
    }

    /// Returns the raw value of the register.
    pub fn into_raw(self) -> (r: [u32; 4])
        ensures
            r@ == self@,
    {
        self.0
    }

    /// Returns the value of the Minor Revision field.
    pub fn minor_revision(self) -> (r: u8)
        ensures
            r == bits::field32(self@[0], 16, 8),
    {
        proof {
            bits::lemma_mask32_values();
        }
        bits::get_bits_u32(self.0[0], 16, 8) as u8
    }

    /// Returns the value of the Major Revision field.
    pub fn major_revision(self) -> (r: u8)
        ensures
            r == bits::field32(self@[0], 24, 8),
    {
        proof {
            bits::lemma_mask32_values();
        }
        bits::get_bits_u32(self.0[0], 24, 8) as u8
    }

    /// Returns the value of the Name String field.
    pub fn name_string(&self) -> (r: u32)
        ensures
            r == self@[1],
    {
        self.0[1]
    }

    /// Returns the value of the Compatible Port Offset field.
    pub fn compatible_port_offset(self) -> (r: u8)
        ensures
            r == bits::field32(self@[2], 0, 8),
    {
        proof {
            bits::lemma_mask32_values();
        }
        bits::get_bits_u32(self.0[2], 0, 8) as u8
    }

    /// Returns the value of the Compatible Port Count field.
    pub fn compatible_port_count(self) -> (r: u8)
        ensures
            r == bits::field32(self@[2], 8, 8),
    {
        proof {
            bits::lemma_mask32_values();
        }
        bits::get_bits_u32(self.0[2], 8, 8) as u8
    }

    /// Returns the Link Soft Error Count Capability bit.
    ///
    /// **This bit is only valid for USB3.**
    pub fn link_soft_error_count_capability(self) -> (r: bool)
        ensures
            r == bits::bit32(self@[2], 24),
    {
        bits::get_bit_u32(self.0[2], 24)
    }

    /// Returns the High-speed Only bit.
    ///
    /// **This bit is only valid for USB2.**
    pub fn high_speed_only(self) -> (r: bool)
        ensures
            r == bits::bit32(self@[2], 17),
    {
        bits::get_bit_u32(self.0[2], 17)
    }

    /// Returns the Integrated Hub Implemented bit.
    ///
    /// **This bit is only valid for USB2.**
    pub fn integrated_hub_implemented(self) -> (r: bool)
        ensures
            r == bits::bit32(self@[2], 18),
    {
        bits::get_bit_u32(self.0[2], 18)
    }

    /// Returns the Hardware LPM Capability bit.
    ///
    /// **This bit is only valid for USB2.**
    pub fn hardware_lpm_capability(self) -> (r: bool)
        ensures
            r == bits::bit32(self@[2], 19),
    {
        bits::get_bit_u32(self.0[2], 19)
    }

    /// Returns the BESL LPM Capability bit.
    ///
    /// **This bit is only valid for USB2.**
    pub fn besl_lpm_capability(self) -> (r: bool)
        ensures
            r == bits::bit32(self@[2], 20),
    {
        bits::get_bit_u32(self.0[2], 20)
    }

    /// Returns the value of the Hub Depth field.
    pub fn hub_depth(self) -> (r: u8)
        ensures
            r == bits::field32(self@[2], 25, 3),
    {
        proof {
            bits::lemma_mask32_values();
        }
        bits::get_bits_u32(self.0[2], 25, 3) as u8
    }

    /// Returns the value of the Protocol Speed ID Count field.
    pub fn protocol_speed_id_count(self) -> (r: u8)
        ensures
            r == bits::field32(self@[2], 28, 4),
    {
        proof {
            bits::lemma_mask32_values();
        }
        bits::get_bits_u32(self.0[2], 28, 4) as u8
    }

    /// Returns the value of the Protocol Slot Type field.
    pub fn protocol_slot_type(self) -> (r: u8)
        ensures
            r == bits::field32(self@[3], 0, 5),
    {
        proof {
            bits::lemma_mask32_values();
        }
        bits::get_bits_u32(self.0[3], 0, 5) as u8
    }
}

/// Protocol Speed ID
#[derive(Copy, Clone, Debug)]
pub struct ProtocolSpeedId(u32);

impl View for ProtocolSpeedId {
    type V = u32;

    closed spec fn view(&self) -> u32 {
        self.0
    }
}

impl ProtocolSpeedId {
    /// Wraps a raw value of the register.
    pub fn from_raw(raw: u32) -> (r: Self)
        ensures
            r@ == raw,
    {
        Self(raw)
    }

    /// Returns the raw value of the register.
    pub fn into_raw(self) -> (r: u32)
        ensures
            r == self@,
    {
        self.0
    }

    /// Returns the value of the Protocol Speed ID Value field.
    pub fn protocol_speed_id_value(self) -> (r: u8)
        ensures
            r == bits::field32(self@, 0, 4),
    {
        proof {
            bits::lemma_mask32_values();
        }
        bits::get_bits_u32(self.0, 0, 4) as u8
    }

    /// Returns the value of the Protocol Speed ID Exponent field.
    pub fn protocol_speed_id_exponent(self) -> (r: BitRate)
        ensures
            BitRate::decode(bits::field32(self@, 4, 2) as u32) == Some(r),
    {
        proof {
            bits::lemma_mask32_values();
        }
        let v = BitRate::from_u32(bits::get_bits_u32(self.0, 4, 2));
        v.unwrap()
    }

    /// Returns the value of the PSI Type field.
    ///
    /// The field must not hold the reserved value.
    pub fn psi_type(self) -> (r: PsiType)
        requires
            PsiType::decode(bits::field32(self@, 6, 2) as u32) is Some,
        ensures
            PsiType::decode(bits::field32(self@, 6, 2) as u32) == Some(r),
    {
        proof {
            bits::lemma_mask32_values();
        }
        let v = PsiType::from_u32(bits::get_bits_u32(self.0, 6, 2));
        v.unwrap()
    }

    /// Returns the PSI Full-duplex bit.
    pub fn psi_full_duplex(self) -> (r: bool)
        ensures
            r == bits::bit32(self@, 8),
    {
        bits::get_bit_u32(self.0, 8)
    }

    /// Returns the value of the Link Protocol field.
    ///
    /// The field must not hold a reserved value.
    pub fn link_protocol(self) -> (r: LinkProtocol)
        requires
            LinkProtocol::decode(bits::field32(self@, 14, 2) as u32) is Some,
        ensures
            LinkProtocol::decode(bits::field32(self@, 14, 2) as u32) == Some(r),
    {
        proof {
            bits::lemma_mask32_values();
        }
        let v = LinkProtocol::from_u32(bits::get_bits_u32(self.0, 14, 2));
        v.unwrap()
    }

    /// Returns the value of the Protocol Speed ID Mantissa field.
    pub fn protocol_speed_id_mantissa(self) -> (r: u16)
        ensures
            r == bits::field32(self@, 16, 16),
    {
        proof {
            bits::lemma_mask32_values();
        }
        bits::get_bits_u32(self.0, 16, 16) as u16
    }
}

} // verus!
