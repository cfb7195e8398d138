//! Tx Identity register (`0x47`).
//!
//! The register is 49 bytes long. Bit `i` of the register is bit `i % 8` of
//! byte `i / 8`. The fields and the bits they take:
//!
//! | field | bits |
//! |---|---|
//! | number of valid VDOs | 0 to 2 |
//! | vendor id | 8 to 23 |
//! | product type DFP | 31 to 33 |
//! | modal operation supported | 34 |
//! | product type UFP | 35 to 37 |
//! | USB communication capable as device | 38 |
//! | USB communication capable as host | 39 |
//! | certification test id | 40 to 71 |
//! | BCD device | 72 to 87 |
//! | USB product id | 88 to 103 |
//! | UFP1 VDO | 104 to 135 |
//! | DFP1 VDO | 168 to 199 |
use vstd::prelude::*;

use crate::bytes::{le_u16, le_u32, read_u16_le, read_u32_le, u16_le, u32_le, write_u16_le};
use crate::bytes::{lemma_le_u16_round_trip, lemma_le_u32_round_trip, write_u32_le};

verus! {

/// The address of the `Tx Identity` register.
pub const ADDR: u8 = 0x47;

/// The length of the `Tx Identity` register, in bytes.
pub const LEN: usize = 49;

/// How many VDOs of the register are valid, or what is answered in their place.
#[derive(Debug, Clone, Copy, PartialEq, Eq, Hash, Structural)]
pub enum TxIdentityVdoCount {
    Nak,
    Busy,
    NotSupported,
    Ack3Vdos,
    Ack4Vdos,
    Ack5Vdos,
    Ack6Vdos,
    Reserved(u8),
}

impl TxIdentityVdoCount {
    /// The value that the low three bits of a byte stand for.
    pub open spec fn spec_from(value: u8) -> TxIdentityVdoCount {
        let low = value & 0x7;
        if low == 0x0 {
            TxIdentityVdoCount::Nak
        } else if low == 0x1 {
            TxIdentityVdoCount::Busy
        } else if low == 0x2 {
            TxIdentityVdoCount::NotSupported
        } else if low == 0x3 {
            TxIdentityVdoCount::Ack3Vdos
        } else if low == 0x4 {
            TxIdentityVdoCount::Ack4Vdos
        } else if low == 0x5 {
            TxIdentityVdoCount::Ack5Vdos
        } else if low == 0x6 {
            TxIdentityVdoCount::Ack6Vdos
        } else {
            TxIdentityVdoCount::Reserved(low)
        }
    }

    /// The byte that stands for the value.
    pub open spec fn spec_code(self) -> u8 {
        match self {
            TxIdentityVdoCount::Nak => 0x0,
            TxIdentityVdoCount::Busy => 0x1,
            TxIdentityVdoCount::NotSupported => 0x2,
            TxIdentityVdoCount::Ack3Vdos => 0x3,
            TxIdentityVdoCount::Ack4Vdos => 0x4,
            TxIdentityVdoCount::Ack5Vdos => 0x5,
            TxIdentityVdoCount::Ack6Vdos => 0x6,
            TxIdentityVdoCount::Reserved(x) => x,
        }
    }
}

impl From<u8> for TxIdentityVdoCount {
    fn from(value: u8) -> (r: Self) {
        match value & 0x7 {
            0x0 => TxIdentityVdoCount::Nak,
            0x1 => TxIdentityVdoCount::Busy,
            0x2 => TxIdentityVdoCount::NotSupported,
            0x3 => TxIdentityVdoCount::Ack3Vdos,
            0x4 => TxIdentityVdoCount::Ack4Vdos,
            0x5 => TxIdentityVdoCount::Ack5Vdos,
            0x6 => TxIdentityVdoCount::Ack6Vdos,
            x => TxIdentityVdoCount::Reserved(x),
        }
    }
}

impl vstd::std_specs::convert::FromSpecImpl<u8> for TxIdentityVdoCount {
    open spec fn obeys_from_spec() -> bool {
        true
    }

    open spec fn from_spec(value: u8) -> Self {
        TxIdentityVdoCount::spec_from(value)
    }
}

impl From<TxIdentityVdoCount> for u8 {
    fn from(value: TxIdentityVdoCount) -> (r: Self) {
        match value {
            TxIdentityVdoCount::Nak => 0x0,
            TxIdentityVdoCount::Busy => 0x1,
            TxIdentityVdoCount::NotSupported => 0x2,
            TxIdentityVdoCount::Ack3Vdos => 0x3,
            TxIdentityVdoCount::Ack4Vdos => 0x4,
            TxIdentityVdoCount::Ack5Vdos => 0x5,
            TxIdentityVdoCount::Ack6Vdos => 0x6,
            TxIdentityVdoCount::Reserved(x) => x,
        }
    }
}

impl vstd::std_specs::convert::FromSpecImpl<TxIdentityVdoCount> for u8 {
    open spec fn obeys_from_spec() -> bool {
        true
    }

    open spec fn from_spec(value: TxIdentityVdoCount) -> Self {
        value.spec_code()
    }
}

/// Reading back a value that was written gives the value, as far as it is
/// one that three bits can hold.
pub proof fn lemma_txidentityvdocount_round_trip(value: TxIdentityVdoCount)
    requires
        value.spec_code() <= 7,
        value matches TxIdentityVdoCount::Reserved(x) ==> x >= 7,
    ensures
        TxIdentityVdoCount::spec_from(value.spec_code()) == value,
{
    let c = value.spec_code();
    assert(c <= 7 ==> c & 0x7 == c) by (bit_vector);
}

/// Product type of the port as a downstream facing port.
#[derive(Debug, Clone, Copy, PartialEq, Eq, Hash, Structural)]
pub enum TxIdentityProductTypeDfp {
    UndefinedDfp,
    PdUsbHub,
    PdUsbHost,
    PowerBrick,
    Amc,
    Reserved(u8),
}

impl TxIdentityProductTypeDfp {
    /// The value that the low three bits of a byte stand for.
    pub open spec fn spec_from(value: u8) -> TxIdentityProductTypeDfp {
        let low = value & 0x7;
        if low == 0x0 {
            TxIdentityProductTypeDfp::UndefinedDfp
        } else if low == 0x1 {
            TxIdentityProductTypeDfp::PdUsbHub
        } else if low == 0x2 {
            TxIdentityProductTypeDfp::PdUsbHost
        } else if low == 0x3 {
            TxIdentityProductTypeDfp::PowerBrick
        } else if low == 0x4 {
            TxIdentityProductTypeDfp::Amc
        } else {
            TxIdentityProductTypeDfp::Reserved(low)
        }
    }

    /// The byte that stands for the value.
    pub open spec fn spec_code(self) -> u8 {
        match self {
            TxIdentityProductTypeDfp::UndefinedDfp => 0x0,
            TxIdentityProductTypeDfp::PdUsbHub => 0x1,
            TxIdentityProductTypeDfp::PdUsbHost => 0x2,
            TxIdentityProductTypeDfp::PowerBrick => 0x3,
            TxIdentityProductTypeDfp::Amc => 0x4,
            TxIdentityProductTypeDfp::Reserved(x) => x,
        }
    }
}

impl From<u8> for TxIdentityProductTypeDfp {
    fn from(value: u8) -> (r: Self) {
        match value & 0x7 {
            0x0 => TxIdentityProductTypeDfp::UndefinedDfp,
            0x1 => TxIdentityProductTypeDfp::PdUsbHub,
            0x2 => TxIdentityProductTypeDfp::PdUsbHost,
            0x3 => TxIdentityProductTypeDfp::PowerBrick,
            0x4 => TxIdentityProductTypeDfp::Amc,
            x => TxIdentityProductTypeDfp::Reserved(x),
        }
    }
}

impl vstd::std_specs::convert::FromSpecImpl<u8> for TxIdentityProductTypeDfp {
    open spec fn obeys_from_spec() -> bool {
        true
    }

    open spec fn from_spec(value: u8) -> Self {
        TxIdentityProductTypeDfp::spec_from(value)
    }
}

impl From<TxIdentityProductTypeDfp> for u8 {
    fn from(value: TxIdentityProductTypeDfp) -> (r: Self) {
        match value {
            TxIdentityProductTypeDfp::UndefinedDfp => 0x0,
            TxIdentityProductTypeDfp::PdUsbHub => 0x1,
            TxIdentityProductTypeDfp::PdUsbHost => 0x2,
            TxIdentityProductTypeDfp::PowerBrick => 0x3,
            TxIdentityProductTypeDfp::Amc => 0x4,
            TxIdentityProductTypeDfp::Reserved(x) => x,
        }
    }
}

impl vstd::std_specs::convert::FromSpecImpl<TxIdentityProductTypeDfp> for u8 {
    open spec fn obeys_from_spec() -> bool {
        true
    }

    open spec fn from_spec(value: TxIdentityProductTypeDfp) -> Self {
        value.spec_code()
    }
}

/// Reading back a value that was written gives the value, as far as it is
/// one that three bits can hold.
pub proof fn lemma_txidentityproducttypedfp_round_trip(value: TxIdentityProductTypeDfp)
    requires
        value.spec_code() <= 7,
        value matches TxIdentityProductTypeDfp::Reserved(x) ==> x >= 5,
    ensures
        TxIdentityProductTypeDfp::spec_from(value.spec_code()) == value,
{
    let c = value.spec_code();
    assert(c <= 7 ==> c & 0x7 == c) by (bit_vector);
}

/// Product type of the port as an upstream facing port.
#[derive(Debug, Clone, Copy, PartialEq, Eq, Hash, Structural)]
pub enum TxIdentityProductTypeUfp {
    UndefinedUfp,
    PdUsbHub,
    PdUsbPeripheral,
    Psd,
    Reserved(u8),
}

impl TxIdentityProductTypeUfp {
    /// The value that the low three bits of a byte stand for.
    pub open spec fn spec_from(value: u8) -> TxIdentityProductTypeUfp {
        let low = value & 0x7;
        if low == 0x0 {
            TxIdentityProductTypeUfp::UndefinedUfp
        } else if low == 0x1 {
            TxIdentityProductTypeUfp::PdUsbHub
        } else if low == 0x2 {
            TxIdentityProductTypeUfp::PdUsbPeripheral
        } else if low == 0x3 {
            TxIdentityProductTypeUfp::Psd
        } else {
            TxIdentityProductTypeUfp::Reserved(low)
        }
    }

    /// The byte that stands for the value.
    pub open spec fn spec_code(self) -> u8 {
        match self {
            TxIdentityProductTypeUfp::UndefinedUfp => 0x0,
            TxIdentityProductTypeUfp::PdUsbHub => 0x1,
            TxIdentityProductTypeUfp::PdUsbPeripheral => 0x2,
            TxIdentityProductTypeUfp::Psd => 0x3,
            TxIdentityProductTypeUfp::Reserved(x) => x,
        }
    }
}

impl From<u8> for TxIdentityProductTypeUfp {
    fn from(value: u8) -> (r: Self) {
        match value & 0x7 {
            0x0 => TxIdentityProductTypeUfp::UndefinedUfp,
            0x1 => TxIdentityProductTypeUfp::PdUsbHub,
            0x2 => TxIdentityProductTypeUfp::PdUsbPeripheral,
            0x3 => TxIdentityProductTypeUfp::Psd,
            x => TxIdentityProductTypeUfp::Reserved(x),
        }
    }
}

impl vstd::std_specs::convert::FromSpecImpl<u8> for TxIdentityProductTypeUfp {
    open spec fn obeys_from_spec() -> bool {
        true
    }

    open spec fn from_spec(value: u8) -> Self {
        TxIdentityProductTypeUfp::spec_from(value)
    }
}

impl From<TxIdentityProductTypeUfp> for u8 {
    fn from(value: TxIdentityProductTypeUfp) -> (r: Self) {
        match value {
            TxIdentityProductTypeUfp::UndefinedUfp => 0x0,
            TxIdentityProductTypeUfp::PdUsbHub => 0x1,
            TxIdentityProductTypeUfp::PdUsbPeripheral => 0x2,
            TxIdentityProductTypeUfp::Psd => 0x3,
            TxIdentityProductTypeUfp::Reserved(x) => x,
        }
    }
}

impl vstd::std_specs::convert::FromSpecImpl<TxIdentityProductTypeUfp> for u8 {
    open spec fn obeys_from_spec() -> bool {
        true
    }

    open spec fn from_spec(value: TxIdentityProductTypeUfp) -> Self {
        value.spec_code()
    }
}

/// Reading back a value that was written gives the value, as far as it is
/// one that three bits can hold.
pub proof fn lemma_txidentityproducttypeufp_round_trip(value: TxIdentityProductTypeUfp)
    requires
        value.spec_code() <= 7,
        value matches TxIdentityProductTypeUfp::Reserved(x) ==> x >= 4,
    ensures
        TxIdentityProductTypeUfp::spec_from(value.spec_code()) == value,
{
    let c = value.spec_code();
    assert(c <= 7 ==> c & 0x7 == c) by (bit_vector);
}

/// The number of valid VDOs, as the bits of the register say it.
pub open spec fn spec_number_valid_vdos(b: Seq<u8>) -> u8 {
    b[0] & 0x07
}

/// The register with the number of valid VDOs set to the low three bits of `c` and
/// every other bit as it was.
pub open spec fn spec_with_number_valid_vdos(b: Seq<u8>, c: u8) -> Seq<u8> {
    b.update(0, (b[0] & 0xF8) | (c & 0x07))
}

/// The product type DFP, as the bits of the register say it.
pub open spec fn spec_product_type_dfp(b: Seq<u8>) -> u8 {
    (b[3] >> 7) | ((b[4] & 0x03) << 1)
}

/// The register with the product type DFP set to the low three bits of `c` and
/// every other bit as it was.
pub open spec fn spec_with_product_type_dfp(b: Seq<u8>, c: u8) -> Seq<u8> {
    b.update(3, (b[3] & 0x7F) | ((c & 0x01) << 7)).update(4, (b[4] & 0xFC) | ((c >> 1) & 0x03))
}

/// The product type UFP, as the bits of the register say it.
pub open spec fn spec_product_type_ufp(b: Seq<u8>) -> u8 {
    (b[4] >> 3) & 0x07
}

/// The register with the product type UFP set to the low three bits of `c` and
/// every other bit as it was.
pub open spec fn spec_with_product_type_ufp(b: Seq<u8>, c: u8) -> Seq<u8> {
    b.update(4, (b[4] & 0xC7) | ((c & 0x07) << 3))
}

/// The modal operation supported flag.
pub open spec fn spec_modal_operation_supported(b: Seq<u8>) -> bool {
    b[4] & 0x04 != 0
}

/// The register with the modal operation supported flag set to `v` and every other bit as
/// it was.
pub open spec fn spec_with_modal_operation_supported(b: Seq<u8>, v: bool) -> Seq<u8> {
    b.update(
        4,
        if v {
            b[4] | 0x04
        } else {
            b[4] & 0xFB
        },
    )
}

/// The USB communication capable as device flag.
pub open spec fn spec_usb_communication_capable_as_device(b: Seq<u8>) -> bool {
    b[4] & 0x40 != 0
}

/// The register with the USB communication capable as device flag set to `v` and every other bit as
/// it was.
pub open spec fn spec_with_usb_communication_capable_as_device(b: Seq<u8>, v: bool) -> Seq<u8> {
    b.update(
        4,
        if v {
            b[4] | 0x40
        } else {
            b[4] & 0xBF
        },
    )
}

/// The USB communication capable as host flag.
pub open spec fn spec_usb_communication_capable_as_host(b: Seq<u8>) -> bool {
    b[4] & 0x80 != 0
}

/// The register with the USB communication capable as host flag set to `v` and every other bit as
/// it was.
pub open spec fn spec_with_usb_communication_capable_as_host(b: Seq<u8>, v: bool) -> Seq<u8> {
    b.update(
        4,
        if v {
            b[4] | 0x80
        } else {
            b[4] & 0x7F
        },
    )
}

/// The vendor ID: the 2 bytes from byte 1 on, low byte first.
pub open spec fn spec_vendor_id(b: Seq<u8>) -> u16 {
    le_u16(b.subrange(1, 3))
}

/// The register with the vendor ID set to `v` and every other byte as it
/// was.
pub open spec fn spec_with_vendor_id(b: Seq<u8>, v: u16) -> Seq<u8> {
    b.subrange(0, 1) + u16_le(v) + b.subrange(3, b.len() as int)
}

/// The certification test ID: the 4 bytes from byte 5 on, low byte first.
pub open spec fn spec_certification_test_id(b: Seq<u8>) -> u32 {
    le_u32(b.subrange(5, 9))
}

/// The register with the certification test ID set to `v` and every other byte as it
/// was.
pub open spec fn spec_with_certification_test_id(b: Seq<u8>, v: u32) -> Seq<u8> {
    b.subrange(0, 5) + u32_le(v) + b.subrange(9, b.len() as int)
}

/// The BCD device: the 2 bytes from byte 9 on, low byte first.
pub open spec fn spec_bcd_device(b: Seq<u8>) -> u16 {
    le_u16(b.subrange(9, 11))
}

/// The register with the BCD device set to `v` and every other byte as it
/// was.
pub open spec fn spec_with_bcd_device(b: Seq<u8>, v: u16) -> Seq<u8> {
    b.subrange(0, 9) + u16_le(v) + b.subrange(11, b.len() as int)
}

/// The USB product ID: the 2 bytes from byte 11 on, low byte first.
pub open spec fn spec_usb_product_id(b: Seq<u8>) -> u16 {
    le_u16(b.subrange(11, 13))
}

/// The register with the USB product ID set to `v` and every other byte as it
/// was.
pub open spec fn spec_with_usb_product_id(b: Seq<u8>, v: u16) -> Seq<u8> {
    b.subrange(0, 11) + u16_le(v) + b.subrange(13, b.len() as int)
}

/// The UFP1 VDO: the 4 bytes from byte 13 on, low byte first.
pub open spec fn spec_ufp1_vdo(b: Seq<u8>) -> u32 {
    le_u32(b.subrange(13, 17))
}

/// The register with the UFP1 VDO set to `v` and every other byte as it
/// was.
pub open spec fn spec_with_ufp1_vdo(b: Seq<u8>, v: u32) -> Seq<u8> {
    b.subrange(0, 13) + u32_le(v) + b.subrange(17, b.len() as int)
}

/// The DFP1 VDO: the 4 bytes from byte 21 on, low byte first.
pub open spec fn spec_dfp1_vdo(b: Seq<u8>) -> u32 {
    le_u32(b.subrange(21, 25))
}

/// The register with the DFP1 VDO set to `v` and every other byte as it
/// was.
pub open spec fn spec_with_dfp1_vdo(b: Seq<u8>, v: u32) -> Seq<u8> {
    b.subrange(0, 21) + u32_le(v) + b.subrange(25, b.len() as int)
}

/// High-level view of the content of the Tx Identity register.
#[derive(Debug, Clone, Copy)]
pub struct TxIdentity {
    pub bytes: [u8; LEN],
}

impl View for TxIdentity {
    type V = Seq<u8>;

    open spec fn view(&self) -> Seq<u8> {
        self.bytes@
    }
}

impl TxIdentity {
    /// Get the raw byte representation of the Tx Identity register.
    pub fn as_bytes(&self) -> (r: &[u8; LEN])
        ensures
            r@ == self@,
    {
        &self.bytes
    }

    /// Get number of valid VDOs
    pub fn number_valid_vdos(&self) -> (r: TxIdentityVdoCount)
        ensures
            r == TxIdentityVdoCount::spec_from(spec_number_valid_vdos(self@)),
    {
        let raw: u8 = self.bytes[0] & 0x07;
        TxIdentityVdoCount::from(raw)
    }

    /// Set number of valid VDOs and return `self` to chain.
    pub fn set_number_valid_vdos(&mut self, value: TxIdentityVdoCount) -> (r: &mut Self)
        ensures
            r@ == spec_with_number_valid_vdos(old(self)@, value.spec_code()),
            *final(self) == *final(r),
    {
        let code: u8 = value.into();
        let byte0: u8 = (self.bytes[0] & 0xF8) | (code & 0x07);
        self.bytes[0] = byte0;
        self
    }

    /// Get product type DFP
    pub fn product_type_dfp(&self) -> (r: TxIdentityProductTypeDfp)
        ensures
            r == TxIdentityProductTypeDfp::spec_from(spec_product_type_dfp(self@)),
    {
        let raw: u8 = (self.bytes[3] >> 7) | ((self.bytes[4] & 0x03) << 1);
        TxIdentityProductTypeDfp::from(raw)
    }

    /// Set product type DFP and return `self` to chain.
    pub fn set_product_type_dfp(&mut self, value: TxIdentityProductTypeDfp) -> (r: &mut Self)
        ensures
            r@ == spec_with_product_type_dfp(old(self)@, value.spec_code()),
            *final(self) == *final(r),
    {
        let code: u8 = value.into();
        let byte3: u8 = (self.bytes[3] & 0x7F) | ((code & 0x01) << 7);
        let byte4: u8 = (self.bytes[4] & 0xFC) | ((code >> 1) & 0x03);
        self.bytes[3] = byte3;
        self.bytes[4] = byte4;
        self
    }

    /// Get product type UFP
    pub fn product_type_ufp(&self) -> (r: TxIdentityProductTypeUfp)
        ensures
            r == TxIdentityProductTypeUfp::spec_from(spec_product_type_ufp(self@)),
    {
        let raw: u8 = (self.bytes[4] >> 3) & 0x07;
        TxIdentityProductTypeUfp::from(raw)
    }

    /// Set product type UFP and return `self` to chain.
    pub fn set_product_type_ufp(&mut self, value: TxIdentityProductTypeUfp) -> (r: &mut Self)
        ensures
            r@ == spec_with_product_type_ufp(old(self)@, value.spec_code()),
            *final(self) == *final(r),
    {
        let code: u8 = value.into();
        let byte4: u8 = (self.bytes[4] & 0xC7) | ((code & 0x07) << 3);
        self.bytes[4] = byte4;
        self
    }

    /// Get modal operation supported flag
    pub fn modal_operation_supported(&self) -> (r: bool)
        ensures
            r == spec_modal_operation_supported(self@),
    {
        self.bytes[4] & 0x04 != 0
    }

    /// Set modal operation supported flag and return `self` to chain.
    pub fn set_modal_operation_supported(&mut self, value: bool) -> (r: &mut Self)
        ensures
            r@ == spec_with_modal_operation_supported(old(self)@, value),
            *final(self) == *final(r),
    {
        let byte: u8 = if value {
            self.bytes[4] | 0x04
        } else {
            self.bytes[4] & 0xFB
        };
        self.bytes[4] = byte;
        self
    }

    /// Get USB communication capable as device flag
    pub fn usb_communication_capable_as_device(&self) -> (r: bool)
        ensures
            r == spec_usb_communication_capable_as_device(self@),
    {
        self.bytes[4] & 0x40 != 0
    }

    /// Set USB communication capable as device flag and return `self` to chain.
    pub fn set_usb_communication_capable_as_device(&mut self, value: bool) -> (r: &mut Self)
        ensures
            r@ == spec_with_usb_communication_capable_as_device(old(self)@, value),
            *final(self) == *final(r),
    {
        let byte: u8 = if value {
            self.bytes[4] | 0x40
        } else {
            self.bytes[4] & 0xBF
        };
        self.bytes[4] = byte;
        self
    }

    /// Get USB communication capable as host flag
    pub fn usb_communication_capable_as_host(&self) -> (r: bool)
        ensures
            r == spec_usb_communication_capable_as_host(self@),
    {
        self.bytes[4] & 0x80 != 0
    }

    /// Set USB communication capable as host flag and return `self` to chain.
    pub fn set_usb_communication_capable_as_host(&mut self, value: bool) -> (r: &mut Self)
        ensures
            r@ == spec_with_usb_communication_capable_as_host(old(self)@, value),
            *final(self) == *final(r),
    {
        let byte: u8 = if value {
            self.bytes[4] | 0x80
        } else {
            self.bytes[4] & 0x7F
        };
        self.bytes[4] = byte;
        self
    }

    /// Get vendor ID
    pub fn vendor_id(&self) -> (r: u16)
        ensures
            r == spec_vendor_id(self@),
    {
        read_u16_le(self.bytes.as_slice(), 1)
    }

    /// Set vendor ID and return `self` to chain.
    pub fn set_vendor_id(&mut self, value: u16) -> (r: &mut Self)
        ensures
            r@ == spec_with_vendor_id(old(self)@, value),
            *final(self) == *final(r),
    {
        write_u16_le(&mut self.bytes, 1, value);
        self
    }

    /// Get certification test ID
    pub fn certification_test_id(&self) -> (r: u32)
        ensures
            r == spec_certification_test_id(self@),
    {
        read_u32_le(self.bytes.as_slice(), 5)
    }

    /// Set certification test ID and return `self` to chain.
    pub fn set_certification_test_id(&mut self, value: u32) -> (r: &mut Self)
        ensures
            r@ == spec_with_certification_test_id(old(self)@, value),
            *final(self) == *final(r),
    {
        write_u32_le(&mut self.bytes, 5, value);
        self
    }

    /// Get BCD device
    pub fn bcd_device(&self) -> (r: u16)
        ensures
            r == spec_bcd_device(self@),
    {
        read_u16_le(self.bytes.as_slice(), 9)
    }

    /// Set BCD device and return `self` to chain.
    pub fn set_bcd_device(&mut self, value: u16) -> (r: &mut Self)
        ensures
            r@ == spec_with_bcd_device(old(self)@, value),
            *final(self) == *final(r),
    {
        write_u16_le(&mut self.bytes, 9, value);
        self
    }

    /// Get USB product ID
    pub fn usb_product_id(&self) -> (r: u16)
        ensures
            r == spec_usb_product_id(self@),
    {
        read_u16_le(self.bytes.as_slice(), 11)
    }

    /// Set USB product ID and return `self` to chain.
    pub fn set_usb_product_id(&mut self, value: u16) -> (r: &mut Self)
        ensures
            r@ == spec_with_usb_product_id(old(self)@, value),
            *final(self) == *final(r),
    {
        write_u16_le(&mut self.bytes, 11, value);
        self
    }

    /// Get UFP1 VDO
    pub fn ufp1_vdo(&self) -> (r: u32)
        ensures
            r == spec_ufp1_vdo(self@),
    {
        read_u32_le(self.bytes.as_slice(), 13)
    }

    /// Set UFP1 VDO and return `self` to chain.
    pub fn set_ufp1_vdo(&mut self, value: u32) -> (r: &mut Self)
        ensures
            r@ == spec_with_ufp1_vdo(old(self)@, value),
            *final(self) == *final(r),
    {
        write_u32_le(&mut self.bytes, 13, value);
        self
    }

    /// Get DFP1 VDO
    pub fn dfp1_vdo(&self) -> (r: u32)
        ensures
            r == spec_dfp1_vdo(self@),
    {
        read_u32_le(self.bytes.as_slice(), 21)
    }

    /// Set DFP1 VDO and return `self` to chain.
    pub fn set_dfp1_vdo(&mut self, value: u32) -> (r: &mut Self)
        ensures
            r@ == spec_with_dfp1_vdo(old(self)@, value),
            *final(self) == *final(r),
    {
        write_u32_le(&mut self.bytes, 21, value);
        self
    }

}

impl From<[u8; LEN]> for TxIdentity {
    fn from(value: [u8; LEN]) -> (r: Self) {
        TxIdentity { bytes: value }
    }
}

impl vstd::std_specs::convert::FromSpecImpl<[u8; LEN]> for TxIdentity {
    open spec fn obeys_from_spec() -> bool {
        true
    }

    open spec fn from_spec(value: [u8; LEN]) -> Self {
        TxIdentity { bytes: value }
    }
}

impl From<TxIdentity> for [u8; LEN] {
    fn from(value: TxIdentity) -> (r: Self) {
        value.bytes
    }
}

impl vstd::std_specs::convert::FromSpecImpl<TxIdentity> for [u8; LEN] {
    open spec fn obeys_from_spec() -> bool {
        true
    }

    open spec fn from_spec(value: TxIdentity) -> Self {
        value.bytes
    }
}

impl Default for TxIdentity {
    fn default() -> (r: Self)
        ensures
            r@ == Seq::new(LEN as nat, |i: int| 0u8),
    {
        let r = TxIdentity { bytes: [0u8; LEN] };
        assert(r@ =~= Seq::new(LEN as nat, |i: int| 0u8));
        r
    }
}

/// Setting the number of valid VDOs changes what it is read as to the low three bits
/// of what was set, and changes no other field.
pub proof fn lemma_set_number_valid_vdos(b: Seq<u8>, v: u8)
    requires
        b.len() == LEN,
    ensures
        spec_with_number_valid_vdos(b, v).len() == LEN,
        spec_number_valid_vdos(spec_with_number_valid_vdos(b, v)) == v & 0x07,
        spec_product_type_dfp(spec_with_number_valid_vdos(b, v)) == spec_product_type_dfp(b),
        spec_product_type_ufp(spec_with_number_valid_vdos(b, v)) == spec_product_type_ufp(b),
        spec_modal_operation_supported(spec_with_number_valid_vdos(b, v)) == spec_modal_operation_supported(b),
        spec_usb_communication_capable_as_device(spec_with_number_valid_vdos(b, v)) == spec_usb_communication_capable_as_device(b),
        spec_usb_communication_capable_as_host(spec_with_number_valid_vdos(b, v)) == spec_usb_communication_capable_as_host(b),
        spec_vendor_id(spec_with_number_valid_vdos(b, v)) == spec_vendor_id(b),
        spec_certification_test_id(spec_with_number_valid_vdos(b, v)) == spec_certification_test_id(b),
        spec_bcd_device(spec_with_number_valid_vdos(b, v)) == spec_bcd_device(b),
        spec_usb_product_id(spec_with_number_valid_vdos(b, v)) == spec_usb_product_id(b),
        spec_ufp1_vdo(spec_with_number_valid_vdos(b, v)) == spec_ufp1_vdo(b),
        spec_dfp1_vdo(spec_with_number_valid_vdos(b, v)) == spec_dfp1_vdo(b),
{
    let nb = spec_with_number_valid_vdos(b, v);
    let b0 = b[0];
    assert(((b0 & 0xF8) | (v & 0x07)) & 0x07 == v & 0x07) by (bit_vector);
    assert(nb.subrange(1, 3) =~= b.subrange(1, 3));
    assert(nb.subrange(5, 9) =~= b.subrange(5, 9));
    assert(nb.subrange(9, 11) =~= b.subrange(9, 11));
    assert(nb.subrange(11, 13) =~= b.subrange(11, 13));
    assert(nb.subrange(13, 17) =~= b.subrange(13, 17));
    assert(nb.subrange(21, 25) =~= b.subrange(21, 25));
}

/// Setting the product type DFP changes what it is read as to the low three bits
/// of what was set, and changes no other field.
pub proof fn lemma_set_product_type_dfp(b: Seq<u8>, v: u8)
    requires
        b.len() == LEN,
    ensures
        spec_with_product_type_dfp(b, v).len() == LEN,
        spec_product_type_dfp(spec_with_product_type_dfp(b, v)) == v & 0x07,
        spec_number_valid_vdos(spec_with_product_type_dfp(b, v)) == spec_number_valid_vdos(b),
        spec_product_type_ufp(spec_with_product_type_dfp(b, v)) == spec_product_type_ufp(b),
        spec_modal_operation_supported(spec_with_product_type_dfp(b, v)) == spec_modal_operation_supported(b),
        spec_usb_communication_capable_as_device(spec_with_product_type_dfp(b, v)) == spec_usb_communication_capable_as_device(b),
        spec_usb_communication_capable_as_host(spec_with_product_type_dfp(b, v)) == spec_usb_communication_capable_as_host(b),
        spec_vendor_id(spec_with_product_type_dfp(b, v)) == spec_vendor_id(b),
        spec_certification_test_id(spec_with_product_type_dfp(b, v)) == spec_certification_test_id(b),
        spec_bcd_device(spec_with_product_type_dfp(b, v)) == spec_bcd_device(b),
        spec_usb_product_id(spec_with_product_type_dfp(b, v)) == spec_usb_product_id(b),
        spec_ufp1_vdo(spec_with_product_type_dfp(b, v)) == spec_ufp1_vdo(b),
        spec_dfp1_vdo(spec_with_product_type_dfp(b, v)) == spec_dfp1_vdo(b),
{
    let nb = spec_with_product_type_dfp(b, v);
    let b3 = b[3];
    let b4 = b[4];
    let n3 = (b3 & 0x7F) | ((v & 0x01) << 7);
    let n4 = (b4 & 0xFC) | ((v >> 1) & 0x03);
    assert((n3 >> 7) | ((n4 & 0x03) << 1) == v & 0x07) by (bit_vector)
        requires
            n3 == (b3 & 0x7F) | ((v & 0x01) << 7),
            n4 == (b4 & 0xFC) | ((v >> 1) & 0x03),
    ;
    assert(n4 & 0x04 == b4 & 0x04 && (n4 >> 3) & 0x07 == (b4 >> 3) & 0x07 && n4 & 0x40 == b4 & 0x40
        && n4 & 0x80 == b4 & 0x80) by (bit_vector)
        requires
            n4 == (b4 & 0xFC) | ((v >> 1) & 0x03),
    ;
    assert(nb.subrange(1, 3) =~= b.subrange(1, 3));
    assert(nb.subrange(5, 9) =~= b.subrange(5, 9));
    assert(nb.subrange(9, 11) =~= b.subrange(9, 11));
    assert(nb.subrange(11, 13) =~= b.subrange(11, 13));
    assert(nb.subrange(13, 17) =~= b.subrange(13, 17));
    assert(nb.subrange(21, 25) =~= b.subrange(21, 25));
}

/// Setting the product type UFP changes what it is read as to the low three bits
/// of what was set, and changes no other field.
pub proof fn lemma_set_product_type_ufp(b: Seq<u8>, v: u8)
    requires
        b.len() == LEN,
    ensures
        spec_with_product_type_ufp(b, v).len() == LEN,
        spec_product_type_ufp(spec_with_product_type_ufp(b, v)) == v & 0x07,
        spec_number_valid_vdos(spec_with_product_type_ufp(b, v)) == spec_number_valid_vdos(b),
        spec_product_type_dfp(spec_with_product_type_ufp(b, v)) == spec_product_type_dfp(b),
        spec_modal_operation_supported(spec_with_product_type_ufp(b, v)) == spec_modal_operation_supported(b),
        spec_usb_communication_capable_as_device(spec_with_product_type_ufp(b, v)) == spec_usb_communication_capable_as_device(b),
        spec_usb_communication_capable_as_host(spec_with_product_type_ufp(b, v)) == spec_usb_communication_capable_as_host(b),
        spec_vendor_id(spec_with_product_type_ufp(b, v)) == spec_vendor_id(b),
        spec_certification_test_id(spec_with_product_type_ufp(b, v)) == spec_certification_test_id(b),
        spec_bcd_device(spec_with_product_type_ufp(b, v)) == spec_bcd_device(b),
        spec_usb_product_id(spec_with_product_type_ufp(b, v)) == spec_usb_product_id(b),
        spec_ufp1_vdo(spec_with_product_type_ufp(b, v)) == spec_ufp1_vdo(b),
        spec_dfp1_vdo(spec_with_product_type_ufp(b, v)) == spec_dfp1_vdo(b),
{
    let nb = spec_with_product_type_ufp(b, v);
    let b3 = b[3];
    let b4 = b[4];
    let n4 = (b4 & 0xC7) | ((v & 0x07) << 3);
    assert((n4 >> 3) & 0x07 == v & 0x07) by (bit_vector)
        requires
            n4 == (b4 & 0xC7) | ((v & 0x07) << 3),
    ;
    assert(n4 & 0x04 == b4 & 0x04 && n4 & 0x03 == b4 & 0x03 && n4 & 0x40 == b4 & 0x40 && n4 & 0x80
        == b4 & 0x80) by (bit_vector)
        requires
            n4 == (b4 & 0xC7) | ((v & 0x07) << 3),
    ;
    assert(nb.subrange(1, 3) =~= b.subrange(1, 3));
    assert(nb.subrange(5, 9) =~= b.subrange(5, 9));
    assert(nb.subrange(9, 11) =~= b.subrange(9, 11));
    assert(nb.subrange(11, 13) =~= b.subrange(11, 13));
    assert(nb.subrange(13, 17) =~= b.subrange(13, 17));
    assert(nb.subrange(21, 25) =~= b.subrange(21, 25));
}

/// Setting the modal operation supported flag changes what it is read as to what was set,
/// and changes no other field.
pub proof fn lemma_set_modal_operation_supported(b: Seq<u8>, v: bool)
    requires
        b.len() == LEN,
    ensures
        spec_with_modal_operation_supported(b, v).len() == LEN,
        spec_modal_operation_supported(spec_with_modal_operation_supported(b, v)) == v,
        spec_number_valid_vdos(spec_with_modal_operation_supported(b, v)) == spec_number_valid_vdos(b),
        spec_product_type_dfp(spec_with_modal_operation_supported(b, v)) == spec_product_type_dfp(b),
        spec_product_type_ufp(spec_with_modal_operation_supported(b, v)) == spec_product_type_ufp(b),
        spec_usb_communication_capable_as_device(spec_with_modal_operation_supported(b, v)) == spec_usb_communication_capable_as_device(b),
        spec_usb_communication_capable_as_host(spec_with_modal_operation_supported(b, v)) == spec_usb_communication_capable_as_host(b),
        spec_vendor_id(spec_with_modal_operation_supported(b, v)) == spec_vendor_id(b),
        spec_certification_test_id(spec_with_modal_operation_supported(b, v)) == spec_certification_test_id(b),
        spec_bcd_device(spec_with_modal_operation_supported(b, v)) == spec_bcd_device(b),
        spec_usb_product_id(spec_with_modal_operation_supported(b, v)) == spec_usb_product_id(b),
        spec_ufp1_vdo(spec_with_modal_operation_supported(b, v)) == spec_ufp1_vdo(b),
        spec_dfp1_vdo(spec_with_modal_operation_supported(b, v)) == spec_dfp1_vdo(b),
{
    let nb = spec_with_modal_operation_supported(b, v);
    let b4 = b[4];
    let set = b4 | 0x04;
    let clear = b4 & 0xFB;
    assert(set & 0x04 != 0 && set & 0x40 == b4 & 0x40 && set & 0x80 == b4 & 0x80
        && set & 0x03 == b4 & 0x03 && (set >> 3) & 0x07 == (b4 >> 3) & 0x07) by (bit_vector)
        requires
            set == b4 | 0x04,
    ;
    assert(clear & 0x04 == 0 && clear & 0x40 == b4 & 0x40 && clear & 0x80 == b4
        & 0x80 && clear & 0x03 == b4 & 0x03 && (clear >> 3) & 0x07 == (b4 >> 3) & 0x07)
        by (bit_vector)
        requires
            clear == b4 & 0xFB,
    ;
    assert(nb.subrange(1, 3) =~= b.subrange(1, 3));
    assert(nb.subrange(5, 9) =~= b.subrange(5, 9));
    assert(nb.subrange(9, 11) =~= b.subrange(9, 11));
    assert(nb.subrange(11, 13) =~= b.subrange(11, 13));
    assert(nb.subrange(13, 17) =~= b.subrange(13, 17));
    assert(nb.subrange(21, 25) =~= b.subrange(21, 25));
}

/// Setting the USB communication capable as device flag changes what it is read as to what was set,
/// and changes no other field.
pub proof fn lemma_set_usb_communication_capable_as_device(b: Seq<u8>, v: bool)
    requires
        b.len() == LEN,
    ensures
        spec_with_usb_communication_capable_as_device(b, v).len() == LEN,
        spec_usb_communication_capable_as_device(spec_with_usb_communication_capable_as_device(b, v)) == v,
        spec_number_valid_vdos(spec_with_usb_communication_capable_as_device(b, v)) == spec_number_valid_vdos(b),
        spec_product_type_dfp(spec_with_usb_communication_capable_as_device(b, v)) == spec_product_type_dfp(b),
        spec_product_type_ufp(spec_with_usb_communication_capable_as_device(b, v)) == spec_product_type_ufp(b),
        spec_modal_operation_supported(spec_with_usb_communication_capable_as_device(b, v)) == spec_modal_operation_supported(b),
        spec_usb_communication_capable_as_host(spec_with_usb_communication_capable_as_device(b, v)) == spec_usb_communication_capable_as_host(b),
        spec_vendor_id(spec_with_usb_communication_capable_as_device(b, v)) == spec_vendor_id(b),
        spec_certification_test_id(spec_with_usb_communication_capable_as_device(b, v)) == spec_certification_test_id(b),
        spec_bcd_device(spec_with_usb_communication_capable_as_device(b, v)) == spec_bcd_device(b),
        spec_usb_product_id(spec_with_usb_communication_capable_as_device(b, v)) == spec_usb_product_id(b),
        spec_ufp1_vdo(spec_with_usb_communication_capable_as_device(b, v)) == spec_ufp1_vdo(b),
        spec_dfp1_vdo(spec_with_usb_communication_capable_as_device(b, v)) == spec_dfp1_vdo(b),
{
    let nb = spec_with_usb_communication_capable_as_device(b, v);
    let b4 = b[4];
    let set = b4 | 0x40;
    let clear = b4 & 0xBF;
    assert(set & 0x40 != 0 && set & 0x04 == b4 & 0x04 && set & 0x80 == b4 & 0x80
        && set & 0x03 == b4 & 0x03 && (set >> 3) & 0x07 == (b4 >> 3) & 0x07) by (bit_vector)
        requires
            set == b4 | 0x40,
    ;
    assert(clear & 0x40 == 0 && clear & 0x04 == b4 & 0x04 && clear & 0x80 == b4
        & 0x80 && clear & 0x03 == b4 & 0x03 && (clear >> 3) & 0x07 == (b4 >> 3) & 0x07)
        by (bit_vector)
        requires
            clear == b4 & 0xBF,
    ;
    assert(nb.subrange(1, 3) =~= b.subrange(1, 3));
    assert(nb.subrange(5, 9) =~= b.subrange(5, 9));
    assert(nb.subrange(9, 11) =~= b.subrange(9, 11));
    assert(nb.subrange(11, 13) =~= b.subrange(11, 13));
    assert(nb.subrange(13, 17) =~= b.subrange(13, 17));
    assert(nb.subrange(21, 25) =~= b.subrange(21, 25));
}

/// Setting the USB communication capable as host flag changes what it is read as to what was set,
/// and changes no other field.
pub proof fn lemma_set_usb_communication_capable_as_host(b: Seq<u8>, v: bool)
    requires
        b.len() == LEN,
    ensures
        spec_with_usb_communication_capable_as_host(b, v).len() == LEN,
        spec_usb_communication_capable_as_host(spec_with_usb_communication_capable_as_host(b, v)) == v,
        spec_number_valid_vdos(spec_with_usb_communication_capable_as_host(b, v)) == spec_number_valid_vdos(b),
        spec_product_type_dfp(spec_with_usb_communication_capable_as_host(b, v)) == spec_product_type_dfp(b),
        spec_product_type_ufp(spec_with_usb_communication_capable_as_host(b, v)) == spec_product_type_ufp(b),
        spec_modal_operation_supported(spec_with_usb_communication_capable_as_host(b, v)) == spec_modal_operation_supported(b),
        spec_usb_communication_capable_as_device(spec_with_usb_communication_capable_as_host(b, v)) == spec_usb_communication_capable_as_device(b),
        spec_vendor_id(spec_with_usb_communication_capable_as_host(b, v)) == spec_vendor_id(b),
        spec_certification_test_id(spec_with_usb_communication_capable_as_host(b, v)) == spec_certification_test_id(b),
        spec_bcd_device(spec_with_usb_communication_capable_as_host(b, v)) == spec_bcd_device(b),
        spec_usb_product_id(spec_with_usb_communication_capable_as_host(b, v)) == spec_usb_product_id(b),
        spec_ufp1_vdo(spec_with_usb_communication_capable_as_host(b, v)) == spec_ufp1_vdo(b),
        spec_dfp1_vdo(spec_with_usb_communication_capable_as_host(b, v)) == spec_dfp1_vdo(b),
{
    let nb = spec_with_usb_communication_capable_as_host(b, v);
    let b4 = b[4];
    let set = b4 | 0x80;
    let clear = b4 & 0x7F;
    assert(set & 0x80 != 0 && set & 0x04 == b4 & 0x04 && set & 0x40 == b4 & 0x40
        && set & 0x03 == b4 & 0x03 && (set >> 3) & 0x07 == (b4 >> 3) & 0x07) by (bit_vector)
        requires
            set == b4 | 0x80,
    ;
    assert(clear & 0x80 == 0 && clear & 0x04 == b4 & 0x04 && clear & 0x40 == b4
        & 0x40 && clear & 0x03 == b4 & 0x03 && (clear >> 3) & 0x07 == (b4 >> 3) & 0x07)
        by (bit_vector)
        requires
            clear == b4 & 0x7F,
    ;
    assert(nb.subrange(1, 3) =~= b.subrange(1, 3));
    assert(nb.subrange(5, 9) =~= b.subrange(5, 9));
    assert(nb.subrange(9, 11) =~= b.subrange(9, 11));
    assert(nb.subrange(11, 13) =~= b.subrange(11, 13));
    assert(nb.subrange(13, 17) =~= b.subrange(13, 17));
    assert(nb.subrange(21, 25) =~= b.subrange(21, 25));
}

/// Setting the vendor ID changes what it is read as to what was set, and
/// changes no other field.
pub proof fn lemma_set_vendor_id(b: Seq<u8>, v: u16)
    requires
        b.len() == LEN,
    ensures
        spec_with_vendor_id(b, v).len() == LEN,
        spec_vendor_id(spec_with_vendor_id(b, v)) == v,
        spec_number_valid_vdos(spec_with_vendor_id(b, v)) == spec_number_valid_vdos(b),
        spec_product_type_dfp(spec_with_vendor_id(b, v)) == spec_product_type_dfp(b),
        spec_product_type_ufp(spec_with_vendor_id(b, v)) == spec_product_type_ufp(b),
        spec_modal_operation_supported(spec_with_vendor_id(b, v)) == spec_modal_operation_supported(b),
        spec_usb_communication_capable_as_device(spec_with_vendor_id(b, v)) == spec_usb_communication_capable_as_device(b),
        spec_usb_communication_capable_as_host(spec_with_vendor_id(b, v)) == spec_usb_communication_capable_as_host(b),
        spec_certification_test_id(spec_with_vendor_id(b, v)) == spec_certification_test_id(b),
        spec_bcd_device(spec_with_vendor_id(b, v)) == spec_bcd_device(b),
        spec_usb_product_id(spec_with_vendor_id(b, v)) == spec_usb_product_id(b),
        spec_ufp1_vdo(spec_with_vendor_id(b, v)) == spec_ufp1_vdo(b),
        spec_dfp1_vdo(spec_with_vendor_id(b, v)) == spec_dfp1_vdo(b),
{
    let nb = spec_with_vendor_id(b, v);
    assert(nb.subrange(1, 3) =~= u16_le(v) + Seq::<u8>::empty());
    lemma_le_u16_round_trip(v, Seq::empty());
    assert(nb.subrange(5, 9) =~= b.subrange(5, 9));
    assert(nb.subrange(9, 11) =~= b.subrange(9, 11));
    assert(nb.subrange(11, 13) =~= b.subrange(11, 13));
    assert(nb.subrange(13, 17) =~= b.subrange(13, 17));
    assert(nb.subrange(21, 25) =~= b.subrange(21, 25));
}

/// Setting the certification test ID changes what it is read as to what was set, and
/// changes no other field.
pub proof fn lemma_set_certification_test_id(b: Seq<u8>, v: u32)
    requires
        b.len() == LEN,
    ensures
        spec_with_certification_test_id(b, v).len() == LEN,
        spec_certification_test_id(spec_with_certification_test_id(b, v)) == v,
        spec_number_valid_vdos(spec_with_certification_test_id(b, v)) == spec_number_valid_vdos(b),
        spec_product_type_dfp(spec_with_certification_test_id(b, v)) == spec_product_type_dfp(b),
        spec_product_type_ufp(spec_with_certification_test_id(b, v)) == spec_product_type_ufp(b),
        spec_modal_operation_supported(spec_with_certification_test_id(b, v)) == spec_modal_operation_supported(b),
        spec_usb_communication_capable_as_device(spec_with_certification_test_id(b, v)) == spec_usb_communication_capable_as_device(b),
        spec_usb_communication_capable_as_host(spec_with_certification_test_id(b, v)) == spec_usb_communication_capable_as_host(b),
        spec_vendor_id(spec_with_certification_test_id(b, v)) == spec_vendor_id(b),
        spec_bcd_device(spec_with_certification_test_id(b, v)) == spec_bcd_device(b),
        spec_usb_product_id(spec_with_certification_test_id(b, v)) == spec_usb_product_id(b),
        spec_ufp1_vdo(spec_with_certification_test_id(b, v)) == spec_ufp1_vdo(b),
        spec_dfp1_vdo(spec_with_certification_test_id(b, v)) == spec_dfp1_vdo(b),
{
    let nb = spec_with_certification_test_id(b, v);
    assert(nb.subrange(5, 9) =~= u32_le(v) + Seq::<u8>::empty());
    lemma_le_u32_round_trip(v, Seq::empty());
    assert(nb.subrange(1, 3) =~= b.subrange(1, 3));
    assert(nb.subrange(9, 11) =~= b.subrange(9, 11));
    assert(nb.subrange(11, 13) =~= b.subrange(11, 13));
    assert(nb.subrange(13, 17) =~= b.subrange(13, 17));
    assert(nb.subrange(21, 25) =~= b.subrange(21, 25));
}

/// Setting the BCD device changes what it is read as to what was set, and
/// changes no other field.
pub proof fn lemma_set_bcd_device(b: Seq<u8>, v: u16)
    requires
        b.len() == LEN,
    ensures
        spec_with_bcd_device(b, v).len() == LEN,
        spec_bcd_device(spec_with_bcd_device(b, v)) == v,
        spec_number_valid_vdos(spec_with_bcd_device(b, v)) == spec_number_valid_vdos(b),
        spec_product_type_dfp(spec_with_bcd_device(b, v)) == spec_product_type_dfp(b),
        spec_product_type_ufp(spec_with_bcd_device(b, v)) == spec_product_type_ufp(b),
        spec_modal_operation_supported(spec_with_bcd_device(b, v)) == spec_modal_operation_supported(b),
        spec_usb_communication_capable_as_device(spec_with_bcd_device(b, v)) == spec_usb_communication_capable_as_device(b),
        spec_usb_communication_capable_as_host(spec_with_bcd_device(b, v)) == spec_usb_communication_capable_as_host(b),
        spec_vendor_id(spec_with_bcd_device(b, v)) == spec_vendor_id(b),
        spec_certification_test_id(spec_with_bcd_device(b, v)) == spec_certification_test_id(b),
        spec_usb_product_id(spec_with_bcd_device(b, v)) == spec_usb_product_id(b),
        spec_ufp1_vdo(spec_with_bcd_device(b, v)) == spec_ufp1_vdo(b),
        spec_dfp1_vdo(spec_with_bcd_device(b, v)) == spec_dfp1_vdo(b),
{
    let nb = spec_with_bcd_device(b, v);
    assert(nb.subrange(9, 11) =~= u16_le(v) + Seq::<u8>::empty());
    lemma_le_u16_round_trip(v, Seq::empty());
    assert(nb.subrange(1, 3) =~= b.subrange(1, 3));
    assert(nb.subrange(5, 9) =~= b.subrange(5, 9));
    assert(nb.subrange(11, 13) =~= b.subrange(11, 13));
    assert(nb.subrange(13, 17) =~= b.subrange(13, 17));
    assert(nb.subrange(21, 25) =~= b.subrange(21, 25));
}

/// Setting the USB product ID changes what it is read as to what was set, and
/// changes no other field.
pub proof fn lemma_set_usb_product_id(b: Seq<u8>, v: u16)
    requires
        b.len() == LEN,
    ensures
        spec_with_usb_product_id(b, v).len() == LEN,
        spec_usb_product_id(spec_with_usb_product_id(b, v)) == v,
        spec_number_valid_vdos(spec_with_usb_product_id(b, v)) == spec_number_valid_vdos(b),
        spec_product_type_dfp(spec_with_usb_product_id(b, v)) == spec_product_type_dfp(b),
        spec_product_type_ufp(spec_with_usb_product_id(b, v)) == spec_product_type_ufp(b),
        spec_modal_operation_supported(spec_with_usb_product_id(b, v)) == spec_modal_operation_supported(b),
        spec_usb_communication_capable_as_device(spec_with_usb_product_id(b, v)) == spec_usb_communication_capable_as_device(b),
        spec_usb_communication_capable_as_host(spec_with_usb_product_id(b, v)) == spec_usb_communication_capable_as_host(b),
        spec_vendor_id(spec_with_usb_product_id(b, v)) == spec_vendor_id(b),
        spec_certification_test_id(spec_with_usb_product_id(b, v)) == spec_certification_test_id(b),
        spec_bcd_device(spec_with_usb_product_id(b, v)) == spec_bcd_device(b),
        spec_ufp1_vdo(spec_with_usb_product_id(b, v)) == spec_ufp1_vdo(b),
        spec_dfp1_vdo(spec_with_usb_product_id(b, v)) == spec_dfp1_vdo(b),
{
    let nb = spec_with_usb_product_id(b, v);
    assert(nb.subrange(11, 13) =~= u16_le(v) + Seq::<u8>::empty());
    lemma_le_u16_round_trip(v, Seq::empty());
    assert(nb.subrange(1, 3) =~= b.subrange(1, 3));
    assert(nb.subrange(5, 9) =~= b.subrange(5, 9));
    assert(nb.subrange(9, 11) =~= b.subrange(9, 11));
    assert(nb.subrange(13, 17) =~= b.subrange(13, 17));
    assert(nb.subrange(21, 25) =~= b.subrange(21, 25));
}

/// Setting the UFP1 VDO changes what it is read as to what was set, and
/// changes no other field.
pub proof fn lemma_set_ufp1_vdo(b: Seq<u8>, v: u32)
    requires
        b.len() == LEN,
    ensures
        spec_with_ufp1_vdo(b, v).len() == LEN,
        spec_ufp1_vdo(spec_with_ufp1_vdo(b, v)) == v,
        spec_number_valid_vdos(spec_with_ufp1_vdo(b, v)) == spec_number_valid_vdos(b),
        spec_product_type_dfp(spec_with_ufp1_vdo(b, v)) == spec_product_type_dfp(b),
        spec_product_type_ufp(spec_with_ufp1_vdo(b, v)) == spec_product_type_ufp(b),
        spec_modal_operation_supported(spec_with_ufp1_vdo(b, v)) == spec_modal_operation_supported(b),
        spec_usb_communication_capable_as_device(spec_with_ufp1_vdo(b, v)) == spec_usb_communication_capable_as_device(b),
        spec_usb_communication_capable_as_host(spec_with_ufp1_vdo(b, v)) == spec_usb_communication_capable_as_host(b),
        spec_vendor_id(spec_with_ufp1_vdo(b, v)) == spec_vendor_id(b),
        spec_certification_test_id(spec_with_ufp1_vdo(b, v)) == spec_certification_test_id(b),
        spec_bcd_device(spec_with_ufp1_vdo(b, v)) == spec_bcd_device(b),
        spec_usb_product_id(spec_with_ufp1_vdo(b, v)) == spec_usb_product_id(b),
        spec_dfp1_vdo(spec_with_ufp1_vdo(b, v)) == spec_dfp1_vdo(b),
{
    let nb = spec_with_ufp1_vdo(b, v);
    assert(nb.subrange(13, 17) =~= u32_le(v) + Seq::<u8>::empty());
    lemma_le_u32_round_trip(v, Seq::empty());
    assert(nb.subrange(1, 3) =~= b.subrange(1, 3));
    assert(nb.subrange(5, 9) =~= b.subrange(5, 9));
    assert(nb.subrange(9, 11) =~= b.subrange(9, 11));
    assert(nb.subrange(11, 13) =~= b.subrange(11, 13));
    assert(nb.subrange(21, 25) =~= b.subrange(21, 25));
}

/// Setting the DFP1 VDO changes what it is read as to what was set, and
/// changes no other field.
pub proof fn lemma_set_dfp1_vdo(b: Seq<u8>, v: u32)
    requires
        b.len() == LEN,
    ensures
        spec_with_dfp1_vdo(b, v).len() == LEN,
        spec_dfp1_vdo(spec_with_dfp1_vdo(b, v)) == v,
        spec_number_valid_vdos(spec_with_dfp1_vdo(b, v)) == spec_number_valid_vdos(b),
        spec_product_type_dfp(spec_with_dfp1_vdo(b, v)) == spec_product_type_dfp(b),
        spec_product_type_ufp(spec_with_dfp1_vdo(b, v)) == spec_product_type_ufp(b),
        spec_modal_operation_supported(spec_with_dfp1_vdo(b, v)) == spec_modal_operation_supported(b),
        spec_usb_communication_capable_as_device(spec_with_dfp1_vdo(b, v)) == spec_usb_communication_capable_as_device(b),
        spec_usb_communication_capable_as_host(spec_with_dfp1_vdo(b, v)) == spec_usb_communication_capable_as_host(b),
        spec_vendor_id(spec_with_dfp1_vdo(b, v)) == spec_vendor_id(b),
        spec_certification_test_id(spec_with_dfp1_vdo(b, v)) == spec_certification_test_id(b),
        spec_bcd_device(spec_with_dfp1_vdo(b, v)) == spec_bcd_device(b),
        spec_usb_product_id(spec_with_dfp1_vdo(b, v)) == spec_usb_product_id(b),
        spec_ufp1_vdo(spec_with_dfp1_vdo(b, v)) == spec_ufp1_vdo(b),
{
    let nb = spec_with_dfp1_vdo(b, v);
    assert(nb.subrange(21, 25) =~= u32_le(v) + Seq::<u8>::empty());
    lemma_le_u32_round_trip(v, Seq::empty());
    assert(nb.subrange(1, 3) =~= b.subrange(1, 3));
    assert(nb.subrange(5, 9) =~= b.subrange(5, 9));
    assert(nb.subrange(9, 11) =~= b.subrange(9, 11));
    assert(nb.subrange(11, 13) =~= b.subrange(11, 13));
    assert(nb.subrange(13, 17) =~= b.subrange(13, 17));
}

} // verus!
