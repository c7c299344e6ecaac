//! Consumer and provider flags, which carry additional information about a
//! consumer or provider request.

use crate::bits::{bit_at, field_at, get_bit, get_field, set_bit, set_field, with_bit, with_field};
use vstd::prelude::*;

verus! {

/// PSU type
#[derive(Copy, Clone, Debug, PartialEq, Eq, Structural)]
#[non_exhaustive]
pub enum PsuType {
    /// Unknown/Unspecified
    Unknown,
    /// Type-C port
    TypeC,
    /// DC barrel jack
    DcJack,
    /// Application defined type
    Custom0,
    /// Application defined type
    Custom1,
    /// Application defined type
    Custom2,
    /// Application defined type
    Custom3,
}

/// The PSU type that a four-bit code stands for; codes without a meaning read as `Unknown`.
pub open spec fn psu_type_of(code: u8) -> PsuType {
    if code == 1 {
        PsuType::TypeC
    } else if code == 2 {
        PsuType::DcJack
    } else if code == 12 {
        PsuType::Custom0
    } else if code == 13 {
        PsuType::Custom1
    } else if code == 14 {
        PsuType::Custom2
    } else if code == 15 {
        PsuType::Custom3
    } else {
        PsuType::Unknown
    }
}

/// The four-bit code of a PSU type.
pub open spec fn psu_code_of(psu: PsuType) -> u8 {
    match psu {
        PsuType::Unknown => 0,
        PsuType::TypeC => 1,
        PsuType::DcJack => 2,
        PsuType::Custom0 => 12,
        PsuType::Custom1 => 13,
        PsuType::Custom2 => 14,
        PsuType::Custom3 => 15,
    }
}

impl From<u8> for PsuType {
    fn from(value: u8) -> (psu: Self) {
        match value {
            1 => Self::TypeC,
            2 => Self::DcJack,
            12 => Self::Custom0,
            13 => Self::Custom1,
            14 => Self::Custom2,
            15 => Self::Custom3,
            _ => Self::Unknown,
        }
    }
}

impl vstd::std_specs::convert::FromSpecImpl<u8> for PsuType {
    open spec fn obeys_from_spec() -> bool {
        true
    }

    open spec fn from_spec(value: u8) -> Self {
        psu_type_of(value)
    }
}

impl From<PsuType> for u8 {
    fn from(value: PsuType) -> (code: Self) {
        match value {
            PsuType::Unknown => 0,
            PsuType::TypeC => 1,
            PsuType::DcJack => 2,
            PsuType::Custom0 => 12,
            PsuType::Custom1 => 13,
            PsuType::Custom2 => 14,
            PsuType::Custom3 => 15,
        }
    }
}

impl vstd::std_specs::convert::FromSpecImpl<PsuType> for u8 {
    open spec fn obeys_from_spec() -> bool {
        true
    }

    open spec fn from_spec(value: PsuType) -> Self {
        psu_code_of(value)
    }
}

/// Decoding the code of a PSU type gives the type back.
pub proof fn lemma_psu_code_round_trip(psu: PsuType)
    ensures
        psu_type_of(psu_code_of(psu)) == psu,
        psu_code_of(psu) < 16,
{
}

/// Bit of the unconstrained-power flag.
pub const UNCONSTRAINED_POWER_BIT: usize = 0;

/// Lowest bit of the PSU type field.
pub const PSU_TYPE_LSB: usize = 8;

/// Highest bit of the PSU type field.
pub const PSU_TYPE_MSB: usize = 11;

/// Writing the PSU field stores the code and leaves the unconstrained flag alone;
/// writing the unconstrained flag leaves the PSU field alone.
pub proof fn lemma_flag_fields_independent(raw: u32, code: u8, value: bool)
    requires
        code < 16,
    ensures
        field_at(with_field(raw, 8, 4, code as u32), 8, 4) == code,
        bit_at(with_field(raw, 8, 4, code as u32), 0) == bit_at(raw, 0),
        field_at(with_bit(raw, 0, value), 8, 4) == field_at(raw, 8, 4),
        bit_at(with_bit(raw, 0, value), 0) == value,
        field_at(raw, 8, 4) < 16,
{
    let c = code as u32;
    assert((((raw & !(0xfu32 << 8u32)) | ((c << 8u32) & (0xfu32 << 8u32))) >> 8u32) & 0xfu32 == c)
        by (bit_vector)
        requires
            c < 16,
    ;
    assert((((raw & !(0xfu32 << 8u32)) | ((c << 8u32) & (0xfu32 << 8u32))) >> 0u32) & 1u32 == (raw
        >> 0u32) & 1u32) by (bit_vector);
    assert(((raw | (1u32 << 0u32)) >> 8u32) & 0xfu32 == (raw >> 8u32) & 0xfu32) by (bit_vector);
    assert(((raw & !(1u32 << 0u32)) >> 8u32) & 0xfu32 == (raw >> 8u32) & 0xfu32) by (bit_vector);
    assert(((raw | (1u32 << 0u32)) >> 0u32) & 1u32 == 1u32) by (bit_vector);
    assert(((raw & !(1u32 << 0u32)) >> 0u32) & 1u32 == 0u32) by (bit_vector);
    assert((raw >> 8u32) & 0xfu32 < 16) by (bit_vector);
    assert((1u32 << 4u32) - 1 == 0xf) by (bit_vector);
}

/// Raw consumer flags bit field
#[derive(Copy, Clone, Debug, PartialEq, Eq, Structural)]
pub struct ConsumerRaw(pub u32);

/// Type safe wrapper for consumer flags
#[derive(Copy, Clone, Debug, PartialEq, Eq, Structural)]
pub struct Consumer(pub ConsumerRaw);

impl Consumer {
    /// The unconstrained-power flag: power is drawn from something like an
    /// outlet and not from a limited source like a battery.
    pub open spec fn spec_unconstrained_power(&self) -> bool {
        bit_at(self.0.0, 0)
    }

    /// The PSU type that the flags name.
    pub open spec fn spec_psu_type(&self) -> PsuType {
        psu_type_of(field_at(self.0.0, 8, 4) as u8)
    }

    /// Create a new consumer with no flags set
    pub fn none() -> (flags: Self)
        ensures
            flags.0.0 == 0,
            !flags.spec_unconstrained_power(),
            flags.spec_psu_type() == PsuType::Unknown,
    {
        proof {
            assert((0u32 >> 0u32) & 1u32 == 0u32) by (bit_vector);
            assert((0u32 >> 8u32) & ((1u32 << 4u32) - 1) as u32 == 0u32) by (bit_vector);
        }
        Self(ConsumerRaw(0))
    }

    /// Builder method to set the unconstrained power flag
    pub fn with_unconstrained_power(self) -> (flags: Self)
        ensures
            flags.0.0 == with_bit(self.0.0, 0, true),
            flags.spec_unconstrained_power(),
            flags.spec_psu_type() == self.spec_psu_type(),
    {
        let mut flags = self;
        flags.set_unconstrained_power(true);
        flags
    }

    /// Check if the unconstrained power flag is set
    pub fn unconstrained_power(&self) -> (set: bool)
        ensures
            set == self.spec_unconstrained_power(),
    {
        get_bit(self.0.0, UNCONSTRAINED_POWER_BIT)
    }

    /// Set the unconstrained power flag
    pub fn set_unconstrained_power(&mut self, value: bool)
        ensures
            final(self).0.0 == with_bit(old(self).0.0, 0, value),
            final(self).spec_unconstrained_power() == value,
            final(self).spec_psu_type() == old(self).spec_psu_type(),
    {
        proof {
            lemma_flag_fields_independent(self.0.0, 0, value);
        }
        let mut raw = self.0.0;
        set_bit(&mut raw, UNCONSTRAINED_POWER_BIT, value);
        self.0 = ConsumerRaw(raw);
    }

    /// Builder method to set the PSU type
    pub fn with_psu_type(self, value: PsuType) -> (flags: Self)
        ensures
            flags.0.0 == with_field(self.0.0, 8, 4, psu_code_of(value) as u32),
            flags.spec_psu_type() == value,
            flags.spec_unconstrained_power() == self.spec_unconstrained_power(),
    {
        let mut flags = self;
        flags.set_psu_type(value);
        flags
    }

    /// Return PSU type
    pub fn psu_type(&self) -> (psu: PsuType)
        ensures
            psu == self.spec_psu_type(),
    {
        PsuType::from(get_field(self.0.0, PSU_TYPE_MSB, PSU_TYPE_LSB))
    }

    /// Set PSU type
    pub fn set_psu_type(&mut self, value: PsuType)
        ensures
            final(self).0.0 == with_field(old(self).0.0, 8, 4, psu_code_of(value) as u32),
            final(self).spec_psu_type() == value,
            final(self).spec_unconstrained_power() == old(self).spec_unconstrained_power(),
    {
        proof {
            lemma_psu_code_round_trip(value);
            lemma_flag_fields_independent(self.0.0, psu_code_of(value), true);
        }
        let mut raw = self.0.0;
        set_field(&mut raw, PSU_TYPE_MSB, PSU_TYPE_LSB, u8::from(value));
        self.0 = ConsumerRaw(raw);
    }
}

/// Raw provider flags bit field
#[derive(Copy, Clone, Debug, PartialEq, Eq, Structural)]
pub struct ProviderRaw(pub u32);

/// Type safe wrapper for provider flags
#[derive(Copy, Clone, Debug, PartialEq, Eq, Structural)]
pub struct Provider(pub ProviderRaw);

impl Provider {
    /// The PSU type that the flags name.
    pub open spec fn spec_psu_type(&self) -> PsuType {
        psu_type_of(field_at(self.0.0, 8, 4) as u8)
    }

    /// Create a new provider with no flags set
    pub fn none() -> (flags: Self)
        ensures
            flags.0.0 == 0,
            flags.spec_psu_type() == PsuType::Unknown,
    {
        proof {
            assert((0u32 >> 8u32) & ((1u32 << 4u32) - 1) as u32 == 0u32) by (bit_vector);
        }
        Self(ProviderRaw(0))
    }

    /// Builder method to set the PSU type
    pub fn with_psu_type(self, value: PsuType) -> (flags: Self)
        ensures
            flags.0.0 == with_field(self.0.0, 8, 4, psu_code_of(value) as u32),
            flags.spec_psu_type() == value,
    {
        let mut flags = self;
        flags.set_psu_type(value);
        flags
    }

    /// Return PSU type
    pub fn psu_type(&self) -> (psu: PsuType)
        ensures
            psu == self.spec_psu_type(),
    {
        PsuType::from(get_field(self.0.0, PSU_TYPE_MSB, PSU_TYPE_LSB))
    }

    /// Set PSU type
    pub fn set_psu_type(&mut self, value: PsuType)
        ensures
            final(self).0.0 == with_field(old(self).0.0, 8, 4, psu_code_of(value) as u32),
            final(self).spec_psu_type() == value,
    {
        proof {
            lemma_psu_code_round_trip(value);
            lemma_flag_fields_independent(self.0.0, psu_code_of(value), true);
        }
        let mut raw = self.0.0;
        set_field(&mut raw, PSU_TYPE_MSB, PSU_TYPE_LSB, u8::from(value));
        self.0 = ProviderRaw(raw);
    }
}

} // verus!
