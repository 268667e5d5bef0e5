//! The values the sensor reports and accepts.
use vstd::prelude::*;

verus! {

/// A measurement result from the sensor.
#[derive(Debug, PartialEq, Eq, Clone, Copy, Structural)]
pub struct Measurement {
    /// CO₂ equivalent (parts per million, ppm)
    pub co2eq_ppm: u16,
    /// Total Volatile Organic Compounds (parts per billion, ppb)
    pub tvoc_ppb: u16,
}

/// A raw signals result from the sensor.
#[derive(Debug, PartialEq, Eq, Clone, Copy, Structural)]
pub struct RawSignals {
    /// H2 signal
    pub h2: u16,
    /// Ethanol signal
    pub ethanol: u16,
}

/// The baseline values of the on-chip compensation algorithm.
#[derive(Debug, PartialEq, Eq, Clone, Copy, Structural)]
pub struct Baseline {
    /// CO₂eq baseline
    pub co2eq: u16,
    /// TVOC baseline
    pub tvoc: u16,
}

/// Absolute humidity in g/m³, as an 8.8 fixed-point number that is never
/// zero.
///
/// A zero value would turn the chip's humidity compensation off; to go back
/// to the chip's default, set no humidity at all.
#[derive(Debug, PartialEq, Eq, Clone, Copy, Structural)]
pub struct Humidity {
    integer: u8,
    fractional: u8,
}

/// Errors that can occur when constructing a `Humidity` value.
#[derive(Debug, PartialEq, Eq, Copy, Clone, Structural)]
pub enum HumidityError {
    /// A zero value is not allowed in a `Humidity` struct since that will turn
    /// off the temperature compensation.
    ZeroValue,
    /// A value is outside the representable range.
    OutOfRange,
}

impl Humidity {
    #[verifier::type_invariant]
    spec fn nonzero(self) -> bool {
        !(self.integer == 0 && self.fractional == 0)
    }

    /// The integer part, in g/m³.
    pub closed spec fn integer_part(self) -> u8 {
        self.integer
    }

    /// The fractional part, in 1/256 g/m³.
    pub closed spec fn fractional_part(self) -> u8 {
        self.fractional
    }

    /// Create a humidity of `integer + fractional / 256` g/m³.
    ///
    /// Examples: `(0x00, 0x01)` is 1/256 g/m³, `(0x10, 0x80)` is 16.5 g/m³.
    pub fn new(integer: u8, fractional: u8) -> (r: Result<Self, HumidityError>)
        ensures
            integer == 0 && fractional == 0 ==> r == Err::<Self, HumidityError>(
                HumidityError::ZeroValue,
            ),
            !(integer == 0 && fractional == 0) ==> r is Ok && r->Ok_0.integer_part() == integer
                && r->Ok_0.fractional_part() == fractional,
    {
        if integer == 0 && fractional == 0 {
            return Err(HumidityError::ZeroValue);
        }
        Ok(Humidity { integer, fractional })
    }

    /// The fixed-point bytes as the sensor expects them: integer part, then
    /// fractional part. They are never both zero.
    pub fn as_bytes(&self) -> (r: [u8; 2])
        ensures
            r@ == seq![self.integer_part(), self.fractional_part()],
            !(r@[0] == 0 && r@[1] == 0),
    {
        proof {
            use_type_invariant(self);
        }
        let r = [self.integer, self.fractional];
        assert(r@ =~= seq![self.integer_part(), self.fractional_part()]);
        r
    }
}

/// The product types compatible with this driver.
#[derive(Debug, PartialEq, Eq, Copy, Clone, Structural)]
pub enum ProductType {
    /// SGP30
    Sgp30,
    /// Unknown product type
    Unknown(u8),
}

/// The product type that the type code `val` stands for.
pub open spec fn product_type_of(val: u8) -> ProductType {
    if val == 0 {
        ProductType::Sgp30
    } else {
        ProductType::Unknown(val)
    }
}

impl ProductType {
    /// Parse the product type code.
    pub fn parse(val: u8) -> (r: Self)
        ensures
            r == product_type_of(val),
    {
        match val {
            0 => ProductType::Sgp30,
            _ => ProductType::Unknown(val),
        }
    }
}

/// The feature set returned by the sensor.
#[derive(Debug, PartialEq, Eq, Clone, Copy, Structural)]
pub struct FeatureSet {
    /// The product type (see [`ProductType`](enum.ProductType.html))
    pub product_type: ProductType,
    /// The product version
    pub product_version: u8,
}

/// The feature set that the reply bytes `msb`, `lsb` describe: the type code
/// is the high nibble of `msb`, the version is `lsb`.
pub open spec fn feature_set_of(msb: u8, lsb: u8) -> FeatureSet {
    FeatureSet { product_type: product_type_of(msb / 16), product_version: lsb }
}

impl FeatureSet {
    /// Parse the two bytes returned by the device.
    pub fn parse(msb: u8, lsb: u8) -> (r: Self)
        ensures
            r == feature_set_of(msb, lsb),
    {
        let code = msb >> 4u8;
        assert(msb >> 4u8 == msb / 16) by (bit_vector);
        FeatureSet { product_type: ProductType::parse(code), product_version: lsb }
    }
}

} // verus!
