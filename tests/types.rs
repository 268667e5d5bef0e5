use sgp30::{FeatureSet, Humidity, HumidityError, ProductType};

#[test]
fn humidity_as_bytes() {
    assert_eq!(Humidity::new(0x00, 0x01).unwrap().as_bytes(), [0x00, 0x01]);
    assert_eq!(Humidity::new(0xFF, 0xFF).unwrap().as_bytes(), [0xFF, 0xFF]);
    assert_eq!(Humidity::new(0x10, 0x80).unwrap().as_bytes(), [0x10, 0x80]);
}

#[test]
fn humidity_zero_rejected() {
    assert_eq!(Humidity::new(0, 0), Err(HumidityError::ZeroValue));
    assert!(Humidity::new(0, 1).is_ok());
    assert!(Humidity::new(1, 0).is_ok());
}

#[test]
fn feature_set_known_product() {
    let fs = FeatureSet::parse(0x00, 0x42);
    assert_eq!(fs.product_type, ProductType::Sgp30);
    assert_eq!(fs.product_version, 0x42);
}

#[test]
fn feature_set_unknown_product() {
    let fs = FeatureSet::parse(0x3A, 0x07);
    assert_eq!(fs.product_type, ProductType::Unknown(0x03));
    assert_eq!(fs.product_version, 0x07);
    // Only the high nibble names the product.
    assert_eq!(FeatureSet::parse(0x0F, 0x01).product_type, ProductType::Sgp30);
}

#[test]
fn product_type_parse() {
    assert_eq!(ProductType::parse(0), ProductType::Sgp30);
    assert_eq!(ProductType::parse(5), ProductType::Unknown(5));
}
