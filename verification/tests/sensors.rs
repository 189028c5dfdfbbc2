use monty::sensors::{
    average_frequency, package_temp, str_contains, SensorChip, SensorFeature, SubFeature,
    SubFeatureKind,
};

fn temp_chip(name: &str, feature_name: &str, value: Option<i64>) -> SensorChip {
    SensorChip {
        name: name.to_string(),
        features: vec![SensorFeature {
            name: feature_name.to_string(),
            subfeatures: vec![SubFeature {
                kind: SubFeatureKind::TemperatureInput,
                value,
            }],
        }],
    }
}

#[test]
fn missing_chip_returns_zero() {
    let chips = vec![temp_chip("nvme-pci-0100", "temp1", Some(35))];
    assert_eq!(package_temp(&chips), 0);
}

#[test]
fn empty_sensor_set_returns_zero() {
    let chips: Vec<SensorChip> = Vec::new();
    assert_eq!(package_temp(&chips), 0);
}

#[test]
fn matching_chip_yields_its_reading() {
    let chips = vec![
        temp_chip("acpitz-acpi-0", "temp1", Some(27)),
        temp_chip("coretemp-isa-0000", "temp1", Some(55)),
    ];
    assert_eq!(package_temp(&chips), 55);
}

#[test]
fn first_matching_chip_wins() {
    let chips = vec![
        temp_chip("coretemp-isa-0000", "temp1", Some(10)),
        temp_chip("coretemp-isa-0000", "temp1", Some(20)),
    ];
    assert_eq!(package_temp(&chips), 10);
}

#[test]
fn feature_name_is_matched_by_substring() {
    let chips = vec![temp_chip("coretemp-isa-0000", "temp1_input", Some(48))];
    assert_eq!(package_temp(&chips), 48);
}

#[test]
fn missing_feature_returns_zero() {
    let chips = vec![temp_chip("coretemp-isa-0000", "temp2", Some(48))];
    assert_eq!(package_temp(&chips), 0);
}

#[test]
fn missing_temperature_input_returns_zero() {
    let chips = vec![SensorChip {
        name: "coretemp-isa-0000".to_string(),
        features: vec![SensorFeature {
            name: "temp1".to_string(),
            subfeatures: vec![SubFeature {
                kind: SubFeatureKind::Other,
                value: Some(99),
            }],
        }],
    }];
    assert_eq!(package_temp(&chips), 0);
}

#[test]
fn missing_value_returns_zero() {
    let chips = vec![temp_chip("coretemp-isa-0000", "temp1", None)];
    assert_eq!(package_temp(&chips), 0);
}

#[test]
fn substring_search_basics() {
    assert!(str_contains("coretemp-isa-0000-extra", "coretemp-isa-0000"));
    assert!(str_contains("temp1_input", "temp1"));
    assert!(!str_contains("temp2_input", "temp1"));
    assert!(str_contains("abc", ""));
    assert!(!str_contains("ab", "abc"));
    assert!(str_contains("xxabcx", "abc"));
}

#[test]
fn average_frequency_is_integer_mean() {
    assert_eq!(average_frequency(&vec![1000, 2000, 3000]), 2000);
    assert_eq!(average_frequency(&vec![1, 2]), 1);
    assert_eq!(average_frequency(&vec![2400]), 2400);
}
