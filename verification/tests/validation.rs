use gamma_table::config::{Mode, TableConfig, TableParams};
use gamma_table::error::ValidationError;
use gamma_table::exponent::{exponent_is_positive, POSITIVE_INFINITY_BITS};
use gamma_table::params::{
    first_missing, missing_parameter_message, unknown_parameter_message, ParamKey,
};
use gamma_table::table::{clamp_sample, generate};
use gamma_table::text::append_decimal;
use gamma_table::width::{get_integer_type_max_value, TargetWidth};

/// What the validator says of a request, as the result of the whole
/// operation would show it: the diagnostic of the rejection, or nothing.
fn generate_gamma_table(
    entry_type: &str,
    gamma: f64,
    size: usize,
    max_value: Option<u64>,
    decoding: Option<bool>,
) -> Result<TableConfig, String> {
    TableConfig::validate(
        gamma.to_bits(),
        size,
        max_value,
        entry_type,
        Mode::from_decoding(decoding),
    )
    .map_err(|error| error.message(entry_type))
}

#[test]
fn test_minimum_size_validation() {
    let result = generate_gamma_table("u8", 2.2, 2, None, None);
    assert!(result.is_err());
    assert!(result.unwrap_err().contains("Size must be at least 3"));

    let result = generate_gamma_table("u8", 2.2, 3, None, None);
    assert!(result.is_ok());
}

#[test]
fn test_negative_gamma_validation() {
    let result = generate_gamma_table("u8", -1.0, 10, None, None);
    assert!(result.is_err());
    assert!(result.unwrap_err().contains("Gamma value must be positive"));

    let result = generate_gamma_table("u8", 0.0, 10, None, None);
    assert!(result.is_err());
    assert!(result.unwrap_err().contains("Gamma value must be positive"));
}

#[test]
fn test_max_value_overflow_validation() {
    let result = generate_gamma_table("u8", 2.2, 10, Some(300), None);
    assert!(result.is_err());
    assert!(result
        .unwrap_err()
        .contains("max_value (300) exceeds the maximum value (255)"));

    let result = generate_gamma_table("u16", 2.2, 10, Some(70000), None);
    assert!(result.is_err());
    assert!(result
        .unwrap_err()
        .contains("max_value (70000) exceeds the maximum value (65535)"));

    let result = generate_gamma_table("u32", 2.2, 10, Some(5000000000), None);
    assert!(result.is_err());
    assert!(result
        .unwrap_err()
        .contains("max_value (5000000000) exceeds the maximum value (4294967295)"));

    let result = generate_gamma_table("u8", 2.2, 10, Some(255), None);
    assert!(result.is_ok());

    let result = generate_gamma_table("u32", 2.2, 10, Some(1000000), None);
    assert!(result.is_ok());

    let result = generate_gamma_table("u64", 2.2, 10, Some(1000000), None);
    assert!(result.is_ok());

    let result = generate_gamma_table("i32", 2.2, 10, Some(100), None);
    assert!(result.is_err());
    assert!(result.unwrap_err().contains("Unsupported entry_type"));

    let result = generate_gamma_table("f32", 2.2, 10, Some(100), None);
    assert!(result.is_err());
    assert!(result.unwrap_err().contains("Unsupported entry_type"));
}

#[test]
fn ceiling_300_does_not_fit_eight_bits() {
    let verdict = TableConfig::validate(2.2f64.to_bits(), 10, Some(300), "u8", Mode::Encode);
    assert_eq!(
        verdict,
        Err(ValidationError::OutputCeilingOverflow { ceiling: 300, limit: 255 })
    );
}

#[test]
fn sizes_below_three_are_too_small() {
    for size in [0usize, 1, 2] {
        let verdict = TableConfig::validate(2.2f64.to_bits(), size, None, "u8", Mode::Encode);
        assert_eq!(verdict, Err(ValidationError::TableTooSmall));
    }
    assert!(TableConfig::validate(2.2f64.to_bits(), 3, None, "u8", Mode::Encode).is_ok());
}

#[test]
fn zero_and_negative_exponents_are_rejected() {
    for gamma in [0.0f64, -0.0, -1.0, -2.2, f64::MIN, -f64::MIN_POSITIVE, f64::NEG_INFINITY] {
        let verdict = TableConfig::validate(gamma.to_bits(), 10, None, "u8", Mode::Encode);
        assert_eq!(verdict, Err(ValidationError::NonPositiveExponent));
    }
}

#[test]
fn an_exponent_that_is_no_number_is_rejected() {
    let verdict = TableConfig::validate(f64::NAN.to_bits(), 10, None, "u8", Mode::Encode);
    assert_eq!(verdict, Err(ValidationError::NonPositiveExponent));
    let verdict = TableConfig::validate((-f64::NAN).to_bits(), 10, None, "u8", Mode::Encode);
    assert_eq!(verdict, Err(ValidationError::NonPositiveExponent));
    let verdict = TableConfig::validate(POSITIVE_INFINITY_BITS + 1, 10, None, "u8", Mode::Encode);
    assert_eq!(verdict, Err(ValidationError::NonPositiveExponent));
}

#[test]
fn positive_patterns_are_those_of_positive_numbers() {
    let numbers = [
        0.0f64,
        -0.0,
        f64::from_bits(1),
        f64::MIN_POSITIVE,
        1.0e-300,
        0.45,
        1.0,
        2.2,
        f64::MAX,
        f64::INFINITY,
        f64::NEG_INFINITY,
        -f64::from_bits(1),
        -1.0,
        f64::MIN,
        f64::NAN,
        -f64::NAN,
        f64::from_bits(0x7FF0_0000_0000_0001),
        f64::from_bits(0x7FFF_FFFF_FFFF_FFFF),
        f64::from_bits(0xFFFF_FFFF_FFFF_FFFF),
    ];
    for number in numbers {
        assert_eq!(exponent_is_positive(number.to_bits()), number > 0.0);
    }
    assert_eq!(f64::INFINITY.to_bits(), POSITIVE_INFINITY_BITS);
}

#[test]
fn the_first_failing_check_is_reported() {
    // A request with every fault at once: each repair uncovers the next.
    let bad = f64::to_bits(-1.0);
    let good = f64::to_bits(2.2);
    assert_eq!(
        TableConfig::validate(bad, 2, Some(300), "i8", Mode::Encode),
        Err(ValidationError::NonPositiveExponent)
    );
    assert_eq!(
        TableConfig::validate(good, 2, Some(300), "i8", Mode::Encode),
        Err(ValidationError::TableTooSmall)
    );
    assert_eq!(
        TableConfig::validate(good, 3, Some(300), "i8", Mode::Encode),
        Err(ValidationError::UnsupportedTargetWidth)
    );
    assert_eq!(
        TableConfig::validate(good, 3, Some(300), "u8", Mode::Encode),
        Err(ValidationError::OutputCeilingOverflow { ceiling: 300, limit: 255 })
    );
    assert!(TableConfig::validate(good, 3, Some(255), "u8", Mode::Encode).is_ok());
}

#[test]
fn the_default_ceiling_is_the_last_index() {
    let config = TableConfig::validate(2.2f64.to_bits(), 256, None, "u16", Mode::Decode).unwrap();
    assert_eq!(
        config.params(),
        TableParams {
            exponent_bits: 2.2f64.to_bits(),
            size: 256,
            output_ceiling: 255,
            target_width: TargetWidth::U16,
            mode: Mode::Decode,
        }
    );
    // The default is checked against the entry type like any other ceiling.
    assert_eq!(
        TableConfig::validate(2.2f64.to_bits(), 1024, None, "u8", Mode::Encode),
        Err(ValidationError::OutputCeilingOverflow { ceiling: 1023, limit: 255 })
    );
    assert!(TableConfig::validate(2.2f64.to_bits(), 257, None, "u8", Mode::Encode).is_err());
    assert!(TableConfig::validate(2.2f64.to_bits(), 256, None, "u8", Mode::Encode).is_ok());
}

#[test]
fn the_largest_ceiling_of_each_width_is_accepted() {
    let limits: [(&str, u64); 4] =
        [("u8", 255), ("u16", 65535), ("u32", 4294967295), ("u64", u64::MAX)];
    for (entry_type, limit) in limits {
        let bits = 2.2f64.to_bits();
        assert!(TableConfig::validate(bits, 10, Some(limit), entry_type, Mode::Encode).is_ok());
        if limit < u64::MAX {
            assert_eq!(
                TableConfig::validate(bits, 10, Some(limit + 1), entry_type, Mode::Encode),
                Err(ValidationError::OutputCeilingOverflow { ceiling: limit + 1, limit })
            );
        }
    }
}

#[test]
fn widths_and_their_names() {
    assert_eq!(get_integer_type_max_value("u8"), Some(255));
    assert_eq!(get_integer_type_max_value("u16"), Some(65535));
    assert_eq!(get_integer_type_max_value("u32"), Some(4294967295));
    assert_eq!(get_integer_type_max_value("u64"), Some(18446744073709551615));
    for name in ["", "u", "u1", "u128", "usize", "i8", "i32", "f32", "U8", "u8 ", " u8", "u88"] {
        assert_eq!(get_integer_type_max_value(name), None);
        assert_eq!(TargetWidth::from_name(name), None);
    }
    for width in [TargetWidth::U8, TargetWidth::U16, TargetWidth::U32, TargetWidth::U64] {
        assert_eq!(TargetWidth::from_name(width.name()), Some(width));
        assert_eq!(get_integer_type_max_value(width.name()), Some(width.max_value()));
        assert_eq!(width.max_value() as u128, (1u128 << width.bits()) - 1);
    }
    assert_eq!(TargetWidth::U8.name(), "u8");
    assert_eq!(TargetWidth::U16.name(), "u16");
    assert_eq!(TargetWidth::U32.name(), "u32");
    assert_eq!(TargetWidth::U64.name(), "u64");
}

#[test]
fn modes_and_the_decoding_flag() {
    assert_eq!(Mode::from_decoding(None), Mode::Encode);
    assert_eq!(Mode::from_decoding(Some(false)), Mode::Encode);
    assert_eq!(Mode::from_decoding(Some(true)), Mode::Decode);
    assert!(Mode::Decode.is_decode());
    assert!(!Mode::Encode.is_decode());
}

#[test]
fn diagnostics_read_as_written() {
    assert_eq!(
        ValidationError::NonPositiveExponent.message("u8"),
        "Gamma value must be positive"
    );
    assert_eq!(
        ValidationError::TableTooSmall.message("u8"),
        "Size must be at least 3 to create a meaningful gamma table. Smaller sizes only have min and max values."
    );
    assert_eq!(
        ValidationError::UnsupportedTargetWidth.message("i32"),
        "Unsupported entry_type: i32. Supported types are: u8, u16, u32, u64"
    );
    assert_eq!(
        ValidationError::OutputCeilingOverflow { ceiling: 300, limit: 255 }.message("u8"),
        "max_value (300) exceeds the maximum value (255) that can be stored in entry_type u8"
    );
    assert_eq!(
        ValidationError::OutputCeilingOverflow { ceiling: u64::MAX, limit: 4294967295 }
            .message("u32"),
        "max_value (18446744073709551615) exceeds the maximum value (4294967295) that can be stored in entry_type u32"
    );
}

#[test]
fn numerals_are_decimal() {
    for n in [0u64, 1, 9, 10, 11, 99, 100, 101, 255, 1000, 65535, 4294967296, u64::MAX] {
        let mut text = String::from("n = ");
        append_decimal(&mut text, n);
        assert_eq!(text, format!("n = {}", n));
    }
}

#[test]
fn samples_are_limited_to_the_ceiling() {
    assert_eq!(clamp_sample(0, 9), 0);
    assert_eq!(clamp_sample(9, 9), 9);
    assert_eq!(clamp_sample(10, 9), 9);
    assert_eq!(clamp_sample(u64::MAX, 0), 0);

    let config = TableConfig::validate(2.2f64.to_bits(), 5, Some(9), "u8", Mode::Encode).unwrap();
    let table = generate(&config, &vec![0, 3, 9, 10, u64::MAX]).unwrap();
    assert_eq!(table.into_entries(), vec![0, 3, 9, 9, 9]);
    // Samples are taken as they come: nothing is sorted or repaired.
    let table = generate(&config, &vec![7, 3, 12, 0, 1]).unwrap();
    assert_eq!(table.entries(), &vec![7, 3, 9, 0, 1]);
}

#[test]
fn a_table_needs_one_sample_for_each_entry() {
    let config = TableConfig::validate(2.2f64.to_bits(), 4, None, "u8", Mode::Encode).unwrap();
    assert_eq!(generate(&config, &vec![]), None);
    assert_eq!(generate(&config, &vec![0, 1, 3]), None);
    assert_eq!(generate(&config, &vec![0, 1, 2, 3, 3]), None);
    let table = generate(&config, &vec![0, 1, 2, 3]).unwrap();
    assert_eq!(table.len(), 4);
    assert_eq!(table.params(), config.params());
}

#[test]
fn parameter_names() {
    let keys = [
        (ParamKey::Name, "name", true),
        (ParamKey::EntryType, "entry_type", true),
        (ParamKey::Gamma, "gamma", true),
        (ParamKey::Size, "size", true),
        (ParamKey::MaxValue, "max_value", false),
        (ParamKey::Decoding, "decoding", false),
    ];
    for (key, name, required) in keys {
        assert_eq!(key.name(), name);
        assert_eq!(ParamKey::from_name(name), Some(key));
        assert_eq!(key.is_required(), required);
    }
    for name in ["", "unknown_param", "Name", "sizes", "gam", "max-value", "entry type"] {
        assert_eq!(ParamKey::from_name(name), None);
    }
    assert_eq!(unknown_parameter_message("unknown_param"), "Unknown parameter: unknown_param");
}

#[test]
fn missing_parameters_are_named_in_order() {
    assert_eq!(first_missing(true, true, true, true), None);
    assert_eq!(first_missing(false, true, true, true), Some(ParamKey::Name));
    assert_eq!(first_missing(true, false, true, true), Some(ParamKey::EntryType));
    assert_eq!(first_missing(true, true, false, true), Some(ParamKey::Gamma));
    assert_eq!(first_missing(true, true, true, false), Some(ParamKey::Size));
    assert_eq!(first_missing(false, false, false, false), Some(ParamKey::Name));
    assert_eq!(first_missing(true, false, false, false), Some(ParamKey::EntryType));
    assert_eq!(first_missing(true, true, false, false), Some(ParamKey::Gamma));
    assert_eq!(missing_parameter_message(ParamKey::Name), "Missing required parameter: name");
    assert_eq!(
        missing_parameter_message(ParamKey::EntryType),
        "Missing required parameter: entry_type"
    );
    assert_eq!(missing_parameter_message(ParamKey::Gamma), "Missing required parameter: gamma");
    assert_eq!(missing_parameter_message(ParamKey::Size), "Missing required parameter: size");
}
