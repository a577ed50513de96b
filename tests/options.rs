use paperjet::cups::{CupsOption, FINISHINGS_NONE};
use paperjet::options::{
    validate_duplex_options, ColorMode, CopiesInt, Finishing, MediaSize, MediaSource, MediaType,
    NumberUpInt, Orientation, PrintOption, PrintOptions, Quality, SidesMode,
};
use paperjet::option_set::{add_options, requested_options, CupsOptions};
use paperjet::PrintError;

#[test]
fn options_if_empty_finishings_then_cups_finishings_none() {
    let finishings: Vec<Finishing> = Vec::new();
    let value = finishings.get_cups_option_value();
    assert_eq!(
        FINISHINGS_NONE, value,
        "Empty finishings should have value '{}', was: '{}'",
        FINISHINGS_NONE, value
    );
}

#[test]
fn options_if_one_finishing_then_cups_finishing_constant() {
    let finishings = vec![Finishing::Staple];
    let value = finishings.get_cups_option_value();
    let expected = Finishing::Staple.get_cups_option_value();
    assert_eq!(
        expected, value,
        "Finishings should have value '{}', was: '{}'",
        expected, value
    );
}

#[test]
fn options_if_many_finishing_then_comma_separated_cups_finishing_constants() {
    let finishings = vec![Finishing::Staple, Finishing::Bind, Finishing::Punch];
    let value = finishings.get_cups_option_value();
    let expected_str = format!(
        "{},{},{}",
        finishings[0].get_cups_option_value(),
        finishings[1].get_cups_option_value(),
        finishings[2].get_cups_option_value()
    );
    assert_eq!(
        expected_str, value,
        "Finishings should have value '{}', was: '{}'",
        expected_str, value
    );
}

#[test]
fn finishing_codes_are_the_spooler_constants() {
    assert_eq!(FINISHINGS_NONE, "3");
    assert_eq!(vec![Finishing::Staple].get_cups_option_value(), "4");
    assert_eq!(
        vec![Finishing::Staple, Finishing::Bind, Finishing::Punch].get_cups_option_value(),
        "4,7,5"
    );
    assert_eq!(
        vec![Finishing::Cover, Finishing::Fold, Finishing::Trim].get_cups_option_value(),
        "6,10,11"
    );
    assert_eq!(<Vec<Finishing> as CupsOption>::get_cups_option_name(), "finishings");
}

#[test]
fn integer_options_encode_in_decimal() {
    assert_eq!(CopiesInt(1).get_cups_option_value(), "1");
    assert_eq!(CopiesInt(42).get_cups_option_value(), "42");
    assert_eq!(CopiesInt(i32::MAX).get_cups_option_value(), "2147483647");
    assert_eq!(CopiesInt(-7).get_cups_option_value(), "-7");
    assert_eq!(CopiesInt(i32::MIN).get_cups_option_value(), "-2147483648");
    assert_eq!(NumberUpInt(16).get_cups_option_value(), "16");
    assert_eq!(CopiesInt::get_cups_option_name(), "copies");
    assert_eq!(NumberUpInt::get_cups_option_name(), "number-up");
}

#[test]
fn enumerated_options_use_the_wire_table() {
    assert_eq!(MediaSize::A4.get_cups_option_value(), "iso_a4_210x297mm");
    assert_eq!(MediaSize::A3Plus.get_cups_option_value(), "na_super-b_13x19in");
    assert_eq!(MediaSize::Envelope10.get_cups_option_value(), "na_number-10_4.125x9.5in");
    assert_eq!(MediaSize::get_cups_option_name(), "media");
    assert_eq!(MediaSource::Manual.get_cups_option_value(), "manual");
    assert_eq!(MediaSource::get_cups_option_name(), "media-source");
    assert_eq!(MediaType::Letterhead.get_cups_option_value(), "stationery-letterhead");
    assert_eq!(MediaType::Plain.get_cups_option_value(), "stationery");
    assert_eq!(MediaType::get_cups_option_name(), "media-type");
    assert_eq!(Orientation::Portrait.get_cups_option_value(), "3");
    assert_eq!(Orientation::Landscape.get_cups_option_value(), "4");
    assert_eq!(Orientation::get_cups_option_name(), "orientation-requested");
    assert_eq!(ColorMode::Monochrome.get_cups_option_value(), "monochrome");
    assert_eq!(ColorMode::get_cups_option_name(), "print-color-mode");
    assert_eq!(Quality::Draft.get_cups_option_value(), "3");
    assert_eq!(Quality::Normal.get_cups_option_value(), "4");
    assert_eq!(Quality::High.get_cups_option_value(), "5");
    assert_eq!(Quality::get_cups_option_name(), "print-quality");
    assert_eq!(SidesMode::TwoSidedPortrait.get_cups_option_value(), "two-sided-long-edge");
    assert_eq!(SidesMode::TwoSidedLandscape.get_cups_option_value(), "two-sided-short-edge");
    assert_eq!(SidesMode::get_cups_option_name(), "sides");
}

#[test]
fn human_strings_are_kebab_case() {
    assert_eq!(MediaSize::A3Plus.to_human_string(), "a3-plus");
    assert_eq!(MediaSize::EnvelopeDL.to_human_string(), "envelope-dl");
    assert_eq!(MediaSize::Photo3R.to_human_string(), "photo3-r");
    assert_eq!(MediaSize::Index3x5.to_human_string(), "index3x5");
    assert_eq!(SidesMode::TwoSidedPortrait.to_human_string(), "two-sided-portrait");
    assert_eq!(
        vec![Finishing::Staple, Finishing::Fold].to_human_string(),
        "staple, fold"
    );
    assert_eq!(Vec::<Finishing>::new().to_human_string(), "");
    assert_eq!(CopiesInt(3).to_human_string(), "3");
    assert_eq!(MediaSize::get_name(), "Media Size");
    assert_eq!(SidesMode::get_name(), "SidesMode");
}

#[test]
fn requested_options_follow_field_order() {
    let options = PrintOptions {
        copies: Some(CopiesInt(2)),
        quality: Some(Quality::High),
        media_size: Some(MediaSize::A4),
        ..Default::default()
    };
    let requests = requested_options(&options);
    assert_eq!(requests.len(), 3);
    assert_eq!(requests[0].name, "copies");
    assert_eq!(requests[0].value, "2");
    assert_eq!(requests[1].name, "media");
    assert_eq!(requests[1].value, "iso_a4_210x297mm");
    assert_eq!(requests[1].label, "media size");
    assert_eq!(requests[1].human, "a4");
    assert_eq!(requests[2].name, "print-quality");
    assert_eq!(requests[2].value, "5");
    assert!(requested_options(&PrintOptions::default()).is_empty());
}

#[test]
fn accepted_copies_give_one_option_entry() {
    let options = PrintOptions {
        copies: Some(CopiesInt(1)),
        ..Default::default()
    };
    let set = add_options(&options, &vec![true]).expect("copies=1 is accepted");
    assert_eq!(set.len(), 1);
    assert_eq!(set.name_at(0), "copies");
    assert_eq!(set.value_at(0), "1");
}

#[test]
fn refused_copies_give_unsupported_option() {
    let options = PrintOptions {
        copies: Some(CopiesInt(5)),
        ..Default::default()
    };
    let result = add_options(&options, &vec![false]);
    assert_eq!(
        result.err(),
        Some(PrintError::UnsupportedOption {
            name: "copies".to_owned(),
            value: "5".to_owned(),
        })
    );
}

#[test]
fn first_refused_option_is_reported() {
    let options = PrintOptions {
        finishings: Some(vec![Finishing::Staple, Finishing::Bind]),
        media_size: Some(MediaSize::Letter),
        sides_mode: Some(SidesMode::OneSided),
        ..Default::default()
    };
    let result = add_options(&options, &vec![true, false, false]);
    assert_eq!(
        result.err(),
        Some(PrintError::UnsupportedOption {
            name: "media size".to_owned(),
            value: "letter".to_owned(),
        })
    );
    let refused_finishings = add_options(&options, &vec![false, true, true]);
    assert_eq!(
        refused_finishings.err(),
        Some(PrintError::UnsupportedOption {
            name: "finishings".to_owned(),
            value: "staple, bind".to_owned(),
        })
    );
    let set = add_options(&options, &vec![true, true, true]).expect("all accepted");
    assert_eq!(set.len(), 3);
    assert_eq!(set.value_at(0), "4,7");
    assert_eq!(set.value_at(1), "na_letter_8.5x11in");
    assert_eq!(set.name_at(2), "sides");
    assert_eq!(set.value_at(2), "one-sided");
}

#[test]
fn option_list_appends_in_order() {
    let mut set = CupsOptions::new();
    assert_eq!(set.len(), 0);
    set.add(&Orientation::Landscape);
    set.add(&ColorMode::Color);
    assert_eq!(set.len(), 2);
    assert_eq!(set.name_at(0), "orientation-requested");
    assert_eq!(set.value_at(0), "4");
    assert_eq!(set.name_at(1), "print-color-mode");
    assert_eq!(set.value_at(1), "color");
}

#[test]
fn if_copies_is_set_then_options_invalid() {
    let options = PrintOptions {
        copies: Some(CopiesInt(1)),
        ..Default::default()
    };
    assert!(validate_duplex_options(&options).is_err());
}

#[test]
fn if_number_up_is_set_then_options_invalid() {
    let options = PrintOptions {
        number_up: Some(NumberUpInt(1)),
        ..Default::default()
    };
    assert!(validate_duplex_options(&options).is_err());
}

#[test]
fn if_sides_mode_is_set_then_options_invalid() {
    let options = PrintOptions {
        sides_mode: Some(SidesMode::TwoSidedLandscape),
        ..Default::default()
    };
    assert!(validate_duplex_options(&options).is_err());
}

#[test]
fn duplex_accepts_other_options() {
    let options = PrintOptions {
        media_size: Some(MediaSize::A4),
        quality: Some(Quality::Draft),
        ..Default::default()
    };
    assert_eq!(validate_duplex_options(&options), Ok(()));
    let both = PrintOptions {
        number_up: Some(NumberUpInt(2)),
        sides_mode: Some(SidesMode::OneSided),
        ..Default::default()
    };
    assert_eq!(validate_duplex_options(&both), Err("number up".to_owned()));
}
