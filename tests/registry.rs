use paperjet::listing::{
    find_printer_by_name, get_sorted_printers, name_le, position_of_id,
};
use paperjet::printer::state_description;
use paperjet::{CupsDestination, CupsDestinations, Printer};

fn destination(name: &str, is_default: bool, options: &[(&str, &str)]) -> CupsDestination {
    CupsDestination {
        name: name.to_owned(),
        instance: None,
        is_default,
        options: options
            .iter()
            .map(|(k, v)| (k.to_string(), v.to_string()))
            .collect(),
    }
}

fn printer(name: &str, is_default: bool) -> Printer {
    Printer::from_destination(&destination(name, is_default, &[]))
}

#[test]
fn if_no_destinations_then_get_always_none() {
    let cups_destinations = CupsDestinations::new(Vec::new());
    assert!(cups_destinations.get(0).is_none());
    assert!(cups_destinations.get(1).is_none());
    assert!(cups_destinations.get(usize::MAX).is_none());
}

#[test]
fn get_is_defined_exactly_below_the_count() {
    let registry = CupsDestinations::new(vec![
        destination("alpha", false, &[]),
        destination("beta", true, &[]),
        destination("gamma", false, &[]),
    ]);
    assert_eq!(registry.len(), 3);
    assert_eq!(registry.get(0).map(|d| d.name.as_str()), Some("alpha"));
    assert_eq!(registry.get(1).map(|d| d.name.as_str()), Some("beta"));
    assert_eq!(registry.get(2).map(|d| d.name.as_str()), Some("gamma"));
    assert!(registry.get(3).is_none());
    assert!(registry.get(usize::MAX).is_none());
}

#[test]
fn printer_from_destination_keeps_fields_and_last_option() {
    let mut dest = destination(
        "office",
        true,
        &[("printer-info", "Office Laser"), ("device-uri", "file:/dev/null"), ("printer-info", "Second Floor")],
    );
    dest.instance = Some("duplex".to_owned());
    let p = Printer::from_destination(&dest);
    assert_eq!(p.identifier, "office");
    assert_eq!(p.name, "office");
    assert_eq!(p.instance.as_deref(), Some("duplex"));
    assert!(p.is_default);
    assert_eq!(p.options.len(), 2);
    assert_eq!(p.get_option("printer-info").map(|s| s.as_str()), Some("Second Floor"));
    assert_eq!(p.get_option("device-uri").map(|s| s.as_str()), Some("file:/dev/null"));
    assert!(p.get_option("printer-state").is_none());
    assert_eq!(p.get_human_name(), "Second Floor");
}

#[test]
fn human_name_falls_back_to_name() {
    let p = printer("plain", false);
    assert_eq!(p.get_human_name(), "plain");
}

#[test]
fn sorted_printers_put_default_first_then_names() {
    let printers = vec![printer("charlie", false), printer("bravo", true), printer("alpha", false)];
    let sorted = get_sorted_printers(printers);
    let names: Vec<&str> = sorted.iter().map(|p| p.name.as_str()).collect();
    assert_eq!(names, vec!["bravo", "alpha", "charlie"]);
    assert!(sorted[0].is_default);
}

#[test]
fn sorted_printers_without_default_are_by_name() {
    let printers = vec![
        printer("zeta", false),
        printer("Zeta", false),
        printer("eta", false),
        printer("et", false),
    ];
    let sorted = get_sorted_printers(printers);
    let names: Vec<&str> = sorted.iter().map(|p| p.name.as_str()).collect();
    assert_eq!(names, vec!["Zeta", "et", "eta", "zeta"]);
    assert!(get_sorted_printers(Vec::new()).is_empty());
}

#[test]
fn names_compare_like_strings() {
    let pairs = [("a", "b"), ("ab", "a"), ("", "x"), ("x", ""), ("same", "same"), ("é", "z"), ("Z", "a")];
    for (a, b) in pairs {
        let (a, b) = (a.to_owned(), b.to_owned());
        assert_eq!(name_le(&a, &b), a <= b, "{a} <= {b}");
    }
}

#[test]
fn printers_are_found_by_identifier_name_or_human_name() {
    let office = Printer::from_destination(&destination("office", false, &[("printer-info", "Office Laser")]));
    let lab = printer("lab", true);
    let printers = vec![office, lab];
    assert_eq!(find_printer_by_name(&printers, "lab"), Some(1));
    assert_eq!(find_printer_by_name(&printers, "Office Laser"), Some(0));
    assert_eq!(find_printer_by_name(&printers, "office"), Some(0));
    assert_eq!(find_printer_by_name(&printers, "attic"), None);
}

#[test]
fn list_ids_count_from_one() {
    assert_eq!(position_of_id(0), None);
    assert_eq!(position_of_id(1), Some(0));
    assert_eq!(position_of_id(3), Some(2));
    assert_eq!(position_of_id(usize::MAX), Some(usize::MAX - 1));
}

#[test]
fn printer_states_are_described() {
    assert_eq!(state_description(&"3".to_owned()), Some("idle"));
    assert_eq!(state_description(&"4".to_owned()), Some("printing"));
    assert_eq!(state_description(&"5".to_owned()), Some("stopped"));
    assert_eq!(state_description(&"6".to_owned()), None);
}

#[test]
fn three_destinations_list_default_first() {
    let printers = vec![printer("beta", false), printer("gamma", true), printer("alpha", false)];
    let sorted = get_sorted_printers(printers);
    let names: Vec<&str> = sorted.iter().map(|p| p.name.as_str()).collect();
    assert_eq!(names, vec!["gamma", "alpha", "beta"]);
}
