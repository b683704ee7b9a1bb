use medication::medication::{format_dosage, format_medication, Dosage, Medication};
use medication::rate::Rate;
use medication::report::{infliximab, paracetamol, report_lines};

fn rate(negative: bool, units: u64, scale: u32) -> Rate {
    Rate { negative, units, scale }
}

fn infusion(speed: Rate, duration: i32) -> String {
    format_dosage(Dosage::Infusion { speed, duration })
}

#[test]
fn paracetamol_line() {
    let m = Medication {
        drug_name: "Paracetamol".to_string(),
        dosage: Dosage::Tablet { morning: 1, midday: 0, evening: 2 },
    };
    assert_eq!(format_medication(m), "Paracetamol: 1-0-2");
}

#[test]
fn infliximab_line() {
    let m = Medication {
        drug_name: "Infliximab".to_string(),
        dosage: Dosage::Infusion { speed: rate(false, 15, 1), duration: 2 },
    };
    assert_eq!(format_medication(m), "Infliximab: 1.5 ml/min for 2h");
}

#[test]
fn tablet_counts_joined_in_order() {
    let d = Dosage::Tablet { morning: 3, midday: 12, evening: 0 };
    assert_eq!(format_dosage(d), "3-12-0");
    let d = Dosage::Tablet { morning: 0, midday: 0, evening: 0 };
    assert_eq!(format_dosage(d), "0-0-0");
}

#[test]
fn tablet_extreme_counts() {
    let d = Dosage::Tablet { morning: i32::MAX, midday: -7, evening: i32::MIN };
    assert_eq!(format_dosage(d), "2147483647--7--2147483648");
}

#[test]
fn tablet_has_no_outer_hyphen() {
    let text = format_dosage(Dosage::Tablet { morning: 10, midday: 200, evening: 3 });
    assert!(!text.starts_with('-'));
    assert!(!text.ends_with('-'));
    let parts: Vec<&str> = text.split('-').collect();
    assert_eq!(parts, vec!["10", "200", "3"]);
}

#[test]
fn infusion_units_written_exactly() {
    assert_eq!(infusion(rate(false, 25, 1), 4), "2.5 ml/min for 4h");
    assert_eq!(infusion(rate(false, 3, 0), 12), "3 ml/min for 12h");
}

#[test]
fn infusion_whole_speed_has_no_point() {
    assert_eq!(infusion(rate(false, 200, 2), 1), "2 ml/min for 1h");
    assert_eq!(infusion(rate(false, 0, 3), 1), "0 ml/min for 1h");
}

#[test]
fn infusion_trailing_zeros_dropped() {
    assert_eq!(infusion(rate(false, 150, 2), 2), "1.5 ml/min for 2h");
    assert_eq!(infusion(rate(false, 1230, 3), 2), "1.23 ml/min for 2h");
}

#[test]
fn infusion_small_speed_keeps_leading_zeros() {
    assert_eq!(infusion(rate(false, 5, 2), 3), "0.05 ml/min for 3h");
    assert_eq!(infusion(rate(false, 1, 25), 3), "0.0000000000000000000000001 ml/min for 3h");
}

#[test]
fn infusion_negative_speed_and_duration() {
    assert_eq!(infusion(rate(true, 15, 1), -2), "-1.5 ml/min for -2h");
    assert_eq!(infusion(rate(true, 0, 0), 0), "-0 ml/min for 0h");
}

#[test]
fn infusion_largest_units() {
    assert_eq!(infusion(rate(false, u64::MAX, 0), 1), "18446744073709551615 ml/min for 1h");
    assert_eq!(infusion(rate(false, u64::MAX, 19), 1), "1.8446744073709551615 ml/min for 1h");
    assert_eq!(infusion(rate(false, u64::MAX, 20), 1), "0.18446744073709551615 ml/min for 1h");
    assert_eq!(infusion(rate(false, u64::MAX, 21), 1), "0.018446744073709551615 ml/min for 1h");
}

#[test]
fn formatting_twice_gives_same_line() {
    assert_eq!(format_medication(paracetamol()), format_medication(paracetamol()));
    assert_eq!(format_medication(infliximab()), format_medication(infliximab()));
    let d = Dosage::Infusion { speed: rate(false, 75, 2), duration: 6 };
    assert_eq!(format_dosage(d), format_dosage(d));
}

#[test]
fn report_has_two_lines_in_order() {
    let lines = report_lines();
    assert_eq!(lines, vec!["Paracetamol: 1-0-2".to_string(), "Infliximab: 1.5 ml/min for 2h".to_string()]);
}

#[test]
fn sample_medications() {
    let p = paracetamol();
    assert_eq!(p.drug_name, "Paracetamol");
    assert_eq!(p.dosage, Dosage::Tablet { morning: 1, midday: 0, evening: 2 });
    let i = infliximab();
    assert_eq!(i.drug_name, "Infliximab");
    assert_eq!(i.dosage, Dosage::Infusion { speed: rate(false, 15, 1), duration: 2 });
}
