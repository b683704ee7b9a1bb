//! The medication record and its one-line text.
use vstd::prelude::*;
use vstd::string::*;
use crate::numeral::{int_text, push_int};
use crate::rate::{push_rate, rate_text, Rate};

verus! {

/// How a medication is given: tablets three times a day, or an infusion.
#[derive(Clone, Copy, Debug, PartialEq, Eq)]
pub enum Dosage {
    /// Tablet counts for the morning, midday and evening doses.
    Tablet { morning: i32, midday: i32, evening: i32 },
    /// A flow rate in millilitres per minute, run for `duration` hours.
    Infusion { speed: Rate, duration: i32 },
}

/// A drug and how it is given.
#[derive(Debug, PartialEq, Eq)]
pub struct Medication {
    pub drug_name: String,
    pub dosage: Dosage,
}

/// The dosage text: `<morning>-<midday>-<evening>` for tablets,
/// `<speed> ml/min for <duration>h` for an infusion.
pub open spec fn dosage_text(d: Dosage) -> Seq<char> {
    match d {
        Dosage::Tablet { morning, midday, evening } => int_text(morning as int) + "-"@ + int_text(
            midday as int,
        ) + "-"@ + int_text(evening as int),
        Dosage::Infusion { speed, duration } => rate_text(speed) + " ml/min for "@ + int_text(
            duration as int,
        ) + "h"@,
    }
}

/// The line for a medication: `<drug_name>: <dosage text>`.
pub open spec fn medication_text(m: Medication) -> Seq<char> {
    m.drug_name@ + ": "@ + dosage_text(m.dosage)
}

/// Renders a dosage as its text.
pub fn format_dosage(dosage: Dosage) -> (r: String)
    ensures
        r@ == dosage_text(dosage),
{
    let mut s = String::new();
    match dosage {
        Dosage::Tablet { morning, midday, evening } => {
            push_int(&mut s, morning);
            s.append("-");
            push_int(&mut s, midday);
            s.append("-");
            push_int(&mut s, evening);
        },
        Dosage::Infusion { speed, duration } => {
            push_rate(&mut s, &speed);
            s.append(" ml/min for ");
            push_int(&mut s, duration);
            s.append("h");
        },
    }
    proof {
        assert(s@ =~= dosage_text(dosage));
    }
    s
}

/// Renders a medication as `<drug_name>: <dosage text>`.
pub fn format_medication(m: Medication) -> (r: String)
    ensures
        r@ == medication_text(m),
{
    let dosage = format_dosage(m.dosage);
    let mut s = m.drug_name;
    s.append(": ");
    s.append(dosage.as_str());
    proof {
        assert(s@ =~= medication_text(m));
    }
    s
}

} // verus!
