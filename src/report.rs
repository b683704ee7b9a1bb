//! The program's two sample medications and the lines it prints for them.
use vstd::prelude::*;
use vstd::string::*;
use crate::medication::{format_medication, medication_text, Dosage, Medication};
use crate::numeral::{digits_of, pow10, zeros};
use crate::rate::{rate_text, trimmed, Rate};

verus! {

/// Paracetamol, one tablet in the morning and two in the evening.
pub fn paracetamol() -> (m: Medication)
    ensures
        m.drug_name@ == "Paracetamol"@,
        m.dosage == (Dosage::Tablet { morning: 1, midday: 0, evening: 2 }),
{
    Medication {
        drug_name: String::from_str("Paracetamol"),
        dosage: Dosage::Tablet { morning: 1, midday: 0, evening: 2 },
    }
}

/// Infliximab, infused at 1.5 ml/min for two hours.
pub fn infliximab() -> (m: Medication)
    ensures
        m.drug_name@ == "Infliximab"@,
        m.dosage == (Dosage::Infusion {
            speed: Rate { negative: false, units: 15, scale: 1 },
            duration: 2,
        }),
{
    Medication {
        drug_name: String::from_str("Infliximab"),
        dosage: Dosage::Infusion {
            speed: Rate { negative: false, units: 15, scale: 1 },
            duration: 2,
        },
    }
}

/// The lines that the program prints, in order: the Paracetamol line, then
/// the Infliximab line.
pub fn report_lines() -> (r: Vec<String>)
    ensures
        r@.len() == 2,
        r@[0]@ == "Paracetamol: 1-0-2"@,
        r@[1]@ == "Infliximab: 1.5 ml/min for 2h"@,
{
    let p = paracetamol();
    let i = infliximab();
    proof {
        reveal_strlit("Paracetamol");
        reveal_strlit("Infliximab");
        reveal_strlit(": ");
        reveal_strlit("-");
        reveal_strlit(" ml/min for ");
        reveal_strlit("h");
        reveal_strlit("Paracetamol: 1-0-2");
        reveal_strlit("Infliximab: 1.5 ml/min for 2h");
        assert(medication_text(p) =~= "Paracetamol: 1-0-2"@);
        let speed = Rate { negative: false, units: 15, scale: 1 };
        assert(pow10(1) == 10) by {
            reveal_with_fuel(pow10, 2);
        }
        assert(trimmed(15, 1) == (15nat, 1nat));
        assert(digits_of(5) =~= seq!['5']);
        assert(zeros(0) =~= Seq::<char>::empty());
        assert(rate_text(speed) =~= seq!['1', '.', '5']);
        assert(medication_text(i) =~= "Infliximab: 1.5 ml/min for 2h"@);
    }
    let mut lines: Vec<String> = Vec::new();
    lines.push(format_medication(p));
    lines.push(format_medication(i));
    lines
}

} // verus!
