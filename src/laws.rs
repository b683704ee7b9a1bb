//! Properties of the rendering that relate its parts.
use vstd::prelude::*;
use crate::medication::{dosage_text, medication_text, Dosage, Medication};
use crate::numeral::{int_text, is_digit, lemma_digits_are_digits};
use crate::rate::{rate_text, Rate};

verus! {

/// A tablet schedule is the three counts, morning, midday and evening, joined
/// by hyphens. The text never ends in a hyphen, and where the counts are not
/// negative the only hyphens are the two that join them, so none leads.
pub proof fn lemma_tablet_text(morning: i32, midday: i32, evening: i32)
    ensures
        dosage_text(Dosage::Tablet { morning, midday, evening }) == int_text(morning as int)
            + seq!['-'] + int_text(midday as int) + seq!['-'] + int_text(evening as int),
        dosage_text(Dosage::Tablet { morning, midday, evening }).last() != '-',
        morning >= 0 && midday >= 0 && evening >= 0 ==> {
            let t = dosage_text(Dosage::Tablet { morning, midday, evening });
            let first = int_text(morning as int).len() as int;
            let second = first + 1 + int_text(midday as int).len();
            forall|k: int| 0 <= k < t.len() ==> (#[trigger] t[k] == '-' <==> (k == first || k == second))
        },
{
    reveal_strlit("-");
    let a = int_text(morning as int);
    let b = int_text(midday as int);
    let c = int_text(evening as int);
    let t = dosage_text(Dosage::Tablet { morning, midday, evening });
    assert(t =~= a + seq!['-'] + b + seq!['-'] + c);
    lemma_digits_are_digits((if evening < 0 { -evening } else { evening as int }) as nat);
    assert(t.last() == c.last());
    if morning >= 0 && midday >= 0 && evening >= 0 {
        lemma_digits_are_digits(morning as nat);
        lemma_digits_are_digits(midday as nat);
        let first = a.len() as int;
        let second = first + 1 + b.len();
        assert forall|k: int| 0 <= k < t.len() implies (#[trigger] t[k] == '-' <==> (k == first
            || k == second)) by {
            if k < first {
                assert(t[k] == a[k] && is_digit(a[k]));
            } else if first < k < second {
                assert(t[k] == b[k - first - 1] && is_digit(b[k - first - 1]));
            } else if k > second {
                assert(t[k] == c[k - second - 1] && is_digit(c[k - second - 1]));
            }
        }
    }
}

/// An infusion is the speed's text followed by ` ml/min for `, the duration
/// and `h`, with the units written exactly so.
pub proof fn lemma_infusion_text(speed: Rate, duration: i32)
    ensures
        dosage_text(Dosage::Infusion { speed, duration }) == rate_text(speed) + " ml/min for "@
            + int_text(duration as int) + "h"@,
{
}

/// A rate's text depends on its value, not on how many trailing zeros its
/// scale carries: `units / 10^scale` and `10 units / 10^(scale + 1)` read alike.
pub proof fn lemma_rate_text_ignores_trailing_zeros(negative: bool, units: u64, scale: u32)
    requires
        units * 10 <= u64::MAX,
        scale < u32::MAX,
    ensures
        rate_text(Rate { negative, units: (units * 10) as u64, scale: (scale + 1) as u32 })
            == rate_text(Rate { negative, units, scale }),
{
    assert((units * 10) as nat / 10 == units as nat);
}

/// Rendering is a function of the record's contents: two medications with
/// the same name and dosage give the same line.
pub proof fn lemma_format_deterministic(a: Medication, b: Medication)
    requires
        a.drug_name@ == b.drug_name@,
        a.dosage == b.dosage,
    ensures
        medication_text(a) == medication_text(b),
{
}

} // verus!
