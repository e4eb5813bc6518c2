use weighty::dymo::Reading;
use weighty::dymo::ReadingUnit;
use weighty::units::Force;
use weighty::units::ScaledForce;

fn scaled_to_f64(s: &ScaledForce) -> f64 {
    (s.mantissa as f64) * 10f64.powi(s.exp10 as i32) / (s.divisor as f64)
}

#[test]
fn kilograms_from_one_thousand_grams() {
    let r = Reading { unit: ReadingUnit::Grams, raw: 1000, exponent: 0 };
    let kg = scaled_to_f64(&r.to_kilograms());
    assert!((kg - 1.0).abs() < 1e-9);
}

#[test]
fn pounds_from_one_thousand_grams() {
    let r = Reading { unit: ReadingUnit::Grams, raw: 1000, exponent: 0 };
    let lb = scaled_to_f64(&r.to_pounds());
    assert!((lb - 1000.0 / 453.592).abs() < 1e-9);
}

#[test]
fn pounds_from_sixteen_ounces() {
    let r = Reading { unit: ReadingUnit::Ounces, raw: 16, exponent: 0 };
    let lb = scaled_to_f64(&r.to_pounds());
    assert!((lb - 1.0).abs() < 1e-9);
}

#[test]
fn kilograms_from_ounces() {
    let r = Reading { unit: ReadingUnit::Ounces, raw: 1, exponent: 0 };
    let kg = scaled_to_f64(&r.to_kilograms());
    assert!((kg - 1.0 / 35.274).abs() < 1e-9);
}

#[test]
fn kilograms_respect_negative_exponent() {
    let r = Reading { unit: ReadingUnit::Grams, raw: 100, exponent: -1 };
    assert_eq!(r.to_kilograms(), ScaledForce { mantissa: 100, exp10: -4, divisor: 1 });
    let kg = scaled_to_f64(&r.to_kilograms());
    assert!((kg - 0.01).abs() < 1e-12);
}

#[test]
fn force_from_grams_is_kilogram_force() {
    let r = Reading { unit: ReadingUnit::Grams, raw: 1000, exponent: 0 };
    match r.to_force() {
        Force::KilogramForce(s) => {
            let kgf = scaled_to_f64(&s);
            assert!((kgf - 1.0).abs() < 1e-9);
        },
        Force::OunceForce(_) => panic!("grams must convert to kilogram-force"),
    }
}

#[test]
fn force_from_ounces_is_ounce_force() {
    let r = Reading { unit: ReadingUnit::Ounces, raw: 16, exponent: 0 };
    match r.to_force() {
        Force::OunceForce(s) => {
            assert_eq!(s, ScaledForce { mantissa: 16, exp10: 0, divisor: 1 });
        },
        Force::KilogramForce(_) => panic!("ounces must stay ounce-force"),
    }
}
