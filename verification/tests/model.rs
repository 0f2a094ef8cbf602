use med_ledger::model::{
    clamped_at_zero, drugs_to_display, whole_weeks, DailyPills, Drug, DrugComponent, DrugToDisplay,
};
use med_ledger::rational::{Rational, RationalError};

fn frac(n: i64, d: i64) -> Rational {
    Rational::create(n, d).unwrap()
}

fn drug(name: &str, remaining: Rational, doses: [Rational; 4], show: bool) -> Drug {
    Drug::new(
        name.to_owned(),
        vec![DrugComponent::new("acetylsalicylic acid".to_owned(), frac(100, 1), "mg".to_owned())],
        "one with breakfast".to_owned(),
        remaining,
        doses[0],
        doses[1],
        doses[2],
        doses[3],
        frac(30, 1),
        frac(3, 1),
        show,
        Some("front.jpg".to_owned()),
        None,
        true,
        Drug::default_in_replenishment_cycle(),
    )
}

fn no_doses() -> [Rational; 4] {
    [Rational::zero(), Rational::zero(), Rational::zero(), Rational::zero()]
}

#[test]
fn a_record_gives_back_what_it_was_made_of() {
    let d = drug("Aspirin", frac(5, 2), [frac(1, 1), frac(1, 2), frac(0, 1), frac(1, 4)], true);
    assert_eq!(d.trade_name(), "Aspirin");
    assert_eq!(d.components().len(), 1);
    assert_eq!(d.components()[0].generic_name(), "acetylsalicylic acid");
    assert_eq!(d.components()[0].amount(), frac(100, 1));
    assert_eq!(d.components()[0].unit(), "mg");
    assert_eq!(d.description(), "one with breakfast");
    assert_eq!(d.remaining(), frac(5, 2));
    assert_eq!(d.dosage_morning(), frac(1, 1));
    assert_eq!(d.dosage_noon(), frac(1, 2));
    assert_eq!(d.dosage_evening(), frac(0, 1));
    assert_eq!(d.dosage_night(), frac(1, 4));
    assert_eq!(d.units_per_package(), frac(30, 1));
    assert_eq!(d.packages_per_prescription(), frac(3, 1));
    assert!(d.show());
    assert_eq!(d.obverse_photo(), Some("front.jpg"));
    assert_eq!(d.reverse_photo(), None);
    assert!(d.is_pill());
    assert!(d.in_replenishment_cycle());
    assert!(Drug::default_in_replenishment_cycle());
    assert_eq!(d.clone(), d);
}

#[test]
fn doses_add_up() {
    let d = drug("Aspirin", frac(5, 2), [frac(1, 1), frac(1, 2), frac(0, 1), frac(1, 4)], true);
    assert_eq!(d.total_dosage_day(), Ok(frac(7, 4)));
    assert_eq!(d.total_dosage_week(), Ok(frac(49, 4)));
    assert_eq!(d.units_per_prescription(), Ok(frac(90, 1)));
    let heavy = drug("Heavy", frac(1, 1), [frac(i64::MAX, 1), frac(1, 1), frac(0, 1), frac(0, 1)], true);
    assert_eq!(heavy.total_dosage_day(), Err(RationalError::ArithmeticOverflow));
    assert_eq!(heavy.total_dosage_week(), Err(RationalError::ArithmeticOverflow));
    assert_eq!(heavy.remaining_weeks(), Err(RationalError::ArithmeticOverflow));
    assert_eq!(heavy.weeks_per_prescription(), Err(RationalError::ArithmeticOverflow));
}

#[test]
fn reduce_stops_at_zero() {
    let mut d = drug("Aspirin", frac(5, 1), no_doses(), true);
    assert_eq!(d.reduce(&frac(7, 1)), Ok(()));
    assert_eq!(d.remaining(), frac(0, 1));
    let mut d = drug("Aspirin", frac(5, 1), no_doses(), true);
    assert_eq!(d.reduce(&frac(5, 1)), Ok(()));
    assert_eq!(d.remaining(), frac(0, 1));
    let mut d = drug("Aspirin", frac(5, 1), no_doses(), true);
    assert_eq!(d.reduce(&frac(3, 2)), Ok(()));
    assert_eq!(d.remaining(), frac(7, 2));
    assert_eq!(d.trade_name(), "Aspirin");
}

#[test]
fn replenish_adds() {
    let mut d = drug("Aspirin", frac(2, 3), no_doses(), true);
    assert_eq!(d.replenish(&frac(1, 3)), Ok(()));
    assert_eq!(d.remaining(), frac(1, 1));
    let mut d = drug("Aspirin", frac(i64::MAX, 1), no_doses(), true);
    assert_eq!(d.replenish(&frac(1, 1)), Err(RationalError::ArithmeticOverflow));
    assert_eq!(d.remaining(), frac(i64::MAX, 1));
}

#[test]
fn weeks_of_supply() {
    let d = drug("Aspirin", frac(14, 1), [frac(1, 1), frac(1, 2), frac(0, 1), frac(1, 2)], true);
    assert_eq!(d.total_dosage_day(), Ok(frac(2, 1)));
    assert_eq!(d.remaining_weeks(), Ok(Some(1)));
    assert_eq!(d.weeks_per_prescription(), Ok(Some(6)));
    let d = drug("Aspirin", frac(27, 1), [frac(1, 1), frac(1, 2), frac(0, 1), frac(1, 2)], true);
    assert_eq!(d.remaining_weeks(), Ok(Some(1)));
    let d = drug("Aspirin", frac(28, 1), [frac(1, 1), frac(1, 2), frac(0, 1), frac(1, 2)], true);
    assert_eq!(d.remaining_weeks(), Ok(Some(2)));
    let d = drug("Aspirin", frac(13, 1), [frac(1, 1), frac(1, 2), frac(0, 1), frac(1, 2)], true);
    assert_eq!(d.remaining_weeks(), Ok(Some(0)));
    let d = drug("Aspirin", frac(0, 1), [frac(1, 3), frac(0, 1), frac(0, 1), frac(0, 1)], true);
    assert_eq!(d.remaining_weeks(), Ok(Some(0)));
    assert_eq!(d.weeks_per_prescription(), Ok(Some(38)));
}

#[test]
fn no_dose_no_weeks() {
    let d = drug("Salve", frac(14, 1), no_doses(), true);
    assert_eq!(d.remaining_weeks(), Ok(None));
    assert_eq!(d.weeks_per_prescription(), Ok(None));
    assert_eq!(whole_weeks(&frac(14, 1), &Rational::zero()), Ok(None));
    assert_eq!(whole_weeks(&frac(14, 1), &frac(-1, 1)), Ok(None));
    assert_eq!(whole_weeks(&frac(14, 1), &frac(7, 2)), Ok(Some(4)));
}

#[test]
fn rows_are_made_for_the_records_to_show() {
    let ledger = vec![
        drug("A", frac(14, 1), [frac(2, 1), frac(0, 1), frac(0, 1), frac(0, 1)], true),
        drug("B", frac(1, 1), [frac(1, 1), frac(0, 1), frac(0, 1), frac(0, 1)], false),
        drug("C", frac(3, 1), no_doses(), true),
    ];
    let rows = drugs_to_display(&ledger).unwrap();
    assert_eq!(rows.len(), 2);
    assert_eq!(rows[0].index(), 0);
    assert_eq!(rows[0].drug(), &ledger[0]);
    assert_eq!(rows[0].remaining_weeks(), Some(1));
    assert_eq!(rows[0].weeks_per_prescription(), Some(6));
    assert_eq!(rows[1].index(), 2);
    assert_eq!(rows[1].drug(), &ledger[2]);
    assert_eq!(rows[1].remaining_weeks(), None);
    assert_eq!(rows[1].weeks_per_prescription(), None);
    assert_eq!(drugs_to_display(&Vec::new()), Ok(Vec::new()));
    assert_eq!(
        DrugToDisplay::of_record(2, &ledger[2]),
        Ok(DrugToDisplay::new(2, ledger[2].clone(), None, None))
    );
}

#[test]
fn a_record_that_cannot_be_computed_fails_the_rows() {
    let ledger = vec![
        drug("A", frac(14, 1), [frac(2, 1), frac(0, 1), frac(0, 1), frac(0, 1)], true),
        drug("B", frac(1, 1), [frac(i64::MAX, 1), frac(1, 1), frac(0, 1), frac(0, 1)], true),
    ];
    assert_eq!(drugs_to_display(&ledger), Err(RationalError::ArithmeticOverflow));
}

#[test]
fn replenishment_is_needed_below_the_minimum() {
    let d = drug("A", frac(14, 1), no_doses(), true);
    let row = DrugToDisplay::new(0, d.clone(), Some(3), Some(12));
    assert!(row.needs_replenishment(&Some(4)));
    assert!(!row.needs_replenishment(&Some(3)));
    assert!(!row.needs_replenishment(&Some(2)));
    assert!(!row.needs_replenishment(&None));
    let row = DrugToDisplay::new(0, d, None, None);
    assert!(!row.needs_replenishment(&Some(4)));
    assert!(!row.needs_replenishment(&None));
}

#[test]
fn pills_are_counted_whole() {
    let mut pills = DailyPills::new(1, 2, 3, 4);
    assert_eq!((pills.morning(), pills.noon(), pills.evening(), pills.night()), (1, 2, 3, 4));
    pills.increase_morning(&frac(1, 2));
    assert_eq!((pills.morning(), pills.noon(), pills.evening(), pills.night()), (2, 2, 3, 4));
    pills.increase_noon(&frac(3, 1));
    assert_eq!((pills.morning(), pills.noon(), pills.evening(), pills.night()), (2, 5, 3, 4));
    pills.increase_evening(&frac(7, 3));
    assert_eq!((pills.morning(), pills.noon(), pills.evening(), pills.night()), (2, 5, 6, 4));
    pills.increase_night(&frac(0, 1));
    assert_eq!((pills.morning(), pills.noon(), pills.evening(), pills.night()), (2, 5, 6, 4));
    pills.increase_night(&frac(-5, 2));
    assert_eq!((pills.morning(), pills.noon(), pills.evening(), pills.night()), (2, 5, 6, 4));
    pills.increase_night(&frac(-1, 2));
    assert_eq!((pills.morning(), pills.noon(), pills.evening(), pills.night()), (2, 5, 6, 4));
    pills.increase_night(&frac(i64::MAX, 1));
    assert_eq!(pills.night(), 4 + i64::MAX as u64);
}

#[test]
fn a_record_with_nothing_below_zero_is_sound() {
    let doses = [frac(1, 1), frac(1, 2), frac(0, 1), frac(1, 4)];
    assert!(drug("A", frac(5, 2), doses, true).is_sound());
    assert!(drug("A", frac(0, 1), no_doses(), false).is_sound());
    assert!(!drug("A", frac(-1, 2), doses, true).is_sound());
    assert!(!drug("A", frac(1, 2), [frac(-1, 1), frac(0, 1), frac(0, 1), frac(0, 1)], true).is_sound());
    assert!(!drug("A", frac(1, 2), [frac(0, 1), frac(-1, 3), frac(0, 1), frac(0, 1)], true).is_sound());
    assert!(!drug("A", frac(1, 2), [frac(0, 1), frac(0, 1), frac(-1, 3), frac(0, 1)], true).is_sound());
    assert!(!drug("A", frac(1, 2), [frac(0, 1), frac(0, 1), frac(0, 1), frac(-1, 3)], true).is_sound());
    let mut d = drug("A", frac(1, 2), doses, true);
    d.reduce(&frac(3, 1)).unwrap();
    assert!(d.is_sound());
    d.replenish(&frac(1, 3)).unwrap();
    assert!(d.is_sound());
    assert_eq!(d.remaining(), frac(1, 3));
}

#[test]
fn what_is_left_does_not_go_below_zero() {
    assert_eq!(clamped_at_zero(frac(-2, 1)), frac(0, 1));
    assert_eq!(clamped_at_zero(frac(-1, i64::MAX)), frac(0, 1));
    assert_eq!(clamped_at_zero(frac(i64::MIN, 1)), frac(0, 1));
    assert_eq!(clamped_at_zero(frac(0, 1)), frac(0, 1));
    assert_eq!(clamped_at_zero(frac(2, 1)), frac(2, 1));
    assert_eq!(clamped_at_zero(frac(1, 3)), frac(1, 3));
}

#[test]
fn doses_add_up_in_any_order() {
    let doses = [frac(1, 2), frac(2, 3), frac(5, 7), frac(0, 1)];
    let expected = drug("A", frac(1, 1), doses, true).total_dosage_day();
    assert_eq!(expected, Ok(frac(79, 42)));
    for i in 0..4 {
        for j in 0..4 {
            for k in 0..4 {
                for l in 0..4 {
                    let mut seen = [false; 4];
                    seen[i] = true;
                    seen[j] = true;
                    seen[k] = true;
                    seen[l] = true;
                    if seen.iter().all(|s| *s) {
                        let d = drug("A", frac(1, 1), [doses[i], doses[j], doses[k], doses[l]], true);
                        assert_eq!(d.total_dosage_day(), expected);
                    }
                }
            }
        }
    }
    let two = drug("A", frac(1, 1), [frac(1, 2), frac(0, 1), frac(2, 3), frac(0, 1)], true);
    assert_eq!(two.total_dosage_day(), frac(1, 2).add(&frac(2, 3)));
}
