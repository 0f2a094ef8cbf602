//! The ledger's records and what is derived from them for display.

use crate::fraction::{
    law_plus_commutes, law_plus_is_associative, lemma_gcd_with_one,
    lemma_plus_of_positive_is_positive, lemma_reduced_in_lowest_terms,
    lemma_results_have_positive_denominators, lemma_zero_is_neutral, Fraction,
};
use crate::rational::{
    checked_minus, checked_over, checked_plus, checked_times, outcome, Rational, RationalError,
};
use vstd::prelude::*;

verus! {

/// What a `DrugComponent` holds, as mathematics has it.
pub struct ComponentView {
    pub generic_name: Seq<char>,
    pub amount: Fraction,
    pub unit: Seq<char>,
}

/// One active substance of a drug: how much of what.
#[derive(Debug, PartialEq, Eq, Hash)]
pub struct DrugComponent {
    generic_name: String,
    amount: Rational,
    unit: String,
}

impl View for DrugComponent {
    type V = ComponentView;

    closed spec fn view(&self) -> ComponentView {
        ComponentView {
            generic_name: self.generic_name@,
            amount: self.amount@,
            unit: self.unit@,
        }
    }
}

impl Clone for DrugComponent {
    fn clone(&self) -> (c: DrugComponent)
        ensures
            c@ == self@,
    {
        DrugComponent {
            generic_name: self.generic_name.clone(),
            amount: self.amount,
            unit: self.unit.clone(),
        }
    }
}

impl DrugComponent {
    pub fn new(generic_name: String, amount: Rational, unit: String) -> (c: DrugComponent)
        ensures
            c@ == (ComponentView { generic_name: generic_name@, amount: amount@, unit: unit@ }),
    {
        DrugComponent { generic_name, amount, unit }
    }

    pub fn generic_name(&self) -> (s: &str)
        ensures
            s@ == self@.generic_name,
    {
        self.generic_name.as_str()
    }

    pub fn amount(&self) -> (a: Rational)
        ensures
            a@ == self@.amount,
    {
        self.amount
    }

    pub fn unit(&self) -> (s: &str)
        ensures
            s@ == self@.unit,
    {
        self.unit.as_str()
    }
}

/// The views of a list of components, in order.
pub open spec fn component_views(components: Seq<DrugComponent>) -> Seq<ComponentView> {
    components.map_values(|c: DrugComponent| c@)
}

/// What a `Drug` holds, as mathematics has it.
pub struct DrugView {
    pub trade_name: Seq<char>,
    pub components: Seq<ComponentView>,
    pub description: Seq<char>,
    pub remaining: Fraction,
    pub dosage_morning: Fraction,
    pub dosage_noon: Fraction,
    pub dosage_evening: Fraction,
    pub dosage_night: Fraction,
    pub units_per_package: Fraction,
    pub packages_per_prescription: Fraction,
    pub show: bool,
    pub obverse_photo: Option<Seq<char>>,
    pub reverse_photo: Option<Seq<char>>,
    pub is_pill: bool,
    pub in_replenishment_cycle: bool,
}

impl DrugView {
    /// What the ledger asks of a record: nothing below zero, neither what
    /// remains nor any dose, and every denominator above zero.
    pub open spec fn sound(self) -> bool {
        &&& self.remaining.den > 0 && self.remaining.num >= 0
        &&& self.dosage_morning.den > 0 && self.dosage_morning.num >= 0
        &&& self.dosage_noon.den > 0 && self.dosage_noon.num >= 0
        &&& self.dosage_evening.den > 0 && self.dosage_evening.num >= 0
        &&& self.dosage_night.den > 0 && self.dosage_night.num >= 0
    }

    /// Whether each of the four doses of a day is zero.
    pub open spec fn takes_no_dose(self) -> bool {
        &&& self.dosage_morning.is_zero()
        &&& self.dosage_noon.is_zero()
        &&& self.dosage_evening.is_zero()
        &&& self.dosage_night.is_zero()
    }

    /// The four doses of a day, added up in the order of the day.
    pub open spec fn total_dosage_day(self) -> Result<Fraction, RationalError> {
        match checked_plus(self.dosage_morning, self.dosage_noon) {
            Err(e) => Err(e),
            Ok(until_noon) => match checked_plus(until_noon, self.dosage_evening) {
                Err(e) => Err(e),
                Ok(until_evening) => checked_plus(until_evening, self.dosage_night),
            },
        }
    }

    /// The units that one prescription brings: units per package times
    /// packages.
    pub open spec fn units_per_prescription(self) -> Result<Fraction, RationalError> {
        checked_times(self.units_per_package, self.packages_per_prescription)
    }

    /// The units that a week takes: seven times the doses of a day.
    pub open spec fn total_dosage_week(self) -> Result<Fraction, RationalError> {
        match self.total_dosage_day() {
            Err(e) => Err(e),
            Ok(day) => checked_times(day, Fraction::integer(7)),
        }
    }

    /// The record with `subtrahend` taken from what remains, but never below
    /// zero.
    pub open spec fn reduced_by(self, subtrahend: Fraction) -> Result<DrugView, RationalError> {
        match checked_minus(self.remaining, subtrahend) {
            Err(e) => Err(e),
            Ok(left) => Ok(DrugView { remaining: at_least_zero(left), ..self }),
        }
    }

    /// The record with `addend` added to what remains.
    pub open spec fn replenished_by(self, addend: Fraction) -> Result<DrugView, RationalError> {
        match checked_plus(self.remaining, addend) {
            Err(e) => Err(e),
            Ok(more) => Ok(DrugView { remaining: more, ..self }),
        }
    }

    /// The whole weeks that the remaining stock lasts; none where no dose is
    /// taken.
    pub open spec fn remaining_weeks(self) -> Result<Option<int>, RationalError> {
        match self.total_dosage_week() {
            Err(e) => Err(e),
            Ok(weekly) => full_weeks(self.remaining, weekly),
        }
    }

    /// The whole weeks that one prescription lasts; none where no dose is
    /// taken.
    pub open spec fn weeks_per_prescription(self) -> Result<Option<int>, RationalError> {
        match self.total_dosage_week() {
            Err(e) => Err(e),
            Ok(weekly) => if !weekly.is_positive() {
                Ok(None)
            } else {
                match self.units_per_prescription() {
                    Err(e) => Err(e),
                    Ok(units) => full_weeks(units, weekly),
                }
            },
        }
    }
}

/// A quantity, or zero in its place where it is below zero.
pub open spec fn at_least_zero(quantity: Fraction) -> Fraction {
    if quantity.is_negative() {
        Fraction::zero()
    } else {
        quantity
    }
}

/// What is left of a stock after something was taken from it: the
/// difference, but zero where that is below zero.
pub fn clamped_at_zero(left: Rational) -> (r: Rational)
    ensures
        r@ == at_least_zero(left@),
{
    if left.is_negative() {
        Rational::zero()
    } else {
        left
    }
}

/// The whole weeks that `stock` lasts at `weekly` units a week: none where
/// nothing is taken, else the quotient without its fraction.
pub open spec fn full_weeks(stock: Fraction, weekly: Fraction) -> Result<
    Option<int>,
    RationalError,
> {
    if !weekly.is_positive() {
        Ok(None)
    } else {
        match checked_over(stock, weekly) {
            Err(e) => Err(e),
            Ok(weeks) => Ok(Some(weeks.truncated())),
        }
    }
}

/// A drug of the ledger: what it is, how it is dosed and how much is left.
#[derive(Debug, PartialEq, Eq, Hash)]
pub struct Drug {
    trade_name: String,
    components: Vec<DrugComponent>,
    description: String,
    remaining: Rational,
    dosage_morning: Rational,
    dosage_noon: Rational,
    dosage_evening: Rational,
    dosage_night: Rational,
    units_per_package: Rational,
    packages_per_prescription: Rational,
    show: bool,
    obverse_photo: Option<String>,
    reverse_photo: Option<String>,
    is_pill: bool,
    in_replenishment_cycle: bool,
}

/// A text that may be absent, by its characters.
pub open spec fn optional_text(text: Option<String>) -> Option<Seq<char>> {
    match text {
        Some(s) => Some(s@),
        None => None,
    }
}

impl View for Drug {
    type V = DrugView;

    closed spec fn view(&self) -> DrugView {
        DrugView {
            trade_name: self.trade_name@,
            components: component_views(self.components@),
            description: self.description@,
            remaining: self.remaining@,
            dosage_morning: self.dosage_morning@,
            dosage_noon: self.dosage_noon@,
            dosage_evening: self.dosage_evening@,
            dosage_night: self.dosage_night@,
            units_per_package: self.units_per_package@,
            packages_per_prescription: self.packages_per_prescription@,
            show: self.show,
            obverse_photo: optional_text(self.obverse_photo),
            reverse_photo: optional_text(self.reverse_photo),
            is_pill: self.is_pill,
            in_replenishment_cycle: self.in_replenishment_cycle,
        }
    }
}

/// A copy of a text that may be absent.
fn clone_optional_text(text: &Option<String>) -> (copy: Option<String>)
    ensures
        optional_text(copy) == optional_text(*text),
{
    match text {
        Some(s) => Some(s.clone()),
        None => None,
    }
}

/// A copy of a list of components.
fn clone_components(components: &Vec<DrugComponent>) -> (copy: Vec<DrugComponent>)
    ensures
        component_views(copy@) == component_views(components@),
{
    let mut copy: Vec<DrugComponent> = Vec::new();
    let mut i: usize = 0;
    while i < components.len()
        invariant
            i <= components.len(),
            copy.len() == i,
            forall|j: int| 0 <= j < i ==> copy@[j]@ == components@[j]@,
        decreases components.len() - i,
    {
        copy.push(components[i].clone());
        i += 1;
    }
    assert(component_views(copy@) =~= component_views(components@));
    copy
}

impl Clone for Drug {
    fn clone(&self) -> (d: Drug)
        ensures
            d@ == self@,
    {
        Drug {
            trade_name: self.trade_name.clone(),
            components: clone_components(&self.components),
            description: self.description.clone(),
            remaining: self.remaining,
            dosage_morning: self.dosage_morning,
            dosage_noon: self.dosage_noon,
            dosage_evening: self.dosage_evening,
            dosage_night: self.dosage_night,
            units_per_package: self.units_per_package,
            packages_per_prescription: self.packages_per_prescription,
            show: self.show,
            obverse_photo: clone_optional_text(&self.obverse_photo),
            reverse_photo: clone_optional_text(&self.reverse_photo),
            is_pill: self.is_pill,
            in_replenishment_cycle: self.in_replenishment_cycle,
        }
    }
}

impl Drug {
    pub fn new(
        trade_name: String,
        components: Vec<DrugComponent>,
        description: String,
        remaining: Rational,
        dosage_morning: Rational,
        dosage_noon: Rational,
        dosage_evening: Rational,
        dosage_night: Rational,
        units_per_package: Rational,
        packages_per_prescription: Rational,
        show: bool,
        obverse_photo: Option<String>,
        reverse_photo: Option<String>,
        is_pill: bool,
        in_replenishment_cycle: bool,
    ) -> (d: Drug)
        ensures
            d@ == (DrugView {
                trade_name: trade_name@,
                components: component_views(components@),
                description: description@,
                remaining: remaining@,
                dosage_morning: dosage_morning@,
                dosage_noon: dosage_noon@,
                dosage_evening: dosage_evening@,
                dosage_night: dosage_night@,
                units_per_package: units_per_package@,
                packages_per_prescription: packages_per_prescription@,
                show,
                obverse_photo: optional_text(obverse_photo),
                reverse_photo: optional_text(reverse_photo),
                is_pill,
                in_replenishment_cycle,
            }),
    {
        Drug {
            trade_name,
            components,
            description,
            remaining,
            dosage_morning,
            dosage_noon,
            dosage_evening,
            dosage_night,
            units_per_package,
            packages_per_prescription,
            show,
            obverse_photo,
            reverse_photo,
            is_pill,
            in_replenishment_cycle,
        }
    }

    pub fn trade_name(&self) -> (s: &str)
        ensures
            s@ == self@.trade_name,
    {
        self.trade_name.as_str()
    }

    pub fn components(&self) -> (c: &Vec<DrugComponent>)
        ensures
            component_views(c@) == self@.components,
    {
        &self.components
    }

    pub fn description(&self) -> (s: &str)
        ensures
            s@ == self@.description,
    {
        self.description.as_str()
    }

    pub fn remaining(&self) -> (r: Rational)
        ensures
            r@ == self@.remaining,
    {
        self.remaining
    }

    pub fn dosage_morning(&self) -> (r: Rational)
        ensures
            r@ == self@.dosage_morning,
    {
        self.dosage_morning
    }

    pub fn dosage_noon(&self) -> (r: Rational)
        ensures
            r@ == self@.dosage_noon,
    {
        self.dosage_noon
    }

    pub fn dosage_evening(&self) -> (r: Rational)
        ensures
            r@ == self@.dosage_evening,
    {
        self.dosage_evening
    }

    pub fn dosage_night(&self) -> (r: Rational)
        ensures
            r@ == self@.dosage_night,
    {
        self.dosage_night
    }

    pub fn units_per_package(&self) -> (r: Rational)
        ensures
            r@ == self@.units_per_package,
    {
        self.units_per_package
    }

    pub fn packages_per_prescription(&self) -> (r: Rational)
        ensures
            r@ == self@.packages_per_prescription,
    {
        self.packages_per_prescription
    }

    pub fn show(&self) -> (b: bool)
        ensures
            b == self@.show,
    {
        self.show
    }

    pub fn obverse_photo(&self) -> (s: Option<&str>)
        ensures
            match s {
                Some(text) => self@.obverse_photo == Some(text@),
                None => self@.obverse_photo is None,
            },
    {
        match &self.obverse_photo {
            Some(text) => Some(text.as_str()),
            None => None,
        }
    }

    pub fn reverse_photo(&self) -> (s: Option<&str>)
        ensures
            match s {
                Some(text) => self@.reverse_photo == Some(text@),
                None => self@.reverse_photo is None,
            },
    {
        match &self.reverse_photo {
            Some(text) => Some(text.as_str()),
            None => None,
        }
    }

    pub fn is_pill(&self) -> (b: bool)
        ensures
            b == self@.is_pill,
    {
        self.is_pill
    }

    pub fn in_replenishment_cycle(&self) -> (b: bool)
        ensures
            b == self@.in_replenishment_cycle,
    {
        self.in_replenishment_cycle
    }

    /// What a record is taken to say where it does not say whether the drug
    /// is in the replenishment cycle.
    pub fn default_in_replenishment_cycle() -> (b: bool)
        ensures
            b,
    {
        true
    }

    /// Whether nothing in the record is below zero: what remains, and each of
    /// the four doses.
    pub fn is_sound(&self) -> (b: bool)
        ensures
            b == self@.sound(),
    {
        proof {
            use_type_invariant(&self.remaining);
            use_type_invariant(&self.dosage_morning);
            use_type_invariant(&self.dosage_noon);
            use_type_invariant(&self.dosage_evening);
            use_type_invariant(&self.dosage_night);
        }
        !self.remaining.is_negative() && !self.dosage_morning.is_negative()
            && !self.dosage_noon.is_negative() && !self.dosage_evening.is_negative()
            && !self.dosage_night.is_negative()
    }

    /// The sum of the four doses of a day. Four doses of zero always add up,
    /// to zero.
    pub fn total_dosage_day(&self) -> (r: Result<Rational, RationalError>)
        ensures
            outcome(r) == self@.total_dosage_day(),
            self@.takes_no_dose() ==> (r matches Ok(total) && total@.is_zero()),
    {
        let until_noon = self.dosage_morning.add(&self.dosage_noon)?;
        let until_evening = until_noon.add(&self.dosage_evening)?;
        until_evening.add(&self.dosage_night)
    }

    /// The units of one prescription.
    pub fn units_per_prescription(&self) -> (r: Result<Rational, RationalError>)
        ensures
            outcome(r) == self@.units_per_prescription(),
    {
        self.units_per_package.multiply(&self.packages_per_prescription)
    }

    /// The units that a week takes. A week of no doses takes zero.
    pub fn total_dosage_week(&self) -> (r: Result<Rational, RationalError>)
        ensures
            outcome(r) == self@.total_dosage_week(),
            self@.takes_no_dose() ==> (r matches Ok(total) && total@.is_zero()),
    {
        let day = self.total_dosage_day()?;
        day.multiply(&Rational::from_integer(7))
    }

    /// Takes `subtrahend`, which is above zero, from what remains; what
    /// remains does not go below zero. On overflow nothing changes.
    pub fn reduce(&mut self, subtrahend: &Rational) -> (r: Result<(), RationalError>)
        requires
            subtrahend@.is_positive(),
        ensures
            match old(self)@.reduced_by(subtrahend@) {
                Ok(after) => r is Ok && final(self)@ == after,
                Err(e) => r == Err::<(), RationalError>(e) && *final(self) == *old(self),
            },
            r is Ok ==> !final(self)@.remaining.is_negative(),
    {
        let left = self.remaining.subtract(subtrahend)?;
        self.remaining = clamped_at_zero(left);
        Ok(())
    }

    /// Adds `addend`, which is above zero, to what remains. On overflow
    /// nothing changes. A stock that was not below zero is above zero
    /// afterwards.
    pub fn replenish(&mut self, addend: &Rational) -> (r: Result<(), RationalError>)
        requires
            addend@.is_positive(),
        ensures
            match old(self)@.replenished_by(addend@) {
                Ok(after) => r is Ok && final(self)@ == after,
                Err(e) => r == Err::<(), RationalError>(e) && *final(self) == *old(self),
            },
            r is Ok && !old(self)@.remaining.is_negative() ==> final(self)@.remaining.is_positive(),
    {
        proof {
            use_type_invariant(&self.remaining);
            use_type_invariant(addend);
            if !self.remaining@.is_negative() {
                lemma_plus_of_positive_is_positive(self.remaining@, addend@);
            }
        }
        self.remaining = self.remaining.add(addend)?;
        Ok(())
    }

    /// The whole weeks that the remaining stock lasts; none where no dose is
    /// taken.
    pub fn remaining_weeks(&self) -> (r: Result<Option<i64>, RationalError>)
        ensures
            weeks_outcome(r) == self@.remaining_weeks(),
            self@.takes_no_dose() ==> r == Ok::<Option<i64>, RationalError>(None),
    {
        let weekly = self.total_dosage_week()?;
        whole_weeks(&self.remaining, &weekly)
    }

    /// The whole weeks that one prescription lasts; none where no dose is
    /// taken.
    pub fn weeks_per_prescription(&self) -> (r: Result<Option<i64>, RationalError>)
        ensures
            weeks_outcome(r) == self@.weeks_per_prescription(),
            self@.takes_no_dose() ==> r == Ok::<Option<i64>, RationalError>(None),
    {
        let weekly = self.total_dosage_week()?;
        if weekly.is_positive() {
            let units = self.units_per_prescription()?;
            whole_weeks(&units, &weekly)
        } else {
            Ok(None)
        }
    }
}

/// A count of weeks as contracts speak of it: by its value.
pub open spec fn weeks_outcome(r: Result<Option<i64>, RationalError>) -> Result<
    Option<int>,
    RationalError,
> {
    match r {
        Ok(Some(w)) => Ok(Some(w as int)),
        Ok(None) => Ok(None),
        Err(e) => Err(e),
    }
}

/// The whole weeks that `stock` lasts at `weekly` units a week.
pub fn whole_weeks(stock: &Rational, weekly: &Rational) -> (r: Result<Option<i64>, RationalError>)
    ensures
        weeks_outcome(r) == full_weeks(stock@, weekly@),
{
    if weekly.is_positive() {
        let weeks = stock.divide(weekly)?;
        Ok(Some(weeks.to_integer()))
    } else {
        Ok(None)
    }
}

/// What a `DrugToDisplay` holds, as mathematics has it.
pub struct DisplayView {
    pub index: int,
    pub drug: DrugView,
    pub remaining_weeks: Option<int>,
    pub weeks_per_prescription: Option<int>,
}

/// What is shown of the record at `index`: the record as it stands, and the
/// two counts of weeks derived from it.
#[verifier::opaque]
pub open spec fn display_of(index: int, drug: DrugView) -> Result<DisplayView, RationalError> {
    match drug.remaining_weeks() {
        Err(e) => Err(e),
        Ok(remaining_weeks) => match drug.weeks_per_prescription() {
            Err(e) => Err(e),
            Ok(weeks_per_prescription) => Ok(
                DisplayView { index, drug, remaining_weeks, weeks_per_prescription },
            ),
        },
    }
}

/// What is shown of a ledger: the records that are to be shown, in the
/// ledger's order, each under its place in the ledger. The first record that
/// cannot be computed fails the whole.
pub open spec fn displayed(ledger: Seq<DrugView>) -> Result<Seq<DisplayView>, RationalError>
    decreases ledger.len(),
{
    if ledger.len() == 0 {
        Ok(Seq::empty())
    } else {
        match displayed(ledger.drop_last()) {
            Err(e) => Err(e),
            Ok(rows) => if !ledger.last().show {
                Ok(rows)
            } else {
                match display_of(ledger.len() - 1, ledger.last()) {
                    Err(e) => Err(e),
                    Ok(row) => Ok(rows.push(row)),
                }
            },
        }
    }
}

/// The views of a ledger's records, in order.
pub open spec fn ledger_view(ledger: Seq<Drug>) -> Seq<DrugView> {
    ledger.map_values(|d: Drug| d@)
}

/// A record as it is shown: a copy of the record, where it stands in the
/// ledger, and how long the stock and a prescription last.
#[derive(Debug, PartialEq, Eq, Hash)]
pub struct DrugToDisplay {
    pub index: usize,
    pub drug: Drug,
    pub remaining_weeks: Option<i64>,
    pub weeks_per_prescription: Option<i64>,
}

/// A count of weeks that may be absent, by its value.
pub open spec fn optional_weeks(weeks: Option<i64>) -> Option<int> {
    match weeks {
        Some(w) => Some(w as int),
        None => None,
    }
}

impl View for DrugToDisplay {
    type V = DisplayView;

    open spec fn view(&self) -> DisplayView {
        DisplayView {
            index: self.index as int,
            drug: self.drug@,
            remaining_weeks: optional_weeks(self.remaining_weeks),
            weeks_per_prescription: optional_weeks(self.weeks_per_prescription),
        }
    }
}

impl Clone for DrugToDisplay {
    fn clone(&self) -> (d: DrugToDisplay)
        ensures
            d@ == self@,
    {
        DrugToDisplay {
            index: self.index,
            drug: self.drug.clone(),
            remaining_weeks: self.remaining_weeks,
            weeks_per_prescription: self.weeks_per_prescription,
        }
    }
}

impl DrugToDisplay {
    pub fn new(
        index: usize,
        drug: Drug,
        remaining_weeks: Option<i64>,
        weeks_per_prescription: Option<i64>,
    ) -> (d: DrugToDisplay)
        ensures
            d.index == index,
            d.drug == drug,
            d.remaining_weeks == remaining_weeks,
            d.weeks_per_prescription == weeks_per_prescription,
    {
        DrugToDisplay { index, drug, remaining_weeks, weeks_per_prescription }
    }

    /// What is shown of the record `drug`, which stands at `index`.
    pub fn of_record(index: usize, drug: &Drug) -> (r: Result<DrugToDisplay, RationalError>)
        ensures
            match display_of(index as int, drug@) {
                Ok(row) => r matches Ok(d) && d@ == row,
                Err(e) => r matches Err(f) && f == e,
            },
    {
        reveal(display_of);
        let remaining_weeks = drug.remaining_weeks()?;
        let weeks_per_prescription = drug.weeks_per_prescription()?;
        Ok(DrugToDisplay::new(index, drug.clone(), remaining_weeks, weeks_per_prescription))
    }

    pub fn index(&self) -> (i: usize)
        ensures
            i == self.index,
    {
        self.index
    }

    pub fn drug(&self) -> (d: &Drug)
        ensures
            *d == self.drug,
    {
        &self.drug
    }

    pub fn remaining_weeks(&self) -> (w: Option<i64>)
        ensures
            w == self.remaining_weeks,
    {
        self.remaining_weeks
    }

    pub fn weeks_per_prescription(&self) -> (w: Option<i64>)
        ensures
            w == self.weeks_per_prescription,
    {
        self.weeks_per_prescription
    }

    /// Whether the stock lasts fewer weeks than `min_weeks_per_prescription`
    /// asks for. Never where no minimum is given, nor where no dose is taken.
    pub fn needs_replenishment(&self, min_weeks_per_prescription: &Option<i64>) -> (b: bool)
        ensures
            b <==> (*min_weeks_per_prescription matches Some(least)
                && self.remaining_weeks matches Some(weeks) && weeks < least),
    {
        let mwpp = match min_weeks_per_prescription {
            Some(m) => *m,
            None => {
                return false;
            },
        };
        let rw = match self.remaining_weeks() {
            Some(w) => w,
            None => {
                return false;
            },
        };
        rw < mwpp
    }
}

/// The views of a list of rows, in order.
pub open spec fn display_views(rows: Seq<DrugToDisplay>) -> Seq<DisplayView> {
    rows.map_values(|d: DrugToDisplay| d@)
}

/// The rows to show for a ledger: one for each record that is to be shown.
pub fn drugs_to_display(ledger: &Vec<Drug>) -> (r: Result<Vec<DrugToDisplay>, RationalError>)
    ensures
        match displayed(ledger_view(ledger@)) {
            Ok(rows) => r matches Ok(shown) && display_views(shown@) == rows,
            Err(e) => r matches Err(f) && f == e,
        },
{
    let mut shown: Vec<DrugToDisplay> = Vec::new();
    let mut i: usize = 0;
    assert(ledger_view(ledger@).take(0).len() == 0);
    assert(display_views(shown@) == Seq::<DisplayView>::empty());
    while i < ledger.len()
        invariant
            i <= ledger.len(),
            displayed(ledger_view(ledger@).take(i as int)) == Ok::<
                Seq<DisplayView>,
                RationalError,
            >(display_views(shown@)),
        decreases ledger.len() - i,
    {
        let ghost views = ledger_view(ledger@);
        assert(views.take(i + 1).drop_last() == views.take(i as int));
        assert(views.take(i + 1).last() == ledger@[i as int]@);
        if ledger[i].show() {
            match DrugToDisplay::of_record(i, &ledger[i]) {
                Ok(row) => {
                    let ghost before = display_views(shown@);
                    shown.push(row);
                    assert(display_views(shown@) == before.push(row@));
                },
                Err(e) => {
                    proof {
                        lemma_displayed_fails_on(views, i as int);
                    }
                    return Err(e);
                },
            }
        }
        i += 1;
    }
    assert(ledger_view(ledger@).take(ledger.len() as int) == ledger_view(ledger@));
    Ok(shown)
}

/// Where what is shown of the first records fails, what is shown of the
/// whole ledger fails in the same way.
proof fn lemma_displayed_fails_on(ledger: Seq<DrugView>, upto: int)
    requires
        0 <= upto < ledger.len(),
        displayed(ledger.take(upto + 1)) is Err,
    ensures
        displayed(ledger) == displayed(ledger.take(upto + 1)),
    decreases ledger.len() - upto,
{
    if upto + 1 < ledger.len() {
        assert(ledger.take(upto + 2).drop_last() == ledger.take(upto + 1));
        lemma_displayed_fails_on(ledger, upto + 1);
    } else {
        assert(ledger.take(upto + 1) == ledger);
    }
}

/// The doses of a day as they add up where nothing overflows.
pub open spec fn doses_added(
    morning: Fraction,
    noon: Fraction,
    evening: Fraction,
    night: Fraction,
) -> Fraction {
    morning.plus(noon).plus(evening).plus(night)
}

/// The total of a day, where it is given, is the four doses added up.
pub proof fn lemma_total_is_doses_added(drug: DrugView)
    ensures
        drug.total_dosage_day() matches Ok(total) ==> total == doses_added(
            drug.dosage_morning,
            drug.dosage_noon,
            drug.dosage_evening,
            drug.dosage_night,
        ),
{
}

/// The four doses of a day add up to the same in whatever order they are
/// taken: exchanging two neighbours changes nothing, and every order comes
/// about by such exchanges.
pub proof fn law_doses_add_up_in_any_order(a: Fraction, b: Fraction, c: Fraction, d: Fraction)
    requires
        a.den != 0,
        b.den != 0,
        c.den != 0,
        d.den != 0,
    ensures
        doses_added(b, a, c, d) == doses_added(a, b, c, d),
        doses_added(a, c, b, d) == doses_added(a, b, c, d),
        doses_added(a, b, d, c) == doses_added(a, b, c, d),
{
    law_plus_commutes(a, b);
    // (a + b) + c = a + (b + c) = a + (c + b) = (a + c) + b
    law_plus_is_associative(a, b, c);
    law_plus_commutes(b, c);
    law_plus_is_associative(a, c, b);
    // ((a + b) + c) + d = (a + b) + (c + d) = (a + b) + (d + c) = ((a + b) + d) + c
    lemma_results_have_positive_denominators(a, b);
    law_plus_is_associative(a.plus(b), c, d);
    law_plus_commutes(c, d);
    law_plus_is_associative(a.plus(b), d, c);
}

/// Doses of zero do not count: two doses and two of zero add up to the sum
/// of the two.
pub proof fn law_zero_doses_do_not_count(a: Fraction, b: Fraction)
    requires
        a.in_lowest_terms(),
        b.in_lowest_terms(),
    ensures
        doses_added(a, Fraction::zero(), b, Fraction::zero()) == a.plus(b),
        doses_added(a, b, Fraction::zero(), Fraction::zero()) == a.plus(b),
{
    lemma_gcd_with_one(0);
    lemma_zero_is_neutral(a, Fraction::zero());
    assert(a.den * b.den != 0) by (nonlinear_arith)
        requires
            a.den > 0,
            b.den > 0,
    ;
    lemma_reduced_in_lowest_terms(a.num * b.den + b.num * a.den, a.den * b.den);
    lemma_zero_is_neutral(a.plus(b), Fraction::zero());
}

/// Two records whose doses are the same but for the exchange of two
/// neighbours have the same total of a day, where both totals are given.
pub proof fn law_daily_total_ignores_order(first: DrugView, second: DrugView)
    requires
        first.dosage_morning.den != 0,
        first.dosage_noon.den != 0,
        first.dosage_evening.den != 0,
        first.dosage_night.den != 0,
        ({
            ||| (second.dosage_morning == first.dosage_noon && second.dosage_noon
                == first.dosage_morning && second.dosage_evening == first.dosage_evening
                && second.dosage_night == first.dosage_night)
            ||| (second.dosage_morning == first.dosage_morning && second.dosage_noon
                == first.dosage_evening && second.dosage_evening == first.dosage_noon
                && second.dosage_night == first.dosage_night)
            ||| (second.dosage_morning == first.dosage_morning && second.dosage_noon
                == first.dosage_noon && second.dosage_evening == first.dosage_night
                && second.dosage_night == first.dosage_evening)
        }),
        first.total_dosage_day() is Ok,
        second.total_dosage_day() is Ok,
    ensures
        first.total_dosage_day() == second.total_dosage_day(),
{
    law_doses_add_up_in_any_order(
        first.dosage_morning,
        first.dosage_noon,
        first.dosage_evening,
        first.dosage_night,
    );
    lemma_total_is_doses_added(first);
    lemma_total_is_doses_added(second);
}

/// Neither way of changing a record takes what remains below zero: a sound
/// record stays sound when an amount above zero is taken from it or added
/// to it.
pub proof fn law_changes_keep_a_record_sound(drug: DrugView, amount: Fraction)
    requires
        drug.sound(),
        amount.den > 0,
        amount.is_positive(),
    ensures
        drug.reduced_by(amount) matches Ok(after) ==> after.sound(),
        drug.replenished_by(amount) matches Ok(after) ==> after.sound()
            && after.remaining.is_positive(),
{
    lemma_plus_of_positive_is_positive(drug.remaining, amount);
    lemma_results_have_positive_denominators(drug.remaining, amount);
}

/// Each row stands for a record that is to be shown, under that record's
/// place, with what is shown of it.
pub open spec fn rows_stand_for_records(rows: Seq<DisplayView>, ledger: Seq<DrugView>) -> bool {
    forall|k: int|
        0 <= k < rows.len() ==> 0 <= (#[trigger] rows[k]).index < ledger.len()
            && ledger[rows[k].index].show && display_of(rows[k].index, ledger[rows[k].index])
            == Ok::<DisplayView, RationalError>(rows[k])
}

/// The rows come in the ledger's order.
pub open spec fn rows_in_order(rows: Seq<DisplayView>) -> bool {
    forall|j: int, k: int|
        0 <= j < k < rows.len() ==> (#[trigger] rows[j]).index < (#[trigger] rows[k]).index
}

/// No record that is to be shown is left out.
pub open spec fn rows_leave_none_out(rows: Seq<DisplayView>, ledger: Seq<DrugView>) -> bool {
    forall|i: int|
        0 <= i < ledger.len() && (#[trigger] ledger[i]).show ==> exists|k: int|
            0 <= k < rows.len() && (#[trigger] rows[k]).index == i
}

/// A row tells where its record stands and shows the record as it is.
pub proof fn lemma_row_keeps_place(index: int, drug: DrugView)
    ensures
        display_of(index, drug) matches Ok(row) ==> row.index == index && row.drug == drug,
{
    reveal(display_of);
}

/// What is shown of a ledger with one record more: the rows of the ledger
/// without it, and after them the row of that record if it is to be shown.
proof fn lemma_displayed_unfolds(ledger: Seq<DrugView>)
    requires
        ledger.len() > 0,
        displayed(ledger) is Ok,
    ensures
        displayed(ledger.drop_last()) is Ok,
        !ledger.last().show ==> displayed(ledger)->Ok_0 == displayed(ledger.drop_last())->Ok_0,
        ledger.last().show ==> display_of(ledger.len() - 1, ledger.last()) is Ok && displayed(
            ledger,
        )->Ok_0 == displayed(ledger.drop_last())->Ok_0.push(
            display_of(ledger.len() - 1, ledger.last())->Ok_0,
        ),
{
}

/// What is shown of a ledger is one row for each record that is to be
/// shown, and no other, in the ledger's order.
pub proof fn law_displayed_rows(ledger: Seq<DrugView>)
    requires
        displayed(ledger) is Ok,
    ensures
        rows_stand_for_records(displayed(ledger)->Ok_0, ledger),
        rows_in_order(displayed(ledger)->Ok_0),
        rows_leave_none_out(displayed(ledger)->Ok_0, ledger),
    decreases ledger.len(),
{
    if ledger.len() > 0 {
        let head = ledger.drop_last();
        let last = ledger.len() - 1;
        lemma_displayed_unfolds(ledger);
        lemma_row_keeps_place(last, ledger.last());
        law_displayed_rows(head);
        let before = displayed(head)->Ok_0;
        let rows = displayed(ledger)->Ok_0;
        assert forall|k: int| 0 <= k < rows.len() implies 0 <= (#[trigger] rows[k]).index
            < ledger.len() && ledger[rows[k].index].show && display_of(
            rows[k].index,
            ledger[rows[k].index],
        ) == Ok::<DisplayView, RationalError>(rows[k]) by {
            if k < before.len() {
                assert(rows[k] == before[k]);
                assert(head[before[k].index] == ledger[before[k].index]);
            }
        }
        assert forall|j: int, k: int| 0 <= j < k < rows.len() implies (#[trigger] rows[j]).index < (
        #[trigger] rows[k]).index by {
            assert(rows[j] == before[j]);
            if k < before.len() {
                assert(rows[k] == before[k]);
            }
        }
        assert forall|i: int| 0 <= i < ledger.len() && (#[trigger] ledger[i]).show implies exists|
            k: int,
        | 0 <= k < rows.len() && (#[trigger] rows[k]).index == i by {
            if i < last {
                assert(head[i].show);
                let k = choose|k: int| 0 <= k < before.len() && (#[trigger] before[k]).index == i;
                assert(rows[k] == before[k]);
            } else {
                assert(rows[before.len() as int].index == i);
            }
        }
    }
}

/// What a `DailyPills` holds, as plain numbers.
pub struct PillCounts {
    pub morning: nat,
    pub noon: nat,
    pub evening: nat,
    pub night: nat,
}

/// How many whole pills are due at each time of day.
#[derive(Clone, Copy, Debug, PartialEq, Eq, Hash)]
pub struct DailyPills {
    morning: u64,
    noon: u64,
    evening: u64,
    night: u64,
}

impl View for DailyPills {
    type V = PillCounts;

    closed spec fn view(&self) -> PillCounts {
        PillCounts {
            morning: self.morning as nat,
            noon: self.noon as nat,
            evening: self.evening as nat,
            night: self.night as nat,
        }
    }
}

/// The whole pills that a dose of `by` takes: the dose rounded up, and none
/// for a dose below zero.
pub open spec fn whole_pills(by: Fraction) -> nat {
    if by.ceiling() < 0 {
        0
    } else {
        by.ceiling() as nat
    }
}

impl DailyPills {
    pub fn new(morning: u64, noon: u64, evening: u64, night: u64) -> (r: DailyPills)
        ensures
            r@ == (PillCounts {
                morning: morning as nat,
                noon: noon as nat,
                evening: evening as nat,
                night: night as nat,
            }),
    {
        DailyPills { morning, noon, evening, night }
    }

    pub fn morning(&self) -> (n: u64)
        ensures
            n == self@.morning,
    {
        self.morning
    }

    pub fn noon(&self) -> (n: u64)
        ensures
            n == self@.noon,
    {
        self.noon
    }

    pub fn evening(&self) -> (n: u64)
        ensures
            n == self@.evening,
    {
        self.evening
    }

    pub fn night(&self) -> (n: u64)
        ensures
            n == self@.night,
    {
        self.night
    }

    /// Adds the whole pills of the dose `by` to the morning count.
    pub fn increase_morning(&mut self, by: &Rational)
        requires
            old(self)@.morning + whole_pills(by@) <= u64::MAX,
        ensures
            final(self)@ == (PillCounts {
                morning: old(self)@.morning + whole_pills(by@),
                ..old(self)@
            }),
    {
        let pills: i64 = by.ceil().numer();
        if pills >= 0 {
            self.morning += pills as u64;
        }
    }

    /// Adds the whole pills of the dose `by` to the noon count.
    pub fn increase_noon(&mut self, by: &Rational)
        requires
            old(self)@.noon + whole_pills(by@) <= u64::MAX,
        ensures
            final(self)@ == (PillCounts {
                noon: old(self)@.noon + whole_pills(by@),
                ..old(self)@
            }),
    {
        let pills: i64 = by.ceil().numer();
        if pills >= 0 {
            self.noon += pills as u64;
        }
    }

    /// Adds the whole pills of the dose `by` to the evening count.
    pub fn increase_evening(&mut self, by: &Rational)
        requires
            old(self)@.evening + whole_pills(by@) <= u64::MAX,
        ensures
            final(self)@ == (PillCounts {
                evening: old(self)@.evening + whole_pills(by@),
                ..old(self)@
            }),
    {
        let pills: i64 = by.ceil().numer();
        if pills >= 0 {
            self.evening += pills as u64;
        }
    }

    /// Adds the whole pills of the dose `by` to the night count.
    pub fn increase_night(&mut self, by: &Rational)
        requires
            old(self)@.night + whole_pills(by@) <= u64::MAX,
        ensures
            final(self)@ == (PillCounts {
                night: old(self)@.night + whole_pills(by@),
                ..old(self)@
            }),
    {
        let pills: i64 = by.ceil().numer();
        if pills >= 0 {
            self.night += pills as u64;
        }
    }
}

} // verus!
