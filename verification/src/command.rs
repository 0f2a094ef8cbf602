//! The two commands that change a ledger: replenishing one record by an
//! amount that was typed in, and taking a week's doses from every record.

use crate::fraction::{lemma_results_have_positive_denominators, Fraction};
use crate::model::{law_changes_keep_a_record_sound, ledger_view, Drug, DrugView};
use crate::rational::{checked_negated, Rational, RationalError};
use crate::util::{decimal_of, lemma_decimal_has_positive_denominator, parse_decimal};
use vstd::prelude::*;

verus! {

/// A command on the ledger.
#[derive(Debug, PartialEq, Eq)]
pub enum Command {
    /// Book the amount, a decimal number still in text, on the record at the
    /// index.
    Replenish { index: usize, amount: String },
    /// Take a week's doses from every record.
    TakeWeek,
}

/// A command, the amount by its characters.
pub enum CommandView {
    Replenish { index: int, amount: Seq<char> },
    TakeWeek,
}

impl View for Command {
    type V = CommandView;

    open spec fn view(&self) -> CommandView {
        match self {
            Command::Replenish { index, amount } => CommandView::Replenish {
                index: *index as int,
                amount: amount@,
            },
            Command::TakeWeek => CommandView::TakeWeek,
        }
    }
}

/// Why a command left the ledger as it was.
#[derive(Clone, Copy, Debug, PartialEq, Eq, Structural)]
pub enum CommandError {
    /// The amount is no decimal number.
    InvalidAmount,
    /// The ledger has no record at the index.
    InvalidIndex,
    /// The amount is zero.
    ZeroAmount,
    /// The new quantity, or a step towards it, does not fit in 64 bits.
    ArithmeticOverflow,
}

/// The record after an amount that is not zero was booked on it: an amount
/// above zero is added, the opposite of one below zero is taken away.
pub open spec fn booked(drug: DrugView, amount: Fraction) -> Result<DrugView, RationalError> {
    if amount.is_negative() {
        match checked_negated(amount) {
            Err(e) => Err(e),
            Ok(opposite) => drug.reduced_by(opposite),
        }
    } else {
        drug.replenished_by(amount)
    }
}

/// The ledger after `replenish`, or why it stays as it is. The amount is
/// looked at first, then the index, then whether the amount is zero.
pub open spec fn replenished(ledger: Seq<DrugView>, index: int, amount_text: Seq<char>) -> Result<
    Seq<DrugView>,
    CommandError,
> {
    match decimal_of(amount_text) {
        Err(_) => Err(CommandError::InvalidAmount),
        Ok(amount) => if !(0 <= index < ledger.len()) {
            Err(CommandError::InvalidIndex)
        } else if amount.is_zero() {
            Err(CommandError::ZeroAmount)
        } else {
            match booked(ledger[index], amount) {
                Err(_) => Err(CommandError::ArithmeticOverflow),
                Ok(drug) => Ok(ledger.update(index, drug)),
            }
        },
    }
}

/// Books the amount written in `amount_text` on the record at `index`: an
/// amount above zero replenishes the record, one below zero reduces it by
/// the opposite. On an error the ledger stays as it was.
pub fn replenish(ledger: &mut Vec<Drug>, index: usize, amount_text: &str) -> (r: Result<
    (),
    CommandError,
>)
    ensures
        match replenished(ledger_view(old(ledger)@), index as int, amount_text@) {
            Ok(after) => r is Ok && ledger_view(final(ledger)@) == after,
            Err(e) => r == Err::<(), CommandError>(e) && final(ledger)@ == old(ledger)@,
        },
{
    let amount: Rational = match parse_decimal(amount_text) {
        Ok(a) => a,
        Err(_) => {
            return Err(CommandError::InvalidAmount);
        },
    };
    if index >= ledger.len() {
        return Err(CommandError::InvalidIndex);
    }
    if amount.is_zero() {
        return Err(CommandError::ZeroAmount);
    }
    let ghost before = ledger@;
    let booking = if amount.is_negative() {
        match amount.negate() {
            Ok(abs_amount) => ledger[index].reduce(&abs_amount),
            Err(e) => Err(e),
        }
    } else {
        ledger[index].replenish(&amount)
    };
    match booking {
        Ok(()) => {
            assert(ledger_view(ledger@) == ledger_view(before).update(
                index as int,
                ledger@[index as int]@,
            ));
            Ok(())
        },
        Err(_) => {
            assert(ledger@ == before);
            Err(CommandError::ArithmeticOverflow)
        },
    }
}

/// The record after a week: the week's doses are taken from what remains,
/// where any are taken at all.
pub open spec fn week_taken(drug: DrugView) -> Result<DrugView, RationalError> {
    match drug.total_dosage_week() {
        Err(e) => Err(e),
        Ok(week_dose) => if week_dose.is_positive() {
            drug.reduced_by(week_dose)
        } else {
            Ok(drug)
        },
    }
}

/// Whether a week can be taken from every record of the ledger.
pub open spec fn week_can_be_taken(ledger: Seq<DrugView>) -> bool {
    forall|i: int| 0 <= i < ledger.len() ==> (#[trigger] week_taken(ledger[i])) is Ok
}

/// The ledger after a week was taken from every record.
pub open spec fn weeks_taken(ledger: Seq<DrugView>) -> Seq<DrugView> {
    Seq::new(ledger.len(), |i: int| week_taken(ledger[i])->Ok_0)
}

/// The week's dose of a record where one is to be taken from it, after a
/// check that it can be taken; `None` where the record takes no dose.
fn dose_to_take(drug: &Drug) -> (r: Result<Option<Rational>, RationalError>)
    ensures
        match r {
            Ok(Some(dose)) => drug@.total_dosage_week() == Ok::<Fraction, RationalError>(dose@)
                && dose@.is_positive() && week_taken(drug@) is Ok,
            Ok(None) => week_taken(drug@) == Ok::<DrugView, RationalError>(drug@),
            Err(_) => week_taken(drug@) is Err,
        },
{
    let week_dose = drug.total_dosage_week()?;
    if week_dose.is_positive() {
        drug.remaining().subtract(&week_dose)?;
        Ok(Some(week_dose))
    } else {
        Ok(None)
    }
}

/// Takes a week's doses from every record that is dosed at all; a record
/// with no dose is left alone. Where the week cannot be taken from one of
/// the records, the ledger stays as it was.
pub fn take_week(ledger: &mut Vec<Drug>) -> (r: Result<(), CommandError>)
    ensures
        week_can_be_taken(ledger_view(old(ledger)@)) ==> r is Ok && ledger_view(final(ledger)@)
            == weeks_taken(ledger_view(old(ledger)@)),
        !week_can_be_taken(ledger_view(old(ledger)@)) ==> r == Err::<(), CommandError>(
            CommandError::ArithmeticOverflow,
        ) && final(ledger)@ == old(ledger)@,
{
    let n = ledger.len();
    let ghost before = ledger_view(ledger@);
    // first see that every record can give its week
    let mut doses: Vec<Option<Rational>> = Vec::new();
    let mut i: usize = 0;
    while i < n
        invariant
            i <= n,
            n == ledger.len(),
            doses.len() == i,
            before == ledger_view(ledger@),
            forall|j: int| 0 <= j < i ==> (#[trigger] week_taken(before[j])) is Ok,
            forall|j: int|
                0 <= j < i ==> match #[trigger] doses[j] {
                    Some(dose) => before[j].total_dosage_week() == Ok::<Fraction, RationalError>(
                        dose@,
                    ) && dose@.is_positive(),
                    None => week_taken(before[j]) == Ok::<DrugView, RationalError>(before[j]),
                },
        decreases n - i,
    {
        match dose_to_take(&ledger[i]) {
            Ok(dose) => {
                doses.push(dose);
            },
            Err(_) => {
                assert(week_taken(before[i as int]) is Err);
                return Err(CommandError::ArithmeticOverflow);
            },
        }
        i += 1;
    }
    // then take it
    let mut k: usize = 0;
    while k < n
        invariant
            k <= n,
            n == ledger.len(),
            doses.len() == n,
            before.len() == n,
            forall|j: int| 0 <= j < n ==> (#[trigger] week_taken(before[j])) is Ok,
            forall|j: int|
                0 <= j < n ==> match #[trigger] doses[j] {
                    Some(dose) => before[j].total_dosage_week() == Ok::<Fraction, RationalError>(
                        dose@,
                    ) && dose@.is_positive(),
                    None => week_taken(before[j]) == Ok::<DrugView, RationalError>(before[j]),
                },
            forall|j: int| 0 <= j < k ==> (#[trigger] ledger@[j])@ == week_taken(before[j])->Ok_0,
            forall|j: int| k <= j < n ==> (#[trigger] ledger@[j])@ == before[j],
        decreases n - k,
    {
        assert(week_taken(before[k as int]) is Ok);
        match doses[k] {
            Some(week_dose) => {
                let taken = ledger[k].reduce(&week_dose);
                assert(taken is Ok);
            },
            None => {},
        }
        k += 1;
    }
    assert(ledger_view(ledger@) == weeks_taken(before));
    Ok(())
}

/// The ledger after a command, or why it stays as it is.
pub open spec fn applied(command: CommandView, ledger: Seq<DrugView>) -> Result<
    Seq<DrugView>,
    CommandError,
> {
    match command {
        CommandView::Replenish { index, amount } => replenished(ledger, index, amount),
        CommandView::TakeWeek => if week_can_be_taken(ledger) {
            Ok(weeks_taken(ledger))
        } else {
            Err(CommandError::ArithmeticOverflow)
        },
    }
}

/// Whether every record of the ledger is sound.
pub open spec fn ledger_is_sound(ledger: Seq<DrugView>) -> bool {
    forall|i: int| 0 <= i < ledger.len() ==> (#[trigger] ledger[i]).sound()
}

/// No command takes what remains of a record below zero: a ledger of sound
/// records is one after every command that is carried out.
pub proof fn law_commands_keep_the_ledger_sound(command: CommandView, ledger: Seq<DrugView>)
    requires
        ledger_is_sound(ledger),
    ensures
        applied(command, ledger) matches Ok(after) ==> ledger_is_sound(after) && after.len()
            == ledger.len(),
{
    match applied(command, ledger) {
        Err(_) => {},
        Ok(after) => {
            match command {
                CommandView::Replenish { index, amount } => {
                    let booking = decimal_of(amount)->Ok_0;
                    lemma_decimal_has_positive_denominator(amount);
                    if booking.is_negative() {
                        law_changes_keep_a_record_sound(ledger[index], booking.negated());
                    } else {
                        law_changes_keep_a_record_sound(ledger[index], booking);
                    }
                    assert forall|i: int| 0 <= i < after.len() implies (#[trigger] after[i]).sound() by {
                        if i != index {
                            assert(after[i] == ledger[i]);
                        }
                    }
                },
                CommandView::TakeWeek => {
                    assert forall|i: int| 0 <= i < after.len() implies (#[trigger] after[i]).sound() by {
                        assert(week_taken(ledger[i]) is Ok);
                        let week_dose = ledger[i].total_dosage_week()->Ok_0;
                        if week_dose.is_positive() {
                            let d = ledger[i];
                            let until_noon = d.dosage_morning.plus(d.dosage_noon);
                            let until_evening = until_noon.plus(d.dosage_evening);
                            let day = until_evening.plus(d.dosage_night);
                            lemma_results_have_positive_denominators(
                                d.dosage_morning,
                                d.dosage_noon,
                            );
                            lemma_results_have_positive_denominators(until_noon, d.dosage_evening);
                            lemma_results_have_positive_denominators(until_evening, d.dosage_night);
                            lemma_results_have_positive_denominators(day, Fraction::integer(7));
                            lemma_results_have_positive_denominators(d.remaining, week_dose);
                        }
                    }
                },
            }
        },
    }
}

/// Carries out a command on the ledger. On an error the ledger stays as it
/// was.
pub fn apply(command: &Command, ledger: &mut Vec<Drug>) -> (r: Result<(), CommandError>)
    ensures
        match applied(command@, ledger_view(old(ledger)@)) {
            Ok(after) => r is Ok && ledger_view(final(ledger)@) == after,
            Err(e) => r == Err::<(), CommandError>(e) && final(ledger)@ == old(ledger)@,
        },
{
    match command {
        Command::Replenish { index, amount } => replenish(ledger, *index, amount.as_str()),
        Command::TakeWeek => take_week(ledger),
    }
}

} // verus!
