//! What a request asks for: the fields of a form, the command they spell and
//! the few plain questions a request is asked before it is served.

use crate::command::{Command, CommandView};
use crate::digits::{parse_usize, usize_of};
use crate::text::{same_text, to_chars};
use vstd::prelude::*;

verus! {

/// The list of (name, value) pairs that `form_urlencoded` reads out of a
/// body in the `application/x-www-form-urlencoded` syntax, percent-decoded.
pub uninterp spec fn form_pairs(body: Seq<u8>) -> Seq<(Seq<char>, Seq<char>)>;

/// The fields of a form, each by the characters of its name and value.
pub open spec fn field_views(fields: Seq<(String, String)>) -> Seq<(Seq<char>, Seq<char>)> {
    fields.map_values(|f: (String, String)| (f.0@, f.1@))
}

/// Calls `form_urlencoded::parse` and collects the pairs it yields, in
/// their order.
#[verifier::external_body]
pub(crate) fn form_fields(body: &[u8]) -> (fields: Vec<(String, String)>)
    ensures
        field_views(fields@) == form_pairs(body@),
{
    form_urlencoded::parse(body).into_owned().collect()
}

/// The value of the last field of that name, if there is one: where a name
/// comes twice, the later value counts.
pub open spec fn last_value(fields: Seq<(Seq<char>, Seq<char>)>, name: Seq<char>) -> Option<
    Seq<char>,
>
    decreases fields.len(),
{
    if fields.len() == 0 {
        None
    } else if fields.last().0 == name {
        Some(fields.last().1)
    } else {
        last_value(fields.drop_last(), name)
    }
}

/// The value of the last field named `name`.
pub fn find_value<'a>(fields: &'a Vec<(String, String)>, name: &str) -> (value: Option<&'a str>)
    ensures
        match value {
            Some(text) => last_value(field_views(fields@), name@) == Some(text@),
            None => last_value(field_views(fields@), name@) is None,
        },
{
    let ghost views = field_views(fields@);
    let mut k: usize = fields.len();
    assert(views.take(k as int) == views);
    while k > 0
        invariant
            k <= fields.len(),
            views == field_views(fields@),
            last_value(views, name@) == last_value(views.take(k as int), name@),
        decreases k,
    {
        k -= 1;
        assert(views.take(k + 1).drop_last() == views.take(k as int));
        assert(views.take(k + 1).last() == (fields@[k as int].0@, fields@[k as int].1@));
        if same_text(fields[k].0.as_str(), name) {
            return Some(fields[k].1.as_str());
        }
    }
    assert(views.take(0).len() == 0);
    None
}

/// Why the fields of a form spell no command.
#[derive(Clone, Copy, Debug, PartialEq, Eq, Structural)]
pub enum RequestError {
    /// No field `do`.
    MissingDo,
    /// The field `do` names no command.
    UnknownDo,
    /// No field `drug-index`.
    MissingDrugIndex,
    /// The field `drug-index` is no index.
    InvalidDrugIndex,
    /// No field `amount`.
    MissingAmount,
}

/// The command that the fields of a form spell. `do` says which:
/// `replenish`, with `drug-index` and `amount`, or `take-week`.
pub open spec fn command_of(fields: Seq<(Seq<char>, Seq<char>)>) -> Result<
    CommandView,
    RequestError,
> {
    match last_value(fields, "do"@) {
        None => Err(RequestError::MissingDo),
        Some(verb) => if verb == "replenish"@ {
            match last_value(fields, "drug-index"@) {
                None => Err(RequestError::MissingDrugIndex),
                Some(index_text) => match usize_of(index_text) {
                    Err(_) => Err(RequestError::InvalidDrugIndex),
                    Ok(index) => match last_value(fields, "amount"@) {
                        None => Err(RequestError::MissingAmount),
                        Some(amount) => Ok(CommandView::Replenish { index: index as int, amount }),
                    },
                },
            }
        } else if verb == "take-week"@ {
            Ok(CommandView::TakeWeek)
        } else {
            Err(RequestError::UnknownDo)
        },
    }
}

/// Reads the command out of the fields of a form.
pub fn command_from_fields(fields: &Vec<(String, String)>) -> (r: Result<Command, RequestError>)
    ensures
        match r {
            Ok(command) => command_of(field_views(fields@)) == Ok::<CommandView, RequestError>(
                command@,
            ),
            Err(e) => command_of(field_views(fields@)) == Err::<CommandView, RequestError>(e),
        },
{
    let do_val = match find_value(fields, "do") {
        Some(dv) => dv,
        None => {
            return Err(RequestError::MissingDo);
        },
    };
    if same_text(do_val, "replenish") {
        let index_str = match find_value(fields, "drug-index") {
            Some(s) => s,
            None => {
                return Err(RequestError::MissingDrugIndex);
            },
        };
        let index: usize = match parse_usize(&to_chars(index_str)) {
            Ok(i) => i,
            Err(_) => {
                return Err(RequestError::InvalidDrugIndex);
            },
        };
        let amount_str = match find_value(fields, "amount") {
            Some(s) => s,
            None => {
                return Err(RequestError::MissingAmount);
            },
        };
        Ok(Command::Replenish { index, amount: amount_str.to_owned() })
    } else if same_text(do_val, "take-week") {
        Ok(Command::TakeWeek)
    } else {
        Err(RequestError::UnknownDo)
    }
}

/// Reads the command out of the body of a posted form.
pub fn command_from_body(body: &[u8]) -> (r: Result<Command, RequestError>)
    ensures
        match r {
            Ok(command) => command_of(form_pairs(body@)) == Ok::<CommandView, RequestError>(
                command@,
            ),
            Err(e) => command_of(form_pairs(body@)) == Err::<CommandView, RequestError>(e),
        },
{
    let fields = form_fields(body);
    command_from_fields(&fields)
}

} // verus!
