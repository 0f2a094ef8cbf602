//! What the service decides about a request before and after the ledger is
//! touched: where the request goes, how the page is to look, and what is
//! answered to a change.

use crate::command::{Command, CommandError};
use crate::request::{field_views, find_value, form_fields, form_pairs, last_value, RequestError};
use crate::text::{begins_with, holds_at, same_text, to_chars};
use crate::transaction::Outcome;
use url::Url;
use vstd::prelude::*;
use vstd::string::StringSliceAdditionalSpecFns;

verus! {

/// Where a request goes.
#[derive(Clone, Copy, Debug, PartialEq, Eq, Structural)]
pub enum Route {
    /// A picture is asked for.
    Image,
    /// The page is asked for.
    Page,
    /// A change to the ledger is asked for.
    Change,
    /// No token, or none that gives access.
    Forbidden,
    /// A picture is asked for with a method other than `GET`.
    ImageMethodNotAllowed,
    /// The page is asked with a method other than `GET` and `POST`.
    MethodNotAllowed,
}

/// Whether `token` is among `tokens`.
pub open spec fn gives_access(tokens: Seq<String>, token: Seq<char>) -> bool {
    exists|i: int| 0 <= i < tokens.len() && (#[trigger] tokens[i])@ == token
}

/// Where a request goes, by its path, its method and the fields of its
/// query. Pictures are open to all, on `GET`. Everything else asks for a
/// token among the fields that gives access, and then goes by the method.
pub open spec fn route_by_fields(
    path: Seq<char>,
    method: Seq<char>,
    fields: Option<Seq<(Seq<char>, Seq<char>)>>,
    tokens: Seq<String>,
) -> Route {
    if begins_with(path, "/images/"@) {
        if method == "GET"@ {
            Route::Image
        } else {
            Route::ImageMethodNotAllowed
        }
    } else {
        match fields {
            None => Route::Forbidden,
            Some(f) => match last_value(f, "token"@) {
                None => Route::Forbidden,
                Some(token) => if !gives_access(tokens, token) {
                    Route::Forbidden
                } else if method == "GET"@ {
                    Route::Page
                } else if method == "POST"@ {
                    Route::Change
                } else {
                    Route::MethodNotAllowed
                },
            },
        }
    }
}

/// Where a request goes, by its path, its method and its query.
pub open spec fn route_of(
    path: Seq<char>,
    method: Seq<char>,
    query: Option<Seq<u8>>,
    tokens: Seq<String>,
) -> Route {
    route_by_fields(
        path,
        method,
        match query {
            Some(q) => Some(form_pairs(q)),
            None => None,
        },
        tokens,
    )
}

/// Whether `token` is one of the tokens that give access.
pub fn token_matches(auth_tokens: &Vec<String>, token: &str) -> (found: bool)
    ensures
        found == gives_access(auth_tokens@, token@),
{
    let mut i: usize = 0;
    while i < auth_tokens.len()
        invariant
            i <= auth_tokens.len(),
            forall|j: int| 0 <= j < i ==> (#[trigger] auth_tokens@[j])@ != token@,
        decreases auth_tokens.len() - i,
    {
        if same_text(auth_tokens[i].as_str(), token) {
            return true;
        }
        i += 1;
    }
    false
}

/// The fields of a query that may be absent, by their characters.
pub open spec fn optional_fields(fields: Option<&Vec<(String, String)>>) -> Option<
    Seq<(Seq<char>, Seq<char>)>,
> {
    match fields {
        Some(f) => Some(field_views(f@)),
        None => None,
    }
}

/// Says where a request goes, the fields of its query given.
pub fn route_for(
    path: &str,
    method: &str,
    fields: Option<&Vec<(String, String)>>,
    auth_tokens: &Vec<String>,
) -> (r: Route)
    ensures
        r == route_by_fields(path@, method@, optional_fields(fields), auth_tokens@),
{
    let path_chars = to_chars(path);
    let lead = to_chars("/images/");
    assert(path_chars@.subrange(0, 0 + lead.len()) == path_chars@.take(lead.len() as int));
    // pictures need no token
    if holds_at(&path_chars, 0, &lead) {
        return if same_text(method, "GET") {
            Route::Image
        } else {
            Route::ImageMethodNotAllowed
        };
    }
    let query_kv = match fields {
        None => {
            return Route::Forbidden;
        },
        Some(f) => f,
    };
    let token_value = match find_value(query_kv, "token") {
        None => {
            return Route::Forbidden;
        },
        Some(tv) => tv,
    };
    if !token_matches(auth_tokens, token_value) {
        return Route::Forbidden;
    }
    if same_text(method, "GET") {
        Route::Page
    } else if same_text(method, "POST") {
        Route::Change
    } else {
        Route::MethodNotAllowed
    }
}

/// Says where a request goes.
pub fn route(path: &str, method: &str, query: Option<&str>, auth_tokens: &Vec<String>) -> (r: Route)
    ensures
        r == route_of(
            path@,
            method@,
            match query {
                Some(q) => Some(q.spec_bytes()),
                None => None,
            },
            auth_tokens@,
        ),
{
    match query {
        Some(query_str) => {
            let query_kv = form_fields(query_str.as_bytes());
            route_for(path, method, Some(&query_kv), auth_tokens)
        },
        None => route_for(path, method, None, auth_tokens),
    }
}

/// The methods that a route would have taken, for the answer to a method
/// that it does not take.
pub fn allowed_methods(route: Route) -> (allowed: &'static str)
    ensures
        allowed@ == (if route == Route::Image || route == Route::ImageMethodNotAllowed {
            "GET"@
        } else {
            "GET, POST"@
        }),
{
    match route {
        Route::Image | Route::ImageMethodNotAllowed => "GET",
        _ => "GET, POST",
    }
}

/// How the page is to look.
#[derive(Debug, PartialEq, Eq)]
pub struct PageOptions {
    /// The name of the set of columns to show; empty where none is named.
    pub column_profile: String,
    /// Whether the controls are left out.
    pub hide_ui: bool,
}

/// What the text of a field is, or the empty text where the field is not
/// there.
pub open spec fn value_or_empty(value: Option<Seq<char>>) -> Seq<char> {
    match value {
        Some(v) => v,
        None => Seq::empty(),
    }
}

/// How the page is to look, by the fields of the query: `columns` names the
/// set of columns, `hide-ui=1` leaves the controls out.
pub fn page_options_for(fields: &Vec<(String, String)>) -> (options: PageOptions)
    ensures
        options.column_profile@ == value_or_empty(last_value(field_views(fields@), "columns"@)),
        options.hide_ui <==> last_value(field_views(fields@), "hide-ui"@) == Some("1"@),
{
    let column_profile = match find_value(fields, "columns") {
        Some(s) => s.to_owned(),
        None => String::new(),
    };
    let hide_ui = match find_value(fields, "hide-ui") {
        Some(s) => same_text(s, "1"),
        None => false,
    };
    PageOptions { column_profile, hide_ui }
}

/// How the page is to look, by the query of the request. Without a query
/// the page shows the usual columns and the controls.
pub fn page_options(query: Option<&str>) -> (options: PageOptions)
    ensures
        match query {
            Some(q) => options.column_profile@ == value_or_empty(
                last_value(form_pairs(q.spec_bytes()), "columns"@),
            ) && (options.hide_ui <==> last_value(form_pairs(q.spec_bytes()), "hide-ui"@) == Some(
                "1"@,
            )),
            None => options.column_profile@ == Seq::<char>::empty() && !options.hide_ui,
        },
{
    match query {
        Some(query_str) => page_options_for(&form_fields(query_str.as_bytes())),
        None => {
            let no_fields: Vec<(String, String)> = Vec::new();
            assert(field_views(no_fields@).len() == 0);
            page_options_for(&no_fields)
        },
    }
}

/// The columns of the page where the request names no set of its own.
pub fn default_columns() -> (columns: Vec<String>)
    ensures
        columns.len() == 9,
        columns@[0]@ == "obverse-photo"@,
        columns@[1]@ == "reverse-photo"@,
        columns@[2]@ == "trade-name"@,
        columns@[3]@ == "components"@,
        columns@[4]@ == "description"@,
        columns@[5]@ == "remaining"@,
        columns@[6]@ == "prescription"@,
        columns@[7]@ == "dosage"@,
        columns@[8]@ == "replenish"@,
{
    let mut columns: Vec<String> = Vec::new();
    columns.push("obverse-photo".to_owned());
    columns.push("reverse-photo".to_owned());
    columns.push("trade-name".to_owned());
    columns.push("components".to_owned());
    columns.push("description".to_owned());
    columns.push("remaining".to_owned());
    columns.push("prescription".to_owned());
    columns.push("dosage".to_owned());
    columns.push("replenish".to_owned());
    columns
}

/// Why the fields of a form spell no command, in words.
pub fn request_error_text(error: RequestError) -> (text: &'static str)
    ensures
        text@ == (match error {
            RequestError::MissingDo => "missing value for \"do\""@,
            RequestError::UnknownDo => "unknown value for \"do\""@,
            RequestError::MissingDrugIndex => "missing value for \"drug-index\""@,
            RequestError::InvalidDrugIndex => "invalid value for \"drug-index\""@,
            RequestError::MissingAmount => "missing value for \"amount\""@,
        }),
{
    match error {
        RequestError::MissingDo => "missing value for \"do\"",
        RequestError::UnknownDo => "unknown value for \"do\"",
        RequestError::MissingDrugIndex => "missing value for \"drug-index\"",
        RequestError::InvalidDrugIndex => "invalid value for \"drug-index\"",
        RequestError::MissingAmount => "missing value for \"amount\"",
    }
}

/// The words for a command that was refused.
pub open spec fn command_error_words(error: CommandError) -> Seq<char> {
    match error {
        CommandError::InvalidAmount => "invalid value for \"amount\""@,
        CommandError::InvalidIndex => "value for \"drug-index\" out of range"@,
        CommandError::ZeroAmount => "\"amount\" must not be 0"@,
        CommandError::ArithmeticOverflow => "value for \"amount\" too large"@,
    }
}

/// Why a command was refused, in words.
pub fn command_error_text(error: CommandError) -> (text: &'static str)
    ensures
        text@ == command_error_words(error),
{
    match error {
        CommandError::InvalidAmount => "invalid value for \"amount\"",
        CommandError::InvalidIndex => "value for \"drug-index\" out of range",
        CommandError::ZeroAmount => "\"amount\" must not be 0",
        CommandError::ArithmeticOverflow => "value for \"amount\" too large",
    }
}

/// The address that `url` makes of a reference taken relative to a base
/// address, both as text; none where either cannot be read.
pub uninterp spec fn url_joined(base: Seq<char>, reference: Seq<char>) -> Option<Seq<char>>;

/// Calls `url::Url::join` on the base address, read by `url::Url::parse`,
/// and gives the resulting address as text.
#[verifier::external_body]
fn join_url(base: &str, reference: &str) -> (joined: Option<String>)
    ensures
        match joined {
            Some(u) => url_joined(base@, reference@) == Some(u@),
            None => url_joined(base@, reference@) is None,
        },
{
    match Url::parse(base) {
        Ok(base_url) => match base_url.join(reference) {
            Ok(joined) => Some(joined.to_string()),
            Err(_) => None,
        },
        Err(_) => None,
    }
}

/// The text without the `/` it begins with, however many.
pub open spec fn without_leading_slashes(s: Seq<char>) -> Seq<char>
    decreases s.len(),
{
    if s.len() > 0 && s[0] == '/' {
        without_leading_slashes(s.skip(1))
    } else {
        s
    }
}

/// Takes the `/` off the beginning of a text.
pub fn trim_leading_slashes(s: &str) -> (trimmed: String)
    ensures
        trimmed@ == without_leading_slashes(s@),
{
    let chars = to_chars(s);
    let mut i: usize = 0;
    assert(chars@.skip(0) == chars@);
    while i < chars.len() && chars[i] == '/'
        invariant
            i <= chars.len(),
            without_leading_slashes(chars@) == without_leading_slashes(chars@.skip(i as int)),
        decreases chars.len() - i,
    {
        assert(chars@.skip(i as int).skip(1) == chars@.skip(i + 1));
        i += 1;
    }
    assert(chars@.subrange(i as int, chars.len() as int) == chars@.skip(i as int));
    crate::text::text_of(&crate::text::copy_range(&chars, i, chars.len()))
}

/// What is answered to a request for a change.
#[derive(Debug, PartialEq, Eq)]
pub enum Reply {
    /// The change is made: the client is sent back to the page, at this
    /// address.
    Redirect(String),
    /// The request was at fault, for this reason.
    BadRequest(&'static str),
    /// The service was at fault; no more is said.
    ServerError,
}

/// A reply, its texts by their characters.
pub enum ReplyView {
    Redirect(Seq<char>),
    BadRequest(Seq<char>),
    ServerError,
}

impl View for Reply {
    type V = ReplyView;

    open spec fn view(&self) -> ReplyView {
        match self {
            Reply::Redirect(target) => ReplyView::Redirect(target@),
            Reply::BadRequest(reason) => ReplyView::BadRequest(reason@),
            Reply::ServerError => ReplyView::ServerError,
        }
    }
}

/// The reply to a change, by how the transaction ended and by the address
/// to send the client back to, where there is one. A command that was
/// refused is the client's fault, except where a week could not be taken:
/// that is the ledger's.
pub open spec fn reply_with_target(
    outcome: Outcome,
    taking_week: bool,
    target: Option<Seq<char>>,
) -> ReplyView {
    match outcome {
        Outcome::Committed => match target {
            Some(address) => ReplyView::Redirect(address),
            None => ReplyView::ServerError,
        },
        Outcome::Rejected(e) => if taking_week {
            ReplyView::ServerError
        } else {
            ReplyView::BadRequest(command_error_words(e))
        },
        Outcome::Failed(_) => ReplyView::ServerError,
        Outcome::OutOfTurn => ReplyView::ServerError,
    }
}

/// Where the client is sent back to after a change: to where the request
/// came in, under the service's own base address.
pub open spec fn redirect_target_of(base_url: Seq<char>, path_and_query: Option<Seq<char>>) -> Option<
    Seq<char>,
> {
    match path_and_query {
        None => None,
        Some(paq) => url_joined(base_url, without_leading_slashes(paq)),
    }
}

/// The reply to a change, by how the transaction ended. A change that is
/// stored sends the client back to where the request came in.
pub open spec fn reply_of(
    outcome: Outcome,
    taking_week: bool,
    base_url: Seq<char>,
    path_and_query: Option<Seq<char>>,
) -> ReplyView {
    reply_with_target(outcome, taking_week, redirect_target_of(base_url, path_and_query))
}

/// A text that may be absent, by its characters.
pub open spec fn optional_chars(text: Option<&str>) -> Option<Seq<char>> {
    match text {
        Some(t) => Some(t@),
        None => None,
    }
}

/// The address to send the client back to after a change.
pub fn redirect_target(base_url: &str, path_and_query: Option<&str>) -> (target: Option<String>)
    ensures
        match target {
            Some(address) => redirect_target_of(base_url@, optional_chars(path_and_query)) == Some(
                address@,
            ),
            None => redirect_target_of(base_url@, optional_chars(path_and_query)) is None,
        },
{
    match path_and_query {
        Some(path_and_query_string) => {
            let relative_path_and_query = trim_leading_slashes(path_and_query_string);
            join_url(base_url, relative_path_and_query.as_str())
        },
        None => None,
    }
}

/// Makes the reply to a change, the address to send the client back to
/// given.
pub fn reply_with(outcome: Outcome, command: &Command, target: Option<String>) -> (r: Reply)
    ensures
        r@ == reply_with_target(
            outcome,
            *command is TakeWeek,
            match target {
                Some(address) => Some(address@),
                None => None,
            },
        ),
{
    match outcome {
        Outcome::Committed => match target {
            Some(my_url) => Reply::Redirect(my_url),
            None => Reply::ServerError,
        },
        Outcome::Rejected(e) => match command {
            Command::TakeWeek => Reply::ServerError,
            Command::Replenish { .. } => Reply::BadRequest(command_error_text(e)),
        },
        Outcome::Failed(_) => Reply::ServerError,
        Outcome::OutOfTurn => Reply::ServerError,
    }
}

/// Makes the reply to a change.
pub fn reply(outcome: Outcome, command: &Command, base_url: &str, path_and_query: Option<&str>) -> (r:
    Reply)
    ensures
        r@ == reply_of(outcome, *command is TakeWeek, base_url@, optional_chars(path_and_query)),
{
    reply_with(outcome, command, redirect_target(base_url, path_and_query))
}

} // verus!
