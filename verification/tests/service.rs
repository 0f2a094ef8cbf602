use med_ledger::command::{Command, CommandError};
use med_ledger::images::{
    content_type, image_file_name, is_unchanged_since, last_modified_text, not_modified,
};
use med_ledger::service::{
    allowed_methods, command_error_text, default_columns, page_options, page_options_for,
    redirect_target, reply, reply_with, request_error_text, route, route_for, trim_leading_slashes,
    PageOptions, Reply, Route,
};
use med_ledger::request::RequestError;
use med_ledger::transaction::{Outcome, StoreFault};

#[test]
fn paths_of_pictures() {
    assert_eq!(image_file_name("/images/aspirin.jpg"), Some("aspirin.jpg".to_owned()));
    assert_eq!(image_file_name("/images/a-b_C9.PNG"), Some("a-b_C9.PNG".to_owned()));
    assert_eq!(image_file_name("/images/a.b"), Some("a.b".to_owned()));
    assert_eq!(image_file_name("/images/-.0"), Some("-.0".to_owned()));
    assert_eq!(image_file_name("/images/"), None);
    assert_eq!(image_file_name("/images/aspirin"), None);
    assert_eq!(image_file_name("/images/aspirin."), None);
    assert_eq!(image_file_name("/images/.jpg"), None);
    assert_eq!(image_file_name("/images/a.b.c"), None);
    assert_eq!(image_file_name("/images/a.b-c"), None);
    assert_eq!(image_file_name("/images/a.b_"), None);
    assert_eq!(image_file_name("/images/../secret.txt"), None);
    assert_eq!(image_file_name("/images/a/b.jpg"), None);
    assert_eq!(image_file_name("/images/a b.jpg"), None);
    assert_eq!(image_file_name("/images/ä.jpg"), None);
    assert_eq!(image_file_name("/images/a.jpg\n"), None);
    assert_eq!(image_file_name("/image/a.jpg"), None);
    assert_eq!(image_file_name("images/a.jpg"), None);
    assert_eq!(image_file_name("/x/images/a.jpg"), None);
    assert_eq!(image_file_name(""), None);
}

#[test]
fn kinds_of_pictures() {
    assert_eq!(content_type("a.jpg"), "image/jpeg");
    assert_eq!(content_type("a.jpeg"), "image/jpeg");
    assert_eq!(content_type("a.png"), "image/png");
    assert_eq!(content_type(".png"), "image/png");
    assert_eq!(content_type("a.JPG"), "application/octet-stream");
    assert_eq!(content_type("a.gif"), "application/octet-stream");
    assert_eq!(content_type("png"), "application/octet-stream");
    assert_eq!(content_type("a.png.txt"), "application/octet-stream");
    assert_eq!(content_type(""), "application/octet-stream");
}

#[test]
fn moments_are_compared() {
    assert!(is_unchanged_since(Some((10, 0)), Some((10, 0))));
    assert!(is_unchanged_since(Some((9, 999_999_999)), Some((10, 0))));
    assert!(!is_unchanged_since(Some((10, 1)), Some((10, 0))));
    assert!(!is_unchanged_since(Some((11, 0)), Some((10, 5))));
    assert!(is_unchanged_since(Some((-5, 0)), Some((-4, 0))));
    assert!(!is_unchanged_since(None, Some((10, 0))));
    assert!(!is_unchanged_since(Some((10, 0)), None));
    assert!(!is_unchanged_since(None, None));
}

#[test]
fn timestamps_of_headers() {
    // 784111777 is Sunday, 6 November 1994, 08:49:37 GMT
    let stamp = "Sun, 06 Nov 1994 08:49:37 GMT";
    assert_eq!(last_modified_text(Some((784111777, 0))), Some(stamp.to_owned()));
    assert_eq!(last_modified_text(Some((784111777, 999_999_999))), Some(stamp.to_owned()));
    assert_eq!(last_modified_text(Some((0, 0))), Some("Thu, 01 Jan 1970 00:00:00 GMT".to_owned()));
    assert_eq!(last_modified_text(None), None);
    assert_eq!(last_modified_text(Some((i64::MAX, 0))), None);
    assert!(not_modified(Some((784111777, 0)), Some(stamp)));
    assert!(not_modified(Some((784111776, 500)), Some(stamp)));
    assert!(!not_modified(Some((784111777, 1)), Some(stamp)));
    assert!(!not_modified(Some((784111778, 0)), Some(stamp)));
    assert!(!not_modified(None, Some(stamp)));
    assert!(!not_modified(Some((784111777, 0)), None));
    assert!(!not_modified(Some((0, 0)), Some("yesterday")));
    assert!(!not_modified(Some((0, 0)), Some("Mon, 06 Nov 1994 08:49:37 GMT")));
    assert!(!not_modified(Some((0, 0)), Some("Sun, 06 Nov 1994 08:49:37")));
    assert!(!not_modified(Some((0, 0)), Some("")));
}

fn tokens() -> Vec<String> {
    vec!["s3cret".to_owned(), "other".to_owned()]
}

#[test]
fn requests_are_routed() {
    let t = tokens();
    assert_eq!(route("/images/a.jpg", "GET", None, &t), Route::Image);
    assert_eq!(route("/images/", "GET", None, &t), Route::Image);
    assert_eq!(route("/images/a.jpg", "POST", Some("token=s3cret"), &t), Route::ImageMethodNotAllowed);
    assert_eq!(route("/images/a.jpg", "get", None, &t), Route::ImageMethodNotAllowed);
    assert_eq!(route("/", "GET", None, &t), Route::Forbidden);
    assert_eq!(route("/", "GET", Some(""), &t), Route::Forbidden);
    assert_eq!(route("/", "GET", Some("columns=all"), &t), Route::Forbidden);
    assert_eq!(route("/", "GET", Some("token=wrong"), &t), Route::Forbidden);
    assert_eq!(route("/", "GET", Some("token=s3cret&token=wrong"), &t), Route::Forbidden);
    assert_eq!(route("/", "DELETE", Some("token=wrong"), &t), Route::Forbidden);
    assert_eq!(route("/", "GET", Some("token=s3cret"), &Vec::new()), Route::Forbidden);
    assert_eq!(route("/", "GET", Some("token=s3cret"), &t), Route::Page);
    assert_eq!(route("/images", "GET", Some("token=other"), &t), Route::Page);
    assert_eq!(route("/", "GET", Some("a=b&token=s%33cret&hide-ui=1"), &t), Route::Page);
    assert_eq!(route("/", "GET", Some("token=wrong&token=other"), &t), Route::Page);
    assert_eq!(route("/", "POST", Some("token=s3cret"), &t), Route::Change);
    assert_eq!(route("/", "PUT", Some("token=s3cret"), &t), Route::MethodNotAllowed);
    assert_eq!(route("/", "post", Some("token=s3cret"), &t), Route::MethodNotAllowed);
    assert_eq!(allowed_methods(Route::ImageMethodNotAllowed), "GET");
    assert_eq!(allowed_methods(Route::MethodNotAllowed), "GET, POST");
}

#[test]
fn the_query_says_how_the_page_looks() {
    assert_eq!(page_options(None), PageOptions { column_profile: String::new(), hide_ui: false });
    assert_eq!(
        page_options(Some("token=x")),
        PageOptions { column_profile: String::new(), hide_ui: false }
    );
    assert_eq!(
        page_options(Some("columns=short&hide-ui=1")),
        PageOptions { column_profile: "short".to_owned(), hide_ui: true }
    );
    assert_eq!(
        page_options(Some("columns=short&columns=long+list&hide-ui=1&hide-ui=0")),
        PageOptions { column_profile: "long list".to_owned(), hide_ui: false }
    );
    assert_eq!(
        page_options(Some("hide-ui=true")),
        PageOptions { column_profile: String::new(), hide_ui: false }
    );
    assert_eq!(
        default_columns(),
        vec![
            "obverse-photo",
            "reverse-photo",
            "trade-name",
            "components",
            "description",
            "remaining",
            "prescription",
            "dosage",
            "replenish"
        ]
    );
}

#[test]
fn leading_slashes_are_taken_off() {
    assert_eq!(trim_leading_slashes("/?token=x"), "?token=x");
    assert_eq!(trim_leading_slashes("///a/b/"), "a/b/");
    assert_eq!(trim_leading_slashes("a/b"), "a/b");
    assert_eq!(trim_leading_slashes("//"), "");
    assert_eq!(trim_leading_slashes(""), "");
}

#[test]
fn changes_are_answered() {
    let one = Command::Replenish { index: 0, amount: "1".to_owned() };
    assert_eq!(
        reply(Outcome::Committed, &one, "https://example.com/meds/", Some("/?token=x")),
        Reply::Redirect("https://example.com/meds/?token=x".to_owned())
    );
    assert_eq!(
        reply(Outcome::Committed, &Command::TakeWeek, "http://localhost:8080/", Some("/list?token=a%20b")),
        Reply::Redirect("http://localhost:8080/list?token=a%20b".to_owned())
    );
    assert_eq!(reply(Outcome::Committed, &one, "not an address", Some("/?token=x")), Reply::ServerError);
    assert_eq!(reply(Outcome::Committed, &one, "https://example.com/meds/", None), Reply::ServerError);
    assert_eq!(
        reply(Outcome::Rejected(CommandError::ZeroAmount), &one, "https://example.com/", Some("/")),
        Reply::BadRequest("\"amount\" must not be 0")
    );
    assert_eq!(
        reply(Outcome::Rejected(CommandError::InvalidIndex), &one, "https://example.com/", Some("/")),
        Reply::BadRequest("value for \"drug-index\" out of range")
    );
    assert_eq!(
        reply(
            Outcome::Rejected(CommandError::ArithmeticOverflow),
            &Command::TakeWeek,
            "https://example.com/",
            Some("/")
        ),
        Reply::ServerError
    );
    assert_eq!(
        reply(Outcome::Failed(StoreFault::StoreUnavailable), &one, "https://example.com/", Some("/")),
        Reply::ServerError
    );
    assert_eq!(
        reply(Outcome::Failed(StoreFault::CorruptLedger), &one, "https://example.com/", Some("/")),
        Reply::ServerError
    );
    assert_eq!(reply(Outcome::OutOfTurn, &one, "https://example.com/", Some("/")), Reply::ServerError);
}

#[test]
fn errors_have_their_words() {
    assert_eq!(request_error_text(RequestError::MissingDo), "missing value for \"do\"");
    assert_eq!(request_error_text(RequestError::UnknownDo), "unknown value for \"do\"");
    assert_eq!(request_error_text(RequestError::MissingDrugIndex), "missing value for \"drug-index\"");
    assert_eq!(request_error_text(RequestError::InvalidDrugIndex), "invalid value for \"drug-index\"");
    assert_eq!(request_error_text(RequestError::MissingAmount), "missing value for \"amount\"");
    assert_eq!(command_error_text(CommandError::InvalidAmount), "invalid value for \"amount\"");
    assert_eq!(command_error_text(CommandError::InvalidIndex), "value for \"drug-index\" out of range");
    assert_eq!(command_error_text(CommandError::ZeroAmount), "\"amount\" must not be 0");
    assert_eq!(command_error_text(CommandError::ArithmeticOverflow), "value for \"amount\" too large");
}

#[test]
fn requests_are_routed_by_their_fields() {
    let t = tokens();
    let good = vec![("a".to_owned(), "b".to_owned()), ("token".to_owned(), "other".to_owned())];
    let bad = vec![("token".to_owned(), "other".to_owned()), ("token".to_owned(), "x".to_owned())];
    assert_eq!(route_for("/", "GET", Some(&good), &t), Route::Page);
    assert_eq!(route_for("/", "POST", Some(&good), &t), Route::Change);
    assert_eq!(route_for("/", "HEAD", Some(&good), &t), Route::MethodNotAllowed);
    assert_eq!(route_for("/", "GET", Some(&bad), &t), Route::Forbidden);
    assert_eq!(route_for("/", "GET", Some(&Vec::new()), &t), Route::Forbidden);
    assert_eq!(route_for("/", "GET", None, &t), Route::Forbidden);
    assert_eq!(route_for("/images/x.png", "GET", None, &t), Route::Image);
    assert_eq!(route_for("/images/x.png", "PUT", Some(&good), &t), Route::ImageMethodNotAllowed);
    assert_eq!(
        page_options_for(&good),
        PageOptions { column_profile: String::new(), hide_ui: false }
    );
    let fields = vec![("hide-ui".to_owned(), "1".to_owned()), ("columns".to_owned(), "few".to_owned())];
    assert_eq!(
        page_options_for(&fields),
        PageOptions { column_profile: "few".to_owned(), hide_ui: true }
    );
}

#[test]
fn changes_are_answered_with_the_address_given() {
    let one = Command::Replenish { index: 0, amount: "1".to_owned() };
    assert_eq!(
        reply_with(Outcome::Committed, &one, Some("https://example.com/?a".to_owned())),
        Reply::Redirect("https://example.com/?a".to_owned())
    );
    assert_eq!(reply_with(Outcome::Committed, &one, None), Reply::ServerError);
    assert_eq!(
        reply_with(Outcome::Rejected(CommandError::InvalidAmount), &one, None),
        Reply::BadRequest("invalid value for \"amount\"")
    );
    assert_eq!(
        reply_with(Outcome::Rejected(CommandError::ArithmeticOverflow), &one, None),
        Reply::BadRequest("value for \"amount\" too large")
    );
    assert_eq!(
        reply_with(Outcome::Rejected(CommandError::ArithmeticOverflow), &Command::TakeWeek, None),
        Reply::ServerError
    );
    assert_eq!(
        redirect_target("https://example.com/meds/", Some("//list?x=1")),
        Some("https://example.com/meds/list?x=1".to_owned())
    );
    assert_eq!(redirect_target("https://example.com/meds/", None), None);
    assert_eq!(redirect_target("nowhere", Some("/")), None);
}
