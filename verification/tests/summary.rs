use pull_request_summary::decimal::append_decimal;
use pull_request_summary::{ErrorKind, Fetched, PullRequestError, PullRequestID, PullRequestSummary};

fn summary(title: &str, url: &str, additions: u32, deletions: u32, changed_files: u32) -> PullRequestSummary {
    PullRequestSummary {
        title: title.to_string(),
        html_url: url.to_string(),
        additions,
        deletions,
        changed_files,
    }
}

fn numeral(n: u32) -> String {
    let mut text = String::new();
    append_decimal(&mut text, n);
    text
}

#[test]
fn formats_title_counts_and_url() {
    let pull = summary("Fix bug", "https://x/pull/1", 5, 2, 3);
    assert_eq!(pull.to_string(), "Fix bug (+5,-2) changed files 3\nhttps://x/pull/1");
}

#[test]
fn formats_zero_counts() {
    assert_eq!(summary("T", "U", 1, 0, 1).to_string(), "T (+1,-0) changed files 1\nU");
    assert_eq!(summary("", "", 0, 0, 0).to_string(), " (+0,-0) changed files 0\n");
}

#[test]
fn formats_large_counts() {
    let pull = summary("Rewrite", "https://x/pull/2", 4294967295, 1000000, 120);
    assert_eq!(pull.to_string(), "Rewrite (+4294967295,-1000000) changed files 120\nhttps://x/pull/2");
}

#[test]
fn formats_title_as_it_is() {
    let pull = summary("Add (+1,-1) parser\nfor \u{3b1}", "https://x/pull/3?a=b", 10, 9, 1);
    assert_eq!(
        pull.to_string(),
        "Add (+1,-1) parser\nfor \u{3b1} (+10,-9) changed files 1\nhttps://x/pull/3?a=b"
    );
}

#[test]
fn numerals_are_decimal() {
    assert_eq!(numeral(0), "0");
    assert_eq!(numeral(7), "7");
    assert_eq!(numeral(9), "9");
    assert_eq!(numeral(10), "10");
    assert_eq!(numeral(99), "99");
    assert_eq!(numeral(100), "100");
    assert_eq!(numeral(1203), "1203");
    assert_eq!(numeral(1234567890), "1234567890");
    assert_eq!(numeral(u32::MAX), "4294967295");
}

#[test]
fn numerals_agree_with_the_standard_library() {
    let mut n: u32 = 1;
    for _ in 0..64 {
        assert_eq!(numeral(n), format!("{}", n));
        assert_eq!(numeral(n - 1), format!("{}", n - 1));
        n = n.wrapping_mul(2654435761).wrapping_add(12345) | 1;
    }
}

#[test]
fn numeral_is_appended_to_what_is_there() {
    let mut text = "n = ".to_string();
    append_decimal(&mut text, 40);
    append_decimal(&mut text, 2);
    assert_eq!(text, "n = 402");
}

#[test]
fn answer_with_pull_request_is_taken() {
    let attempt = PullRequestSummary::new(Fetched::Body(summary("T", "U", 1, 0, 1)));
    assert_eq!(attempt, Ok(summary("T", "U", 1, 0, 1)));
}

#[test]
fn answer_without_pull_request_is_not_found() {
    let error = PullRequestSummary::new(Fetched::NoBody).expect_err("nothing was found");
    assert_eq!(error, PullRequestError::NotFound);
    assert_eq!(error.kind(), ErrorKind::NotFound);
    assert_eq!(error.message(), "no pull request");
}

#[test]
fn failed_request_is_a_transport_failure() {
    let error = PullRequestSummary::new(Fetched::NoResponse).expect_err("nothing came back");
    assert_eq!(error, PullRequestError::TransportFailure);
    assert_eq!(error.kind(), ErrorKind::TransportFailure);
    assert_eq!(error.message(), "not get pull request");
}

#[test]
fn missing_client_is_an_auth_failure() {
    let error = PullRequestSummary::new(Fetched::NoClient).expect_err("nothing was asked");
    assert_eq!(error, PullRequestError::AuthFailure);
    assert_eq!(error.kind(), ErrorKind::AuthFailure);
    assert_eq!(error.message(), "not create github client");
}

#[test]
fn url_to_text_with_a_pull_request() {
    let id = PullRequestID::from_str("https://github.com/acme/widgets/pull/42").expect("a pull-request URL");
    assert_eq!(id.endpoint(), "repos/acme/widgets/pulls/42");
    let pull = PullRequestSummary::new(Fetched::Body(summary("T", "U", 1, 0, 1))).expect("a pull request");
    assert_eq!(pull.to_string(), "T (+1,-0) changed files 1\nU");
}

#[test]
fn url_to_text_without_a_pull_request() {
    let id = PullRequestID::from_str("https://github.com/acme/widgets/pull/42").expect("a pull-request URL");
    assert_eq!(id.endpoint(), "repos/acme/widgets/pulls/42");
    let error = PullRequestSummary::new(Fetched::NoBody).expect_err("an empty answer");
    assert_eq!(error.message(), "no pull request");
}

#[test]
fn clone_of_summary_is_equal() {
    let pull = summary("Fix bug", "https://x/pull/1", 5, 2, 3);
    assert_eq!(pull.clone(), pull);
    let fetched = Fetched::Body(pull);
    assert_eq!(fetched.clone(), fetched);
    assert_eq!(Fetched::NoBody.clone(), Fetched::NoBody);
}
