use pull_request_summary::{ErrorKind, PullRequestError};

#[test]
fn each_error_has_its_message() {
    let invalid = PullRequestError::InvalidUrl { url: "ht tp://x".to_string() };
    assert_eq!(invalid.message(), "invalid url:  ht tp://x");
    assert_eq!(PullRequestError::NoPathSegments.message(), "url pull request parse error");
    assert_eq!(PullRequestError::MissingOwner.message(), "non owner: pull request url");
    assert_eq!(PullRequestError::MissingRepository.message(), "non repository: pull request url");
    assert_eq!(PullRequestError::MissingKeyword.message(), "non pull path: pull request url");
    assert_eq!(PullRequestError::UnexpectedKeyword.message(), "non pull request url");
    assert_eq!(PullRequestError::MissingNumber.message(), "non pull request id: pull request url");
    assert_eq!(PullRequestError::AuthFailure.message(), "not create github client");
    assert_eq!(PullRequestError::TransportFailure.message(), "not get pull request");
    assert_eq!(PullRequestError::NotFound.message(), "no pull request");
}

#[test]
fn each_error_has_its_kind() {
    let invalid = PullRequestError::InvalidUrl { url: String::new() };
    assert_eq!(invalid.kind(), ErrorKind::InvalidUrl);
    assert_eq!(PullRequestError::NoPathSegments.kind(), ErrorKind::IncompleteIdentifier);
    assert_eq!(PullRequestError::MissingOwner.kind(), ErrorKind::IncompleteIdentifier);
    assert_eq!(PullRequestError::MissingRepository.kind(), ErrorKind::IncompleteIdentifier);
    assert_eq!(PullRequestError::MissingKeyword.kind(), ErrorKind::IncompleteIdentifier);
    assert_eq!(PullRequestError::MissingNumber.kind(), ErrorKind::IncompleteIdentifier);
    assert_eq!(PullRequestError::UnexpectedKeyword.kind(), ErrorKind::UnexpectedPathKeyword);
    assert_eq!(PullRequestError::AuthFailure.kind(), ErrorKind::AuthFailure);
    assert_eq!(PullRequestError::TransportFailure.kind(), ErrorKind::TransportFailure);
    assert_eq!(PullRequestError::NotFound.kind(), ErrorKind::NotFound);
}

#[test]
fn invalid_url_message_holds_an_empty_text() {
    let invalid = PullRequestError::InvalidUrl { url: String::new() };
    assert_eq!(invalid.message(), "invalid url:  ");
}

#[test]
fn clone_of_error_is_equal() {
    let invalid = PullRequestError::InvalidUrl { url: "x y".to_string() };
    assert_eq!(invalid.clone(), invalid);
    assert_eq!(PullRequestError::MissingNumber.clone(), PullRequestError::MissingNumber);
    assert_ne!(PullRequestError::MissingNumber.clone(), PullRequestError::MissingKeyword);
}
