use webdriver::ErrorStatus;
use webdriver::WebDriverError;

fn all_kinds() -> Vec<ErrorStatus> {
    vec![
        ErrorStatus::ElementNotSelectable,
        ErrorStatus::ElementNotVisible,
        ErrorStatus::InvalidArgument,
        ErrorStatus::InvalidCookieDomain,
        ErrorStatus::InvalidElementCoordinates,
        ErrorStatus::InvalidElementState,
        ErrorStatus::InvalidSelector,
        ErrorStatus::InvalidSessionId,
        ErrorStatus::JavascriptError,
        ErrorStatus::MoveTargetOutOfBounds,
        ErrorStatus::NoSuchAlert,
        ErrorStatus::NoSuchElement,
        ErrorStatus::NoSuchFrame,
        ErrorStatus::NoSuchWindow,
        ErrorStatus::ScriptTimeout,
        ErrorStatus::SessionNotCreated,
        ErrorStatus::StaleElementReference,
        ErrorStatus::Timeout,
        ErrorStatus::UnableToSetCookie,
        ErrorStatus::UnexpectedAlertOpen,
        ErrorStatus::UnknownError,
        ErrorStatus::UnknownPath,
        ErrorStatus::UnknownMethod,
        ErrorStatus::UnsupportedOperation,
    ]
}

#[test]
fn status_code_is_total_with_specified_tokens() {
    let expected = vec![
        "element not selectable",
        "element not visible",
        "invalid argument",
        "invalid cookie domain",
        "invalid element coordinates",
        "invalid element state",
        "invalid selector",
        "invalid session id",
        "javascript error",
        "move target out of bounds",
        "no such alert",
        "no such element",
        "no such frame",
        "no such window",
        "script timeout",
        "session not created",
        "stale element reference",
        "timeout",
        "unable to set cookie",
        "unexpected alert open",
        "unknown error",
        "unknown command",
        "unknown command",
        "unsupported operation",
    ];
    let kinds = all_kinds();
    assert_eq!(kinds.len(), 24);
    assert_eq!(kinds.len(), expected.len());
    for (kind, token) in kinds.into_iter().zip(expected) {
        let err = WebDriverError::new(kind, "detail");
        assert_eq!(err.status_code(), token);
    }
}

#[test]
fn http_status_is_total_with_specified_codes() {
    let expected: Vec<u16> = vec![
        400, 400, 400, 400, 400, 400, 400, 404, 500, 500, 400, 404, 400, 400, 408, 500, 400, 408,
        500, 500, 500, 404, 405, 500,
    ];
    let kinds = all_kinds();
    assert_eq!(kinds.len(), expected.len());
    for (kind, code) in kinds.into_iter().zip(expected) {
        let err = WebDriverError::new(kind, "detail");
        assert_eq!(err.http_status(), code);
    }
}

#[test]
fn status_code_is_deterministic() {
    for kind in all_kinds() {
        let err = WebDriverError::new(kind, "same input");
        let first = err.status_code();
        let second = err.status_code();
        assert_eq!(first, second);
    }
}

#[test]
fn unknown_path_and_method_collide_on_token_but_not_transport() {
    let path = WebDriverError::new(ErrorStatus::UnknownPath, "");
    let method = WebDriverError::new(ErrorStatus::UnknownMethod, "");
    assert_eq!(path.status_code(), "unknown command");
    assert_eq!(method.status_code(), "unknown command");
    assert_eq!(path.status_code(), method.status_code());
    assert_eq!(path.http_status(), 404);
    assert_eq!(method.http_status(), 405);
    assert_ne!(path.http_status(), method.http_status());
}

#[test]
fn new_stores_kind_and_message_verbatim() {
    let err = WebDriverError::new(ErrorStatus::InvalidSelector, "bad :: selector");
    assert_eq!(err.status, ErrorStatus::InvalidSelector);
    assert_eq!(err.message, "bad :: selector");
    let empty = WebDriverError::new(ErrorStatus::Timeout, "");
    assert_eq!(empty.message, "");
}

#[test]
fn description_is_the_status_token() {
    for kind in all_kinds() {
        let err = WebDriverError::new(kind, "free text the description must not show");
        assert_eq!(err.description(), err.status_code());
    }
}
