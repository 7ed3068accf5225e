use tussle_core::{ScanError, ScanWarning};

#[test]
fn errors_and_warnings_read_as_messages() {
    let io = ScanError::Io {
        path: "/p/x.plist".into(),
        message: "denied".into(),
    };
    assert_eq!(io.to_string(), "io error reading /p/x.plist");
    let schema = ScanError::Schema {
        path: "/p/x.plist".into(),
        message: "root is not a dictionary".into(),
    };
    assert_eq!(
        schema.to_string(),
        "unexpected schema in /p/x.plist: root is not a dictionary"
    );
    let skipped = ScanWarning::Skipped {
        path: "/p/y.plist".into(),
        message: "bad".into(),
    };
    assert_eq!(skipped.to_string(), "skipped /p/y.plist: bad");
    let slow = ScanWarning::Unresponsive { app: "Pages".into() };
    assert_eq!(
        slow.to_string(),
        "Pages did not answer Accessibility queries in time; its menu shortcuts are missing"
    );
}

#[test]
fn unmatched_app_patterns_are_quoted_and_list_near_misses() {
    let w = ScanWarning::NoMatchingApp {
        pattern: "web\"storm".into(),
        similar: vec!["WebStorm".into(), "Webex".into()],
    };
    assert_eq!(
        w.to_string(),
        "no running app matches \"web\\\"storm\"; only running apps can be scanned (similar: WebStorm, Webex)"
    );
    let none = ScanWarning::NoMatchingApp {
        pattern: "zed".into(),
        similar: vec![],
    };
    assert_eq!(
        none.to_string(),
        "no running app matches \"zed\"; only running apps can be scanned"
    );
}
