use aochelper::cookie::{
    find_firefox_cookie, read_ff_host_cookie, CookieRead, ExtractError, Operation, Progress, Reply,
    Stage, COOKIE_GLOB, COOKIE_HOST, COOKIE_QUERY,
};

/// Runs a read to its end with the given replies and returns the operations
/// that were asked for, the result and the warning.
fn run(replies: Vec<Reply>) -> (Vec<Operation>, Result<String, ExtractError>, Option<String>) {
    let (mut read, first) =
        read_ff_host_cookie(String::from("/profile/cookies.sqlite"), String::from(".example.org"));
    let mut asked = vec![first];
    for reply in replies {
        match read.advance(reply) {
            Progress::Perform(next, operation) => {
                read = next;
                asked.push(operation);
            }
            Progress::Finished(result, warning) => return (asked, result, warning),
        }
    }
    panic!("the read did not end: {:?}", asked);
}

fn whole_sequence() -> Vec<Operation> {
    vec![
        Operation::CopyDatabase(String::from("/profile/cookies.sqlite")),
        Operation::OpenReadOnly,
        Operation::QueryHost(String::from(".example.org")),
        Operation::CloseConnection,
        Operation::RemoveCopy,
    ]
}

#[test]
fn first_match_is_the_cookie_store() {
    let matches = vec![String::from("/home/a/cookies.sqlite"), String::from("/home/b/cookies.sqlite")];
    assert_eq!(find_firefox_cookie(COOKIE_GLOB, matches), Ok(String::from("/home/a/cookies.sqlite")));
    assert_eq!(
        find_firefox_cookie(COOKIE_GLOB, vec![String::from("only")]),
        Ok(String::from("only"))
    );
}

#[test]
fn no_match_is_an_error_that_names_the_pattern() {
    assert_eq!(
        find_firefox_cookie("/nowhere/*.sqlite", Vec::new()),
        Err(ExtractError::StoreNotFound(String::from("/nowhere/*.sqlite")))
    );
}

#[test]
fn fixed_names() {
    assert_eq!(
        COOKIE_GLOB,
        "/home/*/snap/firefox/common/.mozilla/firefox/*.default/cookies.sqlite"
    );
    assert_eq!(COOKIE_HOST, ".adventofcode.com");
    assert_eq!(COOKIE_QUERY, "SELECT name, value FROM moz_cookies WHERE host=?1");
}

#[test]
fn read_begins_with_the_copy() {
    let (read, first) = read_ff_host_cookie(String::from("db"), String::from("host"));
    assert_eq!(read, CookieRead { stage: Stage::Copying, hostname: String::from("host") });
    assert_eq!(first, Operation::CopyDatabase(String::from("db")));
}

#[test]
fn found_cookie_is_returned_after_cleanup() {
    let (asked, result, warning) = run(vec![
        Reply::Done,
        Reply::Done,
        Reply::Row(String::from("token")),
        Reply::Done,
        Reply::Done,
    ]);
    assert_eq!(asked, whole_sequence());
    assert_eq!(result, Ok(String::from("token")));
    assert_eq!(warning, None);
}

#[test]
fn missing_row_is_not_found_after_cleanup() {
    let (asked, result, warning) =
        run(vec![Reply::Done, Reply::Done, Reply::Done, Reply::Done, Reply::Done]);
    assert_eq!(asked, whole_sequence());
    assert_eq!(result, Err(ExtractError::NotFound(String::from(".example.org"))));
    assert_eq!(warning, None);
}

#[test]
fn failed_lookup_is_reported_after_cleanup() {
    let (asked, result, _) = run(vec![
        Reply::Done,
        Reply::Done,
        Reply::Failed(String::from("no such table")),
        Reply::Done,
        Reply::Done,
    ]);
    assert_eq!(asked, whole_sequence());
    assert_eq!(result, Err(ExtractError::QueryError(String::from("no such table"))));
}

#[test]
fn failed_copy_ends_the_read() {
    let (asked, result, warning) = run(vec![Reply::Failed(String::from("denied"))]);
    assert_eq!(asked, vec![Operation::CopyDatabase(String::from("/profile/cookies.sqlite"))]);
    assert_eq!(result, Err(ExtractError::CopyError(String::from("denied"))));
    assert_eq!(warning, None);
}

#[test]
fn failed_open_removes_the_copy() {
    let (asked, result, warning) =
        run(vec![Reply::Done, Reply::Failed(String::from("not a database")), Reply::Done]);
    assert_eq!(
        asked,
        vec![
            Operation::CopyDatabase(String::from("/profile/cookies.sqlite")),
            Operation::OpenReadOnly,
            Operation::RemoveCopy,
        ]
    );
    assert_eq!(result, Err(ExtractError::OpenError(String::from("not a database"))));
    assert_eq!(warning, None);
}

#[test]
fn failed_removal_is_a_warning_only() {
    let (asked, result, warning) = run(vec![
        Reply::Done,
        Reply::Done,
        Reply::Row(String::from("token")),
        Reply::Failed(String::from("close failed")),
        Reply::Failed(String::from("busy")),
    ]);
    assert_eq!(asked, whole_sequence());
    assert_eq!(result, Ok(String::from("token")));
    assert_eq!(warning, Some(String::from("busy")));
}

#[test]
fn extract_error_messages() {
    assert_eq!(
        ExtractError::StoreNotFound(String::from("/p/*")).message(),
        "Could not find Firefox cookies. No matches for /p/*."
    );
    assert_eq!(
        ExtractError::CopyError(String::from("denied")).message(),
        "Failed to copy the cookie database: denied"
    );
    assert_eq!(
        ExtractError::OpenError(String::from("bad")).message(),
        "Failed to open database connection: bad"
    );
    assert_eq!(
        ExtractError::QueryError(String::from("bad")).message(),
        "Error with SQLite database connection: bad"
    );
    assert_eq!(
        ExtractError::NotFound(String::from(".adventofcode.com")).message(),
        "No cookie found for '.adventofcode.com'. You may need to log in via the web browser first."
    );
}
