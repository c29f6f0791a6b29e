//! Reading the session cookie from the cookie database of the browser.
//!
//! The browser may hold its database locked, so the database is never opened
//! where it lies. It is copied, the copy is opened read-only and queried, the
//! connection is closed, and the copy is removed. The functions here decide
//! which of these operations comes next; the caller performs it and reports
//! how it went.

use vstd::prelude::*;
use vstd::string::*;

verus! {

/// The pattern that locates the cookie database of the default profile.
pub const COOKIE_GLOB: &'static str =
    "/home/*/snap/firefox/common/.mozilla/firefox/*.default/cookies.sqlite";

/// The host whose cookie holds the session credential.
pub const COOKIE_HOST: &'static str = ".adventofcode.com";

/// The point lookup that is run on the copy, with the host as its one bound
/// parameter. The value is the second column of a row.
pub const COOKIE_QUERY: &'static str = "SELECT name, value FROM moz_cookies WHERE host=?1";

/// Why no cookie was read.
#[derive(Debug, Clone, PartialEq, Eq)]
pub enum ExtractError {
    /// Nothing matches the pattern, which is carried along.
    StoreNotFound(String),
    /// The database could not be copied.
    CopyError(String),
    /// The copy could not be opened.
    OpenError(String),
    /// The lookup failed.
    QueryError(String),
    /// The database holds no cookie of the host, which is carried along.
    NotFound(String),
}

impl ExtractError {
    pub open spec fn message_spec(self) -> Seq<char> {
        match self {
            ExtractError::StoreNotFound(pattern) => "Could not find Firefox cookies. No matches for "@
                + pattern@ + "."@,
            ExtractError::CopyError(cause) => "Failed to copy the cookie database: "@ + cause@,
            ExtractError::OpenError(cause) => "Failed to open database connection: "@ + cause@,
            ExtractError::QueryError(cause) => "Error with SQLite database connection: "@ + cause@,
            ExtractError::NotFound(host) => "No cookie found for '"@ + host@
                + "'. You may need to log in via the web browser first."@,
        }
    }

    /// The text of the error, with the path, cause or host that it is about.
    pub fn message(&self) -> (r: String)
        ensures
            r@ == self.message_spec(),
    {
        match self {
            ExtractError::StoreNotFound(pattern) => {
                let mut out = String::from_str("Could not find Firefox cookies. No matches for ");
                out.append(pattern.as_str());
                out.append(".");
                out
            },
            ExtractError::CopyError(cause) => {
                let mut out = String::from_str("Failed to copy the cookie database: ");
                out.append(cause.as_str());
                out
            },
            ExtractError::OpenError(cause) => {
                let mut out = String::from_str("Failed to open database connection: ");
                out.append(cause.as_str());
                out
            },
            ExtractError::QueryError(cause) => {
                let mut out = String::from_str("Error with SQLite database connection: ");
                out.append(cause.as_str());
                out
            },
            ExtractError::NotFound(host) => {
                let mut out = String::from_str("No cookie found for '");
                out.append(host.as_str());
                out.append("'. You may need to log in via the web browser first.");
                out
            },
        }
    }
}

/// The cookie database among the paths that match `cookie_glob`: the first
/// match, or an error that names the pattern where nothing matches.
pub fn find_firefox_cookie(cookie_glob: &str, matches: Vec<String>) -> (r: Result<
    String,
    ExtractError,
>)
    ensures
        matches@.len() > 0 ==> r == Ok::<String, ExtractError>(matches@[0]),
        matches@.len() == 0 ==> r is Err && r->Err_0 is StoreNotFound
            && r->Err_0->StoreNotFound_0@ == cookie_glob@,
{
    let mut matches = matches;
    if matches.len() > 0 {
        Ok(matches.swap_remove(0))
    } else {
        Err(ExtractError::StoreNotFound(String::from_str(cookie_glob)))
    }
}

/// An operation on the cookie database or on its copy.
#[derive(Debug, Clone, PartialEq, Eq)]
pub enum Operation {
    /// Copy the database at this path to a private temporary path.
    CopyDatabase(String),
    /// Open a read-only connection to the copy.
    OpenReadOnly,
    /// Run the lookup with this host bound to its parameter.
    QueryHost(String),
    /// Close the connection.
    CloseConnection,
    /// Remove the copy.
    RemoveCopy,
}

/// How an operation went.
#[derive(Debug, Clone, PartialEq, Eq)]
pub enum Reply {
    /// It succeeded and gave no value: also a lookup without a row.
    Done,
    /// The lookup found a row with this value.
    Row(String),
    /// It failed, for this reason.
    Failed(String),
}

/// The operation whose reply is awaited. While the connection is closed and
/// the copy removed, the result that will be returned is kept.
#[derive(Debug, PartialEq, Eq)]
pub enum Stage {
    Copying,
    Opening,
    Querying,
    Closing(Result<String, ExtractError>),
    Removing(Result<String, ExtractError>),
}

/// A read of the cookie of one host that is under way.
#[derive(Debug, PartialEq, Eq)]
pub struct CookieRead {
    pub stage: Stage,
    pub hostname: String,
}

/// What follows a reply: another operation, or the end of the read with its
/// result and, where the copy could not be removed, a warning.
#[derive(Debug, PartialEq, Eq)]
pub enum Progress {
    Perform(CookieRead, Operation),
    Finished(Result<String, ExtractError>, Option<String>),
}

/// The result of the lookup.
pub open spec fn query_result(hostname: String, reply: Reply) -> Result<String, ExtractError> {
    match reply {
        Reply::Row(value) => Ok(value),
        Reply::Done => Err(ExtractError::NotFound(hostname)),
        Reply::Failed(cause) => Err(ExtractError::QueryError(cause)),
    }
}

/// The warning that a failed removal of the copy leaves.
pub open spec fn removal_warning(reply: Reply) -> Option<String> {
    match reply {
        Reply::Failed(cause) => Some(cause),
        _ => None,
    }
}

impl CookieRead {
    /// The step that follows `reply` in this stage.
    pub open spec fn advance_spec(self, reply: Reply) -> Progress {
        match self.stage {
            Stage::Copying => match reply {
                Reply::Failed(cause) => Progress::Finished(
                    Err(ExtractError::CopyError(cause)),
                    None,
                ),
                _ => Progress::Perform(
                    CookieRead { stage: Stage::Opening, hostname: self.hostname },
                    Operation::OpenReadOnly,
                ),
            },
            Stage::Opening => match reply {
                Reply::Failed(cause) => Progress::Perform(
                    CookieRead {
                        stage: Stage::Removing(Err(ExtractError::OpenError(cause))),
                        hostname: self.hostname,
                    },
                    Operation::RemoveCopy,
                ),
                _ => Progress::Perform(
                    CookieRead { stage: Stage::Querying, hostname: self.hostname },
                    Operation::QueryHost(self.hostname),
                ),
            },
            Stage::Querying => Progress::Perform(
                CookieRead {
                    stage: Stage::Closing(query_result(self.hostname, reply)),
                    hostname: self.hostname,
                },
                Operation::CloseConnection,
            ),
            Stage::Closing(result) => Progress::Perform(
                CookieRead { stage: Stage::Removing(result), hostname: self.hostname },
                Operation::RemoveCopy,
            ),
            Stage::Removing(result) => Progress::Finished(result, removal_warning(reply)),
        }
    }

    /// Takes the reply to the operation that was asked for last and says what
    /// follows.
    pub fn advance(self, reply: Reply) -> (r: Progress)
        ensures
            r == self.advance_spec(reply),
    {
        let CookieRead { stage, hostname } = self;
        match stage {
            Stage::Copying => match reply {
                Reply::Failed(cause) => Progress::Finished(
                    Err(ExtractError::CopyError(cause)),
                    None,
                ),
                _ => Progress::Perform(
                    CookieRead { stage: Stage::Opening, hostname },
                    Operation::OpenReadOnly,
                ),
            },
            Stage::Opening => match reply {
                Reply::Failed(cause) => Progress::Perform(
                    CookieRead {
                        stage: Stage::Removing(Err(ExtractError::OpenError(cause))),
                        hostname,
                    },
                    Operation::RemoveCopy,
                ),
                _ => {
                    let host = hostname.clone();
                    Progress::Perform(
                        CookieRead { stage: Stage::Querying, hostname },
                        Operation::QueryHost(host),
                    )
                },
            },
            Stage::Querying => {
                let host = hostname.clone();
                let result = match reply {
                    Reply::Row(value) => Ok(value),
                    Reply::Done => Err(ExtractError::NotFound(host)),
                    Reply::Failed(cause) => Err(ExtractError::QueryError(cause)),
                };
                Progress::Perform(
                    CookieRead { stage: Stage::Closing(result), hostname },
                    Operation::CloseConnection,
                )
            },
            Stage::Closing(result) => Progress::Perform(
                CookieRead { stage: Stage::Removing(result), hostname },
                Operation::RemoveCopy,
            ),
            Stage::Removing(result) => {
                let warning = match reply {
                    Reply::Failed(cause) => Some(cause),
                    _ => None,
                };
                Progress::Finished(result, warning)
            },
        }
    }
}

/// Begins to read the cookie of `hostname` from the database at `db_path`:
/// the first operation is the copy.
pub fn read_ff_host_cookie(db_path: String, hostname: String) -> (r: (CookieRead, Operation))
    ensures
        r.0 == (CookieRead { stage: Stage::Copying, hostname }),
        r.1 == Operation::CopyDatabase(db_path),
{
    (CookieRead { stage: Stage::Copying, hostname }, Operation::CopyDatabase(db_path))
}

/// The operations that a read asks for while it is given `replies` in turn,
/// and the result and warning with which it ends, if the replies suffice.
pub open spec fn trace(read: CookieRead, replies: Seq<Reply>) -> (
    Seq<Operation>,
    Option<(Result<String, ExtractError>, Option<String>)>,
)
    decreases replies.len(),
{
    if replies.len() == 0 {
        (Seq::empty(), None)
    } else {
        match read.advance_spec(replies[0]) {
            Progress::Perform(next, operation) => {
                let rest = trace(next, replies.drop_first());
                (seq![operation] + rest.0, rest.1)
            },
            Progress::Finished(result, warning) => (Seq::empty(), Some((result, warning))),
        }
    }
}

/// Every read ends within five replies, in one of three ways. Where the copy
/// fails, nothing else is asked for. Where the copy cannot be opened, it is
/// removed. Otherwise the lookup is run, the connection is closed and then
/// the copy is removed, whatever the lookup and the closing reported. The
/// copy is thus removed at the end of every read that made one, and the
/// result is never changed by the cleanup.
pub proof fn law_copy_is_removed(hostname: String, replies: Seq<Reply>)
    requires
        replies.len() >= 5,
    ensures
        ({
            let read = CookieRead { stage: Stage::Copying, hostname };
            let (asked, end) = trace(read, replies);
            if replies[0] is Failed {
                &&& asked == Seq::<Operation>::empty()
                &&& end == Some(
                    (
                        Err::<String, ExtractError>(ExtractError::CopyError(replies[0]->Failed_0)),
                        None::<String>,
                    ),
                )
            } else if replies[1] is Failed {
                &&& asked == seq![Operation::OpenReadOnly, Operation::RemoveCopy]
                &&& end == Some(
                    (
                        Err::<String, ExtractError>(ExtractError::OpenError(replies[1]->Failed_0)),
                        removal_warning(replies[2]),
                    ),
                )
            } else {
                &&& asked == seq![
                    Operation::OpenReadOnly,
                    Operation::QueryHost(hostname),
                    Operation::CloseConnection,
                    Operation::RemoveCopy,
                ]
                &&& end == Some((query_result(hostname, replies[2]), removal_warning(replies[4])))
            }
        }),
{
    let read = CookieRead { stage: Stage::Copying, hostname };
    let r1 = replies.drop_first();
    let r2 = r1.drop_first();
    let r3 = r2.drop_first();
    let r4 = r3.drop_first();
    assert(r1[0] == replies[1]);
    assert(r2[0] == replies[2]);
    assert(r3[0] == replies[3]);
    assert(r4[0] == replies[4]);
    reveal_with_fuel(trace, 6);
    let (asked, end) = trace(read, replies);
    if replies[0] is Failed {
    } else if replies[1] is Failed {
        assert(asked =~= seq![Operation::OpenReadOnly, Operation::RemoveCopy]);
    } else {
        assert(asked =~= seq![
            Operation::OpenReadOnly,
            Operation::QueryHost(hostname),
            Operation::CloseConnection,
            Operation::RemoveCopy,
        ]);
    }
}

/// Every step names the operation of the stage that it leads to, and keeps
/// the host: the read-only opening while opening, the lookup of the host
/// while querying, the closing while closing, the removal while removing. No
/// step leads back to the copying.
pub proof fn law_operation_of_stage(read: CookieRead, reply: Reply)
    requires
        read.advance_spec(reply) is Perform,
    ensures
        ({
            let next = read.advance_spec(reply)->Perform_0;
            let operation = read.advance_spec(reply)->Perform_1;
            &&& next.hostname == read.hostname
            &&& match next.stage {
                Stage::Copying => false,
                Stage::Opening => operation == Operation::OpenReadOnly && read.stage is Copying,
                Stage::Querying => operation == Operation::QueryHost(read.hostname)
                    && read.stage is Opening,
                Stage::Closing(_) => operation == Operation::CloseConnection
                    && read.stage is Querying,
                Stage::Removing(_) => operation == Operation::RemoveCopy && (read.stage is Closing
                    || read.stage is Opening),
            }
        }),
{
}

} // verus!
