//! The `get` command: from the arguments and the configuration to the
//! request that is sent and the file that is written.
//!
//! The command is decided in steps, between which the caller does what a
//! step asks for: `get_cmd` plans the request or asks for the cookie of the
//! browser, `with_browser_cookie` plans the request once the cookie was read,
//! and `write_plan` turns the reply of the service into the file to write.

use crate::config::Config;
use crate::cookie::ExtractError;
use crate::output::{
    join_spec, output_directory, output_directory_spec, output_file_name_spec, output_path,
};
use crate::request::{
    puzzle_url, range_error, session_cookie, session_cookie_spec, validate, PuzzleRequest,
    RangeError,
};
use crate::response::PuzzleResponse;
use crate::text::{append_decimal, decimal};
use vstd::prelude::*;
use vstd::string::*;

verus! {

/// The arguments of the `get` command.
#[derive(Debug, Clone, PartialEq, Eq)]
pub struct GetArgs {
    pub day: u8,
    pub year: Option<u16>,
    pub output: Option<String>,
    pub session_key: Option<String>,
}

/// Why the `get` command failed.
#[derive(Debug, Clone, PartialEq, Eq)]
pub enum GetError {
    /// Neither the command nor the configuration gives a year.
    NoYear,
    /// The year or the day is out of range.
    Range(RangeError),
    /// No credential was given or configured, and none was read from the
    /// browser.
    Cookie(ExtractError),
    /// The service has no input at the address, which is carried along.
    NotFound(String),
    /// The service refused the credential.
    InvalidCredential,
    /// The service answered with another status; the body is carried along.
    OtherHttp(u16, String),
    /// No reply was received.
    Transport(String),
}

/// A request that is ready to be sent, and where its answer will be written.
#[derive(Debug, Clone, PartialEq, Eq)]
pub struct FetchPlan {
    /// The address to get.
    pub url: String,
    /// The value of the `cookie` header.
    pub cookie: String,
    /// The directory to create.
    pub directory: String,
    /// The file to write.
    pub path: String,
}

/// An admitted request that still lacks a credential.
#[derive(Debug, Clone, PartialEq, Eq)]
pub struct BrowserPlan {
    pub request: PuzzleRequest,
    pub directory: String,
}

/// What the `get` command does first.
#[derive(Debug, Clone, PartialEq, Eq)]
pub enum GetPlan {
    /// A credential is at hand: send the request.
    Fetch(FetchPlan),
    /// No credential is at hand: read the cookie of the browser.
    ReadBrowser(BrowserPlan),
}

/// The file that ends the `get` command.
#[derive(Debug, Clone, PartialEq, Eq)]
pub struct WritePlan {
    pub directory: String,
    pub path: String,
    pub body: String,
}

/// The year of the request: the one given with the command, else the
/// configured one.
pub open spec fn resolved_year(explicit: Option<u16>, configured: Option<u16>) -> Option<u16> {
    match explicit {
        Some(year) => Some(year),
        None => configured,
    }
}

/// The credential that is at hand without the browser: the one given with
/// the command, else the configured one.
pub open spec fn stored_credential(
    explicit: Option<String>,
    configured: Option<String>,
) -> Option<String> {
    match explicit {
        Some(key) => Some(key),
        None => configured,
    }
}

/// Whether `plan` is the request of `day` in `year` with `credential`, to be
/// written below `directory`.
pub open spec fn plans_fetch(
    plan: FetchPlan,
    year: u16,
    day: u8,
    credential: Seq<char>,
    directory: Seq<char>,
) -> bool {
    &&& plan.url@ == puzzle_url(year, day)
    &&& plan.cookie@ == session_cookie_spec(credential)
    &&& plan.directory@ == directory
    &&& plan.path@ == join_spec(directory, output_file_name_spec(year, day))
}

impl GetError {
    pub open spec fn message_spec(self) -> Seq<char> {
        match self {
            GetError::NoYear => "No year specified. You can re-run this command with the --year=<year> flag, or run `aochelper set year <year>` to permanently set it."@,
            GetError::Range(e) => e.message_spec(),
            GetError::Cookie(e) => "Failed to read firefox cookies: "@ + e.message_spec(),
            GetError::NotFound(url) => "Puzzle input for "@ + url@ + " not found."@,
            GetError::InvalidCredential => "Invalid session key supplied. You may need to log into adventofcode.com with your browser again."@,
            GetError::OtherHttp(status, body) => "Error getting puzzle input: "@ + decimal(
                status as nat,
            ) + "\n"@ + body@,
            GetError::Transport(cause) => cause@,
        }
    }

    /// The text of the error for the user.
    pub fn message(&self) -> (r: String)
        ensures
            r@ == self.message_spec(),
    {
        match self {
            GetError::NoYear => String::from_str(
                "No year specified. You can re-run this command with the --year=<year> flag, or run `aochelper set year <year>` to permanently set it.",
            ),
            GetError::Range(e) => e.message(),
            GetError::Cookie(e) => {
                let mut out = String::from_str("Failed to read firefox cookies: ");
                let cause = e.message();
                out.append(cause.as_str());
                out
            },
            GetError::NotFound(url) => {
                let mut out = String::from_str("Puzzle input for ");
                out.append(url.as_str());
                out.append(" not found.");
                out
            },
            GetError::InvalidCredential => String::from_str(
                "Invalid session key supplied. You may need to log into adventofcode.com with your browser again.",
            ),
            GetError::OtherHttp(status, body) => {
                let mut out = String::from_str("Error getting puzzle input: ");
                append_decimal(&mut out, *status);
                out.append("\n");
                out.append(body.as_str());
                out
            },
            GetError::Transport(cause) => cause.clone(),
        }
    }
}

/// The year of the request, or the error that none is known.
pub fn resolve_year(explicit: Option<u16>, configured: Option<u16>) -> (r: Result<u16, GetError>)
    ensures
        match resolved_year(explicit, configured) {
            Some(year) => r == Ok::<u16, GetError>(year),
            None => r == Err::<u16, GetError>(GetError::NoYear),
        },
{
    match explicit {
        Some(year) => Ok(year),
        None => match configured {
            Some(year) => Ok(year),
            None => Err(GetError::NoYear),
        },
    }
}

/// The credential that is at hand without the browser. The key given with
/// the command goes before the configured one; `None` says that the browser
/// has to be read.
pub fn resolve_credential(explicit: Option<String>, configured: Option<String>) -> (r: Option<
    String,
>)
    ensures
        r == stored_credential(explicit, configured),
        r is None <==> explicit is None && configured is None,
{
    match explicit {
        Some(key) => Some(key),
        None => configured,
    }
}

/// The request of an admitted puzzle with a credential.
pub fn fetch_plan(request: PuzzleRequest, credential: &str, directory: String) -> (r: FetchPlan)
    ensures
        plans_fetch(r, request.year_spec(), request.day_spec(), credential@, directory@),
{
    let url = request.url();
    let cookie = session_cookie(credential);
    let path = output_path(directory.as_str(), request.year(), request.day());
    FetchPlan { url, cookie, directory, path }
}

/// Whether `r` is what the `get` command decides on `args` and `config`.
pub open spec fn get_cmd_result(args: GetArgs, config: Config, r: Result<GetPlan, GetError>) -> bool {
    match resolved_year(args.year, config.year) {
        None => r == Err::<GetPlan, GetError>(GetError::NoYear),
        Some(year) => match range_error(year, args.day) {
            Some(e) => r == Err::<GetPlan, GetError>(GetError::Range(e)),
            None => r is Ok && {
                let directory = output_directory_spec(args.output, config.output_path);
                match stored_credential(args.session_key, config.session_key) {
                    Some(key) => r->Ok_0 is Fetch && plans_fetch(
                        r->Ok_0->Fetch_0,
                        year,
                        args.day,
                        key@,
                        directory,
                    ),
                    None => {
                        &&& r->Ok_0 is ReadBrowser
                        &&& r->Ok_0->ReadBrowser_0.request.year_spec() == year
                        &&& r->Ok_0->ReadBrowser_0.request.day_spec() == args.day
                        &&& r->Ok_0->ReadBrowser_0.directory@ == directory
                    },
                }
            },
        },
    }
}

/// Decides the `get` command from its arguments and the configuration.
///
/// Without a year the command fails. A year or day out of range fails next,
/// before anything is read or sent. Then the request is planned with the
/// credential that is at hand, or the cookie of the browser is asked for
/// where none is.
pub fn get_cmd(args: GetArgs, config: Config) -> (r: Result<GetPlan, GetError>)
    ensures
        get_cmd_result(args, config, r),
{
    let GetArgs { day, year, output, session_key } = args;
    let Config { year: config_year, session_key: config_key, output_path } = config;
    let year = match resolve_year(year, config_year) {
        Ok(year) => year,
        Err(e) => {
            return Err(e);
        },
    };
    let request = match validate(year, day) {
        Ok(request) => request,
        Err(e) => {
            return Err(GetError::Range(e));
        },
    };
    let directory = output_directory(output, output_path);
    match resolve_credential(session_key, config_key) {
        Some(key) => Ok(GetPlan::Fetch(fetch_plan(request, key.as_str(), directory))),
        None => Ok(GetPlan::ReadBrowser(BrowserPlan { request, directory })),
    }
}

/// Plans the request once the browser was read: with the cookie, or not at
/// all where none was read.
pub fn with_browser_cookie(plan: BrowserPlan, cookie: Result<String, ExtractError>) -> (r: Result<
    FetchPlan,
    GetError,
>)
    ensures
        match cookie {
            Ok(key) => r is Ok && plans_fetch(
                r->Ok_0,
                plan.request.year_spec(),
                plan.request.day_spec(),
                key@,
                plan.directory@,
            ),
            Err(e) => r == Err::<FetchPlan, GetError>(GetError::Cookie(e)),
        },
{
    match cookie {
        Ok(key) => Ok(fetch_plan(plan.request, key.as_str(), plan.directory)),
        Err(e) => Err(GetError::Cookie(e)),
    }
}

/// What the reply of the service leads to: the file to write for a success,
/// and for every other response its error.
pub open spec fn write_plan_spec(plan: FetchPlan, response: PuzzleResponse) -> Result<
    WritePlan,
    GetError,
> {
    match response {
        PuzzleResponse::Success(body) => Ok(
            WritePlan { directory: plan.directory, path: plan.path, body },
        ),
        PuzzleResponse::NotFound => Err(GetError::NotFound(plan.url)),
        PuzzleResponse::InvalidCredential => Err(GetError::InvalidCredential),
        PuzzleResponse::OtherHttpError(status, body) => Err(GetError::OtherHttp(status, body)),
        PuzzleResponse::TransportFailure(cause) => Err(GetError::Transport(cause)),
    }
}

/// Ends the `get` command with the response of the service.
pub fn write_plan(plan: FetchPlan, response: PuzzleResponse) -> (r: Result<WritePlan, GetError>)
    ensures
        r == write_plan_spec(plan, response),
{
    match response {
        PuzzleResponse::Success(body) => Ok(
            WritePlan { directory: plan.directory, path: plan.path, body },
        ),
        PuzzleResponse::NotFound => Err(GetError::NotFound(plan.url)),
        PuzzleResponse::InvalidCredential => Err(GetError::InvalidCredential),
        PuzzleResponse::OtherHttpError(status, body) => Err(GetError::OtherHttp(status, body)),
        PuzzleResponse::TransportFailure(cause) => Err(GetError::Transport(cause)),
    }
}

/// A request is planned only for a year and a day in range: whatever the
/// arguments and the configuration hold, a plan of either kind implies that
/// the resolved year and the day are admitted.
pub proof fn law_no_plan_out_of_range(args: GetArgs, config: Config, r: Result<GetPlan, GetError>)
    requires
        get_cmd_result(args, config, r),
        r is Ok,
    ensures
        resolved_year(args.year, config.year) is Some,
        range_error(resolved_year(args.year, config.year)->Some_0, args.day) is None,
{
}

/// With a key given or configured the browser is never asked for: the plan,
/// where there is one, is the request, with the key of the command where
/// both are there.
pub proof fn law_stored_key_spares_browser(
    args: GetArgs,
    config: Config,
    r: Result<GetPlan, GetError>,
)
    requires
        get_cmd_result(args, config, r),
        args.session_key is Some || config.session_key is Some,
    ensures
        r is Ok ==> r->Ok_0 is Fetch,
        r is Ok && args.session_key is Some ==> r->Ok_0->Fetch_0.cookie@ == session_cookie_spec(
            args.session_key->Some_0@,
        ),
        r is Ok && args.session_key is None ==> r->Ok_0->Fetch_0.cookie@ == session_cookie_spec(
            config.session_key->Some_0@,
        ),
{
}

/// Without a key given or configured no request is planned at once: the
/// plan, where there is one, asks for the cookie of the browser.
pub proof fn law_browser_without_stored_key(
    args: GetArgs,
    config: Config,
    r: Result<GetPlan, GetError>,
)
    requires
        get_cmd_result(args, config, r),
        args.session_key is None,
        config.session_key is None,
    ensures
        r is Ok ==> r->Ok_0 is ReadBrowser,
{
}

} // verus!
