//! One lookup as a sequence of decisions: each outcome reported by the
//! caller (who performs the requests) leads to the next thing to do.
//!
//! A lookup first asks whether the package exists, then fetches its
//! version history, then prints; any failure ends it at once.

use vstd::prelude::*;
use vstd::string::*;

use crate::errors::{
    fails_with, missing_crate, missing_crate_text, no_stable_text, no_stable_version,
    resolving_failure, Failure, ResolvingError,
};
use crate::format::Line;
use crate::report::{latest_line, list_lines, reports_latest, reports_list};
use crate::version::{all_yanked, Version};

verus! {

/// What the user asked for: a package, and whether only its latest stable
/// version is wanted (the default) or its whole history.
pub struct Settings {
    pub crate_name: String,
    pub latest: Option<bool>,
}

/// An HTTP GET to perform.
pub struct Request {
    pub url: String,
    pub user_agent: String,
}

/// What the caller reports back after starting or after a request.
pub enum Event {
    /// The lookup begins.
    Started,
    /// The existence request completed with this HTTP status.
    ExistenceStatus(u16),
    /// The existence request could not be completed.
    ExistenceUnreachable,
    /// The version request could not be completed.
    VersionsUnreachable,
    /// The version response did not decode as a version history.
    VersionsUnreadable,
    /// The version response decoded to this history, oldest first.
    VersionsListed(Vec<Version>),
}

/// What the caller does next.
pub enum Action {
    /// Perform this request, which asks whether the package exists, and
    /// report its outcome.
    CheckExistence(Request),
    /// Perform this request, which fetches the version history, and report
    /// its outcome.
    FetchVersions(Request),
    /// Print these lines; the lookup has succeeded.
    Print(Vec<Line>),
    /// Report this failure; the lookup is over.
    Fail(Failure),
}

pub open spec fn api_base() -> Seq<char> {
    "http://crates.io/api/v1/crates/"@
}

/// Address that answers whether package `name` exists.
pub open spec fn crate_url_text(name: Seq<char>) -> Seq<char> {
    api_base() + name
}

/// Address of the version history of package `name`.
pub open spec fn versions_url_text(name: Seq<char>) -> Seq<char> {
    api_base() + name + "/versions"@
}

/// How the client names itself to the registry.
pub open spec fn user_agent_text() -> Seq<char> {
    "get last version cli"@
}

/// The HTTP statuses of success: 200 to 299.
pub open spec fn is_success_status(code: u16) -> bool {
    200 <= code && code < 300
}

/// `q` asks for `url` and names this client.
pub open spec fn requests(q: Request, url: Seq<char>) -> bool {
    q.url@ == url && q.user_agent@ == user_agent_text()
}

/// `a` ends the lookup with `message`.
pub open spec fn stops_with(a: Action, message: Seq<char>) -> bool {
    a matches Action::Fail(f) && fails_with(f, message)
}

/// Whether an HTTP status reports success.
pub fn is_success(code: u16) -> (r: bool)
    ensures
        r == is_success_status(code),
{
    200 <= code && code < 300
}

pub fn crate_url(name: &str) -> (r: String)
    ensures
        r@ == crate_url_text(name@),
{
    let mut u = String::from_str("http://crates.io/api/v1/crates/");
    u.append(name);
    u
}

pub fn versions_url(name: &str) -> (r: String)
    ensures
        r@ == versions_url_text(name@),
{
    let mut u = String::from_str("http://crates.io/api/v1/crates/");
    u.append(name);
    u.append("/versions");
    u
}

pub fn user_agent() -> (r: String)
    ensures
        r@ == user_agent_text(),
{
    String::from_str("get last version cli")
}

fn get(url: String) -> (r: Request)
    ensures
        requests(r, url@),
{
    Request { url, user_agent: user_agent() }
}

impl Settings {
    pub fn new(crate_name: String, latest: Option<bool>) -> (r: Settings)
        ensures
            r.crate_name@ == crate_name@,
            r.latest == latest,
    {
        Settings { crate_name, latest }
    }

    /// Only the latest stable version is reported unless the flag is
    /// explicitly false.
    pub open spec fn latest_mode(self) -> bool {
        self.latest != Some(false)
    }

    pub fn latest_only(&self) -> (r: bool)
        ensures
            r == self.latest_mode(),
    {
        match self.latest {
            Some(b) => b,
            None => true,
        }
    }

    /// The step that follows `event`: the existence check first, the
    /// version history only for a package that exists, then the report.
    pub fn next_action(&self, event: Event) -> (r: Action)
        ensures
            match event {
                Event::Started => r matches Action::CheckExistence(q) && requests(
                    q,
                    crate_url_text(self.crate_name@),
                ),
                Event::ExistenceStatus(code) => if is_success_status(code) {
                    r matches Action::FetchVersions(q) && requests(
                        q,
                        versions_url_text(self.crate_name@),
                    )
                } else {
                    stops_with(r, missing_crate_text(self.crate_name@))
                },
                Event::ExistenceUnreachable => stops_with(
                    r,
                    ResolvingError::RequestError.message_text(),
                ),
                Event::VersionsUnreachable => stops_with(
                    r,
                    ResolvingError::RequestError.message_text(),
                ),
                Event::VersionsUnreadable => stops_with(
                    r,
                    ResolvingError::VersionsParseError.message_text(),
                ),
                Event::VersionsListed(vs) => if !self.latest_mode() {
                    r matches Action::Print(ls) && reports_list(self.crate_name@, vs@, ls@)
                } else if all_yanked(vs@) {
                    stops_with(r, no_stable_text())
                } else {
                    r matches Action::Print(ls) && ls@.len() == 1 && reports_latest(
                        self.crate_name@,
                        vs@,
                        ls@[0],
                    )
                },
            },
    {
        let name = self.crate_name.as_str();
        match event {
            Event::Started => Action::CheckExistence(get(crate_url(name))),
            Event::ExistenceStatus(code) => {
                if is_success(code) {
                    Action::FetchVersions(get(versions_url(name)))
                } else {
                    Action::Fail(missing_crate(name))
                }
            },
            Event::ExistenceUnreachable => Action::Fail(
                resolving_failure(ResolvingError::RequestError),
            ),
            Event::VersionsUnreachable => Action::Fail(
                resolving_failure(ResolvingError::RequestError),
            ),
            Event::VersionsUnreadable => Action::Fail(
                resolving_failure(ResolvingError::VersionsParseError),
            ),
            Event::VersionsListed(vs) => {
                if !self.latest_only() {
                    Action::Print(list_lines(name, &vs))
                } else {
                    match latest_line(name, &vs) {
                        Some(l) => {
                            let mut ls: Vec<Line> = Vec::new();
                            ls.push(l);
                            Action::Print(ls)
                        },
                        None => Action::Fail(no_stable_version()),
                    }
                }
            },
        }
    }
}

} // verus!
