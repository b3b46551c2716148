//! What is sent to the host: the addresses of its lists and the requests that
//! ask for them; and what is remembered of its answers: the rate limit.

use crate::name_map::NameMap;
use crate::text::{count_of, is_count, join, parse_count, trim, trimmed};
use vstd::prelude::*;
use vstd::string::*;

verus! {

/// The address of the host's API.
pub open spec fn host() -> Seq<char> {
    "https://api.github.com"@
}

/// The address of a path on the host.
pub fn url_for_path(path: &str) -> (url: String)
    ensures
        url@ == host() + path@,
{
    join("https://api.github.com", path)
}

/// The path of a team of the organisation.
pub fn team_path(team_name: &str) -> (path: String)
    ensures
        path@ == "/orgs/navikt/teams/"@ + team_name@,
{
    join("/orgs/navikt/teams/", team_name)
}

/// The page that lists the members of a team.
pub fn members_url(team_name: &str) -> (url: String)
    ensures
        url@ == "https://github.com/orgs/navikt/teams/"@ + team_name@ + "/members"@,
{
    let start = join("https://github.com/orgs/navikt/teams/", team_name);
    join(start.as_str(), "/members")
}

/// The address that lists the repositories of a team, a hundred to the page,
/// from the address that the team itself names.
pub fn repositories_url(team_repositories_url: &str) -> (url: String)
    ensures
        url@ == team_repositories_url@ + "?per_page=100"@,
{
    join(team_repositories_url, "?per_page=100")
}

/// The path that lists the environments of a repository.
pub fn environments_path(repository_name: &str) -> (path: String)
    ensures
        path@ == "/repos/navikt/"@ + repository_name@ + "/environments"@,
{
    let start = join("/repos/navikt/", repository_name);
    join(start.as_str(), "/environments")
}

/// The path that lists the open pull requests of a repository.
pub fn pulls_path(repository_name: &str) -> (path: String)
    ensures
        path@ == "/repos/navikt/"@ + repository_name@ + "/pulls"@,
{
    let start = join("/repos/navikt/", repository_name);
    join(start.as_str(), "/pulls")
}

/// The path that lists the workflows of a repository.
pub fn workflows_path(repository_name: &str) -> (path: String)
    ensures
        path@ == "/repos/navikt/"@ + repository_name@ + "/actions/workflows"@,
{
    let start = join("/repos/navikt/", repository_name);
    join(start.as_str(), "/actions/workflows")
}

/// The path that lists the fifteen most recent workflow runs of a repository.
pub fn workflow_runs_path(repository_name: &str) -> (path: String)
    ensures
        path@ == "/repos/navikt/"@ + repository_name@ + "/actions/runs?per_page=15"@,
{
    let start = join("/repos/navikt/", repository_name);
    join(start.as_str(), "/actions/runs?per_page=15")
}

/// The path that lists the ten most recent failed workflow runs of a
/// repository.
pub fn failed_runs_path(repository_name: &str) -> (path: String)
    ensures
        path@ == "/repos/navikt/"@ + repository_name@ + "/actions/runs?status=failure&per_page=10"@,
{
    let start = join("/repos/navikt/", repository_name);
    join(start.as_str(), "/actions/runs?status=failure&per_page=10")
}

/// A request to the host, ready to be sent.
pub struct Request {
    /// `GET` for every request made here.
    pub method: String,
    pub url: String,
    pub body: Vec<u8>,
    /// The headers by name.
    pub headers: NameMap<String>,
}

/// The value of the header that authorises a request with `token`.
pub open spec fn bearer(token: Seq<char>) -> Seq<char> {
    "Bearer "@ + token
}

/// `request` is the request that asks the host for `url` on behalf of the
/// holder of `token`: a `GET` without a body that accepts the host's JSON,
/// names its sender and carries the token.
pub open spec fn is_github_request(request: Request, token: Seq<char>, url: Seq<char>) -> bool {
    &&& request.method@ == "GET"@
    &&& request.url@ == url
    &&& request.body@ == Seq::<u8>::empty()
    &&& request.headers.names().len() == 3
    &&& request.headers.has("Accept"@)
    &&& request.headers.value_of("Accept"@)@ == "application/vnd.github+json"@
    &&& request.headers.has("User-Agent"@)
    &&& request.headers.value_of("User-Agent"@)@ == "rust, ehttp::fetch"@
    &&& request.headers.has("Authorization"@)
    &&& request.headers.value_of("Authorization"@)@ == bearer(token)
}

impl Request {
    /// The request for `url` that carries `token` as it is given.
    pub fn with_bearer(token: &str, url: &str) -> (request: Request)
        ensures
            is_github_request(request, token@, url@),
    {
        proof {
            reveal_strlit("Accept");
            reveal_strlit("User-Agent");
            reveal_strlit("Authorization");
            assert("Accept"@.len() == 6);
            assert("User-Agent"@.len() == 10);
            assert("Authorization"@.len() == 13);
        }
        let mut headers: NameMap<String> = NameMap::new();
        assert(!headers.has("Accept"@));
        assert(!headers.has("User-Agent"@));
        assert(!headers.has("Authorization"@));
        headers.insert(String::from_str("Accept"), String::from_str("application/vnd.github+json"));
        headers.insert(String::from_str("User-Agent"), String::from_str("rust, ehttp::fetch"));
        headers.insert(String::from_str("Authorization"), join("Bearer ", token));
        Request {
            method: String::from_str("GET"),
            url: String::from_str(url),
            body: Vec::new(),
            headers,
        }
    }

    /// The request for `url` on behalf of the holder of `token`. White space
    /// around the token, as comes with pasting it, is not sent.
    pub fn github(token: &str, url: &str) -> (request: Request)
        ensures
            is_github_request(request, trimmed(token@), url@),
    {
        let bare = trim(token);
        Request::with_bearer(bare.as_str(), url)
    }
}

/// What is remembered of the host's rate limit.
#[derive(Clone, Copy, Debug)]
pub struct Client {
    rate_limit: usize,
    rate_limit_reset_in_hours: u64,
}

/// What a [`Client`] holds.
pub struct ClientView {
    /// The number of requests that the host still accepts.
    pub rate_limit: usize,
    /// The hours that [`Client::set_reset_epoch`] counted.
    pub rate_limit_reset_in_hours: u64,
}

/// The hours from the moment `reset_epoch` seconds before the start of 1970 to
/// the moment `now` seconds after it.
pub open spec fn hours_between(reset_epoch: u64, now: u64) -> int {
    (now + reset_epoch) / 3600
}

/// `SystemTime::elapsed` on the start of 1970: the machine's clock in whole
/// seconds since then, none where the clock stands before it. Nothing is
/// known of the number.
#[verifier::external_body]
fn seconds_since_1970() -> (now: Option<u64>) {
    std::time::UNIX_EPOCH.elapsed().ok().map(|passed| passed.as_secs())
}

impl View for Client {
    type V = ClientView;

    closed spec fn view(&self) -> ClientView {
        ClientView {
            rate_limit: self.rate_limit,
            rate_limit_reset_in_hours: self.rate_limit_reset_in_hours,
        }
    }
}

/// What a client holds before it has heard from the host: 5000 requests,
/// reset in 24 hours.
pub open spec fn fresh_client() -> ClientView {
    ClientView { rate_limit: 5000, rate_limit_reset_in_hours: 24 }
}

impl Default for Client {
    /// A client that has heard nothing yet.
    fn default() -> (client: Self)
        ensures
            client@ == fresh_client(),
    {
        Client { rate_limit: 5000, rate_limit_reset_in_hours: 24 }
    }
}

impl Client {
    /// Remembers how many requests the host still accepts.
    pub fn set_rate_limit(&mut self, remaining: usize)
        ensures
            final(self)@ == (ClientView { rate_limit: remaining, ..old(self)@ }),
    {
        self.rate_limit = remaining;
    }

    /// Remembers the rate limit as the host writes it in a header. A text
    /// that is no count, or a count too large for the machine, changes
    /// nothing.
    pub fn record_rate_limit(&mut self, header: &str)
        ensures
            is_count(header@) && count_of(header@) <= usize::MAX ==> final(self)@ == (ClientView {
                rate_limit: count_of(header@) as usize,
                ..old(self)@
            }),
            !(is_count(header@) && count_of(header@) <= usize::MAX) ==> final(self)@ == old(self)@,
    {
        match parse_count(header) {
            Some(remaining) => self.set_rate_limit(remaining),
            None => {},
        }
    }

    /// Remembers the hours between the moment `reset_epoch` seconds before
    /// the start of 1970 and the moment `now` seconds after it.
    pub fn set_reset_epoch_at(&mut self, reset_epoch: u64, now: u64)
        ensures
            final(self)@ == (ClientView {
                rate_limit_reset_in_hours: hours_between(reset_epoch, now) as u64,
                ..old(self)@
            }),
            hours_between(reset_epoch, now) <= u64::MAX,
    {
        let total: u128 = now as u128 + reset_epoch as u128;
        self.rate_limit_reset_in_hours = (total / 3600) as u64;
    }

    /// Reads the clock and remembers the hours between the moment
    /// `reset_epoch` seconds before the start of 1970 and now. Where the
    /// clock cannot be read as a time since 1970, nothing changes.
    pub fn set_reset_epoch(&mut self, reset_epoch: u64)
        ensures
            final(self)@ == old(self)@ || exists|now: u64|
                final(self)@ == (ClientView {
                    rate_limit_reset_in_hours: #[trigger] hours_between(reset_epoch, now) as u64,
                    ..old(self)@
                }),
    {
        match seconds_since_1970() {
            Some(now) => self.set_reset_epoch_at(reset_epoch, now),
            None => {},
        }
    }

    /// Reads the clock and remembers the hours counted from the moment that the
    /// host writes in a header, as [`Client::set_reset_epoch`] counts them. A
    /// text that is no count, or a count too large for the machine, changes
    /// nothing.
    pub fn record_reset_epoch(&mut self, header: &str)
        ensures
            final(self)@.rate_limit == old(self)@.rate_limit,
            final(self)@ == old(self)@ || (is_count(header@) && count_of(header@) <= usize::MAX
                && exists|now: u64|
                final(self)@.rate_limit_reset_in_hours == #[trigger] hours_between(
                    count_of(header@) as u64,
                    now,
                ) as u64),
    {
        match seconds_since_1970() {
            Some(now) => self.record_reset_epoch_at(header, now),
            None => {},
        }
    }

    /// Remembers the hours counted from the moment that the host writes in a
    /// header to the moment `now` seconds after the start of 1970, as
    /// [`Client::set_reset_epoch_at`] counts them. A text that is no count, or
    /// a count too large for the machine, changes nothing.
    pub fn record_reset_epoch_at(&mut self, header: &str, now: u64)
        ensures
            is_count(header@) && count_of(header@) <= usize::MAX ==> final(self)@ == (ClientView {
                rate_limit_reset_in_hours: hours_between(count_of(header@) as u64, now) as u64,
                ..old(self)@
            }),
            !(is_count(header@) && count_of(header@) <= usize::MAX) ==> final(self)@ == old(self)@,
    {
        match parse_count(header) {
            Some(reset) => self.set_reset_epoch_at(reset as u64, now),
            None => {},
        }
    }

    /// The number of requests that the host still accepts.
    pub fn get_rate_limit(&self) -> (remaining: usize)
        ensures
            remaining == self@.rate_limit,
    {
        self.rate_limit
    }

    /// The hours that were counted last.
    pub fn get_rate_reset(&self) -> (hours: u64)
        ensures
            hours == self@.rate_limit_reset_in_hours,
    {
        self.rate_limit_reset_in_hours
    }
}

/// The token that the user entered and whether it is shown in clear.
#[derive(Debug)]
pub struct GitHubApi {
    pub token: String,
    pub token_visible: bool,
}

impl GitHubApi {
    /// Shows the token if it was hidden and hides it if it was shown.
    pub fn toggle_token_visibility(&mut self)
        ensures
            final(self).token_visible == !old(self).token_visible,
            final(self).token == old(self).token,
    {
        self.token_visible = !self.token_visible;
    }

    /// Takes a new token.
    pub fn update_token(&mut self, token: String)
        ensures
            final(self).token == token,
            final(self).token_visible == old(self).token_visible,
    {
        self.token = token;
    }

    /// The request for a path on the host, with the token held.
    pub fn request_for_path(&self, path: &str) -> (request: Request)
        ensures
            is_github_request(request, trimmed(self.token@), host() + path@),
    {
        let url = url_for_path(path);
        Request::github(self.token.as_str(), url.as_str())
    }

    /// The request for an address, with the token held.
    pub fn request_for_url(&self, url: &str) -> (request: Request)
        ensures
            is_github_request(request, trimmed(self.token@), url@),
    {
        Request::github(self.token.as_str(), url)
    }
}

impl Default for GitHubApi {
    /// No token, and the token hidden.
    fn default() -> (api: Self)
        ensures
            api.token@ == Seq::<char>::empty(),
            !api.token_visible,
    {
        GitHubApi { token: String::new(), token_visible: false }
    }
}

} // verus!
