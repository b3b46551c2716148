use github_status::model::deployment::{Color, State, Status};
use github_status::model::pull_request::{Head, PullRequest, Repo, User};
use github_status::model::repository::Repository;
use github_status::model::team::Team;
use github_status::text::{comes_before, equal, join, strip_suffix};

fn status(state: State, description: &str) -> Status {
    Status { url: String::from("u"), id: 1, state, description: String::from(description) }
}

fn repository(name: &str, pulls_url: &str) -> Repository {
    Repository {
        id: 1,
        name: String::from(name),
        full_name: format!("navikt/{}", name),
        html_url: String::new(),
        deployments_url: String::new(),
        releases_url: String::new(),
        pulls_url: String::from(pulls_url),
        description: None,
        archived: false,
    }
}

fn pull_request() -> PullRequest {
    PullRequest {
        id: 9,
        url: String::from("https://api/pulls/9"),
        html_url: None,
        title: None,
        user: None,
        head: Head {
            reference: String::from("feature"),
            sha: String::from("abc"),
            repo: Repo { id: 3, url: String::from("r"), name: String::from("app") },
        },
        updated_at: None,
    }
}

#[test]
fn description_is_empty_for_success_only() {
    assert_eq!(status(State::Success, "all good").description(), "");
    assert_eq!(status(State::Error, "boom").description(), "boom");
    assert_eq!(status(State::Failure, "failed").description(), "failed");
    assert_eq!(status(State::Inactive, "old").description(), "old");
    assert_eq!(status(State::Pending, "wait").description(), "wait");
    assert_eq!(status(State::Queued, "queued").description(), "queued");
    assert_eq!(status(State::InProgress, "running").description(), "running");
    assert_eq!(status(State::Failure, "").description(), "");
}

#[test]
fn states_have_names_and_colours() {
    let expected = [
        (State::Error, "Error", Color::LightRed),
        (State::Failure, "Failure", Color::LightRed),
        (State::Inactive, "Inactive", Color::LightGray),
        (State::Pending, "Pending", Color::LightBlue),
        (State::Success, "Success", Color::LightGreen),
        (State::Queued, "Queued", Color::LightBlue),
        (State::InProgress, "InProgress", Color::LightRed),
    ];
    for (state, name, color) in expected {
        assert_eq!(state.to_string(), name);
        assert_eq!(format!("{:?}", state), name);
        assert_eq!(status(state, "d").color(), color);
    }
}

#[test]
fn clones_are_equal() {
    let first = repository("app", "p");
    let copy = first.clone();
    assert!(first == copy);
    let s = status(State::Queued, "d");
    let t = s.clone();
    assert_eq!(s.description, t.description);
    assert_eq!(s.id, t.id);
    assert_eq!(s.state, t.state);
}

#[test]
fn repositories_differ_where_a_field_differs() {
    let a = repository("app", "p");
    let mut b = a.clone();
    assert!(a == b);
    b.archived = true;
    assert!(a != b);
    let mut c = a.clone();
    c.description = Some(String::new());
    assert!(a != c);
    let mut d = a.clone();
    d.name = String::from("other");
    assert!(a != d);
    let mut e = a.clone();
    e.id = 2;
    assert!(a != e);
    let mut f = c.clone();
    f.description = Some(String::from("x"));
    assert!(c != f);
}

#[test]
fn pulls_url_drops_the_placeholder() {
    let with = repository("app", "https://api.github.com/repos/navikt/app/pulls{/number}");
    assert_eq!(with.pulls_url(), "https://api.github.com/repos/navikt/app/pulls");
    let without = repository("app", "https://api.github.com/repos/navikt/app/pulls");
    assert_eq!(without.pulls_url(), "https://api.github.com/repos/navikt/app/pulls");
    let inner = repository("app", "https://x/{/number}/pulls");
    assert_eq!(inner.pulls_url(), "https://x/{/number}/pulls");
    let only = repository("app", "{/number}");
    assert_eq!(only.pulls_url(), "");
    let short = repository("app", "number}");
    assert_eq!(short.pulls_url(), "number}");
    let empty = repository("app", "");
    assert_eq!(empty.pulls_url(), "");
}

#[test]
fn suffixes_of_other_alphabets() {
    assert_eq!(strip_suffix("blåbærsyltetøy", "tøy"), "blåbærsylte");
    assert_eq!(strip_suffix("blåbær", "bar"), "blåbær");
    assert_eq!(strip_suffix("abc", ""), "abc");
}

#[test]
fn pull_request_falls_back_where_fields_are_absent() {
    let bare = pull_request();
    assert_eq!(bare.html(), "https://api/pulls/9");
    assert_eq!(bare.title(), "unknown");
    assert_eq!(bare.user(), "unknown");
    assert_eq!(bare.updated_at(), "unknown");
    assert_eq!(bare.repo(), "app");
}

#[test]
fn pull_request_shows_the_fields_it_has() {
    let mut full = pull_request();
    full.html_url = Some(String::from("https://github.com/navikt/app/pull/9"));
    full.title = Some(String::from("Fix it"));
    full.user = Some(User { login: String::from("octocat") });
    full.updated_at = Some(String::from("2012-07-20T01:19:13Z"));
    assert_eq!(full.html(), "https://github.com/navikt/app/pull/9");
    assert_eq!(full.title(), "Fix it");
    assert_eq!(full.user(), "octocat");
    assert_eq!(full.updated_at(), "2012-07-20T01:19:13Z");
    assert_eq!(full.repo(), "app");
}

#[test]
fn team_is_shown_by_name_and_description() {
    let mut team = Team {
        id: 1,
        name: String::from("aap"),
        slug: String::from("aap"),
        description: Some(String::from("Arbeidsavklaringspenger")),
        privacy: String::new(),
        url: String::new(),
        html_url: String::new(),
        members_url: String::new(),
        repositories_url: String::new(),
        permission: String::new(),
    };
    assert_eq!(team.to_string(), "aap\nArbeidsavklaringspenger");
    team.description = None;
    assert_eq!(team.to_string(), "aap\n");
}

#[test]
fn texts_compare_by_their_bytes() {
    let names = ["", "A", "B", "a", "aa", "ab", "b", "z", "å", "ø", "app", "app-2", "apple"];
    for a in names {
        for b in names {
            assert_eq!(equal(a, b), a == b, "{:?} {:?}", a, b);
            assert_eq!(comes_before(a, b), a < b, "{:?} {:?}", a, b);
        }
    }
}

#[test]
fn texts_join() {
    assert_eq!(join("ab", "cd"), "abcd");
    assert_eq!(join("", "cd"), "cd");
    assert_eq!(join("ab", ""), "ab");
}
