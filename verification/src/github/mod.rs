//! Requests to GitHub and what its replies mean.

pub mod answer_laws;
pub mod cache;
pub mod changes;
pub mod check_status;
pub mod credentials;
pub mod details;
pub mod discovery;
pub mod discovery_laws;
pub mod exchange;
pub mod failure;
pub mod fields;
pub mod lookup_laws;
pub mod reading_laws;
pub mod request_laws;
pub mod response;
pub mod snapshot_laws;

use crate::config;
use crate::config::{Config, ConfigView};
use crate::text;
use credentials::Sessions;
use vstd::prelude::*;

verus! {

/// A pull request by its identity.
#[derive(Debug)]
pub struct PrRef {
    pub id: String,
    pub repo: String,
    pub number: u64,
}

/// The contents of a [`PrRef`].
#[verifier::ext_equal]
pub struct PrRefView {
    pub id: Seq<char>,
    pub repo: Seq<char>,
    pub number: u64,
}

impl View for PrRef {
    type V = PrRefView;

    open spec fn view(&self) -> PrRefView {
        PrRefView { id: self.id@, repo: self.repo@, number: self.number }
    }
}

impl DeepView for PrRef {
    type V = PrRefView;

    open spec fn deep_view(&self) -> PrRefView {
        self@
    }
}

impl Clone for PrRef {
    fn clone(&self) -> (r: Self)
        ensures
            r@ == self@,
    {
        PrRef { id: self.id.clone(), repo: self.repo.clone(), number: self.number }
    }
}

/// Where the GitHub CLI is looked for beside the search path.
pub open spec fn usual_places() -> Seq<Seq<char>> {
    seq!["/opt/homebrew/bin/gh"@, "/usr/local/bin/gh"@, "/usr/bin/gh"@]
}

/// The paths at which the GitHub CLI may be, in the order in which they are tried: the one
/// that the settings name, or those of the search path and the usual ones.
pub open spec fn candidates_of(config: ConfigView, search_path: Seq<char>) -> Seq<Seq<char>> {
    match config.gh_path {
        Some(path) => seq![path],
        None => text::split_on(search_path, ':').map_values(|d: Seq<char>| config::path_below(d, "gh"@)) + usual_places(),
    }
}

/// The first path at which there is a file.
pub open spec fn first_file(candidates: Seq<Seq<char>>, files: Seq<bool>) -> Option<Seq<char>>
    decreases candidates.len(),
{
    if candidates.len() == 0 || files.len() == 0 {
        None
    } else if files[0] {
        Some(candidates[0])
    } else {
        first_file(candidates.drop_first(), files.drop_first())
    }
}

/// The path of the GitHub CLI, given at which of the candidates there is a file.
pub open spec fn resolved(config: ConfigView, candidates: Seq<Seq<char>>, files: Seq<bool>) -> Result<Seq<char>, Seq<char>> {
    match config.gh_path {
        Some(path) => if "/"@.is_prefix_of(path) && first_file(candidates, files) == Some(path) {
            Ok(path)
        } else {
            Err("Configured gh_path must be an existing absolute executable path"@)
        },
        None => match first_file(candidates, files) {
            Some(path) => Ok(path),
            None => Err("GitHub CLI is missing. Install gh, then run gh auth login."@),
        },
    }
}

/// The paths at which the GitHub CLI may be, in the order in which they are tried.
pub fn gh_candidates(config: &Config, search_path: &str) -> (r: Vec<String>)
    ensures
        r.deep_view() == candidates_of(config@, search_path@),
{
    let mut r: Vec<String> = Vec::new();
    if let Some(path) = &config.gh_path {
        r.push(path.clone());
        assert(r.deep_view() =~= candidates_of(config@, search_path@));
        return r;
    }
    let directories = text::split(search_path, ':');
    let ghost v = directories.deep_view();
    let mut i: usize = 0;
    while i < directories.len()
        invariant
            v == directories.deep_view(),
            i <= directories@.len(),
            r@.len() == i,
            forall|k: int| 0 <= k < i ==> (#[trigger] r@[k])@ == config::path_below(v[k], "gh"@),
        decreases directories.len() - i,
    {
        r.push(config::join_path(&directories[i], "gh"));
        i += 1;
    }
    r.push("/opt/homebrew/bin/gh".to_owned());
    r.push("/usr/local/bin/gh".to_owned());
    r.push("/usr/bin/gh".to_owned());
    assert(r.deep_view() =~= candidates_of(config@, search_path@));
    r
}

/// The path of the GitHub CLI, given at which of the candidates there is a file.
pub fn resolve_gh(config: &Config, candidates: &Vec<String>, files: &Vec<bool>) -> (r: Result<String, String>)
    ensures
        fields::result_view(r) == resolved(config@, candidates.deep_view(), files@),
{
    let ghost v = candidates.deep_view();
    let mut found: Option<String> = None;
    let mut i: usize = 0;
    assert(v.skip(0) =~= v);
    assert(files@.skip(0) =~= files@);
    while i < candidates.len() && i < files.len()
        invariant_except_break
            found is None,
        invariant
            v == candidates.deep_view(),
            i <= candidates@.len(),
            i <= files@.len(),
            found is None ==> first_file(v, files@) == first_file(v.skip(i as int), files@.skip(i as int)),
        ensures
            found.deep_view() == first_file(v, files@),
        decreases candidates.len() - i,
    {
        assert(v.skip(i as int)[0] == candidates@[i as int]@);
        assert(files@.skip(i as int)[0] == files@[i as int]);
        assert(v.skip(i as int).drop_first() =~= v.skip(i + 1));
        assert(files@.skip(i as int).drop_first() =~= files@.skip(i + 1));
        if files[i] {
            found = Some(candidates[i].clone());
            break;
        }
        i += 1;
    }
    match &config.gh_path {
        Some(path) => {
            let there = match &found {
                Some(found) => text::same(found, path),
                None => false,
            };
            if text::starts_with(path, "/") && there {
                Ok(path.clone())
            } else {
                Err("Configured gh_path must be an existing absolute executable path".to_owned())
            }
        },
        None => match found {
            Some(found) => Ok(found),
            None => Err("GitHub CLI is missing. Install gh, then run gh auth login.".to_owned()),
        },
    }
}

/// Access to GitHub through its CLI.
#[derive(Debug)]
pub struct Github {
    pub executable: String,
    pub timeout_seconds: u64,
    /// The digest of the credential in use.
    pub credential: Option<String>,
    /// The account that was verified last.
    pub account: Option<String>,
}

impl Github {
    /// Access by the settings, given at which of the candidates there is a file.
    pub fn new(config: &Config, candidates: &Vec<String>, files: &Vec<bool>) -> (r: Result<Github, String>)
        ensures
            match r {
                Ok(github) => {
                    &&& resolved(config@, candidates.deep_view(), files@) == Ok::<Seq<char>, Seq<char>>(github.executable@)
                    &&& github.timeout_seconds == config@.request_timeout_seconds
                    &&& github.credential is None
                    &&& github.account is None
                },
                Err(message) => resolved(config@, candidates.deep_view(), files@) == Err::<Seq<char>, Seq<char>>(message@),
            },
    {
        match resolve_gh(config, candidates, files) {
            Ok(executable) => Ok(
                Github {
                    executable,
                    timeout_seconds: config.request_timeout_seconds,
                    credential: None,
                    account: None,
                },
            ),
            Err(message) => Err(message),
        }
    }

    /// How long requests to a resource, or to any, have to wait, in milliseconds.
    pub fn cooldown(sessions: &Sessions, resource: Option<&str>, now: u64) -> (r: u64)
        ensures
            match sessions@.current() {
                Some(api) => api.waits(exchange::account_view(resource), now, r) && (r > 0) == api.paused(
                    exchange::account_view(resource),
                    now,
                ),
                None => r == 0,
            },
    {
        sessions.delay(resource, now)
    }
}

/// The settings name the one path that is tried, and a path that is not absolute is refused.
pub proof fn configured_paths_are_absolute(config: ConfigView, candidates: Seq<Seq<char>>, files: Seq<bool>)
    requires
        config.gh_path is Some,
        resolved(config, candidates, files) is Ok,
    ensures
        resolved(config, candidates, files)->Ok_0 == config.gh_path->0,
        "/"@.is_prefix_of(config.gh_path->0),
{
}

} // verus!
