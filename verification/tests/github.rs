use gopher::actions::MergeMethod;
use gopher::evidence;
use gopher::github::cache::ApiState;
use gopher::github::changes::{label_request, merge_request, read_merge, LabelFetch};
use gopher::github::credentials::{asks_plainly, read_credential, Sessions};
use gopher::github::details::{head_request, verify_head, SnapshotFetch};
use gopher::github::discovery::{
    batches, heads_request, ignored_request, read_heads, read_resolved, read_viewer, resolve_request, viewer_request,
    Discovery, FinalHead, HeadsFetch, IgnoredFetch, BATCH,
};
use gopher::github::exchange::{interpret, only_missing_node_errors, plan, request_kind, ApiRequest};
use gopher::github::{gh_candidates, resolve_gh, Github, PrRef};
use gopher::config::Config;
use gopher::json;
use gopher::json::Json;
use gopher::model::{PrLabel, PullRequest, Snapshot};
use gopher::store::{Store, Tables, VERSION};
use gopher::text_map::TextMap;

const UNIX: i64 = 1_790_000_000;

/// What the fake CLI answers: whether it succeeds, its output, and what it prints on the side.
type Answer = (bool, String, String);

fn ok(output: &str) -> Answer {
    (true, output.to_string(), String::new())
}

fn failed(output: &str, printed: &str) -> Answer {
    (false, output.to_string(), printed.to_string())
}

/// A fake CLI, with what all clients share.
struct Server {
    sessions: Sessions,
    calls: Vec<String>,
    stored: String,
    answer: Box<dyn Fn(&str, &str, &str) -> Answer>,
}

impl Server {
    fn new(answer: impl Fn(&str, &str, &str) -> Answer + 'static) -> Server {
        Server {
            sessions: Sessions::default(),
            calls: Vec::new(),
            stored: "test-credential\n".to_string(),
            answer: Box::new(answer),
        }
    }

    fn cooldown(&self, resource: Option<&str>) -> u64 {
        Github::cooldown(&self.sessions, resource, 0) / 1000
    }

    fn probe(&mut self) -> bool {
        let token = read_credential(true, self.stored.as_bytes()).unwrap();
        self.sessions.switch(&token)
    }
}

/// A client. Its credential stays the same until it is refreshed.
#[derive(Default)]
struct Client {
    token: Option<String>,
    account: Option<String>,
}

impl Client {
    fn refresh(&mut self, server: &mut Server) -> Result<String, String> {
        let token = read_credential(true, server.stored.as_bytes())?;
        server.sessions.switch(&token);
        self.token = Some(token.clone());
        Ok(token)
    }

    fn with_api<T>(&mut self, server: &mut Server, work: impl FnOnce(&mut ApiState) -> T) -> T {
        let key = evidence::hash(self.token.as_ref().unwrap().as_bytes());
        let mut api = server.sessions.take(&key);
        let result = work(&mut api);
        server.sessions.put(&key, api);
        result
    }

    fn execute(&mut self, server: &mut Server, request: &ApiRequest) -> Result<Json, String> {
        if self.token.is_none() {
            self.refresh(server)?;
        }
        let token = self.token.clone().unwrap();
        let account = self.account.clone();
        let exchange = self.with_api(server, |api| plan(api, account.as_deref(), request, 0))?;
        let args = exchange.args.join(" ");
        let input = match &request.payload {
            Some(payload) => payload.write(),
            None => String::new(),
        };
        server.calls.push(format!("{token} {args}"));
        let (succeeded, output, printed) = (server.answer)(&args, &input, &token);
        self.with_api(server, |api| {
            interpret(api, &exchange, request.policy, succeeded, output.as_bytes(), printed.as_bytes(), 0, UNIX)
        })
    }

    fn viewer(&mut self, server: &mut Server) -> Result<String, String> {
        self.refresh(server)?;
        let plain = self.with_api(server, |api| asks_plainly(api, 0));
        let answer = self.execute(server, &viewer_request(plain))?;
        let account = read_viewer(&answer, plain)?;
        self.with_api(server, |api| api.identify(&account));
        self.account = Some(account.clone());
        Ok(account)
    }

    fn discover(&mut self, server: &mut Server, login: &str) -> Result<Vec<PrRef>, String> {
        let mut discovery = Discovery::new(login);
        while let Some(request) = discovery.request() {
            let answer = self.execute(server, &request)?;
            discovery = discovery.accept(&answer)?;
        }
        Ok(discovery.into_refs())
    }

    fn snapshot(&mut self, server: &mut Server, pr: &PrRef) -> Result<Snapshot, String> {
        let mut fetch = SnapshotFetch::new(pr.clone());
        while let Some(request) = fetch.request() {
            let answer = self.execute(server, &request)?;
            fetch = fetch.accept(&answer)?;
        }
        assert!(fetch.is_done());
        let snapshot = fetch.into_snapshot();
        if snapshot.open {
            let answer = self.execute(server, &head_request(&pr.id))?;
            verify_head(&answer, &snapshot.head)?;
        }
        Ok(snapshot)
    }

    fn ignored_details(&mut self, server: &mut Server, ids: &[&str]) -> Result<Vec<Snapshot>, String> {
        let ids: Vec<String> = ids.iter().map(|id| id.to_string()).collect();
        let mut fetch = IgnoredFetch::new(&ids);
        while let Some(request) = fetch.request() {
            let answer = self.execute(server, &request)?;
            fetch = fetch.accept(&answer)?;
        }
        Ok(fetch.into_snapshots())
    }

    fn final_heads(&mut self, server: &mut Server, ids: &Vec<String>, viewer: &str) -> Result<Vec<FinalHead>, String> {
        let mut fetch = HeadsFetch::new(ids, viewer);
        while let Some(request) = fetch.request() {
            self.refresh(server)?;
            let answer = self.execute(server, &request)?;
            fetch = fetch.accept(&answer)?;
        }
        Ok(fetch.into_heads())
    }

    fn merge_pr(&mut self, server: &mut Server, pr: &PrRef, head: &str, method: MergeMethod) -> Result<(), String> {
        let request = merge_request(pr, head, method)?;
        let answer = self.execute(server, &request)?;
        read_merge(&answer)
    }

    fn set_label(&mut self, server: &mut Server, pr: &PrRef, name: &str, selected: bool) -> Result<(), String> {
        let request = label_request(pr, name, selected)?;
        self.execute(server, &request)?;
        Ok(())
    }

    fn repository_labels(&mut self, server: &mut Server, repo: &str) -> Result<Vec<PrLabel>, String> {
        let mut fetch = LabelFetch::new(repo);
        while let Some(request) = fetch.request() {
            let answer = self.execute(server, &request)?;
            fetch = fetch.accept(&answer)?;
        }
        fetch.finish()
    }
}

fn mock(answer: impl Fn(&str, &str, &str) -> Answer + 'static) -> (Server, Client) {
    (Server::new(answer), Client::default())
}

fn pr(number: u64) -> PrRef {
    PrRef { id: "PR_1".to_string(), repo: "owner/repo".to_string(), number }
}

#[test]
fn merging_sends_the_exact_head_and_selected_method_and_reports_blockers() {
    let pr = pr(42);
    for method in MergeMethod::ALL {
        let (mut server, mut gh) = mock(move |args, input, _| {
            assert!(args.contains("--method PUT repos/owner/repo/pulls/42/merge --input -"));
            let wanted = format!("\"merge_method\":\"{}\"", method.api_name());
            let at = input.find(&wanted).unwrap();
            assert!(input[at..].contains("\"sha\":\"expected-head\""));
            ok("{\"merged\":true}\n")
        });
        gh.merge_pr(&mut server, &pr, "expected-head", method).unwrap();
        assert!(gh.merge_pr(&mut server, &pr, "", method).is_err());
        assert_eq!(server.calls.len(), 1);
    }
    let (mut server, mut gh) =
        mock(|_, _, _| failed("{\"message\":\"Required status check is pending\"}\n", "HTTP 405 PRIVATE_STDERR\n"));
    let error = gh.merge_pr(&mut server, &pr, "expected-head", MergeMethod::Merge).unwrap_err();
    assert!(error.contains("Required status check is pending"));
    assert!(!error.contains("PRIVATE_STDERR"));
    let (mut server, mut gh) = mock(|_, _, _| ok("{\"merged\":false,\"message\":\"Head branch was modified\"}\n"));
    assert!(gh
        .merge_pr(&mut server, &pr, "expected-head", MergeMethod::Merge)
        .unwrap_err()
        .contains("Head branch was modified"));
}

#[test]
fn label_changes_are_incremental_and_escape_names_as_one_path_segment() {
    let pr = pr(42);
    let (mut server, mut gh) = mock(|args, input, _| {
        if args.contains("--method POST repos/owner/repo/issues/42/labels --input -") {
            assert_eq!(input, "{\"labels\":[\"a/b, c\"]}");
            ok("[]\n")
        } else if args.contains("--method DELETE repos/owner/repo/issues/42/labels/a%2Fb,%20c") {
            ok("[]\n")
        } else {
            failed("", "")
        }
    });
    gh.set_label(&mut server, &pr, "a/b, c", true).unwrap();
    gh.set_label(&mut server, &pr, "a/b, c", false).unwrap();
}

#[test]
fn repository_labels_are_fully_paginated_without_fetching_assignments() {
    let first: Vec<String> =
        (0..100).map(|i| format!("{{\"name\":\"label-{i:03}\",\"color\":\"ff0011\"}}")).collect();
    let first = format!("[{}]", first.join(","));
    let (mut server, mut gh) = mock(move |args, _, _| {
        if args.contains("/issues/") {
            failed("", "")
        } else if args.contains("&page=1") {
            ok(&first)
        } else if args.contains("&page=2") {
            ok("[{\"name\":\"last\",\"color\":\"123456\"}]")
        } else {
            failed("", "")
        }
    });
    let labels = gh.repository_labels(&mut server, "owner/repo").unwrap();
    assert_eq!(labels.len(), 101);
    assert_eq!(labels.last().unwrap().color, "123456");
}

#[test]
fn authentication_failure_is_actionable_and_does_not_leak_stderr() {
    let (mut server, mut gh) = mock(|_, _, _| failed("", "bad credentials (HTTP 401) SECRET\n"));
    let error = gh.viewer(&mut server).unwrap_err();
    assert!(error.contains("gh auth login"));
    assert!(!error.contains("SECRET"));
}

#[test]
fn refuses_partial_graphql_data() {
    let (mut server, mut gh) =
        mock(|_, _, _| ok("{\"data\":{\"viewer\":{\"login\":\"someone\"}},\"errors\":[{\"message\":\"Partial\"}]}\n"));
    assert!(gh.viewer(&mut server).unwrap_err().contains("partial data"));
}

#[test]
fn discovery_unions_roles_and_deduplicates() {
    let (mut server, mut gh) = mock(|_, input, _| {
        if input.contains("AuthoredPrs") {
            ok(r#"{"data":{"viewer":{"pullRequests":{"pageInfo":{"hasNextPage":false},"nodes":[{"id":"PR_1","number":1,"repository":{"nameWithOwner":"owner/repo"}}]}}}}"#)
        } else if input.contains("assignee:") {
            ok(r#"{"data":{"search":{"issueCount":2,"pageInfo":{"hasNextPage":false},"nodes":[{"id":"PR_1","number":1,"repository":{"nameWithOwner":"owner/repo"}},{"id":"PR_2","number":2,"repository":{"nameWithOwner":"owner/repo"}}]}}}"#)
        } else if input.contains("review-requested:") {
            ok(r#"{"data":{"search":{"issueCount":1,"pageInfo":{"hasNextPage":false},"nodes":[{"id":"PR_3","number":3,"repository":{"nameWithOwner":"owner/repo"}}]}}}"#)
        } else {
            failed("", "")
        }
    });
    let refs = gh.discover(&mut server, "someone").unwrap();
    assert_eq!(refs.iter().map(|r| r.number).collect::<Vec<_>>(), vec![1, 2, 3]);
    assert_eq!(refs[0].repo, "owner/repo");
}

#[test]
fn authored_discovery_paginates_even_when_search_returns_nothing() {
    let (mut server, mut gh) = mock(|_, input, _| {
        if input.contains(r#""cursor":"next""#) {
            ok(r#"{"data":{"viewer":{"pullRequests":{"pageInfo":{"hasNextPage":false},"nodes":[{"id":"PR_2","number":2,"repository":{"nameWithOwner":"owner/repo"}}]}}}}"#)
        } else if input.contains("AuthoredPrs") {
            ok(r#"{"data":{"viewer":{"pullRequests":{"pageInfo":{"hasNextPage":true,"endCursor":"next"},"nodes":[{"id":"PR_1","number":1,"repository":{"nameWithOwner":"owner/repo"}}]}}}}"#)
        } else {
            ok(r#"{"data":{"search":{"issueCount":0,"pageInfo":{"hasNextPage":false},"nodes":[]}}}"#)
        }
    });
    let refs = gh.discover(&mut server, "someone").unwrap();
    assert_eq!(refs.iter().map(|r| r.number).collect::<Vec<_>>(), vec![1, 2]);
}

const FIRST_PAGE: &str = r#"{"data":{"node":{"title":"Change","url":"https://github.com/owner/repo/pull/1","state":"OPEN","isDraft":false,"mergeable":"MERGEABLE","headRefName":"topic","baseRefName":"main","headRefOid":"head","labels":{"nodes":[{"name":"bug","color":"d73a4a"}],"pageInfo":{"hasNextPage":true,"endCursor":"l1"}},"reviews":{"nodes":[{"id":"review-1","author":{"login":"chatgpt-codex-connector"},"body":"","state":"COMMENTED","commit":{"oid":"head"},"submittedAt":"2026-09-07T16:00:00Z"}],"pageInfo":{"hasNextPage":true,"endCursor":"r1"}},"comments":{"nodes":[],"pageInfo":{"hasNextPage":false}},"reviewThreads":{"nodes":[{"id":"thread-1","isResolved":false,"isOutdated":false,"first":{"nodes":[{"author":{"login":"cubic-dev-ai"},"body":"Problem","createdAt":"2026-09-07T16:00:00Z"}]},"last":{"nodes":[{"author":{"login":"cubic-dev-ai"},"body":"Problem","createdAt":"2026-09-07T16:00:00Z"}]}}],"pageInfo":{"hasNextPage":false}},"reactions":{"nodes":[{"content":"EYES","user":{"login":"chatgpt-codex-connector"},"createdAt":"2026-09-07T16:00:00Z"}],"pageInfo":{"hasNextPage":false}}}}}"#;

const SECOND_PAGE: &str = r#"{"data":{"node":{"title":"Change","url":"https://github.com/owner/repo/pull/1","state":"OPEN","isDraft":false,"mergeable":"MERGEABLE","headRefOid":"head","labels":{"nodes":[{"name":"ready","color":"008800"}],"pageInfo":{"hasNextPage":false}},"reviews":{"nodes":[{"id":"review-2","author":{"login":"chatgpt-codex-connector"},"body":"","state":"COMMENTED","commit":{"oid":"head"},"submittedAt":"2026-09-07T17:00:00Z"}],"pageInfo":{"hasNextPage":false}}}}}"#;

fn snapshot_answer(second: &str, last: &str, args: &str, input: &str) -> Answer {
    if args.contains("/check-runs?") {
        ok(r#"{"total_count":0,"check_runs":[]}"#)
    } else if args.contains("/statuses?") {
        ok("[]")
    } else if args.contains("/actions/runs?") {
        ok(r#"{"total_count":0,"workflow_runs":[]}"#)
    } else if input.contains("reviews(first:") {
        if input.contains(r#""r":"r1""#) {
            assert!(input.contains(r#""l":"l1""#));
            assert!(input.contains(r#""comments":false"#));
            assert!(input.contains(r#""threads":false"#));
            assert!(input.contains(r#""reactions":false"#));
            ok(second)
        } else {
            ok(FIRST_PAGE)
        }
    } else {
        ok(last)
    }
}

#[test]
fn snapshot_paginates_reviews_independently_and_checks_head() {
    let last = r#"{"data":{"node":{"headRefOid":"head","state":"OPEN"}}}"#;
    let (mut server, mut gh) = mock(move |args, input, _| snapshot_answer(SECOND_PAGE, last, args, input));
    let snapshot = gh.snapshot(&mut server, &pr(1)).unwrap();
    assert_eq!(snapshot.reviews.len(), 2);
    assert_eq!(snapshot.reviews[1].id, "review-2");
    assert_eq!(snapshot.threads.len(), 1);
    assert!(!snapshot.threads[0].resolved);
    assert_eq!(snapshot.reactions.len(), 1);
    assert_eq!(
        snapshot.labels.iter().map(|l| (l.name.as_str(), l.color.as_str())).collect::<Vec<_>>(),
        vec![("bug", "d73a4a"), ("ready", "008800")]
    );
}

#[test]
fn rejects_head_changes_during_pagination() {
    let last = r#"{"data":{"node":{"headRefOid":"head","state":"OPEN"}}}"#;
    let second = SECOND_PAGE.replace(
        "\"headRefOid\":\"head\",\"labels\":{\"nodes\":[{\"name\":\"ready\"",
        "\"headRefOid\":\"new-head\",\"labels\":{\"nodes\":[{\"name\":\"ready\"",
    );
    assert_ne!(second, SECOND_PAGE);
    let (mut server, mut gh) = mock(move |args, input, _| snapshot_answer(&second, last, args, input));
    assert!(gh.snapshot(&mut server, &pr(1)).unwrap_err().contains("changed during pagination"));
}

#[test]
fn rejects_head_changes_after_the_checks() {
    let moved = r#"{"data":{"node":{"headRefOid":"new-head","state":"OPEN"}}}"#;
    let (mut server, mut gh) = mock(move |args, input, _| snapshot_answer(SECOND_PAGE, moved, args, input));
    assert_eq!(
        gh.snapshot(&mut server, &pr(1)).unwrap_err(),
        "PR changed while fetching checks; retrying next poll"
    );
    let closed = r#"{"data":{"node":{"headRefOid":"head","state":"CLOSED"}}}"#;
    let (mut server, mut gh) = mock(move |args, input, _| snapshot_answer(SECOND_PAGE, closed, args, input));
    assert!(gh.snapshot(&mut server, &pr(1)).is_err());
}

fn sent(request: &ApiRequest) -> (Vec<String>, Option<String>) {
    (request.args.clone(), request.payload.as_ref().map(|payload| payload.write()))
}

#[test]
fn identities_are_asked_for_in_full_batches() {
    let ids: Vec<String> = (0..2 * BATCH + 7).map(|i| format!("PR_{i}")).collect();
    let parts = batches(&ids);
    assert_eq!(parts.iter().map(Vec::len).collect::<Vec<_>>(), [BATCH, BATCH, 7]);
    assert_eq!(parts.concat(), ids);
    assert_eq!(batches(&ids[..BATCH].to_vec()), [ids[..BATCH].to_vec()]);
    assert!(batches(&Vec::new()).is_empty());

    let mut fetch = HeadsFetch::new(&ids, "me");
    let mut asked = 0;
    while let Some(request) = fetch.request() {
        let part = &parts[asked];
        assert_eq!(sent(&request), sent(&heads_request(part)));
        let nodes: Vec<String> = part
            .iter()
            .map(|id| format!(r#"{{"id":"{id}","headRefOid":"head of {id}","state":"OPEN"}}"#))
            .collect();
        let answer = format!(r#"{{"data":{{"viewer":{{"login":"me"}},"nodes":[{}]}}}}"#, nodes.join(","));
        let answer = json::parse(answer.as_bytes()).unwrap();
        assert_eq!(read_heads(&answer, part, "me").unwrap().len(), part.len());
        fetch = fetch.accept(&answer).unwrap();
        asked += 1;
    }
    assert_eq!(asked, 3);
    let heads = fetch.into_heads();
    assert_eq!(heads.iter().map(|head| head.id.clone()).collect::<Vec<_>>(), ids);
    assert!(heads.iter().all(|head| head.open && head.head == format!("head of {}", head.id)));

    let mut fetch = IgnoredFetch::new(&ids);
    let mut asked = 0;
    while let Some(request) = fetch.request() {
        assert_eq!(sent(&request), sent(&ignored_request(&parts[asked])));
        let id = &parts[asked][0];
        let node = format!(
            r#"{{"id":"{id}","number":{asked},"title":"t","url":"u","state":"CLOSED","isDraft":false,"repository":{{"nameWithOwner":"o/r"}}}}"#
        );
        let answer = format!(r#"{{"data":{{"nodes":[null,{node}]}}}}"#);
        fetch = fetch.accept(&json::parse(answer.as_bytes()).unwrap()).unwrap();
        asked += 1;
    }
    let found: Vec<String> = fetch.into_snapshots().into_iter().map(|snapshot| snapshot.id).collect();
    assert_eq!(found, ["PR_0".to_string(), format!("PR_{BATCH}"), format!("PR_{}", 2 * BATCH)]);
}

#[test]
fn ignored_identity_lookup_handles_unavailable_and_closed_prs() {
    let (mut server, mut gh) = mock(|_, _, _| {
        ok(r#"{"data":{"nodes":[null,{"id":"PR_2","number":42,"title":"Archived change","url":"https://github.com/owner/repo/pull/42","state":"CLOSED","isDraft":false,"repository":{"nameWithOwner":"owner/repo"}}]}}"#)
    });
    let found = gh.ignored_details(&mut server, &["unavailable", "PR_2"]).unwrap();
    assert_eq!(found.len(), 1);
    assert_eq!(found[0].number, 42);
    assert!(!found[0].open);
    assert!(found[0].reviews.is_empty());
    assert!(gh.ignored_details(&mut server, &["different-id"]).is_err());
}

#[test]
fn ignored_lookup_accepts_missing_nodes_even_when_gh_exits_nonzero() {
    for succeeds in [true, false] {
        let (mut server, mut gh) = mock(move |_, _, _| {
            (
                succeeds,
                r#"{"data":{"nodes":[null,{"id":"PR_2","number":42,"title":"Archived change","url":"https://github.com/owner/repo/pull/42","state":"CLOSED","isDraft":false,"repository":{"nameWithOwner":"owner/repo"}}]},"errors":[{"type":"NOT_FOUND","path":["nodes",0],"message":"Unavailable SECRET"}]}"#
                    .to_string(),
                "gh: Unavailable SECRET\n".to_string(),
            )
        });
        let found = gh.ignored_details(&mut server, &["unavailable", "PR_2"]).unwrap();
        assert_eq!(found.len(), 1);
        assert_eq!(found[0].id, "PR_2");
        assert!(!found[0].open);
        // The same partial answer must still fail for ordinary queries.
        let error = gh.viewer(&mut server).unwrap_err();
        assert!(!error.contains("SECRET"));

        let mut store = Store::open(VERSION, Tables::default()).unwrap();
        for id in ["unavailable", "PR_2"] {
            let pr = PullRequest::unreviewed(Snapshot { id: id.to_string(), open: true, ..Default::default() });
            store.save(&pr);
            store.ignore(id);
        }
        for snapshot in found {
            store.update_ignored_status(&snapshot);
        }
        let visible = store.load_ignored();
        assert_eq!(visible.len(), 1);
        assert_eq!(visible[0].snapshot.id, "unavailable");
        assert_eq!(store.ignored().len(), 2);
    }
}

#[test]
fn unavailable_later_batch_preserves_previously_fetched_identities() {
    let (mut server, mut gh) = mock(|_, input, _| {
        if input.contains("PR_0") {
            ok(r#"{"data":{"nodes":[{"id":"PR_0","number":42,"title":"Open change","url":"https://github.com/owner/repo/pull/42","state":"OPEN","isDraft":false,"repository":{"nameWithOwner":"owner/repo"}}]}}"#)
        } else {
            failed(r#"{"data":{"nodes":[null]},"errors":[{"type":"NOT_FOUND","path":["nodes",0]}]}"#, "")
        }
    });
    let ids: Vec<String> = (0..51).map(|n| format!("PR_{n}")).collect();
    let ids: Vec<&str> = ids.iter().map(|id| id.as_str()).collect();
    let found = gh.ignored_details(&mut server, &ids).unwrap();
    assert_eq!(found.len(), 1);
    assert_eq!(found[0].id, "PR_0");
    assert!(found[0].open);
    assert!(gh.ignored_details(&mut server, &["PR_50"]).unwrap().is_empty());
}

#[test]
fn ignored_lookup_still_rejects_query_and_field_errors() {
    for error in [
        r#"{"type":"FORBIDDEN","path":["nodes",0]}"#,
        r#"{"type":"NOT_FOUND"}"#,
        r#"{"type":"NOT_FOUND","path":["nodes",1]}"#,
        r#"{"type":"NOT_FOUND","path":["nodes",0,"state"]}"#,
    ] {
        for succeeds in [true, false] {
            let (mut server, mut gh) = mock(move |_, _, _| {
                (succeeds, format!("{{\"data\":{{\"nodes\":[null]}},\"errors\":[{error}]}}\n"), String::new())
            });
            assert!(gh.ignored_details(&mut server, &["PR_1"]).is_err());
        }
    }
    let partial = json::parse(br#"{"data":{"nodes":[null]},"errors":[{"type":"NOT_FOUND","path":["nodes",0]}]}"#).unwrap();
    assert!(only_missing_node_errors(&partial));
}

#[test]
fn rest_etags_reuse_bodies_across_clients_and_mutations_invalidate_them() {
    let (mut server, mut gh) = mock(|args, _, _| {
        if args.contains("graphql") {
            ok("{\"data\":{\"viewer\":{\"login\":\"test\"}}}\n")
        } else if args.contains("--method DELETE") {
            ok("HTTP/2.0 204 No Content\r\n\r\n")
        } else if args.contains("If-None-Match") {
            failed("HTTP/2.0 304 Not Modified\r\nETag: \"abc\"\r\n\r\n", "HTTP 304\n")
        } else {
            ok("HTTP/2.0 200 OK\r\nETag: \"abc\"\r\n\r\n[{\"name\":\"bug\",\"color\":\"112233\"}]")
        }
    });
    gh.viewer(&mut server).unwrap();
    let labels = gh.repository_labels(&mut server, "owner/repo").unwrap();
    assert_eq!(labels[0].name, "bug");
    let mut next = Client::default();
    next.viewer(&mut server).unwrap();
    assert_eq!(next.repository_labels(&mut server, "owner/repo").unwrap(), labels);
    next.set_label(&mut server, &pr(1), "bug", false).unwrap();
    next.repository_labels(&mut server, "owner/repo").unwrap();
    let calls: Vec<_> =
        server.calls.iter().filter(|c| !c.contains("graphql") && !c.contains("--method DELETE")).collect();
    assert_eq!(calls.len(), 3);
    assert!(!calls[0].contains("If-None-Match"));
    assert!(calls[1].contains("If-None-Match: \"abc\""));
    assert!(!calls[2].contains("If-None-Match"));
}

#[test]
fn secondary_limit_pauses_other_clients_without_retrying_a_mutation() {
    let (mut server, mut gh) = mock(|_, _, _| {
        failed(
            "HTTP/2.0 403 Forbidden\r\nRetry-After: 180\r\n\r\n{\"message\":\"Secondary rate limit reached\"}",
            "HTTP 403 SECRET\n",
        )
    });
    let error = gh.viewer(&mut server).unwrap_err();
    assert!(error.contains("rate limit"));
    assert!(!error.contains("SECRET"));
    assert!(server.cooldown(None) >= 179);
    let mut next = Client::default();
    assert!(next.repository_labels(&mut server, "owner/repo").is_err());
    assert!(next.merge_pr(&mut server, &pr(1), "head", MergeMethod::Merge).is_err());
    assert_eq!(server.calls.len(), 1);
}

#[test]
fn graphql_primary_limit_in_a_successful_http_response_still_pauses_requests() {
    let reset = UNIX + 600;
    let (mut server, mut gh) = mock(move |_, _, _| {
        ok(&format!("HTTP/2.0 200 OK\r\nX-RateLimit-Resource: graphql\r\nX-RateLimit-Remaining: 0\r\nX-RateLimit-Reset: {reset}\r\n\r\n{{\"errors\":[{{\"type\":\"RATE_LIMITED\",\"message\":\"quota reached\"}}]}}"))
    });
    assert!(gh.viewer(&mut server).unwrap_err().contains("rate limit"));
    let expected = (reset - (UNIX + 1)).max(0) as u64;
    assert!(server.cooldown(None) >= expected);
}

#[test]
fn account_switch_escapes_old_cooldowns_and_switching_back_preserves_them() {
    let reset = UNIX + 1800;
    let (mut server, mut gh) = mock(move |_, _, token| {
        if token == "alpha" {
            ok(&format!("HTTP/2.0 200 OK\r\nX-RateLimit-Resource: graphql\r\nX-RateLimit-Remaining: 0\r\nX-RateLimit-Reset: {reset}\r\n\r\n{{\"data\":{{\"viewer\":{{\"login\":\"alice\"}}}}}}"))
        } else {
            ok("{\"data\":{\"viewer\":{\"login\":\"bob\"}}}\n")
        }
    });
    server.stored = "alpha".to_string();
    assert_eq!(gh.viewer(&mut server).unwrap(), "alice");
    assert!(server.cooldown(Some("graphql")) > 1700);
    assert_eq!(server.cooldown(Some("core")), 0);
    server.stored = "beta".to_string();
    let mut next = Client::default();
    assert_eq!(next.viewer(&mut server).unwrap(), "bob");
    assert_eq!(server.cooldown(None), 0);
    // A client that is authenticated as B keeps that credential for its mutation.
    server.stored = "alpha".to_string();
    next.set_label(&mut server, &pr(1), "bug", true).unwrap();
    assert!(server.calls.last().unwrap().starts_with("beta "));
    // A fresh read finds A locally, and its exhausted quota is waited for.
    assert!(Client::default().ignored_details(&mut server, &["PR_1"]).is_err());
    assert!(server.cooldown(Some("graphql")) > 1700);
    assert_eq!(server.calls.len(), 3);
}

#[test]
fn graphql_limit_allows_rest_label_refresh_and_core_limit_allows_ignored_lookup() {
    let reset = UNIX + 1800;
    let (mut server, mut gh) = mock(move |args, _, _| {
        if args.contains("graphql") {
            ok(&format!("HTTP/2.0 200 OK\r\nX-RateLimit-Resource: graphql\r\nX-RateLimit-Remaining: 0\r\nX-RateLimit-Reset: {reset}\r\n\r\n{{\"data\":{{\"viewer\":{{\"login\":\"test\"}}}}}}"))
        } else if args.contains("github.com user") {
            ok("{\"login\":\"test\"}\n")
        } else if args.contains("/labels?") {
            ok("[{\"name\":\"bug\",\"color\":\"ff0000\"}]\n")
        } else {
            failed("", "")
        }
    });
    gh.viewer(&mut server).unwrap();
    let mut labels = Client::default();
    assert_eq!(labels.viewer(&mut server).unwrap(), "test");
    assert_eq!(labels.repository_labels(&mut server, "owner/repo").unwrap()[0].name, "bug");
    assert_eq!(labels.viewer(&mut server).unwrap(), "test");
    assert_eq!(server.cooldown(Some("core")), 0);

    let (mut server, mut gh) = mock(move |args, _, _| {
        if args.contains("/labels?") {
            ok(&format!("HTTP/2.0 200 OK\r\nX-RateLimit-Resource: core\r\nX-RateLimit-Remaining: 0\r\nX-RateLimit-Reset: {reset}\r\n\r\n[]"))
        } else {
            ok("{\"data\":{\"nodes\":[],\"viewer\":{\"login\":\"test\"}}}\n")
        }
    });
    gh.repository_labels(&mut server, "owner/repo").unwrap();
    assert!(server.cooldown(Some("core")) > 1700);
    assert_eq!(server.cooldown(Some("graphql")), 0);
    gh.ignored_details(&mut server, &["PR_1"]).unwrap();
    gh.viewer(&mut server).unwrap();
}

fn head_nodes(ids: &[String]) -> String {
    let nodes: Vec<String> =
        ids.iter().map(|id| format!("{{\"id\":\"{id}\",\"headRefOid\":\"head\",\"state\":\"OPEN\"}}")).collect();
    nodes.join(",")
}

#[test]
fn final_heads_are_batched_and_reject_missing_or_changed_accounts() {
    let ids: Vec<String> = (0..51).map(|i| format!("PR_{i}")).collect();
    let first = format!("{{\"data\":{{\"viewer\":{{\"login\":\"test\"}},\"nodes\":[{}]}}}}", head_nodes(&ids[..50]));
    let last = format!("{{\"data\":{{\"viewer\":{{\"login\":\"test\"}},\"nodes\":[{}]}}}}", head_nodes(&ids[50..]));
    let (mut server, mut gh) =
        mock(move |_, input, _| if input.contains("\"PR_50\"") { ok(&last) } else { ok(&first) });
    let heads = gh.final_heads(&mut server, &ids, "test").unwrap();
    assert_eq!(heads.len(), 51);
    assert_eq!(heads[50].id, "PR_50");
    assert_eq!(heads[50].head, "head");
    assert!(heads[50].open);
    assert_eq!(server.calls.len(), 2);
    assert!(gh.final_heads(&mut server, &ids, "other").err().unwrap().contains("account changed"));
    let (mut server, mut gh) = mock(|_, _, _| ok("{\"data\":{\"nodes\":[null],\"viewer\":{\"login\":\"test\"}}}"));
    assert!(gh.final_heads(&mut server, &ids[50..].to_vec(), "test").is_err());
}

#[test]
fn cooldown_probe_detects_account_switch_locally_without_resetting_old_budget() {
    let (mut server, mut gh) = mock(|_, _, _| failed("", ""));
    server.stored = "alpha".to_string();
    gh.refresh(&mut server).unwrap();
    gh.with_api(&mut server, |api| {
        let mut headers = TextMap::new();
        headers.insert("x-ratelimit-resource".to_string(), "graphql".to_string());
        headers.insert("x-ratelimit-remaining".to_string(), "0".to_string());
        headers.insert("x-ratelimit-reset".to_string(), (UNIX + 1800).to_string());
        api.observe(&headers, "graphql", true, 0, UNIX);
    });
    assert!(!server.probe());
    assert!(server.cooldown(None) > 1700);
    server.stored = "beta".to_string();
    assert!(server.probe());
    assert_eq!(server.cooldown(None), 0);
    server.stored = "alpha".to_string();
    assert!(server.probe());
    assert!(server.cooldown(None) > 1700);
    assert!(server.calls.is_empty());
}

#[test]
fn credentials_are_one_word() {
    assert_eq!(read_credential(true, b"  token\n").unwrap(), "token");
    assert_eq!(read_credential(false, b"token").unwrap_err(), "Cannot read GitHub credentials; run gh auth login");
    assert_eq!(read_credential(true, b"\n").unwrap_err(), "Invalid GitHub credential; run gh auth login");
    assert_eq!(read_credential(true, b"two words").unwrap_err(), "Invalid GitHub credential; run gh auth login");
    assert_eq!(read_credential(true, &[0xff, 0xfe]).unwrap_err(), "Invalid GitHub credential encoding");
    assert!(read_credential(true, &vec![b'a'; 16_384]).is_ok());
    assert!(read_credential(true, &vec![b'a'; 16_385]).is_err());
}

#[test]
fn prs_are_resolved_by_repository_and_number() {
    let request = resolve_request("owner/repo", 7).unwrap();
    let payload = request.payload.unwrap();
    assert_eq!(payload.at("variables").at("owner").as_str(), Some("owner"));
    assert_eq!(payload.at("variables").at("name").as_str(), Some("repo"));
    assert_eq!(payload.at("variables").at("number").as_u64(), Some(7));
    assert_eq!(resolve_request("repo", 7).err().unwrap(), "Repository must be OWNER/REPO");
    let answer = json::parse(br#"{"data":{"repository":{"pullRequest":{"id":"PR_7"}}}}"#).unwrap();
    let found = read_resolved(&answer, "owner/repo", 7).unwrap();
    assert_eq!((found.id.as_str(), found.repo.as_str(), found.number), ("PR_7", "owner/repo", 7));
    let answer = json::parse(br#"{"data":{"repository":null}}"#).unwrap();
    assert!(read_resolved(&answer, "owner/repo", 7).is_err());
}

#[test]
fn requests_are_named_for_the_log() {
    let names = |request: &ApiRequest| request_kind(&request.args, request.payload.as_ref()).to_string();
    assert_eq!(names(&viewer_request(false)), "viewer");
    assert_eq!(names(&viewer_request(true)), "rest");
    assert_eq!(names(&Discovery::new("me").request().unwrap()), "discover_prs");
    assert_eq!(names(&SnapshotFetch::new(pr(1)).request().unwrap()), "pr_details");
    assert_eq!(names(&head_request("PR_1")), "verify_head");
    assert_eq!(names(&resolve_request("a/b", 1).unwrap()), "resolve_pr");
}

#[test]
fn the_cli_is_found_where_it_is_configured_or_on_the_search_path() {
    let config = Config::default();
    let candidates = gh_candidates(&config, "/a:/b");
    assert_eq!(candidates[0], "/a/gh");
    assert_eq!(candidates[1], "/b/gh");
    let mut files = vec![false; candidates.len()];
    assert_eq!(
        resolve_gh(&config, &candidates, &files).unwrap_err(),
        "GitHub CLI is missing. Install gh, then run gh auth login."
    );
    files[1] = true;
    assert_eq!(resolve_gh(&config, &candidates, &files).unwrap(), "/b/gh");
    let mut config = Config::default();
    config.gh_path = Some("gh".to_string());
    let candidates = gh_candidates(&config, "/a:/b");
    assert_eq!(candidates, vec!["gh".to_string()]);
    assert_eq!(
        Github::new(&config, &candidates, &vec![true]).unwrap_err(),
        "Configured gh_path must be an existing absolute executable path"
    );
    config.gh_path = Some("/opt/gh".to_string());
    let candidates = gh_candidates(&config, "/a:/b");
    let github = Github::new(&config, &candidates, &vec![true]).unwrap();
    assert_eq!(github.executable, "/opt/gh");
    assert_eq!(github.timeout_seconds, 20);
    assert!(github.account.is_none());
    assert!(Github::new(&config, &candidates, &vec![false]).is_err());
}
