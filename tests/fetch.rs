use envyr::fetch::{FetchPhase, FetchSession, FetchStep, GitCommand, GitOutcome};
use envyr::source::GitFetcher;

fn ok(out: &str) -> GitOutcome {
    GitOutcome::Succeeded { stdout: out.to_string() }
}

fn failed(err: &str) -> GitOutcome {
    GitOutcome::Failed { stderr: err.to_string() }
}

/// Runs a session to its end, answering each command from `answers`, and
/// returns the commands it issued with the final step.
fn drive(
    mut s: FetchSession,
    first: FetchStep,
    answers: &mut dyn FnMut(&GitCommand) -> GitOutcome,
) -> (Vec<GitCommand>, FetchStep) {
    let mut issued = Vec::new();
    let mut step = first;
    loop {
        match step {
            FetchStep::Run(cmd) => {
                let o = answers(&cmd);
                issued.push(cmd);
                step = s.advance(o);
            }
            other => return (issued, other),
        }
    }
}

fn is_pull(c: &GitCommand) -> bool {
    matches!(c, GitCommand::Pull)
}

#[test]
fn cached_latest_without_refresh_does_not_pull() {
    let (s, st) = FetchSession::start("git@h:o/p.git", "/c/h/o/p", "latest", false, true);
    let (issued, end) = drive(s, st, &mut |_| ok("origin/main\n"));
    assert!(!issued.iter().any(is_pull));
    assert!(matches!(end, FetchStep::Done(ref d) if d == "/c/h/o/p"));
    assert_eq!(issued.len(), 2);
    assert!(matches!(&issued[1], GitCommand::Checkout { target } if target == "main"));
}

#[test]
fn cached_latest_with_refresh_pulls() {
    let (s, st) = FetchSession::start("git@h:o/p.git", "/c/h/o/p", "latest", true, true);
    let (issued, end) = drive(s, st, &mut |_| ok("origin/trunk"));
    assert!(issued.iter().any(is_pull));
    assert!(matches!(&issued[1], GitCommand::Checkout { target } if target == "trunk"));
    assert!(is_pull(&issued[2]));
    assert!(matches!(issued[3], GitCommand::FetchTags));
    assert!(matches!(end, FetchStep::Done(_)));
}

#[test]
fn pinned_version_ends_on_its_checkout() {
    for refresh in [false, true] {
        for cached in [false, true] {
            let (s, st) = FetchSession::start("https://h/o/p", "/c/h/o/p", "v1.2.3", refresh, cached);
            let (issued, end) = drive(s, st, &mut |_| ok(""));
            assert!(matches!(end, FetchStep::Done(_)));
            let last = issued.last().unwrap();
            assert!(matches!(last, GitCommand::Checkout { target } if target == "v1.2.3"));
        }
    }
}

#[test]
fn default_branch_falls_back_to_main_then_master() {
    let (s, st) = FetchSession::start("git@h:o/p", "/c", "v2", false, true);
    let mut answers = |c: &GitCommand| match c {
        GitCommand::DefaultBranch => failed("no symbolic ref"),
        GitCommand::Checkout { target } if target == "main" => failed("no main"),
        _ => ok(""),
    };
    let (issued, end) = drive(s, st, &mut answers);
    assert!(matches!(&issued[1], GitCommand::Checkout { target } if target == "main"));
    assert!(matches!(&issued[2], GitCommand::Checkout { target } if target == "master"));
    assert!(matches!(&issued[3], GitCommand::Checkout { target } if target == "v2"));
    assert!(matches!(end, FetchStep::Done(_)));
}

#[test]
fn no_default_branch_is_fatal() {
    let (s, st) = FetchSession::start("git@h:o/p", "/c", "latest", true, true);
    let mut answers = |c: &GitCommand| match c {
        GitCommand::DefaultBranch => ok("origin/dev"),
        GitCommand::Checkout { .. } => failed("pathspec did not match"),
        _ => ok(""),
    };
    let (issued, end) = drive(s, st, &mut answers);
    assert_eq!(issued.len(), 4);
    match end {
        FetchStep::Fail(e) => {
            assert!(e.message().contains("default branch"));
            assert!(e.message().contains("pathspec did not match"));
        }
        other => panic!("unexpected {:?}", other),
    }
}

#[test]
fn fresh_clone_fetches_tags_then_checks_out() {
    let g = GitFetcher::new("/cache".to_string());
    let (s, st) = g.fetch("git@github.com:org/repo.git", "v1", true, false).unwrap();
    assert_eq!(s.phase, FetchPhase::Clone);
    let (issued, end) = drive(s, st, &mut |_| ok(""));
    assert!(matches!(&issued[0], GitCommand::Clone { url, dest }
        if url == "git@github.com:org/repo.git" && dest == "/cache/github.com/org/repo"));
    assert!(matches!(issued[1], GitCommand::FetchTags));
    assert!(matches!(&issued[2], GitCommand::Checkout { target } if target == "v1"));
    assert!(!issued.iter().any(is_pull));
    assert!(matches!(end, FetchStep::Done(ref d) if d == "/cache/github.com/org/repo"));
}

#[test]
fn failed_checkout_of_version_is_fatal() {
    let (s, st) = FetchSession::start("git@h:o/p", "/c", "nope", false, false);
    let mut answers = |c: &GitCommand| match c {
        GitCommand::Checkout { .. } => failed("unknown revision"),
        _ => ok(""),
    };
    let (_, end) = drive(s, st, &mut answers);
    match end {
        FetchStep::Fail(e) => assert!(e.message().contains("unknown revision")),
        other => panic!("unexpected {:?}", other),
    }
}

#[test]
fn clone_that_cannot_start_is_fatal() {
    let (mut s, _) = FetchSession::start("git@h:o/p", "/c", "latest", false, false);
    let st = s.advance(GitOutcome::NotStarted { reason: "git not found".to_string() });
    assert!(matches!(st, FetchStep::Fail(_)));
    assert_eq!(s.phase, FetchPhase::Finished);
}

#[test]
fn default_branch_output_is_trimmed() {
    assert_eq!(envyr::fetch::default_branch("  origin/main \n"), "main");
    assert_eq!(envyr::fetch::default_branch("develop"), "develop");
}

#[test]
fn refreshed_fetch_pulls_after_fallback() {
    let (s, st) = FetchSession::start("git@h:o/p", "/c", "latest", true, true);
    let mut answers = |c: &GitCommand| match c {
        GitCommand::DefaultBranch => GitOutcome::NotStarted { reason: "no git".to_string() },
        _ => ok(""),
    };
    let (issued, end) = drive(s, st, &mut answers);
    assert!(matches!(&issued[1], GitCommand::Checkout { target } if target == "main"));
    assert!(is_pull(&issued[2]));
    assert!(matches!(end, FetchStep::Done(_)));
}

#[test]
fn failed_steps_carry_stage_and_stderr() {
    let (mut s, _) = FetchSession::start("git@h:o/p", "/c", "v9", false, true);
    s.phase = FetchPhase::CheckoutVersion;
    match s.advance(failed("error: pathspec 'v9' did not match")) {
        FetchStep::Fail(envyr::error::EnvyrError::Git { stage, detail }) => {
            assert_eq!(stage, "checkout version 'v9'");
            assert_eq!(detail, "error: pathspec 'v9' did not match");
        }
        other => panic!("unexpected {:?}", other),
    }
    let (mut s, _) = FetchSession::start("git@h:o/p", "/c", "latest", false, false);
    match s.advance(failed("fatal: repository not found")) {
        FetchStep::Fail(e) => assert_eq!(
            e.message(),
            "Failed to clone git repository: fatal: repository not found"
        ),
        other => panic!("unexpected {:?}", other),
    }
}

#[test]
fn no_key_fetch_is_parse_error() {
    let g = GitFetcher::new("/cache".to_string());
    assert!(matches!(
        g.fetch("git@host:repo", "latest", false, false),
        Err(envyr::error::EnvyrError::UrlParse { .. })
    ));
}
