//! Source locators: telling a git URL from a local path, and the cache key
//! `(provider, org, project)` under which a repository is kept.

use vstd::prelude::*;
use crate::error::EnvyrError;
use crate::fetch::{command_fits, FetchPhase, FetchSession, FetchStep, GitOutcome};
use crate::text::{
    after_last, before_first, chars_of, field_after_last, field_before_first, find_last, free_of,
    is_first_index, is_last_index, last_index, lemma_first_index, lemma_last_index,
    lemma_no_last_index, matches_at, owned, seq_ends_with, seq_starts_with, slice_of, starts_with,
};

verus! {

/// The locator without a trailing `.git`.
pub open spec fn git_stem(url: Seq<char>) -> Seq<char> {
    if seq_ends_with(url, ".git"@) {
        url.subrange(0, url.len() - ".git"@.len())
    } else {
        url
    }
}

/// The host part of `https://host/...` and `http://host/...`, or the host of
/// an SSH-style `user@host:path`.
pub open spec fn provider_of(url: Seq<char>) -> Seq<char> {
    let u = git_stem(url);
    if seq_starts_with(u, "https://"@) {
        before_first(u.skip("https://"@.len() as int), '/')
    } else if seq_starts_with(u, "http://"@) {
        before_first(u.skip("http://"@.len() as int), '/')
    } else {
        after_last(before_first(u, ':'), '@')
    }
}

/// The path segment before the last one, without what precedes a `:`; none
/// when the locator has no `/`.
pub open spec fn org_of(url: Seq<char>) -> Option<Seq<char>> {
    let u = git_stem(url);
    if last_index(u, '/') < 0 {
        None
    } else {
        Some(after_last(after_last(u.subrange(0, last_index(u, '/')), '/'), ':'))
    }
}

/// The last path segment.
pub open spec fn project_of(url: Seq<char>) -> Seq<char> {
    after_last(git_stem(url), '/')
}

/// `a` and `b` joined by one `/`.
pub open spec fn path_join(a: Seq<char>, b: Seq<char>) -> Seq<char> {
    if a.len() == 0 {
        b
    } else if a.last() == '/' {
        a + b
    } else {
        a + "/"@ + b
    }
}

/// The relative directory `provider/org/project` of a locator.
pub open spec fn storage_path_of(url: Seq<char>) -> Option<Seq<char>> {
    match org_of(url) {
        Some(org) => Some(path_join(path_join(provider_of(url), org), project_of(url))),
        None => None,
    }
}

/// Whether a locator names a git repository rather than a local path.
pub open spec fn is_vcs_locator(url: Seq<char>) -> bool {
    seq_starts_with(url, "git@"@) || seq_starts_with(url, "git://"@) || seq_starts_with(
        url,
        "https://"@,
    ) || seq_starts_with(url, "http://"@)
}

/// `url` without a trailing `.git`.
fn strip_git(url: &str) -> (r: String)
    ensures
        r@ == git_stem(url@),
{
    let cs = chars_of(url);
    let suffix = chars_of(".git");
    if cs.len() >= suffix.len() && matches_at(&cs, &suffix, cs.len() - suffix.len()) {
        slice_of(url, 0, cs.len() - suffix.len())
    } else {
        owned(url)
    }
}

/// The host that serves the repository.
pub fn get_git_provider(url: &str) -> (r: Result<String, EnvyrError>)
    ensures
        r matches Ok(p) && p@ == provider_of(url@),
{
    let u = strip_git(url);
    let n = chars_of(u.as_str()).len();
    let https = chars_of("https://");
    let http = chars_of("http://");
    if starts_with(u.as_str(), "https://") {
        let rest = slice_of(u.as_str(), https.len(), n);
        assert(rest@ == u@.skip("https://"@.len() as int));
        Ok(field_before_first(rest.as_str(), '/'))
    } else if starts_with(u.as_str(), "http://") {
        let rest = slice_of(u.as_str(), http.len(), n);
        assert(rest@ == u@.skip("http://"@.len() as int));
        Ok(field_before_first(rest.as_str(), '/'))
    } else {
        let host = field_before_first(u.as_str(), ':');
        Ok(field_after_last(host.as_str(), '@'))
    }
}

/// The organisation (or user) that owns the repository; fails when the
/// locator has no `/`.
pub fn get_org_name(url: &str) -> (r: Result<String, EnvyrError>)
    ensures
        r is Err <==> org_of(url@) is None,
        r matches Ok(o) ==> org_of(url@) == Some(o@),
        r matches Err(e) ==> e is UrlParse && e->url@ == url@,
{
    let u = strip_git(url);
    let cs = chars_of(u.as_str());
    match find_last(&cs, '/') {
        Some(i) => {
            let head = slice_of(u.as_str(), 0, i);
            let seg = field_after_last(head.as_str(), '/');
            Ok(field_after_last(seg.as_str(), ':'))
        },
        None => Err(EnvyrError::UrlParse { url: owned(url) }),
    }
}

/// The repository's name.
pub fn get_project_name(url: &str) -> (r: Result<String, EnvyrError>)
    ensures
        r matches Ok(p) && p@ == project_of(url@),
{
    let u = strip_git(url);
    Ok(field_after_last(u.as_str(), '/'))
}

/// `a` and `b` joined by one `/`.
pub fn join_path(a: &str, b: &str) -> (r: String)
    ensures
        r@ == path_join(a@, b@),
{
    let cs = chars_of(a);
    if cs.len() == 0 {
        owned(b)
    } else if cs[cs.len() - 1] == '/' {
        let mut r = owned(a);
        r.append(b);
        r
    } else {
        let mut r = owned(a);
        r.append("/");
        r.append(b);
        r
    }
}

/// The relative directory `provider/org/project` that caches the repository.
pub fn get_storage_path(url: &str) -> (r: Result<String, EnvyrError>)
    ensures
        r is Err <==> storage_path_of(url@) is None,
        r matches Ok(p) ==> storage_path_of(url@) == Some(p@),
        r matches Err(e) ==> e is UrlParse && e->url@ == url@,
{
    let provider = get_git_provider(url)?;
    let org = get_org_name(url)?;
    let project = get_project_name(url)?;
    let head = join_path(provider.as_str(), org.as_str());
    Ok(join_path(head.as_str(), project.as_str()))
}

/// Fetches git repositories into a cache below `storage_dir_root`.
#[derive(Debug, Clone)]
pub struct GitFetcher {
    pub storage_dir_root: String,
}

/// How a locator is resolved to a directory.
#[derive(Debug, Clone)]
pub enum Fetcher {
    /// A git repository, kept in a cache.
    Git(GitFetcher),
    /// A directory on this machine, used as it is.
    Local,
}

/// The fetcher for a locator: git for `git@`, `git://`, `https://` and
/// `http://` locators, the local directory otherwise.
pub fn get_fetcher(url: &str, storage_dir: String) -> (r: Fetcher)
    ensures
        r is Git <==> is_vcs_locator(url@),
        r matches Fetcher::Git(g) ==> g.storage_dir_root == storage_dir,
{
    if starts_with(url, "git@") || starts_with(url, "git://") || starts_with(url, "https://")
        || starts_with(url, "http://") {
        Fetcher::Git(GitFetcher::new(storage_dir))
    } else {
        Fetcher::Local
    }
}

impl GitFetcher {
    pub fn new(storage_dir_root: String) -> (r: Self)
        ensures
            r.storage_dir_root == storage_dir_root,
    {
        GitFetcher { storage_dir_root }
    }

    /// The cache directory of a locator: the root joined with
    /// `provider/org/project`.
    pub fn storage_dir(&self, url: &str) -> (r: Result<String, EnvyrError>)
        ensures
            r is Err <==> storage_path_of(url@) is None,
            r matches Ok(d) ==> d@ == path_join(
                self.storage_dir_root@,
                storage_path_of(url@)->Some_0,
            ),
            r matches Err(e) ==> e is UrlParse,
    {
        let key = get_storage_path(url)?;
        Ok(join_path(self.storage_dir_root.as_str(), key.as_str()))
    }

    /// Starts fetching `url` at `version` into its cache directory; `cached`
    /// tells whether that directory exists already.
    pub fn fetch(&self, url: &str, version: &str, refresh: bool, cached: bool) -> (r: Result<
        (FetchSession, FetchStep),
        EnvyrError,
    >)
        ensures
            r is Err <==> storage_path_of(url@) is None,
            r matches Err(e) ==> e is UrlParse,
            r matches Ok((s, st)) ==> {
                &&& s.dir@ == path_join(self.storage_dir_root@, storage_path_of(url@)->Some_0)
                &&& s.url@ == url@
                &&& s.version@ == version@
                &&& s.refresh == refresh
                &&& s.phase == (if cached {
                    FetchPhase::DefaultBranch
                } else {
                    FetchPhase::Clone
                })
                &&& st is Run && command_fits(
                    s,
                    GitOutcome::NotStarted { reason: s.url },
                    st->Run_0,
                )
            },
    {
        let dir = self.storage_dir(url)?;
        Ok(FetchSession::start(url, dir.as_str(), version, refresh, cached))
    }
}

/// `git@host:org/project`.
pub open spec fn ssh_url(host: Seq<char>, org: Seq<char>, project: Seq<char>) -> Seq<char> {
    "git@"@ + host + ":"@ + org + "/"@ + project
}

/// `https://host/org/project`.
pub open spec fn https_url(host: Seq<char>, org: Seq<char>, project: Seq<char>) -> Seq<char> {
    "https://"@ + host + "/"@ + org + "/"@ + project
}

/// Host, organisation and project that can stand as the segments of a URL: a
/// host holds no `/`, `:` or `@`, an organisation no `/` or `:`, a project no
/// `/` and no `.git` at its end.
pub open spec fn url_segments(host: Seq<char>, org: Seq<char>, project: Seq<char>) -> bool {
    &&& free_of(host, '/', 0, host.len() as int)
    &&& free_of(host, ':', 0, host.len() as int)
    &&& free_of(host, '@', 0, host.len() as int)
    &&& free_of(org, '/', 0, org.len() as int)
    &&& free_of(org, ':', 0, org.len() as int)
    &&& free_of(project, '/', 0, project.len() as int)
    &&& !seq_ends_with(project, ".git"@)
}

proof fn lemma_stem_suffixed(s: Seq<char>)
    ensures
        git_stem(s + ".git"@) == s,
{
    let t = s + ".git"@;
    assert(t.subrange(t.len() - ".git"@.len(), t.len() as int) =~= ".git"@);
    assert(t.subrange(0, s.len() as int) =~= s);
}

proof fn lemma_stem_plain(q: Seq<char>, p: Seq<char>)
    requires
        !seq_ends_with(p, ".git"@),
    ensures
        git_stem(q + "/"@ + p) == q + "/"@ + p,
{
    reveal_strlit(".git");
    reveal_strlit("/");
    let s = q + "/"@ + p;
    if seq_ends_with(s, ".git"@) {
        let w = s.subrange(s.len() - 4, s.len() as int);
        if p.len() >= 4 {
            assert(p.subrange(p.len() - 4, p.len() as int) =~= w);
        } else {
            let k = s.len() - 1 - p.len();
            assert(s[k] == '/');
            assert(w[k - (s.len() - 4)] == s[k]);
        }
    }
}

/// Parsing `git@host:org/project`: host, org and project come back.
proof fn lemma_ssh_parts(host: Seq<char>, org: Seq<char>, project: Seq<char>)
    requires
        url_segments(host, org, project),
    ensures
        git_stem(ssh_url(host, org, project)) == ssh_url(host, org, project),
        provider_of(ssh_url(host, org, project)) == host,
        org_of(ssh_url(host, org, project)) == Some(org),
        project_of(ssh_url(host, org, project)) == project,
{
    reveal_strlit("git@");
    reveal_strlit(":");
    reveal_strlit("/");
    reveal_strlit("https://");
    reveal_strlit("http://");
    let u = ssh_url(host, org, project);
    lemma_stem_plain("git@"@ + host + ":"@ + org, project);
    assert(u == "git@"@ + host + ":"@ + org + "/"@ + project);
    // not an https or http URL
    assert(u[0] == 'g');
    assert(!seq_starts_with(u, "https://"@)) by {
        if seq_starts_with(u, "https://"@) {
            assert(u.subrange(0, 8)[0] == u[0]);
        }
    }
    assert(!seq_starts_with(u, "http://"@)) by {
        if seq_starts_with(u, "http://"@) {
            assert(u.subrange(0, 7)[0] == u[0]);
        }
    }
    // the host
    let i0: int = 4 + host.len() as int;
    assert(is_first_index(u, ':', i0)) by {
        assert(u[i0] == ':');
        assert forall|j: int| 0 <= j < i0 implies u[j] != ':' by {
            if j >= 4 {
                assert(u[j] == host[j - 4]);
            }
        }
    }
    lemma_first_index(u, ':', i0);
    let h = u.subrange(0, i0);
    assert(h =~= "git@"@ + host);
    assert(is_last_index(h, '@', 3)) by {
        assert forall|j: int| 4 <= j < h.len() implies h[j] != '@' by {
            assert(h[j] == host[j - 4]);
        }
    }
    lemma_last_index(h, '@', 3);
    assert(h.subrange(4, h.len() as int) =~= host);
    // the organisation
    let i1: int = i0 + 1 + org.len();
    assert(is_last_index(u, '/', i1)) by {
        assert(u[i1] == '/');
        assert forall|j: int| i1 + 1 <= j < u.len() implies u[j] != '/' by {
            assert(u[j] == project[j - i1 - 1]);
        }
    }
    lemma_last_index(u, '/', i1);
    let head = u.subrange(0, i1);
    assert(head =~= "git@"@ + host + ":"@ + org);
    assert(free_of(head, '/', 0, head.len() as int)) by {
        assert forall|j: int| 0 <= j < head.len() implies head[j] != '/' by {
            if 4 <= j < i0 {
                assert(head[j] == host[j - 4]);
            } else if j > i0 {
                assert(head[j] == org[j - i0 - 1]);
            }
        }
    }
    lemma_no_last_index(head, '/');
    assert(is_last_index(head, ':', i0)) by {
        assert forall|j: int| i0 + 1 <= j < head.len() implies head[j] != ':' by {
            assert(head[j] == org[j - i0 - 1]);
        }
    }
    lemma_last_index(head, ':', i0);
    assert(head.subrange(i0 + 1, head.len() as int) =~= org);
    // the project
    assert(u.subrange(i1 + 1, u.len() as int) =~= project);
}

/// Parsing `https://host/org/project`: host, org and project come back.
proof fn lemma_https_parts(host: Seq<char>, org: Seq<char>, project: Seq<char>)
    requires
        url_segments(host, org, project),
    ensures
        git_stem(https_url(host, org, project)) == https_url(host, org, project),
        provider_of(https_url(host, org, project)) == host,
        org_of(https_url(host, org, project)) == Some(org),
        project_of(https_url(host, org, project)) == project,
{
    reveal_strlit("/");
    reveal_strlit("https://");
    let u = https_url(host, org, project);
    lemma_stem_plain("https://"@ + host + "/"@ + org, project);
    assert(u.subrange(0, 8) =~= "https://"@);
    // the host
    let rest = u.skip(8);
    assert(rest =~= host + "/"@ + org + "/"@ + project);
    assert(is_first_index(rest, '/', host.len() as int)) by {
        assert forall|j: int| 0 <= j < host.len() implies rest[j] != '/' by {
            assert(rest[j] == host[j]);
        }
    }
    lemma_first_index(rest, '/', host.len() as int);
    assert(rest.subrange(0, host.len() as int) =~= host);
    // the organisation
    let i0: int = 8 + host.len() as int;
    let i1: int = i0 + 1 + org.len();
    assert(is_last_index(u, '/', i1)) by {
        assert(u[i1] == '/');
        assert forall|j: int| i1 + 1 <= j < u.len() implies u[j] != '/' by {
            assert(u[j] == project[j - i1 - 1]);
        }
    }
    lemma_last_index(u, '/', i1);
    let head = u.subrange(0, i1);
    assert(head =~= "https://"@ + host + "/"@ + org);
    assert(is_last_index(head, '/', i0)) by {
        assert forall|j: int| i0 + 1 <= j < head.len() implies head[j] != '/' by {
            assert(head[j] == org[j - i0 - 1]);
        }
    }
    lemma_last_index(head, '/', i0);
    let seg = head.subrange(i0 + 1, head.len() as int);
    assert(seg =~= org);
    lemma_no_last_index(seg, ':');
    // the project
    assert(u.subrange(i1 + 1, u.len() as int) =~= project);
}

/// An SSH-style URL gives the same cache key with and without a trailing
/// `.git`: its host, organisation and project.
pub proof fn lemma_ssh_key_ignores_git_suffix(
    host: Seq<char>,
    org: Seq<char>,
    project: Seq<char>,
)
    requires
        url_segments(host, org, project),
    ensures
        provider_of(ssh_url(host, org, project) + ".git"@) == host,
        provider_of(ssh_url(host, org, project)) == host,
        org_of(ssh_url(host, org, project) + ".git"@) == Some(org),
        org_of(ssh_url(host, org, project)) == Some(org),
        project_of(ssh_url(host, org, project) + ".git"@) == project,
        project_of(ssh_url(host, org, project)) == project,
        storage_path_of(ssh_url(host, org, project) + ".git"@) == storage_path_of(
            ssh_url(host, org, project),
        ),
{
    lemma_stem_suffixed(ssh_url(host, org, project));
    lemma_ssh_parts(host, org, project);
}

/// An HTTPS URL, with or without a trailing `.git`, gives the same cache key
/// as the SSH-style URL of the same repository.
pub proof fn lemma_https_key_matches_ssh(host: Seq<char>, org: Seq<char>, project: Seq<char>)
    requires
        url_segments(host, org, project),
    ensures
        provider_of(https_url(host, org, project) + ".git"@) == provider_of(
            ssh_url(host, org, project),
        ),
        org_of(https_url(host, org, project) + ".git"@) == org_of(ssh_url(host, org, project)),
        project_of(https_url(host, org, project) + ".git"@) == project_of(
            ssh_url(host, org, project),
        ),
        storage_path_of(https_url(host, org, project) + ".git"@) == storage_path_of(
            ssh_url(host, org, project),
        ),
        storage_path_of(https_url(host, org, project)) == storage_path_of(
            ssh_url(host, org, project),
        ),
{
    lemma_stem_suffixed(https_url(host, org, project));
    lemma_https_parts(host, org, project);
    lemma_ssh_parts(host, org, project);
}

/// A locator without `/` has no cache key: parsing it fails.
pub proof fn lemma_no_slash_no_key(url: Seq<char>)
    requires
        free_of(url, '/', 0, url.len() as int),
    ensures
        org_of(url) is None,
        storage_path_of(url) is None,
{
    let u = git_stem(url);
    assert(free_of(u, '/', 0, u.len() as int)) by {
        assert forall|j: int| 0 <= j < u.len() implies u[j] != '/' by {
            assert(u[j] == url[j]);
        }
    }
    lemma_no_last_index(u, '/');
}

} // verus!
