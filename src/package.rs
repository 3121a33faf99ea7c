//! Project analysis: entrypoint candidates, the project type, and the
//! manifest (`Pack`) that a `PackBuilder` resolves from them.

use vstd::prelude::*;
use crate::error::EnvyrError;
use crate::text::{after_last, owned, trimmed};
use crate::utils::{
    detect_main_node, map_extension_to_ptype, ptype_of_extension, python_exec_priority,
    python_priority, shebang_interpreter, shebang_of_line, PRIORITY_LAST, PRIORITY_LIKELY,
};

verus! {

/// The kind of runtime a project needs.
#[derive(Debug, Clone, Copy, PartialEq, Eq, Structural)]
pub enum PType {
    Python,
    Node,
    Shell,
    Other,
}

impl Default for PType {
    fn default() -> (r: Self)
        ensures
            r == PType::Other,
    {
        PType::Other
    }
}

/// A file that may be the project's entrypoint.
#[derive(Debug, Clone, PartialEq)]
pub struct Candidate {
    /// Path relative to the project root.
    pub path: String,
    /// Command that runs the file.
    pub interpreter: String,
    /// Confidence: lower is more confident.
    pub priority: u8,
}

/// The resolved recipe for running a project.
#[derive(Debug, Clone)]
pub struct Pack {
    pub name: String,
    pub interpreter: String,
    pub ptype: PType,
    /// Packages of the operating system that the entrypoint needs.
    pub deps: Vec<String>,
    /// Path of the entrypoint relative to the project root.
    pub entrypoint: String,
}

/// What is known of a project before its manifest is resolved: what the
/// analysis found, and what the caller set by hand.
#[derive(Debug)]
pub struct PackBuilder {
    pub project_root: String,
    pub name: Option<String>,
    pub interpreter: Option<String>,
    pub entrypoint: Option<String>,
    /// Entrypoint candidates, in the order the walk met them.
    pub executables: Vec<Candidate>,
    pub ptype: PType,
    /// The `main` field of the project's `package.json`, if any.
    pub package_main: Option<String>,
}

impl Default for PackBuilder {
    fn default() -> (r: Self)
        ensures
            r.project_root@.len() == 0,
            r.name is None,
            r.interpreter is None,
            r.entrypoint is None,
            r.executables@.len() == 0,
            r.ptype == PType::Other,
            r.package_main is None,
    {
        PackBuilder {
            project_root: String::new(),
            name: None,
            interpreter: None,
            entrypoint: None,
            executables: Vec::new(),
            ptype: PType::Other,
            package_main: None,
        }
    }
}

/// The text of an optional string.
pub open spec fn opt_view(o: Option<String>) -> Option<Seq<char>> {
    match o {
        Some(s) => Some(s@),
        None => None,
    }
}

/// Candidate `i` is strictly more confident than every other one.
pub open spec fn is_best(c: Seq<Candidate>, i: int) -> bool {
    &&& 0 <= i < c.len()
    &&& forall|k: int| 0 <= k < c.len() && k != i ==> c[k].priority > c[i].priority
}

/// Two candidates share the most confident priority.
pub open spec fn is_ambiguous(c: Seq<Candidate>) -> bool {
    exists|i: int, j: int|
        #![trigger c[i], c[j]]
        0 <= i < c.len() && 0 <= j < c.len() && i != j && c[i].priority == c[j].priority && (
        forall|k: int| 0 <= k < c.len() ==> c[k].priority >= c[i].priority)
}

/// The most confident candidate, where there is one.
pub open spec fn best_index(c: Seq<Candidate>) -> int {
    choose|i: int| is_best(c, i)
}

/// The interpreter that a project type implies.
pub open spec fn deduced_interpreter(p: PType) -> Option<Seq<char>> {
    match p {
        PType::Python => Some("/usr/bin/env python"@),
        PType::Node => Some("/usr/bin/env node"@),
        PType::Shell => Some("/bin/sh"@),
        PType::Other => None,
    }
}

/// The entrypoint that a project type implies: for Node, the `main` field of
/// `package.json`.
pub open spec fn deduced_entrypoint(p: PType, package_main: Option<String>) -> Option<Seq<char>> {
    if p == PType::Node {
        opt_view(package_main)
    } else {
        None
    }
}

/// How the entrypoint of a builder is settled.
pub enum EntryChoice {
    /// None was given, no candidate was found and none is implied.
    Missing,
    /// Several candidates share the most confident priority.
    Ambiguous,
    /// This path, with the interpreter that goes with it (if any).
    Chosen { path: Seq<char>, interpreter: Option<Seq<char>> },
}

/// The entrypoint of a builder: the one set by hand; else the one implied by
/// the project type when there is no candidate; else the single most
/// confident candidate, whose interpreter comes with it unless one was set
/// by hand.
pub open spec fn choose_entry(b: PackBuilder) -> EntryChoice {
    match b.entrypoint {
        Some(e) => EntryChoice::Chosen { path: e@, interpreter: opt_view(b.interpreter) },
        None => {
            let c = b.executables@;
            if c.len() == 0 {
                match deduced_entrypoint(b.ptype, b.package_main) {
                    Some(m) => EntryChoice::Chosen { path: m, interpreter: opt_view(b.interpreter) },
                    None => EntryChoice::Missing,
                }
            } else if is_ambiguous(c) {
                EntryChoice::Ambiguous
            } else {
                let i = best_index(c);
                EntryChoice::Chosen {
                    path: c[i].path@,
                    interpreter: if b.interpreter is Some {
                        opt_view(b.interpreter)
                    } else {
                        Some(c[i].interpreter@)
                    },
                }
            }
        },
    }
}

/// The interpreter that goes with an entrypoint, else the one the project
/// type implies.
pub open spec fn settled_interpreter(given: Option<Seq<char>>, p: PType) -> Option<Seq<char>> {
    if given is Some {
        given
    } else {
        deduced_interpreter(p)
    }
}

/// The manifest built from `b` has this name, interpreter and entrypoint.
pub open spec fn builds(b: PackBuilder, r: Result<Pack, EnvyrError>) -> bool {
    match b.name {
        None => r matches Err(e) && e is MissingName,
        Some(name) => match choose_entry(b) {
            EntryChoice::Missing => r matches Err(e) && e is MissingEntrypoint,
            EntryChoice::Ambiguous => r matches Err(e) && e is AmbiguousEntrypoint
                && e->candidates == b.executables,
            EntryChoice::Chosen { path, interpreter } => match settled_interpreter(
                interpreter,
                b.ptype,
            ) {
                None => r matches Err(e) && e is MissingInterpreter,
                Some(i) => r matches Ok(p) && p.name == name && p.interpreter@ == i
                    && p.entrypoint@ == path && p.ptype == b.ptype && p.deps@.len() == 0,
            },
        },
    }
}

/// The interpreter that a project type implies: `/usr/bin/env python` for
/// Python, `/usr/bin/env node` for Node, `/bin/sh` for Shell, none otherwise.
pub fn deduce_interpreter(ptype: PType) -> (r: Option<String>)
    ensures
        opt_view(r) == deduced_interpreter(ptype),
{
    match ptype {
        PType::Python => Some(owned("/usr/bin/env python")),
        PType::Node => Some(owned("/usr/bin/env node")),
        PType::Shell => Some(owned("/bin/sh")),
        PType::Other => None,
    }
}

/// The entrypoint that a project type implies: for Node, the `main` field of
/// its `package.json`.
pub fn deduce_entrypoint(ptype: PType, package_main: Option<String>) -> (r: Option<String>)
    ensures
        opt_view(r) == deduced_entrypoint(ptype, package_main),
{
    match ptype {
        PType::Node => package_main,
        _ => None,
    }
}

/// The most confident candidate, and whether another one ties with it.
fn most_confident(c: &Vec<Candidate>) -> (r: (usize, bool))
    requires
        c@.len() > 0,
    ensures
        r.1 == is_ambiguous(c@),
        !r.1 ==> is_best(c@, r.0 as int) && best_index(c@) == r.0,
{
    let mut best: usize = 0;
    let mut tie = false;
    let mut k: usize = 1;
    while k < c.len()
        invariant
            1 <= k <= c@.len(),
            best < k,
            forall|j: int| 0 <= j < k ==> c@[j].priority >= c@[best as int].priority,
            tie ==> exists|j: int|
                0 <= j < k && j != best && c@[j].priority == c@[best as int].priority,
            !tie ==> forall|j: int|
                0 <= j < k && j != best ==> c@[j].priority > c@[best as int].priority,
        decreases c@.len() - k,
    {
        if c[k].priority < c[best].priority {
            best = k;
            tie = false;
        } else if c[k].priority == c[best].priority {
            tie = true;
        }
        k = k + 1;
    }
    if tie {
        let ghost j = choose|j: int|
            0 <= j < k && j != best && c@[j].priority == c@[best as int].priority;
        assert(c@[best as int] == c@[best as int] && c@[j] == c@[j]);
    } else {
        assert(!is_ambiguous(c@)) by {
            if is_ambiguous(c@) {
                let (i, j) = choose|i: int, j: int|
                    #![trigger c@[i], c@[j]]
                    0 <= i < c@.len() && 0 <= j < c@.len() && i != j && c@[i].priority
                        == c@[j].priority && (forall|k: int|
                        0 <= k < c@.len() ==> c@[k].priority >= c@[i].priority);
                assert(c@[best as int].priority >= c@[i].priority);
                if i != best {
                    assert(c@[i].priority > c@[best as int].priority);
                } else {
                    assert(c@[j].priority > c@[best as int].priority);
                }
            }
        }
        assert(is_best(c@, best as int));
        proof {
            let b = best_index(c@);
            assert(is_best(c@, b));
            if b != best as int {
                assert(c@[b].priority > c@[best as int].priority);
                assert(c@[best as int].priority > c@[b].priority);
            }
        }
    }
    (best, tie)
}

impl Pack {
    /// Whether the entrypoint runs under bash, so that the packages it needs
    /// are worth detecting.
    pub fn wants_os_deps(&self) -> (r: bool)
        ensures
            r == crate::text::seq_contains(self.interpreter@, "bash"@),
    {
        let i = crate::text::chars_of(self.interpreter.as_str());
        let b = crate::text::chars_of("bash");
        crate::text::contains_chars(&i, &b)
    }

    /// The manifest with the packages that detection found; with none when
    /// the entrypoint does not run under bash or detection failed.
    pub fn with_os_deps(self, found: Option<Vec<String>>) -> (r: Pack)
        ensures
            r.name == self.name,
            r.interpreter == self.interpreter,
            r.ptype == self.ptype,
            r.entrypoint == self.entrypoint,
            r.deps@ == (if crate::text::seq_contains(self.interpreter@, "bash"@)
                && found is Some {
                found->Some_0@
            } else {
                Seq::<String>::empty()
            }),
    {
        let wanted = self.wants_os_deps();
        let deps = match found {
            Some(d) => if wanted {
                d
            } else {
                Vec::new()
            },
            None => Vec::new(),
        };
        Pack {
            name: self.name,
            interpreter: self.interpreter,
            ptype: self.ptype,
            deps,
            entrypoint: self.entrypoint,
        }
    }
}

impl PackBuilder {
    pub fn name(self, name: String) -> (r: Self)
        ensures
            r == (PackBuilder { name: Some(name), ..self }),
    {
        PackBuilder { name: Some(name), ..self }
    }

    pub fn interpreter(self, interpreter: String) -> (r: Self)
        ensures
            r == (PackBuilder { interpreter: Some(interpreter), ..self }),
    {
        PackBuilder { interpreter: Some(interpreter), ..self }
    }

    pub fn entrypoint(self, entrypoint: String) -> (r: Self)
        ensures
            r == (PackBuilder { entrypoint: Some(entrypoint), ..self }),
    {
        PackBuilder { entrypoint: Some(entrypoint), ..self }
    }

    pub fn ptype(self, ptype: PType) -> (r: Self)
        ensures
            r == (PackBuilder { ptype, ..self }),
    {
        PackBuilder { ptype, ..self }
    }

    /// Resolves the manifest: the name must be known; the entrypoint is the
    /// one given, else the one the project type implies when no candidate was
    /// found, else the single most confident candidate (several equally
    /// confident ones are an error); the interpreter is the one given or the
    /// chosen candidate's, else the one the project type implies.
    pub fn build(self) -> (r: Result<Pack, EnvyrError>)
        ensures
            builds(self, r),
    {
        let ghost b = self;
        let PackBuilder {
            project_root: _,
            name,
            interpreter,
            entrypoint,
            executables,
            ptype,
            package_main,
        } = self;
        let name = match name {
            Some(n) => n,
            None => {
                return Err(EnvyrError::MissingName);
            },
        };
        let (path, interp) = match entrypoint {
            Some(e) => (e, interpreter),
            None => {
                if executables.len() == 0 {
                    match deduce_entrypoint(ptype, package_main) {
                        Some(m) => (m, interpreter),
                        None => {
                            return Err(EnvyrError::MissingEntrypoint);
                        },
                    }
                } else {
                    let (best, tie) = most_confident(&executables);
                    if tie {
                        return Err(EnvyrError::AmbiguousEntrypoint { candidates: executables });
                    }
                    let p = executables[best].path.clone();
                    let i = match interpreter {
                        Some(i) => Some(i),
                        None => Some(executables[best].interpreter.clone()),
                    };
                    (p, i)
                }
            },
        };
        let interp = match interp {
            Some(i) => i,
            None => match deduce_interpreter(ptype) {
                Some(i) => i,
                None => {
                    return Err(EnvyrError::MissingInterpreter);
                },
            },
        };
        Ok(Pack { name, interpreter: interp, ptype, deps: Vec::new(), entrypoint: path })
    }
}

/// A regular file that the walk of a project met.
#[derive(Debug, Clone)]
pub struct WalkedFile {
    /// Its path, as the walk gave it.
    pub path: String,
    /// Its extension, when it has one that is valid text.
    pub extension: Option<String>,
    /// Its whole text for a `py` file, its first line for others; none when
    /// it could not be read as text.
    pub text: Option<String>,
}

/// What the caller gathered from a project directory.
#[derive(Debug, Clone)]
pub struct ProjectScan {
    pub root: String,
    pub has_package_json: bool,
    pub has_requirements_txt: bool,
    /// The text of `package.json`, when it could be read.
    pub package_json: Option<String>,
    /// The regular files below the root, in the order of the walk, without
    /// those below pruned entries.
    pub files: Vec<WalkedFile>,
}

/// Whether a file of this extension is read whole (for its `__main__`
/// guard) rather than up to its first line (for a shebang).
pub open spec fn reads_whole(extension: Option<String>) -> bool {
    extension matches Some(e) && e@ == "py"@
}

/// The interpreter and priority of a file that may be an entrypoint.
pub open spec fn entry_of_file(f: WalkedFile) -> Option<(Seq<char>, u8)> {
    if reads_whole(f.extension) {
        Some(
            (
                "/usr/bin/env python"@,
                match f.text {
                    Some(t) => python_priority(t@),
                    None => PRIORITY_LAST,
                },
            ),
        )
    } else {
        match f.text {
            Some(l) => match shebang_of_line(l@) {
                Some(i) => Some((trimmed(i), PRIORITY_LIKELY)),
                None => None,
            },
            None => None,
        }
    }
}

/// What pathdiff::diff_paths gives for a path relative to a base, as text.
pub uninterp spec fn path_diff(path: Seq<char>, base: Seq<char>) -> Option<Seq<char>>;

/// Relies on pathdiff::diff_paths: the path of `path` relative to `base`,
/// worked out from the two paths' components alone.
#[verifier::external_body]
fn relative_path(path: &str, base: &str) -> (r: Option<String>)
    ensures
        opt_view(r) == path_diff(path@, base@),
{
    pathdiff::diff_paths(path, base).and_then(|p| p.to_str().map(str::to_owned))
}

/// The view of a candidate: relative path, interpreter and priority.
pub open spec fn candidate_view(c: Candidate) -> (Seq<char>, Seq<char>, u8) {
    (c.path@, c.interpreter@, c.priority)
}

/// The candidates of the walked files `fs` below `root`, in order; none when
/// a candidate has no path relative to the root.
pub open spec fn scan_entries(fs: Seq<WalkedFile>, root: Seq<char>) -> Option<
    Seq<(Seq<char>, Seq<char>, u8)>,
>
    decreases fs.len(),
{
    if fs.len() == 0 {
        Some(seq![])
    } else {
        match scan_entries(fs.drop_last(), root) {
            None => None,
            Some(prev) => match entry_of_file(fs.last()) {
                None => Some(prev),
                Some(e) => match path_diff(fs.last().path@, root) {
                    Some(rel) => Some(prev.push((rel, e.0, e.1))),
                    None => None,
                },
            },
        }
    }
}

/// A walk whose prefix holds a candidate without a relative path has none
/// as a whole.
proof fn lemma_scan_fails_onward(fs: Seq<WalkedFile>, root: Seq<char>, k: int)
    requires
        0 <= k <= fs.len(),
        scan_entries(fs.subrange(0, k), root) is None,
    ensures
        scan_entries(fs, root) is None,
    decreases fs.len() - k,
{
    if k < fs.len() {
        assert(fs.subrange(0, k + 1).drop_last() =~= fs.subrange(0, k));
        lemma_scan_fails_onward(fs, root, k + 1);
    } else {
        assert(fs.subrange(0, k) =~= fs);
    }
}

/// The type that marker files give: Node for `package.json`, else Python for
/// `requirements.txt`, else none.
pub open spec fn marker_ptype(has_package_json: bool, has_requirements_txt: bool) -> PType {
    if has_package_json {
        PType::Node
    } else if has_requirements_txt {
        PType::Python
    } else {
        PType::Other
    }
}

/// The project type after the walk: `init` unless it is `Other`, else the
/// type of the first file whose extension suggests one.
pub open spec fn walk_ptype(fs: Seq<WalkedFile>, init: PType) -> PType
    decreases fs.len(),
{
    if fs.len() == 0 {
        init
    } else {
        let cur = walk_ptype(fs.drop_last(), init);
        if cur == PType::Other {
            match fs.last().extension {
                Some(e) => match ptype_of_extension(e@) {
                    Some(t) => t,
                    None => cur,
                },
                None => cur,
            }
        } else {
            cur
        }
    }
}

/// `s` without its trailing `/` characters.
pub open spec fn without_trailing_slashes(s: Seq<char>) -> Seq<char>
    decreases s.len(),
{
    if s.len() > 0 && s.last() == '/' {
        without_trailing_slashes(s.drop_last())
    } else {
        s
    }
}

/// The base name of a directory: its last non-empty path segment, unless
/// that is `.` or `..`.
pub open spec fn name_of_root(root: Seq<char>) -> Option<Seq<char>> {
    let n = after_last(without_trailing_slashes(root), '/');
    if n.len() == 0 || n == "."@ || n == ".."@ {
        None
    } else {
        Some(n)
    }
}

/// The base name of the project directory.
pub fn detect_name(project_root: &str) -> (r: Option<String>)
    ensures
        opt_view(r) == name_of_root(project_root@),
{
    let cs = crate::text::chars_of(project_root);
    let mut k: usize = cs.len();
    assert(cs@.subrange(0, k as int) =~= project_root@);
    while k > 0 && cs[k - 1] == '/'
        invariant
            k <= cs@.len(),
            cs@ == project_root@,
            without_trailing_slashes(cs@.subrange(0, k as int)) == without_trailing_slashes(
                project_root@,
            ),
        decreases k,
    {
        assert(cs@.subrange(0, k as int).drop_last() =~= cs@.subrange(0, k - 1));
        k = k - 1;
    }
    proof {
        let t = cs@.subrange(0, k as int);
        if k > 0 {
            assert(t.last() == cs@[k - 1]);
        }
    }
    let stem = crate::text::slice_of(project_root, 0, k);
    let n = crate::text::field_after_last(stem.as_str(), '/');
    let ns = crate::text::chars_of(n.as_str());
    if ns.len() == 0 || crate::text::same_text(n.as_str(), ".") || crate::text::same_text(
        n.as_str(),
        "..",
    ) {
        None
    } else {
        Some(n)
    }
}

/// The type that marker files give, if any.
pub fn detect_ptype(has_package_json: bool, has_requirements_txt: bool) -> (r: Option<PType>)
    ensures
        r is Some <==> marker_ptype(has_package_json, has_requirements_txt) != PType::Other,
        r matches Some(t) ==> t == marker_ptype(has_package_json, has_requirements_txt),
{
    if has_package_json {
        Some(PType::Node)
    } else if has_requirements_txt {
        Some(PType::Python)
    } else {
        None
    }
}

/// Whether a file with this extension is read whole rather than up to its
/// first line.
pub fn needs_whole_text(extension: &Option<String>) -> (r: bool)
    ensures
        r == reads_whole(*extension),
{
    match extension {
        Some(e) => crate::text::same_text(e.as_str(), "py"),
        None => false,
    }
}

/// The interpreter and priority of a file that may be an entrypoint: a `py`
/// file runs under Python, at top priority with a `__main__` guard; another
/// file is a candidate when its first line is a shebang.
pub fn detect_possible_entrypoint(f: &WalkedFile) -> (r: Option<(String, u8)>)
    ensures
        r matches Some(e) ==> entry_of_file(*f) == Some((e.0@, e.1)),
        r is None ==> entry_of_file(*f) is None,
{
    if needs_whole_text(&f.extension) {
        let priority = match &f.text {
            Some(t) => python_exec_priority(t.as_str()),
            None => PRIORITY_LAST,
        };
        Some((owned("/usr/bin/env python"), priority))
    } else {
        match &f.text {
            Some(l) => match shebang_interpreter(l.as_str()) {
                Some(i) => Some((crate::text::trim(i.as_str()), PRIORITY_LIKELY)),
                None => None,
            },
            None => None,
        }
    }
}

/// `r` is the analysis of a scanned project: it fails exactly when a
/// candidate has no path relative to the root; otherwise its name is the
/// root's base name, its type comes from marker files or else from the first
/// telling extension, its candidates are those of the walked files in order,
/// and the Node entrypoint is the `main` field of `package.json`.
pub open spec fn analysed(scan: ProjectScan, r: Result<PackBuilder, EnvyrError>) -> bool {
    &&& (r is Err <==> scan_entries(scan.files@, scan.root@) is None)
    &&& (r matches Err(e) ==> e is OutsideRoot)
    &&& (r matches Ok(b) ==> {
        &&& b.project_root@ == scan.root@
        &&& opt_view(b.name) == name_of_root(scan.root@)
        &&& b.interpreter is None
        &&& b.entrypoint is None
        &&& b.executables@.map_values(|c: Candidate| candidate_view(c)) == scan_entries(
            scan.files@,
            scan.root@,
        )->Some_0
        &&& b.ptype == walk_ptype(
            scan.files@,
            marker_ptype(scan.has_package_json, scan.has_requirements_txt),
        )
        &&& opt_view(b.package_main) == (if scan.has_package_json
            && scan.package_json is Some {
            crate::utils::json_str_member(scan.package_json->Some_0@, "main"@)
        } else {
            None
        })
    })
}

impl Pack {
    /// Analyses a scanned project: its name is the root's base name, its
    /// type comes from marker files or else from the first telling file
    /// extension, its candidates are the walked files that may be
    /// entrypoints, with paths relative to the root.
    pub fn builder(scan: &ProjectScan) -> (r: Result<PackBuilder, EnvyrError>)
        ensures
            analysed(*scan, r),
    {
        let mut ptype = match detect_ptype(scan.has_package_json, scan.has_requirements_txt) {
            Some(t) => t,
            None => PType::Other,
        };
        let ghost init = ptype;
        let mut executables: Vec<Candidate> = Vec::new();
        let mut i: usize = 0;
        while i < scan.files.len()
            invariant
                i <= scan.files@.len(),
                scan_entries(scan.files@.subrange(0, i as int), scan.root@) is Some,
                executables@.map_values(|c: Candidate| candidate_view(c)) == scan_entries(
                    scan.files@.subrange(0, i as int),
                    scan.root@,
                )->Some_0,
                ptype == walk_ptype(scan.files@.subrange(0, i as int), init),
            decreases scan.files@.len() - i,
        {
            let f = &scan.files[i];
            let ghost pre = scan.files@.subrange(0, i as int);
            let ghost cur = scan.files@.subrange(0, i + 1);
            assert(cur.drop_last() =~= pre);
            assert(cur.last() == *f);
            match detect_possible_entrypoint(f) {
                Some((interpreter, priority)) => match relative_path(
                    f.path.as_str(),
                    scan.root.as_str(),
                ) {
                    Some(path) => {
                        let ghost old_v = executables@;
                        let c = Candidate { path, interpreter, priority };
                        executables.push(c);
                        assert(executables@.map_values(|c: Candidate| candidate_view(c))
                            =~= old_v.map_values(|c: Candidate| candidate_view(c)).push(
                            candidate_view(c),
                        ));
                    },
                    None => {
                        proof {
                            lemma_scan_fails_onward(scan.files@, scan.root@, i + 1);
                        }
                        return Err(EnvyrError::OutsideRoot { path: f.path.clone() });
                    },
                },
                None => {},
            }
            if ptype == PType::Other {
                match &f.extension {
                    Some(e) => match map_extension_to_ptype(e.as_str()) {
                        Some(t) => {
                            ptype = t;
                        },
                        None => {},
                    },
                    None => {},
                }
            }
            i = i + 1;
        }
        assert(scan.files@.subrange(0, i as int) =~= scan.files@);
        let package_main = if scan.has_package_json {
            match &scan.package_json {
                Some(t) => detect_main_node(t.as_str()),
                None => None,
            }
        } else {
            None
        };
        Ok(
            PackBuilder {
                project_root: scan.root.clone(),
                name: detect_name(scan.root.as_str()),
                interpreter: None,
                entrypoint: None,
                executables,
                ptype,
                package_main,
            },
        )
    }
}

/// A builder with a name, nothing else set by hand, and a single candidate
/// resolves to that candidate's path and interpreter, whatever its priority
/// and whatever the project type implies.
pub proof fn lemma_single_candidate_is_chosen(b: PackBuilder, r: Result<Pack, EnvyrError>)
    requires
        builds(b, r),
        b.name is Some,
        b.entrypoint is None,
        b.interpreter is None,
        b.executables@.len() == 1,
    ensures
        r matches Ok(p) && p.entrypoint@ == b.executables@[0].path@ && p.interpreter@
            == b.executables@[0].interpreter@ && p.name == b.name->Some_0,
{
    let c = b.executables@;
    assert(is_best(c, 0));
    assert(best_index(c) == 0) by {
        let k = best_index(c);
        assert(is_best(c, k));
    }
    assert(!is_ambiguous(c));
}

/// A builder with no entrypoint set by hand and two candidates of top
/// priority fails as ambiguous, listing every candidate.
pub proof fn lemma_two_top_candidates_are_ambiguous(
    b: PackBuilder,
    r: Result<Pack, EnvyrError>,
    i: int,
    j: int,
)
    requires
        builds(b, r),
        b.name is Some,
        b.entrypoint is None,
        0 <= i < b.executables@.len(),
        0 <= j < b.executables@.len(),
        i != j,
        b.executables@[i].priority == crate::utils::PRIORITY_TOP,
        b.executables@[j].priority == crate::utils::PRIORITY_TOP,
    ensures
        r matches Err(e) && e is AmbiguousEntrypoint && e->candidates == b.executables,
{
    let c = b.executables@;
    assert(c[i] == c[i] && c[j] == c[j]);
    assert(is_ambiguous(c));
}

/// A Node project with no candidate and nothing set by hand but its name
/// runs the `main` of its `package.json` under `/usr/bin/env node`.
pub proof fn lemma_node_main_is_entrypoint(b: PackBuilder, r: Result<Pack, EnvyrError>)
    requires
        builds(b, r),
        b.name is Some,
        b.entrypoint is None,
        b.interpreter is None,
        b.executables@.len() == 0,
        b.ptype == PType::Node,
        b.package_main is Some,
    ensures
        r matches Ok(p) && p.entrypoint@ == b.package_main->Some_0@ && p.interpreter@
            == "/usr/bin/env node"@ && p.ptype == PType::Node,
{
}

/// The number of walked files that may be entrypoints.
pub open spec fn candidate_count(fs: Seq<WalkedFile>) -> nat
    decreases fs.len(),
{
    if fs.len() == 0 {
        0
    } else {
        candidate_count(fs.drop_last()) + if entry_of_file(fs.last()) is Some {
            1nat
        } else {
            0nat
        }
    }
}

/// The entry that a candidate file contributes to a scan.
pub open spec fn scanned_entry(f: WalkedFile, root: Seq<char>) -> (Seq<char>, Seq<char>, u8) {
    (path_diff(f.path@, root)->Some_0, entry_of_file(f)->Some_0.0, entry_of_file(f)->Some_0.1)
}

proof fn lemma_scan_len(fs: Seq<WalkedFile>, root: Seq<char>)
    requires
        scan_entries(fs, root) is Some,
    ensures
        scan_entries(fs, root)->Some_0.len() == candidate_count(fs),
    decreases fs.len(),
{
    if fs.len() > 0 {
        lemma_scan_len(fs.drop_last(), root);
    }
}

/// Candidate `k` stands in the scan after the candidates before it.
proof fn lemma_scan_position(fs: Seq<WalkedFile>, root: Seq<char>, k: int)
    requires
        scan_entries(fs, root) is Some,
        0 <= k < fs.len(),
        entry_of_file(fs[k]) is Some,
    ensures
        candidate_count(fs.subrange(0, k)) < candidate_count(fs),
        scan_entries(fs, root)->Some_0[candidate_count(fs.subrange(0, k)) as int] == scanned_entry(
            fs[k],
            root,
        ),
    decreases fs.len(),
{
    let p = fs.drop_last();
    lemma_scan_len(p, root);
    if k == fs.len() - 1 {
        assert(fs.subrange(0, k) =~= p);
    } else {
        assert(p[k] == fs[k]);
        assert(p.subrange(0, k) =~= fs.subrange(0, k));
        lemma_scan_position(p, root, k);
    }
}

/// Counting candidates over longer prefixes never decreases, and passes a
/// candidate by one.
proof fn lemma_count_grows(fs: Seq<WalkedFile>, i: int, j: int)
    requires
        0 <= i <= j <= fs.len(),
    ensures
        candidate_count(fs.subrange(0, i)) <= candidate_count(fs.subrange(0, j)),
        i < j && entry_of_file(fs[i]) is Some ==> candidate_count(fs.subrange(0, i))
            < candidate_count(fs.subrange(0, j)),
    decreases j - i,
{
    if i < j {
        lemma_count_grows(fs, i, j - 1);
        assert(fs.subrange(0, j).drop_last() =~= fs.subrange(0, j - 1));
        assert(fs.subrange(0, j).last() == fs[j - 1]);
    }
}

/// When file `k` alone may be an entrypoint, the prefixes hold one
/// candidate after it and none before.
proof fn lemma_count_single(fs: Seq<WalkedFile>, k: int, m: int)
    requires
        0 <= k < fs.len(),
        0 <= m <= fs.len(),
        entry_of_file(fs[k]) is Some,
        forall|j: int| 0 <= j < fs.len() && j != k ==> entry_of_file(#[trigger] fs[j]) is None,
    ensures
        candidate_count(fs.subrange(0, m)) == (if m > k {
            1nat
        } else {
            0nat
        }),
    decreases m,
{
    if m > 0 {
        lemma_count_single(fs, k, m - 1);
        assert(fs.subrange(0, m).drop_last() =~= fs.subrange(0, m - 1));
        assert(fs.subrange(0, m).last() == fs[m - 1]);
    } else {
        assert(fs.subrange(0, 0).len() == 0);
    }
}

/// A scanned project whose walk holds a single file that may be an
/// entrypoint resolves to that file, at its path relative to the root, with
/// the interpreter that the file declares or implies.
pub proof fn lemma_single_candidate_project(
    scan: ProjectScan,
    b: PackBuilder,
    r: Result<Pack, EnvyrError>,
    k: int,
)
    requires
        analysed(scan, Ok(b)),
        builds(b, r),
        name_of_root(scan.root@) is Some,
        0 <= k < scan.files@.len(),
        entry_of_file(scan.files@[k]) is Some,
        forall|j: int|
            0 <= j < scan.files@.len() && j != k ==> entry_of_file(#[trigger] scan.files@[j])
                is None,
    ensures
        r matches Ok(p) && p.entrypoint@ == path_diff(scan.files@[k].path@, scan.root@)->Some_0
            && p.interpreter@ == entry_of_file(scan.files@[k])->Some_0.0,
{
    let fs = scan.files@;
    lemma_scan_position(fs, scan.root@, k);
    lemma_scan_len(fs, scan.root@);
    lemma_count_single(fs, k, k);
    lemma_count_single(fs, k, fs.len() as int);
    assert(fs.subrange(0, fs.len() as int) =~= fs);
    let es = scan_entries(fs, scan.root@)->Some_0;
    assert(b.executables@.map_values(|c: Candidate| candidate_view(c))[0] == es[0]);
    lemma_single_candidate_is_chosen(b, r);
}

/// A scanned project whose walk holds one `py` file with a `__main__` guard
/// and no other file that may be an entrypoint runs that file under
/// `/usr/bin/env python`.
pub proof fn lemma_guarded_python_project(
    scan: ProjectScan,
    b: PackBuilder,
    r: Result<Pack, EnvyrError>,
    k: int,
)
    requires
        analysed(scan, Ok(b)),
        builds(b, r),
        name_of_root(scan.root@) is Some,
        0 <= k < scan.files@.len(),
        reads_whole(scan.files@[k].extension),
        scan.files@[k].text matches Some(t) && crate::utils::has_main_guard(t@),
        forall|j: int|
            0 <= j < scan.files@.len() && j != k ==> entry_of_file(#[trigger] scan.files@[j])
                is None,
    ensures
        r matches Ok(p) && p.entrypoint@ == path_diff(scan.files@[k].path@, scan.root@)->Some_0
            && p.interpreter@ == "/usr/bin/env python"@,
{
    lemma_single_candidate_project(scan, b, r, k);
}

/// A scanned project whose only possible entrypoint is a file (not a `py`
/// one) with a shebang line runs it under the declared interpreter, trimmed,
/// whatever the project type implies.
pub proof fn lemma_shebang_project(
    scan: ProjectScan,
    b: PackBuilder,
    r: Result<Pack, EnvyrError>,
    k: int,
)
    requires
        analysed(scan, Ok(b)),
        builds(b, r),
        name_of_root(scan.root@) is Some,
        0 <= k < scan.files@.len(),
        !reads_whole(scan.files@[k].extension),
        scan.files@[k].text matches Some(l) && shebang_of_line(l@) is Some,
        forall|j: int|
            0 <= j < scan.files@.len() && j != k ==> entry_of_file(#[trigger] scan.files@[j])
                is None,
    ensures
        r matches Ok(p) && p.entrypoint@ == path_diff(scan.files@[k].path@, scan.root@)->Some_0
            && p.interpreter@ == trimmed(
            shebang_of_line(scan.files@[k].text->Some_0@)->Some_0,
        ),
{
    lemma_single_candidate_project(scan, b, r, k);
}

/// A scanned project whose walk holds two `py` files with a `__main__`
/// guard, and no entrypoint set by hand, fails as ambiguous; the error lists
/// every candidate, both files among them.
pub proof fn lemma_two_guarded_files_project(
    scan: ProjectScan,
    b: PackBuilder,
    r: Result<Pack, EnvyrError>,
    i: int,
    j: int,
)
    requires
        analysed(scan, Ok(b)),
        builds(b, r),
        name_of_root(scan.root@) is Some,
        0 <= i < j < scan.files@.len(),
        reads_whole(scan.files@[i].extension),
        reads_whole(scan.files@[j].extension),
        scan.files@[i].text matches Some(t) && crate::utils::has_main_guard(t@),
        scan.files@[j].text matches Some(t) && crate::utils::has_main_guard(t@),
    ensures
        r matches Err(e) && e is AmbiguousEntrypoint && e->candidates == b.executables,
        exists|p: int, q: int|
            0 <= p < q < b.executables@.len() && b.executables@[p].path@ == path_diff(
                scan.files@[i].path@,
                scan.root@,
            )->Some_0 && b.executables@[q].path@ == path_diff(
                scan.files@[j].path@,
                scan.root@,
            )->Some_0,
{
    let fs = scan.files@;
    let root = scan.root@;
    lemma_scan_position(fs, root, i);
    lemma_scan_position(fs, root, j);
    lemma_scan_len(fs, root);
    lemma_count_grows(fs, i, j);
    let p = candidate_count(fs.subrange(0, i)) as int;
    let q = candidate_count(fs.subrange(0, j)) as int;
    let views = b.executables@.map_values(|c: Candidate| candidate_view(c));
    assert(views[p] == candidate_view(b.executables@[p]));
    assert(views[q] == candidate_view(b.executables@[q]));
    lemma_two_top_candidates_are_ambiguous(b, r, p, q);
}

} // verus!
