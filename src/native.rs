//! What the native executor decides: which installer to run, the command
//! line, and the environment to add.

use vstd::prelude::*;
use crate::docker::env_value;
use crate::package::{Pack, PType};
use crate::source::{join_path, path_join};
use crate::text::{chars_of, find_first, first_index, is_white_space, seq_starts_with, slice_of};

verus! {

/// Options of a native run.
#[derive(Debug, Clone)]
pub struct NativeRunOpts {
    pub env_map: Vec<String>,
    /// Seconds after which the process is stopped.
    pub timeout: Option<u32>,
    pub args: Vec<String>,
}

/// How a project's dependencies are installed before it runs.
#[derive(Debug, Clone, Copy, PartialEq, Eq, Structural)]
pub enum Installer {
    /// Make `.envyr/venv` and install `requirements.txt` into it.
    PythonVenv,
    /// Run `npm install` when there is a `package.json` and no `node_modules`.
    Npm,
    /// Nothing to install.
    Nothing,
}

/// The installer of a project type.
pub fn install_deps(ptype: PType) -> (r: Installer)
    ensures
        r == (match ptype {
            PType::Python => Installer::PythonVenv,
            PType::Node => Installer::Npm,
            _ => Installer::Nothing,
        }),
{
    match ptype {
        PType::Python => Installer::PythonVenv,
        PType::Node => Installer::Npm,
        PType::Shell | PType::Other => Installer::Nothing,
    }
}

/// The Python of a project's venv.
pub open spec fn venv_python(root: Seq<char>) -> Seq<char> {
    path_join(
        path_join(path_join(path_join(root, ".envyr"@), "venv"@), "bin"@),
        "python"@,
    )
}

/// The interpreter of a native run: the venv's Python for a Python project,
/// the manifest's interpreter otherwise.
pub fn resolve_interpreter(project_root: &str, pack: &Pack) -> (r: String)
    ensures
        pack.ptype == PType::Python ==> r@ == venv_python(project_root@),
        pack.ptype != PType::Python ==> r@ == pack.interpreter@,
{
    match pack.ptype {
        PType::Python => {
            let a = join_path(project_root, ".envyr");
            let b = join_path(a.as_str(), "venv");
            let c = join_path(b.as_str(), "bin");
            join_path(c.as_str(), "python")
        },
        _ => pack.interpreter.clone(),
    }
}

/// An environment mapping as a pair: `key=value` split at its first `=`, a
/// bare name with its value from the environment.
pub open spec fn env_pair(entry: Seq<char>, env: Seq<(String, String)>) -> (Seq<char>, Seq<char>) {
    let i = first_index(entry, '=');
    if i >= 0 {
        (entry.subrange(0, i), entry.subrange(i + 1, entry.len() as int))
    } else {
        (entry, env_value(env, entry))
    }
}

/// The variables that environment mappings add, bare names taking their
/// values from `env`.
pub fn resolve_env_map(env_map: &Vec<String>, env: &Vec<(String, String)>) -> (r: Vec<(String, String)>)
    ensures
        r@.len() == env_map@.len(),
        forall|k: int|
            0 <= k < r@.len() ==> ((#[trigger] r@[k]).0@, r@[k].1@) == env_pair(
                env_map@[k]@,
                env@,
            ),
{
    let mut r: Vec<(String, String)> = Vec::new();
    let mut i: usize = 0;
    while i < env_map.len()
        invariant
            i <= env_map@.len(),
            r@.len() == i,
            forall|k: int|
                0 <= k < i ==> ((#[trigger] r@[k]).0@, r@[k].1@) == env_pair(
                    env_map@[k]@,
                    env@,
                ),
        decreases env_map@.len() - i,
    {
        let x = env_map[i].as_str();
        let cs = chars_of(x);
        let n = cs.len();
        let pair = match find_first(&cs, '=') {
            Some(j) => {
                assert(j < n);
                (slice_of(x, 0, j), slice_of(x, j + 1, n))
            },
            None => (x.to_owned(), crate::docker::lookup_env(env, x)),
        };
        r.push(pair);
        i = i + 1;
    }
    r
}

/// `p` lies in or below `base`, compared by whole path segments.
pub open spec fn path_within(p: Seq<char>, base: Seq<char>) -> bool {
    p == base || (seq_starts_with(p, base) && base.len() > 0 && (base.last() == '/'
        || p[base.len() as int] == '/'))
}

/// Whether a project directory lies in the cache below `envyr_root`, that
/// is, came from a remote source.
pub fn is_remote_source(project_root: &str, envyr_root: &str) -> (r: bool)
    ensures
        r == path_within(project_root@, envyr_root@),
{
    let p = chars_of(project_root);
    let b = chars_of(envyr_root);
    if crate::text::same_text(project_root, envyr_root) {
        return true;
    }
    if b.len() == 0 || !crate::text::matches_at(&p, &b, 0) {
        return false;
    }
    assert(b@.len() < p@.len()) by {
        if b@.len() == p@.len() {
            assert(p@.subrange(0, b@.len() as int) =~= p@);
        }
    }
    b[b.len() - 1] == '/' || p[b.len()] == '/'
}

/// The words of `s`: its maximal runs of characters that are not white
/// space, in order.
pub open spec fn words(s: Seq<char>) -> Seq<Seq<char>>
    decreases s.len(),
{
    if s.len() == 0 {
        seq![]
    } else {
        let p = s.drop_last();
        let w = words(p);
        if is_white_space(s.last()) {
            w
        } else if p.len() == 0 || is_white_space(p.last()) {
            w.push(seq![s.last()])
        } else {
            w.update(w.len() - 1, w.last().push(s.last()))
        }
    }
}

proof fn lemma_words_nonempty(s: Seq<char>)
    requires
        s.len() > 0,
        !is_white_space(s.last()),
    ensures
        words(s).len() > 0,
    decreases s.len(),
{
    let p = s.drop_last();
    if p.len() > 0 && !is_white_space(p.last()) {
        lemma_words_nonempty(p);
    }
}

/// The words of `s`, split at white space.
pub fn split_words(s: &str) -> (r: Vec<String>)
    ensures
        r@.map_values(|w: String| w@) == words(s@),
{
    let cs = chars_of(s);
    let mut r: Vec<String> = Vec::new();
    let mut start: usize = 0;
    let mut i: usize = 0;
    while i < cs.len()
        invariant
            cs@ == s@,
            start <= i <= cs@.len(),
            forall|k: int| start <= k < i ==> !is_white_space(#[trigger] cs@[k]),
            start < i ==> (start == 0 || is_white_space(cs@[start - 1])),
            start == i ==> (i == 0 || is_white_space(cs@[i - 1])),
            start < i ==> r@.map_values(|w: String| w@).push(cs@.subrange(start as int, i as int))
                == words(cs@.subrange(0, i as int)),
            start == i ==> r@.map_values(|w: String| w@) == words(cs@.subrange(0, i as int)),
        decreases cs@.len() - i,
    {
        let ghost pre = cs@.subrange(0, i as int);
        let ghost cur = cs@.subrange(0, i + 1);
        assert(cur.drop_last() =~= pre);
        assert(cur.last() == cs@[i as int]);
        let ghost old_r = r@.map_values(|w: String| w@);
        if crate::text::white_space(cs[i]) {
            if start < i {
                r.push(slice_of(s, start, i));
                assert(r@.map_values(|w: String| w@) =~= old_r.push(
                    cs@.subrange(start as int, i as int),
                ));
            }
            start = i + 1;
        } else {
            proof {
                if start < i {
                    let w = words(pre);
                    assert(w == old_r.push(cs@.subrange(start as int, i as int)));
                    assert(cs@.subrange(start as int, i + 1) =~= cs@.subrange(
                        start as int,
                        i as int,
                    ).push(cs@[i as int]));
                    assert(w.update(w.len() - 1, w.last().push(cs@[i as int])) =~= old_r.push(
                        cs@.subrange(start as int, i + 1),
                    ));
                } else {
                    assert(cs@.subrange(start as int, i + 1) =~= seq![cs@[i as int]]);
                }
            }
        }
        i = i + 1;
    }
    if start < i {
        let ghost old_r = r@.map_values(|w: String| w@);
        r.push(slice_of(s, start, i));
        assert(r@.map_values(|w: String| w@) =~= old_r.push(cs@.subrange(start as int, i as int)));
    }
    assert(cs@.subrange(0, i as int) =~= s@);
    r
}

/// The command of a native run: the interpreter's words, the entrypoint,
/// then the arguments.
pub fn command_line(interpreter: &str, entrypoint: &str, args: &Vec<String>) -> (r: Vec<String>)
    ensures
        r@.map_values(|w: String| w@) == words(interpreter@) + seq![entrypoint@]
            + args@.map_values(|w: String| w@),
{
    let mut r = split_words(interpreter);
    let ghost head = r@.map_values(|w: String| w@);
    r.push(entrypoint.to_owned());
    assert(r@.map_values(|w: String| w@) =~= head + seq![entrypoint@]);
    let mut i: usize = 0;
    while i < args.len()
        invariant
            i <= args@.len(),
            r@.map_values(|w: String| w@) == head + seq![entrypoint@] + args@.subrange(
                0,
                i as int,
            ).map_values(|w: String| w@),
        decreases args@.len() - i,
    {
        let ghost before = r@.map_values(|w: String| w@);
        r.push(args[i].clone());
        assert(args@.subrange(0, i + 1).map_values(|w: String| w@) =~= args@.subrange(
            0,
            i as int,
        ).map_values(|w: String| w@).push(args@[i as int]@));
        assert(r@.map_values(|w: String| w@) =~= before.push(args@[i as int]@));
        i = i + 1;
    }
    assert(args@.subrange(0, i as int) =~= args@);
    r
}

} // verus!
