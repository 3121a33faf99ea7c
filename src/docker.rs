//! What the container executor decides: the runtime to use, the image name,
//! the `-p`/`-v`/`-e` arguments, and the values a Dockerfile is made from.

use vstd::prelude::*;
use crate::error::EnvyrError;
use crate::package::{Pack, PType};
use crate::text::{chars_of, find_first, first_index, owned, seq_starts_with};

verus! {

/// The texts of a list of strings.
pub open spec fn texts(v: Seq<String>) -> Seq<Seq<char>> {
    v.map_values(|s: String| s@)
}

/// `flag a flag b ...`: each item after the flag, all separated by spaces;
/// empty for no items.
pub open spec fn flag_list(flag: Seq<char>, items: Seq<Seq<char>>) -> Seq<char>
    decreases items.len(),
{
    if items.len() == 0 {
        seq![]
    } else if items.len() == 1 {
        flag + " "@ + items[0]
    } else {
        flag_list(flag, items.drop_last()) + " "@ + flag + " "@ + items.last()
    }
}

/// The value of `name` in an environment: that of its first entry, else
/// empty.
pub open spec fn env_value(env: Seq<(String, String)>, name: Seq<char>) -> Seq<char>
    decreases env.len(),
{
    if env.len() == 0 {
        seq![]
    } else if env[0].0@ == name {
        env[0].1@
    } else {
        env_value(env.drop_first(), name)
    }
}

/// An environment mapping as passed on: `key=value` as it stands, a bare
/// name with its value from the environment.
pub open spec fn env_assignment(entry: Seq<char>, env: Seq<(String, String)>) -> Seq<char> {
    if first_index(entry, '=') >= 0 {
        entry
    } else {
        entry + "="@ + env_value(env, entry)
    }
}

/// `s` with every `/` and `.` turned into `-`.
pub open spec fn dashed(s: Seq<char>) -> Seq<char> {
    s.map_values(|c: char| if c == '/' || c == '.' { '-' } else { c })
}

/// What str::to_lowercase gives for a text.
pub uninterp spec fn lower_of(s: Seq<char>) -> Seq<char>;

/// `envyr<root>:<tag>` from a root and tag already lowercased.
pub open spec fn image_name_of(root: Seq<char>, tag: Seq<char>) -> Seq<char> {
    "envyr"@ + root + ":"@ + tag
}

/// `s` without every leading repetition of `p`.
pub open spec fn strip_all_prefixes(s: Seq<char>, p: Seq<char>) -> Seq<char>
    decreases s.len(),
{
    if p.len() > 0 && seq_starts_with(s, p) {
        strip_all_prefixes(s.skip(p.len() as int), p)
    } else {
        s
    }
}

/// Whether a project type installs dependencies from a manifest file that
/// is present: `requirements.txt` for Python, `package.json` for Node.
pub open spec fn type_requirements(p: PType, has_requirements_txt: bool, has_package_json: bool) -> bool {
    match p {
        PType::Python => has_requirements_txt,
        PType::Node => has_package_json,
        _ => false,
    }
}

/// `flag a flag b ...` for the given items; empty for none.
pub fn flag_list_str(flag: &str, items: &Vec<String>) -> (r: String)
    ensures
        r@ == flag_list(flag@, texts(items@)),
{
    let mut r = String::new();
    let mut i: usize = 0;
    while i < items.len()
        invariant
            i <= items@.len(),
            r@ == flag_list(flag@, texts(items@.subrange(0, i as int))),
        decreases items@.len() - i,
    {
        let ghost pre = texts(items@.subrange(0, i as int));
        let ghost cur = texts(items@.subrange(0, i + 1));
        assert(cur.drop_last() =~= pre);
        assert(cur.last() == items@[i as int]@);
        if i > 0 {
            r.append(" ");
        }
        r.append(flag);
        r.append(" ");
        r.append(items[i].as_str());
        proof {
            if i == 0 {
                assert(r@ =~= flag@ + " "@ + cur[0]);
            } else {
                assert(r@ =~= flag_list(flag@, pre) + " "@ + flag@ + " "@ + cur.last());
            }
        }
        i = i + 1;
    }
    assert(items@.subrange(0, i as int) =~= items@);
    r
}

/// The `-p` arguments of port mappings.
pub fn get_port_map_str(port_map: Vec<String>) -> (r: String)
    ensures
        r@ == flag_list("-p"@, texts(port_map@)),
{
    flag_list_str("-p", &port_map)
}

/// The `-v` arguments of volume mappings.
pub fn get_fs_map_str(fs_map: Vec<String>) -> (r: String)
    ensures
        r@ == flag_list("-v"@, texts(fs_map@)),
{
    flag_list_str("-v", &fs_map)
}

/// The value of `name` in an environment, empty when it is not set.
pub fn lookup_env(env: &Vec<(String, String)>, name: &str) -> (r: String)
    ensures
        r@ == env_value(env@, name@),
{
    let mut i: usize = 0;
    assert(env@.subrange(0, env@.len() as int) =~= env@);
    while i < env.len()
        invariant
            i <= env@.len(),
            env_value(env@.subrange(i as int, env@.len() as int), name@) == env_value(
                env@,
                name@,
            ),
        decreases env@.len() - i,
    {
        let ghost rest = env@.subrange(i as int, env@.len() as int);
        assert(rest.drop_first() =~= env@.subrange(i + 1, env@.len() as int));
        assert(rest[0] == env@[i as int]);
        if crate::text::same_text(env[i].0.as_str(), name) {
            return env[i].1.clone();
        }
        i = i + 1;
    }
    String::new()
}

/// An environment mapping as passed on: `key=value` as it stands, a bare
/// name with its value from `env`.
pub fn env_assignment_str(entry: &str, env: &Vec<(String, String)>) -> (r: String)
    ensures
        r@ == env_assignment(entry@, env@),
{
    match find_first(&chars_of(entry), '=') {
        Some(_) => owned(entry),
        None => {
            let mut r = owned(entry);
            r.append("=");
            let v = lookup_env(env, entry);
            r.append(v.as_str());
            r
        },
    }
}

/// The `-e` arguments of environment mappings, bare names taking their
/// values from `env`.
pub fn get_env_map_str(env_map: Vec<String>, env: &Vec<(String, String)>) -> (r: String)
    ensures
        r@ == flag_list(
            "-e"@,
            Seq::new(env_map@.len(), |i: int| env_assignment(env_map@[i]@, env@)),
        ),
{
    let mut args: Vec<String> = Vec::new();
    let mut i: usize = 0;
    while i < env_map.len()
        invariant
            i <= env_map@.len(),
            args@.len() == i,
            forall|k: int| 0 <= k < i ==> (#[trigger] args@[k])@ == env_assignment(
                env_map@[k]@,
                env@,
            ),
        decreases env_map@.len() - i,
    {
        args.push(env_assignment_str(env_map[i].as_str(), env));
        i = i + 1;
    }
    assert(texts(args@) =~= Seq::new(
        env_map@.len(),
        |i: int| env_assignment(env_map@[i]@, env@),
    ));
    flag_list_str("-e", &args)
}

/// Relies on str::to_lowercase: the lowercase form of a text, which depends
/// on its characters alone.
#[verifier::external_body]
fn lowercase(s: &str) -> (r: String)
    ensures
        r@ == lower_of(s@),
        s@.len() == 0 ==> r@.len() == 0,
{
    s.to_lowercase()
}

/// `s` with every `/` and `.` turned into `-`.
pub fn dash_separators(s: &str) -> (r: String)
    ensures
        r@ == dashed(s@),
{
    let cs = chars_of(s);
    let mut r = String::new();
    let mut i: usize = 0;
    while i < cs.len()
        invariant
            i <= cs@.len(),
            cs@ == s@,
            r@ == dashed(s@.subrange(0, i as int)),
        decreases cs@.len() - i,
    {
        let c = cs[i];
        let ghost d = if c == '/' || c == '.' {
            '-'
        } else {
            c
        };
        if c == '/' || c == '.' {
            proof {
                reveal_strlit("-");
            }
            r.append("-");
        } else {
            let one = s.substring_char(i, i + 1);
            assert(one@ =~= seq![c]);
            r.append(one);
        }
        assert(dashed(s@.subrange(0, i + 1)) =~= dashed(s@.subrange(0, i as int)).push(d));
        i = i + 1;
    }
    assert(s@.subrange(0, i as int) =~= s@);
    r
}

/// `envyr<root>:<tag>`, from a root and tag already lowercased.
pub fn image_name(lowered_root: &str, lowered_tag: &str) -> (r: String)
    ensures
        r@ == image_name_of(lowered_root@, lowered_tag@),
{
    let mut r = owned("envyr");
    r.append(lowered_root);
    r.append(":");
    r.append(lowered_tag);
    r
}

/// The image of a project: `envyr` followed by the root with `/` and `.`
/// dashed, then `:` and the tag, both lowercased.
pub fn get_image_name(project_root: &str, tag: &str) -> (r: Result<String, EnvyrError>)
    ensures
        r matches Ok(n) && n@ == image_name_of(lower_of(dashed(project_root@)), lower_of(tag@)),
{
    let root = lowercase(dash_separators(project_root).as_str());
    let tag = lowercase(tag);
    Ok(image_name(root.as_str(), tag.as_str()))
}

/// The container runtime to use: docker when it answers, else podman when
/// it answers.
pub fn get_docker_executor(docker_ok: bool, podman_ok: bool) -> (r: Result<String, EnvyrError>)
    ensures
        docker_ok ==> (r matches Ok(e) && e@ == "docker"@),
        !docker_ok && podman_ok ==> (r matches Ok(e) && e@ == "podman"@),
        !docker_ok && !podman_ok ==> (r matches Err(e) && e is NoContainerRuntime),
{
    if docker_ok {
        Ok(owned("docker"))
    } else if podman_ok {
        Ok(owned("podman"))
    } else {
        Err(EnvyrError::NoContainerRuntime)
    }
}

/// The values that a Dockerfile is made from.
#[derive(Debug, Clone)]
pub struct DockerfileData {
    /// The interpreter without leading `/usr/bin/env `.
    pub interpreter: String,
    pub entrypoint: String,
    pub os_deps: Vec<String>,
    pub ptype: PType,
    /// Whether to install from `requirements.txt` or `package.json`.
    pub type_reqs: bool,
}

/// `s` without every leading repetition of `p`.
pub fn trim_start_matches(s: &str, p: &str) -> (r: String)
    ensures
        r@ == strip_all_prefixes(s@, p@),
{
    let pc = chars_of(p);
    let mut cur = owned(s);
    if pc.len() == 0 {
        return cur;
    }
    loop
        invariant
            pc@ == p@,
            pc@.len() > 0,
            strip_all_prefixes(cur@, p@) == strip_all_prefixes(s@, p@),
        ensures
            cur@ == strip_all_prefixes(s@, p@),
        decreases cur@.len(),
    {
        if crate::text::starts_with(cur.as_str(), p) {
            let n = chars_of(cur.as_str()).len();
            let next = crate::text::slice_of(cur.as_str(), pc.len(), n);
            assert(next@ == cur@.skip(p@.len() as int));
            cur = next;
        } else {
            break;
        }
    }
    cur
}

/// The values of a project's Dockerfile.
pub fn dockerfile_data(pack: &Pack, has_requirements_txt: bool, has_package_json: bool) -> (r:
    DockerfileData)
    ensures
        r.interpreter@ == strip_all_prefixes(pack.interpreter@, "/usr/bin/env "@),
        r.entrypoint@ == pack.entrypoint@,
        r.os_deps@ == pack.deps@,
        r.ptype == pack.ptype,
        r.type_reqs == type_requirements(pack.ptype, has_requirements_txt, has_package_json),
{
    let type_reqs = match pack.ptype {
        PType::Python => has_requirements_txt,
        PType::Node => has_package_json,
        _ => false,
    };
    let mut os_deps: Vec<String> = Vec::new();
    let mut i: usize = 0;
    while i < pack.deps.len()
        invariant
            i <= pack.deps@.len(),
            os_deps@ == pack.deps@.subrange(0, i as int),
        decreases pack.deps@.len() - i,
    {
        os_deps.push(pack.deps[i].clone());
        assert(os_deps@ =~= pack.deps@.subrange(0, i + 1));
        i = i + 1;
    }
    assert(pack.deps@.subrange(0, i as int) =~= pack.deps@);
    DockerfileData {
        interpreter: trim_start_matches(pack.interpreter.as_str(), "/usr/bin/env "),
        entrypoint: pack.entrypoint.clone(),
        os_deps,
        ptype: pack.ptype,
        type_reqs,
    }
}

/// The items separated by `sep`.
pub open spec fn joined(items: Seq<Seq<char>>, sep: Seq<char>) -> Seq<char>
    decreases items.len(),
{
    if items.len() == 0 {
        seq![]
    } else if items.len() == 1 {
        items[0]
    } else {
        joined(items.drop_last(), sep) + sep + items.last()
    }
}

/// The items separated by `sep`.
pub fn join_str(items: &Vec<String>, sep: &str) -> (r: String)
    ensures
        r@ == joined(texts(items@), sep@),
{
    let mut r = String::new();
    let mut i: usize = 0;
    while i < items.len()
        invariant
            i <= items@.len(),
            r@ == joined(texts(items@.subrange(0, i as int)), sep@),
        decreases items@.len() - i,
    {
        let ghost pre = texts(items@.subrange(0, i as int));
        let ghost cur = texts(items@.subrange(0, i + 1));
        assert(cur.drop_last() =~= pre);
        assert(cur.last() == items@[i as int]@);
        if i > 0 {
            r.append(sep);
        }
        r.append(items[i].as_str());
        proof {
            if i == 0 {
                assert(r@ =~= cur[0]);
            } else {
                assert(r@ =~= joined(pre, sep@) + sep@ + cur.last());
            }
        }
        i = i + 1;
    }
    assert(items@.subrange(0, i as int) =~= items@);
    r
}

/// The text of a `docker run` command before it is split into words:
/// runtime, `run`, `-it` when interactive, `--network=` when a network is
/// given, the port, volume and environment arguments, `--rm`, the image and
/// the program's arguments.
pub open spec fn docker_run_text(
    executor: Seq<char>,
    interactive: bool,
    network: Option<Seq<char>>,
    ports: Seq<char>,
    volumes: Seq<char>,
    envs: Seq<char>,
    image: Seq<char>,
    args: Seq<Seq<char>>,
) -> Seq<char> {
    executor + " run "@ + (if interactive {
        "-it"@
    } else {
        seq![]
    }) + " "@ + (match network {
        Some(n) => "--network="@ + n,
        None => seq![],
    }) + " "@ + ports + " "@ + volumes + " "@ + envs + " --rm "@ + image + " "@ + joined(
        args,
        " "@,
    )
}

/// The words of the `docker run` command of a project.
pub fn docker_run_command(
    executor: &str,
    interactive: bool,
    network: &Option<String>,
    port_map: Vec<String>,
    fs_map: Vec<String>,
    env_map: Vec<String>,
    env: &Vec<(String, String)>,
    image: &str,
    args: &Vec<String>,
) -> (r: Vec<String>)
    ensures
        r@.map_values(|w: String| w@) == crate::native::words(
            docker_run_text(
                executor@,
                interactive,
                crate::package::opt_view(*network),
                flag_list("-p"@, texts(port_map@)),
                flag_list("-v"@, texts(fs_map@)),
                flag_list(
                    "-e"@,
                    Seq::new(env_map@.len(), |i: int| env_assignment(env_map@[i]@, env@)),
                ),
                image@,
                texts(args@),
            ),
        ),
{
    let mut line = owned(executor);
    line.append(" run ");
    if interactive {
        line.append("-it");
    }
    line.append(" ");
    match network {
        Some(n) => {
            line.append("--network=");
            line.append(n.as_str());
        },
        None => {},
    }
    line.append(" ");
    let ports = get_port_map_str(port_map);
    line.append(ports.as_str());
    line.append(" ");
    let volumes = get_fs_map_str(fs_map);
    line.append(volumes.as_str());
    line.append(" ");
    let envs = get_env_map_str(env_map, env);
    line.append(envs.as_str());
    line.append(" --rm ");
    line.append(image);
    line.append(" ");
    let rest = join_str(args, " ");
    line.append(rest.as_str());
    assert(line@ =~= docker_run_text(
        executor@,
        interactive,
        crate::package::opt_view(*network),
        ports@,
        volumes@,
        envs@,
        image@,
        texts(args@),
    ));
    crate::native::split_words(line.as_str())
}

} // verus!
