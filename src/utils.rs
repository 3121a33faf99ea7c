//! What a single file or name says about a project: entry guards, shebang
//! lines, extensions, pruned names, and the `main` field of `package.json`.

use vstd::prelude::*;
use crate::error::EnvyrError;
use crate::package::PType;
use crate::text::{
    chars_of, contains_chars, same_text, seq_contains, seq_starts_with, starts_with, trimmed,
};

verus! {

/// A Python file with a `__main__` guard.
pub const PRIORITY_TOP: u8 = 0;

/// A file that declares its interpreter in a shebang line.
pub const PRIORITY_LIKELY: u8 = 1;

/// A Python file without a `__main__` guard.
pub const PRIORITY_UNLIKELY: u8 = 2;

/// A Python file that could not be read.
pub const PRIORITY_LAST: u8 = 3;

/// The source holds a `__main__` guard, with double or single quotes.
pub open spec fn has_main_guard(code: Seq<char>) -> bool {
    seq_contains(code, "if __name__ == \"__main__\":"@) || seq_contains(
        code,
        "if __name__ == '__main__':"@,
    )
}

/// The priority of a Python file with this source.
pub open spec fn python_priority(code: Seq<char>) -> u8 {
    if has_main_guard(code) {
        PRIORITY_TOP
    } else {
        PRIORITY_UNLIKELY
    }
}

/// The interpreter that a first line declares, if it is a shebang line.
pub open spec fn shebang_of_line(line: Seq<char>) -> Option<Seq<char>> {
    let t = trimmed(line);
    if seq_starts_with(t, "#!"@) {
        Some(t.skip("#!"@.len() as int))
    } else {
        None
    }
}

/// The project type that a file extension suggests.
pub open spec fn ptype_of_extension(ext: Seq<char>) -> Option<PType> {
    if ext == "py"@ {
        Some(PType::Python)
    } else if ext == "sh"@ {
        Some(PType::Shell)
    } else if ext == "js"@ || ext == "ts"@ {
        Some(PType::Node)
    } else {
        None
    }
}

/// A walk does not enter entries with such a name: hidden ones, and
/// dependency or cache directories.
pub open spec fn is_pruned_name(name: Seq<char>) -> bool {
    seq_starts_with(name, "."@) || seq_starts_with(name, "node_modules"@) || seq_starts_with(
        name,
        "__pycache__"@,
    )
}

/// Whether the source holds a `__main__` guard.
pub fn check_python_main(code: &str) -> (r: Result<bool, EnvyrError>)
    ensures
        r matches Ok(b) && b == has_main_guard(code@),
{
    let cs = chars_of(code);
    let double = chars_of("if __name__ == \"__main__\":");
    let single = chars_of("if __name__ == '__main__':");
    Ok(contains_chars(&cs, &double) || contains_chars(&cs, &single))
}

/// The priority of a Python file with this source: top with a `__main__`
/// guard, unlikely without.
pub fn python_exec_priority(code: &str) -> (r: u8)
    ensures
        r == python_priority(code@),
{
    let guarded = match check_python_main(code) {
        Ok(b) => b,
        Err(_) => false,
    };
    if guarded {
        PRIORITY_TOP
    } else {
        PRIORITY_UNLIKELY
    }
}

/// The interpreter that a first line declares after `#!`, trimmed.
pub fn shebang_interpreter(line: &str) -> (r: Option<String>)
    ensures
        r matches Some(i) ==> shebang_of_line(line@) == Some(i@),
        r is None ==> shebang_of_line(line@) is None,
{
    let t = crate::text::trim(line);
    if starts_with(t.as_str(), "#!") {
        let n = chars_of(t.as_str()).len();
        let k = chars_of("#!").len();
        Some(crate::text::slice_of(t.as_str(), k, n))
    } else {
        None
    }
}

/// The project type that a file extension suggests: `py` Python, `sh` Shell,
/// `js` and `ts` Node.
pub fn map_extension_to_ptype(ext: &str) -> (r: Option<PType>)
    ensures
        r == ptype_of_extension(ext@),
{
    if same_text(ext, "py") {
        Some(PType::Python)
    } else if same_text(ext, "sh") {
        Some(PType::Shell)
    } else if same_text(ext, "js") || same_text(ext, "ts") {
        Some(PType::Node)
    } else {
        None
    }
}

/// Whether a walk skips an entry with this name.
pub fn is_pruned(name: &str) -> (r: bool)
    ensures
        r == is_pruned_name(name@),
{
    starts_with(name, ".") || starts_with(name, "node_modules") || starts_with(name, "__pycache__")
}

/// Whether serde_json accepts the text as a JSON document.
pub uninterp spec fn json_parses(text: Seq<char>) -> bool;

/// What serde_json finds in a JSON text under `key`: the member's text when
/// the text parses as a JSON object whose member `key` is a string.
pub uninterp spec fn json_str_member(text: Seq<char>, key: Seq<char>) -> Option<Seq<char>>;

/// Relies on serde_json::from_str into a `Value`, then `Value::get` and
/// `Value::as_str`: the string member `key` of the document, which depends on
/// the two texts alone; there is one only when the text parses.
#[verifier::external_body]
fn json_string_member(text: &str, key: &str) -> (r: Option<String>)
    ensures
        crate::package::opt_view(r) == json_str_member(text@, key@),
        r is Some ==> json_parses(text@),
{
    serde_json::from_str::<serde_json::Value>(text).ok().and_then(
        |v| v.get(key).and_then(|m| m.as_str().map(str::to_owned)),
    )
}

/// The `main` field of a `package.json` document, when the document parses
/// and the field is a string.
pub fn detect_main_node(package_json: &str) -> (r: Option<String>)
    ensures
        crate::package::opt_view(r) == json_str_member(package_json@, "main"@),
        r is Some ==> json_parses(package_json@),
{
    json_string_member(package_json, "main")
}

} // verus!
