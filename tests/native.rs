use envyr::native::{
    command_line, install_deps, is_remote_source, resolve_env_map, resolve_interpreter,
    split_words, Installer,
};
use envyr::package::{PType, Pack};
use std::path::Path;

fn create_test_pack(ptype: PType, interpreter: &str, entrypoint: &str) -> Pack {
    Pack {
        name: "test-project".to_string(),
        interpreter: interpreter.to_string(),
        ptype,
        deps: vec![],
        entrypoint: entrypoint.to_string(),
    }
}

#[test]
fn test_resolve_interpreter_python() {
    let root = "/tmp/project-root";
    let pack = create_test_pack(PType::Python, "/usr/bin/env python", "main.py");
    let interpreter = resolve_interpreter(root, &pack);
    let expected = Path::new(root).join(".envyr").join("venv").join("bin").join("python");
    assert_eq!(interpreter, expected.to_string_lossy().to_string());
}

#[test]
fn test_resolve_interpreter_node() {
    let pack = create_test_pack(PType::Node, "/usr/bin/env node", "index.js");
    assert_eq!(resolve_interpreter("/tmp/p", &pack), "/usr/bin/env node");
}

#[test]
fn test_resolve_interpreter_shell() {
    let pack = create_test_pack(PType::Shell, "/bin/bash", "script.sh");
    assert_eq!(resolve_interpreter("/tmp/p", &pack), "/bin/bash");
}

#[test]
fn test_resolve_interpreter_other() {
    let pack = create_test_pack(PType::Other, "/usr/bin/custom", "app");
    assert_eq!(resolve_interpreter("/tmp/p", &pack), "/usr/bin/custom");
}

#[test]
fn test_env_map_resolution_key_value() {
    let env_map = vec!["KEY=value".to_string(), "FOO=bar".to_string()];
    let resolved = resolve_env_map(&env_map, &vec![]);
    assert_eq!(resolved.len(), 2);
    assert_eq!(resolved[0], ("KEY".to_string(), "value".to_string()));
    assert_eq!(resolved[1], ("FOO".to_string(), "bar".to_string()));
}

#[test]
fn test_env_map_resolution_passthrough() {
    let env = vec![("ENVYR_TEST_VAR".to_string(), "test_value".to_string())];
    let env_map = vec!["ENVYR_TEST_VAR".to_string()];
    let resolved = resolve_env_map(&env_map, &env);
    assert_eq!(resolved.len(), 1);
    assert_eq!(resolved[0], ("ENVYR_TEST_VAR".to_string(), "test_value".to_string()));
}

#[test]
fn test_env_map_resolution_missing_passthrough() {
    let env_map = vec!["ENVYR_NONEXISTENT_VAR".to_string()];
    let resolved = resolve_env_map(&env_map, &vec![]);
    assert_eq!(resolved.len(), 1);
    assert_eq!(resolved[0], ("ENVYR_NONEXISTENT_VAR".to_string(), String::new()));
}

#[test]
fn value_may_hold_equals_sign() {
    let resolved = resolve_env_map(&vec!["A=b=c".to_string()], &vec![]);
    assert_eq!(resolved[0], ("A".to_string(), "b=c".to_string()));
}

#[test]
fn test_is_remote_source() {
    let envyr_root = "/home/user/.envyr";
    let remote_path = "/home/user/.envyr/cache/some-repo";
    let local_path = "/home/user/projects/my-project";
    assert!(is_remote_source(remote_path, envyr_root));
    assert!(!is_remote_source(local_path, envyr_root));
    assert!(!is_remote_source("/home/user/.envyrx/a", envyr_root));
}

#[test]
fn test_install_deps_shell_noop() {
    assert_eq!(install_deps(PType::Shell), Installer::Nothing);
    assert_eq!(install_deps(PType::Other), Installer::Nothing);
    assert_eq!(install_deps(PType::Python), Installer::PythonVenv);
    assert_eq!(install_deps(PType::Node), Installer::Npm);
}

#[test]
fn command_splits_interpreter() {
    let cmd = command_line("/usr/bin/env  python\t-u", "main.py", &vec!["--x".to_string()]);
    let expected: Vec<String> =
        ["/usr/bin/env", "python", "-u", "main.py", "--x"].iter().map(|s| s.to_string()).collect();
    assert_eq!(cmd, expected);
    assert!(split_words("   ").is_empty());
}
