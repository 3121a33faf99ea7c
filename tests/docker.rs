use envyr::docker::{
    docker_run_command, dockerfile_data, get_docker_executor, get_env_map_str, get_fs_map_str,
    get_image_name, get_port_map_str, image_name, trim_start_matches,
};
use envyr::error::EnvyrError;
use envyr::package::{PType, Pack};

fn env(pairs: &[(&str, &str)]) -> Vec<(String, String)> {
    pairs.iter().map(|(k, v)| (k.to_string(), v.to_string())).collect()
}

#[test]
fn docker_test_docker_volumes_map() {
    let input = vec!["/root:/root".to_string()];
    assert_eq!(get_fs_map_str(input), "-v /root:/root");
    let input = vec!["/root:/root".to_string(), ".app:/app".to_string()];
    assert_eq!(get_fs_map_str(input), "-v /root:/root -v .app:/app");
}

#[test]
fn test_get_fs_map_str_empty() {
    let input = vec![];
    assert_eq!(get_fs_map_str(input), "");
}

#[test]
fn test_get_fs_map_str_single() {
    let input = vec!["/host:/container".to_string()];
    assert_eq!(get_fs_map_str(input), "-v /host:/container");
}

#[test]
fn test_get_port_map_str_empty() {
    let input = vec![];
    assert_eq!(get_port_map_str(input), "");
}

#[test]
fn test_get_port_map_str_single() {
    let input = vec!["8080:80".to_string()];
    assert_eq!(get_port_map_str(input), "-p 8080:80");
}

#[test]
fn test_get_port_map_str_multiple() {
    let input = vec!["8080:80".to_string(), "3000:3000".to_string()];
    assert_eq!(get_port_map_str(input), "-p 8080:80 -p 3000:3000");
}

#[test]
fn test_get_env_map_str_empty() {
    let input = vec![];
    assert_eq!(get_env_map_str(input, &env(&[])), "");
}

#[test]
fn test_get_env_map_str_key_value() {
    let input = vec!["KEY=value".to_string()];
    assert_eq!(get_env_map_str(input, &env(&[])), "-e KEY=value");
}

#[test]
fn test_get_env_map_str_multiple() {
    let input = vec!["KEY1=value1".to_string(), "KEY2=value2".to_string()];
    assert_eq!(get_env_map_str(input, &env(&[])), "-e KEY1=value1 -e KEY2=value2");
}

#[test]
fn test_get_env_map_str_passthrough() {
    let input = vec!["TEST_VAR".to_string()];
    let e = env(&[("OTHER", "x"), ("TEST_VAR", "test_value")]);
    assert_eq!(get_env_map_str(input, &e), "-e TEST_VAR=test_value");
}

#[test]
fn test_get_env_map_str_missing_var() {
    let input = vec!["NONEXISTENT_VAR".to_string()];
    assert_eq!(get_env_map_str(input, &env(&[("A", "b")])), "-e NONEXISTENT_VAR=");
}

#[test]
fn test_get_image_name() {
    let result = get_image_name("/tmp/test-project", "latest").unwrap();
    assert_eq!(result, "envyr-tmp-test-project:latest");
}

#[test]
fn test_get_image_name_with_special_chars() {
    let result = get_image_name("/home/user/my.project/with-dots.and.slashes", "v1.0").unwrap();
    assert_eq!(result, "envyr-home-user-my-project-with-dots-and-slashes:v1.0");
}

#[test]
fn test_get_image_name_case_handling() {
    let result = get_image_name("/tmp/TestProject", "Latest").unwrap();
    assert_eq!(result, "envyr-tmp-testproject:latest");
}

#[test]
fn image_name_joins_parts() {
    assert_eq!(image_name("-a-b", "v2"), "envyr-a-b:v2");
}

#[test]
fn executor_prefers_docker() {
    assert_eq!(get_docker_executor(true, true).unwrap(), "docker");
    assert_eq!(get_docker_executor(false, true).unwrap(), "podman");
    assert!(matches!(get_docker_executor(false, false), Err(EnvyrError::NoContainerRuntime)));
    assert_eq!(
        get_docker_executor(false, false).unwrap_err().message(),
        "Docker or Podman not found."
    );
}

fn pack(ptype: PType, interpreter: &str, entrypoint: &str, deps: &[&str]) -> Pack {
    Pack {
        name: "test".to_string(),
        interpreter: interpreter.to_string(),
        ptype,
        deps: deps.iter().map(|d| d.to_string()).collect(),
        entrypoint: entrypoint.to_string(),
    }
}

#[test]
fn dockerfile_values_python() {
    let d = dockerfile_data(&pack(PType::Python, "/usr/bin/env python", "main.py", &["curl"]), true, false);
    assert_eq!(d.interpreter, "python");
    assert_eq!(d.entrypoint, "main.py");
    assert_eq!(d.os_deps, vec!["curl".to_string()]);
    assert!(d.type_reqs);
}

#[test]
fn dockerfile_values_node_and_shell() {
    let d = dockerfile_data(&pack(PType::Node, "/usr/bin/env node", "index.js", &[]), true, false);
    assert_eq!(d.interpreter, "node");
    assert!(!d.type_reqs);
    let d = dockerfile_data(&pack(PType::Node, "/usr/bin/env node", "index.js", &[]), false, true);
    assert!(d.type_reqs);
    let d = dockerfile_data(&pack(PType::Shell, "/bin/bash", "script.sh", &["wget"]), true, true);
    assert_eq!(d.interpreter, "/bin/bash");
    assert!(!d.type_reqs);
}

#[test]
fn repeated_prefix_is_stripped() {
    assert_eq!(trim_start_matches("/usr/bin/env /usr/bin/env python", "/usr/bin/env "), "python");
    assert_eq!(trim_start_matches("abc", ""), "abc");
}

#[test]
fn docker_run_words() {
    let cmd = docker_run_command(
        "podman",
        true,
        &Some("host".to_string()),
        vec!["8080:80".to_string()],
        vec![],
        vec!["K=v".to_string(), "HOME".to_string()],
        &env(&[("HOME", "/root")]),
        "envyr-p:latest",
        &vec!["--flag".to_string(), "x".to_string()],
    );
    let expected: Vec<String> = [
        "podman", "run", "-it", "--network=host", "-p", "8080:80", "-e", "K=v", "-e",
        "HOME=/root", "--rm", "envyr-p:latest", "--flag", "x",
    ]
    .iter()
    .map(|s| s.to_string())
    .collect();
    assert_eq!(cmd, expected);
    let cmd = docker_run_command("docker", false, &None, vec![], vec![], vec![], &vec![], "img", &vec![]);
    assert_eq!(cmd, vec!["docker".to_string(), "run".to_string(), "--rm".to_string(), "img".to_string()]);
}
