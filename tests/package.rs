use envyr::error::EnvyrError;
use envyr::package::{Candidate, Pack, PackBuilder, PType, ProjectScan, WalkedFile};
use envyr::utils::{PRIORITY_LIKELY, PRIORITY_TOP, PRIORITY_UNLIKELY};

fn file(path: &str, ext: Option<&str>, text: Option<&str>) -> WalkedFile {
    WalkedFile {
        path: path.to_string(),
        extension: ext.map(|e| e.to_string()),
        text: text.map(|t| t.to_string()),
    }
}

fn scan(root: &str, files: Vec<WalkedFile>) -> ProjectScan {
    ProjectScan {
        root: root.to_string(),
        has_package_json: false,
        has_requirements_txt: false,
        package_json: None,
        files,
    }
}

fn candidate(path: &str, interpreter: &str, priority: u8) -> Candidate {
    Candidate { path: path.to_string(), interpreter: interpreter.to_string(), priority }
}

#[test]
fn test_ptype_default() {
    let ptype: PType = Default::default();
    assert!(matches!(ptype, PType::Other));
}

#[test]
fn test_packbuilder_default() {
    let builder = PackBuilder::default();
    assert_eq!(builder.project_root, String::new());
    assert_eq!(builder.name, None);
    assert_eq!(builder.interpreter, None);
    assert_eq!(builder.entrypoint, None);
    assert_eq!(builder.executables, vec![]);
    assert!(matches!(builder.ptype, PType::Other));
}

#[test]
fn test_packbuilder_build_python_project() {
    let mut builder = PackBuilder::default();
    builder.project_root = "/tmp/test-project".to_string();
    builder.name = Some("test-project".to_string());
    builder.interpreter = Some("/usr/bin/env python".to_string());
    builder.entrypoint = Some("main.py".to_string());
    builder.ptype = PType::Python;
    let pack = builder.build().unwrap();
    assert_eq!(pack.name, "test-project");
    assert_eq!(pack.interpreter, "/usr/bin/env python");
    assert_eq!(pack.entrypoint, "main.py");
    assert!(matches!(pack.ptype, PType::Python));
}

#[test]
fn test_packbuilder_build_node_project() {
    let mut builder = PackBuilder::default();
    builder.project_root = "/tmp/test-node".to_string();
    builder.name = Some("test-node".to_string());
    builder.interpreter = Some("/usr/bin/env node".to_string());
    builder.entrypoint = Some("index.js".to_string());
    builder.ptype = PType::Node;
    let pack = builder.build().unwrap();
    assert_eq!(pack.name, "test-node");
    assert_eq!(pack.interpreter, "/usr/bin/env node");
    assert_eq!(pack.entrypoint, "index.js");
    assert!(matches!(pack.ptype, PType::Node));
}

#[test]
fn test_packbuilder_build_shell_project() {
    let mut builder = PackBuilder::default();
    builder.project_root = "/tmp/test-shell".to_string();
    builder.name = Some("test-shell".to_string());
    builder.interpreter = Some("/bin/bash".to_string());
    builder.entrypoint = Some("script.sh".to_string());
    builder.ptype = PType::Shell;
    let pack = builder.build().unwrap();
    assert_eq!(pack.name, "test-shell");
    assert_eq!(pack.interpreter, "/bin/bash");
    assert_eq!(pack.entrypoint, "script.sh");
    assert!(matches!(pack.ptype, PType::Shell));
}

#[test]
fn test_packbuilder_missing_name() {
    let mut builder = PackBuilder::default();
    builder.project_root = "/tmp/project".to_string();
    builder.interpreter = Some("/usr/bin/env python".to_string());
    builder.entrypoint = Some("main.py".to_string());
    builder.ptype = PType::Python;
    let result = builder.build();
    assert!(result.is_err());
    assert!(result.unwrap_err().message().contains("name"));
}

#[test]
fn test_packbuilder_missing_interpreter() {
    let mut builder = PackBuilder::default();
    builder.project_root = "/tmp/project".to_string();
    builder.name = Some("test".to_string());
    builder.entrypoint = Some("main.py".to_string());
    builder.ptype = PType::Python;
    let result = builder.build();
    assert!(result.is_ok());
    let pack = result.unwrap();
    assert_eq!(pack.interpreter, "/usr/bin/env python");
}

#[test]
fn test_packbuilder_missing_entrypoint() {
    let mut builder = PackBuilder::default();
    builder.project_root = "/tmp/project".to_string();
    builder.name = Some("test".to_string());
    builder.interpreter = Some("/usr/bin/env python".to_string());
    builder.ptype = PType::Python;
    let result = builder.build();
    assert!(result.is_err());
    assert!(result.unwrap_err().message().contains("entrypoint"));
}

#[test]
fn test_analyse_project_empty_directory() {
    let builder = Pack::builder(&scan("/tmp/empty-project", vec![])).unwrap();
    assert!(builder.name.is_some());
    assert!(matches!(builder.ptype, PType::Other));
    assert!(builder.executables.is_empty());
}

#[test]
fn single_main_guard_file_is_python_entrypoint() {
    let files = vec![file(
        "/work/app/main.py",
        Some("py"),
        Some("def main():\n    pass\n\nif __name__ == \"__main__\":\n    main()\n"),
    )];
    let b = Pack::builder(&scan("/work/app", files)).unwrap();
    assert_eq!(b.executables, vec![candidate("main.py", "/usr/bin/env python", PRIORITY_TOP)]);
    assert_eq!(b.ptype, PType::Python);
    let pack = b.build().unwrap();
    assert_eq!(pack.name, "app");
    assert_eq!(pack.entrypoint, "main.py");
    assert_eq!(pack.interpreter, "/usr/bin/env python");
    assert_eq!(pack.ptype, PType::Python);
}

#[test]
fn two_main_guard_files_are_ambiguous() {
    let guard = "if __name__ == '__main__':\n    run()\n";
    let files = vec![
        file("/work/app/a.py", Some("py"), Some(guard)),
        file("/work/app/sub/b.py", Some("py"), Some(guard)),
    ];
    let b = Pack::builder(&scan("/work/app", files)).unwrap();
    match b.build() {
        Err(EnvyrError::AmbiguousEntrypoint { candidates }) => {
            assert_eq!(candidates.len(), 2);
            assert_eq!(candidates[0].path, "a.py");
            assert_eq!(candidates[1].path, "sub/b.py");
        }
        other => panic!("unexpected {:?}", other),
    }
}

#[test]
fn ambiguous_message_names_both_files() {
    let mut b = PackBuilder::default();
    b.name = Some("x".to_string());
    b.executables = vec![
        candidate("a.py", "/usr/bin/env python", PRIORITY_TOP),
        candidate("b.py", "/usr/bin/env python", PRIORITY_TOP),
    ];
    let m = b.build().unwrap_err().message();
    assert_eq!(m, "Multiple entrypoints detected! [a.py, b.py]. Please choose one manually.");
}

#[test]
fn package_json_main_is_node_entrypoint() {
    let mut s = scan(
        "/work/web",
        vec![file("/work/web/index.js", Some("js"), Some("console.log('Hello World');"))],
    );
    s.has_package_json = true;
    s.package_json = Some("{\n    \"name\": \"test-node\",\n    \"main\": \"index.js\"\n}\n".to_string());
    let b = Pack::builder(&s).unwrap();
    assert!(b.executables.is_empty());
    assert_eq!(b.ptype, PType::Node);
    assert_eq!(b.package_main, Some("index.js".to_string()));
    let pack = b.build().unwrap();
    assert_eq!(pack.entrypoint, "index.js");
    assert_eq!(pack.interpreter, "/usr/bin/env node");
}

#[test]
fn shebang_script_keeps_declared_interpreter() {
    let files = vec![file("/work/tool/script.sh", Some("sh"), Some("  #!/bin/bash  \n"))];
    let b = Pack::builder(&scan("/work/tool", files)).unwrap();
    assert_eq!(b.ptype, PType::Shell);
    let pack = b.build().unwrap();
    assert_eq!(pack.interpreter, "/bin/bash");
    assert_eq!(pack.entrypoint, "script.sh");
}

#[test]
fn most_confident_candidate_wins() {
    let files = vec![
        file("/p/helper.py", Some("py"), Some("x = 1\n")),
        file("/p/run", None, Some("#! /usr/bin/env ruby\n")),
        file("/p/unreadable.py", Some("py"), None),
        file("/p/notes.txt", Some("txt"), Some("hello")),
    ];
    let b = Pack::builder(&scan("/p", files)).unwrap();
    assert_eq!(
        b.executables,
        vec![
            candidate("helper.py", "/usr/bin/env python", PRIORITY_UNLIKELY),
            candidate("run", "/usr/bin/env ruby", PRIORITY_LIKELY),
            candidate("unreadable.py", "/usr/bin/env python", 3),
        ]
    );
    let pack = b.build().unwrap();
    assert_eq!(pack.entrypoint, "run");
    assert_eq!(pack.interpreter, "/usr/bin/env ruby");
}

#[test]
fn markers_take_precedence_over_extensions() {
    let mut s = scan("/p", vec![file("/p/a.sh", Some("sh"), Some("echo"))]);
    s.has_requirements_txt = true;
    assert_eq!(Pack::builder(&s).unwrap().ptype, PType::Python);
    let s = scan(
        "/p",
        vec![file("/p/a.txt", Some("txt"), None), file("/p/b.ts", Some("ts"), None)],
    );
    assert_eq!(Pack::builder(&s).unwrap().ptype, PType::Node);
}

#[test]
fn file_outside_root_is_an_error() {
    let s = scan("/p", vec![file("relative/x.py", Some("py"), Some(""))]);
    assert!(matches!(Pack::builder(&s), Err(EnvyrError::OutsideRoot { .. })));
}

#[test]
fn no_interpreter_for_other_type() {
    let mut b = PackBuilder::default();
    b.name = Some("x".to_string());
    b.entrypoint = Some("app".to_string());
    assert!(matches!(b.build(), Err(EnvyrError::MissingInterpreter)));
}

#[test]
fn given_interpreter_wins_over_candidate() {
    let mut b = PackBuilder::default();
    b.name = Some("x".to_string());
    b.interpreter = Some("/opt/python3".to_string());
    b.executables = vec![candidate("main.py", "/usr/bin/env python", PRIORITY_TOP)];
    let pack = b.build().unwrap();
    assert_eq!(pack.interpreter, "/opt/python3");
    assert_eq!(pack.entrypoint, "main.py");
}

#[test]
fn shell_default_interpreter() {
    let mut b = PackBuilder::default();
    b.name = Some("x".to_string());
    b.entrypoint = Some("run.sh".to_string());
    b.ptype = PType::Shell;
    assert_eq!(b.build().unwrap().interpreter, "/bin/sh");
}

#[test]
fn os_deps_only_for_bash() {
    let pack = Pack {
        name: "n".to_string(),
        interpreter: "/bin/bash".to_string(),
        ptype: PType::Shell,
        deps: vec![],
        entrypoint: "s.sh".to_string(),
    };
    assert!(pack.wants_os_deps());
    let with = pack.clone().with_os_deps(Some(vec!["curl".to_string()]));
    assert_eq!(with.deps, vec!["curl".to_string()]);
    assert!(pack.clone().with_os_deps(None).deps.is_empty());
    let mut py = pack;
    py.interpreter = "/usr/bin/env python".to_string();
    assert!(!py.wants_os_deps());
    assert!(py.with_os_deps(Some(vec!["curl".to_string()])).deps.is_empty());
}

#[test]
fn project_name_is_base_name() {
    assert_eq!(envyr::package::detect_name("/home/me/proj"), Some("proj".to_string()));
    assert_eq!(envyr::package::detect_name("/"), None);
    assert_eq!(envyr::package::detect_name("/a/.."), None);
}

#[test]
fn test_detect_main_node_no_package_json() {
    let mut s = scan("/work/web", vec![]);
    s.package_json = Some(r#"{"main": "index.js"}"#.to_string());
    let b = Pack::builder(&s).unwrap();
    assert_eq!(b.package_main, None);
    assert!(matches!(b.build(), Err(EnvyrError::MissingEntrypoint)));
}

#[test]
fn project_name_ignores_trailing_slash() {
    assert_eq!(envyr::package::detect_name("proj/"), Some("proj".to_string()));
    assert_eq!(envyr::package::detect_name("/a/b//"), Some("b".to_string()));
}
