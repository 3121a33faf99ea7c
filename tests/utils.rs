use envyr::package::PType;
use envyr::utils::{
    check_python_main, detect_main_node, is_pruned, map_extension_to_ptype, python_exec_priority,
    shebang_interpreter, PRIORITY_TOP, PRIORITY_UNLIKELY,
};

#[test]
fn test_check_python_main_double_quotes() {
    let code = r#"
def main():
    print("Hello World")

if __name__ == "__main__":
    main()
"#;
    assert!(check_python_main(code).unwrap());
}

#[test]
fn test_check_python_main_single_quotes() {
    let code = r#"
def main():
    print("Hello World")

if __name__ == '__main__':
    main()
"#;
    assert!(check_python_main(code).unwrap());
}

#[test]
fn test_check_python_main_false() {
    let code = r#"
def some_function():
    print("Hello World")

# No main block
"#;
    assert!(!check_python_main(code).unwrap());
}

#[test]
fn test_check_shebang_file_python() {
    let result = shebang_interpreter("#!/usr/bin/env python3\n");
    assert_eq!(result, Some("/usr/bin/env python3".to_string()));
}

#[test]
fn test_check_shebang_file_bash() {
    let result = shebang_interpreter("#!/bin/bash\n");
    assert_eq!(result, Some("/bin/bash".to_string()));
}

#[test]
fn test_check_shebang_file_none() {
    let result = shebang_interpreter("This is just a text file");
    assert_eq!(result, None);
}

#[test]
fn test_map_extension_to_ptype() {
    assert_eq!(map_extension_to_ptype("py"), Some(PType::Python));
    assert_eq!(map_extension_to_ptype("sh"), Some(PType::Shell));
    assert_eq!(map_extension_to_ptype("js"), Some(PType::Node));
    assert_eq!(map_extension_to_ptype("ts"), Some(PType::Node));
    assert_eq!(map_extension_to_ptype("txt"), None);
    assert_eq!(map_extension_to_ptype("unknown"), None);
}

#[test]
fn test_detect_main_node_with_valid_package_json() {
    let result = detect_main_node(r#"{"name": "test", "main": "index.js"}"#);
    assert_eq!(result, Some("index.js".to_string()));
}

#[test]
fn test_detect_main_node_with_no_main_field() {
    assert_eq!(detect_main_node(r#"{"name": "test"}"#), None);
}

#[test]
fn test_detect_main_node_with_invalid_json() {
    assert_eq!(detect_main_node("invalid json"), None);
}

#[test]
fn main_field_that_is_not_text_is_ignored() {
    assert_eq!(detect_main_node(r#"{"main": 3}"#), None);
    assert_eq!(detect_main_node(r#"["main"]"#), None);
}

#[test]
fn test_check_python_exec_priority_with_main() {
    let code = "\ndef main():\n    print(\"Hello\")\n\nif __name__ == \"__main__\":\n    main()\n";
    assert_eq!(python_exec_priority(code), PRIORITY_TOP);
}

#[test]
fn test_check_python_exec_priority_without_main() {
    let code = "\ndef some_function():\n    print(\"Hello\")\n";
    assert_eq!(python_exec_priority(code), PRIORITY_UNLIKELY);
}

#[test]
fn pruned_names() {
    assert!(is_pruned(".git"));
    assert!(is_pruned("node_modules"));
    assert!(is_pruned("__pycache__"));
    assert!(!is_pruned("src"));
    assert!(!is_pruned("main.py"));
}

#[test]
fn shebang_is_trimmed() {
    assert_eq!(shebang_interpreter("\t#!/bin/sh -e \r\n"), Some("/bin/sh -e".to_string()));
    assert_eq!(shebang_interpreter(""), None);
}
