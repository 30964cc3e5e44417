use nano_agent::tools::{
    edit_step, list_outcome, plan_tool, read_outcome, shell_outcome, tool_catalog, write_outcome,
    EditStep, Effect, OUTPUT_CAP,
};

fn args(pairs: &[(&str, &str)]) -> Vec<(String, String)> {
    pairs.iter().map(|(k, v)| (k.to_string(), v.to_string())).collect()
}

#[test]
fn catalog_has_five_tools_in_order() {
    let c = tool_catalog();
    let names: Vec<&str> = c.iter().map(|t| t.name.as_str()).collect();
    assert_eq!(names, vec!["read_file", "write_file", "edit_file", "bash", "list_dir"]);
    assert_eq!(c[2].params, vec!["path", "old_string", "new_string"]);
    assert_eq!(c[3].description, "Run command");
}

#[test]
fn plan_read_file_with_path() {
    match plan_tool("read_file", &args(&[("path", "src/main.rs")])) {
        Effect::ReadFile { path } => assert_eq!(path, "src/main.rs"),
        _ => panic!("wrong effect"),
    }
}

#[test]
fn plan_read_file_defaults_to_current_dir() {
    match plan_tool("read_file", &args(&[])) {
        Effect::ReadFile { path } => assert_eq!(path, "."),
        _ => panic!("wrong effect"),
    }
}

#[test]
fn plan_write_and_edit_defaults_are_empty() {
    match plan_tool("write_file", &args(&[("content", "x")])) {
        Effect::WriteFile { path, content } => {
            assert_eq!(path, "");
            assert_eq!(content, "x");
        }
        _ => panic!("wrong effect"),
    }
    match plan_tool("edit_file", &args(&[("path", "a"), ("old_string", "b"), ("new_string", "c")])) {
        Effect::EditFile { path, old, new } => {
            assert_eq!((path.as_str(), old.as_str(), new.as_str()), ("a", "b", "c"));
        }
        _ => panic!("wrong effect"),
    }
}

#[test]
fn plan_bash_and_list_dir() {
    match plan_tool("bash", &args(&[("command", "ls -la")])) {
        Effect::Shell { command } => assert_eq!(command, "ls -la"),
        _ => panic!("wrong effect"),
    }
    match plan_tool("list_dir", &args(&[])) {
        Effect::ListDir { path } => assert_eq!(path, "."),
        _ => panic!("wrong effect"),
    }
}

#[test]
fn plan_first_argument_of_a_name_wins() {
    match plan_tool("list_dir", &args(&[("path", "one"), ("path", "two")])) {
        Effect::ListDir { path } => assert_eq!(path, "one"),
        _ => panic!("wrong effect"),
    }
}

#[test]
fn plan_unknown_tool_replies() {
    match plan_tool("delete_everything", &args(&[("path", "/")])) {
        Effect::Reply { text } => assert_eq!(text, "Unknown tool"),
        _ => panic!("wrong effect"),
    }
}

#[test]
fn read_and_write_outcomes() {
    assert_eq!(read_outcome(Ok("body".to_string())), "body");
    assert_eq!(read_outcome(Err("No such file".to_string())), "Error: No such file");
    assert_eq!(write_outcome(Ok(())), "OK");
    assert_eq!(write_outcome(Err("denied".to_string())), "Error: denied");
}

#[test]
fn edit_replaces_first_occurrence() {
    match edit_step(Ok("let a = 1;\nlet a = 1;\n".to_string()), "a = 1", "b = 2") {
        EditStep::Write { content } => assert_eq!(content, "let b = 2;\nlet a = 1;\n"),
        _ => panic!("expected a write"),
    }
}

#[test]
fn edit_absent_text_is_not_found() {
    match edit_step(Ok("unchanged".to_string()), "missing", "x") {
        EditStep::Reply { text } => {
            assert_eq!(text, "old_string not found");
            assert!(!text.starts_with("Error"));
        }
        _ => panic!("expected a reply"),
    }
}

#[test]
fn edit_read_failure_is_error() {
    match edit_step(Err("No such file".to_string()), "a", "b") {
        EditStep::Reply { text } => assert_eq!(text, "Error: No such file"),
        _ => panic!("expected a reply"),
    }
}

#[test]
fn shell_output_truncated_to_cap() {
    let long = "x".repeat(OUTPUT_CAP + 1234);
    let r = shell_outcome(Ok(long));
    assert_eq!(r.chars().count(), 50000);
    let exact = "y".repeat(OUTPUT_CAP);
    assert_eq!(shell_outcome(Ok(exact.clone())), exact);
    assert_eq!(shell_outcome(Ok("hi\n".to_string())), "hi\n");
    assert_eq!(shell_outcome(Err("spawn failed".to_string())), "Error: spawn failed");
}

#[test]
fn list_outcome_marks_dirs_and_files() {
    let entries = vec![(true, "src".to_string()), (false, "Cargo.toml".to_string())];
    assert_eq!(list_outcome(Ok(entries)), "d src\n- Cargo.toml");
    assert_eq!(list_outcome(Ok(vec![])), "");
    assert_eq!(list_outcome(Err("not a dir".to_string())), "Error: not a dir");
}
