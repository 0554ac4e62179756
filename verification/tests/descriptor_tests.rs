use scaffolder::descriptor::{render_directive_line, render_project_line, rewrite_leaf, rewrite_root};

fn lines(items: &[&str]) -> Vec<String> {
    items.iter().map(|s| s.to_string()).collect()
}

fn directive(name: &str) -> String {
    let word = ["inclu", "de"].concat();
    format!("{word} \"{name}\"")
}

#[test]
fn project_line_quotes_the_name() {
    assert_eq!(render_project_line("TestProject"), "project \"TestProject\"");
}

#[test]
fn directive_line_quotes_the_raw_name() {
    assert_eq!(render_directive_line("my app"), directive("my app"));
}

#[test]
fn leaf_rewrite_replaces_head_line() {
    let mut descriptor = lines(&["project \"Steditor\"", "kind \"ConsoleApp\"", "language \"C++\""]);
    rewrite_leaf(&mut descriptor, "TestProject");
    assert_eq!(descriptor, lines(&[
        "project \"TestProject\"",
        "kind \"ConsoleApp\"",
        "language \"C++\"",
    ]));
}

#[test]
fn leaf_rewrite_leaves_empty_descriptor_alone() {
    let mut descriptor: Vec<String> = Vec::new();
    rewrite_leaf(&mut descriptor, "TestProject");
    assert!(descriptor.is_empty());
}

#[test]
fn root_rewrite_drops_two_lines_and_adds_one() {
    let descriptor = lines(&[
        "workspace \"Stengine\"",
        "startproject \"Sandbox\"",
        &directive("Sandbox"),
        &directive("Steditor"),
    ]);
    let before = descriptor.len();
    let rewritten = rewrite_root(descriptor, "my app").unwrap();
    assert_eq!(rewritten.len(), before - 1);
    assert_eq!(rewritten, lines(&[
        "workspace \"Stengine\"",
        "startproject \"Sandbox\"",
        &directive("my app"),
    ]));
}

#[test]
fn root_rewrite_final_line_uses_the_raw_name() {
    let descriptor = lines(&["a", "b", "c"]);
    let rewritten = rewrite_root(descriptor, "my app").unwrap();
    assert_eq!(rewritten.last().unwrap(), &directive("my app"));
}

#[test]
fn root_rewrite_accepts_exactly_two_lines() {
    let rewritten = rewrite_root(lines(&["a", "b"]), "X").unwrap();
    assert_eq!(rewritten, lines(&[&directive("X")]));
}

#[test]
fn root_rewrite_rejects_short_descriptors() {
    assert!(rewrite_root(lines(&["only line"]), "X").is_none());
    assert!(rewrite_root(Vec::new(), "X").is_none());
}
