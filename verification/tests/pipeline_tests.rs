use scaffolder::pipeline::{AbortReason, Action, Event, Pipeline, Stage};

fn lines(items: &[&str]) -> Vec<String> {
    items.iter().map(|s| s.to_string()).collect()
}

fn directive(name: &str) -> String {
    let word = ["inclu", "de"].concat();
    format!("{word} \"{name}\"")
}

const URL: &str = "https://github.com/sten-code/stengine.git";

#[test]
fn first_action_is_the_existence_probe() {
    let (pipeline, action) = Pipeline::new("TestProject".to_string());
    assert_eq!(action, Action::CheckExists("test-project".to_string()));
    assert_eq!(pipeline.stage(), Stage::CollisionCheck);
}

#[test]
fn collision_aborts_before_any_mutation() {
    let (mut pipeline, action) = Pipeline::new("TestProject".to_string());
    assert_eq!(action, Action::CheckExists("test-project".to_string()));
    let next = pipeline.handle(Event::Exists(true));
    assert_eq!(next, Action::Quit(1));
    assert_eq!(pipeline.stage(), Stage::Aborted(AbortReason::Collision));
    assert!(!pipeline.accepts(&Event::Finished(true)));
    assert!(!pipeline.accepts(&Event::Exists(false)));
    assert!(!pipeline.accepts(&Event::Lines(None)));
}

#[test]
fn fetch_failure_stops_after_the_clone_attempt() {
    let (mut pipeline, _) = Pipeline::new("TestProject".to_string());
    let clone = pipeline.handle(Event::Exists(false));
    assert_eq!(clone, Action::CloneTemplate(URL.to_string(), "test-project".to_string()));
    let next = pipeline.handle(Event::Finished(false));
    assert_eq!(next, Action::Quit(1));
    assert_eq!(pipeline.stage(), Stage::Aborted(AbortReason::FetchFailed));
    assert!(!pipeline.accepts(&Event::Finished(true)));
}

#[test]
fn directory_failure_aborts() {
    let (mut pipeline, _) = Pipeline::new("TestProject".to_string());
    pipeline.handle(Event::Exists(false));
    pipeline.handle(Event::Finished(true));
    let next = pipeline.handle(Event::Finished(false));
    assert_eq!(next, Action::Quit(1));
    assert_eq!(pipeline.stage(), Stage::Aborted(AbortReason::Io));
}

#[test]
fn leaf_read_failure_aborts() {
    let (mut pipeline, _) = Pipeline::new("TestProject".to_string());
    pipeline.handle(Event::Exists(false));
    for _ in 0..8 {
        pipeline.handle(Event::Finished(true));
    }
    assert_eq!(pipeline.stage(), Stage::LeafRead);
    let next = pipeline.handle(Event::Lines(None));
    assert_eq!(next, Action::Quit(1));
    assert_eq!(pipeline.stage(), Stage::Aborted(AbortReason::Io));
}

#[test]
fn short_root_descriptor_aborts() {
    let (mut pipeline, _) = Pipeline::new("TestProject".to_string());
    pipeline.handle(Event::Exists(false));
    for _ in 0..8 {
        pipeline.handle(Event::Finished(true));
    }
    pipeline.handle(Event::Lines(Some(lines(&["project \"Steditor\""]))));
    pipeline.handle(Event::Finished(true));
    assert_eq!(pipeline.stage(), Stage::RootRead);
    let next = pipeline.handle(Event::Lines(Some(lines(&["lonely line"]))));
    assert_eq!(next, Action::Quit(1));
    assert_eq!(pipeline.stage(), Stage::Aborted(AbortReason::ShortRootDescriptor));
}

#[test]
fn prune_failures_do_not_change_the_exit_code() {
    let (mut pipeline, _) = Pipeline::new("TestProject".to_string());
    pipeline.handle(Event::Exists(false));
    for _ in 0..8 {
        pipeline.handle(Event::Finished(true));
    }
    pipeline.handle(Event::Lines(Some(lines(&["project \"Steditor\""]))));
    pipeline.handle(Event::Finished(true));
    pipeline.handle(Event::Lines(Some(lines(&["a", "b", "c"]))));
    let sandbox = pipeline.handle(Event::Finished(true));
    assert_eq!(sandbox, Action::RemoveTree("test-project/Sandbox".to_string()));
    let editor = pipeline.handle(Event::Finished(false));
    assert_eq!(editor, Action::RemoveTree("test-project/Steditor".to_string()));
    let last = pipeline.handle(Event::Finished(false));
    assert_eq!(last, Action::Quit(0));
    assert_eq!(pipeline.stage(), Stage::Done);
}

#[test]
fn full_run_issues_the_expected_actions_in_order() {
    let (mut pipeline, probe) = Pipeline::new("TestProject".to_string());
    assert_eq!(probe, Action::CheckExists("test-project".to_string()));

    let clone = pipeline.handle(Event::Exists(false));
    assert_eq!(clone, Action::CloneTemplate(URL.to_string(), "test-project".to_string()));

    let project = pipeline.handle(Event::Finished(true));
    assert_eq!(project, Action::MakeDir("test-project/TestProject".to_string()));
    let assets = pipeline.handle(Event::Finished(true));
    assert_eq!(assets, Action::MakeDir("test-project/TestProject/assets".to_string()));
    let src = pipeline.handle(Event::Finished(true));
    assert_eq!(src, Action::MakeDir("test-project/TestProject/src".to_string()));

    let generated = pipeline.handle(Event::Finished(true));
    match &generated {
        Action::WriteLines(path, content) => {
            assert_eq!(path, "test-project/TestProject/src/TestProjectApp.cpp");
            assert_eq!(content.len(), 21);
            assert_eq!(content[3], "class TestProject : public Sten::Application");
        }
        other => panic!("unexpected action {other:?}"),
    }

    let fonts = pipeline.handle(Event::Finished(true));
    assert_eq!(fonts, Action::MovePath(
        "test-project/Steditor/assets/fonts".to_string(),
        "test-project/TestProject/assets/fonts".to_string(),
    ));
    let shaders = pipeline.handle(Event::Finished(true));
    assert_eq!(shaders, Action::MovePath(
        "test-project/Steditor/assets/shaders".to_string(),
        "test-project/TestProject/assets/shaders".to_string(),
    ));
    let leaf_move = pipeline.handle(Event::Finished(true));
    assert_eq!(leaf_move, Action::MovePath(
        "test-project/Steditor/premake5.lua".to_string(),
        "test-project/TestProject/premake5.lua".to_string(),
    ));

    let leaf_read = pipeline.handle(Event::Finished(true));
    assert_eq!(leaf_read, Action::ReadLines("test-project/TestProject/premake5.lua".to_string()));
    let leaf_write = pipeline.handle(Event::Lines(Some(lines(&[
        "project \"Steditor\"",
        "kind \"ConsoleApp\"",
    ]))));
    assert_eq!(leaf_write, Action::WriteLines(
        "test-project/TestProject/premake5.lua".to_string(),
        lines(&["project \"TestProject\"", "kind \"ConsoleApp\""]),
    ));

    let root_read = pipeline.handle(Event::Finished(true));
    assert_eq!(root_read, Action::ReadLines("test-project/premake5.lua".to_string()));
    let root_write = pipeline.handle(Event::Lines(Some(lines(&[
        "workspace \"Stengine\"",
        &directive("Sandbox"),
        &directive("Steditor"),
    ]))));
    assert_eq!(root_write, Action::WriteLines(
        "test-project/premake5.lua".to_string(),
        lines(&["workspace \"Stengine\"", &directive("TestProject")]),
    ));

    let sandbox = pipeline.handle(Event::Finished(true));
    assert_eq!(sandbox, Action::RemoveTree("test-project/Sandbox".to_string()));
    let editor = pipeline.handle(Event::Finished(true));
    assert_eq!(editor, Action::RemoveTree("test-project/Steditor".to_string()));
    let done = pipeline.handle(Event::Finished(true));
    assert_eq!(done, Action::Quit(0));
    assert_eq!(pipeline.stage(), Stage::Done);
}

#[test]
fn raw_name_flows_into_descriptors_and_slug_into_paths() {
    let (mut pipeline, probe) = Pipeline::new("my app".to_string());
    assert_eq!(probe, Action::CheckExists("my-app".to_string()));
    pipeline.handle(Event::Exists(false));
    for _ in 0..8 {
        pipeline.handle(Event::Finished(true));
    }
    let leaf_write = pipeline.handle(Event::Lines(Some(lines(&["project \"Steditor\""]))));
    assert_eq!(leaf_write, Action::WriteLines(
        "my-app/my app/premake5.lua".to_string(),
        lines(&["project \"my app\""]),
    ));
    pipeline.handle(Event::Finished(true));
    let root_write = pipeline.handle(Event::Lines(Some(lines(&[
        "workspace \"Stengine\"",
        &directive("Sandbox"),
        &directive("Steditor"),
    ]))));
    match &root_write {
        Action::WriteLines(path, content) => {
            assert_eq!(path, "my-app/premake5.lua");
            assert_eq!(content.last().unwrap(), &directive("my app"));
        }
        other => panic!("unexpected action {other:?}"),
    }
}

#[test]
fn accepts_tracks_the_awaited_event_kind() {
    let (mut pipeline, _) = Pipeline::new("TestProject".to_string());
    assert!(pipeline.accepts(&Event::Exists(true)));
    assert!(!pipeline.accepts(&Event::Finished(true)));
    pipeline.handle(Event::Exists(false));
    assert!(pipeline.accepts(&Event::Finished(true)));
    assert!(!pipeline.accepts(&Event::Lines(None)));
}
