use scaffolder::scaffold::{
    render_app_source, render_app_source_path, render_project_dir, render_under_project,
    render_under_slug, template_url,
};

fn preamble(header: &str) -> String {
    let word = ["#inclu", "de"].concat();
    format!("{word} <{header}>")
}

#[test]
fn template_url_is_fixed() {
    assert_eq!(template_url(), "https://github.com/sten-code/stengine.git");
}

#[test]
fn project_dir_joins_slug_and_name() {
    assert_eq!(render_project_dir("test-project", "TestProject"), "test-project/TestProject");
}

#[test]
fn app_source_path_embeds_the_display_name() {
    assert_eq!(
        render_app_source_path("test-project", "TestProject"),
        "test-project/TestProject/src/TestProjectApp.cpp",
    );
}

#[test]
fn under_slug_and_under_project_paths() {
    assert_eq!(
        render_under_slug("test-project", "/Steditor/assets/fonts"),
        "test-project/Steditor/assets/fonts",
    );
    assert_eq!(
        render_under_project("test-project", "TestProject", "/premake5.lua"),
        "test-project/TestProject/premake5.lua",
    );
}

#[test]
fn app_source_preamble_and_shape() {
    let source = render_app_source("TestProject");
    assert_eq!(source.len(), 21);
    assert_eq!(source[0], preamble("Stengine.h"));
    assert_eq!(source[1], preamble("Stengine/Core/EntryPoint.h"));
    assert_eq!(source[2], "");
    assert_eq!(source[20], "}");
}

#[test]
fn app_source_declares_the_display_name() {
    let source = render_app_source("TestProject");
    assert_eq!(source[3], "class TestProject : public Sten::Application");
    assert_eq!(source[6], "    TestProject(Sten::ApplicationCommandLineArgs args)");
    assert_eq!(
        source[7],
        "        : Application(Sten::WindowProps(\"TestProject\", 1280, 720), args)",
    );
    assert_eq!(source[12], "    ~TestProject()");
    assert_eq!(source[19], "    return new TestProject(args);");
}

#[test]
fn app_source_passes_raw_name_through() {
    let source = render_app_source("my app");
    assert_eq!(source[3], "class my app : public Sten::Application");
    assert_eq!(
        source[7],
        "        : Application(Sten::WindowProps(\"my app\", 1280, 720), args)",
    );
}

#[test]
fn app_source_logs_a_greeting() {
    let source = render_app_source("X");
    assert_eq!(source[9], "        ST_INFO(\"Hello, World!\");");
}
