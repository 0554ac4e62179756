//! The new project's layout: the paths the pipeline touches and the
//! generated starter source file.
//!
//! The slug names the tree's root directory; the raw display name names
//! the project directory inside it and every identifier inside the
//! generated file.  The display name is embedded literally, with no
//! validation that it is a legal identifier in the template's language:
//! the slug is the filesystem-facing name, the display name the
//! human- and symbol-facing one.

use vstd::prelude::*;

verus! {

/// The fixed upstream template repository.
pub open spec fn template_url_model() -> Seq<char> {
    "https://github.com/sten-code/stengine.git"@
}

/// The new project's directory inside the slug root.
pub open spec fn project_dir(slug: Seq<char>, name: Seq<char>) -> Seq<char> {
    slug + "/"@ + name
}

/// The project's asset directory.
pub open spec fn assets_dir(slug: Seq<char>, name: Seq<char>) -> Seq<char> {
    project_dir(slug, name) + "/assets"@
}

/// The project's source directory.
pub open spec fn src_dir(slug: Seq<char>, name: Seq<char>) -> Seq<char> {
    project_dir(slug, name) + "/src"@
}

/// The generated starter source file's path.
pub open spec fn app_source_path(slug: Seq<char>, name: Seq<char>) -> Seq<char> {
    project_dir(slug, name) + "/src/"@ + name + "App.cpp"@
}

/// The template's fonts directory, inside its placeholder editor project.
pub open spec fn fonts_from(slug: Seq<char>) -> Seq<char> {
    slug + "/Steditor/assets/fonts"@
}

/// Where the fonts move to.
pub open spec fn fonts_to(slug: Seq<char>, name: Seq<char>) -> Seq<char> {
    project_dir(slug, name) + "/assets/fonts"@
}

/// The template's shaders directory, inside its placeholder editor project.
pub open spec fn shaders_from(slug: Seq<char>) -> Seq<char> {
    slug + "/Steditor/assets/shaders"@
}

/// Where the shaders move to.
pub open spec fn shaders_to(slug: Seq<char>, name: Seq<char>) -> Seq<char> {
    project_dir(slug, name) + "/assets/shaders"@
}

/// The template's leaf build descriptor, inside its placeholder editor
/// project.
pub open spec fn leaf_from(slug: Seq<char>) -> Seq<char> {
    slug + "/Steditor/premake5.lua"@
}

/// The leaf build descriptor's path once relocated into the new project.
pub open spec fn leaf_descriptor_path(slug: Seq<char>, name: Seq<char>) -> Seq<char> {
    project_dir(slug, name) + "/premake5.lua"@
}

/// The root build descriptor's path.
pub open spec fn root_descriptor_path(slug: Seq<char>) -> Seq<char> {
    slug + "/premake5.lua"@
}

/// The template's placeholder sandbox project.
pub open spec fn sandbox_dir(slug: Seq<char>) -> Seq<char> {
    slug + "/Sandbox"@
}

/// The template's placeholder editor project.
pub open spec fn editor_dir(slug: Seq<char>) -> Seq<char> {
    slug + "/Steditor"@
}

/// The lines of the generated starter source file for a display name.
pub open spec fn app_source_lines(name: Seq<char>) -> Seq<Seq<char>> {
    seq![
        "#inclu"@ + "de <Stengine.h>"@,
        "#inclu"@ + "de <Stengine/Core/EntryPoint.h>"@,
        ""@,
        "class "@ + name + " : public Sten::Application"@,
        "{"@,
        "public:"@,
        "    "@ + name + "(Sten::ApplicationCommandLineArgs args)"@,
        "        : Application(Sten::WindowProps(\""@ + name + "\", 1280, 720), args)"@,
        "    {"@,
        "        ST_INFO(\"Hello, World!\");"@,
        "    }"@,
        ""@,
        "    ~"@ + name + "()"@,
        "    {"@,
        "    }"@,
        "};"@,
        ""@,
        "Sten::Application* Sten::CreateApplication(Sten::ApplicationCommandLineArgs args)"@,
        "{"@,
        "    return new "@ + name + "(args);"@,
        "}"@,
    ]
}

/// Builds the generated starter source file's lines.
pub fn render_app_source(name: &str) -> (r: Vec<String>)
    ensures
        crate::descriptor::lines_model(r@) == app_source_lines(name@),
{
    let mut r: Vec<String> = Vec::new();
    let mut line = String::from_str("#inclu");
    line.append("de <Stengine.h>");
    r.push(line);
    let mut line = String::from_str("#inclu");
    line.append("de <Stengine/Core/EntryPoint.h>");
    r.push(line);
    r.push(String::from_str(""));
    let mut line = String::from_str("class ");
    line.append(name);
    line.append(" : public Sten::Application");
    r.push(line);
    r.push(String::from_str("{"));
    r.push(String::from_str("public:"));
    let mut line = String::from_str("    ");
    line.append(name);
    line.append("(Sten::ApplicationCommandLineArgs args)");
    r.push(line);
    let mut line = String::from_str("        : Application(Sten::WindowProps(\"");
    line.append(name);
    line.append("\", 1280, 720), args)");
    r.push(line);
    r.push(String::from_str("    {"));
    r.push(String::from_str("        ST_INFO(\"Hello, World!\");"));
    r.push(String::from_str("    }"));
    r.push(String::from_str(""));
    let mut line = String::from_str("    ~");
    line.append(name);
    line.append("()");
    r.push(line);
    r.push(String::from_str("    {"));
    r.push(String::from_str("    }"));
    r.push(String::from_str("};"));
    r.push(String::from_str(""));
    r.push(String::from_str("Sten::Application* Sten::CreateApplication(Sten::ApplicationCommandLineArgs args)"));
    r.push(String::from_str("{"));
    let mut line = String::from_str("    return new ");
    line.append(name);
    line.append("(args);");
    r.push(line);
    r.push(String::from_str("}"));
    proof {
        assert(crate::descriptor::lines_model(r@) =~= app_source_lines(name@));
    }
    r
}

/// Builds the fixed upstream template repository's address.
pub fn template_url() -> (r: String)
    ensures
        r@ == template_url_model(),
{
    String::from_str("https://github.com/sten-code/stengine.git")
}

/// Joins two path segments with a separator.
fn join(a: &str, b: &str) -> (r: String)
    ensures
        r@ == a@ + "/"@ + b@,
{
    let mut r = String::from_str(a);
    r.append("/");
    r.append(b);
    r
}

/// Builds the new project's directory path.
pub fn render_project_dir(slug: &str, name: &str) -> (r: String)
    ensures
        r@ == project_dir(slug@, name@),
{
    join(slug, name)
}

/// Builds a path directly under the slug root.
pub fn render_under_slug(slug: &str, suffix: &str) -> (r: String)
    ensures
        r@ == slug@ + suffix@,
{
    let mut r = String::from_str(slug);
    r.append(suffix);
    r
}

/// Builds a path under the new project's directory.
pub fn render_under_project(slug: &str, name: &str, suffix: &str) -> (r: String)
    ensures
        r@ == project_dir(slug@, name@) + suffix@,
{
    let mut r = render_project_dir(slug, name);
    r.append(suffix);
    r
}

/// Builds the generated starter source file's path.
pub fn render_app_source_path(slug: &str, name: &str) -> (r: String)
    ensures
        r@ == app_source_path(slug@, name@),
{
    let mut r = render_project_dir(slug, name);
    r.append("/src/");
    r.append(name);
    r.append("App.cpp");
    r
}

} // verus!
