use helpman::links::string_under;
use helpman::{extract_git_repo_url, extract_homepage, homepage_in};

#[test]
fn homepage_of_package() {
    let manifest = "[package]\nname = \"tool\"\nhomepage = \"https://example.org\"\n";
    assert_eq!(extract_homepage(manifest), Some("https://example.org".to_string()));
}

#[test]
fn homepage_of_workspace_package() {
    let manifest = "[workspace]\nmembers = [\"a\"]\n\n[workspace.package]\nhomepage = \"https://example.org/ws\"\n";
    assert_eq!(extract_homepage(manifest), Some("https://example.org/ws".to_string()));
}

#[test]
fn homepage_of_package_comes_before_that_of_workspace() {
    let manifest = "[package]\nhomepage = \"https://own\"\n[workspace.package]\nhomepage = \"https://shared\"\n";
    assert_eq!(extract_homepage(manifest), Some("https://own".to_string()));
}

#[test]
fn homepage_that_is_no_string_counts_as_missing() {
    let manifest = "[package]\nname = \"tool\"\nhomepage.workspace = true\n\n[workspace.package]\nhomepage = \"https://shared\"\n";
    assert_eq!(extract_homepage(manifest), Some("https://shared".to_string()));
    assert_eq!(extract_homepage("[package]\nhomepage = 3\n"), None);
    assert_eq!(extract_homepage("package = \"homepage\"\n"), None);
}

#[test]
fn homepage_missing() {
    assert_eq!(extract_homepage("[package]\nname = \"tool\"\n"), None);
    assert_eq!(extract_homepage("homepage = \"https://top.level\"\n"), None);
    assert_eq!(extract_homepage(""), None);
}

#[test]
fn homepage_of_text_that_is_no_toml() {
    assert_eq!(extract_homepage("[package\nhomepage = \"https://example.org\"\n"), None);
    assert_eq!(extract_homepage("this is = not = toml"), None);
}

#[test]
fn homepage_in_a_document_built_by_hand() {
    let mut package = toml::map::Map::new();
    package.insert("homepage".to_string(), toml::Value::String("https://example.org".to_string()));
    let mut root = toml::map::Map::new();
    root.insert("package".to_string(), toml::Value::Table(package));
    assert_eq!(homepage_in(&toml::Value::Table(root)), Some("https://example.org".to_string()));
    assert_eq!(homepage_in(&toml::Value::String("package".to_string())), None);
    assert_eq!(homepage_in(&toml::Value::Array(vec![])), None);
}

#[test]
fn homepage_in_a_workspace_built_by_hand() {
    let mut shared = toml::map::Map::new();
    shared.insert("homepage".to_string(), toml::Value::String("https://ws".to_string()));
    let mut workspace = toml::map::Map::new();
    workspace.insert("package".to_string(), toml::Value::Table(shared));
    let mut package = toml::map::Map::new();
    package.insert("homepage".to_string(), toml::Value::Boolean(true));
    let mut root = toml::map::Map::new();
    root.insert("package".to_string(), toml::Value::Table(package));
    root.insert("workspace".to_string(), toml::Value::Table(workspace));
    assert_eq!(homepage_in(&toml::Value::Table(root)), Some("https://ws".to_string()));
}

#[test]
fn origin_url_is_found() {
    let config = "[core]\n\trepositoryformatversion = 0\n[remote \"origin\"]\n\turl = git@example.org:tool.git\n\tfetch = +refs/heads/*:refs/remotes/origin/*\n[branch \"main\"]\n\tremote = origin\n";
    assert_eq!(extract_git_repo_url(config), Some("git@example.org:tool.git".to_string()));
}

#[test]
fn url_of_another_remote_does_not_count() {
    let config = "[remote \"upstream\"]\n\turl = https://up\n[core]\n\turl = https://core\n";
    assert_eq!(extract_git_repo_url(config), None);
}

#[test]
fn url_after_another_header_does_not_count() {
    let config = "[remote \"origin\"]\n\tfetch = x\n[branch \"main\"]\n\turl = https://late\n";
    assert_eq!(extract_git_repo_url(config), None);
}

#[test]
fn url_of_a_second_origin_section_counts() {
    let config = "[remote \"origin\"]\n[core]\n\turl = https://no\n[remote \"origin\"]\n  url =   https://yes  \n";
    assert_eq!(extract_git_repo_url(config), Some("https://yes".to_string()));
}

#[test]
fn url_keeps_what_follows_the_marker() {
    let config = "[remote \"origin\"]\n\turl = https://example.org/tool?ref=main\n";
    assert_eq!(extract_git_repo_url(config), Some("https://example.org/tool?ref=main".to_string()));
}

#[test]
fn url_needs_the_marker_as_written() {
    assert_eq!(extract_git_repo_url("[remote \"origin\"]\n\turl=https://tight\n"), None);
    assert_eq!(extract_git_repo_url("[remote \"origin\"]\n\turl =\n"), Some(String::new()));
    assert_eq!(extract_git_repo_url(""), None);
}

#[test]
fn config_with_carriage_returns() {
    let config = "[remote \"origin\"]\r\n\turl = https://example.org\r\n";
    assert_eq!(extract_git_repo_url(config), Some("https://example.org".to_string()));
}

#[test]
fn string_under_a_path_of_keys() {
    let mut inner = toml::map::Map::new();
    inner.insert("c".to_string(), toml::Value::String("deep".to_string()));
    inner.insert("n".to_string(), toml::Value::Integer(3));
    let mut middle = toml::map::Map::new();
    middle.insert("b".to_string(), toml::Value::Table(inner));
    let mut root = toml::map::Map::new();
    root.insert("a".to_string(), toml::Value::Table(middle));
    root.insert("s".to_string(), toml::Value::String("top".to_string()));
    let document = toml::Value::Table(root);
    assert_eq!(string_under(&document, &vec!["a", "b", "c"]), Some("deep".to_string()));
    assert_eq!(string_under(&document, &vec!["s"]), Some("top".to_string()));
    assert_eq!(string_under(&document, &vec!["a", "b", "n"]), None);
    assert_eq!(string_under(&document, &vec!["a", "b"]), None);
    assert_eq!(string_under(&document, &vec!["a", "x", "c"]), None);
    assert_eq!(string_under(&document, &vec!["s", "c"]), None);
    assert_eq!(string_under(&document, &vec![]), None);
    assert_eq!(
        string_under(&toml::Value::String("alone".to_string()), &vec![]),
        Some("alone".to_string())
    );
}
