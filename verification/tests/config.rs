use std::io::Write;
use std::path::Path;

use cmakefmt::config::{CaseStyle, Config, LineEnding};
use cmakefmt::config_file::{
    config_file_names, default_config_template, editorconfig_overrides, is_yaml_config,
    EditorConfigOverrides, FileConfig, IndentSize,
};

// ── `.editorconfig` properties, read with ec4rs and mapped by the library ──

/// Writes `.editorconfig` with `contents` into `dir`; the file lives as long
/// as the returned handle.
fn write_editorconfig(dir: &Path, contents: &str) -> tempfile::NamedTempFile {
    let mut file = tempfile::Builder::new()
        .prefix(".editorconfig")
        .suffix("")
        .rand_bytes(0)
        .tempfile_in(dir)
        .unwrap();
    file.write_all(contents.as_bytes()).unwrap();
    file.flush().unwrap();
    file
}

/// The overrides for a file, from the `.editorconfig` properties that apply
/// to it; none when they cannot be read.
fn overrides_for(file_path: &Path) -> EditorConfigOverrides {
    let properties = match ec4rs::properties_of(file_path) {
        Ok(props) => props,
        Err(_) => return EditorConfigOverrides::default(),
    };
    let use_tabs = properties
        .get::<ec4rs::property::IndentStyle>()
        .ok()
        .map(|style| matches!(style, ec4rs::property::IndentStyle::Tabs));
    let indent_size = properties.get::<ec4rs::property::IndentSize>().ok().map(|size| match size {
        ec4rs::property::IndentSize::Value(n) => IndentSize::Value(n),
        ec4rs::property::IndentSize::UseTabWidth => IndentSize::UseTabWidth,
    });
    let tab_width = properties.get::<ec4rs::property::TabWidth>().ok().map(|tw| match tw {
        ec4rs::property::TabWidth::Value(n) => n,
    });
    let max_line_length = properties.get_raw_for_key("max_line_length").into_option().map(str::to_owned);
    let end_of_line = properties.get_raw_for_key("end_of_line").into_option().map(str::to_owned);
    editorconfig_overrides(use_tabs, indent_size, tab_width, max_line_length.as_deref(), end_of_line.as_deref())
}

fn overrides_with(contents: &str) -> EditorConfigOverrides {
    let dir = tempfile::tempdir().unwrap();
    let _config = write_editorconfig(dir.path(), contents);
    overrides_for(&dir.path().join("CMakeLists.txt"))
}

#[test]
fn reads_indent_style_spaces() {
    let overrides = overrides_with("[*]\nroot = true\nindent_style = space\nindent_size = 4\n");
    assert_eq!(overrides.use_tabs, Some(false));
    assert_eq!(overrides.tab_size, Some(4));
}

#[test]
fn reads_indent_style_tabs() {
    let overrides = overrides_with("[*]\nroot = true\nindent_style = tab\n");
    assert_eq!(overrides.use_tabs, Some(true));
}

#[test]
fn reads_max_line_length() {
    let overrides = overrides_with("[*]\nroot = true\nmax_line_length = 100\n");
    assert_eq!(overrides.line_width, Some(100));
}

#[test]
fn ignores_max_line_length_off() {
    let overrides = overrides_with("[*]\nroot = true\nmax_line_length = off\n");
    assert_eq!(overrides.line_width, None);
}

#[test]
fn reads_end_of_line_lf() {
    let overrides = overrides_with("[*]\nroot = true\nend_of_line = lf\n");
    assert_eq!(overrides.line_ending, Some(LineEnding::Unix));
}

#[test]
fn reads_end_of_line_crlf() {
    let overrides = overrides_with("[*]\nroot = true\nend_of_line = crlf\n");
    assert_eq!(overrides.line_ending, Some(LineEnding::Windows));
}

#[test]
fn ignores_end_of_line_cr() {
    let overrides = overrides_with("[*]\nroot = true\nend_of_line = cr\n");
    assert_eq!(overrides.line_ending, None);
}

#[test]
fn returns_empty_when_no_editorconfig() {
    let dir = tempfile::tempdir().unwrap();
    let overrides = overrides_for(&dir.path().join("CMakeLists.txt"));
    assert!(!overrides.has_any());
}

#[test]
fn returns_empty_on_malformed_editorconfig() {
    let overrides = overrides_with("not valid [[[");
    let _ = overrides;
}

#[test]
fn indent_size_tab_takes_the_tab_width() {
    let overrides = editorconfig_overrides(None, Some(IndentSize::UseTabWidth), Some(8), None, None);
    assert_eq!(overrides.tab_size, Some(8));
    let overrides = editorconfig_overrides(None, Some(IndentSize::UseTabWidth), None, None, None);
    assert_eq!(overrides.tab_size, None);
}

#[test]
fn end_of_line_matches_in_any_case() {
    let overrides = editorconfig_overrides(None, None, None, Some("x"), Some("CrLf"));
    assert_eq!(overrides.line_ending, Some(LineEnding::Windows));
    assert_eq!(overrides.line_width, None);
    assert!(overrides.has_any());
}

// ── Config files applied over the defaults ─────────────────────────────────

fn file_with_line_width(line_width: usize) -> FileConfig {
    let mut file = FileConfig::default();
    file.format.line_width = Some(line_width);
    file
}

#[test]
fn file_settings_apply_over_the_defaults() {
    let mut file = FileConfig::default();
    file.format.line_width = Some(100);
    file.format.tab_size = Some(4);
    file.style.command_case = Some(CaseStyle::Upper);
    let config = Config::from_file(file);
    assert_eq!(config.line_width, 100);
    assert_eq!(config.tab_size, 4);
    assert_eq!(config.command_case, CaseStyle::Upper);
    assert!(!config.use_tabchars);
    assert_eq!(config.max_empty_lines, 1);
}

#[test]
fn no_config_file_gives_the_defaults() {
    assert_eq!(Config::for_file(Vec::new()), Config::default());
    assert_eq!(Config::from_file(FileConfig::default()), Config::default());
}

#[test]
fn closest_config_file_wins() {
    let closer = file_with_line_width(100);
    let mut parent = file_with_line_width(120);
    parent.format.tab_size = Some(4);
    let config = Config::for_file(vec![closer, parent]);
    assert_eq!(config.line_width, 100);
    assert_eq!(config.tab_size, 4);
}

#[test]
fn default_config_template_parses() {
    let template = default_config_template();
    let parsed = toml::from_str::<toml::Table>(&template).unwrap();
    let defaults = Config::default();
    assert_eq!(
        parsed["format"]["line_width"].as_integer(),
        Some(defaults.line_width as i64)
    );
    assert_eq!(parsed["style"]["command_case"].as_str(), Some("lower"));
    assert_eq!(defaults.command_case, CaseStyle::Lower);
    assert_eq!(
        parsed["markup"]["enable_markup"].as_bool(),
        Some(defaults.enable_markup)
    );
}

#[test]
fn config_file_names_in_search_order() {
    assert_eq!(
        config_file_names(),
        vec![".cmakefmt.yaml", ".cmakefmt.yml", ".cmakefmt.toml", ".cmake-format.toml"]
    );
    assert!(is_yaml_config(".cmakefmt.yaml"));
    assert!(is_yaml_config(".cmakefmt.yml"));
    assert!(!is_yaml_config(".cmakefmt.toml"));
}

#[test]
fn default_yaml_template_parses() {
    let template = cmakefmt::config_file::default_config_yaml_template();
    let parsed: serde_yaml::Value = serde_yaml::from_str(&template).unwrap();
    let defaults = Config::default();
    assert_eq!(parsed["format"]["line_width"].as_u64(), Some(defaults.line_width as u64));
    assert_eq!(parsed["style"]["command_case"].as_str(), Some("lower"));
    assert_eq!(parsed["markup"]["enable_markup"].as_bool(), Some(defaults.enable_markup));
    assert_eq!(
        parsed["markup"]["fence_pattern"].as_str(),
        Some(defaults.fence_pattern.as_str())
    );
}
