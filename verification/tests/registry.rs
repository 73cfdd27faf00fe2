use cmakefmt::overrides::{nargs_of_integer, normalize_overrides, parse_nargs};
use cmakefmt::registry::CommandRegistry;
use cmakefmt::spec::{
    CommandForm, CommandFormOverride, CommandSpec, CommandSpecOverride, KwargSpec,
    KwargSpecOverride, LayoutOverrides, LayoutOverridesOverride, NArgs, SpecFile, SpecMetadata,
    SpecOverrideFile,
};

/// Keyword lookups by name, as the specs' keyed collections offer them.
trait Keyed {
    fn contains_key(&self, key: &str) -> bool;
    fn get(&self, key: &str) -> Option<&KwargSpec>;
}

impl Keyed for Vec<(String, KwargSpec)> {
    fn contains_key(&self, key: &str) -> bool {
        self.iter().any(|(name, _)| name == key)
    }

    fn get(&self, key: &str) -> Option<&KwargSpec> {
        self.iter().find(|(name, _)| name == key).map(|(_, spec)| spec)
    }
}

/// Flag lookups by name.
trait Flags {
    fn contains(&self, flag: &str) -> bool;
}

impl Flags for Vec<String> {
    fn contains(&self, flag: &str) -> bool {
        self.iter().any(|f| f == flag)
    }
}

#[test]
fn registry_has_target_link_libraries_keywords() {
    let registry = CommandRegistry::load().unwrap();
    let CommandSpec::Single(form) = registry.get("target_link_libraries") else {
        panic!()
    };
    assert!(form.kwargs.contains_key("PUBLIC"));
    assert!(form.kwargs.contains_key("PRIVATE"));
    assert!(form.kwargs.contains_key("INTERFACE"));
}

#[test]
fn registry_has_install_forms() {
    let registry = CommandRegistry::load().unwrap();
    assert!(matches!(
        registry.get("install"),
        CommandSpec::Discriminated { .. }
    ));
}

#[test]
fn registry_unknown_command_uses_fallback() {
    let registry = CommandRegistry::load().unwrap();
    let spec = registry.get("my_unknown_command");
    let CommandSpec::Single(form) = spec else {
        panic!()
    };
    assert_eq!(form.pargs, NArgs::ZeroOrMore);
    assert!(form.kwargs.is_empty());
    assert!(form.flags.is_empty());
}

#[test]
fn registry_knows_builtin_surface() {
    let registry = CommandRegistry::load().unwrap();
    assert!(registry.contains_builtin("cmake_minimum_required"));
    assert!(registry.contains_builtin("target_sources"));
    assert!(registry.contains_builtin("while"));
    assert!(registry.contains_builtin("external_project_add"));
}

#[test]
fn registry_reports_audited_cmake_version() {
    let registry = CommandRegistry::load().unwrap();
    assert_eq!(registry.audited_cmake_version(), "4.3.1");
}

#[test]
fn registry_knows_project_43_keywords() {
    let registry = CommandRegistry::load().unwrap();
    let CommandSpec::Single(form) = registry.get("project") else {
        panic!()
    };
    assert!(form.flags.contains("COMPAT_VERSION"));
    assert!(form.flags.contains("SPDX_LICENSE"));
}

#[test]
fn registry_knows_export_package_info_form() {
    let registry = CommandRegistry::load().unwrap();
    let CommandSpec::Discriminated { .. } = registry.get("export") else {
        panic!()
    };
    let form = registry.get("export").form_for(Some("PACKAGE_INFO"));
    assert_eq!(form.pargs, NArgs::Fixed(1));
    assert!(form.kwargs.contains_key("EXPORT"));
    assert!(form.kwargs.contains_key("CXX_MODULES_DIRECTORY"));
}

#[test]
fn registry_knows_install_package_info_form() {
    let registry = CommandRegistry::load().unwrap();
    let form = registry.get("install").form_for(Some("PACKAGE_INFO"));
    assert_eq!(form.pargs, NArgs::Fixed(1));
    assert!(form.kwargs.contains_key("DESTINATION"));
    assert!(form.kwargs.contains_key("COMPAT_VERSION"));
}

#[test]
fn registry_knows_install_export_namespace_keyword() {
    let registry = CommandRegistry::load().unwrap();
    let form = registry.get("install").form_for(Some("EXPORT"));
    assert!(form.kwargs.contains_key("DESTINATION"));
    assert!(form.kwargs.contains_key("NAMESPACE"));
    assert!(form.kwargs.contains_key("FILE"));
    assert!(form.flags.contains("EXCLUDE_FROM_ALL"));
}

#[test]
fn registry_knows_install_targets_export_and_includes_sections() {
    let registry = CommandRegistry::load().unwrap();
    let form = registry.get("install").form_for(Some("TARGETS"));
    assert!(form.kwargs.contains_key("EXPORT"));
    assert!(form.kwargs.contains_key("INCLUDES"));
    assert!(form
        .kwargs
        .get("INCLUDES")
        .is_some_and(|spec| spec.kwargs.contains_key("DESTINATION")));
    assert!(form.kwargs.contains_key("RUNTIME_DEPENDENCY_SET"));
    assert!(form.flags.contains("RUNTIME"));
    assert!(form.flags.contains("LIBRARY"));
    assert!(form.flags.contains("ARCHIVE"));
}

#[test]
fn registry_knows_cmake_language_trace_form() {
    let registry = CommandRegistry::load().unwrap();
    let form = registry.get("cmake_language").form_for(Some("TRACE"));
    assert!(form.flags.contains("ON"));
    assert!(form.flags.contains("OFF"));
    assert!(form.flags.contains("EXPAND"));
}

#[test]
fn registry_knows_cmake_pkg_config_import_keywords() {
    let registry = CommandRegistry::load().unwrap();
    let form = registry.get("cmake_pkg_config").form_for(Some("IMPORT"));
    assert!(form.kwargs.contains_key("NAME"));
    assert!(form.kwargs.contains_key("BIND_PC_REQUIRES"));
}

#[test]
fn registry_knows_file_archive_create_threads() {
    let registry = CommandRegistry::load().unwrap();
    let form = registry.get("file").form_for(Some("ARCHIVE_CREATE"));
    assert!(form.kwargs.contains_key("THREADS"));
    assert!(form.kwargs.contains_key("COMPRESSION_LEVEL"));
}

#[test]
fn registry_knows_file_strings_keywords() {
    let registry = CommandRegistry::load().unwrap();
    let form = registry.get("file").form_for(Some("STRINGS"));
    assert_eq!(form.pargs, NArgs::Fixed(2));
    assert!(form.kwargs.contains_key("REGEX"));
    assert!(form.kwargs.contains_key("LIMIT_COUNT"));
}

#[test]
fn registry_knows_cmake_package_config_helpers_commands() {
    let registry = CommandRegistry::load().unwrap();
    let configure = registry.get("configure_package_config_file").form_for(None);
    assert!(configure.kwargs.contains_key("INSTALL_DESTINATION"));
    assert!(configure.kwargs.contains_key("PATH_VARS"));

    let version = registry
        .get("write_basic_package_version_file")
        .form_for(None);
    assert!(version.kwargs.contains_key("COMPATIBILITY"));
    assert!(version.kwargs.contains_key("VERSION"));
}

#[test]
fn registry_knows_utility_module_commands() {
    let registry = CommandRegistry::load().unwrap();
    assert_eq!(
        registry.get("cmake_dependent_option").form_for(None).pargs,
        NArgs::Fixed(5)
    );
    assert_eq!(
        registry.get("check_language").form_for(None).pargs,
        NArgs::Fixed(1)
    );
    assert_eq!(
        registry.get("check_include_file").form_for(None).pargs,
        NArgs::AtLeast(2)
    );
    assert_eq!(
        registry.get("check_compiler_flag").form_for(None).pargs,
        NArgs::Fixed(3)
    );
    assert_eq!(
        registry
            .get("check_objc_compiler_flag")
            .form_for(None)
            .pargs,
        NArgs::Fixed(2)
    );
    assert_eq!(
        registry.get("check_cxx_symbol_exists").form_for(None).pargs,
        NArgs::Fixed(3)
    );
    assert!(registry
        .get("cmake_push_check_state")
        .form_for(None)
        .flags
        .contains("RESET"));
    let print_props = registry.get("cmake_print_properties").form_for(None);
    assert!(print_props.kwargs.contains_key("TARGETS"));
    assert!(print_props.kwargs.contains_key("PROPERTIES"));
    let pie = registry.get("check_pie_supported").form_for(None);
    assert!(pie.kwargs.contains_key("OUTPUT_VARIABLE"));
    assert!(pie.kwargs.contains_key("LANGUAGES"));
    let source_compiles = registry.get("check_source_compiles").form_for(None);
    assert!(source_compiles.kwargs.contains_key("SRC_EXT"));
    assert!(source_compiles.kwargs.contains_key("FAIL_REGEX"));
    let find_dependency = registry.get("find_dependency").form_for(None);
    assert!(find_dependency.flags.contains("REQUIRED"));
    assert!(find_dependency.kwargs.contains_key("COMPONENTS"));
}

#[test]
fn registry_knows_supported_deprecated_module_commands() {
    let registry = CommandRegistry::load().unwrap();
    let version = registry
        .get("write_basic_config_version_file")
        .form_for(None);
    assert_eq!(version.pargs, NArgs::Fixed(1));
    assert!(version.kwargs.contains_key("COMPATIBILITY"));
    assert!(version.flags.contains("ARCH_INDEPENDENT"));
    assert_eq!(
        registry.get("check_cxx_accepts_flag").form_for(None).pargs,
        NArgs::Fixed(2)
    );
}

#[test]
fn registry_knows_fetchcontent_commands() {
    let registry = CommandRegistry::load().unwrap();
    let declare = registry.get("fetchcontent_declare").form_for(None);
    assert_eq!(declare.pargs, NArgs::Fixed(1));
    assert!(declare.flags.contains("EXCLUDE_FROM_ALL"));
    assert!(declare.kwargs.contains_key("FIND_PACKAGE_ARGS"));

    let get_properties = registry.get("fetchcontent_getproperties").form_for(None);
    assert!(get_properties.kwargs.contains_key("SOURCE_DIR"));
    assert!(get_properties.kwargs.contains_key("BINARY_DIR"));
    assert!(get_properties.kwargs.contains_key("POPULATED"));

    let populate = registry.get("fetchcontent_populate").form_for(None);
    assert!(populate.flags.contains("QUIET"));
    assert!(populate.kwargs.contains_key("SUBBUILD_DIR"));
}

#[test]
fn registry_knows_common_test_and_package_helper_modules() {
    let registry = CommandRegistry::load().unwrap();

    let google_add = registry.get("gtest_add_tests").form_for(None);
    assert!(google_add.kwargs.contains_key("TARGET"));
    assert!(google_add.kwargs.contains_key("SOURCES"));
    assert!(google_add.flags.contains("SKIP_DEPENDENCY"));

    let google_discover = registry.get("gtest_discover_tests").form_for(None);
    assert!(google_discover.kwargs.contains_key("DISCOVERY_MODE"));
    assert!(google_discover.kwargs.contains_key("XML_OUTPUT_DIR"));
    assert!(google_discover.flags.contains("NO_PRETTY_TYPES"));

    assert_eq!(
        registry.get("processorcount").form_for(None).pargs,
        NArgs::Fixed(1)
    );

    let fp_hsa = registry
        .get("find_package_handle_standard_args")
        .form_for(None);
    assert!(fp_hsa.flags.contains("DEFAULT_MSG"));
    assert!(fp_hsa.kwargs.contains_key("REQUIRED_VARS"));
    assert!(fp_hsa.kwargs.contains_key("VERSION_VAR"));

    let fp_check = registry.get("find_package_check_version").form_for(None);
    assert_eq!(fp_check.pargs, NArgs::Fixed(2));
    assert!(fp_check.flags.contains("HANDLE_VERSION_RANGE"));
}

#[test]
fn registry_knows_externalproject_helper_commands() {
    let registry = CommandRegistry::load().unwrap();
    let step = registry.get("externalproject_add_step").form_for(None);
    assert_eq!(step.pargs, NArgs::Fixed(2));
    assert!(step.kwargs.contains_key("COMMAND"));
    assert!(step.kwargs.contains_key("DEPENDEES"));
    assert!(step.kwargs.contains_key("ENVIRONMENT_MODIFICATION"));

    let targets = registry
        .get("externalproject_add_steptargets")
        .form_for(None);
    assert_eq!(targets.pargs, NArgs::AtLeast(2));
    assert!(targets.flags.contains("NO_DEPENDS"));

    let deps = registry
        .get("externalproject_add_stepdependencies")
        .form_for(None);
    assert_eq!(deps.pargs, NArgs::AtLeast(3));

    let props = registry.get("externalproject_get_property").form_for(None);
    assert_eq!(props.pargs, NArgs::AtLeast(2));
}

#[test]
fn registry_knows_packaging_and_find_helper_module_commands() {
    let registry = CommandRegistry::load().unwrap();

    assert_eq!(
        registry.get("find_package_message").form_for(None).pargs,
        NArgs::Fixed(3)
    );
    assert_eq!(
        registry
            .get("select_library_configurations")
            .form_for(None)
            .pargs,
        NArgs::Fixed(1)
    );

    let component = registry.get("cpack_add_component").form_for(None);
    assert!(component.flags.contains("HIDDEN"));
    assert!(component.kwargs.contains_key("DISPLAY_NAME"));
    assert!(component.kwargs.contains_key("DEPENDS"));

    let group = registry.get("cpack_add_component_group").form_for(None);
    assert!(group.flags.contains("EXPANDED"));
    assert!(group.kwargs.contains_key("PARENT_GROUP"));

    let downloads = registry.get("cpack_configure_downloads").form_for(None);
    assert_eq!(downloads.pargs, NArgs::Fixed(1));
    assert!(downloads.kwargs.contains_key("UPLOAD_DIRECTORY"));
}

#[test]
fn registry_knows_export_header_module_commands() {
    let registry = CommandRegistry::load().unwrap();
    let export_header = registry.get("generate_export_header").form_for(None);
    assert_eq!(export_header.pargs, NArgs::Fixed(1));
    assert!(export_header.flags.contains("DEFINE_NO_DEPRECATED"));
    assert!(export_header.kwargs.contains_key("EXPORT_FILE_NAME"));
    assert!(export_header.kwargs.contains_key("PREFIX_NAME"));

    assert_eq!(
        registry
            .get("add_compiler_export_flags")
            .form_for(None)
            .pargs,
        NArgs::Optional
    );
}

#[test]
fn registry_knows_remaining_utility_module_commands() {
    let registry = CommandRegistry::load().unwrap();

    for command in [
        "android_add_test_data",
        "add_file_dependencies",
        "cmake_add_fortran_subdirectory",
        "cmake_expand_imported_targets",
        "cmake_force_c_compiler",
        "cmake_force_cxx_compiler",
        "cmake_force_fortran_compiler",
        "ctest_coverage_collect_gcov",
        "copy_and_fixup_bundle",
        "fixup_bundle",
        "fixup_bundle_item",
        "verify_app",
        "verify_bundle_prerequisites",
        "verify_bundle_symlinks",
        "get_bundle_main_executable",
        "get_dotapp_dir",
        "get_bundle_and_executable",
        "get_bundle_all_executables",
        "get_bundle_keys",
        "get_item_key",
        "get_item_rpaths",
        "clear_bundle_keys",
        "set_bundle_key_values",
        "copy_resolved_framework_into_bundle",
        "copy_resolved_item_into_bundle",
        "cpack_ifw_add_package_resources",
        "cpack_ifw_add_repository",
        "cpack_ifw_configure_component",
        "cpack_ifw_configure_component_group",
        "cpack_ifw_update_repository",
        "cpack_ifw_configure_file",
        "csharp_set_windows_forms_properties",
        "csharp_set_designer_cs_properties",
        "csharp_set_xaml_cs_properties",
        "csharp_get_filename_keys",
        "csharp_get_filename_key_base",
        "csharp_get_dependentupon_name",
        "externaldata_expand_arguments",
        "externaldata_add_test",
        "externaldata_add_target",
        "fortrancinterface_header",
        "fortrancinterface_verify",
        "fetchcontent_setpopulated",
        "gnuinstalldirs_get_absolute_install_dir",
        "find_jar",
        "add_jar",
        "install_jar",
        "install_jar_exports",
        "export_jars",
        "create_javadoc",
        "create_javah",
        "install_jni_symlink",
        "swig_add_library",
        "swig_link_libraries",
        "print_enabled_features",
        "print_disabled_features",
        "set_feature_info",
        "set_package_info",
    ] {
        assert!(
            registry.contains_builtin(command),
            "missing built-in {command}"
        );
    }

    assert_eq!(
        registry
            .get("ctest_coverage_collect_gcov")
            .form_for(None)
            .pargs,
        NArgs::ZeroOrMore
    );
    assert_eq!(
        registry
            .get("fortrancinterface_verify")
            .form_for(None)
            .pargs,
        NArgs::ZeroOrMore
    );
    assert_eq!(
        registry.get("add_jar").form_for(None).pargs,
        NArgs::AtLeast(2)
    );
    assert_eq!(
        registry
            .get("cpack_ifw_configure_file")
            .form_for(None)
            .pargs,
        NArgs::Fixed(2)
    );
    assert_eq!(
        registry
            .get("gnuinstalldirs_get_absolute_install_dir")
            .form_for(None)
            .pargs,
        NArgs::AtLeast(3)
    );
}

#[test]
fn registry_knows_string_json_43_modes() {
    let registry = CommandRegistry::load().unwrap();
    let form = registry.get("string").form_for(Some("JSON"));
    assert!(form.flags.contains("GET_RAW"));
    assert!(form.flags.contains("STRING_ENCODE"));
    assert!(form.kwargs.contains_key("ERROR_VARIABLE"));
}

fn kwarg_override(nargs: Option<NArgs>) -> KwargSpecOverride {
    KwargSpecOverride { nargs, kwargs: Vec::new(), flags: Vec::new() }
}

fn form_override() -> CommandFormOverride {
    CommandFormOverride { pargs: None, kwargs: Vec::new(), flags: Vec::new(), layout: None }
}

#[test]
fn user_override_entries_merge_with_builtins() {
    let mut registry = CommandRegistry::load().unwrap();
    let layout = LayoutOverridesOverride {
        line_width: None,
        tab_size: None,
        dangle_parens: None,
        always_wrap: Some(true),
        max_pargs_hwrap: None,
    };
    let overrides = SpecOverrideFile {
        commands: vec![(
            "target_link_libraries".to_owned(),
            CommandSpecOverride::Single(CommandFormOverride {
                kwargs: vec![("LINKER_LANGUAGE".to_owned(), kwarg_override(Some(NArgs::Fixed(1))))],
                layout: Some(layout),
                ..form_override()
            }),
        )],
    };
    assert!(registry.accepts_overrides(&overrides));
    registry.merge_overrides(&overrides);

    let CommandSpec::Single(form) = registry.get("target_link_libraries") else {
        panic!()
    };
    assert_eq!(form.layout.as_ref().and_then(|layout| layout.always_wrap), Some(true));
    assert!(form.kwargs.contains_key("PUBLIC"));
    assert_eq!(form.kwargs.get("LINKER_LANGUAGE").unwrap().nargs, NArgs::Fixed(1));
}

#[test]
fn overrides_are_normalised_before_merging() {
    let file = SpecOverrideFile {
        commands: vec![
            (
                "My_Command".to_owned(),
                CommandSpecOverride::Single(CommandFormOverride {
                    pargs: Some(NArgs::Fixed(2)),
                    kwargs: vec![
                        ("dest".to_owned(), kwarg_override(Some(NArgs::Fixed(1)))),
                        ("DEST".to_owned(), kwarg_override(Some(NArgs::OneOrMore))),
                    ],
                    flags: vec!["quiet".to_owned(), "QUIET".to_owned(), "all".to_owned()],
                    ..form_override()
                }),
            ),
            ("my_command".to_owned(), CommandSpecOverride::Single(CommandFormOverride { pargs: Some(NArgs::Fixed(3)), ..form_override() })),
        ],
    };
    let normal = normalize_overrides(&file);
    assert_eq!(normal.commands.len(), 1);
    assert_eq!(normal.commands[0].0, "my_command");
    let CommandSpecOverride::Single(form) = &normal.commands[0].1 else { panic!() };
    assert_eq!(form.pargs, Some(NArgs::Fixed(3)));

    let mut registry = CommandRegistry::load().unwrap();
    let first_only = SpecOverrideFile { commands: vec![file.commands.into_iter().next().unwrap()] };
    registry.merge_overrides(&first_only);
    assert!(registry.contains_builtin("my_command"));
    let CommandSpec::Single(form) = registry.get("MY_COMMAND") else { panic!() };
    assert_eq!(form.pargs, NArgs::Fixed(2));
    assert_eq!(form.kwargs.len(), 1);
    assert_eq!(form.kwargs[0].0, "DEST");
    assert_eq!(form.kwargs[0].1.nargs, NArgs::OneOrMore);
    assert_eq!(form.flags, vec!["QUIET".to_owned(), "ALL".to_owned()]);
}

#[test]
fn discriminated_overrides_add_forms_and_keep_existing_ones() {
    let mut registry = CommandRegistry::load().unwrap();
    let file = SpecOverrideFile {
        commands: vec![(
            "install".to_owned(),
            CommandSpecOverride::Discriminated {
                forms: vec![
                    ("targets".to_owned(), CommandFormOverride { flags: vec!["extra_flag".to_owned()], ..form_override() }),
                    ("NEW_MODE".to_owned(), CommandFormOverride { pargs: Some(NArgs::Optional), ..form_override() }),
                ],
                fallback: None,
            },
        )],
    };
    registry.merge_overrides(&file);
    let targets = registry.get("install").form_for(Some("TARGETS"));
    assert!(targets.flags.contains("EXTRA_FLAG"));
    assert!(targets.flags.contains("RUNTIME"));
    assert!(targets.kwargs.contains_key("DESTINATION"));
    assert_eq!(registry.get("install").form_for(Some("NEW_MODE")).pargs, NArgs::Optional);
}

#[test]
fn overrides_without_forms_only_merge_into_discriminated_commands() {
    let registry = CommandRegistry::load().unwrap();
    let empty = CommandSpecOverride::Discriminated { forms: Vec::new(), fallback: None };
    let onto_new = SpecOverrideFile { commands: vec![("brand_new".to_owned(), empty)] };
    assert!(!registry.accepts_overrides(&onto_new));
    let empty = CommandSpecOverride::Discriminated { forms: Vec::new(), fallback: None };
    let onto_install = SpecOverrideFile { commands: vec![("install".to_owned(), empty)] };
    assert!(registry.accepts_overrides(&onto_install));
}

#[test]
fn a_different_kind_of_override_replaces_the_spec() {
    let mut registry = CommandRegistry::load().unwrap();
    let file = SpecOverrideFile {
        commands: vec![(
            "install".to_owned(),
            CommandSpecOverride::Single(CommandFormOverride { flags: vec!["only".to_owned()], ..form_override() }),
        )],
    };
    registry.merge_overrides(&file);
    let CommandSpec::Single(form) = registry.get("install") else { panic!() };
    assert_eq!(form.pargs, NArgs::ZeroOrMore);
    assert_eq!(form.flags, vec!["ONLY".to_owned()]);
}

#[test]
fn full_specs_from_overrides() {
    let o = KwargSpecOverride {
        nargs: None,
        kwargs: vec![("inner".to_owned(), kwarg_override(Some(NArgs::AtLeast(2))))],
        flags: vec!["x".to_owned(), "X".to_owned()],
    };
    let full = o.into_full_spec();
    assert_eq!(full.nargs, NArgs::ZeroOrMore);
    assert_eq!(full.kwargs[0].0, "INNER");
    assert_eq!(full.kwargs[0].1.nargs, NArgs::AtLeast(2));
    assert_eq!(full.flags, vec!["X".to_owned()]);
    let form = CommandFormOverride { pargs: Some(NArgs::Fixed(1)), ..form_override() }.into_full_form();
    assert_eq!(form.pargs, NArgs::Fixed(1));
    assert!(form.layout.is_none());
}

#[test]
fn nargs_text_forms() {
    assert_eq!(parse_nargs("*"), Ok(NArgs::ZeroOrMore));
    assert_eq!(parse_nargs("+"), Ok(NArgs::OneOrMore));
    assert_eq!(parse_nargs("?"), Ok(NArgs::Optional));
    assert_eq!(parse_nargs("2+"), Ok(NArgs::AtLeast(2)));
    assert_eq!(parse_nargs("3"), Ok(NArgs::Fixed(3)));
    assert_eq!(parse_nargs("x+"), Err("invalid NArgs pattern: x+".to_owned()));
    assert_eq!(parse_nargs("many"), Err("invalid NArgs value: many".to_owned()));
    assert_eq!(nargs_of_integer(-4), NArgs::Fixed(0));
    assert_eq!(nargs_of_integer(7), NArgs::Fixed(7));
}

// ── Spec text read through the library's conversions ───────────────────────

/// The `nargs` or `pargs` value of a spec table, as the spec files write it.
fn nargs_value(value: &toml::Value) -> NArgs {
    match value {
        toml::Value::Integer(n) => nargs_of_integer(*n),
        toml::Value::String(text) => parse_nargs(text).unwrap(),
        other => panic!("not an argument count: {other:?}"),
    }
}

fn table_of(src: &str) -> toml::Table {
    toml::from_str::<toml::Table>(src).unwrap()
}

fn string_list(value: Option<&toml::Value>) -> Vec<String> {
    match value {
        Some(toml::Value::Array(items)) => {
            items.iter().map(|item| item.as_str().unwrap().to_owned()).collect()
        }
        _ => Vec::new(),
    }
}

fn kwarg_spec_of(table: &toml::Table) -> KwargSpec {
    KwargSpec {
        nargs: table.get("nargs").map(nargs_value).unwrap_or(NArgs::ZeroOrMore),
        kwargs: keyword_specs(table.get("kwargs")),
        flags: string_list(table.get("flags")),
    }
}

fn keyword_specs(value: Option<&toml::Value>) -> Vec<(String, KwargSpec)> {
    match value {
        Some(toml::Value::Table(entries)) => entries
            .iter()
            .map(|(name, entry)| (name.clone(), kwarg_spec_of(entry.as_table().unwrap())))
            .collect(),
        _ => Vec::new(),
    }
}

fn layout_of(value: Option<&toml::Value>) -> Option<LayoutOverridesOverride> {
    let table = value?.as_table()?;
    let count = |key: &str| table.get(key).and_then(toml::Value::as_integer).map(|n| n as usize);
    let flag = |key: &str| table.get(key).and_then(toml::Value::as_bool);
    Some(LayoutOverridesOverride {
        line_width: count("line_width"),
        tab_size: count("tab_size"),
        dangle_parens: flag("dangle_parens"),
        always_wrap: flag("always_wrap"),
        max_pargs_hwrap: count("max_pargs_hwrap"),
    })
}

fn command_form_of(table: &toml::Table) -> CommandForm {
    CommandForm {
        pargs: table.get("pargs").map(nargs_value).unwrap_or(NArgs::ZeroOrMore),
        kwargs: keyword_specs(table.get("kwargs")),
        flags: string_list(table.get("flags")),
        layout: layout_of(table.get("layout")).map(|l| LayoutOverrides {
            line_width: l.line_width,
            tab_size: l.tab_size,
            dangle_parens: l.dangle_parens,
            always_wrap: l.always_wrap,
            max_pargs_hwrap: l.max_pargs_hwrap,
        }),
    }
}

fn command_spec_of(table: &toml::Table) -> CommandSpec {
    match table.get("forms") {
        Some(toml::Value::Table(forms)) => CommandSpec::Discriminated {
            forms: forms
                .iter()
                .map(|(name, form)| (name.clone(), command_form_of(form.as_table().unwrap())))
                .collect(),
            fallback: table.get("fallback").map(|f| command_form_of(f.as_table().unwrap())),
        },
        _ => CommandSpec::Single(command_form_of(table)),
    }
}

fn kwarg_override_of(table: &toml::Table) -> KwargSpecOverride {
    KwargSpecOverride {
        nargs: table.get("nargs").map(nargs_value),
        kwargs: match table.get("kwargs") {
            Some(toml::Value::Table(entries)) => entries
                .iter()
                .map(|(name, entry)| (name.clone(), kwarg_override_of(entry.as_table().unwrap())))
                .collect(),
            _ => Vec::new(),
        },
        flags: string_list(table.get("flags")),
    }
}

fn form_override_of(table: &toml::Table) -> CommandFormOverride {
    CommandFormOverride {
        pargs: table.get("pargs").map(nargs_value),
        kwargs: match table.get("kwargs") {
            Some(toml::Value::Table(entries)) => entries
                .iter()
                .map(|(name, entry)| (name.clone(), kwarg_override_of(entry.as_table().unwrap())))
                .collect(),
            _ => Vec::new(),
        },
        flags: string_list(table.get("flags")),
        layout: layout_of(table.get("layout")),
    }
}

#[test]
fn nargs_integer() {
    let src = "nargs = 1\n";
    let spec = kwarg_spec_of(&table_of(src));
    assert_eq!(spec.nargs, NArgs::Fixed(1));
}

#[test]
fn nargs_zero_or_more() {
    let src = "nargs = \"*\"\n";
    let spec = kwarg_spec_of(&table_of(src));
    assert_eq!(spec.nargs, NArgs::ZeroOrMore);
}

#[test]
fn nargs_one_or_more() {
    let src = "nargs = \"+\"\n";
    let spec = kwarg_spec_of(&table_of(src));
    assert_eq!(spec.nargs, NArgs::OneOrMore);
}

#[test]
fn nargs_optional() {
    let src = "nargs = \"?\"\n";
    let spec = kwarg_spec_of(&table_of(src));
    assert_eq!(spec.nargs, NArgs::Optional);
}

#[test]
fn nargs_at_least() {
    let src = "nargs = \"2+\"\n";
    let spec = kwarg_spec_of(&table_of(src));
    assert_eq!(spec.nargs, NArgs::AtLeast(2));
}

#[test]
fn single_command_form() {
    let src = r#"
pargs = 1
flags = ["REQUIRED"]

[kwargs.COMPONENTS]
nargs = "+"
"#;
    let form = command_form_of(&table_of(src));
    assert_eq!(form.pargs, NArgs::Fixed(1));
    assert!(form.flags.contains("REQUIRED"));
    assert!(form.kwargs.contains_key("COMPONENTS"));
}

#[test]
fn discriminated_command() {
    let src = r#"
[forms.TARGETS]
pargs = "+"

[forms.TARGETS.kwargs.DESTINATION]
nargs = 1

[forms.FILES]
pargs = "+"
"#;
    let spec = command_spec_of(&table_of(src));
    assert!(matches!(spec, CommandSpec::Discriminated { .. }));
    let form = spec.form_for(Some("targets"));
    assert!(form.kwargs.contains_key("DESTINATION"));
}

#[test]
fn partial_override_round_trips() {
    let src = r#"
layout.always_wrap = true

[kwargs.COMPONENTS]
nargs = "+"
"#;
    let override_form = form_override_of(&table_of(src));
    assert_eq!(override_form.layout.unwrap().always_wrap, Some(true));
    let components = override_form
        .kwargs
        .iter()
        .find(|(name, _)| name == "COMPONENTS")
        .map(|(_, spec)| spec)
        .unwrap();
    assert_eq!(components.nargs, Some(NArgs::OneOrMore));
}

#[test]
fn spec_file_entries_are_normalised() {
    let kwarg = KwargSpec { nargs: NArgs::Fixed(1), kwargs: Vec::new(), flags: vec!["inner".to_string()] };
    let form = CommandForm {
        pargs: NArgs::Fixed(1),
        kwargs: vec![("dest".to_string(), kwarg)],
        flags: vec!["quiet".to_string(), "QUIET".to_string()],
        layout: None,
    };
    let other = CommandForm::default();
    let file = SpecFile {
        metadata: SpecMetadata {
            cmake_version: "3.99".to_string(),
            audited_at: String::new(),
            notes: String::new(),
        },
        commands: vec![
            ("My_Cmd".to_string(), CommandSpec::Single(other)),
            ("MY_CMD".to_string(), CommandSpec::Single(form)),
        ],
    };
    let registry = CommandRegistry::from_spec_file(file);
    assert_eq!(registry.audited_cmake_version(), "3.99");
    match registry.get("my_cmd") {
        CommandSpec::Single(f) => {
            assert_eq!(f.pargs, NArgs::Fixed(1));
            assert_eq!(f.flags, vec!["QUIET".to_string()]);
            assert_eq!(f.kwargs.len(), 1);
            assert_eq!(f.kwargs[0].0, "DEST");
            assert_eq!(f.kwargs[0].1.flags, vec!["INNER".to_string()]);
        }
        other => panic!("unexpected spec: {other:?}"),
    }
    match registry.get("unknown_command") {
        CommandSpec::Single(f) => assert_eq!(f.pargs, NArgs::ZeroOrMore),
        other => panic!("unexpected spec: {other:?}"),
    }
}
