use cmakefmt::config::Config;
use cmakefmt::dump::dump_ast;
use cmakefmt::formatter::{
    block_dedent_before, block_indent_after, format_source, format_source_with_registry_debug,
};
use cmakefmt::node::spaces_to_tabs;
use cmakefmt::parser::parse;
use cmakefmt::semantic::{normalize_line_endings, semantic_equivalent};

fn fmt(src: &str) -> String {
    match format_source(src, &Config::default()) {
        Ok(s) => s,
        Err(e) => panic!("format failed: {}", e.render()),
    }
}

#[test]
fn simple_command_is_kept() {
    assert_eq!(
        fmt("cmake_minimum_required(VERSION 3.20)\n"),
        "cmake_minimum_required(VERSION 3.20)\n"
    );
}

#[test]
fn command_names_are_lowercased_and_keywords_uppercased() {
    assert_eq!(
        fmt("TARGET_LINK_LIBRARIES(foo public bar)\n"),
        "target_link_libraries(foo PUBLIC bar)\n"
    );
}

#[test]
fn blocks_are_indented() {
    assert_eq!(
        fmt("if(A)\nmessage(x)\nelse()\nmessage(y)\nendif()\n"),
        "if(A)\n  message(x)\nelse()\n  message(y)\nendif()\n"
    );
}

#[test]
fn blank_lines_are_capped() {
    assert_eq!(fmt("a()\n\n\n\nb()\n"), "a()\n\nb()\n");
}

#[test]
fn final_newline_is_added() {
    assert_eq!(fmt("project(MyProject)"), "project(MyProject)\n");
}

#[test]
fn trailing_comment_is_kept() {
    assert_eq!(
        fmt("message(STATUS \"hello\") # trailing\n"),
        "message(STATUS \"hello\") # trailing\n"
    );
}

#[test]
fn standalone_comment_is_indented_with_block() {
    assert_eq!(
        fmt("foreach(x a b)\n# note\nmessage(${x})\nendforeach()\n"),
        "foreach(x a b)\n  # note\n  message(${x})\nendforeach()\n"
    );
}

#[test]
fn long_positional_list_uses_hanging_wrap() {
    let src = "set(VAR aaaaaaaaaaaaaaaaaaaa bbbbbbbbbbbbbbbbbbbb cccccccccccccccccccc dddddddddddddddddddd)\n";
    assert_eq!(
        fmt(src),
        "set(VAR aaaaaaaaaaaaaaaaaaaa bbbbbbbbbbbbbbbbbbbb cccccccccccccccccccc\n    dddddddddddddddddddd)\n"
    );
}

#[test]
fn keyword_sections_go_vertical_when_too_long() {
    let src = "target_link_libraries(mytarget PUBLIC aaaaaaaaaaaaaaaaaaaa bbbbbbbbbbbbbbbbbbbb PRIVATE cccccccccccccccccccc)\n";
    assert_eq!(
        fmt(src),
        "target_link_libraries(\n  mytarget\n  PUBLIC aaaaaaaaaaaaaaaaaaaa bbbbbbbbbbbbbbbbbbbb\n  PRIVATE cccccccccccccccccccc)\n"
    );
}

#[test]
fn formatting_is_stable_on_its_output() {
    let once = fmt("IF(A)\nSET(x 1)\nENDIF()\n");
    assert_eq!(fmt(&once), once);
}

#[test]
fn parse_errors_propagate() {
    assert!(format_source("if(\n", &Config::default()).is_err());
}

#[test]
fn block_depth_changes() {
    assert_eq!(block_dedent_before("ENDIF"), 1);
    assert_eq!(block_dedent_before("elseif"), 1);
    assert_eq!(block_dedent_before("message"), 0);
    assert_eq!(block_indent_after("Function"), 1);
    assert_eq!(block_indent_after("endfunction"), 0);
}

#[test]
fn tabs_replace_leading_spaces() {
    assert_eq!(spaces_to_tabs("    a\n  b\n     c", 4), "\ta\n  b\n\t c");
    assert_eq!(spaces_to_tabs("  x", 0), "  x");
}

#[test]
fn semantic_equivalence_ignores_cosmetics() {
    assert!(semantic_equivalent("set(a b)\n", "SET(a   b) # note\n"));
    assert!(semantic_equivalent(
        "target_link_libraries(foo public bar)\n",
        "target_link_libraries(foo PUBLIC bar)\n"
    ));
    assert!(!semantic_equivalent("set(a b)\n", "set(a c)\n"));
}

#[test]
fn semantic_equivalence_is_reflexive_and_lenient_on_parse_errors() {
    assert!(semantic_equivalent("project(x)\n", "project(x)\n"));
    assert!(semantic_equivalent("if(\n", "set(a)\n"));
    assert_eq!(
        semantic_equivalent("set(a)\n", "set(b)\n"),
        semantic_equivalent("set(b)\n", "set(a)\n")
    );
}

#[test]
fn line_endings_are_normalised() {
    let mut s = String::from("a\r\nb\r\n");
    normalize_line_endings(&mut s);
    assert_eq!(s, "a\nb\n");
    let mut t = String::from("plain");
    normalize_line_endings(&mut t);
    assert_eq!(t, "plain");
}

#[test]
fn dump_ast_renders_tree() {
    let file = parse("set(a)\n").unwrap();
    assert_eq!(
        dump_ast(&file, false),
        "\u{2514}\u{2500} FILE\n    \u{2514}\u{2500} COMMAND  set\n      \u{2514}\u{2500} ARG  a  (unquoted)\n"
    );
}

#[test]
fn debug_formatting_says_how_each_command_was_laid_out() {
    let registry = cmakefmt::registry::CommandRegistry::load().unwrap();
    let config = cmakefmt::config::Config::default();
    let (text, lines) = format_source_with_registry_debug("project(foo)\n", &config, &registry).unwrap();
    assert_eq!(text, "project(foo)\n");
    assert_eq!(
        lines,
        vec![
            "formatter: command project form=single first_arg=foo effective_config(line_width=80, tab_size=2, dangle_parens=false, max_hanging_wrap_lines=2, max_hanging_wrap_positional_args=6, max_hanging_wrap_groups=2)".to_owned(),
            "formatter: command project layout=inline sections=1 positional_args=1".to_owned(),
        ]
    );
    let (_, lines) = format_source_with_registry_debug("install(TARGETS foo)\nfile(READ x y)\n", &config, &registry).unwrap();
    assert_eq!(lines.len(), 4);
    assert!(lines[0].contains("form=discriminated:TARGETS"));
    assert!(lines[2].contains("form=discriminated:READ first_arg=READ"));
}

#[test]
fn comments_and_blank_lines_do_not_change_the_program() {
    assert!(semantic_equivalent(
        "# header\n\nset(a #[[inline]] b) # trailing\n\n\n#[[block]]\nproject(x)\n",
        "set(a b)\nproject(x)\n"
    ));
    assert!(!semantic_equivalent("set(a b)\n", "set(a)\n"));
}

#[test]
fn command_name_case_does_not_change_the_program() {
    assert!(semantic_equivalent("Add_Executable(app main.cpp)\n", "ADD_EXECUTABLE(app main.cpp)\n"));
    assert!(!semantic_equivalent("add_executable(app main.cpp)\n", "add_library(app main.cpp)\n"));
}

#[test]
fn disable_regions_are_kept_verbatim() {
    let src = "# cmakefmt: off\nset(MESSY_THING  a   b   c)\n# cmakefmt: on\n";
    let out = fmt(src);
    assert!(out.contains("set(MESSY_THING  a   b   c)"));
    assert_eq!(out, src);
}

#[test]
fn every_barrier_spelling_and_fences_keep_text() {
    for (off, on) in [
        ("# cmakefmt: off", "# cmakefmt: on"),
        ("# fmt: off", "# fmt: on"),
        ("# cmake-format: off", "# cmake-format: on"),
        ("# ~~~", "# ~~~"),
    ] {
        let src = format!("SET(a  b)\n{off}\nset(MESSY_THING  a   b   c)\n{on}\nSET(c  d)\n");
        let out = fmt(&src);
        assert_eq!(
            out,
            format!("set(a b)\n{off}\nset(MESSY_THING  a   b   c)\n{on}\nset(c d)\n")
        );
    }
}

#[test]
fn region_inside_a_block_keeps_depth_and_text() {
    let src = "if(A)\n# fmt: off\n  message(   x )\n# fmt: on\nmessage(y)\nendif()\n";
    assert_eq!(
        fmt(src),
        "if(A)\n# fmt: off\n  message(   x )\n# fmt: on\n  message(y)\nendif()\n"
    );
}

#[test]
fn unclosed_region_runs_to_the_end() {
    let src = "set(a  b)\n# cmakefmt: off\nset(  x )\n";
    assert_eq!(fmt(src), "set(a b)\n# cmakefmt: off\nset(  x )\n");
}

#[test]
fn formatting_with_regions_is_stable() {
    let src = "\n\nSET(a b)\n\n\n\n# fmt: off\nx(  1 )\n\n# fmt: on\n\n\n\nY()\n";
    let once = fmt(src);
    assert_eq!(fmt(&once), once);
}

/// The text with every `ESC [ ... m` sequence deleted.
fn strip_ansi(s: &str) -> String {
    let mut out = String::new();
    let mut chars = s.chars().peekable();
    while let Some(c) = chars.next() {
        if c == '\u{1b}' && chars.peek() == Some(&'[') {
            for d in chars.by_ref() {
                if d == 'm' {
                    break;
                }
            }
        } else {
            out.push(c);
        }
    }
    out
}

#[test]
fn colour_only_decorates_the_dump() {
    let file = parse("project(x) # t\nset(a \"b\" [[c]] #[[d]]\n)\n\n# note\n@INIT@\n").unwrap();
    let plain = dump_ast(&file, false);
    assert_eq!(strip_ansi(&dump_ast(&file, true)), plain);
    assert!(!plain.contains('\u{1b}'));
}

#[test]
fn reflowed_comment_keeps_its_words_in_order() {
    let mut config = Config::default();
    config.enable_markup = true;
    config.reflow_comments = true;
    config.line_width = 20;
    let src = "# alpha beta gamma delta epsilon zeta\nset(A 1)\n";
    let out = format_source(src, &config).unwrap();
    assert_eq!(out, "# alpha beta gamma\n# delta epsilon zeta\nset(A 1)\n");
    let lines: Vec<&str> = out.lines().take(2).collect();
    let bodies: Vec<&str> = lines.iter().map(|l| &l[2..]).collect();
    assert_eq!(bodies.join(" "), "alpha beta gamma delta epsilon zeta");
}
