use cmakefmt::config::Config;
use cmakefmt::formatter::format_source;
use cmakefmt::semantic::semantic_equivalent;

/// Inputs of many shapes: plain commands, keyword sections, blocks,
/// comments of every kind, quoted, bracket and variable arguments, long
/// lists that wrap, and nested parentheses.
const CORPUS: &[&str] = &[
    "",
    "\n\n\n",
    "project(MyProject)",
    "cmake_minimum_required(VERSION 3.20)\nproject(demo LANGUAGES CXX)\n",
    "TARGET_LINK_LIBRARIES(foo public bar)\n",
    "if(A)\nmessage(x)\nelseif(B)\nmessage(y)\nelse()\nmessage(z)\nendif()\n",
    "function(my_fn a b)\n  set(${a} ${b} PARENT_SCOPE)\nendfunction()\n",
    "macro(m)\nforeach(x IN LISTS y)\nmessage(STATUS \"${x}\")\nendforeach()\nendmacro()\n",
    "a()\n\n\n\nb()\n",
    "message(STATUS \"hello\") # trailing\n",
    "# leading comment\n\n# another one\nset(X 1)\n",
    "set(VAR aaaaaaaaaaaaaaaaaaaa bbbbbbbbbbbbbbbbbbbb cccccccccccccccccccc dddddddddddddddddddd)\n",
    "target_link_libraries(mytarget PUBLIC aaaaaaaaaaaaaaaaaaaa bbbbbbbbbbbbbbbbbbbb PRIVATE cccccccccccccccccccc)\n",
    "install(TARGETS app lib DESTINATION bin COMPONENT runtime PERMISSIONS OWNER_READ OWNER_WRITE GROUP_READ WORLD_READ)\n",
    "add_library(core STATIC src/a.cpp src/b.cpp src/c.cpp src/d.cpp src/e.cpp src/f.cpp src/g.cpp src/h.cpp)\n",
    "set(doc [[a bracket\nargument]] [==[with \"quotes\" inside]==])\n",
    "#[[ a bracket\ncomment ]]\nset(a 1)\n",
    "set(x \"multi\nline\nquoted\")\n",
    "if((A AND B) OR (C AND NOT D))\nendif()\n",
    "list(APPEND SOURCES\n  one.cpp # first\n  two.cpp # second\n  three.cpp)\n",
    "set(LONG_LIST alpha beta gamma delta epsilon zeta eta theta iota kappa lambda mu nu xi omicron pi rho sigma tau upsilon phi chi psi omega)\n",
    "execute_process(COMMAND ${CMAKE_COMMAND} -E echo hello WORKING_DIRECTORY ${CMAKE_BINARY_DIR} RESULT_VARIABLE res OUTPUT_VARIABLE out ERROR_QUIET)\n",
    "file(GLOB_RECURSE SRCS CONFIGURE_DEPENDS ${CMAKE_CURRENT_SOURCE_DIR}/src/*.cpp ${CMAKE_CURRENT_SOURCE_DIR}/include/*.hpp)\n",
    "# This is a very long comment line that goes well beyond the configured line width and keeps going on and on\nset(a b)\n",
    "set_target_properties(tgt PROPERTIES CXX_STANDARD 17 CXX_STANDARD_REQUIRED ON CXX_EXTENSIONS OFF POSITION_INDEPENDENT_CODE ON)\n",
    "  message(   \"spaced\"   )   \n",
    "my_custom_command(ARG1 value1 ARG2 value2 ARG3 value3 ARG4 value4 ARG5 value5 ARG6 value6 ARG7)\n",
    "if(WIN32)\n  if(MSVC)\n    add_compile_options(/W4)\n  else()\n    add_compile_options(-Wall -Wextra)\n  endif()\nendif()\n",
    "set(a \"x\" # c1\n  \"y\") # c2\n",
    "string(REGEX REPLACE \"^([0-9]+)\\\\.([0-9]+)$\" \"\\\\1\" MAJOR \"${VERSION}\")\n",
    "add_custom_command(OUTPUT gen.h COMMAND gen --out gen.h DEPENDS gen.in COMMENT \"Generating header file for the build\" VERBATIM)\n",
    "message(FATAL_ERROR \"a very long message that certainly does not fit on one line of eighty characters\")\n",
    "@PACKAGE_INIT@\ninclude(\"${CMAKE_CURRENT_LIST_DIR}/targets.cmake\")\n",
    "set(x a\r\nb)\r\n",
    "set(ONE_VERY_LONG_ARGUMENT_THAT_DOES_NOT_FIT_ANYWHERE_AT_ALL_EVEN_ON_ITS_OWN_LINE_WHATSOEVER x)\n",
    "add_executable(app\n  # sources\n  main.cpp\n  # a long comment about the next source file that needs to wrap somewhere\n  util.cpp)\n",
    "function(f)\n# cmake-format: off\nset(  a   b )\n# cmake-format: on\nendfunction()\n",
    "if(NOT DEFINED CACHE{VAR} AND (EXISTS \"${CMAKE_SOURCE_DIR}/file.txt\" OR IS_DIRECTORY ${CMAKE_SOURCE_DIR}/dir))\nendif()\n",
    "set(empty \"\")\nset(escaped a\\;b \\\"c\\\")\n",
    "while(i LESS 10)\nmath(EXPR i \"${i} + 1\")\nbreak()\nendwhile()\n",
    "target_compile_definitions(lib PUBLIC FOO=1 BAR=\"two words\" PRIVATE $<$<CONFIG:Debug>:DEBUG_BUILD> INTERFACE BAZ)\n",
    "block()\nset(x 1)\nendblock()\n",
    "# ~~~\n#   keep   this   fenced\n# ~~~\nset(a 1)\n",
    "#######################################\n# Section\n#######################################\n",
    "   # indented comment\n\tset(a 1)\t# tab comment\n",
];

fn formatted(src: &str) -> Option<String> {
    format_source(src, &Config::default()).ok()
}

#[test]
fn formatting_preserves_semantics_on_corpus() {
    for src in CORPUS {
        if let Some(out) = formatted(src) {
            assert!(semantic_equivalent(src, &out), "semantics changed:\n{src}\n---\n{out}");
        }
    }
}

#[test]
fn formatting_is_idempotent_on_corpus() {
    for src in CORPUS {
        if let Some(out) = formatted(src) {
            let again = format_source(&out, &Config::default());
            assert!(again.is_ok(), "formatted output does not format:\n{out}");
            assert_eq!(again.ok().as_deref(), Some(out.as_str()), "not idempotent for:\n{src}");
        }
    }
}

#[test]
fn corpus_formats() {
    let failed: Vec<&&str> = CORPUS.iter().filter(|src| formatted(src).is_none()).collect();
    assert!(failed.is_empty(), "inputs that did not format: {failed:?}");
}

/// Narrow and wide lines, tabs, and dangling parentheses.
fn configs() -> Vec<Config> {
    let mut narrow = Config::default();
    narrow.line_width = 40;
    let mut tabs = Config::default();
    tabs.use_tabchars = true;
    tabs.tab_size = 4;
    let mut dangle = Config::default();
    dangle.dangle_parens = true;
    dangle.line_width = 60;
    let mut wide = Config::default();
    wide.line_width = 200;
    vec![Config::default(), narrow, tabs, dangle, wide]
}

#[test]
fn formatting_preserves_semantics_under_configs() {
    for config in configs() {
        for src in CORPUS {
            if let Ok(out) = format_source(src, &config) {
                assert!(semantic_equivalent(src, &out), "semantics changed:\n{src}\n---\n{out}");
            }
        }
    }
}

#[test]
fn formatting_is_idempotent_under_configs() {
    for config in configs() {
        for src in CORPUS {
            if let Ok(out) = format_source(src, &config) {
                let again = format_source(&out, &config);
                assert_eq!(again.ok().as_deref(), Some(out.as_str()), "not idempotent for:\n{src}");
            }
        }
    }
}
