//! The built-in command table: the argument structure of each CMake
//! command the formatter knows, as code and as values.

use vstd::prelude::*;
use crate::overrides::{
    commands_model, forms_model, kwarg_model, kwargs_model, spec_model, FormModel, KwargModel, SpecModel,
};
use crate::spec::{CommandForm, CommandSpec, KwargSpec, NArgs, spec_wf};
use crate::text::{owned, strs};

verus! {

broadcast use vstd::string::group_string_axioms;

/// A keyword with no nested keywords or flags, as values.
pub open spec fn plain_kwarg(nargs: NArgs) -> KwargModel {
    KwargModel { nargs, kwargs: Seq::empty(), flags: Seq::empty() }
}

fn new_kwargs() -> (r: Vec<(String, KwargSpec)>)
    ensures
        kwargs_model(r@) == Seq::<(Seq<char>, KwargModel)>::empty(),
{
    let r: Vec<(String, KwargSpec)> = Vec::new();
    assert(kwargs_model(r@) =~= Seq::<(Seq<char>, KwargModel)>::empty());
    r
}

fn new_flags() -> (r: Vec<String>)
    ensures
        strs(r@) == Seq::<Seq<char>>::empty(),
{
    let r: Vec<String> = Vec::new();
    assert(strs(r@) =~= Seq::<Seq<char>>::empty());
    r
}

fn new_forms() -> (r: Vec<(String, CommandForm)>)
    ensures
        r@.len() == 0,
        forms_model(r@) == Seq::<(Seq<char>, FormModel)>::empty(),
{
    let r: Vec<(String, CommandForm)> = Vec::new();
    assert(forms_model(r@) =~= Seq::<(Seq<char>, FormModel)>::empty());
    r
}

fn push_kwarg(v: &mut Vec<(String, KwargSpec)>, name: &str, nargs: NArgs)
    ensures
        kwargs_model(final(v)@) == kwargs_model(old(v)@).push((name@, plain_kwarg(nargs))),
{
    let k = KwargSpec { nargs, kwargs: Vec::new(), flags: Vec::new() };
    assert(kwargs_model(k.kwargs@) =~= Seq::<(Seq<char>, KwargModel)>::empty());
    assert(strs(k.flags@) =~= Seq::<Seq<char>>::empty());
    let ghost pre = v@;
    let ghost km = kwarg_model(k);
    assert(km == plain_kwarg(nargs));
    v.push((owned(name), k));
    assert(v@.drop_last() =~= pre);
    assert(kwargs_model(v@) == kwargs_model(v@.drop_last()).push((v@.last().0@, kwarg_model(v@.last().1))));
}

fn push_nested(
    v: &mut Vec<(String, KwargSpec)>,
    name: &str,
    nargs: NArgs,
    kwargs: Vec<(String, KwargSpec)>,
    flags: Vec<String>,
)
    ensures
        kwargs_model(final(v)@) == kwargs_model(old(v)@).push(
            (name@, KwargModel { nargs, kwargs: kwargs_model(kwargs@), flags: strs(flags@) }),
        ),
{
    let ghost pre = v@;
    v.push((owned(name), KwargSpec { nargs, kwargs, flags }));
    assert(v@.drop_last() =~= pre);
    assert(kwargs_model(v@) == kwargs_model(v@.drop_last()).push((v@.last().0@, kwarg_model(v@.last().1))));
}

fn push_flag(v: &mut Vec<String>, name: &str)
    ensures
        strs(final(v)@) == strs(old(v)@).push(name@),
{
    let ghost pre = v@;
    v.push(owned(name));
    assert(strs(v@) =~= strs(pre).push(name@));
}

fn push_form(
    v: &mut Vec<(String, CommandForm)>,
    key: &str,
    pargs: NArgs,
    kwargs: Vec<(String, KwargSpec)>,
    flags: Vec<String>,
)
    ensures
        final(v)@.len() == old(v)@.len() + 1,
        forms_model(final(v)@) == forms_model(old(v)@).push(
            (key@, FormModel { pargs, kwargs: kwargs_model(kwargs@), flags: strs(flags@), layout: None }),
        ),
{
    let ghost pre = v@;
    v.push((owned(key), CommandForm { pargs, kwargs, flags, layout: None }));
    assert(forms_model(v@) =~= forms_model(pre).push(
        (key@, FormModel { pargs, kwargs: kwargs_model(kwargs@), flags: strs(flags@), layout: None }),
    ));
}

fn push_command(v: &mut Vec<(String, CommandSpec)>, e: (String, CommandSpec))
    requires
        forall|i: int| 0 <= i < old(v)@.len() ==> spec_wf(#[trigger] old(v)@[i].1),
        spec_wf(e.1),
    ensures
        commands_model(final(v)@) == commands_model(old(v)@).push((e.0@, spec_model(e.1))),
        forall|i: int| 0 <= i < final(v)@.len() ==> spec_wf(#[trigger] final(v)@[i].1),
{
    let ghost pre = v@;
    let ghost x = (e.0@, spec_model(e.1));
    v.push(e);
    assert(commands_model(v@) =~= commands_model(pre).push(x));
}

/// The built-in spec of `cmake_minimum_required`, as values.
pub open spec fn builtin_cmake_minimum_required_model() -> SpecModel {
    SpecModel::Single(FormModel {
        pargs: NArgs::ZeroOrMore,
        kwargs: Seq::<(Seq<char>, KwargModel)>::empty()
            .push(("VERSION"@, plain_kwarg(NArgs::Fixed(1)))),
        flags: Seq::<Seq<char>>::empty().push("FATAL_ERROR"@),
        layout: None,
    })
}

/// The built-in spec of `cmake_minimum_required`.
fn builtin_cmake_minimum_required() -> (r: (String, CommandSpec))
    ensures
        r.0@ == "cmake_minimum_required"@,
        spec_model(r.1) == builtin_cmake_minimum_required_model(),
        spec_wf(r.1),
{
    let mut f_kwargs = new_kwargs();
    push_kwarg(&mut f_kwargs, "VERSION", NArgs::Fixed(1));
    let mut f_flags = new_flags();
    push_flag(&mut f_flags, "FATAL_ERROR");
    let f = CommandForm { pargs: NArgs::ZeroOrMore, kwargs: f_kwargs, flags: f_flags, layout: None };
    (owned("cmake_minimum_required"), CommandSpec::Single(f))
}

/// The built-in spec of `cmake_policy`, as values.
pub open spec fn builtin_cmake_policy_model() -> SpecModel {
    SpecModel::Single(FormModel {
        pargs: NArgs::ZeroOrMore,
        kwargs: Seq::<(Seq<char>, KwargModel)>::empty()
            .push(("VERSION"@, plain_kwarg(NArgs::OneOrMore)))
            .push(("SET"@, plain_kwarg(NArgs::Fixed(2))))
            .push(("GET"@, plain_kwarg(NArgs::Fixed(2)))),
        flags: Seq::<Seq<char>>::empty().push("PUSH"@).push("POP"@),
        layout: None,
    })
}

/// The built-in spec of `cmake_policy`.
fn builtin_cmake_policy() -> (r: (String, CommandSpec))
    ensures
        r.0@ == "cmake_policy"@,
        spec_model(r.1) == builtin_cmake_policy_model(),
        spec_wf(r.1),
{
    let mut f_kwargs = new_kwargs();
    push_kwarg(&mut f_kwargs, "VERSION", NArgs::OneOrMore);
    push_kwarg(&mut f_kwargs, "SET", NArgs::Fixed(2));
    push_kwarg(&mut f_kwargs, "GET", NArgs::Fixed(2));
    let mut f_flags = new_flags();
    push_flag(&mut f_flags, "PUSH");
    push_flag(&mut f_flags, "POP");
    let f = CommandForm { pargs: NArgs::ZeroOrMore, kwargs: f_kwargs, flags: f_flags, layout: None };
    (owned("cmake_policy"), CommandSpec::Single(f))
}

/// The built-in spec of `project`, as values.
pub open spec fn builtin_project_model() -> SpecModel {
    SpecModel::Single(FormModel {
        pargs: NArgs::Fixed(1),
        kwargs: Seq::<(Seq<char>, KwargModel)>::empty()
            .push(("VERSION"@, plain_kwarg(NArgs::Fixed(1))))
            .push(("DESCRIPTION"@, plain_kwarg(NArgs::Fixed(1))))
            .push(("HOMEPAGE_URL"@, plain_kwarg(NArgs::Fixed(1))))
            .push(("LANGUAGES"@, plain_kwarg(NArgs::OneOrMore))),
        flags: Seq::<Seq<char>>::empty().push("COMPAT_VERSION"@).push("SPDX_LICENSE"@),
        layout: None,
    })
}

/// The built-in spec of `project`.
fn builtin_project() -> (r: (String, CommandSpec))
    ensures
        r.0@ == "project"@,
        spec_model(r.1) == builtin_project_model(),
        spec_wf(r.1),
{
    let mut f_kwargs = new_kwargs();
    push_kwarg(&mut f_kwargs, "VERSION", NArgs::Fixed(1));
    push_kwarg(&mut f_kwargs, "DESCRIPTION", NArgs::Fixed(1));
    push_kwarg(&mut f_kwargs, "HOMEPAGE_URL", NArgs::Fixed(1));
    push_kwarg(&mut f_kwargs, "LANGUAGES", NArgs::OneOrMore);
    let mut f_flags = new_flags();
    push_flag(&mut f_flags, "COMPAT_VERSION");
    push_flag(&mut f_flags, "SPDX_LICENSE");
    let f = CommandForm { pargs: NArgs::Fixed(1), kwargs: f_kwargs, flags: f_flags, layout: None };
    (owned("project"), CommandSpec::Single(f))
}

/// The built-in spec of `add_library`, as values.
pub open spec fn builtin_add_library_model() -> SpecModel {
    SpecModel::Single(FormModel {
        pargs: NArgs::Fixed(1),
        kwargs: Seq::<(Seq<char>, KwargModel)>::empty(),
        flags: Seq::<Seq<char>>::empty().push("STATIC"@).push("SHARED"@).push("MODULE"@).push("OBJECT"@).push("INTERFACE"@).push("UNKNOWN"@).push("IMPORTED"@).push("GLOBAL"@).push("ALIAS"@).push("EXCLUDE_FROM_ALL"@),
        layout: None,
    })
}

/// The built-in spec of `add_library`.
fn builtin_add_library() -> (r: (String, CommandSpec))
    ensures
        r.0@ == "add_library"@,
        spec_model(r.1) == builtin_add_library_model(),
        spec_wf(r.1),
{
    let mut f_kwargs = new_kwargs();
    let mut f_flags = new_flags();
    push_flag(&mut f_flags, "STATIC");
    push_flag(&mut f_flags, "SHARED");
    push_flag(&mut f_flags, "MODULE");
    push_flag(&mut f_flags, "OBJECT");
    push_flag(&mut f_flags, "INTERFACE");
    push_flag(&mut f_flags, "UNKNOWN");
    push_flag(&mut f_flags, "IMPORTED");
    push_flag(&mut f_flags, "GLOBAL");
    push_flag(&mut f_flags, "ALIAS");
    push_flag(&mut f_flags, "EXCLUDE_FROM_ALL");
    let f = CommandForm { pargs: NArgs::Fixed(1), kwargs: f_kwargs, flags: f_flags, layout: None };
    (owned("add_library"), CommandSpec::Single(f))
}

/// The built-in spec of `add_executable`, as values.
pub open spec fn builtin_add_executable_model() -> SpecModel {
    SpecModel::Single(FormModel {
        pargs: NArgs::Fixed(1),
        kwargs: Seq::<(Seq<char>, KwargModel)>::empty(),
        flags: Seq::<Seq<char>>::empty().push("WIN32"@).push("MACOSX_BUNDLE"@).push("EXCLUDE_FROM_ALL"@).push("IMPORTED"@).push("GLOBAL"@).push("ALIAS"@),
        layout: None,
    })
}

/// The built-in spec of `add_executable`.
fn builtin_add_executable() -> (r: (String, CommandSpec))
    ensures
        r.0@ == "add_executable"@,
        spec_model(r.1) == builtin_add_executable_model(),
        spec_wf(r.1),
{
    let mut f_kwargs = new_kwargs();
    let mut f_flags = new_flags();
    push_flag(&mut f_flags, "WIN32");
    push_flag(&mut f_flags, "MACOSX_BUNDLE");
    push_flag(&mut f_flags, "EXCLUDE_FROM_ALL");
    push_flag(&mut f_flags, "IMPORTED");
    push_flag(&mut f_flags, "GLOBAL");
    push_flag(&mut f_flags, "ALIAS");
    let f = CommandForm { pargs: NArgs::Fixed(1), kwargs: f_kwargs, flags: f_flags, layout: None };
    (owned("add_executable"), CommandSpec::Single(f))
}

/// The built-in spec of `add_subdirectory`, as values.
pub open spec fn builtin_add_subdirectory_model() -> SpecModel {
    SpecModel::Single(FormModel {
        pargs: NArgs::ZeroOrMore,
        kwargs: Seq::<(Seq<char>, KwargModel)>::empty(),
        flags: Seq::<Seq<char>>::empty().push("EXCLUDE_FROM_ALL"@).push("SYSTEM"@),
        layout: None,
    })
}

/// The built-in spec of `add_subdirectory`.
fn builtin_add_subdirectory() -> (r: (String, CommandSpec))
    ensures
        r.0@ == "add_subdirectory"@,
        spec_model(r.1) == builtin_add_subdirectory_model(),
        spec_wf(r.1),
{
    let mut f_kwargs = new_kwargs();
    let mut f_flags = new_flags();
    push_flag(&mut f_flags, "EXCLUDE_FROM_ALL");
    push_flag(&mut f_flags, "SYSTEM");
    let f = CommandForm { pargs: NArgs::ZeroOrMore, kwargs: f_kwargs, flags: f_flags, layout: None };
    (owned("add_subdirectory"), CommandSpec::Single(f))
}

/// The built-in spec of `target_link_libraries`, as values.
pub open spec fn builtin_target_link_libraries_model() -> SpecModel {
    SpecModel::Single(FormModel {
        pargs: NArgs::Fixed(1),
        kwargs: Seq::<(Seq<char>, KwargModel)>::empty()
            .push(("PUBLIC"@, plain_kwarg(NArgs::OneOrMore)))
            .push(("PRIVATE"@, plain_kwarg(NArgs::OneOrMore)))
            .push(("INTERFACE"@, plain_kwarg(NArgs::OneOrMore)))
            .push(("LINK_PUBLIC"@, plain_kwarg(NArgs::OneOrMore)))
            .push(("LINK_PRIVATE"@, plain_kwarg(NArgs::OneOrMore)))
            .push(("LINK_INTERFACE_LIBRARIES"@, plain_kwarg(NArgs::OneOrMore))),
        flags: Seq::<Seq<char>>::empty(),
        layout: None,
    })
}

/// The built-in spec of `target_link_libraries`.
fn builtin_target_link_libraries() -> (r: (String, CommandSpec))
    ensures
        r.0@ == "target_link_libraries"@,
        spec_model(r.1) == builtin_target_link_libraries_model(),
        spec_wf(r.1),
{
    let mut f_kwargs = new_kwargs();
    push_kwarg(&mut f_kwargs, "PUBLIC", NArgs::OneOrMore);
    push_kwarg(&mut f_kwargs, "PRIVATE", NArgs::OneOrMore);
    push_kwarg(&mut f_kwargs, "INTERFACE", NArgs::OneOrMore);
    push_kwarg(&mut f_kwargs, "LINK_PUBLIC", NArgs::OneOrMore);
    push_kwarg(&mut f_kwargs, "LINK_PRIVATE", NArgs::OneOrMore);
    push_kwarg(&mut f_kwargs, "LINK_INTERFACE_LIBRARIES", NArgs::OneOrMore);
    let mut f_flags = new_flags();
    let f = CommandForm { pargs: NArgs::Fixed(1), kwargs: f_kwargs, flags: f_flags, layout: None };
    (owned("target_link_libraries"), CommandSpec::Single(f))
}

/// The built-in spec of `target_include_directories`, as values.
pub open spec fn builtin_target_include_directories_model() -> SpecModel {
    SpecModel::Single(FormModel {
        pargs: NArgs::Fixed(1),
        kwargs: Seq::<(Seq<char>, KwargModel)>::empty()
            .push(("PUBLIC"@, plain_kwarg(NArgs::OneOrMore)))
            .push(("PRIVATE"@, plain_kwarg(NArgs::OneOrMore)))
            .push(("INTERFACE"@, plain_kwarg(NArgs::OneOrMore))),
        flags: Seq::<Seq<char>>::empty().push("SYSTEM"@).push("AFTER"@).push("BEFORE"@),
        layout: None,
    })
}

/// The built-in spec of `target_include_directories`.
fn builtin_target_include_directories() -> (r: (String, CommandSpec))
    ensures
        r.0@ == "target_include_directories"@,
        spec_model(r.1) == builtin_target_include_directories_model(),
        spec_wf(r.1),
{
    let mut f_kwargs = new_kwargs();
    push_kwarg(&mut f_kwargs, "PUBLIC", NArgs::OneOrMore);
    push_kwarg(&mut f_kwargs, "PRIVATE", NArgs::OneOrMore);
    push_kwarg(&mut f_kwargs, "INTERFACE", NArgs::OneOrMore);
    let mut f_flags = new_flags();
    push_flag(&mut f_flags, "SYSTEM");
    push_flag(&mut f_flags, "AFTER");
    push_flag(&mut f_flags, "BEFORE");
    let f = CommandForm { pargs: NArgs::Fixed(1), kwargs: f_kwargs, flags: f_flags, layout: None };
    (owned("target_include_directories"), CommandSpec::Single(f))
}

/// The built-in spec of `target_compile_definitions`, as values.
pub open spec fn builtin_target_compile_definitions_model() -> SpecModel {
    SpecModel::Single(FormModel {
        pargs: NArgs::Fixed(1),
        kwargs: Seq::<(Seq<char>, KwargModel)>::empty()
            .push(("PUBLIC"@, plain_kwarg(NArgs::OneOrMore)))
            .push(("PRIVATE"@, plain_kwarg(NArgs::OneOrMore)))
            .push(("INTERFACE"@, plain_kwarg(NArgs::OneOrMore))),
        flags: Seq::<Seq<char>>::empty(),
        layout: None,
    })
}

/// The built-in spec of `target_compile_definitions`.
fn builtin_target_compile_definitions() -> (r: (String, CommandSpec))
    ensures
        r.0@ == "target_compile_definitions"@,
        spec_model(r.1) == builtin_target_compile_definitions_model(),
        spec_wf(r.1),
{
    let mut f_kwargs = new_kwargs();
    push_kwarg(&mut f_kwargs, "PUBLIC", NArgs::OneOrMore);
    push_kwarg(&mut f_kwargs, "PRIVATE", NArgs::OneOrMore);
    push_kwarg(&mut f_kwargs, "INTERFACE", NArgs::OneOrMore);
    let mut f_flags = new_flags();
    let f = CommandForm { pargs: NArgs::Fixed(1), kwargs: f_kwargs, flags: f_flags, layout: None };
    (owned("target_compile_definitions"), CommandSpec::Single(f))
}

/// The built-in spec of `target_compile_options`, as values.
pub open spec fn builtin_target_compile_options_model() -> SpecModel {
    SpecModel::Single(FormModel {
        pargs: NArgs::Fixed(1),
        kwargs: Seq::<(Seq<char>, KwargModel)>::empty()
            .push(("PUBLIC"@, plain_kwarg(NArgs::OneOrMore)))
            .push(("PRIVATE"@, plain_kwarg(NArgs::OneOrMore)))
            .push(("INTERFACE"@, plain_kwarg(NArgs::OneOrMore))),
        flags: Seq::<Seq<char>>::empty().push("BEFORE"@),
        layout: None,
    })
}

/// The built-in spec of `target_compile_options`.
fn builtin_target_compile_options() -> (r: (String, CommandSpec))
    ensures
        r.0@ == "target_compile_options"@,
        spec_model(r.1) == builtin_target_compile_options_model(),
        spec_wf(r.1),
{
    let mut f_kwargs = new_kwargs();
    push_kwarg(&mut f_kwargs, "PUBLIC", NArgs::OneOrMore);
    push_kwarg(&mut f_kwargs, "PRIVATE", NArgs::OneOrMore);
    push_kwarg(&mut f_kwargs, "INTERFACE", NArgs::OneOrMore);
    let mut f_flags = new_flags();
    push_flag(&mut f_flags, "BEFORE");
    let f = CommandForm { pargs: NArgs::Fixed(1), kwargs: f_kwargs, flags: f_flags, layout: None };
    (owned("target_compile_options"), CommandSpec::Single(f))
}

/// The built-in spec of `target_compile_features`, as values.
pub open spec fn builtin_target_compile_features_model() -> SpecModel {
    SpecModel::Single(FormModel {
        pargs: NArgs::Fixed(1),
        kwargs: Seq::<(Seq<char>, KwargModel)>::empty()
            .push(("PUBLIC"@, plain_kwarg(NArgs::OneOrMore)))
            .push(("PRIVATE"@, plain_kwarg(NArgs::OneOrMore)))
            .push(("INTERFACE"@, plain_kwarg(NArgs::OneOrMore))),
        flags: Seq::<Seq<char>>::empty(),
        layout: None,
    })
}

/// The built-in spec of `target_compile_features`.
fn builtin_target_compile_features() -> (r: (String, CommandSpec))
    ensures
        r.0@ == "target_compile_features"@,
        spec_model(r.1) == builtin_target_compile_features_model(),
        spec_wf(r.1),
{
    let mut f_kwargs = new_kwargs();
    push_kwarg(&mut f_kwargs, "PUBLIC", NArgs::OneOrMore);
    push_kwarg(&mut f_kwargs, "PRIVATE", NArgs::OneOrMore);
    push_kwarg(&mut f_kwargs, "INTERFACE", NArgs::OneOrMore);
    let mut f_flags = new_flags();
    let f = CommandForm { pargs: NArgs::Fixed(1), kwargs: f_kwargs, flags: f_flags, layout: None };
    (owned("target_compile_features"), CommandSpec::Single(f))
}

/// The built-in spec of `target_link_options`, as values.
pub open spec fn builtin_target_link_options_model() -> SpecModel {
    SpecModel::Single(FormModel {
        pargs: NArgs::Fixed(1),
        kwargs: Seq::<(Seq<char>, KwargModel)>::empty()
            .push(("PUBLIC"@, plain_kwarg(NArgs::OneOrMore)))
            .push(("PRIVATE"@, plain_kwarg(NArgs::OneOrMore)))
            .push(("INTERFACE"@, plain_kwarg(NArgs::OneOrMore))),
        flags: Seq::<Seq<char>>::empty().push("BEFORE"@),
        layout: None,
    })
}

/// The built-in spec of `target_link_options`.
fn builtin_target_link_options() -> (r: (String, CommandSpec))
    ensures
        r.0@ == "target_link_options"@,
        spec_model(r.1) == builtin_target_link_options_model(),
        spec_wf(r.1),
{
    let mut f_kwargs = new_kwargs();
    push_kwarg(&mut f_kwargs, "PUBLIC", NArgs::OneOrMore);
    push_kwarg(&mut f_kwargs, "PRIVATE", NArgs::OneOrMore);
    push_kwarg(&mut f_kwargs, "INTERFACE", NArgs::OneOrMore);
    let mut f_flags = new_flags();
    push_flag(&mut f_flags, "BEFORE");
    let f = CommandForm { pargs: NArgs::Fixed(1), kwargs: f_kwargs, flags: f_flags, layout: None };
    (owned("target_link_options"), CommandSpec::Single(f))
}

/// The built-in spec of `target_link_directories`, as values.
pub open spec fn builtin_target_link_directories_model() -> SpecModel {
    SpecModel::Single(FormModel {
        pargs: NArgs::Fixed(1),
        kwargs: Seq::<(Seq<char>, KwargModel)>::empty()
            .push(("PUBLIC"@, plain_kwarg(NArgs::OneOrMore)))
            .push(("PRIVATE"@, plain_kwarg(NArgs::OneOrMore)))
            .push(("INTERFACE"@, plain_kwarg(NArgs::OneOrMore))),
        flags: Seq::<Seq<char>>::empty().push("BEFORE"@),
        layout: None,
    })
}

/// The built-in spec of `target_link_directories`.
fn builtin_target_link_directories() -> (r: (String, CommandSpec))
    ensures
        r.0@ == "target_link_directories"@,
        spec_model(r.1) == builtin_target_link_directories_model(),
        spec_wf(r.1),
{
    let mut f_kwargs = new_kwargs();
    push_kwarg(&mut f_kwargs, "PUBLIC", NArgs::OneOrMore);
    push_kwarg(&mut f_kwargs, "PRIVATE", NArgs::OneOrMore);
    push_kwarg(&mut f_kwargs, "INTERFACE", NArgs::OneOrMore);
    let mut f_flags = new_flags();
    push_flag(&mut f_flags, "BEFORE");
    let f = CommandForm { pargs: NArgs::Fixed(1), kwargs: f_kwargs, flags: f_flags, layout: None };
    (owned("target_link_directories"), CommandSpec::Single(f))
}

/// The built-in spec of `target_precompile_headers`, as values.
pub open spec fn builtin_target_precompile_headers_model() -> SpecModel {
    SpecModel::Single(FormModel {
        pargs: NArgs::Fixed(1),
        kwargs: Seq::<(Seq<char>, KwargModel)>::empty()
            .push(("PUBLIC"@, plain_kwarg(NArgs::OneOrMore)))
            .push(("PRIVATE"@, plain_kwarg(NArgs::OneOrMore)))
            .push(("INTERFACE"@, plain_kwarg(NArgs::OneOrMore)))
            .push(("REUSE_FROM"@, plain_kwarg(NArgs::Fixed(1)))),
        flags: Seq::<Seq<char>>::empty(),
        layout: None,
    })
}

/// The built-in spec of `target_precompile_headers`.
fn builtin_target_precompile_headers() -> (r: (String, CommandSpec))
    ensures
        r.0@ == "target_precompile_headers"@,
        spec_model(r.1) == builtin_target_precompile_headers_model(),
        spec_wf(r.1),
{
    let mut f_kwargs = new_kwargs();
    push_kwarg(&mut f_kwargs, "PUBLIC", NArgs::OneOrMore);
    push_kwarg(&mut f_kwargs, "PRIVATE", NArgs::OneOrMore);
    push_kwarg(&mut f_kwargs, "INTERFACE", NArgs::OneOrMore);
    push_kwarg(&mut f_kwargs, "REUSE_FROM", NArgs::Fixed(1));
    let mut f_flags = new_flags();
    let f = CommandForm { pargs: NArgs::Fixed(1), kwargs: f_kwargs, flags: f_flags, layout: None };
    (owned("target_precompile_headers"), CommandSpec::Single(f))
}

/// The built-in spec of `target_sources`, as values.
pub open spec fn builtin_target_sources_model() -> SpecModel {
    SpecModel::Single(FormModel {
        pargs: NArgs::Fixed(1),
        kwargs: Seq::<(Seq<char>, KwargModel)>::empty()
            .push(("PUBLIC"@, plain_kwarg(NArgs::OneOrMore)))
            .push(("PRIVATE"@, plain_kwarg(NArgs::OneOrMore)))
            .push(("INTERFACE"@, plain_kwarg(NArgs::OneOrMore)))
            .push(("FILE_SET"@, plain_kwarg(NArgs::Fixed(1))))
            .push(("TYPE"@, plain_kwarg(NArgs::Fixed(1))))
            .push(("BASE_DIRS"@, plain_kwarg(NArgs::OneOrMore)))
            .push(("FILES"@, plain_kwarg(NArgs::OneOrMore))),
        flags: Seq::<Seq<char>>::empty(),
        layout: None,
    })
}

/// The built-in spec of `target_sources`.
fn builtin_target_sources() -> (r: (String, CommandSpec))
    ensures
        r.0@ == "target_sources"@,
        spec_model(r.1) == builtin_target_sources_model(),
        spec_wf(r.1),
{
    let mut f_kwargs = new_kwargs();
    push_kwarg(&mut f_kwargs, "PUBLIC", NArgs::OneOrMore);
    push_kwarg(&mut f_kwargs, "PRIVATE", NArgs::OneOrMore);
    push_kwarg(&mut f_kwargs, "INTERFACE", NArgs::OneOrMore);
    push_kwarg(&mut f_kwargs, "FILE_SET", NArgs::Fixed(1));
    push_kwarg(&mut f_kwargs, "TYPE", NArgs::Fixed(1));
    push_kwarg(&mut f_kwargs, "BASE_DIRS", NArgs::OneOrMore);
    push_kwarg(&mut f_kwargs, "FILES", NArgs::OneOrMore);
    let mut f_flags = new_flags();
    let f = CommandForm { pargs: NArgs::Fixed(1), kwargs: f_kwargs, flags: f_flags, layout: None };
    (owned("target_sources"), CommandSpec::Single(f))
}

/// The built-in spec of `find_package`, as values.
pub open spec fn builtin_find_package_model() -> SpecModel {
    SpecModel::Single(FormModel {
        pargs: NArgs::ZeroOrMore,
        kwargs: Seq::<(Seq<char>, KwargModel)>::empty()
            .push(("COMPONENTS"@, plain_kwarg(NArgs::OneOrMore)))
            .push(("OPTIONAL_COMPONENTS"@, plain_kwarg(NArgs::OneOrMore)))
            .push(("NAMES"@, plain_kwarg(NArgs::OneOrMore)))
            .push(("CONFIGS"@, plain_kwarg(NArgs::OneOrMore)))
            .push(("HINTS"@, plain_kwarg(NArgs::OneOrMore)))
            .push(("PATHS"@, plain_kwarg(NArgs::OneOrMore)))
            .push(("PATH_SUFFIXES"@, plain_kwarg(NArgs::OneOrMore))),
        flags: Seq::<Seq<char>>::empty().push("EXACT"@).push("QUIET"@).push("REQUIRED"@).push("MODULE"@).push("CONFIG"@).push("NO_MODULE"@).push("NO_POLICY_SCOPE"@).push("GLOBAL"@).push("NO_DEFAULT_PATH"@),
        layout: None,
    })
}

/// The built-in spec of `find_package`.
fn builtin_find_package() -> (r: (String, CommandSpec))
    ensures
        r.0@ == "find_package"@,
        spec_model(r.1) == builtin_find_package_model(),
        spec_wf(r.1),
{
    let mut f_kwargs = new_kwargs();
    push_kwarg(&mut f_kwargs, "COMPONENTS", NArgs::OneOrMore);
    push_kwarg(&mut f_kwargs, "OPTIONAL_COMPONENTS", NArgs::OneOrMore);
    push_kwarg(&mut f_kwargs, "NAMES", NArgs::OneOrMore);
    push_kwarg(&mut f_kwargs, "CONFIGS", NArgs::OneOrMore);
    push_kwarg(&mut f_kwargs, "HINTS", NArgs::OneOrMore);
    push_kwarg(&mut f_kwargs, "PATHS", NArgs::OneOrMore);
    push_kwarg(&mut f_kwargs, "PATH_SUFFIXES", NArgs::OneOrMore);
    let mut f_flags = new_flags();
    push_flag(&mut f_flags, "EXACT");
    push_flag(&mut f_flags, "QUIET");
    push_flag(&mut f_flags, "REQUIRED");
    push_flag(&mut f_flags, "MODULE");
    push_flag(&mut f_flags, "CONFIG");
    push_flag(&mut f_flags, "NO_MODULE");
    push_flag(&mut f_flags, "NO_POLICY_SCOPE");
    push_flag(&mut f_flags, "GLOBAL");
    push_flag(&mut f_flags, "NO_DEFAULT_PATH");
    let f = CommandForm { pargs: NArgs::ZeroOrMore, kwargs: f_kwargs, flags: f_flags, layout: None };
    (owned("find_package"), CommandSpec::Single(f))
}

/// The built-in spec of `find_library`, as values.
pub open spec fn builtin_find_library_model() -> SpecModel {
    SpecModel::Single(FormModel {
        pargs: NArgs::ZeroOrMore,
        kwargs: Seq::<(Seq<char>, KwargModel)>::empty()
            .push(("NAMES"@, plain_kwarg(NArgs::OneOrMore)))
            .push(("HINTS"@, plain_kwarg(NArgs::OneOrMore)))
            .push(("PATHS"@, plain_kwarg(NArgs::OneOrMore)))
            .push(("PATH_SUFFIXES"@, plain_kwarg(NArgs::OneOrMore)))
            .push(("DOC"@, plain_kwarg(NArgs::Fixed(1)))),
        flags: Seq::<Seq<char>>::empty().push("REQUIRED"@).push("NO_DEFAULT_PATH"@).push("NO_CACHE"@),
        layout: None,
    })
}

/// The built-in spec of `find_library`.
fn builtin_find_library() -> (r: (String, CommandSpec))
    ensures
        r.0@ == "find_library"@,
        spec_model(r.1) == builtin_find_library_model(),
        spec_wf(r.1),
{
    let mut f_kwargs = new_kwargs();
    push_kwarg(&mut f_kwargs, "NAMES", NArgs::OneOrMore);
    push_kwarg(&mut f_kwargs, "HINTS", NArgs::OneOrMore);
    push_kwarg(&mut f_kwargs, "PATHS", NArgs::OneOrMore);
    push_kwarg(&mut f_kwargs, "PATH_SUFFIXES", NArgs::OneOrMore);
    push_kwarg(&mut f_kwargs, "DOC", NArgs::Fixed(1));
    let mut f_flags = new_flags();
    push_flag(&mut f_flags, "REQUIRED");
    push_flag(&mut f_flags, "NO_DEFAULT_PATH");
    push_flag(&mut f_flags, "NO_CACHE");
    let f = CommandForm { pargs: NArgs::ZeroOrMore, kwargs: f_kwargs, flags: f_flags, layout: None };
    (owned("find_library"), CommandSpec::Single(f))
}

/// The built-in spec of `find_path`, as values.
pub open spec fn builtin_find_path_model() -> SpecModel {
    SpecModel::Single(FormModel {
        pargs: NArgs::ZeroOrMore,
        kwargs: Seq::<(Seq<char>, KwargModel)>::empty()
            .push(("NAMES"@, plain_kwarg(NArgs::OneOrMore)))
            .push(("HINTS"@, plain_kwarg(NArgs::OneOrMore)))
            .push(("PATHS"@, plain_kwarg(NArgs::OneOrMore)))
            .push(("PATH_SUFFIXES"@, plain_kwarg(NArgs::OneOrMore)))
            .push(("DOC"@, plain_kwarg(NArgs::Fixed(1)))),
        flags: Seq::<Seq<char>>::empty().push("REQUIRED"@).push("NO_DEFAULT_PATH"@).push("NO_CACHE"@),
        layout: None,
    })
}

/// The built-in spec of `find_path`.
fn builtin_find_path() -> (r: (String, CommandSpec))
    ensures
        r.0@ == "find_path"@,
        spec_model(r.1) == builtin_find_path_model(),
        spec_wf(r.1),
{
    let mut f_kwargs = new_kwargs();
    push_kwarg(&mut f_kwargs, "NAMES", NArgs::OneOrMore);
    push_kwarg(&mut f_kwargs, "HINTS", NArgs::OneOrMore);
    push_kwarg(&mut f_kwargs, "PATHS", NArgs::OneOrMore);
    push_kwarg(&mut f_kwargs, "PATH_SUFFIXES", NArgs::OneOrMore);
    push_kwarg(&mut f_kwargs, "DOC", NArgs::Fixed(1));
    let mut f_flags = new_flags();
    push_flag(&mut f_flags, "REQUIRED");
    push_flag(&mut f_flags, "NO_DEFAULT_PATH");
    push_flag(&mut f_flags, "NO_CACHE");
    let f = CommandForm { pargs: NArgs::ZeroOrMore, kwargs: f_kwargs, flags: f_flags, layout: None };
    (owned("find_path"), CommandSpec::Single(f))
}

/// The built-in spec of `find_program`, as values.
pub open spec fn builtin_find_program_model() -> SpecModel {
    SpecModel::Single(FormModel {
        pargs: NArgs::ZeroOrMore,
        kwargs: Seq::<(Seq<char>, KwargModel)>::empty()
            .push(("NAMES"@, plain_kwarg(NArgs::OneOrMore)))
            .push(("HINTS"@, plain_kwarg(NArgs::OneOrMore)))
            .push(("PATHS"@, plain_kwarg(NArgs::OneOrMore)))
            .push(("PATH_SUFFIXES"@, plain_kwarg(NArgs::OneOrMore)))
            .push(("DOC"@, plain_kwarg(NArgs::Fixed(1)))),
        flags: Seq::<Seq<char>>::empty().push("REQUIRED"@).push("NO_DEFAULT_PATH"@).push("NO_CACHE"@),
        layout: None,
    })
}

/// The built-in spec of `find_program`.
fn builtin_find_program() -> (r: (String, CommandSpec))
    ensures
        r.0@ == "find_program"@,
        spec_model(r.1) == builtin_find_program_model(),
        spec_wf(r.1),
{
    let mut f_kwargs = new_kwargs();
    push_kwarg(&mut f_kwargs, "NAMES", NArgs::OneOrMore);
    push_kwarg(&mut f_kwargs, "HINTS", NArgs::OneOrMore);
    push_kwarg(&mut f_kwargs, "PATHS", NArgs::OneOrMore);
    push_kwarg(&mut f_kwargs, "PATH_SUFFIXES", NArgs::OneOrMore);
    push_kwarg(&mut f_kwargs, "DOC", NArgs::Fixed(1));
    let mut f_flags = new_flags();
    push_flag(&mut f_flags, "REQUIRED");
    push_flag(&mut f_flags, "NO_DEFAULT_PATH");
    push_flag(&mut f_flags, "NO_CACHE");
    let f = CommandForm { pargs: NArgs::ZeroOrMore, kwargs: f_kwargs, flags: f_flags, layout: None };
    (owned("find_program"), CommandSpec::Single(f))
}

/// The built-in spec of `set`, as values.
pub open spec fn builtin_set_model() -> SpecModel {
    SpecModel::Single(FormModel {
        pargs: NArgs::ZeroOrMore,
        kwargs: Seq::<(Seq<char>, KwargModel)>::empty()
            .push(("CACHE"@, plain_kwarg(NArgs::OneOrMore))),
        flags: Seq::<Seq<char>>::empty().push("PARENT_SCOPE"@).push("FORCE"@),
        layout: None,
    })
}

/// The built-in spec of `set`.
fn builtin_set() -> (r: (String, CommandSpec))
    ensures
        r.0@ == "set"@,
        spec_model(r.1) == builtin_set_model(),
        spec_wf(r.1),
{
    let mut f_kwargs = new_kwargs();
    push_kwarg(&mut f_kwargs, "CACHE", NArgs::OneOrMore);
    let mut f_flags = new_flags();
    push_flag(&mut f_flags, "PARENT_SCOPE");
    push_flag(&mut f_flags, "FORCE");
    let f = CommandForm { pargs: NArgs::ZeroOrMore, kwargs: f_kwargs, flags: f_flags, layout: None };
    (owned("set"), CommandSpec::Single(f))
}

/// The built-in spec of `unset`, as values.
pub open spec fn builtin_unset_model() -> SpecModel {
    SpecModel::Single(FormModel {
        pargs: NArgs::Fixed(1),
        kwargs: Seq::<(Seq<char>, KwargModel)>::empty(),
        flags: Seq::<Seq<char>>::empty().push("CACHE"@).push("PARENT_SCOPE"@),
        layout: None,
    })
}

/// The built-in spec of `unset`.
fn builtin_unset() -> (r: (String, CommandSpec))
    ensures
        r.0@ == "unset"@,
        spec_model(r.1) == builtin_unset_model(),
        spec_wf(r.1),
{
    let mut f_kwargs = new_kwargs();
    let mut f_flags = new_flags();
    push_flag(&mut f_flags, "CACHE");
    push_flag(&mut f_flags, "PARENT_SCOPE");
    let f = CommandForm { pargs: NArgs::Fixed(1), kwargs: f_kwargs, flags: f_flags, layout: None };
    (owned("unset"), CommandSpec::Single(f))
}

/// The built-in spec of `option`, as values.
pub open spec fn builtin_option_model() -> SpecModel {
    SpecModel::Single(FormModel {
        pargs: NArgs::ZeroOrMore,
        kwargs: Seq::<(Seq<char>, KwargModel)>::empty(),
        flags: Seq::<Seq<char>>::empty(),
        layout: None,
    })
}

/// The built-in spec of `option`.
fn builtin_option() -> (r: (String, CommandSpec))
    ensures
        r.0@ == "option"@,
        spec_model(r.1) == builtin_option_model(),
        spec_wf(r.1),
{
    let mut f_kwargs = new_kwargs();
    let mut f_flags = new_flags();
    let f = CommandForm { pargs: NArgs::ZeroOrMore, kwargs: f_kwargs, flags: f_flags, layout: None };
    (owned("option"), CommandSpec::Single(f))
}

/// The built-in spec of `message`, as values.
pub open spec fn builtin_message_model() -> SpecModel {
    SpecModel::Single(FormModel {
        pargs: NArgs::ZeroOrMore,
        kwargs: Seq::<(Seq<char>, KwargModel)>::empty(),
        flags: Seq::<Seq<char>>::empty().push("FATAL_ERROR"@).push("SEND_ERROR"@).push("WARNING"@).push("AUTHOR_WARNING"@).push("DEPRECATION"@).push("NOTICE"@).push("STATUS"@).push("VERBOSE"@).push("DEBUG"@).push("TRACE"@).push("CHECK_START"@).push("CHECK_PASS"@).push("CHECK_FAIL"@).push("CONFIGURE_LOG"@),
        layout: None,
    })
}

/// The built-in spec of `message`.
fn builtin_message() -> (r: (String, CommandSpec))
    ensures
        r.0@ == "message"@,
        spec_model(r.1) == builtin_message_model(),
        spec_wf(r.1),
{
    let mut f_kwargs = new_kwargs();
    let mut f_flags = new_flags();
    push_flag(&mut f_flags, "FATAL_ERROR");
    push_flag(&mut f_flags, "SEND_ERROR");
    push_flag(&mut f_flags, "WARNING");
    push_flag(&mut f_flags, "AUTHOR_WARNING");
    push_flag(&mut f_flags, "DEPRECATION");
    push_flag(&mut f_flags, "NOTICE");
    push_flag(&mut f_flags, "STATUS");
    push_flag(&mut f_flags, "VERBOSE");
    push_flag(&mut f_flags, "DEBUG");
    push_flag(&mut f_flags, "TRACE");
    push_flag(&mut f_flags, "CHECK_START");
    push_flag(&mut f_flags, "CHECK_PASS");
    push_flag(&mut f_flags, "CHECK_FAIL");
    push_flag(&mut f_flags, "CONFIGURE_LOG");
    let f = CommandForm { pargs: NArgs::ZeroOrMore, kwargs: f_kwargs, flags: f_flags, layout: None };
    (owned("message"), CommandSpec::Single(f))
}

/// The built-in spec of `include`, as values.
pub open spec fn builtin_include_model() -> SpecModel {
    SpecModel::Single(FormModel {
        pargs: NArgs::Fixed(1),
        kwargs: Seq::<(Seq<char>, KwargModel)>::empty()
            .push(("RESULT_VARIABLE"@, plain_kwarg(NArgs::Fixed(1)))),
        flags: Seq::<Seq<char>>::empty().push("OPTIONAL"@).push("NO_POLICY_SCOPE"@),
        layout: None,
    })
}

/// The built-in spec of `include`.
fn builtin_include() -> (r: (String, CommandSpec))
    ensures
        r.0@ == "include"@,
        spec_model(r.1) == builtin_include_model(),
        spec_wf(r.1),
{
    let mut f_kwargs = new_kwargs();
    push_kwarg(&mut f_kwargs, "RESULT_VARIABLE", NArgs::Fixed(1));
    let mut f_flags = new_flags();
    push_flag(&mut f_flags, "OPTIONAL");
    push_flag(&mut f_flags, "NO_POLICY_SCOPE");
    let f = CommandForm { pargs: NArgs::Fixed(1), kwargs: f_kwargs, flags: f_flags, layout: None };
    (owned("include"), CommandSpec::Single(f))
}

/// The built-in spec of `include_directories`, as values.
pub open spec fn builtin_include_directories_model() -> SpecModel {
    SpecModel::Single(FormModel {
        pargs: NArgs::ZeroOrMore,
        kwargs: Seq::<(Seq<char>, KwargModel)>::empty(),
        flags: Seq::<Seq<char>>::empty().push("AFTER"@).push("BEFORE"@).push("SYSTEM"@),
        layout: None,
    })
}

/// The built-in spec of `include_directories`.
fn builtin_include_directories() -> (r: (String, CommandSpec))
    ensures
        r.0@ == "include_directories"@,
        spec_model(r.1) == builtin_include_directories_model(),
        spec_wf(r.1),
{
    let mut f_kwargs = new_kwargs();
    let mut f_flags = new_flags();
    push_flag(&mut f_flags, "AFTER");
    push_flag(&mut f_flags, "BEFORE");
    push_flag(&mut f_flags, "SYSTEM");
    let f = CommandForm { pargs: NArgs::ZeroOrMore, kwargs: f_kwargs, flags: f_flags, layout: None };
    (owned("include_directories"), CommandSpec::Single(f))
}

/// The built-in spec of `add_definitions`, as values.
pub open spec fn builtin_add_definitions_model() -> SpecModel {
    SpecModel::Single(FormModel {
        pargs: NArgs::ZeroOrMore,
        kwargs: Seq::<(Seq<char>, KwargModel)>::empty(),
        flags: Seq::<Seq<char>>::empty(),
        layout: None,
    })
}

/// The built-in spec of `add_definitions`.
fn builtin_add_definitions() -> (r: (String, CommandSpec))
    ensures
        r.0@ == "add_definitions"@,
        spec_model(r.1) == builtin_add_definitions_model(),
        spec_wf(r.1),
{
    let mut f_kwargs = new_kwargs();
    let mut f_flags = new_flags();
    let f = CommandForm { pargs: NArgs::ZeroOrMore, kwargs: f_kwargs, flags: f_flags, layout: None };
    (owned("add_definitions"), CommandSpec::Single(f))
}

/// The built-in spec of `add_compile_options`, as values.
pub open spec fn builtin_add_compile_options_model() -> SpecModel {
    SpecModel::Single(FormModel {
        pargs: NArgs::ZeroOrMore,
        kwargs: Seq::<(Seq<char>, KwargModel)>::empty(),
        flags: Seq::<Seq<char>>::empty(),
        layout: None,
    })
}

/// The built-in spec of `add_compile_options`.
fn builtin_add_compile_options() -> (r: (String, CommandSpec))
    ensures
        r.0@ == "add_compile_options"@,
        spec_model(r.1) == builtin_add_compile_options_model(),
        spec_wf(r.1),
{
    let mut f_kwargs = new_kwargs();
    let mut f_flags = new_flags();
    let f = CommandForm { pargs: NArgs::ZeroOrMore, kwargs: f_kwargs, flags: f_flags, layout: None };
    (owned("add_compile_options"), CommandSpec::Single(f))
}

/// The built-in spec of `add_dependencies`, as values.
pub open spec fn builtin_add_dependencies_model() -> SpecModel {
    SpecModel::Single(FormModel {
        pargs: NArgs::Fixed(1),
        kwargs: Seq::<(Seq<char>, KwargModel)>::empty(),
        flags: Seq::<Seq<char>>::empty(),
        layout: None,
    })
}

/// The built-in spec of `add_dependencies`.
fn builtin_add_dependencies() -> (r: (String, CommandSpec))
    ensures
        r.0@ == "add_dependencies"@,
        spec_model(r.1) == builtin_add_dependencies_model(),
        spec_wf(r.1),
{
    let mut f_kwargs = new_kwargs();
    let mut f_flags = new_flags();
    let f = CommandForm { pargs: NArgs::Fixed(1), kwargs: f_kwargs, flags: f_flags, layout: None };
    (owned("add_dependencies"), CommandSpec::Single(f))
}

/// The built-in spec of `set_target_properties`, as values.
pub open spec fn builtin_set_target_properties_model() -> SpecModel {
    SpecModel::Single(FormModel {
        pargs: NArgs::ZeroOrMore,
        kwargs: Seq::<(Seq<char>, KwargModel)>::empty()
            .push(("PROPERTIES"@, plain_kwarg(NArgs::OneOrMore))),
        flags: Seq::<Seq<char>>::empty(),
        layout: None,
    })
}

/// The built-in spec of `set_target_properties`.
fn builtin_set_target_properties() -> (r: (String, CommandSpec))
    ensures
        r.0@ == "set_target_properties"@,
        spec_model(r.1) == builtin_set_target_properties_model(),
        spec_wf(r.1),
{
    let mut f_kwargs = new_kwargs();
    push_kwarg(&mut f_kwargs, "PROPERTIES", NArgs::OneOrMore);
    let mut f_flags = new_flags();
    let f = CommandForm { pargs: NArgs::ZeroOrMore, kwargs: f_kwargs, flags: f_flags, layout: None };
    (owned("set_target_properties"), CommandSpec::Single(f))
}

/// The built-in spec of `set_property`, as values.
pub open spec fn builtin_set_property_model() -> SpecModel {
    SpecModel::Single(FormModel {
        pargs: NArgs::ZeroOrMore,
        kwargs: Seq::<(Seq<char>, KwargModel)>::empty()
            .push(("TARGET"@, plain_kwarg(NArgs::ZeroOrMore)))
            .push(("SOURCE"@, plain_kwarg(NArgs::ZeroOrMore)))
            .push(("DIRECTORY"@, plain_kwarg(NArgs::ZeroOrMore)))
            .push(("TEST"@, plain_kwarg(NArgs::ZeroOrMore)))
            .push(("CACHE"@, plain_kwarg(NArgs::ZeroOrMore)))
            .push(("PROPERTY"@, plain_kwarg(NArgs::OneOrMore))),
        flags: Seq::<Seq<char>>::empty().push("GLOBAL"@).push("APPEND"@).push("APPEND_STRING"@),
        layout: None,
    })
}

/// The built-in spec of `set_property`.
fn builtin_set_property() -> (r: (String, CommandSpec))
    ensures
        r.0@ == "set_property"@,
        spec_model(r.1) == builtin_set_property_model(),
        spec_wf(r.1),
{
    let mut f_kwargs = new_kwargs();
    push_kwarg(&mut f_kwargs, "TARGET", NArgs::ZeroOrMore);
    push_kwarg(&mut f_kwargs, "SOURCE", NArgs::ZeroOrMore);
    push_kwarg(&mut f_kwargs, "DIRECTORY", NArgs::ZeroOrMore);
    push_kwarg(&mut f_kwargs, "TEST", NArgs::ZeroOrMore);
    push_kwarg(&mut f_kwargs, "CACHE", NArgs::ZeroOrMore);
    push_kwarg(&mut f_kwargs, "PROPERTY", NArgs::OneOrMore);
    let mut f_flags = new_flags();
    push_flag(&mut f_flags, "GLOBAL");
    push_flag(&mut f_flags, "APPEND");
    push_flag(&mut f_flags, "APPEND_STRING");
    let f = CommandForm { pargs: NArgs::ZeroOrMore, kwargs: f_kwargs, flags: f_flags, layout: None };
    (owned("set_property"), CommandSpec::Single(f))
}

/// The built-in spec of `get_target_property`, as values.
pub open spec fn builtin_get_target_property_model() -> SpecModel {
    SpecModel::Single(FormModel {
        pargs: NArgs::Fixed(3),
        kwargs: Seq::<(Seq<char>, KwargModel)>::empty(),
        flags: Seq::<Seq<char>>::empty(),
        layout: None,
    })
}

/// The built-in spec of `get_target_property`.
fn builtin_get_target_property() -> (r: (String, CommandSpec))
    ensures
        r.0@ == "get_target_property"@,
        spec_model(r.1) == builtin_get_target_property_model(),
        spec_wf(r.1),
{
    let mut f_kwargs = new_kwargs();
    let mut f_flags = new_flags();
    let f = CommandForm { pargs: NArgs::Fixed(3), kwargs: f_kwargs, flags: f_flags, layout: None };
    (owned("get_target_property"), CommandSpec::Single(f))
}

/// The built-in spec of `add_custom_command`, as values.
pub open spec fn builtin_add_custom_command_model() -> SpecModel {
    SpecModel::Single(FormModel {
        pargs: NArgs::ZeroOrMore,
        kwargs: Seq::<(Seq<char>, KwargModel)>::empty()
            .push(("OUTPUT"@, plain_kwarg(NArgs::OneOrMore)))
            .push(("COMMAND"@, plain_kwarg(NArgs::OneOrMore)))
            .push(("MAIN_DEPENDENCY"@, plain_kwarg(NArgs::Fixed(1))))
            .push(("DEPENDS"@, plain_kwarg(NArgs::OneOrMore)))
            .push(("BYPRODUCTS"@, plain_kwarg(NArgs::OneOrMore)))
            .push(("WORKING_DIRECTORY"@, plain_kwarg(NArgs::Fixed(1))))
            .push(("COMMENT"@, plain_kwarg(NArgs::Fixed(1))))
            .push(("TARGET"@, plain_kwarg(NArgs::Fixed(1))))
            .push(("DEPFILE"@, plain_kwarg(NArgs::Fixed(1)))),
        flags: Seq::<Seq<char>>::empty().push("PRE_BUILD"@).push("PRE_LINK"@).push("POST_BUILD"@).push("VERBATIM"@).push("APPEND"@).push("USES_TERMINAL"@).push("COMMAND_EXPAND_LISTS"@),
        layout: None,
    })
}

/// The built-in spec of `add_custom_command`.
fn builtin_add_custom_command() -> (r: (String, CommandSpec))
    ensures
        r.0@ == "add_custom_command"@,
        spec_model(r.1) == builtin_add_custom_command_model(),
        spec_wf(r.1),
{
    let mut f_kwargs = new_kwargs();
    push_kwarg(&mut f_kwargs, "OUTPUT", NArgs::OneOrMore);
    push_kwarg(&mut f_kwargs, "COMMAND", NArgs::OneOrMore);
    push_kwarg(&mut f_kwargs, "MAIN_DEPENDENCY", NArgs::Fixed(1));
    push_kwarg(&mut f_kwargs, "DEPENDS", NArgs::OneOrMore);
    push_kwarg(&mut f_kwargs, "BYPRODUCTS", NArgs::OneOrMore);
    push_kwarg(&mut f_kwargs, "WORKING_DIRECTORY", NArgs::Fixed(1));
    push_kwarg(&mut f_kwargs, "COMMENT", NArgs::Fixed(1));
    push_kwarg(&mut f_kwargs, "TARGET", NArgs::Fixed(1));
    push_kwarg(&mut f_kwargs, "DEPFILE", NArgs::Fixed(1));
    let mut f_flags = new_flags();
    push_flag(&mut f_flags, "PRE_BUILD");
    push_flag(&mut f_flags, "PRE_LINK");
    push_flag(&mut f_flags, "POST_BUILD");
    push_flag(&mut f_flags, "VERBATIM");
    push_flag(&mut f_flags, "APPEND");
    push_flag(&mut f_flags, "USES_TERMINAL");
    push_flag(&mut f_flags, "COMMAND_EXPAND_LISTS");
    let f = CommandForm { pargs: NArgs::ZeroOrMore, kwargs: f_kwargs, flags: f_flags, layout: None };
    (owned("add_custom_command"), CommandSpec::Single(f))
}

/// The built-in spec of `add_custom_target`, as values.
pub open spec fn builtin_add_custom_target_model() -> SpecModel {
    SpecModel::Single(FormModel {
        pargs: NArgs::Fixed(1),
        kwargs: Seq::<(Seq<char>, KwargModel)>::empty()
            .push(("COMMAND"@, plain_kwarg(NArgs::OneOrMore)))
            .push(("DEPENDS"@, plain_kwarg(NArgs::OneOrMore)))
            .push(("BYPRODUCTS"@, plain_kwarg(NArgs::OneOrMore)))
            .push(("WORKING_DIRECTORY"@, plain_kwarg(NArgs::Fixed(1))))
            .push(("COMMENT"@, plain_kwarg(NArgs::Fixed(1))))
            .push(("SOURCES"@, plain_kwarg(NArgs::OneOrMore))),
        flags: Seq::<Seq<char>>::empty().push("ALL"@).push("VERBATIM"@).push("USES_TERMINAL"@).push("COMMAND_EXPAND_LISTS"@),
        layout: None,
    })
}

/// The built-in spec of `add_custom_target`.
fn builtin_add_custom_target() -> (r: (String, CommandSpec))
    ensures
        r.0@ == "add_custom_target"@,
        spec_model(r.1) == builtin_add_custom_target_model(),
        spec_wf(r.1),
{
    let mut f_kwargs = new_kwargs();
    push_kwarg(&mut f_kwargs, "COMMAND", NArgs::OneOrMore);
    push_kwarg(&mut f_kwargs, "DEPENDS", NArgs::OneOrMore);
    push_kwarg(&mut f_kwargs, "BYPRODUCTS", NArgs::OneOrMore);
    push_kwarg(&mut f_kwargs, "WORKING_DIRECTORY", NArgs::Fixed(1));
    push_kwarg(&mut f_kwargs, "COMMENT", NArgs::Fixed(1));
    push_kwarg(&mut f_kwargs, "SOURCES", NArgs::OneOrMore);
    let mut f_flags = new_flags();
    push_flag(&mut f_flags, "ALL");
    push_flag(&mut f_flags, "VERBATIM");
    push_flag(&mut f_flags, "USES_TERMINAL");
    push_flag(&mut f_flags, "COMMAND_EXPAND_LISTS");
    let f = CommandForm { pargs: NArgs::Fixed(1), kwargs: f_kwargs, flags: f_flags, layout: None };
    (owned("add_custom_target"), CommandSpec::Single(f))
}

/// The built-in spec of `add_test`, as values.
pub open spec fn builtin_add_test_model() -> SpecModel {
    SpecModel::Single(FormModel {
        pargs: NArgs::ZeroOrMore,
        kwargs: Seq::<(Seq<char>, KwargModel)>::empty()
            .push(("NAME"@, plain_kwarg(NArgs::Fixed(1))))
            .push(("COMMAND"@, plain_kwarg(NArgs::OneOrMore)))
            .push(("CONFIGURATIONS"@, plain_kwarg(NArgs::OneOrMore)))
            .push(("WORKING_DIRECTORY"@, plain_kwarg(NArgs::Fixed(1)))),
        flags: Seq::<Seq<char>>::empty().push("COMMAND_EXPAND_LISTS"@),
        layout: None,
    })
}

/// The built-in spec of `add_test`.
fn builtin_add_test() -> (r: (String, CommandSpec))
    ensures
        r.0@ == "add_test"@,
        spec_model(r.1) == builtin_add_test_model(),
        spec_wf(r.1),
{
    let mut f_kwargs = new_kwargs();
    push_kwarg(&mut f_kwargs, "NAME", NArgs::Fixed(1));
    push_kwarg(&mut f_kwargs, "COMMAND", NArgs::OneOrMore);
    push_kwarg(&mut f_kwargs, "CONFIGURATIONS", NArgs::OneOrMore);
    push_kwarg(&mut f_kwargs, "WORKING_DIRECTORY", NArgs::Fixed(1));
    let mut f_flags = new_flags();
    push_flag(&mut f_flags, "COMMAND_EXPAND_LISTS");
    let f = CommandForm { pargs: NArgs::ZeroOrMore, kwargs: f_kwargs, flags: f_flags, layout: None };
    (owned("add_test"), CommandSpec::Single(f))
}

/// The built-in spec of `configure_file`, as values.
pub open spec fn builtin_configure_file_model() -> SpecModel {
    SpecModel::Single(FormModel {
        pargs: NArgs::Fixed(2),
        kwargs: Seq::<(Seq<char>, KwargModel)>::empty()
            .push(("NEWLINE_STYLE"@, plain_kwarg(NArgs::Fixed(1)))),
        flags: Seq::<Seq<char>>::empty().push("COPYONLY"@).push("ESCAPE_QUOTES"@).push("NO_SOURCE_PERMISSIONS"@).push("USE_SOURCE_PERMISSIONS"@),
        layout: None,
    })
}

/// The built-in spec of `configure_file`.
fn builtin_configure_file() -> (r: (String, CommandSpec))
    ensures
        r.0@ == "configure_file"@,
        spec_model(r.1) == builtin_configure_file_model(),
        spec_wf(r.1),
{
    let mut f_kwargs = new_kwargs();
    push_kwarg(&mut f_kwargs, "NEWLINE_STYLE", NArgs::Fixed(1));
    let mut f_flags = new_flags();
    push_flag(&mut f_flags, "COPYONLY");
    push_flag(&mut f_flags, "ESCAPE_QUOTES");
    push_flag(&mut f_flags, "NO_SOURCE_PERMISSIONS");
    push_flag(&mut f_flags, "USE_SOURCE_PERMISSIONS");
    let f = CommandForm { pargs: NArgs::Fixed(2), kwargs: f_kwargs, flags: f_flags, layout: None };
    (owned("configure_file"), CommandSpec::Single(f))
}

/// The built-in spec of `foreach`, as values.
pub open spec fn builtin_foreach_model() -> SpecModel {
    SpecModel::Single(FormModel {
        pargs: NArgs::Fixed(1),
        kwargs: Seq::<(Seq<char>, KwargModel)>::empty()
            .push(("LISTS"@, plain_kwarg(NArgs::ZeroOrMore)))
            .push(("ITEMS"@, plain_kwarg(NArgs::ZeroOrMore)))
            .push(("ZIP_LISTS"@, plain_kwarg(NArgs::ZeroOrMore))),
        flags: Seq::<Seq<char>>::empty().push("IN"@).push("RANGE"@),
        layout: None,
    })
}

/// The built-in spec of `foreach`.
fn builtin_foreach() -> (r: (String, CommandSpec))
    ensures
        r.0@ == "foreach"@,
        spec_model(r.1) == builtin_foreach_model(),
        spec_wf(r.1),
{
    let mut f_kwargs = new_kwargs();
    push_kwarg(&mut f_kwargs, "LISTS", NArgs::ZeroOrMore);
    push_kwarg(&mut f_kwargs, "ITEMS", NArgs::ZeroOrMore);
    push_kwarg(&mut f_kwargs, "ZIP_LISTS", NArgs::ZeroOrMore);
    let mut f_flags = new_flags();
    push_flag(&mut f_flags, "IN");
    push_flag(&mut f_flags, "RANGE");
    let f = CommandForm { pargs: NArgs::Fixed(1), kwargs: f_kwargs, flags: f_flags, layout: None };
    (owned("foreach"), CommandSpec::Single(f))
}

/// The built-in spec of `function`, as values.
pub open spec fn builtin_function_model() -> SpecModel {
    SpecModel::Single(FormModel {
        pargs: NArgs::OneOrMore,
        kwargs: Seq::<(Seq<char>, KwargModel)>::empty(),
        flags: Seq::<Seq<char>>::empty(),
        layout: None,
    })
}

/// The built-in spec of `function`.
fn builtin_function() -> (r: (String, CommandSpec))
    ensures
        r.0@ == "function"@,
        spec_model(r.1) == builtin_function_model(),
        spec_wf(r.1),
{
    let mut f_kwargs = new_kwargs();
    let mut f_flags = new_flags();
    let f = CommandForm { pargs: NArgs::OneOrMore, kwargs: f_kwargs, flags: f_flags, layout: None };
    (owned("function"), CommandSpec::Single(f))
}

/// The built-in spec of `macro`, as values.
pub open spec fn builtin_macro_model() -> SpecModel {
    SpecModel::Single(FormModel {
        pargs: NArgs::OneOrMore,
        kwargs: Seq::<(Seq<char>, KwargModel)>::empty(),
        flags: Seq::<Seq<char>>::empty(),
        layout: None,
    })
}

/// The built-in spec of `macro`.
fn builtin_macro() -> (r: (String, CommandSpec))
    ensures
        r.0@ == "macro"@,
        spec_model(r.1) == builtin_macro_model(),
        spec_wf(r.1),
{
    let mut f_kwargs = new_kwargs();
    let mut f_flags = new_flags();
    let f = CommandForm { pargs: NArgs::OneOrMore, kwargs: f_kwargs, flags: f_flags, layout: None };
    (owned("macro"), CommandSpec::Single(f))
}

/// The built-in spec of `if`, as values.
pub open spec fn builtin_if_model() -> SpecModel {
    SpecModel::Single(FormModel {
        pargs: NArgs::ZeroOrMore,
        kwargs: Seq::<(Seq<char>, KwargModel)>::empty(),
        flags: Seq::<Seq<char>>::empty(),
        layout: None,
    })
}

/// The built-in spec of `if`.
fn builtin_if() -> (r: (String, CommandSpec))
    ensures
        r.0@ == "if"@,
        spec_model(r.1) == builtin_if_model(),
        spec_wf(r.1),
{
    let mut f_kwargs = new_kwargs();
    let mut f_flags = new_flags();
    let f = CommandForm { pargs: NArgs::ZeroOrMore, kwargs: f_kwargs, flags: f_flags, layout: None };
    (owned("if"), CommandSpec::Single(f))
}

/// The built-in spec of `elseif`, as values.
pub open spec fn builtin_elseif_model() -> SpecModel {
    SpecModel::Single(FormModel {
        pargs: NArgs::ZeroOrMore,
        kwargs: Seq::<(Seq<char>, KwargModel)>::empty(),
        flags: Seq::<Seq<char>>::empty(),
        layout: None,
    })
}

/// The built-in spec of `elseif`.
fn builtin_elseif() -> (r: (String, CommandSpec))
    ensures
        r.0@ == "elseif"@,
        spec_model(r.1) == builtin_elseif_model(),
        spec_wf(r.1),
{
    let mut f_kwargs = new_kwargs();
    let mut f_flags = new_flags();
    let f = CommandForm { pargs: NArgs::ZeroOrMore, kwargs: f_kwargs, flags: f_flags, layout: None };
    (owned("elseif"), CommandSpec::Single(f))
}

/// The built-in spec of `else`, as values.
pub open spec fn builtin_else_model() -> SpecModel {
    SpecModel::Single(FormModel {
        pargs: NArgs::ZeroOrMore,
        kwargs: Seq::<(Seq<char>, KwargModel)>::empty(),
        flags: Seq::<Seq<char>>::empty(),
        layout: None,
    })
}

/// The built-in spec of `else`.
fn builtin_else() -> (r: (String, CommandSpec))
    ensures
        r.0@ == "else"@,
        spec_model(r.1) == builtin_else_model(),
        spec_wf(r.1),
{
    let mut f_kwargs = new_kwargs();
    let mut f_flags = new_flags();
    let f = CommandForm { pargs: NArgs::ZeroOrMore, kwargs: f_kwargs, flags: f_flags, layout: None };
    (owned("else"), CommandSpec::Single(f))
}

/// The built-in spec of `endif`, as values.
pub open spec fn builtin_endif_model() -> SpecModel {
    SpecModel::Single(FormModel {
        pargs: NArgs::ZeroOrMore,
        kwargs: Seq::<(Seq<char>, KwargModel)>::empty(),
        flags: Seq::<Seq<char>>::empty(),
        layout: None,
    })
}

/// The built-in spec of `endif`.
fn builtin_endif() -> (r: (String, CommandSpec))
    ensures
        r.0@ == "endif"@,
        spec_model(r.1) == builtin_endif_model(),
        spec_wf(r.1),
{
    let mut f_kwargs = new_kwargs();
    let mut f_flags = new_flags();
    let f = CommandForm { pargs: NArgs::ZeroOrMore, kwargs: f_kwargs, flags: f_flags, layout: None };
    (owned("endif"), CommandSpec::Single(f))
}

/// The built-in spec of `while`, as values.
pub open spec fn builtin_while_model() -> SpecModel {
    SpecModel::Single(FormModel {
        pargs: NArgs::ZeroOrMore,
        kwargs: Seq::<(Seq<char>, KwargModel)>::empty(),
        flags: Seq::<Seq<char>>::empty(),
        layout: None,
    })
}

/// The built-in spec of `while`.
fn builtin_while() -> (r: (String, CommandSpec))
    ensures
        r.0@ == "while"@,
        spec_model(r.1) == builtin_while_model(),
        spec_wf(r.1),
{
    let mut f_kwargs = new_kwargs();
    let mut f_flags = new_flags();
    let f = CommandForm { pargs: NArgs::ZeroOrMore, kwargs: f_kwargs, flags: f_flags, layout: None };
    (owned("while"), CommandSpec::Single(f))
}

/// The built-in spec of `endwhile`, as values.
pub open spec fn builtin_endwhile_model() -> SpecModel {
    SpecModel::Single(FormModel {
        pargs: NArgs::ZeroOrMore,
        kwargs: Seq::<(Seq<char>, KwargModel)>::empty(),
        flags: Seq::<Seq<char>>::empty(),
        layout: None,
    })
}

/// The built-in spec of `endwhile`.
fn builtin_endwhile() -> (r: (String, CommandSpec))
    ensures
        r.0@ == "endwhile"@,
        spec_model(r.1) == builtin_endwhile_model(),
        spec_wf(r.1),
{
    let mut f_kwargs = new_kwargs();
    let mut f_flags = new_flags();
    let f = CommandForm { pargs: NArgs::ZeroOrMore, kwargs: f_kwargs, flags: f_flags, layout: None };
    (owned("endwhile"), CommandSpec::Single(f))
}

/// The built-in spec of `endforeach`, as values.
pub open spec fn builtin_endforeach_model() -> SpecModel {
    SpecModel::Single(FormModel {
        pargs: NArgs::ZeroOrMore,
        kwargs: Seq::<(Seq<char>, KwargModel)>::empty(),
        flags: Seq::<Seq<char>>::empty(),
        layout: None,
    })
}

/// The built-in spec of `endforeach`.
fn builtin_endforeach() -> (r: (String, CommandSpec))
    ensures
        r.0@ == "endforeach"@,
        spec_model(r.1) == builtin_endforeach_model(),
        spec_wf(r.1),
{
    let mut f_kwargs = new_kwargs();
    let mut f_flags = new_flags();
    let f = CommandForm { pargs: NArgs::ZeroOrMore, kwargs: f_kwargs, flags: f_flags, layout: None };
    (owned("endforeach"), CommandSpec::Single(f))
}

/// The built-in spec of `endfunction`, as values.
pub open spec fn builtin_endfunction_model() -> SpecModel {
    SpecModel::Single(FormModel {
        pargs: NArgs::ZeroOrMore,
        kwargs: Seq::<(Seq<char>, KwargModel)>::empty(),
        flags: Seq::<Seq<char>>::empty(),
        layout: None,
    })
}

/// The built-in spec of `endfunction`.
fn builtin_endfunction() -> (r: (String, CommandSpec))
    ensures
        r.0@ == "endfunction"@,
        spec_model(r.1) == builtin_endfunction_model(),
        spec_wf(r.1),
{
    let mut f_kwargs = new_kwargs();
    let mut f_flags = new_flags();
    let f = CommandForm { pargs: NArgs::ZeroOrMore, kwargs: f_kwargs, flags: f_flags, layout: None };
    (owned("endfunction"), CommandSpec::Single(f))
}

/// The built-in spec of `endmacro`, as values.
pub open spec fn builtin_endmacro_model() -> SpecModel {
    SpecModel::Single(FormModel {
        pargs: NArgs::ZeroOrMore,
        kwargs: Seq::<(Seq<char>, KwargModel)>::empty(),
        flags: Seq::<Seq<char>>::empty(),
        layout: None,
    })
}

/// The built-in spec of `endmacro`.
fn builtin_endmacro() -> (r: (String, CommandSpec))
    ensures
        r.0@ == "endmacro"@,
        spec_model(r.1) == builtin_endmacro_model(),
        spec_wf(r.1),
{
    let mut f_kwargs = new_kwargs();
    let mut f_flags = new_flags();
    let f = CommandForm { pargs: NArgs::ZeroOrMore, kwargs: f_kwargs, flags: f_flags, layout: None };
    (owned("endmacro"), CommandSpec::Single(f))
}

/// The built-in spec of `block`, as values.
pub open spec fn builtin_block_model() -> SpecModel {
    SpecModel::Single(FormModel {
        pargs: NArgs::ZeroOrMore,
        kwargs: Seq::<(Seq<char>, KwargModel)>::empty()
            .push(("SCOPE_FOR"@, plain_kwarg(NArgs::OneOrMore)))
            .push(("PROPAGATE"@, plain_kwarg(NArgs::OneOrMore))),
        flags: Seq::<Seq<char>>::empty(),
        layout: None,
    })
}

/// The built-in spec of `block`.
fn builtin_block() -> (r: (String, CommandSpec))
    ensures
        r.0@ == "block"@,
        spec_model(r.1) == builtin_block_model(),
        spec_wf(r.1),
{
    let mut f_kwargs = new_kwargs();
    push_kwarg(&mut f_kwargs, "SCOPE_FOR", NArgs::OneOrMore);
    push_kwarg(&mut f_kwargs, "PROPAGATE", NArgs::OneOrMore);
    let mut f_flags = new_flags();
    let f = CommandForm { pargs: NArgs::ZeroOrMore, kwargs: f_kwargs, flags: f_flags, layout: None };
    (owned("block"), CommandSpec::Single(f))
}

/// The built-in spec of `endblock`, as values.
pub open spec fn builtin_endblock_model() -> SpecModel {
    SpecModel::Single(FormModel {
        pargs: NArgs::ZeroOrMore,
        kwargs: Seq::<(Seq<char>, KwargModel)>::empty(),
        flags: Seq::<Seq<char>>::empty(),
        layout: None,
    })
}

/// The built-in spec of `endblock`.
fn builtin_endblock() -> (r: (String, CommandSpec))
    ensures
        r.0@ == "endblock"@,
        spec_model(r.1) == builtin_endblock_model(),
        spec_wf(r.1),
{
    let mut f_kwargs = new_kwargs();
    let mut f_flags = new_flags();
    let f = CommandForm { pargs: NArgs::ZeroOrMore, kwargs: f_kwargs, flags: f_flags, layout: None };
    (owned("endblock"), CommandSpec::Single(f))
}

/// The built-in spec of `return`, as values.
pub open spec fn builtin_return_model() -> SpecModel {
    SpecModel::Single(FormModel {
        pargs: NArgs::ZeroOrMore,
        kwargs: Seq::<(Seq<char>, KwargModel)>::empty()
            .push(("PROPAGATE"@, plain_kwarg(NArgs::OneOrMore))),
        flags: Seq::<Seq<char>>::empty(),
        layout: None,
    })
}

/// The built-in spec of `return`.
fn builtin_return() -> (r: (String, CommandSpec))
    ensures
        r.0@ == "return"@,
        spec_model(r.1) == builtin_return_model(),
        spec_wf(r.1),
{
    let mut f_kwargs = new_kwargs();
    push_kwarg(&mut f_kwargs, "PROPAGATE", NArgs::OneOrMore);
    let mut f_flags = new_flags();
    let f = CommandForm { pargs: NArgs::ZeroOrMore, kwargs: f_kwargs, flags: f_flags, layout: None };
    (owned("return"), CommandSpec::Single(f))
}

/// The built-in spec of `install`, as values.
pub open spec fn builtin_install_model() -> SpecModel {
    SpecModel::Discriminated {
        forms: Seq::<(Seq<char>, FormModel)>::empty()
        .push(("TARGETS"@, FormModel {
            pargs: NArgs::OneOrMore,
            kwargs: Seq::<(Seq<char>, KwargModel)>::empty()
                .push(("EXPORT"@, plain_kwarg(NArgs::Fixed(1))))
                .push(("DESTINATION"@, plain_kwarg(NArgs::Fixed(1))))
                .push(("COMPONENT"@, plain_kwarg(NArgs::Fixed(1))))
                .push(("PERMISSIONS"@, plain_kwarg(NArgs::OneOrMore)))
                .push(("CONFIGURATIONS"@, plain_kwarg(NArgs::OneOrMore)))
                .push(("INCLUDES"@, KwargModel { nargs: NArgs::OneOrMore, kwargs: Seq::<(Seq<char>, KwargModel)>::empty()
                    .push(("DESTINATION"@, plain_kwarg(NArgs::OneOrMore))), flags: Seq::<Seq<char>>::empty() }))
                .push(("RUNTIME_DEPENDENCY_SET"@, plain_kwarg(NArgs::Fixed(1)))),
            flags: Seq::<Seq<char>>::empty().push("ARCHIVE"@).push("LIBRARY"@).push("RUNTIME"@).push("OBJECTS"@).push("FRAMEWORK"@).push("BUNDLE"@).push("PRIVATE_HEADER"@).push("PUBLIC_HEADER"@).push("RESOURCE"@).push("OPTIONAL"@).push("EXCLUDE_FROM_ALL"@).push("NAMELINK_ONLY"@).push("NAMELINK_SKIP"@),
            layout: None,
        }))
        .push(("FILES"@, FormModel {
            pargs: NArgs::OneOrMore,
            kwargs: Seq::<(Seq<char>, KwargModel)>::empty()
                .push(("DESTINATION"@, plain_kwarg(NArgs::Fixed(1))))
                .push(("TYPE"@, plain_kwarg(NArgs::Fixed(1))))
                .push(("PERMISSIONS"@, plain_kwarg(NArgs::OneOrMore)))
                .push(("CONFIGURATIONS"@, plain_kwarg(NArgs::OneOrMore)))
                .push(("COMPONENT"@, plain_kwarg(NArgs::Fixed(1))))
                .push(("RENAME"@, plain_kwarg(NArgs::Fixed(1)))),
            flags: Seq::<Seq<char>>::empty().push("OPTIONAL"@).push("EXCLUDE_FROM_ALL"@),
            layout: None,
        }))
        .push(("PROGRAMS"@, FormModel {
            pargs: NArgs::OneOrMore,
            kwargs: Seq::<(Seq<char>, KwargModel)>::empty()
                .push(("DESTINATION"@, plain_kwarg(NArgs::Fixed(1))))
                .push(("TYPE"@, plain_kwarg(NArgs::Fixed(1))))
                .push(("PERMISSIONS"@, plain_kwarg(NArgs::OneOrMore)))
                .push(("CONFIGURATIONS"@, plain_kwarg(NArgs::OneOrMore)))
                .push(("COMPONENT"@, plain_kwarg(NArgs::Fixed(1))))
                .push(("RENAME"@, plain_kwarg(NArgs::Fixed(1)))),
            flags: Seq::<Seq<char>>::empty().push("OPTIONAL"@).push("EXCLUDE_FROM_ALL"@),
            layout: None,
        }))
        .push(("DIRECTORY"@, FormModel {
            pargs: NArgs::OneOrMore,
            kwargs: Seq::<(Seq<char>, KwargModel)>::empty()
                .push(("DESTINATION"@, plain_kwarg(NArgs::Fixed(1))))
                .push(("TYPE"@, plain_kwarg(NArgs::Fixed(1))))
                .push(("FILE_PERMISSIONS"@, plain_kwarg(NArgs::OneOrMore)))
                .push(("DIRECTORY_PERMISSIONS"@, plain_kwarg(NArgs::OneOrMore)))
                .push(("CONFIGURATIONS"@, plain_kwarg(NArgs::OneOrMore)))
                .push(("COMPONENT"@, plain_kwarg(NArgs::Fixed(1))))
                .push(("FILES_MATCHING"@, plain_kwarg(NArgs::ZeroOrMore)))
                .push(("PATTERN"@, plain_kwarg(NArgs::Fixed(1))))
                .push(("REGEX"@, plain_kwarg(NArgs::Fixed(1))))
                .push(("PERMISSIONS"@, plain_kwarg(NArgs::OneOrMore))),
            flags: Seq::<Seq<char>>::empty().push("USE_SOURCE_PERMISSIONS"@).push("OPTIONAL"@).push("MESSAGE_NEVER"@).push("EXCLUDE_FROM_ALL"@).push("EXCLUDE"@),
            layout: None,
        }))
        .push(("SCRIPT"@, FormModel {
            pargs: NArgs::OneOrMore,
            kwargs: Seq::<(Seq<char>, KwargModel)>::empty()
                .push(("COMPONENT"@, plain_kwarg(NArgs::Fixed(1)))),
            flags: Seq::<Seq<char>>::empty().push("EXCLUDE_FROM_ALL"@).push("ALL_COMPONENTS"@),
            layout: None,
        }))
        .push(("CODE"@, FormModel {
            pargs: NArgs::OneOrMore,
            kwargs: Seq::<(Seq<char>, KwargModel)>::empty()
                .push(("COMPONENT"@, plain_kwarg(NArgs::Fixed(1)))),
            flags: Seq::<Seq<char>>::empty().push("EXCLUDE_FROM_ALL"@).push("ALL_COMPONENTS"@),
            layout: None,
        }))
        .push(("EXPORT"@, FormModel {
            pargs: NArgs::Fixed(1),
            kwargs: Seq::<(Seq<char>, KwargModel)>::empty()
                .push(("DESTINATION"@, plain_kwarg(NArgs::Fixed(1))))
                .push(("NAMESPACE"@, plain_kwarg(NArgs::Fixed(1))))
                .push(("FILE"@, plain_kwarg(NArgs::Fixed(1))))
                .push(("PERMISSIONS"@, plain_kwarg(NArgs::OneOrMore)))
                .push(("CONFIGURATIONS"@, plain_kwarg(NArgs::OneOrMore)))
                .push(("CXX_MODULES_DIRECTORY"@, plain_kwarg(NArgs::Fixed(1))))
                .push(("COMPONENT"@, plain_kwarg(NArgs::Fixed(1)))),
            flags: Seq::<Seq<char>>::empty().push("EXCLUDE_FROM_ALL"@).push("EXPORT_LINK_INTERFACE_LIBRARIES"@),
            layout: None,
        }))
        .push(("PACKAGE_INFO"@, FormModel {
            pargs: NArgs::Fixed(1),
            kwargs: Seq::<(Seq<char>, KwargModel)>::empty()
                .push(("EXPORT"@, plain_kwarg(NArgs::Fixed(1))))
                .push(("DESTINATION"@, plain_kwarg(NArgs::Fixed(1))))
                .push(("APPENDIX"@, plain_kwarg(NArgs::Fixed(1))))
                .push(("VERSION"@, plain_kwarg(NArgs::Fixed(1))))
                .push(("COMPAT_VERSION"@, plain_kwarg(NArgs::Fixed(1))))
                .push(("VERSION_SCHEMA"@, plain_kwarg(NArgs::Fixed(1))))
                .push(("DEFAULT_TARGETS"@, plain_kwarg(NArgs::OneOrMore)))
                .push(("DEFAULT_CONFIGURATIONS"@, plain_kwarg(NArgs::OneOrMore)))
                .push(("LICENSE"@, plain_kwarg(NArgs::Fixed(1))))
                .push(("DEFAULT_LICENSE"@, plain_kwarg(NArgs::Fixed(1))))
                .push(("DESCRIPTION"@, plain_kwarg(NArgs::Fixed(1))))
                .push(("HOMEPAGE_URL"@, plain_kwarg(NArgs::Fixed(1))))
                .push(("CXX_MODULES_DIRECTORY"@, plain_kwarg(NArgs::Fixed(1))))
                .push(("PERMISSIONS"@, plain_kwarg(NArgs::OneOrMore)))
                .push(("CONFIGURATIONS"@, plain_kwarg(NArgs::OneOrMore)))
                .push(("COMPONENT"@, plain_kwarg(NArgs::Fixed(1)))),
            flags: Seq::<Seq<char>>::empty().push("LOWER_CASE_FILE"@).push("EXCLUDE_FROM_ALL"@).push("NO_PROJECT_METADATA"@),
            layout: None,
        })),
        fallback: None,
    }
}

/// The built-in spec of `install`.
fn builtin_install() -> (r: (String, CommandSpec))
    ensures
        r.0@ == "install"@,
        spec_model(r.1) == builtin_install_model(),
        spec_wf(r.1),
{
    let mut forms = new_forms();
    let mut form0_kwargs = new_kwargs();
    push_kwarg(&mut form0_kwargs, "EXPORT", NArgs::Fixed(1));
    push_kwarg(&mut form0_kwargs, "DESTINATION", NArgs::Fixed(1));
    push_kwarg(&mut form0_kwargs, "COMPONENT", NArgs::Fixed(1));
    push_kwarg(&mut form0_kwargs, "PERMISSIONS", NArgs::OneOrMore);
    push_kwarg(&mut form0_kwargs, "CONFIGURATIONS", NArgs::OneOrMore);
    let mut k1_kwargs = new_kwargs();
    push_kwarg(&mut k1_kwargs, "DESTINATION", NArgs::OneOrMore);
    let mut k1_flags = new_flags();
    push_nested(&mut form0_kwargs, "INCLUDES", NArgs::OneOrMore, k1_kwargs, k1_flags);
    push_kwarg(&mut form0_kwargs, "RUNTIME_DEPENDENCY_SET", NArgs::Fixed(1));
    let mut form0_flags = new_flags();
    push_flag(&mut form0_flags, "ARCHIVE");
    push_flag(&mut form0_flags, "LIBRARY");
    push_flag(&mut form0_flags, "RUNTIME");
    push_flag(&mut form0_flags, "OBJECTS");
    push_flag(&mut form0_flags, "FRAMEWORK");
    push_flag(&mut form0_flags, "BUNDLE");
    push_flag(&mut form0_flags, "PRIVATE_HEADER");
    push_flag(&mut form0_flags, "PUBLIC_HEADER");
    push_flag(&mut form0_flags, "RESOURCE");
    push_flag(&mut form0_flags, "OPTIONAL");
    push_flag(&mut form0_flags, "EXCLUDE_FROM_ALL");
    push_flag(&mut form0_flags, "NAMELINK_ONLY");
    push_flag(&mut form0_flags, "NAMELINK_SKIP");
    push_form(&mut forms, "TARGETS", NArgs::OneOrMore, form0_kwargs, form0_flags);
    let mut form1_kwargs = new_kwargs();
    push_kwarg(&mut form1_kwargs, "DESTINATION", NArgs::Fixed(1));
    push_kwarg(&mut form1_kwargs, "TYPE", NArgs::Fixed(1));
    push_kwarg(&mut form1_kwargs, "PERMISSIONS", NArgs::OneOrMore);
    push_kwarg(&mut form1_kwargs, "CONFIGURATIONS", NArgs::OneOrMore);
    push_kwarg(&mut form1_kwargs, "COMPONENT", NArgs::Fixed(1));
    push_kwarg(&mut form1_kwargs, "RENAME", NArgs::Fixed(1));
    let mut form1_flags = new_flags();
    push_flag(&mut form1_flags, "OPTIONAL");
    push_flag(&mut form1_flags, "EXCLUDE_FROM_ALL");
    push_form(&mut forms, "FILES", NArgs::OneOrMore, form1_kwargs, form1_flags);
    let mut form2_kwargs = new_kwargs();
    push_kwarg(&mut form2_kwargs, "DESTINATION", NArgs::Fixed(1));
    push_kwarg(&mut form2_kwargs, "TYPE", NArgs::Fixed(1));
    push_kwarg(&mut form2_kwargs, "PERMISSIONS", NArgs::OneOrMore);
    push_kwarg(&mut form2_kwargs, "CONFIGURATIONS", NArgs::OneOrMore);
    push_kwarg(&mut form2_kwargs, "COMPONENT", NArgs::Fixed(1));
    push_kwarg(&mut form2_kwargs, "RENAME", NArgs::Fixed(1));
    let mut form2_flags = new_flags();
    push_flag(&mut form2_flags, "OPTIONAL");
    push_flag(&mut form2_flags, "EXCLUDE_FROM_ALL");
    push_form(&mut forms, "PROGRAMS", NArgs::OneOrMore, form2_kwargs, form2_flags);
    let mut form3_kwargs = new_kwargs();
    push_kwarg(&mut form3_kwargs, "DESTINATION", NArgs::Fixed(1));
    push_kwarg(&mut form3_kwargs, "TYPE", NArgs::Fixed(1));
    push_kwarg(&mut form3_kwargs, "FILE_PERMISSIONS", NArgs::OneOrMore);
    push_kwarg(&mut form3_kwargs, "DIRECTORY_PERMISSIONS", NArgs::OneOrMore);
    push_kwarg(&mut form3_kwargs, "CONFIGURATIONS", NArgs::OneOrMore);
    push_kwarg(&mut form3_kwargs, "COMPONENT", NArgs::Fixed(1));
    push_kwarg(&mut form3_kwargs, "FILES_MATCHING", NArgs::ZeroOrMore);
    push_kwarg(&mut form3_kwargs, "PATTERN", NArgs::Fixed(1));
    push_kwarg(&mut form3_kwargs, "REGEX", NArgs::Fixed(1));
    push_kwarg(&mut form3_kwargs, "PERMISSIONS", NArgs::OneOrMore);
    let mut form3_flags = new_flags();
    push_flag(&mut form3_flags, "USE_SOURCE_PERMISSIONS");
    push_flag(&mut form3_flags, "OPTIONAL");
    push_flag(&mut form3_flags, "MESSAGE_NEVER");
    push_flag(&mut form3_flags, "EXCLUDE_FROM_ALL");
    push_flag(&mut form3_flags, "EXCLUDE");
    push_form(&mut forms, "DIRECTORY", NArgs::OneOrMore, form3_kwargs, form3_flags);
    let mut form4_kwargs = new_kwargs();
    push_kwarg(&mut form4_kwargs, "COMPONENT", NArgs::Fixed(1));
    let mut form4_flags = new_flags();
    push_flag(&mut form4_flags, "EXCLUDE_FROM_ALL");
    push_flag(&mut form4_flags, "ALL_COMPONENTS");
    push_form(&mut forms, "SCRIPT", NArgs::OneOrMore, form4_kwargs, form4_flags);
    let mut form5_kwargs = new_kwargs();
    push_kwarg(&mut form5_kwargs, "COMPONENT", NArgs::Fixed(1));
    let mut form5_flags = new_flags();
    push_flag(&mut form5_flags, "EXCLUDE_FROM_ALL");
    push_flag(&mut form5_flags, "ALL_COMPONENTS");
    push_form(&mut forms, "CODE", NArgs::OneOrMore, form5_kwargs, form5_flags);
    let mut form6_kwargs = new_kwargs();
    push_kwarg(&mut form6_kwargs, "DESTINATION", NArgs::Fixed(1));
    push_kwarg(&mut form6_kwargs, "NAMESPACE", NArgs::Fixed(1));
    push_kwarg(&mut form6_kwargs, "FILE", NArgs::Fixed(1));
    push_kwarg(&mut form6_kwargs, "PERMISSIONS", NArgs::OneOrMore);
    push_kwarg(&mut form6_kwargs, "CONFIGURATIONS", NArgs::OneOrMore);
    push_kwarg(&mut form6_kwargs, "CXX_MODULES_DIRECTORY", NArgs::Fixed(1));
    push_kwarg(&mut form6_kwargs, "COMPONENT", NArgs::Fixed(1));
    let mut form6_flags = new_flags();
    push_flag(&mut form6_flags, "EXCLUDE_FROM_ALL");
    push_flag(&mut form6_flags, "EXPORT_LINK_INTERFACE_LIBRARIES");
    push_form(&mut forms, "EXPORT", NArgs::Fixed(1), form6_kwargs, form6_flags);
    let mut form7_kwargs = new_kwargs();
    push_kwarg(&mut form7_kwargs, "EXPORT", NArgs::Fixed(1));
    push_kwarg(&mut form7_kwargs, "DESTINATION", NArgs::Fixed(1));
    push_kwarg(&mut form7_kwargs, "APPENDIX", NArgs::Fixed(1));
    push_kwarg(&mut form7_kwargs, "VERSION", NArgs::Fixed(1));
    push_kwarg(&mut form7_kwargs, "COMPAT_VERSION", NArgs::Fixed(1));
    push_kwarg(&mut form7_kwargs, "VERSION_SCHEMA", NArgs::Fixed(1));
    push_kwarg(&mut form7_kwargs, "DEFAULT_TARGETS", NArgs::OneOrMore);
    push_kwarg(&mut form7_kwargs, "DEFAULT_CONFIGURATIONS", NArgs::OneOrMore);
    push_kwarg(&mut form7_kwargs, "LICENSE", NArgs::Fixed(1));
    push_kwarg(&mut form7_kwargs, "DEFAULT_LICENSE", NArgs::Fixed(1));
    push_kwarg(&mut form7_kwargs, "DESCRIPTION", NArgs::Fixed(1));
    push_kwarg(&mut form7_kwargs, "HOMEPAGE_URL", NArgs::Fixed(1));
    push_kwarg(&mut form7_kwargs, "CXX_MODULES_DIRECTORY", NArgs::Fixed(1));
    push_kwarg(&mut form7_kwargs, "PERMISSIONS", NArgs::OneOrMore);
    push_kwarg(&mut form7_kwargs, "CONFIGURATIONS", NArgs::OneOrMore);
    push_kwarg(&mut form7_kwargs, "COMPONENT", NArgs::Fixed(1));
    let mut form7_flags = new_flags();
    push_flag(&mut form7_flags, "LOWER_CASE_FILE");
    push_flag(&mut form7_flags, "EXCLUDE_FROM_ALL");
    push_flag(&mut form7_flags, "NO_PROJECT_METADATA");
    push_form(&mut forms, "PACKAGE_INFO", NArgs::Fixed(1), form7_kwargs, form7_flags);
    (owned("install"), CommandSpec::Discriminated { forms, fallback: None })
}

/// The built-in spec of `export`, as values.
pub open spec fn builtin_export_model() -> SpecModel {
    SpecModel::Discriminated {
        forms: Seq::<(Seq<char>, FormModel)>::empty()
        .push(("TARGETS"@, FormModel {
            pargs: NArgs::OneOrMore,
            kwargs: Seq::<(Seq<char>, KwargModel)>::empty()
                .push(("NAMESPACE"@, plain_kwarg(NArgs::Fixed(1))))
                .push(("FILE"@, plain_kwarg(NArgs::Fixed(1))))
                .push(("CXX_MODULES_DIRECTORY"@, plain_kwarg(NArgs::Fixed(1)))),
            flags: Seq::<Seq<char>>::empty().push("APPEND"@).push("EXPORT_LINK_INTERFACE_LIBRARIES"@),
            layout: None,
        }))
        .push(("EXPORT"@, FormModel {
            pargs: NArgs::Fixed(1),
            kwargs: Seq::<(Seq<char>, KwargModel)>::empty()
                .push(("NAMESPACE"@, plain_kwarg(NArgs::Fixed(1))))
                .push(("FILE"@, plain_kwarg(NArgs::Fixed(1))))
                .push(("CXX_MODULES_DIRECTORY"@, plain_kwarg(NArgs::Fixed(1)))),
            flags: Seq::<Seq<char>>::empty().push("EXPORT_PACKAGE_DEPENDENCIES"@),
            layout: None,
        }))
        .push(("PACKAGE"@, FormModel {
            pargs: NArgs::Fixed(1),
            kwargs: Seq::<(Seq<char>, KwargModel)>::empty(),
            flags: Seq::<Seq<char>>::empty(),
            layout: None,
        }))
        .push(("PACKAGE_INFO"@, FormModel {
            pargs: NArgs::Fixed(1),
            kwargs: Seq::<(Seq<char>, KwargModel)>::empty()
                .push(("EXPORT"@, plain_kwarg(NArgs::Fixed(1))))
                .push(("CXX_MODULES_DIRECTORY"@, plain_kwarg(NArgs::Fixed(1))))
                .push(("APPENDIX"@, plain_kwarg(NArgs::Fixed(1))))
                .push(("VERSION"@, plain_kwarg(NArgs::Fixed(1))))
                .push(("COMPAT_VERSION"@, plain_kwarg(NArgs::Fixed(1))))
                .push(("VERSION_SCHEMA"@, plain_kwarg(NArgs::Fixed(1))))
                .push(("DEFAULT_TARGETS"@, plain_kwarg(NArgs::OneOrMore)))
                .push(("DEFAULT_CONFIGURATIONS"@, plain_kwarg(NArgs::OneOrMore)))
                .push(("LICENSE"@, plain_kwarg(NArgs::Fixed(1))))
                .push(("DEFAULT_LICENSE"@, plain_kwarg(NArgs::Fixed(1))))
                .push(("DESCRIPTION"@, plain_kwarg(NArgs::Fixed(1))))
                .push(("HOMEPAGE_URL"@, plain_kwarg(NArgs::Fixed(1)))),
            flags: Seq::<Seq<char>>::empty().push("LOWER_CASE_FILE"@).push("NO_PROJECT_METADATA"@),
            layout: None,
        }))
        .push(("SETUP"@, FormModel {
            pargs: NArgs::Fixed(1),
            kwargs: Seq::<(Seq<char>, KwargModel)>::empty()
                .push(("PACKAGE_DEPENDENCY"@, plain_kwarg(NArgs::OneOrMore)))
                .push(("TARGET"@, plain_kwarg(NArgs::OneOrMore))),
            flags: Seq::<Seq<char>>::empty(),
            layout: None,
        })),
        fallback: None,
    }
}

/// The built-in spec of `export`.
fn builtin_export() -> (r: (String, CommandSpec))
    ensures
        r.0@ == "export"@,
        spec_model(r.1) == builtin_export_model(),
        spec_wf(r.1),
{
    let mut forms = new_forms();
    let mut form0_kwargs = new_kwargs();
    push_kwarg(&mut form0_kwargs, "NAMESPACE", NArgs::Fixed(1));
    push_kwarg(&mut form0_kwargs, "FILE", NArgs::Fixed(1));
    push_kwarg(&mut form0_kwargs, "CXX_MODULES_DIRECTORY", NArgs::Fixed(1));
    let mut form0_flags = new_flags();
    push_flag(&mut form0_flags, "APPEND");
    push_flag(&mut form0_flags, "EXPORT_LINK_INTERFACE_LIBRARIES");
    push_form(&mut forms, "TARGETS", NArgs::OneOrMore, form0_kwargs, form0_flags);
    let mut form1_kwargs = new_kwargs();
    push_kwarg(&mut form1_kwargs, "NAMESPACE", NArgs::Fixed(1));
    push_kwarg(&mut form1_kwargs, "FILE", NArgs::Fixed(1));
    push_kwarg(&mut form1_kwargs, "CXX_MODULES_DIRECTORY", NArgs::Fixed(1));
    let mut form1_flags = new_flags();
    push_flag(&mut form1_flags, "EXPORT_PACKAGE_DEPENDENCIES");
    push_form(&mut forms, "EXPORT", NArgs::Fixed(1), form1_kwargs, form1_flags);
    let mut form2_kwargs = new_kwargs();
    let mut form2_flags = new_flags();
    push_form(&mut forms, "PACKAGE", NArgs::Fixed(1), form2_kwargs, form2_flags);
    let mut form3_kwargs = new_kwargs();
    push_kwarg(&mut form3_kwargs, "EXPORT", NArgs::Fixed(1));
    push_kwarg(&mut form3_kwargs, "CXX_MODULES_DIRECTORY", NArgs::Fixed(1));
    push_kwarg(&mut form3_kwargs, "APPENDIX", NArgs::Fixed(1));
    push_kwarg(&mut form3_kwargs, "VERSION", NArgs::Fixed(1));
    push_kwarg(&mut form3_kwargs, "COMPAT_VERSION", NArgs::Fixed(1));
    push_kwarg(&mut form3_kwargs, "VERSION_SCHEMA", NArgs::Fixed(1));
    push_kwarg(&mut form3_kwargs, "DEFAULT_TARGETS", NArgs::OneOrMore);
    push_kwarg(&mut form3_kwargs, "DEFAULT_CONFIGURATIONS", NArgs::OneOrMore);
    push_kwarg(&mut form3_kwargs, "LICENSE", NArgs::Fixed(1));
    push_kwarg(&mut form3_kwargs, "DEFAULT_LICENSE", NArgs::Fixed(1));
    push_kwarg(&mut form3_kwargs, "DESCRIPTION", NArgs::Fixed(1));
    push_kwarg(&mut form3_kwargs, "HOMEPAGE_URL", NArgs::Fixed(1));
    let mut form3_flags = new_flags();
    push_flag(&mut form3_flags, "LOWER_CASE_FILE");
    push_flag(&mut form3_flags, "NO_PROJECT_METADATA");
    push_form(&mut forms, "PACKAGE_INFO", NArgs::Fixed(1), form3_kwargs, form3_flags);
    let mut form4_kwargs = new_kwargs();
    push_kwarg(&mut form4_kwargs, "PACKAGE_DEPENDENCY", NArgs::OneOrMore);
    push_kwarg(&mut form4_kwargs, "TARGET", NArgs::OneOrMore);
    let mut form4_flags = new_flags();
    push_form(&mut forms, "SETUP", NArgs::Fixed(1), form4_kwargs, form4_flags);
    (owned("export"), CommandSpec::Discriminated { forms, fallback: None })
}

/// The built-in spec of `cmake_language`, as values.
pub open spec fn builtin_cmake_language_model() -> SpecModel {
    SpecModel::Discriminated {
        forms: Seq::<(Seq<char>, FormModel)>::empty()
        .push(("CALL"@, FormModel {
            pargs: NArgs::OneOrMore,
            kwargs: Seq::<(Seq<char>, KwargModel)>::empty(),
            flags: Seq::<Seq<char>>::empty(),
            layout: None,
        }))
        .push(("EVAL"@, FormModel {
            pargs: NArgs::ZeroOrMore,
            kwargs: Seq::<(Seq<char>, KwargModel)>::empty()
                .push(("CODE"@, plain_kwarg(NArgs::OneOrMore))),
            flags: Seq::<Seq<char>>::empty(),
            layout: None,
        }))
        .push(("DEFER"@, FormModel {
            pargs: NArgs::ZeroOrMore,
            kwargs: Seq::<(Seq<char>, KwargModel)>::empty()
                .push(("DIRECTORY"@, plain_kwarg(NArgs::Fixed(1))))
                .push(("ID"@, plain_kwarg(NArgs::Fixed(1))))
                .push(("ID_VAR"@, plain_kwarg(NArgs::Fixed(1))))
                .push(("GET_CALL_IDS"@, plain_kwarg(NArgs::Optional)))
                .push(("GET_CALL"@, plain_kwarg(NArgs::Fixed(2))))
                .push(("CANCEL_CALL"@, plain_kwarg(NArgs::OneOrMore)))
                .push(("CALL"@, plain_kwarg(NArgs::OneOrMore))),
            flags: Seq::<Seq<char>>::empty(),
            layout: None,
        }))
        .push(("SET_DEPENDENCY_PROVIDER"@, FormModel {
            pargs: NArgs::Fixed(1),
            kwargs: Seq::<(Seq<char>, KwargModel)>::empty()
                .push(("SUPPORTED_METHODS"@, plain_kwarg(NArgs::OneOrMore))),
            flags: Seq::<Seq<char>>::empty(),
            layout: None,
        }))
        .push(("GET_MESSAGE_LOG_LEVEL"@, FormModel {
            pargs: NArgs::Fixed(1),
            kwargs: Seq::<(Seq<char>, KwargModel)>::empty(),
            flags: Seq::<Seq<char>>::empty(),
            layout: None,
        }))
        .push(("EXIT"@, FormModel {
            pargs: NArgs::Fixed(1),
            kwargs: Seq::<(Seq<char>, KwargModel)>::empty(),
            flags: Seq::<Seq<char>>::empty(),
            layout: None,
        }))
        .push(("TRACE"@, FormModel {
            pargs: NArgs::Fixed(1),
            kwargs: Seq::<(Seq<char>, KwargModel)>::empty()
                .push(("FORMAT"@, plain_kwarg(NArgs::Fixed(1))))
                .push(("OUTPUT"@, plain_kwarg(NArgs::Fixed(1)))),
            flags: Seq::<Seq<char>>::empty().push("ON"@).push("OFF"@).push("EXPAND"@),
            layout: None,
        })),
        fallback: None,
    }
}

/// The built-in spec of `cmake_language`.
fn builtin_cmake_language() -> (r: (String, CommandSpec))
    ensures
        r.0@ == "cmake_language"@,
        spec_model(r.1) == builtin_cmake_language_model(),
        spec_wf(r.1),
{
    let mut forms = new_forms();
    let mut form0_kwargs = new_kwargs();
    let mut form0_flags = new_flags();
    push_form(&mut forms, "CALL", NArgs::OneOrMore, form0_kwargs, form0_flags);
    let mut form1_kwargs = new_kwargs();
    push_kwarg(&mut form1_kwargs, "CODE", NArgs::OneOrMore);
    let mut form1_flags = new_flags();
    push_form(&mut forms, "EVAL", NArgs::ZeroOrMore, form1_kwargs, form1_flags);
    let mut form2_kwargs = new_kwargs();
    push_kwarg(&mut form2_kwargs, "DIRECTORY", NArgs::Fixed(1));
    push_kwarg(&mut form2_kwargs, "ID", NArgs::Fixed(1));
    push_kwarg(&mut form2_kwargs, "ID_VAR", NArgs::Fixed(1));
    push_kwarg(&mut form2_kwargs, "GET_CALL_IDS", NArgs::Optional);
    push_kwarg(&mut form2_kwargs, "GET_CALL", NArgs::Fixed(2));
    push_kwarg(&mut form2_kwargs, "CANCEL_CALL", NArgs::OneOrMore);
    push_kwarg(&mut form2_kwargs, "CALL", NArgs::OneOrMore);
    let mut form2_flags = new_flags();
    push_form(&mut forms, "DEFER", NArgs::ZeroOrMore, form2_kwargs, form2_flags);
    let mut form3_kwargs = new_kwargs();
    push_kwarg(&mut form3_kwargs, "SUPPORTED_METHODS", NArgs::OneOrMore);
    let mut form3_flags = new_flags();
    push_form(&mut forms, "SET_DEPENDENCY_PROVIDER", NArgs::Fixed(1), form3_kwargs, form3_flags);
    let mut form4_kwargs = new_kwargs();
    let mut form4_flags = new_flags();
    push_form(&mut forms, "GET_MESSAGE_LOG_LEVEL", NArgs::Fixed(1), form4_kwargs, form4_flags);
    let mut form5_kwargs = new_kwargs();
    let mut form5_flags = new_flags();
    push_form(&mut forms, "EXIT", NArgs::Fixed(1), form5_kwargs, form5_flags);
    let mut form6_kwargs = new_kwargs();
    push_kwarg(&mut form6_kwargs, "FORMAT", NArgs::Fixed(1));
    push_kwarg(&mut form6_kwargs, "OUTPUT", NArgs::Fixed(1));
    let mut form6_flags = new_flags();
    push_flag(&mut form6_flags, "ON");
    push_flag(&mut form6_flags, "OFF");
    push_flag(&mut form6_flags, "EXPAND");
    push_form(&mut forms, "TRACE", NArgs::Fixed(1), form6_kwargs, form6_flags);
    (owned("cmake_language"), CommandSpec::Discriminated { forms, fallback: None })
}

/// The built-in spec of `cmake_pkg_config`, as values.
pub open spec fn builtin_cmake_pkg_config_model() -> SpecModel {
    SpecModel::Discriminated {
        forms: Seq::<(Seq<char>, FormModel)>::empty()
        .push(("EXTRACT"@, FormModel {
            pargs: NArgs::Fixed(1),
            kwargs: Seq::<(Seq<char>, KwargModel)>::empty()
                .push(("PREFIX"@, plain_kwarg(NArgs::Fixed(1))))
                .push(("VERSION"@, plain_kwarg(NArgs::OneOrMore)))
                .push(("STRICTNESS"@, plain_kwarg(NArgs::Fixed(1))))
                .push(("ENV_MODE"@, plain_kwarg(NArgs::Fixed(1))))
                .push(("PC_LIBDIR"@, plain_kwarg(NArgs::OneOrMore)))
                .push(("PC_PATH"@, plain_kwarg(NArgs::OneOrMore)))
                .push(("PC_SYSROOT_DIR"@, plain_kwarg(NArgs::Fixed(1)))),
            flags: Seq::<Seq<char>>::empty().push("REQUIRED"@).push("EXACT"@).push("QUIET"@).push("DISABLE_UNINSTALLED"@).push("ALLOW_SYSTEM_INCLUDES"@).push("ALLOW_SYSTEM_LIBS"@),
            layout: None,
        }))
        .push(("POPULATE"@, FormModel {
            pargs: NArgs::Fixed(1),
            kwargs: Seq::<(Seq<char>, KwargModel)>::empty()
                .push(("VERSION"@, plain_kwarg(NArgs::OneOrMore)))
                .push(("STRICTNESS"@, plain_kwarg(NArgs::Fixed(1))))
                .push(("ENV_MODE"@, plain_kwarg(NArgs::Fixed(1))))
                .push(("PC_LIBDIR"@, plain_kwarg(NArgs::OneOrMore)))
                .push(("PC_PATH"@, plain_kwarg(NArgs::OneOrMore)))
                .push(("PC_SYSROOT_DIR"@, plain_kwarg(NArgs::Fixed(1)))),
            flags: Seq::<Seq<char>>::empty().push("REQUIRED"@).push("EXACT"@).push("QUIET"@).push("BIND_PC_REQUIRES"@),
            layout: None,
        }))
        .push(("IMPORT"@, FormModel {
            pargs: NArgs::Fixed(1),
            kwargs: Seq::<(Seq<char>, KwargModel)>::empty()
                .push(("NAME"@, plain_kwarg(NArgs::Fixed(1))))
                .push(("BIND_PC_REQUIRES"@, plain_kwarg(NArgs::OneOrMore)))
                .push(("VERSION"@, plain_kwarg(NArgs::OneOrMore)))
                .push(("STRICTNESS"@, plain_kwarg(NArgs::Fixed(1))))
                .push(("ENV_MODE"@, plain_kwarg(NArgs::Fixed(1))))
                .push(("PC_LIBDIR"@, plain_kwarg(NArgs::OneOrMore)))
                .push(("PC_PATH"@, plain_kwarg(NArgs::OneOrMore)))
                .push(("PC_SYSROOT_DIR"@, plain_kwarg(NArgs::Fixed(1)))),
            flags: Seq::<Seq<char>>::empty().push("REQUIRED"@).push("EXACT"@).push("QUIET"@).push("DISABLE_UNINSTALLED"@).push("ALLOW_SYSTEM_INCLUDES"@).push("ALLOW_SYSTEM_LIBS"@),
            layout: None,
        })),
        fallback: None,
    }
}

/// The built-in spec of `cmake_pkg_config`.
fn builtin_cmake_pkg_config() -> (r: (String, CommandSpec))
    ensures
        r.0@ == "cmake_pkg_config"@,
        spec_model(r.1) == builtin_cmake_pkg_config_model(),
        spec_wf(r.1),
{
    let mut forms = new_forms();
    let mut form0_kwargs = new_kwargs();
    push_kwarg(&mut form0_kwargs, "PREFIX", NArgs::Fixed(1));
    push_kwarg(&mut form0_kwargs, "VERSION", NArgs::OneOrMore);
    push_kwarg(&mut form0_kwargs, "STRICTNESS", NArgs::Fixed(1));
    push_kwarg(&mut form0_kwargs, "ENV_MODE", NArgs::Fixed(1));
    push_kwarg(&mut form0_kwargs, "PC_LIBDIR", NArgs::OneOrMore);
    push_kwarg(&mut form0_kwargs, "PC_PATH", NArgs::OneOrMore);
    push_kwarg(&mut form0_kwargs, "PC_SYSROOT_DIR", NArgs::Fixed(1));
    let mut form0_flags = new_flags();
    push_flag(&mut form0_flags, "REQUIRED");
    push_flag(&mut form0_flags, "EXACT");
    push_flag(&mut form0_flags, "QUIET");
    push_flag(&mut form0_flags, "DISABLE_UNINSTALLED");
    push_flag(&mut form0_flags, "ALLOW_SYSTEM_INCLUDES");
    push_flag(&mut form0_flags, "ALLOW_SYSTEM_LIBS");
    push_form(&mut forms, "EXTRACT", NArgs::Fixed(1), form0_kwargs, form0_flags);
    let mut form1_kwargs = new_kwargs();
    push_kwarg(&mut form1_kwargs, "VERSION", NArgs::OneOrMore);
    push_kwarg(&mut form1_kwargs, "STRICTNESS", NArgs::Fixed(1));
    push_kwarg(&mut form1_kwargs, "ENV_MODE", NArgs::Fixed(1));
    push_kwarg(&mut form1_kwargs, "PC_LIBDIR", NArgs::OneOrMore);
    push_kwarg(&mut form1_kwargs, "PC_PATH", NArgs::OneOrMore);
    push_kwarg(&mut form1_kwargs, "PC_SYSROOT_DIR", NArgs::Fixed(1));
    let mut form1_flags = new_flags();
    push_flag(&mut form1_flags, "REQUIRED");
    push_flag(&mut form1_flags, "EXACT");
    push_flag(&mut form1_flags, "QUIET");
    push_flag(&mut form1_flags, "BIND_PC_REQUIRES");
    push_form(&mut forms, "POPULATE", NArgs::Fixed(1), form1_kwargs, form1_flags);
    let mut form2_kwargs = new_kwargs();
    push_kwarg(&mut form2_kwargs, "NAME", NArgs::Fixed(1));
    push_kwarg(&mut form2_kwargs, "BIND_PC_REQUIRES", NArgs::OneOrMore);
    push_kwarg(&mut form2_kwargs, "VERSION", NArgs::OneOrMore);
    push_kwarg(&mut form2_kwargs, "STRICTNESS", NArgs::Fixed(1));
    push_kwarg(&mut form2_kwargs, "ENV_MODE", NArgs::Fixed(1));
    push_kwarg(&mut form2_kwargs, "PC_LIBDIR", NArgs::OneOrMore);
    push_kwarg(&mut form2_kwargs, "PC_PATH", NArgs::OneOrMore);
    push_kwarg(&mut form2_kwargs, "PC_SYSROOT_DIR", NArgs::Fixed(1));
    let mut form2_flags = new_flags();
    push_flag(&mut form2_flags, "REQUIRED");
    push_flag(&mut form2_flags, "EXACT");
    push_flag(&mut form2_flags, "QUIET");
    push_flag(&mut form2_flags, "DISABLE_UNINSTALLED");
    push_flag(&mut form2_flags, "ALLOW_SYSTEM_INCLUDES");
    push_flag(&mut form2_flags, "ALLOW_SYSTEM_LIBS");
    push_form(&mut forms, "IMPORT", NArgs::Fixed(1), form2_kwargs, form2_flags);
    (owned("cmake_pkg_config"), CommandSpec::Discriminated { forms, fallback: None })
}

/// The built-in spec of `file`, as values.
pub open spec fn builtin_file_model() -> SpecModel {
    SpecModel::Discriminated {
        forms: Seq::<(Seq<char>, FormModel)>::empty()
        .push(("READ"@, FormModel {
            pargs: NArgs::Fixed(2),
            kwargs: Seq::<(Seq<char>, KwargModel)>::empty()
                .push(("OFFSET"@, plain_kwarg(NArgs::Fixed(1))))
                .push(("LIMIT"@, plain_kwarg(NArgs::Fixed(1)))),
            flags: Seq::<Seq<char>>::empty().push("HEX"@),
            layout: None,
        }))
        .push(("STRINGS"@, FormModel {
            pargs: NArgs::Fixed(2),
            kwargs: Seq::<(Seq<char>, KwargModel)>::empty()
                .push(("LENGTH_MAXIMUM"@, plain_kwarg(NArgs::Fixed(1))))
                .push(("LENGTH_MINIMUM"@, plain_kwarg(NArgs::Fixed(1))))
                .push(("LIMIT_COUNT"@, plain_kwarg(NArgs::Fixed(1))))
                .push(("LIMIT_INPUT"@, plain_kwarg(NArgs::Fixed(1))))
                .push(("LIMIT_OUTPUT"@, plain_kwarg(NArgs::Fixed(1))))
                .push(("REGEX"@, plain_kwarg(NArgs::Fixed(1))))
                .push(("ENCODING"@, plain_kwarg(NArgs::Fixed(1)))),
            flags: Seq::<Seq<char>>::empty().push("NEWLINE_CONSUME"@).push("NO_HEX_CONVERSION"@),
            layout: None,
        }))
        .push(("WRITE"@, FormModel {
            pargs: NArgs::AtLeast(1),
            kwargs: Seq::<(Seq<char>, KwargModel)>::empty(),
            flags: Seq::<Seq<char>>::empty(),
            layout: None,
        }))
        .push(("APPEND"@, FormModel {
            pargs: NArgs::AtLeast(1),
            kwargs: Seq::<(Seq<char>, KwargModel)>::empty(),
            flags: Seq::<Seq<char>>::empty(),
            layout: None,
        }))
        .push(("GLOB"@, FormModel {
            pargs: NArgs::Fixed(1),
            kwargs: Seq::<(Seq<char>, KwargModel)>::empty()
                .push(("LIST_DIRECTORIES"@, plain_kwarg(NArgs::Fixed(1))))
                .push(("RELATIVE"@, plain_kwarg(NArgs::Fixed(1)))),
            flags: Seq::<Seq<char>>::empty().push("CONFIGURE_DEPENDS"@),
            layout: None,
        }))
        .push(("GLOB_RECURSE"@, FormModel {
            pargs: NArgs::Fixed(1),
            kwargs: Seq::<(Seq<char>, KwargModel)>::empty()
                .push(("LIST_DIRECTORIES"@, plain_kwarg(NArgs::Fixed(1))))
                .push(("RELATIVE"@, plain_kwarg(NArgs::Fixed(1)))),
            flags: Seq::<Seq<char>>::empty().push("FOLLOW_SYMLINKS"@).push("CONFIGURE_DEPENDS"@),
            layout: None,
        }))
        .push(("MAKE_DIRECTORY"@, FormModel {
            pargs: NArgs::ZeroOrMore,
            kwargs: Seq::<(Seq<char>, KwargModel)>::empty()
                .push(("RESULT"@, plain_kwarg(NArgs::Fixed(1)))),
            flags: Seq::<Seq<char>>::empty(),
            layout: None,
        }))
        .push(("REMOVE"@, FormModel {
            pargs: NArgs::ZeroOrMore,
            kwargs: Seq::<(Seq<char>, KwargModel)>::empty(),
            flags: Seq::<Seq<char>>::empty(),
            layout: None,
        }))
        .push(("REMOVE_RECURSE"@, FormModel {
            pargs: NArgs::ZeroOrMore,
            kwargs: Seq::<(Seq<char>, KwargModel)>::empty(),
            flags: Seq::<Seq<char>>::empty(),
            layout: None,
        }))
        .push(("RENAME"@, FormModel {
            pargs: NArgs::Fixed(2),
            kwargs: Seq::<(Seq<char>, KwargModel)>::empty()
                .push(("RESULT"@, plain_kwarg(NArgs::Fixed(1)))),
            flags: Seq::<Seq<char>>::empty().push("NO_REPLACE"@),
            layout: None,
        }))
        .push(("COPY_FILE"@, FormModel {
            pargs: NArgs::Fixed(2),
            kwargs: Seq::<(Seq<char>, KwargModel)>::empty()
                .push(("RESULT"@, plain_kwarg(NArgs::Fixed(1))))
                .push(("INPUT_MAY_BE_RECENT"@, plain_kwarg(NArgs::Fixed(1)))),
            flags: Seq::<Seq<char>>::empty().push("ONLY_IF_DIFFERENT"@),
            layout: None,
        }))
        .push(("COPY"@, FormModel {
            pargs: NArgs::OneOrMore,
            kwargs: Seq::<(Seq<char>, KwargModel)>::empty()
                .push(("DESTINATION"@, plain_kwarg(NArgs::Fixed(1))))
                .push(("FILE_PERMISSIONS"@, plain_kwarg(NArgs::OneOrMore)))
                .push(("DIRECTORY_PERMISSIONS"@, plain_kwarg(NArgs::OneOrMore)))
                .push(("PATTERN"@, plain_kwarg(NArgs::Fixed(1))))
                .push(("REGEX"@, plain_kwarg(NArgs::Fixed(1))))
                .push(("PERMISSIONS"@, plain_kwarg(NArgs::OneOrMore))),
            flags: Seq::<Seq<char>>::empty().push("NO_SOURCE_PERMISSIONS"@).push("USE_SOURCE_PERMISSIONS"@).push("FOLLOW_SYMLINK_CHAIN"@).push("FILES_MATCHING"@).push("EXCLUDE"@),
            layout: None,
        }))
        .push(("INSTALL"@, FormModel {
            pargs: NArgs::OneOrMore,
            kwargs: Seq::<(Seq<char>, KwargModel)>::empty()
                .push(("DESTINATION"@, plain_kwarg(NArgs::Fixed(1))))
                .push(("FILE_PERMISSIONS"@, plain_kwarg(NArgs::OneOrMore)))
                .push(("DIRECTORY_PERMISSIONS"@, plain_kwarg(NArgs::OneOrMore)))
                .push(("PATTERN"@, plain_kwarg(NArgs::Fixed(1))))
                .push(("REGEX"@, plain_kwarg(NArgs::Fixed(1))))
                .push(("PERMISSIONS"@, plain_kwarg(NArgs::OneOrMore))),
            flags: Seq::<Seq<char>>::empty().push("NO_SOURCE_PERMISSIONS"@).push("USE_SOURCE_PERMISSIONS"@).push("FOLLOW_SYMLINK_CHAIN"@).push("FILES_MATCHING"@).push("EXCLUDE"@),
            layout: None,
        }))
        .push(("DOWNLOAD"@, FormModel {
            pargs: NArgs::AtLeast(1),
            kwargs: Seq::<(Seq<char>, KwargModel)>::empty()
                .push(("INACTIVITY_TIMEOUT"@, plain_kwarg(NArgs::Fixed(1))))
                .push(("LOG"@, plain_kwarg(NArgs::Fixed(1))))
                .push(("STATUS"@, plain_kwarg(NArgs::Fixed(1))))
                .push(("TIMEOUT"@, plain_kwarg(NArgs::Fixed(1))))
                .push(("USERPWD"@, plain_kwarg(NArgs::Fixed(1))))
                .push(("HTTPHEADER"@, plain_kwarg(NArgs::Fixed(1))))
                .push(("NETRC"@, plain_kwarg(NArgs::Fixed(1))))
                .push(("NETRC_FILE"@, plain_kwarg(NArgs::Fixed(1))))
                .push(("EXPECTED_HASH"@, plain_kwarg(NArgs::Fixed(1))))
                .push(("EXPECTED_MD5"@, plain_kwarg(NArgs::Fixed(1))))
                .push(("TLS_VERSION"@, plain_kwarg(NArgs::Fixed(1))))
                .push(("TLS_VERIFY"@, plain_kwarg(NArgs::Fixed(1))))
                .push(("TLS_CAINFO"@, plain_kwarg(NArgs::Fixed(1))))
                .push(("RANGE_START"@, plain_kwarg(NArgs::Fixed(1))))
                .push(("RANGE_END"@, plain_kwarg(NArgs::Fixed(1)))),
            flags: Seq::<Seq<char>>::empty().push("SHOW_PROGRESS"@),
            layout: None,
        }))
        .push(("UPLOAD"@, FormModel {
            pargs: NArgs::Fixed(2),
            kwargs: Seq::<(Seq<char>, KwargModel)>::empty()
                .push(("INACTIVITY_TIMEOUT"@, plain_kwarg(NArgs::Fixed(1))))
                .push(("LOG"@, plain_kwarg(NArgs::Fixed(1))))
                .push(("STATUS"@, plain_kwarg(NArgs::Fixed(1))))
                .push(("TIMEOUT"@, plain_kwarg(NArgs::Fixed(1))))
                .push(("USERPWD"@, plain_kwarg(NArgs::Fixed(1))))
                .push(("HTTPHEADER"@, plain_kwarg(NArgs::Fixed(1))))
                .push(("NETRC"@, plain_kwarg(NArgs::Fixed(1))))
                .push(("NETRC_FILE"@, plain_kwarg(NArgs::Fixed(1))))
                .push(("TLS_VERSION"@, plain_kwarg(NArgs::Fixed(1))))
                .push(("TLS_VERIFY"@, plain_kwarg(NArgs::Fixed(1))))
                .push(("TLS_CAINFO"@, plain_kwarg(NArgs::Fixed(1)))),
            flags: Seq::<Seq<char>>::empty().push("SHOW_PROGRESS"@),
            layout: None,
        }))
        .push(("ARCHIVE_CREATE"@, FormModel {
            pargs: NArgs::ZeroOrMore,
            kwargs: Seq::<(Seq<char>, KwargModel)>::empty()
                .push(("OUTPUT"@, plain_kwarg(NArgs::Fixed(1))))
                .push(("PATHS"@, plain_kwarg(NArgs::OneOrMore)))
                .push(("FORMAT"@, plain_kwarg(NArgs::Fixed(1))))
                .push(("COMPRESSION"@, plain_kwarg(NArgs::Fixed(1))))
                .push(("COMPRESSION_LEVEL"@, plain_kwarg(NArgs::Fixed(1))))
                .push(("MTIME"@, plain_kwarg(NArgs::Fixed(1))))
                .push(("THREADS"@, plain_kwarg(NArgs::Fixed(1))))
                .push(("WORKING_DIRECTORY"@, plain_kwarg(NArgs::Fixed(1)))),
            flags: Seq::<Seq<char>>::empty().push("VERBOSE"@),
            layout: None,
        }))
        .push(("ARCHIVE_EXTRACT"@, FormModel {
            pargs: NArgs::ZeroOrMore,
            kwargs: Seq::<(Seq<char>, KwargModel)>::empty()
                .push(("INPUT"@, plain_kwarg(NArgs::Fixed(1))))
                .push(("DESTINATION"@, plain_kwarg(NArgs::Fixed(1))))
                .push(("PATTERNS"@, plain_kwarg(NArgs::OneOrMore)))
                .push(("ENCODING"@, plain_kwarg(NArgs::Fixed(1)))),
            flags: Seq::<Seq<char>>::empty().push("LIST_ONLY"@).push("VERBOSE"@).push("TOUCH"@),
            layout: None,
        }))
        .push(("SIZE"@, FormModel {
            pargs: NArgs::Fixed(2),
            kwargs: Seq::<(Seq<char>, KwargModel)>::empty(),
            flags: Seq::<Seq<char>>::empty(),
            layout: None,
        }))
        .push(("READ_SYMLINK"@, FormModel {
            pargs: NArgs::Fixed(2),
            kwargs: Seq::<(Seq<char>, KwargModel)>::empty(),
            flags: Seq::<Seq<char>>::empty(),
            layout: None,
        }))
        .push(("CREATE_LINK"@, FormModel {
            pargs: NArgs::Fixed(2),
            kwargs: Seq::<(Seq<char>, KwargModel)>::empty()
                .push(("RESULT"@, plain_kwarg(NArgs::Fixed(1)))),
            flags: Seq::<Seq<char>>::empty().push("COPY_ON_ERROR"@).push("SYMBOLIC"@),
            layout: None,
        }))
        .push(("CHMOD"@, FormModel {
            pargs: NArgs::OneOrMore,
            kwargs: Seq::<(Seq<char>, KwargModel)>::empty()
                .push(("PERMISSIONS"@, plain_kwarg(NArgs::OneOrMore)))
                .push(("FILE_PERMISSIONS"@, plain_kwarg(NArgs::OneOrMore)))
                .push(("DIRECTORY_PERMISSIONS"@, plain_kwarg(NArgs::OneOrMore))),
            flags: Seq::<Seq<char>>::empty(),
            layout: None,
        }))
        .push(("CHMOD_RECURSE"@, FormModel {
            pargs: NArgs::OneOrMore,
            kwargs: Seq::<(Seq<char>, KwargModel)>::empty()
                .push(("PERMISSIONS"@, plain_kwarg(NArgs::OneOrMore)))
                .push(("FILE_PERMISSIONS"@, plain_kwarg(NArgs::OneOrMore)))
                .push(("DIRECTORY_PERMISSIONS"@, plain_kwarg(NArgs::OneOrMore))),
            flags: Seq::<Seq<char>>::empty(),
            layout: None,
        }))
        .push(("REAL_PATH"@, FormModel {
            pargs: NArgs::Fixed(2),
            kwargs: Seq::<(Seq<char>, KwargModel)>::empty()
                .push(("BASE_DIRECTORY"@, plain_kwarg(NArgs::Fixed(1)))),
            flags: Seq::<Seq<char>>::empty().push("EXPAND_TILDE"@),
            layout: None,
        }))
        .push(("RELATIVE_PATH"@, FormModel {
            pargs: NArgs::Fixed(3),
            kwargs: Seq::<(Seq<char>, KwargModel)>::empty(),
            flags: Seq::<Seq<char>>::empty(),
            layout: None,
        }))
        .push(("TO_CMAKE_PATH"@, FormModel {
            pargs: NArgs::Fixed(2),
            kwargs: Seq::<(Seq<char>, KwargModel)>::empty(),
            flags: Seq::<Seq<char>>::empty(),
            layout: None,
        }))
        .push(("TO_NATIVE_PATH"@, FormModel {
            pargs: NArgs::Fixed(2),
            kwargs: Seq::<(Seq<char>, KwargModel)>::empty(),
            flags: Seq::<Seq<char>>::empty(),
            layout: None,
        }))
        .push(("TIMESTAMP"@, FormModel {
            pargs: NArgs::AtLeast(2),
            kwargs: Seq::<(Seq<char>, KwargModel)>::empty(),
            flags: Seq::<Seq<char>>::empty().push("UTC"@),
            layout: None,
        }))
        .push(("GENERATE"@, FormModel {
            pargs: NArgs::ZeroOrMore,
            kwargs: Seq::<(Seq<char>, KwargModel)>::empty()
                .push(("OUTPUT"@, plain_kwarg(NArgs::Fixed(1))))
                .push(("INPUT"@, plain_kwarg(NArgs::Fixed(1))))
                .push(("CONTENT"@, plain_kwarg(NArgs::OneOrMore)))
                .push(("CONDITION"@, plain_kwarg(NArgs::Fixed(1))))
                .push(("TARGET"@, plain_kwarg(NArgs::Fixed(1))))
                .push(("FILE_PERMISSIONS"@, plain_kwarg(NArgs::OneOrMore)))
                .push(("NEWLINE_STYLE"@, plain_kwarg(NArgs::Fixed(1)))),
            flags: Seq::<Seq<char>>::empty().push("NO_SOURCE_PERMISSIONS"@).push("USE_SOURCE_PERMISSIONS"@),
            layout: None,
        }))
        .push(("CONFIGURE"@, FormModel {
            pargs: NArgs::ZeroOrMore,
            kwargs: Seq::<(Seq<char>, KwargModel)>::empty()
                .push(("OUTPUT"@, plain_kwarg(NArgs::Fixed(1))))
                .push(("CONTENT"@, plain_kwarg(NArgs::OneOrMore)))
                .push(("NEWLINE_STYLE"@, plain_kwarg(NArgs::Fixed(1)))),
            flags: Seq::<Seq<char>>::empty().push("ESCAPE_QUOTES"@).push("@ONLY"@),
            layout: None,
        }))
        .push(("LOCK"@, FormModel {
            pargs: NArgs::Fixed(1),
            kwargs: Seq::<(Seq<char>, KwargModel)>::empty()
                .push(("GUARD"@, plain_kwarg(NArgs::Fixed(1))))
                .push(("RESULT_VARIABLE"@, plain_kwarg(NArgs::Fixed(1))))
                .push(("TIMEOUT"@, plain_kwarg(NArgs::Fixed(1)))),
            flags: Seq::<Seq<char>>::empty().push("DIRECTORY"@).push("RELEASE"@),
            layout: None,
        }))
        .push(("TOUCH"@, FormModel {
            pargs: NArgs::ZeroOrMore,
            kwargs: Seq::<(Seq<char>, KwargModel)>::empty(),
            flags: Seq::<Seq<char>>::empty(),
            layout: None,
        }))
        .push(("TOUCH_NOCREATE"@, FormModel {
            pargs: NArgs::ZeroOrMore,
            kwargs: Seq::<(Seq<char>, KwargModel)>::empty(),
            flags: Seq::<Seq<char>>::empty(),
            layout: None,
        }))
        .push(("GET_RUNTIME_DEPENDENCIES"@, FormModel {
            pargs: NArgs::ZeroOrMore,
            kwargs: Seq::<(Seq<char>, KwargModel)>::empty()
                .push(("RESOLVED_DEPENDENCIES_VAR"@, plain_kwarg(NArgs::Fixed(1))))
                .push(("UNRESOLVED_DEPENDENCIES_VAR"@, plain_kwarg(NArgs::Fixed(1))))
                .push(("CONFLICTING_DEPENDENCIES_PREFIX"@, plain_kwarg(NArgs::Fixed(1))))
                .push(("EXECUTABLES"@, plain_kwarg(NArgs::OneOrMore)))
                .push(("LIBRARIES"@, plain_kwarg(NArgs::OneOrMore)))
                .push(("MODULES"@, plain_kwarg(NArgs::OneOrMore)))
                .push(("DIRECTORIES"@, plain_kwarg(NArgs::OneOrMore)))
                .push(("BUNDLE_EXECUTABLE"@, plain_kwarg(NArgs::Fixed(1))))
                .push(("PRE_INCLUDE_REGEXES"@, plain_kwarg(NArgs::OneOrMore)))
                .push(("PRE_EXCLUDE_REGEXES"@, plain_kwarg(NArgs::OneOrMore)))
                .push(("POST_INCLUDE_REGEXES"@, plain_kwarg(NArgs::OneOrMore)))
                .push(("POST_EXCLUDE_REGEXES"@, plain_kwarg(NArgs::OneOrMore)))
                .push(("POST_INCLUDE_FILES"@, plain_kwarg(NArgs::OneOrMore)))
                .push(("POST_EXCLUDE_FILES"@, plain_kwarg(NArgs::OneOrMore))),
            flags: Seq::<Seq<char>>::empty(),
            layout: None,
        })),
        fallback: None,
    }
}

/// The built-in spec of `file`.
fn builtin_file() -> (r: (String, CommandSpec))
    ensures
        r.0@ == "file"@,
        spec_model(r.1) == builtin_file_model(),
        spec_wf(r.1),
{
    let mut forms = new_forms();
    let mut form0_kwargs = new_kwargs();
    push_kwarg(&mut form0_kwargs, "OFFSET", NArgs::Fixed(1));
    push_kwarg(&mut form0_kwargs, "LIMIT", NArgs::Fixed(1));
    let mut form0_flags = new_flags();
    push_flag(&mut form0_flags, "HEX");
    push_form(&mut forms, "READ", NArgs::Fixed(2), form0_kwargs, form0_flags);
    let mut form1_kwargs = new_kwargs();
    push_kwarg(&mut form1_kwargs, "LENGTH_MAXIMUM", NArgs::Fixed(1));
    push_kwarg(&mut form1_kwargs, "LENGTH_MINIMUM", NArgs::Fixed(1));
    push_kwarg(&mut form1_kwargs, "LIMIT_COUNT", NArgs::Fixed(1));
    push_kwarg(&mut form1_kwargs, "LIMIT_INPUT", NArgs::Fixed(1));
    push_kwarg(&mut form1_kwargs, "LIMIT_OUTPUT", NArgs::Fixed(1));
    push_kwarg(&mut form1_kwargs, "REGEX", NArgs::Fixed(1));
    push_kwarg(&mut form1_kwargs, "ENCODING", NArgs::Fixed(1));
    let mut form1_flags = new_flags();
    push_flag(&mut form1_flags, "NEWLINE_CONSUME");
    push_flag(&mut form1_flags, "NO_HEX_CONVERSION");
    push_form(&mut forms, "STRINGS", NArgs::Fixed(2), form1_kwargs, form1_flags);
    let mut form2_kwargs = new_kwargs();
    let mut form2_flags = new_flags();
    push_form(&mut forms, "WRITE", NArgs::AtLeast(1), form2_kwargs, form2_flags);
    let mut form3_kwargs = new_kwargs();
    let mut form3_flags = new_flags();
    push_form(&mut forms, "APPEND", NArgs::AtLeast(1), form3_kwargs, form3_flags);
    let mut form4_kwargs = new_kwargs();
    push_kwarg(&mut form4_kwargs, "LIST_DIRECTORIES", NArgs::Fixed(1));
    push_kwarg(&mut form4_kwargs, "RELATIVE", NArgs::Fixed(1));
    let mut form4_flags = new_flags();
    push_flag(&mut form4_flags, "CONFIGURE_DEPENDS");
    push_form(&mut forms, "GLOB", NArgs::Fixed(1), form4_kwargs, form4_flags);
    let mut form5_kwargs = new_kwargs();
    push_kwarg(&mut form5_kwargs, "LIST_DIRECTORIES", NArgs::Fixed(1));
    push_kwarg(&mut form5_kwargs, "RELATIVE", NArgs::Fixed(1));
    let mut form5_flags = new_flags();
    push_flag(&mut form5_flags, "FOLLOW_SYMLINKS");
    push_flag(&mut form5_flags, "CONFIGURE_DEPENDS");
    push_form(&mut forms, "GLOB_RECURSE", NArgs::Fixed(1), form5_kwargs, form5_flags);
    let mut form6_kwargs = new_kwargs();
    push_kwarg(&mut form6_kwargs, "RESULT", NArgs::Fixed(1));
    let mut form6_flags = new_flags();
    push_form(&mut forms, "MAKE_DIRECTORY", NArgs::ZeroOrMore, form6_kwargs, form6_flags);
    let mut form7_kwargs = new_kwargs();
    let mut form7_flags = new_flags();
    push_form(&mut forms, "REMOVE", NArgs::ZeroOrMore, form7_kwargs, form7_flags);
    let mut form8_kwargs = new_kwargs();
    let mut form8_flags = new_flags();
    push_form(&mut forms, "REMOVE_RECURSE", NArgs::ZeroOrMore, form8_kwargs, form8_flags);
    let mut form9_kwargs = new_kwargs();
    push_kwarg(&mut form9_kwargs, "RESULT", NArgs::Fixed(1));
    let mut form9_flags = new_flags();
    push_flag(&mut form9_flags, "NO_REPLACE");
    push_form(&mut forms, "RENAME", NArgs::Fixed(2), form9_kwargs, form9_flags);
    let mut form10_kwargs = new_kwargs();
    push_kwarg(&mut form10_kwargs, "RESULT", NArgs::Fixed(1));
    push_kwarg(&mut form10_kwargs, "INPUT_MAY_BE_RECENT", NArgs::Fixed(1));
    let mut form10_flags = new_flags();
    push_flag(&mut form10_flags, "ONLY_IF_DIFFERENT");
    push_form(&mut forms, "COPY_FILE", NArgs::Fixed(2), form10_kwargs, form10_flags);
    let mut form11_kwargs = new_kwargs();
    push_kwarg(&mut form11_kwargs, "DESTINATION", NArgs::Fixed(1));
    push_kwarg(&mut form11_kwargs, "FILE_PERMISSIONS", NArgs::OneOrMore);
    push_kwarg(&mut form11_kwargs, "DIRECTORY_PERMISSIONS", NArgs::OneOrMore);
    push_kwarg(&mut form11_kwargs, "PATTERN", NArgs::Fixed(1));
    push_kwarg(&mut form11_kwargs, "REGEX", NArgs::Fixed(1));
    push_kwarg(&mut form11_kwargs, "PERMISSIONS", NArgs::OneOrMore);
    let mut form11_flags = new_flags();
    push_flag(&mut form11_flags, "NO_SOURCE_PERMISSIONS");
    push_flag(&mut form11_flags, "USE_SOURCE_PERMISSIONS");
    push_flag(&mut form11_flags, "FOLLOW_SYMLINK_CHAIN");
    push_flag(&mut form11_flags, "FILES_MATCHING");
    push_flag(&mut form11_flags, "EXCLUDE");
    push_form(&mut forms, "COPY", NArgs::OneOrMore, form11_kwargs, form11_flags);
    let mut form12_kwargs = new_kwargs();
    push_kwarg(&mut form12_kwargs, "DESTINATION", NArgs::Fixed(1));
    push_kwarg(&mut form12_kwargs, "FILE_PERMISSIONS", NArgs::OneOrMore);
    push_kwarg(&mut form12_kwargs, "DIRECTORY_PERMISSIONS", NArgs::OneOrMore);
    push_kwarg(&mut form12_kwargs, "PATTERN", NArgs::Fixed(1));
    push_kwarg(&mut form12_kwargs, "REGEX", NArgs::Fixed(1));
    push_kwarg(&mut form12_kwargs, "PERMISSIONS", NArgs::OneOrMore);
    let mut form12_flags = new_flags();
    push_flag(&mut form12_flags, "NO_SOURCE_PERMISSIONS");
    push_flag(&mut form12_flags, "USE_SOURCE_PERMISSIONS");
    push_flag(&mut form12_flags, "FOLLOW_SYMLINK_CHAIN");
    push_flag(&mut form12_flags, "FILES_MATCHING");
    push_flag(&mut form12_flags, "EXCLUDE");
    push_form(&mut forms, "INSTALL", NArgs::OneOrMore, form12_kwargs, form12_flags);
    let mut form13_kwargs = new_kwargs();
    push_kwarg(&mut form13_kwargs, "INACTIVITY_TIMEOUT", NArgs::Fixed(1));
    push_kwarg(&mut form13_kwargs, "LOG", NArgs::Fixed(1));
    push_kwarg(&mut form13_kwargs, "STATUS", NArgs::Fixed(1));
    push_kwarg(&mut form13_kwargs, "TIMEOUT", NArgs::Fixed(1));
    push_kwarg(&mut form13_kwargs, "USERPWD", NArgs::Fixed(1));
    push_kwarg(&mut form13_kwargs, "HTTPHEADER", NArgs::Fixed(1));
    push_kwarg(&mut form13_kwargs, "NETRC", NArgs::Fixed(1));
    push_kwarg(&mut form13_kwargs, "NETRC_FILE", NArgs::Fixed(1));
    push_kwarg(&mut form13_kwargs, "EXPECTED_HASH", NArgs::Fixed(1));
    push_kwarg(&mut form13_kwargs, "EXPECTED_MD5", NArgs::Fixed(1));
    push_kwarg(&mut form13_kwargs, "TLS_VERSION", NArgs::Fixed(1));
    push_kwarg(&mut form13_kwargs, "TLS_VERIFY", NArgs::Fixed(1));
    push_kwarg(&mut form13_kwargs, "TLS_CAINFO", NArgs::Fixed(1));
    push_kwarg(&mut form13_kwargs, "RANGE_START", NArgs::Fixed(1));
    push_kwarg(&mut form13_kwargs, "RANGE_END", NArgs::Fixed(1));
    let mut form13_flags = new_flags();
    push_flag(&mut form13_flags, "SHOW_PROGRESS");
    push_form(&mut forms, "DOWNLOAD", NArgs::AtLeast(1), form13_kwargs, form13_flags);
    let mut form14_kwargs = new_kwargs();
    push_kwarg(&mut form14_kwargs, "INACTIVITY_TIMEOUT", NArgs::Fixed(1));
    push_kwarg(&mut form14_kwargs, "LOG", NArgs::Fixed(1));
    push_kwarg(&mut form14_kwargs, "STATUS", NArgs::Fixed(1));
    push_kwarg(&mut form14_kwargs, "TIMEOUT", NArgs::Fixed(1));
    push_kwarg(&mut form14_kwargs, "USERPWD", NArgs::Fixed(1));
    push_kwarg(&mut form14_kwargs, "HTTPHEADER", NArgs::Fixed(1));
    push_kwarg(&mut form14_kwargs, "NETRC", NArgs::Fixed(1));
    push_kwarg(&mut form14_kwargs, "NETRC_FILE", NArgs::Fixed(1));
    push_kwarg(&mut form14_kwargs, "TLS_VERSION", NArgs::Fixed(1));
    push_kwarg(&mut form14_kwargs, "TLS_VERIFY", NArgs::Fixed(1));
    push_kwarg(&mut form14_kwargs, "TLS_CAINFO", NArgs::Fixed(1));
    let mut form14_flags = new_flags();
    push_flag(&mut form14_flags, "SHOW_PROGRESS");
    push_form(&mut forms, "UPLOAD", NArgs::Fixed(2), form14_kwargs, form14_flags);
    let mut form15_kwargs = new_kwargs();
    push_kwarg(&mut form15_kwargs, "OUTPUT", NArgs::Fixed(1));
    push_kwarg(&mut form15_kwargs, "PATHS", NArgs::OneOrMore);
    push_kwarg(&mut form15_kwargs, "FORMAT", NArgs::Fixed(1));
    push_kwarg(&mut form15_kwargs, "COMPRESSION", NArgs::Fixed(1));
    push_kwarg(&mut form15_kwargs, "COMPRESSION_LEVEL", NArgs::Fixed(1));
    push_kwarg(&mut form15_kwargs, "MTIME", NArgs::Fixed(1));
    push_kwarg(&mut form15_kwargs, "THREADS", NArgs::Fixed(1));
    push_kwarg(&mut form15_kwargs, "WORKING_DIRECTORY", NArgs::Fixed(1));
    let mut form15_flags = new_flags();
    push_flag(&mut form15_flags, "VERBOSE");
    push_form(&mut forms, "ARCHIVE_CREATE", NArgs::ZeroOrMore, form15_kwargs, form15_flags);
    let mut form16_kwargs = new_kwargs();
    push_kwarg(&mut form16_kwargs, "INPUT", NArgs::Fixed(1));
    push_kwarg(&mut form16_kwargs, "DESTINATION", NArgs::Fixed(1));
    push_kwarg(&mut form16_kwargs, "PATTERNS", NArgs::OneOrMore);
    push_kwarg(&mut form16_kwargs, "ENCODING", NArgs::Fixed(1));
    let mut form16_flags = new_flags();
    push_flag(&mut form16_flags, "LIST_ONLY");
    push_flag(&mut form16_flags, "VERBOSE");
    push_flag(&mut form16_flags, "TOUCH");
    push_form(&mut forms, "ARCHIVE_EXTRACT", NArgs::ZeroOrMore, form16_kwargs, form16_flags);
    let mut form17_kwargs = new_kwargs();
    let mut form17_flags = new_flags();
    push_form(&mut forms, "SIZE", NArgs::Fixed(2), form17_kwargs, form17_flags);
    let mut form18_kwargs = new_kwargs();
    let mut form18_flags = new_flags();
    push_form(&mut forms, "READ_SYMLINK", NArgs::Fixed(2), form18_kwargs, form18_flags);
    let mut form19_kwargs = new_kwargs();
    push_kwarg(&mut form19_kwargs, "RESULT", NArgs::Fixed(1));
    let mut form19_flags = new_flags();
    push_flag(&mut form19_flags, "COPY_ON_ERROR");
    push_flag(&mut form19_flags, "SYMBOLIC");
    push_form(&mut forms, "CREATE_LINK", NArgs::Fixed(2), form19_kwargs, form19_flags);
    let mut form20_kwargs = new_kwargs();
    push_kwarg(&mut form20_kwargs, "PERMISSIONS", NArgs::OneOrMore);
    push_kwarg(&mut form20_kwargs, "FILE_PERMISSIONS", NArgs::OneOrMore);
    push_kwarg(&mut form20_kwargs, "DIRECTORY_PERMISSIONS", NArgs::OneOrMore);
    let mut form20_flags = new_flags();
    push_form(&mut forms, "CHMOD", NArgs::OneOrMore, form20_kwargs, form20_flags);
    let mut form21_kwargs = new_kwargs();
    push_kwarg(&mut form21_kwargs, "PERMISSIONS", NArgs::OneOrMore);
    push_kwarg(&mut form21_kwargs, "FILE_PERMISSIONS", NArgs::OneOrMore);
    push_kwarg(&mut form21_kwargs, "DIRECTORY_PERMISSIONS", NArgs::OneOrMore);
    let mut form21_flags = new_flags();
    push_form(&mut forms, "CHMOD_RECURSE", NArgs::OneOrMore, form21_kwargs, form21_flags);
    let mut form22_kwargs = new_kwargs();
    push_kwarg(&mut form22_kwargs, "BASE_DIRECTORY", NArgs::Fixed(1));
    let mut form22_flags = new_flags();
    push_flag(&mut form22_flags, "EXPAND_TILDE");
    push_form(&mut forms, "REAL_PATH", NArgs::Fixed(2), form22_kwargs, form22_flags);
    let mut form23_kwargs = new_kwargs();
    let mut form23_flags = new_flags();
    push_form(&mut forms, "RELATIVE_PATH", NArgs::Fixed(3), form23_kwargs, form23_flags);
    let mut form24_kwargs = new_kwargs();
    let mut form24_flags = new_flags();
    push_form(&mut forms, "TO_CMAKE_PATH", NArgs::Fixed(2), form24_kwargs, form24_flags);
    let mut form25_kwargs = new_kwargs();
    let mut form25_flags = new_flags();
    push_form(&mut forms, "TO_NATIVE_PATH", NArgs::Fixed(2), form25_kwargs, form25_flags);
    let mut form26_kwargs = new_kwargs();
    let mut form26_flags = new_flags();
    push_flag(&mut form26_flags, "UTC");
    push_form(&mut forms, "TIMESTAMP", NArgs::AtLeast(2), form26_kwargs, form26_flags);
    let mut form27_kwargs = new_kwargs();
    push_kwarg(&mut form27_kwargs, "OUTPUT", NArgs::Fixed(1));
    push_kwarg(&mut form27_kwargs, "INPUT", NArgs::Fixed(1));
    push_kwarg(&mut form27_kwargs, "CONTENT", NArgs::OneOrMore);
    push_kwarg(&mut form27_kwargs, "CONDITION", NArgs::Fixed(1));
    push_kwarg(&mut form27_kwargs, "TARGET", NArgs::Fixed(1));
    push_kwarg(&mut form27_kwargs, "FILE_PERMISSIONS", NArgs::OneOrMore);
    push_kwarg(&mut form27_kwargs, "NEWLINE_STYLE", NArgs::Fixed(1));
    let mut form27_flags = new_flags();
    push_flag(&mut form27_flags, "NO_SOURCE_PERMISSIONS");
    push_flag(&mut form27_flags, "USE_SOURCE_PERMISSIONS");
    push_form(&mut forms, "GENERATE", NArgs::ZeroOrMore, form27_kwargs, form27_flags);
    let mut form28_kwargs = new_kwargs();
    push_kwarg(&mut form28_kwargs, "OUTPUT", NArgs::Fixed(1));
    push_kwarg(&mut form28_kwargs, "CONTENT", NArgs::OneOrMore);
    push_kwarg(&mut form28_kwargs, "NEWLINE_STYLE", NArgs::Fixed(1));
    let mut form28_flags = new_flags();
    push_flag(&mut form28_flags, "ESCAPE_QUOTES");
    push_flag(&mut form28_flags, "@ONLY");
    push_form(&mut forms, "CONFIGURE", NArgs::ZeroOrMore, form28_kwargs, form28_flags);
    let mut form29_kwargs = new_kwargs();
    push_kwarg(&mut form29_kwargs, "GUARD", NArgs::Fixed(1));
    push_kwarg(&mut form29_kwargs, "RESULT_VARIABLE", NArgs::Fixed(1));
    push_kwarg(&mut form29_kwargs, "TIMEOUT", NArgs::Fixed(1));
    let mut form29_flags = new_flags();
    push_flag(&mut form29_flags, "DIRECTORY");
    push_flag(&mut form29_flags, "RELEASE");
    push_form(&mut forms, "LOCK", NArgs::Fixed(1), form29_kwargs, form29_flags);
    let mut form30_kwargs = new_kwargs();
    let mut form30_flags = new_flags();
    push_form(&mut forms, "TOUCH", NArgs::ZeroOrMore, form30_kwargs, form30_flags);
    let mut form31_kwargs = new_kwargs();
    let mut form31_flags = new_flags();
    push_form(&mut forms, "TOUCH_NOCREATE", NArgs::ZeroOrMore, form31_kwargs, form31_flags);
    let mut form32_kwargs = new_kwargs();
    push_kwarg(&mut form32_kwargs, "RESOLVED_DEPENDENCIES_VAR", NArgs::Fixed(1));
    push_kwarg(&mut form32_kwargs, "UNRESOLVED_DEPENDENCIES_VAR", NArgs::Fixed(1));
    push_kwarg(&mut form32_kwargs, "CONFLICTING_DEPENDENCIES_PREFIX", NArgs::Fixed(1));
    push_kwarg(&mut form32_kwargs, "EXECUTABLES", NArgs::OneOrMore);
    push_kwarg(&mut form32_kwargs, "LIBRARIES", NArgs::OneOrMore);
    push_kwarg(&mut form32_kwargs, "MODULES", NArgs::OneOrMore);
    push_kwarg(&mut form32_kwargs, "DIRECTORIES", NArgs::OneOrMore);
    push_kwarg(&mut form32_kwargs, "BUNDLE_EXECUTABLE", NArgs::Fixed(1));
    push_kwarg(&mut form32_kwargs, "PRE_INCLUDE_REGEXES", NArgs::OneOrMore);
    push_kwarg(&mut form32_kwargs, "PRE_EXCLUDE_REGEXES", NArgs::OneOrMore);
    push_kwarg(&mut form32_kwargs, "POST_INCLUDE_REGEXES", NArgs::OneOrMore);
    push_kwarg(&mut form32_kwargs, "POST_EXCLUDE_REGEXES", NArgs::OneOrMore);
    push_kwarg(&mut form32_kwargs, "POST_INCLUDE_FILES", NArgs::OneOrMore);
    push_kwarg(&mut form32_kwargs, "POST_EXCLUDE_FILES", NArgs::OneOrMore);
    let mut form32_flags = new_flags();
    push_form(&mut forms, "GET_RUNTIME_DEPENDENCIES", NArgs::ZeroOrMore, form32_kwargs, form32_flags);
    (owned("file"), CommandSpec::Discriminated { forms, fallback: None })
}

/// The built-in spec of `string`, as values.
pub open spec fn builtin_string_model() -> SpecModel {
    SpecModel::Discriminated {
        forms: Seq::<(Seq<char>, FormModel)>::empty()
        .push(("FIND"@, FormModel {
            pargs: NArgs::Fixed(3),
            kwargs: Seq::<(Seq<char>, KwargModel)>::empty(),
            flags: Seq::<Seq<char>>::empty().push("REVERSE"@),
            layout: None,
        }))
        .push(("REPLACE"@, FormModel {
            pargs: NArgs::AtLeast(3),
            kwargs: Seq::<(Seq<char>, KwargModel)>::empty(),
            flags: Seq::<Seq<char>>::empty(),
            layout: None,
        }))
        .push(("REGEX"@, FormModel {
            pargs: NArgs::AtLeast(3),
            kwargs: Seq::<(Seq<char>, KwargModel)>::empty(),
            flags: Seq::<Seq<char>>::empty().push("MATCH"@).push("MATCHALL"@).push("REPLACE"@).push("QUOTE"@),
            layout: None,
        }))
        .push(("APPEND"@, FormModel {
            pargs: NArgs::AtLeast(1),
            kwargs: Seq::<(Seq<char>, KwargModel)>::empty(),
            flags: Seq::<Seq<char>>::empty(),
            layout: None,
        }))
        .push(("PREPEND"@, FormModel {
            pargs: NArgs::AtLeast(1),
            kwargs: Seq::<(Seq<char>, KwargModel)>::empty(),
            flags: Seq::<Seq<char>>::empty(),
            layout: None,
        }))
        .push(("CONCAT"@, FormModel {
            pargs: NArgs::AtLeast(1),
            kwargs: Seq::<(Seq<char>, KwargModel)>::empty(),
            flags: Seq::<Seq<char>>::empty(),
            layout: None,
        }))
        .push(("JOIN"@, FormModel {
            pargs: NArgs::AtLeast(2),
            kwargs: Seq::<(Seq<char>, KwargModel)>::empty(),
            flags: Seq::<Seq<char>>::empty(),
            layout: None,
        }))
        .push(("TOLOWER"@, FormModel {
            pargs: NArgs::Fixed(2),
            kwargs: Seq::<(Seq<char>, KwargModel)>::empty(),
            flags: Seq::<Seq<char>>::empty(),
            layout: None,
        }))
        .push(("TOUPPER"@, FormModel {
            pargs: NArgs::Fixed(2),
            kwargs: Seq::<(Seq<char>, KwargModel)>::empty(),
            flags: Seq::<Seq<char>>::empty(),
            layout: None,
        }))
        .push(("LENGTH"@, FormModel {
            pargs: NArgs::Fixed(2),
            kwargs: Seq::<(Seq<char>, KwargModel)>::empty(),
            flags: Seq::<Seq<char>>::empty(),
            layout: None,
        }))
        .push(("SUBSTRING"@, FormModel {
            pargs: NArgs::Fixed(4),
            kwargs: Seq::<(Seq<char>, KwargModel)>::empty(),
            flags: Seq::<Seq<char>>::empty(),
            layout: None,
        }))
        .push(("STRIP"@, FormModel {
            pargs: NArgs::Fixed(2),
            kwargs: Seq::<(Seq<char>, KwargModel)>::empty(),
            flags: Seq::<Seq<char>>::empty(),
            layout: None,
        }))
        .push(("GENEX_STRIP"@, FormModel {
            pargs: NArgs::Fixed(2),
            kwargs: Seq::<(Seq<char>, KwargModel)>::empty(),
            flags: Seq::<Seq<char>>::empty(),
            layout: None,
        }))
        .push(("REPEAT"@, FormModel {
            pargs: NArgs::Fixed(3),
            kwargs: Seq::<(Seq<char>, KwargModel)>::empty(),
            flags: Seq::<Seq<char>>::empty(),
            layout: None,
        }))
        .push(("COMPARE"@, FormModel {
            pargs: NArgs::Fixed(4),
            kwargs: Seq::<(Seq<char>, KwargModel)>::empty(),
            flags: Seq::<Seq<char>>::empty(),
            layout: None,
        }))
        .push(("ASCII"@, FormModel {
            pargs: NArgs::AtLeast(2),
            kwargs: Seq::<(Seq<char>, KwargModel)>::empty(),
            flags: Seq::<Seq<char>>::empty(),
            layout: None,
        }))
        .push(("HEX"@, FormModel {
            pargs: NArgs::Fixed(2),
            kwargs: Seq::<(Seq<char>, KwargModel)>::empty(),
            flags: Seq::<Seq<char>>::empty(),
            layout: None,
        }))
        .push(("CONFIGURE"@, FormModel {
            pargs: NArgs::Fixed(2),
            kwargs: Seq::<(Seq<char>, KwargModel)>::empty(),
            flags: Seq::<Seq<char>>::empty().push("@ONLY"@).push("ESCAPE_QUOTES"@),
            layout: None,
        }))
        .push(("MAKE_C_IDENTIFIER"@, FormModel {
            pargs: NArgs::Fixed(2),
            kwargs: Seq::<(Seq<char>, KwargModel)>::empty(),
            flags: Seq::<Seq<char>>::empty(),
            layout: None,
        }))
        .push(("RANDOM"@, FormModel {
            pargs: NArgs::Fixed(1),
            kwargs: Seq::<(Seq<char>, KwargModel)>::empty()
                .push(("LENGTH"@, plain_kwarg(NArgs::Fixed(1))))
                .push(("ALPHABET"@, plain_kwarg(NArgs::Fixed(1))))
                .push(("RANDOM_SEED"@, plain_kwarg(NArgs::Fixed(1)))),
            flags: Seq::<Seq<char>>::empty(),
            layout: None,
        }))
        .push(("TIMESTAMP"@, FormModel {
            pargs: NArgs::AtLeast(1),
            kwargs: Seq::<(Seq<char>, KwargModel)>::empty(),
            flags: Seq::<Seq<char>>::empty().push("UTC"@),
            layout: None,
        }))
        .push(("UUID"@, FormModel {
            pargs: NArgs::Fixed(1),
            kwargs: Seq::<(Seq<char>, KwargModel)>::empty()
                .push(("NAMESPACE"@, plain_kwarg(NArgs::Fixed(1))))
                .push(("NAME"@, plain_kwarg(NArgs::Fixed(1))))
                .push(("TYPE"@, plain_kwarg(NArgs::Fixed(1)))),
            flags: Seq::<Seq<char>>::empty().push("UPPER"@),
            layout: None,
        }))
        .push(("JSON"@, FormModel {
            pargs: NArgs::AtLeast(1),
            kwargs: Seq::<(Seq<char>, KwargModel)>::empty()
                .push(("ERROR_VARIABLE"@, plain_kwarg(NArgs::Fixed(1)))),
            flags: Seq::<Seq<char>>::empty().push("GET"@).push("GET_RAW"@).push("TYPE"@).push("MEMBER"@).push("LENGTH"@).push("REMOVE"@).push("SET"@).push("EQUAL"@).push("STRING_ENCODE"@),
            layout: None,
        })),
        fallback: None,
    }
}

/// The built-in spec of `string`.
fn builtin_string() -> (r: (String, CommandSpec))
    ensures
        r.0@ == "string"@,
        spec_model(r.1) == builtin_string_model(),
        spec_wf(r.1),
{
    let mut forms = new_forms();
    let mut form0_kwargs = new_kwargs();
    let mut form0_flags = new_flags();
    push_flag(&mut form0_flags, "REVERSE");
    push_form(&mut forms, "FIND", NArgs::Fixed(3), form0_kwargs, form0_flags);
    let mut form1_kwargs = new_kwargs();
    let mut form1_flags = new_flags();
    push_form(&mut forms, "REPLACE", NArgs::AtLeast(3), form1_kwargs, form1_flags);
    let mut form2_kwargs = new_kwargs();
    let mut form2_flags = new_flags();
    push_flag(&mut form2_flags, "MATCH");
    push_flag(&mut form2_flags, "MATCHALL");
    push_flag(&mut form2_flags, "REPLACE");
    push_flag(&mut form2_flags, "QUOTE");
    push_form(&mut forms, "REGEX", NArgs::AtLeast(3), form2_kwargs, form2_flags);
    let mut form3_kwargs = new_kwargs();
    let mut form3_flags = new_flags();
    push_form(&mut forms, "APPEND", NArgs::AtLeast(1), form3_kwargs, form3_flags);
    let mut form4_kwargs = new_kwargs();
    let mut form4_flags = new_flags();
    push_form(&mut forms, "PREPEND", NArgs::AtLeast(1), form4_kwargs, form4_flags);
    let mut form5_kwargs = new_kwargs();
    let mut form5_flags = new_flags();
    push_form(&mut forms, "CONCAT", NArgs::AtLeast(1), form5_kwargs, form5_flags);
    let mut form6_kwargs = new_kwargs();
    let mut form6_flags = new_flags();
    push_form(&mut forms, "JOIN", NArgs::AtLeast(2), form6_kwargs, form6_flags);
    let mut form7_kwargs = new_kwargs();
    let mut form7_flags = new_flags();
    push_form(&mut forms, "TOLOWER", NArgs::Fixed(2), form7_kwargs, form7_flags);
    let mut form8_kwargs = new_kwargs();
    let mut form8_flags = new_flags();
    push_form(&mut forms, "TOUPPER", NArgs::Fixed(2), form8_kwargs, form8_flags);
    let mut form9_kwargs = new_kwargs();
    let mut form9_flags = new_flags();
    push_form(&mut forms, "LENGTH", NArgs::Fixed(2), form9_kwargs, form9_flags);
    let mut form10_kwargs = new_kwargs();
    let mut form10_flags = new_flags();
    push_form(&mut forms, "SUBSTRING", NArgs::Fixed(4), form10_kwargs, form10_flags);
    let mut form11_kwargs = new_kwargs();
    let mut form11_flags = new_flags();
    push_form(&mut forms, "STRIP", NArgs::Fixed(2), form11_kwargs, form11_flags);
    let mut form12_kwargs = new_kwargs();
    let mut form12_flags = new_flags();
    push_form(&mut forms, "GENEX_STRIP", NArgs::Fixed(2), form12_kwargs, form12_flags);
    let mut form13_kwargs = new_kwargs();
    let mut form13_flags = new_flags();
    push_form(&mut forms, "REPEAT", NArgs::Fixed(3), form13_kwargs, form13_flags);
    let mut form14_kwargs = new_kwargs();
    let mut form14_flags = new_flags();
    push_form(&mut forms, "COMPARE", NArgs::Fixed(4), form14_kwargs, form14_flags);
    let mut form15_kwargs = new_kwargs();
    let mut form15_flags = new_flags();
    push_form(&mut forms, "ASCII", NArgs::AtLeast(2), form15_kwargs, form15_flags);
    let mut form16_kwargs = new_kwargs();
    let mut form16_flags = new_flags();
    push_form(&mut forms, "HEX", NArgs::Fixed(2), form16_kwargs, form16_flags);
    let mut form17_kwargs = new_kwargs();
    let mut form17_flags = new_flags();
    push_flag(&mut form17_flags, "@ONLY");
    push_flag(&mut form17_flags, "ESCAPE_QUOTES");
    push_form(&mut forms, "CONFIGURE", NArgs::Fixed(2), form17_kwargs, form17_flags);
    let mut form18_kwargs = new_kwargs();
    let mut form18_flags = new_flags();
    push_form(&mut forms, "MAKE_C_IDENTIFIER", NArgs::Fixed(2), form18_kwargs, form18_flags);
    let mut form19_kwargs = new_kwargs();
    push_kwarg(&mut form19_kwargs, "LENGTH", NArgs::Fixed(1));
    push_kwarg(&mut form19_kwargs, "ALPHABET", NArgs::Fixed(1));
    push_kwarg(&mut form19_kwargs, "RANDOM_SEED", NArgs::Fixed(1));
    let mut form19_flags = new_flags();
    push_form(&mut forms, "RANDOM", NArgs::Fixed(1), form19_kwargs, form19_flags);
    let mut form20_kwargs = new_kwargs();
    let mut form20_flags = new_flags();
    push_flag(&mut form20_flags, "UTC");
    push_form(&mut forms, "TIMESTAMP", NArgs::AtLeast(1), form20_kwargs, form20_flags);
    let mut form21_kwargs = new_kwargs();
    push_kwarg(&mut form21_kwargs, "NAMESPACE", NArgs::Fixed(1));
    push_kwarg(&mut form21_kwargs, "NAME", NArgs::Fixed(1));
    push_kwarg(&mut form21_kwargs, "TYPE", NArgs::Fixed(1));
    let mut form21_flags = new_flags();
    push_flag(&mut form21_flags, "UPPER");
    push_form(&mut forms, "UUID", NArgs::Fixed(1), form21_kwargs, form21_flags);
    let mut form22_kwargs = new_kwargs();
    push_kwarg(&mut form22_kwargs, "ERROR_VARIABLE", NArgs::Fixed(1));
    let mut form22_flags = new_flags();
    push_flag(&mut form22_flags, "GET");
    push_flag(&mut form22_flags, "GET_RAW");
    push_flag(&mut form22_flags, "TYPE");
    push_flag(&mut form22_flags, "MEMBER");
    push_flag(&mut form22_flags, "LENGTH");
    push_flag(&mut form22_flags, "REMOVE");
    push_flag(&mut form22_flags, "SET");
    push_flag(&mut form22_flags, "EQUAL");
    push_flag(&mut form22_flags, "STRING_ENCODE");
    push_form(&mut forms, "JSON", NArgs::AtLeast(1), form22_kwargs, form22_flags);
    (owned("string"), CommandSpec::Discriminated { forms, fallback: None })
}

/// The built-in spec of `configure_package_config_file`, as values.
pub open spec fn builtin_configure_package_config_file_model() -> SpecModel {
    SpecModel::Single(FormModel {
        pargs: NArgs::Fixed(2),
        kwargs: Seq::<(Seq<char>, KwargModel)>::empty()
            .push(("INSTALL_DESTINATION"@, plain_kwarg(NArgs::Fixed(1))))
            .push(("PATH_VARS"@, plain_kwarg(NArgs::OneOrMore)))
            .push(("INSTALL_PREFIX"@, plain_kwarg(NArgs::Fixed(1)))),
        flags: Seq::<Seq<char>>::empty().push("NO_SET_AND_CHECK_MACRO"@).push("NO_CHECK_REQUIRED_COMPONENTS_MACRO"@),
        layout: None,
    })
}

/// The built-in spec of `configure_package_config_file`.
fn builtin_configure_package_config_file() -> (r: (String, CommandSpec))
    ensures
        r.0@ == "configure_package_config_file"@,
        spec_model(r.1) == builtin_configure_package_config_file_model(),
        spec_wf(r.1),
{
    let mut f_kwargs = new_kwargs();
    push_kwarg(&mut f_kwargs, "INSTALL_DESTINATION", NArgs::Fixed(1));
    push_kwarg(&mut f_kwargs, "PATH_VARS", NArgs::OneOrMore);
    push_kwarg(&mut f_kwargs, "INSTALL_PREFIX", NArgs::Fixed(1));
    let mut f_flags = new_flags();
    push_flag(&mut f_flags, "NO_SET_AND_CHECK_MACRO");
    push_flag(&mut f_flags, "NO_CHECK_REQUIRED_COMPONENTS_MACRO");
    let f = CommandForm { pargs: NArgs::Fixed(2), kwargs: f_kwargs, flags: f_flags, layout: None };
    (owned("configure_package_config_file"), CommandSpec::Single(f))
}

/// The built-in spec of `write_basic_package_version_file`, as values.
pub open spec fn builtin_write_basic_package_version_file_model() -> SpecModel {
    SpecModel::Single(FormModel {
        pargs: NArgs::Fixed(1),
        kwargs: Seq::<(Seq<char>, KwargModel)>::empty()
            .push(("VERSION"@, plain_kwarg(NArgs::Fixed(1))))
            .push(("COMPATIBILITY"@, plain_kwarg(NArgs::Fixed(1)))),
        flags: Seq::<Seq<char>>::empty().push("ARCH_INDEPENDENT"@),
        layout: None,
    })
}

/// The built-in spec of `write_basic_package_version_file`.
fn builtin_write_basic_package_version_file() -> (r: (String, CommandSpec))
    ensures
        r.0@ == "write_basic_package_version_file"@,
        spec_model(r.1) == builtin_write_basic_package_version_file_model(),
        spec_wf(r.1),
{
    let mut f_kwargs = new_kwargs();
    push_kwarg(&mut f_kwargs, "VERSION", NArgs::Fixed(1));
    push_kwarg(&mut f_kwargs, "COMPATIBILITY", NArgs::Fixed(1));
    let mut f_flags = new_flags();
    push_flag(&mut f_flags, "ARCH_INDEPENDENT");
    let f = CommandForm { pargs: NArgs::Fixed(1), kwargs: f_kwargs, flags: f_flags, layout: None };
    (owned("write_basic_package_version_file"), CommandSpec::Single(f))
}

/// The built-in spec of `write_basic_config_version_file`, as values.
pub open spec fn builtin_write_basic_config_version_file_model() -> SpecModel {
    SpecModel::Single(FormModel {
        pargs: NArgs::Fixed(1),
        kwargs: Seq::<(Seq<char>, KwargModel)>::empty()
            .push(("VERSION"@, plain_kwarg(NArgs::Fixed(1))))
            .push(("COMPATIBILITY"@, plain_kwarg(NArgs::Fixed(1)))),
        flags: Seq::<Seq<char>>::empty().push("ARCH_INDEPENDENT"@),
        layout: None,
    })
}

/// The built-in spec of `write_basic_config_version_file`.
fn builtin_write_basic_config_version_file() -> (r: (String, CommandSpec))
    ensures
        r.0@ == "write_basic_config_version_file"@,
        spec_model(r.1) == builtin_write_basic_config_version_file_model(),
        spec_wf(r.1),
{
    let mut f_kwargs = new_kwargs();
    push_kwarg(&mut f_kwargs, "VERSION", NArgs::Fixed(1));
    push_kwarg(&mut f_kwargs, "COMPATIBILITY", NArgs::Fixed(1));
    let mut f_flags = new_flags();
    push_flag(&mut f_flags, "ARCH_INDEPENDENT");
    let f = CommandForm { pargs: NArgs::Fixed(1), kwargs: f_kwargs, flags: f_flags, layout: None };
    (owned("write_basic_config_version_file"), CommandSpec::Single(f))
}

/// The built-in spec of `cmake_dependent_option`, as values.
pub open spec fn builtin_cmake_dependent_option_model() -> SpecModel {
    SpecModel::Single(FormModel {
        pargs: NArgs::Fixed(5),
        kwargs: Seq::<(Seq<char>, KwargModel)>::empty(),
        flags: Seq::<Seq<char>>::empty(),
        layout: None,
    })
}

/// The built-in spec of `cmake_dependent_option`.
fn builtin_cmake_dependent_option() -> (r: (String, CommandSpec))
    ensures
        r.0@ == "cmake_dependent_option"@,
        spec_model(r.1) == builtin_cmake_dependent_option_model(),
        spec_wf(r.1),
{
    let mut f_kwargs = new_kwargs();
    let mut f_flags = new_flags();
    let f = CommandForm { pargs: NArgs::Fixed(5), kwargs: f_kwargs, flags: f_flags, layout: None };
    (owned("cmake_dependent_option"), CommandSpec::Single(f))
}

/// The built-in spec of `check_language`, as values.
pub open spec fn builtin_check_language_model() -> SpecModel {
    SpecModel::Single(FormModel {
        pargs: NArgs::Fixed(1),
        kwargs: Seq::<(Seq<char>, KwargModel)>::empty(),
        flags: Seq::<Seq<char>>::empty(),
        layout: None,
    })
}

/// The built-in spec of `check_language`.
fn builtin_check_language() -> (r: (String, CommandSpec))
    ensures
        r.0@ == "check_language"@,
        spec_model(r.1) == builtin_check_language_model(),
        spec_wf(r.1),
{
    let mut f_kwargs = new_kwargs();
    let mut f_flags = new_flags();
    let f = CommandForm { pargs: NArgs::Fixed(1), kwargs: f_kwargs, flags: f_flags, layout: None };
    (owned("check_language"), CommandSpec::Single(f))
}

/// The built-in spec of `check_include_file`, as values.
pub open spec fn builtin_check_include_file_model() -> SpecModel {
    SpecModel::Single(FormModel {
        pargs: NArgs::AtLeast(2),
        kwargs: Seq::<(Seq<char>, KwargModel)>::empty()
            .push(("LANGUAGE"@, plain_kwarg(NArgs::Fixed(1)))),
        flags: Seq::<Seq<char>>::empty(),
        layout: None,
    })
}

/// The built-in spec of `check_include_file`.
fn builtin_check_include_file() -> (r: (String, CommandSpec))
    ensures
        r.0@ == "check_include_file"@,
        spec_model(r.1) == builtin_check_include_file_model(),
        spec_wf(r.1),
{
    let mut f_kwargs = new_kwargs();
    push_kwarg(&mut f_kwargs, "LANGUAGE", NArgs::Fixed(1));
    let mut f_flags = new_flags();
    let f = CommandForm { pargs: NArgs::AtLeast(2), kwargs: f_kwargs, flags: f_flags, layout: None };
    (owned("check_include_file"), CommandSpec::Single(f))
}

/// The built-in spec of `check_include_file_cxx`, as values.
pub open spec fn builtin_check_include_file_cxx_model() -> SpecModel {
    SpecModel::Single(FormModel {
        pargs: NArgs::AtLeast(2),
        kwargs: Seq::<(Seq<char>, KwargModel)>::empty()
            .push(("LANGUAGE"@, plain_kwarg(NArgs::Fixed(1)))),
        flags: Seq::<Seq<char>>::empty(),
        layout: None,
    })
}

/// The built-in spec of `check_include_file_cxx`.
fn builtin_check_include_file_cxx() -> (r: (String, CommandSpec))
    ensures
        r.0@ == "check_include_file_cxx"@,
        spec_model(r.1) == builtin_check_include_file_cxx_model(),
        spec_wf(r.1),
{
    let mut f_kwargs = new_kwargs();
    push_kwarg(&mut f_kwargs, "LANGUAGE", NArgs::Fixed(1));
    let mut f_flags = new_flags();
    let f = CommandForm { pargs: NArgs::AtLeast(2), kwargs: f_kwargs, flags: f_flags, layout: None };
    (owned("check_include_file_cxx"), CommandSpec::Single(f))
}

/// The built-in spec of `check_include_files`, as values.
pub open spec fn builtin_check_include_files_model() -> SpecModel {
    SpecModel::Single(FormModel {
        pargs: NArgs::AtLeast(2),
        kwargs: Seq::<(Seq<char>, KwargModel)>::empty()
            .push(("LANGUAGE"@, plain_kwarg(NArgs::Fixed(1)))),
        flags: Seq::<Seq<char>>::empty(),
        layout: None,
    })
}

/// The built-in spec of `check_include_files`.
fn builtin_check_include_files() -> (r: (String, CommandSpec))
    ensures
        r.0@ == "check_include_files"@,
        spec_model(r.1) == builtin_check_include_files_model(),
        spec_wf(r.1),
{
    let mut f_kwargs = new_kwargs();
    push_kwarg(&mut f_kwargs, "LANGUAGE", NArgs::Fixed(1));
    let mut f_flags = new_flags();
    let f = CommandForm { pargs: NArgs::AtLeast(2), kwargs: f_kwargs, flags: f_flags, layout: None };
    (owned("check_include_files"), CommandSpec::Single(f))
}

/// The built-in spec of `check_compiler_flag`, as values.
pub open spec fn builtin_check_compiler_flag_model() -> SpecModel {
    SpecModel::Single(FormModel {
        pargs: NArgs::Fixed(3),
        kwargs: Seq::<(Seq<char>, KwargModel)>::empty(),
        flags: Seq::<Seq<char>>::empty(),
        layout: None,
    })
}

/// The built-in spec of `check_compiler_flag`.
fn builtin_check_compiler_flag() -> (r: (String, CommandSpec))
    ensures
        r.0@ == "check_compiler_flag"@,
        spec_model(r.1) == builtin_check_compiler_flag_model(),
        spec_wf(r.1),
{
    let mut f_kwargs = new_kwargs();
    let mut f_flags = new_flags();
    let f = CommandForm { pargs: NArgs::Fixed(3), kwargs: f_kwargs, flags: f_flags, layout: None };
    (owned("check_compiler_flag"), CommandSpec::Single(f))
}

/// The built-in spec of `check_c_compiler_flag`, as values.
pub open spec fn builtin_check_c_compiler_flag_model() -> SpecModel {
    SpecModel::Single(FormModel {
        pargs: NArgs::Fixed(2),
        kwargs: Seq::<(Seq<char>, KwargModel)>::empty(),
        flags: Seq::<Seq<char>>::empty(),
        layout: None,
    })
}

/// The built-in spec of `check_c_compiler_flag`.
fn builtin_check_c_compiler_flag() -> (r: (String, CommandSpec))
    ensures
        r.0@ == "check_c_compiler_flag"@,
        spec_model(r.1) == builtin_check_c_compiler_flag_model(),
        spec_wf(r.1),
{
    let mut f_kwargs = new_kwargs();
    let mut f_flags = new_flags();
    let f = CommandForm { pargs: NArgs::Fixed(2), kwargs: f_kwargs, flags: f_flags, layout: None };
    (owned("check_c_compiler_flag"), CommandSpec::Single(f))
}

/// The built-in spec of `check_cxx_compiler_flag`, as values.
pub open spec fn builtin_check_cxx_compiler_flag_model() -> SpecModel {
    SpecModel::Single(FormModel {
        pargs: NArgs::Fixed(2),
        kwargs: Seq::<(Seq<char>, KwargModel)>::empty(),
        flags: Seq::<Seq<char>>::empty(),
        layout: None,
    })
}

/// The built-in spec of `check_cxx_compiler_flag`.
fn builtin_check_cxx_compiler_flag() -> (r: (String, CommandSpec))
    ensures
        r.0@ == "check_cxx_compiler_flag"@,
        spec_model(r.1) == builtin_check_cxx_compiler_flag_model(),
        spec_wf(r.1),
{
    let mut f_kwargs = new_kwargs();
    let mut f_flags = new_flags();
    let f = CommandForm { pargs: NArgs::Fixed(2), kwargs: f_kwargs, flags: f_flags, layout: None };
    (owned("check_cxx_compiler_flag"), CommandSpec::Single(f))
}

/// The built-in spec of `check_objc_compiler_flag`, as values.
pub open spec fn builtin_check_objc_compiler_flag_model() -> SpecModel {
    SpecModel::Single(FormModel {
        pargs: NArgs::Fixed(2),
        kwargs: Seq::<(Seq<char>, KwargModel)>::empty(),
        flags: Seq::<Seq<char>>::empty(),
        layout: None,
    })
}

/// The built-in spec of `check_objc_compiler_flag`.
fn builtin_check_objc_compiler_flag() -> (r: (String, CommandSpec))
    ensures
        r.0@ == "check_objc_compiler_flag"@,
        spec_model(r.1) == builtin_check_objc_compiler_flag_model(),
        spec_wf(r.1),
{
    let mut f_kwargs = new_kwargs();
    let mut f_flags = new_flags();
    let f = CommandForm { pargs: NArgs::Fixed(2), kwargs: f_kwargs, flags: f_flags, layout: None };
    (owned("check_objc_compiler_flag"), CommandSpec::Single(f))
}

/// The built-in spec of `check_objcxx_compiler_flag`, as values.
pub open spec fn builtin_check_objcxx_compiler_flag_model() -> SpecModel {
    SpecModel::Single(FormModel {
        pargs: NArgs::Fixed(2),
        kwargs: Seq::<(Seq<char>, KwargModel)>::empty(),
        flags: Seq::<Seq<char>>::empty(),
        layout: None,
    })
}

/// The built-in spec of `check_objcxx_compiler_flag`.
fn builtin_check_objcxx_compiler_flag() -> (r: (String, CommandSpec))
    ensures
        r.0@ == "check_objcxx_compiler_flag"@,
        spec_model(r.1) == builtin_check_objcxx_compiler_flag_model(),
        spec_wf(r.1),
{
    let mut f_kwargs = new_kwargs();
    let mut f_flags = new_flags();
    let f = CommandForm { pargs: NArgs::Fixed(2), kwargs: f_kwargs, flags: f_flags, layout: None };
    (owned("check_objcxx_compiler_flag"), CommandSpec::Single(f))
}

/// The built-in spec of `check_fortran_compiler_flag`, as values.
pub open spec fn builtin_check_fortran_compiler_flag_model() -> SpecModel {
    SpecModel::Single(FormModel {
        pargs: NArgs::Fixed(2),
        kwargs: Seq::<(Seq<char>, KwargModel)>::empty(),
        flags: Seq::<Seq<char>>::empty(),
        layout: None,
    })
}

/// The built-in spec of `check_fortran_compiler_flag`.
fn builtin_check_fortran_compiler_flag() -> (r: (String, CommandSpec))
    ensures
        r.0@ == "check_fortran_compiler_flag"@,
        spec_model(r.1) == builtin_check_fortran_compiler_flag_model(),
        spec_wf(r.1),
{
    let mut f_kwargs = new_kwargs();
    let mut f_flags = new_flags();
    let f = CommandForm { pargs: NArgs::Fixed(2), kwargs: f_kwargs, flags: f_flags, layout: None };
    (owned("check_fortran_compiler_flag"), CommandSpec::Single(f))
}

/// The built-in spec of `check_cuda_compiler_flag`, as values.
pub open spec fn builtin_check_cuda_compiler_flag_model() -> SpecModel {
    SpecModel::Single(FormModel {
        pargs: NArgs::Fixed(2),
        kwargs: Seq::<(Seq<char>, KwargModel)>::empty(),
        flags: Seq::<Seq<char>>::empty(),
        layout: None,
    })
}

/// The built-in spec of `check_cuda_compiler_flag`.
fn builtin_check_cuda_compiler_flag() -> (r: (String, CommandSpec))
    ensures
        r.0@ == "check_cuda_compiler_flag"@,
        spec_model(r.1) == builtin_check_cuda_compiler_flag_model(),
        spec_wf(r.1),
{
    let mut f_kwargs = new_kwargs();
    let mut f_flags = new_flags();
    let f = CommandForm { pargs: NArgs::Fixed(2), kwargs: f_kwargs, flags: f_flags, layout: None };
    (owned("check_cuda_compiler_flag"), CommandSpec::Single(f))
}

/// The built-in spec of `check_hip_compiler_flag`, as values.
pub open spec fn builtin_check_hip_compiler_flag_model() -> SpecModel {
    SpecModel::Single(FormModel {
        pargs: NArgs::Fixed(2),
        kwargs: Seq::<(Seq<char>, KwargModel)>::empty(),
        flags: Seq::<Seq<char>>::empty(),
        layout: None,
    })
}

/// The built-in spec of `check_hip_compiler_flag`.
fn builtin_check_hip_compiler_flag() -> (r: (String, CommandSpec))
    ensures
        r.0@ == "check_hip_compiler_flag"@,
        spec_model(r.1) == builtin_check_hip_compiler_flag_model(),
        spec_wf(r.1),
{
    let mut f_kwargs = new_kwargs();
    let mut f_flags = new_flags();
    let f = CommandForm { pargs: NArgs::Fixed(2), kwargs: f_kwargs, flags: f_flags, layout: None };
    (owned("check_hip_compiler_flag"), CommandSpec::Single(f))
}

/// The built-in spec of `check_cxx_accepts_flag`, as values.
pub open spec fn builtin_check_cxx_accepts_flag_model() -> SpecModel {
    SpecModel::Single(FormModel {
        pargs: NArgs::Fixed(2),
        kwargs: Seq::<(Seq<char>, KwargModel)>::empty(),
        flags: Seq::<Seq<char>>::empty(),
        layout: None,
    })
}

/// The built-in spec of `check_cxx_accepts_flag`.
fn builtin_check_cxx_accepts_flag() -> (r: (String, CommandSpec))
    ensures
        r.0@ == "check_cxx_accepts_flag"@,
        spec_model(r.1) == builtin_check_cxx_accepts_flag_model(),
        spec_wf(r.1),
{
    let mut f_kwargs = new_kwargs();
    let mut f_flags = new_flags();
    let f = CommandForm { pargs: NArgs::Fixed(2), kwargs: f_kwargs, flags: f_flags, layout: None };
    (owned("check_cxx_accepts_flag"), CommandSpec::Single(f))
}

/// The built-in spec of `check_symbol_exists`, as values.
pub open spec fn builtin_check_symbol_exists_model() -> SpecModel {
    SpecModel::Single(FormModel {
        pargs: NArgs::Fixed(3),
        kwargs: Seq::<(Seq<char>, KwargModel)>::empty(),
        flags: Seq::<Seq<char>>::empty(),
        layout: None,
    })
}

/// The built-in spec of `check_symbol_exists`.
fn builtin_check_symbol_exists() -> (r: (String, CommandSpec))
    ensures
        r.0@ == "check_symbol_exists"@,
        spec_model(r.1) == builtin_check_symbol_exists_model(),
        spec_wf(r.1),
{
    let mut f_kwargs = new_kwargs();
    let mut f_flags = new_flags();
    let f = CommandForm { pargs: NArgs::Fixed(3), kwargs: f_kwargs, flags: f_flags, layout: None };
    (owned("check_symbol_exists"), CommandSpec::Single(f))
}

/// The built-in spec of `check_cxx_symbol_exists`, as values.
pub open spec fn builtin_check_cxx_symbol_exists_model() -> SpecModel {
    SpecModel::Single(FormModel {
        pargs: NArgs::Fixed(3),
        kwargs: Seq::<(Seq<char>, KwargModel)>::empty(),
        flags: Seq::<Seq<char>>::empty(),
        layout: None,
    })
}

/// The built-in spec of `check_cxx_symbol_exists`.
fn builtin_check_cxx_symbol_exists() -> (r: (String, CommandSpec))
    ensures
        r.0@ == "check_cxx_symbol_exists"@,
        spec_model(r.1) == builtin_check_cxx_symbol_exists_model(),
        spec_wf(r.1),
{
    let mut f_kwargs = new_kwargs();
    let mut f_flags = new_flags();
    let f = CommandForm { pargs: NArgs::Fixed(3), kwargs: f_kwargs, flags: f_flags, layout: None };
    (owned("check_cxx_symbol_exists"), CommandSpec::Single(f))
}

/// The built-in spec of `cmake_push_check_state`, as values.
pub open spec fn builtin_cmake_push_check_state_model() -> SpecModel {
    SpecModel::Single(FormModel {
        pargs: NArgs::ZeroOrMore,
        kwargs: Seq::<(Seq<char>, KwargModel)>::empty(),
        flags: Seq::<Seq<char>>::empty().push("RESET"@),
        layout: None,
    })
}

/// The built-in spec of `cmake_push_check_state`.
fn builtin_cmake_push_check_state() -> (r: (String, CommandSpec))
    ensures
        r.0@ == "cmake_push_check_state"@,
        spec_model(r.1) == builtin_cmake_push_check_state_model(),
        spec_wf(r.1),
{
    let mut f_kwargs = new_kwargs();
    let mut f_flags = new_flags();
    push_flag(&mut f_flags, "RESET");
    let f = CommandForm { pargs: NArgs::ZeroOrMore, kwargs: f_kwargs, flags: f_flags, layout: None };
    (owned("cmake_push_check_state"), CommandSpec::Single(f))
}

/// The built-in spec of `cmake_pop_check_state`, as values.
pub open spec fn builtin_cmake_pop_check_state_model() -> SpecModel {
    SpecModel::Single(FormModel {
        pargs: NArgs::ZeroOrMore,
        kwargs: Seq::<(Seq<char>, KwargModel)>::empty(),
        flags: Seq::<Seq<char>>::empty(),
        layout: None,
    })
}

/// The built-in spec of `cmake_pop_check_state`.
fn builtin_cmake_pop_check_state() -> (r: (String, CommandSpec))
    ensures
        r.0@ == "cmake_pop_check_state"@,
        spec_model(r.1) == builtin_cmake_pop_check_state_model(),
        spec_wf(r.1),
{
    let mut f_kwargs = new_kwargs();
    let mut f_flags = new_flags();
    let f = CommandForm { pargs: NArgs::ZeroOrMore, kwargs: f_kwargs, flags: f_flags, layout: None };
    (owned("cmake_pop_check_state"), CommandSpec::Single(f))
}

/// The built-in spec of `cmake_reset_check_state`, as values.
pub open spec fn builtin_cmake_reset_check_state_model() -> SpecModel {
    SpecModel::Single(FormModel {
        pargs: NArgs::ZeroOrMore,
        kwargs: Seq::<(Seq<char>, KwargModel)>::empty(),
        flags: Seq::<Seq<char>>::empty(),
        layout: None,
    })
}

/// The built-in spec of `cmake_reset_check_state`.
fn builtin_cmake_reset_check_state() -> (r: (String, CommandSpec))
    ensures
        r.0@ == "cmake_reset_check_state"@,
        spec_model(r.1) == builtin_cmake_reset_check_state_model(),
        spec_wf(r.1),
{
    let mut f_kwargs = new_kwargs();
    let mut f_flags = new_flags();
    let f = CommandForm { pargs: NArgs::ZeroOrMore, kwargs: f_kwargs, flags: f_flags, layout: None };
    (owned("cmake_reset_check_state"), CommandSpec::Single(f))
}

/// The built-in spec of `cmake_print_properties`, as values.
pub open spec fn builtin_cmake_print_properties_model() -> SpecModel {
    SpecModel::Single(FormModel {
        pargs: NArgs::ZeroOrMore,
        kwargs: Seq::<(Seq<char>, KwargModel)>::empty()
            .push(("TARGETS"@, plain_kwarg(NArgs::OneOrMore)))
            .push(("SOURCES"@, plain_kwarg(NArgs::OneOrMore)))
            .push(("DIRECTORIES"@, plain_kwarg(NArgs::OneOrMore)))
            .push(("TESTS"@, plain_kwarg(NArgs::OneOrMore)))
            .push(("CACHE_ENTRIES"@, plain_kwarg(NArgs::OneOrMore)))
            .push(("PROPERTIES"@, plain_kwarg(NArgs::OneOrMore))),
        flags: Seq::<Seq<char>>::empty(),
        layout: None,
    })
}

/// The built-in spec of `cmake_print_properties`.
fn builtin_cmake_print_properties() -> (r: (String, CommandSpec))
    ensures
        r.0@ == "cmake_print_properties"@,
        spec_model(r.1) == builtin_cmake_print_properties_model(),
        spec_wf(r.1),
{
    let mut f_kwargs = new_kwargs();
    push_kwarg(&mut f_kwargs, "TARGETS", NArgs::OneOrMore);
    push_kwarg(&mut f_kwargs, "SOURCES", NArgs::OneOrMore);
    push_kwarg(&mut f_kwargs, "DIRECTORIES", NArgs::OneOrMore);
    push_kwarg(&mut f_kwargs, "TESTS", NArgs::OneOrMore);
    push_kwarg(&mut f_kwargs, "CACHE_ENTRIES", NArgs::OneOrMore);
    push_kwarg(&mut f_kwargs, "PROPERTIES", NArgs::OneOrMore);
    let mut f_flags = new_flags();
    let f = CommandForm { pargs: NArgs::ZeroOrMore, kwargs: f_kwargs, flags: f_flags, layout: None };
    (owned("cmake_print_properties"), CommandSpec::Single(f))
}

/// The built-in spec of `cmake_print_variables`, as values.
pub open spec fn builtin_cmake_print_variables_model() -> SpecModel {
    SpecModel::Single(FormModel {
        pargs: NArgs::ZeroOrMore,
        kwargs: Seq::<(Seq<char>, KwargModel)>::empty(),
        flags: Seq::<Seq<char>>::empty(),
        layout: None,
    })
}

/// The built-in spec of `cmake_print_variables`.
fn builtin_cmake_print_variables() -> (r: (String, CommandSpec))
    ensures
        r.0@ == "cmake_print_variables"@,
        spec_model(r.1) == builtin_cmake_print_variables_model(),
        spec_wf(r.1),
{
    let mut f_kwargs = new_kwargs();
    let mut f_flags = new_flags();
    let f = CommandForm { pargs: NArgs::ZeroOrMore, kwargs: f_kwargs, flags: f_flags, layout: None };
    (owned("cmake_print_variables"), CommandSpec::Single(f))
}

/// The built-in spec of `check_pie_supported`, as values.
pub open spec fn builtin_check_pie_supported_model() -> SpecModel {
    SpecModel::Single(FormModel {
        pargs: NArgs::ZeroOrMore,
        kwargs: Seq::<(Seq<char>, KwargModel)>::empty()
            .push(("OUTPUT_VARIABLE"@, plain_kwarg(NArgs::Fixed(1))))
            .push(("LANGUAGES"@, plain_kwarg(NArgs::OneOrMore))),
        flags: Seq::<Seq<char>>::empty(),
        layout: None,
    })
}

/// The built-in spec of `check_pie_supported`.
fn builtin_check_pie_supported() -> (r: (String, CommandSpec))
    ensures
        r.0@ == "check_pie_supported"@,
        spec_model(r.1) == builtin_check_pie_supported_model(),
        spec_wf(r.1),
{
    let mut f_kwargs = new_kwargs();
    push_kwarg(&mut f_kwargs, "OUTPUT_VARIABLE", NArgs::Fixed(1));
    push_kwarg(&mut f_kwargs, "LANGUAGES", NArgs::OneOrMore);
    let mut f_flags = new_flags();
    let f = CommandForm { pargs: NArgs::ZeroOrMore, kwargs: f_kwargs, flags: f_flags, layout: None };
    (owned("check_pie_supported"), CommandSpec::Single(f))
}

/// The built-in spec of `check_source_compiles`, as values.
pub open spec fn builtin_check_source_compiles_model() -> SpecModel {
    SpecModel::Single(FormModel {
        pargs: NArgs::Fixed(3),
        kwargs: Seq::<(Seq<char>, KwargModel)>::empty()
            .push(("SRC_EXT"@, plain_kwarg(NArgs::Fixed(1))))
            .push(("FAIL_REGEX"@, plain_kwarg(NArgs::OneOrMore))),
        flags: Seq::<Seq<char>>::empty(),
        layout: None,
    })
}

/// The built-in spec of `check_source_compiles`.
fn builtin_check_source_compiles() -> (r: (String, CommandSpec))
    ensures
        r.0@ == "check_source_compiles"@,
        spec_model(r.1) == builtin_check_source_compiles_model(),
        spec_wf(r.1),
{
    let mut f_kwargs = new_kwargs();
    push_kwarg(&mut f_kwargs, "SRC_EXT", NArgs::Fixed(1));
    push_kwarg(&mut f_kwargs, "FAIL_REGEX", NArgs::OneOrMore);
    let mut f_flags = new_flags();
    let f = CommandForm { pargs: NArgs::Fixed(3), kwargs: f_kwargs, flags: f_flags, layout: None };
    (owned("check_source_compiles"), CommandSpec::Single(f))
}

/// The built-in spec of `check_source_runs`, as values.
pub open spec fn builtin_check_source_runs_model() -> SpecModel {
    SpecModel::Single(FormModel {
        pargs: NArgs::Fixed(3),
        kwargs: Seq::<(Seq<char>, KwargModel)>::empty()
            .push(("SRC_EXT"@, plain_kwarg(NArgs::Fixed(1))))
            .push(("FAIL_REGEX"@, plain_kwarg(NArgs::OneOrMore))),
        flags: Seq::<Seq<char>>::empty(),
        layout: None,
    })
}

/// The built-in spec of `check_source_runs`.
fn builtin_check_source_runs() -> (r: (String, CommandSpec))
    ensures
        r.0@ == "check_source_runs"@,
        spec_model(r.1) == builtin_check_source_runs_model(),
        spec_wf(r.1),
{
    let mut f_kwargs = new_kwargs();
    push_kwarg(&mut f_kwargs, "SRC_EXT", NArgs::Fixed(1));
    push_kwarg(&mut f_kwargs, "FAIL_REGEX", NArgs::OneOrMore);
    let mut f_flags = new_flags();
    let f = CommandForm { pargs: NArgs::Fixed(3), kwargs: f_kwargs, flags: f_flags, layout: None };
    (owned("check_source_runs"), CommandSpec::Single(f))
}

/// The built-in spec of `find_dependency`, as values.
pub open spec fn builtin_find_dependency_model() -> SpecModel {
    SpecModel::Single(FormModel {
        pargs: NArgs::Fixed(1),
        kwargs: Seq::<(Seq<char>, KwargModel)>::empty()
            .push(("COMPONENTS"@, plain_kwarg(NArgs::OneOrMore)))
            .push(("OPTIONAL_COMPONENTS"@, plain_kwarg(NArgs::OneOrMore))),
        flags: Seq::<Seq<char>>::empty().push("REQUIRED"@).push("QUIET"@).push("EXACT"@).push("CONFIG"@).push("MODULE"@),
        layout: None,
    })
}

/// The built-in spec of `find_dependency`.
fn builtin_find_dependency() -> (r: (String, CommandSpec))
    ensures
        r.0@ == "find_dependency"@,
        spec_model(r.1) == builtin_find_dependency_model(),
        spec_wf(r.1),
{
    let mut f_kwargs = new_kwargs();
    push_kwarg(&mut f_kwargs, "COMPONENTS", NArgs::OneOrMore);
    push_kwarg(&mut f_kwargs, "OPTIONAL_COMPONENTS", NArgs::OneOrMore);
    let mut f_flags = new_flags();
    push_flag(&mut f_flags, "REQUIRED");
    push_flag(&mut f_flags, "QUIET");
    push_flag(&mut f_flags, "EXACT");
    push_flag(&mut f_flags, "CONFIG");
    push_flag(&mut f_flags, "MODULE");
    let f = CommandForm { pargs: NArgs::Fixed(1), kwargs: f_kwargs, flags: f_flags, layout: None };
    (owned("find_dependency"), CommandSpec::Single(f))
}

/// The built-in spec of `fetchcontent_declare`, as values.
pub open spec fn builtin_fetchcontent_declare_model() -> SpecModel {
    SpecModel::Single(FormModel {
        pargs: NArgs::Fixed(1),
        kwargs: Seq::<(Seq<char>, KwargModel)>::empty()
            .push(("FIND_PACKAGE_ARGS"@, plain_kwarg(NArgs::ZeroOrMore)))
            .push(("GIT_REPOSITORY"@, plain_kwarg(NArgs::Fixed(1))))
            .push(("GIT_TAG"@, plain_kwarg(NArgs::Fixed(1))))
            .push(("GIT_SHALLOW"@, plain_kwarg(NArgs::Fixed(1))))
            .push(("GIT_PROGRESS"@, plain_kwarg(NArgs::Fixed(1))))
            .push(("URL"@, plain_kwarg(NArgs::OneOrMore)))
            .push(("URL_HASH"@, plain_kwarg(NArgs::Fixed(1))))
            .push(("URL_MD5"@, plain_kwarg(NArgs::Fixed(1))))
            .push(("SOURCE_DIR"@, plain_kwarg(NArgs::Fixed(1))))
            .push(("BINARY_DIR"@, plain_kwarg(NArgs::Fixed(1))))
            .push(("SOURCE_SUBDIR"@, plain_kwarg(NArgs::Fixed(1))))
            .push(("PATCH_COMMAND"@, plain_kwarg(NArgs::OneOrMore)))
            .push(("UPDATE_COMMAND"@, plain_kwarg(NArgs::OneOrMore))),
        flags: Seq::<Seq<char>>::empty().push("EXCLUDE_FROM_ALL"@).push("SYSTEM"@).push("OVERRIDE_FIND_PACKAGE"@),
        layout: None,
    })
}

/// The built-in spec of `fetchcontent_declare`.
fn builtin_fetchcontent_declare() -> (r: (String, CommandSpec))
    ensures
        r.0@ == "fetchcontent_declare"@,
        spec_model(r.1) == builtin_fetchcontent_declare_model(),
        spec_wf(r.1),
{
    let mut f_kwargs = new_kwargs();
    push_kwarg(&mut f_kwargs, "FIND_PACKAGE_ARGS", NArgs::ZeroOrMore);
    push_kwarg(&mut f_kwargs, "GIT_REPOSITORY", NArgs::Fixed(1));
    push_kwarg(&mut f_kwargs, "GIT_TAG", NArgs::Fixed(1));
    push_kwarg(&mut f_kwargs, "GIT_SHALLOW", NArgs::Fixed(1));
    push_kwarg(&mut f_kwargs, "GIT_PROGRESS", NArgs::Fixed(1));
    push_kwarg(&mut f_kwargs, "URL", NArgs::OneOrMore);
    push_kwarg(&mut f_kwargs, "URL_HASH", NArgs::Fixed(1));
    push_kwarg(&mut f_kwargs, "URL_MD5", NArgs::Fixed(1));
    push_kwarg(&mut f_kwargs, "SOURCE_DIR", NArgs::Fixed(1));
    push_kwarg(&mut f_kwargs, "BINARY_DIR", NArgs::Fixed(1));
    push_kwarg(&mut f_kwargs, "SOURCE_SUBDIR", NArgs::Fixed(1));
    push_kwarg(&mut f_kwargs, "PATCH_COMMAND", NArgs::OneOrMore);
    push_kwarg(&mut f_kwargs, "UPDATE_COMMAND", NArgs::OneOrMore);
    let mut f_flags = new_flags();
    push_flag(&mut f_flags, "EXCLUDE_FROM_ALL");
    push_flag(&mut f_flags, "SYSTEM");
    push_flag(&mut f_flags, "OVERRIDE_FIND_PACKAGE");
    let f = CommandForm { pargs: NArgs::Fixed(1), kwargs: f_kwargs, flags: f_flags, layout: None };
    (owned("fetchcontent_declare"), CommandSpec::Single(f))
}

/// The built-in spec of `fetchcontent_makeavailable`, as values.
pub open spec fn builtin_fetchcontent_makeavailable_model() -> SpecModel {
    SpecModel::Single(FormModel {
        pargs: NArgs::OneOrMore,
        kwargs: Seq::<(Seq<char>, KwargModel)>::empty(),
        flags: Seq::<Seq<char>>::empty(),
        layout: None,
    })
}

/// The built-in spec of `fetchcontent_makeavailable`.
fn builtin_fetchcontent_makeavailable() -> (r: (String, CommandSpec))
    ensures
        r.0@ == "fetchcontent_makeavailable"@,
        spec_model(r.1) == builtin_fetchcontent_makeavailable_model(),
        spec_wf(r.1),
{
    let mut f_kwargs = new_kwargs();
    let mut f_flags = new_flags();
    let f = CommandForm { pargs: NArgs::OneOrMore, kwargs: f_kwargs, flags: f_flags, layout: None };
    (owned("fetchcontent_makeavailable"), CommandSpec::Single(f))
}

/// The built-in spec of `fetchcontent_getproperties`, as values.
pub open spec fn builtin_fetchcontent_getproperties_model() -> SpecModel {
    SpecModel::Single(FormModel {
        pargs: NArgs::Fixed(1),
        kwargs: Seq::<(Seq<char>, KwargModel)>::empty()
            .push(("SOURCE_DIR"@, plain_kwarg(NArgs::Fixed(1))))
            .push(("BINARY_DIR"@, plain_kwarg(NArgs::Fixed(1))))
            .push(("POPULATED"@, plain_kwarg(NArgs::Fixed(1)))),
        flags: Seq::<Seq<char>>::empty(),
        layout: None,
    })
}

/// The built-in spec of `fetchcontent_getproperties`.
fn builtin_fetchcontent_getproperties() -> (r: (String, CommandSpec))
    ensures
        r.0@ == "fetchcontent_getproperties"@,
        spec_model(r.1) == builtin_fetchcontent_getproperties_model(),
        spec_wf(r.1),
{
    let mut f_kwargs = new_kwargs();
    push_kwarg(&mut f_kwargs, "SOURCE_DIR", NArgs::Fixed(1));
    push_kwarg(&mut f_kwargs, "BINARY_DIR", NArgs::Fixed(1));
    push_kwarg(&mut f_kwargs, "POPULATED", NArgs::Fixed(1));
    let mut f_flags = new_flags();
    let f = CommandForm { pargs: NArgs::Fixed(1), kwargs: f_kwargs, flags: f_flags, layout: None };
    (owned("fetchcontent_getproperties"), CommandSpec::Single(f))
}

/// The built-in spec of `fetchcontent_populate`, as values.
pub open spec fn builtin_fetchcontent_populate_model() -> SpecModel {
    SpecModel::Single(FormModel {
        pargs: NArgs::Fixed(1),
        kwargs: Seq::<(Seq<char>, KwargModel)>::empty()
            .push(("SUBBUILD_DIR"@, plain_kwarg(NArgs::Fixed(1))))
            .push(("SOURCE_DIR"@, plain_kwarg(NArgs::Fixed(1))))
            .push(("BINARY_DIR"@, plain_kwarg(NArgs::Fixed(1)))),
        flags: Seq::<Seq<char>>::empty().push("QUIET"@),
        layout: None,
    })
}

/// The built-in spec of `fetchcontent_populate`.
fn builtin_fetchcontent_populate() -> (r: (String, CommandSpec))
    ensures
        r.0@ == "fetchcontent_populate"@,
        spec_model(r.1) == builtin_fetchcontent_populate_model(),
        spec_wf(r.1),
{
    let mut f_kwargs = new_kwargs();
    push_kwarg(&mut f_kwargs, "SUBBUILD_DIR", NArgs::Fixed(1));
    push_kwarg(&mut f_kwargs, "SOURCE_DIR", NArgs::Fixed(1));
    push_kwarg(&mut f_kwargs, "BINARY_DIR", NArgs::Fixed(1));
    let mut f_flags = new_flags();
    push_flag(&mut f_flags, "QUIET");
    let f = CommandForm { pargs: NArgs::Fixed(1), kwargs: f_kwargs, flags: f_flags, layout: None };
    (owned("fetchcontent_populate"), CommandSpec::Single(f))
}

/// The built-in spec of `fetchcontent_setpopulated`, as values.
pub open spec fn builtin_fetchcontent_setpopulated_model() -> SpecModel {
    SpecModel::Single(FormModel {
        pargs: NArgs::Fixed(1),
        kwargs: Seq::<(Seq<char>, KwargModel)>::empty()
            .push(("SOURCE_DIR"@, plain_kwarg(NArgs::Fixed(1))))
            .push(("BINARY_DIR"@, plain_kwarg(NArgs::Fixed(1)))),
        flags: Seq::<Seq<char>>::empty(),
        layout: None,
    })
}

/// The built-in spec of `fetchcontent_setpopulated`.
fn builtin_fetchcontent_setpopulated() -> (r: (String, CommandSpec))
    ensures
        r.0@ == "fetchcontent_setpopulated"@,
        spec_model(r.1) == builtin_fetchcontent_setpopulated_model(),
        spec_wf(r.1),
{
    let mut f_kwargs = new_kwargs();
    push_kwarg(&mut f_kwargs, "SOURCE_DIR", NArgs::Fixed(1));
    push_kwarg(&mut f_kwargs, "BINARY_DIR", NArgs::Fixed(1));
    let mut f_flags = new_flags();
    let f = CommandForm { pargs: NArgs::Fixed(1), kwargs: f_kwargs, flags: f_flags, layout: None };
    (owned("fetchcontent_setpopulated"), CommandSpec::Single(f))
}

/// The built-in spec of `gtest_add_tests`, as values.
pub open spec fn builtin_gtest_add_tests_model() -> SpecModel {
    SpecModel::Single(FormModel {
        pargs: NArgs::ZeroOrMore,
        kwargs: Seq::<(Seq<char>, KwargModel)>::empty()
            .push(("TARGET"@, plain_kwarg(NArgs::Fixed(1))))
            .push(("SOURCES"@, plain_kwarg(NArgs::OneOrMore)))
            .push(("EXTRA_ARGS"@, plain_kwarg(NArgs::OneOrMore)))
            .push(("WORKING_DIRECTORY"@, plain_kwarg(NArgs::Fixed(1))))
            .push(("TEST_PREFIX"@, plain_kwarg(NArgs::Fixed(1))))
            .push(("TEST_SUFFIX"@, plain_kwarg(NArgs::Fixed(1))))
            .push(("TEST_LIST"@, plain_kwarg(NArgs::Fixed(1)))),
        flags: Seq::<Seq<char>>::empty().push("SKIP_DEPENDENCY"@),
        layout: None,
    })
}

/// The built-in spec of `gtest_add_tests`.
fn builtin_gtest_add_tests() -> (r: (String, CommandSpec))
    ensures
        r.0@ == "gtest_add_tests"@,
        spec_model(r.1) == builtin_gtest_add_tests_model(),
        spec_wf(r.1),
{
    let mut f_kwargs = new_kwargs();
    push_kwarg(&mut f_kwargs, "TARGET", NArgs::Fixed(1));
    push_kwarg(&mut f_kwargs, "SOURCES", NArgs::OneOrMore);
    push_kwarg(&mut f_kwargs, "EXTRA_ARGS", NArgs::OneOrMore);
    push_kwarg(&mut f_kwargs, "WORKING_DIRECTORY", NArgs::Fixed(1));
    push_kwarg(&mut f_kwargs, "TEST_PREFIX", NArgs::Fixed(1));
    push_kwarg(&mut f_kwargs, "TEST_SUFFIX", NArgs::Fixed(1));
    push_kwarg(&mut f_kwargs, "TEST_LIST", NArgs::Fixed(1));
    let mut f_flags = new_flags();
    push_flag(&mut f_flags, "SKIP_DEPENDENCY");
    let f = CommandForm { pargs: NArgs::ZeroOrMore, kwargs: f_kwargs, flags: f_flags, layout: None };
    (owned("gtest_add_tests"), CommandSpec::Single(f))
}

/// The built-in spec of `gtest_discover_tests`, as values.
pub open spec fn builtin_gtest_discover_tests_model() -> SpecModel {
    SpecModel::Single(FormModel {
        pargs: NArgs::Fixed(1),
        kwargs: Seq::<(Seq<char>, KwargModel)>::empty()
            .push(("EXTRA_ARGS"@, plain_kwarg(NArgs::OneOrMore)))
            .push(("WORKING_DIRECTORY"@, plain_kwarg(NArgs::Fixed(1))))
            .push(("TEST_PREFIX"@, plain_kwarg(NArgs::Fixed(1))))
            .push(("TEST_SUFFIX"@, plain_kwarg(NArgs::Fixed(1))))
            .push(("TEST_FILTER"@, plain_kwarg(NArgs::Fixed(1))))
            .push(("PROPERTIES"@, plain_kwarg(NArgs::OneOrMore)))
            .push(("TEST_LIST"@, plain_kwarg(NArgs::Fixed(1))))
            .push(("DISCOVERY_TIMEOUT"@, plain_kwarg(NArgs::Fixed(1))))
            .push(("XML_OUTPUT_DIR"@, plain_kwarg(NArgs::Fixed(1))))
            .push(("DISCOVERY_MODE"@, plain_kwarg(NArgs::Fixed(1))))
            .push(("DISCOVERY_EXTRA_ARGS"@, plain_kwarg(NArgs::OneOrMore))),
        flags: Seq::<Seq<char>>::empty().push("NO_PRETTY_TYPES"@).push("NO_PRETTY_VALUES"@),
        layout: None,
    })
}

/// The built-in spec of `gtest_discover_tests`.
fn builtin_gtest_discover_tests() -> (r: (String, CommandSpec))
    ensures
        r.0@ == "gtest_discover_tests"@,
        spec_model(r.1) == builtin_gtest_discover_tests_model(),
        spec_wf(r.1),
{
    let mut f_kwargs = new_kwargs();
    push_kwarg(&mut f_kwargs, "EXTRA_ARGS", NArgs::OneOrMore);
    push_kwarg(&mut f_kwargs, "WORKING_DIRECTORY", NArgs::Fixed(1));
    push_kwarg(&mut f_kwargs, "TEST_PREFIX", NArgs::Fixed(1));
    push_kwarg(&mut f_kwargs, "TEST_SUFFIX", NArgs::Fixed(1));
    push_kwarg(&mut f_kwargs, "TEST_FILTER", NArgs::Fixed(1));
    push_kwarg(&mut f_kwargs, "PROPERTIES", NArgs::OneOrMore);
    push_kwarg(&mut f_kwargs, "TEST_LIST", NArgs::Fixed(1));
    push_kwarg(&mut f_kwargs, "DISCOVERY_TIMEOUT", NArgs::Fixed(1));
    push_kwarg(&mut f_kwargs, "XML_OUTPUT_DIR", NArgs::Fixed(1));
    push_kwarg(&mut f_kwargs, "DISCOVERY_MODE", NArgs::Fixed(1));
    push_kwarg(&mut f_kwargs, "DISCOVERY_EXTRA_ARGS", NArgs::OneOrMore);
    let mut f_flags = new_flags();
    push_flag(&mut f_flags, "NO_PRETTY_TYPES");
    push_flag(&mut f_flags, "NO_PRETTY_VALUES");
    let f = CommandForm { pargs: NArgs::Fixed(1), kwargs: f_kwargs, flags: f_flags, layout: None };
    (owned("gtest_discover_tests"), CommandSpec::Single(f))
}

/// The built-in spec of `processorcount`, as values.
pub open spec fn builtin_processorcount_model() -> SpecModel {
    SpecModel::Single(FormModel {
        pargs: NArgs::Fixed(1),
        kwargs: Seq::<(Seq<char>, KwargModel)>::empty(),
        flags: Seq::<Seq<char>>::empty(),
        layout: None,
    })
}

/// The built-in spec of `processorcount`.
fn builtin_processorcount() -> (r: (String, CommandSpec))
    ensures
        r.0@ == "processorcount"@,
        spec_model(r.1) == builtin_processorcount_model(),
        spec_wf(r.1),
{
    let mut f_kwargs = new_kwargs();
    let mut f_flags = new_flags();
    let f = CommandForm { pargs: NArgs::Fixed(1), kwargs: f_kwargs, flags: f_flags, layout: None };
    (owned("processorcount"), CommandSpec::Single(f))
}

/// The built-in spec of `find_package_handle_standard_args`, as values.
pub open spec fn builtin_find_package_handle_standard_args_model() -> SpecModel {
    SpecModel::Single(FormModel {
        pargs: NArgs::Fixed(1),
        kwargs: Seq::<(Seq<char>, KwargModel)>::empty()
            .push(("REQUIRED_VARS"@, plain_kwarg(NArgs::OneOrMore)))
            .push(("VERSION_VAR"@, plain_kwarg(NArgs::Fixed(1))))
            .push(("REASON_FAILURE_MESSAGE"@, plain_kwarg(NArgs::Fixed(1))))
            .push(("FAIL_MESSAGE"@, plain_kwarg(NArgs::Fixed(1))))
            .push(("FOUND_VAR"@, plain_kwarg(NArgs::Fixed(1)))),
        flags: Seq::<Seq<char>>::empty().push("DEFAULT_MSG"@).push("CONFIG_MODE"@).push("HANDLE_COMPONENTS"@).push("HANDLE_VERSION_RANGE"@).push("NAME_MISMATCHED"@),
        layout: None,
    })
}

/// The built-in spec of `find_package_handle_standard_args`.
fn builtin_find_package_handle_standard_args() -> (r: (String, CommandSpec))
    ensures
        r.0@ == "find_package_handle_standard_args"@,
        spec_model(r.1) == builtin_find_package_handle_standard_args_model(),
        spec_wf(r.1),
{
    let mut f_kwargs = new_kwargs();
    push_kwarg(&mut f_kwargs, "REQUIRED_VARS", NArgs::OneOrMore);
    push_kwarg(&mut f_kwargs, "VERSION_VAR", NArgs::Fixed(1));
    push_kwarg(&mut f_kwargs, "REASON_FAILURE_MESSAGE", NArgs::Fixed(1));
    push_kwarg(&mut f_kwargs, "FAIL_MESSAGE", NArgs::Fixed(1));
    push_kwarg(&mut f_kwargs, "FOUND_VAR", NArgs::Fixed(1));
    let mut f_flags = new_flags();
    push_flag(&mut f_flags, "DEFAULT_MSG");
    push_flag(&mut f_flags, "CONFIG_MODE");
    push_flag(&mut f_flags, "HANDLE_COMPONENTS");
    push_flag(&mut f_flags, "HANDLE_VERSION_RANGE");
    push_flag(&mut f_flags, "NAME_MISMATCHED");
    let f = CommandForm { pargs: NArgs::Fixed(1), kwargs: f_kwargs, flags: f_flags, layout: None };
    (owned("find_package_handle_standard_args"), CommandSpec::Single(f))
}

/// The built-in spec of `find_package_check_version`, as values.
pub open spec fn builtin_find_package_check_version_model() -> SpecModel {
    SpecModel::Single(FormModel {
        pargs: NArgs::Fixed(2),
        kwargs: Seq::<(Seq<char>, KwargModel)>::empty()
            .push(("RESULT_MESSAGE_VARIABLE"@, plain_kwarg(NArgs::Fixed(1)))),
        flags: Seq::<Seq<char>>::empty().push("HANDLE_VERSION_RANGE"@),
        layout: None,
    })
}

/// The built-in spec of `find_package_check_version`.
fn builtin_find_package_check_version() -> (r: (String, CommandSpec))
    ensures
        r.0@ == "find_package_check_version"@,
        spec_model(r.1) == builtin_find_package_check_version_model(),
        spec_wf(r.1),
{
    let mut f_kwargs = new_kwargs();
    push_kwarg(&mut f_kwargs, "RESULT_MESSAGE_VARIABLE", NArgs::Fixed(1));
    let mut f_flags = new_flags();
    push_flag(&mut f_flags, "HANDLE_VERSION_RANGE");
    let f = CommandForm { pargs: NArgs::Fixed(2), kwargs: f_kwargs, flags: f_flags, layout: None };
    (owned("find_package_check_version"), CommandSpec::Single(f))
}

/// The built-in spec of `find_package_message`, as values.
pub open spec fn builtin_find_package_message_model() -> SpecModel {
    SpecModel::Single(FormModel {
        pargs: NArgs::Fixed(3),
        kwargs: Seq::<(Seq<char>, KwargModel)>::empty(),
        flags: Seq::<Seq<char>>::empty(),
        layout: None,
    })
}

/// The built-in spec of `find_package_message`.
fn builtin_find_package_message() -> (r: (String, CommandSpec))
    ensures
        r.0@ == "find_package_message"@,
        spec_model(r.1) == builtin_find_package_message_model(),
        spec_wf(r.1),
{
    let mut f_kwargs = new_kwargs();
    let mut f_flags = new_flags();
    let f = CommandForm { pargs: NArgs::Fixed(3), kwargs: f_kwargs, flags: f_flags, layout: None };
    (owned("find_package_message"), CommandSpec::Single(f))
}

/// The built-in spec of `select_library_configurations`, as values.
pub open spec fn builtin_select_library_configurations_model() -> SpecModel {
    SpecModel::Single(FormModel {
        pargs: NArgs::Fixed(1),
        kwargs: Seq::<(Seq<char>, KwargModel)>::empty(),
        flags: Seq::<Seq<char>>::empty(),
        layout: None,
    })
}

/// The built-in spec of `select_library_configurations`.
fn builtin_select_library_configurations() -> (r: (String, CommandSpec))
    ensures
        r.0@ == "select_library_configurations"@,
        spec_model(r.1) == builtin_select_library_configurations_model(),
        spec_wf(r.1),
{
    let mut f_kwargs = new_kwargs();
    let mut f_flags = new_flags();
    let f = CommandForm { pargs: NArgs::Fixed(1), kwargs: f_kwargs, flags: f_flags, layout: None };
    (owned("select_library_configurations"), CommandSpec::Single(f))
}

/// The built-in spec of `externalproject_add`, as values.
pub open spec fn builtin_externalproject_add_model() -> SpecModel {
    SpecModel::Single(FormModel {
        pargs: NArgs::Fixed(1),
        kwargs: Seq::<(Seq<char>, KwargModel)>::empty()
            .push(("PREFIX"@, plain_kwarg(NArgs::Fixed(1))))
            .push(("TMP_DIR"@, plain_kwarg(NArgs::Fixed(1))))
            .push(("STAMP_DIR"@, plain_kwarg(NArgs::Fixed(1))))
            .push(("DOWNLOAD_DIR"@, plain_kwarg(NArgs::Fixed(1))))
            .push(("SOURCE_DIR"@, plain_kwarg(NArgs::Fixed(1))))
            .push(("BINARY_DIR"@, plain_kwarg(NArgs::Fixed(1))))
            .push(("INSTALL_DIR"@, plain_kwarg(NArgs::Fixed(1))))
            .push(("URL"@, plain_kwarg(NArgs::OneOrMore)))
            .push(("URL_HASH"@, plain_kwarg(NArgs::Fixed(1))))
            .push(("GIT_REPOSITORY"@, plain_kwarg(NArgs::Fixed(1))))
            .push(("GIT_TAG"@, plain_kwarg(NArgs::Fixed(1))))
            .push(("DOWNLOAD_COMMAND"@, plain_kwarg(NArgs::ZeroOrMore)))
            .push(("UPDATE_COMMAND"@, plain_kwarg(NArgs::ZeroOrMore)))
            .push(("PATCH_COMMAND"@, plain_kwarg(NArgs::ZeroOrMore)))
            .push(("CONFIGURE_COMMAND"@, plain_kwarg(NArgs::ZeroOrMore)))
            .push(("CMAKE_ARGS"@, plain_kwarg(NArgs::OneOrMore)))
            .push(("CMAKE_CACHE_ARGS"@, plain_kwarg(NArgs::OneOrMore)))
            .push(("BUILD_COMMAND"@, plain_kwarg(NArgs::ZeroOrMore)))
            .push(("INSTALL_COMMAND"@, plain_kwarg(NArgs::ZeroOrMore)))
            .push(("TEST_COMMAND"@, plain_kwarg(NArgs::ZeroOrMore)))
            .push(("DEPENDS"@, plain_kwarg(NArgs::OneOrMore)))
            .push(("BUILD_BYPRODUCTS"@, plain_kwarg(NArgs::OneOrMore)))
            .push(("LOG_DOWNLOAD"@, plain_kwarg(NArgs::Fixed(1))))
            .push(("LOG_BUILD"@, plain_kwarg(NArgs::Fixed(1))))
            .push(("STEP_TARGETS"@, plain_kwarg(NArgs::OneOrMore))),
        flags: Seq::<Seq<char>>::empty().push("EXCLUDE_FROM_ALL"@).push("BUILD_ALWAYS"@).push("BUILD_IN_SOURCE"@),
        layout: None,
    })
}

/// The built-in spec of `externalproject_add`.
fn builtin_externalproject_add() -> (r: (String, CommandSpec))
    ensures
        r.0@ == "externalproject_add"@,
        spec_model(r.1) == builtin_externalproject_add_model(),
        spec_wf(r.1),
{
    let mut f_kwargs = new_kwargs();
    push_kwarg(&mut f_kwargs, "PREFIX", NArgs::Fixed(1));
    push_kwarg(&mut f_kwargs, "TMP_DIR", NArgs::Fixed(1));
    push_kwarg(&mut f_kwargs, "STAMP_DIR", NArgs::Fixed(1));
    push_kwarg(&mut f_kwargs, "DOWNLOAD_DIR", NArgs::Fixed(1));
    push_kwarg(&mut f_kwargs, "SOURCE_DIR", NArgs::Fixed(1));
    push_kwarg(&mut f_kwargs, "BINARY_DIR", NArgs::Fixed(1));
    push_kwarg(&mut f_kwargs, "INSTALL_DIR", NArgs::Fixed(1));
    push_kwarg(&mut f_kwargs, "URL", NArgs::OneOrMore);
    push_kwarg(&mut f_kwargs, "URL_HASH", NArgs::Fixed(1));
    push_kwarg(&mut f_kwargs, "GIT_REPOSITORY", NArgs::Fixed(1));
    push_kwarg(&mut f_kwargs, "GIT_TAG", NArgs::Fixed(1));
    push_kwarg(&mut f_kwargs, "DOWNLOAD_COMMAND", NArgs::ZeroOrMore);
    push_kwarg(&mut f_kwargs, "UPDATE_COMMAND", NArgs::ZeroOrMore);
    push_kwarg(&mut f_kwargs, "PATCH_COMMAND", NArgs::ZeroOrMore);
    push_kwarg(&mut f_kwargs, "CONFIGURE_COMMAND", NArgs::ZeroOrMore);
    push_kwarg(&mut f_kwargs, "CMAKE_ARGS", NArgs::OneOrMore);
    push_kwarg(&mut f_kwargs, "CMAKE_CACHE_ARGS", NArgs::OneOrMore);
    push_kwarg(&mut f_kwargs, "BUILD_COMMAND", NArgs::ZeroOrMore);
    push_kwarg(&mut f_kwargs, "INSTALL_COMMAND", NArgs::ZeroOrMore);
    push_kwarg(&mut f_kwargs, "TEST_COMMAND", NArgs::ZeroOrMore);
    push_kwarg(&mut f_kwargs, "DEPENDS", NArgs::OneOrMore);
    push_kwarg(&mut f_kwargs, "BUILD_BYPRODUCTS", NArgs::OneOrMore);
    push_kwarg(&mut f_kwargs, "LOG_DOWNLOAD", NArgs::Fixed(1));
    push_kwarg(&mut f_kwargs, "LOG_BUILD", NArgs::Fixed(1));
    push_kwarg(&mut f_kwargs, "STEP_TARGETS", NArgs::OneOrMore);
    let mut f_flags = new_flags();
    push_flag(&mut f_flags, "EXCLUDE_FROM_ALL");
    push_flag(&mut f_flags, "BUILD_ALWAYS");
    push_flag(&mut f_flags, "BUILD_IN_SOURCE");
    let f = CommandForm { pargs: NArgs::Fixed(1), kwargs: f_kwargs, flags: f_flags, layout: None };
    (owned("externalproject_add"), CommandSpec::Single(f))
}

/// The built-in spec of `external_project_add`, as values.
pub open spec fn builtin_external_project_add_model() -> SpecModel {
    SpecModel::Single(FormModel {
        pargs: NArgs::Fixed(1),
        kwargs: Seq::<(Seq<char>, KwargModel)>::empty()
            .push(("PREFIX"@, plain_kwarg(NArgs::Fixed(1))))
            .push(("TMP_DIR"@, plain_kwarg(NArgs::Fixed(1))))
            .push(("STAMP_DIR"@, plain_kwarg(NArgs::Fixed(1))))
            .push(("DOWNLOAD_DIR"@, plain_kwarg(NArgs::Fixed(1))))
            .push(("SOURCE_DIR"@, plain_kwarg(NArgs::Fixed(1))))
            .push(("BINARY_DIR"@, plain_kwarg(NArgs::Fixed(1))))
            .push(("INSTALL_DIR"@, plain_kwarg(NArgs::Fixed(1))))
            .push(("URL"@, plain_kwarg(NArgs::OneOrMore)))
            .push(("URL_HASH"@, plain_kwarg(NArgs::Fixed(1))))
            .push(("GIT_REPOSITORY"@, plain_kwarg(NArgs::Fixed(1))))
            .push(("GIT_TAG"@, plain_kwarg(NArgs::Fixed(1))))
            .push(("DOWNLOAD_COMMAND"@, plain_kwarg(NArgs::ZeroOrMore)))
            .push(("UPDATE_COMMAND"@, plain_kwarg(NArgs::ZeroOrMore)))
            .push(("PATCH_COMMAND"@, plain_kwarg(NArgs::ZeroOrMore)))
            .push(("CONFIGURE_COMMAND"@, plain_kwarg(NArgs::ZeroOrMore)))
            .push(("CMAKE_ARGS"@, plain_kwarg(NArgs::OneOrMore)))
            .push(("CMAKE_CACHE_ARGS"@, plain_kwarg(NArgs::OneOrMore)))
            .push(("BUILD_COMMAND"@, plain_kwarg(NArgs::ZeroOrMore)))
            .push(("INSTALL_COMMAND"@, plain_kwarg(NArgs::ZeroOrMore)))
            .push(("TEST_COMMAND"@, plain_kwarg(NArgs::ZeroOrMore)))
            .push(("DEPENDS"@, plain_kwarg(NArgs::OneOrMore)))
            .push(("BUILD_BYPRODUCTS"@, plain_kwarg(NArgs::OneOrMore)))
            .push(("LOG_DOWNLOAD"@, plain_kwarg(NArgs::Fixed(1))))
            .push(("LOG_BUILD"@, plain_kwarg(NArgs::Fixed(1))))
            .push(("STEP_TARGETS"@, plain_kwarg(NArgs::OneOrMore))),
        flags: Seq::<Seq<char>>::empty().push("EXCLUDE_FROM_ALL"@).push("BUILD_ALWAYS"@).push("BUILD_IN_SOURCE"@),
        layout: None,
    })
}

/// The built-in spec of `external_project_add`.
fn builtin_external_project_add() -> (r: (String, CommandSpec))
    ensures
        r.0@ == "external_project_add"@,
        spec_model(r.1) == builtin_external_project_add_model(),
        spec_wf(r.1),
{
    let mut f_kwargs = new_kwargs();
    push_kwarg(&mut f_kwargs, "PREFIX", NArgs::Fixed(1));
    push_kwarg(&mut f_kwargs, "TMP_DIR", NArgs::Fixed(1));
    push_kwarg(&mut f_kwargs, "STAMP_DIR", NArgs::Fixed(1));
    push_kwarg(&mut f_kwargs, "DOWNLOAD_DIR", NArgs::Fixed(1));
    push_kwarg(&mut f_kwargs, "SOURCE_DIR", NArgs::Fixed(1));
    push_kwarg(&mut f_kwargs, "BINARY_DIR", NArgs::Fixed(1));
    push_kwarg(&mut f_kwargs, "INSTALL_DIR", NArgs::Fixed(1));
    push_kwarg(&mut f_kwargs, "URL", NArgs::OneOrMore);
    push_kwarg(&mut f_kwargs, "URL_HASH", NArgs::Fixed(1));
    push_kwarg(&mut f_kwargs, "GIT_REPOSITORY", NArgs::Fixed(1));
    push_kwarg(&mut f_kwargs, "GIT_TAG", NArgs::Fixed(1));
    push_kwarg(&mut f_kwargs, "DOWNLOAD_COMMAND", NArgs::ZeroOrMore);
    push_kwarg(&mut f_kwargs, "UPDATE_COMMAND", NArgs::ZeroOrMore);
    push_kwarg(&mut f_kwargs, "PATCH_COMMAND", NArgs::ZeroOrMore);
    push_kwarg(&mut f_kwargs, "CONFIGURE_COMMAND", NArgs::ZeroOrMore);
    push_kwarg(&mut f_kwargs, "CMAKE_ARGS", NArgs::OneOrMore);
    push_kwarg(&mut f_kwargs, "CMAKE_CACHE_ARGS", NArgs::OneOrMore);
    push_kwarg(&mut f_kwargs, "BUILD_COMMAND", NArgs::ZeroOrMore);
    push_kwarg(&mut f_kwargs, "INSTALL_COMMAND", NArgs::ZeroOrMore);
    push_kwarg(&mut f_kwargs, "TEST_COMMAND", NArgs::ZeroOrMore);
    push_kwarg(&mut f_kwargs, "DEPENDS", NArgs::OneOrMore);
    push_kwarg(&mut f_kwargs, "BUILD_BYPRODUCTS", NArgs::OneOrMore);
    push_kwarg(&mut f_kwargs, "LOG_DOWNLOAD", NArgs::Fixed(1));
    push_kwarg(&mut f_kwargs, "LOG_BUILD", NArgs::Fixed(1));
    push_kwarg(&mut f_kwargs, "STEP_TARGETS", NArgs::OneOrMore);
    let mut f_flags = new_flags();
    push_flag(&mut f_flags, "EXCLUDE_FROM_ALL");
    push_flag(&mut f_flags, "BUILD_ALWAYS");
    push_flag(&mut f_flags, "BUILD_IN_SOURCE");
    let f = CommandForm { pargs: NArgs::Fixed(1), kwargs: f_kwargs, flags: f_flags, layout: None };
    (owned("external_project_add"), CommandSpec::Single(f))
}

/// The built-in spec of `externalproject_add_step`, as values.
pub open spec fn builtin_externalproject_add_step_model() -> SpecModel {
    SpecModel::Single(FormModel {
        pargs: NArgs::Fixed(2),
        kwargs: Seq::<(Seq<char>, KwargModel)>::empty()
            .push(("COMMAND"@, plain_kwarg(NArgs::OneOrMore)))
            .push(("COMMENT"@, plain_kwarg(NArgs::Fixed(1))))
            .push(("DEPENDEES"@, plain_kwarg(NArgs::OneOrMore)))
            .push(("DEPENDERS"@, plain_kwarg(NArgs::OneOrMore)))
            .push(("DEPENDS"@, plain_kwarg(NArgs::OneOrMore)))
            .push(("BYPRODUCTS"@, plain_kwarg(NArgs::OneOrMore)))
            .push(("WORKING_DIRECTORY"@, plain_kwarg(NArgs::Fixed(1))))
            .push(("LOG"@, plain_kwarg(NArgs::Fixed(1))))
            .push(("USES_TERMINAL"@, plain_kwarg(NArgs::Fixed(1))))
            .push(("ENVIRONMENT_MODIFICATION"@, plain_kwarg(NArgs::OneOrMore))),
        flags: Seq::<Seq<char>>::empty().push("ALWAYS"@).push("EXCLUDE_FROM_MAIN"@).push("INDEPENDENT"@),
        layout: None,
    })
}

/// The built-in spec of `externalproject_add_step`.
fn builtin_externalproject_add_step() -> (r: (String, CommandSpec))
    ensures
        r.0@ == "externalproject_add_step"@,
        spec_model(r.1) == builtin_externalproject_add_step_model(),
        spec_wf(r.1),
{
    let mut f_kwargs = new_kwargs();
    push_kwarg(&mut f_kwargs, "COMMAND", NArgs::OneOrMore);
    push_kwarg(&mut f_kwargs, "COMMENT", NArgs::Fixed(1));
    push_kwarg(&mut f_kwargs, "DEPENDEES", NArgs::OneOrMore);
    push_kwarg(&mut f_kwargs, "DEPENDERS", NArgs::OneOrMore);
    push_kwarg(&mut f_kwargs, "DEPENDS", NArgs::OneOrMore);
    push_kwarg(&mut f_kwargs, "BYPRODUCTS", NArgs::OneOrMore);
    push_kwarg(&mut f_kwargs, "WORKING_DIRECTORY", NArgs::Fixed(1));
    push_kwarg(&mut f_kwargs, "LOG", NArgs::Fixed(1));
    push_kwarg(&mut f_kwargs, "USES_TERMINAL", NArgs::Fixed(1));
    push_kwarg(&mut f_kwargs, "ENVIRONMENT_MODIFICATION", NArgs::OneOrMore);
    let mut f_flags = new_flags();
    push_flag(&mut f_flags, "ALWAYS");
    push_flag(&mut f_flags, "EXCLUDE_FROM_MAIN");
    push_flag(&mut f_flags, "INDEPENDENT");
    let f = CommandForm { pargs: NArgs::Fixed(2), kwargs: f_kwargs, flags: f_flags, layout: None };
    (owned("externalproject_add_step"), CommandSpec::Single(f))
}

/// The built-in spec of `externalproject_add_steptargets`, as values.
pub open spec fn builtin_externalproject_add_steptargets_model() -> SpecModel {
    SpecModel::Single(FormModel {
        pargs: NArgs::AtLeast(2),
        kwargs: Seq::<(Seq<char>, KwargModel)>::empty(),
        flags: Seq::<Seq<char>>::empty().push("NO_DEPENDS"@),
        layout: None,
    })
}

/// The built-in spec of `externalproject_add_steptargets`.
fn builtin_externalproject_add_steptargets() -> (r: (String, CommandSpec))
    ensures
        r.0@ == "externalproject_add_steptargets"@,
        spec_model(r.1) == builtin_externalproject_add_steptargets_model(),
        spec_wf(r.1),
{
    let mut f_kwargs = new_kwargs();
    let mut f_flags = new_flags();
    push_flag(&mut f_flags, "NO_DEPENDS");
    let f = CommandForm { pargs: NArgs::AtLeast(2), kwargs: f_kwargs, flags: f_flags, layout: None };
    (owned("externalproject_add_steptargets"), CommandSpec::Single(f))
}

/// The built-in spec of `externalproject_add_stepdependencies`, as values.
pub open spec fn builtin_externalproject_add_stepdependencies_model() -> SpecModel {
    SpecModel::Single(FormModel {
        pargs: NArgs::AtLeast(3),
        kwargs: Seq::<(Seq<char>, KwargModel)>::empty(),
        flags: Seq::<Seq<char>>::empty(),
        layout: None,
    })
}

/// The built-in spec of `externalproject_add_stepdependencies`.
fn builtin_externalproject_add_stepdependencies() -> (r: (String, CommandSpec))
    ensures
        r.0@ == "externalproject_add_stepdependencies"@,
        spec_model(r.1) == builtin_externalproject_add_stepdependencies_model(),
        spec_wf(r.1),
{
    let mut f_kwargs = new_kwargs();
    let mut f_flags = new_flags();
    let f = CommandForm { pargs: NArgs::AtLeast(3), kwargs: f_kwargs, flags: f_flags, layout: None };
    (owned("externalproject_add_stepdependencies"), CommandSpec::Single(f))
}

/// The built-in spec of `externalproject_get_property`, as values.
pub open spec fn builtin_externalproject_get_property_model() -> SpecModel {
    SpecModel::Single(FormModel {
        pargs: NArgs::AtLeast(2),
        kwargs: Seq::<(Seq<char>, KwargModel)>::empty(),
        flags: Seq::<Seq<char>>::empty(),
        layout: None,
    })
}

/// The built-in spec of `externalproject_get_property`.
fn builtin_externalproject_get_property() -> (r: (String, CommandSpec))
    ensures
        r.0@ == "externalproject_get_property"@,
        spec_model(r.1) == builtin_externalproject_get_property_model(),
        spec_wf(r.1),
{
    let mut f_kwargs = new_kwargs();
    let mut f_flags = new_flags();
    let f = CommandForm { pargs: NArgs::AtLeast(2), kwargs: f_kwargs, flags: f_flags, layout: None };
    (owned("externalproject_get_property"), CommandSpec::Single(f))
}

/// The built-in spec of `cpack_add_component`, as values.
pub open spec fn builtin_cpack_add_component_model() -> SpecModel {
    SpecModel::Single(FormModel {
        pargs: NArgs::Fixed(1),
        kwargs: Seq::<(Seq<char>, KwargModel)>::empty()
            .push(("DISPLAY_NAME"@, plain_kwarg(NArgs::Fixed(1))))
            .push(("DESCRIPTION"@, plain_kwarg(NArgs::Fixed(1))))
            .push(("GROUP"@, plain_kwarg(NArgs::Fixed(1))))
            .push(("DEPENDS"@, plain_kwarg(NArgs::OneOrMore)))
            .push(("INSTALL_TYPES"@, plain_kwarg(NArgs::OneOrMore)))
            .push(("ARCHIVE_FILE"@, plain_kwarg(NArgs::Fixed(1))))
            .push(("PLIST"@, plain_kwarg(NArgs::Fixed(1)))),
        flags: Seq::<Seq<char>>::empty().push("HIDDEN"@).push("REQUIRED"@).push("DISABLED"@).push("DOWNLOADED"@),
        layout: None,
    })
}

/// The built-in spec of `cpack_add_component`.
fn builtin_cpack_add_component() -> (r: (String, CommandSpec))
    ensures
        r.0@ == "cpack_add_component"@,
        spec_model(r.1) == builtin_cpack_add_component_model(),
        spec_wf(r.1),
{
    let mut f_kwargs = new_kwargs();
    push_kwarg(&mut f_kwargs, "DISPLAY_NAME", NArgs::Fixed(1));
    push_kwarg(&mut f_kwargs, "DESCRIPTION", NArgs::Fixed(1));
    push_kwarg(&mut f_kwargs, "GROUP", NArgs::Fixed(1));
    push_kwarg(&mut f_kwargs, "DEPENDS", NArgs::OneOrMore);
    push_kwarg(&mut f_kwargs, "INSTALL_TYPES", NArgs::OneOrMore);
    push_kwarg(&mut f_kwargs, "ARCHIVE_FILE", NArgs::Fixed(1));
    push_kwarg(&mut f_kwargs, "PLIST", NArgs::Fixed(1));
    let mut f_flags = new_flags();
    push_flag(&mut f_flags, "HIDDEN");
    push_flag(&mut f_flags, "REQUIRED");
    push_flag(&mut f_flags, "DISABLED");
    push_flag(&mut f_flags, "DOWNLOADED");
    let f = CommandForm { pargs: NArgs::Fixed(1), kwargs: f_kwargs, flags: f_flags, layout: None };
    (owned("cpack_add_component"), CommandSpec::Single(f))
}

/// The built-in spec of `cpack_add_component_group`, as values.
pub open spec fn builtin_cpack_add_component_group_model() -> SpecModel {
    SpecModel::Single(FormModel {
        pargs: NArgs::Fixed(1),
        kwargs: Seq::<(Seq<char>, KwargModel)>::empty()
            .push(("DISPLAY_NAME"@, plain_kwarg(NArgs::Fixed(1))))
            .push(("DESCRIPTION"@, plain_kwarg(NArgs::Fixed(1))))
            .push(("PARENT_GROUP"@, plain_kwarg(NArgs::Fixed(1)))),
        flags: Seq::<Seq<char>>::empty().push("EXPANDED"@).push("BOLD_TITLE"@),
        layout: None,
    })
}

/// The built-in spec of `cpack_add_component_group`.
fn builtin_cpack_add_component_group() -> (r: (String, CommandSpec))
    ensures
        r.0@ == "cpack_add_component_group"@,
        spec_model(r.1) == builtin_cpack_add_component_group_model(),
        spec_wf(r.1),
{
    let mut f_kwargs = new_kwargs();
    push_kwarg(&mut f_kwargs, "DISPLAY_NAME", NArgs::Fixed(1));
    push_kwarg(&mut f_kwargs, "DESCRIPTION", NArgs::Fixed(1));
    push_kwarg(&mut f_kwargs, "PARENT_GROUP", NArgs::Fixed(1));
    let mut f_flags = new_flags();
    push_flag(&mut f_flags, "EXPANDED");
    push_flag(&mut f_flags, "BOLD_TITLE");
    let f = CommandForm { pargs: NArgs::Fixed(1), kwargs: f_kwargs, flags: f_flags, layout: None };
    (owned("cpack_add_component_group"), CommandSpec::Single(f))
}

/// The built-in spec of `cpack_add_install_type`, as values.
pub open spec fn builtin_cpack_add_install_type_model() -> SpecModel {
    SpecModel::Single(FormModel {
        pargs: NArgs::Fixed(1),
        kwargs: Seq::<(Seq<char>, KwargModel)>::empty()
            .push(("DISPLAY_NAME"@, plain_kwarg(NArgs::Fixed(1)))),
        flags: Seq::<Seq<char>>::empty(),
        layout: None,
    })
}

/// The built-in spec of `cpack_add_install_type`.
fn builtin_cpack_add_install_type() -> (r: (String, CommandSpec))
    ensures
        r.0@ == "cpack_add_install_type"@,
        spec_model(r.1) == builtin_cpack_add_install_type_model(),
        spec_wf(r.1),
{
    let mut f_kwargs = new_kwargs();
    push_kwarg(&mut f_kwargs, "DISPLAY_NAME", NArgs::Fixed(1));
    let mut f_flags = new_flags();
    let f = CommandForm { pargs: NArgs::Fixed(1), kwargs: f_kwargs, flags: f_flags, layout: None };
    (owned("cpack_add_install_type"), CommandSpec::Single(f))
}

/// The built-in spec of `cpack_configure_downloads`, as values.
pub open spec fn builtin_cpack_configure_downloads_model() -> SpecModel {
    SpecModel::Single(FormModel {
        pargs: NArgs::Fixed(1),
        kwargs: Seq::<(Seq<char>, KwargModel)>::empty()
            .push(("UPLOAD_DIRECTORY"@, plain_kwarg(NArgs::Fixed(1)))),
        flags: Seq::<Seq<char>>::empty().push("ALL"@).push("ADD_REMOVE"@).push("NO_ADD_REMOVE"@),
        layout: None,
    })
}

/// The built-in spec of `cpack_configure_downloads`.
fn builtin_cpack_configure_downloads() -> (r: (String, CommandSpec))
    ensures
        r.0@ == "cpack_configure_downloads"@,
        spec_model(r.1) == builtin_cpack_configure_downloads_model(),
        spec_wf(r.1),
{
    let mut f_kwargs = new_kwargs();
    push_kwarg(&mut f_kwargs, "UPLOAD_DIRECTORY", NArgs::Fixed(1));
    let mut f_flags = new_flags();
    push_flag(&mut f_flags, "ALL");
    push_flag(&mut f_flags, "ADD_REMOVE");
    push_flag(&mut f_flags, "NO_ADD_REMOVE");
    let f = CommandForm { pargs: NArgs::Fixed(1), kwargs: f_kwargs, flags: f_flags, layout: None };
    (owned("cpack_configure_downloads"), CommandSpec::Single(f))
}

/// The built-in spec of `generate_export_header`, as values.
pub open spec fn builtin_generate_export_header_model() -> SpecModel {
    SpecModel::Single(FormModel {
        pargs: NArgs::Fixed(1),
        kwargs: Seq::<(Seq<char>, KwargModel)>::empty()
            .push(("BASE_NAME"@, plain_kwarg(NArgs::Fixed(1))))
            .push(("EXPORT_MACRO_NAME"@, plain_kwarg(NArgs::Fixed(1))))
            .push(("EXPORT_FILE_NAME"@, plain_kwarg(NArgs::Fixed(1))))
            .push(("DEPRECATED_MACRO_NAME"@, plain_kwarg(NArgs::Fixed(1))))
            .push(("NO_EXPORT_MACRO_NAME"@, plain_kwarg(NArgs::Fixed(1))))
            .push(("INCLUDE_GUARD_NAME"@, plain_kwarg(NArgs::Fixed(1))))
            .push(("STATIC_DEFINE"@, plain_kwarg(NArgs::Fixed(1))))
            .push(("NO_DEPRECATED_MACRO_NAME"@, plain_kwarg(NArgs::Fixed(1))))
            .push(("PREFIX_NAME"@, plain_kwarg(NArgs::Fixed(1))))
            .push(("CUSTOM_CONTENT_FROM_VARIABLE"@, plain_kwarg(NArgs::Fixed(1)))),
        flags: Seq::<Seq<char>>::empty().push("DEFINE_NO_DEPRECATED"@),
        layout: None,
    })
}

/// The built-in spec of `generate_export_header`.
fn builtin_generate_export_header() -> (r: (String, CommandSpec))
    ensures
        r.0@ == "generate_export_header"@,
        spec_model(r.1) == builtin_generate_export_header_model(),
        spec_wf(r.1),
{
    let mut f_kwargs = new_kwargs();
    push_kwarg(&mut f_kwargs, "BASE_NAME", NArgs::Fixed(1));
    push_kwarg(&mut f_kwargs, "EXPORT_MACRO_NAME", NArgs::Fixed(1));
    push_kwarg(&mut f_kwargs, "EXPORT_FILE_NAME", NArgs::Fixed(1));
    push_kwarg(&mut f_kwargs, "DEPRECATED_MACRO_NAME", NArgs::Fixed(1));
    push_kwarg(&mut f_kwargs, "NO_EXPORT_MACRO_NAME", NArgs::Fixed(1));
    push_kwarg(&mut f_kwargs, "INCLUDE_GUARD_NAME", NArgs::Fixed(1));
    push_kwarg(&mut f_kwargs, "STATIC_DEFINE", NArgs::Fixed(1));
    push_kwarg(&mut f_kwargs, "NO_DEPRECATED_MACRO_NAME", NArgs::Fixed(1));
    push_kwarg(&mut f_kwargs, "PREFIX_NAME", NArgs::Fixed(1));
    push_kwarg(&mut f_kwargs, "CUSTOM_CONTENT_FROM_VARIABLE", NArgs::Fixed(1));
    let mut f_flags = new_flags();
    push_flag(&mut f_flags, "DEFINE_NO_DEPRECATED");
    let f = CommandForm { pargs: NArgs::Fixed(1), kwargs: f_kwargs, flags: f_flags, layout: None };
    (owned("generate_export_header"), CommandSpec::Single(f))
}

/// The built-in spec of `add_compiler_export_flags`, as values.
pub open spec fn builtin_add_compiler_export_flags_model() -> SpecModel {
    SpecModel::Single(FormModel {
        pargs: NArgs::Optional,
        kwargs: Seq::<(Seq<char>, KwargModel)>::empty(),
        flags: Seq::<Seq<char>>::empty(),
        layout: None,
    })
}

/// The built-in spec of `add_compiler_export_flags`.
fn builtin_add_compiler_export_flags() -> (r: (String, CommandSpec))
    ensures
        r.0@ == "add_compiler_export_flags"@,
        spec_model(r.1) == builtin_add_compiler_export_flags_model(),
        spec_wf(r.1),
{
    let mut f_kwargs = new_kwargs();
    let mut f_flags = new_flags();
    let f = CommandForm { pargs: NArgs::Optional, kwargs: f_kwargs, flags: f_flags, layout: None };
    (owned("add_compiler_export_flags"), CommandSpec::Single(f))
}

/// The built-in spec of `android_add_test_data`, as values.
pub open spec fn builtin_android_add_test_data_model() -> SpecModel {
    SpecModel::Single(FormModel {
        pargs: NArgs::ZeroOrMore,
        kwargs: Seq::<(Seq<char>, KwargModel)>::empty(),
        flags: Seq::<Seq<char>>::empty(),
        layout: None,
    })
}

/// The built-in spec of `android_add_test_data`.
fn builtin_android_add_test_data() -> (r: (String, CommandSpec))
    ensures
        r.0@ == "android_add_test_data"@,
        spec_model(r.1) == builtin_android_add_test_data_model(),
        spec_wf(r.1),
{
    let mut f_kwargs = new_kwargs();
    let mut f_flags = new_flags();
    let f = CommandForm { pargs: NArgs::ZeroOrMore, kwargs: f_kwargs, flags: f_flags, layout: None };
    (owned("android_add_test_data"), CommandSpec::Single(f))
}

/// The built-in spec of `add_file_dependencies`, as values.
pub open spec fn builtin_add_file_dependencies_model() -> SpecModel {
    SpecModel::Single(FormModel {
        pargs: NArgs::ZeroOrMore,
        kwargs: Seq::<(Seq<char>, KwargModel)>::empty(),
        flags: Seq::<Seq<char>>::empty(),
        layout: None,
    })
}

/// The built-in spec of `add_file_dependencies`.
fn builtin_add_file_dependencies() -> (r: (String, CommandSpec))
    ensures
        r.0@ == "add_file_dependencies"@,
        spec_model(r.1) == builtin_add_file_dependencies_model(),
        spec_wf(r.1),
{
    let mut f_kwargs = new_kwargs();
    let mut f_flags = new_flags();
    let f = CommandForm { pargs: NArgs::ZeroOrMore, kwargs: f_kwargs, flags: f_flags, layout: None };
    (owned("add_file_dependencies"), CommandSpec::Single(f))
}

/// The built-in spec of `cmake_add_fortran_subdirectory`, as values.
pub open spec fn builtin_cmake_add_fortran_subdirectory_model() -> SpecModel {
    SpecModel::Single(FormModel {
        pargs: NArgs::ZeroOrMore,
        kwargs: Seq::<(Seq<char>, KwargModel)>::empty(),
        flags: Seq::<Seq<char>>::empty(),
        layout: None,
    })
}

/// The built-in spec of `cmake_add_fortran_subdirectory`.
fn builtin_cmake_add_fortran_subdirectory() -> (r: (String, CommandSpec))
    ensures
        r.0@ == "cmake_add_fortran_subdirectory"@,
        spec_model(r.1) == builtin_cmake_add_fortran_subdirectory_model(),
        spec_wf(r.1),
{
    let mut f_kwargs = new_kwargs();
    let mut f_flags = new_flags();
    let f = CommandForm { pargs: NArgs::ZeroOrMore, kwargs: f_kwargs, flags: f_flags, layout: None };
    (owned("cmake_add_fortran_subdirectory"), CommandSpec::Single(f))
}

/// The built-in spec of `cmake_expand_imported_targets`, as values.
pub open spec fn builtin_cmake_expand_imported_targets_model() -> SpecModel {
    SpecModel::Single(FormModel {
        pargs: NArgs::ZeroOrMore,
        kwargs: Seq::<(Seq<char>, KwargModel)>::empty(),
        flags: Seq::<Seq<char>>::empty(),
        layout: None,
    })
}

/// The built-in spec of `cmake_expand_imported_targets`.
fn builtin_cmake_expand_imported_targets() -> (r: (String, CommandSpec))
    ensures
        r.0@ == "cmake_expand_imported_targets"@,
        spec_model(r.1) == builtin_cmake_expand_imported_targets_model(),
        spec_wf(r.1),
{
    let mut f_kwargs = new_kwargs();
    let mut f_flags = new_flags();
    let f = CommandForm { pargs: NArgs::ZeroOrMore, kwargs: f_kwargs, flags: f_flags, layout: None };
    (owned("cmake_expand_imported_targets"), CommandSpec::Single(f))
}

/// The built-in spec of `cmake_force_c_compiler`, as values.
pub open spec fn builtin_cmake_force_c_compiler_model() -> SpecModel {
    SpecModel::Single(FormModel {
        pargs: NArgs::ZeroOrMore,
        kwargs: Seq::<(Seq<char>, KwargModel)>::empty(),
        flags: Seq::<Seq<char>>::empty(),
        layout: None,
    })
}

/// The built-in spec of `cmake_force_c_compiler`.
fn builtin_cmake_force_c_compiler() -> (r: (String, CommandSpec))
    ensures
        r.0@ == "cmake_force_c_compiler"@,
        spec_model(r.1) == builtin_cmake_force_c_compiler_model(),
        spec_wf(r.1),
{
    let mut f_kwargs = new_kwargs();
    let mut f_flags = new_flags();
    let f = CommandForm { pargs: NArgs::ZeroOrMore, kwargs: f_kwargs, flags: f_flags, layout: None };
    (owned("cmake_force_c_compiler"), CommandSpec::Single(f))
}

/// The built-in spec of `cmake_force_cxx_compiler`, as values.
pub open spec fn builtin_cmake_force_cxx_compiler_model() -> SpecModel {
    SpecModel::Single(FormModel {
        pargs: NArgs::ZeroOrMore,
        kwargs: Seq::<(Seq<char>, KwargModel)>::empty(),
        flags: Seq::<Seq<char>>::empty(),
        layout: None,
    })
}

/// The built-in spec of `cmake_force_cxx_compiler`.
fn builtin_cmake_force_cxx_compiler() -> (r: (String, CommandSpec))
    ensures
        r.0@ == "cmake_force_cxx_compiler"@,
        spec_model(r.1) == builtin_cmake_force_cxx_compiler_model(),
        spec_wf(r.1),
{
    let mut f_kwargs = new_kwargs();
    let mut f_flags = new_flags();
    let f = CommandForm { pargs: NArgs::ZeroOrMore, kwargs: f_kwargs, flags: f_flags, layout: None };
    (owned("cmake_force_cxx_compiler"), CommandSpec::Single(f))
}

/// The built-in spec of `cmake_force_fortran_compiler`, as values.
pub open spec fn builtin_cmake_force_fortran_compiler_model() -> SpecModel {
    SpecModel::Single(FormModel {
        pargs: NArgs::ZeroOrMore,
        kwargs: Seq::<(Seq<char>, KwargModel)>::empty(),
        flags: Seq::<Seq<char>>::empty(),
        layout: None,
    })
}

/// The built-in spec of `cmake_force_fortran_compiler`.
fn builtin_cmake_force_fortran_compiler() -> (r: (String, CommandSpec))
    ensures
        r.0@ == "cmake_force_fortran_compiler"@,
        spec_model(r.1) == builtin_cmake_force_fortran_compiler_model(),
        spec_wf(r.1),
{
    let mut f_kwargs = new_kwargs();
    let mut f_flags = new_flags();
    let f = CommandForm { pargs: NArgs::ZeroOrMore, kwargs: f_kwargs, flags: f_flags, layout: None };
    (owned("cmake_force_fortran_compiler"), CommandSpec::Single(f))
}

/// The built-in spec of `ctest_coverage_collect_gcov`, as values.
pub open spec fn builtin_ctest_coverage_collect_gcov_model() -> SpecModel {
    SpecModel::Single(FormModel {
        pargs: NArgs::ZeroOrMore,
        kwargs: Seq::<(Seq<char>, KwargModel)>::empty(),
        flags: Seq::<Seq<char>>::empty(),
        layout: None,
    })
}

/// The built-in spec of `ctest_coverage_collect_gcov`.
fn builtin_ctest_coverage_collect_gcov() -> (r: (String, CommandSpec))
    ensures
        r.0@ == "ctest_coverage_collect_gcov"@,
        spec_model(r.1) == builtin_ctest_coverage_collect_gcov_model(),
        spec_wf(r.1),
{
    let mut f_kwargs = new_kwargs();
    let mut f_flags = new_flags();
    let f = CommandForm { pargs: NArgs::ZeroOrMore, kwargs: f_kwargs, flags: f_flags, layout: None };
    (owned("ctest_coverage_collect_gcov"), CommandSpec::Single(f))
}

/// The built-in spec of `copy_and_fixup_bundle`, as values.
pub open spec fn builtin_copy_and_fixup_bundle_model() -> SpecModel {
    SpecModel::Single(FormModel {
        pargs: NArgs::ZeroOrMore,
        kwargs: Seq::<(Seq<char>, KwargModel)>::empty(),
        flags: Seq::<Seq<char>>::empty(),
        layout: None,
    })
}

/// The built-in spec of `copy_and_fixup_bundle`.
fn builtin_copy_and_fixup_bundle() -> (r: (String, CommandSpec))
    ensures
        r.0@ == "copy_and_fixup_bundle"@,
        spec_model(r.1) == builtin_copy_and_fixup_bundle_model(),
        spec_wf(r.1),
{
    let mut f_kwargs = new_kwargs();
    let mut f_flags = new_flags();
    let f = CommandForm { pargs: NArgs::ZeroOrMore, kwargs: f_kwargs, flags: f_flags, layout: None };
    (owned("copy_and_fixup_bundle"), CommandSpec::Single(f))
}

/// The built-in spec of `fixup_bundle`, as values.
pub open spec fn builtin_fixup_bundle_model() -> SpecModel {
    SpecModel::Single(FormModel {
        pargs: NArgs::ZeroOrMore,
        kwargs: Seq::<(Seq<char>, KwargModel)>::empty(),
        flags: Seq::<Seq<char>>::empty(),
        layout: None,
    })
}

/// The built-in spec of `fixup_bundle`.
fn builtin_fixup_bundle() -> (r: (String, CommandSpec))
    ensures
        r.0@ == "fixup_bundle"@,
        spec_model(r.1) == builtin_fixup_bundle_model(),
        spec_wf(r.1),
{
    let mut f_kwargs = new_kwargs();
    let mut f_flags = new_flags();
    let f = CommandForm { pargs: NArgs::ZeroOrMore, kwargs: f_kwargs, flags: f_flags, layout: None };
    (owned("fixup_bundle"), CommandSpec::Single(f))
}

/// The built-in spec of `fixup_bundle_item`, as values.
pub open spec fn builtin_fixup_bundle_item_model() -> SpecModel {
    SpecModel::Single(FormModel {
        pargs: NArgs::ZeroOrMore,
        kwargs: Seq::<(Seq<char>, KwargModel)>::empty(),
        flags: Seq::<Seq<char>>::empty(),
        layout: None,
    })
}

/// The built-in spec of `fixup_bundle_item`.
fn builtin_fixup_bundle_item() -> (r: (String, CommandSpec))
    ensures
        r.0@ == "fixup_bundle_item"@,
        spec_model(r.1) == builtin_fixup_bundle_item_model(),
        spec_wf(r.1),
{
    let mut f_kwargs = new_kwargs();
    let mut f_flags = new_flags();
    let f = CommandForm { pargs: NArgs::ZeroOrMore, kwargs: f_kwargs, flags: f_flags, layout: None };
    (owned("fixup_bundle_item"), CommandSpec::Single(f))
}

/// The built-in spec of `verify_app`, as values.
pub open spec fn builtin_verify_app_model() -> SpecModel {
    SpecModel::Single(FormModel {
        pargs: NArgs::ZeroOrMore,
        kwargs: Seq::<(Seq<char>, KwargModel)>::empty(),
        flags: Seq::<Seq<char>>::empty(),
        layout: None,
    })
}

/// The built-in spec of `verify_app`.
fn builtin_verify_app() -> (r: (String, CommandSpec))
    ensures
        r.0@ == "verify_app"@,
        spec_model(r.1) == builtin_verify_app_model(),
        spec_wf(r.1),
{
    let mut f_kwargs = new_kwargs();
    let mut f_flags = new_flags();
    let f = CommandForm { pargs: NArgs::ZeroOrMore, kwargs: f_kwargs, flags: f_flags, layout: None };
    (owned("verify_app"), CommandSpec::Single(f))
}

/// The built-in spec of `verify_bundle_prerequisites`, as values.
pub open spec fn builtin_verify_bundle_prerequisites_model() -> SpecModel {
    SpecModel::Single(FormModel {
        pargs: NArgs::ZeroOrMore,
        kwargs: Seq::<(Seq<char>, KwargModel)>::empty(),
        flags: Seq::<Seq<char>>::empty(),
        layout: None,
    })
}

/// The built-in spec of `verify_bundle_prerequisites`.
fn builtin_verify_bundle_prerequisites() -> (r: (String, CommandSpec))
    ensures
        r.0@ == "verify_bundle_prerequisites"@,
        spec_model(r.1) == builtin_verify_bundle_prerequisites_model(),
        spec_wf(r.1),
{
    let mut f_kwargs = new_kwargs();
    let mut f_flags = new_flags();
    let f = CommandForm { pargs: NArgs::ZeroOrMore, kwargs: f_kwargs, flags: f_flags, layout: None };
    (owned("verify_bundle_prerequisites"), CommandSpec::Single(f))
}

/// The built-in spec of `verify_bundle_symlinks`, as values.
pub open spec fn builtin_verify_bundle_symlinks_model() -> SpecModel {
    SpecModel::Single(FormModel {
        pargs: NArgs::ZeroOrMore,
        kwargs: Seq::<(Seq<char>, KwargModel)>::empty(),
        flags: Seq::<Seq<char>>::empty(),
        layout: None,
    })
}

/// The built-in spec of `verify_bundle_symlinks`.
fn builtin_verify_bundle_symlinks() -> (r: (String, CommandSpec))
    ensures
        r.0@ == "verify_bundle_symlinks"@,
        spec_model(r.1) == builtin_verify_bundle_symlinks_model(),
        spec_wf(r.1),
{
    let mut f_kwargs = new_kwargs();
    let mut f_flags = new_flags();
    let f = CommandForm { pargs: NArgs::ZeroOrMore, kwargs: f_kwargs, flags: f_flags, layout: None };
    (owned("verify_bundle_symlinks"), CommandSpec::Single(f))
}

/// The built-in spec of `get_bundle_main_executable`, as values.
pub open spec fn builtin_get_bundle_main_executable_model() -> SpecModel {
    SpecModel::Single(FormModel {
        pargs: NArgs::ZeroOrMore,
        kwargs: Seq::<(Seq<char>, KwargModel)>::empty(),
        flags: Seq::<Seq<char>>::empty(),
        layout: None,
    })
}

/// The built-in spec of `get_bundle_main_executable`.
fn builtin_get_bundle_main_executable() -> (r: (String, CommandSpec))
    ensures
        r.0@ == "get_bundle_main_executable"@,
        spec_model(r.1) == builtin_get_bundle_main_executable_model(),
        spec_wf(r.1),
{
    let mut f_kwargs = new_kwargs();
    let mut f_flags = new_flags();
    let f = CommandForm { pargs: NArgs::ZeroOrMore, kwargs: f_kwargs, flags: f_flags, layout: None };
    (owned("get_bundle_main_executable"), CommandSpec::Single(f))
}

/// The built-in spec of `get_dotapp_dir`, as values.
pub open spec fn builtin_get_dotapp_dir_model() -> SpecModel {
    SpecModel::Single(FormModel {
        pargs: NArgs::ZeroOrMore,
        kwargs: Seq::<(Seq<char>, KwargModel)>::empty(),
        flags: Seq::<Seq<char>>::empty(),
        layout: None,
    })
}

/// The built-in spec of `get_dotapp_dir`.
fn builtin_get_dotapp_dir() -> (r: (String, CommandSpec))
    ensures
        r.0@ == "get_dotapp_dir"@,
        spec_model(r.1) == builtin_get_dotapp_dir_model(),
        spec_wf(r.1),
{
    let mut f_kwargs = new_kwargs();
    let mut f_flags = new_flags();
    let f = CommandForm { pargs: NArgs::ZeroOrMore, kwargs: f_kwargs, flags: f_flags, layout: None };
    (owned("get_dotapp_dir"), CommandSpec::Single(f))
}

/// The built-in spec of `get_bundle_and_executable`, as values.
pub open spec fn builtin_get_bundle_and_executable_model() -> SpecModel {
    SpecModel::Single(FormModel {
        pargs: NArgs::ZeroOrMore,
        kwargs: Seq::<(Seq<char>, KwargModel)>::empty(),
        flags: Seq::<Seq<char>>::empty(),
        layout: None,
    })
}

/// The built-in spec of `get_bundle_and_executable`.
fn builtin_get_bundle_and_executable() -> (r: (String, CommandSpec))
    ensures
        r.0@ == "get_bundle_and_executable"@,
        spec_model(r.1) == builtin_get_bundle_and_executable_model(),
        spec_wf(r.1),
{
    let mut f_kwargs = new_kwargs();
    let mut f_flags = new_flags();
    let f = CommandForm { pargs: NArgs::ZeroOrMore, kwargs: f_kwargs, flags: f_flags, layout: None };
    (owned("get_bundle_and_executable"), CommandSpec::Single(f))
}

/// The built-in spec of `get_bundle_all_executables`, as values.
pub open spec fn builtin_get_bundle_all_executables_model() -> SpecModel {
    SpecModel::Single(FormModel {
        pargs: NArgs::ZeroOrMore,
        kwargs: Seq::<(Seq<char>, KwargModel)>::empty(),
        flags: Seq::<Seq<char>>::empty(),
        layout: None,
    })
}

/// The built-in spec of `get_bundle_all_executables`.
fn builtin_get_bundle_all_executables() -> (r: (String, CommandSpec))
    ensures
        r.0@ == "get_bundle_all_executables"@,
        spec_model(r.1) == builtin_get_bundle_all_executables_model(),
        spec_wf(r.1),
{
    let mut f_kwargs = new_kwargs();
    let mut f_flags = new_flags();
    let f = CommandForm { pargs: NArgs::ZeroOrMore, kwargs: f_kwargs, flags: f_flags, layout: None };
    (owned("get_bundle_all_executables"), CommandSpec::Single(f))
}

/// The built-in spec of `get_bundle_keys`, as values.
pub open spec fn builtin_get_bundle_keys_model() -> SpecModel {
    SpecModel::Single(FormModel {
        pargs: NArgs::ZeroOrMore,
        kwargs: Seq::<(Seq<char>, KwargModel)>::empty(),
        flags: Seq::<Seq<char>>::empty(),
        layout: None,
    })
}

/// The built-in spec of `get_bundle_keys`.
fn builtin_get_bundle_keys() -> (r: (String, CommandSpec))
    ensures
        r.0@ == "get_bundle_keys"@,
        spec_model(r.1) == builtin_get_bundle_keys_model(),
        spec_wf(r.1),
{
    let mut f_kwargs = new_kwargs();
    let mut f_flags = new_flags();
    let f = CommandForm { pargs: NArgs::ZeroOrMore, kwargs: f_kwargs, flags: f_flags, layout: None };
    (owned("get_bundle_keys"), CommandSpec::Single(f))
}

/// The built-in spec of `get_item_key`, as values.
pub open spec fn builtin_get_item_key_model() -> SpecModel {
    SpecModel::Single(FormModel {
        pargs: NArgs::ZeroOrMore,
        kwargs: Seq::<(Seq<char>, KwargModel)>::empty(),
        flags: Seq::<Seq<char>>::empty(),
        layout: None,
    })
}

/// The built-in spec of `get_item_key`.
fn builtin_get_item_key() -> (r: (String, CommandSpec))
    ensures
        r.0@ == "get_item_key"@,
        spec_model(r.1) == builtin_get_item_key_model(),
        spec_wf(r.1),
{
    let mut f_kwargs = new_kwargs();
    let mut f_flags = new_flags();
    let f = CommandForm { pargs: NArgs::ZeroOrMore, kwargs: f_kwargs, flags: f_flags, layout: None };
    (owned("get_item_key"), CommandSpec::Single(f))
}

/// The built-in spec of `get_item_rpaths`, as values.
pub open spec fn builtin_get_item_rpaths_model() -> SpecModel {
    SpecModel::Single(FormModel {
        pargs: NArgs::ZeroOrMore,
        kwargs: Seq::<(Seq<char>, KwargModel)>::empty(),
        flags: Seq::<Seq<char>>::empty(),
        layout: None,
    })
}

/// The built-in spec of `get_item_rpaths`.
fn builtin_get_item_rpaths() -> (r: (String, CommandSpec))
    ensures
        r.0@ == "get_item_rpaths"@,
        spec_model(r.1) == builtin_get_item_rpaths_model(),
        spec_wf(r.1),
{
    let mut f_kwargs = new_kwargs();
    let mut f_flags = new_flags();
    let f = CommandForm { pargs: NArgs::ZeroOrMore, kwargs: f_kwargs, flags: f_flags, layout: None };
    (owned("get_item_rpaths"), CommandSpec::Single(f))
}

/// The built-in spec of `clear_bundle_keys`, as values.
pub open spec fn builtin_clear_bundle_keys_model() -> SpecModel {
    SpecModel::Single(FormModel {
        pargs: NArgs::ZeroOrMore,
        kwargs: Seq::<(Seq<char>, KwargModel)>::empty(),
        flags: Seq::<Seq<char>>::empty(),
        layout: None,
    })
}

/// The built-in spec of `clear_bundle_keys`.
fn builtin_clear_bundle_keys() -> (r: (String, CommandSpec))
    ensures
        r.0@ == "clear_bundle_keys"@,
        spec_model(r.1) == builtin_clear_bundle_keys_model(),
        spec_wf(r.1),
{
    let mut f_kwargs = new_kwargs();
    let mut f_flags = new_flags();
    let f = CommandForm { pargs: NArgs::ZeroOrMore, kwargs: f_kwargs, flags: f_flags, layout: None };
    (owned("clear_bundle_keys"), CommandSpec::Single(f))
}

/// The built-in spec of `set_bundle_key_values`, as values.
pub open spec fn builtin_set_bundle_key_values_model() -> SpecModel {
    SpecModel::Single(FormModel {
        pargs: NArgs::ZeroOrMore,
        kwargs: Seq::<(Seq<char>, KwargModel)>::empty(),
        flags: Seq::<Seq<char>>::empty(),
        layout: None,
    })
}

/// The built-in spec of `set_bundle_key_values`.
fn builtin_set_bundle_key_values() -> (r: (String, CommandSpec))
    ensures
        r.0@ == "set_bundle_key_values"@,
        spec_model(r.1) == builtin_set_bundle_key_values_model(),
        spec_wf(r.1),
{
    let mut f_kwargs = new_kwargs();
    let mut f_flags = new_flags();
    let f = CommandForm { pargs: NArgs::ZeroOrMore, kwargs: f_kwargs, flags: f_flags, layout: None };
    (owned("set_bundle_key_values"), CommandSpec::Single(f))
}

/// The built-in spec of `copy_resolved_framework_into_bundle`, as values.
pub open spec fn builtin_copy_resolved_framework_into_bundle_model() -> SpecModel {
    SpecModel::Single(FormModel {
        pargs: NArgs::ZeroOrMore,
        kwargs: Seq::<(Seq<char>, KwargModel)>::empty(),
        flags: Seq::<Seq<char>>::empty(),
        layout: None,
    })
}

/// The built-in spec of `copy_resolved_framework_into_bundle`.
fn builtin_copy_resolved_framework_into_bundle() -> (r: (String, CommandSpec))
    ensures
        r.0@ == "copy_resolved_framework_into_bundle"@,
        spec_model(r.1) == builtin_copy_resolved_framework_into_bundle_model(),
        spec_wf(r.1),
{
    let mut f_kwargs = new_kwargs();
    let mut f_flags = new_flags();
    let f = CommandForm { pargs: NArgs::ZeroOrMore, kwargs: f_kwargs, flags: f_flags, layout: None };
    (owned("copy_resolved_framework_into_bundle"), CommandSpec::Single(f))
}

/// The built-in spec of `copy_resolved_item_into_bundle`, as values.
pub open spec fn builtin_copy_resolved_item_into_bundle_model() -> SpecModel {
    SpecModel::Single(FormModel {
        pargs: NArgs::ZeroOrMore,
        kwargs: Seq::<(Seq<char>, KwargModel)>::empty(),
        flags: Seq::<Seq<char>>::empty(),
        layout: None,
    })
}

/// The built-in spec of `copy_resolved_item_into_bundle`.
fn builtin_copy_resolved_item_into_bundle() -> (r: (String, CommandSpec))
    ensures
        r.0@ == "copy_resolved_item_into_bundle"@,
        spec_model(r.1) == builtin_copy_resolved_item_into_bundle_model(),
        spec_wf(r.1),
{
    let mut f_kwargs = new_kwargs();
    let mut f_flags = new_flags();
    let f = CommandForm { pargs: NArgs::ZeroOrMore, kwargs: f_kwargs, flags: f_flags, layout: None };
    (owned("copy_resolved_item_into_bundle"), CommandSpec::Single(f))
}

/// The built-in spec of `cpack_ifw_add_package_resources`, as values.
pub open spec fn builtin_cpack_ifw_add_package_resources_model() -> SpecModel {
    SpecModel::Single(FormModel {
        pargs: NArgs::ZeroOrMore,
        kwargs: Seq::<(Seq<char>, KwargModel)>::empty(),
        flags: Seq::<Seq<char>>::empty(),
        layout: None,
    })
}

/// The built-in spec of `cpack_ifw_add_package_resources`.
fn builtin_cpack_ifw_add_package_resources() -> (r: (String, CommandSpec))
    ensures
        r.0@ == "cpack_ifw_add_package_resources"@,
        spec_model(r.1) == builtin_cpack_ifw_add_package_resources_model(),
        spec_wf(r.1),
{
    let mut f_kwargs = new_kwargs();
    let mut f_flags = new_flags();
    let f = CommandForm { pargs: NArgs::ZeroOrMore, kwargs: f_kwargs, flags: f_flags, layout: None };
    (owned("cpack_ifw_add_package_resources"), CommandSpec::Single(f))
}

/// The built-in spec of `cpack_ifw_add_repository`, as values.
pub open spec fn builtin_cpack_ifw_add_repository_model() -> SpecModel {
    SpecModel::Single(FormModel {
        pargs: NArgs::ZeroOrMore,
        kwargs: Seq::<(Seq<char>, KwargModel)>::empty(),
        flags: Seq::<Seq<char>>::empty(),
        layout: None,
    })
}

/// The built-in spec of `cpack_ifw_add_repository`.
fn builtin_cpack_ifw_add_repository() -> (r: (String, CommandSpec))
    ensures
        r.0@ == "cpack_ifw_add_repository"@,
        spec_model(r.1) == builtin_cpack_ifw_add_repository_model(),
        spec_wf(r.1),
{
    let mut f_kwargs = new_kwargs();
    let mut f_flags = new_flags();
    let f = CommandForm { pargs: NArgs::ZeroOrMore, kwargs: f_kwargs, flags: f_flags, layout: None };
    (owned("cpack_ifw_add_repository"), CommandSpec::Single(f))
}

/// The built-in spec of `cpack_ifw_configure_component`, as values.
pub open spec fn builtin_cpack_ifw_configure_component_model() -> SpecModel {
    SpecModel::Single(FormModel {
        pargs: NArgs::ZeroOrMore,
        kwargs: Seq::<(Seq<char>, KwargModel)>::empty(),
        flags: Seq::<Seq<char>>::empty(),
        layout: None,
    })
}

/// The built-in spec of `cpack_ifw_configure_component`.
fn builtin_cpack_ifw_configure_component() -> (r: (String, CommandSpec))
    ensures
        r.0@ == "cpack_ifw_configure_component"@,
        spec_model(r.1) == builtin_cpack_ifw_configure_component_model(),
        spec_wf(r.1),
{
    let mut f_kwargs = new_kwargs();
    let mut f_flags = new_flags();
    let f = CommandForm { pargs: NArgs::ZeroOrMore, kwargs: f_kwargs, flags: f_flags, layout: None };
    (owned("cpack_ifw_configure_component"), CommandSpec::Single(f))
}

/// The built-in spec of `cpack_ifw_configure_component_group`, as values.
pub open spec fn builtin_cpack_ifw_configure_component_group_model() -> SpecModel {
    SpecModel::Single(FormModel {
        pargs: NArgs::ZeroOrMore,
        kwargs: Seq::<(Seq<char>, KwargModel)>::empty(),
        flags: Seq::<Seq<char>>::empty(),
        layout: None,
    })
}

/// The built-in spec of `cpack_ifw_configure_component_group`.
fn builtin_cpack_ifw_configure_component_group() -> (r: (String, CommandSpec))
    ensures
        r.0@ == "cpack_ifw_configure_component_group"@,
        spec_model(r.1) == builtin_cpack_ifw_configure_component_group_model(),
        spec_wf(r.1),
{
    let mut f_kwargs = new_kwargs();
    let mut f_flags = new_flags();
    let f = CommandForm { pargs: NArgs::ZeroOrMore, kwargs: f_kwargs, flags: f_flags, layout: None };
    (owned("cpack_ifw_configure_component_group"), CommandSpec::Single(f))
}

/// The built-in spec of `cpack_ifw_update_repository`, as values.
pub open spec fn builtin_cpack_ifw_update_repository_model() -> SpecModel {
    SpecModel::Single(FormModel {
        pargs: NArgs::ZeroOrMore,
        kwargs: Seq::<(Seq<char>, KwargModel)>::empty(),
        flags: Seq::<Seq<char>>::empty(),
        layout: None,
    })
}

/// The built-in spec of `cpack_ifw_update_repository`.
fn builtin_cpack_ifw_update_repository() -> (r: (String, CommandSpec))
    ensures
        r.0@ == "cpack_ifw_update_repository"@,
        spec_model(r.1) == builtin_cpack_ifw_update_repository_model(),
        spec_wf(r.1),
{
    let mut f_kwargs = new_kwargs();
    let mut f_flags = new_flags();
    let f = CommandForm { pargs: NArgs::ZeroOrMore, kwargs: f_kwargs, flags: f_flags, layout: None };
    (owned("cpack_ifw_update_repository"), CommandSpec::Single(f))
}

/// The built-in spec of `cpack_ifw_configure_file`, as values.
pub open spec fn builtin_cpack_ifw_configure_file_model() -> SpecModel {
    SpecModel::Single(FormModel {
        pargs: NArgs::Fixed(2),
        kwargs: Seq::<(Seq<char>, KwargModel)>::empty(),
        flags: Seq::<Seq<char>>::empty(),
        layout: None,
    })
}

/// The built-in spec of `cpack_ifw_configure_file`.
fn builtin_cpack_ifw_configure_file() -> (r: (String, CommandSpec))
    ensures
        r.0@ == "cpack_ifw_configure_file"@,
        spec_model(r.1) == builtin_cpack_ifw_configure_file_model(),
        spec_wf(r.1),
{
    let mut f_kwargs = new_kwargs();
    let mut f_flags = new_flags();
    let f = CommandForm { pargs: NArgs::Fixed(2), kwargs: f_kwargs, flags: f_flags, layout: None };
    (owned("cpack_ifw_configure_file"), CommandSpec::Single(f))
}

/// The built-in spec of `csharp_set_windows_forms_properties`, as values.
pub open spec fn builtin_csharp_set_windows_forms_properties_model() -> SpecModel {
    SpecModel::Single(FormModel {
        pargs: NArgs::ZeroOrMore,
        kwargs: Seq::<(Seq<char>, KwargModel)>::empty(),
        flags: Seq::<Seq<char>>::empty(),
        layout: None,
    })
}

/// The built-in spec of `csharp_set_windows_forms_properties`.
fn builtin_csharp_set_windows_forms_properties() -> (r: (String, CommandSpec))
    ensures
        r.0@ == "csharp_set_windows_forms_properties"@,
        spec_model(r.1) == builtin_csharp_set_windows_forms_properties_model(),
        spec_wf(r.1),
{
    let mut f_kwargs = new_kwargs();
    let mut f_flags = new_flags();
    let f = CommandForm { pargs: NArgs::ZeroOrMore, kwargs: f_kwargs, flags: f_flags, layout: None };
    (owned("csharp_set_windows_forms_properties"), CommandSpec::Single(f))
}

/// The built-in spec of `csharp_set_designer_cs_properties`, as values.
pub open spec fn builtin_csharp_set_designer_cs_properties_model() -> SpecModel {
    SpecModel::Single(FormModel {
        pargs: NArgs::ZeroOrMore,
        kwargs: Seq::<(Seq<char>, KwargModel)>::empty(),
        flags: Seq::<Seq<char>>::empty(),
        layout: None,
    })
}

/// The built-in spec of `csharp_set_designer_cs_properties`.
fn builtin_csharp_set_designer_cs_properties() -> (r: (String, CommandSpec))
    ensures
        r.0@ == "csharp_set_designer_cs_properties"@,
        spec_model(r.1) == builtin_csharp_set_designer_cs_properties_model(),
        spec_wf(r.1),
{
    let mut f_kwargs = new_kwargs();
    let mut f_flags = new_flags();
    let f = CommandForm { pargs: NArgs::ZeroOrMore, kwargs: f_kwargs, flags: f_flags, layout: None };
    (owned("csharp_set_designer_cs_properties"), CommandSpec::Single(f))
}

/// The built-in spec of `csharp_set_xaml_cs_properties`, as values.
pub open spec fn builtin_csharp_set_xaml_cs_properties_model() -> SpecModel {
    SpecModel::Single(FormModel {
        pargs: NArgs::ZeroOrMore,
        kwargs: Seq::<(Seq<char>, KwargModel)>::empty(),
        flags: Seq::<Seq<char>>::empty(),
        layout: None,
    })
}

/// The built-in spec of `csharp_set_xaml_cs_properties`.
fn builtin_csharp_set_xaml_cs_properties() -> (r: (String, CommandSpec))
    ensures
        r.0@ == "csharp_set_xaml_cs_properties"@,
        spec_model(r.1) == builtin_csharp_set_xaml_cs_properties_model(),
        spec_wf(r.1),
{
    let mut f_kwargs = new_kwargs();
    let mut f_flags = new_flags();
    let f = CommandForm { pargs: NArgs::ZeroOrMore, kwargs: f_kwargs, flags: f_flags, layout: None };
    (owned("csharp_set_xaml_cs_properties"), CommandSpec::Single(f))
}

/// The built-in spec of `csharp_get_filename_keys`, as values.
pub open spec fn builtin_csharp_get_filename_keys_model() -> SpecModel {
    SpecModel::Single(FormModel {
        pargs: NArgs::ZeroOrMore,
        kwargs: Seq::<(Seq<char>, KwargModel)>::empty(),
        flags: Seq::<Seq<char>>::empty(),
        layout: None,
    })
}

/// The built-in spec of `csharp_get_filename_keys`.
fn builtin_csharp_get_filename_keys() -> (r: (String, CommandSpec))
    ensures
        r.0@ == "csharp_get_filename_keys"@,
        spec_model(r.1) == builtin_csharp_get_filename_keys_model(),
        spec_wf(r.1),
{
    let mut f_kwargs = new_kwargs();
    let mut f_flags = new_flags();
    let f = CommandForm { pargs: NArgs::ZeroOrMore, kwargs: f_kwargs, flags: f_flags, layout: None };
    (owned("csharp_get_filename_keys"), CommandSpec::Single(f))
}

/// The built-in spec of `csharp_get_filename_key_base`, as values.
pub open spec fn builtin_csharp_get_filename_key_base_model() -> SpecModel {
    SpecModel::Single(FormModel {
        pargs: NArgs::ZeroOrMore,
        kwargs: Seq::<(Seq<char>, KwargModel)>::empty(),
        flags: Seq::<Seq<char>>::empty(),
        layout: None,
    })
}

/// The built-in spec of `csharp_get_filename_key_base`.
fn builtin_csharp_get_filename_key_base() -> (r: (String, CommandSpec))
    ensures
        r.0@ == "csharp_get_filename_key_base"@,
        spec_model(r.1) == builtin_csharp_get_filename_key_base_model(),
        spec_wf(r.1),
{
    let mut f_kwargs = new_kwargs();
    let mut f_flags = new_flags();
    let f = CommandForm { pargs: NArgs::ZeroOrMore, kwargs: f_kwargs, flags: f_flags, layout: None };
    (owned("csharp_get_filename_key_base"), CommandSpec::Single(f))
}

/// The built-in spec of `csharp_get_dependentupon_name`, as values.
pub open spec fn builtin_csharp_get_dependentupon_name_model() -> SpecModel {
    SpecModel::Single(FormModel {
        pargs: NArgs::ZeroOrMore,
        kwargs: Seq::<(Seq<char>, KwargModel)>::empty(),
        flags: Seq::<Seq<char>>::empty(),
        layout: None,
    })
}

/// The built-in spec of `csharp_get_dependentupon_name`.
fn builtin_csharp_get_dependentupon_name() -> (r: (String, CommandSpec))
    ensures
        r.0@ == "csharp_get_dependentupon_name"@,
        spec_model(r.1) == builtin_csharp_get_dependentupon_name_model(),
        spec_wf(r.1),
{
    let mut f_kwargs = new_kwargs();
    let mut f_flags = new_flags();
    let f = CommandForm { pargs: NArgs::ZeroOrMore, kwargs: f_kwargs, flags: f_flags, layout: None };
    (owned("csharp_get_dependentupon_name"), CommandSpec::Single(f))
}

/// The built-in spec of `externaldata_expand_arguments`, as values.
pub open spec fn builtin_externaldata_expand_arguments_model() -> SpecModel {
    SpecModel::Single(FormModel {
        pargs: NArgs::ZeroOrMore,
        kwargs: Seq::<(Seq<char>, KwargModel)>::empty(),
        flags: Seq::<Seq<char>>::empty(),
        layout: None,
    })
}

/// The built-in spec of `externaldata_expand_arguments`.
fn builtin_externaldata_expand_arguments() -> (r: (String, CommandSpec))
    ensures
        r.0@ == "externaldata_expand_arguments"@,
        spec_model(r.1) == builtin_externaldata_expand_arguments_model(),
        spec_wf(r.1),
{
    let mut f_kwargs = new_kwargs();
    let mut f_flags = new_flags();
    let f = CommandForm { pargs: NArgs::ZeroOrMore, kwargs: f_kwargs, flags: f_flags, layout: None };
    (owned("externaldata_expand_arguments"), CommandSpec::Single(f))
}

/// The built-in spec of `externaldata_add_test`, as values.
pub open spec fn builtin_externaldata_add_test_model() -> SpecModel {
    SpecModel::Single(FormModel {
        pargs: NArgs::ZeroOrMore,
        kwargs: Seq::<(Seq<char>, KwargModel)>::empty(),
        flags: Seq::<Seq<char>>::empty(),
        layout: None,
    })
}

/// The built-in spec of `externaldata_add_test`.
fn builtin_externaldata_add_test() -> (r: (String, CommandSpec))
    ensures
        r.0@ == "externaldata_add_test"@,
        spec_model(r.1) == builtin_externaldata_add_test_model(),
        spec_wf(r.1),
{
    let mut f_kwargs = new_kwargs();
    let mut f_flags = new_flags();
    let f = CommandForm { pargs: NArgs::ZeroOrMore, kwargs: f_kwargs, flags: f_flags, layout: None };
    (owned("externaldata_add_test"), CommandSpec::Single(f))
}

/// The built-in spec of `externaldata_add_target`, as values.
pub open spec fn builtin_externaldata_add_target_model() -> SpecModel {
    SpecModel::Single(FormModel {
        pargs: NArgs::ZeroOrMore,
        kwargs: Seq::<(Seq<char>, KwargModel)>::empty(),
        flags: Seq::<Seq<char>>::empty(),
        layout: None,
    })
}

/// The built-in spec of `externaldata_add_target`.
fn builtin_externaldata_add_target() -> (r: (String, CommandSpec))
    ensures
        r.0@ == "externaldata_add_target"@,
        spec_model(r.1) == builtin_externaldata_add_target_model(),
        spec_wf(r.1),
{
    let mut f_kwargs = new_kwargs();
    let mut f_flags = new_flags();
    let f = CommandForm { pargs: NArgs::ZeroOrMore, kwargs: f_kwargs, flags: f_flags, layout: None };
    (owned("externaldata_add_target"), CommandSpec::Single(f))
}

/// The built-in spec of `fortrancinterface_header`, as values.
pub open spec fn builtin_fortrancinterface_header_model() -> SpecModel {
    SpecModel::Single(FormModel {
        pargs: NArgs::ZeroOrMore,
        kwargs: Seq::<(Seq<char>, KwargModel)>::empty(),
        flags: Seq::<Seq<char>>::empty(),
        layout: None,
    })
}

/// The built-in spec of `fortrancinterface_header`.
fn builtin_fortrancinterface_header() -> (r: (String, CommandSpec))
    ensures
        r.0@ == "fortrancinterface_header"@,
        spec_model(r.1) == builtin_fortrancinterface_header_model(),
        spec_wf(r.1),
{
    let mut f_kwargs = new_kwargs();
    let mut f_flags = new_flags();
    let f = CommandForm { pargs: NArgs::ZeroOrMore, kwargs: f_kwargs, flags: f_flags, layout: None };
    (owned("fortrancinterface_header"), CommandSpec::Single(f))
}

/// The built-in spec of `fortrancinterface_verify`, as values.
pub open spec fn builtin_fortrancinterface_verify_model() -> SpecModel {
    SpecModel::Single(FormModel {
        pargs: NArgs::ZeroOrMore,
        kwargs: Seq::<(Seq<char>, KwargModel)>::empty(),
        flags: Seq::<Seq<char>>::empty(),
        layout: None,
    })
}

/// The built-in spec of `fortrancinterface_verify`.
fn builtin_fortrancinterface_verify() -> (r: (String, CommandSpec))
    ensures
        r.0@ == "fortrancinterface_verify"@,
        spec_model(r.1) == builtin_fortrancinterface_verify_model(),
        spec_wf(r.1),
{
    let mut f_kwargs = new_kwargs();
    let mut f_flags = new_flags();
    let f = CommandForm { pargs: NArgs::ZeroOrMore, kwargs: f_kwargs, flags: f_flags, layout: None };
    (owned("fortrancinterface_verify"), CommandSpec::Single(f))
}

/// The built-in spec of `gnuinstalldirs_get_absolute_install_dir`, as values.
pub open spec fn builtin_gnuinstalldirs_get_absolute_install_dir_model() -> SpecModel {
    SpecModel::Single(FormModel {
        pargs: NArgs::AtLeast(3),
        kwargs: Seq::<(Seq<char>, KwargModel)>::empty(),
        flags: Seq::<Seq<char>>::empty(),
        layout: None,
    })
}

/// The built-in spec of `gnuinstalldirs_get_absolute_install_dir`.
fn builtin_gnuinstalldirs_get_absolute_install_dir() -> (r: (String, CommandSpec))
    ensures
        r.0@ == "gnuinstalldirs_get_absolute_install_dir"@,
        spec_model(r.1) == builtin_gnuinstalldirs_get_absolute_install_dir_model(),
        spec_wf(r.1),
{
    let mut f_kwargs = new_kwargs();
    let mut f_flags = new_flags();
    let f = CommandForm { pargs: NArgs::AtLeast(3), kwargs: f_kwargs, flags: f_flags, layout: None };
    (owned("gnuinstalldirs_get_absolute_install_dir"), CommandSpec::Single(f))
}

/// The built-in spec of `find_jar`, as values.
pub open spec fn builtin_find_jar_model() -> SpecModel {
    SpecModel::Single(FormModel {
        pargs: NArgs::ZeroOrMore,
        kwargs: Seq::<(Seq<char>, KwargModel)>::empty(),
        flags: Seq::<Seq<char>>::empty(),
        layout: None,
    })
}

/// The built-in spec of `find_jar`.
fn builtin_find_jar() -> (r: (String, CommandSpec))
    ensures
        r.0@ == "find_jar"@,
        spec_model(r.1) == builtin_find_jar_model(),
        spec_wf(r.1),
{
    let mut f_kwargs = new_kwargs();
    let mut f_flags = new_flags();
    let f = CommandForm { pargs: NArgs::ZeroOrMore, kwargs: f_kwargs, flags: f_flags, layout: None };
    (owned("find_jar"), CommandSpec::Single(f))
}

/// The built-in spec of `add_jar`, as values.
pub open spec fn builtin_add_jar_model() -> SpecModel {
    SpecModel::Single(FormModel {
        pargs: NArgs::AtLeast(2),
        kwargs: Seq::<(Seq<char>, KwargModel)>::empty()
            .push(("SOURCES"@, plain_kwarg(NArgs::OneOrMore)))
            .push(("INCLUDE_JARS"@, plain_kwarg(NArgs::OneOrMore)))
            .push(("ENTRY_POINT"@, plain_kwarg(NArgs::Fixed(1))))
            .push(("VERSION"@, plain_kwarg(NArgs::Fixed(1))))
            .push(("OUTPUT_NAME"@, plain_kwarg(NArgs::Fixed(1))))
            .push(("OUTPUT_DIR"@, plain_kwarg(NArgs::Fixed(1))))
            .push(("MANIFEST"@, plain_kwarg(NArgs::Fixed(1)))),
        flags: Seq::<Seq<char>>::empty().push("GENERATE_NATIVE_HEADERS"@),
        layout: None,
    })
}

/// The built-in spec of `add_jar`.
fn builtin_add_jar() -> (r: (String, CommandSpec))
    ensures
        r.0@ == "add_jar"@,
        spec_model(r.1) == builtin_add_jar_model(),
        spec_wf(r.1),
{
    let mut f_kwargs = new_kwargs();
    push_kwarg(&mut f_kwargs, "SOURCES", NArgs::OneOrMore);
    push_kwarg(&mut f_kwargs, "INCLUDE_JARS", NArgs::OneOrMore);
    push_kwarg(&mut f_kwargs, "ENTRY_POINT", NArgs::Fixed(1));
    push_kwarg(&mut f_kwargs, "VERSION", NArgs::Fixed(1));
    push_kwarg(&mut f_kwargs, "OUTPUT_NAME", NArgs::Fixed(1));
    push_kwarg(&mut f_kwargs, "OUTPUT_DIR", NArgs::Fixed(1));
    push_kwarg(&mut f_kwargs, "MANIFEST", NArgs::Fixed(1));
    let mut f_flags = new_flags();
    push_flag(&mut f_flags, "GENERATE_NATIVE_HEADERS");
    let f = CommandForm { pargs: NArgs::AtLeast(2), kwargs: f_kwargs, flags: f_flags, layout: None };
    (owned("add_jar"), CommandSpec::Single(f))
}

/// The built-in spec of `install_jar`, as values.
pub open spec fn builtin_install_jar_model() -> SpecModel {
    SpecModel::Single(FormModel {
        pargs: NArgs::ZeroOrMore,
        kwargs: Seq::<(Seq<char>, KwargModel)>::empty(),
        flags: Seq::<Seq<char>>::empty(),
        layout: None,
    })
}

/// The built-in spec of `install_jar`.
fn builtin_install_jar() -> (r: (String, CommandSpec))
    ensures
        r.0@ == "install_jar"@,
        spec_model(r.1) == builtin_install_jar_model(),
        spec_wf(r.1),
{
    let mut f_kwargs = new_kwargs();
    let mut f_flags = new_flags();
    let f = CommandForm { pargs: NArgs::ZeroOrMore, kwargs: f_kwargs, flags: f_flags, layout: None };
    (owned("install_jar"), CommandSpec::Single(f))
}

/// The built-in spec of `install_jar_exports`, as values.
pub open spec fn builtin_install_jar_exports_model() -> SpecModel {
    SpecModel::Single(FormModel {
        pargs: NArgs::ZeroOrMore,
        kwargs: Seq::<(Seq<char>, KwargModel)>::empty(),
        flags: Seq::<Seq<char>>::empty(),
        layout: None,
    })
}

/// The built-in spec of `install_jar_exports`.
fn builtin_install_jar_exports() -> (r: (String, CommandSpec))
    ensures
        r.0@ == "install_jar_exports"@,
        spec_model(r.1) == builtin_install_jar_exports_model(),
        spec_wf(r.1),
{
    let mut f_kwargs = new_kwargs();
    let mut f_flags = new_flags();
    let f = CommandForm { pargs: NArgs::ZeroOrMore, kwargs: f_kwargs, flags: f_flags, layout: None };
    (owned("install_jar_exports"), CommandSpec::Single(f))
}

/// The built-in spec of `export_jars`, as values.
pub open spec fn builtin_export_jars_model() -> SpecModel {
    SpecModel::Single(FormModel {
        pargs: NArgs::ZeroOrMore,
        kwargs: Seq::<(Seq<char>, KwargModel)>::empty(),
        flags: Seq::<Seq<char>>::empty(),
        layout: None,
    })
}

/// The built-in spec of `export_jars`.
fn builtin_export_jars() -> (r: (String, CommandSpec))
    ensures
        r.0@ == "export_jars"@,
        spec_model(r.1) == builtin_export_jars_model(),
        spec_wf(r.1),
{
    let mut f_kwargs = new_kwargs();
    let mut f_flags = new_flags();
    let f = CommandForm { pargs: NArgs::ZeroOrMore, kwargs: f_kwargs, flags: f_flags, layout: None };
    (owned("export_jars"), CommandSpec::Single(f))
}

/// The built-in spec of `create_javadoc`, as values.
pub open spec fn builtin_create_javadoc_model() -> SpecModel {
    SpecModel::Single(FormModel {
        pargs: NArgs::ZeroOrMore,
        kwargs: Seq::<(Seq<char>, KwargModel)>::empty(),
        flags: Seq::<Seq<char>>::empty(),
        layout: None,
    })
}

/// The built-in spec of `create_javadoc`.
fn builtin_create_javadoc() -> (r: (String, CommandSpec))
    ensures
        r.0@ == "create_javadoc"@,
        spec_model(r.1) == builtin_create_javadoc_model(),
        spec_wf(r.1),
{
    let mut f_kwargs = new_kwargs();
    let mut f_flags = new_flags();
    let f = CommandForm { pargs: NArgs::ZeroOrMore, kwargs: f_kwargs, flags: f_flags, layout: None };
    (owned("create_javadoc"), CommandSpec::Single(f))
}

/// The built-in spec of `create_javah`, as values.
pub open spec fn builtin_create_javah_model() -> SpecModel {
    SpecModel::Single(FormModel {
        pargs: NArgs::ZeroOrMore,
        kwargs: Seq::<(Seq<char>, KwargModel)>::empty(),
        flags: Seq::<Seq<char>>::empty(),
        layout: None,
    })
}

/// The built-in spec of `create_javah`.
fn builtin_create_javah() -> (r: (String, CommandSpec))
    ensures
        r.0@ == "create_javah"@,
        spec_model(r.1) == builtin_create_javah_model(),
        spec_wf(r.1),
{
    let mut f_kwargs = new_kwargs();
    let mut f_flags = new_flags();
    let f = CommandForm { pargs: NArgs::ZeroOrMore, kwargs: f_kwargs, flags: f_flags, layout: None };
    (owned("create_javah"), CommandSpec::Single(f))
}

/// The built-in spec of `install_jni_symlink`, as values.
pub open spec fn builtin_install_jni_symlink_model() -> SpecModel {
    SpecModel::Single(FormModel {
        pargs: NArgs::ZeroOrMore,
        kwargs: Seq::<(Seq<char>, KwargModel)>::empty(),
        flags: Seq::<Seq<char>>::empty(),
        layout: None,
    })
}

/// The built-in spec of `install_jni_symlink`.
fn builtin_install_jni_symlink() -> (r: (String, CommandSpec))
    ensures
        r.0@ == "install_jni_symlink"@,
        spec_model(r.1) == builtin_install_jni_symlink_model(),
        spec_wf(r.1),
{
    let mut f_kwargs = new_kwargs();
    let mut f_flags = new_flags();
    let f = CommandForm { pargs: NArgs::ZeroOrMore, kwargs: f_kwargs, flags: f_flags, layout: None };
    (owned("install_jni_symlink"), CommandSpec::Single(f))
}

/// The built-in spec of `swig_add_library`, as values.
pub open spec fn builtin_swig_add_library_model() -> SpecModel {
    SpecModel::Single(FormModel {
        pargs: NArgs::ZeroOrMore,
        kwargs: Seq::<(Seq<char>, KwargModel)>::empty(),
        flags: Seq::<Seq<char>>::empty(),
        layout: None,
    })
}

/// The built-in spec of `swig_add_library`.
fn builtin_swig_add_library() -> (r: (String, CommandSpec))
    ensures
        r.0@ == "swig_add_library"@,
        spec_model(r.1) == builtin_swig_add_library_model(),
        spec_wf(r.1),
{
    let mut f_kwargs = new_kwargs();
    let mut f_flags = new_flags();
    let f = CommandForm { pargs: NArgs::ZeroOrMore, kwargs: f_kwargs, flags: f_flags, layout: None };
    (owned("swig_add_library"), CommandSpec::Single(f))
}

/// The built-in spec of `swig_link_libraries`, as values.
pub open spec fn builtin_swig_link_libraries_model() -> SpecModel {
    SpecModel::Single(FormModel {
        pargs: NArgs::ZeroOrMore,
        kwargs: Seq::<(Seq<char>, KwargModel)>::empty(),
        flags: Seq::<Seq<char>>::empty(),
        layout: None,
    })
}

/// The built-in spec of `swig_link_libraries`.
fn builtin_swig_link_libraries() -> (r: (String, CommandSpec))
    ensures
        r.0@ == "swig_link_libraries"@,
        spec_model(r.1) == builtin_swig_link_libraries_model(),
        spec_wf(r.1),
{
    let mut f_kwargs = new_kwargs();
    let mut f_flags = new_flags();
    let f = CommandForm { pargs: NArgs::ZeroOrMore, kwargs: f_kwargs, flags: f_flags, layout: None };
    (owned("swig_link_libraries"), CommandSpec::Single(f))
}

/// The built-in spec of `print_enabled_features`, as values.
pub open spec fn builtin_print_enabled_features_model() -> SpecModel {
    SpecModel::Single(FormModel {
        pargs: NArgs::ZeroOrMore,
        kwargs: Seq::<(Seq<char>, KwargModel)>::empty(),
        flags: Seq::<Seq<char>>::empty(),
        layout: None,
    })
}

/// The built-in spec of `print_enabled_features`.
fn builtin_print_enabled_features() -> (r: (String, CommandSpec))
    ensures
        r.0@ == "print_enabled_features"@,
        spec_model(r.1) == builtin_print_enabled_features_model(),
        spec_wf(r.1),
{
    let mut f_kwargs = new_kwargs();
    let mut f_flags = new_flags();
    let f = CommandForm { pargs: NArgs::ZeroOrMore, kwargs: f_kwargs, flags: f_flags, layout: None };
    (owned("print_enabled_features"), CommandSpec::Single(f))
}

/// The built-in spec of `print_disabled_features`, as values.
pub open spec fn builtin_print_disabled_features_model() -> SpecModel {
    SpecModel::Single(FormModel {
        pargs: NArgs::ZeroOrMore,
        kwargs: Seq::<(Seq<char>, KwargModel)>::empty(),
        flags: Seq::<Seq<char>>::empty(),
        layout: None,
    })
}

/// The built-in spec of `print_disabled_features`.
fn builtin_print_disabled_features() -> (r: (String, CommandSpec))
    ensures
        r.0@ == "print_disabled_features"@,
        spec_model(r.1) == builtin_print_disabled_features_model(),
        spec_wf(r.1),
{
    let mut f_kwargs = new_kwargs();
    let mut f_flags = new_flags();
    let f = CommandForm { pargs: NArgs::ZeroOrMore, kwargs: f_kwargs, flags: f_flags, layout: None };
    (owned("print_disabled_features"), CommandSpec::Single(f))
}

/// The built-in spec of `set_feature_info`, as values.
pub open spec fn builtin_set_feature_info_model() -> SpecModel {
    SpecModel::Single(FormModel {
        pargs: NArgs::ZeroOrMore,
        kwargs: Seq::<(Seq<char>, KwargModel)>::empty(),
        flags: Seq::<Seq<char>>::empty(),
        layout: None,
    })
}

/// The built-in spec of `set_feature_info`.
fn builtin_set_feature_info() -> (r: (String, CommandSpec))
    ensures
        r.0@ == "set_feature_info"@,
        spec_model(r.1) == builtin_set_feature_info_model(),
        spec_wf(r.1),
{
    let mut f_kwargs = new_kwargs();
    let mut f_flags = new_flags();
    let f = CommandForm { pargs: NArgs::ZeroOrMore, kwargs: f_kwargs, flags: f_flags, layout: None };
    (owned("set_feature_info"), CommandSpec::Single(f))
}

/// The built-in spec of `set_package_info`, as values.
pub open spec fn builtin_set_package_info_model() -> SpecModel {
    SpecModel::Single(FormModel {
        pargs: NArgs::ZeroOrMore,
        kwargs: Seq::<(Seq<char>, KwargModel)>::empty(),
        flags: Seq::<Seq<char>>::empty(),
        layout: None,
    })
}

/// The built-in spec of `set_package_info`.
fn builtin_set_package_info() -> (r: (String, CommandSpec))
    ensures
        r.0@ == "set_package_info"@,
        spec_model(r.1) == builtin_set_package_info_model(),
        spec_wf(r.1),
{
    let mut f_kwargs = new_kwargs();
    let mut f_flags = new_flags();
    let f = CommandForm { pargs: NArgs::ZeroOrMore, kwargs: f_kwargs, flags: f_flags, layout: None };
    (owned("set_package_info"), CommandSpec::Single(f))
}

/// The built-in command table, in order, as values.
pub open spec fn builtin_table() -> Seq<(Seq<char>, SpecModel)> {
    Seq::<(Seq<char>, SpecModel)>::empty()
        .push(("cmake_minimum_required"@, builtin_cmake_minimum_required_model()))
        .push(("cmake_policy"@, builtin_cmake_policy_model()))
        .push(("project"@, builtin_project_model()))
        .push(("add_library"@, builtin_add_library_model()))
        .push(("add_executable"@, builtin_add_executable_model()))
        .push(("add_subdirectory"@, builtin_add_subdirectory_model()))
        .push(("target_link_libraries"@, builtin_target_link_libraries_model()))
        .push(("target_include_directories"@, builtin_target_include_directories_model()))
        .push(("target_compile_definitions"@, builtin_target_compile_definitions_model()))
        .push(("target_compile_options"@, builtin_target_compile_options_model()))
        .push(("target_compile_features"@, builtin_target_compile_features_model()))
        .push(("target_link_options"@, builtin_target_link_options_model()))
        .push(("target_link_directories"@, builtin_target_link_directories_model()))
        .push(("target_precompile_headers"@, builtin_target_precompile_headers_model()))
        .push(("target_sources"@, builtin_target_sources_model()))
        .push(("find_package"@, builtin_find_package_model()))
        .push(("find_library"@, builtin_find_library_model()))
        .push(("find_path"@, builtin_find_path_model()))
        .push(("find_program"@, builtin_find_program_model()))
        .push(("set"@, builtin_set_model()))
        .push(("unset"@, builtin_unset_model()))
        .push(("option"@, builtin_option_model()))
        .push(("message"@, builtin_message_model()))
        .push(("include"@, builtin_include_model()))
        .push(("include_directories"@, builtin_include_directories_model()))
        .push(("add_definitions"@, builtin_add_definitions_model()))
        .push(("add_compile_options"@, builtin_add_compile_options_model()))
        .push(("add_dependencies"@, builtin_add_dependencies_model()))
        .push(("set_target_properties"@, builtin_set_target_properties_model()))
        .push(("set_property"@, builtin_set_property_model()))
        .push(("get_target_property"@, builtin_get_target_property_model()))
        .push(("add_custom_command"@, builtin_add_custom_command_model()))
        .push(("add_custom_target"@, builtin_add_custom_target_model()))
        .push(("add_test"@, builtin_add_test_model()))
        .push(("configure_file"@, builtin_configure_file_model()))
        .push(("foreach"@, builtin_foreach_model()))
        .push(("function"@, builtin_function_model()))
        .push(("macro"@, builtin_macro_model()))
        .push(("if"@, builtin_if_model()))
        .push(("elseif"@, builtin_elseif_model()))
        .push(("else"@, builtin_else_model()))
        .push(("endif"@, builtin_endif_model()))
        .push(("while"@, builtin_while_model()))
        .push(("endwhile"@, builtin_endwhile_model()))
        .push(("endforeach"@, builtin_endforeach_model()))
        .push(("endfunction"@, builtin_endfunction_model()))
        .push(("endmacro"@, builtin_endmacro_model()))
        .push(("block"@, builtin_block_model()))
        .push(("endblock"@, builtin_endblock_model()))
        .push(("return"@, builtin_return_model()))
        .push(("install"@, builtin_install_model()))
        .push(("export"@, builtin_export_model()))
        .push(("cmake_language"@, builtin_cmake_language_model()))
        .push(("cmake_pkg_config"@, builtin_cmake_pkg_config_model()))
        .push(("file"@, builtin_file_model()))
        .push(("string"@, builtin_string_model()))
        .push(("configure_package_config_file"@, builtin_configure_package_config_file_model()))
        .push(("write_basic_package_version_file"@, builtin_write_basic_package_version_file_model()))
        .push(("write_basic_config_version_file"@, builtin_write_basic_config_version_file_model()))
        .push(("cmake_dependent_option"@, builtin_cmake_dependent_option_model()))
        .push(("check_language"@, builtin_check_language_model()))
        .push(("check_include_file"@, builtin_check_include_file_model()))
        .push(("check_include_file_cxx"@, builtin_check_include_file_cxx_model()))
        .push(("check_include_files"@, builtin_check_include_files_model()))
        .push(("check_compiler_flag"@, builtin_check_compiler_flag_model()))
        .push(("check_c_compiler_flag"@, builtin_check_c_compiler_flag_model()))
        .push(("check_cxx_compiler_flag"@, builtin_check_cxx_compiler_flag_model()))
        .push(("check_objc_compiler_flag"@, builtin_check_objc_compiler_flag_model()))
        .push(("check_objcxx_compiler_flag"@, builtin_check_objcxx_compiler_flag_model()))
        .push(("check_fortran_compiler_flag"@, builtin_check_fortran_compiler_flag_model()))
        .push(("check_cuda_compiler_flag"@, builtin_check_cuda_compiler_flag_model()))
        .push(("check_hip_compiler_flag"@, builtin_check_hip_compiler_flag_model()))
        .push(("check_cxx_accepts_flag"@, builtin_check_cxx_accepts_flag_model()))
        .push(("check_symbol_exists"@, builtin_check_symbol_exists_model()))
        .push(("check_cxx_symbol_exists"@, builtin_check_cxx_symbol_exists_model()))
        .push(("cmake_push_check_state"@, builtin_cmake_push_check_state_model()))
        .push(("cmake_pop_check_state"@, builtin_cmake_pop_check_state_model()))
        .push(("cmake_reset_check_state"@, builtin_cmake_reset_check_state_model()))
        .push(("cmake_print_properties"@, builtin_cmake_print_properties_model()))
        .push(("cmake_print_variables"@, builtin_cmake_print_variables_model()))
        .push(("check_pie_supported"@, builtin_check_pie_supported_model()))
        .push(("check_source_compiles"@, builtin_check_source_compiles_model()))
        .push(("check_source_runs"@, builtin_check_source_runs_model()))
        .push(("find_dependency"@, builtin_find_dependency_model()))
        .push(("fetchcontent_declare"@, builtin_fetchcontent_declare_model()))
        .push(("fetchcontent_makeavailable"@, builtin_fetchcontent_makeavailable_model()))
        .push(("fetchcontent_getproperties"@, builtin_fetchcontent_getproperties_model()))
        .push(("fetchcontent_populate"@, builtin_fetchcontent_populate_model()))
        .push(("fetchcontent_setpopulated"@, builtin_fetchcontent_setpopulated_model()))
        .push(("gtest_add_tests"@, builtin_gtest_add_tests_model()))
        .push(("gtest_discover_tests"@, builtin_gtest_discover_tests_model()))
        .push(("processorcount"@, builtin_processorcount_model()))
        .push(("find_package_handle_standard_args"@, builtin_find_package_handle_standard_args_model()))
        .push(("find_package_check_version"@, builtin_find_package_check_version_model()))
        .push(("find_package_message"@, builtin_find_package_message_model()))
        .push(("select_library_configurations"@, builtin_select_library_configurations_model()))
        .push(("externalproject_add"@, builtin_externalproject_add_model()))
        .push(("external_project_add"@, builtin_external_project_add_model()))
        .push(("externalproject_add_step"@, builtin_externalproject_add_step_model()))
        .push(("externalproject_add_steptargets"@, builtin_externalproject_add_steptargets_model()))
        .push(("externalproject_add_stepdependencies"@, builtin_externalproject_add_stepdependencies_model()))
        .push(("externalproject_get_property"@, builtin_externalproject_get_property_model()))
        .push(("cpack_add_component"@, builtin_cpack_add_component_model()))
        .push(("cpack_add_component_group"@, builtin_cpack_add_component_group_model()))
        .push(("cpack_add_install_type"@, builtin_cpack_add_install_type_model()))
        .push(("cpack_configure_downloads"@, builtin_cpack_configure_downloads_model()))
        .push(("generate_export_header"@, builtin_generate_export_header_model()))
        .push(("add_compiler_export_flags"@, builtin_add_compiler_export_flags_model()))
        .push(("android_add_test_data"@, builtin_android_add_test_data_model()))
        .push(("add_file_dependencies"@, builtin_add_file_dependencies_model()))
        .push(("cmake_add_fortran_subdirectory"@, builtin_cmake_add_fortran_subdirectory_model()))
        .push(("cmake_expand_imported_targets"@, builtin_cmake_expand_imported_targets_model()))
        .push(("cmake_force_c_compiler"@, builtin_cmake_force_c_compiler_model()))
        .push(("cmake_force_cxx_compiler"@, builtin_cmake_force_cxx_compiler_model()))
        .push(("cmake_force_fortran_compiler"@, builtin_cmake_force_fortran_compiler_model()))
        .push(("ctest_coverage_collect_gcov"@, builtin_ctest_coverage_collect_gcov_model()))
        .push(("copy_and_fixup_bundle"@, builtin_copy_and_fixup_bundle_model()))
        .push(("fixup_bundle"@, builtin_fixup_bundle_model()))
        .push(("fixup_bundle_item"@, builtin_fixup_bundle_item_model()))
        .push(("verify_app"@, builtin_verify_app_model()))
        .push(("verify_bundle_prerequisites"@, builtin_verify_bundle_prerequisites_model()))
        .push(("verify_bundle_symlinks"@, builtin_verify_bundle_symlinks_model()))
        .push(("get_bundle_main_executable"@, builtin_get_bundle_main_executable_model()))
        .push(("get_dotapp_dir"@, builtin_get_dotapp_dir_model()))
        .push(("get_bundle_and_executable"@, builtin_get_bundle_and_executable_model()))
        .push(("get_bundle_all_executables"@, builtin_get_bundle_all_executables_model()))
        .push(("get_bundle_keys"@, builtin_get_bundle_keys_model()))
        .push(("get_item_key"@, builtin_get_item_key_model()))
        .push(("get_item_rpaths"@, builtin_get_item_rpaths_model()))
        .push(("clear_bundle_keys"@, builtin_clear_bundle_keys_model()))
        .push(("set_bundle_key_values"@, builtin_set_bundle_key_values_model()))
        .push(("copy_resolved_framework_into_bundle"@, builtin_copy_resolved_framework_into_bundle_model()))
        .push(("copy_resolved_item_into_bundle"@, builtin_copy_resolved_item_into_bundle_model()))
        .push(("cpack_ifw_add_package_resources"@, builtin_cpack_ifw_add_package_resources_model()))
        .push(("cpack_ifw_add_repository"@, builtin_cpack_ifw_add_repository_model()))
        .push(("cpack_ifw_configure_component"@, builtin_cpack_ifw_configure_component_model()))
        .push(("cpack_ifw_configure_component_group"@, builtin_cpack_ifw_configure_component_group_model()))
        .push(("cpack_ifw_update_repository"@, builtin_cpack_ifw_update_repository_model()))
        .push(("cpack_ifw_configure_file"@, builtin_cpack_ifw_configure_file_model()))
        .push(("csharp_set_windows_forms_properties"@, builtin_csharp_set_windows_forms_properties_model()))
        .push(("csharp_set_designer_cs_properties"@, builtin_csharp_set_designer_cs_properties_model()))
        .push(("csharp_set_xaml_cs_properties"@, builtin_csharp_set_xaml_cs_properties_model()))
        .push(("csharp_get_filename_keys"@, builtin_csharp_get_filename_keys_model()))
        .push(("csharp_get_filename_key_base"@, builtin_csharp_get_filename_key_base_model()))
        .push(("csharp_get_dependentupon_name"@, builtin_csharp_get_dependentupon_name_model()))
        .push(("externaldata_expand_arguments"@, builtin_externaldata_expand_arguments_model()))
        .push(("externaldata_add_test"@, builtin_externaldata_add_test_model()))
        .push(("externaldata_add_target"@, builtin_externaldata_add_target_model()))
        .push(("fortrancinterface_header"@, builtin_fortrancinterface_header_model()))
        .push(("fortrancinterface_verify"@, builtin_fortrancinterface_verify_model()))
        .push(("gnuinstalldirs_get_absolute_install_dir"@, builtin_gnuinstalldirs_get_absolute_install_dir_model()))
        .push(("find_jar"@, builtin_find_jar_model()))
        .push(("add_jar"@, builtin_add_jar_model()))
        .push(("install_jar"@, builtin_install_jar_model()))
        .push(("install_jar_exports"@, builtin_install_jar_exports_model()))
        .push(("export_jars"@, builtin_export_jars_model()))
        .push(("create_javadoc"@, builtin_create_javadoc_model()))
        .push(("create_javah"@, builtin_create_javah_model()))
        .push(("install_jni_symlink"@, builtin_install_jni_symlink_model()))
        .push(("swig_add_library"@, builtin_swig_add_library_model()))
        .push(("swig_link_libraries"@, builtin_swig_link_libraries_model()))
        .push(("print_enabled_features"@, builtin_print_enabled_features_model()))
        .push(("print_disabled_features"@, builtin_print_disabled_features_model()))
        .push(("set_feature_info"@, builtin_set_feature_info_model()))
        .push(("set_package_info"@, builtin_set_package_info_model()))
}

/// The built-in command specs, in order.
pub(crate) fn builtin_commands() -> (r: Vec<(String, CommandSpec)>)
    ensures
        commands_model(r@) == builtin_table(),
        forall|i: int| 0 <= i < r@.len() ==> spec_wf(#[trigger] r@[i].1),
{
    let mut v: Vec<(String, CommandSpec)> = Vec::new();
    assert(commands_model(v@) =~= Seq::<(Seq<char>, SpecModel)>::empty());
    push_command(&mut v, builtin_cmake_minimum_required());
    push_command(&mut v, builtin_cmake_policy());
    push_command(&mut v, builtin_project());
    push_command(&mut v, builtin_add_library());
    push_command(&mut v, builtin_add_executable());
    push_command(&mut v, builtin_add_subdirectory());
    push_command(&mut v, builtin_target_link_libraries());
    push_command(&mut v, builtin_target_include_directories());
    push_command(&mut v, builtin_target_compile_definitions());
    push_command(&mut v, builtin_target_compile_options());
    push_command(&mut v, builtin_target_compile_features());
    push_command(&mut v, builtin_target_link_options());
    push_command(&mut v, builtin_target_link_directories());
    push_command(&mut v, builtin_target_precompile_headers());
    push_command(&mut v, builtin_target_sources());
    push_command(&mut v, builtin_find_package());
    push_command(&mut v, builtin_find_library());
    push_command(&mut v, builtin_find_path());
    push_command(&mut v, builtin_find_program());
    push_command(&mut v, builtin_set());
    push_command(&mut v, builtin_unset());
    push_command(&mut v, builtin_option());
    push_command(&mut v, builtin_message());
    push_command(&mut v, builtin_include());
    push_command(&mut v, builtin_include_directories());
    push_command(&mut v, builtin_add_definitions());
    push_command(&mut v, builtin_add_compile_options());
    push_command(&mut v, builtin_add_dependencies());
    push_command(&mut v, builtin_set_target_properties());
    push_command(&mut v, builtin_set_property());
    push_command(&mut v, builtin_get_target_property());
    push_command(&mut v, builtin_add_custom_command());
    push_command(&mut v, builtin_add_custom_target());
    push_command(&mut v, builtin_add_test());
    push_command(&mut v, builtin_configure_file());
    push_command(&mut v, builtin_foreach());
    push_command(&mut v, builtin_function());
    push_command(&mut v, builtin_macro());
    push_command(&mut v, builtin_if());
    push_command(&mut v, builtin_elseif());
    push_command(&mut v, builtin_else());
    push_command(&mut v, builtin_endif());
    push_command(&mut v, builtin_while());
    push_command(&mut v, builtin_endwhile());
    push_command(&mut v, builtin_endforeach());
    push_command(&mut v, builtin_endfunction());
    push_command(&mut v, builtin_endmacro());
    push_command(&mut v, builtin_block());
    push_command(&mut v, builtin_endblock());
    push_command(&mut v, builtin_return());
    push_command(&mut v, builtin_install());
    push_command(&mut v, builtin_export());
    push_command(&mut v, builtin_cmake_language());
    push_command(&mut v, builtin_cmake_pkg_config());
    push_command(&mut v, builtin_file());
    push_command(&mut v, builtin_string());
    push_command(&mut v, builtin_configure_package_config_file());
    push_command(&mut v, builtin_write_basic_package_version_file());
    push_command(&mut v, builtin_write_basic_config_version_file());
    push_command(&mut v, builtin_cmake_dependent_option());
    push_command(&mut v, builtin_check_language());
    push_command(&mut v, builtin_check_include_file());
    push_command(&mut v, builtin_check_include_file_cxx());
    push_command(&mut v, builtin_check_include_files());
    push_command(&mut v, builtin_check_compiler_flag());
    push_command(&mut v, builtin_check_c_compiler_flag());
    push_command(&mut v, builtin_check_cxx_compiler_flag());
    push_command(&mut v, builtin_check_objc_compiler_flag());
    push_command(&mut v, builtin_check_objcxx_compiler_flag());
    push_command(&mut v, builtin_check_fortran_compiler_flag());
    push_command(&mut v, builtin_check_cuda_compiler_flag());
    push_command(&mut v, builtin_check_hip_compiler_flag());
    push_command(&mut v, builtin_check_cxx_accepts_flag());
    push_command(&mut v, builtin_check_symbol_exists());
    push_command(&mut v, builtin_check_cxx_symbol_exists());
    push_command(&mut v, builtin_cmake_push_check_state());
    push_command(&mut v, builtin_cmake_pop_check_state());
    push_command(&mut v, builtin_cmake_reset_check_state());
    push_command(&mut v, builtin_cmake_print_properties());
    push_command(&mut v, builtin_cmake_print_variables());
    push_command(&mut v, builtin_check_pie_supported());
    push_command(&mut v, builtin_check_source_compiles());
    push_command(&mut v, builtin_check_source_runs());
    push_command(&mut v, builtin_find_dependency());
    push_command(&mut v, builtin_fetchcontent_declare());
    push_command(&mut v, builtin_fetchcontent_makeavailable());
    push_command(&mut v, builtin_fetchcontent_getproperties());
    push_command(&mut v, builtin_fetchcontent_populate());
    push_command(&mut v, builtin_fetchcontent_setpopulated());
    push_command(&mut v, builtin_gtest_add_tests());
    push_command(&mut v, builtin_gtest_discover_tests());
    push_command(&mut v, builtin_processorcount());
    push_command(&mut v, builtin_find_package_handle_standard_args());
    push_command(&mut v, builtin_find_package_check_version());
    push_command(&mut v, builtin_find_package_message());
    push_command(&mut v, builtin_select_library_configurations());
    push_command(&mut v, builtin_externalproject_add());
    push_command(&mut v, builtin_external_project_add());
    push_command(&mut v, builtin_externalproject_add_step());
    push_command(&mut v, builtin_externalproject_add_steptargets());
    push_command(&mut v, builtin_externalproject_add_stepdependencies());
    push_command(&mut v, builtin_externalproject_get_property());
    push_command(&mut v, builtin_cpack_add_component());
    push_command(&mut v, builtin_cpack_add_component_group());
    push_command(&mut v, builtin_cpack_add_install_type());
    push_command(&mut v, builtin_cpack_configure_downloads());
    push_command(&mut v, builtin_generate_export_header());
    push_command(&mut v, builtin_add_compiler_export_flags());
    push_command(&mut v, builtin_android_add_test_data());
    push_command(&mut v, builtin_add_file_dependencies());
    push_command(&mut v, builtin_cmake_add_fortran_subdirectory());
    push_command(&mut v, builtin_cmake_expand_imported_targets());
    push_command(&mut v, builtin_cmake_force_c_compiler());
    push_command(&mut v, builtin_cmake_force_cxx_compiler());
    push_command(&mut v, builtin_cmake_force_fortran_compiler());
    push_command(&mut v, builtin_ctest_coverage_collect_gcov());
    push_command(&mut v, builtin_copy_and_fixup_bundle());
    push_command(&mut v, builtin_fixup_bundle());
    push_command(&mut v, builtin_fixup_bundle_item());
    push_command(&mut v, builtin_verify_app());
    push_command(&mut v, builtin_verify_bundle_prerequisites());
    push_command(&mut v, builtin_verify_bundle_symlinks());
    push_command(&mut v, builtin_get_bundle_main_executable());
    push_command(&mut v, builtin_get_dotapp_dir());
    push_command(&mut v, builtin_get_bundle_and_executable());
    push_command(&mut v, builtin_get_bundle_all_executables());
    push_command(&mut v, builtin_get_bundle_keys());
    push_command(&mut v, builtin_get_item_key());
    push_command(&mut v, builtin_get_item_rpaths());
    push_command(&mut v, builtin_clear_bundle_keys());
    push_command(&mut v, builtin_set_bundle_key_values());
    push_command(&mut v, builtin_copy_resolved_framework_into_bundle());
    push_command(&mut v, builtin_copy_resolved_item_into_bundle());
    push_command(&mut v, builtin_cpack_ifw_add_package_resources());
    push_command(&mut v, builtin_cpack_ifw_add_repository());
    push_command(&mut v, builtin_cpack_ifw_configure_component());
    push_command(&mut v, builtin_cpack_ifw_configure_component_group());
    push_command(&mut v, builtin_cpack_ifw_update_repository());
    push_command(&mut v, builtin_cpack_ifw_configure_file());
    push_command(&mut v, builtin_csharp_set_windows_forms_properties());
    push_command(&mut v, builtin_csharp_set_designer_cs_properties());
    push_command(&mut v, builtin_csharp_set_xaml_cs_properties());
    push_command(&mut v, builtin_csharp_get_filename_keys());
    push_command(&mut v, builtin_csharp_get_filename_key_base());
    push_command(&mut v, builtin_csharp_get_dependentupon_name());
    push_command(&mut v, builtin_externaldata_expand_arguments());
    push_command(&mut v, builtin_externaldata_add_test());
    push_command(&mut v, builtin_externaldata_add_target());
    push_command(&mut v, builtin_fortrancinterface_header());
    push_command(&mut v, builtin_fortrancinterface_verify());
    push_command(&mut v, builtin_gnuinstalldirs_get_absolute_install_dir());
    push_command(&mut v, builtin_find_jar());
    push_command(&mut v, builtin_add_jar());
    push_command(&mut v, builtin_install_jar());
    push_command(&mut v, builtin_install_jar_exports());
    push_command(&mut v, builtin_export_jars());
    push_command(&mut v, builtin_create_javadoc());
    push_command(&mut v, builtin_create_javah());
    push_command(&mut v, builtin_install_jni_symlink());
    push_command(&mut v, builtin_swig_add_library());
    push_command(&mut v, builtin_swig_link_libraries());
    push_command(&mut v, builtin_print_enabled_features());
    push_command(&mut v, builtin_print_disabled_features());
    push_command(&mut v, builtin_set_feature_info());
    push_command(&mut v, builtin_set_package_info());
    v
}

} // verus!
