//! One function per kind of build instruction. Each formats its lines in full
//! and then hands them to the sink in a single write, so no other write comes
//! between the lines of one call. Should that write to standard output fail,
//! part of the text may have reached it already.
use vstd::prelude::*;
use vstd::string::StringExecFns;

use crate::cargo_build_out::{CargoBuildOut, WriteError};
use crate::format::{
    all_single_line, instruction_lines, push_lines, push_quoted_list, push_text_lines,
    quoted_list, single_line, text_lines, texts,
};

verus! {

/// Asks for the build script to run again when one of `file_paths` changes.
///
/// Writes `cargo::rerun-if-changed=<path>` on a line of its own
/// for each of `file_paths`, in order.
pub fn rerun_if_changed(out: &mut CargoBuildOut, file_paths: &[&str]) -> (r: Result<(), WriteError>)
    requires
        all_single_line(texts(file_paths@)),
    ensures
        old(out)@.wrote(final(out)@, r, instruction_lines("cargo::rerun-if-changed="@, texts(file_paths@))),
{
    let mut text = String::new();
    push_lines(&mut text, "cargo::rerun-if-changed=", file_paths);
    out.write_str(text.as_str())
}

/// Asks for the build script to run again when one of the environment
/// variables `env_vars` changes.
///
/// Writes `cargo::rerun-if-env-changed=<name>` on a line of its own
/// for each of `env_vars`, in order.
pub fn rerun_if_env_changed(out: &mut CargoBuildOut, env_vars: &[&str]) -> (r: Result<(), WriteError>)
    requires
        all_single_line(texts(env_vars@)),
    ensures
        old(out)@.wrote(final(out)@, r, instruction_lines("cargo::rerun-if-env-changed="@, texts(env_vars@))),
{
    let mut text = String::new();
    push_lines(&mut text, "cargo::rerun-if-env-changed=", env_vars);
    out.write_str(text.as_str())
}

/// Passes each of `linker_flags` to the linker for every target.
///
/// Writes `cargo::rustc-link-arg=<flag>` on a line of its own
/// for each of `linker_flags`, in order.
pub fn rustc_link_arg(out: &mut CargoBuildOut, linker_flags: &[&str]) -> (r: Result<(), WriteError>)
    requires
        all_single_line(texts(linker_flags@)),
    ensures
        old(out)@.wrote(final(out)@, r, instruction_lines("cargo::rustc-link-arg="@, texts(linker_flags@))),
{
    let mut text = String::new();
    push_lines(&mut text, "cargo::rustc-link-arg=", linker_flags);
    out.write_str(text.as_str())
}

/// Passes each of `linker_flags` to the linker for a cdylib target.
///
/// Writes `cargo::rustc-link-arg-cdylib=<flag>` on a line of its own
/// for each of `linker_flags`, in order.
pub fn rustc_link_arg_cdylib(out: &mut CargoBuildOut, linker_flags: &[&str]) -> (r: Result<(), WriteError>)
    requires
        all_single_line(texts(linker_flags@)),
    ensures
        old(out)@.wrote(final(out)@, r, instruction_lines("cargo::rustc-link-arg-cdylib="@, texts(linker_flags@))),
{
    let mut text = String::new();
    push_lines(&mut text, "cargo::rustc-link-arg-cdylib=", linker_flags);
    out.write_str(text.as_str())
}

/// Passes each of `linker_flags` to the linker when it links the binary `bin`.
///
/// Writes `cargo::rustc-link-arg-bin=<bin>=<flag>` on a line of its own for each
/// flag, in order.
pub fn rustc_link_arg_bin(out: &mut CargoBuildOut, bin: &str, linker_flags: &[&str]) -> (r: Result<(), WriteError>)
    requires
        single_line(bin@),
        all_single_line(texts(linker_flags@)),
    ensures
        old(out)@.wrote(
            final(out)@,
            r,
            instruction_lines("cargo::rustc-link-arg-bin="@ + bin@ + "="@, texts(linker_flags@)),
        ),
{
    let mut prefix = String::new();
    prefix.append("cargo::rustc-link-arg-bin=");
    prefix.append(bin);
    prefix.append("=");
    let mut text = String::new();
    push_lines(&mut text, prefix.as_str(), linker_flags);
    out.write_str(text.as_str())
}

/// Passes each of `linker_flags` to the linker for every binary target.
///
/// Writes `cargo::rustc-link-arg-bins=<flag>` on a line of its own
/// for each of `linker_flags`, in order.
pub fn rustc_link_arg_bins(out: &mut CargoBuildOut, linker_flags: &[&str]) -> (r: Result<(), WriteError>)
    requires
        all_single_line(texts(linker_flags@)),
    ensures
        old(out)@.wrote(final(out)@, r, instruction_lines("cargo::rustc-link-arg-bins="@, texts(linker_flags@))),
{
    let mut text = String::new();
    push_lines(&mut text, "cargo::rustc-link-arg-bins=", linker_flags);
    out.write_str(text.as_str())
}

/// Passes each of `linker_flags` to the linker for every test target.
///
/// Writes `cargo::rustc-link-arg-tests=<flag>` on a line of its own
/// for each of `linker_flags`, in order.
pub fn rustc_link_arg_tests(out: &mut CargoBuildOut, linker_flags: &[&str]) -> (r: Result<(), WriteError>)
    requires
        all_single_line(texts(linker_flags@)),
    ensures
        old(out)@.wrote(final(out)@, r, instruction_lines("cargo::rustc-link-arg-tests="@, texts(linker_flags@))),
{
    let mut text = String::new();
    push_lines(&mut text, "cargo::rustc-link-arg-tests=", linker_flags);
    out.write_str(text.as_str())
}

/// Passes each of `linker_flags` to the linker for every example target.
///
/// Writes `cargo::rustc-link-arg-examples=<flag>` on a line of its own
/// for each of `linker_flags`, in order.
pub fn rustc_link_arg_examples(out: &mut CargoBuildOut, linker_flags: &[&str]) -> (r: Result<(), WriteError>)
    requires
        all_single_line(texts(linker_flags@)),
    ensures
        old(out)@.wrote(final(out)@, r, instruction_lines("cargo::rustc-link-arg-examples="@, texts(linker_flags@))),
{
    let mut text = String::new();
    push_lines(&mut text, "cargo::rustc-link-arg-examples=", linker_flags);
    out.write_str(text.as_str())
}

/// Passes each of `linker_flags` to the linker for every benchmark target.
///
/// Writes `cargo::rustc-link-arg-benches=<flag>` on a line of its own
/// for each of `linker_flags`, in order.
pub fn rustc_link_arg_benches(out: &mut CargoBuildOut, linker_flags: &[&str]) -> (r: Result<(), WriteError>)
    requires
        all_single_line(texts(linker_flags@)),
    ensures
        old(out)@.wrote(final(out)@, r, instruction_lines("cargo::rustc-link-arg-benches="@, texts(linker_flags@))),
{
    let mut text = String::new();
    push_lines(&mut text, "cargo::rustc-link-arg-benches=", linker_flags);
    out.write_str(text.as_str())
}

/// Links each of `lib_names`; a name may carry its kind, modifiers and a
/// rename, already written out (`static:+bundle=foo:bar`).
///
/// Writes `cargo::rustc-link-lib=<lib>` on a line of its own
/// for each of `lib_names`, in order.
pub fn rustc_link_lib(out: &mut CargoBuildOut, lib_names: &[&str]) -> (r: Result<(), WriteError>)
    requires
        all_single_line(texts(lib_names@)),
    ensures
        old(out)@.wrote(final(out)@, r, instruction_lines("cargo::rustc-link-lib="@, texts(lib_names@))),
{
    let mut text = String::new();
    push_lines(&mut text, "cargo::rustc-link-lib=", lib_names);
    out.write_str(text.as_str())
}

/// Links each of `lib_names` as a dynamic library.
///
/// Writes `cargo::rustc-link-lib=dylib=<lib>` on a line of its own
/// for each of `lib_names`, in order.
pub fn rustc_link_lib_dylib(out: &mut CargoBuildOut, lib_names: &[&str]) -> (r: Result<(), WriteError>)
    requires
        all_single_line(texts(lib_names@)),
    ensures
        old(out)@.wrote(final(out)@, r, instruction_lines("cargo::rustc-link-lib=dylib="@, texts(lib_names@))),
{
    let mut text = String::new();
    push_lines(&mut text, "cargo::rustc-link-lib=dylib=", lib_names);
    out.write_str(text.as_str())
}

/// Links each of `lib_names` as a static library.
///
/// Writes `cargo::rustc-link-lib=static=<lib>` on a line of its own
/// for each of `lib_names`, in order.
pub fn rustc_link_lib_static(out: &mut CargoBuildOut, lib_names: &[&str]) -> (r: Result<(), WriteError>)
    requires
        all_single_line(texts(lib_names@)),
    ensures
        old(out)@.wrote(final(out)@, r, instruction_lines("cargo::rustc-link-lib=static="@, texts(lib_names@))),
{
    let mut text = String::new();
    push_lines(&mut text, "cargo::rustc-link-lib=static=", lib_names);
    out.write_str(text.as_str())
}

/// Links each of `lib_names` as a macOS framework.
///
/// Writes `cargo::rustc-link-lib=framework=<lib>` on a line of its own
/// for each of `lib_names`, in order.
pub fn rustc_link_lib_framework(out: &mut CargoBuildOut, lib_names: &[&str]) -> (r: Result<(), WriteError>)
    requires
        all_single_line(texts(lib_names@)),
    ensures
        old(out)@.wrote(final(out)@, r, instruction_lines("cargo::rustc-link-lib=framework="@, texts(lib_names@))),
{
    let mut text = String::new();
    push_lines(&mut text, "cargo::rustc-link-lib=framework=", lib_names);
    out.write_str(text.as_str())
}

/// Adds each of `lib_paths` to the library search path.
///
/// Writes `cargo::rustc-link-search=<path>` on a line of its own
/// for each of `lib_paths`, in order.
pub fn rustc_link_search(out: &mut CargoBuildOut, lib_paths: &[&str]) -> (r: Result<(), WriteError>)
    requires
        all_single_line(texts(lib_paths@)),
    ensures
        old(out)@.wrote(final(out)@, r, instruction_lines("cargo::rustc-link-search="@, texts(lib_paths@))),
{
    let mut text = String::new();
    push_lines(&mut text, "cargo::rustc-link-search=", lib_paths);
    out.write_str(text.as_str())
}

/// Adds each of `lib_paths` to the search path for native libraries.
///
/// Writes `cargo::rustc-link-search=native=<path>` on a line of its own
/// for each of `lib_paths`, in order.
pub fn rustc_link_search_native(out: &mut CargoBuildOut, lib_paths: &[&str]) -> (r: Result<(), WriteError>)
    requires
        all_single_line(texts(lib_paths@)),
    ensures
        old(out)@.wrote(final(out)@, r, instruction_lines("cargo::rustc-link-search=native="@, texts(lib_paths@))),
{
    let mut text = String::new();
    push_lines(&mut text, "cargo::rustc-link-search=native=", lib_paths);
    out.write_str(text.as_str())
}

/// Adds each of `lib_paths` to the search path for dependencies.
///
/// Writes `cargo::rustc-link-search=dependency=<path>` on a line of its own
/// for each of `lib_paths`, in order.
pub fn rustc_link_search_dependency(out: &mut CargoBuildOut, lib_paths: &[&str]) -> (r: Result<(), WriteError>)
    requires
        all_single_line(texts(lib_paths@)),
    ensures
        old(out)@.wrote(final(out)@, r, instruction_lines("cargo::rustc-link-search=dependency="@, texts(lib_paths@))),
{
    let mut text = String::new();
    push_lines(&mut text, "cargo::rustc-link-search=dependency=", lib_paths);
    out.write_str(text.as_str())
}

/// Adds each of `lib_paths` to the search path for crates.
///
/// Writes `cargo::rustc-link-search=crate=<path>` on a line of its own
/// for each of `lib_paths`, in order.
pub fn rustc_link_search_crate(out: &mut CargoBuildOut, lib_paths: &[&str]) -> (r: Result<(), WriteError>)
    requires
        all_single_line(texts(lib_paths@)),
    ensures
        old(out)@.wrote(final(out)@, r, instruction_lines("cargo::rustc-link-search=crate="@, texts(lib_paths@))),
{
    let mut text = String::new();
    push_lines(&mut text, "cargo::rustc-link-search=crate=", lib_paths);
    out.write_str(text.as_str())
}

/// Adds each of `lib_paths` to the search path for macOS frameworks.
///
/// Writes `cargo::rustc-link-search=framework=<path>` on a line of its own
/// for each of `lib_paths`, in order.
pub fn rustc_link_search_framework(out: &mut CargoBuildOut, lib_paths: &[&str]) -> (r: Result<(), WriteError>)
    requires
        all_single_line(texts(lib_paths@)),
    ensures
        old(out)@.wrote(final(out)@, r, instruction_lines("cargo::rustc-link-search=framework="@, texts(lib_paths@))),
{
    let mut text = String::new();
    push_lines(&mut text, "cargo::rustc-link-search=framework=", lib_paths);
    out.write_str(text.as_str())
}

/// Adds each of `lib_paths` to the search path for every kind of library.
///
/// Writes `cargo::rustc-link-search=all=<path>` on a line of its own
/// for each of `lib_paths`, in order.
pub fn rustc_link_search_all(out: &mut CargoBuildOut, lib_paths: &[&str]) -> (r: Result<(), WriteError>)
    requires
        all_single_line(texts(lib_paths@)),
    ensures
        old(out)@.wrote(final(out)@, r, instruction_lines("cargo::rustc-link-search=all="@, texts(lib_paths@))),
{
    let mut text = String::new();
    push_lines(&mut text, "cargo::rustc-link-search=all=", lib_paths);
    out.write_str(text.as_str())
}

/// Passes each of `flags` to the compiler as it stands.
///
/// Writes `cargo::rustc-flags=<flag>` on a line of its own
/// for each of `flags`, in order.
pub fn rustc_flags(out: &mut CargoBuildOut, flags: &[&str]) -> (r: Result<(), WriteError>)
    requires
        all_single_line(texts(flags@)),
    ensures
        old(out)@.wrote(final(out)@, r, instruction_lines("cargo::rustc-flags="@, texts(flags@))),
{
    let mut text = String::new();
    push_lines(&mut text, "cargo::rustc-flags=", flags);
    out.write_str(text.as_str())
}

/// Sets the cfg `name`, with `value` when one is given.
///
/// Writes `cargo::rustc-cfg=<name>`, or `cargo::rustc-cfg=<name>="<value>"`.
pub fn rustc_cfg(out: &mut CargoBuildOut, name: &str, value: Option<&str>) -> (r: Result<(), WriteError>)
    requires
        single_line(name@),
        value is Some ==> single_line(value->0@),
    ensures
        old(out)@.wrote(final(out)@, r, cfg_line(name@, match value {
            Some(v) => Some(v@),
            None => None,
        })),
{
    let mut text = String::new();
    text.append("cargo::rustc-cfg=");
    text.append(name);
    match value {
        Some(v) => {
            text.append("=\"");
            text.append(v);
            text.append("\"");
        },
        None => {},
    }
    text.append("\n");
    proof {
        reveal_strlit("\n");
        assert(text@ =~= cfg_line(name@, match value {
            Some(v) => Some(v@),
            None => None,
        }));
    }
    out.write_str(text.as_str())
}

/// The line that sets the cfg `name`, with `value` when there is one.
pub open spec fn cfg_line(name: Seq<char>, value: Option<Seq<char>>) -> Seq<char> {
    "cargo::rustc-cfg="@ + name + match value {
        Some(v) => "=\""@ + v + "\""@,
        None => Seq::empty(),
    } + seq!['\n']
}

/// Declares the cfg `name` as expected, with the values it may take (none: the
/// cfg is set or not, without a value).
///
/// Writes `cargo::rustc-check-cfg=cfg(<name>)` when `values` is empty, else
/// `cargo::rustc-check-cfg=cfg(<name>, values("<v1>", "<v2>", ...))`.
pub fn rustc_check_cfg(out: &mut CargoBuildOut, name: &str, values: &[&str]) -> (r: Result<(), WriteError>)
    requires
        single_line(name@),
        all_single_line(texts(values@)),
    ensures
        old(out)@.wrote(final(out)@, r, check_cfg_line(name@, texts(values@))),
{
    let mut text = String::new();
    text.append("cargo::rustc-check-cfg=cfg(");
    text.append(name);
    if values.len() == 0 {
        text.append(")");
    } else {
        text.append(", values(");
        push_quoted_list(&mut text, values);
        text.append("))");
    }
    text.append("\n");
    proof {
        reveal_strlit("\n");
        assert(text@ =~= check_cfg_line(name@, texts(values@)));
    }
    out.write_str(text.as_str())
}

/// The line that declares the cfg `name` with `values`.
pub open spec fn check_cfg_line(name: Seq<char>, values: Seq<Seq<char>>) -> Seq<char> {
    "cargo::rustc-check-cfg=cfg("@ + name + if values.len() == 0 {
        ")"@
    } else {
        ", values("@ + quoted_list(values) + "))"@
    } + seq!['\n']
}

/// Declares each of `cfg_names` as an expected cfg that takes no value.
///
/// Writes `cargo::rustc-check-cfg=cfg(<name>)` on a line of its own for each of
/// `cfg_names`, in order.
pub fn rustc_check_cfgs(out: &mut CargoBuildOut, cfg_names: &[&str]) -> (r: Result<(), WriteError>)
    requires
        all_single_line(texts(cfg_names@)),
    ensures
        old(out)@.wrote(final(out)@, r, check_cfg_lines(texts(cfg_names@))),
{
    let mut text = String::new();
    let mut i: usize = 0;
    while i < cfg_names.len()
        invariant
            i <= cfg_names@.len(),
            text@ == check_cfg_lines(texts(cfg_names@.take(i as int))),
        decreases cfg_names@.len() - i,
    {
        text.append("cargo::rustc-check-cfg=cfg(");
        text.append(cfg_names[i]);
        text.append(")");
        text.append("\n");
        proof {
            reveal_strlit("\n");
            let next = texts(cfg_names@.take(i + 1));
            assert(next.drop_last() =~= texts(cfg_names@.take(i as int)));
            assert(next.last() == cfg_names@[i as int]@);
            assert(text@ =~= check_cfg_lines(next));
        }
        i = i + 1;
    }
    proof {
        assert(cfg_names@.take(i as int) =~= cfg_names@);
    }
    out.write_str(text.as_str())
}

/// One line that declares each of `names` without values, in order.
pub open spec fn check_cfg_lines(names: Seq<Seq<char>>) -> Seq<char>
    decreases names.len(),
{
    if names.len() == 0 {
        Seq::empty()
    } else {
        check_cfg_lines(names.drop_last()) + check_cfg_line(names.last(), Seq::empty())
    }
}

/// Sets the environment variable `var` to `value` for the compilation of the
/// package.
///
/// Writes `cargo::rustc-env=<var>=<value>`.
pub fn rustc_env(out: &mut CargoBuildOut, var: &str, value: &str) -> (r: Result<(), WriteError>)
    requires
        single_line(var@),
        single_line(value@),
    ensures
        old(out)@.wrote(final(out)@, r, "cargo::rustc-env="@ + var@ + "="@ + value@ + seq!['\n']),
{
    let mut text = String::new();
    text.append("cargo::rustc-env=");
    text.append(var);
    text.append("=");
    text.append(value);
    text.append("\n");
    proof {
        reveal_strlit("\n");
        assert(text@ =~= "cargo::rustc-env="@ + var@ + "="@ + value@ + seq!['\n']);
    }
    out.write_str(text.as_str())
}

/// Reports an error that fails the build.
///
/// Writes `cargo::error=<line>` for each line of `msg`, in order; an empty
/// message is one empty line.
pub fn error(out: &mut CargoBuildOut, msg: &str) -> (r: Result<(), WriteError>)
    ensures
        old(out)@.wrote(final(out)@, r, instruction_lines("cargo::error="@, text_lines(msg@))),
{
    let mut text = String::new();
    push_text_lines(&mut text, "cargo::error=", msg);
    out.write_str(text.as_str())
}

/// Reports a warning.
///
/// Writes `cargo::warning=<line>` for each line of `msg`, in order; an empty
/// message is one empty line.
pub fn warning(out: &mut CargoBuildOut, msg: &str) -> (r: Result<(), WriteError>)
    ensures
        old(out)@.wrote(final(out)@, r, instruction_lines("cargo::warning="@, text_lines(msg@))),
{
    let mut text = String::new();
    push_text_lines(&mut text, "cargo::warning=", msg);
    out.write_str(text.as_str())
}

/// Hands `key` and `value` to the build scripts of the packages that depend on
/// this one.
///
/// Writes `cargo::metadata=<key>=<value>`.
pub fn metadata(out: &mut CargoBuildOut, key: &str, value: &str) -> (r: Result<(), WriteError>)
    requires
        single_line(key@),
        single_line(value@),
    ensures
        old(out)@.wrote(final(out)@, r, "cargo::metadata="@ + key@ + "="@ + value@ + seq!['\n']),
{
    let mut text = String::new();
    text.append("cargo::metadata=");
    text.append(key);
    text.append("=");
    text.append(value);
    text.append("\n");
    proof {
        reveal_strlit("\n");
        assert(text@ =~= "cargo::metadata="@ + key@ + "="@ + value@ + seq!['\n']);
    }
    out.write_str(text.as_str())
}

} // verus!
