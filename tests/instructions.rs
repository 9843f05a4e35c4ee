use cargo_build::build_out;
use cargo_build::cargo_build_out::CargoBuildOut;
use cargo_build::{
    error, metadata, rerun_if_changed, rerun_if_env_changed, rustc_cfg, rustc_check_cfg,
    rustc_check_cfgs, rustc_env, rustc_link_arg, rustc_link_arg_benches, rustc_link_arg_bin,
    rustc_link_arg_bins, rustc_link_arg_cdylib, rustc_link_arg_examples, rustc_link_arg_tests,
    rustc_link_lib, rustc_link_search, rustc_link_search_framework, rustc_link_search_native,
    warning,
};

fn capturing() -> CargoBuildOut {
    let mut out = CargoBuildOut::new();
    build_out::set(&mut out, String::new());
    out
}

#[test]
fn macros_test_change_output_test() {
    let mut out = capturing();

    rerun_if_changed(&mut out, &[]).unwrap();
    rerun_if_changed(&mut out, &["LICENSE.md", "README.md"]).unwrap();

    assert_eq!(
        out.captured().unwrap(),
        "\
                cargo::rerun-if-changed=LICENSE.md\n\
                cargo::rerun-if-changed=README.md\n"
    );

    // Take the capture back, empty it and emit again: nothing reaches it.
    let mut taken = build_out::reset(&mut out).unwrap();
    taken.clear();

    rerun_if_changed(&mut out, &["LICENSE.md"]).unwrap();

    assert_eq!(taken.as_bytes(), b"");
    assert!(out.captured().is_none());
}

#[test]
fn test_change_output_test() {
    let mut out = CargoBuildOut::new();
    out.set(String::new());

    rerun_if_changed(&mut out, &["LICENSE.md"]).unwrap();

    assert_eq!(
        out.captured().unwrap().as_bytes(),
        b"cargo::rerun-if-changed=LICENSE.md\n"
    );

    let mut taken = out.reset().unwrap();
    taken.clear();

    rerun_if_changed(&mut out, &["LICENSE.md"]).unwrap();

    assert_eq!(taken.as_bytes(), b"");
    assert!(out.captured().is_none());
}

#[test]
fn rerun_if_changed_test() {
    let mut out = capturing();

    rerun_if_changed(&mut out, &["LICENSE.md", "README.md"]).unwrap();
    rerun_if_changed(&mut out, &["LICENSE.md", "README.md"]).unwrap();

    assert_eq!(
        out.captured().unwrap(),
        "\
                cargo::rerun-if-changed=LICENSE.md\n\
                cargo::rerun-if-changed=README.md\n\
                cargo::rerun-if-changed=LICENSE.md\n\
                cargo::rerun-if-changed=README.md\n"
    );
}

#[test]
fn rerun_if_env_changed_test() {
    let mut out = capturing();

    rerun_if_env_changed(&mut out, &["VAR1", "VAR2"]).unwrap();
    rerun_if_env_changed(&mut out, &["VAR1", "VAR2"]).unwrap();

    assert_eq!(
        out.captured().unwrap(),
        "\
                cargo::rerun-if-env-changed=VAR1\n\
                cargo::rerun-if-env-changed=VAR2\n\
                cargo::rerun-if-env-changed=VAR1\n\
                cargo::rerun-if-env-changed=VAR2\n"
    );
}

#[test]
fn rustc_link_arg_test() {
    let mut out = capturing();

    rustc_link_arg(&mut out, &["-mlongcalls", "-ffunction-sections", "-Wl,--cref"]).unwrap();
    rustc_link_arg(&mut out, &["-mlongcalls", "-ffunction-sections", "-Wl,--cref"]).unwrap();

    assert_eq!(
        out.captured().unwrap(),
        "\
                cargo::rustc-link-arg=-mlongcalls\n\
                cargo::rustc-link-arg=-ffunction-sections\n\
                cargo::rustc-link-arg=-Wl,--cref\n\
                cargo::rustc-link-arg=-mlongcalls\n\
                cargo::rustc-link-arg=-ffunction-sections\n\
                cargo::rustc-link-arg=-Wl,--cref\n"
    );
}

#[test]
fn rustc_link_arg_cdylib_test() {
    let mut out = capturing();

    rustc_link_arg_cdylib(&mut out, &["-mlongcalls", "-ffunction-sections", "-Wl,--cref"])
        .unwrap();

    assert_eq!(
        out.captured().unwrap(),
        "\
                cargo::rustc-link-arg-cdylib=-mlongcalls\n\
                cargo::rustc-link-arg-cdylib=-ffunction-sections\n\
                cargo::rustc-link-arg-cdylib=-Wl,--cref\n"
    );
}

#[test]
fn rustc_link_arg_bin_test() {
    let mut out = capturing();

    rustc_link_arg_bin(&mut out, "server", &["-Wl,--cref"]).unwrap();

    rustc_link_arg_bin(
        &mut out,
        "client",
        &["-mlongcalls", "-ffunction-sections", "-Wl,--cref"],
    )
    .unwrap();

    assert_eq!(
        out.captured().unwrap(),
        "\
                cargo::rustc-link-arg-bin=server=-Wl,--cref\n\
                cargo::rustc-link-arg-bin=client=-mlongcalls\n\
                cargo::rustc-link-arg-bin=client=-ffunction-sections\n\
                cargo::rustc-link-arg-bin=client=-Wl,--cref\n"
    );
}

#[test]
fn rustc_link_arg_bins_test() {
    let mut out = capturing();

    rustc_link_arg_bins(&mut out, &["-mlongcalls", "-ffunction-sections", "-Wl,--cref"]).unwrap();

    assert_eq!(
        out.captured().unwrap(),
        "\
                cargo::rustc-link-arg-bins=-mlongcalls\n\
                cargo::rustc-link-arg-bins=-ffunction-sections\n\
                cargo::rustc-link-arg-bins=-Wl,--cref\n"
    );
}

#[test]
fn rustc_link_arg_tests_test() {
    let mut out = capturing();

    rustc_link_arg_tests(&mut out, &["-mlongcalls", "-ffunction-sections", "-Wl,--cref"])
        .unwrap();

    assert_eq!(
        out.captured().unwrap(),
        "\
                cargo::rustc-link-arg-tests=-mlongcalls\n\
                cargo::rustc-link-arg-tests=-ffunction-sections\n\
                cargo::rustc-link-arg-tests=-Wl,--cref\n"
    );
}

#[test]
fn rustc_link_arg_examples_test() {
    let mut out = capturing();

    rustc_link_arg_examples(&mut out, &["-mlongcalls", "-ffunction-sections", "-Wl,--cref"])
        .unwrap();

    assert_eq!(
        out.captured().unwrap(),
        "\
                cargo::rustc-link-arg-examples=-mlongcalls\n\
                cargo::rustc-link-arg-examples=-ffunction-sections\n\
                cargo::rustc-link-arg-examples=-Wl,--cref\n"
    );
}

#[test]
fn rustc_link_arg_benches_test() {
    let mut out = capturing();

    rustc_link_arg_benches(&mut out, &["-mlongcalls", "-ffunction-sections", "-Wl,--cref"])
        .unwrap();

    assert_eq!(
        out.captured().unwrap(),
        "\
                cargo::rustc-link-arg-benches=-mlongcalls\n\
                cargo::rustc-link-arg-benches=-ffunction-sections\n\
                cargo::rustc-link-arg-benches=-Wl,--cref\n"
    );
}

#[test]
fn rustc_link_lib_test_complex() {
    let mut out = capturing();

    let rename = "renamed_lib";

    let four = format!(
        "static:{},{},{},{}={}",
        "+whole-archive",
        "+verbatim",
        "+bundle",
        "+bundle",
        format!("ff:{}", rename)
    );
    rustc_link_lib(&mut out, &[&four, &four, &four]).unwrap();

    let three = format!(
        "static:{},{},{}={}",
        "+whole-archive",
        "+verbatim",
        "+bundle",
        format!("ff:{}", rename)
    );
    rustc_link_lib(&mut out, &[&three, &three, &three]).unwrap();

    assert_eq!(
        out.captured().unwrap(),
        "\
                cargo::rustc-link-lib=static:+whole-archive,+verbatim,+bundle,+bundle=ff:renamed_lib\n\
                cargo::rustc-link-lib=static:+whole-archive,+verbatim,+bundle,+bundle=ff:renamed_lib\n\
                cargo::rustc-link-lib=static:+whole-archive,+verbatim,+bundle,+bundle=ff:renamed_lib\n\
                cargo::rustc-link-lib=static:+whole-archive,+verbatim,+bundle=ff:renamed_lib\n\
                cargo::rustc-link-lib=static:+whole-archive,+verbatim,+bundle=ff:renamed_lib\n\
                cargo::rustc-link-lib=static:+whole-archive,+verbatim,+bundle=ff:renamed_lib\n"
    );
}

#[test]
fn rustc_link_lib_test_all() {
    let mut out = capturing();

    for kind in ["static", "dylib", "framework"] {
        let lib = format!("{}:{}={}", kind, "+whole-archive", format!("foo:{}", "renamed_foo"));
        rustc_link_lib(&mut out, &[&lib]).unwrap();
    }

    assert_eq!(
        out.captured().unwrap(),
        "\
                cargo::rustc-link-lib=static:+whole-archive=foo:renamed_foo\n\
                cargo::rustc-link-lib=dylib:+whole-archive=foo:renamed_foo\n\
                cargo::rustc-link-lib=framework:+whole-archive=foo:renamed_foo\n"
    );
}

#[test]
fn rustc_link_search_test() {
    let mut out = capturing();

    rustc_link_search(&mut out, &["common_libs"]).unwrap();

    rustc_link_search_native(&mut out, &["libs"]).unwrap();

    rustc_link_search_framework(&mut out, &["mac_os_libs", "more_mac_os_libs"]).unwrap();

    assert_eq!(
        out.captured().unwrap(),
        "\
                cargo::rustc-link-search=common_libs\n\
                cargo::rustc-link-search=native=libs\n\
                cargo::rustc-link-search=framework=mac_os_libs\n\
                cargo::rustc-link-search=framework=more_mac_os_libs\n"
    );
}

#[test]
fn rustc_cfg_test_no_value() {
    let mut out = capturing();

    rustc_cfg(&mut out, "api_v1", None).unwrap();

    assert_eq!(out.captured().unwrap(), "cargo::rustc-cfg=api_v1\n");
}

#[test]
fn rustc_cfg_test_value() {
    let mut out = capturing();

    let value = "1";
    rustc_cfg(&mut out, "api_version", Some(value)).unwrap();

    assert_eq!(out.captured().unwrap(), "cargo::rustc-cfg=api_version=\"1\"\n");
}

#[test]
fn rustc_check_cfg_test_no_values() {
    let mut out = capturing();

    rustc_check_cfg(&mut out, "api_version", &[]).unwrap();

    assert_eq!(out.captured().unwrap(), "cargo::rustc-check-cfg=cfg(api_version)\n");
}

#[test]
fn rustc_check_cfgs_test() {
    let mut out = capturing();

    rustc_check_cfgs(&mut out, &["api_v1", "api_v2"]).unwrap();

    assert_eq!(
        out.captured().unwrap(),
        "cargo::rustc-check-cfg=cfg(api_v1)\n\
         cargo::rustc-check-cfg=cfg(api_v2)\n"
    );
}

#[test]
fn rustc_check_cfg_test_single_value() {
    let mut out = capturing();

    rustc_check_cfg(&mut out, "api_version", &["1"]).unwrap();

    assert_eq!(
        out.captured().unwrap(),
        "cargo::rustc-check-cfg=cfg(api_version, values(\"1\"))\n"
    );
}

#[test]
fn rustc_check_cfg_test_many_values() {
    let mut out = capturing();

    rustc_check_cfg(&mut out, "api_version", &["1", "2", "3"]).unwrap();

    assert_eq!(
        out.captured().unwrap(),
        "cargo::rustc-check-cfg=cfg(api_version, values(\"1\", \"2\", \"3\"))\n"
    );
}

#[test]
fn rustc_check_cfg_test_many_values_array() {
    let mut out = capturing();

    let values = ["1", "2", "3"];
    rustc_check_cfg(&mut out, "api_version", &values).unwrap();

    assert_eq!(
        out.captured().unwrap(),
        "cargo::rustc-check-cfg=cfg(api_version, values(\"1\", \"2\", \"3\"))\n"
    );
}

#[test]
fn rustc_env_test() {
    let mut out = capturing();

    rustc_env(&mut out, "GIT_HASH", "1234").unwrap();

    assert_eq!(out.captured().unwrap(), "cargo::rustc-env=GIT_HASH=1234\n");
}

#[test]
fn rustc_warning_test() {
    let mut out = capturing();

    let err = 10;
    warning(&mut out, &format!("Warning during build process {}", err)).unwrap();

    assert_eq!(out.captured().unwrap(), "cargo::warning=Warning during build process 10\n");
}

#[test]
fn rustc_error_test() {
    let mut out = capturing();

    let err = 10;
    error(&mut out, &format!("Fatal error during build process {}", err)).unwrap();

    assert_eq!(out.captured().unwrap(), "cargo::error=Fatal error during build process 10\n");
}

#[test]
fn metadata_test() {
    let mut out = capturing();

    metadata(&mut out, "META", "DATA").unwrap();

    assert_eq!(out.captured().unwrap(), "cargo::metadata=META=DATA\n");
}
