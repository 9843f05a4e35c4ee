//! Build-script instructions for cargo, formatted as cargo reads them and
//! written to a sink that is standard output by default or an in-memory capture.
pub mod build_out;
pub mod cargo_build_out;
pub mod format;
pub mod laws;
pub mod functions;

pub use functions::{
    rerun_if_changed,
    rerun_if_env_changed,
    rustc_link_arg,
    rustc_link_arg_cdylib,
    rustc_link_arg_bin,
    rustc_link_arg_bins,
    rustc_link_arg_tests,
    rustc_link_arg_examples,
    rustc_link_arg_benches,
    rustc_link_lib,
    rustc_link_lib_dylib,
    rustc_link_lib_static,
    rustc_link_lib_framework,
    rustc_link_search,
    rustc_link_search_native,
    rustc_link_search_dependency,
    rustc_link_search_crate,
    rustc_link_search_framework,
    rustc_link_search_all,
    rustc_flags,
    rustc_cfg,
    rustc_check_cfg,
    rustc_check_cfgs,
    rustc_env,
    error,
    warning,
    metadata,
};
