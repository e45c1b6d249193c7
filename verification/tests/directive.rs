use build_support::{add_link_lib, add_link_libs, rerun_if_changed, rerun_if_env_changed, warning};

#[test]
fn warning_line() {
    assert_eq!(warning("deprecated flag"), "cargo:warning=deprecated flag");
    assert_eq!(warning(""), "cargo:warning=");
    assert_eq!(warning("a=b: c"), "cargo:warning=a=b: c");
}

#[test]
fn rerun_if_changed_line() {
    assert_eq!(rerun_if_changed("src/wrapper.h"), "cargo:rerun-if-changed=src/wrapper.h");
    assert_eq!(rerun_if_changed("build.rs"), "cargo:rerun-if-changed=build.rs");
}

#[test]
fn rerun_if_env_changed_line() {
    assert_eq!(rerun_if_env_changed("CC"), "cargo:rerun-if-env-changed=CC");
}

#[test]
fn link_lib_line() {
    assert_eq!(add_link_lib("z"), "cargo:rustc-link-lib=z");
    assert_eq!(add_link_lib("static=foo"), "cargo:rustc-link-lib=static=foo");
}

#[test]
fn link_libs_keep_their_order() {
    assert_eq!(
        add_link_libs(&["user32", "gdi32", "user32"]),
        vec![
            "cargo:rustc-link-lib=user32".to_string(),
            "cargo:rustc-link-lib=gdi32".to_string(),
            "cargo:rustc-link-lib=user32".to_string(),
        ]
    );
}

#[test]
fn no_libs_no_lines() {
    assert_eq!(add_link_libs(&[]), Vec::<String>::new());
}

#[test]
fn link_libs_agree_with_link_lib() {
    let names = ["a", "b", "c"];
    let lines = add_link_libs(&names);
    assert_eq!(lines.len(), names.len());
    for (line, name) in lines.iter().zip(names) {
        assert_eq!(*line, add_link_lib(name));
    }
}
