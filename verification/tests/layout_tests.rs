use mocha::layout::{binary_dir, build_file, source_dir, target_dir};

#[test]
fn source_dir_is_under_src() {
    assert_eq!(source_dir("ripgrep"), "/mocha/src/ripgrep");
}

#[test]
fn target_dir_is_the_release_output_of_the_target() {
    assert_eq!(target_dir("ripgrep"), "/mocha/src/ripgrep/target/x86_64-unknown-linux-musl/release");
}

#[test]
fn binary_dir_is_under_the_root() {
    assert_eq!(binary_dir(), "/mocha/bin");
}

#[test]
fn build_file_is_in_the_checkout() {
    assert_eq!(build_file("ripgrep"), "/mocha/src/ripgrep/build.zig");
}

#[test]
fn different_packages_have_different_checkouts() {
    assert_ne!(source_dir("a"), source_dir("b"));
}
