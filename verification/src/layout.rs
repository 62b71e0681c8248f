//! Where the pipeline keeps its files.
//!
//! Everything lives under one root: the checkout of package `p` in
//! `src/p`, the output of its host build below that, and what is installed
//! in `bin`.

use camino::Utf8Path;
use vstd::prelude::*;
use vstd::string::*;

verus! {

/// The path that `camino::Utf8Path::join` gives for `path` adjoined to
/// `base`.
pub uninterp spec fn adjoined(base: Seq<char>, path: Seq<char>) -> Seq<char>;

/// The file stem that `camino::Utf8Path::file_stem` finds in `path`.
pub uninterp spec fn stem_of(path: Seq<char>) -> Option<Seq<char>>;

/// Calls `camino::Utf8Path::join` on `base` with `path` and hands back the
/// text of the path that comes out. Nothing is proved of that text: the
/// contract only gives it the name [`adjoined`].
#[verifier::external_body]
pub(crate) fn adjoin(base: &str, path: &str) -> (r: String)
    ensures
        r@ == adjoined(base@, path@),
{
    Utf8Path::new(base).join(path).into_string()
}

/// Calls `camino::Utf8Path::file_stem` on `path`. Nothing is proved of the
/// stem: the contract only gives it the name [`stem_of`].
#[verifier::external_body]
pub(crate) fn file_stem<'a>(path: &'a str) -> (r: Option<&'a str>)
    ensures
        r.deep_view() == stem_of(path@),
{
    Utf8Path::new(path).file_stem()
}

/// The root of the installation.
pub open spec fn root_path() -> Seq<char> {
    "/mocha"@
}

/// The checkout of the package called `name`.
pub open spec fn source_path(name: Seq<char>) -> Seq<char> {
    adjoined(adjoined(root_path(), "src"@), name)
}

/// Where the host build of the package called `name` leaves its
/// executables.
pub open spec fn target_path(name: Seq<char>) -> Seq<char> {
    adjoined(source_path(name), "target/x86_64-unknown-linux-musl/release"@)
}

/// The directory that artifacts are installed into.
pub open spec fn binary_path() -> Seq<char> {
    adjoined(root_path(), "bin"@)
}

/// The generated configuration of the native build of the package called
/// `name`.
pub open spec fn build_file_path(name: Seq<char>) -> Seq<char> {
    adjoined(source_path(name), "build.zig"@)
}

/// The checkout of the package called `name`.
pub fn source_dir(name: &str) -> (r: String)
    ensures
        r@ == source_path(name@),
{
    let sources = adjoin("/mocha", "src");
    adjoin(sources.as_str(), name)
}

/// Where the host build of the package called `name` leaves its
/// executables.
pub fn target_dir(name: &str) -> (r: String)
    ensures
        r@ == target_path(name@),
{
    let source = source_dir(name);
    adjoin(source.as_str(), "target/x86_64-unknown-linux-musl/release")
}

/// The directory that artifacts are installed into.
pub fn binary_dir() -> (r: String)
    ensures
        r@ == binary_path(),
{
    adjoin("/mocha", "bin")
}

/// The generated configuration of the native build of the package called
/// `name`.
pub fn build_file(name: &str) -> (r: String)
    ensures
        r@ == build_file_path(name@),
{
    let source = source_dir(name);
    adjoin(source.as_str(), "build.zig")
}

} // verus!
