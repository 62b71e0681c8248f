//! The external tools and how they are called.
//!
//! Three tools do the outside work: `gix` brings the source, `zig` builds
//! the native parts and `cargo` builds the host project. Each is run in the
//! checkout of the package.

use crate::layout::{source_dir, source_path};
use crate::text::{join, joined};
use vstd::prelude::*;
use vstd::string::*;

verus! {

/// One call of an external tool.
#[derive(Debug, Clone, PartialEq, Eq)]
pub struct Command {
    /// The tool.
    pub program: String,
    /// Its arguments, in order.
    pub args: Vec<String>,
    /// The directory it is run in.
    pub dir: String,
}

/// A [`Command`] as a mathematical value.
pub struct CommandView {
    pub program: Seq<char>,
    pub args: Seq<Seq<char>>,
    pub dir: Seq<char>,
}

impl View for Command {
    type V = CommandView;

    open spec fn view(&self) -> CommandView {
        CommandView { program: self.program@, args: self.args.deep_view(), dir: self.dir@ }
    }
}

impl DeepView for Command {
    type V = CommandView;

    open spec fn deep_view(&self) -> CommandView {
        self@
    }
}

/// The arguments that refresh a checkout: the newest revision only.
pub open spec fn fetch_arguments() -> Seq<Seq<char>> {
    seq!["fetch"@, "--depth"@, "1"@]
}

/// The arguments that make a checkout of `source` in the current
/// directory: the newest revision only, without tags.
pub open spec fn clone_arguments(source: Seq<char>) -> Seq<Seq<char>> {
    seq!["clone"@, "--depth"@, "1"@, "--no-tags"@, source, "."@]
}

/// The call that brings the source of the package called `name` up to
/// date: a fetch where the checkout exists, a clone of `source` where it
/// does not.
pub open spec fn sync_invocation(name: Seq<char>, source: Seq<char>, exists: bool) -> CommandView {
    CommandView {
        program: "gix"@,
        args: if exists {
            fetch_arguments()
        } else {
            clone_arguments(source)
        },
        dir: source_path(name),
    }
}

/// The call that builds the native parts of the package called `name`, as
/// fast code for 64-bit Linux with a static C runtime.
pub open spec fn native_build_invocation(name: Seq<char>) -> CommandView {
    CommandView {
        program: "zig"@,
        args: seq!["build"@, "-Doptimize=ReleaseFast"@, "-Dtarget=x86_64-linux-musl"@],
        dir: source_path(name),
    }
}

/// The argument that switches on `features`, in their order, with commas
/// between them.
pub open spec fn feature_flag(features: Seq<Seq<char>>) -> Seq<char> {
    "--features="@ + joined(features, ","@)
}

/// The call that builds the host project of the package called `name` for
/// the same target, with the nightly toolchain, in release mode and with
/// `features` and no others.
pub open spec fn host_build_invocation(name: Seq<char>, features: Seq<Seq<char>>) -> CommandView {
    CommandView {
        program: "cargo"@,
        args: seq![
            "+nightly"@,
            "zigbuild"@,
            feature_flag(features),
            "--no-default-features"@,
            "--target=x86_64-unknown-linux-musl"@,
            "--release"@,
        ],
        dir: source_path(name),
    }
}

/// The call that brings the source of the package called `name` up to
/// date.
pub fn sync_command(name: &str, source: &str, exists: bool) -> (r: Command)
    ensures
        r@ == sync_invocation(name@, source@, exists),
{
    let mut args: Vec<String> = Vec::new();
    if exists {
        args.push(String::from_str("fetch"));
        args.push(String::from_str("--depth"));
        args.push(String::from_str("1"));
        assert(args.deep_view() =~= fetch_arguments());
    } else {
        args.push(String::from_str("clone"));
        args.push(String::from_str("--depth"));
        args.push(String::from_str("1"));
        args.push(String::from_str("--no-tags"));
        args.push(String::from_str(source));
        args.push(String::from_str("."));
        assert(args.deep_view() =~= clone_arguments(source@));
    }
    Command { program: String::from_str("gix"), args, dir: source_dir(name) }
}

/// The call that builds the native parts of the package called `name`.
pub fn native_build_command(name: &str) -> (r: Command)
    ensures
        r@ == native_build_invocation(name@),
{
    let mut args: Vec<String> = Vec::new();
    args.push(String::from_str("build"));
    args.push(String::from_str("-Doptimize=ReleaseFast"));
    args.push(String::from_str("-Dtarget=x86_64-linux-musl"));
    assert(args.deep_view() =~= native_build_invocation(name@).args);
    Command { program: String::from_str("zig"), args, dir: source_dir(name) }
}

/// The call that builds the host project of the package called `name`.
pub fn host_build_command(name: &str, features: &[String]) -> (r: Command)
    ensures
        r@ == host_build_invocation(name@, features.deep_view()),
{
    let mut flag = String::from_str("--features=");
    flag.append(join(features, ",").as_str());
    let mut args: Vec<String> = Vec::new();
    args.push(String::from_str("+nightly"));
    args.push(String::from_str("zigbuild"));
    args.push(flag);
    args.push(String::from_str("--no-default-features"));
    args.push(String::from_str("--target=x86_64-unknown-linux-musl"));
    args.push(String::from_str("--release"));
    assert(args.deep_view() =~= host_build_invocation(name@, features.deep_view()).args);
    Command { program: String::from_str("cargo"), args, dir: source_dir(name) }
}

} // verus!
