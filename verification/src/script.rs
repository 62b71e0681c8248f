//! The configuration of the native build.
//!
//! A package lists its native parts as pairs of a label and source files.
//! The label says what is built: `lib name` is a static library, `bin name`
//! an executable. From these pairs the text of a `build.zig` is made, one
//! target definition per pair, in the order of the pairs.

use crate::text::{all_quoted, join, joined, quote_all, strip_prefix, stripped};
use vstd::prelude::*;
use vstd::string::*;

verus! {

/// What a native part is built into.
#[derive(Debug, Clone, Copy, PartialEq, Eq)]
pub enum TargetKind {
    /// A static library.
    Library,
    /// An executable.
    Executable,
}

/// The kind and the name that `label` stands for: `lib ` and `bin ` in
/// front of a name are understood, no other label is.
pub open spec fn classified(label: Seq<char>) -> Option<(TargetKind, Seq<char>)> {
    match stripped(label, "lib "@) {
        Some(name) => Some((TargetKind::Library, name)),
        None => match stripped(label, "bin "@) {
            Some(name) => Some((TargetKind::Executable, name)),
            None => None,
        },
    }
}

/// The identifier by which the script refers to the target.
pub open spec fn handle(kind: TargetKind, name: Seq<char>) -> Seq<char> {
    match kind {
        TargetKind::Library => "lib"@ + name,
        TargetKind::Executable => name,
    }
}

/// The function of the build tool that declares a target of this kind.
pub open spec fn constructor(kind: TargetKind) -> Seq<char> {
    match kind {
        TargetKind::Library => "addStaticLibrary"@,
        TargetKind::Executable => "addExecutable"@,
    }
}

/// The lines that link what a target of this kind needs beside its own
/// sources: an executable links the compression library that an earlier
/// library target has left in the output directory.
pub open spec fn linked_objects(kind: TargetKind, handle: Seq<char>) -> Seq<char> {
    match kind {
        TargetKind::Library => Seq::empty(),
        TargetKind::Executable => "    "@ + handle + ".addObjectFile(\"zig-out/lib/libzstd.a\");\n"@,
    }
}

/// The source files as they stand in the script: each between double
/// quotes, one per line.
pub open spec fn source_list(sources: Seq<Seq<char>>) -> Seq<char> {
    joined(all_quoted(sources), ",\n        "@)
}

/// The definition of one target: it is linked against the C runtime, built
/// from `sources`, searches `lib` and `lib/common` for headers, and is
/// installed by the build tool.
pub open spec fn definition(kind: TargetKind, name: Seq<char>, sources: Seq<Seq<char>>) -> Seq<
    char,
> {
    let id = handle(kind, name);
    "    const "@ + id + " = b."@ + constructor(kind)
        + "(.{\n        .link_libc = true,\n        .name = \""@ + name
        + "\",\n        .optimize = optimize,\n        .target = target,\n    });\n\n    "@ + id
        + ".addCSourceFiles(&.{\n        "@ + source_list(sources)
        + "\n        },\n        &[_][]const u8{},\n    );\n    "@ + id
        + ".addIncludePath(\"lib\");\n    "@ + id + ".addIncludePath(\"lib/common\");\n"@
        + linked_objects(kind, id) + "\n    b.installArtifact("@ + id + ");\n\n"@
}

/// What one pair adds to the script: a definition where the label is
/// understood, nothing where it is not.
pub open spec fn entry(label: Seq<char>, sources: Seq<Seq<char>>) -> Seq<char> {
    match classified(label) {
        Some((kind, name)) => definition(kind, name, sources),
        None => Seq::empty(),
    }
}

/// What the pairs add to the script, in their order.
pub open spec fn entries(pairs: Seq<(Seq<char>, Seq<Seq<char>>)>) -> Seq<char>
    decreases pairs.len(),
{
    if pairs.len() == 0 {
        Seq::empty()
    } else {
        entries(pairs.drop_last()) + entry(pairs.last().0, pairs.last().1)
    }
}

/// The head of every script: the build function opens and the standard
/// optimisation and target options are declared.
pub open spec fn preamble() -> Seq<char> {
    "const std = @import(\"std\");\n\npub fn build(b: *std.Build) void {\n    const optimize = b.standardOptimizeOption(.{});\n    const target = b.standardTargetOptions(.{});\n\n"@
}

/// The end of every script: the build function closes.
pub open spec fn closing() -> Seq<char> {
    "}\n"@
}

/// The whole script for `pairs`.
pub open spec fn script(pairs: Seq<(Seq<char>, Seq<Seq<char>>)>) -> Seq<char> {
    preamble() + entries(pairs) + closing()
}

/// Reads a label: the kind of target and its name, or `None` where the
/// label begins with neither `lib ` nor `bin `.
pub fn classify<'a>(label: &'a str) -> (r: Option<(TargetKind, &'a str)>)
    ensures
        match r {
            Some((kind, name)) => classified(label@) == Some((kind, name@)),
            None => classified(label@) is None,
        },
{
    match strip_prefix(label, "lib ") {
        Some(name) => Some((TargetKind::Library, name)),
        None => match strip_prefix(label, "bin ") {
            Some(name) => Some((TargetKind::Executable, name)),
            None => None,
        },
    }
}

/// Writes the definition of one target.
pub fn define(kind: TargetKind, name: &str, sources: &[String]) -> (r: String)
    ensures
        r@ == definition(kind, name@, sources.deep_view()),
{
    let id = match kind {
        TargetKind::Library => {
            let mut id = String::from_str("lib");
            id.append(name);
            id
        },
        TargetKind::Executable => String::from_str(name),
    };
    let objects = match kind {
        TargetKind::Library => String::new(),
        TargetKind::Executable => {
            let mut line = String::from_str("    ");
            line.append(id.as_str());
            line.append(".addObjectFile(\"zig-out/lib/libzstd.a\");\n");
            line
        },
    };
    let list = join(quote_all(sources).as_slice(), ",\n        ");
    let mut out = String::from_str("    const ");
    out.append(id.as_str());
    out.append(" = b.");
    match kind {
        TargetKind::Library => out.append("addStaticLibrary"),
        TargetKind::Executable => out.append("addExecutable"),
    }
    out.append("(.{\n        .link_libc = true,\n        .name = \"");
    out.append(name);
    out.append("\",\n        .optimize = optimize,\n        .target = target,\n    });\n\n    ");
    out.append(id.as_str());
    out.append(".addCSourceFiles(&.{\n        ");
    out.append(list.as_str());
    out.append("\n        },\n        &[_][]const u8{},\n    );\n    ");
    out.append(id.as_str());
    out.append(".addIncludePath(\"lib\");\n    ");
    out.append(id.as_str());
    out.append(".addIncludePath(\"lib/common\");\n");
    out.append(objects.as_str());
    out.append("\n    b.installArtifact(");
    out.append(id.as_str());
    out.append(");\n\n");
    out
}

/// Writes the script for `pairs`: the preamble, one definition for each
/// pair whose label is understood, in the order of the pairs, and the
/// closing line. A pair whose label is not understood is passed over.
pub fn build_script(pairs: &[(String, Vec<String>)]) -> (r: String)
    ensures
        r@ == script(pairs.deep_view()),
{
    let mut out = String::from_str(
        "const std = @import(\"std\");\n\npub fn build(b: *std.Build) void {\n    const optimize = b.standardOptimizeOption(.{});\n    const target = b.standardTargetOptions(.{});\n\n",
    );
    let mut i: usize = 0;
    while i < pairs.len()
        invariant
            i <= pairs.len(),
            out@ == preamble() + entries(pairs.deep_view().take(i as int)),
        decreases pairs.len() - i,
    {
        let pair = &pairs[i];
        assert(pairs.deep_view().take(i + 1).drop_last() =~= pairs.deep_view().take(i as int));
        match classify(pair.0.as_str()) {
            Some((kind, name)) => {
                let text = define(kind, name, pair.1.as_slice());
                out.append(text.as_str());
            },
            None => {},
        }
        i = i + 1;
    }
    assert(pairs.deep_view().take(pairs.len() as int) =~= pairs.deep_view());
    out.append("}\n");
    out
}

/// The script is a function of the pairs alone: two lists that hold the same
/// pairs in the same order give the same text, to the last character.
pub proof fn lemma_same_pairs_same_script(
    first: Seq<(Seq<char>, Seq<Seq<char>>)>,
    second: Seq<(Seq<char>, Seq<Seq<char>>)>,
)
    requires
        first.len() == second.len(),
        forall|i: int| 0 <= i < first.len() ==> first[i] == second[i],
    ensures
        script(first) == script(second),
{
    assert(first =~= second);
}

/// The script is made pair by pair: what two lists of pairs add, one after
/// the other, is what the first adds followed by what the second adds.
pub proof fn lemma_entries_of_concatenation(
    first: Seq<(Seq<char>, Seq<Seq<char>>)>,
    second: Seq<(Seq<char>, Seq<Seq<char>>)>,
)
    ensures
        entries(first + second) == entries(first) + entries(second),
    decreases second.len(),
{
    if second.len() == 0 {
        assert(first + second =~= first);
    } else {
        assert((first + second).drop_last() =~= first + second.drop_last());
        lemma_entries_of_concatenation(first, second.drop_last());
    }
}

/// A pair whose label begins with neither `lib ` nor `bin ` leaves no trace
/// in the script: the script is that of the pairs without it.
pub proof fn lemma_unknown_label_adds_nothing(pairs: Seq<(Seq<char>, Seq<Seq<char>>)>, i: int)
    requires
        0 <= i < pairs.len(),
        stripped(pairs[i].0, "lib "@) is None,
        stripped(pairs[i].0, "bin "@) is None,
    ensures
        script(pairs) == script(pairs.remove(i)),
{
    let head = pairs.take(i);
    let one = seq![pairs[i]];
    let tail = pairs.skip(i + 1);
    assert(pairs =~= (head + one) + tail);
    lemma_entries_of_concatenation(head + one, tail);
    lemma_entries_of_concatenation(head, one);
    lemma_entries_of_concatenation(head, tail);
    assert(entries(one) =~= Seq::empty()) by {
        assert(entries(one.drop_last()) =~= Seq::empty());
    }
}

} // verus!
