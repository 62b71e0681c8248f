use mocha::script::{build_script, classify, define, TargetKind};

fn strings(items: &[&str]) -> Vec<String> {
    items.iter().map(|s| s.to_string()).collect()
}

fn pair(label: &str, sources: &[&str]) -> (String, Vec<String>) {
    (label.to_string(), strings(sources))
}

fn lines(items: &[&str]) -> String {
    let mut out = String::new();
    for item in items {
        out.push_str(item);
        out.push('\n');
    }
    out
}

fn preamble() -> String {
    lines(&[
        "const std = @import(\"std\");",
        "",
        "pub fn build(b: *std.Build) void {",
        "    const optimize = b.standardOptimizeOption(.{});",
        "    const target = b.standardTargetOptions(.{});",
        "",
    ])
}

fn zstd_library() -> String {
    lines(&[
        "    const libzstd = b.addStaticLibrary(.{",
        "        .link_libc = true,",
        "        .name = \"zstd\",",
        "        .optimize = optimize,",
        "        .target = target,",
        "    });",
        "",
        "    libzstd.addCSourceFiles(&.{",
        "        \"lib/a.c\",",
        "        \"lib/b.c\"",
        "        },",
        "        &[_][]const u8{},",
        "    );",
        "    libzstd.addIncludePath(\"lib\");",
        "    libzstd.addIncludePath(\"lib/common\");",
        "",
        "    b.installArtifact(libzstd);",
        "",
    ])
}

fn tool_executable() -> String {
    lines(&[
        "    const tool = b.addExecutable(.{",
        "        .link_libc = true,",
        "        .name = \"tool\",",
        "        .optimize = optimize,",
        "        .target = target,",
        "    });",
        "",
        "    tool.addCSourceFiles(&.{",
        "        \"programs/tool.c\"",
        "        },",
        "        &[_][]const u8{},",
        "    );",
        "    tool.addIncludePath(\"lib\");",
        "    tool.addIncludePath(\"lib/common\");",
        "    tool.addObjectFile(\"zig-out/lib/libzstd.a\");",
        "",
        "    b.installArtifact(tool);",
        "",
    ])
}

#[test]
fn script_without_native_parts_is_preamble_and_closing() {
    assert_eq!(build_script(&[]), preamble() + "}\n");
}

#[test]
fn script_of_a_library() {
    let pairs = vec![pair("lib zstd", &["lib/a.c", "lib/b.c"])];
    assert_eq!(build_script(&pairs), preamble() + &zstd_library() + "}\n");
}

#[test]
fn script_of_an_executable() {
    let pairs = vec![pair("bin tool", &["programs/tool.c"])];
    assert_eq!(build_script(&pairs), preamble() + &tool_executable() + "}\n");
}

#[test]
fn script_keeps_the_order_of_the_pairs() {
    let forward = vec![
        pair("lib zstd", &["lib/a.c", "lib/b.c"]),
        pair("bin tool", &["programs/tool.c"]),
    ];
    let backward = vec![
        pair("bin tool", &["programs/tool.c"]),
        pair("lib zstd", &["lib/a.c", "lib/b.c"]),
    ];
    assert_eq!(build_script(&forward), preamble() + &zstd_library() + &tool_executable() + "}\n");
    assert_eq!(build_script(&backward), preamble() + &tool_executable() + &zstd_library() + "}\n");
}

#[test]
fn script_is_the_same_for_the_same_pairs() {
    let first = vec![pair("lib zstd", &["lib/a.c"]), pair("bin tool", &["t.c"]), pair("x", &[])];
    let second = first.clone();
    assert_eq!(build_script(&first), build_script(&second));
    assert_eq!(build_script(&first), build_script(&first));
}

#[test]
fn unknown_label_adds_nothing() {
    let with = vec![
        pair("lib zstd", &["lib/a.c", "lib/b.c"]),
        pair("doc manual", &["manual.md"]),
        pair("bin tool", &["programs/tool.c"]),
    ];
    let without = vec![
        pair("lib zstd", &["lib/a.c", "lib/b.c"]),
        pair("bin tool", &["programs/tool.c"]),
    ];
    assert_eq!(build_script(&with), build_script(&without));
    assert_eq!(build_script(&[pair("zstd", &["a.c"])]), preamble() + "}\n");
    assert_eq!(build_script(&[pair("libzstd", &["a.c"])]), preamble() + "}\n");
    assert_eq!(build_script(&[pair("", &[])]), preamble() + "}\n");
}

#[test]
fn target_without_sources_has_an_empty_list() {
    let expected = lines(&[
        "    const libempty = b.addStaticLibrary(.{",
        "        .link_libc = true,",
        "        .name = \"empty\",",
        "        .optimize = optimize,",
        "        .target = target,",
        "    });",
        "",
        "    libempty.addCSourceFiles(&.{",
        "        ",
        "        },",
        "        &[_][]const u8{},",
        "    );",
        "    libempty.addIncludePath(\"lib\");",
        "    libempty.addIncludePath(\"lib/common\");",
        "",
        "    b.installArtifact(libempty);",
        "",
    ]);
    assert_eq!(define(TargetKind::Library, "empty", &[]), expected);
}

#[test]
fn define_writes_one_target() {
    assert_eq!(
        define(TargetKind::Library, "zstd", &strings(&["lib/a.c", "lib/b.c"])),
        zstd_library()
    );
    assert_eq!(
        define(TargetKind::Executable, "tool", &strings(&["programs/tool.c"])),
        tool_executable()
    );
}

#[test]
fn classify_reads_the_prefix() {
    assert_eq!(classify("lib zstd"), Some((TargetKind::Library, "zstd")));
    assert_eq!(classify("bin tool"), Some((TargetKind::Executable, "tool")));
    assert_eq!(classify("lib "), Some((TargetKind::Library, "")));
    assert_eq!(classify("lib bin x"), Some((TargetKind::Library, "bin x")));
    assert_eq!(classify("bin lib x"), Some((TargetKind::Executable, "lib x")));
}

#[test]
fn classify_refuses_other_labels() {
    assert_eq!(classify("zstd"), None);
    assert_eq!(classify("lib"), None);
    assert_eq!(classify("bin"), None);
    assert_eq!(classify("LIB zstd"), None);
    assert_eq!(classify(" lib zstd"), None);
    assert_eq!(classify(""), None);
}
