use mocha::command::{host_build_command, native_build_command, sync_command, Command};

fn strings(items: &[&str]) -> Vec<String> {
    items.iter().map(|s| s.to_string()).collect()
}

#[test]
fn existing_checkout_is_fetched() {
    let command = sync_command("pkg", "https://example/repo", true);
    assert_eq!(
        command,
        Command {
            program: "gix".to_string(),
            args: strings(&["fetch", "--depth", "1"]),
            dir: "/mocha/src/pkg".to_string(),
        }
    );
}

#[test]
fn missing_checkout_is_cloned() {
    let command = sync_command("pkg", "https://example/repo", false);
    assert_eq!(
        command,
        Command {
            program: "gix".to_string(),
            args: strings(&["clone", "--depth", "1", "--no-tags", "https://example/repo", "."]),
            dir: "/mocha/src/pkg".to_string(),
        }
    );
}

#[test]
fn native_build_is_fast_and_static() {
    let command = native_build_command("pkg");
    assert_eq!(
        command,
        Command {
            program: "zig".to_string(),
            args: strings(&["build", "-Doptimize=ReleaseFast", "-Dtarget=x86_64-linux-musl"]),
            dir: "/mocha/src/pkg".to_string(),
        }
    );
}

#[test]
fn host_build_names_its_features() {
    let command = host_build_command("pkg", &strings(&["x"]));
    assert_eq!(
        command,
        Command {
            program: "cargo".to_string(),
            args: strings(&[
                "+nightly",
                "zigbuild",
                "--features=x",
                "--no-default-features",
                "--target=x86_64-unknown-linux-musl",
                "--release",
            ]),
            dir: "/mocha/src/pkg".to_string(),
        }
    );
}

#[test]
fn features_are_joined_with_commas_in_order() {
    let command = host_build_command("pkg", &strings(&["tls", "zstd", "cli"]));
    assert_eq!(command.args[2], "--features=tls,zstd,cli");
}

#[test]
fn no_features_leave_the_flag_empty() {
    let command = host_build_command("pkg", &[]);
    assert_eq!(command.args[2], "--features=");
    assert_eq!(command.args[3], "--no-default-features");
}
