use mocha::log::{artifact_line, build_announcement, compose_line, report, sync_announcement};

#[test]
fn line_with_destination() {
    assert_eq!(compose_line("[bin]", "foo", Some("bar")), " [bin] foo -> bar");
}

#[test]
fn line_without_destination() {
    assert_eq!(compose_line("[bin]", "foo", None), " [bin] foo");
}

#[test]
fn artifact_line_paints_the_kind() {
    assert_eq!(artifact_line("bin", "foo", None), " \u{1b}[42;30m bin \u{1b}[0m foo");
    assert_eq!(
        artifact_line("sym", "gcc", Some("cc")),
        " \u{1b}[42;30m sym \u{1b}[0m gcc -> cc"
    );
}

#[test]
fn artifact_line_matches_the_painted_style() {
    let style = yansi::Style::new(yansi::Color::Black).bg(yansi::Color::Green);
    let kind = style.paint(format!(" {} ", "bin"));
    assert_eq!(artifact_line("bin", "foo", Some("bar")), format!(" {} {} -> {}", kind, "foo", "bar"));
}

#[test]
fn announcements_name_the_package() {
    assert_eq!(sync_announcement("pkg"), " sync pkg.. ");
    assert_eq!(build_announcement("pkg"), " build pkg.. ");
}

#[test]
fn report_tells_the_time_taken() {
    assert_eq!(report("1.25s"), "done! took 1.25s");
}
