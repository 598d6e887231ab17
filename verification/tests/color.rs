use parrun::color::colorize;

#[test]
fn label_survives_rendering() {
    for i in 0..12 {
        let rendered = colorize("web", i);
        assert!(rendered.contains("web"));
    }
}

#[test]
fn rendering_colors_when_forced() {
    colored::control::set_override(true);
    let rendered = colorize("x", 0);
    colored::control::unset_override();
    // With color forced on, the label comes back wrapped in an ANSI style
    // sequence and the reset, not unchanged.
    assert!(rendered.contains('x'));
    assert!(rendered.starts_with("\u{1b}["));
    assert!(rendered.ends_with("\u{1b}[0m"));
    assert_ne!(rendered, "x");
}

#[test]
fn palette_cycles_by_index() {
    colored::control::set_override(true);
    let first = colorize("t", 0);
    let again = colorize("t", 6);
    let other = colorize("t", 1);
    colored::control::unset_override();
    assert_eq!(first, again);
    assert_ne!(first, other);
}
