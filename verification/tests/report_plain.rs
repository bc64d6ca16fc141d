use celestia_da_client::report::{log_output, log_output_int};

#[test]
fn report_without_colours() {
    console::set_colors_enabled(false);
    let text = log_output_int(
        "    exit status: 1".to_string(),
        Some("    out".to_string()),
        Some("    err".to_string()),
    );
    assert_eq!(
        text,
        "  Status:\n    exit status: 1\n  Stdout:\n    out\n\n  Stderr:\n    err\n"
    );
    let text = log_output_int("s".to_string(), None, None);
    assert_eq!(text, "  Status:\ns\n\n");
    let text = log_output("exit status: 1", b"one two", b"");
    assert_eq!(
        text,
        "  Status:\n    exit status: 1\n  Stdout:\n    one two\n\n  Stderr:\n    \n"
    );
}
