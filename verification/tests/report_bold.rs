use celestia_da_client::report::log_output_int;

#[test]
fn report_with_colours() {
    console::set_colors_enabled(true);
    let text = log_output_int(
        "    exit status: 1".to_string(),
        Some("    out".to_string()),
        Some("    err".to_string()),
    );
    assert_eq!(
        text,
        "\x1b[1m  Status:\x1b[0m\n    exit status: 1\n\x1b[1m  Stdout:\x1b[0m\n    out\n\n\x1b[1m  Stderr:\x1b[0m\n    err\n"
    );
}
