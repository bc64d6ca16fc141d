use celestia_da_client::cmd::{check_output_status, CmdError};

#[test]
fn successful_command_has_nothing_to_report() {
    assert_eq!(check_output_status("ls -la", true, b"ignored".to_vec()), Ok(()));
    assert_eq!(check_output_status("ls -la", true, vec![0xff]), Ok(()));
}

#[test]
fn failed_command_reports_its_error_stream() {
    let e = check_output_status("cargo build", false, b"error: no such file\n".to_vec()).unwrap_err();
    assert_eq!(e.stderr(), &Some("error: no such file\n".to_string()));
    assert_eq!(e.source(), "Command failed to run: cargo build");
    assert_eq!(
        e.message(),
        "Cmd error: Command failed to run: cargo build Some(\"error: no such file\\n\")"
    );
}

#[test]
fn failed_command_with_unreadable_error_stream() {
    let e = check_output_status("cargo build", false, vec![b'a', 0xff, b'b']).unwrap_err();
    assert_eq!(e.stderr(), &None);
    let expected = String::from_utf8(vec![b'a', 0xff, b'b']).unwrap_err().to_string();
    assert_eq!(e.source(), &expected);
    assert_eq!(e.message(), format!("Cmd error: {} None", expected));
}

#[test]
fn failure_from_a_cause_alone() {
    let e = CmdError::from_source("No such file or directory (os error 2)".to_string());
    assert_eq!(e.stderr(), &None);
    assert_eq!(e.source(), "No such file or directory (os error 2)");
    assert_eq!(e.message(), "Cmd error: No such file or directory (os error 2) None");
}

#[test]
fn message_writes_the_error_stream_as_std_does() {
    let said = "tab\there \"quoted\" é\n".to_string();
    let e = check_output_status("x", false, said.clone().into_bytes()).unwrap_err();
    assert_eq!(
        e.message(),
        format!("Cmd error: Command failed to run: x {:?}", Some(said))
    );
}
