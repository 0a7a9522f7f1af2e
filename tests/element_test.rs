use gstsubprocesspipe::{
    register_element, ExitCause, FlowError, FrameFormat, ProcessStatus, SinkError, SinkState,
    VideoPipeSink, ELEMENT_NAME, PROPERTY_CMD, PROPERTY_WAIT_FOR_EXIT,
};

fn negotiated_sink(cmd: &str) -> VideoPipeSink {
    let mut sink = VideoPipeSink::new();
    sink.set_cmd(cmd.to_string());
    sink.set_caps(Some(FrameFormat::new(320, 240, 320 * 240 * 3))).unwrap();
    sink
}

#[test]
fn test_properties() {
    let mut element = VideoPipeSink::new();

    // Test default property values
    let cmd: String = element.cmd().to_string();
    assert_eq!(cmd, "");

    let wait_time: u64 = element.wait_for_exit();
    // Check default is 100ms in nanoseconds
    assert_eq!(wait_time, 100_000_000);

    // Set and get properties
    element.set_cmd("cat".to_string());
    let cmd: String = element.cmd().to_string();
    assert_eq!(cmd, "cat");

    let new_wait_time: u64 = 200_000_000; // 200ms
    element.set_wait_for_exit(new_wait_time);
    let wait_time: u64 = element.wait_for_exit();
    assert_eq!(wait_time, new_wait_time);
}

#[test]
fn test_invalid_command() {
    // The shell itself starts; it then exits with 127 as the command is unknown.
    let mut sink = negotiated_sink("non_existent_command_123xyz");
    let plan = sink.start().unwrap();
    assert_eq!(plan.args[1], "non_existent_command_123xyz");
    sink.process_started(true).unwrap();

    assert_eq!(sink.may_render(), Ok(()));
    let result = sink.observe_status(ProcessStatus::Exited(ExitCause::Code(127)));
    assert!(result.is_err(), "Expected an error once the command has failed");
    assert_eq!(sink.state(), SinkState::Faulted);
    assert!(sink.stop().is_some());
}

#[test]
fn registration_names_the_element() {
    let reg = register_element();
    assert_eq!(reg.name, "videopipesink");
    assert_eq!(reg.name, ELEMENT_NAME);
    assert_eq!(reg.rank, 0);
    assert_eq!(reg.classification, "Sink/Video");
    assert_eq!(reg.long_name, "Vide Pipe Sink");
    assert_eq!(reg.description, "Pipes raw video frames to a provided subprocess");
    assert_eq!(PROPERTY_CMD, "cmd");
    assert_eq!(PROPERTY_WAIT_FOR_EXIT, "wait-for-exit");
}

#[test]
fn spawn_failure_keeps_negotiated_state() {
    let mut sink = negotiated_sink("cat > /dev/null");
    assert!(sink.start().is_ok());
    assert_eq!(sink.process_started(false), Err(SinkError::SpawnFailed));
    assert_eq!(sink.state(), SinkState::Negotiated);
    assert_eq!(sink.may_render(), Err(FlowError::Error));
}
