use realsense_capture::error::SdkError;
use realsense_capture::error::FAILURE_EXIT_CODE;

#[test]
fn report_names_operation_arguments_and_message() {
    let error = SdkError {
        operation: "rs2_pipeline_wait_for_frames".to_string(),
        arguments: "pipe:0x55d0, timeout_ms:3000".to_string(),
        message: "Frame didn't arrive within 3000".to_string(),
    };
    assert_eq!(
        error.report(),
        "rs_error was raised when calling rs2_pipeline_wait_for_frames(pipe:0x55d0, timeout_ms:3000):\nFrame didn't arrive within 3000"
    );
}

#[test]
fn report_of_an_empty_error_keeps_its_frame() {
    let error = SdkError { operation: String::new(), arguments: String::new(), message: String::new() };
    assert_eq!(error.report(), "rs_error was raised when calling ():\n");
}

#[test]
fn failure_exit_code_is_not_zero() {
    assert_eq!(FAILURE_EXIT_CODE, 1);
}
