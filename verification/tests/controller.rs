use brpc_rs::{BrpcError, Controller};

#[test]
fn controller_new() {
    let cntl = Controller::new();
    assert_eq!(cntl.error_code, 0);
}

#[test]
fn controller_failed() {
    let cntl = Controller::new();
    assert_eq!(false, cntl.failed());
}

#[test]
fn controller_error_code() {
    let cntl = Controller::new();
    assert_eq!(BrpcError::NOERROR, cntl.error());
}

#[test]
fn controller_get_request_attachment() {
    let cntl = Controller::new();
    assert_eq!(cntl.request_attachment().remaining(), 0);
}

#[test]
fn controller_get_response_attachment() {
    let cntl = Controller::new();
    assert_eq!(cntl.response_attachment().remaining(), 0);
}

#[test]
fn set_failed_marks_call_failed() {
    let mut cntl = Controller::new();
    cntl.set_failed(1008);
    assert!(cntl.failed());
    assert_eq!(cntl.error(), BrpcError::ERPCTIMEDOUT);
}

#[test]
fn request_attachment_streams_loaded_bytes() {
    let mut cntl = Controller::new();
    cntl.set_request_attachment(vec![1, 2, 3, 4]);
    let mut buf = cntl.request_attachment();
    assert_eq!(buf.remaining(), 4);
    assert_eq!(buf.bytes().unwrap(), &[1, 2, 3, 4]);
    assert!(buf.advance(4).is_ok());
    assert_eq!(buf.remaining(), 0);
}

#[test]
fn response_attachment_reflects_appends() {
    let mut cntl = Controller::new();
    cntl.append_response(&[10, 20]);
    cntl.append_response(&[30]);
    let buf = cntl.response_attachment();
    assert_eq!(buf.remaining(), 3);
    assert_eq!(buf.bytes().unwrap(), &[10, 20, 30]);
}
