use vimo_ffi::{
    cstr_to_str, extract_panic_message, ffi_boundary, ffi_boundary_simple, ffi_boundary_with_log,
    PanicPayload,
};

#[test]
fn test_ffi_boundary_success() {
    let result: bool = ffi_boundary(None, false, Ok(Ok(true)));
    assert!(result);
}

#[test]
fn test_ffi_boundary_error() {
    let mut error_ptr: Option<Vec<u8>> = None;
    let result: bool = ffi_boundary(
        Some(&mut error_ptr),
        false,
        Ok(Err("something failed".to_string())),
    );
    assert!(!result);
    assert!(error_ptr.is_some());
    assert_eq!(error_ptr, Some(b"something failed\0".to_vec()));
}

#[test]
fn test_ffi_boundary_panic() {
    let mut error_ptr: Option<Vec<u8>> = None;
    let result: bool = ffi_boundary(
        Some(&mut error_ptr),
        false,
        Err(PanicPayload::Static("test panic")),
    );
    assert!(!result);
    assert!(error_ptr.is_some());
    let message = error_ptr.unwrap();
    assert_eq!(
        cstr_to_str(Some(&message)).unwrap(),
        "internal panic: test panic"
    );
}

#[test]
fn test_ffi_boundary_simple_success() {
    let (result, _) = ffi_boundary_simple(-1, Ok(42));
    assert_eq!(result, 42);
}

#[test]
fn test_ffi_boundary_simple_panic() {
    let (result, _) = ffi_boundary_simple(-1, Err(PanicPayload::Static("test panic")));
    assert_eq!(result, -1);
}

#[test]
fn extract_message_of_each_payload() {
    assert_eq!(
        extract_panic_message(&PanicPayload::Static("fixed")),
        "fixed"
    );
    assert_eq!(
        extract_panic_message(&PanicPayload::Owned(format!("owned {}", 7))),
        "owned 7"
    );
    assert_eq!(
        extract_panic_message(&PanicPayload::Unknown),
        "unknown panic"
    );
    assert_eq!(extract_panic_message(&PanicPayload::Static("")), "");
    assert_eq!(
        extract_panic_message(&PanicPayload::Owned(String::new())),
        ""
    );
}

#[test]
fn boundary_success_leaves_slot_untouched() {
    let mut empty: Option<Vec<u8>> = None;
    assert_eq!(ffi_boundary(Some(&mut empty), 0, Ok(Ok(5))), 5);
    assert_eq!(empty, None);

    let mut filled: Option<Vec<u8>> = Some(b"earlier\0".to_vec());
    assert_eq!(ffi_boundary(Some(&mut filled), 0, Ok(Ok(5))), 5);
    assert_eq!(filled, Some(b"earlier\0".to_vec()));
}

#[test]
fn boundary_error_overwrites_slot() {
    let mut slot: Option<Vec<u8>> = Some(b"earlier\0".to_vec());
    let result = ffi_boundary(Some(&mut slot), -1, Ok(Err("later".to_string())));
    assert_eq!(result, -1);
    assert_eq!(slot, Some(b"later\0".to_vec()));
}

#[test]
fn boundary_panic_with_each_payload() {
    let mut slot: Option<Vec<u8>> = None;
    let result = ffi_boundary(
        Some(&mut slot),
        -1,
        Err(PanicPayload::Owned("index 3 out of range".to_string())),
    );
    assert_eq!(result, -1);
    assert_eq!(
        slot,
        Some(b"internal panic: index 3 out of range\0".to_vec())
    );

    let result = ffi_boundary(Some(&mut slot), -2, Err(PanicPayload::Unknown));
    assert_eq!(result, -2);
    assert_eq!(slot, Some(b"internal panic: unknown panic\0".to_vec()));

    let result = ffi_boundary(Some(&mut slot), -3, Err(PanicPayload::Static("")));
    assert_eq!(result, -3);
    assert_eq!(slot, Some(b"internal panic: \0".to_vec()));
}

#[test]
fn boundary_without_slot() {
    assert_eq!(ffi_boundary(None, 0, Ok(Ok(9))), 9);
    assert_eq!(ffi_boundary(None, 0, Ok(Err("lost".to_string()))), 0);
    assert_eq!(
        ffi_boundary(None, 0, Err(PanicPayload::Static("lost"))),
        0
    );
}

#[test]
fn boundary_message_with_nul_is_dropped() {
    let mut slot: Option<Vec<u8>> = None;
    let result = ffi_boundary(Some(&mut slot), false, Ok(Err("a\0b".to_string())));
    assert!(!result);
    assert_eq!(slot, None);

    let mut filled: Option<Vec<u8>> = Some(b"earlier\0".to_vec());
    let result = ffi_boundary(
        Some(&mut filled),
        false,
        Err(PanicPayload::Owned("a\0b".to_string())),
    );
    assert!(!result);
    assert_eq!(filled, Some(b"earlier\0".to_vec()));
}

#[test]
fn simple_boundary_log_line() {
    assert_eq!(ffi_boundary_simple(-1, Ok(42)), (42, None));
    assert_eq!(
        ffi_boundary_simple(-1, Err(PanicPayload::Static("test panic"))),
        (-1, Some("[vimo-ffi] panic caught: test panic".to_string()))
    );
    assert_eq!(
        ffi_boundary_simple(-1, Err(PanicPayload::Owned("boom".to_string()))),
        (-1, Some("[vimo-ffi] panic caught: boom".to_string()))
    );
    assert_eq!(
        ffi_boundary_simple("d", Err(PanicPayload::Unknown)),
        ("d", Some("[vimo-ffi] panic caught: unknown panic".to_string()))
    );
}

#[test]
fn boundary_with_log_calls_back_on_panic() {
    let mut seen: Vec<String> = Vec::new();
    let result = ffi_boundary_with_log(
        -1,
        |msg: &str| seen.push(msg.to_string()),
        Err(PanicPayload::Static("test panic")),
    );
    assert_eq!(result, -1);
    assert_eq!(seen, vec!["test panic".to_string()]);

    let mut seen: Vec<String> = Vec::new();
    let result = ffi_boundary_with_log(
        -1,
        |msg: &str| seen.push(msg.to_string()),
        Err(PanicPayload::Unknown),
    );
    assert_eq!(result, -1);
    assert_eq!(seen, vec!["unknown panic".to_string()]);
}

#[test]
fn boundary_with_log_is_silent_on_success() {
    let mut seen: Vec<String> = Vec::new();
    let result = ffi_boundary_with_log(-1, |msg: &str| seen.push(msg.to_string()), Ok(42));
    assert_eq!(result, 42);
    assert!(seen.is_empty());
}
