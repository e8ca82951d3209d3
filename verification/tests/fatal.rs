use unikernel_core::fatal::{
    fatal_response, push_decimal, rust_oom, FatalAction, FatalError, PanicLocation,
};

#[test]
fn panic_under_a_hypervisor_shuts_down() {
    assert_eq!(fatal_response(FatalError::Panic, true), FatalAction::Shutdown(1));
    assert_eq!(fatal_response(FatalError::Panic, false), FatalAction::Halt);
}

#[test]
fn out_of_memory_always_halts() {
    assert_eq!(fatal_response(FatalError::OutOfMemory, true), FatalAction::Halt);
    assert_eq!(fatal_response(FatalError::OutOfMemory, false), FatalAction::Halt);
}

#[test]
fn decimal_digits_have_no_leading_zeros() {
    let cases =
        [(0u64, "0"), (7, "7"), (10, "10"), (65535, "65535"), (u64::MAX, "18446744073709551615")];
    for (n, text) in cases {
        let mut out = b"x".to_vec();
        push_decimal(&mut out, n);
        assert_eq!(out, format!("x{}", text).into_bytes());
    }
}

#[test]
fn panic_report_names_core_place_and_message() {
    let place = PanicLocation { file: b"src/mm/mod.rs".to_vec(), line: 42 };
    let report = unikernel_core::fatal::panic(3, Some(&place), Some(b"out of frames"), false);
    assert_eq!(report.text, b"[3][!!!PANIC!!!] src/mm/mod.rs:42: out of frames\n".to_vec());
    assert_eq!(report.action, FatalAction::Halt);
}

#[test]
fn panic_report_without_place_or_message() {
    let report = unikernel_core::fatal::panic(0, None, None, true);
    assert_eq!(report.text, b"[0][!!!PANIC!!!] \n".to_vec());
    assert_eq!(report.action, FatalAction::Shutdown(1));
}

#[test]
fn out_of_memory_report_names_the_size() {
    let report = rust_oom(12, 4096);
    assert_eq!(
        report.text,
        b"[12][!!!OOM!!!] Memory allocation of 4096 bytes failed\n".to_vec()
    );
    assert_eq!(report.action, FatalAction::Halt);
}
