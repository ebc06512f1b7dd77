use wdk::status::{NTSTATUS, NT_ERROR, NT_INFORMATION, NT_SUCCESS, NT_WARNING};

const STATUS_SUCCESS: NTSTATUS = 0;
const STATUS_PENDING: NTSTATUS = 0x0000_0103;
const STATUS_OBJECT_NAME_EXISTS: NTSTATUS = 0x4000_0000;
const STATUS_BUFFER_OVERFLOW: NTSTATUS = 0x8000_0005_u32 as i32;
const STATUS_INSUFFICIENT_RESOURCES: NTSTATUS = 0xC000_009A_u32 as i32;

fn classes(s: NTSTATUS) -> (bool, bool, bool, bool) {
    (NT_SUCCESS(s), NT_INFORMATION(s), NT_WARNING(s), NT_ERROR(s))
}

#[test]
fn success_type_codes() {
    assert_eq!(classes(STATUS_SUCCESS), (true, false, false, false));
    assert_eq!(classes(STATUS_PENDING), (true, false, false, false));
    assert_eq!(classes(0x3FFF_FFFF), (true, false, false, false));
}

#[test]
fn informational_codes() {
    assert_eq!(classes(STATUS_OBJECT_NAME_EXISTS), (true, true, false, false));
    assert_eq!(classes(0x7FFF_FFFF), (true, true, false, false));
}

#[test]
fn warning_codes() {
    assert_eq!(classes(i32::MIN), (false, false, true, false));
    assert_eq!(classes(STATUS_BUFFER_OVERFLOW), (false, false, true, false));
    assert_eq!(classes(0xBFFF_FFFF_u32 as i32), (false, false, true, false));
}

#[test]
fn error_codes() {
    assert_eq!(classes(0xC000_0000_u32 as i32), (false, false, false, true));
    assert_eq!(classes(STATUS_INSUFFICIENT_RESOURCES), (false, false, false, true));
    assert_eq!(classes(-1), (false, false, false, true));
}

#[test]
fn every_code_in_exactly_one_class_on_samples() {
    let samples: [NTSTATUS; 9] = [
        0, 1, 0x3FFF_FFFF, 0x4000_0000, 0x7FFF_FFFF, i32::MIN, -0x4000_0001, -0x4000_0000, -1,
    ];
    for s in samples {
        let success_type = s >= 0 && !NT_INFORMATION(s);
        let count = [success_type, NT_INFORMATION(s), NT_WARNING(s), NT_ERROR(s)]
            .iter()
            .filter(|b| **b)
            .count();
        assert_eq!(count, 1, "status {s:#x}");
        assert_eq!(NT_SUCCESS(s), !NT_WARNING(s) && !NT_ERROR(s));
    }
}
