use rad::{decimal_string, Error, OpKind, Operation};

fn operation(kind: OpKind, object: &str, length: u64, offset: u64) -> Operation {
    Operation { kind, object: object.to_string(), length, offset }
}

#[test]
fn numbers_are_written_in_decimal() {
    assert_eq!(decimal_string(0), "0");
    assert_eq!(decimal_string(7), "7");
    assert_eq!(decimal_string(9), "9");
    assert_eq!(decimal_string(10), "10");
    assert_eq!(decimal_string(1234567890), "1234567890");
    assert_eq!(decimal_string(u64::MAX), "18446744073709551615");
    for value in [11u64, 99, 100, 101, 65536, 4294967295, 1000000000000] {
        assert_eq!(decimal_string(value), value.to_string());
    }
}

#[test]
fn every_kind_has_its_name() {
    assert_eq!(OpKind::Write.name(), "write");
    assert_eq!(OpKind::WriteFull.name(), "write_full");
    assert_eq!(OpKind::Append.name(), "append");
    assert_eq!(OpKind::Remove.name(), "remove");
    assert_eq!(OpKind::Read.name(), "read");
    assert_eq!(OpKind::Stat.name(), "stat");
    assert_eq!(OpKind::Exists.name(), "exists");
    assert_eq!(OpKind::Flush.name(), "flush");
}

#[test]
fn a_kind_knows_what_it_has() {
    assert!(OpKind::Read.is_read_only());
    assert!(OpKind::Stat.is_read_only());
    assert!(OpKind::Exists.is_read_only());
    assert!(!OpKind::Write.is_read_only());
    assert!(!OpKind::Flush.is_read_only());
    assert!(OpKind::Write.has_object() && OpKind::Write.has_length() && OpKind::Write.has_offset());
    assert!(OpKind::Read.has_object() && OpKind::Read.has_length() && OpKind::Read.has_offset());
    assert!(OpKind::Append.has_object() && OpKind::Append.has_length());
    assert!(!OpKind::Append.has_offset());
    assert!(OpKind::Remove.has_object());
    assert!(!OpKind::Remove.has_length() && !OpKind::Remove.has_offset());
    assert!(!OpKind::Flush.has_object());
    assert!(!OpKind::Flush.has_length() && !OpKind::Flush.has_offset());
}

#[test]
fn an_operation_is_described_by_what_its_kind_has() {
    assert_eq!(
        operation(OpKind::Write, "obj-1", 16, 32).describe(),
        "write `obj-1`, length 16, offset 32"
    );
    assert_eq!(
        operation(OpKind::Read, "obj-1", 65536, 0).describe(),
        "read `obj-1`, length 65536, offset 0"
    );
    assert_eq!(
        operation(OpKind::WriteFull, "obj-2", 8, 99).describe(),
        "write_full `obj-2`, length 8"
    );
    assert_eq!(operation(OpKind::Append, "obj-2", 8, 0).describe(), "append `obj-2`, length 8");
    assert_eq!(operation(OpKind::Remove, "obj-3", 5, 5).describe(), "remove `obj-3`");
    assert_eq!(operation(OpKind::Stat, "obj-3", 0, 0).describe(), "stat `obj-3`");
    assert_eq!(operation(OpKind::Exists, "", 0, 0).describe(), "exists ``");
    assert_eq!(operation(OpKind::Flush, "ignored", 1, 2).describe(), "flush");
}

#[test]
fn a_native_error_reads_with_its_code_and_text() {
    assert_eq!(
        Error::Rados(2).message("No such file or directory"),
        "RADOS error code 2: `No such file or directory`"
    );
    assert_eq!(Error::Rados(2147483648).message(""), "RADOS error code 2147483648: ``");
}

#[test]
fn a_failed_operation_reads_with_the_operation_first() {
    let failed = Error::Failed { op: operation(OpKind::Write, "obj-1", 16, 32), code: 28 };
    assert_eq!(
        failed.message("No space left on device"),
        "write `obj-1`, length 16, offset 32: RADOS error code 28: `No space left on device`"
    );
    let failed = Error::Failed { op: operation(OpKind::Flush, "", 0, 0), code: 5 };
    assert_eq!(failed.message("Input/output error"), "flush: RADOS error code 5: `Input/output error`");
}

#[test]
fn a_nul_byte_reads_with_its_position() {
    assert_eq!(
        Error::Nul(3).message("ignored"),
        "nul byte found in provided data at position: 3"
    );
    assert_eq!(Error::Nul(0).message(""), "nul byte found in provided data at position: 0");
}

#[test]
fn a_misuse_reads_without_a_code() {
    assert_eq!(Error::Finished.message("ignored"), "future polled after it had finished");
}

#[test]
fn an_operation_clones_to_an_equal_one() {
    let op = operation(OpKind::Read, "obj-9", 1, 2);
    assert_eq!(op.clone(), op);
}
