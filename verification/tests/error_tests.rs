use optee_teec::{Error, ErrorKind, ErrorOrigin};

#[test]
fn every_code_of_the_fixed_table_maps_to_its_kind() {
    let table: [(u32, ErrorKind); 19] = [
        (0xFFFF0000, ErrorKind::Generic),
        (0xFFFF0001, ErrorKind::AccessDenied),
        (0xFFFF0002, ErrorKind::Cancel),
        (0xFFFF0003, ErrorKind::AccessConflict),
        (0xFFFF0004, ErrorKind::ExcessData),
        (0xFFFF0005, ErrorKind::BadFormat),
        (0xFFFF0006, ErrorKind::BadParameters),
        (0xFFFF0007, ErrorKind::BadState),
        (0xFFFF0008, ErrorKind::ItemNotFound),
        (0xFFFF0009, ErrorKind::NotImplemented),
        (0xFFFF000A, ErrorKind::NotSupported),
        (0xFFFF000B, ErrorKind::NoData),
        (0xFFFF000C, ErrorKind::OutOfMemory),
        (0xFFFF000D, ErrorKind::Busy),
        (0xFFFF000E, ErrorKind::Communication),
        (0xFFFF000F, ErrorKind::Security),
        (0xFFFF0010, ErrorKind::ShortBuffer),
        (0xFFFF0011, ErrorKind::ExternalCancel),
        (0xFFFF3024, ErrorKind::TargetDead),
    ];
    for (code, kind) in table.iter() {
        assert_eq!(ErrorKind::from_raw(*code), *kind);
    }
}

#[test]
fn unknown_codes_fall_back_to_generic() {
    assert_eq!(ErrorKind::from_raw(0), ErrorKind::Generic);
    assert_eq!(ErrorKind::from_raw(1), ErrorKind::Generic);
    assert_eq!(ErrorKind::from_raw(0xFFFF0012), ErrorKind::Generic);
    assert_eq!(ErrorKind::from_raw(0xFFFF3025), ErrorKind::Generic);
    assert_eq!(ErrorKind::from_raw(0xDEADBEEF), ErrorKind::Generic);
    assert_eq!(ErrorKind::from_raw(u32::MAX), ErrorKind::Generic);
}

#[test]
fn origins_map_from_their_codes() {
    assert_eq!(ErrorOrigin::from_raw(1), ErrorOrigin::Api);
    assert_eq!(ErrorOrigin::from_raw(2), ErrorOrigin::Comms);
    assert_eq!(ErrorOrigin::from_raw(3), ErrorOrigin::Tee);
    assert_eq!(ErrorOrigin::from_raw(4), ErrorOrigin::TrustedApp);
    assert_eq!(ErrorOrigin::from_raw(0), ErrorOrigin::Api);
    assert_eq!(ErrorOrigin::from_raw(99), ErrorOrigin::Api);
}

#[test]
fn from_raw_error_carries_kind_and_origin() {
    assert_eq!(
        Error::from_raw_error(0xFFFF000C, 3),
        Error::SessionError { kind: ErrorKind::OutOfMemory, origin: ErrorOrigin::Tee }
    );
    assert_eq!(
        Error::from_raw_error(0x12345678, 4),
        Error::SessionError { kind: ErrorKind::Generic, origin: ErrorOrigin::TrustedApp }
    );
}
