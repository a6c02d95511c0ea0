use geforcenow_awdl0::interface::{
    FlagUpdate, IfReq, InterfaceError, MacOsInterfaceController, OsError, ENXIO, IFF_UP, IFNAMSIZ,
    MAX_NAME_LEN,
};

fn os_error(code: i32, message: &str) -> OsError {
    OsError { code, message: message.to_string() }
}

/// The flag word after an update is carried out on an interface whose word
/// was `flags`.
fn carried_out(update: FlagUpdate, flags: i16) -> i16 {
    match update {
        FlagUpdate::Keep => flags,
        FlagUpdate::Write(word) => word,
    }
}

fn after_bring_down(flags: i16) -> i16 {
    let controller = MacOsInterfaceController::new();
    carried_out(controller.bring_down(Ok(flags)).unwrap(), flags)
}

fn after_allow_up(flags: i16) -> i16 {
    let controller = MacOsInterfaceController::new();
    carried_out(controller.allow_up(Ok(flags)).unwrap(), flags)
}

#[test]
fn test_validate_name_valid() {
    let result = MacOsInterfaceController::validate_name("en0");
    assert!(result.is_ok());
}

#[test]
fn test_validate_name_too_long() {
    let long_name = "a".repeat(20);
    let result = MacOsInterfaceController::validate_name(&long_name);
    assert!(matches!(result, Err(InterfaceError::NameTooLong(_))));
}

#[test]
fn test_validate_name_with_null() {
    let result = MacOsInterfaceController::validate_name("en\0zero");
    assert!(matches!(result, Err(InterfaceError::InvalidName(_))));
}

#[test]
fn test_validate_name_max_length() {
    let name = "a".repeat(15); // Exactly 15 chars (max allowed)
    let result = MacOsInterfaceController::validate_name(&name);
    assert!(result.is_ok());
}

#[test]
fn test_interface_controller_creation() {
    let _controller = MacOsInterfaceController::new();
    // Just verify it can be created
}

#[test]
fn test_interface_name_validation() {
    let controller = MacOsInterfaceController::new();

    // Names that are too long should fail
    let long_name = "a".repeat(20);
    let read = MacOsInterfaceController::validate_name(&long_name).map(|_| 0i16);
    let result = controller.is_up(read);
    assert!(result.is_err());
}

#[test]
fn constants_are_those_of_the_kernel() {
    assert_eq!(IFF_UP, 0x1);
    assert_eq!(ENXIO, 6);
    assert_eq!(IFNAMSIZ, 16);
    assert_eq!(MAX_NAME_LEN, 15);
}

#[test]
fn constants_agree_with_libc() {
    assert_eq!(IFF_UP, libc::IFF_UP as i16);
    assert_eq!(i32::from(IFF_UP), libc::IFF_UP);
    assert_eq!(ENXIO, libc::ENXIO);
    assert_eq!(IFNAMSIZ, libc::IFNAMSIZ);
    assert_eq!(MAX_NAME_LEN + 1, libc::IFNAMSIZ);
}

#[test]
fn request_name_has_the_size_of_the_kernels_field() {
    let handle = MacOsInterfaceController::validate_name("awdl0").unwrap();
    assert_eq!(IfReq::new(&handle).name.len(), libc::IFNAMSIZ);
}

#[test]
fn validate_name_keeps_the_name() {
    let handle = MacOsInterfaceController::validate_name("awdl0").unwrap();
    assert_eq!(handle.name(), "awdl0");
    let handle = MacOsInterfaceController::validate_name("").unwrap();
    assert_eq!(handle.name(), "");
}

#[test]
fn validate_name_counts_bytes() {
    // Sixteen bytes are one too many.
    let sixteen = "a".repeat(16);
    match MacOsInterfaceController::validate_name(&sixteen) {
        Err(InterfaceError::NameTooLong(name)) => assert_eq!(name, sixteen),
        other => panic!("unexpected result: {other:?}"),
    }
    // Eight characters of two bytes each are sixteen bytes.
    let wide = "é".repeat(8);
    assert!(matches!(
        MacOsInterfaceController::validate_name(&wide),
        Err(InterfaceError::NameTooLong(_))
    ));
    // Seven of them are fourteen bytes.
    assert!(MacOsInterfaceController::validate_name(&"é".repeat(7)).is_ok());
}

#[test]
fn validate_name_reports_length_before_zero_bytes() {
    let long_with_zero = format!("{}\0", "a".repeat(19));
    assert!(matches!(
        MacOsInterfaceController::validate_name(&long_with_zero),
        Err(InterfaceError::NameTooLong(_))
    ));
    match MacOsInterfaceController::validate_name("\0") {
        Err(InterfaceError::InvalidName(name)) => assert_eq!(name, "\0"),
        other => panic!("unexpected result: {other:?}"),
    }
    let zero_at_end = format!("{}\0", "a".repeat(14));
    assert!(matches!(
        MacOsInterfaceController::validate_name(&zero_at_end),
        Err(InterfaceError::InvalidName(_))
    ));
}

#[test]
fn request_holds_the_padded_name() {
    let handle = MacOsInterfaceController::validate_name("awdl0").unwrap();
    let request = IfReq::new(&handle);
    assert_eq!(request.name, *b"awdl0\0\0\0\0\0\0\0\0\0\0\0");
    assert_eq!(request.flags, 0);

    let longest = MacOsInterfaceController::validate_name("abcdefghijklmno").unwrap();
    let request = IfReq::new(&longest);
    assert_eq!(request.name, *b"abcdefghijklmno\0");

    let empty = MacOsInterfaceController::validate_name("").unwrap();
    assert_eq!(IfReq::new(&empty).name, [0u8; 16]);
}

#[test]
fn request_with_flags_keeps_the_name() {
    let handle = MacOsInterfaceController::validate_name("en0").unwrap();
    let request = IfReq::new(&handle).with_flags(0x8842u16 as i16);
    assert_eq!(request.name, *b"en0\0\0\0\0\0\0\0\0\0\0\0\0\0");
    assert_eq!(request.flags, 0x8842u16 as i16);
}

#[test]
fn ioctl_error_tells_missing_interfaces_apart() {
    match MacOsInterfaceController::ioctl_error("awdl0", os_error(6, "Device not configured")) {
        InterfaceError::NotFound(name) => assert_eq!(name, "awdl0"),
        other => panic!("unexpected error: {other:?}"),
    }
    match MacOsInterfaceController::ioctl_error("awdl0", os_error(1, "Operation not permitted")) {
        InterfaceError::Ioctl(error) => {
            assert_eq!(error.code, 1);
            assert_eq!(error.message, "Operation not permitted");
        }
        other => panic!("unexpected error: {other:?}"),
    }
    assert!(matches!(
        MacOsInterfaceController::ioctl_error("en0", os_error(0, "")),
        InterfaceError::Ioctl(_)
    ));
}

#[test]
fn bring_down_clears_only_the_up_bit() {
    let controller = MacOsInterfaceController::new();
    // UP | BROADCAST | RUNNING | SIMPLEX | MULTICAST
    let flags = 0x8843u16 as i16;
    assert_eq!(
        controller.bring_down(Ok(flags)).unwrap(),
        FlagUpdate::Write(0x8842u16 as i16)
    );
    assert_eq!(controller.bring_down(Ok(0x0001)).unwrap(), FlagUpdate::Write(0x0000));
    assert_eq!(controller.bring_down(Ok(-1)).unwrap(), FlagUpdate::Write(-2));
}

#[test]
fn bring_down_of_a_down_interface_writes_nothing() {
    let controller = MacOsInterfaceController::new();
    assert_eq!(controller.bring_down(Ok(0x8842u16 as i16)).unwrap(), FlagUpdate::Keep);
    assert_eq!(controller.bring_down(Ok(0)).unwrap(), FlagUpdate::Keep);
    assert_eq!(controller.bring_down(Ok(-2)).unwrap(), FlagUpdate::Keep);
}

#[test]
fn bring_down_fails_as_reading_failed() {
    let controller = MacOsInterfaceController::new();
    assert!(matches!(
        controller.bring_down(Err(InterfaceError::NotFound("awdl0".to_string()))),
        Err(InterfaceError::NotFound(name)) if name == "awdl0"
    ));
    assert!(matches!(
        controller.bring_down(Err(InterfaceError::Ioctl(os_error(1, "denied")))),
        Err(InterfaceError::Ioctl(error)) if error.code == 1
    ));
    assert!(matches!(
        controller.bring_down(Err(InterfaceError::SocketCreation(os_error(24, "files")))),
        Err(InterfaceError::SocketCreation(error)) if error.code == 24
    ));
    assert!(matches!(
        controller.bring_down(Err(InterfaceError::NameTooLong("x".repeat(16)))),
        Err(InterfaceError::NameTooLong(_))
    ));
    assert!(matches!(
        controller.bring_down(Err(InterfaceError::InvalidName("a\0".to_string()))),
        Err(InterfaceError::InvalidName(_))
    ));
}

#[test]
fn allow_up_sets_only_the_up_bit() {
    let controller = MacOsInterfaceController::new();
    assert_eq!(
        controller.allow_up(Ok(0x8842u16 as i16)).unwrap(),
        FlagUpdate::Write(0x8843u16 as i16)
    );
    assert_eq!(controller.allow_up(Ok(0)).unwrap(), FlagUpdate::Write(1));
    assert_eq!(controller.allow_up(Ok(-2)).unwrap(), FlagUpdate::Write(-1));
}

#[test]
fn allow_up_of_an_up_interface_writes_nothing() {
    let controller = MacOsInterfaceController::new();
    assert_eq!(controller.allow_up(Ok(0x8843u16 as i16)).unwrap(), FlagUpdate::Keep);
    assert_eq!(controller.allow_up(Ok(1)).unwrap(), FlagUpdate::Keep);
}

#[test]
fn allow_up_of_a_missing_interface_succeeds() {
    let controller = MacOsInterfaceController::new();
    assert_eq!(
        controller.allow_up(Err(InterfaceError::NotFound("awdl0".to_string()))).unwrap(),
        FlagUpdate::Keep
    );
}

#[test]
fn allow_up_fails_on_other_errors() {
    let controller = MacOsInterfaceController::new();
    assert!(matches!(
        controller.allow_up(Err(InterfaceError::Ioctl(os_error(1, "denied")))),
        Err(InterfaceError::Ioctl(error)) if error.code == 1
    ));
    assert!(matches!(
        controller.allow_up(Err(InterfaceError::SocketCreation(os_error(24, "files")))),
        Err(InterfaceError::SocketCreation(_))
    ));
    assert!(matches!(
        controller.allow_up(Err(InterfaceError::NameTooLong("x".repeat(16)))),
        Err(InterfaceError::NameTooLong(_))
    ));
    assert!(matches!(
        controller.allow_up(Err(InterfaceError::InvalidName("a\0".to_string()))),
        Err(InterfaceError::InvalidName(_))
    ));
}

#[test]
fn is_up_reads_the_up_bit() {
    let controller = MacOsInterfaceController::new();
    assert_eq!(controller.is_up(Ok(0x8843u16 as i16)).unwrap(), true);
    assert_eq!(controller.is_up(Ok(0x8842u16 as i16)).unwrap(), false);
    assert_eq!(controller.is_up(Ok(1)).unwrap(), true);
    assert_eq!(controller.is_up(Ok(0)).unwrap(), false);
    assert_eq!(controller.is_up(Ok(-1)).unwrap(), true);
}

#[test]
fn is_up_of_a_missing_interface_fails() {
    let controller = MacOsInterfaceController::new();
    assert!(matches!(
        controller.is_up(Err(InterfaceError::NotFound("awdl0".to_string()))),
        Err(InterfaceError::NotFound(name)) if name == "awdl0"
    ));
    assert!(matches!(
        controller.is_up(Err(InterfaceError::Ioctl(os_error(5, "i/o")))),
        Err(InterfaceError::Ioctl(_))
    ));
}

#[test]
fn bring_down_twice_is_bring_down_once() {
    for flags in [0x8843u16 as i16, 0x8842u16 as i16, 0, 1, -1, -2, 0x0041, i16::MIN, i16::MAX] {
        let once = after_bring_down(flags);
        let twice = after_bring_down(once);
        assert_eq!(twice, once);
        assert_eq!(once & IFF_UP, 0);
    }
}

#[test]
fn allow_up_twice_is_allow_up_once() {
    for flags in [0x8843u16 as i16, 0x8842u16 as i16, 0, 1, -1, -2, 0x0041, i16::MIN, i16::MAX] {
        let once = after_allow_up(flags);
        let twice = after_allow_up(once);
        assert_eq!(twice, once);
        assert_eq!(once & IFF_UP, IFF_UP);
    }
}

#[test]
fn down_then_up_keeps_the_other_flags() {
    // BROADCAST | RUNNING | PROMISC | SIMPLEX | MULTICAST, with and without UP
    for flags in [0x8943u16 as i16, 0x8942u16 as i16, 0x0002, 0x0003, -1, -2, 0] {
        let down = after_bring_down(flags);
        assert_eq!(down & !IFF_UP, flags & !IFF_UP);
        let up = after_allow_up(down);
        assert_eq!(up & !IFF_UP, flags & !IFF_UP);
        assert_eq!(up, flags | IFF_UP);
    }
    assert_eq!(after_allow_up(after_bring_down(0x8943u16 as i16)), 0x8943u16 as i16);
}

#[test]
fn all_flag_words_keep_their_other_bits() {
    let controller = MacOsInterfaceController::new();
    for flags in i16::MIN..=i16::MAX {
        let down = carried_out(controller.bring_down(Ok(flags)).unwrap(), flags);
        let up = carried_out(controller.allow_up(Ok(flags)).unwrap(), flags);
        assert_eq!(down, flags & !1);
        assert_eq!(up, flags | 1);
    }
}

#[test]
fn interface_error_messages() {
    assert_eq!(
        InterfaceError::SocketCreation(os_error(24, "EMFILE: Too many open files")).to_string(),
        "failed to create socket: EMFILE: Too many open files"
    );
    assert_eq!(
        InterfaceError::NameTooLong("averyveryverylongname".to_string()).to_string(),
        "interface name too long (max 15 characters): averyveryverylongname"
    );
    assert_eq!(
        InterfaceError::InvalidName("en\0zero".to_string()).to_string(),
        "interface name contains null byte: en\0zero"
    );
    assert_eq!(
        InterfaceError::Ioctl(os_error(1, "Operation not permitted (os error 1)")).to_string(),
        "ioctl failed: Operation not permitted (os error 1)"
    );
    assert_eq!(
        InterfaceError::NotFound("awdl0".to_string()).to_string(),
        "interface not found: awdl0"
    );
}
