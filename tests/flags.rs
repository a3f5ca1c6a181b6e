use ngx::flags::SubrequestFlags;

#[test]
fn test_and() {
    let mut flag: SubrequestFlags = SubrequestFlags::background();
    assert_eq!(flag.has_flag(SubrequestFlags::background()), true);

    let test_flag = flag & SubrequestFlags::in_memory();
    assert_eq!(test_flag, SubrequestFlags::none());
    assert_eq!(test_flag.has_flag(SubrequestFlags::background()), false);
    assert_eq!(test_flag.has_flag(SubrequestFlags::in_memory()), false);

    flag &= SubrequestFlags::clone_parent();
    assert_eq!(flag, SubrequestFlags::none());
    assert_eq!(flag.has_flag(SubrequestFlags::clone_parent()), false);
    assert_eq!(flag.has_flag(SubrequestFlags::background()), false);
}

#[test]
fn test_or() {
    let mut flag: SubrequestFlags = SubrequestFlags::background();
    assert_eq!(flag.has_flag(SubrequestFlags::background()), true);

    let test_flag = flag | SubrequestFlags::in_memory();
    assert_eq!(u32::from(test_flag), 18);
    assert_eq!(test_flag.has_flag(SubrequestFlags::background()), true);
    assert_eq!(test_flag.has_flag(SubrequestFlags::in_memory()), true);
    assert_eq!(test_flag.has_flag(SubrequestFlags::clone_parent()), false);

    flag |= SubrequestFlags::clone_parent();
    assert_eq!(u32::from(flag), 24);
    assert_eq!(flag.has_flag(SubrequestFlags::background()), true);
    assert_eq!(flag.has_flag(SubrequestFlags::clone_parent()), true);
    assert_eq!(flag.has_flag(SubrequestFlags::in_memory()), false);
}

#[test]
fn test_xor() {
    let mut flag: SubrequestFlags = SubrequestFlags::background() | SubrequestFlags::in_memory();
    assert_eq!(u32::from(flag), 18);

    let test_flag = flag ^ SubrequestFlags::background();
    assert_eq!(test_flag, SubrequestFlags::in_memory());
    assert_eq!(test_flag.has_flag(SubrequestFlags::background()), false);
    assert_eq!(test_flag.has_flag(SubrequestFlags::clone_parent()), false);
    assert_eq!(test_flag.has_flag(SubrequestFlags::in_memory()), true);

    flag ^= SubrequestFlags::background();
    assert_eq!(flag, SubrequestFlags::in_memory());
    assert_eq!(flag.has_flag(SubrequestFlags::background()), false);
    assert_eq!(flag.has_flag(SubrequestFlags::clone_parent()), false);
    assert_eq!(flag.has_flag(SubrequestFlags::in_memory()), true);

    flag ^= SubrequestFlags::clone_parent();
    assert_eq!(u32::from(flag), 10);
    assert_eq!(flag.has_flag(SubrequestFlags::background()), false);
    assert_eq!(flag.has_flag(SubrequestFlags::clone_parent()), true);
    assert_eq!(flag.has_flag(SubrequestFlags::in_memory()), true);
}

#[test]
fn test_not() {
    let flag: SubrequestFlags = SubrequestFlags::background() | SubrequestFlags::in_memory();
    assert_eq!(u32::from(flag), 18);

    let test_flag: SubrequestFlags = flag & !SubrequestFlags::background();
    assert_eq!(test_flag, SubrequestFlags::in_memory());

    assert_eq!(u32::from(!SubrequestFlags::in_memory()) as i32, -3);
    assert_eq!(u32::from(!SubrequestFlags::waited()) as i32, -5);
    assert_eq!(u32::from(!SubrequestFlags::clone_parent()) as i32, -9);
    assert_eq!(u32::from(!SubrequestFlags::background()) as i32, -17);
}

#[test]
fn flag_bits_match_nginx() {
    assert_eq!(SubrequestFlags::none().bits(), 0);
    assert_eq!(SubrequestFlags::in_memory().bits(), 2);
    assert_eq!(SubrequestFlags::waited().bits(), 4);
    assert_eq!(SubrequestFlags::clone_parent().bits(), 8);
    assert_eq!(SubrequestFlags::background().bits(), 16);
    assert!(!SubrequestFlags::none().has_flag(SubrequestFlags::none()));
}
