use firehose_flags::FirehoseFlags;

#[test]
fn independent_flags_read_their_own_bit() {
    let none = FirehoseFlags::from(0);
    assert!(!none.has_current_aid());
    assert!(!none.has_message_strings_uuid());
    assert!(!none.has_private_string());
    assert!(!none.has_subsystem());
    assert!(!none.has_rules());
    assert!(!none.has_data_ref());
    assert!(!none.has_name());

    assert!(FirehoseFlags::from(0x0001).has_current_aid());
    assert!(FirehoseFlags::from(0x0002).has_message_strings_uuid());
    assert!(FirehoseFlags::from(0x0100).has_private_string());
    assert!(FirehoseFlags::from(0x0200).has_subsystem());
    assert!(FirehoseFlags::from(0x0400).has_rules());
    assert!(FirehoseFlags::from(0x0800).has_data_ref());
    assert!(FirehoseFlags::from(0x8000).has_name());

    assert!(!FirehoseFlags::from(0xfffe).has_current_aid());
    assert!(!FirehoseFlags::from(0xfffd).has_message_strings_uuid());
    assert!(!FirehoseFlags::from(0xfeff).has_private_string());
    assert!(!FirehoseFlags::from(0xfdff).has_subsystem());
    assert!(!FirehoseFlags::from(0xfbff).has_rules());
    assert!(!FirehoseFlags::from(0xf7ff).has_data_ref());
    assert!(!FirehoseFlags::from(0x7fff).has_name());
}

#[test]
fn independent_flags_hold_exactly_when_their_bit_is_set_in_every_word() {
    for raw in 0..=u16::MAX {
        let flags = FirehoseFlags::from(raw);
        assert_eq!(flags.has_current_aid(), raw & 0x0001 == 0x0001);
        assert_eq!(flags.has_message_strings_uuid(), raw & 0x0002 == 0x0002);
        assert_eq!(flags.has_private_string(), raw & 0x0100 == 0x0100);
        assert_eq!(flags.has_subsystem(), raw & 0x0200 == 0x0200);
        assert_eq!(flags.has_rules(), raw & 0x0400 == 0x0400);
        assert_eq!(flags.has_data_ref(), raw & 0x0800 == 0x0800);
        assert_eq!(flags.has_name(), raw & 0x8000 == 0x8000);
        assert_eq!(flags.has_large_offset(), raw & 0x0020 == 0x0020);
    }
}

#[test]
fn independent_flags_ignore_the_other_bits() {
    let masks = [0x0001u16, 0x0002, 0x0100, 0x0200, 0x0400, 0x0800, 0x8000];
    for mask in masks {
        for other in [0x0000u16, 0xffff, 0x5555, 0xaaaa, 0x0f0f, 0x8f2f] {
            let clear = FirehoseFlags::from(other & !mask);
            let set = FirehoseFlags::from(other | mask);
            assert!(!clear.has_flag(mask));
            assert!(set.has_flag(mask));
        }
    }
}

#[test]
fn has_flag_tests_for_a_common_bit() {
    let flags = FirehoseFlags::from(0x0204);
    assert!(flags.has_flag(0x0200));
    assert!(flags.has_flag(0x0004));
    assert!(flags.has_flag(0x000c));
    assert!(flags.has_flag(0xffff));
    assert!(!flags.has_flag(0x0000));
    assert!(!flags.has_flag(0x0002));
    assert!(!flags.has_flag(0xfdfb));
    assert!(!FirehoseFlags::from(0).has_flag(0xffff));
}

#[test]
fn flags_is_the_word_masked_to_the_location_code() {
    assert_eq!(FirehoseFlags::from(557).flags(), 0xc);
    assert_eq!(FirehoseFlags::from(514).flags(), 0x2);
    assert_eq!(FirehoseFlags::from(516).flags(), 0x4);
    assert_eq!(FirehoseFlags::from(8).flags(), 0x8);
    assert_eq!(FirehoseFlags::from(0xa).flags(), 0xa);
    assert_eq!(FirehoseFlags::from(0xffff).flags(), 0xe);
    assert_eq!(FirehoseFlags::from(0xfff1).flags(), 0x0);
    for raw in 0..=u16::MAX {
        assert_eq!(FirehoseFlags::from(raw).flags(), raw & 0x000e);
    }
}

#[test]
fn location_tests_compare_the_code_for_equality() {
    for raw in 0..=u16::MAX {
        let flags = FirehoseFlags::from(raw);
        let code = flags.flags();
        assert_eq!(flags.is_large_shared_cache(), code == 0xc);
        assert_eq!(flags.is_absolute(), code == 0x8);
        assert_eq!(flags.is_main_exe(), code == 0x2);
        assert_eq!(flags.is_shared_cache(), code == 0x4);
        assert_eq!(flags.is_uuid_relative(), code == 0xa);
        assert_eq!(flags.is_large_offset(), code == 0x20);
    }
}

#[test]
fn location_tests_on_the_five_codes() {
    let flags = FirehoseFlags::from(0xc);
    assert!(flags.is_large_shared_cache());
    assert!(!flags.is_absolute() && !flags.is_main_exe());
    assert!(!flags.is_shared_cache() && !flags.is_uuid_relative());

    let flags = FirehoseFlags::from(0x8);
    assert!(flags.is_absolute());
    assert!(!flags.is_large_shared_cache() && !flags.is_uuid_relative());

    let flags = FirehoseFlags::from(0x2);
    assert!(flags.is_main_exe());
    assert!(!flags.is_uuid_relative());

    let flags = FirehoseFlags::from(0x4);
    assert!(flags.is_shared_cache());
    assert!(!flags.is_large_shared_cache());

    let flags = FirehoseFlags::from(0xa);
    assert!(flags.is_uuid_relative());
    assert!(!flags.is_absolute() && !flags.is_main_exe());

    for raw in [0x0u16, 0x6, 0xe] {
        let flags = FirehoseFlags::from(raw);
        assert!(!flags.is_large_shared_cache());
        assert!(!flags.is_absolute());
        assert!(!flags.is_main_exe());
        assert!(!flags.is_shared_cache());
        assert!(!flags.is_uuid_relative());
    }
}

#[test]
fn at_most_one_location_test_holds_of_any_word() {
    for raw in 0..=u16::MAX {
        let flags = FirehoseFlags::from(raw);
        let holding = [
            flags.is_large_offset(),
            flags.is_large_shared_cache(),
            flags.is_absolute(),
            flags.is_main_exe(),
            flags.is_shared_cache(),
            flags.is_uuid_relative(),
        ]
        .iter()
        .filter(|holds| **holds)
        .count();
        assert!(holding <= 1);
    }
}

#[test]
fn is_large_offset_holds_of_no_word() {
    // The location code is masked with 0x000e and then compared with 0x0020,
    // so the comparison fails for every word. The independent test of the
    // same bit, has_large_offset, does see it.
    for raw in 0..=u16::MAX {
        assert!(!FirehoseFlags::from(raw).is_large_offset());
    }
    assert!(FirehoseFlags::from(0x0020).has_large_offset());
    assert!(FirehoseFlags::from(0x022d).has_large_offset());
    assert!(!FirehoseFlags::from(0x020d).has_large_offset());
}

#[test]
fn has_tests_of_the_location_masks_see_any_common_bit() {
    // Unlike the is_ tests these do not compare the whole code.
    let flags = FirehoseFlags::from(0x4);
    assert!(flags.has_shared_cache());
    assert!(flags.has_large_shared_cache());
    assert!(!flags.has_absolute());
    assert!(!flags.has_main_exe());
    assert!(!flags.has_uuid_relative());

    let flags = FirehoseFlags::from(0x8);
    assert!(flags.has_absolute());
    assert!(flags.has_large_shared_cache());
    assert!(flags.has_uuid_relative());
    assert!(!flags.has_shared_cache());
    assert!(!flags.has_main_exe());

    let flags = FirehoseFlags::from(0x2);
    assert!(flags.has_main_exe());
    assert!(flags.has_uuid_relative());
    assert!(flags.has_message_strings_uuid());
    assert!(!flags.has_large_shared_cache());

    for raw in 0..=u16::MAX {
        let flags = FirehoseFlags::from(raw);
        assert_eq!(flags.has_large_shared_cache(), raw & 0xc != 0);
        assert_eq!(flags.has_absolute(), raw & 0x8 != 0);
        assert_eq!(flags.has_main_exe(), raw & 0x2 != 0);
        assert_eq!(flags.has_shared_cache(), raw & 0x4 != 0);
        assert_eq!(flags.has_uuid_relative(), raw & 0xa != 0);
    }
}

#[test]
fn the_location_code_settles_the_message_strings_uuid_flag() {
    for raw in 0..=u16::MAX {
        let flags = FirehoseFlags::from(raw);
        if flags.is_main_exe() || flags.is_uuid_relative() {
            assert!(flags.has_message_strings_uuid());
        }
        if flags.is_absolute() || flags.is_shared_cache() || flags.is_large_shared_cache() {
            assert!(!flags.has_message_strings_uuid());
        }
    }
}

#[test]
fn from_keeps_the_word() {
    let flags = FirehoseFlags::from(0x8f2d);
    assert_eq!(flags, FirehoseFlags::from(0x8f2d));
    assert_ne!(flags, FirehoseFlags::from(0x8f2c));
    let other: FirehoseFlags = 0x8f2du16.into();
    assert_eq!(flags, other);
    let copy = flags;
    assert_eq!(copy.flags(), flags.flags());
    assert!(flags.has_flag(0x8000) && flags.has_flag(0x0001) && !flags.has_flag(0x0010));
}
