use gbcore::cpu::{Flag, Registers};

#[test]
fn new_register_file_is_all_zero() {
    let mut r = Registers::new();
    assert_eq!(r.a(), 0);
    assert_eq!(r.b(), 0);
    assert_eq!(r.c(), 0);
    assert_eq!(r.d(), 0);
    assert_eq!(r.e(), 0);
    assert_eq!(r.h(), 0);
    assert_eq!(r.l(), 0);
    assert_eq!(r.bc(), 0);
    assert_eq!(r.de(), 0);
    assert_eq!(r.hl(), 0);
    assert_eq!(r.sp(), 0);
    assert_eq!(r.pc(), 0);
    assert!(!r.get_flag(Flag::Z));
    assert!(!r.get_flag(Flag::N));
    assert!(!r.get_flag(Flag::H));
    assert!(!r.get_flag(Flag::C));
    r.set_sp(0xfffe);
    r.set_pc(0x0100);
    assert_eq!(r.sp(), 0xfffe);
    assert_eq!(r.pc(), 0x0100);
}

#[test]
fn whole_write_is_visible_through_lanes() {
    let values: [u16; 6] = [0x0000, 0xffff, 0xabcd, 0x00ff, 0xff00, 0x1234];
    for &v in values.iter() {
        let mut r = Registers::new();
        r.set_bc(v);
        assert_eq!(r.b(), (v >> 8) as u8);
        assert_eq!(r.c(), (v & 0xff) as u8);
        r.set_de(v);
        assert_eq!(r.d(), (v >> 8) as u8);
        assert_eq!(r.e(), (v & 0xff) as u8);
        r.set_hl(v);
        assert_eq!(r.h(), (v >> 8) as u8);
        assert_eq!(r.l(), (v & 0xff) as u8);
    }
}

#[test]
fn lane_writes_are_visible_through_whole_in_either_order() {
    let mut r = Registers::new();

    r.set_b(0x12);
    r.set_c(0x34);
    assert_eq!(r.bc(), 0x1234);

    r.set_e(0x78);
    r.set_d(0x56);
    assert_eq!(r.de(), 0x5678);

    r.set_hl(0xffff);
    r.set_h(0x9a);
    r.set_l(0xbc);
    assert_eq!(r.hl(), 0x9abc);
}

#[test]
fn lane_write_leaves_other_lane_untouched() {
    let mut r = Registers::new();
    r.set_bc(0xabcd);
    r.set_b(0x11);
    assert_eq!(r.bc(), 0x11cd);
    r.set_c(0x22);
    assert_eq!(r.bc(), 0x1122);

    r.set_hl(0x5566);
    r.set_l(0x77);
    assert_eq!(r.hl(), 0x5577);
}

#[test]
fn writes_to_one_pair_leave_the_others_untouched() {
    let mut r = Registers::new();
    r.set_bc(0x1111);
    r.set_de(0x2222);
    r.set_hl(0x3333);
    r.set_a(0x44);
    r.set_sp(0x5555);
    r.set_pc(0x6666);

    r.set_d(0x99);
    assert_eq!(r.bc(), 0x1111);
    assert_eq!(r.de(), 0x9922);
    assert_eq!(r.hl(), 0x3333);
    assert_eq!(r.a(), 0x44);
    assert_eq!(r.sp(), 0x5555);
    assert_eq!(r.pc(), 0x6666);
}

#[test]
fn each_flag_sets_and_clears() {
    let flags = [Flag::Z, Flag::N, Flag::H, Flag::C];
    for &f in flags.iter() {
        let mut r = Registers::new();
        r.set_flag(f, true);
        assert!(r.get_flag(f));
        r.set_flag(f, false);
        assert!(!r.get_flag(f));
    }
}

#[test]
fn setting_one_flag_leaves_the_others_exactly_as_they_were() {
    let flags = [Flag::Z, Flag::N, Flag::H, Flag::C];
    // Try every prior assignment of the four flags.
    for pattern in 0u8..16 {
        for (i, &f) in flags.iter().enumerate() {
            let mut r = Registers::new();
            for (j, &g) in flags.iter().enumerate() {
                r.set_flag(g, pattern & (1 << j) != 0);
            }
            let before: Vec<bool> = flags.iter().map(|&g| r.get_flag(g)).collect();

            r.set_flag(f, true);
            assert!(r.get_flag(f));
            for (j, &g) in flags.iter().enumerate() {
                if j != i {
                    assert_eq!(r.get_flag(g), before[j]);
                }
            }

            r.set_flag(f, false);
            assert!(!r.get_flag(f));
            for (j, &g) in flags.iter().enumerate() {
                if j != i {
                    assert_eq!(r.get_flag(g), before[j]);
                }
            }
        }
    }
}

#[test]
fn flags_and_a_register_do_not_disturb_each_other() {
    let mut r = Registers::new();
    r.set_flag(Flag::Z, true);
    r.set_flag(Flag::C, true);
    r.set_a(0x3c);
    assert!(r.get_flag(Flag::Z));
    assert!(!r.get_flag(Flag::N));
    assert!(!r.get_flag(Flag::H));
    assert!(r.get_flag(Flag::C));
    r.set_flag(Flag::N, true);
    r.set_flag(Flag::Z, false);
    assert_eq!(r.a(), 0x3c);
}
