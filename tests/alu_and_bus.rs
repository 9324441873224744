use gbcore::alu::{add8, and8, or8, xor8, daa, rl, rr, rlc, sub8, swap, bit, inc8, dec8, add16};
use gbcore::bus::Interconnect;
use gbcore::flags::Flags;

#[test]
fn add_then_subtract_recovers() {
    for a in [0u8, 1, 0x0f, 0x7f, 0x80, 0xff] {
        for b in [0u8, 1, 0x10, 0xf1, 0xff] {
            for c in [false, true] {
                let (s, _) = add8(a, b, c);
                let (d, _) = sub8(s, b, c);
                assert_eq!(d, a);
            }
        }
    }
}

#[test]
fn add_flags() {
    let (r, f) = add8(0x0f, 0x01, false);
    assert_eq!(r, 0x10);
    assert_eq!(f, Flags { z: false, n: false, h: true, c: false });
    let (r, f) = add8(0xff, 0x00, true);
    assert_eq!(r, 0x00);
    assert_eq!(f, Flags { z: true, n: false, h: true, c: true });
}

#[test]
fn sub_flags() {
    let (r, f) = sub8(0x10, 0x01, false);
    assert_eq!(r, 0x0f);
    assert_eq!(f, Flags { z: false, n: true, h: true, c: false });
    let (r, f) = sub8(0x00, 0x00, true);
    assert_eq!(r, 0xff);
    assert_eq!(f, Flags { z: false, n: true, h: true, c: true });
    let (r, f) = sub8(0x3e, 0x3e, false);
    assert_eq!(r, 0);
    assert_eq!(f, Flags { z: true, n: true, h: false, c: false });
}

fn to_bcd(n: u32) -> u8 {
    (((n / 10) << 4) | (n % 10)) as u8
}

#[test]
fn daa_round_trips_all_bcd_pairs() {
    for x in 0..100u32 {
        for y in 0..100u32 {
            let (s, f) = add8(to_bcd(x), to_bcd(y), false);
            let (d, g) = daa(s, f);
            assert_eq!(d, to_bcd((x + y) % 100));
            assert_eq!(g.c, x + y >= 100);
            let (s, f) = sub8(to_bcd(x), to_bcd(y), false);
            let (d, g) = daa(s, f);
            assert_eq!(d, to_bcd((x + 100 - y) % 100));
            assert_eq!(g.c, x < y);
        }
    }
}

#[test]
fn rotate_through_carry_nine_times_restores() {
    for v in 0..=255u8 {
        for c in [false, true] {
            let (mut x, mut cc) = (v, c);
            for _ in 0..9 {
                let (r, f) = rl(x, cc);
                x = r;
                cc = f.c;
            }
            assert_eq!((x, cc), (v, c));
        }
    }
}

#[test]
fn rotate_through_carry_eight_times() {
    let run = |v: u8, c: bool| {
        let (mut x, mut cc) = (v, c);
        for _ in 0..8 {
            let (r, f) = rl(x, cc);
            x = r;
            cc = f.c;
        }
        (x, cc)
    };
    assert_eq!(run(0x00, false), (0x00, false));
    assert_eq!(run(0xff, true), (0xff, true));
    // elsewhere the nine bits have turned only eight places
    assert_eq!(run(0x01, false), (0x00, true));
}

#[test]
fn other_alu_ops() {
    assert_eq!(rlc(0x85).0, 0x0b);
    assert!(rlc(0x85).1.c);
    assert_eq!(swap(0xf1), (0x1f, Flags { z: false, n: false, h: false, c: false }));
    let f = bit(0x80, 7, Flags { z: true, n: true, h: false, c: true });
    assert_eq!(f, Flags { z: false, n: false, h: true, c: true });
    let (r, f) = inc8(0x0f, Flags { z: false, n: true, h: false, c: true });
    assert_eq!(r, 0x10);
    assert_eq!(f, Flags { z: false, n: false, h: true, c: true });
    let (r, f) = dec8(0x01, Flags { z: false, n: false, h: false, c: false });
    assert_eq!(r, 0x00);
    assert_eq!(f, Flags { z: true, n: true, h: false, c: false });
    let (r, f) = add16(0x0fff, 0x0001, Flags { z: true, n: true, h: false, c: false });
    assert_eq!(r, 0x1000);
    assert_eq!(f, Flags { z: true, n: false, h: true, c: false });
    let (r, f) = add16(0xffff, 0x0001, Flags { z: false, n: false, h: false, c: false });
    assert_eq!(r, 0);
    assert!(f.c);
}

#[test]
fn flags_byte_round_trip() {
    let f = Flags { z: true, n: false, h: true, c: false };
    assert_eq!(f.to_byte(), 0xa0);
    assert_eq!(Flags::from_byte(0xa0), f);
    assert_eq!(Flags::from_byte(0xff).to_byte(), 0xf0);
}

#[test]
fn bus_windows() {
    let mut rom = vec![0u8; 0x200];
    rom[0x150] = 0xab;
    let mut bus = Interconnect::new(rom);
    assert_eq!(bus.read_byte(0x0150), 0xab);
    // past the end of the cartridge image
    assert_eq!(bus.read_byte(0x4000), 0xff);
    // the cartridge is read-only
    bus.write_byte(0x0150, 0x11);
    assert_eq!(bus.read_byte(0x0150), 0xab);
    // echo RAM aliases internal RAM
    bus.write_byte(0xc005, 0x5a);
    assert_eq!(bus.read_byte(0xe005), 0x5a);
    bus.write_byte(0xe006, 0x77);
    assert_eq!(bus.read_byte(0xc006), 0x77);
    // unmapped: reads 0xff, writes dropped
    assert_eq!(bus.read_byte(0xfea0), 0xff);
    assert_eq!(bus.read_byte(0xa000), 0xff);
    bus.write_byte(0xfea0, 0x12);
    assert_eq!(bus.read_byte(0xfea0), 0xff);
    // serial port reads 0
    bus.write_byte(0xff01, 0x99);
    assert_eq!(bus.read_byte(0xff01), 0);
    // peripheral registers, high RAM, VRAM, OAM, interrupt registers
    bus.write_byte(0xff40, 0x91);
    assert_eq!(bus.read_byte(0xff40), 0x91);
    bus.write_byte(0xff4c, 0x01);
    assert_eq!(bus.read_byte(0xff4c), 0x00);
    bus.write_byte(0xff80, 0x01);
    assert_eq!(bus.read_byte(0xff80), 0x01);
    bus.write_byte(0x8000, 0x02);
    assert_eq!(bus.read_byte(0x8000), 0x02);
    bus.write_byte(0xfe00, 0x03);
    assert_eq!(bus.read_byte(0xfe00), 0x03);
    bus.write_byte(0xffff, 0x1f);
    assert_eq!(bus.read_byte(0xffff), 0x1f);
    bus.write_halfword(0xc100, 0xbeef);
    assert_eq!(bus.read_byte(0xc100), 0xef);
    assert_eq!(bus.read_byte(0xc101), 0xbe);
    assert_eq!(bus.read_halfword(0xc100), 0xbeef);
    assert_eq!((bus.get_width(), bus.get_height()), (160, 144));
}

#[test]
fn watchpoint_fires_once() {
    let mut bus = Interconnect::new(vec![0u8; 0x8000]);
    bus.add_watchpoint(0xc010);
    bus.write_byte(0xc011, 1);
    assert!(!bus.step(0));
    bus.write_byte(0xc010, 1);
    assert!(bus.step(0));
    assert!(!bus.step(0));
}

#[test]
fn peripheral_requests_set_flag_bits() {
    let mut bus = Interconnect::new(vec![0u8; 0x8000]);
    bus.write_byte(0xffff, 0x05);
    bus.write_byte(0xff0f, 0x10);
    bus.step(0x07);
    // every request is recorded; the enable mask applies at dispatch
    assert_eq!(bus.read_byte(0xff0f), 0x17);
}

#[test]
fn logical_ops_clear_flags() {
    let clear = Flags { z: false, n: false, h: false, c: false };
    assert_eq!(and8(0xf0, 0x3c), (0x30, clear));
    assert_eq!(and8(0xf0, 0x0f), (0x00, Flags { z: true, ..clear }));
    assert_eq!(or8(0x00, 0x00), (0x00, Flags { z: true, ..clear }));
    assert_eq!(xor8(0xff, 0x0f), (0xf0, clear));
}

#[test]
fn eight_rotations_equal_one_rotate_right() {
    for v in 0..=255u8 {
        for c in [false, true] {
            let (mut x, mut cc) = (v, c);
            for _ in 0..8 {
                let (r, f) = rl(x, cc);
                x = r;
                cc = f.c;
            }
            let (r, f) = rr(v, c);
            assert_eq!((x, cc), (r, f.c));
        }
    }
}
