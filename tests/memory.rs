use byterusther::memory::{Fault, Memory, BANK, FULL_MEMORY, MEMORY, VIDEO};

#[test]
fn new_memory_is_zero() {
    let m = Memory::new();
    assert_eq!(m.read_byte(0), Ok(0));
    assert_eq!(m.read_byte(FULL_MEMORY - 1), Ok(0));
    assert_eq!(m.get_value_at(1000), Ok(0));
}

#[test]
fn read_address_round_trip() {
    let mut m = Memory::new();
    let a = 0x1234;
    assert_eq!(m.write_byte(a, 0xAB), Ok(()));
    assert_eq!(m.write_byte(a + 1, 0xCD), Ok(()));
    assert_eq!(m.write_byte(a + 2, 0xEF), Ok(()));
    assert_eq!(m.get_value_at(a), Ok(0xAB << 16 | 0xCD << 8 | 0xEF));
    assert_eq!(m.get_value_at(a + 1), Ok(0xCDEF00));
}

#[test]
fn read_address_at_last_fitting_address() {
    let mut m = Memory::new();
    assert_eq!(m.write_byte(FULL_MEMORY - 1, 7), Ok(()));
    assert_eq!(m.get_value_at(FULL_MEMORY - 3), Ok(7));
}

#[test]
fn read_address_past_the_store_faults() {
    let m = Memory::new();
    assert_eq!(m.get_value_at(FULL_MEMORY - 2), Err(Fault { address: FULL_MEMORY - 2 }));
    assert_eq!(m.get_value_at(usize::MAX), Err(Fault { address: usize::MAX }));
}

#[test]
fn byte_access_past_the_store_faults() {
    let mut m = Memory::new();
    assert_eq!(m.read_byte(FULL_MEMORY), Err(Fault { address: FULL_MEMORY }));
    assert_eq!(m.write_byte(FULL_MEMORY, 1), Err(Fault { address: FULL_MEMORY }));
    assert_eq!(m.write_byte(FULL_MEMORY - 1, 9), Ok(()));
    assert_eq!(m.read_byte(FULL_MEMORY - 1), Ok(9));
}

#[test]
fn load_short_image() {
    let mut m = Memory::new();
    m.load_image(&[1, 2, 3, 4]);
    for i in 0..4 {
        assert_eq!(m.read_byte(i), Ok(i as u8 + 1));
    }
    assert_eq!(m.read_byte(4), Ok(0));
    assert_eq!(m.read_byte(MEMORY - 1), Ok(0));
    assert_eq!(m.read_byte(MEMORY), Ok(0));
}

#[test]
fn load_long_image_is_truncated() {
    let mut m = Memory::new();
    let image = vec![0x5Au8; MEMORY + 100];
    m.load_image(&image);
    assert_eq!(m.read_byte(0), Ok(0x5A));
    assert_eq!(m.read_byte(MEMORY - 1), Ok(0x5A));
    for i in MEMORY..FULL_MEMORY {
        assert_eq!(m.read_byte(i), Ok(0));
    }
}

#[test]
fn video_data_follows_the_selector() {
    let mut m = Memory::new();
    assert_eq!(m.get_video_data().len(), BANK);
    assert_eq!(m.write_byte(3 * BANK + 17, 99), Ok(()));
    assert_eq!(m.get_video_data()[17], 0);
    assert_eq!(m.write_byte(VIDEO, 3), Ok(()));
    let bank = m.get_video_data();
    assert_eq!(bank.len(), BANK);
    assert_eq!(bank[17], 99);
    assert_eq!(m.write_byte(VIDEO, 255), Ok(()));
    assert_eq!(m.get_video_data().len(), BANK);
}
