use helium::helium::memory::MemoryControl;

#[test]
fn rom_image_is_loaded_and_zero_padded() {
    let m = MemoryControl::new(vec![1, 2, 3]);
    assert_eq!(m.get(0), 1);
    assert_eq!(m.get(1), 2);
    assert_eq!(m.get(2), 3);
    assert_eq!(m.get(3), 0);
    assert_eq!(m.get(255), 0);
}

#[test]
fn rom_prefix_rejects_writes() {
    // An image of length 3 protects addresses 0, 1 and 2.
    let mut m = MemoryControl::new(vec![10, 20, 30]);
    for addr in 0u8..3 {
        assert!(!m.set(addr, 99));
    }
    assert_eq!(m.get(0), 10);
    assert_eq!(m.get(1), 20);
    assert_eq!(m.get(2), 30);
}

#[test]
fn ram_beyond_rom_accepts_writes() {
    let mut m = MemoryControl::new(vec![10, 20, 30]);
    assert!(m.set(3, 42));
    assert_eq!(m.get(3), 42);
    assert!(m.set(255, 7));
    assert_eq!(m.get(255), 7);
}

#[test]
fn empty_image_leaves_everything_writable() {
    let mut m = MemoryControl::new(Vec::new());
    assert!(m.set(0, 1));
    assert_eq!(m.get(0), 1);
    assert!(m.set(255, 2));
    assert_eq!(m.get(255), 2);
}

#[test]
fn full_image_protects_every_address() {
    let image: Vec<u8> = (0..=255).collect();
    let mut m = MemoryControl::new(image);
    assert!(!m.set(0, 9));
    assert!(!m.set(255, 9));
    assert_eq!(m.get(255), 255);
}
