use ferratone::cell::AtomicF32;

#[test]
fn new_then_load_returns_initial_bits() {
    let cell = AtomicF32::new(300.0f32.to_bits());
    assert_eq!(cell.load(), 300.0f32.to_bits());
}

#[test]
fn store_then_load_returns_exact_bits() {
    let mut cell = AtomicF32::new(0);
    cell.store(0.1f32.to_bits());
    assert_eq!(cell.load(), 0.1f32.to_bits());
    assert_eq!(f32::from_bits(cell.load()), 0.1f32);
}

#[test]
fn store_never_mixes_two_stores_bits() {
    let mut cell = AtomicF32::new(440.0f32.to_bits());
    cell.store(0.00001f32.to_bits());
    cell.store(1.0e30f32.to_bits());
    let word = cell.load();
    assert_eq!(word, 1.0e30f32.to_bits());
    assert_ne!(word, 0.00001f32.to_bits());
}

#[test]
fn nan_payload_survives_bit_for_bit() {
    let nan_word: u32 = 0x7FC0_1234;
    let mut cell = AtomicF32::new(0);
    cell.store(nan_word);
    assert_eq!(cell.load(), nan_word);
}
