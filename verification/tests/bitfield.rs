use core::sync::atomic::Ordering;

use utils_atomics::bitfield::AtomicBitBox;
use utils_atomics::div_ceil;

#[test]
fn div_ceil_exact_values() {
    assert_eq!(div_ceil(0, 8), 0);
    assert_eq!(div_ceil(1, 8), 1);
    assert_eq!(div_ceil(8, 8), 1);
    assert_eq!(div_ceil(9, 8), 2);
    assert_eq!(div_ceil(16, 8), 2);
    assert_eq!(div_ceil(7, 1), 7);
}

#[test]
fn bitfield_new_bitbox() {
    let bitbox = AtomicBitBox::new(10);
    for i in 0..10 {
        assert_eq!(bitbox.get(i, Ordering::SeqCst), Some(false));
    }
}

#[test]
fn bitfield_set_and_get() {
    let mut bitbox = AtomicBitBox::new(10);

    bitbox.set(2, Ordering::SeqCst);
    bitbox.set(7, Ordering::SeqCst);

    for i in 0..10 {
        let expected = (i == 2) || (i == 7);
        assert_eq!(bitbox.get(i, Ordering::SeqCst), Some(expected));
    }
}

#[test]
fn bitfield_set_false_and_get() {
    let mut bitbox = AtomicBitBox::new(10);

    bitbox.set(2, Ordering::SeqCst);
    bitbox.set(7, Ordering::SeqCst);

    bitbox.clear(2, Ordering::SeqCst);

    for i in 0..10 {
        let expected = i == 7;
        assert_eq!(bitbox.get(i, Ordering::SeqCst), Some(expected));
    }
}

#[test]
fn bitfield_out_of_bounds() {
    let mut bitbox = AtomicBitBox::new(10);
    assert_eq!(bitbox.get(11, Ordering::SeqCst), None);
    assert_eq!(bitbox.set(11, Ordering::SeqCst), None);
    assert_eq!(bitbox.clear(11, Ordering::SeqCst), None);
}

#[test]
fn bitfield_set_value_dispatches() {
    let mut bitbox = AtomicBitBox::new(12);
    assert_eq!(bitbox.set_value(true, 3, Ordering::SeqCst), Some(false));
    assert_eq!(bitbox.get(3, Ordering::SeqCst), Some(true));
    assert_eq!(bitbox.set_value(false, 3, Ordering::SeqCst), Some(true));
    assert_eq!(bitbox.get(3, Ordering::SeqCst), Some(false));
    assert_eq!(bitbox.set_value(true, 12, Ordering::SeqCst), None);
}

#[test]
fn bitfield_full_last_word_is_addressable() {
    // the bounds are exactly the requested length, also when it is a
    // multiple of the word size
    let mut bitbox = AtomicBitBox::new(8);
    assert_eq!(bitbox.get(7, Ordering::SeqCst), Some(false));
    assert_eq!(bitbox.set(7, Ordering::SeqCst), Some(false));
    assert_eq!(bitbox.get(7, Ordering::SeqCst), Some(true));
    assert_eq!(bitbox.get(8, Ordering::SeqCst), None);
    let bigger = AtomicBitBox::new(16);
    assert_eq!(bigger.get(15, Ordering::SeqCst), Some(false));
    assert_eq!(bigger.get(16, Ordering::SeqCst), None);
}

#[test]
fn bitfield_try_new_is_ok() {
    let bitbox = AtomicBitBox::try_new(9).unwrap();
    assert_eq!(bitbox.get(8, Ordering::SeqCst), Some(false));
    assert_eq!(bitbox.get(9, Ordering::SeqCst), None);
}
