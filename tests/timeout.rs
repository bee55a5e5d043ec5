use needjs::timeout::{delay_ms, TimeoutCancelers};

#[test]
fn handles_start_at_one_and_increase() {
    let mut r: TimeoutCancelers<u8> = TimeoutCancelers::new();
    let a = r.append(10).unwrap();
    let b = r.append(11).unwrap();
    assert_eq!(a.index, 1);
    assert_eq!(b.index, 2);
    assert_ne!(a.serial, b.serial);
    assert!(r.contains(1) && r.contains(2));
}

#[test]
fn cancel_returns_the_signal_once() {
    let mut r: TimeoutCancelers<u8> = TimeoutCancelers::new();
    let a = r.append(10).unwrap();
    assert_eq!(r.cancel(a.index), Some(10));
    assert_eq!(r.cancel(a.index), None);
    assert!(!r.contains(a.index));
}

#[test]
fn cancel_unknown_handle_does_nothing() {
    let mut r: TimeoutCancelers<u8> = TimeoutCancelers::new();
    let a = r.append(10).unwrap();
    assert_eq!(r.cancel(77), None);
    assert!(r.contains(a.index));
}

#[test]
fn live_timer_fires_once() {
    let mut r: TimeoutCancelers<u8> = TimeoutCancelers::new();
    let a = r.append(10).unwrap();
    assert!(r.fire(a));
    assert!(!r.contains(a.index));
    assert!(!r.fire(a));
}

// let h = setTimeout(() => console.log("no"), 100); clearTimeout(h);
#[test]
fn cancelled_timer_never_fires() {
    let mut r: TimeoutCancelers<u8> = TimeoutCancelers::new();
    let a = r.append(10).unwrap();
    assert!(r.cancel(a.index).is_some());
    assert!(!r.fire(a));
}

#[test]
fn zero_delay_timer_cancelled_at_once_stays_uncalled() {
    let mut r: TimeoutCancelers<u8> = TimeoutCancelers::new();
    assert_eq!(delay_ms(0), 0);
    let a = r.append(1).unwrap();
    r.cancel(a.index);
    let b = r.append(2).unwrap();
    assert!(!r.fire(a));
    assert!(r.fire(b));
}

#[test]
fn delay_clamps_negative_to_zero() {
    assert_eq!(delay_ms(-5), 0);
    assert_eq!(delay_ms(i64::MIN), 0);
    assert_eq!(delay_ms(10), 10);
    assert_eq!(delay_ms(i64::MAX), i64::MAX as u64);
}
