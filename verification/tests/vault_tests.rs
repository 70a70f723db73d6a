use pin_vault::pin::generate_pin;
use pin_vault::vault::{Unbound, Vault};

#[test]
fn default_vault_is_fresh() {
    let v: Vault<Unbound> = Default::default();
    assert_eq!(v.pin, [0, 0]);
    assert_eq!(v.failed_attempts, 0);
    assert_eq!(v.secret, "");
}

#[test]
fn bind_assigns_pin_and_zeroes_counter() {
    let v: Vault<Unbound> = Default::default();
    let locked = v.bind([2, 3]);
    assert_eq!(locked.pin, [2, 3]);
    assert_eq!(locked.failed_attempts, 0);
    assert_eq!(locked.secret, "");
}

#[test]
fn bind_then_matching_unlock_succeeds() {
    let v: Vault<Unbound> = Default::default();
    let locked = v.bind([2, 3]);
    match locked.unlock([2, 3]) {
        Ok(unlocked) => {
            assert_eq!(unlocked.secret, "Aww man you found my secret!");
            assert_eq!(unlocked.failed_attempts, 0);
            assert_eq!(unlocked.pin, [2, 3]);
        }
        Err(_) => panic!("matching attempt must unlock"),
    }
}

#[test]
fn mismatched_unlock_counts_one_attempt() {
    let v: Vault<Unbound> = Default::default();
    let locked = v.bind([1, 4]);
    match locked.unlock([4, 1]) {
        Ok(_) => panic!("mismatched attempt must not unlock"),
        Err(still_locked) => {
            assert_eq!(still_locked.failed_attempts, 1);
            assert_eq!(still_locked.pin, [1, 4]);
            assert_eq!(still_locked.secret, "");
        }
    }
}

#[test]
fn single_digit_difference_is_a_mismatch() {
    let v: Vault<Unbound> = Default::default();
    let locked = v.bind([2, 2]);
    match locked.unlock([2, 3]) {
        Ok(_) => panic!("attempt differing in one digit must not unlock"),
        Err(still_locked) => assert_eq!(still_locked.failed_attempts, 1),
    }
}

#[test]
fn repeated_rejections_strictly_increase_counter() {
    let v: Vault<Unbound> = Default::default();
    let mut locked = v.bind([3, 3]);
    for expected in 1..=10u32 {
        let before = locked.failed_attempts;
        locked = match locked.unlock([1, 1]) {
            Ok(_) => panic!("mismatched attempt must not unlock"),
            Err(l) => l,
        };
        assert!(locked.failed_attempts > before);
        assert_eq!(locked.failed_attempts, expected);
        assert_eq!(locked.pin, [3, 3]);
    }
    match locked.unlock([3, 3]) {
        Ok(unlocked) => assert_eq!(unlocked.failed_attempts, 10),
        Err(_) => panic!("matching attempt must unlock even after many failures"),
    }
}

#[test]
fn generate_pin_applies_the_formula() {
    assert_eq!(generate_pin(0, 0), [1, 1]);
    assert_eq!(generate_pin(3, 7), [4, 4]);
    assert_eq!(generate_pin(5, 6), [2, 3]);
    assert_eq!(generate_pin(u32::MAX, u32::MAX - 1), [4, 3]);
}

#[test]
fn generate_pin_stays_in_range() {
    for draw in [0u32, 1, 2, 3, 4, 17, 1000, u32::MAX] {
        let p = generate_pin(draw, draw.wrapping_add(13));
        assert!((1..=4).contains(&p[0]));
        assert!((1..=4).contains(&p[1]));
    }
}
