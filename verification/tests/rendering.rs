use risk_gate::decimal::{push_decimal, push_signed_decimal};
use risk_gate::risk::HaltReason;

fn unsigned(n: u64) -> String {
    let mut out = String::new();
    push_decimal(&mut out, n);
    out
}

fn signed(i: i64) -> String {
    let mut out = String::new();
    push_signed_decimal(&mut out, i);
    out
}

#[test]
fn zero_is_a_single_digit() {
    assert_eq!(unsigned(0), "0");
    assert_eq!(signed(0), "0");
}

#[test]
fn single_digits() {
    let digits = ["0", "1", "2", "3", "4", "5", "6", "7", "8", "9"];
    for (n, text) in digits.iter().enumerate() {
        assert_eq!(unsigned(n as u64), *text);
    }
}

#[test]
fn digits_come_most_significant_first() {
    assert_eq!(unsigned(10), "10");
    assert_eq!(unsigned(12345), "12345");
    assert_eq!(unsigned(9007199254740993), "9007199254740993");
    assert_eq!(unsigned(1000000), "1000000");
}

#[test]
fn the_largest_unsigned_number() {
    assert_eq!(unsigned(u64::MAX), "18446744073709551615");
}

#[test]
fn negative_numbers_carry_a_minus_sign() {
    assert_eq!(signed(-1), "-1");
    assert_eq!(signed(-1000), "-1000");
    assert_eq!(signed(250), "250");
}

#[test]
fn the_ends_of_the_signed_range() {
    assert_eq!(signed(i64::MIN), "-9223372036854775808");
    assert_eq!(signed(i64::MAX), "9223372036854775807");
}

#[test]
fn numbers_are_appended_to_what_is_there() {
    let mut out = String::from("x=");
    push_decimal(&mut out, 42);
    out.push_str(", y=");
    push_signed_decimal(&mut out, -7);
    assert_eq!(out, "x=42, y=-7");
}

#[test]
fn unsigned_notation_agrees_with_the_standard_formatter() {
    let mut n: u64 = 0;
    for step in 0..4000u64 {
        assert_eq!(unsigned(n), format!("{}", n));
        n = n.wrapping_mul(6364136223846793005).wrapping_add(step | 1);
    }
    for n in 0..2500u64 {
        assert_eq!(unsigned(n), format!("{}", n));
    }
    let mut power: u64 = 1;
    for _ in 0..19 {
        assert_eq!(unsigned(power - 1), format!("{}", power - 1));
        assert_eq!(unsigned(power), format!("{}", power));
        power *= 10;
    }
}

#[test]
fn signed_notation_agrees_with_the_standard_formatter() {
    let mut i: i64 = 0;
    for step in 0..4000i64 {
        assert_eq!(signed(i), format!("{}", i));
        i = i.wrapping_mul(6364136223846793005).wrapping_add(step | 1);
    }
    for i in -1200..1200i64 {
        assert_eq!(signed(i), format!("{}", i));
    }
}

#[test]
fn each_reason_has_its_own_message() {
    let floor = HaltReason::BalanceBelowMinimum { balance_cents: 5000, min_balance_cents: 10000 };
    let loss = HaltReason::DailyLossLimit { today_pnl_cents: -1000 };
    let streak = HaltReason::ConsecutiveLosses { losses: 3 };
    assert_eq!(floor.describe(), "Balance 5000¢ < 10000¢ minimum");
    assert_eq!(loss.describe(), "Daily loss: -1000¢");
    assert_eq!(streak.describe(), "3× consecutive losses");
}

#[test]
fn the_messages_use_the_cent_and_times_signs() {
    let floor = HaltReason::BalanceBelowMinimum { balance_cents: 1, min_balance_cents: 2 };
    let streak = HaltReason::ConsecutiveLosses { losses: 10 };
    assert_eq!(floor.describe().chars().filter(|c| *c == '\u{a2}').count(), 2);
    assert_eq!(streak.describe().chars().nth(2), Some('\u{d7}'));
    assert_eq!(floor.describe().chars().count(), 23);
}
