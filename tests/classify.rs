use prime_reply::{classify, classify_bytes, is_ascii_space, is_nice_prime, parse_decimal, Classification};

fn reply() -> Classification {
    Classification::Reply("nice prime".to_string())
}

#[test]
fn bot_author_is_never_answered() {
    assert_eq!(classify(true, "11"), Classification::NoReply);
    assert_eq!(classify(true, "hello 97 world"), Classification::NoReply);
    assert_eq!(classify(true, "18446744073709551557"), Classification::NoReply);
    assert_eq!(classify(true, ""), Classification::NoReply);
}

#[test]
fn empty_text_gets_no_reply() {
    assert_eq!(classify(false, ""), Classification::NoReply);
}

#[test]
fn small_primes_are_ignored() {
    assert_eq!(classify(false, "7 3 5"), Classification::NoReply);
    assert_eq!(classify(false, "2"), Classification::NoReply);
    assert_eq!(classify(false, "10"), Classification::NoReply);
}

#[test]
fn eleven_gets_a_reply() {
    assert_eq!(classify(false, "11"), reply());
}

#[test]
fn twelve_is_composite() {
    assert_eq!(classify(false, "12"), Classification::NoReply);
}

#[test]
fn words_around_a_prime_are_ignored() {
    assert_eq!(classify(false, "hello 97 world"), reply());
}

#[test]
fn repeated_whitespace_collapses() {
    assert_eq!(classify(false, "  10   11  "), reply());
}

#[test]
fn classify_twice_gives_the_same_result() {
    for text in ["", "11", "12", "hello 97 world", "7 3 5", "  10   11  "] {
        for bot in [false, true] {
            assert_eq!(classify(bot, text), classify(bot, text));
        }
    }
}

#[test]
fn other_ascii_whitespace_separates_words() {
    assert_eq!(classify(false, "a\t13\nb"), reply());
    assert_eq!(classify(false, "x\r\n17\x0c"), reply());
    assert_eq!(classify(false, "abc13"), Classification::NoReply);
    assert_eq!(classify(false, "13abc"), Classification::NoReply);
}

#[test]
fn vertical_tab_is_not_a_separator() {
    assert_eq!(classify(false, "\x0b13"), Classification::NoReply);
    assert!(!is_ascii_space(0x0b));
    assert!(is_ascii_space(b' '));
    assert!(is_ascii_space(b'\t'));
    assert!(is_ascii_space(b'\n'));
    assert!(is_ascii_space(0x0c));
    assert!(is_ascii_space(b'\r'));
    assert!(!is_ascii_space(b'1'));
}

#[test]
fn non_ascii_text_around_a_prime() {
    assert_eq!(classify(false, "café 13 ünïcödé"), reply());
    assert_eq!(classify(false, "\u{00a0}13"), Classification::NoReply);
}

#[test]
fn signed_and_decorated_numbers_are_not_read() {
    assert_eq!(classify(false, "+11"), Classification::NoReply);
    assert_eq!(classify(false, "-11"), Classification::NoReply);
    assert_eq!(classify(false, "11."), Classification::NoReply);
    assert_eq!(classify(false, "1_1"), Classification::NoReply);
}

#[test]
fn leading_zeros_are_read() {
    assert_eq!(classify(false, "0011"), reply());
    assert_eq!(classify(false, "0007"), Classification::NoReply);
}

#[test]
fn largest_prime_below_two_to_the_sixty_four() {
    assert_eq!(classify(false, "18446744073709551557"), reply());
    assert_eq!(classify(false, "18446744073709551615"), Classification::NoReply);
    assert_eq!(classify(false, "18446744073709551629"), Classification::NoReply);
}

#[test]
fn bytes_are_classified_like_text() {
    assert_eq!(classify_bytes(false, b"hello 97 world"), reply());
    assert_eq!(classify_bytes(false, b"96 98"), Classification::NoReply);
    assert_eq!(classify_bytes(true, b"97"), Classification::NoReply);
}

#[test]
fn parse_decimal_reads_digits_only() {
    assert_eq!(parse_decimal(b"0"), Some(0));
    assert_eq!(parse_decimal(b"12"), Some(12));
    assert_eq!(parse_decimal(b"007"), Some(7));
    assert_eq!(parse_decimal(b"18446744073709551615"), Some(u64::MAX));
    assert_eq!(parse_decimal(b"18446744073709551616"), None);
    assert_eq!(parse_decimal(b"99999999999999999999999"), None);
    assert_eq!(parse_decimal(b""), None);
    assert_eq!(parse_decimal(b"+1"), None);
    assert_eq!(parse_decimal(b"1a"), None);
    assert_eq!(parse_decimal(b" 1"), None);
}

fn prime_by_trial_division(n: u64) -> bool {
    if n < 2 {
        return false;
    }
    let mut d: u64 = 2;
    while d * d <= n {
        if n % d == 0 {
            return false;
        }
        d += 1;
    }
    true
}

#[test]
fn nice_prime_agrees_with_trial_division() {
    for n in 0..20_000u64 {
        assert_eq!(is_nice_prime(n), n > 10 && prime_by_trial_division(n), "n = {}", n);
    }
    for n in (u32::MAX as u64 - 500)..(u32::MAX as u64 + 500) {
        assert_eq!(is_nice_prime(n), prime_by_trial_division(n), "n = {}", n);
    }
}

#[test]
fn nice_prime_on_large_values() {
    assert!(is_nice_prime(18446744073709551557));
    assert!(!is_nice_prime(u64::MAX));
    assert!(!is_nice_prime(4294967291 * 4294967279));
    assert!(is_nice_prime(4294967291));
    // strong pseudoprimes to several small bases
    assert!(!is_nice_prime(3215031751));
    assert!(!is_nice_prime(3825123056546413051));
}
