//! The sobriety test.

use pam_kv::constants::PamResultCode;
use pam_kv::sober::{read_answer, write_decimal, Challenge, PamSober};

fn answer(text: &str) -> Result<Option<Vec<u8>>, PamResultCode> {
    Ok(Some(text.as_bytes().to_vec()))
}

#[test]
fn numbers_are_written_in_decimal() {
    assert_eq!(write_decimal(0), "0");
    assert_eq!(write_decimal(7), "7");
    assert_eq!(write_decimal(10), "10");
    assert_eq!(write_decimal(42), "42");
    assert_eq!(write_decimal(99), "99");
    assert_eq!(write_decimal(100), "100");
    assert_eq!(write_decimal(907), "907");
    assert_eq!(write_decimal(999), "999");
    assert_eq!(write_decimal(1000), "1000");
    assert_eq!(write_decimal(4294967295), "4294967295");
}

#[test]
fn written_numbers_agree_with_the_standard_library() {
    for n in 0..2000u32 {
        assert_eq!(write_decimal(n), n.to_string());
    }
    for n in [9999u32, 10000, 65535, 65536, 999999999, 1000000000, u32::MAX - 1, u32::MAX] {
        assert_eq!(write_decimal(n), n.to_string());
        assert_eq!(read_answer(&write_decimal(n)), Some(n));
    }
}

#[test]
fn answers_are_read_as_decimal_numbers() {
    assert_eq!(read_answer("0"), Some(0));
    assert_eq!(read_answer("42"), Some(42));
    assert_eq!(read_answer("+42"), Some(42));
    assert_eq!(read_answer("007"), Some(7));
    assert_eq!(read_answer("4294967295"), Some(u32::MAX));
    assert_eq!(read_answer("+0004294967295"), Some(u32::MAX));
}

#[test]
fn what_is_no_number_is_no_answer() {
    for text in ["", "+", "-1", "-0", "++1", "+-1", " 1", "1 ", "1.0", "1e2", "0x10", "1_000", "١٢",
        "4294967296", "99999999999999999999999", "12a", "a12"]
    {
        assert_eq!(read_answer(text), None);
    }
}

#[test]
fn answers_are_read_as_the_standard_library_reads_them() {
    for text in ["", "+", "-", "0", "+0", "-0", "12", "+12", "0012", "4294967295", "4294967296",
        "42949672950", "1+", "1 2", "٣", "+٣", "18446744073709551616"]
    {
        assert_eq!(read_answer(text), text.parse::<u32>().ok());
    }
    for n in [0u32, 1, 9, 10, 99, 198, 1000, 65535, 4294967294, u32::MAX] {
        assert_eq!(read_answer(&n.to_string()), Some(n));
    }
}

#[test]
fn a_challenge_reduces_its_draws_below_one_hundred() {
    let challenge = Challenge::from_draws(1234, 99);
    assert_eq!(challenge.sum(), 34 + 99);
    assert_eq!(challenge.prompt(), "34 + 99 = ");
    let challenge = Challenge::from_draws(u32::MAX, 100);
    assert_eq!(challenge.sum(), 95);
    assert_eq!(challenge.prompt(), "95 + 0 = ");
}

#[test]
fn a_random_challenge_asks_for_a_sum_below_199() {
    for _ in 0..200 {
        let challenge = Challenge::random();
        let sum = challenge.sum();
        assert!(sum <= 198);
        assert!(challenge.accepts(&sum.to_string()));
        assert!(!challenge.accepts(&(sum + 1).to_string()));
        assert!(challenge.prompt().ends_with(" = "));
    }
}

#[test]
fn random_challenges_differ() {
    let first = Challenge::random().prompt();
    let mut differs = false;
    for _ in 0..64 {
        if Challenge::random().prompt() != first {
            differs = true;
        }
    }
    assert!(differs);
}

#[test]
fn only_the_sum_is_accepted() {
    let challenge = Challenge::from_draws(17, 25);
    assert!(challenge.accepts("42"));
    assert!(challenge.accepts("+42"));
    assert!(challenge.accepts("042"));
    assert!(!challenge.accepts("41"));
    assert!(!challenge.accepts("43"));
    assert!(!challenge.accepts("17"));
    assert!(!challenge.accepts("42 "));
    assert!(!challenge.accepts("forty-two"));
    assert!(!challenge.accepts(""));
}

#[test]
fn the_hook_judges_the_answer() {
    let challenge = Challenge::from_draws(17, 25);
    assert_eq!(PamSober::sm_authenticate(&challenge, answer("42")), PamResultCode::PAM_SUCCESS);
    assert_eq!(PamSober::sm_authenticate(&challenge, answer("24")), PamResultCode::PAM_AUTH_ERR);
    assert_eq!(PamSober::sm_authenticate(&challenge, answer("many")), PamResultCode::PAM_AUTH_ERR);
    assert_eq!(PamSober::sm_authenticate(&challenge, Ok(None)), PamResultCode::PAM_AUTH_ERR);
    assert_eq!(
        PamSober::sm_authenticate(&challenge, Ok(Some(vec![0x34, 0x32, 0xff]))),
        PamResultCode::PAM_AUTH_ERR
    );
    assert_eq!(
        PamSober::sm_authenticate(&challenge, Err(PamResultCode::PAM_CONV_ERR)),
        PamResultCode::PAM_CONV_ERR
    );
}

#[test]
fn success_needs_the_right_sum() {
    let challenge = Challenge::from_draws(17, 25);
    assert_eq!(
        PamSober::sm_authenticate(&challenge, Err(PamResultCode::PAM_SUCCESS)),
        PamResultCode::PAM_SERVICE_ERR
    );
    for n in 0..200u32 {
        let code = PamSober::sm_authenticate(&challenge, answer(&n.to_string()));
        assert_eq!(code == PamResultCode::PAM_SUCCESS, n == 42);
    }
}

#[test]
fn the_user_is_asked_for_the_sum_with_echo() {
    let challenge = Challenge::from_draws(17, 25);
    let (style, text) = PamSober::prompt(&challenge);
    assert_eq!(style, pam_kv::constants::PAM_PROMPT_ECHO_ON);
    assert_eq!(style, 2);
    assert_eq!(text, "17 + 25 = ");
}
