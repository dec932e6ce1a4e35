use user_service::combinations::{count_combinations, MAX_WORD_LENGTH};
use user_service::error::ComputeError;
use user_service::handlers::calculate_possible_combinations;
use user_service::outcome::Outcome;
use user_service::status::HttpStatus;

#[test]
fn one_letter_has_one_combination() {
    assert_eq!(count_combinations("a"), Ok(1));
}

#[test]
fn two_letters_have_two_combinations() {
    assert_eq!(count_combinations("ab"), Ok(2));
}

#[test]
fn four_letters_have_eight_combinations() {
    assert_eq!(count_combinations("abcd"), Ok(8));
}

#[test]
fn empty_word_is_invalid_input() {
    assert_eq!(count_combinations(""), Err(ComputeError::InvalidInput));
}

#[test]
fn longest_word_still_fits() {
    let word = "x".repeat(MAX_WORD_LENGTH);
    assert_eq!(count_combinations(&word), Ok(1_073_741_824));
}

#[test]
fn one_letter_more_overflows() {
    let word = "x".repeat(MAX_WORD_LENGTH + 1);
    assert_eq!(count_combinations(&word), Err(ComputeError::Overflow));
    let long = "y".repeat(1000);
    assert_eq!(count_combinations(&long), Err(ComputeError::Overflow));
}

#[test]
fn every_length_doubles_the_count() {
    let mut expected: i32 = 1;
    for n in 1..=MAX_WORD_LENGTH {
        let word = "z".repeat(n);
        assert_eq!(count_combinations(&word), Ok(expected));
        if n < MAX_WORD_LENGTH {
            expected *= 2;
        }
    }
}

#[test]
fn length_counts_scalar_values_not_bytes() {
    // three characters, seven bytes
    let word = "a\u{e9}\u{1f600}";
    assert_eq!(word.len(), 7);
    assert_eq!(count_combinations(word), Ok(4));
    // sixteen characters of two bytes each: thirty-two bytes, still in range
    let wide = "\u{e9}".repeat(16);
    assert_eq!(count_combinations(&wide), Ok(32_768));
}

#[test]
fn count_is_rendered_in_decimal() {
    assert_eq!(calculate_possible_combinations("abcd"), Outcome::Found("8".to_string()));
    assert_eq!(calculate_possible_combinations("a"), Outcome::Found("1".to_string()));
    let word = "x".repeat(31);
    assert_eq!(calculate_possible_combinations(&word), Outcome::Found("1073741824".to_string()));
}

#[test]
fn count_reply_has_the_success_envelope() {
    let reply = calculate_possible_combinations("ab").into_reply();
    assert_eq!(reply.status, HttpStatus::Success);
    let body = reply.body;
    assert_eq!(body.status, "Success");
    assert_eq!(body.status_code, "200 OK");
    assert_eq!(body.data, Some("2".to_string()));
}

#[test]
fn word_without_a_count_is_rejected() {
    assert_eq!(calculate_possible_combinations(""), Outcome::Rejected);
    let word = "x".repeat(32);
    assert_eq!(calculate_possible_combinations(&word), Outcome::Rejected);
    let reply = calculate_possible_combinations("").into_reply();
    assert_eq!(reply.status, HttpStatus::BadRequest);
    let body = reply.body;
    assert_eq!(body.status, "Bad Request");
    assert_eq!(body.status_code, "400 Bad Request");
    assert_eq!(body.data, None);
}
