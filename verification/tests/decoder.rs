use linux_io::raw::unpack_standard_result;
use linux_io::raw::FIRST_ERROR_WORD;
use linux_io::raw::MAX_ERROR_CODE;

#[test]
fn minus_one_is_error_one() {
    assert_eq!(unpack_standard_result(-1i64 as u64), Err(1));
    assert_eq!(unpack_standard_result(0xffff_ffff_ffff_ffff), Err(1));
}

#[test]
fn minus_4095_is_error_4095() {
    assert_eq!(unpack_standard_result(-4095i64 as u64), Err(4095));
    assert_eq!(unpack_standard_result(0xffff_ffff_ffff_f001), Err(4095));
}

#[test]
fn minus_4096_is_a_success() {
    assert_eq!(unpack_standard_result(-4096i64 as u64), Ok(0xffff_ffff_ffff_f000));
}

#[test]
fn zero_is_a_success() {
    assert_eq!(unpack_standard_result(0), Ok(0));
}

#[test]
fn largest_positive_word_is_a_success() {
    assert_eq!(unpack_standard_result(i64::MAX as u64), Ok(0x7fff_ffff_ffff_ffff));
}

#[test]
fn most_negative_word_is_a_success() {
    assert_eq!(unpack_standard_result(i64::MIN as u64), Ok(0x8000_0000_0000_0000));
}

#[test]
fn every_error_code_has_its_word() {
    let mut code: i32 = 1;
    while code <= MAX_ERROR_CODE {
        let word = (-(code as i64)) as u64;
        assert_eq!(unpack_standard_result(word), Err(code));
        code += 1;
    }
}

#[test]
fn window_starts_at_its_first_word() {
    assert_eq!(FIRST_ERROR_WORD, -4095i64 as u64);
    assert_eq!(unpack_standard_result(FIRST_ERROR_WORD), Err(MAX_ERROR_CODE));
    assert_eq!(unpack_standard_result(FIRST_ERROR_WORD - 1), Ok(FIRST_ERROR_WORD - 1));
}

#[test]
fn small_counts_come_back_unchanged() {
    let mut word: u64 = 0;
    while word < 5000 {
        assert_eq!(unpack_standard_result(word), Ok(word));
        word += 1;
    }
}
