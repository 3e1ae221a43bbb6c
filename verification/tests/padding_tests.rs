use tcping::digit_count;
use tcping::gen_filler;
use tcping::gen_spacer;

#[test]
fn test_get_spacer_size() {
    let test_cases = [
        ((1, 6), "".to_string()),
        ((1, 100000), "     ".to_string()),
        ((10, 1), "".to_string()),
    ];
    for test_case in test_cases {
        let ((seq_num, count), expected_result) = test_case;
        assert_eq!(gen_spacer(count, seq_num), expected_result)
    }
}

#[test]
fn test_gen_filler() {
    let test_cases = [
        (1, " ".to_string()),
        (0, "".to_string()),
        (10, "          ".to_string()),
    ];
    for test_case in test_cases {
        let (test, expected_result) = test_case;
        assert_eq!(gen_filler(test), expected_result)
    }
}

#[test]
fn test_digit_count() {
    assert_eq!(digit_count(0), 1);
    assert_eq!(digit_count(9), 1);
    assert_eq!(digit_count(10), 2);
    assert_eq!(digit_count(99), 2);
    assert_eq!(digit_count(100), 3);
    assert_eq!(digit_count(100000), 6);
}

#[test]
fn test_spacer_aligns_widths() {
    // Sequence number and count printed with the spacer between them line up
    // to the same width for every sequence number in the run.
    let count = 100000;
    for seq_num in [0, 1, 9, 10, 99, 100, 99999, 100000] {
        let line = format!("{}{}", seq_num, gen_spacer(count, seq_num));
        assert_eq!(line.len(), count.to_string().len());
    }
}
