use randid::randid_i32;
use randid::randid_str;

fn is_alphanumeric_ascii(c: char) -> bool {
    c.is_ascii_digit() || c.is_ascii_uppercase() || c.is_ascii_lowercase()
}

#[test]
fn rand_str_len() {
    let result: String = randid_str(10);

    assert_eq!(10, result.len());
}

#[test]
fn rand_int_range() {
    let (min, max): (i32, i32) = (0, 99999999);

    let result: i32 = randid_i32(8).parse().unwrap();

    assert!(min <= result);
    assert!(result <= max);
}

#[test]
fn alphanumeric_zero_length() {
    assert_eq!(randid_str(0), "");
}

#[test]
fn padded_zero_length() {
    assert_eq!(randid_i32(0), "");
}

#[test]
fn non_positive_length_is_empty() {
    assert_eq!(randid_str(-3), "");
    assert_eq!(randid_i32(-1), "");
}

#[test]
fn alphanumeric_five_pattern() {
    let result: String = randid_str(5);

    assert_eq!(5, result.chars().count());
    assert!(result.chars().all(is_alphanumeric_ascii));
}

#[test]
fn padded_five_pattern() {
    let result: String = randid_i32(5);

    assert_eq!(5, result.chars().count());
    assert!(result.chars().all(|c| c.is_ascii_digit()));
}

#[test]
fn padded_single_digit() {
    let result: String = randid_i32(1);
    let digit: char = result.chars().next().unwrap();

    assert_eq!(1, result.chars().count());
    assert!(('0'..='9').contains(&digit));
}

#[test]
fn alphanumeric_distribution() {
    let alphabet: Vec<char> = ('0'..='9').chain('A'..='Z').chain('a'..='z').collect();
    let mut counts: Vec<usize> = vec![0; 62];
    let samples: usize = 100_000;

    for _ in 0..samples {
        let s: String = randid_str(1);
        let c: char = s.chars().next().unwrap();
        let pos: usize = alphabet.iter().position(|&a| a == c).unwrap();
        counts[pos] += 1;
    }

    // Uniform expectation is about 1613 per symbol; a factor-two band catches
    // any symbol that is dropped or heavily skewed.
    for &count in &counts {
        assert!(count >= 800);
        assert!(count <= 3300);
    }
}

#[test]
fn digit_distribution() {
    let mut counts: Vec<usize> = vec![0; 10];
    let samples: usize = 100_000;

    for _ in 0..samples {
        let s: String = randid_i32(1);
        let c: char = s.chars().next().unwrap();
        let pos: usize = c.to_digit(10).unwrap() as usize;
        counts[pos] += 1;
    }

    // Uniform expectation is 10000 per digit; this band specifically catches
    // an off-by-one that would drop the digit 9.
    for &count in &counts {
        assert!(count >= 8500);
        assert!(count <= 11500);
    }
}

#[test]
fn alphanumeric_non_determinism() {
    let first: String = randid_str(16);
    let mut all_identical: bool = true;

    for _ in 0..999 {
        if randid_str(16) != first {
            all_identical = false;
        }
    }

    assert!(!all_identical);
}
