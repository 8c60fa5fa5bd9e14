use fractal_visualization::config::{check_size, SizeError};

#[test]
fn default_size_is_accepted() {
    assert_eq!(check_size(1000, 800, 1000), Ok((1000, 800)));
    assert_eq!(check_size(4, 4, 50), Ok((4, 4)));
    assert_eq!(check_size(1, 1, 1), Ok((1, 1)));
}

#[test]
fn empty_picture_is_refused() {
    assert_eq!(check_size(0, 800, 1000), Err(SizeError::Empty));
    assert_eq!(check_size(1000, 0, 1000), Err(SizeError::Empty));
    assert_eq!(check_size(0, 0, 0), Err(SizeError::Empty));
}

#[test]
fn zero_cap_is_refused() {
    assert_eq!(check_size(4, 4, 0), Err(SizeError::NoIterations));
}

#[test]
fn oversized_picture_is_refused() {
    assert_eq!(check_size(u32::MAX as usize + 1, 1, 10), Err(SizeError::TooLarge));
    assert_eq!(check_size(1, u32::MAX as usize + 1, 10), Err(SizeError::TooLarge));
    let big = u32::MAX as usize;
    let expected = if (big * big).checked_mul(4).is_some() { Ok((u32::MAX, u32::MAX)) } else { Err(SizeError::TooLarge) };
    assert_eq!(check_size(big, big, 10), expected);
    assert_eq!(check_size(u32::MAX as usize, 2, 10), Ok((u32::MAX, 2)));
}
