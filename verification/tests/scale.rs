use rboy_desktop::scale::{check_scale, scale_of, validate_scale};

fn refusal(text: &str) -> String {
    validate_scale(text).unwrap_err()
}

#[test]
fn scales_within_limits() {
    for text in vec!["1", "2", "3", "4", "5", "6", "7", "8", "+8", "0003"] {
        assert_eq!(validate_scale(text), Ok(()));
    }
}

#[test]
fn scale_too_small() {
    assert_eq!(refusal("0"), "Scale must be at least 1");
    assert_eq!(refusal("+0"), "Scale must be at least 1");
}

#[test]
fn scale_too_large() {
    assert_eq!(refusal("9"), "Scale may be at most 8");
    assert_eq!(refusal("4294967295"), "Scale may be at most 8");
}

#[test]
fn scale_is_no_number() {
    let bad = vec!["", "+", "-1", "-0", "2x", " 2", "2 ", "two", "1.5", "++1", "4294967296", "\u{662}"];
    for text in bad {
        let error = text.parse::<u32>().unwrap_err();
        assert_eq!(refusal(text), format!("Could not parse scale: {}", error));
    }
    assert_eq!(
        refusal("two"),
        "Could not parse scale: invalid digit found in string"
    );
}

#[test]
fn decides_on_what_was_read() {
    assert_eq!(check_scale(Ok(1)), Ok(()));
    assert_eq!(check_scale(Ok(8)), Ok(()));
    assert_eq!(check_scale(Ok(0)), Err("Scale must be at least 1".to_owned()));
    assert_eq!(check_scale(Ok(9)), Err("Scale may be at most 8".to_owned()));
    assert_eq!(
        check_scale(Err("no".to_owned())),
        Err("Could not parse scale: no".to_owned())
    );
}

#[test]
fn scale_that_is_taken() {
    assert_eq!(scale_of(None), 2);
    assert_eq!(scale_of(Some("1")), 1);
    assert_eq!(scale_of(Some("+7")), 7);
    assert_eq!(scale_of(Some("0008")), 8);
    assert_eq!(scale_of(Some("4294967295")), 4294967295);
}
