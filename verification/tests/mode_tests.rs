use ch::mode::ModeChange;
use ch::options::get_mode_change;

#[test]
fn test_new_from_octal() {
    let option = ModeChange::new("0644");
    assert!(option.is_some());
    let mode_change = option.unwrap();
    assert_eq!(0o0644, mode_change.additive);
    assert_eq!(0o7777, mode_change.subtractive);
}

#[test]
fn test_new_from_decimal() {
    let option = ModeChange::new("944");
    assert!(option.is_none());
}

#[test]
fn test_apply() {
    let mode_change = ModeChange::new("0754").unwrap();
    assert_eq!(0o10_0754, mode_change.apply(0o10_7777));
    assert_eq!(0o04_0754, mode_change.apply(0o04_0777));
    assert_eq!(0o10_0754, mode_change.apply(0o10_0755));
    assert_eq!(0o01_0754, mode_change.apply(0o01_0644));
    assert_eq!(0o17_0754, mode_change.apply(0o17_0000));
}

#[test]
fn test_get_mode_change_ok() {
    let mode_str = "0754";
    let result = get_mode_change(mode_str);
    assert!(result.is_ok());
    let mode_change = result.unwrap();
    assert_eq!(0o0754, mode_change.apply(0o0000));
    assert_eq!(0o0754, mode_change.apply(0o7777));
}

#[test]
fn test_get_mode_change_err() {
    let mode_str = "fubar";
    let result = get_mode_change(mode_str);
    assert!(result.is_err());
    let error = result.unwrap_err();
    assert_eq!("fubar: invalid mode", error);
}

#[test]
fn test_new_rejects_empty() {
    assert!(ModeChange::new("").is_none());
}

#[test]
fn test_new_rejects_sign_and_spaces() {
    assert!(ModeChange::new("+644").is_none());
    assert!(ModeChange::new(" 644").is_none());
    assert!(ModeChange::new("644 ").is_none());
}

#[test]
fn test_new_rejects_overflow() {
    // 13 octal digits exceed a 32-bit mode value
    assert!(ModeChange::new("7777777777777").is_none());
    // the largest value that still fits
    let mode_change = ModeChange::new("37777777777").unwrap();
    assert_eq!(u32::MAX, mode_change.additive);
}

#[test]
fn test_apply_is_idempotent() {
    let mode_change = ModeChange::new("0754").unwrap();
    let once = mode_change.apply(0o10_0644);
    assert_eq!(once, mode_change.apply(once));
    let zero = ModeChange::new("0").unwrap();
    let once = zero.apply(0o17_7777);
    assert_eq!(once, zero.apply(once));
}

#[test]
fn test_apply_mode_string_scenario() {
    // additive 0o754, subtractive 0o7777 applied to 0o100644
    let mode_change = ModeChange::new("0754").unwrap();
    assert_eq!(0o754, mode_change.additive);
    assert_eq!(0o7777, mode_change.subtractive);
    assert_eq!(0o100754, mode_change.apply(0o100644));
}
