use intes::decimal::i32_to_decimal_string;
use intes::events::SyntheticEvent;

#[test]
fn synthetic_codes_are_fixed() {
    assert_eq!(SyntheticEvent::MouseMove.code(), 60);
    assert_eq!(SyntheticEvent::MouseDown.code(), 61);
    assert_eq!(SyntheticEvent::MouseUp.code(), 62);
    assert_eq!(SyntheticEvent::MouseOut.code(), 63);
    assert_eq!(SyntheticEvent::MouseIn.code(), 65);
    assert_eq!(SyntheticEvent::Button1Click.code(), 66);
    assert_eq!(SyntheticEvent::Button2Click.code(), 67);
}

#[test]
fn synthetic_codes_lie_outside_native_range() {
    let all = [
        SyntheticEvent::MouseMove,
        SyntheticEvent::MouseDown,
        SyntheticEvent::MouseUp,
        SyntheticEvent::MouseOut,
        SyntheticEvent::MouseIn,
        SyntheticEvent::Button1Click,
        SyntheticEvent::Button2Click,
    ];
    for e in all {
        assert!(e.code() >= intes::events::FIRST_SYNTHETIC_CODE);
    }
    for i in 0..all.len() {
        for j in 0..all.len() {
            if i != j {
                assert_ne!(all[i].code(), all[j].code());
            }
        }
    }
}

#[test]
fn from_code_inverts_code() {
    let all = [
        SyntheticEvent::MouseMove,
        SyntheticEvent::MouseDown,
        SyntheticEvent::MouseUp,
        SyntheticEvent::MouseOut,
        SyntheticEvent::MouseIn,
        SyntheticEvent::Button1Click,
        SyntheticEvent::Button2Click,
    ];
    for e in all {
        assert_eq!(SyntheticEvent::from_code(e.code()), Some(e));
    }
    assert_eq!(SyntheticEvent::from_code(64), None);
    assert_eq!(SyntheticEvent::from_code(59), None);
    assert_eq!(SyntheticEvent::from_code(0), None);
    assert_eq!(SyntheticEvent::from_code(-61), None);
}

#[test]
fn decimal_rendering_is_exact() {
    assert_eq!(i32_to_decimal_string(0), "0".to_string());
    assert_eq!(i32_to_decimal_string(7), "7".to_string());
    assert_eq!(i32_to_decimal_string(10), "10".to_string());
    assert_eq!(i32_to_decimal_string(120), "120".to_string());
    assert_eq!(i32_to_decimal_string(-5), "-5".to_string());
    assert_eq!(i32_to_decimal_string(-80), "-80".to_string());
    assert_eq!(i32_to_decimal_string(i32::MAX), "2147483647".to_string());
    assert_eq!(i32_to_decimal_string(i32::MIN), "-2147483648".to_string());
}
