use std::collections::HashMap;

use hoi_mod_editor::effects::{
    enable_mica_alt, set_immersive_dark_mode, AttributeWrite, WindowAttribute, WindowEffects,
    MICA_ALT,
};
use hoi_mod_editor::theme::{set_theme, setup, MAIN_WINDOW, WINDOW_NOT_FOUND};

fn perform(window: &mut HashMap<WindowAttribute, i32>, writes: &[AttributeWrite]) {
    for write in writes {
        window.insert(write.attribute, write.value);
    }
}

#[test]
fn mica_alt_write_carries_the_style_code() {
    let write = enable_mica_alt();
    assert_eq!(write.attribute, WindowAttribute::SystemBackdrop);
    assert_eq!(write.value, 2);
    assert_eq!(MICA_ALT, 2);
}

#[test]
fn dark_mode_write_carries_the_flag_as_an_integer() {
    assert_eq!(
        set_immersive_dark_mode(true),
        AttributeWrite { attribute: WindowAttribute::ImmersiveDarkMode, value: 1 }
    );
    assert_eq!(
        set_immersive_dark_mode(false),
        AttributeWrite { attribute: WindowAttribute::ImmersiveDarkMode, value: 0 }
    );
}

#[test]
fn the_window_is_called_main() {
    assert_eq!(MAIN_WINDOW, "main");
}

#[test]
fn set_theme_dark_with_window() {
    assert_eq!(
        set_theme(true, WindowEffects::Supported, true),
        Ok(vec![
            AttributeWrite { attribute: WindowAttribute::ImmersiveDarkMode, value: 1 },
            AttributeWrite { attribute: WindowAttribute::SystemBackdrop, value: 2 },
        ])
    );
}

#[test]
fn set_theme_light_with_window() {
    assert_eq!(
        set_theme(false, WindowEffects::Supported, true),
        Ok(vec![
            AttributeWrite { attribute: WindowAttribute::ImmersiveDarkMode, value: 0 },
            AttributeWrite { attribute: WindowAttribute::SystemBackdrop, value: 2 },
        ])
    );
}

#[test]
fn set_theme_sets_dark_mode_before_the_backdrop() {
    for dark in [false, true] {
        let writes = set_theme(dark, WindowEffects::Supported, true).unwrap();
        assert_eq!(writes.len(), 2);
        assert_eq!(writes[0], set_immersive_dark_mode(dark));
        assert_eq!(writes[1], enable_mica_alt());
    }
}

#[test]
fn set_theme_without_window_mentions_main() {
    let outcome = set_theme(true, WindowEffects::Supported, false);
    let message = outcome.unwrap_err();
    assert_eq!(message, "未找到窗口 main");
    assert_eq!(message, WINDOW_NOT_FOUND);
    assert!(message.contains("main"));
    assert!(message.contains(MAIN_WINDOW));
}

#[test]
fn set_theme_without_window_fails_for_either_flag() {
    assert_eq!(
        set_theme(false, WindowEffects::Supported, false),
        Err(String::from("未找到窗口 main"))
    );
    assert_eq!(
        set_theme(true, WindowEffects::Supported, false),
        set_theme(false, WindowEffects::Supported, false)
    );
}

#[test]
fn set_theme_with_window_succeeds_for_either_flag() {
    for effects in [WindowEffects::Supported, WindowEffects::Unsupported] {
        for dark in [false, true] {
            assert!(set_theme(dark, effects, true).is_ok());
        }
    }
}

#[test]
fn set_theme_false_twice_in_a_row() {
    let first = set_theme(false, WindowEffects::Supported, true);
    let second = set_theme(false, WindowEffects::Supported, true);
    assert!(first.is_ok());
    assert_eq!(first, second);

    let mut window = HashMap::new();
    perform(&mut window, &first.unwrap());
    let after_first = window.clone();
    perform(&mut window, &second.unwrap());
    assert_eq!(window, after_first);
    assert_eq!(window.get(&WindowAttribute::ImmersiveDarkMode), Some(&0));
    assert_eq!(window.get(&WindowAttribute::SystemBackdrop), Some(&2));
}

#[test]
fn set_theme_again_leaves_the_window_as_it_was() {
    for dark in [false, true] {
        let mut window = HashMap::new();
        window.insert(WindowAttribute::ImmersiveDarkMode, if dark { 0 } else { 1 });
        perform(&mut window, &set_theme(dark, WindowEffects::Supported, true).unwrap());
        let once = window.clone();
        perform(&mut window, &set_theme(dark, WindowEffects::Supported, true).unwrap());
        assert_eq!(window, once);
        assert_eq!(window.get(&WindowAttribute::ImmersiveDarkMode), Some(&i32::from(dark)));
    }
}

#[test]
fn set_theme_unsupported_always_succeeds_and_writes_nothing() {
    for dark in [false, true] {
        for window_found in [false, true] {
            assert_eq!(set_theme(dark, WindowEffects::Unsupported, window_found), Ok(vec![]));
        }
    }
}

#[test]
fn setup_without_window_writes_nothing() {
    assert_eq!(setup(WindowEffects::Supported, false), vec![]);
    assert_eq!(setup(WindowEffects::Unsupported, false), vec![]);
}

#[test]
fn setup_with_window_applies_the_backdrop_once() {
    assert_eq!(
        setup(WindowEffects::Supported, true),
        vec![AttributeWrite { attribute: WindowAttribute::SystemBackdrop, value: 2 }]
    );
}

#[test]
fn setup_unsupported_writes_nothing() {
    assert_eq!(setup(WindowEffects::Unsupported, true), vec![]);
}
