use rukey::config::{
    ConfigKey, KeyboardInput, MappingMode, MouseInput, RukeyControl, RukeyInput,
};
use rukey::kdl_mapping::{kebab_to_pascal_case, keyboard_from_string_kebab};

#[test]
fn test_keyboard_from_string_kebab() {
    assert_eq!(
        keyboard_from_string_kebab("page-up").unwrap(),
        KeyboardInput::PageUp
    );
    assert_eq!(keyboard_from_string_kebab("a").unwrap(), KeyboardInput::A);
}

#[test]
fn keyboard_kebab_names_of_longer_keys() {
    assert_eq!(
        keyboard_from_string_kebab("top-row1-exclamation"),
        Some(KeyboardInput::TopRow1Exclamation)
    );
    assert_eq!(keyboard_from_string_kebab("f12"), Some(KeyboardInput::F12));
    assert_eq!(keyboard_from_string_kebab("LANG1"), Some(KeyboardInput::LANG1));
    assert_eq!(keyboard_from_string_kebab("no-such-key"), None);
    assert_eq!(keyboard_from_string_kebab(""), None);
}

#[test]
fn kebab_to_pascal_examples() {
    assert_eq!(kebab_to_pascal_case("page-up"), "PageUp");
    assert_eq!(kebab_to_pascal_case("on-press"), "OnPress");
    assert_eq!(kebab_to_pascal_case("macro-on-double-tap"), "MacroOnDoubleTap");
    assert_eq!(kebab_to_pascal_case(""), "");
    assert_eq!(kebab_to_pascal_case("a--b"), "A-b");
}

#[test]
fn config_keys() {
    assert_eq!(ConfigKey::Meta.key(), 0);
    assert_eq!(ConfigKey::ProfileCount.key(), 1);
    assert_eq!(ConfigKey::Profile(0).key(), 2);
    assert_eq!(ConfigKey::Profile(1).key(), 3);
    assert_eq!(ConfigKey::Profile(253).key(), 255);
}

#[test]
fn mapping_mode_from_string() {
    assert_eq!(MappingMode::from_string("OnPress", ""), Some(MappingMode::OnPress));
    assert_eq!(
        MappingMode::from_string("OnHold", "50"),
        Some(MappingMode::OnHold { hold_ms: 50 })
    );
    assert_eq!(MappingMode::from_string("OnHold", ""), None);
    assert_eq!(MappingMode::from_string("OnHold", "65536"), None);
    assert_eq!(
        MappingMode::from_string("MacroOnTap", "+007"),
        Some(MappingMode::MacroOnTap { tap_ms: 7 })
    );
    assert_eq!(MappingMode::from_string("MacroOnTap", "-1"), None);
    assert_eq!(
        MappingMode::from_string("MacroOnDoubleTap", "200"),
        Some(MappingMode::MacroOnDoubleTap { tap_ms: 200 })
    );
    assert_eq!(
        MappingMode::from_string("MacroOnHold", "65535"),
        Some(MappingMode::MacroOnHold { hold_ms: 65535 })
    );
    assert_eq!(MappingMode::from_string("Toggle", "x"), Some(MappingMode::Toggle));
    assert_eq!(MappingMode::from_string("on-press", ""), None);
}

#[test]
fn mapping_mode_is_macro() {
    assert!(!MappingMode::OnPress.is_macro());
    assert!(!MappingMode::OnHold { hold_ms: 1 }.is_macro());
    assert!(!MappingMode::Toggle.is_macro());
    assert!(MappingMode::MacroOnPress.is_macro());
    assert!(MappingMode::MacroOnRelease.is_macro());
    assert!(MappingMode::MacroOnTap { tap_ms: 1 }.is_macro());
    assert!(MappingMode::MacroOnDoubleTap { tap_ms: 1 }.is_macro());
    assert!(MappingMode::MacroOnHold { hold_ms: 1 }.is_macro());
}

#[test]
fn mouse_input_from_string() {
    assert_eq!(MouseInput::from_string("ScrollUp", "20"), Some(MouseInput::ScrollUp(20)));
    assert_eq!(MouseInput::from_string("scroll-up", "20"), Some(MouseInput::ScrollUp(20)));
    assert_eq!(MouseInput::from_string("move-left", "-5"), Some(MouseInput::MoveLeft(-5)));
    assert_eq!(MouseInput::from_string("MoveRight", "-32768"), Some(MouseInput::MoveRight(-32768)));
    assert_eq!(MouseInput::from_string("MoveRight", "32768"), None);
    assert_eq!(MouseInput::from_string("scroll-right", ""), None);
    assert_eq!(MouseInput::from_string("click-left", ""), Some(MouseInput::ClickLeft));
    assert_eq!(MouseInput::from_string("ClickMiddle", ""), Some(MouseInput::ClickMiddle));
    assert_eq!(MouseInput::from_string("click-middle ", ""), Some(MouseInput::ClickMiddle));
    assert_eq!(MouseInput::from_string("click-middle", ""), None);
    assert_eq!(MouseInput::from_string("click-right", ""), Some(MouseInput::ClickRight));
}

#[test]
fn rukey_control_from_string() {
    assert_eq!(
        RukeyControl::from_string("AfterMillisHold", "50"),
        Some(RukeyControl::AfterMillisHold(50))
    );
    assert_eq!(
        RukeyControl::from_string("AfterMillisRelease", "0"),
        Some(RukeyControl::AfterMillisRelease(0))
    );
    assert_eq!(RukeyControl::from_string("Restart", ""), Some(RukeyControl::Restart));
    assert_eq!(RukeyControl::from_string("SetProfile", "2"), Some(RukeyControl::SetProfile(2)));
    assert_eq!(RukeyControl::from_string("SetProfile", "256"), None);
    assert_eq!(RukeyControl::from_string("SetProfile", ""), None);
    assert_eq!(RukeyControl::from_string("set-profile", "1"), None);
}

#[test]
fn rukey_input_kebab_names() {
    assert_eq!(RukeyInput::from_string_kebab("row0-col0"), Some(RukeyInput::Row0Col0));
    assert_eq!(RukeyInput::from_string_kebab("row2-col13"), Some(RukeyInput::Row2Col13));
    assert_eq!(RukeyInput::from_string_kebab("row5-col9"), Some(RukeyInput::Row5Col9));
    assert_eq!(RukeyInput::from_string_kebab("row0-col99"), None);
    assert_eq!(RukeyInput::from_string_kebab("row6-col0"), None);
    assert_eq!(RukeyInput::from_string_kebab("row0-col01"), None);
    assert_eq!(RukeyInput::from_string_kebab("Row0Col0"), None);
    assert_eq!(RukeyInput::Row3Col12.row(), 3);
    assert_eq!(RukeyInput::Row3Col12.col(), 12);
    assert_eq!(RukeyInput::Row3Col12.index(), 54);
    assert_eq!(RukeyInput::from_index(83), RukeyInput::Row5Col13);
}

#[test]
fn every_kebab_name_reads_back() {
    for i in 0..84u8 {
        let x = RukeyInput::from_index(i);
        let name: String = x.kebab_name_chars().into_iter().collect();
        assert_eq!(RukeyInput::from_string_kebab(&name), Some(x));
    }
}

#[test]
fn keyboard_lists() {
    let common = KeyboardInput::common_iter();
    let obscure = KeyboardInput::obscure_iter();
    assert_eq!(common.len(), 93);
    assert_eq!(obscure.len(), 172 - 93);
    assert_eq!(common[0], KeyboardInput::RightArrow);
    assert_eq!(common[92], KeyboardInput::VolumeDown);
    assert_eq!(obscure[0], KeyboardInput::CapsLock);
    assert_eq!(obscure[1], KeyboardInput::ScrollLock);
    assert_eq!(obscure[78], KeyboardInput::MediaNextSong);
    for k in &obscure {
        assert!(!common.contains(k));
    }
}

#[test]
fn keyboard_names_and_codes() {
    assert_eq!(KeyboardInput::A.usage_code(), 0x04);
    assert_eq!(KeyboardInput::Enter.usage_code(), 0x28);
    assert_eq!(KeyboardInput::LeftControl.usage_code(), 0xE0);
    assert_eq!(KeyboardInput::MediaNextSong.usage_code(), 0xEB);
    assert_eq!(KeyboardInput::PageUp.name(), "PageUp");
    for i in 0..172u8 {
        let k = KeyboardInput::at(i);
        let chars: Vec<char> = k.name().chars().collect();
        assert_eq!(KeyboardInput::from_variant_name(&chars), Some(k));
    }
}

#[test]
fn defaults() {
    assert_eq!(MappingMode::default(), MappingMode::OnPress);
    assert_eq!(RukeyInput::default(), RukeyInput::Row0Col0);
    assert_eq!(MouseInput::default(), MouseInput::ClickLeft);
    assert_eq!(KeyboardInput::default(), KeyboardInput::A);
    assert_eq!(RukeyControl::default(), RukeyControl::Restart);
}

#[test]
fn mode_names_read_back() {
    let modes = [
        MappingMode::OnPress,
        MappingMode::OnHold { hold_ms: 50 },
        MappingMode::Toggle,
        MappingMode::MacroOnPress,
        MappingMode::MacroOnRelease,
        MappingMode::MacroOnTap { tap_ms: 0 },
        MappingMode::MacroOnDoubleTap { tap_ms: 65535 },
        MappingMode::MacroOnHold { hold_ms: 7 },
    ];
    let values = ["", "50", "", "", "", "0", "65535", "7"];
    for (m, v) in modes.iter().zip(values) {
        assert_eq!(MappingMode::from_string(m.name(), v), Some(*m));
    }
    assert_eq!(MappingMode::OnHold { hold_ms: 1 }.name(), "OnHold");
    assert_eq!(MappingMode::from_string(MappingMode::Toggle.name(), "junk"), Some(MappingMode::Toggle));
}

#[test]
fn pascal_case_is_stable() {
    for s in ["page-up", "macro-on-double-tap", "a", "top-row1-exclamation", "f12-"] {
        let once = kebab_to_pascal_case(s);
        assert!(!once.contains('-'));
        assert_eq!(once.chars().count(), s.chars().count() - s.matches('-').count());
        assert_eq!(kebab_to_pascal_case(&once), once);
    }
}
