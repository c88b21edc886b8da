use rukey::collections::Nickname;
use rukey::config::{
    ComputerInput, Config, Device, KeyboardInput, MappingMode, Meta, MouseInput, PinRemapping,
    RukeyControl, RukeyInput,
};
use rukey::config_kdl::{
    parse_kdl, read_config, read_config_text, read_device, read_nickname, read_pin_remapping, read_u32, ConfigField,
    ConfigNode,
};
use rukey::kdl_mapping::{Diagnostic, Entry, EntryValue, SourceSpan};

fn span(offset: usize, len: usize) -> SourceSpan {
    SourceSpan { offset, len }
}

fn text(s: &str, offset: usize) -> Entry {
    Entry {
        value: EntryValue::Text(s.to_string()),
        span: span(offset, s.len()),
        debug: format!("String({s:?})"),
    }
}

fn integer(n: i128, offset: usize) -> Entry {
    Entry {
        value: EntryValue::Integer(n),
        span: span(offset, n.to_string().len()),
        debug: format!("Integer({n})"),
    }
}

/// A node whose words follow its name, one space apart, starting at `offset`.
fn node(name: &str, words: &[&str], offset: usize, children: Vec<ConfigNode>) -> ConfigNode {
    let mut entries = Vec::new();
    let mut at = offset + name.len() + 1;
    for w in words {
        if let Some(hex) = w.strip_prefix("0x") {
            entries.push(integer(i128::from_str_radix(hex, 16).unwrap(), at));
        } else if let Ok(n) = w.parse::<i128>() {
            entries.push(integer(n, at));
        } else {
            entries.push(text(w, at));
        }
        at += w.len() + 1;
    }
    ConfigNode {
        name: name.to_string(),
        name_span: span(offset, name.len()),
        span: span(offset, at - 1 - offset),
        entries,
        children,
    }
}

fn leaf(name: &str, words: &[&str], offset: usize) -> ConfigNode {
    node(name, words, offset, Vec::new())
}

fn messages(diagnostics: &[Diagnostic]) -> Vec<String> {
    diagnostics.iter().map(|d| d.message.clone()).collect()
}

fn mapping_line(words: &[&str], offset: usize) -> ConfigNode {
    leaf("-", words, offset)
}

/// The configuration the example file describes.
fn example_nodes() -> Vec<ConfigNode> {
    let mappings = vec![
        mapping_line(&["on-press", ":", "row0-col0", "->", "mouse-scroll-up", "20"], 200),
        mapping_line(&["on-press", ":", "row0-col1", "->", "mouse-scroll-down", "20"], 300),
        mapping_line(&["on-press", ":", "row0-col2", "->", "mouse-scroll-left", "20"], 400),
        mapping_line(&["on-press", ":", "row0-col3", "->", "mouse-scroll-right", "20"], 500),
        mapping_line(&["on-press", ":", "row1-col0", "->", "keyboard-page-up"], 600),
        mapping_line(&["on-press", ":", "row1-col1", "->", "keyboard-page-down"], 700),
        mapping_line(
            &[
                "on-hold", "50", ":", "row1-col0", "+", "row1-col1", "->", "after-millis-hold", "50",
                "+", "set-profile", "2",
            ],
            800,
        ),
    ];
    vec![
        leaf("version", &["0"], 0),
        leaf("device", &["rukey"], 10),
        leaf("nickname", &["My rukey"], 20),
        leaf("color", &["0xFF0000"], 40),
        node(
            "pin-remappings",
            &[],
            60,
            vec![leaf("-", &["row2-col0", "3"], 80), leaf("-", &["row2-col1", "20"], 100)],
        ),
        node(
            "profiles",
            &[],
            150,
            vec![node("-", &[], 160, vec![node("mappings", &[], 170, mappings)])],
        ),
    ]
}

#[test]
fn example_config_reads_back() {
    let mut diagnostics = Vec::new();
    let config = read_config(&example_nodes(), &mut diagnostics);
    assert!(diagnostics.is_empty(), "{:?}", messages(&diagnostics));
    assert_eq!(config.meta.version, 0);
    assert_eq!(config.meta.device, Device::Rukey);
    assert_eq!(config.meta.nickname.as_str(), "My rukey");
    assert_eq!(config.meta.color, 0xFF0000);
    assert_eq!(
        config.meta.pin_remappings.as_slice(),
        &[
            PinRemapping { input: RukeyInput::Row2Col0, pin: 3 },
            PinRemapping { input: RukeyInput::Row2Col1, pin: 20 },
        ]
    );
    let profiles = config.profiles.as_slice();
    assert_eq!(profiles.len(), 1);
    let mappings = profiles[0].mappings.as_slice();
    assert_eq!(mappings.len(), 7);
    let expected_outputs = [
        ComputerInput::Mouse(MouseInput::ScrollUp(20)),
        ComputerInput::Mouse(MouseInput::ScrollDown(20)),
        ComputerInput::Mouse(MouseInput::ScrollLeft(20)),
        ComputerInput::Mouse(MouseInput::ScrollRight(20)),
        ComputerInput::Keyboard(KeyboardInput::PageUp),
        ComputerInput::Keyboard(KeyboardInput::PageDown),
    ];
    let expected_inputs = [
        RukeyInput::Row0Col0,
        RukeyInput::Row0Col1,
        RukeyInput::Row0Col2,
        RukeyInput::Row0Col3,
        RukeyInput::Row1Col0,
        RukeyInput::Row1Col1,
    ];
    for k in 0..6 {
        assert_eq!(mappings[k].input_set.as_slice(), &[expected_inputs[k]]);
        assert_eq!(mappings[k].mode, MappingMode::OnPress);
        assert_eq!(mappings[k].output_sequence.as_slice(), &[expected_outputs[k]]);
    }
    assert_eq!(
        mappings[6].input_set.as_slice(),
        &[RukeyInput::Row1Col0, RukeyInput::Row1Col1]
    );
    assert_eq!(mappings[6].mode, MappingMode::OnHold { hold_ms: 50 });
    assert_eq!(
        mappings[6].output_sequence.as_slice(),
        &[
            ComputerInput::Control(RukeyControl::AfterMillisHold(50)),
            ComputerInput::Control(RukeyControl::SetProfile(2)),
        ]
    );
}

#[test]
fn nickname_of_the_wrong_kind_is_reported_at_the_node() {
    let nodes = vec![leaf("version", &["0"], 0), leaf("nickname", &["5"], 10)];
    let mut diagnostics = Vec::new();
    let config = read_config(&nodes, &mut diagnostics);
    assert_eq!(messages(&diagnostics), vec!["Expected type String but was Integer"]);
    assert_eq!(diagnostics[0].span, span(10, 10));
    assert_eq!(config.meta.nickname.as_str(), "");
}

#[test]
fn missing_fields_keep_their_defaults() {
    let mut diagnostics = Vec::new();
    let config = read_config(&[], &mut diagnostics);
    assert!(diagnostics.is_empty());
    assert_eq!(config.meta.version, 0);
    assert_eq!(config.meta.color, 0);
    assert_eq!(config.meta.nickname.as_str(), "");
    assert_eq!(config.meta.device, Device::Rukey);
    assert!(config.meta.pin_remappings.as_slice().is_empty());
    assert!(config.profiles.as_slice().is_empty());
}

#[test]
fn the_last_node_of_a_field_wins() {
    let nodes = vec![leaf("color", &["1"], 0), leaf("color", &["2"], 10), leaf("color", &["x"], 20)];
    let mut diagnostics = Vec::new();
    let config = read_config(&nodes, &mut diagnostics);
    assert_eq!(config.meta.color, 2);
    assert_eq!(messages(&diagnostics), vec!["Expected type Integer but was String"]);
}

#[test]
fn unknown_fields_are_reported_and_skipped() {
    let nodes = vec![leaf("colour", &["1"], 0), leaf("version", &["3"], 10)];
    let mut diagnostics = Vec::new();
    let config = read_config(&nodes, &mut diagnostics);
    assert_eq!(messages(&diagnostics), vec!["Unknown field \"colour\""]);
    assert_eq!(diagnostics[0].span, span(0, 6));
    assert_eq!(config.meta.version, 3);
}

#[test]
fn earlier_diagnostics_are_kept() {
    let mut diagnostics = vec![Diagnostic { span: span(1, 1), message: "before".to_string() }];
    let _ = read_config(&[leaf("device", &["keyboard"], 0)], &mut diagnostics);
    assert_eq!(messages(&diagnostics), vec!["before", "Unknown device \"keyboard\""]);
}

#[test]
fn too_many_profiles_stop_the_list() {
    let profile = |offset: usize| {
        node(
            "-",
            &[],
            offset,
            vec![node(
                "mappings",
                &[],
                offset + 2,
                vec![mapping_line(&["on-press", ":", "row0-col0", "->", "keyboard-a"], offset + 20)],
            )],
        )
    };
    let nodes = vec![node("profiles", &[], 0, vec![profile(10), profile(100), profile(200)])];
    let mut diagnostics = Vec::new();
    let config = read_config(&nodes, &mut diagnostics);
    assert_eq!(config.profiles.as_slice().len(), 2);
    assert_eq!(messages(&diagnostics), vec!["Too many profiles, max is 2"]);
    assert_eq!(diagnostics[0].span, profile(200).span);
}

#[test]
fn bad_mappings_are_reported_and_the_rest_kept() {
    let mappings = vec![
        mapping_line(&["on-pressa", ":", "row0-col0", "->", "keyboard-a"], 100),
        mapping_line(&["on-press", ":", "row0-col1", "->", "keyboard-b"], 200),
    ];
    let nodes = vec![node(
        "profiles",
        &[],
        0,
        vec![node(
            "-",
            &[],
            10,
            vec![node("mappings", &[], 20, mappings), leaf("extra", &[], 300)],
        )],
    )];
    let mut diagnostics = Vec::new();
    let config = read_config(&nodes, &mut diagnostics);
    assert_eq!(
        messages(&diagnostics),
        vec!["Unknown mode \"on-pressa\"", "Unknown field \"extra\""]
    );
    let mappings = config.profiles.as_slice()[0].mappings.as_slice();
    assert_eq!(mappings.len(), 1);
    assert_eq!(mappings[0].output_sequence.as_slice(), &[ComputerInput::Keyboard(KeyboardInput::B)]);
}

#[test]
fn too_many_pin_remappings_stop_the_list() {
    let children: Vec<ConfigNode> =
        (0..21).map(|k| leaf("-", &["row0-col0", &k.to_string()], 10 * k + 20)).collect();
    let mut diagnostics = Vec::new();
    let config = read_config(&[node("pin-remappings", &[], 0, children)], &mut diagnostics);
    assert_eq!(config.meta.pin_remappings.as_slice().len(), 20);
    assert_eq!(messages(&diagnostics), vec!["Too many pin remappings, max is 20"]);
}

#[test]
fn field_readers_check_their_values() {
    let at = span(0, 20);
    assert_eq!(read_u32(&[integer(4294967295, 5)], at).ok(), Some(4294967295));
    let d = read_u32(&[integer(4294967296, 5)], at).err().unwrap();
    assert_eq!(d.message, "Expected an integer from 0 to 4294967295");
    assert_eq!(d.span, span(5, 10));
    assert_eq!(read_u32(&[integer(-1, 5)], at).err().unwrap().span, span(5, 2));
    assert_eq!(read_u32(&[], at).err().unwrap().message, "Expected a single value");
    assert_eq!(
        read_u32(&[integer(1, 5), integer(2, 7)], at).err().unwrap().message,
        "Expected a single value"
    );
    let float = Entry { value: EntryValue::Float, span: span(5, 3), debug: "Float(1.5)".to_string() };
    assert_eq!(read_u32(&[float], at).err().unwrap().message, "Expected type Integer but was Float");
    let null = Entry { value: EntryValue::Null, span: span(5, 4), debug: "Null".to_string() };
    assert_eq!(read_device(&[null], at).err().unwrap().message, "Expected type String but was Null");
    let flag = Entry { value: EntryValue::Bool(true), span: span(5, 5), debug: "Bool(true)".to_string() };
    assert_eq!(read_nickname(&[flag], at).err().unwrap().message, "Expected type String but was Bool");

    let fifty = "x".repeat(50);
    assert_eq!(read_nickname(&[text(&fifty, 5)], at).ok().unwrap().as_str(), fifty);
    let too_long = read_nickname(&[text(&"x".repeat(51), 5)], at).err().unwrap();
    assert_eq!(too_long.message, "Nickname is too long, max is 50 bytes");
    // "é" takes two bytes: 25 of them fit, 26 do not
    assert!(read_nickname(&[text(&"é".repeat(25), 5)], at).is_ok());
    assert!(read_nickname(&[text(&"é".repeat(26), 5)], at).is_err());

    assert_eq!(read_device(&[text("rukey", 5)], at).ok(), Some(Device::Rukey));

    assert_eq!(
        read_pin_remapping(&[text("row5-col13", 2), integer(7, 13)], at).ok(),
        Some(PinRemapping { input: RukeyInput::Row5Col13, pin: 7 })
    );
    assert_eq!(
        read_pin_remapping(&[text("row6-col0", 2), integer(7, 12)], at).err().unwrap().message,
        "Unknown input \"row6-col0\""
    );
    assert_eq!(
        read_pin_remapping(&[text("row0-col0", 2)], at).err().unwrap().message,
        "Pin remapping needs format `- input pin`"
    );
}

#[test]
fn field_names() {
    assert_eq!(ConfigField::from_name("version"), Some(ConfigField::Version));
    assert_eq!(ConfigField::from_name("nickname"), Some(ConfigField::Nickname));
    assert_eq!(ConfigField::from_name("device"), Some(ConfigField::Device));
    assert_eq!(ConfigField::from_name("color"), Some(ConfigField::Color));
    assert_eq!(ConfigField::from_name("profiles"), Some(ConfigField::Profiles));
    assert_eq!(ConfigField::from_name("pin-remappings"), Some(ConfigField::PinRemappings));
    assert_eq!(ConfigField::from_name("Version"), None);
    assert_eq!(ConfigField::from_name(""), None);
}

#[test]
fn default_config() {
    let meta = Meta::default();
    assert_eq!(meta.version, 0);
    assert_eq!(meta.nickname.as_str(), "my rukey");
    assert_eq!(meta.color, 0x1790e3);
    let config = Config::default();
    assert_eq!(config.profiles.as_slice().len(), 1);
    assert!(config.profiles.as_slice()[0].mappings.as_slice().is_empty());
    assert!(Nickname::from_str(&"n".repeat(51)).is_none());
}

const BAD_MAPPINGS: &str = "version 0
device rukey
nickname \"My rukey\"
color 0xFF0000
profiles {
    - {
        mappings {
          - on-pressa : row0-col0 -> mouse-scroll-up 20
          - on-press : row0-col1 + -> mouse-scroll-down 20
          - on-press : row0-col2 mouse-scroll-left 20
          - on-press : row0-col3 -> mouse-scroll-right
          - on-press : row0-col99 -> keyboard-a
          - on-press row0-col99 -> keyboard-a
          - on-press :
        }
    }
}
";

/// The span of `part` within the line that starts with `line` in `text`.
fn span_in(text: &str, line: &str, part: &str) -> SourceSpan {
    let at = text.find(line).unwrap();
    span(at + line.find(part).unwrap(), part.len())
}

#[test]
fn bad_mappings_text_reports_each_line_where_it_goes_wrong() {
    let t = BAD_MAPPINGS;
    let mut diagnostics = Vec::new();
    let config = read_config_text(t, &mut diagnostics);
    assert!(config.is_some());
    let l8 = "- on-pressa : row0-col0 -> mouse-scroll-up 20";
    let l9 = "- on-press : row0-col1 + -> mouse-scroll-down 20";
    let l10 = "- on-press : row0-col2 mouse-scroll-left 20";
    let l11 = "- on-press : row0-col3 -> mouse-scroll-right";
    let l12 = "- on-press : row0-col99 -> keyboard-a";
    let l13 = "- on-press row0-col99 -> keyboard-a";
    let l14 = "- on-press :";
    let expected = vec![
        (span_in(t, l8, "on-pressa"), "Unknown mode \"on-pressa\""),
        (span_in(t, l9, l9), "Empty input group, check for duplicate or leading/trailing `+`"),
        (
            span_in(t, l10, "row0-col2 mouse-scroll-left 20"),
            "Mapping needs `->` separator between inputs and outputs",
        ),
        (span_in(t, l11, "mouse-scroll-right"), "Unknown mouse output \"mouse-scroll-right\""),
        (span_in(t, l12, "row0-col99"), "Unknown input \"row0-col99\""),
        (span_in(t, l13, l13), "Mapping needs format `mode : inputs -> outputs`"),
        (
            span_in(t, &format!("{l14}\n        }}"), l14),
            "Mapping needs `->` separator between inputs and outputs",
        ),
    ];
    let got: Vec<(SourceSpan, String)> = diagnostics.iter().map(|d| (d.span, d.message.clone())).collect();
    let expected: Vec<(SourceSpan, String)> = expected.into_iter().map(|(s, m)| (s, m.to_string())).collect();
    assert_eq!(got, expected);
}

#[test]
fn nickname_text_of_the_wrong_kind() {
    let t = "version 0\ndevice rukey\nnickname 5\ncolor 0xFF0000\n";
    let mut diagnostics = Vec::new();
    let config = read_config_text(t, &mut diagnostics);
    assert_eq!(messages(&diagnostics), vec!["Expected type String but was Integer"]);
    assert_eq!(diagnostics[0].span, span_in(t, "nickname 5", "nickname 5"));
    assert_eq!(config.unwrap().meta.color, 0xFF0000);
}

const EXAMPLE: &str = "version 0
device rukey
nickname \"My rukey\"
color 0xFF0000
pin-remappings {
    - row2-col0 3
    - row2-col1 20
}
profiles {
    - {
        mappings {
          - on-press : row0-col0 -> mouse-scroll-up 20
          - on-press : row0-col1 -> mouse-scroll-down 20
          - on-press : row0-col2 -> mouse-scroll-left 20
          - on-press : row0-col3 -> mouse-scroll-right 20
          - on-press : row1-col0 -> keyboard-page-up
          - on-press : row1-col1 -> keyboard-page-down
          - on-hold 50 : row1-col0 + row1-col1 -> after-millis-hold 50 + set-profile 2
        }
    }
}
";

#[test]
fn example_text_reads_back() {
    let mut diagnostics = Vec::new();
    let config = read_config_text(EXAMPLE, &mut diagnostics).unwrap();
    assert!(diagnostics.is_empty(), "{:?}", messages(&diagnostics));
    let mut direct = Vec::new();
    let from_nodes = read_config(&example_nodes(), &mut direct);
    assert_eq!(config.meta.version, from_nodes.meta.version);
    assert_eq!(config.meta.nickname.as_str(), "My rukey");
    assert_eq!(config.meta.color, 0xFF0000);
    assert_eq!(config.meta.pin_remappings.as_slice(), from_nodes.meta.pin_remappings.as_slice());
    let a = config.profiles.as_slice()[0].mappings.as_slice();
    let b = from_nodes.profiles.as_slice()[0].mappings.as_slice();
    assert_eq!(a.len(), 7);
    for k in 0..7 {
        assert_eq!(a[k].input_set.as_slice(), b[k].input_set.as_slice());
        assert_eq!(a[k].mode, b[k].mode);
        assert_eq!(a[k].output_sequence.as_slice(), b[k].output_sequence.as_slice());
    }
}

#[test]
fn every_parse_problem_is_reported() {
    let mut diagnostics = Vec::new();
    assert!(read_config_text("version {\ncolor \"unclosed", &mut diagnostics).is_none());
    let parsed = parse_kdl("version {\ncolor \"unclosed").err().unwrap();
    assert!(!parsed.is_empty());
    assert_eq!(messages(&diagnostics), messages(&parsed));
}

#[test]
fn text_that_is_not_kdl_is_refused() {
    let mut diagnostics = Vec::new();
    assert!(read_config_text("version {", &mut diagnostics).is_none());
    assert!(!diagnostics.is_empty());
    assert!(parse_kdl("version {").is_err());
    let nodes = parse_kdl("version 1\nprofiles { - { mappings { } } }").ok().unwrap();
    assert_eq!(nodes.len(), 2);
    assert_eq!(nodes[1].children.len(), 1);
    assert_eq!(nodes[1].children[0].children[0].name, "mappings");
}
