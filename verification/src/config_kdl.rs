//! Reading the settings of the configuration file other than its mappings.
//! Each top-level node names a field; its entries give the value.

use vstd::prelude::*;
use vstd::string::*;

use crate::collections::{
    input_set_items, mapping_list_items, nickname_text, output_sequence_items,
    pin_remapping_list_items, profile_list_items, MappingList, Nickname, PinRemappingList,
    ProfileList,
};
use crate::config::{
    rukey_input_named, ComputerInput, Config, Device, Mapping, MappingMode, Meta, PinRemapping,
    Profile, RukeyInput, MAX_MAPPINGS, MAX_NICKNAME_LEN, MAX_PIN_REMAPPINGS, MAX_PROFILES,
};
use crate::kdl_mapping::{
    diagnostic, diagnostic_view, mapping_from_entries, message_with_number,
    after_colon_span_fits, after_colon_span_is_measurable, Diagnostic, Entry, EntryValue, MappingKdl, SourceSpan,
};
use crate::text::{
    chars_of, debug_quote, debug_quoted, decimal_text, is_text, string_from_chars, utf8_len,
};

verus! {

/// The top-level nodes of the configuration file.
#[derive(Debug, Clone, Copy, PartialEq, Eq, Structural)]
pub enum ConfigField {
    Version,
    Nickname,
    Device,
    Color,
    Profiles,
    PinRemappings,
}

/// The field a top-level node name stands for.
pub open spec fn config_field_named(name: Seq<char>) -> Option<ConfigField> {
    if name == "version"@ {
        Some(ConfigField::Version)
    } else if name == "nickname"@ {
        Some(ConfigField::Nickname)
    } else if name == "device"@ {
        Some(ConfigField::Device)
    } else if name == "color"@ {
        Some(ConfigField::Color)
    } else if name == "profiles"@ {
        Some(ConfigField::Profiles)
    } else if name == "pin-remappings"@ {
        Some(ConfigField::PinRemappings)
    } else {
        None
    }
}

impl ConfigField {
    /// The field that a node called `name` sets, if any.
    pub fn from_name(name: &str) -> (r: Option<ConfigField>)
        ensures
            r == config_field_named(name@),
    {
        let n = chars_of(name);
        if is_text(n.as_slice(), "version") {
            Some(ConfigField::Version)
        } else if is_text(n.as_slice(), "nickname") {
            Some(ConfigField::Nickname)
        } else if is_text(n.as_slice(), "device") {
            Some(ConfigField::Device)
        } else if is_text(n.as_slice(), "color") {
            Some(ConfigField::Color)
        } else if is_text(n.as_slice(), "profiles") {
            Some(ConfigField::Profiles)
        } else if is_text(n.as_slice(), "pin-remappings") {
            Some(ConfigField::PinRemappings)
        } else {
            None
        }
    }
}

/// The name of the kind of a KDL value.
pub open spec fn kind_name(v: EntryValue) -> Seq<char> {
    match v {
        EntryValue::Text(_) => "String"@,
        EntryValue::Integer(_) => "Integer"@,
        EntryValue::Float => "Float"@,
        EntryValue::Bool(_) => "Bool"@,
        EntryValue::Null => "Null"@,
    }
}

fn kind_str(v: &EntryValue) -> (r: &'static str)
    ensures
        r@ == kind_name(*v),
{
    match v {
        EntryValue::Text(_) => "String",
        EntryValue::Integer(_) => "Integer",
        EntryValue::Float => "Float",
        EntryValue::Bool(_) => "Bool",
        EntryValue::Null => "Null",
    }
}

/// The complaint about a value of the wrong kind.
pub open spec fn wrong_kind_message(expected: Seq<char>, v: EntryValue) -> Seq<char> {
    "Expected type "@ + expected + " but was "@ + kind_name(v)
}

fn wrong_kind(span: SourceSpan, expected: &str, v: &EntryValue) -> (d: Diagnostic)
    ensures
        diagnostic_view(d) == (span, wrong_kind_message(expected@, *v)),
{
    let m = String::from_str("Expected type ").concat(expected).concat(" but was ").concat(
        kind_str(v),
    );
    diagnostic(span, m)
}

pub open spec fn single_value_message() -> Seq<char> {
    "Expected a single value"@
}

pub open spec fn u32_range_message() -> Seq<char> {
    "Expected an integer from 0 to 4294967295"@
}

/// An entry read as a `u32`; a value of another kind is reported at `span`.
pub open spec fn u32_entry_result(e: Entry, span: SourceSpan) -> Result<u32, (SourceSpan, Seq<char>)> {
    match e.value {
        EntryValue::Integer(n) => if 0 <= n <= u32::MAX {
            Ok(n as u32)
        } else {
            Err((e.span, u32_range_message()))
        },
        _ => Err((span, wrong_kind_message("Integer"@, e.value))),
    }
}

/// The value of a node that holds one integer that fits a `u32`, such as
/// `version` and `color`.
pub open spec fn u32_result(entries: Seq<Entry>, span: SourceSpan) -> Result<u32, (SourceSpan, Seq<char>)> {
    if entries.len() != 1 {
        Err((span, single_value_message()))
    } else {
        u32_entry_result(entries[0], span)
    }
}

fn u32_entry(e: &Entry, span: SourceSpan) -> (r: Result<u32, Diagnostic>)
    ensures
        match r {
            Ok(v) => u32_entry_result(*e, span) == Ok::<u32, (SourceSpan, Seq<char>)>(v),
            Err(d) => u32_entry_result(*e, span) == Err::<u32, (SourceSpan, Seq<char>)>(diagnostic_view(d)),
        },
{
    match &e.value {
        EntryValue::Integer(n) => {
            if 0 <= *n && *n <= 4294967295 {
                Ok(*n as u32)
            } else {
                Err(diagnostic(e.span, String::from_str("Expected an integer from 0 to 4294967295")))
            }
        },
        _ => Err(wrong_kind(span, "Integer", &e.value)),
    }
}

/// Reads a node that holds one integer that fits a `u32`.
pub fn read_u32(entries: &[Entry], span: SourceSpan) -> (r: Result<u32, Diagnostic>)
    ensures
        match r {
            Ok(v) => u32_result(entries@, span) == Ok::<u32, (SourceSpan, Seq<char>)>(v),
            Err(d) => u32_result(entries@, span) == Err::<u32, (SourceSpan, Seq<char>)>(diagnostic_view(d)),
        },
{
    if entries.len() != 1 {
        return Err(diagnostic(span, String::from_str("Expected a single value")));
    }
    u32_entry(&entries[0], span)
}

pub open spec fn nickname_too_long_message() -> Seq<char> {
    "Nickname is too long, max is 50 bytes"@
}

/// The nickname: one string of at most `MAX_NICKNAME_LEN` bytes.
pub open spec fn nickname_result(entries: Seq<Entry>, span: SourceSpan) -> Result<Seq<char>, (SourceSpan, Seq<char>)> {
    if entries.len() != 1 {
        Err((span, single_value_message()))
    } else {
        match entries[0].value {
            EntryValue::Text(s) => if utf8_len(s@) <= MAX_NICKNAME_LEN {
                Ok(s@)
            } else {
                Err((entries[0].span, nickname_too_long_message()))
            },
            _ => Err((span, wrong_kind_message("String"@, entries[0].value))),
        }
    }
}

/// Reads the `nickname` node.
pub fn read_nickname(entries: &[Entry], span: SourceSpan) -> (r: Result<Nickname, Diagnostic>)
    ensures
        match r {
            Ok(n) => nickname_result(entries@, span) == Ok::<Seq<char>, (SourceSpan, Seq<char>)>(nickname_text(n)),
            Err(d) => nickname_result(entries@, span) == Err::<Seq<char>, (SourceSpan, Seq<char>)>(diagnostic_view(d)),
        },
{
    if entries.len() != 1 {
        return Err(diagnostic(span, String::from_str("Expected a single value")));
    }
    match &entries[0].value {
        EntryValue::Text(s) => {
            match Nickname::from_str(s.as_str()) {
                Some(n) => Ok(n),
                None => Err(diagnostic(entries[0].span, String::from_str("Nickname is too long, max is 50 bytes"))),
            }
        },
        _ => Err(wrong_kind(span, "String", &entries[0].value)),
    }
}

/// The device: one string naming a known device.
pub open spec fn device_result(entries: Seq<Entry>, span: SourceSpan) -> Result<Device, (SourceSpan, Seq<char>)> {
    if entries.len() != 1 {
        Err((span, single_value_message()))
    } else {
        match entries[0].value {
            EntryValue::Text(s) => if s@ == "rukey"@ {
                Ok(Device::Rukey)
            } else {
                Err((entries[0].span, "Unknown device "@ + debug_quoted(s@)))
            },
            _ => Err((span, wrong_kind_message("String"@, entries[0].value))),
        }
    }
}

/// Reads the `device` node.
pub fn read_device(entries: &[Entry], span: SourceSpan) -> (r: Result<Device, Diagnostic>)
    ensures
        match r {
            Ok(v) => device_result(entries@, span) == Ok::<Device, (SourceSpan, Seq<char>)>(v),
            Err(d) => device_result(entries@, span) == Err::<Device, (SourceSpan, Seq<char>)>(diagnostic_view(d)),
        },
{
    if entries.len() != 1 {
        return Err(diagnostic(span, String::from_str("Expected a single value")));
    }
    match &entries[0].value {
        EntryValue::Text(s) => {
            let c = chars_of(s.as_str());
            if is_text(c.as_slice(), "rukey") {
                Ok(Device::Rukey)
            } else {
                let q = debug_quote(string_from_chars(c.as_slice()).as_str());
                Err(diagnostic(entries[0].span, String::from_str("Unknown device ").concat(q.as_str())))
            }
        },
        _ => Err(wrong_kind(span, "String", &entries[0].value)),
    }
}

pub open spec fn pin_remapping_format_message() -> Seq<char> {
    "Pin remapping needs format `- input pin`"@
}

/// A pin remapping, written `- input pin`: the input's name, then the pin number.
pub open spec fn pin_remapping_result(entries: Seq<Entry>, span: SourceSpan) -> Result<
    PinRemapping,
    (SourceSpan, Seq<char>),
> {
    if entries.len() != 2 {
        Err((span, pin_remapping_format_message()))
    } else {
        match entries[0].value {
            EntryValue::Text(s) => match rukey_input_named(s@) {
                Some(input) => match u32_entry_result(entries[1], span) {
                    Ok(pin) => Ok(PinRemapping { input, pin }),
                    Err(e) => Err(e),
                },
                None => Err((entries[0].span, "Unknown input "@ + debug_quoted(s@))),
            },
            _ => Err((span, wrong_kind_message("String"@, entries[0].value))),
        }
    }
}

/// Reads one child of the `pin-remappings` node.
pub fn read_pin_remapping(entries: &[Entry], span: SourceSpan) -> (r: Result<PinRemapping, Diagnostic>)
    ensures
        match r {
            Ok(v) => pin_remapping_result(entries@, span) == Ok::<PinRemapping, (SourceSpan, Seq<char>)>(v),
            Err(d) => pin_remapping_result(entries@, span) == Err::<PinRemapping, (SourceSpan, Seq<char>)>(
                diagnostic_view(d),
            ),
        },
{
    if entries.len() != 2 {
        return Err(diagnostic(span, String::from_str("Pin remapping needs format `- input pin`")));
    }
    match &entries[0].value {
        EntryValue::Text(s) => {
            match RukeyInput::from_string_kebab(s.as_str()) {
                Some(input) => match u32_entry(&entries[1], span) {
                    Ok(pin) => Ok(PinRemapping { input, pin }),
                    Err(d) => Err(d),
                },
                None => {
                    let c = chars_of(s.as_str());
                    let q = debug_quote(string_from_chars(c.as_slice()).as_str());
                    Err(diagnostic(entries[0].span, String::from_str("Unknown input ").concat(q.as_str())))
                },
            }
        },
        _ => Err(wrong_kind(span, "String", &entries[0].value)),
    }
}

/// A node of the configuration file, as plain values: its name, where the
/// name and the whole node stand, its entries and its child nodes.
pub struct ConfigNode {
    pub name: String,
    pub name_span: SourceSpan,
    pub span: SourceSpan,
    pub entries: Vec<Entry>,
    pub children: Vec<ConfigNode>,
}

/// A complaint: where, and what.
pub type Complaint = (SourceSpan, Seq<char>);

/// The inputs, mode and outputs of a mapping.
pub type MappingParts = (Seq<RukeyInput>, MappingMode, Seq<ComputerInput>);

pub open spec fn diagnostics_view(ds: Seq<Diagnostic>) -> Seq<Complaint> {
    ds.map_values(|d: Diagnostic| diagnostic_view(d))
}

pub open spec fn mapping_parts(m: Mapping) -> MappingParts {
    (input_set_items(m.input_set), m.mode, output_sequence_items(m.output_sequence))
}

pub open spec fn mapping_list_parts(l: MappingList) -> Seq<MappingParts> {
    mapping_list_items(l).map_values(|m: Mapping| mapping_parts(m))
}

pub open spec fn profile_list_parts(l: ProfileList) -> Seq<Seq<MappingParts>> {
    profile_list_items(l).map_values(|p: Profile| mapping_list_parts(p.mappings))
}

pub open spec fn unknown_field_message(name: Seq<char>) -> Seq<char> {
    "Unknown field "@ + debug_quoted(name)
}

pub open spec fn out_of_order_message() -> Seq<char> {
    "Entries are not in source order"@
}

pub open spec fn too_many_pins_message() -> Seq<char> {
    "Too many pin remappings, max is "@ + decimal_text(MAX_PIN_REMAPPINGS as nat)
}

pub open spec fn too_many_mappings_message() -> Seq<char> {
    "Too many mappings, max is "@ + decimal_text(MAX_MAPPINGS as nat)
}

pub open spec fn too_many_profiles_message() -> Seq<char> {
    "Too many profiles, max is "@ + decimal_text(MAX_PROFILES as nat)
}

/// Reading the children `i..` of a `pin-remappings` node into `acc`, with
/// the complaints so far `ds`. Once the list is full, the next child is
/// refused and reading stops.
pub open spec fn pins_from(
    cs: Seq<ConfigNode>,
    i: int,
    acc: Seq<PinRemapping>,
    ds: Seq<Complaint>,
) -> (Seq<PinRemapping>, Seq<Complaint>)
    decreases cs.len() - i,
{
    if i >= cs.len() {
        (acc, ds)
    } else if acc.len() >= MAX_PIN_REMAPPINGS {
        (acc, ds.push((cs[i].span, too_many_pins_message())))
    } else {
        match pin_remapping_result(cs[i].entries@, cs[i].span) {
            Ok(p) => pins_from(cs, i + 1, acc.push(p), ds),
            Err(d) => pins_from(cs, i + 1, acc, ds.push(d)),
        }
    }
}

/// A mapping node read as a mapping.
pub open spec fn mapping_node_result(m: ConfigNode) -> Result<MappingParts, Complaint> {
    if after_colon_span_fits(m.entries@) {
        mapping_from_entries(m.entries@, m.span)
    } else {
        Err((m.span, out_of_order_message()))
    }
}

/// Reading the mapping nodes `j..` of a `mappings` node into `acc`; the
/// flag tells whether reading stopped on a full list.
pub open spec fn mappings_from(
    ms: Seq<ConfigNode>,
    j: int,
    acc: Seq<MappingParts>,
    ds: Seq<Complaint>,
) -> (Seq<MappingParts>, Seq<Complaint>, bool)
    decreases ms.len() - j,
{
    if j >= ms.len() {
        (acc, ds, false)
    } else if acc.len() >= MAX_MAPPINGS {
        (acc, ds.push((ms[j].span, too_many_mappings_message())), true)
    } else {
        match mapping_node_result(ms[j]) {
            Ok(t) => mappings_from(ms, j + 1, acc.push(t), ds),
            Err(d) => mappings_from(ms, j + 1, acc, ds.push(d)),
        }
    }
}

/// Reading the children `i..` of a profile node: each `mappings` child adds
/// its mappings; any other child is an unknown field.
pub open spec fn profile_from(
    cs: Seq<ConfigNode>,
    i: int,
    acc: Seq<MappingParts>,
    ds: Seq<Complaint>,
) -> (Seq<MappingParts>, Seq<Complaint>)
    decreases cs.len() - i,
{
    if i >= cs.len() {
        (acc, ds)
    } else if cs[i].name@ != "mappings"@ {
        profile_from(cs, i + 1, acc, ds.push((cs[i].name_span, unknown_field_message(cs[i].name@))))
    } else {
        let r = mappings_from(cs[i].children@, 0, acc, ds);
        if r.2 {
            (r.0, r.1)
        } else {
            profile_from(cs, i + 1, r.0, r.1)
        }
    }
}

/// Reading the children `i..` of a `profiles` node, one profile each, until
/// the list of profiles is full.
pub open spec fn profiles_from(
    cs: Seq<ConfigNode>,
    i: int,
    acc: Seq<Seq<MappingParts>>,
    ds: Seq<Complaint>,
) -> (Seq<Seq<MappingParts>>, Seq<Complaint>)
    decreases cs.len() - i,
{
    if i >= cs.len() {
        (acc, ds)
    } else if acc.len() >= MAX_PROFILES {
        (acc, ds.push((cs[i].span, too_many_profiles_message())))
    } else {
        let r = profile_from(cs[i].children@, 0, seq![], ds);
        profiles_from(cs, i + 1, acc.push(r.0), r.1)
    }
}

/// The complaints after reading top-level node `n`, given those before it.
pub open spec fn node_complaints(n: ConfigNode, ds: Seq<Complaint>) -> Seq<Complaint> {
    match config_field_named(n.name@) {
        Some(ConfigField::Version) => match u32_result(n.entries@, n.span) {
            Ok(_) => ds,
            Err(d) => ds.push(d),
        },
        Some(ConfigField::Color) => match u32_result(n.entries@, n.span) {
            Ok(_) => ds,
            Err(d) => ds.push(d),
        },
        Some(ConfigField::Nickname) => match nickname_result(n.entries@, n.span) {
            Ok(_) => ds,
            Err(d) => ds.push(d),
        },
        Some(ConfigField::Device) => match device_result(n.entries@, n.span) {
            Ok(_) => ds,
            Err(d) => ds.push(d),
        },
        Some(ConfigField::PinRemappings) => pins_from(n.children@, 0, seq![], ds).1,
        Some(ConfigField::Profiles) => profiles_from(n.children@, 0, seq![], ds).1,
        None => ds.push((n.name_span, unknown_field_message(n.name@))),
    }
}

/// The complaints after reading the top-level nodes, given those before them.
pub open spec fn complaints_after(nodes: Seq<ConfigNode>, ds: Seq<Complaint>) -> Seq<Complaint>
    decreases nodes.len(),
{
    if nodes.len() == 0 {
        ds
    } else {
        node_complaints(nodes.last(), complaints_after(nodes.drop_last(), ds))
    }
}

/// The version set by the last `version` node that reads, or 0.
pub open spec fn version_of(nodes: Seq<ConfigNode>) -> u32
    decreases nodes.len(),
{
    if nodes.len() == 0 {
        0
    } else {
        let n = nodes.last();
        match (config_field_named(n.name@), u32_result(n.entries@, n.span)) {
            (Some(ConfigField::Version), Ok(v)) => v,
            _ => version_of(nodes.drop_last()),
        }
    }
}

/// The color set by the last `color` node that reads, or 0.
pub open spec fn color_of(nodes: Seq<ConfigNode>) -> u32
    decreases nodes.len(),
{
    if nodes.len() == 0 {
        0
    } else {
        let n = nodes.last();
        match (config_field_named(n.name@), u32_result(n.entries@, n.span)) {
            (Some(ConfigField::Color), Ok(v)) => v,
            _ => color_of(nodes.drop_last()),
        }
    }
}

/// The nickname set by the last `nickname` node that reads, or empty.
pub open spec fn nickname_of(nodes: Seq<ConfigNode>) -> Seq<char>
    decreases nodes.len(),
{
    if nodes.len() == 0 {
        seq![]
    } else {
        let n = nodes.last();
        match (config_field_named(n.name@), nickname_result(n.entries@, n.span)) {
            (Some(ConfigField::Nickname), Ok(v)) => v,
            _ => nickname_of(nodes.drop_last()),
        }
    }
}

/// The device set by the last `device` node that reads, or the rukey.
pub open spec fn device_of(nodes: Seq<ConfigNode>) -> Device
    decreases nodes.len(),
{
    if nodes.len() == 0 {
        Device::Rukey
    } else {
        let n = nodes.last();
        match (config_field_named(n.name@), device_result(n.entries@, n.span)) {
            (Some(ConfigField::Device), Ok(v)) => v,
            _ => device_of(nodes.drop_last()),
        }
    }
}

/// The pin remappings read from the last `pin-remappings` node, or none.
pub open spec fn pins_of(nodes: Seq<ConfigNode>) -> Seq<PinRemapping>
    decreases nodes.len(),
{
    if nodes.len() == 0 {
        seq![]
    } else if config_field_named(nodes.last().name@) == Some(ConfigField::PinRemappings) {
        pins_from(nodes.last().children@, 0, seq![], seq![]).0
    } else {
        pins_of(nodes.drop_last())
    }
}

/// The profiles read from the last `profiles` node, or none.
pub open spec fn profiles_of(nodes: Seq<ConfigNode>) -> Seq<Seq<MappingParts>>
    decreases nodes.len(),
{
    if nodes.len() == 0 {
        seq![]
    } else if config_field_named(nodes.last().name@) == Some(ConfigField::Profiles) {
        profiles_from(nodes.last().children@, 0, seq![], seq![]).0
    } else {
        profiles_of(nodes.drop_last())
    }
}

proof fn lemma_pins_list_ignores_complaints(
    cs: Seq<ConfigNode>,
    i: int,
    acc: Seq<PinRemapping>,
    ds1: Seq<Complaint>,
    ds2: Seq<Complaint>,
)
    ensures
        pins_from(cs, i, acc, ds1).0 == pins_from(cs, i, acc, ds2).0,
    decreases cs.len() - i,
{
    if i < cs.len() && acc.len() < MAX_PIN_REMAPPINGS {
        match pin_remapping_result(cs[i].entries@, cs[i].span) {
            Ok(p) => lemma_pins_list_ignores_complaints(cs, i + 1, acc.push(p), ds1, ds2),
            Err(d) => lemma_pins_list_ignores_complaints(cs, i + 1, acc, ds1.push(d), ds2.push(d)),
        }
    }
}

proof fn lemma_mappings_list_ignores_complaints(
    ms: Seq<ConfigNode>,
    j: int,
    acc: Seq<MappingParts>,
    ds1: Seq<Complaint>,
    ds2: Seq<Complaint>,
)
    ensures
        mappings_from(ms, j, acc, ds1).0 == mappings_from(ms, j, acc, ds2).0,
        mappings_from(ms, j, acc, ds1).2 == mappings_from(ms, j, acc, ds2).2,
    decreases ms.len() - j,
{
    if j < ms.len() && acc.len() < MAX_MAPPINGS {
        match mapping_node_result(ms[j]) {
            Ok(t) => lemma_mappings_list_ignores_complaints(ms, j + 1, acc.push(t), ds1, ds2),
            Err(d) => lemma_mappings_list_ignores_complaints(ms, j + 1, acc, ds1.push(d), ds2.push(d)),
        }
    }
}

proof fn lemma_profile_ignores_complaints(
    cs: Seq<ConfigNode>,
    i: int,
    acc: Seq<MappingParts>,
    ds1: Seq<Complaint>,
    ds2: Seq<Complaint>,
)
    ensures
        profile_from(cs, i, acc, ds1).0 == profile_from(cs, i, acc, ds2).0,
    decreases cs.len() - i,
{
    if i < cs.len() {
        if cs[i].name@ != "mappings"@ {
            let u = (cs[i].name_span, unknown_field_message(cs[i].name@));
            lemma_profile_ignores_complaints(cs, i + 1, acc, ds1.push(u), ds2.push(u));
        } else {
            lemma_mappings_list_ignores_complaints(cs[i].children@, 0, acc, ds1, ds2);
            let r1 = mappings_from(cs[i].children@, 0, acc, ds1);
            let r2 = mappings_from(cs[i].children@, 0, acc, ds2);
            if !r1.2 {
                lemma_profile_ignores_complaints(cs, i + 1, r1.0, r1.1, r2.1);
            }
        }
    }
}

proof fn lemma_profiles_list_ignores_complaints(
    cs: Seq<ConfigNode>,
    i: int,
    acc: Seq<Seq<MappingParts>>,
    ds1: Seq<Complaint>,
    ds2: Seq<Complaint>,
)
    ensures
        profiles_from(cs, i, acc, ds1).0 == profiles_from(cs, i, acc, ds2).0,
    decreases cs.len() - i,
{
    if i < cs.len() && acc.len() < MAX_PROFILES {
        lemma_profile_ignores_complaints(cs[i].children@, 0, seq![], ds1, ds2);
        let r1 = profile_from(cs[i].children@, 0, seq![], ds1);
        let r2 = profile_from(cs[i].children@, 0, seq![], ds2);
        lemma_profiles_list_ignores_complaints(cs, i + 1, acc.push(r1.0), r1.1, r2.1);
    }
}

/// Appends `d` to the diagnostics.
fn complain(diagnostics: &mut Vec<Diagnostic>, d: Diagnostic)
    ensures
        diagnostics_view(final(diagnostics)@) == diagnostics_view(old(diagnostics)@).push(diagnostic_view(d)),
{
    diagnostics.push(d);
    assert(diagnostics_view(diagnostics@) =~= diagnostics_view(old(diagnostics)@).push(diagnostic_view(d)));
}

/// Reads the children of a `pin-remappings` node.
fn read_pin_remappings(cs: &[ConfigNode], diagnostics: &mut Vec<Diagnostic>) -> (r: PinRemappingList)
    ensures
        pin_remapping_list_items(r) == pins_from(cs@, 0, seq![], diagnostics_view(old(diagnostics)@)).0,
        diagnostics_view(final(diagnostics)@) == pins_from(cs@, 0, seq![], diagnostics_view(old(diagnostics)@)).1,
{
    let ghost d0 = diagnostics_view(diagnostics@);
    let mut list = PinRemappingList::new();
    let mut i: usize = 0;
    while i < cs.len()
        invariant
            i <= cs@.len(),
            d0 == diagnostics_view(old(diagnostics)@),
            pins_from(cs@, 0, seq![], d0) == pins_from(
                cs@,
                i as int,
                pin_remapping_list_items(list),
                diagnostics_view(diagnostics@),
            ),
        decreases cs@.len() - i,
    {
        let c = &cs[i];
        if list.as_slice().len() >= MAX_PIN_REMAPPINGS {
            let m = message_with_number("Too many pin remappings, max is ", 20);
            complain(diagnostics, diagnostic(c.span, m));
            return list;
        }
        match read_pin_remapping(c.entries.as_slice(), c.span) {
            Ok(p) => {
                list.push(p);
            },
            Err(d) => complain(diagnostics, d),
        }
        i += 1;
    }
    list
}

/// Reads the mapping nodes of a `mappings` node into `list`; `true` when
/// reading stopped on a full list.
fn read_mappings(ms: &[ConfigNode], list: &mut MappingList, diagnostics: &mut Vec<Diagnostic>) -> (full: bool)
    ensures
        (mapping_list_parts(*final(list)), diagnostics_view(final(diagnostics)@), full) == mappings_from(
            ms@,
            0,
            mapping_list_parts(*old(list)),
            diagnostics_view(old(diagnostics)@),
        ),
{
    let ghost start = mappings_from(ms@, 0, mapping_list_parts(*list), diagnostics_view(diagnostics@));
    let mut j: usize = 0;
    while j < ms.len()
        invariant
            j <= ms@.len(),
            start == mappings_from(ms@, 0, mapping_list_parts(*old(list)), diagnostics_view(old(diagnostics)@)),
            start == mappings_from(ms@, j as int, mapping_list_parts(*list), diagnostics_view(diagnostics@)),
        decreases ms@.len() - j,
    {
        let m = &ms[j];
        if list.as_slice().len() >= MAX_MAPPINGS {
            let msg = message_with_number("Too many mappings, max is ", 84);
            complain(diagnostics, diagnostic(m.span, msg));
            return true;
        }
        if !after_colon_span_is_measurable(m.entries.as_slice()) {
            complain(diagnostics, diagnostic(m.span, String::from_str("Entries are not in source order")));
        } else {
            let ghost before = diagnostics@;
            match MappingKdl::parse_entries(m.entries.as_slice(), m.span, diagnostics) {
                Some(k) => {
                    let ghost old_list = *list;
                    let mapping = k.finalize();
                    let ghost p = mapping_parts(mapping);
                    list.push(mapping);
                    assert(mapping_list_parts(*list) =~= mapping_list_parts(old_list).push(p));
                },
                None => {
                    assert(diagnostics@ =~= before.push(diagnostics@.last()));
                    assert(diagnostics_view(diagnostics@) =~= diagnostics_view(before).push(
                        diagnostic_view(diagnostics@.last()),
                    ));
                },
            }
        }
        j += 1;
    }
    false
}

/// Reads the children of a profile node.
fn read_profile(cs: &[ConfigNode], diagnostics: &mut Vec<Diagnostic>) -> (r: Profile)
    ensures
        (mapping_list_parts(r.mappings), diagnostics_view(final(diagnostics)@)) == profile_from(
            cs@,
            0,
            seq![],
            diagnostics_view(old(diagnostics)@),
        ),
{
    let mut mappings = MappingList::new();
    proof {
        assert(mapping_list_parts(mappings) =~= Seq::<MappingParts>::empty());
    }
    let ghost start = profile_from(cs@, 0, seq![], diagnostics_view(diagnostics@));
    let mut i: usize = 0;
    while i < cs.len()
        invariant
            i <= cs@.len(),
            start == profile_from(cs@, 0, seq![], diagnostics_view(old(diagnostics)@)),
            start == profile_from(cs@, i as int, mapping_list_parts(mappings), diagnostics_view(diagnostics@)),
        decreases cs@.len() - i,
    {
        let c = &cs[i];
        let name = chars_of(c.name.as_str());
        if !is_text(name.as_slice(), "mappings") {
            let q = debug_quote(string_from_chars(name.as_slice()).as_str());
            complain(diagnostics, diagnostic(c.name_span, String::from_str("Unknown field ").concat(q.as_str())));
        } else {
            let full = read_mappings(c.children.as_slice(), &mut mappings, diagnostics);
            if full {
                return Profile { mappings };
            }
        }
        i += 1;
    }
    Profile { mappings }
}

/// Reads the children of a `profiles` node.
fn read_profiles(cs: &[ConfigNode], diagnostics: &mut Vec<Diagnostic>) -> (r: ProfileList)
    ensures
        profile_list_parts(r) == profiles_from(cs@, 0, seq![], diagnostics_view(old(diagnostics)@)).0,
        diagnostics_view(final(diagnostics)@) == profiles_from(cs@, 0, seq![], diagnostics_view(old(diagnostics)@)).1,
{
    let mut list = ProfileList::new();
    proof {
        assert(profile_list_parts(list) =~= Seq::<Seq<MappingParts>>::empty());
    }
    let ghost start = profiles_from(cs@, 0, seq![], diagnostics_view(diagnostics@));
    let mut i: usize = 0;
    while i < cs.len()
        invariant
            i <= cs@.len(),
            start == profiles_from(cs@, 0, seq![], diagnostics_view(old(diagnostics)@)),
            start == profiles_from(cs@, i as int, profile_list_parts(list), diagnostics_view(diagnostics@)),
        decreases cs@.len() - i,
    {
        let c = &cs[i];
        if list.as_slice().len() >= MAX_PROFILES {
            let m = message_with_number("Too many profiles, max is ", 2);
            complain(diagnostics, diagnostic(c.span, m));
            return list;
        }
        let profile = read_profile(c.children.as_slice(), diagnostics);
        let ghost old_list = list;
        let ghost p = mapping_list_parts(profile.mappings);
        list.push(profile);
        assert(profile_list_parts(list) =~= profile_list_parts(old_list).push(p));
        i += 1;
    }
    list
}

/// Reads a configuration from the top-level nodes of its file. Each field
/// takes the value of the last node that sets it, and keeps its default
/// when none does; every problem found is appended to `diagnostics`.
pub fn read_config(nodes: &[ConfigNode], diagnostics: &mut Vec<Diagnostic>) -> (r: Config)
    ensures
        r.meta.version == version_of(nodes@),
        r.meta.color == color_of(nodes@),
        nickname_text(r.meta.nickname) == nickname_of(nodes@),
        r.meta.device == device_of(nodes@),
        pin_remapping_list_items(r.meta.pin_remappings) == pins_of(nodes@),
        profile_list_parts(r.profiles) == profiles_of(nodes@),
        diagnostics_view(final(diagnostics)@) == complaints_after(nodes@, diagnostics_view(old(diagnostics)@)),
{
    let ghost d0 = diagnostics_view(diagnostics@);
    let mut version: u32 = 0;
    let mut color: u32 = 0;
    let mut nickname = Nickname::new();
    let mut device = Device::Rukey;
    let mut pins = PinRemappingList::new();
    let mut profiles = ProfileList::new();
    proof {
        assert(profile_list_parts(profiles) =~= Seq::<Seq<MappingParts>>::empty());
    }
    let mut i: usize = 0;
    while i < nodes.len()
        invariant
            i <= nodes@.len(),
            version == version_of(nodes@.take(i as int)),
            color == color_of(nodes@.take(i as int)),
            nickname_text(nickname) == nickname_of(nodes@.take(i as int)),
            device == device_of(nodes@.take(i as int)),
            pin_remapping_list_items(pins) == pins_of(nodes@.take(i as int)),
            profile_list_parts(profiles) == profiles_of(nodes@.take(i as int)),
            diagnostics_view(diagnostics@) == complaints_after(nodes@.take(i as int), d0),
        decreases nodes@.len() - i,
    {
        let n = &nodes[i];
        let ghost seen = nodes@.take(i + 1);
        proof {
            assert(seen.drop_last() =~= nodes@.take(i as int));
            assert(seen.last() == nodes@[i as int]);
        }
        match ConfigField::from_name(n.name.as_str()) {
            Some(ConfigField::Version) => match read_u32(n.entries.as_slice(), n.span) {
                Ok(v) => version = v,
                Err(d) => complain(diagnostics, d),
            },
            Some(ConfigField::Color) => match read_u32(n.entries.as_slice(), n.span) {
                Ok(v) => color = v,
                Err(d) => complain(diagnostics, d),
            },
            Some(ConfigField::Nickname) => match read_nickname(n.entries.as_slice(), n.span) {
                Ok(v) => nickname = v,
                Err(d) => complain(diagnostics, d),
            },
            Some(ConfigField::Device) => match read_device(n.entries.as_slice(), n.span) {
                Ok(v) => device = v,
                Err(d) => complain(diagnostics, d),
            },
            Some(ConfigField::PinRemappings) => {
                let ghost before = diagnostics_view(diagnostics@);
                pins = read_pin_remappings(n.children.as_slice(), diagnostics);
                proof {
                    lemma_pins_list_ignores_complaints(n.children@, 0, seq![], before, seq![]);
                }
            },
            Some(ConfigField::Profiles) => {
                let ghost before = diagnostics_view(diagnostics@);
                profiles = read_profiles(n.children.as_slice(), diagnostics);
                proof {
                    lemma_profiles_list_ignores_complaints(n.children@, 0, seq![], before, seq![]);
                }
            },
            None => {
                let name = chars_of(n.name.as_str());
                let q = debug_quote(string_from_chars(name.as_slice()).as_str());
                complain(diagnostics, diagnostic(n.name_span, String::from_str("Unknown field ").concat(q.as_str())));
            },
        }
        i += 1;
    }
    proof {
        assert(nodes@.take(nodes@.len() as int) =~= nodes@);
    }
    Config { meta: Meta { version, nickname, device, color, pin_remappings: pins }, profiles }
}

/// `kdl::KdlNode`, a node of a parsed KDL document.
#[verifier::external_type_specification]
#[verifier::external_body]
pub struct ExKdlNode(kdl::KdlNode);

/// `kdl::KdlEntry`, an argument or property of a KDL node.
#[verifier::external_type_specification]
#[verifier::external_body]
pub struct ExKdlEntry(kdl::KdlEntry);

/// `kdl::KdlDiagnostic`, one problem the KDL parser reports.
#[verifier::external_type_specification]
#[verifier::external_body]
pub struct ExKdlDiagnostic(kdl::KdlDiagnostic);

/// What the `kdl` crate's parser makes of a text: the top-level nodes as
/// plain values, or every problem it reports, in its order.
pub uninterp spec fn kdl_nodes(text: Seq<char>) -> Result<Seq<ConfigNode>, Seq<Complaint>>;

/// A problem the parser reports, as plain values (`KdlDiagnostic::span` and
/// `message`, empty when it has none).
#[verifier::external_body]
fn kdl_diagnostic(d: &kdl::KdlDiagnostic) -> (r: Diagnostic) {
    let span = SourceSpan { offset: d.span.offset(), len: d.span.len() };
    Diagnostic { span, message: d.message.clone().unwrap_or_default() }
}

/// An entry of a parsed node as plain values (`KdlEntry::value`, `span`, and
/// the value's `Debug` text).
#[verifier::external_body]
fn kdl_entry(entry: &kdl::KdlEntry) -> (r: Entry) {
    let value = match entry.value() {
        kdl::KdlValue::String(s) => EntryValue::Text(s.clone()),
        kdl::KdlValue::Integer(n) => EntryValue::Integer(*n),
        kdl::KdlValue::Float(_) => EntryValue::Float,
        kdl::KdlValue::Bool(b) => EntryValue::Bool(*b),
        kdl::KdlValue::Null => EntryValue::Null,
    };
    let span = SourceSpan { offset: entry.span().offset(), len: entry.span().len() };
    Entry { value, span, debug: format!("{:?}", entry.value()) }
}

/// A parsed node and its children as plain values (`KdlNode::name`, `span`,
/// `entries`, `children`).
#[verifier::external_body]
fn kdl_node(node: &kdl::KdlNode) -> (r: ConfigNode) {
    let name_span = SourceSpan { offset: node.name().span().offset(), len: node.name().span().len() };
    let span = SourceSpan { offset: node.span().offset(), len: node.span().len() };
    let children = match node.children() {
        Some(doc) => doc.nodes().iter().map(kdl_node).collect(),
        None => Vec::new(),
    };
    let entries = node.entries().iter().map(kdl_entry).collect();
    ConfigNode { name: node.name().value().to_string(), name_span, span, entries, children }
}

/// Parses `text` as a KDL document (`str::parse` into `kdl::KdlDocument`):
/// its top-level nodes, or the span and message of every problem the parser
/// reports.
#[verifier::external_body]
pub fn parse_kdl(text: &str) -> (r: Result<Vec<ConfigNode>, Vec<Diagnostic>>)
    ensures
        match r {
            Ok(v) => kdl_nodes(text@) == Ok::<Seq<ConfigNode>, Seq<Complaint>>(v@),
            Err(ds) => kdl_nodes(text@) == Err::<Seq<ConfigNode>, Seq<Complaint>>(
                diagnostics_view(ds@),
            ),
        },
{
    match text.parse::<kdl::KdlDocument>() {
        Ok(doc) => Ok(doc.nodes().iter().map(kdl_node).collect()),
        Err(e) => Err(e.diagnostics.iter().map(kdl_diagnostic).collect()),
    }
}

/// Reads a configuration from the text of its file. When the text is not a
/// KDL document, the parser's complaints are appended and `None` comes back;
/// otherwise the configuration is what `read_config` makes of its nodes.
pub fn read_config_text(text: &str, diagnostics: &mut Vec<Diagnostic>) -> (c: Option<Config>)
    ensures
        match kdl_nodes(text@) {
            Err(ds) => c is None && diagnostics_view(final(diagnostics)@) == diagnostics_view(
                old(diagnostics)@,
            ) + ds,
            Ok(ns) => c matches Some(cfg) && cfg.meta.version == version_of(ns) && cfg.meta.color
                == color_of(ns) && nickname_text(cfg.meta.nickname) == nickname_of(ns)
                && cfg.meta.device == device_of(ns) && pin_remapping_list_items(
                cfg.meta.pin_remappings,
            ) == pins_of(ns) && profile_list_parts(cfg.profiles) == profiles_of(ns)
                && diagnostics_view(final(diagnostics)@) == complaints_after(
                ns,
                diagnostics_view(old(diagnostics)@),
            ),
        },
{
    match parse_kdl(text) {
        Ok(nodes) => Some(read_config(nodes.as_slice(), diagnostics)),
        Err(ds) => {
            let ghost before = diagnostics_view(diagnostics@);
            let ghost reported = diagnostics_view(ds@);
            let mut ds = ds;
            diagnostics.append(&mut ds);
            assert(diagnostics_view(diagnostics@) =~= before + reported);
            None
        },
    }
}

} // verus!
