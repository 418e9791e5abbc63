//! Choosing an input device.
//!
//! A device is named by a selector: the word `default`, or `input-` and the
//! device's place in the host's list, counted from zero. The list may change
//! between two looks at it, so an index is good for one enumeration only.

use crate::error::{AudioError, EnumerationUse, ErrorView, SelectorFault};
use crate::text::{
    bounded_number, decimal, lemma_decimal_reads_back, lemma_digits_are_ascii, parse_digits,
    push_decimal,
};
use vstd::prelude::*;
use vstd::string::*;

verus! {

/// What a selector asks for.
#[derive(Clone, Copy, Debug, PartialEq, Eq, Structural)]
pub enum Selector {
    /// The host's current default input device.
    Default,
    /// The device at this place in the host's list.
    Index(usize),
}

/// The word that selects the default device.
pub open spec fn default_word() -> Seq<char> {
    seq!['d', 'e', 'f', 'a', 'u', 'l', 't']
}

/// What an indexed selector begins with.
pub open spec fn index_prefix() -> Seq<char> {
    seq!['i', 'n', 'p', 'u', 't', '-']
}

/// The index that a text writes: decimal digits, at least one, after at
/// most one plus sign, and no larger than the machine's largest index.
pub open spec fn index_of(t: Seq<char>) -> Option<usize> {
    let body = if t.len() > 0 && t[0] == '+' {
        t.skip(1)
    } else {
        t
    };
    match bounded_number(body, usize::MAX as nat) {
        Some(n) => Some(n as usize),
        None => None,
    }
}

/// What a selector text asks for. No text at all asks for the default.
pub open spec fn selector_of(text: Option<Seq<char>>) -> Result<Selector, SelectorFault> {
    match text {
        None => Ok(Selector::Default),
        Some(t) => {
            if t == default_word() {
                Ok(Selector::Default)
            } else if t.len() >= 6 && t.take(6) == index_prefix() {
                match index_of(t.skip(6)) {
                    Some(n) => Ok(Selector::Index(n)),
                    None => Err(SelectorFault::Index),
                }
            } else {
                Err(SelectorFault::Format)
            }
        },
    }
}

/// The selector of the device at place `index`.
pub open spec fn selector_text(index: nat) -> Seq<char> {
    index_prefix() + decimal(index)
}

/// The selector that is written for a place in the list reads back as
/// that place.
pub proof fn lemma_selector_reads_back(index: usize)
    ensures
        selector_of(Some(selector_text(index as nat))) == Ok::<Selector, SelectorFault>(
            Selector::Index(index),
        ),
{
    let t = selector_text(index as nat);
    let d = decimal(index as nat);
    lemma_decimal_reads_back(index as nat);
    assert(t.take(6) =~= index_prefix());
    assert(t.skip(6) =~= d);
}

/// Reads an index as [`index_of`] defines it.
pub fn parse_index(s: &str) -> (r: Option<usize>)
    ensures
        r == index_of(s@),
{
    let ghost t = s@;
    if !s.is_ascii() {
        proof {
            if t[0] == '+' {
                lemma_digits_are_ascii(t, 1, usize::MAX as nat);
            } else {
                lemma_digits_are_ascii(t, 0, usize::MAX as nat);
            }
        }
        return None;
    }
    proof {
        is_ascii_spec_bytes(s);
    }
    let n = s.as_bytes().len();
    let start: usize = if n > 0 && s.get_ascii(0) == 43 {
        1
    } else {
        0
    };
    assert(t.skip(0) =~= t);
    match parse_digits(s, start, usize::MAX as u64) {
        Some(m) => Some(m as usize),
        None => None,
    }
}

/// Whether `s` begins with `word`.
fn begins_with(s: &str, word: &str) -> (r: bool)
    ensures
        r == (s@.len() >= word@.len() && s@.take(word@.len() as int) == word@),
{
    let n = s.unicode_len();
    let m = word.unicode_len();
    if n < m {
        return false;
    }
    let mut i: usize = 0;
    while i < m
        invariant
            i <= m <= n,
            n == s@.len(),
            m == word@.len(),
            forall|j: int| 0 <= j < i ==> s@[j] == word@[j],
        decreases m - i,
    {
        if s.get_char(i) != word.get_char(i) {
            return false;
        }
        i = i + 1;
    }
    assert(s@.take(m as int) =~= word@);
    true
}

/// Reads a selector. No text, or the word `default`, asks for the default
/// device; `input-` and an index ask for a place in the list.
pub fn parse_selector(device_id: Option<&str>) -> (r: Result<Selector, AudioError>)
    ensures
        match selector_of(
            match device_id {
                Some(s) => Some(s@),
                None => None,
            },
        ) {
            Ok(sel) => r == Ok::<Selector, AudioError>(sel),
            Err(fault) => r matches Err(e) && e@ == ErrorView::InvalidSelector(fault),
        },
{
    match device_id {
        None => Ok(Selector::Default),
        Some(s) => {
            proof {
                reveal_strlit("default");
                reveal_strlit("input-");
                assert("default"@ =~= default_word());
                assert("input-"@ =~= index_prefix());
            }
            let n = s.unicode_len();
            assert(n == 7 ==> s@.take(7) =~= s@);
            if n == 7 && begins_with(s, "default") {
                return Ok(Selector::Default);
            }
            if begins_with(s, "input-") {
                let rest = s.substring_char(6, n);
                match parse_index(rest) {
                    Some(index) => Ok(Selector::Index(index)),
                    None => Err(AudioError::InvalidSelector(SelectorFault::Index)),
                }
            } else {
                Err(AudioError::InvalidSelector(SelectorFault::Format))
            }
        },
    }
}

/// Writes the selector of the device at place `index`.
pub fn selector_for(index: usize) -> (id: String)
    ensures
        id@ == selector_text(index as nat),
{
    proof {
        reveal_strlit("input-");
    }
    let mut id = String::from_str("input-");
    push_decimal(&mut id, index as u64);
    id
}

/// The device that a selector led to.
pub struct Resolved {
    /// The selector under which the device is known from now on: the word
    /// `default`, or the indexed selector as it was given.
    pub id: String,
    /// The device's place in the host's list; none for the default device.
    pub place: Option<usize>,
}

/// A resolved device as plain values.
pub struct ResolvedView {
    pub id: Seq<char>,
    pub place: Option<usize>,
}

impl View for Resolved {
    type V = ResolvedView;

    open spec fn view(&self) -> ResolvedView {
        ResolvedView { id: self.id@, place: self.place }
    }
}

/// Where a selector leads on a host that has a default input device or
/// not, and whose enumeration gave `enumeration`: the number of devices, or
/// the host's words on why it failed.
pub open spec fn resolution(
    text: Option<Seq<char>>,
    default_present: bool,
    enumeration: Result<usize, Seq<char>>,
) -> Result<ResolvedView, ErrorView> {
    match selector_of(text) {
        Err(fault) => Err(ErrorView::InvalidSelector(fault)),
        Ok(Selector::Default) => {
            if default_present {
                Ok(ResolvedView { id: default_word(), place: None })
            } else {
                Err(ErrorView::NoDefaultDevice)
            }
        },
        Ok(Selector::Index(n)) => {
            match enumeration {
                Err(detail) => Err(
                    ErrorView::DeviceEnumerationFailure(EnumerationUse::Resolving, detail),
                ),
                Ok(count) => {
                    if n < count {
                        Ok(ResolvedView { id: text->0, place: Some(n) })
                    } else {
                        Err(ErrorView::DeviceNotFound)
                    }
                },
            }
        },
    }
}

/// Resolves a selector against what the host answered. The default
/// selector looks only at `default_present`, an indexed one only at
/// `enumeration`; a selector that cannot be read fails whatever the host
/// said.
pub fn resolve_input_device(
    device_id: Option<&str>,
    default_present: bool,
    enumeration: Result<usize, String>,
) -> (r: Result<Resolved, AudioError>)
    ensures
        match resolution(
            match device_id {
                Some(s) => Some(s@),
                None => None,
            },
            default_present,
            match enumeration {
                Ok(count) => Ok(count),
                Err(detail) => Err(detail@),
            },
        ) {
            Ok(v) => r matches Ok(found) && found@ == v,
            Err(v) => r matches Err(e) && e@ == v,
        },
{
    match parse_selector(device_id) {
        Err(e) => Err(e),
        Ok(Selector::Default) => {
            if default_present {
                proof {
                    reveal_strlit("default");
                    assert("default"@ =~= default_word());
                }
                Ok(Resolved { id: String::from_str("default"), place: None })
            } else {
                Err(AudioError::NoDefaultDevice)
            }
        },
        Ok(Selector::Index(n)) => {
            match enumeration {
                Err(detail) => Err(
                    AudioError::DeviceEnumerationFailure(EnumerationUse::Resolving, detail),
                ),
                Ok(count) => {
                    if n < count {
                        match device_id {
                            Some(s) => Ok(Resolved { id: String::from_str(s), place: Some(n) }),
                            None => Err(AudioError::DeviceNotFound),
                        }
                    } else {
                        Err(AudioError::DeviceNotFound)
                    }
                },
            }
        },
    }
}

/// The sample rate and channel count that a device would open with.
#[derive(Clone, Copy, Debug, PartialEq, Eq, Structural)]
pub struct StreamFormat {
    pub sample_rate: u32,
    pub channels: u16,
}

/// What the host told about one device. Either answer may be missing.
pub struct DeviceProbe {
    pub name: Option<String>,
    pub format: Option<StreamFormat>,
}

/// A probe as plain values.
pub struct ProbeView {
    pub name: Option<Seq<char>>,
    pub format: Option<StreamFormat>,
}

impl View for DeviceProbe {
    type V = ProbeView;

    open spec fn view(&self) -> ProbeView {
        ProbeView {
            name: match self.name {
                Some(n) => Some(n@),
                None => None,
            },
            format: self.format,
        }
    }
}

/// An input device as it is shown for choosing.
pub struct InputDeviceInfo {
    pub id: String,
    pub name: String,
    pub default_sample_rate: Option<u32>,
    pub channels: Option<u16>,
}

/// A device description as plain values.
pub struct InfoView {
    pub id: Seq<char>,
    pub name: Seq<char>,
    pub default_sample_rate: Option<u32>,
    pub channels: Option<u16>,
}

impl View for InputDeviceInfo {
    type V = InfoView;

    open spec fn view(&self) -> InfoView {
        InfoView {
            id: self.id@,
            name: self.name@,
            default_sample_rate: self.default_sample_rate,
            channels: self.channels,
        }
    }
}

/// The name shown for a device that does not tell its own.
pub open spec fn unknown_name() -> Seq<char> {
    "Unknown Input Device"@
}

/// The description of a device that is known under `id`.
pub open spec fn info_of(id: Seq<char>, probe: ProbeView) -> InfoView {
    InfoView {
        id,
        name: match probe.name {
            Some(n) => n,
            None => unknown_name(),
        },
        default_sample_rate: match probe.format {
            Some(f) => Some(f.sample_rate),
            None => None,
        },
        channels: match probe.format {
            Some(f) => Some(f.channels),
            None => None,
        },
    }
}

/// The enumerated devices in the host's order, each under its indexed
/// selector.
pub open spec fn enumerated_infos(probes: Seq<ProbeView>) -> Seq<InfoView> {
    Seq::new(probes.len(), |i: int| info_of(selector_text(i as nat), probes[i]))
}

pub open spec fn some_has_name(infos: Seq<InfoView>, name: Seq<char>) -> bool {
    exists|i: int| 0 <= i < infos.len() && #[trigger] infos[i].name == name
}

/// The list that is shown: the enumerated devices, and before them the
/// default device under the selector `default`, where it tells a name that
/// none of the enumerated devices shows.
pub open spec fn device_list(probes: Seq<ProbeView>, default: Option<ProbeView>) -> Seq<InfoView> {
    let listed = enumerated_infos(probes);
    match default {
        Some(d) => match d.name {
            Some(n) => if some_has_name(listed, n) {
                listed
            } else {
                seq![info_of(default_word(), d)] + listed
            },
            None => listed,
        },
        None => listed,
    }
}

pub fn device_to_info(id: String, probe: &DeviceProbe) -> (info: InputDeviceInfo)
    ensures
        info@ == info_of(id@, probe@),
{
    let name = match &probe.name {
        Some(n) => n.clone(),
        None => String::from_str("Unknown Input Device"),
    };
    let (default_sample_rate, channels) = match probe.format {
        Some(f) => (Some(f.sample_rate), Some(f.channels)),
        None => (None, None),
    };
    InputDeviceInfo { id, name, default_sample_rate, channels }
}

/// Describes the host's input devices for choosing.
pub fn list_input_devices(enumerated: &Vec<DeviceProbe>, default: Option<&DeviceProbe>) -> (out:
    Vec<InputDeviceInfo>)
    ensures
        out@.map_values(|d: InputDeviceInfo| d@) == device_list(
            enumerated@.map_values(|p: DeviceProbe| p@),
            match default {
                Some(d) => Some(d@),
                None => None,
            },
        ),
{
    let ghost probes = enumerated@.map_values(|p: DeviceProbe| p@);
    let ghost listed = enumerated_infos(probes);
    let mut results: Vec<InputDeviceInfo> = Vec::new();
    let mut i: usize = 0;
    while i < enumerated.len()
        invariant
            i <= enumerated.len(),
            probes == enumerated@.map_values(|p: DeviceProbe| p@),
            listed == enumerated_infos(probes),
            results@.len() == i,
            forall|j: int| 0 <= j < i ==> (#[trigger] results@[j])@ == listed[j],
        decreases enumerated.len() - i,
    {
        let info = device_to_info(selector_for(i), &enumerated[i]);
        results.push(info);
        i = i + 1;
    }
    match default {
        None => results,
        Some(d) => {
            match &d.name {
                None => results,
                Some(name) => {
                    let mut shown = false;
                    let mut k: usize = 0;
                    while k < results.len()
                        invariant
                            k <= results.len(),
                            results@.map_values(|d: InputDeviceInfo| d@) == listed,
                            shown == exists|j: int|
                                0 <= j < k && #[trigger] listed[j].name == name@,
                        decreases results.len() - k,
                    {
                        assert(results@.map_values(|d: InputDeviceInfo| d@)[k as int]
                            == results@[k as int]@);
                        let same = results[k].name == *name;
                        assert(same == (listed[k as int].name == name@));
                        if same {
                            shown = true;
                        }
                        k = k + 1;
                    }
                    if shown {
                        results
                    } else {
                        proof {
                            reveal_strlit("default");
                            assert("default"@ =~= default_word());
                        }
                        let first = device_to_info(String::from_str("default"), d);
                        let ghost before = results@;
                        results.insert(0, first);
                        assert(results@.map_values(|d: InputDeviceInfo| d@) =~= seq![first@]
                            + before.map_values(|d: InputDeviceInfo| d@));
                        results
                    }
                },
            }
        },
    }
}

} // verus!
