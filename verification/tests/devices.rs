use mypitch::device::{
    device_to_info, list_input_devices, parse_index, parse_selector, resolve_input_device,
    selector_for, DeviceProbe, Selector, StreamFormat,
};
use mypitch::error::{AudioError, EnumerationUse, SelectorFault};

fn probe(name: Option<&str>, format: Option<(u32, u16)>) -> DeviceProbe {
    DeviceProbe {
        name: name.map(|n| n.to_string()),
        format: format.map(|(sample_rate, channels)| StreamFormat { sample_rate, channels }),
    }
}

#[test]
fn no_selector_asks_for_the_default() {
    assert!(matches!(parse_selector(None), Ok(Selector::Default)));
    assert!(matches!(parse_selector(Some("default")), Ok(Selector::Default)));
}

#[test]
fn indexed_selectors_are_read() {
    assert!(matches!(parse_selector(Some("input-0")), Ok(Selector::Index(0))));
    assert!(matches!(parse_selector(Some("input-7")), Ok(Selector::Index(7))));
    assert!(matches!(parse_selector(Some("input-12")), Ok(Selector::Index(12))));
    assert!(matches!(parse_selector(Some("input-007")), Ok(Selector::Index(7))));
    assert!(matches!(parse_selector(Some("input-+3")), Ok(Selector::Index(3))));
}

#[test]
fn selectors_without_the_prefix_have_a_bad_format() {
    for text in ["", "Default", "default ", " default", "output-1", "input", "inpu-1", "Input-1", "7", "défault"] {
        assert!(
            matches!(
                parse_selector(Some(text)),
                Err(AudioError::InvalidSelector(SelectorFault::Format))
            ),
            "{:?}",
            text
        );
    }
}

#[test]
fn selectors_with_a_bad_index() {
    for text in [
        "input-",
        "input-x",
        "input--1",
        "input-1 ",
        "input- 1",
        "input-1.5",
        "input-+",
        "input-++1",
        "input-0x10",
        "input-99999999999999999999999999",
        "input-١",
        "input-1é",
    ] {
        assert!(
            matches!(
                parse_selector(Some(text)),
                Err(AudioError::InvalidSelector(SelectorFault::Index))
            ),
            "{:?}",
            text
        );
    }
}

#[test]
fn index_agrees_with_the_standard_reader() {
    let texts = [
        "0",
        "1",
        "+1",
        "-1",
        "",
        "+",
        "-",
        "00012",
        "18446744073709551615",
        "18446744073709551616",
        "018446744073709551615",
        "184467440737095516150",
        "12a",
        "a12",
        " 12",
        "1_000",
        "٣",
    ];
    for t in texts {
        assert_eq!(parse_index(t), t.parse::<usize>().ok(), "{:?}", t);
    }
}

#[test]
fn written_selectors_read_back() {
    for i in [0usize, 1, 9, 10, 99, 100, 12345, usize::MAX] {
        let id = selector_for(i);
        assert_eq!(id, format!("input-{}", i));
        assert!(matches!(parse_selector(Some(&id)), Ok(Selector::Index(n)) if n == i));
    }
}

#[test]
fn default_device_resolves_to_the_word_default() {
    let r = resolve_input_device(None, true, Ok(0)).expect("resolved");
    assert_eq!(r.id, "default");
    assert_eq!(r.place, None);
    let r = resolve_input_device(Some("default"), true, Err("broken".to_string())).expect("resolved");
    assert_eq!(r.id, "default");
    assert_eq!(r.place, None);
}

#[test]
fn missing_default_device() {
    let e = resolve_input_device(None, false, Ok(3)).err().expect("an error");
    assert!(matches!(e, AudioError::NoDefaultDevice));
    assert_eq!(e.message(), "No default input device found");
}

#[test]
fn indexed_device_resolves_to_its_place() {
    let r = resolve_input_device(Some("input-2"), false, Ok(3)).expect("resolved");
    assert_eq!(r.id, "input-2");
    assert_eq!(r.place, Some(2));
    let r = resolve_input_device(Some("input-+02"), false, Ok(3)).expect("resolved");
    assert_eq!(r.id, "input-+02");
    assert_eq!(r.place, Some(2));
}

#[test]
fn index_beyond_the_list_is_not_found() {
    let e = resolve_input_device(Some("input-3"), true, Ok(3)).err().expect("an error");
    assert!(matches!(e, AudioError::DeviceNotFound));
    assert_eq!(e.message(), "Requested input device not found");
    let e = resolve_input_device(Some("input-0"), true, Ok(0)).err().expect("an error");
    assert!(matches!(e, AudioError::DeviceNotFound));
}

#[test]
fn failed_enumeration_is_reported() {
    let e = resolve_input_device(Some("input-0"), true, Err("backend gone".to_string()))
        .err()
        .expect("an error");
    assert!(matches!(&e, AudioError::DeviceEnumerationFailure(EnumerationUse::Resolving, d) if d == "backend gone"));
    assert_eq!(e.message(), "Failed to enumerate input devices: backend gone");
}

#[test]
fn unreadable_selector_fails_whatever_the_host_says() {
    let e = resolve_input_device(Some("mic"), true, Ok(5)).err().expect("an error");
    assert_eq!(e.message(), "Invalid device_id format");
    let e = resolve_input_device(Some("input-one"), true, Ok(5)).err().expect("an error");
    assert_eq!(e.message(), "Invalid device_id index");
}

#[test]
fn device_description() {
    let info = device_to_info("input-4".to_string(), &probe(Some("USB Mic"), Some((48000, 2))));
    assert_eq!(info.id, "input-4");
    assert_eq!(info.name, "USB Mic");
    assert_eq!(info.default_sample_rate, Some(48000));
    assert_eq!(info.channels, Some(2));
    let info = device_to_info("default".to_string(), &probe(None, None));
    assert_eq!(info.name, "Unknown Input Device");
    assert_eq!(info.default_sample_rate, None);
    assert_eq!(info.channels, None);
}

#[test]
fn list_shows_enumerated_devices_in_order() {
    let devices = vec![probe(Some("A"), Some((44100, 1))), probe(None, None), probe(Some("C"), Some((48000, 2)))];
    let list = list_input_devices(&devices, None);
    assert_eq!(list.len(), 3);
    assert_eq!(list[0].id, "input-0");
    assert_eq!(list[0].name, "A");
    assert_eq!(list[1].id, "input-1");
    assert_eq!(list[1].name, "Unknown Input Device");
    assert_eq!(list[2].id, "input-2");
    assert_eq!(list[2].channels, Some(2));
}

#[test]
fn default_device_already_listed_is_not_added() {
    let devices = vec![probe(Some("A"), None), probe(Some("B"), None)];
    let default = probe(Some("B"), Some((44100, 2)));
    let list = list_input_devices(&devices, Some(&default));
    assert_eq!(list.len(), 2);
    assert_eq!(list[0].id, "input-0");
    assert_eq!(list[1].id, "input-1");
}

#[test]
fn default_device_not_listed_comes_first() {
    let devices = vec![probe(Some("A"), None), probe(Some("B"), None)];
    let default = probe(Some("Z"), Some((44100, 2)));
    let list = list_input_devices(&devices, Some(&default));
    assert_eq!(list.len(), 3);
    assert_eq!(list[0].id, "default");
    assert_eq!(list[0].name, "Z");
    assert_eq!(list[0].default_sample_rate, Some(44100));
    assert_eq!(list[1].id, "input-0");
    assert_eq!(list[2].id, "input-1");
}

#[test]
fn default_device_without_a_name_is_not_added() {
    let devices = vec![probe(Some("A"), None)];
    let default = probe(None, Some((44100, 2)));
    let list = list_input_devices(&devices, Some(&default));
    assert_eq!(list.len(), 1);
    let list = list_input_devices(&Vec::new(), Some(&probe(Some("Only"), None)));
    assert_eq!(list.len(), 1);
    assert_eq!(list[0].id, "default");
    let list = list_input_devices(&Vec::new(), None);
    assert!(list.is_empty());
}
