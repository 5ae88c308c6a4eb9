use mouse_speed_switcher::devices::{
    describe_device, instance_id_text, parse_vid_pid, registry_string, registry_strings, take_hex4,
};
use mouse_speed_switcher::utf16::{decode_lossy, encode, encode_z};

fn ids(list: &[&str]) -> (Option<String>, Option<String>) {
    parse_vid_pid(&list.iter().map(|s| s.to_string()).collect())
}

#[test]
fn ids_are_taken_from_the_first_complete_hardware_id() {
    assert_eq!(
        ids(&["HID\\VID_046D&PID_C52B&MI_02"]),
        (Some("046D".into()), Some("C52B".into()))
    );
    assert_eq!(
        ids(&["HID\\VID_046D", "hid\\vid_056e&pid_01c5"]),
        (Some("056E".into()), Some("01C5".into()))
    );
    assert_eq!(ids(&["VID_12G4&PID_0000"]), (None, None));
    assert_eq!(ids(&["VID_12"]), (None, None));
    assert_eq!(ids(&[]), (None, None));
    // Only the first tag counts.
    assert_eq!(ids(&["VID_XXXX&VID_1234&PID_5678"]), (None, None));
}

#[test]
fn four_hexadecimal_digits() {
    assert_eq!(take_hex4("046Dxyz").as_deref(), Some("046D"));
    assert_eq!(take_hex4("04af").as_deref(), Some("04af"));
    assert_eq!(take_hex4("046"), None);
    assert_eq!(take_hex4("é46D"), None);
}

#[test]
fn registry_texts() {
    let u = encode("ab\0cd\0\0ef\0");
    assert_eq!(registry_strings(&u), vec!["ab".to_string(), "cd".to_string()]);
    assert_eq!(registry_strings(&encode("ab\0cd")), vec!["ab".to_string()]);
    assert_eq!(registry_strings(&encode("\0ab\0")), Vec::<String>::new());
    assert_eq!(registry_string(&u), "ab");
    assert_eq!(registry_string(&encode("xyz")), "xyz");
    assert_eq!(registry_string(&[]), "");
}

#[test]
fn instance_ids_lose_their_zero() {
    let mut buf = encode("HID\\A&B");
    buf.push(0);
    buf.push(7);
    assert_eq!(instance_id_text(&buf, 8).as_deref(), Some("HID\\A&B"));
    assert_eq!(instance_id_text(&buf, 3).as_deref(), Some("HID"));
    assert_eq!(instance_id_text(&buf, 0), None);
    assert_eq!(instance_id_text(&encode("AB"), 100).as_deref(), Some("AB"));
}

#[test]
fn names_fall_back() {
    let hw = vec!["HID\\VID_046D&PID_C52B".to_string()];
    let d = describe_device(Some("I".into()), &hw, Some("N".into()), Some("D".into()));
    assert_eq!((d.name.as_str(), d.instance_id.as_str()), ("N", "I"));
    assert_eq!((d.vid.as_deref(), d.pid.as_deref()), (Some("046D"), Some("C52B")));
    let d = describe_device(Some("I".into()), &vec![], None, Some("D".into()));
    assert_eq!(d.name, "D");
    assert!(d.vid.is_none() && d.pid.is_none());
    let d = describe_device(Some("I".into()), &vec![], None, None);
    assert_eq!(d.name, "I");
    let d = describe_device(None, &vec![], None, None);
    assert_eq!((d.name.as_str(), d.instance_id.as_str()), ("", ""));
}

#[test]
fn utf16_round_trip_and_lone_surrogates() {
    let s = "a轨迹球\u{1F5B1}\u{FFFF}z";
    assert_eq!(encode(s), s.encode_utf16().collect::<Vec<u16>>());
    assert_eq!(decode_lossy(&encode(s)), s);
    let broken = [0x41, 0xD83D, 0x42, 0xDE00, 0xD83D, 0xD83D, 0xDE00, 0xDBFF];
    assert_eq!(decode_lossy(&broken), String::from_utf16_lossy(&broken));
    assert_eq!(encode_z("k"), vec![0x6B, 0]);
}
