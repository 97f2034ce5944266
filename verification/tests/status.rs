use audioshop::cf::{
    check_os_status, CFError, CFMutableArray, CFMutableDictionary, CFNumber, CFString, CFValue,
    NO_ERR,
};

#[test]
fn zero_status_is_success() {
    assert_eq!(NO_ERR, 0);
    assert_eq!(check_os_status(0), Ok(()));
}

#[test]
fn non_zero_status_is_carried() {
    assert_eq!(check_os_status(-50), Err(CFError(-50)));
    assert_eq!(check_os_status(560947818), Err(CFError(560947818)));
    assert_eq!(check_os_status(i32::MIN), Err(CFError(i32::MIN)));
    assert_eq!(CFError(-50).status(), -50);
}

#[test]
fn error_text_is_the_status_in_hexadecimal() {
    assert_eq!(CFError(560947818).to_string(), "OSStatus(216f626a)");
    assert_eq!(CFError(0).to_string(), "OSStatus(0)");
    assert_eq!(CFError(1).to_string(), "OSStatus(1)");
    assert_eq!(CFError(15).to_string(), "OSStatus(f)");
    assert_eq!(CFError(16).to_string(), "OSStatus(10)");
    assert_eq!(CFError(255).to_string(), "OSStatus(ff)");
    assert_eq!(CFError(i32::MAX).to_string(), "OSStatus(7fffffff)");
}

#[test]
fn error_text_of_a_negative_status_shows_its_32_bits() {
    assert_eq!(CFError(-1).to_string(), "OSStatus(ffffffff)");
    assert_eq!(CFError(-50).to_string(), "OSStatus(ffffffce)");
    assert_eq!(CFError(i32::MIN).to_string(), "OSStatus(80000000)");
    for s in [-50, -1, 0, 7, 4096, 560947818, i32::MAX, i32::MIN] {
        assert_eq!(CFError(s).to_string(), format!("OSStatus({:x})", s));
    }
}

#[test]
fn string_keeps_its_text() {
    let s = CFString::new("com.apple.audio.CoreAudio");
    assert_eq!(s.to_string(), "com.apple.audio.CoreAudio");
    assert_eq!(s.as_str(), "com.apple.audio.CoreAudio");
    assert_eq!(s.clone(), s);
    assert!(s.same_text(&CFString::new("com.apple.audio.CoreAudio")));
    assert!(!s.same_text(&CFString::new("com.apple.audio.coreaudio")));
    assert_eq!(CFString::new("").to_string(), "");
    assert_eq!(CFString::new("Gerät ♪").to_string(), "Gerät ♪");
}

#[test]
fn number_keeps_its_value() {
    assert_eq!(CFNumber::new(1).value(), 1);
    assert_eq!(CFNumber::new(-7).value(), -7);
}

#[test]
fn array_keeps_the_order_of_its_strings() {
    let mut array = CFMutableArray::new();
    assert_eq!(array.clone_immutable().len(), 0);
    array.push(CFString::new("b"));
    array.push(CFString::new("a"));
    array.push(CFString::new("b"));
    let frozen = array.clone_immutable();
    assert_eq!(frozen.len(), 3);
    assert_eq!(frozen.get(0).to_string(), "b");
    assert_eq!(frozen.get(1).to_string(), "a");
    assert_eq!(frozen.get(2).to_string(), "b");
    array.push(CFString::new("c"));
    assert_eq!(frozen.len(), 3);
    assert_eq!(array.clone_immutable().len(), 4);
}

#[test]
fn dictionary_adds_a_key_once() {
    let mut d = CFMutableDictionary::new();
    assert!(!d.contains_key(&CFString::new("uid")));
    d.insert(CFString::new("uid"), CFValue::String(CFString::new("first")));
    d.insert(CFString::new("private"), CFValue::Number(CFNumber::new(1)));
    d.insert(CFString::new("uid"), CFValue::String(CFString::new("second")));
    assert!(d.contains_key(&CFString::new("uid")));
    assert!(!d.contains_key(&CFString::new("name")));
    let frozen = d.clone_immutable();
    assert_eq!(frozen.len(), 2);
    assert_eq!(frozen.key(0).to_string(), "uid");
    assert_eq!(*frozen.value(0), CFValue::String(CFString::new("first")));
    assert_eq!(frozen.key(1).to_string(), "private");
    assert_eq!(*frozen.value(1), CFValue::Number(CFNumber::new(1)));
}
