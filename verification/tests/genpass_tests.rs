use rcli::process_genpass;

const UPPER: &[u8] = b"ABCDEFGHJKLMNPQRSTUVWXYZ";
const LOWER: &[u8] = b"abcdefghijkmnopqrstuvwxyz";
const NUMBER: &[u8] = b"123456789";
const SYMBOL: &[u8] = b"!@#$%^&*()_-=[]{}:,.<>?";

#[test]
fn test_genpass_length_and_classes() {
    let p = process_genpass(16, true, true, true, true).unwrap();
    assert_eq!(p.len(), 16);
    assert!(p.iter().all(|b| {
        UPPER.contains(b) || LOWER.contains(b) || NUMBER.contains(b) || SYMBOL.contains(b)
    }));
    assert!(p.iter().any(|b| UPPER.contains(b)));
    assert!(p.iter().any(|b| LOWER.contains(b)));
    assert!(p.iter().any(|b| NUMBER.contains(b)));
    assert!(p.iter().any(|b| SYMBOL.contains(b)));
}

#[test]
fn test_genpass_single_class() {
    let p = process_genpass(12, false, false, true, false).unwrap();
    assert_eq!(p.len(), 12);
    assert!(p.iter().all(|b| NUMBER.contains(b)));
}

#[test]
fn test_genpass_no_class_fails() {
    assert_eq!(
        process_genpass(8, false, false, false, false),
        Err("Invalid character set")
    );
    // A zero-length request needs no character class at all.
    assert_eq!(process_genpass(0, false, false, false, false), Ok(Vec::new()));
}

#[test]
fn test_genpass_is_printable_ascii() {
    let p = process_genpass(32, true, true, true, true).unwrap();
    assert!(String::from_utf8(p).unwrap().chars().all(|c| c.is_ascii_graphic()));
}
