use ftp_core::text::str_eq;
use ftp_core::text::str_ieq;
use ftp_core::text::u16_to_dec;

#[test]
fn test_u16_to_dec() {
    assert_eq!(u16_to_dec(0), "0");
    assert_eq!(u16_to_dec(7), "7");
    assert_eq!(u16_to_dec(10), "10");
    assert_eq!(u16_to_dec(256), "256");
    assert_eq!(u16_to_dec(1000), "1000");
    assert_eq!(u16_to_dec(65535), "65535");
}

#[test]
fn test_str_eq() {
    assert!(str_eq("anonymous", "anonymous"));
    assert!(!str_eq("anonymous", "anonymouS"));
    assert!(!str_eq("a", "ab"));
    assert!(str_eq("", ""));
}

#[test]
fn test_str_ieq() {
    assert!(str_ieq("quit", "QUIT"));
    assert!(str_ieq("qUiT", "Quit"));
    assert!(!str_ieq("quit", "quit "));
    assert!(!str_ieq("quit", "quip"));
    // case folding covers ASCII letters alone
    assert!(!str_ieq("[", "{"));
}
