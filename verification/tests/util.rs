use zeroconf::address::get_ip;
use zeroconf::bonjour_util::{contains_nul, normalize_domain};

#[test]
fn normalize_domain_removes_one_final_dot() {
    assert_eq!(normalize_domain("local."), "local");
    assert_eq!(normalize_domain("example.org."), "example.org");
    assert_eq!(normalize_domain("a.."), "a.");
    assert_eq!(normalize_domain("."), "");
}

#[test]
fn normalize_domain_keeps_a_domain_without_final_dot() {
    assert_eq!(normalize_domain("local"), "local");
    assert_eq!(normalize_domain(""), "");
    assert_eq!(normalize_domain(".local"), ".local");
    assert_eq!(normalize_domain("exämple.örg"), "exämple.örg");
}

#[test]
fn normalize_domain_counts_characters_not_bytes() {
    assert_eq!(normalize_domain("exämple.örg."), "exämple.örg");
    assert_eq!(normalize_domain("日本."), "日本");
}

#[test]
fn get_ip_renders_dotted_decimal() {
    assert_eq!(get_ip([10, 0, 0, 5]), "10.0.0.5");
    assert_eq!(get_ip([0, 0, 0, 0]), "0.0.0.0");
    assert_eq!(get_ip([255, 255, 255, 255]), "255.255.255.255");
    assert_eq!(get_ip([192, 168, 1, 100]), "192.168.1.100");
    assert_eq!(get_ip([9, 10, 99, 100]), "9.10.99.100");
    assert_eq!(get_ip([101, 110, 200, 209]), "101.110.200.209");
}

#[test]
fn get_ip_agrees_with_decimal_formatting() {
    for a in 0..=255u8 {
        let b = a.wrapping_mul(7).wrapping_add(3);
        assert_eq!(get_ip([a, b, 255 - a, 0]), format!("{}.{}.{}.{}", a, b, 255 - a, 0));
    }
}

#[test]
fn contains_nul_finds_the_character() {
    assert!(contains_nul("\0"));
    assert!(contains_nul("ab\0"));
    assert!(contains_nul("\0ab"));
    assert!(contains_nul("a\0b"));
    assert!(contains_nul("ä\0"));
    assert!(!contains_nul(""));
    assert!(!contains_nul("_http._tcp"));
    assert!(!contains_nul("0"));
    assert!(!contains_nul("日本"));
}
