use opencode_container::project::{bytes_to_text, storage_components, ProjectIdError, Storage};
use opencode_container::util::{compute_project_id, decode_base64url};
use opencode_container::text::{parse_u16, u16_to_decimal, str_eq, split_once_char};

#[test]
fn decimal_ports() {
    assert_eq!(u16_to_decimal(0), "0");
    assert_eq!(u16_to_decimal(7), "7");
    assert_eq!(u16_to_decimal(4096), "4096");
    assert_eq!(u16_to_decimal(65535), "65535");
}

#[test]
fn ports_parse_as_std_does() {
    for s in ["80", "+80", "0080", "65535", "0", "-1", "65536", "", "+", "8a", " 80", "-0"] {
        assert_eq!(parse_u16(s), s.parse::<u16>().ok(), "{:?}", s);
    }
}

#[test]
fn string_helpers() {
    assert!(str_eq("abc", "abc"));
    assert!(!str_eq("abc", "abd"));
    assert!(!str_eq("ab", "abc"));
    assert_eq!(split_once_char("A=b=c", '='), Some(("A".to_string(), "b=c".to_string())));
    assert_eq!(split_once_char("A", '='), None);
    assert_eq!(split_once_char("=", '='), Some((String::new(), String::new())));
}

#[test]
fn project_id_is_url_safe_base64_without_padding() {
    assert_eq!(compute_project_id("/code"), "L2NvZGU");
    assert_eq!(compute_project_id(""), "");
    assert_eq!(compute_project_id("/ab"), "L2Fi");
    assert_eq!(compute_project_id("~~~"), "fn5-");
    assert_eq!(compute_project_id("???"), "Pz8_");
    assert_eq!(compute_project_id("/home/user/project"), "L2hvbWUvdXNlci9wcm9qZWN0");
    assert_eq!(compute_project_id("/abc"), "L2FiYw");
    assert_eq!(compute_project_id("/tmp/ü?>"), "L3RtcC_DvD8-");
}

#[test]
fn distinct_paths_distinct_ids() {
    assert_ne!(compute_project_id("/home/a/x"), compute_project_id("/home/a/y"));
    assert_ne!(compute_project_id("/a"), compute_project_id("/a/"));
}

#[test]
fn decoding_round_trips() {
    for p in ["/ab", "/code", "/home/user/proj", "/home/user/project1", "~~~", "???", "", "/é/ü"] {
        let id = compute_project_id(p);
        assert_eq!(decode_base64url(&id), Ok(p.to_string()), "{}", p);
    }
    assert_eq!(decode_base64url("L2NvZGU"), Ok("/code".to_string()));
}

#[test]
fn decoding_fails_outside_the_alphabet() {
    assert_eq!(decode_base64url("L2NvZGU="), Err(ProjectIdError::InvalidBase64));
    assert_eq!(decode_base64url("a+b/"), Err(ProjectIdError::InvalidBase64));
    assert_eq!(decode_base64url("!!!!"), Err(ProjectIdError::InvalidBase64));
    assert_eq!(decode_base64url("L2F!"), Err(ProjectIdError::InvalidBase64));
}

#[test]
fn decoding_fails_on_one_trailing_symbol() {
    assert_eq!(decode_base64url("L"), Err(ProjectIdError::InvalidBase64));
    assert_eq!(decode_base64url("L2FiY"), Err(ProjectIdError::InvalidBase64));
    assert_eq!(decode_base64url(""), Ok(String::new()));
}

#[test]
fn decoding_fails_on_a_non_canonical_last_symbol() {
    // "L2E" encodes "/a"; "L2F" sets bits that no byte uses
    assert_eq!(decode_base64url("L2E"), Ok("/a".to_string()));
    assert_eq!(decode_base64url("L2F"), Err(ProjectIdError::InvalidBase64));
}

#[test]
fn lossy_text_replaces_invalid_bytes() {
    assert_eq!(bytes_to_text(b"abc"), "abc");
    assert_eq!(bytes_to_text(&[0x61, 0xff, 0x62]), "a\u{FFFD}b");
}

#[test]
fn storage_directories_are_separate() {
    assert_eq!(storage_components(Storage::Data, "L2Fi"), vec!["opencode", "data", "L2Fi"]);
    assert_eq!(storage_components(Storage::Config, "L2Fi"), vec!["opencode", "config", "L2Fi"]);
    assert_eq!(storage_components(Storage::Cache, "L2Fi"), vec!["opencode", "cache", "L2Fi"]);
    assert_ne!(storage_components(Storage::Data, "x"), storage_components(Storage::Config, "x"));
}
