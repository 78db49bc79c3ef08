use format_cache::cache::{CachePath, FormatCache};
use format_cache::digest::DigestData;
use format_cache::digits::{decimal_string, digit_str};
use format_cache::errors::NamingError;
use format_cache::layout::{is_valid_stem, stem};

fn digest_of(b: u8) -> DigestData {
    DigestData::new([b; 32])
}

fn cache() -> FormatCache {
    FormatCache::new(digest_of(0xab), String::from("/var/cache/formats"), 28)
}

#[test]
fn digits_are_lower_case_hex() {
    let all: Vec<&str> = (0u8..16).map(digit_str).collect();
    assert_eq!(all.concat(), "0123456789abcdef");
}

#[test]
fn decimal_has_no_leading_zeros() {
    assert_eq!(decimal_string(0), "0");
    assert_eq!(decimal_string(7), "7");
    assert_eq!(decimal_string(10), "10");
    assert_eq!(decimal_string(28), "28");
    assert_eq!(decimal_string(1005), "1005");
    assert_eq!(decimal_string(u32::MAX), "4294967295");
}

#[test]
fn digest_is_written_as_64_hex_characters() {
    let mut bytes = [0u8; 32];
    for (i, b) in bytes.iter_mut().enumerate() {
        *b = (i as u8) * 8 + 1;
    }
    let text = DigestData::new(bytes).to_string();
    assert_eq!(
        text,
        "0109111921293139414951596169717981899199a1a9b1b9c1c9d1d9e1e9f1f9"
    );
    assert_eq!(text.len(), 64);
    assert_eq!(&text[0..8], "01091119");
    assert_eq!(&text[60..64], "f1f9");
    assert_eq!(DigestData::new([0u8; 32]).to_string(), "0".repeat(64));
    assert_eq!(DigestData::new([0xff; 32]).to_string(), "f".repeat(64));
    assert_eq!(DigestData::new([0x0a; 32]).to_string(), "0a".repeat(32));
}

#[test]
fn stem_is_what_stands_before_the_first_dot() {
    assert_eq!(stem("latex.fmt"), "latex");
    assert_eq!(stem("a.b.c"), "a");
    assert_eq!(stem("plain"), "plain");
    assert_eq!(stem(""), "");
    assert_eq!(stem(".ext"), "");
    assert_eq!(stem("trailing."), "trailing");
    assert_eq!(stem("f\u{fc}r.fmt"), "f\u{fc}r");
}

#[test]
fn entry_path_has_digest_stem_and_generation() {
    let p = cache().path_for_format("latex.fmt").unwrap();
    assert_eq!(p.dir, "/var/cache/formats");
    assert_eq!(p.file_name, format!("{}-latex-28.fmt", "ab".repeat(32)));
}

#[test]
fn resolving_twice_gives_the_same_path() {
    let c = cache();
    assert_eq!(c.path_for_format("latex.fmt").unwrap(), c.path_for_format("latex.fmt").unwrap());
}

#[test]
fn any_change_of_key_changes_the_path() {
    let base = cache().path_for_format("latex").unwrap();
    let other_digest = FormatCache::new(digest_of(0xac), String::from("/var/cache/formats"), 28);
    let other_generation = FormatCache::new(digest_of(0xab), String::from("/var/cache/formats"), 29);
    assert_ne!(other_digest.path_for_format("latex").unwrap(), base);
    assert_ne!(other_generation.path_for_format("latex").unwrap(), base);
    assert_ne!(cache().path_for_format("plain").unwrap(), base);
    // a stem that ends like a generation does not collide with a shorter one
    let g1 = FormatCache::new(digest_of(0xab), String::from("d"), 1);
    let g21 = FormatCache::new(digest_of(0xab), String::from("d"), 21);
    assert_ne!(g1.path_for_format("x-2").unwrap(), g21.path_for_format("x").unwrap());
}

#[test]
fn suffix_of_name_is_ignored() {
    let c = cache();
    let a = c.path_for_format("foo.fmt").unwrap();
    let b = c.path_for_format("foo.anything").unwrap();
    let bare = c.path_for_format("foo").unwrap();
    assert_eq!(a, b);
    assert_eq!(a, bare);
}

#[test]
fn name_without_stem_is_refused() {
    let c = cache();
    assert_eq!(c.path_for_format(""), Err(NamingError { name: String::new() }));
    assert_eq!(c.path_for_format(".ext"), Err(NamingError { name: String::from(".ext") }));
}

#[test]
fn naming_error_message_holds_the_name() {
    let e = NamingError { name: String::from(".ext") };
    assert_eq!(e.message(), "incomprehensible format file name \".ext\"");
}

#[test]
fn marker_is_the_entry_with_ok_appended() {
    let entry = cache().path_for_format("latex.fmt").unwrap();
    let marker = FormatCache::path_for_format_marker(&entry);
    assert_eq!(marker.dir, entry.dir);
    assert_eq!(marker.file_name, format!("{}.ok", entry.file_name));
    let odd = CachePath { dir: String::from("d"), file_name: String::new() };
    assert_eq!(FormatCache::path_for_format_marker(&odd).file_name, ".ok");
}

#[test]
fn stem_with_a_separator_is_not_valid() {
    assert!(is_valid_stem("latex"));
    assert!(is_valid_stem("x-2"));
    assert!(is_valid_stem(""));
    assert!(!is_valid_stem("a/b"));
    assert!(!is_valid_stem("/x"));
    assert!(!is_valid_stem("x/"));
    assert!(!is_valid_stem("a\\b"));
    assert!(!is_valid_stem("a\0b"));
}

#[test]
fn name_with_a_separator_in_its_stem_is_refused() {
    let c = cache();
    for name in ["a/b", "/x", "/x.fmt", "../up.fmt", "a\\b.fmt", "nul\0.fmt", "x/"] {
        assert_eq!(c.path_for_format(name), Err(NamingError { name: String::from(name) }));
    }
}

#[test]
fn separator_behind_the_first_dot_does_not_count() {
    let c = cache();
    let plain = c.path_for_format("x").unwrap();
    assert_eq!(c.path_for_format("x.a/b").unwrap(), plain);
    assert_eq!(c.path_for_format("x./").unwrap(), plain);
}

#[test]
fn resolved_file_name_is_one_path_component() {
    let c = cache();
    for name in ["latex.fmt", "x-2", "f\u{fc}r", "a b.c/d"] {
        let entry = c.path_for_format(name).unwrap();
        let marker = FormatCache::path_for_format_marker(&entry);
        for text in [&entry.file_name, &marker.file_name] {
            assert!(!text.contains('/') && !text.contains('\\') && !text.contains('\0'));
        }
        assert!(entry.file_name.ends_with(".fmt"));
        assert!(marker.file_name.ends_with(".fmt.ok"));
    }
}
