use gtk_signals::recent_data::RecentData;
use gtk_signals::translate::{bool_from_glib, bool_to_glib, c_prefix_of, text_from_c_buffer, to_c_buffer};

fn record(groups: Vec<&str>, is_private: bool) -> RecentData {
    RecentData::new(
        "Report".to_string(),
        "Quarterly report".to_string(),
        "text/plain".to_string(),
        "editor".to_string(),
        "editor %u".to_string(),
        groups.into_iter().map(|g| g.to_string()).collect(),
        is_private,
    )
}

#[test]
fn empty_record_gives_empty_strings_and_bare_terminator() {
    let d = RecentData::new(
        String::new(),
        String::new(),
        String::new(),
        String::new(),
        String::new(),
        vec![],
        false,
    );
    let n = d.to_glib_none();
    assert_eq!(n.display_name, vec![0u8]);
    assert_eq!(n.description, vec![0u8]);
    assert_eq!(n.mime_type, vec![0u8]);
    assert_eq!(n.app_name, vec![0u8]);
    assert_eq!(n.app_exec, vec![0u8]);
    assert_eq!(n.groups, vec![None]);
    assert_eq!(n.is_private, 0);
}

#[test]
fn group_array_has_one_more_entry_ending_in_null() {
    let d = record(vec!["office", "work", "été"], true);
    let n = d.to_glib_none();
    assert_eq!(n.groups.len(), 4);
    assert_eq!(n.groups[0], Some(b"office\0".to_vec()));
    assert_eq!(n.groups[1], Some(b"work\0".to_vec()));
    assert_eq!(n.groups[2], Some("été\0".as_bytes().to_vec()));
    assert_eq!(n.groups[3], None);
    assert_eq!(n.display_name, b"Report\0".to_vec());
    assert_eq!(n.app_exec, b"editor %u\0".to_vec());
    assert_eq!(n.mime_type, b"text/plain\0".to_vec());
    assert_eq!(n.is_private, 1);
}

#[test]
fn embedded_nul_is_kept_and_truncates_for_a_c_reader() {
    let d = RecentData::new(
        "a\0b".to_string(),
        String::new(),
        String::new(),
        String::new(),
        String::new(),
        vec![],
        false,
    );
    let n = d.to_glib_none();
    assert_eq!(n.display_name, vec![b'a', 0, b'b', 0]);
    assert_eq!(c_prefix_of(&n.display_name), vec![b'a']);
}

#[test]
fn flag_encoding() {
    assert_eq!(bool_to_glib(true), 1);
    assert_eq!(bool_to_glib(false), 0);
    assert!(bool_from_glib(1));
    assert!(bool_from_glib(42));
    assert!(!bool_from_glib(0));
    assert!(bool_from_glib(bool_to_glib(true)));
    assert!(!bool_from_glib(bool_to_glib(false)));
}

#[test]
fn c_buffers() {
    assert_eq!(to_c_buffer("abc"), vec![b'a', b'b', b'c', 0]);
    assert_eq!(to_c_buffer(""), vec![0]);
    assert_eq!(c_prefix_of(&[b'x', b'y', 0, b'z']), vec![b'x', b'y']);
    assert_eq!(c_prefix_of(&[b'x', b'y']), vec![b'x', b'y']);
    assert_eq!(c_prefix_of(&[0, b'z']), Vec::<u8>::new());
    assert_eq!(text_from_c_buffer(b"caf\xc3\xa9\0tail"), Some("café".to_string()));
    assert_eq!(text_from_c_buffer(b"\xc3\0"), None);
    assert_eq!(text_from_c_buffer(b"\0\xff"), Some(String::new()));
}

#[test]
fn c_buffer_reads_back_as_its_text() {
    for s in ["", "plain", "naïve café", "日本語", "emoji 🎉"] {
        let buf = to_c_buffer(s);
        assert_eq!(buf.last(), Some(&0u8));
        assert_eq!(text_from_c_buffer(&buf), Some(s.to_string()));
    }
}
