use trc2ctf::types::{Error, StringCache};

#[test]
fn interning_twice_returns_identical_handle_and_converts_once() {
    let mut cache = StringCache::new();
    let h1 = cache.insert_str("task-a").unwrap();
    let converted_after_first = cache.strings_len();
    let h2 = cache.insert_str("task-a").unwrap();
    assert_eq!(h1, h2);
    // the underlying conversion ran exactly once: the table did not grow
    assert_eq!(cache.strings_len(), converted_after_first);
    assert_eq!(cache.get_str(h1), "task-a");
}

#[test]
fn distinct_texts_get_distinct_handles() {
    let mut cache = StringCache::new();
    let h1 = cache.insert_str("alpha").unwrap();
    let h2 = cache.insert_str("beta").unwrap();
    assert_ne!(h1, h2);
    assert_eq!(cache.get_str(h1), "alpha");
    assert_eq!(cache.get_str(h2), "beta");
    assert_eq!(cache.strings_len(), 2);
}

#[test]
fn embedded_nul_is_a_text_conversion_error() {
    let mut cache = StringCache::new();
    assert_eq!(cache.insert_str("bad\0text"), Err(Error::TextConversion));
    assert_eq!(cache.strings_len(), 0);
}

#[test]
fn kind_interning_is_keyed_by_kind_value() {
    let mut cache = StringCache::new();
    let h1 = cache.insert_type(0x30, "TASK_READY").unwrap();
    let h2 = cache.insert_type(0x30, "TASK_READY").unwrap();
    assert_eq!(h1, h2);
    assert_eq!(cache.get_type(0x30), Some(h1));
    assert_eq!(cache.get_type(0x31), None);
    assert_eq!(cache.get_str(h1), "TASK_READY");
}

#[test]
fn kind_name_and_equal_free_string_share_no_key() {
    let mut cache = StringCache::new();
    let th = cache.insert_type(0x30, "TASK_READY").unwrap();
    // a free-form string with the same text resolves through its own table
    let sh = cache.insert_str("TASK_READY").unwrap();
    assert_eq!(cache.get_str(th), cache.get_str(sh));
    // looking up a different kind never returns the free string's entry
    assert_eq!(cache.get_type(0x99), None);
}
