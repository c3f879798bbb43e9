use creek::backends::audio_rodio::SoundTable;

#[test]
fn loaded_sounds_get_consecutive_ids_from_zero() {
    let mut t: SoundTable<&str> = SoundTable::new();
    assert_eq!(t.len(), 0);
    assert_eq!(t.load("a"), 0);
    assert_eq!(t.load("b"), 1);
    assert_eq!(t.load("c"), 2);
    assert_eq!(t.len(), 3);
}

#[test]
fn sounds_are_found_by_id() {
    let mut t: SoundTable<String> = SoundTable::new();
    let a = t.load("first".to_string());
    let b = t.load("second".to_string());
    assert_eq!(t.find(a).map(|s| s.as_str()), Some("first"));
    assert_eq!(t.find(b).map(|s| s.as_str()), Some("second"));
    assert_eq!(t.find(2), None);
    assert_eq!(t.find(u32::MAX), None);
}

#[test]
fn empty_table_finds_nothing() {
    let t: SoundTable<u8> = SoundTable::new();
    assert_eq!(t.find(0), None);
}

#[test]
fn loading_keeps_earlier_ids() {
    let mut t: SoundTable<u32> = SoundTable::new();
    for i in 0..10u32 {
        assert_eq!(t.load(i * 10), i);
    }
    for i in 0..10u32 {
        assert_eq!(t.find(i), Some(&(i * 10)));
    }
}

#[test]
fn sound_ids_are_dense_in_load_order() {
    let mut t: SoundTable<u32> = SoundTable::new();
    for k in 0..10u32 {
        assert_eq!(t.load(100 + k), k);
    }
    assert_eq!(t.len(), 10);
    for k in 0..10u32 {
        assert_eq!(t.find(k), Some(&(100 + k)));
    }
    assert_eq!(t.find(10), None);
}
