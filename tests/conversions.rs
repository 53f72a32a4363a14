use std::collections::HashMap;

use rbash::{
    code_signature, formid_pairs, lookup_key, made_formid, record_type_name, signature_code,
    signature_from_name, signature_text, status_ok, status_count, status_flag,
    CollectionType, CreateOption, ModFlags, ModOption, RecordFlags, RecordOption,
};

#[test]
fn collection_type_codes() {
    assert_eq!(CollectionType::Oblivion.to_raw(), 0);
    assert_eq!(CollectionType::Fallout3.to_raw(), 1);
    assert_eq!(CollectionType::FalloutNewVegas.to_raw(), 2);
    assert_eq!(CollectionType::Skyrim.to_raw(), 3);
    assert_eq!(CollectionType::Unknown.to_raw(), 4);
}

#[test]
fn collection_type_round_trip() {
    for t in [
        CollectionType::Oblivion,
        CollectionType::Fallout3,
        CollectionType::FalloutNewVegas,
        CollectionType::Skyrim,
        CollectionType::Unknown,
    ] {
        assert_eq!(CollectionType::from_raw(t.to_raw()), Some(t));
    }
}

#[test]
fn collection_type_rejects_unknown_codes() {
    assert_eq!(CollectionType::from_raw(-1), None);
    assert_eq!(CollectionType::from_raw(5), None);
    assert_eq!(CollectionType::from_raw(i32::MAX), None);
}

#[test]
fn mod_flags_combine() {
    let f = ModFlags::empty().with(ModOption::MinLoad).with(ModOption::InLoadOrder);
    assert_eq!(f.bits(), 0x9);
    assert!(f.has(ModOption::MinLoad));
    assert!(f.has(ModOption::InLoadOrder));
    assert!(!f.has(ModOption::FullLoad));
    let g = f.union(ModFlags::of(ModOption::SkipAllRecords));
    assert_eq!(g.bits(), 0x2009);
    assert_eq!(ModFlags::empty().bits(), 0);
}

#[test]
fn mod_option_bits() {
    assert_eq!(ModOption::MinLoad.bit(), 0x1);
    assert_eq!(ModOption::FullLoad.bit(), 0x2);
    assert_eq!(ModOption::SkipNewRecords.bit(), 0x4);
    assert_eq!(ModOption::Saveable.bit(), 0x10);
    assert_eq!(ModOption::ExtendedConflicts.bit(), 0x80);
    assert_eq!(ModOption::CreateNew.bit(), 0x800);
    assert_eq!(ModOption::SkipAllRecords.bit(), 0x2000);
}

#[test]
fn mod_flags_from_bits() {
    assert_eq!(ModFlags::from_bits(0x3fff).map(|f| f.bits()), Some(0x3fff));
    assert_eq!(ModFlags::from_bits(0).map(|f| f.bits()), Some(0));
    assert!(ModFlags::from_bits(0x4000).is_none());
    assert!(ModFlags::from_bits(-1).is_none());
    let f = ModFlags::of(ModOption::LoadMasters);
    assert_eq!(ModFlags::from_bits(f.bits()), Some(f));
}

#[test]
fn record_flags() {
    assert_eq!(CreateOption::SetAsOverride.bit(), 1);
    assert_eq!(CreateOption::CopyWinningParent.bit(), 2);
    let f = RecordFlags::empty().with(CreateOption::CopyWinningParent);
    assert_eq!(f.bits(), 2);
    assert!(f.has(CreateOption::CopyWinningParent));
    assert!(!f.has(CreateOption::SetAsOverride));
    assert_eq!(RecordFlags::from_bits(3).map(|f| f.bits()), Some(3));
    assert!(RecordFlags::from_bits(4).is_none());
}

#[test]
fn signature_codes_are_big_endian() {
    assert_eq!(signature_code(*b"NPC_"), 0x4e50_435f);
    assert_eq!(signature_code([0, 0, 0, 1]), 1);
    assert_eq!(signature_code([0xff; 4]), u32::MAX);
    assert_eq!(code_signature(0x4e50_435f), *b"NPC_");
    assert_eq!(code_signature(signature_code(*b"WEAP")), *b"WEAP");
}

#[test]
fn signature_from_text() {
    assert_eq!(signature_from_name("ARMO"), Some(*b"ARMO"));
    assert_eq!(signature_from_name("CELLAR"), Some(*b"CELL"));
    assert_eq!(signature_from_name("NPC"), None);
    assert_eq!(signature_from_name(""), None);
}

#[test]
fn record_type_names() {
    assert_eq!(record_type_name(0x4e50_435f), Some("NPC_".to_string()));
    assert_eq!(record_type_name(signature_code(*b"GMST")), Some("GMST".to_string()));
    assert_eq!(record_type_name(0xffff_ffff), None);
    assert_eq!(signature_text(*b"KYWD"), Some("KYWD".to_string()));
    assert_eq!(signature_text([0x41, 0xc3, 0xa9, 0x42]), Some("A\u{e9}B".to_string()));
    assert_eq!(signature_text([0x41, 0x80, 0x41, 0x41]), None);
}

#[test]
fn status_codes() {
    assert_eq!(status_count(12), Some(12));
    assert_eq!(status_count(0), Some(0));
    assert_eq!(status_count(-1), None);
    assert_eq!(status_flag(1), Some(true));
    assert_eq!(status_flag(0), Some(false));
    assert_eq!(status_flag(-3), None);
    assert!(status_ok(0));
    assert!(status_ok(1));
    assert!(status_ok(5));
    assert!(!status_ok(-1));
    assert!(!status_ok(i32::MIN));
    assert_eq!(made_formid(0x0100_0800), Some(0x0100_0800));
    assert_eq!(made_formid(0), None);
}

#[test]
fn record_lookup_arguments() {
    let (f, e) = lookup_key(&RecordOption::FormID(0x14));
    assert_eq!(f, 0x14);
    assert_eq!(e, None);
    let (f, e) = lookup_key(&RecordOption::EditorID("IronSword"));
    assert_eq!(f, 0);
    assert_eq!(e, Some("IronSword"));
}

#[test]
fn formid_pairs_lay_out_the_map() {
    let mut map: HashMap<u32, u32> = HashMap::new();
    map.insert(0x0100_0001, 0x0200_0001);
    map.insert(0x0100_0002, 0x0200_0005);
    map.insert(0x0000_0014, 0x0300_0014);
    let pairs = formid_pairs(&map);
    assert_eq!(pairs.old_ids.len(), 3);
    assert_eq!(pairs.new_ids.len(), 3);
    for i in 0..3 {
        assert_eq!(map[&pairs.old_ids[i]], pairs.new_ids[i]);
    }
    let mut keys = pairs.old_ids.clone();
    keys.sort();
    assert_eq!(keys, vec![0x14, 0x0100_0001, 0x0100_0002]);
}

#[test]
fn formid_pairs_of_empty_map() {
    let map: HashMap<u32, u32> = HashMap::new();
    let pairs = formid_pairs(&map);
    assert!(pairs.old_ids.is_empty());
    assert!(pairs.new_ids.is_empty());
}
