use fiff::enums::{BlockKind, BlockTagKind, DataTagKind, NotABlockTag, UnrecognizedCode};

#[test]
fn data_codes_are_looked_up() {
    assert_eq!(DataTagKind::from_code(100), Ok(DataTagKind::FileId));
    assert_eq!(DataTagKind::from_code(108), Ok(DataTagKind::Nop));
    assert_eq!(DataTagKind::from_code(200), Ok(DataTagKind::Nchan));
    assert_eq!(DataTagKind::from_code(10300), Ok(DataTagKind::MemDataBuffer));
    assert_eq!(DataTagKind::from_code(104), Err(UnrecognizedCode { code: 104 }));
    assert_eq!(DataTagKind::from_code(-1), Err(UnrecognizedCode { code: -1 }));
    assert_eq!(DataTagKind::from_code(0), Err(UnrecognizedCode { code: 0 }));
}

#[test]
fn block_tag_codes_are_looked_up() {
    assert_eq!(BlockTagKind::from_code(103), Ok(BlockTagKind::BlockId));
    assert_eq!(BlockTagKind::from_code(104), Ok(BlockTagKind::BlockStart));
    assert_eq!(BlockTagKind::from_code(105), Ok(BlockTagKind::BlockEnd));
    assert_eq!(BlockTagKind::from_code(110), Ok(BlockTagKind::ParentBlockId));
    assert_eq!(BlockTagKind::from_code(111), Ok(BlockTagKind::BlockName));
    assert_eq!(BlockTagKind::from_code(112), Ok(BlockTagKind::BlockVersion));
    assert_eq!(BlockTagKind::from_code(100), Err(NotABlockTag { code: 100 }));
    assert_eq!(BlockTagKind::from_code(106), Err(NotABlockTag { code: 106 }));
}

#[test]
fn block_codes_always_have_a_kind() {
    assert_eq!(BlockKind::from_code(106), BlockKind::Subject);
    assert_eq!(BlockKind::from_code(102), BlockKind::RawData);
    assert_eq!(BlockKind::from_code(111), BlockKind::Project);
    assert_eq!(BlockKind::from_code(999), BlockKind::Root);
    assert_eq!(BlockKind::from_code(7), BlockKind::Code(7));
    assert_eq!(BlockKind::from_code(-5), BlockKind::Code(-5));
}

#[test]
fn lookups_invert_the_code_of_a_kind() {
    for code in -200..11000 {
        if let Ok(kind) = DataTagKind::from_code(code) {
            assert_eq!(kind.code(), code);
        }
    }
    assert_eq!(DataTagKind::Sfreq.code(), 201);
    assert_eq!(DataTagKind::from_code(DataTagKind::BadChs.code()), Ok(DataTagKind::BadChs));
}

#[test]
fn classification_is_the_same_each_time() {
    for code in -200..11000 {
        assert_eq!(DataTagKind::from_code(code), DataTagKind::from_code(code));
        assert_eq!(BlockTagKind::from_code(code), BlockTagKind::from_code(code));
        assert_eq!(BlockKind::from_code(code), BlockKind::from_code(code));
    }
}

#[test]
fn no_code_is_both_structural_and_data() {
    let mut structural = 0;
    let mut data = 0;
    for code in -200..11000 {
        let as_block = BlockTagKind::from_code(code).is_ok();
        let as_data = DataTagKind::from_code(code).is_ok();
        assert!(!(as_block && as_data));
        if as_block {
            structural += 1;
        }
        if as_data {
            data += 1;
        }
    }
    assert_eq!(structural, 6);
    assert_eq!(data, 222);
}

#[test]
fn defaults_are_the_first_kind_and_the_root() {
    assert_eq!(DataTagKind::default(), DataTagKind::FileId);
    assert_eq!(BlockKind::default(), BlockKind::Root);
}

#[test]
fn kinds_have_names_in_snake_case() {
    assert_eq!(DataTagKind::FileId.name(), "file_id");
    assert_eq!(DataTagKind::BadChs.name(), "bad_chs");
    assert_eq!(DataTagKind::Sfreq.name(), "sfreq");
    assert_eq!(DataTagKind::MemDataBuffer.name(), "mem_data_buffer");
    let mut seen = std::collections::HashSet::new();
    for code in -200..11000 {
        if let Ok(kind) = DataTagKind::from_code(code) {
            assert!(seen.insert(kind.name()));
            let debug = format!("{kind:?}");
            let mut expected = String::new();
            for (i, ch) in debug.char_indices() {
                if i > 0 && ch.is_uppercase() {
                    expected.push('_');
                }
                expected.push(ch.to_ascii_lowercase());
            }
            assert_eq!(kind.name(), expected);
        }
    }
    assert_eq!(seen.len(), 222);
}
