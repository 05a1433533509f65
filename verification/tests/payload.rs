use fiff::enums::{BlockKind, BlockTagKind, DataTagKind, UnrecognizedCode};
use fiff::primitive::{parse_primitive, Primitive};
use fiff::tag::{
    f32_many, i32_many, idstruct, string, tag_header, Block, Data, DecodeError, FiffNode, Header,
    IdStruct, Tag, TagError, TreeError,
};

fn words(values: &[i32]) -> Vec<u8> {
    let mut out = Vec::new();
    for v in values {
        out.extend_from_slice(&v.to_be_bytes());
    }
    out
}

#[test]
fn header_is_four_big_endian_words() {
    let bytes = words(&[100, 31, 20, 0]);
    assert_eq!(tag_header(&bytes), Some(Header { code: 100, dtype: 31, size: 20, next: 0 }));
    let bytes = [
        0x00, 0x00, 0x00, 0x68, 0x00, 0x00, 0x00, 0x03, 0x00, 0x00, 0x00, 0x04, 0xff, 0xff, 0xff,
        0xff,
    ];
    assert_eq!(tag_header(&bytes), Some(Header { code: 104, dtype: 3, size: 4, next: -1 }));
}

#[test]
fn header_takes_any_sixteen_bytes() {
    let bytes = [0xffu8; 16];
    assert_eq!(tag_header(&bytes), Some(Header { code: -1, dtype: -1, size: -1, next: -1 }));
    let bytes = [0x80, 0, 0, 0, 0x7f, 0xff, 0xff, 0xff, 0, 0, 1, 0, 0x12, 0x34, 0x56, 0x78];
    assert_eq!(
        tag_header(&bytes),
        Some(Header { code: i32::MIN, dtype: i32::MAX, size: 256, next: 0x12345678 })
    );
}

#[test]
fn header_wants_sixteen_bytes() {
    assert_eq!(tag_header(&[0u8; 15]), None);
    assert_eq!(tag_header(&[]), None);
    let mut long = words(&[1, 2, 3, 4]);
    long.push(9);
    assert_eq!(tag_header(&long), Some(Header { code: 1, dtype: 2, size: 3, next: 4 }));
}

#[test]
fn words_are_decoded_in_order() {
    assert_eq!(i32_many(&words(&[3, -4, 5])), Some(vec![3, -4, 5]));
    assert_eq!(i32_many(&[0, 0, 0, 1, 7]), Some(vec![1]));
    assert_eq!(i32_many(&[0, 0, 1]), None);
    assert_eq!(i32_many(&[]), None);
}

#[test]
fn single_precision_numbers_keep_their_bits() {
    let bytes = 200.0f32.to_be_bytes();
    assert_eq!(f32_many(&bytes), Some(vec![0x43480000]));
    assert_eq!(f32::from_bits(f32_many(&bytes).unwrap()[0]), 200.0);
    let mut two = 1.5f32.to_be_bytes().to_vec();
    two.extend_from_slice(&(-0.5f32).to_be_bytes());
    assert_eq!(f32_many(&two), Some(vec![1.5f32.to_bits(), (-0.5f32).to_bits()]));
    assert_eq!(f32_many(&[1, 2, 3]), None);
}

#[test]
fn text_must_be_utf8() {
    assert_eq!(string(b"sensorA".to_vec()), Ok("sensorA".to_string()));
    assert_eq!(string(vec![]), Ok(String::new()));
    assert_eq!(string("m\u{e9}g".as_bytes().to_vec()), Ok("m\u{e9}g".to_string()));
    assert_eq!(string(vec![0x66, 0xff, 0x66]), Err(DecodeError::InvalidEncoding));
    assert_eq!(string(vec![0xc3]), Err(DecodeError::InvalidEncoding));
}

#[test]
fn identifier_record_is_five_words() {
    let bytes = words(&[1, 10, 20, 1646226731, 138511]);
    assert_eq!(bytes.len(), 20);
    assert_eq!(
        idstruct(&bytes),
        Some(IdStruct { version: 1, machid: (10, 20), secs: 1646226731, usecs: 138511 })
    );
    assert_eq!(idstruct(&bytes[..19]), None);
    assert_eq!(idstruct(&bytes[..16]), None);
}

#[test]
fn payload_is_decoded_by_declared_type() {
    assert_eq!(Data::from_slice(vec![1, 2, 3], 0), Ok(Data::Void));
    assert_eq!(Data::from_slice(words(&[106]), 3), Ok(Data::Int32(vec![106])));
    assert_eq!(Data::from_slice(words(&[3, 4, 5]), 3), Ok(Data::Int32(vec![3, 4, 5])));
    assert_eq!(
        Data::from_slice(200.0f32.to_be_bytes().to_vec(), 4),
        Ok(Data::Float(vec![200.0f32.to_bits()]))
    );
    assert_eq!(
        Data::from_slice(words(&[1646226731, 138511]), 6),
        Ok(Data::JulianDate(vec![1646226731, 138511]))
    );
    assert_eq!(Data::from_slice(b"free blocks".to_vec(), 10), Ok(Data::String("free blocks".into())));
    assert_eq!(Data::from_slice(vec![1, 2], 30), Ok(Data::ChInfoStruct(vec![1, 2])));
    assert_eq!(
        Data::from_slice(words(&[1, 10, 20, 30, 40]), 31),
        Ok(Data::IdStruct(IdStruct { version: 1, machid: (10, 20), secs: 30, usecs: 40 }))
    );
    assert_eq!(Data::from_slice(vec![3], 33), Ok(Data::DigPointStruct(vec![3])));
    assert_eq!(Data::from_slice(vec![4], 35), Ok(Data::CoordTransStruct(vec![4])));
    assert_eq!(Data::from_slice(b"test".to_vec(), 99), Ok(Data::Slice(b"test".to_vec())));
    assert_eq!(Data::from_slice(vec![7], -3), Ok(Data::Slice(vec![7])));
}

#[test]
fn empty_sequences_are_sequences() {
    assert_eq!(Data::from_slice(vec![], 3), Ok(Data::Int32(vec![])));
    assert_eq!(Data::from_slice(vec![], 4), Ok(Data::Float(vec![])));
    assert_eq!(Data::from_slice(vec![], 6), Ok(Data::JulianDate(vec![])));
    assert_eq!(Data::from_slice(vec![], 10), Ok(Data::String(String::new())));
}

#[test]
fn misaligned_sequences_are_malformed() {
    assert_eq!(Data::from_slice(vec![0, 0, 0, 1, 2], 3), Err(DecodeError::MalformedSequence));
    assert_eq!(Data::from_slice(vec![0, 0, 1], 4), Err(DecodeError::MalformedSequence));
    assert_eq!(Data::from_slice(vec![0; 7], 6), Err(DecodeError::MalformedSequence));
    assert_eq!(Data::from_slice(vec![0; 16], 31), Err(DecodeError::MalformedSequence));
    assert_eq!(Data::from_slice(vec![0; 24], 31), Err(DecodeError::MalformedSequence));
    assert_eq!(Data::from_slice(vec![0xff], 10), Err(DecodeError::InvalidEncoding));
}

#[test]
fn tags_are_structural_before_they_are_data() {
    let start = Header { code: 104, dtype: 3, size: 4, next: 0 };
    assert_eq!(
        Tag::from_header_slice(start, words(&[106])),
        Ok(Tag::Block { kind: BlockTagKind::BlockStart, data: Data::Int32(vec![106]) })
    );
    let nchan = Header { code: 200, dtype: 3, size: 4, next: 0 };
    assert_eq!(
        Tag::from_header_slice(nchan, words(&[32])),
        Ok(Tag::Data { kind: DataTagKind::Nchan, data: Data::Int32(vec![32]) })
    );
    let end = Header { code: 105, dtype: 0, size: 0, next: 0 };
    assert_eq!(
        Tag::from_header_slice(end, vec![]),
        Ok(Tag::Block { kind: BlockTagKind::BlockEnd, data: Data::Void })
    );
}

#[test]
fn tags_report_what_is_wrong_with_them() {
    let unknown = Header { code: 7, dtype: 3, size: 4, next: 0 };
    assert_eq!(
        Tag::from_header_slice(unknown, words(&[1])),
        Err(TagError::UnrecognizedCode(UnrecognizedCode { code: 7 }))
    );
    assert_eq!(
        Tag::from_header_slice(unknown, vec![1, 2, 3]),
        Err(TagError::UnrecognizedCode(UnrecognizedCode { code: 7 }))
    );
    let bad_text = Header { code: 220, dtype: 10, size: 1, next: 0 };
    assert_eq!(
        Tag::from_header_slice(bad_text, vec![0xff]),
        Err(TagError::Decode(DecodeError::InvalidEncoding))
    );
    let bad_words = Header { code: 104, dtype: 3, size: 3, next: 0 };
    assert_eq!(
        Tag::from_header_slice(bad_words, vec![0, 0, 1]),
        Err(TagError::Decode(DecodeError::MalformedSequence))
    );
}

#[test]
fn large_payloads_become_references() {
    let raw = Header { code: 300, dtype: 4, size: 4000, next: 0 };
    assert_eq!(
        Tag::from_header_file_position(raw, 16, 4000),
        Ok(Tag::Data { kind: DataTagKind::DataBuffer, data: Data::InFile { start: 16, size: 4000 } })
    );
    let name = Header { code: 111, dtype: 10, size: 600, next: 0 };
    assert_eq!(
        Tag::from_header_file_position(name, 32, 600),
        Ok(Tag::Block { kind: BlockTagKind::BlockName, data: Data::InFile { start: 32, size: 600 } })
    );
    let unknown = Header { code: 1, dtype: 4, size: 4000, next: 0 };
    assert_eq!(
        Tag::from_header_file_position(unknown, 16, 4000),
        Err(TagError::UnrecognizedCode(UnrecognizedCode { code: 1 }))
    );
}

#[test]
fn nodes_are_made_of_data_tags_and_block_starts() {
    let leaf = Tag::Data { kind: DataTagKind::Nchan, data: Data::Int32(vec![32]) };
    assert_eq!(
        FiffNode::from_tag(leaf),
        Ok(FiffNode::Tag { kind: DataTagKind::Nchan, data: Data::Int32(vec![32]) })
    );
    let start = Tag::Block { kind: BlockTagKind::BlockStart, data: Data::Int32(vec![106, 1]) };
    assert_eq!(FiffNode::from_tag(start), Ok(FiffNode::Block { kind: BlockKind::Subject }));
    let odd = Tag::Block { kind: BlockTagKind::BlockStart, data: Data::Int32(vec![12345]) };
    assert_eq!(FiffNode::from_tag(odd), Ok(FiffNode::Block { kind: BlockKind::Code(12345) }));
}

#[test]
fn nodes_are_not_made_of_other_structural_tags() {
    let text = Tag::Block { kind: BlockTagKind::BlockStart, data: Data::String("x".into()) };
    assert_eq!(FiffNode::from_tag(text), Err(TreeError::MalformedBlockStart));
    let empty = Tag::Block { kind: BlockTagKind::BlockStart, data: Data::Int32(vec![]) };
    assert_eq!(FiffNode::from_tag(empty), Err(TreeError::MalformedBlockStart));
    let end = Tag::Block { kind: BlockTagKind::BlockEnd, data: Data::Void };
    assert_eq!(FiffNode::from_tag(end), Err(TreeError::NotABlockStart));
    let id = Tag::Block { kind: BlockTagKind::BlockId, data: Data::Int32(vec![1]) };
    assert_eq!(FiffNode::from_tag(id), Err(TreeError::NotABlockStart));
}

#[test]
fn defaults_are_empty() {
    assert_eq!(Data::default(), Data::Void);
    assert_eq!(Tag::default(), Tag::Data { kind: DataTagKind::Nop, data: Data::Void });
    assert_eq!(FiffNode::default(), FiffNode::Block { kind: BlockKind::Root });
    assert_eq!(Block::default(), Block { kind: BlockKind::Root });
}

#[test]
fn primitives_are_decoded_by_code() {
    assert_eq!(parse_primitive(&[1, 2, 3], 0), Primitive::Void);
    assert_eq!(parse_primitive(&[0, 0, 1, 0], 3), Primitive::Int32(256));
    assert_eq!(parse_primitive(&[0xff, 0xff, 0xff, 0xfe], 3), Primitive::Int32(-2));
    assert_eq!(parse_primitive(&[0, 0, 1, 0], 4), Primitive::Unknown);
}
