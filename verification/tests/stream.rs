use fiff::enums::{BlockTagKind, DataTagKind, UnrecognizedCode};
use fiff::parser::{FifParser, ParseError};
use fiff::reader::{ReadError, ReadEvent, ReadRequest, TagReader, MAX_PARSE_SIZE};
use fiff::tag::{Data, DecodeError, Tag, TagError, TreeError};

fn record(code: i32, dtype: i32, payload: &[u8]) -> Vec<u8> {
    let mut out = Vec::new();
    out.extend_from_slice(&code.to_be_bytes());
    out.extend_from_slice(&dtype.to_be_bytes());
    out.extend_from_slice(&(payload.len() as i32).to_be_bytes());
    out.extend_from_slice(&0i32.to_be_bytes());
    out.extend_from_slice(payload);
    out
}

fn header(code: i32, dtype: i32, size: i32, next: i32) -> Vec<u8> {
    let mut out = Vec::new();
    out.extend_from_slice(&code.to_be_bytes());
    out.extend_from_slice(&dtype.to_be_bytes());
    out.extend_from_slice(&size.to_be_bytes());
    out.extend_from_slice(&next.to_be_bytes());
    out
}

fn sample() -> Vec<u8> {
    let mut file = Vec::new();
    file.extend(record(100, 31, &[0u8; 20]));
    file.extend(record(104, 3, &106i32.to_be_bytes()));
    file.extend(record(200, 3, &32i32.to_be_bytes()));
    file.extend(record(201, 4, &200.0f32.to_be_bytes()));
    file.extend(record(220, 10, b"sensorA"));
    file.extend(record(300, 4, &[0u8; 4000]));
    file.extend(record(105, 0, &[]));
    file
}

#[test]
fn an_empty_stream_has_no_tags() {
    assert_eq!(FifParser::read_tags(&[]), Ok(vec![]));
}

#[test]
fn a_sample_stream_has_a_stable_number_of_tags() {
    let tags = FifParser::read_tags(&sample()).expect("the sample is well formed");
    assert_eq!(tags.len(), 7);
    assert_eq!(tags, FifParser::read_tags(&sample()).unwrap());
}

#[test]
fn tags_come_in_the_order_of_the_stream() {
    let tags = FifParser::read_tags(&sample()).unwrap();
    assert_eq!(tags[1], Tag::Block { kind: BlockTagKind::BlockStart, data: Data::Int32(vec![106]) });
    assert_eq!(tags[2], Tag::Data { kind: DataTagKind::Nchan, data: Data::Int32(vec![32]) });
    assert_eq!(
        tags[3],
        Tag::Data { kind: DataTagKind::Sfreq, data: Data::Float(vec![200.0f32.to_bits()]) }
    );
    assert_eq!(tags[4], Tag::Data { kind: DataTagKind::BadChs, data: Data::String("sensorA".into()) });
    assert_eq!(tags[6], Tag::Block { kind: BlockTagKind::BlockEnd, data: Data::Void });
}

#[test]
fn a_large_payload_stays_in_the_file() {
    let tags = FifParser::read_tags(&sample()).unwrap();
    let before = 36 + 20 + 20 + 20 + 23;
    assert_eq!(
        tags[5],
        Tag::Data {
            kind: DataTagKind::DataBuffer,
            data: Data::InFile { start: before + 16, size: 4000 }
        }
    );
}

#[test]
fn the_threshold_itself_is_still_read() {
    assert_eq!(MAX_PARSE_SIZE, 512);
    let at = FifParser::read_tags(&record(300, 99, &[7u8; 512])).unwrap();
    assert_eq!(at, vec![Tag::Data { kind: DataTagKind::DataBuffer, data: Data::Slice(vec![7u8; 512]) }]);
    let over = FifParser::read_tags(&record(300, 99, &[7u8; 513])).unwrap();
    assert_eq!(
        over,
        vec![Tag::Data { kind: DataTagKind::DataBuffer, data: Data::InFile { start: 16, size: 513 } }]
    );
}

#[test]
fn a_large_payload_need_not_be_there() {
    let mut file = record(200, 3, &1i32.to_be_bytes());
    file.extend(header(300, 4, 100_000, 0));
    file.extend([0u8; 10]);
    assert_eq!(
        FifParser::read_tags(&file),
        Ok(vec![
            Tag::Data { kind: DataTagKind::Nchan, data: Data::Int32(vec![1]) },
            Tag::Data {
                kind: DataTagKind::DataBuffer,
                data: Data::InFile { start: 36, size: 100_000 }
            },
        ])
    );
}

#[test]
fn an_unrecognized_code_is_left_out() {
    let mut file = record(200, 3, &32i32.to_be_bytes());
    file.extend(record(7, 3, &1i32.to_be_bytes()));
    file.extend(record(201, 4, &200.0f32.to_be_bytes()));
    let mut without = record(200, 3, &32i32.to_be_bytes());
    without.extend(record(201, 4, &200.0f32.to_be_bytes()));
    let tags = FifParser::read_tags(&file).unwrap();
    assert_eq!(tags, FifParser::read_tags(&without).unwrap());
    assert_eq!(
        tags,
        vec![
            Tag::Data { kind: DataTagKind::Nchan, data: Data::Int32(vec![32]) },
            Tag::Data { kind: DataTagKind::Sfreq, data: Data::Float(vec![200.0f32.to_bits()]) },
        ]
    );
}

#[test]
fn a_large_unrecognized_tag_is_left_out_too() {
    let mut file = record(7, 4, &[0u8; 600]);
    file.extend(record(220, 10, b"sensorB"));
    assert_eq!(
        FifParser::read_tags(&file),
        Ok(vec![Tag::Data { kind: DataTagKind::BadChs, data: Data::String("sensorB".into()) }])
    );
}

#[test]
fn a_tag_that_does_not_decode_is_left_out() {
    let mut file = record(220, 10, &[0xff, 0xfe]);
    file.extend(record(200, 3, &[0, 0, 1]));
    file.extend(record(200, 3, &2i32.to_be_bytes()));
    assert_eq!(
        FifParser::read_tags(&file),
        Ok(vec![Tag::Data { kind: DataTagKind::Nchan, data: Data::Int32(vec![2]) }])
    );
}

#[test]
fn the_next_pointer_is_not_followed() {
    let mut file = header(200, 3, 4, 4096);
    file.extend(5i32.to_be_bytes());
    file.extend(record(200, 3, &6i32.to_be_bytes()));
    assert_eq!(
        FifParser::read_tags(&file),
        Ok(vec![
            Tag::Data { kind: DataTagKind::Nchan, data: Data::Int32(vec![5]) },
            Tag::Data { kind: DataTagKind::Nchan, data: Data::Int32(vec![6]) },
        ])
    );
}

#[test]
fn a_partial_header_is_an_error() {
    let mut file = record(200, 3, &32i32.to_be_bytes());
    file.extend([0u8; 15]);
    assert_eq!(FifParser::read_tags(&file), Err(ReadError::TruncatedHeader));
    assert_eq!(FifParser::read_tags(&[1]), Err(ReadError::TruncatedHeader));
}

#[test]
fn a_short_payload_is_an_error() {
    let mut file = record(200, 3, &32i32.to_be_bytes());
    file.extend(header(220, 10, 8, 0));
    file.extend(b"sensor");
    assert_eq!(FifParser::read_tags(&file), Err(ReadError::TruncatedPayload));
}

#[test]
fn a_negative_size_is_an_error() {
    let mut file = record(200, 3, &32i32.to_be_bytes());
    file.extend(header(200, 3, -4, 0));
    file.extend([0u8; 32]);
    assert_eq!(FifParser::read_tags(&file), Err(ReadError::InvalidSize));
}

#[test]
fn the_reader_asks_for_headers_and_small_payloads() {
    let mut reader = TagReader::new();
    assert_eq!(reader.request(), ReadRequest::Header);
    assert_eq!(reader.position(), 0);
    assert_eq!(reader.step(ReadEvent::Header(header(200, 3, 4, 0))), Ok(None));
    assert_eq!(reader.request(), ReadRequest::Payload { size: 4 });
    assert_eq!(reader.position(), 16);
    assert_eq!(reader.step(ReadEvent::Payload(32i32.to_be_bytes().to_vec())), Ok(None));
    assert_eq!(reader.request(), ReadRequest::Header);
    assert_eq!(reader.position(), 20);
    assert_eq!(reader.step(ReadEvent::Header(vec![])), Ok(None));
    assert_eq!(reader.request(), ReadRequest::Done);
    assert_eq!(
        reader.into_tags(),
        vec![Tag::Data { kind: DataTagKind::Nchan, data: Data::Int32(vec![32]) }]
    );
}

#[test]
fn the_reader_never_asks_for_a_large_payload() {
    for size in [0, 1, 511, 512, 513, 4000, i32::MAX] {
        let mut reader = TagReader::new();
        reader.step(ReadEvent::Header(header(300, 4, size, 0))).unwrap();
        match reader.request() {
            ReadRequest::Payload { size: asked } => {
                assert!(size <= 512);
                assert_eq!(asked, size as usize);
            }
            ReadRequest::Skip { size: skipped } => {
                assert!(size > 512);
                assert_eq!(skipped, size as u64);
            }
            other => panic!("unexpected request {other:?}"),
        }
    }
}

#[test]
fn the_reader_records_where_a_skipped_payload_lies() {
    let mut reader = TagReader::new();
    reader.step(ReadEvent::Header(header(200, 3, 4, 0))).unwrap();
    reader.step(ReadEvent::Payload(vec![0, 0, 0, 1])).unwrap();
    reader.step(ReadEvent::Header(header(300, 4, 8000, 0))).unwrap();
    assert_eq!(reader.request(), ReadRequest::Skip { size: 8000 });
    assert_eq!(reader.step(ReadEvent::Skipped), Ok(None));
    assert_eq!(reader.position(), 20 + 16 + 8000);
    let tags = reader.into_tags();
    assert_eq!(
        tags[1],
        Tag::Data { kind: DataTagKind::DataBuffer, data: Data::InFile { start: 36, size: 8000 } }
    );
}

#[test]
fn the_reader_says_why_a_tag_was_left_out() {
    let mut reader = TagReader::new();
    reader.step(ReadEvent::Header(header(7, 3, 4, 0))).unwrap();
    assert_eq!(
        reader.step(ReadEvent::Payload(vec![0, 0, 0, 1])),
        Ok(Some(TagError::UnrecognizedCode(UnrecognizedCode { code: 7 })))
    );
    reader.step(ReadEvent::Header(header(220, 10, 1, 0))).unwrap();
    assert_eq!(
        reader.step(ReadEvent::Payload(vec![0xff])),
        Ok(Some(TagError::Decode(DecodeError::InvalidEncoding)))
    );
    assert_eq!(reader.position(), 37);
    assert_eq!(reader.request(), ReadRequest::Header);
    assert_eq!(reader.into_tags(), vec![]);
}

#[test]
fn the_reader_rejects_what_it_did_not_ask_for() {
    let mut reader = TagReader::new();
    assert_eq!(reader.step(ReadEvent::Skipped), Err(ReadError::UnexpectedEvent));
    assert_eq!(reader.step(ReadEvent::Payload(vec![])), Err(ReadError::UnexpectedEvent));
    assert_eq!(reader.step(ReadEvent::Header(vec![0; 17])), Err(ReadError::UnexpectedEvent));
    assert_eq!(reader.step(ReadEvent::Header(vec![0; 3])), Err(ReadError::TruncatedHeader));
    assert_eq!(reader.step(ReadEvent::Header(header(1, 1, -1, 0))), Err(ReadError::InvalidSize));
    assert_eq!(reader.request(), ReadRequest::Header);
    assert_eq!(reader.position(), 0);
    reader.step(ReadEvent::Header(header(200, 3, 4, 0))).unwrap();
    assert_eq!(reader.step(ReadEvent::Header(vec![])), Err(ReadError::UnexpectedEvent));
    assert_eq!(reader.step(ReadEvent::Payload(vec![1, 2])), Err(ReadError::TruncatedPayload));
    assert_eq!(reader.step(ReadEvent::Skipped), Err(ReadError::UnexpectedEvent));
    assert_eq!(reader.request(), ReadRequest::Payload { size: 4 });
    reader.step(ReadEvent::Payload(vec![0, 0, 0, 9])).unwrap();
    reader.step(ReadEvent::Header(vec![])).unwrap();
    assert_eq!(reader.step(ReadEvent::Header(vec![])), Err(ReadError::UnexpectedEvent));
}

#[test]
fn a_stream_is_parsed_into_its_tree() {
    let tree = FifParser::parse(&sample()).expect("the sample is well formed");
    assert_eq!(tree.node_count(), 1 + 1 + 5);
    assert_eq!(tree.children(0), vec![1, 2]);
    assert_eq!(tree.children(2), vec![3, 4, 5, 6]);
    assert_eq!(tree.current(), tree.root());
}

#[test]
fn parsing_reports_where_it_failed() {
    assert_eq!(FifParser::parse(&[1, 2, 3]).err(), Some(ParseError::Read(ReadError::TruncatedHeader)));
    let end = record(105, 0, &[]);
    assert_eq!(FifParser::parse(&end).err(), Some(ParseError::Tree(TreeError::UnbalancedBlocks)));
    let start = record(104, 10, b"Subject");
    assert_eq!(
        FifParser::parse(&start).err(),
        Some(ParseError::Tree(TreeError::MalformedBlockStart))
    );
}

#[test]
fn a_reader_may_start_inside_a_file() {
    let mut reader = TagReader::at(1000);
    assert_eq!(reader.position(), 1000);
    reader.step(ReadEvent::Header(header(300, 4, 600, 0))).unwrap();
    reader.step(ReadEvent::Skipped).unwrap();
    assert_eq!(reader.position(), 1616);
    assert_eq!(
        reader.into_tags(),
        vec![Tag::Data { kind: DataTagKind::DataBuffer, data: Data::InFile { start: 1016, size: 600 } }]
    );
}

#[test]
fn an_offset_beyond_64_bits_is_an_error() {
    let mut reader = TagReader::at(u64::MAX - 15);
    assert_eq!(
        reader.step(ReadEvent::Header(header(200, 3, 4, 0))),
        Err(ReadError::PositionOverflow)
    );
    assert_eq!(reader.position(), u64::MAX - 15);
    let mut reader = TagReader::at(u64::MAX - 20);
    reader.step(ReadEvent::Header(header(200, 3, 8, 0))).unwrap();
    assert_eq!(reader.step(ReadEvent::Payload(vec![0; 8])), Err(ReadError::PositionOverflow));
    let mut reader = TagReader::at(u64::MAX - 1000);
    reader.step(ReadEvent::Header(header(300, 4, 4000, 0))).unwrap();
    assert_eq!(reader.step(ReadEvent::Skipped), Err(ReadError::PositionOverflow));
    assert_eq!(reader.request(), ReadRequest::Skip { size: 4000 });
}
