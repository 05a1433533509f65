//! Tags, the records of a FIFF file.
//!
//! A tag is a header of four big-endian words (`code`, `dtype`, `size`,
//! `next`) followed by `size` bytes of payload. `code` says what the tag
//! means, `dtype` how its payload is laid out.
use crate::enums::{BlockKind, BlockTagKind, DataTagKind, UnrecognizedCode};
use crate::wire::{be_i32, be_i32_of, be_u32, be_u32_of};
use vstd::prelude::*;
use vstd::slice::slice_subrange;
use vstd::string::StringExecFns;
use vstd::utf8::{decode_utf8, decode_utf8_encode_utf8, encode_utf8, valid_utf8};

verus! {

/// The number of bytes in a tag header.
pub const HEADER_LEN: usize = 16;

/// The number of bytes in an identifier record.
pub const ID_STRUCT_LEN: usize = 20;

/// The header of a tag, exactly as the file holds it.
#[derive(Debug, PartialEq, Eq, Clone, Copy, Structural)]
pub struct Header {
    pub code: i32,
    pub dtype: i32,
    pub size: i32,
    pub next: i32,
}

/// The signed word that starts at byte `at`.
pub open spec fn i32_at(b: Seq<u8>, at: int) -> i32
    recommends
        0 <= at,
        at + 4 <= b.len(),
{
    be_i32_of(b.skip(at))
}

/// The unsigned word that starts at byte `at`.
pub open spec fn u32_at(b: Seq<u8>, at: int) -> u32
    recommends
        0 <= at,
        at + 4 <= b.len(),
{
    be_u32_of(b.skip(at))
}

/// The header that the first sixteen bytes spell.
pub open spec fn header_of(b: Seq<u8>) -> Header
    recommends
        b.len() >= HEADER_LEN,
{
    Header { code: i32_at(b, 0), dtype: i32_at(b, 4), size: i32_at(b, 8), next: i32_at(b, 12) }
}

/// All the whole signed words of `b`, in order. Up to three bytes that do not
/// make a word are left over.
pub open spec fn i32_words(b: Seq<u8>) -> Seq<i32> {
    Seq::new((b.len() / 4) as nat, |k: int| i32_at(b, 4 * k))
}

/// All the whole unsigned words of `b`, in order.
pub open spec fn u32_words(b: Seq<u8>) -> Seq<u32> {
    Seq::new((b.len() / 4) as nat, |k: int| u32_at(b, 4 * k))
}

/// The signed word at `at`, read from what is left of `input` after `at` bytes.
fn word_at(input: &[u8], at: usize) -> (r: i32)
    requires
        at + 4 <= input@.len(),
    ensures
        r == i32_at(input@, at as int),
{
    let rest = slice_subrange(input, at, input.len());
    assert(rest@ == input@.skip(at as int));
    match be_i32(rest) {
        Some(value) => value,
        None => 0,
    }
}

/// Decodes a tag header from the first sixteen bytes of `input`.
///
/// Any sixteen bytes make a header; whether the header makes sense is for the
/// reader of the stream to say. With fewer than sixteen bytes there is none.
pub fn tag_header(input: &[u8]) -> (r: Option<Header>)
    ensures
        r == (if input@.len() < HEADER_LEN {
            None
        } else {
            Some(header_of(input@))
        }),
{
    if input.len() < HEADER_LEN {
        return None;
    }
    let code = word_at(input, 0);
    let dtype = word_at(input, 4);
    let size = word_at(input, 8);
    let next = word_at(input, 12);
    Some(Header { code, dtype, size, next })
}

/// Decodes one or more signed words: as many as `input` holds whole, the rest
/// ignored. There is no result when `input` holds not even one.
pub fn i32_many(input: &[u8]) -> (r: Option<Vec<i32>>)
    ensures
        input@.len() < 4 ==> r is None,
        input@.len() >= 4 ==> r is Some && r->0@ == i32_words(input@),
{
    let mut out: Vec<i32> = Vec::new();
    let mut at: usize = 0;
    loop
        invariant
            at <= input@.len(),
            at == 4 * out@.len(),
            out@.len() <= input@.len() / 4,
            forall|k: int| 0 <= k < out@.len() ==> out@[k] == i32_at(input@, 4 * k),
        ensures
            out@.len() == input@.len() / 4,
            forall|k: int| 0 <= k < out@.len() ==> out@[k] == i32_at(input@, 4 * k),
        decreases input@.len() - at,
    {
        let rest = slice_subrange(input, at, input.len());
        assert(rest@ == input@.skip(at as int));
        match be_i32(rest) {
            Some(value) => {
                out.push(value);
                at = at + 4;
            },
            None => {
                break ;
            },
        }
    }
    if out.len() == 0 {
        None
    } else {
        assert(out@ =~= i32_words(input@));
        Some(out)
    }
}

/// Decodes one or more IEEE-754 single-precision numbers, each kept as its bit
/// pattern: as many as `input` holds whole, the rest ignored. There is no
/// result when `input` holds not even one.
pub fn f32_many(input: &[u8]) -> (r: Option<Vec<u32>>)
    ensures
        input@.len() < 4 ==> r is None,
        input@.len() >= 4 ==> r is Some && r->0@ == u32_words(input@),
{
    let mut out: Vec<u32> = Vec::new();
    let mut at: usize = 0;
    loop
        invariant
            at <= input@.len(),
            at == 4 * out@.len(),
            out@.len() <= input@.len() / 4,
            forall|k: int| 0 <= k < out@.len() ==> out@[k] == u32_at(input@, 4 * k),
        ensures
            out@.len() == input@.len() / 4,
            forall|k: int| 0 <= k < out@.len() ==> out@[k] == u32_at(input@, 4 * k),
        decreases input@.len() - at,
    {
        let rest = slice_subrange(input, at, input.len());
        assert(rest@ == input@.skip(at as int));
        match be_u32(rest) {
            Some(value) => {
                out.push(value);
                at = at + 4;
            },
            None => {
                break ;
            },
        }
    }
    if out.len() == 0 {
        None
    } else {
        assert(out@ =~= u32_words(input@));
        Some(out)
    }
}

/// Why a payload could not be decoded as its header declares it.
#[derive(Debug, PartialEq, Eq, Clone, Copy, Structural)]
pub enum DecodeError {
    /// The payload's length does not fit the fixed-width layout declared.
    MalformedSequence,
    /// The payload is declared as text and is not valid UTF-8.
    InvalidEncoding,
}

/// Why no tag could be made of a header and its payload.
#[derive(Debug, PartialEq, Eq, Clone, Copy, Structural)]
pub enum TagError {
    /// The header's code is neither a structural code nor a known data code.
    UnrecognizedCode(UnrecognizedCode),
    /// The code is known and the payload does not decode.
    Decode(DecodeError),
}

/// An identifier record: a version, the id of the machine that wrote it, and
/// the time of writing in seconds and microseconds.
#[derive(Debug, PartialEq, Eq, Clone, Copy)]
pub struct IdStruct {
    pub version: i32,
    pub machid: (i32, i32),
    pub secs: i32,
    pub usecs: i32,
}

/// The payload of a tag: decoded where it was small enough to read, and
/// otherwise the place in the file where it lies.
///
/// `InFile` holds no content, and not the layout either: whoever wants the
/// payload seeks to `start`, reads `size` bytes and decodes them with
/// [`Data::from_slice`] and the `dtype` of the tag's header, which the caller
/// has to keep.
///
/// `Float` holds each number as its IEEE-754 single-precision bit pattern.
#[derive(Debug, PartialEq, Clone)]
pub enum Data {
    Void,
    Slice(Vec<u8>),
    InFile { start: u64, size: u64 },
    Int32(Vec<i32>),
    Float(Vec<u32>),
    JulianDate(Vec<i32>),
    String(String),
    ChInfoStruct(Vec<u8>),
    IdStruct(IdStruct),
    DigPointStruct(Vec<u8>),
    CoordTransStruct(Vec<u8>),
}

/// What a [`Data`] holds, as mathematical sequences.
pub enum DataView {
    Void,
    Slice(Seq<u8>),
    InFile { start: u64, size: u64 },
    Int32(Seq<i32>),
    Float(Seq<u32>),
    JulianDate(Seq<i32>),
    String(Seq<char>),
    ChInfoStruct(Seq<u8>),
    IdStruct(IdStruct),
    DigPointStruct(Seq<u8>),
    CoordTransStruct(Seq<u8>),
}

impl View for Data {
    type V = DataView;

    open spec fn view(&self) -> DataView {
        match self {
            Data::Void => DataView::Void,
            Data::Slice(b) => DataView::Slice(b@),
            Data::InFile { start, size } => DataView::InFile { start: *start, size: *size },
            Data::Int32(v) => DataView::Int32(v@),
            Data::Float(v) => DataView::Float(v@),
            Data::JulianDate(v) => DataView::JulianDate(v@),
            Data::String(s) => DataView::String(s@),
            Data::ChInfoStruct(b) => DataView::ChInfoStruct(b@),
            Data::IdStruct(id) => DataView::IdStruct(*id),
            Data::DigPointStruct(b) => DataView::DigPointStruct(b@),
            Data::CoordTransStruct(b) => DataView::CoordTransStruct(b@),
        }
    }
}

impl Default for Data {
    fn default() -> (r: Self)
        ensures
            r@ == DataView::Void,
    {
        Data::Void
    }
}

/// The identifier record that the first twenty bytes spell.
pub open spec fn id_struct_of(b: Seq<u8>) -> IdStruct
    recommends
        b.len() >= ID_STRUCT_LEN,
{
    IdStruct {
        version: i32_at(b, 0),
        machid: (i32_at(b, 4), i32_at(b, 8)),
        secs: i32_at(b, 12),
        usecs: i32_at(b, 16),
    }
}

/// What a payload decodes to under a declared layout.
///
/// Sequences of words want a length that is a multiple of four, an identifier
/// record wants exactly twenty bytes, text wants valid UTF-8. The three
/// structures that are not decoded yet and every unknown layout keep the bytes
/// as they are.
pub open spec fn decode_payload(bytes: Seq<u8>, dtype: i32) -> Result<DataView, DecodeError> {
    if dtype == 0 {
        Ok(DataView::Void)
    } else if dtype == 3 || dtype == 4 || dtype == 6 {
        if bytes.len() % 4 != 0 {
            Err(DecodeError::MalformedSequence)
        } else if dtype == 3 {
            Ok(DataView::Int32(i32_words(bytes)))
        } else if dtype == 4 {
            Ok(DataView::Float(u32_words(bytes)))
        } else {
            Ok(DataView::JulianDate(i32_words(bytes)))
        }
    } else if dtype == 10 {
        if valid_utf8(bytes) {
            Ok(DataView::String(decode_utf8(bytes)))
        } else {
            Err(DecodeError::InvalidEncoding)
        }
    } else if dtype == 30 {
        Ok(DataView::ChInfoStruct(bytes))
    } else if dtype == 31 {
        if bytes.len() == ID_STRUCT_LEN {
            Ok(DataView::IdStruct(id_struct_of(bytes)))
        } else {
            Err(DecodeError::MalformedSequence)
        }
    } else if dtype == 33 {
        Ok(DataView::DigPointStruct(bytes))
    } else if dtype == 35 {
        Ok(DataView::CoordTransStruct(bytes))
    } else {
        Ok(DataView::Slice(bytes))
    }
}

/// The number of payload bytes that a value holds in memory. A payload that
/// stays in the file takes none.
pub open spec fn resident_len(data: DataView) -> nat {
    match data {
        DataView::Void => 0,
        DataView::Slice(b) => b.len(),
        DataView::InFile { .. } => 0,
        DataView::Int32(v) => 4 * v.len(),
        DataView::Float(v) => 4 * v.len(),
        DataView::JulianDate(v) => 4 * v.len(),
        DataView::String(s) => encode_utf8(s).len(),
        DataView::ChInfoStruct(b) => b.len(),
        DataView::IdStruct(_) => ID_STRUCT_LEN as nat,
        DataView::DigPointStruct(b) => b.len(),
        DataView::CoordTransStruct(b) => b.len(),
    }
}

/// What a payload decodes to holds no more bytes than the payload.
pub proof fn lemma_decoded_len(bytes: Seq<u8>, dtype: i32)
    ensures
        decode_payload(bytes, dtype) matches Ok(data) ==> resident_len(data) <= bytes.len(),
{
    if dtype == 10 && valid_utf8(bytes) {
        decode_utf8_encode_utf8(bytes);
    }
}

/// Converts bytes to text with `String::from_utf8`.
///
/// Trusted: the conversion succeeds exactly on valid UTF-8, and the text is
/// then the characters that the bytes encode.
#[verifier::external_body]
fn utf8_text(input: Vec<u8>) -> (r: Option<String>)
    ensures
        r is Some <==> valid_utf8(input@),
        r matches Some(s) ==> s@ == decode_utf8(input@),
{
    match String::from_utf8(input) {
        Ok(text) => Some(text),
        Err(_) => None,
    }
}

/// Decodes a payload as text.
pub fn string(input: Vec<u8>) -> (r: Result<String, DecodeError>)
    ensures
        valid_utf8(input@) ==> r is Ok && r->Ok_0@ == decode_utf8(input@),
        !valid_utf8(input@) ==> r == Err::<String, DecodeError>(DecodeError::InvalidEncoding),
{
    match utf8_text(input) {
        Some(text) => Ok(text),
        None => Err(DecodeError::InvalidEncoding),
    }
}

/// Decodes an identifier record from the first twenty bytes of `input`. With
/// fewer than twenty bytes there is none.
pub fn idstruct(input: &[u8]) -> (r: Option<IdStruct>)
    ensures
        r == (if input@.len() < ID_STRUCT_LEN {
            None
        } else {
            Some(id_struct_of(input@))
        }),
{
    if input.len() < ID_STRUCT_LEN {
        return None;
    }
    let version = word_at(input, 0);
    let machid = (word_at(input, 4), word_at(input, 8));
    let secs = word_at(input, 12);
    let usecs = word_at(input, 16);
    Some(IdStruct { version, machid, secs, usecs })
}

/// Decodes all of `input` as signed words.
fn all_i32(input: &[u8]) -> (r: Result<Vec<i32>, DecodeError>)
    ensures
        input@.len() % 4 == 0 ==> r is Ok && r->Ok_0@ == i32_words(input@),
        input@.len() % 4 != 0 ==> r == Err::<Vec<i32>, DecodeError>(
            DecodeError::MalformedSequence,
        ),
{
    if input.len() % 4 != 0 {
        return Err(DecodeError::MalformedSequence);
    }
    match i32_many(input) {
        Some(words) => Ok(words),
        None => {
            let none: Vec<i32> = Vec::new();
            assert(none@ =~= i32_words(input@));
            Ok(none)
        },
    }
}

/// Decodes all of `input` as the bit patterns of single-precision numbers.
fn all_u32(input: &[u8]) -> (r: Result<Vec<u32>, DecodeError>)
    ensures
        input@.len() % 4 == 0 ==> r is Ok && r->Ok_0@ == u32_words(input@),
        input@.len() % 4 != 0 ==> r == Err::<Vec<u32>, DecodeError>(
            DecodeError::MalformedSequence,
        ),
{
    if input.len() % 4 != 0 {
        return Err(DecodeError::MalformedSequence);
    }
    match f32_many(input) {
        Some(words) => Ok(words),
        None => {
            let none: Vec<u32> = Vec::new();
            assert(none@ =~= u32_words(input@));
            Ok(none)
        },
    }
}

impl Data {
    /// Decodes a payload as the layout `dtype` declares it.
    pub fn from_slice(slice: Vec<u8>, dtype: i32) -> (r: Result<Data, DecodeError>)
        ensures
            match decode_payload(slice@, dtype) {
                Ok(v) => r is Ok && r->Ok_0@ == v,
                Err(e) => r == Err::<Data, DecodeError>(e),
            },
    {
        match dtype {
            0 => Ok(Data::Void),
            3 => match all_i32(slice.as_slice()) {
                Ok(words) => Ok(Data::Int32(words)),
                Err(e) => Err(e),
            },
            4 => match all_u32(slice.as_slice()) {
                Ok(words) => Ok(Data::Float(words)),
                Err(e) => Err(e),
            },
            6 => match all_i32(slice.as_slice()) {
                Ok(words) => Ok(Data::JulianDate(words)),
                Err(e) => Err(e),
            },
            10 => match string(slice) {
                Ok(text) => Ok(Data::String(text)),
                Err(e) => Err(e),
            },
            30 => Ok(Data::ChInfoStruct(slice)),
            31 => {
                if slice.len() != ID_STRUCT_LEN {
                    return Err(DecodeError::MalformedSequence);
                }
                match idstruct(slice.as_slice()) {
                    Some(id) => Ok(Data::IdStruct(id)),
                    None => Err(DecodeError::MalformedSequence),
                }
            },
            33 => Ok(Data::DigPointStruct(slice)),
            35 => Ok(Data::CoordTransStruct(slice)),
            _ => Ok(Data::Slice(slice)),
        }
    }
}

/// One record of the file: a data tag or a structural tag, with its payload.
#[derive(Debug, PartialEq, Clone)]
#[allow(inconsistent_fields)]
pub enum Tag {
    Data { kind: DataTagKind, data: Data },
    Block { kind: BlockTagKind, data: Data },
}

/// What a [`Tag`] holds, as mathematical values.
#[allow(inconsistent_fields)]
pub enum TagView {
    Data { kind: DataTagKind, data: DataView },
    Block { kind: BlockTagKind, data: DataView },
}

impl TagView {
    /// The payload of the tag.
    pub open spec fn data(self) -> DataView {
        match self {
            TagView::Data { data, .. } => data,
            TagView::Block { data, .. } => data,
        }
    }
}

impl View for Tag {
    type V = TagView;

    open spec fn view(&self) -> TagView {
        match self {
            Tag::Data { kind, data } => TagView::Data { kind: *kind, data: data@ },
            Tag::Block { kind, data } => TagView::Block { kind: *kind, data: data@ },
        }
    }
}

impl Default for Tag {
    fn default() -> (r: Self)
        ensures
            r@ == (TagView::Data { kind: DataTagKind::Nop, data: DataView::Void }),
    {
        Tag::Data { kind: DataTagKind::Nop, data: Data::Void }
    }
}

/// The tag that a code and a payload make: a structural tag where the code is
/// structural, else a data tag where the code is a known data code.
pub open spec fn tag_with(code: i32, data: DataView) -> Result<TagView, TagError> {
    match BlockTagKind::of_code(code) {
        Some(kind) => Ok(TagView::Block { kind, data }),
        None => match DataTagKind::of_code(code) {
            Some(kind) => Ok(TagView::Data { kind, data }),
            None => Err(TagError::UnrecognizedCode(UnrecognizedCode { code })),
        },
    }
}

/// The tag that a header and its payload bytes make. An unrecognized code is
/// reported before the payload is looked at.
pub open spec fn tag_of_slice(header: Header, payload: Seq<u8>) -> Result<TagView, TagError> {
    if BlockTagKind::of_code(header.code) is None && DataTagKind::of_code(header.code) is None {
        Err(TagError::UnrecognizedCode(UnrecognizedCode { code: header.code }))
    } else {
        match decode_payload(payload, header.dtype) {
            Ok(data) => tag_with(header.code, data),
            Err(e) => Err(TagError::Decode(e)),
        }
    }
}

/// The tag that a header makes with a payload left in the file.
pub open spec fn tag_of_file_position(header: Header, start: u64, size: u64) -> Result<
    TagView,
    TagError,
> {
    tag_with(header.code, DataView::InFile { start, size })
}

impl Tag {
    /// Makes a tag of a header and the bytes of its payload.
    ///
    /// The code is classified first, as structural or else as data; a code
    /// that is neither is an error whatever the payload holds. The payload is
    /// then decoded as the header's `dtype` declares it.
    pub fn from_header_slice(header: Header, slice: Vec<u8>) -> (r: Result<Tag, TagError>)
        ensures
            match tag_of_slice(header, slice@) {
                Ok(v) => r is Ok && r->Ok_0@ == v,
                Err(e) => r == Err::<Tag, TagError>(e),
            },
    {
        match BlockTagKind::from_code(header.code) {
            Ok(kind) => match Data::from_slice(slice, header.dtype) {
                Ok(data) => Ok(Tag::Block { kind, data }),
                Err(e) => Err(TagError::Decode(e)),
            },
            Err(_) => match DataTagKind::from_code(header.code) {
                Ok(kind) => match Data::from_slice(slice, header.dtype) {
                    Ok(data) => Ok(Tag::Data { kind, data }),
                    Err(e) => Err(TagError::Decode(e)),
                },
                Err(e) => Err(TagError::UnrecognizedCode(e)),
            },
        }
    }

    /// Makes a tag of a header whose payload stays in the file, as the `size`
    /// bytes from offset `start`.
    pub fn from_header_file_position(header: Header, start: u64, size: u64) -> (r: Result<
        Tag,
        TagError,
    >)
        ensures
            match tag_of_file_position(header, start, size) {
                Ok(v) => r is Ok && r->Ok_0@ == v,
                Err(e) => r == Err::<Tag, TagError>(e),
            },
    {
        let data = Data::InFile { start, size };
        match BlockTagKind::from_code(header.code) {
            Ok(kind) => Ok(Tag::Block { kind, data }),
            Err(_) => match DataTagKind::from_code(header.code) {
                Ok(kind) => Ok(Tag::Data { kind, data }),
                Err(e) => Err(TagError::UnrecognizedCode(e)),
            },
        }
    }
}

/// Why a sequence of tags does not spell a tree.
#[derive(Debug, PartialEq, Eq, Clone, Copy, Structural)]
pub enum TreeError {
    /// A block start whose payload is not a sequence of at least one integer.
    MalformedBlockStart,
    /// A structural tag other than a block start, where a node was asked for.
    NotABlockStart,
    /// A block end with no block open.
    UnbalancedBlocks,
}

/// A node of the tree of a file: a block, or a data tag inside one.
#[derive(Debug, PartialEq)]
#[allow(inconsistent_fields)]
pub enum FiffNode {
    Tag { kind: DataTagKind, data: Data },
    Block { kind: BlockKind },
}

/// What a [`FiffNode`] holds, as mathematical values.
#[allow(inconsistent_fields)]
pub enum FiffNodeView {
    Tag { kind: DataTagKind, data: DataView },
    Block { kind: BlockKind },
}

impl View for FiffNode {
    type V = FiffNodeView;

    open spec fn view(&self) -> FiffNodeView {
        match self {
            FiffNode::Tag { kind, data } => FiffNodeView::Tag { kind: *kind, data: data@ },
            FiffNode::Block { kind } => FiffNodeView::Block { kind: *kind },
        }
    }
}

/// The node that a tag becomes: a leaf for a data tag, a block for a block
/// start, named by the first integer of its payload.
pub open spec fn node_of(tag: TagView) -> Result<FiffNodeView, TreeError> {
    match tag {
        TagView::Data { kind, data } => Ok(FiffNodeView::Tag { kind, data }),
        TagView::Block { kind, data } => {
            if kind != BlockTagKind::BlockStart {
                Err(TreeError::NotABlockStart)
            } else if data is Int32 && data->Int32_0.len() > 0 {
                Ok(FiffNodeView::Block { kind: BlockKind::of_code(data->Int32_0[0]) })
            } else {
                Err(TreeError::MalformedBlockStart)
            }
        },
    }
}

impl FiffNode {
    /// Turns a tag into the node that stands for it in the tree.
    pub fn from_tag(tag: Tag) -> (r: Result<FiffNode, TreeError>)
        ensures
            match node_of(tag@) {
                Ok(v) => r is Ok && r->Ok_0@ == v,
                Err(e) => r == Err::<FiffNode, TreeError>(e),
            },
    {
        match tag {
            Tag::Block { kind, data } => match kind {
                BlockTagKind::BlockStart => match data {
                    Data::Int32(codes) => {
                        if codes.len() > 0 {
                            Ok(FiffNode::Block { kind: BlockKind::from_code(codes[0]) })
                        } else {
                            Err(TreeError::MalformedBlockStart)
                        }
                    },
                    _ => Err(TreeError::MalformedBlockStart),
                },
                _ => Err(TreeError::NotABlockStart),
            },
            Tag::Data { kind, data } => Ok(FiffNode::Tag { kind, data }),
        }
    }
}

impl Default for FiffNode {
    fn default() -> (r: Self)
        ensures
            r@ == (FiffNodeView::Block { kind: BlockKind::Root }),
    {
        FiffNode::Block { kind: BlockKind::Root }
    }
}

/// A block, by its kind alone.
#[derive(Debug, PartialEq)]
pub struct Block {
    pub kind: BlockKind,
}

impl Default for Block {
    fn default() -> (r: Self)
        ensures
            r.kind == BlockKind::Root,
    {
        Block { kind: BlockKind::Root }
    }
}

/// A payload together with the kind of its tag, which decides how it is
/// shown.
#[derive(Debug, PartialEq)]
pub struct LabelledData(pub DataTagKind, pub Data);

impl LabelledData {
    /// Puts a kind and a payload together.
    pub fn new(kind: DataTagKind, data: Data) -> (r: Self)
        ensures
            r.0 == kind,
            r.1 == data,
    {
        LabelledData(kind, data)
    }

    /// The date that the payload stands for: that of [`decode_unix_date`]
    /// where the kind is a measurement date and the payload a sequence of
    /// integers, and none otherwise.
    pub fn date_text(&self) -> (r: Option<String>)
        ensures
            text_view(r) == (if self.0 == DataTagKind::MeasDate && self.1@ is Int32 {
                date_of(self.1@->Int32_0)
            } else {
                None
            }),
    {
        match self.0 {
            DataTagKind::MeasDate => match &self.1 {
                Data::Int32(words) => decode_unix_date(words),
                _ => None,
            },
            _ => None,
        }
    }
}

/// The view of a text that may be missing.
pub open spec fn text_view(text: Option<String>) -> Option<Seq<char>> {
    match text {
        Some(s) => Some(s@),
        None => None,
    }
}

/// The text that `chrono` writes for the date and time of day, without time
/// zone, that lies `secs` seconds and `nsecs` nanoseconds after the start of
/// 1970, where there is such a date.
pub uninterp spec fn unix_date_text(secs: i64, nsecs: u32) -> Option<Seq<char>>;

/// Writes a timestamp as a date and time of day, with
/// `chrono::NaiveDateTime::from_timestamp_opt` and the `Display` of what that
/// returns.
///
/// Trusted: the text, and whether there is one, depend on the two numbers
/// alone. There is one where the seconds fit in 32 bits and the nanoseconds
/// are less than a second.
#[verifier::external_body]
#[allow(deprecated)]
fn timestamp_text(secs: i64, nsecs: u32) -> (r: Option<String>)
    ensures
        text_view(r) == unix_date_text(secs, nsecs),
        i32::MIN <= secs <= i32::MAX && nsecs < 1_000_000_000 ==> r is Some,
{
    match chrono::NaiveDateTime::from_timestamp_opt(secs, nsecs) {
        Some(moment) => Some(moment.to_string()),
        None => None,
    }
}

/// The date that a pair of integers stands for, read as seconds since the
/// start of 1970 and a count below the second, which is handed on as
/// nanoseconds. There is none where there are fewer than two integers or the
/// second is negative.
pub open spec fn date_of(ivec: Seq<i32>) -> Option<Seq<char>> {
    if ivec.len() >= 2 && ivec[1] >= 0 {
        unix_date_text(ivec[0] as i64, ivec[1] as u32)
    } else {
        None
    }
}

/// Writes the date that the first two integers of `ivec` stand for.
pub fn decode_unix_date(ivec: &Vec<i32>) -> (r: Option<String>)
    ensures
        text_view(r) == date_of(ivec@),
        ivec@.len() >= 2 && 0 <= ivec@[1] < 1_000_000_000 ==> r is Some,
{
    if ivec.len() < 2 {
        return None;
    }
    if ivec[1] < 0 {
        return None;
    }
    timestamp_text(ivec[0] as i64, ivec[1] as u32)
}

/// Texts in a row, with a space between each two.
pub open spec fn spaced(items: Seq<Seq<char>>) -> Seq<char>
    decreases items.len(),
{
    if items.len() == 0 {
        Seq::empty()
    } else if items.len() == 1 {
        items[0]
    } else {
        spaced(items.drop_last()) + seq![' '] + items.last()
    }
}

/// How a sequence of values is shown, given the text of each: the word
/// `None` for no values, and else the texts with a space between each two.
pub open spec fn shown(items: Seq<Seq<char>>) -> Seq<char> {
    if items.len() == 0 {
        seq!['N', 'o', 'n', 'e']
    } else {
        spaced(items)
    }
}

/// Shows a sequence of values, given the text of each.
pub fn display_vec(input: &[String]) -> (r: String)
    ensures
        r@ == shown(input@.map_values(|s: String| s@)),
{
    let ghost items = input@.map_values(|s: String| s@);
    if input.len() == 0 {
        proof {
            reveal_strlit("None");
            assert("None"@ =~= seq!['N', 'o', 'n', 'e']);
        }
        return String::from_str("None");
    }
    let mut out = input[0].clone();
    let mut i: usize = 1;
    proof {
        assert(items.take(1) =~= seq![input@[0]@]);
    }
    while i < input.len()
        invariant
            items == input@.map_values(|s: String| s@),
            1 <= i <= input@.len(),
            out@ == spaced(items.take(i as int)),
        decreases input@.len() - i,
    {
        proof {
            reveal_strlit(" ");
            assert(" "@ =~= seq![' ']);
            assert(items.take(i + 1).drop_last() =~= items.take(i as int));
            assert(items.take(i + 1).last() == input@[i as int]@);
        }
        out.append(" ");
        out.append(input[i].as_str());
        i = i + 1;
    }
    proof {
        assert(items.take(input@.len() as int) =~= items);
    }
    out
}

/// The entry of the tag dictionary for one kind of tag.
#[derive(Debug, Clone)]
pub struct TagDef {
    pub code: i32,
    pub name: String,
    pub dtype: String,
    pub unit: String,
    pub description: String,
}

/// What a [`TagDef`] holds, as mathematical values.
pub struct TagDefView {
    pub code: i32,
    pub name: Seq<char>,
    pub dtype: Seq<char>,
    pub unit: Seq<char>,
    pub description: Seq<char>,
}

impl View for TagDef {
    type V = TagDefView;

    open spec fn view(&self) -> TagDefView {
        TagDefView {
            code: self.code,
            name: self.name@,
            dtype: self.dtype@,
            unit: self.unit@,
            description: self.description@,
        }
    }
}

impl TagDefView {
    /// The line that describes the entry: its name, its type in brackets, a
    /// colon, its description, and its unit in brackets.
    pub open spec fn line(self) -> Seq<char> {
        self.name + seq![' ', '('] + self.dtype + seq![')', ':', ' '] + self.description + seq![
            ' ',
            '(',
        ] + self.unit + seq![')']
    }
}

impl TagDef {
    /// A copy of the entry.
    pub fn duplicate(&self) -> (r: TagDef)
        ensures
            r@ == self@,
    {
        TagDef {
            code: self.code,
            name: self.name.clone(),
            dtype: self.dtype.clone(),
            unit: self.unit.clone(),
            description: self.description.clone(),
        }
    }

    /// Writes the line that describes the entry.
    pub fn describe(&self) -> (r: String)
        ensures
            r@ == self@.line(),
    {
        proof {
            reveal_strlit(" (");
            reveal_strlit("): ");
            reveal_strlit(")");
            assert(" ("@ =~= seq![' ', '(']);
            assert("): "@ =~= seq![')', ':', ' ']);
            assert(")"@ =~= seq![')']);
        }
        let mut out = self.name.clone();
        out.append(" (");
        out.append(self.dtype.as_str());
        out.append("): ");
        out.append(self.description.as_str());
        out.append(" (");
        out.append(self.unit.as_str());
        out.append(")");
        out
    }
}

impl Default for TagDef {
    fn default() -> (r: Self)
        ensures
            r.code == 0,
            r.name@ == "unknown"@,
            r.dtype@ == "unknown"@,
            r.unit@ == "unknown"@,
            r.description@ == "Unrecognized tag"@,
    {
        TagDef {
            code: 0,
            name: String::from_str("unknown"),
            dtype: String::from_str("unknown"),
            unit: String::from_str("unknown"),
            description: String::from_str("Unrecognized tag"),
        }
    }
}

/// The dictionary that a table of entries makes: each entry whose code is a
/// known data code, under its name. Of two entries with one name the later
/// stands.
pub open spec fn dict_of(records: Seq<TagDefView>) -> Map<Seq<char>, TagDefView>
    decreases records.len(),
{
    if records.len() == 0 {
        Map::empty()
    } else if DataTagKind::recognizes(records.last().code) {
        dict_of(records.drop_last()).insert(records.last().name, records.last())
    } else {
        dict_of(records.drop_last())
    }
}

/// The views of a sequence of entries.
pub open spec fn def_views(defs: Seq<TagDef>) -> Seq<TagDefView> {
    defs.map_values(|d: TagDef| d@)
}

/// The tag dictionary: the entries of the known data tags, by name.
#[derive(Debug)]
pub struct TagDict {
    entries: Vec<TagDef>,
}

impl View for TagDict {
    type V = Map<Seq<char>, TagDefView>;

    closed spec fn view(&self) -> Map<Seq<char>, TagDefView> {
        dict_of(def_views(self.entries@))
    }
}

/// What a dictionary made of known entries alone holds under a name: the
/// last entry of that name, and nothing where no entry has it.
proof fn lemma_dict_lookup(records: Seq<TagDefView>, name: Seq<char>, from: int)
    requires
        forall|i: int|
            0 <= i < records.len() ==> DataTagKind::recognizes(#[trigger] records[i].code),
        0 <= from <= records.len(),
        forall|j: int| from <= j < records.len() ==> (#[trigger] records[j]).name != name,
    ensures
        from == 0 ==> !dict_of(records).contains_key(name),
        from > 0 && records[from - 1].name == name ==> dict_of(records).contains_key(name)
            && dict_of(records)[name] == records[from - 1],
    decreases records.len(),
{
    if records.len() > from {
        let front = records.drop_last();
        assert(records.last() == records[records.len() - 1]);
        assert forall|i: int| 0 <= i < front.len() implies DataTagKind::recognizes(
            #[trigger] front[i].code,
        ) by {
            assert(front[i] == records[i]);
        }
        assert forall|j: int| from <= j < front.len() implies (#[trigger] front[j]).name
            != name by {
            assert(front[j] == records[j]);
        }
        lemma_dict_lookup(front, name, from);
    } else if from > 0 {
        assert(DataTagKind::recognizes(records[from - 1].code));
    }
}

impl TagDict {
    /// The invariant of the representation: every entry kept has a known data
    /// code.
    pub closed spec fn wf(&self) -> bool {
        forall|i: int|
            0 <= i < self.entries@.len() ==> DataTagKind::recognizes(
                (#[trigger] self.entries@[i]).code,
            )
    }

    /// Looks a name up.
    pub fn get(&self, name: &String) -> (r: Option<&TagDef>)
        requires
            self.wf(),
        ensures
            r is Some <==> self@.contains_key(name@),
            r matches Some(def) ==> def@ == self@[name@] && def@.name == name@
                && DataTagKind::recognizes(def.code),
    {
        let ghost records = def_views(self.entries@);
        let mut i: usize = self.entries.len();
        while i > 0
            invariant
                self.wf(),
                records == def_views(self.entries@),
                i <= self.entries@.len(),
                forall|j: int| i <= j < records.len() ==> (#[trigger] records[j]).name != name@,
            decreases i,
        {
            if self.entries[i - 1].name == *name {
                proof {
                    lemma_dict_lookup(records, name@, i as int);
                }
                return Some(&self.entries[i - 1]);
            }
            i = i - 1;
        }
        proof {
            lemma_dict_lookup(records, name@, 0);
        }
        None
    }
}

/// Makes the tag dictionary of a table of entries, given in the order of the
/// table. Entries whose code is no known data code are left out.
pub fn read_tag_dict(records: Vec<TagDef>) -> (r: TagDict)
    ensures
        r.wf(),
        r@ == dict_of(def_views(records@)),
{
    let mut entries: Vec<TagDef> = Vec::new();
    let ghost all = def_views(records@);
    proof {
        assert(all.take(0) =~= Seq::<TagDefView>::empty());
        assert(def_views(entries@) =~= Seq::<TagDefView>::empty());
    }
    for record in it: records
        invariant
            all == def_views(records@),
            it.seq() == records@,
            forall|i: int|
                0 <= i < entries@.len() ==> DataTagKind::recognizes((#[trigger] entries@[i]).code),
            dict_of(def_views(entries@)) == dict_of(all.take(it.index() as int)),
    {
        let ghost k = it.index() as int;
        let ghost before = def_views(entries@);
        proof {
            assert(all.take(k + 1).drop_last() =~= all.take(k));
            assert(all.take(k + 1).last() == record@);
        }
        if DataTagKind::from_code(record.code).is_ok() {
            entries.push(record);
            proof {
                assert(def_views(entries@).drop_last() =~= before);
                assert(def_views(entries@).last() == record@);
            }
        }
    }
    proof {
        assert(all.take(records@.len() as int) =~= all);
    }
    TagDict { entries }
}

} // verus!
