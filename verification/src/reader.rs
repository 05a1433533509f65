//! Reading a stream of tags without holding its large payloads.
//!
//! [`TagReader`] decides; whoever owns the stream does the input. The reader
//! says what it needs next, a header, a payload or a skip, and is told what
//! came of it. A payload of more than [`MAX_PARSE_SIZE`] bytes is never asked
//! for: it is skipped, and its tag records where it lies.
//!
//! [`tags_from`] states what the tags of a whole stream are, given its bytes.
use crate::enums::{BlockTagKind, DataTagKind};
use crate::tag::{
    header_of, lemma_decoded_len, resident_len, tag_header, tag_of_file_position, tag_of_slice,
    Header, Tag, TagError, TagView, HEADER_LEN,
};
use vstd::prelude::*;

verus! {

/// The largest payload, in bytes, that is read and decoded. A larger one
/// stays in the file.
pub const MAX_PARSE_SIZE: u64 = 512;

/// Why the reading of a stream was given up.
#[derive(Debug, PartialEq, Eq, Clone, Copy, Structural)]
pub enum ReadError {
    /// The stream ends inside a header.
    TruncatedHeader,
    /// A header declares a negative payload size.
    InvalidSize,
    /// The stream ends inside a payload that was to be read.
    TruncatedPayload,
    /// An offset in the stream does not fit in 64 bits.
    PositionOverflow,
    /// The reader was told of something that it had not asked for.
    UnexpectedEvent,
}

/// What the reader needs next from the stream.
#[derive(Debug, PartialEq, Eq, Clone, Copy, Structural)]
pub enum ReadRequest {
    /// The next sixteen bytes, or as many as are left.
    Header,
    /// Exactly the next `size` bytes.
    Payload { size: usize },
    /// Nothing but to move on by `size` bytes.
    Skip { size: u64 },
    /// Nothing more: the stream has ended.
    Done,
}

/// What the stream gave.
#[derive(Debug)]
pub enum ReadEvent {
    /// The bytes read for a header: sixteen, fewer where the stream ended
    /// inside the header, none where it had ended before.
    Header(Vec<u8>),
    /// The bytes read for a payload.
    Payload(Vec<u8>),
    /// The skip was made.
    Skipped,
}

/// What a [`ReadEvent`] holds, as mathematical values.
pub enum EventView {
    Header(Seq<u8>),
    Payload(Seq<u8>),
    Skipped,
}

impl View for ReadEvent {
    type V = EventView;

    open spec fn view(&self) -> EventView {
        match self {
            ReadEvent::Header(b) => EventView::Header(b@),
            ReadEvent::Payload(b) => EventView::Payload(b@),
            ReadEvent::Skipped => EventView::Skipped,
        }
    }
}

/// The state of a reader: the offset of the next byte of the stream, the tags
/// made so far, the header whose payload is due, and whether the stream has
/// ended.
pub struct ReaderView {
    pub position: int,
    pub tags: Seq<TagView>,
    pub pending: Option<Header>,
    pub done: bool,
}

/// A sequence of tags with one more, where there is one.
pub open spec fn with_tag(tags: Seq<TagView>, tag: Result<TagView, TagError>) -> Seq<TagView> {
    match tag {
        Ok(t) => tags.push(t),
        Err(_) => tags,
    }
}

/// The error that kept a tag from being made, where there is one.
pub open spec fn error_of(tag: Result<TagView, TagError>) -> Option<TagError> {
    match tag {
        Ok(_) => None,
        Err(e) => Some(e),
    }
}

impl ReaderView {
    /// The state before anything is read.
    pub open spec fn start() -> ReaderView {
        ReaderView { position: 0, tags: Seq::empty(), pending: None, done: false }
    }

    /// Whether the header that is pending, if any, declares a size that can
    /// be read or skipped.
    pub open spec fn wf(self) -> bool {
        &&& 0 <= self.position <= u64::MAX
        &&& self.pending matches Some(h) ==> h.size >= 0
    }

    /// What a reader in this state asks for.
    pub open spec fn request(self) -> ReadRequest {
        if self.done {
            ReadRequest::Done
        } else {
            match self.pending {
                None => ReadRequest::Header,
                Some(h) => if h.size > MAX_PARSE_SIZE {
                    ReadRequest::Skip { size: h.size as u64 }
                } else {
                    ReadRequest::Payload { size: h.size as usize }
                },
            }
        }
    }

    /// The tag that an event completes in this state, or why none is made of
    /// it. Only a payload or a skip that was asked for completes a tag.
    pub open spec fn completes(self, event: EventView) -> Option<Result<TagView, TagError>> {
        match (self.request(), event) {
            (ReadRequest::Payload { size }, EventView::Payload(bytes)) => if bytes.len() == size {
                Some(tag_of_slice(self.pending->0, bytes))
            } else {
                None
            },
            (ReadRequest::Skip { size }, EventView::Skipped) => Some(
                tag_of_file_position(self.pending->0, self.position as u64, size),
            ),
            _ => None,
        }
    }

    /// The state after an event, or the error that ends the reading.
    ///
    /// No bytes where a header was asked for end the stream; fewer than
    /// sixteen are an error. A header moves the position past it and makes
    /// its payload due. A payload or a skip moves the position past the
    /// payload and adds the tag, unless the tag cannot be made, in which case
    /// it is left out and the reading goes on.
    pub open spec fn step(self, event: EventView) -> Result<ReaderView, ReadError> {
        match (self.request(), event) {
            (ReadRequest::Header, EventView::Header(bytes)) => {
                if bytes.len() == 0 {
                    Ok(ReaderView { done: true, ..self })
                } else if bytes.len() < HEADER_LEN {
                    Err(ReadError::TruncatedHeader)
                } else if bytes.len() > HEADER_LEN {
                    Err(ReadError::UnexpectedEvent)
                } else if header_of(bytes).size < 0 {
                    Err(ReadError::InvalidSize)
                } else if self.position + HEADER_LEN > u64::MAX {
                    Err(ReadError::PositionOverflow)
                } else {
                    Ok(
                        ReaderView {
                            position: self.position + HEADER_LEN,
                            pending: Some(header_of(bytes)),
                            ..self
                        },
                    )
                }
            },
            (ReadRequest::Payload { size }, EventView::Payload(bytes)) => {
                if bytes.len() != size {
                    Err(ReadError::TruncatedPayload)
                } else if self.position + size > u64::MAX {
                    Err(ReadError::PositionOverflow)
                } else {
                    Ok(
                        ReaderView {
                            position: self.position + size,
                            tags: with_tag(self.tags, self.completes(event)->0),
                            pending: None,
                            ..self
                        },
                    )
                }
            },
            (ReadRequest::Skip { size }, EventView::Skipped) => {
                if self.position + size > u64::MAX {
                    Err(ReadError::PositionOverflow)
                } else {
                    Ok(
                        ReaderView {
                            position: self.position + size,
                            tags: with_tag(self.tags, self.completes(event)->0),
                            pending: None,
                            ..self
                        },
                    )
                }
            },
            _ => Err(ReadError::UnexpectedEvent),
        }
    }
}

/// The reader of a stream of tags.
#[derive(Debug)]
pub struct TagReader {
    position: u64,
    tags: Vec<Tag>,
    pending: Option<Header>,
    done: bool,
}

impl View for TagReader {
    type V = ReaderView;

    closed spec fn view(&self) -> ReaderView {
        ReaderView {
            position: self.position as int,
            tags: self.tags@.map_values(|t: Tag| t@),
            pending: self.pending,
            done: self.done,
        }
    }
}

impl TagReader {
    /// Makes a reader at the start of a stream.
    pub fn new() -> (r: Self)
        ensures
            r@ == ReaderView::start(),
            r@.wf(),
    {
        let r = TagReader { position: 0, tags: Vec::new(), pending: None, done: false };
        assert(r@.tags =~= Seq::<TagView>::empty());
        r
    }

    /// Makes a reader for a stream that starts at offset `position` of its
    /// file, so that what it records of payloads left in the file are
    /// offsets in the file.
    pub fn at(position: u64) -> (r: Self)
        ensures
            r@ == (ReaderView { position: position as int, ..ReaderView::start() }),
            r@.wf(),
    {
        let r = TagReader { position, tags: Vec::new(), pending: None, done: false };
        assert(r@.tags =~= Seq::<TagView>::empty());
        r
    }

    /// The offset in the stream of the next byte to read.
    pub fn position(&self) -> (r: u64)
        ensures
            r == self@.position,
    {
        self.position
    }

    /// What to do next with the stream. A payload that is asked for has at
    /// most [`MAX_PARSE_SIZE`] bytes.
    pub fn request(&self) -> (r: ReadRequest)
        requires
            self@.wf(),
        ensures
            r == self@.request(),
            r matches ReadRequest::Payload { size } ==> size <= MAX_PARSE_SIZE,
            r matches ReadRequest::Skip { size } ==> MAX_PARSE_SIZE < size <= i32::MAX,
    {
        if self.done {
            return ReadRequest::Done;
        }
        match self.pending {
            None => ReadRequest::Header,
            Some(h) => {
                if h.size as u64 > MAX_PARSE_SIZE {
                    ReadRequest::Skip { size: h.size as u64 }
                } else {
                    ReadRequest::Payload { size: h.size as usize }
                }
            },
        }
    }

    /// Takes in what the stream gave and moves on.
    ///
    /// The result is the error that ends the reading, in which case the
    /// reader stays as it was, or else the reason why the tag that the event
    /// completed was left out, if one was.
    pub fn step(&mut self, event: ReadEvent) -> (r: Result<Option<TagError>, ReadError>)
        requires
            old(self)@.wf(),
        ensures
            final(self)@.wf(),
            match old(self)@.step(event@) {
                Ok(next) => final(self)@ == next && r == Ok::<Option<TagError>, ReadError>(
                    match old(self)@.completes(event@) {
                        Some(tag) => error_of(tag),
                        None => None,
                    },
                ),
                Err(e) => final(self)@ == old(self)@ && r == Err::<Option<TagError>, ReadError>(e),
            },
    {
        let request = self.request();
        match event {
            ReadEvent::Header(bytes) => {
                if request != ReadRequest::Header {
                    return Err(ReadError::UnexpectedEvent);
                }
                if bytes.len() == 0 {
                    self.done = true;
                    return Ok(None);
                }
                if bytes.len() > HEADER_LEN {
                    return Err(ReadError::UnexpectedEvent);
                }
                let header = match tag_header(bytes.as_slice()) {
                    Some(header) => header,
                    None => {
                        return Err(ReadError::TruncatedHeader);
                    },
                };
                if header.size < 0 {
                    return Err(ReadError::InvalidSize);
                }
                if self.position > u64::MAX - (HEADER_LEN as u64) {
                    return Err(ReadError::PositionOverflow);
                }
                self.position = self.position + HEADER_LEN as u64;
                self.pending = Some(header);
                Ok(None)
            },
            ReadEvent::Payload(bytes) => {
                let (header, size) = match (self.pending, request) {
                    (Some(header), ReadRequest::Payload { size }) => (header, size),
                    _ => {
                        return Err(ReadError::UnexpectedEvent);
                    },
                };
                if bytes.len() != size {
                    return Err(ReadError::TruncatedPayload);
                }
                if self.position > u64::MAX - (size as u64) {
                    return Err(ReadError::PositionOverflow);
                }
                self.position = self.position + size as u64;
                self.pending = None;
                self.keep(Tag::from_header_slice(header, bytes))
            },
            ReadEvent::Skipped => {
                let (header, size) = match (self.pending, request) {
                    (Some(header), ReadRequest::Skip { size }) => (header, size),
                    _ => {
                        return Err(ReadError::UnexpectedEvent);
                    },
                };
                if self.position > u64::MAX - size {
                    return Err(ReadError::PositionOverflow);
                }
                let start = self.position;
                self.position = self.position + size;
                self.pending = None;
                self.keep(Tag::from_header_file_position(header, start, size))
            },
        }
    }

    /// Adds a tag to those made so far, or hands back why there is none.
    fn keep(&mut self, made: Result<Tag, TagError>) -> (r: Result<Option<TagError>, ReadError>)
        ensures
            final(self).position == old(self).position,
            final(self).pending == old(self).pending,
            final(self).done == old(self).done,
            match made {
                Ok(tag) => final(self)@.tags == old(self)@.tags.push(tag@) && r == Ok::<
                    Option<TagError>,
                    ReadError,
                >(None),
                Err(e) => final(self)@.tags == old(self)@.tags && r == Ok::<
                    Option<TagError>,
                    ReadError,
                >(Some(e)),
            },
    {
        match made {
            Ok(tag) => {
                self.tags.push(tag);
                assert(self@.tags =~= old(self)@.tags.push(tag@));
                Ok(None)
            },
            Err(e) => Ok(Some(e)),
        }
    }

    /// The tags made so far, in the order of the stream.
    pub fn into_tags(self) -> (r: Vec<Tag>)
        ensures
            r@.map_values(|t: Tag| t@) == self@.tags,
    {
        self.tags
    }
}

/// The tags of the rest of a stream, with the tag before them in front, where
/// that one could be made.
pub open spec fn after(tag: Result<TagView, TagError>, rest: Result<Seq<TagView>, ReadError>)
    -> Result<Seq<TagView>, ReadError> {
    match rest {
        Ok(tags) => Ok(with_tag(Seq::empty(), tag) + tags),
        Err(e) => Err(e),
    }
}

/// The tags of the stream `bytes` from offset `pos` on, or the error that
/// ends its reading.
///
/// At the end of the stream there are no more tags. Before it there must be
/// a whole header with a size that is not negative. A payload of more than
/// [`MAX_PARSE_SIZE`] bytes is not looked at, not even for whether the stream
/// holds all of it: its tag refers to it by offset and size. A smaller one
/// must lie within the stream and is decoded. A tag that cannot be made of
/// its header and payload is left out. In every case the next header is
/// looked for right behind the payload, whatever the header's `next` says.
pub open spec fn tags_from(bytes: Seq<u8>, pos: int) -> Result<Seq<TagView>, ReadError>
    decreases
            if pos < bytes.len() {
                bytes.len() - pos
            } else {
                0
            },
{
    if pos < 0 || pos >= bytes.len() {
        Ok(Seq::empty())
    } else if bytes.len() - pos < HEADER_LEN {
        Err(ReadError::TruncatedHeader)
    } else {
        let header = header_of(bytes.skip(pos));
        let start = pos + HEADER_LEN;
        if header.size < 0 {
            Err(ReadError::InvalidSize)
        } else if header.size > MAX_PARSE_SIZE {
            if start + header.size > u64::MAX {
                Err(ReadError::PositionOverflow)
            } else {
                after(
                    tag_of_file_position(header, start as u64, header.size as u64),
                    tags_from(bytes, start + header.size),
                )
            }
        } else if start + header.size > bytes.len() {
            Err(ReadError::TruncatedPayload)
        } else {
            after(
                tag_of_slice(header, bytes.subrange(start, start + header.size)),
                tags_from(bytes, start + header.size),
            )
        }
    }
}

/// The bound on what is held of deferred payloads. No tag of a stream holds
/// more than [`MAX_PARSE_SIZE`] bytes of payload, however large the stream
/// and its payloads are.
pub proof fn lemma_resident_bound(bytes: Seq<u8>, pos: int)
    ensures
        tags_from(bytes, pos) matches Ok(tags) ==> forall|i: int|
            0 <= i < tags.len() ==> resident_len((#[trigger] tags[i]).data()) <= MAX_PARSE_SIZE,
    decreases
            if pos < bytes.len() {
                bytes.len() - pos
            } else {
                0
            },
{
    if 0 <= pos && pos + HEADER_LEN <= bytes.len() {
        let header = header_of(bytes.skip(pos));
        let start = pos + HEADER_LEN;
        if header.size >= 0 {
            lemma_resident_bound(bytes, start + header.size);
            if header.size <= MAX_PARSE_SIZE && start + header.size <= bytes.len() {
                lemma_decoded_len(bytes.subrange(start, start + header.size), header.dtype);
            }
        }
    }
}

/// Tolerance of unrecognized codes. A tag whose code is neither structural
/// nor a known data code does not end the reading: where its payload lies
/// within the stream, or is large enough to be skipped, the tags of the
/// stream from its header on are those from the next header on.
pub proof fn lemma_unrecognized_left_out(bytes: Seq<u8>, pos: int)
    requires
        0 <= pos,
        pos + HEADER_LEN <= bytes.len(),
        BlockTagKind::of_code(header_of(bytes.skip(pos)).code) is None,
        DataTagKind::of_code(header_of(bytes.skip(pos)).code) is None,
        0 <= header_of(bytes.skip(pos)).size,
        header_of(bytes.skip(pos)).size <= MAX_PARSE_SIZE ==> pos + HEADER_LEN + header_of(
            bytes.skip(pos),
        ).size <= bytes.len(),
        pos + HEADER_LEN + header_of(bytes.skip(pos)).size <= u64::MAX,
    ensures
        tags_from(bytes, pos) == tags_from(
            bytes,
            pos + HEADER_LEN + header_of(bytes.skip(pos)).size,
        ),
{
    let next = pos + HEADER_LEN + header_of(bytes.skip(pos)).size;
    if let Ok(tags) = tags_from(bytes, next) {
        assert(Seq::<TagView>::empty() + tags =~= tags);
    }
}

} // verus!
