//! The HTTP/2 frame layer: stream identifiers, the 9-byte frame header, and
//! the PRIORITY frame with its stream-dependency payload.

use crate::wire::{be_u32, be_u32_value, be_uint, lemma_be_u32_round_trip, put_u32, put_u8, put_uint};
use vstd::prelude::*;

verus! {

/// Length of a frame header in bytes.
pub const HEADER_LEN: usize = 9;

/// The reserved high bit of a stream-id word.
pub const STREAM_ID_MASK: u32 = 0x8000_0000;

/// The 31 low bits of a stream-id word, which hold the id.
pub const STREAM_ID_BITS: u32 = 0x7fff_ffff;

/// Length of a PRIORITY payload in bytes.
pub const PRIORITY_PAYLOAD_LEN: usize = 5;

/// The id that a 32-bit word carries: the word without its reserved bit.
pub open spec fn word_id(w: u32) -> u32 {
    w & 0x7fff_ffff
}

/// Whether the reserved bit of a 32-bit word is set.
pub open spec fn word_flag(w: u32) -> bool {
    w & 0x8000_0000 == 0x8000_0000
}

/// Reads the big-endian word at `buf[at..at + 4]`.
fn read_u32(buf: &[u8], at: usize) -> (r: u32)
    requires
        at + 4 <= buf@.len(),
    ensures
        r == be_u32_value(buf@.subrange(at as int, at + 4)),
{
    let b0 = buf[at] as u32;
    let b1 = buf[at + 1] as u32;
    let b2 = buf[at + 2] as u32;
    let b3 = buf[at + 3] as u32;
    (b0 << 24u32) | (b1 << 16u32) | (b2 << 8u32) | b3
}

// ===== StreamId =====

/// A stream identifier: 31 bits, zero naming the connection itself. Ids
/// compare and order by their numeric value.
#[derive(Clone, Copy, Debug, PartialEq, Eq, PartialOrd, Ord, Hash, Structural)]
pub struct StreamId(u32);

impl StreamId {
    /// The numeric id.
    pub closed spec fn spec_value(self) -> u32 {
        self.0
    }

    /// The id fits in 31 bits.
    pub open spec fn wf(self) -> bool {
        self.spec_value() < 0x8000_0000
    }

    /// Splits a stream-id word into the id and its reserved bit.
    fn split_word(w: u32) -> (r: (StreamId, bool))
        ensures
            r.0.spec_value() == word_id(w),
            r.1 == word_flag(w),
            r.0.wf(),
    {
        assert(w & 0x7fff_ffff < 0x8000_0000) by (bit_vector);
        (StreamId(w & STREAM_ID_BITS), w & STREAM_ID_MASK == STREAM_ID_MASK)
    }

    /// Parses the first four bytes of `buf` as a big-endian word and returns
    /// the id in its low 31 bits and whether its reserved high bit is set.
    pub fn parse(buf: &[u8]) -> (r: (StreamId, bool))
        requires
            buf@.len() >= 4,
        ensures
            r.0.spec_value() == word_id(be_u32_value(buf@)),
            r.1 == word_flag(be_u32_value(buf@)),
            r.0.wf(),
    {
        let w = read_u32(buf, 0);
        assert(be_u32_value(buf@.subrange(0, 4)) == be_u32_value(buf@));
        StreamId::split_word(w)
    }

    /// The connection-level id.
    pub fn zero() -> (r: StreamId)
        ensures
            r.spec_value() == 0,
    {
        StreamId(0)
    }

    pub fn is_zero(&self) -> (r: bool)
        ensures
            r == (self.spec_value() == 0),
    {
        self.0 == 0
    }
}

/// Builds an id from its numeric value; the reserved high bit is dropped.
impl From<u32> for StreamId {
    fn from(src: u32) -> (r: StreamId) {
        StreamId(src & STREAM_ID_BITS)
    }
}

impl vstd::std_specs::convert::FromSpecImpl<u32> for StreamId {
    open spec fn obeys_from_spec() -> bool {
        true
    }

    closed spec fn from_spec(v: u32) -> StreamId {
        StreamId(v & 0x7fff_ffff)
    }
}

/// The numeric id, with the reserved bit clear.
impl From<StreamId> for u32 {
    fn from(src: StreamId) -> (r: u32) {
        src.0
    }
}

impl vstd::std_specs::convert::FromSpecImpl<StreamId> for u32 {
    open spec fn obeys_from_spec() -> bool {
        true
    }

    closed spec fn from_spec(v: StreamId) -> u32 {
        v.0
    }
}

/// `StreamId::from(v)` is the id in the low 31 bits of `v`.
pub broadcast proof fn lemma_stream_id_from(v: u32)
    ensures
        #![trigger <StreamId as vstd::std_specs::convert::FromSpec<u32>>::from_spec(v)]
        <StreamId as vstd::std_specs::convert::FromSpec<u32>>::from_spec(v).spec_value() == v
            & 0x7fff_ffff,
        <StreamId as vstd::std_specs::convert::FromSpec<u32>>::from_spec(v).wf(),
{
    assert(v & 0x7fff_ffff < 0x8000_0000) by (bit_vector);
}

/// `u32::from(id)` is the id's numeric value.
pub broadcast proof fn lemma_u32_from_stream_id(id: StreamId)
    ensures
        #[trigger] <u32 as vstd::std_specs::convert::FromSpec<StreamId>>::from_spec(id)
            == id.spec_value(),
{
}

/// Two ids are equal exactly when their numeric values are.
pub broadcast proof fn lemma_stream_id_eq(a: StreamId, b: StreamId)
    ensures
        (a == b) == (#[trigger] a.spec_value() == #[trigger] b.spec_value()),
{
}

// ===== Kind =====

/// The frame types of HTTP/2.
#[derive(Clone, Copy, Debug, PartialEq, Eq, Hash, Structural)]
pub enum Kind {
    Data,
    Headers,
    Priority,
    Reset,
    Settings,
    PushPromise,
    Ping,
    GoAway,
    WindowUpdate,
    Continuation,
    Unknown,
}

/// The type byte of a frame of kind `k`.
pub open spec fn kind_byte(k: Kind) -> u8 {
    match k {
        Kind::Data => 0,
        Kind::Headers => 1,
        Kind::Priority => 2,
        Kind::Reset => 3,
        Kind::Settings => 4,
        Kind::PushPromise => 5,
        Kind::Ping => 6,
        Kind::GoAway => 7,
        Kind::WindowUpdate => 8,
        Kind::Continuation => 9,
        Kind::Unknown => 10,
    }
}

/// The kind that a type byte names; bytes past the known types are `Unknown`.
pub open spec fn kind_of_byte(b: u8) -> Kind {
    if b == 0 {
        Kind::Data
    } else if b == 1 {
        Kind::Headers
    } else if b == 2 {
        Kind::Priority
    } else if b == 3 {
        Kind::Reset
    } else if b == 4 {
        Kind::Settings
    } else if b == 5 {
        Kind::PushPromise
    } else if b == 6 {
        Kind::Ping
    } else if b == 7 {
        Kind::GoAway
    } else if b == 8 {
        Kind::WindowUpdate
    } else if b == 9 {
        Kind::Continuation
    } else {
        Kind::Unknown
    }
}

impl Kind {
    pub fn new(byte: u8) -> (r: Kind)
        ensures
            r == kind_of_byte(byte),
    {
        match byte {
            0 => Kind::Data,
            1 => Kind::Headers,
            2 => Kind::Priority,
            3 => Kind::Reset,
            4 => Kind::Settings,
            5 => Kind::PushPromise,
            6 => Kind::Ping,
            7 => Kind::GoAway,
            8 => Kind::WindowUpdate,
            9 => Kind::Continuation,
            _ => Kind::Unknown,
        }
    }

    pub fn as_byte(&self) -> (r: u8)
        ensures
            r == kind_byte(*self),
    {
        match self {
            Kind::Data => 0,
            Kind::Headers => 1,
            Kind::Priority => 2,
            Kind::Reset => 3,
            Kind::Settings => 4,
            Kind::PushPromise => 5,
            Kind::Ping => 6,
            Kind::GoAway => 7,
            Kind::WindowUpdate => 8,
            Kind::Continuation => 9,
            Kind::Unknown => 10,
        }
    }
}

// ===== Head =====

/// The 9-byte header of every frame: payload length, type, flags and stream.
#[derive(Clone, Copy, Debug, PartialEq, Eq, Hash, Structural)]
pub struct Head {
    kind: Kind,
    flag: u8,
    stream_id: StreamId,
}

/// The header that `bytes[..9]` holds; the length field is not part of it.
pub closed spec fn spec_parse_head(bytes: Seq<u8>) -> Head {
    Head {
        kind: kind_of_byte(bytes[3]),
        flag: bytes[4],
        stream_id: StreamId(word_id(be_u32_value(bytes.subrange(5, 9)))),
    }
}

impl Head {
    pub closed spec fn spec_kind(self) -> Kind {
        self.kind
    }

    pub closed spec fn spec_flag(self) -> u8 {
        self.flag
    }

    pub closed spec fn spec_stream_id(self) -> StreamId {
        self.stream_id
    }

    /// The nine bytes of this header in front of a payload of `payload_len`
    /// bytes: the 24-bit length, the type, the flags and the stream-id word.
    pub open spec fn spec_bytes(self, payload_len: nat) -> Seq<u8> {
        be_uint(payload_len as u64, 3) + seq![kind_byte(self.spec_kind()), self.spec_flag()]
            + be_u32(self.spec_stream_id().spec_value())
    }

    pub fn new(kind: Kind, flag: u8, stream_id: StreamId) -> (r: Head)
        ensures
            r.spec_kind() == kind,
            r.spec_flag() == flag,
            r.spec_stream_id() == stream_id,
    {
        Head { kind, flag, stream_id }
    }

    /// Reads the type, flags and stream id of a frame header.
    pub fn parse(header: &[u8]) -> (r: Head)
        requires
            header@.len() >= HEADER_LEN,
        ensures
            r == spec_parse_head(header@),
            r.spec_kind() == kind_of_byte(header@[3]),
            r.spec_flag() == header@[4],
            r.spec_stream_id().spec_value() == word_id(be_u32_value(header@.subrange(5, 9))),
            r.spec_stream_id().wf(),
    {
        let word = read_u32(header, 5);
        let (stream_id, _) = StreamId::split_word(word);
        Head { kind: Kind::new(header[3]), flag: header[4], stream_id }
    }

    pub fn stream_id(&self) -> (r: StreamId)
        ensures
            r == self.spec_stream_id(),
    {
        self.stream_id
    }

    pub fn kind(&self) -> (r: Kind)
        ensures
            r == self.spec_kind(),
    {
        self.kind
    }

    pub fn flag(&self) -> (r: u8)
        ensures
            r == self.spec_flag(),
    {
        self.flag
    }

    /// Appends the header for a payload of `payload_len` bytes.
    pub fn encode(&self, payload_len: usize, dst: &mut Vec<u8>)
        requires
            payload_len < 0x100_0000,
            old(dst)@.len() + HEADER_LEN <= isize::MAX,
        ensures
            final(dst)@ == old(dst)@ + self.spec_bytes(payload_len as nat),
    {
        put_uint(dst, payload_len as u64, 3);
        put_u8(dst, self.kind.as_byte());
        put_u8(dst, self.flag);
        put_u32(dst, self.stream_id.0);
        assert(dst@ =~= old(dst)@ + self.spec_bytes(payload_len as nat));
    }
}

// ===== Error =====

/// Why a frame could not be decoded or built.
#[derive(Clone, Copy, Debug, PartialEq, Eq, Hash, Structural)]
pub enum Error {
    /// The payload does not have the length that the frame type demands.
    InvalidPayloadLength,
    /// A stream names itself as the stream it depends on.
    InvalidDependencyId,
    /// A stream id is missing or not allowed where it stands.
    InvalidStreamId,
}

// ===== StreamDependency =====

/// The priority payload: the stream depended on, whether the dependency is
/// exclusive, and the weight byte (the weight less one, so 0 stands for 1).
#[derive(Clone, Copy, Debug, PartialEq, Eq, Hash, Structural)]
pub struct StreamDependency {
    dependency_id: StreamId,
    weight: u8,
    is_exclusive: bool,
}

/// What reading `src` as a priority payload gives: exactly five bytes, a
/// stream-id word whose high bit is the exclusive flag, then the weight.
pub closed spec fn spec_load_dependency(src: Seq<u8>) -> Result<StreamDependency, Error> {
    if src.len() != 5 {
        Err(Error::InvalidPayloadLength)
    } else {
        let w = be_u32_value(src);
        Ok(
            StreamDependency {
                dependency_id: StreamId(word_id(w)),
                weight: src[4],
                is_exclusive: word_flag(w),
            },
        )
    }
}

impl StreamDependency {
    pub closed spec fn spec_dependency_id(self) -> StreamId {
        self.dependency_id
    }

    pub closed spec fn spec_weight(self) -> u8 {
        self.weight
    }

    pub closed spec fn spec_is_exclusive(self) -> bool {
        self.is_exclusive
    }

    /// The target id fits in 31 bits.
    pub open spec fn wf(self) -> bool {
        self.spec_dependency_id().wf()
    }

    /// The stream-id word on the wire: the target id, with the high bit set
    /// when the dependency is exclusive.
    pub open spec fn spec_word(self) -> u32 {
        if self.spec_is_exclusive() {
            self.spec_dependency_id().spec_value() | 0x8000_0000
        } else {
            self.spec_dependency_id().spec_value()
        }
    }

    /// The five bytes of the payload.
    pub open spec fn spec_bytes(self) -> Seq<u8> {
        be_u32(self.spec_word()).push(self.spec_weight())
    }

    pub fn new(dependency_id: StreamId, weight: u8, is_exclusive: bool) -> (r: StreamDependency)
        ensures
            r.spec_dependency_id() == dependency_id,
            r.spec_weight() == weight,
            r.spec_is_exclusive() == is_exclusive,
    {
        StreamDependency { dependency_id, weight, is_exclusive }
    }

    /// Reads a priority payload.
    pub fn load(src: &[u8]) -> (r: Result<StreamDependency, Error>)
        ensures
            r == spec_load_dependency(src@),
            (r is Err) == (src@.len() != PRIORITY_PAYLOAD_LEN),
            r is Err ==> r == Err::<StreamDependency, Error>(Error::InvalidPayloadLength),
            r is Ok ==> {
                &&& r->Ok_0.spec_dependency_id().spec_value() == word_id(be_u32_value(src@))
                &&& r->Ok_0.spec_weight() == src@[4]
                &&& r->Ok_0.spec_is_exclusive() == word_flag(be_u32_value(src@))
                &&& r->Ok_0.wf()
            },
    {
        if src.len() != PRIORITY_PAYLOAD_LEN {
            return Err(Error::InvalidPayloadLength);
        }
        let (dependency_id, is_exclusive) = StreamId::parse(src);
        let weight = src[4];
        Ok(StreamDependency::new(dependency_id, weight, is_exclusive))
    }

    pub fn dependency_id(&self) -> (r: StreamId)
        ensures
            r == self.spec_dependency_id(),
    {
        self.dependency_id
    }

    pub fn weight(&self) -> (r: u8)
        ensures
            r == self.spec_weight(),
    {
        self.weight
    }

    pub fn is_exclusive(&self) -> (r: bool)
        ensures
            r == self.spec_is_exclusive(),
    {
        self.is_exclusive
    }

    /// Appends the five payload bytes.
    pub fn encode(&self, dst: &mut Vec<u8>)
        requires
            old(dst)@.len() + PRIORITY_PAYLOAD_LEN <= isize::MAX,
        ensures
            final(dst)@ == old(dst)@ + self.spec_bytes(),
    {
        let mut word: u32 = self.dependency_id.0;
        if self.is_exclusive {
            word = word | STREAM_ID_MASK;
        }
        put_u32(dst, word);
        put_u8(dst, self.weight);
        assert(dst@ =~= old(dst)@ + self.spec_bytes());
    }
}

// ===== Priority =====

/// A PRIORITY frame: the stream it is about and that stream's dependency.
#[derive(Clone, Copy, Debug, PartialEq, Eq, Hash, Structural)]
pub struct Priority {
    stream_id: StreamId,
    dependency: StreamDependency,
}

/// What reading a PRIORITY payload on stream `stream_id` gives: the payload's
/// own error, or `InvalidDependencyId` where the stream depends on itself.
pub closed spec fn spec_load_priority(stream_id: StreamId, payload: Seq<u8>) -> Result<
    Priority,
    Error,
> {
    match spec_load_dependency(payload) {
        Err(e) => Err(e),
        Ok(dependency) => {
            if dependency.dependency_id == stream_id {
                Err(Error::InvalidDependencyId)
            } else {
                Ok(Priority { stream_id, dependency })
            }
        },
    }
}

impl Priority {
    pub closed spec fn spec_stream_id(self) -> StreamId {
        self.stream_id
    }

    pub closed spec fn spec_dependency(self) -> StreamDependency {
        self.dependency
    }

    /// Both ids fit in 31 bits.
    pub open spec fn wf(self) -> bool {
        self.spec_stream_id().wf() && self.spec_dependency().wf()
    }

    /// The header of this frame: type PRIORITY, no flags, its stream.
    pub closed spec fn spec_head(self) -> Head {
        Head { kind: Kind::Priority, flag: 0, stream_id: self.stream_id }
    }

    /// The fourteen bytes of the frame: header, then payload.
    pub open spec fn spec_bytes(self) -> Seq<u8> {
        be_uint(5, 3) + seq![kind_byte(Kind::Priority), 0u8] + be_u32(
            self.spec_stream_id().spec_value(),
        ) + self.spec_dependency().spec_bytes()
    }

    /// A frame to send on a stream other than the connection's own.
    pub fn new(stream_id: StreamId, dependency: StreamDependency) -> (r: Priority)
        requires
            stream_id.spec_value() != 0,
        ensures
            r.spec_stream_id() == stream_id,
            r.spec_dependency() == dependency,
    {
        Priority { stream_id, dependency }
    }

    /// Reads the payload of a PRIORITY frame whose header is `head`.
    pub fn load(head: Head, payload: &[u8]) -> (r: Result<Priority, Error>)
        ensures
            r == spec_load_priority(head.spec_stream_id(), payload@),
            payload@.len() != PRIORITY_PAYLOAD_LEN ==> r == Err::<Priority, Error>(
                Error::InvalidPayloadLength,
            ),
            payload@.len() == PRIORITY_PAYLOAD_LEN && word_id(be_u32_value(payload@))
                == head.spec_stream_id().spec_value() ==> r == Err::<Priority, Error>(
                Error::InvalidDependencyId,
            ),
            payload@.len() == PRIORITY_PAYLOAD_LEN && word_id(be_u32_value(payload@))
                != head.spec_stream_id().spec_value() ==> {
                &&& r is Ok
                &&& r->Ok_0.spec_stream_id() == head.spec_stream_id()
                &&& r->Ok_0.spec_dependency().spec_dependency_id().spec_value() == word_id(
                    be_u32_value(payload@),
                )
                &&& r->Ok_0.spec_dependency().spec_weight() == payload@[4]
                &&& r->Ok_0.spec_dependency().spec_is_exclusive() == word_flag(
                    be_u32_value(payload@),
                )
            },
            r is Ok ==> r->Ok_0.spec_dependency().spec_dependency_id()
                != r->Ok_0.spec_stream_id(),
    {
        let dependency = match StreamDependency::load(payload) {
            Ok(d) => d,
            Err(e) => return Err(e),
        };
        if dependency.dependency_id() == head.stream_id() {
            return Err(Error::InvalidDependencyId);
        }
        Ok(Priority { stream_id: head.stream_id(), dependency })
    }

    pub fn head(&self) -> (r: Head)
        ensures
            r == self.spec_head(),
            r.spec_kind() == Kind::Priority,
            r.spec_flag() == 0,
            r.spec_stream_id() == self.spec_stream_id(),
    {
        Head::new(Kind::Priority, 0, self.stream_id)
    }

    pub fn stream_id(&self) -> (r: StreamId)
        ensures
            r == self.spec_stream_id(),
    {
        self.stream_id
    }

    pub fn dependency(&self) -> (r: StreamDependency)
        ensures
            r == self.spec_dependency(),
    {
        self.dependency
    }

    /// Appends the whole frame, header first.
    pub fn encode(&self, dst: &mut Vec<u8>)
        requires
            old(dst)@.len() + HEADER_LEN + PRIORITY_PAYLOAD_LEN <= isize::MAX,
        ensures
            final(dst)@ == old(dst)@ + self.spec_bytes(),
    {
        let head = self.head();
        head.encode(PRIORITY_PAYLOAD_LEN, dst);
        self.dependency.encode(dst);
        assert(dst@ =~= old(dst)@ + self.spec_bytes());
    }
}

// ===== OptionPriority =====

/// A PRIORITY frame being built before its stream id is known.
#[derive(Clone, Copy, Debug, PartialEq, Eq, Hash, Structural)]
pub struct OptionPriority {
    stream_id: Option<StreamId>,
    dependency: StreamDependency,
}

impl OptionPriority {
    pub closed spec fn spec_stream_id(self) -> Option<StreamId> {
        self.stream_id
    }

    pub closed spec fn spec_dependency(self) -> StreamDependency {
        self.dependency
    }

    /// A frame with no stream id yet.
    pub fn new(dependency: StreamDependency) -> (r: OptionPriority)
        ensures
            r.spec_stream_id() is None,
            r.spec_dependency() == dependency,
    {
        OptionPriority { stream_id: None, dependency }
    }

    /// Binds the stream id; a later call replaces an earlier one.
    pub fn set_stream_id(&mut self, stream_id: StreamId)
        ensures
            final(self).spec_stream_id() == Some(stream_id),
            final(self).spec_dependency() == old(self).spec_dependency(),
    {
        self.stream_id = Some(stream_id);
    }

    /// Whether a stream id has been bound.
    pub fn is_custom_stream_id(&self) -> (r: bool)
        ensures
            r == self.spec_stream_id() is Some,
    {
        self.stream_id.is_some()
    }

    pub fn dependency(&self) -> (r: StreamDependency)
        ensures
            r == self.spec_dependency(),
    {
        self.dependency
    }
}

/// Finishes the frame; fails with `InvalidStreamId` while no stream id is bound.
impl TryFrom<OptionPriority> for Priority {
    type Error = Error;

    fn try_from(src: OptionPriority) -> (r: Result<Priority, Error>) {
        match src.stream_id {
            Some(stream_id) => Ok(Priority { stream_id, dependency: src.dependency }),
            None => Err(Error::InvalidStreamId),
        }
    }
}

impl vstd::std_specs::convert::TryFromSpecImpl<OptionPriority> for Priority {
    open spec fn obeys_try_from_spec() -> bool {
        true
    }

    closed spec fn try_from_spec(v: OptionPriority) -> Result<Priority, Error> {
        match v.stream_id {
            Some(stream_id) => Ok(Priority { stream_id, dependency: v.dependency }),
            None => Err(Error::InvalidStreamId),
        }
    }
}

/// The outcome of finishing a frame: `InvalidStreamId` while no stream id is
/// bound, else the frame on the bound stream with the same dependency.
pub broadcast proof fn lemma_priority_try_from(v: OptionPriority)
    ensures
        #![trigger <Priority as vstd::std_specs::convert::TryFromSpec<OptionPriority>>::try_from_spec(v)]
        v.spec_stream_id() is None ==> <Priority as vstd::std_specs::convert::TryFromSpec<
            OptionPriority,
        >>::try_from_spec(v) == Err::<Priority, Error>(Error::InvalidStreamId),
        v.spec_stream_id() is Some ==> {
            let r = <Priority as vstd::std_specs::convert::TryFromSpec<
                OptionPriority,
            >>::try_from_spec(v);
            &&& r is Ok
            &&& r->Ok_0.spec_stream_id() == v.spec_stream_id()->Some_0
            &&& r->Ok_0.spec_dependency() == v.spec_dependency()
        },
{
}

/// Two dependencies are equal exactly when their target, weight and flag are.
pub broadcast proof fn lemma_dependency_eq(a: StreamDependency, b: StreamDependency)
    ensures
        #![trigger a.spec_dependency_id(), b.spec_dependency_id()]
        (a == b) == (a.spec_dependency_id() == b.spec_dependency_id() && a.spec_weight()
            == b.spec_weight() && a.spec_is_exclusive() == b.spec_is_exclusive()),
{
}

/// Two frames are equal exactly when their stream and dependency are.
pub broadcast proof fn lemma_priority_eq(a: Priority, b: Priority)
    ensures
        #![trigger a.spec_stream_id(), b.spec_stream_id()]
        (a == b) == (a.spec_stream_id() == b.spec_stream_id() && a.spec_dependency()
            == b.spec_dependency()),
{
}

// ===== Laws of the codec =====

/// The id and the exclusive flag come back out of the word that carries them.
proof fn lemma_word_parts(id: u32, excl: bool)
    requires
        id < 0x8000_0000,
    ensures
        word_id(if excl { id | 0x8000_0000 } else { id }) == id,
        word_flag(if excl { id | 0x8000_0000 } else { id }) == excl,
{
    assert(id < 0x8000_0000 ==> (id | 0x8000_0000) & 0x7fff_ffff == id && (id | 0x8000_0000)
        & 0x8000_0000 == 0x8000_0000 && id & 0x7fff_ffff == id && id & 0x8000_0000 != 0x8000_0000)
        by (bit_vector);
}

/// Reading back the five bytes that a stream dependency encodes to gives the
/// same dependency, for every target id, weight and exclusive flag.
pub proof fn lemma_dependency_round_trip(d: StreamDependency)
    requires
        d.wf(),
    ensures
        d.spec_bytes().len() == PRIORITY_PAYLOAD_LEN,
        spec_load_dependency(d.spec_bytes()) == Ok::<StreamDependency, Error>(d),
{
    let w = d.spec_word();
    let b = d.spec_bytes();
    lemma_be_u32_round_trip(w);
    assert(b.subrange(0, 4) =~= be_u32(w));
    lemma_word_parts(d.dependency_id.0, d.is_exclusive);
}

/// A PRIORITY frame on a stream other than zero, whose dependency names another
/// stream, comes back whole: the header read from the first nine bytes names
/// its stream, and the payload after it, read on that stream, gives the frame.
pub proof fn lemma_priority_round_trip(p: Priority)
    requires
        p.wf(),
        p.spec_stream_id().spec_value() != 0,
        p.spec_stream_id() != p.spec_dependency().spec_dependency_id(),
    ensures
        p.spec_bytes().len() == HEADER_LEN + PRIORITY_PAYLOAD_LEN,
        spec_parse_head(p.spec_bytes()) == p.spec_head(),
        spec_load_priority(
            spec_parse_head(p.spec_bytes()).spec_stream_id(),
            p.spec_bytes().subrange(HEADER_LEN as int, p.spec_bytes().len() as int),
        ) == Ok::<Priority, Error>(p),
{
    let b = p.spec_bytes();
    let id = p.stream_id.0;
    lemma_be_u32_round_trip(id);
    assert(b.subrange(5, 9) =~= be_u32(id));
    lemma_word_parts(id, false);
    assert(spec_parse_head(b) == p.spec_head());
    lemma_dependency_round_trip(p.dependency);
    assert(b.subrange(9, 14) =~= p.dependency.spec_bytes());
}

/// A PRIORITY payload whose dependency id is the frame's own stream id is
/// refused with `InvalidDependencyId`, whatever that id is.
pub proof fn lemma_self_dependency_rejected(stream_id: StreamId, payload: Seq<u8>)
    requires
        payload.len() == PRIORITY_PAYLOAD_LEN,
        word_id(be_u32_value(payload)) == stream_id.spec_value(),
    ensures
        spec_load_priority(stream_id, payload) == Err::<Priority, Error>(
            Error::InvalidDependencyId,
        ),
{
}

/// A payload of any length but five is refused with `InvalidPayloadLength`,
/// both as a stream dependency and as a PRIORITY frame on any stream.
pub proof fn lemma_length_rejected(stream_id: StreamId, src: Seq<u8>)
    requires
        src.len() != PRIORITY_PAYLOAD_LEN,
    ensures
        spec_load_dependency(src) == Err::<StreamDependency, Error>(Error::InvalidPayloadLength),
        spec_load_priority(stream_id, src) == Err::<Priority, Error>(Error::InvalidPayloadLength),
{
}

} // verus!
