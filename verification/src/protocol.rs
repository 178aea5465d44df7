//! The wire-protocol data model: packet envelope, payload variants, bounded
//! name/info buffers, and the truncation rule for text fields.
use vstd::prelude::*;
use vstd::string::StringSliceAdditionalSpecFns;
use vstd::utf8::{is_char_boundary, valid_utf8, valid_utf8_split, is_char_boundary_start_end_of_seq};

verus! {

/// Capacity in bytes of any single name or info payload.
pub const MAX_INFO_SIZE: usize = 256;

/// Upper bound in bytes for one encoded and framed message.
pub const MAX_PACKET_SIZE: usize = 2048;

/// Capacity in packets of the bounded queue between producers and the worker.
pub const MPSC_CHANNEL_BOUND: usize = 512;

/// Capacity in bytes of the batching buffer in front of the collector socket.
pub const BUFWRITER_SIZE: usize = 512 * MAX_PACKET_SIZE;

/// The worker forces a flush of the batching buffer once this many
/// milliseconds have passed since the last flush.
pub const FLUSH_INTERVAL_MS: u64 = 500;

/// The largest prefix length of `bytes` that is at most `cap` and falls on a
/// character boundary. For input that fits, the whole length.
pub open spec fn spec_boundary_at_or_before(bytes: Seq<u8>, i: int) -> int
    decreases i,
{
    if i <= 0 {
        0
    } else if is_char_boundary(bytes, i) {
        i
    } else {
        spec_boundary_at_or_before(bytes, i - 1)
    }
}

/// The number of bytes the truncation rule retains from `bytes` under
/// capacity `cap`: everything if it fits, otherwise the largest prefix at or
/// before `cap` that ends on a character boundary.
pub open spec fn spec_truncate_len(bytes: Seq<u8>, cap: int) -> int {
    if bytes.len() <= cap {
        bytes.len() as int
    } else {
        spec_boundary_at_or_before(bytes, cap)
    }
}

proof fn lemma_boundary_at_or_before(bytes: Seq<u8>, i: int)
    requires
        0 <= i,
        valid_utf8(bytes),
    ensures
        0 <= spec_boundary_at_or_before(bytes, i) <= i,
        is_char_boundary(bytes, spec_boundary_at_or_before(bytes, i)),
        forall|j: int|
            spec_boundary_at_or_before(bytes, i) < j <= i ==> !is_char_boundary(bytes, j),
    decreases i,
{
    if i > 0 && !is_char_boundary(bytes, i) {
        lemma_boundary_at_or_before(bytes, i - 1);
    }
}

/// Cuts `name` into `buf` under the truncation rule: at most `MAX_INFO_SIZE`
/// bytes are kept, the retained bytes are a byte-for-byte prefix of `name`,
/// the cut falls on a character boundary, and the retained prefix is itself
/// valid text. Returns the number of retained bytes.
pub fn truncate(name: &str, buf: &mut [u8; MAX_INFO_SIZE]) -> (len: usize)
    ensures
        len == spec_truncate_len(name.spec_bytes(), MAX_INFO_SIZE as int),
        len <= MAX_INFO_SIZE,
        len <= name.spec_bytes().len(),
        final(buf)@.take(len as int) == name.spec_bytes().take(len as int),
        forall|i: int| len <= i < MAX_INFO_SIZE ==> final(buf)@[i] == old(buf)@[i],
        valid_utf8(final(buf)@.take(len as int)),
        name.spec_bytes().len() <= MAX_INFO_SIZE ==> len == name.spec_bytes().len(),
{
    proof {
        broadcast use vstd::utf8::encode_utf8_valid_utf8;

        assert(valid_utf8(name.spec_bytes()));
    }
    let bytes = name.as_bytes();
    let n = bytes.len();
    let mut len: usize = if n <= MAX_INFO_SIZE {
        n
    } else {
        let mut l: usize = MAX_INFO_SIZE;
        while l > 0 && !name.is_char_boundary(l)
            invariant
                l <= MAX_INFO_SIZE < name.spec_bytes().len(),
                forall|j: int| l < j <= MAX_INFO_SIZE ==> !is_char_boundary(name.spec_bytes(), j),
            decreases l,
        {
            l = l - 1;
        }
        proof {
            if l == 0 {
                assert(is_char_boundary(name.spec_bytes(), 0));
            }
            lemma_boundary_at_or_before(name.spec_bytes(), MAX_INFO_SIZE as int);
            let b = spec_boundary_at_or_before(name.spec_bytes(), MAX_INFO_SIZE as int);
            assert(l as int == b) by {
                if l < b {
                    assert(!is_char_boundary(name.spec_bytes(), b));
                } else if b < l {
                    assert(!is_char_boundary(name.spec_bytes(), l as int));
                }
            }
        }
        l
    };
    let mut i: usize = 0;
    while i < len
        invariant
            i <= len <= name.spec_bytes().len(),
            len <= MAX_INFO_SIZE,
            bytes@ == name.spec_bytes(),
            buf@.take(i as int) == name.spec_bytes().take(i as int),
            forall|j: int| i <= j < MAX_INFO_SIZE ==> buf@[j] == old(buf)@[j],
        decreases len - i,
    {
        buf[i] = bytes[i];
        proof {
            assert(buf@.take(i as int + 1) =~= name.spec_bytes().take(i as int + 1));
        }
        i = i + 1;
    }
    proof {
        broadcast use is_char_boundary_start_end_of_seq;

        assert(is_char_boundary(name.spec_bytes(), len as int));
        valid_utf8_split(name.spec_bytes(), len as int);
        assert(buf@.take(len as int) =~= name.spec_bytes().subrange(0, len as int));
    }
    len
}

/// A bounded structured field set attached to a span or event, rendered into
/// a fixed-capacity byte buffer.
pub struct EventInfo {
    buf: [u8; MAX_INFO_SIZE],
    len: usize,
}

impl EventInfo {
    /// The meaningful bytes this field set holds.
    pub closed spec fn view(&self) -> Seq<u8> {
        self.buf@.take(self.len as int)
    }

    /// The buffer never holds more than its fixed capacity.
    pub closed spec fn wf(&self) -> bool {
        self.len <= MAX_INFO_SIZE
    }

    /// An empty field set.
    pub fn new() -> (r: Self)
        ensures
            r.wf(),
            r@ == Seq::<u8>::empty(),
    {
        let r = EventInfo { buf: [0u8; MAX_INFO_SIZE], len: 0 };
        proof {
            assert(r@ =~= Seq::<u8>::empty());
        }
        r
    }

    /// A field set holding the rendered fields in `text`, cut under the
    /// truncation rule.
    pub fn from_text(text: &str) -> (r: Self)
        ensures
            r.wf(),
            r@ == text.spec_bytes().take(spec_truncate_len(text.spec_bytes(), MAX_INFO_SIZE as int)),
            valid_utf8(r@),
    {
        let mut buf = [0u8; MAX_INFO_SIZE];
        let len = truncate(text, &mut buf);
        let r = EventInfo { buf, len };
        proof {
            assert(r@ =~= text.spec_bytes().take(len as int));
        }
        r
    }

    /// The number of meaningful bytes.
    pub fn len(&self) -> (r: usize)
        requires
            self.wf(),
        ensures
            r == self@.len(),
    {
        self.len
    }

    /// The meaningful byte at position `i`.
    pub fn byte_at(&self, i: usize) -> (r: u8)
        requires
            self.wf(),
            i < self@.len(),
        ensures
            r == self@[i as int],
    {
        self.buf[i]
    }
}

/// A well-formed field set holds at most `MAX_INFO_SIZE` meaningful bytes.
pub broadcast proof fn lemma_event_info_len(i: EventInfo)
    requires
        i.wf(),
    ensures
        (#[trigger] i@).len() <= MAX_INFO_SIZE,
{
}

/// The closed set of payload variants carried by a packet.
pub enum TraceData {
    /// Creation of a span: its allocated id, truncated name and field set.
    NewSpan { id: u64, name: [u8; MAX_INFO_SIZE], name_len: usize, info: EventInfo },
    /// Values recorded against an existing span.
    Record { span: u64 },
    /// A point-in-time occurrence, attributed to the entered span if any.
    Event { parent_span: Option<u64>, name: [u8; MAX_INFO_SIZE], name_len: usize, info: EventInfo },
    /// A thread entered the span.
    Enter { span: u64 },
    /// A thread exited the span.
    Exit { span: u64 },
}

impl TraceData {
    /// Span ids are strictly positive and name lengths never exceed capacity.
    pub open spec fn wf(&self) -> bool {
        match *self {
            TraceData::NewSpan { id, name, name_len, info } =>
                id != 0 && name_len <= MAX_INFO_SIZE && info.wf(),
            TraceData::Record { span } => span != 0,
            TraceData::Event { parent_span, name, name_len, info } =>
                (parent_span is Some ==> parent_span->0 != 0) && name_len <= MAX_INFO_SIZE
                    && info.wf(),
            TraceData::Enter { span } => span != 0,
            TraceData::Exit { span } => span != 0,
        }
    }
}

/// The envelope around one payload: the capture timestamp in microseconds and
/// whether the capture carried process context (span creation, records and
/// events) or was the lightweight kind used for enter and exit.
pub struct TracePacket {
    pub timestamp: u64,
    pub with_process: bool,
    pub data: TraceData,
}

impl TracePacket {
    pub open spec fn wf(&self) -> bool {
        self.data.wf()
    }

    /// Envelope for a capture with process context, stamped `now_us`.
    pub fn now_with_data(now_us: u64, data: TraceData) -> (r: Self)
        ensures
            r == (TracePacket { timestamp: now_us, with_process: true, data }),
    {
        TracePacket { timestamp: now_us, with_process: true, data }
    }

    /// Envelope for a lightweight capture without process context.
    pub fn now_without_process(now_us: u64, data: TraceData) -> (r: Self)
        ensures
            r == (TracePacket { timestamp: now_us, with_process: false, data }),
    {
        TracePacket { timestamp: now_us, with_process: false, data }
    }
}

} // verus!
