//! The trace-event transport pipeline as one verified state machine: the
//! instrumentation facade with its severity filter and one-way disable
//! latch, the span-identity allocator, the bounded queue, and the transport
//! worker with its batching buffer, flush timer and fail-safe degrade.
//!
//! The connect, receive and socket-write effects themselves happen outside;
//! their outcomes enter here as plain arguments (`ok`, `io_ok`, timestamps),
//! and every decision taken on them is verified.
use vstd::prelude::*;
use vstd::seq_lib::lemma_flatten_concat;
use vstd::string::StringSliceAdditionalSpecFns;
use crate::level::{Level, LevelFilter, level_enabled, spec_level_enabled};
use crate::protocol::{
    EventInfo, TraceData, TracePacket, spec_truncate_len, truncate, MAX_INFO_SIZE,
    MAX_PACKET_SIZE, MPSC_CHANNEL_BOUND, BUFWRITER_SIZE, FLUSH_INTERVAL_MS,
};
use crate::span_id::SpanIdAllocator;
use crate::wire::{encode_packet, lemma_encode_packet_len, spec_encode_packet};
use crate::cobs::{cobs_frame, spec_cobs_frame};

verus! {

/// The bytes one packet occupies on the stream: its compact encoding,
/// stuffed and delimited.
pub open spec fn spec_framed(p: TracePacket) -> Seq<u8> {
    spec_cobs_frame(spec_encode_packet(p))
}

/// The stream bytes of a run of packets, in order.
pub open spec fn spec_framed_all(ps: Seq<TracePacket>) -> Seq<u8> {
    ps.map_values(|p: TracePacket| spec_framed(p)).flatten()
}

/// The view of a fixed-capacity name buffer after the truncation rule ran on
/// `bytes` over a zeroed buffer.
pub open spec fn spec_name_array(bytes: Seq<u8>) -> Seq<u8> {
    let l = spec_truncate_len(bytes, MAX_INFO_SIZE as int);
    bytes.take(l) + Seq::new((MAX_INFO_SIZE - l) as nat, |i: int| 0u8)
}

proof fn lemma_framed_all_push(ps: Seq<TracePacket>, p: TracePacket)
    ensures
        spec_framed_all(ps.push(p)) == spec_framed_all(ps) + spec_framed(p),
{
    let f = |q: TracePacket| spec_framed(q);
    assert(ps.push(p).map_values(f) =~= ps.map_values(f).push(spec_framed(p)));
    ps.map_values(f).lemma_flatten_push(spec_framed(p));
}

proof fn lemma_framed_all_concat(a: Seq<TracePacket>, b: Seq<TracePacket>)
    ensures
        spec_framed_all(a + b) == spec_framed_all(a) + spec_framed_all(b),
{
    let f = |q: TracePacket| spec_framed(q);
    assert((a + b).map_values(f) =~= a.map_values(f) + b.map_values(f));
    lemma_flatten_concat(a.map_values(f), b.map_values(f));
}

/// The transport worker's lifecycle: it connects once, then streams, and on
/// any transport failure degrades for good.
#[derive(Clone, Copy, PartialEq, Eq, Structural, Debug)]
pub enum WorkerState {
    Connecting,
    Streaming,
    Disabled,
}

/// The whole pipeline: configured maximum severity, one-way `enabled` latch,
/// id allocator, bounded queue, and the worker-owned batching buffer, flush
/// timer and delivered-byte stream.
pub struct Pipeline {
    max_level: LevelFilter,
    enabled: bool,
    ids: SpanIdAllocator,
    queue: Vec<TracePacket>,
    state: WorkerState,
    batch: Vec<u8>,
    last_flush: u64,
    sink: Vec<u8>,
    shipped: Ghost<Seq<TracePacket>>,
    sent: Ghost<Seq<TracePacket>>,
}

impl Pipeline {
    /// The configured maximum severity.
    pub closed spec fn spec_max_level(&self) -> LevelFilter {
        self.max_level
    }

    /// The one-way disable latch: true until the first transport failure.
    pub closed spec fn spec_enabled(&self) -> bool {
        self.enabled
    }

    /// The id the next `new_span` will return.
    pub closed spec fn spec_next_id(&self) -> u64 {
        self.ids.spec_next()
    }

    /// The packets waiting in the bounded queue, oldest first.
    pub closed spec fn spec_queue(&self) -> Seq<TracePacket> {
        self.queue@
    }

    /// The worker's lifecycle state.
    pub closed spec fn spec_state(&self) -> WorkerState {
        self.state
    }

    /// The bytes framed but still held in the batching buffer.
    pub closed spec fn spec_batch(&self) -> Seq<u8> {
        self.batch@
    }

    /// The time of the last forced flush, in milliseconds.
    pub closed spec fn spec_last_flush(&self) -> u64 {
        self.last_flush
    }

    /// The bytes delivered to the collector socket so far.
    pub closed spec fn spec_sink(&self) -> Seq<u8> {
        self.sink@
    }

    /// Every packet ever accepted to the queue, in acceptance order.
    pub closed spec fn spec_sent(&self) -> Seq<TracePacket> {
        self.sent@
    }

    /// The pipeline invariant: the queue and batching buffer respect their
    /// fixed capacities, queued packets are well-formed, and — until the
    /// worker degrades — the delivered bytes followed by the buffered bytes
    /// are exactly the framed encodings of the packets the worker has taken,
    /// while the accepted packets are those taken followed by those queued.
    pub closed spec fn wf(&self) -> bool {
        &&& self.ids.wf()
        &&& self.queue@.len() <= MPSC_CHANNEL_BOUND
        &&& self.batch@.len() <= BUFWRITER_SIZE
        &&& forall|i: int| 0 <= i < self.queue@.len() ==> (#[trigger] self.queue@[i]).wf()
        &&& self.sent@ == self.shipped@ + self.queue@
        &&& !(self.state is Disabled) ==> self.sink@ + self.batch@ == spec_framed_all(
            self.shipped@,
        )
        &&& self.state is Connecting ==> self.shipped@.len() == 0 && self.batch@.len() == 0
            && self.sink@.len() == 0
    }

    /// A fresh pipeline: latch set, allocator at 1, everything empty, worker
    /// about to connect.
    pub fn new(max_level: LevelFilter) -> (r: Self)
        ensures
            r.wf(),
            r.spec_max_level() == max_level,
            r.spec_enabled(),
            r.spec_next_id() == 1,
            r.spec_state() is Connecting,
            r.spec_queue().len() == 0,
            r.spec_sent().len() == 0,
            r.spec_batch().len() == 0,
            r.spec_sink().len() == 0,
    {
        let r = Pipeline {
            max_level,
            enabled: true,
            ids: SpanIdAllocator::new(),
            queue: Vec::new(),
            state: WorkerState::Connecting,
            batch: Vec::new(),
            last_flush: 0,
            sink: Vec::new(),
            shipped: Ghost(Seq::empty()),
            sent: Ghost(Seq::empty()),
        };
        proof {
            assert(r.sent@ =~= r.shipped@ + r.queue@);
            assert(r.shipped@.map_values(|p: TracePacket| spec_framed(p)) =~= Seq::<
                Seq<u8>,
            >::empty());
            assert(Seq::<Seq<u8>>::empty().flatten() =~= Seq::<u8>::empty());
            assert(r.sink@ + r.batch@ =~= spec_framed_all(r.shipped@));
        }
        r
    }

    /// The worker's one connection attempt. Success starts streaming and the
    /// flush timer; failure degrades the pipeline for good without touching
    /// the instrumented process.
    pub fn on_connect(&mut self, ok: bool, now_ms: u64)
        requires
            old(self).wf(),
            old(self).spec_state() is Connecting,
        ensures
            final(self).wf(),
            ok ==> final(self).spec_state() is Streaming && final(self).spec_enabled() == old(self).spec_enabled() && final(self).spec_last_flush() == now_ms,
            !ok ==> final(self).spec_state() is Disabled && !final(self).spec_enabled(),
            final(self).spec_max_level() == old(self).spec_max_level(),
            final(self).spec_next_id() == old(self).spec_next_id(),
            final(self).spec_queue() == old(self).spec_queue(),
            final(self).spec_sent() == old(self).spec_sent(),
            final(self).spec_batch() == old(self).spec_batch(),
            final(self).spec_sink() == old(self).spec_sink(),
    {
        if ok {
            self.state = WorkerState::Streaming;
            self.last_flush = now_ms;
        } else {
            self.state = WorkerState::Disabled;
            self.enabled = false;
        }
    }

    /// True iff a span or event at `level` is at or below the configured
    /// maximum severity; the surrounding instrumentation layer uses this to
    /// skip filtered calls entirely.
    pub fn enabled(&self, level: Level) -> (r: bool)
        ensures
            r == spec_level_enabled(level, self.spec_max_level()),
    {
        level_enabled(level, self.max_level)
    }

    /// The configured maximum severity, as a hint to the caller.
    pub fn max_level_hint(&self) -> (r: Option<LevelFilter>)
        ensures
            r == Some(self.spec_max_level()),
    {
        Some(self.max_level)
    }

    /// Hands one packet to the transport side: a no-op once the latch is
    /// down; flips the latch when the worker side is gone; otherwise accepts
    /// the packet to the bounded queue, blocking (modelled by the free-slot
    /// precondition) rather than dropping when the queue is full.
    fn send(&mut self, packet: TracePacket)
        requires
            old(self).wf(),
            packet.wf(),
            old(self).spec_enabled() && !(old(self).spec_state() is Disabled) ==> old(self).spec_queue().len() < MPSC_CHANNEL_BOUND,
        ensures
            final(self).wf(),
            old(self).spec_enabled() && !(old(self).spec_state() is Disabled) ==> final(self).spec_queue() == old(self).spec_queue().push(packet) && final(self).spec_sent()
                == old(self).spec_sent().push(packet) && final(self).spec_enabled(),
            !old(self).spec_enabled() ==> *final(self) == *old(self),
            old(self).spec_enabled() && old(self).spec_state() is Disabled ==> !final(self).spec_enabled() && final(self).spec_queue() == old(self).spec_queue() && final(self).spec_sent() == old(self).spec_sent(),
            final(self).spec_enabled() ==> old(self).spec_enabled(),
            final(self).spec_sink() == old(self).spec_sink(),
            final(self).spec_batch() == old(self).spec_batch(),
            final(self).spec_state() == old(self).spec_state(),
            final(self).spec_max_level() == old(self).spec_max_level(),
            final(self).spec_next_id() == old(self).spec_next_id(),
            final(self).spec_last_flush() == old(self).spec_last_flush(),
    {
        if !self.enabled {
            return ;
        }
        match self.state {
            WorkerState::Disabled => {
                // the channel's receiving side is gone: degrade, drop the call
                self.enabled = false;
            },
            _ => {
                self.queue.push(packet);
                proof {
                    self.sent@ = self.sent@.push(packet);
                    assert(self.sent@ =~= self.shipped@ + self.queue@);
                }
            },
        }
    }

    /// Allocates the span id, builds the `NewSpan` packet with the truncated
    /// name, and attempts to enqueue it. The caller always receives the
    /// freshly allocated id, whatever became of the telemetry.
    pub fn new_span(&mut self, level: Level, name: &str, info: EventInfo, now_us: u64) -> (id:
        u64)
        requires
            old(self).wf(),
            info.wf(),
            old(self).spec_next_id() < u64::MAX,
            spec_level_enabled(level, old(self).spec_max_level()) && old(self).spec_enabled()
                && !(old(self).spec_state() is Disabled) ==> old(self).spec_queue().len()
                < MPSC_CHANNEL_BOUND,
        ensures
            final(self).wf(),
            id == old(self).spec_next_id() && id != 0 && final(self).spec_next_id() == id + 1,
            ({
                let taken = spec_level_enabled(level, old(self).spec_max_level()) && old(self).spec_enabled() && !(old(self).spec_state() is Disabled);
                &&& taken ==> final(self).spec_sent().len() == old(self).spec_sent().len() + 1
                    && final(self).spec_sent().drop_last() == old(self).spec_sent() && ({
                    let p = final(self).spec_sent().last();
                    &&& p.timestamp == now_us
                    &&& p.with_process == true
                    &&& p.data matches TraceData::NewSpan {
                        id: pid,
                        name: pname,
                        name_len: plen,
                        info: pinfo,
                    } && pid == id && pname@ == spec_name_array(name.spec_bytes()) && plen
                        == spec_truncate_len(name.spec_bytes(), MAX_INFO_SIZE as int) && pinfo
                        == info
                })
                &&& taken ==> final(self).spec_queue() == old(self).spec_queue().push(
                    final(self).spec_sent().last(),
                )
                &&& !taken ==> final(self).spec_sent() == old(self).spec_sent() && final(self).spec_queue() == old(self).spec_queue()
                &&& taken ==> final(self).spec_enabled()
                &&& spec_level_enabled(level, old(self).spec_max_level()) && old(self).spec_enabled() && old(self).spec_state() is Disabled ==> !final(self).spec_enabled()
                &&& !spec_level_enabled(level, old(self).spec_max_level()) ==> final(self).spec_enabled() == old(self).spec_enabled()
            }),
            final(self).spec_enabled() ==> old(self).spec_enabled(),
            !old(self).spec_enabled() ==> !final(self).spec_enabled(),
            final(self).spec_sink() == old(self).spec_sink(),
            final(self).spec_batch() == old(self).spec_batch(),
            final(self).spec_state() == old(self).spec_state(),
            final(self).spec_max_level() == old(self).spec_max_level(),
            final(self).spec_last_flush() == old(self).spec_last_flush(),
    {
        let id = self.ids.allocate();
        if !level_enabled(level, self.max_level) {
            return id;
        }
        let mut name_buf = [0u8; MAX_INFO_SIZE];
        let name_len = truncate(name, &mut name_buf);
        proof {
            broadcast use vstd::array::group_array_axioms;

            assert(name_buf@ =~= spec_name_array(name.spec_bytes()));
        }
        let data = TraceData::NewSpan { id, name: name_buf, name_len, info };
        let packet = TracePacket::now_with_data(now_us, data);
        self.send(packet);
        id
    }

    /// Builds and attempts to enqueue a `Record` packet for an existing span.
    pub fn record(&mut self, span: u64, now_us: u64)
        requires
            old(self).wf(),
            span != 0,
            old(self).spec_enabled() && !(old(self).spec_state() is Disabled) ==> old(self).spec_queue().len() < MPSC_CHANNEL_BOUND,
        ensures
            final(self).wf(),
            ({
                let taken = old(self).spec_enabled() && !(old(self).spec_state() is Disabled);
                &&& taken ==> final(self).spec_sent() == old(self).spec_sent().push(
                    TracePacket {
                        timestamp: now_us,
                        with_process: true,
                        data: TraceData::Record { span },
                    },
                )
                &&& taken ==> final(self).spec_queue() == old(self).spec_queue().push(
                    final(self).spec_sent().last(),
                )
                &&& !taken ==> final(self).spec_sent() == old(self).spec_sent() && final(self).spec_queue() == old(self).spec_queue()
                &&& taken ==> final(self).spec_enabled()
                &&& old(self).spec_enabled() && old(self).spec_state() is Disabled ==> !final(self).spec_enabled()
            }),
            final(self).spec_enabled() ==> old(self).spec_enabled(),
            !old(self).spec_enabled() ==> !final(self).spec_enabled(),
            final(self).spec_sink() == old(self).spec_sink(),
            final(self).spec_batch() == old(self).spec_batch(),
            final(self).spec_state() == old(self).spec_state(),
            final(self).spec_max_level() == old(self).spec_max_level(),
            final(self).spec_next_id() == old(self).spec_next_id(),
            final(self).spec_last_flush() == old(self).spec_last_flush(),
    {
        let packet = TracePacket::now_with_data(now_us, TraceData::Record { span });
        self.send(packet);
    }

    /// Builds and attempts to enqueue an `Event` packet, attributed to the
    /// calling thread's currently entered span if any.
    pub fn event(
        &mut self,
        level: Level,
        parent_span: Option<u64>,
        name: &str,
        info: EventInfo,
        now_us: u64,
    )
        requires
            old(self).wf(),
            info.wf(),
            parent_span is Some ==> parent_span->0 != 0,
            spec_level_enabled(level, old(self).spec_max_level()) && old(self).spec_enabled()
                && !(old(self).spec_state() is Disabled) ==> old(self).spec_queue().len()
                < MPSC_CHANNEL_BOUND,
        ensures
            final(self).wf(),
            ({
                let taken = spec_level_enabled(level, old(self).spec_max_level()) && old(self).spec_enabled() && !(old(self).spec_state() is Disabled);
                &&& taken ==> final(self).spec_sent().len() == old(self).spec_sent().len() + 1
                    && final(self).spec_sent().drop_last() == old(self).spec_sent() && ({
                    let p = final(self).spec_sent().last();
                    &&& p.timestamp == now_us
                    &&& p.with_process == true
                    &&& p.data matches TraceData::Event {
                        parent_span: pparent,
                        name: pname,
                        name_len: plen,
                        info: pinfo,
                    } && pparent == parent_span && pname@ == spec_name_array(name.spec_bytes())
                        && plen == spec_truncate_len(name.spec_bytes(), MAX_INFO_SIZE as int)
                        && pinfo == info
                })
                &&& taken ==> final(self).spec_queue() == old(self).spec_queue().push(
                    final(self).spec_sent().last(),
                )
                &&& !taken ==> final(self).spec_sent() == old(self).spec_sent() && final(self).spec_queue() == old(self).spec_queue()
                &&& taken ==> final(self).spec_enabled()
                &&& spec_level_enabled(level, old(self).spec_max_level()) && old(self).spec_enabled() && old(self).spec_state() is Disabled ==> !final(self).spec_enabled()
                &&& !spec_level_enabled(level, old(self).spec_max_level()) ==> final(self).spec_enabled() == old(self).spec_enabled()
            }),
            final(self).spec_enabled() ==> old(self).spec_enabled(),
            !old(self).spec_enabled() ==> !final(self).spec_enabled(),
            final(self).spec_sink() == old(self).spec_sink(),
            final(self).spec_batch() == old(self).spec_batch(),
            final(self).spec_state() == old(self).spec_state(),
            final(self).spec_max_level() == old(self).spec_max_level(),
            final(self).spec_next_id() == old(self).spec_next_id(),
            final(self).spec_last_flush() == old(self).spec_last_flush(),
    {
        if !level_enabled(level, self.max_level) {
            return ;
        }
        let mut name_buf = [0u8; MAX_INFO_SIZE];
        let name_len = truncate(name, &mut name_buf);
        proof {
            broadcast use vstd::array::group_array_axioms;

            assert(name_buf@ =~= spec_name_array(name.spec_bytes()));
        }
        let data = TraceData::Event { parent_span, name: name_buf, name_len, info };
        let packet = TracePacket::now_with_data(now_us, data);
        self.send(packet);
    }

    /// Builds and attempts to enqueue the lightweight `Enter` packet.
    pub fn enter(&mut self, span: u64, now_us: u64)
        requires
            old(self).wf(),
            span != 0,
            old(self).spec_enabled() && !(old(self).spec_state() is Disabled) ==> old(self).spec_queue().len() < MPSC_CHANNEL_BOUND,
        ensures
            final(self).wf(),
            ({
                let taken = old(self).spec_enabled() && !(old(self).spec_state() is Disabled);
                &&& taken ==> final(self).spec_sent() == old(self).spec_sent().push(
                    TracePacket {
                        timestamp: now_us,
                        with_process: false,
                        data: TraceData::Enter { span },
                    },
                )
                &&& taken ==> final(self).spec_queue() == old(self).spec_queue().push(
                    final(self).spec_sent().last(),
                )
                &&& !taken ==> final(self).spec_sent() == old(self).spec_sent() && final(self).spec_queue() == old(self).spec_queue()
                &&& taken ==> final(self).spec_enabled()
                &&& old(self).spec_enabled() && old(self).spec_state() is Disabled ==> !final(self).spec_enabled()
            }),
            final(self).spec_enabled() ==> old(self).spec_enabled(),
            !old(self).spec_enabled() ==> !final(self).spec_enabled(),
            final(self).spec_sink() == old(self).spec_sink(),
            final(self).spec_batch() == old(self).spec_batch(),
            final(self).spec_state() == old(self).spec_state(),
            final(self).spec_max_level() == old(self).spec_max_level(),
            final(self).spec_next_id() == old(self).spec_next_id(),
            final(self).spec_last_flush() == old(self).spec_last_flush(),
    {
        let packet = TracePacket::now_without_process(now_us, TraceData::Enter { span });
        self.send(packet);
    }

    /// Builds and attempts to enqueue the lightweight `Exit` packet.
    pub fn exit(&mut self, span: u64, now_us: u64)
        requires
            old(self).wf(),
            span != 0,
            old(self).spec_enabled() && !(old(self).spec_state() is Disabled) ==> old(self).spec_queue().len() < MPSC_CHANNEL_BOUND,
        ensures
            final(self).wf(),
            ({
                let taken = old(self).spec_enabled() && !(old(self).spec_state() is Disabled);
                &&& taken ==> final(self).spec_sent() == old(self).spec_sent().push(
                    TracePacket {
                        timestamp: now_us,
                        with_process: false,
                        data: TraceData::Exit { span },
                    },
                )
                &&& taken ==> final(self).spec_queue() == old(self).spec_queue().push(
                    final(self).spec_sent().last(),
                )
                &&& !taken ==> final(self).spec_sent() == old(self).spec_sent() && final(self).spec_queue() == old(self).spec_queue()
                &&& taken ==> final(self).spec_enabled()
                &&& old(self).spec_enabled() && old(self).spec_state() is Disabled ==> !final(self).spec_enabled()
            }),
            final(self).spec_enabled() ==> old(self).spec_enabled(),
            !old(self).spec_enabled() ==> !final(self).spec_enabled(),
            final(self).spec_sink() == old(self).spec_sink(),
            final(self).spec_batch() == old(self).spec_batch(),
            final(self).spec_state() == old(self).spec_state(),
            final(self).spec_max_level() == old(self).spec_max_level(),
            final(self).spec_next_id() == old(self).spec_next_id(),
            final(self).spec_last_flush() == old(self).spec_last_flush(),
    {
        let packet = TracePacket::now_without_process(now_us, TraceData::Exit { span });
        self.send(packet);
    }

    /// Moves the batching buffer to the socket when `io_ok`, else degrades
    /// for good. Returns whether the worker may continue.
    fn flush(&mut self, io_ok: bool) -> (cont: bool)
        ensures
            cont == io_ok,
            io_ok ==> final(self).sink@ == old(self).sink@ + old(self).batch@ && final(self).batch@.len() == 0 && final(self).state == old(self).state && final(self).enabled
                == old(self).enabled,
            !io_ok ==> final(self).sink@ == old(self).sink@ && final(self).batch@ == old(self).batch@ && final(self).state is Disabled && !final(self).enabled,
            final(self).max_level == old(self).max_level,
            final(self).ids == old(self).ids,
            final(self).queue@ == old(self).queue@,
            final(self).last_flush == old(self).last_flush,
            final(self).shipped == old(self).shipped,
            final(self).sent == old(self).sent,
    {
        if io_ok {
            self.sink.append(&mut self.batch);
            true
        } else {
            self.state = WorkerState::Disabled;
            self.enabled = false;
            false
        }
    }

    /// One turn of the streaming loop, after the blocking receive yielded
    /// the oldest queued packet: encode it, frame it, append it to the
    /// batching buffer — flushing first if it would not fit — and force a
    /// flush once the interval since the last one has elapsed. `io_ok` is
    /// the outcome the socket write would have; a failed write degrades the
    /// pipeline for good and delivers nothing.
    pub fn worker_step(&mut self, now_ms: u64, io_ok: bool)
        requires
            old(self).wf(),
            old(self).spec_state() is Streaming,
            old(self).spec_queue().len() > 0,
            now_ms >= old(self).spec_last_flush(),
        ensures
            final(self).wf(),
            final(self).spec_queue() == old(self).spec_queue().skip(1),
            final(self).spec_sent() == old(self).spec_sent(),
            final(self).spec_max_level() == old(self).spec_max_level(),
            final(self).spec_next_id() == old(self).spec_next_id(),
            ({
                let f = spec_framed(old(self).spec_queue()[0]);
                let over = old(self).spec_batch().len() + f.len() > BUFWRITER_SIZE;
                let due = now_ms > old(self).spec_last_flush() + FLUSH_INTERVAL_MS;
                &&& !over && !due ==> final(self).spec_state() is Streaming && final(self).spec_enabled() == old(self).spec_enabled() && final(self).spec_sink() == old(self).spec_sink() && final(self).spec_batch() == old(self).spec_batch() + f && final(self).spec_last_flush() == old(self).spec_last_flush()
                &&& io_ok && due ==> final(self).spec_state() is Streaming && final(self).spec_enabled() == old(self).spec_enabled() && final(self).spec_batch().len()
                    == 0 && final(self).spec_sink() == old(self).spec_sink() + old(self).spec_batch() + f && final(self).spec_last_flush() == now_ms
                &&& io_ok && over && !due ==> final(self).spec_state() is Streaming && final(self).spec_enabled() == old(self).spec_enabled() && final(self).spec_sink() == old(self).spec_sink() + old(self).spec_batch() && final(self).spec_batch() == f && final(self).spec_last_flush() == old(self).spec_last_flush()
                &&& !io_ok && (over || due) ==> final(self).spec_state() is Disabled && !final(self).spec_enabled() && final(self).spec_sink() == old(self).spec_sink()
            }),
    {
        let ghost pre = *self;
        let packet = self.queue.remove(0);
        let mut encoded: Vec<u8> = Vec::new();
        encode_packet(&packet, &mut encoded);
        let mut framed = cobs_frame(&encoded);
        proof {
            lemma_encode_packet_len(packet);
            assert(encoded@ =~= spec_encode_packet(packet));
            assert(framed@ == spec_framed(packet));
            assert(framed@.len() <= MAX_PACKET_SIZE);
            self.shipped@ = self.shipped@.push(packet);
            assert(pre.spec_queue().remove(0) =~= pre.spec_queue().skip(1));
            assert(self.sent@ =~= self.shipped@ + self.queue@);
            assert forall|i: int| 0 <= i < self.queue@.len() implies (#[trigger] self.queue@[i]).wf() by {
                assert(self.queue@[i] == pre.spec_queue()[i + 1]);
            }
            lemma_framed_all_push(pre.shipped@, packet);
        }
        if self.batch.len() + framed.len() > BUFWRITER_SIZE {
            if !self.flush(io_ok) {
                return ;
            }
        }
        self.batch.append(&mut framed);
        proof {
            assert(self.sink@ + self.batch@ =~= spec_framed_all(self.shipped@));
        }
        if now_ms - self.last_flush > FLUSH_INTERVAL_MS {
            if !self.flush(io_ok) {
                return ;
            }
            self.last_flush = now_ms;
            proof {
                assert(self.sink@ + self.batch@ =~= spec_framed_all(self.shipped@));
            }
        }
    }

    /// How many packets wait in the queue.
    pub fn queue_len(&self) -> (r: usize)
        ensures
            r == self.spec_queue().len(),
    {
        self.queue.len()
    }

    /// The bytes delivered to the collector so far.
    pub fn sink_bytes(&self) -> (r: &Vec<u8>)
        ensures
            r@ == self.spec_sink(),
    {
        &self.sink
    }

    /// How many framed bytes wait in the batching buffer.
    pub fn batch_len(&self) -> (r: usize)
        ensures
            r == self.spec_batch().len(),
    {
        self.batch.len()
    }

    /// Whether the latch is still up.
    pub fn is_enabled(&self) -> (r: bool)
        ensures
            r == self.spec_enabled(),
    {
        self.enabled
    }

    /// The worker's lifecycle state.
    pub fn worker_state(&self) -> (r: WorkerState)
        ensures
            r == self.spec_state(),
    {
        self.state
    }
}

/// Single-producer ordering: while the worker has not degraded, the bytes
/// delivered to the sink, followed by those still batched and those of the
/// still-queued packets, are exactly the framed encodings of every accepted
/// packet in acceptance order — so packets reach the sink in the order their
/// calls were accepted, with no loss, duplication or reordering.
pub proof fn lemma_sink_matches_send_order(p: &Pipeline)
    requires
        p.wf(),
        !(p.spec_state() is Disabled),
    ensures
        p.spec_sink() + p.spec_batch() + spec_framed_all(p.spec_queue()) == spec_framed_all(
            p.spec_sent(),
        ),
{
    lemma_framed_all_concat(p.shipped@, p.queue@);
    assert(p.spec_sink() + p.spec_batch() + spec_framed_all(p.spec_queue()) =~= spec_framed_all(
        p.spec_sent(),
    ));
}

/// Backpressure is loss-free: the bounded queue never exceeds its capacity,
/// and a producer facing a full queue must wait for the worker to drain a
/// slot rather than drop or discard a packet.
pub proof fn lemma_queue_bounded(p: &Pipeline)
    requires
        p.wf(),
    ensures
        p.spec_queue().len() <= MPSC_CHANNEL_BOUND,
{
}

} // verus!
