//! Wire payloads per source and the cache that retains the latest of each.

use crate::caches::{disk, hello, Handler, ProducerState, RegistrationError};
use crate::public::event_queue::EventQ;
use crate::public::shutdown::{Signal, SignalView};
use crate::public::{DiskRecord, ServiceData, ServiceType};
use crate::server::api_rpc::DiskListAndWatchResponse;
use crate::server::converter::{convert_for, spec_convert_for};
use crate::server::fanout::{fanout_receiver_capacity, Broadcast, FanoutChannels};
use crate::server::fetcher::{spec_cache_after, spec_records, CacheHandlers, Fetcher, FetcherState, FetcherWake};
use tokio::sync::broadcast::Receiver;
use vstd::prelude::*;

verus! {

/// A wire payload as a mathematical value.
pub enum GrpcDataView {
    Empty,
    Disk(Seq<DiskRecord>),
}

/// The wire payload of one source, ready to be sent. `Empty` stands for a
/// source that has published nothing yet.
#[derive(Debug, PartialEq, Eq)]
pub enum GrpcData {
    Empty,
    Disk(DiskListAndWatchResponse),
}

impl View for GrpcData {
    type V = GrpcDataView;

    open spec fn view(&self) -> GrpcDataView {
        match self {
            GrpcData::Empty => GrpcDataView::Empty,
            GrpcData::Disk(response) => GrpcDataView::Disk(response@),
        }
    }
}

impl Clone for GrpcData {
    fn clone(&self) -> (copy: Self)
        ensures
            copy@ == self@,
    {
        match self {
            GrpcData::Empty => GrpcData::Empty,
            GrpcData::Disk(response) => GrpcData::Disk(response.clone()),
        }
    }
}

/// The latest-value cache: for every source the payload that was written
/// last, `Empty` until the first write.
pub struct GrpcDataCache {
    inner: [GrpcData; ServiceType::LEN],
}

impl View for GrpcDataCache {
    type V = Map<ServiceType, GrpcDataView>;

    closed spec fn view(&self) -> Map<ServiceType, GrpcDataView> {
        Map::new(|s: ServiceType| true, |s: ServiceType| self.inner@[s.spec_index()]@)
    }
}

impl GrpcDataCache {
    /// The cache before any write.
    pub open spec fn spec_new() -> Map<ServiceType, GrpcDataView> {
        Map::new(|s: ServiceType| true, |s: ServiceType| GrpcDataView::Empty)
    }

    /// Every source has an entry, at all times.
    pub proof fn lemma_total(&self)
        ensures
            forall|s: ServiceType| self@.dom().contains(s),
    {
    }

    pub fn new() -> (cache: Self)
        ensures
            cache@ == Self::spec_new(),
    {
        let cache = GrpcDataCache { inner: [GrpcData::Empty, GrpcData::Empty] };
        assert(cache@ =~= Self::spec_new());
        cache
    }

    /// Replaces the payload of `service_type`; the other entries stay.
    pub fn update(&mut self, service_type: ServiceType, data: GrpcData)
        ensures
            final(self)@ == old(self)@.insert(service_type, data@),
    {
        let idx = service_type.index();
        self.inner[idx] = data;
        assert(self@ =~= old(self)@.insert(service_type, data@)) by {
            assert forall|s: ServiceType| #[trigger] self@[s] == old(self)@.insert(service_type, data@)[s] by {
                if s != service_type {
                    assert(s.spec_index() != service_type.spec_index());
                }
            }
        }
    }

    /// A copy of the payload retained for `service_type`.
    pub fn get(&self, service_type: ServiceType) -> (data: GrpcData)
        ensures
            data@ == self@[service_type],
    {
        self.inner[service_type.index()].clone()
    }
}

/// What `Server::new` hands back: the shutdown bus of the server's tasks.
#[derive(Debug)]
pub struct ServerHandler {
    pub shutdown: Signal,
}

impl ServerHandler {
    /// Raises the shutdown signal of the server. Returns whether every task
    /// has released its receiver already.
    pub fn shutdown(&mut self) -> (drained: bool)
        ensures
            final(self).shutdown@ == old(self).shutdown@.shutdown(),
            drained == old(self).shutdown@.drained(),
    {
        self.shutdown.shutdown()
    }
}

/// The server side of the pipeline: the dispatcher, the latest-value cache
/// and the fan-out channels.
pub struct Server {
    pub addr: String,
    pub fetcher: Fetcher,
    pub grpc_data_cache: GrpcDataCache,
    pub data_chans: FanoutChannels,
}

impl Server {
    /// A server that will listen on `addr`, without sources and with an
    /// empty cache, and the handle that shuts it down. The bus of the
    /// handle starts with the one receiver that the server's dispatcher
    /// listens on.
    pub fn new(addr: String) -> (made: (Self, ServerHandler))
        ensures
            made.0.addr@ == addr@,
            made.0.fetcher.state == FetcherState::Idle,
            made.0.fetcher.caches_handlers@ == CacheHandlers::spec_new(),
            made.0.grpc_data_cache@ == GrpcDataCache::spec_new(),
            made.1.shutdown@ == SignalView::initial(),
    {
        (
            Server {
                addr,
                fetcher: Fetcher::new(),
                grpc_data_cache: GrpcDataCache::new(),
                data_chans: FanoutChannels::new(),
            },
            ServerHandler { shutdown: Signal::new() },
        )
    }

    /// One turn of the server's dispatcher on the server's own cache and
    /// channels: see `Fetcher::wait_event`.
    pub fn serve(&mut self, wake: FetcherWake, event_q: &mut EventQ) -> (sent: Vec<Broadcast>)
        ensures
            final(self).addr == old(self).addr,
            final(self).fetcher.state == old(self).fetcher.state.step(wake),
            final(self).fetcher.caches_handlers == old(self).fetcher.caches_handlers,
            old(self).fetcher.state.drains(wake) ==> {
                &&& final(event_q)@ == old(event_q)@.drain()
                &&& spec_records(old(self).fetcher.caches_handlers@, old(event_q)@.events, sent@)
                &&& final(self).grpc_data_cache@ == spec_cache_after(
                    old(self).fetcher.caches_handlers@,
                    old(self).grpc_data_cache@,
                    old(event_q)@.events,
                )
            },
            !old(self).fetcher.state.drains(wake) ==> {
                &&& final(event_q)@ == old(event_q)@
                &&& sent@.len() == 0
                &&& final(self).grpc_data_cache@ == old(self).grpc_data_cache@
            },
    {
        self.fetcher.wait_event(wake, event_q, &self.data_chans, &mut self.grpc_data_cache)
    }

    /// Registers the read handles of the sources with the dispatcher: one
    /// after the other, up to the first whose tag is taken.
    pub fn add_caches(&mut self, caches: Vec<(ServiceType, Handler)>) -> (added: Result<(), RegistrationError>)
        ensures
            final(self).addr == old(self).addr,
            final(self).fetcher.state == old(self).fetcher.state,
            final(self).grpc_data_cache@ == old(self).grpc_data_cache@,
            final(self).fetcher.caches_handlers@ == CacheHandlers::spec_add_all(
                old(self).fetcher.caches_handlers@,
                caches@,
            ).0,
            match CacheHandlers::spec_add_all(old(self).fetcher.caches_handlers@, caches@).1 {
                Some(collision) => added == Err::<(), RegistrationError>(collision),
                None => added is Ok,
            },
    {
        self.fetcher.add_caches(caches)
    }

    /// Handles the snapshot `data` that the source `service_type` returned:
    /// converts it, writes the payload to the cache and then broadcasts it
    /// on the channel of that source: the record of the send holds the
    /// payload that the cache holds. The write comes first, and nothing
    /// else is written between it and the send, so whoever sees the
    /// broadcast finds at least that value in the cache. A snapshot without
    /// a wire representation changes nothing and is not broadcast.
    pub fn handle_new_data(
        service_type: ServiceType,
        data: &ServiceData,
        data_chans: &FanoutChannels,
        data_cache: &mut GrpcDataCache,
    ) -> (sent: Option<Broadcast>)
        ensures
            match spec_convert_for(service_type, data@) {
                Some(payload) => {
                    &&& sent matches Some(broadcast)
                    &&& broadcast@.service_type == service_type
                    &&& broadcast@.payload == payload
                    &&& broadcast@.receivers != Some(0usize)
                    &&& final(data_cache)@ == old(data_cache)@.insert(service_type, payload)
                },
                None => sent is None && final(data_cache)@ == old(data_cache)@,
            },
    {
        match convert_for(service_type, data) {
            None => None,
            Some(grpc_data) => {
                data_cache.update(service_type, grpc_data.clone());
                Some(data_chans.send(service_type, grpc_data))
            },
        }
    }
}

/// Where a subscription stream stands.
#[derive(Clone, Copy, Debug, PartialEq, Eq, Structural)]
pub enum StreamState {
    /// Emitting what the fan-out channel delivers.
    Live,
    /// The fan-out channel is closed; only shutdown is waited for.
    Detached,
    /// Ended by shutdown; nothing is emitted any more.
    Ended,
}

/// What wakes a subscription stream, as a mathematical value.
pub enum StreamWakeView {
    Item(GrpcDataView),
    Lagged(u64),
    Closed,
    Shutdown,
}

/// What wakes a subscription stream.
#[derive(Debug)]
pub enum StreamWake {
    /// The fan-out channel delivered a payload.
    Item(GrpcData),
    /// The subscriber fell behind and the channel dropped this many
    /// payloads.
    Lagged(u64),
    /// The fan-out channel is closed.
    Closed,
    /// The shutdown signal is up.
    Shutdown,
}

impl View for StreamWake {
    type V = StreamWakeView;

    open spec fn view(&self) -> StreamWakeView {
        match self {
            StreamWake::Item(payload) => StreamWakeView::Item(payload@),
            StreamWake::Lagged(n) => StreamWakeView::Lagged(*n),
            StreamWake::Closed => StreamWakeView::Closed,
            StreamWake::Shutdown => StreamWakeView::Shutdown,
        }
    }
}

/// The stream item that a payload is emitted as: a disk inventory is, the
/// empty payload is not.
pub open spec fn spec_item(payload: GrpcDataView) -> Option<Seq<DiskRecord>> {
    match payload {
        GrpcDataView::Disk(disks) => Some(disks),
        GrpcDataView::Empty => None,
    }
}

impl StreamState {
    /// The state that `wake` leads to.
    pub open spec fn step(self, wake: StreamWakeView) -> StreamState {
        match (self, wake) {
            (StreamState::Ended, _) => StreamState::Ended,
            (_, StreamWakeView::Shutdown) => StreamState::Ended,
            (StreamState::Live, StreamWakeView::Closed) => StreamState::Detached,
            (state, _) => state,
        }
    }

    /// The item that `wake` makes the stream emit, if any. Only a live
    /// stream emits, and only payloads: a lag is skipped.
    pub open spec fn emits(self, wake: StreamWakeView) -> Option<Seq<DiskRecord>> {
        match (self, wake) {
            (StreamState::Live, StreamWakeView::Item(payload)) => spec_item(payload),
            _ => None,
        }
    }

    /// The state after `wakes`, taken from the first to the last.
    pub open spec fn step_all(self, wakes: Seq<StreamWakeView>) -> StreamState
        decreases wakes.len(),
    {
        if wakes.len() == 0 {
            self
        } else {
            self.step_all(wakes.drop_last()).step(wakes.last())
        }
    }

    /// The items that the stream emits on `wakes`, in order.
    pub open spec fn emits_all(self, wakes: Seq<StreamWakeView>) -> Seq<Seq<DiskRecord>>
        decreases wakes.len(),
    {
        if wakes.len() == 0 {
            Seq::empty()
        } else {
            let before = self.emits_all(wakes.drop_last());
            match self.step_all(wakes.drop_last()).emits(wakes.last()) {
                Some(item) => before.push(item),
                None => before,
            }
        }
    }
}

/// One subscription stream of the disk source, as the state machine that
/// the task of the call drives.
#[derive(Debug)]
pub struct DiskListAndWatchStream {
    pub state: StreamState,
}

impl DiskListAndWatchStream {
    /// One turn of the stream. Returns the item to emit, if any.
    pub fn next(&mut self, wake: StreamWake) -> (item: Option<DiskListAndWatchResponse>)
        ensures
            final(self).state == old(self).state.step(wake@),
            match old(self).state.emits(wake@) {
                Some(disks) => item matches Some(response) && response@ == disks,
                None => item is None,
            },
    {
        match self.state {
            StreamState::Ended => None,
            StreamState::Detached => {
                match wake {
                    StreamWake::Shutdown => {
                        self.state = StreamState::Ended;
                    },
                    _ => {},
                }
                None
            },
            StreamState::Live => match wake {
                StreamWake::Shutdown => {
                    self.state = StreamState::Ended;
                    None
                },
                StreamWake::Closed => {
                    self.state = StreamState::Detached;
                    None
                },
                StreamWake::Lagged(_) => None,
                StreamWake::Item(GrpcData::Disk(disks)) => Some(disks),
                StreamWake::Item(GrpcData::Empty) => None,
            },
        }
    }
}

/// What opening a stream yields.
pub struct Subscription {
    /// The receiver on the fan-out channel of the disk source, for the live
    /// tail.
    pub receiver: Receiver<GrpcData>,
    /// The snapshot: the first item of the stream, where the cache held a
    /// payload.
    pub first: Option<DiskListAndWatchResponse>,
    /// The stream, live.
    pub stream: DiskListAndWatchStream,
}

/// The streaming interface as a mathematical value: what it reads and
/// what it subscribes to.
pub struct GrpcServiceView {
    /// The fan-out channels that streams subscribe to.
    pub data_chans: FanoutChannels,
    /// The cache that streams take their first item from.
    pub cache: Map<ServiceType, GrpcDataView>,
}

/// The streaming interface, on the server's cache and channels.
pub struct GrpcService<'a> {
    data_chans: &'a FanoutChannels,
    cache: &'a GrpcDataCache,
}

impl<'a> View for GrpcService<'a> {
    type V = GrpcServiceView;

    closed spec fn view(&self) -> GrpcServiceView {
        GrpcServiceView { data_chans: *self.data_chans, cache: self.cache@ }
    }
}

impl<'a> GrpcService<'a> {
    pub fn new(data_chans: &'a FanoutChannels, grpc_data_cache: &'a GrpcDataCache) -> (service: Self)
        ensures
            service@ == (GrpcServiceView { data_chans: *data_chans, cache: grpc_data_cache@ }),
    {
        GrpcService { data_chans, cache: grpc_data_cache }
    }

    /// Opens a stream of the disk source. The fan-out channel is subscribed
    /// to before the cache is read, so that a payload written in between
    /// is not missed: it is in the cache or comes as a broadcast. The
    /// receiver is one on the channel of the disk source, retained as many
    /// payloads as that channel retains. The first item is the payload
    /// that the cache retains, if it retains one.
    pub fn disk_list_and_watch(&self) -> (opened: Subscription)
        ensures
            opened.stream.state == StreamState::Live,
            fanout_receiver_capacity(opened.receiver) == self@.data_chans.capacity(ServiceType::DISK),
            match spec_item(self@.cache[ServiceType::DISK]) {
                Some(disks) => opened.first matches Some(response) && response@ == disks,
                None => opened.first is None,
            },
    {
        let receiver = self.data_chans.subscribe(ServiceType::DISK);
        let first = match self.cache.get(ServiceType::DISK) {
            GrpcData::Disk(disks) => Some(disks),
            GrpcData::Empty => None,
        };
        Subscription { receiver, first, stream: DiskListAndWatchStream { state: StreamState::Live } }
    }
}

/// The cache after `writes` to the entry of `service_type`, from the first
/// to the last.
pub open spec fn spec_write_all(
    cache: Map<ServiceType, GrpcDataView>,
    service_type: ServiceType,
    writes: Seq<GrpcDataView>,
) -> Map<ServiceType, GrpcDataView>
    decreases writes.len(),
{
    if writes.len() == 0 {
        cache
    } else {
        spec_write_all(cache, service_type, writes.drop_last()).insert(service_type, writes.last())
    }
}

/// Snapshot before tail. A stream is asked for after the payloads `before`
/// were written for its source, and reads the cache after `between` more
/// were: what it reads, and emits first, is the most recent payload
/// written before it was asked for, or a newer one.
pub proof fn lemma_snapshot_before_tail(
    cache: Map<ServiceType, GrpcDataView>,
    before: Seq<GrpcDataView>,
    between: Seq<GrpcDataView>,
)
    requires
        before.len() > 0,
    ensures
        spec_write_all(cache, ServiceType::DISK, before + between)[ServiceType::DISK] == if between.len() == 0 {
            before.last()
        } else {
            between.last()
        },
{
    let writes = before + between;
    assert(writes.last() == if between.len() == 0 {
        before.last()
    } else {
        between.last()
    });
}

/// No missed updates. A stream that is opened on the empty cache has no
/// first item; and a live stream to which the channel delivers every
/// broadcast payload, without a lag, stays live and emits every one of
/// them, in the order of the broadcasts.
pub proof fn lemma_no_missed_updates(broadcasts: Seq<Seq<DiskRecord>>)
    ensures
        spec_item(GrpcDataCache::spec_new()[ServiceType::DISK]) is None,
        StreamState::Live.step_all(broadcasts.map_values(|d: Seq<DiskRecord>| StreamWakeView::Item(GrpcDataView::Disk(d))))
            == StreamState::Live,
        StreamState::Live.emits_all(broadcasts.map_values(|d: Seq<DiskRecord>| StreamWakeView::Item(GrpcDataView::Disk(d))))
            == broadcasts,
    decreases broadcasts.len(),
{
    let wake = |d: Seq<DiskRecord>| StreamWakeView::Item(GrpcDataView::Disk(d));
    let wakes = broadcasts.map_values(wake);
    if broadcasts.len() == 0 {
        assert(StreamState::Live.emits_all(wakes) =~= broadcasts);
    } else {
        lemma_no_missed_updates(broadcasts.drop_last());
        assert(wakes.drop_last() =~= broadcasts.drop_last().map_values(wake));
        assert(wakes.last() == wake(broadcasts.last()));
        assert(broadcasts.drop_last().push(broadcasts.last()) =~= broadcasts);
    }
}

/// Shutdown terminates. Whatever state the dispatcher, a subscription
/// stream or a producer is in, the shutdown wake takes it to its final
/// state in one turn, and no wake takes it out of that state again.
pub proof fn lemma_shutdown_terminates(
    fetcher: FetcherState,
    stream: StreamState,
    producer: ProducerState,
    fetcher_wake: FetcherWake,
    stream_wake: StreamWakeView,
    hello_wake: hello::Wake,
    disk_shutdown: bool,
)
    ensures
        fetcher.step(FetcherWake::Shutdown) == FetcherState::Terminated,
        FetcherState::Terminated.step(fetcher_wake) == FetcherState::Terminated,
        stream.step(StreamWakeView::Shutdown) == StreamState::Ended,
        StreamState::Ended.step(stream_wake) == StreamState::Ended,
        StreamState::Ended.emits(stream_wake) is None,
        hello::DataGenerator::spec_step(producer, hello::Wake::Shutdown) == ProducerState::Stopped,
        hello::DataGenerator::spec_step(ProducerState::Stopped, hello_wake) == ProducerState::Stopped,
        disk::DataGenerator::spec_step(producer, true) == ProducerState::Stopped,
        disk::DataGenerator::spec_step(ProducerState::Stopped, disk_shutdown) == ProducerState::Stopped,
{
}

} // verus!
