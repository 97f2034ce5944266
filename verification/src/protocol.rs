//! The vocabulary spoken with the audio subsystem, and the machine that
//! carries out one property operation in it.
//!
//! Nothing here talks to hardware. A machine says which primitive operation
//! it wants performed next ([`Request`]); the caller performs it and hands
//! back what came of it ([`Reply`]); the machine then either asks for the
//! next operation or ends ([`Step`]).
use vstd::prelude::*;
use crate::cf::{CFArray, CFDictionary, CFEntryView, CFError, CFString, NO_ERR};
use crate::device::{CADevice, OBJECT_UNKNOWN};

verus! {

/// The bytes of a device identifier.
pub const DEVICE_ID_SIZE: u32 = 4;

/// The bytes of a sample rate.
pub const FLOAT64_SIZE: u32 = 8;

/// The bytes of a reference to a managed object.
pub const REFERENCE_SIZE: u32 = 8;

/// The bytes of a translation record: two references, each followed by a
/// length.
pub const TRANSLATION_SIZE: u32 = 32;

/// The bytes of a buffer list that holds one buffer, which is the least
/// that is set aside for one.
pub const BUFFER_LIST_SIZE: u32 = 24;

/// The address of one attribute of an audio object.
#[derive(Debug, Clone, Copy, PartialEq, Eq, Structural)]
pub struct PropertyAddress {
    pub selector: u32,
    pub scope: u32,
    pub element: u32,
}

/// A 64-bit floating-point number, carried by its bit pattern.
#[derive(Debug, Clone, Copy, PartialEq, Eq, Structural)]
pub struct Float64 {
    pub bits: u64,
}

/// The layout of one stream: how many channels are interleaved in it, and
/// how many bytes one quantum of it takes.
#[derive(Debug, Clone, Copy, PartialEq, Eq, Structural)]
pub struct AudioBuffer {
    pub number_channels: u32,
    pub data_byte_size: u32,
}

/// The layout of the streams of one direction of a device, in stream order.
#[derive(Debug, PartialEq, Eq)]
pub struct AudioBufferList {
    pub buffers: Vec<AudioBuffer>,
}

impl View for AudioBufferList {
    type V = Seq<AudioBuffer>;

    open spec fn view(&self) -> Seq<AudioBuffer> {
        self.buffers@
    }
}

/// The channels of the streams `buffers` together.
pub open spec fn channels(buffers: Seq<AudioBuffer>) -> nat
    decreases buffers.len(),
{
    if buffers.len() == 0 {
        0
    } else {
        channels(buffers.drop_last()) + buffers.last().number_channels as nat
    }
}

/// The first streams of a list have no more channels than the whole list.
pub proof fn lemma_channels_of_prefix(buffers: Seq<AudioBuffer>, n: int)
    requires
        0 <= n <= buffers.len(),
    ensures
        channels(buffers.take(n)) <= channels(buffers),
    decreases buffers.len(),
{
    if n == buffers.len() {
        assert(buffers.take(n) =~= buffers);
    } else {
        assert(buffers.drop_last().take(n) =~= buffers.take(n));
        lemma_channels_of_prefix(buffers.drop_last(), n);
    }
}

impl AudioBufferList {
    /// The number of streams.
    pub fn number_buffers(&self) -> (n: usize)
        ensures
            n == self@.len(),
    {
        self.buffers.len()
    }

    /// The number of channels: those of all streams together. This is the
    /// channel count of a device in the direction whose streams the list
    /// lays out. There is none where the count is beyond what a `usize`
    /// holds.
    pub fn number_channels(&self) -> (n: Option<usize>)
        ensures
            n == if channels(self@) <= usize::MAX {
                Some(channels(self@) as usize)
            } else {
                None::<usize>
            },
    {
        let mut total: usize = 0;
        let mut i: usize = 0;
        while i < self.buffers.len()
            invariant
                i <= self.buffers.len(),
                total == channels(self@.take(i as int)),
            decreases self.buffers.len() - i,
        {
            proof {
                assert(self@.take(i + 1).drop_last() =~= self@.take(i as int));
                lemma_channels_of_prefix(self@, i + 1);
            }
            match total.checked_add(self.buffers[i].number_channels as usize) {
                Some(sum) => {
                    total = sum;
                },
                None => {
                    return None;
                },
            }
            i += 1;
        }
        assert(self@.take(i as int) =~= self@);
        Some(total)
    }
}

/// A record for an in-place translation: the text that goes in, and the
/// object identifier that comes out.
#[derive(Debug, PartialEq, Eq)]
pub struct AudioValueTranslation {
    pub input: CFString,
    pub output: u32,
}

/// The mathematical value of an [`AudioValueTranslation`].
pub struct AudioValueTranslationView {
    pub input: Seq<char>,
    pub output: u32,
}

impl View for AudioValueTranslation {
    type V = AudioValueTranslationView;

    open spec fn view(&self) -> AudioValueTranslationView {
        AudioValueTranslationView { input: self.input@, output: self.output }
    }
}

/// The shapes that the content of a property can have.
#[derive(Debug, Clone, Copy, PartialEq, Eq, Structural)]
pub enum PayloadKind {
    Nothing,
    Float64,
    Device,
    DeviceList,
    String,
    Array,
    BufferList,
    Translation,
    ProcID,
}

/// A value that travels to or from the audio subsystem.
#[derive(Debug, PartialEq, Eq)]
pub enum Payload {
    Nothing,
    Float64(Float64),
    Device(CADevice),
    DeviceList(Vec<CADevice>),
    String(CFString),
    Array(CFArray),
    BufferList(AudioBufferList),
    Translation(AudioValueTranslation),
    ProcID(u64),
}

/// The mathematical value of a [`Payload`].
pub enum PayloadView {
    Nothing,
    Float64(Float64),
    Device(CADevice),
    DeviceList(Seq<CADevice>),
    String(Seq<char>),
    Array(Seq<Seq<char>>),
    BufferList(Seq<AudioBuffer>),
    Translation(AudioValueTranslationView),
    ProcID(u64),
}

impl PayloadView {
    /// The shape of the value.
    pub open spec fn kind(self) -> PayloadKind {
        match self {
            PayloadView::Nothing => PayloadKind::Nothing,
            PayloadView::Float64(_) => PayloadKind::Float64,
            PayloadView::Device(_) => PayloadKind::Device,
            PayloadView::DeviceList(_) => PayloadKind::DeviceList,
            PayloadView::String(_) => PayloadKind::String,
            PayloadView::Array(_) => PayloadKind::Array,
            PayloadView::BufferList(_) => PayloadKind::BufferList,
            PayloadView::Translation(_) => PayloadKind::Translation,
            PayloadView::ProcID(_) => PayloadKind::ProcID,
        }
    }
}

impl PayloadView {
    /// The text that the value carries, where it is a string.
    pub open spec fn text(self) -> Seq<char> {
        match self {
            PayloadView::String(s) => s,
            _ => Seq::empty(),
        }
    }

    /// The handle that the value carries, where it is one.
    pub open spec fn device(self) -> CADevice {
        match self {
            PayloadView::Device(d) => d,
            _ => CADevice(OBJECT_UNKNOWN),
        }
    }

    /// The handles that the value carries, where it is a list of them.
    pub open spec fn devices(self) -> Seq<CADevice> {
        match self {
            PayloadView::DeviceList(l) => l,
            _ => Seq::empty(),
        }
    }

    /// The object identifier that a translation has come out with, where
    /// the value is a translation record.
    pub open spec fn translated(self) -> u32 {
        match self {
            PayloadView::Translation(t) => t.output,
            _ => OBJECT_UNKNOWN,
        }
    }

    /// The registration identifier that the value carries, where it is one.
    pub open spec fn proc_id(self) -> u64 {
        match self {
            PayloadView::ProcID(p) => p,
            _ => 0,
        }
    }
}

impl View for Payload {
    type V = PayloadView;

    open spec fn view(&self) -> PayloadView {
        match self {
            Payload::Nothing => PayloadView::Nothing,
            Payload::Float64(x) => PayloadView::Float64(*x),
            Payload::Device(d) => PayloadView::Device(*d),
            Payload::DeviceList(l) => PayloadView::DeviceList(l@),
            Payload::String(s) => PayloadView::String(s@),
            Payload::Array(a) => PayloadView::Array(a@),
            Payload::BufferList(l) => PayloadView::BufferList(l@),
            Payload::Translation(t) => PayloadView::Translation(t@),
            Payload::ProcID(p) => PayloadView::ProcID(*p),
        }
    }
}

impl Payload {
    /// The shape of the value.
    pub fn kind(&self) -> (k: PayloadKind)
        ensures
            k == self@.kind(),
    {
        match self {
            Payload::Nothing => PayloadKind::Nothing,
            Payload::Float64(_) => PayloadKind::Float64,
            Payload::Device(_) => PayloadKind::Device,
            Payload::DeviceList(_) => PayloadKind::DeviceList,
            Payload::String(_) => PayloadKind::String,
            Payload::Array(_) => PayloadKind::Array,
            Payload::BufferList(_) => PayloadKind::BufferList,
            Payload::Translation(_) => PayloadKind::Translation,
            Payload::ProcID(_) => PayloadKind::ProcID,
        }
    }

    /// The string that the value is.
    pub(crate) fn into_string(self) -> (s: CFString)
        requires
            self@.kind() == PayloadKind::String,
        ensures
            s@ == self@.text(),
    {
        match self {
            Payload::String(s) => s,
            _ => unreached(),
        }
    }

    /// The handle that the value is.
    pub(crate) fn into_device(self) -> (d: CADevice)
        requires
            self@.kind() == PayloadKind::Device,
        ensures
            d == self@.device(),
    {
        match self {
            Payload::Device(d) => d,
            _ => unreached(),
        }
    }

    /// The list of handles that the value is.
    pub(crate) fn into_devices(self) -> (l: Vec<CADevice>)
        requires
            self@.kind() == PayloadKind::DeviceList,
        ensures
            l@ == self@.devices(),
    {
        match self {
            Payload::DeviceList(l) => l,
            _ => unreached(),
        }
    }

    /// The object identifier that the translation record, which the value
    /// is, has come out with.
    pub(crate) fn into_translated(self) -> (id: u32)
        requires
            self@.kind() == PayloadKind::Translation,
        ensures
            id == self@.translated(),
    {
        match self {
            Payload::Translation(t) => t.output,
            _ => unreached(),
        }
    }

    /// The registration identifier that the value is.
    pub(crate) fn into_proc_id(self) -> (p: u64)
        requires
            self@.kind() == PayloadKind::ProcID,
        ensures
            p == self@.proc_id(),
    {
        match self {
            Payload::ProcID(p) => p,
            _ => unreached(),
        }
    }
}

/// The memory that a query is given to work on.
#[derive(Debug, PartialEq, Eq)]
pub enum Region {
    /// Memory set aside for a value of shape `kind` that the query is to
    /// fill. For a device list `capacity` counts the handles that fit, each
    /// of them starting out as the handle that names no device; for a
    /// buffer list it counts bytes; for the other shapes it is 1.
    Blank { kind: PayloadKind, capacity: usize },
    /// A value that the query reads and then overwrites in place.
    Filled(Payload),
}

/// The mathematical value of a [`Region`].
pub enum RegionView {
    Blank { kind: PayloadKind, capacity: usize },
    Filled(PayloadView),
}

impl RegionView {
    /// The shape of the value that the region holds once the query has
    /// succeeded.
    pub open spec fn kind(self) -> PayloadKind {
        match self {
            RegionView::Blank { kind, .. } => kind,
            RegionView::Filled(p) => p.kind(),
        }
    }
}

impl View for Region {
    type V = RegionView;

    open spec fn view(&self) -> RegionView {
        match self {
            Region::Blank { kind, capacity } => RegionView::Blank {
                kind: *kind,
                capacity: *capacity,
            },
            Region::Filled(p) => RegionView::Filled(p@),
        }
    }
}

/// One primitive operation of the audio subsystem.
#[derive(Debug, PartialEq, Eq)]
pub enum Request {
    /// Ask how many bytes the content of a property takes.
    PropertyDataSize { object: u32, address: PropertyAddress },
    /// Query a property into `region`, announcing `size` bytes of room; a
    /// `qualifier`, where there is one, goes along as auxiliary input.
    PropertyData {
        object: u32,
        address: PropertyAddress,
        qualifier: Option<CFDictionary>,
        size: u32,
        region: Region,
    },
    /// Write `value`, of `size` bytes, to a property.
    SetPropertyData { object: u32, address: PropertyAddress, size: u32, value: Payload },
    /// Register the callback trampoline with a device.
    CreateIOProcID { device: u32 },
    /// Start the hardware clock of a device for a registered callback.
    DeviceStart { device: u32, proc_id: u64 },
    /// Stop the hardware clock of a device for a registered callback.
    DeviceStop { device: u32, proc_id: u64 },
    /// Release the registration of a callback.
    DestroyIOProcID { device: u32, proc_id: u64 },
}

/// The mathematical value of a [`Request`].
pub enum RequestView {
    PropertyDataSize { object: u32, address: PropertyAddress },
    PropertyData {
        object: u32,
        address: PropertyAddress,
        qualifier: Option<Seq<CFEntryView>>,
        size: u32,
        region: RegionView,
    },
    SetPropertyData { object: u32, address: PropertyAddress, size: u32, value: PayloadView },
    CreateIOProcID { device: u32 },
    DeviceStart { device: u32, proc_id: u64 },
    DeviceStop { device: u32, proc_id: u64 },
    DestroyIOProcID { device: u32, proc_id: u64 },
}

impl View for Request {
    type V = RequestView;

    open spec fn view(&self) -> RequestView {
        match self {
            Request::PropertyDataSize { object, address } => RequestView::PropertyDataSize {
                object: *object,
                address: *address,
            },
            Request::PropertyData {
                object,
                address,
                qualifier,
                size,
                region,
            } => RequestView::PropertyData {
                object: *object,
                address: *address,
                qualifier: match qualifier {
                    Some(q) => Some(q@),
                    None => None,
                },
                size: *size,
                region: region@,
            },
            Request::SetPropertyData { object, address, size, value } => {
                RequestView::SetPropertyData {
                    object: *object,
                    address: *address,
                    size: *size,
                    value: value@,
                }
            },
            Request::CreateIOProcID { device } => RequestView::CreateIOProcID { device: *device },
            Request::DeviceStart { device, proc_id } => RequestView::DeviceStart {
                device: *device,
                proc_id: *proc_id,
            },
            Request::DeviceStop { device, proc_id } => RequestView::DeviceStop {
                device: *device,
                proc_id: *proc_id,
            },
            Request::DestroyIOProcID { device, proc_id } => RequestView::DestroyIOProcID {
                device: *device,
                proc_id: *proc_id,
            },
        }
    }
}

/// What came of one primitive operation: its status, the byte count it
/// reported, and the value it produced. Where the status is not
/// [`NO_ERR`], the rest means nothing.
#[derive(Debug, PartialEq, Eq)]
pub struct Reply {
    pub status: i32,
    pub size: u32,
    pub data: Payload,
}

/// The mathematical value of a [`Reply`].
pub struct ReplyView {
    pub status: i32,
    pub size: u32,
    pub data: PayloadView,
}

impl View for Reply {
    type V = ReplyView;

    open spec fn view(&self) -> ReplyView {
        ReplyView { status: self.status, size: self.size, data: self.data@ }
    }
}

/// The whole handles that a query has written into a list with room for
/// `capacity` of them, where it reports `size` bytes written: as many as
/// those bytes hold, and no more than there is room for.
pub open spec fn handles_written(size: u32, capacity: usize) -> nat {
    if size / DEVICE_ID_SIZE <= capacity {
        (size / DEVICE_ID_SIZE) as nat
    } else {
        capacity as nat
    }
}

/// Whether `reply` can be what came of `request`: a successful query has
/// produced a value of the shape that its region was set aside for, a
/// device list with no more handles than the region has room for and with
/// every handle that the query reports to have written; a successful
/// registration has produced a registration identifier. Nothing is asked of
/// a failure.
pub open spec fn answers(reply: ReplyView, request: RequestView) -> bool {
    reply.status == NO_ERR ==> match request {
        RequestView::PropertyData { region, .. } => {
            &&& reply.data.kind() == region.kind()
            &&& match (region, reply.data) {
                (
                    RegionView::Blank { kind: PayloadKind::DeviceList, capacity },
                    PayloadView::DeviceList(devices),
                ) => handles_written(reply.size, capacity) <= devices.len() <= capacity,
                _ => true,
            }
        },
        RequestView::CreateIOProcID { .. } => reply.data.kind() == PayloadKind::ProcID,
        _ => true,
    }
}

/// The value that a successful query into `region` has produced. A device
/// list read into blank memory is cut down to the handles that the query
/// reports to have written: what the memory held beyond them was never a
/// handle of the audio subsystem. Any other value is the one that the reply
/// carries.
pub open spec fn delivered(region: RegionView, reply: ReplyView) -> PayloadView {
    match (region, reply.data) {
        (
            RegionView::Blank { kind: PayloadKind::DeviceList, capacity },
            PayloadView::DeviceList(devices),
        ) => PayloadView::DeviceList(
            devices.take(handles_written(reply.size, capacity) as int),
        ),
        _ => reply.data,
    }
}

/// The whole handles that a query has written into a list with room for
/// `capacity` of them, where it reports `size` bytes written.
fn written(size: u32, capacity: usize) -> (n: usize)
    ensures
        n == handles_written(size, capacity),
{
    let whole: u32 = size / DEVICE_ID_SIZE;
    if whole as usize <= capacity {
        whole as usize
    } else {
        capacity
    }
}

impl Reply {
    /// A reply that reports the failure `status`.
    pub fn failure(status: i32) -> (r: Self)
        ensures
            r@ == (ReplyView { status, size: 0, data: PayloadView::Nothing }),
    {
        Reply { status, size: 0, data: Payload::Nothing }
    }

    /// Whether the reply can be what came of `request`.
    pub fn answers(&self, request: &Request) -> (r: bool)
        ensures
            r == answers(self@, request@),
    {
        if self.status != NO_ERR {
            return true;
        }
        match request {
            Request::PropertyData { region, .. } => match region {
                Region::Blank { kind, capacity } => match &self.data {
                    Payload::DeviceList(devices) => match kind {
                        PayloadKind::DeviceList => {
                            written(self.size, *capacity) <= devices.len() && devices.len()
                                <= *capacity
                        },
                        _ => false,
                    },
                    other => other.kind() == *kind,
                },
                Region::Filled(p) => self.data.kind() == p.kind(),
            },
            Request::CreateIOProcID { .. } => self.data.kind() == PayloadKind::ProcID,
            _ => true,
        }
    }
}

/// The teardown commands, whose failure leaves nothing to fall back on.
#[derive(Debug, Clone, Copy, PartialEq, Eq, Structural)]
pub enum Teardown {
    /// Stopping the hardware clock.
    Stop,
    /// Releasing the callback registration.
    Unregister,
    /// Destroying the virtual device.
    Destroy,
}

/// Where a machine stands after a reply.
#[derive(Debug, PartialEq, Eq)]
pub enum Step<M, T> {
    /// The machine goes on, and wants its next request performed.
    Continue(M),
    /// The operation succeeded.
    Done(T),
    /// The operation failed with this error, and whatever had to be undone
    /// has been undone.
    Failed(CFError),
    /// A teardown command failed with this error. The hardware is in a state
    /// from which this library knows no way back.
    Fatal(Teardown, CFError),
}

impl<M: View, T: View> View for Step<M, T> {
    type V = Step<M::V, T::V>;

    open spec fn view(&self) -> Step<M::V, T::V> {
        match self {
            Step::Continue(m) => Step::Continue(m@),
            Step::Done(t) => Step::Done(t@),
            Step::Failed(e) => Step::Failed(*e),
            Step::Fatal(t, e) => Step::Fatal(*t, *e),
        }
    }
}

/// The query that follows a successful size probe for a value of shape
/// `kind`: room for as many whole device handles as `size` bytes hold, or
/// for a buffer list of `size` bytes and never less than the smallest one.
pub open spec fn sized_query(
    kind: PayloadKind,
    object: u32,
    address: PropertyAddress,
    size: u32,
) -> RequestView {
    RequestView::PropertyData {
        object,
        address,
        qualifier: None,
        size,
        region: RegionView::Blank {
            kind,
            capacity: match kind {
                PayloadKind::DeviceList => (size / DEVICE_ID_SIZE) as usize,
                PayloadKind::BufferList => (if size > BUFFER_LIST_SIZE {
                    size
                } else {
                    BUFFER_LIST_SIZE
                }) as usize,
                _ => 1,
            },
        },
    }
}

/// The mathematical value of a [`Transfer`]: the request it waits on, and
/// the shape of the value it is after.
pub struct TransferView {
    pub pending: RequestView,
    pub kind: PayloadKind,
}

impl TransferView {
    /// What the machine does with a reply. A failure ends it with the
    /// reply's status and with no value. A successful size probe leads to
    /// the query that [`sized_query`] describes. A successful write ends it
    /// with nothing, and a successful query with the value that
    /// [`delivered`] describes.
    pub open spec fn advance(self, reply: ReplyView) -> Step<TransferView, PayloadView> {
        if reply.status != NO_ERR {
            Step::Failed(CFError(reply.status))
        } else {
            match self.pending {
                RequestView::PropertyDataSize { object, address } => Step::Continue(
                    TransferView {
                        pending: sized_query(self.kind, object, address, reply.size),
                        kind: self.kind,
                    },
                ),
                RequestView::SetPropertyData { .. } => Step::Done(PayloadView::Nothing),
                RequestView::PropertyData { region, .. } => Step::Done(delivered(region, reply)),
                _ => Step::Done(reply.data),
            }
        }
    }

    /// Whether the request that the machine waits on is one for a value of
    /// the shape it is after: a size probe for a probed shape, a query into
    /// a region of that shape, or a write, which is after nothing.
    pub open spec fn wf(self) -> bool {
        match self.pending {
            RequestView::PropertyDataSize { .. } => is_probed(self.kind),
            RequestView::PropertyData { region, .. } => region.kind() == self.kind,
            RequestView::SetPropertyData { .. } => self.kind == PayloadKind::Nothing,
            _ => false,
        }
    }

    /// Whether the machine ends with the next reply.
    pub open spec fn is_last(self) -> bool {
        !(self.pending is PropertyDataSize)
    }
}

/// One property operation in progress.
#[derive(Debug, PartialEq, Eq)]
pub struct Transfer {
    pending: Request,
    kind: PayloadKind,
}

impl View for Transfer {
    type V = TransferView;

    closed spec fn view(&self) -> TransferView {
        TransferView { pending: self.pending@, kind: self.kind }
    }
}

impl Transfer {
    /// A machine that starts out waiting on `pending` for a value of shape
    /// `kind`.
    pub fn new(pending: Request, kind: PayloadKind) -> (t: Self)
        ensures
            t@ == (TransferView { pending: pending@, kind }),
    {
        Transfer { pending, kind }
    }

    /// The request that the machine wants performed.
    pub fn request(&self) -> (r: &Request)
        ensures
            r@ == self@.pending,
    {
        &self.pending
    }

    /// Takes the reply to the pending request.
    pub fn advance(self, reply: Reply) -> (step: Step<Transfer, Payload>)
        requires
            answers(reply@, self@.pending),
        ensures
            step@ == self@.advance(reply@),
    {
        if reply.status != NO_ERR {
            return Step::Failed(CFError(reply.status));
        }
        match self.pending {
            Request::PropertyDataSize { object, address } => {
                let capacity: usize = match self.kind {
                    PayloadKind::DeviceList => (reply.size / DEVICE_ID_SIZE) as usize,
                    PayloadKind::BufferList => if reply.size > BUFFER_LIST_SIZE {
                        reply.size as usize
                    } else {
                        BUFFER_LIST_SIZE as usize
                    },
                    _ => 1,
                };
                Step::Continue(
                    Transfer {
                        pending: Request::PropertyData {
                            object,
                            address,
                            qualifier: None,
                            size: reply.size,
                            region: Region::Blank { kind: self.kind, capacity },
                        },
                        kind: self.kind,
                    },
                )
            },
            Request::SetPropertyData { .. } => Step::Done(Payload::Nothing),
            Request::PropertyData { region, .. } => match (region, reply.data) {
                (
                    Region::Blank { kind: PayloadKind::DeviceList, capacity },
                    Payload::DeviceList(mut devices),
                ) => {
                    devices.truncate(written(reply.size, capacity));
                    Step::Done(Payload::DeviceList(devices))
                },
                (_, data) => Step::Done(data),
            },
            _ => Step::Done(reply.data),
        }
    }
}

/// Whether a value of shape `kind` is read in two steps: a probe for its
/// size, then a query into memory of that size.
pub open spec fn is_probed(kind: PayloadKind) -> bool {
    kind == PayloadKind::DeviceList || kind == PayloadKind::BufferList
}

/// The bytes that a value of shape `kind` takes, where the shape fixes
/// them.
pub open spec fn fixed_size(kind: PayloadKind) -> u32 {
    match kind {
        PayloadKind::Float64 => FLOAT64_SIZE,
        PayloadKind::Device => DEVICE_ID_SIZE,
        PayloadKind::String => REFERENCE_SIZE,
        PayloadKind::Array => REFERENCE_SIZE,
        PayloadKind::Translation => TRANSLATION_SIZE,
        _ => 0,
    }
}

/// The bytes that a value of shape `kind` takes, where the shape fixes
/// them.
pub fn size_of_kind(kind: PayloadKind) -> (n: u32)
    ensures
        n == fixed_size(kind),
{
    match kind {
        PayloadKind::Float64 => FLOAT64_SIZE,
        PayloadKind::Device => DEVICE_ID_SIZE,
        PayloadKind::String => REFERENCE_SIZE,
        PayloadKind::Array => REFERENCE_SIZE,
        PayloadKind::Translation => TRANSLATION_SIZE,
        _ => 0,
    }
}

/// How a read of a value of shape `kind` begins: with a size probe where
/// the shape is probed, and else with the one query, into blank memory of
/// the shape's size.
pub open spec fn reading(kind: PayloadKind, object: u32, address: PropertyAddress) -> TransferView {
    TransferView {
        pending: if is_probed(kind) {
            RequestView::PropertyDataSize { object, address }
        } else {
            RequestView::PropertyData {
                object,
                address,
                qualifier: None,
                size: fixed_size(kind),
                region: RegionView::Blank { kind, capacity: 1 },
            }
        },
        kind,
    }
}

/// How a qualified read begins: with the one query, which takes the
/// qualifier along.
pub open spec fn reading_qualified(
    kind: PayloadKind,
    object: u32,
    address: PropertyAddress,
    qualifier: Seq<CFEntryView>,
) -> TransferView {
    TransferView {
        pending: RequestView::PropertyData {
            object,
            address,
            qualifier: Some(qualifier),
            size: fixed_size(kind),
            region: RegionView::Blank { kind, capacity: 1 },
        },
        kind,
    }
}

/// How a write begins: with the one write of the value.
pub open spec fn writing(object: u32, address: PropertyAddress, value: PayloadView) -> TransferView {
    TransferView {
        pending: RequestView::SetPropertyData {
            object,
            address,
            size: fixed_size(value.kind()),
            value,
        },
        kind: PayloadKind::Nothing,
    }
}

/// How a translation begins: with the one query, which works in place on
/// the value.
pub open spec fn translating(
    object: u32,
    address: PropertyAddress,
    value: PayloadView,
) -> TransferView {
    TransferView {
        pending: RequestView::PropertyData {
            object,
            address,
            qualifier: None,
            size: fixed_size(value.kind()),
            region: RegionView::Filled(value),
        },
        kind: value.kind(),
    }
}

impl Transfer {
    /// Begins a read of a value of shape `kind`.
    pub fn reading(kind: PayloadKind, object: u32, address: PropertyAddress) -> (t: Self)
        ensures
            t@ == reading(kind, object, address),
    {
        let pending = match kind {
            PayloadKind::DeviceList | PayloadKind::BufferList => Request::PropertyDataSize {
                object,
                address,
            },
            _ => Request::PropertyData {
                object,
                address,
                qualifier: None,
                size: size_of_kind(kind),
                region: Region::Blank { kind, capacity: 1 },
            },
        };
        Transfer::new(pending, kind)
    }

    /// Begins a qualified read of a value of shape `kind`.
    pub fn reading_qualified(
        kind: PayloadKind,
        object: u32,
        address: PropertyAddress,
        qualifier: CFDictionary,
    ) -> (t: Self)
        ensures
            t@ == reading_qualified(kind, object, address, qualifier@),
    {
        Transfer::new(
            Request::PropertyData {
                object,
                address,
                qualifier: Some(qualifier),
                size: size_of_kind(kind),
                region: Region::Blank { kind, capacity: 1 },
            },
            kind,
        )
    }

    /// Begins a write of `value`.
    pub fn writing(object: u32, address: PropertyAddress, value: Payload) -> (t: Self)
        ensures
            t@ == writing(object, address, value@),
    {
        let size = size_of_kind(value.kind());
        Transfer::new(
            Request::SetPropertyData { object, address, size, value },
            PayloadKind::Nothing,
        )
    }

    /// Begins a translation that works in place on `value`.
    pub fn translating(object: u32, address: PropertyAddress, value: Payload) -> (t: Self)
        ensures
            t@ == translating(object, address, value@),
    {
        let kind = value.kind();
        Transfer::new(
            Request::PropertyData {
                object,
                address,
                qualifier: None,
                size: size_of_kind(kind),
                region: Region::Filled(value),
            },
            kind,
        )
    }
}

/// What every machine of this library offers to the caller that drives it:
/// the request to perform, and the step to take with the reply.
pub trait Machine: Sized {
    /// What the machine ends with where it ends well.
    type Output;

    /// The request that the machine waits on.
    spec fn waits_on(&self) -> RequestView;

    /// The request that the machine wants performed.
    fn request(&self) -> (r: &Request)
        ensures
            r@ == self.waits_on(),
    ;

    /// Takes the reply to the pending request.
    fn advance(self, reply: Reply) -> Step<Self, Self::Output>
        requires
            answers(reply@, self.waits_on()),
    ;
}

impl Machine for Transfer {
    type Output = Payload;

    open spec fn waits_on(&self) -> RequestView {
        self@.pending
    }

    fn request(&self) -> (r: &Request) {
        self.request()
    }

    fn advance(self, reply: Reply) -> (step: Step<Self, Payload>)
        ensures
            step@ == self@.advance(reply@),
    {
        self.advance(reply)
    }
}

} // verus!
