//! The macOS hardware layer: which input devices there are, and routing an
//! AudioQueue to one of them.
//!
//! iOS has no such device graph; capture there is routed by AVAudioSession.

use vstd::prelude::*;
use vstd::utf8::{decode_utf8, valid_utf8};

use crate::device::{default_count, entries, DeviceEntry, DeviceInfo};
use crate::protocol::{Opening, Protocol};
use crate::text::{
    between_quotes, c_buffer_text, debug_text, has_nul, is_plain, quoted, signed_decimal,
    signed_decimal_text, until, utf8_lossy,
};

verus! {

broadcast use vstd::string::group_string_axioms;

/// `noErr`.
pub const NO_ERR: i32 = 0;

/// `kAudioObjectSystemObject`.
pub const K_AUDIO_OBJECT_SYSTEM_OBJECT: u32 = 1;

/// `kAudioHardwarePropertyDevices`: `dev#`.
pub const K_AUDIO_HARDWARE_PROPERTY_DEVICES: u32 = 0x6465_7623;

/// `kAudioHardwarePropertyDefaultInputDevice`: `dIn `.
pub const K_AUDIO_HARDWARE_PROPERTY_DEFAULT_INPUT_DEVICE: u32 = 0x6449_6E20;

/// `kAudioObjectPropertyScopeGlobal`: `glob`.
pub const K_AUDIO_OBJECT_PROPERTY_SCOPE_GLOBAL: u32 = 0x676C_6F62;

/// `kAudioObjectPropertyScopeInput`: `inpt`.
pub const K_AUDIO_OBJECT_PROPERTY_SCOPE_INPUT: u32 = 0x696E_7074;

/// `kAudioObjectPropertyElementMain`.
pub const K_AUDIO_OBJECT_PROPERTY_ELEMENT_MAIN: u32 = 0;

/// `kAudioDevicePropertyDeviceUID`: `uid `.
pub const K_AUDIO_DEVICE_PROPERTY_DEVICE_UID: u32 = 0x7569_6420;

/// `kAudioObjectPropertyName`: `lnam`.
pub const K_AUDIO_OBJECT_PROPERTY_NAME: u32 = 0x6C6E_616D;

/// `kAudioDevicePropertyStreamConfiguration`: `slay`.
pub const K_AUDIO_DEVICE_PROPERTY_STREAM_CONFIGURATION: u32 = 0x736C_6179;

/// `kAudioQueueProperty_CurrentDevice`: `aqcd`.
pub const K_AUDIO_QUEUE_PROPERTY_CURRENT_DEVICE: u32 = 0x6171_6364;

/// `kCFStringEncodingUTF8`.
pub const K_CF_STRING_ENCODING_UTF8: u32 = 0x0800_0100;

/// An `AudioObjectPropertyAddress`.
#[derive(Clone, Copy, Debug, PartialEq, Eq)]
pub struct PropertyAddress {
    pub selector: u32,
    pub scope: u32,
    pub element: u32,
}

/// The address of a property in the global scope.
pub open spec fn global_property(selector: u32) -> PropertyAddress {
    PropertyAddress {
        selector,
        scope: K_AUDIO_OBJECT_PROPERTY_SCOPE_GLOBAL,
        element: K_AUDIO_OBJECT_PROPERTY_ELEMENT_MAIN,
    }
}

/// The address of a property in the global scope.
pub fn global_address(selector: u32) -> (address: PropertyAddress)
    ensures
        address == global_property(selector),
{
    PropertyAddress {
        selector,
        scope: K_AUDIO_OBJECT_PROPERTY_SCOPE_GLOBAL,
        element: K_AUDIO_OBJECT_PROPERTY_ELEMENT_MAIN,
    }
}

/// The address of a device's input stream configuration.
pub fn input_streams_address() -> (address: PropertyAddress)
    ensures
        address == (PropertyAddress {
            selector: K_AUDIO_DEVICE_PROPERTY_STREAM_CONFIGURATION,
            scope: K_AUDIO_OBJECT_PROPERTY_SCOPE_INPUT,
            element: K_AUDIO_OBJECT_PROPERTY_ELEMENT_MAIN,
        }),
{
    PropertyAddress {
        selector: K_AUDIO_DEVICE_PROPERTY_STREAM_CONFIGURATION,
        scope: K_AUDIO_OBJECT_PROPERTY_SCOPE_INPUT,
        element: K_AUDIO_OBJECT_PROPERTY_ELEMENT_MAIN,
    }
}

// ---------------------------------------------------------------------------
// Input channels
// ---------------------------------------------------------------------------

/// The number that the four bytes from `at` on hold, lowest byte first.
pub open spec fn u32_at(bytes: Seq<u8>, at: int) -> int {
    bytes[at] + bytes[at + 1] * 0x100 + bytes[at + 2] * 0x1_0000 + bytes[at + 3] * 0x100_0000
}

/// The size of a pointer in bytes.
pub open spec fn pointer_size(wide: bool) -> int {
    if wide {
        8
    } else {
        4
    }
}

/// Where the buffer at `i` of an `AudioBufferList` begins: a 32-bit count,
/// aligned for a pointer, then for each buffer its channel count, its size and
/// a pointer.
pub open spec fn buffer_at(wide: bool, i: int) -> int {
    pointer_size(wide) + i * (8 + pointer_size(wide))
}

/// Whether `bytes` hold an `AudioBufferList` with all the buffers that it
/// counts.
pub open spec fn is_buffer_list(bytes: Seq<u8>, wide: bool) -> bool {
    &&& bytes.len() >= 4
    &&& u32_at(bytes, 0) > 0 ==> bytes.len() >= buffer_at(wide, u32_at(bytes, 0))
}

/// Whether an `AudioBufferList` has at least one channel.
pub open spec fn has_channels(bytes: Seq<u8>, wide: bool) -> bool {
    &&& is_buffer_list(bytes, wide)
    &&& exists|i: int|
        0 <= i < u32_at(bytes, 0) && #[trigger] u32_at(bytes, buffer_at(wide, i)) > 0
}

fn read_u32(bytes: &[u8], at: usize) -> (value: u32)
    requires
        at + 4 <= bytes@.len(),
    ensures
        value == u32_at(bytes@, at as int),
{
    bytes[at] as u32 + bytes[at + 1] as u32 * 0x100 + bytes[at + 2] as u32 * 0x1_0000 + bytes[at
        + 3] as u32 * 0x100_0000
}

/// Whether an `AudioBufferList` has at least one channel. One that ends before
/// its last buffer has none.
pub fn list_has_channels(bytes: &[u8], wide: bool) -> (yes: bool)
    ensures
        yes == has_channels(bytes@, wide),
{
    if bytes.len() < 4 {
        return false;
    }
    let count: u32 = read_u32(bytes, 0);
    let pointer: u64 = if wide {
        8
    } else {
        4
    };
    let stride: u64 = 8 + pointer;
    assert(count * stride <= 0xFFFF_FFFF * 16) by (nonlinear_arith)
        requires
            count <= 0xFFFF_FFFF,
            stride <= 16,
    ;
    if count > 0 && (bytes.len() as u64) < pointer + count as u64 * stride {
        return false;
    }
    let mut i: u32 = 0;
    while i < count
        invariant
            i <= count,
            count == u32_at(bytes@, 0),
            pointer == pointer_size(wide),
            stride == 8 + pointer,
            stride <= 16,
            count > 0 ==> bytes@.len() >= pointer + count * stride,
            is_buffer_list(bytes@, wide),
            bytes@.len() == bytes.len(),
            forall|k: int| 0 <= k < i ==> #[trigger] u32_at(bytes@, buffer_at(wide, k)) == 0,
        decreases count - i,
    {
        assert(count * stride <= 0xFFFF_FFFF * 16) by (nonlinear_arith)
            requires
                count <= 0xFFFF_FFFF,
                stride <= 16,
        ;
        assert(i * stride + stride <= count * stride) by (nonlinear_arith)
            requires
                i < count,
        ;
        let at: usize = (pointer + i as u64 * stride) as usize;
        assert(at == buffer_at(wide, i as int));
        if read_u32(bytes, at) > 0 {
            assert(u32_at(bytes@, buffer_at(wide, i as int)) > 0);
            return true;
        }
        i += 1;
    }
    false
}

/// What to ask next to learn whether a device has input channels, or the
/// answer.
#[derive(Clone, Copy, Debug, PartialEq, Eq)]
pub enum InputQuery {
    /// Whether the device has an input stream configuration.
    HasProperty,
    /// The size of the configuration.
    Size,
    /// The configuration itself, of `size` bytes.
    Data { size: u32 },
    /// The answer.
    Answer(bool),
}

/// What the hardware layer replies.
pub enum InputReply {
    /// `AudioObjectHasProperty`.
    HasProperty(u8),
    /// `AudioObjectGetPropertyDataSize`, and the size that it wrote.
    Size { rc: i32, size: u32 },
    /// `AudioObjectGetPropertyData`, and the bytes that it wrote.
    Data { rc: i32, bytes: Vec<u8> },
}

impl InputQuery {
    /// What follows `reply`: a device counts as an input only where each
    /// question is answered and the configuration has a channel.
    pub open spec fn after(self, reply: InputReply, wide: bool) -> InputQuery {
        match (self, reply) {
            (InputQuery::HasProperty, InputReply::HasProperty(has)) => if has == 0 {
                InputQuery::Answer(false)
            } else {
                InputQuery::Size
            },
            (InputQuery::Size, InputReply::Size { rc, size }) => if rc != NO_ERR || size < 4 {
                InputQuery::Answer(false)
            } else {
                InputQuery::Data { size }
            },
            (InputQuery::Data { size }, InputReply::Data { rc, bytes }) => InputQuery::Answer(
                rc == NO_ERR && has_channels(bytes@, wide),
            ),
            (InputQuery::Answer(answer), _) => InputQuery::Answer(answer),
            _ => InputQuery::Answer(false),
        }
    }

    /// What follows `reply`. `wide` tells whether pointers have 64 bits.
    pub fn next(self, reply: &InputReply, wide: bool) -> (query: InputQuery)
        ensures
            query == self.after(*reply, wide),
    {
        match (self, reply) {
            (InputQuery::HasProperty, InputReply::HasProperty(has)) => if *has == 0 {
                InputQuery::Answer(false)
            } else {
                InputQuery::Size
            },
            (InputQuery::Size, InputReply::Size { rc, size }) => if *rc != NO_ERR || *size < 4 {
                InputQuery::Answer(false)
            } else {
                InputQuery::Data { size: *size }
            },
            (InputQuery::Data { size: _ }, InputReply::Data { rc, bytes }) => InputQuery::Answer(
                *rc == NO_ERR && list_has_channels(bytes.as_slice(), wide),
            ),
            (InputQuery::Answer(answer), _) => InputQuery::Answer(answer),
            _ => InputQuery::Answer(false),
        }
    }
}

/// The default input device by what the system object replies: none where it
/// fails or names no device.
pub open spec fn default_device(rc: i32, id: u32) -> Option<u32> {
    if rc != NO_ERR || id == 0 {
        None
    } else {
        Some(id)
    }
}

/// Reads the system's default input device id, if any, from what the system
/// object replies.
pub fn default_input_device(rc: i32, id: u32) -> (device: Option<u32>)
    ensures
        device == default_device(rc, id),
{
    if rc != NO_ERR || id == 0 {
        None
    } else {
        Some(id)
    }
}

// ---------------------------------------------------------------------------
// Device texts
// ---------------------------------------------------------------------------

/// An optional text by its characters.
pub open spec fn text_of(text: Option<String>) -> Option<Seq<char>> {
    match text {
        Some(text) => Some(text@),
        None => None,
    }
}

/// What to ask next to learn a device's UID or name, or the answer. The hardware
/// layer hands the text out as a string object that has to be released.
pub enum TextQuery {
    /// Whether the device has the property.
    HasProperty,
    /// The string object.
    Value,
    /// The object's own characters, if it keeps them as UTF-8.
    Pointer,
    /// The object's length.
    Length,
    /// The number of bytes that a text of this length takes at most.
    MaxSize { length: isize },
    /// The characters, copied into a buffer of this many bytes.
    Copy { capacity: usize },
    /// Release the object.
    Release { text: Option<String> },
    /// The answer.
    Answer { text: Option<String> },
}

/// A [`TextQuery`] by its texts.
#[verifier::ext_equal]
pub enum TextStage {
    HasProperty,
    Value,
    Pointer,
    Length,
    MaxSize { length: isize },
    Copy { capacity: usize },
    Release { text: Option<Seq<char>> },
    Answer { text: Option<Seq<char>> },
}

/// What the hardware layer and the string object reply.
pub enum TextReply {
    /// `AudioObjectHasProperty`.
    HasProperty(u8),
    /// `AudioObjectGetPropertyData`, and whether the object is null.
    Value { rc: i32, null: bool },
    /// `CFStringGetCStringPtr`: the bytes that it points to, if it is not null.
    Pointer(Option<Vec<u8>>),
    /// `CFStringGetLength`.
    Length(isize),
    /// `CFStringGetMaximumSizeForEncoding`.
    MaxSize(isize),
    /// `CFStringGetCString`, and the buffer that it wrote to.
    Copied { ok: u8, buffer: Vec<u8> },
    /// The object has been released.
    Released,
}

/// The buffer size for a text of at most `max` bytes: one more, for the NUL that
/// ends it.
pub open spec fn copy_capacity(max: isize) -> int {
    if max > 0 {
        max + 1
    } else {
        1
    }
}

impl TextStage {
    /// What follows `reply`. A reply to another question changes nothing.
    pub open spec fn after(self, reply: TextReply) -> TextStage {
        match (self, reply) {
            (TextStage::HasProperty, TextReply::HasProperty(has)) => if has == 0 {
                TextStage::Answer { text: None }
            } else {
                TextStage::Value
            },
            (TextStage::Value, TextReply::Value { rc, null }) => if rc != NO_ERR || null {
                TextStage::Answer { text: None }
            } else {
                TextStage::Pointer
            },
            (TextStage::Pointer, TextReply::Pointer(bytes)) => match bytes {
                Some(bytes) => TextStage::Release {
                    text: Some(utf8_lossy(until(bytes@, 0u8))),
                },
                None => TextStage::Length,
            },
            (TextStage::Length, TextReply::Length(length)) => TextStage::MaxSize { length },
            (TextStage::MaxSize { length }, TextReply::MaxSize(max)) => TextStage::Copy {
                capacity: copy_capacity(max) as usize,
            },
            (TextStage::Copy { capacity }, TextReply::Copied { ok, buffer }) => TextStage::Release {
                text: if ok == 0 {
                    None
                } else {
                    Some(utf8_lossy(until(buffer@, 0u8)))
                },
            },
            (TextStage::Release { text }, TextReply::Released) => TextStage::Answer { text },
            _ => self,
        }
    }

    /// Whether the string object is held, and so has to be released.
    pub open spec fn holds_value(self) -> bool {
        match self {
            TextStage::HasProperty => false,
            TextStage::Value => false,
            TextStage::Answer { .. } => false,
            _ => true,
        }
    }
}

impl View for TextQuery {
    type V = TextStage;

    open spec fn view(&self) -> TextStage {
        match *self {
            TextQuery::HasProperty => TextStage::HasProperty,
            TextQuery::Value => TextStage::Value,
            TextQuery::Pointer => TextStage::Pointer,
            TextQuery::Length => TextStage::Length,
            TextQuery::MaxSize { length } => TextStage::MaxSize { length },
            TextQuery::Copy { capacity } => TextStage::Copy { capacity },
            TextQuery::Release { text } => TextStage::Release { text: text_of(text) },
            TextQuery::Answer { text } => TextStage::Answer { text: text_of(text) },
        }
    }
}

impl TextQuery {
    /// What follows `reply`. A reply to another question changes nothing. Bytes
    /// that are valid UTF-8 up to the NUL that ends them are decoded.
    pub fn next(self, reply: &TextReply) -> (query: TextQuery)
        ensures
            query@ == self@.after(*reply),
            match (self, *reply) {
                (TextQuery::Pointer, TextReply::Pointer(Some(bytes))) => valid_utf8(
                    until(bytes@, 0u8),
                ) ==> query@ == (TextStage::Release {
                    text: Some(decode_utf8(until(bytes@, 0u8))),
                }),
                (TextQuery::Copy { .. }, TextReply::Copied { ok, buffer }) => ok != 0 && valid_utf8(
                    until(buffer@, 0u8),
                ) ==> query@ == (TextStage::Release {
                    text: Some(decode_utf8(until(buffer@, 0u8))),
                }),
                _ => true,
            },
    {
        match (self, reply) {
            (TextQuery::HasProperty, TextReply::HasProperty(has)) => if *has == 0 {
                TextQuery::Answer { text: None }
            } else {
                TextQuery::Value
            },
            (TextQuery::Value, TextReply::Value { rc, null }) => if *rc != NO_ERR || *null {
                TextQuery::Answer { text: None }
            } else {
                TextQuery::Pointer
            },
            (TextQuery::Pointer, TextReply::Pointer(bytes)) => match bytes {
                Some(bytes) => TextQuery::Release { text: Some(c_buffer_text(bytes.as_slice())) },
                None => TextQuery::Length,
            },
            (TextQuery::Length, TextReply::Length(length)) => TextQuery::MaxSize {
                length: *length,
            },
            (TextQuery::MaxSize { length: _ }, TextReply::MaxSize(max)) => TextQuery::Copy {
                capacity: if *max > 0 {
                    *max as usize + 1
                } else {
                    1
                },
            },
            (TextQuery::Copy { capacity: _ }, TextReply::Copied { ok, buffer }) => if *ok == 0 {
                TextQuery::Release { text: None }
            } else {
                TextQuery::Release { text: Some(c_buffer_text(buffer.as_slice())) }
            },
            (TextQuery::Release { text }, TextReply::Released) => TextQuery::Answer { text },
            (query, _) => query,
        }
    }
}

// ---------------------------------------------------------------------------
// Device enumeration
// ---------------------------------------------------------------------------

/// How far an enumeration has come.
#[derive(Clone, Copy, Debug, PartialEq, Eq)]
pub enum ScanStage {
    LoadHal,
    LoadCoreFoundation,
    Default,
    Size,
    Ids { count: usize },
    Input,
    Uid,
    Name,
    Done,
}

/// What an enumeration asks next.
#[derive(Clone, Copy, Debug, PartialEq, Eq)]
pub enum ScanRequest {
    /// Load the hardware layer.
    LoadHal,
    /// Load the library of string objects.
    LoadCoreFoundation,
    /// The default input device.
    DefaultDevice,
    /// The size of the device list.
    Size,
    /// The device list, of `count` ids.
    Ids { count: usize },
    /// Whether the device has input channels (see [`InputQuery`]).
    IsInput { device: u32 },
    /// The device's UID (see [`TextQuery`]).
    Uid { device: u32 },
    /// The device's name (see [`TextQuery`]).
    Name { device: u32 },
    /// Nothing: the list is complete.
    Done,
}

/// What the system replies.
pub enum ScanReply {
    /// Whether the library loaded.
    Loaded(bool),
    /// The result of asking for the default input device, and its id.
    Default { rc: i32, id: u32 },
    /// The result of asking for the size, and the size in bytes.
    Size { rc: i32, size: u32 },
    /// The result of asking for the ids, and the ids.
    Ids { rc: i32, ids: Vec<u32> },
    /// Whether the device has input channels.
    Input(bool),
    /// The device's UID or name, if it has one.
    Text(Option<String>),
}

/// An enumeration by its texts.
#[verifier::ext_equal]
pub struct ScanState {
    pub stage: ScanStage,
    pub default_id: Option<u32>,
    pub ids: Seq<u32>,
    /// The device that is being asked about.
    pub next: nat,
    /// Its UID, once known.
    pub uid: Seq<char>,
    /// The devices listed so far.
    pub list: Seq<DeviceEntry>,
}

/// The list entry of an input device: one without a name shows its UID.
pub open spec fn device_entry(
    default_id: Option<u32>,
    device: u32,
    uid: Seq<char>,
    name: Option<Seq<char>>,
) -> DeviceEntry {
    DeviceEntry {
        id: uid,
        name: match name {
            Some(name) => name,
            None => uid,
        },
        is_default: default_id == Some(device),
    }
}

impl ScanState {
    /// Nothing has been asked yet.
    pub open spec fn start() -> ScanState {
        ScanState {
            stage: ScanStage::LoadHal,
            default_id: None,
            ids: Seq::empty(),
            next: 0,
            uid: Seq::empty(),
            list: Seq::empty(),
        }
    }

    /// The device that is being asked about, where one is, is in the list.
    pub open spec fn in_list(self) -> bool {
        self.stage is Input || self.stage is Uid || self.stage is Name ==> self.next
            < self.ids.len()
    }

    /// What is asked next.
    pub open spec fn request(self) -> ScanRequest {
        match self.stage {
            ScanStage::LoadHal => ScanRequest::LoadHal,
            ScanStage::LoadCoreFoundation => ScanRequest::LoadCoreFoundation,
            ScanStage::Default => ScanRequest::DefaultDevice,
            ScanStage::Size => ScanRequest::Size,
            ScanStage::Ids { count } => ScanRequest::Ids { count },
            ScanStage::Input => ScanRequest::IsInput { device: self.ids[self.next as int] },
            ScanStage::Uid => ScanRequest::Uid { device: self.ids[self.next as int] },
            ScanStage::Name => ScanRequest::Name { device: self.ids[self.next as int] },
            ScanStage::Done => ScanRequest::Done,
        }
    }

    /// Turns to the device at `next`.
    pub open spec fn at_device(self, next: nat) -> ScanState {
        ScanState {
            stage: if next < self.ids.len() {
                ScanStage::Input
            } else {
                ScanStage::Done
            },
            next,
            ..self
        }
    }

    /// What follows `reply`: any failure, and a device list of another length than
    /// asked for, ends the enumeration with what it has; a device without input
    /// channels or without a UID is passed over. A reply to another question
    /// changes nothing.
    pub open spec fn after(self, reply: ScanReply) -> ScanState {
        let ended = ScanState { stage: ScanStage::Done, ..self };
        match (self.stage, reply) {
            (ScanStage::LoadHal, ScanReply::Loaded(loaded)) => if loaded {
                ScanState { stage: ScanStage::LoadCoreFoundation, ..self }
            } else {
                ended
            },
            (ScanStage::LoadCoreFoundation, ScanReply::Loaded(loaded)) => if loaded {
                ScanState { stage: ScanStage::Default, ..self }
            } else {
                ended
            },
            (ScanStage::Default, ScanReply::Default { rc, id }) => ScanState {
                stage: ScanStage::Size,
                default_id: default_device(rc, id),
                ..self
            },
            (ScanStage::Size, ScanReply::Size { rc, size }) => if rc != NO_ERR || size == 0 {
                ended
            } else {
                ScanState { stage: ScanStage::Ids { count: (size / 4) as usize }, ..self }
            },
            (ScanStage::Ids { count }, ScanReply::Ids { rc, ids }) => if rc != NO_ERR || ids@.len()
                != count {
                ended
            } else {
                ScanState { ids: ids@, ..self }.at_device(0)
            },
            (ScanStage::Input, ScanReply::Input(input)) => if input {
                ScanState { stage: ScanStage::Uid, ..self }
            } else {
                self.at_device(self.next + 1)
            },
            (ScanStage::Uid, ScanReply::Text(text)) => match text {
                Some(uid) => ScanState { stage: ScanStage::Name, uid: uid@, ..self },
                None => self.at_device(self.next + 1),
            },
            (ScanStage::Name, ScanReply::Text(text)) => {
                let entry = device_entry(
                    self.default_id,
                    self.ids[self.next as int],
                    self.uid,
                    text_of(text),
                );
                ScanState { list: self.list.push(entry), ..self }.at_device(self.next + 1)
            },
            _ => self,
        }
    }
}

/// An enumeration of the input devices under way.
pub struct HalScan {
    stage: ScanStage,
    default_id: Option<u32>,
    ids: Vec<u32>,
    next: usize,
    uid: String,
    devices: Vec<DeviceInfo>,
}

impl View for HalScan {
    type V = ScanState;

    closed spec fn view(&self) -> ScanState {
        ScanState {
            stage: self.stage,
            default_id: self.default_id,
            ids: self.ids@,
            next: self.next as nat,
            uid: self.uid@,
            list: entries(self.devices@),
        }
    }
}

impl HalScan {
    #[verifier::type_invariant]
    spec fn well_formed(&self) -> bool {
        self@.in_list()
    }

    /// An enumeration that has yet to ask.
    pub fn new() -> (scan: HalScan)
        ensures
            scan@ == ScanState::start(),
    {
        let scan = HalScan {
            stage: ScanStage::LoadHal,
            default_id: None,
            ids: Vec::new(),
            next: 0,
            uid: String::new(),
            devices: Vec::new(),
        };
        assert(entries(scan.devices@) =~= Seq::empty());
        scan
    }

    /// What is asked next.
    pub fn request(&self) -> (request: ScanRequest)
        ensures
            request == self@.request(),
            self@.in_list(),
    {
        proof {
            use_type_invariant(self);
        }
        match self.stage {
            ScanStage::LoadHal => ScanRequest::LoadHal,
            ScanStage::LoadCoreFoundation => ScanRequest::LoadCoreFoundation,
            ScanStage::Default => ScanRequest::DefaultDevice,
            ScanStage::Size => ScanRequest::Size,
            ScanStage::Ids { count } => ScanRequest::Ids { count },
            ScanStage::Input => ScanRequest::IsInput { device: self.ids[self.next] },
            ScanStage::Uid => ScanRequest::Uid { device: self.ids[self.next] },
            ScanStage::Name => ScanRequest::Name { device: self.ids[self.next] },
            ScanStage::Done => ScanRequest::Done,
        }
    }

    /// What was asked for is `reply`.
    pub fn reply(self, reply: ScanReply) -> (scan: HalScan)
        ensures
            scan@ == self@.after(reply),
    {
        proof {
            use_type_invariant(&self);
        }
        let HalScan { stage, default_id, ids, next, uid, mut devices } = self;
        assert(ids@.len() == ids.len());
        match (stage, reply) {
            (ScanStage::LoadHal, ScanReply::Loaded(loaded)) => {
                let stage = if loaded {
                    ScanStage::LoadCoreFoundation
                } else {
                    ScanStage::Done
                };
                HalScan { stage, default_id, ids, next, uid, devices }
            },
            (ScanStage::LoadCoreFoundation, ScanReply::Loaded(loaded)) => {
                let stage = if loaded {
                    ScanStage::Default
                } else {
                    ScanStage::Done
                };
                HalScan { stage, default_id, ids, next, uid, devices }
            },
            (ScanStage::Default, ScanReply::Default { rc, id }) => {
                let default_id = default_input_device(rc, id);
                HalScan { stage: ScanStage::Size, default_id, ids, next, uid, devices }
            },
            (ScanStage::Size, ScanReply::Size { rc, size }) => {
                let stage = if rc != NO_ERR || size == 0 {
                    ScanStage::Done
                } else {
                    ScanStage::Ids { count: (size / 4) as usize }
                };
                HalScan { stage, default_id, ids, next, uid, devices }
            },
            (ScanStage::Ids { count }, ScanReply::Ids { rc, ids: listed }) => {
                if rc != NO_ERR || listed.len() != count {
                    HalScan { stage: ScanStage::Done, default_id, ids, next, uid, devices }
                } else {
                    Self::at_device(default_id, listed, 0, uid, devices)
                }
            },
            (ScanStage::Input, ScanReply::Input(input)) => {
                if input {
                    HalScan { stage: ScanStage::Uid, default_id, ids, next, uid, devices }
                } else {
                    Self::at_device(default_id, ids, next + 1, uid, devices)
                }
            },
            (ScanStage::Uid, ScanReply::Text(text)) => {
                match text {
                    Some(uid) => HalScan {
                        stage: ScanStage::Name,
                        default_id,
                        ids,
                        next,
                        uid,
                        devices,
                    },
                    None => Self::at_device(default_id, ids, next + 1, uid, devices),
                }
            },
            (ScanStage::Name, ScanReply::Text(text)) => {
                let is_default = match default_id {
                    Some(id) => id == ids[next],
                    None => false,
                };
                let name = match text {
                    Some(name) => name,
                    None => uid.clone(),
                };
                let ghost listed = devices@;
                devices.push(DeviceInfo { id: uid.clone(), name, is_default });
                assert(entries(devices@) =~= entries(listed).push(devices@.last()@));
                Self::at_device(default_id, ids, next + 1, uid, devices)
            },
            _ => HalScan { stage, default_id, ids, next, uid, devices },
        }
    }

    /// Turns to the device at `next`.
    fn at_device(
        default_id: Option<u32>,
        ids: Vec<u32>,
        next: usize,
        uid: String,
        devices: Vec<DeviceInfo>,
    ) -> (scan: HalScan)
        ensures
            scan@ == (ScanState {
                stage: ScanStage::Done,
                default_id,
                ids: ids@,
                next: next as nat,
                uid: uid@,
                list: entries(devices@),
            }).at_device(next as nat),
    {
        let stage = if next < ids.len() {
            ScanStage::Input
        } else {
            ScanStage::Done
        };
        HalScan { stage, default_id, ids, next, uid, devices }
    }

    /// Where in the device list the enumeration stands.
    fn position(&self) -> (next: usize)
        ensures
            next == self@.next,
    {
        self.next
    }

    /// The devices listed.
    pub fn into_devices(self) -> (devices: Vec<DeviceInfo>)
        ensures
            entries(devices@) == self@.list,
    {
        self.devices
    }
}

/// What there is to learn about one device.
pub struct HalDevice {
    pub id: u32,
    /// Whether it has input channels.
    pub input: bool,
    pub uid: Option<String>,
    pub name: Option<String>,
}

/// All that an enumeration can ask of a system.
pub struct HalSystem {
    /// Whether the hardware layer loads.
    pub hal_loads: bool,
    /// Whether the library of string objects loads.
    pub core_foundation_loads: bool,
    /// The result of asking for the default input device.
    pub default_rc: i32,
    /// The id of the default input device.
    pub default_id: u32,
    /// The result of asking for the size of the device list.
    pub size_rc: i32,
    /// The size of the device list in bytes.
    pub size: u32,
    /// The result of asking for the device list.
    pub ids_rc: i32,
    /// The devices, in the order of the list.
    pub devices: Vec<HalDevice>,
}

/// The entries of the input devices among `devices`, in order.
pub open spec fn input_entries(default_id: Option<u32>, devices: Seq<HalDevice>) -> Seq<DeviceEntry>
    decreases devices.len(),
{
    if devices.len() == 0 {
        Seq::empty()
    } else {
        let before = input_entries(default_id, devices.drop_last());
        let device = devices.last();
        if device.input && device.uid is Some {
            before.push(
                device_entry(default_id, device.id, device.uid->0@, text_of(device.name)),
            )
        } else {
            before
        }
    }
}

impl HalSystem {
    /// Whether each question before those about single devices is answered, the
    /// device list with as many ids as its size tells.
    pub open spec fn lists_devices(&self) -> bool {
        &&& self.hal_loads
        &&& self.core_foundation_loads
        &&& self.size_rc == NO_ERR
        &&& self.size != 0
        &&& self.ids_rc == NO_ERR
        &&& self.devices@.len() == self.size / 4
    }

    /// The input devices of the system.
    pub open spec fn input_devices(&self) -> Seq<DeviceEntry> {
        if self.lists_devices() {
            input_entries(default_device(self.default_rc, self.default_id), self.devices@)
        } else {
            Seq::empty()
        }
    }

    /// The ids of the devices, in order.
    pub open spec fn ids(&self) -> Seq<u32> {
        Seq::new(self.devices@.len(), |i: int| self.devices@[i].id)
    }

    /// Where an enumeration of this system can stand.
    spec fn reached(&self, scan: ScanState) -> bool {
        let asks_devices = scan.stage is Input || scan.stage is Uid || scan.stage is Name;
        &&& scan.in_list()
        &&& scan.stage is Done ==> scan.list == self.input_devices()
        &&& !(scan.stage is Done || asks_devices) ==> scan.list == Seq::<DeviceEntry>::empty()
        &&& scan.stage is LoadCoreFoundation || scan.stage is Default || scan.stage is Size
            || scan.stage is Ids || asks_devices ==> self.hal_loads
        &&& scan.stage is Default || scan.stage is Size || scan.stage is Ids || asks_devices
            ==> self.core_foundation_loads
        &&& scan.stage is Size || scan.stage is Ids || asks_devices ==> scan.default_id
            == default_device(self.default_rc, self.default_id)
        &&& scan.stage is Ids || asks_devices ==> self.size_rc == NO_ERR && self.size != 0
        &&& scan.stage is Ids ==> scan.stage->count == self.size / 4
        &&& asks_devices ==> {
            &&& self.ids_rc == NO_ERR
            &&& self.devices@.len() == self.size / 4
            &&& scan.ids == self.ids()
            &&& scan.list == input_entries(
                scan.default_id,
                self.devices@.take(scan.next as int),
            )
        }
        &&& scan.stage is Uid || scan.stage is Name ==> self.devices@[scan.next as int].input
        &&& scan.stage is Name ==> {
            &&& self.devices@[scan.next as int].uid is Some
            &&& scan.uid == self.devices@[scan.next as int].uid->0@
        }
    }
}

/// How many questions an enumeration can still ask.
spec fn questions_left(scan: ScanState, devices: int) -> int {
    match scan.stage {
        ScanStage::LoadHal => 3 * devices + 5,
        ScanStage::LoadCoreFoundation => 3 * devices + 4,
        ScanStage::Default => 3 * devices + 3,
        ScanStage::Size => 3 * devices + 2,
        ScanStage::Ids { .. } => 3 * devices + 1,
        ScanStage::Input => 3 * (devices - scan.next),
        ScanStage::Uid => 3 * (devices - scan.next) - 1,
        ScanStage::Name => 3 * (devices - scan.next) - 2,
        ScanStage::Done => 0,
    }
}

fn clone_text(text: &Option<String>) -> (out: Option<String>)
    ensures
        text_of(out) == text_of(*text),
        out is Some == text is Some,
{
    match text {
        Some(text) => Some(text.clone()),
        None => None,
    }
}

/// Enumerates every input-capable device of `system`. Returns an empty Vec on
/// any failure.
pub fn enumerate_input_devices(system: &HalSystem) -> (devices: Vec<DeviceInfo>)
    ensures
        entries(devices@) == system.input_devices(),
{
    let mut scan = HalScan::new();
    let mut request = scan.request();
    let ghost total = system.devices@.len() as int;
    while !matches!(request, ScanRequest::Done)
        invariant
            request == scan@.request(),
            total == system.devices@.len(),
            system.reached(scan@),
        decreases questions_left(scan@, total),
    {
        let ghost before = scan@;
        let ghost next = before.next as int;
        let at: usize = scan.position();
        let reply = match request {
            ScanRequest::LoadHal => ScanReply::Loaded(system.hal_loads),
            ScanRequest::LoadCoreFoundation => ScanReply::Loaded(system.core_foundation_loads),
            ScanRequest::DefaultDevice => ScanReply::Default {
                rc: system.default_rc,
                id: system.default_id,
            },
            ScanRequest::Size => ScanReply::Size { rc: system.size_rc, size: system.size },
            ScanRequest::Ids { count: _ } => ScanReply::Ids {
                rc: system.ids_rc,
                ids: device_ids(&system.devices),
            },
            ScanRequest::IsInput { device: _ } => ScanReply::Input(system.devices[at].input),
            ScanRequest::Uid { device: _ } => ScanReply::Text(
                clone_text(&system.devices[at].uid),
            ),
            ScanRequest::Name { device: _ } => ScanReply::Text(
                clone_text(&system.devices[at].name),
            ),
            ScanRequest::Done => ScanReply::Loaded(false),
        };
        scan = scan.reply(reply);
        request = scan.request();
        proof {
            if before.stage is Ids {
                assert(system.devices@.take(0) =~= Seq::empty());
                if total == 0 {
                    assert(system.devices@ =~= Seq::empty());
                }
            }
            if before.stage is Input || before.stage is Uid || before.stage is Name {
                let seen = system.devices@.take(next + 1);
                assert(seen.drop_last() =~= system.devices@.take(next));
                assert(seen.last() == system.devices@[next]);
                if next + 1 == total {
                    assert(seen =~= system.devices@);
                }
            }
        }
    }
    scan.into_devices()
}

/// The ids of `devices`, in order.
fn device_ids(devices: &Vec<HalDevice>) -> (ids: Vec<u32>)
    ensures
        ids@ == Seq::new(devices@.len(), |i: int| devices@[i].id),
{
    let mut ids: Vec<u32> = Vec::new();
    let mut i: usize = 0;
    while i < devices.len()
        invariant
            i <= devices.len(),
            ids@ == Seq::new(i as nat, |k: int| devices@[k].id),
        decreases devices.len() - i,
    {
        ids.push(devices[i].id);
        i += 1;
        assert(ids@ =~= Seq::new(i as nat, |k: int| devices@[k].id));
    }
    ids
}

// ---------------------------------------------------------------------------
// Device selection
// ---------------------------------------------------------------------------

/// A call that routes a queue to a device.
#[derive(Clone, Copy, Debug, PartialEq, Eq)]
pub enum RouteCall {
    /// Load the library of string objects.
    LoadCoreFoundation,
    /// `CFStringCreateWithCString`, of the device's UID.
    CreateString,
    /// `AudioQueueSetProperty`, of this property to the string object.
    SetProperty { property: u32 },
    /// `CFRelease`, of the string object.
    ReleaseString,
}

/// What such a call answers.
pub enum RouteReply {
    /// Whether the library loaded, or why not.
    Loaded(Result<(), String>),
    /// Whether there is a string object.
    Created { null: bool },
    /// The status of setting the property.
    Status(i32),
    /// The string object has been released.
    Released,
}

/// Routing an input queue to the device with this UID.
pub struct DeviceRoute {
    pub uid: String,
}

impl DeviceRoute {
    /// Why the routing to a device whose UID shows as `shown` ended with `reply`
    /// to the call at `index`.
    pub open spec fn message(index: int, reply: RouteReply, shown: Seq<char>) -> Seq<char> {
        match reply {
            RouteReply::Loaded(Err(message)) if index == 0 => message@,
            RouteReply::Loaded(Ok(_)) if index == 0 => "failed to create CFString for device UID "@
                + shown,
            RouteReply::Created { .. } if index == 1 => "failed to create CFString for device UID "@
                + shown,
            RouteReply::Status(rc) if index == 2 => "AudioQueueSetProperty(CurrentDevice="@ + shown
                + "): "@ + signed_decimal(rc as int),
            _ => "unexpected reply"@,
        }
    }

    /// Why the routing to a device whose UID shows as `shown` ended with `reply`
    /// to the call at `index`.
    pub fn error_message(index: usize, reply: &RouteReply, shown: &str) -> (message: String)
        ensures
            message@ == Self::message(index as int, *reply, shown@),
    {
        match reply {
            RouteReply::Loaded(Err(message)) if index == 0 => message.clone(),
            RouteReply::Loaded(Ok(_)) if index == 0 => String::from_str(
                "failed to create CFString for device UID ",
            ).concat(shown),
            RouteReply::Created { null: _ } if index == 1 => String::from_str(
                "failed to create CFString for device UID ",
            ).concat(shown),
            RouteReply::Status(rc) if index == 2 => String::from_str(
                "AudioQueueSetProperty(CurrentDevice=",
            ).concat(shown).concat("): ").concat(signed_decimal_text(*rc as i64).as_str()),
            _ => String::from_str("unexpected reply"),
        }
    }
}

impl Protocol for DeviceRoute {
    type Call = RouteCall;

    type Reply = RouteReply;

    open spec fn calls(&self) -> Seq<RouteCall> {
        seq![
            RouteCall::LoadCoreFoundation,
            RouteCall::CreateString,
            RouteCall::SetProperty { property: K_AUDIO_QUEUE_PROPERTY_CURRENT_DEVICE },
            RouteCall::ReleaseString,
        ]
    }

    /// A UID that holds a NUL has no string object; it is known before one is
    /// asked for. A reply that is none to the call fails too.
    open spec fn fails(&self, index: int, reply: RouteReply) -> bool {
        match reply {
            RouteReply::Loaded(result) => index != 0 || result is Err || self.uid@.contains('\0'),
            RouteReply::Created { null } => index != 1 || null,
            RouteReply::Status(rc) => index != 2 || rc != NO_ERR,
            RouteReply::Released => index != 3,
        }
    }

    open spec fn releases(&self, failed: int) -> Seq<RouteCall> {
        if failed == 2 {
            seq![RouteCall::ReleaseString]
        } else {
            Seq::empty()
        }
    }

    open spec fn in_range(&self, index: int) -> bool {
        true
    }

    fn call(&self, index: usize) -> (call: Option<RouteCall>) {
        match index {
            0 => Some(RouteCall::LoadCoreFoundation),
            1 => Some(RouteCall::CreateString),
            2 => Some(RouteCall::SetProperty { property: K_AUDIO_QUEUE_PROPERTY_CURRENT_DEVICE }),
            3 => Some(RouteCall::ReleaseString),
            _ => None,
        }
    }

    fn failed(&self, index: usize, reply: &RouteReply) -> (failed: bool) {
        match reply {
            RouteReply::Loaded(result) => index != 0 || result.is_err() || has_nul(
                self.uid.as_str(),
            ),
            RouteReply::Created { null } => index != 1 || *null,
            RouteReply::Status(rc) => index != 2 || *rc != NO_ERR,
            RouteReply::Released => index != 3,
        }
    }

    fn release(&self, failed: usize, index: usize) -> (call: Option<RouteCall>) {
        if failed == 2 && index == 0 {
            Some(RouteCall::ReleaseString)
        } else {
            None
        }
    }
}

/// Begins to route an already-created input queue to the device with UID `uid`.
pub fn set_queue_device(uid: &str) -> (routing: Opening<DeviceRoute>)
    ensures
        routing.spec_protocol().uid@ == uid@,
        routing.progress() == crate::protocol::Progress::<RouteReply>::start(),
{
    Opening::new(DeviceRoute { uid: String::from_str(uid) })
}

/// How the routing ended, and why where it failed.
pub fn finish_routing(routing: &Opening<DeviceRoute>) -> (outcome: Result<(), String>)
    requires
        routing.progress().ended(routing.spec_protocol()),
    ensures
        match outcome {
            Ok(_) => !routing.progress().failed,
            Err(message) => {
                let uid = routing.spec_protocol().uid@;
                let index = routing.progress().replies.len() - 1;
                let reply = routing.progress().last_reply();
                &&& routing.progress().failed
                &&& message@ == DeviceRoute::message(index, reply, quoted(uid))
                &&& is_plain(uid) ==> message@ == DeviceRoute::message(
                    index,
                    reply,
                    between_quotes(uid),
                )
            },
        },
{
    match routing.failure() {
        Some(index) => {
            let shown = debug_text(routing.protocol().uid.as_str());
            Err(DeviceRoute::error_message(index, &routing.replies()[index], shown.as_str()))
        },
        None => Ok(()),
    }
}

// ---------------------------------------------------------------------------
// Laws
// ---------------------------------------------------------------------------

/// A device is an input exactly where it has an input stream configuration that
/// can be read and has a channel; the three questions in a row tell.
pub proof fn law_input_query(
    has: u8,
    size_rc: i32,
    size: u32,
    data_rc: i32,
    bytes: Vec<u8>,
    wide: bool,
)
    ensures
        InputQuery::HasProperty.after(InputReply::HasProperty(has), wide).after(
            InputReply::Size { rc: size_rc, size },
            wide,
        ).after(InputReply::Data { rc: data_rc, bytes }, wide) == InputQuery::Answer(
            has != 0 && size_rc == NO_ERR && size >= 4 && data_rc == NO_ERR && has_channels(
                bytes@,
                wide,
            ),
        ),
{
}

/// The text that a device's property holds, by all that can be asked about it:
/// the object's own characters where it keeps them as UTF-8, else those that it
/// copies out.
pub open spec fn property_text(
    has: u8,
    rc: i32,
    null: bool,
    pointer: Option<Seq<u8>>,
    ok: u8,
    buffer: Seq<u8>,
) -> Option<Seq<char>> {
    if has == 0 || rc != NO_ERR || null {
        None
    } else {
        match pointer {
            Some(bytes) => Some(utf8_lossy(until(bytes, 0u8))),
            None => if ok == 0 {
                None
            } else {
                Some(utf8_lossy(until(buffer, 0u8)))
            },
        }
    }
}

/// The questions in a row tell the text that a device's property holds.
pub proof fn law_text_query(
    has: u8,
    rc: i32,
    null: bool,
    pointer: Option<Vec<u8>>,
    length: isize,
    max: isize,
    ok: u8,
    buffer: Vec<u8>,
)
    ensures
        TextStage::HasProperty.after(TextReply::HasProperty(has)).after(
            TextReply::Value { rc, null },
        ).after(TextReply::Pointer(pointer)).after(TextReply::Length(length)).after(
            TextReply::MaxSize(max),
        ).after(TextReply::Copied { ok, buffer }).after(TextReply::Released) == (
        TextStage::Answer {
            text: property_text(
                has,
                rc,
                null,
                match pointer {
                    Some(bytes) => Some(bytes@),
                    None => None,
                },
                ok,
                buffer@,
            ),
        }),
{
}

/// The string object is held from the reply that hands it out until it is
/// released, and no longer: no answer comes while it is held, and what ends its
/// being held is its release.
pub proof fn law_text_query_releases_value(stage: TextStage, reply: TextReply)
    ensures
        !TextStage::HasProperty.holds_value(),
        !stage.holds_value() && stage.after(reply).holds_value() ==> reply is Value
            && reply->Value_rc == NO_ERR && !reply->null,
        stage.holds_value() && !stage.after(reply).holds_value() ==> stage is Release
            && reply is Released,
        stage.holds_value() ==> stage !is Answer,
{
}

/// The positions of the devices that are listed, in order.
pub open spec fn listed_positions(devices: Seq<HalDevice>) -> Seq<int>
    decreases devices.len(),
{
    if devices.len() == 0 {
        Seq::empty()
    } else {
        let before = listed_positions(devices.drop_last());
        if devices.last().input && devices.last().uid is Some {
            before.push(devices.len() - 1)
        } else {
            before
        }
    }
}

/// The list holds one entry for each device that has input channels and a UID,
/// in order, and no others.
pub proof fn law_list_is_complete(default_id: Option<u32>, devices: Seq<HalDevice>)
    ensures
        ({
            let list = input_entries(default_id, devices);
            let positions = listed_positions(devices);
            &&& list.len() == positions.len()
            &&& forall|k: int|
                0 <= k < list.len() ==> {
                    let device = devices[#[trigger] positions[k]];
                    &&& 0 <= positions[k] < devices.len()
                    &&& device.input
                    &&& device.uid is Some
                    &&& list[k] == device_entry(
                        default_id,
                        device.id,
                        device.uid->0@,
                        text_of(device.name),
                    )
                }
            &&& forall|j: int, k: int| 0 <= j < k < list.len() ==> positions[j] < positions[k]
            &&& forall|i: int|
                0 <= i < devices.len() && (#[trigger] devices[i]).input && devices[i].uid is Some
                    ==> positions.contains(i)
        }),
    decreases devices.len(),
{
    if devices.len() > 0 {
        let earlier = devices.drop_last();
        law_list_is_complete(default_id, earlier);
        let positions = listed_positions(devices);
        let before = listed_positions(earlier);
        assert forall|i: int|
            0 <= i < devices.len() && (#[trigger] devices[i]).input
                && devices[i].uid is Some implies positions.contains(i) by {
            if i < devices.len() - 1 {
                assert(earlier[i] == devices[i]);
                let k = choose|k: int| 0 <= k < before.len() && before[k] == i;
                assert(positions[k] == i);
            } else {
                assert(positions.last() == i);
            }
        }
    }
}

proof fn lemma_no_default(default_id: Option<u32>, devices: Seq<HalDevice>)
    requires
        forall|i: int| 0 <= i < devices.len() ==> default_id != Some((#[trigger] devices[i]).id),
    ensures
        default_count(input_entries(default_id, devices)) == 0,
    decreases devices.len(),
{
    if devices.len() > 0 {
        lemma_no_default(default_id, devices.drop_last());
        let list = input_entries(default_id, devices);
        let before = input_entries(default_id, devices.drop_last());
        if list.len() > before.len() {
            assert(list.drop_last() =~= before);
        }
    }
}

/// At most one listed device is marked as the default, and one is exactly where
/// the default device is listed: every device has its own id.
pub proof fn law_one_default(default_id: Option<u32>, devices: Seq<HalDevice>)
    requires
        forall|i: int, j: int| 0 <= i < j < devices.len() ==> devices[i].id != devices[j].id,
    ensures
        default_count(input_entries(default_id, devices)) <= 1,
        default_count(input_entries(default_id, devices)) == 1 <==> exists|i: int|
            0 <= i < devices.len() && (#[trigger] devices[i]).input && devices[i].uid is Some
                && default_id == Some(devices[i].id),
    decreases devices.len(),
{
    if devices.len() > 0 {
        let earlier = devices.drop_last();
        let list = input_entries(default_id, devices);
        let before = input_entries(default_id, earlier);
        law_one_default(default_id, earlier);
        if list.len() > before.len() {
            assert(list.drop_last() =~= before);
        }
        if default_id == Some(devices.last().id) {
            lemma_no_default(default_id, earlier);
        }
        if default_count(before) == 1 {
            let i = choose|i: int|
                0 <= i < earlier.len() && (#[trigger] earlier[i]).input && earlier[i].uid is Some
                    && default_id == Some(earlier[i].id);
            assert(devices[i] == earlier[i]);
        }
        assert forall|i: int|
            0 <= i < devices.len() && (#[trigger] devices[i]).input && devices[i].uid is Some
                && default_id == Some(devices[i].id) implies default_count(list) == 1 by {
            if i < devices.len() - 1 {
                assert(earlier[i] == devices[i]);
            }
        }
        if default_count(list) == 1 && default_count(before) == 0 {
            assert(devices[devices.len() - 1].input);
        }
    }
}

/// Routing leaves no string object behind and releases none twice: where setting
/// the property fails the object is released, where it succeeds releasing it is
/// the last call, and before there is one none is released.
pub proof fn law_route_releases_string(route: DeviceRoute, failed: int, reply: RouteReply)
    requires
        0 <= failed < route.calls().len(),
        route.fails(failed, reply),
    ensures
        route.releases(failed).contains(RouteCall::ReleaseString) <==> failed == 2,
        route.releases(failed).len() <= 1,
        forall|i: int|
            0 <= i < route.calls().len() ==> ((#[trigger] route.calls()[i])
                == RouteCall::ReleaseString <==> i == 3),
{
    if failed == 2 {
        assert(route.releases(failed)[0] == RouteCall::ReleaseString);
    }
}

/// A number is stored lowest byte first: each of the four bytes tells its place
/// of the number, and together they tell all of it.
pub proof fn law_u32_at(bytes: Seq<u8>, at: int)
    ensures
        0 <= u32_at(bytes, at) <= u32::MAX,
        u32_at(bytes, at) % 0x100 == bytes[at],
        u32_at(bytes, at) / 0x100 % 0x100 == bytes[at + 1],
        u32_at(bytes, at) / 0x1_0000 % 0x100 == bytes[at + 2],
        u32_at(bytes, at) / 0x100_0000 == bytes[at + 3],
{
}

proof fn lemma_buffer_at(wide: bool, i: int)
    ensures
        wide ==> buffer_at(wide, i) == 8 + 16 * i,
        !wide ==> buffer_at(wide, i) == 4 + 12 * i,
{
    let pointer = pointer_size(wide);
    if wide {
        assert(i * (8 + pointer) == 16 * i) by (nonlinear_arith)
            requires
                pointer == 8,
        ;
    } else {
        assert(i * (8 + pointer) == 12 * i) by (nonlinear_arith)
            requires
                pointer == 4,
        ;
    }
}

/// A buffer list that is whole makes its device an input where any buffer of it,
/// wherever it stands in the list, has a channel count other than zero. With
/// 64-bit pointers buffers begin at the eighth byte and take sixteen bytes each,
/// with 32-bit ones they begin at the fourth and take twelve.
pub proof fn law_any_channel_makes_an_input(bytes: Seq<u8>, wide: bool, i: int)
    requires
        bytes.len() >= 4,
        0 <= i < u32_at(bytes, 0),
        wide ==> bytes.len() >= 8 + 16 * u32_at(bytes, 0),
        !wide ==> bytes.len() >= 4 + 12 * u32_at(bytes, 0),
        ({
            let at = if wide {
                8 + 16 * i
            } else {
                4 + 12 * i
            };
            bytes[at] != 0 || bytes[at + 1] != 0 || bytes[at + 2] != 0 || bytes[at + 3] != 0
        }),
    ensures
        has_channels(bytes, wide),
{
    lemma_buffer_at(wide, i);
    lemma_buffer_at(wide, u32_at(bytes, 0));
    assert(u32_at(bytes, buffer_at(wide, i)) > 0);
}

/// A buffer list that is cut short makes no input, and neither does one in which
/// every byte that belongs to a channel count is zero.
pub proof fn law_no_channel_makes_no_input(bytes: Seq<u8>, wide: bool)
    requires
        ({
            let count = u32_at(bytes, 0);
            ||| bytes.len() < 4
            ||| count > 0 && wide && bytes.len() < 8 + 16 * count
            ||| count > 0 && !wide && bytes.len() < 4 + 12 * count
            ||| wide && forall|k: int|
                8 <= k < 8 + 16 * count && (k - 8) % 16 < 4 ==> #[trigger] bytes[k] == 0
            ||| !wide && forall|k: int|
                4 <= k < 4 + 12 * count && (k - 4) % 12 < 4 ==> #[trigger] bytes[k] == 0
        }),
    ensures
        !has_channels(bytes, wide),
{
    if has_channels(bytes, wide) {
        let count = u32_at(bytes, 0);
        let i = choose|i: int|
            0 <= i < count && #[trigger] u32_at(bytes, buffer_at(wide, i)) > 0;
        let at = buffer_at(wide, i);
        lemma_buffer_at(wide, i);
        lemma_buffer_at(wide, count);
        assert(bytes[at] == 0 && bytes[at + 1] == 0 && bytes[at + 2] == 0 && bytes[at + 3] == 0);
    }
}

/// The configuration is asked for by the size that was told, whatever it is, but
/// for one too small to hold a count.
pub proof fn law_configuration_is_asked_whole(size: u32, wide: bool)
    ensures
        size >= 4 ==> InputQuery::Size.after(InputReply::Size { rc: 0, size }, wide)
            == (InputQuery::Data { size }),
        size < 4 ==> InputQuery::Size.after(InputReply::Size { rc: 0, size }, wide)
            == InputQuery::Answer(false),
{
}

/// The default device is the one that the system names, whichever it is, and none
/// where it names none or fails.
pub proof fn law_default_device(rc: i32, id: u32)
    ensures
        rc == 0 && id != 0 ==> default_device(rc, id) == Some(id),
        rc != 0 || id == 0 ==> default_device(rc, id) is None,
{
}

/// A text that has to be copied is asked for whole: by its own length, and into a
/// buffer with room for its largest size and the NUL that ends it.
pub proof fn law_text_is_copied_whole(length: isize, max: isize)
    ensures
        TextStage::Length.after(TextReply::Length(length)) == (TextStage::MaxSize { length }),
        ({
            let next = (TextStage::MaxSize { length }).after(TextReply::MaxSize(max));
            &&& next is Copy
            &&& max >= 0 ==> next->capacity == max + 1
            &&& max < 0 ==> next->capacity == 1
        }),
{
}

/// An entry by its fields: its id is the UID, its name is the name that the device
/// reports wherever it reports one, default or not, and the UID only where it
/// reports none; it is marked exactly where the device is the default one.
pub proof fn law_entry_shows_the_device(
    default_id: Option<u32>,
    device: u32,
    uid: Seq<char>,
    name: Option<Seq<char>>,
)
    ensures
        ({
            let entry = device_entry(default_id, device, uid, name);
            &&& entry.id == uid
            &&& name is Some ==> entry.name == name->0
            &&& name is None ==> entry.name == uid
            &&& entry.is_default <==> default_id is Some && default_id->0 == device
        }),
{
}

/// What an enumeration lists of a system, by its fields. Where the libraries load
/// and the device list can be read, each device with input channels and a UID is
/// listed, in order and once: its id is its UID, its name the one that it reports,
/// default or not, or its UID where it reports none, and it is marked exactly where
/// the system names it as the default. Otherwise nothing is listed.
pub proof fn law_enumeration_lists_every_input(system: HalSystem)
    ensures
        ({
            let list = system.input_devices();
            let devices = system.devices@;
            let positions = listed_positions(devices);
            let readable = system.hal_loads && system.core_foundation_loads && system.size_rc == 0
                && system.size > 0 && system.ids_rc == 0 && devices.len() == system.size / 4;
            &&& !readable ==> list.len() == 0
            &&& readable ==> list.len() == positions.len()
            &&& readable ==> forall|k: int|
                0 <= k < list.len() ==> {
                    let device = devices[#[trigger] positions[k]];
                    &&& 0 <= positions[k] < devices.len()
                    &&& device.input
                    &&& device.uid is Some
                    &&& list[k].id == device.uid->0@
                    &&& device.name is Some ==> list[k].name == device.name->0@
                    &&& device.name is None ==> list[k].name == device.uid->0@
                    &&& list[k].is_default <==> system.default_rc == 0 && system.default_id != 0
                        && device.id == system.default_id
                }
            &&& forall|j: int, k: int|
                0 <= j < k < positions.len() ==> positions[j] < positions[k]
            &&& forall|i: int|
                0 <= i < devices.len() && (#[trigger] devices[i]).input && devices[i].uid is Some
                    ==> positions.contains(i)
        }),
{
    law_list_is_complete(
        default_device(system.default_rc, system.default_id),
        system.devices@,
    );
}

/// How an enumeration goes on from each question, whatever the answer: any failure
/// ends it, the list is asked for by as many ids as its size tells, every device of
/// the list is asked about in turn, and one is listed only once its UID and its
/// name were asked for.
pub proof fn law_scan_steps(
    scan: ScanState,
    ok: bool,
    rc: i32,
    n: u32,
    ids: Vec<u32>,
    text: Option<String>,
)
    ensures
        ({
            let after = scan.after(ScanReply::Loaded(ok));
            &&& scan.stage is LoadHal && ok ==> after.stage is LoadCoreFoundation
            &&& scan.stage is LoadHal && !ok ==> after.stage is Done
            &&& scan.stage is LoadCoreFoundation && ok ==> after.stage is Default
            &&& scan.stage is LoadCoreFoundation && !ok ==> after.stage is Done
            &&& after.list == scan.list
        }),
        scan.stage is Default ==> {
            let after = scan.after(ScanReply::Default { rc, id: n });
            &&& after.stage is Size
            &&& rc == 0 && n != 0 ==> after.default_id == Some(n)
            &&& rc != 0 || n == 0 ==> after.default_id is None
            &&& after.list == scan.list
        },
        scan.stage is Size ==> {
            let after = scan.after(ScanReply::Size { rc, size: n });
            &&& rc == 0 && n > 0 ==> after.stage is Ids && 4 * after.stage->count <= n < 4
                * after.stage->count + 4
            &&& rc != 0 || n == 0 ==> after.stage is Done
            &&& after.default_id == scan.default_id
            &&& after.list == scan.list
        },
        scan.stage is Ids ==> {
            let after = scan.after(ScanReply::Ids { rc, ids });
            &&& rc == 0 && ids@.len() == scan.stage->count && ids@.len() > 0 ==> {
                &&& after.stage is Input
                &&& after.ids == ids@
                &&& after.next == 0
            }
            &&& rc != 0 || ids@.len() != scan.stage->count || ids@.len() == 0
                ==> after.stage is Done
            &&& after.default_id == scan.default_id
            &&& after.list == scan.list
        },
        scan.stage is Input ==> {
            let after = scan.after(ScanReply::Input(ok));
            &&& ok ==> after.stage is Uid && after.next == scan.next
            &&& !ok ==> after.next == scan.next + 1
            &&& !ok ==> if scan.next + 1 < scan.ids.len() {
                after.stage is Input
            } else {
                after.stage is Done
            }
            &&& after.ids == scan.ids && after.default_id == scan.default_id
            &&& after.list == scan.list
        },
        scan.stage is Uid ==> {
            let after = scan.after(ScanReply::Text(text));
            &&& text is Some ==> after.stage is Name && after.next == scan.next && after.uid
                == text->0@
            &&& text is None ==> after.next == scan.next + 1
            &&& text is None ==> if scan.next + 1 < scan.ids.len() {
                after.stage is Input
            } else {
                after.stage is Done
            }
            &&& after.ids == scan.ids && after.default_id == scan.default_id
            &&& after.list == scan.list
        },
        scan.stage is Name ==> {
            let after = scan.after(ScanReply::Text(text));
            &&& after.next == scan.next + 1
            &&& if scan.next + 1 < scan.ids.len() {
                after.stage is Input
            } else {
                after.stage is Done
            }
            &&& after.ids == scan.ids && after.default_id == scan.default_id
            &&& after.list.len() == scan.list.len() + 1
            &&& after.list.drop_last() == scan.list
            &&& after.list.last().id == scan.uid
            &&& text is Some ==> after.list.last().name == text->0@
            &&& text is None ==> after.list.last().name == scan.uid
            &&& after.list.last().is_default <==> scan.default_id == Some(
                scan.ids[scan.next as int],
            )
        },
        scan.stage is Input ==> scan.request() == (ScanRequest::IsInput {
            device: scan.ids[scan.next as int],
        }),
        scan.stage is Uid ==> scan.request() == (ScanRequest::Uid {
            device: scan.ids[scan.next as int],
        }),
        scan.stage is Name ==> scan.request() == (ScanRequest::Name {
            device: scan.ids[scan.next as int],
        }),
        scan.stage is Done ==> scan.request() is Done,
{
    if scan.stage is Name {
        let after = scan.after(ScanReply::Text(text));
        assert(after.list.drop_last() =~= scan.list);
    }
}

/// A routing loads the string library, makes a string of the UID, sets it as the
/// queue's current device and releases it. It fails where the library does not
/// load, where the UID holds a NUL, where no string is made, and with any status
/// but zero; no other reply to its calls fails it, whatever the UID.
pub proof fn law_routing_replies_decide(
    route: DeviceRoute,
    loaded: Result<(), String>,
    null: bool,
    rc: i32,
)
    ensures
        route.calls().len() == 4,
        route.calls()[0] is LoadCoreFoundation,
        route.calls()[1] is CreateString,
        route.calls()[2] == (RouteCall::SetProperty { property: 0x6171_6364 }),
        route.calls()[3] is ReleaseString,
        route.fails(0, RouteReply::Loaded(loaded)) <==> loaded is Err || route.uid@.contains('\0'),
        route.fails(1, RouteReply::Created { null }) <==> null,
        route.fails(2, RouteReply::Status(rc)) <==> rc != 0,
        !route.fails(3, RouteReply::Released),
{
}

/// Whatever the UID and the status, the message of a failed routing shows the UID
/// and what failed.
pub proof fn law_routing_message(error: String, rc: i32, shown: Seq<char>)
    ensures
        DeviceRoute::message(0, RouteReply::Loaded(Err(error)), shown) == error@,
        DeviceRoute::message(0, RouteReply::Loaded(Ok(())), shown)
            == "failed to create CFString for device UID "@ + shown,
        DeviceRoute::message(1, RouteReply::Created { null: true }, shown)
            == "failed to create CFString for device UID "@ + shown,
        DeviceRoute::message(2, RouteReply::Status(rc), shown)
            == "AudioQueueSetProperty(CurrentDevice="@ + shown + "): "@ + signed_decimal(rc as int),
{
}

/// Every property is asked for by its own selector, of the main element and in the
/// global scope.
pub proof fn law_global_property(selector: u32)
    ensures
        global_property(selector).selector == selector,
        global_property(selector).scope == 0x676C_6F62,
        global_property(selector).element == 0,
{
}

} // verus!
