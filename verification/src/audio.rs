//! Model of the audio subsystem as seen by the deck: devices, application
//! streams, a snapshot of the whole session, and the mutations the deck can
//! ask for.
//!
//! Volumes are kept in the subsystem's native scale, where
//! [`VOLUME_NORMAL`] is 100%.  The control surface speaks in 7-bit levels
//! (0 to 127); the conversions between the two scales live here.
use vstd::prelude::*;

verus! {

/// Native volume value meaning 100%.
pub const VOLUME_NORMAL: u32 = 0x10000;

/// Whether a device is an output (sink) or an input (source).
#[derive(Clone, Copy, Debug, PartialEq, Eq, Structural)]
pub enum DeviceKind {
    Sink,
    Source,
}

/// Mathematical model of a device: its stable index, per-channel native
/// volume, mute flag, and the name used for default-device assignment.
#[verifier::ext_equal]
pub struct DeviceModel {
    pub index: u32,
    pub channels: Seq<u32>,
    pub mute: bool,
    pub name: Option<Seq<char>>,
}

/// Mathematical model of one key/value entry of a stream's property bag.
#[verifier::ext_equal]
pub struct PropModel {
    pub key: Seq<char>,
    pub value: Seq<char>,
}

/// Mathematical model of a running application stream.
#[verifier::ext_equal]
pub struct StreamModel {
    pub index: u32,
    pub props: Seq<PropModel>,
    pub channels: Seq<u32>,
    pub mute: bool,
}

/// Mathematical model of one snapshot of the audio session set.
#[verifier::ext_equal]
pub struct AudioModel {
    pub sinks: Seq<DeviceModel>,
    pub sources: Seq<DeviceModel>,
    pub streams: Seq<StreamModel>,
    pub default_sink: u32,
    pub default_source: u32,
}

/// A device or application stream of the audio subsystem, as plain values.
pub struct Device {
    pub index: u32,
    pub channels: Vec<u32>,
    pub mute: bool,
    pub name: Option<String>,
}

/// One key/value entry of a stream's property bag.
pub struct Prop {
    pub key: String,
    pub value: String,
}

/// A running application stream: an index, a property bag, and its volume
/// and mute state.
pub struct AppStream {
    pub index: u32,
    pub props: Vec<Prop>,
    pub channels: Vec<u32>,
    pub mute: bool,
}

/// A snapshot of the audio subsystem: every sink, source and application
/// stream, and the current default device of each kind (by device index).
pub struct AudioState {
    pub sinks: Vec<Device>,
    pub sources: Vec<Device>,
    pub streams: Vec<AppStream>,
    pub default_sink: u32,
    pub default_source: u32,
}

pub open spec fn name_model(name: Option<String>) -> Option<Seq<char>> {
    match name {
        Some(s) => Some(s@),
        None => None,
    }
}

impl View for Device {
    type V = DeviceModel;

    open spec fn view(&self) -> DeviceModel {
        DeviceModel {
            index: self.index,
            channels: self.channels@,
            mute: self.mute,
            name: name_model(self.name),
        }
    }
}

impl View for Prop {
    type V = PropModel;

    open spec fn view(&self) -> PropModel {
        PropModel { key: self.key@, value: self.value@ }
    }
}

impl View for AppStream {
    type V = StreamModel;

    open spec fn view(&self) -> StreamModel {
        StreamModel {
            index: self.index,
            props: self.props@.map_values(|p: Prop| p@),
            channels: self.channels@,
            mute: self.mute,
        }
    }
}

impl View for AudioState {
    type V = AudioModel;

    open spec fn view(&self) -> AudioModel {
        AudioModel {
            sinks: self.sinks@.map_values(|d: Device| d@),
            sources: self.sources@.map_values(|d: Device| d@),
            streams: self.streams@.map_values(|s: AppStream| s@),
            default_sink: self.default_sink,
            default_source: self.default_source,
        }
    }
}

impl AudioModel {
    /// The devices of one kind.
    pub open spec fn devices(self, kind: DeviceKind) -> Seq<DeviceModel> {
        match kind {
            DeviceKind::Sink => self.sinks,
            DeviceKind::Source => self.sources,
        }
    }

    /// The index of the current default device of one kind.
    pub open spec fn default_index(self, kind: DeviceKind) -> u32 {
        match kind {
            DeviceKind::Sink => self.default_sink,
            DeviceKind::Source => self.default_source,
        }
    }
}

/// Native volume written when the surface asks for `level`, scaled linearly
/// so that level 127 is full volume (`VOLUME_NORMAL - 1`).
pub open spec fn spec_native_of_level(level: int) -> int {
    level * (VOLUME_NORMAL - 1) / 127
}

/// Surface level shown for a native volume, scaled linearly and clamped to
/// the 7-bit range.
pub open spec fn spec_level_of_native(n: int) -> int {
    let level = n * 127 / (VOLUME_NORMAL as int);
    if level > 127 {
        127
    } else {
        level
    }
}

/// Converts a 7-bit surface level to a native volume.
pub fn native_of_level(level: u8) -> (n: u32)
    requires
        level <= 127,
    ensures
        n == spec_native_of_level(level as int),
        n <= VOLUME_NORMAL - 1,
{
    proof {
        assert(VOLUME_NORMAL == 0x10000);
    }
    (level as u32) * 0xffff / 127
}

/// Converts a native volume to the 7-bit level the surface displays.
pub fn level_of_native(n: u32) -> (level: u8)
    ensures
        level == spec_level_of_native(n as int),
        level <= 127,
{
    proof {
        assert(VOLUME_NORMAL == 0x10000);
    }
    let wide: u64 = (n as u64) * 127 / 0x10000;
    if wide > 127 {
        127
    } else {
        wide as u8
    }
}

/// Writing a surface level to an entity and reading it back loses at most
/// one quantization step: the level read is the level written or one below.
pub proof fn lemma_level_round_trip(level: int)
    requires
        0 <= level <= 127,
    ensures
        level - 1 <= spec_level_of_native(spec_native_of_level(level)) <= level,
{
    let m = VOLUME_NORMAL as int;
    let n = level * (m - 1) / 127;
    vstd::arithmetic::div_mod::lemma_fundamental_div_mod(level * (m - 1), 127);
    assert(127 * n <= level * (m - 1));
    assert(127 * n >= level * (m - 1) - 126);
    let d = n * 127 / m;
    vstd::arithmetic::div_mod::lemma_fundamental_div_mod(n * 127, m);
    assert(m * d <= n * 127);
    assert(m * d + m - 1 >= n * 127);
    assert(d <= level) by (nonlinear_arith)
        requires
            m == 0x10000,
            0 <= level <= 127,
            m * d <= n * 127,
            127 * n <= level * (m - 1),
    ;
    assert(d >= level - 1) by (nonlinear_arith)
        requires
            m == 0x10000,
            0 <= level <= 127,
            m * d + m - 1 >= n * 127,
            127 * n >= level * (m - 1) - 126,
    ;
    assert(spec_level_of_native(spec_native_of_level(level)) == if d > 127 {
        127int
    } else {
        d
    });
}

pub proof fn lemma_sum_prefix_const(s: Seq<u32>, v: u32, n: int)
    requires
        0 <= n <= s.len(),
        forall|i: int| 0 <= i < n ==> s[i] == v,
    ensures
        sum_prefix(s, n) == n * v,
    decreases n,
{
    if n == 0 {
        assert(n * v == 0) by (nonlinear_arith)
            requires
                n == 0,
        ;
    } else {
        lemma_sum_prefix_const(s, v, n - 1);
        assert((n - 1) * v + v == n * v) by (nonlinear_arith);
    }
}

/// The channel-average of a constant channel vector is that constant.
pub proof fn lemma_avg_const(n: nat, v: u32)
    requires
        n > 0,
    ensures
        spec_avg(Seq::new(n, |j: int| v)) == v,
{
    let s = Seq::new(n, |j: int| v);
    lemma_sum_prefix_const(s, v, n as int);
    vstd::arithmetic::div_mod::lemma_div_multiples_vanish(v as int, n as int);
    assert((n as int) * (v as int) == sum_prefix(s, n as int));
}

/// Sum of the first `n` channel volumes.
pub open spec fn sum_prefix(s: Seq<u32>, n: int) -> int
    decreases n,
{
    if n <= 0 {
        0
    } else {
        sum_prefix(s, n - 1) + s[n - 1]
    }
}

/// The channel-average native volume: the sum over the channels divided by
/// their number, and 0 for an empty channel vector.
pub open spec fn spec_avg(s: Seq<u32>) -> int {
    if s.len() == 0 {
        0
    } else {
        sum_prefix(s, s.len() as int) / (s.len() as int)
    }
}

pub proof fn lemma_sum_prefix_bounds(s: Seq<u32>, n: int)
    requires
        0 <= n <= s.len(),
    ensures
        0 <= sum_prefix(s, n) <= n * 0xffff_ffff,
    decreases n,
{
    if n > 0 {
        lemma_sum_prefix_bounds(s, n - 1);
        assert((n - 1) * 0xffff_ffff + 0xffff_ffff == n * 0xffff_ffff) by (nonlinear_arith);
    }
}

/// The average never exceeds the largest channel value's type range.
pub proof fn lemma_avg_fits(s: Seq<u32>)
    ensures
        0 <= spec_avg(s) <= 0xffff_ffff,
{
    if s.len() > 0 {
        let n = s.len() as int;
        lemma_sum_prefix_bounds(s, n);
        assert(sum_prefix(s, n) / n <= 0xffff_ffff) by (nonlinear_arith)
            requires
                n >= 1,
                0 <= sum_prefix(s, n) <= n * 0xffff_ffff,
        ;
    }
}

/// Computes the channel-average native volume.
pub fn avg_volume(channels: &Vec<u32>) -> (r: u32)
    ensures
        r == spec_avg(channels@),
{
    let n = channels.len();
    if n == 0 {
        return 0;
    }
    let mut sum: u128 = 0;
    let mut i: usize = 0;
    while i < n
        invariant
            0 <= i <= n,
            n == channels@.len(),
            sum == sum_prefix(channels@, i as int),
            sum <= i * 0xffff_ffff,
        decreases n - i,
    {
        proof {
            assert((i + 1) * 0xffff_ffff == i * 0xffff_ffff + 0xffff_ffff) by (nonlinear_arith);
            assert((i + 1) * 0xffff_ffff <= 0xffff_ffff_ffff_ffff * 0xffff_ffff) by (nonlinear_arith)
                requires
                    0 <= i + 1 <= 0xffff_ffff_ffff_ffff,
            ;
        }
        sum = sum + channels[i] as u128;
        i = i + 1;
    }
    proof {
        lemma_avg_fits(channels@);
        assert(sum / (n as u128) == sum_prefix(channels@, n as int) / (n as int));
    }
    (sum / (n as u128)) as u32
}

/// A mutation to issue against the audio subsystem.  Volume actions set
/// every channel of the addressed entity to one native value.
#[derive(Clone, Debug, PartialEq, Eq)]
pub enum AudioAction {
    SetDeviceVolume(DeviceKind, u32, u32),
    SetDeviceMute(DeviceKind, u32, bool),
    SetStreamVolume(u32, u32),
    SetStreamMute(u32, bool),
    SetDefaultDevice(DeviceKind, String),
}

/// Mathematical model of an [`AudioAction`].
pub enum ActionModel {
    SetDeviceVolume(DeviceKind, u32, u32),
    SetDeviceMute(DeviceKind, u32, bool),
    SetStreamVolume(u32, u32),
    SetStreamMute(u32, bool),
    SetDefaultDevice(DeviceKind, Seq<char>),
}

impl View for AudioAction {
    type V = ActionModel;

    open spec fn view(&self) -> ActionModel {
        match self {
            AudioAction::SetDeviceVolume(k, i, v) => ActionModel::SetDeviceVolume(*k, *i, *v),
            AudioAction::SetDeviceMute(k, i, m) => ActionModel::SetDeviceMute(*k, *i, *m),
            AudioAction::SetStreamVolume(i, v) => ActionModel::SetStreamVolume(*i, *v),
            AudioAction::SetStreamMute(i, m) => ActionModel::SetStreamMute(*i, *m),
            AudioAction::SetDefaultDevice(k, n) => ActionModel::SetDefaultDevice(*k, n@),
        }
    }
}

/// Position of the first device of `devs` at or after `from` whose name is
/// `name`, if any.
pub open spec fn name_pos(devs: Seq<DeviceModel>, name: Seq<char>, from: int) -> Option<int>
    decreases devs.len() - from,
{
    if from < 0 || from >= devs.len() {
        None
    } else if devs[from].name == Some(name) {
        Some(from)
    } else {
        name_pos(devs, name, from + 1)
    }
}

pub open spec fn set_channels(d: DeviceModel, vol: u32) -> DeviceModel {
    DeviceModel { channels: Seq::new(d.channels.len(), |j: int| vol), ..d }
}

pub open spec fn set_device_volume(devs: Seq<DeviceModel>, index: u32, vol: u32) -> Seq<
    DeviceModel,
> {
    Seq::new(devs.len(), |i: int| if devs[i].index == index {
        set_channels(devs[i], vol)
    } else {
        devs[i]
    })
}

pub open spec fn set_device_mute(devs: Seq<DeviceModel>, index: u32, mute: bool) -> Seq<
    DeviceModel,
> {
    Seq::new(devs.len(), |i: int| if devs[i].index == index {
        DeviceModel { mute, ..devs[i] }
    } else {
        devs[i]
    })
}

pub open spec fn set_stream_volume(ss: Seq<StreamModel>, index: u32, vol: u32) -> Seq<
    StreamModel,
> {
    Seq::new(ss.len(), |i: int| if ss[i].index == index {
        StreamModel { channels: Seq::new(ss[i].channels.len(), |j: int| vol), ..ss[i] }
    } else {
        ss[i]
    })
}

pub open spec fn set_stream_mute(ss: Seq<StreamModel>, index: u32, mute: bool) -> Seq<
    StreamModel,
> {
    Seq::new(ss.len(), |i: int| if ss[i].index == index {
        StreamModel { mute, ..ss[i] }
    } else {
        ss[i]
    })
}

/// What an action does to the audio subsystem: the model semantics every
/// mutation is verified against.
pub open spec fn spec_apply(a: AudioModel, act: ActionModel) -> AudioModel {
    match act {
        ActionModel::SetDeviceVolume(DeviceKind::Sink, idx, vol) => AudioModel {
            sinks: set_device_volume(a.sinks, idx, vol),
            ..a
        },
        ActionModel::SetDeviceVolume(DeviceKind::Source, idx, vol) => AudioModel {
            sources: set_device_volume(a.sources, idx, vol),
            ..a
        },
        ActionModel::SetDeviceMute(DeviceKind::Sink, idx, m) => AudioModel {
            sinks: set_device_mute(a.sinks, idx, m),
            ..a
        },
        ActionModel::SetDeviceMute(DeviceKind::Source, idx, m) => AudioModel {
            sources: set_device_mute(a.sources, idx, m),
            ..a
        },
        ActionModel::SetStreamVolume(idx, vol) => AudioModel {
            streams: set_stream_volume(a.streams, idx, vol),
            ..a
        },
        ActionModel::SetStreamMute(idx, m) => AudioModel {
            streams: set_stream_mute(a.streams, idx, m),
            ..a
        },
        ActionModel::SetDefaultDevice(kind, name) => {
            match name_pos(a.devices(kind), name, 0) {
                Some(p) => match kind {
                    DeviceKind::Sink => AudioModel {
                        default_sink: a.devices(kind)[p].index,
                        ..a
                    },
                    DeviceKind::Source => AudioModel {
                        default_source: a.devices(kind)[p].index,
                        ..a
                    },
                },
                None => a,
            }
        },
    }
}


/// Copies a channel vector value for value.
pub(crate) fn copy_channels(v: &Vec<u32>) -> (r: Vec<u32>)
    ensures
        r@ == v@,
{
    let mut r: Vec<u32> = Vec::new();
    let n = v.len();
    let mut i: usize = 0;
    while i < n
        invariant
            0 <= i <= n,
            n == v@.len(),
            r@ == v@.subrange(0, i as int),
        decreases n - i,
    {
        r.push(v[i]);
        proof {
            assert(r@ =~= v@.subrange(0, i + 1));
        }
        i = i + 1;
    }
    proof {
        assert(r@ =~= v@);
    }
    r
}

/// Copies an optional device name.
pub(crate) fn copy_name(name: &Option<String>) -> (r: Option<String>)
    ensures
        r == *name,
{
    match name {
        Some(s) => Some(s.clone()),
        None => None,
    }
}

/// Replaces every channel of a device with one native volume.
fn device_with_volume(d: &Device, vol: u32) -> (r: Device)
    ensures
        r@ == set_channels(d@, vol),
{
    let n = d.channels.len();
    let mut ch: Vec<u32> = Vec::new();
    let mut i: usize = 0;
    while i < n
        invariant
            0 <= i <= n,
            ch@.len() == i,
            forall|j: int| 0 <= j < i ==> ch@[j] == vol,
        decreases n - i,
    {
        ch.push(vol);
        i = i + 1;
    }
    let r = Device { index: d.index, channels: ch, mute: d.mute, name: copy_name(&d.name) };
    proof {
        assert(r@.channels =~= set_channels(d@, vol).channels);
        assert(r@ =~~= set_channels(d@, vol));
    }
    r
}

fn set_device_volume_exec(devs: &mut Vec<Device>, index: u32, vol: u32)
    ensures
        final(devs)@.map_values(|d: Device| d@) == set_device_volume(
            old(devs)@.map_values(|d: Device| d@),
            index,
            vol,
        ),
{
    let ghost orig = devs@.map_values(|d: Device| d@);
    let n = devs.len();
    let mut i: usize = 0;
    while i < n
        invariant
            0 <= i <= n,
            devs@.len() == n == orig.len(),
            forall|j: int| i <= j < n ==> devs@.map_values(|d: Device| d@)[j] == orig[j],
            forall|j: int|
                0 <= j < i ==> devs@.map_values(|d: Device| d@)[j] == set_device_volume(
                    orig,
                    index,
                    vol,
                )[j],
        decreases n - i,
    {
        if devs[i].index == index {
            let nd = device_with_volume(&devs[i], vol);
            devs[i] = nd;
        }
        i = i + 1;
    }
    proof {
        assert(devs@.map_values(|d: Device| d@) =~= set_device_volume(orig, index, vol));
    }
}

fn set_device_mute_exec(devs: &mut Vec<Device>, index: u32, mute: bool)
    ensures
        final(devs)@.map_values(|d: Device| d@) == set_device_mute(
            old(devs)@.map_values(|d: Device| d@),
            index,
            mute,
        ),
{
    let ghost orig = devs@.map_values(|d: Device| d@);
    let n = devs.len();
    let mut i: usize = 0;
    while i < n
        invariant
            0 <= i <= n,
            devs@.len() == n == orig.len(),
            forall|j: int| i <= j < n ==> devs@.map_values(|d: Device| d@)[j] == orig[j],
            forall|j: int|
                0 <= j < i ==> devs@.map_values(|d: Device| d@)[j] == set_device_mute(
                    orig,
                    index,
                    mute,
                )[j],
        decreases n - i,
    {
        if devs[i].index == index {
            let nd = Device {
                index: devs[i].index,
                channels: copy_channels(&devs[i].channels),
                mute,
                name: copy_name(&devs[i].name),
            };
            proof {
                assert(nd@ =~~= DeviceModel { mute, ..orig[i as int] });
            }
            devs[i] = nd;
        }
        i = i + 1;
    }
    proof {
        assert(devs@.map_values(|d: Device| d@) =~= set_device_mute(orig, index, mute));
    }
}

/// Copies a property bag value for value.
fn copy_props(props: &Vec<Prop>) -> (r: Vec<Prop>)
    ensures
        r@.map_values(|p: Prop| p@) == props@.map_values(|p: Prop| p@),
{
    let mut r: Vec<Prop> = Vec::new();
    let n = props.len();
    let mut i: usize = 0;
    while i < n
        invariant
            0 <= i <= n,
            n == props@.len(),
            r@.len() == i,
            forall|j: int| 0 <= j < i ==> (#[trigger] r@[j])@ == props@[j]@,
        decreases n - i,
    {
        let p = Prop { key: props[i].key.clone(), value: props[i].value.clone() };
        proof {
            assert(p@ =~~= props@.map_values(|q: Prop| q@)[i as int]);
        }
        r.push(p);
        i = i + 1;
    }
    proof {
        assert(r@.map_values(|p: Prop| p@) =~= props@.map_values(|p: Prop| p@));
    }
    r
}

fn set_stream_volume_exec(streams: &mut Vec<AppStream>, index: u32, vol: u32)
    ensures
        final(streams)@.map_values(|s: AppStream| s@) == set_stream_volume(
            old(streams)@.map_values(|s: AppStream| s@),
            index,
            vol,
        ),
{
    let ghost orig = streams@.map_values(|s: AppStream| s@);
    let n = streams.len();
    let mut i: usize = 0;
    while i < n
        invariant
            0 <= i <= n,
            streams@.len() == n == orig.len(),
            forall|j: int| i <= j < n ==> streams@.map_values(|s: AppStream| s@)[j] == orig[j],
            forall|j: int|
                0 <= j < i ==> streams@.map_values(|s: AppStream| s@)[j] == set_stream_volume(
                    orig,
                    index,
                    vol,
                )[j],
        decreases n - i,
    {
        if streams[i].index == index {
            let m = streams[i].channels.len();
            let mut ch: Vec<u32> = Vec::new();
            let mut k: usize = 0;
            while k < m
                invariant
                    0 <= k <= m,
                    ch@.len() == k,
                    forall|j: int| 0 <= j < k ==> ch@[j] == vol,
                decreases m - k,
            {
                ch.push(vol);
                k = k + 1;
            }
            let ns = AppStream {
                index: streams[i].index,
                props: copy_props(&streams[i].props),
                channels: ch,
                mute: streams[i].mute,
            };
            proof {
                assert(ns@ =~~= StreamModel {
                    channels: Seq::new(orig[i as int].channels.len(), |j: int| vol),
                    ..orig[i as int]
                });
            }
            streams[i] = ns;
        }
        i = i + 1;
    }
    proof {
        assert(streams@.map_values(|s: AppStream| s@) =~= set_stream_volume(orig, index, vol));
    }
}

fn set_stream_mute_exec(streams: &mut Vec<AppStream>, index: u32, mute: bool)
    ensures
        final(streams)@.map_values(|s: AppStream| s@) == set_stream_mute(
            old(streams)@.map_values(|s: AppStream| s@),
            index,
            mute,
        ),
{
    let ghost orig = streams@.map_values(|s: AppStream| s@);
    let n = streams.len();
    let mut i: usize = 0;
    while i < n
        invariant
            0 <= i <= n,
            streams@.len() == n == orig.len(),
            forall|j: int| i <= j < n ==> streams@.map_values(|s: AppStream| s@)[j] == orig[j],
            forall|j: int|
                0 <= j < i ==> streams@.map_values(|s: AppStream| s@)[j] == set_stream_mute(
                    orig,
                    index,
                    mute,
                )[j],
        decreases n - i,
    {
        if streams[i].index == index {
            let ns = AppStream {
                index: streams[i].index,
                props: copy_props(&streams[i].props),
                channels: copy_channels(&streams[i].channels),
                mute,
            };
            proof {
                assert(ns@ =~~= StreamModel { mute, ..orig[i as int] });
            }
            streams[i] = ns;
        }
        i = i + 1;
    }
    proof {
        assert(streams@.map_values(|s: AppStream| s@) =~= set_stream_mute(orig, index, mute));
    }
}

/// Position of the first device in `devs` carrying `name`, if any.
fn find_name_pos(devs: &Vec<Device>, name: &String) -> (r: Option<usize>)
    ensures
        r matches Some(p) ==> p < devs.len() && name_pos(devs@.map_values(|d: Device| d@), name@, 0)
            == Some(p as int),
        r is None ==> name_pos(devs@.map_values(|d: Device| d@), name@, 0) is None,
{
    let ghost model = devs@.map_values(|d: Device| d@);
    let n = devs.len();
    let mut i: usize = 0;
    while i < n
        invariant
            0 <= i <= n,
            n == devs@.len() == model.len(),
            model == devs@.map_values(|d: Device| d@),
            name_pos(model, name@, 0) == name_pos(model, name@, i as int),
        decreases n - i,
    {
        let hit = match &devs[i].name {
            Some(s) => s.eq(name),
            None => false,
        };
        if hit {
            proof {
                assert(model[i as int].name == Some(name@));
            }
            return Some(i);
        }
        proof {
            assert(model[i as int].name != Some(name@));
        }
        i = i + 1;
    }
    None
}

impl AudioState {
    /// Performs one mutation on the snapshot; this is the model of what the
    /// audio subsystem does when the action is issued against it.
    pub fn apply(&mut self, action: &AudioAction)
        ensures
            final(self)@ == spec_apply(old(self)@, action@),
    {
        match action {
            AudioAction::SetDeviceVolume(DeviceKind::Sink, idx, vol) => {
                set_device_volume_exec(&mut self.sinks, *idx, *vol);
            },
            AudioAction::SetDeviceVolume(DeviceKind::Source, idx, vol) => {
                set_device_volume_exec(&mut self.sources, *idx, *vol);
            },
            AudioAction::SetDeviceMute(DeviceKind::Sink, idx, m) => {
                set_device_mute_exec(&mut self.sinks, *idx, *m);
            },
            AudioAction::SetDeviceMute(DeviceKind::Source, idx, m) => {
                set_device_mute_exec(&mut self.sources, *idx, *m);
            },
            AudioAction::SetStreamVolume(idx, vol) => {
                set_stream_volume_exec(&mut self.streams, *idx, *vol);
            },
            AudioAction::SetStreamMute(idx, m) => {
                set_stream_mute_exec(&mut self.streams, *idx, *m);
            },
            AudioAction::SetDefaultDevice(kind, name) => {
                let pos = match kind {
                    DeviceKind::Sink => find_name_pos(&self.sinks, name),
                    DeviceKind::Source => find_name_pos(&self.sources, name),
                };
                match pos {
                    Some(p) => {
                        match kind {
                            DeviceKind::Sink => {
                                self.default_sink = self.sinks[p].index;
                            },
                            DeviceKind::Source => {
                                self.default_source = self.sources[p].index;
                            },
                        }
                    },
                    None => {},
                }
            },
        }
        proof {
            assert(final(self)@ =~~= spec_apply(old(self)@, action@));
        }
    }
}

} // verus!

