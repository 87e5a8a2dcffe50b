//! Logical audio targets and their resolution to live entities.
//!
//! A [`Target`] is a description, never a cached handle: every operation
//! re-resolves it against the current [`AudioState`] snapshot, because
//! application streams and even devices can appear or disappear between
//! polls.  Resolution distinguishes absence (`NotFound`) from subsystem or
//! configuration failure (`Failure`); an ordered [`Target::FirstValid`]
//! composite falls through its children only on absence and fails fast on
//! the first failure.
use vstd::prelude::*;

verus! {

broadcast use vstd::std_specs::vec::axiom_vec_index_decreases;

use crate::audio::ActionModel;
use crate::audio::AppStream;
use crate::audio::AudioAction;
use crate::audio::AudioModel;
use crate::audio::AudioState;
use crate::audio::Device;
use crate::audio::DeviceKind;
use crate::audio::DeviceModel;
use crate::audio::PropModel;
use crate::audio::StreamModel;
use crate::audio::copy_channels;
use crate::audio::copy_name;
use crate::outcome::Fault;
use crate::outcome::Outcome;

/// How to find a concrete audio entity.
#[derive(Debug, PartialEq, Eq)]
pub enum Target {
    /// A fixed device of the given kind, addressed by its stable index.
    StaticDevice(DeviceKind, u32),
    /// The first currently-running application stream whose property bag
    /// holds the given key with exactly the given value.
    PropertyMatch(String, String),
    /// An ordered list of candidates, tried in declaration order.
    FirstValid(Vec<Target>),
}

/// Mathematical model of a [`Target`].
pub enum TargetModel {
    StaticDevice(DeviceKind, u32),
    PropertyMatch(Seq<char>, Seq<char>),
    FirstValid(Seq<TargetModel>),
}

pub open spec fn target_model(t: Target) -> TargetModel
    decreases t,
{
    match t {
        Target::StaticDevice(kind, index) => TargetModel::StaticDevice(kind, index),
        Target::PropertyMatch(key, value) => TargetModel::PropertyMatch(key@, value@),
        Target::FirstValid(ts) => TargetModel::FirstValid(
            Seq::new(
                ts@.len(),
                |i: int|
                    if 0 <= i < ts@.len() {
                        target_model(ts[i])
                    } else {
                        arbitrary()
                    },
            ),
        ),
    }
}

impl View for Target {
    type V = TargetModel;

    open spec fn view(&self) -> TargetModel {
        target_model(*self)
    }
}

/// What kind of concrete entity a target resolved to.
#[derive(Clone, Copy, Debug, PartialEq, Eq, Structural)]
pub enum EntityKind {
    DeviceSink,
    DeviceSource,
    ApplicationStream,
}

/// The transient result of resolving a target at one point in time: the
/// entity's live volume, mute flag, and (for devices) the stable name used
/// for default-device assignment.  It exists for the duration of one
/// operation and is never stored.
#[derive(Debug, PartialEq, Eq)]
pub struct ResolvedEntity {
    pub kind: EntityKind,
    pub index: u32,
    pub channels: Vec<u32>,
    pub mute: bool,
    pub name: Option<String>,
}

/// Mathematical model of a [`ResolvedEntity`].
#[verifier::ext_equal]
pub struct EntityModel {
    pub kind: EntityKind,
    pub index: u32,
    pub channels: Seq<u32>,
    pub mute: bool,
    pub name: Option<Seq<char>>,
}

impl View for ResolvedEntity {
    type V = EntityModel;

    open spec fn view(&self) -> EntityModel {
        EntityModel {
            kind: self.kind,
            index: self.index,
            channels: self.channels@,
            mute: self.mute,
            name: crate::audio::name_model(self.name),
        }
    }
}

/// The entity kind of a device kind.
pub open spec fn entity_kind_of_device(kind: DeviceKind) -> EntityKind {
    match kind {
        DeviceKind::Sink => EntityKind::DeviceSink,
        DeviceKind::Source => EntityKind::DeviceSource,
    }
}

/// The device kind an entity kind addresses, for device entities.
pub open spec fn device_kind_of_entity(kind: EntityKind) -> DeviceKind {
    match kind {
        EntityKind::DeviceSource => DeviceKind::Source,
        _ => DeviceKind::Sink,
    }
}

pub open spec fn entity_of_device(kind: DeviceKind, d: DeviceModel) -> EntityModel {
    EntityModel {
        kind: entity_kind_of_device(kind),
        index: d.index,
        channels: d.channels,
        mute: d.mute,
        name: d.name,
    }
}

pub open spec fn entity_of_stream(s: StreamModel) -> EntityModel {
    EntityModel {
        kind: EntityKind::ApplicationStream,
        index: s.index,
        channels: s.channels,
        mute: s.mute,
        name: None,
    }
}

/// Position of the first device of `devs` at or after `from` with the given
/// index, if any.
pub open spec fn device_pos(devs: Seq<DeviceModel>, index: u32, from: int) -> Option<int>
    decreases devs.len() - from,
{
    if from < 0 || from >= devs.len() {
        None
    } else if devs[from].index == index {
        Some(from)
    } else {
        device_pos(devs, index, from + 1)
    }
}

/// The value the property bag holds for `key`, if any (first entry wins).
pub open spec fn prop_value(props: Seq<PropModel>, key: Seq<char>, from: int) -> Option<Seq<char>>
    decreases props.len() - from,
{
    if from < 0 || from >= props.len() {
        None
    } else if props[from].key == key {
        Some(props[from].value)
    } else {
        prop_value(props, key, from + 1)
    }
}

/// Whether a stream's property bag holds `key` with exactly `value`.
pub open spec fn stream_matches(s: StreamModel, key: Seq<char>, value: Seq<char>) -> bool {
    prop_value(s.props, key, 0) == Some(value)
}

/// Position of the first stream of `ss` at or after `from` matching the
/// property, if any.
pub open spec fn stream_pos(ss: Seq<StreamModel>, key: Seq<char>, value: Seq<char>, from: int) -> Option<int>
    decreases ss.len() - from,
{
    if from < 0 || from >= ss.len() {
        None
    } else if stream_matches(ss[from], key, value) {
        Some(from)
    } else {
        stream_pos(ss, key, value, from + 1)
    }
}

/// What a target resolves to against one snapshot: the model every
/// resolution is verified against.
///
/// A static device that is absent is a `Failure`, not `NotFound`: static
/// configuration pointing at a missing device is an operator-visible
/// anomaly.  A property match with no matching stream is plain absence.
pub open spec fn spec_resolve(t: TargetModel, a: AudioModel) -> Outcome<EntityModel>
    decreases t, 0int,
{
    match t {
        TargetModel::StaticDevice(kind, index) => match device_pos(a.devices(kind), index, 0) {
            Some(p) => Outcome::Found(entity_of_device(kind, a.devices(kind)[p])),
            None => Outcome::Failure(Fault::MissingDevice(kind, index)),
        },
        TargetModel::PropertyMatch(key, value) => match stream_pos(a.streams, key, value, 0) {
            Some(p) => Outcome::Found(entity_of_stream(a.streams[p])),
            None => Outcome::NotFound,
        },
        TargetModel::FirstValid(ts) => spec_resolve_list(ts, a, 0),
    }
}

/// Resolution of an ordered candidate list from position `from` on: the
/// first child that resolves `Found` or `Failure` decides; only `NotFound`
/// falls through to the next child.
pub open spec fn spec_resolve_list(ts: Seq<TargetModel>, a: AudioModel, from: int) -> Outcome<
    EntityModel,
>
    decreases ts, ts.len() - from,
{
    if from < 0 || from >= ts.len() {
        Outcome::NotFound
    } else {
        match spec_resolve(ts[from], a) {
            Outcome::NotFound => spec_resolve_list(ts, a, from + 1),
            outcome => outcome,
        }
    }
}

/// Position of the first device in `devs` with the given index, if any.
fn find_device(devs: &Vec<Device>, index: u32) -> (r: Option<usize>)
    ensures
        r matches Some(p) ==> p < devs.len() && device_pos(
            devs@.map_values(|d: Device| d@),
            index,
            0,
        ) == Some(p as int),
        r is None ==> device_pos(devs@.map_values(|d: Device| d@), index, 0) is None,
{
    let ghost model = devs@.map_values(|d: Device| d@);
    let n = devs.len();
    let mut i: usize = 0;
    while i < n
        invariant
            0 <= i <= n,
            n == devs@.len() == model.len(),
            model == devs@.map_values(|d: Device| d@),
            device_pos(model, index, 0) == device_pos(model, index, i as int),
        decreases n - i,
    {
        if devs[i].index == index {
            return Some(i);
        }
        i = i + 1;
    }
    None
}

/// Whether the stream's property bag holds `key` with exactly `value`.
fn has_prop(s: &AppStream, key: &String, value: &String) -> (r: bool)
    ensures
        r == stream_matches(s@, key@, value@),
{
    let ghost pm = s@.props;
    let n = s.props.len();
    let mut i: usize = 0;
    while i < n
        invariant
            0 <= i <= n,
            n == s.props@.len() == pm.len(),
            pm == s@.props,
            prop_value(pm, key@, 0) == prop_value(pm, key@, i as int),
        decreases n - i,
    {
        if s.props[i].key == *key {
            proof {
                assert(pm[i as int] == s.props@[i as int]@);
            }
            return s.props[i].value == *value;
        }
        proof {
            assert(pm[i as int] == s.props@[i as int]@);
        }
        i = i + 1;
    }
    false
}

/// Position of the first stream in `streams` whose property bag matches,
/// if any (order is the subsystem's own enumeration order).
fn find_app(streams: &Vec<AppStream>, key: &String, value: &String) -> (r: Option<usize>)
    ensures
        r matches Some(p) ==> p < streams.len() && stream_pos(
            streams@.map_values(|s: AppStream| s@),
            key@,
            value@,
            0,
        ) == Some(p as int),
        r is None ==> stream_pos(streams@.map_values(|s: AppStream| s@), key@, value@, 0) is None,
{
    let ghost model = streams@.map_values(|s: AppStream| s@);
    let n = streams.len();
    let mut i: usize = 0;
    while i < n
        invariant
            0 <= i <= n,
            n == streams@.len() == model.len(),
            model == streams@.map_values(|s: AppStream| s@),
            stream_pos(model, key@, value@, 0) == stream_pos(model, key@, value@, i as int),
        decreases n - i,
    {
        if has_prop(&streams[i], key, value) {
            return Some(i);
        }
        i = i + 1;
    }
    None
}

/// Builds the transient entity for a resolved device.
fn entity_from_device(kind: DeviceKind, d: &Device) -> (e: ResolvedEntity)
    ensures
        e@ == entity_of_device(kind, d@),
{
    let e = ResolvedEntity {
        kind: match kind {
            DeviceKind::Sink => EntityKind::DeviceSink,
            DeviceKind::Source => EntityKind::DeviceSource,
        },
        index: d.index,
        channels: copy_channels(&d.channels),
        mute: d.mute,
        name: copy_name(&d.name),
    };
    proof {
        assert(e@ =~~= entity_of_device(kind, d@));
    }
    e
}

/// Builds the transient entity for a resolved application stream.
fn entity_from_stream(s: &AppStream) -> (e: ResolvedEntity)
    ensures
        e@ == entity_of_stream(s@),
{
    let e = ResolvedEntity {
        kind: EntityKind::ApplicationStream,
        index: s.index,
        channels: copy_channels(&s.channels),
        mute: s.mute,
        name: None,
    };
    proof {
        assert(e@ =~~= entity_of_stream(s@));
    }
    e
}

impl Target {
    /// Resolves this target against the snapshot: `Found` the first
    /// matching live entity, `NotFound` when nothing currently matches, or
    /// `Failure` when static configuration points at a missing device.
    /// A `FirstValid` list tries its children in order; only `NotFound`
    /// falls through, a child's `Failure` is propagated immediately.
    pub fn resolve(&self, audio: &AudioState) -> (r: Outcome<ResolvedEntity>)
        ensures
            r@ == spec_resolve(self@, audio@),
        decreases *self,
    {
        match self {
            Target::StaticDevice(kind, index) => {
                let devs = match kind {
                    DeviceKind::Sink => &audio.sinks,
                    DeviceKind::Source => &audio.sources,
                };
                proof {
                    assert(audio@.devices(*kind) == devs@.map_values(|d: Device| d@));
                }
                match find_device(devs, *index) {
                    Some(p) => {
                        let e = entity_from_device(*kind, &devs[p]);
                        proof {
                            assert(devs@.map_values(|d: Device| d@)[p as int] == devs@[p as int]@);
                        }
                        Outcome::Found(e)
                    },
                    None => Outcome::Failure(Fault::MissingDevice(*kind, *index)),
                }
            },
            Target::PropertyMatch(key, value) => {
                match find_app(&audio.streams, key, value) {
                    Some(p) => {
                        let e = entity_from_stream(&audio.streams[p]);
                        proof {
                            assert(audio@.streams[p as int] == audio.streams@[p as int]@);
                        }
                        Outcome::Found(e)
                    },
                    None => Outcome::NotFound,
                }
            },
            Target::FirstValid(ts) => {
                let ghost ms = target_model(*self)->FirstValid_0;
                let n = ts.len();
                let mut i: usize = 0;
                while i < n
                    invariant
                        0 <= i <= n,
                        n == ts@.len() == ms.len(),
                        *self matches Target::FirstValid(tsi) && tsi@ == ts@,
                        self@ == TargetModel::FirstValid(ms),
                        ms == target_model(*self)->FirstValid_0,
                        spec_resolve(self@, audio@) == spec_resolve_list(ms, audio@, i as int),
                        forall|j: int| 0 <= j < n ==> ms[j] == target_model(ts@[j]),
                    decreases n - i,
                {
                    let r = ts[i].resolve(audio);
                    match r {
                        Outcome::NotFound => {
                            proof {
                                assert(spec_resolve(ms[i as int], audio@) is NotFound);
                            }
                            i = i + 1;
                        },
                        other => {
                            proof {
                                assert(spec_resolve_list(ms, audio@, i as int) == spec_resolve(
                                    ms[i as int],
                                    audio@,
                                ));
                            }
                            return other;
                        },
                    }
                }
                Outcome::NotFound
            },
        }
    }
}

pub proof fn lemma_device_pos_found(devs: Seq<DeviceModel>, index: u32, from: int)
    ensures
        device_pos(devs, index, from) matches Some(p) ==> from <= p < devs.len() && devs[p].index
            == index,
    decreases devs.len() - from,
{
    if 0 <= from < devs.len() && devs[from].index != index {
        lemma_device_pos_found(devs, index, from + 1);
    }
}

pub proof fn lemma_stream_pos_found(ss: Seq<StreamModel>, key: Seq<char>, value: Seq<char>, from: int)
    ensures
        stream_pos(ss, key, value, from) matches Some(p) ==> from <= p < ss.len()
            && stream_matches(ss[p], key, value),
    decreases ss.len() - from,
{
    if 0 <= from < ss.len() && !stream_matches(ss[from], key, value) {
        lemma_stream_pos_found(ss, key, value, from + 1);
    }
}

/// The channel-average volume of whatever the target resolves to.
pub open spec fn spec_volume(t: TargetModel, a: AudioModel) -> Outcome<u32> {
    match spec_resolve(t, a) {
        Outcome::Found(e) => Outcome::Found(crate::audio::spec_avg(e.channels) as u32),
        Outcome::NotFound => Outcome::NotFound,
        Outcome::Failure(f) => Outcome::Failure(f),
    }
}

/// The mute flag of whatever the target resolves to.
pub open spec fn spec_muted(t: TargetModel, a: AudioModel) -> Outcome<bool> {
    match spec_resolve(t, a) {
        Outcome::Found(e) => Outcome::Found(e.mute),
        Outcome::NotFound => Outcome::NotFound,
        Outcome::Failure(f) => Outcome::Failure(f),
    }
}

/// The action that sets every channel of an entity to one native volume.
pub open spec fn volume_action(e: EntityModel, native: u32) -> crate::audio::ActionModel {
    if e.kind is ApplicationStream {
        crate::audio::ActionModel::SetStreamVolume(e.index, native)
    } else {
        crate::audio::ActionModel::SetDeviceVolume(device_kind_of_entity(e.kind), e.index, native)
    }
}

/// The action that sets an entity's mute flag.
pub open spec fn mute_action(e: EntityModel, mute: bool) -> crate::audio::ActionModel {
    if e.kind is ApplicationStream {
        crate::audio::ActionModel::SetStreamMute(e.index, mute)
    } else {
        crate::audio::ActionModel::SetDeviceMute(device_kind_of_entity(e.kind), e.index, mute)
    }
}

/// The volume write issued for a surface level against whatever the target
/// resolves to.
pub open spec fn spec_set_volume(t: TargetModel, a: AudioModel, level: u8) -> Outcome<
    crate::audio::ActionModel,
> {
    match spec_resolve(t, a) {
        Outcome::Found(e) => Outcome::Found(
            volume_action(e, crate::audio::spec_native_of_level(level as int) as u32),
        ),
        Outcome::NotFound => Outcome::NotFound,
        Outcome::Failure(f) => Outcome::Failure(f),
    }
}

/// The mute toggle issued against whatever the target resolves to.
pub open spec fn spec_toggle_muted(t: TargetModel, a: AudioModel) -> Outcome<
    crate::audio::ActionModel,
> {
    match spec_resolve(t, a) {
        Outcome::Found(e) => Outcome::Found(mute_action(e, !e.mute)),
        Outcome::NotFound => Outcome::NotFound,
        Outcome::Failure(f) => Outcome::Failure(f),
    }
}

/// Whether the resolved entity is the current default device of its kind.
/// Defined only for device entities: an application stream is a `Failure`.
pub open spec fn spec_selected(t: TargetModel, a: AudioModel) -> Outcome<bool> {
    match spec_resolve(t, a) {
        Outcome::Found(e) => if e.kind is ApplicationStream {
            Outcome::Failure(Fault::StreamSelection)
        } else {
            Outcome::Found(a.default_index(device_kind_of_entity(e.kind)) == e.index)
        },
        Outcome::NotFound => Outcome::NotFound,
        Outcome::Failure(f) => Outcome::Failure(f),
    }
}

/// The default-device assignment issued for whatever the target resolves
/// to.  Streams cannot be selected, and a device without a name cannot be
/// addressed by the assignment call.
pub open spec fn spec_set_as_selected(t: TargetModel, a: AudioModel) -> Outcome<
    crate::audio::ActionModel,
> {
    match spec_resolve(t, a) {
        Outcome::Found(e) => if e.kind is ApplicationStream {
            Outcome::Failure(Fault::StreamSelection)
        } else {
            match e.name {
                Some(n) => Outcome::Found(
                    crate::audio::ActionModel::SetDefaultDevice(
                        device_kind_of_entity(e.kind),
                        n,
                    ),
                ),
                None => Outcome::Failure(
                    Fault::UnnamedDevice(device_kind_of_entity(e.kind), e.index),
                ),
            }
        },
        Outcome::NotFound => Outcome::NotFound,
        Outcome::Failure(f) => Outcome::Failure(f),
    }
}

impl Target {
    /// Reads the channel-average native volume of the entity this target
    /// currently resolves to.
    pub fn volume(&self, audio: &AudioState) -> (r: Outcome<u32>)
        ensures
            r@ == spec_volume(self@, audio@),
    {
        match self.resolve(audio) {
            Outcome::Found(e) => Outcome::Found(crate::audio::avg_volume(&e.channels)),
            Outcome::NotFound => Outcome::NotFound,
            Outcome::Failure(f) => Outcome::Failure(f),
        }
    }

    /// Reads the mute flag of the entity this target currently resolves to.
    pub fn muted(&self, audio: &AudioState) -> (r: Outcome<bool>)
        ensures
            r@ == spec_muted(self@, audio@),
    {
        match self.resolve(audio) {
            Outcome::Found(e) => Outcome::Found(e.mute),
            Outcome::NotFound => Outcome::NotFound,
            Outcome::Failure(f) => Outcome::Failure(f),
        }
    }

    /// Computes the volume write for a surface level against the entity
    /// this target currently resolves to, setting every channel to the
    /// same native value.  Sources accept volume writes exactly as sinks
    /// do, addressed as devices of their kind.
    pub fn set_volume(&self, audio: &AudioState, level: u8) -> (r: Outcome<AudioAction>)
        requires
            level <= 127,
        ensures
            r@ == spec_set_volume(self@, audio@, level),
    {
        match self.resolve(audio) {
            Outcome::Found(e) => {
                let native = crate::audio::native_of_level(level);
                let act = if matches!(e.kind, EntityKind::ApplicationStream) {
                    AudioAction::SetStreamVolume(e.index, native)
                } else {
                    let kind = match e.kind {
                        EntityKind::DeviceSource => DeviceKind::Source,
                        _ => DeviceKind::Sink,
                    };
                    AudioAction::SetDeviceVolume(kind, e.index, native)
                };
                Outcome::Found(act)
            },
            Outcome::NotFound => Outcome::NotFound,
            Outcome::Failure(f) => Outcome::Failure(f),
        }
    }

    /// Computes the mute toggle for the entity this target currently
    /// resolves to: the entity's mute flag inverted.
    pub fn toggle_muted(&self, audio: &AudioState) -> (r: Outcome<AudioAction>)
        ensures
            r@ == spec_toggle_muted(self@, audio@),
    {
        match self.resolve(audio) {
            Outcome::Found(e) => {
                let act = if matches!(e.kind, EntityKind::ApplicationStream) {
                    AudioAction::SetStreamMute(e.index, !e.mute)
                } else {
                    let kind = match e.kind {
                        EntityKind::DeviceSource => DeviceKind::Source,
                        _ => DeviceKind::Sink,
                    };
                    AudioAction::SetDeviceMute(kind, e.index, !e.mute)
                };
                Outcome::Found(act)
            },
            Outcome::NotFound => Outcome::NotFound,
            Outcome::Failure(f) => Outcome::Failure(f),
        }
    }

    /// Reads whether the entity this target resolves to is the current
    /// default device of its kind.  Fails on an application stream:
    /// "default device" has no meaning for a transient stream.
    pub fn selected(&self, audio: &AudioState) -> (r: Outcome<bool>)
        ensures
            r@ == spec_selected(self@, audio@),
    {
        match self.resolve(audio) {
            Outcome::Found(e) => match e.kind {
                EntityKind::ApplicationStream => Outcome::Failure(Fault::StreamSelection),
                EntityKind::DeviceSink => Outcome::Found(audio.default_sink == e.index),
                EntityKind::DeviceSource => Outcome::Found(audio.default_source == e.index),
            },
            Outcome::NotFound => Outcome::NotFound,
            Outcome::Failure(f) => Outcome::Failure(f),
        }
    }

    /// Computes the default-device assignment for the entity this target
    /// currently resolves to, addressed by the device's name.  Fails on an
    /// application stream, and on a device without a name.
    pub fn set_as_selected(&self, audio: &AudioState) -> (r: Outcome<AudioAction>)
        ensures
            r@ == spec_set_as_selected(self@, audio@),
    {
        match self.resolve(audio) {
            Outcome::Found(e) => match e.kind {
                EntityKind::ApplicationStream => Outcome::Failure(Fault::StreamSelection),
                k => {
                    let kind = match k {
                        EntityKind::DeviceSource => DeviceKind::Source,
                        _ => DeviceKind::Sink,
                    };
                    match e.name {
                        Some(n) => Outcome::Found(AudioAction::SetDefaultDevice(kind, n)),
                        None => Outcome::Failure(Fault::UnnamedDevice(kind, e.index)),
                    }
                },
            },
            Outcome::NotFound => Outcome::NotFound,
            Outcome::Failure(f) => Outcome::Failure(f),
        }
    }
}

proof fn lemma_resolve_list_shift(head: TargetModel, rest: Seq<TargetModel>, a: AudioModel, from: int)
    requires
        0 <= from <= rest.len(),
    ensures
        spec_resolve_list(seq![head] + rest, a, from + 1) == spec_resolve_list(rest, a, from),
    decreases rest.len() - from,
{
    let full = seq![head] + rest;
    assert(full.len() == rest.len() + 1);
    if from < rest.len() {
        assert(full[from + 1] == rest[from]);
        lemma_resolve_list_shift(head, rest, a, from + 1);
    }
}

/// Ordered fallback resolves deterministically: when the first candidate
/// of a `FirstValid` list resolves `NotFound`, resolution proceeds with
/// the remaining candidates exactly as if they stood alone; when it
/// resolves `Found` or `Failure`, that outcome is the composite's outcome
/// immediately, whatever the remaining candidates would resolve to.
pub proof fn lemma_first_valid_fallback(head: TargetModel, rest: Seq<TargetModel>, a: AudioModel)
    ensures
        spec_resolve(head, a) is NotFound ==> spec_resolve(
            TargetModel::FirstValid(seq![head] + rest),
            a,
        ) == spec_resolve(TargetModel::FirstValid(rest), a),
        !(spec_resolve(head, a) is NotFound) ==> spec_resolve(
            TargetModel::FirstValid(seq![head] + rest),
            a,
        ) == spec_resolve(head, a),
{
    let full = seq![head] + rest;
    assert(full.len() == rest.len() + 1);
    assert(full[0] == head);
    lemma_resolve_list_shift(head, rest, a, 0);
}

/// A default-selection operation against a target that resolves to an
/// application stream always fails with the stream-selection fault; it
/// never silently succeeds.
pub proof fn lemma_stream_never_selectable(t: TargetModel, a: AudioModel)
    ensures
        (spec_resolve(t, a) matches Outcome::Found(e) && e.kind is ApplicationStream) ==> {
            &&& spec_selected(t, a) == Outcome::Failure::<bool>(Fault::StreamSelection)
            &&& spec_set_as_selected(t, a) == Outcome::Failure::<crate::audio::ActionModel>(
                Fault::StreamSelection,
            )
        },
{
}


proof fn lemma_device_pos_after_volume(
    devs: Seq<DeviceModel>,
    write_index: u32,
    vol: u32,
    index: u32,
    from: int,
)
    ensures
        device_pos(crate::audio::set_device_volume(devs, write_index, vol), index, from)
            == device_pos(devs, index, from),
    decreases devs.len() - from,
{
    let devs2 = crate::audio::set_device_volume(devs, write_index, vol);
    if 0 <= from < devs.len() {
        assert(devs2[from].index == devs[from].index);
        if devs[from].index != index {
            lemma_device_pos_after_volume(devs, write_index, vol, index, from + 1);
        }
    }
}

proof fn lemma_stream_pos_after_volume(
    ss: Seq<StreamModel>,
    write_index: u32,
    vol: u32,
    key: Seq<char>,
    value: Seq<char>,
    from: int,
)
    ensures
        stream_pos(crate::audio::set_stream_volume(ss, write_index, vol), key, value, from)
            == stream_pos(ss, key, value, from),
    decreases ss.len() - from,
{
    let ss2 = crate::audio::set_stream_volume(ss, write_index, vol);
    if 0 <= from < ss.len() {
        assert(ss2[from].props == ss[from].props);
        assert(stream_matches(ss2[from], key, value) == stream_matches(ss[from], key, value));
        if !stream_matches(ss[from], key, value) {
            lemma_stream_pos_after_volume(ss, write_index, vol, key, value, from + 1);
        }
    }
}

/// Whether a volume action addresses this entity.
pub open spec fn volume_action_hits(e: EntityModel, act: ActionModel) -> bool {
    match act {
        ActionModel::SetDeviceVolume(kind, index, _) => e.kind == entity_kind_of_device(kind)
            && e.index == index,
        ActionModel::SetStreamVolume(index, _) => e.kind is ApplicationStream && e.index == index,
        _ => false,
    }
}

/// The native volume a volume action writes.
pub open spec fn action_volume(act: ActionModel) -> u32 {
    match act {
        ActionModel::SetDeviceVolume(_, _, vol) => vol,
        ActionModel::SetStreamVolume(_, vol) => vol,
        _ => 0,
    }
}

/// The entity as it stands after a volume action: every channel carries
/// the written native volume when the action addresses the entity, and
/// nothing changes otherwise.
pub open spec fn entity_after_volume(e: EntityModel, act: ActionModel) -> EntityModel {
    if volume_action_hits(e, act) {
        EntityModel { channels: Seq::new(e.channels.len(), |j: int| action_volume(act)), ..e }
    } else {
        e
    }
}

/// A volume write moves no device index, stream property, mute flag or
/// name: after it, every target resolves exactly as before, to the same
/// entity with only its channels rewritten where the action addressed it.
pub proof fn lemma_resolve_after_volume_write(t: TargetModel, a: AudioModel, act: ActionModel)
    requires
        act is SetDeviceVolume || act is SetStreamVolume,
    ensures
        ({
            let a2 = crate::audio::spec_apply(a, act);
            match spec_resolve(t, a) {
                Outcome::Found(e) => spec_resolve(t, a2) == Outcome::Found(
                    entity_after_volume(e, act),
                ),
                o => spec_resolve(t, a2) == o,
            }
        }),
    decreases t, 0int,
{
    let a2 = crate::audio::spec_apply(a, act);
    match t {
        TargetModel::StaticDevice(kind, index) => {
            let devs = a.devices(kind);
            let devs2 = a2.devices(kind);
            match act {
                ActionModel::SetDeviceVolume(k2, write_index, vol) => {
                    if kind == k2 {
                        assert(devs2 == crate::audio::set_device_volume(devs, write_index, vol));
                        lemma_device_pos_after_volume(devs, write_index, vol, index, 0);
                        match device_pos(devs, index, 0) {
                            Some(p) => {
                                lemma_device_pos_found(devs, index, 0);
                                let d = devs[p];
                                let d2 = devs2[p];
                                let e = entity_of_device(kind, d);
                                if d.index == write_index {
                                    assert(d2 == crate::audio::set_channels(d, vol));
                                    assert(volume_action_hits(e, act));
                                    assert(entity_of_device(kind, d2) =~~= entity_after_volume(
                                        e,
                                        act,
                                    ));
                                } else {
                                    assert(d2 == d);
                                    assert(!volume_action_hits(e, act));
                                }
                            },
                            None => {},
                        }
                    } else {
                        assert(devs2 == devs);
                        match device_pos(devs, index, 0) {
                            Some(p) => {
                                lemma_device_pos_found(devs, index, 0);
                                let e = entity_of_device(kind, devs[p]);
                                assert(!volume_action_hits(e, act));
                            },
                            None => {},
                        }
                    }
                },
                ActionModel::SetStreamVolume(write_index, vol) => {
                    assert(devs2 == devs);
                    match device_pos(devs, index, 0) {
                        Some(p) => {
                            lemma_device_pos_found(devs, index, 0);
                            let e = entity_of_device(kind, devs[p]);
                            assert(!volume_action_hits(e, act));
                        },
                        None => {},
                    }
                },
                _ => {},
            }
        },
        TargetModel::PropertyMatch(key, value) => {
            let ss = a.streams;
            let ss2 = a2.streams;
            match act {
                ActionModel::SetStreamVolume(write_index, vol) => {
                    assert(ss2 == crate::audio::set_stream_volume(ss, write_index, vol));
                    lemma_stream_pos_after_volume(ss, write_index, vol, key, value, 0);
                    match stream_pos(ss, key, value, 0) {
                        Some(p) => {
                            lemma_stream_pos_found(ss, key, value, 0);
                            let st = ss[p];
                            let st2 = ss2[p];
                            let e = entity_of_stream(st);
                            if st.index == write_index {
                                assert(volume_action_hits(e, act));
                                assert(entity_of_stream(st2) =~~= entity_after_volume(e, act));
                            } else {
                                assert(st2 == st);
                                assert(!volume_action_hits(e, act));
                            }
                        },
                        None => {},
                    }
                },
                ActionModel::SetDeviceVolume(_, _, _) => {
                    assert(ss2 == ss);
                    match stream_pos(ss, key, value, 0) {
                        Some(p) => {
                            lemma_stream_pos_found(ss, key, value, 0);
                            let e = entity_of_stream(ss[p]);
                            assert(!volume_action_hits(e, act));
                        },
                        None => {},
                    }
                },
                _ => {},
            }
        },
        TargetModel::FirstValid(ts) => {
            lemma_resolve_list_after_volume_write(ts, a, act, 0);
        },
    }
}

proof fn lemma_resolve_list_after_volume_write(
    ts: Seq<TargetModel>,
    a: AudioModel,
    act: ActionModel,
    from: int,
)
    requires
        act is SetDeviceVolume || act is SetStreamVolume,
    ensures
        ({
            let a2 = crate::audio::spec_apply(a, act);
            match spec_resolve_list(ts, a, from) {
                Outcome::Found(e) => spec_resolve_list(ts, a2, from) == Outcome::Found(
                    entity_after_volume(e, act),
                ),
                o => spec_resolve_list(ts, a2, from) == o,
            }
        }),
    decreases ts, ts.len() - from,
{
    if 0 <= from < ts.len() {
        lemma_resolve_after_volume_write(ts[from], a, act);
        lemma_resolve_list_after_volume_write(ts, a, act, from + 1);
    }
}

/// Volume round trip: writing a surface level to whatever a target
/// resolves to and reading it straight back yields the written level or
/// the level one below it - at most one quantization step of loss.
pub proof fn lemma_volume_round_trip(t: TargetModel, a: AudioModel, level: u8)
    requires
        level <= 127,
        spec_resolve(t, a) matches Outcome::Found(e) && e.channels.len() > 0,
    ensures
        ({
            let native = crate::audio::spec_native_of_level(level as int) as u32;
            let act = volume_action(spec_resolve(t, a)->Found_0, native);
            let a2 = crate::audio::spec_apply(a, act);
            &&& spec_set_volume(t, a, level) == Outcome::Found(act)
            &&& spec_volume(t, a2) == Outcome::Found(native)
            &&& level - 1 <= crate::audio::spec_level_of_native(native as int) <= level
        }),
{
    let e = spec_resolve(t, a)->Found_0;
    let native_int = crate::audio::spec_native_of_level(level as int);
    assert(crate::audio::VOLUME_NORMAL == 0x10000);
    vstd::arithmetic::div_mod::lemma_fundamental_div_mod(level * 0xffff, 127);
    assert(0 <= native_int <= 0xffff);
    let native = native_int as u32;
    let act = volume_action(e, native);
    assert(act is SetDeviceVolume || act is SetStreamVolume);
    assert(volume_action_hits(e, act));
    assert(action_volume(act) == native);
    lemma_resolve_after_volume_write(t, a, act);
    let a2 = crate::audio::spec_apply(a, act);
    let e2 = entity_after_volume(e, act);
    assert(spec_resolve(t, a2) == Outcome::Found(e2));
    let n = e.channels.len();
    assert(e2.channels =~= Seq::new(n, |j: int| native));
    crate::audio::lemma_avg_const(n, native);
    assert(crate::audio::spec_avg(e2.channels) == native);
    crate::audio::lemma_level_round_trip(level as int);
}

} // verus!
