//! Control semantics: what one physical control does with its target.
//!
//! A [`Binding`] pairs one interaction mode with exactly one
//! [`Target`]: a continuous knob adjusting volume, a button toggling mute,
//! or a button selecting the default device.  Whether a control is a knob
//! or a button is only known when a hardware event arrives, so a mismatch
//! between event and binding kind is a dispatch-time error, not a
//! construction-time one.
use vstd::prelude::*;

verus! {

broadcast use vstd::std_specs::vec::axiom_vec_index_decreases;

use crate::audio::AudioAction;
use crate::audio::AudioModel;
use crate::audio::AudioState;
use crate::audio::ActionModel;
use crate::outcome::Fault;
use crate::outcome::Outcome;
use crate::target::Target;
use crate::target::TargetModel;
use crate::target::spec_muted;
use crate::target::spec_selected;
use crate::target::spec_set_as_selected;
use crate::target::spec_set_volume;
use crate::target::spec_toggle_muted;
use crate::target::spec_volume;
use crate::target::target_model;

impl Clone for Target {
    /// A structural copy: the clone describes exactly the same resolution
    /// rule.
    fn clone(&self) -> (res: Target)
        ensures
            res@ == self@,
        decreases *self,
    {
        match self {
            Target::StaticDevice(kind, index) => Target::StaticDevice(*kind, *index),
            Target::PropertyMatch(key, value) => Target::PropertyMatch(
                key.clone(),
                value.clone(),
            ),
            Target::FirstValid(ts) => {
                let n = ts.len();
                let mut copies: Vec<Target> = Vec::new();
                let mut i: usize = 0;
                while i < n
                    invariant
                        0 <= i <= n,
                        n == ts@.len(),
                        copies@.len() == i,
                        forall|j: int| 0 <= j < i ==> (#[trigger] copies@[j])@ == ts@[j]@,
                        *self matches Target::FirstValid(tsi) && tsi@ == ts@,
                    decreases n - i,
                {
                    let c = ts[i].clone();
                    copies.push(c);
                    i = i + 1;
                }
                let res = Target::FirstValid(copies);
                proof {
                    assert(target_model(res)->FirstValid_0 =~= target_model(*self)->FirstValid_0);
                }
                res
            },
        }
    }
}

/// The interaction mode of one physical control over one target.
#[derive(Debug, PartialEq, Eq)]
pub enum Binding {
    /// A continuous control adjusting the target's volume.
    VolumeControl(Target),
    /// A discrete control toggling the target's mute flag.
    MuteToggle(Target),
    /// A discrete control selecting the target as default device.
    DefaultSelect(Target),
}

/// Mathematical model of a [`Binding`].
pub enum BindingModel {
    VolumeControl(TargetModel),
    MuteToggle(TargetModel),
    DefaultSelect(TargetModel),
}

impl View for Binding {
    type V = BindingModel;

    open spec fn view(&self) -> BindingModel {
        match self {
            Binding::VolumeControl(t) => BindingModel::VolumeControl(t@),
            Binding::MuteToggle(t) => BindingModel::MuteToggle(t@),
            Binding::DefaultSelect(t) => BindingModel::DefaultSelect(t@),
        }
    }
}

impl BindingModel {
    /// The resolution rule the binding wraps, whatever its mode.
    pub open spec fn target(self) -> TargetModel {
        match self {
            BindingModel::VolumeControl(t) => t,
            BindingModel::MuteToggle(t) => t,
            BindingModel::DefaultSelect(t) => t,
        }
    }
}

/// What one control should show: a level for a knob, an on/off state for a
/// button indicator.
#[derive(Clone, Copy, Debug, PartialEq, Eq, Structural)]
pub enum DisplayState {
    Level(u8),
    Indicator(bool),
}

/// The kind of surface interaction delivered to a binding.
#[derive(Clone, Copy, Debug, PartialEq, Eq, Structural)]
pub enum EventKind {
    /// A continuous control moved; carries a 7-bit level.
    Continuous,
    /// A discrete control was pressed down.
    Press,
    /// A discrete control was released.
    Release,
}

/// Why dispatching a hardware event failed.
#[derive(Clone, Copy, Debug, PartialEq, Eq, Structural)]
pub enum DispatchError {
    /// The target operation itself failed.
    Failed(Fault),
    /// The event kind does not fit the binding: a configuration error,
    /// surfaced to the caller rather than handled here.
    WrongControlKind,
}

/// What one binding reports for the display: a volume as a 7-bit level, a
/// mute flag or a selected flag as an indicator; absence shows as a zero
/// level or an off indicator.  A failure is not silently defaulted: it
/// propagates.
pub open spec fn spec_poll(b: BindingModel, a: AudioModel) -> Result<DisplayState, Fault> {
    match b {
        BindingModel::VolumeControl(t) => match spec_volume(t, a) {
            Outcome::Found(n) => Ok(
                DisplayState::Level(crate::audio::spec_level_of_native(n as int) as u8),
            ),
            Outcome::NotFound => Ok(DisplayState::Level(0)),
            Outcome::Failure(f) => Err(f),
        },
        BindingModel::MuteToggle(t) => match spec_muted(t, a) {
            Outcome::Found(m) => Ok(DisplayState::Indicator(m)),
            Outcome::NotFound => Ok(DisplayState::Indicator(false)),
            Outcome::Failure(f) => Err(f),
        },
        BindingModel::DefaultSelect(t) => match spec_selected(t, a) {
            Outcome::Found(sel) => Ok(DisplayState::Indicator(sel)),
            Outcome::NotFound => Ok(DisplayState::Indicator(false)),
            Outcome::Failure(f) => Err(f),
        },
    }
}

/// The mutation a binding issues for one surface interaction.
///
/// A volume binding accepts only continuous events; mute and select
/// bindings accept only discrete events and act on the release, ignoring
/// the press.  `Ok(None)` means nothing is to be done (absence, or an
/// ignored press); a fault of the operation and a binding-kind mismatch
/// are kept apart.
pub open spec fn spec_apply_event(
    b: BindingModel,
    ev: EventKind,
    level: u8,
    a: AudioModel,
) -> Result<Option<ActionModel>, DispatchError> {
    match b {
        BindingModel::VolumeControl(t) => if ev is Continuous {
            match spec_set_volume(t, a, level) {
                Outcome::Found(act) => Ok(Some(act)),
                Outcome::NotFound => Ok(None),
                Outcome::Failure(f) => Err(DispatchError::Failed(f)),
            }
        } else {
            Err(DispatchError::WrongControlKind)
        },
        BindingModel::MuteToggle(t) => match ev {
            EventKind::Continuous => Err(DispatchError::WrongControlKind),
            EventKind::Press => Ok(None),
            EventKind::Release => match spec_toggle_muted(t, a) {
                Outcome::Found(act) => Ok(Some(act)),
                Outcome::NotFound => Ok(None),
                Outcome::Failure(f) => Err(DispatchError::Failed(f)),
            },
        },
        BindingModel::DefaultSelect(t) => match ev {
            EventKind::Continuous => Err(DispatchError::WrongControlKind),
            EventKind::Press => Ok(None),
            EventKind::Release => match spec_set_as_selected(t, a) {
                Outcome::Found(act) => Ok(Some(act)),
                Outcome::NotFound => Ok(None),
                Outcome::Failure(f) => Err(DispatchError::Failed(f)),
            },
        },
    }
}

/// The model of an action-dispatch result.
pub open spec fn action_result_model(r: Result<Option<AudioAction>, DispatchError>) -> Result<
    Option<ActionModel>,
    DispatchError,
> {
    match r {
        Ok(Some(act)) => Ok(Some(act@)),
        Ok(None) => Ok(None),
        Err(e) => Err(e),
    }
}

impl Binding {
    /// Binds a continuous control to the target's volume.
    pub fn volume(t: Target) -> (b: Binding)
        ensures
            b@ == BindingModel::VolumeControl(t@),
    {
        Binding::VolumeControl(t)
    }

    /// Binds a discrete control to toggling the target's mute flag.
    pub fn mute(t: Target) -> (b: Binding)
        ensures
            b@ == BindingModel::MuteToggle(t@),
    {
        Binding::MuteToggle(t)
    }

    /// Binds a discrete control to selecting the target as default device.
    pub fn select(t: Target) -> (b: Binding)
        ensures
            b@ == BindingModel::DefaultSelect(t@),
    {
        Binding::DefaultSelect(t)
    }

    /// Derives a mute binding over exactly this binding's target,
    /// whatever this binding's own mode: the derived binding resolves by
    /// the same rule.
    pub fn to_mute(&self) -> (b: Binding)
        ensures
            b@ == BindingModel::MuteToggle(self@.target()),
    {
        let t = match self {
            Binding::VolumeControl(t) => t,
            Binding::MuteToggle(t) => t,
            Binding::DefaultSelect(t) => t,
        };
        Binding::MuteToggle(t.clone())
    }

    /// Derives a volume binding over exactly this binding's target,
    /// whatever this binding's own mode.
    pub fn to_volume(&self) -> (b: Binding)
        ensures
            b@ == BindingModel::VolumeControl(self@.target()),
    {
        let t = match self {
            Binding::VolumeControl(t) => t,
            Binding::MuteToggle(t) => t,
            Binding::DefaultSelect(t) => t,
        };
        Binding::VolumeControl(t.clone())
    }

    /// Reads the display state this binding's control should show right
    /// now.
    pub fn poll_for_display(&self, audio: &AudioState) -> (r: Result<DisplayState, Fault>)
        ensures
            r == spec_poll(self@, audio@),
    {
        match self {
            Binding::VolumeControl(t) => match t.volume(audio) {
                Outcome::Found(n) => Ok(DisplayState::Level(crate::audio::level_of_native(n))),
                Outcome::NotFound => Ok(DisplayState::Level(0)),
                Outcome::Failure(f) => Err(f),
            },
            Binding::MuteToggle(t) => match t.muted(audio) {
                Outcome::Found(m) => Ok(DisplayState::Indicator(m)),
                Outcome::NotFound => Ok(DisplayState::Indicator(false)),
                Outcome::Failure(f) => Err(f),
            },
            Binding::DefaultSelect(t) => match t.selected(audio) {
                Outcome::Found(sel) => Ok(DisplayState::Indicator(sel)),
                Outcome::NotFound => Ok(DisplayState::Indicator(false)),
                Outcome::Failure(f) => Err(f),
            },
        }
    }

    /// Dispatches one surface interaction to this binding and computes the
    /// mutation to issue, if any.
    pub fn apply_hardware_event(&self, ev: EventKind, level: u8, audio: &AudioState) -> (r: Result<
        Option<AudioAction>,
        DispatchError,
    >)
        requires
            level <= 127,
        ensures
            action_result_model(r) == spec_apply_event(self@, ev, level, audio@),
    {
        match self {
            Binding::VolumeControl(t) => match ev {
                EventKind::Continuous => match t.set_volume(audio, level) {
                    Outcome::Found(act) => Ok(Some(act)),
                    Outcome::NotFound => Ok(None),
                    Outcome::Failure(f) => Err(DispatchError::Failed(f)),
                },
                _ => Err(DispatchError::WrongControlKind),
            },
            Binding::MuteToggle(t) => match ev {
                EventKind::Continuous => Err(DispatchError::WrongControlKind),
                EventKind::Press => Ok(None),
                EventKind::Release => match t.toggle_muted(audio) {
                    Outcome::Found(act) => Ok(Some(act)),
                    Outcome::NotFound => Ok(None),
                    Outcome::Failure(f) => Err(DispatchError::Failed(f)),
                },
            },
            Binding::DefaultSelect(t) => match ev {
                EventKind::Continuous => Err(DispatchError::WrongControlKind),
                EventKind::Press => Ok(None),
                EventKind::Release => match t.set_as_selected(audio) {
                    Outcome::Found(act) => Ok(Some(act)),
                    Outcome::NotFound => Ok(None),
                    Outcome::Failure(f) => Err(DispatchError::Failed(f)),
                },
            },
        }
    }
}

} // verus!
