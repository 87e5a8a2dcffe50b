//! The top-level dispatcher: decodes inbound three-byte surface messages
//! into audio mutations, and computes the outbound messages that keep the
//! surface display in step with the audio state.
//!
//! The deck is a pure dispatcher over a snapshot: it owns nothing but the
//! control-index-to-binding table.  Every entry point takes the current
//! [`AudioState`] and returns the mutations to issue and the messages to
//! send; performing them is the caller's business.
use vstd::prelude::*;

verus! {

use crate::audio::ActionModel;
use crate::audio::AudioAction;
use crate::audio::AudioModel;
use crate::audio::AudioState;
use crate::binding::Binding;
use crate::binding::BindingModel;
use crate::binding::DispatchError;
use crate::binding::DisplayState;
use crate::binding::EventKind;
use crate::binding::spec_apply_event;
use crate::binding::spec_poll;
use crate::outcome::Fault;

/// Opcode of a continuous-control message: inbound, the user turned a
/// knob; outbound, set the displayed level.
pub const KNOB_UPDATE: u8 = 0xBA;

/// Opcode of a discrete-control press (inbound only).
pub const BTN_DOWN: u8 = 0x9A;

/// Opcode of a discrete-control release; outbound, set an indicator on or
/// off.
pub const BTN_UP: u8 = 0x8A;

/// Number of control indices a surface can address (a 7-bit index).
pub const SLOT_COUNT: usize = 128;

/// One fixed-size three-byte control-surface message.
#[derive(Clone, Copy, Debug, PartialEq, Eq, Structural)]
pub struct Msg {
    pub opcode: u8,
    pub control: u8,
    pub value: u8,
}

impl Msg {
    /// The wire form of the message.
    pub fn bytes(&self) -> (r: [u8; 3])
        ensures
            r@ =~= seq![self.opcode, self.control, self.value],
    {
        [self.opcode, self.control, self.value]
    }
}

/// The outbound message that renders one display state on one control.
pub open spec fn msg_of_display(control: u8, d: DisplayState) -> Msg {
    match d {
        DisplayState::Level(v) => Msg { opcode: KNOB_UPDATE, control, value: v },
        DisplayState::Indicator(on) => Msg {
            opcode: BTN_UP,
            control,
            value: if on {
                1
            } else {
                0
            },
        },
    }
}

pub open spec fn slot_model(s: Option<Binding>) -> Option<BindingModel> {
    match s {
        Some(b) => Some(b@),
        None => None,
    }
}

/// The control-index-to-binding table: each 7-bit control index maps to at
/// most one binding.  Built once at startup; immutable afterwards.
pub struct BindingTable {
    slots: Vec<Option<Binding>>,
}

impl BindingTable {
    #[verifier::type_invariant]
    spec fn type_inv(self) -> bool {
        self.slots@.len() == SLOT_COUNT
    }
}

impl View for BindingTable {
    type V = Seq<Option<BindingModel>>;

    closed spec fn view(&self) -> Seq<Option<BindingModel>> {
        self.slots@.map_values(|s: Option<Binding>| slot_model(s))
    }
}

impl BindingTable {
    /// An empty table: every control index unbound.
    pub fn new() -> (r: BindingTable)
        ensures
            r@.len() == SLOT_COUNT,
            forall|i: int| 0 <= i < SLOT_COUNT ==> r@[i] is None,
    {
        let mut slots: Vec<Option<Binding>> = Vec::new();
        let mut i: usize = 0;
        while i < SLOT_COUNT
            invariant
                0 <= i <= SLOT_COUNT,
                slots@.len() == i,
                forall|j: int| 0 <= j < i ==> slots@[j] is None,
            decreases SLOT_COUNT - i,
        {
            slots.push(None);
            i = i + 1;
        }
        BindingTable { slots }
    }

    /// Binds a control index.
    pub fn set(&mut self, index: u8, binding: Binding)
        requires
            index < SLOT_COUNT,
        ensures
            final(self)@ == old(self)@.update(index as int, Some(binding@)),
    {
        proof {
            use_type_invariant(&*self);
        }
        let ghost b = binding@;
        self.slots[index as usize] = Some(binding);
        proof {
            assert(final(self)@ =~= old(self)@.update(index as int, Some(b)));
        }
    }

    /// The binding at a control index, if the index is addressable and
    /// bound.
    pub fn get(&self, index: u8) -> (r: Option<&Binding>)
        ensures
            (index as usize) < SLOT_COUNT ==> match r {
                Some(b) => self@[index as int] == Some(b@),
                None => self@[index as int] is None,
            },
            (index as usize) >= SLOT_COUNT ==> r is None,
    {
        proof {
            use_type_invariant(self);
        }
        if (index as usize) < SLOT_COUNT {
            match &self.slots[index as usize] {
                Some(b) => Some(b),
                None => None,
            }
        } else {
            None
        }
    }

    /// The derivation pass of table construction: inserts at `to` a mute
    /// binding derived from the binding at `from`, over the same target,
    /// so that one control's companion button mutes what the control's
    /// knob adjusts.
    pub fn derive_mute_into(&mut self, from: u8, to: u8)
        requires
            from < SLOT_COUNT,
            to < SLOT_COUNT,
            old(self)@[from as int] is Some,
        ensures
            old(self)@[from as int] matches Some(b) ==> final(self)@ == old(self)@.update(
                to as int,
                Some(BindingModel::MuteToggle(b.target())),
            ),
    {
        proof {
            use_type_invariant(&*self);
        }
        let derived = match &self.slots[from as usize] {
            Some(b) => b.to_mute(),
            None => vstd::pervasive::unreached(),
        };
        let ghost d = derived@;
        self.slots[to as usize] = Some(derived);
        proof {
            assert(final(self)@ =~= old(self)@.update(to as int, Some(d)));
        }
    }
}

/// The mutations and outbound messages one inbound event gives rise to.
#[derive(Debug, PartialEq, Eq)]
pub struct Response {
    pub actions: Vec<AudioAction>,
    pub outbound: Vec<Msg>,
}

/// Mathematical model of a [`Response`].
#[verifier::ext_equal]
pub struct ResponseModel {
    pub actions: Seq<ActionModel>,
    pub outbound: Seq<Msg>,
}

impl View for Response {
    type V = ResponseModel;

    open spec fn view(&self) -> ResponseModel {
        ResponseModel {
            actions: self.actions@.map_values(|a: AudioAction| a@),
            outbound: self.outbound@,
        }
    }
}

/// A response that does nothing.
pub open spec fn empty_response() -> ResponseModel {
    ResponseModel { actions: Seq::empty(), outbound: Seq::empty() }
}

/// The model of a dispatch result.
pub open spec fn response_result_model(r: Result<Response, DispatchError>) -> Result<
    ResponseModel,
    DispatchError,
> {
    match r {
        Ok(resp) => Ok(resp@),
        Err(e) => Err(e),
    }
}

/// The model of a flush result.
pub open spec fn flush_result_model(r: Result<Vec<Msg>, Fault>) -> Result<Seq<Msg>, Fault> {
    match r {
        Ok(v) => Ok(v@),
        Err(f) => Err(f),
    }
}

/// One outbound display message per bound control, in control-index order
/// from `from` on; the first failing poll aborts the whole cycle.
pub open spec fn spec_flush(b: Seq<Option<BindingModel>>, a: AudioModel, from: int) -> Result<
    Seq<Msg>,
    Fault,
>
    decreases b.len() - from,
{
    if from < 0 || from >= b.len() {
        Ok(Seq::empty())
    } else {
        match b[from] {
            None => spec_flush(b, a, from + 1),
            Some(bind) => match spec_poll(bind, a) {
                Err(f) => Err(f),
                Ok(d) => match spec_flush(b, a, from + 1) {
                    Ok(msgs) => Ok(seq![msg_of_display(from as u8, d)] + msgs),
                    Err(f) => Err(f),
                },
            },
        }
    }
}

/// What a continuous-control event at one index gives rise to: the volume
/// write of the bound target, a corrective reset-to-zero message for an
/// unbound index (an unbound knob must not retain a stale displayed
/// value), or a dispatch error for a binding of the wrong kind.
pub open spec fn spec_knob_update(
    b: Seq<Option<BindingModel>>,
    knob: u8,
    level: u8,
    a: AudioModel,
) -> Result<ResponseModel, DispatchError> {
    if 0 <= (knob as int) < b.len() && b[knob as int] is Some {
        match spec_apply_event(b[knob as int]->0, EventKind::Continuous, level, a) {
            Ok(Some(act)) => Ok(ResponseModel { actions: seq![act], outbound: Seq::empty() }),
            Ok(None) => Ok(empty_response()),
            Err(e) => Err(e),
        }
    } else {
        Ok(
            ResponseModel {
                actions: Seq::empty(),
                outbound: seq![Msg { opcode: KNOB_UPDATE, control: knob, value: 0 }],
            },
        )
    }
}

/// What a discrete-control event at one index gives rise to: the bound
/// target's mutation on a release, nothing on a press, silence for an
/// unbound index, or a dispatch error for a binding of the wrong kind.
pub open spec fn spec_button(
    b: Seq<Option<BindingModel>>,
    btn: u8,
    ev: EventKind,
    a: AudioModel,
) -> Result<ResponseModel, DispatchError> {
    if 0 <= (btn as int) < b.len() && b[btn as int] is Some {
        match spec_apply_event(b[btn as int]->0, ev, 0, a) {
            Ok(Some(act)) => Ok(ResponseModel { actions: seq![act], outbound: Seq::empty() }),
            Ok(None) => Ok(empty_response()),
            Err(e) => Err(e),
        }
    } else {
        Ok(empty_response())
    }
}

/// What one raw inbound message gives rise to.  Only well-formed
/// three-byte messages with 7-bit data bytes and a known opcode are acted
/// on; any other byte pattern is ignored, not an error.
pub open spec fn spec_handle(b: Seq<Option<BindingModel>>, msg: Seq<u8>, a: AudioModel) -> Result<
    ResponseModel,
    DispatchError,
> {
    if msg.len() == 3 && msg[1] < 128 && msg[2] < 128 {
        if msg[0] == KNOB_UPDATE {
            spec_knob_update(b, msg[1], msg[2], a)
        } else if msg[0] == BTN_DOWN {
            spec_button(b, msg[1], EventKind::Press, a)
        } else if msg[0] == BTN_UP {
            spec_button(b, msg[1], EventKind::Release, a)
        } else {
            Ok(empty_response())
        }
    } else {
        Ok(empty_response())
    }
}


fn empty_resp() -> (r: Response)
    ensures
        r@ == empty_response(),
{
    let r = Response { actions: Vec::new(), outbound: Vec::new() };
    proof {
        assert(r@ =~~= empty_response());
    }
    r
}

/// The fixed message sequence that zeroes the whole surface: every knob
/// level and every button indicator off.
pub open spec fn spec_clear() -> Seq<Msg> {
    Seq::new(
        32,
        |i: int|
            if 0 <= i < 8 {
                Msg { opcode: KNOB_UPDATE, control: (11 + i) as u8, value: 0 }
            } else {
                Msg { opcode: BTN_UP, control: (16 + i) as u8, value: 0 }
            },
    )
}

/// The top-level dispatcher: the binding table and nothing else.
pub struct Deck {
    bindings: BindingTable,
}

impl View for Deck {
    type V = Seq<Option<BindingModel>>;

    closed spec fn view(&self) -> Seq<Option<BindingModel>> {
        self.bindings@
    }
}

impl Deck {
    /// A deck over a finished binding table.
    pub fn new(bindings: BindingTable) -> (d: Deck)
        ensures
            d@ == bindings@,
    {
        Deck { bindings }
    }

    /// The messages that reset the surface to an all-zero display: knob
    /// levels for the knob row, indicators off for the button rows.
    pub fn clear(&self) -> (r: Vec<Msg>)
        ensures
            r@ == spec_clear(),
    {
        let mut out: Vec<Msg> = Vec::new();
        let mut i: u8 = 11;
        while i <= 18
            invariant
                11 <= i <= 19,
                out@.len() == i - 11,
                forall|j: int| 0 <= j < i - 11 ==> out@[j] == spec_clear()[j],
            decreases 19 - i,
        {
            out.push(Msg { opcode: KNOB_UPDATE, control: i, value: 0 });
            i = i + 1;
        }
        let mut i: u8 = 24;
        while i <= 47
            invariant
                24 <= i <= 48,
                out@.len() == 8 + i - 24,
                forall|j: int| 0 <= j < 8 + i - 24 ==> out@[j] == spec_clear()[j],
            decreases 48 - i,
        {
            out.push(Msg { opcode: BTN_UP, control: i, value: 0 });
            i = i + 1;
        }
        proof {
            assert(out@ =~= spec_clear());
        }
        out
    }

    /// Computes one outbound display message per bound control against the
    /// snapshot, in control-index order.  The first failing poll aborts
    /// the cycle: a broken audio-subsystem query must not produce a
    /// half-stale, half-fresh display; the next cycle retries.
    pub fn flush_values_to_board(&self, audio: &AudioState) -> (r: Result<Vec<Msg>, Fault>)
        ensures
            flush_result_model(r) == spec_flush(self@, audio@, 0),
    {
        proof {
            use_type_invariant(&self.bindings);
        }
        let ghost bm = self@;
        let ghost am = audio@;
        let mut out: Vec<Msg> = Vec::new();
        let mut i: usize = 0;
        while i < SLOT_COUNT
            invariant
                0 <= i <= SLOT_COUNT,
                bm == self@,
                am == audio@,
                bm.len() == SLOT_COUNT,
                match spec_flush(bm, am, i as int) {
                    Ok(rest) => spec_flush(bm, am, 0) == Ok::<Seq<Msg>, Fault>(out@ + rest),
                    Err(f) => spec_flush(bm, am, 0) == Err::<Seq<Msg>, Fault>(f),
                },
            decreases SLOT_COUNT - i,
        {
            match self.bindings.get(i as u8) {
                None => {},
                Some(b) => {
                    match b.poll_for_display(audio) {
                        Err(f) => {
                            return Err(f);
                        },
                        Ok(d) => {
                            let ghost prev = out@;
                            let m = match d {
                                DisplayState::Level(v) => Msg {
                                    opcode: KNOB_UPDATE,
                                    control: i as u8,
                                    value: v,
                                },
                                DisplayState::Indicator(on) => Msg {
                                    opcode: BTN_UP,
                                    control: i as u8,
                                    value: if on {
                                        1
                                    } else {
                                        0
                                    },
                                },
                            };
                            proof {
                                assert(m == msg_of_display(i as u8, d));
                            }
                            out.push(m);
                            proof {
                                match spec_flush(bm, am, i + 1) {
                                    Ok(rest2) => {
                                        assert(prev + (seq![m] + rest2) =~= out@ + rest2);
                                    },
                                    Err(_) => {},
                                }
                            }
                        },
                    }
                },
            }
            i = i + 1;
        }
        proof {
            assert(out@ + Seq::<Msg>::empty() =~= out@);
        }
        Ok(out)
    }

    /// Handles a continuous-control event: forwards the 7-bit level to the
    /// bound volume target, resets an unbound knob's display to zero, and
    /// rejects a binding of any other kind.
    pub fn knob_update(&self, knob: u8, value: u8, audio: &AudioState) -> (r: Result<
        Response,
        DispatchError,
    >)
        requires
            value <= 127,
        ensures
            response_result_model(r) == spec_knob_update(self@, knob, value, audio@),
    {
        proof {
            use_type_invariant(&self.bindings);
        }
        match self.bindings.get(knob) {
            Some(b) => match b.apply_hardware_event(EventKind::Continuous, value, audio) {
                Ok(Some(act)) => {
                    let mut actions: Vec<AudioAction> = Vec::new();
                    actions.push(act);
                    let resp = Response { actions, outbound: Vec::new() };
                    proof {
                        assert(resp@.actions =~= seq![resp.actions@[0]@]);
                        assert(resp@.outbound =~= Seq::<Msg>::empty());
                    }
                    Ok(resp)
                },
                Ok(None) => Ok(empty_resp()),
                Err(e) => Err(e),
            },
            None => {
                let mut outbound: Vec<Msg> = Vec::new();
                outbound.push(Msg { opcode: KNOB_UPDATE, control: knob, value: 0 });
                let resp = Response { actions: Vec::new(), outbound };
                proof {
                    assert(resp@.actions =~= Seq::<ActionModel>::empty());
                    assert(resp@.outbound =~= seq![Msg { opcode: KNOB_UPDATE, control: knob, value: 0 }]);
                }
                Ok(resp)
            },
        }
    }

    /// Dispatches a discrete-control event at one index.
    fn button_event(&self, btn: u8, ev: EventKind, audio: &AudioState) -> (r: Result<
        Response,
        DispatchError,
    >)
        ensures
            response_result_model(r) == spec_button(self@, btn, ev, audio@),
    {
        proof {
            use_type_invariant(&self.bindings);
        }
        match self.bindings.get(btn) {
            Some(b) => match b.apply_hardware_event(ev, 0, audio) {
                Ok(Some(act)) => {
                    let mut actions: Vec<AudioAction> = Vec::new();
                    actions.push(act);
                    let resp = Response { actions, outbound: Vec::new() };
                    proof {
                        assert(resp@.actions =~= seq![resp.actions@[0]@]);
                        assert(resp@.outbound =~= Seq::<Msg>::empty());
                    }
                    Ok(resp)
                },
                Ok(None) => Ok(empty_resp()),
                Err(e) => Err(e),
            },
            None => Ok(empty_resp()),
        }
    }

    /// Handles a completed button actuation (the release): a mute binding
    /// toggles its target, a select binding assigns its target as default,
    /// an unbound button is silently ignored, and a volume binding is a
    /// dispatch error.
    pub fn btn_press(&self, btn: u8, audio: &AudioState) -> (r: Result<Response, DispatchError>)
        ensures
            response_result_model(r) == spec_button(self@, btn, EventKind::Release, audio@),
    {
        self.button_event(btn, EventKind::Release, audio)
    }

    /// Decodes one raw inbound surface message and dispatches it.  Only
    /// three-byte messages with 7-bit data bytes and a known opcode are
    /// acted on; anything else is ignored, not an error.  Button presses
    /// are dispatched but act only as kind checks; the mutation happens on
    /// the release.
    pub fn handle_midi_message(&self, message: &[u8], audio: &AudioState) -> (r: Result<
        Response,
        DispatchError,
    >)
        ensures
            response_result_model(r) == spec_handle(self@, message@, audio@),
    {
        if message.len() == 3 {
            let op = message[0];
            let idx = message[1];
            let val = message[2];
            if idx < 128 && val < 128 {
                if op == KNOB_UPDATE {
                    self.knob_update(idx, val, audio)
                } else if op == BTN_DOWN {
                    self.button_event(idx, EventKind::Press, audio)
                } else if op == BTN_UP {
                    self.button_event(idx, EventKind::Release, audio)
                } else {
                    Ok(empty_resp())
                }
            } else {
                Ok(empty_resp())
            }
        } else {
            Ok(empty_resp())
        }
    }
}

/// Polling the display twice in a row with no intervening hardware or
/// audio-subsystem change yields identical outbound messages: a flush is a
/// function of the binding table and the audio state alone.
pub proof fn lemma_flush_idempotent(
    b1: Seq<Option<BindingModel>>,
    a1: AudioModel,
    b2: Seq<Option<BindingModel>>,
    a2: AudioModel,
)
    requires
        b1 == b2,
        a1 == a2,
    ensures
        spec_flush(b1, a1, 0) == spec_flush(b2, a2, 0),
{
}

} // verus!
