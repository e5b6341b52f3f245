//! Protocol driver for the Mackie Control / Logic Control device family.
//!
//! The driver is a pure state machine: every operation maps the current
//! session state and one input to a new state and an ordered batch of
//! outbound messages. Nothing here blocks, retries or spawns work.

use crate::event::{
    CtrlSurfEvent, Data, Error, Feedback, Mixer, Msg, MsgSpec, Timecode, Transport,
    lemma_msg_views_push, msg_views,
};
use crate::midi;
use crate::midi::{NORMALIZED_MAX, SYSEX_END, SYSEX_START, hi7, lo7};
use vstd::prelude::*;

verus! {

// Device sub-model ids.
pub const XTOUCH_ID: u8 = 0x14;
pub const LOGIC_CONTROL_ID: u8 = 0x10;
pub const LOGIC_CONTROL_EXT_ID: u8 = 0x11;

// Handshake request / reply codes.
pub const QUERY_DEVICE: u8 = 0x00;
pub const QUERY_HOST: u8 = 0x01;
pub const HOST_REPLY: u8 = 0x02;
pub const DEVICE_OK: u8 = 0x03;
pub const DEVICE_ERR: u8 = 0x04;

// Status-byte tags.
pub const BUTTON_TAG: u8 = 0x90;
pub const DISPLAY_TAG: u8 = 0xb0;
pub const FADER_TAG: u8 = 0xe0;

// Button values and ids.
pub const PRESSED: u8 = 127;
pub const RELEASED: u8 = 0;
pub const BUTTON_PREVIOUS: u8 = 91;
pub const BUTTON_NEXT: u8 = 92;
pub const BUTTON_STOP: u8 = 93;
pub const BUTTON_PLAY: u8 = 94;
pub const FADER_TOUCHED: u8 = 104;

/// A touch-button value above this threshold means the fader is held.
pub const TOUCH_THRESHOLD: u8 = 64;

/// Display index of the leftmost timecode digit; digits count down from it.
pub const TIME_LEFT_DIGIT: u8 = 0x49;

/// Step reached inside the connection handshake.
#[derive(Clone, Copy, Debug, PartialEq, Eq)]
pub enum ConnectionStatus {
    DeviceQueried,
    ChallengeReplied,
}

/// Connection state of one driver session. `Playing` and `Stopped` are
/// refinements of `Connected`: they are reachable only from it.
#[derive(Clone, Copy, Debug, PartialEq, Eq)]
pub enum State {
    Connecting(ConnectionStatus),
    Connected,
    Disconnected,
    Playing,
    Stopped,
}

/// Whether the device is connected: transport and mixer traffic is
/// meaningful only in these states.
pub open spec fn connected_spec(s: State) -> bool {
    !(s is Connecting || s is Disconnected)
}

/// What `reset` does to the connection state: the connected family collapses
/// back to plain `Connected`, everything else passes through unchanged.
pub open spec fn collapse(s: State) -> State {
    match s {
        State::Connected | State::Playing | State::Stopped => State::Connected,
        other => other,
    }
}

/// Fader-touch arbitration state. While the user holds the fader,
/// application volume changes are buffered instead of moving the motor.
#[derive(Clone, Copy, Debug, PartialEq, Eq)]
pub enum FaderState {
    Released,
    Touched { last_volume: Option<u16> },
}

/// Any volume buffered in the fader state fits in 14 bits.
pub open spec fn fader_wf(f: FaderState) -> bool {
    match f {
        FaderState::Touched { last_volume: Some(v) } => v <= NORMALIZED_MAX,
        _ => true,
    }
}

/// The mathematical value of a driver: the rendered display digits as a
/// sequence, and the session fields as plain data.
#[verifier::ext_equal]
pub struct MackieModel {
    pub tc: Seq<u8>,
    pub chan: u8,
    pub state: State,
    pub fader: FaderState,
    pub device_id: Option<u8>,
}

/// The ten blank digits of a freshly cleared timecode display.
pub open spec fn blank_tc() -> Seq<u8> {
    Seq::new(10, |i: int| 0x20u8)
}

/// The state a fresh driver starts in.
pub open spec fn init_model() -> MackieModel {
    MackieModel {
        tc: blank_tc(),
        chan: 0,
        state: State::Disconnected,
        fader: FaderState::Released,
        device_id: None,
    }
}

/// The driver for one control-surface binding.
#[derive(Debug)]
pub struct Mackie {
    last_tc: TimecodeBreakDown,
    chan: u8,
    state: State,
    fader_state: FaderState,
    device_id: Option<u8>,
}

impl View for Mackie {
    type V = MackieModel;

    closed spec fn view(&self) -> MackieModel {
        MackieModel {
            tc: self.last_tc@,
            chan: self.chan,
            state: self.state,
            fader: self.fader_state,
            device_id: self.device_id,
        }
    }
}

impl Mackie {
    /// Session invariant: the channel is a nibble, the display buffer holds
    /// ten digits, and any buffered volume is a 14-bit value.
    pub open spec fn wf(&self) -> bool {
        &&& self@.chan <= 0x0f
        &&& self@.tc.len() == 10
        &&& fader_wf(self@.fader)
    }
}

impl Default for Mackie {
    fn default() -> (r: Mackie)
        ensures
            r@ == init_model(),
            r.wf(),
    {
        let r = Mackie {
            last_tc: TimecodeBreakDown::blank(),
            chan: 0,
            state: State::Disconnected,
            fader_state: FaderState::Released,
            device_id: None,
        };
        proof {
            assert(r@ =~= init_model());
        }
        r
    }
}

// Observers.
impl Mackie {
    pub fn is_connected(&self) -> (r: bool)
        ensures
            r == connected_spec(self@.state),
    {
        !(matches!(self.state, State::Connecting(_) | State::Disconnected))
    }

    pub fn state(&self) -> (r: State)
        ensures
            r == self@.state,
    {
        self.state
    }

    pub fn fader_state(&self) -> (r: FaderState)
        ensures
            r == self@.fader,
    {
        self.fader_state
    }

    pub fn device_id(&self) -> (r: Option<u8>)
        ensures
            r == self@.device_id,
    {
        self.device_id
    }

    pub fn channel(&self) -> (r: u8)
        ensures
            r == self@.chan,
    {
        self.chan
    }
}

// The bytes of each outbound device message.

/// A button (LED) message on `chan`.
pub open spec fn button_bytes(chan: u8, id: u8, value: u8) -> Seq<u8> {
    seq![BUTTON_TAG | chan, id, value]
}

/// A 7-segment display update for buffer position `pos` (0 is leftmost).
pub open spec fn display_bytes(pos: int, digit: u8) -> Seq<u8> {
    seq![DISPLAY_TAG, (TIME_LEFT_DIGIT - pos) as u8, digit]
}

/// A fader-position message on `chan` carrying a 14-bit value.
pub open spec fn fader_bytes(chan: u8, v: u16) -> Seq<u8> {
    seq![FADER_TAG | chan, hi7(v), lo7(v)]
}

/// The five-byte sysex payload header: manufacturer id, sub-model id, code.
pub open spec fn header(device_id: u8, code: u8) -> Seq<u8> {
    seq![0x00u8, 0x00u8, 0x66u8, device_id, code]
}

/// A sysex payload wrapped in its framing bytes.
pub open spec fn sysex_frame(payload: Seq<u8>) -> Seq<u8> {
    seq![SYSEX_START] + payload + seq![SYSEX_END]
}

// The challenge-response pairing cipher. Each byte is computed with 8-bit
// wraparound arithmetic, then masked to the 7 bits a MIDI data byte can hold.

pub open spec fn cipher0(c0: u8, c1: u8, c2: u8, c3: u8) -> u8 {
    (((c0 + (c1 ^ 0x0a) + 256 - c3) % 256) as u8) & 0x7f
}

pub open spec fn cipher1(c0: u8, c1: u8, c2: u8, c3: u8) -> u8 {
    ((c2 >> 4) ^ (((c0 + c3) % 256) as u8)) & 0x7f
}

pub open spec fn cipher2(c0: u8, c1: u8, c2: u8, c3: u8) -> u8 {
    ((((c3 + 256 - (c2 << 2)) % 256) as u8) ^ (c0 | c1)) & 0x7f
}

pub open spec fn cipher3(c0: u8, c1: u8, c2: u8, c3: u8) -> u8 {
    (((c1 + 256 - c2 + (0xf0 ^ (c3 << 4))) % 256) as u8) & 0x7f
}

/// The four response bytes for a four-byte challenge.
pub open spec fn cipher(c0: u8, c1: u8, c2: u8, c3: u8) -> Seq<u8> {
    seq![
        cipher0(c0, c1, c2, c3),
        cipher1(c0, c1, c2, c3),
        cipher2(c0, c1, c2, c3),
        cipher3(c0, c1, c2, c3),
    ]
}

/// Computes the cipher response for a four-byte challenge.
pub fn challenge_response(c0: u8, c1: u8, c2: u8, c3: u8) -> (r: (u8, u8, u8, u8))
    ensures
        r.0 == cipher0(c0, c1, c2, c3),
        r.1 == cipher1(c0, c1, c2, c3),
        r.2 == cipher2(c0, c1, c2, c3),
        r.3 == cipher3(c0, c1, c2, c3),
{
    let t0: u16 = (c0 as u16 + ((c1 ^ 0x0a) as u16) + 256 - c3 as u16) % 256;
    let r0: u8 = (t0 as u8) & 0x7f;

    let s1: u8 = ((c0 as u16 + c3 as u16) % 256) as u8;
    let r1: u8 = ((c2 >> 4) ^ s1) & 0x7f;

    let sh2: u8 = c2 << 2;
    let d2: u8 = ((c3 as u16 + 256 - sh2 as u16) % 256) as u8;
    let r2: u8 = (d2 ^ (c0 | c1)) & 0x7f;

    let x3: u8 = 0xf0 ^ (c3 << 4);
    let t3: u16 = (c1 as u16 + 256 - c2 as u16 + x3 as u16) % 256;
    let r3: u8 = (t3 as u8) & 0x7f;

    (r0, r1, r2, r3)
}

// Building messages.

/// Builds a three-byte device-bound message.
fn msg3(b0: u8, b1: u8, b2: u8) -> (r: Msg)
    ensures
        r@ == MsgSpec::ToDevice(seq![b0, b1, b2]),
{
    let mut v: Vec<u8> = Vec::new();
    v.push(b0);
    v.push(b1);
    v.push(b2);
    proof {
        assert(v@ =~= seq![b0, b1, b2]);
    }
    Msg::ToDevice(midi::Msg::from_bytes(v))
}

/// Builds the five-byte payload header addressed to one sub-model id.
fn payload_for(device_id: u8, code: u8) -> (r: Vec<u8>)
    ensures
        r@ == header(device_id, code),
{
    let mut v: Vec<u8> = Vec::new();
    v.push(0x00);
    v.push(0x00);
    v.push(0x66);
    v.push(device_id);
    v.push(code);
    proof {
        assert(v@ =~= header(device_id, code));
    }
    v
}

// Reset.

/// The button-LED-off messages reset emits, in button-id order.
pub open spec fn reset_button_msgs(chan: u8) -> Seq<MsgSpec> {
    Seq::new(4, |i: int| MsgSpec::ToDevice(button_bytes(chan, (BUTTON_PREVIOUS + i) as u8, RELEASED)))
}

/// The first `n` display-blanking messages reset emits.
pub open spec fn clear_display_msgs(n: int) -> Seq<MsgSpec> {
    Seq::new(n as nat, |i: int| MsgSpec::ToDevice(display_bytes(i, 0x20)))
}

/// The full batch reset emits: four LED-off messages, then ten blanks.
pub open spec fn reset_msgs(chan: u8) -> Seq<MsgSpec> {
    reset_button_msgs(chan) + clear_display_msgs(10)
}

/// What reset does to the driver state: the connected family collapses to
/// `Connected`, fader and display go back to default, and the session
/// identity (channel, bound device id) is preserved.
pub open spec fn reset_model(m: MackieModel) -> MackieModel {
    MackieModel {
        tc: blank_tc(),
        state: collapse(m.state),
        fader: FaderState::Released,
        ..m
    }
}

/// Reset idempotence law: a second reset lands in the same state as the
/// first, and, the channel being preserved, emits the same message batch.
pub proof fn lemma_reset_idempotent(m: MackieModel)
    ensures
        reset_model(reset_model(m)) == reset_model(m),
        reset_msgs(reset_model(m).chan) == reset_msgs(m.chan),
{
    assert(reset_model(reset_model(m)) =~= reset_model(m));
}

impl Mackie {
    /// Clears all button and display feedback and collapses the connected
    /// state family back to `Connected`, keeping the session identity.
    pub fn reset(&mut self) -> (r: Vec<Msg>)
        requires
            old(self).wf(),
        ensures
            final(self).wf(),
            final(self)@ == reset_model(old(self)@),
            msg_views(r@) == reset_msgs(old(self)@.chan),
    {
        let mut list: Vec<Msg> = Vec::new();
        let tag_chan = BUTTON_TAG | self.chan;

        list.push(msg3(tag_chan, BUTTON_PREVIOUS, RELEASED));
        list.push(msg3(tag_chan, BUTTON_NEXT, RELEASED));
        list.push(msg3(tag_chan, BUTTON_STOP, RELEASED));
        list.push(msg3(tag_chan, BUTTON_PLAY, RELEASED));
        proof {
            assert(msg_views(list@) =~~= reset_button_msgs(self.chan));
        }

        let mut idx: u8 = 0;
        while idx < 10
            invariant
                idx <= 10,
                msg_views(list@) =~~= reset_button_msgs(self@.chan) + clear_display_msgs(
                    idx as int,
                ),
            decreases 10 - idx,
        {
            let m = msg3(DISPLAY_TAG, TIME_LEFT_DIGIT - idx, 0x20);
            let ghost prev = list@;
            list.push(m);
            proof {
                assert(m@ =~~= MsgSpec::ToDevice(display_bytes(idx as int, 0x20)));
                lemma_msg_views_push(prev, m);
                assert((reset_button_msgs(self@.chan) + clear_display_msgs(idx as int)).push(
                    MsgSpec::ToDevice(display_bytes(idx as int, 0x20)),
                ) =~~= reset_button_msgs(self@.chan) + clear_display_msgs(idx + 1));
                assert(msg_views(list@) =~~= reset_button_msgs(self@.chan) + clear_display_msgs(
                    idx + 1,
                ));
            }
            idx += 1;
        }

        self.state = match self.state {
            State::Connected | State::Playing | State::Stopped => State::Connected,
            other => other,
        };
        self.fader_state = FaderState::Released;
        self.last_tc = TimecodeBreakDown::blank();

        proof {
            assert(self@ =~= reset_model(old(self)@));
            assert(msg_views(list@) =~~= reset_msgs(old(self)@.chan));
        }
        list
    }

    /// Discards all session state and opens a fresh handshake by querying
    /// the device with the given sub-model id.
    pub fn start_identification(&mut self, device_id: u8) -> (r: Vec<Msg>)
        ensures
            final(self).wf(),
            final(self)@ == (MackieModel {
                state: State::Connecting(ConnectionStatus::DeviceQueried),
                ..init_model()
            }),
            msg_views(r@) == seq![MsgSpec::ToDevice(sysex_frame(header(device_id, QUERY_DEVICE)))],
    {
        *self = Mackie {
            state: State::Connecting(ConnectionStatus::DeviceQueried),
            ..Default::default()
        };

        let payload = payload_for(device_id, QUERY_DEVICE);
        let mut list: Vec<Msg> = Vec::new();
        list.push(midi::Msg::new_sysex(&payload).to_device());
        proof {
            assert(self@ =~= (MackieModel {
                state: State::Connecting(ConnectionStatus::DeviceQueried),
                ..init_model()
            }));
            assert(msg_views(list@) =~~= seq![
                MsgSpec::ToDevice(sysex_frame(header(device_id, QUERY_DEVICE))),
            ]);
        }
        list
    }
}

// Timecode rendering and diffing.

/// The ASCII digit for the ones place of a non-negative number.
pub open spec fn ascii_digit(n: int) -> u8 {
    (0x30 + (n % 10)) as u8
}

/// The ten display digits of a timecode: hours right-aligned over three
/// positions with leading blanks, then two-digit minutes and seconds, then
/// three-digit milliseconds.
pub open spec fn spec_tc_digits(tc: Timecode) -> Seq<u8> {
    seq![
        if tc.hours >= 100 {
            ascii_digit(tc.hours as int / 100)
        } else {
            0x20u8
        },
        if tc.hours >= 10 {
            ascii_digit(tc.hours as int / 10)
        } else {
            0x20u8
        },
        ascii_digit(tc.hours as int),
        ascii_digit(tc.minutes as int / 10),
        ascii_digit(tc.minutes as int),
        ascii_digit(tc.seconds as int / 10),
        ascii_digit(tc.seconds as int),
        ascii_digit(tc.millis as int / 100),
        ascii_digit(tc.millis as int / 10),
        ascii_digit(tc.millis as int),
    ]
}

/// The display updates for the first `n` positions: one message per position
/// whose digit changed, in position order.
pub open spec fn diff_msgs_upto(a: Seq<u8>, b: Seq<u8>, n: int) -> Seq<MsgSpec>
    decreases n,
{
    if n <= 0 {
        Seq::empty()
    } else {
        diff_msgs_upto(a, b, n - 1) + (if a[n - 1] == b[n - 1] {
            Seq::<MsgSpec>::empty()
        } else {
            seq![MsgSpec::ToDevice(display_bytes(n - 1, b[n - 1]))]
        })
    }
}

/// The display updates that re-rendering from digits `a` to digits `b` emits.
pub open spec fn timecode_diff_msgs(a: Seq<u8>, b: Seq<u8>) -> Seq<MsgSpec> {
    diff_msgs_upto(a, b, 10)
}

/// Rendering is a diff: a position whose digit did not change emits nothing.
/// In particular rendering the same digits twice emits no messages at all.
pub proof fn lemma_diff_same_empty(a: Seq<u8>, n: int)
    ensures
        diff_msgs_upto(a, a, n) == Seq::<MsgSpec>::empty(),
    decreases n,
{
    if n <= 0 {
    } else {
        lemma_diff_same_empty(a, n - 1);
        assert(diff_msgs_upto(a, a, n) =~= Seq::<MsgSpec>::empty());
    }
}

/// Diff minimality law: every message the diff emits addresses a position
/// whose digit actually changed, and carries that position's new digit.
pub proof fn lemma_diff_targets_changes(a: Seq<u8>, b: Seq<u8>, n: int, i: int)
    requires
        0 <= i < diff_msgs_upto(a, b, n).len(),
    ensures
        exists|p: int|
            0 <= p < n && a[p] != b[p] && diff_msgs_upto(a, b, n)[i] == MsgSpec::ToDevice(
                display_bytes(p, b[p]),
            ),
    decreases n,
{
    if n <= 0 {
    } else {
        let prev = diff_msgs_upto(a, b, n - 1);
        if i < prev.len() {
            lemma_diff_targets_changes(a, b, n - 1, i);
            let p = choose|p: int|
                0 <= p < n - 1 && a[p] != b[p] && prev[i] == MsgSpec::ToDevice(
                    display_bytes(p, b[p]),
                );
            assert(0 <= p < n && a[p] != b[p] && diff_msgs_upto(a, b, n)[i] == MsgSpec::ToDevice(
                display_bytes(p, b[p]),
            ));
        } else {
            assert(a[n - 1] != b[n - 1] && diff_msgs_upto(a, b, n)[i] == MsgSpec::ToDevice(
                display_bytes(n - 1, b[n - 1]),
            ));
        }
    }
}

/// Diff completeness law: every position whose digit changed is addressed
/// by a message of the diff that carries its new digit.
pub proof fn lemma_diff_covers_changes(a: Seq<u8>, b: Seq<u8>, n: int, p: int)
    requires
        0 <= p < n,
        a[p] != b[p],
    ensures
        exists|i: int|
            0 <= i < diff_msgs_upto(a, b, n).len() && diff_msgs_upto(a, b, n)[i]
                == MsgSpec::ToDevice(display_bytes(p, b[p])),
    decreases n,
{
    let prev = diff_msgs_upto(a, b, n - 1);
    if p == n - 1 {
        assert(diff_msgs_upto(a, b, n)[prev.len() as int] == MsgSpec::ToDevice(
            display_bytes(p, b[p]),
        ));
    } else {
        lemma_diff_covers_changes(a, b, n - 1, p);
        let i = choose|i: int|
            0 <= i < prev.len() && prev[i] == MsgSpec::ToDevice(display_bytes(p, b[p]));
        assert(diff_msgs_upto(a, b, n)[i] == MsgSpec::ToDevice(display_bytes(p, b[p])));
    }
}

/// Re-rendering law: after a timecode has been rendered, rendering the same
/// timecode again changes nothing and emits zero display updates.
pub proof fn lemma_rerender_emits_nothing(m: MackieModel, tc: Timecode)
    ensures
        timecode_step(timecode_step(m, tc).0, tc).0 == timecode_step(m, tc).0,
        timecode_step(timecode_step(m, tc).0, tc).1 == Seq::<MsgSpec>::empty(),
{
    lemma_diff_same_empty(spec_tc_digits(tc), 10);
    assert(timecode_step(timecode_step(m, tc).0, tc).0 =~= timecode_step(m, tc).0);
}

/// The ten rendered digits of the timecode display, in device order.
#[derive(Debug)]
pub struct TimecodeBreakDown {
    digits: Vec<u8>,
}

impl View for TimecodeBreakDown {
    type V = Seq<u8>;

    closed spec fn view(&self) -> Seq<u8> {
        self.digits@
    }
}

impl TimecodeBreakDown {
    /// Ten blank digits.
    pub fn blank() -> (r: TimecodeBreakDown)
        ensures
            r@ == blank_tc(),
    {
        let mut digits: Vec<u8> = Vec::new();
        let mut i: u8 = 0;
        while i < 10
            invariant
                i <= 10,
                digits@ == Seq::new(i as nat, |j: int| 0x20u8),
            decreases 10 - i,
        {
            digits.push(0x20);
            proof {
                assert(digits@ =~= Seq::new((i + 1) as nat, |j: int| 0x20u8));
            }
            i += 1;
        }
        proof {
            assert(digits@ =~= blank_tc());
        }
        TimecodeBreakDown { digits }
    }

    /// Renders a timecode into its ten display digits.
    pub fn from_timecode(tc: Timecode) -> (r: TimecodeBreakDown)
        ensures
            r@ == spec_tc_digits(tc),
    {
        let h = tc.hours;
        let mut digits: Vec<u8> = Vec::new();
        digits.push(if h >= 100 { 0x30 + ((h / 100) % 10) as u8 } else { 0x20 });
        digits.push(if h >= 10 { 0x30 + ((h / 10) % 10) as u8 } else { 0x20 });
        digits.push(0x30 + (h % 10) as u8);
        digits.push(0x30 + (tc.minutes / 10) % 10);
        digits.push(0x30 + tc.minutes % 10);
        digits.push(0x30 + (tc.seconds / 10) % 10);
        digits.push(0x30 + tc.seconds % 10);
        digits.push(0x30 + ((tc.millis / 100) % 10) as u8);
        digits.push(0x30 + ((tc.millis / 10) % 10) as u8);
        digits.push(0x30 + (tc.millis % 10) as u8);
        proof {
            assert(digits@ =~= spec_tc_digits(tc));
        }
        TimecodeBreakDown { digits }
    }

    pub fn digits(&self) -> (r: &Vec<u8>)
        ensures
            r@ == self@,
    {
        &self.digits
    }
}

// Application events: what the driver does with each event while connected.

/// Play: the stopped family moves to `Playing` and the Stop LED goes out;
/// the Play LED is asserted in every case.
pub open spec fn play_step(m: MackieModel) -> (MackieModel, Seq<MsgSpec>) {
    match m.state {
        State::Connected | State::Stopped => (
            MackieModel { state: State::Playing, ..m },
            seq![
                MsgSpec::ToDevice(button_bytes(m.chan, BUTTON_STOP, RELEASED)),
                MsgSpec::ToDevice(button_bytes(m.chan, BUTTON_PLAY, PRESSED)),
            ],
        ),
        State::Playing => (m, seq![MsgSpec::ToDevice(button_bytes(m.chan, BUTTON_PLAY, PRESSED))]),
        _ => (m, Seq::empty()),
    }
}

/// Pause: the playing family moves to `Stopped` and the Play LED goes out;
/// the Stop LED is asserted in every case.
pub open spec fn pause_step(m: MackieModel) -> (MackieModel, Seq<MsgSpec>) {
    match m.state {
        State::Connected | State::Playing => (
            MackieModel { state: State::Stopped, ..m },
            seq![
                MsgSpec::ToDevice(button_bytes(m.chan, BUTTON_PLAY, RELEASED)),
                MsgSpec::ToDevice(button_bytes(m.chan, BUTTON_STOP, PRESSED)),
            ],
        ),
        State::Stopped => (m, seq![MsgSpec::ToDevice(button_bytes(m.chan, BUTTON_STOP, PRESSED))]),
        _ => (m, Seq::empty()),
    }
}

/// Volume: a released fader tracks the application immediately; a held
/// fader only buffers the value, so the motor never fights the hand.
pub open spec fn volume_step(m: MackieModel, v: u16) -> (MackieModel, Seq<MsgSpec>) {
    match m.fader {
        FaderState::Released => (m, seq![MsgSpec::ToDevice(fader_bytes(m.chan, v))]),
        FaderState::Touched { .. } => (
            MackieModel { fader: FaderState::Touched { last_volume: Some(v) }, ..m },
            Seq::empty(),
        ),
    }
}

/// Timecode: the new digits replace the stored ones wholesale; only changed
/// positions emit display updates.
pub open spec fn timecode_step(m: MackieModel, tc: Timecode) -> (MackieModel, Seq<MsgSpec>) {
    (
        MackieModel { tc: spec_tc_digits(tc), ..m },
        timecode_diff_msgs(m.tc, spec_tc_digits(tc)),
    )
}

/// Reset as a step: the collapsed state and the clearing batch.
pub open spec fn reset_step(m: MackieModel) -> (MackieModel, Seq<MsgSpec>) {
    (reset_model(m), reset_msgs(m.chan))
}

/// What one application event does to the driver. While not connected,
/// every event is dropped with no output and no state change.
pub open spec fn feedback_step(m: MackieModel, event: Feedback) -> (MackieModel, Seq<MsgSpec>) {
    if !connected_spec(m.state) {
        (m, Seq::empty())
    } else {
        match event {
            Feedback::Transport(t) => match t {
                Transport::Play => play_step(m),
                Transport::Pause => pause_step(m),
                Transport::Stop => reset_step(m),
                _ => (m, Seq::empty()),
            },
            Feedback::Mixer(mix) => match mix {
                Mixer::Volume(v) => volume_step(m, v),
                Mixer::Mute => (m, Seq::empty()),
            },
            Feedback::NewApp(_) => (
                reset_step(m).0,
                reset_step(m).1.push(MsgSpec::ToApp(CtrlSurfEvent::DataRequest)),
            ),
            Feedback::Data(d) => match d {
                Data::Timecode(tc) => timecode_step(m, tc),
                _ => (m, Seq::empty()),
            },
        }
    }
}

impl Mackie {
    /// Builds the device fader-position message for a 14-bit value.
    fn build_fader_msg(&self, vol: u16) -> (r: Msg)
        requires
            vol <= NORMALIZED_MAX,
        ensures
            r@ == MsgSpec::ToDevice(fader_bytes(self@.chan, vol)),
    {
        let (hi, lo) = midi::normalized_to_be(vol);
        let r = msg3(FADER_TAG | self.chan, hi, lo);
        proof {
            assert(r@ =~~= MsgSpec::ToDevice(fader_bytes(self@.chan, vol)));
        }
        r
    }

    fn app_play(&mut self) -> (r: Vec<Msg>)
        requires
            old(self).wf(),
            connected_spec(old(self)@.state),
        ensures
            final(self).wf(),
            final(self)@ == play_step(old(self)@).0,
            msg_views(r@) == play_step(old(self)@).1,
    {
        let mut list: Vec<Msg> = Vec::new();
        let tag_chan = BUTTON_TAG | self.chan;

        match self.state {
            State::Connected | State::Stopped => {
                self.state = State::Playing;
                list.push(msg3(tag_chan, BUTTON_STOP, RELEASED));
            },
            _ => {},
        }
        list.push(msg3(tag_chan, BUTTON_PLAY, PRESSED));

        proof {
            assert(self@ =~= play_step(old(self)@).0);
            assert(msg_views(list@) =~~= play_step(old(self)@).1);
        }
        list
    }

    fn app_pause(&mut self) -> (r: Vec<Msg>)
        requires
            old(self).wf(),
            connected_spec(old(self)@.state),
        ensures
            final(self).wf(),
            final(self)@ == pause_step(old(self)@).0,
            msg_views(r@) == pause_step(old(self)@).1,
    {
        let mut list: Vec<Msg> = Vec::new();
        let tag_chan = BUTTON_TAG | self.chan;

        match self.state {
            State::Connected | State::Playing => {
                self.state = State::Stopped;
                list.push(msg3(tag_chan, BUTTON_PLAY, RELEASED));
            },
            _ => {},
        }
        list.push(msg3(tag_chan, BUTTON_STOP, PRESSED));

        proof {
            assert(self@ =~= pause_step(old(self)@).0);
            assert(msg_views(list@) =~~= pause_step(old(self)@).1);
        }
        list
    }

    fn app_volume(&mut self, vol: u16) -> (r: Vec<Msg>)
        requires
            old(self).wf(),
            vol <= NORMALIZED_MAX,
        ensures
            final(self).wf(),
            final(self)@ == volume_step(old(self)@, vol).0,
            msg_views(r@) == volume_step(old(self)@, vol).1,
    {
        let mut list: Vec<Msg> = Vec::new();
        match self.fader_state {
            FaderState::Released => {
                let m = self.build_fader_msg(vol);
                list.push(m);
            },
            FaderState::Touched { .. } => {
                self.fader_state = FaderState::Touched { last_volume: Some(vol) };
            },
        }
        proof {
            assert(self@ =~= volume_step(old(self)@, vol).0);
            assert(msg_views(list@) =~~= volume_step(old(self)@, vol).1);
        }
        list
    }

    fn app_timecode(&mut self, tc: Timecode) -> (r: Vec<Msg>)
        requires
            old(self).wf(),
        ensures
            final(self).wf(),
            final(self)@ == timecode_step(old(self)@, tc).0,
            msg_views(r@) == timecode_step(old(self)@, tc).1,
    {
        let new_tc = TimecodeBreakDown::from_timecode(tc);
        let mut list: Vec<Msg> = Vec::new();
        let mut i: usize = 0;
        while i < 10
            invariant
                i <= 10,
                self == old(self),
                self.wf(),
                new_tc@ == spec_tc_digits(tc),
                msg_views(list@) == diff_msgs_upto(self@.tc, new_tc@, i as int),
            decreases 10 - i,
        {
            let last_digit = self.last_tc.digits[i];
            let digit = new_tc.digits[i];
            let ghost prev = list@;
            if last_digit != digit {
                let m = msg3(DISPLAY_TAG, TIME_LEFT_DIGIT - (i as u8), digit);
                list.push(m);
                proof {
                    assert(m@ =~~= MsgSpec::ToDevice(display_bytes(i as int, new_tc@[i as int])));
                    lemma_msg_views_push(prev, m);
                }
            }
            proof {
                assert(msg_views(list@) =~~= diff_msgs_upto(self@.tc, new_tc@, i + 1));
            }
            i += 1;
        }
        self.last_tc = new_tc;
        proof {
            assert(self@ =~= timecode_step(old(self)@, tc).0);
        }
        list
    }

    /// Translates one application event into the device messages it calls
    /// for. Events that arrive while the device is not connected are dropped.
    pub fn event_to_device(&mut self, event: Feedback) -> (r: Vec<Msg>)
        requires
            old(self).wf(),
            event.wf(),
        ensures
            final(self).wf(),
            final(self)@ == feedback_step(old(self)@, event).0,
            msg_views(r@) == feedback_step(old(self)@, event).1,
            !connected_spec(old(self)@.state) ==> final(self)@ == old(self)@ && r@.len() == 0,
    {
        if !self.is_connected() {
            return Msg::none();
        }
        let r = match event {
            Feedback::Transport(t) => match t {
                Transport::Play => self.app_play(),
                Transport::Pause => self.app_pause(),
                Transport::Stop => self.reset(),
                _ => Msg::none(),
            },
            Feedback::Mixer(mix) => match mix {
                Mixer::Volume(v) => self.app_volume(v),
                Mixer::Mute => Msg::none(),
            },
            Feedback::NewApp(_) => {
                let mut list = self.reset();
                let ghost prev = list@;
                list.push(CtrlSurfEvent::DataRequest.to_app());
                proof {
                    lemma_msg_views_push(prev, list@[list@.len() - 1]);
                }
                list
            },
            Feedback::Data(d) => match d {
                Data::Timecode(tc) => self.app_timecode(tc),
                _ => Msg::none(),
            },
        };
        r
    }
}

// Device messages: what the driver does with each inbound byte message.

/// One fader-touch button sample against the touch threshold.
pub open spec fn touch_step(m: MackieModel, value: u8) -> (MackieModel, Seq<MsgSpec>) {
    let touched = value > TOUCH_THRESHOLD;
    match m.fader {
        FaderState::Released => if touched {
            (MackieModel { fader: FaderState::Touched { last_volume: None }, ..m }, Seq::empty())
        } else {
            (m, Seq::empty())
        },
        FaderState::Touched { last_volume } => if !touched {
            let released = MackieModel { fader: FaderState::Released, ..m };
            match last_volume {
                Some(v) => (
                    released,
                    seq![
                        MsgSpec::ToApp(CtrlSurfEvent::Mixer(Mixer::Volume(v))),
                        MsgSpec::ToDevice(fader_bytes(m.chan, v)),
                    ],
                ),
                None => (released, Seq::empty()),
            }
        } else {
            (m, Seq::empty())
        },
    }
}

/// One fader-position message: a decodable value is forwarded to the
/// application, and buffered too while the fader is held; a malformed value
/// is dropped without any state change.
pub open spec fn fader_moved_step(m: MackieModel, hi: u8, lo: u8) -> (MackieModel, Seq<MsgSpec>) {
    match midi::spec_normalized_from_be(hi, lo) {
        None => (m, Seq::empty()),
        Some(v) => {
            let out = seq![MsgSpec::ToApp(CtrlSurfEvent::Mixer(Mixer::Volume(v)))];
            match m.fader {
                FaderState::Touched { .. } => (
                    MackieModel { fader: FaderState::Touched { last_volume: Some(v) }, ..m },
                    out,
                ),
                FaderState::Released => (m, out),
            }
        },
    }
}

/// One button message: the recognized transport buttons map to application
/// events on the pressed value only, the fader-touch button drives the touch
/// state machine, and every other id is a protocol-level no-op.
pub open spec fn button_step(m: MackieModel, id: u8, value: u8) -> (MackieModel, Seq<MsgSpec>) {
    if id == BUTTON_PREVIOUS && value == PRESSED {
        (m, seq![MsgSpec::ToApp(CtrlSurfEvent::Transport(Transport::Previous))])
    } else if id == BUTTON_NEXT && value == PRESSED {
        (m, seq![MsgSpec::ToApp(CtrlSurfEvent::Transport(Transport::Next))])
    } else if id == BUTTON_STOP && value == PRESSED {
        (m, seq![MsgSpec::ToApp(CtrlSurfEvent::Transport(Transport::Stop))])
    } else if id == BUTTON_PLAY && value == PRESSED {
        (m, seq![MsgSpec::ToApp(CtrlSurfEvent::Transport(Transport::PlayPause))])
    } else if id == FADER_TOUCHED {
        touch_step(m, value)
    } else {
        (m, Seq::empty())
    }
}

/// A successful connection: the sub-model id is recorded, and the
/// application learns of the result and is asked for its data.
pub open spec fn connected_step(m: MackieModel, device_id: u8) -> (MackieModel, Seq<MsgSpec>) {
    (
        MackieModel { state: State::Connected, device_id: Some(device_id), ..m },
        seq![
            MsgSpec::ConnectionResult(Ok(())),
            MsgSpec::ToApp(CtrlSurfEvent::DataRequest),
        ],
    )
}

/// The host-reply payload: the header, the echoed seven-byte serial, and
/// the four cipher response bytes for the four-byte challenge.
pub open spec fn host_reply_payload(device_id: u8, data: Seq<u8>) -> Seq<u8> {
    header(device_id, HOST_REPLY) + data.subrange(0, 7) + cipher(data[7], data[8], data[9], data[10])
}

/// A host query carrying `data` (serial then challenge). Too little data is
/// a fatal handshake failure; a Logic Control family id gets the cipher
/// reply; any other id is connected without a challenge.
pub open spec fn query_host_step(m: MackieModel, device_id: u8, data: Seq<u8>) -> (
    MackieModel,
    Seq<MsgSpec>,
) {
    if data.len() < 11 {
        (
            MackieModel { state: State::Disconnected, ..m },
            seq![MsgSpec::ConnectionResult(Err(Error::UnexpectedDeviceMsg))],
        )
    } else if device_id == LOGIC_CONTROL_ID || device_id == LOGIC_CONTROL_EXT_ID {
        (
            MackieModel { state: State::Connecting(ConnectionStatus::ChallengeReplied), ..m },
            seq![
                MsgSpec::ToDevice(sysex_frame(host_reply_payload(device_id, data))),
                MsgSpec::ConnectionInProgress,
            ],
        )
    } else {
        connected_step(m, device_id)
    }
}

/// One sysex message, routed through the handshake. Bad framing, a short
/// payload or a foreign manufacturer id only surface an error; the
/// handshake codes drive the connection state machine.
pub open spec fn sysex_step(m: MackieModel, bytes: Seq<u8>) -> (MackieModel, Seq<MsgSpec>) {
    if !midi::sysex_framed(bytes) || midi::sysex_payload(bytes).len() < 5 {
        (m, seq![MsgSpec::ConnectionResult(Err(Error::UnexpectedDeviceMsg))])
    } else {
        let p = midi::sysex_payload(bytes);
        if !(p[0] == 0x00 && p[1] == 0x00 && p[2] == 0x66) {
            (m, seq![MsgSpec::ConnectionResult(Err(Error::ManufacturerMismatch))])
        } else if p[4] == QUERY_HOST {
            query_host_step(m, p[3], p.subrange(5, p.len() as int))
        } else if p[4] == DEVICE_OK {
            connected_step(m, p[3])
        } else if p[4] == DEVICE_ERR {
            (
                MackieModel { state: State::Disconnected, ..m },
                seq![MsgSpec::ConnectionResult(Err(Error::ConnectionError))],
            )
        } else {
            (
                MackieModel { state: State::Disconnected, ..m },
                seq![MsgSpec::ConnectionResult(Err(Error::UnexpectedDeviceMsg))],
            )
        }
    }
}

/// What one inbound device message does to the driver. A nonempty message
/// always captures the channel nibble of its status byte; the tag nibble
/// then routes it; unrecognized tags and short messages are no-ops.
pub open spec fn device_step(m: MackieModel, bytes: Seq<u8>) -> (MackieModel, Seq<MsgSpec>) {
    if bytes.len() == 0 {
        (m, Seq::empty())
    } else {
        let m1 = MackieModel { chan: bytes[0] & 0x0f, ..m };
        let tag = bytes[0] & 0xf0;
        if tag == BUTTON_TAG {
            if bytes.len() >= 3 {
                button_step(m1, bytes[1], bytes[2])
            } else {
                (m1, Seq::empty())
            }
        } else if tag == FADER_TAG {
            if bytes.len() >= 3 {
                fader_moved_step(m1, bytes[1], bytes[2])
            } else {
                (m1, Seq::empty())
            }
        } else if tag == SYSEX_START {
            sysex_step(m1, bytes)
        } else {
            (m1, Seq::empty())
        }
    }
}

/// Transport sub-states are refinements of `Connected`: no device message
/// and no application event can move a session that is not connected into
/// `Playing` or `Stopped`.
pub proof fn lemma_transport_states_need_connection(m: MackieModel, bytes: Seq<u8>, ev: Feedback)
    requires
        !connected_spec(m.state),
    ensures
        !(device_step(m, bytes).0.state is Playing || device_step(m, bytes).0.state is Stopped),
        !(feedback_step(m, ev).0.state is Playing || feedback_step(m, ev).0.state is Stopped),
{
}

/// Wraps one message as a batch of one.
fn single(m: Msg) -> (r: Vec<Msg>)
    ensures
        msg_views(r@) == seq![m@],
{
    let ghost mv = m@;
    let mut l: Vec<Msg> = Vec::new();
    l.push(m);
    proof {
        assert(msg_views(l@) =~~= seq![mv]);
    }
    l
}

impl Mackie {
    fn device_fader_touch(&mut self, value: u8) -> (r: Vec<Msg>)
        requires
            old(self).wf(),
        ensures
            final(self).wf(),
            final(self)@ == touch_step(old(self)@, value).0,
            msg_views(r@) == touch_step(old(self)@, value).1,
    {
        let mut list: Vec<Msg> = Vec::new();
        let is_touched = value > TOUCH_THRESHOLD;
        match self.fader_state {
            FaderState::Released => {
                if is_touched {
                    self.fader_state = FaderState::Touched { last_volume: None };
                }
            },
            FaderState::Touched { last_volume } => {
                if !is_touched {
                    self.fader_state = FaderState::Released;
                    if let Some(vol) = last_volume {
                        list.push(Mixer::Volume(vol).to_app());
                        let m = self.build_fader_msg(vol);
                        list.push(m);
                    }
                }
            },
        }
        proof {
            assert(self@ =~= touch_step(old(self)@, value).0);
            assert(msg_views(list@) =~~= touch_step(old(self)@, value).1);
        }
        list
    }

    fn device_fader_moved(&mut self, hi: u8, lo: u8) -> (r: Vec<Msg>)
        requires
            old(self).wf(),
        ensures
            final(self).wf(),
            final(self)@ == fader_moved_step(old(self)@, hi, lo).0,
            msg_views(r@) == fader_moved_step(old(self)@, hi, lo).1,
    {
        let mut list: Vec<Msg> = Vec::new();
        match midi::normalized_from_be(hi, lo) {
            None => {},
            Some(vol) => {
                match self.fader_state {
                    FaderState::Touched { .. } => {
                        self.fader_state = FaderState::Touched { last_volume: Some(vol) };
                    },
                    FaderState::Released => {},
                }
                list.push(Mixer::Volume(vol).to_app());
            },
        }
        proof {
            assert(self@ =~= fader_moved_step(old(self)@, hi, lo).0);
            assert(msg_views(list@) =~~= fader_moved_step(old(self)@, hi, lo).1);
        }
        list
    }

    fn device_connected(&mut self, device_id: u8) -> (r: Vec<Msg>)
        requires
            old(self).wf(),
        ensures
            final(self).wf(),
            final(self)@ == connected_step(old(self)@, device_id).0,
            msg_views(r@) == connected_step(old(self)@, device_id).1,
    {
        self.device_id = Some(device_id);
        self.state = State::Connected;
        let mut list: Vec<Msg> = Vec::new();
        list.push(Msg::from_connection_result(Ok(())));
        list.push(CtrlSurfEvent::DataRequest.to_app());
        proof {
            assert(self@ =~= connected_step(old(self)@, device_id).0);
            assert(msg_views(list@) =~~= connected_step(old(self)@, device_id).1);
        }
        list
    }

    fn device_query_host(&mut self, device_id: u8, payload: &Vec<u8>) -> (r: Vec<Msg>)
        requires
            old(self).wf(),
            payload@.len() >= 5,
        ensures
            final(self).wf(),
            final(self)@ == query_host_step(
                old(self)@,
                device_id,
                payload@.subrange(5, payload@.len() as int),
            ).0,
            msg_views(r@) == query_host_step(
                old(self)@,
                device_id,
                payload@.subrange(5, payload@.len() as int),
            ).1,
    {
        let ghost data = payload@.subrange(5, payload@.len() as int);
        if payload.len() < 16 {
            self.state = State::Disconnected;
            let r = single(Msg::from_connection_result(Err(Error::UnexpectedDeviceMsg)));
            proof {
                assert(self@ =~= query_host_step(old(self)@, device_id, data).0);
            }
            return r;
        }
        if device_id == LOGIC_CONTROL_ID || device_id == LOGIC_CONTROL_EXT_ID {
            let mut resp = payload_for(device_id, HOST_REPLY);
            let mut i: usize = 5;
            while i < 12
                invariant
                    5 <= i <= 12,
                    payload@.len() >= 16,
                    resp@ == header(device_id, HOST_REPLY) + payload@.subrange(5, i as int),
                decreases 12 - i,
            {
                resp.push(payload[i]);
                proof {
                    assert(resp@ =~= header(device_id, HOST_REPLY) + payload@.subrange(
                        5,
                        i + 1,
                    ));
                }
                i += 1;
            }
            let (r0, r1, r2, r3) = challenge_response(
                payload[12],
                payload[13],
                payload[14],
                payload[15],
            );
            resp.push(r0);
            resp.push(r1);
            resp.push(r2);
            resp.push(r3);
            proof {
                assert(data.subrange(0, 7) =~= payload@.subrange(5, 12));
                assert(resp@ =~= host_reply_payload(device_id, data));
            }

            self.state = State::Connecting(ConnectionStatus::ChallengeReplied);
            let mut list: Vec<Msg> = Vec::new();
            list.push(midi::Msg::new_sysex(&resp).to_device());
            list.push(Msg::connection_in_progress());
            proof {
                assert(self@ =~= query_host_step(old(self)@, device_id, data).0);
                assert(msg_views(list@) =~~= query_host_step(old(self)@, device_id, data).1);
            }
            list
        } else {
            self.device_connected(device_id)
        }
    }

    fn device_connection(&mut self, msg: &midi::Msg) -> (r: Result<Vec<Msg>, Error>)
        requires
            old(self).wf(),
        ensures
            final(self).wf(),
            final(self)@ == sysex_step(old(self)@, msg@).0,
            match r {
                Ok(list) => msg_views(list@) == sysex_step(old(self)@, msg@).1,
                Err(e) => sysex_step(old(self)@, msg@).1 == seq![MsgSpec::ConnectionResult(Err(e))],
            },
    {
        let payload = match msg.parse_sysex() {
            Some(p) => p,
            None => {
                return Err(Error::UnexpectedDeviceMsg);
            },
        };
        if payload.len() < 5 {
            return Err(Error::UnexpectedDeviceMsg);
        }
        if payload[0] != 0x00 || payload[1] != 0x00 || payload[2] != 0x66 {
            return Err(Error::ManufacturerMismatch);
        }
        let device_id = payload[3];
        let code = payload[4];
        if code == QUERY_HOST {
            Ok(self.device_query_host(device_id, &payload))
        } else if code == DEVICE_OK {
            Ok(self.device_connected(device_id))
        } else if code == DEVICE_ERR {
            self.state = State::Disconnected;
            Err(Error::ConnectionError)
        } else {
            self.state = State::Disconnected;
            Err(Error::UnexpectedDeviceMsg)
        }
    }

    fn device_sysex(&mut self, msg: &midi::Msg) -> (r: Vec<Msg>)
        requires
            old(self).wf(),
        ensures
            final(self).wf(),
            final(self)@ == sysex_step(old(self)@, msg@).0,
            msg_views(r@) == sysex_step(old(self)@, msg@).1,
    {
        match self.device_connection(msg) {
            Ok(list) => list,
            Err(err) => single(Msg::from_connection_result(Err(err))),
        }
    }

    /// Decodes one inbound device message into application events and
    /// feedback. A nonempty message re-captures the active channel from its
    /// status byte; unrecognized traffic is dropped without state change.
    pub fn msg_from_device(&mut self, msg: midi::Msg) -> (r: Vec<Msg>)
        requires
            old(self).wf(),
        ensures
            final(self).wf(),
            final(self)@ == device_step(old(self)@, msg@).0,
            msg_views(r@) == device_step(old(self)@, msg@).1,
    {
        if msg.inner().len() == 0 {
            return Msg::none();
        }
        let tag_chan = msg.inner()[0];
        self.chan = tag_chan & 0x0f;
        proof {
            assert(tag_chan & 0x0f <= 0x0f) by (bit_vector);
            assert(self@ =~= (MackieModel { chan: msg@[0] & 0x0f, ..old(self)@ }));
        }
        let tag = tag_chan & 0xf0;
        if tag == BUTTON_TAG {
            if msg.inner().len() >= 3 {
                let id = msg.inner()[1];
                let value = msg.inner()[2];
                if id == FADER_TOUCHED {
                    self.device_fader_touch(value)
                } else if value == PRESSED && id == BUTTON_PREVIOUS {
                    single(Transport::Previous.to_app())
                } else if value == PRESSED && id == BUTTON_NEXT {
                    single(Transport::Next.to_app())
                } else if value == PRESSED && id == BUTTON_STOP {
                    single(Transport::Stop.to_app())
                } else if value == PRESSED && id == BUTTON_PLAY {
                    single(Transport::PlayPause.to_app())
                } else {
                    Msg::none()
                }
            } else {
                Msg::none()
            }
        } else if tag == FADER_TAG {
            if msg.inner().len() >= 3 {
                let hi = msg.inner()[1];
                let lo = msg.inner()[2];
                self.device_fader_moved(hi, lo)
            } else {
                Msg::none()
            }
        } else if tag == SYSEX_START {
            self.device_sysex(&msg)
        } else {
            Msg::none()
        }
    }
}

} // verus!
