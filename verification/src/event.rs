//! The application-level event vocabulary shared between the control-surface
//! driver and the media-player application, together with the outbound
//! message type and the handshake error taxonomy.

use crate::midi;
use vstd::prelude::*;

verus! {

/// Transport commands.
#[derive(Clone, Copy, Debug, PartialEq, Eq)]
pub enum Transport {
    Previous,
    Next,
    Stop,
    PlayPause,
    Play,
    Pause,
}

/// Mixer changes. A fader position is carried as the 14-bit wire value, in
/// `0 ..= midi::NORMALIZED_MAX`; full scale stands for a normalized 1.0.
#[derive(Clone, Copy, Debug, PartialEq, Eq)]
pub enum Mixer {
    Volume(u16),
    Mute,
}

/// A timecode, broken down into plain fields. The 10-digit device display
/// renders it faithfully while hours stay below 1000 and the other fields
/// in their calendar ranges; larger values render truncated.
#[derive(Clone, Copy, Debug, PartialEq, Eq)]
pub struct Timecode {
    pub hours: u16,
    pub minutes: u8,
    pub seconds: u8,
    pub millis: u16,
}

/// Data the application pushes toward the device.
#[derive(Clone, Debug, PartialEq, Eq)]
pub enum Data {
    Timecode(Timecode),
    AppName(String),
    Track(String),
}

/// An application event for the device: what `event_to_device` consumes.
#[derive(Clone, Debug, PartialEq, Eq)]
pub enum Feedback {
    Transport(Transport),
    Mixer(Mixer),
    Data(Data),
    NewApp(String),
}

impl Feedback {
    /// Every fader position carried by the event fits in 14 bits.
    pub open spec fn wf(self) -> bool {
        match self {
            Feedback::Mixer(Mixer::Volume(v)) => v <= midi::NORMALIZED_MAX,
            _ => true,
        }
    }
}

/// An event for the application: what the driver decodes out of device bytes.
#[derive(Clone, Copy, Debug, PartialEq, Eq)]
pub enum CtrlSurfEvent {
    Transport(Transport),
    Mixer(Mixer),
    DataRequest,
}

/// A fatal handshake failure. Each variant forces the current connection
/// attempt to be abandoned; recovery is a fresh `start_identification`.
#[derive(Clone, Copy, Debug, PartialEq, Eq)]
pub enum Error {
    /// Malformed or out-of-protocol sysex traffic.
    UnexpectedDeviceMsg,
    /// A sysex message whose first three payload bytes are not the expected
    /// manufacturer id.
    ManufacturerMismatch,
    /// The device explicitly reported a failed connection.
    ConnectionError,
}

/// One outbound message of a driver operation's ordered output batch.
#[derive(Debug, PartialEq)]
pub enum Msg {
    /// Raw MIDI bytes bound for the device.
    ToDevice(midi::Msg),
    /// An event bound for the application.
    ToApp(CtrlSurfEvent),
    /// The handshake reached its intermediate challenge-replied step.
    ConnectionInProgress,
    /// The handshake ended, successfully or with a fatal error.
    ConnectionResult(Result<(), Error>),
}

/// The mathematical value of an outbound message: device-bound bytes become
/// a byte sequence, everything else is already plain data.
#[verifier::ext_equal]
pub enum MsgSpec {
    ToDevice(Seq<u8>),
    ToApp(CtrlSurfEvent),
    ConnectionInProgress,
    ConnectionResult(Result<(), Error>),
}

impl View for Msg {
    type V = MsgSpec;

    open spec fn view(&self) -> MsgSpec {
        match self {
            Msg::ToDevice(m) => MsgSpec::ToDevice(m@),
            Msg::ToApp(e) => MsgSpec::ToApp(*e),
            Msg::ConnectionInProgress => MsgSpec::ConnectionInProgress,
            Msg::ConnectionResult(r) => MsgSpec::ConnectionResult(*r),
        }
    }
}

/// The batch of outbound messages, message by message, as mathematical values.
pub open spec fn msg_views(s: Seq<Msg>) -> Seq<MsgSpec> {
    s.map_values(|m: Msg| m@)
}

/// Appending one message to a batch appends its value to the batch's view.
pub proof fn lemma_msg_views_push(s: Seq<Msg>, m: Msg)
    ensures
        msg_views(s.push(m)) == msg_views(s).push(m@),
{
    assert(msg_views(s.push(m)) =~~= msg_views(s).push(m@));
}

/// The empty batch has the empty view.
pub proof fn lemma_msg_views_empty()
    ensures
        msg_views(Seq::<Msg>::empty()) == Seq::<MsgSpec>::empty(),
{
    assert(msg_views(Seq::<Msg>::empty()) =~~= Seq::<MsgSpec>::empty());
}

impl Msg {
    /// The empty output batch.
    pub fn none() -> (r: Vec<Msg>)
        ensures
            r@ == Seq::<Msg>::empty(),
            msg_views(r@) == Seq::<MsgSpec>::empty(),
    {
        let r: Vec<Msg> = Vec::new();
        proof {
            assert(r@ =~= Seq::<Msg>::empty());
            lemma_msg_views_empty();
        }
        r
    }

    pub fn from_connection_result(res: Result<(), Error>) -> (r: Msg)
        ensures
            r@ == MsgSpec::ConnectionResult(res),
    {
        Msg::ConnectionResult(res)
    }

    pub fn connection_in_progress() -> (r: Msg)
        ensures
            r@ == MsgSpec::ConnectionInProgress,
    {
        Msg::ConnectionInProgress
    }
}

impl Transport {
    pub fn to_app(self) -> (r: Msg)
        ensures
            r@ == MsgSpec::ToApp(CtrlSurfEvent::Transport(self)),
    {
        Msg::ToApp(CtrlSurfEvent::Transport(self))
    }
}

impl Mixer {
    pub fn to_app(self) -> (r: Msg)
        ensures
            r@ == MsgSpec::ToApp(CtrlSurfEvent::Mixer(self)),
    {
        Msg::ToApp(CtrlSurfEvent::Mixer(self))
    }
}

impl CtrlSurfEvent {
    pub fn to_app(self) -> (r: Msg)
        ensures
            r@ == MsgSpec::ToApp(self),
    {
        Msg::ToApp(self)
    }
}

impl midi::Msg {
    /// Wraps raw bytes as a device-bound outbound message.
    pub fn to_device(self) -> (r: Msg)
        ensures
            r@ == MsgSpec::ToDevice(self@),
    {
        Msg::ToDevice(self)
    }
}

} // verus!
