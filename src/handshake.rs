use vstd::prelude::*;

use crate::error::HttpError;
use crate::frame::{
    assemble_frame, decode_header, encode_settings_frame, header_of, lemma_settings_ack_frame,
    lemma_settings_round_trip, settings_frame_bytes, settings_frame_from_raw, settings_frame_valid,
    HttpSetting, SettingsFrame, FRAME_HEADER_LEN, SETTINGS_FRAME_TYPE,
};

verus! {

/// Number of bytes in the connection preface.
pub const PREFACE_LEN: usize = 24;

/// The connection preface, `"PRI * HTTP/2.0\r\n\r\nSM\r\n\r\n"`.
pub open spec fn preface_spec() -> Seq<u8> {
    seq![
        0x50u8, 0x52, 0x49, 0x20, 0x2A, 0x20, 0x48, 0x54, 0x54, 0x50, 0x2F, 0x32,
        0x2E, 0x30, 0x0D, 0x0A, 0x0D, 0x0A, 0x53, 0x4D, 0x0D, 0x0A, 0x0D, 0x0A,
    ]
}

/// The bytes that every connection starts with, sent by the initiator.
pub fn preface() -> (r: Vec<u8>)
    ensures
        r@ == preface_spec(),
{
    let r = vec![
        0x50u8, 0x52, 0x49, 0x20, 0x2A, 0x20, 0x48, 0x54, 0x54, 0x50, 0x2F, 0x32,
        0x2E, 0x30, 0x0D, 0x0A, 0x0D, 0x0A, 0x53, 0x4D, 0x0D, 0x0A, 0x0D, 0x0A,
    ];
    assert(r@ =~= preface_spec());
    r
}

/// Compares received bytes with the connection preface, byte for byte.
pub fn is_preface(buf: &Vec<u8>) -> (r: bool)
    ensures
        r == (buf@ == preface_spec()),
{
    let p = preface();
    if buf.len() != p.len() {
        return false;
    }
    let mut i: usize = 0;
    while i < buf.len()
        invariant
            buf@.len() == p@.len(),
            p@ == preface_spec(),
            i <= buf@.len(),
            buf@.subrange(0, i as int) == p@.subrange(0, i as int),
        decreases buf@.len() - i,
    {
        if buf[i] != p[i] {
            assert(buf@[i as int] != p@[i as int]);
            return false;
        }
        assert(buf@.subrange(0, i + 1) == buf@.subrange(0, i as int).push(buf@[i as int]));
        assert(p@.subrange(0, i + 1) == p@.subrange(0, i as int).push(p@[i as int]));
        i += 1;
    }
    assert(buf@ == buf@.subrange(0, buf@.len() as int));
    assert(p@ == p@.subrange(0, p@.len() as int));
    true
}

/// The settings that the initiator declares: server push disabled.
pub fn client_settings() -> (r: SettingsFrame)
    ensures
        !r.ack,
        r.settings@ == client_settings_spec(),
{
    let mut settings: Vec<HttpSetting> = Vec::new();
    settings.push(HttpSetting::EnablePush(0));
    SettingsFrame { ack: false, settings }
}

/// The settings that the initiator declares, as a sequence.
pub open spec fn client_settings_spec() -> Seq<HttpSetting> {
    seq![HttpSetting::EnablePush(0)]
}

/// The side of the connection that a handshake runs for.
#[derive(Debug, Clone, Copy, PartialEq, Eq, Structural)]
pub enum Role {
    /// Opens the connection: sends the preface and its settings, then waits
    /// for the peer's settings.
    Initiator,
    /// Accepts the connection: checks the preface, reads the peer's
    /// settings, then acknowledges them.
    Acceptor,
}

/// Where a handshake stands, that is, which operation on the stream it
/// waits for.
#[derive(Debug, Clone, PartialEq, Eq)]
pub enum Phase {
    /// Writing the preface.
    SendPreface,
    /// Writing the initiator's SETTINGS frame.
    SendSettings,
    /// Reading the preface.
    RecvPreface,
    /// Reading the header of the peer's SETTINGS frame.
    RecvSettingsHeader,
    /// Reading the payload of the peer's SETTINGS frame, after this header.
    RecvSettingsPayload(Vec<u8>),
    /// Writing the SETTINGS acknowledgment.
    SendAck,
    /// The handshake is complete: the connection can carry calls.
    Ready,
    /// The handshake failed; the connection cannot be used.
    Failed(HttpError),
}

/// A handshake in progress on one connection.
#[derive(Debug, Clone, PartialEq, Eq)]
pub struct Handshake {
    pub role: Role,
    pub phase: Phase,
}

/// What the stream did with the operation that the handshake asked for.
#[derive(Debug, Clone, PartialEq, Eq)]
pub enum Event {
    /// All the bytes handed to the stream were written.
    Written,
    /// These bytes were read; fewer than asked for means that the stream
    /// ended first.
    Received(Vec<u8>),
    /// The stream failed.
    IoFailed,
}

/// The operation that the handshake asks the caller to perform next.
#[derive(Debug, Clone, PartialEq, Eq)]
pub enum Action {
    /// Write all these bytes.
    Write(Vec<u8>),
    /// Read exactly this many bytes.
    Read(usize),
    /// Nothing more: the connection is ready.
    Done,
    /// Nothing more: the handshake failed with this error.
    Fail(HttpError),
}

/// The phase of a handshake, with the bytes it holds as a sequence.
pub enum PhaseView {
    SendPreface,
    SendSettings,
    RecvPreface,
    RecvSettingsHeader,
    RecvSettingsPayload(Seq<u8>),
    SendAck,
    Ready,
    Failed(HttpError),
}

/// A handshake as a value: its role and its phase.
pub struct HandshakeView {
    pub role: Role,
    pub phase: PhaseView,
}

/// An event, with the bytes it carries as a sequence.
pub enum EventView {
    Written,
    Received(Seq<u8>),
    IoFailed,
}

/// An action, with the bytes it carries as a sequence.
pub enum ActionView {
    Write(Seq<u8>),
    Read(usize),
    Done,
    Fail(HttpError),
}

impl View for Phase {
    type V = PhaseView;

    open spec fn view(&self) -> PhaseView {
        match self {
            Phase::SendPreface => PhaseView::SendPreface,
            Phase::SendSettings => PhaseView::SendSettings,
            Phase::RecvPreface => PhaseView::RecvPreface,
            Phase::RecvSettingsHeader => PhaseView::RecvSettingsHeader,
            Phase::RecvSettingsPayload(h) => PhaseView::RecvSettingsPayload(h@),
            Phase::SendAck => PhaseView::SendAck,
            Phase::Ready => PhaseView::Ready,
            Phase::Failed(e) => PhaseView::Failed(*e),
        }
    }
}

impl View for Handshake {
    type V = HandshakeView;

    open spec fn view(&self) -> HandshakeView {
        HandshakeView { role: self.role, phase: self.phase@ }
    }
}

impl View for Event {
    type V = EventView;

    open spec fn view(&self) -> EventView {
        match self {
            Event::Written => EventView::Written,
            Event::Received(b) => EventView::Received(b@),
            Event::IoFailed => EventView::IoFailed,
        }
    }
}

impl View for Action {
    type V = ActionView;

    open spec fn view(&self) -> ActionView {
        match self {
            Action::Write(b) => ActionView::Write(b@),
            Action::Read(n) => ActionView::Read(*n),
            Action::Done => ActionView::Done,
            Action::Fail(e) => ActionView::Fail(*e),
        }
    }
}

/// The header of the frame being read holds nine bytes.
pub open spec fn phase_wf(p: PhaseView) -> bool {
    p matches PhaseView::RecvSettingsPayload(h) ==> h.len() == FRAME_HEADER_LEN
}

/// The initiator's SETTINGS frame on the wire.
pub open spec fn client_settings_bytes() -> Seq<u8> {
    settings_frame_bytes(false, client_settings_spec())
}

/// The SETTINGS acknowledgment on the wire.
pub open spec fn settings_ack_bytes() -> Seq<u8> {
    settings_frame_bytes(true, seq![])
}

/// The handshake gives up with `err`.
pub open spec fn fail_with(s: HandshakeView, err: HttpError) -> (HandshakeView, ActionView) {
    (HandshakeView { phase: PhaseView::Failed(err), ..s }, ActionView::Fail(err))
}

/// The handshake moves to `phase` and asks for `action`.
pub open spec fn go(s: HandshakeView, phase: PhaseView, action: ActionView) -> (HandshakeView, ActionView) {
    (HandshakeView { phase, ..s }, action)
}

/// How a handshake answers one event: its next state and the operation it
/// asks for. A finished handshake stays as it is; a failed stream, or an
/// event that does not answer the pending operation, is an I/O failure.
pub open spec fn next(s: HandshakeView, e: EventView) -> (HandshakeView, ActionView) {
    match s.phase {
        PhaseView::Ready => (s, ActionView::Done),
        PhaseView::Failed(err) => (s, ActionView::Fail(err)),
        PhaseView::SendPreface => match e {
            EventView::Written => go(s, PhaseView::SendSettings, ActionView::Write(client_settings_bytes())),
            _ => fail_with(s, HttpError::IoError),
        },
        PhaseView::SendSettings => match e {
            EventView::Written => go(s, PhaseView::RecvSettingsHeader, ActionView::Read(FRAME_HEADER_LEN)),
            _ => fail_with(s, HttpError::IoError),
        },
        PhaseView::SendAck => match e {
            EventView::Written => go(s, PhaseView::Ready, ActionView::Done),
            _ => fail_with(s, HttpError::IoError),
        },
        PhaseView::RecvPreface => match e {
            EventView::Received(b) => if b.len() != PREFACE_LEN {
                fail_with(s, HttpError::IoError)
            } else if b == preface_spec() {
                go(s, PhaseView::RecvSettingsHeader, ActionView::Read(FRAME_HEADER_LEN))
            } else {
                fail_with(s, HttpError::InvalidFrame)
            },
            _ => fail_with(s, HttpError::IoError),
        },
        PhaseView::RecvSettingsHeader => match e {
            EventView::Received(b) => if b.len() != FRAME_HEADER_LEN {
                fail_with(s, HttpError::IoError)
            } else {
                go(s, PhaseView::RecvSettingsPayload(b), ActionView::Read(header_of(b).length as usize))
            },
            _ => fail_with(s, HttpError::IoError),
        },
        PhaseView::RecvSettingsPayload(h) => match e {
            EventView::Received(b) => if b.len() != header_of(h).length {
                fail_with(s, HttpError::IoError)
            } else if (h + b)[3] == SETTINGS_FRAME_TYPE && settings_frame_valid(h + b) {
                match s.role {
                    Role::Initiator => go(s, PhaseView::Ready, ActionView::Done),
                    Role::Acceptor => go(s, PhaseView::SendAck, ActionView::Write(settings_ack_bytes())),
                }
            } else {
                fail_with(s, HttpError::InvalidFrame)
            },
            _ => fail_with(s, HttpError::IoError),
        },
    }
}

impl Handshake {
    /// The handshake is in a state that `step` accepts.
    pub open spec fn wf(&self) -> bool {
        phase_wf(self.phase@)
    }

    /// Starts a handshake for `role`: the initiator first writes the
    /// preface, the acceptor first reads it.
    pub fn new(role: Role) -> (r: (Handshake, Action))
        ensures
            r.0.wf(),
            r.0.role == role,
            role == Role::Initiator ==> r.0.phase@ == PhaseView::SendPreface && r.1@ == ActionView::Write(
                preface_spec(),
            ),
            role == Role::Acceptor ==> r.0.phase@ == PhaseView::RecvPreface && r.1@ == ActionView::Read(
                PREFACE_LEN,
            ),
    {
        match role {
            Role::Initiator => (Handshake { role, phase: Phase::SendPreface }, Action::Write(preface())),
            Role::Acceptor => (Handshake { role, phase: Phase::RecvPreface }, Action::Read(PREFACE_LEN)),
        }
    }

    /// The handshake is over, successfully or not.
    pub fn is_finished(&self) -> (r: bool)
        ensures
            r == (self.phase@ matches PhaseView::Ready || self.phase@ matches PhaseView::Failed(_)),
    {
        match self.phase {
            Phase::Ready | Phase::Failed(_) => true,
            _ => false,
        }
    }

    /// Answers the outcome of the pending operation with the next state and
    /// the next operation.
    pub fn step(&mut self, event: Event) -> (r: Action)
        requires
            old(self).wf(),
        ensures
            final(self).wf(),
            (final(self)@, r@) == next(old(self)@, event@),
    {
        let (phase, action) = transition(self.role, &self.phase, event);
        self.phase = phase;
        action
    }
}

fn fail(err: HttpError) -> (r: (Phase, Action))
    ensures
        r.0@ == PhaseView::Failed(err),
        r.1@ == ActionView::Fail(err),
{
    (Phase::Failed(err), Action::Fail(err))
}

fn transition(role: Role, phase: &Phase, event: Event) -> (r: (Phase, Action))
    requires
        phase_wf(phase@),
    ensures
        phase_wf(r.0@),
        (HandshakeView { role, phase: r.0@ }, r.1@) == next(HandshakeView { role, phase: phase@ }, event@),
{
    match phase {
        Phase::Ready => (Phase::Ready, Action::Done),
        Phase::Failed(err) => fail(*err),
        Phase::SendPreface => match event {
            Event::Written => {
                let settings = client_settings();
                (Phase::SendSettings, Action::Write(encode_settings_frame(&settings)))
            },
            _ => fail(HttpError::IoError),
        },
        Phase::SendSettings => match event {
            Event::Written => (Phase::RecvSettingsHeader, Action::Read(FRAME_HEADER_LEN)),
            _ => fail(HttpError::IoError),
        },
        Phase::SendAck => match event {
            Event::Written => (Phase::Ready, Action::Done),
            _ => fail(HttpError::IoError),
        },
        Phase::RecvPreface => match event {
            Event::Received(b) => if b.len() != PREFACE_LEN {
                fail(HttpError::IoError)
            } else if is_preface(&b) {
                (Phase::RecvSettingsHeader, Action::Read(FRAME_HEADER_LEN))
            } else {
                fail(HttpError::InvalidFrame)
            },
            _ => fail(HttpError::IoError),
        },
        Phase::RecvSettingsHeader => match event {
            Event::Received(b) => if b.len() != FRAME_HEADER_LEN {
                fail(HttpError::IoError)
            } else {
                let header = decode_header(&b);
                (Phase::RecvSettingsPayload(b), Action::Read(header.length as usize))
            },
            _ => fail(HttpError::IoError),
        },
        Phase::RecvSettingsPayload(h) => match event {
            Event::Received(b) => match assemble_frame(h, &b) {
                Err(e) => fail(e),
                Ok(frame) => match settings_frame_from_raw(&frame) {
                    Err(e) => fail(e),
                    Ok(_) => match role {
                        Role::Initiator => (Phase::Ready, Action::Done),
                        Role::Acceptor => {
                            let ack = SettingsFrame { ack: true, settings: Vec::new() };
                            (Phase::SendAck, Action::Write(encode_settings_frame(&ack)))
                        },
                    },
                },
            },
            _ => fail(HttpError::IoError),
        },
    }
}


/// An acceptor that reads a preface differing from the fixed one in any byte
/// fails with an invalid frame; from then on it answers every event with the
/// same failure and asks for no further read or write.
pub proof fn lemma_preface_rejected(s: HandshakeView, b: Seq<u8>, i: int, later: EventView)
    requires
        s.role == Role::Acceptor,
        s.phase == PhaseView::RecvPreface,
        b.len() == PREFACE_LEN,
        0 <= i < PREFACE_LEN,
        b[i] != preface_spec()[i],
    ensures
        ({
            let (s1, a1) = next(s, EventView::Received(b));
            s1.phase == PhaseView::Failed(HttpError::InvalidFrame) && a1 == ActionView::Fail(
                HttpError::InvalidFrame,
            ) && next(s1, later) == (s1, ActionView::Fail(HttpError::InvalidFrame))
        }),
{
    assert(b != preface_spec());
}

/// The two ends of an in-memory connection: each end's handshake, the
/// operation it waits on, and the bytes in flight towards it.
pub struct PipeView {
    pub client: HandshakeView,
    pub client_action: ActionView,
    pub to_client: Seq<u8>,
    pub server: HandshakeView,
    pub server_action: ActionView,
    pub to_server: Seq<u8>,
}

/// One move on the connection: the client's pending operation completes if
/// it can, else the server's. A write always completes and puts its bytes in
/// flight to the other end; a read completes once enough bytes are in flight.
pub open spec fn pipe_step(p: PipeView) -> PipeView {
    if p.client_action is Write {
        let (c, a) = next(p.client, EventView::Written);
        PipeView { client: c, client_action: a, to_server: p.to_server + p.client_action->Write_0, ..p }
    } else if p.client_action is Read && p.client_action->Read_0 <= p.to_client.len() {
        let n = p.client_action->Read_0 as int;
        let (c, a) = next(p.client, EventView::Received(p.to_client.take(n)));
        PipeView { client: c, client_action: a, to_client: p.to_client.skip(n), ..p }
    } else if p.server_action is Write {
        let (s, a) = next(p.server, EventView::Written);
        PipeView { server: s, server_action: a, to_client: p.to_client + p.server_action->Write_0, ..p }
    } else if p.server_action is Read && p.server_action->Read_0 <= p.to_server.len() {
        let n = p.server_action->Read_0 as int;
        let (s, a) = next(p.server, EventView::Received(p.to_server.take(n)));
        PipeView { server: s, server_action: a, to_server: p.to_server.skip(n), ..p }
    } else {
        p
    }
}

/// The connection after `n` moves.
pub open spec fn pipe_run(p: PipeView, n: nat) -> PipeView
    decreases n,
{
    if n == 0 {
        p
    } else {
        pipe_run(pipe_step(p), (n - 1) as nat)
    }
}

/// A fresh connection: an initiator and an acceptor as `Handshake::new`
/// starts them, and nothing in flight.
pub open spec fn pipe_start() -> PipeView {
    PipeView {
        client: HandshakeView { role: Role::Initiator, phase: PhaseView::SendPreface },
        client_action: ActionView::Write(preface_spec()),
        to_client: seq![],
        server: HandshakeView { role: Role::Acceptor, phase: PhaseView::RecvPreface },
        server_action: ActionView::Read(PREFACE_LEN),
        to_server: seq![],
    }
}

/// An initiator and an acceptor run against each other over an in-memory
/// connection both complete the handshake without error, with every byte
/// consumed, and are then ready to carry calls.
pub proof fn lemma_handshake_completes()
    ensures
        ({
            let p = pipe_run(pipe_start(), 8);
            p.client.phase == PhaseView::Ready && p.server.phase == PhaseView::Ready && p.client_action
                == ActionView::Done && p.server_action == ActionView::Done && p.to_client.len() == 0
                && p.to_server.len() == 0
        }),
{
    let pre = preface_spec();
    let st = client_settings_bytes();
    let ack = settings_ack_bytes();
    lemma_settings_round_trip(client_settings_spec());
    lemma_settings_ack_frame();
    assert(st.len() == 15);
    let p0 = pipe_start();
    let p1 = pipe_step(p0);
    assert(p1.to_server == pre);
    assert(p1.client_action == ActionView::Write(st));
    let p2 = pipe_step(p1);
    assert(p2.to_server == pre + st);
    assert(p2.client_action == ActionView::Read(FRAME_HEADER_LEN));
    assert(p2.to_client.len() == 0);
    let p3 = pipe_step(p2);
    assert((pre + st).take(24) =~= pre);
    assert((pre + st).skip(24) =~= st);
    assert(p3.server.phase == PhaseView::RecvSettingsHeader);
    assert(p3.to_server == st);
    let p4 = pipe_step(p3);
    let h = st.take(9);
    assert(header_of(h) == header_of(st));
    assert(p4.server.phase == PhaseView::RecvSettingsPayload(h));
    assert(p4.server_action == ActionView::Read(6));
    assert(p4.to_server == st.skip(9));
    let p5 = pipe_step(p4);
    assert(st.skip(9).take(6) =~= st.skip(9));
    assert(h + st.skip(9) =~= st);
    assert(p5.server.phase == PhaseView::SendAck);
    assert(p5.to_server.len() == 0);
    let p6 = pipe_step(p5);
    assert(p6.server.phase == PhaseView::Ready);
    assert(p6.to_client == ack);
    let p7 = pipe_step(p6);
    assert(ack.take(9) =~= ack);
    assert(p7.client.phase == PhaseView::RecvSettingsPayload(ack));
    assert(p7.client_action == ActionView::Read(0));
    let p8 = pipe_step(p7);
    assert(ack.skip(9).take(0) =~= seq![]);
    assert(ack + seq![] =~= ack);
    assert(p8.client.phase == PhaseView::Ready);
    assert(pipe_run(p8, 0) == p8);
    assert(pipe_run(p0, 8) == pipe_run(p1, 7));
    assert(pipe_run(p1, 7) == pipe_run(p2, 6));
    assert(pipe_run(p2, 6) == pipe_run(p3, 5));
    assert(pipe_run(p3, 5) == pipe_run(p4, 4));
    assert(pipe_run(p4, 4) == pipe_run(p5, 3));
    assert(pipe_run(p5, 3) == pipe_run(p6, 2));
    assert(pipe_run(p6, 2) == pipe_run(p7, 1));
    assert(pipe_run(p7, 1) == pipe_run(p8, 0));
}

} // verus!
