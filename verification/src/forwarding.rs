//! Decisions of the forwarding loop between the tunnel and the video
//! pipeline.
//!
//! The loop waits for either a packet from the device or an encoded video
//! buffer from the pipeline. `PacketLoop` holds its state (the tunnel
//! endpoints and the number of frames seen) and turns each event into an
//! action; whoever runs the loop performs the action.
use vstd::prelude::*;
use crate::datagram::{
    MessageType, TunnelEndpoints, build_frame_headers, frame_datagram, frame_fits, frame_headers,
    frame_udp_payload, message_code,
};
use crate::inbound::{InboundAction, handle_inbound, inbound_action, ip_packet_summary};

verus! {

/// A progress line is due after every this many frames.
pub const LOG_INTERVAL: u64 = 30;

/// What the loop does with a video buffer.
#[derive(Clone, Debug, PartialEq, Eq)]
pub enum FrameAction {
    /// Send `headers`, then the message-type byte `message`, then the frame;
    /// after a successful send, log progress when `log_progress` holds.
    Send { headers: Vec<u8>, message: u8, log_progress: bool },
    /// The frame of `frame_len` bytes is too large for one datagram: warn
    /// and drop it.
    DropOversized { frame_len: usize },
    /// The buffer could not be read: warn and skip it.
    SkipUnreadable,
}

/// Events that decide whether the loop goes on.
#[derive(Clone, Copy, Debug, PartialEq, Eq)]
pub enum LoopEvent {
    /// The pipeline could not be set playing before the loop started.
    PipelineStartFailed,
    /// A frame datagram was sent through the tunnel.
    FrameSent,
    /// Sending a frame datagram through the tunnel failed.
    SendFailed,
    /// Neither the tunnel nor the frame channel can deliver anything more.
    StreamsEnded,
}

/// Whether the loop goes on.
#[derive(Clone, Copy, Debug, PartialEq, Eq)]
pub enum LoopControl {
    Continue,
    Stop,
}

/// The loop goes on only after a frame was sent; a pipeline that does not
/// start, a failed send, or the end of both streams stops it.
pub open spec fn loop_control(event: LoopEvent) -> LoopControl {
    match event {
        LoopEvent::FrameSent => LoopControl::Continue,
        _ => LoopControl::Stop,
    }
}

/// State of the forwarding loop.
#[derive(Clone, Copy, Debug, PartialEq, Eq)]
pub struct PacketLoop {
    pub endpoints: TunnelEndpoints,
    /// Number of video buffers taken from the pipeline so far.
    pub frame_count: u64,
}

impl PacketLoop {
    /// A loop that has seen no frame yet.
    pub fn new(endpoints: TunnelEndpoints) -> (r: PacketLoop)
        ensures
            r.endpoints == endpoints,
            r.frame_count == 0,
    {
        PacketLoop { endpoints, frame_count: 0 }
    }

    /// Handles a packet that arrived from the device. The state is unchanged.
    pub fn on_inbound(&self, packet: &[u8]) -> (r: InboundAction)
        ensures
            r == inbound_action(ip_packet_summary(packet@), self.endpoints.app_port),
    {
        handle_inbound(packet, self.endpoints.app_port)
    }

    /// Handles a video buffer whose bytes are `payload`: counts it, and
    /// either frames it for sending or drops it when it is too large.
    pub fn on_frame(&mut self, payload: &[u8]) -> (r: FrameAction)
        requires
            old(self).frame_count < u64::MAX,
        ensures
            final(self).endpoints == old(self).endpoints,
            final(self).frame_count == old(self).frame_count + 1,
            *final(self) == loop_step(*old(self), LoopInput::Frame(payload@)).0,
            (r is Send) <==> payload@.len() + 9 <= 65535,
            !(r is Send) ==> r == (FrameAction::DropOversized { frame_len: payload@.len() as usize }),
            frame_fits(payload@.len()) ==> (r matches FrameAction::Send { headers, message, log_progress }
                && headers@ == frame_headers(old(self).endpoints, message_code(MessageType::Video), payload@)
                && message == message_code(MessageType::Video)
                && log_progress == (final(self).frame_count % LOG_INTERVAL == 0)
                && loop_step(*old(self), LoopInput::Frame(payload@)).1 == seq![headers@ + seq![message] + payload@]),
            !frame_fits(payload@.len()) ==> loop_step(*old(self), LoopInput::Frame(payload@)).1.len() == 0,
            !frame_fits(payload@.len()) ==> r == (FrameAction::DropOversized {
                frame_len: payload@.len() as usize,
            }),
    {
        proof {
            if frame_fits(payload@.len()) {
                lemma_sent_bytes_are_the_frame_datagram(self.endpoints, payload@);
            }
        }
        self.frame_count = self.frame_count + 1;
        let msg = MessageType::Video;
        match build_frame_headers(&self.endpoints, msg, payload) {
            Some(headers) => FrameAction::Send {
                headers,
                message: msg.code(),
                log_progress: self.frame_count % LOG_INTERVAL == 0,
            },
            None => FrameAction::DropOversized { frame_len: payload.len() },
        }
    }

    /// Decides whether the loop goes on after `event`. The state is unchanged.
    pub fn control(&self, event: LoopEvent) -> (r: LoopControl)
        ensures
            r == loop_control(event),
    {
        match event {
            LoopEvent::FrameSent => LoopControl::Continue,
            LoopEvent::PipelineStartFailed => LoopControl::Stop,
            LoopEvent::SendFailed => LoopControl::Stop,
            LoopEvent::StreamsEnded => LoopControl::Stop,
        }
    }

    /// Handles a video buffer that could not be read: counts it and skips it.
    pub fn on_unreadable_frame(&mut self) -> (r: FrameAction)
        requires
            old(self).frame_count < u64::MAX,
        ensures
            final(self).endpoints == old(self).endpoints,
            final(self).frame_count == old(self).frame_count + 1,
            *final(self) == loop_step(*old(self), LoopInput::UnreadableFrame).0,
            r == FrameAction::SkipUnreadable,
    {
        self.frame_count = self.frame_count + 1;
        FrameAction::SkipUnreadable
    }
}

/// An input of the forwarding loop, as far as the bytes it sends depend on it.
pub enum LoopInput {
    /// A packet that arrived from the device through the tunnel.
    Packet(Seq<u8>),
    /// A video buffer whose bytes could be read.
    Frame(Seq<u8>),
    /// A video buffer that could not be read.
    UnreadableFrame,
}

/// One step of the loop: the state after `input`, and the datagrams sent for it.
pub open spec fn loop_step(lp: PacketLoop, input: LoopInput) -> (PacketLoop, Seq<Seq<u8>>) {
    match input {
        LoopInput::Packet(_) => (lp, Seq::<Seq<u8>>::empty()),
        LoopInput::Frame(p) => (
            PacketLoop { endpoints: lp.endpoints, frame_count: (lp.frame_count + 1) as u64 },
            if frame_fits(p.len()) {
                seq![frame_datagram(lp.endpoints, message_code(MessageType::Video), p)]
            } else {
                Seq::<Seq<u8>>::empty()
            },
        ),
        LoopInput::UnreadableFrame => (
            PacketLoop { endpoints: lp.endpoints, frame_count: (lp.frame_count + 1) as u64 },
            Seq::<Seq<u8>>::empty(),
        ),
    }
}

/// The datagrams the loop sends, in order, for a sequence of inputs.
pub open spec fn loop_run(lp: PacketLoop, inputs: Seq<LoopInput>) -> Seq<Seq<u8>>
    decreases inputs.len(),
{
    if inputs.len() == 0 {
        Seq::<Seq<u8>>::empty()
    } else {
        let (next, sent) = loop_step(lp, inputs[0]);
        sent + loop_run(next, inputs.drop_first())
    }
}

/// The inputs with the packets from the device left out.
pub open spec fn without_packets(inputs: Seq<LoopInput>) -> Seq<LoopInput>
    decreases inputs.len(),
{
    if inputs.len() == 0 {
        inputs
    } else if inputs[0] is Packet {
        without_packets(inputs.drop_first())
    } else {
        seq![inputs[0]] + without_packets(inputs.drop_first())
    }
}

/// Law: packets from the device are only reported, never answered or
/// forwarded: over any run, the datagrams sent are the same, in the same
/// order, as in the run with every packet from the device left out.
pub proof fn lemma_packets_never_change_what_is_sent(lp: PacketLoop, inputs: Seq<LoopInput>)
    ensures
        loop_run(lp, inputs) == loop_run(lp, without_packets(inputs)),
    decreases inputs.len(),
{
    if inputs.len() > 0 {
        let rest = inputs.drop_first();
        let (next, sent) = loop_step(lp, inputs[0]);
        lemma_packets_never_change_what_is_sent(next, rest);
        if inputs[0] is Packet {
            lemma_packets_never_change_what_is_sent(lp, rest);
            assert(sent =~= Seq::<Seq<u8>>::empty());
            assert(loop_run(lp, inputs) =~= loop_run(lp, rest));
        } else {
            let w = seq![inputs[0]] + without_packets(rest);
            assert(w[0] == inputs[0]);
            assert(w.drop_first() =~= without_packets(rest));
        }
    }
}

/// Law: what the loop sends for a frame that fits (the headers of its
/// `Send` action, then the message byte, then the frame) is exactly the
/// frame datagram of `datagram.rs`, so the read-back and checksum laws
/// proved there hold of every datagram the loop sends.
pub proof fn lemma_sent_bytes_are_the_frame_datagram(ep: TunnelEndpoints, payload: Seq<u8>)
    requires
        frame_fits(payload.len()),
    ensures
        frame_headers(ep, message_code(MessageType::Video), payload) + seq![
            message_code(MessageType::Video),
        ] + payload == frame_datagram(ep, message_code(MessageType::Video), payload),
{
    let code = message_code(MessageType::Video);
    assert(frame_headers(ep, code, payload) + seq![code] + payload =~= frame_headers(ep, code, payload)
        + frame_udp_payload(code, payload));
}

} // verus!
