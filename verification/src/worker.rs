//! The worker's computations: building the chip's command frame, decoding
//! the raw response, and scaling the 10-bit sample into a voltage.
//!
//! The blocking bus transaction itself is performed outside the library by
//! the thread that owns the bus handle; everything that decides what bytes
//! are written and what the response means is here, verified.

use vstd::prelude::*;

use crate::link::{channel_recv, channel_send};
use crate::types::{Channel, Error, Event, Request, Volt};

verus! {

/// The number of codes in the chip's 10-bit output range.
pub const SAMPLE_SPAN: u64 = 1024;

/// Second byte of the command frame: the single-ended-mode flag plus the
/// 3-bit channel address in bits 4-6, written out per channel.
pub open spec fn frame_byte1_spec(channel: Channel) -> u8 {
    match channel {
        Channel::Ch0 => 0x80,
        Channel::Ch1 => 0x90,
        Channel::Ch2 => 0xa0,
        Channel::Ch3 => 0xb0,
        Channel::Ch4 => 0xc0,
        Channel::Ch5 => 0xd0,
        Channel::Ch6 => 0xe0,
        Channel::Ch7 => 0xf0,
    }
}

/// The per-channel bytes are exactly the packing the chip documents: the
/// mode flag `0x80` with the channel's 3-bit address shifted into bits
/// 4-6.
pub proof fn lemma_frame_byte_packs_address(channel: Channel)
    ensures
        frame_byte1_spec(channel) == 0x80u8 | (channel.index_spec() << 4),
{
    assert(0x80u8 == 0x80u8 | (0u8 << 4)) by (bit_vector);
    assert(0x90u8 == 0x80u8 | (1u8 << 4)) by (bit_vector);
    assert(0xa0u8 == 0x80u8 | (2u8 << 4)) by (bit_vector);
    assert(0xb0u8 == 0x80u8 | (3u8 << 4)) by (bit_vector);
    assert(0xc0u8 == 0x80u8 | (4u8 << 4)) by (bit_vector);
    assert(0xd0u8 == 0x80u8 | (5u8 << 4)) by (bit_vector);
    assert(0xe0u8 == 0x80u8 | (6u8 << 4)) by (bit_vector);
    assert(0xf0u8 == 0x80u8 | (7u8 << 4)) by (bit_vector);
}

/// The three-byte command frame for one conversion: a start bit, the mode
/// and channel byte, and a trailing don't-care byte that clocks the
/// response out.
pub open spec fn command_frame_spec(channel: Channel) -> Seq<u8> {
    seq![0x01u8, frame_byte1_spec(channel), 0x00u8]
}

pub fn command_frame(channel: Channel) -> (r: [u8; 3])
    ensures
        r@ == command_frame_spec(channel),
        r@[0] == 0x01u8,
        r@[1] == frame_byte1_spec(channel),
        r@[2] == 0x00u8,
{
    let frame: [u8; 3] = [0b0000_0001, 0b1000_0000 | (channel.index() << 4), 0b0000_0000];
    proof {
        lemma_frame_byte_packs_address(channel);
        assert(frame@ =~= command_frame_spec(channel));
    }
    frame
}

/// The 10-bit sample held in a response: the low 2 bits of the second byte
/// are the high bits, the third byte the low bits.
pub open spec fn decode_sample_spec(response: Seq<u8>) -> u16 {
    (((response[1] as int) % 4) * 256 + response[2] as int) as u16
}

pub fn decode_sample(response: &[u8; 3]) -> (r: u16)
    ensures
        r == decode_sample_spec(response@),
        r == (((response@[1] & 0x03u8) as u16) << 8) | (response@[2] as u16),
        r < SAMPLE_SPAN,
{
    let high = response[1] & 0b0000_0011;
    let low = response[2];
    let sample = ((high as u16) << 8) | (low as u16);
    proof {
        let b1 = response@[1];
        let b2 = response@[2];
        assert((((b1 & 0x03u8) as u16) << 8) | (b2 as u16) == (b1 % 4) * 256 + b2)
            by (bit_vector);
    }
    sample
}

/// The linear scaling of a 10-bit code onto `0 .. v_ref`: the exact value
/// `sample * v_ref / 1024`, rounded down to a whole microvolt.
pub open spec fn scale_sample_spec(sample: u16, v_ref: Volt) -> Volt {
    Volt { microvolts: ((sample * v_ref.microvolts) / (SAMPLE_SPAN as int)) as u64 }
}

pub fn scale_sample(sample: u16, v_ref: Volt) -> (r: Volt)
    requires
        sample < SAMPLE_SPAN,
    ensures
        r == scale_sample_spec(sample, v_ref),
{
    proof {
        assert((sample as int) * (v_ref.microvolts as int) < 1024 * 0x1_0000_0000_0000_0000)
            by (nonlinear_arith)
            requires
                sample < 1024,
                v_ref.microvolts < 0x1_0000_0000_0000_0000,
        ;
        lemma_scale_fits(sample as int, v_ref.microvolts as int);
    }
    let wide: u128 = (sample as u128) * (v_ref.microvolts as u128);
    let scaled: u128 = wide / (SAMPLE_SPAN as u128);
    Volt { microvolts: scaled as u64 }
}

/// The scaled value of a sample below the full 10-bit span never exceeds
/// the reference voltage, so it fits back into 64 bits.
proof fn lemma_scale_fits(sample: int, microvolts: int)
    by (nonlinear_arith)
    requires
        0 <= sample < 1024,
        0 <= microvolts <= u64::MAX,
    ensures
        0 <= (sample * microvolts) / 1024 <= microvolts,
{
}

/// Scaling sends the zero code to zero volts.
pub proof fn lemma_scale_zero(v_ref: Volt)
    ensures
        scale_sample_spec(0, v_ref) == (Volt { microvolts: 0 }),
{
}

/// Scaling is monotonic in the sample code, over the chip's 10-bit range.
pub proof fn lemma_scale_monotonic(s1: u16, s2: u16, v_ref: Volt)
    requires
        s1 <= s2 < SAMPLE_SPAN,
    ensures
        scale_sample_spec(s1, v_ref).microvolts <= scale_sample_spec(s2, v_ref).microvolts,
{
    let r = v_ref.microvolts as int;
    lemma_scale_fits(s1 as int, r);
    lemma_scale_fits(s2 as int, r);
    assert(((s1 as int) * r) / 1024 <= ((s2 as int) * r) / 1024) by (nonlinear_arith)
        requires
            s1 <= s2,
            0 <= r,
    ;
}

/// The largest code maps to the top step of the range: it falls short of
/// the reference voltage by exactly one 1024th (rounded up), and by no
/// more; in particular it never exceeds the reference.
pub proof fn lemma_scale_full(v_ref: Volt)
    ensures
        scale_sample_spec(1023, v_ref).microvolts
            == v_ref.microvolts - ((v_ref.microvolts + 1023) / 1024),
        scale_sample_spec(1023, v_ref).microvolts <= v_ref.microvolts,
{
    let r = v_ref.microvolts as int;
    assert(1023 * r == 1024 * r - r) by (nonlinear_arith);
    assert((1024 * r - r) / 1024 == r - (r + 1023) / 1024) by (nonlinear_arith);
    assert(0 <= (1023 * r) / 1024 <= r) by (nonlinear_arith)
        requires
            0 <= r,
    ;
}

/// The event the worker sends back for one completed conversion: the
/// requested channel itself, with the decoded sample scaled against the
/// reference voltage.
pub open spec fn conversion_event_spec(channel: Channel, response: Seq<u8>, v_ref: Volt) -> Event {
    Event::ChannelRead { channel, value: scale_sample_spec(decode_sample_spec(response), v_ref) }
}

pub fn conversion_event(channel: Channel, response: &[u8; 3], v_ref: Volt) -> (r: Event)
    ensures
        r == conversion_event_spec(channel, response@, v_ref),
{
    let sample = decode_sample(response);
    let value = scale_sample(sample, v_ref);
    Event::ChannelRead { channel, value }
}

/// The worker's half of a session: the receive side of the request channel
/// and the send side of the event channel, together with the bus clock
/// rate and the resolved reference voltage derived from the caller's
/// parameters. Owned by the thread that owns the bus handle.
pub struct WorkerLink {
    pub request_rx: std::sync::mpsc::Receiver<Request>,
    pub event_tx: std::sync::mpsc::SyncSender<Event>,
    pub clock_hz: u32,
    pub v_ref: Volt,
}

impl WorkerLink {
    /// The channel a received request asks for; shutdown stays shutdown.
    pub open spec fn next_request_spec(received: Option<Request>) -> Option<Channel> {
        match received {
            Some(Request::ProbeChannel { channel }) => Some(channel),
            None => None,
        }
    }

    /// Blocks until the next conversion request arrives and names its
    /// channel; `None` when the caller has dropped the session, which is
    /// the normal shutdown path, not an error. What arrives depends on
    /// the caller, so the result is pinned only as a function of it.
    pub fn next_request(&self) -> (r: Option<Channel>)
        ensures
            exists|received: Option<Request>| r == #[trigger] Self::next_request_spec(received),
    {
        let received = channel_recv(&self.request_rx);
        let ghost seen = received;
        let r = match received {
            Some(request) => match request {
                Request::ProbeChannel { channel } => Some(channel),
            },
            None => None,
        };
        proof {
            assert(r == Self::next_request_spec(seen));
        }
        r
    }

    /// Signals that the bus is open. Best-effort: a caller that already
    /// abandoned the session leaves the send undeliverable, and that is
    /// swallowed rather than treated as fatal.
    pub fn announce_ready(&self) {
        let _delivered: bool = channel_send(&self.event_tx, Event::SpiInitialized);
    }

    /// Reports one completed conversion for the requested channel and
    /// returns the voltage it reported: exactly the decoded sample scaled
    /// against the session's reference voltage. The send is best-effort,
    /// as for readiness.
    pub fn report_sample(&self, channel: Channel, response: &[u8; 3]) -> (r: Volt)
        ensures
            r == scale_sample_spec(decode_sample_spec(response@), self.v_ref),
            conversion_event_spec(channel, response@, self.v_ref) == (Event::ChannelRead {
                channel,
                value: r,
            }),
    {
        let sample = decode_sample(response);
        let value = scale_sample(sample, self.v_ref);
        let _delivered: bool = channel_send(
            &self.event_tx,
            Event::ChannelRead { channel, value },
        );
        value
    }

    /// Reports a terminal failure as the worker's last event before it
    /// exits. Best-effort, as for readiness.
    pub fn report_failure(&self, error: Error) {
        let _delivered: bool = channel_send(&self.event_tx, Event::Error(error));
    }
}

} // verus!
