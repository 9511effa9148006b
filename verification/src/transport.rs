//! The tuning of the transport, applied alike by both roles.
//!
//! The values are policy. They are held as plain numbers; the numbers that the
//! transport encodes as variable-length integers are checked against its own
//! bound when the settings are made.

use crate::error::to_invalid_input_error;
use crate::error::TunnelError;
use vstd::prelude::*;

verus! {

/// The least number that the transport cannot encode as a variable-length
/// integer: two to the power of 62.
pub const VARINT_LIMIT: u64 = 0x4000_0000_0000_0000;

/// The congestion controller that the transport runs.
#[derive(Clone, Copy, Debug, PartialEq, Eq, Structural)]
pub enum CongestionControl {
    /// Bottleneck bandwidth and round-trip propagation time.
    Bbr,
}

/// The tuning of the transport.
#[derive(Clone, Copy, Debug, PartialEq, Eq, Structural)]
pub struct TransportSettings {
    /// How many bidirectional streams the peer may hold open on one connection.
    pub max_concurrent_bidi_streams: u64,
    /// How many unidirectional streams the peer may hold open on one connection.
    pub max_concurrent_uni_streams: u64,
    /// After how many milliseconds without traffic a connection times out;
    /// `None` for never.
    pub max_idle_timeout_ms: Option<u64>,
    /// How many bytes the peer may send on one stream before they are read.
    pub stream_receive_window: u64,
    /// How many bytes the peer may send on all streams of a connection before
    /// they are read.
    pub receive_window: u64,
    /// How many bytes of sent data one connection keeps until the peer has
    /// acknowledged them.
    pub send_window: u64,
    /// The size of a datagram's payload before the path's limit is known.
    pub initial_mtu: u16,
    /// Whether the system may split large sends into datagrams.
    pub segmentation_offload: bool,
    /// Whether the path's limit on datagram size is probed, with the
    /// transport's own defaults.
    pub mtu_discovery: bool,
    /// The congestion controller, with its own defaults.
    pub congestion_control: CongestionControl,
    /// After how many seconds without traffic a keep-alive is sent; `None`
    /// for never.
    pub keep_alive_interval_secs: Option<u64>,
    /// How many bytes of received datagrams a connection buffers; `None`
    /// switches datagrams off.
    pub datagram_receive_buffer_size: Option<usize>,
    /// How many bytes of datagrams to send a connection buffers.
    pub datagram_send_buffer_size: usize,
}

/// The settings that both roles run with.
pub open spec fn reference_settings() -> TransportSettings {
    TransportSettings {
        max_concurrent_bidi_streams: 100,
        max_concurrent_uni_streams: 100,
        max_idle_timeout_ms: Some(120000u64),
        stream_receive_window: 4194304,
        receive_window: 67108864,
        send_window: 67108864,
        initial_mtu: 1350,
        segmentation_offload: true,
        mtu_discovery: true,
        congestion_control: CongestionControl::Bbr,
        keep_alive_interval_secs: Some(15u64),
        datagram_receive_buffer_size: Some(65536usize),
        datagram_send_buffer_size: 65536,
    }
}

/// `quinn::VarIntBoundsExceeded`, the error of the transport for a number
/// that it cannot encode. Nothing is known of a value but that it can be
/// displayed.
#[verifier::external_type_specification]
#[verifier::external_body]
pub struct ExVarIntBoundsExceeded(quinn::VarIntBoundsExceeded);

/// `quinn::VarInt::from_u32`, read back with `VarInt::into_inner`: every
/// `u32` is encodable and the variable-length integer holds the same number.
#[verifier::external_body]
fn varint_from_u32(x: u32) -> (v: u64)
    ensures
        v == x,
{
    quinn::VarInt::from_u32(x).into_inner()
}

/// `quinn::VarInt::from_u64`, read back with `VarInt::into_inner`: the call
/// succeeds exactly for the numbers below two to the power of 62, and the
/// variable-length integer then holds the same number.
#[verifier::external_body]
fn varint_from_u64(x: u64) -> (r: Result<u64, quinn::VarIntBoundsExceeded>)
    ensures
        r is Ok <==> x < VARINT_LIMIT,
        r matches Ok(v) ==> v == x,
{
    match quinn::VarInt::from_u64(x) {
        Ok(v) => Ok(v.into_inner()),
        Err(e) => Err(e),
    }
}

/// `quinn::VarInt::MAX`, read back with `VarInt::into_inner`: the largest
/// encodable number, two to the power of 62 less one.
#[verifier::external_body]
fn varint_max() -> (v: u64)
    ensures
        v == VARINT_LIMIT - 1,
{
    quinn::VarInt::MAX.into_inner()
}

/// `quinn::IdleTimeout::try_from` on a `std::time::Duration` of `ms`
/// milliseconds: the timeout is kept as a variable-length integer of
/// milliseconds, so the call succeeds exactly when `ms` is encodable.
#[verifier::external_body]
fn idle_timeout_from_millis(ms: u64) -> (r: Result<(), quinn::VarIntBoundsExceeded>)
    ensures
        r is Ok <==> ms < VARINT_LIMIT,
{
    match quinn::IdleTimeout::try_from(std::time::Duration::from_millis(ms)) {
        Ok(_) => Ok(()),
        Err(e) => Err(e),
    }
}

/// The number that a window of `bytes` bytes is encoded as: `bytes` itself,
/// or the largest encodable number where `bytes` is beyond it.
pub open spec fn clamped_window(bytes: u64) -> u64 {
    if bytes < VARINT_LIMIT {
        bytes
    } else {
        (VARINT_LIMIT - 1) as u64
    }
}

fn window(bytes: u64) -> (v: u64)
    ensures
        v == clamped_window(bytes),
{
    match varint_from_u64(bytes) {
        Ok(v) => v,
        Err(_) => varint_max(),
    }
}

/// The settings that both roles run with. The idle timeout is the one value
/// that the transport could refuse; it does not, so the result is always
/// `Ok`.
pub fn create_transport_config() -> (r: Result<TransportSettings, TunnelError>)
    ensures
        r matches Ok(settings) && settings == reference_settings(),
{
    let idle_ms: u64 = 120000;
    match idle_timeout_from_millis(idle_ms) {
        Err(e) => Err(to_invalid_input_error(e)),
        Ok(()) => Ok(
            TransportSettings {
                max_concurrent_bidi_streams: varint_from_u32(100),
                max_concurrent_uni_streams: varint_from_u32(100),
                max_idle_timeout_ms: Some(idle_ms),
                stream_receive_window: window(4 * 1024 * 1024),
                receive_window: window(64 * 1024 * 1024),
                send_window: 64 * 1024 * 1024,
                initial_mtu: 1350,
                segmentation_offload: true,
                mtu_discovery: true,
                congestion_control: CongestionControl::Bbr,
                keep_alive_interval_secs: Some(15),
                datagram_receive_buffer_size: Some(64 * 1024),
                datagram_send_buffer_size: 64 * 1024,
            },
        ),
    }
}

} // verus!
