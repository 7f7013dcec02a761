//! Streaming-transport configuration and message types, as plain values.

use vstd::prelude::*;

verus! {

/// Streaming server configuration.
#[derive(Debug, Clone, PartialEq, Eq, Structural)]
pub struct StreamConfig {
    /// Maximum number of connected clients.
    pub max_clients: usize,
    /// Channel buffer size.
    pub channel_buffer_size: usize,
    /// Enable compression for messages.
    pub enable_compression: bool,
    /// Heartbeat interval (seconds).
    pub heartbeat_interval_secs: u64,
}

impl Default for StreamConfig {
    /// The stock configuration: a thousand clients, a ten-thousand message
    /// buffer, no compression, half-minute heartbeats.
    fn default() -> (r: StreamConfig)
        ensures
            r == (StreamConfig {
                max_clients: 1000usize,
                channel_buffer_size: 10000usize,
                enable_compression: false,
                heartbeat_interval_secs: 30u64,
            }),
    {
        StreamConfig {
            max_clients: 1000,
            channel_buffer_size: 10000,
            enable_compression: false,
            heartbeat_interval_secs: 30,
        }
    }
}

/// Filter a subscription applies to the stream.
#[derive(Debug, Clone, PartialEq, Eq)]
pub struct SubscriptionFilter {
    /// Filter by session identifier.
    pub session_id: Option<String>,
    /// Filter by car numbers.
    pub car_ids: Option<Vec<u8>>,
    /// Only send anomalies.
    pub anomalies_only: bool,
}

impl Default for SubscriptionFilter {
    /// No filtering: everything is sent.
    fn default() -> (r: SubscriptionFilter)
        ensures
            r.session_id is None,
            r.car_ids is None,
            !r.anomalies_only,
    {
        SubscriptionFilter { session_id: None, car_ids: None, anomalies_only: false }
    }
}

/// Client request messages.
#[derive(Debug, Clone, PartialEq, Eq)]
pub enum ClientRequest {
    /// Subscribe with a filter.
    Subscribe { filter: SubscriptionFilter },
    /// Unsubscribe.
    Unsubscribe,
    /// Client heartbeat.
    Ping { timestamp: String },
}

/// Streaming failures.
#[derive(Debug, Clone, PartialEq, Eq)]
pub enum StreamError {
    BroadcastError(String),
    ConnectionError(String),
    SerializationError(String),
}

} // verus!
