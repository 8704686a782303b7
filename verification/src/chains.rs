//! The chains that the relays connect to, and the names of the runtime methods
//! through which a bridged chain is queried.

use vstd::prelude::*;

verus! {

/// What a relay needs to know of a chain besides its types.
pub trait ChainInfo {
    /// The name of the chain, for logs and metrics.
    fn name() -> &'static str;

    /// The average time between two blocks of the chain, in seconds.
    fn average_block_interval_secs() -> u64;
}

/// Axia chain definition
#[derive(Debug, Clone, Copy)]
pub struct Axia;

impl ChainInfo for Axia {
    fn name() -> (r: &'static str)
        ensures
            r@ == "Axia"@,
    {
        "Axia"
    }

    fn average_block_interval_secs() -> (r: u64)
        ensures
            r == 6,
    {
        6
    }
}

/// AxiaTest chain definition
#[derive(Debug, Clone, Copy)]
pub struct AxiaTest;

impl ChainInfo for AxiaTest {
    fn name() -> (r: &'static str)
        ensures
            r@ == "AxiaTest"@,
    {
        "AxiaTest"
    }

    fn average_block_interval_secs() -> (r: u64)
        ensures
            r == 6,
    {
        6
    }
}

/// Name of the `AxiaTestFinalityApi::best_finalized` runtime method.
pub const BEST_FINALIZED_AXIATEST_HEADER_METHOD: &'static str = "AxiaTestFinalityApi_best_finalized";

/// Name of the `AxiaTestFinalityApi::is_known_header` runtime method.
pub const IS_KNOWN_AXIATEST_HEADER_METHOD: &'static str = "AxiaTestFinalityApi_is_known_header";

/// Name of the `ToAxiaTestOutboundLaneApi::estimate_message_delivery_and_dispatch_fee` runtime method.
pub const TO_AXIATEST_ESTIMATE_MESSAGE_FEE_METHOD: &'static str =
    "ToAxiaTestOutboundLaneApi_estimate_message_delivery_and_dispatch_fee";

/// Name of the `ToAxiaTestOutboundLaneApi::message_details` runtime method.
pub const TO_AXIATEST_MESSAGE_DETAILS_METHOD: &'static str = "ToAxiaTestOutboundLaneApi_message_details";

/// Name of the `ToAxiaTestOutboundLaneApi::latest_generated_nonce` runtime method.
pub const TO_AXIATEST_LATEST_GENERATED_NONCE_METHOD: &'static str =
    "ToAxiaTestOutboundLaneApi_latest_generated_nonce";

/// Name of the `ToAxiaTestOutboundLaneApi::latest_received_nonce` runtime method.
pub const TO_AXIATEST_LATEST_RECEIVED_NONCE_METHOD: &'static str =
    "ToAxiaTestOutboundLaneApi_latest_received_nonce";

/// Name of the `FromAxiaTestInboundLaneApi::latest_received_nonce` runtime method.
pub const FROM_AXIATEST_LATEST_RECEIVED_NONCE_METHOD: &'static str =
    "FromAxiaTestInboundLaneApi_latest_received_nonce";

/// Name of the `FromAxiaTestInboundLaneApi::latest_onfirmed_nonce` runtime method.
pub const FROM_AXIATEST_LATEST_CONFIRMED_NONCE_METHOD: &'static str =
    "FromAxiaTestInboundLaneApi_latest_confirmed_nonce";

/// Name of the `FromAxiaTestInboundLaneApi::unrewarded_relayers_state` runtime method.
pub const FROM_AXIATEST_UNREWARDED_RELAYERS_STATE: &'static str =
    "FromAxiaTestInboundLaneApi_unrewarded_relayers_state";

} // verus!
