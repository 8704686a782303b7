//! Execution barriers for XCM messages, benchmarked weights of the vesting
//! pallet, and the decision logic of the bridge relays of the Axia network.

pub mod barriers;
pub mod chains;
pub mod messages_target;
pub mod relay;
pub mod rialto_client;
pub mod scale;
pub mod weights;
pub mod xcm;
