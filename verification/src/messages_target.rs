//! The Axlib client as the target of a message lane: it reads the state of
//! the inbound lane from the replies of the target node and puts together the
//! proof that messages were received. The node is reached over RPC.

use vstd::prelude::*;
use crate::relay::{ClientError, HeaderId};
use crate::scale::{decode_three_u64, decode_u64, encode_bytes4, u64_at};

verus! {

/// Identifier of a message lane.
pub type LaneId = [u8; 4];

/// Identifier of a bridged chain.
pub type ChainId = [u8; 4];

/// Nonce of a message of a lane.
pub type MessageNonce = u64;

/// Unrewarded relayers state of an inbound lane.
#[derive(Clone, Copy, Debug, PartialEq, Eq)]
pub struct UnrewardedRelayersState {
    /// Number of entries in the unrewarded relayers set.
    pub unrewarded_relayer_entries: MessageNonce,
    /// Number of messages in the oldest entry of the set.
    pub messages_in_oldest_entry: MessageNonce,
    /// Total number of messages in the set.
    pub total_messages: MessageNonce,
}

/// The proof that the messages of `lane` have been delivered, taken at the
/// header with hash `bridged_header_hash` of the target chain.
#[derive(Clone, Debug, PartialEq, Eq)]
pub struct FromBridgedChainMessagesDeliveryProof<Hash> {
    /// Hash of the header at which the proof was taken.
    pub bridged_header_hash: Hash,
    /// The storage proof: the trie nodes that prove the lane's data.
    pub storage_proof: Vec<Vec<u8>>,
    /// The lane whose messages were delivered.
    pub lane: LaneId,
}

/// Axlib client as Axlib messages target.
pub struct AxlibMessagesTarget<Client, Lane, HeadersRelay> {
    client: Client,
    lane: Lane,
    lane_id: LaneId,
    instance: ChainId,
    source_to_target_headers_relay: Option<HeadersRelay>,
}

impl<Client, Lane, HeadersRelay> AxlibMessagesTarget<Client, Lane, HeadersRelay> {
    /// The lane whose messages this target receives.
    pub closed spec fn spec_lane_id(&self) -> LaneId {
        self.lane_id
    }

    /// The bridge instance of this target.
    pub closed spec fn spec_instance(&self) -> ChainId {
        self.instance
    }

    /// The client of the target node.
    pub closed spec fn spec_client(&self) -> Client {
        self.client
    }

    /// The lane description.
    pub closed spec fn spec_lane(&self) -> Lane {
        self.lane
    }

    /// The relay of source headers to the target, if any.
    pub closed spec fn spec_headers_relay(&self) -> Option<HeadersRelay> {
        self.source_to_target_headers_relay
    }

    /// Create new Axlib headers target.
    pub fn new(
        client: Client,
        lane: Lane,
        lane_id: LaneId,
        instance: ChainId,
        source_to_target_headers_relay: Option<HeadersRelay>,
    ) -> (r: Self)
        ensures
            r.spec_client() == client,
            r.spec_lane() == lane,
            r.spec_lane_id() == lane_id,
            r.spec_instance() == instance,
            r.spec_headers_relay() == source_to_target_headers_relay,
    {
        AxlibMessagesTarget { client, lane, lane_id, instance, source_to_target_headers_relay }
    }

    /// The client of the target node.
    pub fn client(&self) -> (r: &Client)
        ensures
            *r == self.spec_client(),
    {
        &self.client
    }

    /// The client of the target node, to be changed in place.
    pub fn client_mut(&mut self) -> (r: &mut Client)
        ensures
            *r == old(self).spec_client(),
            final(self).spec_client() == *final(r),
            final(self).spec_lane() == old(self).spec_lane(),
            final(self).spec_lane_id() == old(self).spec_lane_id(),
            final(self).spec_instance() == old(self).spec_instance(),
            final(self).spec_headers_relay() == old(self).spec_headers_relay(),
    {
        &mut self.client
    }

    /// The lane description.
    pub fn lane(&self) -> (r: &Lane)
        ensures
            *r == self.spec_lane(),
    {
        &self.lane
    }

    /// The lane whose messages this target receives.
    pub fn lane_id(&self) -> (r: LaneId)
        ensures
            r == self.spec_lane_id(),
    {
        self.lane_id
    }

    /// The bridge instance of this target.
    pub fn instance(&self) -> (r: ChainId)
        ensures
            r == self.spec_instance(),
    {
        self.instance
    }

    /// The relay of source headers to the target, if any.
    pub fn source_to_target_headers_relay(&self) -> (r: &Option<HeadersRelay>)
        ensures
            *r == self.spec_headers_relay(),
    {
        &self.source_to_target_headers_relay
    }

    /// What is sent along with each query of the inbound lane: the encoded
    /// lane id.
    pub fn inbound_lane_call_data(&self) -> (r: Vec<u8>)
        ensures
            r@ == self.spec_lane_id()@,
    {
        encode_bytes4(&self.lane_id)
    }

    /// Puts together the proof that the messages of this target's lane were
    /// received, from the relayers state and the storage proof read at the
    /// header `id`.
    pub fn messages_receiving_proof<Hash: Copy, Number>(
        &self,
        id: HeaderId<Hash, Number>,
        relayers_state: UnrewardedRelayersState,
        storage_proof: Vec<Vec<u8>>,
    ) -> (r: (HeaderId<Hash, Number>, (UnrewardedRelayersState, FromBridgedChainMessagesDeliveryProof<Hash>)))
        ensures
            r.0 == id,
            r.1.0 == relayers_state,
            r.1.1.bridged_header_hash == id.1,
            r.1.1.storage_proof == storage_proof,
            r.1.1.lane == self.spec_lane_id(),
    {
        let hash = id.1;
        let proof = FromBridgedChainMessagesDeliveryProof {
            bridged_header_hash: hash,
            storage_proof,
            lane: self.lane_id,
        };
        (id, (relayers_state, proof))
    }

}

impl<Client: Clone, Lane: Clone, HeadersRelay: Clone> Clone for AxlibMessagesTarget<
    Client,
    Lane,
    HeadersRelay,
> {
    /// A target on the same lane and instance, with a clone of the client, of
    /// the lane description and of the headers relay, if any.
    fn clone(&self) -> (r: Self)
        ensures
            r.spec_lane_id() == self.spec_lane_id(),
            r.spec_instance() == self.spec_instance(),
            cloned(self.spec_client(), r.spec_client()),
            cloned(self.spec_lane(), r.spec_lane()),
            self.spec_headers_relay() is None <==> r.spec_headers_relay() is None,
            self.spec_headers_relay() is Some ==> cloned(
                self.spec_headers_relay().unwrap(),
                r.spec_headers_relay().unwrap(),
            ),
    {
        let relay = match &self.source_to_target_headers_relay {
            Some(relay) => Some(relay.clone()),
            None => None,
        };
        AxlibMessagesTarget {
            client: self.client.clone(),
            lane: self.lane.clone(),
            lane_id: self.lane_id,
            instance: self.instance,
            source_to_target_headers_relay: relay,
        }
    }
}

/// Reads the reply of the inbound lane methods that return the latest received
/// or the latest confirmed nonce, queried at header `id`.
pub fn nonce_from_response<Id>(id: Id, encoded_response: &[u8]) -> (r: Result<
    (Id, MessageNonce),
    ClientError,
>)
    ensures
        r is Ok <==> encoded_response@.len() >= 8,
        r matches Ok(v) ==> v.0 == id && v.1 == u64_at(encoded_response@, 0),
        r matches Err(e) ==> e is ResponseParseFailed,
{
    match decode_u64(encoded_response) {
        Ok(nonce) => Ok((id, nonce)),
        Err(e) => Err(ClientError::ResponseParseFailed(e)),
    }
}

/// Reads the reply of the inbound lane method that returns the state of the
/// unrewarded relayers, queried at header `id`.
pub fn unrewarded_relayers_state_from_response<Id>(id: Id, encoded_response: &[u8]) -> (r: Result<
    (Id, UnrewardedRelayersState),
    ClientError,
>)
    ensures
        r is Ok <==> encoded_response@.len() >= 24,
        r matches Ok(v) ==> v.0 == id,
        r matches Ok(v) ==> v.1.unrewarded_relayer_entries == u64_at(encoded_response@, 0),
        r matches Ok(v) ==> v.1.messages_in_oldest_entry == u64_at(encoded_response@, 8),
        r matches Ok(v) ==> v.1.total_messages == u64_at(encoded_response@, 16),
        r matches Err(e) ==> e is ResponseParseFailed,
{
    match decode_three_u64(encoded_response) {
        Ok(decoded) => Ok(
            (
                id,
                UnrewardedRelayersState {
                    unrewarded_relayer_entries: decoded.0,
                    messages_in_oldest_entry: decoded.1,
                    total_messages: decoded.2,
                },
            ),
        ),
        Err(e) => Err(ClientError::ResponseParseFailed(e)),
    }
}

} // verus!
