//! The Pub/Sub client: the gRPC request messages it sends and the metadata
//! attached to each call.

use vstd::prelude::*;
use vstd::string::*;
use crate::auth::TokenManager;
use crate::util::GrpcCall;
use crate::util::RequestMetadata;
use crate::util::construct_request;
use crate::util::spec_bearer;

verus! {

/// The host the Pub/Sub calls are routed to.
pub const DOMAIN_NAME: &'static str = "pubsub.googleapis.com";

/// The endpoint the Pub/Sub channels connect to.
pub const ENDPOINT: &'static str = "https://pubsub.googleapis.com";

/// A point in time, as the wire format carries it: seconds and nanoseconds
/// since the Unix epoch.
#[derive(Debug, Clone, Copy, PartialEq, Eq)]
pub struct PublishTime {
    pub seconds: i64,
    pub nanos: i32,
}

/// One message published to a topic.
#[derive(Debug, Clone, PartialEq)]
pub struct PubsubMessage {
    pub data: Vec<u8>,
    pub attributes: std::collections::HashMap<String, String>,
    pub message_id: String,
    pub publish_time: Option<PublishTime>,
    pub ordering_key: String,
}

/// The request that publishes messages to a topic.
#[derive(Debug, Clone, PartialEq)]
pub struct PublishRequest {
    pub topic: String,
    pub messages: Vec<PubsubMessage>,
}

/// The request that pulls messages from a subscription.
#[derive(Debug, Clone, PartialEq)]
pub struct PullRequest {
    pub subscription: String,
    pub return_immediately: bool,
    pub max_messages: i32,
}

/// The request that acknowledges pulled messages.
#[derive(Debug, Clone, PartialEq)]
pub struct AcknowledgeRequest {
    pub subscription: String,
    pub ack_ids: Vec<String>,
}

/// A Pub/Sub client: the token cache for the Pub/Sub scopes.  The gRPC
/// channel that carries its calls lives outside the library.
pub struct PubSubClient {
    /// The token cache this client attaches bearer tokens from.
    pub token_manager: TokenManager,
}

impl PubSubClient {
    /// A Pub/Sub client over an already-initialized token cache.
    pub fn new(token_manager: TokenManager) -> (r: Self)
        ensures
            r.token_manager == token_manager,
    {
        PubSubClient { token_manager }
    }

    /// The permission scopes a Pub/Sub token is minted for.
    pub fn scopes() -> (r: Vec<String>)
        ensures
            r@.len() == 2,
            r@[0]@ == "https://www.googleapis.com/auth/cloud-platform"@,
            r@[1]@ == "https://www.googleapis.com/auth/pubsub"@,
    {
        let mut r: Vec<String> = Vec::new();
        r.push(String::from_str("https://www.googleapis.com/auth/cloud-platform"));
        r.push(String::from_str("https://www.googleapis.com/auth/pubsub"));
        r
    }

    /// The metadata of one call of this client: the bearer value for
    /// `token`, with no routing pairs.
    pub fn construct_request(&self, token: &str) -> (r: RequestMetadata)
        ensures
            r.authorization@ == spec_bearer(token@),
            r.request_params@ == Seq::<char>::empty(),
    {
        construct_request(token, &Vec::new())
    }

    /// The call that publishes `data` to `topic` (in the format
    /// `projects/{project}/topics/{topic}`): one message carrying the bytes
    /// unchanged, with no attributes and no ordering key.
    pub fn publish(&self, token: &str, topic: &str, data: Vec<u8>) -> (r: GrpcCall<PublishRequest>)
        ensures
            r.metadata.authorization@ == spec_bearer(token@),
            r.metadata.request_params@ == Seq::<char>::empty(),
            r.message.topic@ == topic@,
            r.message.messages@.len() == 1,
            r.message.messages@[0].data@ == data@,
            r.message.messages@[0].attributes@ == Map::<String, String>::empty(),
            r.message.messages@[0].message_id@ == Seq::<char>::empty(),
            r.message.messages@[0].publish_time is None,
            r.message.messages@[0].ordering_key@ == Seq::<char>::empty(),
    {
        let metadata = self.construct_request(token);
        let mut messages: Vec<PubsubMessage> = Vec::new();
        messages.push(
            PubsubMessage {
                data,
                attributes: std::collections::HashMap::new(),
                message_id: String::new(),
                publish_time: None,
                ordering_key: String::new(),
            },
        );
        GrpcCall {
            metadata,
            message: PublishRequest { topic: String::from_str(topic), messages },
        }
    }

    /// The call that pulls from `subscription`: up to 100 messages,
    /// returning immediately when none are waiting.
    pub fn pull(&self, token: &str, subscription: &str) -> (r: GrpcCall<PullRequest>)
        ensures
            r.metadata.authorization@ == spec_bearer(token@),
            r.metadata.request_params@ == Seq::<char>::empty(),
            r.message.subscription@ == subscription@,
            r.message.return_immediately == true,
            r.message.max_messages == 100,
    {
        let metadata = self.construct_request(token);
        GrpcCall {
            metadata,
            message: PullRequest {
                subscription: String::from_str(subscription),
                return_immediately: true,
                max_messages: 100,
            },
        }
    }

    /// The call that acknowledges the messages of `ack_ids` on
    /// `subscription`: the ids are carried unchanged.
    pub fn acknowledge(&self, token: &str, subscription: &str, ack_ids: Vec<String>) -> (r:
        GrpcCall<AcknowledgeRequest>)
        ensures
            r.metadata.authorization@ == spec_bearer(token@),
            r.metadata.request_params@ == Seq::<char>::empty(),
            r.message.subscription@ == subscription@,
            r.message.ack_ids == ack_ids,
    {
        let metadata = self.construct_request(token);
        GrpcCall {
            metadata,
            message: AcknowledgeRequest { subscription: String::from_str(subscription), ack_ids },
        }
    }
}

} // verus!
