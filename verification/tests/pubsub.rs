use google_apis_ex::auth::TokenManager;
use google_apis_ex::pubsub::PubSubClient;

fn client() -> PubSubClient {
    PubSubClient::new(TokenManager::new(PubSubClient::scopes()))
}

#[test]
fn test_publish_request() {
    let call = client().publish("token", "projects/p/topics/t", vec![104u8, 105]);
    assert_eq!(call.metadata.authorization, "Bearer token");
    assert_eq!(call.metadata.request_params, "");
    assert_eq!(call.message.topic, "projects/p/topics/t");
    assert_eq!(call.message.messages.len(), 1);
    let message = &call.message.messages[0];
    assert_eq!(message.data, vec![104u8, 105]);
    assert!(message.attributes.is_empty());
    assert_eq!(message.message_id, "");
    assert!(message.publish_time.is_none());
    assert_eq!(message.ordering_key, "");
}

#[test]
fn test_pull_request() {
    let call = client().pull("token", "projects/p/subscriptions/s");
    assert_eq!(call.metadata.authorization, "Bearer token");
    assert_eq!(call.message.subscription, "projects/p/subscriptions/s");
    assert!(call.message.return_immediately);
    assert_eq!(call.message.max_messages, 100);
}

#[test]
fn test_acknowledge_request() {
    let ack_ids = vec!["a1".to_string(), "a2".to_string()];
    let call = client().acknowledge("token", "projects/p/subscriptions/s", ack_ids.clone());
    assert_eq!(call.message.subscription, "projects/p/subscriptions/s");
    assert_eq!(call.message.ack_ids, ack_ids);
}

#[test]
fn test_pubsub_scopes() {
    assert_eq!(
        PubSubClient::scopes(),
        vec![
            "https://www.googleapis.com/auth/cloud-platform".to_string(),
            "https://www.googleapis.com/auth/pubsub".to_string(),
        ]
    );
}

#[test]
fn test_pubsub_endpoints() {
    assert_eq!(
        google_apis_ex::pubsub::client::DOMAIN_NAME,
        "pubsub.googleapis.com"
    );
    assert_eq!(
        google_apis_ex::pubsub::client::ENDPOINT,
        "https://pubsub.googleapis.com"
    );
}
