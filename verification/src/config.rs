use vstd::prelude::*;

verus! {

/// Connection settings for the event stream consumer.
#[derive(Debug, Clone)]
pub struct KafkaConfig {
    pub brokers: String,
    pub topic: String,
    pub group_id: String,
    pub timeout_ms: u64,
    pub max_retries: u32,
}

impl Default for KafkaConfig {
    /// A local broker on the default port, the `events` topic, a five
    /// second timeout and five retries.
    fn default() -> (c: KafkaConfig)
        ensures
            c.brokers@ == "localhost:9092"@,
            c.topic@ == "events"@,
            c.group_id@ == "kafka-streaming-group"@,
            c.timeout_ms == 5000,
            c.max_retries == 5,
    {
        KafkaConfig {
            brokers: String::from_str("localhost:9092"),
            topic: String::from_str("events"),
            group_id: String::from_str("kafka-streaming-group"),
            timeout_ms: 5000,
            max_retries: 5,
        }
    }
}

} // verus!
