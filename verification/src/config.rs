//! Configuration of the plugin, as plain values.

use crate::protobuf::ProtobufEncoder;
use vstd::prelude::*;

verus! {

/// Logging.
#[derive(Debug, Clone)]
pub struct ConfigLogs {
    /// Log level
    pub level: String,
}

impl Default for ConfigLogs {
    fn default() -> (config: Self)
        ensures
            config.level@ == "info"@,
    {
        ConfigLogs { level: "info".to_owned() }
    }
}

/// Limits and encoding of the retention channel.
#[derive(Debug, Clone, Copy)]
pub struct ConfigChannel {
    /// How events are turned into bytes.
    pub encoder: ProtobufEncoder,
    /// Most messages kept at once.
    pub max_messages: usize,
    /// Most payload bytes kept at once.
    pub max_bytes: u64,
}

impl Default for ConfigChannel {
    fn default() -> (config: Self)
        ensures
            config.encoder == ProtobufEncoder::Raw,
            config.max_messages == 2_097_152,
            config.max_bytes == 15 * 1024 * 1024 * 1024,
    {
        ConfigChannel {
            encoder: ProtobufEncoder::Raw,
            // a power of two; at about 20k messages a slot this is about 100 slots
            max_messages: 2_097_152,
            // 15 GiB; at about 150 MiB a slot this is about 100 slots
            max_bytes: 16_106_127_360,
        }
    }
}

/// What `deserialize_encoder` answers for text that names no encoder.
pub open spec fn encoder_error(value: Seq<char>) -> Seq<char> {
    "failed to decode encoder: "@ + value
}

impl ConfigChannel {
    /// Reads the name of an encoder: `"prost"` or `"raw"`, nothing else.
    pub fn deserialize_encoder(value: &str) -> (result: Result<ProtobufEncoder, String>)
        ensures
            value@ == "prost"@ <==> result == Ok::<ProtobufEncoder, String>(ProtobufEncoder::Prost),
            value@ == "raw"@ <==> result == Ok::<ProtobufEncoder, String>(ProtobufEncoder::Raw),
            value@ != "prost"@ && value@ != "raw"@ <==> result is Err,
            result matches Err(message) ==> message@ == encoder_error(value@),
    {
        proof {
            reveal_strlit("prost");
            reveal_strlit("raw");
            assert("prost"@.len() != "raw"@.len());
        }
        let name = value.to_owned();
        if name == "prost".to_owned() {
            Ok(ProtobufEncoder::Prost)
        } else if name == "raw".to_owned() {
            Ok(ProtobufEncoder::Raw)
        } else {
            let mut message = "failed to decode encoder: ".to_owned();
            message.append(value);
            Err(message)
        }
    }
}

/// Which events are passed on.
#[derive(Debug, Clone, Copy)]
pub struct ConfigFilters {
    /// Enable/disable account update notifications
    pub enable_account_update: bool,
    /// Enable/disable transaction update notifications
    pub enable_transaction_update: bool,
    /// Maximum account data size to send, if None no limit
    pub max_account_data_size: Option<usize>,
}

impl Default for ConfigFilters {
    fn default() -> (config: Self)
        ensures
            config.enable_account_update,
            config.enable_transaction_update,
            config.max_account_data_size is None,
    {
        ConfigFilters {
            enable_account_update: true,
            enable_transaction_update: true,
            max_account_data_size: None,
        }
    }
}

/// The whole configuration. Of the services around the channel it records
/// only whether each is asked for; their own settings stay with whoever starts
/// them.
#[derive(Debug, Clone)]
pub struct Config {
    pub libpath: String,
    pub logs: ConfigLogs,
    /// Whether a metrics endpoint is configured.
    pub metrics: bool,
    pub channel: ConfigChannel,
    pub filters: ConfigFilters,
    /// Whether a QUIC listener is configured.
    pub quic: bool,
    /// Whether a gRPC listener is configured.
    pub grpc: bool,
}

impl Default for Config {
    fn default() -> (config: Self)
        ensures
            config.libpath@ == Seq::<char>::empty(),
            config.logs.level@ == "info"@,
            !config.metrics,
            !config.quic,
            !config.grpc,
            config.channel.encoder == ProtobufEncoder::Raw,
            config.channel.max_messages == 2_097_152,
            config.channel.max_bytes == 15 * 1024 * 1024 * 1024,
            config.filters.enable_account_update,
            config.filters.enable_transaction_update,
            config.filters.max_account_data_size is None,
    {
        Config {
            libpath: String::new(),
            logs: ConfigLogs::default(),
            metrics: false,
            channel: ConfigChannel::default(),
            filters: ConfigFilters::default(),
            quic: false,
            grpc: false,
        }
    }
}

} // verus!
