use richat_plugin_agave::config::{Config, ConfigChannel, ConfigFilters, ConfigLogs};
use richat_plugin_agave::protobuf::ProtobufEncoder;

#[test]
fn logs_default_to_info() {
    assert_eq!(ConfigLogs::default().level, "info");
}

#[test]
fn channel_defaults() {
    let config = ConfigChannel::default();
    assert_eq!(config.encoder, ProtobufEncoder::Raw);
    assert_eq!(config.max_messages, 2_097_152);
    assert_eq!(config.max_bytes, 15 * 1024 * 1024 * 1024);
}

#[test]
fn filters_default_to_everything() {
    let config = ConfigFilters::default();
    assert!(config.enable_account_update);
    assert!(config.enable_transaction_update);
    assert_eq!(config.max_account_data_size, None);
}

#[test]
fn config_defaults() {
    let config = Config::default();
    assert_eq!(config.libpath, "");
    assert_eq!(config.logs.level, "info");
    assert!(!config.metrics);
    assert!(!config.grpc);
    assert!(!config.quic);
    assert_eq!(config.channel.max_messages, 2_097_152);
    assert!(config.filters.enable_account_update);
}

#[test]
fn encoder_names() {
    assert_eq!(ConfigChannel::deserialize_encoder("prost"), Ok(ProtobufEncoder::Prost));
    assert_eq!(ConfigChannel::deserialize_encoder("raw"), Ok(ProtobufEncoder::Raw));
}

#[test]
fn unknown_encoder_is_refused_with_its_name() {
    assert_eq!(
        ConfigChannel::deserialize_encoder("json"),
        Err("failed to decode encoder: json".to_owned())
    );
    assert_eq!(
        ConfigChannel::deserialize_encoder(""),
        Err("failed to decode encoder: ".to_owned())
    );
    assert_eq!(
        ConfigChannel::deserialize_encoder("Raw"),
        Err("failed to decode encoder: Raw".to_owned())
    );
}
