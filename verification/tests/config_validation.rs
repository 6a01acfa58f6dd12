use security_service::config::{
    AlertConfig, BlockchainNodeConfig, Config, FraudDetectionConfig, LogConfig, MetricsConfig,
    SeverityThresholds, SmartContractAuditConfig, ValidationError,
};
use security_service::retry::RetryConfig;

fn base_config() -> Config {
    Config {
        database_url: "postgresql://localhost:5432/security".into(),
        redis_url: "redis://localhost:6379".into(),
        blockchain_nodes: vec![BlockchainNodeConfig {
            url: "https://eth-mainnet.alchemyapi.io/v2/key".into(),
            chain_id: 1,
            retry_policy: RetryConfig {
                max_attempts: 3,
                base_delay_ms: 1000,
                max_delay_ms: 5000,
            },
            timeout_seconds: 30,
        }],
        fraud_detection: FraudDetectionConfig {
            model_path: "/models/fraud_detection".into(),
            detection_threshold_bp: 8500,
            batch_size: 100,
            update_interval_seconds: 3600,
        },
        smart_contract_audit: SmartContractAuditConfig {
            timeout_seconds: 300,
            max_concurrent_scans: 50,
            max_contract_size: 1_000_000,
            solidity_version_pattern: "^0.8.".into(),
        },
        alert_settings: AlertConfig {
            retention_days: 90,
            severity_thresholds: SeverityThresholds {
                high_bp: 9000,
                medium_bp: 7000,
                low_bp: 5000,
            },
            notification_channels: vec![],
        },
        logging: LogConfig {
            level: "info".into(),
            format: "json".into(),
            output_path: "/var/log/security-service".into(),
        },
        metrics: MetricsConfig {
            enabled: true,
            port: 9090,
            path: "/metrics".into(),
        },
    }
}

#[test]
fn test_config_validation() {
    let valid_config = base_config();
    assert!(valid_config.validate().is_ok());
}

#[test]
fn test_invalid_urls() {
    let mut config = base_config();
    config.database_url = "invalid-url".into();
    config.blockchain_nodes = vec![];
    config.logging.output_path = String::new();
    config.fraud_detection.model_path = String::new();

    assert!(matches!(
        config.validate(),
        Err(ValidationError::InvalidUrl(_))
    ));
}

#[test]
fn invalid_redis_url_is_rejected() {
    let mut config = base_config();
    config.redis_url = "not a url".into();
    assert!(matches!(config.validate(), Err(ValidationError::InvalidUrl(_))));
}

#[test]
fn invalid_node_url_is_rejected() {
    let mut config = base_config();
    config.blockchain_nodes[0].url = "::/bad".into();
    assert!(matches!(config.validate(), Err(ValidationError::InvalidUrl(_))));
}

#[test]
fn low_detection_threshold_is_rejected() {
    let mut config = base_config();
    config.fraud_detection.detection_threshold_bp = 4999;
    assert!(matches!(
        config.validate(),
        Err(ValidationError::InvalidThreshold(_))
    ));
    config.fraud_detection.detection_threshold_bp = 5000;
    assert!(config.validate().is_ok());
}

#[test]
fn oversized_contract_limit_is_rejected() {
    let mut config = base_config();
    config.smart_contract_audit.max_contract_size = 10_485_761;
    assert!(matches!(config.validate(), Err(ValidationError::InvalidValue(_))));
    config.smart_contract_audit.max_contract_size = 10_485_760;
    assert!(config.validate().is_ok());
}

#[test]
fn zero_retention_is_rejected() {
    let mut config = base_config();
    config.alert_settings.retention_days = 0;
    assert!(matches!(config.validate(), Err(ValidationError::InvalidValue(_))));
}
