//! The service configuration: loaded and deserialized at startup by the
//! embedding program, then validated here before any component is built.
//!
//! Ratio-valued settings (detection thresholds) are held in basis points:
//! ten thousand basis points are the ratio one.

use vstd::prelude::*;

use crate::retry::RetryConfig;

verus! {

/// The default fraud-detection threshold, in basis points.
pub const DEFAULT_FRAUD_DETECTION_THRESHOLD_BP: u32 = 8500;

/// The lowest fraud-detection threshold a configuration may set, in basis
/// points.
pub const MIN_DETECTION_THRESHOLD_BP: u32 = 5000;

/// The largest contract-size limit a configuration may set, in bytes.
pub const MAX_CONTRACT_SIZE_BYTES: usize = 10_485_760;

/// The default audit timeout, in seconds.
pub const DEFAULT_AUDIT_TIMEOUT_SECONDS: u32 = 300;

/// The default cap on concurrently running contract scans.
pub const DEFAULT_MAX_CONCURRENT_SCANS: u32 = 50;

/// The default alert retention, in days.
pub const DEFAULT_ALERT_RETENTION_DAYS: u32 = 90;

/// One blockchain node endpoint with its policies.
#[derive(Clone, Debug)]
pub struct BlockchainNodeConfig {
    pub url: String,
    pub chain_id: u64,
    pub retry_policy: RetryConfig,
    pub timeout_seconds: u32,
}

/// Fraud-detection engine settings.
#[derive(Clone, Debug)]
pub struct FraudDetectionConfig {
    pub model_path: String,
    pub detection_threshold_bp: u32,
    pub batch_size: usize,
    pub update_interval_seconds: u32,
}

/// Contract-audit engine settings.
#[derive(Clone, Debug)]
pub struct SmartContractAuditConfig {
    pub timeout_seconds: u32,
    pub max_concurrent_scans: u32,
    pub max_contract_size: usize,
    pub solidity_version_pattern: String,
}

/// Risk-score thresholds that map a score to an alert severity, in basis
/// points.
#[derive(Clone, Copy, Debug, PartialEq, Eq, Structural)]
pub struct SeverityThresholds {
    pub high_bp: u32,
    pub medium_bp: u32,
    pub low_bp: u32,
}

/// One notification channel for raised alerts.
#[derive(Clone, Debug)]
pub struct NotificationChannel {
    pub channel_type: String,
    pub endpoint: String,
    pub min_severity: String,
}

/// Alert handling settings.
#[derive(Clone, Debug)]
pub struct AlertConfig {
    pub retention_days: u32,
    pub severity_thresholds: SeverityThresholds,
    pub notification_channels: Vec<NotificationChannel>,
}

/// Logging settings, consumed by the embedding program.
#[derive(Clone, Debug)]
pub struct LogConfig {
    pub level: String,
    pub format: String,
    pub output_path: String,
}

/// Metrics-exporter settings, consumed by the embedding program.
#[derive(Clone, Debug)]
pub struct MetricsConfig {
    pub enabled: bool,
    pub port: u16,
    pub path: String,
}

/// How configuration validation can fail.
#[derive(Debug, Clone)]
pub enum ValidationError {
    InvalidUrl(String),
    InvalidThreshold(String),
    InvalidPath(String),
    InvalidValue(String),
}

/// The whole service configuration, immutable once validated.
#[derive(Clone, Debug)]
pub struct Config {
    pub database_url: String,
    pub redis_url: String,
    pub blockchain_nodes: Vec<BlockchainNodeConfig>,
    pub fraud_detection: FraudDetectionConfig,
    pub smart_contract_audit: SmartContractAuditConfig,
    pub alert_settings: AlertConfig,
    pub logging: LogConfig,
    pub metrics: MetricsConfig,
}

/// What `url::Url::parse` accepts: whether a string parses as an absolute
/// URL is a function of the string alone.
pub uninterp spec fn url_parses(s: Seq<char>) -> bool;

/// Relies on `url::Url::parse`: reports whether the string parses as an
/// absolute URL.
#[verifier::external_body]
pub fn parse_url_ok(s: &str) -> (r: bool)
    ensures
        r == url_parses(s@),
{
    url::Url::parse(s).is_ok()
}

/// Whether every configured node endpoint parses as a URL.
pub open spec fn all_node_urls_parse(nodes: Seq<BlockchainNodeConfig>) -> bool {
    forall|i: int| 0 <= i < nodes.len() ==> url_parses((#[trigger] nodes[i]).url@)
}

impl Config {
    /// What a valid configuration is: every URL parses, the detection
    /// threshold is not below the minimum, the contract-size limit is not
    /// above the maximum, and retention is nonzero.
    pub open spec fn valid(self) -> bool {
        &&& url_parses(self.database_url@)
        &&& url_parses(self.redis_url@)
        &&& all_node_urls_parse(self.blockchain_nodes@)
        &&& self.fraud_detection.detection_threshold_bp >= MIN_DETECTION_THRESHOLD_BP
        &&& self.smart_contract_audit.max_contract_size <= MAX_CONTRACT_SIZE_BYTES
        &&& self.alert_settings.retention_days > 0
    }

    /// Validates the configuration: succeeds exactly on valid configurations,
    /// and classifies the first failing check.
    pub fn validate(&self) -> (r: Result<(), ValidationError>)
        ensures
            r is Ok <==> self.valid(),
            !url_parses(self.database_url@) ==> r matches Err(ValidationError::InvalidUrl(_)),
            url_parses(self.database_url@) && !url_parses(self.redis_url@) ==> r matches Err(
                ValidationError::InvalidUrl(_),
            ),
            url_parses(self.database_url@) && url_parses(self.redis_url@) && !all_node_urls_parse(
                self.blockchain_nodes@,
            ) ==> r matches Err(ValidationError::InvalidUrl(_)),
            url_parses(self.database_url@) && url_parses(self.redis_url@) && all_node_urls_parse(
                self.blockchain_nodes@,
            ) && self.fraud_detection.detection_threshold_bp < MIN_DETECTION_THRESHOLD_BP ==> r
                matches Err(ValidationError::InvalidThreshold(_)),
            url_parses(self.database_url@) && url_parses(self.redis_url@) && all_node_urls_parse(
                self.blockchain_nodes@,
            ) && self.fraud_detection.detection_threshold_bp >= MIN_DETECTION_THRESHOLD_BP
                && self.smart_contract_audit.max_contract_size > MAX_CONTRACT_SIZE_BYTES ==> r
                matches Err(ValidationError::InvalidValue(_)),
            url_parses(self.database_url@) && url_parses(self.redis_url@) && all_node_urls_parse(
                self.blockchain_nodes@,
            ) && self.fraud_detection.detection_threshold_bp >= MIN_DETECTION_THRESHOLD_BP
                && self.smart_contract_audit.max_contract_size <= MAX_CONTRACT_SIZE_BYTES
                && self.alert_settings.retention_days == 0 ==> r matches Err(
                ValidationError::InvalidValue(_),
            ),
    {
        if !parse_url_ok(self.database_url.as_str()) {
            return Err(ValidationError::InvalidUrl("database_url".to_owned()));
        }
        if !parse_url_ok(self.redis_url.as_str()) {
            return Err(ValidationError::InvalidUrl("redis_url".to_owned()));
        }
        let n = self.blockchain_nodes.len();
        let mut i: usize = 0;
        while i < n
            invariant
                n == self.blockchain_nodes@.len(),
                0 <= i <= n,
                forall|j: int|
                    0 <= j < i ==> url_parses((#[trigger] self.blockchain_nodes@[j]).url@),
            decreases n - i,
        {
            if !parse_url_ok(self.blockchain_nodes[i].url.as_str()) {
                return Err(ValidationError::InvalidUrl("blockchain_node_url".to_owned()));
            }
            i += 1;
        }
        if self.fraud_detection.detection_threshold_bp < MIN_DETECTION_THRESHOLD_BP {
            return Err(ValidationError::InvalidThreshold("detection_threshold".to_owned()));
        }
        if self.smart_contract_audit.max_contract_size > MAX_CONTRACT_SIZE_BYTES {
            return Err(ValidationError::InvalidValue("max_contract_size".to_owned()));
        }
        if self.alert_settings.retention_days == 0 {
            return Err(ValidationError::InvalidValue("retention_days".to_owned()));
        }
        Ok(())
    }
}

} // verus!
