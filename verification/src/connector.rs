//! The blockchain connectivity layer: which chains are supported, per-chain
//! connection state, rate limiting, and the health-check policy.
//!
//! The connector owns all connection state and decides; the embedding
//! program performs the network probes and reports their outcomes back.

use vstd::prelude::*;

use crate::config::Config;
use crate::retry::{RetryConfig, RetryDecision, RetryState};

verus! {

/// How security operations can fail.
#[derive(Debug, Clone)]
pub enum SecurityError {
    /// A node or network failure, surfaced once retries are exhausted.
    Provider(String),
    /// A malformed contract address, or no code deployed at it.
    ContractValidation(String),
    /// An internal failure of the security analysis.
    SecurityScan(String),
    /// The per-chain request window is saturated; the call failed fast.
    RateLimit,
    /// The chain id is outside the supported set; no network call was made.
    UnsupportedChain(u64),
    /// A liveness probe failed beyond the configured threshold.
    HealthCheck(String),
    /// Malformed or stale input, never retried.
    Validation(String),
}

/// The default cap on retry attempts.
pub const MAX_RETRIES: u32 = 3;

/// The default timeout for one RPC call, in seconds.
pub const RPC_TIMEOUT_SECONDS: u64 = 30;

/// The default number of requests allowed per rate-limit window.
pub const RATE_LIMIT_REQUESTS: u32 = 100;

/// The default length of the rate-limit window, in seconds.
pub const RATE_LIMIT_WINDOW_SECONDS: u64 = 60;

/// The default interval between liveness probes, in seconds.
pub const HEALTH_CHECK_INTERVAL_SECONDS: u64 = 300;

/// The default gas limit for outbound calls.
pub const DEFAULT_GAS_LIMIT: u64 = 2_000_000;

/// The most blocks one scan sweeps.
pub const MAX_BLOCK_SCAN: u64 = 1_000;

/// The statically supported chains: Ethereum mainnet, BNB Smart Chain and
/// Polygon.
pub open spec fn chain_supported(chain_id: u64) -> bool {
    chain_id == 1 || chain_id == 56 || chain_id == 137
}

/// Decides whether a chain id belongs to the supported set.
pub fn is_supported_chain(chain_id: u64) -> (r: bool)
    ensures
        r == chain_supported(chain_id),
{
    chain_id == 1 || chain_id == 56 || chain_id == 137
}

/// A per-chain rate limit: so many requests per sliding window.
#[derive(Clone, Copy, Debug, PartialEq, Eq, Structural)]
pub struct RateLimit {
    pub requests: u32,
    pub window_seconds: u64,
}

/// The liveness-probe policy of a connection.
#[derive(Clone, Copy, Debug, PartialEq, Eq, Structural)]
pub struct HealthCheckConfig {
    pub interval_seconds: u64,
    pub timeout_seconds: u64,
    pub required_peers: u32,
    pub failure_threshold: u32,
}

/// The static analysis policy applied to contract bytecode.
#[derive(Clone, Debug)]
pub struct SecurityRules {
    pub max_contract_size: usize,
    pub forbidden_opcodes: Vec<String>,
    pub risk_patterns: Vec<String>,
    pub minimum_security_score: u32,
}

/// Connectivity settings: endpoints, retry and rate-limit defaults, the
/// health-check policy and the analysis rules.
#[derive(Clone, Debug)]
pub struct BlockchainSettings {
    pub rpc_endpoints: Vec<(u64, Vec<String>)>,
    pub scan_interval: u64,
    pub max_retries: u32,
    pub timeout_seconds: u64,
    pub rate_limits: Vec<(u64, RateLimit)>,
    pub health_check_config: HealthCheckConfig,
    pub security_rules: SecurityRules,
}

impl BlockchainSettings {
    /// The default health-check policy.
    pub open spec fn default_health_check() -> HealthCheckConfig {
        HealthCheckConfig {
            interval_seconds: HEALTH_CHECK_INTERVAL_SECONDS,
            timeout_seconds: RPC_TIMEOUT_SECONDS,
            required_peers: 3,
            failure_threshold: 3,
        }
    }

    /// Builds settings with secure defaults; with a configuration, one
    /// endpoint entry is taken over per configured node.
    pub fn new(config: Option<&Config>) -> (r: BlockchainSettings)
        ensures
            r.scan_interval == 1000,
            r.max_retries == MAX_RETRIES,
            r.timeout_seconds == RPC_TIMEOUT_SECONDS,
            r.rate_limits@ =~= Seq::<(u64, RateLimit)>::empty(),
            r.health_check_config == Self::default_health_check(),
            r.security_rules.max_contract_size == 24576,
            r.security_rules.forbidden_opcodes@.len() == 2,
            r.security_rules.risk_patterns@.len() == 2,
            r.security_rules.minimum_security_score == 80,
            config is None ==> r.rpc_endpoints@ =~= Seq::<(u64, Vec<String>)>::empty(),
            config matches Some(cfg) ==> {
                &&& r.rpc_endpoints@.len() == cfg.blockchain_nodes@.len()
                &&& forall|i: int|
                    0 <= i < r.rpc_endpoints@.len() ==> ((#[trigger] r.rpc_endpoints@[i]).0
                        == cfg.blockchain_nodes@[i].chain_id && r.rpc_endpoints@[i].1@.len() == 1
                        && r.rpc_endpoints@[i].1@[0]@ == cfg.blockchain_nodes@[i].url@)
            },
    {
        let default_health_check = HealthCheckConfig {
            interval_seconds: HEALTH_CHECK_INTERVAL_SECONDS,
            timeout_seconds: RPC_TIMEOUT_SECONDS,
            required_peers: 3,
            failure_threshold: 3,
        };
        let mut forbidden_opcodes: Vec<String> = Vec::new();
        forbidden_opcodes.push("SELFDESTRUCT".to_owned());
        forbidden_opcodes.push("DELEGATECALL".to_owned());
        let mut risk_patterns: Vec<String> = Vec::new();
        risk_patterns.push("reentrancy".to_owned());
        risk_patterns.push("overflow".to_owned());
        let default_security_rules = SecurityRules {
            max_contract_size: 24576,
            forbidden_opcodes,
            risk_patterns,
            minimum_security_score: 80,
        };
        let mut rpc_endpoints: Vec<(u64, Vec<String>)> = Vec::new();
        if let Some(cfg) = config {
            let n = cfg.blockchain_nodes.len();
            let mut i: usize = 0;
            while i < n
                invariant
                    n == cfg.blockchain_nodes@.len(),
                    0 <= i <= n,
                    rpc_endpoints@.len() == i,
                    forall|j: int|
                        0 <= j < i ==> ((#[trigger] rpc_endpoints@[j]).0
                            == cfg.blockchain_nodes@[j].chain_id && rpc_endpoints@[j].1@.len() == 1
                            && rpc_endpoints@[j].1@[0]@ == cfg.blockchain_nodes@[j].url@),
                decreases n - i,
            {
                let mut urls: Vec<String> = Vec::new();
                urls.push(cfg.blockchain_nodes[i].url.clone());
                rpc_endpoints.push((cfg.blockchain_nodes[i].chain_id, urls));
                i += 1;
            }
        }
        BlockchainSettings {
            rpc_endpoints,
            scan_interval: 1000,
            max_retries: MAX_RETRIES,
            timeout_seconds: RPC_TIMEOUT_SECONDS,
            rate_limits: Vec::new(),
            health_check_config: default_health_check,
            security_rules: default_security_rules,
        }
    }

    /// Replaces the analysis rules, leaving everything else as it was.
    pub fn with_security_rules(self, rules: SecurityRules) -> (r: BlockchainSettings)
        ensures
            r.security_rules == rules,
            r.rpc_endpoints == self.rpc_endpoints,
            r.scan_interval == self.scan_interval,
            r.max_retries == self.max_retries,
            r.timeout_seconds == self.timeout_seconds,
            r.rate_limits == self.rate_limits,
            r.health_check_config == self.health_check_config,
    {
        BlockchainSettings { security_rules: rules, ..self }
    }
}

/// The state of one per-chain connection.
#[derive(Clone, Copy, Debug, PartialEq, Eq, Structural)]
pub enum ConnState {
    Disconnected,
    Connecting,
    Healthy,
    Degraded,
    Reconnecting,
    Closed,
}

/// What can happen to a connection.
#[derive(Clone, Copy, Debug, PartialEq, Eq, Structural)]
pub enum ConnEvent {
    ConnectRequested,
    ProbeSucceeded,
    ProbeFailed,
    ReconnectDue,
    ShutdownRequested,
}

/// The connection state machine:
/// `Disconnected -> Connecting -> Healthy <-> Degraded -> Reconnecting`,
/// with `Closed` terminal and reachable only through an explicit shutdown.
pub open spec fn conn_step(s: ConnState, e: ConnEvent) -> ConnState {
    match (s, e) {
        (_, ConnEvent::ShutdownRequested) => ConnState::Closed,
        (ConnState::Closed, _) => ConnState::Closed,
        (ConnState::Disconnected, ConnEvent::ConnectRequested) => ConnState::Connecting,
        (ConnState::Connecting, ConnEvent::ProbeSucceeded) => ConnState::Healthy,
        (ConnState::Connecting, ConnEvent::ProbeFailed) => ConnState::Disconnected,
        (ConnState::Healthy, ConnEvent::ProbeFailed) => ConnState::Degraded,
        (ConnState::Degraded, ConnEvent::ProbeSucceeded) => ConnState::Healthy,
        (ConnState::Degraded, ConnEvent::ReconnectDue) => ConnState::Reconnecting,
        (ConnState::Reconnecting, ConnEvent::ProbeSucceeded) => ConnState::Healthy,
        (ConnState::Reconnecting, ConnEvent::ProbeFailed) => ConnState::Degraded,
        (_, _) => s,
    }
}

/// Runs the connection state machine one step.
pub fn conn_step_exec(s: ConnState, e: ConnEvent) -> (r: ConnState)
    ensures
        r == conn_step(s, e),
{
    match (s, e) {
        (_, ConnEvent::ShutdownRequested) => ConnState::Closed,
        (ConnState::Closed, _) => ConnState::Closed,
        (ConnState::Disconnected, ConnEvent::ConnectRequested) => ConnState::Connecting,
        (ConnState::Connecting, ConnEvent::ProbeSucceeded) => ConnState::Healthy,
        (ConnState::Connecting, ConnEvent::ProbeFailed) => ConnState::Disconnected,
        (ConnState::Healthy, ConnEvent::ProbeFailed) => ConnState::Degraded,
        (ConnState::Degraded, ConnEvent::ProbeSucceeded) => ConnState::Healthy,
        (ConnState::Degraded, ConnEvent::ReconnectDue) => ConnState::Reconnecting,
        (ConnState::Reconnecting, ConnEvent::ProbeSucceeded) => ConnState::Healthy,
        (ConnState::Reconnecting, ConnEvent::ProbeFailed) => ConnState::Degraded,
        (_, _) => s,
    }
}

/// `Closed` is terminal: no event leads out of it, and only an explicit
/// shutdown leads into it.
pub proof fn lemma_closed_connection_terminal()
    ensures
        forall|e: ConnEvent| conn_step(ConnState::Closed, e) == ConnState::Closed,
        forall|s: ConnState, e: ConnEvent|
            conn_step(s, e) == ConnState::Closed ==> (s == ConnState::Closed || e
                == ConnEvent::ShutdownRequested),
{
}

/// Whether a request stamped `stamp` still counts against the window ending
/// at `now`.
pub open spec fn in_window(stamp: u64, now: u64, window_seconds: u64) -> bool {
    now < stamp + window_seconds
}

/// The stamps of a request log that still count against the window ending at
/// `now`, in their arrival order.
pub open spec fn recent_stamps(stamps: Seq<u64>, now: u64, window_seconds: u64) -> Seq<u64>
    decreases stamps.len(),
{
    if stamps.len() == 0 {
        Seq::empty()
    } else {
        let prefix = recent_stamps(stamps.drop_last(), now, window_seconds);
        if in_window(stamps.last(), now, window_seconds) {
            prefix.push(stamps.last())
        } else {
            prefix
        }
    }
}

/// A sliding-window rate limiter: so many requests per window, saturated
/// calls failing fast rather than queuing.
#[derive(Clone, Debug)]
pub struct RateLimiterState {
    pub limit: RateLimit,
    pub stamps: Vec<u64>,
}

impl RateLimiterState {
    /// A fresh limiter with no requests on record.
    pub fn new(limit: RateLimit) -> (r: RateLimiterState)
        ensures
            r.limit == limit,
            r.stamps@ =~= Seq::<u64>::empty(),
    {
        RateLimiterState { limit, stamps: Vec::new() }
    }

    /// Tries to admit one request at time `now`: admitted exactly when fewer
    /// than `requests` admitted stamps still fall inside the window. Stamps
    /// that have left the window are pruned either way.
    pub fn try_acquire(&mut self, now: u64) -> (r: bool)
        ensures
            final(self).limit == old(self).limit,
            r <==> recent_stamps(old(self).stamps@, now, old(self).limit.window_seconds).len()
                < old(self).limit.requests,
            r ==> final(self).stamps@ =~= recent_stamps(
                old(self).stamps@,
                now,
                old(self).limit.window_seconds,
            ).push(now),
            !r ==> final(self).stamps@ =~= recent_stamps(
                old(self).stamps@,
                now,
                old(self).limit.window_seconds,
            ),
    {
        let n = self.stamps.len();
        let mut kept: Vec<u64> = Vec::new();
        let mut i: usize = 0;
        while i < n
            invariant
                n == self.stamps@.len(),
                0 <= i <= n,
                kept@ =~= recent_stamps(self.stamps@.take(i as int), now, self.limit.window_seconds),
                kept@.len() <= i,
            decreases n - i,
        {
            let stamp = self.stamps[i];
            proof {
                assert(self.stamps@.take(i + 1).drop_last() =~= self.stamps@.take(i as int));
                assert(self.stamps@.take(i + 1).last() == self.stamps@[i as int]);
            }
            if (now as u128) < (stamp as u128) + (self.limit.window_seconds as u128) {
                kept.push(stamp);
            }
            i += 1;
        }
        proof {
            assert(self.stamps@.take(n as int) =~= self.stamps@);
        }
        let admitted = kept.len() < self.limit.requests as usize;
        if admitted {
            kept.push(now);
        }
        self.stamps = kept;
        admitted
    }
}


/// One managed connection to a chain.
#[derive(Clone, Debug)]
pub struct ChainConnection {
    pub chain_id: u64,
    pub endpoint: String,
    pub retry: RetryConfig,
    pub state: ConnState,
    pub retry_state: RetryState,
    pub limiter: RateLimiterState,
    pub probe_failures: u32,
    pub connection_attempts: u64,
    pub connection_successes: u64,
    pub network_calls: u64,
    /// The chain head height the last successful probe reported.
    pub latest_block: u64,
}

/// Whether some registered connection carries the chain id.
pub open spec fn has_chain(chains: Seq<ChainConnection>, chain_id: u64) -> bool {
    exists|i: int| 0 <= i < chains.len() && (#[trigger] chains[i]).chain_id == chain_id
}

/// A counter bumped by one, held at the top of its range rather than
/// wrapping.
fn bump(x: u64) -> (r: u64)
    ensures
        r as int == vstd::math::min(x + 1, u64::MAX as int),
{
    if x < u64::MAX {
        x + 1
    } else {
        x
    }
}

/// The connectivity layer: owns every per-chain connection, admits or
/// refuses outbound calls, and tracks liveness. The embedding program
/// executes the probes this type authorizes and reports their outcomes.
pub struct BlockchainConnector {
    chains: Vec<ChainConnection>,
    health: HealthCheckConfig,
}

impl View for BlockchainConnector {
    type V = Seq<ChainConnection>;

    closed spec fn view(&self) -> Seq<ChainConnection> {
        self.chains@
    }
}

impl BlockchainConnector {
    /// The health-check policy the connector was built with.
    pub closed spec fn health_spec(&self) -> HealthCheckConfig {
        self.health
    }

    /// The health-check policy, for observers.
    pub fn health(&self) -> (r: HealthCheckConfig)
        ensures
            r == self.health_spec(),
    {
        self.health
    }

    /// Chain ids are distinct, every connection's retry policy admits at
    /// least one attempt, and while a connect or reconnect is in flight its
    /// retry state still has attempts left.
    pub open spec fn wf(&self) -> bool {
        &&& forall|i: int, j: int|
            0 <= i < self@.len() && 0 <= j < self@.len() && i != j ==> (#[trigger] self@[i]).chain_id
                != (#[trigger] self@[j]).chain_id
        &&& forall|i: int|
            0 <= i < self@.len() ==> (#[trigger] self@[i]).retry.max_attempts > 0
        &&& forall|i: int|
            0 <= i < self@.len() ==> (#[trigger] self@[i]).retry_state.wf(self@[i].retry)
        &&& forall|i: int|
            0 <= i < self@.len() && ((#[trigger] self@[i]).state == ConnState::Connecting
                || self@[i].state == ConnState::Reconnecting) ==> self@[i].retry_state.failures
                < self@[i].retry.max_attempts
    }

    /// A connector with no chains registered.
    pub fn new(health: HealthCheckConfig) -> (r: BlockchainConnector)
        ensures
            r@ =~= Seq::<ChainConnection>::empty(),
            r.wf(),
            r.health_spec() == health,
    {
        BlockchainConnector { chains: Vec::new(), health }
    }

    /// The position of the chain's connection, if it is registered.
    pub fn find_chain(&self, chain_id: u64) -> (r: Option<usize>)
        ensures
            r matches Some(i) ==> i < self@.len() && self@[i as int].chain_id == chain_id,
            r is None ==> !has_chain(self@, chain_id),
    {
        let n = self.chains.len();
        let mut i: usize = 0;
        while i < n
            invariant
                n == self@.len(),
                0 <= i <= n,
                forall|j: int| 0 <= j < i ==> (#[trigger] self@[j]).chain_id != chain_id,
            decreases n - i,
        {
            if self.chains[i].chain_id == chain_id {
                return Some(i);
            }
            i += 1;
        }
        None
    }

    /// The connection of a chain, for observers.
    pub fn chain(&self, chain_id: u64) -> (r: Option<&ChainConnection>)
        ensures
            r matches Some(c) ==> has_chain(self@, chain_id) && exists|i: int|
                0 <= i < self@.len() && self@[i] == *c && (#[trigger] self@[i]).chain_id
                    == chain_id,
            r is None ==> !has_chain(self@, chain_id),
    {
        match self.find_chain(chain_id) {
            Some(i) => Some(&self.chains[i]),
            None => None,
        }
    }

    /// Registers a chain before any call is attempted: refused without any
    /// further effect for an unsupported chain id, a retry policy with no
    /// attempts, or a chain registered twice.
    pub fn register_chain(
        &mut self,
        chain_id: u64,
        endpoint: String,
        retry: RetryConfig,
        limit: RateLimit,
    ) -> (r: Result<usize, SecurityError>)
        requires
            old(self).wf(),
        ensures
            final(self).wf(),
            final(self).health_spec() == old(self).health_spec(),
            r is Ok <==> (chain_supported(chain_id) && retry.max_attempts > 0 && !has_chain(
                old(self)@,
                chain_id,
            )),
            r is Err ==> final(self)@ == old(self)@,
            !chain_supported(chain_id) ==> r == Err::<usize, SecurityError>(
                SecurityError::UnsupportedChain(chain_id),
            ),
            chain_supported(chain_id) && r is Err ==> (r matches Err(e) && e matches
                SecurityError::Validation(_)),
            r matches Ok(i) ==> {
                &&& i == old(self)@.len()
                &&& final(self)@.len() == old(self)@.len() + 1
                &&& final(self)@.drop_last() =~= old(self)@
                &&& final(self)@.last() == (ChainConnection {
                    chain_id,
                    endpoint,
                    retry,
                    state: ConnState::Disconnected,
                    retry_state: final(self)@.last().retry_state,
                    limiter: final(self)@.last().limiter,
                    probe_failures: 0,
                    connection_attempts: 0,
                    connection_successes: 0,
                    network_calls: 0,
                    latest_block: 0,
                })
                &&& final(self)@.last().retry_state.failures == 0
                &&& final(self)@.last().limiter.limit == limit
                &&& final(self)@.last().limiter.stamps@ =~= Seq::<u64>::empty()
            },
    {
        if !is_supported_chain(chain_id) {
            return Err(SecurityError::UnsupportedChain(chain_id));
        }
        if retry.max_attempts == 0 {
            return Err(SecurityError::Validation("retry policy admits no attempts".to_owned()));
        }
        if self.find_chain(chain_id).is_some() {
            return Err(SecurityError::Validation("chain already registered".to_owned()));
        }
        let i = self.chains.len();
        let conn = ChainConnection {
            chain_id,
            endpoint,
            retry,
            state: ConnState::Disconnected,
            retry_state: RetryState::start(&retry),
            limiter: RateLimiterState::new(limit),
            probe_failures: 0,
            connection_attempts: 0,
            connection_successes: 0,
            network_calls: 0,
            latest_block: 0,
        };
        self.chains.push(conn);
        Ok(i)
    }

    /// Begins connecting to a chain: refused with `UnsupportedChain`, and
    /// with the connector untouched, for a chain id outside the supported
    /// set - no network call is authorized. Otherwise the probe is
    /// rate-limited: a saturated window fails fast with `RateLimit`. An
    /// admitted probe moves the connection to `Connecting`, resets the retry
    /// state, and counts one attempt and one authorized network call.
    pub fn connect(&mut self, chain_id: u64, now: u64) -> (r: Result<(), SecurityError>)
        requires
            old(self).wf(),
        ensures
            final(self).wf(),
            final(self).health_spec() == old(self).health_spec(),
            !chain_supported(chain_id) ==> (r == Err::<(), SecurityError>(
                SecurityError::UnsupportedChain(chain_id),
            ) && *final(self) == *old(self)),
            (chain_supported(chain_id) && !has_chain(old(self)@, chain_id)) ==> (r matches Err(e)
                && e matches SecurityError::Validation(_) && final(self)@ == old(self)@),
            chain_supported(chain_id) ==> forall|i: int|
                0 <= i < old(self)@.len() && (#[trigger] old(self)@[i]).chain_id == chain_id ==> {
                    let oldc = old(self)@[i];
                    let admitted = recent_stamps(
                        oldc.limiter.stamps@,
                        now,
                        oldc.limiter.limit.window_seconds,
                    ).len() < oldc.limiter.limit.requests;
                    &&& final(self)@ =~= old(self)@.update(i, final(self)@[i])
                    &&& final(self)@[i].chain_id == oldc.chain_id
                    &&& final(self)@[i].endpoint == oldc.endpoint
                    &&& final(self)@[i].retry == oldc.retry
                    &&& final(self)@[i].limiter.limit == oldc.limiter.limit
                    &&& final(self)@[i].probe_failures == oldc.probe_failures
                    &&& final(self)@[i].connection_successes == oldc.connection_successes
                    &&& (oldc.state == ConnState::Closed ==> (r matches Err(e) && e matches
                        SecurityError::Validation(_) && final(self)@ == old(self)@))
                    &&& ((oldc.state != ConnState::Closed && !admitted) ==> {
                        &&& r == Err::<(), SecurityError>(SecurityError::RateLimit)
                        &&& final(self)@[i].state == oldc.state
                        &&& final(self)@[i].retry_state == oldc.retry_state
                        &&& final(self)@[i].connection_attempts == oldc.connection_attempts
                        &&& final(self)@[i].network_calls == oldc.network_calls
                        &&& final(self)@[i].limiter.stamps@ =~= recent_stamps(
                            oldc.limiter.stamps@,
                            now,
                            oldc.limiter.limit.window_seconds,
                        )
                    })
                    &&& ((oldc.state != ConnState::Closed && admitted) ==> {
                        &&& r == Ok::<(), SecurityError>(())
                        &&& final(self)@[i].state == ConnState::Connecting
                        &&& final(self)@[i].retry_state.failures == 0
                        &&& final(self)@[i].connection_attempts as int == vstd::math::min(
                            oldc.connection_attempts + 1,
                            u64::MAX as int,
                        )
                        &&& final(self)@[i].network_calls as int == vstd::math::min(
                            oldc.network_calls + 1,
                            u64::MAX as int,
                        )
                        &&& final(self)@[i].limiter.stamps@ =~= recent_stamps(
                            oldc.limiter.stamps@,
                            now,
                            oldc.limiter.limit.window_seconds,
                        ).push(now)
                    })
                },
    {
        if !is_supported_chain(chain_id) {
            return Err(SecurityError::UnsupportedChain(chain_id));
        }
        let idx = match self.find_chain(chain_id) {
            Some(i) => i,
            None => {
                return Err(SecurityError::Validation("chain not registered".to_owned()));
            },
        };
        let c = &mut self.chains[idx];
        if c.state == ConnState::Closed {
            return Err(SecurityError::Validation("connection is closed".to_owned()));
        }
        if !c.limiter.try_acquire(now) {
            return Err(SecurityError::RateLimit);
        }
        let retry = c.retry;
        c.state = ConnState::Connecting;
        c.retry_state = RetryState::start(&retry);
        c.connection_attempts = bump(c.connection_attempts);
        c.network_calls = bump(c.network_calls);
        Ok(())
    }

    /// Records a successful probe and the chain head height it reported:
    /// the connection becomes `Healthy`, probe failures reset, and a connect
    /// or reconnect that was in flight counts one success.
    pub fn probe_succeeded(&mut self, chain_id: u64, block_height: u64) -> (r: Result<
        (),
        SecurityError,
    >)
        requires
            old(self).wf(),
        ensures
            final(self).wf(),
            final(self).health_spec() == old(self).health_spec(),
            r is Ok <==> has_chain(old(self)@, chain_id),
            r is Err ==> (r matches Err(e) && e matches SecurityError::Validation(_) && final(self)@ == old(self)@),
            forall|i: int|
                0 <= i < old(self)@.len() && (#[trigger] old(self)@[i]).chain_id == chain_id ==> {
                    let oldc = old(self)@[i];
                    let was_connect = oldc.state == ConnState::Connecting || oldc.state
                        == ConnState::Reconnecting;
                    &&& final(self)@ =~= old(self)@.update(i, final(self)@[i])
                    &&& final(self)@[i].chain_id == oldc.chain_id
                    &&& final(self)@[i].endpoint == oldc.endpoint
                    &&& final(self)@[i].retry == oldc.retry
                    &&& final(self)@[i].limiter == oldc.limiter
                    &&& final(self)@[i].connection_attempts == oldc.connection_attempts
                    &&& final(self)@[i].network_calls == oldc.network_calls
                    &&& final(self)@[i].state == conn_step(oldc.state, ConnEvent::ProbeSucceeded)
                    &&& final(self)@[i].probe_failures == 0
                    &&& final(self)@[i].latest_block == block_height
                    &&& (was_connect ==> final(self)@[i].connection_successes as int
                        == vstd::math::min(oldc.connection_successes + 1, u64::MAX as int))
                    &&& (!was_connect ==> final(self)@[i].connection_successes
                        == oldc.connection_successes)
                },
    {
        let idx = match self.find_chain(chain_id) {
            Some(i) => i,
            None => {
                return Err(SecurityError::Validation("chain not registered".to_owned()));
            },
        };
        let c = &mut self.chains[idx];
        let was_connect = c.state == ConnState::Connecting || c.state == ConnState::Reconnecting;
        let retry = c.retry;
        c.state = conn_step_exec(c.state, ConnEvent::ProbeSucceeded);
        c.probe_failures = 0;
        c.latest_block = block_height;
        c.retry_state = RetryState::start(&retry);
        if was_connect {
            c.connection_successes = bump(c.connection_successes);
        }
        Ok(())
    }

    /// Records a failed probe of a connect or reconnect in flight. While the
    /// retry policy has attempts left the next attempt is rate-limited and,
    /// if admitted, authorized as one more network call, with the decision
    /// saying how long to sleep first; once attempts are exhausted the
    /// decision is to give up and the connection falls back. A saturated
    /// window fails fast with `RateLimit` and also gives up.
    pub fn probe_failed(&mut self, chain_id: u64, now: u64) -> (r: Result<
        RetryDecision,
        SecurityError,
    >)
        requires
            old(self).wf(),
        ensures
            final(self).wf(),
            final(self).health_spec() == old(self).health_spec(),
            !has_chain(old(self)@, chain_id) ==> (r matches Err(e) && e matches
                SecurityError::Validation(_) && final(self)@ == old(self)@),
            forall|i: int|
                0 <= i < old(self)@.len() && (#[trigger] old(self)@[i]).chain_id == chain_id ==> {
                    let oldc = old(self)@[i];
                    let in_flight = oldc.state == ConnState::Connecting || oldc.state
                        == ConnState::Reconnecting;
                    let gives_up = oldc.retry_state.failures + 1 >= oldc.retry.max_attempts;
                    let admitted = recent_stamps(
                        oldc.limiter.stamps@,
                        now,
                        oldc.limiter.limit.window_seconds,
                    ).len() < oldc.limiter.limit.requests;
                    &&& (!in_flight ==> (r matches Err(e) && e matches SecurityError::Validation(_)
                        && final(self)@ == old(self)@))
                    &&& in_flight ==> {
                        &&& final(self)@ =~= old(self)@.update(i, final(self)@[i])
                        &&& final(self)@[i].chain_id == oldc.chain_id
                        &&& final(self)@[i].endpoint == oldc.endpoint
                        &&& final(self)@[i].retry == oldc.retry
                        &&& final(self)@[i].limiter.limit == oldc.limiter.limit
                        &&& final(self)@[i].probe_failures == oldc.probe_failures
                        &&& final(self)@[i].connection_attempts == oldc.connection_attempts
                        &&& final(self)@[i].connection_successes == oldc.connection_successes
                        &&& final(self)@[i].retry_state.failures == oldc.retry_state.failures + 1
                        &&& (gives_up ==> {
                            &&& r == Ok::<RetryDecision, SecurityError>(RetryDecision::GiveUp)
                            &&& final(self)@[i].state == conn_step(
                                oldc.state,
                                ConnEvent::ProbeFailed,
                            )
                            &&& final(self)@[i].network_calls == oldc.network_calls
                            &&& final(self)@[i].limiter == oldc.limiter
                        })
                        &&& ((!gives_up && !admitted) ==> {
                            &&& r == Err::<RetryDecision, SecurityError>(SecurityError::RateLimit)
                            &&& final(self)@[i].state == conn_step(
                                oldc.state,
                                ConnEvent::ProbeFailed,
                            )
                            &&& final(self)@[i].network_calls == oldc.network_calls
                            &&& final(self)@[i].limiter.stamps@ =~= recent_stamps(
                                oldc.limiter.stamps@,
                                now,
                                oldc.limiter.limit.window_seconds,
                            )
                        })
                        &&& ((!gives_up && admitted) ==> {
                            &&& (r matches Ok(d) && d matches RetryDecision::RetryAfter(ms)
                                && ms as int == crate::retry::backoff_delay(
                                oldc.retry,
                                oldc.retry_state.failures as nat,
                            ))
                            &&& final(self)@[i].state == oldc.state
                            &&& final(self)@[i].network_calls as int == vstd::math::min(
                                oldc.network_calls + 1,
                                u64::MAX as int,
                            )
                            &&& final(self)@[i].limiter.stamps@ =~= recent_stamps(
                                oldc.limiter.stamps@,
                                now,
                                oldc.limiter.limit.window_seconds,
                            ).push(now)
                        })
                    }
                },
    {
        let idx = match self.find_chain(chain_id) {
            Some(i) => i,
            None => {
                return Err(SecurityError::Validation("chain not registered".to_owned()));
            },
        };
        let c = &mut self.chains[idx];
        if !(c.state == ConnState::Connecting || c.state == ConnState::Reconnecting) {
            return Err(SecurityError::Validation("no connect in flight".to_owned()));
        }
        let retry = c.retry;
        let decision = c.retry_state.on_failure(&retry);
        match decision {
            RetryDecision::GiveUp => {
                c.state = conn_step_exec(c.state, ConnEvent::ProbeFailed);
                Ok(RetryDecision::GiveUp)
            },
            RetryDecision::RetryAfter(ms) => {
                if !c.limiter.try_acquire(now) {
                    c.state = conn_step_exec(c.state, ConnEvent::ProbeFailed);
                    return Err(SecurityError::RateLimit);
                }
                c.network_calls = bump(c.network_calls);
                Ok(RetryDecision::RetryAfter(ms))
            },
        }
    }

    /// Records a failed liveness probe of an established connection: a
    /// healthy connection degrades, a degraded one stays degraded, and the
    /// result reports whether the failure streak has passed the policy's
    /// threshold and is to be surfaced to observers as a health-check
    /// failure. The connector keeps the connection either way.
    pub fn health_probe_failed(&mut self, chain_id: u64) -> (r: Result<bool, SecurityError>)
        requires
            old(self).wf(),
        ensures
            final(self).wf(),
            final(self).health_spec() == old(self).health_spec(),
            !has_chain(old(self)@, chain_id) ==> (r matches Err(e) && e matches
                SecurityError::Validation(_) && final(self)@ == old(self)@),
            forall|i: int|
                0 <= i < old(self)@.len() && (#[trigger] old(self)@[i]).chain_id == chain_id ==> {
                    let oldc = old(self)@[i];
                    let established = oldc.state == ConnState::Healthy || oldc.state
                        == ConnState::Degraded;
                    &&& (!established ==> (r matches Err(e) && e matches SecurityError::Validation(
                        _,
                    ) && final(self)@ == old(self)@))
                    &&& established ==> {
                        &&& final(self)@ =~= old(self)@.update(i, final(self)@[i])
                        &&& final(self)@[i] == (ChainConnection {
                            state: conn_step(oldc.state, ConnEvent::ProbeFailed),
                            probe_failures: final(self)@[i].probe_failures,
                            ..oldc
                        })
                        &&& final(self)@[i].probe_failures as int == vstd::math::min(
                            oldc.probe_failures + 1,
                            u32::MAX as int,
                        )
                        &&& r == Ok::<bool, SecurityError>(
                            final(self)@[i].probe_failures > old(self).health_spec().failure_threshold,
                        )
                    }
                },
    {
        let threshold = self.health.failure_threshold;
        let idx = match self.find_chain(chain_id) {
            Some(i) => i,
            None => {
                return Err(SecurityError::Validation("chain not registered".to_owned()));
            },
        };
        let c = &mut self.chains[idx];
        if !(c.state == ConnState::Healthy || c.state == ConnState::Degraded) {
            return Err(SecurityError::Validation("connection not established".to_owned()));
        }
        c.state = conn_step_exec(c.state, ConnEvent::ProbeFailed);
        c.probe_failures = if c.probe_failures < u32::MAX {
            c.probe_failures + 1
        } else {
            c.probe_failures
        };
        Ok(c.probe_failures > threshold)
    }

    /// Schedules the reconnect of a degraded connection: the next probe is
    /// rate-limited and, if admitted, authorized as one more network call,
    /// with the connection moving to `Reconnecting` on a fresh retry state.
    pub fn begin_reconnect(&mut self, chain_id: u64, now: u64) -> (r: Result<(), SecurityError>)
        requires
            old(self).wf(),
        ensures
            final(self).wf(),
            final(self).health_spec() == old(self).health_spec(),
            !has_chain(old(self)@, chain_id) ==> (r matches Err(e) && e matches
                SecurityError::Validation(_) && final(self)@ == old(self)@),
            forall|i: int|
                0 <= i < old(self)@.len() && (#[trigger] old(self)@[i]).chain_id == chain_id ==> {
                    let oldc = old(self)@[i];
                    let admitted = recent_stamps(
                        oldc.limiter.stamps@,
                        now,
                        oldc.limiter.limit.window_seconds,
                    ).len() < oldc.limiter.limit.requests;
                    &&& (oldc.state != ConnState::Degraded ==> (r matches Err(e) && e matches
                        SecurityError::Validation(_) && final(self)@ == old(self)@))
                    &&& oldc.state == ConnState::Degraded ==> {
                        &&& final(self)@ =~= old(self)@.update(i, final(self)@[i])
                        &&& final(self)@[i].chain_id == oldc.chain_id
                        &&& final(self)@[i].endpoint == oldc.endpoint
                        &&& final(self)@[i].retry == oldc.retry
                        &&& final(self)@[i].limiter.limit == oldc.limiter.limit
                        &&& final(self)@[i].probe_failures == oldc.probe_failures
                        &&& final(self)@[i].connection_successes == oldc.connection_successes
                        &&& (!admitted ==> {
                            &&& r == Err::<(), SecurityError>(SecurityError::RateLimit)
                            &&& final(self)@[i].state == oldc.state
                            &&& final(self)@[i].retry_state == oldc.retry_state
                            &&& final(self)@[i].connection_attempts == oldc.connection_attempts
                            &&& final(self)@[i].network_calls == oldc.network_calls
                            &&& final(self)@[i].limiter.stamps@ =~= recent_stamps(
                                oldc.limiter.stamps@,
                                now,
                                oldc.limiter.limit.window_seconds,
                            )
                        })
                        &&& (admitted ==> {
                            &&& r == Ok::<(), SecurityError>(())
                            &&& final(self)@[i].state == ConnState::Reconnecting
                            &&& final(self)@[i].retry_state.failures == 0
                            &&& final(self)@[i].connection_attempts as int == vstd::math::min(
                                oldc.connection_attempts + 1,
                                u64::MAX as int,
                            )
                            &&& final(self)@[i].network_calls as int == vstd::math::min(
                                oldc.network_calls + 1,
                                u64::MAX as int,
                            )
                            &&& final(self)@[i].limiter.stamps@ =~= recent_stamps(
                                oldc.limiter.stamps@,
                                now,
                                oldc.limiter.limit.window_seconds,
                            ).push(now)
                        })
                    }
                },
    {
        let idx = match self.find_chain(chain_id) {
            Some(i) => i,
            None => {
                return Err(SecurityError::Validation("chain not registered".to_owned()));
            },
        };
        let c = &mut self.chains[idx];
        if c.state != ConnState::Degraded {
            return Err(SecurityError::Validation("connection not degraded".to_owned()));
        }
        if !c.limiter.try_acquire(now) {
            return Err(SecurityError::RateLimit);
        }
        let retry = c.retry;
        c.state = ConnState::Reconnecting;
        c.retry_state = RetryState::start(&retry);
        c.connection_attempts = bump(c.connection_attempts);
        c.network_calls = bump(c.network_calls);
        Ok(())
    }

    /// Shuts a connection down: `Closed`, terminally.
    pub fn shutdown(&mut self, chain_id: u64) -> (r: Result<(), SecurityError>)
        requires
            old(self).wf(),
        ensures
            final(self).wf(),
            final(self).health_spec() == old(self).health_spec(),
            r is Ok <==> has_chain(old(self)@, chain_id),
            r is Err ==> (r matches Err(e) && e matches SecurityError::Validation(_) && final(self)@ == old(self)@),
            forall|i: int|
                0 <= i < old(self)@.len() && (#[trigger] old(self)@[i]).chain_id == chain_id ==> {
                    &&& final(self)@ =~= old(self)@.update(i, final(self)@[i])
                    &&& final(self)@[i] == (ChainConnection {
                        state: ConnState::Closed,
                        ..old(self)@[i]
                    })
                },
    {
        let idx = match self.find_chain(chain_id) {
            Some(i) => i,
            None => {
                return Err(SecurityError::Validation("chain not registered".to_owned()));
            },
        };
        let c = &mut self.chains[idx];
        c.state = ConnState::Closed;
        Ok(())
    }
}

} // verus!