use vstd::prelude::*;

use crate::dispatcher::{Dispatcher, DispatcherView};
use crate::health::{GateState, GateView, HealthGate};
use crate::worker::{PhaseView, Worker, WorkerView};

verus! {

/// The smallest batch a receive may ask for.
pub const MIN_BATCH: usize = 1;

/// The largest batch a receive may ask for.
pub const MAX_BATCH: usize = 10;

/// Why a configuration was refused.
#[derive(Clone, Copy, Debug, PartialEq, Eq, Structural)]
pub enum ConfigError {
    /// A custom queue endpoint is set without both an access key and a secret key.
    EndpointWithoutCredentials,
    /// The batch size per receive lies outside `[MIN_BATCH, MAX_BATCH]`.
    BatchSizeOutOfRange,
    /// The worker pool is empty.
    NoWorkers,
}

impl ConfigError {
    /// A line for the operator that names the offending option.
    pub fn describe(&self) -> (r: &'static str)
        ensures
            *self == ConfigError::EndpointWithoutCredentials ==> r@
                == "If `--aws-endpoint` is set, `--aws-access-key-id` and `--aws-secret-access-key` should be set."@,
            *self == ConfigError::BatchSizeOutOfRange ==> r@
                == "`--max-number-of-messages` should be between 1 and 10."@,
            *self == ConfigError::NoWorkers ==> r@ == "`--num-workers` should be at least 1."@,
    {
        match self {
            ConfigError::EndpointWithoutCredentials => "If `--aws-endpoint` is set, `--aws-access-key-id` and `--aws-secret-access-key` should be set.",
            ConfigError::BatchSizeOutOfRange => "`--max-number-of-messages` should be between 1 and 10.",
            ConfigError::NoWorkers => "`--num-workers` should be at least 1.",
        }
    }
}

/// The daemon's settings, read once at startup and not changed afterwards.
#[derive(Clone, Debug, PartialEq, Eq)]
pub struct Config {
    pub aws_access_key_id: Option<String>,
    pub aws_secret_access_key: Option<String>,
    pub aws_session_token: Option<String>,
    pub aws_region: Option<String>,
    /// A custom endpoint for the queue service, such as a local emulator.
    pub aws_endpoint: Option<String>,
    /// The input queue.
    pub sqs_url: String,
    /// Where each message body is POSTed.
    pub api_url: String,
    /// A second queue that receives the response bodies, when set.
    pub output_sqs_url: Option<String>,
    /// The size of the worker pool, and the capacity of the dispatch channel.
    pub num_workers: usize,
    /// The timeout of each POST, in milliseconds.
    pub api_timeout_msec: u64,
    /// The batch size asked of each receive.
    pub max_number_of_messages: usize,
    /// The sleep after an idle or failed receive, in milliseconds.
    pub sleep_msec: u64,
    /// The readiness URL; when absent the workers start at once.
    pub api_health_url: Option<String>,
    /// The sleep between two failed readiness checks, in seconds.
    pub api_health_interval_seconds: u64,
    /// The Content-Type of each POST.
    pub content_type: String,
    /// The log filter directive.
    pub rust_log: String,
}

/// A custom endpoint is set while the access key or the secret key is missing.
pub open spec fn endpoint_without_credentials(c: Config) -> bool {
    c.aws_endpoint is Some && (c.aws_access_key_id is None || c.aws_secret_access_key is None)
}

/// The batch size lies in the range that the queue accepts.
pub open spec fn batch_size_valid(n: usize) -> bool {
    MIN_BATCH <= n <= MAX_BATCH
}

impl Config {
    /// The settings for an input queue and an endpoint, every other option at
    /// its default: one worker, a POST timeout of 30 s, batches of one, an idle
    /// sleep of 1 s, no output queue, no readiness check (1 s apart when one is
    /// set), `application/json` bodies and the `WARN` log level.
    pub fn new(sqs_url: String, api_url: String) -> (c: Config)
        ensures
            c.sqs_url@ == sqs_url@,
            c.api_url@ == api_url@,
            c.aws_access_key_id is None,
            c.aws_secret_access_key is None,
            c.aws_session_token is None,
            c.aws_region is None,
            c.aws_endpoint is None,
            c.output_sqs_url is None,
            c.num_workers == 1,
            c.api_timeout_msec == 30000,
            c.max_number_of_messages == 1,
            c.sleep_msec == 1000,
            c.api_health_url is None,
            c.api_health_interval_seconds == 1,
            c.content_type@ == "application/json"@,
            c.rust_log@ == "WARN"@,
    {
        Config {
            aws_access_key_id: None,
            aws_secret_access_key: None,
            aws_session_token: None,
            aws_region: None,
            aws_endpoint: None,
            sqs_url,
            api_url,
            output_sqs_url: None,
            num_workers: 1,
            api_timeout_msec: 30000,
            max_number_of_messages: 1,
            sleep_msec: 1000,
            api_health_url: None,
            api_health_interval_seconds: 1,
            content_type: String::from_str("application/json"),
            rust_log: String::from_str("WARN"),
        }
    }

    /// Checks the settings: a custom endpoint needs both keys, the batch size
    /// must lie in `[MIN_BATCH, MAX_BATCH]`, and there must be a worker. The
    /// checks are made in that order.
    pub fn validate(&self) -> (r: Result<(), ConfigError>)
        ensures
            r is Ok <==> !endpoint_without_credentials(*self) && batch_size_valid(
                self.max_number_of_messages,
            ) && self.num_workers >= 1,
            endpoint_without_credentials(*self) ==> r == Err::<(), _>(
                ConfigError::EndpointWithoutCredentials,
            ),
            !endpoint_without_credentials(*self) && !batch_size_valid(self.max_number_of_messages)
                ==> r == Err::<(), _>(ConfigError::BatchSizeOutOfRange),
            !endpoint_without_credentials(*self) && batch_size_valid(self.max_number_of_messages)
                && self.num_workers == 0 ==> r == Err::<(), _>(ConfigError::NoWorkers),
    {
        if self.aws_endpoint.is_some() && (self.aws_access_key_id.is_none()
            || self.aws_secret_access_key.is_none()) {
            return Err(ConfigError::EndpointWithoutCredentials);
        }
        if self.max_number_of_messages < MIN_BATCH || self.max_number_of_messages > MAX_BATCH {
            return Err(ConfigError::BatchSizeOutOfRange);
        }
        if self.num_workers == 0 {
            return Err(ConfigError::NoWorkers);
        }
        Ok(())
    }

    /// The dispatcher these settings call for: one slot per worker, the
    /// configured batch size and idle sleep.
    pub fn dispatcher(&self) -> (d: Dispatcher)
        ensures
            d@ == (DispatcherView {
                capacity: self.num_workers as nat,
                batch_limit: self.max_number_of_messages as nat,
                sleep_msec: self.sleep_msec,
                outstanding: 0,
                backlog: Seq::empty(),
                stopped: false,
            }),
    {
        Dispatcher::new(self.num_workers, self.max_number_of_messages, self.sleep_msec)
    }

    /// An idle worker that forwards responses exactly when an output queue is set.
    pub fn worker(&self) -> (w: Worker)
        ensures
            w@ == (WorkerView {
                forward: self.output_sqs_url is Some,
                stopping: false,
                phase: PhaseView::Idle,
            }),
    {
        Worker::new(self.output_sqs_url.is_some())
    }

    /// The readiness gate, present exactly when a readiness URL is set.
    pub fn health_gate(&self) -> (g: Option<HealthGate>)
        ensures
            g is Some <==> self.api_health_url is Some,
            g matches Some(gate) ==> gate@ == (GateView {
                interval_seconds: self.api_health_interval_seconds,
                state: GateState::Checking,
            }),
    {
        if self.api_health_url.is_some() {
            Some(HealthGate::new(self.api_health_interval_seconds))
        } else {
            None
        }
    }
}

} // verus!
