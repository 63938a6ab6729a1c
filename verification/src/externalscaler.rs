//! The external-scaler protocol: request and response shapes, metadata
//! validation, and the four operations. Each operation is a pure function of
//! the request and, where one is needed, of a freshly fetched snapshot; the
//! transport layer fetches the snapshot and moves the values.

use crate::agent_api::Metrics;
use crate::parse::{integer_literal_value, is_integer_literal, parse_i64};
use vstd::prelude::*;
use vstd::string::{StrSliceExecFns, StringExecFns};

verus! {

/// Threshold used when the caller names none.
pub const DEFAULT_TARGET_WAITING_JOBS: i64 = 1;

/// Why a call failed: bad caller input, a fixed capability refusal, or a
/// failed upstream fetch. The transport layer maps each variant onto the
/// protocol's error shape.
#[derive(Debug)]
pub enum ScalerError {
    /// The metadata has no `queue` key.
    QueueNotSpecified,
    /// The metadata's `targetWaitingJobs` value is not an integer.
    TargetNotANumber,
    /// A metrics request arrived without a scaled object reference.
    MissingScaledObjectRef,
    /// The streaming operation is never supported: this scaler is pull only.
    PullOnly,
    /// Fetching or parsing the upstream snapshot failed; carries the cause.
    Upstream(String),
}

impl ScalerError {
    /// The human-readable message the protocol error carries.
    pub open spec fn spec_message(self) -> Seq<char> {
        match self {
            ScalerError::QueueNotSpecified => "queue not specified"@,
            ScalerError::TargetNotANumber => "targetWaitingJobs is not a number"@,
            ScalerError::MissingScaledObjectRef => "missing scaled object ref"@,
            ScalerError::PullOnly => "scaler is pull only"@,
            ScalerError::Upstream(cause) => "error: "@ + cause@,
        }
    }

    /// Render the message for the transport layer.
    pub fn message(&self) -> (r: String)
        ensures
            r@ == self.spec_message(),
    {
        match self {
            ScalerError::QueueNotSpecified => String::from_str("queue not specified"),
            ScalerError::TargetNotANumber => String::from_str("targetWaitingJobs is not a number"),
            ScalerError::MissingScaledObjectRef => String::from_str("missing scaled object ref"),
            ScalerError::PullOnly => String::from_str("scaler is pull only"),
            ScalerError::Upstream(cause) => {
                let mut m = String::from_str("error: ");
                m.append(cause.as_str());
                m
            },
        }
    }
}

/// The workload a caller asks about: its identity plus the untyped
/// string-to-string metadata that carries the two logical parameters.
#[derive(Debug)]
pub struct ScaledObjectRef {
    pub name: String,
    pub namespace: String,
    pub scaler_metadata: Vec<(String, String)>,
}

/// Answer to the activity question.
#[derive(Debug)]
pub struct IsActiveResponse {
    pub result: bool,
}

/// One scaling target: a metric name and the size aimed for.
#[derive(Debug)]
pub struct MetricSpec {
    pub metric_name: String,
    pub target_size: i64,
}

/// Answer to the metric-spec question; always a single spec.
#[derive(Debug)]
pub struct GetMetricSpecResponse {
    pub metric_specs: Vec<MetricSpec>,
}

/// A metrics request: the workload reference is required.
#[derive(Debug)]
pub struct GetMetricsRequest {
    pub scaled_object_ref: Option<ScaledObjectRef>,
    pub metric_name: String,
}

/// One observed metric: its name and current value.
#[derive(Debug)]
pub struct MetricValue {
    pub metric_name: String,
    pub metric_value: i64,
}

/// Answer to the metrics question; always a single value.
#[derive(Debug)]
pub struct GetMetricsResponse {
    pub metric_values: Vec<MetricValue>,
}

/// First metadata entry keyed `key`, searching from index `i`.
pub open spec fn md_lookup_from(md: Seq<(String, String)>, key: Seq<char>, i: int) -> Option<
    Seq<char>,
>
    decreases md.len() - i,
{
    if i < 0 || i >= md.len() {
        None
    } else if md[i].0@ == key {
        Some(md[i].1@)
    } else {
        md_lookup_from(md, key, i + 1)
    }
}

/// The metadata value at `key`, if any.
pub open spec fn md_lookup(md: Seq<(String, String)>, key: Seq<char>) -> Option<Seq<char>> {
    md_lookup_from(md, key, 0)
}

/// The queue name the metadata carries, if any.
pub open spec fn spec_queue(md: Seq<(String, String)>) -> Option<Seq<char>> {
    md_lookup(md, "queue"@)
}

/// Whether the metadata's threshold is usable: absent, or an integer that
/// fits an `i64`.
pub open spec fn target_ok(md: Seq<(String, String)>) -> bool {
    match md_lookup(md, "targetWaitingJobs"@) {
        None => true,
        Some(v) => is_integer_literal(v) && i64::MIN <= integer_literal_value(v) <= i64::MAX,
    }
}

/// The activity threshold the metadata asks for: its `targetWaitingJobs`
/// value, or the default of 1 when absent.
pub open spec fn spec_target(md: Seq<(String, String)>) -> int {
    match md_lookup(md, "targetWaitingJobs"@) {
        None => DEFAULT_TARGET_WAITING_JOBS as int,
        Some(v) => integer_literal_value(v),
    }
}

/// The metric name derived from a queue name.
pub open spec fn spec_metric_name(queue: Seq<char>) -> Seq<char> {
    "buildkite-"@ + queue
}

/// Which validation error a metadata map earns: a missing queue is reported
/// before a bad threshold, and valid metadata earns none.
pub open spec fn validation_error(md: Seq<(String, String)>, e: ScalerError) -> bool {
    if spec_queue(md) is None {
        e == ScalerError::QueueNotSpecified
    } else if !target_ok(md) {
        e == ScalerError::TargetNotANumber
    } else {
        false
    }
}

fn md_get<'a>(md: &'a Vec<(String, String)>, key: &str) -> (r: Option<&'a String>)
    ensures
        match r {
            Some(v) => md_lookup(md@, key@) == Some(v@),
            None => md_lookup(md@, key@) is None,
        },
{
    let wanted: String = key.to_owned();
    let n = md.len();
    let mut i: usize = 0;
    while i < n
        invariant
            i <= n,
            n == md@.len(),
            wanted@ == key@,
            md_lookup(md@, key@) == md_lookup_from(md@, key@, i as int),
        decreases n - i,
    {
        if md[i].0 == wanted {
            return Some(&md[i].1);
        }
        i = i + 1;
    }
    None
}

impl ScaledObjectRef {
    /// The metadata's `queue` value. A queue name is always mandatory:
    /// absence is a validation error, never a default.
    pub fn require_queue(&self) -> (r: Result<String, ScalerError>)
        ensures
            match r {
                Ok(q) => spec_queue(self.scaler_metadata@) == Some(q@),
                Err(e) => spec_queue(self.scaler_metadata@) is None && e
                    == ScalerError::QueueNotSpecified,
            },
    {
        match md_get(&self.scaler_metadata, "queue") {
            Some(v) => Ok(v.clone()),
            None => Err(ScalerError::QueueNotSpecified),
        }
    }

    /// The metadata's `targetWaitingJobs` value parsed as an integer;
    /// defaults to 1 when the key is absent, and fails when the value is
    /// present but not a number.
    pub fn target_waiting_jobs(&self) -> (r: Result<i64, ScalerError>)
        ensures
            match r {
                Ok(t) => target_ok(self.scaler_metadata@) && t == spec_target(
                    self.scaler_metadata@,
                ),
                Err(e) => !target_ok(self.scaler_metadata@) && e == ScalerError::TargetNotANumber,
            },
    {
        match md_get(&self.scaler_metadata, "targetWaitingJobs") {
            None => Ok(DEFAULT_TARGET_WAITING_JOBS),
            Some(v) => match parse_i64(v.as_str()) {
                Some(t) => Ok(t),
                None => Err(ScalerError::TargetNotANumber),
            },
        }
    }
}

/// When `targetWaitingJobs` is absent from the metadata, the threshold is
/// the default of 1, whatever else the metadata holds.
pub proof fn lemma_default_target(md: Seq<(String, String)>)
    requires
        md_lookup(md, "targetWaitingJobs"@) is None,
    ensures
        target_ok(md),
        spec_target(md) == 1,
{
}

/// The metric name for a queue: the fixed prefix `buildkite-` followed by
/// the queue name.
pub fn metric_name(queue: &str) -> (r: String)
    ensures
        r@ == spec_metric_name(queue@),
{
    let mut r = String::from_str("buildkite-");
    r.append(queue);
    r
}

/// Should the workload be active? Yes exactly when the queue's runnable
/// count in the snapshot fetched for this call has reached the caller's
/// threshold.
pub fn is_active(request: &ScaledObjectRef, metrics: &Metrics) -> (r: Result<
    IsActiveResponse,
    ScalerError,
>)
    requires
        metrics.wf(),
    ensures
        r is Ok <==> spec_queue(request.scaler_metadata@) is Some && target_ok(
            request.scaler_metadata@,
        ),
        r matches Ok(resp) ==> resp.result == (metrics.spec_runnable(
            spec_queue(request.scaler_metadata@)->0,
        ) >= spec_target(request.scaler_metadata@)),
        r matches Err(e) ==> validation_error(request.scaler_metadata@, e),
{
    let queue = match request.require_queue() {
        Ok(q) => q,
        Err(e) => {
            return Err(e);
        },
    };
    let target_waiting_jobs = match request.target_waiting_jobs() {
        Ok(t) => t,
        Err(e) => {
            return Err(e);
        },
    };
    let runnable = metrics.job_queue_runnable(queue.as_str());
    Ok(IsActiveResponse { result: runnable >= target_waiting_jobs })
}

/// The streaming variant of the activity question: never supported, this
/// scaler is pull only.
pub fn stream_is_active(_request: &ScaledObjectRef) -> (r: Result<IsActiveResponse, ScalerError>)
    ensures
        r matches Err(e) && e == ScalerError::PullOnly,
{
    Err(ScalerError::PullOnly)
}

/// Describe the scaling target: one metric spec naming the queue's metric
/// and the caller's threshold. Reads no snapshot — the target is
/// independent of current load.
pub fn get_metric_spec(request: &ScaledObjectRef) -> (r: Result<GetMetricSpecResponse, ScalerError>)
    ensures
        r is Ok <==> spec_queue(request.scaler_metadata@) is Some && target_ok(
            request.scaler_metadata@,
        ),
        r matches Ok(resp) ==> {
            &&& resp.metric_specs@.len() == 1
            &&& resp.metric_specs@[0].metric_name@ == spec_metric_name(
                spec_queue(request.scaler_metadata@)->0,
            )
            &&& resp.metric_specs@[0].target_size == spec_target(request.scaler_metadata@)
        },
        r matches Err(e) ==> validation_error(request.scaler_metadata@, e),
{
    let queue = match request.require_queue() {
        Ok(q) => q,
        Err(e) => {
            return Err(e);
        },
    };
    let target_waiting_jobs = match request.target_waiting_jobs() {
        Ok(t) => t,
        Err(e) => {
            return Err(e);
        },
    };
    let spec = MetricSpec {
        metric_name: metric_name(queue.as_str()),
        target_size: target_waiting_jobs,
    };
    let mut metric_specs: Vec<MetricSpec> = Vec::new();
    metric_specs.push(spec);
    Ok(GetMetricSpecResponse { metric_specs })
}

/// Which error a metrics request earns: a missing reference is reported
/// before a missing queue, and a request with both earns none.
pub open spec fn metrics_request_error(req: GetMetricsRequest, e: ScalerError) -> bool {
    match req.scaled_object_ref {
        None => e == ScalerError::MissingScaledObjectRef,
        Some(o) => spec_queue(o.scaler_metadata@) is None && e == ScalerError::QueueNotSpecified,
    }
}

/// Report the current metric: one value carrying the queue's metric name
/// and its runnable count in the snapshot fetched for this call. The
/// reference is required; the threshold is not consulted.
pub fn get_metrics(request: &GetMetricsRequest, metrics: &Metrics) -> (r: Result<
    GetMetricsResponse,
    ScalerError,
>)
    requires
        metrics.wf(),
    ensures
        r is Ok <==> (request.scaled_object_ref matches Some(o) && spec_queue(o.scaler_metadata@)
            is Some),
        r matches Ok(resp) ==> {
            let q = spec_queue(request.scaled_object_ref->0.scaler_metadata@)->0;
            &&& resp.metric_values@.len() == 1
            &&& resp.metric_values@[0].metric_name@ == spec_metric_name(q)
            &&& resp.metric_values@[0].metric_value == metrics.spec_runnable(q)
        },
        r matches Err(e) ==> metrics_request_error(*request, e),
{
    let object_ref = match &request.scaled_object_ref {
        Some(o) => o,
        None => {
            return Err(ScalerError::MissingScaledObjectRef);
        },
    };
    let queue = match object_ref.require_queue() {
        Ok(q) => q,
        Err(e) => {
            return Err(e);
        },
    };
    let runnable = metrics.job_queue_runnable(queue.as_str());
    let value = MetricValue { metric_name: metric_name(queue.as_str()), metric_value: runnable };
    let mut metric_values: Vec<MetricValue> = Vec::new();
    metric_values.push(value);
    Ok(GetMetricsResponse { metric_values })
}

/// The metric-spec and metric-value operations derive the metric name the
/// same way: responses built for one queue name always name the same
/// metric, whichever operation built them.
pub proof fn lemma_metric_name_agreement(
    spec_resp: GetMetricSpecResponse,
    metrics_resp: GetMetricsResponse,
    q: Seq<char>,
)
    requires
        spec_resp.metric_specs@.len() == 1,
        spec_resp.metric_specs@[0].metric_name@ == spec_metric_name(q),
        metrics_resp.metric_values@.len() == 1,
        metrics_resp.metric_values@[0].metric_name@ == spec_metric_name(q),
    ensures
        spec_resp.metric_specs@[0].metric_name@ == metrics_resp.metric_values@[0].metric_name@,
{
}

} // verus!
