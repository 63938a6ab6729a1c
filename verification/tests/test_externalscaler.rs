use buildkite_keda_scaler::agent_api::{
    AgentMetrics, AgentQueue, JobMetrics, JobQueue, Metrics, Organization,
};
use buildkite_keda_scaler::externalscaler::{
    get_metric_spec, get_metrics, is_active, stream_is_active, GetMetricsRequest, ScaledObjectRef,
    ScalerError,
};

fn job_queue(scheduled: i64, running: i64, waiting: i64, total: i64) -> JobQueue {
    JobQueue {
        scheduled,
        running,
        waiting,
        total,
    }
}

/// The snapshot the upstream endpoint serves in these scenarios: a `default`
/// queue with nothing runnable, a `small` queue with one waiting job, and a
/// `large` queue with five.
fn metrics() -> Metrics {
    Metrics {
        jobs: JobMetrics {
            scheduled: 0,
            running: 0,
            waiting: 0,
            total: 0,
            queues: vec![
                ("default".to_string(), job_queue(0, 0, 0, 0)),
                ("small".to_string(), job_queue(0, 0, 1, 1)),
                ("large".to_string(), job_queue(0, 0, 5, 5)),
            ],
        },
        agents: AgentMetrics {
            idle: 1,
            busy: 2,
            total: 3,
            queues: vec![
                (
                    "default".to_string(),
                    AgentQueue {
                        idle: 1,
                        busy: 0,
                        total: 1,
                    },
                ),
                (
                    "small".to_string(),
                    AgentQueue {
                        idle: 0,
                        busy: 1,
                        total: 1,
                    },
                ),
                (
                    "large".to_string(),
                    AgentQueue {
                        idle: 0,
                        busy: 1,
                        total: 1,
                    },
                ),
            ],
        },
        organization: Organization {
            slug: "test".to_string(),
        },
    }
}

fn scaled_object_ref(metadata: Vec<(&str, &str)>) -> ScaledObjectRef {
    ScaledObjectRef {
        name: "test".to_string(),
        namespace: "test".to_string(),
        scaler_metadata: metadata
            .into_iter()
            .map(|(k, v)| (k.to_string(), v.to_string()))
            .collect(),
    }
}

#[test]
fn test_is_active() {
    let m = metrics();

    {
        // default queue has no waiting jobs, so it's not active
        let request = scaled_object_ref(vec![("queue", "default")]);
        let response = is_active(&request, &m).unwrap();
        assert!(!response.result);
    }

    {
        // large queue has jobs waiting, so it's active
        let request = scaled_object_ref(vec![("queue", "large")]);
        let response = is_active(&request, &m).unwrap();
        assert!(response.result);
    }

    {
        // customize target waiting jobs
        let request = scaled_object_ref(vec![("queue", "large"), ("targetWaitingJobs", "100")]);
        let response = is_active(&request, &m);
        assert!(!response.unwrap().result);
    }

    {
        // queue is required
        let request = scaled_object_ref(vec![]);
        let response = is_active(&request, &m);
        assert!(response.is_err());
    }
}

#[test]
fn test_get_metrics_spec() {
    {
        // queue is required
        let request = scaled_object_ref(vec![]);
        let response = get_metric_spec(&request);
        assert!(response.is_err());
    }

    {
        // defaults to non zero target waiting jobs
        let request = scaled_object_ref(vec![("queue", "default")]);
        let response = get_metric_spec(&request).unwrap();
        assert!(response.metric_specs.len() == 1);
        let spec = response.metric_specs.first().unwrap();
        assert!(spec.target_size > 0);
        assert!(!spec.metric_name.is_empty());
    }

    {
        // customize target size
        let request = scaled_object_ref(vec![("queue", "default"), ("targetWaitingJobs", "23")]);
        let response = get_metric_spec(&request).unwrap();
        assert!(response.metric_specs.len() == 1);
        let spec = response.metric_specs.first().unwrap();
        assert_eq!(spec.target_size, 23);
    }
}

fn metrics_request(object_ref: Option<ScaledObjectRef>) -> GetMetricsRequest {
    GetMetricsRequest {
        scaled_object_ref: object_ref,
        metric_name: "buildkite-default".to_string(),
    }
}

#[test]
fn test_get_metrics() {
    let m = metrics();

    {
        // queue is required
        let request = metrics_request(Some(scaled_object_ref(vec![])));
        let response = get_metrics(&request, &m);
        assert!(response.is_err());
    }

    {
        // scaled object ref is required
        let request = metrics_request(None);
        let response = get_metrics(&request, &m);
        assert!(response.is_err());
    }

    {
        // 0 jobs waiting from buildkite
        let request = metrics_request(Some(scaled_object_ref(vec![("queue", "default")])));
        let response = get_metrics(&request, &m).unwrap();
        assert!(response.metric_values.len() == 1);
        let value = response.metric_values.first().unwrap();
        assert_eq!(value.metric_value, 0);
    }

    {
        // non 0 jobs waiting from buildkite
        let request = metrics_request(Some(scaled_object_ref(vec![("queue", "large")])));
        let response = get_metrics(&request, &m).unwrap();
        assert!(response.metric_values.len() == 1);
        let value = response.metric_values.first().unwrap();
        assert_eq!(value.metric_value, 5);
    }

    {
        // queue with no jobs waiting
        let request = metrics_request(Some(scaled_object_ref(vec![("queue", "missing")])));
        let response = get_metrics(&request, &m).unwrap();
        assert!(response.metric_values.len() == 1);
        let value = response.metric_values.first().unwrap();
        assert_eq!(value.metric_value, 0);
    }
}

#[test]
fn absent_queue_reads_as_zero() {
    // soft absence: a queue the snapshot never mentions yields zero counts
    let m = metrics();
    assert_eq!(m.job_queue_runnable("no-such-queue"), 0);
    assert!(m.get_job_queue("no-such-queue").is_none());
    assert_eq!(m.job_queue_runnable("large"), 5);
    assert_eq!(m.get_job_queue("small").unwrap().waiting, 1);
}

#[test]
fn missing_queue_key_is_a_validation_error() {
    let m = metrics();
    let request = scaled_object_ref(vec![("targetWaitingJobs", "3")]);
    assert!(matches!(
        request.require_queue(),
        Err(ScalerError::QueueNotSpecified)
    ));
    assert!(matches!(
        is_active(&request, &m),
        Err(ScalerError::QueueNotSpecified)
    ));
    assert!(matches!(
        get_metric_spec(&request),
        Err(ScalerError::QueueNotSpecified)
    ));
    let metrics_req = metrics_request(Some(scaled_object_ref(vec![])));
    assert!(matches!(
        get_metrics(&metrics_req, &m),
        Err(ScalerError::QueueNotSpecified)
    ));
}

#[test]
fn non_numeric_target_is_a_validation_error() {
    let m = metrics();
    let request = scaled_object_ref(vec![("queue", "default"), ("targetWaitingJobs", "ten")]);
    assert!(matches!(
        request.target_waiting_jobs(),
        Err(ScalerError::TargetNotANumber)
    ));
    assert!(matches!(
        is_active(&request, &m),
        Err(ScalerError::TargetNotANumber)
    ));
    assert!(matches!(
        get_metric_spec(&request),
        Err(ScalerError::TargetNotANumber)
    ));
}

#[test]
fn missing_object_ref_is_a_validation_error() {
    // independent of the metric name the request carries
    let m = metrics();
    for name in ["buildkite-default", "", "anything"] {
        let request = GetMetricsRequest {
            scaled_object_ref: None,
            metric_name: name.to_string(),
        };
        assert!(matches!(
            get_metrics(&request, &m),
            Err(ScalerError::MissingScaledObjectRef)
        ));
    }
}

#[test]
fn target_defaults_to_one_when_absent() {
    let request = scaled_object_ref(vec![("queue", "default"), ("ignored", "junk")]);
    assert_eq!(request.target_waiting_jobs().unwrap(), 1);
}

#[test]
fn metric_name_agrees_between_operations() {
    let m = metrics();
    let request = scaled_object_ref(vec![("queue", "default")]);
    let spec_response = get_metric_spec(&request).unwrap();
    let metrics_response = get_metrics(&metrics_request(Some(request)), &m).unwrap();
    assert_eq!(spec_response.metric_specs[0].metric_name, "buildkite-default");
    assert_eq!(
        spec_response.metric_specs[0].metric_name,
        metrics_response.metric_values[0].metric_name
    );
}

#[test]
fn get_metric_spec_does_not_use_default_metadata() {
    // one spec, target 23, metric name derived from the queue
    let request = scaled_object_ref(vec![("queue", "default"), ("targetWaitingJobs", "23")]);
    let response = get_metric_spec(&request).unwrap();
    assert_eq!(response.metric_specs.len(), 1);
    assert_eq!(response.metric_specs[0].target_size, 23);
    assert_eq!(response.metric_specs[0].metric_name, "buildkite-default");
}

#[test]
fn stream_is_active_is_always_unsupported() {
    let request = scaled_object_ref(vec![("queue", "default")]);
    assert!(matches!(
        stream_is_active(&request),
        Err(ScalerError::PullOnly)
    ));
}

#[test]
fn error_messages() {
    assert_eq!(
        ScalerError::QueueNotSpecified.message(),
        "queue not specified"
    );
    assert_eq!(
        ScalerError::TargetNotANumber.message(),
        "targetWaitingJobs is not a number"
    );
    assert_eq!(
        ScalerError::MissingScaledObjectRef.message(),
        "missing scaled object ref"
    );
    assert_eq!(ScalerError::PullOnly.message(), "scaler is pull only");
    assert_eq!(
        ScalerError::Upstream("connection refused".to_string()).message(),
        "error: connection refused"
    );
}
