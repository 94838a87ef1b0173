use oracle::coil_paths::{path_segments, rodin_nodes};
use oracle::solver_client::{
    poll_step, send_failure, status_failure, status_is_success, HealthCheck, PollStep, SolverError,
};
use oracle::types::{ready_status, CoilType, FormulationType, MeshResolution, SolverState};

#[test]
fn coil_type_labels() {
    assert_eq!(CoilType::Solenoid.label(), "solenoid");
    assert_eq!(CoilType::Toroid.label(), "toroid");
    assert_eq!(CoilType::ToroidPoloidal.label(), "toroid_poloidal");
    assert_eq!(CoilType::FlatSpiral.label(), "flat_spiral");
    assert_eq!(CoilType::Rodin.label(), "rodin");
}

#[test]
fn formulation_and_mesh_labels() {
    assert_eq!(FormulationType::ScalarOnly.label(), "scalar_only");
    assert_eq!(FormulationType::MaxwellOnly.label(), "maxwell_only");
    assert_eq!(FormulationType::EedCoupled.label(), "eed_coupled");
    assert_eq!(MeshResolution::Coarse.label(), "coarse");
    assert_eq!(MeshResolution::Medium.label(), "medium");
    assert_eq!(MeshResolution::Fine.label(), "fine");
}

#[test]
fn ready_status_names_the_gpu() {
    let s = ready_status("Apple M3 Pro".to_string());
    assert_eq!(s.state, SolverState::Ready);
    assert_eq!(s.message, "GPU solver ready on Apple M3 Pro");
    assert_eq!(s.gpu_name.as_deref(), Some("Apple M3 Pro"));
}

#[test]
fn client_error_messages() {
    assert_eq!(
        SolverError::NotReachable.message(),
        "Cannot reach solver at http://127.0.0.1:7432. Start it: docker compose up solver"
    );
    assert_eq!(SolverError::Timeout(600).message(), "Solve timed out after 600s");
    assert_eq!(SolverError::Timeout(0).message(), "Solve timed out after 0s");
    assert_eq!(
        SolverError::SolverFailed { status: 503, body: "busy".to_string() }.message(),
        "Solver returned HTTP 503: busy"
    );
    assert_eq!(SolverError::RequestFailed("x".to_string()).message(), "Request failed: x");
    assert_eq!(
        SolverError::ParseError("bad".to_string()).message(),
        "Failed to parse solver response: bad"
    );
    assert_eq!(SolverError::ClientError("tls".to_string()).message(), "HTTP client error: tls");
    assert_eq!(SolverError::Timeout(u64::MAX).message(), format!("Solve timed out after {}s", u64::MAX));
}

#[test]
fn start_up_poll_steps() {
    match poll_step(HealthCheck::Healthy, true) {
        PollStep::Done(s) => {
            assert_eq!(s.state, SolverState::Ready);
            assert_eq!(s.message, "Solver ready");
        }
        PollStep::Retry => panic!("healthy solver must end the poll"),
    }
    match poll_step(HealthCheck::Failed, true) {
        PollStep::Done(s) => {
            assert_eq!(s.state, SolverState::Error);
            assert_eq!(s.message, "Solver did not become ready within 30s. Run: docker compose up solver");
        }
        PollStep::Retry => panic!("deadline passed"),
    }
    assert!(matches!(poll_step(HealthCheck::Unhealthy, false), PollStep::Retry));
}

#[test]
fn sample_counts() {
    assert_eq!(rodin_nodes(0), 5);
    assert_eq!(rodin_nodes(6), 7);
    assert_eq!(rodin_nodes(7), 7);
    assert_eq!(path_segments(CoilType::Solenoid, 10), 1800);
    assert_eq!(path_segments(CoilType::Solenoid, 0), 20);
    assert_eq!(path_segments(CoilType::Toroid, 0), 36);
    assert_eq!(path_segments(CoilType::ToroidPoloidal, 1), 180);
    assert_eq!(path_segments(CoilType::FlatSpiral, 0), 20);
    assert_eq!(path_segments(CoilType::Rodin, 12), 13 * 240);
}

#[test]
fn not_ready_status() {
    let s = oracle::solver_client::status_not_ready();
    assert_eq!(s.state, SolverState::Initialising);
    assert_eq!(s.message, "Solver not yet ready. Waiting for startup...");
    assert!(s.gpu_name.is_none());
}

#[test]
fn rodin_node_counts_are_odd() {
    for turns in 0..50 {
        let m = rodin_nodes(turns);
        assert!(m % 2 == 1 && m >= 5 && m >= turns);
    }
}

#[test]
fn send_failures_are_classified() {
    assert!(matches!(send_failure(true, true, "t".to_string()), SolverError::Timeout(600)));
    assert!(matches!(send_failure(false, true, "c".to_string()), SolverError::NotReachable));
    match send_failure(false, false, "reset".to_string()) {
        SolverError::RequestFailed(m) => assert_eq!(m, "reset"),
        other => panic!("unexpected {other:?}"),
    }
}

#[test]
fn answer_statuses_are_classified() {
    assert!(status_is_success(200));
    assert!(status_is_success(299));
    assert!(!status_is_success(199));
    assert!(!status_is_success(300));
    assert!(!status_is_success(503));
    match status_failure(503, "busy".to_string()) {
        SolverError::SolverFailed { status, body } => {
            assert_eq!(status, 503);
            assert_eq!(body, "busy");
        }
        other => panic!("unexpected {other:?}"),
    }
}
