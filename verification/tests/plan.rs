use oracle::solve_plan::{
    jacobi_sweep_count, plan_solve, rejection_message, volume_field, warning_message,
    CouplingMode, FdtdRun, GemSnapshot, LiTorrStage, PhiSolve, SolveFacts, SolveRejection,
    SolveWarning,
};
use oracle::types::FieldName;

fn base() -> SolveFacts {
    SolveFacts {
        entity_count: 1,
        cells_per_axis: 64,
        segments_empty: false,
        all_capacitors: false,
        has_ac: false,
        ac_segments_empty: true,
        alpha_positive: false,
        gamma_nonzero: true,
        time_domain: false,
        gem_enabled: false,
        kappa_nonzero: false,
        coupling: CouplingMode::KkDirect,
        li_torr_mode: false,
        li_torr_entities: 0,
        mass_sources: 0,
        request_volume: true,
        volume_field: FieldName::Phi,
    }
}

#[test]
fn request_without_entities_is_refused() {
    let f = SolveFacts { entity_count: 0, ..base() };
    assert_eq!(plan_solve(&f), Err(SolveRejection::NoEntities));
    assert_eq!(
        rejection_message(SolveRejection::NoEntities),
        "At least one coil entity is required"
    );
}

#[test]
fn default_static_plan() {
    let p = plan_solve(&base()).unwrap();
    assert_eq!(p.phi_solve, PhiSolve::Skip);
    assert_eq!(p.a_correction, Some(64));
    assert_eq!(p.gem_snapshot, GemSnapshot::Never);
    assert_eq!(p.fdtd, FdtdRun::Skip);
    assert_eq!(p.volume, Some(FieldName::Phi));
    assert!(!p.upload_j_source && !p.warn_no_segments && !p.gem_outputs);
}

#[test]
fn static_solver_depends_on_grid_size() {
    let big = plan_solve(&SolveFacts { alpha_positive: true, ..base() }).unwrap();
    assert_eq!(big.phi_solve, PhiSolve::Pcg);
    let small = plan_solve(&SolveFacts { alpha_positive: true, cells_per_axis: 20, ..base() })
        .unwrap();
    assert_eq!(small.phi_solve, PhiSolve::Jacobi(40));
    assert_eq!(small.a_correction, Some(40));
    assert_eq!(jacobi_sweep_count(32), 64);
    assert_eq!(jacobi_sweep_count(1000), 64);
}

#[test]
fn ac_time_domain_snapshots_after_fdtd() {
    let f = SolveFacts {
        has_ac: true,
        ac_segments_empty: false,
        time_domain: true,
        gem_enabled: true,
        kappa_nonzero: true,
        coupling: CouplingMode::Both,
        ..base()
    };
    let p = plan_solve(&f).unwrap();
    assert!(p.upload_j_source);
    assert_eq!(p.fdtd, FdtdRun::AcDriven);
    assert_eq!(p.gem_snapshot, GemSnapshot::AfterFdtd);
    assert!(p.slw_in_fdtd);
    assert_eq!(p.kk_direct, Some(true));
    assert!(!p.kk_poisson);
}

#[test]
fn dc_gem_snapshots_before_fdtd() {
    let f = SolveFacts {
        time_domain: true,
        gem_enabled: true,
        kappa_nonzero: true,
        coupling: CouplingMode::KkPoisson,
        mass_sources: 2,
        ..base()
    };
    let p = plan_solve(&f).unwrap();
    assert_eq!(p.fdtd, FdtdRun::Free);
    assert_eq!(p.gem_snapshot, GemSnapshot::BeforeFdtd);
    assert!(p.kk_poisson && p.mass_solve && p.gem_outputs);
    assert_eq!(p.kk_direct, None);
}

#[test]
fn warnings_of_a_plan() {
    let f = SolveFacts {
        segments_empty: true,
        gem_enabled: true,
        kappa_nonzero: true,
        coupling: CouplingMode::SlwMediated,
        li_torr_mode: true,
        volume_field: FieldName::EMagnitude,
        ..base()
    };
    let p = plan_solve(&f).unwrap();
    assert!(p.warn_no_segments);
    assert!(p.warn_slw_static);
    assert_eq!(p.li_torr, LiTorrStage::NoSource);
    assert_eq!(p.warn_volume_fallback, Some(FieldName::EMagnitude));
    assert_eq!(p.volume, Some(FieldName::BMagnitude));
    let caps = SolveFacts { segments_empty: true, all_capacitors: true, ..base() };
    assert!(!plan_solve(&caps).unwrap().warn_no_segments);
}

#[test]
fn warning_texts() {
    assert_eq!(
        warning_message(SolveWarning::VolumeFallback(FieldName::EMagnitude)),
        "Volume field EMagnitude not yet implemented — falling back to B_magnitude."
    );
    assert_eq!(
        warning_message(SolveWarning::SlwNeedsTimeDomain),
        "GEM SLW-mediated coupling requires time-domain mode. Enable it in the Mode section (or switch to KK-direct)."
    );
    assert_eq!(
        warning_message(SolveWarning::NoWireSegments),
        "No wire segments generated — check coil parameters (radius, turns, pitch)."
    );
    assert!(warning_message(SolveWarning::LiTorrWithoutSource).starts_with("GEM Li-Torr mode is on"));
}

#[test]
fn volume_fallback_field() {
    assert_eq!(volume_field(FieldName::CField), FieldName::CField);
    assert_eq!(volume_field(FieldName::JMagnitude), FieldName::BMagnitude);
    assert_eq!(volume_field(FieldName::EgMagnitude), FieldName::BMagnitude);
}
