//! The decisions of a solve: which stages of the GPU pipeline run, in which
//! form, and which warnings the result carries.
//!
//! The caller reads the request and hands over the facts the decisions
//! depend on; comparisons of physical quantities with zero arrive as
//! booleans.

use vstd::prelude::*;
use crate::types::FieldName;

verus! {

/// How the C field couples into the gravitational sector.
#[derive(Clone, Copy, Debug, PartialEq, Eq, Structural)]
pub enum CouplingMode {
    /// Pointwise Φ_g = κ_G·C, A_g = κ_G·A.
    KkDirect,
    /// Wave coupling through κ_G·∂C/∂t and κ_G·∇C, stepped with the FDTD.
    SlwMediated,
    /// Elliptic ∇²Φ_g = −κ_G·C, ∇²A_g = −κ_G·A.
    KkPoisson,
    /// The wave coupling, with the pointwise one added on top.
    Both,
}

/// What a solve request says that the pipeline's decisions depend on.
#[derive(Clone, Copy, Debug)]
pub struct SolveFacts {
    /// Number of coil entities in the request.
    pub entity_count: usize,
    /// Cells per grid axis.
    pub cells_per_axis: u32,
    /// No entity produced a wire segment.
    pub segments_empty: bool,
    /// Every entity is a capacitor (voltage-driven, no wire).
    pub all_capacitors: bool,
    /// Some entity is an AC current source.
    pub has_ac: bool,
    /// The AC current sources produced no wire segment.
    pub ac_segments_empty: bool,
    /// The Yukawa mass α² is positive.
    pub alpha_positive: bool,
    /// The φ→A coupling γ is non-zero.
    pub gamma_nonzero: bool,
    /// The request asks for a time-domain (FDTD) solve.
    pub time_domain: bool,
    /// The gravitational sector is enabled.
    pub gem_enabled: bool,
    /// The coupling constant κ_G is non-zero.
    pub kappa_nonzero: bool,
    /// The coupling channel.
    pub coupling: CouplingMode,
    /// Li-Torr London-moment mode is on.
    pub li_torr_mode: bool,
    /// Superconducting entities that rotate.
    pub li_torr_entities: usize,
    /// Entities with a positive mass density.
    pub mass_sources: usize,
    /// The request asks for a 3-D volume.
    pub request_volume: bool,
    /// The field asked for in the volume.
    pub volume_field: FieldName,
}

/// The scalar potential solve of the static stage.
#[derive(Clone, Copy, Debug, PartialEq, Eq, Structural)]
pub enum PhiSolve {
    /// Not run (α = 0).
    Skip,
    /// Preconditioned conjugate gradients.
    Pcg,
    /// This many Jacobi sweeps.
    Jacobi(u32),
}

/// When the EED potentials are copied as sources of the gravitational sector.
#[derive(Clone, Copy, Debug, PartialEq, Eq, Structural)]
pub enum GemSnapshot {
    Never,
    BeforeFdtd,
    AfterFdtd,
}

/// How the time-domain stage runs.
#[derive(Clone, Copy, Debug, PartialEq, Eq, Structural)]
pub enum FdtdRun {
    /// No time stepping (static solve).
    Skip,
    /// Free evolution of the static fields.
    Free,
    /// Evolution driven by the injected AC current.
    AcDriven,
}

/// What the Li-Torr stage does.
#[derive(Clone, Copy, Debug, PartialEq, Eq, Structural)]
pub enum LiTorrStage {
    Off,
    /// Mode on, but no rotating superconductor: a warning only.
    NoSource,
    Apply,
}

/// Warnings a solve reports that depend on no physical quantity.
#[derive(Clone, Copy, Debug, PartialEq, Eq, Structural)]
pub enum SolveWarning {
    /// No wire segment came out of a configuration that needs one.
    NoWireSegments,
    /// The wave coupling was asked for without time stepping.
    SlwNeedsTimeDomain,
    /// Li-Torr mode without a rotating superconductor.
    LiTorrWithoutSource,
    /// The volume field is not produced; `|B|` is shown instead.
    VolumeFallback(FieldName),
}

/// The stages of a solve and their parameters.
#[derive(Clone, Copy, Debug, PartialEq, Eq, Structural)]
pub struct SolvePlan {
    /// Upload the AC current-density grid.
    pub upload_j_source: bool,
    /// The static scalar potential solve.
    pub phi_solve: PhiSolve,
    /// Jacobi sweeps of the static A correction, if it runs.
    pub a_correction: Option<u32>,
    /// When the gravitational sources are copied.
    pub gem_snapshot: GemSnapshot,
    /// The time-domain stage.
    pub fdtd: FdtdRun,
    /// The wave coupling is stepped inside the FDTD loop.
    pub slw_in_fdtd: bool,
    /// The pointwise coupling runs; `Some(true)`: added on top of the wave result.
    pub kk_direct: Option<bool>,
    /// The elliptic coupling runs.
    pub kk_poisson: bool,
    /// The Li-Torr stage.
    pub li_torr: LiTorrStage,
    /// The mass-source solve runs.
    pub mass_solve: bool,
    /// Gravitational fields are derived and the Φ_g asymmetry measured.
    pub gem_outputs: bool,
    /// The field extracted as a volume, if one is asked for.
    pub volume: Option<FieldName>,
    /// Wire segments were expected but none exist.
    pub warn_no_segments: bool,
    /// The wave coupling was asked for without time stepping.
    pub warn_slw_static: bool,
    /// The volume field asked for, where it is not produced.
    pub warn_volume_fallback: Option<FieldName>,
}

/// The fields that a solve produces and can extract as a volume.
pub open spec fn volume_supported(f: FieldName) -> bool {
    match f {
        FieldName::BMagnitude | FieldName::AMagnitude | FieldName::CField | FieldName::Phi
        | FieldName::PhiG | FieldName::BgMagnitude | FieldName::PoyntingMag
        | FieldName::EnergyDensity => true,
        _ => false,
    }
}

/// The volume field actually extracted: the one asked for where it is
/// produced, else `|B|`.
pub open spec fn volume_field_for(f: FieldName) -> FieldName {
    if volume_supported(f) {
        f
    } else {
        FieldName::BMagnitude
    }
}

/// Jacobi sweeps of the static stages: twice the cells per axis, at most 64.
pub open spec fn jacobi_sweeps(n: int) -> int {
    if 2 * n < 64 {
        2 * n
    } else {
        64
    }
}

/// The coupling uses the wave channel.
pub open spec fn uses_slw(c: CouplingMode) -> bool {
    c == CouplingMode::SlwMediated || c == CouplingMode::Both
}

/// The plan of a solve of a request with these facts.
pub open spec fn plan_of(f: SolveFacts) -> SolvePlan {
    let coupled = f.gem_enabled && f.kappa_nonzero;
    let snapshot_after = f.gem_enabled && f.time_domain && f.has_ac;
    SolvePlan {
        upload_j_source: f.has_ac && !f.ac_segments_empty,
        phi_solve: if !f.alpha_positive {
            PhiSolve::Skip
        } else if f.cells_per_axis > 32 {
            PhiSolve::Pcg
        } else {
            PhiSolve::Jacobi(jacobi_sweeps(f.cells_per_axis as int) as u32)
        },
        a_correction: if f.alpha_positive || f.gamma_nonzero {
            Some(jacobi_sweeps(f.cells_per_axis as int) as u32)
        } else {
            None
        },
        gem_snapshot: if !f.gem_enabled {
            GemSnapshot::Never
        } else if snapshot_after {
            GemSnapshot::AfterFdtd
        } else {
            GemSnapshot::BeforeFdtd
        },
        fdtd: if !f.time_domain {
            FdtdRun::Skip
        } else if f.has_ac {
            FdtdRun::AcDriven
        } else {
            FdtdRun::Free
        },
        slw_in_fdtd: coupled && uses_slw(f.coupling),
        kk_direct: if coupled && (f.coupling == CouplingMode::KkDirect || f.coupling
            == CouplingMode::Both) {
            Some(f.coupling == CouplingMode::Both)
        } else {
            None
        },
        kk_poisson: coupled && f.coupling == CouplingMode::KkPoisson,
        li_torr: if !(f.gem_enabled && f.li_torr_mode) {
            LiTorrStage::Off
        } else if f.li_torr_entities == 0 {
            LiTorrStage::NoSource
        } else {
            LiTorrStage::Apply
        },
        mass_solve: f.gem_enabled && f.mass_sources > 0,
        gem_outputs: f.gem_enabled,
        volume: if f.request_volume {
            Some(volume_field_for(f.volume_field))
        } else {
            None
        },
        warn_no_segments: f.segments_empty && !f.all_capacitors,
        warn_slw_static: coupled && uses_slw(f.coupling) && !f.time_domain,
        warn_volume_fallback: if f.request_volume && !volume_supported(f.volume_field) {
            Some(f.volume_field)
        } else {
            None
        },
    }
}

/// The gravitational sources are copied exactly when the gravitational sector
/// is enabled, once; after the time stepping only in an AC-driven
/// time-domain solve.
pub proof fn lemma_gem_snapshot(f: SolveFacts)
    ensures
        (plan_of(f).gem_snapshot != GemSnapshot::Never) == f.gem_enabled,
        plan_of(f).gem_snapshot == GemSnapshot::AfterFdtd ==> plan_of(f).fdtd == FdtdRun::AcDriven,
        f.gem_enabled && plan_of(f).fdtd != FdtdRun::AcDriven ==> plan_of(f).gem_snapshot
            == GemSnapshot::BeforeFdtd,
{
}

/// The extracted volume field is always one that a solve produces, and it is
/// the one asked for whenever that one is produced; otherwise `|B|` is shown
/// with a warning naming the field asked for.
pub proof fn lemma_volume_field(f: SolveFacts)
    ensures
        plan_of(f).volume matches Some(v) ==> volume_supported(v),
        f.request_volume && volume_supported(f.volume_field) ==> plan_of(f).volume == Some(
            f.volume_field,
        ),
        plan_of(f).warn_volume_fallback == Some(f.volume_field) <==> (f.request_volume
            && !volume_supported(f.volume_field)),
        plan_of(f).warn_volume_fallback is Some ==> plan_of(f).volume == Some(
            FieldName::BMagnitude,
        ),
{
}

/// The static potential solve uses conjugate gradients on grids of more than
/// 32 cells per axis and Jacobi sweeps (twice the cells per axis) otherwise;
/// no static stage runs more than 64 sweeps.
pub proof fn lemma_static_solvers(f: SolveFacts)
    ensures
        f.alpha_positive ==> (plan_of(f).phi_solve == PhiSolve::Pcg <==> f.cells_per_axis > 32),
        plan_of(f).phi_solve matches PhiSolve::Jacobi(k) ==> k == 2 * f.cells_per_axis && k <= 64,
        plan_of(f).a_correction matches Some(k) ==> k <= 64,
{
}

/// The coupling channels: the wave-coupling warning is raised exactly when
/// the wave coupling is asked for and no time stepping runs; the pointwise
/// coupling is additive exactly in `Both` mode; the elliptic and pointwise
/// couplings never both run.
pub proof fn lemma_coupling_channels(f: SolveFacts)
    ensures
        plan_of(f).warn_slw_static == (plan_of(f).slw_in_fdtd && plan_of(f).fdtd == FdtdRun::Skip),
        plan_of(f).kk_direct == Some(true) <==> (f.gem_enabled && f.kappa_nonzero && f.coupling
            == CouplingMode::Both),
        !(plan_of(f).kk_poisson && plan_of(f).kk_direct is Some),
        !f.gem_enabled ==> !plan_of(f).slw_in_fdtd && plan_of(f).kk_direct is None
            && !plan_of(f).kk_poisson && plan_of(f).li_torr == LiTorrStage::Off
            && !plan_of(f).mass_solve,
{
}

/// With the gravitational sector and Li-Torr mode both on, the London-moment
/// source is applied exactly when at least one rotating superconducting
/// entity exists, and the stage is reduced to its warning exactly when none
/// does; with either off, the stage does not run.  Likewise the mass-source
/// solve runs exactly when the sector is on and some entity has mass.
pub proof fn lemma_li_torr_stage(f: SolveFacts)
    ensures
        f.gem_enabled && f.li_torr_mode ==> (plan_of(f).li_torr == LiTorrStage::Apply
            <==> f.li_torr_entities > 0),
        f.gem_enabled && f.li_torr_mode ==> (plan_of(f).li_torr == LiTorrStage::NoSource
            <==> f.li_torr_entities == 0),
        !(f.gem_enabled && f.li_torr_mode) ==> plan_of(f).li_torr == LiTorrStage::Off,
        plan_of(f).mass_solve <==> (f.gem_enabled && f.mass_sources > 0),
{
}

/// The fields extracted as asked are exactly |B|, |A|, C, φ, Φ_g, |B_g|, the
/// Poynting magnitude and the energy density; |E|, |J| and |E_g| are not
/// produced and fall back to |B|.
pub proof fn lemma_volume_fields(g: FieldName)
    ensures
        volume_supported(g) <==> (g == FieldName::BMagnitude || g == FieldName::AMagnitude || g
            == FieldName::CField || g == FieldName::Phi || g == FieldName::PhiG || g
            == FieldName::BgMagnitude || g == FieldName::PoyntingMag || g
            == FieldName::EnergyDensity),
        volume_field_for(g) == g <==> volume_supported(g),
        (g == FieldName::EMagnitude || g == FieldName::JMagnitude || g == FieldName::EgMagnitude)
            ==> volume_field_for(g) == FieldName::BMagnitude,
        g != FieldName::EMagnitude && g != FieldName::JMagnitude && g != FieldName::EgMagnitude
            ==> volume_field_for(g) == g,
{
}

/// A requested volume carries a fallback warning exactly when the field
/// asked for is |E|, |J| or |E_g|; any other field is extracted as asked.
pub proof fn lemma_volume_request(f: SolveFacts)
    ensures
        f.request_volume ==> (plan_of(f).warn_volume_fallback is Some <==> (f.volume_field
            == FieldName::EMagnitude || f.volume_field == FieldName::JMagnitude || f.volume_field
            == FieldName::EgMagnitude)),
        f.request_volume && f.volume_field != FieldName::EMagnitude && f.volume_field
            != FieldName::JMagnitude && f.volume_field != FieldName::EgMagnitude
            ==> plan_of(f).volume == Some(f.volume_field),
        !f.request_volume ==> plan_of(f).volume is None && plan_of(f).warn_volume_fallback is None,
{
}

/// The remaining stages, in terms of the request: the AC current grid is
/// uploaded exactly when an AC source produced wire; time stepping is skipped
/// exactly for a static solve and driven exactly when an AC source exists;
/// the gravitational sources are copied after the stepping exactly in a
/// driven time-domain solve with the sector on; each coupling channel runs
/// exactly when the sector is on, κ_G is non-zero and the mode selects it;
/// the static A correction runs exactly when α² > 0 or γ ≠ 0, with
/// min(2·cells, 64) sweeps; the static φ solve is skipped exactly when α² is
/// not positive; the missing-wire warning is raised exactly when no segment
/// came out of a configuration that is not all capacitors.
pub proof fn lemma_plan_stages(f: SolveFacts)
    ensures
        plan_of(f).upload_j_source <==> (f.has_ac && !f.ac_segments_empty),
        plan_of(f).fdtd == FdtdRun::Skip <==> !f.time_domain,
        plan_of(f).fdtd == FdtdRun::AcDriven <==> (f.time_domain && f.has_ac),
        plan_of(f).gem_snapshot == GemSnapshot::AfterFdtd <==> (f.gem_enabled && f.time_domain
            && f.has_ac),
        plan_of(f).slw_in_fdtd <==> (f.gem_enabled && f.kappa_nonzero && (f.coupling
            == CouplingMode::SlwMediated || f.coupling == CouplingMode::Both)),
        plan_of(f).kk_direct is Some <==> (f.gem_enabled && f.kappa_nonzero && (f.coupling
            == CouplingMode::KkDirect || f.coupling == CouplingMode::Both)),
        plan_of(f).kk_poisson <==> (f.gem_enabled && f.kappa_nonzero && f.coupling
            == CouplingMode::KkPoisson),
        plan_of(f).warn_slw_static <==> (f.gem_enabled && f.kappa_nonzero && (f.coupling
            == CouplingMode::SlwMediated || f.coupling == CouplingMode::Both) && !f.time_domain),
        plan_of(f).gem_outputs <==> f.gem_enabled,
        plan_of(f).a_correction is Some <==> (f.alpha_positive || f.gamma_nonzero),
        plan_of(f).a_correction matches Some(k) ==> (k == 2 * f.cells_per_axis || k == 64) && k
            <= 2 * f.cells_per_axis && k <= 64,
        plan_of(f).phi_solve == PhiSolve::Skip <==> !f.alpha_positive,
        plan_of(f).warn_no_segments <==> (f.segments_empty && !f.all_capacitors),
{
}

/// Why a solve request is refused before any GPU work.
#[derive(Clone, Copy, Debug, PartialEq, Eq, Structural)]
pub enum SolveRejection {
    /// The request has no coil entity.
    NoEntities,
}

/// The field extracted as a volume when `f` is asked for.
pub fn volume_field(f: FieldName) -> (r: FieldName)
    ensures
        r == volume_field_for(f),
{
    match f {
        FieldName::BMagnitude | FieldName::AMagnitude | FieldName::CField | FieldName::Phi
        | FieldName::PhiG | FieldName::BgMagnitude | FieldName::PoyntingMag
        | FieldName::EnergyDensity => f,
        _ => FieldName::BMagnitude,
    }
}

/// Jacobi sweeps of the static stages on a grid of `n` cells per axis.
pub fn jacobi_sweep_count(n: u32) -> (r: u32)
    ensures
        r == jacobi_sweeps(n as int),
{
    if n < 32 {
        2 * n
    } else {
        64
    }
}

/// Decide the stages of a solve.  A request without entities is refused.
pub fn plan_solve(f: &SolveFacts) -> (r: Result<SolvePlan, SolveRejection>)
    ensures
        f.entity_count == 0 ==> r == Err::<SolvePlan, SolveRejection>(SolveRejection::NoEntities),
        f.entity_count > 0 ==> r == Ok::<SolvePlan, SolveRejection>(plan_of(*f)),
{
    if f.entity_count == 0 {
        return Err(SolveRejection::NoEntities);
    }
    let coupled = f.gem_enabled && f.kappa_nonzero;
    let snapshot_after = f.gem_enabled && f.time_domain && f.has_ac;
    let sweeps = jacobi_sweep_count(f.cells_per_axis);
    let slw = f.coupling == CouplingMode::SlwMediated || f.coupling == CouplingMode::Both;
    let plan = SolvePlan {
        upload_j_source: f.has_ac && !f.ac_segments_empty,
        phi_solve: if !f.alpha_positive {
            PhiSolve::Skip
        } else if f.cells_per_axis > 32 {
            PhiSolve::Pcg
        } else {
            PhiSolve::Jacobi(sweeps)
        },
        a_correction: if f.alpha_positive || f.gamma_nonzero {
            Some(sweeps)
        } else {
            None
        },
        gem_snapshot: if !f.gem_enabled {
            GemSnapshot::Never
        } else if snapshot_after {
            GemSnapshot::AfterFdtd
        } else {
            GemSnapshot::BeforeFdtd
        },
        fdtd: if !f.time_domain {
            FdtdRun::Skip
        } else if f.has_ac {
            FdtdRun::AcDriven
        } else {
            FdtdRun::Free
        },
        slw_in_fdtd: coupled && slw,
        kk_direct: if coupled && (f.coupling == CouplingMode::KkDirect || f.coupling
            == CouplingMode::Both) {
            Some(f.coupling == CouplingMode::Both)
        } else {
            None
        },
        kk_poisson: coupled && f.coupling == CouplingMode::KkPoisson,
        li_torr: if !(f.gem_enabled && f.li_torr_mode) {
            LiTorrStage::Off
        } else if f.li_torr_entities == 0 {
            LiTorrStage::NoSource
        } else {
            LiTorrStage::Apply
        },
        mass_solve: f.gem_enabled && f.mass_sources > 0,
        gem_outputs: f.gem_enabled,
        volume: if f.request_volume {
            Some(volume_field(f.volume_field))
        } else {
            None
        },
        warn_no_segments: f.segments_empty && !f.all_capacitors,
        warn_slw_static: coupled && slw && !f.time_domain,
        warn_volume_fallback: if f.request_volume && !volume_supported_exec(f.volume_field) {
            Some(f.volume_field)
        } else {
            None
        },
    };
    Ok(plan)
}

/// Whether `f` is produced by a solve and can be extracted as a volume.
pub fn volume_supported_exec(f: FieldName) -> (r: bool)
    ensures
        r == volume_supported(f),
{
    match f {
        FieldName::BMagnitude | FieldName::AMagnitude | FieldName::CField | FieldName::Phi
        | FieldName::PhiG | FieldName::BgMagnitude | FieldName::PoyntingMag
        | FieldName::EnergyDensity => true,
        _ => false,
    }
}

/// The variant name of a field, as `{:?}` prints it.
pub open spec fn field_variant_name(f: FieldName) -> Seq<char> {
    match f {
        FieldName::Phi => "Phi"@,
        FieldName::AMagnitude => "AMagnitude"@,
        FieldName::EMagnitude => "EMagnitude"@,
        FieldName::BMagnitude => "BMagnitude"@,
        FieldName::JMagnitude => "JMagnitude"@,
        FieldName::CField => "CField"@,
        FieldName::PoyntingMag => "PoyntingMag"@,
        FieldName::EnergyDensity => "EnergyDensity"@,
        FieldName::PhiG => "PhiG"@,
        FieldName::EgMagnitude => "EgMagnitude"@,
        FieldName::BgMagnitude => "BgMagnitude"@,
    }
}

/// The variant name of a field.
pub fn field_variant_label(f: FieldName) -> (r: &'static str)
    ensures
        r@ == field_variant_name(f),
{
    match f {
        FieldName::Phi => "Phi",
        FieldName::AMagnitude => "AMagnitude",
        FieldName::EMagnitude => "EMagnitude",
        FieldName::BMagnitude => "BMagnitude",
        FieldName::JMagnitude => "JMagnitude",
        FieldName::CField => "CField",
        FieldName::PoyntingMag => "PoyntingMag",
        FieldName::EnergyDensity => "EnergyDensity",
        FieldName::PhiG => "PhiG",
        FieldName::EgMagnitude => "EgMagnitude",
        FieldName::BgMagnitude => "BgMagnitude",
    }
}

/// The text a solve result carries for a warning.
pub open spec fn warning_text(w: SolveWarning) -> Seq<char> {
    match w {
        SolveWarning::NoWireSegments =>
            "No wire segments generated — check coil parameters (radius, turns, pitch)."@,
        SolveWarning::SlwNeedsTimeDomain =>
            "GEM SLW-mediated coupling requires time-domain mode. Enable it in the Mode section (or switch to KK-direct)."@,
        SolveWarning::LiTorrWithoutSource =>
            "GEM Li-Torr mode is on but no entity has `superconducting=true` with non-zero angular_velocity_rad_s."@,
        SolveWarning::VolumeFallback(f) => "Volume field "@ + field_variant_name(f)
            + " not yet implemented — falling back to B_magnitude."@,
    }
}

/// The text of a warning.
pub fn warning_message(w: SolveWarning) -> (r: String)
    ensures
        r@ == warning_text(w),
{
    match w {
        SolveWarning::NoWireSegments => String::from_str(
            "No wire segments generated — check coil parameters (radius, turns, pitch).",
        ),
        SolveWarning::SlwNeedsTimeDomain => String::from_str(
            "GEM SLW-mediated coupling requires time-domain mode. Enable it in the Mode section (or switch to KK-direct).",
        ),
        SolveWarning::LiTorrWithoutSource => String::from_str(
            "GEM Li-Torr mode is on but no entity has `superconducting=true` with non-zero angular_velocity_rad_s.",
        ),
        SolveWarning::VolumeFallback(f) => {
            let mut s = String::from_str("Volume field ");
            s.append(field_variant_label(f));
            s.append(" not yet implemented — falling back to B_magnitude.");
            s
        },
    }
}

/// The text of a refusal.
pub open spec fn rejection_text(r: SolveRejection) -> Seq<char> {
    match r {
        SolveRejection::NoEntities => "At least one coil entity is required"@,
    }
}

/// The text of a refusal.
pub fn rejection_message(r: SolveRejection) -> (s: String)
    ensures
        s@ == rejection_text(r),
{
    match r {
        SolveRejection::NoEntities => String::from_str("At least one coil entity is required"),
    }
}

} // verus!
