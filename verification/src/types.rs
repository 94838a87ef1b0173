//! Shared request, output and status types.

use vstd::prelude::*;

verus! {

/// Winding geometry of a current-carrying coil.
#[derive(Clone, Copy, Debug, PartialEq, Eq, Structural)]
pub enum CoilType {
    Solenoid,
    Toroid,
    ToroidPoloidal,
    FlatSpiral,
    Rodin,
}

/// The lower-case name of a coil type, as the solver logs it.
pub open spec fn coil_type_label(t: CoilType) -> Seq<char> {
    match t {
        CoilType::Solenoid => "solenoid"@,
        CoilType::Toroid => "toroid"@,
        CoilType::ToroidPoloidal => "toroid_poloidal"@,
        CoilType::FlatSpiral => "flat_spiral"@,
        CoilType::Rodin => "rodin"@,
    }
}

impl CoilType {
    /// Logging name of the coil type.
    pub fn label(&self) -> (r: &'static str)
        ensures
            r@ == coil_type_label(*self),
    {
        match self {
            CoilType::Solenoid => "solenoid",
            CoilType::Toroid => "toroid",
            CoilType::ToroidPoloidal => "toroid_poloidal",
            CoilType::FlatSpiral => "flat_spiral",
            CoilType::Rodin => "rodin",
        }
    }
}

/// Axis normal to an extracted 2-D slice.
#[derive(Clone, Copy, Debug, PartialEq, Eq, Structural)]
pub enum SliceAxis {
    X,
    Y,
    Z,
}

/// Every field quantity the solver can output.
#[derive(Clone, Copy, Debug, PartialEq, Eq, Structural)]
pub enum FieldName {
    /// Scalar potential φ.
    Phi,
    /// |A|, vector potential magnitude.
    AMagnitude,
    /// |E| = |−∇φ − ∂A/∂t|.
    EMagnitude,
    /// |B| = |∇×A|.
    BMagnitude,
    /// |J|, current density magnitude.
    JMagnitude,
    /// C = ∇·A + (1/c²)∂φ/∂t.
    CField,
    /// Modified Poynting magnitude |E×B − E·C|.
    PoyntingMag,
    /// Modified energy density ½(E² + B² + C²).
    EnergyDensity,
    /// Gravitational scalar potential Φ_g.
    PhiG,
    /// |E_g|, gravitoelectric field magnitude.
    EgMagnitude,
    /// |B_g|, gravitomagnetic field magnitude.
    BgMagnitude,
}

/// Readiness of the GPU solver.
#[derive(Clone, Copy, Debug, PartialEq, Eq, Structural)]
pub enum SolverState {
    Initialising,
    Ready,
    Solving,
    Error,
}

/// Status report shown by the frontend before it enables solving.
#[derive(Clone, Debug)]
pub struct SolverStatus {
    pub state: SolverState,
    pub message: String,
    /// GPU adapter description.
    pub gpu_name: Option<String>,
}

/// The message of a ready status: `"GPU solver ready on "` and the adapter name.
pub open spec fn ready_message(gpu_name: Seq<char>) -> Seq<char> {
    "GPU solver ready on "@ + gpu_name
}

/// The status reported once the solver runs on the named adapter.
pub fn ready_status(gpu_name: String) -> (r: SolverStatus)
    ensures
        r.state == SolverState::Ready,
        r.message@ == ready_message(gpu_name@),
        r.gpu_name matches Some(g) && g@ == gpu_name@,
{
    let mut message = String::from_str("GPU solver ready on ");
    message.append(gpu_name.as_str());
    SolverStatus { state: SolverState::Ready, message, gpu_name: Some(gpu_name) }
}

/// Field formulation selected for a remote solve.
#[derive(Clone, Copy, Debug, PartialEq, Eq, Structural)]
pub enum FormulationType {
    ScalarOnly,
    MaxwellOnly,
    EedCoupled,
}

/// The lower-case name of a formulation.
pub open spec fn formulation_label(f: FormulationType) -> Seq<char> {
    match f {
        FormulationType::ScalarOnly => "scalar_only"@,
        FormulationType::MaxwellOnly => "maxwell_only"@,
        FormulationType::EedCoupled => "eed_coupled"@,
    }
}

impl FormulationType {
    /// Logging name of the formulation.
    pub fn label(&self) -> (r: &'static str)
        ensures
            r@ == formulation_label(*self),
    {
        match self {
            FormulationType::ScalarOnly => "scalar_only",
            FormulationType::MaxwellOnly => "maxwell_only",
            FormulationType::EedCoupled => "eed_coupled",
        }
    }
}

/// Mesh fineness selected for a remote solve.
#[derive(Clone, Copy, Debug, PartialEq, Eq, Structural)]
pub enum MeshResolution {
    Coarse,
    Medium,
    Fine,
}

/// The lower-case name of a mesh resolution.
pub open spec fn mesh_resolution_label(m: MeshResolution) -> Seq<char> {
    match m {
        MeshResolution::Coarse => "coarse"@,
        MeshResolution::Medium => "medium"@,
        MeshResolution::Fine => "fine"@,
    }
}

impl MeshResolution {
    /// Logging name of the mesh resolution.
    pub fn label(&self) -> (r: &'static str)
        ensures
            r@ == mesh_resolution_label(*self),
    {
        match self {
            MeshResolution::Coarse => "coarse",
            MeshResolution::Medium => "medium",
            MeshResolution::Fine => "fine",
        }
    }
}

} // verus!
