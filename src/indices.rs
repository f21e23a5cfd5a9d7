use vstd::prelude::*;

verus! {

/// Thermodynamic phase labels known to the native engine.
#[derive(Clone, Copy, Debug, PartialEq, Eq, Hash, Structural)]
pub enum Phase {
    Liquid,
    Supercritical,
    SupercriticalGas,
    SupercriticalLiquid,
    CriticalPoint,
    Gas,
    TwoPhase,
    Unknown,
    NotImposed,
}

/// The integer code that the native engine uses for each phase.
pub open spec fn phase_code(p: Phase) -> int {
    match p {
        Phase::Liquid => 0,
        Phase::Supercritical => 1,
        Phase::SupercriticalGas => 2,
        Phase::SupercriticalLiquid => 3,
        Phase::CriticalPoint => 4,
        Phase::Gas => 5,
        Phase::TwoPhase => 6,
        Phase::Unknown => 7,
        Phase::NotImposed => 8,
    }
}

/// The token that imposes a phase on a state object.
pub open spec fn specifier_text(p: Phase) -> Seq<char> {
    match p {
        Phase::Liquid => "phase_liquid"@,
        Phase::Supercritical => "phase_supercritical"@,
        Phase::SupercriticalGas => "phase_supercritical_gas"@,
        Phase::SupercriticalLiquid => "phase_supercritical_liquid"@,
        Phase::CriticalPoint => "phase_critical_point"@,
        Phase::Gas => "phase_gas"@,
        Phase::TwoPhase => "phase_twophase"@,
        Phase::Unknown => "phase_unknown"@,
        Phase::NotImposed => "phase_not_imposed"@,
    }
}

/// The token that selects a saturation branch, for the phases that have one.
pub open spec fn saturation_text(p: Phase) -> Option<Seq<char>> {
    match p {
        Phase::Liquid => Some("liquid"@),
        Phase::Gas => Some("gas"@),
        Phase::TwoPhase => Some("twophase"@),
        _ => None,
    }
}

impl Phase {
    /// Maps a native phase code to its label; codes outside `0..=8` have none.
    pub fn from_code(code: i64) -> (r: Option<Phase>)
        ensures
            match r {
                Some(p) => phase_code(p) == code,
                None => code < 0 || code > 8,
            },
    {
        match code {
            0 => Some(Phase::Liquid),
            1 => Some(Phase::Supercritical),
            2 => Some(Phase::SupercriticalGas),
            3 => Some(Phase::SupercriticalLiquid),
            4 => Some(Phase::CriticalPoint),
            5 => Some(Phase::Gas),
            6 => Some(Phase::TwoPhase),
            7 => Some(Phase::Unknown),
            8 => Some(Phase::NotImposed),
            _ => None,
        }
    }

    /// The native code of this phase.
    pub fn code(self) -> (r: i64)
        ensures
            r == phase_code(self),
    {
        match self {
            Phase::Liquid => 0,
            Phase::Supercritical => 1,
            Phase::SupercriticalGas => 2,
            Phase::SupercriticalLiquid => 3,
            Phase::CriticalPoint => 4,
            Phase::Gas => 5,
            Phase::TwoPhase => 6,
            Phase::Unknown => 7,
            Phase::NotImposed => 8,
        }
    }

    /// The token handed to the native engine to impose this phase.
    pub fn specifier_token(self) -> (r: &'static str)
        ensures
            r@ == specifier_text(self),
    {
        match self {
            Phase::Liquid => "phase_liquid",
            Phase::Supercritical => "phase_supercritical",
            Phase::SupercriticalGas => "phase_supercritical_gas",
            Phase::SupercriticalLiquid => "phase_supercritical_liquid",
            Phase::CriticalPoint => "phase_critical_point",
            Phase::Gas => "phase_gas",
            Phase::TwoPhase => "phase_twophase",
            Phase::Unknown => "phase_unknown",
            Phase::NotImposed => "phase_not_imposed",
        }
    }

    /// The saturation token of this phase: only liquid, gas and two-phase have one.
    pub fn saturation_token(self) -> (r: Option<&'static str>)
        ensures
            match r {
                Some(t) => saturation_text(self) == Some(t@),
                None => saturation_text(self) is None,
            },
    {
        match self {
            Phase::Liquid => Some("liquid"),
            Phase::Gas => Some("gas"),
            Phase::TwoPhase => Some("twophase"),
            _ => None,
        }
    }
}

/// A code names at most one phase, and every phase is named by its own code.
pub proof fn lemma_phase_code_round_trip(p: Phase, q: Phase)
    ensures
        0 <= phase_code(p) <= 8,
        phase_code(p) == phase_code(q) ==> p == q,
{
}

/// The pairs of state variables that can fix a thermodynamic state.
#[derive(Clone, Copy, Debug, PartialEq, Eq, Hash, Structural)]
pub enum InputPair {
    PT,
    QT,
    PQ,
    QSmolar,
    QSmass,
    HmolarQ,
    HmassQ,
    DmolarQ,
    DmassQ,
    HmolarP,
    HmassP,
    PSmolar,
    PSmass,
    PUmolar,
    PUmass,
    HmolarSmolar,
    HmassSmass,
    SmolarT,
    SmassT,
    DmolarT,
    DmassT,
    DmolarP,
    DmassP,
    DmolarHmolar,
    DmassHmass,
    DmolarSmolar,
    DmassSmass,
    DmolarUmolar,
    DmassUmass,
    HmolarT,
    HmassT,
    TUmolar,
    TUmass,
}

pub const INPUT_PAIR_COUNT: usize = 33;

/// The position of each input pair in the engine's index table.
pub open spec fn pair_index(x: InputPair) -> int {
    match x {
        InputPair::PT => 0,
        InputPair::QT => 1,
        InputPair::PQ => 2,
        InputPair::QSmolar => 3,
        InputPair::QSmass => 4,
        InputPair::HmolarQ => 5,
        InputPair::HmassQ => 6,
        InputPair::DmolarQ => 7,
        InputPair::DmassQ => 8,
        InputPair::HmolarP => 9,
        InputPair::HmassP => 10,
        InputPair::PSmolar => 11,
        InputPair::PSmass => 12,
        InputPair::PUmolar => 13,
        InputPair::PUmass => 14,
        InputPair::HmolarSmolar => 15,
        InputPair::HmassSmass => 16,
        InputPair::SmolarT => 17,
        InputPair::SmassT => 18,
        InputPair::DmolarT => 19,
        InputPair::DmassT => 20,
        InputPair::DmolarP => 21,
        InputPair::DmassP => 22,
        InputPair::DmolarHmolar => 23,
        InputPair::DmassHmass => 24,
        InputPair::DmolarSmolar => 25,
        InputPair::DmassSmass => 26,
        InputPair::DmolarUmolar => 27,
        InputPair::DmassUmass => 28,
        InputPair::HmolarT => 29,
        InputPair::HmassT => 30,
        InputPair::TUmolar => 31,
        InputPair::TUmass => 32,
    }
}

/// The name by which the engine knows each input pair.
pub open spec fn pair_name(x: InputPair) -> Seq<char> {
    match x {
        InputPair::PT => "PT_INPUTS"@,
        InputPair::QT => "QT_INPUTS"@,
        InputPair::PQ => "PQ_INPUTS"@,
        InputPair::QSmolar => "QSmolar_INPUTS"@,
        InputPair::QSmass => "QSmass_INPUTS"@,
        InputPair::HmolarQ => "HmolarQ_INPUTS"@,
        InputPair::HmassQ => "HmassQ_INPUTS"@,
        InputPair::DmolarQ => "DmolarQ_INPUTS"@,
        InputPair::DmassQ => "DmassQ_INPUTS"@,
        InputPair::HmolarP => "HmolarP_INPUTS"@,
        InputPair::HmassP => "HmassP_INPUTS"@,
        InputPair::PSmolar => "PSmolar_INPUTS"@,
        InputPair::PSmass => "PSmass_INPUTS"@,
        InputPair::PUmolar => "PUmolar_INPUTS"@,
        InputPair::PUmass => "PUmass_INPUTS"@,
        InputPair::HmolarSmolar => "HmolarSmolar_INPUTS"@,
        InputPair::HmassSmass => "HmassSmass_INPUTS"@,
        InputPair::SmolarT => "SmolarT_INPUTS"@,
        InputPair::SmassT => "SmassT_INPUTS"@,
        InputPair::DmolarT => "DmolarT_INPUTS"@,
        InputPair::DmassT => "DmassT_INPUTS"@,
        InputPair::DmolarP => "DmolarP_INPUTS"@,
        InputPair::DmassP => "DmassP_INPUTS"@,
        InputPair::DmolarHmolar => "DmolarHmolar_INPUTS"@,
        InputPair::DmassHmass => "DmassHmass_INPUTS"@,
        InputPair::DmolarSmolar => "DmolarSmolar_INPUTS"@,
        InputPair::DmassSmass => "DmassSmass_INPUTS"@,
        InputPair::DmolarUmolar => "DmolarUmolar_INPUTS"@,
        InputPair::DmassUmass => "DmassUmass_INPUTS"@,
        InputPair::HmolarT => "HmolarT_INPUTS"@,
        InputPair::HmassT => "HmassT_INPUTS"@,
        InputPair::TUmolar => "TUmolar_INPUTS"@,
        InputPair::TUmass => "TUmass_INPUTS"@,
    }
}

impl InputPair {
    /// The position of this input pair in the engine's index table.
    pub fn index(self) -> (r: usize)
        ensures
            r == pair_index(self),
    {
        match self {
            InputPair::PT => 0,
            InputPair::QT => 1,
            InputPair::PQ => 2,
            InputPair::QSmolar => 3,
            InputPair::QSmass => 4,
            InputPair::HmolarQ => 5,
            InputPair::HmassQ => 6,
            InputPair::DmolarQ => 7,
            InputPair::DmassQ => 8,
            InputPair::HmolarP => 9,
            InputPair::HmassP => 10,
            InputPair::PSmolar => 11,
            InputPair::PSmass => 12,
            InputPair::PUmolar => 13,
            InputPair::PUmass => 14,
            InputPair::HmolarSmolar => 15,
            InputPair::HmassSmass => 16,
            InputPair::SmolarT => 17,
            InputPair::SmassT => 18,
            InputPair::DmolarT => 19,
            InputPair::DmassT => 20,
            InputPair::DmolarP => 21,
            InputPair::DmassP => 22,
            InputPair::DmolarHmolar => 23,
            InputPair::DmassHmass => 24,
            InputPair::DmolarSmolar => 25,
            InputPair::DmassSmass => 26,
            InputPair::DmolarUmolar => 27,
            InputPair::DmassUmass => 28,
            InputPair::HmolarT => 29,
            InputPair::HmassT => 30,
            InputPair::TUmolar => 31,
            InputPair::TUmass => 32,
        }
    }

    /// The input pair at position `i` of the index table, if there is one.
    pub fn from_index(i: usize) -> (r: Option<InputPair>)
        ensures
            match r {
                Some(x) => pair_index(x) == i,
                None => i >= INPUT_PAIR_COUNT,
            },
    {
        match i {
            0 => Some(InputPair::PT),
            1 => Some(InputPair::QT),
            2 => Some(InputPair::PQ),
            3 => Some(InputPair::QSmolar),
            4 => Some(InputPair::QSmass),
            5 => Some(InputPair::HmolarQ),
            6 => Some(InputPair::HmassQ),
            7 => Some(InputPair::DmolarQ),
            8 => Some(InputPair::DmassQ),
            9 => Some(InputPair::HmolarP),
            10 => Some(InputPair::HmassP),
            11 => Some(InputPair::PSmolar),
            12 => Some(InputPair::PSmass),
            13 => Some(InputPair::PUmolar),
            14 => Some(InputPair::PUmass),
            15 => Some(InputPair::HmolarSmolar),
            16 => Some(InputPair::HmassSmass),
            17 => Some(InputPair::SmolarT),
            18 => Some(InputPair::SmassT),
            19 => Some(InputPair::DmolarT),
            20 => Some(InputPair::DmassT),
            21 => Some(InputPair::DmolarP),
            22 => Some(InputPair::DmassP),
            23 => Some(InputPair::DmolarHmolar),
            24 => Some(InputPair::DmassHmass),
            25 => Some(InputPair::DmolarSmolar),
            26 => Some(InputPair::DmassSmass),
            27 => Some(InputPair::DmolarUmolar),
            28 => Some(InputPair::DmassUmass),
            29 => Some(InputPair::HmolarT),
            30 => Some(InputPair::HmassT),
            31 => Some(InputPair::TUmolar),
            32 => Some(InputPair::TUmass),
            _ => None,
        }
    }

    /// The name by which the engine knows this input pair.
    pub fn as_coolprop_str(self) -> (r: &'static str)
        ensures
            r@ == pair_name(self),
    {
        match self {
            InputPair::PT => "PT_INPUTS",
            InputPair::QT => "QT_INPUTS",
            InputPair::PQ => "PQ_INPUTS",
            InputPair::QSmolar => "QSmolar_INPUTS",
            InputPair::QSmass => "QSmass_INPUTS",
            InputPair::HmolarQ => "HmolarQ_INPUTS",
            InputPair::HmassQ => "HmassQ_INPUTS",
            InputPair::DmolarQ => "DmolarQ_INPUTS",
            InputPair::DmassQ => "DmassQ_INPUTS",
            InputPair::HmolarP => "HmolarP_INPUTS",
            InputPair::HmassP => "HmassP_INPUTS",
            InputPair::PSmolar => "PSmolar_INPUTS",
            InputPair::PSmass => "PSmass_INPUTS",
            InputPair::PUmolar => "PUmolar_INPUTS",
            InputPair::PUmass => "PUmass_INPUTS",
            InputPair::HmolarSmolar => "HmolarSmolar_INPUTS",
            InputPair::HmassSmass => "HmassSmass_INPUTS",
            InputPair::SmolarT => "SmolarT_INPUTS",
            InputPair::SmassT => "SmassT_INPUTS",
            InputPair::DmolarT => "DmolarT_INPUTS",
            InputPair::DmassT => "DmassT_INPUTS",
            InputPair::DmolarP => "DmolarP_INPUTS",
            InputPair::DmassP => "DmassP_INPUTS",
            InputPair::DmolarHmolar => "DmolarHmolar_INPUTS",
            InputPair::DmassHmass => "DmassHmass_INPUTS",
            InputPair::DmolarSmolar => "DmolarSmolar_INPUTS",
            InputPair::DmassSmass => "DmassSmass_INPUTS",
            InputPair::DmolarUmolar => "DmolarUmolar_INPUTS",
            InputPair::DmassUmass => "DmassUmass_INPUTS",
            InputPair::HmolarT => "HmolarT_INPUTS",
            InputPair::HmassT => "HmassT_INPUTS",
            InputPair::TUmolar => "TUmolar_INPUTS",
            InputPair::TUmass => "TUmass_INPUTS",
        }
    }

    /// Every input pair, in index order.
    pub fn all() -> (r: Vec<InputPair>)
        ensures
            r@.len() == INPUT_PAIR_COUNT,
            forall|i: int| 0 <= i < INPUT_PAIR_COUNT ==> pair_index(#[trigger] r@[i]) == i,
    {
        let mut out: Vec<InputPair> = Vec::new();
        let mut i: usize = 0;
        while i < INPUT_PAIR_COUNT
            invariant
                i <= INPUT_PAIR_COUNT,
                out@.len() == i,
                forall|j: int| 0 <= j < i ==> pair_index(#[trigger] out@[j]) == j,
            decreases INPUT_PAIR_COUNT - i,
        {
            match InputPair::from_index(i) {
                Some(x) => out.push(x),
                None => {},
            }
            i = i + 1;
        }
        out
    }
}

/// Distinct input pairs sit at distinct positions, all below `INPUT_PAIR_COUNT`.
pub proof fn lemma_pair_index_injective(a: InputPair, b: InputPair)
    ensures
        0 <= pair_index(a) < INPUT_PAIR_COUNT,
        pair_index(a) == pair_index(b) ==> a == b,
{
}

/// The properties that can be requested from a state.
#[derive(Clone, Copy, Debug, PartialEq, Eq, Hash, Structural)]
pub enum Param {
    T,
    P,
    Dmolar,
    Hmolar,
    Smolar,
    Umolar,
    Gmolar,
    Helmholtzmolar,
    Dmass,
    Hmass,
    Smass,
    Umass,
    Gmass,
    Helmholtzmass,
    Q,
    Delta,
    Tau,
    Cpmolar,
    Cpmass,
    Cvmolar,
    Cvmass,
    Cp0molar,
    Cp0mass,
    HmolarResidual,
    SmolarResidual,
    GmolarResidual,
    HmolarIdealgas,
    SmolarIdealgas,
    UmolarIdealgas,
    HmassIdealgas,
    SmassIdealgas,
    UmassIdealgas,
    Gwp20,
    Gwp100,
    Gwp500,
    Fh,
    Hh,
    Ph,
    Odp,
    Bvirial,
    Cvirial,
    DBvirialDt,
    DCvirialDt,
    GasConstant,
    MolarMass,
    Acentric,
    DipoleMoment,
    RhomassReducing,
    RhomolarReducing,
    RhomolarCritical,
    RhomassCritical,
    TReducing,
    TCritical,
    TTriple,
    TMax,
    TMin,
    PMin,
    PMax,
    PCritical,
    PReducing,
    PTriple,
    FractionMin,
    FractionMax,
    TFreeze,
    SpeedOfSound,
    Viscosity,
    Conductivity,
    SurfaceTension,
    Prandtl,
    IsothermalCompressibility,
    IsobaricExpansionCoefficient,
    IsentropicExpansionCoefficient,
    Z,
    FundamentalDerivativeOfGasDynamics,
    Pip,
    Alphar,
    DalpharDtauConstdelta,
    DalpharDdeltaConsttau,
    Alpha0,
    Dalpha0DtauConstdelta,
    Dalpha0DdeltaConsttau,
    D2Alpha0Ddelta2Consttau,
    D3Alpha0Ddelta3Consttau,
    Phase,
}

pub const PARAM_COUNT: usize = 84;

/// The position of each parameter in the engine's index table.
pub open spec fn param_index(x: Param) -> int {
    match x {
        Param::T => 0,
        Param::P => 1,
        Param::Dmolar => 2,
        Param::Hmolar => 3,
        Param::Smolar => 4,
        Param::Umolar => 5,
        Param::Gmolar => 6,
        Param::Helmholtzmolar => 7,
        Param::Dmass => 8,
        Param::Hmass => 9,
        Param::Smass => 10,
        Param::Umass => 11,
        Param::Gmass => 12,
        Param::Helmholtzmass => 13,
        Param::Q => 14,
        Param::Delta => 15,
        Param::Tau => 16,
        Param::Cpmolar => 17,
        Param::Cpmass => 18,
        Param::Cvmolar => 19,
        Param::Cvmass => 20,
        Param::Cp0molar => 21,
        Param::Cp0mass => 22,
        Param::HmolarResidual => 23,
        Param::SmolarResidual => 24,
        Param::GmolarResidual => 25,
        Param::HmolarIdealgas => 26,
        Param::SmolarIdealgas => 27,
        Param::UmolarIdealgas => 28,
        Param::HmassIdealgas => 29,
        Param::SmassIdealgas => 30,
        Param::UmassIdealgas => 31,
        Param::Gwp20 => 32,
        Param::Gwp100 => 33,
        Param::Gwp500 => 34,
        Param::Fh => 35,
        Param::Hh => 36,
        Param::Ph => 37,
        Param::Odp => 38,
        Param::Bvirial => 39,
        Param::Cvirial => 40,
        Param::DBvirialDt => 41,
        Param::DCvirialDt => 42,
        Param::GasConstant => 43,
        Param::MolarMass => 44,
        Param::Acentric => 45,
        Param::DipoleMoment => 46,
        Param::RhomassReducing => 47,
        Param::RhomolarReducing => 48,
        Param::RhomolarCritical => 49,
        Param::RhomassCritical => 50,
        Param::TReducing => 51,
        Param::TCritical => 52,
        Param::TTriple => 53,
        Param::TMax => 54,
        Param::TMin => 55,
        Param::PMin => 56,
        Param::PMax => 57,
        Param::PCritical => 58,
        Param::PReducing => 59,
        Param::PTriple => 60,
        Param::FractionMin => 61,
        Param::FractionMax => 62,
        Param::TFreeze => 63,
        Param::SpeedOfSound => 64,
        Param::Viscosity => 65,
        Param::Conductivity => 66,
        Param::SurfaceTension => 67,
        Param::Prandtl => 68,
        Param::IsothermalCompressibility => 69,
        Param::IsobaricExpansionCoefficient => 70,
        Param::IsentropicExpansionCoefficient => 71,
        Param::Z => 72,
        Param::FundamentalDerivativeOfGasDynamics => 73,
        Param::Pip => 74,
        Param::Alphar => 75,
        Param::DalpharDtauConstdelta => 76,
        Param::DalpharDdeltaConsttau => 77,
        Param::Alpha0 => 78,
        Param::Dalpha0DtauConstdelta => 79,
        Param::Dalpha0DdeltaConsttau => 80,
        Param::D2Alpha0Ddelta2Consttau => 81,
        Param::D3Alpha0Ddelta3Consttau => 82,
        Param::Phase => 83,
    }
}

/// The name by which the engine knows each parameter.
pub open spec fn param_name(x: Param) -> Seq<char> {
    match x {
        Param::T => "T"@,
        Param::P => "P"@,
        Param::Dmolar => "Dmolar"@,
        Param::Hmolar => "Hmolar"@,
        Param::Smolar => "Smolar"@,
        Param::Umolar => "Umolar"@,
        Param::Gmolar => "Gmolar"@,
        Param::Helmholtzmolar => "Helmholtzmolar"@,
        Param::Dmass => "Dmass"@,
        Param::Hmass => "Hmass"@,
        Param::Smass => "Smass"@,
        Param::Umass => "Umass"@,
        Param::Gmass => "Gmass"@,
        Param::Helmholtzmass => "Helmholtzmass"@,
        Param::Q => "Q"@,
        Param::Delta => "Delta"@,
        Param::Tau => "Tau"@,
        Param::Cpmolar => "Cpmolar"@,
        Param::Cpmass => "Cpmass"@,
        Param::Cvmolar => "Cvmolar"@,
        Param::Cvmass => "Cvmass"@,
        Param::Cp0molar => "Cp0molar"@,
        Param::Cp0mass => "Cp0mass"@,
        Param::HmolarResidual => "Hmolar_residual"@,
        Param::SmolarResidual => "Smolar_residual"@,
        Param::GmolarResidual => "Gmolar_residual"@,
        Param::HmolarIdealgas => "Hmolar_idealgas"@,
        Param::SmolarIdealgas => "Smolar_idealgas"@,
        Param::UmolarIdealgas => "Umolar_idealgas"@,
        Param::HmassIdealgas => "Hmass_idealgas"@,
        Param::SmassIdealgas => "Smass_idealgas"@,
        Param::UmassIdealgas => "Umass_idealgas"@,
        Param::Gwp20 => "GWP20"@,
        Param::Gwp100 => "GWP100"@,
        Param::Gwp500 => "GWP500"@,
        Param::Fh => "FH"@,
        Param::Hh => "HH"@,
        Param::Ph => "PH"@,
        Param::Odp => "ODP"@,
        Param::Bvirial => "Bvirial"@,
        Param::Cvirial => "Cvirial"@,
        Param::DBvirialDt => "dBvirial_dT"@,
        Param::DCvirialDt => "dCvirial_dT"@,
        Param::GasConstant => "gas_constant"@,
        Param::MolarMass => "molar_mass"@,
        Param::Acentric => "acentric"@,
        Param::DipoleMoment => "dipole_moment"@,
        Param::RhomassReducing => "rhomass_reducing"@,
        Param::RhomolarReducing => "rhomolar_reducing"@,
        Param::RhomolarCritical => "rhomolar_critical"@,
        Param::RhomassCritical => "rhomass_critical"@,
        Param::TReducing => "T_reducing"@,
        Param::TCritical => "T_critical"@,
        Param::TTriple => "T_triple"@,
        Param::TMax => "T_max"@,
        Param::TMin => "T_min"@,
        Param::PMin => "P_min"@,
        Param::PMax => "P_max"@,
        Param::PCritical => "p_critical"@,
        Param::PReducing => "p_reducing"@,
        Param::PTriple => "p_triple"@,
        Param::FractionMin => "fraction_min"@,
        Param::FractionMax => "fraction_max"@,
        Param::TFreeze => "T_freeze"@,
        Param::SpeedOfSound => "speed_of_sound"@,
        Param::Viscosity => "viscosity"@,
        Param::Conductivity => "conductivity"@,
        Param::SurfaceTension => "surface_tension"@,
        Param::Prandtl => "Prandtl"@,
        Param::IsothermalCompressibility => "isothermal_compressibility"@,
        Param::IsobaricExpansionCoefficient => "isobaric_expansion_coefficient"@,
        Param::IsentropicExpansionCoefficient => "isentropic_expansion_coefficient"@,
        Param::Z => "Z"@,
        Param::FundamentalDerivativeOfGasDynamics => "fundamental_derivative_of_gas_dynamics"@,
        Param::Pip => "PIP"@,
        Param::Alphar => "alphar"@,
        Param::DalpharDtauConstdelta => "dalphar_dtau_constdelta"@,
        Param::DalpharDdeltaConsttau => "dalphar_ddelta_consttau"@,
        Param::Alpha0 => "alpha0"@,
        Param::Dalpha0DtauConstdelta => "dalpha0_dtau_constdelta"@,
        Param::Dalpha0DdeltaConsttau => "dalpha0_ddelta_consttau"@,
        Param::D2Alpha0Ddelta2Consttau => "d2alpha0_ddelta2_consttau"@,
        Param::D3Alpha0Ddelta3Consttau => "d3alpha0_ddelta3_consttau"@,
        Param::Phase => "Phase"@,
    }
}

impl Param {
    /// The position of this parameter in the engine's index table.
    pub fn index(self) -> (r: usize)
        ensures
            r == param_index(self),
    {
        match self {
            Param::T => 0,
            Param::P => 1,
            Param::Dmolar => 2,
            Param::Hmolar => 3,
            Param::Smolar => 4,
            Param::Umolar => 5,
            Param::Gmolar => 6,
            Param::Helmholtzmolar => 7,
            Param::Dmass => 8,
            Param::Hmass => 9,
            Param::Smass => 10,
            Param::Umass => 11,
            Param::Gmass => 12,
            Param::Helmholtzmass => 13,
            Param::Q => 14,
            Param::Delta => 15,
            Param::Tau => 16,
            Param::Cpmolar => 17,
            Param::Cpmass => 18,
            Param::Cvmolar => 19,
            Param::Cvmass => 20,
            Param::Cp0molar => 21,
            Param::Cp0mass => 22,
            Param::HmolarResidual => 23,
            Param::SmolarResidual => 24,
            Param::GmolarResidual => 25,
            Param::HmolarIdealgas => 26,
            Param::SmolarIdealgas => 27,
            Param::UmolarIdealgas => 28,
            Param::HmassIdealgas => 29,
            Param::SmassIdealgas => 30,
            Param::UmassIdealgas => 31,
            Param::Gwp20 => 32,
            Param::Gwp100 => 33,
            Param::Gwp500 => 34,
            Param::Fh => 35,
            Param::Hh => 36,
            Param::Ph => 37,
            Param::Odp => 38,
            Param::Bvirial => 39,
            Param::Cvirial => 40,
            Param::DBvirialDt => 41,
            Param::DCvirialDt => 42,
            Param::GasConstant => 43,
            Param::MolarMass => 44,
            Param::Acentric => 45,
            Param::DipoleMoment => 46,
            Param::RhomassReducing => 47,
            Param::RhomolarReducing => 48,
            Param::RhomolarCritical => 49,
            Param::RhomassCritical => 50,
            Param::TReducing => 51,
            Param::TCritical => 52,
            Param::TTriple => 53,
            Param::TMax => 54,
            Param::TMin => 55,
            Param::PMin => 56,
            Param::PMax => 57,
            Param::PCritical => 58,
            Param::PReducing => 59,
            Param::PTriple => 60,
            Param::FractionMin => 61,
            Param::FractionMax => 62,
            Param::TFreeze => 63,
            Param::SpeedOfSound => 64,
            Param::Viscosity => 65,
            Param::Conductivity => 66,
            Param::SurfaceTension => 67,
            Param::Prandtl => 68,
            Param::IsothermalCompressibility => 69,
            Param::IsobaricExpansionCoefficient => 70,
            Param::IsentropicExpansionCoefficient => 71,
            Param::Z => 72,
            Param::FundamentalDerivativeOfGasDynamics => 73,
            Param::Pip => 74,
            Param::Alphar => 75,
            Param::DalpharDtauConstdelta => 76,
            Param::DalpharDdeltaConsttau => 77,
            Param::Alpha0 => 78,
            Param::Dalpha0DtauConstdelta => 79,
            Param::Dalpha0DdeltaConsttau => 80,
            Param::D2Alpha0Ddelta2Consttau => 81,
            Param::D3Alpha0Ddelta3Consttau => 82,
            Param::Phase => 83,
        }
    }

    /// The parameter at position `i` of the index table, if there is one.
    pub fn from_index(i: usize) -> (r: Option<Param>)
        ensures
            match r {
                Some(x) => param_index(x) == i,
                None => i >= PARAM_COUNT,
            },
    {
        match i {
            0 => Some(Param::T),
            1 => Some(Param::P),
            2 => Some(Param::Dmolar),
            3 => Some(Param::Hmolar),
            4 => Some(Param::Smolar),
            5 => Some(Param::Umolar),
            6 => Some(Param::Gmolar),
            7 => Some(Param::Helmholtzmolar),
            8 => Some(Param::Dmass),
            9 => Some(Param::Hmass),
            10 => Some(Param::Smass),
            11 => Some(Param::Umass),
            12 => Some(Param::Gmass),
            13 => Some(Param::Helmholtzmass),
            14 => Some(Param::Q),
            15 => Some(Param::Delta),
            16 => Some(Param::Tau),
            17 => Some(Param::Cpmolar),
            18 => Some(Param::Cpmass),
            19 => Some(Param::Cvmolar),
            20 => Some(Param::Cvmass),
            21 => Some(Param::Cp0molar),
            22 => Some(Param::Cp0mass),
            23 => Some(Param::HmolarResidual),
            24 => Some(Param::SmolarResidual),
            25 => Some(Param::GmolarResidual),
            26 => Some(Param::HmolarIdealgas),
            27 => Some(Param::SmolarIdealgas),
            28 => Some(Param::UmolarIdealgas),
            29 => Some(Param::HmassIdealgas),
            30 => Some(Param::SmassIdealgas),
            31 => Some(Param::UmassIdealgas),
            32 => Some(Param::Gwp20),
            33 => Some(Param::Gwp100),
            34 => Some(Param::Gwp500),
            35 => Some(Param::Fh),
            36 => Some(Param::Hh),
            37 => Some(Param::Ph),
            38 => Some(Param::Odp),
            39 => Some(Param::Bvirial),
            40 => Some(Param::Cvirial),
            41 => Some(Param::DBvirialDt),
            42 => Some(Param::DCvirialDt),
            43 => Some(Param::GasConstant),
            44 => Some(Param::MolarMass),
            45 => Some(Param::Acentric),
            46 => Some(Param::DipoleMoment),
            47 => Some(Param::RhomassReducing),
            48 => Some(Param::RhomolarReducing),
            49 => Some(Param::RhomolarCritical),
            50 => Some(Param::RhomassCritical),
            51 => Some(Param::TReducing),
            52 => Some(Param::TCritical),
            53 => Some(Param::TTriple),
            54 => Some(Param::TMax),
            55 => Some(Param::TMin),
            56 => Some(Param::PMin),
            57 => Some(Param::PMax),
            58 => Some(Param::PCritical),
            59 => Some(Param::PReducing),
            60 => Some(Param::PTriple),
            61 => Some(Param::FractionMin),
            62 => Some(Param::FractionMax),
            63 => Some(Param::TFreeze),
            64 => Some(Param::SpeedOfSound),
            65 => Some(Param::Viscosity),
            66 => Some(Param::Conductivity),
            67 => Some(Param::SurfaceTension),
            68 => Some(Param::Prandtl),
            69 => Some(Param::IsothermalCompressibility),
            70 => Some(Param::IsobaricExpansionCoefficient),
            71 => Some(Param::IsentropicExpansionCoefficient),
            72 => Some(Param::Z),
            73 => Some(Param::FundamentalDerivativeOfGasDynamics),
            74 => Some(Param::Pip),
            75 => Some(Param::Alphar),
            76 => Some(Param::DalpharDtauConstdelta),
            77 => Some(Param::DalpharDdeltaConsttau),
            78 => Some(Param::Alpha0),
            79 => Some(Param::Dalpha0DtauConstdelta),
            80 => Some(Param::Dalpha0DdeltaConsttau),
            81 => Some(Param::D2Alpha0Ddelta2Consttau),
            82 => Some(Param::D3Alpha0Ddelta3Consttau),
            83 => Some(Param::Phase),
            _ => None,
        }
    }

    /// The name by which the engine knows this parameter.
    pub fn as_coolprop_str(self) -> (r: &'static str)
        ensures
            r@ == param_name(self),
    {
        match self {
            Param::T => "T",
            Param::P => "P",
            Param::Dmolar => "Dmolar",
            Param::Hmolar => "Hmolar",
            Param::Smolar => "Smolar",
            Param::Umolar => "Umolar",
            Param::Gmolar => "Gmolar",
            Param::Helmholtzmolar => "Helmholtzmolar",
            Param::Dmass => "Dmass",
            Param::Hmass => "Hmass",
            Param::Smass => "Smass",
            Param::Umass => "Umass",
            Param::Gmass => "Gmass",
            Param::Helmholtzmass => "Helmholtzmass",
            Param::Q => "Q",
            Param::Delta => "Delta",
            Param::Tau => "Tau",
            Param::Cpmolar => "Cpmolar",
            Param::Cpmass => "Cpmass",
            Param::Cvmolar => "Cvmolar",
            Param::Cvmass => "Cvmass",
            Param::Cp0molar => "Cp0molar",
            Param::Cp0mass => "Cp0mass",
            Param::HmolarResidual => "Hmolar_residual",
            Param::SmolarResidual => "Smolar_residual",
            Param::GmolarResidual => "Gmolar_residual",
            Param::HmolarIdealgas => "Hmolar_idealgas",
            Param::SmolarIdealgas => "Smolar_idealgas",
            Param::UmolarIdealgas => "Umolar_idealgas",
            Param::HmassIdealgas => "Hmass_idealgas",
            Param::SmassIdealgas => "Smass_idealgas",
            Param::UmassIdealgas => "Umass_idealgas",
            Param::Gwp20 => "GWP20",
            Param::Gwp100 => "GWP100",
            Param::Gwp500 => "GWP500",
            Param::Fh => "FH",
            Param::Hh => "HH",
            Param::Ph => "PH",
            Param::Odp => "ODP",
            Param::Bvirial => "Bvirial",
            Param::Cvirial => "Cvirial",
            Param::DBvirialDt => "dBvirial_dT",
            Param::DCvirialDt => "dCvirial_dT",
            Param::GasConstant => "gas_constant",
            Param::MolarMass => "molar_mass",
            Param::Acentric => "acentric",
            Param::DipoleMoment => "dipole_moment",
            Param::RhomassReducing => "rhomass_reducing",
            Param::RhomolarReducing => "rhomolar_reducing",
            Param::RhomolarCritical => "rhomolar_critical",
            Param::RhomassCritical => "rhomass_critical",
            Param::TReducing => "T_reducing",
            Param::TCritical => "T_critical",
            Param::TTriple => "T_triple",
            Param::TMax => "T_max",
            Param::TMin => "T_min",
            Param::PMin => "P_min",
            Param::PMax => "P_max",
            Param::PCritical => "p_critical",
            Param::PReducing => "p_reducing",
            Param::PTriple => "p_triple",
            Param::FractionMin => "fraction_min",
            Param::FractionMax => "fraction_max",
            Param::TFreeze => "T_freeze",
            Param::SpeedOfSound => "speed_of_sound",
            Param::Viscosity => "viscosity",
            Param::Conductivity => "conductivity",
            Param::SurfaceTension => "surface_tension",
            Param::Prandtl => "Prandtl",
            Param::IsothermalCompressibility => "isothermal_compressibility",
            Param::IsobaricExpansionCoefficient => "isobaric_expansion_coefficient",
            Param::IsentropicExpansionCoefficient => "isentropic_expansion_coefficient",
            Param::Z => "Z",
            Param::FundamentalDerivativeOfGasDynamics => "fundamental_derivative_of_gas_dynamics",
            Param::Pip => "PIP",
            Param::Alphar => "alphar",
            Param::DalpharDtauConstdelta => "dalphar_dtau_constdelta",
            Param::DalpharDdeltaConsttau => "dalphar_ddelta_consttau",
            Param::Alpha0 => "alpha0",
            Param::Dalpha0DtauConstdelta => "dalpha0_dtau_constdelta",
            Param::Dalpha0DdeltaConsttau => "dalpha0_ddelta_consttau",
            Param::D2Alpha0Ddelta2Consttau => "d2alpha0_ddelta2_consttau",
            Param::D3Alpha0Ddelta3Consttau => "d3alpha0_ddelta3_consttau",
            Param::Phase => "Phase",
        }
    }

    /// Every parameter, in index order.
    pub fn all() -> (r: Vec<Param>)
        ensures
            r@.len() == PARAM_COUNT,
            forall|i: int| 0 <= i < PARAM_COUNT ==> param_index(#[trigger] r@[i]) == i,
    {
        let mut out: Vec<Param> = Vec::new();
        let mut i: usize = 0;
        while i < PARAM_COUNT
            invariant
                i <= PARAM_COUNT,
                out@.len() == i,
                forall|j: int| 0 <= j < i ==> param_index(#[trigger] out@[j]) == j,
            decreases PARAM_COUNT - i,
        {
            match Param::from_index(i) {
                Some(x) => out.push(x),
                None => {},
            }
            i = i + 1;
        }
        out
    }
}

/// Distinct parameters sit at distinct positions, all below `PARAM_COUNT`.
pub proof fn lemma_param_index_injective(a: Param, b: Param)
    ensures
        0 <= param_index(a) < PARAM_COUNT,
        param_index(a) == param_index(b) ==> a == b,
{
}

/// The engine's numeric identifiers of every input pair and parameter, looked up once
/// by name and kept in table order.
pub struct Indices {
    input_pair_ids: Vec<i64>,
    param_ids: Vec<i64>,
}

impl Indices {
    /// One identifier per input pair, in index order.
    pub closed spec fn pair_ids(&self) -> Seq<i64> {
        self.input_pair_ids@
    }

    /// One identifier per parameter, in index order.
    pub closed spec fn param_ids(&self) -> Seq<i64> {
        self.param_ids@
    }

    #[verifier::type_invariant]
    spec fn complete(&self) -> bool {
        &&& self.input_pair_ids@.len() == INPUT_PAIR_COUNT
        &&& self.param_ids@.len() == PARAM_COUNT
    }

    /// Builds the table from identifiers given in the order of `InputPair::all` and
    /// `Param::all`; fails unless there is exactly one identifier for each.
    pub fn new(input_pair_ids: Vec<i64>, param_ids: Vec<i64>) -> (r: Option<Indices>)
        ensures
            r is Some <==> (input_pair_ids@.len() == INPUT_PAIR_COUNT && param_ids@.len()
                == PARAM_COUNT),
            r matches Some(t) ==> t.pair_ids() == input_pair_ids@ && t.param_ids() == param_ids@,
    {
        if input_pair_ids.len() == INPUT_PAIR_COUNT && param_ids.len() == PARAM_COUNT {
            Some(Indices { input_pair_ids, param_ids })
        } else {
            None
        }
    }

    /// The identifier of an input pair.
    pub fn id_of_pair(&self, ip: InputPair) -> (r: i64)
        ensures
            r == self.pair_ids()[pair_index(ip)],
    {
        proof {
            use_type_invariant(self);
        }
        self.input_pair_ids[ip.index()]
    }

    /// The identifier of a parameter.
    pub fn id_of_param(&self, p: Param) -> (r: i64)
        ensures
            r == self.param_ids()[param_index(p)],
    {
        proof {
            use_type_invariant(self);
        }
        self.param_ids[p.index()]
    }
}

/// The name of each phase, as written in messages.
pub open spec fn phase_name(p: Phase) -> Seq<char> {
    match p {
        Phase::Liquid => "Liquid"@,
        Phase::Supercritical => "Supercritical"@,
        Phase::SupercriticalGas => "SupercriticalGas"@,
        Phase::SupercriticalLiquid => "SupercriticalLiquid"@,
        Phase::CriticalPoint => "CriticalPoint"@,
        Phase::Gas => "Gas"@,
        Phase::TwoPhase => "TwoPhase"@,
        Phase::Unknown => "Unknown"@,
        Phase::NotImposed => "NotImposed"@,
    }
}

impl Phase {
    /// The name of this phase, as written in messages.
    pub fn name(self) -> (r: &'static str)
        ensures
            r@ == phase_name(self),
    {
        match self {
            Phase::Liquid => "Liquid",
            Phase::Supercritical => "Supercritical",
            Phase::SupercriticalGas => "SupercriticalGas",
            Phase::SupercriticalLiquid => "SupercriticalLiquid",
            Phase::CriticalPoint => "CriticalPoint",
            Phase::Gas => "Gas",
            Phase::TwoPhase => "TwoPhase",
            Phase::Unknown => "Unknown",
            Phase::NotImposed => "NotImposed",
        }
    }
}

} // verus!
