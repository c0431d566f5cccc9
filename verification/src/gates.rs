use vstd::prelude::*;

verus! {

/// Number of codes in the closed standard-gate enumeration.
pub const STANDARD_GATE_COUNT: u8 = 52;

/// The closed, versioned enumeration of built-in gate kinds.
///
/// The order of the variants is load-bearing: each gate's ordinal is its
/// position in the registered lookup tables below (`gate_name`,
/// `gate_class_path`, operand and parameter counts), so a gate code decoded
/// from a packed word indexes those tables directly.
#[derive(Clone, Copy, Debug, PartialEq, Eq, Structural)]
pub enum StandardGate {
    GlobalPhase,
    H,
    I,
    X,
    Y,
    Z,
    Phase,
    R,
    RX,
    RY,
    RZ,
    S,
    Sdg,
    SX,
    SXdg,
    T,
    Tdg,
    U,
    U1,
    U2,
    U3,
    CH,
    CX,
    CY,
    CZ,
    DCX,
    ECR,
    Swap,
    ISwap,
    CPhase,
    CRX,
    CRY,
    CRZ,
    CS,
    CSdg,
    CSX,
    CU,
    CU1,
    CU3,
    RXX,
    RYY,
    RZZ,
    RZX,
    XXMinusYY,
    XXPlusYY,
    CCX,
    CCZ,
    CSwap,
    RCCX,
    C3X,
    C3SX,
    RC3X,
}

/// The ordinal of a gate in the closed enumeration.
pub open spec fn gate_ordinal(g: StandardGate) -> u8 {
    match g {
        StandardGate::GlobalPhase => 0,
        StandardGate::H => 1,
        StandardGate::I => 2,
        StandardGate::X => 3,
        StandardGate::Y => 4,
        StandardGate::Z => 5,
        StandardGate::Phase => 6,
        StandardGate::R => 7,
        StandardGate::RX => 8,
        StandardGate::RY => 9,
        StandardGate::RZ => 10,
        StandardGate::S => 11,
        StandardGate::Sdg => 12,
        StandardGate::SX => 13,
        StandardGate::SXdg => 14,
        StandardGate::T => 15,
        StandardGate::Tdg => 16,
        StandardGate::U => 17,
        StandardGate::U1 => 18,
        StandardGate::U2 => 19,
        StandardGate::U3 => 20,
        StandardGate::CH => 21,
        StandardGate::CX => 22,
        StandardGate::CY => 23,
        StandardGate::CZ => 24,
        StandardGate::DCX => 25,
        StandardGate::ECR => 26,
        StandardGate::Swap => 27,
        StandardGate::ISwap => 28,
        StandardGate::CPhase => 29,
        StandardGate::CRX => 30,
        StandardGate::CRY => 31,
        StandardGate::CRZ => 32,
        StandardGate::CS => 33,
        StandardGate::CSdg => 34,
        StandardGate::CSX => 35,
        StandardGate::CU => 36,
        StandardGate::CU1 => 37,
        StandardGate::CU3 => 38,
        StandardGate::RXX => 39,
        StandardGate::RYY => 40,
        StandardGate::RZZ => 41,
        StandardGate::RZX => 42,
        StandardGate::XXMinusYY => 43,
        StandardGate::XXPlusYY => 44,
        StandardGate::CCX => 45,
        StandardGate::CCZ => 46,
        StandardGate::CSwap => 47,
        StandardGate::RCCX => 48,
        StandardGate::C3X => 49,
        StandardGate::C3SX => 50,
        StandardGate::RC3X => 51,
    }
}

/// Decode an ordinal; ordinals outside the enumeration fall back to
/// `GlobalPhase`.
pub open spec fn gate_of_ordinal(code: u8) -> StandardGate {
    if code == 0 {
        StandardGate::GlobalPhase
    } else if code == 1 {
        StandardGate::H
    } else if code == 2 {
        StandardGate::I
    } else if code == 3 {
        StandardGate::X
    } else if code == 4 {
        StandardGate::Y
    } else if code == 5 {
        StandardGate::Z
    } else if code == 6 {
        StandardGate::Phase
    } else if code == 7 {
        StandardGate::R
    } else if code == 8 {
        StandardGate::RX
    } else if code == 9 {
        StandardGate::RY
    } else if code == 10 {
        StandardGate::RZ
    } else if code == 11 {
        StandardGate::S
    } else if code == 12 {
        StandardGate::Sdg
    } else if code == 13 {
        StandardGate::SX
    } else if code == 14 {
        StandardGate::SXdg
    } else if code == 15 {
        StandardGate::T
    } else if code == 16 {
        StandardGate::Tdg
    } else if code == 17 {
        StandardGate::U
    } else if code == 18 {
        StandardGate::U1
    } else if code == 19 {
        StandardGate::U2
    } else if code == 20 {
        StandardGate::U3
    } else if code == 21 {
        StandardGate::CH
    } else if code == 22 {
        StandardGate::CX
    } else if code == 23 {
        StandardGate::CY
    } else if code == 24 {
        StandardGate::CZ
    } else if code == 25 {
        StandardGate::DCX
    } else if code == 26 {
        StandardGate::ECR
    } else if code == 27 {
        StandardGate::Swap
    } else if code == 28 {
        StandardGate::ISwap
    } else if code == 29 {
        StandardGate::CPhase
    } else if code == 30 {
        StandardGate::CRX
    } else if code == 31 {
        StandardGate::CRY
    } else if code == 32 {
        StandardGate::CRZ
    } else if code == 33 {
        StandardGate::CS
    } else if code == 34 {
        StandardGate::CSdg
    } else if code == 35 {
        StandardGate::CSX
    } else if code == 36 {
        StandardGate::CU
    } else if code == 37 {
        StandardGate::CU1
    } else if code == 38 {
        StandardGate::CU3
    } else if code == 39 {
        StandardGate::RXX
    } else if code == 40 {
        StandardGate::RYY
    } else if code == 41 {
        StandardGate::RZZ
    } else if code == 42 {
        StandardGate::RZX
    } else if code == 43 {
        StandardGate::XXMinusYY
    } else if code == 44 {
        StandardGate::XXPlusYY
    } else if code == 45 {
        StandardGate::CCX
    } else if code == 46 {
        StandardGate::CCZ
    } else if code == 47 {
        StandardGate::CSwap
    } else if code == 48 {
        StandardGate::RCCX
    } else if code == 49 {
        StandardGate::C3X
    } else if code == 50 {
        StandardGate::C3SX
    } else if code == 51 {
        StandardGate::RC3X
    } else {
        StandardGate::GlobalPhase
    }
}

/// Every gate's ordinal lies inside the closed enumeration and decodes back
/// to the same gate: the code assignment is a bijection onto `0..52`.
pub proof fn lemma_gate_ordinal_round_trip(g: StandardGate)
    ensures
        gate_ordinal(g) < STANDARD_GATE_COUNT,
        gate_of_ordinal(gate_ordinal(g)) == g,
{
}

/// The ordinal of a gate, as stored in the packed code field.
pub fn gate_code(g: StandardGate) -> (code: u8)
    ensures
        code == gate_ordinal(g),
{
    match g {
        StandardGate::GlobalPhase => 0,
        StandardGate::H => 1,
        StandardGate::I => 2,
        StandardGate::X => 3,
        StandardGate::Y => 4,
        StandardGate::Z => 5,
        StandardGate::Phase => 6,
        StandardGate::R => 7,
        StandardGate::RX => 8,
        StandardGate::RY => 9,
        StandardGate::RZ => 10,
        StandardGate::S => 11,
        StandardGate::Sdg => 12,
        StandardGate::SX => 13,
        StandardGate::SXdg => 14,
        StandardGate::T => 15,
        StandardGate::Tdg => 16,
        StandardGate::U => 17,
        StandardGate::U1 => 18,
        StandardGate::U2 => 19,
        StandardGate::U3 => 20,
        StandardGate::CH => 21,
        StandardGate::CX => 22,
        StandardGate::CY => 23,
        StandardGate::CZ => 24,
        StandardGate::DCX => 25,
        StandardGate::ECR => 26,
        StandardGate::Swap => 27,
        StandardGate::ISwap => 28,
        StandardGate::CPhase => 29,
        StandardGate::CRX => 30,
        StandardGate::CRY => 31,
        StandardGate::CRZ => 32,
        StandardGate::CS => 33,
        StandardGate::CSdg => 34,
        StandardGate::CSX => 35,
        StandardGate::CU => 36,
        StandardGate::CU1 => 37,
        StandardGate::CU3 => 38,
        StandardGate::RXX => 39,
        StandardGate::RYY => 40,
        StandardGate::RZZ => 41,
        StandardGate::RZX => 42,
        StandardGate::XXMinusYY => 43,
        StandardGate::XXPlusYY => 44,
        StandardGate::CCX => 45,
        StandardGate::CCZ => 46,
        StandardGate::CSwap => 47,
        StandardGate::RCCX => 48,
        StandardGate::C3X => 49,
        StandardGate::C3SX => 50,
        StandardGate::RC3X => 51,
    }
}

/// Decode a gate ordinal.  An ordinal outside the closed enumeration is a
/// corruption signal, not a user-facing failure, and is excluded up front.
pub fn gate_from_code(code: u8) -> (g: StandardGate)
    requires
        code < STANDARD_GATE_COUNT,
    ensures
        g == gate_of_ordinal(code),
        gate_ordinal(g) == code,
{
    let g = match code {
        0 => StandardGate::GlobalPhase,
        1 => StandardGate::H,
        2 => StandardGate::I,
        3 => StandardGate::X,
        4 => StandardGate::Y,
        5 => StandardGate::Z,
        6 => StandardGate::Phase,
        7 => StandardGate::R,
        8 => StandardGate::RX,
        9 => StandardGate::RY,
        10 => StandardGate::RZ,
        11 => StandardGate::S,
        12 => StandardGate::Sdg,
        13 => StandardGate::SX,
        14 => StandardGate::SXdg,
        15 => StandardGate::T,
        16 => StandardGate::Tdg,
        17 => StandardGate::U,
        18 => StandardGate::U1,
        19 => StandardGate::U2,
        20 => StandardGate::U3,
        21 => StandardGate::CH,
        22 => StandardGate::CX,
        23 => StandardGate::CY,
        24 => StandardGate::CZ,
        25 => StandardGate::DCX,
        26 => StandardGate::ECR,
        27 => StandardGate::Swap,
        28 => StandardGate::ISwap,
        29 => StandardGate::CPhase,
        30 => StandardGate::CRX,
        31 => StandardGate::CRY,
        32 => StandardGate::CRZ,
        33 => StandardGate::CS,
        34 => StandardGate::CSdg,
        35 => StandardGate::CSX,
        36 => StandardGate::CU,
        37 => StandardGate::CU1,
        38 => StandardGate::CU3,
        39 => StandardGate::RXX,
        40 => StandardGate::RYY,
        41 => StandardGate::RZZ,
        42 => StandardGate::RZX,
        43 => StandardGate::XXMinusYY,
        44 => StandardGate::XXPlusYY,
        45 => StandardGate::CCX,
        46 => StandardGate::CCZ,
        47 => StandardGate::CSwap,
        48 => StandardGate::RCCX,
        49 => StandardGate::C3X,
        50 => StandardGate::C3SX,
        51 => StandardGate::RC3X,
        _ => {
            proof {
                assert(false);
            }
            StandardGate::GlobalPhase
        }
    };
    g
}

/// The registered name of a gate.
pub open spec fn spec_gate_name(g: StandardGate) -> Seq<char> {
    match g {
        StandardGate::GlobalPhase => "global_phase"@,
        StandardGate::H => "h"@,
        StandardGate::I => "id"@,
        StandardGate::X => "x"@,
        StandardGate::Y => "y"@,
        StandardGate::Z => "z"@,
        StandardGate::Phase => "p"@,
        StandardGate::R => "r"@,
        StandardGate::RX => "rx"@,
        StandardGate::RY => "ry"@,
        StandardGate::RZ => "rz"@,
        StandardGate::S => "s"@,
        StandardGate::Sdg => "sdg"@,
        StandardGate::SX => "sx"@,
        StandardGate::SXdg => "sxdg"@,
        StandardGate::T => "t"@,
        StandardGate::Tdg => "tdg"@,
        StandardGate::U => "u"@,
        StandardGate::U1 => "u1"@,
        StandardGate::U2 => "u2"@,
        StandardGate::U3 => "u3"@,
        StandardGate::CH => "ch"@,
        StandardGate::CX => "cx"@,
        StandardGate::CY => "cy"@,
        StandardGate::CZ => "cz"@,
        StandardGate::DCX => "dcx"@,
        StandardGate::ECR => "ecr"@,
        StandardGate::Swap => "swap"@,
        StandardGate::ISwap => "iswap"@,
        StandardGate::CPhase => "cp"@,
        StandardGate::CRX => "crx"@,
        StandardGate::CRY => "cry"@,
        StandardGate::CRZ => "crz"@,
        StandardGate::CS => "cs"@,
        StandardGate::CSdg => "csdg"@,
        StandardGate::CSX => "csx"@,
        StandardGate::CU => "cu"@,
        StandardGate::CU1 => "cu1"@,
        StandardGate::CU3 => "cu3"@,
        StandardGate::RXX => "rxx"@,
        StandardGate::RYY => "ryy"@,
        StandardGate::RZZ => "rzz"@,
        StandardGate::RZX => "rzx"@,
        StandardGate::XXMinusYY => "xx_minus_yy"@,
        StandardGate::XXPlusYY => "xx_plus_yy"@,
        StandardGate::CCX => "ccx"@,
        StandardGate::CCZ => "ccz"@,
        StandardGate::CSwap => "cswap"@,
        StandardGate::RCCX => "rccx"@,
        StandardGate::C3X => "mcx"@,
        StandardGate::C3SX => "c3sx"@,
        StandardGate::RC3X => "rc3x"@,
    }
}

/// The registered name of a gate, as the external lookup tables spell it.
pub fn gate_name(g: StandardGate) -> (name: &'static str)
    ensures
        name@ == spec_gate_name(g),
{
    match g {
        StandardGate::GlobalPhase => "global_phase",
        StandardGate::H => "h",
        StandardGate::I => "id",
        StandardGate::X => "x",
        StandardGate::Y => "y",
        StandardGate::Z => "z",
        StandardGate::Phase => "p",
        StandardGate::R => "r",
        StandardGate::RX => "rx",
        StandardGate::RY => "ry",
        StandardGate::RZ => "rz",
        StandardGate::S => "s",
        StandardGate::Sdg => "sdg",
        StandardGate::SX => "sx",
        StandardGate::SXdg => "sxdg",
        StandardGate::T => "t",
        StandardGate::Tdg => "tdg",
        StandardGate::U => "u",
        StandardGate::U1 => "u1",
        StandardGate::U2 => "u2",
        StandardGate::U3 => "u3",
        StandardGate::CH => "ch",
        StandardGate::CX => "cx",
        StandardGate::CY => "cy",
        StandardGate::CZ => "cz",
        StandardGate::DCX => "dcx",
        StandardGate::ECR => "ecr",
        StandardGate::Swap => "swap",
        StandardGate::ISwap => "iswap",
        StandardGate::CPhase => "cp",
        StandardGate::CRX => "crx",
        StandardGate::CRY => "cry",
        StandardGate::CRZ => "crz",
        StandardGate::CS => "cs",
        StandardGate::CSdg => "csdg",
        StandardGate::CSX => "csx",
        StandardGate::CU => "cu",
        StandardGate::CU1 => "cu1",
        StandardGate::CU3 => "cu3",
        StandardGate::RXX => "rxx",
        StandardGate::RYY => "ryy",
        StandardGate::RZZ => "rzz",
        StandardGate::RZX => "rzx",
        StandardGate::XXMinusYY => "xx_minus_yy",
        StandardGate::XXPlusYY => "xx_plus_yy",
        StandardGate::CCX => "ccx",
        StandardGate::CCZ => "ccz",
        StandardGate::CSwap => "cswap",
        StandardGate::RCCX => "rccx",
        StandardGate::C3X => "mcx",
        StandardGate::C3SX => "c3sx",
        StandardGate::RC3X => "rc3x",
    }
}

/// How many operands of the primary kind a gate acts on.
pub open spec fn spec_gate_num_qubits(g: StandardGate) -> u32 {
    match g {
        StandardGate::GlobalPhase => 0,
        StandardGate::H => 1,
        StandardGate::I => 1,
        StandardGate::X => 1,
        StandardGate::Y => 1,
        StandardGate::Z => 1,
        StandardGate::Phase => 1,
        StandardGate::R => 1,
        StandardGate::RX => 1,
        StandardGate::RY => 1,
        StandardGate::RZ => 1,
        StandardGate::S => 1,
        StandardGate::Sdg => 1,
        StandardGate::SX => 1,
        StandardGate::SXdg => 1,
        StandardGate::T => 1,
        StandardGate::Tdg => 1,
        StandardGate::U => 1,
        StandardGate::U1 => 1,
        StandardGate::U2 => 1,
        StandardGate::U3 => 1,
        StandardGate::CH => 2,
        StandardGate::CX => 2,
        StandardGate::CY => 2,
        StandardGate::CZ => 2,
        StandardGate::DCX => 2,
        StandardGate::ECR => 2,
        StandardGate::Swap => 2,
        StandardGate::ISwap => 2,
        StandardGate::CPhase => 2,
        StandardGate::CRX => 2,
        StandardGate::CRY => 2,
        StandardGate::CRZ => 2,
        StandardGate::CS => 2,
        StandardGate::CSdg => 2,
        StandardGate::CSX => 2,
        StandardGate::CU => 2,
        StandardGate::CU1 => 2,
        StandardGate::CU3 => 2,
        StandardGate::RXX => 2,
        StandardGate::RYY => 2,
        StandardGate::RZZ => 2,
        StandardGate::RZX => 2,
        StandardGate::XXMinusYY => 2,
        StandardGate::XXPlusYY => 2,
        StandardGate::CCX => 3,
        StandardGate::CCZ => 3,
        StandardGate::CSwap => 3,
        StandardGate::RCCX => 3,
        StandardGate::C3X => 4,
        StandardGate::C3SX => 4,
        StandardGate::RC3X => 4,
    }
}

/// How many operands of the primary kind a gate acts on.
pub fn gate_num_qubits(g: StandardGate) -> (n: u32)
    ensures
        n == spec_gate_num_qubits(g),
{
    match g {
        StandardGate::GlobalPhase => 0,
        StandardGate::H => 1,
        StandardGate::I => 1,
        StandardGate::X => 1,
        StandardGate::Y => 1,
        StandardGate::Z => 1,
        StandardGate::Phase => 1,
        StandardGate::R => 1,
        StandardGate::RX => 1,
        StandardGate::RY => 1,
        StandardGate::RZ => 1,
        StandardGate::S => 1,
        StandardGate::Sdg => 1,
        StandardGate::SX => 1,
        StandardGate::SXdg => 1,
        StandardGate::T => 1,
        StandardGate::Tdg => 1,
        StandardGate::U => 1,
        StandardGate::U1 => 1,
        StandardGate::U2 => 1,
        StandardGate::U3 => 1,
        StandardGate::CH => 2,
        StandardGate::CX => 2,
        StandardGate::CY => 2,
        StandardGate::CZ => 2,
        StandardGate::DCX => 2,
        StandardGate::ECR => 2,
        StandardGate::Swap => 2,
        StandardGate::ISwap => 2,
        StandardGate::CPhase => 2,
        StandardGate::CRX => 2,
        StandardGate::CRY => 2,
        StandardGate::CRZ => 2,
        StandardGate::CS => 2,
        StandardGate::CSdg => 2,
        StandardGate::CSX => 2,
        StandardGate::CU => 2,
        StandardGate::CU1 => 2,
        StandardGate::CU3 => 2,
        StandardGate::RXX => 2,
        StandardGate::RYY => 2,
        StandardGate::RZZ => 2,
        StandardGate::RZX => 2,
        StandardGate::XXMinusYY => 2,
        StandardGate::XXPlusYY => 2,
        StandardGate::CCX => 3,
        StandardGate::CCZ => 3,
        StandardGate::CSwap => 3,
        StandardGate::RCCX => 3,
        StandardGate::C3X => 4,
        StandardGate::C3SX => 4,
        StandardGate::RC3X => 4,
    }
}

/// How many parameters a gate takes.
pub open spec fn spec_gate_num_params(g: StandardGate) -> u32 {
    match g {
        StandardGate::GlobalPhase => 1,
        StandardGate::H => 0,
        StandardGate::I => 0,
        StandardGate::X => 0,
        StandardGate::Y => 0,
        StandardGate::Z => 0,
        StandardGate::Phase => 1,
        StandardGate::R => 2,
        StandardGate::RX => 1,
        StandardGate::RY => 1,
        StandardGate::RZ => 1,
        StandardGate::S => 0,
        StandardGate::Sdg => 0,
        StandardGate::SX => 0,
        StandardGate::SXdg => 0,
        StandardGate::T => 0,
        StandardGate::Tdg => 0,
        StandardGate::U => 3,
        StandardGate::U1 => 1,
        StandardGate::U2 => 2,
        StandardGate::U3 => 3,
        StandardGate::CH => 0,
        StandardGate::CX => 0,
        StandardGate::CY => 0,
        StandardGate::CZ => 0,
        StandardGate::DCX => 0,
        StandardGate::ECR => 0,
        StandardGate::Swap => 0,
        StandardGate::ISwap => 0,
        StandardGate::CPhase => 1,
        StandardGate::CRX => 1,
        StandardGate::CRY => 1,
        StandardGate::CRZ => 1,
        StandardGate::CS => 0,
        StandardGate::CSdg => 0,
        StandardGate::CSX => 0,
        StandardGate::CU => 4,
        StandardGate::CU1 => 1,
        StandardGate::CU3 => 3,
        StandardGate::RXX => 1,
        StandardGate::RYY => 1,
        StandardGate::RZZ => 1,
        StandardGate::RZX => 1,
        StandardGate::XXMinusYY => 2,
        StandardGate::XXPlusYY => 2,
        StandardGate::CCX => 0,
        StandardGate::CCZ => 0,
        StandardGate::CSwap => 0,
        StandardGate::RCCX => 0,
        StandardGate::C3X => 0,
        StandardGate::C3SX => 0,
        StandardGate::RC3X => 0,
    }
}

/// How many parameters a gate takes.
pub fn gate_num_params(g: StandardGate) -> (n: u32)
    ensures
        n == spec_gate_num_params(g),
{
    match g {
        StandardGate::GlobalPhase => 1,
        StandardGate::H => 0,
        StandardGate::I => 0,
        StandardGate::X => 0,
        StandardGate::Y => 0,
        StandardGate::Z => 0,
        StandardGate::Phase => 1,
        StandardGate::R => 2,
        StandardGate::RX => 1,
        StandardGate::RY => 1,
        StandardGate::RZ => 1,
        StandardGate::S => 0,
        StandardGate::Sdg => 0,
        StandardGate::SX => 0,
        StandardGate::SXdg => 0,
        StandardGate::T => 0,
        StandardGate::Tdg => 0,
        StandardGate::U => 3,
        StandardGate::U1 => 1,
        StandardGate::U2 => 2,
        StandardGate::U3 => 3,
        StandardGate::CH => 0,
        StandardGate::CX => 0,
        StandardGate::CY => 0,
        StandardGate::CZ => 0,
        StandardGate::DCX => 0,
        StandardGate::ECR => 0,
        StandardGate::Swap => 0,
        StandardGate::ISwap => 0,
        StandardGate::CPhase => 1,
        StandardGate::CRX => 1,
        StandardGate::CRY => 1,
        StandardGate::CRZ => 1,
        StandardGate::CS => 0,
        StandardGate::CSdg => 0,
        StandardGate::CSX => 0,
        StandardGate::CU => 4,
        StandardGate::CU1 => 1,
        StandardGate::CU3 => 3,
        StandardGate::RXX => 1,
        StandardGate::RYY => 1,
        StandardGate::RZZ => 1,
        StandardGate::RZX => 1,
        StandardGate::XXMinusYY => 2,
        StandardGate::XXPlusYY => 2,
        StandardGate::CCX => 0,
        StandardGate::CCZ => 0,
        StandardGate::CSwap => 0,
        StandardGate::RCCX => 0,
        StandardGate::C3X => 0,
        StandardGate::C3SX => 0,
        StandardGate::RC3X => 0,
    }
}

/// The module part of a gate's registered class path.
pub open spec fn spec_gate_class_module(g: StandardGate) -> Seq<char> {
    match g {
        StandardGate::GlobalPhase => "qiskit.circuit.library.standard_gates.global_phase"@,
        StandardGate::H => "qiskit.circuit.library.standard_gates.h"@,
        StandardGate::I => "qiskit.circuit.library.standard_gates.i"@,
        StandardGate::X => "qiskit.circuit.library.standard_gates.x"@,
        StandardGate::Y => "qiskit.circuit.library.standard_gates.y"@,
        StandardGate::Z => "qiskit.circuit.library.standard_gates.z"@,
        StandardGate::Phase => "qiskit.circuit.library.standard_gates.p"@,
        StandardGate::R => "qiskit.circuit.library.standard_gates.r"@,
        StandardGate::RX => "qiskit.circuit.library.standard_gates.rx"@,
        StandardGate::RY => "qiskit.circuit.library.standard_gates.ry"@,
        StandardGate::RZ => "qiskit.circuit.library.standard_gates.rz"@,
        StandardGate::S => "qiskit.circuit.library.standard_gates.s"@,
        StandardGate::Sdg => "qiskit.circuit.library.standard_gates.s"@,
        StandardGate::SX => "qiskit.circuit.library.standard_gates.sx"@,
        StandardGate::SXdg => "qiskit.circuit.library.standard_gates.sx"@,
        StandardGate::T => "qiskit.circuit.library.standard_gates.t"@,
        StandardGate::Tdg => "qiskit.circuit.library.standard_gates.t"@,
        StandardGate::U => "qiskit.circuit.library.standard_gates.u"@,
        StandardGate::U1 => "qiskit.circuit.library.standard_gates.u1"@,
        StandardGate::U2 => "qiskit.circuit.library.standard_gates.u2"@,
        StandardGate::U3 => "qiskit.circuit.library.standard_gates.u3"@,
        StandardGate::CH => "qiskit.circuit.library.standard_gates.h"@,
        StandardGate::CX => "qiskit.circuit.library.standard_gates.x"@,
        StandardGate::CY => "qiskit.circuit.library.standard_gates.y"@,
        StandardGate::CZ => "qiskit.circuit.library.standard_gates.z"@,
        StandardGate::DCX => "qiskit.circuit.library.standard_gates.dcx"@,
        StandardGate::ECR => "qiskit.circuit.library.standard_gates.ecr"@,
        StandardGate::Swap => "qiskit.circuit.library.standard_gates.swap"@,
        StandardGate::ISwap => "qiskit.circuit.library.standard_gates.iswap"@,
        StandardGate::CPhase => "qiskit.circuit.library.standard_gates.p"@,
        StandardGate::CRX => "qiskit.circuit.library.standard_gates.rx"@,
        StandardGate::CRY => "qiskit.circuit.library.standard_gates.ry"@,
        StandardGate::CRZ => "qiskit.circuit.library.standard_gates.rz"@,
        StandardGate::CS => "qiskit.circuit.library.standard_gates.s"@,
        StandardGate::CSdg => "qiskit.circuit.library.standard_gates.s"@,
        StandardGate::CSX => "qiskit.circuit.library.standard_gates.sx"@,
        StandardGate::CU => "qiskit.circuit.library.standard_gates.u"@,
        StandardGate::CU1 => "qiskit.circuit.library.standard_gates.u1"@,
        StandardGate::CU3 => "qiskit.circuit.library.standard_gates.u3"@,
        StandardGate::RXX => "qiskit.circuit.library.standard_gates.rxx"@,
        StandardGate::RYY => "qiskit.circuit.library.standard_gates.ryy"@,
        StandardGate::RZZ => "qiskit.circuit.library.standard_gates.rzz"@,
        StandardGate::RZX => "qiskit.circuit.library.standard_gates.rzx"@,
        StandardGate::XXMinusYY => "qiskit.circuit.library.standard_gates.xx_minus_yy"@,
        StandardGate::XXPlusYY => "qiskit.circuit.library.standard_gates.xx_plus_yy"@,
        StandardGate::CCX => "qiskit.circuit.library.standard_gates.x"@,
        StandardGate::CCZ => "qiskit.circuit.library.standard_gates.z"@,
        StandardGate::CSwap => "qiskit.circuit.library.standard_gates.swap"@,
        StandardGate::RCCX => "qiskit.circuit.library.standard_gates.x"@,
        StandardGate::C3X => "qiskit.circuit.library.standard_gates.x"@,
        StandardGate::C3SX => "qiskit.circuit.library.standard_gates.x"@,
        StandardGate::RC3X => "qiskit.circuit.library.standard_gates.x"@,
    }
}

/// The class-name part of a gate's registered class path.
pub open spec fn spec_gate_class_name(g: StandardGate) -> Seq<char> {
    match g {
        StandardGate::GlobalPhase => "GlobalPhaseGate"@,
        StandardGate::H => "HGate"@,
        StandardGate::I => "IGate"@,
        StandardGate::X => "XGate"@,
        StandardGate::Y => "YGate"@,
        StandardGate::Z => "ZGate"@,
        StandardGate::Phase => "PhaseGate"@,
        StandardGate::R => "RGate"@,
        StandardGate::RX => "RXGate"@,
        StandardGate::RY => "RYGate"@,
        StandardGate::RZ => "RZGate"@,
        StandardGate::S => "SGate"@,
        StandardGate::Sdg => "SdgGate"@,
        StandardGate::SX => "SXGate"@,
        StandardGate::SXdg => "SXdgGate"@,
        StandardGate::T => "TGate"@,
        StandardGate::Tdg => "TdgGate"@,
        StandardGate::U => "UGate"@,
        StandardGate::U1 => "U1Gate"@,
        StandardGate::U2 => "U2Gate"@,
        StandardGate::U3 => "U3Gate"@,
        StandardGate::CH => "CHGate"@,
        StandardGate::CX => "CXGate"@,
        StandardGate::CY => "CYGate"@,
        StandardGate::CZ => "CZGate"@,
        StandardGate::DCX => "DCXGate"@,
        StandardGate::ECR => "ECRGate"@,
        StandardGate::Swap => "SwapGate"@,
        StandardGate::ISwap => "iSwapGate"@,
        StandardGate::CPhase => "CPhaseGate"@,
        StandardGate::CRX => "CRXGate"@,
        StandardGate::CRY => "CRYGate"@,
        StandardGate::CRZ => "CRZGate"@,
        StandardGate::CS => "CSGate"@,
        StandardGate::CSdg => "CSdgGate"@,
        StandardGate::CSX => "CSXGate"@,
        StandardGate::CU => "CUGate"@,
        StandardGate::CU1 => "CU1Gate"@,
        StandardGate::CU3 => "CU3Gate"@,
        StandardGate::RXX => "RXXGate"@,
        StandardGate::RYY => "RYYGate"@,
        StandardGate::RZZ => "RZZGate"@,
        StandardGate::RZX => "RZXGate"@,
        StandardGate::XXMinusYY => "XXMinusYYGate"@,
        StandardGate::XXPlusYY => "XXPlusYYGate"@,
        StandardGate::CCX => "CCXGate"@,
        StandardGate::CCZ => "CCZGate"@,
        StandardGate::CSwap => "CSwapGate"@,
        StandardGate::RCCX => "RCCXGate"@,
        StandardGate::C3X => "C3XGate"@,
        StandardGate::C3SX => "C3SXGate"@,
        StandardGate::RC3X => "RC3XGate"@,
    }
}

/// The registered import location for a gate given only its ordinal.
pub fn gate_class_path_at(code: u8) -> (path: (&'static str, &'static str))
    requires
        code < STANDARD_GATE_COUNT,
    ensures
        path.0@ == spec_gate_class_module(gate_of_ordinal(code)),
        path.1@ == spec_gate_class_name(gate_of_ordinal(code)),
{
    gate_class_path(gate_from_code(code))
}

/// The registered import location of the external class standing for a
/// gate.
pub fn gate_class_path(g: StandardGate) -> (path: (&'static str, &'static str))
    ensures
        path.0@ == spec_gate_class_module(g),
        path.1@ == spec_gate_class_name(g),
{
    match g {
        StandardGate::GlobalPhase => ("qiskit.circuit.library.standard_gates.global_phase", "GlobalPhaseGate"),
        StandardGate::H => ("qiskit.circuit.library.standard_gates.h", "HGate"),
        StandardGate::I => ("qiskit.circuit.library.standard_gates.i", "IGate"),
        StandardGate::X => ("qiskit.circuit.library.standard_gates.x", "XGate"),
        StandardGate::Y => ("qiskit.circuit.library.standard_gates.y", "YGate"),
        StandardGate::Z => ("qiskit.circuit.library.standard_gates.z", "ZGate"),
        StandardGate::Phase => ("qiskit.circuit.library.standard_gates.p", "PhaseGate"),
        StandardGate::R => ("qiskit.circuit.library.standard_gates.r", "RGate"),
        StandardGate::RX => ("qiskit.circuit.library.standard_gates.rx", "RXGate"),
        StandardGate::RY => ("qiskit.circuit.library.standard_gates.ry", "RYGate"),
        StandardGate::RZ => ("qiskit.circuit.library.standard_gates.rz", "RZGate"),
        StandardGate::S => ("qiskit.circuit.library.standard_gates.s", "SGate"),
        StandardGate::Sdg => ("qiskit.circuit.library.standard_gates.s", "SdgGate"),
        StandardGate::SX => ("qiskit.circuit.library.standard_gates.sx", "SXGate"),
        StandardGate::SXdg => ("qiskit.circuit.library.standard_gates.sx", "SXdgGate"),
        StandardGate::T => ("qiskit.circuit.library.standard_gates.t", "TGate"),
        StandardGate::Tdg => ("qiskit.circuit.library.standard_gates.t", "TdgGate"),
        StandardGate::U => ("qiskit.circuit.library.standard_gates.u", "UGate"),
        StandardGate::U1 => ("qiskit.circuit.library.standard_gates.u1", "U1Gate"),
        StandardGate::U2 => ("qiskit.circuit.library.standard_gates.u2", "U2Gate"),
        StandardGate::U3 => ("qiskit.circuit.library.standard_gates.u3", "U3Gate"),
        StandardGate::CH => ("qiskit.circuit.library.standard_gates.h", "CHGate"),
        StandardGate::CX => ("qiskit.circuit.library.standard_gates.x", "CXGate"),
        StandardGate::CY => ("qiskit.circuit.library.standard_gates.y", "CYGate"),
        StandardGate::CZ => ("qiskit.circuit.library.standard_gates.z", "CZGate"),
        StandardGate::DCX => ("qiskit.circuit.library.standard_gates.dcx", "DCXGate"),
        StandardGate::ECR => ("qiskit.circuit.library.standard_gates.ecr", "ECRGate"),
        StandardGate::Swap => ("qiskit.circuit.library.standard_gates.swap", "SwapGate"),
        StandardGate::ISwap => ("qiskit.circuit.library.standard_gates.iswap", "iSwapGate"),
        StandardGate::CPhase => ("qiskit.circuit.library.standard_gates.p", "CPhaseGate"),
        StandardGate::CRX => ("qiskit.circuit.library.standard_gates.rx", "CRXGate"),
        StandardGate::CRY => ("qiskit.circuit.library.standard_gates.ry", "CRYGate"),
        StandardGate::CRZ => ("qiskit.circuit.library.standard_gates.rz", "CRZGate"),
        StandardGate::CS => ("qiskit.circuit.library.standard_gates.s", "CSGate"),
        StandardGate::CSdg => ("qiskit.circuit.library.standard_gates.s", "CSdgGate"),
        StandardGate::CSX => ("qiskit.circuit.library.standard_gates.sx", "CSXGate"),
        StandardGate::CU => ("qiskit.circuit.library.standard_gates.u", "CUGate"),
        StandardGate::CU1 => ("qiskit.circuit.library.standard_gates.u1", "CU1Gate"),
        StandardGate::CU3 => ("qiskit.circuit.library.standard_gates.u3", "CU3Gate"),
        StandardGate::RXX => ("qiskit.circuit.library.standard_gates.rxx", "RXXGate"),
        StandardGate::RYY => ("qiskit.circuit.library.standard_gates.ryy", "RYYGate"),
        StandardGate::RZZ => ("qiskit.circuit.library.standard_gates.rzz", "RZZGate"),
        StandardGate::RZX => ("qiskit.circuit.library.standard_gates.rzx", "RZXGate"),
        StandardGate::XXMinusYY => ("qiskit.circuit.library.standard_gates.xx_minus_yy", "XXMinusYYGate"),
        StandardGate::XXPlusYY => ("qiskit.circuit.library.standard_gates.xx_plus_yy", "XXPlusYYGate"),
        StandardGate::CCX => ("qiskit.circuit.library.standard_gates.x", "CCXGate"),
        StandardGate::CCZ => ("qiskit.circuit.library.standard_gates.z", "CCZGate"),
        StandardGate::CSwap => ("qiskit.circuit.library.standard_gates.swap", "CSwapGate"),
        StandardGate::RCCX => ("qiskit.circuit.library.standard_gates.x", "RCCXGate"),
        StandardGate::C3X => ("qiskit.circuit.library.standard_gates.x", "C3XGate"),
        StandardGate::C3SX => ("qiskit.circuit.library.standard_gates.x", "C3SXGate"),
        StandardGate::RC3X => ("qiskit.circuit.library.standard_gates.x", "RC3XGate"),
    }
}

} // verus!
