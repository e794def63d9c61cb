//! Read-only SMBus diagnostic sweep of a PSU whose register map is not
//! documented: every address that acknowledges is probed with the standard
//! PMBus command set, then with a raw sweep of all single-byte registers.
//!
//! The sweep is a state machine: [`ScanStep::action`] says which bus
//! transaction (or pause) comes next, and [`ScanStep::next`] moves on once
//! the caller has performed it and reports whether the device acknowledged.
//! Nothing but address probes and register reads is ever issued.

use vstd::prelude::*;

verus! {

/// Pause after reset before the first sweep, so the PSU can power up.
pub const SETTLE_SECS: u32 = 2;

/// Pause between two sweeps.
pub const REST_SECS: u32 = 30;

/// First 7-bit address swept (below it lie reserved addresses).
pub const FIRST_ADDRESS: u8 = 0x08;

/// One past the last 7-bit address swept (from it on lie reserved addresses).
pub const END_ADDRESS: u8 = 0x78;

/// Number of standard PMBus commands probed on each device found.
pub const PMBUS_PROBE_COUNT: usize = 18;

/// The standard PMBus command codes probed, in order.
pub open spec fn pmbus_code(index: int) -> u8 {
    if index == 0 {
        0x79
    } else if index == 1 {
        0x7A
    } else if index == 2 {
        0x7B
    } else if index == 3 {
        0x7D
    } else if index == 4 {
        0x81
    } else if index == 5 {
        0x88
    } else if index == 6 {
        0x89
    } else if index == 7 {
        0x8B
    } else if index == 8 {
        0x8C
    } else if index == 9 {
        0x8D
    } else if index == 10 {
        0x8E
    } else if index == 11 {
        0x90
    } else if index == 12 {
        0x96
    } else if index == 13 {
        0x97
    } else if index == 14 {
        0x98
    } else if index == 15 {
        0x99
    } else if index == 16 {
        0x9A
    } else {
        0x9B
    }
}

/// The code of the `index`th probed PMBus command.
pub fn pmbus_probe_code(index: usize) -> (r: u8)
    requires
        index < PMBUS_PROBE_COUNT,
    ensures
        r == pmbus_code(index as int),
{
    let codes: [u8; 18] = [
        0x79, 0x7A, 0x7B, 0x7D, 0x81, 0x88, 0x89, 0x8B, 0x8C, 0x8D, 0x8E, 0x90, 0x96, 0x97, 0x98,
        0x99, 0x9A, 0x9B,
    ];
    codes[index]
}

/// The PMBus names of the probed commands, in order.
pub open spec fn pmbus_name(index: int) -> Seq<char> {
    if index == 0 {
        "STATUS_WORD"@
    } else if index == 1 {
        "STATUS_VOUT"@
    } else if index == 2 {
        "STATUS_IOUT"@
    } else if index == 3 {
        "STATUS_TEMPERATURE"@
    } else if index == 4 {
        "STATUS_FANS_1_2"@
    } else if index == 5 {
        "READ_VIN"@
    } else if index == 6 {
        "READ_IIN"@
    } else if index == 7 {
        "READ_VOUT"@
    } else if index == 8 {
        "READ_IOUT"@
    } else if index == 9 {
        "READ_TEMPERATURE_1"@
    } else if index == 10 {
        "READ_TEMPERATURE_2"@
    } else if index == 11 {
        "READ_FAN_SPEED_1"@
    } else if index == 12 {
        "READ_POUT"@
    } else if index == 13 {
        "READ_PIN"@
    } else if index == 14 {
        "PMBUS_REVISION"@
    } else if index == 15 {
        "MFR_ID"@
    } else if index == 16 {
        "MFR_MODEL"@
    } else {
        "MFR_REVISION"@
    }
}

/// The PMBus name of the `index`th probed command, for the log.
pub fn pmbus_probe_name(index: usize) -> (r: &'static str)
    requires
        index < PMBUS_PROBE_COUNT,
    ensures
        r@ == pmbus_name(index as int),
{
    match index {
        0 => "STATUS_WORD",
        1 => "STATUS_VOUT",
        2 => "STATUS_IOUT",
        3 => "STATUS_TEMPERATURE",
        4 => "STATUS_FANS_1_2",
        5 => "READ_VIN",
        6 => "READ_IIN",
        7 => "READ_VOUT",
        8 => "READ_IOUT",
        9 => "READ_TEMPERATURE_1",
        10 => "READ_TEMPERATURE_2",
        11 => "READ_FAN_SPEED_1",
        12 => "READ_POUT",
        13 => "READ_PIN",
        14 => "PMBUS_REVISION",
        15 => "MFR_ID",
        16 => "MFR_MODEL",
        _ => "MFR_REVISION",
    }
}

/// Where the sweep stands.
#[derive(Debug, Clone, Copy, PartialEq, Eq, Structural)]
pub enum ScanStep {
    /// Waiting for the PSU to power up after reset.
    Settle,
    /// Probing `addr` by reading register 0.
    Presence { addr: u8 },
    /// Register 0 did not answer: probing `addr` with an empty write.
    PresenceFallback { addr: u8 },
    /// Reading the `index`th PMBus command from the device at `addr`.
    Command { addr: u8, index: usize },
    /// Reading raw register `reg` from the device at `addr`.
    Raw { addr: u8, reg: u8 },
    /// Pausing between two sweeps.
    Rest,
}

/// What the caller does for the current step.
#[derive(Debug, Clone, Copy, PartialEq, Eq, Structural)]
pub enum ScanAction {
    /// Wait this many seconds.
    Sleep { secs: u32 },
    /// Write the single byte `command` to `addr`, then read `len` bytes.
    WriteRead { addr: u8, command: u8, len: usize },
    /// Address `addr` with an empty write.
    Probe { addr: u8 },
}

/// The step that takes up the sweep after the device at `addr` (whether or
/// not one was found there).
pub open spec fn after_address(addr: u8) -> ScanStep {
    if addr + 1 < END_ADDRESS {
        ScanStep::Presence { addr: (addr + 1) as u8 }
    } else {
        ScanStep::Rest
    }
}

/// Every step names a swept address and an existing PMBus command.
pub open spec fn step_valid(s: ScanStep) -> bool {
    match s {
        ScanStep::Presence { addr } => FIRST_ADDRESS <= addr < END_ADDRESS,
        ScanStep::PresenceFallback { addr } => FIRST_ADDRESS <= addr < END_ADDRESS,
        ScanStep::Command { addr, index } => FIRST_ADDRESS <= addr < END_ADDRESS && index
            < PMBUS_PROBE_COUNT,
        ScanStep::Raw { addr, .. } => FIRST_ADDRESS <= addr < END_ADDRESS,
        _ => true,
    }
}

/// The transaction a step performs.
pub open spec fn step_action(s: ScanStep) -> ScanAction {
    match s {
        ScanStep::Settle => ScanAction::Sleep { secs: SETTLE_SECS },
        ScanStep::Presence { addr } => ScanAction::WriteRead { addr, command: 0, len: 1 },
        ScanStep::PresenceFallback { addr } => ScanAction::Probe { addr },
        ScanStep::Command { addr, index } => ScanAction::WriteRead {
            addr,
            command: pmbus_code(index as int),
            len: 2,
        },
        ScanStep::Raw { addr, reg } => ScanAction::WriteRead { addr, command: reg, len: 1 },
        ScanStep::Rest => ScanAction::Sleep { secs: REST_SECS },
    }
}

/// The step after `s`, once its transaction was performed; `acked` says
/// whether the device acknowledged it. A device counts as present when it
/// answers the register-0 read or, failing that, the empty write; a present
/// device gets every PMBus command, then every raw register 0 to 255, in
/// order, whatever each of them answers.
pub open spec fn step_next(s: ScanStep, acked: bool) -> ScanStep {
    match s {
        ScanStep::Settle => ScanStep::Presence { addr: FIRST_ADDRESS },
        ScanStep::Presence { addr } => if acked {
            ScanStep::Command { addr, index: 0 }
        } else {
            ScanStep::PresenceFallback { addr }
        },
        ScanStep::PresenceFallback { addr } => if acked {
            ScanStep::Command { addr, index: 0 }
        } else {
            after_address(addr)
        },
        ScanStep::Command { addr, index } => if index + 1 < PMBUS_PROBE_COUNT {
            ScanStep::Command { addr, index: (index + 1) as usize }
        } else {
            ScanStep::Raw { addr, reg: 0 }
        },
        ScanStep::Raw { addr, reg } => if reg < 0xFF {
            ScanStep::Raw { addr, reg: (reg + 1) as u8 }
        } else {
            after_address(addr)
        },
        ScanStep::Rest => ScanStep::Presence { addr: FIRST_ADDRESS },
    }
}

/// How far into a sweep a step stands: steps of one address come before
/// those of the next, and the rest between sweeps comes last.
pub open spec fn sweep_position(s: ScanStep) -> int {
    match s {
        ScanStep::Settle => 0,
        ScanStep::Presence { addr } => 1 + (addr - FIRST_ADDRESS) * 300,
        ScanStep::PresenceFallback { addr } => 2 + (addr - FIRST_ADDRESS) * 300,
        ScanStep::Command { addr, index } => 3 + (addr - FIRST_ADDRESS) * 300 + index,
        ScanStep::Raw { addr, reg } => 3 + PMBUS_PROBE_COUNT + (addr - FIRST_ADDRESS) * 300 + reg,
        ScanStep::Rest => 1 + (END_ADDRESS - FIRST_ADDRESS) * 300,
    }
}

impl ScanStep {
    /// The sweep as it starts after reset.
    pub fn start() -> (r: Self)
        ensures
            r == ScanStep::Settle,
    {
        ScanStep::Settle
    }

    /// The transaction this step performs.
    pub fn action(&self) -> (r: ScanAction)
        requires
            step_valid(*self),
        ensures
            r == step_action(*self),
    {
        match *self {
            ScanStep::Settle => ScanAction::Sleep { secs: SETTLE_SECS },
            ScanStep::Presence { addr } => ScanAction::WriteRead { addr, command: 0, len: 1 },
            ScanStep::PresenceFallback { addr } => ScanAction::Probe { addr },
            ScanStep::Command { addr, index } => ScanAction::WriteRead {
                addr,
                command: pmbus_probe_code(index),
                len: 2,
            },
            ScanStep::Raw { addr, reg } => ScanAction::WriteRead { addr, command: reg, len: 1 },
            ScanStep::Rest => ScanAction::Sleep { secs: REST_SECS },
        }
    }

    /// The step after this one; `acked` says whether the device acknowledged
    /// this step's transaction (ignored for pauses).
    pub fn next(&self, acked: bool) -> (r: Self)
        requires
            step_valid(*self),
        ensures
            r == step_next(*self, acked),
            step_valid(r),
    {
        match *self {
            ScanStep::Settle => ScanStep::Presence { addr: FIRST_ADDRESS },
            ScanStep::Presence { addr } => if acked {
                ScanStep::Command { addr, index: 0 }
            } else {
                ScanStep::PresenceFallback { addr }
            },
            ScanStep::PresenceFallback { addr } => if acked {
                ScanStep::Command { addr, index: 0 }
            } else {
                Self::after_address(addr)
            },
            ScanStep::Command { addr, index } => if index + 1 < PMBUS_PROBE_COUNT {
                ScanStep::Command { addr, index: index + 1 }
            } else {
                ScanStep::Raw { addr, reg: 0 }
            },
            ScanStep::Raw { addr, reg } => if reg < 0xFF {
                ScanStep::Raw { addr, reg: reg + 1 }
            } else {
                Self::after_address(addr)
            },
            ScanStep::Rest => ScanStep::Presence { addr: FIRST_ADDRESS },
        }
    }

    fn after_address(addr: u8) -> (r: Self)
        requires
            FIRST_ADDRESS <= addr < END_ADDRESS,
        ensures
            r == after_address(addr),
            step_valid(r),
    {
        if addr + 1 < END_ADDRESS {
            ScanStep::Presence { addr: addr + 1 }
        } else {
            ScanStep::Rest
        }
    }
}

/// Every transaction of the sweep is an address probe or a register read:
/// a single command byte written, then one or two bytes read back.
pub proof fn lemma_scan_is_read_only(s: ScanStep)
    requires
        step_valid(s),
    ensures
        match step_action(s) {
            ScanAction::WriteRead { addr, len, .. } => FIRST_ADDRESS <= addr < END_ADDRESS && (len
                == 1 || len == 2),
            ScanAction::Probe { addr } => FIRST_ADDRESS <= addr < END_ADDRESS,
            ScanAction::Sleep { .. } => s == ScanStep::Settle || s == ScanStep::Rest,
        },
{
}

/// Every step of a sweep, whatever the devices answer, moves strictly
/// forward until the rest between sweeps: a sweep always ends, after at
/// most one step per position.
pub proof fn lemma_sweep_advances(s: ScanStep, acked: bool)
    requires
        step_valid(s),
        s != ScanStep::Rest,
    ensures
        sweep_position(s) < sweep_position(step_next(s, acked)),
        0 <= sweep_position(step_next(s, acked)) <= sweep_position(ScanStep::Rest),
{
}

/// The command code the PMBus specification (Part II, Table 31) assigns to
/// each command name the sweep probes.
pub open spec fn pmbus_standard_code(name: Seq<char>) -> Option<u8> {
    if name == "MFR_ID"@ {
        Some(0x99u8)
    } else if name == "MFR_MODEL"@ {
        Some(0x9Au8)
    } else if name == "MFR_REVISION"@ {
        Some(0x9Bu8)
    } else if name == "PMBUS_REVISION"@ {
        Some(0x98u8)
    } else if name == "READ_FAN_SPEED_1"@ {
        Some(0x90u8)
    } else if name == "READ_IIN"@ {
        Some(0x89u8)
    } else if name == "READ_IOUT"@ {
        Some(0x8Cu8)
    } else if name == "READ_PIN"@ {
        Some(0x97u8)
    } else if name == "READ_POUT"@ {
        Some(0x96u8)
    } else if name == "READ_TEMPERATURE_1"@ {
        Some(0x8Du8)
    } else if name == "READ_TEMPERATURE_2"@ {
        Some(0x8Eu8)
    } else if name == "READ_VIN"@ {
        Some(0x88u8)
    } else if name == "READ_VOUT"@ {
        Some(0x8Bu8)
    } else if name == "STATUS_FANS_1_2"@ {
        Some(0x81u8)
    } else if name == "STATUS_IOUT"@ {
        Some(0x7Bu8)
    } else if name == "STATUS_TEMPERATURE"@ {
        Some(0x7Du8)
    } else if name == "STATUS_VOUT"@ {
        Some(0x7Au8)
    } else if name == "STATUS_WORD"@ {
        Some(0x79u8)
    } else {
        None
    }
}

/// Every probed command is sent with the PMBus code of the name it is
/// logged under (READ_VOUT is 0x8B, READ_IOUT 0x8C, ...), and the commands
/// are probed in ascending code order, each once.
pub proof fn lemma_pmbus_codes_match_names()
    ensures
        forall|i: int|
            0 <= i < PMBUS_PROBE_COUNT ==> pmbus_standard_code(#[trigger] pmbus_name(i)) == Some(
                pmbus_code(i),
            ),
        forall|i: int, j: int|
            0 <= i < j < PMBUS_PROBE_COUNT ==> #[trigger] pmbus_code(i) < #[trigger] pmbus_code(j),
{
    reveal_strlit("STATUS_WORD");
    reveal_strlit("STATUS_VOUT");
    reveal_strlit("STATUS_IOUT");
    reveal_strlit("STATUS_TEMPERATURE");
    reveal_strlit("STATUS_FANS_1_2");
    reveal_strlit("READ_VIN");
    reveal_strlit("READ_IIN");
    reveal_strlit("READ_VOUT");
    reveal_strlit("READ_IOUT");
    reveal_strlit("READ_TEMPERATURE_1");
    reveal_strlit("READ_TEMPERATURE_2");
    reveal_strlit("READ_FAN_SPEED_1");
    reveal_strlit("READ_POUT");
    reveal_strlit("READ_PIN");
    reveal_strlit("PMBUS_REVISION");
    reveal_strlit("MFR_ID");
    reveal_strlit("MFR_MODEL");
    reveal_strlit("MFR_REVISION");
    assert forall|i: int|
        0 <= i < PMBUS_PROBE_COUNT implies pmbus_standard_code(#[trigger] pmbus_name(i)) == Some(
        pmbus_code(i),
    ) by {
        if i == 0 {
            assert("STATUS_WORD"@.len() != "MFR_ID"@.len());
            assert("STATUS_WORD"@.len() != "MFR_MODEL"@.len());
            assert("STATUS_WORD"@.len() != "MFR_REVISION"@.len());
            assert("STATUS_WORD"@.len() != "PMBUS_REVISION"@.len());
            assert("STATUS_WORD"@.len() != "READ_FAN_SPEED_1"@.len());
            assert("STATUS_WORD"@.len() != "READ_IIN"@.len());
            assert("STATUS_WORD"@.len() != "READ_IOUT"@.len());
            assert("STATUS_WORD"@.len() != "READ_PIN"@.len());
            assert("STATUS_WORD"@.len() != "READ_POUT"@.len());
            assert("STATUS_WORD"@.len() != "READ_TEMPERATURE_1"@.len());
            assert("STATUS_WORD"@.len() != "READ_TEMPERATURE_2"@.len());
            assert("STATUS_WORD"@.len() != "READ_VIN"@.len());
            assert("STATUS_WORD"@.len() != "READ_VOUT"@.len());
            assert("STATUS_WORD"@.len() != "STATUS_FANS_1_2"@.len());
            assert("STATUS_WORD"@[7] != "STATUS_IOUT"@[7]);
            assert("STATUS_WORD"@.len() != "STATUS_TEMPERATURE"@.len());
            assert("STATUS_WORD"@[7] != "STATUS_VOUT"@[7]);
            assert(pmbus_standard_code(pmbus_name(0)) == Some(pmbus_code(0)));
        } else if i == 1 {
            assert("STATUS_VOUT"@.len() != "MFR_ID"@.len());
            assert("STATUS_VOUT"@.len() != "MFR_MODEL"@.len());
            assert("STATUS_VOUT"@.len() != "MFR_REVISION"@.len());
            assert("STATUS_VOUT"@.len() != "PMBUS_REVISION"@.len());
            assert("STATUS_VOUT"@.len() != "READ_FAN_SPEED_1"@.len());
            assert("STATUS_VOUT"@.len() != "READ_IIN"@.len());
            assert("STATUS_VOUT"@.len() != "READ_IOUT"@.len());
            assert("STATUS_VOUT"@.len() != "READ_PIN"@.len());
            assert("STATUS_VOUT"@.len() != "READ_POUT"@.len());
            assert("STATUS_VOUT"@.len() != "READ_TEMPERATURE_1"@.len());
            assert("STATUS_VOUT"@.len() != "READ_TEMPERATURE_2"@.len());
            assert("STATUS_VOUT"@.len() != "READ_VIN"@.len());
            assert("STATUS_VOUT"@.len() != "READ_VOUT"@.len());
            assert("STATUS_VOUT"@.len() != "STATUS_FANS_1_2"@.len());
            assert("STATUS_VOUT"@[7] != "STATUS_IOUT"@[7]);
            assert("STATUS_VOUT"@.len() != "STATUS_TEMPERATURE"@.len());
            assert(pmbus_standard_code(pmbus_name(1)) == Some(pmbus_code(1)));
        } else if i == 2 {
            assert("STATUS_IOUT"@.len() != "MFR_ID"@.len());
            assert("STATUS_IOUT"@.len() != "MFR_MODEL"@.len());
            assert("STATUS_IOUT"@.len() != "MFR_REVISION"@.len());
            assert("STATUS_IOUT"@.len() != "PMBUS_REVISION"@.len());
            assert("STATUS_IOUT"@.len() != "READ_FAN_SPEED_1"@.len());
            assert("STATUS_IOUT"@.len() != "READ_IIN"@.len());
            assert("STATUS_IOUT"@.len() != "READ_IOUT"@.len());
            assert("STATUS_IOUT"@.len() != "READ_PIN"@.len());
            assert("STATUS_IOUT"@.len() != "READ_POUT"@.len());
            assert("STATUS_IOUT"@.len() != "READ_TEMPERATURE_1"@.len());
            assert("STATUS_IOUT"@.len() != "READ_TEMPERATURE_2"@.len());
            assert("STATUS_IOUT"@.len() != "READ_VIN"@.len());
            assert("STATUS_IOUT"@.len() != "READ_VOUT"@.len());
            assert("STATUS_IOUT"@.len() != "STATUS_FANS_1_2"@.len());
            assert(pmbus_standard_code(pmbus_name(2)) == Some(pmbus_code(2)));
        } else if i == 3 {
            assert("STATUS_TEMPERATURE"@.len() != "MFR_ID"@.len());
            assert("STATUS_TEMPERATURE"@.len() != "MFR_MODEL"@.len());
            assert("STATUS_TEMPERATURE"@.len() != "MFR_REVISION"@.len());
            assert("STATUS_TEMPERATURE"@.len() != "PMBUS_REVISION"@.len());
            assert("STATUS_TEMPERATURE"@.len() != "READ_FAN_SPEED_1"@.len());
            assert("STATUS_TEMPERATURE"@.len() != "READ_IIN"@.len());
            assert("STATUS_TEMPERATURE"@.len() != "READ_IOUT"@.len());
            assert("STATUS_TEMPERATURE"@.len() != "READ_PIN"@.len());
            assert("STATUS_TEMPERATURE"@.len() != "READ_POUT"@.len());
            assert("STATUS_TEMPERATURE"@[0] != "READ_TEMPERATURE_1"@[0]);
            assert("STATUS_TEMPERATURE"@[0] != "READ_TEMPERATURE_2"@[0]);
            assert("STATUS_TEMPERATURE"@.len() != "READ_VIN"@.len());
            assert("STATUS_TEMPERATURE"@.len() != "READ_VOUT"@.len());
            assert("STATUS_TEMPERATURE"@.len() != "STATUS_FANS_1_2"@.len());
            assert("STATUS_TEMPERATURE"@.len() != "STATUS_IOUT"@.len());
            assert(pmbus_standard_code(pmbus_name(3)) == Some(pmbus_code(3)));
        } else if i == 4 {
            assert("STATUS_FANS_1_2"@.len() != "MFR_ID"@.len());
            assert("STATUS_FANS_1_2"@.len() != "MFR_MODEL"@.len());
            assert("STATUS_FANS_1_2"@.len() != "MFR_REVISION"@.len());
            assert("STATUS_FANS_1_2"@.len() != "PMBUS_REVISION"@.len());
            assert("STATUS_FANS_1_2"@.len() != "READ_FAN_SPEED_1"@.len());
            assert("STATUS_FANS_1_2"@.len() != "READ_IIN"@.len());
            assert("STATUS_FANS_1_2"@.len() != "READ_IOUT"@.len());
            assert("STATUS_FANS_1_2"@.len() != "READ_PIN"@.len());
            assert("STATUS_FANS_1_2"@.len() != "READ_POUT"@.len());
            assert("STATUS_FANS_1_2"@.len() != "READ_TEMPERATURE_1"@.len());
            assert("STATUS_FANS_1_2"@.len() != "READ_TEMPERATURE_2"@.len());
            assert("STATUS_FANS_1_2"@.len() != "READ_VIN"@.len());
            assert("STATUS_FANS_1_2"@.len() != "READ_VOUT"@.len());
            assert(pmbus_standard_code(pmbus_name(4)) == Some(pmbus_code(4)));
        } else if i == 5 {
            assert("READ_VIN"@.len() != "MFR_ID"@.len());
            assert("READ_VIN"@.len() != "MFR_MODEL"@.len());
            assert("READ_VIN"@.len() != "MFR_REVISION"@.len());
            assert("READ_VIN"@.len() != "PMBUS_REVISION"@.len());
            assert("READ_VIN"@.len() != "READ_FAN_SPEED_1"@.len());
            assert("READ_VIN"@[5] != "READ_IIN"@[5]);
            assert("READ_VIN"@.len() != "READ_IOUT"@.len());
            assert("READ_VIN"@[5] != "READ_PIN"@[5]);
            assert("READ_VIN"@.len() != "READ_POUT"@.len());
            assert("READ_VIN"@.len() != "READ_TEMPERATURE_1"@.len());
            assert("READ_VIN"@.len() != "READ_TEMPERATURE_2"@.len());
            assert(pmbus_standard_code(pmbus_name(5)) == Some(pmbus_code(5)));
        } else if i == 6 {
            assert("READ_IIN"@.len() != "MFR_ID"@.len());
            assert("READ_IIN"@.len() != "MFR_MODEL"@.len());
            assert("READ_IIN"@.len() != "MFR_REVISION"@.len());
            assert("READ_IIN"@.len() != "PMBUS_REVISION"@.len());
            assert("READ_IIN"@.len() != "READ_FAN_SPEED_1"@.len());
            assert(pmbus_standard_code(pmbus_name(6)) == Some(pmbus_code(6)));
        } else if i == 7 {
            assert("READ_VOUT"@.len() != "MFR_ID"@.len());
            assert("READ_VOUT"@[0] != "MFR_MODEL"@[0]);
            assert("READ_VOUT"@.len() != "MFR_REVISION"@.len());
            assert("READ_VOUT"@.len() != "PMBUS_REVISION"@.len());
            assert("READ_VOUT"@.len() != "READ_FAN_SPEED_1"@.len());
            assert("READ_VOUT"@.len() != "READ_IIN"@.len());
            assert("READ_VOUT"@[5] != "READ_IOUT"@[5]);
            assert("READ_VOUT"@.len() != "READ_PIN"@.len());
            assert("READ_VOUT"@[5] != "READ_POUT"@[5]);
            assert("READ_VOUT"@.len() != "READ_TEMPERATURE_1"@.len());
            assert("READ_VOUT"@.len() != "READ_TEMPERATURE_2"@.len());
            assert("READ_VOUT"@.len() != "READ_VIN"@.len());
            assert(pmbus_standard_code(pmbus_name(7)) == Some(pmbus_code(7)));
        } else if i == 8 {
            assert("READ_IOUT"@.len() != "MFR_ID"@.len());
            assert("READ_IOUT"@[0] != "MFR_MODEL"@[0]);
            assert("READ_IOUT"@.len() != "MFR_REVISION"@.len());
            assert("READ_IOUT"@.len() != "PMBUS_REVISION"@.len());
            assert("READ_IOUT"@.len() != "READ_FAN_SPEED_1"@.len());
            assert("READ_IOUT"@.len() != "READ_IIN"@.len());
            assert(pmbus_standard_code(pmbus_name(8)) == Some(pmbus_code(8)));
        } else if i == 9 {
            assert("READ_TEMPERATURE_1"@.len() != "MFR_ID"@.len());
            assert("READ_TEMPERATURE_1"@.len() != "MFR_MODEL"@.len());
            assert("READ_TEMPERATURE_1"@.len() != "MFR_REVISION"@.len());
            assert("READ_TEMPERATURE_1"@.len() != "PMBUS_REVISION"@.len());
            assert("READ_TEMPERATURE_1"@.len() != "READ_FAN_SPEED_1"@.len());
            assert("READ_TEMPERATURE_1"@.len() != "READ_IIN"@.len());
            assert("READ_TEMPERATURE_1"@.len() != "READ_IOUT"@.len());
            assert("READ_TEMPERATURE_1"@.len() != "READ_PIN"@.len());
            assert("READ_TEMPERATURE_1"@.len() != "READ_POUT"@.len());
            assert(pmbus_standard_code(pmbus_name(9)) == Some(pmbus_code(9)));
        } else if i == 10 {
            assert("READ_TEMPERATURE_2"@.len() != "MFR_ID"@.len());
            assert("READ_TEMPERATURE_2"@.len() != "MFR_MODEL"@.len());
            assert("READ_TEMPERATURE_2"@.len() != "MFR_REVISION"@.len());
            assert("READ_TEMPERATURE_2"@.len() != "PMBUS_REVISION"@.len());
            assert("READ_TEMPERATURE_2"@.len() != "READ_FAN_SPEED_1"@.len());
            assert("READ_TEMPERATURE_2"@.len() != "READ_IIN"@.len());
            assert("READ_TEMPERATURE_2"@.len() != "READ_IOUT"@.len());
            assert("READ_TEMPERATURE_2"@.len() != "READ_PIN"@.len());
            assert("READ_TEMPERATURE_2"@.len() != "READ_POUT"@.len());
            assert("READ_TEMPERATURE_2"@[17] != "READ_TEMPERATURE_1"@[17]);
            assert(pmbus_standard_code(pmbus_name(10)) == Some(pmbus_code(10)));
        } else if i == 11 {
            assert("READ_FAN_SPEED_1"@.len() != "MFR_ID"@.len());
            assert("READ_FAN_SPEED_1"@.len() != "MFR_MODEL"@.len());
            assert("READ_FAN_SPEED_1"@.len() != "MFR_REVISION"@.len());
            assert("READ_FAN_SPEED_1"@.len() != "PMBUS_REVISION"@.len());
            assert(pmbus_standard_code(pmbus_name(11)) == Some(pmbus_code(11)));
        } else if i == 12 {
            assert("READ_POUT"@.len() != "MFR_ID"@.len());
            assert("READ_POUT"@[0] != "MFR_MODEL"@[0]);
            assert("READ_POUT"@.len() != "MFR_REVISION"@.len());
            assert("READ_POUT"@.len() != "PMBUS_REVISION"@.len());
            assert("READ_POUT"@.len() != "READ_FAN_SPEED_1"@.len());
            assert("READ_POUT"@.len() != "READ_IIN"@.len());
            assert("READ_POUT"@[5] != "READ_IOUT"@[5]);
            assert("READ_POUT"@.len() != "READ_PIN"@.len());
            assert(pmbus_standard_code(pmbus_name(12)) == Some(pmbus_code(12)));
        } else if i == 13 {
            assert("READ_PIN"@.len() != "MFR_ID"@.len());
            assert("READ_PIN"@.len() != "MFR_MODEL"@.len());
            assert("READ_PIN"@.len() != "MFR_REVISION"@.len());
            assert("READ_PIN"@.len() != "PMBUS_REVISION"@.len());
            assert("READ_PIN"@.len() != "READ_FAN_SPEED_1"@.len());
            assert("READ_PIN"@[5] != "READ_IIN"@[5]);
            assert("READ_PIN"@.len() != "READ_IOUT"@.len());
            assert(pmbus_standard_code(pmbus_name(13)) == Some(pmbus_code(13)));
        } else if i == 14 {
            assert("PMBUS_REVISION"@.len() != "MFR_ID"@.len());
            assert("PMBUS_REVISION"@.len() != "MFR_MODEL"@.len());
            assert("PMBUS_REVISION"@.len() != "MFR_REVISION"@.len());
            assert(pmbus_standard_code(pmbus_name(14)) == Some(pmbus_code(14)));
        } else if i == 15 {
            assert(pmbus_standard_code(pmbus_name(15)) == Some(pmbus_code(15)));
        } else if i == 16 {
            assert("MFR_MODEL"@.len() != "MFR_ID"@.len());
            assert(pmbus_standard_code(pmbus_name(16)) == Some(pmbus_code(16)));
        } else if i == 17 {
            assert("MFR_REVISION"@.len() != "MFR_ID"@.len());
            assert("MFR_REVISION"@.len() != "MFR_MODEL"@.len());
            assert(pmbus_standard_code(pmbus_name(17)) == Some(pmbus_code(17)));
        }
    }
}

} // verus!
