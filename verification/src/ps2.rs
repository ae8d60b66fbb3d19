//! PS/2 controller support: status-register decoding and the keyboard
//! identification handshake.
//!
//! The handshake alternates command writes on the data port with reads of
//! the device's replies. The replies a run consumes are passed in as a
//! sequence of bytes, in the order the data port would yield them; the
//! functions here decide everything else. [`IdentifyPhase`] exposes the
//! same protocol one step at a time for a runtime that performs each port
//! access as it goes.

use vstd::prelude::*;

verus! {

/// Status-register bit for "output buffer full".
pub const OUTPUT_BUFFER_STATUS: u8 = 1;

/// Status-register bit for "input buffer full".
pub const INPUT_BUFFER_STATUS: u8 = 2;

/// Status-register bit for the system flag.
pub const SYSTEM_FLAG: u8 = 4;

/// Status-register bit for "byte is for a device".
pub const COMMAND_OR_DATA: u8 = 8;

/// Status-register bit for a timeout error.
pub const TIME_OUT_ERROR: u8 = 0x40;

/// Status-register bit for a parity error.
pub const PARITY_ERROR: u8 = 0x80;

/// The universal PS/2 acknowledgment byte.
pub const ACK: u8 = 0xFA;

/// Decoded PS/2 status register.
#[derive(Clone, Copy, Debug, PartialEq, Eq, Structural)]
pub struct PS2Status {
    pub output_buf_full: bool,
    pub input_buf_full: bool,
    pub sys_flag: bool,
    pub data_for_device: bool,
}

/// Error flags of the status register.
#[derive(Clone, Copy, Debug, PartialEq, Eq, Structural)]
pub enum PS2Error {
    TimeOut,
    Parity,
}

/// Commands sent to a PS/2 device over the data port.
#[derive(Clone, Copy, Debug, PartialEq, Eq, Structural)]
pub enum PS2DeviceCommand {
    Identify,
    EnableScanning,
    DisableScanning,
}

/// The byte on the wire for each device command.
pub open spec fn spec_command_byte(c: PS2DeviceCommand) -> u8 {
    match c {
        PS2DeviceCommand::Identify => 0xF2,
        PS2DeviceCommand::EnableScanning => 0xF4,
        PS2DeviceCommand::DisableScanning => 0xF5,
    }
}

impl PS2DeviceCommand {
    /// The byte on the wire for this command.
    pub fn byte(self) -> (b: u8)
        ensures
            b == spec_command_byte(self),
    {
        match self {
            PS2DeviceCommand::Identify => 0xF2,
            PS2DeviceCommand::EnableScanning => 0xF4,
            PS2DeviceCommand::DisableScanning => 0xF5,
        }
    }
}

/// How decoding a status-register byte comes out.
pub open spec fn spec_decode_status(status_reg: u8) -> Result<PS2Status, PS2Error> {
    if status_reg & TIME_OUT_ERROR != 0 {
        Err(PS2Error::TimeOut)
    } else if status_reg & PARITY_ERROR != 0 {
        Err(PS2Error::Parity)
    } else {
        Ok(PS2Status {
            output_buf_full: status_reg & OUTPUT_BUFFER_STATUS != 0,
            input_buf_full: status_reg & INPUT_BUFFER_STATUS != 0,
            sys_flag: status_reg & SYSTEM_FLAG != 0,
            data_for_device: status_reg & COMMAND_OR_DATA != 0,
        })
    }
}

/// Decode one byte read from the status/command register. Error flags take
/// precedence; otherwise each condition flag is the test of its bit.
/// Used for diagnostics only: the handshake's control flow never consults
/// the status register.
pub fn read_status(status_reg: u8) -> (r: Result<PS2Status, PS2Error>)
    ensures
        r == spec_decode_status(status_reg),
{
    if crate::util::read_bit_mask(status_reg, TIME_OUT_ERROR) {
        return Err(PS2Error::TimeOut);
    }
    if crate::util::read_bit_mask(status_reg, PARITY_ERROR) {
        return Err(PS2Error::Parity);
    }
    Ok(PS2Status {
        output_buf_full: crate::util::read_bit_mask(status_reg, OUTPUT_BUFFER_STATUS),
        input_buf_full: crate::util::read_bit_mask(status_reg, INPUT_BUFFER_STATUS),
        sys_flag: crate::util::read_bit_mask(status_reg, SYSTEM_FLAG),
        data_for_device: crate::util::read_bit_mask(status_reg, COMMAND_OR_DATA),
    })
}

/// Why identifying the keyboard failed.
#[derive(Clone, Copy, Debug, PartialEq, Eq, Structural)]
pub enum KeyboardInitError {
    NoDisableAck,
    NoIdentiyAck,
    Unknown,
}

/// Controller initialisation before the identification handshake. The
/// boot path taken here needs none: the BIOS leaves the first PS/2 port
/// usable, and identification begins with its own DisableScanning command.
pub fn init_ps2() {
}

/// How the identification handshake comes out, given the bytes the data
/// port yields in order: DisableScanning must be acknowledged, then
/// Identify must be acknowledged, then the next two bytes are the
/// device's identification pair.
pub open spec fn spec_identify(reads: Seq<u8>) -> Result<(u8, u8), KeyboardInitError> {
    if reads[0] != ACK {
        Err(KeyboardInitError::NoDisableAck)
    } else if reads[1] != ACK {
        Err(KeyboardInitError::NoIdentiyAck)
    } else {
        Ok((reads[2], reads[3]))
    }
}

/// The bytes a run of the handshake writes to the data port, given the
/// bytes the data port yields: DisableScanning always; Identify once the
/// first ACK arrived; EnableScanning once both ACKs arrived.
pub open spec fn spec_identify_writes(reads: Seq<u8>) -> Seq<u8> {
    if reads[0] != ACK {
        seq![0xF5u8]
    } else if reads[1] != ACK {
        seq![0xF5u8, 0xF2u8]
    } else {
        seq![0xF5u8, 0xF2u8, 0xF4u8]
    }
}

/// Run the identification handshake over the bytes the data port yields.
/// Returns the device's identification pair, and the data-port writes the
/// run performed, exactly when the spec of the protocol says so.
///
/// Every read of the protocol blocks until a byte arrives, so a
/// run consumes at most four bytes; the caller supplies that many.
pub fn identity_devices(reads: &Vec<u8>) -> (r: (Vec<u8>, Result<(u8, u8), KeyboardInitError>))
    requires
        reads@.len() >= 4,
    ensures
        r.1 == spec_identify(reads@),
        r.0@ == spec_identify_writes(reads@),
{
    let mut writes: Vec<u8> = Vec::new();
    // Send disable scanning command (0xF5) to device
    writes.push(PS2DeviceCommand::DisableScanning.byte());
    // Wait for ACK (0xFA)
    if reads[0] != ACK {
        proof {
            assert(writes@ =~= spec_identify_writes(reads@));
        }
        return (writes, Err(KeyboardInitError::NoDisableAck));
    }

    // Send identify command (0xF2)
    writes.push(PS2DeviceCommand::Identify.byte());

    // Wait for ACK (0xFA)
    if reads[1] != ACK {
        proof {
            assert(writes@ =~= spec_identify_writes(reads@));
        }
        return (writes, Err(KeyboardInitError::NoIdentiyAck));
    }

    // Read the identification pair
    let b1 = reads[2];
    let b2 = reads[3];
    // Send enable scanning command (0xF4)
    writes.push(PS2DeviceCommand::EnableScanning.byte());
    proof {
        assert(writes@ =~= spec_identify_writes(reads@));
    }
    (writes, Ok((b1, b2)))
}

/// Where a step-at-a-time run of the identification handshake stands.
#[derive(Clone, Copy, Debug, PartialEq, Eq, Structural)]
pub enum IdentifyPhase {
    SendDisable,
    AwaitDisableAck,
    SendIdentify,
    AwaitIdentifyAck,
    AwaitIdByte1,
    AwaitIdByte2 { first: u8 },
    SendEnable { first: u8, second: u8 },
    Done { first: u8, second: u8 },
    Failed { error: KeyboardInitError },
}

/// What a runtime must do next on the data port to continue a handshake.
#[derive(Clone, Copy, Debug, PartialEq, Eq, Structural)]
pub enum Ps2Action {
    WriteData(u8),
    ReadData,
    Finished,
}

/// The pending data-port action of each phase.
pub open spec fn spec_identify_action(phase: IdentifyPhase) -> Ps2Action {
    match phase {
        IdentifyPhase::SendDisable => Ps2Action::WriteData(0xF5),
        IdentifyPhase::AwaitDisableAck => Ps2Action::ReadData,
        IdentifyPhase::SendIdentify => Ps2Action::WriteData(0xF2),
        IdentifyPhase::AwaitIdentifyAck => Ps2Action::ReadData,
        IdentifyPhase::AwaitIdByte1 => Ps2Action::ReadData,
        IdentifyPhase::AwaitIdByte2 { .. } => Ps2Action::ReadData,
        IdentifyPhase::SendEnable { .. } => Ps2Action::WriteData(0xF4),
        IdentifyPhase::Done { .. } => Ps2Action::Finished,
        IdentifyPhase::Failed { .. } => Ps2Action::Finished,
    }
}

/// The phase after performing the pending action; `response` is the byte
/// a read yielded.
pub open spec fn spec_identify_advance(phase: IdentifyPhase, response: Option<u8>) -> IdentifyPhase {
    match phase {
        IdentifyPhase::SendDisable => IdentifyPhase::AwaitDisableAck,
        IdentifyPhase::AwaitDisableAck => if response->0 == ACK {
            IdentifyPhase::SendIdentify
        } else {
            IdentifyPhase::Failed { error: KeyboardInitError::NoDisableAck }
        },
        IdentifyPhase::SendIdentify => IdentifyPhase::AwaitIdentifyAck,
        IdentifyPhase::AwaitIdentifyAck => if response->0 == ACK {
            IdentifyPhase::AwaitIdByte1
        } else {
            IdentifyPhase::Failed { error: KeyboardInitError::NoIdentiyAck }
        },
        IdentifyPhase::AwaitIdByte1 => IdentifyPhase::AwaitIdByte2 { first: response->0 },
        IdentifyPhase::AwaitIdByte2 { first } => IdentifyPhase::SendEnable {
            first,
            second: response->0,
        },
        IdentifyPhase::SendEnable { first, second } => IdentifyPhase::Done { first, second },
        IdentifyPhase::Done { .. } => phase,
        IdentifyPhase::Failed { .. } => phase,
    }
}

/// The terminal phase a driver of the step machine reaches over the
/// bytes the data port yields: it performs each pending action, hands
/// each read byte to [`spec_identify_advance`], and stops at a terminal
/// phase.
pub open spec fn spec_run_identify(reads: Seq<u8>) -> IdentifyPhase {
    let awaiting = spec_identify_advance(IdentifyPhase::SendDisable, None);
    let after_first = spec_identify_advance(awaiting, Some(reads[0]));
    if after_first is Failed {
        after_first
    } else {
        let awaiting = spec_identify_advance(after_first, None);
        let after_second = spec_identify_advance(awaiting, Some(reads[1]));
        if after_second is Failed {
            after_second
        } else {
            let got_first = spec_identify_advance(after_second, Some(reads[2]));
            let got_second = spec_identify_advance(got_first, Some(reads[3]));
            spec_identify_advance(got_second, None)
        }
    }
}

/// The step machine and the one-shot run agree: over the same data-port
/// bytes, the machine ends `Done` with exactly the pair the one-shot run
/// returns, and `Failed` with exactly its error.
pub proof fn lemma_step_machine_matches_identify(reads: Seq<u8>)
    ensures
        spec_identify(reads) matches Ok(pair) ==> spec_run_identify(reads) == (IdentifyPhase::Done {
            first: pair.0,
            second: pair.1,
        }),
        spec_identify(reads) matches Err(e) ==> spec_run_identify(reads)
            == (IdentifyPhase::Failed { error: e }),
{
}

/// The data-port action pending in a phase of the handshake.
pub fn identify_action(phase: &IdentifyPhase) -> (a: Ps2Action)
    ensures
        a == spec_identify_action(*phase),
{
    match phase {
        IdentifyPhase::SendDisable => Ps2Action::WriteData(0xF5),
        IdentifyPhase::AwaitDisableAck => Ps2Action::ReadData,
        IdentifyPhase::SendIdentify => Ps2Action::WriteData(0xF2),
        IdentifyPhase::AwaitIdentifyAck => Ps2Action::ReadData,
        IdentifyPhase::AwaitIdByte1 => Ps2Action::ReadData,
        IdentifyPhase::AwaitIdByte2 { .. } => Ps2Action::ReadData,
        IdentifyPhase::SendEnable { .. } => Ps2Action::WriteData(0xF4),
        IdentifyPhase::Done { .. } => Ps2Action::Finished,
        IdentifyPhase::Failed { .. } => Ps2Action::Finished,
    }
}

/// Advance the handshake past its pending action. `response` carries the
/// byte that arrived when the action was a read, and nothing otherwise.
pub fn identify_advance(phase: IdentifyPhase, response: Option<u8>) -> (next: IdentifyPhase)
    requires
        (response is Some) <==> (spec_identify_action(phase) is ReadData),
    ensures
        next == spec_identify_advance(phase, response),
{
    match phase {
        IdentifyPhase::SendDisable => IdentifyPhase::AwaitDisableAck,
        IdentifyPhase::AwaitDisableAck => {
            if response.unwrap() == ACK {
                IdentifyPhase::SendIdentify
            } else {
                IdentifyPhase::Failed { error: KeyboardInitError::NoDisableAck }
            }
        },
        IdentifyPhase::SendIdentify => IdentifyPhase::AwaitIdentifyAck,
        IdentifyPhase::AwaitIdentifyAck => {
            if response.unwrap() == ACK {
                IdentifyPhase::AwaitIdByte1
            } else {
                IdentifyPhase::Failed { error: KeyboardInitError::NoIdentiyAck }
            }
        },
        IdentifyPhase::AwaitIdByte1 => IdentifyPhase::AwaitIdByte2 { first: response.unwrap() },
        IdentifyPhase::AwaitIdByte2 { first } => IdentifyPhase::SendEnable {
            first,
            second: response.unwrap(),
        },
        IdentifyPhase::SendEnable { first, second } => IdentifyPhase::Done { first, second },
        IdentifyPhase::Done { first, second } => IdentifyPhase::Done { first, second },
        IdentifyPhase::Failed { error } => IdentifyPhase::Failed { error },
    }
}

} // verus!
