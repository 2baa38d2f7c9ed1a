use vstd::prelude::*;

use crate::command::{command_data_frame_spec, enter_config_mode, set_bluetooth_enabled};
use crate::config::Config;
use crate::RadarError;

verus! {

/// Marker for a radar that streams target frames.
pub struct NormalMode;

/// Marker for a radar that accepts command frames.
pub struct ConfigurationMode;

/// The serial port threw errors during a state change and it is
/// unclear whether the radar is in normal or configuration mode
pub struct Desync;

/// What the driver believes about the radar's mode.
#[derive(Debug, Clone, Copy, PartialEq, Eq, Structural)]
pub enum SessionMode {
    /// The radar streams target frames
    Normal,
    /// The radar accepts command frames
    Configuration,
    /// A mode change failed half way; the radar's mode is unknown
    Desynchronized,
}

/// Driver for the LD2450 radar module
pub struct LD2450<Serial> {
    serial: Serial,
    mode: SessionMode,
}

impl<Serial> LD2450<Serial> {
    pub closed spec fn spec_serial(&self) -> Serial {
        self.serial
    }

    pub closed spec fn spec_mode(&self) -> SessionMode {
        self.mode
    }

    /// Initializes the radar. Whatever configuration was previously
    /// set will be reused.
    pub fn new_recycled_config(serial: Serial) -> (r: Self)
        ensures
            r.spec_serial() == serial,
            r.spec_mode() == SessionMode::Normal,
    {
        LD2450 { serial, mode: SessionMode::Normal }
    }

    /// Initializes the radar with a serial port and a configuration. The
    /// configuration is not sent to the radar: the settings it already holds
    /// stay in force until they are changed one by one.
    pub fn new(serial: Serial, config: Config) -> (r: Self)
        ensures
            r.spec_serial() == serial,
            r.spec_mode() == SessionMode::Normal,
    {
        LD2450 { serial, mode: SessionMode::Normal }
    }

    /// What the driver believes about the radar's mode.
    pub fn mode(&self) -> (r: SessionMode)
        ensures
            r == self.spec_mode(),
    {
        self.mode
    }

    /// The serial port, for the reads and writes that the driver's steps ask for.
    pub fn serial_mut(&mut self) -> (r: &mut Serial)
        ensures
            *r == old(self).spec_serial(),
            final(self).spec_serial() == *final(r),
            final(self).spec_mode() == old(self).spec_mode(),
    {
        &mut self.serial
    }

    /// Consumes the driver and returns the inner serial port
    pub fn into_inner(self) -> (r: Serial)
        ensures
            r == self.spec_serial(),
    {
        self.serial
    }

    /// Starts switching bluetooth on or off. Once the session is
    /// desynchronized no mode change is attempted: the sequence is finished
    /// at once with the desync error.
    pub fn set_bluetooth_enabled(&self, enabled: bool) -> (r: BluetoothToggle)
        ensures
            self.spec_mode() != SessionMode::Desynchronized ==> r == BluetoothToggle::spec_start(enabled),
            self.spec_mode() == SessionMode::Desynchronized ==> r == (BluetoothToggle {
                stage: ToggleStage::Finished,
                enabled,
                set_ok: false,
                outcome: Err(RadarError::Desyncronized),
            }),
    {
        if self.mode == SessionMode::Desynchronized {
            BluetoothToggle {
                stage: ToggleStage::Finished,
                enabled,
                set_ok: false,
                outcome: Err(RadarError::Desyncronized),
            }
        } else {
            BluetoothToggle::start(enabled)
        }
    }

    /// Takes the outcome of a finished bluetooth switch: a desync error
    /// leaves the session desynchronized for good, any other outcome leaves
    /// the radar in normal mode.
    pub fn finish_bluetooth_toggle(&mut self, toggle: &BluetoothToggle) -> (r: Result<(), RadarError>)
        requires
            toggle.stage == ToggleStage::Finished,
        ensures
            r == toggle.outcome,
            final(self).spec_serial() == old(self).spec_serial(),
            final(self).spec_mode() == if r == Err::<(), RadarError>(RadarError::Desyncronized) {
                SessionMode::Desynchronized
            } else {
                SessionMode::Normal
            },
    {
        let r = toggle.outcome;
        match r {
            Err(RadarError::Desyncronized) => {
                self.mode = SessionMode::Desynchronized;
            },
            _ => {
                self.mode = SessionMode::Normal;
            },
        }
        r
    }
}

/// Steps of switching bluetooth on or off.
#[derive(Debug, Clone, Copy, PartialEq, Eq, Structural)]
pub enum ToggleStage {
    /// Sending "enter configuration mode"
    EnterConfig,
    /// Sending the bluetooth setting
    SetBluetooth,
    /// Sending "enter configuration mode" again, to close the transaction
    Reenter,
    /// Awaiting the acknowledgement that closes the transaction
    AwaitAck,
    /// Done; the outcome is known
    Finished,
}

/// What the transport has to do next for a bluetooth switch.
pub enum ToggleAction {
    /// Write these bytes, then report whether that succeeded
    Write(Vec<u8>),
    /// Read an acknowledgement with this many payload bytes, then report
    /// whether that succeeded
    ReadAck(usize),
    /// The sequence is over, with this result
    Finish(Result<(), RadarError>),
}

/// State of a bluetooth switch: the step it is at, the setting sent, whether
/// the setting itself was written, and the outcome once finished.
#[derive(Debug, Clone, Copy)]
pub struct BluetoothToggle {
    pub stage: ToggleStage,
    pub enabled: bool,
    pub set_ok: bool,
    pub outcome: Result<(), RadarError>,
}

impl BluetoothToggle {
    pub open spec fn spec_start(enabled: bool) -> BluetoothToggle {
        BluetoothToggle { stage: ToggleStage::EnterConfig, enabled, set_ok: false, outcome: Ok(()) }
    }

    /// The state after the transport reports whether the current step
    /// succeeded. A failure to enter configuration mode, to send the closing
    /// command or to read its acknowledgement desynchronizes the session; a
    /// failure to send the setting itself is remembered and reported only
    /// when the transaction was closed cleanly.
    pub open spec fn spec_next(self, ok: bool) -> BluetoothToggle {
        match self.stage {
            ToggleStage::EnterConfig => if ok {
                BluetoothToggle { stage: ToggleStage::SetBluetooth, ..self }
            } else {
                BluetoothToggle {
                    stage: ToggleStage::Finished,
                    outcome: Err(RadarError::Desyncronized),
                    ..self
                }
            },
            ToggleStage::SetBluetooth => BluetoothToggle {
                stage: ToggleStage::Reenter,
                set_ok: ok,
                ..self
            },
            ToggleStage::Reenter => if ok {
                BluetoothToggle { stage: ToggleStage::AwaitAck, ..self }
            } else {
                BluetoothToggle {
                    stage: ToggleStage::Finished,
                    outcome: Err(RadarError::Desyncronized),
                    ..self
                }
            },
            ToggleStage::AwaitAck => BluetoothToggle {
                stage: ToggleStage::Finished,
                outcome: if !ok {
                    Err(RadarError::Desyncronized)
                } else if self.set_ok {
                    Ok(())
                } else {
                    Err(RadarError::SerialError)
                },
                ..self
            },
            ToggleStage::Finished => self,
        }
    }

    /// The state after the transport has reported each result of `events` in turn.
    pub open spec fn spec_run(self, events: Seq<bool>) -> BluetoothToggle
        decreases events.len(),
    {
        if events.len() == 0 {
            self
        } else {
            self.spec_run(events.drop_last()).spec_next(events.last())
        }
    }

    /// A switch to `enabled` that has not started yet.
    pub fn start(enabled: bool) -> (r: BluetoothToggle)
        ensures
            r == BluetoothToggle::spec_start(enabled),
    {
        BluetoothToggle { stage: ToggleStage::EnterConfig, enabled, set_ok: false, outcome: Ok(()) }
    }

    /// What the transport has to do for the current step.
    pub fn action(&self) -> (r: ToggleAction)
        ensures
            self.stage == ToggleStage::EnterConfig || self.stage == ToggleStage::Reenter
                ==> r is Write && r->Write_0@ == command_data_frame_spec(0x0001, 0x0001),
            self.stage == ToggleStage::SetBluetooth ==> r is Write && r->Write_0@
                == command_data_frame_spec(0x00A4, if self.enabled { 1 } else { 0 }),
            self.stage == ToggleStage::AwaitAck ==> r is ReadAck && r->ReadAck_0 == 2,
            self.stage == ToggleStage::Finished ==> r is Finish && r->Finish_0 == self.outcome,
    {
        match self.stage {
            ToggleStage::EnterConfig => ToggleAction::Write(enter_config_mode()),
            ToggleStage::SetBluetooth => ToggleAction::Write(set_bluetooth_enabled(self.enabled)),
            ToggleStage::Reenter => ToggleAction::Write(enter_config_mode()),
            ToggleStage::AwaitAck => ToggleAction::ReadAck(2),
            ToggleStage::Finished => ToggleAction::Finish(self.outcome),
        }
    }

    /// Takes the transport's report on the current step.
    pub fn advance(&mut self, ok: bool)
        ensures
            *final(self) == old(self).spec_next(ok),
    {
        match self.stage {
            ToggleStage::EnterConfig => {
                if ok {
                    self.stage = ToggleStage::SetBluetooth;
                } else {
                    self.stage = ToggleStage::Finished;
                    self.outcome = Err(RadarError::Desyncronized);
                }
            },
            ToggleStage::SetBluetooth => {
                self.stage = ToggleStage::Reenter;
                self.set_ok = ok;
            },
            ToggleStage::Reenter => {
                if ok {
                    self.stage = ToggleStage::AwaitAck;
                } else {
                    self.stage = ToggleStage::Finished;
                    self.outcome = Err(RadarError::Desyncronized);
                }
            },
            ToggleStage::AwaitAck => {
                self.stage = ToggleStage::Finished;
                self.outcome = if !ok {
                    Err(RadarError::Desyncronized)
                } else if self.set_ok {
                    Ok(())
                } else {
                    Err(RadarError::SerialError)
                };
            },
            ToggleStage::Finished => {},
        }
    }
}

/// Desync dominates: when entering configuration mode, sending the closing
/// command or reading its acknowledgement fails, the switch finishes with the
/// desync error, whether or not the setting itself was written.
pub proof fn lemma_desync_dominates(enabled: bool, enter_ok: bool, set_ok: bool, reenter_ok: bool, ack_ok: bool)
    requires
        !enter_ok || !reenter_ok || !ack_ok,
    ensures
        ({
            let t = BluetoothToggle::spec_start(enabled).spec_run(seq![enter_ok, set_ok, reenter_ok, ack_ok]);
            t.stage == ToggleStage::Finished && t.outcome == Err::<(), RadarError>(RadarError::Desyncronized)
        }),
{
    reveal_with_fuel(BluetoothToggle::spec_run, 5);
    let e = seq![enter_ok, set_ok, reenter_ok, ack_ok];
    assert(e.drop_last() =~= seq![enter_ok, set_ok, reenter_ok]);
    assert(e.drop_last().drop_last() =~= seq![enter_ok, set_ok]);
    assert(e.drop_last().drop_last().drop_last() =~= seq![enter_ok]);
    assert(e.drop_last().drop_last().drop_last().drop_last() =~= Seq::<bool>::empty());
}

/// When the mode change around it succeeds, the switch reports whether the
/// setting itself was written.
pub proof fn lemma_clean_transaction_reports_setting(enabled: bool, set_ok: bool)
    ensures
        ({
            let t = BluetoothToggle::spec_start(enabled).spec_run(seq![true, set_ok, true, true]);
            &&& t.stage == ToggleStage::Finished
            &&& set_ok ==> t.outcome is Ok
            &&& !set_ok ==> t.outcome == Err::<(), RadarError>(RadarError::SerialError)
        }),
{
    reveal_with_fuel(BluetoothToggle::spec_run, 5);
    let e = seq![true, set_ok, true, true];
    assert(e.drop_last() =~= seq![true, set_ok, true]);
    assert(e.drop_last().drop_last() =~= seq![true, set_ok]);
    assert(e.drop_last().drop_last().drop_last() =~= seq![true]);
    assert(e.drop_last().drop_last().drop_last().drop_last() =~= Seq::<bool>::empty());
}

} // verus!
