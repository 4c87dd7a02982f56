//! Vehicle commands sent to the flight controller and the messages that
//! carry them.
use vstd::prelude::*;

verus! {

/// MAVLink command number that sets the flight mode.
pub const VEHICLE_CMD_DO_SET_MODE: u32 = 176;
/// MAVLink command number that arms or disarms the vehicle.
pub const VEHICLE_CMD_COMPONENT_ARM_DISARM: u32 = 400;
/// MAVLink command number that lands at the current position.
pub const VEHICLE_CMD_NAV_LAND: u32 = 21;

/// Base mode flag value that enables custom modes.
pub const MODE_FLAG_CUSTOM_MODE_ENABLED: i32 = 1;
/// PX4 main mode number of off-board control.
pub const PX4_CUSTOM_MAIN_MODE_OFFBOARD: i32 = 6;

/// System and component identifiers written into every command.
pub const TARGET_SYSTEM: u8 = 1;
pub const TARGET_COMPONENT: u8 = 1;
pub const SOURCE_SYSTEM: u8 = 1;
pub const SOURCE_COMPONENT: u16 = 1;

/// The commands that the mission issues.
#[derive(Clone, Copy, Debug, PartialEq, Eq, Structural)]
pub enum VehicleCommandKind {
    /// Switch to off-board mode.
    SetOffboardMode,
    /// Arm the motors.
    Arm,
    /// Disarm the motors.
    Disarm,
    /// Land where the vehicle is.
    Land,
}

/// A vehicle command message. The parameters of the commands used here are
/// all whole numbers; they are sent as floats by whoever publishes the
/// message.
#[derive(Clone, Copy, Debug, PartialEq, Eq, Structural)]
pub struct CommandMessage {
    /// Time stamp in microseconds since the Unix epoch.
    pub timestamp: u64,
    pub param1: i32,
    pub param2: i32,
    pub param3: i32,
    pub param4: i32,
    pub param5: i32,
    pub param6: i32,
    pub param7: i32,
    pub command: u32,
    pub target_system: u8,
    pub target_component: u8,
    pub source_system: u8,
    pub source_component: u16,
    pub confirmation: u8,
    pub from_external: bool,
}

impl VehicleCommandKind {
    pub open spec fn spec_code(self) -> u32 {
        match self {
            VehicleCommandKind::SetOffboardMode => VEHICLE_CMD_DO_SET_MODE,
            VehicleCommandKind::Arm => VEHICLE_CMD_COMPONENT_ARM_DISARM,
            VehicleCommandKind::Disarm => VEHICLE_CMD_COMPONENT_ARM_DISARM,
            VehicleCommandKind::Land => VEHICLE_CMD_NAV_LAND,
        }
    }

    /// The first three parameters of the command; the others are zero.
    pub open spec fn spec_params(self) -> (i32, i32, i32) {
        match self {
            VehicleCommandKind::SetOffboardMode => (
                MODE_FLAG_CUSTOM_MODE_ENABLED,
                PX4_CUSTOM_MAIN_MODE_OFFBOARD,
                0,
            ),
            VehicleCommandKind::Arm => (1, 0, 0),
            VehicleCommandKind::Disarm => (0, 0, 0),
            VehicleCommandKind::Land => (0, 0, 0),
        }
    }

    /// The MAVLink command number.
    pub fn code(&self) -> (code: u32)
        ensures
            code == self.spec_code(),
    {
        match self {
            VehicleCommandKind::SetOffboardMode => VEHICLE_CMD_DO_SET_MODE,
            VehicleCommandKind::Arm => VEHICLE_CMD_COMPONENT_ARM_DISARM,
            VehicleCommandKind::Disarm => VEHICLE_CMD_COMPONENT_ARM_DISARM,
            VehicleCommandKind::Land => VEHICLE_CMD_NAV_LAND,
        }
    }

    /// The first three parameters of the command.
    pub fn params(&self) -> (params: (i32, i32, i32))
        ensures
            params == self.spec_params(),
    {
        match self {
            VehicleCommandKind::SetOffboardMode => (
                MODE_FLAG_CUSTOM_MODE_ENABLED,
                PX4_CUSTOM_MAIN_MODE_OFFBOARD,
                0,
            ),
            VehicleCommandKind::Arm => (1, 0, 0),
            VehicleCommandKind::Disarm => (0, 0, 0),
            VehicleCommandKind::Land => (0, 0, 0),
        }
    }

    /// The message that carries this command, stamped with `timestamp`.
    pub fn message(&self, timestamp: u64) -> (msg: CommandMessage)
        ensures
            msg == command_message_spec(
                self.spec_code(),
                self.spec_params().0,
                self.spec_params().1,
                self.spec_params().2,
                timestamp,
            ),
    {
        let (p1, p2, p3) = self.params();
        command_message(self.code(), p1, p2, p3, timestamp)
    }
}

/// The message for command number `command` with the first three
/// parameters given: the remaining parameters are zero, source and target
/// are this system's identifiers, it is the first transmission and it is
/// marked as coming from outside the flight controller.
pub open spec fn command_message_spec(
    command: u32,
    p1: i32,
    p2: i32,
    p3: i32,
    timestamp: u64,
) -> CommandMessage {
    CommandMessage {
        timestamp,
        param1: p1,
        param2: p2,
        param3: p3,
        param4: 0,
        param5: 0,
        param6: 0,
        param7: 0,
        command,
        target_system: TARGET_SYSTEM,
        target_component: TARGET_COMPONENT,
        source_system: SOURCE_SYSTEM,
        source_component: SOURCE_COMPONENT,
        confirmation: 0,
        from_external: true,
    }
}

/// Builds the message for command number `command` with parameters
/// `p1`..`p3`, stamped with `timestamp`.
pub fn command_message(command: u32, p1: i32, p2: i32, p3: i32, timestamp: u64) -> (msg:
    CommandMessage)
    ensures
        msg == command_message_spec(command, p1, p2, p3, timestamp),
{
    CommandMessage {
        timestamp,
        param1: p1,
        param2: p2,
        param3: p3,
        param4: 0,
        param5: 0,
        param6: 0,
        param7: 0,
        command,
        target_system: TARGET_SYSTEM,
        target_component: TARGET_COMPONENT,
        source_system: SOURCE_SYSTEM,
        source_component: SOURCE_COMPONENT,
        confirmation: 0,
        from_external: true,
    }
}

} // verus!
