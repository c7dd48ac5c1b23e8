//! The control-request code of each operation of the combo device, by SDK release.
//!
//! Every operation writes to the driver under the magic byte `m`. All but one
//! have a single code. The payload of `SetDevAttr` grew in two releases, which
//! therefore have a code of their own for it.

use crate::ioctl::{encode, encode_spec, CodecError, Direction, IoctlCommand};
use crate::text::{chars_of, spells};
use vstd::prelude::*;
use vstd::string::*;

verus! {

/// The magic byte of the combo device, the letter `m`.
pub const MAGIC: u8 = 109;

/// Size of the device attributes in most releases.
pub const DEV_ATTR_SIZE: u16 = 608;

/// Size of the device attributes in the releases that carry the larger payload.
pub const LARGE_DEV_ATTR_SIZE: u16 = 620;

/// An operation of the combo device.
#[derive(Clone, Copy, Debug, PartialEq, Eq, Structural)]
pub enum Operation {
    /// Initialise data lanes, input mode and data type.
    SetDevAttr,
    /// Set the common-mode voltage mode of the PHY.
    SetPhyCmvmode,
    /// Reset the sensor.
    ResetSensor,
    /// Release the sensor from reset.
    UnresetSensor,
    /// Reset the MIPI receiver.
    ResetMipi,
    /// Release the MIPI receiver from reset.
    UnresetMipi,
    /// Reset the SLVS receiver.
    ResetSlvs,
    /// Release the SLVS receiver from reset.
    UnresetSlvs,
    /// Set the high-speed lane division mode.
    SetHsMode,
    /// Switch the MIPI clock on.
    EnableMipiClock,
    /// Switch the MIPI clock off.
    DisableMipiClock,
    /// Switch the SLVS clock on.
    EnableSlvsClock,
    /// Switch the SLVS clock off.
    DisableSlvsClock,
    /// Switch the sensor clock on.
    EnableSensorClock,
    /// Switch the sensor clock off.
    DisableSensorClock,
    /// Clear all state of the combo device.
    Clear,
}

/// A release of the vendor SDK, as its four numbers.
#[derive(Clone, Copy, Debug, PartialEq, Eq, Structural)]
pub struct SdkVersion {
    pub major: u8,
    pub minor: u8,
    pub patch: u8,
    pub build: u8,
}

/// Why a lookup gave no code.
#[derive(Clone, Debug, PartialEq, Eq)]
pub enum LookupError {
    /// No operation has the name carried here.
    UnknownOperation(String),
}

impl SdkVersion {
    /// Whether this release carries the larger device attributes: 2.0.3.0 and
    /// 2.0.3.1 do, no other.
    pub open spec fn has_large_dev_attr(self) -> bool {
        self.major == 2 && self.minor == 0 && self.patch == 3 && (self.build == 0 || self.build
            == 1)
    }

    /// Whether this release carries the larger device attributes.
    pub fn carries_large_dev_attr(&self) -> (r: bool)
        ensures
            r == self.has_large_dev_attr(),
    {
        self.major == 2 && self.minor == 0 && self.patch == 3 && (self.build == 0 || self.build
            == 1)
    }
}

impl Operation {
    /// The operation's ordinal under the magic byte.
    pub open spec fn number(self) -> u8 {
        match self {
            Operation::SetDevAttr => 1,
            Operation::SetPhyCmvmode => 4,
            Operation::ResetSensor => 5,
            Operation::UnresetSensor => 6,
            Operation::ResetMipi => 7,
            Operation::UnresetMipi => 8,
            Operation::ResetSlvs => 9,
            Operation::UnresetSlvs => 10,
            Operation::SetHsMode => 11,
            Operation::EnableMipiClock => 12,
            Operation::DisableMipiClock => 13,
            Operation::EnableSlvsClock => 14,
            Operation::DisableSlvsClock => 15,
            Operation::EnableSensorClock => 16,
            Operation::DisableSensorClock => 17,
            Operation::Clear => 18,
        }
    }

    /// The size of the operation's payload in a release.
    pub open spec fn payload_size(self, version: SdkVersion) -> u16 {
        match self {
            Operation::SetDevAttr => if version.has_large_dev_attr() {
                LARGE_DEV_ATTR_SIZE
            } else {
                DEV_ATTR_SIZE
            },
            Operation::SetPhyCmvmode => 8,
            _ => 4,
        }
    }

    /// The fields the operation's code is made of in a release.
    pub open spec fn command_spec(self, version: SdkVersion) -> IoctlCommand {
        IoctlCommand {
            direction: Direction::Write,
            magic: MAGIC,
            number: self.number(),
            payload_size: self.payload_size(version),
        }
    }

    /// The operation's code in a release, as the vendor's headers give it.
    pub open spec fn value(self, version: SdkVersion) -> u32 {
        match self {
            Operation::SetDevAttr => if version.has_large_dev_attr() {
                1_114_402_049
            } else {
                1_113_615_617
            },
            Operation::SetPhyCmvmode => 1_074_294_020,
            Operation::ResetSensor => 1_074_031_877,
            Operation::UnresetSensor => 1_074_031_878,
            Operation::ResetMipi => 1_074_031_879,
            Operation::UnresetMipi => 1_074_031_880,
            Operation::ResetSlvs => 1_074_031_881,
            Operation::UnresetSlvs => 1_074_031_882,
            Operation::SetHsMode => 1_074_031_883,
            Operation::EnableMipiClock => 1_074_031_884,
            Operation::DisableMipiClock => 1_074_031_885,
            Operation::EnableSlvsClock => 1_074_031_886,
            Operation::DisableSlvsClock => 1_074_031_887,
            Operation::EnableSensorClock => 1_074_031_888,
            Operation::DisableSensorClock => 1_074_031_889,
            Operation::Clear => 1_074_031_890,
        }
    }

    /// The name under which the operation's code is published.
    pub open spec fn name(self) -> Seq<char> {
        match self {
            Operation::SetDevAttr => "HI_MIPI_SET_DEV_ATTR"@,
            Operation::SetPhyCmvmode => "HI_MIPI_SET_PHY_CMVMODE"@,
            Operation::ResetSensor => "HI_MIPI_RESET_SENSOR"@,
            Operation::UnresetSensor => "HI_MIPI_UNRESET_SENSOR"@,
            Operation::ResetMipi => "HI_MIPI_RESET_MIPI"@,
            Operation::UnresetMipi => "HI_MIPI_UNRESET_MIPI"@,
            Operation::ResetSlvs => "HI_MIPI_RESET_SLVS"@,
            Operation::UnresetSlvs => "HI_MIPI_UNRESET_SLVS"@,
            Operation::SetHsMode => "HI_MIPI_SET_HS_MODE"@,
            Operation::EnableMipiClock => "HI_MIPI_ENABLE_MIPI_CLOCK"@,
            Operation::DisableMipiClock => "HI_MIPI_DISABLE_MIPI_CLOCK"@,
            Operation::EnableSlvsClock => "HI_MIPI_ENABLE_SLVS_CLOCK"@,
            Operation::DisableSlvsClock => "HI_MIPI_DISABLE_SLVS_CLOCK"@,
            Operation::EnableSensorClock => "HI_MIPI_ENABLE_SENSOR_CLOCK"@,
            Operation::DisableSensorClock => "HI_MIPI_DISABLE_SENSOR_CLOCK"@,
            Operation::Clear => "HI_MIPI_CLEAR"@,
        }
    }

    /// The name under which the operation's code is published.
    pub fn published_name(self) -> (r: &'static str)
        ensures
            r@ == self.name(),
    {
        match self {
            Operation::SetDevAttr => "HI_MIPI_SET_DEV_ATTR",
            Operation::SetPhyCmvmode => "HI_MIPI_SET_PHY_CMVMODE",
            Operation::ResetSensor => "HI_MIPI_RESET_SENSOR",
            Operation::UnresetSensor => "HI_MIPI_UNRESET_SENSOR",
            Operation::ResetMipi => "HI_MIPI_RESET_MIPI",
            Operation::UnresetMipi => "HI_MIPI_UNRESET_MIPI",
            Operation::ResetSlvs => "HI_MIPI_RESET_SLVS",
            Operation::UnresetSlvs => "HI_MIPI_UNRESET_SLVS",
            Operation::SetHsMode => "HI_MIPI_SET_HS_MODE",
            Operation::EnableMipiClock => "HI_MIPI_ENABLE_MIPI_CLOCK",
            Operation::DisableMipiClock => "HI_MIPI_DISABLE_MIPI_CLOCK",
            Operation::EnableSlvsClock => "HI_MIPI_ENABLE_SLVS_CLOCK",
            Operation::DisableSlvsClock => "HI_MIPI_DISABLE_SLVS_CLOCK",
            Operation::EnableSensorClock => "HI_MIPI_ENABLE_SENSOR_CLOCK",
            Operation::DisableSensorClock => "HI_MIPI_DISABLE_SENSOR_CLOCK",
            Operation::Clear => "HI_MIPI_CLEAR",
        }
    }

    /// The fields the operation's code is made of in a release.
    pub fn command(self, version: SdkVersion) -> (r: IoctlCommand)
        ensures
            r == self.command_spec(version),
    {
        let number: u8 = match self {
            Operation::SetDevAttr => 1,
            Operation::SetPhyCmvmode => 4,
            Operation::ResetSensor => 5,
            Operation::UnresetSensor => 6,
            Operation::ResetMipi => 7,
            Operation::UnresetMipi => 8,
            Operation::ResetSlvs => 9,
            Operation::UnresetSlvs => 10,
            Operation::SetHsMode => 11,
            Operation::EnableMipiClock => 12,
            Operation::DisableMipiClock => 13,
            Operation::EnableSlvsClock => 14,
            Operation::DisableSlvsClock => 15,
            Operation::EnableSensorClock => 16,
            Operation::DisableSensorClock => 17,
            Operation::Clear => 18,
        };
        let payload_size: u16 = match self {
            Operation::SetDevAttr => if version.carries_large_dev_attr() {
                LARGE_DEV_ATTR_SIZE
            } else {
                DEV_ATTR_SIZE
            },
            Operation::SetPhyCmvmode => 8,
            _ => 4,
        };
        IoctlCommand { direction: Direction::Write, magic: MAGIC, number, payload_size }
    }

    /// The operation's code in a release, from the table.
    pub fn code(self, version: SdkVersion) -> (r: u32)
        ensures
            r == self.value(version),
    {
        match self {
            Operation::SetDevAttr => if version.carries_large_dev_attr() {
                1_114_402_049
            } else {
                1_113_615_617
            },
            Operation::SetPhyCmvmode => 1_074_294_020,
            Operation::ResetSensor => 1_074_031_877,
            Operation::UnresetSensor => 1_074_031_878,
            Operation::ResetMipi => 1_074_031_879,
            Operation::UnresetMipi => 1_074_031_880,
            Operation::ResetSlvs => 1_074_031_881,
            Operation::UnresetSlvs => 1_074_031_882,
            Operation::SetHsMode => 1_074_031_883,
            Operation::EnableMipiClock => 1_074_031_884,
            Operation::DisableMipiClock => 1_074_031_885,
            Operation::EnableSlvsClock => 1_074_031_886,
            Operation::DisableSlvsClock => 1_074_031_887,
            Operation::EnableSensorClock => 1_074_031_888,
            Operation::DisableSensorClock => 1_074_031_889,
            Operation::Clear => 1_074_031_890,
        }
    }

    /// The operation's code in a release, encoded from its fields. It never
    /// fails and agrees with the table.
    pub fn derive_code(self, version: SdkVersion) -> (r: Result<u32, CodecError>)
        ensures
            r == Ok::<u32, CodecError>(self.value(version)),
    {
        proof {
            law_table_reproducible(self, version);
        }
        self.command(version).encode()
    }
}

/// The operation published under `name`, if there is one.
pub open spec fn operation_named(name: Seq<char>) -> Option<Operation> {
    if name == "HI_MIPI_SET_DEV_ATTR"@ {
        Some(Operation::SetDevAttr)
    } else if name == "HI_MIPI_SET_PHY_CMVMODE"@ {
        Some(Operation::SetPhyCmvmode)
    } else if name == "HI_MIPI_RESET_SENSOR"@ {
        Some(Operation::ResetSensor)
    } else if name == "HI_MIPI_UNRESET_SENSOR"@ {
        Some(Operation::UnresetSensor)
    } else if name == "HI_MIPI_RESET_MIPI"@ {
        Some(Operation::ResetMipi)
    } else if name == "HI_MIPI_UNRESET_MIPI"@ {
        Some(Operation::UnresetMipi)
    } else if name == "HI_MIPI_RESET_SLVS"@ {
        Some(Operation::ResetSlvs)
    } else if name == "HI_MIPI_UNRESET_SLVS"@ {
        Some(Operation::UnresetSlvs)
    } else if name == "HI_MIPI_SET_HS_MODE"@ {
        Some(Operation::SetHsMode)
    } else if name == "HI_MIPI_ENABLE_MIPI_CLOCK"@ {
        Some(Operation::EnableMipiClock)
    } else if name == "HI_MIPI_DISABLE_MIPI_CLOCK"@ {
        Some(Operation::DisableMipiClock)
    } else if name == "HI_MIPI_ENABLE_SLVS_CLOCK"@ {
        Some(Operation::EnableSlvsClock)
    } else if name == "HI_MIPI_DISABLE_SLVS_CLOCK"@ {
        Some(Operation::DisableSlvsClock)
    } else if name == "HI_MIPI_ENABLE_SENSOR_CLOCK"@ {
        Some(Operation::EnableSensorClock)
    } else if name == "HI_MIPI_DISABLE_SENSOR_CLOCK"@ {
        Some(Operation::DisableSensorClock)
    } else if name == "HI_MIPI_CLEAR"@ {
        Some(Operation::Clear)
    } else {
        None
    }
}

/// Every code of the table is what encoding the operation's fields gives, in every release.
pub proof fn law_table_reproducible(operation: Operation, version: SdkVersion)
    ensures
        operation.command_spec(version).code() == Ok::<u32, CodecError>(operation.value(version)),
        encode_spec(
            Direction::Write,
            MAGIC,
            operation.number(),
            operation.payload_size(version),
        ) == Ok::<u32, CodecError>(operation.value(version)),
{
}

/// The code of `SetDevAttr` is one of two: that of the larger payload in the
/// releases that carry it, the other in every other release.
pub proof fn law_dev_attr_codes(version: SdkVersion)
    ensures
        encode_spec(Direction::Write, MAGIC, 1, LARGE_DEV_ATTR_SIZE) == Ok::<u32, CodecError>(
            1_114_402_049,
        ),
        encode_spec(Direction::Write, MAGIC, 1, DEV_ATTR_SIZE) == Ok::<u32, CodecError>(
            1_113_615_617,
        ),
        version.has_large_dev_attr() ==> Operation::SetDevAttr.value(version) == 1_114_402_049,
        !version.has_large_dev_attr() ==> Operation::SetDevAttr.value(version) == 1_113_615_617,
{
}

/// The code of every operation but `SetDevAttr` is the same in all releases.
pub proof fn law_single_code(operation: Operation, a: SdkVersion, b: SdkVersion)
    requires
        operation != Operation::SetDevAttr,
    ensures
        operation.value(a) == operation.value(b),
{
}

/// A name stands for the operation that is published under it, and a name
/// under which none is published stands for none.
pub proof fn law_found_by_name(name: Seq<char>)
    ensures
        match operation_named(name) {
            Some(found) => found.name() == name,
            None => forall|operation: Operation| #[trigger] operation.name() != name,
        },
{
}

/// Every operation is found under its own name.
pub proof fn law_names_distinct(operation: Operation)
    ensures
        operation_named(operation.name()) == Some(operation),
{
    reveal_strlit("HI_MIPI_SET_DEV_ATTR");
    reveal_strlit("HI_MIPI_SET_PHY_CMVMODE");
    reveal_strlit("HI_MIPI_RESET_SENSOR");
    reveal_strlit("HI_MIPI_UNRESET_SENSOR");
    reveal_strlit("HI_MIPI_RESET_MIPI");
    reveal_strlit("HI_MIPI_UNRESET_MIPI");
    reveal_strlit("HI_MIPI_RESET_SLVS");
    reveal_strlit("HI_MIPI_UNRESET_SLVS");
    reveal_strlit("HI_MIPI_SET_HS_MODE");
    reveal_strlit("HI_MIPI_ENABLE_MIPI_CLOCK");
    reveal_strlit("HI_MIPI_DISABLE_MIPI_CLOCK");
    reveal_strlit("HI_MIPI_ENABLE_SLVS_CLOCK");
    reveal_strlit("HI_MIPI_DISABLE_SLVS_CLOCK");
    reveal_strlit("HI_MIPI_ENABLE_SENSOR_CLOCK");
    reveal_strlit("HI_MIPI_DISABLE_SENSOR_CLOCK");
    reveal_strlit("HI_MIPI_CLEAR");
    assert("HI_MIPI_SET_DEV_ATTR"@.len() == 20);
    assert("HI_MIPI_SET_PHY_CMVMODE"@.len() == 23);
    assert("HI_MIPI_RESET_SENSOR"@.len() == 20);
    assert("HI_MIPI_UNRESET_SENSOR"@.len() == 22);
    assert("HI_MIPI_RESET_MIPI"@.len() == 18);
    assert("HI_MIPI_UNRESET_MIPI"@.len() == 20);
    assert("HI_MIPI_RESET_SLVS"@.len() == 18);
    assert("HI_MIPI_UNRESET_SLVS"@.len() == 20);
    assert("HI_MIPI_SET_HS_MODE"@.len() == 19);
    assert("HI_MIPI_ENABLE_MIPI_CLOCK"@.len() == 25);
    assert("HI_MIPI_DISABLE_MIPI_CLOCK"@.len() == 26);
    assert("HI_MIPI_ENABLE_SLVS_CLOCK"@.len() == 25);
    assert("HI_MIPI_DISABLE_SLVS_CLOCK"@.len() == 26);
    assert("HI_MIPI_ENABLE_SENSOR_CLOCK"@.len() == 27);
    assert("HI_MIPI_DISABLE_SENSOR_CLOCK"@.len() == 28);
    assert("HI_MIPI_CLEAR"@.len() == 13);
    assert("HI_MIPI_SET_DEV_ATTR"@[8] != "HI_MIPI_RESET_SENSOR"@[8]);
    assert("HI_MIPI_SET_DEV_ATTR"@[8] != "HI_MIPI_UNRESET_MIPI"@[8]);
    assert("HI_MIPI_RESET_SENSOR"@[8] != "HI_MIPI_UNRESET_MIPI"@[8]);
    assert("HI_MIPI_RESET_MIPI"@[14] != "HI_MIPI_RESET_SLVS"@[14]);
    assert("HI_MIPI_SET_DEV_ATTR"@[8] != "HI_MIPI_UNRESET_SLVS"@[8]);
    assert("HI_MIPI_RESET_SENSOR"@[8] != "HI_MIPI_UNRESET_SLVS"@[8]);
    assert("HI_MIPI_UNRESET_MIPI"@[16] != "HI_MIPI_UNRESET_SLVS"@[16]);
    assert("HI_MIPI_ENABLE_MIPI_CLOCK"@[15] != "HI_MIPI_ENABLE_SLVS_CLOCK"@[15]);
    assert("HI_MIPI_DISABLE_MIPI_CLOCK"@[16] != "HI_MIPI_DISABLE_SLVS_CLOCK"@[16]);
}

/// The operation published under `name`, if there is one.
pub fn find_operation(name: &str) -> (r: Option<Operation>)
    ensures
        r == operation_named(name@),
{
    let chars: Vec<char> = chars_of(name);
    if spells(&chars, "HI_MIPI_SET_DEV_ATTR") {
        Some(Operation::SetDevAttr)
    } else if spells(&chars, "HI_MIPI_SET_PHY_CMVMODE") {
        Some(Operation::SetPhyCmvmode)
    } else if spells(&chars, "HI_MIPI_RESET_SENSOR") {
        Some(Operation::ResetSensor)
    } else if spells(&chars, "HI_MIPI_UNRESET_SENSOR") {
        Some(Operation::UnresetSensor)
    } else if spells(&chars, "HI_MIPI_RESET_MIPI") {
        Some(Operation::ResetMipi)
    } else if spells(&chars, "HI_MIPI_UNRESET_MIPI") {
        Some(Operation::UnresetMipi)
    } else if spells(&chars, "HI_MIPI_RESET_SLVS") {
        Some(Operation::ResetSlvs)
    } else if spells(&chars, "HI_MIPI_UNRESET_SLVS") {
        Some(Operation::UnresetSlvs)
    } else if spells(&chars, "HI_MIPI_SET_HS_MODE") {
        Some(Operation::SetHsMode)
    } else if spells(&chars, "HI_MIPI_ENABLE_MIPI_CLOCK") {
        Some(Operation::EnableMipiClock)
    } else if spells(&chars, "HI_MIPI_DISABLE_MIPI_CLOCK") {
        Some(Operation::DisableMipiClock)
    } else if spells(&chars, "HI_MIPI_ENABLE_SLVS_CLOCK") {
        Some(Operation::EnableSlvsClock)
    } else if spells(&chars, "HI_MIPI_DISABLE_SLVS_CLOCK") {
        Some(Operation::DisableSlvsClock)
    } else if spells(&chars, "HI_MIPI_ENABLE_SENSOR_CLOCK") {
        Some(Operation::EnableSensorClock)
    } else if spells(&chars, "HI_MIPI_DISABLE_SENSOR_CLOCK") {
        Some(Operation::DisableSensorClock)
    } else if spells(&chars, "HI_MIPI_CLEAR") {
        Some(Operation::Clear)
    } else {
        None
    }
}

/// The code of the operation published under `operation` in the release
/// `active_version`. A name that no operation has is an error that carries the name.
pub fn lookup(operation: &str, active_version: SdkVersion) -> (r: Result<u32, LookupError>)
    ensures
        match operation_named(operation@) {
            Some(found) => r == Ok::<u32, LookupError>(found.value(active_version)),
            None => r matches Err(LookupError::UnknownOperation(name)) && name@ == operation@,
        },
{
    match find_operation(operation) {
        Some(found) => Ok(found.code(active_version)),
        None => Err(LookupError::UnknownOperation(String::from_str(operation))),
    }
}

} // verus!
