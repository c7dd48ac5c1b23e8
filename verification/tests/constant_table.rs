use hi_mipi::ioctl::{encode, Direction};
use hi_mipi::table::{
    find_operation, lookup, LookupError, Operation, SdkVersion, DEV_ATTR_SIZE,
    LARGE_DEV_ATTR_SIZE, MAGIC,
};

const ALL: [(Operation, &str, u32); 16] = [
    (Operation::SetDevAttr, "HI_MIPI_SET_DEV_ATTR", 1_113_615_617),
    (Operation::SetPhyCmvmode, "HI_MIPI_SET_PHY_CMVMODE", 1_074_294_020),
    (Operation::ResetSensor, "HI_MIPI_RESET_SENSOR", 1_074_031_877),
    (Operation::UnresetSensor, "HI_MIPI_UNRESET_SENSOR", 1_074_031_878),
    (Operation::ResetMipi, "HI_MIPI_RESET_MIPI", 1_074_031_879),
    (Operation::UnresetMipi, "HI_MIPI_UNRESET_MIPI", 1_074_031_880),
    (Operation::ResetSlvs, "HI_MIPI_RESET_SLVS", 1_074_031_881),
    (Operation::UnresetSlvs, "HI_MIPI_UNRESET_SLVS", 1_074_031_882),
    (Operation::SetHsMode, "HI_MIPI_SET_HS_MODE", 1_074_031_883),
    (Operation::EnableMipiClock, "HI_MIPI_ENABLE_MIPI_CLOCK", 1_074_031_884),
    (Operation::DisableMipiClock, "HI_MIPI_DISABLE_MIPI_CLOCK", 1_074_031_885),
    (Operation::EnableSlvsClock, "HI_MIPI_ENABLE_SLVS_CLOCK", 1_074_031_886),
    (Operation::DisableSlvsClock, "HI_MIPI_DISABLE_SLVS_CLOCK", 1_074_031_887),
    (Operation::EnableSensorClock, "HI_MIPI_ENABLE_SENSOR_CLOCK", 1_074_031_888),
    (Operation::DisableSensorClock, "HI_MIPI_DISABLE_SENSOR_CLOCK", 1_074_031_889),
    (Operation::Clear, "HI_MIPI_CLEAR", 1_074_031_890),
];

fn version(major: u8, minor: u8, patch: u8, build: u8) -> SdkVersion {
    SdkVersion { major, minor, patch, build }
}

fn sample_versions() -> Vec<SdkVersion> {
    vec![
        version(0, 0, 0, 0),
        version(1, 0, 1, 0),
        version(2, 0, 2, 0),
        version(2, 0, 3, 0),
        version(2, 0, 3, 1),
        version(2, 0, 3, 2),
        version(2, 1, 3, 0),
        version(3, 0, 3, 1),
        version(255, 255, 255, 255),
    ]
}

#[test]
fn default_release_has_the_documented_codes() {
    let release = version(1, 0, 1, 0);
    for (operation, name, value) in ALL {
        assert_eq!(lookup(name, release), Ok(value));
        assert_eq!(operation.code(release), value);
    }
}

#[test]
fn two_releases_carry_the_larger_dev_attr() {
    assert!(version(2, 0, 3, 0).carries_large_dev_attr());
    assert!(version(2, 0, 3, 1).carries_large_dev_attr());
    assert!(!version(2, 0, 3, 2).carries_large_dev_attr());
    assert!(!version(2, 0, 2, 0).carries_large_dev_attr());
    assert!(!version(2, 1, 3, 0).carries_large_dev_attr());
    assert!(!version(1, 0, 3, 0).carries_large_dev_attr());
    assert_eq!(lookup("HI_MIPI_SET_DEV_ATTR", version(2, 0, 3, 0)), Ok(1_114_402_049));
    assert_eq!(lookup("HI_MIPI_SET_DEV_ATTR", version(2, 0, 3, 1)), Ok(1_114_402_049));
    assert_eq!(lookup("HI_MIPI_SET_DEV_ATTR", version(2, 0, 3, 2)), Ok(1_113_615_617));
    assert_eq!(lookup("HI_MIPI_SET_DEV_ATTR", version(2, 0, 2, 0)), Ok(1_113_615_617));
}

#[test]
fn other_operations_do_not_depend_on_the_release() {
    for (operation, name, value) in ALL {
        if operation == Operation::SetDevAttr {
            continue;
        }
        for release in sample_versions() {
            assert_eq!(lookup(name, release), Ok(value));
        }
    }
}

#[test]
fn set_hs_mode() {
    assert_eq!(lookup("HI_MIPI_SET_HS_MODE", version(2, 0, 3, 0)), Ok(1_074_031_883));
    assert_eq!(Operation::SetHsMode.published_name(), "HI_MIPI_SET_HS_MODE");
}

#[test]
fn table_is_reproduced_by_the_codec() {
    for (operation, _, _) in ALL {
        for release in sample_versions() {
            let command = operation.command(release);
            assert_eq!(command.direction, Direction::Write);
            assert_eq!(command.magic, b'm');
            assert_eq!(
                encode(command.direction, command.magic, command.number, command.payload_size),
                Ok(operation.code(release))
            );
            assert_eq!(operation.derive_code(release), Ok(operation.code(release)));
        }
    }
}

#[test]
fn documented_tuples() {
    assert_eq!(MAGIC, 109);
    assert_eq!(DEV_ATTR_SIZE, 608);
    assert_eq!(LARGE_DEV_ATTR_SIZE, 620);
    let small = Operation::SetDevAttr.command(version(1, 0, 0, 0));
    assert_eq!((small.number, small.payload_size), (1, 608));
    let large = Operation::SetDevAttr.command(version(2, 0, 3, 1));
    assert_eq!((large.number, large.payload_size), (1, 620));
    let cmv = Operation::SetPhyCmvmode.command(version(2, 0, 3, 1));
    assert_eq!((cmv.number, cmv.payload_size), (4, 8));
    let clear = Operation::Clear.command(version(2, 0, 3, 1));
    assert_eq!((clear.number, clear.payload_size), (18, 4));
}

#[test]
fn unknown_operation_is_an_error_in_every_release() {
    for release in sample_versions() {
        for name in ["", "HI_MIPI", "HI_MIPI_CLEAR ", "hi_mipi_clear", "HI_MIPI_SET_DEV_ATTR2", "CLEAR"] {
            assert_eq!(
                lookup(name, release),
                Err(LookupError::UnknownOperation(String::from(name)))
            );
        }
    }
}

#[test]
fn names_and_operations_match() {
    for (operation, name, _) in ALL {
        assert_eq!(operation.published_name(), name);
        assert_eq!(find_operation(name), Some(operation));
    }
    assert_eq!(find_operation("HI_MIPI_NOTHING"), None);
}
