use audio_mute::macos::{
    read_outcome, write_outcome, AudioObject, PropertyAddress, PropertyRead, PropertyScope,
    PropertySelector, PropertyWrite, MAIN_ELEMENT,
};
use audio_mute::{AudioControlError, MacOSAudioController, Volume};

fn controller(device_id: u32) -> MacOSAudioController {
    MacOSAudioController::new(0, device_id).expect("a device was found")
}

#[test]
fn default_device_is_a_global_property_of_the_system() {
    assert_eq!(
        MacOSAudioController::default_output_device_query(),
        PropertyRead {
            object: AudioObject::System,
            address: PropertyAddress {
                selector: PropertySelector::DefaultOutputDevice,
                scope: PropertyScope::Global,
                element: 0,
            },
        }
    );
    assert_eq!(MAIN_ELEMENT, 0);
}

#[test]
fn controller_keeps_the_device_it_was_given() {
    assert_eq!(controller(73).device_id(), 73);
    assert_eq!(controller(1).device_id(), 1);
    assert_eq!(controller(u32::MAX).device_id(), u32::MAX);
}

#[test]
fn failed_lookup_fails_construction() {
    match MacOSAudioController::new(-50, 73) {
        Err(e) => assert_eq!(
            e,
            AudioControlError::InitializationFailed(
                "Failed to get default output device (OSStatus: -50)".to_string()
            )
        ),
        Ok(_) => panic!("the lookup failed"),
    }
    match MacOSAudioController::new(2003332927, 0) {
        Err(e) => assert_eq!(
            e,
            AudioControlError::InitializationFailed(
                "Failed to get default output device (OSStatus: 2003332927)".to_string()
            )
        ),
        Ok(_) => panic!("the lookup failed"),
    }
}

#[test]
fn missing_device_fails_construction() {
    match MacOSAudioController::new(0, 0) {
        Err(e) => assert_eq!(
            e,
            AudioControlError::InitializationFailed("No default output device found".to_string())
        ),
        Ok(_) => panic!("no device was named"),
    }
}

#[test]
fn volume_and_mute_are_output_properties_of_the_device() {
    let controller = controller(73);
    assert_eq!(
        controller.volume_query(),
        PropertyRead {
            object: AudioObject::Device(73),
            address: PropertyAddress {
                selector: PropertySelector::VolumeScalar,
                scope: PropertyScope::Output,
                element: MAIN_ELEMENT,
            },
        }
    );
    assert_eq!(
        controller.mute_query(),
        PropertyRead {
            object: AudioObject::Device(73),
            address: PropertyAddress {
                selector: PropertySelector::Mute,
                scope: PropertyScope::Output,
                element: MAIN_ELEMENT,
            },
        }
    );
}

#[test]
fn volume_written_is_the_level_clamped() {
    let controller = controller(73);
    let address = PropertyAddress {
        selector: PropertySelector::VolumeScalar,
        scope: PropertyScope::Output,
        element: MAIN_ELEMENT,
    };
    let write = |level: f32| controller.volume_update(Volume::from_bits(level.to_bits()));
    assert_eq!(
        write(-0.5),
        PropertyWrite { object: AudioObject::Device(73), address, value: 0.0f32.to_bits() }
    );
    assert_eq!(
        write(1.7),
        PropertyWrite { object: AudioObject::Device(73), address, value: 1.0f32.to_bits() }
    );
    assert_eq!(
        write(0.4),
        PropertyWrite { object: AudioObject::Device(73), address, value: 0.4f32.to_bits() }
    );
    assert_eq!(f32::from_bits(write(-0.5).value), 0.0);
    assert_eq!(f32::from_bits(write(1.7).value), 1.0);
}

#[test]
fn mute_written_is_one_or_zero() {
    let controller = controller(9);
    let address = PropertyAddress {
        selector: PropertySelector::Mute,
        scope: PropertyScope::Output,
        element: MAIN_ELEMENT,
    };
    assert_eq!(
        controller.mute_update(true),
        PropertyWrite { object: AudioObject::Device(9), address, value: 1 }
    );
    assert_eq!(
        controller.mute_update(false),
        PropertyWrite { object: AudioObject::Device(9), address, value: 0 }
    );
}

#[test]
fn volume_read_is_the_pattern_delivered() {
    assert_eq!(
        MacOSAudioController::read_volume(0, 0.25f32.to_bits()),
        Ok(Volume::from_bits(0.25f32.to_bits()))
    );
    // What the device reports is handed on as it is, in range or not.
    assert_eq!(
        MacOSAudioController::read_volume(0, 1.5f32.to_bits()),
        Ok(Volume::from_bits(1.5f32.to_bits()))
    );
    assert_eq!(
        MacOSAudioController::read_volume(-1, 0.25f32.to_bits()),
        Err(AudioControlError::GetPropertyFailed("OSStatus: -1".to_string()))
    );
}

#[test]
fn mute_read_is_true_unless_zero() {
    assert_eq!(MacOSAudioController::read_mute(0, 0), Ok(false));
    assert_eq!(MacOSAudioController::read_mute(0, 1), Ok(true));
    assert_eq!(MacOSAudioController::read_mute(0, 2), Ok(true));
    assert_eq!(MacOSAudioController::read_mute(0, u32::MAX), Ok(true));
    assert_eq!(
        MacOSAudioController::read_mute(560947818, 1),
        Err(AudioControlError::GetPropertyFailed("OSStatus: 560947818".to_string()))
    );
}

#[test]
fn read_outcome_goes_by_the_status() {
    assert_eq!(read_outcome(0, 0), Ok(0));
    assert_eq!(read_outcome(0, 4711), Ok(4711));
    assert_eq!(
        read_outcome(1, 4711),
        Err(AudioControlError::GetPropertyFailed("OSStatus: 1".to_string()))
    );
    assert_eq!(
        read_outcome(i32::MIN, 0),
        Err(AudioControlError::GetPropertyFailed("OSStatus: -2147483648".to_string()))
    );
}

#[test]
fn write_outcome_goes_by_the_status() {
    assert_eq!(write_outcome(0), Ok(()));
    assert_eq!(
        write_outcome(-10877),
        Err(AudioControlError::SetPropertyFailed("OSStatus: -10877".to_string()))
    );
    assert_eq!(
        write_outcome(i32::MAX),
        Err(AudioControlError::SetPropertyFailed("OSStatus: 2147483647".to_string()))
    );
}

#[test]
fn status_is_rendered_as_the_formatter_does() {
    for status in [i32::MIN, -1000, -10, -9, -1, 1, 9, 10, 99, 100, 1937010544, i32::MAX] {
        assert_eq!(
            write_outcome(status),
            Err(AudioControlError::SetPropertyFailed(format!("OSStatus: {}", status)))
        );
        assert_eq!(
            read_outcome(status, 0),
            Err(AudioControlError::GetPropertyFailed(format!("OSStatus: {}", status)))
        );
    }
}
