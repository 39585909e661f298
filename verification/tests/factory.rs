use std::cell::Cell;

use audio_mute::{
    create_controller, AudioControlError, AudioMuteManager, Controller, Platform,
    SystemAudioControl, Volume,
};

/// A native controller for the tests: an output with a mute flag and a level.
#[derive(Debug, PartialEq)]
struct Native {
    muted: bool,
    level: u32,
}

impl SystemAudioControl for Native {
    fn get_volume(&mut self) -> Result<Volume, AudioControlError> {
        Ok(Volume::from_bits(self.level))
    }

    fn set_volume(&mut self, level: Volume) -> Result<(), AudioControlError> {
        self.level = level.clamped().to_bits();
        Ok(())
    }

    fn is_muted(&mut self) -> Result<bool, AudioControlError> {
        Ok(self.muted)
    }

    fn set_muted(&mut self, muted: bool) -> Result<(), AudioControlError> {
        self.muted = muted;
        Ok(())
    }
}

fn open() -> Result<Native, AudioControlError> {
    Ok(Native { muted: true, level: 0.5f32.to_bits() })
}

fn refuse() -> Result<Native, AudioControlError> {
    Err(AudioControlError::InitializationFailed("No default output device found".to_string()))
}

#[test]
fn supported_platform_gets_its_native_controller() {
    for platform in [Platform::MacOS, Platform::Windows] {
        match create_controller(platform, open) {
            Ok(Controller::Native(native)) => {
                assert_eq!(native, Native { muted: true, level: 0.5f32.to_bits() })
            }
            Ok(Controller::Stub(_)) => panic!("the platform has a native controller"),
            Err(e) => panic!("construction succeeded, yet: {:?}", e),
        }
    }
}

#[test]
fn failure_of_the_native_controller_is_the_failure_of_creation() {
    for platform in [Platform::MacOS, Platform::Windows] {
        match create_controller(platform, refuse) {
            Err(e) => assert_eq!(
                e,
                AudioControlError::InitializationFailed(
                    "No default output device found".to_string()
                )
            ),
            Ok(_) => panic!("construction failed"),
        }
    }
}

#[test]
fn unsupported_platform_gets_the_stub_without_asking() {
    let asked = Cell::new(false);
    let created = create_controller(Platform::Other, || {
        asked.set(true);
        refuse()
    });
    assert!(!asked.get());
    match created {
        Ok(Controller::Stub(mut stub)) => assert!(stub.warn_once()),
        Ok(Controller::Native(_)) => panic!("the platform has no native controller"),
        Err(e) => panic!("the stub cannot fail, yet: {:?}", e),
    }
}

#[test]
fn supported_platform_asks_once() {
    let asked = Cell::new(0);
    let created = create_controller(Platform::MacOS, || {
        asked.set(asked.get() + 1);
        open()
    });
    assert!(created.is_ok());
    assert_eq!(asked.get(), 1);
}

#[test]
fn native_variant_hands_every_operation_on() {
    let mut controller = create_controller(Platform::MacOS, open).expect("a controller");
    assert_eq!(controller.is_muted(), Ok(true));
    assert_eq!(controller.set_muted(false), Ok(()));
    assert_eq!(controller.is_muted(), Ok(false));
    assert_eq!(controller.get_volume(), Ok(Volume::from_bits(0.5f32.to_bits())));
    assert_eq!(controller.set_volume(Volume::from_bits(1.7f32.to_bits())), Ok(()));
    assert_eq!(controller.get_volume(), Ok(Volume::full()));
    assert!(!controller.warn_once());
}

#[test]
fn stub_variant_answers_as_the_stub_does() {
    let mut controller = create_controller(Platform::Other, open).expect("a controller");
    assert_eq!(controller.is_muted(), Ok(false));
    assert_eq!(controller.set_muted(true), Ok(()));
    assert_eq!(controller.is_muted(), Ok(false));
    assert_eq!(controller.set_volume(Volume::silent()), Ok(()));
    assert_eq!(controller.get_volume(), Ok(Volume::full()));
}

#[test]
fn stub_variant_warns_once() {
    let mut fresh = create_controller(Platform::Other, open).expect("a controller");
    assert!(fresh.warn_once());
    assert!(!fresh.warn_once());
    assert_eq!(fresh.get_volume(), Ok(Volume::full()));
    assert!(!fresh.warn_once());

    let mut used = create_controller(Platform::Other, open).expect("a controller");
    assert_eq!(used.is_muted(), Ok(false));
    assert_eq!(used.set_muted(true), Ok(()));
    assert!(used.warn_once());
    assert!(!used.warn_once());
}

#[test]
fn native_variant_never_warns() {
    let mut controller = create_controller(Platform::Windows, open).expect("a controller");
    assert!(!controller.warn_once());
    assert_eq!(controller.is_muted(), Ok(true));
    assert_eq!(controller.set_volume(Volume::silent()), Ok(()));
    assert!(!controller.warn_once());
    assert_eq!(controller.is_muted(), Ok(true));
    assert_eq!(controller.get_volume(), Ok(Volume::silent()));
}

#[test]
fn native_variant_hands_the_arguments_on_unchanged() {
    let mut controller = create_controller(Platform::MacOS, open).expect("a controller");
    assert_eq!(controller.set_volume(Volume::from_bits(0.25f32.to_bits())), Ok(()));
    assert_eq!(controller.get_volume(), Ok(Volume::from_bits(0.25f32.to_bits())));
    assert_eq!(controller.set_muted(false), Ok(()));
    assert_eq!(controller.is_muted(), Ok(false));
    assert_eq!(controller.set_muted(true), Ok(()));
    assert_eq!(controller.is_muted(), Ok(true));
}

#[test]
fn manager_is_built_on_what_creation_gives() {
    let mut on_native = AudioMuteManager::new(create_controller(Platform::MacOS, open))
        .expect("a manager");
    assert_eq!(on_native.mute(), Ok(()));
    assert_eq!(on_native.unmute(), Ok(()));

    let mut on_stub = AudioMuteManager::new(create_controller(Platform::Other, refuse))
        .expect("a manager");
    assert_eq!(on_stub.mute(), Ok(()));
    assert_eq!(on_stub.unmute(), Ok(()));

    assert!(AudioMuteManager::new(create_controller(Platform::Windows, refuse)).is_none());
}
