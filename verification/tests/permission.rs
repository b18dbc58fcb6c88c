//! Permissions of the system and what they let the collectors do.

use std::cell::RefCell;

use zanei_macos::permission::{
    automation_permission, automation_status_of, automation_target, automation_target_error,
    capability_detail, input_monitoring_permission, open_settings_with, permission_status_with,
    request_accessibility, AutomationProbeState, AutomationTargetError, Capability,
    CapabilityState, MacOsPermission, PermissionChecker, PermissionError, PermissionStatus,
    ProbeOutcome, ACCESSIBILITY_SETTINGS_URL, AE_PERMISSION_GRANTED, AE_PERMISSION_NOT_DETERMINED,
    AUTOMATION_SETTINGS_URL, INPUT_MONITORING_SETTINGS_URL, SAFARI_BUNDLE_ID,
};
use zanei_macos::text_capture::policy::CHROME_BUNDLE_ID;

fn status(
    accessibility_trusted: bool,
    input_status: i32,
    automation_status: Result<i32, AutomationTargetError>,
    capability: Capability,
) -> Result<PermissionStatus, PermissionError> {
    permission_status_with(
        capability,
        || accessibility_trusted,
        || input_status,
        |bundle_id| {
            assert!(bundle_id == CHROME_BUNDLE_ID || bundle_id == SAFARI_BUNDLE_ID);
            automation_status.map_err(|error| automation_target_error(bundle_id, error))
        },
    )
}

#[test]
fn maps_all_native_permission_statuses() {
    let granted = Ok(PermissionStatus::Granted);
    let denied = Ok(PermissionStatus::Denied);
    assert_eq!(status(true, 0, Ok(0), Capability::ReadAccessibilityTree), granted);
    assert_eq!(status(false, 0, Ok(0), Capability::ReadAccessibilityTree), denied);
    for (raw, expected) in [
        (0, PermissionStatus::Granted),
        (1, PermissionStatus::Denied),
        (2, PermissionStatus::NotDetermined),
    ] {
        assert_eq!(status(false, raw, Ok(0), Capability::ObserveInput), Ok(expected));
    }
    for capability in [Capability::AutomateBrowser, Capability::AutomateSafari] {
        for (raw, expected) in [
            (0, PermissionStatus::Granted),
            (-1_743, PermissionStatus::Denied),
            (-1_744, PermissionStatus::NotDetermined),
            (-600, PermissionStatus::NotDetermined),
        ] {
            assert_eq!(status(false, 0, Ok(raw), capability), Ok(expected));
        }
    }
    assert!(matches!(
        status(false, 99, Ok(0), Capability::ObserveInput),
        Err(PermissionError::UnexpectedInputMonitoringStatus { status: 99 })
    ));
    let failure = Err(AutomationTargetError::CreateFailed { status: -1_708 });
    assert!(matches!(
        status(false, 0, failure, Capability::AutomateSafari),
        Err(PermissionError::AutomationTargetCreation { bundle_id, status: -1_708 })
            if bundle_id == SAFARI_BUNDLE_ID
    ));
}

#[test]
fn describes_each_capability_and_state_for_macos() {
    for capability in [
        Capability::ReadAccessibilityTree,
        Capability::ObserveInput,
        Capability::AutomateBrowser,
        Capability::AutomateSafari,
    ] {
        for (state, status) in [
            (CapabilityState::Available, PermissionStatus::Granted),
            (CapabilityState::ActionRequired, PermissionStatus::Denied),
            (CapabilityState::Deferred, PermissionStatus::NotDetermined),
        ] {
            assert_eq!(capability_detail(capability, state).status, status);
        }
    }
    let available = CapabilityState::Available;
    let accessibility = capability_detail(Capability::ReadAccessibilityTree, available);
    assert_eq!(accessibility.platform, "macos");
    assert_eq!(accessibility.permission, MacOsPermission::Accessibility);
    assert_eq!(accessibility.settings_url, ACCESSIBILITY_SETTINGS_URL);
    assert_eq!(accessibility.target_bundle_id, None);
    let input = capability_detail(Capability::ObserveInput, available);
    assert_eq!(input.permission, MacOsPermission::InputMonitoring);
    assert_eq!(input.settings_url, INPUT_MONITORING_SETTINGS_URL);
    assert_eq!(input.target_bundle_id, None);
    let automation = capability_detail(Capability::AutomateBrowser, available);
    assert_eq!(automation.permission, MacOsPermission::Automation);
    assert_eq!(automation.settings_url, AUTOMATION_SETTINGS_URL);
    assert_eq!(automation.target_bundle_id, Some(CHROME_BUNDLE_ID));
    let safari = capability_detail(Capability::AutomateSafari, available);
    assert_eq!(safari.target_bundle_id, Some(SAFARI_BUNDLE_ID));
    assert_eq!(MacOsPermission::InputMonitoring.as_str(), "input_monitoring");
    assert_eq!(PermissionStatus::NotDetermined.as_str(), "not_determined");
}

#[test]
fn timed_out_automation_probe_is_pending_without_duplicate_workers() {
    const BUNDLE_ID: &str = "com.google.Chrome";
    let mut state = AutomationProbeState::default();

    assert!(state.begin(BUNDLE_ID));
    assert_eq!(
        automation_status_of(BUNDLE_ID, ProbeOutcome::TimedOut),
        Ok(AE_PERMISSION_NOT_DETERMINED)
    );
    assert!(state.is_in_flight(BUNDLE_ID));
    assert!(!state.begin(BUNDLE_ID));
    assert_eq!(
        automation_status_of(BUNDLE_ID, ProbeOutcome::AlreadyRunning),
        Ok(AE_PERMISSION_NOT_DETERMINED)
    );

    state.finish(BUNDLE_ID);
    assert!(!state.is_in_flight(BUNDLE_ID));
    assert!(state.begin(BUNDLE_ID));
    assert_eq!(
        automation_status_of(BUNDLE_ID, ProbeOutcome::Answered(Ok(AE_PERMISSION_GRANTED))),
        Ok(AE_PERMISSION_GRANTED)
    );
}

#[test]
fn opens_the_permission_specific_settings_pane() {
    let opened: RefCell<Vec<&'static str>> = RefCell::default();
    let opener = |settings_url: &'static str| {
        opened.borrow_mut().push(settings_url);
        Ok(())
    };

    open_settings_with(opener, Capability::ReadAccessibilityTree).unwrap();
    open_settings_with(opener, Capability::ObserveInput).unwrap();
    open_settings_with(opener, Capability::AutomateBrowser).unwrap();
    open_settings_with(opener, Capability::AutomateSafari).unwrap();

    assert_eq!(
        *opened.borrow(),
        [
            ACCESSIBILITY_SETTINGS_URL,
            INPUT_MONITORING_SETTINGS_URL,
            AUTOMATION_SETTINGS_URL,
            AUTOMATION_SETTINGS_URL,
        ]
    );
}

#[test]
fn settings_opener_errors_are_not_hidden() {
    let opener = |settings_url: &'static str| {
        Err(PermissionError::SettingsLaunch { settings_url, source: "test failure".to_owned() })
    };
    assert!(matches!(
        open_settings_with(opener, Capability::ReadAccessibilityTree),
        Err(PermissionError::SettingsLaunch { settings_url: ACCESSIBILITY_SETTINGS_URL, .. })
    ));
}

#[test]
fn probes_of_other_targets_are_independent() {
    let mut state = AutomationProbeState::default();
    assert!(state.begin("com.google.Chrome"));
    assert!(state.begin("com.apple.Safari"));
    state.finish("com.google.Chrome");
    assert!(!state.is_in_flight("com.google.Chrome"));
    assert!(state.is_in_flight("com.apple.Safari"));
}

#[test]
fn failed_probes_are_reported() {
    assert_eq!(
        automation_status_of("b", ProbeOutcome::SpawnFailed("no thread".to_owned()))
            .map_err(|error| error.message()),
        Err("failed to start automation permission probe for b: no thread".to_owned())
    );
    assert_eq!(
        automation_status_of("b", ProbeOutcome::Stopped).map_err(|error| error.message()),
        Err("automation permission probe for b stopped without a result".to_owned())
    );
    let too_long = AutomationTargetError::BundleIdTooLong { byte_count: 12 };
    assert_eq!(
        automation_status_of("b", ProbeOutcome::Answered(Err(too_long)))
            .map_err(|error| error.message()),
        Err("automation bundle ID is too long: 12 bytes".to_owned())
    );
}

#[test]
fn targets_are_created_from_their_length() {
    assert_eq!(automation_target(4, |length| if length == 4 { 0 } else { -1 }), Ok(()));
    assert_eq!(
        automation_target(4, |_| -1_700),
        Err(AutomationTargetError::CreateFailed { status: -1_700 })
    );
    assert_eq!(
        automation_target(usize::MAX, |_| panic!("such a length is refused")),
        Err(AutomationTargetError::BundleIdTooLong { byte_count: usize::MAX })
    );
}

#[test]
fn checker_answers_like_the_functions() {
    let checker = PermissionChecker::new();
    assert_eq!(
        checker.permission_status(
            Capability::ObserveInput,
            || panic!("accessibility is not asked"),
            || 1,
            |_| panic!("automation is not asked"),
        ),
        Ok(PermissionStatus::Denied)
    );
    assert_eq!(
        checker.open_settings(
            |settings_url| {
                assert_eq!(settings_url, INPUT_MONITORING_SETTINGS_URL);
                Ok(())
            },
            Capability::ObserveInput,
        ),
        Ok(())
    );
}

#[test]
fn requests_need_options() {
    assert_eq!(request_accessibility(Some(false)), Ok(()));
    assert_eq!(
        request_accessibility(None),
        Err(PermissionError::AccessibilityRequestOptionsCreation)
    );
}

#[test]
fn permissions_and_statuses_have_names() {
    assert_eq!(PermissionStatus::Granted.as_str(), "granted");
    assert_eq!(PermissionStatus::Denied.as_str(), "denied");
    assert_eq!(MacOsPermission::Accessibility.as_str(), "accessibility");
    assert_eq!(MacOsPermission::Automation.as_str(), "automation");
}

#[test]
fn permission_errors_say_what_went_wrong() {
    assert_eq!(
        PermissionError::AccessibilityRequestOptionsCreation.message(),
        "failed to create Accessibility permission request options"
    );
    assert_eq!(
        input_monitoring_permission(-7).map_err(|error| error.message()),
        Err("input monitoring returned unknown IOHID access status -7".to_owned())
    );
    assert_eq!(
        automation_permission("b", Ok(-50)).map_err(|error| error.message()),
        Err("automation permission check for b returned OSStatus -50".to_owned())
    );
    let creation = automation_target_error("b", AutomationTargetError::CreateFailed { status: -1 });
    assert_eq!(
        creation.message(),
        "failed to create an Apple Event target descriptor for b: OSStatus -1"
    );
    let launch = PermissionError::SettingsLaunch { settings_url: "u", source: "s".to_owned() };
    assert_eq!(launch.message(), "failed to launch System Settings for u: s");
    let open = PermissionError::SettingsOpen { settings_url: "u", status: "t".to_owned() };
    assert_eq!(open.message(), "System Settings opener failed for u with status t");
}
