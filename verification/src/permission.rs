//! Permissions that the system grants, and the settings that change them.

use vstd::prelude::*;

use crate::subject::Subject;
use crate::text;
use crate::text::{format_decimal, same_str};
use crate::text_capture::policy::CHROME_BUNDLE_ID;

verus! {

pub const SAFARI_BUNDLE_ID: &'static str = "com.apple.Safari";

pub const IO_HID_ACCESS_GRANTED: i32 = 0;

pub const IO_HID_ACCESS_DENIED: i32 = 1;

pub const IO_HID_ACCESS_UNKNOWN: i32 = 2;

pub const AE_PERMISSION_GRANTED: i32 = 0;

pub const AE_PERMISSION_DENIED: i32 = -1_743;

pub const AE_PERMISSION_NOT_DETERMINED: i32 = -1_744;

pub const AE_TARGET_NOT_RUNNING: i32 = -600;

/// How long a probe may take, in nanoseconds.
///
/// A permission dialog is paced by its user and can hold the answer back for any
/// time. Two seconds are ample for a local answer.
pub const AUTOMATION_PROBE_TIMEOUT: u64 = 2_000_000_000;

pub const ACCESSIBILITY_SETTINGS_URL: &'static str =
    "x-apple.systempreferences:com.apple.preference.security?Privacy_Accessibility";

pub const INPUT_MONITORING_SETTINGS_URL: &'static str =
    "x-apple.systempreferences:com.apple.preference.security?Privacy_ListenEvent";

pub const AUTOMATION_SETTINGS_URL: &'static str =
    "x-apple.systempreferences:com.apple.preference.security?Privacy_Automation";

/// Something that the system has to permit.
#[derive(Clone, Copy, Debug, PartialEq, Eq, Structural)]
pub enum Capability {
    ReadAccessibilityTree,
    ObserveInput,
    AutomateBrowser,
    AutomateSafari,
}

/// How a capability stands.
#[derive(Clone, Copy, Debug, PartialEq, Eq, Structural)]
pub enum CapabilityState {
    Available,
    ActionRequired,
    Deferred,
}

/// What the system says of a permission.
#[derive(Clone, Copy, Debug, PartialEq, Eq, Structural)]
pub enum PermissionStatus {
    Granted,
    Denied,
    NotDetermined,
}

impl PermissionStatus {
    pub open spec fn spec_str(self) -> Seq<char> {
        match self {
            PermissionStatus::Granted => "granted"@,
            PermissionStatus::Denied => "denied"@,
            PermissionStatus::NotDetermined => "not_determined"@,
        }
    }

    /// The name in reports.
    pub fn as_str(self) -> (name: &'static str)
        ensures
            name@ == self.spec_str(),
    {
        match self {
            PermissionStatus::Granted => "granted",
            PermissionStatus::Denied => "denied",
            PermissionStatus::NotDetermined => "not_determined",
        }
    }
}

/// A permission that the system keeps.
#[derive(Clone, Copy, Debug, PartialEq, Eq, Structural)]
pub enum MacOsPermission {
    Accessibility,
    InputMonitoring,
    Automation,
}

impl MacOsPermission {
    pub open spec fn spec_str(self) -> Seq<char> {
        match self {
            MacOsPermission::Accessibility => "accessibility"@,
            MacOsPermission::InputMonitoring => "input_monitoring"@,
            MacOsPermission::Automation => "automation"@,
        }
    }

    /// The name in reports.
    pub fn as_str(self) -> (name: &'static str)
        ensures
            name@ == self.spec_str(),
    {
        match self {
            MacOsPermission::Accessibility => "accessibility",
            MacOsPermission::InputMonitoring => "input_monitoring",
            MacOsPermission::Automation => "automation",
        }
    }
}

/// What a report says of a capability.
#[derive(Clone, Copy, Debug, PartialEq, Eq)]
pub struct MacOsCapabilityDetail {
    pub platform: &'static str,
    pub permission: MacOsPermission,
    pub status: PermissionStatus,
    pub settings_url: &'static str,
    pub target_bundle_id: Option<&'static str>,
}

impl Capability {
    pub open spec fn spec_permission(self) -> MacOsPermission {
        match self {
            Capability::ReadAccessibilityTree => MacOsPermission::Accessibility,
            Capability::ObserveInput => MacOsPermission::InputMonitoring,
            Capability::AutomateBrowser => MacOsPermission::Automation,
            Capability::AutomateSafari => MacOsPermission::Automation,
        }
    }

    pub open spec fn spec_settings_url(self) -> &'static str {
        match self.spec_permission() {
            MacOsPermission::Accessibility => ACCESSIBILITY_SETTINGS_URL,
            MacOsPermission::InputMonitoring => INPUT_MONITORING_SETTINGS_URL,
            MacOsPermission::Automation => AUTOMATION_SETTINGS_URL,
        }
    }

    /// The browser that a capability automates.
    pub open spec fn spec_target(self) -> Option<&'static str> {
        match self {
            Capability::AutomateBrowser => Some(CHROME_BUNDLE_ID),
            Capability::AutomateSafari => Some(SAFARI_BUNDLE_ID),
            _ => None,
        }
    }
}

impl CapabilityState {
    pub open spec fn spec_status(self) -> PermissionStatus {
        match self {
            CapabilityState::Available => PermissionStatus::Granted,
            CapabilityState::ActionRequired => PermissionStatus::Denied,
            CapabilityState::Deferred => PermissionStatus::NotDetermined,
        }
    }
}

/// What a report says of a capability.
pub fn capability_detail(capability: Capability, state: CapabilityState) -> (detail:
    MacOsCapabilityDetail)
    ensures
        detail == (MacOsCapabilityDetail {
            platform: "macos",
            permission: capability.spec_permission(),
            status: state.spec_status(),
            settings_url: capability.spec_settings_url(),
            target_bundle_id: capability.spec_target(),
        }),
{
    let (permission, settings_url, target_bundle_id) = match capability {
        Capability::ReadAccessibilityTree => (
            MacOsPermission::Accessibility,
            ACCESSIBILITY_SETTINGS_URL,
            None,
        ),
        Capability::ObserveInput => (
            MacOsPermission::InputMonitoring,
            INPUT_MONITORING_SETTINGS_URL,
            None,
        ),
        Capability::AutomateBrowser => (
            MacOsPermission::Automation,
            AUTOMATION_SETTINGS_URL,
            Some(CHROME_BUNDLE_ID),
        ),
        Capability::AutomateSafari => (
            MacOsPermission::Automation,
            AUTOMATION_SETTINGS_URL,
            Some(SAFARI_BUNDLE_ID),
        ),
    };
    let status = match state {
        CapabilityState::Available => PermissionStatus::Granted,
        CapabilityState::ActionRequired => PermissionStatus::Denied,
        CapabilityState::Deferred => PermissionStatus::NotDetermined,
    };
    MacOsCapabilityDetail { platform: "macos", permission, status, settings_url, target_bundle_id }
}

/// Why a permission could not be asked for or its settings not be opened.
#[allow(inconsistent_fields)]
#[derive(Debug, PartialEq, Eq)]
pub enum PermissionError {
    AccessibilityRequestOptionsCreation,
    UnexpectedInputMonitoringStatus { status: i32 },
    AutomationBundleIdTooLong { byte_count: usize },
    AutomationTargetCreation { bundle_id: String, status: i16 },
    UnexpectedAutomationStatus { bundle_id: String, status: i32 },
    AutomationProbeThreadSpawn { bundle_id: String, source: String },
    AutomationProbeWorkerStopped { bundle_id: String },
    SettingsLaunch { settings_url: &'static str, source: String },
    SettingsOpen { settings_url: &'static str, status: String },
}

impl PermissionError {
    pub open spec fn spec_message(self) -> Seq<char> {
        match self {
            PermissionError::AccessibilityRequestOptionsCreation =>
                "failed to create Accessibility permission request options"@,
            PermissionError::UnexpectedInputMonitoringStatus { status } =>
                "input monitoring returned unknown IOHID access status "@ + text::decimal(
                status as int,
            ),
            PermissionError::AutomationBundleIdTooLong { byte_count } =>
                "automation bundle ID is too long: "@ + text::numeral(byte_count as nat, 10)
                + " bytes"@,
            PermissionError::AutomationTargetCreation { bundle_id, status } =>
                "failed to create an Apple Event target descriptor for "@ + bundle_id@
                + ": OSStatus "@ + text::decimal(status as int),
            PermissionError::UnexpectedAutomationStatus { bundle_id, status } =>
                "automation permission check for "@ + bundle_id@ + " returned OSStatus "@
                + text::decimal(status as int),
            PermissionError::AutomationProbeThreadSpawn { bundle_id, source } =>
                "failed to start automation permission probe for "@ + bundle_id@ + ": "@ + source@,
            PermissionError::AutomationProbeWorkerStopped { bundle_id } =>
                "automation permission probe for "@ + bundle_id@ + " stopped without a result"@,
            PermissionError::SettingsLaunch { settings_url, source } =>
                "failed to launch System Settings for "@ + settings_url@ + ": "@ + source@,
            PermissionError::SettingsOpen { settings_url, status } =>
                "System Settings opener failed for "@ + settings_url@ + " with status "@ + status@,
        }
    }

    /// What went wrong.
    pub fn message(&self) -> (message: String)
        ensures
            message@ == self.spec_message(),
    {
        match self {
            PermissionError::AccessibilityRequestOptionsCreation =>
                "failed to create Accessibility permission request options".to_owned(),
            PermissionError::UnexpectedInputMonitoringStatus { status } => {
                let mut message =
                    "input monitoring returned unknown IOHID access status ".to_owned();
                let number = format_decimal(*status as i64);
                message.append(number.as_str());
                message
            },
            PermissionError::AutomationBundleIdTooLong { byte_count } => {
                let mut message = "automation bundle ID is too long: ".to_owned();
                crate::text::append_numeral(&mut message, *byte_count as u64, 10);
                message.append(" bytes");
                message
            },
            PermissionError::AutomationTargetCreation { bundle_id, status } => {
                let mut message =
                    "failed to create an Apple Event target descriptor for ".to_owned();
                message.append(bundle_id.as_str());
                message.append(": OSStatus ");
                let number = format_decimal(*status as i64);
                message.append(number.as_str());
                message
            },
            PermissionError::UnexpectedAutomationStatus { bundle_id, status } => {
                let mut message = "automation permission check for ".to_owned();
                message.append(bundle_id.as_str());
                message.append(" returned OSStatus ");
                let number = format_decimal(*status as i64);
                message.append(number.as_str());
                message
            },
            PermissionError::AutomationProbeThreadSpawn { bundle_id, source } => {
                let mut message = "failed to start automation permission probe for ".to_owned();
                message.append(bundle_id.as_str());
                message.append(": ");
                message.append(source.as_str());
                message
            },
            PermissionError::AutomationProbeWorkerStopped { bundle_id } => {
                let mut message = "automation permission probe for ".to_owned();
                message.append(bundle_id.as_str());
                message.append(" stopped without a result");
                message
            },
            PermissionError::SettingsLaunch { settings_url, source } => {
                let mut message = "failed to launch System Settings for ".to_owned();
                message.append(settings_url);
                message.append(": ");
                message.append(source.as_str());
                message
            },
            PermissionError::SettingsOpen { settings_url, status } => {
                let mut message = "System Settings opener failed for ".to_owned();
                message.append(settings_url);
                message.append(" with status ");
                message.append(status.as_str());
                message
            },
        }
    }
}

/// Whether `result` is what a raw input-monitoring status means.
pub open spec fn input_result(
    status: i32,
    result: Result<PermissionStatus, PermissionError>,
) -> bool {
    result == if status == IO_HID_ACCESS_GRANTED {
        Ok::<PermissionStatus, PermissionError>(PermissionStatus::Granted)
    } else if status == IO_HID_ACCESS_DENIED {
        Ok(PermissionStatus::Denied)
    } else if status == IO_HID_ACCESS_UNKNOWN {
        Ok(PermissionStatus::NotDetermined)
    } else {
        Err(PermissionError::UnexpectedInputMonitoringStatus { status })
    }
}

/// Whether `result` is what the answer of an automation probe means. A target
/// that does not run cannot be asked, which counts as undetermined.
pub open spec fn automation_result(
    bundle_id: Seq<char>,
    answer: Result<i32, PermissionError>,
    result: Result<PermissionStatus, PermissionError>,
) -> bool {
    match answer {
        Err(error) => result == Err::<PermissionStatus, PermissionError>(error),
        Ok(status) => if status == AE_PERMISSION_GRANTED {
            result == Ok::<PermissionStatus, PermissionError>(PermissionStatus::Granted)
        } else if status == AE_PERMISSION_DENIED {
            result == Ok::<PermissionStatus, PermissionError>(PermissionStatus::Denied)
        } else if status == AE_PERMISSION_NOT_DETERMINED || status == AE_TARGET_NOT_RUNNING {
            result == Ok::<PermissionStatus, PermissionError>(PermissionStatus::NotDetermined)
        } else {
            result matches Err(PermissionError::UnexpectedAutomationStatus {
                bundle_id: named,
                status: reported,
            }) && named@ == bundle_id && reported == status
        },
    }
}

/// What a raw input-monitoring status means.
pub fn input_monitoring_permission(status: i32) -> (result: Result<
    PermissionStatus,
    PermissionError,
>)
    ensures
        input_result(status, result),
{
    if status == IO_HID_ACCESS_GRANTED {
        Ok(PermissionStatus::Granted)
    } else if status == IO_HID_ACCESS_DENIED {
        Ok(PermissionStatus::Denied)
    } else if status == IO_HID_ACCESS_UNKNOWN {
        Ok(PermissionStatus::NotDetermined)
    } else {
        Err(PermissionError::UnexpectedInputMonitoringStatus { status })
    }
}

/// What the answer of an automation probe means.
pub fn automation_permission(bundle_id: &str, answer: Result<i32, PermissionError>) -> (result:
    Result<PermissionStatus, PermissionError>)
    ensures
        automation_result(bundle_id@, answer, result),
{
    match answer {
        Err(error) => Err(error),
        Ok(status) => {
            if status == AE_PERMISSION_GRANTED {
                Ok(PermissionStatus::Granted)
            } else if status == AE_PERMISSION_DENIED {
                Ok(PermissionStatus::Denied)
            } else if status == AE_PERMISSION_NOT_DETERMINED || status == AE_TARGET_NOT_RUNNING {
                Ok(PermissionStatus::NotDetermined)
            } else {
                Err(
                    PermissionError::UnexpectedAutomationStatus {
                        bundle_id: bundle_id.to_owned(),
                        status,
                    },
                )
            }
        },
    }
}

/// Asks the one probe that a capability needs and tells what its answer means.
pub fn permission_status_with<
    A: FnOnce() -> bool,
    I: FnOnce() -> i32,
    U: FnOnce(&'static str) -> Result<i32, PermissionError>,
>(
    capability: Capability,
    accessibility_is_trusted: A,
    input_monitoring_status: I,
    automation_status: U,
) -> (result: Result<PermissionStatus, PermissionError>)
    requires
        capability is ReadAccessibilityTree ==> call_requires(accessibility_is_trusted, ()),
        capability is ObserveInput ==> call_requires(input_monitoring_status, ()),
        capability.spec_target() matches Some(target) ==> call_requires(
            automation_status,
            (target,),
        ),
    ensures
        capability is ReadAccessibilityTree ==> exists|trusted: bool| #[trigger]
            call_ensures(accessibility_is_trusted, (), trusted) && result == Ok::<
                PermissionStatus,
                PermissionError,
            >(
                if trusted {
                    PermissionStatus::Granted
                } else {
                    PermissionStatus::Denied
                },
            ),
        capability is ObserveInput ==> exists|status: i32| #[trigger]
            call_ensures(input_monitoring_status, (), status) && input_result(status, result),
        capability.spec_target() matches Some(target) ==> exists|
            answer: Result<i32, PermissionError>,
        | #[trigger]
            call_ensures(automation_status, (target,), answer) && automation_result(
                target@,
                answer,
                result,
            ),
{
    match capability {
        Capability::ReadAccessibilityTree => {
            let trusted = accessibility_is_trusted();
            Ok(
                if trusted {
                    PermissionStatus::Granted
                } else {
                    PermissionStatus::Denied
                },
            )
        },
        Capability::ObserveInput => {
            let status: i32 = input_monitoring_status();
            input_monitoring_permission(status)
        },
        Capability::AutomateBrowser => {
            let answer = automation_status(CHROME_BUNDLE_ID);
            automation_permission(CHROME_BUNDLE_ID, answer)
        },
        Capability::AutomateSafari => {
            let answer = automation_status(SAFARI_BUNDLE_ID);
            automation_permission(SAFARI_BUNDLE_ID, answer)
        },
    }
}

/// Opens the settings pane of a capability.
pub fn open_settings_with<O: FnOnce(&'static str) -> Result<(), PermissionError>>(
    opener: O,
    capability: Capability,
) -> (result: Result<(), PermissionError>)
    requires
        call_requires(opener, (capability.spec_settings_url(),)),
    ensures
        call_ensures(opener, (capability.spec_settings_url(),), result),
{
    opener(capability_detail(capability, CapabilityState::Available).settings_url)
}

/// Checks permissions.
#[derive(Clone, Copy, Debug, PartialEq, Eq, Structural)]
pub struct PermissionChecker {}

impl PermissionChecker {
    /// A checker.
    #[must_use]
    pub fn new() -> (checker: Self)
        ensures
            checker == (PermissionChecker {  }),
    {
        PermissionChecker {  }
    }

    /// What the system says of the permission that a capability needs.
    pub fn permission_status<
        A: FnOnce() -> bool,
        I: FnOnce() -> i32,
        U: FnOnce(&'static str) -> Result<i32, PermissionError>,
    >(
        &self,
        capability: Capability,
        accessibility_is_trusted: A,
        input_monitoring_status: I,
        automation_status: U,
    ) -> (result: Result<PermissionStatus, PermissionError>)
        requires
            capability is ReadAccessibilityTree ==> call_requires(accessibility_is_trusted, ()),
            capability is ObserveInput ==> call_requires(input_monitoring_status, ()),
            capability.spec_target() matches Some(target) ==> call_requires(
                automation_status,
                (target,),
            ),
        ensures
            capability is ReadAccessibilityTree ==> exists|trusted: bool| #[trigger]
                call_ensures(accessibility_is_trusted, (), trusted) && result == Ok::<
                    PermissionStatus,
                    PermissionError,
                >(
                    if trusted {
                        PermissionStatus::Granted
                    } else {
                        PermissionStatus::Denied
                    },
                ),
            capability is ObserveInput ==> exists|status: i32| #[trigger]
                call_ensures(input_monitoring_status, (), status) && input_result(status, result),
            capability.spec_target() matches Some(target) ==> exists|
                answer: Result<i32, PermissionError>,
            | #[trigger]
                call_ensures(automation_status, (target,), answer) && automation_result(
                    target@,
                    answer,
                    result,
                ),
    {
        permission_status_with(
            capability,
            accessibility_is_trusted,
            input_monitoring_status,
            automation_status,
        )
    }

    /// Opens the settings pane of a capability.
    pub fn open_settings<O: FnOnce(&'static str) -> Result<(), PermissionError>>(
        &self,
        opener: O,
        capability: Capability,
    ) -> (result: Result<(), PermissionError>)
        requires
            call_requires(opener, (capability.spec_settings_url(),)),
        ensures
            call_ensures(opener, (capability.spec_settings_url(),), result),
    {
        open_settings_with(opener, capability)
    }
}

/// What came of asking the user for access to the accessibility tree: the
/// request could be made or not.
pub fn request_accessibility(request: Option<bool>) -> (result: Result<(), PermissionError>)
    ensures
        result == if request is Some {
            Ok::<(), PermissionError>(())
        } else {
            Err(PermissionError::AccessibilityRequestOptionsCreation)
        },
{
    match request {
        Some(_) => Ok(()),
        None => Err(PermissionError::AccessibilityRequestOptionsCreation),
    }
}

/// Why an automation target could not be named.
#[derive(Clone, Copy, Debug, PartialEq, Eq, Structural)]
pub enum AutomationTargetError {
    BundleIdTooLong { byte_count: usize },
    CreateFailed { status: i16 },
}

/// Names an automation target: its length has to fit the native type, and the
/// native call has to succeed.
pub fn automation_target<C: FnOnce(i64) -> i16>(byte_count: usize, create: C) -> (created: Result<
    (),
    AutomationTargetError,
>)
    requires
        byte_count <= i64::MAX ==> call_requires(create, (byte_count as i64,)),
    ensures
        byte_count > i64::MAX ==> created == Err::<(), AutomationTargetError>(
            AutomationTargetError::BundleIdTooLong { byte_count },
        ),
        byte_count <= i64::MAX ==> exists|status: i16| #[trigger]
            call_ensures(create, (byte_count as i64,), status) && created == if status == 0 {
                Ok::<(), AutomationTargetError>(())
            } else {
                Err(AutomationTargetError::CreateFailed { status })
            },
{
    if byte_count as u64 > i64::MAX as u64 {
        return Err(AutomationTargetError::BundleIdTooLong { byte_count });
    }
    let status: i16 = create(byte_count as i64);
    if status == 0 {
        Ok(())
    } else {
        Err(AutomationTargetError::CreateFailed { status })
    }
}

/// Whether `error` reports why a target could not be named.
pub open spec fn target_error(
    bundle_id: Seq<char>,
    cause: AutomationTargetError,
    error: PermissionError,
) -> bool {
    match cause {
        AutomationTargetError::BundleIdTooLong { byte_count } => error == (
        PermissionError::AutomationBundleIdTooLong { byte_count }),
        AutomationTargetError::CreateFailed { status } => {
            error matches PermissionError::AutomationTargetCreation {
                bundle_id: named,
                status: reported,
            } && named@ == bundle_id && reported == status
        },
    }
}

/// Reports why a target could not be named.
pub fn automation_target_error(bundle_id: &str, error: AutomationTargetError) -> (reported:
    PermissionError)
    ensures
        target_error(bundle_id@, error, reported),
{
    match error {
        AutomationTargetError::BundleIdTooLong { byte_count } => {
            PermissionError::AutomationBundleIdTooLong { byte_count }
        },
        AutomationTargetError::CreateFailed { status } => {
            PermissionError::AutomationTargetCreation { bundle_id: bundle_id.to_owned(), status }
        },
    }
}

/// What came of a probe that runs on its own.
#[derive(Debug, PartialEq, Eq)]
pub enum ProbeOutcome {
    /// Another probe of the same target still runs.
    AlreadyRunning,
    /// The probe could not be started.
    SpawnFailed(String),
    /// The probe answered in time.
    Answered(Result<i32, AutomationTargetError>),
    /// No answer came in time.
    TimedOut,
    /// The probe ended without an answer.
    Stopped,
}

/// Whether `result` is what the outcome of a probe comes to: without an answer in
/// time nothing is determined.
pub open spec fn probe_result(
    bundle_id: Seq<char>,
    outcome: ProbeOutcome,
    result: Result<i32, PermissionError>,
) -> bool {
    match outcome {
        ProbeOutcome::AlreadyRunning => result == Ok::<i32, PermissionError>(
            AE_PERMISSION_NOT_DETERMINED,
        ),
        ProbeOutcome::TimedOut => result == Ok::<i32, PermissionError>(
            AE_PERMISSION_NOT_DETERMINED,
        ),
        ProbeOutcome::SpawnFailed(cause) => result matches Err(
            PermissionError::AutomationProbeThreadSpawn { bundle_id: named, source },
        ) && named@ == bundle_id && source == cause,
        ProbeOutcome::Stopped => result matches Err(
            PermissionError::AutomationProbeWorkerStopped { bundle_id: named },
        ) && named@ == bundle_id,
        ProbeOutcome::Answered(Ok(status)) => result == Ok::<i32, PermissionError>(status),
        ProbeOutcome::Answered(Err(cause)) => result matches Err(error) && target_error(
            bundle_id,
            cause,
            error,
        ),
    }
}

/// What the outcome of a probe comes to.
pub fn automation_status_of(bundle_id: &str, outcome: ProbeOutcome) -> (result: Result<
    i32,
    PermissionError,
>)
    ensures
        probe_result(bundle_id@, outcome, result),
{
    match outcome {
        ProbeOutcome::AlreadyRunning => Ok(AE_PERMISSION_NOT_DETERMINED),
        ProbeOutcome::TimedOut => Ok(AE_PERMISSION_NOT_DETERMINED),
        ProbeOutcome::SpawnFailed(source) => Err(
            PermissionError::AutomationProbeThreadSpawn { bundle_id: bundle_id.to_owned(), source },
        ),
        ProbeOutcome::Stopped => Err(
            PermissionError::AutomationProbeWorkerStopped { bundle_id: bundle_id.to_owned() },
        ),
        ProbeOutcome::Answered(Ok(status)) => Ok(status),
        ProbeOutcome::Answered(Err(error)) => Err(automation_target_error(bundle_id, error)),
    }
}

/// The targets whose probe still runs; none is probed twice at once.
#[derive(Debug)]
pub struct AutomationProbeState {
    in_flight: Vec<String>,
}

impl View for AutomationProbeState {
    type V = Set<Seq<char>>;

    closed spec fn view(&self) -> Set<Seq<char>> {
        Set::new(
            |bundle_id: Seq<char>|
                exists|i: int|
                    0 <= i < self.in_flight@.len() && (#[trigger] self.in_flight@[i])@
                        == bundle_id,
        )
    }
}

impl Default for AutomationProbeState {
    fn default() -> (state: AutomationProbeState)
        ensures
            state.wf(),
            state@ == Set::<Seq<char>>::empty(),
    {
        let state = AutomationProbeState { in_flight: Vec::new() };
        assert(state@ =~= Set::<Seq<char>>::empty());
        state
    }
}

impl AutomationProbeState {
    /// No target is listed twice.
    pub closed spec fn wf(&self) -> bool {
        forall|i: int, j: int|
            #![trigger self.in_flight@[i], self.in_flight@[j]]
            0 <= i < j < self.in_flight@.len() ==> self.in_flight@[i]@ != self.in_flight@[j]@
    }

    fn find(&self, bundle_id: &str) -> (found: Option<usize>)
        ensures
            match found {
                Some(index) => index < self.in_flight@.len() && self.in_flight@[index as int]@
                    == bundle_id@,
                None => !self@.contains(bundle_id@),
            },
    {
        let mut index: usize = 0;
        while index < self.in_flight.len()
            invariant
                index <= self.in_flight@.len(),
                forall|i: int|
                    0 <= i < index ==> (#[trigger] self.in_flight@[i])@ != bundle_id@,
            decreases self.in_flight@.len() - index,
        {
            if same_str(self.in_flight[index].as_str(), bundle_id) {
                return Some(index);
            }
            index = index + 1;
        }
        None
    }

    /// Starts a probe, unless one of the same target runs.
    pub fn begin(&mut self, bundle_id: &str) -> (started: bool)
        requires
            old(self).wf(),
        ensures
            final(self).wf(),
            started == !old(self)@.contains(bundle_id@),
            final(self)@ == old(self)@.insert(bundle_id@),
    {
        let ghost before = self.in_flight@;
        match self.find(bundle_id) {
            Some(index) => {
                proof {
                    assert(before[index as int]@ == bundle_id@);
                    assert(old(self)@.contains(bundle_id@));
                    assert(self@ =~= old(self)@.insert(bundle_id@));
                }
                false
            },
            None => {
                self.in_flight.push(bundle_id.to_owned());
                proof {
                    assert forall|other: Seq<char>|
                        self@.contains(other) == #[trigger] old(self)@.insert(
                            bundle_id@,
                        ).contains(other) by {
                        if old(self)@.contains(other) {
                            let i = choose|i: int|
                                0 <= i < before.len() && (#[trigger] before[i])@ == other;
                            assert(self.in_flight@[i]@ == other);
                        }
                        if self@.contains(other) {
                            let i = choose|i: int|
                                0 <= i < self.in_flight@.len() && (
                                #[trigger] self.in_flight@[i])@ == other;
                            if i < before.len() {
                                assert(before[i]@ == other);
                            }
                        }
                        if other == bundle_id@ {
                            assert(self.in_flight@[before.len() as int]@ == other);
                        }
                    }
                    assert(self@ =~= old(self)@.insert(bundle_id@));
                    assert forall|i: int, j: int|
                        #![trigger self.in_flight@[i], self.in_flight@[j]]
                        0 <= i < j < self.in_flight@.len() implies self.in_flight@[i]@
                        != self.in_flight@[j]@ by {
                        if j == before.len() {
                            assert(before[i]@ != bundle_id@);
                        } else {
                            assert(before[i]@ != before[j]@);
                        }
                    }
                }
                true
            },
        }
    }

    /// Ends the probe of a target.
    pub fn finish(&mut self, bundle_id: &str)
        requires
            old(self).wf(),
        ensures
            final(self).wf(),
            final(self)@ == old(self)@.remove(bundle_id@),
    {
        let ghost before = self.in_flight@;
        match self.find(bundle_id) {
            None => {
                assert(self@ =~= old(self)@.remove(bundle_id@));
            },
            Some(index) => {
                self.in_flight.remove(index);
                proof {
                    assert forall|other: Seq<char>|
                        self@.contains(other) == #[trigger] old(self)@.remove(
                            bundle_id@,
                        ).contains(other) by {
                        if self@.contains(other) {
                            let i = choose|i: int|
                                0 <= i < self.in_flight@.len() && (
                                #[trigger] self.in_flight@[i])@ == other;
                            let a = if i < index {
                                i
                            } else {
                                i + 1
                            };
                            assert(before[a]@ == other);
                            if a < index {
                                assert(before[a]@ != before[index as int]@);
                            } else {
                                assert(before[index as int]@ != before[a]@);
                            }
                        }
                        if old(self)@.contains(other) && other != bundle_id@ {
                            let i = choose|i: int|
                                0 <= i < before.len() && (#[trigger] before[i])@ == other;
                            let a = if i < index {
                                i
                            } else {
                                i - 1
                            };
                            assert(self.in_flight@[a]@ == other);
                        }
                    }
                    assert(self@ =~= old(self)@.remove(bundle_id@));
                    assert forall|i: int, j: int|
                        #![trigger self.in_flight@[i], self.in_flight@[j]]
                        0 <= i < j < self.in_flight@.len() implies self.in_flight@[i]@
                        != self.in_flight@[j]@ by {
                        let a = if i < index {
                            i
                        } else {
                            i + 1
                        };
                        let b = if j < index {
                            j
                        } else {
                            j + 1
                        };
                        assert(before[a]@ != before[b]@);
                    }
                }
            },
        }
    }

    /// Whether a probe of a target runs.
    pub fn is_in_flight(&self, bundle_id: &str) -> (running: bool)
        ensures
            running == self@.contains(bundle_id@),
    {
        match self.find(bundle_id) {
            Some(index) => {
                assert(self.in_flight@[index as int]@ == bundle_id@);
                true
            },
            None => false,
        }
    }
}

/// A target is probed again only after its probe ended, and the probes of other
/// targets have no part in it.
pub proof fn law_one_probe_per_target(running: Set<Seq<char>>, target: Seq<char>, other: Seq<char>)
    requires
        target != other,
    ensures
        running.insert(target).contains(target),
        !running.insert(target).remove(target).contains(target),
        running.insert(target).contains(other) == running.contains(other),
        running.remove(target).contains(other) == running.contains(other),
{
}

/// A permission counts as granted only where the system says so.
pub proof fn law_only_the_system_grants(
    status: i32,
    answer: Result<i32, PermissionError>,
    bundle_id: Seq<char>,
    result: Result<PermissionStatus, PermissionError>,
)
    ensures
        input_result(status, result) && result == Ok::<PermissionStatus, PermissionError>(
            PermissionStatus::Granted,
        ) ==> status == IO_HID_ACCESS_GRANTED,
        automation_result(bundle_id, answer, result) && result == Ok::<
            PermissionStatus,
            PermissionError,
        >(PermissionStatus::Granted) ==> answer == Ok::<i32, PermissionError>(
            AE_PERMISSION_GRANTED,
        ),
{
}

/// Each capability needs its own permission and is granted under its own pane; only the two that
/// automate a browser name a target, each its own browser. The state of a capability is the status
/// of its permission.
pub proof fn law_capabilities_name_their_permission(
    capability: Capability,
    state: CapabilityState,
    detail: MacOsCapabilityDetail,
)
    requires
        call_ensures(capability_detail, (capability, state), detail),
    ensures
        detail.platform@ == "macos"@,
        detail.permission is Accessibility <==> capability is ReadAccessibilityTree,
        detail.permission is InputMonitoring <==> capability is ObserveInput,
        detail.permission is Automation <==> capability is AutomateBrowser || capability
            is AutomateSafari,
        detail.status is Granted <==> state is Available,
        detail.status is Denied <==> state is ActionRequired,
        detail.status is NotDetermined <==> state is Deferred,
        detail.target_bundle_id matches Some(target) ==> detail.permission is Automation,
        capability is AutomateBrowser ==> (detail.target_bundle_id matches Some(target) && target@
            == "com.google.Chrome"@),
        capability is AutomateSafari ==> (detail.target_bundle_id matches Some(target) && target@
            == "com.apple.Safari"@),
        !(detail.permission is Automation) ==> detail.target_bundle_id is None,
        detail.permission is Accessibility ==> detail.settings_url@
            == "x-apple.systempreferences:com.apple.preference.security?Privacy_Accessibility"@,
        detail.permission is InputMonitoring ==> detail.settings_url@
            == "x-apple.systempreferences:com.apple.preference.security?Privacy_ListenEvent"@,
        detail.permission is Automation ==> detail.settings_url@
            == "x-apple.systempreferences:com.apple.preference.security?Privacy_Automation"@,
{
}

/// The system's numbers for access to the keyboard: zero grants, one denies, two has not been asked.
/// Any other number is an error that names it.
pub proof fn law_keyboard_access_is_told_by_its_number(
    status: i32,
    result: Result<PermissionStatus, PermissionError>,
)
    requires
        call_ensures(input_monitoring_permission, (status,), result),
    ensures
        result == Ok::<PermissionStatus, PermissionError>(PermissionStatus::Granted) <==> status
            == 0,
        result == Ok::<PermissionStatus, PermissionError>(PermissionStatus::Denied) <==> status == 1,
        result == Ok::<PermissionStatus, PermissionError>(PermissionStatus::NotDetermined)
            <==> status == 2,
        result is Err <==> status < 0 || status > 2,
        result matches Err(error) ==> error == (PermissionError::UnexpectedInputMonitoringStatus {
            status,
        }),
{
}

/// The system's numbers for automation: zero grants, one denies; a target that was not asked for or
/// does not run is undetermined. Any other number is an error that names it and the target; a failed
/// question stays failed.
pub proof fn law_automation_is_told_by_its_number(
    bundle_id: &str,
    answer: Result<i32, PermissionError>,
    result: Result<PermissionStatus, PermissionError>,
)
    requires
        call_ensures(automation_permission, (bundle_id, answer), result),
    ensures
        result == Ok::<PermissionStatus, PermissionError>(PermissionStatus::Granted) <==> answer
            == Ok::<i32, PermissionError>(0),
        result == Ok::<PermissionStatus, PermissionError>(PermissionStatus::Denied) <==> answer
            == Ok::<i32, PermissionError>((-1_743) as i32),
        result == Ok::<PermissionStatus, PermissionError>(PermissionStatus::NotDetermined) <==> answer
            == Ok::<i32, PermissionError>((-1_744) as i32) || answer == Ok::<i32, PermissionError>((-600) as i32),
        answer matches Err(error) ==> result == Err::<PermissionStatus, PermissionError>(error),
        answer is Ok && result is Err ==> (result->Err_0 matches
            PermissionError::UnexpectedAutomationStatus { bundle_id: named, status: reported }
            && named@ == bundle_id@ && reported == answer->Ok_0),
{
}

/// Each capability is answered by its own question: the accessibility tree by trust, input by its
/// number, a browser by asking that browser.
pub proof fn law_capabilities_ask_their_own_question<
    A: FnOnce() -> bool,
    I: FnOnce() -> i32,
    U: FnOnce(&'static str) -> Result<i32, PermissionError>,
>(
    capability: Capability,
    accessibility_is_trusted: A,
    input_monitoring_status: I,
    automation_status: U,
    result: Result<PermissionStatus, PermissionError>,
)
    requires
        call_ensures(
            permission_status_with::<A, I, U>,
            (capability, accessibility_is_trusted, input_monitoring_status, automation_status),
            result,
        ),
        result == Ok::<PermissionStatus, PermissionError>(PermissionStatus::Granted),
    ensures
        capability is ReadAccessibilityTree ==> call_ensures(accessibility_is_trusted, (), true),
        capability is ObserveInput ==> call_ensures(input_monitoring_status, (), 0),
        capability is AutomateBrowser ==> call_ensures(
            automation_status,
            (CHROME_BUNDLE_ID,),
            Ok::<i32, PermissionError>(0),
        ),
        capability is AutomateSafari ==> call_ensures(
            automation_status,
            (SAFARI_BUNDLE_ID,),
            Ok::<i32, PermissionError>(0),
        ),
        CHROME_BUNDLE_ID@ == "com.google.Chrome"@ && SAFARI_BUNDLE_ID@ == "com.apple.Safari"@,
{
}

/// A target that is probed already, or does not answer in time, counts as not asked; an answer is
/// taken as it is, and every failure names the target.
pub proof fn law_silent_probes_are_undetermined(
    bundle_id: &str,
    outcome: ProbeOutcome,
    result: Result<i32, PermissionError>,
)
    requires
        call_ensures(automation_status_of, (bundle_id, outcome), result),
    ensures
        outcome is AlreadyRunning || outcome is TimedOut ==> result == Ok::<i32, PermissionError>((-1_744) as i32),
        outcome matches ProbeOutcome::Answered(Ok(status)) ==> result == Ok::<i32, PermissionError>(
            status,
        ),
        outcome is SpawnFailed || outcome is Stopped || (outcome matches ProbeOutcome::Answered(Err(_)))
            <==> result is Err,
        outcome is Stopped ==> (result matches Err(PermissionError::AutomationProbeWorkerStopped {
            bundle_id: named,
        }) && named@ == bundle_id@),
        outcome matches ProbeOutcome::SpawnFailed(cause) ==> (result matches Err(
            PermissionError::AutomationProbeThreadSpawn { bundle_id: named, source },
        ) && named@ == bundle_id@ && source == cause),
{
}

/// A probe begins exactly where none of its target runs, and is over once it is finished; other
/// targets have no part in it. A request that could be made is a success whatever the user says.
pub proof fn law_probes_run_one_at_a_time(
    begun: Subject<AutomationProbeState>,
    target: &str,
    started: bool,
    ended: Subject<AutomationProbeState>,
    other: Seq<char>,
    request: Option<bool>,
    requested: Result<(), PermissionError>,
)
    requires
        begun.on.wf() && ended.on.wf(),
        call_ensures(AutomationProbeState::begin, (begun.on, target), started),
        call_ensures(AutomationProbeState::finish, (ended.on, target), ()),
        call_ensures(request_accessibility, (request,), requested),
        other != target@,
    ensures
        started <==> !old(begun.on)@.contains(target@),
        final(begun.on)@.contains(target@),
        final(begun.on)@.contains(other) == old(begun.on)@.contains(other),
        !final(ended.on)@.contains(target@),
        final(ended.on)@.contains(other) == old(ended.on)@.contains(other),
        requested is Ok <==> request is Some,
{
}

/// Permissions and their states are told by their names, each by its own.
pub proof fn law_permissions_have_names(
    permission: MacOsPermission,
    name: &'static str,
    status: PermissionStatus,
    word: &'static str,
)
    requires
        call_ensures(MacOsPermission::as_str, (permission,), name),
        call_ensures(PermissionStatus::as_str, (status,), word),
    ensures
        permission is Accessibility <==> name@ == "accessibility"@,
        permission is InputMonitoring <==> name@ == "input_monitoring"@,
        permission is Automation <==> name@ == "automation"@,
        status is Granted <==> word@ == "granted"@,
        status is Denied <==> word@ == "denied"@,
        status is NotDetermined <==> word@ == "not_determined"@,
{
    reveal_strlit("accessibility");
    reveal_strlit("input_monitoring");
    reveal_strlit("automation");
    reveal_strlit("granted");
    reveal_strlit("denied");
    reveal_strlit("not_determined");
    assert("accessibility"@.len() == 13 && "input_monitoring"@.len() == 16 && "automation"@.len() == 10);
    assert("granted"@.len() == 7 && "denied"@.len() == 6 && "not_determined"@.len() == 14);
}

/// The settings that are opened are the pane of the capability's permission.
pub proof fn law_settings_are_those_of_the_permission<
    O: FnOnce(&'static str) -> Result<(), PermissionError>,
>(opener: O, capability: Capability, result: Result<(), PermissionError>)
    requires
        call_ensures(open_settings_with::<O>, (opener, capability), result),
    ensures
        capability is ReadAccessibilityTree ==> call_ensures(
            opener,
            ("x-apple.systempreferences:com.apple.preference.security?Privacy_Accessibility",),
            result,
        ),
        capability is ObserveInput ==> call_ensures(
            opener,
            ("x-apple.systempreferences:com.apple.preference.security?Privacy_ListenEvent",),
            result,
        ),
        capability is AutomateBrowser || capability is AutomateSafari ==> call_ensures(
            opener,
            ("x-apple.systempreferences:com.apple.preference.security?Privacy_Automation",),
            result,
        ),
{
}

/// A target is made of an identifier that fits the native count, and by a status of zero alone.
pub proof fn law_targets_are_made_at_status_zero<C: FnOnce(i64) -> i16>(
    byte_count: usize,
    create: C,
    created: Result<(), AutomationTargetError>,
)
    requires
        call_ensures(automation_target::<C>, (byte_count, create), created),
    ensures
        created is Ok ==> byte_count <= i64::MAX && call_ensures(create, (byte_count as i64,), 0i16),
        created matches Err(AutomationTargetError::CreateFailed { status }) ==> status != 0
            && call_ensures(create, (byte_count as i64,), status),
        created matches Err(AutomationTargetError::BundleIdTooLong { byte_count: told }) ==> told
            == byte_count,
        byte_count > i64::MAX <==> (created is Err && created->Err_0 is BundleIdTooLong),
{
}

} // verus!
