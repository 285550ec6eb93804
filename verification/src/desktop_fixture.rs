use vstd::prelude::*;

use crate::format::text_eq;

verus! {

/// The desktop integration items the scripted environment can repair.
#[derive(Debug, Clone, Copy, PartialEq, Eq, Structural)]
pub enum DesktopIntegrationItemKind {
    DesktopManagerShortcut,
    StartMenuLauncherShortcut,
    StartMenuManagerShortcut,
    UrlProtocol,
}

impl DesktopIntegrationItemKind {
    pub open spec fn name_spec(self) -> Seq<char> {
        match self {
            DesktopIntegrationItemKind::DesktopManagerShortcut => "desktop_manager_shortcut"@,
            DesktopIntegrationItemKind::StartMenuLauncherShortcut => "start_menu_launcher_shortcut"@,
            DesktopIntegrationItemKind::StartMenuManagerShortcut => "start_menu_manager_shortcut"@,
            DesktopIntegrationItemKind::UrlProtocol => "url_protocol"@,
        }
    }

    /// The stable name of the item.
    pub fn as_str(self) -> (name: &'static str)
        ensures
            name@ == self.name_spec(),
    {
        match self {
            DesktopIntegrationItemKind::DesktopManagerShortcut => "desktop_manager_shortcut",
            DesktopIntegrationItemKind::StartMenuLauncherShortcut => "start_menu_launcher_shortcut",
            DesktopIntegrationItemKind::StartMenuManagerShortcut => "start_menu_manager_shortcut",
            DesktopIntegrationItemKind::UrlProtocol => "url_protocol",
        }
    }
}

/// A shortcut as the scripted environment holds it.
pub struct ShortcutSnapshot {
    pub target: String,
    pub arguments: String,
}

/// The repairable desktop items of the scripted Windows environment.
pub struct WindowsRepairSnapshot {
    pub desktop_manager: Option<ShortcutSnapshot>,
    pub start_menu_launcher: Option<ShortcutSnapshot>,
    pub start_menu_manager: Option<ShortcutSnapshot>,
    pub protocol_command: Option<String>,
}

/// A registry string value: absent, or holding a text.
pub enum OwnedStringValueSnapshot {
    Absent,
    String(String),
}

/// The start-at-sign-in registrations of the scripted Windows environment.
pub struct SignInSnapshot {
    pub canonical_run: OwnedStringValueSnapshot,
    pub legacy_run: OwnedStringValueSnapshot,
    pub legacy_shortcut: Option<String>,
}

/// One step of a desktop integration repair.
pub enum DesktopRepairOperation {
    WriteShortcut { kind: DesktopIntegrationItemKind, target: String, arguments: String },
    WriteProtocol { command: String },
    RegisterMacosBundle,
}

/// One step of a start-at-sign-in change.
pub enum StartupRegistrationOperation {
    SetRunValue { name: String, value: String },
    DeleteRunValue { name: String },
    DeleteLegacyStartupShortcut,
}

/// The scripted environment refuses an effect it does not model.
#[derive(Debug, Clone, Copy, PartialEq, Eq, Structural)]
pub enum DesktopFixtureError {
    EffectFailed,
}

/// The record line a repair step leaves, or `None` for a step the scripted
/// Windows environment refuses: a shortcut of no shortcut kind, or a macOS
/// bundle.
pub open spec fn repair_record_spec(operation: DesktopRepairOperation) -> Option<Seq<char>> {
    match operation {
        DesktopRepairOperation::WriteShortcut { kind, .. } => match kind {
            DesktopIntegrationItemKind::UrlProtocol => None,
            _ => Some("repair:"@ + kind.name_spec()),
        },
        DesktopRepairOperation::WriteProtocol { .. } => Some("repair:url_protocol"@),
        DesktopRepairOperation::RegisterMacosBundle => None,
    }
}

/// The line to record for a repair step, before the step takes effect.
pub fn repair_record(operation: &DesktopRepairOperation) -> (record: Result<String, DesktopFixtureError>)
    ensures
        match repair_record_spec(*operation) {
            Some(line) => record matches Ok(text) && text@ == line,
            None => record == Err::<String, DesktopFixtureError>(DesktopFixtureError::EffectFailed),
        },
{
    match operation {
        DesktopRepairOperation::WriteShortcut { kind, .. } => match kind {
            DesktopIntegrationItemKind::UrlProtocol => Err(DesktopFixtureError::EffectFailed),
            _ => {
                let mut line = String::new();
                line.append("repair:");
                line.append(kind.as_str());
                Ok(line)
            },
        },
        DesktopRepairOperation::WriteProtocol { .. } => {
            let mut line = String::new();
            line.append("repair:url_protocol");
            Ok(line)
        },
        DesktopRepairOperation::RegisterMacosBundle => Err(DesktopFixtureError::EffectFailed),
    }
}

/// The repair snapshot after a recorded step: the written shortcut or
/// protocol command replaces the old one.
pub open spec fn repaired(repair: WindowsRepairSnapshot, operation: DesktopRepairOperation) -> WindowsRepairSnapshot {
    match operation {
        DesktopRepairOperation::WriteShortcut { kind, target, arguments } => {
            let shortcut = Some(ShortcutSnapshot { target, arguments });
            match kind {
                DesktopIntegrationItemKind::DesktopManagerShortcut => WindowsRepairSnapshot {
                    desktop_manager: shortcut,
                    ..repair
                },
                DesktopIntegrationItemKind::StartMenuLauncherShortcut => WindowsRepairSnapshot {
                    start_menu_launcher: shortcut,
                    ..repair
                },
                DesktopIntegrationItemKind::StartMenuManagerShortcut => WindowsRepairSnapshot {
                    start_menu_manager: shortcut,
                    ..repair
                },
                DesktopIntegrationItemKind::UrlProtocol => repair,
            }
        },
        DesktopRepairOperation::WriteProtocol { command } => WindowsRepairSnapshot {
            protocol_command: Some(command),
            ..repair
        },
        DesktopRepairOperation::RegisterMacosBundle => repair,
    }
}

/// Applies a repair step that was recorded.
pub fn apply_repair(repair: &mut WindowsRepairSnapshot, operation: &DesktopRepairOperation)
    ensures
        *final(repair) == repaired(*old(repair), *operation),
{
    match operation {
        DesktopRepairOperation::WriteShortcut { kind, target, arguments } => {
            let shortcut = Some(ShortcutSnapshot { target: target.clone(), arguments: arguments.clone() });
            match kind {
                DesktopIntegrationItemKind::DesktopManagerShortcut => repair.desktop_manager = shortcut,
                DesktopIntegrationItemKind::StartMenuLauncherShortcut => repair.start_menu_launcher = shortcut,
                DesktopIntegrationItemKind::StartMenuManagerShortcut => repair.start_menu_manager = shortcut,
                DesktopIntegrationItemKind::UrlProtocol => {},
            }
        },
        DesktopRepairOperation::WriteProtocol { command } => {
            repair.protocol_command = Some(command.clone());
        },
        DesktopRepairOperation::RegisterMacosBundle => {},
    }
}

/// The record line of a sign-in step, or `None` for a step the scripted
/// environment refuses; `canonical_name` and `legacy_name` are the run
/// value names of the current and the legacy registration.
pub open spec fn startup_record_spec(
    operation: StartupRegistrationOperation,
    canonical_name: Seq<char>,
    legacy_name: Seq<char>,
) -> Option<Seq<char>> {
    match operation {
        StartupRegistrationOperation::SetRunValue { name, .. } => if name@ == canonical_name {
            Some("startup:set_canonical"@)
        } else {
            None
        },
        StartupRegistrationOperation::DeleteRunValue { name } => if name@ == canonical_name {
            Some("startup:delete_canonical"@)
        } else if name@ == legacy_name {
            Some("startup:delete_legacy_run"@)
        } else {
            None
        },
        StartupRegistrationOperation::DeleteLegacyStartupShortcut => Some(
            "startup:delete_legacy_shortcut"@,
        ),
    }
}

/// The line to record for a sign-in step, before the step takes effect.
pub fn startup_record(
    operation: &StartupRegistrationOperation,
    canonical_name: &str,
    legacy_name: &str,
) -> (record: Result<&'static str, DesktopFixtureError>)
    ensures
        match startup_record_spec(*operation, canonical_name@, legacy_name@) {
            Some(line) => record matches Ok(text) && text@ == line,
            None => record == Err::<&'static str, DesktopFixtureError>(DesktopFixtureError::EffectFailed),
        },
{
    match operation {
        StartupRegistrationOperation::SetRunValue { name, .. } => if text_eq(name.as_str(), canonical_name) {
            Ok("startup:set_canonical")
        } else {
            Err(DesktopFixtureError::EffectFailed)
        },
        StartupRegistrationOperation::DeleteRunValue { name } => if text_eq(name.as_str(), canonical_name) {
            Ok("startup:delete_canonical")
        } else if text_eq(name.as_str(), legacy_name) {
            Ok("startup:delete_legacy_run")
        } else {
            Err(DesktopFixtureError::EffectFailed)
        },
        StartupRegistrationOperation::DeleteLegacyStartupShortcut => Ok("startup:delete_legacy_shortcut"),
    }
}

/// The sign-in snapshot after a recorded step.
pub open spec fn signed_in(
    sign_in: SignInSnapshot,
    operation: StartupRegistrationOperation,
    canonical_name: Seq<char>,
) -> SignInSnapshot {
    match operation {
        StartupRegistrationOperation::SetRunValue { name, value } => if name@ == canonical_name {
            SignInSnapshot { canonical_run: OwnedStringValueSnapshot::String(value), ..sign_in }
        } else {
            sign_in
        },
        StartupRegistrationOperation::DeleteRunValue { name } => if name@ == canonical_name {
            SignInSnapshot { canonical_run: OwnedStringValueSnapshot::Absent, ..sign_in }
        } else {
            SignInSnapshot { legacy_run: OwnedStringValueSnapshot::Absent, ..sign_in }
        },
        StartupRegistrationOperation::DeleteLegacyStartupShortcut => SignInSnapshot {
            legacy_shortcut: None,
            ..sign_in
        },
    }
}

/// Applies a sign-in step that was recorded.
pub fn apply_startup(
    sign_in: &mut SignInSnapshot,
    operation: &StartupRegistrationOperation,
    canonical_name: &str,
    legacy_name: &str,
)
    requires
        startup_record_spec(*operation, canonical_name@, legacy_name@) is Some,
    ensures
        *final(sign_in) == signed_in(*old(sign_in), *operation, canonical_name@),
{
    match operation {
        StartupRegistrationOperation::SetRunValue { value, .. } => {
            sign_in.canonical_run = OwnedStringValueSnapshot::String(value.clone());
        },
        StartupRegistrationOperation::DeleteRunValue { name } => {
            if text_eq(name.as_str(), canonical_name) {
                sign_in.canonical_run = OwnedStringValueSnapshot::Absent;
            } else {
                sign_in.legacy_run = OwnedStringValueSnapshot::Absent;
            }
        },
        StartupRegistrationOperation::DeleteLegacyStartupShortcut => {
            sign_in.legacy_shortcut = None;
        },
    }
}

} // verus!
