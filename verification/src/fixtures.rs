use vstd::prelude::*;

use crate::format::text_eq;

verus! {

/// The one desktop-integration fixture state that the manager supports.
pub const WINDOWS_NEEDS_REPAIR_LEGACY_FIXTURE: &'static str = "windows_needs_repair_legacy";

/// Why a fixture configuration from the environment was refused.
#[derive(Debug, Clone, Copy, PartialEq, Eq, Structural)]
pub enum FixtureConfigError {
    /// Some but not all of the update fixture paths were given.
    IncompleteUpdateFixture,
    /// The desktop-integration fixture names a state the manager does not know.
    UnsupportedDesktopIntegrationState,
    /// Only one of the desktop-integration state and record path was given.
    IncompleteDesktopIntegrationFixture,
}

/// The files of the scripted update source.
#[derive(Debug, Clone)]
pub struct UpdateFixturePaths {
    pub metadata: String,
    pub asset: String,
    pub launch_record: String,
    pub check_record: String,
}

/// Resolves the update fixture: no path means the real update source, all
/// four paths a fixture, and anything in between is refused rather than
/// partially falling back.
pub fn resolve_update_fixture_paths(
    metadata: Option<String>,
    asset: Option<String>,
    launch_record: Option<String>,
    check_record: Option<String>,
) -> (resolved: Result<Option<UpdateFixturePaths>, FixtureConfigError>)
    ensures
        (metadata is None && asset is None && launch_record is None && check_record is None)
            ==> resolved == Ok::<Option<UpdateFixturePaths>, FixtureConfigError>(None),
        (metadata is Some && asset is Some && launch_record is Some && check_record is Some)
            ==> (resolved matches Ok(Some(paths)) && paths.metadata == metadata->0 && paths.asset
            == asset->0 && paths.launch_record == launch_record->0 && paths.check_record
            == check_record->0),
        !(metadata is None && asset is None && launch_record is None && check_record is None)
            && !(metadata is Some && asset is Some && launch_record is Some && check_record is Some)
            ==> resolved == Err::<Option<UpdateFixturePaths>, FixtureConfigError>(
            FixtureConfigError::IncompleteUpdateFixture),
{
    match (metadata, asset, launch_record, check_record) {
        (None, None, None, None) => Ok(None),
        (Some(metadata), Some(asset), Some(launch_record), Some(check_record)) => Ok(
            Some(UpdateFixturePaths { metadata, asset, launch_record, check_record }),
        ),
        _ => Err(FixtureConfigError::IncompleteUpdateFixture),
    }
}

/// The scripted desktop-integration environment's configuration.
#[derive(Debug, Clone)]
pub struct DesktopIntegrationFixtureConfig {
    pub record_path: String,
}

/// Resolves the desktop-integration fixture: neither setting means the real
/// system, the supported state with a record path a fixture; any other state
/// or a lone setting is refused.
pub fn resolve_desktop_integration_fixture(state: Option<String>, record_path: Option<String>) -> (resolved: Result<
    Option<DesktopIntegrationFixtureConfig>,
    FixtureConfigError,
>)
    ensures
        (state is None && record_path is None) ==> resolved == Ok::<
            Option<DesktopIntegrationFixtureConfig>,
            FixtureConfigError,
        >(None),
        (state is Some && record_path is Some && state->0@ == WINDOWS_NEEDS_REPAIR_LEGACY_FIXTURE@)
            ==> (resolved matches Ok(Some(config)) && config.record_path == record_path->0),
        (state is Some && record_path is Some && state->0@ != WINDOWS_NEEDS_REPAIR_LEGACY_FIXTURE@)
            ==> resolved == Err::<Option<DesktopIntegrationFixtureConfig>, FixtureConfigError>(
            FixtureConfigError::UnsupportedDesktopIntegrationState),
        (state is Some) != (record_path is Some) ==> resolved == Err::<
            Option<DesktopIntegrationFixtureConfig>,
            FixtureConfigError,
        >(FixtureConfigError::IncompleteDesktopIntegrationFixture),
{
    match (state, record_path) {
        (None, None) => Ok(None),
        (Some(state), Some(record_path)) => {
            if text_eq(state.as_str(), WINDOWS_NEEDS_REPAIR_LEGACY_FIXTURE) {
                Ok(Some(DesktopIntegrationFixtureConfig { record_path }))
            } else {
                Err(FixtureConfigError::UnsupportedDesktopIntegrationState)
            }
        },
        _ => Err(FixtureConfigError::IncompleteDesktopIntegrationFixture),
    }
}

} // verus!
