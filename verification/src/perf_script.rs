use vstd::prelude::*;

verus! {

/// How long the scripted performance run drives the window, in microseconds.
pub const SCRIPT_DURATION_MICROS: u64 = 5_000_000;

/// The frame interval the scripted run repaints at, in microseconds.
pub const FRAME_INTERVAL_MICROS: u64 = 16_667;

/// How long the recorder waits for the report writer to flush, in
/// milliseconds.
pub const FINAL_FLUSH_TIMEOUT_MILLIS: u64 = 2_000;

/// What a scripted key press asks the manager to do.
#[derive(Debug, Clone, Copy, PartialEq, Eq, Structural)]
pub enum PerfScriptAction {
    NavigateAbout,
    NavigateOverview,
    ToggleLocale,
    ToggleTheme,
    Refresh,
}

/// The function keys the performance script presses.
#[derive(Debug, Clone, Copy, PartialEq, Eq, Structural)]
pub enum ScriptKey {
    F6,
    F7,
    F8,
    F9,
    F10,
}

/// Step `index` of the script: when it is due, in milliseconds after the
/// start, and the key it presses. Five steps, half a second apart.
pub open spec fn script_step_spec(index: int) -> Option<(u64, ScriptKey)> {
    if index == 0 {
        Some((500, ScriptKey::F6))
    } else if index == 1 {
        Some((1000, ScriptKey::F7))
    } else if index == 2 {
        Some((1500, ScriptKey::F8))
    } else if index == 3 {
        Some((2000, ScriptKey::F9))
    } else if index == 4 {
        Some((2500, ScriptKey::F10))
    } else {
        None
    }
}

/// The step of the script at `index`, if there is one.
pub fn script_step(index: usize) -> (step: Option<(u64, ScriptKey)>)
    ensures
        step == script_step_spec(index as int),
{
    if index == 0 {
        Some((500, ScriptKey::F6))
    } else if index == 1 {
        Some((1000, ScriptKey::F7))
    } else if index == 2 {
        Some((1500, ScriptKey::F8))
    } else if index == 3 {
        Some((2000, ScriptKey::F9))
    } else if index == 4 {
        Some((2500, ScriptKey::F10))
    } else {
        None
    }
}

pub open spec fn action_for_key_spec(key: ScriptKey) -> PerfScriptAction {
    match key {
        ScriptKey::F6 => PerfScriptAction::NavigateAbout,
        ScriptKey::F7 => PerfScriptAction::NavigateOverview,
        ScriptKey::F8 => PerfScriptAction::ToggleLocale,
        ScriptKey::F9 => PerfScriptAction::ToggleTheme,
        ScriptKey::F10 => PerfScriptAction::Refresh,
    }
}

/// What a scripted key asks for.
pub fn scripted_action(key: ScriptKey) -> (action: PerfScriptAction)
    ensures
        action == action_for_key_spec(key),
{
    match key {
        ScriptKey::F6 => PerfScriptAction::NavigateAbout,
        ScriptKey::F7 => PerfScriptAction::NavigateOverview,
        ScriptKey::F8 => PerfScriptAction::ToggleLocale,
        ScriptKey::F9 => PerfScriptAction::ToggleTheme,
        ScriptKey::F10 => PerfScriptAction::Refresh,
    }
}

/// The key to press now, if the next step of the script is due
/// `elapsed_millis` after the start.
pub fn due_script_key(next_step: usize, elapsed_millis: u64) -> (key: Option<ScriptKey>)
    ensures
        key == match script_step_spec(next_step as int) {
            Some((due, k)) => if elapsed_millis >= due {
                Some(k)
            } else {
                None::<ScriptKey>
            },
            None => None::<ScriptKey>,
        },
{
    match script_step(next_step) {
        Some((due, key)) => if elapsed_millis >= due {
            Some(key)
        } else {
            None
        },
        None => None,
    }
}

/// What the recorder does on a frame: repaint again after how many
/// microseconds, and whether to close the window now.
#[derive(Debug, Clone, Copy, PartialEq, Eq, Structural)]
pub struct DrivePlan {
    pub repaint_after_frame: bool,
    pub repaint_after_micros: Option<u64>,
    pub close: bool,
}

/// The plan for a frame `elapsed_micros` after the start: keep repainting at
/// frame rate while the script runs; with an exit time, close once when it
/// has passed, else repaint when it comes.
pub open spec fn drive_plan_spec(
    elapsed_micros: u64,
    exit_after_micros: Option<u64>,
    close_requested: bool,
) -> DrivePlan {
    DrivePlan {
        repaint_after_frame: elapsed_micros < SCRIPT_DURATION_MICROS,
        repaint_after_micros: match exit_after_micros {
            Some(exit) => if elapsed_micros >= exit {
                None
            } else {
                Some((exit - elapsed_micros) as u64)
            },
            None => None,
        },
        close: match exit_after_micros {
            Some(exit) => elapsed_micros >= exit && !close_requested,
            None => false,
        },
    }
}

/// Decides what the recorder does on a frame.
pub fn drive_plan(elapsed_micros: u64, exit_after_micros: Option<u64>, close_requested: bool) -> (plan: DrivePlan)
    ensures
        plan == drive_plan_spec(elapsed_micros, exit_after_micros, close_requested),
{
    let repaint_after_frame = elapsed_micros < SCRIPT_DURATION_MICROS;
    match exit_after_micros {
        Some(exit) => {
            if elapsed_micros >= exit {
                DrivePlan { repaint_after_frame, repaint_after_micros: None, close: !close_requested }
            } else {
                DrivePlan {
                    repaint_after_frame,
                    repaint_after_micros: Some(exit - elapsed_micros),
                    close: false,
                }
            }
        },
        None => DrivePlan { repaint_after_frame, repaint_after_micros: None, close: false },
    }
}

/// The window is closed at most once: a plan made after the close was
/// requested never closes again.
pub proof fn law_close_requested_once(elapsed_micros: u64, exit_after_micros: Option<u64>)
    ensures
        !drive_plan_spec(elapsed_micros, exit_after_micros, true).close,
{
}

/// Each script step presses its own key, and the steps come in order.
pub proof fn law_script_steps_ordered(i: int, j: int)
    requires
        0 <= i < j < 5,
    ensures
        script_step_spec(i) matches Some((due_i, key_i)) && script_step_spec(j) matches Some(
            (due_j, key_j),
        ) && due_i < due_j && action_for_key_spec(key_i) != action_for_key_spec(key_j),
{
}

} // verus!
