use vstd::prelude::*;

use crate::format::{push_char, text_eq};
use crate::overview::Route;
use crate::path_picker::{
    PathPickerErrorKind, PathPickerRequest, PathPickerResponse, PathPickerTarget,
};

verus! {

/// The tabs of the settings page.
#[derive(Debug, Clone, Copy, PartialEq, Eq, Structural)]
pub enum SettingsTab {
    Stepwise,
    ImageOverlay,
    LaunchArguments,
}

impl Default for SettingsTab {
    fn default() -> (tab: Self)
        ensures
            tab == SettingsTab::Stepwise,
    {
        SettingsTab::Stepwise
    }
}

/// Where the settings page is in loading its workspace.
#[derive(Debug, Clone, Copy, PartialEq, Eq, Structural)]
pub enum SettingsLoadPhase {
    Idle,
    Loading,
    Ready,
    Refreshing,
    Error,
}

impl Default for SettingsLoadPhase {
    fn default() -> (phase: Self)
        ensures
            phase == SettingsLoadPhase::Idle,
    {
        SettingsLoadPhase::Idle
    }
}

/// Where a save, reset or test of a settings group stands.
#[derive(Debug, Clone, Copy, PartialEq, Eq, Structural)]
pub enum SettingsOperationPhase {
    Idle,
    Running,
    Ready,
    Error,
}

impl Default for SettingsOperationPhase {
    fn default() -> (phase: Self)
        ensures
            phase == SettingsOperationPhase::Idle,
    {
        SettingsOperationPhase::Idle
    }
}

/// Why a settings operation failed.
#[derive(Debug, Clone, Copy, PartialEq, Eq, Structural)]
pub enum SettingsFailureKind {
    SettingsReadFailed,
    SettingsWriteFailed,
    SettingsConflict,
    InvalidRevision,
    InvalidUrl,
    InvalidEnvironmentVariable,
    InvalidModel,
    InvalidNumericField,
    InvalidPath,
    InvalidFitMode,
    InvalidArgument,
    InvalidSecret,
    ConfirmationMismatch,
    StepwiseUnauthorized,
    StepwiseTimeout,
    StepwiseRejected,
    StepwiseNetwork,
    WorkerStopped,
}

/// The settings groups that are saved and reset on their own.
#[derive(Debug, Clone, Copy, PartialEq, Eq, Structural)]
pub enum SafeSettingsGroup {
    Stepwise,
    ImageOverlay,
    ExtraArgs,
}

/// How the overlay image is fitted to the window.
#[derive(Debug, Clone, Copy, PartialEq, Eq, Structural)]
pub enum ImageOverlayFitMode {
    Fit,
    Fill,
    Stretch,
    Center,
}

/// A save, reset or test: its phase, the id of the request it waits for, and
/// the last failure.
#[derive(Debug, Clone, Copy, PartialEq, Eq, Structural)]
pub struct SettingsOperationState {
    pub phase: SettingsOperationPhase,
    pub current_request_id: u64,
    pub error: Option<SettingsFailureKind>,
}

impl Default for SettingsOperationState {
    fn default() -> (state: Self)
        ensures
            state == idle_operation(),
    {
        SettingsOperationState {
            phase: SettingsOperationPhase::Idle,
            current_request_id: 0,
            error: None,
        }
    }
}

/// An operation that never ran.
pub open spec fn idle_operation() -> SettingsOperationState {
    SettingsOperationState { phase: SettingsOperationPhase::Idle, current_request_id: 0, error: None }
}

/// An operation that runs request `id`.
pub open spec fn running_operation(id: u64) -> SettingsOperationState {
    SettingsOperationState {
        phase: SettingsOperationPhase::Running,
        current_request_id: id,
        error: None,
    }
}

/// Leaving the settings page, or reloading it.
#[derive(Debug, Clone, Copy, PartialEq, Eq, Structural)]
pub enum SettingsTransition {
    Navigate(Route),
    Refresh,
}

/// Which settings groups hold unsaved edits.
#[derive(Debug, Clone, Copy, PartialEq, Eq, Structural)]
pub struct DirtySettingsGroups {
    pub stepwise: bool,
    pub image_overlay: bool,
    pub extra_args: bool,
}

impl Default for DirtySettingsGroups {
    fn default() -> (groups: Self)
        ensures
            !groups.stepwise && !groups.image_overlay && !groups.extra_args,
    {
        DirtySettingsGroups { stepwise: false, image_overlay: false, extra_args: false }
    }
}

impl DirtySettingsGroups {
    pub open spec fn has(self, group: SafeSettingsGroup) -> bool {
        match group {
            SafeSettingsGroup::Stepwise => self.stepwise,
            SafeSettingsGroup::ImageOverlay => self.image_overlay,
            SafeSettingsGroup::ExtraArgs => self.extra_args,
        }
    }

    pub open spec fn size(self) -> nat {
        (if self.stepwise {
            1nat
        } else {
            0nat
        }) + (if self.image_overlay {
            1nat
        } else {
            0nat
        }) + (if self.extra_args {
            1nat
        } else {
            0nat
        })
    }

    /// The group holds unsaved edits.
    pub fn contains(self, group: SafeSettingsGroup) -> (dirty: bool)
        ensures
            dirty == self.has(group),
    {
        match group {
            SafeSettingsGroup::Stepwise => self.stepwise,
            SafeSettingsGroup::ImageOverlay => self.image_overlay,
            SafeSettingsGroup::ExtraArgs => self.extra_args,
        }
    }

    /// How many groups hold unsaved edits.
    pub fn count(self) -> (n: usize)
        ensures
            n == self.size(),
    {
        let mut n: usize = 0;
        if self.stepwise {
            n = n + 1;
        }
        if self.image_overlay {
            n = n + 1;
        }
        if self.extra_args {
            n = n + 1;
        }
        n
    }

    /// Some group holds unsaved edits.
    pub fn any(self) -> (some: bool)
        ensures
            some == (self.stepwise || self.image_overlay || self.extra_args),
    {
        self.stepwise || self.image_overlay || self.extra_args
    }
}

/// A line without the carriage return that ends it, if one does.
pub open spec fn strip_carriage_return(line: Seq<char>) -> Seq<char> {
    if line.len() > 0 && line.last() == '\r' {
        line.drop_last()
    } else {
        line
    }
}

/// The lines finished so far and the line being read, after reading `s`.
pub open spec fn line_scan(s: Seq<char>) -> (Seq<Seq<char>>, Seq<char>)
    decreases s.len(),
{
    if s.len() == 0 {
        (Seq::empty(), Seq::empty())
    } else {
        let (done, current) = line_scan(s.drop_last());
        if s.last() == '\n' {
            (done.push(strip_carriage_return(current)), Seq::empty())
        } else {
            (done, current.push(s.last()))
        }
    }
}

/// The lines of a text: split at `\n`, a `\r` before it dropped, and no empty
/// line after a final line ending.
pub open spec fn text_lines(s: Seq<char>) -> Seq<Seq<char>> {
    let (done, current) = line_scan(s);
    if current.len() == 0 {
        done
    } else {
        done.push(current)
    }
}

/// How many of the lines hold something.
pub open spec fn non_empty_count(lines: Seq<Seq<char>>) -> nat
    decreases lines.len(),
{
    if lines.len() == 0 {
        0
    } else {
        non_empty_count(lines.drop_last()) + if lines.last().len() > 0 {
            1nat
        } else {
            0nat
        }
    }
}

/// Lines joined with `\n` between them.
pub open spec fn joined_lines(lines: Seq<Seq<char>>) -> Seq<char>
    decreases lines.len(),
{
    if lines.len() == 0 {
        Seq::empty()
    } else if lines.len() == 1 {
        lines[0]
    } else {
        joined_lines(lines.drop_last()) + seq!['\n'] + lines.last()
    }
}

/// Splits a text into its lines.
pub fn split_lines(text: &str) -> (lines: Vec<String>)
    ensures
        lines@.map_values(|line: String| line@) == text_lines(text@),
{
    let n = text.unicode_len();
    let mut done: Vec<String> = Vec::new();
    let mut current = String::new();
    let mut i: usize = 0;
    while i < n
        invariant
            n == text@.len(),
            i <= n,
            done@.map_values(|line: String| line@) == line_scan(text@.take(i as int)).0,
            current@ == line_scan(text@.take(i as int)).1,
        decreases n - i,
    {
        let c = text.get_char(i);
        proof {
            assert(text@.take(i + 1).drop_last() =~= text@.take(i as int));
        }
        if c == '\n' {
            let line = strip_cr(current);
            done.push(line);
            current = String::new();
        } else {
            push_char(&mut current, c);
        }
        i = i + 1;
        proof {
            assert(done@.map_values(|line: String| line@) =~= line_scan(text@.take(i as int)).0);
        }
    }
    proof {
        assert(text@.take(n as int) =~= text@);
    }
    if current.unicode_len() > 0 {
        done.push(current);
        proof {
            assert(done@.map_values(|line: String| line@) =~= text_lines(text@));
        }
    }
    done
}

fn strip_cr(line: String) -> (stripped: String)
    ensures
        stripped@ == strip_carriage_return(line@),
{
    let n = line.unicode_len();
    if n > 0 && line.get_char(n - 1) == '\r' {
        let mut out = String::new();
        let mut i: usize = 0;
        while i < n - 1
            invariant
                n == line@.len(),
                n > 0,
                i <= n - 1,
                out@ == line@.take(i as int),
            decreases n - 1 - i,
        {
            push_char(&mut out, line.get_char(i));
            proof {
                assert(line@.take(i + 1) =~= line@.take(i as int).push(line@[i as int]));
            }
            i = i + 1;
        }
        proof {
            assert(line@.take(n - 1) =~= line@.drop_last());
        }
        out
    } else {
        line
    }
}

/// The launch arguments being edited, one per line.
pub struct ExtraArgsDraft {
    pub text: String,
}

impl ExtraArgsDraft {
    /// How many non-empty lines the text holds.
    pub fn argument_count(&self) -> (n: usize)
        ensures
            n == non_empty_count(text_lines(self.text@)),
    {
        let lines = split_lines(self.text.as_str());
        let mut n: usize = 0;
        let mut i: usize = 0;
        while i < lines.len()
            invariant
                i <= lines@.len(),
                n <= i,
                lines@.map_values(|line: String| line@) == text_lines(self.text@),
                n == non_empty_count(lines@.map_values(|line: String| line@).take(i as int)),
            decreases lines@.len() - i,
        {
            proof {
                let views = lines@.map_values(|line: String| line@);
                assert(views.take(i + 1).drop_last() =~= views.take(i as int));
            }
            if lines[i].unicode_len() > 0 {
                n = n + 1;
            }
            i = i + 1;
        }
        proof {
            let views = lines@.map_values(|line: String| line@);
            assert(views.take(lines@.len() as int) =~= views);
        }
        n
    }
}

/// Joins lines with `\n` between them.
pub fn join_lines(lines: &Vec<String>) -> (text: String)
    ensures
        text@ == joined_lines(lines@.map_values(|line: String| line@)),
{
    let mut text = String::new();
    let mut i: usize = 0;
    while i < lines.len()
        invariant
            i <= lines@.len(),
            text@ == joined_lines(lines@.map_values(|line: String| line@).take(i as int)),
        decreases lines@.len() - i,
    {
        let ghost views = lines@.map_values(|line: String| line@);
        proof {
            assert(views.take(i + 1).drop_last() =~= views.take(i as int));
        }
        if i > 0 {
            push_char(&mut text, '\n');
        }
        let line = &lines[i];
        let n = line.unicode_len();
        let ghost before = text@;
        let mut j: usize = 0;
        while j < n
            invariant
                n == line@.len(),
                j <= n,
                text@ == before + line@.take(j as int),
            decreases n - j,
        {
            push_char(&mut text, line.get_char(j));
            proof {
                assert(line@.take(j + 1) =~= line@.take(j as int).push(line@[j as int]));
                assert(before + line@.take(j + 1) =~= (before + line@.take(j as int)).push(
                    line@[j as int],
                ));
            }
            j = j + 1;
        }
        proof {
            assert(line@.take(n as int) =~= line@);
            if i == 0 {
                assert(before =~= Seq::<char>::empty());
                assert(text@ =~= views.take(1)[0]);
            }
        }
        i = i + 1;
    }
    proof {
        assert(lines@.map_values(|line: String| line@).take(lines@.len() as int) =~= lines@.map_values(
            |line: String| line@,
        ));
    }
    text
}

/// The Stepwise settings as stored.
pub struct StepwiseSettings {
    pub enabled: bool,
    pub direct_send: bool,
    pub base_url: String,
    pub api_key_configured: bool,
    pub api_key_env: String,
    pub api_key_env_configured: bool,
    pub model: String,
    pub max_items: u8,
    pub max_input_chars: u32,
    pub max_output_tokens: u32,
    pub timeout_ms: u64,
}

/// Stepwise settings with the revision they were read at.
pub struct RevisionedStepwiseSettings {
    pub revision: u64,
    pub settings: StepwiseSettings,
}

/// The image overlay settings as stored.
pub struct ImageOverlaySettings {
    pub enabled: bool,
    pub path: String,
    pub opacity: u8,
    pub fit_mode: ImageOverlayFitMode,
}

/// Image overlay settings with the revision they were read at.
pub struct RevisionedImageOverlaySettings {
    pub revision: u64,
    pub settings: ImageOverlaySettings,
}

/// The extra launch arguments as stored.
pub struct ExtraArgsSettings {
    pub args: Vec<String>,
}

/// Extra launch arguments with the revision they were read at.
pub struct RevisionedExtraArgs {
    pub revision: u64,
    pub settings: ExtraArgsSettings,
}

/// What the settings service reported for the three groups.
pub struct ManagerSettingsWorkspace {
    pub stepwise: RevisionedStepwiseSettings,
    pub image_overlay: RevisionedImageOverlaySettings,
    pub extra_args: RevisionedExtraArgs,
}

/// The Stepwise settings sent with a save or a test, without the secret.
pub struct StepwiseSettingsInput {
    pub enabled: bool,
    pub direct_send: bool,
    pub base_url: String,
    pub api_key_env: String,
    pub model: String,
    pub max_items: u8,
    pub max_input_chars: u32,
    pub max_output_tokens: u32,
    pub timeout_ms: u64,
}

/// What a save or a test does to the stored API key: keep it, replace it, or
/// clear it, confirmed against a revision.
pub enum StepwiseSecretChange {
    Keep,
    Replace(String),
    Clear(u64),
}

/// A request to store the Stepwise settings against a revision.
pub struct SaveStepwiseSettings {
    pub expected_revision: u64,
    pub settings: StepwiseSettingsInput,
    pub secret_change: StepwiseSecretChange,
}

/// A request to try the Stepwise settings against the service.
pub struct TestStepwiseSettings {
    pub expected_revision: u64,
    pub settings: StepwiseSettingsInput,
    pub secret_change: StepwiseSecretChange,
}

/// A request to store the image overlay settings against a revision.
pub struct SaveImageOverlaySettings {
    pub expected_revision: u64,
    pub settings: ImageOverlaySettings,
}

/// A request to store the extra launch arguments against a revision.
pub struct SaveExtraArgs {
    pub expected_revision: u64,
    pub settings: ExtraArgsSettings,
}

/// A confirmed reset of one group to its defaults, against a revision.
#[derive(Debug, Clone, Copy, PartialEq, Eq, Structural)]
pub struct ResetGroupRequest {
    pub expected_revision: u64,
    pub confirmed_group: SafeSettingsGroup,
}

/// A reset of one settings group.
#[derive(Debug, Clone, Copy, PartialEq, Eq, Structural)]
pub enum SettingsResetRequest {
    Stepwise(ResetGroupRequest),
    Image(ResetGroupRequest),
    ExtraArgs(ResetGroupRequest),
}

impl SettingsResetRequest {
    pub open spec fn group_of(self) -> SafeSettingsGroup {
        match self {
            SettingsResetRequest::Stepwise(_) => SafeSettingsGroup::Stepwise,
            SettingsResetRequest::Image(_) => SafeSettingsGroup::ImageOverlay,
            SettingsResetRequest::ExtraArgs(_) => SafeSettingsGroup::ExtraArgs,
        }
    }

    /// The group the reset is for.
    pub fn group(self) -> (group: SafeSettingsGroup)
        ensures
            group == self.group_of(),
    {
        match self {
            SettingsResetRequest::Stepwise(_) => SafeSettingsGroup::Stepwise,
            SettingsResetRequest::Image(_) => SafeSettingsGroup::ImageOverlay,
            SettingsResetRequest::ExtraArgs(_) => SafeSettingsGroup::ExtraArgs,
        }
    }
}

/// A failed settings operation: its kind, the group it concerned, and the
/// workspace the service read again when it noticed the failure, if it did.
pub struct SettingsFailure {
    pub kind: SettingsFailureKind,
    pub group: Option<SafeSettingsGroup>,
    pub refreshed_workspace: Option<ManagerSettingsWorkspace>,
}

impl SettingsFailure {
    pub fn new(kind: SettingsFailureKind, group: Option<SafeSettingsGroup>) -> (failure: Self)
        ensures
            failure.kind == kind,
            failure.group == group,
            failure.refreshed_workspace is None,
    {
        SettingsFailure { kind, group, refreshed_workspace: None }
    }

    pub fn with_workspace(
        kind: SettingsFailureKind,
        group: SafeSettingsGroup,
        workspace: ManagerSettingsWorkspace,
    ) -> (failure: Self)
        ensures
            failure.kind == kind,
            failure.group == Some(group),
            failure.refreshed_workspace == Some(workspace),
    {
        SettingsFailure { kind, group: Some(group), refreshed_workspace: Some(workspace) }
    }
}

/// The Stepwise fields as the page edits them, with the API key typed to
/// replace the stored one.
pub struct StepwiseDraftModel {
    pub enabled: bool,
    pub direct_send: bool,
    pub base_url: Seq<char>,
    pub api_key_env: Seq<char>,
    pub model: Seq<char>,
    pub max_items: u8,
    pub max_input_chars: u32,
    pub max_output_tokens: u32,
    pub timeout_ms: u64,
    pub secret_replacement: Seq<char>,
}

/// The draft that stored settings give: their fields, no replacement key.
pub open spec fn stepwise_draft_of(settings: StepwiseSettings) -> StepwiseDraftModel {
    StepwiseDraftModel {
        enabled: settings.enabled,
        direct_send: settings.direct_send,
        base_url: settings.base_url@,
        api_key_env: settings.api_key_env@,
        model: settings.model@,
        max_items: settings.max_items,
        max_input_chars: settings.max_input_chars,
        max_output_tokens: settings.max_output_tokens,
        timeout_ms: settings.timeout_ms,
        secret_replacement: Seq::empty(),
    }
}

/// The settings sent carry the draft's fields.
pub open spec fn input_matches(input: StepwiseSettingsInput, draft: StepwiseDraftModel) -> bool {
    &&& input.enabled == draft.enabled
    &&& input.direct_send == draft.direct_send
    &&& input.base_url@ == draft.base_url
    &&& input.api_key_env@ == draft.api_key_env
    &&& input.model@ == draft.model
    &&& input.max_items == draft.max_items
    &&& input.max_input_chars == draft.max_input_chars
    &&& input.max_output_tokens == draft.max_output_tokens
    &&& input.timeout_ms == draft.timeout_ms
}

/// The key change a draft asks for: keep the stored key unless a replacement
/// was typed.
pub open spec fn secret_change_matches(change: StepwiseSecretChange, draft: StepwiseDraftModel) -> bool {
    if draft.secret_replacement.len() == 0 {
        change is Keep
    } else {
        change matches StepwiseSecretChange::Replace(key) && key@ == draft.secret_replacement
    }
}

/// The Stepwise fields being edited.
pub struct StepwiseDraft {
    pub enabled: bool,
    pub direct_send: bool,
    pub base_url: String,
    pub api_key_env: String,
    pub model: String,
    pub max_items: u8,
    pub max_input_chars: u32,
    pub max_output_tokens: u32,
    pub timeout_ms: u64,
    secret_replacement: String,
}

impl View for StepwiseDraft {
    type V = StepwiseDraftModel;

    closed spec fn view(&self) -> StepwiseDraftModel {
        StepwiseDraftModel {
            enabled: self.enabled,
            direct_send: self.direct_send,
            base_url: self.base_url@,
            api_key_env: self.api_key_env@,
            model: self.model@,
            max_items: self.max_items,
            max_input_chars: self.max_input_chars,
            max_output_tokens: self.max_output_tokens,
            timeout_ms: self.timeout_ms,
            secret_replacement: self.secret_replacement@,
        }
    }
}

/// The settings a fresh installation starts from.
pub open spec fn default_stepwise_draft() -> StepwiseDraftModel {
    StepwiseDraftModel {
        enabled: false,
        direct_send: false,
        base_url: Seq::empty(),
        api_key_env: "OPENAI_API_KEY"@,
        model: Seq::empty(),
        max_items: 0,
        max_input_chars: 8000,
        max_output_tokens: 1000,
        timeout_ms: 20000,
        secret_replacement: Seq::empty(),
    }
}

impl Default for StepwiseDraft {
    fn default() -> (draft: Self)
        ensures
            draft@ == default_stepwise_draft(),
    {
        let api_key_env = String::from_str("OPENAI_API_KEY");
        proof {
            reveal_strlit("OPENAI_API_KEY");
        }
        StepwiseDraft {
            enabled: false,
            direct_send: false,
            base_url: String::new(),
            api_key_env,
            model: String::new(),
            max_items: 0,
            max_input_chars: 8000,
            max_output_tokens: 1000,
            timeout_ms: 20000,
            secret_replacement: String::new(),
        }
    }
}

impl StepwiseDraft {
    fn from_settings(settings: &StepwiseSettings) -> (draft: Self)
        ensures
            draft@ == stepwise_draft_of(*settings),
    {
        StepwiseDraft {
            enabled: settings.enabled,
            direct_send: settings.direct_send,
            base_url: settings.base_url.clone(),
            api_key_env: settings.api_key_env.clone(),
            model: settings.model.clone(),
            max_items: settings.max_items,
            max_input_chars: settings.max_input_chars,
            max_output_tokens: settings.max_output_tokens,
            timeout_ms: settings.timeout_ms,
            secret_replacement: String::new(),
        }
    }

    fn duplicate(&self) -> (copy: Self)
        ensures
            copy@ == self@,
    {
        StepwiseDraft {
            enabled: self.enabled,
            direct_send: self.direct_send,
            base_url: self.base_url.clone(),
            api_key_env: self.api_key_env.clone(),
            model: self.model.clone(),
            max_items: self.max_items,
            max_input_chars: self.max_input_chars,
            max_output_tokens: self.max_output_tokens,
            timeout_ms: self.timeout_ms,
            secret_replacement: self.secret_replacement.clone(),
        }
    }

    fn same_as(&self, other: &StepwiseDraft) -> (same: bool)
        ensures
            same == (self@ == other@),
    {
        self.enabled == other.enabled && self.direct_send == other.direct_send && text_eq(
            self.base_url.as_str(),
            other.base_url.as_str(),
        ) && text_eq(self.api_key_env.as_str(), other.api_key_env.as_str()) && text_eq(
            self.model.as_str(),
            other.model.as_str(),
        ) && self.max_items == other.max_items && self.max_input_chars == other.max_input_chars
            && self.max_output_tokens == other.max_output_tokens && self.timeout_ms
            == other.timeout_ms && text_eq(
            self.secret_replacement.as_str(),
            other.secret_replacement.as_str(),
        )
    }

    fn input(&self) -> (input: StepwiseSettingsInput)
        ensures
            input_matches(input, self@),
    {
        StepwiseSettingsInput {
            enabled: self.enabled,
            direct_send: self.direct_send,
            base_url: self.base_url.clone(),
            api_key_env: self.api_key_env.clone(),
            model: self.model.clone(),
            max_items: self.max_items,
            max_input_chars: self.max_input_chars,
            max_output_tokens: self.max_output_tokens,
            timeout_ms: self.timeout_ms,
        }
    }

    fn secret_change(&self) -> (change: StepwiseSecretChange)
        ensures
            secret_change_matches(change, self@),
    {
        if self.secret_replacement.unicode_len() == 0 {
            StepwiseSecretChange::Keep
        } else {
            StepwiseSecretChange::Replace(self.secret_replacement.clone())
        }
    }

    /// The API key typed to replace the stored one.
    pub fn secret_replacement(&self) -> (key: &str)
        ensures
            key@ == self@.secret_replacement,
    {
        self.secret_replacement.as_str()
    }
}

/// The image overlay fields as the page edits them.
pub struct ImageOverlayDraftModel {
    pub enabled: bool,
    pub path: Seq<char>,
    pub opacity: u8,
    pub fit_mode: ImageOverlayFitMode,
}

/// The draft that stored overlay settings give.
pub open spec fn image_draft_of(settings: ImageOverlaySettings) -> ImageOverlayDraftModel {
    ImageOverlayDraftModel {
        enabled: settings.enabled,
        path: settings.path@,
        opacity: settings.opacity,
        fit_mode: settings.fit_mode,
    }
}

/// The image overlay fields being edited.
#[derive(Debug)]
pub struct ImageOverlayDraft {
    pub enabled: bool,
    pub path: String,
    pub opacity: u8,
    pub fit_mode: ImageOverlayFitMode,
}

impl View for ImageOverlayDraft {
    type V = ImageOverlayDraftModel;

    open spec fn view(&self) -> ImageOverlayDraftModel {
        ImageOverlayDraftModel {
            enabled: self.enabled,
            path: self.path@,
            opacity: self.opacity,
            fit_mode: self.fit_mode,
        }
    }
}

/// Overlay settings of a fresh installation: off, no image, 35% opacity, fit.
pub open spec fn default_image_draft() -> ImageOverlayDraftModel {
    ImageOverlayDraftModel {
        enabled: false,
        path: Seq::empty(),
        opacity: 35,
        fit_mode: ImageOverlayFitMode::Fit,
    }
}

impl Default for ImageOverlayDraft {
    fn default() -> (draft: Self)
        ensures
            draft@ == default_image_draft(),
    {
        ImageOverlayDraft {
            enabled: false,
            path: String::new(),
            opacity: 35,
            fit_mode: ImageOverlayFitMode::Fit,
        }
    }
}

impl ImageOverlayDraft {
    fn from_settings(settings: &ImageOverlaySettings) -> (draft: Self)
        ensures
            draft@ == image_draft_of(*settings),
    {
        ImageOverlayDraft {
            enabled: settings.enabled,
            path: settings.path.clone(),
            opacity: settings.opacity,
            fit_mode: settings.fit_mode,
        }
    }

    fn duplicate(&self) -> (copy: Self)
        ensures
            copy@ == self@,
    {
        ImageOverlayDraft {
            enabled: self.enabled,
            path: self.path.clone(),
            opacity: self.opacity,
            fit_mode: self.fit_mode,
        }
    }

    fn same_as(&self, other: &ImageOverlayDraft) -> (same: bool)
        ensures
            same == (self@ == other@),
    {
        self.enabled == other.enabled && text_eq(self.path.as_str(), other.path.as_str())
            && self.opacity == other.opacity && self.fit_mode == other.fit_mode
    }

    fn settings(&self) -> (settings: ImageOverlaySettings)
        ensures
            image_draft_of(settings) == self@,
    {
        ImageOverlaySettings {
            enabled: self.enabled,
            path: self.path.clone(),
            opacity: self.opacity,
            fit_mode: self.fit_mode,
        }
    }
}

/// The text the stored arguments give: one per line.
pub open spec fn args_text_of(settings: ExtraArgsSettings) -> Seq<char> {
    joined_lines(settings.args@.map_values(|arg: String| arg@))
}

impl View for ExtraArgsDraft {
    type V = Seq<char>;

    open spec fn view(&self) -> Seq<char> {
        self.text@
    }
}

impl Default for ExtraArgsDraft {
    fn default() -> (draft: Self)
        ensures
            draft@ == Seq::<char>::empty(),
    {
        ExtraArgsDraft { text: String::new() }
    }
}

impl ExtraArgsDraft {
    fn from_settings(settings: &ExtraArgsSettings) -> (draft: Self)
        ensures
            draft@ == args_text_of(*settings),
    {
        ExtraArgsDraft { text: join_lines(&settings.args) }
    }

    fn duplicate(&self) -> (copy: Self)
        ensures
            copy@ == self@,
    {
        ExtraArgsDraft { text: self.text.clone() }
    }

    fn same_as(&self, other: &ExtraArgsDraft) -> (same: bool)
        ensures
            same == (self@ == other@),
    {
        text_eq(self.text.as_str(), other.text.as_str())
    }

    /// The arguments the text gives, one per line.
    fn settings(&self) -> (settings: ExtraArgsSettings)
        ensures
            settings.args@.map_values(|arg: String| arg@) == text_lines(self@),
    {
        ExtraArgsSettings { args: split_lines(self.text.as_str()) }
    }
}

/// A Stepwise save or reset in flight: the draft it sent, and whether it
/// sends the typed replacement key.
pub struct StepwiseSubmissionModel {
    pub draft: StepwiseDraftModel,
    pub consumes_replacement: bool,
}

/// The Stepwise group as contracts see it.
pub struct StepwiseGroupModel<T> {
    pub revision: Option<u64>,
    pub base: StepwiseDraftModel,
    pub draft: StepwiseDraftModel,
    pub api_key_configured: bool,
    pub api_key_env_configured: bool,
    pub password_visible: bool,
    pub operation: SettingsOperationState,
    pub test: SettingsOperationState,
    pub test_outcome: Option<T>,
    pub conflict: bool,
    pub submitted: Option<StepwiseSubmissionModel>,
}

/// The image overlay group as contracts see it.
pub struct ImageOverlayGroupModel {
    pub revision: Option<u64>,
    pub base: ImageOverlayDraftModel,
    pub draft: ImageOverlayDraftModel,
    pub operation: SettingsOperationState,
    pub conflict: bool,
    pub submitted: Option<ImageOverlayDraftModel>,
}

/// The extra arguments group as contracts see it.
pub struct ExtraArgsGroupModel {
    pub revision: Option<u64>,
    pub base: Seq<char>,
    pub draft: Seq<char>,
    pub operation: SettingsOperationState,
    pub conflict: bool,
    pub submitted: Option<Seq<char>>,
}

/// The group after stored Stepwise settings arrive; the draft is kept when
/// asked to.
pub open spec fn stepwise_installed<T>(
    g: StepwiseGroupModel<T>,
    value: RevisionedStepwiseSettings,
    preserve_draft: bool,
) -> StepwiseGroupModel<T> {
    StepwiseGroupModel {
        revision: Some(value.revision),
        api_key_configured: value.settings.api_key_configured,
        api_key_env_configured: value.settings.api_key_env_configured,
        base: stepwise_draft_of(value.settings),
        draft: if preserve_draft {
            g.draft
        } else {
            stepwise_draft_of(value.settings)
        },
        ..g
    }
}

/// The group after stored overlay settings arrive.
pub open spec fn image_installed(
    g: ImageOverlayGroupModel,
    value: RevisionedImageOverlaySettings,
    preserve_draft: bool,
) -> ImageOverlayGroupModel {
    ImageOverlayGroupModel {
        revision: Some(value.revision),
        base: image_draft_of(value.settings),
        draft: if preserve_draft {
            g.draft
        } else {
            image_draft_of(value.settings)
        },
        ..g
    }
}

/// The group after stored arguments arrive.
pub open spec fn args_installed(g: ExtraArgsGroupModel, value: RevisionedExtraArgs, preserve_draft: bool) -> ExtraArgsGroupModel {
    ExtraArgsGroupModel {
        revision: Some(value.revision),
        base: args_text_of(value.settings),
        draft: if preserve_draft {
            g.draft
        } else {
            args_text_of(value.settings)
        },
        ..g
    }
}

pub open spec fn stepwise_busy<T>(g: StepwiseGroupModel<T>) -> bool {
    g.operation.phase == SettingsOperationPhase::Running || g.test.phase
        == SettingsOperationPhase::Running
}

/// Stored settings replace a group only when it holds no edits and no
/// operation of it runs.
pub open spec fn stepwise_refreshed<T>(g: StepwiseGroupModel<T>, value: RevisionedStepwiseSettings) -> StepwiseGroupModel<T> {
    if g.draft == g.base && !stepwise_busy(g) {
        stepwise_installed(g, value, false)
    } else {
        g
    }
}

pub open spec fn image_refreshed(g: ImageOverlayGroupModel, value: RevisionedImageOverlaySettings) -> ImageOverlayGroupModel {
    if g.draft == g.base && g.operation.phase != SettingsOperationPhase::Running {
        image_installed(g, value, false)
    } else {
        g
    }
}

pub open spec fn args_refreshed(g: ExtraArgsGroupModel, value: RevisionedExtraArgs) -> ExtraArgsGroupModel {
    if g.draft == g.base && g.operation.phase != SettingsOperationPhase::Running {
        args_installed(g, value, false)
    } else {
        g
    }
}

struct StepwiseSubmission {
    draft: StepwiseDraft,
    consumes_replacement: bool,
}

/// The Stepwise group of the settings page: stored and edited settings,
/// whether a key and its variable are configured, and its save and test.
pub struct StepwiseGroupState<T> {
    revision: Option<u64>,
    base: StepwiseDraft,
    draft: StepwiseDraft,
    pub api_key_configured: bool,
    pub api_key_env_configured: bool,
    pub password_visible: bool,
    pub operation: SettingsOperationState,
    pub test: SettingsOperationState,
    pub test_outcome: Option<T>,
    conflict: bool,
    submitted: Option<StepwiseSubmission>,
}

impl<T> View for StepwiseGroupState<T> {
    type V = StepwiseGroupModel<T>;

    closed spec fn view(&self) -> StepwiseGroupModel<T> {
        StepwiseGroupModel {
            revision: self.revision,
            base: self.base@,
            draft: self.draft@,
            api_key_configured: self.api_key_configured,
            api_key_env_configured: self.api_key_env_configured,
            password_visible: self.password_visible,
            operation: self.operation,
            test: self.test,
            test_outcome: self.test_outcome,
            conflict: self.conflict,
            submitted: match self.submitted {
                Some(s) => Some(
                    StepwiseSubmissionModel {
                        draft: s.draft@,
                        consumes_replacement: s.consumes_replacement,
                    },
                ),
                None => None,
            },
        }
    }
}

impl<T> Default for StepwiseGroupState<T> {
    fn default() -> (group: Self)
        ensures
            group@ == (StepwiseGroupModel::<T> {
                revision: None,
                base: default_stepwise_draft(),
                draft: default_stepwise_draft(),
                api_key_configured: false,
                api_key_env_configured: false,
                password_visible: false,
                operation: idle_operation(),
                test: idle_operation(),
                test_outcome: None,
                conflict: false,
                submitted: None,
            }),
    {
        let draft = StepwiseDraft::default();
        StepwiseGroupState {
            revision: None,
            base: draft.duplicate(),
            draft,
            api_key_configured: false,
            api_key_env_configured: false,
            password_visible: false,
            operation: SettingsOperationState::default(),
            test: SettingsOperationState::default(),
            test_outcome: None,
            conflict: false,
            submitted: None,
        }
    }
}

impl<T> StepwiseGroupState<T> {
    /// The revision the stored settings were read at.
    pub fn revision(&self) -> (revision: Option<u64>)
        ensures
            revision == self@.revision,
    {
        self.revision
    }

    pub fn draft(&self) -> (draft: &StepwiseDraft)
        ensures
            draft@ == self@.draft,
    {
        &self.draft
    }

    /// The edited settings differ from the stored ones.
    pub fn is_dirty(&self) -> (dirty: bool)
        ensures
            dirty == (self@.draft != self@.base),
    {
        !self.draft.same_as(&self.base)
    }

    pub fn conflict_visible(&self) -> (visible: bool)
        ensures
            visible == self@.conflict,
    {
        self.conflict
    }

    fn is_busy(&self) -> (busy: bool)
        ensures
            busy == stepwise_busy(self@),
    {
        self.operation.phase == SettingsOperationPhase::Running || self.test.phase
            == SettingsOperationPhase::Running
    }

    fn install(&mut self, value: &RevisionedStepwiseSettings, preserve_draft: bool)
        ensures
            final(self)@ == stepwise_installed(old(self)@, *value, preserve_draft),
    {
        let base = StepwiseDraft::from_settings(&value.settings);
        self.revision = Some(value.revision);
        self.api_key_configured = value.settings.api_key_configured;
        self.api_key_env_configured = value.settings.api_key_env_configured;
        self.base = base.duplicate();
        if !preserve_draft {
            self.draft = base;
        }
    }

    fn restore(&mut self)
        ensures
            final(self)@ == (StepwiseGroupModel { draft: old(self)@.base, conflict: false, ..old(self)@ }),
    {
        self.draft = self.base.duplicate();
        self.conflict = false;
    }

    fn refresh(&mut self, value: &RevisionedStepwiseSettings)
        ensures
            final(self)@ == stepwise_refreshed(old(self)@, *value),
    {
        if !self.is_dirty() && !self.is_busy() {
            self.install(value, false);
        }
    }
}

/// The image overlay group of the settings page.
pub struct ImageOverlayGroupState {
    revision: Option<u64>,
    base: ImageOverlayDraft,
    draft: ImageOverlayDraft,
    pub operation: SettingsOperationState,
    conflict: bool,
    submitted: Option<ImageOverlayDraft>,
}

impl View for ImageOverlayGroupState {
    type V = ImageOverlayGroupModel;

    closed spec fn view(&self) -> ImageOverlayGroupModel {
        ImageOverlayGroupModel {
            revision: self.revision,
            base: self.base@,
            draft: self.draft@,
            operation: self.operation,
            conflict: self.conflict,
            submitted: match self.submitted {
                Some(d) => Some(d@),
                None => None,
            },
        }
    }
}

impl Default for ImageOverlayGroupState {
    fn default() -> (group: Self)
        ensures
            group@ == (ImageOverlayGroupModel {
                revision: None,
                base: default_image_draft(),
                draft: default_image_draft(),
                operation: idle_operation(),
                conflict: false,
                submitted: None,
            }),
    {
        ImageOverlayGroupState {
            revision: None,
            base: ImageOverlayDraft::default(),
            draft: ImageOverlayDraft::default(),
            operation: SettingsOperationState::default(),
            conflict: false,
            submitted: None,
        }
    }
}

impl ImageOverlayGroupState {
    pub fn revision(&self) -> (revision: Option<u64>)
        ensures
            revision == self@.revision,
    {
        self.revision
    }

    pub fn draft(&self) -> (draft: &ImageOverlayDraft)
        ensures
            draft@ == self@.draft,
    {
        &self.draft
    }

    pub fn is_dirty(&self) -> (dirty: bool)
        ensures
            dirty == (self@.draft != self@.base),
    {
        !self.draft.same_as(&self.base)
    }

    pub fn conflict_visible(&self) -> (visible: bool)
        ensures
            visible == self@.conflict,
    {
        self.conflict
    }

    fn install(&mut self, value: &RevisionedImageOverlaySettings, preserve_draft: bool)
        ensures
            final(self)@ == image_installed(old(self)@, *value, preserve_draft),
    {
        let base = ImageOverlayDraft::from_settings(&value.settings);
        self.revision = Some(value.revision);
        self.base = base.duplicate();
        if !preserve_draft {
            self.draft = base;
        }
    }

    fn restore(&mut self)
        ensures
            final(self)@ == (ImageOverlayGroupModel { draft: old(self)@.base, conflict: false, ..old(self)@ }),
    {
        self.draft = self.base.duplicate();
        self.conflict = false;
    }

    fn refresh(&mut self, value: &RevisionedImageOverlaySettings)
        ensures
            final(self)@ == image_refreshed(old(self)@, *value),
    {
        if !self.is_dirty() && self.operation.phase != SettingsOperationPhase::Running {
            self.install(value, false);
        }
    }
}

/// The extra launch arguments group of the settings page.
pub struct ExtraArgsGroupState {
    revision: Option<u64>,
    base: ExtraArgsDraft,
    draft: ExtraArgsDraft,
    pub operation: SettingsOperationState,
    conflict: bool,
    submitted: Option<ExtraArgsDraft>,
}

impl View for ExtraArgsGroupState {
    type V = ExtraArgsGroupModel;

    closed spec fn view(&self) -> ExtraArgsGroupModel {
        ExtraArgsGroupModel {
            revision: self.revision,
            base: self.base@,
            draft: self.draft@,
            operation: self.operation,
            conflict: self.conflict,
            submitted: match self.submitted {
                Some(d) => Some(d@),
                None => None,
            },
        }
    }
}

impl Default for ExtraArgsGroupState {
    fn default() -> (group: Self)
        ensures
            group@ == (ExtraArgsGroupModel {
                revision: None,
                base: Seq::empty(),
                draft: Seq::empty(),
                operation: idle_operation(),
                conflict: false,
                submitted: None,
            }),
    {
        ExtraArgsGroupState {
            revision: None,
            base: ExtraArgsDraft::default(),
            draft: ExtraArgsDraft::default(),
            operation: SettingsOperationState::default(),
            conflict: false,
            submitted: None,
        }
    }
}

impl ExtraArgsGroupState {
    pub fn revision(&self) -> (revision: Option<u64>)
        ensures
            revision == self@.revision,
    {
        self.revision
    }

    pub fn draft(&self) -> (draft: &ExtraArgsDraft)
        ensures
            draft@ == self@.draft,
    {
        &self.draft
    }

    pub fn is_dirty(&self) -> (dirty: bool)
        ensures
            dirty == (self@.draft != self@.base),
    {
        !self.draft.same_as(&self.base)
    }

    pub fn conflict_visible(&self) -> (visible: bool)
        ensures
            visible == self@.conflict,
    {
        self.conflict
    }

    fn install(&mut self, value: &RevisionedExtraArgs, preserve_draft: bool)
        ensures
            final(self)@ == args_installed(old(self)@, *value, preserve_draft),
    {
        let base = ExtraArgsDraft::from_settings(&value.settings);
        self.revision = Some(value.revision);
        self.base = base.duplicate();
        if !preserve_draft {
            self.draft = base;
        }
    }

    fn restore(&mut self)
        ensures
            final(self)@ == (ExtraArgsGroupModel { draft: old(self)@.base, conflict: false, ..old(self)@ }),
    {
        self.draft = self.base.duplicate();
        self.conflict = false;
    }

    fn refresh(&mut self, value: &RevisionedExtraArgs)
        ensures
            final(self)@ == args_refreshed(old(self)@, *value),
    {
        if !self.is_dirty() && self.operation.phase != SettingsOperationPhase::Running {
            self.install(value, false);
        }
    }
}

/// A transition that waits for the user to discard edits, with the groups
/// that held edits when it was asked for.
#[derive(Debug, Clone, Copy, PartialEq, Eq, Structural)]
pub struct PendingDirtyTransition {
    pub groups: DirtySettingsGroups,
    pub transition: SettingsTransition,
}

/// A clear of the stored API key that waits for confirmation: the revision
/// it is confirmed against and the settings it sends with it.
pub struct SecretClearModel {
    pub expected_revision: u64,
    pub submitted: StepwiseDraftModel,
}

/// The whole settings page as contracts see it.
pub struct SettingsModel<T> {
    pub tab: SettingsTab,
    pub load_phase: SettingsLoadPhase,
    pub current_load_request_id: u64,
    pub load_error: Option<SettingsFailureKind>,
    pub stepwise: StepwiseGroupModel<T>,
    pub image_overlay: ImageOverlayGroupModel,
    pub extra_args: ExtraArgsGroupModel,
    pub picker_error: Option<PathPickerErrorKind>,
    pub initialized: bool,
    pub pending_picker: Option<(u64, PathPickerTarget)>,
    pub pending_reset: Option<SettingsResetRequest>,
    pub pending_secret_clear: Option<SecretClearModel>,
    pub pending_transition: Option<PendingDirtyTransition>,
    pub last_request_id: u64,
}

/// The groups whose edited settings differ from the stored ones.
pub open spec fn dirty_groups_of<T>(m: SettingsModel<T>) -> DirtySettingsGroups {
    DirtySettingsGroups {
        stepwise: m.stepwise.draft != m.stepwise.base,
        image_overlay: m.image_overlay.draft != m.image_overlay.base,
        extra_args: m.extra_args.draft != m.extra_args.base,
    }
}

/// The page after the Stepwise draft becomes `draft`; an edit forgets a
/// save conflict of its group.
pub open spec fn with_stepwise_draft<T>(m: SettingsModel<T>, draft: StepwiseDraftModel) -> SettingsModel<T> {
    SettingsModel { stepwise: StepwiseGroupModel { draft, conflict: false, ..m.stepwise }, ..m }
}

pub open spec fn with_image_draft<T>(m: SettingsModel<T>, draft: ImageOverlayDraftModel) -> SettingsModel<T> {
    SettingsModel {
        image_overlay: ImageOverlayGroupModel { draft, conflict: false, ..m.image_overlay },
        ..m
    }
}

pub open spec fn with_args_draft<T>(m: SettingsModel<T>, draft: Seq<char>) -> SettingsModel<T> {
    SettingsModel { extra_args: ExtraArgsGroupModel { draft, conflict: false, ..m.extra_args }, ..m }
}

/// The settings page of a fresh manager.
pub open spec fn initial_settings<T>() -> SettingsModel<T> {
    SettingsModel {
        tab: SettingsTab::Stepwise,
        load_phase: SettingsLoadPhase::Idle,
        current_load_request_id: 0,
        load_error: None,
        stepwise: StepwiseGroupModel {
            revision: None,
            base: default_stepwise_draft(),
            draft: default_stepwise_draft(),
            api_key_configured: false,
            api_key_env_configured: false,
            password_visible: false,
            operation: idle_operation(),
            test: idle_operation(),
            test_outcome: None,
            conflict: false,
            submitted: None,
        },
        image_overlay: ImageOverlayGroupModel {
            revision: None,
            base: default_image_draft(),
            draft: default_image_draft(),
            operation: idle_operation(),
            conflict: false,
            submitted: None,
        },
        extra_args: ExtraArgsGroupModel {
            revision: None,
            base: Seq::empty(),
            draft: Seq::empty(),
            operation: idle_operation(),
            conflict: false,
            submitted: None,
        },
        picker_error: None,
        initialized: false,
        pending_picker: None,
        pending_reset: None,
        pending_secret_clear: None,
        pending_transition: None,
        last_request_id: 0,
    }
}

/// A load answer is taken only for the latest load.
pub open spec fn load_response_applies<T>(m: SettingsModel<T>, request_id: u64) -> bool {
    request_id == m.current_load_request_id
}

/// The page after a load answer: a workspace refreshes the groups that hold
/// no edits and run nothing.
pub open spec fn load_response<T>(
    m: SettingsModel<T>,
    request_id: u64,
    result: Result<ManagerSettingsWorkspace, SettingsFailureKind>,
) -> SettingsModel<T> {
    if !load_response_applies(m, request_id) {
        m
    } else {
        match result {
            Ok(ws) => SettingsModel {
                stepwise: stepwise_refreshed(m.stepwise, ws.stepwise),
                image_overlay: image_refreshed(m.image_overlay, ws.image_overlay),
                extra_args: args_refreshed(m.extra_args, ws.extra_args),
                initialized: true,
                load_phase: SettingsLoadPhase::Ready,
                load_error: None,
                ..m
            },
            Err(error) => SettingsModel {
                load_phase: SettingsLoadPhase::Error,
                load_error: Some(error),
                ..m
            },
        }
    }
}

/// The reset waiting for confirmation concerns `group`.
pub open spec fn reset_pending_for<T>(m: SettingsModel<T>, group: SafeSettingsGroup) -> bool {
    m.pending_reset matches Some(r) && r.group_of() == group
}

/// A Stepwise save or test cannot start: one runs, a key clear or a reset of
/// the group waits for confirmation.
pub open spec fn stepwise_command_blocked<T>(m: SettingsModel<T>) -> bool {
    stepwise_busy(m.stepwise) || m.pending_secret_clear is Some || reset_pending_for(
        m,
        SafeSettingsGroup::Stepwise,
    )
}

pub open spec fn image_command_blocked<T>(m: SettingsModel<T>) -> bool {
    m.image_overlay.operation.phase == SettingsOperationPhase::Running || reset_pending_for(
        m,
        SafeSettingsGroup::ImageOverlay,
    )
}

pub open spec fn args_command_blocked<T>(m: SettingsModel<T>) -> bool {
    m.extra_args.operation.phase == SettingsOperationPhase::Running || reset_pending_for(
        m,
        SafeSettingsGroup::ExtraArgs,
    )
}

/// An operation of the group runs.
pub open spec fn group_busy<T>(m: SettingsModel<T>, group: SafeSettingsGroup) -> bool {
    match group {
        SafeSettingsGroup::Stepwise => stepwise_busy(m.stepwise),
        SafeSettingsGroup::ImageOverlay => m.image_overlay.operation.phase
            == SettingsOperationPhase::Running,
        SafeSettingsGroup::ExtraArgs => m.extra_args.operation.phase
            == SettingsOperationPhase::Running,
    }
}

/// The revision a group was read at.
pub open spec fn group_revision<T>(m: SettingsModel<T>, group: SafeSettingsGroup) -> Option<u64> {
    match group {
        SafeSettingsGroup::Stepwise => m.stepwise.revision,
        SafeSettingsGroup::ImageOverlay => m.image_overlay.revision,
        SafeSettingsGroup::ExtraArgs => m.extra_args.revision,
    }
}

/// The page after a Stepwise save or reset, request `id`, is sent with
/// `submitted`.
pub open spec fn stepwise_started<T>(
    m: SettingsModel<T>,
    id: u64,
    submitted: StepwiseDraftModel,
    consumes_replacement: bool,
) -> SettingsModel<T> {
    SettingsModel {
        last_request_id: id,
        stepwise: StepwiseGroupModel {
            operation: running_operation(id),
            submitted: Some(StepwiseSubmissionModel { draft: submitted, consumes_replacement }),
            ..m.stepwise
        },
        ..m
    }
}

pub open spec fn image_started<T>(m: SettingsModel<T>, id: u64) -> SettingsModel<T> {
    SettingsModel {
        last_request_id: id,
        image_overlay: ImageOverlayGroupModel {
            operation: running_operation(id),
            submitted: Some(m.image_overlay.draft),
            ..m.image_overlay
        },
        ..m
    }
}

pub open spec fn args_started<T>(m: SettingsModel<T>, id: u64) -> SettingsModel<T> {
    SettingsModel {
        last_request_id: id,
        extra_args: ExtraArgsGroupModel {
            operation: running_operation(id),
            submitted: Some(m.extra_args.draft),
            ..m.extra_args
        },
        ..m
    }
}

/// The page after a reset of the group, request `id`, is sent.
pub open spec fn reset_started<T>(m: SettingsModel<T>, id: u64, group: SafeSettingsGroup) -> SettingsModel<T> {
    match group {
        SafeSettingsGroup::Stepwise => stepwise_started(m, id, m.stepwise.draft, false),
        SafeSettingsGroup::ImageOverlay => image_started(m, id),
        SafeSettingsGroup::ExtraArgs => args_started(m, id),
    }
}

/// An operation that ended, with its failure if it failed.
pub open spec fn finished_operation(
    op: SettingsOperationState,
    error: Option<SettingsFailureKind>,
) -> SettingsOperationState {
    SettingsOperationState {
        phase: if error is Some {
            SettingsOperationPhase::Error
        } else {
            SettingsOperationPhase::Ready
        },
        error,
        ..op
    }
}

/// An answer is taken only for the operation that runs.
pub open spec fn operation_answers(op: SettingsOperationState, request_id: u64) -> bool {
    request_id == op.current_request_id && op.phase == SettingsOperationPhase::Running
}

/// The page after the answer to a Stepwise save or reset. A stored answer
/// keeps a draft edited while the request ran, and then drops the typed key
/// if the request sent that very key; the other groups are refreshed where
/// they hold no edits. A failure may bring the workspace read again; it then
/// refreshes the stored settings and keeps every edit.
pub open spec fn stepwise_workspace_response<T>(
    m: SettingsModel<T>,
    request_id: u64,
    result: Result<ManagerSettingsWorkspace, SettingsFailure>,
) -> SettingsModel<T> {
    if !operation_answers(m.stepwise.operation, request_id) {
        m
    } else {
        let g0 = StepwiseGroupModel { submitted: None, ..m.stepwise };
        match result {
            Ok(ws) => {
                let preserve = m.stepwise.submitted matches Some(s) && s.draft != g0.draft;
                let consume = m.stepwise.submitted matches Some(s) && s.consumes_replacement
                    && s.draft.secret_replacement == g0.draft.secret_replacement;
                let g1 = stepwise_installed(g0, ws.stepwise, preserve);
                let g2 = if preserve && consume {
                    StepwiseGroupModel {
                        draft: StepwiseDraftModel { secret_replacement: Seq::empty(), ..g1.draft },
                        ..g1
                    }
                } else {
                    g1
                };
                SettingsModel {
                    stepwise: StepwiseGroupModel {
                        operation: finished_operation(g2.operation, None),
                        conflict: false,
                        ..g2
                    },
                    image_overlay: image_refreshed(m.image_overlay, ws.image_overlay),
                    extra_args: args_refreshed(m.extra_args, ws.extra_args),
                    ..m
                }
            },
            Err(failure) => {
                let refreshed = match failure.refreshed_workspace {
                    Some(ws) => SettingsModel {
                        stepwise: stepwise_installed(g0, ws.stepwise, true),
                        image_overlay: image_refreshed(m.image_overlay, ws.image_overlay),
                        extra_args: args_refreshed(m.extra_args, ws.extra_args),
                        ..m
                    },
                    None => SettingsModel { stepwise: g0, ..m },
                };
                SettingsModel {
                    stepwise: StepwiseGroupModel {
                        operation: finished_operation(
                            refreshed.stepwise.operation,
                            Some(failure.kind),
                        ),
                        conflict: failure.kind == SettingsFailureKind::SettingsConflict,
                        ..refreshed.stepwise
                    },
                    ..refreshed
                }
            },
        }
    }
}

/// The page after the answer to the Stepwise test.
pub open spec fn stepwise_test_response<T>(
    m: SettingsModel<T>,
    request_id: u64,
    result: Result<T, SettingsFailure>,
) -> SettingsModel<T> {
    if !operation_answers(m.stepwise.test, request_id) {
        m
    } else {
        match result {
            Ok(outcome) => SettingsModel {
                stepwise: StepwiseGroupModel {
                    test_outcome: Some(outcome),
                    test: finished_operation(m.stepwise.test, None),
                    conflict: false,
                    ..m.stepwise
                },
                ..m
            },
            Err(failure) => {
                let refreshed = match failure.refreshed_workspace {
                    Some(ws) => SettingsModel {
                        stepwise: stepwise_installed(m.stepwise, ws.stepwise, true),
                        image_overlay: image_refreshed(m.image_overlay, ws.image_overlay),
                        extra_args: args_refreshed(m.extra_args, ws.extra_args),
                        ..m
                    },
                    None => m,
                };
                SettingsModel {
                    stepwise: StepwiseGroupModel {
                        test_outcome: None,
                        test: finished_operation(refreshed.stepwise.test, Some(failure.kind)),
                        conflict: failure.kind == SettingsFailureKind::SettingsConflict,
                        ..refreshed.stepwise
                    },
                    ..refreshed
                }
            },
        }
    }
}

/// The page after the answer to an overlay save or reset: a stored answer
/// keeps a draft edited while the request ran; the other groups are
/// refreshed where they hold no edits.
pub open spec fn image_workspace_response<T>(
    m: SettingsModel<T>,
    request_id: u64,
    result: Result<ManagerSettingsWorkspace, SettingsFailure>,
) -> SettingsModel<T> {
    if !operation_answers(m.image_overlay.operation, request_id) {
        m
    } else {
        let g0 = ImageOverlayGroupModel { submitted: None, ..m.image_overlay };
        match result {
            Ok(ws) => {
                let preserve = m.image_overlay.submitted matches Some(d) && d != g0.draft;
                let g1 = image_installed(g0, ws.image_overlay, preserve);
                SettingsModel {
                    image_overlay: ImageOverlayGroupModel {
                        operation: finished_operation(g1.operation, None),
                        conflict: false,
                        ..g1
                    },
                    stepwise: stepwise_refreshed(m.stepwise, ws.stepwise),
                    extra_args: args_refreshed(m.extra_args, ws.extra_args),
                    ..m
                }
            },
            Err(failure) => {
                let refreshed = match failure.refreshed_workspace {
                    Some(ws) => SettingsModel {
                        image_overlay: image_installed(g0, ws.image_overlay, true),
                        stepwise: stepwise_refreshed(m.stepwise, ws.stepwise),
                        extra_args: args_refreshed(m.extra_args, ws.extra_args),
                        ..m
                    },
                    None => SettingsModel { image_overlay: g0, ..m },
                };
                SettingsModel {
                    image_overlay: ImageOverlayGroupModel {
                        operation: finished_operation(
                            refreshed.image_overlay.operation,
                            Some(failure.kind),
                        ),
                        conflict: failure.kind == SettingsFailureKind::SettingsConflict,
                        ..refreshed.image_overlay
                    },
                    ..refreshed
                }
            },
        }
    }
}

/// The page after the answer to a save or reset of the extra arguments.
pub open spec fn args_workspace_response<T>(
    m: SettingsModel<T>,
    request_id: u64,
    result: Result<ManagerSettingsWorkspace, SettingsFailure>,
) -> SettingsModel<T> {
    if !operation_answers(m.extra_args.operation, request_id) {
        m
    } else {
        let g0 = ExtraArgsGroupModel { submitted: None, ..m.extra_args };
        match result {
            Ok(ws) => {
                let preserve = m.extra_args.submitted matches Some(d) && d != g0.draft;
                let g1 = args_installed(g0, ws.extra_args, preserve);
                SettingsModel {
                    extra_args: ExtraArgsGroupModel {
                        operation: finished_operation(g1.operation, None),
                        conflict: false,
                        ..g1
                    },
                    stepwise: stepwise_refreshed(m.stepwise, ws.stepwise),
                    image_overlay: image_refreshed(m.image_overlay, ws.image_overlay),
                    ..m
                }
            },
            Err(failure) => {
                let refreshed = match failure.refreshed_workspace {
                    Some(ws) => SettingsModel {
                        extra_args: args_installed(g0, ws.extra_args, true),
                        stepwise: stepwise_refreshed(m.stepwise, ws.stepwise),
                        image_overlay: image_refreshed(m.image_overlay, ws.image_overlay),
                        ..m
                    },
                    None => SettingsModel { extra_args: g0, ..m },
                };
                SettingsModel {
                    extra_args: ExtraArgsGroupModel {
                        operation: finished_operation(
                            refreshed.extra_args.operation,
                            Some(failure.kind),
                        ),
                        conflict: failure.kind == SettingsFailureKind::SettingsConflict,
                        ..refreshed.extra_args
                    },
                    ..refreshed
                }
            },
        }
    }
}

/// The failure that a stopped worker gives an operation of `group`.
pub open spec fn worker_stopped(group: SafeSettingsGroup) -> SettingsFailure {
    SettingsFailure {
        kind: SettingsFailureKind::WorkerStopped,
        group: Some(group),
        refreshed_workspace: None,
    }
}

/// The page after its worker stopped: the load and every running operation
/// fail with a stopped worker, in that order.
pub open spec fn running_operations_failed<T>(m: SettingsModel<T>) -> SettingsModel<T> {
    let m1 = if m.load_phase == SettingsLoadPhase::Loading || m.load_phase
        == SettingsLoadPhase::Refreshing {
        load_response(m, m.current_load_request_id, Err(SettingsFailureKind::WorkerStopped))
    } else {
        m
    };
    let m2 = if m1.stepwise.operation.phase == SettingsOperationPhase::Running {
        stepwise_workspace_response(
            m1,
            m1.stepwise.operation.current_request_id,
            Err(worker_stopped(SafeSettingsGroup::Stepwise)),
        )
    } else {
        m1
    };
    let m3 = if m2.stepwise.test.phase == SettingsOperationPhase::Running {
        stepwise_test_response(
            m2,
            m2.stepwise.test.current_request_id,
            Err(worker_stopped(SafeSettingsGroup::Stepwise)),
        )
    } else {
        m2
    };
    let m4 = if m3.image_overlay.operation.phase == SettingsOperationPhase::Running {
        image_workspace_response(
            m3,
            m3.image_overlay.operation.current_request_id,
            Err(worker_stopped(SafeSettingsGroup::ImageOverlay)),
        )
    } else {
        m3
    };
    if m4.extra_args.operation.phase == SettingsOperationPhase::Running {
        args_workspace_response(
            m4,
            m4.extra_args.operation.current_request_id,
            Err(worker_stopped(SafeSettingsGroup::ExtraArgs)),
        )
    } else {
        m4
    }
}

/// The page after its edits are discarded: every group shows its stored
/// settings again, and no confirmation or file dialog waits.
pub open spec fn edits_discarded<T>(m: SettingsModel<T>) -> SettingsModel<T> {
    SettingsModel {
        pending_transition: None,
        pending_picker: None,
        picker_error: None,
        pending_reset: None,
        pending_secret_clear: None,
        stepwise: StepwiseGroupModel { draft: m.stepwise.base, conflict: false, ..m.stepwise },
        image_overlay: ImageOverlayGroupModel {
            draft: m.image_overlay.base,
            conflict: false,
            ..m.image_overlay
        },
        extra_args: ExtraArgsGroupModel { draft: m.extra_args.base, conflict: false, ..m.extra_args },
        ..m
    }
}

struct PendingSecretClear {
    expected_revision: u64,
    submitted: StepwiseDraft,
}

/// The settings page: the Stepwise, image overlay and launch argument
/// groups, each edited, saved and reset on its own against the revision it
/// was read at; the Stepwise test; confirmations for resets, clearing the
/// API key and leaving with edits; and the image file dialog.
pub struct SettingsViewState<T> {
    pub tab: SettingsTab,
    pub load_phase: SettingsLoadPhase,
    pub current_load_request_id: u64,
    pub load_error: Option<SettingsFailureKind>,
    pub stepwise: StepwiseGroupState<T>,
    pub image_overlay: ImageOverlayGroupState,
    pub extra_args: ExtraArgsGroupState,
    pub picker_error: Option<PathPickerErrorKind>,
    initialized: bool,
    pending_picker: Option<(u64, PathPickerTarget)>,
    pending_reset: Option<SettingsResetRequest>,
    pending_secret_clear: Option<PendingSecretClear>,
    pending_transition: Option<PendingDirtyTransition>,
    next_request_id: u64,
}

impl<T> View for SettingsViewState<T> {
    type V = SettingsModel<T>;

    closed spec fn view(&self) -> SettingsModel<T> {
        SettingsModel {
            tab: self.tab,
            load_phase: self.load_phase,
            current_load_request_id: self.current_load_request_id,
            load_error: self.load_error,
            stepwise: self.stepwise@,
            image_overlay: self.image_overlay@,
            extra_args: self.extra_args@,
            picker_error: self.picker_error,
            initialized: self.initialized,
            pending_picker: self.pending_picker,
            pending_reset: self.pending_reset,
            pending_secret_clear: match self.pending_secret_clear {
                Some(p) => Some(
                    SecretClearModel {
                        expected_revision: p.expected_revision,
                        submitted: p.submitted@,
                    },
                ),
                None => None,
            },
            pending_transition: self.pending_transition,
            last_request_id: self.next_request_id,
        }
    }
}

impl<T> Default for SettingsViewState<T> {
    fn default() -> (state: Self)
        ensures
            state@ == initial_settings::<T>(),
    {
        SettingsViewState {
            tab: SettingsTab::Stepwise,
            load_phase: SettingsLoadPhase::Idle,
            current_load_request_id: 0,
            load_error: None,
            stepwise: StepwiseGroupState::default(),
            image_overlay: ImageOverlayGroupState::default(),
            extra_args: ExtraArgsGroupState::default(),
            picker_error: None,
            initialized: false,
            pending_picker: None,
            pending_reset: None,
            pending_secret_clear: None,
            pending_transition: None,
            next_request_id: 0,
        }
    }
}

impl<T> SettingsViewState<T> {
    /// A page that shows a workspace that was read before it opened.
    pub fn from_workspace(workspace: ManagerSettingsWorkspace) -> (state: Self)
        ensures
            state@ == (SettingsModel {
                stepwise: stepwise_installed(initial_settings::<T>().stepwise, workspace.stepwise, false),
                image_overlay: image_installed(
                    initial_settings::<T>().image_overlay,
                    workspace.image_overlay,
                    false,
                ),
                extra_args: args_installed(initial_settings::<T>().extra_args, workspace.extra_args, false),
                initialized: true,
                load_phase: SettingsLoadPhase::Ready,
                ..initial_settings::<T>()
            }),
    {
        let mut state = Self::default();
        state.stepwise.install(&workspace.stepwise, false);
        state.image_overlay.install(&workspace.image_overlay, false);
        state.extra_args.install(&workspace.extra_args, false);
        state.initialized = true;
        state.load_phase = SettingsLoadPhase::Ready;
        state
    }

    /// Starts loading the workspace and drops an open file dialog.
    pub fn begin_load(&mut self) -> (request_id: u64)
        requires
            old(self)@.last_request_id < u64::MAX,
        ensures
            request_id == old(self)@.last_request_id + 1,
            final(self)@ == (SettingsModel {
                pending_picker: None,
                picker_error: None,
                last_request_id: request_id,
                current_load_request_id: request_id,
                load_phase: if old(self)@.initialized {
                    SettingsLoadPhase::Refreshing
                } else {
                    SettingsLoadPhase::Loading
                },
                ..old(self)@
            }),
    {
        self.invalidate_picker();
        let request_id = self.issue_request_id();
        self.current_load_request_id = request_id;
        self.load_phase = if self.initialized {
            SettingsLoadPhase::Refreshing
        } else {
            SettingsLoadPhase::Loading
        };
        request_id
    }

    /// Takes the answer to the latest load; older answers are ignored.
    pub fn apply_load_response(
        &mut self,
        request_id: u64,
        result: Result<ManagerSettingsWorkspace, SettingsFailureKind>,
    ) -> (applied: bool)
        ensures
            applied == load_response_applies(old(self)@, request_id),
            final(self)@ == load_response(old(self)@, request_id, result),
    {
        if request_id != self.current_load_request_id {
            return false;
        }
        match result {
            Ok(workspace) => {
                self.stepwise.refresh(&workspace.stepwise);
                self.image_overlay.refresh(&workspace.image_overlay);
                self.extra_args.refresh(&workspace.extra_args);
                self.initialized = true;
                self.load_phase = SettingsLoadPhase::Ready;
                self.load_error = None;
            },
            Err(error) => {
                self.load_phase = SettingsLoadPhase::Error;
                self.load_error = Some(error);
            },
        }
        true
    }

    pub fn set_tab(&mut self, tab: SettingsTab)
        ensures
            final(self)@ == (SettingsModel { tab, ..old(self)@ }),
    {
        self.tab = tab;
    }

    pub fn edit_stepwise_enabled(&mut self, enabled: bool)
        ensures
            final(self)@ == with_stepwise_draft(
                old(self)@,
                StepwiseDraftModel { enabled, ..old(self)@.stepwise.draft },
            ),
    {
        self.stepwise.draft.enabled = enabled;
        self.stepwise.conflict = false;
    }

    pub fn edit_stepwise_direct_send(&mut self, direct_send: bool)
        ensures
            final(self)@ == with_stepwise_draft(
                old(self)@,
                StepwiseDraftModel { direct_send, ..old(self)@.stepwise.draft },
            ),
    {
        self.stepwise.draft.direct_send = direct_send;
        self.stepwise.conflict = false;
    }

    pub fn edit_stepwise_url(&mut self, base_url: String)
        ensures
            final(self)@ == with_stepwise_draft(
                old(self)@,
                StepwiseDraftModel { base_url: base_url@, ..old(self)@.stepwise.draft },
            ),
    {
        self.stepwise.draft.base_url = base_url;
        self.stepwise.conflict = false;
    }

    pub fn edit_stepwise_environment(&mut self, environment: String)
        ensures
            final(self)@ == with_stepwise_draft(
                old(self)@,
                StepwiseDraftModel { api_key_env: environment@, ..old(self)@.stepwise.draft },
            ),
    {
        self.stepwise.draft.api_key_env = environment;
        self.stepwise.conflict = false;
    }

    pub fn edit_stepwise_model(&mut self, model: String)
        ensures
            final(self)@ == with_stepwise_draft(
                old(self)@,
                StepwiseDraftModel { model: model@, ..old(self)@.stepwise.draft },
            ),
    {
        self.stepwise.draft.model = model;
        self.stepwise.conflict = false;
    }

    pub fn edit_stepwise_max_items(&mut self, value: u8)
        ensures
            final(self)@ == with_stepwise_draft(
                old(self)@,
                StepwiseDraftModel { max_items: value, ..old(self)@.stepwise.draft },
            ),
    {
        self.stepwise.draft.max_items = value;
        self.stepwise.conflict = false;
    }

    pub fn edit_stepwise_max_input_chars(&mut self, value: u32)
        ensures
            final(self)@ == with_stepwise_draft(
                old(self)@,
                StepwiseDraftModel { max_input_chars: value, ..old(self)@.stepwise.draft },
            ),
    {
        self.stepwise.draft.max_input_chars = value;
        self.stepwise.conflict = false;
    }

    pub fn edit_stepwise_max_output_tokens(&mut self, value: u32)
        ensures
            final(self)@ == with_stepwise_draft(
                old(self)@,
                StepwiseDraftModel { max_output_tokens: value, ..old(self)@.stepwise.draft },
            ),
    {
        self.stepwise.draft.max_output_tokens = value;
        self.stepwise.conflict = false;
    }

    pub fn edit_stepwise_timeout_ms(&mut self, value: u64)
        ensures
            final(self)@ == with_stepwise_draft(
                old(self)@,
                StepwiseDraftModel { timeout_ms: value, ..old(self)@.stepwise.draft },
            ),
    {
        self.stepwise.draft.timeout_ms = value;
        self.stepwise.conflict = false;
    }

    /// Types an API key that a save will store in place of the current one.
    pub fn edit_secret_replacement(&mut self, replacement: String)
        ensures
            final(self)@ == with_stepwise_draft(
                old(self)@,
                StepwiseDraftModel { secret_replacement: replacement@, ..old(self)@.stepwise.draft },
            ),
    {
        self.stepwise.draft.secret_replacement = replacement;
        self.stepwise.conflict = false;
    }

    pub fn set_password_visible(&mut self, visible: bool)
        ensures
            final(self)@ == (SettingsModel {
                stepwise: StepwiseGroupModel { password_visible: visible, ..old(self)@.stepwise },
                ..old(self)@
            }),
    {
        self.stepwise.password_visible = visible;
    }

    pub fn edit_image_enabled(&mut self, enabled: bool)
        ensures
            final(self)@ == with_image_draft(
                old(self)@,
                ImageOverlayDraftModel { enabled, ..old(self)@.image_overlay.draft },
            ),
    {
        self.image_overlay.draft.enabled = enabled;
        self.image_overlay.conflict = false;
    }

    pub fn edit_image_path(&mut self, path: String)
        ensures
            final(self)@ == with_image_draft(
                old(self)@,
                ImageOverlayDraftModel { path: path@, ..old(self)@.image_overlay.draft },
            ),
    {
        self.image_overlay.draft.path = path;
        self.image_overlay.conflict = false;
    }

    pub fn edit_image_opacity(&mut self, opacity: u8)
        ensures
            final(self)@ == with_image_draft(
                old(self)@,
                ImageOverlayDraftModel { opacity, ..old(self)@.image_overlay.draft },
            ),
    {
        self.image_overlay.draft.opacity = opacity;
        self.image_overlay.conflict = false;
    }

    pub fn edit_image_fit_mode(&mut self, fit_mode: ImageOverlayFitMode)
        ensures
            final(self)@ == with_image_draft(
                old(self)@,
                ImageOverlayDraftModel { fit_mode, ..old(self)@.image_overlay.draft },
            ),
    {
        self.image_overlay.draft.fit_mode = fit_mode;
        self.image_overlay.conflict = false;
    }

    pub fn edit_extra_args(&mut self, text: String)
        ensures
            final(self)@ == with_args_draft(old(self)@, text@),
    {
        self.extra_args.draft.text = text;
        self.extra_args.conflict = false;
    }

    /// Opens the file dialog for the overlay image, unless one is open.
    pub fn begin_image_picker(&mut self) -> (request: Option<PathPickerRequest>)
        requires
            old(self)@.pending_picker is None ==> old(self)@.last_request_id < u64::MAX,
        ensures
            old(self)@.pending_picker is Some ==> request is None && final(self)@ == old(self)@,
            old(self)@.pending_picker is None ==> request == Some(
                PathPickerRequest {
                    request_id: (old(self)@.last_request_id + 1) as u64,
                    target: PathPickerTarget::SettingsOverlayImage,
                },
            ) && final(self)@ == (SettingsModel {
                last_request_id: (old(self)@.last_request_id + 1) as u64,
                pending_picker: Some(
                    ((old(self)@.last_request_id + 1) as u64, PathPickerTarget::SettingsOverlayImage),
                ),
                picker_error: None,
                ..old(self)@
            }),
    {
        if self.pending_picker.is_some() {
            return None;
        }
        let request_id = self.issue_request_id();
        self.pending_picker = Some((request_id, PathPickerTarget::SettingsOverlayImage));
        self.picker_error = None;
        Some(PathPickerRequest::new(request_id, PathPickerTarget::SettingsOverlayImage))
    }

    /// Takes the answer of the open file dialog; a chosen path becomes the
    /// overlay image. Answers to other dialogs are ignored.
    pub fn apply_picker_response(&mut self, response: PathPickerResponse) -> (applied: bool)
        ensures
            applied == (old(self)@.pending_picker == Some((response.request_id, response.target))),
            !applied ==> final(self)@ == old(self)@,
            applied ==> final(self)@ == ({
                let closed = SettingsModel {
                    pending_picker: None,
                    picker_error: response.error,
                    ..old(self)@
                };
                match response.path {
                    Some(path) => with_image_draft(
                        closed,
                        ImageOverlayDraftModel { path: path@, ..closed.image_overlay.draft },
                    ),
                    None => closed,
                }
            }),
    {
        let matches_pending = match self.pending_picker {
            Some((id, target)) => id == response.request_id && target == response.target,
            None => false,
        };
        if !matches_pending {
            return false;
        }
        self.pending_picker = None;
        self.picker_error = response.error;
        match response.path {
            Some(path) => self.edit_image_path(path),
            None => {},
        }
        true
    }

    pub fn picker_pending(&self) -> (pending: bool)
        ensures
            pending == self@.pending_picker is Some,
    {
        self.pending_picker.is_some()
    }

    /// Forgets the open file dialog and its last error.
    pub fn invalidate_picker(&mut self)
        ensures
            final(self)@ == (SettingsModel { pending_picker: None, picker_error: None, ..old(self)@ }),
    {
        self.pending_picker = None;
        self.picker_error = None;
    }

    /// The Stepwise group, as the page's model holds it.
    pub fn stepwise_group(&self) -> (group: &StepwiseGroupState<T>)
        ensures
            group@ == self@.stepwise,
    {
        &self.stepwise
    }

    /// The image overlay group, as the page's model holds it.
    pub fn image_overlay_group(&self) -> (group: &ImageOverlayGroupState)
        ensures
            group@ == self@.image_overlay,
    {
        &self.image_overlay
    }

    /// The launch arguments group, as the page's model holds it.
    pub fn extra_args_group(&self) -> (group: &ExtraArgsGroupState)
        ensures
            group@ == self@.extra_args,
    {
        &self.extra_args
    }

    /// The groups that hold unsaved edits.
    pub fn dirty_groups(&self) -> (groups: DirtySettingsGroups)
        ensures
            groups == dirty_groups_of(self@),
            groups.stepwise == (self@.stepwise.draft != self@.stepwise.base),
            groups.image_overlay == (self@.image_overlay.draft != self@.image_overlay.base),
            groups.extra_args == (self@.extra_args.draft != self@.extra_args.base),
    {
        DirtySettingsGroups {
            stepwise: self.stepwise.is_dirty(),
            image_overlay: self.image_overlay.is_dirty(),
            extra_args: self.extra_args.is_dirty(),
        }
    }

    pub fn any_dirty(&self) -> (dirty: bool)
        ensures
            dirty == ({
                let groups = dirty_groups_of(self@);
                groups.stepwise || groups.image_overlay || groups.extra_args
            }),
    {
        self.dirty_groups().any()
    }

    /// Leaves the page or reloads it at once when nothing was edited, closing
    /// the file dialog; otherwise records the transition with the edited
    /// groups until the edits are discarded.
    pub fn request_transition(&mut self, transition: SettingsTransition) -> (allowed: bool)
        ensures
            ({
                let groups = dirty_groups_of(old(self)@);
                &&& allowed == !(groups.stepwise || groups.image_overlay || groups.extra_args)
                &&& allowed ==> final(self)@ == (SettingsModel {
                    pending_picker: None,
                    picker_error: None,
                    ..old(self)@
                })
                &&& !allowed ==> final(self)@ == (SettingsModel {
                    pending_transition: if old(self)@.pending_transition is None {
                        Some(PendingDirtyTransition { groups, transition })
                    } else {
                        old(self)@.pending_transition
                    },
                    ..old(self)@
                })
            }),
    {
        let groups = self.dirty_groups();
        if !groups.any() {
            self.invalidate_picker();
            return true;
        }
        if self.pending_transition.is_none() {
            self.pending_transition = Some(PendingDirtyTransition { groups, transition });
        }
        false
    }

    /// The edited groups of the transition that waits for confirmation.
    pub fn pending_dirty_groups(&self) -> (groups: Option<DirtySettingsGroups>)
        ensures
            groups == match self@.pending_transition {
                Some(p) => Some(p.groups),
                None => None::<DirtySettingsGroups>,
            },
    {
        match self.pending_transition {
            Some(pending) => Some(pending.groups),
            None => None,
        }
    }

    /// Discards every edit and pending confirmation, and hands back the
    /// recorded transition.
    pub fn confirm_discard_transition(&mut self) -> (transition: Option<SettingsTransition>)
        ensures
            transition == match old(self)@.pending_transition {
                Some(p) => Some(p.transition),
                None => None::<SettingsTransition>,
            },
            old(self)@.pending_transition is None ==> final(self)@ == old(self)@,
            old(self)@.pending_transition is Some ==> final(self)@ == edits_discarded(old(self)@),
    {
        let pending = match self.pending_transition.take() {
            Some(pending) => pending,
            None => {
                return None;
            },
        };
        self.invalidate_picker();
        self.pending_reset = None;
        self.pending_secret_clear = None;
        self.stepwise.restore();
        self.image_overlay.restore();
        self.extra_args.restore();
        Some(pending.transition)
    }

    pub fn cancel_transition(&mut self)
        ensures
            final(self)@ == (SettingsModel { pending_transition: None, ..old(self)@ }),
    {
        self.pending_transition = None;
    }

    pub fn discard_confirmation_visible(&self) -> (visible: bool)
        ensures
            visible == self@.pending_transition is Some,
    {
        self.pending_transition.is_some()
    }

    fn stepwise_command_blocked(&self) -> (blocked: bool)
        ensures
            blocked == stepwise_command_blocked(self@),
    {
        self.stepwise.is_busy() || self.pending_secret_clear.is_some() || self.reset_pending_for(
            SafeSettingsGroup::Stepwise,
        )
    }

    fn reset_pending_for(&self, group: SafeSettingsGroup) -> (pending: bool)
        ensures
            pending == reset_pending_for(self@, group),
    {
        match self.pending_reset {
            Some(request) => request.group() == group,
            None => false,
        }
    }

    fn group_busy(&self, group: SafeSettingsGroup) -> (busy: bool)
        ensures
            busy == group_busy(self@, group),
    {
        match group {
            SafeSettingsGroup::Stepwise => self.stepwise.is_busy(),
            SafeSettingsGroup::ImageOverlay => self.image_overlay.operation.phase
                == SettingsOperationPhase::Running,
            SafeSettingsGroup::ExtraArgs => self.extra_args.operation.phase
                == SettingsOperationPhase::Running,
        }
    }

    fn start_stepwise_operation(&mut self, submitted: StepwiseDraft, consumes_replacement: bool) -> (request_id: u64)
        requires
            old(self)@.last_request_id < u64::MAX,
        ensures
            request_id == old(self)@.last_request_id + 1,
            final(self)@ == stepwise_started(old(self)@, request_id, submitted@, consumes_replacement),
    {
        let request_id = self.issue_request_id();
        self.stepwise.operation.current_request_id = request_id;
        self.stepwise.operation.phase = SettingsOperationPhase::Running;
        self.stepwise.operation.error = None;
        self.stepwise.submitted = Some(StepwiseSubmission { draft: submitted, consumes_replacement });
        request_id
    }

    /// Starts saving the edited Stepwise settings, with the typed key if one
    /// was typed.
    pub fn begin_stepwise_save(&mut self) -> (started: Option<(u64, SaveStepwiseSettings)>)
        requires
            !stepwise_command_blocked(old(self)@) && old(self)@.stepwise.draft != old(self)@.stepwise.base && old(self)@.stepwise.revision is Some ==> old(self)@.last_request_id
                < u64::MAX,
        ensures
            (stepwise_command_blocked(old(self)@) || old(self)@.stepwise.draft == old(self)@.stepwise.base || old(self)@.stepwise.revision is None) ==> started is None && final(self)@ == old(self)@,
            !(stepwise_command_blocked(old(self)@) || old(self)@.stepwise.draft == old(self)@.stepwise.base || old(self)@.stepwise.revision is None) ==> (started matches Some(
                (id, request),
            ) && id == old(self)@.last_request_id + 1 && request.expected_revision == old(self)@.stepwise.revision.unwrap() && input_matches(request.settings, old(self)@.stepwise.draft)
                && secret_change_matches(request.secret_change, old(self)@.stepwise.draft) && final(self)@ == stepwise_started(
                old(self)@,
                id,
                old(self)@.stepwise.draft,
                old(self)@.stepwise.draft.secret_replacement.len() > 0,
            )),
            started matches Some((id, request)) ==> request.settings.enabled == old(self)@.stepwise.draft.enabled
                && request.settings.direct_send == old(self)@.stepwise.draft.direct_send
                && request.settings.base_url@ == old(self)@.stepwise.draft.base_url
                && request.settings.api_key_env@ == old(self)@.stepwise.draft.api_key_env
                && request.settings.model@ == old(self)@.stepwise.draft.model
                && request.settings.max_items == old(self)@.stepwise.draft.max_items
                && request.settings.max_input_chars == old(self)@.stepwise.draft.max_input_chars
                && request.settings.max_output_tokens == old(self)@.stepwise.draft.max_output_tokens
                && request.settings.timeout_ms == old(self)@.stepwise.draft.timeout_ms,
    {
        if self.stepwise_command_blocked() || !self.stepwise.is_dirty() {
            return None;
        }
        let expected_revision = match self.stepwise.revision {
            Some(revision) => revision,
            None => {
                return None;
            },
        };
        let submitted = self.stepwise.draft.duplicate();
        let secret_change = submitted.secret_change();
        let consumes_replacement = match &secret_change {
            StepwiseSecretChange::Replace(_) => true,
            _ => false,
        };
        let request = SaveStepwiseSettings {
            expected_revision,
            settings: submitted.input(),
            secret_change,
        };
        let request_id = self.start_stepwise_operation(submitted, consumes_replacement);
        Some((request_id, request))
    }

    /// Starts a test of the edited Stepwise settings.
    pub fn begin_stepwise_test(&mut self) -> (started: Option<(u64, TestStepwiseSettings)>)
        requires
            !stepwise_command_blocked(old(self)@) && old(self)@.stepwise.revision is Some ==> old(self)@.last_request_id < u64::MAX,
        ensures
            (stepwise_command_blocked(old(self)@) || old(self)@.stepwise.revision is None)
                ==> started is None && final(self)@ == old(self)@,
            !(stepwise_command_blocked(old(self)@) || old(self)@.stepwise.revision is None) ==> (
            started matches Some((id, request)) && id == old(self)@.last_request_id + 1
                && request.expected_revision == old(self)@.stepwise.revision.unwrap()
                && input_matches(request.settings, old(self)@.stepwise.draft)
                && secret_change_matches(request.secret_change, old(self)@.stepwise.draft) && final(self)@ == (SettingsModel {
                last_request_id: id,
                stepwise: StepwiseGroupModel {
                    test: running_operation(id),
                    test_outcome: None,
                    ..old(self)@.stepwise
                },
                ..old(self)@
            })),
            started matches Some((id, request)) ==> request.settings.enabled == old(self)@.stepwise.draft.enabled
                && request.settings.direct_send == old(self)@.stepwise.draft.direct_send
                && request.settings.base_url@ == old(self)@.stepwise.draft.base_url
                && request.settings.api_key_env@ == old(self)@.stepwise.draft.api_key_env
                && request.settings.model@ == old(self)@.stepwise.draft.model
                && request.settings.max_items == old(self)@.stepwise.draft.max_items
                && request.settings.max_input_chars == old(self)@.stepwise.draft.max_input_chars
                && request.settings.max_output_tokens == old(self)@.stepwise.draft.max_output_tokens
                && request.settings.timeout_ms == old(self)@.stepwise.draft.timeout_ms,
    {
        if self.stepwise_command_blocked() {
            return None;
        }
        let expected_revision = match self.stepwise.revision {
            Some(revision) => revision,
            None => {
                return None;
            },
        };
        let request_id = self.issue_request_id();
        self.stepwise.test.current_request_id = request_id;
        self.stepwise.test.phase = SettingsOperationPhase::Running;
        self.stepwise.test.error = None;
        self.stepwise.test_outcome = None;
        Some(
            (
                request_id,
                TestStepwiseSettings {
                    expected_revision,
                    settings: self.stepwise.draft.input(),
                    secret_change: self.stepwise.draft.secret_change(),
                },
            ),
        )
    }

    /// Takes the answer to the running test; other answers are ignored.
    pub fn apply_stepwise_test_response(&mut self, request_id: u64, result: Result<T, SettingsFailure>) -> (applied: bool)
        ensures
            applied == operation_answers(old(self)@.stepwise.test, request_id),
            final(self)@ == stepwise_test_response(old(self)@, request_id, result),
    {
        if request_id != self.stepwise.test.current_request_id || self.stepwise.test.phase
            != SettingsOperationPhase::Running {
            return false;
        }
        match result {
            Ok(outcome) => {
                self.stepwise.test_outcome = Some(outcome);
                self.stepwise.test.phase = SettingsOperationPhase::Ready;
                self.stepwise.test.error = None;
                self.stepwise.conflict = false;
            },
            Err(failure) => {
                let kind = failure.kind;
                match failure.refreshed_workspace {
                    Some(workspace) => {
                        self.stepwise.install(&workspace.stepwise, true);
                        self.image_overlay.refresh(&workspace.image_overlay);
                        self.extra_args.refresh(&workspace.extra_args);
                    },
                    None => {},
                }
                self.stepwise.test_outcome = None;
                self.stepwise.test.phase = SettingsOperationPhase::Error;
                self.stepwise.test.error = Some(kind);
                self.stepwise.conflict = kind == SettingsFailureKind::SettingsConflict;
            },
        }
        true
    }

    /// Takes the answer to the running Stepwise save.
    pub fn apply_stepwise_save_response(
        &mut self,
        request_id: u64,
        result: Result<ManagerSettingsWorkspace, SettingsFailure>,
    ) -> (applied: bool)
        ensures
            applied == operation_answers(old(self)@.stepwise.operation, request_id),
            final(self)@ == stepwise_workspace_response(old(self)@, request_id, result),
    {
        self.apply_stepwise_workspace_response(request_id, result)
    }

    /// Takes the answer to the running Stepwise reset.
    pub fn apply_stepwise_reset_response(
        &mut self,
        request_id: u64,
        result: Result<ManagerSettingsWorkspace, SettingsFailure>,
    ) -> (applied: bool)
        ensures
            applied == operation_answers(old(self)@.stepwise.operation, request_id),
            final(self)@ == stepwise_workspace_response(old(self)@, request_id, result),
    {
        self.apply_stepwise_workspace_response(request_id, result)
    }

    #[verifier::rlimit(60)]
    fn apply_stepwise_workspace_response(
        &mut self,
        request_id: u64,
        result: Result<ManagerSettingsWorkspace, SettingsFailure>,
    ) -> (applied: bool)
        ensures
            applied == operation_answers(old(self)@.stepwise.operation, request_id),
            final(self)@ == stepwise_workspace_response(old(self)@, request_id, result),
    {
        if request_id != self.stepwise.operation.current_request_id || self.stepwise.operation.phase
            != SettingsOperationPhase::Running {
            return false;
        }
        let submitted = self.stepwise.submitted.take();
        match result {
            Ok(workspace) => {
                let (preserve, consume_replacement) = match &submitted {
                    Some(submission) => (
                        !submission.draft.same_as(&self.stepwise.draft),
                        submission.consumes_replacement && text_eq(
                            submission.draft.secret_replacement.as_str(),
                            self.stepwise.draft.secret_replacement.as_str(),
                        ),
                    ),
                    None => (false, false),
                };
                self.stepwise.install(&workspace.stepwise, preserve);
                if preserve && consume_replacement {
                    self.stepwise.draft.secret_replacement = String::new();
                }
                self.image_overlay.refresh(&workspace.image_overlay);
                self.extra_args.refresh(&workspace.extra_args);
                self.stepwise.operation.phase = SettingsOperationPhase::Ready;
                self.stepwise.operation.error = None;
                self.stepwise.conflict = false;
            },
            Err(failure) => {
                let kind = failure.kind;
                match failure.refreshed_workspace {
                    Some(workspace) => {
                        self.stepwise.install(&workspace.stepwise, true);
                        self.image_overlay.refresh(&workspace.image_overlay);
                        self.extra_args.refresh(&workspace.extra_args);
                    },
                    None => {},
                }
                self.stepwise.operation.phase = SettingsOperationPhase::Error;
                self.stepwise.operation.error = Some(kind);
                self.stepwise.conflict = kind == SettingsFailureKind::SettingsConflict;
            },
        }
        true
    }

    /// Starts saving the edited overlay settings.
    pub fn begin_image_save(&mut self) -> (started: Option<(u64, SaveImageOverlaySettings)>)
        requires
            !image_command_blocked(old(self)@) && old(self)@.image_overlay.draft != old(self)@.image_overlay.base && old(self)@.image_overlay.revision is Some ==> old(self)@.last_request_id < u64::MAX,
        ensures
            (image_command_blocked(old(self)@) || old(self)@.image_overlay.draft == old(self)@.image_overlay.base || old(self)@.image_overlay.revision is None) ==> started is None
                && final(self)@ == old(self)@,
            !(image_command_blocked(old(self)@) || old(self)@.image_overlay.draft == old(self)@.image_overlay.base || old(self)@.image_overlay.revision is None) ==> (
            started matches Some((id, request)) && id == old(self)@.last_request_id + 1
                && request.expected_revision == old(self)@.image_overlay.revision.unwrap()
                && image_draft_of(request.settings) == old(self)@.image_overlay.draft && final(self)@ == image_started(old(self)@, id)),
    {
        if self.image_command_blocked() || !self.image_overlay.is_dirty() {
            return None;
        }
        let expected_revision = match self.image_overlay.revision {
            Some(revision) => revision,
            None => {
                return None;
            },
        };
        let submitted = self.image_overlay.draft.duplicate();
        let request_id = self.issue_request_id();
        self.image_overlay.operation.current_request_id = request_id;
        self.image_overlay.operation.phase = SettingsOperationPhase::Running;
        self.image_overlay.operation.error = None;
        let settings = submitted.settings();
        self.image_overlay.submitted = Some(submitted);
        Some((request_id, SaveImageOverlaySettings { expected_revision, settings }))
    }

    fn image_command_blocked(&self) -> (blocked: bool)
        ensures
            blocked == image_command_blocked(self@),
    {
        self.image_overlay.operation.phase == SettingsOperationPhase::Running
            || self.reset_pending_for(SafeSettingsGroup::ImageOverlay)
    }

    fn args_command_blocked(&self) -> (blocked: bool)
        ensures
            blocked == args_command_blocked(self@),
    {
        self.extra_args.operation.phase == SettingsOperationPhase::Running
            || self.reset_pending_for(SafeSettingsGroup::ExtraArgs)
    }

    /// Takes the answer to the running overlay save.
    pub fn apply_image_save_response(
        &mut self,
        request_id: u64,
        result: Result<ManagerSettingsWorkspace, SettingsFailure>,
    ) -> (applied: bool)
        ensures
            applied == operation_answers(old(self)@.image_overlay.operation, request_id),
            final(self)@ == image_workspace_response(old(self)@, request_id, result),
    {
        self.apply_image_workspace_response(request_id, result)
    }

    /// Takes the answer to the running overlay reset.
    pub fn apply_image_reset_response(
        &mut self,
        request_id: u64,
        result: Result<ManagerSettingsWorkspace, SettingsFailure>,
    ) -> (applied: bool)
        ensures
            applied == operation_answers(old(self)@.image_overlay.operation, request_id),
            final(self)@ == image_workspace_response(old(self)@, request_id, result),
    {
        self.apply_image_workspace_response(request_id, result)
    }

    fn apply_image_workspace_response(
        &mut self,
        request_id: u64,
        result: Result<ManagerSettingsWorkspace, SettingsFailure>,
    ) -> (applied: bool)
        ensures
            applied == operation_answers(old(self)@.image_overlay.operation, request_id),
            final(self)@ == image_workspace_response(old(self)@, request_id, result),
    {
        if request_id != self.image_overlay.operation.current_request_id
            || self.image_overlay.operation.phase != SettingsOperationPhase::Running {
            return false;
        }
        let submitted = self.image_overlay.submitted.take();
        match result {
            Ok(workspace) => {
                let preserve = match &submitted {
                    Some(draft) => !draft.same_as(&self.image_overlay.draft),
                    None => false,
                };
                self.image_overlay.install(&workspace.image_overlay, preserve);
                self.stepwise.refresh(&workspace.stepwise);
                self.extra_args.refresh(&workspace.extra_args);
                self.image_overlay.operation.phase = SettingsOperationPhase::Ready;
                self.image_overlay.operation.error = None;
                self.image_overlay.conflict = false;
            },
            Err(failure) => {
                let kind = failure.kind;
                match failure.refreshed_workspace {
                    Some(workspace) => {
                        self.image_overlay.install(&workspace.image_overlay, true);
                        self.stepwise.refresh(&workspace.stepwise);
                        self.extra_args.refresh(&workspace.extra_args);
                    },
                    None => {},
                }
                self.image_overlay.operation.phase = SettingsOperationPhase::Error;
                self.image_overlay.operation.error = Some(kind);
                self.image_overlay.conflict = kind == SettingsFailureKind::SettingsConflict;
            },
        }
        true
    }

    /// Starts saving the edited launch arguments, one per line.
    pub fn begin_extra_args_save(&mut self) -> (started: Option<(u64, SaveExtraArgs)>)
        requires
            !args_command_blocked(old(self)@) && old(self)@.extra_args.draft != old(self)@.extra_args.base && old(self)@.extra_args.revision is Some ==> old(self)@.last_request_id < u64::MAX,
        ensures
            (args_command_blocked(old(self)@) || old(self)@.extra_args.draft == old(self)@.extra_args.base || old(self)@.extra_args.revision is None) ==> started is None
                && final(self)@ == old(self)@,
            !(args_command_blocked(old(self)@) || old(self)@.extra_args.draft == old(self)@.extra_args.base || old(self)@.extra_args.revision is None) ==> (
            started matches Some((id, request)) && id == old(self)@.last_request_id + 1
                && request.expected_revision == old(self)@.extra_args.revision.unwrap()
                && request.settings.args@.map_values(|arg: String| arg@) == text_lines(
                old(self)@.extra_args.draft,
            ) && final(self)@ == args_started(old(self)@, id)),
    {
        if self.args_command_blocked() || !self.extra_args.is_dirty() {
            return None;
        }
        let expected_revision = match self.extra_args.revision {
            Some(revision) => revision,
            None => {
                return None;
            },
        };
        let submitted = self.extra_args.draft.duplicate();
        let request_id = self.issue_request_id();
        self.extra_args.operation.current_request_id = request_id;
        self.extra_args.operation.phase = SettingsOperationPhase::Running;
        self.extra_args.operation.error = None;
        let settings = submitted.settings();
        self.extra_args.submitted = Some(submitted);
        Some((request_id, SaveExtraArgs { expected_revision, settings }))
    }

    /// Takes the answer to the running save of the launch arguments.
    pub fn apply_extra_args_save_response(
        &mut self,
        request_id: u64,
        result: Result<ManagerSettingsWorkspace, SettingsFailure>,
    ) -> (applied: bool)
        ensures
            applied == operation_answers(old(self)@.extra_args.operation, request_id),
            final(self)@ == args_workspace_response(old(self)@, request_id, result),
    {
        self.apply_args_workspace_response(request_id, result)
    }

    /// Takes the answer to the running reset of the launch arguments.
    pub fn apply_extra_args_reset_response(
        &mut self,
        request_id: u64,
        result: Result<ManagerSettingsWorkspace, SettingsFailure>,
    ) -> (applied: bool)
        ensures
            applied == operation_answers(old(self)@.extra_args.operation, request_id),
            final(self)@ == args_workspace_response(old(self)@, request_id, result),
    {
        self.apply_args_workspace_response(request_id, result)
    }

    fn apply_args_workspace_response(
        &mut self,
        request_id: u64,
        result: Result<ManagerSettingsWorkspace, SettingsFailure>,
    ) -> (applied: bool)
        ensures
            applied == operation_answers(old(self)@.extra_args.operation, request_id),
            final(self)@ == args_workspace_response(old(self)@, request_id, result),
    {
        if request_id != self.extra_args.operation.current_request_id
            || self.extra_args.operation.phase != SettingsOperationPhase::Running {
            return false;
        }
        let submitted = self.extra_args.submitted.take();
        match result {
            Ok(workspace) => {
                let preserve = match &submitted {
                    Some(draft) => !draft.same_as(&self.extra_args.draft),
                    None => false,
                };
                self.extra_args.install(&workspace.extra_args, preserve);
                self.stepwise.refresh(&workspace.stepwise);
                self.image_overlay.refresh(&workspace.image_overlay);
                self.extra_args.operation.phase = SettingsOperationPhase::Ready;
                self.extra_args.operation.error = None;
                self.extra_args.conflict = false;
            },
            Err(failure) => {
                let kind = failure.kind;
                match failure.refreshed_workspace {
                    Some(workspace) => {
                        self.extra_args.install(&workspace.extra_args, true);
                        self.stepwise.refresh(&workspace.stepwise);
                        self.image_overlay.refresh(&workspace.image_overlay);
                    },
                    None => {},
                }
                self.extra_args.operation.phase = SettingsOperationPhase::Error;
                self.extra_args.operation.error = Some(kind);
                self.extra_args.conflict = kind == SettingsFailureKind::SettingsConflict;
            },
        }
        true
    }

    /// Asks to reset a group to its defaults; the reset waits for
    /// confirmation. Refused while another reset waits, while the group is
    /// busy, or before the group was read.
    pub fn request_reset(&mut self, group: SafeSettingsGroup) -> (requested: bool)
        ensures
            requested == (old(self)@.pending_reset is None && !group_busy(old(self)@, group)
                && group_revision(old(self)@, group) is Some),
            requested ==> final(self)@ == (SettingsModel {
                pending_reset: Some(
                    {
                        let request = ResetGroupRequest {
                            expected_revision: group_revision(old(self)@, group).unwrap(),
                            confirmed_group: group,
                        };
                        match group {
                            SafeSettingsGroup::Stepwise => SettingsResetRequest::Stepwise(request),
                            SafeSettingsGroup::ImageOverlay => SettingsResetRequest::Image(request),
                            SafeSettingsGroup::ExtraArgs => SettingsResetRequest::ExtraArgs(request),
                        }
                    },
                ),
                ..old(self)@
            }),
            !requested ==> final(self)@ == old(self)@,
    {
        if self.pending_reset.is_some() || self.group_busy(group) {
            return false;
        }
        let request = match group {
            SafeSettingsGroup::Stepwise => match self.stepwise.revision {
                Some(expected_revision) => SettingsResetRequest::Stepwise(
                    ResetGroupRequest { expected_revision, confirmed_group: group },
                ),
                None => {
                    return false;
                },
            },
            SafeSettingsGroup::ImageOverlay => match self.image_overlay.revision {
                Some(expected_revision) => SettingsResetRequest::Image(
                    ResetGroupRequest { expected_revision, confirmed_group: group },
                ),
                None => {
                    return false;
                },
            },
            SafeSettingsGroup::ExtraArgs => match self.extra_args.revision {
                Some(expected_revision) => SettingsResetRequest::ExtraArgs(
                    ResetGroupRequest { expected_revision, confirmed_group: group },
                ),
                None => {
                    return false;
                },
            },
        };
        self.pending_reset = Some(request);
        true
    }

    /// Sends the reset that waited for confirmation, unless its group became
    /// busy; the confirmation is used up either way.
    pub fn confirm_reset(&mut self) -> (started: Option<(u64, SettingsResetRequest)>)
        requires
            old(self)@.pending_reset matches Some(r) && !group_busy(old(self)@, r.group_of()) ==> old(self)@.last_request_id < u64::MAX,
        ensures
            old(self)@.pending_reset is None ==> started is None && final(self)@ == old(self)@,
            old(self)@.pending_reset matches Some(r) && group_busy(old(self)@, r.group_of())
                ==> started is None && final(self)@ == (SettingsModel {
                pending_reset: None,
                ..old(self)@
            }),
            old(self)@.pending_reset matches Some(r) ==> (!group_busy(old(self)@, r.group_of()) ==> (
            started == Some(((old(self)@.last_request_id + 1) as u64, r)) && final(self)@
                == reset_started(
                SettingsModel { pending_reset: None, ..old(self)@ },
                (old(self)@.last_request_id + 1) as u64,
                r.group_of(),
            ))),
    {
        let request = match self.pending_reset.take() {
            Some(request) => request,
            None => {
                return None;
            },
        };
        if self.group_busy(request.group()) {
            return None;
        }
        let request_id = self.issue_request_id();
        match request {
            SettingsResetRequest::Stepwise(_) => {
                self.stepwise.operation.current_request_id = request_id;
                self.stepwise.operation.phase = SettingsOperationPhase::Running;
                self.stepwise.operation.error = None;
                self.stepwise.submitted = Some(
                    StepwiseSubmission {
                        draft: self.stepwise.draft.duplicate(),
                        consumes_replacement: false,
                    },
                );
            },
            SettingsResetRequest::Image(_) => {
                self.image_overlay.operation.current_request_id = request_id;
                self.image_overlay.operation.phase = SettingsOperationPhase::Running;
                self.image_overlay.operation.error = None;
                self.image_overlay.submitted = Some(self.image_overlay.draft.duplicate());
            },
            SettingsResetRequest::ExtraArgs(_) => {
                self.extra_args.operation.current_request_id = request_id;
                self.extra_args.operation.phase = SettingsOperationPhase::Running;
                self.extra_args.operation.error = None;
                self.extra_args.submitted = Some(self.extra_args.draft.duplicate());
            },
        }
        Some((request_id, request))
    }

    pub fn cancel_reset(&mut self)
        ensures
            final(self)@ == (SettingsModel { pending_reset: None, ..old(self)@ }),
    {
        self.pending_reset = None;
    }

    /// The group of the reset that waits for confirmation.
    pub fn reset_confirmation_group(&self) -> (group: Option<SafeSettingsGroup>)
        ensures
            group == match self@.pending_reset {
                Some(r) => Some(r.group_of()),
                None => None::<SafeSettingsGroup>,
            },
    {
        match self.pending_reset {
            Some(request) => Some(request.group()),
            None => None,
        }
    }

    /// Asks to clear the stored API key; the clear waits for confirmation and
    /// sends the settings as edited now.
    pub fn request_secret_clear(&mut self) -> (requested: bool)
        ensures
            requested == (old(self)@.pending_secret_clear is None && !stepwise_busy(
                old(self)@.stepwise,
            ) && old(self)@.stepwise.api_key_configured && old(self)@.stepwise.revision is Some),
            requested ==> final(self)@ == (SettingsModel {
                pending_secret_clear: Some(
                    SecretClearModel {
                        expected_revision: old(self)@.stepwise.revision.unwrap(),
                        submitted: old(self)@.stepwise.draft,
                    },
                ),
                ..old(self)@
            }),
            !requested ==> final(self)@ == old(self)@,
    {
        if self.pending_secret_clear.is_some() || self.stepwise.is_busy()
            || !self.stepwise.api_key_configured {
            return false;
        }
        let expected_revision = match self.stepwise.revision {
            Some(revision) => revision,
            None => {
                return false;
            },
        };
        self.pending_secret_clear = Some(
            PendingSecretClear { expected_revision, submitted: self.stepwise.draft.duplicate() },
        );
        true
    }

    /// Sends the key clear that waited for confirmation, unless the group
    /// became busy; the confirmation is used up either way.
    pub fn confirm_secret_clear(&mut self) -> (started: Option<(u64, SaveStepwiseSettings)>)
        requires
            old(self)@.pending_secret_clear is Some && !stepwise_busy(old(self)@.stepwise) ==> old(self)@.last_request_id < u64::MAX,
        ensures
            old(self)@.pending_secret_clear is None ==> started is None && final(self)@ == old(self)@,
            old(self)@.pending_secret_clear is Some && stepwise_busy(old(self)@.stepwise)
                ==> started is None && final(self)@ == (SettingsModel {
                pending_secret_clear: None,
                ..old(self)@
            }),
            old(self)@.pending_secret_clear matches Some(p) ==> (!stepwise_busy(old(self)@.stepwise)
                ==> (started matches Some((id, request)) && id == old(self)@.last_request_id + 1
                && request.expected_revision == p.expected_revision && input_matches(
                request.settings,
                p.submitted,
            ) && request.secret_change == StepwiseSecretChange::Clear(p.expected_revision)
                && final(self)@ == stepwise_started(
                SettingsModel { pending_secret_clear: None, ..old(self)@ },
                id,
                p.submitted,
                false,
            ))),
    {
        let pending = match self.pending_secret_clear.take() {
            Some(pending) => pending,
            None => {
                return None;
            },
        };
        if self.stepwise.is_busy() {
            return None;
        }
        let request = SaveStepwiseSettings {
            expected_revision: pending.expected_revision,
            settings: pending.submitted.input(),
            secret_change: StepwiseSecretChange::Clear(pending.expected_revision),
        };
        let request_id = self.start_stepwise_operation(pending.submitted, false);
        Some((request_id, request))
    }

    pub fn cancel_secret_clear(&mut self)
        ensures
            final(self)@ == (SettingsModel { pending_secret_clear: None, ..old(self)@ }),
    {
        self.pending_secret_clear = None;
    }

    pub fn secret_clear_confirmation_visible(&self) -> (visible: bool)
        ensures
            visible == self@.pending_secret_clear is Some,
    {
        self.pending_secret_clear.is_some()
    }

    /// Fails the load and every running operation once the worker stopped.
    pub fn fail_running_operations(&mut self)
        ensures
            final(self)@ == running_operations_failed(old(self)@),
    {
        if self.load_phase == SettingsLoadPhase::Loading || self.load_phase
            == SettingsLoadPhase::Refreshing {
            self.apply_load_response(
                self.current_load_request_id,
                Err(SettingsFailureKind::WorkerStopped),
            );
        }
        if self.stepwise.operation.phase == SettingsOperationPhase::Running {
            self.apply_stepwise_save_response(
                self.stepwise.operation.current_request_id,
                Err(
                    SettingsFailure::new(
                        SettingsFailureKind::WorkerStopped,
                        Some(SafeSettingsGroup::Stepwise),
                    ),
                ),
            );
        }
        if self.stepwise.test.phase == SettingsOperationPhase::Running {
            self.apply_stepwise_test_response(
                self.stepwise.test.current_request_id,
                Err(
                    SettingsFailure::new(
                        SettingsFailureKind::WorkerStopped,
                        Some(SafeSettingsGroup::Stepwise),
                    ),
                ),
            );
        }
        if self.image_overlay.operation.phase == SettingsOperationPhase::Running {
            self.apply_image_save_response(
                self.image_overlay.operation.current_request_id,
                Err(
                    SettingsFailure::new(
                        SettingsFailureKind::WorkerStopped,
                        Some(SafeSettingsGroup::ImageOverlay),
                    ),
                ),
            );
        }
        if self.extra_args.operation.phase == SettingsOperationPhase::Running {
            self.apply_extra_args_save_response(
                self.extra_args.operation.current_request_id,
                Err(
                    SettingsFailure::new(
                        SettingsFailureKind::WorkerStopped,
                        Some(SafeSettingsGroup::ExtraArgs),
                    ),
                ),
            );
        }
    }

    fn issue_request_id(&mut self) -> (request_id: u64)
        requires
            old(self)@.last_request_id < u64::MAX,
        ensures
            request_id == old(self)@.last_request_id + 1,
            final(self)@ == (SettingsModel { last_request_id: request_id, ..old(self)@ }),
    {
        self.next_request_id = self.next_request_id + 1;
        self.next_request_id
    }
}

/// A group that holds edits or runs an operation is never overwritten by
/// stored settings that arrive; a clean, idle group takes them.
pub proof fn law_refresh_spares_edited_groups<T>(
    stepwise: StepwiseGroupModel<T>,
    image: ImageOverlayGroupModel,
    args: ExtraArgsGroupModel,
    ws: ManagerSettingsWorkspace,
)
    ensures
        stepwise.draft != stepwise.base || stepwise_busy(stepwise) ==> stepwise_refreshed(
            stepwise,
            ws.stepwise,
        ) == stepwise,
        stepwise.draft == stepwise.base && !stepwise_busy(stepwise) ==> stepwise_refreshed(
            stepwise,
            ws.stepwise,
        ).draft == stepwise_draft_of(ws.stepwise.settings),
        image.draft != image.base || image.operation.phase == SettingsOperationPhase::Running
            ==> image_refreshed(image, ws.image_overlay) == image,
        image.draft == image.base && image.operation.phase != SettingsOperationPhase::Running
            ==> image_refreshed(image, ws.image_overlay).draft == image_draft_of(
            ws.image_overlay.settings,
        ),
        args.draft != args.base || args.operation.phase == SettingsOperationPhase::Running
            ==> args_refreshed(args, ws.extra_args) == args,
        args.draft == args.base && args.operation.phase != SettingsOperationPhase::Running
            ==> args_refreshed(args, ws.extra_args).draft == args_text_of(ws.extra_args.settings),
{
}

/// When a save of the overlay or the arguments is stored, an edit made while
/// it ran survives; without such an edit the group shows the stored settings
/// and holds no edits.
pub proof fn law_stored_save_keeps_later_edits<T>(m: SettingsModel<T>, ws: ManagerSettingsWorkspace)
    requires
        m.image_overlay.operation.phase == SettingsOperationPhase::Running,
        m.extra_args.operation.phase == SettingsOperationPhase::Running,
        m.image_overlay.submitted is Some,
        m.extra_args.submitted is Some,
    ensures
        ({
            let after = image_workspace_response(
                m,
                m.image_overlay.operation.current_request_id,
                Ok(ws),
            );
            &&& m.image_overlay.submitted != Some(m.image_overlay.draft)
                ==> after.image_overlay.draft == m.image_overlay.draft
            &&& m.image_overlay.submitted == Some(m.image_overlay.draft)
                ==> after.image_overlay.draft == after.image_overlay.base
            &&& after.image_overlay.operation.phase == SettingsOperationPhase::Ready
        }),
        ({
            let after = args_workspace_response(m, m.extra_args.operation.current_request_id, Ok(ws));
            &&& m.extra_args.submitted != Some(m.extra_args.draft) ==> after.extra_args.draft
                == m.extra_args.draft
            &&& m.extra_args.submitted == Some(m.extra_args.draft) ==> after.extra_args.draft
                == after.extra_args.base
            &&& after.extra_args.operation.phase == SettingsOperationPhase::Ready
        }),
{
}

/// When a Stepwise save is stored, an edit made while it ran survives, except
/// that the key typed and sent with the save is dropped; without such an edit
/// the group shows the stored settings and holds no edits.
pub proof fn law_stored_stepwise_save_keeps_later_edits<T>(
    m: SettingsModel<T>,
    ws: ManagerSettingsWorkspace,
    submitted: StepwiseSubmissionModel,
)
    requires
        m.stepwise.operation.phase == SettingsOperationPhase::Running,
        m.stepwise.submitted == Some(submitted),
    ensures
        ({
            let after = stepwise_workspace_response(
                m,
                m.stepwise.operation.current_request_id,
                Ok(ws),
            );
            &&& submitted.draft == m.stepwise.draft ==> after.stepwise.draft == after.stepwise.base
            &&& submitted.draft != m.stepwise.draft && !(submitted.consumes_replacement
                && submitted.draft.secret_replacement == m.stepwise.draft.secret_replacement)
                ==> after.stepwise.draft == m.stepwise.draft
            &&& submitted.draft != m.stepwise.draft && submitted.consumes_replacement
                && submitted.draft.secret_replacement == m.stepwise.draft.secret_replacement
                ==> after.stepwise.draft == (StepwiseDraftModel {
                secret_replacement: Seq::empty(),
                ..m.stepwise.draft
            })
            &&& after.stepwise.operation.phase == SettingsOperationPhase::Ready
            &&& !after.stepwise.conflict
        }),
{
}

/// Once the worker stopped, no load and no operation waits for an answer.
pub proof fn law_stopped_worker_leaves_nothing_running<T>(m: SettingsModel<T>)
    ensures
        ({
            let after = running_operations_failed(m);
            &&& after.load_phase != SettingsLoadPhase::Loading
            &&& after.load_phase != SettingsLoadPhase::Refreshing
            &&& after.stepwise.operation.phase != SettingsOperationPhase::Running
            &&& after.stepwise.test.phase != SettingsOperationPhase::Running
            &&& after.image_overlay.operation.phase != SettingsOperationPhase::Running
            &&& after.extra_args.operation.phase != SettingsOperationPhase::Running
        }),
{
}

/// Discarding leaves no group with edits, and a transition asked for after
/// it is allowed at once.
pub proof fn law_discard_leaves_no_edits<T>(m: SettingsModel<T>)
    ensures
        ({
            let groups = dirty_groups_of(edits_discarded(m));
            !groups.stepwise && !groups.image_overlay && !groups.extra_args
        }),
{
}

/// The number of edited groups counts exactly the groups whose own draft
/// differs from what is stored: at most three, and none exactly when no
/// group is edited.
pub proof fn law_dirty_count_counts_edited_groups<T>(s: SettingsViewState<T>)
    ensures
        dirty_groups_of(s@).size() == (if s@.stepwise.draft != s@.stepwise.base {
            1nat
        } else {
            0nat
        }) + (if s@.image_overlay.draft != s@.image_overlay.base {
            1nat
        } else {
            0nat
        }) + (if s@.extra_args.draft != s@.extra_args.base {
            1nat
        } else {
            0nat
        }),
        dirty_groups_of(s@).size() <= 3,
        (dirty_groups_of(s@).size() == 0) == (s@.stepwise.draft == s@.stepwise.base
            && s@.image_overlay.draft == s@.image_overlay.base && s@.extra_args.draft == s@.extra_args.base),
{
}


/// Stepwise settings a service stored exactly as they were sent.
pub open spec fn stored_as_sent(stored: StepwiseSettings, sent: StepwiseSettingsInput) -> bool {
    &&& stored.enabled == sent.enabled
    &&& stored.direct_send == sent.direct_send
    &&& stored.base_url@ == sent.base_url@
    &&& stored.api_key_env@ == sent.api_key_env@
    &&& stored.model@ == sent.model@
    &&& stored.max_items == sent.max_items
    &&& stored.max_input_chars == sent.max_input_chars
    &&& stored.max_output_tokens == sent.max_output_tokens
    &&& stored.timeout_ms == sent.timeout_ms
}

/// What a Stepwise save or test sends is the draft as edited: once stored as
/// sent, reading the settings back gives the same draft, every limit and
/// text in its own field, only without the typed key.
pub proof fn law_sent_stepwise_settings_read_back_as_the_draft(
    draft: StepwiseDraftModel,
    sent: StepwiseSettingsInput,
    stored: StepwiseSettings,
)
    requires
        input_matches(sent, draft),
        stored_as_sent(stored, sent),
    ensures
        stepwise_draft_of(stored) == (StepwiseDraftModel { secret_replacement: Seq::empty(), ..draft }),
        sent.max_output_tokens == draft.max_output_tokens,
        sent.max_input_chars == draft.max_input_chars,
        sent.max_items == draft.max_items,
        sent.timeout_ms == draft.timeout_ms,
{
}

} // verus!
