use vstd::prelude::*;

use crate::enhancements::EnhancementFailureKind;
use crate::i18n::{has_visible_text, is_white_space, Locale};

verus! {

/// The texts of the enhancements page.
#[derive(Debug, Clone, Copy, PartialEq, Eq, Structural)]
pub enum EText {
    Enhancements,
    EnableEnhancements,
    ComputerUseGuard,
    LaunchMode,
    FullEnhancements,
    Compatibility,
    PluginsAndModels,
    PluginMarketplaceUnlock,
    PluginAutoExpand,
    ModelWhitelistUnlock,
    ServiceTierControls,
    ConversationAndInput,
    SessionDelete,
    MarkdownExport,
    PasteFix,
    ProjectMove,
    ThreadIdBadge,
    ConversationView,
    ThreadScrollRestore,
    InterfaceAndStartup,
    PetRealMouseLook,
    ForceChineseLocale,
    FastStartup,
    NativeMenuPlacement,
    NativeMenuLocalization,
    RemoteProjects,
    ZedRemoteOpen,
    UpstreamWorktreeCreate,
    Save,
    Reset,
    DiscardChanges,
    Loading,
    Conflict,
    ReloadCurrent,
    Saved,
    Unsaved,
    ResetTitle,
    ResetMessage,
    ConfirmReset,
    Cancel,
    ReadFailed,
    WriteFailed,
    InvalidRevision,
    ConfirmationRequired,
    WorkerStopped,
}

/// The Chinese text of a key.
pub open spec fn etext_zh(key: EText) -> Seq<char> {
    match key {
        EText::Enhancements => "增强功能"@,
        EText::EnableEnhancements => "启用增强功能"@,
        EText::ComputerUseGuard => "Computer Use Guard"@,
        EText::LaunchMode => "启动模式"@,
        EText::FullEnhancements => "完整增强"@,
        EText::Compatibility => "兼容增强"@,
        EText::PluginsAndModels => "插件与模型"@,
        EText::PluginMarketplaceUnlock => "插件市场解锁"@,
        EText::PluginAutoExpand => "自动展开插件列表"@,
        EText::ModelWhitelistUnlock => "模型白名单解锁"@,
        EText::ServiceTierControls => "服务档位控件"@,
        EText::ConversationAndInput => "对话与输入"@,
        EText::SessionDelete => "会话删除"@,
        EText::MarkdownExport => "Markdown 导出"@,
        EText::PasteFix => "纯文本粘贴修复"@,
        EText::ProjectMove => "跨项目移动会话"@,
        EText::ThreadIdBadge => "会话 ID 标识"@,
        EText::ConversationView => "对话居中宽度"@,
        EText::ThreadScrollRestore => "恢复会话滚动位置"@,
        EText::InterfaceAndStartup => "界面与启动"@,
        EText::PetRealMouseLook => "宠物跟随真实鼠标"@,
        EText::ForceChineseLocale => "强制中文界面"@,
        EText::FastStartup => "快速启动"@,
        EText::NativeMenuPlacement => "原生菜单位置"@,
        EText::NativeMenuLocalization => "原生菜单本地化"@,
        EText::RemoteProjects => "远程项目"@,
        EText::ZedRemoteOpen => "使用 Zed Remote 打开"@,
        EText::UpstreamWorktreeCreate => "创建 upstream worktree"@,
        EText::Save => "保存增强设置"@,
        EText::Reset => "重置增强设置"@,
        EText::DiscardChanges => "放弃更改"@,
        EText::Loading => "正在加载增强设置"@,
        EText::Conflict => "增强设置已在磁盘上更改"@,
        EText::ReloadCurrent => "重新加载当前设置"@,
        EText::Saved => "增强设置已保存"@,
        EText::Unsaved => "增强设置有未保存更改"@,
        EText::ResetTitle => "重置增强设置？"@,
        EText::ResetMessage => "仅增强功能组会恢复默认值。"@,
        EText::ConfirmReset => "重置"@,
        EText::Cancel => "取消"@,
        EText::ReadFailed => "无法读取增强设置"@,
        EText::WriteFailed => "无法保存增强设置"@,
        EText::InvalidRevision => "增强设置版本已失效，请重新加载"@,
        EText::ConfirmationRequired => "重置需要明确确认"@,
        EText::WorkerStopped => "增强设置后台服务已停止"@,
    }
}

/// The English text of a key.
pub open spec fn etext_en(key: EText) -> Seq<char> {
    match key {
        EText::Enhancements => "Enhancements"@,
        EText::EnableEnhancements => "Enable enhancements"@,
        EText::ComputerUseGuard => "Computer Use Guard"@,
        EText::LaunchMode => "Launch mode"@,
        EText::FullEnhancements => "Full enhancements"@,
        EText::Compatibility => "Compatibility"@,
        EText::PluginsAndModels => "Plugins and models"@,
        EText::PluginMarketplaceUnlock => "Plugin marketplace unlock"@,
        EText::PluginAutoExpand => "Auto-expand plugin list"@,
        EText::ModelWhitelistUnlock => "Model whitelist unlock"@,
        EText::ServiceTierControls => "Service tier controls"@,
        EText::ConversationAndInput => "Conversation and input"@,
        EText::SessionDelete => "Session delete"@,
        EText::MarkdownExport => "Markdown export"@,
        EText::PasteFix => "Plain-text paste fix"@,
        EText::ProjectMove => "Move conversations between projects"@,
        EText::ThreadIdBadge => "Thread ID badge"@,
        EText::ConversationView => "Centered conversation view"@,
        EText::ThreadScrollRestore => "Restore thread scroll position"@,
        EText::InterfaceAndStartup => "Interface and startup"@,
        EText::PetRealMouseLook => "Pet follows real mouse"@,
        EText::ForceChineseLocale => "Force Chinese locale"@,
        EText::FastStartup => "Fast startup"@,
        EText::NativeMenuPlacement => "Native menu placement"@,
        EText::NativeMenuLocalization => "Native menu localization"@,
        EText::RemoteProjects => "Remote projects"@,
        EText::ZedRemoteOpen => "Open files in Zed Remote"@,
        EText::UpstreamWorktreeCreate => "Create upstream worktree"@,
        EText::Save => "Save enhancements"@,
        EText::Reset => "Reset enhancements"@,
        EText::DiscardChanges => "Discard changes"@,
        EText::Loading => "Loading enhancement settings"@,
        EText::Conflict => "Enhancement settings changed on disk"@,
        EText::ReloadCurrent => "Reload current settings"@,
        EText::Saved => "Enhancement settings saved"@,
        EText::Unsaved => "Enhancement settings have unsaved changes"@,
        EText::ResetTitle => "Reset enhancement settings?"@,
        EText::ResetMessage => "Only the enhancement settings group will return to defaults."@,
        EText::ConfirmReset => "Reset"@,
        EText::Cancel => "Cancel"@,
        EText::ReadFailed => "Could not read enhancement settings"@,
        EText::WriteFailed => "Could not save enhancement settings"@,
        EText::InvalidRevision => "Enhancement settings revision expired; reload before saving"@,
        EText::ConfirmationRequired => "Reset requires confirmation"@,
        EText::WorkerStopped => "The enhancement settings worker has stopped"@,
    }
}

/// The text of a key in a language.
pub open spec fn etext_spec(locale: Locale, key: EText) -> Seq<char> {
    match locale {
        Locale::ZhCn => etext_zh(key),
        Locale::En => etext_en(key),
    }
}

/// The text of an enhancements page key in a language.
pub fn etext(locale: Locale, key: EText) -> (text: &'static str)
    ensures
        text@ == etext_spec(locale, key),
{
    match locale {
        Locale::ZhCn => match key {
            EText::Enhancements => "增强功能",
            EText::EnableEnhancements => "启用增强功能",
            EText::ComputerUseGuard => "Computer Use Guard",
            EText::LaunchMode => "启动模式",
            EText::FullEnhancements => "完整增强",
            EText::Compatibility => "兼容增强",
            EText::PluginsAndModels => "插件与模型",
            EText::PluginMarketplaceUnlock => "插件市场解锁",
            EText::PluginAutoExpand => "自动展开插件列表",
            EText::ModelWhitelistUnlock => "模型白名单解锁",
            EText::ServiceTierControls => "服务档位控件",
            EText::ConversationAndInput => "对话与输入",
            EText::SessionDelete => "会话删除",
            EText::MarkdownExport => "Markdown 导出",
            EText::PasteFix => "纯文本粘贴修复",
            EText::ProjectMove => "跨项目移动会话",
            EText::ThreadIdBadge => "会话 ID 标识",
            EText::ConversationView => "对话居中宽度",
            EText::ThreadScrollRestore => "恢复会话滚动位置",
            EText::InterfaceAndStartup => "界面与启动",
            EText::PetRealMouseLook => "宠物跟随真实鼠标",
            EText::ForceChineseLocale => "强制中文界面",
            EText::FastStartup => "快速启动",
            EText::NativeMenuPlacement => "原生菜单位置",
            EText::NativeMenuLocalization => "原生菜单本地化",
            EText::RemoteProjects => "远程项目",
            EText::ZedRemoteOpen => "使用 Zed Remote 打开",
            EText::UpstreamWorktreeCreate => "创建 upstream worktree",
            EText::Save => "保存增强设置",
            EText::Reset => "重置增强设置",
            EText::DiscardChanges => "放弃更改",
            EText::Loading => "正在加载增强设置",
            EText::Conflict => "增强设置已在磁盘上更改",
            EText::ReloadCurrent => "重新加载当前设置",
            EText::Saved => "增强设置已保存",
            EText::Unsaved => "增强设置有未保存更改",
            EText::ResetTitle => "重置增强设置？",
            EText::ResetMessage => "仅增强功能组会恢复默认值。",
            EText::ConfirmReset => "重置",
            EText::Cancel => "取消",
            EText::ReadFailed => "无法读取增强设置",
            EText::WriteFailed => "无法保存增强设置",
            EText::InvalidRevision => "增强设置版本已失效，请重新加载",
            EText::ConfirmationRequired => "重置需要明确确认",
            EText::WorkerStopped => "增强设置后台服务已停止",
        },
        Locale::En => match key {
            EText::Enhancements => "Enhancements",
            EText::EnableEnhancements => "Enable enhancements",
            EText::ComputerUseGuard => "Computer Use Guard",
            EText::LaunchMode => "Launch mode",
            EText::FullEnhancements => "Full enhancements",
            EText::Compatibility => "Compatibility",
            EText::PluginsAndModels => "Plugins and models",
            EText::PluginMarketplaceUnlock => "Plugin marketplace unlock",
            EText::PluginAutoExpand => "Auto-expand plugin list",
            EText::ModelWhitelistUnlock => "Model whitelist unlock",
            EText::ServiceTierControls => "Service tier controls",
            EText::ConversationAndInput => "Conversation and input",
            EText::SessionDelete => "Session delete",
            EText::MarkdownExport => "Markdown export",
            EText::PasteFix => "Plain-text paste fix",
            EText::ProjectMove => "Move conversations between projects",
            EText::ThreadIdBadge => "Thread ID badge",
            EText::ConversationView => "Centered conversation view",
            EText::ThreadScrollRestore => "Restore thread scroll position",
            EText::InterfaceAndStartup => "Interface and startup",
            EText::PetRealMouseLook => "Pet follows real mouse",
            EText::ForceChineseLocale => "Force Chinese locale",
            EText::FastStartup => "Fast startup",
            EText::NativeMenuPlacement => "Native menu placement",
            EText::NativeMenuLocalization => "Native menu localization",
            EText::RemoteProjects => "Remote projects",
            EText::ZedRemoteOpen => "Open files in Zed Remote",
            EText::UpstreamWorktreeCreate => "Create upstream worktree",
            EText::Save => "Save enhancements",
            EText::Reset => "Reset enhancements",
            EText::DiscardChanges => "Discard changes",
            EText::Loading => "Loading enhancement settings",
            EText::Conflict => "Enhancement settings changed on disk",
            EText::ReloadCurrent => "Reload current settings",
            EText::Saved => "Enhancement settings saved",
            EText::Unsaved => "Enhancement settings have unsaved changes",
            EText::ResetTitle => "Reset enhancement settings?",
            EText::ResetMessage => "Only the enhancement settings group will return to defaults.",
            EText::ConfirmReset => "Reset",
            EText::Cancel => "Cancel",
            EText::ReadFailed => "Could not read enhancement settings",
            EText::WriteFailed => "Could not save enhancement settings",
            EText::InvalidRevision => "Enhancement settings revision expired; reload before saving",
            EText::ConfirmationRequired => "Reset requires confirmation",
            EText::WorkerStopped => "The enhancement settings worker has stopped",
        },
    }
}

/// The key of the text that names a failure.
pub open spec fn failure_key(kind: EnhancementFailureKind) -> EText {
    match kind {
        EnhancementFailureKind::SettingsReadFailed => EText::ReadFailed,
        EnhancementFailureKind::SettingsWriteFailed => EText::WriteFailed,
        EnhancementFailureKind::SettingsConflict => EText::Conflict,
        EnhancementFailureKind::InvalidRevision => EText::InvalidRevision,
        EnhancementFailureKind::ConfirmationRequired => EText::ConfirmationRequired,
        EnhancementFailureKind::WorkerStopped => EText::WorkerStopped,
    }
}

/// The text that names a failure in a language.
pub fn failure_text(locale: Locale, kind: EnhancementFailureKind) -> (text: &'static str)
    ensures
        text@ == etext_spec(locale, failure_key(kind)),
{
    match kind {
        EnhancementFailureKind::SettingsReadFailed => etext(locale, EText::ReadFailed),
        EnhancementFailureKind::SettingsWriteFailed => etext(locale, EText::WriteFailed),
        EnhancementFailureKind::SettingsConflict => etext(locale, EText::Conflict),
        EnhancementFailureKind::InvalidRevision => etext(locale, EText::InvalidRevision),
        EnhancementFailureKind::ConfirmationRequired => etext(locale, EText::ConfirmationRequired),
        EnhancementFailureKind::WorkerStopped => etext(locale, EText::WorkerStopped),
    }
}

/// Every enhancements page text is visible in both languages.
pub proof fn law_every_enhancement_text_is_visible(key: EText)
    ensures
        has_visible_text(etext_zh(key)),
        has_visible_text(etext_en(key)),
{
    match key {
        EText::Enhancements => {
            reveal_strlit("增强功能");
            reveal_strlit("Enhancements");
            assert(!is_white_space("增强功能"@[0]));
            assert(!is_white_space("Enhancements"@[0]));
        },
        EText::EnableEnhancements => {
            reveal_strlit("启用增强功能");
            reveal_strlit("Enable enhancements");
            assert(!is_white_space("启用增强功能"@[0]));
            assert(!is_white_space("Enable enhancements"@[0]));
        },
        EText::ComputerUseGuard => {
            reveal_strlit("Computer Use Guard");
            reveal_strlit("Computer Use Guard");
            assert(!is_white_space("Computer Use Guard"@[0]));
            assert(!is_white_space("Computer Use Guard"@[0]));
        },
        EText::LaunchMode => {
            reveal_strlit("启动模式");
            reveal_strlit("Launch mode");
            assert(!is_white_space("启动模式"@[0]));
            assert(!is_white_space("Launch mode"@[0]));
        },
        EText::FullEnhancements => {
            reveal_strlit("完整增强");
            reveal_strlit("Full enhancements");
            assert(!is_white_space("完整增强"@[0]));
            assert(!is_white_space("Full enhancements"@[0]));
        },
        EText::Compatibility => {
            reveal_strlit("兼容增强");
            reveal_strlit("Compatibility");
            assert(!is_white_space("兼容增强"@[0]));
            assert(!is_white_space("Compatibility"@[0]));
        },
        EText::PluginsAndModels => {
            reveal_strlit("插件与模型");
            reveal_strlit("Plugins and models");
            assert(!is_white_space("插件与模型"@[0]));
            assert(!is_white_space("Plugins and models"@[0]));
        },
        EText::PluginMarketplaceUnlock => {
            reveal_strlit("插件市场解锁");
            reveal_strlit("Plugin marketplace unlock");
            assert(!is_white_space("插件市场解锁"@[0]));
            assert(!is_white_space("Plugin marketplace unlock"@[0]));
        },
        EText::PluginAutoExpand => {
            reveal_strlit("自动展开插件列表");
            reveal_strlit("Auto-expand plugin list");
            assert(!is_white_space("自动展开插件列表"@[0]));
            assert(!is_white_space("Auto-expand plugin list"@[0]));
        },
        EText::ModelWhitelistUnlock => {
            reveal_strlit("模型白名单解锁");
            reveal_strlit("Model whitelist unlock");
            assert(!is_white_space("模型白名单解锁"@[0]));
            assert(!is_white_space("Model whitelist unlock"@[0]));
        },
        EText::ServiceTierControls => {
            reveal_strlit("服务档位控件");
            reveal_strlit("Service tier controls");
            assert(!is_white_space("服务档位控件"@[0]));
            assert(!is_white_space("Service tier controls"@[0]));
        },
        EText::ConversationAndInput => {
            reveal_strlit("对话与输入");
            reveal_strlit("Conversation and input");
            assert(!is_white_space("对话与输入"@[0]));
            assert(!is_white_space("Conversation and input"@[0]));
        },
        EText::SessionDelete => {
            reveal_strlit("会话删除");
            reveal_strlit("Session delete");
            assert(!is_white_space("会话删除"@[0]));
            assert(!is_white_space("Session delete"@[0]));
        },
        EText::MarkdownExport => {
            reveal_strlit("Markdown 导出");
            reveal_strlit("Markdown export");
            assert(!is_white_space("Markdown 导出"@[0]));
            assert(!is_white_space("Markdown export"@[0]));
        },
        EText::PasteFix => {
            reveal_strlit("纯文本粘贴修复");
            reveal_strlit("Plain-text paste fix");
            assert(!is_white_space("纯文本粘贴修复"@[0]));
            assert(!is_white_space("Plain-text paste fix"@[0]));
        },
        EText::ProjectMove => {
            reveal_strlit("跨项目移动会话");
            reveal_strlit("Move conversations between projects");
            assert(!is_white_space("跨项目移动会话"@[0]));
            assert(!is_white_space("Move conversations between projects"@[0]));
        },
        EText::ThreadIdBadge => {
            reveal_strlit("会话 ID 标识");
            reveal_strlit("Thread ID badge");
            assert(!is_white_space("会话 ID 标识"@[0]));
            assert(!is_white_space("Thread ID badge"@[0]));
        },
        EText::ConversationView => {
            reveal_strlit("对话居中宽度");
            reveal_strlit("Centered conversation view");
            assert(!is_white_space("对话居中宽度"@[0]));
            assert(!is_white_space("Centered conversation view"@[0]));
        },
        EText::ThreadScrollRestore => {
            reveal_strlit("恢复会话滚动位置");
            reveal_strlit("Restore thread scroll position");
            assert(!is_white_space("恢复会话滚动位置"@[0]));
            assert(!is_white_space("Restore thread scroll position"@[0]));
        },
        EText::InterfaceAndStartup => {
            reveal_strlit("界面与启动");
            reveal_strlit("Interface and startup");
            assert(!is_white_space("界面与启动"@[0]));
            assert(!is_white_space("Interface and startup"@[0]));
        },
        EText::PetRealMouseLook => {
            reveal_strlit("宠物跟随真实鼠标");
            reveal_strlit("Pet follows real mouse");
            assert(!is_white_space("宠物跟随真实鼠标"@[0]));
            assert(!is_white_space("Pet follows real mouse"@[0]));
        },
        EText::ForceChineseLocale => {
            reveal_strlit("强制中文界面");
            reveal_strlit("Force Chinese locale");
            assert(!is_white_space("强制中文界面"@[0]));
            assert(!is_white_space("Force Chinese locale"@[0]));
        },
        EText::FastStartup => {
            reveal_strlit("快速启动");
            reveal_strlit("Fast startup");
            assert(!is_white_space("快速启动"@[0]));
            assert(!is_white_space("Fast startup"@[0]));
        },
        EText::NativeMenuPlacement => {
            reveal_strlit("原生菜单位置");
            reveal_strlit("Native menu placement");
            assert(!is_white_space("原生菜单位置"@[0]));
            assert(!is_white_space("Native menu placement"@[0]));
        },
        EText::NativeMenuLocalization => {
            reveal_strlit("原生菜单本地化");
            reveal_strlit("Native menu localization");
            assert(!is_white_space("原生菜单本地化"@[0]));
            assert(!is_white_space("Native menu localization"@[0]));
        },
        EText::RemoteProjects => {
            reveal_strlit("远程项目");
            reveal_strlit("Remote projects");
            assert(!is_white_space("远程项目"@[0]));
            assert(!is_white_space("Remote projects"@[0]));
        },
        EText::ZedRemoteOpen => {
            reveal_strlit("使用 Zed Remote 打开");
            reveal_strlit("Open files in Zed Remote");
            assert(!is_white_space("使用 Zed Remote 打开"@[0]));
            assert(!is_white_space("Open files in Zed Remote"@[0]));
        },
        EText::UpstreamWorktreeCreate => {
            reveal_strlit("创建 upstream worktree");
            reveal_strlit("Create upstream worktree");
            assert(!is_white_space("创建 upstream worktree"@[0]));
            assert(!is_white_space("Create upstream worktree"@[0]));
        },
        EText::Save => {
            reveal_strlit("保存增强设置");
            reveal_strlit("Save enhancements");
            assert(!is_white_space("保存增强设置"@[0]));
            assert(!is_white_space("Save enhancements"@[0]));
        },
        EText::Reset => {
            reveal_strlit("重置增强设置");
            reveal_strlit("Reset enhancements");
            assert(!is_white_space("重置增强设置"@[0]));
            assert(!is_white_space("Reset enhancements"@[0]));
        },
        EText::DiscardChanges => {
            reveal_strlit("放弃更改");
            reveal_strlit("Discard changes");
            assert(!is_white_space("放弃更改"@[0]));
            assert(!is_white_space("Discard changes"@[0]));
        },
        EText::Loading => {
            reveal_strlit("正在加载增强设置");
            reveal_strlit("Loading enhancement settings");
            assert(!is_white_space("正在加载增强设置"@[0]));
            assert(!is_white_space("Loading enhancement settings"@[0]));
        },
        EText::Conflict => {
            reveal_strlit("增强设置已在磁盘上更改");
            reveal_strlit("Enhancement settings changed on disk");
            assert(!is_white_space("增强设置已在磁盘上更改"@[0]));
            assert(!is_white_space("Enhancement settings changed on disk"@[0]));
        },
        EText::ReloadCurrent => {
            reveal_strlit("重新加载当前设置");
            reveal_strlit("Reload current settings");
            assert(!is_white_space("重新加载当前设置"@[0]));
            assert(!is_white_space("Reload current settings"@[0]));
        },
        EText::Saved => {
            reveal_strlit("增强设置已保存");
            reveal_strlit("Enhancement settings saved");
            assert(!is_white_space("增强设置已保存"@[0]));
            assert(!is_white_space("Enhancement settings saved"@[0]));
        },
        EText::Unsaved => {
            reveal_strlit("增强设置有未保存更改");
            reveal_strlit("Enhancement settings have unsaved changes");
            assert(!is_white_space("增强设置有未保存更改"@[0]));
            assert(!is_white_space("Enhancement settings have unsaved changes"@[0]));
        },
        EText::ResetTitle => {
            reveal_strlit("重置增强设置？");
            reveal_strlit("Reset enhancement settings?");
            assert(!is_white_space("重置增强设置？"@[0]));
            assert(!is_white_space("Reset enhancement settings?"@[0]));
        },
        EText::ResetMessage => {
            reveal_strlit("仅增强功能组会恢复默认值。");
            reveal_strlit("Only the enhancement settings group will return to defaults.");
            assert(!is_white_space("仅增强功能组会恢复默认值。"@[0]));
            assert(!is_white_space("Only the enhancement settings group will return to defaults."@[0]));
        },
        EText::ConfirmReset => {
            reveal_strlit("重置");
            reveal_strlit("Reset");
            assert(!is_white_space("重置"@[0]));
            assert(!is_white_space("Reset"@[0]));
        },
        EText::Cancel => {
            reveal_strlit("取消");
            reveal_strlit("Cancel");
            assert(!is_white_space("取消"@[0]));
            assert(!is_white_space("Cancel"@[0]));
        },
        EText::ReadFailed => {
            reveal_strlit("无法读取增强设置");
            reveal_strlit("Could not read enhancement settings");
            assert(!is_white_space("无法读取增强设置"@[0]));
            assert(!is_white_space("Could not read enhancement settings"@[0]));
        },
        EText::WriteFailed => {
            reveal_strlit("无法保存增强设置");
            reveal_strlit("Could not save enhancement settings");
            assert(!is_white_space("无法保存增强设置"@[0]));
            assert(!is_white_space("Could not save enhancement settings"@[0]));
        },
        EText::InvalidRevision => {
            reveal_strlit("增强设置版本已失效，请重新加载");
            reveal_strlit("Enhancement settings revision expired; reload before saving");
            assert(!is_white_space("增强设置版本已失效，请重新加载"@[0]));
            assert(!is_white_space("Enhancement settings revision expired; reload before saving"@[0]));
        },
        EText::ConfirmationRequired => {
            reveal_strlit("重置需要明确确认");
            reveal_strlit("Reset requires confirmation");
            assert(!is_white_space("重置需要明确确认"@[0]));
            assert(!is_white_space("Reset requires confirmation"@[0]));
        },
        EText::WorkerStopped => {
            reveal_strlit("增强设置后台服务已停止");
            reveal_strlit("The enhancement settings worker has stopped");
            assert(!is_white_space("增强设置后台服务已停止"@[0]));
            assert(!is_white_space("The enhancement settings worker has stopped"@[0]));
        },
    }
}

} // verus!
