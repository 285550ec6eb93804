use vstd::prelude::*;

use crate::i18n::{has_visible_text, is_white_space, Locale};
use crate::provider_edit::{
    AggregateRelayStrategy, ProviderSaveFailureKind, RelayMode, RelayModelInsertMode,
    RelayProtocol,
};

verus! {

/// The texts of the provider page.
#[derive(Debug, Clone, Copy, PartialEq, Eq, Structural)]
pub enum PText {
    ProviderList,
    ProviderEditor,
    CollapseList,
    ExpandList,
    AddProvider,
    AddAggregate,
    Duplicate,
    MoveUp,
    MoveDown,
    DeleteProvider,
    General,
    Models,
    Config,
    Diagnostics,
    Routing,
    Live,
    LiveStatus,
    Configured,
    NotConfigured,
    Authenticated,
    NotAuthenticated,
    RefreshLive,
    ActivateProvider,
    ReapplyProvider,
    BackfillProvider,
    ClearLive,
    LiveConfigHidden,
    LiveAuthHidden,
    RevealLiveConfig,
    RevealLiveAuth,
    HideLiveConfig,
    HideLiveAuth,
    EditLiveConfig,
    EditLiveAuth,
    SaveLiveConfig,
    SaveLiveAuth,
    CancelLiveConfig,
    CancelLiveAuth,
    ConfirmLiveTitle,
    ConfirmLiveNow,
    CancelLiveChange,
    LiveMutationFailed,
    RollbackVerified,
    RollbackFailed,
    RollbackNotRequired,
    BackupPath,
    SaveChanges,
    DiscardChanges,
    LoadingProviders,
    LoadError,
    RetryProviderLoad,
    Active,
    Ordinary,
    Aggregate,
    Presets,
    PresetSearch,
    Name,
    Mode,
    Official,
    MixedApi,
    PureApi,
    Protocol,
    Responses,
    ChatCompletions,
    BaseUrl,
    ApiKey,
    ShowSecret,
    HideSecret,
    Model,
    TestModel,
    UseCommonConfig,
    ContextWindow,
    CompactLimit,
    InsertMode,
    Patch,
    ModelCatalog,
    UserAgent,
    ModelName,
    Window,
    AddModel,
    RemoveModel,
    DiscoverModels,
    MergeModels,
    ConfigToml,
    AuthJson,
    Hidden,
    Reveal,
    Hide,
    TestConnection,
    FetchModels,
    RunDiagnostics,
    Idle,
    Running,
    Success,
    Failed,
    Strategy,
    Failover,
    ConversationRoundRobin,
    RequestRoundRobin,
    WeightedRoundRobin,
    Weight,
    Unsaved,
    Saved,
    GuardTitle,
    GuardMessage,
    Stay,
    SaveAndContinue,
    DiscardAndContinue,
    NoProfile,
    DeleteTitle,
    DeleteMessage,
    Cancel,
    ConfirmDelete,
    SaveConflict,
    SaveValidation,
    SaveFailed,
    SaveWorkerStopped,
}

/// The Chinese text of a key.
pub open spec fn ptext_zh(key: PText) -> Seq<char> {
    match key {
        PText::ProviderList => "供应商列表"@,
        PText::ProviderEditor => "供应商编辑器"@,
        PText::CollapseList => "收起供应商列表"@,
        PText::ExpandList => "展开供应商列表"@,
        PText::AddProvider => "添加供应商"@,
        PText::AddAggregate => "添加聚合配置"@,
        PText::Duplicate => "复制供应商"@,
        PText::MoveUp => "上移"@,
        PText::MoveDown => "下移"@,
        PText::DeleteProvider => "删除供应商"@,
        PText::General => "常规"@,
        PText::Models => "模型"@,
        PText::Config => "配置"@,
        PText::Diagnostics => "诊断"@,
        PText::Routing => "路由"@,
        PText::Live => "实时文件"@,
        PText::LiveStatus => "实时状态"@,
        PText::Configured => "已配置"@,
        PText::NotConfigured => "未配置"@,
        PText::Authenticated => "已认证"@,
        PText::NotAuthenticated => "未认证"@,
        PText::RefreshLive => "刷新实时状态"@,
        PText::ActivateProvider => "启用供应商"@,
        PText::ReapplyProvider => "重新应用当前供应商"@,
        PText::BackfillProvider => "从实时文件回填"@,
        PText::ClearLive => "清理实时配置"@,
        PText::LiveConfigHidden => "实时 config 已隐藏"@,
        PText::LiveAuthHidden => "实时 auth 已隐藏"@,
        PText::RevealLiveConfig => "显示实时 config"@,
        PText::RevealLiveAuth => "显示实时 auth"@,
        PText::HideLiveConfig => "隐藏实时 config"@,
        PText::HideLiveAuth => "隐藏实时 auth"@,
        PText::EditLiveConfig => "编辑实时 config"@,
        PText::EditLiveAuth => "编辑实时 auth"@,
        PText::SaveLiveConfig => "保存实时 config"@,
        PText::SaveLiveAuth => "保存实时 auth"@,
        PText::CancelLiveConfig => "取消编辑实时 config"@,
        PText::CancelLiveAuth => "取消编辑实时 auth"@,
        PText::ConfirmLiveTitle => "确认实时变更"@,
        PText::ConfirmLiveNow => "立即确认实时变更"@,
        PText::CancelLiveChange => "取消实时变更"@,
        PText::LiveMutationFailed => "实时变更失败"@,
        PText::RollbackVerified => "回滚已验证"@,
        PText::RollbackFailed => "回滚失败"@,
        PText::RollbackNotRequired => "无需回滚"@,
        PText::BackupPath => "备份路径"@,
        PText::SaveChanges => "保存更改"@,
        PText::DiscardChanges => "放弃更改"@,
        PText::LoadingProviders => "正在加载供应商..."@,
        PText::LoadError => "无法加载供应商。"@,
        PText::RetryProviderLoad => "重试加载供应商"@,
        PText::Active => "当前启用"@,
        PText::Ordinary => "普通供应商"@,
        PText::Aggregate => "聚合供应商"@,
        PText::Presets => "预设"@,
        PText::PresetSearch => "搜索预设"@,
        PText::Name => "名称"@,
        PText::Mode => "模式"@,
        PText::Official => "官方"@,
        PText::MixedApi => "混合 API"@,
        PText::PureApi => "纯 API"@,
        PText::Protocol => "协议"@,
        PText::Responses => "Responses"@,
        PText::ChatCompletions => "Chat Completions"@,
        PText::BaseUrl => "基础 URL"@,
        PText::ApiKey => "API 密钥"@,
        PText::ShowSecret => "显示密钥"@,
        PText::HideSecret => "隐藏密钥"@,
        PText::Model => "默认模型"@,
        PText::TestModel => "测试模型"@,
        PText::UseCommonConfig => "使用公共配置"@,
        PText::ContextWindow => "上下文窗口"@,
        PText::CompactLimit => "自动压缩阈值"@,
        PText::InsertMode => "模型写入模式"@,
        PText::Patch => "补丁"@,
        PText::ModelCatalog => "模型目录"@,
        PText::UserAgent => "用户代理"@,
        PText::ModelName => "模型名称"@,
        PText::Window => "窗口"@,
        PText::AddModel => "添加模型"@,
        PText::RemoveModel => "删除模型"@,
        PText::DiscoverModels => "获取模型"@,
        PText::MergeModels => "合并已获取模型"@,
        PText::ConfigToml => "config.toml 内容"@,
        PText::AuthJson => "auth.json 内容"@,
        PText::Hidden => "内容已隐藏"@,
        PText::Reveal => "显示内容"@,
        PText::Hide => "隐藏内容"@,
        PText::TestConnection => "测试连接"@,
        PText::FetchModels => "获取模型"@,
        PText::RunDiagnostics => "运行诊断"@,
        PText::Idle => "尚未运行"@,
        PText::Running => "运行中"@,
        PText::Success => "成功"@,
        PText::Failed => "失败"@,
        PText::Strategy => "策略"@,
        PText::Failover => "故障转移"@,
        PText::ConversationRoundRobin => "按会话轮询"@,
        PText::RequestRoundRobin => "按请求轮询"@,
        PText::WeightedRoundRobin => "加权轮询"@,
        PText::Weight => "权重"@,
        PText::Unsaved => "有未保存更改"@,
        PText::Saved => "已保存"@,
        PText::GuardTitle => "未保存的更改"@,
        PText::GuardMessage => "保存或放弃更改后再继续。"@,
        PText::Stay => "留在此处"@,
        PText::SaveAndContinue => "保存并继续"@,
        PText::DiscardAndContinue => "放弃并继续"@,
        PText::NoProfile => "没有可编辑的供应商"@,
        PText::DeleteTitle => "确认删除"@,
        PText::DeleteMessage => "此供应商被聚合配置引用。删除后将同时移除这些引用。"@,
        PText::Cancel => "取消"@,
        PText::ConfirmDelete => "确认删除"@,
        PText::SaveConflict => "供应商配置已在磁盘上更改，请重新加载后再保存。"@,
        PText::SaveValidation => "供应商配置未通过校验，请检查当前字段。"@,
        PText::SaveFailed => "无法保存供应商配置。"@,
        PText::SaveWorkerStopped => "供应商后台服务已停止。"@,
    }
}

/// The English text of a key.
pub open spec fn ptext_en(key: PText) -> Seq<char> {
    match key {
        PText::ProviderList => "Provider list"@,
        PText::ProviderEditor => "Provider editor"@,
        PText::CollapseList => "Collapse provider list"@,
        PText::ExpandList => "Expand provider list"@,
        PText::AddProvider => "Add provider"@,
        PText::AddAggregate => "Add aggregate"@,
        PText::Duplicate => "Duplicate provider"@,
        PText::MoveUp => "Move up"@,
        PText::MoveDown => "Move down"@,
        PText::DeleteProvider => "Delete provider"@,
        PText::General => "General"@,
        PText::Models => "Models"@,
        PText::Config => "Config"@,
        PText::Diagnostics => "Diagnostics"@,
        PText::Routing => "Routing"@,
        PText::Live => "Live"@,
        PText::LiveStatus => "Live status"@,
        PText::Configured => "Configured"@,
        PText::NotConfigured => "Not configured"@,
        PText::Authenticated => "Authenticated"@,
        PText::NotAuthenticated => "Not authenticated"@,
        PText::RefreshLive => "Refresh live status"@,
        PText::ActivateProvider => "Activate provider"@,
        PText::ReapplyProvider => "Reapply active provider"@,
        PText::BackfillProvider => "Backfill active provider"@,
        PText::ClearLive => "Clear live configuration"@,
        PText::LiveConfigHidden => "Live config hidden"@,
        PText::LiveAuthHidden => "Live auth hidden"@,
        PText::RevealLiveConfig => "Reveal live config"@,
        PText::RevealLiveAuth => "Reveal live auth"@,
        PText::HideLiveConfig => "Hide live config"@,
        PText::HideLiveAuth => "Hide live auth"@,
        PText::EditLiveConfig => "Edit live config"@,
        PText::EditLiveAuth => "Edit live auth"@,
        PText::SaveLiveConfig => "Save live config"@,
        PText::SaveLiveAuth => "Save live auth"@,
        PText::CancelLiveConfig => "Cancel live config"@,
        PText::CancelLiveAuth => "Cancel live auth"@,
        PText::ConfirmLiveTitle => "Confirm live change"@,
        PText::ConfirmLiveNow => "Confirm live change now"@,
        PText::CancelLiveChange => "Cancel live change"@,
        PText::LiveMutationFailed => "Live mutation failed"@,
        PText::RollbackVerified => "Rollback verified"@,
        PText::RollbackFailed => "Rollback failed"@,
        PText::RollbackNotRequired => "Rollback not required"@,
        PText::BackupPath => "Backup path"@,
        PText::SaveChanges => "Save changes"@,
        PText::DiscardChanges => "Discard changes"@,
        PText::LoadingProviders => "Loading providers..."@,
        PText::LoadError => "Unable to load providers."@,
        PText::RetryProviderLoad => "Retry provider load"@,
        PText::Active => "Active"@,
        PText::Ordinary => "Ordinary"@,
        PText::Aggregate => "Aggregate"@,
        PText::Presets => "Presets"@,
        PText::PresetSearch => "Search presets"@,
        PText::Name => "Name"@,
        PText::Mode => "Mode"@,
        PText::Official => "Official"@,
        PText::MixedApi => "Mixed API"@,
        PText::PureApi => "Pure API"@,
        PText::Protocol => "Protocol"@,
        PText::Responses => "Responses"@,
        PText::ChatCompletions => "Chat Completions"@,
        PText::BaseUrl => "Base URL"@,
        PText::ApiKey => "API key"@,
        PText::ShowSecret => "Show secret"@,
        PText::HideSecret => "Hide secret"@,
        PText::Model => "Model"@,
        PText::TestModel => "Test model"@,
        PText::UseCommonConfig => "Use common config"@,
        PText::ContextWindow => "Context window"@,
        PText::CompactLimit => "Auto compact limit"@,
        PText::InsertMode => "Model insert mode"@,
        PText::Patch => "Patch"@,
        PText::ModelCatalog => "Model catalog"@,
        PText::UserAgent => "User agent"@,
        PText::ModelName => "Model name"@,
        PText::Window => "Window"@,
        PText::AddModel => "Add model"@,
        PText::RemoveModel => "Remove model"@,
        PText::DiscoverModels => "Discover models"@,
        PText::MergeModels => "Merge discovered models"@,
        PText::ConfigToml => "config.toml contents"@,
        PText::AuthJson => "auth.json contents"@,
        PText::Hidden => "Contents hidden"@,
        PText::Reveal => "Reveal contents"@,
        PText::Hide => "Hide contents"@,
        PText::TestConnection => "Test connection"@,
        PText::FetchModels => "Fetch models"@,
        PText::RunDiagnostics => "Run diagnostics"@,
        PText::Idle => "Not run"@,
        PText::Running => "Running"@,
        PText::Success => "Success"@,
        PText::Failed => "Failed"@,
        PText::Strategy => "Strategy"@,
        PText::Failover => "Failover"@,
        PText::ConversationRoundRobin => "Conversation round robin"@,
        PText::RequestRoundRobin => "Request round robin"@,
        PText::WeightedRoundRobin => "Weighted round robin"@,
        PText::Weight => "Weight"@,
        PText::Unsaved => "Unsaved changes"@,
        PText::Saved => "Saved"@,
        PText::GuardTitle => "Unsaved changes"@,
        PText::GuardMessage => "Save or discard changes before continuing."@,
        PText::Stay => "Stay"@,
        PText::SaveAndContinue => "Save and continue"@,
        PText::DiscardAndContinue => "Discard and continue"@,
        PText::NoProfile => "No provider selected"@,
        PText::DeleteTitle => "Confirm deletion"@,
        PText::DeleteMessage => "This provider is referenced by aggregate routes. Deleting it also removes those references."@,
        PText::Cancel => "Cancel"@,
        PText::ConfirmDelete => "Delete provider and references"@,
        PText::SaveConflict => "Provider workspace changed on disk. Reload before saving again."@,
        PText::SaveValidation => "Provider validation failed. Review the current fields."@,
        PText::SaveFailed => "Unable to save provider workspace."@,
        PText::SaveWorkerStopped => "The provider background service has stopped."@,
    }
}

/// The text of a key in a language.
pub open spec fn ptext_spec(locale: Locale, key: PText) -> Seq<char> {
    match locale {
        Locale::ZhCn => ptext_zh(key),
        Locale::En => ptext_en(key),
    }
}

/// The text of a provider page key in a language.
pub fn ptext(locale: Locale, key: PText) -> (text: &'static str)
    ensures
        text@ == ptext_spec(locale, key),
{
    match locale {
        Locale::ZhCn => match key {
            PText::ProviderList => "供应商列表",
            PText::ProviderEditor => "供应商编辑器",
            PText::CollapseList => "收起供应商列表",
            PText::ExpandList => "展开供应商列表",
            PText::AddProvider => "添加供应商",
            PText::AddAggregate => "添加聚合配置",
            PText::Duplicate => "复制供应商",
            PText::MoveUp => "上移",
            PText::MoveDown => "下移",
            PText::DeleteProvider => "删除供应商",
            PText::General => "常规",
            PText::Models => "模型",
            PText::Config => "配置",
            PText::Diagnostics => "诊断",
            PText::Routing => "路由",
            PText::Live => "实时文件",
            PText::LiveStatus => "实时状态",
            PText::Configured => "已配置",
            PText::NotConfigured => "未配置",
            PText::Authenticated => "已认证",
            PText::NotAuthenticated => "未认证",
            PText::RefreshLive => "刷新实时状态",
            PText::ActivateProvider => "启用供应商",
            PText::ReapplyProvider => "重新应用当前供应商",
            PText::BackfillProvider => "从实时文件回填",
            PText::ClearLive => "清理实时配置",
            PText::LiveConfigHidden => "实时 config 已隐藏",
            PText::LiveAuthHidden => "实时 auth 已隐藏",
            PText::RevealLiveConfig => "显示实时 config",
            PText::RevealLiveAuth => "显示实时 auth",
            PText::HideLiveConfig => "隐藏实时 config",
            PText::HideLiveAuth => "隐藏实时 auth",
            PText::EditLiveConfig => "编辑实时 config",
            PText::EditLiveAuth => "编辑实时 auth",
            PText::SaveLiveConfig => "保存实时 config",
            PText::SaveLiveAuth => "保存实时 auth",
            PText::CancelLiveConfig => "取消编辑实时 config",
            PText::CancelLiveAuth => "取消编辑实时 auth",
            PText::ConfirmLiveTitle => "确认实时变更",
            PText::ConfirmLiveNow => "立即确认实时变更",
            PText::CancelLiveChange => "取消实时变更",
            PText::LiveMutationFailed => "实时变更失败",
            PText::RollbackVerified => "回滚已验证",
            PText::RollbackFailed => "回滚失败",
            PText::RollbackNotRequired => "无需回滚",
            PText::BackupPath => "备份路径",
            PText::SaveChanges => "保存更改",
            PText::DiscardChanges => "放弃更改",
            PText::LoadingProviders => "正在加载供应商...",
            PText::LoadError => "无法加载供应商。",
            PText::RetryProviderLoad => "重试加载供应商",
            PText::Active => "当前启用",
            PText::Ordinary => "普通供应商",
            PText::Aggregate => "聚合供应商",
            PText::Presets => "预设",
            PText::PresetSearch => "搜索预设",
            PText::Name => "名称",
            PText::Mode => "模式",
            PText::Official => "官方",
            PText::MixedApi => "混合 API",
            PText::PureApi => "纯 API",
            PText::Protocol => "协议",
            PText::Responses => "Responses",
            PText::ChatCompletions => "Chat Completions",
            PText::BaseUrl => "基础 URL",
            PText::ApiKey => "API 密钥",
            PText::ShowSecret => "显示密钥",
            PText::HideSecret => "隐藏密钥",
            PText::Model => "默认模型",
            PText::TestModel => "测试模型",
            PText::UseCommonConfig => "使用公共配置",
            PText::ContextWindow => "上下文窗口",
            PText::CompactLimit => "自动压缩阈值",
            PText::InsertMode => "模型写入模式",
            PText::Patch => "补丁",
            PText::ModelCatalog => "模型目录",
            PText::UserAgent => "用户代理",
            PText::ModelName => "模型名称",
            PText::Window => "窗口",
            PText::AddModel => "添加模型",
            PText::RemoveModel => "删除模型",
            PText::DiscoverModels => "获取模型",
            PText::MergeModels => "合并已获取模型",
            PText::ConfigToml => "config.toml 内容",
            PText::AuthJson => "auth.json 内容",
            PText::Hidden => "内容已隐藏",
            PText::Reveal => "显示内容",
            PText::Hide => "隐藏内容",
            PText::TestConnection => "测试连接",
            PText::FetchModels => "获取模型",
            PText::RunDiagnostics => "运行诊断",
            PText::Idle => "尚未运行",
            PText::Running => "运行中",
            PText::Success => "成功",
            PText::Failed => "失败",
            PText::Strategy => "策略",
            PText::Failover => "故障转移",
            PText::ConversationRoundRobin => "按会话轮询",
            PText::RequestRoundRobin => "按请求轮询",
            PText::WeightedRoundRobin => "加权轮询",
            PText::Weight => "权重",
            PText::Unsaved => "有未保存更改",
            PText::Saved => "已保存",
            PText::GuardTitle => "未保存的更改",
            PText::GuardMessage => "保存或放弃更改后再继续。",
            PText::Stay => "留在此处",
            PText::SaveAndContinue => "保存并继续",
            PText::DiscardAndContinue => "放弃并继续",
            PText::NoProfile => "没有可编辑的供应商",
            PText::DeleteTitle => "确认删除",
            PText::DeleteMessage => "此供应商被聚合配置引用。删除后将同时移除这些引用。",
            PText::Cancel => "取消",
            PText::ConfirmDelete => "确认删除",
            PText::SaveConflict => "供应商配置已在磁盘上更改，请重新加载后再保存。",
            PText::SaveValidation => "供应商配置未通过校验，请检查当前字段。",
            PText::SaveFailed => "无法保存供应商配置。",
            PText::SaveWorkerStopped => "供应商后台服务已停止。",
        },
        Locale::En => match key {
            PText::ProviderList => "Provider list",
            PText::ProviderEditor => "Provider editor",
            PText::CollapseList => "Collapse provider list",
            PText::ExpandList => "Expand provider list",
            PText::AddProvider => "Add provider",
            PText::AddAggregate => "Add aggregate",
            PText::Duplicate => "Duplicate provider",
            PText::MoveUp => "Move up",
            PText::MoveDown => "Move down",
            PText::DeleteProvider => "Delete provider",
            PText::General => "General",
            PText::Models => "Models",
            PText::Config => "Config",
            PText::Diagnostics => "Diagnostics",
            PText::Routing => "Routing",
            PText::Live => "Live",
            PText::LiveStatus => "Live status",
            PText::Configured => "Configured",
            PText::NotConfigured => "Not configured",
            PText::Authenticated => "Authenticated",
            PText::NotAuthenticated => "Not authenticated",
            PText::RefreshLive => "Refresh live status",
            PText::ActivateProvider => "Activate provider",
            PText::ReapplyProvider => "Reapply active provider",
            PText::BackfillProvider => "Backfill active provider",
            PText::ClearLive => "Clear live configuration",
            PText::LiveConfigHidden => "Live config hidden",
            PText::LiveAuthHidden => "Live auth hidden",
            PText::RevealLiveConfig => "Reveal live config",
            PText::RevealLiveAuth => "Reveal live auth",
            PText::HideLiveConfig => "Hide live config",
            PText::HideLiveAuth => "Hide live auth",
            PText::EditLiveConfig => "Edit live config",
            PText::EditLiveAuth => "Edit live auth",
            PText::SaveLiveConfig => "Save live config",
            PText::SaveLiveAuth => "Save live auth",
            PText::CancelLiveConfig => "Cancel live config",
            PText::CancelLiveAuth => "Cancel live auth",
            PText::ConfirmLiveTitle => "Confirm live change",
            PText::ConfirmLiveNow => "Confirm live change now",
            PText::CancelLiveChange => "Cancel live change",
            PText::LiveMutationFailed => "Live mutation failed",
            PText::RollbackVerified => "Rollback verified",
            PText::RollbackFailed => "Rollback failed",
            PText::RollbackNotRequired => "Rollback not required",
            PText::BackupPath => "Backup path",
            PText::SaveChanges => "Save changes",
            PText::DiscardChanges => "Discard changes",
            PText::LoadingProviders => "Loading providers...",
            PText::LoadError => "Unable to load providers.",
            PText::RetryProviderLoad => "Retry provider load",
            PText::Active => "Active",
            PText::Ordinary => "Ordinary",
            PText::Aggregate => "Aggregate",
            PText::Presets => "Presets",
            PText::PresetSearch => "Search presets",
            PText::Name => "Name",
            PText::Mode => "Mode",
            PText::Official => "Official",
            PText::MixedApi => "Mixed API",
            PText::PureApi => "Pure API",
            PText::Protocol => "Protocol",
            PText::Responses => "Responses",
            PText::ChatCompletions => "Chat Completions",
            PText::BaseUrl => "Base URL",
            PText::ApiKey => "API key",
            PText::ShowSecret => "Show secret",
            PText::HideSecret => "Hide secret",
            PText::Model => "Model",
            PText::TestModel => "Test model",
            PText::UseCommonConfig => "Use common config",
            PText::ContextWindow => "Context window",
            PText::CompactLimit => "Auto compact limit",
            PText::InsertMode => "Model insert mode",
            PText::Patch => "Patch",
            PText::ModelCatalog => "Model catalog",
            PText::UserAgent => "User agent",
            PText::ModelName => "Model name",
            PText::Window => "Window",
            PText::AddModel => "Add model",
            PText::RemoveModel => "Remove model",
            PText::DiscoverModels => "Discover models",
            PText::MergeModels => "Merge discovered models",
            PText::ConfigToml => "config.toml contents",
            PText::AuthJson => "auth.json contents",
            PText::Hidden => "Contents hidden",
            PText::Reveal => "Reveal contents",
            PText::Hide => "Hide contents",
            PText::TestConnection => "Test connection",
            PText::FetchModels => "Fetch models",
            PText::RunDiagnostics => "Run diagnostics",
            PText::Idle => "Not run",
            PText::Running => "Running",
            PText::Success => "Success",
            PText::Failed => "Failed",
            PText::Strategy => "Strategy",
            PText::Failover => "Failover",
            PText::ConversationRoundRobin => "Conversation round robin",
            PText::RequestRoundRobin => "Request round robin",
            PText::WeightedRoundRobin => "Weighted round robin",
            PText::Weight => "Weight",
            PText::Unsaved => "Unsaved changes",
            PText::Saved => "Saved",
            PText::GuardTitle => "Unsaved changes",
            PText::GuardMessage => "Save or discard changes before continuing.",
            PText::Stay => "Stay",
            PText::SaveAndContinue => "Save and continue",
            PText::DiscardAndContinue => "Discard and continue",
            PText::NoProfile => "No provider selected",
            PText::DeleteTitle => "Confirm deletion",
            PText::DeleteMessage => "This provider is referenced by aggregate routes. Deleting it also removes those references.",
            PText::Cancel => "Cancel",
            PText::ConfirmDelete => "Delete provider and references",
            PText::SaveConflict => "Provider workspace changed on disk. Reload before saving again.",
            PText::SaveValidation => "Provider validation failed. Review the current fields.",
            PText::SaveFailed => "Unable to save provider workspace.",
            PText::SaveWorkerStopped => "The provider background service has stopped.",
        },
    }
}

/// Every provider page text is visible in both languages.
pub proof fn law_every_provider_text_is_visible(key: PText)
    ensures
        has_visible_text(ptext_zh(key)),
        has_visible_text(ptext_en(key)),
{
    match key {
        PText::ProviderList => {
            reveal_strlit("供应商列表");
            reveal_strlit("Provider list");
            assert(!is_white_space("供应商列表"@[0]));
            assert(!is_white_space("Provider list"@[0]));
        },
        PText::ProviderEditor => {
            reveal_strlit("供应商编辑器");
            reveal_strlit("Provider editor");
            assert(!is_white_space("供应商编辑器"@[0]));
            assert(!is_white_space("Provider editor"@[0]));
        },
        PText::CollapseList => {
            reveal_strlit("收起供应商列表");
            reveal_strlit("Collapse provider list");
            assert(!is_white_space("收起供应商列表"@[0]));
            assert(!is_white_space("Collapse provider list"@[0]));
        },
        PText::ExpandList => {
            reveal_strlit("展开供应商列表");
            reveal_strlit("Expand provider list");
            assert(!is_white_space("展开供应商列表"@[0]));
            assert(!is_white_space("Expand provider list"@[0]));
        },
        PText::AddProvider => {
            reveal_strlit("添加供应商");
            reveal_strlit("Add provider");
            assert(!is_white_space("添加供应商"@[0]));
            assert(!is_white_space("Add provider"@[0]));
        },
        PText::AddAggregate => {
            reveal_strlit("添加聚合配置");
            reveal_strlit("Add aggregate");
            assert(!is_white_space("添加聚合配置"@[0]));
            assert(!is_white_space("Add aggregate"@[0]));
        },
        PText::Duplicate => {
            reveal_strlit("复制供应商");
            reveal_strlit("Duplicate provider");
            assert(!is_white_space("复制供应商"@[0]));
            assert(!is_white_space("Duplicate provider"@[0]));
        },
        PText::MoveUp => {
            reveal_strlit("上移");
            reveal_strlit("Move up");
            assert(!is_white_space("上移"@[0]));
            assert(!is_white_space("Move up"@[0]));
        },
        PText::MoveDown => {
            reveal_strlit("下移");
            reveal_strlit("Move down");
            assert(!is_white_space("下移"@[0]));
            assert(!is_white_space("Move down"@[0]));
        },
        PText::DeleteProvider => {
            reveal_strlit("删除供应商");
            reveal_strlit("Delete provider");
            assert(!is_white_space("删除供应商"@[0]));
            assert(!is_white_space("Delete provider"@[0]));
        },
        PText::General => {
            reveal_strlit("常规");
            reveal_strlit("General");
            assert(!is_white_space("常规"@[0]));
            assert(!is_white_space("General"@[0]));
        },
        PText::Models => {
            reveal_strlit("模型");
            reveal_strlit("Models");
            assert(!is_white_space("模型"@[0]));
            assert(!is_white_space("Models"@[0]));
        },
        PText::Config => {
            reveal_strlit("配置");
            reveal_strlit("Config");
            assert(!is_white_space("配置"@[0]));
            assert(!is_white_space("Config"@[0]));
        },
        PText::Diagnostics => {
            reveal_strlit("诊断");
            reveal_strlit("Diagnostics");
            assert(!is_white_space("诊断"@[0]));
            assert(!is_white_space("Diagnostics"@[0]));
        },
        PText::Routing => {
            reveal_strlit("路由");
            reveal_strlit("Routing");
            assert(!is_white_space("路由"@[0]));
            assert(!is_white_space("Routing"@[0]));
        },
        PText::Live => {
            reveal_strlit("实时文件");
            reveal_strlit("Live");
            assert(!is_white_space("实时文件"@[0]));
            assert(!is_white_space("Live"@[0]));
        },
        PText::LiveStatus => {
            reveal_strlit("实时状态");
            reveal_strlit("Live status");
            assert(!is_white_space("实时状态"@[0]));
            assert(!is_white_space("Live status"@[0]));
        },
        PText::Configured => {
            reveal_strlit("已配置");
            reveal_strlit("Configured");
            assert(!is_white_space("已配置"@[0]));
            assert(!is_white_space("Configured"@[0]));
        },
        PText::NotConfigured => {
            reveal_strlit("未配置");
            reveal_strlit("Not configured");
            assert(!is_white_space("未配置"@[0]));
            assert(!is_white_space("Not configured"@[0]));
        },
        PText::Authenticated => {
            reveal_strlit("已认证");
            reveal_strlit("Authenticated");
            assert(!is_white_space("已认证"@[0]));
            assert(!is_white_space("Authenticated"@[0]));
        },
        PText::NotAuthenticated => {
            reveal_strlit("未认证");
            reveal_strlit("Not authenticated");
            assert(!is_white_space("未认证"@[0]));
            assert(!is_white_space("Not authenticated"@[0]));
        },
        PText::RefreshLive => {
            reveal_strlit("刷新实时状态");
            reveal_strlit("Refresh live status");
            assert(!is_white_space("刷新实时状态"@[0]));
            assert(!is_white_space("Refresh live status"@[0]));
        },
        PText::ActivateProvider => {
            reveal_strlit("启用供应商");
            reveal_strlit("Activate provider");
            assert(!is_white_space("启用供应商"@[0]));
            assert(!is_white_space("Activate provider"@[0]));
        },
        PText::ReapplyProvider => {
            reveal_strlit("重新应用当前供应商");
            reveal_strlit("Reapply active provider");
            assert(!is_white_space("重新应用当前供应商"@[0]));
            assert(!is_white_space("Reapply active provider"@[0]));
        },
        PText::BackfillProvider => {
            reveal_strlit("从实时文件回填");
            reveal_strlit("Backfill active provider");
            assert(!is_white_space("从实时文件回填"@[0]));
            assert(!is_white_space("Backfill active provider"@[0]));
        },
        PText::ClearLive => {
            reveal_strlit("清理实时配置");
            reveal_strlit("Clear live configuration");
            assert(!is_white_space("清理实时配置"@[0]));
            assert(!is_white_space("Clear live configuration"@[0]));
        },
        PText::LiveConfigHidden => {
            reveal_strlit("实时 config 已隐藏");
            reveal_strlit("Live config hidden");
            assert(!is_white_space("实时 config 已隐藏"@[0]));
            assert(!is_white_space("Live config hidden"@[0]));
        },
        PText::LiveAuthHidden => {
            reveal_strlit("实时 auth 已隐藏");
            reveal_strlit("Live auth hidden");
            assert(!is_white_space("实时 auth 已隐藏"@[0]));
            assert(!is_white_space("Live auth hidden"@[0]));
        },
        PText::RevealLiveConfig => {
            reveal_strlit("显示实时 config");
            reveal_strlit("Reveal live config");
            assert(!is_white_space("显示实时 config"@[0]));
            assert(!is_white_space("Reveal live config"@[0]));
        },
        PText::RevealLiveAuth => {
            reveal_strlit("显示实时 auth");
            reveal_strlit("Reveal live auth");
            assert(!is_white_space("显示实时 auth"@[0]));
            assert(!is_white_space("Reveal live auth"@[0]));
        },
        PText::HideLiveConfig => {
            reveal_strlit("隐藏实时 config");
            reveal_strlit("Hide live config");
            assert(!is_white_space("隐藏实时 config"@[0]));
            assert(!is_white_space("Hide live config"@[0]));
        },
        PText::HideLiveAuth => {
            reveal_strlit("隐藏实时 auth");
            reveal_strlit("Hide live auth");
            assert(!is_white_space("隐藏实时 auth"@[0]));
            assert(!is_white_space("Hide live auth"@[0]));
        },
        PText::EditLiveConfig => {
            reveal_strlit("编辑实时 config");
            reveal_strlit("Edit live config");
            assert(!is_white_space("编辑实时 config"@[0]));
            assert(!is_white_space("Edit live config"@[0]));
        },
        PText::EditLiveAuth => {
            reveal_strlit("编辑实时 auth");
            reveal_strlit("Edit live auth");
            assert(!is_white_space("编辑实时 auth"@[0]));
            assert(!is_white_space("Edit live auth"@[0]));
        },
        PText::SaveLiveConfig => {
            reveal_strlit("保存实时 config");
            reveal_strlit("Save live config");
            assert(!is_white_space("保存实时 config"@[0]));
            assert(!is_white_space("Save live config"@[0]));
        },
        PText::SaveLiveAuth => {
            reveal_strlit("保存实时 auth");
            reveal_strlit("Save live auth");
            assert(!is_white_space("保存实时 auth"@[0]));
            assert(!is_white_space("Save live auth"@[0]));
        },
        PText::CancelLiveConfig => {
            reveal_strlit("取消编辑实时 config");
            reveal_strlit("Cancel live config");
            assert(!is_white_space("取消编辑实时 config"@[0]));
            assert(!is_white_space("Cancel live config"@[0]));
        },
        PText::CancelLiveAuth => {
            reveal_strlit("取消编辑实时 auth");
            reveal_strlit("Cancel live auth");
            assert(!is_white_space("取消编辑实时 auth"@[0]));
            assert(!is_white_space("Cancel live auth"@[0]));
        },
        PText::ConfirmLiveTitle => {
            reveal_strlit("确认实时变更");
            reveal_strlit("Confirm live change");
            assert(!is_white_space("确认实时变更"@[0]));
            assert(!is_white_space("Confirm live change"@[0]));
        },
        PText::ConfirmLiveNow => {
            reveal_strlit("立即确认实时变更");
            reveal_strlit("Confirm live change now");
            assert(!is_white_space("立即确认实时变更"@[0]));
            assert(!is_white_space("Confirm live change now"@[0]));
        },
        PText::CancelLiveChange => {
            reveal_strlit("取消实时变更");
            reveal_strlit("Cancel live change");
            assert(!is_white_space("取消实时变更"@[0]));
            assert(!is_white_space("Cancel live change"@[0]));
        },
        PText::LiveMutationFailed => {
            reveal_strlit("实时变更失败");
            reveal_strlit("Live mutation failed");
            assert(!is_white_space("实时变更失败"@[0]));
            assert(!is_white_space("Live mutation failed"@[0]));
        },
        PText::RollbackVerified => {
            reveal_strlit("回滚已验证");
            reveal_strlit("Rollback verified");
            assert(!is_white_space("回滚已验证"@[0]));
            assert(!is_white_space("Rollback verified"@[0]));
        },
        PText::RollbackFailed => {
            reveal_strlit("回滚失败");
            reveal_strlit("Rollback failed");
            assert(!is_white_space("回滚失败"@[0]));
            assert(!is_white_space("Rollback failed"@[0]));
        },
        PText::RollbackNotRequired => {
            reveal_strlit("无需回滚");
            reveal_strlit("Rollback not required");
            assert(!is_white_space("无需回滚"@[0]));
            assert(!is_white_space("Rollback not required"@[0]));
        },
        PText::BackupPath => {
            reveal_strlit("备份路径");
            reveal_strlit("Backup path");
            assert(!is_white_space("备份路径"@[0]));
            assert(!is_white_space("Backup path"@[0]));
        },
        PText::SaveChanges => {
            reveal_strlit("保存更改");
            reveal_strlit("Save changes");
            assert(!is_white_space("保存更改"@[0]));
            assert(!is_white_space("Save changes"@[0]));
        },
        PText::DiscardChanges => {
            reveal_strlit("放弃更改");
            reveal_strlit("Discard changes");
            assert(!is_white_space("放弃更改"@[0]));
            assert(!is_white_space("Discard changes"@[0]));
        },
        PText::LoadingProviders => {
            reveal_strlit("正在加载供应商...");
            reveal_strlit("Loading providers...");
            assert(!is_white_space("正在加载供应商..."@[0]));
            assert(!is_white_space("Loading providers..."@[0]));
        },
        PText::LoadError => {
            reveal_strlit("无法加载供应商。");
            reveal_strlit("Unable to load providers.");
            assert(!is_white_space("无法加载供应商。"@[0]));
            assert(!is_white_space("Unable to load providers."@[0]));
        },
        PText::RetryProviderLoad => {
            reveal_strlit("重试加载供应商");
            reveal_strlit("Retry provider load");
            assert(!is_white_space("重试加载供应商"@[0]));
            assert(!is_white_space("Retry provider load"@[0]));
        },
        PText::Active => {
            reveal_strlit("当前启用");
            reveal_strlit("Active");
            assert(!is_white_space("当前启用"@[0]));
            assert(!is_white_space("Active"@[0]));
        },
        PText::Ordinary => {
            reveal_strlit("普通供应商");
            reveal_strlit("Ordinary");
            assert(!is_white_space("普通供应商"@[0]));
            assert(!is_white_space("Ordinary"@[0]));
        },
        PText::Aggregate => {
            reveal_strlit("聚合供应商");
            reveal_strlit("Aggregate");
            assert(!is_white_space("聚合供应商"@[0]));
            assert(!is_white_space("Aggregate"@[0]));
        },
        PText::Presets => {
            reveal_strlit("预设");
            reveal_strlit("Presets");
            assert(!is_white_space("预设"@[0]));
            assert(!is_white_space("Presets"@[0]));
        },
        PText::PresetSearch => {
            reveal_strlit("搜索预设");
            reveal_strlit("Search presets");
            assert(!is_white_space("搜索预设"@[0]));
            assert(!is_white_space("Search presets"@[0]));
        },
        PText::Name => {
            reveal_strlit("名称");
            reveal_strlit("Name");
            assert(!is_white_space("名称"@[0]));
            assert(!is_white_space("Name"@[0]));
        },
        PText::Mode => {
            reveal_strlit("模式");
            reveal_strlit("Mode");
            assert(!is_white_space("模式"@[0]));
            assert(!is_white_space("Mode"@[0]));
        },
        PText::Official => {
            reveal_strlit("官方");
            reveal_strlit("Official");
            assert(!is_white_space("官方"@[0]));
            assert(!is_white_space("Official"@[0]));
        },
        PText::MixedApi => {
            reveal_strlit("混合 API");
            reveal_strlit("Mixed API");
            assert(!is_white_space("混合 API"@[0]));
            assert(!is_white_space("Mixed API"@[0]));
        },
        PText::PureApi => {
            reveal_strlit("纯 API");
            reveal_strlit("Pure API");
            assert(!is_white_space("纯 API"@[0]));
            assert(!is_white_space("Pure API"@[0]));
        },
        PText::Protocol => {
            reveal_strlit("协议");
            reveal_strlit("Protocol");
            assert(!is_white_space("协议"@[0]));
            assert(!is_white_space("Protocol"@[0]));
        },
        PText::Responses => {
            reveal_strlit("Responses");
            reveal_strlit("Responses");
            assert(!is_white_space("Responses"@[0]));
            assert(!is_white_space("Responses"@[0]));
        },
        PText::ChatCompletions => {
            reveal_strlit("Chat Completions");
            reveal_strlit("Chat Completions");
            assert(!is_white_space("Chat Completions"@[0]));
            assert(!is_white_space("Chat Completions"@[0]));
        },
        PText::BaseUrl => {
            reveal_strlit("基础 URL");
            reveal_strlit("Base URL");
            assert(!is_white_space("基础 URL"@[0]));
            assert(!is_white_space("Base URL"@[0]));
        },
        PText::ApiKey => {
            reveal_strlit("API 密钥");
            reveal_strlit("API key");
            assert(!is_white_space("API 密钥"@[0]));
            assert(!is_white_space("API key"@[0]));
        },
        PText::ShowSecret => {
            reveal_strlit("显示密钥");
            reveal_strlit("Show secret");
            assert(!is_white_space("显示密钥"@[0]));
            assert(!is_white_space("Show secret"@[0]));
        },
        PText::HideSecret => {
            reveal_strlit("隐藏密钥");
            reveal_strlit("Hide secret");
            assert(!is_white_space("隐藏密钥"@[0]));
            assert(!is_white_space("Hide secret"@[0]));
        },
        PText::Model => {
            reveal_strlit("默认模型");
            reveal_strlit("Model");
            assert(!is_white_space("默认模型"@[0]));
            assert(!is_white_space("Model"@[0]));
        },
        PText::TestModel => {
            reveal_strlit("测试模型");
            reveal_strlit("Test model");
            assert(!is_white_space("测试模型"@[0]));
            assert(!is_white_space("Test model"@[0]));
        },
        PText::UseCommonConfig => {
            reveal_strlit("使用公共配置");
            reveal_strlit("Use common config");
            assert(!is_white_space("使用公共配置"@[0]));
            assert(!is_white_space("Use common config"@[0]));
        },
        PText::ContextWindow => {
            reveal_strlit("上下文窗口");
            reveal_strlit("Context window");
            assert(!is_white_space("上下文窗口"@[0]));
            assert(!is_white_space("Context window"@[0]));
        },
        PText::CompactLimit => {
            reveal_strlit("自动压缩阈值");
            reveal_strlit("Auto compact limit");
            assert(!is_white_space("自动压缩阈值"@[0]));
            assert(!is_white_space("Auto compact limit"@[0]));
        },
        PText::InsertMode => {
            reveal_strlit("模型写入模式");
            reveal_strlit("Model insert mode");
            assert(!is_white_space("模型写入模式"@[0]));
            assert(!is_white_space("Model insert mode"@[0]));
        },
        PText::Patch => {
            reveal_strlit("补丁");
            reveal_strlit("Patch");
            assert(!is_white_space("补丁"@[0]));
            assert(!is_white_space("Patch"@[0]));
        },
        PText::ModelCatalog => {
            reveal_strlit("模型目录");
            reveal_strlit("Model catalog");
            assert(!is_white_space("模型目录"@[0]));
            assert(!is_white_space("Model catalog"@[0]));
        },
        PText::UserAgent => {
            reveal_strlit("用户代理");
            reveal_strlit("User agent");
            assert(!is_white_space("用户代理"@[0]));
            assert(!is_white_space("User agent"@[0]));
        },
        PText::ModelName => {
            reveal_strlit("模型名称");
            reveal_strlit("Model name");
            assert(!is_white_space("模型名称"@[0]));
            assert(!is_white_space("Model name"@[0]));
        },
        PText::Window => {
            reveal_strlit("窗口");
            reveal_strlit("Window");
            assert(!is_white_space("窗口"@[0]));
            assert(!is_white_space("Window"@[0]));
        },
        PText::AddModel => {
            reveal_strlit("添加模型");
            reveal_strlit("Add model");
            assert(!is_white_space("添加模型"@[0]));
            assert(!is_white_space("Add model"@[0]));
        },
        PText::RemoveModel => {
            reveal_strlit("删除模型");
            reveal_strlit("Remove model");
            assert(!is_white_space("删除模型"@[0]));
            assert(!is_white_space("Remove model"@[0]));
        },
        PText::DiscoverModels => {
            reveal_strlit("获取模型");
            reveal_strlit("Discover models");
            assert(!is_white_space("获取模型"@[0]));
            assert(!is_white_space("Discover models"@[0]));
        },
        PText::MergeModels => {
            reveal_strlit("合并已获取模型");
            reveal_strlit("Merge discovered models");
            assert(!is_white_space("合并已获取模型"@[0]));
            assert(!is_white_space("Merge discovered models"@[0]));
        },
        PText::ConfigToml => {
            reveal_strlit("config.toml 内容");
            reveal_strlit("config.toml contents");
            assert(!is_white_space("config.toml 内容"@[0]));
            assert(!is_white_space("config.toml contents"@[0]));
        },
        PText::AuthJson => {
            reveal_strlit("auth.json 内容");
            reveal_strlit("auth.json contents");
            assert(!is_white_space("auth.json 内容"@[0]));
            assert(!is_white_space("auth.json contents"@[0]));
        },
        PText::Hidden => {
            reveal_strlit("内容已隐藏");
            reveal_strlit("Contents hidden");
            assert(!is_white_space("内容已隐藏"@[0]));
            assert(!is_white_space("Contents hidden"@[0]));
        },
        PText::Reveal => {
            reveal_strlit("显示内容");
            reveal_strlit("Reveal contents");
            assert(!is_white_space("显示内容"@[0]));
            assert(!is_white_space("Reveal contents"@[0]));
        },
        PText::Hide => {
            reveal_strlit("隐藏内容");
            reveal_strlit("Hide contents");
            assert(!is_white_space("隐藏内容"@[0]));
            assert(!is_white_space("Hide contents"@[0]));
        },
        PText::TestConnection => {
            reveal_strlit("测试连接");
            reveal_strlit("Test connection");
            assert(!is_white_space("测试连接"@[0]));
            assert(!is_white_space("Test connection"@[0]));
        },
        PText::FetchModels => {
            reveal_strlit("获取模型");
            reveal_strlit("Fetch models");
            assert(!is_white_space("获取模型"@[0]));
            assert(!is_white_space("Fetch models"@[0]));
        },
        PText::RunDiagnostics => {
            reveal_strlit("运行诊断");
            reveal_strlit("Run diagnostics");
            assert(!is_white_space("运行诊断"@[0]));
            assert(!is_white_space("Run diagnostics"@[0]));
        },
        PText::Idle => {
            reveal_strlit("尚未运行");
            reveal_strlit("Not run");
            assert(!is_white_space("尚未运行"@[0]));
            assert(!is_white_space("Not run"@[0]));
        },
        PText::Running => {
            reveal_strlit("运行中");
            reveal_strlit("Running");
            assert(!is_white_space("运行中"@[0]));
            assert(!is_white_space("Running"@[0]));
        },
        PText::Success => {
            reveal_strlit("成功");
            reveal_strlit("Success");
            assert(!is_white_space("成功"@[0]));
            assert(!is_white_space("Success"@[0]));
        },
        PText::Failed => {
            reveal_strlit("失败");
            reveal_strlit("Failed");
            assert(!is_white_space("失败"@[0]));
            assert(!is_white_space("Failed"@[0]));
        },
        PText::Strategy => {
            reveal_strlit("策略");
            reveal_strlit("Strategy");
            assert(!is_white_space("策略"@[0]));
            assert(!is_white_space("Strategy"@[0]));
        },
        PText::Failover => {
            reveal_strlit("故障转移");
            reveal_strlit("Failover");
            assert(!is_white_space("故障转移"@[0]));
            assert(!is_white_space("Failover"@[0]));
        },
        PText::ConversationRoundRobin => {
            reveal_strlit("按会话轮询");
            reveal_strlit("Conversation round robin");
            assert(!is_white_space("按会话轮询"@[0]));
            assert(!is_white_space("Conversation round robin"@[0]));
        },
        PText::RequestRoundRobin => {
            reveal_strlit("按请求轮询");
            reveal_strlit("Request round robin");
            assert(!is_white_space("按请求轮询"@[0]));
            assert(!is_white_space("Request round robin"@[0]));
        },
        PText::WeightedRoundRobin => {
            reveal_strlit("加权轮询");
            reveal_strlit("Weighted round robin");
            assert(!is_white_space("加权轮询"@[0]));
            assert(!is_white_space("Weighted round robin"@[0]));
        },
        PText::Weight => {
            reveal_strlit("权重");
            reveal_strlit("Weight");
            assert(!is_white_space("权重"@[0]));
            assert(!is_white_space("Weight"@[0]));
        },
        PText::Unsaved => {
            reveal_strlit("有未保存更改");
            reveal_strlit("Unsaved changes");
            assert(!is_white_space("有未保存更改"@[0]));
            assert(!is_white_space("Unsaved changes"@[0]));
        },
        PText::Saved => {
            reveal_strlit("已保存");
            reveal_strlit("Saved");
            assert(!is_white_space("已保存"@[0]));
            assert(!is_white_space("Saved"@[0]));
        },
        PText::GuardTitle => {
            reveal_strlit("未保存的更改");
            reveal_strlit("Unsaved changes");
            assert(!is_white_space("未保存的更改"@[0]));
            assert(!is_white_space("Unsaved changes"@[0]));
        },
        PText::GuardMessage => {
            reveal_strlit("保存或放弃更改后再继续。");
            reveal_strlit("Save or discard changes before continuing.");
            assert(!is_white_space("保存或放弃更改后再继续。"@[0]));
            assert(!is_white_space("Save or discard changes before continuing."@[0]));
        },
        PText::Stay => {
            reveal_strlit("留在此处");
            reveal_strlit("Stay");
            assert(!is_white_space("留在此处"@[0]));
            assert(!is_white_space("Stay"@[0]));
        },
        PText::SaveAndContinue => {
            reveal_strlit("保存并继续");
            reveal_strlit("Save and continue");
            assert(!is_white_space("保存并继续"@[0]));
            assert(!is_white_space("Save and continue"@[0]));
        },
        PText::DiscardAndContinue => {
            reveal_strlit("放弃并继续");
            reveal_strlit("Discard and continue");
            assert(!is_white_space("放弃并继续"@[0]));
            assert(!is_white_space("Discard and continue"@[0]));
        },
        PText::NoProfile => {
            reveal_strlit("没有可编辑的供应商");
            reveal_strlit("No provider selected");
            assert(!is_white_space("没有可编辑的供应商"@[0]));
            assert(!is_white_space("No provider selected"@[0]));
        },
        PText::DeleteTitle => {
            reveal_strlit("确认删除");
            reveal_strlit("Confirm deletion");
            assert(!is_white_space("确认删除"@[0]));
            assert(!is_white_space("Confirm deletion"@[0]));
        },
        PText::DeleteMessage => {
            reveal_strlit("此供应商被聚合配置引用。删除后将同时移除这些引用。");
            reveal_strlit("This provider is referenced by aggregate routes. Deleting it also removes those references.");
            assert(!is_white_space("此供应商被聚合配置引用。删除后将同时移除这些引用。"@[0]));
            assert(!is_white_space("This provider is referenced by aggregate routes. Deleting it also removes those references."@[0]));
        },
        PText::Cancel => {
            reveal_strlit("取消");
            reveal_strlit("Cancel");
            assert(!is_white_space("取消"@[0]));
            assert(!is_white_space("Cancel"@[0]));
        },
        PText::ConfirmDelete => {
            reveal_strlit("确认删除");
            reveal_strlit("Delete provider and references");
            assert(!is_white_space("确认删除"@[0]));
            assert(!is_white_space("Delete provider and references"@[0]));
        },
        PText::SaveConflict => {
            reveal_strlit("供应商配置已在磁盘上更改，请重新加载后再保存。");
            reveal_strlit("Provider workspace changed on disk. Reload before saving again.");
            assert(!is_white_space("供应商配置已在磁盘上更改，请重新加载后再保存。"@[0]));
            assert(!is_white_space("Provider workspace changed on disk. Reload before saving again."@[0]));
        },
        PText::SaveValidation => {
            reveal_strlit("供应商配置未通过校验，请检查当前字段。");
            reveal_strlit("Provider validation failed. Review the current fields.");
            assert(!is_white_space("供应商配置未通过校验，请检查当前字段。"@[0]));
            assert(!is_white_space("Provider validation failed. Review the current fields."@[0]));
        },
        PText::SaveFailed => {
            reveal_strlit("无法保存供应商配置。");
            reveal_strlit("Unable to save provider workspace.");
            assert(!is_white_space("无法保存供应商配置。"@[0]));
            assert(!is_white_space("Unable to save provider workspace."@[0]));
        },
        PText::SaveWorkerStopped => {
            reveal_strlit("供应商后台服务已停止。");
            reveal_strlit("The provider background service has stopped.");
            assert(!is_white_space("供应商后台服务已停止。"@[0]));
            assert(!is_white_space("The provider background service has stopped."@[0]));
        },
    }
}

/// The label of a relay mode.
pub fn mode_label(locale: Locale, mode: RelayMode) -> (label: &'static str)
    ensures
        label@ == ptext_spec(
            locale,
            match mode {
                RelayMode::Official => PText::Official,
                RelayMode::MixedApi => PText::MixedApi,
                RelayMode::PureApi => PText::PureApi,
                RelayMode::Aggregate => PText::Aggregate,
            },
        ),
{
    ptext(
        locale,
        match mode {
            RelayMode::Official => PText::Official,
            RelayMode::MixedApi => PText::MixedApi,
            RelayMode::PureApi => PText::PureApi,
            RelayMode::Aggregate => PText::Aggregate,
        },
    )
}

/// The label of a relay protocol.
pub fn protocol_label(locale: Locale, protocol: RelayProtocol) -> (label: &'static str)
    ensures
        label@ == ptext_spec(
            locale,
            match protocol {
                RelayProtocol::Responses => PText::Responses,
                RelayProtocol::ChatCompletions => PText::ChatCompletions,
            },
        ),
{
    ptext(
        locale,
        match protocol {
            RelayProtocol::Responses => PText::Responses,
            RelayProtocol::ChatCompletions => PText::ChatCompletions,
        },
    )
}

/// The label of a model insert mode.
pub fn insert_mode_label(locale: Locale, mode: RelayModelInsertMode) -> (label: &'static str)
    ensures
        label@ == ptext_spec(
            locale,
            match mode {
                RelayModelInsertMode::Patch => PText::Patch,
                RelayModelInsertMode::ModelCatalog => PText::ModelCatalog,
            },
        ),
{
    ptext(
        locale,
        match mode {
            RelayModelInsertMode::Patch => PText::Patch,
            RelayModelInsertMode::ModelCatalog => PText::ModelCatalog,
        },
    )
}

/// The label of an aggregate routing strategy.
pub fn strategy_label(locale: Locale, strategy: AggregateRelayStrategy) -> (label: &'static str)
    ensures
        label@ == ptext_spec(
            locale,
            match strategy {
                AggregateRelayStrategy::Failover => PText::Failover,
                AggregateRelayStrategy::ConversationRoundRobin => PText::ConversationRoundRobin,
                AggregateRelayStrategy::RequestRoundRobin => PText::RequestRoundRobin,
                AggregateRelayStrategy::WeightedRoundRobin => PText::WeightedRoundRobin,
            },
        ),
{
    ptext(
        locale,
        match strategy {
            AggregateRelayStrategy::Failover => PText::Failover,
            AggregateRelayStrategy::ConversationRoundRobin => PText::ConversationRoundRobin,
            AggregateRelayStrategy::RequestRoundRobin => PText::RequestRoundRobin,
            AggregateRelayStrategy::WeightedRoundRobin => PText::WeightedRoundRobin,
        },
    )
}

/// The key of the message the save bar shows for a failed save.
pub fn save_failure_key(kind: ProviderSaveFailureKind) -> (key: PText)
    ensures
        key == match kind {
            ProviderSaveFailureKind::Conflict => PText::SaveConflict,
            ProviderSaveFailureKind::Validation => PText::SaveValidation,
            ProviderSaveFailureKind::SaveFailed => PText::SaveFailed,
            ProviderSaveFailureKind::WorkerStopped => PText::SaveWorkerStopped,
        },
{
    match kind {
        ProviderSaveFailureKind::Conflict => PText::SaveConflict,
        ProviderSaveFailureKind::Validation => PText::SaveValidation,
        ProviderSaveFailureKind::SaveFailed => PText::SaveFailed,
        ProviderSaveFailureKind::WorkerStopped => PText::SaveWorkerStopped,
    }
}

} // verus!
