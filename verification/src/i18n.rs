use vstd::prelude::*;

verus! {

/// The interface language of the native manager.
#[derive(Debug, Clone, Copy, PartialEq, Eq, Structural)]
pub enum Locale {
    ZhCn,
    En,
}

impl Default for Locale {
    /// The manager starts in Chinese.
    fn default() -> (locale: Self)
        ensures
            locale == Locale::ZhCn,
    {
        Locale::ZhCn
    }
}

/// The colour scheme of the native manager.
#[derive(Debug, Clone, Copy, PartialEq, Eq, Structural)]
pub enum ThemeMode {
    Dark,
    Light,
}

impl Default for ThemeMode {
    /// The manager starts in the dark theme.
    fn default() -> (theme: Self)
        ensures
            theme == ThemeMode::Dark,
    {
        ThemeMode::Dark
    }
}

/// The number of entries in the text catalog.
pub const TEXT_KEY_COUNT: usize = 106;

/// The keys of the native manager's text catalog, in catalog order.
#[derive(Debug, Clone, Copy, PartialEq, Eq, Structural)]
pub enum TextKey {
    AppName,
    Overview,
    Providers,
    About,
    OverviewSubtitle,
    ProvidersSubtitle,
    AboutSubtitle,
    Refresh,
    Refreshing,
    Ready,
    Loading,
    Retry,
    CodexApplication,
    SilentEntrypoint,
    ManagementEntrypoint,
    Found,
    Missing,
    Installed,
    LatestLaunch,
    NoLaunch,
    Status,
    StartedAt,
    DebugPort,
    HelperPort,
    CodexPath,
    Version,
    CodexPlusVersion,
    CodexVersion,
    LocalPaths,
    SettingsPath,
    LogsPath,
    Language,
    Theme,
    Chinese,
    English,
    Dark,
    Light,
    LoadFailed,
    WorkerStopped,
    Renderer,
    License,
    LastUpdated,
    Environment,
    EnvironmentSubtitle,
    ImportProviders,
    ImportFromCcs,
    ImportSource,
    Importable,
    Duplicates,
    Duplicate,
    ImportNew,
    Cancel,
    PendingImport,
    ConfirmImport,
    DismissImport,
    RefreshPendingImport,
    ApiKeyPresent,
    ApiKeyMissing,
    ProviderDraftDirty,
    ImportSucceeded,
    NoImportableProviders,
    RelayDiagnostics,
    TunMode,
    ProxyEnvironment,
    CodexEnvFile,
    OpenAiConflicts,
    Enabled,
    Disabled,
    Present,
    NotPresent,
    Process,
    User,
    System,
    Removed,
    Failed,
    CleanupSelected,
    ConfirmCleanup,
    CleanupSucceeded,
    CleanupPartial,
    BackupCreated,
    NoBackup,
    RemainingConflicts,
    NoConflicts,
    InspectionFailed,
    CleanupFailed,
    SourceChanged,
    EnvironmentChanged,
    PendingChanged,
    ProviderChanged,
    WireApi,
    RelayMode,
    BaseUrl,
    ImportedCount,
    FailureCount,
    SelectAtLeastOne,
    InProgress,
    ReviewPendingImport,
    EnvironmentHealthy,
    EnvironmentIssues,
    CleanupConfirmationTitle,
    CcsImportTitle,
    PendingImportTitle,
    RefreshEnvironment,
    EnvironmentWorkerStopped,
    ImportWorkerStopped,
    RetryInspection,
}

impl TextKey {
    /// The position of the key in the catalog.
    pub open spec fn ordinal(self) -> nat {
        match self {
            TextKey::AppName => 0,
            TextKey::Overview => 1,
            TextKey::Providers => 2,
            TextKey::About => 3,
            TextKey::OverviewSubtitle => 4,
            TextKey::ProvidersSubtitle => 5,
            TextKey::AboutSubtitle => 6,
            TextKey::Refresh => 7,
            TextKey::Refreshing => 8,
            TextKey::Ready => 9,
            TextKey::Loading => 10,
            TextKey::Retry => 11,
            TextKey::CodexApplication => 12,
            TextKey::SilentEntrypoint => 13,
            TextKey::ManagementEntrypoint => 14,
            TextKey::Found => 15,
            TextKey::Missing => 16,
            TextKey::Installed => 17,
            TextKey::LatestLaunch => 18,
            TextKey::NoLaunch => 19,
            TextKey::Status => 20,
            TextKey::StartedAt => 21,
            TextKey::DebugPort => 22,
            TextKey::HelperPort => 23,
            TextKey::CodexPath => 24,
            TextKey::Version => 25,
            TextKey::CodexPlusVersion => 26,
            TextKey::CodexVersion => 27,
            TextKey::LocalPaths => 28,
            TextKey::SettingsPath => 29,
            TextKey::LogsPath => 30,
            TextKey::Language => 31,
            TextKey::Theme => 32,
            TextKey::Chinese => 33,
            TextKey::English => 34,
            TextKey::Dark => 35,
            TextKey::Light => 36,
            TextKey::LoadFailed => 37,
            TextKey::WorkerStopped => 38,
            TextKey::Renderer => 39,
            TextKey::License => 40,
            TextKey::LastUpdated => 41,
            TextKey::Environment => 42,
            TextKey::EnvironmentSubtitle => 43,
            TextKey::ImportProviders => 44,
            TextKey::ImportFromCcs => 45,
            TextKey::ImportSource => 46,
            TextKey::Importable => 47,
            TextKey::Duplicates => 48,
            TextKey::Duplicate => 49,
            TextKey::ImportNew => 50,
            TextKey::Cancel => 51,
            TextKey::PendingImport => 52,
            TextKey::ConfirmImport => 53,
            TextKey::DismissImport => 54,
            TextKey::RefreshPendingImport => 55,
            TextKey::ApiKeyPresent => 56,
            TextKey::ApiKeyMissing => 57,
            TextKey::ProviderDraftDirty => 58,
            TextKey::ImportSucceeded => 59,
            TextKey::NoImportableProviders => 60,
            TextKey::RelayDiagnostics => 61,
            TextKey::TunMode => 62,
            TextKey::ProxyEnvironment => 63,
            TextKey::CodexEnvFile => 64,
            TextKey::OpenAiConflicts => 65,
            TextKey::Enabled => 66,
            TextKey::Disabled => 67,
            TextKey::Present => 68,
            TextKey::NotPresent => 69,
            TextKey::Process => 70,
            TextKey::User => 71,
            TextKey::System => 72,
            TextKey::Removed => 73,
            TextKey::Failed => 74,
            TextKey::CleanupSelected => 75,
            TextKey::ConfirmCleanup => 76,
            TextKey::CleanupSucceeded => 77,
            TextKey::CleanupPartial => 78,
            TextKey::BackupCreated => 79,
            TextKey::NoBackup => 80,
            TextKey::RemainingConflicts => 81,
            TextKey::NoConflicts => 82,
            TextKey::InspectionFailed => 83,
            TextKey::CleanupFailed => 84,
            TextKey::SourceChanged => 85,
            TextKey::EnvironmentChanged => 86,
            TextKey::PendingChanged => 87,
            TextKey::ProviderChanged => 88,
            TextKey::WireApi => 89,
            TextKey::RelayMode => 90,
            TextKey::BaseUrl => 91,
            TextKey::ImportedCount => 92,
            TextKey::FailureCount => 93,
            TextKey::SelectAtLeastOne => 94,
            TextKey::InProgress => 95,
            TextKey::ReviewPendingImport => 96,
            TextKey::EnvironmentHealthy => 97,
            TextKey::EnvironmentIssues => 98,
            TextKey::CleanupConfirmationTitle => 99,
            TextKey::CcsImportTitle => 100,
            TextKey::PendingImportTitle => 101,
            TextKey::RefreshEnvironment => 102,
            TextKey::EnvironmentWorkerStopped => 103,
            TextKey::ImportWorkerStopped => 104,
            TextKey::RetryInspection => 105,
        }
    }

    /// The key at a catalog position.
    pub open spec fn at_ordinal(n: nat) -> TextKey
        recommends
            n < TEXT_KEY_COUNT,
    {
        if n == 0 {
            TextKey::AppName
        }         else if n == 1 {
            TextKey::Overview
        }         else if n == 2 {
            TextKey::Providers
        }         else if n == 3 {
            TextKey::About
        }         else if n == 4 {
            TextKey::OverviewSubtitle
        }         else if n == 5 {
            TextKey::ProvidersSubtitle
        }         else if n == 6 {
            TextKey::AboutSubtitle
        }         else if n == 7 {
            TextKey::Refresh
        }         else if n == 8 {
            TextKey::Refreshing
        }         else if n == 9 {
            TextKey::Ready
        }         else if n == 10 {
            TextKey::Loading
        }         else if n == 11 {
            TextKey::Retry
        }         else if n == 12 {
            TextKey::CodexApplication
        }         else if n == 13 {
            TextKey::SilentEntrypoint
        }         else if n == 14 {
            TextKey::ManagementEntrypoint
        }         else if n == 15 {
            TextKey::Found
        }         else if n == 16 {
            TextKey::Missing
        }         else if n == 17 {
            TextKey::Installed
        }         else if n == 18 {
            TextKey::LatestLaunch
        }         else if n == 19 {
            TextKey::NoLaunch
        }         else if n == 20 {
            TextKey::Status
        }         else if n == 21 {
            TextKey::StartedAt
        }         else if n == 22 {
            TextKey::DebugPort
        }         else if n == 23 {
            TextKey::HelperPort
        }         else if n == 24 {
            TextKey::CodexPath
        }         else if n == 25 {
            TextKey::Version
        }         else if n == 26 {
            TextKey::CodexPlusVersion
        }         else if n == 27 {
            TextKey::CodexVersion
        }         else if n == 28 {
            TextKey::LocalPaths
        }         else if n == 29 {
            TextKey::SettingsPath
        }         else if n == 30 {
            TextKey::LogsPath
        }         else if n == 31 {
            TextKey::Language
        }         else if n == 32 {
            TextKey::Theme
        }         else if n == 33 {
            TextKey::Chinese
        }         else if n == 34 {
            TextKey::English
        }         else if n == 35 {
            TextKey::Dark
        }         else if n == 36 {
            TextKey::Light
        }         else if n == 37 {
            TextKey::LoadFailed
        }         else if n == 38 {
            TextKey::WorkerStopped
        }         else if n == 39 {
            TextKey::Renderer
        }         else if n == 40 {
            TextKey::License
        }         else if n == 41 {
            TextKey::LastUpdated
        }         else if n == 42 {
            TextKey::Environment
        }         else if n == 43 {
            TextKey::EnvironmentSubtitle
        }         else if n == 44 {
            TextKey::ImportProviders
        }         else if n == 45 {
            TextKey::ImportFromCcs
        }         else if n == 46 {
            TextKey::ImportSource
        }         else if n == 47 {
            TextKey::Importable
        }         else if n == 48 {
            TextKey::Duplicates
        }         else if n == 49 {
            TextKey::Duplicate
        }         else if n == 50 {
            TextKey::ImportNew
        }         else if n == 51 {
            TextKey::Cancel
        }         else if n == 52 {
            TextKey::PendingImport
        }         else if n == 53 {
            TextKey::ConfirmImport
        }         else if n == 54 {
            TextKey::DismissImport
        }         else if n == 55 {
            TextKey::RefreshPendingImport
        }         else if n == 56 {
            TextKey::ApiKeyPresent
        }         else if n == 57 {
            TextKey::ApiKeyMissing
        }         else if n == 58 {
            TextKey::ProviderDraftDirty
        }         else if n == 59 {
            TextKey::ImportSucceeded
        }         else if n == 60 {
            TextKey::NoImportableProviders
        }         else if n == 61 {
            TextKey::RelayDiagnostics
        }         else if n == 62 {
            TextKey::TunMode
        }         else if n == 63 {
            TextKey::ProxyEnvironment
        }         else if n == 64 {
            TextKey::CodexEnvFile
        }         else if n == 65 {
            TextKey::OpenAiConflicts
        }         else if n == 66 {
            TextKey::Enabled
        }         else if n == 67 {
            TextKey::Disabled
        }         else if n == 68 {
            TextKey::Present
        }         else if n == 69 {
            TextKey::NotPresent
        }         else if n == 70 {
            TextKey::Process
        }         else if n == 71 {
            TextKey::User
        }         else if n == 72 {
            TextKey::System
        }         else if n == 73 {
            TextKey::Removed
        }         else if n == 74 {
            TextKey::Failed
        }         else if n == 75 {
            TextKey::CleanupSelected
        }         else if n == 76 {
            TextKey::ConfirmCleanup
        }         else if n == 77 {
            TextKey::CleanupSucceeded
        }         else if n == 78 {
            TextKey::CleanupPartial
        }         else if n == 79 {
            TextKey::BackupCreated
        }         else if n == 80 {
            TextKey::NoBackup
        }         else if n == 81 {
            TextKey::RemainingConflicts
        }         else if n == 82 {
            TextKey::NoConflicts
        }         else if n == 83 {
            TextKey::InspectionFailed
        }         else if n == 84 {
            TextKey::CleanupFailed
        }         else if n == 85 {
            TextKey::SourceChanged
        }         else if n == 86 {
            TextKey::EnvironmentChanged
        }         else if n == 87 {
            TextKey::PendingChanged
        }         else if n == 88 {
            TextKey::ProviderChanged
        }         else if n == 89 {
            TextKey::WireApi
        }         else if n == 90 {
            TextKey::RelayMode
        }         else if n == 91 {
            TextKey::BaseUrl
        }         else if n == 92 {
            TextKey::ImportedCount
        }         else if n == 93 {
            TextKey::FailureCount
        }         else if n == 94 {
            TextKey::SelectAtLeastOne
        }         else if n == 95 {
            TextKey::InProgress
        }         else if n == 96 {
            TextKey::ReviewPendingImport
        }         else if n == 97 {
            TextKey::EnvironmentHealthy
        }         else if n == 98 {
            TextKey::EnvironmentIssues
        }         else if n == 99 {
            TextKey::CleanupConfirmationTitle
        }         else if n == 100 {
            TextKey::CcsImportTitle
        }         else if n == 101 {
            TextKey::PendingImportTitle
        }         else if n == 102 {
            TextKey::RefreshEnvironment
        }         else if n == 103 {
            TextKey::EnvironmentWorkerStopped
        }         else if n == 104 {
            TextKey::ImportWorkerStopped
        } else {
            TextKey::RetryInspection
        }
    }

    /// The key at a catalog position.
    pub fn from_ordinal(n: usize) -> (key: TextKey)
        requires
            n < TEXT_KEY_COUNT,
        ensures
            key.ordinal() == n,
            key == TextKey::at_ordinal(n as nat),
    {
        match n {
            0 => TextKey::AppName,
            1 => TextKey::Overview,
            2 => TextKey::Providers,
            3 => TextKey::About,
            4 => TextKey::OverviewSubtitle,
            5 => TextKey::ProvidersSubtitle,
            6 => TextKey::AboutSubtitle,
            7 => TextKey::Refresh,
            8 => TextKey::Refreshing,
            9 => TextKey::Ready,
            10 => TextKey::Loading,
            11 => TextKey::Retry,
            12 => TextKey::CodexApplication,
            13 => TextKey::SilentEntrypoint,
            14 => TextKey::ManagementEntrypoint,
            15 => TextKey::Found,
            16 => TextKey::Missing,
            17 => TextKey::Installed,
            18 => TextKey::LatestLaunch,
            19 => TextKey::NoLaunch,
            20 => TextKey::Status,
            21 => TextKey::StartedAt,
            22 => TextKey::DebugPort,
            23 => TextKey::HelperPort,
            24 => TextKey::CodexPath,
            25 => TextKey::Version,
            26 => TextKey::CodexPlusVersion,
            27 => TextKey::CodexVersion,
            28 => TextKey::LocalPaths,
            29 => TextKey::SettingsPath,
            30 => TextKey::LogsPath,
            31 => TextKey::Language,
            32 => TextKey::Theme,
            33 => TextKey::Chinese,
            34 => TextKey::English,
            35 => TextKey::Dark,
            36 => TextKey::Light,
            37 => TextKey::LoadFailed,
            38 => TextKey::WorkerStopped,
            39 => TextKey::Renderer,
            40 => TextKey::License,
            41 => TextKey::LastUpdated,
            42 => TextKey::Environment,
            43 => TextKey::EnvironmentSubtitle,
            44 => TextKey::ImportProviders,
            45 => TextKey::ImportFromCcs,
            46 => TextKey::ImportSource,
            47 => TextKey::Importable,
            48 => TextKey::Duplicates,
            49 => TextKey::Duplicate,
            50 => TextKey::ImportNew,
            51 => TextKey::Cancel,
            52 => TextKey::PendingImport,
            53 => TextKey::ConfirmImport,
            54 => TextKey::DismissImport,
            55 => TextKey::RefreshPendingImport,
            56 => TextKey::ApiKeyPresent,
            57 => TextKey::ApiKeyMissing,
            58 => TextKey::ProviderDraftDirty,
            59 => TextKey::ImportSucceeded,
            60 => TextKey::NoImportableProviders,
            61 => TextKey::RelayDiagnostics,
            62 => TextKey::TunMode,
            63 => TextKey::ProxyEnvironment,
            64 => TextKey::CodexEnvFile,
            65 => TextKey::OpenAiConflicts,
            66 => TextKey::Enabled,
            67 => TextKey::Disabled,
            68 => TextKey::Present,
            69 => TextKey::NotPresent,
            70 => TextKey::Process,
            71 => TextKey::User,
            72 => TextKey::System,
            73 => TextKey::Removed,
            74 => TextKey::Failed,
            75 => TextKey::CleanupSelected,
            76 => TextKey::ConfirmCleanup,
            77 => TextKey::CleanupSucceeded,
            78 => TextKey::CleanupPartial,
            79 => TextKey::BackupCreated,
            80 => TextKey::NoBackup,
            81 => TextKey::RemainingConflicts,
            82 => TextKey::NoConflicts,
            83 => TextKey::InspectionFailed,
            84 => TextKey::CleanupFailed,
            85 => TextKey::SourceChanged,
            86 => TextKey::EnvironmentChanged,
            87 => TextKey::PendingChanged,
            88 => TextKey::ProviderChanged,
            89 => TextKey::WireApi,
            90 => TextKey::RelayMode,
            91 => TextKey::BaseUrl,
            92 => TextKey::ImportedCount,
            93 => TextKey::FailureCount,
            94 => TextKey::SelectAtLeastOne,
            95 => TextKey::InProgress,
            96 => TextKey::ReviewPendingImport,
            97 => TextKey::EnvironmentHealthy,
            98 => TextKey::EnvironmentIssues,
            99 => TextKey::CleanupConfirmationTitle,
            100 => TextKey::CcsImportTitle,
            101 => TextKey::PendingImportTitle,
            102 => TextKey::RefreshEnvironment,
            103 => TextKey::EnvironmentWorkerStopped,
            104 => TextKey::ImportWorkerStopped,
            _ => TextKey::RetryInspection,
        }
    }

    /// Every key of the catalog, in catalog order.
    pub fn all() -> (keys: Vec<TextKey>)
        ensures
            keys@.len() == TEXT_KEY_COUNT,
            forall|i: int| 0 <= i < TEXT_KEY_COUNT ==> (#[trigger] keys@[i]).ordinal() == i,
    {
        let mut keys: Vec<TextKey> = Vec::new();
        let mut n: usize = 0;
        while n < TEXT_KEY_COUNT
            invariant
                n <= TEXT_KEY_COUNT,
                keys@.len() == n,
                forall|i: int| 0 <= i < n ==> (#[trigger] keys@[i]).ordinal() == i,
            decreases TEXT_KEY_COUNT - n,
        {
            keys.push(TextKey::from_ordinal(n));
            n = n + 1;
        }
        keys
    }
}

/// Each key is the one at its own catalog position, and positions lie inside
/// the catalog: the ordinal names keys one to one.
pub proof fn law_ordinal_identifies_key(key: TextKey)
    ensures
        key.ordinal() < TEXT_KEY_COUNT,
        TextKey::at_ordinal(key.ordinal()) == key,
{
}

/// Two keys at the same catalog position are the same key.
pub proof fn law_ordinal_injective(a: TextKey, b: TextKey)
    requires
        a.ordinal() == b.ordinal(),
    ensures
        a == b,
{
    law_ordinal_identifies_key(a);
    law_ordinal_identifies_key(b);
}

/// The Chinese catalog entry of a key.
pub open spec fn catalog_zh(key: TextKey) -> Seq<char> {
    match key {
        TextKey::AppName => "Codex++"@,
        TextKey::Overview => "概览"@,
        TextKey::Providers => "供应商配置"@,
        TextKey::About => "关于"@,
        TextKey::OverviewSubtitle => "检查本地安装与运行状态"@,
        TextKey::ProvidersSubtitle => "管理供应商、模型与聚合路由"@,
        TextKey::AboutSubtitle => "原生管理工具信息"@,
        TextKey::Refresh => "刷新"@,
        TextKey::Refreshing => "正在刷新"@,
        TextKey::Ready => "已就绪"@,
        TextKey::Loading => "正在加载"@,
        TextKey::Retry => "重试"@,
        TextKey::CodexApplication => "Codex 应用"@,
        TextKey::SilentEntrypoint => "静默启动入口"@,
        TextKey::ManagementEntrypoint => "管理工具入口"@,
        TextKey::Found => "已找到"@,
        TextKey::Missing => "未找到"@,
        TextKey::Installed => "已安装"@,
        TextKey::LatestLaunch => "最近启动"@,
        TextKey::NoLaunch => "暂无启动记录"@,
        TextKey::Status => "状态"@,
        TextKey::StartedAt => "启动时间"@,
        TextKey::DebugPort => "调试端口"@,
        TextKey::HelperPort => "辅助端口"@,
        TextKey::CodexPath => "Codex 路径"@,
        TextKey::Version => "版本"@,
        TextKey::CodexPlusVersion => "Codex++ 版本"@,
        TextKey::CodexVersion => "Codex 版本"@,
        TextKey::LocalPaths => "本地路径"@,
        TextKey::SettingsPath => "设置文件"@,
        TextKey::LogsPath => "诊断日志"@,
        TextKey::Language => "语言"@,
        TextKey::Theme => "主题"@,
        TextKey::Chinese => "中文"@,
        TextKey::English => "English"@,
        TextKey::Dark => "深色"@,
        TextKey::Light => "浅色"@,
        TextKey::LoadFailed => "无法加载概览。"@,
        TextKey::WorkerStopped => "后台服务已停止。"@,
        TextKey::Renderer => "渲染器"@,
        TextKey::License => "许可证"@,
        TextKey::LastUpdated => "最近更新"@,
        TextKey::Environment => "环境检查"@,
        TextKey::EnvironmentSubtitle => "检查影响供应商连接的本机环境"@,
        TextKey::ImportProviders => "导入供应商"@,
        TextKey::ImportFromCcs => "从 cc-switch 导入"@,
        TextKey::ImportSource => "导入来源"@,
        TextKey::Importable => "可导入"@,
        TextKey::Duplicates => "重复项"@,
        TextKey::Duplicate => "已存在"@,
        TextKey::ImportNew => "导入新增项"@,
        TextKey::Cancel => "取消"@,
        TextKey::PendingImport => "待处理导入"@,
        TextKey::ConfirmImport => "确认导入"@,
        TextKey::DismissImport => "放弃导入"@,
        TextKey::RefreshPendingImport => "刷新待确认导入"@,
        TextKey::ApiKeyPresent => "已提供 API 密钥"@,
        TextKey::ApiKeyMissing => "未提供 API 密钥"@,
        TextKey::ProviderDraftDirty => "请先保存或放弃供应商草稿。"@,
        TextKey::ImportSucceeded => "供应商导入完成"@,
        TextKey::NoImportableProviders => "没有新的供应商可导入"@,
        TextKey::RelayDiagnostics => "中转环境诊断"@,
        TextKey::TunMode => "TUN 模式"@,
        TextKey::ProxyEnvironment => "代理环境变量"@,
        TextKey::CodexEnvFile => "Codex .env 文件"@,
        TextKey::OpenAiConflicts => "OPENAI 环境冲突"@,
        TextKey::Enabled => "已启用"@,
        TextKey::Disabled => "未启用"@,
        TextKey::Present => "存在"@,
        TextKey::NotPresent => "不存在"@,
        TextKey::Process => "进程"@,
        TextKey::User => "用户"@,
        TextKey::System => "系统"@,
        TextKey::Removed => "已删除"@,
        TextKey::Failed => "失败"@,
        TextKey::CleanupSelected => "清理所选项"@,
        TextKey::ConfirmCleanup => "确认清理"@,
        TextKey::CleanupSucceeded => "环境冲突清理完成"@,
        TextKey::CleanupPartial => "部分环境冲突未能清理"@,
        TextKey::BackupCreated => "已创建元数据备份"@,
        TextKey::NoBackup => "无需备份"@,
        TextKey::RemainingConflicts => "剩余冲突"@,
        TextKey::NoConflicts => "未检测到冲突"@,
        TextKey::InspectionFailed => "环境检查失败"@,
        TextKey::CleanupFailed => "环境清理失败"@,
        TextKey::SourceChanged => "导入来源已变化，请重新检查。"@,
        TextKey::EnvironmentChanged => "环境状态已变化，请重新检查。"@,
        TextKey::PendingChanged => "待处理导入已变化，请重新读取。"@,
        TextKey::ProviderChanged => "供应商配置已变化，请重新加载。"@,
        TextKey::WireApi => "接口协议"@,
        TextKey::RelayMode => "中转模式"@,
        TextKey::BaseUrl => "基础地址"@,
        TextKey::ImportedCount => "已导入数量"@,
        TextKey::FailureCount => "失败数量"@,
        TextKey::SelectAtLeastOne => "请至少选择一个冲突项。"@,
        TextKey::InProgress => "正在处理"@,
        TextKey::ReviewPendingImport => "查看待处理导入"@,
        TextKey::EnvironmentHealthy => "环境检查通过"@,
        TextKey::EnvironmentIssues => "检测到环境问题"@,
        TextKey::CleanupConfirmationTitle => "确认清理环境变量"@,
        TextKey::CcsImportTitle => "cc-switch 供应商导入"@,
        TextKey::PendingImportTitle => "确认待处理供应商导入"@,
        TextKey::RefreshEnvironment => "刷新环境检查"@,
        TextKey::EnvironmentWorkerStopped => "环境检查后台服务已停止。"@,
        TextKey::ImportWorkerStopped => "供应商导入后台服务已停止。"@,
        TextKey::RetryInspection => "重新检查"@,
    }
}

/// The English catalog entry of a key.
pub open spec fn catalog_en(key: TextKey) -> Seq<char> {
    match key {
        TextKey::AppName => "Codex++"@,
        TextKey::Overview => "Overview"@,
        TextKey::Providers => "Providers"@,
        TextKey::About => "About"@,
        TextKey::OverviewSubtitle => "Inspect local installation and runtime"@,
        TextKey::ProvidersSubtitle => "Manage providers, models, and aggregate routing"@,
        TextKey::AboutSubtitle => "Native manager information"@,
        TextKey::Refresh => "Refresh"@,
        TextKey::Refreshing => "Refreshing"@,
        TextKey::Ready => "Ready"@,
        TextKey::Loading => "Loading"@,
        TextKey::Retry => "Retry"@,
        TextKey::CodexApplication => "Codex application"@,
        TextKey::SilentEntrypoint => "Launcher entry point"@,
        TextKey::ManagementEntrypoint => "Manager entry point"@,
        TextKey::Found => "Found"@,
        TextKey::Missing => "Missing"@,
        TextKey::Installed => "Installed"@,
        TextKey::LatestLaunch => "Latest launch"@,
        TextKey::NoLaunch => "No launch recorded"@,
        TextKey::Status => "Status"@,
        TextKey::StartedAt => "Started at"@,
        TextKey::DebugPort => "Debug port"@,
        TextKey::HelperPort => "Helper port"@,
        TextKey::CodexPath => "Codex path"@,
        TextKey::Version => "Version"@,
        TextKey::CodexPlusVersion => "Codex++ version"@,
        TextKey::CodexVersion => "Codex version"@,
        TextKey::LocalPaths => "Local paths"@,
        TextKey::SettingsPath => "Settings file"@,
        TextKey::LogsPath => "Diagnostic log"@,
        TextKey::Language => "Language"@,
        TextKey::Theme => "Theme"@,
        TextKey::Chinese => "Chinese"@,
        TextKey::English => "English"@,
        TextKey::Dark => "Dark"@,
        TextKey::Light => "Light"@,
        TextKey::LoadFailed => "Unable to load the overview."@,
        TextKey::WorkerStopped => "The background service has stopped."@,
        TextKey::Renderer => "Renderer"@,
        TextKey::License => "License"@,
        TextKey::LastUpdated => "Last updated"@,
        TextKey::Environment => "Environment"@,
        TextKey::EnvironmentSubtitle => "Inspect the local environment affecting provider connections"@,
        TextKey::ImportProviders => "Import providers"@,
        TextKey::ImportFromCcs => "Import from cc-switch"@,
        TextKey::ImportSource => "Import source"@,
        TextKey::Importable => "Importable"@,
        TextKey::Duplicates => "Duplicates"@,
        TextKey::Duplicate => "Duplicate"@,
        TextKey::ImportNew => "Import new"@,
        TextKey::Cancel => "Cancel"@,
        TextKey::PendingImport => "Pending import"@,
        TextKey::ConfirmImport => "Confirm import"@,
        TextKey::DismissImport => "Dismiss import"@,
        TextKey::RefreshPendingImport => "Refresh pending import"@,
        TextKey::ApiKeyPresent => "API key provided"@,
        TextKey::ApiKeyMissing => "No API key provided"@,
        TextKey::ProviderDraftDirty => "Save or discard the provider draft first."@,
        TextKey::ImportSucceeded => "Provider import completed"@,
        TextKey::NoImportableProviders => "No new providers to import"@,
        TextKey::RelayDiagnostics => "Relay environment diagnostics"@,
        TextKey::TunMode => "TUN mode"@,
        TextKey::ProxyEnvironment => "Proxy environment"@,
        TextKey::CodexEnvFile => "Codex .env file"@,
        TextKey::OpenAiConflicts => "OPENAI environment conflicts"@,
        TextKey::Enabled => "Enabled"@,
        TextKey::Disabled => "Disabled"@,
        TextKey::Present => "Present"@,
        TextKey::NotPresent => "Not present"@,
        TextKey::Process => "Process"@,
        TextKey::User => "User"@,
        TextKey::System => "System"@,
        TextKey::Removed => "Removed"@,
        TextKey::Failed => "Failed"@,
        TextKey::CleanupSelected => "Clean selected"@,
        TextKey::ConfirmCleanup => "Confirm cleanup"@,
        TextKey::CleanupSucceeded => "Environment cleanup completed"@,
        TextKey::CleanupPartial => "Some environment conflicts could not be removed"@,
        TextKey::BackupCreated => "Metadata backup created"@,
        TextKey::NoBackup => "No backup required"@,
        TextKey::RemainingConflicts => "Remaining conflicts"@,
        TextKey::NoConflicts => "No conflicts detected"@,
        TextKey::InspectionFailed => "Environment inspection failed"@,
        TextKey::CleanupFailed => "Environment cleanup failed"@,
        TextKey::SourceChanged => "The import source changed. Inspect it again."@,
        TextKey::EnvironmentChanged => "The environment changed. Inspect it again."@,
        TextKey::PendingChanged => "The pending import changed. Load it again."@,
        TextKey::ProviderChanged => "Provider settings changed. Reload them."@,
        TextKey::WireApi => "Wire API"@,
        TextKey::RelayMode => "Relay mode"@,
        TextKey::BaseUrl => "Base URL"@,
        TextKey::ImportedCount => "Imported count"@,
        TextKey::FailureCount => "Failure count"@,
        TextKey::SelectAtLeastOne => "Select at least one conflict."@,
        TextKey::InProgress => "In progress"@,
        TextKey::ReviewPendingImport => "Review pending import"@,
        TextKey::EnvironmentHealthy => "Environment checks passed"@,
        TextKey::EnvironmentIssues => "Environment issues detected"@,
        TextKey::CleanupConfirmationTitle => "Confirm environment cleanup"@,
        TextKey::CcsImportTitle => "cc-switch provider import"@,
        TextKey::PendingImportTitle => "Confirm pending provider import"@,
        TextKey::RefreshEnvironment => "Refresh environment checks"@,
        TextKey::EnvironmentWorkerStopped => "The environment worker has stopped."@,
        TextKey::ImportWorkerStopped => "The provider import worker has stopped."@,
        TextKey::RetryInspection => "Inspect again"@,
    }
}

/// The catalog entry of a key in a language.
pub open spec fn catalog_text(locale: Locale, key: TextKey) -> Seq<char> {
    match locale {
        Locale::ZhCn => catalog_zh(key),
        Locale::En => catalog_en(key),
    }
}

fn zh_text(key: TextKey) -> (text: &'static str)
    ensures
        text@ == catalog_zh(key),
{
    match key {
        TextKey::AppName => "Codex++",
        TextKey::Overview => "概览",
        TextKey::Providers => "供应商配置",
        TextKey::About => "关于",
        TextKey::OverviewSubtitle => "检查本地安装与运行状态",
        TextKey::ProvidersSubtitle => "管理供应商、模型与聚合路由",
        TextKey::AboutSubtitle => "原生管理工具信息",
        TextKey::Refresh => "刷新",
        TextKey::Refreshing => "正在刷新",
        TextKey::Ready => "已就绪",
        TextKey::Loading => "正在加载",
        TextKey::Retry => "重试",
        TextKey::CodexApplication => "Codex 应用",
        TextKey::SilentEntrypoint => "静默启动入口",
        TextKey::ManagementEntrypoint => "管理工具入口",
        TextKey::Found => "已找到",
        TextKey::Missing => "未找到",
        TextKey::Installed => "已安装",
        TextKey::LatestLaunch => "最近启动",
        TextKey::NoLaunch => "暂无启动记录",
        TextKey::Status => "状态",
        TextKey::StartedAt => "启动时间",
        TextKey::DebugPort => "调试端口",
        TextKey::HelperPort => "辅助端口",
        TextKey::CodexPath => "Codex 路径",
        TextKey::Version => "版本",
        TextKey::CodexPlusVersion => "Codex++ 版本",
        TextKey::CodexVersion => "Codex 版本",
        TextKey::LocalPaths => "本地路径",
        TextKey::SettingsPath => "设置文件",
        TextKey::LogsPath => "诊断日志",
        TextKey::Language => "语言",
        TextKey::Theme => "主题",
        TextKey::Chinese => "中文",
        TextKey::English => "English",
        TextKey::Dark => "深色",
        TextKey::Light => "浅色",
        TextKey::LoadFailed => "无法加载概览。",
        TextKey::WorkerStopped => "后台服务已停止。",
        TextKey::Renderer => "渲染器",
        TextKey::License => "许可证",
        TextKey::LastUpdated => "最近更新",
        TextKey::Environment => "环境检查",
        TextKey::EnvironmentSubtitle => "检查影响供应商连接的本机环境",
        TextKey::ImportProviders => "导入供应商",
        TextKey::ImportFromCcs => "从 cc-switch 导入",
        TextKey::ImportSource => "导入来源",
        TextKey::Importable => "可导入",
        TextKey::Duplicates => "重复项",
        TextKey::Duplicate => "已存在",
        TextKey::ImportNew => "导入新增项",
        TextKey::Cancel => "取消",
        TextKey::PendingImport => "待处理导入",
        TextKey::ConfirmImport => "确认导入",
        TextKey::DismissImport => "放弃导入",
        TextKey::RefreshPendingImport => "刷新待确认导入",
        TextKey::ApiKeyPresent => "已提供 API 密钥",
        TextKey::ApiKeyMissing => "未提供 API 密钥",
        TextKey::ProviderDraftDirty => "请先保存或放弃供应商草稿。",
        TextKey::ImportSucceeded => "供应商导入完成",
        TextKey::NoImportableProviders => "没有新的供应商可导入",
        TextKey::RelayDiagnostics => "中转环境诊断",
        TextKey::TunMode => "TUN 模式",
        TextKey::ProxyEnvironment => "代理环境变量",
        TextKey::CodexEnvFile => "Codex .env 文件",
        TextKey::OpenAiConflicts => "OPENAI 环境冲突",
        TextKey::Enabled => "已启用",
        TextKey::Disabled => "未启用",
        TextKey::Present => "存在",
        TextKey::NotPresent => "不存在",
        TextKey::Process => "进程",
        TextKey::User => "用户",
        TextKey::System => "系统",
        TextKey::Removed => "已删除",
        TextKey::Failed => "失败",
        TextKey::CleanupSelected => "清理所选项",
        TextKey::ConfirmCleanup => "确认清理",
        TextKey::CleanupSucceeded => "环境冲突清理完成",
        TextKey::CleanupPartial => "部分环境冲突未能清理",
        TextKey::BackupCreated => "已创建元数据备份",
        TextKey::NoBackup => "无需备份",
        TextKey::RemainingConflicts => "剩余冲突",
        TextKey::NoConflicts => "未检测到冲突",
        TextKey::InspectionFailed => "环境检查失败",
        TextKey::CleanupFailed => "环境清理失败",
        TextKey::SourceChanged => "导入来源已变化，请重新检查。",
        TextKey::EnvironmentChanged => "环境状态已变化，请重新检查。",
        TextKey::PendingChanged => "待处理导入已变化，请重新读取。",
        TextKey::ProviderChanged => "供应商配置已变化，请重新加载。",
        TextKey::WireApi => "接口协议",
        TextKey::RelayMode => "中转模式",
        TextKey::BaseUrl => "基础地址",
        TextKey::ImportedCount => "已导入数量",
        TextKey::FailureCount => "失败数量",
        TextKey::SelectAtLeastOne => "请至少选择一个冲突项。",
        TextKey::InProgress => "正在处理",
        TextKey::ReviewPendingImport => "查看待处理导入",
        TextKey::EnvironmentHealthy => "环境检查通过",
        TextKey::EnvironmentIssues => "检测到环境问题",
        TextKey::CleanupConfirmationTitle => "确认清理环境变量",
        TextKey::CcsImportTitle => "cc-switch 供应商导入",
        TextKey::PendingImportTitle => "确认待处理供应商导入",
        TextKey::RefreshEnvironment => "刷新环境检查",
        TextKey::EnvironmentWorkerStopped => "环境检查后台服务已停止。",
        TextKey::ImportWorkerStopped => "供应商导入后台服务已停止。",
        TextKey::RetryInspection => "重新检查",
    }
}

fn en_text(key: TextKey) -> (text: &'static str)
    ensures
        text@ == catalog_en(key),
{
    match key {
        TextKey::AppName => "Codex++",
        TextKey::Overview => "Overview",
        TextKey::Providers => "Providers",
        TextKey::About => "About",
        TextKey::OverviewSubtitle => "Inspect local installation and runtime",
        TextKey::ProvidersSubtitle => "Manage providers, models, and aggregate routing",
        TextKey::AboutSubtitle => "Native manager information",
        TextKey::Refresh => "Refresh",
        TextKey::Refreshing => "Refreshing",
        TextKey::Ready => "Ready",
        TextKey::Loading => "Loading",
        TextKey::Retry => "Retry",
        TextKey::CodexApplication => "Codex application",
        TextKey::SilentEntrypoint => "Launcher entry point",
        TextKey::ManagementEntrypoint => "Manager entry point",
        TextKey::Found => "Found",
        TextKey::Missing => "Missing",
        TextKey::Installed => "Installed",
        TextKey::LatestLaunch => "Latest launch",
        TextKey::NoLaunch => "No launch recorded",
        TextKey::Status => "Status",
        TextKey::StartedAt => "Started at",
        TextKey::DebugPort => "Debug port",
        TextKey::HelperPort => "Helper port",
        TextKey::CodexPath => "Codex path",
        TextKey::Version => "Version",
        TextKey::CodexPlusVersion => "Codex++ version",
        TextKey::CodexVersion => "Codex version",
        TextKey::LocalPaths => "Local paths",
        TextKey::SettingsPath => "Settings file",
        TextKey::LogsPath => "Diagnostic log",
        TextKey::Language => "Language",
        TextKey::Theme => "Theme",
        TextKey::Chinese => "Chinese",
        TextKey::English => "English",
        TextKey::Dark => "Dark",
        TextKey::Light => "Light",
        TextKey::LoadFailed => "Unable to load the overview.",
        TextKey::WorkerStopped => "The background service has stopped.",
        TextKey::Renderer => "Renderer",
        TextKey::License => "License",
        TextKey::LastUpdated => "Last updated",
        TextKey::Environment => "Environment",
        TextKey::EnvironmentSubtitle => "Inspect the local environment affecting provider connections",
        TextKey::ImportProviders => "Import providers",
        TextKey::ImportFromCcs => "Import from cc-switch",
        TextKey::ImportSource => "Import source",
        TextKey::Importable => "Importable",
        TextKey::Duplicates => "Duplicates",
        TextKey::Duplicate => "Duplicate",
        TextKey::ImportNew => "Import new",
        TextKey::Cancel => "Cancel",
        TextKey::PendingImport => "Pending import",
        TextKey::ConfirmImport => "Confirm import",
        TextKey::DismissImport => "Dismiss import",
        TextKey::RefreshPendingImport => "Refresh pending import",
        TextKey::ApiKeyPresent => "API key provided",
        TextKey::ApiKeyMissing => "No API key provided",
        TextKey::ProviderDraftDirty => "Save or discard the provider draft first.",
        TextKey::ImportSucceeded => "Provider import completed",
        TextKey::NoImportableProviders => "No new providers to import",
        TextKey::RelayDiagnostics => "Relay environment diagnostics",
        TextKey::TunMode => "TUN mode",
        TextKey::ProxyEnvironment => "Proxy environment",
        TextKey::CodexEnvFile => "Codex .env file",
        TextKey::OpenAiConflicts => "OPENAI environment conflicts",
        TextKey::Enabled => "Enabled",
        TextKey::Disabled => "Disabled",
        TextKey::Present => "Present",
        TextKey::NotPresent => "Not present",
        TextKey::Process => "Process",
        TextKey::User => "User",
        TextKey::System => "System",
        TextKey::Removed => "Removed",
        TextKey::Failed => "Failed",
        TextKey::CleanupSelected => "Clean selected",
        TextKey::ConfirmCleanup => "Confirm cleanup",
        TextKey::CleanupSucceeded => "Environment cleanup completed",
        TextKey::CleanupPartial => "Some environment conflicts could not be removed",
        TextKey::BackupCreated => "Metadata backup created",
        TextKey::NoBackup => "No backup required",
        TextKey::RemainingConflicts => "Remaining conflicts",
        TextKey::NoConflicts => "No conflicts detected",
        TextKey::InspectionFailed => "Environment inspection failed",
        TextKey::CleanupFailed => "Environment cleanup failed",
        TextKey::SourceChanged => "The import source changed. Inspect it again.",
        TextKey::EnvironmentChanged => "The environment changed. Inspect it again.",
        TextKey::PendingChanged => "The pending import changed. Load it again.",
        TextKey::ProviderChanged => "Provider settings changed. Reload them.",
        TextKey::WireApi => "Wire API",
        TextKey::RelayMode => "Relay mode",
        TextKey::BaseUrl => "Base URL",
        TextKey::ImportedCount => "Imported count",
        TextKey::FailureCount => "Failure count",
        TextKey::SelectAtLeastOne => "Select at least one conflict.",
        TextKey::InProgress => "In progress",
        TextKey::ReviewPendingImport => "Review pending import",
        TextKey::EnvironmentHealthy => "Environment checks passed",
        TextKey::EnvironmentIssues => "Environment issues detected",
        TextKey::CleanupConfirmationTitle => "Confirm environment cleanup",
        TextKey::CcsImportTitle => "cc-switch provider import",
        TextKey::PendingImportTitle => "Confirm pending provider import",
        TextKey::RefreshEnvironment => "Refresh environment checks",
        TextKey::EnvironmentWorkerStopped => "The environment worker has stopped.",
        TextKey::ImportWorkerStopped => "The provider import worker has stopped.",
        TextKey::RetryInspection => "Inspect again",
    }
}

/// The text of a catalog key in a language.
pub fn text(locale: Locale, key: TextKey) -> (text: &'static str)
    ensures
        text@ == catalog_text(locale, key),
{
    match locale {
        Locale::ZhCn => zh_text(key),
        Locale::En => en_text(key),
    }
}

/// Unicode white space, the characters that trimming removes.
pub open spec fn is_white_space(c: char) -> bool {
    let n = c as u32;
    (0x9 <= n && n <= 0xd) || n == 0x20 || n == 0x85 || n == 0xa0 || n == 0x1680 || (0x2000 <= n
        && n <= 0x200a) || n == 0x2028 || n == 0x2029 || n == 0x202f || n == 0x205f || n == 0x3000
}

/// The text still holds something once surrounding white space is trimmed.
pub open spec fn has_visible_text(s: Seq<char>) -> bool {
    exists|i: int| 0 <= i < s.len() && !is_white_space(#[trigger] s[i])
}

proof fn lemma_visible_first(s: Seq<char>)
    requires
        s.len() > 0,
        !is_white_space(s[0]),
    ensures
        has_visible_text(s),
{
    assert(!is_white_space(s[0]));
}

/// Every catalog key has a visible text in both languages.
pub proof fn law_every_key_has_both_locales(key: TextKey)
    ensures
        has_visible_text(catalog_text(Locale::ZhCn, key)),
        has_visible_text(catalog_text(Locale::En, key)),
{
    match key {
        TextKey::AppName => {
            reveal_strlit("Codex++");
            reveal_strlit("Codex++");
            lemma_visible_first("Codex++"@);
            lemma_visible_first("Codex++"@);
        },
        TextKey::Overview => {
            reveal_strlit("概览");
            reveal_strlit("Overview");
            lemma_visible_first("概览"@);
            lemma_visible_first("Overview"@);
        },
        TextKey::Providers => {
            reveal_strlit("供应商配置");
            reveal_strlit("Providers");
            lemma_visible_first("供应商配置"@);
            lemma_visible_first("Providers"@);
        },
        TextKey::About => {
            reveal_strlit("关于");
            reveal_strlit("About");
            lemma_visible_first("关于"@);
            lemma_visible_first("About"@);
        },
        TextKey::OverviewSubtitle => {
            reveal_strlit("检查本地安装与运行状态");
            reveal_strlit("Inspect local installation and runtime");
            lemma_visible_first("检查本地安装与运行状态"@);
            lemma_visible_first("Inspect local installation and runtime"@);
        },
        TextKey::ProvidersSubtitle => {
            reveal_strlit("管理供应商、模型与聚合路由");
            reveal_strlit("Manage providers, models, and aggregate routing");
            lemma_visible_first("管理供应商、模型与聚合路由"@);
            lemma_visible_first("Manage providers, models, and aggregate routing"@);
        },
        TextKey::AboutSubtitle => {
            reveal_strlit("原生管理工具信息");
            reveal_strlit("Native manager information");
            lemma_visible_first("原生管理工具信息"@);
            lemma_visible_first("Native manager information"@);
        },
        TextKey::Refresh => {
            reveal_strlit("刷新");
            reveal_strlit("Refresh");
            lemma_visible_first("刷新"@);
            lemma_visible_first("Refresh"@);
        },
        TextKey::Refreshing => {
            reveal_strlit("正在刷新");
            reveal_strlit("Refreshing");
            lemma_visible_first("正在刷新"@);
            lemma_visible_first("Refreshing"@);
        },
        TextKey::Ready => {
            reveal_strlit("已就绪");
            reveal_strlit("Ready");
            lemma_visible_first("已就绪"@);
            lemma_visible_first("Ready"@);
        },
        TextKey::Loading => {
            reveal_strlit("正在加载");
            reveal_strlit("Loading");
            lemma_visible_first("正在加载"@);
            lemma_visible_first("Loading"@);
        },
        TextKey::Retry => {
            reveal_strlit("重试");
            reveal_strlit("Retry");
            lemma_visible_first("重试"@);
            lemma_visible_first("Retry"@);
        },
        TextKey::CodexApplication => {
            reveal_strlit("Codex 应用");
            reveal_strlit("Codex application");
            lemma_visible_first("Codex 应用"@);
            lemma_visible_first("Codex application"@);
        },
        TextKey::SilentEntrypoint => {
            reveal_strlit("静默启动入口");
            reveal_strlit("Launcher entry point");
            lemma_visible_first("静默启动入口"@);
            lemma_visible_first("Launcher entry point"@);
        },
        TextKey::ManagementEntrypoint => {
            reveal_strlit("管理工具入口");
            reveal_strlit("Manager entry point");
            lemma_visible_first("管理工具入口"@);
            lemma_visible_first("Manager entry point"@);
        },
        TextKey::Found => {
            reveal_strlit("已找到");
            reveal_strlit("Found");
            lemma_visible_first("已找到"@);
            lemma_visible_first("Found"@);
        },
        TextKey::Missing => {
            reveal_strlit("未找到");
            reveal_strlit("Missing");
            lemma_visible_first("未找到"@);
            lemma_visible_first("Missing"@);
        },
        TextKey::Installed => {
            reveal_strlit("已安装");
            reveal_strlit("Installed");
            lemma_visible_first("已安装"@);
            lemma_visible_first("Installed"@);
        },
        TextKey::LatestLaunch => {
            reveal_strlit("最近启动");
            reveal_strlit("Latest launch");
            lemma_visible_first("最近启动"@);
            lemma_visible_first("Latest launch"@);
        },
        TextKey::NoLaunch => {
            reveal_strlit("暂无启动记录");
            reveal_strlit("No launch recorded");
            lemma_visible_first("暂无启动记录"@);
            lemma_visible_first("No launch recorded"@);
        },
        TextKey::Status => {
            reveal_strlit("状态");
            reveal_strlit("Status");
            lemma_visible_first("状态"@);
            lemma_visible_first("Status"@);
        },
        TextKey::StartedAt => {
            reveal_strlit("启动时间");
            reveal_strlit("Started at");
            lemma_visible_first("启动时间"@);
            lemma_visible_first("Started at"@);
        },
        TextKey::DebugPort => {
            reveal_strlit("调试端口");
            reveal_strlit("Debug port");
            lemma_visible_first("调试端口"@);
            lemma_visible_first("Debug port"@);
        },
        TextKey::HelperPort => {
            reveal_strlit("辅助端口");
            reveal_strlit("Helper port");
            lemma_visible_first("辅助端口"@);
            lemma_visible_first("Helper port"@);
        },
        TextKey::CodexPath => {
            reveal_strlit("Codex 路径");
            reveal_strlit("Codex path");
            lemma_visible_first("Codex 路径"@);
            lemma_visible_first("Codex path"@);
        },
        TextKey::Version => {
            reveal_strlit("版本");
            reveal_strlit("Version");
            lemma_visible_first("版本"@);
            lemma_visible_first("Version"@);
        },
        TextKey::CodexPlusVersion => {
            reveal_strlit("Codex++ 版本");
            reveal_strlit("Codex++ version");
            lemma_visible_first("Codex++ 版本"@);
            lemma_visible_first("Codex++ version"@);
        },
        TextKey::CodexVersion => {
            reveal_strlit("Codex 版本");
            reveal_strlit("Codex version");
            lemma_visible_first("Codex 版本"@);
            lemma_visible_first("Codex version"@);
        },
        TextKey::LocalPaths => {
            reveal_strlit("本地路径");
            reveal_strlit("Local paths");
            lemma_visible_first("本地路径"@);
            lemma_visible_first("Local paths"@);
        },
        TextKey::SettingsPath => {
            reveal_strlit("设置文件");
            reveal_strlit("Settings file");
            lemma_visible_first("设置文件"@);
            lemma_visible_first("Settings file"@);
        },
        TextKey::LogsPath => {
            reveal_strlit("诊断日志");
            reveal_strlit("Diagnostic log");
            lemma_visible_first("诊断日志"@);
            lemma_visible_first("Diagnostic log"@);
        },
        TextKey::Language => {
            reveal_strlit("语言");
            reveal_strlit("Language");
            lemma_visible_first("语言"@);
            lemma_visible_first("Language"@);
        },
        TextKey::Theme => {
            reveal_strlit("主题");
            reveal_strlit("Theme");
            lemma_visible_first("主题"@);
            lemma_visible_first("Theme"@);
        },
        TextKey::Chinese => {
            reveal_strlit("中文");
            reveal_strlit("Chinese");
            lemma_visible_first("中文"@);
            lemma_visible_first("Chinese"@);
        },
        TextKey::English => {
            reveal_strlit("English");
            reveal_strlit("English");
            lemma_visible_first("English"@);
            lemma_visible_first("English"@);
        },
        TextKey::Dark => {
            reveal_strlit("深色");
            reveal_strlit("Dark");
            lemma_visible_first("深色"@);
            lemma_visible_first("Dark"@);
        },
        TextKey::Light => {
            reveal_strlit("浅色");
            reveal_strlit("Light");
            lemma_visible_first("浅色"@);
            lemma_visible_first("Light"@);
        },
        TextKey::LoadFailed => {
            reveal_strlit("无法加载概览。");
            reveal_strlit("Unable to load the overview.");
            lemma_visible_first("无法加载概览。"@);
            lemma_visible_first("Unable to load the overview."@);
        },
        TextKey::WorkerStopped => {
            reveal_strlit("后台服务已停止。");
            reveal_strlit("The background service has stopped.");
            lemma_visible_first("后台服务已停止。"@);
            lemma_visible_first("The background service has stopped."@);
        },
        TextKey::Renderer => {
            reveal_strlit("渲染器");
            reveal_strlit("Renderer");
            lemma_visible_first("渲染器"@);
            lemma_visible_first("Renderer"@);
        },
        TextKey::License => {
            reveal_strlit("许可证");
            reveal_strlit("License");
            lemma_visible_first("许可证"@);
            lemma_visible_first("License"@);
        },
        TextKey::LastUpdated => {
            reveal_strlit("最近更新");
            reveal_strlit("Last updated");
            lemma_visible_first("最近更新"@);
            lemma_visible_first("Last updated"@);
        },
        TextKey::Environment => {
            reveal_strlit("环境检查");
            reveal_strlit("Environment");
            lemma_visible_first("环境检查"@);
            lemma_visible_first("Environment"@);
        },
        TextKey::EnvironmentSubtitle => {
            reveal_strlit("检查影响供应商连接的本机环境");
            reveal_strlit("Inspect the local environment affecting provider connections");
            lemma_visible_first("检查影响供应商连接的本机环境"@);
            lemma_visible_first("Inspect the local environment affecting provider connections"@);
        },
        TextKey::ImportProviders => {
            reveal_strlit("导入供应商");
            reveal_strlit("Import providers");
            lemma_visible_first("导入供应商"@);
            lemma_visible_first("Import providers"@);
        },
        TextKey::ImportFromCcs => {
            reveal_strlit("从 cc-switch 导入");
            reveal_strlit("Import from cc-switch");
            lemma_visible_first("从 cc-switch 导入"@);
            lemma_visible_first("Import from cc-switch"@);
        },
        TextKey::ImportSource => {
            reveal_strlit("导入来源");
            reveal_strlit("Import source");
            lemma_visible_first("导入来源"@);
            lemma_visible_first("Import source"@);
        },
        TextKey::Importable => {
            reveal_strlit("可导入");
            reveal_strlit("Importable");
            lemma_visible_first("可导入"@);
            lemma_visible_first("Importable"@);
        },
        TextKey::Duplicates => {
            reveal_strlit("重复项");
            reveal_strlit("Duplicates");
            lemma_visible_first("重复项"@);
            lemma_visible_first("Duplicates"@);
        },
        TextKey::Duplicate => {
            reveal_strlit("已存在");
            reveal_strlit("Duplicate");
            lemma_visible_first("已存在"@);
            lemma_visible_first("Duplicate"@);
        },
        TextKey::ImportNew => {
            reveal_strlit("导入新增项");
            reveal_strlit("Import new");
            lemma_visible_first("导入新增项"@);
            lemma_visible_first("Import new"@);
        },
        TextKey::Cancel => {
            reveal_strlit("取消");
            reveal_strlit("Cancel");
            lemma_visible_first("取消"@);
            lemma_visible_first("Cancel"@);
        },
        TextKey::PendingImport => {
            reveal_strlit("待处理导入");
            reveal_strlit("Pending import");
            lemma_visible_first("待处理导入"@);
            lemma_visible_first("Pending import"@);
        },
        TextKey::ConfirmImport => {
            reveal_strlit("确认导入");
            reveal_strlit("Confirm import");
            lemma_visible_first("确认导入"@);
            lemma_visible_first("Confirm import"@);
        },
        TextKey::DismissImport => {
            reveal_strlit("放弃导入");
            reveal_strlit("Dismiss import");
            lemma_visible_first("放弃导入"@);
            lemma_visible_first("Dismiss import"@);
        },
        TextKey::RefreshPendingImport => {
            reveal_strlit("刷新待确认导入");
            reveal_strlit("Refresh pending import");
            lemma_visible_first("刷新待确认导入"@);
            lemma_visible_first("Refresh pending import"@);
        },
        TextKey::ApiKeyPresent => {
            reveal_strlit("已提供 API 密钥");
            reveal_strlit("API key provided");
            lemma_visible_first("已提供 API 密钥"@);
            lemma_visible_first("API key provided"@);
        },
        TextKey::ApiKeyMissing => {
            reveal_strlit("未提供 API 密钥");
            reveal_strlit("No API key provided");
            lemma_visible_first("未提供 API 密钥"@);
            lemma_visible_first("No API key provided"@);
        },
        TextKey::ProviderDraftDirty => {
            reveal_strlit("请先保存或放弃供应商草稿。");
            reveal_strlit("Save or discard the provider draft first.");
            lemma_visible_first("请先保存或放弃供应商草稿。"@);
            lemma_visible_first("Save or discard the provider draft first."@);
        },
        TextKey::ImportSucceeded => {
            reveal_strlit("供应商导入完成");
            reveal_strlit("Provider import completed");
            lemma_visible_first("供应商导入完成"@);
            lemma_visible_first("Provider import completed"@);
        },
        TextKey::NoImportableProviders => {
            reveal_strlit("没有新的供应商可导入");
            reveal_strlit("No new providers to import");
            lemma_visible_first("没有新的供应商可导入"@);
            lemma_visible_first("No new providers to import"@);
        },
        TextKey::RelayDiagnostics => {
            reveal_strlit("中转环境诊断");
            reveal_strlit("Relay environment diagnostics");
            lemma_visible_first("中转环境诊断"@);
            lemma_visible_first("Relay environment diagnostics"@);
        },
        TextKey::TunMode => {
            reveal_strlit("TUN 模式");
            reveal_strlit("TUN mode");
            lemma_visible_first("TUN 模式"@);
            lemma_visible_first("TUN mode"@);
        },
        TextKey::ProxyEnvironment => {
            reveal_strlit("代理环境变量");
            reveal_strlit("Proxy environment");
            lemma_visible_first("代理环境变量"@);
            lemma_visible_first("Proxy environment"@);
        },
        TextKey::CodexEnvFile => {
            reveal_strlit("Codex .env 文件");
            reveal_strlit("Codex .env file");
            lemma_visible_first("Codex .env 文件"@);
            lemma_visible_first("Codex .env file"@);
        },
        TextKey::OpenAiConflicts => {
            reveal_strlit("OPENAI 环境冲突");
            reveal_strlit("OPENAI environment conflicts");
            lemma_visible_first("OPENAI 环境冲突"@);
            lemma_visible_first("OPENAI environment conflicts"@);
        },
        TextKey::Enabled => {
            reveal_strlit("已启用");
            reveal_strlit("Enabled");
            lemma_visible_first("已启用"@);
            lemma_visible_first("Enabled"@);
        },
        TextKey::Disabled => {
            reveal_strlit("未启用");
            reveal_strlit("Disabled");
            lemma_visible_first("未启用"@);
            lemma_visible_first("Disabled"@);
        },
        TextKey::Present => {
            reveal_strlit("存在");
            reveal_strlit("Present");
            lemma_visible_first("存在"@);
            lemma_visible_first("Present"@);
        },
        TextKey::NotPresent => {
            reveal_strlit("不存在");
            reveal_strlit("Not present");
            lemma_visible_first("不存在"@);
            lemma_visible_first("Not present"@);
        },
        TextKey::Process => {
            reveal_strlit("进程");
            reveal_strlit("Process");
            lemma_visible_first("进程"@);
            lemma_visible_first("Process"@);
        },
        TextKey::User => {
            reveal_strlit("用户");
            reveal_strlit("User");
            lemma_visible_first("用户"@);
            lemma_visible_first("User"@);
        },
        TextKey::System => {
            reveal_strlit("系统");
            reveal_strlit("System");
            lemma_visible_first("系统"@);
            lemma_visible_first("System"@);
        },
        TextKey::Removed => {
            reveal_strlit("已删除");
            reveal_strlit("Removed");
            lemma_visible_first("已删除"@);
            lemma_visible_first("Removed"@);
        },
        TextKey::Failed => {
            reveal_strlit("失败");
            reveal_strlit("Failed");
            lemma_visible_first("失败"@);
            lemma_visible_first("Failed"@);
        },
        TextKey::CleanupSelected => {
            reveal_strlit("清理所选项");
            reveal_strlit("Clean selected");
            lemma_visible_first("清理所选项"@);
            lemma_visible_first("Clean selected"@);
        },
        TextKey::ConfirmCleanup => {
            reveal_strlit("确认清理");
            reveal_strlit("Confirm cleanup");
            lemma_visible_first("确认清理"@);
            lemma_visible_first("Confirm cleanup"@);
        },
        TextKey::CleanupSucceeded => {
            reveal_strlit("环境冲突清理完成");
            reveal_strlit("Environment cleanup completed");
            lemma_visible_first("环境冲突清理完成"@);
            lemma_visible_first("Environment cleanup completed"@);
        },
        TextKey::CleanupPartial => {
            reveal_strlit("部分环境冲突未能清理");
            reveal_strlit("Some environment conflicts could not be removed");
            lemma_visible_first("部分环境冲突未能清理"@);
            lemma_visible_first("Some environment conflicts could not be removed"@);
        },
        TextKey::BackupCreated => {
            reveal_strlit("已创建元数据备份");
            reveal_strlit("Metadata backup created");
            lemma_visible_first("已创建元数据备份"@);
            lemma_visible_first("Metadata backup created"@);
        },
        TextKey::NoBackup => {
            reveal_strlit("无需备份");
            reveal_strlit("No backup required");
            lemma_visible_first("无需备份"@);
            lemma_visible_first("No backup required"@);
        },
        TextKey::RemainingConflicts => {
            reveal_strlit("剩余冲突");
            reveal_strlit("Remaining conflicts");
            lemma_visible_first("剩余冲突"@);
            lemma_visible_first("Remaining conflicts"@);
        },
        TextKey::NoConflicts => {
            reveal_strlit("未检测到冲突");
            reveal_strlit("No conflicts detected");
            lemma_visible_first("未检测到冲突"@);
            lemma_visible_first("No conflicts detected"@);
        },
        TextKey::InspectionFailed => {
            reveal_strlit("环境检查失败");
            reveal_strlit("Environment inspection failed");
            lemma_visible_first("环境检查失败"@);
            lemma_visible_first("Environment inspection failed"@);
        },
        TextKey::CleanupFailed => {
            reveal_strlit("环境清理失败");
            reveal_strlit("Environment cleanup failed");
            lemma_visible_first("环境清理失败"@);
            lemma_visible_first("Environment cleanup failed"@);
        },
        TextKey::SourceChanged => {
            reveal_strlit("导入来源已变化，请重新检查。");
            reveal_strlit("The import source changed. Inspect it again.");
            lemma_visible_first("导入来源已变化，请重新检查。"@);
            lemma_visible_first("The import source changed. Inspect it again."@);
        },
        TextKey::EnvironmentChanged => {
            reveal_strlit("环境状态已变化，请重新检查。");
            reveal_strlit("The environment changed. Inspect it again.");
            lemma_visible_first("环境状态已变化，请重新检查。"@);
            lemma_visible_first("The environment changed. Inspect it again."@);
        },
        TextKey::PendingChanged => {
            reveal_strlit("待处理导入已变化，请重新读取。");
            reveal_strlit("The pending import changed. Load it again.");
            lemma_visible_first("待处理导入已变化，请重新读取。"@);
            lemma_visible_first("The pending import changed. Load it again."@);
        },
        TextKey::ProviderChanged => {
            reveal_strlit("供应商配置已变化，请重新加载。");
            reveal_strlit("Provider settings changed. Reload them.");
            lemma_visible_first("供应商配置已变化，请重新加载。"@);
            lemma_visible_first("Provider settings changed. Reload them."@);
        },
        TextKey::WireApi => {
            reveal_strlit("接口协议");
            reveal_strlit("Wire API");
            lemma_visible_first("接口协议"@);
            lemma_visible_first("Wire API"@);
        },
        TextKey::RelayMode => {
            reveal_strlit("中转模式");
            reveal_strlit("Relay mode");
            lemma_visible_first("中转模式"@);
            lemma_visible_first("Relay mode"@);
        },
        TextKey::BaseUrl => {
            reveal_strlit("基础地址");
            reveal_strlit("Base URL");
            lemma_visible_first("基础地址"@);
            lemma_visible_first("Base URL"@);
        },
        TextKey::ImportedCount => {
            reveal_strlit("已导入数量");
            reveal_strlit("Imported count");
            lemma_visible_first("已导入数量"@);
            lemma_visible_first("Imported count"@);
        },
        TextKey::FailureCount => {
            reveal_strlit("失败数量");
            reveal_strlit("Failure count");
            lemma_visible_first("失败数量"@);
            lemma_visible_first("Failure count"@);
        },
        TextKey::SelectAtLeastOne => {
            reveal_strlit("请至少选择一个冲突项。");
            reveal_strlit("Select at least one conflict.");
            lemma_visible_first("请至少选择一个冲突项。"@);
            lemma_visible_first("Select at least one conflict."@);
        },
        TextKey::InProgress => {
            reveal_strlit("正在处理");
            reveal_strlit("In progress");
            lemma_visible_first("正在处理"@);
            lemma_visible_first("In progress"@);
        },
        TextKey::ReviewPendingImport => {
            reveal_strlit("查看待处理导入");
            reveal_strlit("Review pending import");
            lemma_visible_first("查看待处理导入"@);
            lemma_visible_first("Review pending import"@);
        },
        TextKey::EnvironmentHealthy => {
            reveal_strlit("环境检查通过");
            reveal_strlit("Environment checks passed");
            lemma_visible_first("环境检查通过"@);
            lemma_visible_first("Environment checks passed"@);
        },
        TextKey::EnvironmentIssues => {
            reveal_strlit("检测到环境问题");
            reveal_strlit("Environment issues detected");
            lemma_visible_first("检测到环境问题"@);
            lemma_visible_first("Environment issues detected"@);
        },
        TextKey::CleanupConfirmationTitle => {
            reveal_strlit("确认清理环境变量");
            reveal_strlit("Confirm environment cleanup");
            lemma_visible_first("确认清理环境变量"@);
            lemma_visible_first("Confirm environment cleanup"@);
        },
        TextKey::CcsImportTitle => {
            reveal_strlit("cc-switch 供应商导入");
            reveal_strlit("cc-switch provider import");
            lemma_visible_first("cc-switch 供应商导入"@);
            lemma_visible_first("cc-switch provider import"@);
        },
        TextKey::PendingImportTitle => {
            reveal_strlit("确认待处理供应商导入");
            reveal_strlit("Confirm pending provider import");
            lemma_visible_first("确认待处理供应商导入"@);
            lemma_visible_first("Confirm pending provider import"@);
        },
        TextKey::RefreshEnvironment => {
            reveal_strlit("刷新环境检查");
            reveal_strlit("Refresh environment checks");
            lemma_visible_first("刷新环境检查"@);
            lemma_visible_first("Refresh environment checks"@);
        },
        TextKey::EnvironmentWorkerStopped => {
            reveal_strlit("环境检查后台服务已停止。");
            reveal_strlit("The environment worker has stopped.");
            lemma_visible_first("环境检查后台服务已停止。"@);
            lemma_visible_first("The environment worker has stopped."@);
        },
        TextKey::ImportWorkerStopped => {
            reveal_strlit("供应商导入后台服务已停止。");
            reveal_strlit("The provider import worker has stopped.");
            lemma_visible_first("供应商导入后台服务已停止。"@);
            lemma_visible_first("The provider import worker has stopped."@);
        },
        TextKey::RetryInspection => {
            reveal_strlit("重新检查");
            reveal_strlit("Inspect again");
            lemma_visible_first("重新检查"@);
            lemma_visible_first("Inspect again"@);
        },
    }
}

} // verus!
