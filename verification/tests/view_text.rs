use codex_plus_manager_native::about_text::{about_text, AboutText};
use codex_plus_manager_native::context_text::{
    chinese_editor_title, create_label, editor_title, kind_noun, ContextEditorMode, ContextKind,
};
use codex_plus_manager_native::enhancement_text::{etext, failure_text, EText};
use codex_plus_manager_native::enhancements::EnhancementFailureKind;
use codex_plus_manager_native::i18n::Locale;
use codex_plus_manager_native::provider_edit::{
    AggregateRelayStrategy, ProviderSaveFailureKind, RelayMode, RelayModelInsertMode,
    RelayProtocol,
};
use codex_plus_manager_native::provider_text::{
    insert_mode_label, mode_label, protocol_label, ptext, save_failure_key, strategy_label, PText,
};
use codex_plus_manager_native::session_text::{delete_status_text, DeleteStatus};

#[test]
fn enhancement_texts_follow_the_locale() {
    assert_eq!(etext(Locale::ZhCn, EText::Enhancements), "增强功能");
    assert_eq!(etext(Locale::En, EText::Enhancements), "Enhancements");
    assert_eq!(etext(Locale::ZhCn, EText::ComputerUseGuard), "Computer Use Guard");
    assert_eq!(etext(Locale::En, EText::ComputerUseGuard), "Computer Use Guard");
    assert_eq!(
        etext(Locale::En, EText::ResetMessage),
        "Only the enhancement settings group will return to defaults."
    );
    assert_eq!(
        failure_text(Locale::En, EnhancementFailureKind::WorkerStopped),
        "The enhancement settings worker has stopped"
    );
    assert_eq!(failure_text(Locale::ZhCn, EnhancementFailureKind::SettingsConflict), "增强设置已在磁盘上更改");
}

#[test]
fn provider_texts_and_labels_follow_the_locale() {
    assert_eq!(ptext(Locale::ZhCn, PText::ProviderList), "供应商列表");
    assert_eq!(ptext(Locale::En, PText::SaveFailed), "Unable to save provider workspace.");
    assert_eq!(mode_label(Locale::En, RelayMode::MixedApi), "Mixed API");
    assert_eq!(mode_label(Locale::ZhCn, RelayMode::Aggregate), "聚合供应商");
    assert_eq!(protocol_label(Locale::En, RelayProtocol::ChatCompletions), "Chat Completions");
    assert_eq!(insert_mode_label(Locale::ZhCn, RelayModelInsertMode::ModelCatalog), "模型目录");
    assert_eq!(strategy_label(Locale::En, AggregateRelayStrategy::WeightedRoundRobin), "Weighted round robin");
    assert_eq!(
        ptext(Locale::En, save_failure_key(ProviderSaveFailureKind::WorkerStopped)),
        "The provider background service has stopped."
    );
    assert_eq!(save_failure_key(ProviderSaveFailureKind::Conflict), PText::SaveConflict);
}

#[test]
fn about_and_delete_status_texts() {
    assert_eq!(about_text(Locale::ZhCn, AboutText::Repository), "项目仓库");
    assert_eq!(about_text(Locale::En, AboutText::Issues), "Report an issue");
    assert_eq!(delete_status_text(Locale::En, &DeleteStatus::LocalDeleted), "Deleted");
    assert_eq!(delete_status_text(Locale::ZhCn, &DeleteStatus::ServerDeleted), "已删除");
    assert_eq!(delete_status_text(Locale::En, &DeleteStatus::Undone), "Restored");
    assert_eq!(delete_status_text(Locale::ZhCn, &DeleteStatus::Partial), "部分删除");
}

#[test]
fn context_editor_titles() {
    assert_eq!(kind_noun(Locale::ZhCn, ContextKind::Mcp), "MCP");
    assert_eq!(kind_noun(Locale::En, ContextKind::Plugin), "Plugin");
    assert_eq!(chinese_editor_title(ContextEditorMode::Create, ContextKind::Mcp), "新建 MCP 条目");
    assert_eq!(chinese_editor_title(ContextEditorMode::Edit, ContextKind::Skill), "编辑技能条目");
    assert_eq!(editor_title(Locale::En, ContextEditorMode::Edit, ContextKind::Skill), "Edit Skill entry");
    assert_eq!(editor_title(Locale::ZhCn, ContextEditorMode::Edit, ContextKind::Plugin), "编辑插件条目");
    assert_eq!(create_label(Locale::En, ContextKind::Mcp), "Create MCP entry");
    assert_eq!(create_label(Locale::ZhCn, ContextKind::Plugin), "新建插件条目");
}
