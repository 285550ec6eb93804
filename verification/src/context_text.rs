use vstd::prelude::*;

use crate::i18n::Locale;

verus! {

/// The kinds of context entries Codex++ manages.
#[derive(Debug, Clone, Copy, PartialEq, Eq, Structural)]
pub enum ContextKind {
    Mcp,
    Skill,
    Plugin,
}

/// Whether the context editor creates an entry or edits one.
#[derive(Debug, Clone, Copy, PartialEq, Eq, Structural)]
pub enum ContextEditorMode {
    Create,
    Edit,
}

/// The noun that names a kind of entry.
pub open spec fn kind_noun_spec(locale: Locale, kind: ContextKind) -> Seq<char> {
    match (locale, kind) {
        (_, ContextKind::Mcp) => "MCP"@,
        (Locale::ZhCn, ContextKind::Skill) => "技能"@,
        (Locale::ZhCn, ContextKind::Plugin) => "插件"@,
        (Locale::En, ContextKind::Skill) => "Skill"@,
        (Locale::En, ContextKind::Plugin) => "Plugin"@,
    }
}

/// The noun that names a kind of entry.
pub fn kind_noun(locale: Locale, kind: ContextKind) -> (noun: &'static str)
    ensures
        noun@ == kind_noun_spec(locale, kind),
{
    match (locale, kind) {
        (_, ContextKind::Mcp) => "MCP",
        (Locale::ZhCn, ContextKind::Skill) => "技能",
        (Locale::ZhCn, ContextKind::Plugin) => "插件",
        (Locale::En, ContextKind::Skill) => "Skill",
        (Locale::En, ContextKind::Plugin) => "Plugin",
    }
}

/// The Chinese title of the editor: the action, then the kind of entry.
pub open spec fn chinese_editor_title_spec(mode: ContextEditorMode, kind: ContextKind) -> Seq<char> {
    let action = match mode {
        ContextEditorMode::Create => "新建"@,
        ContextEditorMode::Edit => "编辑"@,
    };
    action + match kind {
        ContextKind::Mcp => " MCP 条目"@,
        ContextKind::Skill => "技能条目"@,
        ContextKind::Plugin => "插件条目"@,
    }
}

/// The Chinese title of the editor.
pub fn chinese_editor_title(mode: ContextEditorMode, kind: ContextKind) -> (title: String)
    ensures
        title@ == chinese_editor_title_spec(mode, kind),
{
    let mut title = String::new();
    match mode {
        ContextEditorMode::Create => title.append("新建"),
        ContextEditorMode::Edit => title.append("编辑"),
    }
    match kind {
        ContextKind::Mcp => title.append(" MCP 条目"),
        ContextKind::Skill => title.append("技能条目"),
        ContextKind::Plugin => title.append("插件条目"),
    }
    title
}

/// The title of the editor in a language.
pub open spec fn editor_title_spec(locale: Locale, mode: ContextEditorMode, kind: ContextKind) -> Seq<char> {
    match locale {
        Locale::ZhCn => chinese_editor_title_spec(mode, kind),
        Locale::En => match mode {
            ContextEditorMode::Create => "Create "@ + kind_noun_spec(locale, kind) + " entry"@,
            ContextEditorMode::Edit => "Edit "@ + kind_noun_spec(locale, kind) + " entry"@,
        },
    }
}

/// The title of the editor in a language.
pub fn editor_title(locale: Locale, mode: ContextEditorMode, kind: ContextKind) -> (title: String)
    ensures
        title@ == editor_title_spec(locale, mode, kind),
{
    match locale {
        Locale::ZhCn => chinese_editor_title(mode, kind),
        Locale::En => {
            let mut title = String::new();
            match mode {
                ContextEditorMode::Create => title.append("Create "),
                ContextEditorMode::Edit => title.append("Edit "),
            }
            title.append(kind_noun(locale, kind));
            title.append(" entry");
            title
        },
    }
}

/// The label of the button that creates an entry of a kind.
pub fn create_label(locale: Locale, kind: ContextKind) -> (label: String)
    ensures
        label@ == editor_title_spec(locale, ContextEditorMode::Create, kind),
{
    match locale {
        Locale::ZhCn => chinese_editor_title(ContextEditorMode::Create, kind),
        Locale::En => {
            let mut label = String::new();
            label.append("Create ");
            label.append(kind_noun(locale, kind));
            label.append(" entry");
            label
        },
    }
}

} // verus!
