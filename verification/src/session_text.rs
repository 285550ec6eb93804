use vstd::prelude::*;

use crate::format::{decimal, push_decimal};
use crate::i18n::Locale;

verus! {

/// The question of the delete dialog.
pub open spec fn delete_count_message(locale: Locale, count: nat) -> Seq<char> {
    match locale {
        Locale::ZhCn => "删除选中的 "@ + decimal(count) + " 个会话？"@,
        Locale::En => "Delete "@ + decimal(count) + " selected sessions?"@,
    }
}

/// Asks whether to delete the selected sessions.
pub fn delete_count_text(locale: Locale, count: usize) -> (text: String)
    ensures
        text@ == delete_count_message(locale, count as nat),
{
    let mut text = String::new();
    match locale {
        Locale::ZhCn => {
            text.append("删除选中的 ");
            push_decimal(&mut text, count as u64);
            text.append(" 个会话？");
        },
        Locale::En => {
            text.append("Delete ");
            push_decimal(&mut text, count as u64);
            text.append(" selected sessions?");
        },
    }
    proof {
        assert(text@ =~= delete_count_message(locale, count as nat));
    }
    text
}

/// The note on sessions beyond the previewed ones.
pub open spec fn more_sessions_message(locale: Locale, count: nat) -> Seq<char> {
    match locale {
        Locale::ZhCn => "另有 "@ + decimal(count) + " 个会话"@,
        Locale::En => decimal(count) + " more sessions"@,
    }
}

/// Tells how many sessions the preview leaves out.
pub fn more_sessions_text(locale: Locale, count: usize) -> (text: String)
    ensures
        text@ == more_sessions_message(locale, count as nat),
{
    let mut text = String::new();
    match locale {
        Locale::ZhCn => {
            text.append("另有 ");
            push_decimal(&mut text, count as u64);
            text.append(" 个会话");
        },
        Locale::En => {
            push_decimal(&mut text, count as u64);
            text.append(" more sessions");
        },
    }
    proof {
        assert(text@ =~= more_sessions_message(locale, count as nat));
    }
    text
}

/// The accessible label of a session's selection box.
pub open spec fn select_session_message(locale: Locale, id: Seq<char>) -> Seq<char> {
    match locale {
        Locale::ZhCn => "选择会话 "@ + id,
        Locale::En => "Select session "@ + id,
    }
}

/// Labels the selection box of a session.
pub fn select_session_label(locale: Locale, id: &str) -> (text: String)
    ensures
        text@ == select_session_message(locale, id@),
{
    let mut text = String::new();
    match locale {
        Locale::ZhCn => text.append("选择会话 "),
        Locale::En => text.append("Select session "),
    }
    text.append(id);
    proof {
        assert(text@ =~= select_session_message(locale, id@));
    }
    text
}

/// The line of the sync dialog that names the target provider.
pub open spec fn provider_target_confirmation_message(locale: Locale, target: Seq<char>) -> Seq<char> {
    match locale {
        Locale::ZhCn => "目标供应商: "@ + target,
        Locale::En => "Target provider: "@ + target,
    }
}

/// Names the target provider in the sync dialog.
pub fn provider_target_confirmation_text(locale: Locale, target: &str) -> (text: String)
    ensures
        text@ == provider_target_confirmation_message(locale, target@),
{
    let mut text = String::new();
    match locale {
        Locale::ZhCn => text.append("目标供应商: "),
        Locale::En => text.append("Target provider: "),
    }
    text.append(target);
    proof {
        assert(text@ =~= provider_target_confirmation_message(locale, target@));
    }
    text
}

/// The label of the button that deletes at once.
pub fn delete_now_text(locale: Locale) -> (text: &'static str)
    ensures
        text@ == (match locale {
            Locale::ZhCn => "立即删除"@,
            Locale::En => "Delete now"@,
        }),
{
    match locale {
        Locale::ZhCn => "立即删除",
        Locale::En => "Delete now",
    }
}

/// The heading of the delete preview.
pub fn preview_prefix(locale: Locale) -> (text: &'static str)
    ensures
        text@ == (match locale {
            Locale::ZhCn => "预览"@,
            Locale::En => "Preview"@,
        }),
{
    match locale {
        Locale::ZhCn => "预览",
        Locale::En => "Preview",
    }
}

/// The label of the button that repairs at once.
pub fn repair_now_text(locale: Locale) -> (text: &'static str)
    ensures
        text@ == (match locale {
            Locale::ZhCn => "立即修复"@,
            Locale::En => "Repair now"@,
        }),
{
    match locale {
        Locale::ZhCn => "立即修复",
        Locale::En => "Repair now",
    }
}

/// What the delete report shows when no backup was made.
pub fn no_backup_text(locale: Locale) -> (text: &'static str)
    ensures
        text@ == (match locale {
            Locale::ZhCn => "无"@,
            Locale::En => "None"@,
        }),
{
    match locale {
        Locale::ZhCn => "无",
        Locale::En => "None",
    }
}

/// How the deletion of one session ended.
#[derive(Debug, Clone, Copy, PartialEq, Eq, Structural)]
pub enum DeleteStatus {
    ServerDeleted,
    LocalDeleted,
    Partial,
    Failed,
    Undone,
}

/// The word that reports how a session's deletion ended.
pub open spec fn delete_status_message(locale: Locale, status: DeleteStatus) -> Seq<char> {
    match (locale, status) {
        (Locale::ZhCn, DeleteStatus::ServerDeleted) => "已删除"@,
        (Locale::ZhCn, DeleteStatus::LocalDeleted) => "已删除"@,
        (Locale::ZhCn, DeleteStatus::Partial) => "部分删除"@,
        (Locale::ZhCn, DeleteStatus::Failed) => "失败"@,
        (Locale::ZhCn, DeleteStatus::Undone) => "已恢复"@,
        (Locale::En, DeleteStatus::ServerDeleted) => "Deleted"@,
        (Locale::En, DeleteStatus::LocalDeleted) => "Deleted"@,
        (Locale::En, DeleteStatus::Partial) => "Partial"@,
        (Locale::En, DeleteStatus::Failed) => "Failed"@,
        (Locale::En, DeleteStatus::Undone) => "Restored"@,
    }
}

/// Reports how a session's deletion ended.
pub fn delete_status_text(locale: Locale, status: &DeleteStatus) -> (text: &'static str)
    ensures
        text@ == delete_status_message(locale, *status),
{
    match (locale, status) {
        (Locale::ZhCn, DeleteStatus::ServerDeleted | DeleteStatus::LocalDeleted) => "已删除",
        (Locale::ZhCn, DeleteStatus::Partial) => "部分删除",
        (Locale::ZhCn, DeleteStatus::Failed) => "失败",
        (Locale::ZhCn, DeleteStatus::Undone) => "已恢复",
        (Locale::En, DeleteStatus::ServerDeleted | DeleteStatus::LocalDeleted) => "Deleted",
        (Locale::En, DeleteStatus::Partial) => "Partial",
        (Locale::En, DeleteStatus::Failed) => "Failed",
        (Locale::En, DeleteStatus::Undone) => "Restored",
    }
}


/// In each language the report tells the outcomes of a deletion apart: a
/// deletion, on the server or only locally, reads alike, and it never reads
/// like a partial deletion, a failure or an undone deletion, nor do those
/// three read like one another; in English a failure reads "Failed".
pub proof fn law_delete_outcomes_read_apart(locale: Locale)
    ensures
        delete_status_message(locale, DeleteStatus::ServerDeleted) == delete_status_message(
            locale,
            DeleteStatus::LocalDeleted,
        ),
        delete_status_message(locale, DeleteStatus::Failed) != delete_status_message(
            locale,
            DeleteStatus::ServerDeleted,
        ),
        delete_status_message(locale, DeleteStatus::Partial) != delete_status_message(
            locale,
            DeleteStatus::ServerDeleted,
        ),
        delete_status_message(locale, DeleteStatus::Undone) != delete_status_message(
            locale,
            DeleteStatus::ServerDeleted,
        ),
        delete_status_message(locale, DeleteStatus::Failed) != delete_status_message(
            locale,
            DeleteStatus::Partial,
        ),
        delete_status_message(locale, DeleteStatus::Failed) != delete_status_message(
            locale,
            DeleteStatus::Undone,
        ),
        delete_status_message(locale, DeleteStatus::Partial) != delete_status_message(
            locale,
            DeleteStatus::Undone,
        ),
        delete_status_message(Locale::En, DeleteStatus::Failed) == seq!['F', 'a', 'i', 'l', 'e', 'd'],
{
    reveal_strlit("已删除");
    reveal_strlit("部分删除");
    reveal_strlit("失败");
    reveal_strlit("已恢复");
    reveal_strlit("Deleted");
    reveal_strlit("Partial");
    reveal_strlit("Failed");
    reveal_strlit("Restored");
    assert("已删除"@[1] != "已恢复"@[1]);
    assert("失败"@[0] != "部分删除"@[0]);
    assert("失败"@[0] != "已删除"@[0]);
    assert("失败"@[0] != "已恢复"@[0]);
    assert("部分删除"@[0] != "已删除"@[0]);
    assert("部分删除"@[0] != "已恢复"@[0]);
    assert("Deleted"@[0] != "Failed"@[0]);
    assert("Deleted"@[0] != "Partial"@[0]);
    assert("Deleted"@[0] != "Restored"@[0]);
    assert("Failed"@[0] != "Partial"@[0]);
    assert("Failed"@[0] != "Restored"@[0]);
    assert("Partial"@[0] != "Restored"@[0]);
    assert("Failed"@ =~= seq!['F', 'a', 'i', 'l', 'e', 'd']);
}

} // verus!
