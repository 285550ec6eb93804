use vstd::prelude::*;

use crate::i18n::Locale;

verus! {

/// The texts of the about page's links.
#[derive(Debug, Clone, Copy, PartialEq, Eq, Structural)]
pub enum AboutText {
    Repository,
    Issues,
}

/// The text of an about page key in a language.
pub open spec fn about_text_spec(locale: Locale, key: AboutText) -> Seq<char> {
    match (locale, key) {
        (Locale::ZhCn, AboutText::Repository) => "项目仓库"@,
        (Locale::En, AboutText::Repository) => "Project repository"@,
        (Locale::ZhCn, AboutText::Issues) => "提交问题"@,
        (Locale::En, AboutText::Issues) => "Report an issue"@,
    }
}

/// The text of an about page key in a language.
pub fn about_text(locale: Locale, key: AboutText) -> (text: &'static str)
    ensures
        text@ == about_text_spec(locale, key),
{
    match (locale, key) {
        (Locale::ZhCn, AboutText::Repository) => "项目仓库",
        (Locale::En, AboutText::Repository) => "Project repository",
        (Locale::ZhCn, AboutText::Issues) => "提交问题",
        (Locale::En, AboutText::Issues) => "Report an issue",
    }
}

} // verus!
