use vstd::prelude::*;

use crate::format::{chars_of, digits_only, is_ascii_digit, string_of, text_eq, trim_chars, trimmed};
use crate::settings::{split_lines, text_lines};

verus! {

/// How a relay profile reaches the model service.
#[derive(Debug, Clone, Copy, PartialEq, Eq, Structural)]
pub enum RelayMode {
    Official,
    MixedApi,
    PureApi,
    Aggregate,
}

/// The API protocol a relay speaks.
#[derive(Debug, Clone, Copy, PartialEq, Eq, Structural)]
pub enum RelayProtocol {
    Responses,
    ChatCompletions,
}

/// How a profile's models are written into the Codex configuration.
#[derive(Debug, Clone, Copy, PartialEq, Eq, Structural)]
pub enum RelayModelInsertMode {
    Patch,
    ModelCatalog,
}

/// How an aggregate profile spreads requests over its members.
#[derive(Debug, Clone, Copy, PartialEq, Eq, Structural)]
pub enum AggregateRelayStrategy {
    Failover,
    ConversationRoundRobin,
    RequestRoundRobin,
    WeightedRoundRobin,
}

impl Default for AggregateRelayStrategy {
    fn default() -> (strategy: Self)
        ensures
            strategy == AggregateRelayStrategy::Failover,
    {
        AggregateRelayStrategy::Failover
    }
}

/// One provider profile as the provider editor changes it.
pub struct RelayProfile {
    pub id: String,
    pub name: String,
    pub relay_mode: RelayMode,
    pub protocol: RelayProtocol,
    pub base_url: String,
    pub upstream_base_url: String,
    pub api_key: String,
    pub model: String,
    pub test_model: String,
    pub use_common_config: bool,
    pub context_window: String,
    pub auto_compact_limit: String,
    pub model_insert_mode: RelayModelInsertMode,
    pub user_agent: String,
    pub config_contents: String,
    pub auth_contents: String,
    pub model_list: String,
    pub model_windows: String,
}

impl Default for RelayProfile {
    fn default() -> (profile: Self)
        ensures
            profile.id@ == Seq::<char>::empty(),
            profile.name@ == Seq::<char>::empty(),
            profile.relay_mode == RelayMode::Official,
            profile.protocol == RelayProtocol::Responses,
            profile.base_url@ == Seq::<char>::empty(),
            profile.upstream_base_url@ == Seq::<char>::empty(),
            profile.api_key@ == Seq::<char>::empty(),
            profile.model@ == Seq::<char>::empty(),
            profile.test_model@ == Seq::<char>::empty(),
            !profile.use_common_config,
            profile.context_window@ == Seq::<char>::empty(),
            profile.auto_compact_limit@ == Seq::<char>::empty(),
            profile.model_insert_mode == RelayModelInsertMode::Patch,
            profile.user_agent@ == Seq::<char>::empty(),
            profile.config_contents@ == Seq::<char>::empty(),
            profile.auth_contents@ == Seq::<char>::empty(),
            profile.model_list@ == Seq::<char>::empty(),
            profile.model_windows@ == Seq::<char>::empty(),
    {
        RelayProfile {
            id: String::new(),
            name: String::new(),
            relay_mode: RelayMode::Official,
            protocol: RelayProtocol::Responses,
            base_url: String::new(),
            upstream_base_url: String::new(),
            api_key: String::new(),
            model: String::new(),
            test_model: String::new(),
            use_common_config: false,
            context_window: String::new(),
            auto_compact_limit: String::new(),
            model_insert_mode: RelayModelInsertMode::Patch,
            user_agent: String::new(),
            config_contents: String::new(),
            auth_contents: String::new(),
            model_list: String::new(),
            model_windows: String::new(),
        }
    }
}

/// The routing half of an aggregate profile: its members and strategy.
pub struct AggregateRelayProfile {
    pub id: String,
    pub name: String,
    pub strategy: AggregateRelayStrategy,
    pub members: Vec<String>,
}

/// A provider: an ordinary relay profile, or an aggregate with a shell
/// profile and its routing.
pub enum ProviderProfile {
    Ordinary(RelayProfile),
    Aggregate { shell: RelayProfile, routing: AggregateRelayProfile },
}

impl ProviderProfile {
    /// The profile of an ordinary provider.
    pub fn ordinary(&self) -> (profile: Option<&RelayProfile>)
        ensures
            profile == match self {
                ProviderProfile::Ordinary(p) => Some(p),
                ProviderProfile::Aggregate { .. } => None::<&RelayProfile>,
            },
    {
        match self {
            ProviderProfile::Ordinary(profile) => Some(profile),
            ProviderProfile::Aggregate { .. } => None,
        }
    }
}

/// One change made in the provider editor.
pub enum ProviderEdit {
    Name(String),
    Mode(RelayMode),
    Protocol(RelayProtocol),
    BaseUrl(String),
    ApiKey(String),
    Model(String),
    TestModel(String),
    UseCommonConfig(bool),
    ContextWindow(String),
    AutoCompactLimit(String),
    InsertMode(RelayModelInsertMode),
    UserAgent(String),
    ConfigContents(String),
    AuthContents(String),
    ModelRow { index: usize, model: String, window: String },
    AggregateStrategy(AggregateRelayStrategy),
}

/// The ASCII digits of a text, in order.
pub open spec fn ascii_digits(s: Seq<char>) -> Seq<char> {
    s.filter(|c: char| is_ascii_digit(c))
}

/// An ordinary profile after an edit of one of its own fields; the name,
/// the strategy and model rows are handled apart.
pub open spec fn ordinary_edited(p: RelayProfile, edit: ProviderEdit, q: RelayProfile) -> bool {
    match edit {
        ProviderEdit::Mode(mode) => q == RelayProfile { relay_mode: mode, ..p },
        ProviderEdit::Protocol(protocol) => q == RelayProfile { protocol, ..p },
        ProviderEdit::BaseUrl(url) => q == RelayProfile {
            base_url: url,
            upstream_base_url: url,
            ..p
        },
        ProviderEdit::ApiKey(key) => q == RelayProfile { api_key: key, ..p },
        ProviderEdit::Model(model) => q == RelayProfile { model, ..p },
        ProviderEdit::TestModel(model) => q == RelayProfile { test_model: model, ..p },
        ProviderEdit::UseCommonConfig(enabled) => q == RelayProfile {
            use_common_config: enabled,
            ..p
        },
        ProviderEdit::ContextWindow(window) => q == RelayProfile {
            context_window: q.context_window,
            ..p
        } && q.context_window@ == ascii_digits(window@),
        ProviderEdit::AutoCompactLimit(limit) => q == RelayProfile {
            auto_compact_limit: q.auto_compact_limit,
            ..p
        } && q.auto_compact_limit@ == ascii_digits(limit@),
        ProviderEdit::InsertMode(mode) => q == RelayProfile { model_insert_mode: mode, ..p },
        ProviderEdit::UserAgent(agent) => q == RelayProfile { user_agent: agent, ..p },
        ProviderEdit::ConfigContents(contents) => q == RelayProfile {
            config_contents: contents,
            ..p
        },
        ProviderEdit::AuthContents(contents) => q == RelayProfile { auth_contents: contents, ..p },
        _ => q == p,
    }
}

/// A provider after an edit: the name goes to both halves of an aggregate,
/// the strategy only to an aggregate, a model row to neither, and every
/// other field only to an ordinary profile.
pub open spec fn provider_edited(before: ProviderProfile, edit: ProviderEdit, after: ProviderProfile) -> bool {
    match edit {
        ProviderEdit::Name(name) => match before {
            ProviderProfile::Ordinary(p) => after == ProviderProfile::Ordinary(
                RelayProfile { name, ..p },
            ),
            ProviderProfile::Aggregate { shell, routing } => after == ProviderProfile::Aggregate {
                shell: RelayProfile { name, ..shell },
                routing: AggregateRelayProfile { name, ..routing },
            },
        },
        ProviderEdit::AggregateStrategy(strategy) => match before {
            ProviderProfile::Ordinary(_) => after == before,
            ProviderProfile::Aggregate { shell, routing } => after == ProviderProfile::Aggregate {
                shell,
                routing: AggregateRelayProfile { strategy, ..routing },
            },
        },
        ProviderEdit::ModelRow { .. } => after == before,
        _ => match before {
            ProviderProfile::Aggregate { .. } => after == before,
            ProviderProfile::Ordinary(p) => after matches ProviderProfile::Ordinary(q)
                && ordinary_edited(p, edit, q),
        },
    }
}

fn edit_ordinary(profile: &mut RelayProfile, edit: ProviderEdit)
    ensures
        ordinary_edited(*old(profile), edit, *final(profile)),
{
    match edit {
        ProviderEdit::Mode(mode) => profile.relay_mode = mode,
        ProviderEdit::Protocol(protocol) => profile.protocol = protocol,
        ProviderEdit::BaseUrl(base_url) => {
            profile.base_url = base_url.clone();
            profile.upstream_base_url = base_url;
        },
        ProviderEdit::ApiKey(api_key) => profile.api_key = api_key,
        ProviderEdit::Model(model) => profile.model = model,
        ProviderEdit::TestModel(model) => profile.test_model = model,
        ProviderEdit::UseCommonConfig(enabled) => profile.use_common_config = enabled,
        ProviderEdit::ContextWindow(window) => profile.context_window = digits_only(window),
        ProviderEdit::AutoCompactLimit(limit) => profile.auto_compact_limit = digits_only(limit),
        ProviderEdit::InsertMode(mode) => profile.model_insert_mode = mode,
        ProviderEdit::UserAgent(user_agent) => profile.user_agent = user_agent,
        ProviderEdit::ConfigContents(contents) => profile.config_contents = contents,
        ProviderEdit::AuthContents(contents) => profile.auth_contents = contents,
        _ => {},
    }
}

/// Applies one editor change to a provider.
pub fn apply_provider_edit(profile: &mut ProviderProfile, edit: ProviderEdit)
    ensures
        provider_edited(*old(profile), edit, *final(profile)),
        *old(profile) is Ordinary ==> (edit matches ProviderEdit::ApiKey(key) ==> *final(profile) matches ProviderProfile::Ordinary(
            q,
        ) && q.api_key@ == key@),
{
    match edit {
        ProviderEdit::Name(name) => match profile {
            ProviderProfile::Ordinary(p) => p.name = name,
            ProviderProfile::Aggregate { shell, routing } => {
                shell.name = name.clone();
                routing.name = name;
            },
        },
        ProviderEdit::AggregateStrategy(strategy) => match profile {
            ProviderProfile::Aggregate { routing, .. } => routing.strategy = strategy,
            ProviderProfile::Ordinary(_) => {},
        },
        ProviderEdit::ModelRow { .. } => {},
        edit => match profile {
            ProviderProfile::Ordinary(p) => edit_ordinary(p, edit),
            ProviderProfile::Aggregate { .. } => {},
        },
    }
}

/// Why the service refused or failed a provider operation.
#[derive(Debug, Clone, Copy, PartialEq, Eq, Structural)]
pub enum ProviderErrorKind {
    Conflict,
    Validation,
    LoadFailed,
    SaveFailed,
}

/// The categories the provider page shows for a failed save.
#[derive(Debug, Clone, Copy, PartialEq, Eq, Structural)]
pub enum ProviderSaveFailureKind {
    Conflict,
    Validation,
    SaveFailed,
    WorkerStopped,
}

/// A failed save as the provider page shows it: conflicts and validation
/// errors keep their category, a failed load or write is a failed save.
pub fn map_provider_save_failure(kind: ProviderErrorKind) -> (failure: ProviderSaveFailureKind)
    ensures
        failure == match kind {
            ProviderErrorKind::Conflict => ProviderSaveFailureKind::Conflict,
            ProviderErrorKind::Validation => ProviderSaveFailureKind::Validation,
            ProviderErrorKind::LoadFailed => ProviderSaveFailureKind::SaveFailed,
            ProviderErrorKind::SaveFailed => ProviderSaveFailureKind::SaveFailed,
        },
{
    match kind {
        ProviderErrorKind::Conflict => ProviderSaveFailureKind::Conflict,
        ProviderErrorKind::Validation => ProviderSaveFailureKind::Validation,
        ProviderErrorKind::LoadFailed | ProviderErrorKind::SaveFailed => {
            ProviderSaveFailureKind::SaveFailed
        },
    }
}

/// Renaming an aggregate renames both of its halves alike.
pub proof fn law_aggregate_names_stay_in_sync(
    shell: RelayProfile,
    routing: AggregateRelayProfile,
    name: String,
    after: ProviderProfile,
)
    requires
        provider_edited(
            ProviderProfile::Aggregate { shell, routing },
            ProviderEdit::Name(name),
            after,
        ),
    ensures
        after matches ProviderProfile::Aggregate { shell: s, routing: r } && s.name == name
            && r.name == name,
{
}

/// Numeric fields hold digits only, whatever was typed.
pub proof fn law_numeric_fields_hold_digits(p: RelayProfile, typed: String, q: RelayProfile)
    requires
        ordinary_edited(p, ProviderEdit::ContextWindow(typed), q),
    ensures
        forall|i: int| 0 <= i < q.context_window@.len() ==> is_ascii_digit(#[trigger] q.context_window@[i]),
{
    assert forall|i: int| 0 <= i < q.context_window@.len() implies is_ascii_digit(#[trigger] q.context_window@[i]) by {
        typed@.lemma_filter_pred(|c: char| is_ascii_digit(c), i);
    }
}

/// What `serde_json` reads from a text as a JSON object of strings, entry by
/// entry in key order; `None` when the text is no such object.
pub uninterp spec fn parsed_string_map(text: Seq<char>) -> Option<Seq<(Seq<char>, Seq<char>)>>;

/// Calls `serde_json::from_str` for a `BTreeMap<String, String>` and hands
/// back its entries. The contract names what is read and says nothing more
/// of it.
#[verifier::external_body]
fn parse_string_map(text: &str) -> (entries: Option<Vec<(String, String)>>)
    ensures
        match entries {
            Some(v) => parsed_string_map(text@) == Some(
                v@.map_values(|e: (String, String)| (e.0@, e.1@)),
            ),
            None => parsed_string_map(text@) is None,
        },
{
    serde_json::from_str::<std::collections::BTreeMap<String, String>>(text)
        .ok()
        .map(|map| map.into_iter().collect())
}

/// The window stored for a model: the value of the first entry with its
/// name, or empty.
pub open spec fn window_of(entries: Seq<(Seq<char>, Seq<char>)>, model: Seq<char>) -> Seq<char>
    decreases entries.len(),
{
    if entries.len() == 0 {
        Seq::empty()
    } else if entries[0].0 == model {
        entries[0].1
    } else {
        window_of(entries.drop_first(), model)
    }
}

/// The models a profile lists: its lines, trimmed, without the empty ones.
pub open spec fn listed_models(list: Seq<char>) -> Seq<Seq<char>> {
    text_lines(list).map_values(|line: Seq<char>| trimmed(line)).filter(|m: Seq<char>| m.len() > 0)
}

/// The model rows of the provider editor: each listed model with the window
/// that the stored JSON object gives it; text that is no such object gives
/// every model an empty window.
pub open spec fn model_rows_spec(list: Seq<char>, windows: Seq<char>) -> Seq<(Seq<char>, Seq<char>)> {
    let entries = match parsed_string_map(windows) {
        Some(e) => e,
        None => Seq::empty(),
    };
    listed_models(list).map_values(|m: Seq<char>| (m, window_of(entries, m)))
}

fn lookup_window(entries: &Vec<(String, String)>, model: &str) -> (window: String)
    ensures
        window@ == window_of(entries@.map_values(|e: (String, String)| (e.0@, e.1@)), model@),
{
    let ghost views = entries@.map_values(|e: (String, String)| (e.0@, e.1@));
    let mut i: usize = 0;
    proof {
        assert(views.skip(0) =~= views);
    }
    while i < entries.len()
        invariant
            i <= entries@.len(),
            views == entries@.map_values(|e: (String, String)| (e.0@, e.1@)),
            window_of(views, model@) == window_of(views.skip(i as int), model@),
        decreases entries@.len() - i,
    {
        proof {
            assert(views.skip(i as int)[0] == views[i as int]);
            assert(views.skip(i as int).drop_first() =~= views.skip(i + 1));
        }
        if text_eq(entries[i].0.as_str(), model) {
            return entries[i].1.clone();
        }
        i = i + 1;
    }
    proof {
        assert(views.skip(i as int).len() == 0);
    }
    String::new()
}

/// The rows for a model list, given the stored windows as entries: each
/// listed model with the window of its first entry, or empty.
pub fn model_rows_from_entries(list: &str, entries: &Vec<(String, String)>) -> (rows: Vec<(String, String)>)
    ensures
        rows@.map_values(|r: (String, String)| (r.0@, r.1@)) == listed_models(list@).map_values(
            |m: Seq<char>| (m, window_of(entries@.map_values(|e: (String, String)| (e.0@, e.1@)), m)),
        ),
{
    let ghost entry_views = entries@.map_values(|e: (String, String)| (e.0@, e.1@));
    let lines = split_lines(list);
    let ghost line_views = lines@.map_values(|line: String| line@);
    let ghost trimmed_lines = line_views.map_values(|line: Seq<char>| trimmed(line));
    let mut rows: Vec<(String, String)> = Vec::new();
    let mut i: usize = 0;
    while i < lines.len()
        invariant
            i <= lines@.len(),
            line_views == lines@.map_values(|line: String| line@),
            line_views == text_lines(list@),
            trimmed_lines == line_views.map_values(|line: Seq<char>| trimmed(line)),
            entry_views == entries@.map_values(|e: (String, String)| (e.0@, e.1@)),
            rows@.map_values(|r: (String, String)| (r.0@, r.1@)) == trimmed_lines.take(i as int).filter(
                |m: Seq<char>| m.len() > 0,
            ).map_values(|m: Seq<char>| (m, window_of(entry_views, m))),
        decreases lines@.len() - i,
    {
        let chars = chars_of(lines[i].as_str());
        let model_chars = trim_chars(&chars);
        proof {
            assert(trimmed_lines.take(i + 1).drop_last() =~= trimmed_lines.take(i as int));
            assert(trimmed_lines.take(i + 1).last() == trimmed(lines@[i as int]@));
            reveal(Seq::filter);
        }
        if model_chars.len() > 0 {
            let model = string_of(&model_chars);
            let window = lookup_window(entries, model.as_str());
            let ghost before = rows@.map_values(|r: (String, String)| (r.0@, r.1@));
            rows.push((model, window));
            proof {
                assert(rows@.map_values(|r: (String, String)| (r.0@, r.1@)) =~= before.push(
                    (model_chars@, window_of(entry_views, model_chars@)),
                ));
                assert(trimmed_lines.take(i + 1).filter(|m: Seq<char>| m.len() > 0) =~= trimmed_lines.take(
                    i as int,
                ).filter(|m: Seq<char>| m.len() > 0).push(model_chars@));
            }
        } else {
            proof {
                assert(trimmed_lines.take(i + 1).filter(|m: Seq<char>| m.len() > 0) =~= trimmed_lines.take(
                    i as int,
                ).filter(|m: Seq<char>| m.len() > 0));
            }
        }
        i = i + 1;
    }
    proof {
        assert(trimmed_lines.take(lines@.len() as int) =~= trimmed_lines);
    }
    rows
}

/// The model rows the provider editor shows for a profile.
pub fn model_rows(profile: &RelayProfile) -> (rows: Vec<(String, String)>)
    ensures
        rows@.map_values(|r: (String, String)| (r.0@, r.1@)) == model_rows_spec(
            profile.model_list@,
            profile.model_windows@,
        ),
{
    let entries = match parse_string_map(profile.model_windows.as_str()) {
        Some(entries) => entries,
        None => Vec::new(),
    };
    proof {
        assert(entries@.map_values(|e: (String, String)| (e.0@, e.1@)) == match parsed_string_map(
            profile.model_windows@,
        ) {
            Some(e) => e,
            None => Seq::<(Seq<char>, Seq<char>)>::empty(),
        });
    }
    model_rows_from_entries(profile.model_list.as_str(), &entries)
}


/// Typing into a text field of an ordinary provider stores exactly what was
/// typed in that field: the key, the address (as base and upstream address),
/// the models, the user agent and the two file contents, and every other field
/// keeps its value.
pub proof fn law_ordinary_text_edits_store_what_was_typed(p: RelayProfile, edit: ProviderEdit, after: ProviderProfile)
    requires
        provider_edited(ProviderProfile::Ordinary(p), edit, after),
    ensures
        after is Ordinary,
        edit matches ProviderEdit::ApiKey(k) ==> after->Ordinary_0.api_key@ == k@
            && after->Ordinary_0 == (RelayProfile { api_key: after->Ordinary_0.api_key, ..p }),
        edit matches ProviderEdit::Name(n) ==> after->Ordinary_0.name@ == n@,
        edit matches ProviderEdit::BaseUrl(u) ==> after->Ordinary_0.base_url@ == u@
            && after->Ordinary_0.upstream_base_url@ == u@,
        edit matches ProviderEdit::Model(m) ==> after->Ordinary_0.model@ == m@,
        edit matches ProviderEdit::TestModel(m) ==> after->Ordinary_0.test_model@ == m@,
        edit matches ProviderEdit::UserAgent(a) ==> after->Ordinary_0.user_agent@ == a@,
        edit matches ProviderEdit::ConfigContents(c) ==> after->Ordinary_0.config_contents@ == c@,
        edit matches ProviderEdit::AuthContents(c) ==> after->Ordinary_0.auth_contents@ == c@,
        edit matches ProviderEdit::UseCommonConfig(b) ==> after->Ordinary_0.use_common_config == b,
        edit matches ProviderEdit::Mode(m) ==> after->Ordinary_0.relay_mode == m,
        edit matches ProviderEdit::Protocol(m) ==> after->Ordinary_0.protocol == m,
        edit matches ProviderEdit::InsertMode(m) ==> after->Ordinary_0.model_insert_mode == m,
{
}

} // verus!
