//! The agent's chat pane: what of the conversation is shown and how, what a
//! draft sends, and which of the footer's affordances are live.

use vstd::prelude::*;
use vstd::string::*;

use crate::slot::{clone_text_opt, text_opt};
use crate::text::{
    decimal, decimal_text, find_last_segment, last_segment, same_text, strip_suffixes, trim,
    trimmed, without_suffixes,
};

verus! {

/// Whether the agent can be talked to.
#[derive(Clone, Copy, Debug, PartialEq, Eq, Structural)]
pub enum UiAgentAvailability {
    NeedsKey,
    Ready,
}

/// What the agent is doing.
#[derive(Clone, Debug, PartialEq, Eq)]
pub enum UiAgentStatus {
    Idle,
    Streaming,
    RunningTool,
    Error { message: String, retryable: bool },
}

/// How much a notice matters.
#[derive(Clone, Copy, Debug, PartialEq, Eq, Structural)]
pub enum UiNoticeLevel {
    Info,
    Warning,
}

/// One call of a tool.
#[derive(Clone, Debug, PartialEq, Eq)]
pub struct UiAgentToolRow {
    pub id: String,
    pub note: Option<String>,
    pub done: bool,
    pub edit_turn: Option<u32>,
    pub shader_ok: Option<bool>,
    pub error: Option<String>,
    pub detail: String,
}

impl UiAgentToolRow {
    /// The row of a call that has just started.
    pub fn started(id: &str) -> (r: Self)
        ensures
            r.id@ == id@,
            r.note is None,
            !r.done,
            r.edit_turn is None,
            r.shader_ok is None,
            r.error is None,
            r.detail@ == Seq::<char>::empty(),
    {
        UiAgentToolRow {
            id: id.to_string(),
            note: None,
            done: false,
            edit_turn: None,
            shader_ok: None,
            error: None,
            detail: String::new(),
        }
    }
}

/// One turn of the conversation.
#[derive(Clone, Debug, PartialEq, Eq)]
pub enum UiAgentTurn {
    User { text: String },
    Assistant { text: String },
    Tool(UiAgentToolRow),
    Thinking { text: String, done: bool },
    Notice { text: String, level: UiNoticeLevel },
}

/// A snapshot of what an edit looked like.
#[derive(Debug, PartialEq, Eq)]
pub enum UiProductPreview {
    /// A picture, three bytes a texel.
    VisualSrgb8 { width: u32, height: u32, revision: u64, bytes: Vec<u8> },
    /// A snapshot that is no picture.
    Other,
}

/// What a [`UiProductPreview`] shows.
pub enum PreviewModel {
    VisualSrgb8 { width: u32, height: u32, revision: u64, bytes: Seq<u8> },
    Other,
}

impl View for UiProductPreview {
    type V = PreviewModel;

    open spec fn view(&self) -> PreviewModel {
        match *self {
            UiProductPreview::VisualSrgb8 { width, height, revision, bytes } => {
                PreviewModel::VisualSrgb8 { width, height, revision, bytes: bytes@ }
            },
            UiProductPreview::Other => PreviewModel::Other,
        }
    }
}

impl Clone for UiProductPreview {
    fn clone(&self) -> (r: Self)
        ensures
            r@ == self@,
    {
        match self {
            UiProductPreview::VisualSrgb8 { width, height, revision, bytes } => {
                UiProductPreview::VisualSrgb8 {
                    width: *width,
                    height: *height,
                    revision: *revision,
                    bytes: bytes.clone(),
                }
            },
            UiProductPreview::Other => UiProductPreview::Other,
        }
    }
}

/// One staged edit of the session.
#[derive(Debug, PartialEq, Eq)]
pub struct UiAgentHistoryEntry {
    pub turn: u32,
    pub note: Option<String>,
    pub thumb: Option<UiProductPreview>,
    /// The engine's verdict, once there is one.
    pub engine_ok: Option<bool>,
}

/// What a [`UiAgentHistoryEntry`] records.
pub struct HistoryModel {
    pub turn: u32,
    pub note: Option<Seq<char>>,
    pub thumb: Option<PreviewModel>,
    pub engine_ok: Option<bool>,
}

impl View for UiAgentHistoryEntry {
    type V = HistoryModel;

    open spec fn view(&self) -> HistoryModel {
        HistoryModel {
            turn: self.turn,
            note: text_opt(self.note),
            thumb: match self.thumb {
                Some(thumb) => Some(thumb@),
                None => None,
            },
            engine_ok: self.engine_ok,
        }
    }
}

impl Clone for UiAgentHistoryEntry {
    fn clone(&self) -> (r: Self)
        ensures
            r@ == self@,
    {
        UiAgentHistoryEntry {
            turn: self.turn,
            note: clone_text_opt(&self.note),
            thumb: match &self.thumb {
                Some(thumb) => Some(thumb.clone()),
                None => None,
            },
            engine_ok: self.engine_ok,
        }
    }
}

/// The first entry of `history` recorded for `turn`.
pub open spec fn first_entry(history: Seq<UiAgentHistoryEntry>, turn: u32) -> Option<HistoryModel>
    decreases history.len(),
{
    if history.len() == 0 {
        None
    } else if history[0].turn == turn {
        Some(history[0]@)
    } else {
        first_entry(history.skip(1), turn)
    }
}

/// An entry that was found is one of the history, recorded for that turn; where
/// none is found, none was.
pub proof fn an_entry_is_found_by_its_turn(history: Seq<UiAgentHistoryEntry>, turn: u32)
    ensures
        first_entry(history, turn) matches Some(found) ==> found.turn == turn && exists|i: int|
            0 <= i < history.len() && (#[trigger] history[i])@ == found,
        first_entry(history, turn) is None <==> forall|i: int|
            0 <= i < history.len() ==> (#[trigger] history[i]).turn != turn,
    decreases history.len(),
{
    if history.len() > 0 && history[0].turn != turn {
        let rest = history.skip(1);
        an_entry_is_found_by_its_turn(rest, turn);
        assert forall|i: int| 0 < i < history.len() implies history[i] == #[trigger] rest[i
            - 1] by {}
        if let Some(found) = first_entry(rest, turn) {
            let i = choose|i: int| 0 <= i < rest.len() && (#[trigger] rest[i])@ == found;
            assert(history[i + 1]@ == found);
        } else {
            assert forall|i: int| 0 <= i < history.len() implies (#[trigger] history[i]).turn
                != turn by {
                if i > 0 {
                    assert(history[i] == rest[i - 1]);
                }
            }
        }
        if first_entry(rest, turn) is Some {
            assert(exists|i: int| 0 <= i < history.len() && (#[trigger] history[i]).turn == turn);
        }
    }
}

/// The staged edit of one tool row: none for a call that staged nothing, nor for
/// an edit that has left the history.
pub fn history_entry_for_row(history: &Vec<UiAgentHistoryEntry>, row: &UiAgentToolRow) -> (r:
    Option<UiAgentHistoryEntry>)
    ensures
        match row.edit_turn {
            None => r is None,
            Some(turn) => match first_entry(history@, turn) {
                None => r is None,
                Some(found) => r matches Some(entry) && entry@ == found,
            },
        },
{
    let turn: u32 = match row.edit_turn {
        Some(turn) => turn,
        None => return None,
    };
    let mut at: usize = 0;
    proof {
        assert(history@.skip(0) =~= history@);
    }
    while at < history.len()
        invariant
            at <= history@.len(),
            first_entry(history@.skip(at as int), turn) == first_entry(history@, turn),
            row.edit_turn == Some(turn),
        decreases history.len() - at,
    {
        if history[at].turn == turn {
            return Some(history[at].clone());
        }
        proof {
            assert(history@.skip(at as int).skip(1) =~= history@.skip(at + 1));
        }
        at += 1;
    }
    None
}

/// Whether the pane shows how to set the agent up, in place of the chat.
pub fn shows_setup(availability: UiAgentAvailability) -> (r: bool)
    ensures
        r == (availability == UiAgentAvailability::NeedsKey),
{
    match availability {
        UiAgentAvailability::NeedsKey => true,
        UiAgentAvailability::Ready => false,
    }
}

/// The line that points at the settings, by the selected provider's name.
pub fn setup_line(provider: &Option<String>) -> (r: String)
    ensures
        r@ == "Or finish setting up "@ + match *provider {
            Some(label) => label@,
            None => "a provider"@,
        } + " in Settings (the gear icon, top right)."@,
{
    let mut line: String = "Or finish setting up ".to_string();
    match provider {
        Some(label) => line.append(label.as_str()),
        None => line.append("a provider"),
    }
    line.append(" in Settings (the gear icon, top right).");
    line
}

/// A reply is being written at the tail of the conversation.
pub open spec fn is_streaming_tail(status: UiAgentStatus, turns: Seq<UiAgentTurn>) -> bool {
    status is Streaming && turns.len() > 0 && turns.last() is Assistant
}

/// A thought is being written at the tail of the conversation.
pub open spec fn is_thinking_tail(turns: Seq<UiAgentTurn>) -> bool {
    turns.len() > 0 && (turns.last() matches UiAgentTurn::Thinking { done, .. } && !done)
}

pub const RUNNING_LINE: &'static str = "Running experiment\u{2026}";

pub const THINKING_LINE: &'static str = "Thinking\u{2026}";

pub const COMPOSER_PROMPT: &'static str = "Ask for a change\u{2026} (Enter sends, Shift+Enter for a new line)";

pub const COMPOSER_LOADING: &'static str = "Loading shader source\u{2026}";

/// What the pane shows around its turns.
#[derive(Clone, Debug, PartialEq, Eq)]
pub struct ChatChrome {
    /// The draft can be sent.
    pub can_send: bool,
    /// The last turn wears the writing cursor.
    pub streaming_tail: bool,
    /// The row that says the agent is at work.
    pub working_row: Option<&'static str>,
    /// The conversation has not begun.
    pub invites: bool,
    /// There are staged edits to go back to.
    pub shows_history: bool,
    /// The composer offers to stop the run, in place of sending.
    pub offers_stop: bool,
    pub placeholder: &'static str,
}

/// What the pane shows around its turns. A busy agent without a reply or a
/// thought at the tail gets a row of its own.
pub fn chat_chrome(
    status: &UiAgentStatus,
    turns: &Vec<UiAgentTurn>,
    history: usize,
    busy: bool,
    source_resolved: bool,
) -> (r: ChatChrome)
    ensures
        r.can_send == (!busy && source_resolved),
        r.streaming_tail == is_streaming_tail(*status, turns@),
        match r.working_row {
            Some(line) => {
                &&& busy && !is_streaming_tail(*status, turns@) && !is_thinking_tail(turns@)
                &&& line@ == if *status is RunningTool {
                    RUNNING_LINE@
                } else {
                    THINKING_LINE@
                }
            },
            None => !busy || is_streaming_tail(*status, turns@) || is_thinking_tail(turns@),
        },
        r.invites == (turns@.len() == 0),
        r.shows_history == (history > 0),
        r.offers_stop == busy,
        r.placeholder@ == if source_resolved {
            COMPOSER_PROMPT@
        } else {
            COMPOSER_LOADING@
        },
{
    let count: usize = turns.len();
    let mut streaming_tail: bool = false;
    let mut thinking_tail: bool = false;
    if count > 0 {
        match &turns[count - 1] {
            UiAgentTurn::Assistant { .. } => {
                streaming_tail = matches!(status, UiAgentStatus::Streaming);
            },
            UiAgentTurn::Thinking { done, .. } => {
                thinking_tail = !*done;
            },
            _ => {},
        }
    }
    let working_row: Option<&'static str> = if busy && !streaming_tail && !thinking_tail {
        if matches!(status, UiAgentStatus::RunningTool) {
            Some(RUNNING_LINE)
        } else {
            Some(THINKING_LINE)
        }
    } else {
        None
    };
    ChatChrome {
        can_send: !busy && source_resolved,
        streaming_tail,
        working_row,
        invites: count == 0,
        shows_history: history > 0,
        offers_stop: busy,
        placeholder: if source_resolved {
            COMPOSER_PROMPT
        } else {
            COMPOSER_LOADING
        },
    }
}

/// Whether the turn at `index` wears the writing cursor: only the last one does.
pub fn wears_cursor(streaming_tail: bool, index: usize, turns: usize) -> (r: bool)
    ensures
        r == (streaming_tail && index + 1 == turns),
{
    streaming_tail && index < turns && turns - index == 1
}

/// What helps after an error.
pub fn retry_hint(retryable: bool) -> (r: &'static str)
    ensures
        r@ == if retryable {
            "Try sending again."@
        } else {
            "Check your key or model in Settings, then retry."@
        },
{
    if retryable {
        "Try sending again."
    } else {
        "Check your key or model in Settings, then retry."
    }
}

/// What a key press in the composer does.
#[derive(Clone, Copy, Debug, PartialEq, Eq, Structural)]
pub enum ComposerKey {
    /// The text area takes it.
    Typed,
    /// Nothing: it would send, but nothing can be sent.
    Swallowed,
    /// Send the draft.
    Send,
}

/// What a key press in the composer does: Enter sends, Shift+Enter is a new
/// line.
pub fn composer_key(enter: bool, shift: bool, can_send: bool) -> (r: ComposerKey)
    ensures
        r == if !enter || shift {
            ComposerKey::Typed
        } else if can_send {
            ComposerKey::Send
        } else {
            ComposerKey::Swallowed
        },
{
    if !enter || shift {
        ComposerKey::Typed
    } else if can_send {
        ComposerKey::Send
    } else {
        ComposerKey::Swallowed
    }
}

/// Takes what the draft sends: its text without the white space around it. The
/// draft is empty afterwards, unless it held nothing to send.
pub fn dispatch_send(draft: &mut String) -> (r: Option<String>)
    ensures
        match r {
            Some(text) => {
                &&& trimmed(old(draft)@).len() > 0
                &&& text@ == trimmed(old(draft)@)
                &&& final(draft)@ == Seq::<char>::empty()
            },
            None => trimmed(old(draft)@).len() == 0 && *final(draft) == *old(draft),
        },
{
    let text: String = trim(draft.as_str());
    if text.as_str().unicode_len() == 0 {
        return None;
    }
    *draft = String::new();
    Some(text)
}

/// The footnote on what the session has used.
pub fn usage_line(input_tokens: u64, output_tokens: u64) -> (r: String)
    ensures
        r@ == decimal(input_tokens as nat) + " in \u{00b7} "@ + decimal(output_tokens as nat)
            + " out tokens this session"@,
{
    let mut line: String = decimal_text(input_tokens);
    line.append(" in \u{00b7} ");
    line.append(decimal_text(output_tokens).as_str());
    line.append(" out tokens this session");
    line
}

/// The note on edits that have left the history.
pub fn dropped_label(dropped: u64) -> (r: Option<String>)
    ensures
        match r {
            Some(label) => dropped > 0 && label@ == "+"@ + decimal(dropped as nat) + " older"@,
            None => dropped == 0,
        },
{
    if dropped == 0 {
        return None;
    }
    let mut label: String = "+".to_string();
    label.append(decimal_text(dropped).as_str());
    label.append(" older");
    Some(label)
}

/// What an edit set out to do.
pub open spec fn intent(entry: UiAgentHistoryEntry) -> Seq<char> {
    match entry.note {
        Some(note) => note@,
        None => "this edit"@,
    }
}

/// What a history chip says it would do.
pub fn history_chip_title(entry: &UiAgentHistoryEntry, busy: bool) -> (r: String)
    ensures
        r@ == if busy {
            "Turn "@ + decimal(entry.turn as nat) + ": "@ + intent(*entry)
                + " \u{2014} stop the run to revert"@
        } else {
            "Revert to turn "@ + decimal(entry.turn as nat) + ": "@ + intent(*entry)
                + " (stages the source; Save keeps it)"@
        },
{
    let mut title: String = if busy {
        "Turn ".to_string()
    } else {
        "Revert to turn ".to_string()
    };
    title.append(decimal_text(entry.turn as u64).as_str());
    title.append(": ");
    match &entry.note {
        Some(note) => title.append(note.as_str()),
        None => title.append("this edit"),
    }
    if busy {
        title.append(" \u{2014} stop the run to revert");
    } else {
        title.append(" (stages the source; Save keeps it)");
    }
    title
}

/// Whether a history chip draws its edit's snapshot; otherwise its number stands
/// there.
pub fn draws_thumb(thumb: &Option<UiProductPreview>) -> (r: bool)
    ensures
        r == (thumb matches Some(preview) && preview is VisualSrgb8),
{
    match thumb {
        Some(UiProductPreview::VisualSrgb8 { .. }) => true,
        _ => false,
    }
}

/// Whether a tool row draws its edit's snapshot: once the edit was judged good
/// and a preview of it landed. Until both, its number stands there.
pub fn row_draws_thumb(entry: &UiAgentHistoryEntry) -> (r: bool)
    ensures
        r == (entry.engine_ok == Some(true) && (entry.thumb matches Some(preview)
            && preview is VisualSrgb8)),
{
    let judged_good: bool = match entry.engine_ok {
        Some(ok) => ok,
        None => false,
    };
    judged_good && draws_thumb(&entry.thumb)
}

/// What a tool row's snapshot says.
pub fn thumb_title(entry: &UiAgentHistoryEntry) -> (r: String)
    ensures
        r@ == "Edit "@ + decimal(entry.turn as nat) + if entry.thumb is Some {
            " \u{2014} how it looked"@
        } else {
            " \u{2014} no snapshot"@
        },
{
    let mut title: String = "Edit ".to_string();
    title.append(decimal_text(entry.turn as u64).as_str());
    if entry.thumb.is_some() {
        title.append(" \u{2014} how it looked");
    } else {
        title.append(" \u{2014} no snapshot");
    }
    title
}

pub const OPEN_MARK: &'static str = "\u{25be}";

pub const CLOSED_MARK: &'static str = "\u{25b8}";

/// How a row that unfolds is drawn.
#[derive(Clone, Debug, PartialEq, Eq)]
pub struct Unfolding {
    pub title: &'static str,
    /// The mark that says it unfolds.
    pub mark: Option<&'static str>,
    /// What it holds is shown.
    pub shows_body: bool,
}

/// A row unfolds where it holds something, and shows it while open.
pub open spec fn unfolds(row: Unfolding, has_body: bool, open: bool) -> bool {
    &&& match row.mark {
        Some(mark) => has_body && mark@ == if open {
            OPEN_MARK@
        } else {
            CLOSED_MARK@
        },
        None => !has_body,
    }
    &&& row.shows_body == (open && has_body)
}

fn unfolding(title: &'static str, has_body: bool, open: bool) -> (r: Unfolding)
    ensures
        r.title@ == title@,
        unfolds(r, has_body, open),
{
    Unfolding {
        title,
        mark: if has_body {
            if open {
                Some(OPEN_MARK)
            } else {
                Some(CLOSED_MARK)
            }
        } else {
            None
        },
        shows_body: open && has_body,
    }
}

/// How a thought is drawn, while it is written and afterwards.
pub fn thinking_turn(text: &str, done: bool, open: bool) -> (r: Unfolding)
    ensures
        unfolds(r, text@.len() > 0, open),
        r.title@ == if done {
            if text@.len() > 0 {
                "Show what the model thought"@
            } else {
                "The provider kept this thinking private"@
            }
        } else {
            if text@.len() > 0 {
                "Show the thinking as it streams"@
            } else {
                "Waiting for the model"@
            }
        },
{
    let has_text: bool = text.unicode_len() > 0;
    let title: &'static str = if done {
        if has_text {
            "Show what the model thought"
        } else {
            "The provider kept this thinking private"
        }
    } else {
        if has_text {
            "Show the thinking as it streams"
        } else {
            "Waiting for the model"
        }
    };
    unfolding(title, has_text, open)
}

/// How a tool row is drawn.
pub fn tool_row(row: &UiAgentToolRow, open: bool) -> (r: Unfolding)
    ensures
        unfolds(r, row.detail@.len() > 0, open),
        r.title@ == if row.detail@.len() > 0 {
            "Show experiment detail"@
        } else {
            "Experiment running"@
        },
{
    let has_detail: bool = row.detail.as_str().unicode_len() > 0;
    unfolding(
        if has_detail {
            "Show experiment detail"
        } else {
            "Experiment running"
        },
        has_detail,
        open,
    )
}

/// The name a tool row is kept by between redraws.
pub fn tool_row_key(index: usize, row: &UiAgentToolRow) -> (r: String)
    ensures
        r@ == decimal(index as nat) + "-"@ + row.id@,
{
    let mut key: String = decimal_text(index as u64);
    key.append("-");
    key.append(row.id.as_str());
    key
}

/// One model that can be chosen.
#[derive(Debug, PartialEq, Eq)]
pub struct UiModelOption {
    pub id: String,
    pub label: Option<String>,
    pub detail: Option<String>,
}

impl Clone for UiModelOption {
    fn clone(&self) -> (r: Self)
        ensures
            r == *self,
    {
        UiModelOption {
            id: self.id.clone(),
            label: clone_text_opt(&self.label),
            detail: clone_text_opt(&self.detail),
        }
    }
}

/// The session's model and those it could use.
#[derive(Clone, Debug, PartialEq, Eq)]
pub struct UiAgentModelView {
    pub effective: Option<String>,
    pub options: Vec<UiModelOption>,
    pub loading: bool,
}

/// The option list names the model.
pub open spec fn lists_model(options: Seq<UiModelOption>, id: Seq<char>) -> bool {
    exists|i: int| 0 <= i < options.len() && (#[trigger] options[i]).id@ == id
}

/// The models that can be chosen: those fetched, with the one in use before them
/// where they do not name it. So the one in use can always be shown.
pub fn model_chip_options(model: &UiAgentModelView) -> (r: Vec<UiModelOption>)
    ensures
        match model.effective {
            Some(effective) => {
                &&& lists_model(r@, effective@)
                &&& if lists_model(model.options@, effective@) {
                    r@ == model.options@
                } else {
                    &&& r@.len() == model.options@.len() + 1
                    &&& r@.skip(1) == model.options@
                    &&& r@[0].id@ == effective@
                    &&& r@[0].label is None
                    &&& r@[0].detail is None
                }
            },
            None => r@ == model.options@,
        },
{
    let mut options: Vec<UiModelOption> = Vec::new();
    if let Some(effective) = &model.effective {
        let mut listed: bool = false;
        let mut at: usize = 0;
        while at < model.options.len()
            invariant
                at <= model.options@.len(),
                listed == exists|i: int|
                    0 <= i < at && (#[trigger] model.options@[i]).id@ == effective@,
            decreases model.options.len() - at,
        {
            if model.options[at].id == *effective {
                assert(model.options@[at as int].id@ == effective@);
                listed = true;
            }
            at += 1;
        }
        if !listed {
            options.push(
                UiModelOption { id: effective.clone(), label: None, detail: None },
            );
        }
    }
    let ghost start = options@;
    let mut at: usize = 0;
    while at < model.options.len()
        invariant
            at <= model.options@.len(),
            options@ == start + model.options@.take(at as int),
        decreases model.options.len() - at,
    {
        options.push(model.options[at].clone());
        proof {
            assert(start + model.options@.take(at + 1) =~= (start + model.options@.take(
                at as int,
            )).push(model.options@[at as int]));
        }
        at += 1;
    }
    proof {
        assert(model.options@.take(at as int) =~= model.options@);
        if start.len() == 0 {
            assert(options@ =~= model.options@);
        } else {
            assert(options@.skip(1) =~= model.options@);
            assert(options@[0] == start[0]);
        }
    }
    options
}

/// What a model is called.
pub fn model_option_label(option: &UiModelOption) -> (r: String)
    ensures
        r@ == match option.label {
            Some(label) => label@,
            None => option.id@,
        },
{
    match &option.label {
        Some(label) => label.clone(),
        None => option.id.clone(),
    }
}

/// The value of the option that only points at the settings.
pub const SETTINGS_MODEL_VALUE: &'static str = "__settings__";

/// What the model chip asks of the settings.
#[derive(Clone, Debug, PartialEq, Eq)]
pub enum SettingsCommand {
    SetAgentModel(Option<String>),
    RequestModels { force: bool },
}

/// What choosing `value` asks of the settings: nothing where it is the pointer
/// at them.
pub fn model_choice(value: &str) -> (r: Option<SettingsCommand>)
    ensures
        match r {
            Some(SettingsCommand::SetAgentModel(Some(model))) => value@ != SETTINGS_MODEL_VALUE@
                && model@ == value@,
            Some(_) => false,
            None => value@ == SETTINGS_MODEL_VALUE@,
        },
{
    if same_text(value, SETTINGS_MODEL_VALUE) {
        None
    } else {
        Some(SettingsCommand::SetAgentModel(Some(value.to_string())))
    }
}

/// What opening the model list asks of the settings: to fetch it, unless that
/// was done a moment ago.
pub fn model_list_opened() -> (r: SettingsCommand)
    ensures
        r == (SettingsCommand::RequestModels { force: false }),
{
    SettingsCommand::RequestModels { force: false }
}

/// The model chip's title.
pub fn model_chip_title(busy: bool) -> (r: &'static str)
    ensures
        r@ == if busy {
            "Model for the next run \u{2014} wait for this run to finish to switch"@
        } else {
            "Model for the next run \u{2014} custom ids in Settings"@
        },
{
    if busy {
        "Model for the next run \u{2014} wait for this run to finish to switch"
    } else {
        "Model for the next run \u{2014} custom ids in Settings"
    }
}

/// The words of the option that points at the settings.
pub fn settings_option_label(loading: bool) -> (r: &'static str)
    ensures
        r@ == if loading {
            "fetching model list\u{2026}"@
        } else {
            "Custom / more \u{2014} Settings"@
        },
{
    if loading {
        "fetching model list\u{2026}"
    } else {
        "Custom / more \u{2014} Settings"
    }
}

/// A dump is new where it was made after the last one taken.
pub open spec fn is_new_dump(taken: u64, seq: u64) -> bool {
    taken < seq
}

/// Takes a debug dump by its number: whether it is to be downloaded. Each is
/// downloaded once.
pub fn take_dump(taken: &mut u64, seq: Option<u64>) -> (r: bool)
    ensures
        r == (seq matches Some(seq) && is_new_dump(*old(taken), seq)),
        *final(taken) == match seq {
            Some(seq) => if is_new_dump(*old(taken), seq) {
                seq
            } else {
                *old(taken)
            },
            None => *old(taken),
        },
{
    match seq {
        Some(seq) => if *taken < seq {
            *taken = seq;
            true
        } else {
            false
        },
        None => false,
    }
}

/// A dump that was taken is not taken again, nor is an earlier one.
pub proof fn a_dump_is_taken_once(taken: u64, seq: u64, later: u64)
    requires
        later <= seq,
    ensures
        !is_new_dump(
            if is_new_dump(taken, seq) {
                seq
            } else {
                taken
            },
            later,
        ),
{
}

/// Which of the footer's export buttons are live.
#[derive(Clone, Debug, PartialEq, Eq)]
pub struct ExportChrome {
    pub can_copy: bool,
    pub can_dump: bool,
    pub dump_title: &'static str,
}

/// Which of the footer's export buttons are live: both need a conversation, and
/// the dump an agent at rest.
pub fn export_chrome(turns: usize, busy: bool) -> (r: ExportChrome)
    ensures
        r.can_copy == (turns > 0),
        r.can_dump == (turns > 0 && !busy),
        r.dump_title@ == if busy {
            "Debug export is available when the run finishes"@
        } else {
            "Download the raw model transcript (JSON) for debugging"@
        },
{
    ExportChrome {
        can_copy: turns > 0,
        can_dump: turns > 0 && !busy,
        dump_title: if busy {
            "Debug export is available when the run finishes"
        } else {
            "Download the raw model transcript (JSON) for debugging"
        },
    }
}

/// The name of a debug dump's file.
pub open spec fn dump_name(path: Seq<char>) -> Seq<char> {
    without_suffixes(last_segment(path, '/'), ".glsl"@) + "-agent-debug.json"@
}

/// The name of a debug dump's file: the stem of the shader's, marked as a dump.
pub fn debug_dump_file_name(path: &str) -> (r: String)
    ensures
        r@ == dump_name(path@),
{
    proof {
        reveal_strlit(".glsl");
    }
    let file: String = find_last_segment(path, '/');
    let mut name: String = strip_suffixes(file.as_str(), ".glsl");
    name.append("-agent-debug.json");
    name
}

pub const MODEL_CHIP: &'static str = "tw:min-w-0 tw:max-w-56 tw:flex-none tw:truncate tw:rounded-xs tw:border tw:border-transparent tw:bg-transparent tw:px-1 tw:py-0.5 tw:font-mono tw:text-[10px] tw:text-dim-foreground tw:outline-none tw:transition tw:duration-300 ";

pub const MODEL_CHIP_ON: &'static str = "tw:cursor-default tw:opacity-50";

pub const MODEL_CHIP_OFF: &'static str = "tw:cursor-pointer tw:hover:border-border-subtle tw:hover:text-muted-foreground";

/// The model chip's class: one geometry, inert while a run is in flight.
pub fn model_chip_class(busy: bool) -> (r: String)
    ensures
        r@ == MODEL_CHIP@ + if busy {
            MODEL_CHIP_ON@
        } else {
            MODEL_CHIP_OFF@
        },
{
    let mut class: String = MODEL_CHIP.to_string();
    if busy {
        class.append(MODEL_CHIP_ON);
    } else {
        class.append(MODEL_CHIP_OFF);
    }
    class
}

pub const EXPORT_BUTTON: &'static str = "tw:flex-none tw:rounded-xs tw:border tw:bg-transparent tw:px-2 tw:py-0.5 tw:text-[10px] tw:font-bold tw:transition tw:duration-300 ";

pub const EXPORT_BUTTON_ON: &'static str = "tw:cursor-pointer tw:border-border-subtle tw:text-muted-foreground tw:hover:border-accent-border tw:hover:bg-accent-wash tw:hover:text-accent";

pub const EXPORT_BUTTON_OFF: &'static str = "tw:cursor-default tw:border-border-subtle tw:text-subtle-foreground tw:opacity-40";

/// An export button's class: one geometry, live or not.
pub fn export_button_class(enabled: bool) -> (r: String)
    ensures
        r@ == EXPORT_BUTTON@ + if enabled {
            EXPORT_BUTTON_ON@
        } else {
            EXPORT_BUTTON_OFF@
        },
{
    let mut class: String = EXPORT_BUTTON.to_string();
    if enabled {
        class.append(EXPORT_BUTTON_ON);
    } else {
        class.append(EXPORT_BUTTON_OFF);
    }
    class
}

pub const TRANSCRIPT: &'static str = "tw:grid ";

pub const TRANSCRIPT_ON: &'static str = "tw:h-80";

pub const TRANSCRIPT_OFF: &'static str = "tw:min-h-40";

pub const TRANSCRIPT_REST: &'static str = " tw:content-start tw:gap-2 tw:overflow-auto tw:bg-card-subtle tw:px-3 tw:py-3";

/// The transcript's class: of a fixed height once there are turns.
pub fn transcript_class(has_turns: bool) -> (r: String)
    ensures
        r@ == TRANSCRIPT@ + if has_turns {
            TRANSCRIPT_ON@
        } else {
            TRANSCRIPT_OFF@
        } + TRANSCRIPT_REST@,
{
    let mut class: String = TRANSCRIPT.to_string();
    if has_turns {
        class.append(TRANSCRIPT_ON);
    } else {
        class.append(TRANSCRIPT_OFF);
    }
    class.append(TRANSCRIPT_REST);
    class
}

pub const HISTORY_CHIP: &'static str = "tw:flex tw:flex-none tw:flex-col tw:items-center tw:gap-0.5 tw:rounded-xs tw:border tw:border-transparent tw:bg-transparent tw:p-1 tw:transition tw:duration-300 ";

pub const HISTORY_CHIP_ON: &'static str = "tw:cursor-default tw:opacity-50";

pub const HISTORY_CHIP_OFF: &'static str = "tw:cursor-pointer tw:hover:border-accent-border tw:hover:bg-accent-wash";

/// A history chip's class: one geometry, inert while a run is in flight.
pub fn history_chip_class(busy: bool) -> (r: String)
    ensures
        r@ == HISTORY_CHIP@ + if busy {
            HISTORY_CHIP_ON@
        } else {
            HISTORY_CHIP_OFF@
        },
{
    let mut class: String = HISTORY_CHIP.to_string();
    if busy {
        class.append(HISTORY_CHIP_ON);
    } else {
        class.append(HISTORY_CHIP_OFF);
    }
    class
}

pub const SEND_BUTTON: &'static str = "tw:flex-none tw:rounded-xs tw:border tw:bg-transparent tw:px-3 tw:py-1.5 tw:text-xs tw:font-bold tw:transition tw:duration-300 ";

pub const SEND_BUTTON_ON: &'static str = "tw:cursor-pointer tw:border-accent-border tw:text-accent tw:hover:bg-accent-wash";

pub const SEND_BUTTON_OFF: &'static str = "tw:cursor-default tw:border-border-subtle tw:text-subtle-foreground tw:opacity-40";

/// The send button's class: one geometry, live or not.
pub fn send_button_class(enabled: bool) -> (r: String)
    ensures
        r@ == SEND_BUTTON@ + if enabled {
            SEND_BUTTON_ON@
        } else {
            SEND_BUTTON_OFF@
        },
{
    let mut class: String = SEND_BUTTON.to_string();
    if enabled {
        class.append(SEND_BUTTON_ON);
    } else {
        class.append(SEND_BUTTON_OFF);
    }
    class
}

pub const NOTICE_WARNING: &'static str = "tw:m-0 tw:text-xs tw:italic tw:text-status-warning-foreground";

pub const NOTICE_PLAIN: &'static str = "tw:m-0 tw:text-xs tw:italic tw:text-dim-foreground";

/// A notice's class: a warning must not be scrolled past.
pub fn notice_class(level: UiNoticeLevel) -> (r: &'static str)
    ensures
        r@ == match level {
            UiNoticeLevel::Warning => NOTICE_WARNING@,
            UiNoticeLevel::Info => NOTICE_PLAIN@,
        },
{
    match level {
        UiNoticeLevel::Warning => NOTICE_WARNING,
        UiNoticeLevel::Info => NOTICE_PLAIN,
    }
}

pub const HISTORY_DOT_GOOD: &'static str = "tw:h-1 tw:w-1 tw:flex-none tw:rounded-full tw:bg-status-good-foreground";

pub const HISTORY_DOT_ERROR: &'static str = "tw:h-1 tw:w-1 tw:flex-none tw:rounded-full tw:bg-status-error-foreground";

pub const HISTORY_DOT_UNKNOWN: &'static str = "tw:h-1 tw:w-1 tw:flex-none tw:rounded-full tw:bg-dim-foreground";

/// The class of the dot that shows the engine's verdict.
pub fn history_dot_class(engine_ok: Option<bool>) -> (r: &'static str)
    ensures
        r@ == match engine_ok {
            Some(ok) => if ok {
                HISTORY_DOT_GOOD@
            } else {
                HISTORY_DOT_ERROR@
            },
            None => HISTORY_DOT_UNKNOWN@,
        },
{
    match engine_ok {
        Some(true) => HISTORY_DOT_GOOD,
        Some(false) => HISTORY_DOT_ERROR,
        None => HISTORY_DOT_UNKNOWN,
    }
}

pub const TOOL_DOT_WORKING: &'static str = "tw:h-1.5 tw:w-1.5 tw:flex-none tw:rounded-full tw:animate-pulse tw:bg-status-working-foreground";

pub const TOOL_DOT_ERROR: &'static str = "tw:h-1.5 tw:w-1.5 tw:flex-none tw:rounded-full tw:bg-status-error-foreground";

pub const TOOL_DOT_GOOD: &'static str = "tw:h-1.5 tw:w-1.5 tw:flex-none tw:rounded-full tw:bg-status-good-foreground";

pub const TOOL_DOT_UNJUDGED: &'static str = "tw:h-1.5 tw:w-1.5 tw:flex-none tw:rounded-full tw:bg-dim-foreground";

/// The class of a tool row's dot: working while it runs, an error where there
/// was one, good strictly for a compile that was judged valid, and neutral where
/// none was judged.
pub fn tool_dot_class(row: &UiAgentToolRow) -> (r: &'static str)
    ensures
        r@ == if !row.done {
            TOOL_DOT_WORKING@
        } else if row.error is Some || row.shader_ok == Some(false) {
            TOOL_DOT_ERROR@
        } else if row.shader_ok == Some(true) {
            TOOL_DOT_GOOD@
        } else {
            TOOL_DOT_UNJUDGED@
        },
{
    if !row.done {
        return TOOL_DOT_WORKING;
    }
    if row.error.is_some() {
        return TOOL_DOT_ERROR;
    }
    match row.shader_ok {
        Some(true) => TOOL_DOT_GOOD,
        Some(false) => TOOL_DOT_ERROR,
        None => TOOL_DOT_UNJUDGED,
    }
}

/// How far from its bottom the transcript still follows it, in pixels.
pub const CHAT_STICKY_THRESHOLD_PX: i64 = 48;

/// Whether the transcript is scrolled near enough to its bottom to follow it.
/// `scroll_top` is in whole pixels, rounded down.
pub fn is_near_bottom(scroll_top: i64, scroll_height: i32, client_height: i32) -> (r: bool)
    ensures
        r == (scroll_height - scroll_top - client_height <= CHAT_STICKY_THRESHOLD_PX),
{
    scroll_height as i64 - client_height as i64 - CHAT_STICKY_THRESHOLD_PX <= scroll_top
}

} // verus!
