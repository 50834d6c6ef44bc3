use vstd::prelude::*;
use crate::commands::{
    active_prefix, command_table, complete_command_input, first_word_end, lemma_command_names_short,
    lemma_with_prefix_names_bounded, matching_command_specs, spec_views, with_prefix,
};
use crate::helpers::{short_chat_label, split_command_line, split_words};
use crate::text::{
    chars_blank, chars_of, is_blank, join_spec, push_char, str_views, string_from_range, trim, trim_end, trim_start,
};
use crate::markdown::strip_lead;
use crate::link::decimal_padded;

verus! {

/// The first eight characters of a chat id, as the status line shows it.
pub open spec fn label(id: Seq<char>) -> Seq<char> {
    id.take(if id.len() < 8 { id.len() as int } else { 8 })
}

/// What a chat is doing, as the runtime reports it.
pub enum InputProcessingState {
    Idle,
    Processing { message: String },
    Connecting { message: String },
    Receiving { message: String },
    ExecutingTool { toolName: String },
    ToolProgress { toolName: String, message: String },
    ProcessingToolResult { toolName: String },
    Summarizing { message: String },
    ExecutingPlan { message: String },
    Error { message: String },
    Completed,
}

/// A chat in the list.
pub struct ChatListItem {
    pub id: String,
    pub title: String,
    pub secondary: String,
}

/// Which pane takes the keys.
#[derive(Clone, Copy, Debug, PartialEq, Eq, Structural)]
pub enum FocusArea {
    Chats,
    Input,
}

/// A key of the keyboard.
#[derive(Clone, Copy, Debug, PartialEq, Eq, Structural)]
pub enum KeyCodeIn {
    Char(char),
    F(u8),
    Esc,
    Tab,
    Enter,
    Up,
    Down,
    PageUp,
    PageDown,
    Home,
    End,
    Other,
}

/// Whether a key went down, repeated, or came up.
#[derive(Clone, Copy, Debug, PartialEq, Eq, Structural)]
pub enum KeyKindIn {
    Press,
    Repeat,
    Release,
}

/// The modifier bits of a key event (shift 1, control 2, alt 4, and so on).
pub const MOD_CONTROL: u8 = 2;

/// A key event.
#[derive(Clone, Copy, Debug, PartialEq, Eq, Structural)]
pub struct KeyInput {
    pub code: KeyCodeIn,
    pub modifiers: u8,
    pub kind: KeyKindIn,
}

/// What the screen asks its owner to do after a key.
pub enum TuiKeyAction {
    Nothing,
    CreateNewChat,
    RefreshChats,
    SwitchChat(String),
    InputKey(KeyInput),
}

/// The state of the chat screen.
pub struct OperitTui {
    pub chats: Vec<ChatListItem>,
    pub selected_chat_index: usize,
    pub focus: FocusArea,
    pub input: String,
    pub input_cursor: usize,
    pub autocomplete_index: usize,
    pub queued_attachment_paths: Vec<String>,
    pub status_message: String,
    pub transcript_scroll: u16,
    pub transcript_viewport_height: u16,
    pub transcript_max_scroll: u16,
    pub follow_transcript: bool,
    pub show_chat_list: bool,
    pub ctrl_c_pending: bool,
    pub last_current_chat_loading: bool,
    pub awaiting_runtime_loading: bool,
    pub show_help: bool,
    pub should_quit: bool,
}

/// The screen scrolled up by `amount`, stopping at the top; it no longer
/// follows the reply.
pub open spec fn scrolled_up(t: OperitTui, amount: u16) -> OperitTui {
    OperitTui {
        transcript_scroll: if t.transcript_scroll < amount { 0 } else { (t.transcript_scroll - amount) as u16 },
        follow_transcript: false,
        ..t
    }
}

/// The screen scrolled down by `amount`, stopping at the last page; it
/// follows the reply once there.
pub open spec fn scrolled_down(t: OperitTui, amount: u16) -> OperitTui {
    let added: int = if t.transcript_scroll + amount > 0xffff { 0xffff } else { t.transcript_scroll + amount };
    let next: u16 = if added < t.transcript_max_scroll { added as u16 } else { t.transcript_max_scroll };
    OperitTui { transcript_scroll: next, follow_transcript: next >= t.transcript_max_scroll, ..t }
}

/// A page: the viewport's height, at least one line.
pub open spec fn page_step(t: OperitTui) -> u16 {
    if t.transcript_viewport_height < 1 { 1 } else { t.transcript_viewport_height }
}

/// Half a page, at least one line.
pub open spec fn half_page_step(t: OperitTui) -> u16 {
    if t.transcript_viewport_height / 2 < 1 { 1 } else { (t.transcript_viewport_height / 2) as u16 }
}

/// Whether `a` is `b` with the chat list shown or hidden in turn, the focus
/// on it or back on the input, and the status saying so.
pub open spec fn toggled_chat_list(b: OperitTui, a: OperitTui) -> bool {
    &&& a == (OperitTui {
        show_chat_list: !b.show_chat_list,
        focus: if !b.show_chat_list { FocusArea::Chats } else { FocusArea::Input },
        status_message: a.status_message,
        ..b
    })
    &&& a.status_message@ == if !b.show_chat_list {
        "chat list shown | Up/Down select | Enter switch | Esc close"@
    } else {
        "chat list hidden"@
    }
}

/// What a key does in the chat list: up and down move the selection within
/// the list; enter asks to switch to the selected chat.
pub open spec fn chat_list_key_spec(b: OperitTui, a: OperitTui, key: KeyInput, r: TuiKeyAction) -> bool {
    let i = b.selected_chat_index;
    &&& a == (OperitTui {
        selected_chat_index: if key.code == KeyCodeIn::Up {
            if i > 0 { (i - 1) as usize } else { i }
        } else if key.code == KeyCodeIn::Down {
            if i + 1 < b.chats@.len() { (i + 1) as usize } else { i }
        } else {
            i
        },
        ..b
    })
    &&& if key.code == KeyCodeIn::Enter && i < b.chats@.len() {
        r matches TuiKeyAction::SwitchChat(id) && id@ == b.chats@[i as int].id@
    } else {
        r is Nothing
    }
}

/// Whether the input would be completed to a command.
pub open spec fn has_suggestions(t: OperitTui) -> bool {
    match active_prefix(t.input@) {
        Some(p) => with_prefix(command_table(), p).len() > 0,
        None => false,
    }
}

/// What a key does to the screen `b`, leaving `a` and asking for `r`. Keys
/// that come up are ignored; Ctrl+C twice quits; the help screen takes Esc,
/// `?` and F1 and nothing else; then the global keys (Ctrl+Q, Ctrl+N, Ctrl+R,
/// F3, the scrolling keys, Esc, `?`/F1, Tab); then the chat list when it has
/// the focus; else the key goes to the input box.
pub open spec fn key_event_spec(b: OperitTui, a: OperitTui, key: KeyInput, r: TuiKeyAction) -> bool {
    let control = key.modifiers == MOD_CONTROL;
    let m = OperitTui { ctrl_c_pending: false, ..b };
    if key.kind == KeyKindIn::Release {
        r is Nothing && a == b
    } else if key.code == KeyCodeIn::Char('c') && control {
        &&& r is Nothing
        &&& b.ctrl_c_pending ==> a == (OperitTui { should_quit: true, ..b })
        &&& !b.ctrl_c_pending ==> a == (OperitTui { ctrl_c_pending: true, status_message: a.status_message, ..b })
            && a.status_message@ == "press Ctrl+C again to quit"@
    } else if b.show_help {
        r is Nothing && a == (OperitTui {
            show_help: !(key.code == KeyCodeIn::Esc || key.code == KeyCodeIn::Char('?') || key.code == KeyCodeIn::F(1)),
            ..m
        })
    } else if key.code == KeyCodeIn::Char('q') && control {
        r is Nothing && a == (OperitTui { should_quit: true, ..m })
    } else if key.code == KeyCodeIn::Char('n') && control {
        r is CreateNewChat && a == m
    } else if key.code == KeyCodeIn::Char('r') && control {
        r is RefreshChats && a == (OperitTui { status_message: a.status_message, ..m })
            && a.status_message@ == "chat list refreshed"@
    } else if key.code == KeyCodeIn::F(3) {
        r is Nothing && toggled_chat_list(m, a)
    } else if key.code == KeyCodeIn::PageUp {
        r is Nothing && a == scrolled_up(m, page_step(m))
    } else if key.code == KeyCodeIn::PageDown {
        r is Nothing && a == scrolled_down(m, page_step(m))
    } else if key.code == KeyCodeIn::Char('u') && control {
        r is Nothing && a == scrolled_up(m, half_page_step(m))
    } else if key.code == KeyCodeIn::Char('d') && control {
        r is Nothing && a == scrolled_down(m, half_page_step(m))
    } else if key.code == KeyCodeIn::Home && control {
        r is Nothing && a == (OperitTui { transcript_scroll: 0, follow_transcript: false, ..m })
    } else if key.code == KeyCodeIn::End && control {
        r is Nothing && a == (OperitTui { transcript_scroll: m.transcript_max_scroll, follow_transcript: true, ..m })
    } else if key.code == KeyCodeIn::Esc {
        &&& r is Nothing
        &&& m.show_chat_list && m.focus == FocusArea::Chats ==> a == (OperitTui {
            show_chat_list: false,
            focus: FocusArea::Input,
            status_message: a.status_message,
            ..m
        }) && a.status_message@ == "chat list hidden"@
        &&& !(m.show_chat_list && m.focus == FocusArea::Chats) ==> a == (OperitTui {
            focus: FocusArea::Input,
            status_message: a.status_message,
            ..m
        }) && a.status_message@.len() == 0
    } else if key.code == KeyCodeIn::Char('?') || key.code == KeyCodeIn::F(1) {
        r is Nothing && a == (OperitTui { show_help: true, ..m })
    } else if key.code == KeyCodeIn::Tab && !(m.focus == FocusArea::Input && has_suggestions(m)) {
        r is Nothing && a == (OperitTui {
            focus: if !m.show_chat_list || m.focus == FocusArea::Chats { FocusArea::Input } else { FocusArea::Chats },
            ..m
        })
    } else if m.focus == FocusArea::Chats {
        chat_list_key_spec(m, a, key, r)
    } else {
        r == TuiKeyAction::InputKey(key) && a == m
    }
}

/// The first position of `id` among the chats' ids.
pub open spec fn chat_position(chats: Seq<ChatListItem>, id: Seq<char>, k: int) -> bool {
    &&& 0 <= k < chats.len()
    &&& chats[k].id@ == id
    &&& forall|j: int| 0 <= j < k ==> (#[trigger] chats[j]).id@ != id
}

/// The status line when the screen opens.
pub open spec fn welcome_status(id: Seq<char>) -> Seq<char> {
    "chat="@ + label(id) + " | F3 chats | Enter send | Ctrl+J newline | Ctrl+N new chat | Ctrl+Q quit | ? help"@
}

fn find_chat(chats: &Vec<ChatListItem>, chat_id: &str) -> (r: Option<usize>)
    ensures
        match r {
            Some(k) => chat_position(chats@, chat_id@, k as int),
            None => forall|j: int| 0 <= j < chats@.len() ==> (#[trigger] chats@[j]).id@ != chat_id@,
        },
{
    let mut i: usize = 0;
    while i < chats.len()
        invariant
            i <= chats.len(),
            forall|j: int| 0 <= j < i ==> (#[trigger] chats@[j]).id@ != chat_id@,
        decreases chats.len() - i,
    {
        if crate::text::str_eq(chats[i].id.as_str(), chat_id) {
            return Some(i);
        }
        i = i + 1;
    }
    None
}

impl OperitTui {
    /// The screen over a list of chats, with the given chat selected (the
    /// first one when it is not listed).
    pub fn new(chats: Vec<ChatListItem>, initial_chat_id: &str) -> (t: Self)
        ensures
            t.chats@ == chats@,
            (exists|k: int| chat_position(chats@, initial_chat_id@, k) && t.selected_chat_index == k)
                || ((forall|j: int| 0 <= j < chats@.len() ==> (#[trigger] chats@[j]).id@ != initial_chat_id@) && t.selected_chat_index == 0),
            t.status_message@ == welcome_status(initial_chat_id@),
            t.focus == FocusArea::Input,
            t.input@.len() == 0,
            t.input_cursor == 0,
            t.transcript_scroll == 0,
            t.transcript_viewport_height == 1,
            t.transcript_max_scroll == 0,
            t.follow_transcript,
            !t.show_chat_list && !t.ctrl_c_pending && !t.show_help && !t.should_quit,
            !t.last_current_chat_loading && !t.awaiting_runtime_loading,
    {
        let selected = match find_chat(&chats, initial_chat_id) {
            Some(k) => k,
            None => 0,
        };
        let mut status = String::from_str("chat=");
        status.append(short_chat_label(initial_chat_id).as_str());
        status.append(" | F3 chats | Enter send | Ctrl+J newline | Ctrl+N new chat | Ctrl+Q quit | ? help");
        OperitTui {
            chats,
            selected_chat_index: selected,
            focus: FocusArea::Input,
            input: String::new(),
            input_cursor: 0,
            autocomplete_index: 0,
            queued_attachment_paths: Vec::new(),
            status_message: status,
            transcript_scroll: 0,
            transcript_viewport_height: 1,
            transcript_max_scroll: 0,
            follow_transcript: true,
            show_chat_list: false,
            ctrl_c_pending: false,
            last_current_chat_loading: false,
            awaiting_runtime_loading: false,
            show_help: false,
            should_quit: false,
        }
    }

    /// A page: the viewport's height, at least one line.
    pub fn transcript_page_step(&self) -> (r: u16)
        ensures
            r == if self.transcript_viewport_height < 1 { 1 } else { self.transcript_viewport_height },
    {
        if self.transcript_viewport_height < 1 {
            1
        } else {
            self.transcript_viewport_height
        }
    }

    /// Half a page, at least one line.
    pub fn transcript_half_page_step(&self) -> (r: u16)
        ensures
            r == if self.transcript_viewport_height / 2 < 1 { 1 } else { self.transcript_viewport_height / 2 },
    {
        let h = self.transcript_viewport_height / 2;
        if h < 1 {
            1
        } else {
            h
        }
    }

    /// Scrolls up, stopping at the top, and stops following the reply.
    pub fn scroll_transcript_up(&mut self, amount: u16)
        ensures
            final(self).ctrl_c_pending == old(self).ctrl_c_pending,
            final(self).transcript_scroll == if old(self).transcript_scroll < amount { 0 } else { (old(self).transcript_scroll - amount) as u16 },
            !final(self).follow_transcript,
            final(self).transcript_max_scroll == old(self).transcript_max_scroll,
            final(self).transcript_viewport_height == old(self).transcript_viewport_height,
            *final(self) == (OperitTui { transcript_scroll: final(self).transcript_scroll, follow_transcript: final(self).follow_transcript, ..*old(self) }),
            *final(self) == scrolled_up(*old(self), amount),
    {
        self.follow_transcript = false;
        self.transcript_scroll = self.transcript_scroll.saturating_sub(amount);
    }

    /// Scrolls down, stopping at the last page; reaching it follows the reply
    /// again. From within range, scrolling down never goes back up nor past
    /// the last page.
    pub fn scroll_transcript_down(&mut self, amount: u16)
        ensures
            final(self).ctrl_c_pending == old(self).ctrl_c_pending,
            final(self).transcript_scroll as int == if old(self).transcript_scroll + amount > 0xffff {
                if 0xffff < old(self).transcript_max_scroll { 0xffff } else { old(self).transcript_max_scroll as int }
            } else if old(self).transcript_scroll + amount < old(self).transcript_max_scroll {
                old(self).transcript_scroll + amount
            } else {
                old(self).transcript_max_scroll as int
            },
            final(self).follow_transcript == (final(self).transcript_scroll >= old(self).transcript_max_scroll),
            final(self).transcript_max_scroll == old(self).transcript_max_scroll,
            final(self).transcript_viewport_height == old(self).transcript_viewport_height,
            old(self).transcript_scroll <= old(self).transcript_max_scroll ==> old(self).transcript_scroll
                <= final(self).transcript_scroll <= final(self).transcript_max_scroll
                && (final(self).follow_transcript <==> final(self).transcript_scroll == final(self).transcript_max_scroll),
            *final(self) == (OperitTui { transcript_scroll: final(self).transcript_scroll, follow_transcript: final(self).follow_transcript, ..*old(self) }),
            *final(self) == scrolled_down(*old(self), amount),
    {
        let added = self.transcript_scroll.saturating_add(amount);
        let next = if added < self.transcript_max_scroll {
            added
        } else {
            self.transcript_max_scroll
        };
        self.transcript_scroll = next;
        self.follow_transcript = next >= self.transcript_max_scroll;
    }

    /// Up a page.
    pub fn scroll_transcript_page_up(&mut self)
        ensures
            final(self).ctrl_c_pending == old(self).ctrl_c_pending,
            final(self).transcript_scroll as int == if old(self).transcript_viewport_height < 1 {
                if old(self).transcript_scroll < 1 { 0 } else { old(self).transcript_scroll - 1 }
            } else if old(self).transcript_scroll < old(self).transcript_viewport_height {
                0
            } else {
                old(self).transcript_scroll - old(self).transcript_viewport_height
            },
            !final(self).follow_transcript,
            *final(self) == (OperitTui { transcript_scroll: final(self).transcript_scroll, follow_transcript: final(self).follow_transcript, ..*old(self) }),
            *final(self) == scrolled_up(*old(self), page_step(*old(self))),
    {
        let step = self.transcript_page_step();
        self.scroll_transcript_up(step);
    }

    /// Down a page.
    pub fn scroll_transcript_page_down(&mut self)
        ensures
            final(self).ctrl_c_pending == old(self).ctrl_c_pending,
            final(self).transcript_scroll <= old(self).transcript_max_scroll || final(self).transcript_scroll == old(self).transcript_scroll,
            final(self).follow_transcript == (final(self).transcript_scroll >= old(self).transcript_max_scroll),
            final(self).transcript_scroll as int == ({
                let step: int = if old(self).transcript_viewport_height < 1 { 1 } else { old(self).transcript_viewport_height as int };
                let added: int = if old(self).transcript_scroll + step > 0xffff { 0xffff } else { old(self).transcript_scroll + step };
                if added < old(self).transcript_max_scroll { added } else { old(self).transcript_max_scroll as int }
            }),
            *final(self) == (OperitTui { transcript_scroll: final(self).transcript_scroll, follow_transcript: final(self).follow_transcript, ..*old(self) }),
            *final(self) == scrolled_down(*old(self), page_step(*old(self))),
    {
        let step = self.transcript_page_step();
        self.scroll_transcript_down(step);
    }

    /// Up half a page.
    pub fn scroll_transcript_half_page_up(&mut self)
        ensures
            final(self).ctrl_c_pending == old(self).ctrl_c_pending,
            final(self).transcript_scroll as int == ({
                let step: int = if old(self).transcript_viewport_height / 2 < 1 { 1 } else { old(self).transcript_viewport_height as int / 2 };
                if old(self).transcript_scroll < step { 0 } else { old(self).transcript_scroll - step }
            }),
            !final(self).follow_transcript,
            *final(self) == (OperitTui { transcript_scroll: final(self).transcript_scroll, follow_transcript: final(self).follow_transcript, ..*old(self) }),
            *final(self) == scrolled_up(*old(self), half_page_step(*old(self))),
    {
        let step = self.transcript_half_page_step();
        self.scroll_transcript_up(step);
    }

    /// Down half a page.
    pub fn scroll_transcript_half_page_down(&mut self)
        ensures
            final(self).ctrl_c_pending == old(self).ctrl_c_pending,
            final(self).follow_transcript == (final(self).transcript_scroll >= old(self).transcript_max_scroll),
            final(self).transcript_scroll as int == ({
                let step: int = if old(self).transcript_viewport_height / 2 < 1 { 1 } else { old(self).transcript_viewport_height as int / 2 };
                let added: int = if old(self).transcript_scroll + step > 0xffff { 0xffff } else { old(self).transcript_scroll + step };
                if added < old(self).transcript_max_scroll { added } else { old(self).transcript_max_scroll as int }
            }),
            *final(self) == (OperitTui { transcript_scroll: final(self).transcript_scroll, follow_transcript: final(self).follow_transcript, ..*old(self) }),
            *final(self) == scrolled_down(*old(self), half_page_step(*old(self))),
    {
        let step = self.transcript_half_page_step();
        self.scroll_transcript_down(step);
    }

    /// To the first line; stops following the reply.
    pub fn scroll_transcript_to_top(&mut self)
        ensures
            final(self).ctrl_c_pending == old(self).ctrl_c_pending,
            final(self).transcript_scroll == 0,
            !final(self).follow_transcript,
            final(self).transcript_max_scroll == old(self).transcript_max_scroll,
            *final(self) == (OperitTui { transcript_scroll: final(self).transcript_scroll, follow_transcript: final(self).follow_transcript, ..*old(self) }),
    {
        self.follow_transcript = false;
        self.transcript_scroll = 0;
    }

    /// To the last page; follows the reply.
    pub fn scroll_transcript_to_bottom(&mut self)
        ensures
            final(self).ctrl_c_pending == old(self).ctrl_c_pending,
            final(self).transcript_scroll == old(self).transcript_max_scroll,
            final(self).follow_transcript,
            final(self).transcript_max_scroll == old(self).transcript_max_scroll,
            *final(self) == (OperitTui { transcript_scroll: final(self).transcript_scroll, follow_transcript: final(self).follow_transcript, ..*old(self) }),
    {
        self.follow_transcript = true;
        self.transcript_scroll = self.transcript_max_scroll;
    }
}

impl OperitTui {
    /// Shows or hides the chat list; the list takes the keys while shown.
    pub fn toggle_chat_list(&mut self)
        ensures
            final(self).input == old(self).input,
            final(self).input_cursor == old(self).input_cursor,
            final(self).follow_transcript == old(self).follow_transcript,
            final(self).ctrl_c_pending == old(self).ctrl_c_pending,
            final(self).show_chat_list == !old(self).show_chat_list,
            final(self).show_chat_list ==> final(self).focus == FocusArea::Chats
                && final(self).status_message@ == "chat list shown | Up/Down select | Enter switch | Esc close"@,
            !final(self).show_chat_list ==> final(self).focus == FocusArea::Input
                && final(self).status_message@ == "chat list hidden"@,
            final(self).chats@ == old(self).chats@,
            final(self).selected_chat_index == old(self).selected_chat_index,
            *final(self) == (OperitTui { show_chat_list: final(self).show_chat_list, focus: final(self).focus, status_message: final(self).status_message, ..*old(self) }),
            toggled_chat_list(*old(self), *final(self)),
    {
        self.show_chat_list = !self.show_chat_list;
        if self.show_chat_list {
            self.focus = FocusArea::Chats;
            self.status_message = String::from_str("chat list shown | Up/Down select | Enter switch | Esc close");
        } else {
            self.focus = FocusArea::Input;
            self.status_message = String::from_str("chat list hidden");
        }
    }

    /// Selects the first chat with the id, if it is listed.
    pub fn select_chat_by_id(&mut self, chat_id: &str)
        ensures
            final(self).follow_transcript == old(self).follow_transcript,
            final(self).last_current_chat_loading == old(self).last_current_chat_loading,
            final(self).chats@ == old(self).chats@,
            (exists|k: int| chat_position(old(self).chats@, chat_id@, k) && final(self).selected_chat_index == k)
                || ((forall|j: int| 0 <= j < old(self).chats@.len() ==> (#[trigger] old(self).chats@[j]).id@ != chat_id@)
                    && final(self).selected_chat_index == old(self).selected_chat_index),
            final(self).status_message == old(self).status_message,
            final(self).focus == old(self).focus,
            *final(self) == (OperitTui { selected_chat_index: final(self).selected_chat_index, ..*old(self) }),
    {
        match find_chat(&self.chats, chat_id) {
            Some(k) => {
                self.selected_chat_index = k;
            },
            None => {},
        }
    }

    /// A key in the chat list: up and down move the selection; enter asks to
    /// switch to the selected chat.
    pub fn handle_chat_list_key(&mut self, key: KeyInput) -> (r: TuiKeyAction)
        ensures
            final(self).ctrl_c_pending == old(self).ctrl_c_pending,
            final(self).chats@ == old(self).chats@,
            key.code == KeyCodeIn::Up ==> final(self).selected_chat_index == if old(self).selected_chat_index > 0 {
                (old(self).selected_chat_index - 1) as usize
            } else {
                old(self).selected_chat_index
            },
            key.code == KeyCodeIn::Down ==> final(self).selected_chat_index == if old(self).selected_chat_index + 1 < old(self).chats@.len() {
                (old(self).selected_chat_index + 1) as usize
            } else {
                old(self).selected_chat_index
            },
            key.code != KeyCodeIn::Up && key.code != KeyCodeIn::Down ==> final(self).selected_chat_index == old(self).selected_chat_index,
            match r {
                TuiKeyAction::SwitchChat(id) => key.code == KeyCodeIn::Enter && old(self).selected_chat_index < old(self).chats@.len()
                    && id@ == old(self).chats@[old(self).selected_chat_index as int].id@,
                TuiKeyAction::Nothing => !(key.code == KeyCodeIn::Enter && old(self).selected_chat_index < old(self).chats@.len()),
                _ => false,
            },
            *final(self) == (OperitTui { selected_chat_index: final(self).selected_chat_index, ..*old(self) }),
            chat_list_key_spec(*old(self), *final(self), key, r),
    {
        match key.code {
            KeyCodeIn::Up => {
                if self.selected_chat_index > 0 {
                    self.selected_chat_index = self.selected_chat_index - 1;
                }
                TuiKeyAction::Nothing
            },
            KeyCodeIn::Down => {
                if self.selected_chat_index < self.chats.len() && self.selected_chat_index + 1 < self.chats.len() {
                    self.selected_chat_index = self.selected_chat_index + 1;
                }
                TuiKeyAction::Nothing
            },
            KeyCodeIn::Enter => {
                if self.selected_chat_index < self.chats.len() {
                    TuiKeyAction::SwitchChat(self.chats[self.selected_chat_index].id.clone())
                } else {
                    TuiKeyAction::Nothing
                }
            },
            _ => TuiKeyAction::Nothing,
        }
    }

    /// Whether the input would be completed to a command.
    pub fn has_command_suggestions(&self) -> (r: bool)
        ensures
            r == match active_prefix(self.input@) {
                Some(p) => with_prefix(command_table(), p).len() > 0,
                None => false,
            },
            r == has_suggestions(*self),
    {
        let m = matching_command_specs(self.input.as_str());
        proof {
            assert(crate::commands::spec_views(m@).len() == m@.len());
        }
        m.len() > 0
    }

    /// What a key does. Keys that come up are ignored; Ctrl+C twice quits; the
    /// help screen takes Esc, `?` and F1; then the global keys; then the pane
    /// with the focus.
    pub fn handle_key_event(&mut self, key: KeyInput) -> (r: TuiKeyAction)
        ensures
            key_event_spec(*old(self), *final(self), key, r),
    {
        if key.kind == KeyKindIn::Release {
            return TuiKeyAction::Nothing;
        }
        if key.code == KeyCodeIn::Char('c') && key.modifiers == MOD_CONTROL {
            if self.ctrl_c_pending {
                self.should_quit = true;
            } else {
                self.ctrl_c_pending = true;
                self.status_message = String::from_str("press Ctrl+C again to quit");
            }
            return TuiKeyAction::Nothing;
        }
        self.ctrl_c_pending = false;
        if self.show_help {
            if key.code == KeyCodeIn::Esc || key.code == KeyCodeIn::Char('?') || key.code == KeyCodeIn::F(1) {
                self.show_help = false;
            }
            return TuiKeyAction::Nothing;
        }
        let control = key.modifiers == MOD_CONTROL;
        if key.code == KeyCodeIn::Char('q') && control {
            self.should_quit = true;
            return TuiKeyAction::Nothing;
        }
        if key.code == KeyCodeIn::Char('n') && control {
            return TuiKeyAction::CreateNewChat;
        }
        if key.code == KeyCodeIn::Char('r') && control {
            self.status_message = String::from_str("chat list refreshed");
            return TuiKeyAction::RefreshChats;
        }
        if key.code == KeyCodeIn::F(3) {
            self.toggle_chat_list();
            return TuiKeyAction::Nothing;
        }
        if key.code == KeyCodeIn::PageUp {
            self.scroll_transcript_page_up();
            return TuiKeyAction::Nothing;
        }
        if key.code == KeyCodeIn::PageDown {
            self.scroll_transcript_page_down();
            return TuiKeyAction::Nothing;
        }
        if key.code == KeyCodeIn::Char('u') && control {
            self.scroll_transcript_half_page_up();
            return TuiKeyAction::Nothing;
        }
        if key.code == KeyCodeIn::Char('d') && control {
            self.scroll_transcript_half_page_down();
            return TuiKeyAction::Nothing;
        }
        if key.code == KeyCodeIn::Home && control {
            self.scroll_transcript_to_top();
            return TuiKeyAction::Nothing;
        }
        if key.code == KeyCodeIn::End && control {
            self.scroll_transcript_to_bottom();
            return TuiKeyAction::Nothing;
        }
        if key.code == KeyCodeIn::Esc {
            if self.show_chat_list && self.focus == FocusArea::Chats {
                self.show_chat_list = false;
                self.focus = FocusArea::Input;
                self.status_message = String::from_str("chat list hidden");
                return TuiKeyAction::Nothing;
            }
            self.status_message = String::new();
            self.focus = FocusArea::Input;
            return TuiKeyAction::Nothing;
        }
        if key.code == KeyCodeIn::Char('?') || key.code == KeyCodeIn::F(1) {
            self.show_help = true;
            return TuiKeyAction::Nothing;
        }
        if key.code == KeyCodeIn::Tab && !(self.focus == FocusArea::Input && self.has_command_suggestions()) {
            if !self.show_chat_list {
                self.focus = FocusArea::Input;
                return TuiKeyAction::Nothing;
            }
            self.focus = match self.focus {
                FocusArea::Chats => FocusArea::Input,
                FocusArea::Input => FocusArea::Chats,
            };
            return TuiKeyAction::Nothing;
        }
        match self.focus {
            FocusArea::Chats => self.handle_chat_list_key(key),
            FocusArea::Input => TuiKeyAction::InputKey(key),
        }
    }
}

/// The command the input would be completed to: the first one offered.
pub open spec fn completion_name(t: OperitTui) -> Seq<char> {
    with_prefix(command_table(), active_prefix(t.input@).unwrap())[0].0
}

/// What a key does in the input box of the screen `b`, leaving `a`; `r` says
/// whether the input is to be submitted. Enter submits; Tab completes the
/// command being typed to the first one offered, the cursor after it; a
/// character is put in at the cursor (at the end when the cursor is past
/// it), and the cursor moves on; other keys do nothing.
pub open spec fn input_key_spec(b: OperitTui, a: OperitTui, key: KeyInput, r: bool) -> bool {
    match key.code {
        KeyCodeIn::Enter => r && a == b,
        KeyCodeIn::Tab => !r && if has_suggestions(b) {
            let name = completion_name(b);
            &&& a == (OperitTui { input: a.input, input_cursor: (name.len() + 2) as usize, ..b })
            &&& exists|k: int| first_word_end(b.input@, k)
                && a.input@ == seq!['/'] + name + seq![' '] + trim_start(b.input@.skip(k))
        } else {
            a == b
        },
        KeyCodeIn::Char(c) => {
            let k: int = if b.input_cursor < b.input@.len() { b.input_cursor as int } else { b.input@.len() as int };
            &&& !r
            &&& a == (OperitTui { input: a.input, input_cursor: (b.input_cursor + 1) as usize, ..b })
            &&& a.input@ == b.input@.take(k) + seq![c] + b.input@.skip(k)
        },
        _ => !r && a == b,
    }
}

impl OperitTui {
    /// Applies a key to the input box (see `input_key_spec`); returns whether
    /// the input is to be submitted.
    pub fn apply_input_key(&mut self, key: KeyInput) -> (r: bool)
        requires
            old(self).input_cursor < usize::MAX,
        ensures
            input_key_spec(*old(self), *final(self), key, r),
    {
        match key.code {
            KeyCodeIn::Enter => true,
            KeyCodeIn::Tab => {
                let suggestions = matching_command_specs(self.input.as_str());
                if suggestions.len() > 0 {
                    let name = suggestions[0].name;
                    proof {
                        assert(spec_views(suggestions@).len() > 0);
                        assert(active_prefix(self.input@) is Some);
                        let p = active_prefix(self.input@).unwrap();
                        assert(spec_views(suggestions@) == with_prefix(command_table(), p));
                        lemma_command_names_short();
                        lemma_with_prefix_names_bounded(command_table(), p, 17);
                        assert(spec_views(suggestions@)[0] == suggestions@[0]@);
                        assert(suggestions@[0]@.0 == name@);
                        assert(name@ == completion_name(*self));
                        assert(with_prefix(command_table(), p)[0].0.len() <= 17);
                    }
                    let (completed, cursor) = complete_command_input(self.input.as_str(), name);
                    let ghost before = *self;
                    self.input = completed;
                    self.input_cursor = cursor;
                    assert(has_suggestions(before));
                    assert(*self == (OperitTui { input: self.input, input_cursor: (completion_name(before).len() + 2) as usize, ..before }));
                } else {
                    assert(spec_views(suggestions@).len() == 0);
                }
                false
            },
            KeyCodeIn::Char(c) => {
                let v = chars_of(self.input.as_str());
                let k = if self.input_cursor < v.len() { self.input_cursor } else { v.len() };
                let mut out = string_from_range(v.as_slice(), 0, k);
                push_char(&mut out, c);
                out.append(string_from_range(v.as_slice(), k, v.len()).as_str());
                assert(v@.subrange(0, k as int) == v@.take(k as int));
                assert(v@.subrange(k as int, v.len() as int) == v@.skip(k as int));
                assert(out@ == self.input@.take(k as int) + seq![c] + self.input@.skip(k as int));
                self.input = out;
                self.input_cursor = self.input_cursor + 1;
                false
            },
            _ => false,
        }
    }
}

/// The status line while a reply is being made.
pub open spec fn loading_status(state: InputProcessingState, chat: Seq<char>) -> Seq<char> {
    let l = label(chat);
    match state {
        InputProcessingState::Processing { message } => "processing | chat="@ + l + " | "@ + message@,
        InputProcessingState::Connecting { message } => "connecting | chat="@ + l + " | "@ + message@,
        InputProcessingState::Receiving { message } => "receiving | chat="@ + l + " | "@ + message@,
        InputProcessingState::ExecutingTool { toolName } => "tool | chat="@ + l + " | "@ + toolName@,
        InputProcessingState::ToolProgress { toolName, message } => "tool | chat="@ + l + " | "@ + toolName@ + seq![' '] + message@,
        InputProcessingState::ProcessingToolResult { toolName } => "tool result | chat="@ + l + " | "@ + toolName@,
        InputProcessingState::Summarizing { message } => "summarizing | chat="@ + l + " | "@ + message@,
        InputProcessingState::ExecutingPlan { message } => "plan | chat="@ + l + " | "@ + message@,
        InputProcessingState::Error { message } => message@,
        _ => "streaming | chat="@ + l,
    }
}

fn status_with(head: &str, chat: &str, tail: Option<&str>, tail2: Option<&str>) -> (r: String)
    ensures
        r@ == head@ + label(chat@) + match tail {
            Some(t) => " | "@ + t@ + match tail2 { Some(u) => seq![' '] + u@, None => Seq::<char>::empty() },
            None => Seq::<char>::empty(),
        },
{
    let mut out = String::from_str(head);
    out.append(short_chat_label(chat).as_str());
    match tail {
        Some(t) => {
            out.append(" | ");
            out.append(t);
            match tail2 {
                Some(u) => {
                    push_char(&mut out, ' ');
                    out.append(u);
                },
                None => {},
            }
        },
        None => {},
    }
    out
}

/// The status line while a reply is being made.
pub fn loading_status_message(state: InputProcessingState, chat_id: &str) -> (r: String)
    ensures
        r@ == loading_status(state, chat_id@),
{
    match state {
        InputProcessingState::Processing { message } => status_with("processing | chat=", chat_id, Some(message.as_str()), None),
        InputProcessingState::Connecting { message } => status_with("connecting | chat=", chat_id, Some(message.as_str()), None),
        InputProcessingState::Receiving { message } => status_with("receiving | chat=", chat_id, Some(message.as_str()), None),
        InputProcessingState::ExecutingTool { toolName } => status_with("tool | chat=", chat_id, Some(toolName.as_str()), None),
        InputProcessingState::ToolProgress { toolName, message } => status_with("tool | chat=", chat_id, Some(toolName.as_str()), Some(message.as_str())),
        InputProcessingState::ProcessingToolResult { toolName } => status_with("tool result | chat=", chat_id, Some(toolName.as_str()), None),
        InputProcessingState::Summarizing { message } => status_with("summarizing | chat=", chat_id, Some(message.as_str()), None),
        InputProcessingState::ExecutingPlan { message } => status_with("plan | chat=", chat_id, Some(message.as_str()), None),
        InputProcessingState::Error { message } => message,
        _ => status_with("streaming | chat=", chat_id, None, None),
    }
}

impl OperitTui {
    /// Brings the status line up to date with the runtime; returns whether the
    /// chat list must be reloaded (a reply has just finished).
    pub fn refresh_runtime_status(&mut self, chat_id: &str, is_loading: bool, state: InputProcessingState) -> (refresh: bool)
        ensures
            old(self).awaiting_runtime_loading && !is_loading ==> !refresh && (match state {
                InputProcessingState::Error { message } => !final(self).awaiting_runtime_loading && !final(self).last_current_chat_loading
                    && final(self).status_message@ == message@,
                _ => final(self).follow_transcript && final(self).status_message@ == "connecting | chat="@ + label(chat_id@)
                    && final(self).awaiting_runtime_loading && final(self).last_current_chat_loading == old(self).last_current_chat_loading,
            }),
            !(old(self).awaiting_runtime_loading && !is_loading) && is_loading ==> !refresh && !final(self).awaiting_runtime_loading
                && final(self).follow_transcript && final(self).status_message@ == loading_status(state, chat_id@)
                && final(self).last_current_chat_loading,
            !(old(self).awaiting_runtime_loading && !is_loading) && !is_loading && old(self).last_current_chat_loading ==> refresh
                && !final(self).awaiting_runtime_loading && final(self).follow_transcript
                && final(self).status_message@ == "reply ready | chat="@ + label(chat_id@) && !final(self).last_current_chat_loading,
            !(old(self).awaiting_runtime_loading && !is_loading) && !is_loading && !old(self).last_current_chat_loading ==> !refresh
                && final(self).status_message == old(self).status_message && !final(self).last_current_chat_loading,
            *final(self) == (OperitTui { awaiting_runtime_loading: final(self).awaiting_runtime_loading, last_current_chat_loading: final(self).last_current_chat_loading, status_message: final(self).status_message, follow_transcript: final(self).follow_transcript, ..*old(self) }),
    {
        if self.awaiting_runtime_loading && !is_loading {
            match state {
                InputProcessingState::Error { message } => {
                    self.awaiting_runtime_loading = false;
                    self.last_current_chat_loading = false;
                    self.status_message = message;
                },
                _ => {
                    self.follow_transcript = true;
                    self.status_message = status_with("connecting | chat=", chat_id, None, None);
                },
            }
            return false;
        }
        let mut refresh = false;
        if is_loading {
            self.awaiting_runtime_loading = false;
            self.follow_transcript = true;
            self.status_message = loading_status_message(state, chat_id);
        } else if self.last_current_chat_loading {
            self.awaiting_runtime_loading = false;
            self.follow_transcript = true;
            refresh = true;
            self.status_message = status_with("reply ready | chat=", chat_id, None, None);
        }
        self.last_current_chat_loading = is_loading;
        refresh
    }

    /// Whether a request is running for the current chat.
    pub fn current_chat_is_loading(&self, raw_loading: bool) -> (r: bool)
        ensures
            r == (self.last_current_chat_loading || raw_loading),
    {
        self.last_current_chat_loading || raw_loading
    }
}

/// What a typed command asks for beyond the screen's own state.
pub enum LocalCommandAction {
    Nothing,
    CreateNewChat(Vec<String>),
    ToggledChatList,
}

/// What submitting the input asks for.
pub enum SubmitAction {
    Nothing,
    Command(LocalCommandAction),
    Send { chat_id: String, message: String, attachment_paths: Vec<String> },
}

/// The command word of a command line: its first word without leading slashes.
pub open spec fn command_word(first: Seq<char>) -> Seq<char> {
    strip_lead(first, '/')
}

fn strip_slashes(v: &str) -> (r: String)
    ensures
        r@ == strip_lead(v@, '/'),
{
    let c = chars_of(v);
    let mut a: usize = 0;
    assert(c@.subrange(0, c.len() as int) == c@);
    while a < c.len() && c[a] == '/'
        invariant
            a <= c.len(),
            strip_lead(c@, '/') == strip_lead(c@.subrange(a as int, c.len() as int), '/'),
        decreases c.len() - a,
    {
        assert(c@.subrange(a as int, c.len() as int).drop_first() == c@.subrange(a + 1, c.len() as int));
        a = a + 1;
    }
    proof {
        let t = c@.subrange(a as int, c.len() as int);
        if t.len() > 0 {
            assert(t[0] == c@[a as int]);
        }
    }
    crate::text::string_from_range(c.as_slice(), a, c.len())
}

/// What a typed `/command` does to the screen `b`, leaving `a` and giving
/// `r`: input that cannot be split into words is refused; no words do
/// nothing; `help` shows help; `quit` and `exit` quit; `new` asks for a chat
/// made with the other words; `switch` shows or hides the chat list; `attach`
/// queues a path (or says how to use it); `attachments` lists the queue;
/// `clear-attachments` empties it; anything else is reported as unknown.
pub open spec fn local_command_spec(b: OperitTui, a: OperitTui, input: Seq<char>, r: Result<LocalCommandAction, String>) -> bool {
    match split_words(input) {
        None => a == b && (r matches Err(m) && m@ == "unterminated quote"@),
        Some(parts) => if parts.len() == 0 {
            a == b && (r matches Ok(LocalCommandAction::Nothing))
        } else {
            let cmd = command_word(parts[0]);
            if cmd == "help"@ {
                a == (OperitTui { show_help: true, ..b }) && (r matches Ok(LocalCommandAction::Nothing))
            } else if cmd == "quit"@ || cmd == "exit"@ {
                a == (OperitTui { should_quit: true, ..b }) && (r matches Ok(LocalCommandAction::Nothing))
            } else if cmd == "new"@ {
                a == b && (r matches Ok(LocalCommandAction::CreateNewChat(args)) && str_views(args@) == parts.skip(1))
            } else if cmd == "switch"@ {
                toggled_chat_list(b, a) && (r matches Ok(LocalCommandAction::ToggledChatList))
            } else if cmd == "attach"@ {
                if parts.len() < 2 {
                    a == b && (r matches Err(m) && m@ == "usage: /attach <path>"@)
                } else {
                    &&& a == (OperitTui { queued_attachment_paths: a.queued_attachment_paths, status_message: a.status_message, ..b })
                    &&& str_views(a.queued_attachment_paths@) == str_views(b.queued_attachment_paths@).push(parts[1])
                    &&& a.status_message@ == "queued attachment: "@ + parts[1] + " ("@
                        + decimal_padded((b.queued_attachment_paths@.len() + 1) as nat, 1) + " total)"@
                    &&& r matches Ok(LocalCommandAction::Nothing)
                }
            } else if cmd == "attachments"@ {
                &&& a == (OperitTui { status_message: a.status_message, ..b })
                &&& a.status_message@ == if b.queued_attachment_paths@.len() == 0 {
                    "attachments=none"@
                } else {
                    "attachments="@ + join_spec(str_views(b.queued_attachment_paths@), ", "@)
                }
                &&& r matches Ok(LocalCommandAction::Nothing)
            } else if cmd == "clear-attachments"@ {
                &&& a == (OperitTui { queued_attachment_paths: a.queued_attachment_paths, status_message: a.status_message, ..b })
                &&& a.queued_attachment_paths@.len() == 0
                &&& a.status_message@ == "attachments cleared"@
                &&& r matches Ok(LocalCommandAction::Nothing)
            } else {
                &&& a == (OperitTui { status_message: a.status_message, ..b })
                &&& a.status_message@ == "unknown command: /"@ + cmd
                &&& r matches Ok(LocalCommandAction::Nothing)
            }
        },
    }
}

impl OperitTui {
    /// Runs a typed `/command`: help, quit or exit, new, switch, attach,
    /// attachments, clear-attachments; anything else is reported as unknown.
    pub fn handle_local_command(&mut self, input: &str) -> (r: Result<LocalCommandAction, String>)
        ensures
            local_command_spec(*old(self), *final(self), input@, r),
    {
        proof {
            reveal_strlit("help");
            reveal_strlit("quit");
            reveal_strlit("exit");
            reveal_strlit("new");
            reveal_strlit("switch");
            reveal_strlit("attach");
            reveal_strlit("attachments");
            reveal_strlit("clear-attachments");
            assert("help"@.len() == 4 && "help"@[0] == 'h');
            assert("quit"@.len() == 4 && "quit"@[0] == 'q');
            assert("exit"@.len() == 4 && "exit"@[0] == 'e');
            assert("new"@.len() == 3);
            assert("switch"@.len() == 6 && "switch"@[0] == 's');
            assert("attach"@.len() == 6 && "attach"@[0] == 'a');
            assert("attachments"@.len() == 11);
            assert("clear-attachments"@.len() == 17);
        }
        let parts = split_command_line(input)?;
        if parts.len() == 0 {
            return Ok(LocalCommandAction::Nothing);
        }
        let ghost pv = str_views(parts@);
        assert(pv[0] == parts@[0]@);
        let command = strip_slashes(parts[0].as_str());
        let cmd = command.as_str();
        if crate::text::str_eq(cmd, "help") {
            self.show_help = true;
            Ok(LocalCommandAction::Nothing)
        } else if crate::text::str_eq(cmd, "quit") || crate::text::str_eq(cmd, "exit") {
            self.should_quit = true;
            Ok(LocalCommandAction::Nothing)
        } else if crate::text::str_eq(cmd, "new") {
            let mut rest: Vec<String> = Vec::new();
            let mut i: usize = 1;
            while i < parts.len()
                invariant
                    1 <= i <= parts.len(),
                    pv == str_views(parts@),
                    str_views(rest@) == pv.subrange(1, i as int),
                decreases parts.len() - i,
            {
                let ghost before = str_views(rest@);
                rest.push(parts[i].clone());
                assert(str_views(rest@) == before.push(parts@[i as int]@));
                assert(pv.subrange(1, i + 1) == pv.subrange(1, i as int).push(pv[i as int]));
                i = i + 1;
            }
            assert(pv.subrange(1, parts.len() as int) == pv.skip(1));
            Ok(LocalCommandAction::CreateNewChat(rest))
        } else if crate::text::str_eq(cmd, "switch") {
            self.toggle_chat_list();
            Ok(LocalCommandAction::ToggledChatList)
        } else if crate::text::str_eq(cmd, "attach") {
            if parts.len() < 2 {
                return Err(String::from_str("usage: /attach <path>"));
            }
            let path = parts[1].clone();
            assert(pv[1] == parts@[1]@);
            let ghost before = str_views(self.queued_attachment_paths@);
            self.queued_attachment_paths.push(path.clone());
            assert(str_views(self.queued_attachment_paths@) == before.push(path@));
            let mut status = String::from_str("queued attachment: ");
            status.append(path.as_str());
            status.append(" (");
            status.append(crate::mdns::decimal_text(self.queued_attachment_paths.len() as u64).as_str());
            status.append(" total)");
            self.status_message = status;
            Ok(LocalCommandAction::Nothing)
        } else if crate::text::str_eq(cmd, "attachments") {
            if self.queued_attachment_paths.len() == 0 {
                self.status_message = String::from_str("attachments=none");
            } else {
                let mut status = String::from_str("attachments=");
                status.append(join_strings(&self.queued_attachment_paths, ", ").as_str());
                self.status_message = status;
            }
            Ok(LocalCommandAction::Nothing)
        } else if crate::text::str_eq(cmd, "clear-attachments") {
            self.queued_attachment_paths = Vec::new();
            self.status_message = String::from_str("attachments cleared");
            Ok(LocalCommandAction::Nothing)
        } else {
            let mut status = String::from_str("unknown command: /");
            status.append(cmd);
            self.status_message = status;
            Ok(LocalCommandAction::Nothing)
        }
    }
}

impl OperitTui {
    /// Submits the input: nothing while a request runs (the status says so) or
    /// for blank input; a `/command` is run; other text is sent to the current
    /// chat with the queued attachments, which the input and the queue give up.
    pub fn submit_input(&mut self, raw_loading: bool, current_chat: Option<String>) -> (r: Result<SubmitAction, String>)
        ensures
            (old(self).last_current_chat_loading || raw_loading) ==> (r matches Ok(SubmitAction::Nothing))
                && *final(self) == (OperitTui { status_message: final(self).status_message, ..*old(self) })
                && final(self).status_message@ == "request already running"@,
            !(old(self).last_current_chat_loading || raw_loading) && is_blank(trim_end(old(self).input@)) ==> (r matches Ok(SubmitAction::Nothing))
                && *final(self) == *old(self),
            !(old(self).last_current_chat_loading || raw_loading) && !is_blank(trim_end(old(self).input@))
                && trim_end(old(self).input@)[0] == '/' ==> final(self).input@.len() == 0 && match r {
                    Ok(SubmitAction::Command(a)) => local_command_spec(
                        OperitTui { input: final(self).input, input_cursor: 0, ..*old(self) },
                        *final(self),
                        trim_end(old(self).input@),
                        Ok(a),
                    ),
                    Err(e) => local_command_spec(
                        OperitTui { input: final(self).input, input_cursor: 0, ..*old(self) },
                        *final(self),
                        trim_end(old(self).input@),
                        Err(e),
                    ),
                    _ => false,
                },
            !(old(self).last_current_chat_loading || raw_loading) && !is_blank(trim_end(old(self).input@))
                && trim_end(old(self).input@)[0] != '/' ==> match current_chat {
                    None => (r matches Err(m)) && r->Err_0@ == "no active chat in tui"@ && *final(self) == *old(self),
                    Some(id) => (r matches Ok(SubmitAction::Send { chat_id, message, attachment_paths }))
                        && r->Ok_0->chat_id@ == id@ && r->Ok_0->message@ == trim_end(old(self).input@)
                        && str_views(r->Ok_0->attachment_paths@) == str_views(old(self).queued_attachment_paths@)
                        && final(self).input@.len() == 0
                        && final(self).queued_attachment_paths@.len() == 0
                        && final(self).status_message@ == "connecting..."@
                        && *final(self) == (OperitTui {
                            input: final(self).input,
                            input_cursor: 0,
                            queued_attachment_paths: final(self).queued_attachment_paths,
                            follow_transcript: true,
                            status_message: final(self).status_message,
                            ..*old(self)
                        }),
                },
    {
        if self.last_current_chat_loading || raw_loading {
            self.status_message = String::from_str("request already running");
            return Ok(SubmitAction::Nothing);
        }
        let v = chars_of(self.input.as_str());
        let (a, b) = crate::text::trim_bounds(v.as_slice());
        let end = trim_end_len(v.as_slice());
        let text = crate::text::string_from_range(v.as_slice(), 0, end);
        if chars_blank(chars_of(text.as_str()).as_slice()) {
            return Ok(SubmitAction::Nothing);
        }
        let tv = chars_of(text.as_str());
        if tv[0] == '/' {
            self.input = String::new();
            self.input_cursor = 0;
            let action = self.handle_local_command(text.as_str())?;
            return Ok(SubmitAction::Command(action));
        }
        let chat_id = match current_chat {
            Some(id) => id,
            None => {
                return Err(String::from_str("no active chat in tui"));
            },
        };
        let mut attachments: Vec<String> = Vec::new();
        std::mem::swap(&mut attachments, &mut self.queued_attachment_paths);
        self.follow_transcript = true;
        self.status_message = String::from_str("connecting...");
        self.input = String::new();
        self.input_cursor = 0;
        Ok(SubmitAction::Send { chat_id, message: text, attachment_paths: attachments })
    }

    /// Whether a new chat may be made now; while a request runs the status
    /// says to wait.
    pub fn begin_new_chat(&mut self, raw_loading: bool) -> (r: bool)
        ensures
            r == !(old(self).last_current_chat_loading || raw_loading),
            !r ==> final(self).status_message@ == "wait for current request to finish"@,
            r ==> final(self).status_message == old(self).status_message,
            *final(self) == (OperitTui { status_message: final(self).status_message, ..*old(self) }),
    {
        if self.last_current_chat_loading || raw_loading {
            self.status_message = String::from_str("wait for current request to finish");
            return false;
        }
        true
    }

    /// Whether the screen may switch chats now; while a request runs the status
    /// says to wait.
    pub fn begin_switch_chat(&mut self, raw_loading: bool) -> (r: bool)
        ensures
            r == !(old(self).last_current_chat_loading || raw_loading),
            !r ==> final(self).status_message@ == "wait for current request to finish"@,
            r ==> final(self).status_message == old(self).status_message,
            *final(self) == (OperitTui { status_message: final(self).status_message, ..*old(self) }),
    {
        self.begin_new_chat(raw_loading)
    }

    /// Replaces the chat list and keeps the current chat selected (or the
    /// selection inside the list when there is no current chat).
    pub fn refresh_chats(&mut self, current_chat: Option<String>, chats: Vec<ChatListItem>)
        ensures
            final(self).follow_transcript == old(self).follow_transcript,
            final(self).status_message == old(self).status_message,
            final(self).chats@ == chats@,
            match current_chat {
                Some(id) => (exists|k: int| chat_position(chats@, id@, k) && final(self).selected_chat_index == k)
                    || ((forall|j: int| 0 <= j < chats@.len() ==> (#[trigger] chats@[j]).id@ != id@)
                        && final(self).selected_chat_index == old(self).selected_chat_index),
                None => final(self).selected_chat_index == if old(self).selected_chat_index >= chats@.len() {
                    if chats@.len() == 0 { 0 } else { (chats@.len() - 1) as usize }
                } else {
                    old(self).selected_chat_index
                },
            },
            *final(self) == (OperitTui { chats: final(self).chats, selected_chat_index: final(self).selected_chat_index, ..*old(self) }),
    {
        self.chats = chats;
        match current_chat {
            Some(id) => self.select_chat_by_id(id.as_str()),
            None => {
                if self.selected_chat_index >= self.chats.len() {
                    self.selected_chat_index = if self.chats.len() == 0 { 0 } else { self.chats.len() - 1 };
                }
            },
        }
    }

    /// After a new chat is made: follow it, list the chats, select it.
    pub fn finish_new_chat(&mut self, chat_id: String, chats: Vec<ChatListItem>)
        ensures
            final(self).follow_transcript,
            final(self).chats@ == chats@,
            final(self).status_message@ == "new chat="@ + chat_id@,
            (exists|k: int| chat_position(chats@, chat_id@, k) && final(self).selected_chat_index == k)
                || (forall|j: int| 0 <= j < chats@.len() ==> (#[trigger] chats@[j]).id@ != chat_id@),
            *final(self) == (OperitTui { chats: final(self).chats, selected_chat_index: final(self).selected_chat_index, follow_transcript: final(self).follow_transcript, status_message: final(self).status_message, ..*old(self) }),
    {
        self.follow_transcript = true;
        self.refresh_chats(Some(chat_id.clone()), chats);
        self.select_chat_by_id(chat_id.as_str());
        let mut status = String::from_str("new chat=");
        status.append(chat_id.as_str());
        self.status_message = status;
    }

    /// After switching chats: follow the chat and select it.
    pub fn finish_switch_chat(&mut self, chat_id: &str)
        ensures
            final(self).follow_transcript,
            final(self).chats@ == old(self).chats@,
            final(self).status_message@ == "switched chat="@ + chat_id@,
            *final(self) == (OperitTui { selected_chat_index: final(self).selected_chat_index, follow_transcript: final(self).follow_transcript, status_message: final(self).status_message, ..*old(self) }),
    {
        self.follow_transcript = true;
        self.select_chat_by_id(chat_id);
        let mut status = String::from_str("switched chat=");
        status.append(chat_id);
        self.status_message = status;
    }

    /// After a message is sent: select its chat and wait for the runtime.
    pub fn finish_send(&mut self, active_chat_id: &str, current_chat: Option<String>, chats: Vec<ChatListItem>)
        ensures
            final(self).chats@ == chats@,
            final(self).last_current_chat_loading,
            final(self).awaiting_runtime_loading,
            final(self).status_message@ == "streaming | chat="@ + label(active_chat_id@),
            *final(self) == (OperitTui { chats: final(self).chats, selected_chat_index: final(self).selected_chat_index, last_current_chat_loading: final(self).last_current_chat_loading, awaiting_runtime_loading: final(self).awaiting_runtime_loading, status_message: final(self).status_message, ..*old(self) }),
    {
        self.refresh_chats(current_chat, chats);
        self.select_chat_by_id(active_chat_id);
        self.last_current_chat_loading = true;
        self.awaiting_runtime_loading = true;
        self.status_message = status_with("streaming | chat=", active_chat_id, None, None);
    }
}

fn trim_end_len(v: &[char]) -> (r: usize)
    ensures
        r <= v.len(),
        v@.subrange(0, r as int) == trim_end(v@),
{
    let mut b: usize = v.len();
    assert(v@.subrange(0, v.len() as int) == v@);
    while b > 0 && crate::text::is_whitespace(v[b - 1])
        invariant
            b <= v.len(),
            trim_end(v@) == trim_end(v@.subrange(0, b as int)),
        decreases b,
    {
        assert(v@.subrange(0, b as int).drop_last() == v@.subrange(0, b - 1));
        assert(v@.subrange(0, b as int).last() == v@[b - 1]);
        b = b - 1;
    }
    proof {
        let t = v@.subrange(0, b as int);
        if t.len() > 0 {
            assert(t.last() == v@[b - 1]);
        }
    }
    b
}

/// One entry of the chat list: the title (the id when the title is blank),
/// and the short id with the character card and the group when there are some.
pub fn chat_list_item(id: String, title: String, character_card_name: Option<String>, character_group_id: Option<String>) -> (r: ChatListItem)
    ensures
        r.id@ == id@,
        r.title@ == if is_blank(title@) { id@ } else { title@ },
        r.secondary@ == label(id@) + (match character_card_name {
            Some(c) => if c@.len() > 0 { " | "@ + c@ } else { Seq::<char>::empty() },
            None => Seq::<char>::empty(),
        }) + (match character_group_id {
            Some(g) => if !is_blank(g@) { " | group="@ + g@ } else { Seq::<char>::empty() },
            None => Seq::<char>::empty(),
        }),
{
    let shown = if chars_blank(chars_of(title.as_str()).as_slice()) {
        id.clone()
    } else {
        title
    };
    let mut secondary = short_chat_label(id.as_str());
    let ghost s0 = secondary@;
    match &character_card_name {
        Some(c) => {
            if !c.as_str().is_empty() {
                secondary.append(" | ");
                secondary.append(c.as_str());
            }
        },
        None => {},
    }
    let ghost s1 = secondary@;
    match &character_group_id {
        Some(g) => {
            if !chars_blank(chars_of(g.as_str()).as_slice()) {
                secondary.append(" | group=");
                secondary.append(g.as_str());
            }
        },
        None => {},
    }
    proof {
        assert(s1 == s0 + (match character_card_name {
            Some(c) => if c@.len() > 0 { " | "@ + c@ } else { Seq::<char>::empty() },
            None => Seq::<char>::empty(),
        }));
    }
    ChatListItem { id, title: shown, secondary }
}

/// The strings joined with a separator.
pub fn join_strings(items: &Vec<String>, sep: &str) -> (r: String)
    ensures
        r@ == join_spec(str_views(items@), sep@),
{
    let ghost ls = str_views(items@);
    let mut out = String::new();
    let mut i: usize = 0;
    assert(ls.subrange(0, 0) == Seq::<Seq<char>>::empty());
    while i < items.len()
        invariant
            ls == str_views(items@),
            i <= items.len(),
            out@ == join_spec(ls.subrange(0, i as int), sep@),
        decreases items.len() - i,
    {
        let ghost sub = ls.subrange(0, i + 1);
        assert(sub.drop_last() == ls.subrange(0, i as int));
        if i > 0 {
            out.append(sep);
        } else {
            assert(sub.len() == 1);
        }
        out.append(items[i].as_str());
        i = i + 1;
    }
    assert(ls.subrange(0, items.len() as int) == ls);
    out
}

} // verus!
