use vstd::prelude::*;
use crate::strmap::StrMap;
use crate::enhanced::MutableSharedStreamMirror;
use crate::text::{chars_blank, chars_of, is_blank, str_eq};

verus! {

/// Which chat view a chat service serves.
#[allow(non_camel_case_types)]
#[derive(Clone, Copy, Debug, PartialEq, Eq, Structural)]
pub enum ChatRuntimeSlot {
    MAIN,
    FLOATING,
}

/// Whether a chat service follows the chat chosen everywhere or keeps its own.
#[allow(non_camel_case_types)]
#[derive(Clone, Copy, Debug, PartialEq, Eq, Structural)]
pub enum ChatSelectionMode {
    FOLLOW_GLOBAL,
    LOCAL_ONLY,
}

/// What the runtime holder reads of a chat service: how it follows the
/// chosen chat, its current chat, the chats streaming a reply, and the tool
/// calls of each chat's current turn.
pub struct ChatServiceCore {
    pub selectionMode: ChatSelectionMode,
    pub currentChatId: Option<String>,
    pub activeStreamingChatIds: Vec<String>,
    pub currentTurnToolInvocationCountByChatId: StrMap<i32>,
}

impl ChatServiceCore {
    /// A service with no chat and nothing streaming.
    pub fn new(mode: ChatSelectionMode) -> (r: Self)
        ensures
            r.selectionMode == mode,
            r.currentChatId is None,
            r.activeStreamingChatIds@.len() == 0,
            r.currentTurnToolInvocationCountByChatId.wf(),
            forall|k: Seq<char>| #[trigger] r.currentTurnToolInvocationCountByChatId.get_spec(k) is None,
            fresh_core(r, mode),
    {
        ChatServiceCore {
            selectionMode: mode,
            currentChatId: None,
            activeStreamingChatIds: Vec::new(),
            currentTurnToolInvocationCountByChatId: StrMap::new(),
        }
    }

    /// Switches this service alone to a chat.
    pub fn switchChatLocal(&mut self, chatId: String)
        ensures
            final(self).currentChatId == Some(chatId),
            final(self).selectionMode == old(self).selectionMode,
            final(self).activeStreamingChatIds == old(self).activeStreamingChatIds,
            final(self).currentTurnToolInvocationCountByChatId == old(self).currentTurnToolInvocationCountByChatId,
            *final(self) == (ChatServiceCore { currentChatId: Some(chatId), ..*old(self) }),
    {
        self.currentChatId = Some(chatId);
    }
}

/// The tool calls of a turn of a chat, or 0.
pub open spec fn tool_count_of(core: &ChatServiceCore, id: Seq<char>) -> i32 {
    match core.currentTurnToolInvocationCountByChatId.get_spec(id) {
        Some(n) => n,
        None => 0,
    }
}

/// The tool calls of the streaming chats of a service, summed with 32-bit
/// wrapping.
pub open spec fn streaming_tool_calls(core: &ChatServiceCore, ids: Seq<String>) -> i32
    decreases ids.len(),
{
    if ids.len() == 0 {
        0
    } else {
        streaming_tool_calls(core, ids.drop_last()).wrapping_add(tool_count_of(core, ids.last()@))
    }
}

/// The chat services of the main and the floating view, and how many chats
/// stream and how many tool calls their turns made.
pub struct ChatRuntimeHolder {
    pub mainCore: Option<ChatServiceCore>,
    pub floatingCore: Option<ChatServiceCore>,
    pub activeConversationCount: i32,
    pub currentSessionToolCount: i32,
}

/// The service of a slot, if made.
pub open spec fn core_of(h: &ChatRuntimeHolder, slot: ChatRuntimeSlot) -> Option<ChatServiceCore> {
    match slot {
        ChatRuntimeSlot::MAIN => h.mainCore,
        ChatRuntimeSlot::FLOATING => h.floatingCore,
    }
}

/// The holder with the service of a slot set to `c`.
pub open spec fn with_core(h: ChatRuntimeHolder, slot: ChatRuntimeSlot, c: ChatServiceCore) -> ChatRuntimeHolder {
    match slot {
        ChatRuntimeSlot::MAIN => ChatRuntimeHolder { mainCore: Some(c), ..h },
        ChatRuntimeSlot::FLOATING => ChatRuntimeHolder { floatingCore: Some(c), ..h },
    }
}

/// The streaming chats of a service, cut to 32 bits.
pub open spec fn active_of(c: Option<ChatServiceCore>) -> i32 {
    match c {
        Some(core) => core.activeStreamingChatIds@.len() as i32,
        None => 0,
    }
}

/// The tool calls of the streaming chats of a service.
pub open spec fn tools_of(c: Option<ChatServiceCore>) -> i32 {
    match c {
        Some(core) => streaming_tool_calls(&core, core.activeStreamingChatIds@),
        None => 0,
    }
}

/// The mode a slot's service follows.
pub open spec fn slot_mode(slot: ChatRuntimeSlot) -> ChatSelectionMode {
    match slot {
        ChatRuntimeSlot::MAIN => ChatSelectionMode::FOLLOW_GLOBAL,
        ChatRuntimeSlot::FLOATING => ChatSelectionMode::LOCAL_ONLY,
    }
}

/// The tool calls of the streaming chats of a service.
fn count_streaming_tools(core: &ChatServiceCore) -> (r: i32)
    requires
        core.currentTurnToolInvocationCountByChatId.wf(),
    ensures
        r == streaming_tool_calls(core, core.activeStreamingChatIds@),
{
    let mut sum: i32 = 0;
    let mut i: usize = 0;
    while i < core.activeStreamingChatIds.len()
        invariant
            i <= core.activeStreamingChatIds.len(),
            core.currentTurnToolInvocationCountByChatId.wf(),
            sum == streaming_tool_calls(core, core.activeStreamingChatIds@.take(i as int)),
        decreases core.activeStreamingChatIds.len() - i,
    {
        let n: i32 = match core.currentTurnToolInvocationCountByChatId.get(core.activeStreamingChatIds[i].as_str()) {
            Some(n) => *n,
            None => 0,
        };
        proof {
            let ids = core.activeStreamingChatIds@;
            assert(ids.take(i + 1).drop_last() =~= ids.take(i as int));
            assert(ids.take(i + 1).last() == ids[i as int]);
        }
        sum = sum.wrapping_add(n);
        i = i + 1;
    }
    assert(core.activeStreamingChatIds@.take(core.activeStreamingChatIds.len() as int) =~= core.activeStreamingChatIds@);
    sum
}

/// Whether a service is new: following `mode`, with no chat, nothing
/// streaming and no tool calls counted.
pub open spec fn fresh_core(c: ChatServiceCore, mode: ChatSelectionMode) -> bool {
    &&& c.selectionMode == mode
    &&& c.currentChatId is None
    &&& c.activeStreamingChatIds@.len() == 0
    &&& c.currentTurnToolInvocationCountByChatId.wf()
    &&& forall|k: Seq<char>| #[trigger] c.currentTurnToolInvocationCountByChatId.get_spec(k) is None
}

/// Whether a holder is new: both views' services fresh, and nothing counted.
pub open spec fn fresh_holder(h: ChatRuntimeHolder) -> bool {
    &&& h.mainCore matches Some(c) && fresh_core(c, ChatSelectionMode::FOLLOW_GLOBAL)
    &&& h.floatingCore matches Some(c) && fresh_core(c, ChatSelectionMode::LOCAL_ONLY)
    &&& h.activeConversationCount == 0
    &&& h.currentSessionToolCount == 0
}

/// A service switched to a chat: unchanged when it shows that chat already,
/// else with that chat and all else as it was.
pub open spec fn synced_core(c: ChatServiceCore, chatId: String) -> ChatServiceCore {
    if c.currentChatId matches Some(x) && x@ == chatId@ {
        c
    } else {
        ChatServiceCore { currentChatId: Some(chatId), ..c }
    }
}

/// Whether every service's map keeps its keys in order.
pub open spec fn holder_wf(h: &ChatRuntimeHolder) -> bool {
    &&& (h.mainCore matches Some(c) ==> c.currentTurnToolInvocationCountByChatId.wf())
    &&& (h.floatingCore matches Some(c) ==> c.currentTurnToolInvocationCountByChatId.wf())
}

impl ChatRuntimeHolder {
    /// A holder with the services of both views made, their selections in
    /// sync, and its counts taken.
    pub fn new() -> (r: Self)
        ensures
            holder_wf(&r),
            r.mainCore matches Some(c) && c.selectionMode == ChatSelectionMode::FOLLOW_GLOBAL && c.currentChatId is None,
            r.floatingCore matches Some(c) && c.selectionMode == ChatSelectionMode::LOCAL_ONLY && c.currentChatId is None,
            r.activeConversationCount == 0,
            r.currentSessionToolCount == 0,
            fresh_holder(r),
    {
        let mut holder = ChatRuntimeHolder { mainCore: None, floatingCore: None, activeConversationCount: 0, currentSessionToolCount: 0 };
        holder.getCore(ChatRuntimeSlot::MAIN);
        let ghost main = holder.mainCore;
        holder.getCore(ChatRuntimeSlot::FLOATING);
        assert(core_of(&holder, ChatRuntimeSlot::MAIN) == main);
        holder.setupCrossSessionSync();
        holder.observeStats();
        proof {
            let m = holder.mainCore.unwrap();
            let f = holder.floatingCore.unwrap();
            assert(m.activeStreamingChatIds@.len() == 0);
            assert(f.activeStreamingChatIds@.len() == 0);
            assert(streaming_tool_calls(&m, m.activeStreamingChatIds@) == 0);
            assert(streaming_tool_calls(&f, f.activeStreamingChatIds@) == 0);
        }
        holder
    }

    /// The service of a slot, made first if it is not made yet: the main
    /// view's follows the chosen chat, the floating view's keeps its own.
    /// The service handed back is the one the holder keeps for the slot.
    pub fn getCore(&mut self, slot: ChatRuntimeSlot) -> (r: &mut ChatServiceCore)
        ensures
            core_of(old(self), slot) matches Some(c) ==> *r == c,
            core_of(old(self), slot) is None ==> fresh_core(*r, slot_mode(slot)),
            *final(self) == with_core(*old(self), slot, *final(r)),
    {
        match slot {
            ChatRuntimeSlot::MAIN => {
                let core = match self.mainCore.take() {
                    Some(c) => c,
                    None => ChatServiceCore::new(ChatSelectionMode::FOLLOW_GLOBAL),
                };
                self.mainCore.insert(core)
            },
            ChatRuntimeSlot::FLOATING => {
                let core = match self.floatingCore.take() {
                    Some(c) => c,
                    None => ChatServiceCore::new(ChatSelectionMode::LOCAL_ONLY),
                };
                self.floatingCore.insert(core)
            },
        }
    }

    /// Takes the counts: the chats streaming in both services, and the tool
    /// calls of their current turns (32-bit sums).
    pub fn observeStats(&mut self)
        requires
            holder_wf(old(self)),
        ensures
            final(self).mainCore == old(self).mainCore,
            final(self).floatingCore == old(self).floatingCore,
            final(self).activeConversationCount == active_of(old(self).mainCore).wrapping_add(active_of(old(self).floatingCore)),
            final(self).currentSessionToolCount == tools_of(old(self).mainCore).wrapping_add(tools_of(old(self).floatingCore)),
    {
        let main_active: i32 = match &self.mainCore {
            Some(c) => #[verifier::truncate] (c.activeStreamingChatIds.len() as i32),
            None => 0,
        };
        let floating_active: i32 = match &self.floatingCore {
            Some(c) => #[verifier::truncate] (c.activeStreamingChatIds.len() as i32),
            None => 0,
        };
        let main_tools: i32 = match &self.mainCore {
            Some(c) => count_streaming_tools(c),
            None => 0,
        };
        let floating_tools: i32 = match &self.floatingCore {
            Some(c) => count_streaming_tools(c),
            None => 0,
        };
        self.activeConversationCount = main_active.wrapping_add(floating_active);
        self.currentSessionToolCount = main_tools.wrapping_add(floating_tools);
    }

    /// Keeps the views' chat selections in step.
    pub fn setupCrossSessionSync(&mut self)
        ensures
            *final(self) == *old(self),
    {
        self.registerChatSelectionSync(ChatRuntimeSlot::MAIN, ChatRuntimeSlot::FLOATING);
        self.registerTurnSync(ChatRuntimeSlot::MAIN, ChatRuntimeSlot::FLOATING);
        self.registerTurnSync(ChatRuntimeSlot::FLOATING, ChatRuntimeSlot::MAIN);
    }

    /// Turns of one view are not mirrored in the other here.
    pub fn registerTurnSync(&mut self, _sourceSlot: ChatRuntimeSlot, _targetSlot: ChatRuntimeSlot)
        ensures
            *final(self) == *old(self),
    {
    }

    /// Selections are passed on by `syncChatSelection` when they happen.
    pub fn registerChatSelectionSync(&mut self, _sourceSlot: ChatRuntimeSlot, _targetSlot: ChatRuntimeSlot)
        ensures
            *final(self) == *old(self),
    {
    }

    /// Switches the floating view to the chat chosen in the main view,
    /// unless the id is blank.
    pub fn syncMainChatSelectionToFloating(&mut self, chatId: String)
        requires
            holder_wf(old(self)),
        ensures
            holder_wf(final(self)),
            is_blank(chatId@) ==> *final(self) == *old(self),
            !is_blank(chatId@) ==> (final(self).floatingCore matches Some(c) && c.currentChatId is Some
                && c.currentChatId.unwrap()@ == chatId@),
            final(self).mainCore == old(self).mainCore,
            !is_blank(chatId@) && old(self).floatingCore is Some ==> final(self).floatingCore == Some(
                synced_core(old(self).floatingCore.unwrap(), chatId),
            ),
            !is_blank(chatId@) && old(self).floatingCore is None ==> (final(self).floatingCore matches Some(c)
                && fresh_core(ChatServiceCore { currentChatId: None, ..c }, ChatSelectionMode::LOCAL_ONLY)
                && c.currentChatId == Some(chatId)),
            final(self).activeConversationCount == old(self).activeConversationCount,
            final(self).currentSessionToolCount == old(self).currentSessionToolCount,
    {
        if chars_blank(chars_of(chatId.as_str()).as_slice()) {
            return;
        }
        self.syncChatSelection(ChatRuntimeSlot::MAIN, ChatRuntimeSlot::FLOATING, chatId);
        assert(core_of(self, ChatRuntimeSlot::MAIN) == core_of(old(self), ChatRuntimeSlot::MAIN));
    }

    /// Switches a view to a chat, unless it is there already; its service is
    /// made first if needed.
    pub fn syncChatSelection(&mut self, _sourceSlot: ChatRuntimeSlot, targetSlot: ChatRuntimeSlot, chatId: String)
        requires
            holder_wf(old(self)),
        ensures
            holder_wf(final(self)),
            core_of(final(self), targetSlot) matches Some(c) && c.currentChatId is Some && c.currentChatId.unwrap()@ == chatId@,
            forall|s: ChatRuntimeSlot| s != targetSlot ==> #[trigger] core_of(final(self), s) == core_of(old(self), s),
            core_of(old(self), targetSlot) matches Some(c) ==> core_of(final(self), targetSlot) == Some(synced_core(c, chatId)),
            core_of(old(self), targetSlot) is None ==> (core_of(final(self), targetSlot) matches Some(c)
                && fresh_core(ChatServiceCore { currentChatId: None, ..c }, slot_mode(targetSlot))
                && c.currentChatId == Some(chatId)),
            final(self).activeConversationCount == old(self).activeConversationCount,
            final(self).currentSessionToolCount == old(self).currentSessionToolCount,
    {
        let core = self.getCore(targetSlot);
        let same = match &core.currentChatId {
            Some(current) => str_eq(current.as_str(), chatId.as_str()),
            None => false,
        };
        if !same {
            core.switchChatLocal(chatId);
        }
        proof {
            assert forall|s: ChatRuntimeSlot| s != targetSlot implies #[trigger] core_of(self, s) == core_of(old(self), s) by {}
        }
    }
}

// ----- the application -----

/// The application: when it started, its chat services, and whether it is set up.
pub struct OperitApplication {
    pub appStartupTimeMs: i64,
    pub chatRuntimeHolder: ChatRuntimeHolder,
    pub initialized: bool,
}

impl OperitApplication {
    /// An application not set up yet.
    pub fn new() -> (r: Self)
        ensures
            r.appStartupTimeMs == 0,
            !r.initialized,
            holder_wf(&r.chatRuntimeHolder),
    {
        OperitApplication { appStartupTimeMs: 0, chatRuntimeHolder: ChatRuntimeHolder::new(), initialized: false }
    }

    /// Sets the application up at time `now_ms`, given how setting up the
    /// preferences went: on failure its error is returned and the
    /// application stays not set up; else its chat services are made anew.
    pub fn onCreate(&mut self, now_ms: i64, preferences: Result<(), String>) -> (r: Result<(), String>)
        ensures
            final(self).appStartupTimeMs == now_ms,
            r == preferences,
            preferences is Ok ==> final(self).initialized && holder_wf(&final(self).chatRuntimeHolder)
                && final(self).chatRuntimeHolder.activeConversationCount == 0,
            preferences is Err ==> final(self).initialized == old(self).initialized,
            preferences is Ok ==> fresh_holder(final(self).chatRuntimeHolder),
            preferences is Err ==> *final(self) == (OperitApplication { appStartupTimeMs: now_ms, ..*old(self) }),
    {
        self.appStartupTimeMs = now_ms;
        self.configureOpenMpEnvironment();
        self.ensureWorkManagerInitialized();
        self.initializeJsonSerializer();
        self.initializeAppLanguage();
        let ghost given = preferences;
        match preferences {
            Err(e) => {
                return Err(e);
            },
            Ok(u) => {
                assert(given == Ok::<(), String>(u));
            },
        }
        self.initAndroidPermissionPreferences();
        self.preloadDatabase();
        self.chatRuntimeHolder = ChatRuntimeHolder::new();
        self.initialized = true;
        proof {
            assert(given matches Ok(u) && u == ());
        }
        Ok(())
    }

    /// How setting up the preferences went: the model settings first, then
    /// the functional settings; the first error ends it.
    pub fn initUserPreferencesManager(&self, model_config: Result<(), String>, functional_config: Result<(), String>) -> (r: Result<(), String>)
        ensures
            model_config is Err ==> r == model_config,
            model_config is Ok ==> r == functional_config,
    {
        match model_config {
            Err(e) => Err(e),
            Ok(()) => functional_config,
        }
    }

    /// Nothing to set up for OpenMP here.
    pub fn configureOpenMpEnvironment(&self) {
    }

    /// Nothing to set up for background work here.
    pub fn ensureWorkManagerInitialized(&self) {
    }

    /// Nothing to set up for JSON here.
    pub fn initializeJsonSerializer(&self) {
    }

    /// Nothing to set up for the language here.
    pub fn initializeAppLanguage(&self) {
    }

    /// Nothing to set up for permissions here.
    pub fn initAndroidPermissionPreferences(&self) {
    }

    /// Nothing to load ahead here.
    pub fn preloadDatabase(&self) {
    }
}

// ----- user input -----

/// Turns user input into what is sent, through the input hooks.
pub struct InputProcessor;

/// User input, with the chat and role card it is for.
pub struct ProcessUserInputRequest {
    pub input: String,
    pub chat_id: Option<String>,
    pub role_card_id: Option<String>,
}

/// What the input hooks see and change: the stage, the chat, the raw and
/// processed input, and metadata as JSON text by key.
pub struct PromptInputHookContext {
    pub stage: String,
    pub chat_id: Option<String>,
    pub raw_input: Option<String>,
    pub processed_input: Option<String>,
    pub metadata: StrMap<String>,
}

/// The input hooks a user of the library installs.
pub trait PromptInputHooks {
    /// Whether the hooks, handed `given`, may hand back `got`; each
    /// implementation says what its hooks do.
    spec fn hooks_give(&self, given: PromptInputHookContext, got: PromptInputHookContext) -> bool;

    /// Runs the hooks of a stage on a context.
    fn dispatch(&self, context: PromptInputHookContext) -> (r: PromptInputHookContext)
        ensures
            self.hooks_give(context, r),
    ;
}

/// Whether `c` is the context the hooks see before processing (see
/// `InputProcessor::before_process_context`).
pub open spec fn is_before_process_context(request: ProcessUserInputRequest, active_prompt_json: String, c: PromptInputHookContext) -> bool {
    &&& c.stage@ == "before_process"@
    &&& c.chat_id == request.chat_id
    &&& c.raw_input == Some(request.input)
    &&& c.processed_input == Some(request.input)
    &&& c.metadata.wf()
    &&& c.metadata.get_spec("activePrompt"@) == Some(active_prompt_json)
    &&& forall|k: Seq<char>| k != "activePrompt"@ ==> #[trigger] c.metadata.get_spec(k) is None
}

/// The input after the first stage: its processed input, else its raw
/// input, else the user's input.
pub open spec fn resolved_input(before: PromptInputHookContext, input: String) -> String {
    match before.processed_input {
        Some(p) => p,
        None => match before.raw_input {
            Some(raw) => raw,
            None => input,
        },
    }
}

/// Whether `c` is the context the hooks see after processing: the first
/// stage's chat, raw input and metadata, with the processed input.
pub open spec fn is_after_process_context(before: PromptInputHookContext, processed: String, c: PromptInputHookContext) -> bool {
    &&& c.stage@ == "after_process"@
    &&& c.chat_id == before.chat_id
    &&& c.raw_input == before.raw_input
    &&& c.processed_input == Some(processed)
    &&& c.metadata == before.metadata
}

/// The input sent: the last stage's processed input, else the input after
/// the first stage.
pub open spec fn sent_input(after: PromptInputHookContext, processed: String) -> String {
    match after.processed_input {
        Some(p) => p,
        None => processed,
    }
}

impl InputProcessor {
    /// The context the hooks see before processing: the input as raw and
    /// processed input, and the active prompt's metadata.
    pub fn before_process_context(request: &ProcessUserInputRequest, active_prompt_json: String) -> (r: PromptInputHookContext)
        ensures
            r.stage@ == "before_process"@,
            r.chat_id == request.chat_id,
            r.raw_input == Some(request.input),
            r.processed_input == Some(request.input),
            r.metadata.wf(),
            r.metadata.get_spec("activePrompt"@) == Some(active_prompt_json),
            forall|k: Seq<char>| k != "activePrompt"@ ==> #[trigger] r.metadata.get_spec(k) is None,
    {
        let mut metadata: StrMap<String> = StrMap::new();
        metadata.insert(String::from_str("activePrompt"), active_prompt_json);
        PromptInputHookContext {
            stage: String::from_str("before_process"),
            chat_id: request.chat_id.clone(),
            raw_input: Some(request.input.clone()),
            processed_input: Some(request.input.clone()),
            metadata,
        }
    }

    /// The input after the first stage: its processed input, else its raw
    /// input, else the user's input.
    pub fn resolve_processed_input(before: &PromptInputHookContext, input: String) -> (r: String)
        ensures
            r == match before.processed_input {
                Some(p) => p,
                None => match before.raw_input {
                    Some(raw) => raw,
                    None => input,
                },
            },
    {
        match &before.processed_input {
            Some(p) => p.clone(),
            None => match &before.raw_input {
                Some(raw) => raw.clone(),
                None => input,
            },
        }
    }

    /// The context the hooks see after processing: the first stage's chat,
    /// raw input and metadata, with the processed input.
    pub fn after_process_context(before: PromptInputHookContext, processed: String) -> (r: PromptInputHookContext)
        ensures
            r.stage@ == "after_process"@,
            r.chat_id == before.chat_id,
            r.raw_input == before.raw_input,
            r.processed_input == Some(processed),
            r.metadata == before.metadata,
    {
        PromptInputHookContext {
            stage: String::from_str("after_process"),
            chat_id: before.chat_id,
            raw_input: before.raw_input,
            processed_input: Some(processed),
            metadata: before.metadata,
        }
    }

    /// The input sent: the last stage's processed input, else the input
    /// after the first stage.
    pub fn final_input(after: PromptInputHookContext, processed: String) -> (r: String)
        ensures
            r == match after.processed_input {
                Some(p) => p,
                None => processed,
            },
    {
        match after.processed_input {
            Some(p) => p,
            None => processed,
        }
    }

    /// Runs user input through the hooks' two stages.
    pub fn process_user_input<H: PromptInputHooks>(request: ProcessUserInputRequest, active_prompt_json: String, hooks: &H) -> (r: String)
        ensures
            exists|given: PromptInputHookContext, before: PromptInputHookContext, given_after: PromptInputHookContext, after: PromptInputHookContext|
                is_before_process_context(request, active_prompt_json, given) && hooks.hooks_give(given, before)
                && is_after_process_context(before, resolved_input(before, request.input), given_after)
                && hooks.hooks_give(given_after, after) && r == sent_input(after, resolved_input(before, request.input)),
    {
        let ghost req_input = request.input;
        let given = Self::before_process_context(&request, active_prompt_json);
        let ghost given_g = given;
        let before = hooks.dispatch(given);
        let ghost before_g = before;
        let processed = Self::resolve_processed_input(&before, request.input);
        let given_after = Self::after_process_context(before, processed.clone());
        let ghost given_after_g = given_after;
        let after = hooks.dispatch(given_after);
        let ghost after_g = after;
        let r = Self::final_input(after, processed);
        assert(is_before_process_context(request, active_prompt_json, given_g));
        assert(is_after_process_context(before_g, resolved_input(before_g, req_input), given_after_g));
        r
    }
}

// ----- message processing plugins -----

/// Stops a message processing run.
pub trait MessageProcessingController {
    fn cancel(&self);
}

/// A message processing run: its controller and the stream of its output.
pub struct MessageProcessingExecution<TController> {
    pub controller: TController,
    pub stream: MutableSharedStreamMirror<String>,
}

/// A message processing plugin, known by its id.
pub trait MessageProcessingPlugin {
    fn id(&self) -> String;
}

/// The message processing plugins (none are installed here).
pub struct MessageProcessingPluginRegistry;

} // verus!
