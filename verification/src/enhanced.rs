use vstd::prelude::*;
use crate::ai_service::TokenCounts;
use crate::conversation::ConversationService;
use crate::prompt::{copy_turns, turn_views, PromptTurn, PromptTurnKind, TurnView};
use crate::strmap::StrMap;
use crate::text::{chars_blank, chars_of, is_blank, join_spec, str_views, trim};
use crate::tool_calls::ToolResult;
use crate::tui::join_strings;
use crate::tools::AIToolHandler;
use crate::tui::InputProcessingState;
use crate::registry::{
    all_stopped, contexts_flag, contexts_invalidate_all, contexts_register, contexts_set_flag, contexts_unregister, flagged,
};
use std::collections::BTreeMap;

verus! {

/// The tokens of one turn.
#[derive(Clone, Copy, Debug, PartialEq, Eq, Structural)]
pub struct TurnTokenSnapshot {
    pub inputTokens: i32,
    pub outputTokens: i32,
    pub cachedInputTokens: i32,
}

impl From<TokenCounts> for TurnTokenSnapshot {
    fn from(value: TokenCounts) -> (r: Self) {
        TurnTokenSnapshot {
            inputTokens: value.input,
            outputTokens: value.output,
            cachedInputTokens: value.cached_input,
        }
    }
}

impl vstd::std_specs::convert::FromSpecImpl<TokenCounts> for TurnTokenSnapshot {
    open spec fn obeys_from_spec() -> bool {
        true
    }

    open spec fn from_spec(v: TokenCounts) -> Self {
        TurnTokenSnapshot { inputTokens: v.input, outputTokens: v.output, cachedInputTokens: v.cached_input }
    }
}

/// What a function of the app asks the model for.
#[allow(non_camel_case_types)]
#[derive(Clone, Copy, Debug, PartialEq, Eq, Structural)]
pub enum FunctionType {
    CHAT,
    SUMMARY,
    MEMORY,
    UI_CONTROLLER,
    TRANSLATION,
    GREP,
    ROLE_RESPONSE_PLANNER,
    IMAGE_RECOGNITION,
    AUDIO_RECOGNITION,
    VIDEO_RECOGNITION,
}

/// Which prompt a function uses.
#[derive(Clone, Copy, Debug, PartialEq, Eq, Structural)]
pub enum PromptFunctionType {
    CHAT,
    VOICE,
}

/// The name of a function type.
pub open spec fn function_type_text(f: FunctionType) -> Seq<char> {
    match f {
        FunctionType::CHAT => "CHAT"@,
        FunctionType::SUMMARY => "SUMMARY"@,
        FunctionType::MEMORY => "MEMORY"@,
        FunctionType::UI_CONTROLLER => "UI_CONTROLLER"@,
        FunctionType::TRANSLATION => "TRANSLATION"@,
        FunctionType::GREP => "GREP"@,
        FunctionType::ROLE_RESPONSE_PLANNER => "ROLE_RESPONSE_PLANNER"@,
        FunctionType::IMAGE_RECOGNITION => "IMAGE_RECOGNITION"@,
        FunctionType::AUDIO_RECOGNITION => "AUDIO_RECOGNITION"@,
        FunctionType::VIDEO_RECOGNITION => "VIDEO_RECOGNITION"@,
    }
}

/// The name of a function type.
pub fn function_type_name(functionType: &FunctionType) -> (r: &'static str)
    ensures
        r@ == function_type_text(*functionType),
{
    match functionType {
        FunctionType::CHAT => "CHAT",
        FunctionType::SUMMARY => "SUMMARY",
        FunctionType::MEMORY => "MEMORY",
        FunctionType::UI_CONTROLLER => "UI_CONTROLLER",
        FunctionType::TRANSLATION => "TRANSLATION",
        FunctionType::GREP => "GREP",
        FunctionType::ROLE_RESPONSE_PLANNER => "ROLE_RESPONSE_PLANNER",
        FunctionType::IMAGE_RECOGNITION => "IMAGE_RECOGNITION",
        FunctionType::AUDIO_RECOGNITION => "AUDIO_RECOGNITION",
        FunctionType::VIDEO_RECOGNITION => "VIDEO_RECOGNITION",
    }
}

/// The name of a prompt function type.
pub fn prompt_function_type_name(promptFunctionType: &PromptFunctionType) -> (r: &'static str)
    ensures
        r@ == match *promptFunctionType {
            PromptFunctionType::CHAT => "CHAT"@,
            PromptFunctionType::VOICE => "VOICE"@,
        },
{
    match promptFunctionType {
        PromptFunctionType::CHAT => "CHAT",
        PromptFunctionType::VOICE => "VOICE",
    }
}

/// The history that goes to the model once the current user message has its
/// final text: unchanged when the final text is blank or already the last user
/// turn; the last user turn rewritten when it still holds the original text;
/// else a user turn with the final text added.
pub open spec fn finalized_history_spec(h: Seq<TurnView>, original: Seq<char>, finalized: Seq<char>) -> Seq<TurnView> {
    if is_blank(finalized) {
        h
    } else if h.len() > 0 && h.last().0 == PromptTurnKind::USER && h.last().1 == finalized {
        h
    } else if h.len() > 0 && h.last().0 == PromptTurnKind::USER && h.last().1 == original {
        h.update(h.len() - 1, (h.last().0, finalized, h.last().2, h.last().3))
    } else {
        h.push((PromptTurnKind::USER, finalized, None, Seq::empty()))
    }
}

/// The history with the current user turn in its final form.
pub fn apply_finalized_current_user_turn(
    preparedHistory: Vec<PromptTurn>,
    originalCurrentMessage: &str,
    finalizedCurrentMessage: &str,
) -> (r: Vec<PromptTurn>)
    ensures
        turn_views(r@) == finalized_history_spec(turn_views(preparedHistory@), originalCurrentMessage@, finalizedCurrentMessage@),
{
    let fin = chars_of(finalizedCurrentMessage);
    if chars_blank(fin.as_slice()) {
        return preparedHistory;
    }
    let mut history = preparedHistory;
    let n = history.len();
    if n > 0 {
        let last_is_user = history[n - 1].kind == PromptTurnKind::USER;
        if last_is_user && crate::text::str_eq(history[n - 1].content.as_str(), finalizedCurrentMessage) {
            return history;
        }
        if last_is_user && crate::text::str_eq(history[n - 1].content.as_str(), originalCurrentMessage) {
            let ghost before = turn_views(history@);
            let mut last = history.pop().unwrap();
            last.content = String::from_str(finalizedCurrentMessage);
            let ghost lv = last.view_turn();
            history.push(last);
            assert(turn_views(history@) == before.update(n - 1, lv));
            return history;
        }
    }
    let ghost before = turn_views(history@);
    let t = PromptTurn::new(PromptTurnKind::USER, String::from_str(finalizedCurrentMessage));
    history.push(t);
    assert(turn_views(history@) == before.push(t.view_turn()));
    history
}

/// Finalizing the current user turn twice changes nothing more, and afterwards
/// the last turn is a user turn with the final text (when the text is not blank).
pub proof fn law_finalized_turn_is_idempotent(h: Seq<TurnView>, original: Seq<char>, finalized: Seq<char>)
    ensures
        finalized_history_spec(finalized_history_spec(h, original, finalized), original, finalized)
            == finalized_history_spec(h, original, finalized),
        !is_blank(finalized) ==> finalized_history_spec(h, original, finalized).len() > 0
            && finalized_history_spec(h, original, finalized).last().0 == PromptTurnKind::USER
            && finalized_history_spec(h, original, finalized).last().1 == finalized,
{
    let once = finalized_history_spec(h, original, finalized);
    if !is_blank(finalized) {
        assert(once.len() > 0);
        assert(once.last().0 == PromptTurnKind::USER);
        assert(once.last().1 == finalized);
    }
}


/// A stream that keeps its events for replay.
pub struct MutableSharedStreamMirror<T> {
    pub replay: usize,
    pub events: Vec<T>,
}

impl<T> MutableSharedStreamMirror<T> {
    /// An empty stream that replays up to `replay` events.
    pub fn new(replay: usize) -> (r: Self)
        ensures
            r.replay == replay,
            r.events@.len() == 0,
    {
        MutableSharedStreamMirror { replay, events: Vec::new() }
    }
}

/// An event of a reply's text stream.
pub struct TextStreamEventMirror;

/// The round and text of the reply an execution builds.
pub struct ConversationRoundManagerMirror {
    pub content: String,
    pub roundIndex: i32,
}

impl ConversationRoundManagerMirror {
    /// Round zero, no text.
    pub fn new() -> (r: Self)
        ensures
            r.content@.len() == 0,
            r.roundIndex == 0,
    {
        ConversationRoundManagerMirror { content: String::new(), roundIndex: 0 }
    }

    /// The next round, with no text yet.
    #[allow(non_snake_case)]
    pub fn startNewRound(&mut self)
        requires
            old(self).roundIndex < i32::MAX,
        ensures
            final(self).roundIndex == old(self).roundIndex + 1,
            final(self).content@.len() == 0,
    {
        self.roundIndex = self.roundIndex + 1;
        self.content = String::new();
    }

    /// Replaces the text.
    #[allow(non_snake_case)]
    pub fn updateContent(&mut self, content: String)
        ensures
            final(self).content@ == content@,
            final(self).roundIndex == old(self).roundIndex,
    {
        self.content = content;
    }
}

/// One request being answered.
pub struct MessageExecutionContext {
    pub executionId: i32,
    pub streamBuffer: String,
    pub roundManager: ConversationRoundManagerMirror,
    pub isConversationActive: bool,
    pub conversationHistory: Vec<PromptTurn>,
    pub eventChannel: MutableSharedStreamMirror<TextStreamEventMirror>,
}

impl MessageExecutionContext {
    /// A new, active execution over a history.
    pub fn new(
        executionId: i32,
        conversationHistory: Vec<PromptTurn>,
        eventChannel: MutableSharedStreamMirror<TextStreamEventMirror>,
    ) -> (r: Self)
        ensures
            r.executionId == executionId,
            r.streamBuffer@.len() == 0,
            r.roundManager.roundIndex == 0,
            r.roundManager.content@.len() == 0,
            r.isConversationActive,
            r.conversationHistory@ == conversationHistory@,
            r.eventChannel == eventChannel,
    {
        MessageExecutionContext {
            executionId,
            streamBuffer: String::new(),
            roundManager: ConversationRoundManagerMirror::new(),
            isConversationActive: true,
            conversationHistory,
            eventChannel,
        }
    }

    /// The registry's own record of an execution: its id and whether it is
    /// active, with the same text and round.
    pub fn registry_copy(&self) -> (r: Self)
        ensures
            r.executionId == self.executionId,
            r.isConversationActive == self.isConversationActive,
            r.streamBuffer@ == self.streamBuffer@,
            r.roundManager.roundIndex == self.roundManager.roundIndex,
            turn_views(r.conversationHistory@) == turn_views(self.conversationHistory@),
    {
        MessageExecutionContext {
            executionId: self.executionId,
            streamBuffer: self.streamBuffer.clone(),
            roundManager: ConversationRoundManagerMirror {
                content: self.roundManager.content.clone(),
                roundIndex: self.roundManager.roundIndex,
            },
            isConversationActive: self.isConversationActive,
            conversationHistory: copy_turns(&self.conversationHistory),
            eventChannel: MutableSharedStreamMirror::new(self.eventChannel.replay),
        }
    }
}

/// The steps that sending a message goes through.
#[derive(Clone, Copy, Debug, PartialEq, Eq, Structural)]
pub enum SendMessageLifecycleStage {
    EnsureInitialized,
    StartAiService,
    SetProcessingState,
    PrepareConversationHistory,
    SyncPreparedHistoryToExecutionContext,
    SetConnectingState,
    GetModelParametersForFunction,
    GetAIServiceForFunction,
    ClearPerRequestTokenCounts,
    GetAvailableToolsForFunction,
    BeforeFinalizePromptHook,
    BeforeSendToModelHook,
    StripGeminiThoughtSignatureMeta,
    ApplyFinalizedCurrentUserTurn,
    SyncRequestHistoryToExecutionContext,
    EstimatePreparedRequestWindow,
    SendMessageRequest,
    StartAssistantResponseRound,
    CollectResponseStream,
    ExtractToolInvocations,
    ExecuteToolInvocations,
    ProcessToolResults,
    PersistTokenUsage,
    ProcessStreamCompletion,
    UnregisterExecutionContext,
    StopAiService,
}

/// The steps of sending a message, in order: a sub-task skips the service and
/// the processing states; tool steps come only when the reply calls tools and
/// the calls give results.
pub open spec fn lifecycle_spec(is_sub_task: bool, has_tool_invocations: bool, has_tool_results: bool) -> Seq<SendMessageLifecycleStage> {
    let start = if is_sub_task {
        seq![SendMessageLifecycleStage::EnsureInitialized]
    } else {
        seq![SendMessageLifecycleStage::EnsureInitialized, SendMessageLifecycleStage::StartAiService, SendMessageLifecycleStage::SetProcessingState]
    };
    let prepare = seq![SendMessageLifecycleStage::PrepareConversationHistory, SendMessageLifecycleStage::SyncPreparedHistoryToExecutionContext];
    let connect = if is_sub_task { Seq::empty() } else { seq![SendMessageLifecycleStage::SetConnectingState] };
    let request = seq![
        SendMessageLifecycleStage::GetModelParametersForFunction,
        SendMessageLifecycleStage::ClearPerRequestTokenCounts,
        SendMessageLifecycleStage::GetAvailableToolsForFunction,
        SendMessageLifecycleStage::GetAIServiceForFunction,
        SendMessageLifecycleStage::BeforeFinalizePromptHook,
        SendMessageLifecycleStage::BeforeSendToModelHook,
        SendMessageLifecycleStage::StripGeminiThoughtSignatureMeta,
        SendMessageLifecycleStage::ApplyFinalizedCurrentUserTurn,
        SendMessageLifecycleStage::SyncRequestHistoryToExecutionContext,
        SendMessageLifecycleStage::EstimatePreparedRequestWindow,
        SendMessageLifecycleStage::SendMessageRequest,
        SendMessageLifecycleStage::StartAssistantResponseRound,
        SendMessageLifecycleStage::CollectResponseStream,
        SendMessageLifecycleStage::ExtractToolInvocations,
    ];
    let tools = if has_tool_invocations {
        if has_tool_results {
            seq![SendMessageLifecycleStage::ExecuteToolInvocations, SendMessageLifecycleStage::ProcessToolResults]
        } else {
            seq![SendMessageLifecycleStage::ExecuteToolInvocations]
        }
    } else {
        Seq::empty()
    };
    let finish = seq![
        SendMessageLifecycleStage::PersistTokenUsage,
        SendMessageLifecycleStage::ProcessStreamCompletion,
        SendMessageLifecycleStage::UnregisterExecutionContext,
    ];
    let stop = if is_sub_task { Seq::empty() } else { seq![SendMessageLifecycleStage::StopAiService] };
    start + prepare + connect + request + tools + finish + stop
}

fn push_all(v: &mut Vec<SendMessageLifecycleStage>, s: &[SendMessageLifecycleStage])
    ensures
        final(v)@ == old(v)@ + s@,
{
    let ghost o = v@;
    let mut i: usize = 0;
    while i < s.len()
        invariant
            i <= s.len(),
            v@ == o + s@.subrange(0, i as int),
        decreases s.len() - i,
    {
        v.push(s[i]);
        assert(s@.subrange(0, i + 1) == s@.subrange(0, i as int).push(s@[i as int]));
        i = i + 1;
    }
    assert(s@.subrange(0, s.len() as int) == s@);
}

/// The steps of sending one message.
pub fn send_message_lifecycle(is_sub_task: bool, has_tool_invocations: bool, has_tool_results: bool) -> (r: Vec<SendMessageLifecycleStage>)
    ensures
        r@ == lifecycle_spec(is_sub_task, has_tool_invocations, has_tool_results),
{
    let mut v: Vec<SendMessageLifecycleStage> = Vec::new();
    v.push(SendMessageLifecycleStage::EnsureInitialized);
    if !is_sub_task {
        v.push(SendMessageLifecycleStage::StartAiService);
        v.push(SendMessageLifecycleStage::SetProcessingState);
    }
    v.push(SendMessageLifecycleStage::PrepareConversationHistory);
    v.push(SendMessageLifecycleStage::SyncPreparedHistoryToExecutionContext);
    if !is_sub_task {
        v.push(SendMessageLifecycleStage::SetConnectingState);
    }
    let request = [
        SendMessageLifecycleStage::GetModelParametersForFunction,
        SendMessageLifecycleStage::ClearPerRequestTokenCounts,
        SendMessageLifecycleStage::GetAvailableToolsForFunction,
        SendMessageLifecycleStage::GetAIServiceForFunction,
        SendMessageLifecycleStage::BeforeFinalizePromptHook,
        SendMessageLifecycleStage::BeforeSendToModelHook,
        SendMessageLifecycleStage::StripGeminiThoughtSignatureMeta,
        SendMessageLifecycleStage::ApplyFinalizedCurrentUserTurn,
        SendMessageLifecycleStage::SyncRequestHistoryToExecutionContext,
        SendMessageLifecycleStage::EstimatePreparedRequestWindow,
        SendMessageLifecycleStage::SendMessageRequest,
        SendMessageLifecycleStage::StartAssistantResponseRound,
        SendMessageLifecycleStage::CollectResponseStream,
        SendMessageLifecycleStage::ExtractToolInvocations,
    ];
    push_all(&mut v, &request);
    if has_tool_invocations {
        v.push(SendMessageLifecycleStage::ExecuteToolInvocations);
        if has_tool_results {
            v.push(SendMessageLifecycleStage::ProcessToolResults);
        }
    }
    v.push(SendMessageLifecycleStage::PersistTokenUsage);
    v.push(SendMessageLifecycleStage::ProcessStreamCompletion);
    v.push(SendMessageLifecycleStage::UnregisterExecutionContext);
    if !is_sub_task {
        v.push(SendMessageLifecycleStage::StopAiService);
    }
    assert(v@ == lifecycle_spec(is_sub_task, has_tool_invocations, has_tool_results));
    v
}

/// What sending a message produced.
pub struct SendMessageExecution {
    pub processedInput: String,
    pub requestHistory: Vec<PromptTurn>,
    pub responseChunks: Vec<String>,
    pub tokenSnapshot: TurnTokenSnapshot,
    pub requestWindowSize: i32,
    pub providerModel: String,
    pub lifecycle: Vec<SendMessageLifecycleStage>,
}

/// What a caller of `sendMessage` may hear about.
pub trait SendMessageCallbacks {
    #[allow(non_snake_case)]
    fn onNonFatalError(&self, _error: String) {
    }

    #[allow(non_snake_case)]
    fn onTokenLimitExceeded(&self) {
    }

    #[allow(non_snake_case)]
    fn onToolInvocation(&self, _toolName: String) {
    }
}

/// Whether the model services are set up.
pub struct MultiServiceManagerMirror {
    pub initialized: bool,
}

/// The scope that initialization runs in.
pub struct InitScopeMirror;

/// The lock that initialization takes.
pub struct InitMutexMirror;

/// The service that binds files to chats.
pub struct FileBindingServiceMirror;

/// The API preferences.
pub struct ApiPreferencesMirror;

/// Which tools a character card may use.
pub struct CharacterCardToolAccessResolverMirror;

/// The tool packages.
pub struct PackageManagerMirror;

/// The scope that tool processing runs in.
pub struct ToolProcessingScopeMirror;

/// A running tool execution.
pub struct ToolExecutionJobMirror;


/// An execution with its active flag set to `flag`, and all else as it was.
pub open spec fn with_flag(c: MessageExecutionContext, flag: bool) -> MessageExecutionContext {
    MessageExecutionContext { isConversationActive: flag, ..c }
}

/// Registering an execution whose id is not registered, then forgetting it,
/// leaves the registry as it was.
pub proof fn law_register_then_unregister_restores(m: Map<i32, MessageExecutionContext>, c: MessageExecutionContext)
    requires
        !m.contains_key(c.executionId),
    ensures
        m.insert(c.executionId, c).remove(c.executionId) == m,
{
    assert(m.insert(c.executionId, c).remove(c.executionId) =~= m);
}

/// The service that answers chat messages with a model, tools and hooks.
pub struct EnhancedAIService<E> {
    pub multi_service_manager: MultiServiceManagerMirror,
    pub init_scope: InitScopeMirror,
    pub init_mutex: InitMutexMirror,
    pub is_service_manager_initialized: bool,
    pub conversation_service: ConversationService,
    pub file_binding_service: FileBindingServiceMirror,
    pub tool_handler: AIToolHandler<E>,
    pub input_processing_state: InputProcessingState,
    pub per_request_token_counts: Option<(i32, i32)>,
    pub request_window_estimate: Option<i32>,
    pub api_preferences: ApiPreferencesMirror,
    pub character_card_tool_access_resolver: CharacterCardToolAccessResolverMirror,
    pub active_execution_contexts: BTreeMap<i32, MessageExecutionContext>,
    pub next_execution_context_id: i32,
    pub tool_processing_scope: ToolProcessingScopeMirror,
    pub tool_execution_jobs: StrMap<ToolExecutionJobMirror>,
    pub accumulated_input_token_count: i32,
    pub accumulated_output_token_count: i32,
    pub accumulated_cached_input_token_count: i32,
    pub current_request_input_token_count: i32,
    pub current_request_output_token_count: i32,
    pub current_request_cached_input_token_count: i32,
    pub current_response_callback_registered: bool,
    pub current_complete_callback_registered: bool,
    pub package_manager: PackageManagerMirror,
    pub last_reply_content: Option<String>,
}

/// The larger of a number and zero.
pub open spec fn at_least_zero(x: int) -> int {
    if x < 0 { 0 } else { x }
}

impl<E> EnhancedAIService<E> {
    /// The tool registry and the running tool jobs keep their keys in order.
    pub open spec fn wf(&self) -> bool {
        &&& self.tool_handler.wf()
        &&& self.tool_execution_jobs.wf()
    }

    /// Whether execution `id` is registered, and whether it is active.
    pub open spec fn execution(&self, id: i32) -> Option<bool> {
        if self.active_execution_contexts@.contains_key(id) {
            Some(self.active_execution_contexts@[id].isConversationActive)
        } else {
            None
        }
    }

    /// A service with nothing initialized, counted or running.
    pub fn new(conversation_service: ConversationService) -> (r: Self)
        ensures
            r.wf(),
            !r.is_service_manager_initialized,
            !r.multi_service_manager.initialized,
            r.per_request_token_counts is None,
            r.request_window_estimate is None,
            r.next_execution_context_id == 0,
            forall|id: i32| #[trigger] r.execution(id) is None,
            r.accumulated_input_token_count == 0 && r.accumulated_output_token_count == 0 && r.accumulated_cached_input_token_count == 0,
            r.current_request_input_token_count == 0 && r.current_request_output_token_count == 0 && r.current_request_cached_input_token_count == 0,
            r.input_processing_state is Idle,
            r.last_reply_content is None,
            r.active_execution_contexts@ == Map::<i32, MessageExecutionContext>::empty(),
            r.tool_handler.wf(),
            forall|n: Seq<char>| #[trigger] r.tool_handler.tool(n) is None,
            r.tool_handler.names() == Seq::<Seq<char>>::empty(),
            !r.tool_handler.defaults_registered(),
            r.tool_execution_jobs.wf(),
            forall|k: Seq<char>| #[trigger] r.tool_execution_jobs.get_spec(k) is None,
            !r.current_response_callback_registered && !r.current_complete_callback_registered,
            r.conversation_service == conversation_service,
    {
        EnhancedAIService {
            multi_service_manager: MultiServiceManagerMirror { initialized: false },
            init_scope: InitScopeMirror,
            init_mutex: InitMutexMirror,
            is_service_manager_initialized: false,
            conversation_service,
            file_binding_service: FileBindingServiceMirror,
            tool_handler: AIToolHandler::new(),
            input_processing_state: InputProcessingState::Idle,
            per_request_token_counts: None,
            request_window_estimate: None,
            api_preferences: ApiPreferencesMirror,
            character_card_tool_access_resolver: CharacterCardToolAccessResolverMirror,
            active_execution_contexts: BTreeMap::new(),
            next_execution_context_id: 0,
            tool_processing_scope: ToolProcessingScopeMirror,
            tool_execution_jobs: StrMap::new(),
            accumulated_input_token_count: 0,
            accumulated_output_token_count: 0,
            accumulated_cached_input_token_count: 0,
            current_request_input_token_count: 0,
            current_request_output_token_count: 0,
            current_request_cached_input_token_count: 0,
            current_response_callback_registered: false,
            current_complete_callback_registered: false,
            package_manager: PackageManagerMirror,
            last_reply_content: None,
        }
    }

    /// Sets the model services up, once.
    #[allow(non_snake_case)]
    pub fn ensureInitialized(&mut self)
        ensures
            final(self).is_service_manager_initialized,
            old(self).is_service_manager_initialized ==> final(self).multi_service_manager.initialized == old(self).multi_service_manager.initialized,
            !old(self).is_service_manager_initialized ==> final(self).multi_service_manager.initialized,
            final(self).wf() == old(self).wf(),
            forall|id: i32| #[trigger] final(self).execution(id) == old(self).execution(id),
            old(self).is_service_manager_initialized ==> *final(self) == *old(self),
            !old(self).is_service_manager_initialized ==> *final(self) == (EnhancedAIService {
                is_service_manager_initialized: true,
                multi_service_manager: MultiServiceManagerMirror { initialized: true },
                ..*old(self)
            }),
    {
        if self.is_service_manager_initialized {
            return;
        }
        self.multi_service_manager.initialized = true;
        self.is_service_manager_initialized = true;
    }

    /// The provider and the model of `provider:model` (split at the first colon).
    #[allow(non_snake_case)]
    pub fn getProviderAndModelForFunction(&self, providerModel: &str) -> (r: (String, String))
        requires
            exists|i: int| 0 <= i < providerModel@.len() && providerModel@[i] == ':',
        ensures
            exists|k: int| crate::conversation::first_char_from(providerModel@, ':', 0, k)
                && r.0@ == providerModel@.take(k) && r.1@ == providerModel@.skip(k + 1),
    {
        let v = chars_of(providerModel);
        let mut k: usize = 0;
        while k < v.len() && v[k] != ':'
            invariant
                k <= v.len(),
                v@ == providerModel@,
                forall|j: int| 0 <= j < k ==> #[trigger] v@[j] != ':',
            decreases v.len() - k,
        {
            k = k + 1;
        }
        proof {
            if k == v.len() {
                let i = choose|i: int| 0 <= i < providerModel@.len() && providerModel@[i] == ':';
                assert(v@[i] != ':');
            }
        }
        assert(crate::conversation::first_char_from(providerModel@, ':', 0, k as int));
        let a = crate::text::string_from_range(v.as_slice(), 0, k);
        let b = crate::text::string_from_range(v.as_slice(), k + 1, v.len());
        (a, b)
    }

    /// Refreshes the service of a function (the services are set up first).
    #[allow(non_snake_case)]
    pub fn refreshServiceForFunction(&mut self, _functionType: FunctionType)
        ensures
            final(self).is_service_manager_initialized,
            final(self).wf() == old(self).wf(),
            *final(self) == (EnhancedAIService { is_service_manager_initialized: final(self).is_service_manager_initialized, multi_service_manager: final(self).multi_service_manager, ..*old(self) }),
    {
        self.ensureInitialized();
    }

    /// Refreshes all services (the services are set up first).
    #[allow(non_snake_case)]
    pub fn refreshAllServices(&mut self)
        ensures
            final(self).is_service_manager_initialized,
            final(self).wf() == old(self).wf(),
            *final(self) == (EnhancedAIService { is_service_manager_initialized: final(self).is_service_manager_initialized, multi_service_manager: final(self).multi_service_manager, ..*old(self) }),
    {
        self.ensureInitialized();
    }

    /// Publishes how many tokens the next request will take.
    #[allow(non_snake_case)]
    pub fn publishRequestWindowEstimate(&mut self, windowSize: i32)
        ensures
            final(self).request_window_estimate == Some(windowSize),
            final(self).wf() == old(self).wf(),
            forall|id: i32| #[trigger] final(self).execution(id) == old(self).execution(id),
            *final(self) == (EnhancedAIService { request_window_estimate: final(self).request_window_estimate, ..*old(self) }),
    {
        self.request_window_estimate = Some(windowSize);
    }

    /// Runs the prompt finalize hooks on a context.
    #[allow(non_snake_case)]
    pub fn applyPromptFinalizeHooks<T, F: Fn(T) -> T>(&self, initialContext: T, dispatchHooks: F) -> (r: T)
        requires
            dispatchHooks.requires((initialContext,)),
        ensures
            dispatchHooks.ensures((initialContext,), r),
    {
        dispatchHooks(initialContext)
    }

    /// Leaves a context as it is.
    #[allow(non_snake_case)]
    pub fn bypassPromptHooks<T>(&self, context: T) -> (r: T)
        ensures
            r == context,
    {
        context
    }

    /// The history with the current user turn in its final form.
    #[allow(non_snake_case)]
    pub fn applyFinalizedCurrentUserTurn(
        &self,
        preparedHistory: Vec<PromptTurn>,
        originalCurrentMessage: &str,
        finalizedCurrentMessage: &str,
    ) -> (r: Vec<PromptTurn>)
        ensures
            turn_views(r@) == finalized_history_spec(turn_views(preparedHistory@), originalCurrentMessage@, finalizedCurrentMessage@),
    {
        apply_finalized_current_user_turn(preparedHistory, originalCurrentMessage, finalizedCurrentMessage)
    }

    /// Registers an execution, replacing one with the same id.
    #[allow(non_snake_case)]
    pub fn registerExecutionContext(&mut self, context: MessageExecutionContext)
        ensures
            final(self).wf() == old(self).wf(),
            final(self).execution(context.executionId) == Some(context.isConversationActive),
            forall|id: i32| id != context.executionId ==> #[trigger] final(self).execution(id) == old(self).execution(id),
            final(self).active_execution_contexts@ == old(self).active_execution_contexts@.insert(context.executionId, context),
            *final(self) == (EnhancedAIService { active_execution_contexts: final(self).active_execution_contexts, ..*old(self) }),
    {
        contexts_register(&mut self.active_execution_contexts, context);
    }

    /// Forgets an execution.
    #[allow(non_snake_case)]
    pub fn unregisterExecutionContext(&mut self, context: &MessageExecutionContext)
        ensures
            final(self).wf() == old(self).wf(),
            final(self).execution(context.executionId) is None,
            forall|id: i32| id != context.executionId ==> #[trigger] final(self).execution(id) == old(self).execution(id),
            final(self).active_execution_contexts@ == old(self).active_execution_contexts@.remove(context.executionId),
            *final(self) == (EnhancedAIService { active_execution_contexts: final(self).active_execution_contexts, ..*old(self) }),
    {
        contexts_unregister(&mut self.active_execution_contexts, context.executionId);
    }

    /// Stops an execution, here and in the registry.
    #[allow(non_snake_case)]
    pub fn invalidateExecutionContext(&mut self, context: &mut MessageExecutionContext, _reason: String)
        ensures
            final(self).wf() == old(self).wf(),
            !final(context).isConversationActive,
            final(context).executionId == old(context).executionId,
            match old(self).execution(old(context).executionId) {
                Some(_) => final(self).execution(old(context).executionId) == Some(false),
                None => final(self).execution(old(context).executionId) is None,
            },
            forall|id: i32| id != old(context).executionId ==> #[trigger] final(self).execution(id) == old(self).execution(id),
            *final(context) == with_flag(*old(context), false),
            final(self).active_execution_contexts@ == flagged(old(self).active_execution_contexts@, old(context).executionId, false),
            *final(self) == (EnhancedAIService { active_execution_contexts: final(self).active_execution_contexts, ..*old(self) }),
    {
        context.isConversationActive = false;
        contexts_set_flag(&mut self.active_execution_contexts, context.executionId, false);
    }

    fn set_flag(&mut self, id: i32, flag: bool)
        ensures
            final(self).wf() == old(self).wf(),
            match old(self).execution(id) {
                Some(_) => final(self).execution(id) == Some(flag),
                None => final(self).execution(id) is None,
            },
            forall|other: i32| other != id ==> #[trigger] final(self).execution(other) == old(self).execution(other),
            final(self).active_execution_contexts@ == flagged(old(self).active_execution_contexts@, id, flag),
            *final(self) == (EnhancedAIService { active_execution_contexts: final(self).active_execution_contexts, ..*old(self) }),
    {
        contexts_set_flag(&mut self.active_execution_contexts, id, flag);
    }

    /// Stops every registered execution; the registry keeps them.
    #[allow(non_snake_case)]
    pub fn invalidateAllExecutionContexts(&mut self, reason: String)
        ensures
            final(self).wf() == old(self).wf(),
            forall|id: i32| #[trigger] final(self).execution(id) == match old(self).execution(id) {
                Some(_) => Some(false),
                None => None::<bool>,
            },
            final(self).active_execution_contexts@ == all_stopped(old(self).active_execution_contexts@),
            *final(self) == (EnhancedAIService { active_execution_contexts: final(self).active_execution_contexts, ..*old(self) }),
    {
        contexts_invalidate_all(&mut self.active_execution_contexts);
        let _ = reason;
    }

    /// Whether an execution is still active, here and in the registry.
    #[allow(non_snake_case)]
    pub fn isExecutionContextActive(&self, context: &MessageExecutionContext) -> (r: bool)
        requires
            context.isConversationActive ==> self.execution(context.executionId) is Some,
        ensures
            r == (context.isConversationActive && self.execution(context.executionId) == Some(true)),
    {
        if !context.isConversationActive {
            return false;
        }
        match contexts_flag(&self.active_execution_contexts, context.executionId) {
            Some(active) => active,
            None => false,
        }
    }

    /// Starts the next round of an execution's reply, with an empty buffer.
    #[allow(non_snake_case)]
    pub fn startAssistantResponseRound(&mut self, context: &mut MessageExecutionContext)
        requires
            old(context).roundManager.roundIndex < i32::MAX,
        ensures
            final(context).roundManager.roundIndex == old(context).roundManager.roundIndex + 1,
            final(context).roundManager.content@.len() == 0,
            final(context).streamBuffer@.len() == 0,
            final(context).executionId == old(context).executionId,
            final(context).isConversationActive == old(context).isConversationActive,
            turn_views(final(context).conversationHistory@) == turn_views(old(context).conversationHistory@),
            *final(context) == (MessageExecutionContext {
                streamBuffer: final(context).streamBuffer,
                roundManager: final(context).roundManager,
                ..*old(context)
            }),
            *final(self) == *old(self),
    {
        context.roundManager.startNewRound();
        context.streamBuffer = String::new();
    }

    /// Records what the chat is doing.
    #[allow(non_snake_case)]
    pub fn setInputProcessingState(&mut self, newState: InputProcessingState)
        ensures
            final(self).input_processing_state == newState,
            final(self).wf() == old(self).wf(),
            forall|id: i32| #[trigger] final(self).execution(id) == old(self).execution(id),
            *final(self) == (EnhancedAIService { input_processing_state: final(self).input_processing_state, ..*old(self) }),
    {
        self.input_processing_state = newState;
    }

    /// Nothing runs in the background here.
    #[allow(non_snake_case)]
    pub fn startAiService(&mut self, _characterName: Option<String>, _avatarUri: Option<String>)
        ensures
            *final(self) == *old(self),
    {
    }

    /// Nothing runs in the background here.
    #[allow(non_snake_case)]
    pub fn stopAiService(&mut self, _characterName: Option<String>, _avatarUri: Option<String>)
        ensures
            *final(self) == *old(self),
    {
    }

    /// No notification is shown here.
    #[allow(non_snake_case)]
    pub fn notifyReplyCompleted(
        &mut self,
        _chatId: Option<String>,
        _characterName: Option<String>,
        _avatarUri: Option<String>,
        _notifyReplyOverride: Option<bool>,
    )
        ensures
            *final(self) == *old(self),
    {
    }

    /// Drops the running tool executions.
    #[allow(non_snake_case)]
    pub fn cancelAllToolExecutions(&mut self)
        ensures
            final(self).tool_execution_jobs.wf(),
            forall|k: Seq<char>| #[trigger] final(self).tool_execution_jobs.get_spec(k) is None,
            final(self).wf() == old(self).tool_handler.wf(),
            *final(self) == (EnhancedAIService { tool_execution_jobs: final(self).tool_execution_jobs, ..*old(self) }),
    {
        self.tool_execution_jobs = StrMap::new();
    }

    /// The input tokens of the turn so far.
    #[allow(non_snake_case)]
    pub fn getCurrentInputTokenCount(&self) -> (r: i32)
        ensures
            r == self.accumulated_input_token_count,
    {
        self.accumulated_input_token_count
    }

    /// The output tokens of the turn so far.
    #[allow(non_snake_case)]
    pub fn getCurrentOutputTokenCount(&self) -> (r: i32)
        ensures
            r == self.accumulated_output_token_count,
    {
        self.accumulated_output_token_count
    }

    /// The cached input tokens of the turn so far.
    #[allow(non_snake_case)]
    pub fn getCurrentCachedInputTokenCount(&self) -> (r: i32)
        ensures
            r == self.accumulated_cached_input_token_count,
    {
        self.accumulated_cached_input_token_count
    }

    /// The turn's tokens: the finished requests' and the running one's, each at
    /// least zero.
    #[allow(non_snake_case)]
    pub fn captureCurrentTurnTokenSnapshot(&self) -> (r: TurnTokenSnapshot)
        requires
            i32::MIN <= self.accumulated_input_token_count + self.current_request_input_token_count <= i32::MAX,
            i32::MIN <= self.accumulated_output_token_count + self.current_request_output_token_count <= i32::MAX,
            i32::MIN <= self.accumulated_cached_input_token_count + self.current_request_cached_input_token_count <= i32::MAX,
        ensures
            r.inputTokens == at_least_zero(self.accumulated_input_token_count + self.current_request_input_token_count),
            r.outputTokens == at_least_zero(self.accumulated_output_token_count + self.current_request_output_token_count),
            r.cachedInputTokens == at_least_zero(self.accumulated_cached_input_token_count + self.current_request_cached_input_token_count),
    {
        let i = self.accumulated_input_token_count + self.current_request_input_token_count;
        let o = self.accumulated_output_token_count + self.current_request_output_token_count;
        let c = self.accumulated_cached_input_token_count + self.current_request_cached_input_token_count;
        TurnTokenSnapshot {
            inputTokens: if i < 0 { 0 } else { i },
            outputTokens: if o < 0 { 0 } else { o },
            cachedInputTokens: if c < 0 { 0 } else { c },
        }
    }

    /// Sets the turn's tokens (each at least zero) and clears the running request's.
    #[allow(non_snake_case)]
    pub fn setCurrentTurnTokenCounts(&mut self, inputTokens: i32, outputTokens: i32, cachedInputTokens: i32)
        ensures
            final(self).accumulated_input_token_count == at_least_zero(inputTokens as int),
            final(self).accumulated_output_token_count == at_least_zero(outputTokens as int),
            final(self).accumulated_cached_input_token_count == at_least_zero(cachedInputTokens as int),
            final(self).current_request_input_token_count == 0,
            final(self).current_request_output_token_count == 0,
            final(self).current_request_cached_input_token_count == 0,
            final(self).per_request_token_counts == Some((final(self).accumulated_input_token_count, final(self).accumulated_output_token_count)),
            final(self).wf() == old(self).wf(),
            forall|id: i32| #[trigger] final(self).execution(id) == old(self).execution(id),
            *final(self) == (EnhancedAIService { accumulated_input_token_count: final(self).accumulated_input_token_count, accumulated_output_token_count: final(self).accumulated_output_token_count, accumulated_cached_input_token_count: final(self).accumulated_cached_input_token_count, current_request_input_token_count: final(self).current_request_input_token_count, current_request_output_token_count: final(self).current_request_output_token_count, current_request_cached_input_token_count: final(self).current_request_cached_input_token_count, per_request_token_counts: final(self).per_request_token_counts, ..*old(self) }),
    {
        self.accumulated_input_token_count = if inputTokens < 0 { 0 } else { inputTokens };
        self.accumulated_output_token_count = if outputTokens < 0 { 0 } else { outputTokens };
        self.accumulated_cached_input_token_count = if cachedInputTokens < 0 { 0 } else { cachedInputTokens };
        self.current_request_input_token_count = 0;
        self.current_request_output_token_count = 0;
        self.current_request_cached_input_token_count = 0;
        self.per_request_token_counts = Some((self.accumulated_input_token_count, self.accumulated_output_token_count));
    }

    /// Clears every token count.
    #[allow(non_snake_case)]
    pub fn resetTokenCounters(&mut self)
        ensures
            final(self).per_request_token_counts is None,
            final(self).accumulated_input_token_count == 0,
            final(self).accumulated_output_token_count == 0,
            final(self).accumulated_cached_input_token_count == 0,
            final(self).current_request_input_token_count == 0,
            final(self).current_request_output_token_count == 0,
            final(self).current_request_cached_input_token_count == 0,
            final(self).wf() == old(self).wf(),
            forall|id: i32| #[trigger] final(self).execution(id) == old(self).execution(id),
            *final(self) == (EnhancedAIService { accumulated_input_token_count: final(self).accumulated_input_token_count, accumulated_output_token_count: final(self).accumulated_output_token_count, accumulated_cached_input_token_count: final(self).accumulated_cached_input_token_count, current_request_input_token_count: final(self).current_request_input_token_count, current_request_output_token_count: final(self).current_request_output_token_count, current_request_cached_input_token_count: final(self).current_request_cached_input_token_count, per_request_token_counts: final(self).per_request_token_counts, ..*old(self) }),
    {
        self.per_request_token_counts = None;
        self.accumulated_input_token_count = 0;
        self.accumulated_output_token_count = 0;
        self.accumulated_cached_input_token_count = 0;
        self.current_request_input_token_count = 0;
        self.current_request_output_token_count = 0;
        self.current_request_cached_input_token_count = 0;
    }

    /// Adds a finished request's tokens to the turn and clears the running
    /// request's; returns the request's tokens.
    pub fn persist_token_usage(&mut self, counts: TokenCounts) -> (r: TurnTokenSnapshot)
        requires
            i32::MIN <= old(self).accumulated_input_token_count + counts.input <= i32::MAX,
            i32::MIN <= old(self).accumulated_output_token_count + counts.output <= i32::MAX,
            i32::MIN <= old(self).accumulated_cached_input_token_count + counts.cached_input <= i32::MAX,
        ensures
            final(self).accumulated_input_token_count == old(self).accumulated_input_token_count + counts.input,
            final(self).accumulated_output_token_count == old(self).accumulated_output_token_count + counts.output,
            final(self).accumulated_cached_input_token_count == old(self).accumulated_cached_input_token_count + counts.cached_input,
            final(self).current_request_input_token_count == 0,
            final(self).current_request_output_token_count == 0,
            final(self).current_request_cached_input_token_count == 0,
            final(self).per_request_token_counts == Some((counts.input, counts.output)),
            r == (TurnTokenSnapshot { inputTokens: counts.input, outputTokens: counts.output, cachedInputTokens: counts.cached_input }),
            final(self).wf() == old(self).wf(),
            forall|id: i32| #[trigger] final(self).execution(id) == old(self).execution(id),
            *final(self) == (EnhancedAIService { accumulated_input_token_count: final(self).accumulated_input_token_count, accumulated_output_token_count: final(self).accumulated_output_token_count, accumulated_cached_input_token_count: final(self).accumulated_cached_input_token_count, current_request_input_token_count: final(self).current_request_input_token_count, current_request_output_token_count: final(self).current_request_output_token_count, current_request_cached_input_token_count: final(self).current_request_cached_input_token_count, per_request_token_counts: final(self).per_request_token_counts, ..*old(self) }),
    {
        self.accumulated_input_token_count = self.accumulated_input_token_count + counts.input;
        self.accumulated_output_token_count = self.accumulated_output_token_count + counts.output;
        self.accumulated_cached_input_token_count = self.accumulated_cached_input_token_count + counts.cached_input;
        self.current_request_input_token_count = 0;
        self.current_request_output_token_count = 0;
        self.current_request_cached_input_token_count = 0;
        self.per_request_token_counts = Some((counts.input, counts.output));
        TurnTokenSnapshot::from(counts)
    }

    /// Starts answering a message: every token count is cleared and a new
    /// execution, numbered one past the last, is registered and returned.
    pub fn begin_message_execution(&mut self, chatHistory: Vec<PromptTurn>) -> (r: MessageExecutionContext)
        requires
            old(self).next_execution_context_id < i32::MAX,
        ensures
            final(self).wf() == old(self).wf(),
            r.executionId == old(self).next_execution_context_id + 1,
            final(self).next_execution_context_id == r.executionId,
            r.isConversationActive,
            final(self).execution(r.executionId) == Some(true),
            forall|id: i32| id != r.executionId ==> #[trigger] final(self).execution(id) == old(self).execution(id),
            turn_views(r.conversationHistory@) == turn_views(chatHistory@),
            final(self).active_execution_contexts@.remove(r.executionId) == old(self).active_execution_contexts@.remove(r.executionId),
            final(self).active_execution_contexts@.contains_key(r.executionId),
            ({
                let c = final(self).active_execution_contexts@[r.executionId];
                &&& c.executionId == r.executionId
                &&& c.isConversationActive
                &&& c.streamBuffer@ == r.streamBuffer@
                &&& c.roundManager.roundIndex == r.roundManager.roundIndex
                &&& turn_views(c.conversationHistory@) == turn_views(r.conversationHistory@)
            }),
            final(self).accumulated_input_token_count == 0 && final(self).accumulated_output_token_count == 0,
            final(self).accumulated_cached_input_token_count == 0,
            final(self).current_request_input_token_count == 0 && final(self).current_request_output_token_count == 0,
            final(self).current_request_cached_input_token_count == 0,
            *final(self) == (EnhancedAIService { accumulated_input_token_count: final(self).accumulated_input_token_count, accumulated_output_token_count: final(self).accumulated_output_token_count, accumulated_cached_input_token_count: final(self).accumulated_cached_input_token_count, current_request_input_token_count: final(self).current_request_input_token_count, current_request_output_token_count: final(self).current_request_output_token_count, current_request_cached_input_token_count: final(self).current_request_cached_input_token_count, next_execution_context_id: final(self).next_execution_context_id, active_execution_contexts: final(self).active_execution_contexts, ..*old(self) }),
    {
        self.accumulated_input_token_count = 0;
        self.accumulated_output_token_count = 0;
        self.accumulated_cached_input_token_count = 0;
        self.current_request_input_token_count = 0;
        self.current_request_output_token_count = 0;
        self.current_request_cached_input_token_count = 0;
        self.next_execution_context_id = self.next_execution_context_id + 1;
        let ctx = MessageExecutionContext::new(self.next_execution_context_id, chatHistory, MutableSharedStreamMirror::new(usize::MAX));
        let copy = ctx.registry_copy();
        contexts_register(&mut self.active_execution_contexts, copy);
        ctx
    }

    /// Adds a chunk of the reply to an execution's buffer, which the round's text follows.
    pub fn record_response_chunk(&mut self, context: &mut MessageExecutionContext, chunk: &str)
        ensures
            final(context).streamBuffer@ == old(context).streamBuffer@ + chunk@,
            final(context).roundManager.content@ == final(context).streamBuffer@,
            final(context).roundManager.roundIndex == old(context).roundManager.roundIndex,
            final(context).executionId == old(context).executionId,
            *final(context) == (MessageExecutionContext {
                streamBuffer: final(context).streamBuffer,
                roundManager: final(context).roundManager,
                ..*old(context)
            }),
            *final(self) == *old(self),
    {
        context.streamBuffer.append(chunk);
        let copy = context.streamBuffer.clone();
        context.roundManager.updateContent(copy);
    }

    /// Cancels the conversation: every execution stops, the model stops
    /// streaming, and the state and counts go back to idle and zero.
    #[allow(non_snake_case)]
    pub fn cancelConversation<S: crate::ai_service::AIService>(&mut self, service: &mut S)
        ensures
            final(self).wf() == old(self).wf(),
            forall|id: i32| #[trigger] final(self).execution(id) == match old(self).execution(id) {
                Some(_) => Some(false),
                None => None::<bool>,
            },
            final(self).input_processing_state is Idle,
            final(self).per_request_token_counts is None,
            final(self).accumulated_input_token_count == 0 && final(self).accumulated_output_token_count == 0,
            final(self).accumulated_cached_input_token_count == 0,
            final(self).current_request_input_token_count == 0 && final(self).current_request_output_token_count == 0,
            final(self).current_request_cached_input_token_count == 0,
            !final(self).current_response_callback_registered && !final(self).current_complete_callback_registered,
            final(self).active_execution_contexts@ == all_stopped(old(self).active_execution_contexts@),
            *final(self) == (EnhancedAIService { accumulated_input_token_count: final(self).accumulated_input_token_count, accumulated_output_token_count: final(self).accumulated_output_token_count, accumulated_cached_input_token_count: final(self).accumulated_cached_input_token_count, current_request_input_token_count: final(self).current_request_input_token_count, current_request_output_token_count: final(self).current_request_output_token_count, current_request_cached_input_token_count: final(self).current_request_cached_input_token_count, per_request_token_counts: final(self).per_request_token_counts, active_execution_contexts: final(self).active_execution_contexts, input_processing_state: final(self).input_processing_state, current_response_callback_registered: final(self).current_response_callback_registered, current_complete_callback_registered: final(self).current_complete_callback_registered, ..*old(self) }),
    {
        contexts_invalidate_all(&mut self.active_execution_contexts);
        service.cancel_streaming();
        self.input_processing_state = InputProcessingState::Idle;
        self.per_request_token_counts = None;
        self.accumulated_input_token_count = 0;
        self.accumulated_output_token_count = 0;
        self.accumulated_cached_input_token_count = 0;
        self.current_request_input_token_count = 0;
        self.current_request_output_token_count = 0;
        self.current_request_cached_input_token_count = 0;
        self.current_response_callback_registered = false;
        self.current_complete_callback_registered = false;
        self.stopAiService(None, None);
    }
}


/// The names of the tools whose results came back, joined with `, `.
pub open spec fn tool_names_text(results: Seq<ToolResult>) -> Seq<char> {
    join_spec(results.map_values(|r: ToolResult| r.toolName@), ", "@)
}

/// What the status line calls the tools: their names, or `warning` when the
/// names are blank.
pub open spec fn display_tool_names(names: Seq<char>) -> Seq<char> {
    if is_blank(names) {
        "warning"@
    } else {
        names
    }
}

/// The turn that carries tool results back to the model: the message, and
/// the tool names unless they are blank.
pub open spec fn tool_result_turn(names: Seq<char>, message: Seq<char>) -> TurnView {
    (
        PromptTurnKind::TOOL_RESULT,
        message,
        if is_blank(names) { None } else { Some(names) },
        Seq::<(Seq<char>, Seq<char>)>::empty(),
    )
}

/// How the results of the tools a reply asked for go back to the model.
pub enum ToolResultRound {
    /// Nothing goes back: the message is blank, or the execution was stopped.
    Skip,
    /// The results joined the history and a new round began; the next request
    /// goes out with that history.
    Proceed { displayToolNames: String },
}

fn result_names(results: &Vec<ToolResult>) -> (r: String)
    ensures
        r@ == tool_names_text(results@),
{
    let mut names: Vec<String> = Vec::new();
    let mut i: usize = 0;
    while i < results.len()
        invariant
            i <= results.len(),
            str_views(names@) == results@.subrange(0, i as int).map_values(|r: ToolResult| r.toolName@),
        decreases results.len() - i,
    {
        let ghost before = names@;
        let name = results[i].toolName.clone();
        names.push(name);
        assert(names@ == before.push(name));
        assert(str_views(names@) == str_views(before).push(name@));
        assert(results@.subrange(0, i + 1) == results@.subrange(0, i as int).push(results@[i as int]));
        assert(results@.subrange(0, i + 1).map_values(|r: ToolResult| r.toolName@)
            == results@.subrange(0, i as int).map_values(|r: ToolResult| r.toolName@).push(results@[i as int].toolName@));
        i = i + 1;
    }
    assert(results@.subrange(0, results.len() as int) == results@);
    join_strings(&names, ", ")
}

impl<E> EnhancedAIService<E> {
    /// Takes the results of the tools a reply asked for. A blank message sends
    /// nothing back. Otherwise the status names the tools (unless this is a
    /// sub-task); a stopped execution sends nothing back; an active one gets
    /// the tool-result turn at the end of its history, the history normalized
    /// for the model, and a new round.
    pub fn begin_tool_result_round(
        &mut self,
        results: &Vec<ToolResult>,
        tool_result_message: String,
        context: &mut MessageExecutionContext,
        isSubTask: bool,
    ) -> (r: ToolResultRound)
        requires
            old(context).roundManager.roundIndex < i32::MAX,
        ensures
            final(self).wf() == old(self).wf(),
            forall|id: i32| #[trigger] final(self).execution(id) == old(self).execution(id),
            is_blank(tool_result_message@) ==> r is Skip && *final(context) == *old(context)
                && final(self).input_processing_state == old(self).input_processing_state,
            !is_blank(tool_result_message@) && !isSubTask ==> final(self).input_processing_state
                == (InputProcessingState::ProcessingToolResult {
                    toolName: final(self).input_processing_state->ProcessingToolResult_toolName,
                }) && final(self).input_processing_state->ProcessingToolResult_toolName@
                == display_tool_names(tool_names_text(results@)),
            !is_blank(tool_result_message@) && isSubTask ==> final(self).input_processing_state
                == old(self).input_processing_state,
            !is_blank(tool_result_message@) && !old(context).isConversationActive ==> r is Skip
                && *final(context) == *old(context),
            !is_blank(tool_result_message@) && old(context).isConversationActive ==> (r matches ToolResultRound::Proceed {
                displayToolNames,
            }) && r->Proceed_displayToolNames@ == display_tool_names(tool_names_text(results@))
                && turn_views(final(context).conversationHistory@) == turn_views(old(context).conversationHistory@).push(
                    tool_result_turn(tool_names_text(results@), tool_result_message@),
                )
                && final(context).roundManager.roundIndex == old(context).roundManager.roundIndex + 1
                && final(context).roundManager.content@.len() == 0
                && final(context).streamBuffer@.len() == 0
                && final(context).isConversationActive
                && final(context).executionId == old(context).executionId
                && final(context).eventChannel == old(context).eventChannel,
            is_blank(tool_result_message@) ==> *final(self) == *old(self),
            *final(self) == (EnhancedAIService { input_processing_state: final(self).input_processing_state, ..*old(self) }),
    {
        proof {
            reveal_strlit("warning");
        }
        if chars_blank(chars_of(tool_result_message.as_str()).as_slice()) {
            return ToolResultRound::Skip;
        }
        let names = result_names(results);
        let names_blank = chars_blank(chars_of(names.as_str()).as_slice());
        let display = if names_blank {
            String::from_str("warning")
        } else {
            names.clone()
        };
        if !isSubTask {
            self.setInputProcessingState(InputProcessingState::ProcessingToolResult { toolName: display.clone() });
        }
        if !context.isConversationActive {
            return ToolResultRound::Skip;
        }
        let turn = PromptTurn {
            kind: PromptTurnKind::TOOL_RESULT,
            content: tool_result_message,
            tool_name: if names_blank {
                None
            } else {
                Some(names)
            },
            metadata: StrMap::new(),
        };
        assert(turn.metadata.string_entries() == Seq::<(Seq<char>, Seq<char>)>::empty());
        let ghost before = turn_views(context.conversationHistory@);
        context.conversationHistory.push(turn);
        assert(turn_views(context.conversationHistory@) == before.push(turn.view_turn()));
        let normalized = self.conversation_service.normalize_conversation_history_for_model(&context.conversationHistory);
        context.conversationHistory = normalized;
        self.startAssistantResponseRound(context);
        ToolResultRound::Proceed { displayToolNames: display }
    }

    /// Stops an execution whose history no longer fits the model's window.
    pub fn stop_for_token_limit(&mut self, context: &mut MessageExecutionContext, _isSubTask: bool)
        ensures
            !final(context).isConversationActive,
            final(context).executionId == old(context).executionId,
            turn_views(final(context).conversationHistory@) == turn_views(old(context).conversationHistory@),
            final(context).streamBuffer@ == old(context).streamBuffer@,
            *final(context) == with_flag(*old(context), false),
            *final(self) == *old(self),
    {
        context.isConversationActive = false;
    }

    /// Ends a reply: the reply's text is kept as the last reply, the caller
    /// hears of it, and the reply is announced.
    #[allow(non_snake_case)]
    pub fn processStreamCompletion<C: SendMessageCallbacks>(
        &mut self,
        context: &MessageExecutionContext,
        chatId: Option<String>,
        characterName: Option<String>,
        avatarUri: Option<String>,
        notifyReplyOverride: Option<bool>,
        callbacks: Option<&C>,
    )
        ensures
            final(self).last_reply_content is Some,
            final(self).last_reply_content.unwrap()@ == context.streamBuffer@,
            final(self).wf() == old(self).wf(),
            forall|id: i32| #[trigger] final(self).execution(id) == old(self).execution(id),
            final(self).input_processing_state == old(self).input_processing_state,
            *final(self) == (EnhancedAIService { last_reply_content: final(self).last_reply_content, ..*old(self) }),
    {
        self.last_reply_content = Some(context.streamBuffer.clone());
        match callbacks {
            Some(c) => c.onTokenLimitExceeded(),
            None => {},
        }
        self.notifyReplyCompleted(chatId, characterName, avatarUri, notifyReplyOverride);
    }
}


// ----- the reply loop -----

/// Where the answer to a message stands: its reply is awaited, its tool
/// calls run, the reply to their results is awaited, or it is done.
#[derive(Clone, Copy, Debug, PartialEq, Eq, Structural)]
pub enum ReplyPhase {
    AwaitingResponse,
    ExecutingTools,
    AwaitingFollowUp,
    Done,
}

/// The answer so far: its phase and the tokens its requests used.
#[derive(Clone, Copy, Debug, PartialEq, Eq, Structural)]
pub struct ReplyState {
    pub phase: ReplyPhase,
    pub counts: TokenCounts,
}

/// What happened outside: the model's reply came (its chunks, its tokens,
/// and whether it asks for tools); the tools ran (the messages they showed,
/// and whether any result came back); or the reply to the results came.
pub enum ReplyEvent {
    Response { chunks: Vec<String>, counts: TokenCounts, hasToolInvocations: bool },
    ToolsExecuted { messages: Vec<String>, hasResults: bool },
    FollowUp { chunks: Vec<String>, counts: TokenCounts },
}

/// What to do next: run the tools, send their results back, or keep the
/// tokens used and end the reply; or nothing, for an event that does not
/// belong to the phase.
#[derive(Clone, Copy, Debug, PartialEq, Eq, Structural)]
pub enum ReplyAction {
    ExecuteTools,
    ProcessToolResults,
    PersistTokenUsage(TokenCounts),
    Ignore,
}

/// Token counts added field by field.
pub open spec fn counts_sum(a: TokenCounts, b: TokenCounts) -> (int, int, int) {
    (a.input + b.input, a.cached_input + b.cached_input, a.output + b.output)
}

/// Whether adding two token counts stays within `i32`.
pub open spec fn counts_fit(a: TokenCounts, b: TokenCounts) -> bool {
    &&& i32::MIN <= a.input + b.input <= i32::MAX
    &&& i32::MIN <= a.cached_input + b.cached_input <= i32::MAX
    &&& i32::MIN <= a.output + b.output <= i32::MAX
}

/// The chunks of a reply, one after another.
pub open spec fn chunks_text(chunks: Seq<String>) -> Seq<char> {
    join_spec(str_views(chunks), Seq::<char>::empty())
}

/// The next state and action of the answer to a message, given an event
/// (see `EnhancedAIService::reply_step`).
pub open spec fn reply_transition(st: ReplyState, event: ReplyEvent) -> (ReplyState, ReplyAction) {
    match (st.phase, event) {
        (ReplyPhase::AwaitingResponse, ReplyEvent::Response { counts, hasToolInvocations, .. }) => if hasToolInvocations {
            (ReplyState { phase: ReplyPhase::ExecutingTools, counts }, ReplyAction::ExecuteTools)
        } else {
            (ReplyState { phase: ReplyPhase::Done, counts }, ReplyAction::PersistTokenUsage(counts))
        },
        (ReplyPhase::ExecutingTools, ReplyEvent::ToolsExecuted { hasResults, .. }) => if hasResults {
            (ReplyState { phase: ReplyPhase::AwaitingFollowUp, counts: st.counts }, ReplyAction::ProcessToolResults)
        } else {
            (ReplyState { phase: ReplyPhase::Done, counts: st.counts }, ReplyAction::PersistTokenUsage(st.counts))
        },
        (ReplyPhase::AwaitingFollowUp, ReplyEvent::FollowUp { counts, .. }) => {
            let (i, c, o) = counts_sum(st.counts, counts);
            let total = TokenCounts { input: i as i32, cached_input: c as i32, output: o as i32 };
            (ReplyState { phase: ReplyPhase::Done, counts: total }, ReplyAction::PersistTokenUsage(total))
        },
        _ => (st, ReplyAction::Ignore),
    }
}

/// The text an event adds to the reply, when it belongs to the phase.
pub open spec fn reply_text(st: ReplyState, event: ReplyEvent) -> Seq<char> {
    match (st.phase, event) {
        (ReplyPhase::AwaitingResponse, ReplyEvent::Response { chunks, .. }) => chunks_text(chunks@),
        (ReplyPhase::ExecutingTools, ReplyEvent::ToolsExecuted { messages, .. }) => chunks_text(messages@),
        (ReplyPhase::AwaitingFollowUp, ReplyEvent::FollowUp { chunks, .. }) => chunks_text(chunks@),
        _ => Seq::empty(),
    }
}

impl<E> EnhancedAIService<E> {
    /// Adds chunks of the reply to an execution's buffer, one after another;
    /// the round's text follows the buffer.
    fn record_response_chunks(&mut self, context: &mut MessageExecutionContext, chunks: &Vec<String>)
        ensures
            final(context).streamBuffer@ == old(context).streamBuffer@ + chunks_text(chunks@),
            chunks@.len() > 0 ==> final(context).roundManager.content@ == final(context).streamBuffer@,
            chunks@.len() == 0 ==> *final(context) == *old(context),
            final(context).roundManager.roundIndex == old(context).roundManager.roundIndex,
            *final(context) == (MessageExecutionContext {
                streamBuffer: final(context).streamBuffer,
                roundManager: final(context).roundManager,
                ..*old(context)
            }),
            *final(self) == *old(self),
    {
        let mut i: usize = 0;
        assert(str_views(chunks@.take(0)) =~= Seq::<Seq<char>>::empty());
        assert(old(context).streamBuffer@ + chunks_text(chunks@.take(0)) =~= old(context).streamBuffer@);
        while i < chunks.len()
            invariant
                i <= chunks.len(),
                *self == *old(self),
                context.streamBuffer@ == old(context).streamBuffer@ + chunks_text(chunks@.take(i as int)),
                i > 0 ==> context.roundManager.content@ == context.streamBuffer@,
                i == 0 ==> *context == *old(context),
                context.roundManager.roundIndex == old(context).roundManager.roundIndex,
                *context == (MessageExecutionContext {
                    streamBuffer: context.streamBuffer,
                    roundManager: context.roundManager,
                    ..*old(context)
                }),
            decreases chunks.len() - i,
        {
            self.record_response_chunk(context, chunks[i].as_str());
            proof {
                let a = str_views(chunks@.take(i as int));
                let b = str_views(chunks@.take(i + 1));
                assert(b =~= a.push(chunks@[i as int]@));
                assert(b.drop_last() =~= a);
                if a.len() == 0 {
                    assert(join_spec(b, Seq::<char>::empty()) == chunks@[i as int]@);
                } else {
                    assert(join_spec(b, Seq::<char>::empty()) == join_spec(a, Seq::<char>::empty()) + Seq::<char>::empty() + chunks@[i as int]@);
                }
                assert(join_spec(b, Seq::<char>::empty()) =~= join_spec(a, Seq::<char>::empty()) + chunks@[i as int]@);
            }
            i = i + 1;
        }
        assert(chunks@.take(chunks.len() as int) =~= chunks@);
    }

    /// One step of answering a message: the event's text joins the reply's
    /// buffer, and the phase and tokens move on. A reply that asks for tools
    /// has them run; tools that gave results send them back; the reply to
    /// those results adds its tokens to the first reply's; at the end the
    /// tokens used are kept. An event that does not belong to the phase
    /// changes nothing.
    pub fn reply_step(&mut self, state: ReplyState, context: &mut MessageExecutionContext, event: ReplyEvent) -> (r: (ReplyState, ReplyAction))
        requires
            state.phase == ReplyPhase::AwaitingFollowUp ==> (event matches ReplyEvent::FollowUp { counts, .. }
                ==> counts_fit(state.counts, counts)),
        ensures
            r == reply_transition(state, event),
            final(context).streamBuffer@ == old(context).streamBuffer@ + reply_text(state, event),
            *final(context) == (MessageExecutionContext {
                streamBuffer: final(context).streamBuffer,
                roundManager: final(context).roundManager,
                ..*old(context)
            }),
            final(context).roundManager.roundIndex == old(context).roundManager.roundIndex,
            reply_text(state, event).len() > 0 ==> final(context).roundManager.content@ == final(context).streamBuffer@,
            r.1 == ReplyAction::Ignore ==> *final(context) == *old(context),
            *final(self) == *old(self),
    {
        match (state.phase, event) {
            (ReplyPhase::AwaitingResponse, ReplyEvent::Response { chunks, counts, hasToolInvocations }) => {
                self.record_response_chunks(context, &chunks);
                proof {
                    if chunks@.len() > 0 {
                    } else {
                        assert(chunks_text(chunks@) == Seq::<char>::empty());
                    }
                }
                if hasToolInvocations {
                    (ReplyState { phase: ReplyPhase::ExecutingTools, counts }, ReplyAction::ExecuteTools)
                } else {
                    (ReplyState { phase: ReplyPhase::Done, counts }, ReplyAction::PersistTokenUsage(counts))
                }
            },
            (ReplyPhase::ExecutingTools, ReplyEvent::ToolsExecuted { messages, hasResults }) => {
                self.record_response_chunks(context, &messages);
                proof {
                    if messages@.len() == 0 {
                        assert(chunks_text(messages@) == Seq::<char>::empty());
                    }
                }
                if hasResults {
                    (ReplyState { phase: ReplyPhase::AwaitingFollowUp, counts: state.counts }, ReplyAction::ProcessToolResults)
                } else {
                    (ReplyState { phase: ReplyPhase::Done, counts: state.counts }, ReplyAction::PersistTokenUsage(state.counts))
                }
            },
            (ReplyPhase::AwaitingFollowUp, ReplyEvent::FollowUp { chunks, counts }) => {
                self.record_response_chunks(context, &chunks);
                proof {
                    if chunks@.len() == 0 {
                        assert(chunks_text(chunks@) == Seq::<char>::empty());
                    }
                }
                let total = TokenCounts {
                    input: state.counts.input + counts.input,
                    cached_input: state.counts.cached_input + counts.cached_input,
                    output: state.counts.output + counts.output,
                };
                (ReplyState { phase: ReplyPhase::Done, counts: total }, ReplyAction::PersistTokenUsage(total))
            },
            (phase, ev) => {
                proof {
                    assert(reply_text(state, ev) == Seq::<char>::empty());
                }
                (state, ReplyAction::Ignore)
            },
        }
    }
}


impl<E> EnhancedAIService<E> {
    /// Ends answering a message: the tokens its requests used join the
    /// turn's, its execution leaves the registry, and (unless it is a
    /// sub-task) the background service stops; returns the tokens used.
    pub fn finish_message_execution(&mut self, context: &MessageExecutionContext, counts: TokenCounts, isSubTask: bool) -> (r: TurnTokenSnapshot)
        requires
            i32::MIN <= old(self).accumulated_input_token_count + counts.input <= i32::MAX,
            i32::MIN <= old(self).accumulated_output_token_count + counts.output <= i32::MAX,
            i32::MIN <= old(self).accumulated_cached_input_token_count + counts.cached_input <= i32::MAX,
        ensures
            r == (TurnTokenSnapshot { inputTokens: counts.input, outputTokens: counts.output, cachedInputTokens: counts.cached_input }),
            final(self).active_execution_contexts@ == old(self).active_execution_contexts@.remove(context.executionId),
            final(self).accumulated_input_token_count == old(self).accumulated_input_token_count + counts.input,
            final(self).accumulated_output_token_count == old(self).accumulated_output_token_count + counts.output,
            final(self).accumulated_cached_input_token_count == old(self).accumulated_cached_input_token_count + counts.cached_input,
            final(self).current_request_input_token_count == 0,
            final(self).current_request_output_token_count == 0,
            final(self).current_request_cached_input_token_count == 0,
            final(self).per_request_token_counts == Some((counts.input, counts.output)),
            *final(self) == (EnhancedAIService {
                active_execution_contexts: final(self).active_execution_contexts,
                accumulated_input_token_count: final(self).accumulated_input_token_count,
                accumulated_output_token_count: final(self).accumulated_output_token_count,
                accumulated_cached_input_token_count: final(self).accumulated_cached_input_token_count,
                current_request_input_token_count: 0,
                current_request_output_token_count: 0,
                current_request_cached_input_token_count: 0,
                per_request_token_counts: final(self).per_request_token_counts,
                ..*old(self)
            }),
    {
        let snapshot = self.persist_token_usage(counts);
        self.unregisterExecutionContext(context);
        if !isSubTask {
            self.stopAiService(None, None);
        }
        snapshot
    }
}

/// Answering a message leaves the registry of executions as it was: the
/// execution that `begin_message_execution` registers under a new id (the
/// registry is otherwise untouched) is the one `finish_message_execution`
/// removes.
pub proof fn law_message_execution_restores_registry(
    before: Map<i32, MessageExecutionContext>,
    during: Map<i32, MessageExecutionContext>,
    after: Map<i32, MessageExecutionContext>,
    id: i32,
)
    requires
        !before.contains_key(id),
        during.remove(id) == before.remove(id),
        after == during.remove(id),
    ensures
        after == before,
{
    assert(before.remove(id) =~= before);
}

} // verus!
