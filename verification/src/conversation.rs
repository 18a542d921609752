use crate::clock::now_millis;
use crate::table::TextMap;
use crate::text::{
    chars_of, contains_text, find, find_from, first_match, first_match_from, begins_with,
    holds_text, matches_at, slice, starts_with, string_of, trim, trimmed,
};
use crate::types::{optional_text, ErrorView, RalphError};
use vstd::prelude::*;
use vstd::string::StringExecFns;

verus! {

/// Who said a message of a conversation.
#[derive(Debug, Clone, Copy, PartialEq, Eq, Structural)]
pub enum MessageRole {
    User,
    Assistant,
    System,
}

/// One message of a conversation. `timestamp` is in milliseconds since the
/// Unix epoch.
#[derive(Debug, PartialEq, Eq)]
pub struct ConversationMessage {
    pub role: MessageRole,
    pub content: String,
    pub timestamp: u64,
}

/// A message with its text as a character sequence.
pub struct MessageView {
    pub role: MessageRole,
    pub content: Seq<char>,
    pub timestamp: u64,
}

impl View for ConversationMessage {
    type V = MessageView;

    open spec fn view(&self) -> MessageView {
        MessageView { role: self.role, content: self.content@, timestamp: self.timestamp }
    }
}

impl Clone for ConversationMessage {
    fn clone(&self) -> (copy: ConversationMessage)
        ensures
            copy@ == self@,
    {
        ConversationMessage {
            role: self.role,
            content: self.content.clone(),
            timestamp: self.timestamp,
        }
    }
}

impl ConversationMessage {
    /// A message said by `role` at time `timestamp`.
    pub fn at(role: MessageRole, content: &str, timestamp: u64) -> (message: ConversationMessage)
        ensures
            message@ == (MessageView { role, content: content@, timestamp }),
    {
        ConversationMessage { role, content: String::from_str(content), timestamp }
    }

    /// A message of the user, said now.
    pub fn user(content: &str) -> (message: ConversationMessage)
        ensures
            message.role == MessageRole::User,
            message.content@ == content@,
    {
        ConversationMessage::at(MessageRole::User, content, now_millis())
    }

    /// A message of the assistant, said now.
    pub fn assistant(content: &str) -> (message: ConversationMessage)
        ensures
            message.role == MessageRole::Assistant,
            message.content@ == content@,
    {
        ConversationMessage::at(MessageRole::Assistant, content, now_millis())
    }

    /// A message of the system, said now.
    pub fn system(content: &str) -> (message: ConversationMessage)
        ensures
            message.role == MessageRole::System,
            message.content@ == content@,
    {
        ConversationMessage::at(MessageRole::System, content, now_millis())
    }
}

/// The views of a list of messages.
pub open spec fn message_views(messages: Seq<ConversationMessage>) -> Seq<MessageView> {
    Seq::new(messages.len(), |i: int| messages[i]@)
}

/// The conversation in which a requirements document is worked out for one
/// session. Times are in milliseconds since the Unix epoch.
#[derive(Debug, PartialEq, Eq)]
pub struct PrdConversation {
    pub session_id: String,
    pub messages: Vec<ConversationMessage>,
    pub generated_prd: Option<String>,
    pub created_at: u64,
    pub updated_at: u64,
}

/// A conversation with its texts as character sequences.
pub struct ConversationView {
    pub session_id: Seq<char>,
    pub messages: Seq<MessageView>,
    pub generated_prd: Option<Seq<char>>,
    pub created_at: u64,
    pub updated_at: u64,
}

impl View for PrdConversation {
    type V = ConversationView;

    open spec fn view(&self) -> ConversationView {
        ConversationView {
            session_id: self.session_id@,
            messages: message_views(self.messages@),
            generated_prd: optional_text(self.generated_prd),
            created_at: self.created_at,
            updated_at: self.updated_at,
        }
    }
}

impl Clone for PrdConversation {
    fn clone(&self) -> (copy: PrdConversation)
        ensures
            copy@ == self@,
    {
        let mut messages: Vec<ConversationMessage> = Vec::new();
        let mut i: usize = 0;
        while i < self.messages.len()
            invariant
                i <= self.messages.len(),
                messages@.len() == i,
                forall|j: int| 0 <= j < i ==> messages@[j]@ == self.messages@[j]@,
            decreases self.messages.len() - i,
        {
            messages.push(self.messages[i].clone());
            i += 1;
        }
        assert(message_views(messages@) =~= message_views(self.messages@));
        PrdConversation {
            session_id: self.session_id.clone(),
            messages,
            generated_prd: match &self.generated_prd {
                Some(prd) => Some(prd.clone()),
                None => None,
            },
            created_at: self.created_at,
            updated_at: self.updated_at,
        }
    }
}

impl PrdConversation {
    /// An empty conversation for a session, begun at time `now`.
    pub fn new_at(session_id: String, now: u64) -> (conversation: PrdConversation)
        ensures
            conversation@ == (ConversationView {
                session_id: session_id@,
                messages: Seq::empty(),
                generated_prd: None,
                created_at: now,
                updated_at: now,
            }),
    {
        let conversation = PrdConversation {
            session_id,
            messages: Vec::new(),
            generated_prd: None,
            created_at: now,
            updated_at: now,
        };
        assert(message_views(conversation.messages@) =~= Seq::<MessageView>::empty());
        conversation
    }

    /// An empty conversation for a session, begun now.
    pub fn new(session_id: String) -> (conversation: PrdConversation)
        ensures
            conversation@ == (ConversationView {
                session_id: session_id@,
                messages: Seq::empty(),
                generated_prd: None,
                created_at: conversation.created_at,
                updated_at: conversation.created_at,
            }),
    {
        PrdConversation::new_at(session_id, now_millis())
    }

    /// Adds a message at the end, at time `now`.
    pub fn add_message_at(&mut self, message: ConversationMessage, now: u64)
        ensures
            final(self)@ == (ConversationView {
                messages: old(self)@.messages.push(message@),
                updated_at: now,
                ..old(self)@
            }),
    {
        self.messages.push(message);
        self.updated_at = now;
        assert(message_views(self.messages@) =~= message_views(old(self).messages@).push(
            message@,
        ));
    }

    /// Adds a message at the end, now.
    pub fn add_message(&mut self, message: ConversationMessage)
        ensures
            final(self)@ == (ConversationView {
                messages: old(self)@.messages.push(message@),
                updated_at: final(self).updated_at,
                ..old(self)@
            }),
    {
        self.add_message_at(message, now_millis());
    }

    /// Records the requirements document that the conversation arrived at,
    /// at time `now`.
    pub fn set_generated_prd_at(&mut self, prd: String, now: u64)
        ensures
            final(self)@ == (ConversationView {
                generated_prd: Some(prd@),
                updated_at: now,
                ..old(self)@
            }),
    {
        self.generated_prd = Some(prd);
        self.updated_at = now;
    }

    /// Records the requirements document that the conversation arrived at,
    /// now.
    pub fn set_generated_prd(&mut self, prd: String)
        ensures
            final(self)@ == (ConversationView {
                generated_prd: Some(prd@),
                updated_at: final(self).updated_at,
                ..old(self)@
            }),
    {
        self.set_generated_prd_at(prd, now_millis());
    }
}

/// What the assistant is told at the start of a conversation about a
/// requirements document.
pub const SYSTEM_PROMPT: &'static str = "You are an expert product manager helping to create a Product Requirements Document (PRD).\n\nYour goal is to guide the user through creating a comprehensive PRD by asking targeted questions. Follow this process:\n\n1. **Understand the Feature** - Ask about the problem, users, and expected outcome\n2. **Gather Requirements** - Ask about core functionality, edge cases, constraints, and dependencies  \n3. **Define Success Criteria** - What does \"done\" look like? How will we test this?\n4. **Break Down User Stories** - Create small, focused stories that can each be completed in one iteration\n\nWhen you have gathered enough information, generate the complete PRD in markdown format. The PRD should follow this structure:\n\n```markdown\n# [Feature Name]\n\n## Problem Statement\n[Brief description]\n\n## Users\n- [User type]: [What they need]\n\n## Requirements\n\n### Functional\n1. [Requirement]\n\n### Non-Functional\n- Performance: [requirement]\n- Security: [requirement]\n\n## User Stories\n\n### US-001: [Story Title]\n**As a** [user type]\n**I want** [feature]\n**So that** [benefit]\n\n**Acceptance Criteria:**\n- [ ] [Criterion]\n- [ ] Typecheck passes\n\n**Priority:** 1\n**Dependencies:** None\n\n## Out of Scope\n- [What we're NOT doing]\n\n## Open Questions\n- [Unresolved questions]\n```\n\nGuidelines:\n- Ask ONE question at a time\n- Keep stories small (each = one iteration of work)\n- Order stories by dependency (schema → backend → UI)\n- Always include \"Typecheck passes\" in acceptance criteria\n- Add \"Verify in browser\" for UI stories\n\nStart by asking what feature or project the user wants to build.";

/// The heading under which a message of `role` stands in a prompt.
pub open spec fn role_heading(role: MessageRole) -> Seq<char> {
    match role {
        MessageRole::System => "[System]\n"@,
        MessageRole::User => "[User]\n"@,
        MessageRole::Assistant => "[Assistant]\n"@,
    }
}

/// The first `n` messages as they stand in a prompt: each under the heading
/// of its role and followed by an empty line.
pub open spec fn transcript(messages: Seq<MessageView>, n: int) -> Seq<char>
    decreases n,
{
    if n <= 0 {
        Seq::empty()
    } else {
        transcript(messages, n - 1) + role_heading(messages[n - 1].role) + messages[n
            - 1].content + "\n\n"@
    }
}

/// The prompt that asks the assistant for its next message: the messages so
/// far, then the heading under which the assistant is to go on.
pub open spec fn prompt_of(messages: Seq<MessageView>) -> Seq<char> {
    transcript(messages, messages.len() as int) + "[Assistant]\n"@
}

/// Builds the prompt that asks the assistant for its next message.
pub fn build_prompt(conversation: &PrdConversation) -> (prompt: String)
    ensures
        prompt@ == prompt_of(conversation@.messages),
{
    let ghost messages = conversation@.messages;
    let mut prompt = String::new();
    let mut n: usize = 0;
    assert(prompt@ =~= transcript(messages, 0));
    while n < conversation.messages.len()
        invariant
            n <= conversation.messages.len(),
            messages == message_views(conversation.messages@),
            prompt@ == transcript(messages, n as int),
        decreases conversation.messages.len() - n,
    {
        let message = &conversation.messages[n];
        assert(messages[n as int] == message@);
        let ghost before = prompt@;
        match message.role {
            MessageRole::System => {
                prompt.append("[System]\n");
            },
            MessageRole::User => {
                prompt.append("[User]\n");
            },
            MessageRole::Assistant => {
                prompt.append("[Assistant]\n");
            },
        }
        prompt.append(message.content.as_str());
        prompt.append("\n\n");
        assert(prompt@ =~= before + role_heading(message.role) + message.content@ + "\n\n"@);
        n += 1;
    }
    prompt.append("[Assistant]\n");
    prompt
}

/// Whether a text has a heading for its stories.
pub open spec fn mentions_stories(s: Seq<char>) -> bool {
    contains_text(s, "## User Stories"@) || contains_text(s, "## Stories"@)
}

/// The requirements document that stands in a fenced markdown block of a
/// response: what lies between the first opening fence and the next fence,
/// without white space around, if it begins with a title.
pub open spec fn fenced_prd(response: Seq<char>) -> Option<Seq<char>> {
    match first_match(response, "```markdown"@) {
        Some(start) => {
            let from = start + "```markdown"@.len();
            match first_match_from(response, "```"@, from) {
                Some(end) => {
                    let prd = trim(response.subrange(from, end));
                    if starts_with(prd, "# "@) {
                        Some(prd)
                    } else {
                        None
                    }
                },
                None => None,
            }
        },
        None => None,
    }
}

/// The requirements document that a response ends with: what follows the
/// first line end before a title, without white space around, if it has a
/// heading for its stories.
pub open spec fn trailing_prd(response: Seq<char>) -> Option<Seq<char>> {
    match first_match(response, "\n# "@) {
        Some(start) => {
            let prd = trim(response.subrange(start + 1, response.len() as int));
            if mentions_stories(prd) {
                Some(prd)
            } else {
                None
            }
        },
        None => None,
    }
}

/// The requirements document in a response, if it holds one. A response
/// without a heading for stories holds none. Else the whole response is the
/// document if, white space aside, it begins with a title and has a
/// section; else the document is looked for in a fenced markdown block, and
/// at last after the text that the response begins with.
pub open spec fn extracted_prd(response: Seq<char>) -> Option<Seq<char>> {
    if !mentions_stories(response) {
        None
    } else if starts_with(trim(response), "# "@) && contains_text(trim(response), "## "@) {
        Some(trim(response))
    } else if fenced_prd(response) is Some {
        fenced_prd(response)
    } else {
        trailing_prd(response)
    }
}

fn chars_mention_stories(chars: &Vec<char>) -> (found: bool)
    ensures
        found == mentions_stories(chars@),
{
    let user_stories = chars_of("## User Stories");
    let stories = chars_of("## Stories");
    holds_text(chars, &user_stories) || holds_text(chars, &stories)
}

fn chars_begin_with(chars: &Vec<char>, prefix: &str) -> (begins: bool)
    ensures
        begins == starts_with(chars@, prefix@),
{
    let prefix_chars = chars_of(prefix);
    begins_with(chars, &prefix_chars)
}

/// Finds the requirements document in a response of the assistant.
pub fn extract_prd(response: &str) -> (prd: Option<String>)
    ensures
        optional_text(prd) == extracted_prd(response@),
{
    let chars = chars_of(response);
    if !chars_mention_stories(&chars) {
        return None;
    }
    let whole = trimmed(&chars);
    let section = chars_of("## ");
    if chars_begin_with(&whole, "# ") && holds_text(&whole, &section) {
        return Some(string_of(&whole));
    }
    let open_fence = chars_of("```markdown");
    let fence = chars_of("```");
    match find(&chars, &open_fence) {
        Some(start) => {
            assert(matches_at(chars@, open_fence@, start as int));
            let from = start + open_fence.len();
            match find_from(&chars, &fence, from) {
                Some(end) => {
                    assert(matches_at(chars@, fence@, end as int));
                    let body = slice(&chars, from, end);
                    let prd = trimmed(&body);
                    if chars_begin_with(&prd, "# ") {
                        return Some(string_of(&prd));
                    }
                },
                None => {},
            }
        },
        None => {},
    }
    assert(fenced_prd(response@) is None);
    let title_line = chars_of("\n# ");
    proof {
        reveal_strlit("\n# ");
    }
    match find(&chars, &title_line) {
        Some(start) => {
            assert(matches_at(chars@, title_line@, start as int));
            let rest = slice(&chars, start + 1, chars.len());
            let prd = trimmed(&rest);
            if chars_mention_stories(&prd) {
                return Some(string_of(&prd));
            }
        },
        None => {},
    }
    None
}

spec fn conversation_views(conversations: Map<Seq<char>, PrdConversation>) -> Map<
    Seq<char>,
    ConversationView,
> {
    conversations.map_values(|conversation: PrdConversation| conversation@)
}

/// The conversation that is opened for a session at time `now`: it holds
/// what the assistant is told at the start and nothing else.
pub open spec fn opening_of(session_id: Seq<char>, now: u64) -> ConversationView {
    ConversationView {
        session_id,
        messages: seq![
            MessageView { role: MessageRole::System, content: SYSTEM_PROMPT@, timestamp: now },
        ],
        generated_prd: None,
        created_at: now,
        updated_at: now,
    }
}

/// A conversation with one more message said at time `now`.
pub open spec fn with_message(
    conversation: ConversationView,
    role: MessageRole,
    content: Seq<char>,
    now: u64,
) -> ConversationView {
    ConversationView {
        messages: conversation.messages.push(MessageView { role, content, timestamp: now }),
        updated_at: now,
        ..conversation
    }
}

/// A conversation after the assistant has answered at time `now`: a
/// requirements document found in the answer is recorded, and the answer is
/// added as a message.
pub open spec fn with_response(conversation: ConversationView, response: Seq<char>, now: u64)
    -> ConversationView {
    with_message(
        match extracted_prd(response) {
            Some(prd) => ConversationView {
                generated_prd: Some(prd),
                updated_at: now,
                ..conversation
            },
            None => conversation,
        },
        MessageRole::Assistant,
        response,
        now,
    )
}

/// The table of conversations about requirements documents, by session id.
pub struct PrdConversationManager {
    conversations: TextMap<PrdConversation>,
}

impl View for PrdConversationManager {
    type V = Map<Seq<char>, ConversationView>;

    closed spec fn view(&self) -> Map<Seq<char>, ConversationView> {
        conversation_views(self.conversations@)
    }
}

impl PrdConversationManager {
    /// Every conversation stands in the table once.
    pub closed spec fn wf(&self) -> bool {
        self.conversations.wf()
    }

    pub fn new() -> (manager: PrdConversationManager)
        ensures
            manager.wf(),
            manager@ == Map::<Seq<char>, ConversationView>::empty(),
    {
        let manager = PrdConversationManager { conversations: TextMap::new() };
        assert(manager@ =~= Map::<Seq<char>, ConversationView>::empty());
        manager
    }

    /// The conversation that is opened for a session at time `now`. The
    /// prompt built from it asks the assistant for its first message.
    pub fn opening(session_id: String, now: u64) -> (conversation: PrdConversation)
        ensures
            conversation@ == opening_of(session_id@, now),
    {
        let mut conversation = PrdConversation::new_at(session_id, now);
        conversation.add_message_at(
            ConversationMessage::at(MessageRole::System, SYSTEM_PROMPT, now),
            now,
        );
        assert(conversation@.messages =~= opening_of(session_id@, now).messages);
        conversation
    }

    /// Opens the conversation for a session at time `now`, with the first
    /// message of the assistant, and stores it in place of any conversation
    /// that the session had.
    pub fn start_conversation(&mut self, session_id: String, first_message: &str, now: u64) -> (conversation:
        PrdConversation)
        requires
            old(self).wf(),
        ensures
            final(self).wf(),
            conversation@ == with_message(
                opening_of(session_id@, now),
                MessageRole::Assistant,
                first_message@,
                now,
            ),
            final(self)@ == old(self)@.insert(session_id@, conversation@),
    {
        let mut conversation = PrdConversationManager::opening(session_id.clone(), now);
        conversation.add_message_at(
            ConversationMessage::at(MessageRole::Assistant, first_message, now),
            now,
        );
        self.store(session_id, conversation.clone());
        conversation
    }

    fn store(&mut self, session_id: String, conversation: PrdConversation)
        requires
            old(self).wf(),
        ensures
            final(self).wf(),
            final(self)@ == old(self)@.insert(session_id@, conversation@),
    {
        let ghost before = self.conversations@;
        self.conversations.insert(session_id, conversation);
        assert(conversation_views(before.insert(session_id@, conversation)) =~= conversation_views(
            before,
        ).insert(session_id@, conversation@));
    }

    /// A copy of the conversation of a session, if it has one.
    pub fn get_conversation(&self, session_id: &str) -> (found: Option<PrdConversation>)
        requires
            self.wf(),
        ensures
            match found {
                Some(conversation) => self@.contains_key(session_id@) && conversation@
                    == self@[session_id@],
                None => !self@.contains_key(session_id@),
            },
    {
        assert(conversation_views(self.conversations@).dom() =~= self.conversations@.dom());
        match self.conversations.get(session_id) {
            Some(conversation) => Some(conversation.clone()),
            None => None,
        }
    }

    /// Adds a message of the user to the conversation of a session at time
    /// `now`, and returns the prompt that asks the assistant for its answer.
    pub fn send_message(&mut self, session_id: &str, message: &str, now: u64) -> (prompt: Result<
        String,
        RalphError,
    >)
        requires
            old(self).wf(),
        ensures
            final(self).wf(),
            match prompt {
                Ok(prompt) => {
                    &&& old(self)@.contains_key(session_id@)
                    &&& final(self)@ == old(self)@.insert(
                        session_id@,
                        with_message(old(self)@[session_id@], MessageRole::User, message@, now),
                    )
                    &&& prompt@ == prompt_of(final(self)@[session_id@].messages)
                },
                Err(error) => {
                    &&& !old(self)@.contains_key(session_id@)
                    &&& error@ == ErrorView::SessionNotFound(session_id@)
                    &&& final(self)@ == old(self)@
                },
            },
    {
        let mut conversation = match self.get_conversation(session_id) {
            Some(conversation) => conversation,
            None => {
                return Err(RalphError::SessionNotFound(String::from_str(session_id)));
            },
        };
        conversation.add_message_at(ConversationMessage::at(MessageRole::User, message, now), now);
        let prompt = build_prompt(&conversation);
        self.store(String::from_str(session_id), conversation);
        Ok(prompt)
    }

    /// Takes in the answer of the assistant for a session at time `now`: a
    /// requirements document found in it is recorded, and the answer is added
    /// to the conversation, of which a copy is returned.
    pub fn receive_response(&mut self, session_id: &str, response: &str, now: u64) -> (updated:
        Result<PrdConversation, RalphError>)
        requires
            old(self).wf(),
        ensures
            final(self).wf(),
            match updated {
                Ok(conversation) => {
                    &&& old(self)@.contains_key(session_id@)
                    &&& conversation@ == with_response(old(self)@[session_id@], response@, now)
                    &&& final(self)@ == old(self)@.insert(session_id@, conversation@)
                },
                Err(error) => {
                    &&& !old(self)@.contains_key(session_id@)
                    &&& error@ == ErrorView::SessionNotFound(session_id@)
                    &&& final(self)@ == old(self)@
                },
            },
    {
        let mut conversation = match self.get_conversation(session_id) {
            Some(conversation) => conversation,
            None => {
                return Err(RalphError::SessionNotFound(String::from_str(session_id)));
            },
        };
        match extract_prd(response) {
            Some(prd) => {
                conversation.set_generated_prd_at(prd, now);
            },
            None => {},
        }
        conversation.add_message_at(
            ConversationMessage::at(MessageRole::Assistant, response, now),
            now,
        );
        self.store(String::from_str(session_id), conversation.clone());
        Ok(conversation)
    }

    /// Builds the prompt that asks the assistant for its next message.
    pub fn build_prompt(&self, conversation: &PrdConversation) -> (prompt: String)
        ensures
            prompt@ == prompt_of(conversation@.messages),
    {
        build_prompt(conversation)
    }

    /// Finds the requirements document in a response of the assistant.
    pub fn extract_prd(&self, response: &str) -> (prd: Option<String>)
        ensures
            optional_text(prd) == extracted_prd(response@),
    {
        extract_prd(response)
    }

    /// Forgets the conversation of a session.
    pub fn delete_conversation(&mut self, session_id: &str)
        requires
            old(self).wf(),
        ensures
            final(self).wf(),
            final(self)@ == old(self)@.remove(session_id@),
    {
        let ghost before = self.conversations@;
        let _ = self.conversations.remove(session_id);
        assert(conversation_views(before.remove(session_id@)) =~= conversation_views(
            before,
        ).remove(session_id@));
    }
}

} // verus!
