//! Conversation state and the per-turn update rules.
//!
//! A session holds an ordered [`History`] of role-tagged messages. A turn
//! appends the user's prompt, sends a snapshot of the whole history to the
//! remote model, and, on success, appends the first returned candidate.
//! A failed turn leaves the user message in place with no rollback.
use vstd::prelude::*;

verus! {

/// Who authored a message.
#[derive(Clone, Copy, PartialEq, Eq, Structural, Debug)]
pub enum Role {
    User,
    Assistant,
    System,
}

/// One entry of the conversation: a role and its text.
pub struct Message {
    pub role: Role,
    pub content: String,
}

/// The mathematical value of a [`Message`]: its role and its text as a
/// sequence of characters.
pub struct MessageModel {
    pub role: Role,
    pub content: Seq<char>,
}

impl View for Message {
    type V = MessageModel;

    open spec fn view(&self) -> MessageModel {
        MessageModel { role: self.role, content: self.content@ }
    }
}

/// The user message that a prompt turns into.
pub open spec fn user_message(prompt: Seq<char>) -> MessageModel {
    MessageModel { role: Role::User, content: prompt }
}

/// The ordered conversation history of the session, grown on every turn and
/// sent whole to the remote model. Its view is the sequence of message models
/// in insertion order.
pub struct History {
    messages: Vec<Message>,
}

impl View for History {
    type V = Seq<MessageModel>;

    closed spec fn view(&self) -> Seq<MessageModel> {
        self.messages@.map_values(|m: Message| m@)
    }
}

impl History {
    /// A session starts with no messages.
    pub fn new() -> (h: History)
        ensures
            h@ == Seq::<MessageModel>::empty(),
    {
        let h = History { messages: Vec::new() };
        proof {
            assert(h@ =~= Seq::<MessageModel>::empty());
        }
        h
    }

    /// How many messages the history holds.
    pub fn len(&self) -> (n: usize)
        ensures
            n == self@.len(),
    {
        self.messages.len()
    }

    /// The message at position `i`.
    pub fn get(&self, i: usize) -> (m: &Message)
        requires
            i < self@.len(),
        ensures
            m@ == self@[i as int],
    {
        &self.messages[i]
    }

    /// Appends one message at the end; all earlier entries keep their place.
    pub fn append(&mut self, m: Message)
        ensures
            final(self)@ == old(self)@.push(m@),
    {
        let ghost before = self.messages@;
        self.messages.push(m);
        proof {
            assert(self@ =~= before.map_values(|x: Message| x@).push(m@));
        }
    }

    /// Empties the history, whatever it held.
    pub fn clear(&mut self)
        ensures
            final(self)@ == Seq::<MessageModel>::empty(),
    {
        self.messages.clear();
        proof {
            assert(self@ =~= Seq::<MessageModel>::empty());
        }
    }

    /// A copy of the history, used to build an outbound request without
    /// touching the authoritative state. Mutating the copy, or the history
    /// afterwards, leaves the other untouched.
    pub fn snapshot(&self) -> (v: Vec<Message>)
        ensures
            v@.map_values(|m: Message| m@) == self@,
    {
        let mut v: Vec<Message> = Vec::new();
        let mut i: usize = 0;
        while i < self.messages.len()
            invariant
                0 <= i <= self.messages@.len(),
                v@.len() == i,
                forall|j: int| 0 <= j < i ==> v@[j]@ == self.messages@[j]@,
            decreases self.messages@.len() - i,
        {
            let m = &self.messages[i];
            v.push(Message { role: m.role, content: m.content.clone() });
            i += 1;
        }
        proof {
            assert(v@.map_values(|m: Message| m@) =~= self@);
        }
        v
    }
}

/// Why a turn, or the whole session, failed.
#[derive(Debug)]
pub enum ChatError {
    /// The API key environment variable was not set, so no call can be made.
    ConfigMissing,
    /// The transport failed before a response body was obtained; the message
    /// is the transport's own description.
    TransportFailure(String),
    /// The remote model answered with an empty candidate list.
    EmptyResponse,
    /// The response body could not be read as a candidate list; the message
    /// is the parser's own description.
    ParseFailure(String),
}

/// The text that is shown to the user for each error.
pub open spec fn error_text(e: ChatError) -> Seq<char> {
    match e {
        ChatError::ConfigMissing => "Please set your API key in the OPENROUTER_API_KEY environment variable."@,
        ChatError::TransportFailure(m) => m@,
        ChatError::EmptyResponse => "No content found in response"@,
        ChatError::ParseFailure(m) => m@,
    }
}

impl ChatError {
    /// The human-readable message for this error.
    pub fn describe(&self) -> (s: String)
        ensures
            s@ == error_text(*self),
    {
        match self {
            ChatError::ConfigMissing => "Please set your API key in the OPENROUTER_API_KEY environment variable.".to_owned(),
            ChatError::TransportFailure(m) => m.clone(),
            ChatError::EmptyResponse => "No content found in response".to_owned(),
            ChatError::ParseFailure(m) => m.clone(),
        }
    }
}

/// What came back from one remote call, as the loop hands it to
/// [`complete_turn`]: either the candidate list of a parsed response, or the
/// description of a transport or parse failure.
pub enum CallOutcome {
    Response(Vec<Message>),
    TransportFailed(String),
    ParseFailed(String),
}

/// The mathematical value of a [`CallOutcome`].
pub enum OutcomeModel {
    Response(Seq<MessageModel>),
    TransportFailed(Seq<char>),
    ParseFailed(Seq<char>),
}

impl View for CallOutcome {
    type V = OutcomeModel;

    open spec fn view(&self) -> OutcomeModel {
        match self {
            CallOutcome::Response(v) => OutcomeModel::Response(v@.map_values(|m: Message| m@)),
            CallOutcome::TransportFailed(m) => OutcomeModel::TransportFailed(m@),
            CallOutcome::ParseFailed(m) => OutcomeModel::ParseFailed(m@),
        }
    }
}

/// The history right after a prompt is accepted: the user message is
/// appended before the remote call is made.
pub open spec fn history_after_begin(h: Seq<MessageModel>, prompt: Seq<char>) -> Seq<MessageModel> {
    h.push(user_message(prompt))
}

/// A turn succeeds exactly when the call produced a response with at least
/// one candidate.
pub open spec fn turn_succeeds(out: OutcomeModel) -> bool {
    out matches OutcomeModel::Response(c) && c.len() > 0
}

/// The text a successful turn returns: the first candidate's content.
pub open spec fn turn_reply(out: OutcomeModel) -> Seq<char>
    recommends
        turn_succeeds(out),
{
    out->Response_0[0].content
}

/// The history after the outcome of the call is applied: a successful turn
/// appends the first candidate; a failed one changes nothing, so the user
/// message appended by [`begin_turn`] stays with no assistant reply paired
/// to it.
pub open spec fn history_after_complete(h: Seq<MessageModel>, out: OutcomeModel) -> Seq<MessageModel> {
    if turn_succeeds(out) {
        h.push(out->Response_0[0])
    } else {
        h
    }
}

/// Starts a turn: appends the user's prompt to the history. This happens
/// before the remote call, and is not rolled back if the call later fails.
pub fn begin_turn(history: &mut History, prompt: &str)
    ensures
        final(history)@ == history_after_begin(old(history)@, prompt@),
{
    history.append(Message { role: Role::User, content: prompt.to_owned() });
}

/// Finishes a turn with what the remote call produced. With at least one
/// candidate, the first is appended to the history and its content returned;
/// with none, or after a transport or parse failure, the history is left as
/// it is and the error is returned to the caller.
pub fn complete_turn(history: &mut History, outcome: CallOutcome) -> (r: Result<String, ChatError>)
    ensures
        final(history)@ == history_after_complete(old(history)@, outcome@),
        turn_succeeds(outcome@) ==> (r matches Ok(t) && t@ == turn_reply(outcome@)),
        !turn_succeeds(outcome@) ==> r matches Err(_),
        (outcome@ matches OutcomeModel::Response(c) && c.len() == 0)
            ==> r == Result::<String, ChatError>::Err(ChatError::EmptyResponse),
        outcome matches CallOutcome::TransportFailed(m)
            ==> r == Result::<String, ChatError>::Err(ChatError::TransportFailure(m)),
        outcome matches CallOutcome::ParseFailed(m)
            ==> r == Result::<String, ChatError>::Err(ChatError::ParseFailure(m)),
{
    match outcome {
        CallOutcome::Response(mut cands) => {
            if cands.len() > 0 {
                let first = cands.remove(0);
                let reply = first.content.clone();
                history.append(first);
                Ok(reply)
            } else {
                Err(ChatError::EmptyResponse)
            }
        },
        CallOutcome::TransportFailed(m) => Err(ChatError::TransportFailure(m)),
        CallOutcome::ParseFailed(m) => Err(ChatError::ParseFailure(m)),
    }
}

/// Law: a successful turn grows the history by exactly two entries — the
/// user's message and then the first returned candidate, in that order —
/// and everything already in the history stays as it was.
pub proof fn lemma_successful_turn_growth(h: Seq<MessageModel>, prompt: Seq<char>, out: OutcomeModel)
    requires
        turn_succeeds(out),
    ensures
        ({
            let h2 = history_after_complete(history_after_begin(h, prompt), out);
            &&& h2.len() == h.len() + 2
            &&& h2[h.len() as int] == user_message(prompt)
            &&& h2[h.len() as int].role == Role::User
            &&& h2[h.len() as int + 1] == out->Response_0[0]
            &&& h2.take(h.len() as int) == h
        }),
{
    let h2 = history_after_complete(history_after_begin(h, prompt), out);
    assert(h2.take(h.len() as int) =~= h);
}

/// Law: a failed turn grows the history by exactly one entry, the user's
/// message, left unpaired at the end; everything already in the history
/// stays as it was. That an error is returned to the caller is part of
/// [`complete_turn`]'s contract.
pub proof fn lemma_failed_turn_growth(h: Seq<MessageModel>, prompt: Seq<char>, out: OutcomeModel)
    requires
        !turn_succeeds(out),
    ensures
        ({
            let h2 = history_after_complete(history_after_begin(h, prompt), out);
            &&& h2.len() == h.len() + 1
            &&& h2[h.len() as int] == user_message(prompt)
            &&& h2.take(h.len() as int) == h
        }),
{
    let h2 = history_after_complete(history_after_begin(h, prompt), out);
    assert(h2.take(h.len() as int) =~= h);
}

/// Law: once the history is cleared, the next turn starts with no prior
/// context — the request built after its prompt holds exactly the one new
/// user message.
pub proof fn lemma_cleared_turn_starts_fresh(prompt: Seq<char>)
    ensures
        history_after_begin(Seq::<MessageModel>::empty(), prompt) == seq![user_message(prompt)],
{
    assert(history_after_begin(Seq::<MessageModel>::empty(), prompt) =~= seq![
        user_message(prompt),
    ]);
}

/// The wire name of each role, as the remote protocol spells it.
pub open spec fn role_label_spec(r: Role) -> Seq<char> {
    match r {
        Role::User => "user"@,
        Role::Assistant => "assistant"@,
        Role::System => "system"@,
    }
}

/// The wire name of a role.
pub fn role_label(r: Role) -> (s: String)
    ensures
        s@ == role_label_spec(r),
{
    match r {
        Role::User => "user".to_owned(),
        Role::Assistant => "assistant".to_owned(),
        Role::System => "system".to_owned(),
    }
}

/// The role a wire name stands for, or `None` for any other text.
pub fn role_from_label(s: &str) -> (r: Option<Role>)
    ensures
        r == (if s@ == "user"@ {
            Some(Role::User)
        } else if s@ == "assistant"@ {
            Some(Role::Assistant)
        } else if s@ == "system"@ {
            Some(Role::System)
        } else {
            None::<Role>
        }),
{
    if crate::text::str_eq(s, "user") {
        Some(Role::User)
    } else if crate::text::str_eq(s, "assistant") {
        Some(Role::Assistant)
    } else if crate::text::str_eq(s, "system") {
        Some(Role::System)
    } else {
        None
    }
}

} // verus!
