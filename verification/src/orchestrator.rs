//! The reply orchestrator.
//!
//! A run forwards the newest user turn of one conversation to the completion
//! provider and reports progress over a named event channel. The pre-flight
//! check refuses a conversation whose newest message was not authored by the
//! user, before any provider call is made. A blocking run hands the persisted
//! bot message back to its caller. A detached run is a state machine: the
//! surrounding process performs one instructed action at a time (emit an
//! event, register or release the cancellation subscription, call the
//! provider, persist the reply) and feeds the outcome back through [`DetachedRun::step`].
//!
//! Protocol on the wire: `Start`, then the reply text or an error frame, then
//! `Done` after a reply; each emission is retried at most once and a double
//! failure is swallowed. The reply is persisted exactly when the completion
//! step succeeded, whatever became of the emissions, and the cancellation
//! subscription is released on every exit path.

use vstd::prelude::*;

use crate::db::{
    conversation_with_id, model_with_id, msgs_of, Repository, StoreV,
};
use crate::entities::{
    Message, MessageV, Model, ModelV, NewMessage, NewMessageV, ProviderOptions, Roles,
};
use crate::errors::{CommandError, CommandErrorV};
use crate::text::{int_seq, int_string};

verus! {

/// Everything the completion provider needs for one run: the newest user
/// message, the conversation's options blob and its model configuration.
pub struct RunInput {
    pub last_message: Message,
    pub options: ProviderOptions,
    pub config: Model,
}

/// Image of a run input.
#[verifier::ext_equal]
pub struct RunInputV {
    pub last: MessageV,
    pub options: Seq<char>,
    pub config: ModelV,
}

impl View for RunInput {
    type V = RunInputV;

    open spec fn view(&self) -> RunInputV {
        RunInputV {
            last: self.last_message@,
            options: self.options@,
            config: self.config@,
        }
    }
}

/// Outcome of the pre-flight check, over the store image.
pub enum PrepV {
    /// The newest message is user-authored and options and configuration
    /// resolve: the provider may be called.
    Ready { last: MessageV, options: Seq<char>, config: ModelV },
    /// The conversation has no messages.
    NoMessages,
    /// The newest message was not authored by the user.
    BotTurn,
    /// No conversation row carries the id.
    NoConversation,
    /// The conversation's model row is missing.
    NoModel,
}

/// The pre-flight check: resolve the newest message, refuse a non-user turn,
/// then resolve options and configuration.
pub open spec fn prepare_model(s: StoreV, conversation_id: int) -> PrepV {
    let ms = msgs_of(s.messages, conversation_id);
    if ms.len() == 0 {
        PrepV::NoMessages
    } else if ms.last().role != Roles::User.spec_code() {
        PrepV::BotTurn
    } else {
        match conversation_with_id(s.conversations, conversation_id) {
            Option::None => PrepV::NoConversation,
            Option::Some(c) => match model_with_id(s.models, c.model_id) {
                Option::None => PrepV::NoModel,
                Option::Some(m) => PrepV::Ready { last: ms.last(), options: c.options, config: m },
            },
        }
    }
}

/// The message of the invalid-state failure, naming the conversation.
pub open spec fn invalid_state_msg(conversation_id: int) -> Seq<char> {
    "The last message of conversation with id = "@ + int_seq(conversation_id)
        + " is not from user"@
}

/// A completion attempt on a conversation whose newest message was authored
/// by the bot is refused by the pre-flight check, so no provider call is
/// ever made for it: a run machine only exists for a `Ready` outcome.
pub proof fn lemma_bot_turn_rejected(s: StoreV, conversation_id: int)
    requires
        msgs_of(s.messages, conversation_id).len() > 0,
        msgs_of(s.messages, conversation_id).last().role != Roles::User.spec_code(),
    ensures
        prepare_model(s, conversation_id) is BotTurn,
{
}

/// Resolve the newest message, options and configuration of a conversation,
/// refusing a turn whose newest message is not user-authored. No provider
/// call is made here; a storage or state failure aborts the run before any
/// event is emitted.
pub fn prepare_bot_reply(repo: &Repository, conversation_id: i32) -> (r: Result<
    RunInput,
    CommandError,
>)
    ensures
        match prepare_model(repo@, conversation_id as int) {
            PrepV::Ready { last, options, config } => r matches Ok(inp) && inp@ == (RunInputV {
                last,
                options,
                config,
            }),
            PrepV::BotTurn => r matches Err(e) && e@ == (CommandErrorV::StateError {
                message: invalid_state_msg(conversation_id as int),
            }),
            PrepV::NoMessages => r matches Err(e) && e@ == (CommandErrorV::DbError {
                message: "Not found"@,
            }),
            PrepV::NoConversation => r matches Err(e) && e@ == (CommandErrorV::DbError {
                message: "Not found"@,
            }),
            PrepV::NoModel => r matches Err(e) && e@ == (CommandErrorV::DbError {
                message: "Not found"@,
            }),
        },
{
    let last_message = match repo.get_last_message(conversation_id) {
        Result::Ok(m) => m,
        Result::Err(message) => {
            return Result::Err(CommandError::DbError { message });
        },
    };
    if last_message.role != Roles::User.code() {
        let message = "The last message of conversation with id = ".to_owned().concat(
            int_string(conversation_id).as_str(),
        ).concat(" is not from user");
        return Result::Err(CommandError::StateError { message });
    }
    let options = match repo.get_conversation_options(conversation_id) {
        Result::Ok(o) => o,
        Result::Err(message) => {
            return Result::Err(CommandError::DbError { message });
        },
    };
    let config = match repo.get_conversation_config(conversation_id) {
        Result::Ok(m) => m,
        Result::Err(message) => {
            return Result::Err(CommandError::DbError { message });
        },
    };
    Result::Ok(RunInput { last_message, options, config })
}

/// Resolve the model configuration behind a message's conversation, for the
/// blocking call that starts from a message instead of a conversation id.
pub fn prepare_bot_call(repo: &Repository, user_message: &Message) -> (r: Result<
    Model,
    CommandError,
>)
    ensures
        match conversation_with_id(repo@.conversations, user_message@.conversation_id) {
            Option::Some(c) => match model_with_id(repo@.models, c.model_id) {
                Option::Some(m) => r matches Ok(x) && x@ == m,
                Option::None => r matches Err(e) && e@ == (CommandErrorV::DbError {
                    message: "Not found"@,
                }),
            },
            Option::None => r matches Err(e) && e@ == (CommandErrorV::DbError {
                message: "Not found"@,
            }),
        },
{
    match repo.get_model_of_message(user_message) {
        Result::Ok(m) => Result::Ok(m),
        Result::Err(message) => Result::Err(CommandError::DbError { message }),
    }
}

/// Conclude a blocking run from the provider's outcome: persist and return
/// the bot message on success; on failure, surface the cause verbatim and
/// persist nothing.
pub fn record_bot_reply(
    repo: &mut Repository,
    conversation_id: i32,
    outcome: Result<String, String>,
) -> (r: Result<Message, CommandError>)
    requires
        old(repo).wf(),
        old(repo).has_room(),
    ensures
        final(repo).wf(),
        match outcome {
            Result::Ok(reply) => r matches Ok(m) && m@ == (MessageV {
                id: old(repo)@.next_message_id,
                conversation_id: conversation_id as int,
                role: Roles::Bot.spec_code(),
                content: reply@,
                created_at: old(repo)@.clock,
            }) && final(repo)@ == (StoreV {
                messages: old(repo)@.messages.push(m@),
                next_message_id: old(repo)@.next_message_id + 1,
                clock: old(repo)@.clock + 1,
                ..old(repo)@
            }),
            Result::Err(cause) => r matches Err(e) && e@ == (CommandErrorV::ApiError {
                message: cause@,
            }) && final(repo)@ == old(repo)@,
        },
{
    match outcome {
        Result::Ok(reply) => {
            let bot_message = NewMessage {
                conversation_id,
                role: Roles::Bot.code(),
                content: reply,
            };
            match repo.create_message(bot_message) {
                Result::Ok(m) => Result::Ok(m),
                Result::Err(message) => Result::Err(CommandError::DbError { message }),
            }
        },
        Result::Err(message) => Result::Err(CommandError::ApiError { message }),
    }
}

/// A protocol event of one run, as a subscriber understands it.
#[verifier::ext_equal]
pub enum EventV {
    Start,
    Chunk(Seq<char>),
    Done,
    Error(Seq<char>),
}

/// The framing sentinel that opens a run.
pub open spec fn start_frame() -> Seq<char> {
    "[[START]]"@
}

/// The framing sentinel that closes a successful run.
pub open spec fn done_frame() -> Seq<char> {
    "[[DONE]]"@
}

/// The framed payload of a failed run: the error sentinel followed by the
/// cause.
pub open spec fn error_frame(cause: Seq<char>) -> Seq<char> {
    "[[ERROR]]"@ + cause
}

/// The event name a run emits its progress on.
pub fn reply_event_name() -> (r: &'static str)
    ensures
        r@ == "bot-reply"@,
{
    "bot-reply"
}

/// The event name that carries a cancellation request toward the active run.
pub fn cancel_event_name() -> (r: &'static str)
    ensures
        r@ == "stop-bot"@,
{
    "stop-bot"
}

/// The wire payload that opens a run.
pub fn start_payload() -> (r: String)
    ensures
        r@ == start_frame(),
{
    "[[START]]".to_owned()
}

/// The wire payload that closes a successful run.
pub fn done_payload() -> (r: String)
    ensures
        r@ == done_frame(),
{
    "[[DONE]]".to_owned()
}

/// The wire payload of a failed run.
pub fn error_payload(cause: &String) -> (r: String)
    ensures
        r@ == error_frame(cause@),
{
    "[[ERROR]]".to_owned().concat(cause.as_str())
}

/// Where a detached run stands. An emitting phase means the named emission
/// was instructed and its outcome is awaited; a retry phase means the first
/// attempt failed and the single retry is under way.
#[derive(Clone, Copy, PartialEq, Eq, Structural, Debug)]
pub enum RunPhase {
    StartEmit,
    StartRetry,
    Subscribing,
    Calling,
    ReplyEmit,
    ReplyRetry,
    DoneEmit,
    DoneRetry,
    Persisting,
    ErrorEmit,
    ErrorRetry,
    Unsubscribing,
    Finished,
}

/// What the surrounding process reports back after performing an action.
pub enum RunEvent {
    /// Whether an instructed emission reached a subscriber.
    Emitted(bool),
    /// The cancellation subscription is registered.
    Subscribed,
    /// The provider call returned: the assembled reply text, or a cause.
    Completed(Result<String, String>),
    /// The bot message was handed to the store.
    Persisted,
    /// The cancellation subscription is released.
    Unsubscribed,
}

/// Image of a run event.
#[verifier::ext_equal]
pub enum RunEventV {
    Emitted(bool),
    Subscribed,
    Completed(Result<Seq<char>, Seq<char>>),
    Persisted,
    Unsubscribed,
}

impl View for RunEvent {
    type V = RunEventV;

    open spec fn view(&self) -> RunEventV {
        match self {
            RunEvent::Emitted(b) => RunEventV::Emitted(*b),
            RunEvent::Subscribed => RunEventV::Subscribed,
            RunEvent::Completed(outcome) => RunEventV::Completed(
                match outcome {
                    Result::Ok(reply) => Result::Ok(reply@),
                    Result::Err(cause) => Result::Err(cause@),
                },
            ),
            RunEvent::Persisted => RunEventV::Persisted,
            RunEvent::Unsubscribed => RunEventV::Unsubscribed,
        }
    }
}

/// What the surrounding process is instructed to do next.
pub enum RunAction {
    /// Emit this payload on the reply event name.
    Emit(String),
    /// Register the cancellation subscription for this run.
    Subscribe,
    /// Call the completion provider with the run's message, options and
    /// configuration.
    CallProvider(Message, ProviderOptions, Model),
    /// Hand this bot message to the store.
    Persist(NewMessage),
    /// Release the cancellation subscription.
    Unsubscribe,
}

/// Image of a run action.
#[verifier::ext_equal]
pub enum RunActionV {
    Emit(Seq<char>),
    Subscribe,
    CallProvider(MessageV, Seq<char>, ModelV),
    Persist(NewMessageV),
    Unsubscribe,
}

impl View for RunAction {
    type V = RunActionV;

    open spec fn view(&self) -> RunActionV {
        match self {
            RunAction::Emit(payload) => RunActionV::Emit(payload@),
            RunAction::Subscribe => RunActionV::Subscribe,
            RunAction::CallProvider(m, o, c) => RunActionV::CallProvider(m@, o@, c@),
            RunAction::Persist(m) => RunActionV::Persist(m@),
            RunAction::Unsubscribe => RunActionV::Unsubscribe,
        }
    }
}

pub open spec fn action_view(a: Option<RunAction>) -> Option<RunActionV> {
    match a {
        Option::Some(x) => Option::Some(x@),
        Option::None => Option::None,
    }
}

/// Image of a detached run: the phase, the run input, the provider outcome
/// seen so far, and the run's observable history — protocol events in order,
/// one delivery flag per concluded emission, whether the cancellation
/// subscription may still be registered, how many provider calls were
/// instructed, and every message handed to the store.
#[verifier::ext_equal]
pub struct DetachedRunV {
    pub phase: RunPhase,
    pub input: RunInputV,
    pub reply: Option<Seq<char>>,
    pub cause: Option<Seq<char>>,
    pub events: Seq<EventV>,
    pub flags: Seq<bool>,
    pub listening: bool,
    pub calls: nat,
    pub persisted: Seq<NewMessageV>,
}

/// The bot message a run persists on success.
pub open spec fn bot_message_of(input: RunInputV, reply: Seq<char>) -> NewMessageV {
    NewMessageV {
        conversation_id: input.last.conversation_id,
        role: Roles::Bot.spec_code(),
        content: reply,
    }
}

impl DetachedRunV {
    /// Which report a phase awaits.
    pub open spec fn expects(self, e: RunEventV) -> bool {
        match self.phase {
            RunPhase::StartEmit => e is Emitted,
            RunPhase::StartRetry => e is Emitted,
            RunPhase::ReplyEmit => e is Emitted,
            RunPhase::ReplyRetry => e is Emitted,
            RunPhase::DoneEmit => e is Emitted,
            RunPhase::DoneRetry => e is Emitted,
            RunPhase::ErrorEmit => e is Emitted,
            RunPhase::ErrorRetry => e is Emitted,
            RunPhase::Subscribing => e is Subscribed,
            RunPhase::Calling => e is Completed,
            RunPhase::Persisting => e is Persisted,
            RunPhase::Unsubscribing => e is Unsubscribed,
            RunPhase::Finished => false,
        }
    }

    /// Well-formedness: the run began with a user-authored turn, and the
    /// observable history matches the phase exactly.
    pub open spec fn wf(self) -> bool {
        &&& self.input.last.role == Roles::User.spec_code()
        &&& match self.phase {
            RunPhase::StartEmit | RunPhase::StartRetry => {
                &&& self.events == seq![EventV::Start]
                &&& self.flags.len() == 0
                &&& !self.listening
                &&& self.calls == 0
                &&& self.persisted.len() == 0
                &&& self.reply is None
                &&& self.cause is None
            },
            RunPhase::Subscribing => {
                &&& self.events == seq![EventV::Start]
                &&& self.flags.len() == 1
                &&& self.listening
                &&& self.calls == 0
                &&& self.persisted.len() == 0
                &&& self.reply is None
                &&& self.cause is None
            },
            RunPhase::Calling => {
                &&& self.events == seq![EventV::Start]
                &&& self.flags.len() == 1
                &&& self.listening
                &&& self.calls == 1
                &&& self.persisted.len() == 0
                &&& self.reply is None
                &&& self.cause is None
            },
            RunPhase::ReplyEmit | RunPhase::ReplyRetry => {
                &&& self.reply matches Some(r) && self.events == seq![
                    EventV::Start,
                    EventV::Chunk(r),
                ]
                &&& self.flags.len() == 1
                &&& self.listening
                &&& self.calls == 1
                &&& self.persisted.len() == 0
                &&& self.cause is None
            },
            RunPhase::DoneEmit | RunPhase::DoneRetry => {
                &&& self.reply matches Some(r) && self.events == seq![
                    EventV::Start,
                    EventV::Chunk(r),
                    EventV::Done,
                ]
                &&& self.flags.len() == 2
                &&& self.listening
                &&& self.calls == 1
                &&& self.persisted.len() == 0
                &&& self.cause is None
            },
            RunPhase::Persisting => {
                &&& self.reply matches Some(r) && self.events == seq![
                    EventV::Start,
                    EventV::Chunk(r),
                    EventV::Done,
                ] && self.persisted == seq![bot_message_of(self.input, r)]
                &&& self.flags.len() == 3
                &&& self.listening
                &&& self.calls == 1
                &&& self.cause is None
            },
            RunPhase::ErrorEmit | RunPhase::ErrorRetry => {
                &&& self.cause matches Some(c) && self.events == seq![
                    EventV::Start,
                    EventV::Error(c),
                ]
                &&& self.flags.len() == 1
                &&& self.listening
                &&& self.calls == 1
                &&& self.persisted.len() == 0
                &&& self.reply is None
            },
            RunPhase::Unsubscribing | RunPhase::Finished => {
                &&& (self.listening <==> self.phase is Unsubscribing)
                &&& self.flags.len() == self.events.len()
                &&& self.calls == 1
                &&& ((self.reply matches Some(r) && self.cause is None && self.events == seq![
                    EventV::Start,
                    EventV::Chunk(r),
                    EventV::Done,
                ] && self.persisted == seq![bot_message_of(self.input, r)]) || (
                self.cause matches Some(c) && self.reply is None && self.events == seq![
                    EventV::Start,
                    EventV::Error(c),
                ] && self.persisted.len() == 0))
            },
        }
    }
}

/// The transition function of a detached run: from a state and a report, the
/// next state and the next instruction. A finished run, or a report the
/// phase does not await, changes nothing.
pub open spec fn machine_next(pre: DetachedRunV, event: RunEventV) -> (DetachedRunV, Option<
    RunActionV,
>) {
    match (pre.phase, event) {
        (RunPhase::StartEmit, RunEventV::Emitted(delivered)) => {
            if delivered {
                (
                    DetachedRunV {
                        phase: RunPhase::Subscribing,
                        flags: pre.flags.push(true),
                        listening: true,
                        ..pre
                    },
                    Option::Some(RunActionV::Subscribe),
                )
            } else {
                (
                    DetachedRunV { phase: RunPhase::StartRetry, ..pre },
                    Option::Some(RunActionV::Emit(start_frame())),
                )
            }
        },
        (RunPhase::StartRetry, RunEventV::Emitted(delivered)) => (
            DetachedRunV {
                phase: RunPhase::Subscribing,
                flags: pre.flags.push(delivered),
                listening: true,
                ..pre
            },
            Option::Some(RunActionV::Subscribe),
        ),
        (RunPhase::Subscribing, RunEventV::Subscribed) => (
            DetachedRunV { phase: RunPhase::Calling, calls: pre.calls + 1, ..pre },
            Option::Some(
                RunActionV::CallProvider(pre.input.last, pre.input.options, pre.input.config),
            ),
        ),
        (RunPhase::Calling, RunEventV::Completed(outcome)) => match outcome {
            Result::Ok(reply) => (
                DetachedRunV {
                    phase: RunPhase::ReplyEmit,
                    reply: Option::Some(reply),
                    events: pre.events.push(EventV::Chunk(reply)),
                    ..pre
                },
                Option::Some(RunActionV::Emit(reply)),
            ),
            Result::Err(cause) => (
                DetachedRunV {
                    phase: RunPhase::ErrorEmit,
                    cause: Option::Some(cause),
                    events: pre.events.push(EventV::Error(cause)),
                    ..pre
                },
                Option::Some(RunActionV::Emit(error_frame(cause))),
            ),
        },
        (RunPhase::ReplyEmit, RunEventV::Emitted(delivered)) => {
            if delivered {
                (
                    DetachedRunV {
                        phase: RunPhase::DoneEmit,
                        flags: pre.flags.push(true),
                        events: pre.events.push(EventV::Done),
                        ..pre
                    },
                    Option::Some(RunActionV::Emit(done_frame())),
                )
            } else {
                (
                    DetachedRunV { phase: RunPhase::ReplyRetry, ..pre },
                    Option::Some(RunActionV::Emit(pre.reply->Some_0)),
                )
            }
        },
        (RunPhase::ReplyRetry, RunEventV::Emitted(delivered)) => (
            DetachedRunV {
                phase: RunPhase::DoneEmit,
                flags: pre.flags.push(delivered),
                events: pre.events.push(EventV::Done),
                ..pre
            },
            Option::Some(RunActionV::Emit(done_frame())),
        ),
        (RunPhase::DoneEmit, RunEventV::Emitted(delivered)) => {
            if delivered {
                (
                    DetachedRunV {
                        phase: RunPhase::Persisting,
                        flags: pre.flags.push(true),
                        persisted: pre.persisted.push(
                            bot_message_of(pre.input, pre.reply->Some_0),
                        ),
                        ..pre
                    },
                    Option::Some(
                        RunActionV::Persist(bot_message_of(pre.input, pre.reply->Some_0)),
                    ),
                )
            } else {
                (
                    DetachedRunV { phase: RunPhase::DoneRetry, ..pre },
                    Option::Some(RunActionV::Emit(done_frame())),
                )
            }
        },
        (RunPhase::DoneRetry, RunEventV::Emitted(delivered)) => (
            DetachedRunV {
                phase: RunPhase::Persisting,
                flags: pre.flags.push(delivered),
                persisted: pre.persisted.push(bot_message_of(pre.input, pre.reply->Some_0)),
                ..pre
            },
            Option::Some(RunActionV::Persist(bot_message_of(pre.input, pre.reply->Some_0))),
        ),
        (RunPhase::Persisting, RunEventV::Persisted) => (
            DetachedRunV { phase: RunPhase::Unsubscribing, ..pre },
            Option::Some(RunActionV::Unsubscribe),
        ),
        (RunPhase::ErrorEmit, RunEventV::Emitted(delivered)) => {
            if delivered {
                (
                    DetachedRunV {
                        phase: RunPhase::Unsubscribing,
                        flags: pre.flags.push(true),
                        ..pre
                    },
                    Option::Some(RunActionV::Unsubscribe),
                )
            } else {
                (
                    DetachedRunV { phase: RunPhase::ErrorRetry, ..pre },
                    Option::Some(RunActionV::Emit(error_frame(pre.cause->Some_0))),
                )
            }
        },
        (RunPhase::ErrorRetry, RunEventV::Emitted(delivered)) => (
            DetachedRunV {
                phase: RunPhase::Unsubscribing,
                flags: pre.flags.push(delivered),
                ..pre
            },
            Option::Some(RunActionV::Unsubscribe),
        ),
        (RunPhase::Unsubscribing, RunEventV::Unsubscribed) => (
            DetachedRunV { phase: RunPhase::Finished, listening: false, ..pre },
            Option::None,
        ),
        _ => (pre, Option::None),
    }
}

/// One detached run, driven by the surrounding process: it performs each
/// returned action and reports the outcome through [`Self::step`].
pub struct DetachedRun {
    pub phase: RunPhase,
    pub input: RunInput,
    pub reply: Option<String>,
    pub cause: Option<String>,
    pub events: Ghost<Seq<EventV>>,
    pub flags: Ghost<Seq<bool>>,
    pub listening: Ghost<bool>,
    pub calls: Ghost<nat>,
    pub persisted: Ghost<Seq<NewMessageV>>,
}

impl View for DetachedRun {
    type V = DetachedRunV;

    open spec fn view(&self) -> DetachedRunV {
        DetachedRunV {
            phase: self.phase,
            input: self.input@,
            reply: match self.reply {
                Option::Some(r) => Option::Some(r@),
                Option::None => Option::None,
            },
            cause: match self.cause {
                Option::Some(c) => Option::Some(c@),
                Option::None => Option::None,
            },
            events: self.events@,
            flags: self.flags@,
            listening: self.listening@,
            calls: self.calls@,
            persisted: self.persisted@,
        }
    }
}

impl DetachedRun {
    /// Open a detached run for a validated turn. The first instruction, the
    /// opening emission, is returned alongside the machine.
    pub fn new(input: RunInput) -> (r: (DetachedRun, RunAction))
        requires
            input.last_message@.role == Roles::User.spec_code(),
        ensures
            r.0@.wf(),
            r.0@ == (DetachedRunV {
                phase: RunPhase::StartEmit,
                input: input@,
                reply: Option::None,
                cause: Option::None,
                events: seq![EventV::Start],
                flags: Seq::empty(),
                listening: false,
                calls: 0,
                persisted: Seq::empty(),
            }),
            r.1@ == RunActionV::Emit(start_frame()),
    {
        let action = RunAction::Emit(start_payload());
        let ghost opening: Seq<EventV> = seq![EventV::Start];
        let machine = DetachedRun {
            phase: RunPhase::StartEmit,
            input,
            reply: Option::None,
            cause: Option::None,
            events: Ghost(opening),
            flags: Ghost(Seq::empty()),
            listening: Ghost(false),
            calls: Ghost(0),
            persisted: Ghost(Seq::empty()),
        };
        (machine, action)
    }

    /// Feed back the outcome of the previous action; the machine moves one
    /// phase and returns the next instruction, or nothing once finished.
    pub fn step(&mut self, event: RunEvent) -> (action: Option<RunAction>)
        requires
            old(self)@.wf(),
            old(self)@.expects(event@),
        ensures
            final(self)@.wf(),
            (final(self)@, action_view(action)) == machine_next(old(self)@, event@),
    {
        let ghost pre = self@;
        let ghost eventv = event@;
        let action: Option<RunAction> = match (self.phase, event) {
            (RunPhase::StartEmit, RunEvent::Emitted(delivered)) => {
                if delivered {
                    self.phase = RunPhase::Subscribing;
                    proof {
                        self.flags@ = self.flags@.push(true);
                        self.listening@ = true;
                    }
                    Option::Some(RunAction::Subscribe)
                } else {
                    self.phase = RunPhase::StartRetry;
                    Option::Some(RunAction::Emit(start_payload()))
                }
            },
            (RunPhase::StartRetry, RunEvent::Emitted(delivered)) => {
                self.phase = RunPhase::Subscribing;
                proof {
                    self.flags@ = self.flags@.push(delivered);
                    self.listening@ = true;
                }
                Option::Some(RunAction::Subscribe)
            },
            (RunPhase::Subscribing, RunEvent::Subscribed) => {
                self.phase = RunPhase::Calling;
                proof {
                    self.calls@ = self.calls@ + 1;
                }
                Option::Some(
                    RunAction::CallProvider(
                        self.input.last_message.duplicate(),
                        self.input.options.duplicate(),
                        self.input.config.duplicate(),
                    ),
                )
            },
            (RunPhase::Calling, RunEvent::Completed(outcome)) => match outcome {
                Result::Ok(reply) => {
                    let payload = reply.clone();
                    self.phase = RunPhase::ReplyEmit;
                    proof {
                        self.events@ = self.events@.push(EventV::Chunk(reply@));
                    }
                    self.reply = Option::Some(reply);
                    Option::Some(RunAction::Emit(payload))
                },
                Result::Err(cause) => {
                    let payload = error_payload(&cause);
                    self.phase = RunPhase::ErrorEmit;
                    proof {
                        self.events@ = self.events@.push(EventV::Error(cause@));
                    }
                    self.cause = Option::Some(cause);
                    Option::Some(RunAction::Emit(payload))
                },
            },
            (RunPhase::ReplyEmit, RunEvent::Emitted(delivered)) => {
                if delivered {
                    self.phase = RunPhase::DoneEmit;
                    proof {
                        self.flags@ = self.flags@.push(true);
                        self.events@ = self.events@.push(EventV::Done);
                    }
                    Option::Some(RunAction::Emit(done_payload()))
                } else {
                    self.phase = RunPhase::ReplyRetry;
                    let payload = match &self.reply {
                        Option::Some(r) => r.clone(),
                        Option::None => String::new(),
                    };
                    Option::Some(RunAction::Emit(payload))
                }
            },
            (RunPhase::ReplyRetry, RunEvent::Emitted(delivered)) => {
                self.phase = RunPhase::DoneEmit;
                proof {
                    self.flags@ = self.flags@.push(delivered);
                    self.events@ = self.events@.push(EventV::Done);
                }
                Option::Some(RunAction::Emit(done_payload()))
            },
            (RunPhase::DoneEmit, RunEvent::Emitted(delivered)) => {
                if delivered {
                    self.phase = RunPhase::Persisting;
                    let bot_message = self.pending_bot_message();
                    proof {
                        self.flags@ = self.flags@.push(true);
                        self.persisted@ = self.persisted@.push(bot_message@);
                    }
                    Option::Some(RunAction::Persist(bot_message))
                } else {
                    self.phase = RunPhase::DoneRetry;
                    Option::Some(RunAction::Emit(done_payload()))
                }
            },
            (RunPhase::DoneRetry, RunEvent::Emitted(delivered)) => {
                self.phase = RunPhase::Persisting;
                let bot_message = self.pending_bot_message();
                proof {
                    self.flags@ = self.flags@.push(delivered);
                    self.persisted@ = self.persisted@.push(bot_message@);
                }
                Option::Some(RunAction::Persist(bot_message))
            },
            (RunPhase::Persisting, RunEvent::Persisted) => {
                self.phase = RunPhase::Unsubscribing;
                Option::Some(RunAction::Unsubscribe)
            },
            (RunPhase::ErrorEmit, RunEvent::Emitted(delivered)) => {
                if delivered {
                    self.phase = RunPhase::Unsubscribing;
                    proof {
                        self.flags@ = self.flags@.push(true);
                    }
                    Option::Some(RunAction::Unsubscribe)
                } else {
                    self.phase = RunPhase::ErrorRetry;
                    let payload = match &self.cause {
                        Option::Some(c) => error_payload(c),
                        Option::None => String::new(),
                    };
                    Option::Some(RunAction::Emit(payload))
                }
            },
            (RunPhase::ErrorRetry, RunEvent::Emitted(delivered)) => {
                self.phase = RunPhase::Unsubscribing;
                proof {
                    self.flags@ = self.flags@.push(delivered);
                }
                Option::Some(RunAction::Unsubscribe)
            },
            (RunPhase::Unsubscribing, RunEvent::Unsubscribed) => {
                self.phase = RunPhase::Finished;
                proof {
                    self.listening@ = false;
                }
                Option::None
            },
            _ => Option::None,
        };
        proof {
            assert(self@ =~= machine_next(pre, eventv).0);
            assert(action_view(action) =~= machine_next(pre, eventv).1);
            match pre.phase {
                RunPhase::Calling => match eventv {
                    RunEventV::Completed(outcome) => match outcome {
                        Result::Ok(r) => {
                            assert(pre.events.push(EventV::Chunk(r)) =~= seq![
                                EventV::Start,
                                EventV::Chunk(r),
                            ]);
                        },
                        Result::Err(c) => {
                            assert(pre.events.push(EventV::Error(c)) =~= seq![
                                EventV::Start,
                                EventV::Error(c),
                            ]);
                        },
                    },
                    _ => {},
                },
                RunPhase::ReplyEmit | RunPhase::ReplyRetry => {
                    assert(pre.events.push(EventV::Done) =~= seq![
                        EventV::Start,
                        EventV::Chunk(pre.reply->Some_0),
                        EventV::Done,
                    ]);
                },
                RunPhase::DoneEmit | RunPhase::DoneRetry => {
                    assert(pre.persisted.push(bot_message_of(pre.input, pre.reply->Some_0))
                        =~= seq![bot_message_of(pre.input, pre.reply->Some_0)]);
                },
                _ => {},
            }
        }
        action
    }

    /// The bot message this run will persist: the assembled reply, authored
    /// by the bot, attached to the run's conversation.
    fn pending_bot_message(&self) -> (r: NewMessage)
        requires
            self@.reply is Some,
        ensures
            r@ == bot_message_of(self@.input, self@.reply->Some_0),
    {
        let content = match &self.reply {
            Option::Some(r) => r.clone(),
            Option::None => String::new(),
        };
        NewMessage {
            conversation_id: self.input.last_message.conversation_id,
            role: Roles::Bot.code(),
            content,
        }
    }
}

/// The events a subscriber observed: those protocol events whose emission
/// (first try or the single retry) reached it.
pub open spec fn masked(events: Seq<EventV>, flags: Seq<bool>) -> Seq<EventV>
    recommends
        events.len() == flags.len(),
    decreases events.len(),
{
    if events.len() == 0 || flags.len() == 0 {
        Seq::empty()
    } else {
        let rest = masked(events.drop_last(), flags.drop_last());
        if flags.last() {
            rest.push(events.last())
        } else {
            rest
        }
    }
}

proof fn lemma_masked_all_true(events: Seq<EventV>, flags: Seq<bool>)
    requires
        events.len() == flags.len(),
        forall|k: int| 0 <= k < flags.len() ==> flags[k],
    ensures
        masked(events, flags) == events,
    decreases events.len(),
{
    if events.len() > 0 {
        lemma_masked_all_true(events.drop_last(), flags.drop_last());
        assert(masked(events, flags) =~= events);
    } else {
        assert(masked(events, flags) =~= events);
    }
}

/// The protocol of a finished run: the events are exactly `Start, Chunk,
/// Done` when the provider call succeeded and exactly `Start, Error` when it
/// failed; every protocol event's emission concluded; and when every
/// emission reached the subscriber, the observed sequence is the full
/// protocol in order.
pub proof fn lemma_run_event_protocol(m: DetachedRunV)
    requires
        m.wf(),
        m.phase is Finished,
    ensures
        m.flags.len() == m.events.len(),
        m.reply is Some <==> m.cause is None,
        m.reply matches Some(r) ==> m.events == seq![
            EventV::Start,
            EventV::Chunk(r),
            EventV::Done,
        ],
        m.cause matches Some(c) ==> m.events == seq![EventV::Start, EventV::Error(c)],
        (forall|k: int| 0 <= k < m.flags.len() ==> m.flags[k]) ==> masked(m.events, m.flags)
            == m.events,
{
    if forall|k: int| 0 <= k < m.flags.len() ==> m.flags[k] {
        lemma_masked_all_true(m.events, m.flags);
    }
}

/// Persistence of a finished run: the bot reply was handed to the store
/// exactly once when the completion step succeeded, and nothing was handed
/// to it when the step failed — independent of how the emissions fared.
pub proof fn lemma_run_persistence(m: DetachedRunV)
    requires
        m.wf(),
        m.phase is Finished,
    ensures
        m.reply matches Some(r) ==> m.persisted == seq![bot_message_of(m.input, r)],
        m.cause is Some ==> m.persisted == Seq::<NewMessageV>::empty(),
{
    if m.cause is Some {
        assert(m.persisted =~= Seq::<NewMessageV>::empty());
    }
}

/// Teardown of a finished run: the cancellation subscription is released on
/// every exit path, and the provider was called exactly once.
pub proof fn lemma_run_unsubscribed(m: DetachedRunV)
    requires
        m.wf(),
        m.phase is Finished,
    ensures
        !m.listening,
        m.calls == 1,
{
}

} // verus!
