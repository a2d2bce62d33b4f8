//! The command surface consumed from outside the core.
//!
//! Each command works on the store and maps its failure to the matching
//! command-level kind. The completion commands are split around the provider
//! call, which the surrounding process performs: see the orchestrator for
//! the pre-flight check, the blocking recorder and the detached run machine.

use vstd::prelude::*;

use crate::db::{
    conversation_items, conversation_with_id, deep_items, deep_messages, deep_models,
    deep_settings, msgs_of, set_options, upsert_model, Repository, StoreV,
};
use crate::entities::{
    Conversation, ConversationListItem, ConversationV, Message, MessageV, Model, ModelV,
    NewConversation, NewMessage, ProviderOptions, Roles, Setting,
};
use crate::errors::{CommandError, CommandErrorV};

verus! {

/// Insert a new model configuration.
pub fn create_model(model: Model, repo: &mut Repository) -> (r: Result<Model, CommandError>)
    requires
        old(repo).wf(),
        old(repo).has_room(),
    ensures
        final(repo).wf(),
        r matches Ok(m) && m@ == (ModelV {
            id: old(repo)@.next_model_id,
            provider: model@.provider,
            api_key: model@.api_key,
            created_at: old(repo)@.clock,
        }) && final(repo)@ == (StoreV {
            models: old(repo)@.models.push(m@),
            next_model_id: old(repo)@.next_model_id + 1,
            clock: old(repo)@.clock + 1,
            ..old(repo)@
        }),
{
    match repo.create_model(model) {
        Result::Ok(m) => Result::Ok(m),
        Result::Err(message) => Result::Err(CommandError::DbError { message }),
    }
}

/// All model configurations, in creation order.
pub fn list_models(repo: &Repository) -> (r: Result<Vec<Model>, CommandError>)
    ensures
        r matches Ok(v) && deep_models(v@) == repo@.models,
{
    match repo.list_models() {
        Result::Ok(v) => Result::Ok(v),
        Result::Err(message) => Result::Err(CommandError::DbError { message }),
    }
}

/// All settings, in creation order.
pub fn list_settings(repo: &Repository) -> (r: Result<Vec<Setting>, CommandError>)
    ensures
        r matches Ok(v) && deep_settings(v@) == repo@.settings,
{
    match repo.list_settings() {
        Result::Ok(v) => Result::Ok(v),
        Result::Err(message) => Result::Err(CommandError::DbError { message }),
    }
}

/// Write a setting: the value of an existing key is replaced, a new key is
/// inserted.
pub fn upsert_setting(setting: Setting, repo: &mut Repository) -> (r: Result<
    Setting,
    CommandError,
>)
    requires
        old(repo).wf(),
    ensures
        final(repo).wf(),
        r matches Ok(s) && s@ == setting@,
        final(repo)@ == (StoreV {
            settings: upsert_model(old(repo)@.settings, setting@),
            ..old(repo)@
        }),
{
    match repo.upsert_settings(setting) {
        Result::Ok(s) => Result::Ok(s),
        Result::Err(message) => Result::Err(CommandError::DbError { message }),
    }
}

/// Open a conversation: the conversation row and its user-authored seed
/// message are created as one unit, the message text doubling as subject.
pub fn create_conversation(new_conversation: NewConversation, repo: &mut Repository) -> (r: Result<
    Conversation,
    CommandError,
>)
    requires
        old(repo).wf(),
        old(repo).has_room(),
    ensures
        final(repo).wf(),
        r matches Ok(c) && c@ == (ConversationV {
            id: old(repo)@.next_conversation_id,
            model_id: new_conversation.model_id as int,
            subject: new_conversation.message@,
            options: Seq::<char>::empty(),
            created_at: old(repo)@.clock,
        }) && final(repo)@ == (StoreV {
            conversations: old(repo)@.conversations.push(c@),
            messages: old(repo)@.messages.push(
                MessageV {
                    id: old(repo)@.next_message_id,
                    conversation_id: old(repo)@.next_conversation_id,
                    role: Roles::User.spec_code(),
                    content: new_conversation.message@,
                    created_at: old(repo)@.clock,
                },
            ),
            next_conversation_id: old(repo)@.next_conversation_id + 1,
            next_message_id: old(repo)@.next_message_id + 1,
            clock: old(repo)@.clock + 1,
            ..old(repo)@
        }),
{
    let conversation = Conversation {
        id: 0,
        model_id: new_conversation.model_id,
        subject: new_conversation.message.clone(),
        options: String::new(),
        created_at: 0,
    };
    let message = Message {
        id: 0,
        conversation_id: 0,
        role: Roles::from_code(0).code(),
        content: new_conversation.message,
        created_at: 0,
    };
    match repo.create_conversation_with_message(conversation, message) {
        Result::Ok(pair) => Result::Ok(pair.0),
        Result::Err(message) => Result::Err(CommandError::DbError { message }),
    }
}

/// The conversation list: each conversation joined to its model's provider
/// name and to its message count.
pub fn list_conversations(repo: &Repository) -> (r: Result<
    Vec<ConversationListItem>,
    CommandError,
>)
    ensures
        r matches Ok(v) && deep_items(v@) == conversation_items(
            repo@.conversations,
            repo@.models,
            repo@.messages,
        ),
{
    match repo.list_conversations() {
        Result::Ok(v) => Result::Ok(v),
        Result::Err(message) => Result::Err(CommandError::DbError { message }),
    }
}

/// Append a message to a conversation.
pub fn create_message(message: NewMessage, repo: &mut Repository) -> (r: Result<
    Message,
    CommandError,
>)
    requires
        old(repo).wf(),
        old(repo).has_room(),
    ensures
        final(repo).wf(),
        r matches Ok(m) && m@ == (MessageV {
            id: old(repo)@.next_message_id,
            conversation_id: message@.conversation_id,
            role: message@.role,
            content: message@.content,
            created_at: old(repo)@.clock,
        }) && final(repo)@ == (StoreV {
            messages: old(repo)@.messages.push(m@),
            next_message_id: old(repo)@.next_message_id + 1,
            clock: old(repo)@.clock + 1,
            ..old(repo)@
        }),
{
    match repo.create_message(message) {
        Result::Ok(m) => Result::Ok(m),
        Result::Err(message) => Result::Err(CommandError::DbError { message }),
    }
}

/// All messages of one conversation, in creation order.
pub fn list_messages(conversation_id: i32, repo: &Repository) -> (r: Result<
    Vec<Message>,
    CommandError,
>)
    ensures
        r matches Ok(v) && deep_messages(v@) == msgs_of(repo@.messages, conversation_id as int),
{
    match repo.list_messages(conversation_id) {
        Result::Ok(v) => Result::Ok(v),
        Result::Err(message) => Result::Err(CommandError::DbError { message }),
    }
}

/// The stored provider options of a conversation.
pub fn get_options(conversation_id: i32, repo: &Repository) -> (r: Result<
    ProviderOptions,
    CommandError,
>)
    ensures
        match conversation_with_id(repo@.conversations, conversation_id as int) {
            Option::Some(c) => r matches Ok(o) && o@ == c.options,
            Option::None => r matches Err(e) && e@ == (CommandErrorV::DbError {
                message: "Not found"@,
            }),
        },
{
    match repo.get_conversation_options(conversation_id) {
        Result::Ok(o) => Result::Ok(o),
        Result::Err(message) => Result::Err(CommandError::DbError { message }),
    }
}

/// Replace a conversation's provider options blob.
pub fn update_options(conversation_id: i32, options: String, repo: &mut Repository) -> (r: Result<
    ProviderOptions,
    CommandError,
>)
    requires
        old(repo).wf(),
    ensures
        final(repo).wf(),
        match conversation_with_id(old(repo)@.conversations, conversation_id as int) {
            Option::Some(_) => r matches Ok(o) && o@ == options@ && final(repo)@ == (StoreV {
                conversations: set_options(
                    old(repo)@.conversations,
                    conversation_id as int,
                    options@,
                ),
                ..old(repo)@
            }),
            Option::None => r matches Err(e) && e@ == (CommandErrorV::DbError {
                message: "Not found"@,
            }) && final(repo)@ == old(repo)@,
        },
{
    match repo.update_conversation_options(conversation_id, options) {
        Result::Ok(o) => Result::Ok(o),
        Result::Err(message) => Result::Err(CommandError::DbError { message }),
    }
}

} // verus!
