//! Durable entities of the conversation store and their mathematical images.
//!
//! Each executable type carries plain values only; its `View` maps it to a
//! ghost record over `int` and `Seq<char>` that the contracts speak of.

use vstd::prelude::*;

verus! {

/// Author of a message: the human user or the bot.
#[derive(Clone, Copy, PartialEq, Eq, Structural, Debug)]
pub enum Roles {
    User,
    Bot,
}

impl Roles {
    /// Integer encoding used by the persistence schema: the user is 0, the bot is 1.
    pub open spec fn spec_code(self) -> int {
        match self {
            Roles::User => 0,
            Roles::Bot => 1,
        }
    }

    pub fn code(self) -> (c: i32)
        ensures
            c == self.spec_code(),
    {
        match self {
            Roles::User => 0,
            Roles::Bot => 1,
        }
    }

    /// Decoding: 0 is the user; any other stored value is read as the bot.
    pub open spec fn spec_from_code(code: int) -> Roles {
        if code == 0 {
            Roles::User
        } else {
            Roles::Bot
        }
    }

    pub fn from_code(code: i32) -> (r: Roles)
        ensures
            r == Roles::spec_from_code(code as int),
    {
        if code == 0 {
            Roles::User
        } else {
            Roles::Bot
        }
    }
}

/// Image of a model configuration row.
#[verifier::ext_equal]
pub struct ModelV {
    pub id: int,
    pub provider: Seq<char>,
    pub api_key: Seq<char>,
    pub created_at: int,
}

/// A model configuration: identity, provider name, credentials.
pub struct Model {
    pub id: i32,
    pub provider: String,
    pub api_key: String,
    pub created_at: i64,
}

impl View for Model {
    type V = ModelV;

    open spec fn view(&self) -> ModelV {
        ModelV {
            id: self.id as int,
            provider: self.provider@,
            api_key: self.api_key@,
            created_at: self.created_at as int,
        }
    }
}

impl Model {
    /// A fresh value equal to this one under the view.
    pub fn duplicate(&self) -> (r: Model)
        ensures
            r@ == self@,
    {
        Model {
            id: self.id,
            provider: self.provider.clone(),
            api_key: self.api_key.clone(),
            created_at: self.created_at,
        }
    }
}

/// Image of a settings row.
#[verifier::ext_equal]
pub struct SettingV {
    pub key: Seq<char>,
    pub value: Seq<char>,
}

/// A named application setting.
pub struct Setting {
    pub key: String,
    pub value: String,
}

impl View for Setting {
    type V = SettingV;

    open spec fn view(&self) -> SettingV {
        SettingV { key: self.key@, value: self.value@ }
    }
}

impl Setting {
    /// A fresh value equal to this one under the view.
    pub fn duplicate(&self) -> (r: Setting)
        ensures
            r@ == self@,
    {
        Setting { key: self.key.clone(), value: self.value.clone() }
    }
}

/// Image of a conversation row.
#[verifier::ext_equal]
pub struct ConversationV {
    pub id: int,
    pub model_id: int,
    pub subject: Seq<char>,
    pub options: Seq<char>,
    pub created_at: int,
}

/// A conversation: identity, owning model reference, subject, and the
/// serialized provider-options blob.
pub struct Conversation {
    pub id: i32,
    pub model_id: i32,
    pub subject: String,
    pub options: String,
    pub created_at: i64,
}

impl View for Conversation {
    type V = ConversationV;

    open spec fn view(&self) -> ConversationV {
        ConversationV {
            id: self.id as int,
            model_id: self.model_id as int,
            subject: self.subject@,
            options: self.options@,
            created_at: self.created_at as int,
        }
    }
}

impl Conversation {
    /// A fresh value equal to this one under the view.
    pub fn duplicate(&self) -> (r: Conversation)
        ensures
            r@ == self@,
    {
        Conversation {
            id: self.id,
            model_id: self.model_id,
            subject: self.subject.clone(),
            options: self.options.clone(),
            created_at: self.created_at,
        }
    }
}

/// Image of a message row.
#[verifier::ext_equal]
pub struct MessageV {
    pub id: int,
    pub conversation_id: int,
    pub role: int,
    pub content: Seq<char>,
    pub created_at: int,
}

/// A message: identity, owning conversation, encoded role, and content.
pub struct Message {
    pub id: i32,
    pub conversation_id: i32,
    pub role: i32,
    pub content: String,
    pub created_at: i64,
}

impl View for Message {
    type V = MessageV;

    open spec fn view(&self) -> MessageV {
        MessageV {
            id: self.id as int,
            conversation_id: self.conversation_id as int,
            role: self.role as int,
            content: self.content@,
            created_at: self.created_at as int,
        }
    }
}

impl Message {
    /// A fresh value equal to this one under the view.
    pub fn duplicate(&self) -> (r: Message)
        ensures
            r@ == self@,
    {
        Message {
            id: self.id,
            conversation_id: self.conversation_id,
            role: self.role,
            content: self.content.clone(),
            created_at: self.created_at,
        }
    }
}

/// Image of a message yet to be inserted.
#[verifier::ext_equal]
pub struct NewMessageV {
    pub conversation_id: int,
    pub role: int,
    pub content: Seq<char>,
}

/// A message to append to a conversation; the store assigns its identity.
pub struct NewMessage {
    pub conversation_id: i32,
    pub role: i32,
    pub content: String,
}

impl View for NewMessage {
    type V = NewMessageV;

    open spec fn view(&self) -> NewMessageV {
        NewMessageV {
            conversation_id: self.conversation_id as int,
            role: self.role as int,
            content: self.content@,
        }
    }
}

/// A request to open a conversation: the owning model and the first
/// user-authored message.
pub struct NewConversation {
    pub model_id: i32,
    pub message: String,
}

/// The per-conversation provider options, kept as an opaque serialized blob
/// that only the completion provider interprets.
pub struct ProviderOptions {
    pub raw: String,
}

impl View for ProviderOptions {
    type V = Seq<char>;

    open spec fn view(&self) -> Seq<char> {
        self.raw@
    }
}

impl ProviderOptions {
    /// A fresh value equal to this one under the view.
    pub fn duplicate(&self) -> (r: ProviderOptions)
        ensures
            r@ == self@,
    {
        ProviderOptions { raw: self.raw.clone() }
    }
}

/// Image of a conversation list row.
#[verifier::ext_equal]
pub struct ConversationListItemV {
    pub id: int,
    pub model_id: int,
    pub subject: Seq<char>,
    pub created_at: int,
    pub model_provider: Seq<char>,
    pub message_count: int,
}

/// A list-view projection joining a conversation to its model's provider
/// name and to a count of its messages.
pub struct ConversationListItem {
    pub id: i32,
    pub model_id: i32,
    pub subject: String,
    pub created_at: i64,
    pub model_provider: String,
    pub message_count: u64,
}

impl View for ConversationListItem {
    type V = ConversationListItemV;

    open spec fn view(&self) -> ConversationListItemV {
        ConversationListItemV {
            id: self.id as int,
            model_id: self.model_id as int,
            subject: self.subject@,
            created_at: self.created_at as int,
            model_provider: self.model_provider@,
            message_count: self.message_count as int,
        }
    }
}

} // verus!
