use chat_core::commands::{
    create_conversation, create_message, create_model, list_conversations, list_messages,
    list_settings, update_options, upsert_setting,
};
use chat_core::db::{Builder, Repository};
use chat_core::entities::{Conversation, Model, NewConversation, NewMessage, Roles, Setting};
use chat_core::errors::CommandError;

fn fresh_repo() -> Repository {
    Builder::default()
        .set_db_url("chat.db".to_string())
        .build()
        .unwrap()
}

fn seed_model(repo: &mut Repository) -> Model {
    create_model(
        Model {
            id: 0,
            provider: "openai".to_string(),
            api_key: "k-123".to_string(),
            created_at: 0,
        },
        repo,
    )
    .unwrap()
}

#[test]
fn build_without_url_fails() {
    let err = Builder::default().build().err().unwrap();
    assert_eq!(err, "DB url is not set".to_string());
}

#[test]
fn build_with_url_succeeds() {
    let repo = Builder::default().set_db_url("a.db".to_string()).build();
    assert!(repo.is_ok());
    assert!(repo.unwrap().migrate().is_ok());
}

#[test]
fn created_model_gets_identity_and_keeps_fields() {
    let mut repo = fresh_repo();
    let m = seed_model(&mut repo);
    assert_eq!(m.id, 1);
    assert_eq!(m.provider, "openai");
    assert_eq!(m.api_key, "k-123");
    let listed = chat_core::commands::list_models(&repo).unwrap();
    assert_eq!(listed.len(), 1);
    assert_eq!(listed[0].id, 1);
    assert_eq!(listed[0].provider, "openai");
}

#[test]
fn upsert_setting_inserts_then_updates_value_only() {
    let mut repo = fresh_repo();
    upsert_setting(
        Setting { key: "theme".to_string(), value: "dark".to_string() },
        &mut repo,
    )
    .unwrap();
    upsert_setting(
        Setting { key: "theme".to_string(), value: "light".to_string() },
        &mut repo,
    )
    .unwrap();
    let settings = list_settings(&repo).unwrap();
    assert_eq!(settings.len(), 1);
    assert_eq!(settings[0].key, "theme");
    assert_eq!(settings[0].value, "light");
}

#[test]
fn upsert_setting_twice_with_same_pair_keeps_one_row() {
    let mut repo = fresh_repo();
    upsert_setting(
        Setting { key: "lang".to_string(), value: "en".to_string() },
        &mut repo,
    )
    .unwrap();
    upsert_setting(
        Setting { key: "lang".to_string(), value: "en".to_string() },
        &mut repo,
    )
    .unwrap();
    let settings = list_settings(&repo).unwrap();
    assert_eq!(settings.len(), 1);
    assert_eq!(settings[0].key, "lang");
    assert_eq!(settings[0].value, "en");
}

#[test]
fn upsert_setting_keeps_other_keys() {
    let mut repo = fresh_repo();
    upsert_setting(
        Setting { key: "a".to_string(), value: "1".to_string() },
        &mut repo,
    )
    .unwrap();
    upsert_setting(
        Setting { key: "b".to_string(), value: "2".to_string() },
        &mut repo,
    )
    .unwrap();
    upsert_setting(
        Setting { key: "a".to_string(), value: "3".to_string() },
        &mut repo,
    )
    .unwrap();
    let settings = list_settings(&repo).unwrap();
    assert_eq!(settings.len(), 2);
    assert_eq!(settings[0].key, "a");
    assert_eq!(settings[0].value, "3");
    assert_eq!(settings[1].key, "b");
    assert_eq!(settings[1].value, "2");
}

#[test]
fn get_last_message_of_conversation_without_messages_is_not_found() {
    let mut repo = fresh_repo();
    seed_model(&mut repo);
    // A bare conversation row, without the seed message the command creates.
    let bare = repo
        .create_conversation(Conversation {
            id: 0,
            model_id: 1,
            subject: "empty".to_string(),
            options: String::new(),
            created_at: 0,
        })
        .unwrap();
    let err = repo.get_last_message(bare.id).err().unwrap();
    assert_eq!(err, "Not found".to_string());
}

#[test]
fn conversation_is_created_with_user_seed_message() {
    let mut repo = fresh_repo();
    seed_model(&mut repo);
    let conversation = create_conversation(
        NewConversation { model_id: 1, message: "hi".to_string() },
        &mut repo,
    )
    .unwrap();
    assert_eq!(conversation.id, 1);
    assert_eq!(conversation.subject, "hi");
    assert_eq!(conversation.options, "");
    let last = repo.get_last_message(conversation.id).unwrap();
    assert_eq!(last.role, Roles::User.code());
    assert_eq!(last.content, "hi");
    assert_eq!(last.conversation_id, conversation.id);
}

#[test]
fn list_messages_returns_creation_order() {
    let mut repo = fresh_repo();
    seed_model(&mut repo);
    create_conversation(
        NewConversation { model_id: 1, message: "first".to_string() },
        &mut repo,
    )
    .unwrap();
    create_message(
        NewMessage {
            conversation_id: 1,
            role: Roles::Bot.code(),
            content: "second".to_string(),
        },
        &mut repo,
    )
    .unwrap();
    create_message(
        NewMessage {
            conversation_id: 1,
            role: Roles::User.code(),
            content: "third".to_string(),
        },
        &mut repo,
    )
    .unwrap();
    let messages = list_messages(1, &repo).unwrap();
    assert_eq!(messages.len(), 3);
    assert_eq!(messages[0].content, "first");
    assert_eq!(messages[1].content, "second");
    assert_eq!(messages[2].content, "third");
    assert!(messages[0].id < messages[1].id && messages[1].id < messages[2].id);
}

#[test]
fn list_conversations_joins_provider_and_counts_messages() {
    let mut repo = fresh_repo();
    seed_model(&mut repo);
    create_conversation(
        NewConversation { model_id: 1, message: "hi".to_string() },
        &mut repo,
    )
    .unwrap();
    create_message(
        NewMessage {
            conversation_id: 1,
            role: Roles::Bot.code(),
            content: "hello".to_string(),
        },
        &mut repo,
    )
    .unwrap();
    // A conversation with zero messages still appears.
    repo.create_conversation(Conversation {
        id: 0,
        model_id: 1,
        subject: "empty".to_string(),
        options: String::new(),
        created_at: 0,
    })
    .unwrap();
    // A conversation whose model row is missing must not appear.
    repo.create_conversation(Conversation {
        id: 0,
        model_id: 99,
        subject: "orphan".to_string(),
        options: String::new(),
        created_at: 0,
    })
    .unwrap();
    let items = list_conversations(&repo).unwrap();
    assert_eq!(items.len(), 2);
    assert_eq!(items[0].id, 1);
    assert_eq!(items[0].model_provider, "openai");
    assert_eq!(items[0].message_count, 2);
    assert_eq!(items[1].subject, "empty");
    assert_eq!(items[1].message_count, 0);
}

#[test]
fn options_default_empty_and_update_replaces_them() {
    let mut repo = fresh_repo();
    seed_model(&mut repo);
    create_conversation(
        NewConversation { model_id: 1, message: "hi".to_string() },
        &mut repo,
    )
    .unwrap();
    let options = chat_core::commands::get_options(1, &repo).unwrap();
    assert_eq!(options.raw, "");
    let updated = update_options(1, "{\"temperature\":0}".to_string(), &mut repo).unwrap();
    assert_eq!(updated.raw, "{\"temperature\":0}");
    let read_back = chat_core::commands::get_options(1, &repo).unwrap();
    assert_eq!(read_back.raw, "{\"temperature\":0}");
}

#[test]
fn update_options_of_missing_conversation_is_not_found() {
    let mut repo = fresh_repo();
    let err = update_options(5, "{}".to_string(), &mut repo).err().unwrap();
    match err {
        CommandError::DbError { message } => assert_eq!(message, "Not found"),
        _ => panic!("expected a storage failure"),
    }
}

#[test]
fn roles_encode_and_decode() {
    assert_eq!(Roles::User.code(), 0);
    assert_eq!(Roles::Bot.code(), 1);
    assert_eq!(Roles::from_code(0), Roles::User);
    assert_eq!(Roles::from_code(1), Roles::Bot);
    assert_eq!(Roles::from_code(7), Roles::Bot);
}
