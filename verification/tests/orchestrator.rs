use chat_core::commands::{create_conversation, create_message, list_messages};
use chat_core::db::{Builder, Repository};
use chat_core::entities::{Model, NewConversation, NewMessage, Roles};
use chat_core::errors::CommandError;
use chat_core::orchestrator::{
    done_payload, error_payload, prepare_bot_call, prepare_bot_reply, record_bot_reply,
    start_payload, DetachedRun, RunAction, RunEvent, RunPhase,
};
use chat_core::text::{dec_string, int_string};

/// A store holding one model and one conversation seeded with `User:"hi"`.
fn repo_with_user_turn() -> Repository {
    let mut repo = Builder::default()
        .set_db_url("chat.db".to_string())
        .build()
        .unwrap();
    chat_core::commands::create_model(
        Model {
            id: 0,
            provider: "openai".to_string(),
            api_key: "k".to_string(),
            created_at: 0,
        },
        &mut repo,
    )
    .unwrap();
    create_conversation(
        NewConversation { model_id: 1, message: "hi".to_string() },
        &mut repo,
    )
    .unwrap();
    repo
}

fn expect_emit(action: Option<RunAction>) -> String {
    match action {
        Some(RunAction::Emit(payload)) => payload,
        _ => panic!("expected an emission"),
    }
}

#[test]
fn blocking_completion_persists_bot_reply() {
    let mut repo = repo_with_user_turn();
    let input = prepare_bot_reply(&repo, 1).unwrap();
    assert_eq!(input.last_message.content, "hi");
    assert_eq!(input.config.provider, "openai");
    assert_eq!(input.options.raw, "");
    let message = record_bot_reply(&mut repo, 1, Ok("hello".to_string())).unwrap();
    assert_eq!(message.role, Roles::Bot.code());
    assert_eq!(message.content, "hello");
    assert_eq!(message.conversation_id, 1);
    let messages = list_messages(1, &repo).unwrap();
    assert_eq!(messages.len(), 2);
    assert_eq!(messages[0].content, "hi");
    assert_eq!(messages[1].content, "hello");
}

#[test]
fn blocking_completion_failure_persists_nothing() {
    let mut repo = repo_with_user_turn();
    prepare_bot_reply(&repo, 1).unwrap();
    let err = record_bot_reply(&mut repo, 1, Err("boom".to_string())).err().unwrap();
    match err {
        CommandError::ApiError { message } => assert_eq!(message, "boom"),
        _ => panic!("expected a provider failure"),
    }
    assert_eq!(list_messages(1, &repo).unwrap().len(), 1);
}

#[test]
fn completion_on_bot_turn_fails_with_state_error_naming_the_conversation() {
    let mut repo = repo_with_user_turn();
    create_message(
        NewMessage {
            conversation_id: 1,
            role: Roles::Bot.code(),
            content: "hello".to_string(),
        },
        &mut repo,
    )
    .unwrap();
    let err = prepare_bot_reply(&repo, 1).err().unwrap();
    match err {
        CommandError::StateError { message } => {
            assert_eq!(
                message,
                "The last message of conversation with id = 1 is not from user"
            );
        }
        _ => panic!("expected a state failure"),
    }
    assert_eq!(list_messages(1, &repo).unwrap().len(), 2);
}

#[test]
fn completion_on_missing_conversation_fails_not_found() {
    let repo = repo_with_user_turn();
    let err = prepare_bot_reply(&repo, 9).err().unwrap();
    match err {
        CommandError::DbError { message } => assert_eq!(message, "Not found"),
        _ => panic!("expected a storage failure"),
    }
}

#[test]
fn model_is_resolved_through_the_message() {
    let repo = repo_with_user_turn();
    let last = repo.get_last_message(1).unwrap();
    let model = prepare_bot_call(&repo, &last).unwrap();
    assert_eq!(model.id, 1);
    assert_eq!(model.provider, "openai");
}

#[test]
fn detached_run_success_emits_start_chunk_done_and_persists() {
    let mut repo = repo_with_user_turn();
    let input = prepare_bot_reply(&repo, 1).unwrap();
    let (mut run, first) = DetachedRun::new(input);
    let mut emitted: Vec<String> = Vec::new();
    match first {
        RunAction::Emit(payload) => emitted.push(payload),
        _ => panic!("expected the opening emission"),
    }
    let action = run.step(RunEvent::Emitted(true));
    assert!(matches!(action, Some(RunAction::Subscribe)));
    let action = run.step(RunEvent::Subscribed);
    let (message, _options, config) = match action {
        Some(RunAction::CallProvider(m, o, c)) => (m, o, c),
        _ => panic!("expected the provider call"),
    };
    assert_eq!(message.content, "hi");
    assert_eq!(config.provider, "openai");
    let action = run.step(RunEvent::Completed(Ok("hello".to_string())));
    emitted.push(expect_emit(action));
    let action = run.step(RunEvent::Emitted(true));
    emitted.push(expect_emit(action));
    let action = run.step(RunEvent::Emitted(true));
    let bot_message = match action {
        Some(RunAction::Persist(m)) => m,
        _ => panic!("expected persistence"),
    };
    assert_eq!(bot_message.conversation_id, 1);
    assert_eq!(bot_message.role, Roles::Bot.code());
    assert_eq!(bot_message.content, "hello");
    repo.create_message(bot_message).unwrap();
    let action = run.step(RunEvent::Persisted);
    assert!(matches!(action, Some(RunAction::Unsubscribe)));
    let action = run.step(RunEvent::Unsubscribed);
    assert!(action.is_none());
    assert_eq!(run.phase, RunPhase::Finished);
    assert_eq!(emitted, vec!["[[START]]", "hello", "[[DONE]]"]);
    assert_eq!(list_messages(1, &repo).unwrap().len(), 2);
}

#[test]
fn detached_run_failure_emits_start_then_error_and_persists_nothing() {
    let repo = repo_with_user_turn();
    let input = prepare_bot_reply(&repo, 1).unwrap();
    let (mut run, first) = DetachedRun::new(input);
    let mut emitted: Vec<String> = Vec::new();
    match first {
        RunAction::Emit(payload) => emitted.push(payload),
        _ => panic!("expected the opening emission"),
    }
    let action = run.step(RunEvent::Emitted(true));
    assert!(matches!(action, Some(RunAction::Subscribe)));
    let action = run.step(RunEvent::Subscribed);
    assert!(matches!(action, Some(RunAction::CallProvider(_, _, _))));
    let action = run.step(RunEvent::Completed(Err("timeout".to_string())));
    emitted.push(expect_emit(action));
    let action = run.step(RunEvent::Emitted(true));
    assert!(matches!(action, Some(RunAction::Unsubscribe)));
    let action = run.step(RunEvent::Unsubscribed);
    assert!(action.is_none());
    assert_eq!(run.phase, RunPhase::Finished);
    assert_eq!(emitted, vec!["[[START]]", "[[ERROR]]timeout"]);
    // Nothing was persisted: the conversation still holds only the user turn.
    assert_eq!(list_messages(1, &repo).unwrap().len(), 1);
}

#[test]
fn detached_run_retries_each_failed_emission_once_and_still_persists() {
    let repo = repo_with_user_turn();
    let input = prepare_bot_reply(&repo, 1).unwrap();
    let (mut run, first) = DetachedRun::new(input);
    let mut emitted: Vec<String> = Vec::new();
    match first {
        RunAction::Emit(payload) => emitted.push(payload),
        _ => panic!("expected the opening emission"),
    }
    // The opening emission fails twice; the run proceeds anyway.
    let action = run.step(RunEvent::Emitted(false));
    emitted.push(expect_emit(action));
    let action = run.step(RunEvent::Emitted(false));
    assert!(matches!(action, Some(RunAction::Subscribe)));
    let action = run.step(RunEvent::Subscribed);
    assert!(matches!(action, Some(RunAction::CallProvider(_, _, _))));
    // The reply emission fails once and is retried exactly once.
    let action = run.step(RunEvent::Completed(Ok("hello".to_string())));
    emitted.push(expect_emit(action));
    let action = run.step(RunEvent::Emitted(false));
    emitted.push(expect_emit(action));
    let action = run.step(RunEvent::Emitted(true));
    emitted.push(expect_emit(action));
    // The closing emission fails twice; persistence still happens.
    let action = run.step(RunEvent::Emitted(false));
    emitted.push(expect_emit(action));
    let action = run.step(RunEvent::Emitted(false));
    let bot_message = match action {
        Some(RunAction::Persist(m)) => m,
        _ => panic!("expected persistence despite the failed emissions"),
    };
    assert_eq!(bot_message.content, "hello");
    let action = run.step(RunEvent::Persisted);
    assert!(matches!(action, Some(RunAction::Unsubscribe)));
    let action = run.step(RunEvent::Unsubscribed);
    assert!(action.is_none());
    assert_eq!(
        emitted,
        vec!["[[START]]", "[[START]]", "hello", "hello", "[[DONE]]", "[[DONE]]"]
    );
}

#[test]
fn frame_payloads_are_exact() {
    assert_eq!(start_payload(), "[[START]]");
    assert_eq!(done_payload(), "[[DONE]]");
    assert_eq!(error_payload(&"timeout".to_string()), "[[ERROR]]timeout");
}

#[test]
fn event_names_are_exact() {
    assert_eq!(chat_core::orchestrator::reply_event_name(), "bot-reply");
    assert_eq!(chat_core::orchestrator::cancel_event_name(), "stop-bot");
}

#[test]
fn decimal_rendering_is_exact() {
    assert_eq!(dec_string(0), "0");
    assert_eq!(dec_string(9), "9");
    assert_eq!(dec_string(10), "10");
    assert_eq!(dec_string(105), "105");
    assert_eq!(int_string(0), "0");
    assert_eq!(int_string(42), "42");
    assert_eq!(int_string(-1), "-1");
    assert_eq!(int_string(-2147483648), "-2147483648");
    assert_eq!(int_string(2147483647), "2147483647");
}
