use p4nimau_rust::bot::{resolve_command, BotCommand, Event};
use p4nimau_rust::commands::{
    add_alias_string, add_answer, add_answer_to_config, error_reply, forbidden_reply,
    success_reply, unresolved_reply, Access, AddAnecdote, AddAnswerError, AddCheckOk,
    AddErrorMsg, AddForbidden, AddSuccess, AddUnresolved, Command, GetCfg, GetMyId, Role,
};
use p4nimau_rust::config::{AnswerKind, AppConfig};
use p4nimau_rust::types::{VkMessage, VkMessageData};

#[test]
fn command_names() {
    assert_eq!(GetCfg.alias(), "get cfg");
    assert_eq!(GetMyId.alias(), "get my id");
    assert_eq!(AddAnecdote.alias(), "add anecdote answer");
    assert_eq!(AddCheckOk.alias(), "add checkok answer");
    assert_eq!(AddErrorMsg.alias(), "add error answer");
    assert_eq!(AddUnresolved.alias(), "add unresolved answer");
    assert_eq!(AddForbidden.alias(), "add forbidden answer");
    assert_eq!(AddSuccess.alias(), "add success answer");
    assert_eq!(add_alias_string(AnswerKind::CheckOk), "add checkok answer");
    assert_eq!(AddSuccess.kind(), AnswerKind::Success);
}

#[test]
fn roles() {
    assert_eq!(GetCfg.role(), Role::Admin);
    assert_eq!(GetMyId.role(), Role::User);
    assert_eq!(AddAnecdote.role(), Role::Admin);
    assert_eq!(BotCommand::GetMyId.role(), Role::User);
}

#[test]
fn matches_a_prefix_of_the_name() {
    assert!(GetCfg.matches("get"));
    assert!(GetCfg.matches("get cfg"));
    assert!(GetCfg.matches(""));
    assert!(!GetCfg.matches("get cfg now"));
    assert!(!GetMyId.matches("get cfg"));
}

#[test]
fn admin_commands_only_from_admin_chats() {
    let admins = vec![10, 20];
    assert_eq!(GetCfg.access(&admins, 20), Access::Run);
    assert_eq!(GetCfg.access(&admins, 30), Access::Forbidden);
    assert_eq!(GetMyId.access(&admins, 30), Access::Run);
    assert_eq!(AddSuccess.access(&vec![], 10), Access::Forbidden);
}

#[test]
fn add_answer_trims_and_drops_the_name() {
    let mut answers = vec!["old".to_string()];
    let r = add_answer(&mut answers, "add anecdote answer   a good joke \n", "add anecdote answer");
    assert_eq!(r, Ok(()));
    assert_eq!(answers, vec!["old".to_string(), "a good joke".to_string()]);
}

#[test]
fn add_answer_twice_reports_it_exists() {
    let mut answers = vec![];
    assert_eq!(add_answer(&mut answers, "add x answer joke", "add x answer"), Ok(()));
    assert_eq!(
        add_answer(&mut answers, "add x answer   joke", "add x answer"),
        Err(AddAnswerError::AlreadyExists)
    );
    assert_eq!(answers, vec!["joke".to_string()]);
}

#[test]
fn add_answer_to_config_changes_one_kind() {
    let mut cfg = AppConfig::default();
    let r = add_answer_to_config(&mut cfg, AnswerKind::Error, "add error answer oops");
    assert_eq!(r, Ok(()));
    assert_eq!(cfg.error.answers, vec!["oops".to_string()]);
    assert!(cfg.success.answers.is_empty());
    let again = add_answer_to_config(&mut cfg, AnswerKind::Error, " oops add error answer");
    assert_eq!(again, Err(AddAnswerError::AlreadyExists));
    assert_eq!(cfg.error.answers, vec!["oops".to_string()]);
}

#[test]
fn reply_texts() {
    assert_eq!(error_reply(Some("Oh no."), "answer already exists"), "Oh no. answer already exists");
    assert_eq!(error_reply(None, "answer already exists"), " answer already exists");
    assert_eq!(forbidden_reply(None), "forbidden");
    assert_eq!(forbidden_reply(Some("Not you.")), "Not you.");
    assert_eq!(success_reply(None), "success");
    assert_eq!(success_reply(Some("Done!")), "Done!");
    assert_eq!(unresolved_reply(None), None);
    assert_eq!(unresolved_reply(Some("What?")), Some("What?".to_string()));
}

#[test]
fn resolve_picks_the_first_matching_command() {
    assert_eq!(resolve_command("get"), Some(BotCommand::GetCfg));
    assert_eq!(resolve_command("get m"), Some(BotCommand::GetMyId));
    assert_eq!(resolve_command("add s"), Some(BotCommand::AddAnswer(AnswerKind::Success)));
    assert_eq!(resolve_command("add"), Some(BotCommand::AddAnswer(AnswerKind::Anecdote)));
    assert_eq!(resolve_command("hello"), None);
    assert_eq!(resolve_command("add anecdote answer a joke"), None);
}

#[test]
fn event_brings_its_message() {
    let data = VkMessageData {
        id: 1,
        conversation_message_id: 2,
        date: 3,
        peer_id: 4,
        from_id: 5,
        text: "hi".to_string(),
        random_id: 6,
        attachments: vec![],
    };
    let m = Event::MessageNew(VkMessage { message: data }).message();
    assert_eq!(m.text, "hi");
    assert_eq!(m.conversation_message_id, 2);
}
