//! The events the bot receives, and which command a message calls.

use vstd::prelude::*;

use crate::commands::{
    add_alias, add_alias_string, AddAnecdote, AddCheckOk, AddErrorMsg, AddForbidden,
    AddSuccess, AddUnresolved, Command, GetCfg, GetMyId, Role,
};
use crate::config::AnswerKind;
use crate::text::starts_with;
use crate::types::{VkMessage, VkMessageData};

verus! {

/// An event of the group's long poll.
#[derive(Debug)]
pub enum Event {
    MessageNew(VkMessage),
}

impl Event {
    /// The message the event brings.
    pub fn message(self) -> (r: VkMessageData)
        ensures
            r == match self {
                Event::MessageNew(m) => m.message,
            },
    {
        match self {
            Event::MessageNew(m) => m.message,
        }
    }
}

/// The commands of the bot.
#[derive(Clone, Copy, Debug, PartialEq, Eq, Structural)]
pub enum BotCommand {
    GetCfg,
    GetMyId,
    AddAnswer(AnswerKind),
}

/// The commands in the order in which a message is matched against them.
pub open spec fn command_order() -> Seq<BotCommand> {
    seq![
        BotCommand::GetCfg,
        BotCommand::GetMyId,
        BotCommand::AddAnswer(AnswerKind::Anecdote),
        BotCommand::AddAnswer(AnswerKind::CheckOk),
        BotCommand::AddAnswer(AnswerKind::Error),
        BotCommand::AddAnswer(AnswerKind::Unresolved),
        BotCommand::AddAnswer(AnswerKind::Forbidden),
        BotCommand::AddAnswer(AnswerKind::Success),
    ]
}

/// The name of a command.
pub open spec fn command_alias(c: BotCommand) -> Seq<char> {
    match c {
        BotCommand::GetCfg => "get cfg"@,
        BotCommand::GetMyId => "get my id"@,
        BotCommand::AddAnswer(kind) => add_alias(kind),
    }
}

/// The first of `commands` whose name begins with `text`.
pub open spec fn first_match(commands: Seq<BotCommand>, text: Seq<char>) -> Option<BotCommand>
    decreases commands.len(),
{
    if commands.len() == 0 {
        None
    } else if starts_with(command_alias(commands[0]), text) {
        Some(commands[0])
    } else {
        first_match(commands.drop_first(), text)
    }
}

impl Command for BotCommand {
    open spec fn alias_view(&self) -> Seq<char> {
        command_alias(*self)
    }

    open spec fn role_view(&self) -> Role {
        match self {
            BotCommand::GetMyId => Role::User,
            _ => Role::Admin,
        }
    }

    fn alias(&self) -> (r: String) {
        match self {
            BotCommand::GetCfg => String::from_str("get cfg"),
            BotCommand::GetMyId => String::from_str("get my id"),
            BotCommand::AddAnswer(kind) => add_alias_string(*kind),
        }
    }

    fn role(&self) -> (r: Role) {
        match self {
            BotCommand::GetMyId => Role::User,
            _ => Role::Admin,
        }
    }
}

/// The first command whose name begins with the text is the one `first_match` gives.
proof fn lemma_first_match_at(commands: Seq<BotCommand>, text: Seq<char>, k: int)
    requires
        0 <= k < commands.len(),
        starts_with(command_alias(commands[k]), text),
        forall|j: int| 0 <= j < k ==> !starts_with(command_alias(#[trigger] commands[j]), text),
    ensures
        first_match(commands, text) == Some(commands[k]),
    decreases k,
{
    if k > 0 {
        assert(!starts_with(command_alias(commands[0]), text));
        let rest = commands.drop_first();
        assert forall|j: int| 0 <= j < k - 1 implies !starts_with(
            command_alias(#[trigger] rest[j]),
            text,
        ) by {
            assert(rest[j] == commands[j + 1]);
        }
        lemma_first_match_at(rest, text, k - 1);
    }
}

/// The names of the commands, letter for letter, and each the name of its command type.
pub proof fn lemma_command_names()
    ensures
        command_alias(BotCommand::GetCfg) == seq!['g', 'e', 't', ' ', 'c', 'f', 'g'],
        command_alias(BotCommand::GetCfg) == GetCfg.alias_view(),
        command_alias(BotCommand::GetMyId) == seq!['g', 'e', 't', ' ', 'm', 'y', ' ', 'i', 'd'],
        command_alias(BotCommand::GetMyId) == GetMyId.alias_view(),
        command_alias(BotCommand::AddAnswer(AnswerKind::Anecdote)) == seq!['a', 'd', 'd', ' ', 'a', 'n', 'e', 'c', 'd', 'o', 't', 'e', ' ', 'a', 'n', 's', 'w', 'e', 'r'],
        command_alias(BotCommand::AddAnswer(AnswerKind::Anecdote)) == AddAnecdote.alias_view(),
        command_alias(BotCommand::AddAnswer(AnswerKind::CheckOk)) == seq!['a', 'd', 'd', ' ', 'c', 'h', 'e', 'c', 'k', 'o', 'k', ' ', 'a', 'n', 's', 'w', 'e', 'r'],
        command_alias(BotCommand::AddAnswer(AnswerKind::CheckOk)) == AddCheckOk.alias_view(),
        command_alias(BotCommand::AddAnswer(AnswerKind::Error)) == seq!['a', 'd', 'd', ' ', 'e', 'r', 'r', 'o', 'r', ' ', 'a', 'n', 's', 'w', 'e', 'r'],
        command_alias(BotCommand::AddAnswer(AnswerKind::Error)) == AddErrorMsg.alias_view(),
        command_alias(BotCommand::AddAnswer(AnswerKind::Unresolved)) == seq!['a', 'd', 'd', ' ', 'u', 'n', 'r', 'e', 's', 'o', 'l', 'v', 'e', 'd', ' ', 'a', 'n', 's', 'w', 'e', 'r'],
        command_alias(BotCommand::AddAnswer(AnswerKind::Unresolved)) == AddUnresolved.alias_view(),
        command_alias(BotCommand::AddAnswer(AnswerKind::Forbidden)) == seq!['a', 'd', 'd', ' ', 'f', 'o', 'r', 'b', 'i', 'd', 'd', 'e', 'n', ' ', 'a', 'n', 's', 'w', 'e', 'r'],
        command_alias(BotCommand::AddAnswer(AnswerKind::Forbidden)) == AddForbidden.alias_view(),
        command_alias(BotCommand::AddAnswer(AnswerKind::Success)) == seq!['a', 'd', 'd', ' ', 's', 'u', 'c', 'c', 'e', 's', 's', ' ', 'a', 'n', 's', 'w', 'e', 'r'],
        command_alias(BotCommand::AddAnswer(AnswerKind::Success)) == AddSuccess.alias_view(),
{
    reveal_strlit("get cfg");
    reveal_strlit("get my id");
    reveal_strlit("add ");
    reveal_strlit(" answer");
    reveal_strlit("anecdote");
    reveal_strlit("checkok");
    reveal_strlit("error");
    reveal_strlit("unresolved");
    reveal_strlit("forbidden");
    reveal_strlit("success");
    assert(command_alias(BotCommand::GetCfg) =~= seq!['g', 'e', 't', ' ', 'c', 'f', 'g']);
    assert(command_alias(BotCommand::GetMyId) =~= seq!['g', 'e', 't', ' ', 'm', 'y', ' ', 'i', 'd']);
    assert(command_alias(BotCommand::AddAnswer(AnswerKind::Anecdote)) =~= seq!['a', 'd', 'd', ' ', 'a', 'n', 'e', 'c', 'd', 'o', 't', 'e', ' ', 'a', 'n', 's', 'w', 'e', 'r']);
    assert(command_alias(BotCommand::AddAnswer(AnswerKind::CheckOk)) =~= seq!['a', 'd', 'd', ' ', 'c', 'h', 'e', 'c', 'k', 'o', 'k', ' ', 'a', 'n', 's', 'w', 'e', 'r']);
    assert(command_alias(BotCommand::AddAnswer(AnswerKind::Error)) =~= seq!['a', 'd', 'd', ' ', 'e', 'r', 'r', 'o', 'r', ' ', 'a', 'n', 's', 'w', 'e', 'r']);
    assert(command_alias(BotCommand::AddAnswer(AnswerKind::Unresolved)) =~= seq!['a', 'd', 'd', ' ', 'u', 'n', 'r', 'e', 's', 'o', 'l', 'v', 'e', 'd', ' ', 'a', 'n', 's', 'w', 'e', 'r']);
    assert(command_alias(BotCommand::AddAnswer(AnswerKind::Forbidden)) =~= seq!['a', 'd', 'd', ' ', 'f', 'o', 'r', 'b', 'i', 'd', 'd', 'e', 'n', ' ', 'a', 'n', 's', 'w', 'e', 'r']);
    assert(command_alias(BotCommand::AddAnswer(AnswerKind::Success)) =~= seq!['a', 'd', 'd', ' ', 's', 'u', 'c', 'c', 'e', 's', 's', ' ', 'a', 'n', 's', 'w', 'e', 'r']);
}

/// A message whose text is a command's whole name calls that command: no command before it
/// in [`command_order`] has a name that begins with it.
pub proof fn lemma_whole_name_resolves()
    ensures
        first_match(command_order(), seq!['g', 'e', 't', ' ', 'c', 'f', 'g']) == Some(BotCommand::GetCfg),
        first_match(command_order(), seq!['g', 'e', 't', ' ', 'm', 'y', ' ', 'i', 'd']) == Some(BotCommand::GetMyId),
        first_match(command_order(), seq!['a', 'd', 'd', ' ', 'a', 'n', 'e', 'c', 'd', 'o', 't', 'e', ' ', 'a', 'n', 's', 'w', 'e', 'r']) == Some(BotCommand::AddAnswer(AnswerKind::Anecdote)),
        first_match(command_order(), seq!['a', 'd', 'd', ' ', 'c', 'h', 'e', 'c', 'k', 'o', 'k', ' ', 'a', 'n', 's', 'w', 'e', 'r']) == Some(BotCommand::AddAnswer(AnswerKind::CheckOk)),
        first_match(command_order(), seq!['a', 'd', 'd', ' ', 'e', 'r', 'r', 'o', 'r', ' ', 'a', 'n', 's', 'w', 'e', 'r']) == Some(BotCommand::AddAnswer(AnswerKind::Error)),
        first_match(command_order(), seq!['a', 'd', 'd', ' ', 'u', 'n', 'r', 'e', 's', 'o', 'l', 'v', 'e', 'd', ' ', 'a', 'n', 's', 'w', 'e', 'r']) == Some(BotCommand::AddAnswer(AnswerKind::Unresolved)),
        first_match(command_order(), seq!['a', 'd', 'd', ' ', 'f', 'o', 'r', 'b', 'i', 'd', 'd', 'e', 'n', ' ', 'a', 'n', 's', 'w', 'e', 'r']) == Some(BotCommand::AddAnswer(AnswerKind::Forbidden)),
        first_match(command_order(), seq!['a', 'd', 'd', ' ', 's', 'u', 'c', 'c', 'e', 's', 's', ' ', 'a', 'n', 's', 'w', 'e', 'r']) == Some(BotCommand::AddAnswer(AnswerKind::Success)),
{
    lemma_command_names();
    assert(command_order().len() == 8);
    assert(command_alias(BotCommand::GetCfg).subrange(0, 7) =~= seq!['g', 'e', 't', ' ', 'c', 'f', 'g']);
    lemma_first_match_at(command_order(), seq!['g', 'e', 't', ' ', 'c', 'f', 'g'], 0);
    assert(command_alias(BotCommand::GetMyId).subrange(0, 9) =~= seq!['g', 'e', 't', ' ', 'm', 'y', ' ', 'i', 'd']);
    lemma_first_match_at(command_order(), seq!['g', 'e', 't', ' ', 'm', 'y', ' ', 'i', 'd'], 1);
    assert(command_alias(BotCommand::AddAnswer(AnswerKind::Anecdote)).subrange(0, 19) =~= seq!['a', 'd', 'd', ' ', 'a', 'n', 'e', 'c', 'd', 'o', 't', 'e', ' ', 'a', 'n', 's', 'w', 'e', 'r']);
    lemma_first_match_at(command_order(), seq!['a', 'd', 'd', ' ', 'a', 'n', 'e', 'c', 'd', 'o', 't', 'e', ' ', 'a', 'n', 's', 'w', 'e', 'r'], 2);
    assert(command_alias(BotCommand::AddAnswer(AnswerKind::CheckOk)).subrange(0, 18) =~= seq!['a', 'd', 'd', ' ', 'c', 'h', 'e', 'c', 'k', 'o', 'k', ' ', 'a', 'n', 's', 'w', 'e', 'r']);
    assert(command_alias(BotCommand::AddAnswer(AnswerKind::Anecdote)).subrange(0, 18)[4] != seq!['a', 'd', 'd', ' ', 'c', 'h', 'e', 'c', 'k', 'o', 'k', ' ', 'a', 'n', 's', 'w', 'e', 'r'][4]);
    lemma_first_match_at(command_order(), seq!['a', 'd', 'd', ' ', 'c', 'h', 'e', 'c', 'k', 'o', 'k', ' ', 'a', 'n', 's', 'w', 'e', 'r'], 3);
    assert(command_alias(BotCommand::AddAnswer(AnswerKind::Error)).subrange(0, 16) =~= seq!['a', 'd', 'd', ' ', 'e', 'r', 'r', 'o', 'r', ' ', 'a', 'n', 's', 'w', 'e', 'r']);
    assert(command_alias(BotCommand::AddAnswer(AnswerKind::Anecdote)).subrange(0, 16)[4] != seq!['a', 'd', 'd', ' ', 'e', 'r', 'r', 'o', 'r', ' ', 'a', 'n', 's', 'w', 'e', 'r'][4]);
    assert(command_alias(BotCommand::AddAnswer(AnswerKind::CheckOk)).subrange(0, 16)[4] != seq!['a', 'd', 'd', ' ', 'e', 'r', 'r', 'o', 'r', ' ', 'a', 'n', 's', 'w', 'e', 'r'][4]);
    lemma_first_match_at(command_order(), seq!['a', 'd', 'd', ' ', 'e', 'r', 'r', 'o', 'r', ' ', 'a', 'n', 's', 'w', 'e', 'r'], 4);
    assert(command_alias(BotCommand::AddAnswer(AnswerKind::Unresolved)).subrange(0, 21) =~= seq!['a', 'd', 'd', ' ', 'u', 'n', 'r', 'e', 's', 'o', 'l', 'v', 'e', 'd', ' ', 'a', 'n', 's', 'w', 'e', 'r']);
    lemma_first_match_at(command_order(), seq!['a', 'd', 'd', ' ', 'u', 'n', 'r', 'e', 's', 'o', 'l', 'v', 'e', 'd', ' ', 'a', 'n', 's', 'w', 'e', 'r'], 5);
    assert(command_alias(BotCommand::AddAnswer(AnswerKind::Forbidden)).subrange(0, 20) =~= seq!['a', 'd', 'd', ' ', 'f', 'o', 'r', 'b', 'i', 'd', 'd', 'e', 'n', ' ', 'a', 'n', 's', 'w', 'e', 'r']);
    assert(command_alias(BotCommand::AddAnswer(AnswerKind::Unresolved)).subrange(0, 20)[4] != seq!['a', 'd', 'd', ' ', 'f', 'o', 'r', 'b', 'i', 'd', 'd', 'e', 'n', ' ', 'a', 'n', 's', 'w', 'e', 'r'][4]);
    lemma_first_match_at(command_order(), seq!['a', 'd', 'd', ' ', 'f', 'o', 'r', 'b', 'i', 'd', 'd', 'e', 'n', ' ', 'a', 'n', 's', 'w', 'e', 'r'], 6);
    assert(command_alias(BotCommand::AddAnswer(AnswerKind::Success)).subrange(0, 18) =~= seq!['a', 'd', 'd', ' ', 's', 'u', 'c', 'c', 'e', 's', 's', ' ', 'a', 'n', 's', 'w', 'e', 'r']);
    assert(command_alias(BotCommand::AddAnswer(AnswerKind::Anecdote)).subrange(0, 18)[4] != seq!['a', 'd', 'd', ' ', 's', 'u', 'c', 'c', 'e', 's', 's', ' ', 'a', 'n', 's', 'w', 'e', 'r'][4]);
    assert(command_alias(BotCommand::AddAnswer(AnswerKind::CheckOk)).subrange(0, 18)[4] != seq!['a', 'd', 'd', ' ', 's', 'u', 'c', 'c', 'e', 's', 's', ' ', 'a', 'n', 's', 'w', 'e', 'r'][4]);
    assert(command_alias(BotCommand::AddAnswer(AnswerKind::Unresolved)).subrange(0, 18)[4] != seq!['a', 'd', 'd', ' ', 's', 'u', 'c', 'c', 'e', 's', 's', ' ', 'a', 'n', 's', 'w', 'e', 'r'][4]);
    assert(command_alias(BotCommand::AddAnswer(AnswerKind::Forbidden)).subrange(0, 18)[4] != seq!['a', 'd', 'd', ' ', 's', 'u', 'c', 'c', 'e', 's', 's', ' ', 'a', 'n', 's', 'w', 'e', 'r'][4]);
    lemma_first_match_at(command_order(), seq!['a', 'd', 'd', ' ', 's', 'u', 'c', 'c', 'e', 's', 's', ' ', 'a', 'n', 's', 'w', 'e', 'r'], 7);
}

/// The command a message calls: the first, in [`command_order`], whose name begins with the
/// message's text; `None` when there is none. A command is matched when the text is a
/// prefix of its name (the test of [`Command::matches`]), so a message that carries an
/// answer after `add <kind> answer` matches no command; only the bare name does, and then
/// the answer it adds is empty.
pub fn resolve_command(text: &str) -> (r: Option<BotCommand>)
    ensures
        r == first_match(command_order(), text@),
{
    let commands = vec![
        BotCommand::GetCfg,
        BotCommand::GetMyId,
        BotCommand::AddAnswer(AnswerKind::Anecdote),
        BotCommand::AddAnswer(AnswerKind::CheckOk),
        BotCommand::AddAnswer(AnswerKind::Error),
        BotCommand::AddAnswer(AnswerKind::Unresolved),
        BotCommand::AddAnswer(AnswerKind::Forbidden),
        BotCommand::AddAnswer(AnswerKind::Success),
    ];
    assert(commands@ =~= command_order());
    assert(commands@.skip(0) =~= commands@);
    let mut i: usize = 0;
    while i < commands.len()
        invariant
            i <= commands@.len(),
            first_match(command_order(), text@) == first_match(commands@.skip(i as int), text@),
        decreases commands.len() - i,
    {
        let command = commands[i];
        assert(commands@.skip(i as int)[0] == command);
        if command.matches(text) {
            return Some(command);
        }
        assert(commands@.skip(i as int).drop_first() =~= commands@.skip(i + 1));
        i = i + 1;
    }
    None
}

} // verus!
