//! The admin commands of the bot: their names, who may run them, what they change and
//! the texts they answer with.

use vstd::prelude::*;

use crate::config::{AnswerKind, AppConfig};
use crate::text::{remove_all, starts_with, str_remove_all, str_starts_with, str_trim, trim};

verus! {

/// Who may run a command.
#[derive(Clone, Copy, Debug, PartialEq, Eq, Structural)]
pub enum Role {
    User,
    Admin,
}

/// What running a command from a given chat comes to.
#[derive(Clone, Copy, Debug, PartialEq, Eq, Structural)]
pub enum Access {
    /// The command runs.
    Run,
    /// The command is refused, and the sender is told so.
    Forbidden,
}

/// A command runs when anyone may run it, or when it comes from an admins' chat.
pub open spec fn access_for(role: Role, admin_chat_ids: Seq<i32>, from_id: i32) -> Access {
    match role {
        Role::User => Access::Run,
        Role::Admin => if admin_chat_ids.contains(from_id) {
            Access::Run
        } else {
            Access::Forbidden
        },
    }
}

/// A command of the bot.
pub trait Command {
    /// The command's name, as a message spells it.
    spec fn alias_view(&self) -> Seq<char>;

    /// Who may run the command.
    spec fn role_view(&self) -> Role;

    fn alias(&self) -> (r: String)
        ensures
            r@ == self.alias_view(),
    ;

    fn role(&self) -> (r: Role)
        ensures
            r == self.role_view(),
    ;

    /// Whether the command's name begins with `text`.
    fn matches(&self, text: &str) -> (r: bool)
        ensures
            r == starts_with(self.alias_view(), text@),
    {
        let alias = self.alias();
        str_starts_with(alias.as_str(), text)
    }

    /// Whether the command runs when sent from the chat `from_id`.
    fn access(&self, admin_chat_ids: &Vec<i32>, from_id: i32) -> (r: Access)
        ensures
            r == access_for(self.role_view(), admin_chat_ids@, from_id),
    {
        match self.role() {
            Role::User => Access::Run,
            Role::Admin => {
                if crate::config::contains_id(admin_chat_ids, from_id) {
                    Access::Run
                } else {
                    Access::Forbidden
                }
            },
        }
    }
}

/// Sends the configuration to the admins.
pub struct GetCfg;

/// Tells the sender their id.
pub struct GetMyId;

impl Command for GetCfg {
    open spec fn alias_view(&self) -> Seq<char> {
        "get cfg"@
    }

    open spec fn role_view(&self) -> Role {
        Role::Admin
    }

    fn alias(&self) -> (r: String) {
        String::from_str("get cfg")
    }

    fn role(&self) -> (r: Role) {
        Role::Admin
    }
}

impl Command for GetMyId {
    open spec fn alias_view(&self) -> Seq<char> {
        "get my id"@
    }

    open spec fn role_view(&self) -> Role {
        Role::User
    }

    fn alias(&self) -> (r: String) {
        String::from_str("get my id")
    }

    fn role(&self) -> (r: Role) {
        Role::User
    }
}

/// The name of a kind of answers, as the command that adds one spells it.
pub open spec fn kind_name(kind: AnswerKind) -> Seq<char> {
    match kind {
        AnswerKind::Anecdote => "anecdote"@,
        AnswerKind::CheckOk => "checkok"@,
        AnswerKind::Error => "error"@,
        AnswerKind::Unresolved => "unresolved"@,
        AnswerKind::Forbidden => "forbidden"@,
        AnswerKind::Success => "success"@,
    }
}

/// The name of a kind of answers.
pub fn kind_name_str(kind: AnswerKind) -> (r: &'static str)
    ensures
        r@ == kind_name(kind),
{
    match kind {
        AnswerKind::Anecdote => "anecdote",
        AnswerKind::CheckOk => "checkok",
        AnswerKind::Error => "error",
        AnswerKind::Unresolved => "unresolved",
        AnswerKind::Forbidden => "forbidden",
        AnswerKind::Success => "success",
    }
}

/// The name of the command that adds an answer of the given kind: `add <kind> answer`.
pub open spec fn add_alias(kind: AnswerKind) -> Seq<char> {
    "add "@ + kind_name(kind) + " answer"@
}

/// The name of the command that adds an answer of the given kind.
pub fn add_alias_string(kind: AnswerKind) -> (r: String)
    ensures
        r@ == add_alias(kind),
{
    let mut s = String::from_str("add ");
    s.append(kind_name_str(kind));
    s.append(" answer");
    s
}

/// Adds an answer to the jokes.
pub struct AddAnecdote;

impl AddAnecdote {
    /// The kind of answers the command adds to.
    pub fn kind(&self) -> (r: AnswerKind)
        ensures
            r == AnswerKind::Anecdote,
    {
        AnswerKind::Anecdote
    }
}

impl Command for AddAnecdote {
    open spec fn alias_view(&self) -> Seq<char> {
        add_alias(AnswerKind::Anecdote)
    }

    open spec fn role_view(&self) -> Role {
        Role::Admin
    }

    fn alias(&self) -> (r: String) {
        add_alias_string(AnswerKind::Anecdote)
    }

    fn role(&self) -> (r: Role) {
        Role::Admin
    }
}

/// Adds an answer to the answers to the liveness phrase.
pub struct AddCheckOk;

impl AddCheckOk {
    /// The kind of answers the command adds to.
    pub fn kind(&self) -> (r: AnswerKind)
        ensures
            r == AnswerKind::CheckOk,
    {
        AnswerKind::CheckOk
    }
}

impl Command for AddCheckOk {
    open spec fn alias_view(&self) -> Seq<char> {
        add_alias(AnswerKind::CheckOk)
    }

    open spec fn role_view(&self) -> Role {
        Role::Admin
    }

    fn alias(&self) -> (r: String) {
        add_alias_string(AnswerKind::CheckOk)
    }

    fn role(&self) -> (r: Role) {
        Role::Admin
    }
}

/// Adds an answer to the answers to a failed command.
pub struct AddErrorMsg;

impl AddErrorMsg {
    /// The kind of answers the command adds to.
    pub fn kind(&self) -> (r: AnswerKind)
        ensures
            r == AnswerKind::Error,
    {
        AnswerKind::Error
    }
}

impl Command for AddErrorMsg {
    open spec fn alias_view(&self) -> Seq<char> {
        add_alias(AnswerKind::Error)
    }

    open spec fn role_view(&self) -> Role {
        Role::Admin
    }

    fn alias(&self) -> (r: String) {
        add_alias_string(AnswerKind::Error)
    }

    fn role(&self) -> (r: Role) {
        Role::Admin
    }
}

/// Adds an answer to the answers to an unknown command.
pub struct AddUnresolved;

impl AddUnresolved {
    /// The kind of answers the command adds to.
    pub fn kind(&self) -> (r: AnswerKind)
        ensures
            r == AnswerKind::Unresolved,
    {
        AnswerKind::Unresolved
    }
}

impl Command for AddUnresolved {
    open spec fn alias_view(&self) -> Seq<char> {
        add_alias(AnswerKind::Unresolved)
    }

    open spec fn role_view(&self) -> Role {
        Role::Admin
    }

    fn alias(&self) -> (r: String) {
        add_alias_string(AnswerKind::Unresolved)
    }

    fn role(&self) -> (r: Role) {
        Role::Admin
    }
}

/// Adds an answer to the answers to a refused command.
pub struct AddForbidden;

impl AddForbidden {
    /// The kind of answers the command adds to.
    pub fn kind(&self) -> (r: AnswerKind)
        ensures
            r == AnswerKind::Forbidden,
    {
        AnswerKind::Forbidden
    }
}

impl Command for AddForbidden {
    open spec fn alias_view(&self) -> Seq<char> {
        add_alias(AnswerKind::Forbidden)
    }

    open spec fn role_view(&self) -> Role {
        Role::Admin
    }

    fn alias(&self) -> (r: String) {
        add_alias_string(AnswerKind::Forbidden)
    }

    fn role(&self) -> (r: Role) {
        Role::Admin
    }
}

/// Adds an answer to the answers to a command that succeeded.
pub struct AddSuccess;

impl AddSuccess {
    /// The kind of answers the command adds to.
    pub fn kind(&self) -> (r: AnswerKind)
        ensures
            r == AnswerKind::Success,
    {
        AnswerKind::Success
    }
}

impl Command for AddSuccess {
    open spec fn alias_view(&self) -> Seq<char> {
        add_alias(AnswerKind::Success)
    }

    open spec fn role_view(&self) -> Role {
        Role::Admin
    }

    fn alias(&self) -> (r: String) {
        add_alias_string(AnswerKind::Success)
    }

    fn role(&self) -> (r: Role) {
        Role::Admin
    }
}

/// Why an answer was not added.
#[derive(Clone, Copy, Debug, PartialEq, Eq, Structural)]
pub enum AddAnswerError {
    /// The list already holds that answer.
    AlreadyExists,
}

/// The answer a message adds: its text with every occurrence of the command's name taken
/// out, and the white space around the rest trimmed.
pub open spec fn new_answer_text(text: Seq<char>, alias: Seq<char>) -> Seq<char> {
    trim(remove_all(text, alias))
}

/// Some answer of `answers` reads `answer`.
pub open spec fn holds_answer(answers: Seq<String>, answer: Seq<char>) -> bool {
    exists|i: int| 0 <= i < answers.len() && (#[trigger] answers[i])@ == answer
}

/// What adding the answer that `text` carries makes of `before`: the same list, with an
/// error, when it already holds the answer; else the list with the answer at its end.
pub open spec fn add_answer_outcome(
    before: Seq<String>,
    after: Seq<String>,
    text: Seq<char>,
    alias: Seq<char>,
    r: Result<(), AddAnswerError>,
) -> bool {
    let answer = new_answer_text(text, alias);
    if holds_answer(before, answer) {
        r == Err::<(), AddAnswerError>(AddAnswerError::AlreadyExists) && after == before
    } else {
        &&& r is Ok
        &&& after.len() == before.len() + 1
        &&& after.drop_last() == before
        &&& after.last()@ == answer
    }
}

/// Whether some answer of `answers` reads `answer`.
pub fn holds_answer_exec(answers: &Vec<String>, answer: &String) -> (r: bool)
    ensures
        r == holds_answer(answers@, answer@),
{
    let mut i: usize = 0;
    while i < answers.len()
        invariant
            i <= answers.len(),
            forall|j: int| 0 <= j < i ==> (#[trigger] answers@[j])@ != answer@,
        decreases answers.len() - i,
    {
        if answers[i] == *answer {
            return true;
        }
        i = i + 1;
    }
    false
}

/// Adds to `answers` the answer that the message `text` carries for the command `alias`,
/// unless the list already holds it.
pub fn add_answer(answers: &mut Vec<String>, text: &str, alias: &str) -> (r: Result<
    (),
    AddAnswerError,
>)
    ensures
        add_answer_outcome(old(answers)@, final(answers)@, text@, alias@, r),
        (exists|i: int|
            0 <= i < old(answers)@.len() && (#[trigger] old(answers)@[i])@ == trim(
                remove_all(text@, alias@),
            )) ==> r == Err::<(), AddAnswerError>(AddAnswerError::AlreadyExists) && final(answers)@
            == old(answers)@,
{
    let removed = str_remove_all(text, alias);
    let trimmed = str_trim(removed.as_str());
    let new_answer = String::from_str(trimmed);
    if holds_answer_exec(answers, &new_answer) {
        return Err(AddAnswerError::AlreadyExists);
    }
    answers.push(new_answer);
    assert(answers@.drop_last() =~= old(answers)@);
    Ok(())
}

/// Adds to the configuration's answers of the given kind the answer that the message
/// `text` carries, unless they already hold it; nothing else in the configuration changes.
pub fn add_answer_to_config(cfg: &mut AppConfig, kind: AnswerKind, text: &str) -> (r: Result<
    (),
    AddAnswerError,
>)
    ensures
        add_answer_outcome(
            old(cfg).answers_of(kind),
            final(cfg).answers_of(kind),
            text@,
            add_alias(kind),
            r,
        ),
        *final(cfg) == old(cfg).with_answers(kind, final(cfg).answers_field(kind)),
{
    let alias = add_alias_string(kind);
    let answers = cfg.answers_mut(kind);
    add_answer(answers, text, alias.as_str())
}

/// Every command matches the message that spells its whole name.
pub proof fn lemma_command_matches_own_alias<C: Command>(command: &C)
    ensures
        starts_with(command.alias_view(), command.alias_view()),
{
    assert(command.alias_view().subrange(0, command.alias_view().len() as int)
        =~= command.alias_view());
}

/// Whatever adding an answer returns, the list then holds the answer.
pub proof fn lemma_added_answer_held(
    before: Seq<String>,
    after: Seq<String>,
    text: Seq<char>,
    alias: Seq<char>,
    r: Result<(), AddAnswerError>,
)
    requires
        add_answer_outcome(before, after, text, alias, r),
    ensures
        holds_answer(after, new_answer_text(text, alias)),
{
    if !holds_answer(before, new_answer_text(text, alias)) {
        let i = after.len() - 1;
        assert(after[i]@ == new_answer_text(text, alias));
    }
}

/// An answer equal to any answer of the list, wherever it stands, is refused, and the
/// list stays as it was.
pub proof fn lemma_add_refuses_any_duplicate(
    before: Seq<String>,
    after: Seq<String>,
    text: Seq<char>,
    alias: Seq<char>,
    r: Result<(), AddAnswerError>,
    i: int,
)
    requires
        add_answer_outcome(before, after, text, alias, r),
        0 <= i < before.len(),
        before[i]@ == trim(remove_all(text, alias)),
    ensures
        r == Err::<(), AddAnswerError>(AddAnswerError::AlreadyExists),
        after == before,
{
    assert(holds_answer(before, new_answer_text(text, alias)));
}

/// Adding never makes two answers of a list equal: a list without repeated answers keeps
/// none after any add.
pub proof fn lemma_add_keeps_answers_distinct(
    before: Seq<String>,
    after: Seq<String>,
    text: Seq<char>,
    alias: Seq<char>,
    r: Result<(), AddAnswerError>,
)
    requires
        add_answer_outcome(before, after, text, alias, r),
        forall|i: int, j: int|
            0 <= i < before.len() && 0 <= j < before.len() && i != j ==> (#[trigger] before[i])@
                != (#[trigger] before[j])@,
    ensures
        forall|i: int, j: int|
            0 <= i < after.len() && 0 <= j < after.len() && i != j ==> (#[trigger] after[i])@
                != (#[trigger] after[j])@,
{
    let answer = trim(remove_all(text, alias));
    if !holds_answer(before, answer) {
        assert forall|i: int, j: int|
            0 <= i < after.len() && 0 <= j < after.len() && i != j implies (#[trigger] after[i])@
                != (#[trigger] after[j])@ by {
            let n = before.len() as int;
            if i < n && j < n {
                assert(after[i] == before[i]);
                assert(after[j] == before[j]);
            } else if i == n {
                assert(after[j] == before[j]);
                if after[j]@ == answer {
                    assert(holds_answer(before, answer));
                }
            } else {
                assert(after[i] == before[i]);
                if after[i]@ == answer {
                    assert(holds_answer(before, answer));
                }
            }
        }
    }
}

/// Sending the same answer twice adds it once: the second time the list stays as it is
/// and the command reports that the answer already exists.
pub proof fn lemma_add_answer_twice(
    before: Seq<String>,
    middle: Seq<String>,
    after: Seq<String>,
    text: Seq<char>,
    alias: Seq<char>,
    first: Result<(), AddAnswerError>,
    second: Result<(), AddAnswerError>,
)
    requires
        add_answer_outcome(before, middle, text, alias, first),
        add_answer_outcome(middle, after, text, alias, second),
    ensures
        second == Err::<(), AddAnswerError>(AddAnswerError::AlreadyExists),
        after == middle,
{
    lemma_added_answer_held(before, middle, text, alias, first);
}

/// The text of an answer, or of `default` where there is no answer.
pub open spec fn answer_or(answer: Option<&str>, default: Seq<char>) -> Seq<char> {
    match answer {
        Some(a) => a@,
        None => default,
    }
}

/// The reply to a failed command: a canned answer (or nothing), a space, and the error.
pub fn error_reply(answer: Option<&str>, e: &str) -> (r: String)
    ensures
        r@ == answer_or(answer, Seq::empty()) + " "@ + e@,
{
    let mut s = match answer {
        Some(a) => String::from_str(a),
        None => String::new(),
    };
    s.append(" ");
    s.append(e);
    s
}

/// The reply to a refused command: a canned answer, or `forbidden`.
pub fn forbidden_reply(answer: Option<&str>) -> (r: String)
    ensures
        r@ == answer_or(answer, "forbidden"@),
{
    match answer {
        Some(a) => String::from_str(a),
        None => String::from_str("forbidden"),
    }
}

/// The reply to a command that succeeded: a canned answer, or `success`.
pub fn success_reply(answer: Option<&str>) -> (r: String)
    ensures
        r@ == answer_or(answer, "success"@),
{
    match answer {
        Some(a) => String::from_str(a),
        None => String::from_str("success"),
    }
}

/// The reply to an unknown command: a canned answer, where one is drawn; else no reply.
pub fn unresolved_reply(answer: Option<&str>) -> (r: Option<String>)
    ensures
        r is Some <==> answer is Some,
        r matches Some(t) ==> t@ == answer->0@,
{
    match answer {
        Some(a) => Some(String::from_str(a)),
        None => None,
    }
}

} // verus!
