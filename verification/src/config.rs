//! The bot's settings: its tokens, and the configuration that its admins edit.

use vstd::prelude::*;

verus! {

/// The access tokens of the group and of the user the bot acts as.
pub struct TokenConfig {
    pub group_token: String,
    pub user_token: String,
}

impl TokenConfig {
    /// A token configuration holding the two tokens given.
    pub fn new(group_token: String, user_token: String) -> (r: TokenConfig)
        ensures
            r.group_token == group_token,
            r.user_token == user_token,
    {
        TokenConfig { group_token, user_token }
    }
}

/// A random `usize`, drawn by `rand::random::<usize>()` from the thread-local generator.
/// Nothing is claimed of the value: any `usize` may come back, and two calls may differ.
#[verifier::external_body]
fn random_index() -> usize {
    rand::random::<usize>()
}

/// `k` is a value that a call of the random source returned.
pub closed spec fn drawn(k: usize) -> bool {
    call_ensures(random_index, (), k)
}

/// The answer at `random` modulo the number of answers.
pub fn pick_answer(answers: &Vec<String>, random: usize) -> (r: &str)
    requires
        answers@.len() > 0,
    ensures
        r@ == answers@[random as int % answers@.len() as int]@,
{
    let index = random % answers.len();
    answers[index].as_str()
}

/// The answers that remain of `answers` once every answer equal to `answer` is deleted.
pub open spec fn without_answer(answers: Seq<String>, answer: Seq<char>) -> Seq<String> {
    answers.filter(differs_from(answer))
}

/// Whether an answer differs from `answer`.
pub open spec fn differs_from(answer: Seq<char>) -> spec_fn(String) -> bool {
    |x: String| x@ != answer
}

/// A set of canned answers the bot may reply with, and the chance that it replies at all.
pub trait CommandAnswers: Sized {
    /// The possible answers, in order.
    spec fn answers_view(&self) -> Seq<String>;

    /// The chance of answering: the bit pattern of an `f32` in `[0, 1]`.
    spec fn chance_view(&self) -> u32;

    /// The settings of the pool besides its answers and its chance (such as the shortest
    /// message that earns a joke, or the phrase the pool answers) are those of `other`.
    spec fn same_settings(&self, other: Self) -> bool;

    fn get_possible_answers(&self) -> (r: &Vec<String>)
        ensures
            r@ == self.answers_view(),
    ;

    fn get_mut_possible_answers(&mut self) -> (r: &mut Vec<String>)
        ensures
            r@ == old(self).answers_view(),
            final(self).answers_view() == final(r)@,
            final(self).chance_view() == old(self).chance_view(),
            final(self).same_settings(*old(self)),
    ;

    fn get_chance_of_answer(&self) -> (r: u32)
        ensures
            r == self.chance_view(),
    ;

    fn get_mut_chance_of_answer(&mut self) -> (r: &mut u32)
        ensures
            *r == old(self).chance_view(),
            final(self).chance_view() == *final(r),
            final(self).answers_view() == old(self).answers_view(),
            final(self).same_settings(*old(self)),
    ;

    /// One of the possible answers, drawn at random; `None` when there is none, or when the
    /// chance roll failed (`chance_hit` is whether a uniform draw from `[0, 1)` did not
    /// exceed the chance of answering). The answer is the one at a value drawn from the
    /// random source, modulo the number of answers.
    fn get_answer(&self, chance_hit: bool) -> (r: Option<&str>)
        ensures
            r is None <==> (self.answers_view().len() == 0 || !chance_hit),
            r matches Some(a) ==> exists|i: int|
                0 <= i < self.answers_view().len() && a@ == (#[trigger] self.answers_view()[i])@,
            r matches Some(a) ==> exists|k: usize|
                #[trigger] drawn(k) && a@ == self.answers_view()[k as int
                    % self.answers_view().len() as int]@,
    {
        let answers = self.get_possible_answers();
        if answers.len() == 0 || !chance_hit {
            return None;
        }
        let random = random_index();
        let answer = pick_answer(answers, random);
        let ghost i = random as int % answers@.len() as int;
        assert(answer@ == self.answers_view()[i]@);
        assert(drawn(random));
        Some(answer)
    }

    /// Adds `answer` at the end of the possible answers.
    fn add_possible_answer(&mut self, answer: String)
        ensures
            final(self).answers_view() == old(self).answers_view().push(answer),
            final(self).chance_view() == old(self).chance_view(),
            final(self).same_settings(*old(self)),
    {
        self.get_mut_possible_answers().push(answer);
    }

    /// Deletes every possible answer equal to `answer`, keeping the others in order.
    fn delete_possible_answer(&mut self, answer: String)
        ensures
            final(self).answers_view() == without_answer(old(self).answers_view(), answer@),
            final(self).chance_view() == old(self).chance_view(),
            final(self).same_settings(*old(self)),
    {
        let answers = self.get_mut_possible_answers();
        retain_other_answers(answers, &answer);
    }
}

/// Every answer is drawn for some value of the random source: the one at that value
/// modulo the number of answers is answer `i` when the value is `i` itself.
pub proof fn lemma_every_answer_drawable(answers: Seq<String>, i: int)
    requires
        0 <= i < answers.len(),
        answers.len() <= usize::MAX,
    ensures
        exists|k: usize| #[trigger] answers[k as int % answers.len() as int] == answers[i],
{
    let k = i as usize;
    vstd::arithmetic::div_mod::lemma_small_mod(i as nat, answers.len());
    assert(answers[k as int % answers.len() as int] == answers[i]);
}

/// Deleting from a list with one more answer at its end.
pub proof fn lemma_without_answer_push(answers: Seq<String>, last: String, answer: Seq<char>)
    ensures
        without_answer(answers.push(last), answer) == if last@ != answer {
            without_answer(answers, answer).push(last)
        } else {
            without_answer(answers, answer)
        },
{
    reveal(Seq::filter);
    assert(answers.push(last).drop_last() =~= answers);
    assert(answers.push(last).last() == last);
}

/// Deletes from `answers` every answer equal to `answer`, keeping the others in order.
pub fn retain_other_answers(answers: &mut Vec<String>, answer: &String)
    ensures
        final(answers)@ == without_answer(old(answers)@, answer@),
{
    let mut kept: Vec<String> = Vec::new();
    let n = answers.len();
    let mut i: usize = 0;
    assert(answers@.take(0) =~= Seq::<String>::empty());
    proof {
        reveal(Seq::filter);
    }
    while i < n
        invariant
            n == answers@.len(),
            answers@ == old(answers)@,
            i <= n,
            kept@ == without_answer(answers@.take(i as int), answer@),
        decreases n - i,
    {
        assert(answers@.take(i + 1).drop_last() =~= answers@.take(i as int));
        assert(answers@.take(i + 1).last() == answers@[i as int]);
        let ghost before = kept@;
        if answers[i] != *answer {
            kept.push(answers[i].clone());
            assert(kept@ == before.push(answers@[i as int]));
        }
        assert(answers@.take(i + 1) =~= answers@.take(i as int).push(answers@[i as int]));
        proof {
            lemma_without_answer_push(answers@.take(i as int), answers@[i as int], answer@);
        }
        i = i + 1;
    }
    assert(answers@.take(n as int) =~= answers@);
    *answers = kept;
}

/// Deleting an answer right after adding it leaves the list as deleting it alone would:
/// no copy of the answer remains, and every other answer keeps its place.
pub proof fn lemma_delete_undoes_add(answers: Seq<String>, answer: String)
    ensures
        without_answer(answers.push(answer), answer@) == without_answer(answers, answer@),
{
    lemma_without_answer_push(answers, answer, answer@);
}

/// After deleting an answer, no possible answer equals it.
pub proof fn lemma_deleted_answer_absent(answers: Seq<String>, answer: Seq<char>, i: int)
    requires
        0 <= i < without_answer(answers, answer).len(),
    ensures
        without_answer(answers, answer)[i]@ != answer,
{
    answers.lemma_filter_pred(differs_from(answer), i);
}

/// The jokes the bot tells, and the shortest message that earns one.
pub struct Anecdote {
    pub answers: Vec<String>,
    pub min_length: usize,
    /// The chance of answering: the bit pattern of an `f32` in `[0, 1]`.
    pub chance_of_answer: u32,
}

/// The answers to the phrase that asks the bot whether it is alive.
pub struct CheckOk {
    pub trigger_phrase: String,
    pub answers: Vec<String>,
    /// The chance of answering: the bit pattern of an `f32` in `[0, 1]`.
    pub chance_of_answer: u32,
}

/// The answers the bot gives when a command fails, is not known, is refused or succeeds.
pub struct ReplyAnswers {
    pub answers: Vec<String>,
    /// The chance of answering: the bit pattern of an `f32` in `[0, 1]`.
    pub chance_of_answer: u32,
}

impl CommandAnswers for Anecdote {
    open spec fn answers_view(&self) -> Seq<String> {
        self.answers@
    }

    open spec fn chance_view(&self) -> u32 {
        self.chance_of_answer
    }

    open spec fn same_settings(&self, other: Self) -> bool {
        self.min_length == other.min_length
    }

    fn get_possible_answers(&self) -> (r: &Vec<String>) {
        &self.answers
    }

    fn get_mut_possible_answers(&mut self) -> (r: &mut Vec<String>) {
        &mut self.answers
    }

    fn get_chance_of_answer(&self) -> (r: u32) {
        self.chance_of_answer
    }

    fn get_mut_chance_of_answer(&mut self) -> (r: &mut u32) {
        &mut self.chance_of_answer
    }
}

impl CommandAnswers for CheckOk {
    open spec fn answers_view(&self) -> Seq<String> {
        self.answers@
    }

    open spec fn chance_view(&self) -> u32 {
        self.chance_of_answer
    }

    open spec fn same_settings(&self, other: Self) -> bool {
        self.trigger_phrase == other.trigger_phrase
    }

    fn get_possible_answers(&self) -> (r: &Vec<String>) {
        &self.answers
    }

    fn get_mut_possible_answers(&mut self) -> (r: &mut Vec<String>) {
        &mut self.answers
    }

    fn get_chance_of_answer(&self) -> (r: u32) {
        self.chance_of_answer
    }

    fn get_mut_chance_of_answer(&mut self) -> (r: &mut u32) {
        &mut self.chance_of_answer
    }
}

impl CommandAnswers for ReplyAnswers {
    open spec fn answers_view(&self) -> Seq<String> {
        self.answers@
    }

    open spec fn chance_view(&self) -> u32 {
        self.chance_of_answer
    }

    open spec fn same_settings(&self, other: Self) -> bool {
        true
    }

    fn get_possible_answers(&self) -> (r: &Vec<String>) {
        &self.answers
    }

    fn get_mut_possible_answers(&mut self) -> (r: &mut Vec<String>) {
        &mut self.answers
    }

    fn get_chance_of_answer(&self) -> (r: u32) {
        self.chance_of_answer
    }

    fn get_mut_chance_of_answer(&mut self) -> (r: &mut u32) {
        &mut self.chance_of_answer
    }
}

impl Default for Anecdote {
    fn default() -> (r: Self)
        ensures
            r.answers@.len() == 0,
            r.min_length == 0,
            r.chance_of_answer == 0,
    {
        Anecdote { answers: Vec::new(), min_length: 0, chance_of_answer: 0 }
    }
}

impl Default for CheckOk {
    fn default() -> (r: Self)
        ensures
            r.trigger_phrase@.len() == 0,
            r.answers@.len() == 0,
            r.chance_of_answer == 0,
    {
        CheckOk { trigger_phrase: String::new(), answers: Vec::new(), chance_of_answer: 0 }
    }
}

impl Default for ReplyAnswers {
    fn default() -> (r: Self)
        ensures
            r.answers@.len() == 0,
            r.chance_of_answer == 0,
    {
        ReplyAnswers { answers: Vec::new(), chance_of_answer: 0 }
    }
}

/// The kinds of canned answers, each stored in its own field of the configuration.
#[derive(Clone, Copy, Debug, PartialEq, Eq, Structural)]
pub enum AnswerKind {
    Anecdote,
    CheckOk,
    Error,
    Unresolved,
    Forbidden,
    Success,
}

/// The configuration the admins edit: the group the bot posts to, the chats it obeys and
/// watches, and its canned answers.
pub struct AppConfig {
    pub group_id: Option<i32>,
    pub admin_chat_ids: Vec<i32>,
    pub main_chat_ids: Vec<i32>,
    pub anecdote: Anecdote,
    pub checkok: CheckOk,
    pub error: ReplyAnswers,
    pub unresolved: ReplyAnswers,
    pub forbidden: ReplyAnswers,
    pub success: ReplyAnswers,
}

impl AppConfig {
    /// The list of answers of the given kind.
    pub open spec fn answers_field(self, kind: AnswerKind) -> Vec<String> {
        match kind {
            AnswerKind::Anecdote => self.anecdote.answers,
            AnswerKind::CheckOk => self.checkok.answers,
            AnswerKind::Error => self.error.answers,
            AnswerKind::Unresolved => self.unresolved.answers,
            AnswerKind::Forbidden => self.forbidden.answers,
            AnswerKind::Success => self.success.answers,
        }
    }

    /// The answers of the given kind.
    pub open spec fn answers_of(self, kind: AnswerKind) -> Seq<String> {
        self.answers_field(kind)@
    }

    /// This configuration with the answers of the given kind replaced by `answers`.
    pub open spec fn with_answers(self, kind: AnswerKind, answers: Vec<String>) -> AppConfig {
        match kind {
            AnswerKind::Anecdote => AppConfig {
                anecdote: Anecdote { answers, ..self.anecdote },
                ..self
            },
            AnswerKind::CheckOk => AppConfig { checkok: CheckOk { answers, ..self.checkok }, ..self },
            AnswerKind::Error => AppConfig { error: ReplyAnswers { answers, ..self.error }, ..self },
            AnswerKind::Unresolved => AppConfig {
                unresolved: ReplyAnswers { answers, ..self.unresolved },
                ..self
            },
            AnswerKind::Forbidden => AppConfig {
                forbidden: ReplyAnswers { answers, ..self.forbidden },
                ..self
            },
            AnswerKind::Success => AppConfig {
                success: ReplyAnswers { answers, ..self.success },
                ..self
            },
        }
    }

    /// The list of answers of the given kind, to be edited in place; every other part of
    /// the configuration stays as it is.
    pub fn answers_mut(&mut self, kind: AnswerKind) -> (r: &mut Vec<String>)
        ensures
            r@ == old(self).answers_of(kind),
            *final(self) == old(self).with_answers(kind, *final(r)),
    {
        match kind {
            AnswerKind::Anecdote => &mut self.anecdote.answers,
            AnswerKind::CheckOk => &mut self.checkok.answers,
            AnswerKind::Error => &mut self.error.answers,
            AnswerKind::Unresolved => &mut self.unresolved.answers,
            AnswerKind::Forbidden => &mut self.forbidden.answers,
            AnswerKind::Success => &mut self.success.answers,
        }
    }

    /// Whether `chat_id` is one of the admins' chats.
    pub fn is_admin(&self, chat_id: i32) -> (r: bool)
        ensures
            r == self.admin_chat_ids@.contains(chat_id),
    {
        contains_id(&self.admin_chat_ids, chat_id)
    }
}

/// Whether `ids` holds `id`.
pub fn contains_id(ids: &Vec<i32>, id: i32) -> (r: bool)
    ensures
        r == ids@.contains(id),
{
    let mut i: usize = 0;
    while i < ids.len()
        invariant
            i <= ids.len(),
            forall|j: int| 0 <= j < i ==> ids@[j] != id,
        decreases ids.len() - i,
    {
        if ids[i] == id {
            return true;
        }
        i = i + 1;
    }
    false
}

impl Default for AppConfig {
    fn default() -> (r: Self)
        ensures
            r.group_id is None,
            r.admin_chat_ids@.len() == 0,
            r.main_chat_ids@.len() == 0,
            forall|kind: AnswerKind| (#[trigger] r.answers_of(kind)).len() == 0,
            r.anecdote.min_length == 0,
            r.anecdote.chance_of_answer == 0,
            r.checkok.trigger_phrase@.len() == 0,
            r.checkok.chance_of_answer == 0,
            r.error.chance_of_answer == 0,
            r.unresolved.chance_of_answer == 0,
            r.forbidden.chance_of_answer == 0,
            r.success.chance_of_answer == 0,
    {
        AppConfig {
            group_id: None,
            admin_chat_ids: Vec::new(),
            main_chat_ids: Vec::new(),
            anecdote: Anecdote::default(),
            checkok: CheckOk::default(),
            error: ReplyAnswers::default(),
            unresolved: ReplyAnswers::default(),
            forbidden: ReplyAnswers::default(),
            success: ReplyAnswers::default(),
        }
    }
}

} // verus!
