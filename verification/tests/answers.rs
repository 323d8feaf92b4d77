use p4nimau_rust::config::{
    pick_answer, retain_other_answers, Anecdote, AnswerKind, AppConfig, CheckOk, CommandAnswers,
    ReplyAnswers, TokenConfig,
};

fn strings(items: &[&str]) -> Vec<String> {
    items.iter().map(|x| x.to_string()).collect()
}

/// Whether a uniform draw from [0, 1) did not exceed the chance stored as `f32` bits.
fn chance_hit(chance_bits: u32) -> bool {
    !(rand::random::<f32>() > f32::from_bits(chance_bits))
}

#[test]
fn command_trait() {
    let command = ReplyAnswers {
        answers: vec!["a", "b", "c"].iter().map(|x| x.to_string()).collect(),
        chance_of_answer: 1.0f32.to_bits(),
    };
    for _ in 0..6 {
        let answer = command.get_answer(chance_hit(command.get_chance_of_answer())).unwrap();
        assert!(command.get_possible_answers().contains(&answer.to_string()));
    }
}

#[test]
fn get_answer_none_without_answers_or_on_a_missed_roll() {
    let empty = Anecdote { answers: vec![], min_length: 0, chance_of_answer: 1.0f32.to_bits() };
    assert_eq!(empty.get_answer(true), None);
    let full = CheckOk {
        trigger_phrase: "ok?".to_string(),
        answers: strings(&["yes"]),
        chance_of_answer: 0.0f32.to_bits(),
    };
    assert_eq!(full.get_answer(false), None);
    assert_eq!(full.get_answer(true), Some("yes"));
}

#[test]
fn answer_given_exactly_on_a_hit() {
    let pool = ReplyAnswers { answers: strings(&["x"]), chance_of_answer: 0.0f32.to_bits() };
    for _ in 0..20 {
        let hit = chance_hit(pool.get_chance_of_answer());
        let answer = pool.get_answer(hit);
        assert_eq!(answer.is_some(), hit);
    }
}

#[test]
fn pick_answer_wraps_the_random_index() {
    let answers = strings(&["a", "b", "c"]);
    assert_eq!(pick_answer(&answers, 0), "a");
    assert_eq!(pick_answer(&answers, 4), "b");
    assert_eq!(pick_answer(&answers, usize::MAX), ["a", "b", "c"][usize::MAX % 3]);
}

#[test]
fn add_then_delete_answer() {
    let mut pool = ReplyAnswers { answers: strings(&["x", "y", "x", "z"]), chance_of_answer: 0 };
    pool.add_possible_answer("w".to_string());
    assert_eq!(pool.answers, strings(&["x", "y", "x", "z", "w"]));
    pool.delete_possible_answer("x".to_string());
    assert_eq!(pool.answers, strings(&["y", "z", "w"]));
    pool.delete_possible_answer("w".to_string());
    assert_eq!(pool.answers, strings(&["y", "z"]));
    pool.delete_possible_answer("absent".to_string());
    assert_eq!(pool.answers, strings(&["y", "z"]));
}

#[test]
fn add_and_delete_keep_the_settings() {
    let mut joke = Anecdote { answers: strings(&["a"]), min_length: 12, chance_of_answer: 3 };
    joke.add_possible_answer("b".to_string());
    joke.delete_possible_answer("a".to_string());
    assert_eq!(joke.answers, strings(&["b"]));
    assert_eq!((joke.min_length, joke.chance_of_answer), (12, 3));
    let mut ok = CheckOk { trigger_phrase: "alive?".to_string(), answers: vec![], chance_of_answer: 0 };
    ok.add_possible_answer("yes".to_string());
    assert_eq!(ok.trigger_phrase, "alive?");
}

#[test]
fn retain_keeps_order() {
    let mut answers = strings(&["a", "b", "a", "c", "a"]);
    retain_other_answers(&mut answers, &"a".to_string());
    assert_eq!(answers, strings(&["b", "c"]));
}

#[test]
fn chance_accessors() {
    let mut joke = Anecdote { answers: vec![], min_length: 10, chance_of_answer: 0 };
    *joke.get_mut_chance_of_answer() = 0.5f32.to_bits();
    assert_eq!(f32::from_bits(joke.get_chance_of_answer()), 0.5);
    joke.get_mut_possible_answers().push("joke".to_string());
    assert_eq!(joke.get_possible_answers(), &strings(&["joke"]));
    assert_eq!(joke.min_length, 10);
}

#[test]
fn token_config_new() {
    let cfg = TokenConfig::new("group".to_string(), "user".to_string());
    assert_eq!(cfg.group_token, "group");
    assert_eq!(cfg.user_token, "user");
}

#[test]
fn default_config_is_empty() {
    let cfg = AppConfig::default();
    assert_eq!(cfg.group_id, None);
    assert!(cfg.admin_chat_ids.is_empty());
    assert!(cfg.main_chat_ids.is_empty());
    assert!(cfg.anecdote.answers.is_empty());
    assert!(cfg.checkok.trigger_phrase.is_empty());
    assert_eq!(cfg.success.chance_of_answer, 0);
}

#[test]
fn answers_mut_edits_one_kind() {
    let mut cfg = AppConfig::default();
    cfg.answers_mut(AnswerKind::Forbidden).push("no".to_string());
    assert_eq!(cfg.forbidden.answers, strings(&["no"]));
    assert!(cfg.error.answers.is_empty());
    assert!(cfg.anecdote.answers.is_empty());
}

#[test]
fn is_admin_checks_the_admin_chats() {
    let mut cfg = AppConfig::default();
    cfg.admin_chat_ids = vec![3, 2000000001];
    assert!(cfg.is_admin(2000000001));
    assert!(!cfg.is_admin(4));
}
