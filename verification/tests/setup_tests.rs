use coto::commands::setup::{run, Answer, Question, Stage, Wizard};
use coto::config::Config;

fn some(text: &str) -> Option<String> {
    Some(text.to_string())
}

fn text(line: &str) -> Answer {
    Answer::Text(line.to_string())
}

fn fields(cfg: &Config) -> [Option<String>; 4] {
    [
        cfg.openai_key.clone(),
        cfg.default_profile.clone(),
        cfg.default_region.clone(),
        cfg.model.clone(),
    ]
}

#[test]
fn wizard_starts_by_asking_for_the_credential() {
    let wizard = Wizard::start(Config::default());
    assert_eq!(wizard.stage, Stage::Credential);
    assert!(!wizard.is_done());
    assert_eq!(
        wizard.question(),
        Some(Question::Text { prompt: "Enter your OpenAI API key", default: None })
    );
}

#[test]
fn full_session_with_every_question_answered() {
    let answers = vec![
        text("sk-new"),
        Answer::Choice(true),
        text("ops"),
        Answer::Choice(true),
        text("us-west-2"),
        text("gpt-x"),
        Answer::Choice(true),
    ];
    let wizard = run(Config::default(), &answers);
    assert_eq!(wizard.stage, Stage::Saved);
    assert!(wizard.is_done());
    assert_eq!(wizard.question(), None);
    assert_eq!(fields(&wizard.cfg), [some("sk-new"), some("ops"), some("us-west-2"), some("gpt-x")]);
    assert_eq!(wizard.stage.caption(), "✅ Configuration saved.");
}

#[test]
fn empty_lines_take_the_suggested_defaults() {
    let answers =
        vec![text("sk"), Answer::Choice(true), text(""), Answer::Choice(true), text(""), text(""), Answer::Choice(true)];
    let wizard = run(Config::default(), &answers);
    assert_eq!(wizard.stage, Stage::Saved);
    assert_eq!(fields(&wizard.cfg), [some("sk"), some("default"), some("us-east-1"), some("o4-mini")]);
}

#[test]
fn empty_lines_keep_what_is_stored() {
    let cfg = Config {
        openai_key: some("old"),
        default_profile: some("stored-profile"),
        default_region: some("stored-region"),
        model: some("stored-model"),
    };
    let answers =
        vec![text("sk"), Answer::Choice(true), text(""), Answer::Choice(true), text(""), text(""), Answer::Choice(true)];
    let wizard = run(cfg, &answers);
    assert_eq!(
        fields(&wizard.cfg),
        [some("sk"), some("stored-profile"), some("stored-region"), some("stored-model")]
    );
}

#[test]
fn declined_questions_are_skipped() {
    let answers = vec![text("sk"), Answer::Choice(false), Answer::Choice(false), text("m"), Answer::Choice(true)];
    let wizard = run(Config::default(), &answers);
    assert_eq!(wizard.stage, Stage::Saved);
    assert_eq!(fields(&wizard.cfg), [some("sk"), None, None, some("m")]);
}

#[test]
fn declining_to_save_aborts() {
    let answers = vec![text("sk"), Answer::Choice(false), Answer::Choice(false), text("m"), Answer::Choice(false)];
    let wizard = run(Config::default(), &answers);
    assert_eq!(wizard.stage, Stage::Aborted);
    assert!(wizard.is_done());
    assert_eq!(wizard.question(), None);
    assert_eq!(wizard.stage.caption(), "⚠️  Setup aborted — no changes written.");
}

#[test]
fn an_empty_credential_is_asked_for_again() {
    let wizard = Wizard::start(Config::default()).answer(text(""));
    assert_eq!(wizard.stage, Stage::Credential);
    assert_eq!(wizard.cfg.openai_key, None);
    let wizard = wizard.answer(text("sk"));
    assert_eq!(wizard.stage, Stage::WantProfile);
    assert_eq!(wizard.cfg.openai_key, some("sk"));
}

#[test]
fn an_answer_of_the_wrong_kind_changes_nothing() {
    let wizard = Wizard::start(Config::default()).answer(Answer::Choice(true));
    assert_eq!(wizard.stage, Stage::Credential);
    assert_eq!(fields(&wizard.cfg), [None, None, None, None]);
    let wizard = wizard.answer(text("sk")).answer(text("ops"));
    assert_eq!(wizard.stage, Stage::WantProfile);
    assert_eq!(fields(&wizard.cfg), [some("sk"), None, None, None]);
}

#[test]
fn answers_after_the_end_change_nothing() {
    let answers = vec![
        text("sk"),
        Answer::Choice(false),
        Answer::Choice(false),
        text("m"),
        Answer::Choice(true),
        text("late"),
        Answer::Choice(false),
    ];
    let wizard = run(Config::default(), &answers);
    assert_eq!(wizard.stage, Stage::Saved);
    assert_eq!(fields(&wizard.cfg), [some("sk"), None, None, some("m")]);
}

#[test]
fn a_script_that_ends_early_stops_at_the_open_question() {
    let wizard = run(Config::default(), &vec![text("sk"), Answer::Choice(true)]);
    assert_eq!(wizard.stage, Stage::Profile);
    assert_eq!(
        wizard.question(),
        Some(Question::Text {
            prompt: "AWS profile name (as in ~/.aws/credentials or ~/.aws/config)",
            default: some("default"),
        })
    );
    let wizard = run(Config::default(), &Vec::new());
    assert_eq!(wizard.stage, Stage::Credential);
}

#[test]
fn the_questions_in_their_order() {
    let cfg = Config { default_region: some("eu-west-1"), ..Config::default() };
    let mut wizard = Wizard::start(cfg).answer(text("sk"));
    assert_eq!(
        wizard.question(),
        Some(Question::Confirm { prompt: "Set a default AWS CLI profile?", default: true })
    );
    wizard = wizard.answer(Answer::Choice(false));
    assert_eq!(
        wizard.question(),
        Some(Question::Confirm { prompt: "Set a default AWS region?", default: true })
    );
    wizard = wizard.answer(Answer::Choice(true));
    assert_eq!(
        wizard.question(),
        Some(Question::Text { prompt: "AWS region", default: some("eu-west-1") })
    );
    assert_eq!(wizard.default_answer(), some("eu-west-1"));
    wizard = wizard.answer(text("us-west-2"));
    assert_eq!(
        wizard.question(),
        Some(Question::Text { prompt: "Default LLM model", default: some("o4-mini") })
    );
    wizard = wizard.answer(text(""));
    assert_eq!(
        wizard.question(),
        Some(Question::Confirm { prompt: "Save to ~/.config/config.toml?", default: true })
    );
    assert_eq!(fields(&wizard.cfg), [some("sk"), None, some("us-west-2"), some("o4-mini")]);
}
