//! The `setup` subcommand: a guided first-time configuration.
//!
//! The wizard is a fixed line of questions. The caller asks each question on
//! the terminal and hands the answer back; what the answer does to the
//! settings, and which question comes next, is decided here. An answer that
//! does not fit the question leaves everything as it is, so the question is
//! asked again.

use vstd::prelude::*;
use vstd::string::*;
use crate::config::{Config, ConfigView};
use crate::text::text_of;

verus! {

/// Where the wizard stands.
#[derive(Debug, Clone, Copy, PartialEq, Eq)]
pub enum Stage {
    /// Asking for the credential.
    Credential,
    /// Asking whether to set a default profile.
    WantProfile,
    /// Asking for the default profile.
    Profile,
    /// Asking whether to set a default region.
    WantRegion,
    /// Asking for the default region.
    Region,
    /// Asking for the default model.
    Model,
    /// Showing the settings and asking whether to save them.
    WantSave,
    /// Done: the settings are to be saved.
    Saved,
    /// Done: nothing is to be written.
    Aborted,
}

/// What the user is asked.
#[derive(Debug, Clone, PartialEq, Eq)]
pub enum Question {
    /// A line of text. An empty line stands for the default where there is
    /// one, and is not taken where there is none.
    Text { prompt: &'static str, default: Option<String> },
    /// Yes or no.
    Confirm { prompt: &'static str, default: bool },
}

/// What a [`Question`] holds, as mathematical values.
pub enum QuestionView {
    Text { prompt: Seq<char>, default: Option<Seq<char>> },
    Confirm { prompt: Seq<char>, default: bool },
}

impl View for Question {
    type V = QuestionView;

    open spec fn view(&self) -> QuestionView {
        match *self {
            Question::Text { prompt, default } => QuestionView::Text {
                prompt: prompt@,
                default: text_of(default),
            },
            Question::Confirm { prompt, default } => QuestionView::Confirm {
                prompt: prompt@,
                default,
            },
        }
    }
}

/// What the user answered.
#[derive(Debug, Clone, PartialEq, Eq)]
pub enum Answer {
    Text(String),
    Choice(bool),
}

/// What an [`Answer`] holds, as mathematical values.
pub enum AnswerView {
    Text(Seq<char>),
    Choice(bool),
}

impl View for Answer {
    type V = AnswerView;

    open spec fn view(&self) -> AnswerView {
        match *self {
            Answer::Text(text) => AnswerView::Text(text@),
            Answer::Choice(yes) => AnswerView::Choice(yes),
        }
    }
}

/// A wizard session: the stage reached and the settings as answered so far.
#[derive(Debug, Clone, PartialEq, Eq)]
pub struct Wizard {
    pub stage: Stage,
    pub cfg: Config,
}

/// What a [`Wizard`] holds, as mathematical values.
pub struct WizardView {
    pub stage: Stage,
    pub cfg: ConfigView,
}

impl View for Wizard {
    type V = WizardView;

    open spec fn view(&self) -> WizardView {
        WizardView { stage: self.stage, cfg: self.cfg@ }
    }
}

impl Stage {
    /// How far along the line of questions a stage is.
    pub open spec fn rank(self) -> nat {
        match self {
            Stage::Credential => 0,
            Stage::WantProfile => 1,
            Stage::Profile => 2,
            Stage::WantRegion => 3,
            Stage::Region => 4,
            Stage::Model => 5,
            Stage::WantSave => 6,
            Stage::Saved => 7,
            Stage::Aborted => 7,
        }
    }

    /// Whether the wizard is done at this stage.
    pub open spec fn is_final(self) -> bool {
        self == Stage::Saved || self == Stage::Aborted
    }

    /// The line shown at this stage: the question asked, or the closing
    /// notice once the wizard is done.
    pub open spec fn caption_text(self) -> Seq<char> {
        match self {
            Stage::Credential => "Enter your OpenAI API key"@,
            Stage::WantProfile => "Set a default AWS CLI profile?"@,
            Stage::Profile => "AWS profile name (as in ~/.aws/credentials or ~/.aws/config)"@,
            Stage::WantRegion => "Set a default AWS region?"@,
            Stage::Region => "AWS region"@,
            Stage::Model => "Default LLM model"@,
            Stage::WantSave => "Save to ~/.config/config.toml?"@,
            Stage::Saved => "✅ Configuration saved."@,
            Stage::Aborted => "⚠️  Setup aborted — no changes written."@,
        }
    }

    /// The line shown at this stage: the question asked, or the closing
    /// notice once the wizard is done.
    pub fn caption(&self) -> (text: &'static str)
        ensures
            text@ == self.caption_text(),
    {
        match self {
            Stage::Credential => "Enter your OpenAI API key",
            Stage::WantProfile => "Set a default AWS CLI profile?",
            Stage::Profile => "AWS profile name (as in ~/.aws/credentials or ~/.aws/config)",
            Stage::WantRegion => "Set a default AWS region?",
            Stage::Region => "AWS region",
            Stage::Model => "Default LLM model",
            Stage::WantSave => "Save to ~/.config/config.toml?",
            Stage::Saved => "✅ Configuration saved.",
            Stage::Aborted => "⚠️  Setup aborted — no changes written.",
        }
    }
}

/// A stored value, or the fallback where nothing is stored.
pub open spec fn stored_or(stored: Option<Seq<char>>, fallback: Seq<char>) -> Seq<char> {
    match stored {
        Some(text) => text,
        None => fallback,
    }
}

impl WizardView {
    /// The value offered as default at this point: what is stored, or a fixed
    /// suggestion. The credential has none.
    pub open spec fn default_text(self) -> Option<Seq<char>> {
        match self.stage {
            Stage::Profile => Some(stored_or(self.cfg.default_profile, "default"@)),
            Stage::Region => Some(stored_or(self.cfg.default_region, "us-east-1"@)),
            Stage::Model => Some(stored_or(self.cfg.model, "o4-mini"@)),
            _ => None,
        }
    }

    /// The question to ask at this point; none once the wizard is done.
    pub open spec fn question(self) -> Option<QuestionView> {
        match self.stage {
            Stage::Credential | Stage::Profile | Stage::Region | Stage::Model => Some(
                QuestionView::Text { prompt: self.stage.caption_text(), default: self.default_text() },
            ),
            Stage::WantProfile | Stage::WantRegion | Stage::WantSave => Some(
                QuestionView::Confirm { prompt: self.stage.caption_text(), default: true },
            ),
            Stage::Saved | Stage::Aborted => None,
        }
    }

    /// The text that an answer gives at this point: the line as typed, the
    /// default for an empty line, nothing where neither is to be had.
    pub open spec fn entered(self, answer: AnswerView) -> Option<Seq<char>> {
        match answer {
            AnswerView::Text(text) => if text.len() > 0 {
                Some(text)
            } else {
                self.default_text()
            },
            AnswerView::Choice(_) => None,
        }
    }

    /// Whether an answer fits the question asked at this point.
    pub open spec fn accepts(self, answer: AnswerView) -> bool {
        match self.stage {
            Stage::Credential | Stage::Profile | Stage::Region | Stage::Model => self.entered(
                answer,
            ) is Some,
            Stage::WantProfile | Stage::WantRegion | Stage::WantSave => answer is Choice,
            Stage::Saved | Stage::Aborted => false,
        }
    }

    /// The session after an answer. An answer that does not fit changes
    /// nothing.
    pub open spec fn step(self, answer: AnswerView) -> WizardView {
        if !self.accepts(answer) {
            self
        } else {
            match self.stage {
                Stage::Credential => WizardView {
                    stage: Stage::WantProfile,
                    cfg: ConfigView { openai_key: self.entered(answer), ..self.cfg },
                },
                Stage::WantProfile => WizardView {
                    stage: if answer->Choice_0 {
                        Stage::Profile
                    } else {
                        Stage::WantRegion
                    },
                    cfg: self.cfg,
                },
                Stage::Profile => WizardView {
                    stage: Stage::WantRegion,
                    cfg: ConfigView { default_profile: self.entered(answer), ..self.cfg },
                },
                Stage::WantRegion => WizardView {
                    stage: if answer->Choice_0 {
                        Stage::Region
                    } else {
                        Stage::Model
                    },
                    cfg: self.cfg,
                },
                Stage::Region => WizardView {
                    stage: Stage::Model,
                    cfg: ConfigView { default_region: self.entered(answer), ..self.cfg },
                },
                Stage::Model => WizardView {
                    stage: Stage::WantSave,
                    cfg: ConfigView { model: self.entered(answer), ..self.cfg },
                },
                Stage::WantSave => WizardView {
                    stage: if answer->Choice_0 {
                        Stage::Saved
                    } else {
                        Stage::Aborted
                    },
                    cfg: self.cfg,
                },
                Stage::Saved | Stage::Aborted => self,
            }
        }
    }

    /// The session after a line of answers, taken in order.
    pub open spec fn replay(self, answers: Seq<AnswerView>) -> WizardView
        decreases answers.len(),
    {
        if answers.len() == 0 {
            self
        } else {
            self.replay(answers.drop_last()).step(answers.last())
        }
    }
}

/// A stored value, or the fallback where nothing is stored.
fn suggestion(stored: &Option<String>, fallback: &str) -> (text: String)
    ensures
        text@ == stored_or(text_of(*stored), fallback@),
{
    match stored {
        Some(text) => text.clone(),
        None => String::from_str(fallback),
    }
}

impl Wizard {
    /// A session at its first question, over the settings as loaded.
    pub fn start(cfg: Config) -> (wizard: Wizard)
        ensures
            wizard@ == (WizardView { stage: Stage::Credential, cfg: cfg@ }),
    {
        Wizard { stage: Stage::Credential, cfg }
    }

    /// Whether the session is over.
    pub fn is_done(&self) -> (done: bool)
        ensures
            done == self@.stage.is_final(),
    {
        match self.stage {
            Stage::Saved | Stage::Aborted => true,
            _ => false,
        }
    }

    /// The value offered as default for the question at hand.
    pub fn default_answer(&self) -> (default: Option<String>)
        ensures
            text_of(default) == self@.default_text(),
    {
        match self.stage {
            Stage::Profile => Some(suggestion(&self.cfg.default_profile, "default")),
            Stage::Region => Some(suggestion(&self.cfg.default_region, "us-east-1")),
            Stage::Model => Some(suggestion(&self.cfg.model, "o4-mini")),
            _ => None,
        }
    }

    /// The question to ask next; none once the session is over.
    pub fn question(&self) -> (question: Option<Question>)
        ensures
            match question {
                Some(q) => self@.question() == Some(q@),
                None => self@.question() is None,
            },
    {
        match self.stage {
            Stage::Credential | Stage::Profile | Stage::Region | Stage::Model => Some(
                Question::Text { prompt: self.stage.caption(), default: self.default_answer() },
            ),
            Stage::WantProfile | Stage::WantRegion | Stage::WantSave => Some(
                Question::Confirm { prompt: self.stage.caption(), default: true },
            ),
            Stage::Saved | Stage::Aborted => None,
        }
    }

    /// The text that a typed line gives for the question at hand.
    fn entered(&self, line: String) -> (text: Option<String>)
        ensures
            text_of(text) == self@.entered(AnswerView::Text(line@)),
    {
        if line.as_str().is_empty() {
            self.default_answer()
        } else {
            Some(line)
        }
    }

    /// Takes the answer to the question at hand.
    pub fn answer(self, answer: Answer) -> (next: Wizard)
        ensures
            next@ == self@.step(answer@),
    {
        let mut wizard = self;
        match answer {
            Answer::Choice(yes) => {
                match wizard.stage {
                    Stage::WantProfile => {
                        wizard.stage = if yes {
                            Stage::Profile
                        } else {
                            Stage::WantRegion
                        };
                    },
                    Stage::WantRegion => {
                        wizard.stage = if yes {
                            Stage::Region
                        } else {
                            Stage::Model
                        };
                    },
                    Stage::WantSave => {
                        wizard.stage = if yes {
                            Stage::Saved
                        } else {
                            Stage::Aborted
                        };
                    },
                    _ => {},
                }
            },
            Answer::Text(line) => {
                match wizard.stage {
                    Stage::Credential => {
                        if let Some(key) = wizard.entered(line) {
                            wizard.cfg.openai_key = Some(key);
                            wizard.stage = Stage::WantProfile;
                        }
                    },
                    Stage::Profile => {
                        if let Some(profile) = wizard.entered(line) {
                            wizard.cfg.default_profile = Some(profile);
                            wizard.stage = Stage::WantRegion;
                        }
                    },
                    Stage::Region => {
                        if let Some(region) = wizard.entered(line) {
                            wizard.cfg.default_region = Some(region);
                            wizard.stage = Stage::Model;
                        }
                    },
                    Stage::Model => {
                        if let Some(model) = wizard.entered(line) {
                            wizard.cfg.model = Some(model);
                            wizard.stage = Stage::WantSave;
                        }
                    },
                    _ => {},
                }
            },
        }
        wizard
    }
}

/// The answers of a list, as mathematical values.
pub open spec fn answers_view(answers: Seq<Answer>) -> Seq<AnswerView> {
    answers.map_values(|a: Answer| a@)
}

/// A copy of an answer.
fn copy_of(answer: &Answer) -> (copy: Answer)
    ensures
        copy@ == answer@,
{
    match answer {
        Answer::Text(line) => Answer::Text(line.clone()),
        Answer::Choice(yes) => Answer::Choice(*yes),
    }
}

/// Plays a scripted session: starts over the settings as loaded and takes the
/// answers in order.
pub fn run(cfg: Config, answers: &Vec<Answer>) -> (wizard: Wizard)
    ensures
        wizard@ == (WizardView { stage: Stage::Credential, cfg: cfg@ }).replay(
            answers_view(answers@),
        ),
{
    let ghost first = WizardView { stage: Stage::Credential, cfg: cfg@ };
    let ghost script = answers_view(answers@);
    let mut wizard = Wizard::start(cfg);
    let mut i: usize = 0;
    while i < answers.len()
        invariant
            i <= answers.len(),
            script == answers_view(answers@),
            wizard@ == first.replay(script.take(i as int)),
        decreases answers.len() - i,
    {
        proof {
            let upto = script.take(i + 1);
            assert(upto.drop_last() =~= script.take(i as int));
            assert(upto.last() == answers[i as int]@);
        }
        wizard = wizard.answer(copy_of(&answers[i]));
        i += 1;
    }
    assert(script.take(i as int) =~= script);
    wizard
}

/// Each accepted answer moves the wizard on and a refused one leaves it where
/// it is, so a session is over after at most seven accepted answers.
pub proof fn law_wizard_advances(wizard: WizardView, answer: AnswerView)
    ensures
        wizard.accepts(answer) ==> wizard.step(answer).stage.rank() > wizard.stage.rank(),
        !wizard.accepts(answer) ==> wizard.step(answer) == wizard,
        wizard.stage.rank() <= 7,
        wizard.stage.is_final() <==> wizard.stage.rank() == 7,
{
}

/// Once the wizard is done no answer changes anything, and it asks nothing.
pub proof fn law_finished_wizard_stays(wizard: WizardView, answers: Seq<AnswerView>)
    requires
        wizard.stage.is_final(),
    ensures
        wizard.replay(answers) == wizard,
        wizard.question() is None,
    decreases answers.len(),
{
    if answers.len() > 0 {
        law_finished_wizard_stays(wizard, answers.drop_last());
    }
}

/// The wizard never clears a setting: what was stored before an answer is
/// stored after it, with a value of its own or the old one.
pub proof fn law_wizard_keeps_settings(wizard: WizardView, answer: AnswerView)
    ensures
        wizard.cfg.openai_key is Some ==> wizard.step(answer).cfg.openai_key is Some,
        wizard.cfg.default_profile is Some ==> wizard.step(answer).cfg.default_profile is Some,
        wizard.cfg.default_region is Some ==> wizard.step(answer).cfg.default_region is Some,
        wizard.cfg.model is Some ==> wizard.step(answer).cfg.model is Some,
{
}

/// Every session, whatever is answered, holds a credential once the first
/// question is behind it and a model once the question for it is: a session
/// that ends with saving has both to save.
pub proof fn law_saved_session_is_complete(cfg: ConfigView, answers: Seq<AnswerView>)
    ensures
        ({
            let end = (WizardView { stage: Stage::Credential, cfg }).replay(answers);
            &&& end.stage.rank() >= 1 ==> end.cfg.openai_key is Some
            &&& end.stage.rank() >= 6 ==> end.cfg.model is Some
            &&& end.stage == Stage::Saved ==> end.cfg.openai_key is Some && end.cfg.model is Some
        }),
    decreases answers.len(),
{
    if answers.len() > 0 {
        law_saved_session_is_complete(cfg, answers.drop_last());
    }
}

} // verus!
