//! The `config` subcommand: storing one setting, or showing them all.

use vstd::prelude::*;
use crate::config::{Config, ConfigView};

verus! {

/// What the user asks of the stored settings.
#[derive(Debug, Clone, PartialEq, Eq)]
pub enum ConfigAction {
    /// Store the credential.
    OpenaiKey { key: String },
    /// Store the default AWS CLI profile.
    DefaultProfile { profile: String },
    /// Store the default AWS region.
    DefaultRegion { region: String },
    /// Store the default language model.
    Model { model: String },
    /// Show the settings as they are.
    Show,
}

/// What a [`ConfigAction`] holds, as mathematical values.
pub enum ConfigActionView {
    OpenaiKey { key: Seq<char> },
    DefaultProfile { profile: Seq<char> },
    DefaultRegion { region: Seq<char> },
    Model { model: Seq<char> },
    Show,
}

impl View for ConfigAction {
    type V = ConfigActionView;

    open spec fn view(&self) -> ConfigActionView {
        match *self {
            ConfigAction::OpenaiKey { key } => ConfigActionView::OpenaiKey { key: key@ },
            ConfigAction::DefaultProfile { profile } => ConfigActionView::DefaultProfile {
                profile: profile@,
            },
            ConfigAction::DefaultRegion { region } => ConfigActionView::DefaultRegion {
                region: region@,
            },
            ConfigAction::Model { model } => ConfigActionView::Model { model: model@ },
            ConfigAction::Show => ConfigActionView::Show,
        }
    }
}

/// What the caller does once an action has been applied.
#[derive(Debug, Clone, PartialEq, Eq)]
pub enum ConfigOutcome {
    /// Print the notice and save the settings.
    Stored { cfg: Config, notice: &'static str },
    /// Print the settings; nothing is saved.
    Show { cfg: Config },
}

/// What a [`ConfigOutcome`] holds, as mathematical values.
pub enum ConfigOutcomeView {
    Stored { cfg: ConfigView, notice: Seq<char> },
    Show { cfg: ConfigView },
}

impl View for ConfigOutcome {
    type V = ConfigOutcomeView;

    open spec fn view(&self) -> ConfigOutcomeView {
        match *self {
            ConfigOutcome::Stored { cfg, notice } => ConfigOutcomeView::Stored {
                cfg: cfg@,
                notice: notice@,
            },
            ConfigOutcome::Show { cfg } => ConfigOutcomeView::Show { cfg: cfg@ },
        }
    }
}

impl ConfigActionView {
    /// The settings after this action: the one field it names holds the new
    /// value, every other field is as before.
    pub open spec fn applied(self, cfg: ConfigView) -> ConfigView {
        match self {
            ConfigActionView::OpenaiKey { key } => ConfigView { openai_key: Some(key), ..cfg },
            ConfigActionView::DefaultProfile { profile } => ConfigView {
                default_profile: Some(profile),
                ..cfg
            },
            ConfigActionView::DefaultRegion { region } => ConfigView {
                default_region: Some(region),
                ..cfg
            },
            ConfigActionView::Model { model } => ConfigView { model: Some(model), ..cfg },
            ConfigActionView::Show => cfg,
        }
    }

    /// What the user is told once this action has been applied.
    pub open spec fn notice_text(self) -> Seq<char> {
        match self {
            ConfigActionView::OpenaiKey { .. } => "✅ OpenAI API key stored."@,
            ConfigActionView::DefaultProfile { .. } => "✅ Default AWS profile stored."@,
            ConfigActionView::DefaultRegion { .. } => "✅ Default AWS region stored."@,
            ConfigActionView::Model { .. } => "✅ Default LLM model stored."@,
            ConfigActionView::Show => Seq::empty(),
        }
    }

    /// What this action leads to on the given settings.
    pub open spec fn outcome(self, cfg: ConfigView) -> ConfigOutcomeView {
        match self {
            ConfigActionView::Show => ConfigOutcomeView::Show { cfg },
            _ => ConfigOutcomeView::Stored { cfg: self.applied(cfg), notice: self.notice_text() },
        }
    }
}

/// Applies an action to the settings as loaded, and says what is to be done
/// with the result.
pub fn run(cfg: Config, action: ConfigAction) -> (outcome: ConfigOutcome)
    ensures
        outcome@ == action@.outcome(cfg@),
{
    let mut cfg = cfg;
    match action {
        ConfigAction::OpenaiKey { key } => {
            cfg.openai_key = Some(key);
            ConfigOutcome::Stored { cfg, notice: "✅ OpenAI API key stored." }
        },
        ConfigAction::DefaultProfile { profile } => {
            cfg.default_profile = Some(profile);
            ConfigOutcome::Stored { cfg, notice: "✅ Default AWS profile stored." }
        },
        ConfigAction::DefaultRegion { region } => {
            cfg.default_region = Some(region);
            ConfigOutcome::Stored { cfg, notice: "✅ Default AWS region stored." }
        },
        ConfigAction::Model { model } => {
            cfg.model = Some(model);
            ConfigOutcome::Stored { cfg, notice: "✅ Default LLM model stored." }
        },
        ConfigAction::Show => ConfigOutcome::Show { cfg },
    }
}

/// Storing a value twice is storing it once, and showing the settings leaves
/// them as they are.
pub proof fn law_store_is_idempotent(cfg: ConfigView, action: ConfigActionView)
    ensures
        action.applied(action.applied(cfg)) == action.applied(cfg),
        ConfigActionView::Show.applied(cfg) == cfg,
{
}

/// Two actions on different fields give the same settings in either order.
pub proof fn law_stores_on_different_fields_commute(
    cfg: ConfigView,
    key: Seq<char>,
    profile: Seq<char>,
    region: Seq<char>,
    model: Seq<char>,
)
    ensures
        ({
            let k = ConfigActionView::OpenaiKey { key };
            let p = ConfigActionView::DefaultProfile { profile };
            let r = ConfigActionView::DefaultRegion { region };
            let m = ConfigActionView::Model { model };
            &&& p.applied(k.applied(cfg)) == k.applied(p.applied(cfg))
            &&& r.applied(k.applied(cfg)) == k.applied(r.applied(cfg))
            &&& m.applied(k.applied(cfg)) == k.applied(m.applied(cfg))
            &&& r.applied(p.applied(cfg)) == p.applied(r.applied(cfg))
            &&& m.applied(p.applied(cfg)) == p.applied(m.applied(cfg))
            &&& m.applied(r.applied(cfg)) == r.applied(m.applied(cfg))
        }),
{
}

} // verus!
