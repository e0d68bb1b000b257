//! Merging the sources of a request into its final parameters.
//!
//! Three sources feed a request: what the invocation gives, what the user has
//! stored, and the environment. For each field the first source that holds a
//! value wins, in that order. The prompt comes from the invocation alone.

use vstd::prelude::*;
use crate::config::{Config, ConfigView};
use crate::text::{copy_of, text_of};

verus! {

/// What one invocation asks for.
#[derive(Debug, Clone, PartialEq, Eq)]
pub struct Overrides {
    /// The request in natural language.
    pub prompt: Option<String>,
    /// A credential given for this invocation only.
    pub credential: Option<String>,
    pub model: Option<String>,
    pub profile: Option<String>,
    pub region: Option<String>,
    /// Where the snippet goes; standard output where absent.
    pub output: Option<String>,
    /// Show the request instead of sending it.
    pub dry_run: bool,
}

/// What an [`Overrides`] holds, as mathematical values.
pub struct OverridesView {
    pub prompt: Option<Seq<char>>,
    pub credential: Option<Seq<char>>,
    pub model: Option<Seq<char>>,
    pub profile: Option<Seq<char>>,
    pub region: Option<Seq<char>>,
    pub output: Option<Seq<char>>,
    pub dry_run: bool,
}

impl View for Overrides {
    type V = OverridesView;

    open spec fn view(&self) -> OverridesView {
        OverridesView {
            prompt: text_of(self.prompt),
            credential: text_of(self.credential),
            model: text_of(self.model),
            profile: text_of(self.profile),
            region: text_of(self.region),
            output: text_of(self.output),
            dry_run: self.dry_run,
        }
    }
}

/// What the process environment contributes: the credential fallback.
#[derive(Debug, Clone, PartialEq, Eq)]
pub struct Environment {
    pub credential: Option<String>,
}

/// The parameters of one request, every source merged.
#[derive(Debug, Clone, PartialEq, Eq)]
pub struct ResolvedParams {
    pub prompt: String,
    pub model: Option<String>,
    pub profile: Option<String>,
    pub region: Option<String>,
    pub credential: String,
    pub dry_run: bool,
    pub output: Option<String>,
}

/// What a [`ResolvedParams`] holds, as mathematical values.
pub struct ResolvedView {
    pub prompt: Seq<char>,
    pub model: Option<Seq<char>>,
    pub profile: Option<Seq<char>>,
    pub region: Option<Seq<char>>,
    pub credential: Seq<char>,
    pub dry_run: bool,
    pub output: Option<Seq<char>>,
}

impl View for ResolvedParams {
    type V = ResolvedView;

    open spec fn view(&self) -> ResolvedView {
        ResolvedView {
            prompt: self.prompt@,
            model: text_of(self.model),
            profile: text_of(self.profile),
            region: text_of(self.region),
            credential: self.credential@,
            dry_run: self.dry_run,
            output: text_of(self.output),
        }
    }
}

impl ResolvedView {
    /// A request may go out only with a prompt that says something.
    pub open spec fn well_formed(self) -> bool {
        self.prompt.len() > 0
    }
}

/// Why no request could be put together.
#[derive(Debug, Clone, Copy, PartialEq, Eq)]
pub enum ResolutionError {
    /// The invocation gave no prompt, or an empty one.
    MissingPrompt,
    /// No source holds a credential.
    MissingCredential,
}

impl ResolutionError {
    /// What to tell the user about this error, with the way to mend it.
    pub open spec fn message_text(self) -> Seq<char> {
        match self {
            ResolutionError::MissingPrompt => "Error: --prompt is required for gen"@,
            ResolutionError::MissingCredential =>
                "OpenAI API key not set; run `coto config openai-key <KEY>` or set OPENAI_API_KEY"@,
        }
    }

    /// The diagnostic for this error.
    pub fn message(&self) -> (text: &'static str)
        ensures
            text@ == self.message_text(),
    {
        match self {
            ResolutionError::MissingPrompt => "Error: --prompt is required for gen",
            ResolutionError::MissingCredential =>
                "OpenAI API key not set; run `coto config openai-key <KEY>` or set OPENAI_API_KEY",
        }
    }
}

/// The first of two sources, unless it is absent.
pub open spec fn or_else(first: Option<Seq<char>>, second: Option<Seq<char>>) -> Option<
    Seq<char>,
> {
    if first is Some {
        first
    } else {
        second
    }
}

/// The credential of a request: the invocation's, else the stored one, else
/// the environment's.
pub open spec fn credential_of(
    overrides: OverridesView,
    stored: ConfigView,
    environment: Option<Seq<char>>,
) -> Option<Seq<char>> {
    or_else(overrides.credential, or_else(stored.openai_key, environment))
}

/// Whether a prompt says something: it is there and not empty.
pub open spec fn is_prompt(prompt: Option<Seq<char>>) -> bool {
    prompt is Some && prompt->0.len() > 0
}

/// Whether an invocation carries a prompt.
pub open spec fn has_prompt(overrides: OverridesView) -> bool {
    is_prompt(overrides.prompt)
}

/// The merge of the three sources. A missing prompt is reported before a
/// missing credential.
pub open spec fn resolution(
    overrides: OverridesView,
    stored: ConfigView,
    environment: Option<Seq<char>>,
) -> Result<ResolvedView, ResolutionError> {
    if !has_prompt(overrides) {
        Err(ResolutionError::MissingPrompt)
    } else {
        match credential_of(overrides, stored, environment) {
            None => Err(ResolutionError::MissingCredential),
            Some(credential) => Ok(
                ResolvedView {
                    prompt: overrides.prompt->0,
                    model: or_else(overrides.model, stored.model),
                    profile: or_else(overrides.profile, stored.default_profile),
                    region: or_else(overrides.region, stored.default_region),
                    credential,
                    dry_run: overrides.dry_run,
                    output: overrides.output,
                },
            ),
        }
    }
}

/// The outcome of a merge as mathematical values.
pub open spec fn resolved_view(outcome: Result<ResolvedParams, ResolutionError>) -> Result<
    ResolvedView,
    ResolutionError,
> {
    match outcome {
        Ok(params) => Ok(params@),
        Err(e) => Err(e),
    }
}

/// The first source where it holds a value, else a copy of the second.
fn pick(first: Option<String>, second: &Option<String>) -> (picked: Option<String>)
    ensures
        text_of(picked) == or_else(text_of(first), text_of(*second)),
{
    match first {
        Some(text) => Some(text),
        None => copy_of(second),
    }
}

/// Tells whether a prompt was given. This can be asked before the stored
/// settings are read, so that an invocation without a prompt touches
/// nothing.
pub fn prompt_given(prompt: &Option<String>) -> (given: bool)
    ensures
        given == is_prompt(text_of(*prompt)),
{
    match prompt {
        Some(text) => !text.as_str().is_empty(),
        None => false,
    }
}

/// Merges what the invocation gives, what is stored and what the environment
/// holds into the parameters of one request.
pub fn resolve(overrides: Overrides, stored: &Config, environment: &Environment) -> (outcome:
    Result<ResolvedParams, ResolutionError>)
    ensures
        resolved_view(outcome) == resolution(overrides@, stored@, text_of(environment.credential)),
        outcome matches Ok(params) ==> params@.well_formed(),
{
    if !prompt_given(&overrides.prompt) {
        return Err(ResolutionError::MissingPrompt);
    }
    let prompt = match overrides.prompt {
        Some(prompt) => prompt,
        None => {
            return Err(ResolutionError::MissingPrompt);
        },
    };
    let fallback = pick(copy_of(&stored.openai_key), &environment.credential);
    let credential = match pick(overrides.credential, &fallback) {
        Some(credential) => credential,
        None => {
            return Err(ResolutionError::MissingCredential);
        },
    };
    Ok(
        ResolvedParams {
            prompt,
            model: pick(overrides.model, &stored.model),
            profile: pick(overrides.profile, &stored.default_profile),
            region: pick(overrides.region, &stored.default_region),
            credential,
            dry_run: overrides.dry_run,
            output: overrides.output,
        },
    )
}

/// The credential comes from the invocation where it gives one, else from the
/// stored settings, else from the environment; with a prompt given, the merge
/// fails for want of a credential exactly when all three are absent.
pub proof fn law_credential_precedence(
    overrides: OverridesView,
    stored: ConfigView,
    environment: Option<Seq<char>>,
)
    requires
        has_prompt(overrides),
    ensures
        overrides.credential is Some ==> resolution(overrides, stored, environment) is Ok
            && resolution(overrides, stored, environment)->Ok_0.credential
            == overrides.credential->0,
        overrides.credential is None && stored.openai_key is Some ==> resolution(
            overrides,
            stored,
            environment,
        ) is Ok && resolution(overrides, stored, environment)->Ok_0.credential
            == stored.openai_key->0,
        overrides.credential is None && stored.openai_key is None && environment is Some
            ==> resolution(overrides, stored, environment) is Ok && resolution(
            overrides,
            stored,
            environment,
        )->Ok_0.credential == environment->0,
        resolution(overrides, stored, environment) == Err::<ResolvedView, ResolutionError>(
            ResolutionError::MissingCredential,
        ) <==> overrides.credential is None && stored.openai_key is None && environment is None,
{
}

/// Model, profile and region come from the invocation where it gives them and
/// from the stored settings otherwise; the environment has no say in them.
pub proof fn law_override_precedence(
    overrides: OverridesView,
    stored: ConfigView,
    environment: Option<Seq<char>>,
)
    requires
        resolution(overrides, stored, environment) is Ok,
    ensures
        ({
            let params = resolution(overrides, stored, environment)->Ok_0;
            &&& overrides.model is Some ==> params.model == overrides.model
            &&& overrides.model is None ==> params.model == stored.model
            &&& overrides.profile is Some ==> params.profile == overrides.profile
            &&& overrides.profile is None ==> params.profile == stored.default_profile
            &&& overrides.region is Some ==> params.region == overrides.region
            &&& overrides.region is None ==> params.region == stored.default_region
        }),
{
}

/// A merge fails for want of a prompt exactly when the invocation gives none,
/// whatever the other sources hold.
pub proof fn law_prompt_required(
    overrides: OverridesView,
    stored: ConfigView,
    environment: Option<Seq<char>>,
)
    ensures
        resolution(overrides, stored, environment) == Err::<ResolvedView, ResolutionError>(
            ResolutionError::MissingPrompt,
        ) <==> !has_prompt(overrides),
        resolution(overrides, stored, environment) matches Ok(params) ==> params.prompt
            == overrides.prompt->0 && params.well_formed(),
{
}

} // verus!
