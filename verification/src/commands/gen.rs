//! The `gen` subcommand: from an invocation to a snippet.
//!
//! Generating a snippet takes one exchange with the generation service, and
//! the caller makes it. [`run`] decides what to do with an invocation: show
//! the request, send it, or give up. [`finish`] decides what to do with the
//! service's reply: where the snippet goes, or why there is none.

use vstd::prelude::*;
use crate::client::{receive, reception, Reply, ReplyView, TransportError, TransportErrorView};
use crate::config::{Config, ConfigView};
use crate::extract::{extract, extraction, SchemaError};
use crate::json::json_pretty;
use crate::payload::{build, payload_doc, payload_for, GenerationPayload, PayloadView};
use crate::resolve::{resolution, resolve, Environment, Overrides, OverridesView};
use crate::resolve::{ResolutionError, ResolvedView};
use crate::text::text_of;

verus! {

/// Why an invocation ended without a snippet.
#[derive(Debug, Clone, PartialEq, Eq)]
pub enum GenError {
    /// The invocation gave no prompt.
    MissingPrompt,
    /// No credential is stored or set in the environment.
    MissingCredential,
    /// The request could not be written out for a dry run.
    Unrenderable,
    /// The exchange with the service failed.
    Transport(TransportError),
    /// The service's reply does not have the agreed shape.
    Schema(SchemaError),
}

/// What a [`GenError`] holds, as mathematical values.
pub enum GenErrorView {
    MissingPrompt,
    MissingCredential,
    Unrenderable,
    Transport(TransportErrorView),
    Schema(SchemaError),
}

impl View for GenError {
    type V = GenErrorView;

    open spec fn view(&self) -> GenErrorView {
        match *self {
            GenError::MissingPrompt => GenErrorView::MissingPrompt,
            GenError::MissingCredential => GenErrorView::MissingCredential,
            GenError::Unrenderable => GenErrorView::Unrenderable,
            GenError::Transport(e) => GenErrorView::Transport(e@),
            GenError::Schema(e) => GenErrorView::Schema(e),
        }
    }
}

/// The kinds of failure, by who has to act on them.
#[derive(Debug, Clone, Copy, PartialEq, Eq)]
pub enum ErrorKind {
    /// The user must repeat the invocation with corrected input.
    UserInput,
    /// The user must store a credential or set it in the environment.
    Configuration,
    /// The exchange with the service failed.
    Transport,
    /// The model did not keep to the reply's shape.
    Schema,
    /// The request could not be written out as JSON.
    Internal,
}

impl GenErrorView {
    /// The kind of a failure.
    pub open spec fn kind(self) -> ErrorKind {
        match self {
            GenErrorView::MissingPrompt => ErrorKind::UserInput,
            GenErrorView::MissingCredential => ErrorKind::Configuration,
            GenErrorView::Unrenderable => ErrorKind::Internal,
            GenErrorView::Transport(_) => ErrorKind::Transport,
            GenErrorView::Schema(_) => ErrorKind::Schema,
        }
    }

    /// The stage that failed, with the remedy where the user has one.
    pub open spec fn headline_text(self) -> Seq<char> {
        match self {
            GenErrorView::MissingPrompt => ResolutionError::MissingPrompt.message_text(),
            GenErrorView::MissingCredential => ResolutionError::MissingCredential.message_text(),
            GenErrorView::Unrenderable => "Failed to render the request payload"@,
            GenErrorView::Transport(e) => e.headline_text(),
            GenErrorView::Schema(e) => e.message_text(),
        }
    }
}

impl GenError {
    /// The kind of this failure.
    pub fn kind(&self) -> (kind: ErrorKind)
        ensures
            kind == self@.kind(),
    {
        match self {
            GenError::MissingPrompt => ErrorKind::UserInput,
            GenError::MissingCredential => ErrorKind::Configuration,
            GenError::Unrenderable => ErrorKind::Internal,
            GenError::Transport(_) => ErrorKind::Transport,
            GenError::Schema(_) => ErrorKind::Schema,
        }
    }

    /// The first line of the diagnostic for this failure.
    pub fn headline(&self) -> (text: &'static str)
        ensures
            text@ == self@.headline_text(),
    {
        match self {
            GenError::MissingPrompt => ResolutionError::MissingPrompt.message(),
            GenError::MissingCredential => ResolutionError::MissingCredential.message(),
            GenError::Unrenderable => "Failed to render the request payload",
            GenError::Transport(e) => e.headline(),
            GenError::Schema(e) => e.message(),
        }
    }
}

/// What the caller does next with an invocation.
#[derive(Debug, Clone, PartialEq, Eq)]
pub enum Step {
    /// Dry run: print the rendered request and stop. Nothing is sent.
    Show { rendered: String },
    /// Post the payload to the service's endpoint with the credential as
    /// bearer token, then hand the reply and `output` to [`finish`].
    Send { credential: String, payload: GenerationPayload, output: Option<String> },
}

/// What a [`Step`] holds, as mathematical values.
pub enum StepView {
    Show { rendered: Seq<char> },
    Send { credential: Seq<char>, payload: PayloadView, output: Option<Seq<char>> },
}

impl View for Step {
    type V = StepView;

    open spec fn view(&self) -> StepView {
        match *self {
            Step::Show { rendered } => StepView::Show { rendered: rendered@ },
            Step::Send { credential, payload, output } => StepView::Send {
                credential: credential@,
                payload: payload@,
                output: text_of(output),
            },
        }
    }
}

/// Where a snippet goes.
#[derive(Debug, Clone, PartialEq, Eq)]
pub enum Emit {
    /// Create or overwrite the file at `path` with the snippet.
    File { path: String, code: String },
    /// Print the snippet to standard output.
    Stdout { code: String },
}

/// What an [`Emit`] holds, as mathematical values.
pub enum EmitView {
    File { path: Seq<char>, code: Seq<char> },
    Stdout { code: Seq<char> },
}

impl View for Emit {
    type V = EmitView;

    open spec fn view(&self) -> EmitView {
        match *self {
            Emit::File { path, code } => EmitView::File { path: path@, code: code@ },
            Emit::Stdout { code } => EmitView::Stdout { code: code@ },
        }
    }
}

/// What an invocation leads to: a failure of the merge, or, with the merge
/// done, the rendered request for a dry run and the request to send
/// otherwise.
pub open spec fn plan(
    overrides: OverridesView,
    stored: ConfigView,
    environment: Option<Seq<char>>,
) -> Result<StepView, GenErrorView> {
    match resolution(overrides, stored, environment) {
        Err(ResolutionError::MissingPrompt) => Err(GenErrorView::MissingPrompt),
        Err(ResolutionError::MissingCredential) => Err(GenErrorView::MissingCredential),
        Ok(params) => step_for(params),
    }
}

/// What merged parameters lead to.
pub open spec fn step_for(params: ResolvedView) -> Result<StepView, GenErrorView> {
    if params.dry_run {
        match json_pretty(payload_doc(payload_for(params))) {
            Some(rendered) => Ok(StepView::Show { rendered }),
            None => Err(GenErrorView::Unrenderable),
        }
    } else {
        Ok(
            StepView::Send {
                credential: params.credential,
                payload: payload_for(params),
                output: params.output,
            },
        )
    }
}

/// What a reply leads to: a transport failure where the exchange yielded no
/// raw reply, else what the raw reply yields.
pub open spec fn conclusion(reply: ReplyView, output: Option<Seq<char>>) -> Result<
    EmitView,
    GenErrorView,
> {
    match reception(reply) {
        Err(e) => Err(GenErrorView::Transport(e)),
        Ok(raw_reply) => match extraction(raw_reply) {
            Err(e) => Err(GenErrorView::Schema(e)),
            Ok(code) => Ok(
                match output {
                    Some(path) => EmitView::File { path, code },
                    None => EmitView::Stdout { code },
                },
            ),
        },
    }
}

/// The outcome of [`run`] as mathematical values.
pub open spec fn step_view(outcome: Result<Step, GenError>) -> Result<StepView, GenErrorView> {
    match outcome {
        Ok(step) => Ok(step@),
        Err(e) => Err(e@),
    }
}

/// The outcome of [`finish`] as mathematical values.
pub open spec fn emit_view(outcome: Result<Emit, GenError>) -> Result<EmitView, GenErrorView> {
    match outcome {
        Ok(emit) => Ok(emit@),
        Err(e) => Err(e@),
    }
}

/// The overrides that the arguments of an invocation make.
pub open spec fn invocation(
    prompt: Option<Seq<char>>,
    region: Option<Seq<char>>,
    profile: Option<Seq<char>>,
    model: Option<Seq<char>>,
    output: Option<Seq<char>>,
    dry_run: bool,
) -> OverridesView {
    OverridesView { prompt, credential: None, model, profile, region, output, dry_run }
}

/// Decides what an invocation leads to, given the stored settings and the
/// environment. The command line has no way to pass a credential.
pub fn run(
    prompt: Option<String>,
    region: Option<String>,
    profile: Option<String>,
    model: Option<String>,
    output: Option<String>,
    dry_run: bool,
    stored: &Config,
    environment: &Environment,
) -> (outcome: Result<Step, GenError>)
    ensures
        step_view(outcome) == plan(
            invocation(
                text_of(prompt),
                text_of(region),
                text_of(profile),
                text_of(model),
                text_of(output),
                dry_run,
            ),
            stored@,
            text_of(environment.credential),
        ),
{
    let overrides = Overrides { prompt, credential: None, model, profile, region, output, dry_run };
    let params = match resolve(overrides, stored, environment) {
        Ok(params) => params,
        Err(ResolutionError::MissingPrompt) => {
            return Err(GenError::MissingPrompt);
        },
        Err(ResolutionError::MissingCredential) => {
            return Err(GenError::MissingCredential);
        },
    };
    let payload = build(&params);
    if params.dry_run {
        match payload.render() {
            Ok(rendered) => Ok(Step::Show { rendered }),
            Err(_) => Err(GenError::Unrenderable),
        }
    } else {
        Ok(Step::Send { credential: params.credential, payload, output: params.output })
    }
}

/// Decides what a reply leads to: where the snippet goes, or why there is
/// none. On a failure nothing is to be written.
pub fn finish(reply: Reply, output: Option<String>) -> (outcome: Result<Emit, GenError>)
    ensures
        emit_view(outcome) == conclusion(reply@, text_of(output)),
{
    let raw_reply = match receive(reply) {
        Ok(raw_reply) => raw_reply,
        Err(e) => {
            return Err(GenError::Transport(e));
        },
    };
    match extract(raw_reply.as_str()) {
        Err(e) => Err(GenError::Schema(e)),
        Ok(code) => match output {
            Some(path) => Ok(Emit::File { path, code }),
            None => Ok(Emit::Stdout { code }),
        },
    }
}

/// A dry run never leads to a request being sent, and an invocation that is
/// no dry run never has its request shown instead.
pub proof fn law_dry_run_never_sends(
    overrides: OverridesView,
    stored: ConfigView,
    environment: Option<Seq<char>>,
)
    ensures
        overrides.dry_run ==> !(plan(overrides, stored, environment) matches Ok(
            StepView::Send { .. },
        )),
        !overrides.dry_run ==> !(plan(overrides, stored, environment) matches Ok(
            StepView::Show { .. },
        )),
{
}

/// What a dry run shows does not depend on the credential: with any other
/// credential in its place the same text is shown.
pub proof fn law_dry_run_hides_credential(params: ResolvedView, other: Seq<char>)
    requires
        params.dry_run,
    ensures
        step_for(ResolvedView { credential: other, ..params }) == step_for(params),
        payload_for(ResolvedView { credential: other, ..params }) == payload_for(params),
{
}

/// A request is sent only with a credential and a prompt in hand: the ones
/// that the merge settled on.
pub proof fn law_send_carries_resolved_request(
    overrides: OverridesView,
    stored: ConfigView,
    environment: Option<Seq<char>>,
)
    ensures
        plan(overrides, stored, environment) matches Ok(
            StepView::Send { credential, payload, output },
        ) ==> {
            &&& resolution(overrides, stored, environment) matches Ok(params)
            &&& params.well_formed()
            &&& credential == params.credential
            &&& payload == payload_for(params)
            &&& payload.well_formed()
            &&& output == overrides.output
        },
{
}

/// A snippet is emitted only where the exchange yielded a raw reply that
/// passes both stages of validation, and it is that reply's snippet; every
/// other exchange is a failure and emits nothing.
pub proof fn law_emit_only_validated_code(reply: ReplyView, output: Option<Seq<char>>)
    ensures
        conclusion(reply, output) is Ok <==> ({
            &&& reception(reply) matches Ok(raw_reply)
            &&& extraction(raw_reply) is Ok
        }),
        conclusion(reply, output) matches Ok(EmitView::File { path, code }) ==> {
            &&& output == Some(path)
            &&& reception(reply) matches Ok(raw_reply)
            &&& extraction(raw_reply) == Ok::<Seq<char>, SchemaError>(code)
        },
        conclusion(reply, output) matches Ok(EmitView::Stdout { code }) ==> {
            &&& output is None
            &&& reception(reply) matches Ok(raw_reply)
            &&& extraction(raw_reply) == Ok::<Seq<char>, SchemaError>(code)
        },
{
}

} // verus!
