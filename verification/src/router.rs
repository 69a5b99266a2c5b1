//! The router: from a name and a payload to a typed request, from what the
//! handler reports to a uniform result, and the life of one invocation.
//!
//! The router performs no I/O. It says which handler is to run and with
//! what; whoever drives it runs the handler and hands back what it reported.

use vstd::prelude::*;
use vstd::string::*;
use crate::command::{Command, SuccessShape};
use crate::error::{CommandError, ErrorKind, ErrorView, FailureView, HandlerFailure};
use crate::payload::{ArgView, Payload};
use crate::request::{
    missing_field_is_invalid,
    outcome_view,
    validate,
    validate_spec,
    validated_request_is_valid,
    CommandRequest,
    RequestView,
};

verus! {

/// What a handler hands back when it succeeds.
#[derive(Clone, Debug, PartialEq, Eq)]
pub enum SuccessPayload {
    /// The body that was fetched, or the text of the file that was read.
    Text(String),
    /// The upload took place.
    UploadConfirmation,
}

/// The mathematical value of a [`SuccessPayload`].
pub enum SuccessView {
    Text(Seq<char>),
    UploadConfirmation,
}

impl View for SuccessPayload {
    type V = SuccessView;

    open spec fn view(&self) -> SuccessView {
        match self {
            SuccessPayload::Text(text) => SuccessView::Text(text@),
            SuccessPayload::UploadConfirmation => SuccessView::UploadConfirmation,
        }
    }
}

/// The one result of an invocation.
#[derive(Clone, Debug, PartialEq, Eq)]
pub enum CommandResult {
    Success(SuccessPayload),
    Failure(CommandError),
}

/// The mathematical value of a [`CommandResult`].
pub enum ResultView {
    Success(SuccessView),
    Failure(ErrorView),
}

impl View for CommandResult {
    type V = ResultView;

    open spec fn view(&self) -> ResultView {
        match self {
            CommandResult::Success(payload) => ResultView::Success(payload@),
            CommandResult::Failure(error) => ResultView::Failure(error@),
        }
    }
}

/// The mathematical value of what a handler reports.
pub open spec fn report_view(report: Result<SuccessPayload, HandlerFailure>) -> Result<
    SuccessView,
    FailureView,
> {
    match report {
        Ok(payload) => Ok(payload@),
        Err(failure) => Err(failure@),
    }
}

/// What routing gives: `UnknownCommand` with the name for a name that stands
/// for no command, whatever the arguments are; else what validation of the
/// arguments gives.
pub open spec fn route_spec(name: Seq<char>, args: Map<Seq<char>, ArgView>) -> Result<
    RequestView,
    ErrorView,
> {
    match Command::parse_spec(name) {
        None => Err(ErrorView::UnknownCommand { name }),
        Some(command) => validate_spec(command, args),
    }
}

/// The result that stands for what a handler reported: its payload as it
/// is, or its failure with the kind and the message as they are.
pub open spec fn shape_result_spec(report: Result<SuccessView, FailureView>) -> ResultView {
    match report {
        Ok(payload) => ResultView::Success(payload),
        Err(failure) => ResultView::Failure(
            ErrorView::Handler { kind: failure.kind, message: failure.message },
        ),
    }
}

/// Whether a report is one that the handler of `command` may give: on
/// success the payload that the command hands back, on failure a kind that
/// the command can fail with once its arguments were accepted.
pub open spec fn report_conforms_spec(
    command: Command,
    report: Result<SuccessView, FailureView>,
) -> bool {
    match report {
        Ok(SuccessView::Text(_)) => command.success_shape_spec() == SuccessShape::Text,
        Ok(SuccessView::UploadConfirmation) => command.success_shape_spec()
            == SuccessShape::UploadConfirmation,
        Err(failure) => command.may_fail_with_spec(failure.kind),
    }
}

/// Decides whether a report is one that the handler of `command` may give.
/// The router wraps every report as it is; this is for those who write or
/// test a handler.
pub fn report_conforms(
    command: Command,
    report: &Result<SuccessPayload, HandlerFailure>,
) -> (yes: bool)
    ensures
        yes == report_conforms_spec(command, report_view(*report)),
{
    match report {
        Ok(SuccessPayload::Text(_)) => matches!(command.success_shape(), SuccessShape::Text),
        Ok(SuccessPayload::UploadConfirmation) => matches!(
            command.success_shape(),
            SuccessShape::UploadConfirmation
        ),
        Err(failure) => command.may_fail_with(failure.kind),
    }
}

/// Finds the command that `name` stands for and turns the payload into its
/// typed request. The name is looked at first: the arguments of an unknown
/// command are never examined.
pub fn route(name: &str, payload: &Payload) -> (outcome: Result<CommandRequest, CommandError>)
    ensures
        outcome_view(outcome) == route_spec(name@, payload@),
{
    match Command::from_name(name) {
        None => Err(CommandError::UnknownCommand { name: String::from_str(name) }),
        Some(command) => validate(command, payload),
    }
}

/// Wraps what a handler reported into the result for the caller, changing
/// nothing of it.
pub fn shape_result(report: Result<SuccessPayload, HandlerFailure>) -> (result: CommandResult)
    ensures
        result@ == shape_result_spec(report_view(report)),
        match report {
            Ok(payload) => result == CommandResult::Success(payload),
            Err(failure) => result == CommandResult::Failure(
                CommandError::Handler { kind: failure.kind, message: failure.message },
            ),
        },
{
    match report {
        Ok(payload) => CommandResult::Success(payload),
        Err(failure) => CommandResult::Failure(
            CommandError::Handler { kind: failure.kind, message: failure.message },
        ),
    }
}

/// Where an invocation stands.
#[derive(Clone, Copy, Debug, PartialEq, Eq, Structural)]
pub enum InvocationState {
    Received,
    Validated,
    Dispatched,
    Succeeded,
    Failed,
}

/// One execution of a command, from the moment it is received to its result.
/// It owns its request and shares nothing with any other invocation.
#[derive(Clone, Debug, PartialEq, Eq)]
pub enum Invocation {
    /// Nothing has been looked at yet.
    Received { name: String, payload: Payload },
    /// The name is known and the arguments are well formed.
    Validated { request: CommandRequest },
    /// The handler has been asked to run and has not reported yet.
    Dispatched { command: Command },
    /// The handler reported success, and the result was delivered.
    Succeeded,
    /// The request was refused or the handler failed, and the result was
    /// delivered.
    Failed,
}

/// The mathematical value of an [`Invocation`].
pub enum InvocationView {
    Received { name: Seq<char>, args: Map<Seq<char>, ArgView> },
    Validated { request: RequestView },
    Dispatched { command: Command },
    Succeeded,
    Failed,
}

impl InvocationView {
    /// Where the invocation stands.
    pub open spec fn state(self) -> InvocationState {
        match self {
            InvocationView::Received { .. } => InvocationState::Received,
            InvocationView::Validated { .. } => InvocationState::Validated,
            InvocationView::Dispatched { .. } => InvocationState::Dispatched,
            InvocationView::Succeeded => InvocationState::Succeeded,
            InvocationView::Failed => InvocationState::Failed,
        }
    }

    /// Whether the invocation has come to its end.
    pub open spec fn is_terminal(self) -> bool {
        self is Succeeded || self is Failed
    }

    /// Whether the invocation is one that the router itself can have
    /// brought about: a request that counts as validated is valid.
    pub open spec fn well_formed(self) -> bool {
        match self {
            InvocationView::Validated { request } => request.is_valid(),
            _ => true,
        }
    }
}

impl View for Invocation {
    type V = InvocationView;

    open spec fn view(&self) -> InvocationView {
        match self {
            Invocation::Received { name, payload } => InvocationView::Received {
                name: name@,
                args: payload@,
            },
            Invocation::Validated { request } => InvocationView::Validated { request: request@ },
            Invocation::Dispatched { command } => InvocationView::Dispatched { command: *command },
            Invocation::Succeeded => InvocationView::Succeeded,
            Invocation::Failed => InvocationView::Failed,
        }
    }
}

/// What happens to an invocation.
#[derive(Debug, PartialEq, Eq)]
pub enum Event {
    /// The driver asks the router to go on.
    Advance,
    /// The handler has come to an end and reports.
    Finished(Result<SuccessPayload, HandlerFailure>),
}

/// The mathematical value of an [`Event`].
pub enum EventView {
    Advance,
    Finished(Result<SuccessView, FailureView>),
}

impl View for Event {
    type V = EventView;

    open spec fn view(&self) -> EventView {
        match self {
            Event::Advance => EventView::Advance,
            Event::Finished(report) => EventView::Finished(report_view(*report)),
        }
    }
}

/// What the driver of an invocation is to do next.
#[derive(Clone, Debug, PartialEq, Eq)]
pub enum Action {
    /// Nothing outside: ask the router to go on.
    Continue,
    /// Run the handler of the request's command with the request, once, and
    /// report how it ended.
    Invoke(CommandRequest),
    /// Hand the result to the caller. The invocation is over.
    Deliver(CommandResult),
    /// The event has no meaning where the invocation stands; nothing changed.
    Ignore,
}

/// The mathematical value of an [`Action`].
pub enum ActionView {
    Continue,
    Invoke(RequestView),
    Deliver(ResultView),
    Ignore,
}

impl View for Action {
    type V = ActionView;

    open spec fn view(&self) -> ActionView {
        match self {
            Action::Continue => ActionView::Continue,
            Action::Invoke(request) => ActionView::Invoke(request@),
            Action::Deliver(result) => ActionView::Deliver(result@),
            Action::Ignore => ActionView::Ignore,
        }
    }
}

/// The step that an invocation takes on an event, and what the driver is to
/// do then.
///
/// Received goes on to Validated, or fails with the refusal as its result.
/// Validated goes on to Dispatched and asks for the handler. Dispatched
/// waits for the handler's report and ends with it. Everything else leaves
/// the invocation as it is.
pub open spec fn step_spec(invocation: InvocationView, event: EventView) -> (
    InvocationView,
    ActionView,
) {
    match (invocation, event) {
        (InvocationView::Received { name, args }, EventView::Advance) => match route_spec(
            name,
            args,
        ) {
            Ok(request) => (InvocationView::Validated { request }, ActionView::Continue),
            Err(error) => (
                InvocationView::Failed,
                ActionView::Deliver(ResultView::Failure(error)),
            ),
        },
        (InvocationView::Validated { request }, EventView::Advance) => (
            InvocationView::Dispatched { command: request.command() },
            ActionView::Invoke(request),
        ),
        (InvocationView::Dispatched { .. }, EventView::Finished(report)) => (
            if report is Ok {
                InvocationView::Succeeded
            } else {
                InvocationView::Failed
            },
            ActionView::Deliver(shape_result_spec(report)),
        ),
        _ => (invocation, ActionView::Ignore),
    }
}

impl Invocation {
    /// A new invocation of the command `name` with the given arguments.
    pub fn receive(name: &str, payload: Payload) -> (invocation: Invocation)
        ensures
            invocation@ == (InvocationView::Received { name: name@, args: payload@ }),
            invocation@.well_formed(),
    {
        Invocation::Received { name: String::from_str(name), payload }
    }

    /// Where the invocation stands.
    pub fn state(&self) -> (state: InvocationState)
        ensures
            state == self@.state(),
    {
        match self {
            Invocation::Received { .. } => InvocationState::Received,
            Invocation::Validated { .. } => InvocationState::Validated,
            Invocation::Dispatched { .. } => InvocationState::Dispatched,
            Invocation::Succeeded => InvocationState::Succeeded,
            Invocation::Failed => InvocationState::Failed,
        }
    }

    /// Whether the invocation has come to its end.
    pub fn is_terminal(&self) -> (over: bool)
        ensures
            over == self@.is_terminal(),
    {
        matches!(self, Invocation::Succeeded | Invocation::Failed)
    }

    /// Takes one step on an event. Returns the invocation as it then stands
    /// and what the driver is to do.
    pub fn step(self, event: Event) -> (next: (Invocation, Action))
        ensures
            (next.0@, next.1@) == step_spec(self@, event@),
            self@.well_formed() ==> next.0@.well_formed(),
    {
        proof {
            if self@.well_formed() {
                step_keeps_well_formed(self@, event@);
            }
        }
        match (self, event) {
            (Invocation::Received { name, payload }, Event::Advance) => {
                match route(name.as_str(), &payload) {
                    Ok(request) => (Invocation::Validated { request }, Action::Continue),
                    Err(error) => (
                        Invocation::Failed,
                        Action::Deliver(CommandResult::Failure(error)),
                    ),
                }
            },
            (Invocation::Validated { request }, Event::Advance) => {
                let command = request.command();
                (Invocation::Dispatched { command }, Action::Invoke(request))
            },
            (Invocation::Dispatched { command }, Event::Finished(report)) => {
                let next = if report.is_ok() {
                    Invocation::Succeeded
                } else {
                    Invocation::Failed
                };
                (next, Action::Deliver(shape_result(report)))
            },
            (invocation, _) => (invocation, Action::Ignore),
        }
    }
}

/// A step leaves a well-formed invocation well formed, and the request
/// with which a handler is asked for is a valid one.
pub proof fn step_keeps_well_formed(invocation: InvocationView, event: EventView)
    requires
        invocation.well_formed(),
    ensures
        step_spec(invocation, event).0.well_formed(),
        step_spec(invocation, event).1 is Invoke ==> step_spec(
            invocation,
            event,
        ).1->Invoke_0.is_valid(),
{
    match (invocation, event) {
        (InvocationView::Received { name, args }, EventView::Advance) => {
            match Command::parse_spec(name) {
                Some(command) => {
                    if validate_spec(command, args) is Ok {
                        validated_request_is_valid(command, args);
                    }
                },
                None => {},
            }
        },
        _ => {},
    }
}

/// A name that is none of the command names is refused as `UnknownCommand`
/// with that name, whatever the arguments are, and the invocation ends at
/// once with that result: no handler is asked for.
pub proof fn unknown_name_is_refused(name: Seq<char>, args: Map<Seq<char>, ArgView>)
    requires
        forall|command: Command| name != #[trigger] command.name_spec(),
    ensures
        route_spec(name, args) == Err::<RequestView, ErrorView>(
            ErrorView::UnknownCommand { name },
        ),
        step_spec(InvocationView::Received { name, args }, EventView::Advance) == (
            InvocationView::Failed,
            ActionView::Deliver(ResultView::Failure(ErrorView::UnknownCommand { name })),
        ),
{
    assert(name != Command::FetchFeed.name_spec());
    assert(name != Command::ReadTextFile.name_spec());
    assert(name != Command::S3Upload.name_spec());
    assert(name != Command::FtpUpload.name_spec());
}

/// A request for a known command whose arguments lack an expected field is
/// refused as `InvalidArguments`, and the invocation ends at once with that
/// result: no handler is asked for.
pub proof fn missing_field_is_refused(command: Command, args: Map<Seq<char>, ArgView>, i: int)
    requires
        0 <= i < command.fields_spec().len(),
        !args.contains_key(command.fields_spec()[i].0.name_spec()),
    ensures
        route_spec(command.name_spec(), args) is Err,
        route_spec(command.name_spec(), args)->Err_0.kind() == ErrorKind::InvalidArguments,
        step_spec(
            InvocationView::Received { name: command.name_spec(), args },
            EventView::Advance,
        ) == (
            InvocationView::Failed,
            ActionView::Deliver(
                ResultView::Failure(route_spec(command.name_spec(), args)->Err_0),
            ),
        ),
{
    crate::command::name_round_trip(command);
    missing_field_is_invalid(command, args, i);
}

/// Whatever routing refuses, it refuses for the name or for the arguments:
/// the two kinds that are found without any handler.
pub proof fn refusals_are_local(name: Seq<char>, args: Map<Seq<char>, ArgView>)
    requires
        route_spec(name, args) is Err,
    ensures
        route_spec(name, args)->Err_0.kind().is_validation_spec(),
{
}

/// A handler is asked for only on the step from Validated to Dispatched,
/// for the command of the validated request and with that request.
pub proof fn invoke_only_when_dispatching(invocation: InvocationView, event: EventView)
    ensures
        step_spec(invocation, event).1 is Invoke <==> invocation is Validated && event is Advance,
        step_spec(invocation, event).1 is Invoke ==> step_spec(invocation, event).0
            == (InvocationView::Dispatched { command: invocation->request.command() })
            && step_spec(invocation, event).1 == ActionView::Invoke(invocation->request),
{
}

/// A result is delivered on exactly those steps that end the invocation,
/// and an invocation that has ended takes no further step: so every
/// invocation delivers at most one result and asks for its handler at most
/// once.
pub proof fn one_result_per_invocation(invocation: InvocationView, event: EventView)
    ensures
        step_spec(invocation, event).1 is Deliver <==> !invocation.is_terminal() && step_spec(
            invocation,
            event,
        ).0.is_terminal(),
        invocation.is_terminal() ==> step_spec(invocation, event) == (
            invocation,
            ActionView::Ignore,
        ),
{
}

/// An invocation that is driven in order comes to its one result: at once
/// where routing refuses the request, else after the handler was asked for
/// with the routed request and has reported, whatever it reports.
pub proof fn invocation_runs_to_its_result(
    name: Seq<char>,
    args: Map<Seq<char>, ArgView>,
    report: Result<SuccessView, FailureView>,
)
    ensures
        ({
            let received = InvocationView::Received { name, args };
            let first = step_spec(received, EventView::Advance);
            let second = step_spec(first.0, EventView::Advance);
            let third = step_spec(second.0, EventView::Finished(report));
            match route_spec(name, args) {
                Err(error) => first == (
                    InvocationView::Failed,
                    ActionView::Deliver(ResultView::Failure(error)),
                ),
                Ok(request) => {
                    &&& first.1 == ActionView::Continue
                    &&& second.1 == ActionView::Invoke(request)
                    &&& third.1 == ActionView::Deliver(shape_result_spec(report))
                    &&& third.0.is_terminal()
                    &&& third.0 is Succeeded <==> report is Ok
                },
            }
        }),
{
}

/// What the handler reported reaches the caller as it is: success stays
/// success with the same payload, failure keeps its kind and its message.
pub proof fn report_is_preserved(command: Command, report: Result<SuccessView, FailureView>)
    ensures
        step_spec(InvocationView::Dispatched { command }, EventView::Finished(report)).1
            == ActionView::Deliver(shape_result_spec(report)),
        match report {
            Ok(payload) => shape_result_spec(report) == ResultView::Success(payload),
            Err(failure) => shape_result_spec(report) is Failure && shape_result_spec(
                report,
            )->Failure_0.kind() == failure.kind && shape_result_spec(
                report,
            )->Failure_0.message() == failure.message,
        },
{
}

} // verus!
