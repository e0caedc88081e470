//! The life of an inspected window, from the request to open it until it is
//! closed.
//!
//! The shell owns the windows. It tells the handle what happened, and the
//! handle answers with what to do next; the relay is attached to the window
//! only between a successful injection of the interceptor and the closing of
//! the window.

use vstd::prelude::*;
use vstd::string::*;
use crate::json::{json_parse, text_result};
use crate::label::{label_text, lemma_labels_distinct, window_label};
use crate::relay::{on_event, relay_log, relay_republish, RelayRecord};
use crate::target::{effective_url, resolve_target, url_parse};

verus! {

/// The title of every inspected window.
pub const WINDOW_TITLE: &'static str = "New Window";

/// The inner width of a new window, in logical pixels.
pub const WINDOW_WIDTH: u32 = 800;

/// The inner height of a new window, in logical pixels.
pub const WINDOW_HEIGHT: u32 = 600;

/// Why a window could not be opened as asked. Each variant carries the
/// message of whatever refused.
#[derive(Debug, PartialEq, Eq)]
pub enum OpenError {
    /// The request is no address. No window was created.
    InvalidUrl(String),
    /// The shell did not create the window.
    WindowCreationFailed(String),
    /// The window is open, but the interceptor is not running in it.
    ScriptInjectionFailed(String),
}

/// The mathematical content of an `OpenError`.
pub enum OpenFault {
    InvalidUrl(Seq<char>),
    WindowCreationFailed(Seq<char>),
    ScriptInjectionFailed(Seq<char>),
}

impl OpenFault {
    /// The message that the caller of the open operation receives.
    pub open spec fn text(self) -> Seq<char> {
        match self {
            OpenFault::InvalidUrl(reason) => "Failed to parse URL: "@ + reason,
            OpenFault::WindowCreationFailed(reason) => "Failed to build webview window: "@
                + reason,
            OpenFault::ScriptInjectionFailed(reason) => "Failed to evaluate script: "@ + reason,
        }
    }
}

impl View for OpenError {
    type V = OpenFault;

    open spec fn view(&self) -> OpenFault {
        match self {
            OpenError::InvalidUrl(reason) => OpenFault::InvalidUrl(reason@),
            OpenError::WindowCreationFailed(reason) => OpenFault::WindowCreationFailed(reason@),
            OpenError::ScriptInjectionFailed(reason) => OpenFault::ScriptInjectionFailed(
                reason@,
            ),
        }
    }
}

impl OpenError {
    /// The message that the caller of the open operation receives.
    pub fn message(&self) -> (text: String)
        ensures
            text@ == self@.text(),
    {
        match self {
            OpenError::InvalidUrl(reason) => {
                let mut text = String::from_str("Failed to parse URL: ");
                text.append(reason.as_str());
                text
            },
            OpenError::WindowCreationFailed(reason) => {
                let mut text = String::from_str("Failed to build webview window: ");
                text.append(reason.as_str());
                text
            },
            OpenError::ScriptInjectionFailed(reason) => {
                let mut text = String::from_str("Failed to evaluate script: ");
                text.append(reason.as_str());
                text
            },
        }
    }
}

/// How far a window has come.
#[derive(Debug, Clone, Copy, PartialEq, Eq, Structural)]
pub enum Stage {
    /// Label and address are settled; the shell has yet to create the window.
    Planned,
    /// The window exists; its diagnostic tooling has not been tried.
    Created,
    /// The diagnostic tooling has been tried; the interceptor is not in yet.
    Prepared,
    /// The interceptor runs in the page and the relay is subscribed.
    Capturing,
    /// The interceptor could not be injected; the window is open and usable,
    /// and nothing is captured.
    Browsing,
    /// The window was closed.
    Closed,
    /// The shell refused to create the window; there never was one.
    Refused,
}

impl Stage {
    /// Whether a window exists at this stage.
    pub open spec fn has_window(self) -> bool {
        self == Stage::Created || self == Stage::Prepared || self == Stage::Capturing || self
            == Stage::Browsing
    }

    /// Whether the relay is subscribed to the window at this stage.
    pub open spec fn subscribed(self) -> bool {
        self == Stage::Capturing
    }
}

/// What the shell reports about a window.
#[derive(Debug, PartialEq, Eq)]
pub enum ShellEvent {
    /// The window was created.
    WindowCreated,
    /// The window could not be created, with the reason.
    WindowRefused(String),
    /// The diagnostic tooling of the window is on.
    DevtoolsEnabled,
    /// The window has no diagnostic tooling.
    DevtoolsUnsupported,
    /// The interceptor was evaluated in the page.
    ScriptInjected,
    /// The interceptor could not be evaluated, with the reason.
    ScriptRejected(String),
    /// The window was closed.
    WindowClosed,
}

/// The mathematical content of a `ShellEvent`.
pub enum EventModel {
    WindowCreated,
    WindowRefused(Seq<char>),
    DevtoolsEnabled,
    DevtoolsUnsupported,
    ScriptInjected,
    ScriptRejected(Seq<char>),
    WindowClosed,
}

impl View for ShellEvent {
    type V = EventModel;

    open spec fn view(&self) -> EventModel {
        match self {
            ShellEvent::WindowCreated => EventModel::WindowCreated,
            ShellEvent::WindowRefused(reason) => EventModel::WindowRefused(reason@),
            ShellEvent::DevtoolsEnabled => EventModel::DevtoolsEnabled,
            ShellEvent::DevtoolsUnsupported => EventModel::DevtoolsUnsupported,
            ShellEvent::ScriptInjected => EventModel::ScriptInjected,
            ShellEvent::ScriptRejected(reason) => EventModel::ScriptRejected(reason@),
            ShellEvent::WindowClosed => EventModel::WindowClosed,
        }
    }
}

/// What the shell is to do next.
#[derive(Debug, PartialEq, Eq)]
pub enum Directive {
    /// Turn on the diagnostic tooling of the window and report how it went.
    EnableDevtools,
    /// Evaluate the interceptor in the page and report how it went.
    InjectScript,
    /// Subscribe the relay to the capture channel of the window, and tell the
    /// caller that the window is open.
    Subscribe,
    /// Release the subscription of the relay.
    Unsubscribe,
    /// Tell the caller that opening failed.
    Fail(OpenError),
    /// Nothing.
    Nothing,
}

/// The mathematical content of a `Directive`.
pub enum DirectiveModel {
    EnableDevtools,
    InjectScript,
    Subscribe,
    Unsubscribe,
    Fail(OpenFault),
    Nothing,
}

impl View for Directive {
    type V = DirectiveModel;

    open spec fn view(&self) -> DirectiveModel {
        match self {
            Directive::EnableDevtools => DirectiveModel::EnableDevtools,
            Directive::InjectScript => DirectiveModel::InjectScript,
            Directive::Subscribe => DirectiveModel::Subscribe,
            Directive::Unsubscribe => DirectiveModel::Unsubscribe,
            Directive::Fail(error) => DirectiveModel::Fail(error@),
            Directive::Nothing => DirectiveModel::Nothing,
        }
    }
}

/// The stage that follows `stage` when the shell reports `event`. A report
/// that does not fit the stage changes nothing.
pub open spec fn next_stage(stage: Stage, event: EventModel) -> Stage {
    match event {
        EventModel::WindowCreated => if stage == Stage::Planned {
            Stage::Created
        } else {
            stage
        },
        EventModel::WindowRefused(_) => if stage == Stage::Planned {
            Stage::Refused
        } else {
            stage
        },
        EventModel::DevtoolsEnabled | EventModel::DevtoolsUnsupported => if stage
            == Stage::Created {
            Stage::Prepared
        } else {
            stage
        },
        EventModel::ScriptInjected => if stage == Stage::Prepared {
            Stage::Capturing
        } else {
            stage
        },
        EventModel::ScriptRejected(_) => if stage == Stage::Prepared {
            Stage::Browsing
        } else {
            stage
        },
        EventModel::WindowClosed => if stage.has_window() {
            Stage::Closed
        } else {
            stage
        },
    }
}

/// What the shell is to do when it reports `event` at `stage`.
pub open spec fn directive_for(stage: Stage, event: EventModel) -> DirectiveModel {
    match event {
        EventModel::WindowCreated => if stage == Stage::Planned {
            DirectiveModel::EnableDevtools
        } else {
            DirectiveModel::Nothing
        },
        EventModel::WindowRefused(reason) => if stage == Stage::Planned {
            DirectiveModel::Fail(OpenFault::WindowCreationFailed(reason))
        } else {
            DirectiveModel::Nothing
        },
        EventModel::DevtoolsEnabled | EventModel::DevtoolsUnsupported => if stage
            == Stage::Created {
            DirectiveModel::InjectScript
        } else {
            DirectiveModel::Nothing
        },
        EventModel::ScriptInjected => if stage == Stage::Prepared {
            DirectiveModel::Subscribe
        } else {
            DirectiveModel::Nothing
        },
        EventModel::ScriptRejected(reason) => if stage == Stage::Prepared {
            DirectiveModel::Fail(OpenFault::ScriptInjectionFailed(reason))
        } else {
            DirectiveModel::Nothing
        },
        EventModel::WindowClosed => if stage == Stage::Capturing {
            DirectiveModel::Unsubscribe
        } else {
            DirectiveModel::Nothing
        },
    }
}

impl DirectiveModel {
    /// Whether this directive ends the open operation for its caller, with
    /// success or with a failure.
    pub open spec fn answers_caller(self) -> bool {
        self is Subscribe || self is Fail
    }
}

/// How often the caller of the open operation is answered while the shell
/// reports `events`, one after another, starting at `stage`.
pub open spec fn answers(stage: Stage, events: Seq<EventModel>) -> nat
    decreases events.len(),
{
    if events.len() == 0 {
        0
    } else {
        let first: nat = if directive_for(stage, events[0]).answers_caller() {
            1
        } else {
            0
        };
        first + answers(next_stage(stage, events[0]), events.skip(1))
    }
}

/// The mathematical content of a `WindowHandle`.
pub struct HandleModel {
    /// The milliseconds after the epoch at which the window was asked for.
    pub asked_at: nat,
    /// The serialization of the address the window is pointed at.
    pub target: Seq<char>,
    /// How far the window has come.
    pub stage: Stage,
    /// Whether the diagnostic tooling of the window is on.
    pub devtools: bool,
}

impl HandleModel {
    /// The label of the window.
    pub open spec fn label(self) -> Seq<char> {
        label_text(self.asked_at)
    }

    /// The handle after the shell has reported `event`.
    pub open spec fn step(self, event: EventModel) -> HandleModel {
        HandleModel {
            stage: next_stage(self.stage, event),
            devtools: self.devtools || (self.stage == Stage::Created && event
                == EventModel::DevtoolsEnabled),
            ..self
        }
    }

    /// The handle after the shell has reported `events`, one after another.
    pub open spec fn run(self, events: Seq<EventModel>) -> HandleModel
        decreases events.len(),
    {
        if events.len() == 0 {
            self
        } else {
            self.step(events[0]).run(events.skip(1))
        }
    }
}

/// The outcome of asking for a window at `asked_at`, given what parsing
/// makes of the requested address: a planned window pointed at the parsed
/// address, or the fault that the request is no address.
pub open spec fn planned(parsed: Result<Seq<char>, Seq<char>>, asked_at: nat) -> Result<
    HandleModel,
    OpenFault,
> {
    match parsed {
        Ok(target) => Ok(
            HandleModel { asked_at, target, stage: Stage::Planned, devtools: false },
        ),
        Err(reason) => Err(OpenFault::InvalidUrl(reason)),
    }
}

/// The views of both sides of the outcome of planning a window.
pub open spec fn plan_result(outcome: Result<WindowHandle, OpenError>) -> Result<
    HandleModel,
    OpenFault,
> {
    match outcome {
        Ok(handle) => Ok(handle@),
        Err(error) => Err(error@),
    }
}

/// An inspected window as the host knows it.
#[derive(Debug)]
pub struct WindowHandle {
    label: String,
    asked_at: u128,
    target: String,
    stage: Stage,
    devtools: bool,
}

impl View for WindowHandle {
    type V = HandleModel;

    closed spec fn view(&self) -> HandleModel {
        HandleModel {
            asked_at: self.asked_at as nat,
            target: self.target@,
            stage: self.stage,
            devtools: self.devtools,
        }
    }
}

impl WindowHandle {
    #[verifier::type_invariant]
    spec fn labelled(self) -> bool {
        self.label@ == label_text(self.asked_at as nat)
    }

    /// Plans a window from the outcome of parsing the requested address. No
    /// window is planned for a request that is no address.
    pub fn from_parsed(parsed: Result<String, String>, now_millis: u128) -> (outcome: Result<
        WindowHandle,
        OpenError,
    >)
        ensures
            plan_result(outcome) == planned(text_result(parsed), now_millis as nat),
    {
        match parsed {
            Ok(target) => Ok(
                WindowHandle {
                    label: window_label(now_millis),
                    asked_at: now_millis,
                    target,
                    stage: Stage::Planned,
                    devtools: false,
                },
            ),
            Err(reason) => Err(OpenError::InvalidUrl(reason)),
        }
    }

    /// The label of the window.
    pub fn label(&self) -> (label: &str)
        ensures
            label@ == self@.label(),
    {
        proof {
            use_type_invariant(self);
        }
        self.label.as_str()
    }

    /// The address the window is pointed at.
    pub fn target(&self) -> (target: &str)
        ensures
            target@ == self@.target,
    {
        self.target.as_str()
    }

    /// How far the window has come.
    pub fn stage(&self) -> (stage: Stage)
        ensures
            stage == self@.stage,
    {
        self.stage
    }

    /// Whether the diagnostic tooling of the window is on.
    pub fn devtools_enabled(&self) -> (enabled: bool)
        ensures
            enabled == self@.devtools,
    {
        self.devtools
    }

    /// Whether the relay is subscribed to the window.
    pub fn is_subscribed(&self) -> (subscribed: bool)
        ensures
            subscribed == self@.stage.subscribed(),
    {
        self.stage == Stage::Capturing
    }

    /// Takes a report of the shell and answers with what to do next.
    pub fn advance(&mut self, event: ShellEvent) -> (directive: Directive)
        ensures
            final(self)@ == old(self)@.step(event@),
            directive@ == directive_for(old(self)@.stage, event@),
    {
        proof {
            use_type_invariant(&*self);
        }
        let stage = self.stage;
        match event {
            ShellEvent::WindowCreated => {
                if stage == Stage::Planned {
                    self.stage = Stage::Created;
                    Directive::EnableDevtools
                } else {
                    Directive::Nothing
                }
            },
            ShellEvent::WindowRefused(reason) => {
                if stage == Stage::Planned {
                    self.stage = Stage::Refused;
                    Directive::Fail(OpenError::WindowCreationFailed(reason))
                } else {
                    Directive::Nothing
                }
            },
            ShellEvent::DevtoolsEnabled => {
                if stage == Stage::Created {
                    self.stage = Stage::Prepared;
                    self.devtools = true;
                    Directive::InjectScript
                } else {
                    Directive::Nothing
                }
            },
            ShellEvent::DevtoolsUnsupported => {
                if stage == Stage::Created {
                    self.stage = Stage::Prepared;
                    Directive::InjectScript
                } else {
                    Directive::Nothing
                }
            },
            ShellEvent::ScriptInjected => {
                if stage == Stage::Prepared {
                    self.stage = Stage::Capturing;
                    Directive::Subscribe
                } else {
                    Directive::Nothing
                }
            },
            ShellEvent::ScriptRejected(reason) => {
                if stage == Stage::Prepared {
                    self.stage = Stage::Browsing;
                    Directive::Fail(OpenError::ScriptInjectionFailed(reason))
                } else {
                    Directive::Nothing
                }
            },
            ShellEvent::WindowClosed => {
                if stage == Stage::Capturing {
                    self.stage = Stage::Closed;
                    Directive::Unsubscribe
                } else if stage == Stage::Created || stage == Stage::Prepared || stage
                    == Stage::Browsing {
                    self.stage = Stage::Closed;
                    Directive::Nothing
                } else {
                    Directive::Nothing
                }
            },
        }
    }

    /// Hands a payload of the capture channel of this window to the relay.
    /// A payload is handled only while the relay is subscribed; any other
    /// payload is dropped unread.
    pub fn deliver(&self, raw_payload: &str) -> (record: Option<RelayRecord>)
        ensures
            match record {
                Some(handled) => {
                    &&& self@.stage.subscribed()
                    &&& handled.lines() == relay_log(json_parse(raw_payload@))
                    &&& handled.republished() == relay_republish(json_parse(raw_payload@))
                },
                None => !self@.stage.subscribed(),
            },
    {
        if self.is_subscribed() {
            Some(on_event(raw_payload))
        } else {
            None
        }
    }
}

/// Begins to open an inspected window for a request made at `now_millis`
/// milliseconds after the epoch. An empty request is given the default
/// address. The window is labelled by the time of the request and the shell
/// is to create it next; what the shell reports from then on goes to
/// `WindowHandle::advance`. A request that is no address is refused: nothing
/// is planned and there is no window to create.
pub fn open_intercepted_window(requested_url: &str, now_millis: u128) -> (outcome: Result<
    WindowHandle,
    OpenError,
>)
    ensures
        plan_result(outcome) == planned(
            url_parse(effective_url(requested_url@)),
            now_millis as nat,
        ),
{
    WindowHandle::from_parsed(resolve_target(requested_url), now_millis)
}

/// The relay is subscribed only to a window that exists.
pub proof fn lemma_subscription_needs_window(stage: Stage)
    ensures
        stage.subscribed() ==> stage.has_window(),
{
}

/// A failure during setup leaves no half-made state: a window that was
/// refused does not exist, and a window whose page refused the interceptor
/// stays open with the relay not subscribed.
pub proof fn lemma_failure_states(stage: Stage, event: EventModel)
    ensures
        directive_for(stage, event) matches DirectiveModel::Fail(fault) ==> {
            let next = next_stage(stage, event);
            &&& !(fault is InvalidUrl)
            &&& fault is WindowCreationFailed ==> !next.has_window() && !next.subscribed()
            &&& fault is ScriptInjectionFailed ==> next.has_window() && !next.subscribed()
        },
{
}

/// The caller of the open operation is answered once at most, whatever the
/// shell reports and however often: no failure is reported twice, nothing is
/// tried again, and no failure follows a success.
pub proof fn lemma_answered_once(stage: Stage, events: Seq<EventModel>)
    ensures
        answers(stage, events) <= 1,
        !(stage == Stage::Planned || stage == Stage::Created || stage == Stage::Prepared)
            ==> answers(stage, events) == 0,
    decreases events.len(),
{
    if events.len() > 0 {
        lemma_answered_once(next_stage(stage, events[0]), events.skip(1));
    }
}

/// Closing a window releases the subscription of the relay, whatever the
/// stage of the window.
pub proof fn lemma_close_unsubscribes(handle: HandleModel)
    ensures
        !handle.step(EventModel::WindowClosed).stage.subscribed(),
        handle.stage.subscribed() ==> directive_for(handle.stage, EventModel::WindowClosed)
            == DirectiveModel::Unsubscribe,
{
}

/// A closed window stays closed: whatever the shell reports afterwards, the
/// handle does not change, the relay is never subscribed again, and the
/// shell is told to do nothing.
pub proof fn lemma_closed_is_final(handle: HandleModel, events: Seq<EventModel>)
    requires
        handle.stage == Stage::Closed,
    ensures
        handle.run(events) == handle,
        !handle.run(events).stage.subscribed(),
        forall|i: int|
            0 <= i < events.len() ==> directive_for(handle.stage, #[trigger] events[i])
                == DirectiveModel::Nothing,
    decreases events.len(),
{
    if events.len() > 0 {
        assert(handle.step(events[0]) == handle);
        lemma_closed_is_final(handle, events.skip(1));
    }
}

/// A window keeps the label and the address it was planned with.
pub proof fn lemma_identity_kept(handle: HandleModel, events: Seq<EventModel>)
    ensures
        handle.run(events).label() == handle.label(),
        handle.run(events).target == handle.target,
    decreases events.len(),
{
    if events.len() > 0 {
        lemma_identity_kept(handle.step(events[0]), events.skip(1));
    }
}

/// Two windows planned at different milliseconds carry different labels, at
/// every stage of their lives.
pub proof fn lemma_distinct_windows(first: HandleModel, second: HandleModel)
    requires
        first.asked_at != second.asked_at,
    ensures
        first.label() != second.label(),
{
    lemma_labels_distinct(first.asked_at, second.asked_at);
}

} // verus!
