//! The serial session manager as a state machine.
//!
//! The manager decides; its caller does the work on the device. Each [`Action`] names
//! the one thing to do next, and what came of it goes back in as the next [`Event`].
//! While a device is open the manager keeps the handle of it, of a type `H` that the
//! caller chooses, and at no time keeps more than one.

use crate::data::{OpenMessage, OpenMessageView};
use crate::port::{port_from_config, resolved, PortSettings, PortSettingsView};
use vstd::prelude::*;

verus! {

/// Which side produced a chunk of bytes.
#[derive(Debug, Clone, Copy, PartialEq, Eq, Structural)]
pub enum ByteDirection {
    Out,
    In,
}

/// A request from the user interface.
#[derive(Debug, Clone, PartialEq, Eq)]
pub enum GuiMessage {
    /// Open the device, or reopen it with other parameters.
    Open(OpenMessage),
    /// End the session and release the device.
    Close,
    /// Send these bytes out of the open device.
    Write(Vec<u8>),
}

/// The mathematical value of a [`GuiMessage`].
pub enum GuiMessageView {
    Open(OpenMessageView),
    Close,
    Write(Seq<u8>),
}

impl View for GuiMessage {
    type V = GuiMessageView;

    open spec fn view(&self) -> GuiMessageView {
        match self {
            GuiMessage::Open(config) => GuiMessageView::Open(config@),
            GuiMessage::Close => GuiMessageView::Close,
            GuiMessage::Write(data) => GuiMessageView::Write(data@),
        }
    }
}

/// What the manager reports to the user interface.
#[derive(Debug, Clone, PartialEq, Eq)]
pub enum Notification {
    /// Bytes that went in or out.
    Data(ByteDirection, Vec<u8>),
    /// A failure, in words.
    Error(String),
}

/// The mathematical value of a [`Notification`].
pub enum NotificationView {
    Data(ByteDirection, Seq<u8>),
    Error(Seq<char>),
}

impl View for Notification {
    type V = NotificationView;

    open spec fn view(&self) -> NotificationView {
        match self {
            Notification::Data(direction, data) => NotificationView::Data(*direction, data@),
            Notification::Error(message) => NotificationView::Error(message@),
        }
    }
}

/// The report of a device that could not be opened.
pub open spec fn open_failure() -> NotificationView {
    NotificationView::Error("Cannot open the port"@)
}

/// The report of bytes that the device did not take.
pub open spec fn write_failure() -> NotificationView {
    NotificationView::Error("Cannot write data on the port"@)
}

/// The report of a request to write while no device is open.
pub open spec fn not_open_failure() -> NotificationView {
    NotificationView::Error("Cannot write data port not open"@)
}

/// The report of a device that failed or ended while it was read.
pub open spec fn read_failure() -> NotificationView {
    NotificationView::Error("Error while reading data"@)
}

/// Something that happened: a request arrived, or the device answered.
#[derive(Debug)]
pub enum Event<H> {
    /// The next request of the user interface.
    Command(GuiMessage),
    /// The user interface is gone: no request will ever come.
    CommandsClosed,
    /// A chunk of bytes read from the device.
    Inbound(Vec<u8>),
    /// The device failed or ended while it was read.
    ReadFailed,
    /// The device asked for was opened: here is its handle.
    Opened(H),
    /// The device asked for could not be opened.
    OpenFailed,
    /// The device took the bytes.
    Written,
    /// The device did not take the bytes.
    WriteFailed,
}

/// The mathematical value of an [`Event`].
pub enum EventView<H> {
    Command(GuiMessageView),
    CommandsClosed,
    Inbound(Seq<u8>),
    ReadFailed,
    Opened(H),
    OpenFailed,
    Written,
    WriteFailed,
}

impl<H> View for Event<H> {
    type V = EventView<H>;

    open spec fn view(&self) -> EventView<H> {
        match self {
            Event::Command(command) => EventView::Command(command@),
            Event::CommandsClosed => EventView::CommandsClosed,
            Event::Inbound(data) => EventView::Inbound(data@),
            Event::ReadFailed => EventView::ReadFailed,
            Event::Opened(handle) => EventView::Opened(*handle),
            Event::OpenFailed => EventView::OpenFailed,
            Event::Written => EventView::Written,
            Event::WriteFailed => EventView::WriteFailed,
        }
    }
}

/// The one thing for the caller to do next.
#[derive(Debug, PartialEq, Eq)]
pub enum Action {
    /// Wait for the next request; no device is open.
    AwaitCommand,
    /// Wait for the next request or the next bytes of the open device, whichever comes
    /// first.
    AwaitCommandOrData,
    /// Try to open a device with these parameters, and say whether it opened.
    Open(PortSettings),
    /// Hand these bytes to the open device, and say whether it took them.
    Write(Vec<u8>),
    /// Nothing more will happen: stop.
    Shutdown,
}

/// The mathematical value of an [`Action`].
pub enum ActionView {
    AwaitCommand,
    AwaitCommandOrData,
    Open(PortSettingsView),
    Write(Seq<u8>),
    Shutdown,
}

impl View for Action {
    type V = ActionView;

    open spec fn view(&self) -> ActionView {
        match self {
            Action::AwaitCommand => ActionView::AwaitCommand,
            Action::AwaitCommandOrData => ActionView::AwaitCommandOrData,
            Action::Open(settings) => ActionView::Open(settings@),
            Action::Write(data) => ActionView::Write(data@),
            Action::Shutdown => ActionView::Shutdown,
        }
    }
}

/// What one event led to: at most one notification, and the next thing to do.
#[derive(Debug, PartialEq, Eq)]
pub struct Step {
    pub notification: Option<Notification>,
    pub action: Action,
}

/// The mathematical value of a [`Step`].
pub struct StepView {
    pub notification: Option<NotificationView>,
    pub action: ActionView,
}

impl View for Step {
    type V = StepView;

    open spec fn view(&self) -> StepView {
        StepView {
            notification: match self.notification {
                Some(notification) => Some(notification@),
                None => None,
            },
            action: self.action@,
        }
    }
}

/// An open device: its handle, the configuration it was opened with, and whether the
/// current run of read failures has been reported already.
pub struct SessionView<H> {
    pub handle: H,
    pub config: OpenMessageView,
    pub error_flagged: bool,
}

/// The states of the manager. In the first two it dispatches: no device is open. In the
/// next four it drives a session on the one device that is open. The last is the end.
pub enum ManagerView<H> {
    /// No device is open and none is asked for.
    Idle,
    /// No device is open; one was asked for with `config`.
    Connecting { config: OpenMessageView },
    /// A device is open and nothing is outstanding.
    Active { session: SessionView<H> },
    /// A device is open; another was asked for with `candidate`.
    SwappingConfig { session: SessionView<H>, candidate: OpenMessageView },
    /// A device is open and was handed `data`.
    Writing { session: SessionView<H>, data: Seq<u8> },
    /// A device is open but failed; it was asked for anew.
    Reconnecting { session: SessionView<H> },
    /// The user interface is gone.
    Stopped,
}

impl<H> ManagerView<H> {
    /// The open device, where there is one.
    pub open spec fn session(self) -> Option<SessionView<H>> {
        match self {
            ManagerView::Active { session } => Some(session),
            ManagerView::SwappingConfig { session, .. } => Some(session),
            ManagerView::Writing { session, .. } => Some(session),
            ManagerView::Reconnecting { session } => Some(session),
            _ => None,
        }
    }

    /// This state with the open device's handle replaced.
    pub open spec fn with_handle(self, handle: H) -> ManagerView<H> {
        match self {
            ManagerView::Active { session } => ManagerView::Active {
                session: SessionView { handle, ..session },
            },
            ManagerView::SwappingConfig { session, candidate } => ManagerView::SwappingConfig {
                session: SessionView { handle, ..session },
                candidate,
            },
            ManagerView::Writing { session, data } => ManagerView::Writing {
                session: SessionView { handle, ..session },
                data,
            },
            ManagerView::Reconnecting { session } => ManagerView::Reconnecting {
                session: SessionView { handle, ..session },
            },
            _ => self,
        }
    }

    /// The thing that the caller is to do in this state.
    pub open spec fn awaited(self) -> ActionView {
        match self {
            ManagerView::Idle => ActionView::AwaitCommand,
            ManagerView::Connecting { config } => ActionView::Open(resolved(config)),
            ManagerView::Active { .. } => ActionView::AwaitCommandOrData,
            ManagerView::SwappingConfig { candidate, .. } => ActionView::Open(resolved(candidate)),
            ManagerView::Writing { data, .. } => ActionView::Write(data),
            ManagerView::Reconnecting { session } => ActionView::Open(resolved(session.config)),
            ManagerView::Stopped => ActionView::Shutdown,
        }
    }

    /// Whether `event` can be what came of the thing that the caller is to do in this
    /// state.
    pub open spec fn accepts(self, event: EventView<H>) -> bool {
        match self {
            ManagerView::Idle => event is Command || event is CommandsClosed,
            ManagerView::Active { .. } => {
                event is Command || event is CommandsClosed || event is Inbound
                    || event is ReadFailed
            },
            ManagerView::Connecting { .. }
            | ManagerView::SwappingConfig { .. }
            | ManagerView::Reconnecting { .. } => event is Opened || event is OpenFailed,
            ManagerView::Writing { .. } => event is Written || event is WriteFailed,
            ManagerView::Stopped => false,
        }
    }

    /// The state after `event`.
    ///
    /// An event that this state does not accept changes nothing.
    pub open spec fn next(self, event: EventView<H>) -> ManagerView<H> {
        match (self, event) {
            (ManagerView::Idle, EventView::Command(GuiMessageView::Open(config))) => {
                ManagerView::Connecting { config }
            },
            (ManagerView::Idle, EventView::CommandsClosed) => ManagerView::Stopped,
            (ManagerView::Connecting { config }, EventView::Opened(handle)) => {
                ManagerView::Active {
                    session: SessionView { handle, config, error_flagged: false },
                }
            },
            (ManagerView::Connecting { .. }, EventView::OpenFailed) => ManagerView::Idle,
            (ManagerView::Active { session }, EventView::Command(GuiMessageView::Open(candidate))) => {
                ManagerView::SwappingConfig { session, candidate }
            },
            (ManagerView::Active { session }, EventView::Command(GuiMessageView::Write(data))) => {
                ManagerView::Writing { session, data }
            },
            (ManagerView::Active { .. }, EventView::Command(GuiMessageView::Close)) => {
                ManagerView::Idle
            },
            (ManagerView::Active { .. }, EventView::CommandsClosed) => ManagerView::Stopped,
            (ManagerView::Active { session }, EventView::ReadFailed) => {
                ManagerView::Reconnecting {
                    session: SessionView { error_flagged: true, ..session },
                }
            },
            (ManagerView::SwappingConfig { candidate, .. }, EventView::Opened(handle)) => {
                ManagerView::Active {
                    session: SessionView { handle, config: candidate, error_flagged: false },
                }
            },
            (ManagerView::SwappingConfig { session, .. }, EventView::OpenFailed) => {
                ManagerView::Active { session }
            },
            (ManagerView::Writing { session, .. }, EventView::Written) => {
                ManagerView::Active { session }
            },
            (ManagerView::Writing { session, .. }, EventView::WriteFailed) => {
                ManagerView::Active { session }
            },
            (ManagerView::Reconnecting { session }, EventView::Opened(handle)) => {
                ManagerView::Active {
                    session: SessionView { handle, config: session.config, error_flagged: false },
                }
            },
            (ManagerView::Reconnecting { session }, EventView::OpenFailed) => {
                ManagerView::Active { session }
            },
            _ => self,
        }
    }

    /// The notification that `event` leads to in this state, if any.
    pub open spec fn notification(self, event: EventView<H>) -> Option<NotificationView> {
        match (self, event) {
            (ManagerView::Idle, EventView::Command(GuiMessageView::Write(_))) => {
                Some(not_open_failure())
            },
            (ManagerView::Connecting { .. }, EventView::OpenFailed) => Some(open_failure()),
            (ManagerView::SwappingConfig { .. }, EventView::OpenFailed) => Some(open_failure()),
            (ManagerView::Active { .. }, EventView::Inbound(data)) => {
                Some(NotificationView::Data(ByteDirection::In, data))
            },
            (ManagerView::Active { session }, EventView::ReadFailed) => {
                if session.error_flagged {
                    None
                } else {
                    Some(read_failure())
                }
            },
            (ManagerView::Writing { data, .. }, EventView::Written) => {
                Some(NotificationView::Data(ByteDirection::Out, data))
            },
            (ManagerView::Writing { .. }, EventView::WriteFailed) => Some(write_failure()),
            _ => None,
        }
    }

    /// What `event` leads to in this state: the notification, and the thing to do in
    /// the state that follows.
    pub open spec fn outcome(self, event: EventView<H>) -> StepView {
        StepView { notification: self.notification(event), action: self.next(event).awaited() }
    }
}

/// An open device, as the manager keeps it.
struct Session<H> {
    handle: H,
    config: OpenMessage,
    error_flagged: bool,
}

impl<H> View for Session<H> {
    type V = SessionView<H>;

    closed spec fn view(&self) -> SessionView<H> {
        SessionView {
            handle: self.handle,
            config: self.config@,
            error_flagged: self.error_flagged,
        }
    }
}

enum Phase<H> {
    Idle,
    Connecting { config: OpenMessage },
    Active { session: Session<H> },
    SwappingConfig { session: Session<H>, candidate: OpenMessage },
    Writing { session: Session<H>, data: Vec<u8> },
    Reconnecting { session: Session<H> },
    Stopped,
}

/// The serial session manager: it takes the requests of the user interface and the
/// answers of the device, and keeps the handle of the device that is open.
pub struct SessionManager<H> {
    phase: Phase<H>,
}

impl<H> View for SessionManager<H> {
    type V = ManagerView<H>;

    closed spec fn view(&self) -> ManagerView<H> {
        match self.phase {
            Phase::Idle => ManagerView::Idle,
            Phase::Connecting { config } => ManagerView::Connecting { config: config@ },
            Phase::Active { session } => ManagerView::Active { session: session@ },
            Phase::SwappingConfig { session, candidate } => {
                ManagerView::SwappingConfig { session: session@, candidate: candidate@ }
            },
            Phase::Writing { session, data } => {
                ManagerView::Writing { session: session@, data: data@ }
            },
            Phase::Reconnecting { session } => ManagerView::Reconnecting { session: session@ },
            Phase::Stopped => ManagerView::Stopped,
        }
    }
}

fn copy_bytes(data: &Vec<u8>) -> (copy: Vec<u8>)
    ensures
        copy@ == data@,
{
    data.clone()
}

fn quiet(action: Action) -> (step: Step)
    ensures
        step@ == (StepView { notification: None, action: action@ }),
{
    Step { notification: None, action }
}

fn failed(message: &str, action: Action) -> (step: Step)
    ensures
        step@ == (StepView {
            notification: Some(NotificationView::Error(message@)),
            action: action@,
        }),
{
    Step { notification: Some(Notification::Error(message.to_owned())), action }
}

impl<H> SessionManager<H> {
    /// A manager with no device open.
    pub fn new() -> (manager: Self)
        ensures
            manager@ == ManagerView::<H>::Idle,
    {
        SessionManager { phase: Phase::Idle }
    }

    /// The thing that the caller is to do now.
    pub fn awaited(&self) -> (action: Action)
        ensures
            action@ == self@.awaited(),
    {
        match &self.phase {
            Phase::Idle => Action::AwaitCommand,
            Phase::Connecting { config } => Action::Open(port_from_config(config)),
            Phase::Active { .. } => Action::AwaitCommandOrData,
            Phase::SwappingConfig { candidate, .. } => Action::Open(port_from_config(candidate)),
            Phase::Writing { data, .. } => Action::Write(copy_bytes(data)),
            Phase::Reconnecting { session } => Action::Open(port_from_config(&session.config)),
            Phase::Stopped => Action::Shutdown,
        }
    }

    /// Whether `event` can be what came of the thing that the caller is to do now.
    pub fn accepts(&self, event: &Event<H>) -> (accepted: bool)
        ensures
            accepted == self@.accepts(event@),
    {
        match &self.phase {
            Phase::Idle => matches!(event, Event::Command(_) | Event::CommandsClosed),
            Phase::Active { .. } => matches!(
                event,
                Event::Command(_) | Event::CommandsClosed | Event::Inbound(_) | Event::ReadFailed
            ),
            Phase::Connecting { .. } | Phase::SwappingConfig { .. } | Phase::Reconnecting { .. } => {
                matches!(event, Event::Opened(_) | Event::OpenFailed)
            },
            Phase::Writing { .. } => matches!(event, Event::Written | Event::WriteFailed),
            Phase::Stopped => false,
        }
    }

    /// The handle of the open device, where there is one.
    pub fn handle(&self) -> (handle: Option<&H>)
        ensures
            match handle {
                Some(handle) => self@.session() == Some(
                    SessionView { handle: *handle, ..self@.session().unwrap() },
                ),
                None => self@.session() is None,
            },
    {
        match &self.phase {
            Phase::Active { session } => Some(&session.handle),
            Phase::SwappingConfig { session, .. } => Some(&session.handle),
            Phase::Writing { session, .. } => Some(&session.handle),
            Phase::Reconnecting { session } => Some(&session.handle),
            _ => None,
        }
    }

    /// The handle of the open device, to work on it: nothing else of the manager
    /// changes.
    pub fn handle_mut(&mut self) -> (handle: Option<&mut H>)
        ensures
            match handle {
                Some(handle) => {
                    &&& old(self)@.session() is Some
                    &&& *handle == old(self)@.session().unwrap().handle
                    &&& final(self)@ == old(self)@.with_handle(*final(handle))
                },
                None => old(self)@.session() is None && final(self)@ == old(self)@,
            },
    {
        match &mut self.phase {
            Phase::Active { session } => Some(&mut session.handle),
            Phase::SwappingConfig { session, .. } => Some(&mut session.handle),
            Phase::Writing { session, .. } => Some(&mut session.handle),
            Phase::Reconnecting { session } => Some(&mut session.handle),
            _ => None,
        }
    }

    /// The configuration that the open device was opened with, where there is one.
    pub fn config(&self) -> (config: Option<&OpenMessage>)
        ensures
            match config {
                Some(config) => self@.session() is Some && config@ == self@.session().unwrap().config,
                None => self@.session() is None,
            },
    {
        match &self.phase {
            Phase::Active { session } => Some(&session.config),
            Phase::SwappingConfig { session, .. } => Some(&session.config),
            Phase::Writing { session, .. } => Some(&session.config),
            Phase::Reconnecting { session } => Some(&session.config),
            _ => None,
        }
    }

    /// Whether a device is open whose current run of read failures was reported.
    pub fn error_flagged(&self) -> (flagged: bool)
        ensures
            flagged == (self@.session() is Some && self@.session().unwrap().error_flagged),
    {
        match &self.phase {
            Phase::Active { session } => session.error_flagged,
            Phase::SwappingConfig { session, .. } => session.error_flagged,
            Phase::Writing { session, .. } => session.error_flagged,
            Phase::Reconnecting { session } => session.error_flagged,
            _ => false,
        }
    }

    /// Whether the user interface is gone, so that nothing more will happen.
    pub fn is_stopped(&self) -> (stopped: bool)
        ensures
            stopped == (self@ is Stopped),
    {
        matches!(&self.phase, Phase::Stopped)
    }

    /// Takes one event: gives the manager as it is afterwards, the notification for
    /// the user interface if there is one, and the thing to do next.
    ///
    /// An event that cannot be what came of the last action changes nothing and is
    /// answered with that action again; a handle that comes with such an event is
    /// released. A session that ends, and a device that gives way to a new one, are
    /// released here too, the old device only once the new one is open.
    pub fn step(self, event: Event<H>) -> (r: (Self, Step))
        ensures
            r.0@ == self@.next(event@),
            r.1@ == self@.outcome(event@),
    {
        let next = match self.phase {
            Phase::Idle => match event {
                Event::Command(GuiMessage::Open(config)) => Phase::Connecting { config },
                Event::Command(GuiMessage::Write(_)) => {
                    let manager = SessionManager { phase: Phase::Idle };
                    return (manager, failed("Cannot write data port not open", Action::AwaitCommand));
                },
                Event::CommandsClosed => Phase::Stopped,
                _ => Phase::Idle,
            },
            Phase::Connecting { config } => match event {
                Event::Opened(handle) => Phase::Active {
                    session: Session { handle, config, error_flagged: false },
                },
                Event::OpenFailed => {
                    let manager = SessionManager { phase: Phase::Idle };
                    return (manager, failed("Cannot open the port", Action::AwaitCommand));
                },
                _ => Phase::Connecting { config },
            },
            Phase::Active { session } => match event {
                Event::Command(GuiMessage::Open(candidate)) => {
                    Phase::SwappingConfig { session, candidate }
                },
                Event::Command(GuiMessage::Write(data)) => Phase::Writing { session, data },
                Event::Command(GuiMessage::Close) => Phase::Idle,
                Event::CommandsClosed => Phase::Stopped,
                Event::Inbound(data) => {
                    let manager = SessionManager { phase: Phase::Active { session } };
                    let step = Step {
                        notification: Some(Notification::Data(ByteDirection::In, data)),
                        action: Action::AwaitCommandOrData,
                    };
                    return (manager, step);
                },
                Event::ReadFailed => {
                    let first = !session.error_flagged;
                    let session = Session {
                        handle: session.handle,
                        config: session.config,
                        error_flagged: true,
                    };
                    let action = Action::Open(port_from_config(&session.config));
                    let manager = SessionManager { phase: Phase::Reconnecting { session } };
                    if first {
                        return (manager, failed("Error while reading data", action));
                    }
                    return (manager, quiet(action));
                },
                _ => Phase::Active { session },
            },
            Phase::SwappingConfig { session, candidate } => match event {
                Event::Opened(handle) => Phase::Active {
                    session: Session { handle, config: candidate, error_flagged: false },
                },
                Event::OpenFailed => {
                    let manager = SessionManager { phase: Phase::Active { session } };
                    return (manager, failed("Cannot open the port", Action::AwaitCommandOrData));
                },
                _ => Phase::SwappingConfig { session, candidate },
            },
            Phase::Writing { session, data } => match event {
                Event::Written => {
                    let manager = SessionManager { phase: Phase::Active { session } };
                    let step = Step {
                        notification: Some(Notification::Data(ByteDirection::Out, data)),
                        action: Action::AwaitCommandOrData,
                    };
                    return (manager, step);
                },
                Event::WriteFailed => {
                    let manager = SessionManager { phase: Phase::Active { session } };
                    return (
                        manager,
                        failed("Cannot write data on the port", Action::AwaitCommandOrData),
                    );
                },
                _ => Phase::Writing { session, data },
            },
            Phase::Reconnecting { session } => match event {
                Event::Opened(handle) => Phase::Active {
                    session: Session { handle, config: session.config, error_flagged: false },
                },
                Event::OpenFailed => Phase::Active { session },
                _ => Phase::Reconnecting { session },
            },
            Phase::Stopped => Phase::Stopped,
        };
        let manager = SessionManager { phase: next };
        let action = manager.awaited();
        (manager, quiet(action))
    }
}

} // verus!
