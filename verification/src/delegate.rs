use vstd::prelude::*;
use crate::event::{AppEvent, Command, EventQueue, drained, after_drain};
use crate::text::same_text;

verus! {

/// A lifecycle notification that the native application sends to its delegate.
#[derive(Debug, Clone, Copy, PartialEq, Eq, Structural)]
pub enum Notification {
    DidFinishLaunching,
    DidChangeScreenParameters,
    WillTerminate,
}

/// A menu action reached the delegate that it does not know.
#[derive(Debug, Clone, Copy, PartialEq, Eq, Structural)]
pub enum DelegateError {
    UnknownCommand,
}

/// The class was registered before.
#[derive(Debug, Clone, Copy, PartialEq, Eq, Structural)]
pub enum RegistrationError {
    AlreadyRegistered,
}

/// The event that a notification puts into the queue.
pub open spec fn event_for(notification: Notification) -> AppEvent {
    match notification {
        Notification::DidFinishLaunching => AppEvent::DidFinishLaunching,
        Notification::DidChangeScreenParameters => AppEvent::DidChangeScreenParameters,
        Notification::WillTerminate => AppEvent::WillTerminate,
    }
}

/// The command that a menu-action identifier stands for; `None` for an
/// identifier outside the allow-list.
pub open spec fn command_for(identifier: Seq<char>) -> Option<Command> {
    if identifier == "clear history"@ {
        Some(Command::ClearHistory)
    } else if identifier == "toggle dark theme"@ {
        Some(Command::ToggleDarkTheme)
    } else {
        None
    }
}

/// The selector under which the delegate class answers a notification.
pub open spec fn selector_of(notification: Notification) -> Seq<char> {
    match notification {
        Notification::DidFinishLaunching => "applicationDidFinishLaunching:"@,
        Notification::DidChangeScreenParameters => "applicationDidChangeScreenParameters:"@,
        Notification::WillTerminate => "applicationWillTerminate:"@,
    }
}

impl Notification {
    /// Name of the delegate method that receives this notification.
    pub fn selector(&self) -> (r: &'static str)
        ensures
            r@ == selector_of(*self),
    {
        match self {
            Notification::DidFinishLaunching => "applicationDidFinishLaunching:",
            Notification::DidChangeScreenParameters => "applicationDidChangeScreenParameters:",
            Notification::WillTerminate => "applicationWillTerminate:",
        }
    }

    /// The event this notification is turned into.
    pub fn event(&self) -> (r: AppEvent)
        ensures
            r == event_for(*self),
    {
        match self {
            Notification::DidFinishLaunching => AppEvent::DidFinishLaunching,
            Notification::DidChangeScreenParameters => AppEvent::DidChangeScreenParameters,
            Notification::WillTerminate => AppEvent::WillTerminate,
        }
    }
}

/// What defines the native delegate class: its name, the class it extends,
/// the instance variable that binds the event queue to a delegate, and the
/// notifications it answers, each under its selector.
pub struct DelegateClass {
    pub name: &'static str,
    pub superclass: &'static str,
    pub queue_ivar: &'static str,
    pub notifications: Vec<Notification>,
}

/// Plain-value picture of a [`DelegateClass`].
pub struct DelegateClassView {
    pub name: Seq<char>,
    pub superclass: Seq<char>,
    pub queue_ivar: Seq<char>,
    pub notifications: Seq<Notification>,
}

impl View for DelegateClass {
    type V = DelegateClassView;

    open spec fn view(&self) -> DelegateClassView {
        DelegateClassView {
            name: self.name@,
            superclass: self.superclass@,
            queue_ivar: self.queue_ivar@,
            notifications: self.notifications@,
        }
    }
}

/// The one delegate class of the shell.
pub open spec fn shell_delegate_class() -> DelegateClassView {
    DelegateClassView {
        name: "NSShellApplicationDelegate"@,
        superclass: "NSObject"@,
        queue_ivar: "event_queue"@,
        notifications: seq![
            Notification::DidFinishLaunching,
            Notification::DidChangeScreenParameters,
            Notification::WillTerminate,
        ],
    }
}

/// Name of the native delegate class.
pub fn delegate_class_name() -> (r: &'static str)
    ensures
        r@ == shell_delegate_class().name,
{
    "NSShellApplicationDelegate"
}

/// Name of the instance variable that binds the event queue to a delegate.
pub fn event_queue_ivar() -> (r: &'static str)
    ensures
        r@ == shell_delegate_class().queue_ivar,
{
    "event_queue"
}

/// Remembers whether the native delegate class has been defined in this
/// process.
pub struct ClassRegistry {
    registered: bool,
}

impl ClassRegistry {
    /// The registry of a process that has defined nothing yet.
    pub fn new() -> (r: ClassRegistry)
        ensures
            !r.is_registered(),
    {
        ClassRegistry { registered: false }
    }

    /// Whether the delegate class has been defined.
    pub closed spec fn is_registered(&self) -> bool {
        self.registered
    }

    /// Whether the delegate class has been defined.
    pub fn registered(&self) -> (r: bool)
        ensures
            r == self.is_registered(),
    {
        self.registered
    }
}

/// Claims the one definition of the delegate class. The first call on a
/// registry returns the class, which the caller then defines natively; every
/// later call returns `AlreadyRegistered` and nothing may be defined.
pub fn register(registry: &mut ClassRegistry) -> (r: Result<DelegateClass, RegistrationError>)
    ensures
        final(registry).is_registered(),
        match r {
            Ok(class) => !old(registry).is_registered() && class@ == shell_delegate_class(),
            Err(e) => old(registry).is_registered() && e == RegistrationError::AlreadyRegistered,
        },
{
    if registry.registered {
        Err(RegistrationError::AlreadyRegistered)
    } else {
        registry.registered = true;
        let mut notifications: Vec<Notification> = Vec::new();
        notifications.push(Notification::DidFinishLaunching);
        notifications.push(Notification::DidChangeScreenParameters);
        notifications.push(Notification::WillTerminate);
        assert(notifications@ =~= shell_delegate_class().notifications);
        Ok(
            DelegateClass {
                name: delegate_class_name(),
                superclass: "NSObject",
                queue_ivar: event_queue_ivar(),
                notifications,
            },
        )
    }
}

/// Looks a menu-action identifier up in the allow-list.
pub fn command_for_action(identifier: &str) -> (r: Option<Command>)
    ensures
        r == command_for(identifier@),
{
    if same_text(identifier, "clear history") {
        Some(Command::ClearHistory)
    } else if same_text(identifier, "toggle dark theme") {
        Some(Command::ToggleDarkTheme)
    } else {
        None
    }
}

/// The application delegate: it owns the event queue and turns what the
/// native side tells it into events.
pub struct Delegate {
    queue: EventQueue,
}

impl View for Delegate {
    type V = Seq<AppEvent>;

    closed spec fn view(&self) -> Seq<AppEvent> {
        self.queue@
    }
}

impl Delegate {
    /// A delegate with a fresh, empty queue.
    pub fn new() -> (r: Delegate)
        ensures
            r@ == Seq::<AppEvent>::empty(),
    {
        Delegate { queue: EventQueue::new() }
    }

    /// Handles a lifecycle notification: its event joins the queue.
    pub fn notify(&mut self, notification: Notification)
        ensures
            final(self)@ == old(self)@.push(event_for(notification)),
    {
        self.queue.push(notification.event());
    }

    /// Says whether the menu item with this action is enabled: every action
    /// of the allow-list is. The identifier must be on the allow-list; a
    /// caller that does not know it asks `command_for_action` first. Code
    /// that calls this unverified with another identifier gets
    /// `UnknownCommand`.
    pub fn validate(&self, identifier: &str) -> (r: Result<bool, DelegateError>)
        requires
            command_for(identifier@).is_some(),
        ensures
            r == Ok::<bool, DelegateError>(true),
    {
        match command_for_action(identifier) {
            Some(_) => Ok(true),
            None => Err(DelegateError::UnknownCommand),
        }
    }

    /// Handles a menu action: the command of the identifier joins the queue.
    /// The identifier must be on the allow-list; a caller that does not know
    /// it asks `command_for_action` first. Code that calls this unverified
    /// with another identifier gets `UnknownCommand`, and nothing is queued.
    pub fn dispatch(&mut self, identifier: &str) -> (r: Result<(), DelegateError>)
        requires
            command_for(identifier@).is_some(),
        ensures
            r.is_ok(),
            final(self)@ == old(self)@.push(
                AppEvent::DoCommand(command_for(identifier@).unwrap()),
            ),
    {
        match command_for_action(identifier) {
            Some(command) => {
                self.queue.push(AppEvent::DoCommand(command));
                Ok(())
            },
            None => Err(DelegateError::UnknownCommand),
        }
    }

    /// Takes every queued event out, oldest first.
    pub fn take_events(&mut self) -> (r: Vec<AppEvent>)
        ensures
            r@ == drained(old(self)@),
            final(self)@ == after_drain(old(self)@),
    {
        self.queue.drain()
    }
}

} // verus!
