use shell_platform::delegate::{
    command_for_action, delegate_class_name, event_queue_ivar, register,
    ClassRegistry, Delegate, DelegateError, Notification, RegistrationError,
};
use shell_platform::event::{AppEvent, Command, EventQueue};
use shell_platform::text::same_text;

#[test]
fn new_queue_is_empty() {
    let queue = EventQueue::new();
    assert_eq!(queue.len(), 0);
    assert!(queue.is_empty());
}

#[test]
fn drain_of_empty_queue_is_empty() {
    let mut queue = EventQueue::new();
    assert_eq!(queue.drain(), Vec::<AppEvent>::new());
    assert!(queue.is_empty());
    assert_eq!(queue.drain(), Vec::<AppEvent>::new());
}

#[test]
fn drain_returns_events_in_insertion_order() {
    let mut queue = EventQueue::new();
    queue.push(AppEvent::DidFinishLaunching);
    queue.push(AppEvent::DoCommand(Command::ToggleDarkTheme));
    queue.push(AppEvent::DidChangeScreenParameters);
    queue.push(AppEvent::DoCommand(Command::ClearHistory));
    queue.push(AppEvent::WillTerminate);
    assert_eq!(queue.len(), 5);
    assert!(!queue.is_empty());
    assert_eq!(
        queue.drain(),
        vec![
            AppEvent::DidFinishLaunching,
            AppEvent::DoCommand(Command::ToggleDarkTheme),
            AppEvent::DidChangeScreenParameters,
            AppEvent::DoCommand(Command::ClearHistory),
            AppEvent::WillTerminate,
        ]
    );
    assert_eq!(queue.len(), 0);
    assert_eq!(queue.drain(), Vec::<AppEvent>::new());
}

#[test]
fn drain_of_many_events_keeps_every_one() {
    let mut queue = EventQueue::new();
    let mut expected = Vec::new();
    for i in 0..1000 {
        let event = if i % 3 == 0 {
            AppEvent::DidFinishLaunching
        } else if i % 3 == 1 {
            AppEvent::DoCommand(Command::ClearHistory)
        } else {
            AppEvent::WillTerminate
        };
        queue.push(event);
        expected.push(event);
    }
    assert_eq!(queue.len(), 1000);
    assert_eq!(queue.drain(), expected);
    assert_eq!(queue.drain(), Vec::<AppEvent>::new());
}

#[test]
fn queue_is_usable_after_a_drain() {
    let mut queue = EventQueue::new();
    queue.push(AppEvent::WillTerminate);
    assert_eq!(queue.drain(), vec![AppEvent::WillTerminate]);
    queue.push(AppEvent::DidFinishLaunching);
    assert_eq!(queue.drain(), vec![AppEvent::DidFinishLaunching]);
}

#[test]
fn same_text_compares_whole_strings() {
    assert!(same_text("", ""));
    assert!(same_text("NSWindow", "NSWindow"));
    assert!(!same_text("NSWindow", "NSWindows"));
    assert!(!same_text("NSWindow", "NSWindoW"));
    assert!(!same_text("", "a"));
    assert!(same_text("fenêtre", "fenêtre"));
    assert!(!same_text("fenêtre", "fenetre"));
}

#[test]
fn notifications_become_their_events() {
    assert_eq!(Notification::DidFinishLaunching.event(), AppEvent::DidFinishLaunching);
    assert_eq!(
        Notification::DidChangeScreenParameters.event(),
        AppEvent::DidChangeScreenParameters
    );
    assert_eq!(Notification::WillTerminate.event(), AppEvent::WillTerminate);
}

#[test]
fn notifications_have_their_selectors() {
    assert_eq!(Notification::DidFinishLaunching.selector(), "applicationDidFinishLaunching:");
    assert_eq!(
        Notification::DidChangeScreenParameters.selector(),
        "applicationDidChangeScreenParameters:"
    );
    assert_eq!(Notification::WillTerminate.selector(), "applicationWillTerminate:");
}

#[test]
fn delegate_class_is_named() {
    assert_eq!(delegate_class_name(), "NSShellApplicationDelegate");
    assert_eq!(event_queue_ivar(), "event_queue");
}

#[test]
fn register_succeeds_exactly_once() {
    let mut registry = ClassRegistry::new();
    assert!(!registry.registered());
    match register(&mut registry) {
        Ok(class) => {
            assert_eq!(class.name, "NSShellApplicationDelegate");
            assert_eq!(class.superclass, "NSObject");
            assert_eq!(class.queue_ivar, "event_queue");
            assert_eq!(
                class.notifications,
                vec![
                    Notification::DidFinishLaunching,
                    Notification::DidChangeScreenParameters,
                    Notification::WillTerminate,
                ]
            );
        }
        Err(_) => panic!("first registration refused"),
    }
    assert!(registry.registered());
    assert!(matches!(register(&mut registry), Err(RegistrationError::AlreadyRegistered)));
    assert!(registry.registered());
    assert!(matches!(register(&mut registry), Err(RegistrationError::AlreadyRegistered)));
}

#[test]
fn known_actions_have_commands() {
    assert_eq!(command_for_action("clear history"), Some(Command::ClearHistory));
    assert_eq!(command_for_action("toggle dark theme"), Some(Command::ToggleDarkTheme));
}

#[test]
fn unknown_actions_have_no_command() {
    assert_eq!(command_for_action(""), None);
    assert_eq!(command_for_action("clear"), None);
    assert_eq!(command_for_action("clear history "), None);
    assert_eq!(command_for_action("Clear History"), None);
    assert_eq!(command_for_action("toggle light theme"), None);
}

#[test]
fn validator_enables_known_actions() {
    let delegate = Delegate::new();
    assert_eq!(delegate.validate("clear history"), Ok(true));
    assert_eq!(delegate.validate("toggle dark theme"), Ok(true));
}

#[test]
fn validator_refuses_unknown_actions() {
    let delegate = Delegate::new();
    assert_eq!(delegate.validate("quit"), Err(DelegateError::UnknownCommand));
    assert_eq!(delegate.validate(""), Err(DelegateError::UnknownCommand));
}

#[test]
fn delegate_queues_notifications_in_order() {
    let mut delegate = Delegate::new();
    delegate.notify(Notification::DidFinishLaunching);
    delegate.notify(Notification::DidChangeScreenParameters);
    delegate.notify(Notification::WillTerminate);
    assert_eq!(
        delegate.take_events(),
        vec![
            AppEvent::DidFinishLaunching,
            AppEvent::DidChangeScreenParameters,
            AppEvent::WillTerminate,
        ]
    );
    assert_eq!(delegate.take_events(), Vec::<AppEvent>::new());
}

#[test]
fn delegate_queues_commands_of_known_actions() {
    let mut delegate = Delegate::new();
    assert_eq!(delegate.dispatch("toggle dark theme"), Ok(()));
    assert_eq!(delegate.dispatch("clear history"), Ok(()));
    assert_eq!(
        delegate.take_events(),
        vec![
            AppEvent::DoCommand(Command::ToggleDarkTheme),
            AppEvent::DoCommand(Command::ClearHistory),
        ]
    );
}

#[test]
fn delegate_leaves_queue_alone_on_unknown_action() {
    let mut delegate = Delegate::new();
    delegate.notify(Notification::DidFinishLaunching);
    assert_eq!(delegate.dispatch("open tab"), Err(DelegateError::UnknownCommand));
    assert_eq!(delegate.take_events(), vec![AppEvent::DidFinishLaunching]);
}

#[test]
fn interleaved_drains_hand_out_every_event_once() {
    let mut queue = EventQueue::new();
    let mut handed_out = Vec::new();
    queue.push(AppEvent::DidFinishLaunching);
    queue.push(AppEvent::DoCommand(Command::ClearHistory));
    handed_out.extend(queue.drain());
    handed_out.extend(queue.drain());
    queue.push(AppEvent::DidChangeScreenParameters);
    handed_out.extend(queue.drain());
    queue.push(AppEvent::DoCommand(Command::ToggleDarkTheme));
    queue.push(AppEvent::WillTerminate);
    handed_out.extend(queue.drain());
    assert_eq!(
        handed_out,
        vec![
            AppEvent::DidFinishLaunching,
            AppEvent::DoCommand(Command::ClearHistory),
            AppEvent::DidChangeScreenParameters,
            AppEvent::DoCommand(Command::ToggleDarkTheme),
            AppEvent::WillTerminate,
        ]
    );
    assert!(queue.is_empty());
}
