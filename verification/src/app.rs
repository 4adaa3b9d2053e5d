use vstd::prelude::*;
use crate::delegate::{Delegate, DelegateError, Notification, command_for, event_for};
use crate::event::{AppEvent, after_drain, drained};
use crate::nib::{Handle, Instance, InstanceView, bundle_view, find_instance, first_match};
use crate::pump::{EventPump, PumpState};

verus! {

/// Why loading a resource, or finding an object in it, failed.
#[derive(Debug, Clone, Copy, PartialEq, Eq, Structural)]
pub enum LoadError {
    ResourceNotFound,
    LoadFailed,
    ApplicationHandleNotFound,
    WindowHandleNotFound,
    PopoverHandleNotFound,
    ViewHandleNotFound,
}

/// Where an application controller stands in its life.
#[derive(Debug, Clone, Copy, PartialEq, Eq, Structural)]
pub enum Phase {
    Loaded,
    Running,
}

/// How much of a place the process takes among the running applications.
#[derive(Debug, Clone, Copy, PartialEq, Eq, Structural)]
pub enum ActivationPolicy {
    /// An ordinary application with a menu bar and windows.
    Regular,
    /// An application without a menu bar that may still show windows.
    Accessory,
    /// An application that shows nothing.
    Prohibited,
}

/// How a freshly loaded application is brought up.
#[derive(Debug, Clone, Copy, PartialEq, Eq, Structural)]
pub struct Activation {
    /// The activation policy to give the application.
    pub policy: ActivationPolicy,
    /// Whether it comes to the foreground over whatever is active.
    pub ignoring_other_apps: bool,
}

/// Style-mask bit that lets the content view fill the whole window frame.
pub const FULL_SIZE_CONTENT_VIEW_WINDOW_MASK: u64 = 0x8000;

/// The window found in a bundle, with the chrome it is to get.
#[derive(Debug, Clone, Copy, PartialEq, Eq, Structural)]
pub struct NativeWindow {
    /// The window.
    pub handle: Handle,
    /// The content view that the window reports, if it has one.
    pub content_view: Option<Handle>,
    /// Whether the title text is hidden.
    pub title_hidden: bool,
    /// The style mask to give the window.
    pub style_mask: u64,
}

/// A window and its content view, ready to be wrapped.
#[derive(Debug, Clone, Copy, PartialEq, Eq, Structural)]
pub struct WindowPlan {
    /// The window.
    pub window: Handle,
    /// The content view of the window.
    pub view: Handle,
    /// Whether the title text is hidden.
    pub title_hidden: bool,
    /// The style mask to give the window.
    pub style_mask: u64,
}

/// A window together with the popover found beside it.
#[derive(Debug, Clone, Copy, PartialEq, Eq, Structural)]
pub struct PopoverPlan {
    pub window: Handle,
    pub popover: Handle,
}

/// The outcome of loading a resource, as plain values.
pub open spec fn loaded_view(loaded: Result<Vec<Instance>, LoadError>) -> Result<
    Seq<InstanceView>,
    LoadError,
> {
    match loaded {
        Ok(instances) => Ok(bundle_view(instances@)),
        Err(e) => Err(e),
    }
}

/// What an attempt to load a resource came to: without the resource
/// `ResourceNotFound`, with a resource that did not load `LoadFailed`, and
/// otherwise the instances it gave.
pub fn load_outcome(found: bool, loaded: bool, instances: Vec<Instance>) -> (r: Result<
    Vec<Instance>,
    LoadError,
>)
    ensures
        r == if !found {
            Err::<Vec<Instance>, LoadError>(LoadError::ResourceNotFound)
        } else if !loaded {
            Err::<Vec<Instance>, LoadError>(LoadError::LoadFailed)
        } else {
            Ok::<Vec<Instance>, LoadError>(instances)
        },
{
    if !found {
        Err(LoadError::ResourceNotFound)
    } else if !loaded {
        Err(LoadError::LoadFailed)
    } else {
        Ok(instances)
    }
}

/// The handle of the first instance of a class in a loaded bundle, or the
/// given error where there is none; a failed load stays what it was.
pub open spec fn locate(
    loaded: Result<Seq<InstanceView>, LoadError>,
    class: Seq<char>,
    missing: LoadError,
) -> Result<InstanceView, LoadError> {
    match loaded {
        Err(e) => Err(e),
        Ok(bundle) => match first_match(bundle, class) {
            Some(at) => Ok(bundle[at]),
            None => Err(missing),
        },
    }
}

/// The style mask of a window after its content was merged into the frame.
pub open spec fn full_size_content(style_mask: u64) -> u64 {
    style_mask | FULL_SIZE_CONTENT_VIEW_WINDOW_MASK
}

/// The window that `create_native_window` makes of a loaded window resource:
/// the first instance of the window class, its title hidden and its content
/// merged into the frame.
pub open spec fn native_window(loaded: Result<Seq<InstanceView>, LoadError>) -> Result<
    NativeWindow,
    LoadError,
> {
    match locate(loaded, "NSShellWindow"@, LoadError::WindowHandleNotFound) {
        Err(e) => Err(e),
        Ok(window) => Ok(
            NativeWindow {
                handle: window.handle,
                content_view: window.content_view,
                title_hidden: true,
                style_mask: full_size_content(window.style_mask),
            },
        ),
    }
}

/// The content view of a window, or the error for a window without one.
pub open spec fn content_view_of(window: NativeWindow) -> Result<Handle, LoadError> {
    match window.content_view {
        Some(view) => Ok(view),
        None => Err(LoadError::ViewHandleNotFound),
    }
}

/// What `create_window` makes of a loaded window resource.
pub open spec fn window_plan(loaded: Result<Seq<InstanceView>, LoadError>) -> Result<
    WindowPlan,
    LoadError,
> {
    match native_window(loaded) {
        Err(e) => Err(e),
        Ok(window) => match content_view_of(window) {
            Err(e) => Err(e),
            Ok(view) => Ok(
                WindowPlan {
                    window: window.handle,
                    view,
                    title_hidden: window.title_hidden,
                    style_mask: window.style_mask,
                },
            ),
        },
    }
}

/// What `create_window_with_popover` makes of a loaded window resource.
pub open spec fn popover_plan(loaded: Result<Seq<InstanceView>, LoadError>) -> Result<
    PopoverPlan,
    LoadError,
> {
    match locate(loaded, "NSShellWindow"@, LoadError::WindowHandleNotFound) {
        Err(e) => Err(e),
        Ok(window) => match locate(loaded, "NSPopover"@, LoadError::PopoverHandleNotFound) {
            Err(e) => Err(e),
            Ok(popover) => Ok(PopoverPlan { window: window.handle, popover: popover.handle }),
        },
    }
}

impl LoadError {
    /// The words that describe the error.
    pub fn message(&self) -> (r: &'static str)
        ensures
            r@ == match *self {
                LoadError::ResourceNotFound => "Couldn't not find nib file"@,
                LoadError::LoadFailed => "Couldn't not load nib file"@,
                LoadError::ApplicationHandleNotFound =>
                    "Couldn't not find NSApplication instance in nib file"@,
                LoadError::WindowHandleNotFound =>
                    "Couldn't not find NSWindow instance in nib file"@,
                LoadError::PopoverHandleNotFound =>
                    "Couldn't not find NSPopover instance in nib file"@,
                LoadError::ViewHandleNotFound => "Couldn't not find NSView instance in nib file"@,
            },
    {
        match self {
            LoadError::ResourceNotFound => "Couldn't not find nib file",
            LoadError::LoadFailed => "Couldn't not load nib file",
            LoadError::ApplicationHandleNotFound =>
                "Couldn't not find NSApplication instance in nib file",
            LoadError::WindowHandleNotFound => "Couldn't not find NSWindow instance in nib file",
            LoadError::PopoverHandleNotFound => "Couldn't not find NSPopover instance in nib file",
            LoadError::ViewHandleNotFound => "Couldn't not find NSView instance in nib file",
        }
    }
}

/// Finds the first instance of a class in what a load returned.
fn locate_instance(loaded: &Result<Vec<Instance>, LoadError>, class: &str, missing: LoadError) -> (r:
    Result<usize, LoadError>)
    ensures
        match r {
            Ok(at) => {
                &&& loaded_view(*loaded).is_ok()
                &&& 0 <= at < loaded_view(*loaded).unwrap().len()
                &&& first_match(loaded_view(*loaded).unwrap(), class@) == Some(at as int)
                &&& locate(loaded_view(*loaded), class@, missing) == Ok::<InstanceView, LoadError>(
                    loaded_view(*loaded).unwrap()[at as int],
                )
            },
            Err(e) => locate(loaded_view(*loaded), class@, missing) == Err::<
                InstanceView,
                LoadError,
            >(e),
        },
{
    match loaded {
        Err(e) => Err(*e),
        Ok(instances) => {
            proof {
                crate::nib::lemma_first_match(bundle_view(instances@), class@);
            }
            match find_instance(instances, class) {
                Some(at) => Ok(at),
                None => Err(missing),
            }
        },
    }
}

/// The application controller: the native application, its delegate with the
/// event queue, and how far it has come.
pub struct App {
    nsapp: Handle,
    delegate: Delegate,
    phase: Phase,
}

/// Plain-value picture of an [`App`].
pub struct AppView {
    pub handle: Handle,
    pub queue: Seq<AppEvent>,
    pub phase: Phase,
}

/// The activation of every loaded application: a regular application, in
/// the foreground.
pub open spec fn foreground_activation() -> Activation {
    Activation { policy: ActivationPolicy::Regular, ignoring_other_apps: true }
}

/// The controller that `load` makes of a loaded application resource, and
/// how the application is to be activated.
pub open spec fn loaded_app(loaded: Result<Seq<InstanceView>, LoadError>) -> Result<
    (AppView, Activation),
    LoadError,
> {
    match locate(loaded, "NSApplication"@, LoadError::ApplicationHandleNotFound) {
        Err(e) => Err(e),
        Ok(instance) => Ok(
            (
                AppView { handle: instance.handle, queue: Seq::empty(), phase: Phase::Loaded },
                foreground_activation(),
            ),
        ),
    }
}

impl View for App {
    type V = AppView;

    closed spec fn view(&self) -> AppView {
        AppView { handle: self.nsapp, queue: self.delegate@, phase: self.phase }
    }
}

impl App {
    /// Makes the controller from what loading the application resource
    /// returned. A failed load is passed on. Otherwise the first instance of
    /// the application class becomes the application handle, with a fresh
    /// delegate and an empty queue, to be activated as a regular application
    /// in the foreground; a bundle without such an instance is an error.
    pub fn load(loaded: Result<Vec<Instance>, LoadError>) -> (r: Result<
        (App, Activation),
        LoadError,
    >)
        ensures
            match r {
                Ok((app, activation)) => loaded_app(loaded_view(loaded)) == Ok::<
                    (AppView, Activation),
                    LoadError,
                >((app@, activation)),
                Err(e) => loaded_app(loaded_view(loaded)) == Err::<
                    (AppView, Activation),
                    LoadError,
                >(e),
            },
    {
        match locate_instance(&loaded, "NSApplication", LoadError::ApplicationHandleNotFound) {
            Err(e) => Err(e),
            Ok(at) => match &loaded {
                Ok(instances) => {
                    let nsapp: Handle = instances[at].handle;
                    Ok(
                        (
                            App { nsapp, delegate: Delegate::new(), phase: Phase::Loaded },
                            Activation {
                                policy: ActivationPolicy::Regular,
                                ignoring_other_apps: true,
                            },
                        ),
                    )
                },
                Err(e) => Err(*e),
            },
        }
    }

    /// The native application.
    pub fn handle(&self) -> (r: Handle)
        ensures
            r == self@.handle,
    {
        self.nsapp
    }

    /// How far the controller has come.
    pub fn phase(&self) -> (r: Phase)
        ensures
            r == self@.phase,
    {
        self.phase
    }

    /// Delivers a lifecycle notification to the delegate.
    pub fn notify(&mut self, notification: Notification)
        ensures
            final(self)@ == (AppView {
                queue: old(self)@.queue.push(event_for(notification)),
                ..old(self)@
            }),
    {
        self.delegate.notify(notification);
    }

    /// Asks the delegate whether the menu item with this action is enabled.
    /// The identifier must be on the allow-list.
    pub fn validate(&self, identifier: &str) -> (r: Result<bool, DelegateError>)
        requires
            command_for(identifier@).is_some(),
        ensures
            r == Ok::<bool, DelegateError>(true),
    {
        self.delegate.validate(identifier)
    }

    /// Delivers a menu action to the delegate. The identifier must be on
    /// the allow-list.
    pub fn dispatch(&mut self, identifier: &str) -> (r: Result<(), DelegateError>)
        requires
            command_for(identifier@).is_some(),
        ensures
            r.is_ok(),
            final(self)@ == (AppView {
                queue: old(self)@.queue.push(
                    AppEvent::DoCommand(command_for(identifier@).unwrap()),
                ),
                ..old(self)@
            }),
    {
        self.delegate.dispatch(identifier)
    }

    /// Takes all queued events out, oldest first, leaving the queue empty.
    /// It never waits: with nothing queued the result is empty.
    pub fn get_events(&mut self) -> (r: Vec<AppEvent>)
        ensures
            r@ == drained(old(self)@.queue),
            final(self)@ == (AppView { queue: after_drain(old(self)@.queue), ..old(self)@ }),
    {
        self.delegate.take_events()
    }

    /// Starts the event pump. A loaded controller becomes running and hands
    /// out a pump that waits for its first event; one that runs already
    /// stays as it is and hands out nothing.
    pub fn run(&mut self) -> (r: Option<EventPump>)
        ensures
            final(self)@ == (AppView { phase: Phase::Running, ..old(self)@ }),
            match r {
                Some(pump) => old(self)@.phase == Phase::Loaded && pump.state()
                    == PumpState::WaitForEvent,
                None => old(self)@.phase == Phase::Running,
            },
    {
        match self.phase {
            Phase::Loaded => {
                self.phase = Phase::Running;
                Some(EventPump::new())
            },
            Phase::Running => None,
        }
    }

    /// Finds the window in what loading the window resource returned: the
    /// first instance of the window class. Its title is to be hidden and its
    /// style mask is the one it has, with the content merged into the whole
    /// frame. A failed load is passed on; a bundle without a window is an
    /// error.
    pub fn create_native_window(loaded: &Result<Vec<Instance>, LoadError>) -> (r: Result<
        NativeWindow,
        LoadError,
    >)
        ensures
            r == native_window(loaded_view(*loaded)),
    {
        match locate_instance(loaded, "NSShellWindow", LoadError::WindowHandleNotFound) {
            Err(e) => Err(e),
            Ok(at) => match loaded {
                Ok(instances) => Ok(
                    NativeWindow {
                        handle: instances[at].handle,
                        content_view: instances[at].content_view,
                        title_hidden: true,
                        style_mask: instances[at].style_mask | FULL_SIZE_CONTENT_VIEW_WINDOW_MASK,
                    },
                ),
                Err(e) => Err(*e),
            },
        }
    }

    /// The content view of a window; a window without one is an error.
    pub fn find_nsservoview(window: NativeWindow) -> (r: Result<Handle, LoadError>)
        ensures
            r == content_view_of(window),
    {
        match window.content_view {
            Some(view) => Ok(view),
            None => Err(LoadError::ViewHandleNotFound),
        }
    }

    /// Makes a window from what loading the window resource returned: the
    /// first instance of the window class, its title hidden, its content
    /// merged into the frame, together with its content view. A failed load
    /// is passed on; a bundle without a window, or a window without a content
    /// view, is an error. The controller is not changed.
    pub fn create_window(&self, loaded: Result<Vec<Instance>, LoadError>) -> (r: Result<
        WindowPlan,
        LoadError,
    >)
        ensures
            r == window_plan(loaded_view(loaded)),
    {
        match App::create_native_window(&loaded) {
            Err(e) => Err(e),
            Ok(window) => match App::find_nsservoview(window) {
                Err(e) => Err(e),
                Ok(view) => Ok(
                    WindowPlan {
                        window: window.handle,
                        view,
                        title_hidden: window.title_hidden,
                        style_mask: window.style_mask,
                    },
                ),
            },
        }
    }

    /// Makes a window from a window resource that carries a popover: the
    /// first instance of the window class and the first instance of the
    /// popover class. A failed load is passed on; a bundle without a window,
    /// or with a window and without a popover, is an error. The controller
    /// is not changed.
    pub fn create_window_with_popover(&self, loaded: Result<Vec<Instance>, LoadError>) -> (r:
        Result<PopoverPlan, LoadError>)
        ensures
            r == popover_plan(loaded_view(loaded)),
    {
        match locate_instance(&loaded, "NSShellWindow", LoadError::WindowHandleNotFound) {
            Err(e) => Err(e),
            Ok(at) => match locate_instance(&loaded, "NSPopover", LoadError::PopoverHandleNotFound) {
                Err(e) => Err(e),
                Ok(popover_at) => match &loaded {
                    Ok(instances) => Ok(
                        PopoverPlan {
                            window: instances[at].handle,
                            popover: instances[popover_at].handle,
                        },
                    ),
                    Err(e) => Err(*e),
                },
            },
        }
    }
}

} // verus!
