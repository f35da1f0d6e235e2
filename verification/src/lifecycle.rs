//! The process-wide lifecycle: the two events that travel on the event bus,
//! who publishes them, and what the listener and the browser launcher do when
//! one arrives.

use vstd::prelude::*;

verus! {

/// What travels on the event bus.
#[derive(PartialEq, Eq, Clone, Copy, Debug, Structural)]
pub enum UserEvent {
    /// The whole process winds down. Nothing follows it.
    Quit,
    /// The user wants to see the application.
    OpenBrowser,
}

/// The two `POST` endpoints that publish on the bus.
#[derive(PartialEq, Eq, Clone, Copy, Debug, Structural)]
pub enum ControlEndpoint {
    Exit,
    Open,
}

impl ControlEndpoint {
    /// The event a request to the endpoint publishes.
    pub open spec fn published(self) -> UserEvent {
        match self {
            ControlEndpoint::Exit => UserEvent::Quit,
            ControlEndpoint::Open => UserEvent::OpenBrowser,
        }
    }

    /// The event a request to the endpoint publishes.
    pub fn event(self) -> (r: UserEvent)
        ensures
            r == self.published(),
    {
        match self {
            ControlEndpoint::Exit => UserEvent::Quit,
            ControlEndpoint::Open => UserEvent::OpenBrowser,
        }
    }

    /// The path the endpoint is served at.
    pub fn path(self) -> (r: &'static str)
        ensures
            r@ == (match self {
                ControlEndpoint::Exit => "/exit"@,
                ControlEndpoint::Open => "/open"@,
            }),
    {
        match self {
            ControlEndpoint::Exit => "/exit",
            ControlEndpoint::Open => "/open",
        }
    }
}

/// The two entries of the tray icon's menu.
#[derive(PartialEq, Eq, Clone, Copy, Debug, Structural)]
pub enum TrayMenuItem {
    Open,
    Quit,
}

impl TrayMenuItem {
    /// The event a click on the entry publishes.
    pub fn event(self) -> (r: UserEvent)
        ensures
            r == (match self {
                TrayMenuItem::Open => UserEvent::OpenBrowser,
                TrayMenuItem::Quit => UserEvent::Quit,
            }),
    {
        match self {
            TrayMenuItem::Open => UserEvent::OpenBrowser,
            TrayMenuItem::Quit => UserEvent::Quit,
        }
    }

    /// The entry's caption.
    pub fn caption(self) -> (r: &'static str)
        ensures
            r@ == (match self {
                TrayMenuItem::Open => "Open"@,
                TrayMenuItem::Quit => "Quit"@,
            }),
    {
        match self {
            TrayMenuItem::Open => "Open",
            TrayMenuItem::Quit => "Quit",
        }
    }
}

/// The tray icon's title for an instance: the product's name, then the
/// instance's name where it has one.
pub open spec fn tray_title_of(instance_name: Seq<char>) -> Seq<char> {
    if instance_name.len() == 0 {
        "Holy Cluster"@
    } else {
        "Holy Cluster - "@ + instance_name
    }
}

/// The tray icon's title for an instance.
pub fn tray_title(instance_name: &str) -> (r: String)
    ensures
        r@ == tray_title_of(instance_name@),
{
    if instance_name.is_empty() {
        "Holy Cluster".to_owned()
    } else {
        let mut title = "Holy Cluster - ".to_owned();
        title.append(instance_name);
        title
    }
}

/// Whether a subscriber that only waits for the end stops waiting: at `Quit`,
/// or when the bus itself is gone (`None`).
pub open spec fn ends_service(received: Option<UserEvent>) -> bool {
    received != Some(UserEvent::OpenBrowser)
}

/// Whether the listener stops accepting connections on what it received from
/// the bus. `None` stands for a bus that can deliver nothing more.
pub fn shutdown(received: Option<UserEvent>) -> (r: bool)
    ensures
        r == ends_service(received),
{
    match received {
        Some(UserEvent::OpenBrowser) => false,
        _ => true,
    }
}

/// What the browser launcher does on an event.
#[derive(PartialEq, Eq, Clone, Copy, Debug, Structural)]
pub enum LauncherAction {
    /// Open one browser tab at the gateway's address.
    OpenBrowser,
    /// Do nothing.
    Nothing,
    /// Stop listening to the bus.
    Stop,
}

/// What the lifecycle keeps track of: whether `Quit` was seen, and how many
/// CAT sockets are open.
#[derive(Clone, Copy, Debug)]
pub struct Lifecycle {
    quit: bool,
    cat_sockets: usize,
}

impl Lifecycle {
    /// Whether `Quit` was seen.
    pub closed spec fn has_quit(self) -> bool {
        self.quit
    }

    /// How many CAT sockets are open.
    pub closed spec fn open_sockets(self) -> nat {
        self.cat_sockets as nat
    }

    /// The state after an event, and what the browser launcher does on it.
    /// After `Quit` nothing happens any more. Before it, `OpenBrowser` opens
    /// a tab only while no CAT socket is open: a connected tab gets a focus
    /// notice instead.
    pub open spec fn react(self, event: UserEvent) -> LauncherAction {
        if self.has_quit() {
            LauncherAction::Nothing
        } else {
            match event {
                UserEvent::Quit => LauncherAction::Stop,
                UserEvent::OpenBrowser => if self.open_sockets() == 0 {
                    LauncherAction::OpenBrowser
                } else {
                    LauncherAction::Nothing
                },
            }
        }
    }

    /// A running process with no CAT socket.
    pub fn new() -> (r: Self)
        ensures
            !r.has_quit(),
            r.open_sockets() == 0,
    {
        Lifecycle { quit: false, cat_sockets: 0 }
    }

    /// Whether new connections are still accepted.
    pub fn accepting(&self) -> (r: bool)
        ensures
            r == !self.has_quit(),
    {
        !self.quit
    }

    /// How many CAT sockets are open.
    pub fn cat_sockets(&self) -> (r: usize)
        ensures
            r == self.open_sockets(),
    {
        self.cat_sockets
    }

    /// Counts a CAT socket that was upgraded. It is admitted, and counted,
    /// while connections are accepted and the count can still grow.
    pub fn cat_socket_opened(&mut self) -> (admitted: bool)
        ensures
            admitted == (!old(self).has_quit() && old(self).open_sockets() < usize::MAX),
            final(self).has_quit() == old(self).has_quit(),
            final(self).open_sockets() == old(self).open_sockets() + (if admitted {
                1nat
            } else {
                0nat
            }),
    {
        if self.quit || self.cat_sockets == usize::MAX {
            false
        } else {
            self.cat_sockets = self.cat_sockets + 1;
            true
        }
    }

    /// Counts a CAT socket that ended.
    pub fn cat_socket_closed(&mut self)
        ensures
            final(self).has_quit() == old(self).has_quit(),
            old(self).open_sockets() > 0 ==> final(self).open_sockets() == old(self).open_sockets()
                - 1,
            old(self).open_sockets() == 0 ==> final(self).open_sockets() == 0,
    {
        if self.cat_sockets > 0 {
            self.cat_sockets = self.cat_sockets - 1;
        }
    }

    /// Takes an event off the bus and says what the browser launcher does.
    pub fn on_event(&mut self, event: UserEvent) -> (action: LauncherAction)
        ensures
            action == old(self).react(event),
            final(self).has_quit() == (old(self).has_quit() || event == UserEvent::Quit),
            final(self).open_sockets() == old(self).open_sockets(),
    {
        if self.quit {
            LauncherAction::Nothing
        } else {
            match event {
                UserEvent::Quit => {
                    self.quit = true;
                    LauncherAction::Stop
                },
                UserEvent::OpenBrowser => {
                    if self.cat_sockets == 0 {
                        LauncherAction::OpenBrowser
                    } else {
                        LauncherAction::Nothing
                    }
                },
            }
        }
    }
}

/// A request to open the application opens exactly one tab when no CAT socket
/// is open, and none when one or more are.
pub proof fn lemma_open_gated_by_sockets(state: Lifecycle)
    requires
        !state.has_quit(),
    ensures
        state.open_sockets() == 0 ==> state.react(ControlEndpoint::Open.published())
            == LauncherAction::OpenBrowser,
        state.open_sockets() > 0 ==> state.react(ControlEndpoint::Open.published())
            == LauncherAction::Nothing,
{
}

/// Once `Quit` was seen the launcher never acts again, whatever arrives.
pub proof fn lemma_quit_is_terminal(state: Lifecycle, event: UserEvent)
    requires
        state.has_quit(),
    ensures
        state.react(event) == LauncherAction::Nothing,
{
}

} // verus!
