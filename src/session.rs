use vstd::prelude::*;
use crate::address::{ConfigError, parsed_address, validate_address};
use crate::config::{StoredValue, stored_notifications, stored_server, get_notifications_enabled};
use crate::probe::{
    ProbeOutcome, TransportKind, PROBE_TIMEOUT_SECS, classify_fault, describe_failure, failure_message,
    fault_class, send_probe,
};
use crate::text::{frontend_base, landing_path, landing_url, same_text, settings_path, settings_url};

verus! {

/// Visibility of the single application window.
#[derive(Clone, Copy, Debug, PartialEq, Eq, Structural)]
pub enum Visibility {
    Visible,
    Hidden,
}

/// What the window first shows.
#[derive(Clone, Debug, PartialEq, Eq)]
pub enum InitialView {
    /// The shell's own landing page, where the server is configured.
    Landing,
    /// The configured remote application.
    Remote(String),
}

/// An instruction for the presentation layer or the configuration store,
/// carried out in order; the first failure stops the rest.
#[derive(Clone, Debug, PartialEq, Eq)]
pub enum Command {
    CreateWindow(InitialView),
    Navigate(String),
    Show,
    Hide,
    Unminimize,
    Focus,
    /// Runs a script in the page.
    RunScript(String),
    /// Shows a native notification with a title and a body.
    Notify(String, String),
    StoreServerUrl(String),
    DeleteServerUrl,
    StoreNotificationsEnabled(bool),
    SaveStore,
    SetAutostart(bool),
    /// Tells the page that a server must be configured.
    EmitOpenSettings,
    Exit,
}

/// A menu or tray entry the user picked.
#[derive(Clone, Debug, PartialEq, Eq)]
pub enum Selection {
    ShowHide,
    Settings,
    Quit,
    ToggleAutostart,
    Back,
    Forward,
    Reload,
    Unrecognized(String),
}

/// A command that navigates to the address `t`.
pub open spec fn navigates_to(c: Command, t: Seq<char>) -> bool {
    c matches Command::Navigate(u) && u@ == t
}

/// A command that runs the script `t` in the page.
pub open spec fn runs_script(c: Command, t: Seq<char>) -> bool {
    c matches Command::RunScript(s) && s@ == t
}

/// The start on the landing view: the window, then one call for configuration.
pub open spec fn landing_start(cs: Seq<Command>) -> bool {
    &&& cs.len() == 2
    &&& cs[0] matches Command::CreateWindow(InitialView::Landing)
    &&& cs[1] is EmitOpenSettings
}

/// The start on the remote application at address `a`: the window alone.
pub open spec fn remote_start(cs: Seq<Command>, a: Seq<char>) -> bool {
    &&& cs.len() == 1
    &&& cs[0] matches Command::CreateWindow(InitialView::Remote(t))
    &&& t@ == a
}

/// The commands that make `address` the configured server: the text as
/// entered is stored and saved, then the window goes to the parsed address.
pub open spec fn configure_commands(cs: Seq<Command>, candidate: Seq<char>, address: Seq<char>) -> bool {
    &&& cs.len() == 3
    &&& cs[0] matches Command::StoreServerUrl(u)
    &&& u@ == candidate
    &&& cs[1] is SaveStore
    &&& navigates_to(cs[2], address)
}

/// The error for a probe that failed with kind `k` and detail `d`.
pub open spec fn unreachable_error(e: ConfigError, k: TransportKind, d: Seq<char>) -> bool {
    &&& e matches ConfigError::Unreachable(k2, m)
    &&& k2 == k
    &&& m@ == failure_message(k, d)
}

/// The script that a history or reload selection runs in the page, if any.
pub open spec fn page_script(s: Selection) -> Option<Seq<char>> {
    match s {
        Selection::Back => Some("history.back()"@),
        Selection::Forward => Some("history.forward()"@),
        Selection::Reload => Some("location.reload()"@),
        _ => None,
    }
}

/// The commands that show a notification with title `t` and body `b`, or
/// none where the stored preference turns notifications off.
pub open spec fn notification_commands(stored: Option<StoredValue>, cs: Seq<Command>, t: Seq<char>, b: Seq<char>) -> bool {
    if stored_notifications(stored) {
        &&& cs.len() == 1
        &&& cs[0] matches Command::Notify(x, y)
        &&& x@ == t
        &&& y@ == b
    } else {
        cs.len() == 0
    }
}

/// The value the store holds under the server key once `cs` has run on `prior`.
pub open spec fn server_value_after(prior: Option<StoredValue>, cs: Seq<Command>) -> Option<StoredValue>
    decreases cs.len(),
{
    if cs.len() == 0 {
        prior
    } else {
        match cs.last() {
            Command::StoreServerUrl(u) => Some(StoredValue::Text(u)),
            Command::DeleteServerUrl => None,
            _ => server_value_after(prior, cs.drop_last()),
        }
    }
}

/// The value the store holds under the notification key once `cs` has run on `prior`.
pub open spec fn notifications_value_after(prior: Option<StoredValue>, cs: Seq<Command>) -> Option<StoredValue>
    decreases cs.len(),
{
    if cs.len() == 0 {
        prior
    } else {
        match cs.last() {
            Command::StoreNotificationsEnabled(b) => Some(StoredValue::Flag(b)),
            _ => notifications_value_after(prior, cs.drop_last()),
        }
    }
}

/// Commands that answer a close request: hide, and nothing else.
pub open spec fn close_commands() -> Seq<Command> {
    seq![Command::Hide]
}

/// Commands that bring the window to the front.
pub open spec fn show_commands() -> Seq<Command> {
    seq![Command::Show, Command::Focus]
}

/// Visibility after a show/hide toggle.
pub open spec fn toggled(v: Visibility) -> Visibility {
    match v {
        Visibility::Visible => Visibility::Hidden,
        Visibility::Hidden => Visibility::Visible,
    }
}

/// Commands that carry out a show/hide toggle from `v`.
pub open spec fn toggle_commands(v: Visibility) -> Seq<Command> {
    match v {
        Visibility::Visible => seq![Command::Hide],
        Visibility::Hidden => seq![Command::Unminimize, Command::Show, Command::Focus],
    }
}

/// The identifiers of menu and tray entries, and what each selects.
pub open spec fn selection_matches(id: Seq<char>, s: Selection) -> bool {
    if id == "show_hide"@ {
        s is ShowHide
    } else if id == "settings"@ || id == "menu_settings"@ {
        s is Settings
    } else if id == "quit"@ {
        s is Quit
    } else if id == "autostart"@ {
        s is ToggleAutostart
    } else if id == "menu_back"@ {
        s is Back
    } else if id == "menu_forward"@ {
        s is Forward
    } else if id == "menu_reload"@ {
        s is Reload
    } else {
        s matches Selection::Unrecognized(t) && t@ == id
    }
}

/// Finishes configuring a server once the probe of its parsed `address` has
/// come back: any HTTP response, whatever its status code, is success; a
/// transport failure is an error of the fault's class, whose message gives the
/// class's reason and the detail.
pub fn configure_with_probe(candidate: &str, address: String, outcome: &ProbeOutcome) -> (r: Result<Vec<Command>, ConfigError>)
    ensures
        *outcome is Responded ==> r is Ok && configure_commands(r->Ok_0@, candidate@, address@),
        *outcome matches ProbeOutcome::TransportFailed(f, d) ==> r is Err && unreachable_error(
            r->Err_0,
            fault_class(f),
            d@,
        ),
{
    match outcome {
        ProbeOutcome::Responded(_) => Ok(vec![
            Command::StoreServerUrl(candidate.to_string()),
            Command::SaveStore,
            Command::Navigate(address),
        ]),
        ProbeOutcome::TransportFailed(f, d) => {
            let k = classify_fault(*f);
            Err(ConfigError::Unreachable(k, describe_failure(k, d.as_str())))
        },
    }
}

/// Configures the server: the candidate must be an absolute URL, checked before
/// any I/O, and must answer a probe; only then is it stored and shown. The probe
/// blocks for up to its timeout.
pub fn configure_server(candidate: &str) -> (r: Result<Vec<Command>, ConfigError>)
    ensures
        (r matches Err(ConfigError::InvalidUrl(_))) <==> parsed_address(candidate@) is None,
        r is Ok ==> configure_commands(r->Ok_0@, candidate@, parsed_address(candidate@)->Some_0),
        r matches Err(ConfigError::Unreachable(k, m)) ==> exists|d: Seq<char>| m@ == failure_message(k, d),
{
    match validate_address(candidate) {
        Ok(address) => {
            let outcome = send_probe(address.as_str(), PROBE_TIMEOUT_SECS);
            configure_with_probe(candidate, address, &outcome)
        },
        Err(e) => Err(e),
    }
}

/// Shows a notification unless the stored preference turns them off, in which
/// case it is dropped.
pub fn request_notification(stored: &Option<StoredValue>, title: &str, body: &str) -> (r: Vec<Command>)
    ensures
        notification_commands(*stored, r@, title@, body@),
{
    if get_notifications_enabled(stored) {
        vec![Command::Notify(title.to_string(), body.to_string())]
    } else {
        Vec::new()
    }
}

/// Stores the notification preference.
pub fn set_notifications_enabled(enabled: bool) -> (r: Vec<Command>)
    ensures
        r@ == seq![Command::StoreNotificationsEnabled(enabled), Command::SaveStore],
{
    vec![Command::StoreNotificationsEnabled(enabled), Command::SaveStore]
}

/// Registers or unregisters the shell to start at login.
pub fn set_autostart_enabled(enabled: bool) -> (r: Vec<Command>)
    ensures
        r@ == seq![Command::SetAutostart(enabled)],
{
    vec![Command::SetAutostart(enabled)]
}

impl Selection {
    /// The selection that a menu or tray entry's identifier stands for.
    pub fn from_id(id: &str) -> (r: Selection)
        ensures
            selection_matches(id@, r),
    {
        if same_text(id, "show_hide") {
            Selection::ShowHide
        } else if same_text(id, "settings") || same_text(id, "menu_settings") {
            Selection::Settings
        } else if same_text(id, "quit") {
            Selection::Quit
        } else if same_text(id, "autostart") {
            Selection::ToggleAutostart
        } else if same_text(id, "menu_back") {
            Selection::Back
        } else if same_text(id, "menu_forward") {
            Selection::Forward
        } else if same_text(id, "menu_reload") {
            Selection::Reload
        } else {
            Selection::Unrecognized(id.to_string())
        }
    }
}

/// The shell's session: whether the window exists yet, and its visibility.
#[derive(Clone, Copy, Debug, PartialEq, Eq)]
pub struct Session {
    /// `None` until the window has been created.
    pub window: Option<Visibility>,
    /// Whether the shell's own pages come from the development server.
    pub dev: bool,
}

impl Session {
    /// A session before any window exists.
    pub fn new(dev: bool) -> (r: Session)
        ensures
            r.window is None,
            r.dev == dev,
    {
        Session { window: None, dev }
    }

    /// Decides what the window first shows from the stored server address.
    /// With none, the landing view, and the page is told once that a server
    /// must be configured. The window is visible afterwards.
    pub fn startup(&mut self, stored: &Option<StoredValue>) -> (r: Result<Vec<Command>, ConfigError>)
        ensures
            final(self).dev == old(self).dev,
            stored_server(*stored) is None ==> r is Ok && landing_start(r->Ok_0@),
            stored_server(*stored) matches Some(u) ==> (r is Ok <==> parsed_address(u@) is Some)
                && (r is Ok ==> remote_start(r->Ok_0@, parsed_address(u@)->Some_0)),
            r is Ok ==> final(self).window == Some(Visibility::Visible),
            r is Err ==> final(self).window == old(self).window && r->Err_0 is InvalidUrl,
    {
        match stored {
            Some(StoredValue::Text(u)) => {
                match validate_address(u.as_str()) {
                    Ok(a) => {
                        self.window = Some(Visibility::Visible);
                        Ok(vec![Command::CreateWindow(InitialView::Remote(a))])
                    },
                    Err(e) => Err(e),
                }
            },
            _ => {
                self.window = Some(Visibility::Visible);
                Ok(vec![Command::CreateWindow(InitialView::Landing), Command::EmitOpenSettings])
            },
        }
    }

    /// Flips the window between shown and hidden; no effect before it exists.
    pub fn toggle(&mut self) -> (r: Vec<Command>)
        ensures
            final(self).dev == old(self).dev,
            old(self).window matches Some(v) ==> final(self).window == Some(toggled(v))
                && r@ == toggle_commands(v),
            old(self).window is None ==> final(self).window is None && r@.len() == 0,
    {
        match self.window {
            Some(Visibility::Visible) => {
                self.window = Some(Visibility::Hidden);
                vec![Command::Hide]
            },
            Some(Visibility::Hidden) => {
                self.window = Some(Visibility::Visible);
                vec![Command::Unminimize, Command::Show, Command::Focus]
            },
            None => Vec::new(),
        }
    }

    /// Brings the window to the front; no effect before it exists.
    pub fn force_show(&mut self) -> (r: Vec<Command>)
        ensures
            final(self).dev == old(self).dev,
            old(self).window is Some ==> final(self).window == Some(Visibility::Visible)
                && r@ == show_commands(),
            old(self).window is None ==> final(self).window is None && r@.len() == 0,
    {
        if self.window.is_some() {
            self.window = Some(Visibility::Visible);
            vec![Command::Show, Command::Focus]
        } else {
            Vec::new()
        }
    }

    /// Opens the settings view and brings the window to the front.
    pub fn open_settings(&mut self) -> (r: Vec<Command>)
        ensures
            final(self).dev == old(self).dev,
            old(self).window is Some ==> final(self).window == Some(Visibility::Visible)
                && r@.len() == 3
                && navigates_to(r@[0], frontend_base(old(self).dev) + settings_path())
                && r@[1] is Show && r@[2] is Focus,
            old(self).window is None ==> final(self).window is None && r@.len() == 0,
    {
        if self.window.is_some() {
            self.window = Some(Visibility::Visible);
            vec![Command::Navigate(settings_url(self.dev)), Command::Show, Command::Focus]
        } else {
            Vec::new()
        }
    }

    /// A request to close the window hides it instead; the process keeps running.
    pub fn on_close_requested(&mut self) -> (r: Vec<Command>)
        ensures
            final(self).dev == old(self).dev,
            old(self).window is Some ==> final(self).window == Some(Visibility::Hidden)
                && r@ == close_commands(),
            old(self).window is None ==> final(self).window is None && r@.len() == 0,
    {
        if self.window.is_some() {
            self.window = Some(Visibility::Hidden);
            vec![Command::Hide]
        } else {
            Vec::new()
        }
    }

    /// Routes a batch of deep links: the window goes to the first one and is
    /// brought to the front; the rest, and a batch that arrives before the
    /// window exists, are dropped.
    pub fn on_deep_link(&mut self, urls: &Vec<String>) -> (r: Vec<Command>)
        ensures
            final(self).dev == old(self).dev,
            (old(self).window is Some && urls@.len() > 0) ==> final(self).window == Some(Visibility::Visible)
                && r@.len() == 3 && navigates_to(r@[0], urls@[0]@)
                && r@.subrange(1, 3) == show_commands(),
            (old(self).window is None || urls@.len() == 0) ==> final(self).window == old(self).window
                && r@.len() == 0,
    {
        if self.window.is_some() && urls.len() > 0 {
            self.window = Some(Visibility::Visible);
            let r = vec![Command::Navigate(urls[0].clone()), Command::Show, Command::Focus];
            assert(r@.subrange(1, 3) =~= show_commands());
            r
        } else {
            Vec::new()
        }
    }

    /// Forgets the configured server and takes the window to the landing view.
    pub fn clear_server(&self) -> (r: Vec<Command>)
        ensures
            r@.len() == 3,
            r@[0] is DeleteServerUrl,
            r@[1] is SaveStore,
            navigates_to(r@[2], frontend_base(self.dev) + landing_path()),
    {
        vec![Command::DeleteServerUrl, Command::SaveStore, Command::Navigate(landing_url(self.dev))]
    }

    /// Carries out a menu or tray selection. `autostart_on` is whether the
    /// shell now starts at login, which the autostart entry flips.
    pub fn on_selection(&mut self, sel: &Selection, autostart_on: bool) -> (r: Vec<Command>)
        ensures
            final(self).dev == old(self).dev,
            sel is ShowHide ==> (old(self).window matches Some(v) ==> final(self).window == Some(toggled(v))
                && r@ == toggle_commands(v)),
            sel is ShowHide ==> (old(self).window is None ==> final(self).window is None && r@.len() == 0),
            sel is Settings ==> (old(self).window is Some ==> final(self).window == Some(Visibility::Visible)
                && r@.len() == 3 && navigates_to(r@[0], frontend_base(old(self).dev) + settings_path())
                && r@[1] is Show && r@[2] is Focus),
            sel is Settings ==> (old(self).window is None ==> final(self).window is None && r@.len() == 0),
            sel is Quit ==> final(self).window == old(self).window && r@ == seq![Command::Exit],
            sel is ToggleAutostart ==> final(self).window == old(self).window
                && r@ == seq![Command::SetAutostart(!autostart_on)],
            page_script(*sel) matches Some(t) ==> final(self).window == old(self).window
                && (old(self).window is Some ==> r@.len() == 1 && runs_script(r@[0], t))
                && (old(self).window is None ==> r@.len() == 0),
            sel is Unrecognized ==> final(self).window == old(self).window && r@.len() == 0,
    {
        match sel {
            Selection::ShowHide => self.toggle(),
            Selection::Settings => self.open_settings(),
            Selection::Quit => vec![Command::Exit],
            Selection::ToggleAutostart => vec![Command::SetAutostart(!autostart_on)],
            Selection::Back => self.page_script("history.back()"),
            Selection::Forward => self.page_script("history.forward()"),
            Selection::Reload => self.page_script("location.reload()"),
            Selection::Unrecognized(_) => Vec::new(),
        }
    }

    fn page_script(&self, script: &str) -> (r: Vec<Command>)
        ensures
            self.window is Some ==> r@.len() == 1 && runs_script(r@[0], script@),
            self.window is None ==> r@.len() == 0,
    {
        if self.window.is_some() {
            vec![Command::RunScript(script.to_string())]
        } else {
            Vec::new()
        }
    }

    /// A click on the tray icon toggles the window when the left button is released.
    pub fn on_tray_click(&mut self, left_button: bool, released: bool) -> (r: Vec<Command>)
        ensures
            final(self).dev == old(self).dev,
            (left_button && released && old(self).window is Some) ==> final(self).window
                == Some(toggled(old(self).window->Some_0)) && r@ == toggle_commands(
                old(self).window->Some_0,
            ),
            !(left_button && released && old(self).window is Some) ==> final(self).window
                == old(self).window && r@.len() == 0,
    {
        if left_button && released {
            self.toggle()
        } else {
            Vec::new()
        }
    }
}

} // verus!
