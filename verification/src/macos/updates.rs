//! Updates of the application.

use crate::text;
use crate::text_map::Duplicate;
use vstd::prelude::*;

verus! {

/// What is known of updates.
#[derive(Debug, PartialEq, Eq)]
pub struct State {
    pub enabled: bool,
    pub available: bool,
    pub can_check: bool,
    pub checks: bool,
    pub downloads: bool,
    pub message: String,
}

/// The contents of a [`State`].
#[verifier::ext_equal]
pub struct StateView {
    pub enabled: bool,
    pub available: bool,
    pub can_check: bool,
    pub checks: bool,
    pub downloads: bool,
    pub message: Seq<char>,
}

impl View for State {
    type V = StateView;

    open spec fn view(&self) -> StateView {
        StateView {
            enabled: self.enabled,
            available: self.available,
            can_check: self.can_check,
            checks: self.checks,
            downloads: self.downloads,
            message: self.message@,
        }
    }
}

impl DeepView for State {
    type V = StateView;

    open spec fn deep_view(&self) -> StateView {
        self@
    }
}

impl Clone for State {
    fn clone(&self) -> (r: Self)
        ensures
            r@ == self@,
    {
        State {
            enabled: self.enabled,
            available: self.available,
            can_check: self.can_check,
            checks: self.checks,
            downloads: self.downloads,
            message: self.message.clone(),
        }
    }
}

impl Duplicate for State {
    fn duplicate(&self) -> (r: State) {
        self.clone()
    }
}

impl Default for State {
    fn default() -> (r: Self)
        ensures
            r@ == StateView::unknown(Seq::empty()),
    {
        State {
            enabled: false,
            available: false,
            can_check: false,
            checks: false,
            downloads: false,
            message: String::new(),
        }
    }
}

impl StateView {
    /// Updates are disabled, for a reason.
    pub open spec fn unknown(message: Seq<char>) -> StateView {
        StateView {
            enabled: false,
            available: false,
            can_check: false,
            checks: false,
            downloads: false,
            message,
        }
    }

    /// The title of the menu item for updates.
    pub open spec fn title(self) -> Seq<char> {
        if self.available {
            "Update available…"@
        } else {
            "Check for updates…"@
        }
    }
}

impl State {
    /// The title of the menu item for updates.
    pub fn menu_title(&self) -> (r: &'static str)
        ensures
            r@ == self@.title(),
    {
        if self.available {
            "Update available…"
        } else {
            "Check for updates…"
        }
    }
}

/// A setting of updates that the user switches.
#[derive(Clone, Copy, Debug, PartialEq, Eq, Structural)]
pub enum Edit {
    Checks,
    Downloads,
}

/// What the updater has reported.
#[derive(Debug)]
pub struct Delegate {
    pub available: bool,
    pub on_quit: bool,
    pub terminating: bool,
    pub message: String,
}

/// The contents of a [`Delegate`].
#[verifier::ext_equal]
pub struct DelegateView {
    pub available: bool,
    pub on_quit: bool,
    pub terminating: bool,
    pub message: Seq<char>,
}

impl View for Delegate {
    type V = DelegateView;

    open spec fn view(&self) -> DelegateView {
        DelegateView {
            available: self.available,
            on_quit: self.on_quit,
            terminating: self.terminating,
            message: self.message@,
        }
    }
}

impl DeepView for Delegate {
    type V = DelegateView;

    open spec fn deep_view(&self) -> DelegateView {
        self@
    }
}

/// The error domain of the updater.
pub const ERROR_DOMAIN: &'static str = "SUSparkleErrorDomain";

/// There is no update.
pub const NO_UPDATE: i64 = 1001;

/// The user cancelled.
pub const CANCELLED: i64 = 4007;

/// The user skips an update.
pub const SKIP: i64 = 0;

impl DelegateView {
    /// Nothing was reported.
    pub open spec fn silent() -> DelegateView {
        DelegateView { available: false, on_quit: false, terminating: false, message: Seq::empty() }
    }

    /// An update is about to be shown.
    pub open spec fn shown(self) -> DelegateView {
        DelegateView { available: true, ..self }
    }

    /// The user has chosen. Only a skipped update is gone.
    pub open spec fn chosen(self, choice: i64) -> DelegateView {
        if choice == SKIP {
            DelegateView { available: false, on_quit: false, message: Seq::empty(), ..self }
        } else {
            self
        }
    }

    /// An update was found.
    pub open spec fn with_update(self) -> DelegateView {
        DelegateView { available: true, message: "An update is available."@, ..self }
    }

    /// An update was downloaded and waits for the application to quit.
    pub open spec fn with_download(self) -> DelegateView {
        DelegateView {
            available: true,
            on_quit: true,
            message: "Update downloaded. It will install when Gopher quits."@,
            ..self
        }
    }

    /// A check is over. An error, or that there is no update, withdraws what was reported.
    pub open spec fn after_check(self, error: Option<(Seq<char>, i64)>) -> DelegateView {
        match error {
            None => self,
            Some((domain, code)) => DelegateView {
                available: false,
                on_quit: false,
                message: if domain == ERROR_DOMAIN@ && code == NO_UPDATE {
                    "Gopher is up to date."@
                } else if domain == ERROR_DOMAIN@ && code == CANCELLED {
                    Seq::empty()
                } else {
                    "Could not complete the update. Try Check for updates again."@
                },
                ..self
            },
        }
    }
}

/// The contents of an error.
pub open spec fn error_view(error: Option<(&str, i64)>) -> Option<(Seq<char>, i64)> {
    match error {
        Some((domain, code)) => Some((domain@, code)),
        None => None,
    }
}

impl Delegate {
    /// Nothing was reported.
    pub fn new() -> (r: Self)
        ensures
            r@ == DelegateView::silent(),
    {
        Delegate { available: false, on_quit: false, terminating: false, message: String::new() }
    }

    /// The system asks the application to end. The result says whether that is the first
    /// time, so that the shutdown begins once.
    pub fn should_terminate(&mut self) -> (r: bool)
        ensures
            r == !old(self)@.terminating,
            final(self)@ == (DelegateView { terminating: true, ..old(self)@ }),
    {
        let first = !self.terminating;
        self.terminating = true;
        first
    }

    /// An update is about to be shown.
    pub fn showing(&mut self)
        ensures
            final(self)@ == old(self)@.shown(),
    {
        self.available = true;
    }

    /// The user has chosen.
    pub fn choice(&mut self, choice: i64)
        ensures
            final(self)@ == old(self)@.chosen(choice),
    {
        if choice == SKIP {
            self.on_quit = false;
            self.available = false;
            self.message = String::new();
        }
    }

    /// An update was found.
    pub fn found(&mut self)
        ensures
            final(self)@ == old(self)@.with_update(),
    {
        self.available = true;
        self.message = "An update is available.".to_owned();
    }

    /// An update was downloaded and waits for the application to quit. The result says
    /// whether it is to be installed at once, which it never is.
    pub fn ready_on_quit(&mut self) -> (r: bool)
        ensures
            !r,
            final(self)@ == old(self)@.with_download(),
    {
        self.on_quit = true;
        self.available = true;
        self.message = "Update downloaded. It will install when Gopher quits.".to_owned();
        false
    }

    /// A check is over, with an error's domain and code where there was one.
    pub fn finished(&mut self, error: Option<(&str, i64)>)
        ensures
            final(self)@ == old(self)@.after_check(error_view(error)),
    {
        if let Some((domain, code)) = error {
            let own = text::same(domain, ERROR_DOMAIN);
            self.message = if own && code == NO_UPDATE {
                "Gopher is up to date.".to_owned()
            } else if own && code == CANCELLED {
                String::new()
            } else {
                "Could not complete the update. Try Check for updates again.".to_owned()
            };
            self.available = false;
            self.on_quit = false;
        }
    }
}

/// The updater: what it has reported, whether it runs, and why it does not.
#[derive(Debug)]
pub struct Updater {
    pub delegate: Delegate,
    pub running: bool,
    pub disabled_reason: String,
}

/// The contents of an [`Updater`].
#[verifier::ext_equal]
pub struct UpdaterView {
    pub delegate: DelegateView,
    pub running: bool,
    pub disabled_reason: Seq<char>,
}

impl View for Updater {
    type V = UpdaterView;

    open spec fn view(&self) -> UpdaterView {
        UpdaterView {
            delegate: self.delegate@,
            running: self.running,
            disabled_reason: self.disabled_reason@,
        }
    }
}

impl DeepView for Updater {
    type V = UpdaterView;

    open spec fn deep_view(&self) -> UpdaterView {
        self@
    }
}

impl UpdaterView {
    /// What is known of updates, where the updater says what it can do and does.
    pub open spec fn known(self, can_check: bool, checks: bool, downloads: bool) -> StateView {
        if self.running {
            StateView {
                enabled: true,
                available: self.delegate.available,
                can_check,
                checks,
                downloads,
                message: self.delegate.message,
            }
        } else {
            StateView::unknown(self.disabled_reason)
        }
    }
}

impl Updater {
    /// An updater of a build that has updates or not, and that could be started or not.
    pub fn new(enabled: bool, started: bool) -> (r: Self)
        ensures
            r@ == (UpdaterView {
                delegate: DelegateView::silent(),
                running: enabled && started,
                disabled_reason: if enabled && !started {
                    "Updates could not start. Reinstall Gopher using the installer."@
                } else {
                    "Updates are disabled in development builds."@
                },
            }),
    {
        Updater {
            delegate: Delegate::new(),
            running: enabled && started,
            disabled_reason: if enabled && !started {
                "Updates could not start. Reinstall Gopher using the installer.".to_owned()
            } else {
                "Updates are disabled in development builds.".to_owned()
            },
        }
    }

    /// What is known of updates.
    pub fn state(&self, can_check: bool, checks: bool, downloads: bool) -> (r: State)
        ensures
            r@ == self@.known(can_check, checks, downloads),
    {
        if !self.running {
            return State { message: self.disabled_reason.clone(), ..Default::default() };
        }
        State {
            enabled: true,
            available: self.delegate.available,
            can_check,
            checks,
            downloads,
            message: self.delegate.message.clone(),
        }
    }

    /// Whether a check that the user wants is made.
    pub fn check(&self, can_check: bool) -> (r: bool)
        ensures
            r == (self@.running && can_check),
    {
        self.running && can_check
    }

    /// What a setting becomes that the user switches, where the updater runs.
    pub fn edit(&self, edit: Edit, checks: bool, downloads: bool) -> (r: Option<bool>)
        ensures
            r == (if !self@.running {
                None
            } else {
                match edit {
                    Edit::Checks => Some(!checks),
                    Edit::Downloads => Some(!downloads),
                }
            }),
    {
        if !self.running {
            return None;
        }
        match edit {
            Edit::Checks => Some(!checks),
            Edit::Downloads => Some(!downloads),
        }
    }
}

// ---------------------------------------------------------------- laws

/// An update that was found stays available, whatever is shown or chosen, until it is
/// skipped or a check fails or finds none.
pub proof fn updates_stay_available(delegate: DelegateView, choice: i64)
    requires
        delegate.available,
        choice != SKIP,
    ensures
        delegate.shown().available,
        delegate.chosen(choice).available,
        delegate.with_update().available,
        delegate.with_download().available,
        delegate.after_check(None).available,
{
}

} // verus!
