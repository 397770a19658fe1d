//! The page components, one per state variant, and the router that owns
//! them: it keeps every page rebuilt on each state change and delegates
//! key handling to the current one.

use vstd::prelude::*;

use crate::keys::KeyEvent;
use crate::model::{Action, ActionV, State, StateV};

pub mod dashboard;
pub mod error;
pub mod search;
pub mod splash;

use self::dashboard::{dashboard_key_action, dashboard_rebuild, DashboardPage, DashboardPageV};
use self::error::{error_key_action, error_rebuild, ErrorPage, ErrorPageV};
use self::search::{
    search_after_key, search_init, search_rebuild, search_wf, SearchPage, SearchPageV,
};
use self::splash::{splash_key_action, SplashPage, SplashPageV};

verus! {

/// Which page is current.
#[derive(Debug, Clone, Copy, PartialEq, Eq, Structural)]
pub enum Page {
    Splash,
    Search,
    Dashboard,
    Error,
}

/// The router: one component instance per state variant, plus which one is
/// current.  Key events and rendering always go to the current page only;
/// every page is rebuilt on every state change so that background pages
/// never hold stale data.
pub struct AppRouter {
    pub current: Page,
    pub splash: SplashPage,
    pub search: SearchPage,
    pub dashboard: DashboardPage,
    pub error: ErrorPage,
}

/// Ghost image of an `AppRouter`.
#[verifier::ext_equal]
pub ghost struct AppRouterV {
    pub current: Page,
    pub splash: SplashPageV,
    pub search: SearchPageV,
    pub dashboard: DashboardPageV,
    pub error: ErrorPageV,
}

impl View for AppRouter {
    type V = AppRouterV;

    open spec fn view(&self) -> AppRouterV {
        AppRouterV {
            current: self.current,
            splash: self.splash@,
            search: self.search@,
            dashboard: self.dashboard@,
            error: self.error@,
        }
    }
}

/// A well-formed router: its search page is well-formed.
pub open spec fn router_wf(r: AppRouterV) -> bool {
    search_wf(r.search)
}

/// The fixed mapping from a state to the page that shows it: search and
/// searching states go to the search page, dashboard and error states to
/// their pages, everything else to the splash page.
pub open spec fn page_for_state(s: StateV) -> Page {
    match s {
        StateV::Search { .. } => Page::Search,
        StateV::Searching { .. } => Page::Search,
        StateV::Dashboard { .. } => Page::Dashboard,
        StateV::Error { .. } => Page::Error,
        _ => Page::Splash,
    }
}

/// What a state change does to the router: every page is rebuilt and the
/// current pointer follows the fixed mapping.
pub open spec fn router_rebuild(r: AppRouterV, s: StateV) -> AppRouterV {
    AppRouterV {
        current: page_for_state(s),
        splash: SplashPageV {  },
        search: search_rebuild(r.search, s),
        dashboard: dashboard_rebuild(s),
        error: error_rebuild(s),
    }
}

/// What one key press does to the router: it is delegated to the current
/// page alone, which may update itself and request one action.
pub open spec fn router_after_key(r: AppRouterV, key: KeyEvent) -> (AppRouterV, Option<ActionV>) {
    match r.current {
        Page::Splash => (r, splash_key_action(key)),
        Page::Search => {
            let (search, act) = search_after_key(r.search, key);
            (AppRouterV { search, ..r }, act)
        },
        Page::Dashboard => (r, dashboard_key_action(key)),
        Page::Error => (r, error_key_action(key)),
    }
}

impl AppRouter {
    /// Builds the router for the just-observed state, starting on the
    /// splash page.
    pub fn new(state: &State) -> (r: AppRouter)
        ensures
            r@.current == Page::Splash,
            r@.search == search_init(state@),
            r@.dashboard == dashboard::dashboard_empty(),
            r@.error == error_rebuild(state@),
            router_wf(r@),
    {
        AppRouter {
            current: Page::Splash,
            splash: SplashPage::new(state),
            search: SearchPage::new(state),
            dashboard: DashboardPage::new(state),
            error: ErrorPage::new(state),
        }
    }

    /// The current page's name.
    pub fn name(&self) -> (r: &'static str)
        ensures
            r@ == match self@.current {
                Page::Splash => "Splash"@,
                Page::Search => "Search"@,
                Page::Dashboard => "Dashboard"@,
                Page::Error => "Error"@,
            },
    {
        match self.current {
            Page::Splash => self.splash.name(),
            Page::Search => self.search.name(),
            Page::Dashboard => self.dashboard.name(),
            Page::Error => self.error.name(),
        }
    }

    /// Rebuilds every page for the new state and moves the current
    /// pointer.
    pub fn move_with_state(self, state: &State) -> (r: AppRouter)
        requires
            self@.search.input_box.wf(),
        ensures
            r@ == router_rebuild(self@, state@),
            router_wf(r@),
    {
        AppRouter {
            current: match state {
                State::Search(_) => Page::Search,
                State::Searching(_) => Page::Search,
                State::Dashboard(_) => Page::Dashboard,
                State::Error(_) => Page::Error,
                _ => Page::Splash,
            },
            splash: self.splash.move_with_state(state),
            search: self.search.move_with_state(state),
            dashboard: self.dashboard.move_with_state(state),
            error: self.error.move_with_state(state),
        }
    }

    /// Delegates one key press to the current page.
    pub fn handle_key_event(&mut self, key: KeyEvent) -> (r: Option<Action>)
        requires
            router_wf(old(self)@),
        ensures
            final(self)@ == router_after_key(old(self)@, key).0,
            r.deep_view() == router_after_key(old(self)@, key).1,
            router_wf(final(self)@),
    {
        match self.current {
            Page::Splash => self.splash.handle_key_event(key),
            Page::Search => self.search.handle_key_event(key),
            Page::Dashboard => self.dashboard.handle_key_event(key),
            Page::Error => self.error.handle_key_event(key),
        }
    }
}

} // verus!
