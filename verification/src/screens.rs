//! The host's screen flow. The landing screen is the entry point; it hands
//! off to one of the two applications. Drawing belongs to the host; the
//! hand-off decision is here.
use vstd::prelude::*;

verus! {

/// What the operator picked on the landing screen.
#[derive(Debug, Clone, Copy, PartialEq, Eq, Structural)]
pub enum AppChoice {
    /// Watch the live telemetry feed.
    LiveView,
    /// Review a recorded session.
    PostAnalysis,
}

/// The application a screen hands off to.
#[derive(Debug, Clone, Copy, PartialEq, Eq, Structural)]
pub enum AppScreen {
    /// The live view application.
    Live,
    /// The post-analysis application.
    Analysis,
}

/// The landing screen: welcomes the operator and opens the application
/// they pick.
pub struct Landing {}

impl Landing {
    /// The landing screen's window title.
    pub fn title(&self) -> (t: &'static str)
        ensures
            t@ == "Welcome"@,
    {
        "Welcome"
    }

    /// Opens the picked application; with nothing picked, stays put.
    pub fn pick(&self, selection: Option<AppChoice>) -> (next: Option<AppScreen>)
        ensures
            match selection {
                None => next is None,
                Some(AppChoice::LiveView) => next == Some(AppScreen::Live),
                Some(AppChoice::PostAnalysis) => next == Some(AppScreen::Analysis),
            },
    {
        match selection {
            None => None,
            Some(AppChoice::LiveView) => Some(AppScreen::Live),
            Some(AppChoice::PostAnalysis) => Some(AppScreen::Analysis),
        }
    }
}

} // verus!
