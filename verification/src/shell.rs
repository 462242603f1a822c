//! The application shell as a state machine: one state — the currently
//! displayed password — and a step function from UI events to the effects
//! the window must perform. The surrounding application owns the widgets
//! and the clipboard; it feeds events in and carries the actions out.

use vstd::prelude::*;
use vstd::pervasive::unreached;

use crate::config::{app_config, satisfies, spec_app_config};
use crate::generator::generate_password;
use crate::text::{
    about_text, about_text_str, about_title, about_title_str, copy_confirmation,
    copy_confirmation_message, copy_dialog_title, copy_dialog_title_str,
};

verus! {

/// A UI event the shell reacts to.
#[derive(Clone, Copy, PartialEq, Eq, Structural, Debug)]
pub enum AppEvent {
    /// The copy button was clicked.
    CopyClicked,
    /// The generate button was clicked.
    GenerateClicked,
    /// The About button was clicked.
    AboutClicked,
    /// The window close button was used.
    CloseRequested,
}

/// An effect the window must perform after a step.
#[derive(Debug)]
pub enum AppAction {
    /// Replace the contents of the password field.
    SetField { text: String },
    /// Write `text` to the system clipboard, verify the round trip, and
    /// show a modal dialog with the given title and message.
    CopyAndConfirm { text: String, title: String, message: String },
    /// Show a modal dialog.
    ShowDialog { title: String, text: String },
    /// Leave the event loop and end the process.
    Quit,
}

/// The application state: the password currently shown in the text field.
/// Its invariant — the text is always a valid password for the shell's
/// fixed configuration — holds from construction on.
pub struct AppState {
    displayed: String,
}

impl View for AppState {
    type V = Seq<char>;

    closed spec fn view(&self) -> Seq<char> {
        self.displayed@
    }
}

impl AppState {
    /// The displayed text is a valid password for the shell's fixed
    /// configuration.
    pub open spec fn wf(self) -> bool {
        satisfies(spec_app_config(), self@)
    }

    /// Starts the shell with a freshly generated password on display.
    pub fn new() -> (s: Self)
        ensures
            s.wf(),
    {
        let cfg = app_config();
        match generate_password(&cfg) {
            Ok(p) => AppState { displayed: p },
            Err(_) => unreached(),
        }
    }

    /// The password currently on display.
    pub fn displayed_text(&self) -> (r: &String)
        ensures
            r@ == self@,
    {
        &self.displayed
    }

    /// One step of the event loop: reacts to a UI event and returns the
    /// effect the window must perform. Generating replaces the displayed
    /// password with a fresh valid one; the other events leave it as it is.
    pub fn handle_event(&mut self, event: AppEvent) -> (action: AppAction)
        requires
            old(self).wf(),
        ensures
            final(self).wf(),
            match event {
                AppEvent::GenerateClicked => action matches AppAction::SetField { text }
                    && text@ == final(self)@,
                AppEvent::CopyClicked => final(self)@ == old(self)@ && (action matches
                    AppAction::CopyAndConfirm { text, title, message }
                    && text@ == old(self)@
                    && title@ == copy_dialog_title()
                    && message@ == copy_confirmation(old(self)@)),
                AppEvent::AboutClicked => final(self)@ == old(self)@ && (action matches
                    AppAction::ShowDialog { title, text }
                    && title@ == about_title()
                    && text@ == about_text()),
                AppEvent::CloseRequested => final(self)@ == old(self)@
                    && action matches AppAction::Quit,
            },
    {
        match event {
            AppEvent::GenerateClicked => {
                let cfg = app_config();
                match generate_password(&cfg) {
                    Ok(p) => {
                        let text = p.clone();
                        self.displayed = p;
                        AppAction::SetField { text }
                    },
                    Err(_) => unreached(),
                }
            },
            AppEvent::CopyClicked => {
                let text = self.displayed.clone();
                let message = copy_confirmation_message(self.displayed.as_str());
                AppAction::CopyAndConfirm {
                    text,
                    title: copy_dialog_title_str().to_owned(),
                    message,
                }
            },
            AppEvent::AboutClicked => {
                AppAction::ShowDialog {
                    title: about_title_str().to_owned(),
                    text: about_text_str().to_owned(),
                }
            },
            AppEvent::CloseRequested => AppAction::Quit,
        }
    }
}

/// The defensive self-check after a copy: the clipboard read-back equals
/// the text that was written, exactly when this returns true.
pub fn clipboard_roundtrip_ok(written: &String, read_back: &Option<String>) -> (r: bool)
    ensures
        r <==> (read_back matches Some(t) && t@ == written@),
{
    match read_back {
        Some(t) => t.eq(written),
        None => false,
    }
}

} // verus!
