//! The check that runs before the first prompt: whether the model's service
//! answers. The screen that shows it is described here as plain values; the
//! clock is read here, the terminal is not.

use crate::text::followed_by;
use std::time::{Duration, Instant};
use vstd::prelude::*;

verus! {

/// A point in time of the machine's monotonic clock. Nothing is known of it
/// but that it can be carried around.
#[verifier::external_type_specification]
#[verifier::external_body]
pub struct ExInstant(std::time::Instant);

/// `Instant::now` reads the clock. Nothing is claimed of what it returns.
pub assume_specification[ std::time::Instant::now ]() -> (r: Instant)
;

/// `Instant::elapsed` gives the time since the instant. Nothing is claimed
/// of what it returns.
pub assume_specification[ std::time::Instant::elapsed ](start: &Instant) -> (r: Duration)
;

/// `Duration::as_millis` gives a duration in whole milliseconds. Nothing is
/// claimed of what it returns.
pub assume_specification[ core::time::Duration::as_millis ](duration: &Duration) -> (r: u128)
;

/// The time between two steps of the spinner, in milliseconds.
pub const SPINNER_INTERVAL_MS: u128 = 100;

/// How long the screen stays after the check went well, in milliseconds.
pub const SUCCESS_DELAY_MS: u64 = 1000;

/// How long the screen stays after the check failed, in milliseconds.
pub const FAILURE_DELAY_MS: u64 = 2000;

/// How far the check is.
#[derive(Debug, PartialEq, Eq)]
pub enum CheckStatus {
    Pending,
    Running,
    Success,
    Failed(String),
}

pub enum CheckStatusView {
    Pending,
    Running,
    Success,
    Failed(Seq<char>),
}

impl View for CheckStatus {
    type V = CheckStatusView;

    open spec fn view(&self) -> CheckStatusView {
        match self {
            CheckStatus::Pending => CheckStatusView::Pending,
            CheckStatus::Running => CheckStatusView::Running,
            CheckStatus::Success => CheckStatusView::Success,
            CheckStatus::Failed(e) => CheckStatusView::Failed(e@),
        }
    }
}

/// The colours of the screen.
#[derive(Debug, Clone, Copy, PartialEq, Eq, Structural)]
pub enum Tone {
    Gray,
    Yellow,
    Green,
    Red,
    Blue,
}

/// One piece of the status line.
#[derive(Debug, PartialEq, Eq)]
pub struct Piece {
    pub text: String,
    pub tone: Option<Tone>,
    pub bold: bool,
}

pub struct PieceView {
    pub text: Seq<char>,
    pub tone: Option<Tone>,
    pub bold: bool,
}

impl View for Piece {
    type V = PieceView;

    open spec fn view(&self) -> PieceView {
        PieceView { text: self.text@, tone: self.tone, bold: self.bold }
    }
}

/// What the screen shows: the three pieces of the status line, the progress
/// in percent with its colour, and the line of help.
#[derive(Debug, PartialEq, Eq)]
pub struct PreflightFrame {
    pub mark: Piece,
    pub label: Piece,
    pub state: Piece,
    pub progress: u16,
    pub gauge: Tone,
    pub help: String,
}

pub struct PreflightFrameView {
    pub mark: PieceView,
    pub label: PieceView,
    pub state: PieceView,
    pub progress: u16,
    pub gauge: Tone,
    pub help: Seq<char>,
}

impl View for PreflightFrame {
    type V = PreflightFrameView;

    open spec fn view(&self) -> PreflightFrameView {
        PreflightFrameView {
            mark: self.mark@,
            label: self.label@,
            state: self.state@,
            progress: self.progress,
            gauge: self.gauge,
            help: self.help@,
        }
    }
}

/// The state of the check's screen: how far the check is, and where the
/// spinner stands.
pub struct PreflightView {
    pub status: CheckStatusView,
    pub spinner: nat,
}

/// The spinner's four faces, in the order in which they follow each other.
pub open spec fn spinner_face(spinner: nat) -> Seq<char> {
    if spinner % 4 == 0 {
        "\u{25D0}"@
    } else if spinner % 4 == 1 {
        "\u{25D3}"@
    } else if spinner % 4 == 2 {
        "\u{25D1}"@
    } else {
        "\u{25D2}"@
    }
}

/// The progress in percent: none before the check runs, all after it, and
/// while it runs the part of the current second that has passed.
pub open spec fn progress_at(status: CheckStatusView, elapsed_ms: u128) -> u16 {
    match status {
        CheckStatusView::Pending => 0,
        CheckStatusView::Running => (((elapsed_ms % 1000) * 100) / 1000) as u16,
        CheckStatusView::Success => 100,
        CheckStatusView::Failed(_) => 100,
    }
}

/// The colour that goes with a status on the status line.
pub open spec fn status_tone(status: CheckStatusView) -> Tone {
    match status {
        CheckStatusView::Pending => Tone::Gray,
        CheckStatusView::Running => Tone::Yellow,
        CheckStatusView::Success => Tone::Green,
        CheckStatusView::Failed(_) => Tone::Red,
    }
}

/// The colour of the progress bar.
pub open spec fn gauge_tone(status: CheckStatusView) -> Tone {
    match status {
        CheckStatusView::Success => Tone::Green,
        CheckStatusView::Failed(_) => Tone::Red,
        _ => Tone::Blue,
    }
}

/// The mark at the start of the status line.
pub open spec fn mark_text(s: PreflightView) -> Seq<char> {
    match s.status {
        CheckStatusView::Pending => "\u{25CF}"@,
        CheckStatusView::Running => spinner_face(s.spinner),
        CheckStatusView::Success => "\u{2713}"@,
        CheckStatusView::Failed(_) => "\u{2717}"@,
    }
}

/// What the status line says of the check.
pub open spec fn state_text(status: CheckStatusView) -> Seq<char> {
    match status {
        CheckStatusView::Pending => "Waiting..."@,
        CheckStatusView::Running => "Checking availability..."@,
        CheckStatusView::Success => "Available"@,
        CheckStatusView::Failed(e) => "Failed - "@ + e,
    }
}

/// The line of help.
pub open spec fn help_text(status: CheckStatusView) -> Seq<char> {
    match status {
        CheckStatusView::Failed(_) => "Press 'q' to quit or wait to continue..."@,
        _ => "Press 'q' to quit"@,
    }
}

/// What the screen shows when so much time has passed since it came up.
pub open spec fn frame_at(s: PreflightView, elapsed_ms: u128) -> PreflightFrameView {
    PreflightFrameView {
        mark: PieceView {
            text: mark_text(s),
            tone: Some(status_tone(s.status)),
            bold: s.status is Success || s.status is Failed,
        },
        label: PieceView { text: " Ollama Service: "@, tone: None, bold: false },
        state: PieceView {
            text: state_text(s.status),
            tone: Some(status_tone(s.status)),
            bold: s.status is Success,
        },
        progress: progress_at(s.status, elapsed_ms),
        gauge: gauge_tone(s.status),
        help: help_text(s.status),
    }
}

/// The state after so much time has passed since the spinner last moved: it
/// moves on by one face once the interval is over.
pub open spec fn ticked(s: PreflightView, since_last_ms: u128) -> PreflightView {
    if since_last_ms >= SPINNER_INTERVAL_MS {
        PreflightView { status: s.status, spinner: (s.spinner + 1) % 4 }
    } else {
        s
    }
}

/// The state after the check has ended.
pub open spec fn finished(s: PreflightView, failure: Option<Seq<char>>) -> PreflightView {
    PreflightView {
        status: match failure {
            None => CheckStatusView::Success,
            Some(e) => CheckStatusView::Failed(e),
        },
        spinner: s.spinner,
    }
}

/// What happens while the check is shown.
#[derive(Debug, PartialEq, Eq)]
pub enum CheckEvent {
    /// The check was started.
    Started,
    /// So many milliseconds have passed since the spinner last moved.
    Tick(u128),
    /// A key, and whether it is pressed.
    Key { pressed: bool, key: char },
    /// The check has ended, with what went wrong where it failed.
    Finished(Option<String>),
}

pub enum CheckEventView {
    Started,
    Tick(u128),
    Key { pressed: bool, key: char },
    Finished(Option<Seq<char>>),
}

impl View for CheckEvent {
    type V = CheckEventView;

    open spec fn view(&self) -> CheckEventView {
        match self {
            CheckEvent::Started => CheckEventView::Started,
            CheckEvent::Tick(ms) => CheckEventView::Tick(*ms),
            CheckEvent::Key { pressed, key } => CheckEventView::Key { pressed: *pressed, key: *key },
            CheckEvent::Finished(failure) => CheckEventView::Finished(
                crate::ollama::text_view(*failure),
            ),
        }
    }
}

/// What is to be done while the check is shown.
#[derive(Debug, Clone, Copy, PartialEq, Eq, Structural)]
pub enum CheckAction {
    /// Draw the screen and go on.
    Draw,
    /// The same, and count the time of the spinner from now.
    SpinnerMoved,
    /// End the program.
    Exit,
    /// Draw the screen, let it stay for so many milliseconds, and leave it.
    Leave(u64),
}

/// The state after something happened.
pub open spec fn after_event(s: PreflightView, event: CheckEventView) -> PreflightView {
    match event {
        CheckEventView::Started => PreflightView {
            status: CheckStatusView::Running,
            spinner: s.spinner,
        },
        CheckEventView::Tick(since_last_ms) => ticked(s, since_last_ms),
        CheckEventView::Key { pressed, key } => s,
        CheckEventView::Finished(failure) => finished(s, failure),
    }
}

/// What is to be done after something happened: `q`, when it is pressed,
/// ends the program; the end of the check leaves the screen after a while.
pub open spec fn action_for(event: CheckEventView) -> CheckAction {
    match event {
        CheckEventView::Started => CheckAction::Draw,
        CheckEventView::Tick(since_last_ms) => if since_last_ms >= SPINNER_INTERVAL_MS {
            CheckAction::SpinnerMoved
        } else {
            CheckAction::Draw
        },
        CheckEventView::Key { pressed, key } => if pressed && key == 'q' {
            CheckAction::Exit
        } else {
            CheckAction::Draw
        },
        CheckEventView::Finished(failure) => CheckAction::Leave(
            if failure is None {
                SUCCESS_DELAY_MS
            } else {
                FAILURE_DELAY_MS
            },
        ),
    }
}

/// The screen of the check.
pub struct PreflightUI {
    ollama_status: CheckStatus,
    spinner_state: usize,
    start_time: Instant,
}

impl View for PreflightUI {
    type V = PreflightView;

    closed spec fn view(&self) -> PreflightView {
        PreflightView { status: self.ollama_status@, spinner: self.spinner_state as nat }
    }
}

fn piece(text: String, tone: Option<Tone>, bold: bool) -> (r: Piece)
    ensures
        r@ == (PieceView { text: text@, tone, bold }),
{
    Piece { text, tone, bold }
}

impl PreflightUI {
    /// The screen before the check runs. The time counts from now.
    pub fn new() -> (r: Self)
        ensures
            r@ == (PreflightView { status: CheckStatusView::Pending, spinner: 0 }),
    {
        Self { ollama_status: CheckStatus::Pending, spinner_state: 0, start_time: Instant::now() }
    }

    /// How far the check is.
    pub fn status(&self) -> (r: &CheckStatus)
        ensures
            r@ == self@.status,
    {
        &self.ollama_status
    }

    /// Where the spinner stands.
    pub fn spinner_state(&self) -> (r: usize)
        ensures
            r == self@.spinner,
    {
        self.spinner_state
    }

    /// The check starts to run.
    pub fn begin(&mut self)
        ensures
            final(self)@ == (PreflightView {
                status: CheckStatusView::Running,
                spinner: old(self)@.spinner,
            }),
    {
        self.ollama_status = CheckStatus::Running;
    }

    /// Moves the spinner where `since_last_ms` milliseconds since its last
    /// move are enough, and says whether it moved.
    pub fn tick(&mut self, since_last_ms: u128) -> (moved: bool)
        ensures
            moved == (since_last_ms >= SPINNER_INTERVAL_MS),
            final(self)@ == ticked(old(self)@, since_last_ms),
    {
        if since_last_ms >= SPINNER_INTERVAL_MS {
            self.spinner_state = (self.spinner_state % 4 + 1) % 4;
            true
        } else {
            false
        }
    }

    /// Whether a key ends the program: `q`, when it is pressed.
    pub fn quits(pressed: bool, key: char) -> (r: bool)
        ensures
            r == (pressed && key == 'q'),
    {
        pressed && key == 'q'
    }

    /// Takes how the check ended, with what went wrong where it failed, and
    /// gives the time for which the screen is to stay, in milliseconds.
    pub fn finish(&mut self, failure: Option<String>) -> (delay_ms: u64)
        ensures
            final(self)@ == finished(old(self)@, crate::ollama::text_view(failure)),
            delay_ms == if failure is None {
                SUCCESS_DELAY_MS
            } else {
                FAILURE_DELAY_MS
            },
    {
        match failure {
            None => {
                self.ollama_status = CheckStatus::Success;
                SUCCESS_DELAY_MS
            },
            Some(e) => {
                self.ollama_status = CheckStatus::Failed(e);
                FAILURE_DELAY_MS
            },
        }
    }

    /// Takes what happened while the check is shown, and says what is to be
    /// done.
    pub fn run_checks(&mut self, event: CheckEvent) -> (r: CheckAction)
        ensures
            final(self)@ == after_event(old(self)@, event@),
            r == action_for(event@),
    {
        match event {
            CheckEvent::Started => {
                self.begin();
                CheckAction::Draw
            },
            CheckEvent::Tick(since_last_ms) => {
                if self.tick(since_last_ms) {
                    CheckAction::SpinnerMoved
                } else {
                    CheckAction::Draw
                }
            },
            CheckEvent::Key { pressed, key } => {
                if Self::quits(pressed, key) {
                    CheckAction::Exit
                } else {
                    CheckAction::Draw
                }
            },
            CheckEvent::Finished(failure) => CheckAction::Leave(self.finish(failure)),
        }
    }

    /// The progress in percent when `elapsed_ms` milliseconds have passed.
    pub fn progress(&self, elapsed_ms: u128) -> (r: u16)
        ensures
            r == progress_at(self@.status, elapsed_ms),
            r <= 100,
    {
        match &self.ollama_status {
            CheckStatus::Pending => 0,
            CheckStatus::Running => {
                let part: u128 = (elapsed_ms % 1000) * 100 / 1000;
                part as u16
            },
            CheckStatus::Success => 100,
            CheckStatus::Failed(_) => 100,
        }
    }

    /// What the screen shows when `elapsed_ms` milliseconds have passed
    /// since it came up.
    pub fn frame(&self, elapsed_ms: u128) -> (r: PreflightFrame)
        ensures
            r@ == frame_at(self@, elapsed_ms),
    {
        let tone = match &self.ollama_status {
            CheckStatus::Pending => Tone::Gray,
            CheckStatus::Running => Tone::Yellow,
            CheckStatus::Success => Tone::Green,
            CheckStatus::Failed(_) => Tone::Red,
        };
        let gauge = match &self.ollama_status {
            CheckStatus::Success => Tone::Green,
            CheckStatus::Failed(_) => Tone::Red,
            _ => Tone::Blue,
        };
        let (mark, state, help) = match &self.ollama_status {
            CheckStatus::Pending => (
                piece(String::from_str("\u{25CF}"), Some(tone), false),
                piece(String::from_str("Waiting..."), Some(tone), false),
                "Press 'q' to quit",
            ),
            CheckStatus::Running => {
                let face = if self.spinner_state % 4 == 0 {
                    "\u{25D0}"
                } else if self.spinner_state % 4 == 1 {
                    "\u{25D3}"
                } else if self.spinner_state % 4 == 2 {
                    "\u{25D1}"
                } else {
                    "\u{25D2}"
                };
                (
                    piece(String::from_str(face), Some(tone), false),
                    piece(String::from_str("Checking availability..."), Some(tone), false),
                    "Press 'q' to quit",
                )
            },
            CheckStatus::Success => (
                piece(String::from_str("\u{2713}"), Some(tone), true),
                piece(String::from_str("Available"), Some(tone), true),
                "Press 'q' to quit",
            ),
            CheckStatus::Failed(e) => (
                piece(String::from_str("\u{2717}"), Some(tone), true),
                piece(followed_by("Failed - ", e.as_str()), Some(tone), false),
                "Press 'q' to quit or wait to continue...",
            ),
        };
        PreflightFrame {
            mark,
            label: piece(String::from_str(" Ollama Service: "), None, false),
            state,
            progress: self.progress(elapsed_ms),
            gauge,
            help: String::from_str(help),
        }
    }

    /// What the screen shows now. It is `frame` at the time that the clock
    /// gives, whatever that is.
    pub fn draw(&self) -> (r: PreflightFrame)
        ensures
            exists|elapsed_ms: u128| r@ == frame_at(self@, elapsed_ms),
    {
        let elapsed_ms = self.start_time.elapsed().as_millis();
        self.frame(elapsed_ms)
    }
}

} // verus!
