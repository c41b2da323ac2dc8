//! The controller behind the window: the settings, the Idle/Running state
//! and the single toggle that starts and stops the timing loop.
//!
//! The controller starts no thread and holds no channel. Each message is
//! answered by a [`Command`] that tells the caller what to do: launch a loop
//! with the settings captured, cancel the loop that runs, or nothing.

use crate::params::{Parameters, Setting};
use crate::text::{rest_label, rest_label_text, work_label, work_label_text};
use crate::timer::{Observation, Tick, TimerLoop};
use vstd::prelude::*;

verus! {

/// Whether a timing loop is alive.
#[derive(Clone, Copy, Debug, PartialEq, Eq, Structural)]
pub enum RunState {
    /// A timing loop is alive, and only one.
    Running,
    /// No timing loop is alive.
    Idle,
}

/// What the user did.
#[derive(Clone, Copy, Debug, PartialEq, Eq, Structural)]
pub enum Message {
    /// A slider was moved: one setting has a new value.
    ParameterChanged(Setting, u8),
    /// A modal view was asked for.
    ShowModal,
    /// The start/stop button was pressed.
    ToggleRunState,
}

/// What the caller has to do in answer to a message.
#[derive(Clone, Copy, Debug, PartialEq, Eq, Structural)]
pub enum Command {
    /// Nothing.
    Nothing,
    /// Move the keyboard focus to the next widget.
    FocusNext,
    /// Start a timing loop with these settings and a cancellation source
    /// of its own.
    Launch(Parameters),
    /// Send the stop request to the loop that runs.
    Cancel,
}

/// The controller.
#[derive(Clone, Copy, Debug, PartialEq, Eq, Structural)]
pub struct Engine {
    /// The settings as the user left them.
    pub params: Parameters,
    /// Whether a modal view is shown.
    pub show_modal: bool,
    /// Whether a timing loop is alive.
    pub state: RunState,
}

/// Text on the button while no loop is alive.
pub open spec fn start_text() -> Seq<char> {
    "Start"@
}

/// Text on the button while a loop is alive.
pub open spec fn stop_text() -> Seq<char> {
    "Stop"@
}

impl Engine {
    /// A fresh controller: idle, default settings, no modal view.
    pub open spec fn initial() -> Engine {
        Engine {
            params: Parameters {
                work_minutes: crate::params::DEFAULT_WORK_MINUTES,
                rest_seconds: crate::params::DEFAULT_REST_SECONDS,
            },
            show_modal: false,
            state: RunState::Idle,
        }
    }

    /// The controller after the button was pressed: the other run state,
    /// all else unchanged.
    pub open spec fn toggled(self) -> Engine {
        match self.state {
            RunState::Idle => Engine { state: RunState::Running, ..self },
            RunState::Running => Engine { state: RunState::Idle, ..self },
        }
    }

    /// What a press of the button asks for: to launch a loop with the
    /// current settings when idle, to cancel the loop when running.
    pub open spec fn toggle_command(self) -> Command {
        match self.state {
            RunState::Idle => Command::Launch(self.params),
            RunState::Running => Command::Cancel,
        }
    }

    /// The controller after `message`.
    pub open spec fn after(self, message: Message) -> Engine {
        match message {
            Message::ParameterChanged(which, value) => Engine {
                params: self.params.with_spec(which, value),
                ..self
            },
            Message::ShowModal => Engine { show_modal: true, ..self },
            Message::ToggleRunState => self.toggled(),
        }
    }

    /// What `message` asks the caller to do.
    pub open spec fn command(self, message: Message) -> Command {
        match message {
            Message::ParameterChanged(_, _) => Command::Nothing,
            Message::ShowModal => Command::FocusNext,
            Message::ToggleRunState => self.toggle_command(),
        }
    }

    /// The controller after a run of messages, first to last.
    pub open spec fn after_all(self, messages: Seq<Message>) -> Engine
        decreases messages.len(),
    {
        if messages.len() == 0 {
            self
        } else {
            self.after(messages[0]).after_all(messages.skip(1))
        }
    }

    /// Loops launched less loops cancelled over a run of messages.
    pub open spec fn loops_started(self, messages: Seq<Message>) -> int
        decreases messages.len(),
    {
        if messages.len() == 0 {
            0
        } else {
            let change: int = match self.command(messages[0]) {
                Command::Launch(_) => 1,
                Command::Cancel => -1,
                _ => 0,
            };
            change + self.after(messages[0]).loops_started(messages.skip(1))
        }
    }

    /// Loops alive in a run state.
    pub open spec fn loops_alive(self) -> int {
        match self.state {
            RunState::Running => 1,
            RunState::Idle => 0,
        }
    }

    /// Text of the start/stop button.
    pub open spec fn button_text(self) -> Seq<char> {
        match self.state {
            RunState::Running => stop_text(),
            RunState::Idle => start_text(),
        }
    }

    /// A fresh controller: idle, twenty minutes of work, twenty seconds of
    /// rest, no modal view.
    pub fn new() -> (engine: Engine)
        ensures
            engine == Engine::initial(),
    {
        Engine { params: Parameters::default(), show_modal: false, state: RunState::Idle }
    }

    /// Presses the button. An idle controller turns to running and asks for
    /// a loop with the settings as they are now; a running one turns to idle
    /// and asks for the loop to be cancelled. The settings stay as they are.
    pub fn toggle(&mut self) -> (command: Command)
        ensures
            *final(self) == old(self).toggled(),
            command == old(self).toggle_command(),
    {
        match self.state {
            RunState::Idle => {
                self.state = RunState::Running;
                Command::Launch(self.params)
            },
            RunState::Running => {
                self.state = RunState::Idle;
                Command::Cancel
            },
        }
    }

    /// Takes in one message. A moved slider stores the value as given and
    /// leaves the run state alone; a request for the modal view sets its
    /// flag and asks for the focus to move on; a press of the button
    /// toggles.
    pub fn update(&mut self, message: Message) -> (command: Command)
        ensures
            *final(self) == old(self).after(message),
            command == old(self).command(message),
    {
        match message {
            Message::ParameterChanged(which, value) => {
                self.params = self.params.with(which, value);
                Command::Nothing
            },
            Message::ShowModal => {
                self.show_modal = true;
                Command::FocusNext
            },
            Message::ToggleRunState => self.toggle(),
        }
    }

    /// Whether a timing loop is alive.
    pub fn state(&self) -> (state: RunState)
        ensures
            state == self.state,
    {
        self.state
    }

    /// The settings as the user left them.
    pub fn parameters(&self) -> (params: Parameters)
        ensures
            params == self.params,
    {
        self.params
    }

    /// Text of the button: "Stop" while a loop is alive, "Start" otherwise.
    pub fn button_label(&self) -> (label: &'static str)
        ensures
            label@ == self.button_text(),
    {
        match self.state {
            RunState::Running => "Stop",
            RunState::Idle => "Start",
        }
    }

    /// Label of the rest slider, with the seconds as the user left them.
    pub fn rest_label(&self) -> (label: String)
        ensures
            label@ == rest_label_text(self.params.rest_seconds as nat),
    {
        rest_label(self.params.rest_seconds)
    }

    /// Label of the work slider, with the minutes as the user left them.
    pub fn work_label(&self) -> (label: String)
        ensures
            label@ == work_label_text(self.params.work_minutes as nat),
    {
        work_label(self.params.work_minutes)
    }
}

impl Default for Engine {
    /// The fresh controller.
    fn default() -> (engine: Engine)
        ensures
            engine == Engine::initial(),
    {
        Engine::new()
    }
}

/// Two presses of the button on an idle controller bring it back to where
/// it was: the first asks for a loop with the settings of that moment, the
/// second for that loop to be cancelled, and the controller is idle again
/// with nothing else changed.
pub proof fn toggle_twice_returns_to_idle(engine: Engine)
    requires
        engine.state is Idle,
    ensures
        engine.toggled().state is Running,
        engine.toggle_command() == Command::Launch(engine.params),
        engine.toggled().toggle_command() == Command::Cancel,
        engine.toggled().toggled() == engine,
{
}

/// The loop that the first of two presses launched is gone after the
/// second: whatever it has observed undisturbed until the stop request
/// reaches it, the observation that finds the request ends it, and no
/// observation after that makes it ask for a notice.
pub proof fn toggle_pair_leaves_no_loop(
    engine: Engine,
    now_ms: u64,
    before: Seq<Observation>,
    stop: Tick,
    live: Parameters,
    later: Seq<Observation>,
)
    requires
        engine.state is Idle,
        stop.signal.cancels(),
    ensures
        engine.toggled().toggled().state is Idle,
        engine.toggle_command() matches Command::Launch(captured) && ({
            let ended = TimerLoop::initial(now_ms, captured).run(before).next(stop, live);
            &&& ended.stage is Stopped
            &&& TimerLoop::initial(now_ms, captured).run(before).action(stop, live) is Exit
            &&& ended.run(later) == ended
            &&& ended.notices(later) == 0
        }),
{
    let ended = TimerLoop::initial(now_ms, engine.params).run(before).next(stop, live);
    crate::timer::stopped_is_final(ended, later);
}

/// At most one loop is alive at any time: over any run of messages the
/// loops launched exceed the loops cancelled by one while the controller is
/// running and by none while it is idle.
pub proof fn at_most_one_loop(engine: Engine, messages: Seq<Message>)
    ensures
        engine.loops_alive() + engine.loops_started(messages) == engine.after_all(
            messages,
        ).loops_alive(),
        0 <= engine.after_all(messages).loops_alive() <= 1,
    decreases messages.len(),
{
    if messages.len() > 0 {
        at_most_one_loop(engine.after(messages[0]), messages.skip(1));
    }
}

/// Moving a slider neither starts nor stops anything: the run state and
/// the other setting stay, and the next launch captures the new value.
pub proof fn slider_leaves_run_state(engine: Engine, which: Setting, value: u8)
    ensures
        engine.after(Message::ParameterChanged(which, value)).state == engine.state,
        engine.command(Message::ParameterChanged(which, value)) == Command::Nothing,
        engine.state is Idle ==> engine.after(Message::ParameterChanged(which, value)).command(
            Message::ToggleRunState,
        ) == Command::Launch(engine.params.with_spec(which, value)),
{
}

} // verus!
