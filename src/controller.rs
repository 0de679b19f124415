//! The menu controller: it owns the highlight and the idle timer, decides
//! when the renderer is started and stopped, and says what to send to it.
//! The caller performs the commands it returns, in order.

use vstd::prelude::*;

use crate::protocol::{
    highlight_line, highlight_text, quit_line, quit_text, renderer_args, renderer_args_spec,
};
use vstd::arithmetic::div_mod::{lemma_mod_add_multiples_vanish, lemma_mod_self_0, lemma_small_mod};

verus! {

/// An application event, from the input listener to the controller.
#[derive(Debug, Clone, Copy, PartialEq, Eq, Structural)]
pub enum EventType {
    MenuUp,
    MenuDown,
    Scroll(i32),
}

/// What one wait on the event channel produced.
#[derive(Debug, Clone, Copy, PartialEq, Eq, Structural)]
pub enum Received {
    Event(EventType),
    /// No event within the wait.
    Timeout,
    /// The listener is gone.
    Disconnected,
}

/// A step for the caller to perform.
#[derive(Debug)]
pub enum Command {
    /// Start the renderer with these arguments and its standard input piped.
    SpawnRenderer(Vec<String>),
    /// Write this line to the renderer's standard input and flush it.
    Send(String),
    /// Launch the shortcut item at this index.
    Launch(usize),
    /// Wait until the renderer has exited.
    WaitRenderer,
    /// Stop the whole process: the input listener is gone.
    Terminate,
}

/// A command as a value of specification.
pub enum CommandSpec {
    SpawnRenderer(Seq<Seq<char>>),
    Send(Seq<char>),
    Launch(nat),
    WaitRenderer,
    Terminate,
}

impl View for Command {
    type V = CommandSpec;

    open spec fn view(&self) -> CommandSpec {
        match self {
            Command::SpawnRenderer(args) => CommandSpec::SpawnRenderer(
                args@.map_values(|a: String| a@),
            ),
            Command::Send(line) => CommandSpec::Send(line@),
            Command::Launch(idx) => CommandSpec::Launch(*idx as nat),
            Command::WaitRenderer => CommandSpec::WaitRenderer,
            Command::Terminate => CommandSpec::Terminate,
        }
    }
}

/// A running menu: the highlighted segment, and when the last event that
/// moved it came.
#[derive(Debug, Clone, Copy, PartialEq, Eq, Structural)]
pub struct Session {
    pub highlight: usize,
    pub idle_since: u64,
}

/// The controller. Idle when it holds no session; while a session is held
/// the renderer runs.
#[derive(Debug)]
pub struct GuiState {
    session: Option<Session>,
}

impl View for GuiState {
    type V = Option<Session>;

    closed spec fn view(&self) -> Option<Session> {
        self.session
    }
}

/// The segment after `idx`, going round.
pub open spec fn next_index(idx: int, segments: int) -> int {
    (idx + 1) % segments
}

/// The segment before `idx`, going round.
pub open spec fn prev_index(idx: int, segments: int) -> int {
    (idx + segments - 1) % segments
}

/// A highlight, if any, names one of the segments.
pub open spec fn valid_state(s: Option<Session>, segments: nat) -> bool {
    match s {
        Some(x) => x.highlight < segments,
        None => true,
    }
}

/// Whether `e` starts a menu when none is shown.
pub open spec fn opens_menu(e: EventType) -> bool {
    match e {
        EventType::Scroll(d) => d != 0,
        _ => true,
    }
}

/// The highlight a new menu opens with: the last segment for "up" or a
/// backward scroll, the first for "down" or a forward scroll.
pub open spec fn initial_highlight(e: EventType, segments: nat) -> nat {
    match e {
        EventType::MenuUp => (segments - 1) as nat,
        EventType::MenuDown => 0,
        EventType::Scroll(d) => if d < 0 {
            (segments - 1) as nat
        } else {
            0
        },
    }
}

/// The session after event `e` at time `now`.
pub open spec fn after_event(s: Option<Session>, e: EventType, segments: nat, now: u64) -> Option<
    Session,
> {
    match s {
        None => if opens_menu(e) {
            Some(Session { highlight: initial_highlight(e, segments) as usize, idle_since: now })
        } else {
            None
        },
        Some(x) => match e {
            EventType::MenuUp => Some(
                Session {
                    highlight: next_index(x.highlight as int, segments as int) as usize,
                    idle_since: now,
                },
            ),
            EventType::MenuDown => Some(
                Session {
                    highlight: prev_index(x.highlight as int, segments as int) as usize,
                    idle_since: now,
                },
            ),
            EventType::Scroll(d) => if d > 0 {
                Some(
                    Session {
                        highlight: next_index(x.highlight as int, segments as int) as usize,
                        idle_since: now,
                    },
                )
            } else if d < 0 {
                Some(
                    Session {
                        highlight: prev_index(x.highlight as int, segments as int) as usize,
                        idle_since: now,
                    },
                )
            } else {
                Some(x)
            },
        },
    }
}

/// The commands for event `e`: start the renderer when the menu opens,
/// then send the highlight whenever one is set.
pub open spec fn event_commands(
    s: Option<Session>,
    e: EventType,
    segments: nat,
    icons: Seq<Option<String>>,
    now: u64,
) -> Seq<CommandSpec> {
    let spawn = if s is None && opens_menu(e) {
        seq![CommandSpec::SpawnRenderer(renderer_args_spec(segments, icons))]
    } else {
        Seq::empty()
    };
    match after_event(s, e, segments, now) {
        Some(x) => spawn.push(CommandSpec::Send(highlight_text(x.highlight as nat))),
        None => spawn,
    }
}

/// Whether the session has seen no moving event for longer than `timeout`.
pub open spec fn expired(x: Session, now: u64, timeout: u64) -> bool {
    now as int - x.idle_since as int > timeout as int
}

/// The session after a wait that brought no event.
pub open spec fn after_timeout(s: Option<Session>, now: u64, timeout: u64) -> Option<Session> {
    match s {
        Some(x) => if expired(x, now, timeout) {
            None
        } else {
            s
        },
        None => None,
    }
}

/// The commands after a wait that brought no event: on expiry, stop the
/// renderer, launch the highlighted item and wait for the renderer to exit.
pub open spec fn timeout_commands(s: Option<Session>, now: u64, timeout: u64) -> Seq<CommandSpec> {
    match s {
        Some(x) => if expired(x, now, timeout) {
            seq![
                CommandSpec::Send(quit_text()),
                CommandSpec::Launch(x.highlight as nat),
                CommandSpec::WaitRenderer,
            ]
        } else {
            Seq::empty()
        },
        None => Seq::empty(),
    }
}

/// The views of a list of commands.
pub open spec fn views(cmds: Seq<Command>) -> Seq<CommandSpec> {
    cmds.map_values(|c: Command| c@)
}

proof fn lemma_next_closed(idx: int, segments: int)
    requires
        0 <= idx < segments,
    ensures
        next_index(idx, segments) == if idx + 1 == segments {
            0
        } else {
            idx + 1
        },
{
    if idx + 1 == segments {
        lemma_mod_self_0(segments);
    } else {
        lemma_small_mod((idx + 1) as nat, segments as nat);
    }
}

proof fn lemma_prev_closed(idx: int, segments: int)
    requires
        0 <= idx < segments,
    ensures
        prev_index(idx, segments) == if idx == 0 {
            segments - 1
        } else {
            idx - 1
        },
{
    if idx == 0 {
        lemma_small_mod((segments - 1) as nat, segments as nat);
    } else {
        lemma_mod_add_multiples_vanish(idx - 1, segments);
        lemma_small_mod((idx - 1) as nat, segments as nat);
    }
}

/// Moving the highlight forward and then back, or back and then forward,
/// returns to where it was, and both moves stay among the segments.
pub proof fn lemma_next_prev_inverse(idx: int, segments: int)
    requires
        segments >= 1,
        0 <= idx < segments,
    ensures
        0 <= next_index(idx, segments) < segments,
        0 <= prev_index(idx, segments) < segments,
        prev_index(next_index(idx, segments), segments) == idx,
        next_index(prev_index(idx, segments), segments) == idx,
{
    lemma_next_closed(idx, segments);
    lemma_prev_closed(idx, segments);
    lemma_prev_closed(next_index(idx, segments), segments);
    lemma_next_closed(prev_index(idx, segments), segments);
}

/// The segment after `idx`.
pub fn next_highlight(idx: usize, segments: usize) -> (r: usize)
    requires
        idx < segments,
    ensures
        r == next_index(idx as int, segments as int),
        r < segments,
{
    proof {
        lemma_next_closed(idx as int, segments as int);
    }
    if idx + 1 == segments {
        0
    } else {
        idx + 1
    }
}

/// The segment before `idx`.
pub fn prev_highlight(idx: usize, segments: usize) -> (r: usize)
    requires
        idx < segments,
    ensures
        r == prev_index(idx as int, segments as int),
        r < segments,
{
    proof {
        lemma_prev_closed(idx as int, segments as int);
    }
    if idx == 0 {
        segments - 1
    } else {
        idx - 1
    }
}

impl GuiState {
    /// An idle controller.
    pub fn new() -> (r: Self)
        ensures
            r@ is None,
    {
        GuiState { session: None }
    }

    /// The highlighted segment, when the menu is shown.
    pub fn highlight(&self) -> (r: Option<usize>)
        ensures
            r == match self@ {
                Some(x) => Some(x.highlight),
                None => None,
            },
    {
        match self.session {
            Some(x) => Some(x.highlight),
            None => None,
        }
    }

    /// Applies one event at time `now`. Opening the menu yields the command
    /// that starts the renderer; the state moves as `after_event` says.
    pub fn handle_event(
        &mut self,
        event: EventType,
        segments: usize,
        icons: &Vec<Option<String>>,
        now: u64,
    ) -> (r: Vec<Command>)
        requires
            segments > 0,
            icons@.len() == segments,
            valid_state(old(self)@, segments as nat),
        ensures
            final(self)@ == after_event(old(self)@, event, segments as nat, now),
            valid_state(final(self)@, segments as nat),
            views(r@) == if old(self)@ is None && opens_menu(event) {
                seq![CommandSpec::SpawnRenderer(renderer_args_spec(segments as nat, icons@))]
            } else {
                Seq::<CommandSpec>::empty()
            },
    {
        let mut cmds: Vec<Command> = Vec::new();
        match self.session {
            None => {
                let highlight = match event {
                    EventType::MenuUp => Some(segments - 1),
                    EventType::MenuDown => Some(0),
                    EventType::Scroll(d) => if d < 0 {
                        Some(segments - 1)
                    } else if d > 0 {
                        Some(0)
                    } else {
                        None
                    },
                };
                if let Some(h) = highlight {
                    cmds.push(Command::SpawnRenderer(renderer_args(segments, icons)));
                    self.session = Some(Session { highlight: h, idle_since: now });
                }
            },
            Some(x) => {
                let h = x.highlight;
                match event {
                    EventType::MenuUp => {
                        self.session = Some(
                            Session { highlight: next_highlight(h, segments), idle_since: now },
                        );
                    },
                    EventType::MenuDown => {
                        self.session = Some(
                            Session { highlight: prev_highlight(h, segments), idle_since: now },
                        );
                    },
                    EventType::Scroll(d) => {
                        if d > 0 {
                            self.session = Some(
                                Session { highlight: next_highlight(h, segments), idle_since: now },
                            );
                        } else if d < 0 {
                            self.session = Some(
                                Session { highlight: prev_highlight(h, segments), idle_since: now },
                            );
                        }
                    },
                }
            },
        }
        assert(views(cmds@) =~= if old(self)@ is None && opens_menu(event) {
            seq![CommandSpec::SpawnRenderer(renderer_args_spec(segments as nat, icons@))]
        } else {
            Seq::<CommandSpec>::empty()
        });
        cmds
    }

    /// One turn of the controller. With an event, the state moves and the
    /// highlight line follows whenever a highlight is set; without one, an
    /// expired session is closed: `QUIT` is sent, the highlighted item is
    /// launched and the renderer awaited.
    pub fn tick(
        &mut self,
        event: Option<EventType>,
        segments: usize,
        icons: &Vec<Option<String>>,
        now: u64,
        idle_timeout: u64,
    ) -> (r: Vec<Command>)
        requires
            segments > 0,
            icons@.len() == segments,
            valid_state(old(self)@, segments as nat),
        ensures
            valid_state(final(self)@, segments as nat),
            match event {
                Some(e) => {
                    &&& final(self)@ == after_event(old(self)@, e, segments as nat, now)
                    &&& views(r@) == event_commands(old(self)@, e, segments as nat, icons@, now)
                },
                None => {
                    &&& final(self)@ == after_timeout(old(self)@, now, idle_timeout)
                    &&& views(r@) == timeout_commands(old(self)@, now, idle_timeout)
                },
            },
            event == Some(EventType::Scroll(0)) ==> final(self)@ == old(self)@,
    {
        match event {
            Some(e) => {
                let mut cmds = self.handle_event(e, segments, icons, now);
                if let Some(x) = self.session {
                    cmds.push(Command::Send(highlight_line(x.highlight)));
                }
                assert(views(cmds@) =~= event_commands(old(self)@, e, segments as nat, icons@, now));
                cmds
            },
            None => {
                let mut cmds: Vec<Command> = Vec::new();
                if let Some(x) = self.session {
                    if now > x.idle_since && now - x.idle_since > idle_timeout {
                        cmds.push(Command::Send(quit_line()));
                        cmds.push(Command::Launch(x.highlight));
                        cmds.push(Command::WaitRenderer);
                        self.session = None;
                    }
                }
                assert(views(cmds@) =~= timeout_commands(old(self)@, now, idle_timeout));
                cmds
            },
        }
    }

    /// One turn of the controller loop over what the channel produced: a
    /// lost listener ends the process, anything else goes to `tick`.
    pub fn step(
        &mut self,
        received: Received,
        segments: usize,
        icons: &Vec<Option<String>>,
        now: u64,
        idle_timeout: u64,
    ) -> (r: Vec<Command>)
        requires
            segments > 0,
            icons@.len() == segments,
            valid_state(old(self)@, segments as nat),
        ensures
            valid_state(final(self)@, segments as nat),
            match received {
                Received::Event(e) => {
                    &&& final(self)@ == after_event(old(self)@, e, segments as nat, now)
                    &&& views(r@) == event_commands(old(self)@, e, segments as nat, icons@, now)
                },
                Received::Timeout => {
                    &&& final(self)@ == after_timeout(old(self)@, now, idle_timeout)
                    &&& views(r@) == timeout_commands(old(self)@, now, idle_timeout)
                },
                Received::Disconnected => {
                    &&& final(self)@ == old(self)@
                    &&& views(r@) == seq![CommandSpec::Terminate]
                },
            },
    {
        match received {
            Received::Event(e) => self.tick(Some(e), segments, icons, now, idle_timeout),
            Received::Timeout => self.tick(None, segments, icons, now, idle_timeout),
            Received::Disconnected => {
                let mut cmds: Vec<Command> = Vec::new();
                cmds.push(Command::Terminate);
                assert(views(cmds@) =~= seq![CommandSpec::Terminate]);
                cmds
            },
        }
    }
}

} // verus!
