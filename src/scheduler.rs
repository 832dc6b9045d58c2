use vstd::prelude::*;

use crate::laws::{action_at, run_from};
use crate::render_flag::{merge, ShouldRender};

verus! {

/// A key press, reduced to what the scheduler distinguishes.
#[derive(Clone, Copy, Debug, PartialEq, Eq, Structural)]
pub enum KeyCode {
    Esc,
    Char(char),
    Other,
}

/// One event of the stream that drives the loop.
#[derive(Clone, Copy, Debug, PartialEq, Eq, Structural)]
pub enum Event {
    Init,
    Quit,
    Error,
    Render,
    Key(KeyCode),
    Tick,
    Timer,
    Resize(u16, u16),
}

/// Telemetry read by the draw step: frames drawn in the previous second.
#[derive(Clone, Copy, Debug, PartialEq, Eq, Structural)]
pub struct AppRuntimeInfo {
    pub fps: usize,
}

/// What the caller carries out for one handled event.
///
/// `advance` records that the domain state was advanced for this event (the
/// hint handed to `App::handle_event` came from that advance). The other
/// fields are still to be done: forward new dimensions to the domain state,
/// advance its timer, and draw the screen.
#[derive(Clone, Copy, Debug, PartialEq, Eq)]
pub struct Action {
    pub advance: bool,
    pub resize: Option<(u16, u16)>,
    pub advance_timer: bool,
    pub draw: bool,
}

/// The scheduler's state as plain values.
pub struct AppView {
    pub fps: u64,
    pub tps: u64,
    pub should_quit: bool,
    pub should_render: ShouldRender,
    pub frame_in_second: usize,
    pub runtime_info: AppRuntimeInfo,
}

/// Escape, `q` and `Q` end the loop.
pub open spec fn is_quit_key(k: KeyCode) -> bool {
    k == KeyCode::Esc || k == KeyCode::Char('q') || k == KeyCode::Char('Q')
}

/// The events after which the loop terminates.
pub open spec fn is_quit_event(e: Event) -> bool {
    match e {
        Event::Quit | Event::Error => true,
        Event::Key(k) => is_quit_key(k),
        _ => false,
    }
}

/// Nothing left for the caller to do.
pub open spec fn no_action() -> Action {
    Action { advance: false, resize: None, advance_timer: false, draw: false }
}

impl AppView {
    /// A fresh scheduler: the first render cycle draws.
    pub open spec fn initial(fps: u64, tps: u64) -> AppView {
        AppView {
            fps,
            tps,
            should_quit: false,
            should_render: ShouldRender::Render,
            frame_in_second: 0,
            runtime_info: AppRuntimeInfo { fps: 0 },
        }
    }

    /// Equal rates: render events also drive the state advance.
    pub open spec fn collapsed(self) -> bool {
        self.fps == self.tps
    }

    pub open spec fn advances_on(self, e: Event) -> bool {
        match e {
            Event::Tick => true,
            Event::Render => self.collapsed(),
            _ => false,
        }
    }

    pub open spec fn after_key(self, k: KeyCode) -> AppView {
        if is_quit_key(k) {
            AppView { should_quit: true, ..self }
        } else {
            self
        }
    }

    pub open spec fn after_resize(self) -> AppView {
        AppView { should_render: ShouldRender::Render, ..self }
    }

    /// The flag absorbs the advance's hint; the frame counter grows,
    /// saturating at the top of `usize`.
    pub open spec fn after_tick(self, hint: ShouldRender) -> AppView {
        AppView {
            should_render: merge(self.should_render, hint),
            frame_in_second: if self.frame_in_second == usize::MAX {
                usize::MAX
            } else {
                (self.frame_in_second + 1) as usize
            },
            ..self
        }
    }

    /// The state after a render event, and whether it draws.
    pub open spec fn render_outcome(self, hint: ShouldRender) -> (AppView, bool) {
        let t = if self.collapsed() {
            self.after_tick(hint)
        } else {
            self
        };
        if t.should_render == ShouldRender::Render {
            (AppView { should_render: ShouldRender::Skip, ..t }, true)
        } else {
            (t, false)
        }
    }

    /// The frame counter is folded into the telemetry and reset.
    pub open spec fn after_timer(self) -> AppView {
        AppView {
            should_render: ShouldRender::Render,
            frame_in_second: 0,
            runtime_info: AppRuntimeInfo { fps: self.frame_in_second },
            ..self
        }
    }

    /// One event handled: the next state and what the caller carries out.
    /// `hint` is what the domain state's advance returned, where
    /// `advances_on(e)` holds; it is not read otherwise.
    pub open spec fn step(self, e: Event, hint: ShouldRender) -> (AppView, Action) {
        match e {
            Event::Init => (self, no_action()),
            Event::Quit | Event::Error => (AppView { should_quit: true, ..self }, no_action()),
            Event::Key(k) => (self.after_key(k), no_action()),
            Event::Tick => (self.after_tick(hint), Action { advance: true, ..no_action() }),
            Event::Render => {
                let (t, d) = self.render_outcome(hint);
                (t, Action { advance: self.collapsed(), draw: d, ..no_action() })
            },
            Event::Timer => (self.after_timer(), Action { advance_timer: true, ..no_action() }),
            Event::Resize(c, r) => (self.after_resize(), Action { resize: Some((c, r)), ..no_action() }),
        }
    }
}

/// The scheduler: configured rates, the termination and render-decision
/// flags, the frame counter and the telemetry.
#[derive(Debug)]
pub struct App {
    fps: u64,
    tps: u64,
    should_quit: bool,
    should_render: ShouldRender,
    frame_in_second: usize,
    runtime_info: AppRuntimeInfo,
}

impl View for App {
    type V = AppView;

    closed spec fn view(&self) -> AppView {
        AppView {
            fps: self.fps,
            tps: self.tps,
            should_quit: self.should_quit,
            should_render: self.should_render,
            frame_in_second: self.frame_in_second,
            runtime_info: self.runtime_info,
        }
    }
}

impl App {
    /// A scheduler for `fps` draws and `tps` state advances per second.
    pub fn new(fps: u64, tps: u64) -> (r: App)
        ensures
            r@ == AppView::initial(fps, tps),
    {
        App {
            fps,
            tps,
            should_quit: false,
            should_render: ShouldRender::Render,
            frame_in_second: 0,
            runtime_info: AppRuntimeInfo { fps: 0 },
        }
    }

    pub fn should_quit(&self) -> (r: bool)
        ensures
            r == self@.should_quit,
    {
        self.should_quit
    }

    pub fn should_render(&self) -> (r: ShouldRender)
        ensures
            r == self@.should_render,
    {
        self.should_render
    }

    pub fn frame_in_second(&self) -> (r: usize)
        ensures
            r == self@.frame_in_second,
    {
        self.frame_in_second
    }

    pub fn runtime_info(&self) -> (r: AppRuntimeInfo)
        ensures
            r == self@.runtime_info,
    {
        self.runtime_info
    }

    /// Whether the caller must advance the domain state before handing
    /// `event` to `handle_event`.
    pub fn advances_on(&self, event: &Event) -> (r: bool)
        ensures
            r == self@.advances_on(*event),
    {
        match event {
            Event::Tick => true,
            Event::Render => self.fps == self.tps,
            _ => false,
        }
    }

    pub fn handle_keyboard(&mut self, key: KeyCode)
        ensures
            final(self)@ == old(self)@.after_key(key),
    {
        match key {
            KeyCode::Esc | KeyCode::Char('q') | KeyCode::Char('Q') => self.should_quit = true,
            _ => {},
        }
    }

    pub fn on_resize(&mut self)
        ensures
            final(self)@ == old(self)@.after_resize(),
    {
        self.should_render = ShouldRender::Render;
    }

    pub fn on_tick(&mut self, hint: ShouldRender)
        ensures
            final(self)@ == old(self)@.after_tick(hint),
    {
        self.should_render = self.should_render.or(hint);
        self.frame_in_second = self.frame_in_second.saturating_add(1);
    }

    /// Returns whether the screen is to be drawn now.
    pub fn on_render(&mut self, hint: ShouldRender) -> (draw: bool)
        ensures
            (final(self)@, draw) == old(self)@.render_outcome(hint),
    {
        if self.fps == self.tps {
            self.on_tick(hint);
        }
        if self.should_render.is_render() {
            self.should_render = ShouldRender::Skip;
            true
        } else {
            false
        }
    }

    pub fn on_timer(&mut self)
        ensures
            final(self)@ == old(self)@.after_timer(),
            final(self)@.frame_in_second == 0,
            final(self)@.runtime_info.fps == old(self)@.frame_in_second,
    {
        self.runtime_info.fps = self.frame_in_second;
        self.frame_in_second = 0;
        self.should_render = ShouldRender::Render;
    }

    /// Handles one event. Where `advances_on(&event)` holds, `hint` is what
    /// the domain state's advance returned for it.
    pub fn handle_event(&mut self, event: Event, hint: ShouldRender) -> (r: Action)
        ensures
            (final(self)@, r) == old(self)@.step(event, hint),
    {
        let none = Action { advance: false, resize: None, advance_timer: false, draw: false };
        match event {
            Event::Init => none,
            Event::Quit | Event::Error => {
                self.should_quit = true;
                none
            },
            Event::Key(k) => {
                self.handle_keyboard(k);
                none
            },
            Event::Tick => {
                self.on_tick(hint);
                Action { advance: true, ..none }
            },
            Event::Render => {
                let advance = self.fps == self.tps;
                let draw = self.on_render(hint);
                Action { advance, draw, ..none }
            },
            Event::Timer => {
                self.on_timer();
                Action { advance_timer: true, ..none }
            },
            Event::Resize(columns, rows) => {
                self.on_resize();
                Action { resize: Some((columns, rows)), ..none }
            },
        }
    }

    /// Handles `events` in order, `hints[i]` standing for the advance's hint
    /// of `events[i]`, and stops after the first event that leaves the
    /// termination flag set. Returns the action of each handled event.
    pub fn run(&mut self, events: &Vec<Event>, hints: &Vec<ShouldRender>) -> (r: Vec<Action>)
        requires
            events.len() == hints.len(),
        ensures
            r.len() <= events.len(),
            events.len() > 0 ==> r.len() > 0,
            final(self)@ == run_from(old(self)@, events@.take(r.len() as int), hints@.take(r.len() as int)),
            r.len() < events.len() ==> final(self)@.should_quit,
            forall|j: int|
                1 <= j < r.len() ==> !(#[trigger] run_from(old(self)@, events@.take(j), hints@.take(j))).should_quit,
            forall|j: int| 0 <= j < r.len() ==> r@[j] == action_at(old(self)@, events@, hints@, j),
    {
        let ghost s0 = self@;
        let mut out: Vec<Action> = Vec::new();
        let mut i: usize = 0;
        let mut done = false;
        assert(events@.take(0) =~= Seq::<Event>::empty());
        while i < events.len() && !done
            invariant
                events.len() == hints.len(),
                i <= events.len(),
                out.len() == i,
                i > 0 ==> done == self@.should_quit,
                i == 0 ==> !done,
                self@ == run_from(s0, events@.take(i as int), hints@.take(i as int)),
                forall|j: int|
                    1 <= j < i ==> !(#[trigger] run_from(s0, events@.take(j), hints@.take(j))).should_quit,
                forall|j: int| 0 <= j < i ==> out@[j] == action_at(s0, events@, hints@, j),
            decreases events.len() - i,
        {
            let a = self.handle_event(events[i], hints[i]);
            out.push(a);
            assert(events@.take(i + 1).take(i as int) =~= events@.take(i as int));
            assert(hints@.take(i + 1).take(i as int) =~= hints@.take(i as int));
            i = i + 1;
            done = self.should_quit;
        }
        out
    }
}

} // verus!
