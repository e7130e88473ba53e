use vstd::prelude::*;

use crate::device::{GpuDeviceContext, PhysicalSize};
use crate::frame::{action_for, context_after_frame, handle_render_result, FrameAction, FrameError};

verus! {

/// A virtual key code: the one the loop reacts to, or any other by its number.
#[derive(Clone, Copy, Debug, PartialEq, Eq, Structural)]
pub enum KeyCode {
    Escape,
    Other(u32),
}

#[derive(Clone, Copy, Debug, PartialEq, Eq, Structural)]
pub enum ElementState {
    Pressed,
    Released,
}

/// A key going down or up; `key` is `None` for a key with no virtual code.
#[derive(Clone, Copy, Debug, PartialEq, Eq, Structural)]
pub struct KeyInput {
    pub key: Option<KeyCode>,
    pub state: ElementState,
}

/// A raw input event of a device, as the loop sees it. The pointer deltas stay
/// with the host's own event, which is what reaches the application.
#[derive(Clone, Copy, Debug, PartialEq, Eq, Structural)]
pub enum DeviceInput {
    Key(KeyInput),
    MouseMotion,
    MouseWheel,
    Button { button: u32, state: ElementState },
    Other,
}

/// An event addressed to a window.
#[derive(Clone, Copy, Debug, PartialEq, Eq, Structural)]
pub enum WindowEvent {
    CloseRequested,
    Resized(PhysicalSize),
    /// The display scale changed; the window's new inner size.
    ScaleFactorChanged(PhysicalSize),
    KeyboardInput(KeyInput),
    Other,
}

/// What the host's event source delivers. `own` tells whether a window event
/// is for the window the loop drives. `now_micros` is the host's monotonic
/// clock when a redraw became ready.
#[derive(Clone, Copy, Debug, PartialEq, Eq, Structural)]
pub enum PlatformEvent {
    MainEventsCleared,
    Device(DeviceInput),
    Window { own: bool, event: WindowEvent },
    RedrawReady { now_micros: u64 },
    Other,
}

/// What the host has to do after an event, in order.
#[derive(Clone, Copy, Debug, PartialEq, Eq, Structural)]
pub enum Command {
    /// Ask the host for a redraw, which comes later as its own event.
    RequestRedraw,
    /// Call the application's `on_load`.
    Load,
    /// Hand the device event to the application's `on_input`.
    Input(DeviceInput),
    /// Rebuild the device's swapchain and depth buffer from the context.
    RecreateSwapchain,
    /// Call the application's `on_resize` with this size.
    Resize(PhysicalSize),
    /// Call the application's `on_update` with the time since the last draw.
    Update { delta_micros: u64 },
    /// Call the application's `on_draw`.
    Draw,
    /// Call the application's `on_exit`.
    Exit,
}

#[derive(Clone, Copy, Debug, PartialEq, Eq, Structural)]
pub enum Phase {
    /// Made, the application not loaded yet.
    Created,
    Running,
    /// The application was told to exit.
    Exited,
}

/// Whether the host should go on delivering events.
#[derive(Clone, Copy, Debug, PartialEq, Eq, Structural)]
pub enum LoopSignal {
    Continue,
    Stop,
}

/// The loop's own state. `terminate` is the request to stop: once set, the
/// loop dispatches nothing more.
#[derive(Clone, Copy, Debug, PartialEq, Eq, Structural)]
pub struct LoopState {
    pub phase: Phase,
    pub terminate: bool,
    pub last_draw_micros: u64,
}

/// The outcome of dispatching one event.
#[derive(Clone, Debug)]
pub struct Step {
    pub commands: Vec<Command>,
    pub signal: LoopSignal,
}

pub open spec fn is_escape_press(k: KeyInput) -> bool {
    k.key == Some(KeyCode::Escape) && k.state == ElementState::Pressed
}

pub open spec fn is_escape_input(d: DeviceInput) -> bool {
    match d {
        DeviceInput::Key(k) => is_escape_press(k),
        _ => false,
    }
}

/// An Escape press, from a device or from the window's keyboard.
pub open spec fn is_escape_event(e: PlatformEvent) -> bool {
    match e {
        PlatformEvent::Device(d) => is_escape_input(d),
        PlatformEvent::Window { own: _, event: WindowEvent::KeyboardInput(k) } => is_escape_press(k),
        _ => false,
    }
}

/// The size an event asks the window to take, if it is a resize of the loop's
/// own window or a scale change of it.
pub open spec fn requested_size(e: PlatformEvent) -> Option<PhysicalSize> {
    match e {
        PlatformEvent::Window { own: true, event: WindowEvent::Resized(s) } => Some(s),
        PlatformEvent::Window { own: true, event: WindowEvent::ScaleFactorChanged(s) } => Some(s),
        _ => None,
    }
}

pub open spec fn is_close_request(e: PlatformEvent) -> bool {
    e == PlatformEvent::Window { own: true, event: WindowEvent::CloseRequested }
}

/// Microseconds from `last` to `now`; zero where the clock went back.
pub open spec fn elapsed(last: u64, now: u64) -> u64 {
    if now >= last {
        (now - last) as u64
    } else {
        0
    }
}

/// Whether the loop still dispatches events in state `s`.
pub open spec fn dispatching(s: LoopState) -> bool {
    s.phase == Phase::Running && !s.terminate
}

/// The commands that event `e` gives in state `s`.
pub open spec fn commands_for(s: LoopState, e: PlatformEvent) -> Seq<Command> {
    if !dispatching(s) || is_escape_event(e) {
        seq![]
    } else if is_close_request(e) {
        seq![Command::Exit]
    } else if let Some(size) = requested_size(e) {
        if size.is_positive() {
            seq![Command::RecreateSwapchain, Command::Resize(size)]
        } else {
            seq![Command::Resize(size)]
        }
    } else {
        match e {
            PlatformEvent::MainEventsCleared => seq![Command::RequestRedraw],
            PlatformEvent::Device(d) => seq![Command::Input(d)],
            PlatformEvent::RedrawReady { now_micros } => seq![
                Command::Update { delta_micros: elapsed(s.last_draw_micros, now_micros) },
                Command::Draw,
            ],
            _ => seq![],
        }
    }
}

/// The state after event `e` in state `s`.
pub open spec fn state_after(s: LoopState, e: PlatformEvent) -> LoopState {
    if !dispatching(s) {
        s
    } else if is_escape_event(e) {
        LoopState { terminate: true, ..s }
    } else if is_close_request(e) {
        LoopState { phase: Phase::Exited, terminate: true, ..s }
    } else if let PlatformEvent::RedrawReady { now_micros } = e {
        LoopState { last_draw_micros: now_micros, ..s }
    } else {
        s
    }
}

/// The device context after event `e` in state `s`: rebuilt for an accepted
/// size request, untouched otherwise.
pub open spec fn context_after(s: LoopState, ctx: GpuDeviceContext, e: PlatformEvent) -> GpuDeviceContext {
    if dispatching(s) && !is_escape_event(e) && requested_size(e) is Some
        && requested_size(e)->0.is_positive() {
        ctx.resized(requested_size(e)->0)
    } else {
        ctx
    }
}

pub open spec fn signal_for(s: LoopState) -> LoopSignal {
    if s.terminate {
        LoopSignal::Stop
    } else {
        LoopSignal::Continue
    }
}

/// `on_load` came first and never again.
pub open spec fn load_once_first(t: Seq<Command>) -> bool {
    &&& t.len() > 0
    &&& t[0] == Command::Load
    &&& forall|i: int| 0 < i < t.len() ==> #[trigger] t[i] != Command::Load
}

/// Every `on_update` is directly followed by an `on_draw`, and every `on_draw`
/// directly follows an `on_update`.
pub open spec fn updates_paired(t: Seq<Command>) -> bool {
    forall|i: int|
        0 <= i < t.len() ==> {
            &&& (#[trigger] t[i] == Command::Draw ==> i > 0 && t[i - 1] is Update)
            &&& (t[i] is Update ==> i + 1 < t.len() && t[i + 1] == Command::Draw)
        }
}

/// No Escape press ever reached `on_input`.
pub open spec fn no_escape_forwarded(t: Seq<Command>) -> bool {
    forall|i: int| 0 <= i < t.len() ==> !(#[trigger] t[i] matches Command::Input(d) && is_escape_input(d))
}

/// `on_exit` is the last callback, wherever it occurs.
pub open spec fn exit_last(t: Seq<Command>) -> bool {
    forall|i: int| 0 <= i < t.len() && #[trigger] t[i] == Command::Exit ==> i == t.len() - 1
}

/// The event dispatcher of the run loop. It turns each event of the host into
/// the commands the host carries out, and keeps, as ghost state, every command
/// it has given in this run.
pub struct Dispatcher {
    state: LoopState,
    trace: Ghost<Seq<Command>>,
}

impl Dispatcher {
    pub closed spec fn state_spec(&self) -> LoopState {
        self.state
    }

    /// Every command given so far, in order.
    pub closed spec fn trace(&self) -> Seq<Command> {
        self.trace@
    }

    pub closed spec fn wf(&self) -> bool {
        let t = self.trace@;
        let s = self.state;
        &&& (s.phase == Phase::Created <==> t.len() == 0)
        &&& (s.phase != Phase::Created ==> load_once_first(t))
        &&& updates_paired(t)
        &&& no_escape_forwarded(t)
        &&& exit_last(t)
        &&& (forall|i: int| 0 <= i < t.len() && #[trigger] t[i] == Command::Exit ==> s.phase == Phase::Exited)
        &&& (s.phase == Phase::Exited ==> s.terminate)
    }

    pub fn new() -> (r: Dispatcher)
        ensures
            r.wf(),
            r.state_spec() == (LoopState { phase: Phase::Created, terminate: false, last_draw_micros: 0 }),
            r.trace() == Seq::<Command>::empty(),
    {
        Dispatcher {
            state: LoopState { phase: Phase::Created, terminate: false, last_draw_micros: 0 },
            trace: Ghost(Seq::empty()),
        }
    }

    pub fn state(&self) -> (r: LoopState)
        ensures
            r == self.state_spec(),
    {
        self.state
    }

    /// Whether the loop was asked to stop.
    pub fn is_terminating(&self) -> (r: bool)
        ensures
            r == self.state_spec().terminate,
    {
        self.state.terminate
    }

    /// Starts the run at host time `now_micros`: the first call loads the
    /// application; any later one gives nothing.
    pub fn start(&mut self, now_micros: u64) -> (r: Vec<Command>)
        requires
            old(self).wf(),
        ensures
            final(self).wf(),
            final(self).trace() == old(self).trace() + r@,
            old(self).state_spec().phase == Phase::Created ==> {
                &&& r@ == seq![Command::Load]
                &&& final(self).state_spec() == (LoopState {
                    phase: Phase::Running,
                    last_draw_micros: now_micros,
                    ..old(self).state_spec()
                })
            },
            old(self).state_spec().phase != Phase::Created ==> {
                &&& r@ == Seq::<Command>::empty()
                &&& final(self).state_spec() == old(self).state_spec()
            },
    {
        let mut r: Vec<Command> = Vec::new();
        if self.state.phase == Phase::Created {
            r.push(Command::Load);
            self.state = LoopState {
                phase: Phase::Running,
                last_draw_micros: now_micros,
                ..self.state
            };
            self.trace = Ghost(self.trace@ + r@);
        } else {
            assert(self.trace@ + r@ =~= self.trace@);
        }
        r
    }

    /// Dispatches one event of the host. While the loop runs and no stop was
    /// asked for: an Escape press asks to stop and reaches no callback; a close
    /// request of the window exits the application and asks to stop; a resize
    /// or scale change of the window rebuilds the context for that size (when
    /// no side is zero) and resizes the application; a device event goes to the
    /// application; a drained event queue asks for a redraw; a ready redraw
    /// updates the application with the time since the last draw, then draws.
    /// Once a stop was asked for, events give nothing.
    pub fn dispatch(&mut self, ctx: &mut GpuDeviceContext, event: PlatformEvent) -> (r: Step)
        requires
            old(self).wf(),
            old(ctx).wf(),
        ensures
            final(self).wf(),
            final(ctx).wf(),
            r.commands@ == commands_for(old(self).state_spec(), event),
            final(self).state_spec() == state_after(old(self).state_spec(), event),
            final(self).trace() == old(self).trace() + r.commands@,
            *final(ctx) == context_after(old(self).state_spec(), *old(ctx), event),
            r.signal == signal_for(final(self).state_spec()),
    {
        let mut cmds: Vec<Command> = Vec::new();
        if self.state.phase == Phase::Running && !self.state.terminate {
            let (next, given) = next_step(self.state, ctx, event);
            proof {
                lemma_commands_shape(self.state, event);
                lemma_append_keeps_order(self.trace@, given@);
            }
            self.state = next;
            cmds = given;
        }
        self.trace = Ghost(self.trace@ + cmds@);
        proof {
            if !dispatching(old(self).state) {
                assert(cmds@ =~= Seq::<Command>::empty());
                assert(self.trace@ =~= old(self).trace@);
            }
        }
        let signal = if self.state.terminate {
            LoopSignal::Stop
        } else {
            LoopSignal::Continue
        };
        Step { commands: cmds, signal }
    }

    /// Acts on the render status of the frame just drawn (see
    /// `handle_render_result`); a fatal status asks the loop to stop.
    pub fn finish_frame(&mut self, ctx: &mut GpuDeviceContext, result: Result<(), FrameError>) -> (r:
        FrameAction)
        requires
            old(self).wf(),
            old(ctx).wf(),
        ensures
            final(self).wf(),
            final(ctx).wf(),
            r == action_for(*old(ctx), result),
            *final(ctx) == context_after_frame(*old(ctx), result),
            final(self).trace() == old(self).trace(),
            r == FrameAction::Terminate ==> final(self).state_spec() == (LoopState {
                terminate: true,
                ..old(self).state_spec()
            }),
            r != FrameAction::Terminate ==> final(self).state_spec() == old(self).state_spec(),
    {
        let r = handle_render_result(ctx, result);
        if r == FrameAction::Terminate {
            self.state.terminate = true;
        }
        r
    }
}

/// The state and commands that `event` gives while the loop dispatches, with
/// the context resized as the event asks.
fn next_step(s: LoopState, ctx: &mut GpuDeviceContext, event: PlatformEvent) -> (r: (
    LoopState,
    Vec<Command>,
))
    requires
        dispatching(s),
        old(ctx).wf(),
    ensures
        final(ctx).wf(),
        r.0 == state_after(s, event),
        r.1@ == commands_for(s, event),
        *final(ctx) == context_after(s, *old(ctx), event),
{
    let mut state = s;
    let mut cmds: Vec<Command> = Vec::new();
    if escape_event(&event) {
        state.terminate = true;
        return (state, cmds);
    }
    match event {
        PlatformEvent::MainEventsCleared => {
            cmds.push(Command::RequestRedraw);
        },
        PlatformEvent::Device(d) => {
            cmds.push(Command::Input(d));
        },
        PlatformEvent::Window { own: true, event: WindowEvent::CloseRequested } => {
            cmds.push(Command::Exit);
            state.phase = Phase::Exited;
            state.terminate = true;
        },
        PlatformEvent::Window { own: true, event: WindowEvent::Resized(size) } => {
            cmds = resize_commands(ctx, size);
        },
        PlatformEvent::Window { own: true, event: WindowEvent::ScaleFactorChanged(size) } => {
            cmds = resize_commands(ctx, size);
        },
        PlatformEvent::RedrawReady { now_micros } => {
            let last = state.last_draw_micros;
            let delta_micros: u64 = if now_micros >= last {
                now_micros - last
            } else {
                0
            };
            state.last_draw_micros = now_micros;
            cmds.push(Command::Update { delta_micros });
            cmds.push(Command::Draw);
        },
        _ => {},
    }
    (state, cmds)
}

/// Whether `e` is an Escape press.
pub fn escape_event(e: &PlatformEvent) -> (r: bool)
    ensures
        r == is_escape_event(*e),
{
    let k = match e {
        PlatformEvent::Device(DeviceInput::Key(k)) => k,
        PlatformEvent::Window { own: _, event: WindowEvent::KeyboardInput(k) } => k,
        _ => {
            return false;
        },
    };
    k.key == Some(KeyCode::Escape) && k.state == ElementState::Pressed
}

/// Resizes the context for `size` and gives the commands that follow.
fn resize_commands(ctx: &mut GpuDeviceContext, size: PhysicalSize) -> (r: Vec<Command>)
    requires
        old(ctx).wf(),
    ensures
        final(ctx).wf(),
        size.is_positive() ==> r@ == seq![Command::RecreateSwapchain, Command::Resize(size)]
            && *final(ctx) == old(ctx).resized(size),
        !size.is_positive() ==> r@ == seq![Command::Resize(size)] && *final(ctx) == *old(ctx),
{
    let mut r: Vec<Command> = Vec::new();
    if ctx.resize(size) {
        r.push(Command::RecreateSwapchain);
    }
    r.push(Command::Resize(size));
    r
}

/// The commands of one event, while the loop dispatches, have one of a few
/// shapes.
proof fn lemma_commands_shape(s: LoopState, e: PlatformEvent)
    requires
        dispatching(s),
    ensures
        ({
            let c = commands_for(s, e);
            c.len() == 0 || c == seq![Command::RequestRedraw] || c == seq![Command::Exit]
                || (c.len() == 1 && c[0] is Input && !is_escape_input(c[0]->Input_0))
                || (c.len() == 1 && c[0] is Resize)
                || (c.len() == 2 && c[0] == Command::RecreateSwapchain && c[1] is Resize)
                || (c.len() == 2 && c[0] is Update && c[1] == Command::Draw)
        }),
        commands_for(s, e).contains(Command::Exit) ==> state_after(s, e).phase == Phase::Exited,
        !commands_for(s, e).contains(Command::Exit) ==> state_after(s, e).phase == Phase::Running,
{
    let c = commands_for(s, e);
    if !is_escape_event(e) && !is_close_request(e) && requested_size(e) is None {
        if let PlatformEvent::Device(d) = e {
            assert(c[0] == Command::Input(d));
        }
    }
    if !c.contains(Command::Exit) {
        if is_close_request(e) && !is_escape_event(e) {
            assert(c[0] == Command::Exit);
        }
    } else {
        let k = choose|k: int| 0 <= k < c.len() && c[k] == Command::Exit;
        assert(c[k] == Command::Exit);
    }
}

/// `on_load` is given exactly once in a run, as the first command, so before
/// any `on_draw`; before the run starts nothing is given.
pub proof fn lemma_load_once_before_draw(d: &Dispatcher)
    requires
        d.wf(),
    ensures
        d.state_spec().phase == Phase::Created <==> d.trace().len() == 0,
        d.state_spec().phase != Phase::Created ==> load_once_first(d.trace()),
        forall|i: int| 0 <= i < d.trace().len() && #[trigger] d.trace()[i] == Command::Draw ==> i > 0,
{
}

/// Each `on_update` is directly followed by its `on_draw`, and each `on_draw`
/// directly follows an `on_update`.
pub proof fn lemma_update_draw_paired(d: &Dispatcher)
    requires
        d.wf(),
    ensures
        updates_paired(d.trace()),
{
}

/// An Escape press never reaches `on_input`, and while the loop dispatches it
/// gives no command and asks the loop to stop.
pub proof fn lemma_escape_intercepted(d: &Dispatcher, e: PlatformEvent)
    requires
        d.wf(),
        is_escape_event(e),
    ensures
        no_escape_forwarded(d.trace()),
        commands_for(d.state_spec(), e) == Seq::<Command>::empty(),
        dispatching(d.state_spec()) ==> state_after(d.state_spec(), e).terminate,
        dispatching(d.state_spec()) ==> signal_for(state_after(d.state_spec(), e)) == LoopSignal::Stop,
{
}

/// `on_exit` is the last command of a run: once given, no event gives any
/// command again, so no `on_update`, `on_draw` or `on_input` follows it.
pub proof fn lemma_exit_is_last(d: &Dispatcher, e: PlatformEvent)
    requires
        d.wf(),
    ensures
        exit_last(d.trace()),
        d.trace().contains(Command::Exit) ==> commands_for(d.state_spec(), e)
            == Seq::<Command>::empty(),
        d.trace().contains(Command::Exit) ==> state_after(d.state_spec(), e) == d.state_spec(),
{
    if d.trace().contains(Command::Exit) {
        let k = choose|k: int| 0 <= k < d.trace().len() && d.trace()[k] == Command::Exit;
        assert(d.trace()[k] == Command::Exit);
    }
}

/// A loop that has exited has its stop request set, so it signals Stop and
/// every later event gives nothing.
pub proof fn lemma_exited_loop_stops(d: &Dispatcher, ctx: GpuDeviceContext, e: PlatformEvent)
    requires
        d.wf(),
        d.state_spec().phase == Phase::Exited,
    ensures
        d.state_spec().terminate,
        signal_for(d.state_spec()) == LoopSignal::Stop,
        commands_for(d.state_spec(), e) == Seq::<Command>::empty(),
        state_after(d.state_spec(), e) == d.state_spec(),
        context_after(d.state_spec(), ctx, e) == ctx,
{
}

/// Once a stop was asked for, an event gives nothing and changes nothing: the
/// loop ends at the first event it checks after the request.
pub proof fn lemma_stop_request_is_final(s: LoopState, ctx: GpuDeviceContext, e: PlatformEvent)
    requires
        s.terminate,
    ensures
        commands_for(s, e) == Seq::<Command>::empty(),
        state_after(s, e) == s,
        context_after(s, ctx, e) == ctx,
        signal_for(state_after(s, e)) == LoopSignal::Stop,
{
}

/// Appending the commands of one event to a run that is under way keeps the
/// order the callbacks come in.
proof fn lemma_append_keeps_order(t: Seq<Command>, c: Seq<Command>)
    requires
        load_once_first(t),
        updates_paired(t),
        no_escape_forwarded(t),
        forall|i: int| 0 <= i < t.len() ==> #[trigger] t[i] != Command::Exit,
        c.len() == 0 || c == seq![Command::RequestRedraw] || c == seq![Command::Exit]
            || (c.len() == 1 && c[0] is Input && !is_escape_input(c[0]->Input_0))
            || (c.len() == 1 && c[0] is Resize)
            || (c.len() == 2 && c[0] == Command::RecreateSwapchain && c[1] is Resize)
            || (c.len() == 2 && c[0] is Update && c[1] == Command::Draw),
    ensures
        load_once_first(t + c),
        updates_paired(t + c),
        no_escape_forwarded(t + c),
        exit_last(t + c),
{
    let u = t + c;
    assert forall|i: int| 0 <= i < u.len() implies {
        &&& (#[trigger] u[i] == Command::Draw ==> i > 0 && u[i - 1] is Update)
        &&& (u[i] is Update ==> i + 1 < u.len() && u[i + 1] == Command::Draw)
    } by {
        if i < t.len() {
            assert(u[i] == t[i]);
            if t[i] is Update {
                assert(i + 1 < t.len());
            }
        } else {
            assert(u[i] == c[i - t.len()]);
        }
    }
}

} // verus!
