//! The order in which each entry point does its work.
//!
//! The server's startup is a small machine: the caller does the outside work
//! (loading the configuration, binding the listener, running it), reports what
//! happened as an [`Event`], and is told by [`step`] what to do next. The two
//! browser entry points are a fixed list of steps, given by [`client_steps`].

use vstd::prelude::*;
use crate::options::{SiteOptions, SiteOptionsView};
use crate::routes::{
    favicon_route, mount_views, static_mounts, static_mounts_of, StaticMount, StaticMountView,
};

verus! {

/// The file the server's configuration is read from.
pub open spec fn configuration_file_name() -> Seq<char> {
    "Cargo.toml"@
}

/// The line the server prints before it listens on `addr`.
pub open spec fn banner_of(addr: Seq<char>) -> Seq<char> {
    "listening on http://"@ + addr
}

/// What a build is made to run.
#[derive(Clone, Copy, Debug, PartialEq, Eq, Structural)]
pub enum EntryPoint {
    /// Listen for requests and render on the server.
    Server,
    /// Render in the browser, with no server behind it.
    ClientRender,
    /// Nothing: the browser side is started through `hydrate` instead.
    Idle,
}

/// The entry point of a build with server rendering switched on or off, and
/// client rendering switched on or off. Server rendering wins over client
/// rendering; with neither, the program's start does nothing.
pub open spec fn entry_point_of(server: bool, client: bool) -> EntryPoint {
    if server {
        EntryPoint::Server
    } else if client {
        EntryPoint::ClientRender
    } else {
        EntryPoint::Idle
    }
}

/// The entry point of a build.
pub fn entry_point(server: bool, client: bool) -> (entry: EntryPoint)
    ensures
        entry == entry_point_of(server, client),
{
    if server {
        EntryPoint::Server
    } else if client {
        EntryPoint::ClientRender
    } else {
        EntryPoint::Idle
    }
}

/// How the browser side takes up the page.
#[derive(Clone, Copy, Debug, PartialEq, Eq, Structural)]
pub enum ClientMode {
    /// The page was rendered by the server and is attached to as it stands.
    Hydrate,
    /// The page is empty and is rendered in the browser.
    Render,
}

/// One piece of work of a browser entry point.
#[derive(Clone, Copy, Debug, PartialEq, Eq, Structural)]
pub enum ClientStep {
    /// Make panics show in the browser's console.
    InstallPanicBridge,
    /// Attach the component tree to the markup that the document body holds.
    AttachToBody,
    /// Render the component tree into the empty document body.
    MountToBody,
}

/// The work of a browser entry point, in order: the panic bridge, then the
/// component tree.
pub open spec fn client_steps_of(mode: ClientMode) -> Seq<ClientStep> {
    seq![
        ClientStep::InstallPanicBridge,
        match mode {
            ClientMode::Hydrate => ClientStep::AttachToBody,
            ClientMode::Render => ClientStep::MountToBody,
        },
    ]
}

/// The work of a browser entry point, in order.
pub fn client_steps(mode: ClientMode) -> (steps: Vec<ClientStep>)
    ensures
        steps@ == client_steps_of(mode),
{
    let mut steps: Vec<ClientStep> = Vec::new();
    steps.push(ClientStep::InstallPanicBridge);
    match mode {
        ClientMode::Hydrate => steps.push(ClientStep::AttachToBody),
        ClientMode::Render => steps.push(ClientStep::MountToBody),
    }
    assert(steps@ =~= client_steps_of(mode));
    steps
}

/// In either mode the panic bridge is installed first and once, before the one
/// step that touches the document.
pub proof fn lemma_panic_bridge_comes_first(mode: ClientMode)
    ensures
        client_steps_of(mode).len() == 2,
        client_steps_of(mode)[0] == ClientStep::InstallPanicBridge,
        client_steps_of(mode)[1] != ClientStep::InstallPanicBridge,
{
}

/// What the server sets up once its options are known.
#[derive(Clone, Debug, PartialEq, Eq)]
pub struct ServerPlan {
    /// The address to listen on.
    pub bind_addr: String,
    /// The line to print before listening.
    pub banner: String,
    /// The directories to serve, in the order of registration.
    pub mounts: Vec<StaticMount>,
    /// The route of the site's icon.
    pub favicon_route: String,
}

/// The mathematical content of a [`ServerPlan`].
pub ghost struct ServerPlanView {
    pub bind_addr: Seq<char>,
    pub banner: Seq<char>,
    pub mounts: Seq<StaticMountView>,
    pub favicon_route: Seq<char>,
}

impl View for ServerPlan {
    type V = ServerPlanView;

    open spec fn view(&self) -> ServerPlanView {
        ServerPlanView {
            bind_addr: self.bind_addr@,
            banner: self.banner@,
            mounts: mount_views(self.mounts@),
            favicon_route: self.favicon_route@,
        }
    }
}

/// The plan of a server with the given options: it listens on the configured
/// address, announces it, and serves the static mounts of the site root and
/// the site's icon.
pub open spec fn server_plan_of(options: SiteOptionsView) -> ServerPlanView {
    ServerPlanView {
        bind_addr: options.site_addr,
        banner: banner_of(options.site_addr),
        mounts: static_mounts_of(options.site_root),
        favicon_route: favicon_route(),
    }
}

/// The file the server's configuration is read from.
pub fn configuration_file() -> (name: &'static str)
    ensures
        name@ == configuration_file_name(),
{
    "Cargo.toml"
}

/// The line the server prints before it listens on `addr`.
pub fn banner(addr: &str) -> (line: String)
    ensures
        line@ == banner_of(addr@),
{
    String::from_str("listening on http://").concat(addr)
}

/// The plan of a server with the given options.
pub fn server_plan(options: &SiteOptions) -> (plan: ServerPlan)
    ensures
        plan@ == server_plan_of(options@),
{
    ServerPlan {
        bind_addr: String::from_str(options.site_addr()),
        banner: banner(options.site_addr()),
        mounts: static_mounts(options.site_root()),
        favicon_route: String::from_str("/favicon.ico"),
    }
}

/// Where the server's startup stands.
#[derive(Clone, Copy, Debug, PartialEq, Eq, Structural)]
pub enum Phase {
    /// The configuration is being loaded.
    Configuring,
    /// The listener is being bound.
    Binding,
    /// Requests are being answered.
    Serving,
    /// The process is about to end.
    Stopped,
}

/// What the outside work reported.
#[derive(Clone, Debug, PartialEq, Eq)]
pub enum Event {
    /// The configuration was loaded and holds these options.
    Configured(SiteOptions),
    /// The configuration file is missing or malformed.
    ConfigurationFailed,
    /// The listener is bound.
    Bound,
    /// The listener could not be bound.
    BindFailed,
    /// The server has stopped answering: `clean` if it was asked to.
    Finished { clean: bool },
}

/// The mathematical content of an [`Event`].
pub ghost enum EventView {
    Configured(SiteOptionsView),
    ConfigurationFailed,
    Bound,
    BindFailed,
    Finished { clean: bool },
}

impl View for Event {
    type V = EventView;

    open spec fn view(&self) -> EventView {
        match *self {
            Event::Configured(options) => EventView::Configured(options@),
            Event::ConfigurationFailed => EventView::ConfigurationFailed,
            Event::Bound => EventView::Bound,
            Event::BindFailed => EventView::BindFailed,
            Event::Finished { clean } => EventView::Finished { clean },
        }
    }
}

/// The outside work to do next.
#[derive(Clone, Debug, PartialEq, Eq)]
pub enum Action {
    /// Print the banner, register the routes and bind the listener.
    Listen(ServerPlan),
    /// Run the bound listener until it stops.
    Serve,
    /// End the process at once with a failure: nothing was bound.
    Abort,
    /// End the process, with success or with an error.
    Exit { success: bool },
}

/// The mathematical content of an [`Action`].
pub ghost enum ActionView {
    Listen(ServerPlanView),
    Serve,
    Abort,
    Exit { success: bool },
}

impl View for Action {
    type V = ActionView;

    open spec fn view(&self) -> ActionView {
        match *self {
            Action::Listen(plan) => ActionView::Listen(plan@),
            Action::Serve => ActionView::Serve,
            Action::Abort => ActionView::Abort,
            Action::Exit { success } => ActionView::Exit { success },
        }
    }
}

/// The phase after an event, and the work it calls for.
#[derive(Clone, Debug, PartialEq, Eq)]
pub struct Transition {
    pub next: Phase,
    pub action: Action,
}

/// The events that a phase waits for.
pub open spec fn accepts(phase: Phase, event: EventView) -> bool {
    match phase {
        Phase::Configuring => event is Configured || event is ConfigurationFailed,
        Phase::Binding => event is Bound || event is BindFailed,
        Phase::Serving => event is Finished,
        Phase::Stopped => false,
    }
}

/// The phase that follows `phase` on `event`; `phase` itself where the event
/// is not one it waits for.
pub open spec fn next_phase(phase: Phase, event: EventView) -> Phase {
    if !accepts(phase, event) {
        phase
    } else {
        match event {
            EventView::Configured(_) => Phase::Binding,
            EventView::Bound => Phase::Serving,
            _ => Phase::Stopped,
        }
    }
}

/// The work that `event` calls for in a phase that waits for it.
pub open spec fn action_of(event: EventView) -> ActionView {
    match event {
        EventView::Configured(options) => ActionView::Listen(server_plan_of(options)),
        EventView::ConfigurationFailed => ActionView::Abort,
        EventView::Bound => ActionView::Serve,
        EventView::BindFailed => ActionView::Exit { success: false },
        EventView::Finished { clean } => ActionView::Exit { success: clean },
    }
}

/// The phase in which startup begins.
pub fn start() -> (phase: Phase)
    ensures
        phase == Phase::Configuring,
{
    Phase::Configuring
}

/// Takes one event in a phase.
///
/// Returns `None` exactly when the phase does not wait for the event, and
/// otherwise the next phase and the work to do: loaded options lead to
/// listening on exactly the configured address; a failed configuration aborts;
/// a bound listener is run; a failed bind ends the process with an error; a
/// listener that has stopped ends it with the listener's outcome.
pub fn step(phase: Phase, event: Event) -> (out: Option<Transition>)
    ensures
        out is Some <==> accepts(phase, event@),
        out matches Some(t) ==> t.next == next_phase(phase, event@) && t.action@ == action_of(
            event@,
        ),
{
    match phase {
        Phase::Configuring => match event {
            Event::Configured(options) => Some(
                Transition { next: Phase::Binding, action: Action::Listen(server_plan(&options)) },
            ),
            Event::ConfigurationFailed => Some(
                Transition { next: Phase::Stopped, action: Action::Abort },
            ),
            _ => None,
        },
        Phase::Binding => match event {
            Event::Bound => Some(Transition { next: Phase::Serving, action: Action::Serve }),
            Event::BindFailed => Some(
                Transition { next: Phase::Stopped, action: Action::Exit { success: false } },
            ),
            _ => None,
        },
        Phase::Serving => match event {
            Event::Finished { clean } => Some(
                Transition { next: Phase::Stopped, action: Action::Exit { success: clean } },
            ),
            _ => None,
        },
        Phase::Stopped => None,
    }
}

/// The phase reached from `phase` by a run of events, each taken in turn;
/// an event that the phase does not wait for changes nothing.
pub open spec fn phase_after(phase: Phase, events: Seq<EventView>) -> Phase
    decreases events.len(),
{
    if events.len() == 0 {
        phase
    } else {
        phase_after(next_phase(phase, events[0]), events.drop_first())
    }
}

/// The work called for by a run of events from `phase`, in order.
pub open spec fn actions_of(phase: Phase, events: Seq<EventView>) -> Seq<ActionView>
    decreases events.len(),
{
    if events.len() == 0 {
        Seq::<ActionView>::empty()
    } else if accepts(phase, events[0]) {
        seq![action_of(events[0])] + actions_of(
            next_phase(phase, events[0]),
            events.drop_first(),
        )
    } else {
        actions_of(phase, events.drop_first())
    }
}

/// Once stopped, startup stays stopped and calls for no more work, whatever
/// is reported.
pub proof fn lemma_stopped_is_final(events: Seq<EventView>)
    ensures
        phase_after(Phase::Stopped, events) == Phase::Stopped,
        actions_of(Phase::Stopped, events) == Seq::<ActionView>::empty(),
    decreases events.len(),
{
    if events.len() > 0 {
        lemma_stopped_is_final(events.drop_first());
    }
}

/// With valid options the first work called for is to listen, on exactly the
/// configured address and with the routes of the configured site root.
pub proof fn lemma_valid_configuration_listens_on_configured_address(
    options: SiteOptionsView,
    rest: Seq<EventView>,
)
    ensures
        actions_of(Phase::Configuring, seq![EventView::Configured(options)] + rest).len() >= 1,
        actions_of(Phase::Configuring, seq![EventView::Configured(options)] + rest)[0]
            == ActionView::Listen(server_plan_of(options)),
        server_plan_of(options).bind_addr == options.site_addr,
        server_plan_of(options).mounts == static_mounts_of(options.site_root),
{
    let events = seq![EventView::Configured(options)] + rest;
    assert(events[0] == EventView::Configured(options));
    assert(accepts(Phase::Configuring, events[0]));
}

/// When the configuration cannot be loaded, startup aborts at once: the only
/// work ever called for is the abort, so no listener is bound, and startup
/// is stopped whatever is reported afterwards.
pub proof fn lemma_failed_configuration_binds_nothing(rest: Seq<EventView>)
    ensures
        actions_of(Phase::Configuring, seq![EventView::ConfigurationFailed] + rest) == seq![
            ActionView::Abort,
        ],
        phase_after(Phase::Configuring, seq![EventView::ConfigurationFailed] + rest)
            == Phase::Stopped,
{
    let events = seq![EventView::ConfigurationFailed] + rest;
    assert(events[0] == EventView::ConfigurationFailed);
    assert(events.drop_first() =~= rest);
    lemma_stopped_is_final(rest);
    assert(actions_of(Phase::Configuring, events) =~= seq![ActionView::Abort]);
}

/// With valid options and a listener that binds, startup listens, then
/// serves, and is left serving: nothing has called for the process to end.
pub proof fn lemma_valid_start_reaches_serving(options: SiteOptionsView)
    ensures
        actions_of(Phase::Configuring, seq![EventView::Configured(options), EventView::Bound])
            == seq![ActionView::Listen(server_plan_of(options)), ActionView::Serve],
        phase_after(Phase::Configuring, seq![EventView::Configured(options), EventView::Bound])
            == Phase::Serving,
{
    let events = seq![EventView::Configured(options), EventView::Bound];
    let rest = seq![EventView::Bound];
    assert(events.drop_first() =~= rest);
    assert(rest.drop_first() =~= Seq::<EventView>::empty());
    assert(accepts(Phase::Configuring, events[0]));
    assert(accepts(Phase::Binding, rest[0]));
    assert(actions_of(Phase::Serving, rest.drop_first()) =~= Seq::<ActionView>::empty());
    assert(actions_of(Phase::Binding, rest) =~= seq![ActionView::Serve]);
    assert(actions_of(Phase::Configuring, events) =~= seq![
        ActionView::Listen(server_plan_of(options)),
        ActionView::Serve,
    ]);
    assert(phase_after(Phase::Serving, rest.drop_first()) == Phase::Serving);
    assert(phase_after(Phase::Binding, rest) == Phase::Serving);
}

/// The work that can still be called for while serving: nothing, or one exit.
pub open spec fn line_from_serving(actions: Seq<ActionView>) -> bool {
    actions.len() == 0 || (actions.len() == 1 && actions[0] is Exit)
}

/// The work that can still be called for while binding: nothing, one exit
/// with an error, or serving and what can follow it.
pub open spec fn line_from_binding(actions: Seq<ActionView>) -> bool {
    ||| actions.len() == 0
    ||| (actions.len() == 1 && actions[0] == ActionView::Exit { success: false })
    ||| (actions[0] is Serve && line_from_serving(actions.drop_first()))
}

/// The work that a whole startup can call for: nothing, one abort, or
/// listening and what can follow it.
pub open spec fn line_from_configuring(actions: Seq<ActionView>) -> bool {
    ||| actions.len() == 0
    ||| (actions.len() == 1 && actions[0] is Abort)
    ||| (actions[0] is Listen && line_from_binding(actions.drop_first()))
}

/// The work that can still be called for from a phase.
pub open spec fn line_from(phase: Phase, actions: Seq<ActionView>) -> bool {
    match phase {
        Phase::Configuring => line_from_configuring(actions),
        Phase::Binding => line_from_binding(actions),
        Phase::Serving => line_from_serving(actions),
        Phase::Stopped => actions.len() == 0,
    }
}

/// Startup is one straight line: whatever is reported, and in whatever order,
/// the work called for is at most to listen, then to serve, then to exit,
/// cut short by an abort in place of listening or by an exit with an error in
/// place of serving. In particular a listener is bound at most once, and never
/// after an abort.
pub proof fn lemma_startup_is_one_line(phase: Phase, events: Seq<EventView>)
    ensures
        line_from(phase, actions_of(phase, events)),
        actions_of(phase, events).len() <= 3,
    decreases events.len(),
{
    if events.len() > 0 {
        let rest = events.drop_first();
        if accepts(phase, events[0]) {
            let next = next_phase(phase, events[0]);
            let tail = actions_of(next, rest);
            lemma_startup_is_one_line(next, rest);
            let all = seq![action_of(events[0])] + tail;
            assert(all.drop_first() =~= tail);
            assert(all[0] == action_of(events[0]));
            if next == Phase::Stopped {
                assert(all.len() == 1);
            }
            lemma_line_lengths(next, tail);
        } else {
            lemma_startup_is_one_line(phase, rest);
        }
    }
}

/// In a whole startup only the first piece of work can be to listen or to
/// abort: a listener is bound at most once, and never after an abort.
pub proof fn lemma_listens_at_most_once(events: Seq<EventView>)
    ensures
        forall|i: int|
            1 <= i < actions_of(Phase::Configuring, events).len() ==> {
                let action = #[trigger] actions_of(Phase::Configuring, events)[i];
                !(action is Listen) && !(action is Abort)
            },
        actions_of(Phase::Configuring, events).len() > 1 ==> actions_of(
            Phase::Configuring,
            events,
        )[0] is Listen,
{
    lemma_startup_is_one_line(Phase::Configuring, events);
}

/// How much work a line from each phase can hold.
proof fn lemma_line_lengths(phase: Phase, actions: Seq<ActionView>)
    requires
        line_from(phase, actions),
    ensures
        phase == Phase::Stopped ==> actions.len() == 0,
        phase == Phase::Serving ==> actions.len() <= 1,
        phase == Phase::Binding ==> actions.len() <= 2,
        phase == Phase::Configuring ==> actions.len() <= 3,
{
    if actions.len() > 0 {
        let tail = actions.drop_first();
        if tail.len() > 0 {
            let last = tail.drop_first();
            assert(last.len() == actions.len() - 2);
        }
    }
}

/// A listener is run only after it was bound, and bound only after the
/// configuration was loaded: serving is entered from binding alone, and
/// binding from configuring alone, by the event that reports success.
pub proof fn lemma_serving_follows_binding(phase: Phase, event: EventView)
    requires
        accepts(phase, event),
    ensures
        next_phase(phase, event) == Phase::Serving <==> phase == Phase::Binding && event is Bound,
        next_phase(phase, event) == Phase::Binding <==> phase == Phase::Configuring
            && event is Configured,
        action_of(event) is Serve <==> next_phase(phase, event) == Phase::Serving,
        action_of(event) is Listen <==> next_phase(phase, event) == Phase::Binding,
        next_phase(phase, event) != Phase::Configuring,
{
}

} // verus!
