//! The lifecycle every mesh member runs, as a state machine.
//!
//! The machine decides; the caller acts. [`Lifecycle::action`] names the one
//! operation to perform next (create the interface, read or write the device,
//! assign the address, poll for cancellation, ...), and the caller reports
//! its outcome with [`Lifecycle::step`], which returns the next action. The
//! phases `Created`, `Configured`, `Running`, `CleaningUp` and `Terminated`
//! are only ever passed forward, and every way out of startup or the loop
//! goes through cleanup before `Terminated`.
use vstd::prelude::*;
use crate::addr::{address_from_public_key, derived_address, Ipv6Address};
use crate::client::Client;
use crate::common::{
    identity_configuration, member_peer, peers_configuration, WgInterface, LINK_LOCAL_PREFIX_LEN,
};
use crate::device::{applied, ConfigView, DeviceConfiguration, DeviceSnapshot, DeviceView, Endpoint};
use crate::server::{spoke_peers, Server};

verus! {

/// The role a member plays: a closed choice of spoke or hub.
pub enum WgMaestro {
    Client(Client),
    Server(Server),
}

/// The coarse lifecycle state.
#[derive(Clone, Copy, Debug, PartialEq, Eq)]
pub enum Phase {
    Created,
    Configured,
    Running,
    CleaningUp,
    Terminated,
}

/// The step the machine is at: which outcome it waits for.
#[derive(Clone, Copy, Debug, PartialEq, Eq)]
pub enum Stage {
    Create,
    ReadInitial,
    ApplyIdentity,
    ReadKey,
    AssignAddress,
    LinkUp,
    ResolveHub,
    ApplyPeers,
    OpenListener,
    Running,
    CloseListener,
    Release,
    Terminated,
}

/// The operation that failed and sent the machine to cleanup.
#[derive(Clone, Copy, Debug, PartialEq, Eq)]
pub enum Fault {
    CreateInterface,
    ReadDevice,
    SetDevice,
    MissingPublicKey,
    AddAddress,
    LinkUp,
    ResolveHost,
    OpenListener,
    Runtime,
}

/// The outcome of the last action, as the caller observed it.
pub enum Event {
    /// The action completed.
    Done,
    /// Creating the interface failed because it already exists.
    AlreadyExists,
    /// The action failed.
    Failed,
    /// The device was read.
    Device(DeviceSnapshot),
    /// The hub's host resolved; this is the first address.
    Resolved(Endpoint),
    /// A cancellation signal arrived.
    Signal,
    /// The poll found no cancellation signal.
    Quiet,
}

/// Mathematical view of an [`Event`].
pub enum EventView {
    Done,
    AlreadyExists,
    Failed,
    Device(DeviceView),
    Resolved(Endpoint),
    Signal,
    Quiet,
}

impl View for Event {
    type V = EventView;

    open spec fn view(&self) -> EventView {
        match self {
            Event::Done => EventView::Done,
            Event::AlreadyExists => EventView::AlreadyExists,
            Event::Failed => EventView::Failed,
            Event::Device(d) => EventView::Device(d@),
            Event::Resolved(e) => EventView::Resolved(*e),
            Event::Signal => EventView::Signal,
            Event::Quiet => EventView::Quiet,
        }
    }
}

/// The next operation for the caller to perform.
#[derive(Debug, PartialEq, Eq)]
pub enum Action {
    /// Create the virtual interface `name` at the routing layer.
    CreateInterface { name: String },
    /// Read the device `name` from the control socket.
    ReadDevice { name: String },
    /// Write this diff to the control socket.
    SetDevice(DeviceConfiguration),
    /// Assign `address/prefix_len` to the interface `name`.
    AddAddress { name: String, address: Ipv6Address, prefix_len: u8 },
    /// Set the interface `name` administratively up.
    SetLinkUp { name: String },
    /// Resolve `host:port`, reporting the first address found.
    ResolveHost { host: String, port: u16 },
    /// Open the local service listener on `port`.
    OpenListener { port: u16 },
    /// Check, without blocking indefinitely, whether cancellation arrived.
    PollSignal,
    /// Close the service listener.
    CloseListener,
    /// Remove the interface `name` from the routing layer.
    DeleteInterface { name: String },
    /// Stop: with success, or after a fault.
    Exit { success: bool },
}

/// Mathematical view of an [`Action`].
pub enum ActionView {
    CreateInterface { name: Seq<char> },
    ReadDevice { name: Seq<char> },
    SetDevice { config: ConfigView },
    AddAddress { name: Seq<char>, address: Ipv6Address, prefix_len: u8 },
    SetLinkUp { name: Seq<char> },
    ResolveHost { host: Seq<char>, port: u16 },
    OpenListener { port: u16 },
    PollSignal,
    CloseListener,
    DeleteInterface { name: Seq<char> },
    Exit { success: bool },
}

impl View for Action {
    type V = ActionView;

    open spec fn view(&self) -> ActionView {
        match self {
            Action::CreateInterface { name } => ActionView::CreateInterface { name: name@ },
            Action::ReadDevice { name } => ActionView::ReadDevice { name: name@ },
            Action::SetDevice(c) => ActionView::SetDevice { config: c@ },
            Action::AddAddress { name, address, prefix_len } => ActionView::AddAddress {
                name: name@,
                address: *address,
                prefix_len: *prefix_len,
            },
            Action::SetLinkUp { name } => ActionView::SetLinkUp { name: name@ },
            Action::ResolveHost { host, port } => ActionView::ResolveHost { host: host@, port: *port },
            Action::OpenListener { port } => ActionView::OpenListener { port: *port },
            Action::PollSignal => ActionView::PollSignal,
            Action::CloseListener => ActionView::CloseListener,
            Action::DeleteInterface { name } => ActionView::DeleteInterface { name: name@ },
            Action::Exit { success } => ActionView::Exit { success: *success },
        }
    }
}

/// Mathematical view of a [`Lifecycle`].
pub struct LifecycleView {
    pub role: WgMaestro,
    pub stage: Stage,
    pub device: Option<DeviceView>,
    pub local_address: Option<Ipv6Address>,
    pub hub_endpoint: Option<Endpoint>,
    pub attached: bool,
    pub listening: bool,
    pub fault: Option<Fault>,
}

/// Whether the role is the hub.
pub open spec fn is_server(r: WgMaestro) -> bool {
    r is Server
}

/// The name of the role's interface.
pub open spec fn interface_name(r: WgMaestro) -> Seq<char> {
    match r {
        WgMaestro::Client(c) => c.config.interface_name@,
        WgMaestro::Server(s) => s.config.interface_name@,
    }
}

/// The first diff the role applies to a device in state `d`.
pub open spec fn role_identity(r: WgMaestro, d: DeviceView) -> ConfigView {
    match r {
        WgMaestro::Client(c) => identity_configuration(
            d,
            c.config.private_key,
            c.config.wireguard_port,
            c.config.fwmark,
        ),
        WgMaestro::Server(s) => identity_configuration(
            d,
            s.config.private_key,
            s.config.wireguard_port,
            s.config.fwmark,
        ),
    }
}

/// The diff that installs the role's peers on a device in state `d`; `hub`
/// is where a spoke reaches its hub.
pub open spec fn role_peers(r: WgMaestro, d: DeviceView, hub: Option<Endpoint>) -> ConfigView {
    match r {
        WgMaestro::Client(c) => peers_configuration(d, seq![member_peer(c.config.server.public_key, hub)]),
        WgMaestro::Server(s) => peers_configuration(d, spoke_peers(s.config.clients@)),
    }
}

/// Position of a stage in the forward order.
pub open spec fn stage_rank(s: Stage) -> int {
    match s {
        Stage::Create => 0,
        Stage::ReadInitial => 1,
        Stage::ApplyIdentity => 2,
        Stage::ReadKey => 3,
        Stage::AssignAddress => 4,
        Stage::LinkUp => 5,
        Stage::ResolveHub => 6,
        Stage::ApplyPeers => 7,
        Stage::OpenListener => 8,
        Stage::Running => 9,
        Stage::CloseListener => 10,
        Stage::Release => 11,
        Stage::Terminated => 12,
    }
}

/// The phase a stage belongs to.
pub open spec fn phase_of(s: Stage) -> Phase {
    if stage_rank(s) <= 2 {
        Phase::Created
    } else if stage_rank(s) <= 8 {
        Phase::Configured
    } else if s == Stage::Running {
        Phase::Running
    } else if s == Stage::Terminated {
        Phase::Terminated
    } else {
        Phase::CleaningUp
    }
}

/// Position of a phase in the forward order.
pub open spec fn phase_rank(p: Phase) -> int {
    match p {
        Phase::Created => 0,
        Phase::Configured => 1,
        Phase::Running => 2,
        Phase::CleaningUp => 3,
        Phase::Terminated => 4,
    }
}

/// The state a fresh machine for `role` starts in.
pub open spec fn initial(role: WgMaestro) -> LifecycleView {
    LifecycleView {
        role: role,
        stage: Stage::Create,
        device: None,
        local_address: None,
        hub_endpoint: None,
        attached: false,
        listening: false,
        fault: None,
    }
}

/// The first cleanup stage with work left: close the listener if open, then
/// release the interface if attached.
pub open spec fn cleanup_entry(listening: bool, attached: bool) -> Stage {
    if listening {
        Stage::CloseListener
    } else if attached {
        Stage::Release
    } else {
        Stage::Terminated
    }
}

/// Enters cleanup, recording `fault` (`None` for a requested shutdown).
pub open spec fn begin_cleanup(v: LifecycleView, fault: Option<Fault>) -> LifecycleView {
    LifecycleView { stage: cleanup_entry(v.listening, v.attached), fault: fault, ..v }
}

/// The state a startup stage moves to on the outcome it waits for, or
/// `None` where `e` is not that outcome.
pub open spec fn advance(v: LifecycleView, e: EventView) -> Option<LifecycleView> {
    match (v.stage, e) {
        (Stage::Create, EventView::Done) => Some(
            LifecycleView { stage: Stage::ReadInitial, attached: true, ..v },
        ),
        (Stage::Create, EventView::AlreadyExists) => Some(
            LifecycleView { stage: Stage::ReadInitial, attached: true, ..v },
        ),
        (Stage::ReadInitial, EventView::Device(d)) => Some(
            LifecycleView { stage: Stage::ApplyIdentity, device: Some(d), ..v },
        ),
        (Stage::ApplyIdentity, EventView::Done) => Some(
            LifecycleView {
                stage: Stage::ReadKey,
                device: Some(applied(v.device.unwrap(), role_identity(v.role, v.device.unwrap()))),
                ..v
            },
        ),
        (Stage::ReadKey, EventView::Device(d)) => match d.public_key {
            Some(k) => Some(
                LifecycleView {
                    stage: Stage::AssignAddress,
                    device: Some(d),
                    local_address: Some(derived_address(k)),
                    ..v
                },
            ),
            None => None,
        },
        (Stage::AssignAddress, EventView::Done) => Some(LifecycleView { stage: Stage::LinkUp, ..v }),
        (Stage::LinkUp, EventView::Done) => Some(
            LifecycleView {
                stage: if is_server(v.role) { Stage::ApplyPeers } else { Stage::ResolveHub },
                ..v
            },
        ),
        (Stage::ResolveHub, EventView::Resolved(ep)) => Some(
            LifecycleView { stage: Stage::ApplyPeers, hub_endpoint: Some(ep), ..v },
        ),
        (Stage::ApplyPeers, EventView::Done) => Some(
            LifecycleView {
                stage: if is_server(v.role) { Stage::OpenListener } else { Stage::Running },
                device: Some(applied(v.device.unwrap(), role_peers(v.role, v.device.unwrap(), v.hub_endpoint))),
                ..v
            },
        ),
        (Stage::OpenListener, EventView::Done) => Some(
            LifecycleView { stage: Stage::Running, listening: true, ..v },
        ),
        _ => None,
    }
}

/// The fault a startup stage records when `e` is not the outcome it waits
/// for.
pub open spec fn startup_fault(s: Stage, e: EventView) -> Fault {
    match s {
        Stage::Create => Fault::CreateInterface,
        Stage::ReadInitial => Fault::ReadDevice,
        Stage::ApplyIdentity => Fault::SetDevice,
        Stage::ReadKey => if e is Device { Fault::MissingPublicKey } else { Fault::ReadDevice },
        Stage::AssignAddress => Fault::AddAddress,
        Stage::LinkUp => Fault::LinkUp,
        Stage::ResolveHub => Fault::ResolveHost,
        Stage::ApplyPeers => Fault::SetDevice,
        _ => Fault::OpenListener,
    }
}

/// The transition on event `e`.
///
/// During startup the awaited outcome advances, a signal shuts down cleanly,
/// a quiet poll changes nothing, and anything else is fatal. While running,
/// a signal starts cleanup, a failure starts cleanup with a fault, and
/// anything else is one more (empty) tick. In cleanup, signals and quiet
/// polls are ignored, and any outcome of the pending step, success or not,
/// moves on: teardown is best effort. `Terminated` is final.
pub open spec fn next(v: LifecycleView, e: EventView) -> LifecycleView {
    if stage_rank(v.stage) <= 8 {
        match e {
            EventView::Signal => begin_cleanup(v, None),
            EventView::Quiet => v,
            _ => match advance(v, e) {
                Some(w) => w,
                None => begin_cleanup(v, Some(startup_fault(v.stage, e))),
            },
        }
    } else if v.stage == Stage::Running {
        match e {
            EventView::Signal => begin_cleanup(v, None),
            EventView::Failed => begin_cleanup(v, Some(Fault::Runtime)),
            _ => v,
        }
    } else if v.stage == Stage::Terminated || e is Signal || e is Quiet {
        v
    } else if v.stage == Stage::CloseListener {
        LifecycleView { stage: cleanup_entry(false, v.attached), listening: false, ..v }
    } else {
        LifecycleView { stage: Stage::Terminated, attached: false, ..v }
    }
}

/// The action the machine asks for in state `v`.
pub open spec fn action_of(v: LifecycleView) -> ActionView {
    let name = interface_name(v.role);
    match v.stage {
        Stage::Create => ActionView::CreateInterface { name },
        Stage::ReadInitial => ActionView::ReadDevice { name },
        Stage::ApplyIdentity => ActionView::SetDevice {
            config: role_identity(v.role, v.device.unwrap()),
        },
        Stage::ReadKey => ActionView::ReadDevice { name },
        Stage::AssignAddress => ActionView::AddAddress {
            name,
            address: v.local_address.unwrap(),
            prefix_len: LINK_LOCAL_PREFIX_LEN,
        },
        Stage::LinkUp => ActionView::SetLinkUp { name },
        Stage::ResolveHub => match v.role {
            WgMaestro::Client(c) => ActionView::ResolveHost {
                host: c.config.server.host@,
                port: c.config.server.wireguard_port,
            },
            WgMaestro::Server(_) => ActionView::PollSignal,
        },
        Stage::ApplyPeers => ActionView::SetDevice {
            config: role_peers(v.role, v.device.unwrap(), v.hub_endpoint),
        },
        Stage::OpenListener => match v.role {
            WgMaestro::Server(s) => ActionView::OpenListener { port: s.config.maestro_port },
            WgMaestro::Client(_) => ActionView::PollSignal,
        },
        Stage::Running => ActionView::PollSignal,
        Stage::CloseListener => ActionView::CloseListener,
        Stage::Release => ActionView::DeleteInterface { name },
        Stage::Terminated => ActionView::Exit { success: v.fault is None },
    }
}

/// The states the machine can be in.
pub open spec fn wf(v: LifecycleView) -> bool {
    let r = stage_rank(v.stage);
    &&& 2 <= r <= 9 ==> v.device is Some
    &&& 4 <= r <= 9 ==> v.local_address is Some
    &&& (v.stage == Stage::ApplyPeers && !is_server(v.role)) ==> v.hub_endpoint is Some
    &&& v.stage == Stage::ResolveHub ==> !is_server(v.role)
    &&& v.stage == Stage::OpenListener ==> is_server(v.role)
    &&& v.stage == Stage::Create ==> !v.attached
    &&& 1 <= r <= 9 ==> v.attached
    &&& r <= 8 ==> !v.listening
    &&& v.stage == Stage::Running ==> (v.listening <==> is_server(v.role))
    &&& v.stage == Stage::CloseListener ==> v.listening
    &&& v.stage == Stage::Release ==> v.attached && !v.listening
    &&& v.stage == Stage::Terminated ==> !v.attached && !v.listening
    &&& r <= 9 ==> v.fault is None
}

/// The state after the events `evs`, in order, starting from `v`.
pub open spec fn run(v: LifecycleView, evs: Seq<EventView>) -> LifecycleView
    decreases evs.len(),
{
    if evs.len() == 0 {
        v
    } else {
        next(run(v, evs.drop_last()), evs.last())
    }
}

/// How many of `evs` are outcomes of an action, rather than signals or
/// quiet polls.
pub open spec fn outcomes(evs: Seq<EventView>) -> nat
    decreases evs.len(),
{
    if evs.len() == 0 {
        0
    } else {
        outcomes(evs.drop_last()) + if evs.last() is Signal || evs.last() is Quiet { 0nat } else { 1nat }
    }
}

/// Cleanup steps left: the open listener and the attached interface.
pub open spec fn cleanup_left(v: LifecycleView) -> nat {
    (if v.listening { 1nat } else { 0nat }) + (if v.attached { 1nat } else { 0nat })
}

/// Every transition keeps the machine in a reachable state.
pub proof fn lemma_next_wf(v: LifecycleView, e: EventView)
    requires
        wf(v),
    ensures
        wf(next(v, e)),
{
}

/// Transitions only go forward: neither the stage nor the phase ever moves
/// back, and `Terminated` is final.
pub proof fn lemma_forward(v: LifecycleView, e: EventView)
    ensures
        stage_rank(next(v, e).stage) >= stage_rank(v.stage),
        phase_rank(phase_of(next(v, e).stage)) >= phase_rank(phase_of(v.stage)),
        v.stage == Stage::Terminated ==> next(v, e) == v,
{
}

/// Over any sequence of events the stage never moves back, and reachable
/// states stay reachable.
pub proof fn lemma_run_forward(v: LifecycleView, evs: Seq<EventView>)
    requires
        wf(v),
    ensures
        wf(run(v, evs)),
        stage_rank(run(v, evs).stage) >= stage_rank(v.stage),
        phase_rank(phase_of(run(v, evs).stage)) >= phase_rank(phase_of(v.stage)),
    decreases evs.len(),
{
    if evs.len() > 0 {
        lemma_run_forward(v, evs.drop_last());
        lemma_next_wf(run(v, evs.drop_last()), evs.last());
        lemma_forward(run(v, evs.drop_last()), evs.last());
    }
}

/// Attaching to an interface that already exists is not an error: the
/// machine goes on exactly as after creating it, and reads the device next.
pub proof fn lemma_idempotent_attach(v: LifecycleView)
    requires
        wf(v),
        v.stage == Stage::Create,
    ensures
        next(v, EventView::AlreadyExists) == next(v, EventView::Done),
        next(v, EventView::AlreadyExists).stage == Stage::ReadInitial,
        next(v, EventView::AlreadyExists).fault is None,
        action_of(next(v, EventView::AlreadyExists)) == (ActionView::ReadDevice {
            name: interface_name(v.role),
        }),
{
}

/// In cleanup, signals and quiet polls change nothing, each other event
/// completes one pending teardown step, the fault is kept, and the machine
/// never leaves cleanup but for `Terminated`.
proof fn lemma_cleanup_progress(c: LifecycleView, evs: Seq<EventView>)
    requires
        wf(c),
        stage_rank(c.stage) >= 10,
    ensures
        stage_rank(run(c, evs).stage) >= 10,
        wf(run(c, evs)),
        run(c, evs).fault == c.fault,
        cleanup_left(run(c, evs)) == 0 || cleanup_left(run(c, evs)) + outcomes(evs) <= cleanup_left(c),
        run(c, evs).stage == Stage::Terminated <==> cleanup_left(run(c, evs)) == 0,
    decreases evs.len(),
{
    if evs.len() > 0 {
        lemma_cleanup_progress(c, evs.drop_last());
        lemma_next_wf(run(c, evs.drop_last()), evs.last());
    }
}

/// One cancellation signal while running starts cleanup exactly once: the
/// machine is then in `CleaningUp`, further signals are ignored, it never
/// returns to `Running`, it reaches `Terminated` once the two teardown
/// steps (listener, interface) have reported back, and it exits with success.
pub proof fn lemma_cancel_cleans_up(v: LifecycleView, evs: Seq<EventView>)
    requires
        wf(v),
        v.stage == Stage::Running,
    ensures
        phase_of(next(v, EventView::Signal).stage) == Phase::CleaningUp,
        next(next(v, EventView::Signal), EventView::Signal) == next(v, EventView::Signal),
        phase_of(run(next(v, EventView::Signal), evs).stage) == Phase::CleaningUp
            || phase_of(run(next(v, EventView::Signal), evs).stage) == Phase::Terminated,
        run(next(v, EventView::Signal), evs).fault is None,
        outcomes(evs) >= 2 ==> run(next(v, EventView::Signal), evs).stage == Stage::Terminated,
        run(next(v, EventView::Signal), evs).stage == Stage::Terminated ==> action_of(
            run(next(v, EventView::Signal), evs),
        ) == (ActionView::Exit { success: true }),
{
    let c = next(v, EventView::Signal);
    lemma_next_wf(v, EventView::Signal);
    lemma_cleanup_progress(c, evs);
}

/// When the control socket refuses the first configuration, the machine
/// never reaches `Running`: it cleans up and exits with a failure.
pub proof fn lemma_identity_failure_stops_startup(v: LifecycleView, evs: Seq<EventView>)
    requires
        wf(v),
        v.stage == Stage::ApplyIdentity,
    ensures
        next(v, EventView::Failed).fault == Some(Fault::SetDevice),
        phase_of(next(v, EventView::Failed).stage) == Phase::CleaningUp,
        run(next(v, EventView::Failed), evs).stage != Stage::Running,
        run(next(v, EventView::Failed), evs).fault == Some(Fault::SetDevice),
        run(next(v, EventView::Failed), evs).stage == Stage::Terminated ==> action_of(
            run(next(v, EventView::Failed), evs),
        ) == (ActionView::Exit { success: false }),
{
    let f = next(v, EventView::Failed);
    lemma_next_wf(v, EventView::Failed);
    lemma_cleanup_progress(f, evs);
}

/// A member's lifecycle: its role, the step it is at, and what it has
/// learned and set up so far.
pub struct Lifecycle {
    role: WgMaestro,
    stage: Stage,
    wg: Option<WgInterface>,
    local_address: Option<Ipv6Address>,
    hub_endpoint: Option<Endpoint>,
    attached: bool,
    listening: bool,
    fault: Option<Fault>,
}

impl View for Lifecycle {
    type V = LifecycleView;

    closed spec fn view(&self) -> LifecycleView {
        LifecycleView {
            role: self.role,
            stage: self.stage,
            device: match self.wg {
                Some(w) => Some(w.device()@),
                None => None,
            },
            local_address: self.local_address,
            hub_endpoint: self.hub_endpoint,
            attached: self.attached,
            listening: self.listening,
            fault: self.fault,
        }
    }
}

/// Position of `s` in the forward order.
fn rank(s: Stage) -> (r: u8)
    ensures
        r == stage_rank(s),
{
    match s {
        Stage::Create => 0,
        Stage::ReadInitial => 1,
        Stage::ApplyIdentity => 2,
        Stage::ReadKey => 3,
        Stage::AssignAddress => 4,
        Stage::LinkUp => 5,
        Stage::ResolveHub => 6,
        Stage::ApplyPeers => 7,
        Stage::OpenListener => 8,
        Stage::Running => 9,
        Stage::CloseListener => 10,
        Stage::Release => 11,
        Stage::Terminated => 12,
    }
}

impl Lifecycle {
    /// A machine for `role`, about to create its interface.
    pub fn new(role: WgMaestro) -> (r: Lifecycle)
        ensures
            r@ == initial(role),
            wf(r@),
    {
        Lifecycle {
            role,
            stage: Stage::Create,
            wg: None,
            local_address: None,
            hub_endpoint: None,
            attached: false,
            listening: false,
            fault: None,
        }
    }

    /// The current phase.
    pub fn phase(&self) -> (p: Phase)
        ensures
            p == phase_of(self@.stage),
    {
        let r = rank(self.stage);
        if r <= 2 {
            Phase::Created
        } else if r <= 8 {
            Phase::Configured
        } else if r == 9 {
            Phase::Running
        } else if r == 12 {
            Phase::Terminated
        } else {
            Phase::CleaningUp
        }
    }

    /// The current stage.
    pub fn stage(&self) -> (s: Stage)
        ensures
            s == self@.stage,
    {
        self.stage
    }

    /// The fault that sent the machine to cleanup, if any.
    pub fn fault(&self) -> (f: Option<Fault>)
        ensures
            f == self@.fault,
    {
        self.fault
    }

    /// This member's own link-local address, once derived.
    pub fn local_address(&self) -> (a: Option<Ipv6Address>)
        ensures
            a == self@.local_address,
    {
        self.local_address
    }

    fn interface_name(&self) -> (r: &String)
        ensures
            r@ == interface_name(self@.role),
    {
        match &self.role {
            WgMaestro::Client(c) => &c.config.interface_name,
            WgMaestro::Server(s) => &s.config.interface_name,
        }
    }

    fn identity_config(&self) -> (r: DeviceConfiguration)
        requires
            self@.device is Some,
        ensures
            r@ == role_identity(self@.role, self@.device.unwrap()),
    {
        let w = self.wg.as_ref().unwrap();
        match &self.role {
            WgMaestro::Client(c) => c.initial_configuration(w),
            WgMaestro::Server(s) => s.initial_configuration(w),
        }
    }

    fn peers_config(&self) -> (r: DeviceConfiguration)
        requires
            self@.device is Some,
            !is_server(self@.role) ==> self@.hub_endpoint is Some,
        ensures
            r@ == role_peers(self@.role, self@.device.unwrap(), self@.hub_endpoint),
    {
        let w = self.wg.as_ref().unwrap();
        match &self.role {
            WgMaestro::Client(c) => c.peer_configuration(w, self.hub_endpoint.unwrap()),
            WgMaestro::Server(s) => s.peer_configuration(w),
        }
    }

    /// Records that the control socket accepted `c`.
    fn record_applied(&mut self, c: &DeviceConfiguration)
        requires
            old(self)@.device is Some,
        ensures
            final(self)@ == (LifecycleView {
                device: Some(applied(old(self)@.device.unwrap(), c@)),
                ..old(self)@
            }),
    {
        match &mut self.wg {
            Some(w) => w.record_applied(c),
            None => {},
        }
    }

    fn begin_cleanup(&mut self, fault: Option<Fault>)
        ensures
            final(self)@ == begin_cleanup(old(self)@, fault),
    {
        self.stage = if self.listening {
            Stage::CloseListener
        } else if self.attached {
            Stage::Release
        } else {
            Stage::Terminated
        };
        self.fault = fault;
    }

    /// Moves a startup stage forward on the outcome it waits for; reports
    /// `false`, changing nothing, on any other event.
    fn advance(&mut self, e: Event) -> (ok: bool)
        requires
            wf(old(self)@),
            stage_rank(old(self)@.stage) <= 8,
        ensures
            ok <==> advance(old(self)@, e@) is Some,
            ok ==> final(self)@ == advance(old(self)@, e@).unwrap(),
            !ok ==> final(self)@ == old(self)@,
    {
        match self.stage {
            Stage::Create => match e {
                Event::Done | Event::AlreadyExists => {
                    self.stage = Stage::ReadInitial;
                    self.attached = true;
                    true
                },
                _ => false,
            },
            Stage::ReadInitial => match e {
                Event::Device(d) => {
                    self.wg = Some(WgInterface::from_snapshot(d));
                    self.stage = Stage::ApplyIdentity;
                    true
                },
                _ => false,
            },
            Stage::ApplyIdentity => match e {
                Event::Done => {
                    let c = self.identity_config();
                    self.record_applied(&c);
                    self.stage = Stage::ReadKey;
                    true
                },
                _ => false,
            },
            Stage::ReadKey => match e {
                Event::Device(d) => match d.public_key {
                    Some(k) => {
                        self.local_address = Some(address_from_public_key(&k));
                        self.wg = Some(WgInterface::from_snapshot(d));
                        self.stage = Stage::AssignAddress;
                        true
                    },
                    None => false,
                },
                _ => false,
            },
            Stage::AssignAddress => match e {
                Event::Done => {
                    self.stage = Stage::LinkUp;
                    true
                },
                _ => false,
            },
            Stage::LinkUp => match e {
                Event::Done => {
                    self.stage = match self.role {
                        WgMaestro::Server(_) => Stage::ApplyPeers,
                        WgMaestro::Client(_) => Stage::ResolveHub,
                    };
                    true
                },
                _ => false,
            },
            Stage::ResolveHub => match e {
                Event::Resolved(ep) => {
                    self.hub_endpoint = Some(ep);
                    self.stage = Stage::ApplyPeers;
                    true
                },
                _ => false,
            },
            Stage::ApplyPeers => match e {
                Event::Done => {
                    let c = self.peers_config();
                    self.record_applied(&c);
                    self.stage = match self.role {
                        WgMaestro::Server(_) => Stage::OpenListener,
                        WgMaestro::Client(_) => Stage::Running,
                    };
                    true
                },
                _ => false,
            },
            _ => match e {
                Event::Done => {
                    self.listening = true;
                    self.stage = Stage::Running;
                    true
                },
                _ => false,
            },
        }
    }

    /// The action the machine asks for now.
    pub fn action(&self) -> (a: Action)
        requires
            wf(self@),
        ensures
            a@ == action_of(self@),
    {
        match self.stage {
            Stage::Create => Action::CreateInterface { name: self.interface_name().clone() },
            Stage::ReadInitial => Action::ReadDevice { name: self.interface_name().clone() },
            Stage::ApplyIdentity => Action::SetDevice(self.identity_config()),
            Stage::ReadKey => Action::ReadDevice { name: self.interface_name().clone() },
            Stage::AssignAddress => match self.local_address {
                Some(address) => Action::AddAddress {
                    name: self.interface_name().clone(),
                    address,
                    prefix_len: LINK_LOCAL_PREFIX_LEN,
                },
                None => Action::PollSignal,
            },
            Stage::LinkUp => Action::SetLinkUp { name: self.interface_name().clone() },
            Stage::ResolveHub => match &self.role {
                WgMaestro::Client(c) => Action::ResolveHost {
                    host: c.config.server.host.clone(),
                    port: c.config.server.wireguard_port,
                },
                WgMaestro::Server(_) => Action::PollSignal,
            },
            Stage::ApplyPeers => Action::SetDevice(self.peers_config()),
            Stage::OpenListener => match &self.role {
                WgMaestro::Server(s) => Action::OpenListener { port: s.config.maestro_port },
                WgMaestro::Client(_) => Action::PollSignal,
            },
            Stage::Running => Action::PollSignal,
            Stage::CloseListener => Action::CloseListener,
            Stage::Release => Action::DeleteInterface { name: self.interface_name().clone() },
            Stage::Terminated => Action::Exit { success: self.fault.is_none() },
        }
    }

    /// Takes the outcome of the last action and returns the next action.
    pub fn step(&mut self, e: Event) -> (a: Action)
        requires
            wf(old(self)@),
        ensures
            final(self)@ == next(old(self)@, e@),
            wf(final(self)@),
            a@ == action_of(final(self)@),
    {
        proof {
            lemma_next_wf(self@, e@);
        }
        let r = rank(self.stage);
        if r <= 8 {
            match e {
                Event::Signal => self.begin_cleanup(None),
                Event::Quiet => {},
                e => {
                    let fault = match self.stage {
                        Stage::Create => Fault::CreateInterface,
                        Stage::ReadInitial => Fault::ReadDevice,
                        Stage::ApplyIdentity => Fault::SetDevice,
                        Stage::ReadKey => match e {
                            Event::Device(_) => Fault::MissingPublicKey,
                            _ => Fault::ReadDevice,
                        },
                        Stage::AssignAddress => Fault::AddAddress,
                        Stage::LinkUp => Fault::LinkUp,
                        Stage::ResolveHub => Fault::ResolveHost,
                        Stage::ApplyPeers => Fault::SetDevice,
                        _ => Fault::OpenListener,
                    };
                    assert(fault == startup_fault(self@.stage, e@));
                    if !self.advance(e) {
                        self.begin_cleanup(Some(fault));
                    }
                },
            }
        } else if r == 9 {
            match e {
                Event::Signal => self.begin_cleanup(None),
                Event::Failed => self.begin_cleanup(Some(Fault::Runtime)),
                _ => {},
            }
        } else if r == 12 {
        } else {
            match e {
                Event::Signal | Event::Quiet => {},
                _ => {
                    if r == 10 {
                        self.listening = false;
                        self.stage = if self.attached {
                            Stage::Release
                        } else {
                            Stage::Terminated
                        };
                    } else {
                        self.attached = false;
                        self.stage = Stage::Terminated;
                    }
                },
            }
        }
        self.action()
    }
}

} // verus!
