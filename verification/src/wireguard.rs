//! The tunnel lifecycle manager: building the native configuration values
//! out of the stored peer settings, and the state machine that owns the one
//! global tunnel context — created only by a successful start, destroyed
//! only by an explicit end, and never leaked by a failed connect.
//!
//! The native library's `init`, `connect`, `peer_is_up`, `set_default_route`
//! and `disconnect` run outside, on the network stack's own execution
//! context; here each run is decided and recorded, and the contracts pin
//! exactly which calls are made on which outcomes.

use vstd::prelude::*;
use crate::nvs::WgConfig;
use crate::strings::{clean_seq, dec_value, parse_u16, valid_u16_str, HeaplessString};

verus! {

/// How many times a fresh tunnel polls its peer before giving up and
/// unwinding.
pub const MAX_WG_ATTEMPTS: u32 = 10;

/// How many one-second waits time synchronisation is given before it is
/// declared failed.
pub const MAX_SNTP_ATTEMPTS: u32 = 10;

/// The local port the tunnel listens on.
pub const WG_LISTEN_PORT: u16 = 51820;

/// The fixed persistent-keepalive interval, in seconds.
pub const WG_KEEPALIVE_SECS: u16 = 20;

/// Error of the tunnel module.
#[derive(Clone, Copy, Debug, PartialEq, Eq, Structural)]
pub enum TunnelError {
    /// The stored peer port is not a decimal number within range.
    BadPort,
    /// Time never reported synchronised within the attempt budget.
    TimeSyncFailed,
}

/// The plain-value part of the native tunnel configuration: what the
/// foreign configuration struct is filled with. The allowed-IP range is
/// fixed to all traffic and carries no field here.
#[derive(Debug)]
pub struct TunnelConfig {
    /// Peer endpoint host.
    pub endpoint: HeaplessString<32>,
    /// Peer endpoint port.
    pub port: u16,
    /// Local private key.
    pub private_key: HeaplessString<64>,
    /// Peer public key.
    pub public_key: HeaplessString<64>,
    /// Local listen port, fixed.
    pub listen_port: u16,
    /// Keepalive seconds, fixed.
    pub persistent_keepalive: u16,
}

impl TunnelConfig {
    /// Every text field within its width.
    pub open spec fn wf(&self) -> bool {
        self.endpoint.wf() && self.private_key.wf() && self.public_key.wf()
    }
}

/// Builds the native configuration values out of the stored peer settings:
/// every text sanitised, the port read as a number, the listen port and
/// keepalive fixed. A port that is not a decimal number in range is the one
/// rejection.
pub fn build_tunnel_config(cfg: &WgConfig) -> (r: Result<TunnelConfig, TunnelError>)
    requires
        cfg.wf(),
    ensures
        match r {
            Ok(c) => {
                &&& valid_u16_str(clean_seq(cfg.port@))
                &&& c.port == dec_value(clean_seq(cfg.port@))
                &&& c.endpoint@ == clean_seq(cfg.address@)
                &&& c.private_key@ == clean_seq(cfg.client_private_key@)
                &&& c.public_key@ == clean_seq(cfg.server_public_key@)
                &&& c.listen_port == WG_LISTEN_PORT
                &&& c.persistent_keepalive == WG_KEEPALIVE_SECS
                &&& c.wf()
            },
            Err(e) => e == TunnelError::BadPort && !valid_u16_str(clean_seq(cfg.port@)),
        },
{
    let port_text = cfg.port.clean_string();
    match parse_u16(port_text.as_str()) {
        Some(port) => Ok(
            TunnelConfig {
                endpoint: cfg.address.clean_string(),
                port,
                private_key: cfg.client_private_key.clean_string(),
                public_key: cfg.server_public_key.clean_string(),
                listen_port: WG_LISTEN_PORT,
                persistent_keepalive: WG_KEEPALIVE_SECS,
            },
        ),
        None => Err(TunnelError::BadPort),
    }
}

/// One call into the native tunnel library, in the order made.
#[derive(Clone, Copy, Debug, PartialEq, Eq, Structural)]
pub enum NativeCall {
    Init,
    Connect,
    PollPeer,
    SetDefaultRoute,
    Disconnect,
}

/// What a start request ended as.
#[derive(Clone, Copy, Debug, PartialEq, Eq, Structural)]
pub enum StartOutcome {
    /// The tunnel is up and stored as the active context.
    Started,
    /// A tunnel was already active; the request was refused before any
    /// native call.
    AlreadyActive,
    /// Native `init` failed; propagated.
    InitFailed,
    /// Native `connect` failed; propagated.
    ConnectFailed,
    /// The peer never came up within the attempt budget; the native state
    /// was unwound by `disconnect`.
    PeerUnreachable,
    /// Setting the default route failed; propagated.
    RouteFailed,
}

/// What an end request ended as.
#[derive(Clone, Copy, Debug, PartialEq, Eq, Structural)]
pub enum EndOutcome {
    /// The tunnel was torn down and the context released.
    Ended,
    /// No tunnel was active; nothing was called.
    NotActive,
    /// Native `disconnect` failed; the context stays stored.
    DisconnectFailed,
}

/// The first poll at which the peer reported up, if any.
pub open spec fn first_up(polls: Seq<bool>) -> Option<int>
    decreases polls.len(),
{
    if polls.len() == 0 {
        None
    } else if polls[0] {
        Some(0int)
    } else {
        match first_up(polls.drop_first()) {
            Some(k) => Some(k + 1),
            None => None,
        }
    }
}

/// `k` poll calls in a row.
pub open spec fn poll_calls(k: int) -> Seq<NativeCall> {
    Seq::new(k as nat, |x: int| NativeCall::PollPeer)
}

/// The exact native calls a start request makes, given what was active and
/// how each native step answered.
pub open spec fn start_trace(
    active: bool,
    init_ok: bool,
    connect_ok: bool,
    polls: Seq<bool>,
    route_ok: bool,
) -> Seq<NativeCall> {
    if active {
        Seq::empty()
    } else if !init_ok {
        seq![NativeCall::Init]
    } else if !connect_ok {
        seq![NativeCall::Init, NativeCall::Connect]
    } else {
        match first_up(polls) {
            Some(k) => seq![NativeCall::Init, NativeCall::Connect] + poll_calls(k + 1)
                + seq![NativeCall::SetDefaultRoute],
            None => seq![NativeCall::Init, NativeCall::Connect] + poll_calls(
                MAX_WG_ATTEMPTS as int,
            ) + seq![NativeCall::Disconnect],
        }
    }
}

/// The outcome of a start request, given the same answers.
pub open spec fn start_outcome_spec(
    active: bool,
    init_ok: bool,
    connect_ok: bool,
    polls: Seq<bool>,
    route_ok: bool,
) -> StartOutcome {
    if active {
        StartOutcome::AlreadyActive
    } else if !init_ok {
        StartOutcome::InitFailed
    } else if !connect_ok {
        StartOutcome::ConnectFailed
    } else {
        match first_up(polls) {
            Some(k) => if route_ok {
                StartOutcome::Started
            } else {
                StartOutcome::RouteFailed
            },
            None => StartOutcome::PeerUnreachable,
        }
    }
}

/// The active context after a start request: filled exactly by a fully
/// successful one, untouched otherwise.
pub open spec fn start_slot_spec(
    old_slot: Option<TunnelConfig>,
    config: TunnelConfig,
    init_ok: bool,
    connect_ok: bool,
    polls: Seq<bool>,
    route_ok: bool,
) -> Option<TunnelConfig> {
    if start_outcome_spec(old_slot is Some, init_ok, connect_ok, polls, route_ok)
        == StartOutcome::Started {
        Some(config)
    } else {
        old_slot
    }
}

/// The exact native calls an end request makes.
pub open spec fn end_trace(active: bool) -> Seq<NativeCall> {
    if active {
        seq![NativeCall::Disconnect]
    } else {
        Seq::empty()
    }
}

/// The outcome of an end request.
pub open spec fn end_outcome_spec(active: bool, disconnect_ok: bool) -> EndOutcome {
    if !active {
        EndOutcome::NotActive
    } else if disconnect_ok {
        EndOutcome::Ended
    } else {
        EndOutcome::DisconnectFailed
    }
}

/// The active context after an end request: cleared exactly by a
/// successful teardown.
pub open spec fn end_slot_spec(old_slot: Option<TunnelConfig>, disconnect_ok: bool) -> Option<
    TunnelConfig,
> {
    match old_slot {
        Some(c) => if disconnect_ok {
            None
        } else {
            Some(c)
        },
        None => None,
    }
}

proof fn lemma_first_up_at(polls: Seq<bool>, k: int)
    requires
        0 <= k < polls.len(),
        polls[k],
        forall|j: int| 0 <= j < k ==> !polls[j],
    ensures
        first_up(polls) == Some(k),
    decreases k,
{
    if k > 0 {
        lemma_first_up_at(polls.drop_first(), k - 1);
    }
}

proof fn lemma_first_up_none(polls: Seq<bool>)
    requires
        forall|j: int| 0 <= j < polls.len() ==> !polls[j],
    ensures
        first_up(polls) is None,
    decreases polls.len(),
{
    if polls.len() > 0 {
        lemma_first_up_none(polls.drop_first());
    }
}

/// The stored native context pair: configuration and context object, as one
/// value. It exists only inside the manager's slot.
pub struct TunnelSession {
    pub config: TunnelConfig,
}

/// The single, globally reachable owner of the tunnel context: the one
/// place that may create it, query it and destroy it. Its lock lives
/// outside; every access goes through that lock, so each method sees the
/// slot alone.
pub struct TunnelManager {
    slot: Option<TunnelSession>,
}

impl TunnelManager {
    /// The active context, as the configuration it was started with.
    /// `Some` exactly while a tunnel is believed established.
    pub closed spec fn active(&self) -> Option<TunnelConfig> {
        match self.slot {
            Some(s) => Some(s.config),
            None => None,
        }
    }

    /// A manager with no tunnel.
    pub fn new() -> (r: TunnelManager)
        ensures
            r.active() is None,
    {
        TunnelManager { slot: None }
    }

    /// Whether a tunnel context is stored — the null check of the global
    /// slot.
    pub fn is_active(&self) -> (r: bool)
        ensures
            r == (self.active() is Some),
    {
        match self.slot {
            Some(_) => true,
            None => false,
        }
    }

    /// The status the configuration layer may query: the configured peer
    /// endpoint while a tunnel is up, nothing otherwise.
    pub fn status(&self) -> (r: Option<HeaplessString<32>>)
        ensures
            match self.active() {
                Some(c) => r matches Some(e) && e@ == c.endpoint@,
                None => r is None,
            },
    {
        match &self.slot {
            Some(s) => Some(s.config.endpoint.clone()),
            None => None,
        }
    }

    /// Runs one start request to its end.
    ///
    /// The answers of the native steps come in as plain values: whether
    /// `init` and `connect` succeeded, what each of the up to
    /// [`MAX_WG_ATTEMPTS`] peer polls reported, and whether setting the
    /// default route succeeded. The result carries the outcome and the
    /// exact native calls made, in order; the contract pins all three of
    /// outcome, calls and stored context for every combination of answers.
    ///
    /// A request against an active tunnel is refused before any native
    /// call; an exhausted poll budget unwinds with `disconnect`, so a
    /// failed start never leaks native state.
    pub fn start_tunnel(
        &mut self,
        config: TunnelConfig,
        init_ok: bool,
        connect_ok: bool,
        polls: &Vec<bool>,
        route_ok: bool,
    ) -> (r: (StartOutcome, Vec<NativeCall>))
        requires
            polls@.len() == MAX_WG_ATTEMPTS as int,
        ensures
            r.0 == start_outcome_spec(
                old(self).active() is Some,
                init_ok,
                connect_ok,
                polls@,
                route_ok,
            ),
            r.1@ == start_trace(old(self).active() is Some, init_ok, connect_ok, polls@, route_ok),
            final(self).active() == start_slot_spec(
                old(self).active(),
                config,
                init_ok,
                connect_ok,
                polls@,
                route_ok,
            ),
    {
        let mut trace: Vec<NativeCall> = Vec::new();
        if self.is_active() {
            return (StartOutcome::AlreadyActive, trace);
        }
        trace.push(NativeCall::Init);
        if !init_ok {
            proof {
                assert(trace@ =~= seq![NativeCall::Init]);
            }
            return (StartOutcome::InitFailed, trace);
        }
        trace.push(NativeCall::Connect);
        proof {
            assert(trace@ =~= seq![NativeCall::Init, NativeCall::Connect]);
        }
        if !connect_ok {
            return (StartOutcome::ConnectFailed, trace);
        }
        let mut i: usize = 0;
        let mut up = false;
        while i < MAX_WG_ATTEMPTS as usize && !up
            invariant
                polls@.len() == MAX_WG_ATTEMPTS as int,
                i <= MAX_WG_ATTEMPTS as usize,
                trace@ == seq![NativeCall::Init, NativeCall::Connect] + poll_calls(i as int),
                up ==> i > 0 && polls@[i - 1] && (forall|j: int| 0 <= j < i - 1 ==> !polls@[j]),
                !up ==> forall|j: int| 0 <= j < i ==> !polls@[j],
            decreases MAX_WG_ATTEMPTS as usize - i,
        {
            trace.push(NativeCall::PollPeer);
            proof {
                assert(trace@ =~= seq![NativeCall::Init, NativeCall::Connect] + poll_calls(
                    i + 1,
                ));
            }
            if polls[i] {
                up = true;
            }
            i = i + 1;
        }
        if up {
            proof {
                lemma_first_up_at(polls@, i - 1);
            }
            trace.push(NativeCall::SetDefaultRoute);
            proof {
                assert(trace@ =~= (seq![NativeCall::Init, NativeCall::Connect] + poll_calls(
                    i as int,
                )) + seq![NativeCall::SetDefaultRoute]);
            }
            if route_ok {
                self.slot = Some(TunnelSession { config });
                return (StartOutcome::Started, trace);
            }
            return (StartOutcome::RouteFailed, trace);
        }
        proof {
            lemma_first_up_none(polls@);
        }
        trace.push(NativeCall::Disconnect);
        proof {
            assert(trace@ =~= (seq![NativeCall::Init, NativeCall::Connect] + poll_calls(
                MAX_WG_ATTEMPTS as int,
            )) + seq![NativeCall::Disconnect]);
        }
        (StartOutcome::PeerUnreachable, trace)
    }

    /// Runs one end request to its end.
    ///
    /// On an empty slot nothing is called and nothing changes. Otherwise
    /// `disconnect` is dispatched; only when it succeeds is the context
    /// released and the slot cleared — the check and the clearing happen
    /// under the one lock held around the whole call.
    pub fn end_tunnel(&mut self, disconnect_ok: bool) -> (r: (EndOutcome, Vec<NativeCall>))
        ensures
            r.0 == end_outcome_spec(old(self).active() is Some, disconnect_ok),
            r.1@ == end_trace(old(self).active() is Some),
            final(self).active() == end_slot_spec(old(self).active(), disconnect_ok),
    {
        let mut trace: Vec<NativeCall> = Vec::new();
        if !self.is_active() {
            return (EndOutcome::NotActive, trace);
        }
        trace.push(NativeCall::Disconnect);
        proof {
            assert(trace@ =~= seq![NativeCall::Disconnect]);
        }
        if disconnect_ok {
            self.slot = None;
            return (EndOutcome::Ended, trace);
        }
        (EndOutcome::DisconnectFailed, trace)
    }
}

/// Waits for time synchronisation: the status is read once a second, up to
/// [`MAX_SNTP_ATTEMPTS`] waits, and the wait succeeds exactly when some
/// reading within the budget reported synchronised. The tunnel's handshake
/// needs valid timestamps, so this runs before any start request.
pub fn sync_systime(status: &Vec<bool>) -> (r: Result<(), TunnelError>)
    requires
        status@.len() == MAX_SNTP_ATTEMPTS as int + 1,
    ensures
        r is Ok <==> exists|i: int| 0 <= i < status@.len() && status@[i],
        r is Err ==> r == Err::<(), TunnelError>(TunnelError::TimeSyncFailed),
{
    let n = status.len();
    let mut i: usize = 0;
    while i < n
        invariant
            n == status@.len(),
            i <= n,
            forall|k: int| 0 <= k < i ==> !status@[k],
        decreases n - i,
    {
        if status[i] {
            return Ok(());
        }
        i = i + 1;
    }
    Err(TunnelError::TimeSyncFailed)
}

/// Law: a second start against an active tunnel is refused without a
/// native call. When a first start from an empty slot fully succeeds, the
/// second request makes no native call at all, reports the tunnel active,
/// and leaves the stored context as the first start left it — so two
/// requests perform exactly one `init`/`connect` sequence between them.
pub proof fn lemma_start_twice_one_sequence(
    cfg1: TunnelConfig,
    cfg2: TunnelConfig,
    polls1: Seq<bool>,
    init2: bool,
    connect2: bool,
    polls2: Seq<bool>,
    route2: bool,
)
    requires
        start_outcome_spec(false, true, true, polls1, true) == StartOutcome::Started,
    ensures
        start_slot_spec(None, cfg1, true, true, polls1, true) == Some(cfg1),
        start_trace(true, init2, connect2, polls2, route2) == Seq::<NativeCall>::empty(),
        start_outcome_spec(true, init2, connect2, polls2, route2) == StartOutcome::AlreadyActive,
        start_slot_spec(Some(cfg1), cfg2, init2, connect2, polls2, route2) == Some(cfg1),
{
}

/// Law: ending a tunnel when none is active is a safe no-op — no native
/// call is made, the outcome says so, and the slot stays empty.
pub proof fn lemma_end_absent_is_noop(disconnect_ok: bool)
    ensures
        end_trace(false) == Seq::<NativeCall>::empty(),
        end_outcome_spec(false, disconnect_ok) == EndOutcome::NotActive,
        end_slot_spec(None, disconnect_ok) is None,
{
}

/// Law: a start whose peer never comes up unwinds cleanly — its last
/// native call is `disconnect`, exactly the attempt budget was polled, and
/// the slot is left empty, so a later start begins from a clean slate.
pub proof fn lemma_exhausted_start_unwinds(
    old_slot: Option<TunnelConfig>,
    cfg: TunnelConfig,
    polls: Seq<bool>,
    route_ok: bool,
)
    requires
        old_slot is None,
        polls.len() == MAX_WG_ATTEMPTS as int,
        forall|j: int| 0 <= j < polls.len() ==> !polls[j],
    ensures
        start_outcome_spec(false, true, true, polls, route_ok) == StartOutcome::PeerUnreachable,
        start_trace(false, true, true, polls, route_ok) == seq![
            NativeCall::Init,
            NativeCall::Connect,
        ] + poll_calls(MAX_WG_ATTEMPTS as int) + seq![NativeCall::Disconnect],
        start_slot_spec(old_slot, cfg, true, true, polls, route_ok) is None,
{
    lemma_first_up_none(polls);
}

} // verus!
