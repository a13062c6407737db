//! Deployment limits, fixed-window request limiting and connection accounting.
//!
//! Time is a monotonic millisecond count chosen by the caller; a limit window
//! lasts one minute.
use vstd::prelude::*;
use vstd::string::StringExecFns;

use crate::keyed::{
    lemma_map_of_remove, lemma_sum_counts_bound, lemma_sum_counts_push, lemma_sum_counts_remove,
    lemma_sum_counts_update, sum_counts, keep_where, lemma_keep_where_step, lemma_map_of_contains, lemma_map_of_index, lemma_map_of_len,
    lemma_map_of_push, lemma_map_of_update, lemma_take_full, map_of, unique_keys,
};
use crate::text::{parse_unsigned, parse_unsigned_decimal};

verus! {

/// Length of one request-limiting window, in milliseconds.
pub const LIMIT_WINDOW_MILLIS: u64 = 60_000;

/// Operational limits of one server process.
#[derive(Debug, Clone, Copy, PartialEq, Eq, Structural)]
pub struct ServerLimits {
    pub max_http_body_bytes: usize,
    pub max_rooms: usize,
    pub create_per_ip_per_minute: u32,
    pub join_per_ip_per_minute: u32,
    pub operations_per_room_per_minute: u32,
    pub max_connections_total: usize,
    pub max_connections_per_ip: usize,
    /// Seconds a never-started room may stay idle.
    pub pregame_idle_timeout: u64,
}

/// One variable of the process environment: its name and its value, `None`
/// when the value is not valid UTF-8.
#[derive(Debug, Clone)]
pub struct EnvVar {
    pub name: String,
    pub value: Option<String>,
}

impl EnvVar {
    pub open spec fn view_pair(self) -> (Seq<char>, Option<Seq<char>>) {
        (
            self.name@,
            match self.value {
                Some(v) => Some(v@),
                None => None,
            },
        )
    }
}

/// The environment as plain values.
pub open spec fn env_view(env: Seq<EnvVar>) -> Seq<(Seq<char>, Option<Seq<char>>)> {
    env.map_values(|e: EnvVar| e.view_pair())
}

/// The first variable named `name`, if any.
pub open spec fn env_lookup(env: Seq<(Seq<char>, Option<Seq<char>>)>, name: Seq<char>) -> Option<
    Option<Seq<char>>,
>
    decreases env.len(),
{
    if env.len() == 0 {
        None
    } else if env[0].0 == name {
        Some(env[0].1)
    } else {
        env_lookup(env.drop_first(), name)
    }
}

/// What one optional override of a positive integer setting yields: no value,
/// a value, or the message that rejects it.
pub open spec fn override_of(
    env: Seq<(Seq<char>, Option<Seq<char>>)>,
    name: Seq<char>,
    max: nat,
) -> Result<Option<nat>, Seq<char>> {
    match env_lookup(env, name) {
        None => Ok(None),
        Some(None) => Err(name + " must be valid UTF-8"@),
        Some(Some(raw)) => match parse_unsigned(raw, max) {
            Some(v) if v > 0 => Ok(Some(v)),
            _ => Err(name + " must be a positive integer"@),
        },
    }
}

/// Applies one override to a current value.
pub open spec fn apply_override(current: nat, o: Option<nat>) -> nat {
    match o {
        Some(v) => v,
        None => current,
    }
}

/// The names of the overrides, in the order they are read.
pub open spec fn limit_names() -> Seq<Seq<char>> {
    seq![
        "CROWNLINE_MAX_HTTP_BYTES"@,
        "CROWNLINE_MAX_ROOMS"@,
        "CROWNLINE_CREATE_PER_MINUTE"@,
        "CROWNLINE_JOIN_PER_MINUTE"@,
        "CROWNLINE_ROOM_OPERATIONS_PER_MINUTE"@,
        "CROWNLINE_MAX_CONNECTIONS"@,
        "CROWNLINE_MAX_CONNECTIONS_PER_IP"@,
        "CROWNLINE_PREGAME_IDLE_SECONDS"@,
    ]
}

/// The largest value of each setting, in the same order.
pub open spec fn limit_maxima() -> Seq<nat> {
    seq![
        usize::MAX as nat,
        usize::MAX as nat,
        u32::MAX as nat,
        u32::MAX as nat,
        u32::MAX as nat,
        usize::MAX as nat,
        usize::MAX as nat,
        u64::MAX as nat,
    ]
}

impl ServerLimits {
    /// The settings in the order of `limit_names`.
    pub open spec fn fields(self) -> Seq<nat> {
        seq![
            self.max_http_body_bytes as nat,
            self.max_rooms as nat,
            self.create_per_ip_per_minute as nat,
            self.join_per_ip_per_minute as nat,
            self.operations_per_room_per_minute as nat,
            self.max_connections_total as nat,
            self.max_connections_per_ip as nat,
            self.pregame_idle_timeout as nat,
        ]
    }

    /// The limits used when no override is given, with the protocol's body limit.
    pub fn defaults(max_http_body_bytes: usize) -> (limits: ServerLimits)
        ensures
            limits.max_http_body_bytes == max_http_body_bytes,
            limits.max_rooms == 1000,
            limits.create_per_ip_per_minute == 10,
            limits.join_per_ip_per_minute == 30,
            limits.operations_per_room_per_minute == 120,
            limits.max_connections_total == 2000,
            limits.max_connections_per_ip == 8,
            limits.pregame_idle_timeout == 1800,
    {
        ServerLimits {
            max_http_body_bytes,
            max_rooms: 1_000,
            create_per_ip_per_minute: 10,
            join_per_ip_per_minute: 30,
            operations_per_room_per_minute: 120,
            max_connections_total: 2_000,
            max_connections_per_ip: 8,
            pregame_idle_timeout: 30 * 60,
        }
    }

    /// Applies the optional deployment overrides of `env` to `defaults`, in the
    /// order of `limit_names`. The first override that is not valid UTF-8, not an
    /// integer that fits its setting, or zero rejects the whole set with a message
    /// that names it.
    pub fn from_env(defaults: ServerLimits, env: &Vec<EnvVar>) -> (result: Result<
        ServerLimits,
        String,
    >)
        ensures
            ({
                let ev = env_view(env@);
                let first_error = (exists|i: int|
                    0 <= i < 8 && #[trigger] override_of(ev, limit_names()[i], limit_maxima()[i])
                        is Err);
                match result {
                    Ok(limits) => !first_error && forall|i: int|
                        0 <= i < 8 ==> #[trigger] limits.fields()[i] == apply_override(
                            defaults.fields()[i],
                            override_of(ev, limit_names()[i], limit_maxima()[i])->Ok_0,
                        ),
                    Err(message) => exists|i: int|
                        0 <= i < 8 && (forall|j: int|
                            0 <= j < i ==> #[trigger] override_of(
                                ev,
                                limit_names()[j],
                                limit_maxima()[j],
                            ) is Ok) && override_of(ev, limit_names()[i], limit_maxima()[i])
                            == Err::<Option<nat>, Seq<char>>(message@),
                }
            }),
    {
        let ghost ev = env_view(env@);
        let mut limits = defaults;
        let names: [&str; 8] = [
            "CROWNLINE_MAX_HTTP_BYTES",
            "CROWNLINE_MAX_ROOMS",
            "CROWNLINE_CREATE_PER_MINUTE",
            "CROWNLINE_JOIN_PER_MINUTE",
            "CROWNLINE_ROOM_OPERATIONS_PER_MINUTE",
            "CROWNLINE_MAX_CONNECTIONS",
            "CROWNLINE_MAX_CONNECTIONS_PER_IP",
            "CROWNLINE_PREGAME_IDLE_SECONDS",
        ];
        assert(names@.map_values(|s: &str| s@) =~= limit_names());
        let mut i: usize = 0;
        while i < 8
            invariant
                0 <= i <= 8,
                ev == env_view(env@),
                names@.map_values(|s: &str| s@) == limit_names(),
                forall|j: int| 0 <= j < i ==> #[trigger] override_of(ev, limit_names()[j], limit_maxima()[j]) is Ok,
                forall|j: int|
                    0 <= j < 8 ==> #[trigger] limits.fields()[j] == if j < i {
                        apply_override(
                            defaults.fields()[j],
                            override_of(ev, limit_names()[j], limit_maxima()[j])->Ok_0,
                        )
                    } else {
                        defaults.fields()[j]
                    },
            decreases 8 - i,
        {
            let name = names[i];
            assert(name@ == limit_names()[i as int]);
            let max: u64 = if i == 2 || i == 3 || i == 4 {
                u32::MAX as u64
            } else if i == 7 {
                u64::MAX
            } else {
                usize::MAX as u64
            };
            assert(max as nat == limit_maxima()[i as int]);
            match read_override(env, name, max) {
                Err(message) => {
                    return Err(message);
                },
                Ok(None) => {},
                Ok(Some(v)) => {
                    let ghost before = limits.fields();
                    if i == 0 {
                        limits.max_http_body_bytes = v as usize;
                    } else if i == 1 {
                        limits.max_rooms = v as usize;
                    } else if i == 2 {
                        limits.create_per_ip_per_minute = v as u32;
                    } else if i == 3 {
                        limits.join_per_ip_per_minute = v as u32;
                    } else if i == 4 {
                        limits.operations_per_room_per_minute = v as u32;
                    } else if i == 5 {
                        limits.max_connections_total = v as usize;
                    } else if i == 6 {
                        limits.max_connections_per_ip = v as usize;
                    } else {
                        limits.pregame_idle_timeout = v;
                    }
                    assert(limits.fields() =~= before.update(i as int, v as nat));
                },
            }
            i = i + 1;
        }
        Ok(limits)
    }
}

/// Finds the first variable called `name`.
fn find_env(env: &Vec<EnvVar>, name: &str) -> (found: Option<usize>)
    ensures
        match found {
            Some(k) => k < env@.len() && env_lookup(env_view(env@), name@) == Some(
                env_view(env@)[k as int].1,
            ),
            None => env_lookup(env_view(env@), name@) is None,
        },
{
    let ghost ev = env_view(env@);
    let wanted = name.to_owned();
    let mut k: usize = 0;
    assert(ev.skip(0) =~= ev);
    while k < env.len()
        invariant
            k <= env@.len(),
            ev == env_view(env@),
            ev.len() == env@.len(),
            wanted@ == name@,
            env_lookup(ev, name@) == env_lookup(ev.skip(k as int), name@),
        decreases env@.len() - k,
    {
        let ghost rest = ev.skip(k as int);
        assert(rest.drop_first() =~= ev.skip(k + 1));
        assert(rest[0] == env@[k as int].view_pair());
        assert(rest[0] == ev[k as int]);
        let same = env[k].name.eq(&wanted);
        if same {
            assert(rest[0].0 == name@);
            return Some(k);
        }
        assert(rest[0].0 != name@);
        assert(env_lookup(rest, name@) == env_lookup(rest.drop_first(), name@));
        k = k + 1;
    }
    assert(ev.skip(k as int).len() == 0);
    None
}

/// Reads one optional override of a setting whose largest value is `max`.
fn read_override(env: &Vec<EnvVar>, name: &str, max: u64) -> (result: Result<Option<u64>, String>)
    ensures
        result matches Ok(Some(v)) ==> 0 < v <= max,
        match result {
            Ok(Some(v)) => override_of(env_view(env@), name@, max as nat) == Ok::<
                Option<nat>,
                Seq<char>,
            >(Some(v as nat)),
            Ok(None) => override_of(env_view(env@), name@, max as nat) == Ok::<
                Option<nat>,
                Seq<char>,
            >(None),
            Err(m) => override_of(env_view(env@), name@, max as nat) == Err::<
                Option<nat>,
                Seq<char>,
            >(m@),
        },
{
    let found = find_env(env, name);
    let k = match found {
        None => {
            return Ok(None);
        },
        Some(k) => k,
    };
    match &env[k].value {
        None => {
            let mut message = name.to_owned();
            message.append(" must be valid UTF-8");
            Err(message)
        },
        Some(raw) => {
            let parsed = parse_unsigned_decimal(raw.as_str(), max);
            match parsed {
                Some(v) => {
                    if v > 0 {
                        Ok(Some(v))
                    } else {
                        let mut message = name.to_owned();
                        message.append(" must be a positive integer");
                        Err(message)
                    }
                },
                None => {
                    let mut message = name.to_owned();
                    message.append(" must be a positive integer");
                    Err(message)
                },
            }
        },
    }
}

/// The three request families that are limited separately.
#[derive(Debug, Clone, Copy, PartialEq, Eq, PartialOrd, Ord, Structural)]
pub enum LimitKind {
    Create,
    Join,
    RoomOperation,
}

/// A fixed window: when it started and how many requests it admitted.
#[derive(Debug, Clone, Copy, PartialEq, Eq, Structural)]
pub struct Window {
    pub started: u64,
    pub count: u32,
}

/// The window of one `(kind, scope)` pair.
#[derive(Debug, Clone)]
pub struct ScopeWindow {
    pub kind: LimitKind,
    pub scope: String,
    pub window: Window,
}

impl ScopeWindow {
    pub open spec fn entry(self) -> ((LimitKind, Seq<char>), Window) {
        ((self.kind, self.scope@), self.window)
    }
}

/// Whether a window that started at `started` has ended by `now`
/// (a clock reading before the start counts as no time elapsed).
pub open spec fn window_expired(started: u64, now: u64) -> bool {
    now >= started && now - started >= LIMIT_WINDOW_MILLIS
}

/// The window that a request at `now` is counted in: the tracked one while it
/// runs, else a fresh one starting at `now`.
pub open spec fn current_window(
    windows: Map<(LimitKind, Seq<char>), Window>,
    key: (LimitKind, Seq<char>),
    now: u64,
) -> Window {
    if windows.contains_key(key) && !window_expired(windows[key].started, now) {
        windows[key]
    } else {
        Window { started: now, count: 0 }
    }
}

/// One request of `kind` for `scope` at `now`: whether it is admitted, and the
/// windows afterwards. It is admitted, and counted, only while its window has
/// admitted fewer than `maximum`; the (possibly fresh) window is kept either way.
pub open spec fn check_step(
    windows: Map<(LimitKind, Seq<char>), Window>,
    kind: LimitKind,
    scope: Seq<char>,
    maximum: u32,
    now: u64,
) -> (bool, Map<(LimitKind, Seq<char>), Window>) {
    let key = (kind, scope);
    let current = current_window(windows, key, now);
    let admitted = current.count < maximum;
    (
        admitted,
        windows.insert(
            key,
            if admitted {
                Window { started: current.started, count: (current.count + 1) as u32 }
            } else {
                current
            },
        ),
    )
}

/// The windows that are still running at `now`.
pub open spec fn discard_step(windows: Map<(LimitKind, Seq<char>), Window>, now: u64) -> Map<
    (LimitKind, Seq<char>),
    Window,
> {
    keep_where(windows, |key: (LimitKind, Seq<char>), w: Window| !window_expired(w.started, now))
}

/// Per-scope fixed-window request limiter.
#[derive(Debug, Default)]
pub struct RequestLimiter {
    windows: Vec<ScopeWindow>,
}

impl RequestLimiter {
    pub closed spec fn entries(self) -> Seq<((LimitKind, Seq<char>), Window)> {
        self.windows@.map_values(|w: ScopeWindow| w.entry())
    }

    /// The window of every tracked scope.
    pub closed spec fn view(self) -> Map<(LimitKind, Seq<char>), Window> {
        map_of(self.entries())
    }

    /// No scope is tracked twice.
    pub closed spec fn well_formed(self) -> bool {
        unique_keys(self.entries())
    }

    /// An empty limiter.
    pub fn new() -> (limiter: RequestLimiter)
        ensures
            limiter.well_formed(),
            limiter.view() == Map::<(LimitKind, Seq<char>), Window>::empty(),
    {
        let limiter = RequestLimiter { windows: Vec::new() };
        assert(limiter.entries() =~= Seq::empty());
        limiter
    }

    /// The position of the window of `(kind, scope)`, if it is tracked.
    fn find(&self, kind: LimitKind, scope: &String) -> (found: Option<usize>)
        ensures
            match found {
                Some(k) => k < self.windows@.len() && self.entries()[k as int].0 == (kind, scope@),
                None => forall|j: int|
                    0 <= j < self.entries().len() ==> #[trigger] self.entries()[j].0 != (
                        kind,
                        scope@,
                    ),
            },
    {
        let mut k: usize = 0;
        while k < self.windows.len()
            invariant
                k <= self.windows@.len(),
                forall|j: int| 0 <= j < k ==> #[trigger] self.entries()[j].0 != (kind, scope@),
            decreases self.windows@.len() - k,
        {
            assert(self.entries()[k as int] == self.windows@[k as int].entry());
            if self.windows[k].kind == kind && self.windows[k].scope.eq(scope) {
                return Some(k);
            }
            k = k + 1;
        }
        None
    }

    /// Counts one request of `kind` for `scope` at `now` against `maximum` per
    /// window. A window that has run for a minute restarts at `now` with no
    /// requests; the request is admitted, and counted, only while the window has
    /// admitted fewer than `maximum`.
    pub fn check(&mut self, kind: LimitKind, scope: &str, maximum: u32, now: u64) -> (admitted: bool)
        requires
            old(self).well_formed(),
        ensures
            final(self).well_formed(),
            (admitted, final(self).view()) == check_step(old(self).view(), kind, scope@, maximum, now),
    {
        let ghost key = (kind, scope@);
        let wanted = scope.to_owned();
        let ghost es = self.entries();
        let found = self.find(kind, &wanted);
        if let Some(k) = found {
            assert(es[k as int].0 == key);
            proof {
                lemma_map_of_index(es, k as int);
            }
            let mut window = self.windows[k].window;
            if now >= window.started && now - window.started >= LIMIT_WINDOW_MILLIS {
                window = Window { started: now, count: 0 };
            }
            let admitted = window.count < maximum;
            if admitted {
                window.count = window.count + 1;
            }
            let ghost before = self.windows@;
            let entry = ScopeWindow {
                kind: self.windows[k].kind,
                scope: self.windows[k].scope.clone(),
                window,
            };
            self.windows.set(k, entry);
            proof {
                assert(self.entries() =~= es.update(k as int, (key, window)));
                lemma_map_of_update(es, k as int, window);
            }
            admitted
        } else {
            proof {
                lemma_map_of_contains(es, key);
            }
            let mut window = Window { started: now, count: 0 };
            let admitted = window.count < maximum;
            if admitted {
                window.count = 1;
            }
            self.windows.push(ScopeWindow { kind, scope: wanted, window });
            proof {
                assert(self.entries() =~= es.push((key, window)));
                lemma_map_of_push(es, key, window);
            }
            admitted
        }
    }

    /// Forgets every window that has run for a minute by `now`.
    pub fn discard_expired(&mut self, now: u64)
        requires
            old(self).well_formed(),
        ensures
            final(self).well_formed(),
            final(self).view() == discard_step(old(self).view(), now),
    {
        let ghost es = self.entries();
        let ghost keep = |key: (LimitKind, Seq<char>), w: Window| !window_expired(w.started, now);
        let mut kept: Vec<ScopeWindow> = Vec::new();
        let mut k: usize = 0;
        proof {
            assert(map_of(es.take(0)) =~= Map::empty());
            assert(kept@.map_values(|w: ScopeWindow| w.entry()) =~= Seq::empty());
            assert(keep_where(map_of(es.take(0)), keep) =~= Map::empty());
        }
        while k < self.windows.len()
            invariant
                k <= self.windows@.len(),
                es == self.entries(),
                es.len() == self.windows@.len(),
                unique_keys(es),
                keep == (|key: (LimitKind, Seq<char>), w: Window| !window_expired(w.started, now)),
                unique_keys(kept@.map_values(|w: ScopeWindow| w.entry())),
                map_of(kept@.map_values(|w: ScopeWindow| w.entry())) == keep_where(
                    map_of(es.take(k as int)),
                    keep,
                ),
            decreases self.windows@.len() - k,
        {
            let ghost ks = kept@.map_values(|w: ScopeWindow| w.entry());
            proof {
                lemma_keep_where_step(es, k as int, ks, keep);
            }
            assert(es[k as int] == self.windows@[k as int].entry());
            let started = self.windows[k].window.started;
            if !(now >= started && now - started >= LIMIT_WINDOW_MILLIS) {
                let entry = ScopeWindow {
                    kind: self.windows[k].kind,
                    scope: self.windows[k].scope.clone(),
                    window: self.windows[k].window,
                };
                kept.push(entry);
                proof {
                    assert(kept@.map_values(|w: ScopeWindow| w.entry()) =~= ks.push(es[k as int]));
                    lemma_map_of_push(ks, es[k as int].0, es[k as int].1);
                }
            }
            k = k + 1;
        }
        proof {
            lemma_take_full(es);
        }
        self.windows = kept;
    }

    /// The number of scopes with a window.
    pub fn tracked_scopes(&self) -> (count: usize)
        requires
            self.well_formed(),
        ensures
            count == self.view().dom().len(),
    {
        proof {
            lemma_map_of_len(self.entries());
        }
        self.windows.len()
    }
}

/// A peer's network address as plain values.
#[derive(Debug, Clone, Copy, PartialEq, Eq, PartialOrd, Ord, Hash, Structural)]
pub enum PeerAddress {
    V4(u32),
    V6(u128),
}

/// How many connections one address holds.
#[derive(Debug, Clone, Copy)]
pub struct IpCount {
    pub ip: PeerAddress,
    pub count: usize,
}

impl IpCount {
    pub open spec fn entry(self) -> (PeerAddress, usize) {
        (self.ip, self.count)
    }
}

/// The connections that `ip` holds in `per_ip`.
pub open spec fn held_in(per_ip: Map<PeerAddress, usize>, ip: PeerAddress) -> nat {
    if per_ip.contains_key(ip) {
        per_ip[ip] as nat
    } else {
        0
    }
}

/// One connection attempt from `ip`: whether it is admitted, and the total and
/// per-address counts afterwards. A refusal changes nothing.
pub open spec fn open_step(
    total: nat,
    per_ip: Map<PeerAddress, usize>,
    ip: PeerAddress,
    limits: ServerLimits,
) -> (bool, nat, Map<PeerAddress, usize>) {
    let held = held_in(per_ip, ip);
    if total < limits.max_connections_total && held < limits.max_connections_per_ip {
        (true, total + 1, per_ip.insert(ip, (held + 1) as usize))
    } else {
        (false, total, per_ip)
    }
}

/// One connection of `ip` closing: the total and per-address counts afterwards.
/// An address without connections changes nothing; one whose last connection
/// closes is forgotten.
pub open spec fn close_step(total: nat, per_ip: Map<PeerAddress, usize>, ip: PeerAddress) -> (
    nat,
    Map<PeerAddress, usize>,
) {
    let held = held_in(per_ip, ip);
    if held == 0 {
        (total, per_ip)
    } else if held == 1 {
        ((total - 1) as nat, per_ip.remove(ip))
    } else {
        ((total - 1) as nat, per_ip.insert(ip, (held - 1) as usize))
    }
}

/// Open WebSocket connections, globally and per address.
#[derive(Debug, Default)]
pub struct ConnectionRegistry {
    total: usize,
    per_ip: Vec<IpCount>,
}

impl ConnectionRegistry {
    pub closed spec fn entries(self) -> Seq<(PeerAddress, usize)> {
        self.per_ip@.map_values(|c: IpCount| c.entry())
    }

    /// Open connections in all.
    pub closed spec fn total(self) -> nat {
        self.total as nat
    }

    /// Open connections of each address that holds any.
    pub closed spec fn per_ip(self) -> Map<PeerAddress, usize> {
        map_of(self.entries())
    }

    /// Every listed address holds a connection, none is listed twice, and the
    /// total is their sum.
    pub closed spec fn well_formed(self) -> bool {
        &&& unique_keys(self.entries())
        &&& self.total as int == sum_counts(self.entries())
        &&& forall|i: int| 0 <= i < self.entries().len() ==> #[trigger] self.entries()[i].1 > 0
    }

    /// The connections that `ip` holds.
    pub open spec fn held(self, ip: PeerAddress) -> nat {
        held_in(self.per_ip(), ip)
    }

    /// A registry without connections.
    pub fn new() -> (registry: ConnectionRegistry)
        ensures
            registry.well_formed(),
            registry.total() == 0,
            registry.per_ip() == Map::<PeerAddress, usize>::empty(),
    {
        let registry = ConnectionRegistry { total: 0, per_ip: Vec::new() };
        assert(registry.entries() =~= Seq::empty());
        registry
    }

    fn find(&self, ip: PeerAddress) -> (found: Option<usize>)
        ensures
            match found {
                Some(k) => k < self.per_ip@.len() && self.entries()[k as int].0 == ip,
                None => forall|j: int|
                    0 <= j < self.entries().len() ==> #[trigger] self.entries()[j].0 != ip,
            },
    {
        let mut k: usize = 0;
        while k < self.per_ip.len()
            invariant
                k <= self.per_ip@.len(),
                forall|j: int| 0 <= j < k ==> #[trigger] self.entries()[j].0 != ip,
            decreases self.per_ip@.len() - k,
        {
            assert(self.entries()[k as int] == self.per_ip@[k as int].entry());
            if self.per_ip[k].ip == ip {
                return Some(k);
            }
            k = k + 1;
        }
        None
    }

    /// Admits one more connection from `ip` while both the global and the
    /// per-address limits leave room; a refusal changes nothing.
    pub fn try_open(&mut self, ip: PeerAddress, limits: &ServerLimits) -> (opened: bool)
        requires
            old(self).well_formed(),
        ensures
            final(self).well_formed(),
            (opened, final(self).total(), final(self).per_ip()) == open_step(
                old(self).total(),
                old(self).per_ip(),
                ip,
                *limits,
            ),
    {
        let ghost es = self.entries();
        let found = self.find(ip);
        proof {
            lemma_map_of_contains(es, ip);
            if let Some(k) = found {
                lemma_map_of_index(es, k as int);
            }
        }
        let for_ip: usize = match found {
            Some(k) => self.per_ip[k].count,
            None => 0,
        };
        if self.total >= limits.max_connections_total || for_ip >= limits.max_connections_per_ip {
            return false;
        }
        self.total = self.total + 1;
        match found {
            Some(k) => {
                self.per_ip.set(k, IpCount { ip, count: for_ip + 1 });
                proof {
                    assert(self.entries() =~= es.update(k as int, (ip, (for_ip + 1) as usize)));
                    lemma_map_of_update(es, k as int, (for_ip + 1) as usize);
                    lemma_sum_counts_update(es, k as int, (for_ip + 1) as usize);
                }
            },
            None => {
                self.per_ip.push(IpCount { ip, count: 1 });
                proof {
                    assert(self.entries() =~= es.push((ip, 1usize)));
                    lemma_map_of_push(es, ip, 1usize);
                    lemma_sum_counts_push(es, ip, 1usize);
                }
            },
        }
        true
    }

    /// Releases one connection of `ip`; an address without connections is
    /// ignored, and an address whose last connection closes is forgotten.
    pub fn close(&mut self, ip: PeerAddress)
        requires
            old(self).well_formed(),
        ensures
            final(self).well_formed(),
            (final(self).total(), final(self).per_ip()) == close_step(
                old(self).total(),
                old(self).per_ip(),
                ip,
            ),
    {
        let ghost es = self.entries();
        let found = self.find(ip);
        proof {
            lemma_map_of_contains(es, ip);
        }
        let k = match found {
            None => {
                return;
            },
            Some(k) => k,
        };
        proof {
            lemma_map_of_index(es, k as int);
            lemma_sum_counts_bound(es, k as int);
        }
        let for_ip = self.per_ip[k].count;
        self.total = self.total - 1;
        if for_ip == 1 {
            self.per_ip.remove(k);
            proof {
                assert(self.entries() =~= es.remove(k as int));
                lemma_map_of_remove(es, k as int);
                lemma_sum_counts_remove(es, k as int);
            }
        } else {
            self.per_ip.set(k, IpCount { ip, count: for_ip - 1 });
            proof {
                assert(self.entries() =~= es.update(k as int, (ip, (for_ip - 1) as usize)));
                lemma_map_of_update(es, k as int, (for_ip - 1) as usize);
                lemma_sum_counts_update(es, k as int, (for_ip - 1) as usize);
            }
        }
    }
}

/// A window that has admitted `maximum` requests refuses every further request
/// until it has run for a minute.
pub proof fn law_exhausted_window_refuses(
    windows: Map<(LimitKind, Seq<char>), Window>,
    kind: LimitKind,
    scope: Seq<char>,
    maximum: u32,
    now: u64,
)
    requires
        windows.contains_key((kind, scope)),
        windows[(kind, scope)].count >= maximum,
        !window_expired(windows[(kind, scope)].started, now),
    ensures
        !check_step(windows, kind, scope, maximum, now).0,
        check_step(windows, kind, scope, maximum, now).1 == windows,
{
    assert(check_step(windows, kind, scope, maximum, now).1 =~= windows);
}

/// An admitted request leaves its window with at most `maximum` requests.
pub proof fn law_admitted_within_maximum(
    windows: Map<(LimitKind, Seq<char>), Window>,
    kind: LimitKind,
    scope: Seq<char>,
    maximum: u32,
    now: u64,
)
    ensures
        check_step(windows, kind, scope, maximum, now).0 ==> check_step(
            windows,
            kind,
            scope,
            maximum,
            now,
        ).1[(kind, scope)].count <= maximum,
{
}

/// Once a minute has passed since the newest window started, discarding
/// forgets every scope, so the tracked scopes never outgrow the requests of the
/// last minute.
pub proof fn law_discard_forgets_finished_windows(
    windows: Map<(LimitKind, Seq<char>), Window>,
    latest_start: u64,
    now: u64,
)
    requires
        forall|key: (LimitKind, Seq<char>)|
            #[trigger] windows.contains_key(key) ==> windows[key].started <= latest_start,
        now >= latest_start + LIMIT_WINDOW_MILLIS,
    ensures
        discard_step(windows, now) == Map::<(LimitKind, Seq<char>), Window>::empty(),
{
    assert(discard_step(windows, now) =~= Map::<(LimitKind, Seq<char>), Window>::empty());
}

/// The requests of one scope checked in turn at `times`: how many were
/// admitted, and the windows afterwards.
pub open spec fn check_run(
    windows: Map<(LimitKind, Seq<char>), Window>,
    kind: LimitKind,
    scope: Seq<char>,
    maximum: u32,
    times: Seq<u64>,
) -> (nat, Map<(LimitKind, Seq<char>), Window>)
    decreases times.len(),
{
    if times.len() == 0 {
        (0, windows)
    } else {
        let (admitted, next) = check_step(windows, kind, scope, maximum, times[0]);
        let (rest, last) = check_run(next, kind, scope, maximum, times.drop_first());
        (rest + if admitted {
            1nat
        } else {
            0nat
        }, last)
    }
}

proof fn lemma_run_within_window(
    windows: Map<(LimitKind, Seq<char>), Window>,
    kind: LimitKind,
    scope: Seq<char>,
    maximum: u32,
    times: Seq<u64>,
    start: u64,
    count: u32,
)
    requires
        count <= maximum,
        forall|i: int| 0 <= i < times.len() ==> start <= #[trigger] times[i] < start + LIMIT_WINDOW_MILLIS,
        times.len() > 0 ==> current_window(windows, (kind, scope), times[0]) == (Window {
            started: start,
            count,
        }),
    ensures
        check_run(windows, kind, scope, maximum, times).0 + count <= maximum,
    decreases times.len(),
{
    if times.len() > 0 {
        let (admitted, next) = check_step(windows, kind, scope, maximum, times[0]);
        let c1: u32 = if admitted {
            (count + 1) as u32
        } else {
            count
        };
        assert(next[(kind, scope)] == Window { started: start, count: c1 });
        let rest = times.drop_first();
        assert forall|i: int| 0 <= i < rest.len() implies start <= #[trigger] rest[i] < start
            + LIMIT_WINDOW_MILLIS by {
            assert(rest[i] == times[i + 1]);
        }
        if rest.len() > 0 {
            assert(rest[0] == times[1]);
            assert(!window_expired(start, rest[0]));
        }
        lemma_run_within_window(next, kind, scope, maximum, rest, start, c1);
    }
}

/// However the requests of one scope fall within one running window, at most
/// `maximum` of them are admitted, counting those the window had admitted
/// before.
pub proof fn law_window_admits_at_most_maximum(
    windows: Map<(LimitKind, Seq<char>), Window>,
    kind: LimitKind,
    scope: Seq<char>,
    maximum: u32,
    times: Seq<u64>,
)
    requires
        times.len() > 0,
        current_window(windows, (kind, scope), times[0]).count <= maximum,
        forall|i: int|
            0 <= i < times.len() ==> current_window(windows, (kind, scope), times[0]).started
                <= #[trigger] times[i] < current_window(windows, (kind, scope), times[0]).started
                + LIMIT_WINDOW_MILLIS,
    ensures
        check_run(windows, kind, scope, maximum, times).0 + current_window(
            windows,
            (kind, scope),
            times[0],
        ).count <= maximum,
{
    let w = current_window(windows, (kind, scope), times[0]);
    lemma_run_within_window(windows, kind, scope, maximum, times, w.started, w.count);
}

/// A request to check: its family, scope, maximum and time.
pub type LimitRequest = (LimitKind, Seq<char>, u32, u64);

/// The answers to requests checked in turn.
pub open spec fn check_all(
    windows: Map<(LimitKind, Seq<char>), Window>,
    requests: Seq<LimitRequest>,
) -> Seq<bool>
    decreases requests.len(),
{
    if requests.len() == 0 {
        Seq::empty()
    } else {
        let r = requests[0];
        let (admitted, next) = check_step(windows, r.0, r.1, r.2, r.3);
        seq![admitted] + check_all(next, requests.drop_first())
    }
}

/// Two sets of windows that count every request from `now` on alike.
pub open spec fn count_alike(
    a: Map<(LimitKind, Seq<char>), Window>,
    b: Map<(LimitKind, Seq<char>), Window>,
    now: u64,
) -> bool {
    forall|key: (LimitKind, Seq<char>), t: u64|
        t >= now ==> #[trigger] current_window(a, key, t) == current_window(b, key, t)
}

proof fn lemma_alike_answers(
    a: Map<(LimitKind, Seq<char>), Window>,
    b: Map<(LimitKind, Seq<char>), Window>,
    now: u64,
    requests: Seq<LimitRequest>,
)
    requires
        count_alike(a, b, now),
        forall|i: int| 0 <= i < requests.len() ==> (#[trigger] requests[i]).3 >= now,
    ensures
        check_all(a, requests) == check_all(b, requests),
    decreases requests.len(),
{
    if requests.len() > 0 {
        let r = requests[0];
        let (x, a1) = check_step(a, r.0, r.1, r.2, r.3);
        let (y, b1) = check_step(b, r.0, r.1, r.2, r.3);
        assert(current_window(a, (r.0, r.1), r.3) == current_window(b, (r.0, r.1), r.3));
        assert forall|key: (LimitKind, Seq<char>), t: u64| t >= now implies #[trigger] current_window(
            a1,
            key,
            t,
        ) == current_window(b1, key, t) by {
            if key != (r.0, r.1) {
                assert(current_window(a, key, t) == current_window(b, key, t));
            }
        }
        let rest = requests.drop_first();
        assert forall|i: int| 0 <= i < rest.len() implies (#[trigger] rest[i]).3 >= now by {
            assert(rest[i] == requests[i + 1]);
        }
        lemma_alike_answers(a1, b1, now, rest);
    }
}

/// Discarding the windows that have ended by `now` changes no later answer:
/// every sequence of requests from `now` on is admitted or refused as it
/// would have been had nothing been discarded.
pub proof fn law_discard_changes_no_answer(
    windows: Map<(LimitKind, Seq<char>), Window>,
    now: u64,
    requests: Seq<LimitRequest>,
)
    requires
        forall|i: int| 0 <= i < requests.len() ==> (#[trigger] requests[i]).3 >= now,
    ensures
        check_all(discard_step(windows, now), requests) == check_all(windows, requests),
{
    let d = discard_step(windows, now);
    assert forall|key: (LimitKind, Seq<char>), t: u64| t >= now implies #[trigger] current_window(
        d,
        key,
        t,
    ) == current_window(windows, key, t) by {
        if windows.contains_key(key) && window_expired(windows[key].started, now) {
            assert(!d.contains_key(key));
            assert(window_expired(windows[key].started, t));
        }
    }
    lemma_alike_answers(d, windows, now, requests);
}

/// Closing a connection that was just admitted restores the counts that the
/// registry had before it opened.
pub proof fn law_open_then_close_restores(
    total: nat,
    per_ip: Map<PeerAddress, usize>,
    ip: PeerAddress,
    limits: ServerLimits,
)
    requires
        forall|a: PeerAddress| #[trigger] per_ip.contains_key(a) ==> per_ip[a] > 0,
        open_step(total, per_ip, ip, limits).0,
    ensures
        close_step(open_step(total, per_ip, ip, limits).1, open_step(total, per_ip, ip, limits).2, ip)
            == (total, per_ip),
{
    let after = open_step(total, per_ip, ip, limits).2;
    if per_ip.contains_key(ip) {
        assert(after.insert(ip, per_ip[ip]) =~= per_ip);
    } else {
        assert(after.remove(ip) =~= per_ip);
    }
}

/// An admitted connection never takes the registry beyond either limit.
pub proof fn law_open_respects_limits(
    total: nat,
    per_ip: Map<PeerAddress, usize>,
    ip: PeerAddress,
    limits: ServerLimits,
)
    requires
        open_step(total, per_ip, ip, limits).0,
    ensures
        open_step(total, per_ip, ip, limits).1 <= limits.max_connections_total,
        held_in(open_step(total, per_ip, ip, limits).2, ip) <= limits.max_connections_per_ip,
{
}

} // verus!
