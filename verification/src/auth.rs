//! Browser-auth contexts, their version labels, and the decisions of an
//! auth reload: a replacement becomes active only after it has been loaded
//! and has passed the authenticated probe.

use vstd::prelude::*;

use crate::clock::{nanos_since_unix_epoch, unix_nanos, UnixTime};
use crate::error::ServiceError;
use crate::text::{hex_char, hex_fixed, push_char, push_hex_fixed};

verus! {

/// The version label of a context loaded `timestamp_nanos` after the epoch
/// as the `sequence`-th context of the process: the timestamp as 32
/// lower-case hexadecimal digits, a dash, and the sequence number as 16.
pub open spec fn version_text(timestamp_nanos: u128, sequence: u64) -> Seq<char> {
    hex_fixed(timestamp_nanos as nat, 32) + seq!['-'] + hex_fixed(sequence as nat, 16)
}

/// Formats the version label for a timestamp and a sequence number.
pub fn version_from_parts(timestamp_nanos: u128, sequence: u64) -> (v: String)
    ensures
        v@ == version_text(timestamp_nanos, sequence),
{
    let mut v = String::new();
    push_hex_fixed(&mut v, timestamp_nanos, 32);
    push_char(&mut v, '-');
    push_hex_fixed(&mut v, sequence as u128, 16);
    v
}

/// The version label for a context loaded at `loaded_at` as the
/// `sequence`-th of the process: its timestamp is the nanoseconds since the
/// epoch, zero for an instant before it.
pub fn version_from_loaded_at(loaded_at: UnixTime, sequence: u64) -> (v: String)
    ensures
        v@ == version_text(unix_nanos(loaded_at) as u128, sequence),
{
    let timestamp = nanos_since_unix_epoch(&loaded_at);
    version_from_parts(timestamp, sequence)
}

proof fn lemma_hex_char_injective(a: nat, b: nat)
    requires
        a < 16,
        b < 16,
        hex_char(a) == hex_char(b),
    ensures
        a == b,
{
}

proof fn lemma_hex_fixed_len(n: nat, width: nat)
    ensures
        hex_fixed(n, width).len() == width,
    decreases width,
{
    if width > 0 {
        lemma_hex_fixed_len(n / 16, (width - 1) as nat);
    }
}

/// `16^width`, the count of numbers that `width` hexadecimal digits tell apart.
spec fn hex_span(width: nat) -> nat
    decreases width,
{
    if width == 0 {
        1
    } else {
        16 * hex_span((width - 1) as nat)
    }
}

/// Fixed-width hexadecimal text of numbers below `16^width` determines them.
proof fn lemma_hex_fixed_injective(a: nat, b: nat, width: nat)
    requires
        a < hex_span(width),
        b < hex_span(width),
        hex_fixed(a, width) == hex_fixed(b, width),
    ensures
        a == b,
    decreases width,
{
    if width > 0 {
        let w1 = (width - 1) as nat;
        let sa = hex_fixed(a, width);
        let sb = hex_fixed(b, width);
        assert(sa.drop_last() =~= hex_fixed(a / 16, w1));
        assert(sb.drop_last() =~= hex_fixed(b / 16, w1));
        assert(sa.last() == hex_char(a % 16));
        assert(sb.last() == hex_char(b % 16));
        lemma_hex_fixed_injective(a / 16, b / 16, w1);
        lemma_hex_char_injective(a % 16, b % 16);
    }
}

/// Distinct timestamps or sequence numbers give distinct version labels:
/// the label determines both.
pub proof fn lemma_version_text_injective(t1: u128, s1: u64, t2: u128, s2: u64)
    requires
        version_text(t1, s1) == version_text(t2, s2),
    ensures
        t1 == t2,
        s1 == s2,
{
    let v1 = version_text(t1, s1);
    let v2 = version_text(t2, s2);
    lemma_hex_fixed_len(t1 as nat, 32);
    lemma_hex_fixed_len(t2 as nat, 32);
    lemma_hex_fixed_len(s1 as nat, 16);
    lemma_hex_fixed_len(s2 as nat, 16);
    assert(v1.subrange(0, 32) =~= hex_fixed(t1 as nat, 32));
    assert(v2.subrange(0, 32) =~= hex_fixed(t2 as nat, 32));
    assert(v1.subrange(33, 49) =~= hex_fixed(s1 as nat, 16));
    assert(v2.subrange(33, 49) =~= hex_fixed(s2 as nat, 16));
    reveal_with_fuel(hex_span, 33);
    assert(hex_span(16) == 0x1_0000_0000_0000_0000);
    assert(hex_span(32) == 0x1_0000_0000_0000_0000_0000_0000_0000_0000);
    lemma_hex_fixed_injective(t1 as nat, t2 as nat, 32);
    lemma_hex_fixed_injective(s1 as nat, s2 as nat, 16);
}


/// The counter that numbers auth contexts within a process: each draw
/// hands out the next number, wrapping to zero after the largest.
pub struct VersionSequence {
    next: u64,
}

/// The number after `n` on a wrapping 64-bit counter.
pub open spec fn sequence_after(n: u64) -> u64 {
    if n == u64::MAX {
        0
    } else {
        (n + 1) as u64
    }
}

impl VersionSequence {
    /// The number that the next draw hands out.
    pub closed spec fn next_value(&self) -> u64 {
        self.next
    }

    /// A counter whose first draw is zero.
    pub fn new() -> (s: VersionSequence)
        ensures
            s.next_value() == 0,
    {
        VersionSequence { next: 0 }
    }

    /// Hands out the next number and moves past it.
    pub fn draw(&mut self) -> (n: u64)
        ensures
            n == old(self).next_value(),
            final(self).next_value() == sequence_after(old(self).next_value()),
    {
        let n = self.next;
        self.next = if n == u64::MAX {
            0
        } else {
            n + 1
        };
        n
    }
}

/// An authenticated catalogue client, the version label of the browser auth
/// it was built from, and when that auth was loaded.
pub struct AuthContext<C> {
    pub client: C,
    pub version: String,
    pub loaded_at: UnixTime,
}

impl<C> AuthContext<C> {
    /// Wraps a client freshly built from browser auth loaded at `loaded_at`,
    /// labelling it with the `sequence`-th version of the process.
    pub fn from_loaded_client(client: C, loaded_at: UnixTime, sequence: u64) -> (c: AuthContext<C>)
        ensures
            c.client == client,
            c.loaded_at == loaded_at,
            c.version@ == version_text(unix_nanos(loaded_at) as u128, sequence),
    {
        let version = version_from_loaded_at(loaded_at, sequence);
        AuthContext { client, version, loaded_at }
    }
}

/// What happened since the reload was asked for.
pub enum ReloadEvent<C> {
    /// Loading and validating the browser auth file finished: the client
    /// built from it and when it was loaded, or the failure.
    Loaded(Result<(C, UnixTime), ServiceError>),
    /// The authenticated probe of a loaded candidate finished.
    Probed(AuthContext<C>, Result<(), ServiceError>),
}

/// What the caller does next.
pub enum ReloadAction<C> {
    /// Run the authenticated probe with this candidate and report `Probed`.
    Probe(AuthContext<C>),
    /// Answer the reload request: the version now active, or the failure.
    Respond(Result<String, ServiceError>),
}

/// The auth context that new requests use, and the counter that numbers
/// the contexts of the process.
pub struct AuthState<C> {
    active: AuthContext<C>,
    sequence: VersionSequence,
}

/// What one reload step does: a failed load or probe is answered with its
/// failure and changes nothing; a loaded client is labelled with the next
/// sequence number and handed back to be probed, the counter moving past
/// that number; a candidate whose probe succeeded becomes active and its
/// version is the answer.
pub open spec fn reload_step<C>(
    before: AuthState<C>,
    event: ReloadEvent<C>,
    after: AuthState<C>,
    action: ReloadAction<C>,
) -> bool {
    match event {
        ReloadEvent::Loaded(Err(e)) => {
            &&& after.active_context() == before.active_context()
            &&& after.next_sequence() == before.next_sequence()
            &&& action matches ReloadAction::Respond(Err(reported)) && reported == e
        },
        ReloadEvent::Loaded(Ok((client, loaded_at))) => {
            &&& after.active_context() == before.active_context()
            &&& after.next_sequence() == sequence_after(before.next_sequence())
            &&& action matches ReloadAction::Probe(c) && c.client == client && c.loaded_at
                == loaded_at && c.version@ == version_text(
                unix_nanos(loaded_at) as u128,
                before.next_sequence(),
            )
        },
        ReloadEvent::Probed(candidate, Ok(())) => {
            &&& after.active_context() == candidate
            &&& after.next_sequence() == before.next_sequence()
            &&& action matches ReloadAction::Respond(Ok(v)) && v == candidate.version
        },
        ReloadEvent::Probed(_, Err(e)) => {
            &&& after.active_context() == before.active_context()
            &&& after.next_sequence() == before.next_sequence()
            &&& action matches ReloadAction::Respond(Err(reported)) && reported == e
        },
    }
}

impl<C> AuthState<C> {
    /// The context that new requests use.
    pub closed spec fn active_context(&self) -> AuthContext<C> {
        self.active
    }

    /// The sequence number that the next loaded context is labelled with.
    pub closed spec fn next_sequence(&self) -> u64 {
        self.sequence.next_value()
    }

    /// The active context is labelled with its load time and a sequence
    /// number that the counter has already passed.
    pub open spec fn labelled_before_next(&self) -> bool {
        exists|q: u64|
            q < self.next_sequence() && self.active_context().version@ == #[trigger] version_text(
                unix_nanos(self.active_context().loaded_at) as u128,
                q,
            )
    }

    /// Starts with the client loaded at `loaded_at` active, as the first
    /// context of the process (sequence number zero).
    pub fn new(client: C, loaded_at: UnixTime) -> (s: AuthState<C>)
        ensures
            s.active_context().client == client,
            s.active_context().loaded_at == loaded_at,
            s.active_context().version@ == version_text(unix_nanos(loaded_at) as u128, 0),
            s.next_sequence() == 1,
            s.labelled_before_next(),
    {
        let mut sequence = VersionSequence::new();
        let first = sequence.draw();
        let active = AuthContext::from_loaded_client(client, loaded_at, first);
        let s = AuthState { active, sequence };
        assert(s.active_context().version@ == version_text(
            unix_nanos(s.active_context().loaded_at) as u128,
            0u64,
        ));
        s
    }

    /// The context that new requests use.
    pub fn active(&self) -> (c: &AuthContext<C>)
        ensures
            *c == self.active_context(),
    {
        &self.active
    }

    /// The version label of the active context.
    pub fn active_version(&self) -> (v: &str)
        ensures
            v@ == self.active_context().version@,
    {
        self.active.version.as_str()
    }

    /// Advances a reload as `reload_step` states. Only a successful probe
    /// changes the active context.
    pub fn step(&mut self, event: ReloadEvent<C>) -> (action: ReloadAction<C>)
        ensures
            reload_step(*old(self), event, *final(self), action),
    {
        match event {
            ReloadEvent::Loaded(Err(e)) => ReloadAction::Respond(Err(e)),
            ReloadEvent::Loaded(Ok((client, loaded_at))) => {
                let sequence = self.sequence.draw();
                ReloadAction::Probe(AuthContext::from_loaded_client(client, loaded_at, sequence))
            },
            ReloadEvent::Probed(candidate, Ok(())) => {
                let version = candidate.version.clone();
                self.active = candidate;
                ReloadAction::Respond(Ok(version))
            },
            ReloadEvent::Probed(_, Err(e)) => ReloadAction::Respond(Err(e)),
        }
    }
}

/// A reload whose load and probe both succeed activates a version label
/// different from the one active before, and, while the counter has not
/// run out, the new active context is again labelled with a number that
/// the counter has passed.
pub proof fn lemma_successful_reload_changes_version<C>(
    s0: AuthState<C>,
    client: C,
    loaded_at: UnixTime,
    s1: AuthState<C>,
    candidate: AuthContext<C>,
    s2: AuthState<C>,
    answer: ReloadAction<C>,
)
    requires
        s0.labelled_before_next(),
        reload_step(s0, ReloadEvent::Loaded(Ok((client, loaded_at))), s1, ReloadAction::Probe(candidate)),
        reload_step(s1, ReloadEvent::Probed(candidate, Ok(())), s2, answer),
    ensures
        s2.active_context().version@ != s0.active_context().version@,
        answer matches ReloadAction::Respond(Ok(v)) && v@ == s2.active_context().version@,
        s0.next_sequence() < u64::MAX ==> s2.labelled_before_next(),
{
    let n0 = s0.next_sequence();
    let q0 = choose|q: u64|
        q < s0.next_sequence() && s0.active_context().version@ == #[trigger] version_text(
            unix_nanos(s0.active_context().loaded_at) as u128,
            q,
        );
    if s2.active_context().version@ == s0.active_context().version@ {
        lemma_version_text_injective(
            unix_nanos(loaded_at) as u128,
            n0,
            unix_nanos(s0.active_context().loaded_at) as u128,
            q0,
        );
    }
    if n0 < u64::MAX {
        assert(s2.next_sequence() == n0 + 1);
        assert(s2.active_context().version@ == version_text(
            unix_nanos(s2.active_context().loaded_at) as u128,
            n0,
        ));
    }
}

} // verus!
