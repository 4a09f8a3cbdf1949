//! The matcher registry: an ordered list of permanent matchers plus a keyed
//! table of one-shot conversational matchers. Every inbound event goes
//! through [`Matchers::call`], which tries the temporary matchers first and
//! then scans the permanent list in registration order, honoring block
//! semantics.

use vstd::prelude::*;

use crate::config::ConfigV;
use crate::config::MatchersConfig;
use crate::event::Event;
use crate::event::EventV;
use crate::handle::handler_eval;
use crate::handle::MatcherHandler;
use crate::session::Session;
use crate::session::SessionV;
use crate::signal::Signal;
use crate::text::chars_eq;

verus! {

/// A registered permanent matcher: a name and description for the humans,
/// and the handler chain that dispatch evaluates.
pub struct Matcher {
    pub name: Vec<char>,
    pub description: Vec<char>,
    pub handler: MatcherHandler,
}

impl Matcher {
    pub fn new(name: Vec<char>, description: Vec<char>, handler: MatcherHandler) -> (r: Matcher)
        ensures
            r == (Matcher { name, description, handler }),
    {
        Matcher { name, description, handler }
    }
}

/// What one matcher yields on an event: each matcher sees a fresh session
/// around the same inbound event.
pub open spec fn matcher_eval(m: Matcher, cfg: ConfigV, ev: EventV) -> (Signal, SessionV) {
    handler_eval(m.handler, SessionV { event: ev, config: cfg })
}

/// A one-shot conversational matcher stored under its correlation key.
pub struct TempEntry {
    pub key: Vec<char>,
    pub handler: MatcherHandler,
}

/// What one temporary matcher yields on an event.
pub open spec fn temp_eval(e: TempEntry, cfg: ConfigV, ev: EventV) -> (Signal, SessionV) {
    handler_eval(e.handler, SessionV { event: ev, config: cfg })
}

/// Pairwise distinct correlation keys: at most one live temporary matcher
/// per key at a time.
pub open spec fn unique_keys(entries: Seq<TempEntry>) -> bool {
    forall|i: int, j: int|
        0 <= i < j < entries.len() ==> (#[trigger] entries[i].key@) != (#[trigger] entries[j].key@)
}

/// The position of the entry stored under `k`, if any.
pub open spec fn key_index(entries: Seq<TempEntry>, k: Seq<char>) -> Option<int>
    decreases entries.len(),
{
    if entries.len() == 0 {
        None
    } else if entries[0].key@ == k {
        Some(0int)
    } else {
        match key_index(entries.drop_first(), k) {
            None => None,
            Some(i) => Some(i + 1),
        }
    }
}

pub proof fn lemma_key_index(entries: Seq<TempEntry>, k: Seq<char>)
    ensures
        match key_index(entries, k) {
            None => forall|j: int| 0 <= j < entries.len() ==> (#[trigger] entries[j].key@) != k,
            Some(i) => 0 <= i < entries.len() && entries[i].key@ == k && (forall|j: int|
                0 <= j < i ==> (#[trigger] entries[j].key@) != k),
        },
    decreases entries.len(),
{
    if entries.len() > 0 && entries[0].key@ != k {
        lemma_key_index(entries.drop_first(), k);
        match key_index(entries.drop_first(), k) {
            None => {
                assert forall|j: int| 0 <= j < entries.len() implies (#[trigger] entries[j].key@)
                    != k by {
                    if j > 0 {
                        assert(entries.drop_first()[j - 1] == entries[j]);
                    }
                }
            },
            Some(i) => {
                assert(entries.drop_first()[i] == entries[i + 1]);
                assert forall|j: int| 0 <= j < i + 1 implies (#[trigger] entries[j].key@) != k by {
                    if j > 0 {
                        assert(entries.drop_first()[j - 1] == entries[j]);
                    }
                }
            },
        }
    }
}

/// The position of the first temporary matcher that accepts the event, if
/// any.
pub open spec fn temp_hit_index(entries: Seq<TempEntry>, cfg: ConfigV, ev: EventV) -> Option<int>
    decreases entries.len(),
{
    if entries.len() == 0 {
        None
    } else if temp_eval(entries[0], cfg, ev).0 != Signal::NotMatch {
        Some(0int)
    } else {
        match temp_hit_index(entries.drop_first(), cfg, ev) {
            None => None,
            Some(i) => Some(i + 1),
        }
    }
}

pub proof fn lemma_temp_hit_index(entries: Seq<TempEntry>, cfg: ConfigV, ev: EventV)
    ensures
        match temp_hit_index(entries, cfg, ev) {
            None => forall|j: int|
                0 <= j < entries.len() ==> temp_eval(#[trigger] entries[j], cfg, ev).0
                    == Signal::NotMatch,
            Some(i) => 0 <= i < entries.len() && temp_eval(entries[i], cfg, ev).0
                != Signal::NotMatch && (forall|j: int|
                0 <= j < i ==> temp_eval(#[trigger] entries[j], cfg, ev).0 == Signal::NotMatch),
        },
    decreases entries.len(),
{
    if entries.len() > 0 && temp_eval(entries[0], cfg, ev).0 == Signal::NotMatch {
        lemma_temp_hit_index(entries.drop_first(), cfg, ev);
        match temp_hit_index(entries.drop_first(), cfg, ev) {
            None => {
                assert forall|j: int| 0 <= j < entries.len() implies temp_eval(
                    #[trigger] entries[j],
                    cfg,
                    ev,
                ).0 == Signal::NotMatch by {
                    if j > 0 {
                        assert(entries.drop_first()[j - 1] == entries[j]);
                    }
                }
            },
            Some(i) => {
                assert(entries.drop_first()[i] == entries[i + 1]);
                assert forall|j: int| 0 <= j < i + 1 implies temp_eval(
                    #[trigger] entries[j],
                    cfg,
                    ev,
                ).0 == Signal::NotMatch by {
                    if j > 0 {
                        assert(entries.drop_first()[j - 1] == entries[j]);
                    }
                }
            },
        }
    }
}

/// The shared table of one-shot conversational matchers, keyed by the
/// correlation identity of the exchange they answer.
pub struct TempMatchers {
    pub entries: Vec<TempEntry>,
}

impl TempMatchers {
    /// At most one live entry per correlation key.
    pub open spec fn wf(self) -> bool {
        unique_keys(self.entries@)
    }

    /// Whether an entry is stored under `k`.
    pub open spec fn spec_contains_key(self, k: Seq<char>) -> bool {
        exists|i: int| 0 <= i < self.entries@.len() && (#[trigger] self.entries@[i].key@) == k
    }

    /// An empty table.
    pub fn new() -> (r: TempMatchers)
        ensures
            r.entries@.len() == 0,
            r.wf(),
    {
        TempMatchers { entries: Vec::new() }
    }

    /// Whether an entry is stored under `k`.
    pub fn contains_key(&self, k: &Vec<char>) -> (r: bool)
        ensures
            r == self.spec_contains_key(k@),
    {
        let mut i: usize = 0;
        while i < self.entries.len()
            invariant
                i <= self.entries@.len(),
                forall|j: int| 0 <= j < i ==> (#[trigger] self.entries@[j].key@) != k@,
            decreases self.entries@.len() - i,
        {
            if chars_eq(&self.entries[i].key, k) {
                return true;
            }
            i = i + 1;
        }
        false
    }

    /// Registers a one-shot matcher under `key`. An occupied key is refused,
    /// so a pending conversation is never silently orphaned by a later one.
    pub fn insert(&mut self, key: Vec<char>, handler: MatcherHandler) -> (r: bool)
        requires
            old(self).wf(),
        ensures
            final(self).wf(),
            r == !old(self).spec_contains_key(key@),
            r ==> final(self).entries@ == old(self).entries@.push(TempEntry { key, handler }),
            !r ==> *final(self) == *old(self),
    {
        if self.contains_key(&key) {
            return false;
        }
        let ghost before = self.entries@;
        self.entries.push(TempEntry { key, handler });
        proof {
            assert forall|i: int, j: int|
                0 <= i < j < self.entries@.len() implies (#[trigger] self.entries@[i].key@) != (
            #[trigger] self.entries@[j].key@) by {
                if j < before.len() {
                    assert(self.entries@[i] == before[i]);
                    assert(self.entries@[j] == before[j]);
                } else {
                    assert(self.entries@[i] == before[i]);
                }
            }
        }
        true
    }

    /// Removes the entry stored under `k`, if any; every other entry stays.
    #[verifier::loop_isolation(false)]
    pub fn remove(&mut self, k: &Vec<char>) -> (r: bool)
        requires
            old(self).wf(),
        ensures
            final(self).wf(),
            r == old(self).spec_contains_key(k@),
            !final(self).spec_contains_key(k@),
            match key_index(old(self).entries@, k@) {
                None => *final(self) == *old(self),
                Some(i) => final(self).entries@ == old(self).entries@.remove(i),
            },
    {
        proof {
            lemma_key_index(self.entries@, k@);
        }
        let mut i: usize = 0;
        while i < self.entries.len()
            invariant
                i <= self.entries@.len(),
                self.entries == old(self).entries,
                forall|j: int| 0 <= j < i ==> (#[trigger] self.entries@[j].key@) != k@,
            decreases self.entries@.len() - i,
        {
            if chars_eq(&self.entries[i].key, k) {
                proof {
                    lemma_key_index(self.entries@, k@);
                }
                let ghost before = self.entries@;
                self.entries.remove(i);
                proof {
                    lemma_unique_keys_remove(before, i as int);
                }
                return true;
            }
            i = i + 1;
        }
        false
    }
}

/// Removing an entry keeps the remaining keys pairwise distinct, and leaves
/// no entry under the removed entry's key.
pub proof fn lemma_unique_keys_remove(entries: Seq<TempEntry>, i: int)
    requires
        unique_keys(entries),
        0 <= i < entries.len(),
    ensures
        unique_keys(entries.remove(i)),
        forall|j: int|
            0 <= j < entries.remove(i).len() ==> (#[trigger] entries.remove(i)[j].key@)
                != entries[i].key@,
{
    entries.remove_ensures(i);
    assert forall|a: int, b: int|
        0 <= a < b < entries.remove(i).len() implies (#[trigger] entries.remove(i)[a].key@) != (
    #[trigger] entries.remove(i)[b].key@) by {
        let a2: int = if a < i {
            a
        } else {
            a + 1
        };
        let b2: int = if b < i {
            b
        } else {
            b + 1
        };
        assert(entries.remove(i)[a] == entries[a2]);
        assert(entries.remove(i)[b] == entries[b2]);
    }
    assert forall|j: int| 0 <= j < entries.remove(i).len() implies (
    #[trigger] entries.remove(i)[j].key@) != entries[i].key@ by {
        let j2: int = if j < i {
            j
        } else {
            j + 1
        };
        assert(entries.remove(i)[j] == entries[j2]);
        if j2 < i {
            assert(entries[j2].key@ != entries[i].key@);
        } else {
            assert(entries[i].key@ != entries[j2].key@);
        }
    }
}

/// One permanent matcher that fired on an event: its position in the
/// registry, the signal it reported, and the session (with its rewrites)
/// that its body receives.
pub struct Firing {
    pub index: usize,
    pub signal: Signal,
    pub session: Session,
}

/// The view of a firing.
pub ghost struct FiringV {
    pub index: int,
    pub signal: Signal,
    pub session: SessionV,
}

impl View for Firing {
    type V = FiringV;

    open spec fn view(&self) -> FiringV {
        FiringV { index: self.index as int, signal: self.signal, session: self.session@ }
    }
}

/// The views of a list of firings.
pub open spec fn firing_views(s: Seq<Firing>) -> Seq<FiringV> {
    s.map_values(|f: Firing| f@)
}

/// How one dispatch of an event ended.
pub enum DispatchOutcome {
    /// A temporary matcher accepted the event and was consumed; permanent
    /// matchers were not consulted. The session carries the event, with the
    /// rewrites of the matcher's pre-handlers, to the waiting conversation.
    TempConsumed { key: Vec<char>, session: Session },
    /// The permanent matchers were scanned in registration order. `firings`
    /// lists, in order, every matcher whose handler fires; `blocked` names
    /// the matcher that claimed the event exclusively, if one did, and no
    /// later matcher was evaluated.
    Scanned { firings: Vec<Firing>, blocked: Option<usize> },
}

/// What scanning the permanent matchers from position `i` on yields: the
/// firings in order, and the position that blocked, if any.
pub open spec fn scan_from(ms: Seq<Matcher>, cfg: ConfigV, ev: EventV, i: int) -> (
    Seq<FiringV>,
    Option<int>,
)
    decreases ms.len() - i,
    when 0 <= i <= ms.len()
{
    if i >= ms.len() {
        (Seq::empty(), None)
    } else {
        let r = matcher_eval(ms[i], cfg, ev);
        if r.0 == Signal::MatchAndBlock {
            (seq![FiringV { index: i, signal: r.0, session: r.1 }], Some(i))
        } else if r.0 == Signal::Matched {
            let rest = scan_from(ms, cfg, ev, i + 1);
            (seq![FiringV { index: i, signal: r.0, session: r.1 }] + rest.0, rest.1)
        } else {
            scan_from(ms, cfg, ev, i + 1)
        }
    }
}

/// Every firing that a scan from position `i` yields is the true evaluation
/// of its own matcher, at a position from `i` on, with a signal that is not
/// a miss; and the firings come in strictly increasing position order.
#[verifier::spinoff_prover]
proof fn lemma_scan_elems(ms: Seq<Matcher>, cfg: ConfigV, ev: EventV, i: int)
    requires
        0 <= i <= ms.len(),
    ensures
        ({
            let sc = scan_from(ms, cfg, ev, i);
            &&& forall|t: int|
                0 <= t < sc.0.len() ==> {
                    let f = #[trigger] sc.0[t];
                    &&& i <= f.index < ms.len()
                    &&& f.signal == matcher_eval(ms[f.index], cfg, ev).0
                    &&& f.session == matcher_eval(ms[f.index], cfg, ev).1
                    &&& f.signal != Signal::NotMatch
                }
            &&& forall|t1: int, t2: int|
                0 <= t1 < t2 < sc.0.len() ==> (#[trigger] sc.0[t1]).index < (
                #[trigger] sc.0[t2]).index
        }),
    decreases ms.len() - i,
{
    let sc = scan_from(ms, cfg, ev, i);
    if i < ms.len() {
        let r = matcher_eval(ms[i], cfg, ev);
        if r.0 == Signal::MatchAndBlock {
            assert(sc.0[0].index == i);
        } else {
            lemma_scan_elems(ms, cfg, ev, i + 1);
            let rest = scan_from(ms, cfg, ev, i + 1);
            if r.0 == Signal::Matched {
                assert(sc.0[0] == FiringV { index: i, signal: r.0, session: r.1 });
                assert(forall|t: int| 1 <= t < sc.0.len() ==> #[trigger] sc.0[t] == rest.0[t - 1]);
            }
        }
    }
}

/// A scan from position `i` reports the first blocking matcher from `i` on,
/// or that none blocks; no firing sits past the blocking position.
#[verifier::spinoff_prover]
proof fn lemma_scan_blocked(ms: Seq<Matcher>, cfg: ConfigV, ev: EventV, i: int)
    requires
        0 <= i <= ms.len(),
    ensures
        ({
            let sc = scan_from(ms, cfg, ev, i);
            match sc.1 {
                Some(b) => {
                    &&& i <= b < ms.len()
                    &&& matcher_eval(ms[b], cfg, ev).0 == Signal::MatchAndBlock
                    &&& forall|j: int|
                        i <= j < b ==> matcher_eval(#[trigger] ms[j], cfg, ev).0
                            != Signal::MatchAndBlock
                    &&& forall|t: int| 0 <= t < sc.0.len() ==> (#[trigger] sc.0[t]).index <= b
                },
                None => forall|j: int|
                    i <= j < ms.len() ==> matcher_eval(#[trigger] ms[j], cfg, ev).0
                        != Signal::MatchAndBlock,
            }
        }),
    decreases ms.len() - i,
{
    let sc = scan_from(ms, cfg, ev, i);
    if i < ms.len() {
        let r = matcher_eval(ms[i], cfg, ev);
        if r.0 == Signal::MatchAndBlock {
            assert(sc.0[0].index == i);
        } else {
            lemma_scan_blocked(ms, cfg, ev, i + 1);
            let rest = scan_from(ms, cfg, ev, i + 1);
            if r.0 == Signal::Matched {
                assert(sc.0[0] == FiringV { index: i, signal: r.0, session: r.1 });
                assert(forall|t: int| 1 <= t < sc.0.len() ==> #[trigger] sc.0[t] == rest.0[t - 1]);
            }
        }
    }
}

/// Every matcher from position `i` up to the blocking one (or up to the end
/// when none blocks) whose signal is not a miss appears among the firings.
#[verifier::spinoff_prover]
proof fn lemma_scan_complete(ms: Seq<Matcher>, cfg: ConfigV, ev: EventV, i: int)
    requires
        0 <= i <= ms.len(),
    ensures
        ({
            let sc = scan_from(ms, cfg, ev, i);
            let upper = match sc.1 {
                Some(b) => b + 1,
                None => ms.len() as int,
            };
            forall|j: int|
                i <= j < upper && matcher_eval(#[trigger] ms[j], cfg, ev).0 != Signal::NotMatch
                    ==> exists|t: int| 0 <= t < sc.0.len() && (#[trigger] sc.0[t]).index == j
        }),
    decreases ms.len() - i,
{
    let sc = scan_from(ms, cfg, ev, i);
    lemma_scan_blocked(ms, cfg, ev, i);
    if i < ms.len() {
        let r = matcher_eval(ms[i], cfg, ev);
        if r.0 == Signal::MatchAndBlock {
            assert(sc.0[0].index == i);
        } else {
            lemma_scan_complete(ms, cfg, ev, i + 1);
            lemma_scan_blocked(ms, cfg, ev, i + 1);
            let rest = scan_from(ms, cfg, ev, i + 1);
            let upper = match sc.1 {
                Some(b) => b + 1,
                None => ms.len() as int,
            };
            if r.0 == Signal::Matched {
                assert(sc.0[0] == FiringV { index: i, signal: r.0, session: r.1 });
                assert(forall|t: int| 1 <= t < sc.0.len() ==> #[trigger] sc.0[t] == rest.0[t - 1]);
                assert forall|j: int|
                    i <= j < upper && matcher_eval(#[trigger] ms[j], cfg, ev).0
                        != Signal::NotMatch implies exists|t: int|
                    0 <= t < sc.0.len() && (#[trigger] sc.0[t]).index == j by {
                    if j == i {
                        assert(sc.0[0].index == i);
                    } else {
                        let t0 = choose|t: int|
                            0 <= t < rest.0.len() && (#[trigger] rest.0[t]).index == j;
                        assert(sc.0[t0 + 1].index == j);
                    }
                }
            } else {
                assert forall|j: int|
                    i <= j < upper && matcher_eval(#[trigger] ms[j], cfg, ev).0
                        != Signal::NotMatch implies exists|t: int|
                    0 <= t < sc.0.len() && (#[trigger] sc.0[t]).index == j by {
                    let t0 = choose|t: int|
                        0 <= t < rest.0.len() && (#[trigger] rest.0[t]).index == j;
                    assert(sc.0[t0].index == j);
                }
            }
        }
    }
}

/// Order preservation: a scan evaluates the permanent matchers in
/// registration order. Every firing carries the signal and the rewritten
/// session of its own matcher, firings come in position order, and when some
/// matcher blocks, the first blocking one wins: nothing past it fires, and
/// every matcher up to it whose signal is not a miss fires. When none
/// blocks, exactly the matchers whose signal is not a miss fire.
#[verifier::rlimit(100)]
#[verifier::spinoff_prover]
pub proof fn lemma_order_preservation(ms: Seq<Matcher>, cfg: ConfigV, ev: EventV)
    ensures
        ({
            let sc = scan_from(ms, cfg, ev, 0);
            &&& forall|t: int|
                0 <= t < sc.0.len() ==> {
                    let f = #[trigger] sc.0[t];
                    &&& 0 <= f.index < ms.len()
                    &&& f.signal == matcher_eval(ms[f.index], cfg, ev).0
                    &&& f.session == matcher_eval(ms[f.index], cfg, ev).1
                    &&& f.signal != Signal::NotMatch
                }
            &&& forall|t1: int, t2: int|
                0 <= t1 < t2 < sc.0.len() ==> (#[trigger] sc.0[t1]).index < (
                #[trigger] sc.0[t2]).index
            &&& match sc.1 {
                Some(b) => {
                    &&& 0 <= b < ms.len()
                    &&& matcher_eval(ms[b], cfg, ev).0 == Signal::MatchAndBlock
                    &&& forall|j: int|
                        0 <= j < b ==> matcher_eval(#[trigger] ms[j], cfg, ev).0
                            != Signal::MatchAndBlock
                    &&& forall|t: int| 0 <= t < sc.0.len() ==> (#[trigger] sc.0[t]).index <= b
                    &&& forall|j: int|
                        0 <= j <= b && matcher_eval(#[trigger] ms[j], cfg, ev).0
                            != Signal::NotMatch ==> exists|t: int|
                            0 <= t < sc.0.len() && (#[trigger] sc.0[t]).index == j
                },
                None => {
                    &&& forall|j: int|
                        0 <= j < ms.len() ==> matcher_eval(#[trigger] ms[j], cfg, ev).0
                            != Signal::MatchAndBlock
                    &&& forall|j: int|
                        0 <= j < ms.len() && matcher_eval(#[trigger] ms[j], cfg, ev).0
                            != Signal::NotMatch ==> exists|t: int|
                            0 <= t < sc.0.len() && (#[trigger] sc.0[t]).index == j
                },
            }
        }),
{
    lemma_scan_elems(ms, cfg, ev, 0);
    lemma_scan_blocked(ms, cfg, ev, 0);
    lemma_scan_complete(ms, cfg, ev, 0);
}

/// Single consumption: when the first accepting temporary matcher is
/// consumed, no entry under its key remains, so a second identical follow-up
/// event can never be routed to it again — any later hit is an entry under a
/// different key.
pub proof fn lemma_single_consumption(entries: Seq<TempEntry>, cfg: ConfigV, ev: EventV)
    requires
        unique_keys(entries),
        temp_hit_index(entries, cfg, ev) is Some,
    ensures
        ({
            let i = temp_hit_index(entries, cfg, ev)->Some_0;
            let rest = entries.remove(i);
            &&& 0 <= i < entries.len()
            &&& unique_keys(rest)
            &&& forall|j: int|
                0 <= j < rest.len() ==> (#[trigger] rest[j].key@) != entries[i].key@
            &&& match temp_hit_index(rest, cfg, ev) {
                Some(i2) => rest[i2].key@ != entries[i].key@,
                None => true,
            }
        }),
{
    lemma_temp_hit_index(entries, cfg, ev);
    let i = temp_hit_index(entries, cfg, ev)->Some_0;
    lemma_unique_keys_remove(entries, i);
    let rest = entries.remove(i);
    lemma_temp_hit_index(rest, cfg, ev);
}

/// The registry: the ordered permanent matchers, the configuration, and the
/// table of temporary matchers.
pub struct Matchers {
    pub inner: Vec<Matcher>,
    pub config: MatchersConfig,
    pub temps: TempMatchers,
}

impl Matchers {
    /// An empty registry with an empty configuration.
    pub fn new() -> (r: Matchers)
        ensures
            r.inner@.len() == 0,
            r.temps.entries@.len() == 0,
            r.config@.nicknames.len() == 0,
            r.temps.wf(),
    {
        Matchers { inner: Vec::new(), config: MatchersConfig::new(), temps: TempMatchers::new() }
    }

    /// Registers one more permanent matcher, after all earlier ones.
    pub fn add_matcher(self, matcher: Matcher) -> (r: Matchers)
        ensures
            r.inner@ == self.inner@.push(matcher),
            r.config == self.config,
            r.temps == self.temps,
    {
        let mut m = self;
        m.inner.push(matcher);
        m
    }

    /// Installs the configuration; registered matchers and pending
    /// temporary matchers stay.
    pub fn start(&mut self, config: MatchersConfig)
        ensures
            final(self).config == config,
            final(self).inner == old(self).inner,
            final(self).temps == old(self).temps,
    {
        self.config = config;
    }

    /// Routes one inbound event. The temporary matchers are tried first;
    /// the first one that accepts is removed from the table (consumed
    /// exactly once) and the permanent matchers are not consulted. Else the
    /// permanent matchers run in registration order until one blocks.
    /// Routing never fails: no outcome is an error.
    #[verifier::loop_isolation(false)]
    #[verifier::rlimit(50)]
    pub fn call(&mut self, event: &Event) -> (r: DispatchOutcome)
        requires
            old(self).temps.wf(),
        ensures
            final(self).inner == old(self).inner,
            final(self).config == old(self).config,
            final(self).temps.wf(),
            ({
                let hi = temp_hit_index(old(self).temps.entries@, old(self).config@, event@);
                match hi {
                    Some(i) => r matches DispatchOutcome::TempConsumed { key, session } && ({
                        &&& key@ == old(self).temps.entries@[i].key@
                        &&& session@ == temp_eval(
                            old(self).temps.entries@[i],
                            old(self).config@,
                            event@,
                        ).1
                        &&& final(self).temps.entries@ == old(self).temps.entries@.remove(i)
                        &&& !final(self).temps.spec_contains_key(old(self).temps.entries@[i].key@)
                    }),
                    None => r matches DispatchOutcome::Scanned { firings, blocked } && ({
                        let sc = scan_from(old(self).inner@, old(self).config@, event@, 0);
                        &&& final(self).temps == old(self).temps
                        &&& firing_views(firings@) == sc.0
                        &&& match blocked {
                            Some(b) => sc.1 == Some(b as int),
                            None => sc.1 is None,
                        }
                    }),
                }
            }),
    {
        let mut i: usize = 0;
        while i < self.temps.entries.len()
            invariant
                i <= self.temps.entries@.len(),
                self.inner == old(self).inner,
                self.config == old(self).config,
                self.temps == old(self).temps,
                forall|j: int|
                    0 <= j < i ==> temp_eval(
                        #[trigger] self.temps.entries@[j],
                        self.config@,
                        event@,
                    ).0 == Signal::NotMatch,
            decreases self.temps.entries@.len() - i,
        {
            let mut session = Session { event: event.clone(), config: self.config.clone() };
            let sig = self.temps.entries[i].handler.handle(&mut session);
            if !matches!(sig, Signal::NotMatch) {
                proof {
                    lemma_temp_hit_index(self.temps.entries@, self.config@, event@);
                }
                let ghost before = self.temps.entries@;
                let entry = self.temps.entries.remove(i);
                proof {
                    lemma_unique_keys_remove(before, i as int);
                }
                return DispatchOutcome::TempConsumed { key: entry.key, session };
            }
            i = i + 1;
        }
        proof {
            lemma_temp_hit_index(self.temps.entries@, self.config@, event@);
        }
        let ghost sc = scan_from(self.inner@, self.config@, event@, 0);
        let mut firings: Vec<Firing> = Vec::new();
        let mut k: usize = 0;
        proof {
            assert(firing_views(firings@) + sc.0 =~= sc.0);
        }
        while k < self.inner.len()
            invariant
                k <= self.inner@.len(),
                self.inner == old(self).inner,
                self.config == old(self).config,
                self.temps == old(self).temps,
                sc.0 == firing_views(firings@) + scan_from(
                    self.inner@,
                    self.config@,
                    event@,
                    k as int,
                ).0,
                sc.1 == scan_from(self.inner@, self.config@, event@, k as int).1,
            decreases self.inner@.len() - k,
        {
            let mut session = Session { event: event.clone(), config: self.config.clone() };
            let sig = self.inner[k].handler.handle(&mut session);
            match sig {
                Signal::NotMatch => {},
                Signal::Matched => {
                    let ghost fv = firing_views(firings@);
                    firings.push(Firing { index: k, signal: sig, session });
                    proof {
                        assert(firing_views(firings@) =~= fv + seq![firings@.last()@]);
                        assert(fv + seq![firings@.last()@] + scan_from(
                            self.inner@,
                            self.config@,
                            event@,
                            k + 1,
                        ).0 =~= fv + (seq![firings@.last()@] + scan_from(
                            self.inner@,
                            self.config@,
                            event@,
                            k + 1,
                        ).0));
                    }
                },
                Signal::MatchAndBlock => {
                    let ghost fv = firing_views(firings@);
                    firings.push(Firing { index: k, signal: sig, session });
                    proof {
                        assert(firing_views(firings@) =~= fv + seq![firings@.last()@]);
                    }
                    return DispatchOutcome::Scanned { firings, blocked: Some(k) };
                },
            }
            k = k + 1;
        }
        DispatchOutcome::Scanned { firings, blocked: None }
    }
}

} // verus!
