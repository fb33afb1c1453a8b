//! The per-connection bridge between a child process and its network peer:
//! the relay-loop decisions, the communication record with its at-most-once
//! Relaying-to-Timing transition, and the pool that registers all attached
//! bridges plus the one pre-spawned spare.

pub mod splice;

use vstd::prelude::*;
use crate::debuggee::splice::{SpliceError, SpliceOutcome};

verus! {

/// The two relay directions of an attached bridge.
#[derive(Clone, Copy, Debug, PartialEq, Eq, Structural)]
pub enum Direction {
    /// Moves bytes from the socket to the child's standard input.
    Incoming,
    /// Moves bytes from the child's standard output to the socket.
    Outgoing,
}

/// What a relay loop must do after one transfer call.
#[derive(Clone, Copy, Debug, PartialEq, Eq, Structural)]
pub enum RelayAction {
    /// Keep relaying this direction.
    Proceed,
    /// Leave this loop without touching shared state: the condition ends
    /// only this direction, the other may still be flowing.
    Finish,
    /// Attempt the shutdown transition, then leave this loop.
    Shutdown,
    /// A kernel-contract violation: abort the whole process.
    Abort,
}

/// What `relay_step` decides, as a function of direction and outcome.
pub open spec fn spec_relay_step(dir: Direction, outcome: SpliceOutcome) -> RelayAction {
    match outcome {
        SpliceOutcome::Moved(n) => if n > 0 {
            RelayAction::Proceed
        } else {
            match dir {
                Direction::Incoming => RelayAction::Shutdown,
                Direction::Outgoing => RelayAction::Finish,
            }
        },
        SpliceOutcome::Failed(SpliceError::BrokenPipe) => match dir {
            Direction::Incoming => RelayAction::Finish,
            Direction::Outgoing => RelayAction::Shutdown,
        },
        SpliceOutcome::Failed(SpliceError::InvalidArgument) => RelayAction::Abort,
        SpliceOutcome::Fatal => RelayAction::Abort,
    }
}

/// Decides how a relay loop reacts to one classified transfer outcome.
///
/// Inbound, end of input means the remote closed the socket for good: shut
/// the session down.  A broken pipe only means the child stopped reading;
/// bytes may still be flowing outward, so that direction merely stops.
/// Outbound it is the mirror image: a broken pipe means the remote no
/// longer accepts, so shut down; end of input only means the child finished
/// writing.
pub fn relay_step(dir: Direction, outcome: SpliceOutcome) -> (action: RelayAction)
    ensures
        action == spec_relay_step(dir, outcome),
{
    match outcome {
        SpliceOutcome::Moved(n) => {
            if n > 0 {
                RelayAction::Proceed
            } else {
                match dir {
                    Direction::Incoming => RelayAction::Shutdown,
                    Direction::Outgoing => RelayAction::Finish,
                }
            }
        },
        SpliceOutcome::Failed(SpliceError::BrokenPipe) => {
            match dir {
                Direction::Incoming => RelayAction::Finish,
                Direction::Outgoing => RelayAction::Shutdown,
            }
        },
        SpliceOutcome::Failed(SpliceError::InvalidArgument) => RelayAction::Abort,
        SpliceOutcome::Fatal => RelayAction::Abort,
    }
}

/// The failures of an operation on a communication record.  All of them
/// are conditions a caller recovers from; in particular `NotRelaying` is
/// the expected answer to the second of two racing shutdown observers.
#[derive(Clone, Copy, Debug, PartialEq, Eq, Structural)]
pub enum CommsError {
    /// The record had already left the Relaying state.
    NotRelaying,
    /// The record was still Relaying, so no deadline is armed.
    NotTiming,
    /// A deadline is armed but has not yet passed.
    NotTimedOut,
}

/// The auxiliary state of a communication record: either the two relay
/// loops are running, or the record has transitioned and waits out its
/// deadline (none when no timeout was configured).
#[derive(Clone, Copy, Debug, PartialEq, Eq, Structural)]
pub enum DebuggeeCommsAux {
    /// Both relay loops are live; the process around this library holds
    /// their thread handles under the same lock as this record.
    Splice,
    /// The shutdown transition has happened; the field is the absolute
    /// deadline, in milliseconds of the driving clock.
    Timeout(Option<u64>),
}

/// The per-bridge shared state once a socket is attached: the configured
/// idle timeout and the Relaying/Timing tag.  The socket itself is owned
/// by the process around this library, under the same lock.
#[derive(Clone, Copy, Debug, PartialEq, Eq, Structural)]
pub struct DebuggeeComms {
    /// The configured idle timeout in milliseconds, if any.
    pub timeout: Option<u64>,
    /// The Relaying/Timing tag.
    pub aux: DebuggeeCommsAux,
}

/// `a + b`, stopped at the largest representable value.
pub open spec fn sat_add(a: u64, b: u64) -> u64 {
    if a + b > u64::MAX {
        u64::MAX
    } else {
        (a + b) as u64
    }
}

/// The absolute deadline armed by a transition at time `now` under the
/// configured `timeout`: none when no timeout is configured.
pub open spec fn deadline_from(timeout: Option<u64>, now: u64) -> Option<u64> {
    match timeout {
        None => None,
        Some(t) => Some(sat_add(now, t)),
    }
}

impl DebuggeeComms {
    /// A record is well formed when an armed deadline can only come from a
    /// configured timeout.
    pub open spec fn wf(self) -> bool {
        self.aux matches DebuggeeCommsAux::Timeout(Some(_)) ==> self.timeout is Some
    }

    /// The relay loops still run; the shutdown transition has not happened.
    pub open spec fn is_relaying(self) -> bool {
        self.aux is Splice
    }

    /// An armed deadline has passed at time `now`.
    pub open spec fn spec_timed_out(self, now: u64) -> bool {
        self.aux matches DebuggeeCommsAux::Timeout(Some(d)) && now >= d
    }

    /// The record after a shutdown transition performed at time `now`.
    pub open spec fn spec_transition(self, now: u64) -> DebuggeeComms {
        DebuggeeComms {
            timeout: self.timeout,
            aux: DebuggeeCommsAux::Timeout(deadline_from(self.timeout, now)),
        }
    }

    /// The Relaying-to-Timing transition, `now` being the driving clock in
    /// milliseconds.  It succeeds exactly once per record: the first caller
    /// arms the deadline, every later caller gets `NotRelaying` and leaves
    /// the record untouched.
    pub fn to_timeout(&mut self, now: u64) -> (result: Result<(), CommsError>)
        ensures
            old(self).is_relaying() ==> *final(self) == old(self).spec_transition(now)
                && result is Ok,
            !old(self).is_relaying() ==> *final(self) == *old(self)
                && result == Err::<(), CommsError>(CommsError::NotRelaying),
            final(self).wf() <== old(self).wf(),
            !final(self).is_relaying() || old(self).is_relaying(),
    {
        match self.aux {
            DebuggeeCommsAux::Splice => {
                let deadline: Option<u64> = match self.timeout {
                    None => None,
                    Some(t) => Some(
                        if now <= u64::MAX - t {
                            now + t
                        } else {
                            u64::MAX
                        },
                    ),
                };
                self.aux = DebuggeeCommsAux::Timeout(deadline);
                Ok(())
            },
            DebuggeeCommsAux::Timeout(_) => Err(CommsError::NotRelaying),
        }
    }

    /// Whether an armed deadline has passed at time `now`.  A record still
    /// Relaying, or one with no deadline armed, is never timed out.
    pub fn is_timedout(&self, now: u64) -> (timed_out: bool)
        ensures
            timed_out == self.spec_timed_out(now),
    {
        match self.aux {
            DebuggeeCommsAux::Timeout(Some(deadline)) => now >= deadline,
            _ => false,
        }
    }

    /// Confirms that the record may be force-closed at time `now`: the
    /// caller shuts the socket down only on `Ok`.  The record itself is
    /// left as it is; shutting a socket down is idempotent, so no state
    /// needs to change here.
    pub fn timeout(&self, now: u64) -> (result: Result<(), CommsError>)
        ensures
            result is Ok <==> self.spec_timed_out(now),
            self.aux matches DebuggeeCommsAux::Timeout(Some(d)) && now < d
                ==> result == Err::<(), CommsError>(CommsError::NotTimedOut),
            !(self.aux matches DebuggeeCommsAux::Timeout(Some(_)))
                ==> result == Err::<(), CommsError>(CommsError::NotTiming),
    {
        match self.aux {
            DebuggeeCommsAux::Timeout(Some(deadline)) => {
                if now >= deadline {
                    Ok(())
                } else {
                    Err(CommsError::NotTimedOut)
                }
            },
            _ => Err(CommsError::NotTiming),
        }
    }
}

/// The failures of a pool operation.
#[derive(Clone, Copy, Debug, PartialEq, Eq, Structural)]
pub enum PoolError {
    /// `spool_debuggee` found the spool slot already occupied.
    SpoolOccupied,
    /// `start_debuggee` found no bridge spooled.
    SpoolEmpty,
    /// `start` found the bridge already attached.
    AlreadyAttached,
}

/// What the sweep must do with one bridge.
#[derive(Clone, Copy, Debug, PartialEq, Eq, Structural)]
pub enum CleanupAction {
    /// Nothing yet: the bridge is still relaying, or its deadline has not
    /// passed.
    Wait,
    /// Both directions have wound down and no deadline is armed: query the
    /// child's exit status, nothing to force-close.
    Reap,
    /// The armed deadline has passed: force-close the socket, then query
    /// the child's exit status.
    ForceCloseAndReap,
}

/// One bridge: a child process and, once attached, its communication
/// record.  The child process itself, the socket and the relay threads are
/// owned by the process around this library, which shares one bridge value
/// between the two relay threads and the driving thread under a single
/// exclusive-access lock.
#[derive(Clone, Copy, Debug, PartialEq, Eq, Structural)]
pub struct Debuggee {
    /// The identifier of the owned child process.
    pub pid: u32,
    /// The communication record; none until a socket is attached.
    pub comms: Option<DebuggeeComms>,
}

impl Debuggee {
    /// A bridge with no communication record has never been attached; once
    /// attached, its record stays well formed.
    pub open spec fn wf(self) -> bool {
        self.comms matches Some(c) ==> c.wf()
    }

    /// The bridge has been attached to a socket.
    pub open spec fn attached(self) -> bool {
        self.comms is Some
    }

    /// The bridge after the shutdown transition is observed at time `now`,
    /// and whether the observer that asked performed it.
    pub open spec fn spec_observe(self, now: u64) -> (Debuggee, bool) {
        match self.comms {
            Some(c) => if c.is_relaying() {
                (Debuggee { pid: self.pid, comms: Some(c.spec_transition(now)) }, true)
            } else {
                (self, false)
            },
            None => (self, false),
        }
    }

    /// A freshly spawned, not-yet-attached bridge.
    pub fn spool(pid: u32) -> (bridge: Debuggee)
        ensures
            bridge == (Debuggee { pid, comms: None::<DebuggeeComms> }),
            bridge.wf(),
            !bridge.attached(),
    {
        Debuggee { pid, comms: None }
    }

    /// Attaches a socket: installs the communication record in state
    /// Relaying with the configured idle `timeout` in milliseconds.  The
    /// caller starts the two relay loops alongside.  Fails, changing
    /// nothing, if the bridge already holds a record.
    pub fn start(&mut self, timeout: Option<u64>) -> (result: Result<(), PoolError>)
        ensures
            !old(self).attached() ==> *final(self) == (Debuggee {
                pid: old(self).pid,
                comms: Some(DebuggeeComms { timeout, aux: DebuggeeCommsAux::Splice }),
            }) && result is Ok,
            old(self).attached() ==> *final(self) == *old(self)
                && result == Err::<(), PoolError>(PoolError::AlreadyAttached),
            final(self).wf() <== old(self).wf(),
    {
        match self.comms {
            None => {
                self.comms = Some(
                    DebuggeeComms { timeout, aux: DebuggeeCommsAux::Splice },
                );
                Ok(())
            },
            Some(_) => Err(PoolError::AlreadyAttached),
        }
    }

    /// The shutdown transition, performed by whichever relay loop observes
    /// a closure first.  Returns whether this caller performed it: the
    /// winner closes the child's descriptors and joins the sibling loop;
    /// a loser finds the record already transitioned and treats that as a
    /// normal outcome, touching nothing.
    pub fn observe_closure(&mut self, now: u64) -> (won: bool)
        ensures
            *final(self) == old(self).spec_observe(now).0,
            won == old(self).spec_observe(now).1,
            final(self).pid == old(self).pid,
            final(self).attached() == old(self).attached(),
            final(self).wf() <== old(self).wf(),
            won ==> old(self).attached()
                && final(self).comms == Some(
                    old(self).comms->Some_0.spec_transition(now),
                ),
            !won ==> *final(self) == *old(self),
            // after any observation of an attached bridge the record has
            // left Relaying for good
            old(self).attached() ==> !(final(self).comms->Some_0.is_relaying()),
    {
        match &mut self.comms {
            Some(c) => c.to_timeout(now).is_ok(),
            None => false,
        }
    }

    /// The sweep's decision for this bridge at time `now`: force-close
    /// exactly when an armed deadline has passed; reap without closing
    /// anything when the record wound down with no timeout configured;
    /// otherwise wait.  A bridge with no configured timeout is never told
    /// to force-close.
    pub fn cleanup(&self, now: u64) -> (action: CleanupAction)
        ensures
            action == CleanupAction::ForceCloseAndReap <==> (
                self.comms matches Some(c) && c.spec_timed_out(now)
            ),
            action == CleanupAction::Reap <==> (
                self.comms matches Some(c)
                    && c.aux == DebuggeeCommsAux::Timeout(None::<u64>)
            ),
            self.wf() && (self.comms matches Some(c) && c.timeout is None)
                ==> action != CleanupAction::ForceCloseAndReap,
            !self.attached() ==> action == CleanupAction::Wait,
            self.comms matches Some(c) && c.is_relaying() ==> action == CleanupAction::Wait,
    {
        match &self.comms {
            None => CleanupAction::Wait,
            Some(c) => {
                match c.aux {
                    DebuggeeCommsAux::Splice => CleanupAction::Wait,
                    DebuggeeCommsAux::Timeout(None) => CleanupAction::Reap,
                    DebuggeeCommsAux::Timeout(Some(deadline)) => {
                        if now >= deadline {
                            CleanupAction::ForceCloseAndReap
                        } else {
                            CleanupAction::Wait
                        }
                    },
                }
            },
        }
    }
}

/// Whether `pid` appears among the reaped pairs `s`.
pub open spec fn has_pid(s: Seq<(u32, i32)>, pid: u32) -> bool {
    exists|i: int| 0 <= i < s.len() && s[i].0 == pid
}

/// The process identifiers of the reaped pairs `s`.
pub open spec fn pid_set(s: Seq<(u32, i32)>) -> Set<u32> {
    Set::new(|pid: u32| has_pid(s, pid))
}

/// No process identifier appears twice in `s`.
pub open spec fn distinct_pids(s: Seq<u32>) -> bool {
    forall|i: int, j: int| 0 <= i < j < s.len() ==> s[i] != s[j]
}

/// Whether `pid` appears among the reaped pairs of `v`.
fn contains_pid(v: &Vec<(u32, i32)>, pid: u32) -> (found: bool)
    ensures
        found == has_pid(v@, pid),
{
    let mut i: usize = 0;
    while i < v.len()
        invariant
            i <= v@.len(),
            forall|k: int| 0 <= k < i ==> (#[trigger] v@[k]).0 != pid,
        decreases v@.len() - i,
    {
        if v[i].0 == pid {
            return true;
        }
        i = i + 1;
    }
    false
}

/// The process-wide registry: the identifiers of all attached bridges, at
/// most one spooled bridge awaiting attachment, and the history of
/// identifiers already reported by the sweep.  The bridges themselves,
/// once attached, are shared with their relay threads by the process
/// around this library; the registry is owned by the driving thread alone.
pub struct DebuggeeSet {
    /// The identifiers of the attached, still-tracked bridges.
    pub debuggees: Vec<u32>,
    /// The pre-spawned bridge, if one awaits attachment.
    pub spool: Option<Debuggee>,
    /// Every identifier the sweep has ever reported; reported once, an
    /// identifier never comes back.
    pub retired: Ghost<Set<u32>>,
}

impl DebuggeeSet {
    /// `pid` is the key of an attached, still-tracked bridge.
    pub open spec fn tracks(self, pid: u32) -> bool {
        self.debuggees@.contains(pid)
    }

    /// Tracked identifiers are unique and never among the retired; a
    /// spooled bridge is unattached and its identifier is fresh.
    pub open spec fn wf(self) -> bool {
        &&& distinct_pids(self.debuggees@)
        &&& (forall|pid: u32| #[trigger] self.debuggees@.contains(pid)
            ==> !self.retired@.contains(pid))
        &&& (self.spool matches Some(bridge) ==> {
            &&& !bridge.attached()
            &&& bridge.wf()
            &&& !self.tracks(bridge.pid)
            &&& !self.retired@.contains(bridge.pid)
        })
    }

    /// An empty pool: nothing tracked, nothing spooled, nothing retired.
    pub fn new() -> (pool: DebuggeeSet)
        ensures
            pool.debuggees@ == Seq::<u32>::empty(),
            pool.spool is None,
            pool.retired@ == Set::<u32>::empty(),
            pool.wf(),
    {
        DebuggeeSet { debuggees: Vec::new(), spool: None, retired: Ghost(Set::empty()) }
    }

    /// Stores the freshly spawned process `pid` in the spool slot.  Fails,
    /// changing nothing, if the slot is occupied: the caller spawns a
    /// process only after checking the slot, so an occupied slot is a
    /// discipline bug, never a leak.  A fresh identifier is one the pool
    /// has never tracked nor retired.
    pub fn spool_debuggee(&mut self, pid: u32) -> (result: Result<u32, PoolError>)
        requires
            old(self).spool is None ==> !old(self).tracks(pid)
                && !old(self).retired@.contains(pid),
        ensures
            old(self).spool is Some ==> *final(self) == *old(self)
                && result == Err::<u32, PoolError>(PoolError::SpoolOccupied),
            old(self).spool is None ==> {
                &&& final(self).spool == Some(
                    Debuggee { pid, comms: None::<DebuggeeComms> },
                )
                &&& final(self).debuggees@ == old(self).debuggees@
                &&& final(self).retired@ == old(self).retired@
                &&& result == Ok::<u32, PoolError>(pid)
            },
            final(self).wf() <== old(self).wf(),
    {
        match self.spool {
            Some(_) => Err(PoolError::SpoolOccupied),
            None => {
                self.spool = Some(Debuggee::spool(pid));
                Ok(pid)
            },
        }
    }

    /// Removes every reaped bridge from the registry and returns the
    /// mapping of process identifier to exit status, one pair per reaped
    /// bridge.  `reaped` is what the sweep collected: for each tracked
    /// bridge whose `cleanup` decision allowed it, the exit status the
    /// child had already reported.  A reaped identifier joins the retired
    /// history and never comes back: later sweeps cannot report it again.
    pub fn cleanup(&mut self, reaped: &Vec<(u32, i32)>) -> (exited: Vec<(u32, i32)>)
        requires
            old(self).wf(),
            forall|i: int| 0 <= i < reaped@.len()
                ==> old(self).tracks(#[trigger] reaped@[i].0),
            forall|i: int, j: int| 0 <= i < j < reaped@.len()
                ==> reaped@[i].0 != reaped@[j].0,
        ensures
            exited@ == reaped@,
            forall|pid: u32| final(self).tracks(pid)
                <==> old(self).tracks(pid) && !has_pid(reaped@, pid),
            final(self).retired@ == old(self).retired@.union(pid_set(reaped@)),
            old(self).retired@.subset_of(final(self).retired@),
            final(self).spool == old(self).spool,
            final(self).wf(),
            // nothing reported now was ever reported before
            forall|pid: u32| has_pid(reaped@, pid) ==> !old(self).retired@.contains(pid),
    {
        let ghost orig = *old(self);
        let mut kept: Vec<u32> = Vec::new();
        let mut i: usize = 0;
        while i < self.debuggees.len()
            invariant
                i <= self.debuggees@.len(),
                *self == orig,
                orig.wf(),
                forall|i: int| 0 <= i < reaped@.len()
                    ==> orig.tracks(#[trigger] reaped@[i].0),
                forall|pid: u32| #[trigger] kept@.contains(pid)
                    <==> orig.debuggees@.subrange(0, i as int).contains(pid)
                        && !has_pid(reaped@, pid),
                distinct_pids(kept@),
            decreases self.debuggees@.len() - i,
        {
            let pid = self.debuggees[i];
            let ghost prefix = orig.debuggees@.subrange(0, i as int);
            let ghost prefix1 = orig.debuggees@.subrange(0, i as int + 1);
            proof {
                assert(prefix1[i as int] == pid);
                assert forall|k: int| 0 <= k < i implies prefix1[k] == prefix[k] by {}
            }
            if !contains_pid(reaped, pid) {
                let ghost kept_pre = kept@;
                proof {
                    // the new element is not yet in kept, so the pids stay
                    // distinct
                    assert(!kept_pre.contains(pid)) by {
                        if kept_pre.contains(pid) {
                            let k = choose|k: int| 0 <= k < prefix.len() && prefix[k] == pid;
                            assert(orig.debuggees@[k] == orig.debuggees@[i as int]);
                        }
                    }
                }
                kept.push(pid);
                proof {
                    assert forall|p: u32| #[trigger] kept@.contains(p)
                        implies prefix1.contains(p) && !has_pid(reaped@, p) by {
                        let m = choose|m: int| 0 <= m < kept@.len() && kept@[m] == p;
                        if m < kept_pre.len() {
                            assert(kept_pre[m] == p);
                            assert(kept_pre.contains(p));
                            let k = choose|k: int| 0 <= k < prefix.len() && prefix[k] == p;
                            assert(prefix1[k] == p);
                        } else {
                            assert(p == pid);
                            assert(prefix1[i as int] == p);
                        }
                    }
                    assert forall|p: u32| prefix1.contains(p) && !has_pid(reaped@, p)
                        implies #[trigger] kept@.contains(p) by {
                        let k = choose|k: int| 0 <= k < prefix1.len()
                            && (#[trigger] prefix1[k]) == p;
                        if k < i {
                            assert(prefix[k] == p);
                            assert(kept_pre.contains(p));
                            let m = choose|m: int| 0 <= m < kept_pre.len()
                                && kept_pre[m] == p;
                            assert(kept@[m] == p);
                        } else {
                            assert(kept@[kept@.len() - 1] == p);
                        }
                    }
                    assert forall|m: int, n: int| 0 <= m < n < kept@.len()
                        implies kept@[m] != kept@[n] by {
                        if n < kept@.len() - 1 {
                            assert(kept_pre[m] == kept@[m] && kept_pre[n] == kept@[n]);
                        } else {
                            assert(kept@[m] == kept_pre[m]);
                            assert(kept_pre.contains(kept_pre[m]));
                        }
                    }
                }
            } else {
                proof {
                    assert forall|p: u32| prefix1.contains(p) && !has_pid(reaped@, p)
                        implies #[trigger] kept@.contains(p) by {
                        let k = choose|k: int| 0 <= k < prefix1.len()
                            && (#[trigger] prefix1[k]) == p;
                        assert(k < i);
                        assert(prefix[k] == p);
                        assert(prefix.contains(p));
                    }
                    assert forall|p: u32| #[trigger] kept@.contains(p)
                        implies prefix1.contains(p) && !has_pid(reaped@, p) by {
                        assert(prefix.contains(p));
                        let k = choose|k: int| 0 <= k < prefix.len() && prefix[k] == p;
                        assert(prefix1[k] == p);
                    }
                }
            }
            i = i + 1;
            proof {
                assert(orig.debuggees@.subrange(0, i as int) == prefix1);
            }
        }
        proof {
            assert(orig.debuggees@.subrange(0, orig.debuggees@.len() as int)
                =~= orig.debuggees@);
        }
        self.debuggees = kept;
        proof {
            self.retired@ = orig.retired@.union(pid_set(reaped@));
            assert(orig.retired@.subset_of(self.retired@));
            assert forall|pid: u32| #[trigger] self.debuggees@.contains(pid)
                implies !self.retired@.contains(pid) by {
                assert(orig.debuggees@.contains(pid));
            }
            if orig.spool is Some {
                let bridge = orig.spool->Some_0;
                assert(!has_pid(reaped@, bridge.pid)) by {
                    if has_pid(reaped@, bridge.pid) {
                        let k = choose|k: int|
                            0 <= k < reaped@.len() && reaped@[k].0 == bridge.pid;
                        assert(orig.tracks(reaped@[k].0));
                    }
                }
            }
            assert(self.wf());
            assert forall|pid: u32| has_pid(reaped@, pid)
                implies !orig.retired@.contains(pid) by {
                let k = choose|k: int| 0 <= k < reaped@.len() && reaped@[k].0 == pid;
                assert(orig.tracks(reaped@[k].0));
            }
        }
        let mut exited: Vec<(u32, i32)> = Vec::new();
        let mut j: usize = 0;
        while j < reaped.len()
            invariant
                j <= reaped@.len(),
                exited@ == reaped@.subrange(0, j as int),
            decreases reaped@.len() - j,
        {
            exited.push(reaped[j]);
            proof {
                assert(exited@ =~= reaped@.subrange(0, j + 1 as int));
            }
            j = j + 1;
        }
        proof {
            assert(exited@ =~= reaped@);
        }
        exited
    }

    /// Takes the spooled bridge, attaches it with the configured idle
    /// `timeout` in milliseconds, registers its identifier, and hands the
    /// attached bridge out for the caller to share with the relay threads
    /// it starts.  Fails, changing nothing, if no bridge is spooled.
    pub fn start_debuggee(&mut self, timeout: Option<u64>) -> (result: Result<
        Debuggee,
        PoolError,
    >)
        requires
            old(self).wf(),
        ensures
            old(self).spool is None ==> *final(self) == *old(self)
                && result == Err::<Debuggee, PoolError>(PoolError::SpoolEmpty),
            old(self).spool matches Some(spooled) ==> {
                &&& result == Ok::<Debuggee, PoolError>(Debuggee {
                    pid: spooled.pid,
                    comms: Some(DebuggeeComms { timeout, aux: DebuggeeCommsAux::Splice }),
                })
                &&& final(self).spool is None
                &&& final(self).debuggees@ == old(self).debuggees@.push(spooled.pid)
                &&& final(self).tracks(spooled.pid)
                &&& final(self).retired@ == old(self).retired@
            },
            final(self).wf(),
    {
        match self.spool.take() {
            None => Err(PoolError::SpoolEmpty),
            Some(mut bridge) => {
                // a spooled bridge is never attached, so this cannot fail
                let started = bridge.start(timeout);
                assert(started is Ok);
                self.debuggees.push(bridge.pid);
                proof {
                    let s_old = old(self).debuggees@;
                    let s_new = self.debuggees@;
                    assert(s_new[s_new.len() - 1] == bridge.pid);
                    assert forall|p: u32| s_new.contains(p) && p != bridge.pid
                        implies s_old.contains(p) by {
                        let i = choose|i: int| 0 <= i < s_new.len() && s_new[i] == p;
                        assert(s_old[i] == p);
                    }
                }
                Ok(bridge)
            },
        }
    }
}

/// Law: once either direction observes a closure that shuts the session
/// down, no relay loop keeps running.  A closure-signalling outcome — end
/// of input or a broken pipe — never lets the loop that saw it proceed,
/// in either direction; the loop either stops on its own or performs the
/// shutdown transition, after which the record has left Relaying (see
/// `lemma_transition_exactly_once`) and the winner joins its sibling.
pub proof fn lemma_closure_ends_relay(dir: Direction)
    ensures
        spec_relay_step(dir, SpliceOutcome::Moved(0u64)) != RelayAction::Proceed,
        spec_relay_step(dir, SpliceOutcome::Failed(SpliceError::BrokenPipe))
            != RelayAction::Proceed,
{
}

/// Law: the Relaying-to-Timing transition occurs exactly once per
/// communication record, whichever direction observes closure first and
/// however the two observations interleave: the first observation wins
/// and leaves the record in Timing; the second finds it transitioned,
/// does not win, and changes nothing.
pub proof fn lemma_transition_exactly_once(bridge: Debuggee, n1: u64, n2: u64)
    requires
        bridge.attached(),
        bridge.comms->Some_0.is_relaying(),
    ensures
        bridge.spec_observe(n1).1,
        bridge.spec_observe(n1).0.comms->Some_0.aux is Timeout,
        !bridge.spec_observe(n1).0.spec_observe(n2).1,
        bridge.spec_observe(n1).0.spec_observe(n2).0 == bridge.spec_observe(n1).0,
{
}

/// Law: the sweep never reports a process identifier twice over the
/// pool's lifetime.  `r1` holds the identifiers of an earlier `cleanup`
/// report: that call retired them, and every pool operation since kept
/// them retired.  `r2` is the reaped input of any later `cleanup` on the
/// pool `p2`, so its identifiers are still tracked there — and a tracked
/// identifier is never a retired one.
pub proof fn lemma_sweep_never_repeats(r1: Set<u32>, p2: DebuggeeSet, r2: Seq<(u32, i32)>)
    requires
        r1.subset_of(p2.retired@),
        p2.wf(),
        forall|i: int| 0 <= i < r2.len() ==> p2.tracks(#[trigger] r2[i].0),
    ensures
        forall|pid: u32| r1.contains(pid) ==> !has_pid(r2, pid),
{
    assert forall|pid: u32| r1.contains(pid) implies !has_pid(r2, pid) by {
        if has_pid(r2, pid) {
            let k = choose|k: int| 0 <= k < r2.len() && r2[k].0 == pid;
            assert(p2.tracks(r2[k].0));
            assert(p2.debuggees@.contains(pid));
        }
    }
}

/// Law: a bridge with a configured timeout whose closure was observed at
/// time `n` times out exactly from the armed deadline on — never before
/// `n` plus the configured timeout (stopped at the largest representable
/// instant), and so never before attachment plus the timeout either.
/// Together with `Debuggee::cleanup`, which orders a force-close exactly
/// when the record has timed out, this places every force-close at or
/// after the configured deadline.
pub proof fn lemma_force_close_respects_deadline(bridge: Debuggee, n: u64, now: u64)
    requires
        bridge.attached(),
        bridge.comms->Some_0.is_relaying(),
        bridge.comms->Some_0.timeout is Some,
    ensures
        bridge.spec_observe(n).0.comms->Some_0.spec_timed_out(now)
            <==> now >= sat_add(n, bridge.comms->Some_0.timeout->Some_0),
{
}

} // verus!
