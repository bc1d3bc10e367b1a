//! The driver-loop state machine: how a running process reacts to control
//! signals and computation progress, the linked-peer set it maintains, and
//! the exactly-once termination fan-out (peer notifications, then the
//! verdict broadcast).

use crate::process::{Finished, ProcessHandle, Signal, VerdictChannel};
use crate::process::publish_verdict;
use vstd::prelude::*;

verus! {

/// What the driver loop observed at one scheduling point: signals are always
/// polled before computation progress, so a ready signal arrives as an event
/// before a simultaneously ready completion.
pub enum ProcessEvent {
    /// A signal arrived on the control channel.
    Signal(Signal),
    /// The control channel closed: no sender is left, so no signal can ever
    /// arrive again. Not itself a termination cause.
    SignalsClosed,
    /// The computation completed with a value.
    CompletedOk,
    /// The computation completed with a trap.
    CompletedErr,
}

/// How one process terminated.
#[derive(Clone, Copy, PartialEq, Eq, Structural, Debug)]
pub enum Outcome {
    /// The computation ran to its end and returned a value.
    Normal,
    /// The computation trapped.
    Trapped,
    /// The process was killed: by a direct kill signal, or by a link-death
    /// notification while the die-when-link-dies flag was set.
    Killed,
}

/// What the loop around the state machine must do after one event.
#[derive(Clone, Copy, PartialEq, Eq, Structural, Debug)]
pub enum Step {
    /// Keep running.
    Continue,
    /// Keep running, and deliver the link-death marker message into the
    /// process's own mailbox.
    NotifyMailbox,
    /// Stop: the process terminated with the given outcome. The computation
    /// is abandoned and never polled again.
    Finish(Outcome),
}

/// Whether a handle with the given identity is already linked.
pub open spec fn has_link(links: Seq<ProcessHandle>, id: u128) -> bool {
    exists|i: int| 0 <= i < links.len() && links[i].spec_id() == id
}

/// What the state machine answers to one event, given the current
/// die-when-link-dies flag: a kill terminates at once; a link-death
/// notification terminates like a kill when the flag is set and becomes a
/// mailbox marker when it is not; completion terminates with the
/// computation's own outcome; everything else keeps the process running.
pub open spec fn step_result(die: bool, ev: ProcessEvent) -> Step {
    match ev {
        ProcessEvent::Signal(signal) => match signal {
            Signal::Kill => Step::Finish(Outcome::Killed),
            Signal::DieWhenLinkDies(_) => Step::Continue,
            Signal::Link(_) => Step::Continue,
            Signal::LinkNotifyTrap | Signal::LinkNotifyKill => if die {
                Step::Finish(Outcome::Killed)
            } else {
                Step::NotifyMailbox
            },
        },
        ProcessEvent::SignalsClosed => Step::Continue,
        ProcessEvent::CompletedOk => Step::Finish(Outcome::Normal),
        ProcessEvent::CompletedErr => Step::Finish(Outcome::Trapped),
    }
}

/// The die-when-link-dies flag after one event: only the dedicated signal
/// changes it.
pub open spec fn die_after(die: bool, ev: ProcessEvent) -> bool {
    match ev {
        ProcessEvent::Signal(Signal::DieWhenLinkDies(value)) => value,
        _ => die,
    }
}

/// The link set after one event: a link registration appends the peer unless
/// a handle with the same identity is already present.
pub open spec fn links_after(links: Seq<ProcessHandle>, ev: ProcessEvent) -> Seq<ProcessHandle> {
    match ev {
        ProcessEvent::Signal(Signal::Link(peer)) => if has_link(links, peer.spec_id()) {
            links
        } else {
            links.push(peer)
        },
        _ => links,
    }
}

/// Whether the signal arm of the wait is disabled after one event: closure
/// of the control channel disables it for the rest of the process's life.
pub open spec fn disabled_after(disabled: bool, ev: ProcessEvent) -> bool {
    disabled || ev matches ProcessEvent::SignalsClosed
}

/// The outcome a whole script of events decides, if any: the script is read
/// in order, the flag evolving along the way, until the first terminating
/// event.
pub open spec fn script_outcome(die: bool, evs: Seq<ProcessEvent>) -> Option<Outcome>
    decreases evs.len(),
{
    if evs.len() == 0 {
        None
    } else {
        match step_result(die, evs[0]) {
            Step::Finish(outcome) => Some(outcome),
            _ => script_outcome(die_after(die, evs[0]), evs.drop_first()),
        }
    }
}

/// How many events of a script are consumed: everything up to and including
/// the first terminating event, or the whole script if none terminates.
pub open spec fn script_consumed(die: bool, evs: Seq<ProcessEvent>) -> int
    decreases evs.len(),
{
    if evs.len() == 0 {
        0
    } else if step_result(die, evs[0]) matches Step::Finish(_) {
        1
    } else {
        1 + script_consumed(die_after(die, evs[0]), evs.drop_first())
    }
}

/// How many link-death markers a script delivers into the process's own
/// mailbox before it terminates or ends.
pub open spec fn script_marks(die: bool, evs: Seq<ProcessEvent>) -> int
    decreases evs.len(),
{
    if evs.len() == 0 {
        0
    } else if step_result(die, evs[0]) matches Step::Finish(_) {
        0
    } else {
        (match step_result(die, evs[0]) {
            Step::NotifyMailbox => 1int,
            _ => 0int,
        }) + script_marks(die_after(die, evs[0]), evs.drop_first())
    }
}

/// The link set a script leaves behind: link registrations accumulate, with
/// duplicates by identity collapsed, until the script terminates or ends.
pub open spec fn script_links(
    die: bool,
    links: Seq<ProcessHandle>,
    evs: Seq<ProcessEvent>,
) -> Seq<ProcessHandle>
    decreases evs.len(),
{
    if evs.len() == 0 {
        links
    } else if step_result(die, evs[0]) matches Step::Finish(_) {
        links
    } else {
        script_links(die_after(die, evs[0]), links_after(links, evs[0]), evs.drop_first())
    }
}

/// The state a driver loop owns while its process runs. It is owned and
/// mutated by that loop alone, sequentially; no other process ever touches
/// it.
pub struct Driver {
    /// Whether a linked peer's death kills this process too. Defaults to
    /// true.
    die_when_link_dies: bool,
    /// The linked peers, each present at most once per identity.
    links: Vec<ProcessHandle>,
    /// Whether the signal arm of the wait has been disabled for good.
    signals_disabled: bool,
}

impl Driver {
    /// The current die-when-link-dies flag.
    pub closed spec fn spec_die(&self) -> bool {
        self.die_when_link_dies
    }

    /// The linked peers, in registration order.
    pub closed spec fn spec_links(&self) -> Seq<ProcessHandle> {
        self.links@
    }

    /// Whether the signal arm of the wait has been disabled.
    pub closed spec fn spec_disabled(&self) -> bool {
        self.signals_disabled
    }

    /// Well-formedness: the link set holds at most one handle per identity.
    pub open spec fn wf(&self) -> bool {
        forall|i: int, j: int|
            0 <= i < j < self.spec_links().len() ==> self.spec_links()[i].spec_id()
                != self.spec_links()[j].spec_id()
    }

    /// A fresh driver: the die-when-link-dies flag defaults to true, no
    /// peers are linked, and the signal arm is live.
    pub fn new() -> (r: Driver)
        ensures
            r.spec_die(),
            r.spec_links() =~= Seq::<ProcessHandle>::empty(),
            !r.spec_disabled(),
            r.wf(),
    {
        Driver { die_when_link_dies: true, links: Vec::new(), signals_disabled: false }
    }

    /// Whether the signal arm of the wait must still be polled.
    pub fn signals_live(&self) -> (r: bool)
        ensures
            r == !self.spec_disabled(),
    {
        !self.signals_disabled
    }

    /// The linked peers, for the termination fan-out.
    pub fn links(&self) -> (r: &Vec<ProcessHandle>)
        ensures
            r@ == self.spec_links(),
    {
        &self.links
    }

    /// Whether a peer with this identity is already linked.
    fn links_contain(&self, id: u128) -> (r: bool)
        ensures
            r == has_link(self.spec_links(), id),
    {
        let mut i: usize = 0;
        while i < self.links.len()
            invariant
                i <= self.links.len(),
                forall|k: int| 0 <= k < i ==> self.links@[k].spec_id() != id,
            decreases self.links.len() - i,
        {
            if self.links[i].hash_key() == id {
                return true;
            }
            i = i + 1;
        }
        false
    }

    /// Feed one observed event to the state machine. The answer and the new
    /// state are exactly the specified transition; in particular a kill is
    /// answered with termination whatever the rest of the state, and a
    /// link-death notification kills or becomes a mailbox marker strictly by
    /// the current flag.
    pub fn step(&mut self, ev: ProcessEvent) -> (s: Step)
        requires
            old(self).wf(),
        ensures
            final(self).wf(),
            s == step_result(old(self).spec_die(), ev),
            final(self).spec_die() == die_after(old(self).spec_die(), ev),
            final(self).spec_links() =~= links_after(old(self).spec_links(), ev),
            final(self).spec_disabled() == disabled_after(old(self).spec_disabled(), ev),
    {
        let s: Step = match ev {
            ProcessEvent::Signal(signal) => match signal {
                Signal::Kill => Step::Finish(Outcome::Killed),
                Signal::DieWhenLinkDies(value) => {
                    self.die_when_link_dies = value;
                    Step::Continue
                },
                Signal::Link(peer) => {
                    let key = peer.hash_key();
                    let ghost pre = self.links@;
                    let ghost gpeer = peer;
                    if !self.links_contain(key) {
                        self.links.push(peer);
                        proof {
                            let post = self.links@;
                            assert(post == pre.push(gpeer));
                            assert(gpeer.spec_id() == key);
                            assert(!has_link(pre, key));
                            assert forall|i: int, j: int| 0 <= i < j < post.len() implies post[i].spec_id()
                                != post[j].spec_id() by {
                                if j < pre.len() {
                                    assert(pre[i].spec_id() != pre[j].spec_id());
                                } else {
                                    assert(post[j] == gpeer);
                                    assert(!(0 <= i < pre.len() && pre[i].spec_id() == key));
                                }
                            }
                        }
                    }
                    Step::Continue
                },
                Signal::LinkNotifyTrap | Signal::LinkNotifyKill => {
                    if self.die_when_link_dies {
                        Step::Finish(Outcome::Killed)
                    } else {
                        Step::NotifyMailbox
                    }
                },
            },
            ProcessEvent::SignalsClosed => {
                self.signals_disabled = true;
                proof {
                    assert(self.spec_links() == old(self).spec_links());
                    assert(self.wf());
                }
                Step::Continue
            },
            ProcessEvent::CompletedOk => Step::Finish(Outcome::Normal),
            ProcessEvent::CompletedErr => Step::Finish(Outcome::Trapped),
        };
        s
    }
}

/// The termination verdict for one outcome: `true` exactly for an abnormal
/// end (a trap or a kill), `false` for a normal finish.
pub open spec fn spec_verdict(outcome: Outcome) -> bool {
    outcome != Outcome::Normal
}

/// The verdict that is broadcast for one outcome.
pub fn termination_verdict(outcome: Outcome) -> (r: bool)
    ensures
        r == spec_verdict(outcome),
{
    match outcome {
        Outcome::Normal => false,
        Outcome::Trapped => true,
        Outcome::Killed => true,
    }
}

/// The notification a terminating process owes each linked peer: none after
/// a normal finish, the trap notification after a trap, the kill
/// notification after a kill.
pub open spec fn spec_notification(outcome: Outcome) -> Option<Signal> {
    match outcome {
        Outcome::Normal => None,
        Outcome::Trapped => Some(Signal::LinkNotifyTrap),
        Outcome::Killed => Some(Signal::LinkNotifyKill),
    }
}

/// How the driver loop classifies the value it broke out of its wait with:
/// a trapped computation, a computation that returned, or a kill signal.
pub open spec fn spec_classify<T, E>(finished: Finished<Result<T, E>>) -> Outcome {
    match finished {
        Finished::Wasm(output) => match output {
            Ok(_) => Outcome::Normal,
            Err(_) => Outcome::Trapped,
        },
        Finished::Signal(signal) => match signal {
            Signal::Kill => Outcome::Killed,
            _ => Outcome::Normal,
        },
    }
}

/// Classifies the reason the driver loop stopped waiting.
pub fn classify<T, E>(finished: &Finished<Result<T, E>>) -> (o: Outcome)
    ensures
        o == spec_classify(*finished),
{
    match finished {
        Finished::Wasm(output) => match output {
            Ok(_) => Outcome::Normal,
            Err(_) => Outcome::Trapped,
        },
        Finished::Signal(signal) => match signal {
            Signal::Kill => Outcome::Killed,
            _ => Outcome::Normal,
        },
    }
}

/// What one termination did: published one verdict and sent one kind of
/// notification to the linked peers.
pub struct TerminationReport {
    /// The verdict that was latched and broadcast.
    pub verdict: bool,
    /// The notification each linked peer was sent, if any.
    pub notification: Option<Signal>,
    /// How many linked peers were sent that notification.
    pub notified: usize,
}

/// Performs the exactly-once side-effect pair of a terminating process, in
/// the stated order: first notify every linked peer (the trap notification
/// after a trap, the kill notification after a kill, none after a normal
/// finish; a peer whose channel is already closed is skipped silently), then
/// latch and broadcast the verdict to every outstanding handle.
pub fn finish_process(driver: &Driver, outcome: Outcome, verdict_out: &VerdictChannel) -> (r:
    TerminationReport)
    ensures
        r.verdict == spec_verdict(outcome),
        r.notification == spec_notification(outcome),
        r.notified == if outcome == Outcome::Normal {
            0int
        } else {
            driver.spec_links().len() as int
        },
{
    let mut notified: usize = 0;
    let notification = match outcome {
        Outcome::Normal => None,
        Outcome::Trapped => Some(Signal::LinkNotifyTrap),
        Outcome::Killed => Some(Signal::LinkNotifyKill),
    };
    if !(outcome == Outcome::Normal) {
        let mut i: usize = 0;
        while i < driver.links.len()
            invariant
                outcome != Outcome::Normal,
                i <= driver.links.len(),
                notified == i,
            decreases driver.links.len() - i,
        {
            let note = if outcome == Outcome::Trapped {
                Signal::LinkNotifyTrap
            } else {
                Signal::LinkNotifyKill
            };
            let _ = driver.links[i].send_signal(note);
            notified = notified + 1;
            i = i + 1;
        }
    }
    let verdict = termination_verdict(outcome);
    publish_verdict(verdict_out, verdict);
    TerminationReport { verdict, notification, notified }
}

/// The summary of driving the state machine over a whole script of events.
pub struct ScriptResult {
    /// The decided outcome, if some event terminated the process.
    pub outcome: Option<Outcome>,
    /// How many events were consumed before the loop stopped; nothing past
    /// the first terminating event is ever looked at.
    pub consumed: usize,
    /// How many link-death markers were delivered to the process's own
    /// mailbox along the way.
    pub markers: usize,
}

impl Driver {
    /// Drives the state machine over a script of events in order, stopping
    /// at the first terminating one, exactly as the loop around a live
    /// process consumes what it observes.
    pub fn run_script(&mut self, events: Vec<ProcessEvent>) -> (r: ScriptResult)
        requires
            old(self).wf(),
        ensures
            final(self).wf(),
            r.outcome == script_outcome(old(self).spec_die(), events@),
            r.consumed == script_consumed(old(self).spec_die(), events@),
            r.markers == script_marks(old(self).spec_die(), events@),
            final(self).spec_links() =~= script_links(
                old(self).spec_die(),
                old(self).spec_links(),
                events@,
            ),
    {
        let ghost die0 = old(self).spec_die();
        let ghost links0 = old(self).spec_links();
        let ghost all = events@;
        let mut rest = events;
        let mut consumed: usize = 0;
        let mut markers: usize = 0;
        // The script arrived as a vector, so its length fits the machine.
        let n: usize = rest.len();
        proof {
            assert(all.len() == n);
        }
        while rest.len() > 0
            invariant
                self.wf(),
                die0 == old(self).spec_die(),
                all == events@,
                all.len() <= usize::MAX,
                consumed + rest.len() == all.len(),
                markers <= consumed,
                links0 == old(self).spec_links(),
                script_outcome(die0, all) == script_outcome(self.spec_die(), rest@),
                script_consumed(die0, all) == consumed + script_consumed(self.spec_die(), rest@),
                script_marks(die0, all) == markers + script_marks(self.spec_die(), rest@),
                script_links(die0, links0, all) =~= script_links(
                    self.spec_die(),
                    self.spec_links(),
                    rest@,
                ),
            decreases rest.len(),
        {
            let ghost pre_die = self.spec_die();
            let ghost pre_rest = rest@;
            let ev = rest.remove(0);
            proof {
                assert(pre_rest[0] == ev);
                assert(pre_rest.remove(0) =~= pre_rest.drop_first());
                assert(rest@ == pre_rest.drop_first());
            }
            match self.step(ev) {
                Step::Continue => {
                    consumed = consumed + 1;
                },
                Step::NotifyMailbox => {
                    consumed = consumed + 1;
                    markers = markers + 1;
                },
                Step::Finish(outcome) => {
                    consumed = consumed + 1;
                    proof {
                        assert(step_result(pre_die, ev) == Step::Finish(outcome));
                        assert(script_outcome(pre_die, pre_rest) == Some(outcome));
                        assert(script_consumed(pre_die, pre_rest) == 1);
                        assert(script_marks(pre_die, pre_rest) == 0);
                    }
                    return ScriptResult { outcome: Some(outcome), consumed, markers };
                },
            }
        }
        ScriptResult { outcome: None, consumed, markers }
    }
}

/// Unfolds one non-terminating event off the front of a script prefix.
proof fn lemma_script_unfold_prefix(die: bool, evs: Seq<ProcessEvent>, m: int)
    requires
        evs.len() > 0,
        !(step_result(die, evs[0]) matches Step::Finish(_)),
        1 <= m <= evs.len(),
    ensures
        script_outcome(die, evs.take(m)) == script_outcome(
            die_after(die, evs[0]),
            evs.drop_first().take(m - 1),
        ),
{
    let t = evs.take(m);
    assert(t.len() == m);
    assert(t[0] == evs[0]);
    assert(t.drop_first() =~= evs.drop_first().take(m - 1));
}

/// Law: a script decides at most one termination, at its first terminating
/// event — every event before it leaves the process running, and nothing
/// past it is ever consumed, so the verdict broadcast and the notification
/// fan-out that `finish_process` performs happen exactly once per process.
pub proof fn lemma_termination_exactly_once(die: bool, evs: Seq<ProcessEvent>)
    ensures
        script_outcome(die, evs) is None ==> script_consumed(die, evs) == evs.len(),
        script_outcome(die, evs) is Some ==> 1 <= script_consumed(die, evs) <= evs.len(),
        script_outcome(die, evs) is Some ==> script_outcome(
            die,
            evs.take(script_consumed(die, evs)),
        ) == script_outcome(die, evs),
        script_outcome(die, evs) is Some ==> script_outcome(
            die,
            evs.take(script_consumed(die, evs) - 1),
        ) is None,
    decreases evs.len(),
{
    if evs.len() == 0 {
    } else if step_result(die, evs[0]) matches Step::Finish(_) {
        assert(script_consumed(die, evs) == 1);
        assert(evs.take(1).len() == 1);
        assert(evs.take(1)[0] == evs[0]);
        assert(evs.take(0).len() == 0);
    } else {
        let die1 = die_after(die, evs[0]);
        let tail = evs.drop_first();
        lemma_termination_exactly_once(die1, tail);
        if script_outcome(die, evs) is Some {
            let n = script_consumed(die, evs);
            assert(n == 1 + script_consumed(die1, tail));
            lemma_script_unfold_prefix(die, evs, n);
            lemma_script_unfold_prefix(die, evs, n - 1);
        }
    }
}

/// Law: each termination outcome fixes exactly one verdict / notification
/// pair — verdict true exactly for an abnormal end, and no notification
/// after a normal finish, the trap notification after a trap, the kill
/// notification after a kill.
pub proof fn lemma_one_verdict_one_notification(outcome: Outcome)
    ensures
        spec_verdict(outcome) <==> outcome != Outcome::Normal,
        spec_notification(outcome) is Some <==> spec_verdict(outcome),
        outcome == Outcome::Normal ==> spec_notification(outcome) is None,
        outcome == Outcome::Trapped ==> spec_notification(outcome) == Some(Signal::LinkNotifyTrap),
        outcome == Outcome::Killed ==> spec_notification(outcome) == Some(Signal::LinkNotifyKill),
{
}

/// Law: a kill signal reaching a running process always wins — whatever ran
/// before it left the process running, the script terminates exactly at the
/// kill with outcome killed and verdict true, and no event after the kill
/// (in particular no completion of the computation) is ever consumed.
pub proof fn lemma_kill_always_wins(die: bool, evs: Seq<ProcessEvent>, i: int)
    requires
        0 <= i < evs.len(),
        evs[i] == ProcessEvent::Signal(Signal::Kill),
        script_outcome(die, evs.take(i)) is None,
    ensures
        script_outcome(die, evs) == Some(Outcome::Killed),
        script_consumed(die, evs) == i + 1,
        spec_verdict(Outcome::Killed),
    decreases i,
{
    if i == 0 {
        assert(step_result(die, evs[0]) == Step::Finish(Outcome::Killed));
    } else {
        let t = evs.take(i);
        assert(t.len() == i);
        assert(t[0] == evs[0]);
        assert(!(step_result(die, evs[0]) matches Step::Finish(_)));
        let die1 = die_after(die, evs[0]);
        let tail = evs.drop_first();
        lemma_script_unfold_prefix(die, evs, i);
        assert(tail[i - 1] == evs[i]);
        lemma_kill_always_wins(die1, tail, i - 1);
    }
}

/// Law: link-death cascade — when a process dies abnormally, the
/// notification it owes each linked peer terminates that peer in turn, as a
/// kill, wherever the peer's die-when-link-dies flag is still set: the
/// peer's verdict is then true as well, without it ever receiving an
/// explicit kill signal.
pub proof fn lemma_link_death_cascades(peer_outcome: Outcome)
    requires
        peer_outcome != Outcome::Normal,
    ensures
        spec_notification(peer_outcome) is Some,
        spec_notification(peer_outcome) matches Some(note) ==> step_result(
            true,
            ProcessEvent::Signal(note),
        ) == Step::Finish(Outcome::Killed),
        spec_verdict(Outcome::Killed),
{
}

/// Law: with the die-when-link-dies flag cleared, a link-death notification
/// never terminates the process — it becomes exactly one marker message in
/// the process's own mailbox, and the flag, the link set and the signal arm
/// all stay as they were.
pub proof fn lemma_flag_false_survives(
    peer_outcome: Outcome,
    links: Seq<ProcessHandle>,
    disabled: bool,
)
    requires
        peer_outcome != Outcome::Normal,
    ensures
        spec_notification(peer_outcome) matches Some(note) ==> {
            &&& step_result(false, ProcessEvent::Signal(note)) == Step::NotifyMailbox
            &&& die_after(false, ProcessEvent::Signal(note)) == false
            &&& links_after(links, ProcessEvent::Signal(note)) == links
            &&& disabled_after(disabled, ProcessEvent::Signal(note)) == disabled
            &&& script_marks(false, seq![ProcessEvent::Signal(note)]) == 1
        },
{
    match spec_notification(peer_outcome) {
        Some(note) => {
            let s = seq![ProcessEvent::Signal(note)];
            assert(s.len() == 1);
            assert(s[0] == ProcessEvent::Signal(note));
            assert(step_result(false, s[0]) == Step::NotifyMailbox);
            assert(s.drop_first().len() == 0);
            assert(script_marks(die_after(false, s[0]), s.drop_first()) == 0);
            assert(script_marks(false, s) == 1);
        },
        None => {
        },
    }
}

} // verus!
