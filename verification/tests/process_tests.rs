use std::hash::{Hash, Hasher};

use lunatic_process::message::Message;
use lunatic_process::process::driver::{
    classify, finish_process, Driver, Outcome, ProcessEvent,
};
use lunatic_process::process::{
    create_process, fresh_id, message_channel, notify_self, publish_verdict, signal_channel,
    Finished, ProcessHandle, Signal, SignalReceiver, VerdictChannel,
};

fn make_handle(
    id: u128,
) -> (
    ProcessHandle,
    SignalReceiver,
    tokio::sync::mpsc::UnboundedReceiver<Message>,
    VerdictChannel,
) {
    let (stx, srx) = signal_channel();
    let (mtx, mrx) = message_channel();
    let v = VerdictChannel::new();
    let h = ProcessHandle::new(id, stx, mtx, v.clone());
    (h, srx, mrx, v)
}

#[test]
fn handles_equal_and_hash_by_identity() {
    let id = fresh_id();
    let (h1, _s1, _m1, _v1) = make_handle(id);
    let (h2, s2, _m2, _v2) = make_handle(id);
    // Give the two handles different channel liveness: h2's signal channel
    // is torn down, h1's stays open.
    drop(s2);
    assert!(h1.send_signal(Signal::DieWhenLinkDies(true)).is_ok());
    assert!(h2.send_signal(Signal::DieWhenLinkDies(true)).is_err());
    assert!(h1 == h2);
    assert_eq!(h1.hash_key(), h2.hash_key());
    let mut d1 = std::collections::hash_map::DefaultHasher::new();
    let mut d2 = std::collections::hash_map::DefaultHasher::new();
    h1.hash_key().hash(&mut d1);
    h2.hash_key().hash(&mut d2);
    assert_eq!(d1.finish(), d2.finish());
    let (h3, _s3, _m3, _v3) = make_handle(id.wrapping_add(1));
    assert!(h1 != h3);
}

#[test]
fn created_process_wires_its_channels() {
    let (h, mut srx, mut mrx, v) = create_process();
    h.send_signal(Signal::Kill).unwrap();
    assert!(matches!(srx.inner.try_recv().unwrap(), Signal::Kill));
    h.send_message(Message::Data(vec![4])).unwrap();
    assert!(matches!(mrx.try_recv().unwrap(), Message::Data(ref d) if d == &vec![4]));
    publish_verdict(&v, false);
    let mut hm = h;
    assert_eq!(hm.join(), false);
}

#[test]
fn clones_keep_identity() {
    let (h, _srx, _mrx, _v) = make_handle(5);
    let c = h.clone();
    assert!(h == c);
    assert_eq!(h.hash_key(), c.hash_key());
}

#[test]
fn join_returns_same_verdict_for_all_clones() {
    let (h, _srx, _mrx, v) = make_handle(7);
    let mut early1 = h.clone();
    let mut early2 = h.clone();
    publish_verdict(&v, true);
    // This clone subscribes only after the verdict was broadcast: the latch
    // still hands it the decided verdict.
    let mut late = h.clone();
    assert_eq!(early1.join(), true);
    assert_eq!(early1.join(), true);
    assert_eq!(early2.join(), true);
    assert_eq!(late.join(), true);
    let mut original = h;
    assert_eq!(original.join(), true);
}

#[test]
fn repeated_publication_keeps_the_first_verdict() {
    let (h, _srx, _mrx, v) = make_handle(71);
    let mut early = h.clone();
    publish_verdict(&v, true);
    // A second publication on the same channel is ignored: the latch is
    // write-once, and no waiter fails or misses the decided value.
    publish_verdict(&v, false);
    let mut late = h.clone();
    assert_eq!(early.join(), true);
    assert_eq!(early.join(), true);
    assert_eq!(late.join(), true);
    let mut original = h;
    assert_eq!(original.join(), true);
}

#[test]
fn send_message_delivers_payload() {
    let (h, _srx, mut mrx, _v) = make_handle(62);
    h.send_message(Message::Data(vec![9, 8])).unwrap();
    let m = mrx.try_recv().unwrap();
    assert!(matches!(m, Message::Data(ref d) if d == &vec![9, 8]));
    assert!(mrx.try_recv().is_err());
}

#[test]
fn send_to_torn_down_process_returns_the_value() {
    let (h, srx, mrx, _v) = make_handle(61);
    drop(srx);
    drop(mrx);
    let e = h.send_message(Message::Data(vec![1, 2, 3])).unwrap_err();
    assert!(matches!(e, Message::Data(ref d) if d == &vec![1, 2, 3]));
    let e2 = h.send_signal(Signal::Kill).unwrap_err();
    assert!(matches!(e2, Signal::Kill));
}

#[test]
fn marker_delivery_reaches_own_mailbox() {
    let (mtx, mut mrx) = message_channel();
    notify_self(&mtx).unwrap();
    let m = mrx.try_recv().unwrap();
    assert!(matches!(m, Message::Signal));
    assert!(mrx.try_recv().is_err());
}

#[test]
fn classify_matches_termination_cause() {
    assert_eq!(classify::<u8, u8>(&Finished::Wasm(Ok(1))), Outcome::Normal);
    assert_eq!(classify::<u8, u8>(&Finished::Wasm(Err(2))), Outcome::Trapped);
    assert_eq!(classify::<u8, u8>(&Finished::Signal(Signal::Kill)), Outcome::Killed);
    assert_eq!(
        classify::<u8, u8>(&Finished::Signal(Signal::LinkNotifyTrap)),
        Outcome::Normal
    );
}

#[test]
fn normal_completion_yields_false_verdict() {
    let (h, _srx, _mrx, v) = make_handle(11);
    let mut d = Driver::new();
    let r = d.run_script(vec![ProcessEvent::CompletedOk]);
    assert_eq!(r.outcome, Some(Outcome::Normal));
    assert_eq!(r.consumed, 1);
    assert_eq!(r.markers, 0);
    let report = finish_process(&d, Outcome::Normal, &v);
    assert_eq!(report.verdict, false);
    assert_eq!(report.notified, 0);
    assert!(report.notification.is_none());
    let mut hm = h;
    assert_eq!(hm.join(), false);
}

#[test]
fn kill_yields_true_and_notifies_links() {
    let (p, _psrx, _pmrx, pv) = make_handle(21);
    let (q, mut qsrx, _qmrx, _qv) = make_handle(22);
    let mut d = Driver::new();
    let r = d.run_script(vec![
        ProcessEvent::Signal(Signal::Link(q)),
        ProcessEvent::Signal(Signal::Kill),
        // Never reached: the computation is not awaited past the kill.
        ProcessEvent::CompletedOk,
    ]);
    assert_eq!(r.outcome, Some(Outcome::Killed));
    assert_eq!(r.consumed, 2);
    let report = finish_process(&d, Outcome::Killed, &pv);
    assert_eq!(report.verdict, true);
    assert_eq!(report.notified, 1);
    assert!(matches!(report.notification, Some(Signal::LinkNotifyKill)));
    let got = qsrx.inner.try_recv().unwrap();
    assert!(matches!(got, Signal::LinkNotifyKill));
    assert!(qsrx.inner.try_recv().is_err());
    let mut pm = p;
    assert_eq!(pm.join(), true);
}

#[test]
fn trap_cascades_to_both_linked_peers() {
    let (p, _psrx, _pmrx, pv) = make_handle(30);
    let (q, mut qsrx, _qmrx, qv) = make_handle(31);
    let (r, mut rsrx, _rmrx, rv) = make_handle(32);
    let mut qh = q.clone();
    let mut rh = r.clone();
    let mut pd = Driver::new();
    let res = pd.run_script(vec![
        ProcessEvent::Signal(Signal::Link(q)),
        ProcessEvent::Signal(Signal::Link(r)),
        ProcessEvent::CompletedErr,
    ]);
    assert_eq!(res.outcome, Some(Outcome::Trapped));
    let report = finish_process(&pd, Outcome::Trapped, &pv);
    assert_eq!(report.verdict, true);
    assert_eq!(report.notified, 2);
    assert!(matches!(report.notification, Some(Signal::LinkNotifyTrap)));
    let mut pm = p;
    assert_eq!(pm.join(), true);
    // Each peer independently observes the trap notification and, with the
    // default flag, dies in turn with a true verdict.
    let qsig = qsrx.inner.try_recv().unwrap();
    assert!(matches!(qsig, Signal::LinkNotifyTrap));
    let mut qd = Driver::new();
    let qres = qd.run_script(vec![ProcessEvent::Signal(qsig)]);
    assert_eq!(qres.outcome, Some(Outcome::Killed));
    finish_process(&qd, Outcome::Killed, &qv);
    assert_eq!(qh.join(), true);
    let rsig = rsrx.inner.try_recv().unwrap();
    assert!(matches!(rsig, Signal::LinkNotifyTrap));
    let mut rd = Driver::new();
    let rres = rd.run_script(vec![ProcessEvent::Signal(rsig)]);
    assert_eq!(rres.outcome, Some(Outcome::Killed));
    finish_process(&rd, Outcome::Killed, &rv);
    assert_eq!(rh.join(), true);
}

#[test]
fn peer_with_flag_false_survives_and_gets_marker() {
    let (p, _psrx, _pmrx, pv) = make_handle(41);
    let (qstx, _qsrx2) = signal_channel();
    let (qmtx, mut qmrx) = message_channel();
    let qmtx2 = qmtx.clone();
    let qv = VerdictChannel::new();
    let q = ProcessHandle::new(42, qstx, qmtx, qv.clone());
    let mut qh = q.clone();
    let mut pd = Driver::new();
    let res = pd.run_script(vec![
        ProcessEvent::Signal(Signal::Link(q)),
        ProcessEvent::CompletedErr,
    ]);
    assert_eq!(res.outcome, Some(Outcome::Trapped));
    finish_process(&pd, Outcome::Trapped, &pv);
    // Q cleared its flag before the notification arrives: it survives and
    // one marker goes into its own mailbox.
    let mut qd = Driver::new();
    let first = qd.run_script(vec![
        ProcessEvent::Signal(Signal::DieWhenLinkDies(false)),
        ProcessEvent::Signal(Signal::LinkNotifyTrap),
    ]);
    assert_eq!(first.outcome, None);
    assert_eq!(first.markers, 1);
    notify_self(&qmtx2).unwrap();
    let m = qmrx.try_recv().unwrap();
    assert!(matches!(m, Message::Signal));
    assert!(qmrx.try_recv().is_err());
    // Q later finishes on its own; only then does a join resolve, to false.
    let fin = qd.run_script(vec![ProcessEvent::CompletedOk]);
    assert_eq!(fin.outcome, Some(Outcome::Normal));
    finish_process(&qd, Outcome::Normal, &qv);
    assert_eq!(qh.join(), false);
}

#[test]
fn duplicate_link_registrations_collapse() {
    let (q, mut qsrx, _qmrx, _qv) = make_handle(51);
    let q2 = q.clone();
    let mut d = Driver::new();
    let res = d.run_script(vec![
        ProcessEvent::Signal(Signal::Link(q)),
        ProcessEvent::Signal(Signal::Link(q2)),
        ProcessEvent::Signal(Signal::Kill),
    ]);
    assert_eq!(res.outcome, Some(Outcome::Killed));
    assert_eq!(d.links().len(), 1);
    let v = VerdictChannel::new();
    let report = finish_process(&d, Outcome::Killed, &v);
    assert_eq!(report.notified, 1);
    assert!(matches!(qsrx.inner.try_recv().unwrap(), Signal::LinkNotifyKill));
    assert!(qsrx.inner.try_recv().is_err());
}

#[test]
fn closed_signal_channel_is_not_termination() {
    let mut d = Driver::new();
    let res = d.run_script(vec![ProcessEvent::SignalsClosed]);
    assert_eq!(res.outcome, None);
    assert_eq!(res.consumed, 1);
    assert!(!d.signals_live());
    let fin = d.run_script(vec![ProcessEvent::CompletedOk]);
    assert_eq!(fin.outcome, Some(Outcome::Normal));
}
