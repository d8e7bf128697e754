use woman_bot::engine::{
    playback_wait_secs, DrainStep, GateKind, Handler, LoopRefusal, SignalKind, SkipOutcome,
};
use woman_bot::node::Node;
use woman_bot::queue::Queue;
use woman_bot::repeat::{parse_loop_request, LoopBound, LoopRun};

fn item(url: &str, secs: u64) -> Node {
    Node::from(url.to_string(), secs)
}

#[test]
fn node_constructors() {
    let n = Node::new();
    assert_eq!(n.url, "");
    assert_eq!(n.duration_secs, 0);
    let m = Node::from("r".to_string(), 7);
    assert_eq!(m.url, "r");
    assert_eq!(m.duration_secs, 7);
}

#[test]
fn queue_is_first_in_first_out() {
    let mut q = Queue::new();
    assert!(q.is_empty());
    for (i, name) in ["a", "b", "c", "d"].iter().enumerate() {
        q.enqueue(item(name, i as u64));
    }
    assert_eq!(q.len(), 4);
    assert_eq!(q.peek_front_duration(), Some(0));
    assert_eq!(q.urls(), vec!["a", "b", "c", "d"]);
    let mut out = Vec::new();
    while let Some(n) = q.pop_front() {
        out.push(n.url);
    }
    assert_eq!(out, vec!["a", "b", "c", "d"]);
    assert_eq!(q.pop_front().map(|n| n.url), None);
    q.enqueue(item("e", 1));
    q.clear();
    assert!(q.is_empty());
}

#[test]
fn new_handler_is_idle() {
    let h = Handler::default();
    for g in [GateKind::Playing, GateKind::Tracking, GateKind::Looping] {
        assert!(!h.is_active(g));
    }
    for s in [SignalKind::SkipPlayer, SignalKind::SkipTracker, SignalKind::SkipLoop] {
        assert!(!h.is_raised(s));
    }
    assert_eq!(h.queue_len(), 0);
    assert!(h.enqueue_allowed());
}

#[test]
fn acquire_on_held_gate_fails_at_once() {
    let mut h = Handler::new();
    let p = h.try_acquire(GateKind::Tracking).expect("free gate");
    assert_eq!(p.kind(), GateKind::Tracking);
    assert!(h.try_acquire(GateKind::Tracking).is_none());
    assert!(h.is_active(GateKind::Tracking));
    h.release(p);
    assert!(!h.is_active(GateKind::Tracking));
    assert!(h.try_acquire(GateKind::Tracking).is_some());
}

#[test]
fn playing_and_looping_exclude_each_other() {
    let mut h = Handler::new();
    let p = h.try_acquire(GateKind::Playing).expect("free");
    assert!(h.try_acquire(GateKind::Looping).is_none());
    assert_eq!(h.start_loop().err().unwrap(), LoopRefusal::QueueBusy);
    h.release(p);
    let l = h.start_loop().expect("free");
    assert_eq!(l.kind(), GateKind::Looping);
    assert!(h.try_acquire(GateKind::Playing).is_none());
    assert_eq!(h.start_loop().err().unwrap(), LoopRefusal::AlreadyLooping);
    assert!(!h.enqueue_allowed());
    h.enqueue(item("x", 3));
    assert!(matches!(h.start_next(), DrainStep::Busy));
    assert_eq!(h.queue_len(), 1);
    h.release(l);
    assert!(matches!(h.start_next(), DrainStep::Play(_, _)));
}

#[test]
fn drain_plays_a_then_b_then_exits() {
    let mut h = Handler::new();
    h.enqueue(item("A", 10));
    h.enqueue(item("B", 5));
    assert_eq!(h.front_duration(), Some(10));
    let (a, pa) = match h.start_next() {
        DrainStep::Play(n, p) => (n, p),
        _ => panic!("expected A"),
    };
    assert_eq!(a.url, "A");
    assert_eq!(playback_wait_secs(a.duration_secs), 11);
    assert!(h.is_active(GateKind::Playing));
    assert!(matches!(h.start_next(), DrainStep::Busy));
    h.finish_playback(pa, false);
    assert!(!h.is_active(GateKind::Playing));
    let (b, pb) = match h.start_next() {
        DrainStep::Play(n, p) => (n, p),
        _ => panic!("expected B"),
    };
    assert_eq!(b.url, "B");
    assert_eq!(playback_wait_secs(b.duration_secs), 6);
    h.finish_playback(pb, false);
    assert!(matches!(h.start_next(), DrainStep::QueueEmpty));
    assert_eq!(h.queue_len(), 0);
    assert!(!h.is_active(GateKind::Playing));
}

#[test]
fn skip_with_nothing_playing_raises_nothing() {
    let mut h = Handler::new();
    let out = h.request_skip();
    assert_eq!(out, SkipOutcome { player: false, tracker: false, looper: false });
    for s in [SignalKind::SkipPlayer, SignalKind::SkipTracker, SignalKind::SkipLoop] {
        assert!(!h.is_raised(s));
    }
}

#[test]
fn loop_with_count_rejected_while_playing() {
    let mut h = Handler::new();
    h.enqueue(item("Q1", 30));
    h.enqueue(item("Q2", 40));
    let _permit = match h.start_next() {
        DrainStep::Play(_, p) => p,
        _ => panic!("expected playback"),
    };
    let req = parse_loop_request("!loop 3 https://www.youtube.com/watch?v=R").unwrap();
    assert_eq!(req.bound, LoopBound::Times(3));
    assert_eq!(h.start_loop().err().unwrap(), LoopRefusal::QueueBusy);
    assert_eq!(LoopRefusal::QueueBusy.message(), "not loopin til queue done");
    assert!(h.is_active(GateKind::Playing));
    assert!(!h.is_active(GateKind::Looping));
    assert_eq!(h.queued_urls(), vec!["Q2"]);
}

#[test]
fn loop_with_unparsable_count_runs_until_skipped() {
    let req = parse_loop_request("!loop -2 https://www.youtube.com/watch?v=R").unwrap();
    assert_eq!(req.bound, LoopBound::Unbounded);
    let mut h = Handler::new();
    let permit = h.start_loop().expect("idle");
    let mut run = LoopRun::new(req.bound);
    for _ in 0..1000 {
        assert!(run.play_finished());
        assert!(!h.take_signal(SignalKind::SkipLoop));
    }
    assert_eq!(run.completed(), 1000);
    let out = h.request_skip();
    assert!(out.looper);
    assert!(h.take_signal(SignalKind::SkipLoop));
    assert!(!h.is_raised(SignalKind::SkipLoop));
    h.release(permit);
    assert!(!h.is_active(GateKind::Looping));
}

#[test]
fn bounded_loop_stops_after_its_count() {
    let mut run = LoopRun::new(LoopBound::Times(3));
    assert!(run.play_finished());
    assert!(run.play_finished());
    assert!(!run.play_finished());
    let mut once = LoopRun::new(LoopBound::Times(0));
    assert!(!once.play_finished());
}

#[test]
fn skip_mid_track_releases_and_moves_on() {
    let mut h = Handler::new();
    h.enqueue(item("A", 200));
    h.enqueue(item("B", 100));
    let pa = match h.start_next() {
        DrainStep::Play(_, p) => p,
        _ => panic!("expected A"),
    };
    let tracking = h.try_acquire(GateKind::Tracking).expect("free");
    let out = h.request_skip();
    assert_eq!(out, SkipOutcome { player: true, tracker: true, looper: false });
    // the drain loop's poll sees the skip
    assert!(h.take_signal(SignalKind::SkipPlayer));
    h.finish_playback(pa, true);
    assert!(!h.is_active(GateKind::Playing));
    // the tracker's poll sees its skip, deletes its message and lets go
    assert!(h.take_signal(SignalKind::SkipTracker));
    h.release(tracking);
    assert!(!h.is_active(GateKind::Tracking));
    assert!(!h.is_raised(SignalKind::SkipTracker));
    match h.start_next() {
        DrainStep::Play(n, _) => assert_eq!(n.url, "B"),
        _ => panic!("expected B"),
    }
}

#[test]
fn skip_after_tracker_left_does_not_reach_next_tracker() {
    let mut h = Handler::new();
    h.enqueue(item("A", 5));
    let pa = match h.start_next() {
        DrainStep::Play(_, p) => p,
        _ => panic!("expected A"),
    };
    h.request_skip();
    assert!(h.take_signal(SignalKind::SkipPlayer));
    h.finish_playback(pa, true);
    assert!(!h.is_raised(SignalKind::SkipTracker));
}

#[test]
fn clear_queue_empties_it() {
    let mut h = Handler::new();
    h.enqueue(item("A", 1));
    h.enqueue(item("B", 2));
    h.clear_queue();
    assert_eq!(h.queue_len(), 0);
    assert_eq!(h.front_duration(), None);
}

#[test]
fn wait_is_capped() {
    assert_eq!(playback_wait_secs(0), 1);
    assert_eq!(playback_wait_secs(u64::MAX), u64::MAX);
}
