use app_provider::engine::{Engine, Next, Phase, ProtocolError, Step, SHOW_ON_EMPTY};
use app_provider::message::{not_found_message, Command, Hit, Package, Payload};

fn command(id: u64, c: Command) -> Package {
    Package::new(id, Payload::Command(c))
}

fn ack(id: u64, answered: u64, outcome: Result<(), String>) -> Package {
    Package::new(id, Payload::Result(answered, outcome))
}

fn hit(id: u64, name: &str) -> Hit {
    Hit::new(id, name.to_string(), format!("{} application", name))
}

fn is_result(p: &Package, answered: u64, ok: bool) -> bool {
    match &p.payload {
        Payload::Result(a, o) => *a == answered && o.is_ok() == ok,
        _ => false,
    }
}

fn is_end_marker(p: &Package) -> bool {
    matches!(p.payload, Payload::Command(Command::Abort))
}

fn sent_hit(p: &Package) -> Option<u64> {
    match &p.payload {
        Payload::Hit(h) => Some(h.id),
        _ => None,
    }
}

/// A search that found three applications, with hit 0 sent and awaiting its
/// acknowledgment.
fn streaming_three(engine: &mut Engine<String>) -> Step {
    let step = engine.receive(command(50, Command::GetData("term".to_string()))).unwrap();
    assert!(matches!(step.next, Next::Search(ref q) if q == "term"));
    engine.found(
        vec!["a".to_string(), "b".to_string(), "c".to_string()],
        vec![hit(10, "A"), hit(11, "B"), hit(12, "C")],
    )
}

fn attempt_of(engine: &Engine<String>) -> u64 {
    match engine.phase() {
        Phase::Streaming { attempt, .. } => attempt,
        other => panic!("not streaming: {:?}", other),
    }
}

#[test]
fn search_activate_scenario() {
    let mut engine: Engine<String> = Engine::new(SHOW_ON_EMPTY);
    let step = engine.receive(command(100, Command::GetData("firefox".to_string()))).unwrap();
    assert!(step.writes.is_empty());
    assert!(matches!(step.next, Next::Search(ref q) if q == "firefox"));

    let step = engine.found(vec!["firefox.desktop".to_string()], vec![hit(7, "Firefox")]);
    assert_eq!(step.writes.len(), 2);
    assert!(is_result(&step.writes[0], 100, true));
    assert_eq!(sent_hit(&step.writes[1]), Some(7));
    assert!(matches!(step.next, Next::Read));
    let hit_package_id = step.writes[1].get_id();

    let step = engine.receive(ack(101, hit_package_id, Ok(()))).unwrap();
    assert_eq!(step.writes.len(), 1);
    assert!(is_end_marker(&step.writes[0]));
    assert_eq!(engine.phase(), Phase::Idle);

    let step = engine.receive(command(102, Command::Activate(7))).unwrap();
    assert!(step.writes.is_empty());
    let index = match step.next {
        Next::Launch(i) => i,
        other => panic!("expected a launch, got {:?}", other),
    };
    assert_eq!(engine.record(index), "firefox.desktop");

    let step = engine.launched(Ok(()));
    assert_eq!(step.writes.len(), 1);
    assert!(is_result(&step.writes[0], 102, true));
    assert_eq!(engine.phase(), Phase::Idle);
}

#[test]
fn results_answer_the_request_id() {
    let mut engine: Engine<String> = Engine::new(false);
    let step = engine.receive(command(900, Command::Activate(1))).unwrap();
    assert!(is_result(&step.writes[0], 900, false));
    engine.receive(command(901, Command::GetData("x".to_string()))).unwrap();
    let step = engine.found(vec!["x".to_string()], vec![hit(1, "X")]);
    assert!(is_result(&step.writes[0], 901, true));
    let attempt = attempt_of(&engine);
    engine.receive(ack(5, attempt, Ok(()))).unwrap();
    engine.receive(command(902, Command::Activate(1))).unwrap();
    let step = engine.launched(Err("no such file".to_string()));
    match &step.writes[0].payload {
        Payload::Result(answered, Err(m)) => {
            assert_eq!(*answered, 902);
            assert_eq!(m, "no such file");
        }
        other => panic!("expected an error result, got {:?}", other),
    }
    let step = engine.receive(command(903, Command::Quit)).unwrap();
    assert!(is_result(&step.writes[0], 903, true));
}

#[test]
fn stale_hit_is_not_found_after_new_search() {
    let mut engine: Engine<String> = Engine::new(false);
    engine.receive(command(1, Command::GetData("old".to_string()))).unwrap();
    engine.found(vec!["old".to_string()], vec![hit(42, "Old")]);
    engine.receive(command(2, Command::Abort)).unwrap();
    engine.receive(command(3, Command::GetData("new".to_string()))).unwrap();
    engine.found(vec!["new".to_string()], vec![hit(43, "New")]);
    let attempt = attempt_of(&engine);
    engine.receive(ack(4, attempt, Ok(()))).unwrap();

    let step = engine.receive(command(5, Command::Activate(42))).unwrap();
    assert!(matches!(step.next, Next::Read));
    assert_eq!(step.writes.len(), 1);
    match &step.writes[0].payload {
        Payload::Result(answered, Err(m)) => {
            assert_eq!(*answered, 5);
            assert_eq!(m, "cannot find data by hit");
        }
        other => panic!("expected not found, got {:?}", other),
    }
    assert_eq!(engine.phase(), Phase::Idle);
}

#[test]
fn hits_stream_in_order_with_acknowledgment() {
    let mut engine: Engine<String> = Engine::new(false);
    let step = streaming_three(&mut engine);
    assert_eq!(sent_hit(&step.writes[1]), Some(10));
    let mut sent = vec![10];
    for _ in 0..2 {
        let attempt = attempt_of(&engine);
        let step = engine.receive(ack(0, attempt, Ok(()))).unwrap();
        assert_eq!(step.writes.len(), 1);
        sent.push(sent_hit(&step.writes[0]).unwrap());
    }
    assert_eq!(sent, vec![10, 11, 12]);
    let attempt = attempt_of(&engine);
    let step = engine.receive(ack(0, attempt, Ok(()))).unwrap();
    assert!(is_end_marker(&step.writes[0]));
}

#[test]
fn mismatched_ack_resends_same_hit() {
    let mut engine: Engine<String> = Engine::new(false);
    streaming_three(&mut engine);
    let first_attempt = attempt_of(&engine);

    let step = engine.receive(ack(0, first_attempt + 1000, Ok(()))).unwrap();
    assert_eq!(step.writes.len(), 1);
    assert_eq!(sent_hit(&step.writes[0]), Some(10));
    let second_attempt = attempt_of(&engine);
    assert_ne!(second_attempt, first_attempt);
    assert_eq!(step.writes[0].get_id(), second_attempt);

    // the earlier attempt's id no longer acknowledges the hit
    let step = engine.receive(ack(0, first_attempt, Ok(()))).unwrap();
    assert_eq!(sent_hit(&step.writes[0]), Some(10));
    assert_eq!(engine.hit_count(), 3);
    assert_eq!(engine.hit(0).name, "A");
}

#[test]
fn negative_ack_resends_same_hit() {
    let mut engine: Engine<String> = Engine::new(false);
    streaming_three(&mut engine);
    let attempt = attempt_of(&engine);
    let step = engine.receive(ack(0, attempt, Err("missed".to_string()))).unwrap();
    match &step.writes[0].payload {
        Payload::Hit(h) => {
            assert_eq!(h.id, 10);
            assert_eq!(h.name, "A");
            assert_eq!(h.description, "A application");
        }
        other => panic!("expected a hit, got {:?}", other),
    }
    assert!(matches!(engine.phase(), Phase::Streaming { index: 0, .. }));
    assert_eq!(engine.record(0), "a");
}

#[test]
fn abort_while_awaiting_second_hit() {
    let mut engine: Engine<String> = Engine::new(false);
    streaming_three(&mut engine);
    let attempt = attempt_of(&engine);
    let step = engine.receive(ack(0, attempt, Ok(()))).unwrap();
    assert_eq!(sent_hit(&step.writes[0]), Some(11));

    let step = engine.receive(command(60, Command::Abort)).unwrap();
    assert_eq!(step.writes.len(), 1);
    assert!(is_end_marker(&step.writes[0]));
    assert_eq!(engine.phase(), Phase::Idle);

    // a later abort at top level is a no-op, and nothing sends hit 12
    let step = engine.receive(command(61, Command::Abort)).unwrap();
    assert!(step.writes.is_empty());
    assert!(matches!(step.next, Next::Read));
}

#[test]
fn empty_query_without_show_on_empty() {
    let mut engine: Engine<String> = Engine::new(false);
    let step = engine.receive(command(70, Command::GetData(String::new()))).unwrap();
    assert_eq!(step.writes.len(), 2);
    assert!(is_result(&step.writes[0], 70, true));
    assert!(is_end_marker(&step.writes[1]));
    assert!(matches!(step.next, Next::Read));
    assert_eq!(engine.hit_count(), 0);
    assert_eq!(engine.phase(), Phase::Idle);
}

#[test]
fn empty_query_with_show_on_empty() {
    let mut engine: Engine<String> = Engine::new(true);
    let step = engine.receive(command(71, Command::GetData(String::new()))).unwrap();
    assert!(step.writes.is_empty());
    assert!(matches!(step.next, Next::ListAll));
    assert_eq!(engine.phase(), Phase::Searching { answer: 71 });
    let step = engine.found(vec!["a".to_string(), "b".to_string()], vec![hit(1, "A"), hit(2, "B")]);
    assert!(is_result(&step.writes[0], 71, true));
    assert_eq!(sent_hit(&step.writes[1]), Some(1));
}

#[test]
fn search_with_no_match_ends_stream_at_once() {
    let mut engine: Engine<String> = Engine::new(false);
    engine.receive(command(80, Command::GetData("zzz".to_string()))).unwrap();
    let step = engine.found(Vec::new(), Vec::new());
    assert_eq!(step.writes.len(), 2);
    assert!(is_result(&step.writes[0], 80, true));
    assert!(is_end_marker(&step.writes[1]));
}

#[test]
fn quit_halts() {
    let mut engine: Engine<String> = Engine::new(false);
    let step = engine.receive(command(90, Command::Quit)).unwrap();
    assert_eq!(step.writes.len(), 1);
    assert!(is_result(&step.writes[0], 90, true));
    assert!(matches!(step.next, Next::Halt));
    assert_eq!(engine.phase(), Phase::Stopped);
}

#[test]
fn unexpected_payload_is_refused() {
    let mut engine: Engine<String> = Engine::new(false);
    let r = engine.receive(ack(91, 3, Ok(())));
    assert_eq!(r.unwrap_err(), ProtocolError::UnexpectedPayload { id: 91 });
    let r = engine.receive(Package::new(92, Payload::Hit(hit(1, "A"))));
    assert_eq!(r.unwrap_err(), ProtocolError::UnexpectedPayload { id: 92 });
    assert_eq!(engine.phase(), Phase::Idle);

    streaming_three(&mut engine);
    let r = engine.receive(command(93, Command::GetData("again".to_string())));
    assert_eq!(r.unwrap_err(), ProtocolError::UnexpectedPayload { id: 93 });
    assert!(matches!(engine.phase(), Phase::Streaming { index: 0, .. }));
}

#[test]
fn duplicate_hit_ids_resolve_to_first() {
    let mut engine: Engine<String> = Engine::new(false);
    engine.receive(command(1, Command::GetData("d".to_string()))).unwrap();
    engine.found(
        vec!["first".to_string(), "second".to_string()],
        vec![hit(5, "One"), hit(5, "Two")],
    );
    engine.receive(command(2, Command::Abort)).unwrap();
    let step = engine.receive(command(3, Command::Activate(5))).unwrap();
    assert!(matches!(step.next, Next::Launch(0)));
    assert_eq!(engine.record(0), "first");
}

#[test]
fn not_found_text() {
    assert_eq!(not_found_message(), "cannot find data by hit");
}

#[test]
fn hit_duplicate_keeps_fields() {
    let h = hit(3, "Three");
    let d = h.duplicate();
    assert_eq!(d.id, 3);
    assert_eq!(d.name, "Three");
    assert_eq!(d.description, h.description);
}
