use resumable_fetch::orchestrator::{Action, ArtifactKind, Draws, Event, Orchestrator, Phase};
use resumable_fetch::retry::{FailureReason, FetchOutcome};

fn targets(count: usize) -> Vec<String> {
    (0..count).map(|index| format!("https://example.org/item/{}", index)).collect()
}

fn success(body: &str, retried: bool) -> FetchOutcome {
    FetchOutcome::Success { body: String::from(body), retried }
}

fn failure(status: u16) -> FetchOutcome {
    FetchOutcome::Failure { reason: FailureReason::Status(status), retried: false }
}

fn failure_after_retry(status: u16) -> FetchOutcome {
    FetchOutcome::Failure { reason: FailureReason::Status(status), retried: true }
}

fn draws(delay: u64, increment: u64) -> Draws {
    Draws { delay, increment }
}

/// An honest environment: a load of the cursor returns what was saved last,
/// and each fetch ends as `answer` says for its location. Returns every
/// action in order and the cursor that is left.
fn run<F: Fn(&str) -> FetchOutcome>(
    orchestrator: &mut Orchestrator,
    cursor: usize,
    answer: F,
    delay: u64,
    increment: u64,
) -> (Vec<Action>, usize) {
    let mut cursor = cursor;
    let mut trace = Vec::new();
    let mut event = Some(Event::Started);
    let mut steps = 0;
    while let Some(current) = event.take() {
        steps += 1;
        assert!(steps < 10_000);
        for action in orchestrator.step_with(current, draws(delay, increment)) {
            match &action {
                Action::LoadCursor => event = Some(Event::CursorLoaded { cursor }),
                Action::SaveCursor { cursor: saved } => cursor = *saved,
                Action::Fetch { url } => event = Some(Event::Fetched { outcome: answer(url) }),
                _ => {}
            }
            trace.push(action);
        }
    }
    (trace, cursor)
}

#[test]
fn a_new_orchestrator_is_idle() {
    let orchestrator = Orchestrator::new(targets(3));
    assert_eq!(orchestrator.phase(), Phase::Idle);
    assert_eq!(orchestrator.index(), 0);
    assert_eq!(orchestrator.ratchet_ms(), 50);
    assert_eq!(orchestrator.delay_ms(), 50);
    assert!(!orchestrator.is_finished());
}

#[test]
fn a_run_without_targets_finishes_at_once() {
    let mut orchestrator = Orchestrator::new(Vec::new());
    let actions = orchestrator.step_with(Event::Started, draws(50, 40));
    assert_eq!(actions, Vec::<Action>::new());
    assert!(orchestrator.is_finished());
    assert_eq!(orchestrator.phase(), Phase::Finished);
}

#[test]
fn one_item_step_by_step() {
    let mut orchestrator = Orchestrator::new(vec![String::from("https://example.org/a")]);

    let actions = orchestrator.step_with(Event::Started, draws(1, 40));
    assert_eq!(actions, vec![Action::LoadCursor]);
    assert_eq!(orchestrator.phase(), Phase::Loading);
    assert_eq!(orchestrator.delay_ms(), 50);

    let actions = orchestrator.step_with(Event::CursorLoaded { cursor: 0 }, draws(73, 40));
    assert_eq!(
        actions,
        vec![
            Action::SaveCursor { cursor: 0 },
            Action::Fetch { url: String::from("https://example.org/a") },
        ]
    );
    assert_eq!(orchestrator.phase(), Phase::FetchingPage);
    assert_eq!(orchestrator.delay_ms(), 73);

    let actions =
        orchestrator.step_with(Event::Fetched { outcome: success("<html/>", true) }, draws(99, 41));
    assert_eq!(
        actions,
        vec![
            Action::Store { cursor: 0, kind: ArtifactKind::Page, body: String::from("<html/>") },
            Action::Sleep { millis: 73 },
            Action::Fetch { url: String::from("https://example.org/a/data.json") },
        ]
    );
    assert_eq!(orchestrator.phase(), Phase::FetchingData);
    assert_eq!(orchestrator.ratchet_ms(), 91);
    assert_eq!(orchestrator.delay_ms(), 73);

    let actions =
        orchestrator.step_with(Event::Fetched { outcome: success("{}", false) }, draws(99, 59));
    assert_eq!(
        actions,
        vec![
            Action::Store { cursor: 0, kind: ArtifactKind::Data, body: String::from("{}") },
            Action::Sleep { millis: 73 },
        ]
    );
    assert_eq!(orchestrator.phase(), Phase::Finished);
    assert_eq!(orchestrator.index(), 1);
    assert_eq!(orchestrator.ratchet_ms(), 91);
    assert!(orchestrator.is_finished());
}

#[test]
fn every_item_yields_two_artifacts_in_a_run_without_failures() {
    let mut orchestrator = Orchestrator::new(targets(4));
    let (trace, cursor) = run(
        &mut orchestrator,
        0,
        |url| success(&format!("body of {}", url), false),
        60,
        40,
    );
    let mut expected = vec![Action::LoadCursor];
    for index in 0..4usize {
        let url = format!("https://example.org/item/{}", index);
        let data = format!("https://example.org/item/{}/data.json", index);
        expected.push(Action::SaveCursor { cursor: index });
        expected.push(Action::Fetch { url: url.clone() });
        expected.push(Action::Store {
            cursor: index,
            kind: ArtifactKind::Page,
            body: format!("body of {}", url),
        });
        expected.push(Action::Sleep { millis: 60 });
        expected.push(Action::Fetch { url: data.clone() });
        expected.push(Action::Store {
            cursor: index,
            kind: ArtifactKind::Data,
            body: format!("body of {}", data),
        });
        expected.push(Action::Sleep { millis: 60 });
        if index < 3 {
            expected.push(Action::LoadCursor);
        }
    }
    assert_eq!(trace, expected);
    assert_eq!(cursor, 3);
    assert!(orchestrator.is_finished());
    assert_eq!(orchestrator.index(), 4);
    assert_eq!(orchestrator.ratchet_ms(), 50);
}

#[test]
fn every_fetch_ends_in_one_artifact_or_one_report() {
    let mut orchestrator = Orchestrator::new(targets(6));
    let (trace, _) = run(
        &mut orchestrator,
        0,
        |url| {
            if url.ends_with("/1") || url.ends_with("/4/data.json") {
                failure(404)
            } else if url.ends_with("/2") {
                FetchOutcome::Failure { reason: FailureReason::Transport, retried: false }
            } else {
                success("ok", false)
            }
        },
        60,
        40,
    );
    let fetches = trace.iter().filter(|action| matches!(action, Action::Fetch { .. })).count();
    let stores = trace.iter().filter(|action| matches!(action, Action::Store { .. })).count();
    let reports = trace.iter().filter(|action| matches!(action, Action::Report { .. })).count();
    assert_eq!(fetches, stores + reports);
    assert_eq!(fetches, 2 + 1 + 1 + 2 + 2 + 2);
    assert_eq!(reports, 3);
    for index in 0..6usize {
        let saves = trace
            .iter()
            .filter(|action| matches!(action, Action::SaveCursor { cursor } if *cursor == index))
            .count();
        assert_eq!(saves, 1);
        let kinds: Vec<ArtifactKind> = trace
            .iter()
            .filter_map(|action| match action {
                Action::Store { cursor, kind, .. } if *cursor == index => Some(*kind),
                _ => None,
            })
            .collect();
        let expected = match index {
            1 | 2 => vec![],
            4 => vec![ArtifactKind::Page],
            _ => vec![ArtifactKind::Page, ArtifactKind::Data],
        };
        assert_eq!(kinds, expected);
    }
    assert!(orchestrator.is_finished());
}

#[test]
fn a_failed_page_is_reported_and_its_data_is_not_fetched() {
    let mut orchestrator = Orchestrator::new(targets(2));
    let (trace, cursor) = run(
        &mut orchestrator,
        0,
        |url| if url.ends_with("/0") { failure(404) } else { success("ok", false) },
        60,
        40,
    );
    assert_eq!(
        trace,
        vec![
            Action::LoadCursor,
            Action::SaveCursor { cursor: 0 },
            Action::Fetch { url: String::from("https://example.org/item/0") },
            Action::Report { reason: FailureReason::Status(404) },
            Action::LoadCursor,
            Action::SaveCursor { cursor: 1 },
            Action::Fetch { url: String::from("https://example.org/item/1") },
            Action::Store { cursor: 1, kind: ArtifactKind::Page, body: String::from("ok") },
            Action::Sleep { millis: 60 },
            Action::Fetch { url: String::from("https://example.org/item/1/data.json") },
            Action::Store { cursor: 1, kind: ArtifactKind::Data, body: String::from("ok") },
            Action::Sleep { millis: 60 },
        ]
    );
    assert_eq!(cursor, 1);
}

#[test]
fn a_failed_data_fetch_is_reported_and_the_run_goes_on() {
    let mut orchestrator = Orchestrator::new(targets(2));
    let (trace, _) = run(
        &mut orchestrator,
        0,
        |url| if url.ends_with("/0/data.json") { failure(500) } else { success("ok", false) },
        60,
        40,
    );
    assert_eq!(
        trace[..8].to_vec(),
        vec![
            Action::LoadCursor,
            Action::SaveCursor { cursor: 0 },
            Action::Fetch { url: String::from("https://example.org/item/0") },
            Action::Store { cursor: 0, kind: ArtifactKind::Page, body: String::from("ok") },
            Action::Sleep { millis: 60 },
            Action::Fetch { url: String::from("https://example.org/item/0/data.json") },
            Action::Report { reason: FailureReason::Status(500) },
            Action::LoadCursor,
        ]
    );
    assert_eq!(trace.len(), 8 + 7);
    assert!(orchestrator.is_finished());
}

#[test]
fn a_transport_failure_is_reported_like_any_other() {
    let mut orchestrator = Orchestrator::new(targets(2));
    let (trace, cursor) = run(
        &mut orchestrator,
        0,
        |_| FetchOutcome::Failure { reason: FailureReason::Transport, retried: false },
        60,
        40,
    );
    assert_eq!(
        trace,
        vec![
            Action::LoadCursor,
            Action::SaveCursor { cursor: 0 },
            Action::Fetch { url: String::from("https://example.org/item/0") },
            Action::Report { reason: FailureReason::Transport },
            Action::LoadCursor,
            Action::SaveCursor { cursor: 1 },
            Action::Fetch { url: String::from("https://example.org/item/1") },
            Action::Report { reason: FailureReason::Transport },
        ]
    );
    assert_eq!(cursor, 1);
    assert!(orchestrator.is_finished());
}

#[test]
fn resuming_at_cursor_k_skips_the_items_below_k() {
    for k in 0..7usize {
        let mut orchestrator = Orchestrator::new(targets(5));
        let (trace, cursor) = run(&mut orchestrator, k, |_| success("ok", false), 60, 40);
        let saved: Vec<usize> = trace
            .iter()
            .filter_map(|action| match action {
                Action::SaveCursor { cursor } => Some(*cursor),
                _ => None,
            })
            .collect();
        let expected: Vec<usize> = (k..5).collect();
        assert_eq!(saved, expected);
        let fetched: Vec<String> = trace
            .iter()
            .filter_map(|action| match action {
                Action::Fetch { url } => Some(url.clone()),
                _ => None,
            })
            .collect();
        let mut wanted = Vec::new();
        for index in k..5 {
            wanted.push(format!("https://example.org/item/{}", index));
            wanted.push(format!("https://example.org/item/{}/data.json", index));
        }
        assert_eq!(fetched, wanted);
        let loads = trace.iter().filter(|action| matches!(action, Action::LoadCursor)).count();
        assert_eq!(loads, 5);
        assert_eq!(cursor, if k < 5 { 4 } else { k });
        assert!(orchestrator.is_finished());
    }
}

#[test]
fn a_skipped_item_asks_for_nothing_but_the_next_cursor() {
    let mut orchestrator = Orchestrator::new(targets(2));
    orchestrator.step_with(Event::Started, draws(50, 40));
    let actions = orchestrator.step_with(Event::CursorLoaded { cursor: 1 }, draws(77, 40));
    assert_eq!(actions, vec![Action::LoadCursor]);
    assert_eq!(orchestrator.index(), 1);
    assert_eq!(orchestrator.phase(), Phase::Loading);
    assert_eq!(orchestrator.delay_ms(), 50);
    let actions = orchestrator.step_with(Event::CursorLoaded { cursor: 1 }, draws(88, 40));
    assert_eq!(
        actions,
        vec![
            Action::SaveCursor { cursor: 1 },
            Action::Fetch { url: String::from("https://example.org/item/1") },
        ]
    );
    assert_eq!(orchestrator.delay_ms(), 88);
}

#[test]
fn the_cursor_is_saved_before_the_fetch_is_asked_for() {
    let mut orchestrator = Orchestrator::new(targets(3));
    let (trace, _) = run(&mut orchestrator, 0, |_| success("ok", false), 60, 40);
    for index in 0..3usize {
        let save = trace
            .iter()
            .position(|action| *action == Action::SaveCursor { cursor: index })
            .unwrap();
        let fetch = trace
            .iter()
            .position(|action| {
                *action == Action::Fetch { url: format!("https://example.org/item/{}", index) }
            })
            .unwrap();
        assert_eq!(fetch, save + 1);
    }
}

#[test]
fn events_that_are_not_awaited_change_nothing() {
    let mut orchestrator = Orchestrator::new(targets(2));
    let none = Vec::<Action>::new();
    assert_eq!(orchestrator.step_with(Event::CursorLoaded { cursor: 0 }, draws(60, 40)), none);
    assert_eq!(
        orchestrator.step_with(Event::Fetched { outcome: success("x", true) }, draws(60, 40)),
        none
    );
    assert_eq!(orchestrator.phase(), Phase::Idle);
    assert_eq!(orchestrator.ratchet_ms(), 50);

    orchestrator.step_with(Event::Started, draws(60, 40));
    assert_eq!(orchestrator.step_with(Event::Started, draws(60, 40)), none);
    assert_eq!(
        orchestrator.step_with(Event::Fetched { outcome: success("x", true) }, draws(60, 40)),
        none
    );
    assert_eq!(orchestrator.phase(), Phase::Loading);
    assert_eq!(orchestrator.index(), 0);
    assert_eq!(orchestrator.ratchet_ms(), 50);

    orchestrator.step_with(Event::CursorLoaded { cursor: 0 }, draws(60, 40));
    assert_eq!(orchestrator.step_with(Event::CursorLoaded { cursor: 9 }, draws(61, 40)), none);
    assert_eq!(orchestrator.step_with(Event::Started, draws(61, 40)), none);
    assert_eq!(orchestrator.phase(), Phase::FetchingPage);
    assert_eq!(orchestrator.delay_ms(), 60);
}

#[test]
fn a_finished_run_stays_finished() {
    let mut orchestrator = Orchestrator::new(targets(1));
    run(&mut orchestrator, 0, |_| success("ok", false), 60, 40);
    assert!(orchestrator.is_finished());
    let none = Vec::<Action>::new();
    assert_eq!(orchestrator.step_with(Event::Started, draws(60, 40)), none);
    assert_eq!(orchestrator.step_with(Event::CursorLoaded { cursor: 0 }, draws(60, 40)), none);
    assert_eq!(
        orchestrator.step_with(Event::Fetched { outcome: success("x", true) }, draws(60, 40)),
        none
    );
    assert!(orchestrator.is_finished());
    assert_eq!(orchestrator.index(), 1);
    assert_eq!(orchestrator.ratchet_ms(), 50);
}

#[test]
fn retried_fetches_raise_the_ratchet() {
    let mut orchestrator = Orchestrator::new(targets(3));
    run(&mut orchestrator, 0, |_| success("ok", true), 60, 45);
    assert_eq!(orchestrator.ratchet_ms(), 50 + 6 * 45);
    let mut orchestrator = Orchestrator::new(targets(3));
    run(&mut orchestrator, 0, |url| success("ok", url.ends_with("data.json")), 60, 59);
    assert_eq!(orchestrator.ratchet_ms(), 50 + 3 * 59);
    let mut orchestrator = Orchestrator::new(targets(3));
    run(&mut orchestrator, 0, |_| failure(404), 60, 59);
    assert_eq!(orchestrator.ratchet_ms(), 50);
}

#[test]
fn fetches_that_retried_and_failed_raise_the_ratchet() {
    let mut orchestrator = Orchestrator::new(targets(3));
    run(&mut orchestrator, 0, |_| failure_after_retry(429), 60, 59);
    assert_eq!(orchestrator.ratchet_ms(), 50 + 3 * 59);
    assert!(orchestrator.is_finished());

    let mut orchestrator = Orchestrator::new(targets(3));
    run(
        &mut orchestrator,
        0,
        |url| {
            if url.ends_with("data.json") {
                failure_after_retry(503)
            } else {
                success("ok", true)
            }
        },
        60,
        40,
    );
    assert_eq!(orchestrator.ratchet_ms(), 50 + 6 * 40);

    let mut orchestrator = Orchestrator::new(targets(3));
    run(
        &mut orchestrator,
        0,
        |_| FetchOutcome::Failure { reason: FailureReason::Transport, retried: true },
        60,
        41,
    );
    assert_eq!(orchestrator.ratchet_ms(), 50 + 3 * 41);
}

#[test]
fn a_failed_fetch_is_recorded_step_by_step() {
    let mut orchestrator = Orchestrator::new(targets(2));
    orchestrator.step_with(Event::Started, draws(50, 40));
    orchestrator.step_with(Event::CursorLoaded { cursor: 0 }, draws(70, 40));
    let actions =
        orchestrator.step_with(Event::Fetched { outcome: failure_after_retry(429) }, draws(1, 47));
    assert_eq!(
        actions,
        vec![Action::Report { reason: FailureReason::Status(429) }, Action::LoadCursor]
    );
    assert_eq!(orchestrator.ratchet_ms(), 97);
    assert_eq!(orchestrator.index(), 1);
    assert_eq!(orchestrator.phase(), Phase::Loading);

    orchestrator.step_with(Event::CursorLoaded { cursor: 0 }, draws(120, 40));
    orchestrator.step_with(Event::Fetched { outcome: success("page", false) }, draws(1, 47));
    assert_eq!(orchestrator.ratchet_ms(), 97);
    let actions =
        orchestrator.step_with(Event::Fetched { outcome: failure_after_retry(500) }, draws(1, 53));
    assert_eq!(actions, vec![Action::Report { reason: FailureReason::Status(500) }]);
    assert_eq!(orchestrator.ratchet_ms(), 150);
    assert!(orchestrator.is_finished());

    let mut orchestrator = Orchestrator::new(targets(1));
    orchestrator.step_with(Event::Started, draws(50, 40));
    orchestrator.step_with(Event::CursorLoaded { cursor: 0 }, draws(70, 40));
    orchestrator.step_with(Event::Fetched { outcome: failure(404) }, draws(1, 47));
    assert_eq!(orchestrator.ratchet_ms(), 50);
}

#[test]
fn three_items_that_retried_and_failed_leave_the_ratchet_above_the_floor() {
    for _ in 0..50 {
        let mut orchestrator = Orchestrator::new(targets(3));
        assert_eq!(orchestrator.step(Event::Started), vec![Action::LoadCursor]);
        let mut before = orchestrator.ratchet_ms();
        assert_eq!(before, 50);
        for index in 0..3usize {
            orchestrator.step(Event::CursorLoaded { cursor: 0 });
            let delay = orchestrator.delay_ms();
            assert!(before <= delay && delay < before + 50);
            let actions = orchestrator.step(Event::Fetched { outcome: failure_after_retry(429) });
            assert_eq!(actions[0], Action::Report { reason: FailureReason::Status(429) });
            assert_eq!(actions.len(), if index < 2 { 2 } else { 1 });
            let after = orchestrator.ratchet_ms();
            assert!(before + 40 <= after && after < before + 60);
            before = after;
        }
        assert!(orchestrator.is_finished());
        assert!(orchestrator.ratchet_ms() > 50);
        assert!(orchestrator.ratchet_ms() >= 50 + 3 * 40);
    }
}

#[test]
fn drawn_steps_keep_delay_and_ratchet_in_range() {
    for _ in 0..50 {
        let mut orchestrator = Orchestrator::new(targets(3));
        assert_eq!(orchestrator.step(Event::Started), vec![Action::LoadCursor]);
        let mut floor = 50u64;
        for index in 0..3usize {
            let actions = orchestrator.step(Event::CursorLoaded { cursor: 0 });
            assert_eq!(
                actions,
                vec![
                    Action::SaveCursor { cursor: index },
                    Action::Fetch { url: format!("https://example.org/item/{}", index) },
                ]
            );
            let delay = orchestrator.delay_ms();
            assert!(floor <= delay && delay < floor + 50, "delay {} floor {}", delay, floor);

            let actions = orchestrator.step(Event::Fetched { outcome: success("page", true) });
            assert_eq!(
                actions,
                vec![
                    Action::Store {
                        cursor: index,
                        kind: ArtifactKind::Page,
                        body: String::from("page"),
                    },
                    Action::Sleep { millis: delay },
                    Action::Fetch { url: format!("https://example.org/item/{}/data.json", index) },
                ]
            );
            let ratchet = orchestrator.ratchet_ms();
            assert!(floor + 40 <= ratchet && ratchet < floor + 60);
            floor = ratchet;

            let actions = orchestrator.step(Event::Fetched { outcome: success("data", false) });
            assert_eq!(actions.len(), if index < 2 { 3 } else { 2 });
            assert_eq!(actions[1], Action::Sleep { millis: delay });
            assert_eq!(orchestrator.ratchet_ms(), floor);
        }
        assert!(orchestrator.is_finished());
        assert!(orchestrator.ratchet_ms() > 50);
    }
}
