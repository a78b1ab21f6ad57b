use sidecar_supervisor::process::{Effect, Query, Reply};
use sidecar_supervisor::reaper::{Reaper, ReaperNext, ReaperStep, GRACE_PERIOD_MS};

/// Runs a sweep over `found`, of which `stubborn` ignore the graceful
/// signal. Returns everything the reaper asked for, and its count.
fn sweep(found: &[u32], stubborn: &[u32]) -> (Vec<Effect>, Vec<Query>, u32) {
    let (mut reaper, mut step) = Reaper::begin();
    let mut effects = Vec::new();
    let mut queries = Vec::new();
    loop {
        let ReaperStep { effects: now, next } = step;
        effects.extend(now);
        match next {
            ReaperNext::Finished { cleaned } => return (effects, queries, cleaned),
            ReaperNext::Ask(query) => {
                let reply = match &query {
                    Query::Poll { targets } => {
                        Reply::Statuses(targets.iter().map(|t| stubborn.contains(t)).collect())
                    }
                    _ => Reply::Pids(found.to_vec()),
                };
                queries.push(query);
                step = reaper.advance(reply);
            }
        }
    }
}

#[test]
fn reaper_begins_by_listing_by_name() {
    let (_, step) = Reaper::begin();
    assert!(step.effects.is_empty());
    assert_eq!(step.next, ReaperNext::Ask(Query::ListByName));
    assert_eq!(GRACE_PERIOD_MS, 500);
}

#[test]
fn reaper_with_nothing_found_ends_without_waiting() {
    let (mut reaper, _) = Reaper::begin();
    let step = reaper.advance(Reply::Pids(vec![]));
    assert!(step.effects.is_empty());
    assert_eq!(step.next, ReaperNext::Finished { cleaned: 0 });
}

#[test]
fn reaper_asks_waits_checks_and_kills_what_is_left() {
    let (mut reaper, _) = Reaper::begin();
    let step = reaper.advance(Reply::Pids(vec![11, 22, 33]));
    assert_eq!(
        step.effects,
        vec![Effect::SendGraceful { pid: 11 }, Effect::Sleep { millis: 500 }]
    );
    assert_eq!(step.next, ReaperNext::Ask(Query::Poll { targets: vec![11] }));

    // 11 is gone after the grace period.
    let step = reaper.advance(Reply::Statuses(vec![false]));
    assert_eq!(
        step.effects,
        vec![Effect::SendGraceful { pid: 22 }, Effect::Sleep { millis: 500 }]
    );
    assert_eq!(step.next, ReaperNext::Ask(Query::Poll { targets: vec![22] }));

    // 22 is still there and is killed before 33 is turned to.
    let step = reaper.advance(Reply::Statuses(vec![true]));
    assert_eq!(
        step.effects,
        vec![
            Effect::SendForceful { pid: 22 },
            Effect::SendGraceful { pid: 33 },
            Effect::Sleep { millis: 500 },
        ]
    );
    assert_eq!(step.next, ReaperNext::Ask(Query::Poll { targets: vec![33] }));

    // 33 is still there too; the sweep ends with one more grace period.
    let step = reaper.advance(Reply::Statuses(vec![true]));
    assert_eq!(
        step.effects,
        vec![Effect::SendForceful { pid: 33 }, Effect::Sleep { millis: 500 }]
    );
    assert_eq!(step.next, ReaperNext::Finished { cleaned: 3 });

    let again = reaper.advance(Reply::Statuses(vec![true]));
    assert!(again.effects.is_empty());
    assert_eq!(again.next, ReaperNext::Finished { cleaned: 3 });
}

#[test]
fn reaper_counts_every_listed_process_and_signals_no_other() {
    let (effects, queries, cleaned) = sweep(&[4120, 980], &[980]);
    assert_eq!(cleaned, 2);
    assert_eq!(
        effects,
        vec![
            Effect::SendGraceful { pid: 4120 },
            Effect::Sleep { millis: 500 },
            Effect::SendGraceful { pid: 980 },
            Effect::Sleep { millis: 500 },
            Effect::SendForceful { pid: 980 },
            Effect::Sleep { millis: 500 },
        ]
    );
    assert_eq!(
        queries,
        vec![
            Query::ListByName,
            Query::Poll { targets: vec![4120] },
            Query::Poll { targets: vec![980] },
        ]
    );
}

#[test]
fn reaper_kills_nothing_that_heeds_the_graceful_signal() {
    let (effects, _, cleaned) = sweep(&[1, 2, 3], &[]);
    assert_eq!(cleaned, 3);
    assert!(effects.iter().all(|e| !matches!(e, Effect::SendForceful { .. })));
    assert_eq!(effects.iter().filter(|e| matches!(e, Effect::Sleep { millis: 500 })).count(), 4);
}

#[test]
fn reaper_takes_a_wrong_reply_for_an_empty_listing() {
    let (mut reaper, _) = Reaper::begin();
    let step = reaper.advance(Reply::Statuses(vec![true, true]));
    assert!(step.effects.is_empty());
    assert_eq!(step.next, ReaperNext::Finished { cleaned: 0 });
}
