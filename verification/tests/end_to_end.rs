use ncpv::cli::Config;
use ncpv::estimate::Percent;
use ncpv::ncpv::{Event, Step, NCPV, PAUSE_MS};

const MIB: usize = 1024 * 1024;

/// What a run of the loop over an in-memory source left behind.
struct Outcome {
    session: NCPV,
    sink: Vec<u8>,
    elapsed_ms: u64,
    draws: u64,
    pauses: u64,
    percents: Vec<Option<Percent>>,
    peak_read_over_allowance: bool,
}

/// Runs the copy loop as a program would, on a clock that only this
/// function moves: every transfer takes `ms_per_chunk`, every pause
/// `PAUSE_MS`.
fn copy(source: &[u8], config: Config, ms_per_chunk: u64) -> Outcome {
    let buffer_size = config.buffer_size as usize;
    let cap = config.rate_limit;
    let mut session = NCPV::new(config);
    let mut sink: Vec<u8> = Vec::new();
    let mut position = 0;
    let mut now = 0;
    let mut draws = 0;
    let mut pauses = 0;
    let mut percents = Vec::new();
    let mut over = false;
    let mut event = Event::Idle;
    loop {
        let action = session.run(event, now, false);
        percents.push(session.percent_complete());
        if action.draw {
            draws += 1;
        }
        match action.step {
            Step::Finish => break,
            Step::Pause => {
                pauses += 1;
                now += PAUSE_MS;
                event = Event::Idle;
            }
            Step::Transfer => {
                let seconds = now / 1000;
                if let Some(cap) = cap {
                    if seconds >= 1 && session.read_bytes() >= (cap + 1) * seconds {
                        over = true;
                    }
                }
                let end = (position + buffer_size).min(source.len());
                sink.extend_from_slice(&source[position..end]);
                event = Event::Transferred((end - position) as u64);
                position = end;
                now += ms_per_chunk;
            }
        }
    }
    Outcome {
        session,
        sink,
        elapsed_ms: now,
        draws,
        pauses,
        percents,
        peak_read_over_allowance: over,
    }
}

fn pattern(len: usize) -> Vec<u8> {
    (0..len).map(|i| (i * 31 + i / 251) as u8).collect()
}

fn config(size: Option<u64>, rate_limit: Option<u64>, buffer_size: usize) -> Config {
    Config {
        file_path: "/dev/stdin".to_string(),
        size,
        rate_limit,
        buffer_size: buffer_size as u64,
    }
}

#[test]
fn ten_mebibytes_without_a_cap() {
    let source = pattern(10 * MIB);
    let outcome = copy(&source, config(None, None, MIB), 1);
    assert_eq!(outcome.session.read_bytes(), 10 * 1024 * 1024);
    assert!(outcome.session.finished());
    assert_eq!(outcome.sink, source);
    assert_eq!(outcome.pauses, 0);
}

#[test]
fn source_that_is_no_multiple_of_the_buffer() {
    let source = pattern(3 * MIB + 17);
    let outcome = copy(&source, config(None, None, MIB), 1);
    assert_eq!(outcome.session.read_bytes(), 3 * 1024 * 1024 + 17);
    assert_eq!(outcome.sink, source);
}

#[test]
fn empty_source_finishes_at_once() {
    let outcome = copy(&[], config(Some(0), None, MIB), 1);
    assert_eq!(outcome.session.read_bytes(), 0);
    assert!(outcome.session.finished());
    assert!(outcome.sink.is_empty());
    assert_eq!(outcome.session.percent_complete(), None);
    assert_eq!(outcome.draws, 0);
}

#[test]
fn percent_rises_and_stays_below_100() {
    let source = pattern(3 * MIB);
    let target = 4 * MIB as u64;
    let outcome = copy(&source, config(Some(target), None, 64 * 1024), 250);
    assert_eq!(outcome.session.read_bytes(), 3 * MIB as u64);
    assert_eq!(outcome.sink, source);
    let seen: Vec<Percent> = outcome.percents.iter().filter_map(|p| *p).collect();
    assert!(seen.len() > 2);
    let mut last = 0;
    let mut changes = 0;
    for p in &seen {
        assert_eq!(p.total, target);
        assert!(p.done >= last);
        assert!(p.done <= target);
        assert!(p.round().unwrap() <= 100);
        if p.done > last {
            changes += 1;
        }
        last = p.done;
    }
    assert!(changes > 2);
    assert_eq!(outcome.percents[0], None);
    assert!(outcome.session.samples().len() >= changes);
    assert!(outcome.draws >= changes as u64);
}

#[test]
fn percent_is_absent_without_a_target() {
    let source = pattern(MIB);
    let outcome = copy(&source, config(None, None, 16 * 1024), 250);
    assert!(outcome.percents.iter().all(|p| p.is_none()));
    assert_eq!(outcome.session.eta(), None);
    assert!(!outcome.session.samples().is_empty());
}

#[test]
fn cap_holds_the_average_near_itself() {
    let cap = MIB as u64;
    let buffer = 4 * 1024;
    let source = pattern(20 * MIB);
    let capped = copy(&source, config(None, Some(cap), buffer), 1);
    let free = copy(&source, config(None, None, buffer), 1);
    assert_eq!(capped.sink, source);
    assert_eq!(capped.session.read_bytes(), 20 * MIB as u64);
    assert!(capped.pauses > 0);
    assert!(!capped.peak_read_over_allowance);

    let seconds = capped.elapsed_ms / 1000;
    let average = capped.session.get_transfer_rate(seconds);
    assert!(seconds >= 19);
    assert!(average <= cap + 1 + buffer as u64);
    assert!(average >= cap - cap / 10);

    let free_seconds = free.elapsed_ms / 1000;
    assert!(free_seconds <= 6);
    assert!(free.session.get_transfer_rate(free_seconds) >= 3 * cap);
}

#[test]
fn cap_far_below_the_source_still_lets_every_byte_through() {
    let source = pattern(64 * 1024);
    let outcome = copy(&source, config(None, Some(1024), 1024), 100);
    assert_eq!(outcome.sink, source);
    assert!(!outcome.peak_read_over_allowance);
    let seconds = outcome.elapsed_ms / 1000;
    assert!(seconds >= 60);
    assert!(outcome.session.get_transfer_rate(seconds) <= 1024 + 1 + 1024);
}

#[test]
fn first_second_is_not_capped() {
    let source = pattern(64 * 1024);
    let outcome = copy(&source, config(None, Some(1024), 1024), 1);
    assert_eq!(outcome.sink, source);
    assert_eq!(outcome.pauses, 0);
    assert!(outcome.elapsed_ms < 1000);
}
