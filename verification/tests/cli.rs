use pgp_expiration::cli::{output, select_verb, Action, CacheRead, Event, Session, Stage, Verb};
use pgp_expiration::formatter::{config, fetch};
use pgp_expiration::outcome::{ExpirationOutcome, ExpirationResult, Snapshot};

fn args(list: &[&str]) -> Vec<String> {
    list.iter().map(|arg| arg.to_string()).collect()
}

fn snapshot() -> Snapshot {
    Snapshot {
        outcomes: vec![
            ExpirationOutcome {
                identity: "a@example.org".to_string(),
                result: ExpirationResult::Days(12),
            },
            ExpirationOutcome {
                identity: "b@example.org".to_string(),
                result: ExpirationResult::Failed("Error: unreachable".to_string()),
            },
            ExpirationOutcome {
                identity: "c@example.org".to_string(),
                result: ExpirationResult::NoExpiration,
            },
        ],
    }
}

const VALUES: &str = "a_example_org.value 12\nb_example_org.value -999\n";

#[test]
fn select_verb_reads_the_one_argument() {
    assert_eq!(select_verb(&args(&["plugin", "config"])), Verb::Config);
    assert_eq!(select_verb(&args(&["plugin", "cron"])), Verb::Cron);
    assert_eq!(select_verb(&args(&["plugin", "fetch"])), Verb::Fetch);
    assert_eq!(select_verb(&args(&["plugin", ""])), Verb::Fetch);
    assert_eq!(select_verb(&args(&["plugin", "Config"])), Verb::Fetch);
    assert_eq!(select_verb(&args(&["plugin", "cron "])), Verb::Fetch);
    assert_eq!(select_verb(&args(&["plugin", "suggest"])), Verb::Fetch);
}

#[test]
fn select_verb_without_exactly_one_argument_is_fetch() {
    assert_eq!(select_verb(&args(&[])), Verb::Fetch);
    assert_eq!(select_verb(&args(&["plugin"])), Verb::Fetch);
    assert_eq!(select_verb(&args(&["config"])), Verb::Fetch);
    assert_eq!(select_verb(&args(&["plugin", "config", "cron"])), Verb::Fetch);
    assert_eq!(select_verb(&args(&["plugin", "cron", "x"])), Verb::Fetch);
}

#[test]
fn output_of_each_verb() {
    let snapshot = snapshot();
    assert_eq!(output(Verb::Fetch, false, &snapshot), VALUES);
    assert_eq!(output(Verb::Fetch, true, &snapshot), VALUES);
    assert_eq!(output(Verb::Cron, false, &snapshot), "");
    assert_eq!(output(Verb::Cron, true, &snapshot), "");
    assert_eq!(output(Verb::Config, false, &snapshot), config(&snapshot));
    assert_eq!(
        output(Verb::Config, true, &snapshot),
        format!("{}{}", config(&snapshot), fetch(&snapshot))
    );
}

#[test]
fn a_cold_start_runs_one_batch_and_then_prints_as_from_the_cache() {
    for (verb, dirty_config) in
        [(Verb::Fetch, false), (Verb::Fetch, true), (Verb::Config, false), (Verb::Config, true)]
    {
        let mut cold = Session::new(verb, dirty_config);
        assert_eq!(cold.stage, Stage::Start);
        assert_eq!(cold.step(Event::Begin), Action::Load);
        assert_eq!(cold.step(Event::Cache(CacheRead::Absent)), Action::Resolve);
        assert_eq!(cold.stage, Stage::AwaitingBatch);
        let printed = match cold.step(Event::Resolved(snapshot())) {
            Action::StoreAndEmit { snapshot: stored, text } => {
                assert_eq!(stored, snapshot());
                text
            }
            other => panic!("{:?}", other),
        };
        assert_eq!(cold.stage, Stage::Done);

        let mut warm = Session::new(verb, dirty_config);
        assert_eq!(warm.step(Event::Begin), Action::Load);
        assert_eq!(warm.step(Event::Cache(CacheRead::Held(snapshot()))), Action::Emit(printed));
        assert_eq!(warm.stage, Stage::Done);
    }
}

#[test]
fn fetch_from_the_cache_prints_the_values() {
    let mut session = Session::new(Verb::Fetch, false);
    assert_eq!(session.step(Event::Begin), Action::Load);
    assert_eq!(session.stage, Stage::AwaitingCache);
    assert_eq!(
        session.step(Event::Cache(CacheRead::Held(snapshot()))),
        Action::Emit(VALUES.to_string())
    );
}

#[test]
fn cron_refreshes_without_reading_the_store_and_prints_nothing() {
    for dirty_config in [false, true] {
        let mut session = Session::new(Verb::Cron, dirty_config);
        assert_eq!(session.step(Event::Begin), Action::Resolve);
        assert_eq!(session.stage, Stage::AwaitingBatch);
        assert_eq!(
            session.step(Event::Resolved(snapshot())),
            Action::StoreAndEmit { snapshot: snapshot(), text: String::new() }
        );
        assert_eq!(session.stage, Stage::Done);
    }
}

#[test]
fn a_store_that_cannot_be_read_ends_the_invocation() {
    for verb in [Verb::Fetch, Verb::Config] {
        let mut session = Session::new(verb, false);
        assert_eq!(session.step(Event::Begin), Action::Load);
        assert_eq!(
            session.step(Event::Cache(CacheRead::Unreadable("unexpected end".to_string()))),
            Action::Fail("unexpected end".to_string())
        );
        assert_eq!(session.stage, Stage::Done);
    }
}

#[test]
fn an_event_out_of_turn_halts_the_session() {
    let mut session = Session::new(Verb::Fetch, false);
    assert_eq!(session.step(Event::Resolved(snapshot())), Action::Halt);
    assert_eq!(session.stage, Stage::Done);
    assert_eq!(session.step(Event::Begin), Action::Halt);

    let mut session = Session::new(Verb::Cron, false);
    assert_eq!(session.step(Event::Begin), Action::Resolve);
    assert_eq!(session.step(Event::Cache(CacheRead::Absent)), Action::Halt);
    assert_eq!(session.step(Event::Resolved(snapshot())), Action::Halt);

    let mut session = Session::new(Verb::Config, true);
    assert_eq!(session.step(Event::Begin), Action::Load);
    assert_eq!(session.step(Event::Begin), Action::Halt);
}
