use file_sink::error::SinkError;
use file_sink::plugin::{AutoSave, FileSink, FileSinkPlugin, SaveTimer};
use file_sink::record::Record;
use file_sink::sink::new_sink;
use file_sink::task::{initial, step, Action, Event, Phase};
use file_sink::watch::{changed, sync_file};

#[test]
fn file_sink_keeps_its_path() {
    let sink = FileSink::new(String::from("state.bin"));
    assert_eq!(sink.path, "state.bin");
}

#[test]
fn plugin_starts_with_watcher_disabled() {
    let plugin = FileSinkPlugin::new(String::from("state.bin"));
    assert_eq!(plugin.path, "state.bin");
    assert!(!plugin.sync_res);
}

#[test]
fn autosave_from_timer_is_enabled() {
    let auto = AutoSave::from_timer(SaveTimer::new(1000));
    assert!(auto.enabled);
    assert_eq!(auto.timer, SaveTimer::new(1000));
}

#[test]
fn save_timer_fires_after_its_period() {
    let mut timer = SaveTimer::new(1000);
    assert!(!timer.tick(300));
    assert_eq!(timer.elapsed_millis, 300);
    assert!(timer.tick(700));
    assert_eq!(timer.elapsed_millis, 0);
    assert!(timer.tick(1500));
    assert_eq!(timer.elapsed_millis, 0);
}

#[test]
fn save_timer_zero_period_always_fires() {
    let mut timer = SaveTimer::new(0);
    assert!(timer.tick(0));
    assert_eq!(timer.elapsed_millis, 0);
}

#[test]
fn save_timer_huge_delta_fires() {
    let mut timer = SaveTimer::new(u64::MAX);
    assert!(!timer.tick(1));
    assert_eq!(timer.elapsed_millis, 1);
    assert!(timer.tick(u64::MAX));
    assert_eq!(timer.elapsed_millis, 0);
}

#[test]
fn task_starts_by_preparing() {
    assert_eq!(initial(), (Phase::Starting, Action::Prepare));
}

#[test]
fn prepare_failure_is_non_fatal() {
    assert_eq!(
        step(&Phase::Starting, &Event::Prepared(false)),
        (Phase::Running, Action::AwaitRecord)
    );
    assert_eq!(
        step(&Phase::Starting, &Event::Prepared(true)),
        (Phase::Running, Action::AwaitRecord)
    );
}

#[test]
fn running_writes_each_received_record() {
    let rec = Record::new(6, 7);
    assert_eq!(
        step(&Phase::Running, &Event::Received(rec)),
        (Phase::Running, Action::Write(rec))
    );
}

#[test]
fn failed_write_never_aborts_the_task() {
    assert_eq!(
        step(&Phase::Running, &Event::Wrote(false)),
        (Phase::Running, Action::AwaitRecord)
    );
    assert_eq!(
        step(&Phase::Running, &Event::Wrote(true)),
        (Phase::Running, Action::AwaitRecord)
    );
}

#[test]
fn closed_channel_drains_then_terminates() {
    assert_eq!(step(&Phase::Running, &Event::Closed), (Phase::Draining, Action::Finalize));
    assert_eq!(
        step(&Phase::Draining, &Event::Finalized(true)),
        (Phase::Terminated, Action::Stop)
    );
    assert_eq!(
        step(&Phase::Draining, &Event::Finalized(false)),
        (Phase::Terminated, Action::Stop)
    );
}

#[test]
fn terminated_task_stays_terminated() {
    let rec = Record::new(1, 1);
    assert_eq!(step(&Phase::Terminated, &Event::Received(rec)), (Phase::Terminated, Action::Stop));
    assert_eq!(step(&Phase::Terminated, &Event::Closed), (Phase::Terminated, Action::Stop));
}

#[test]
fn changed_detects_first_and_differing_snapshots() {
    let rec = Record::new(1, 2);
    assert!(changed(None, rec));
    assert!(changed(Some(Record::new(0, 0)), rec));
    assert!(!changed(Some(rec), rec));
}

#[test]
fn watcher_sends_only_on_change() {
    let (tx, rx) = new_sink();
    let mut prev: Option<Record> = None;
    let cur = Record::new(2, 3);

    assert!(sync_file(&tx, &mut prev, cur));
    assert_eq!(prev, Some(cur));

    assert!(!sync_file(&tx, &mut prev, cur));

    let queued = file_sink::sink::collect_pending(&rx, 10);
    assert_eq!(queued, vec![cur]);
}

#[test]
fn error_descriptions_name_the_operation() {
    assert_eq!(SinkError::Open.describe(), "cannot open the destination");
    assert_eq!(SinkError::Read.describe(), "cannot read the destination");
    assert_eq!(
        SinkError::Deserialize.describe(),
        "the destination's content does not parse"
    );
    assert_eq!(SinkError::Write.describe(), "cannot write the record");
    assert_eq!(SinkError::Truncate.describe(), "cannot truncate the destination");
    assert_eq!(SinkError::Flush.describe(), "cannot flush the destination");
}
