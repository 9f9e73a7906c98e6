use laminardb_test::phase8_v012::{late_data_verdict, session_emit, SessionEmit, WindowCount};
use laminardb_test::checks::{cdc_capture, stream_check, CdcCapture, Outcome, StreamCheck, Tally};
use laminardb_test::cli::{select_phase, PhaseChoice};
use laminardb_test::phase10_sql_ext::{having_verdict, offset_verdict, HavingVerdict, OffsetVerdict};
use laminardb_test::phase11_subs::{fan_out_verdict, recv_verdict, FanOutVerdict, RecvVerdict};
use laminardb_test::phase5_cdc::{cdc_source_statement, connection_config};
use laminardb_test::phase8_v012::{cascade_verdict, output_outcome, CascadeVerdict};

#[test]
fn stream_checks() {
    assert_eq!(stream_check(3, false), StreamCheck::Pass);
    assert_eq!(stream_check(0, true), StreamCheck::NoOutput);
    assert_eq!(stream_check(0, false), StreamCheck::NotCreated);
}

#[test]
fn cdc_capture_modes() {
    assert_eq!(cdc_capture(true, 4, true), CdcCapture::Polling);
    assert_eq!(cdc_capture(true, 0, true), CdcCapture::Failed);
    assert_eq!(cdc_capture(false, 0, true), CdcCapture::Native);
    assert_eq!(cdc_capture(false, 0, false), CdcCapture::Failed);
}

#[test]
fn feature_verdicts() {
    assert_eq!(cascade_verdict(5, 2), CascadeVerdict::Cascades);
    assert_eq!(cascade_verdict(5, 0), CascadeVerdict::FirstLevelOnly);
    assert_eq!(cascade_verdict(0, 0), CascadeVerdict::NoOutput);
    assert_eq!(cascade_verdict(5, 0).outcome(), Outcome::Fail);
    assert_eq!(cascade_verdict(0, 1).outcome(), Outcome::Pass);
    assert_eq!(output_outcome(0), Outcome::Fail);
    assert_eq!(output_outcome(1), Outcome::Pass);
    assert_eq!(having_verdict(10, 0), HavingVerdict::Filters);
    assert_eq!(having_verdict(10, 1), HavingVerdict::NotFiltering);
    assert_eq!(having_verdict(0, 0), HavingVerdict::NoBaseline);
    assert_eq!(having_verdict(0, 3).outcome(), Outcome::Fail);
    assert_eq!(offset_verdict(0, 0), OffsetVerdict::NoOutput);
    assert_eq!(offset_verdict(9, 2), OffsetVerdict::HasNeighbours);
    assert_eq!(offset_verdict(9, 0).outcome(), Outcome::Pass);
    assert_eq!(recv_verdict(1, true), RecvVerdict::Received);
    assert_eq!(recv_verdict(1, true).outcome(), Outcome::Pass);
    assert_eq!(recv_verdict(5, false), RecvVerdict::ReceivedWithoutTimeout);
    assert_eq!(recv_verdict(5, false).outcome(), Outcome::Fail);
    assert_eq!(recv_verdict(0, true), RecvVerdict::TimedOutNoData);
    assert_eq!(recv_verdict(0, false).outcome(), Outcome::Fail);
    assert_eq!(fan_out_verdict(1, 1), FanOutVerdict::FanOut);
    assert_eq!(fan_out_verdict(1, 0), FanOutVerdict::FirstOnly);
    assert_eq!(fan_out_verdict(0, 1), FanOutVerdict::SecondOnly);
    assert_eq!(fan_out_verdict(0, 0).outcome(), Outcome::Fail);
}

#[test]
fn tally_counts() {
    let mut t = Tally::new();
    t.record(Outcome::Pass);
    t.record(Outcome::Pass);
    t.record(Outcome::Skip);
    t.record(Outcome::Fail);
    assert_eq!((t.pass, t.fail, t.skip, t.total()), (2, 1, 1, 4));
}

#[test]
fn phase_selection() {
    assert_eq!(select_phase(None), PhaseChoice::Tui);
    assert_eq!(select_phase(Some("tui")), PhaseChoice::Tui);
    assert_eq!(select_phase(Some("phase1")), PhaseChoice::Phase1);
    assert_eq!(select_phase(Some("phase5")), PhaseChoice::Phase5);
    assert_eq!(select_phase(Some("bonus")), PhaseChoice::Phase6);
    assert_eq!(select_phase(Some("stress")), PhaseChoice::Phase7);
    assert_eq!(select_phase(Some("v012")), PhaseChoice::Phase8);
    assert_eq!(select_phase(Some("phase9")), PhaseChoice::Unknown);
    assert_eq!(select_phase(Some("Phase1")), PhaseChoice::Unknown);
}

#[test]
fn connection_settings_text() {
    let (h, u, p) = ("db.local", "laminar", "s3cret");
    assert_eq!(
        connection_config(h, u, p),
        format!("host={h} port=5432 dbname=shop user={u} password={p}")
    );
    let expected = format!(
        "CREATE SOURCE orders_cdc (
            id INT NOT NULL,
            customer_id INT NOT NULL,
            amount DOUBLE NOT NULL,
            status VARCHAR NOT NULL,
            ts BIGINT NOT NULL
        ) FROM \"postgres-cdc\" (
            'host' = '{h}',
            'port' = '5432',
            'database' = 'shop',
            'username' = '{u}',
            'password' = '{p}',
            'slot.name' = 'laminar_orders',
            'publication' = 'laminar_pub',
            'snapshot.mode' = 'never'
        )"
    );
    assert_eq!(cdc_source_statement(h, u, p), expected);
}

#[test]
fn late_data_and_session_verdicts() {
    let row = |s: &str| WindowCount { symbol: s.to_string(), cnt: 1 };
    let v = late_data_verdict(&vec![row("AAPL"), row("MSFT")]);
    assert!(v.filtered);
    assert_eq!(v.outcome(), Outcome::Pass);
    let v = late_data_verdict(&vec![row("AAPL"), row("LATE")]);
    assert!(!v.filtered);
    assert_eq!(v.outcome(), Outcome::Pass);
    assert!(late_data_verdict(&vec![]).filtered);
    assert!(late_data_verdict(&vec![row("LATER")]).filtered);
    assert_eq!(session_emit(0, 75), SessionEmit::NoOutput);
    assert_eq!(session_emit(15, 75), SessionEmit::Merged);
    assert_eq!(session_emit(37, 75), SessionEmit::Merged);
    assert_eq!(session_emit(38, 75), SessionEmit::PerBatch);
    assert_eq!(session_emit(5, 10), SessionEmit::PerBatch);
    assert_eq!(session_emit(3, 0), SessionEmit::PerBatch);
}
