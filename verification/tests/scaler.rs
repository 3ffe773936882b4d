use waifu2x::scaler::Phase;
use waifu2x::scaler::ScaleSession;
use waifu2x::scaler::pass_count;

#[test]
fn pass_counts_are_log2() {
    assert_eq!(pass_count(1), 1);
    assert_eq!(pass_count(2), 1);
    assert_eq!(pass_count(4), 2);
    assert_eq!(pass_count(8), 3);
    assert_eq!(pass_count(16), 4);
    assert_eq!(pass_count(32), 5);
}

#[test]
fn scale_four_runs_two_doubling_passes() {
    let mut session = ScaleSession::new(4, 100, 100, 3);

    let first = session.next_pass().unwrap();
    assert_eq!((first.in_w, first.in_h), (100, 100));
    assert_eq!((first.out_w, first.out_h), (200, 200));
    assert_eq!(first.channels, 3);
    assert!(!session.record_pass());

    let second = session.next_pass().unwrap();
    assert_eq!((second.in_w, second.in_h), (200, 200));
    assert_eq!((second.out_w, second.out_h), (400, 400));
    assert!(session.record_pass());

    assert!(session.next_pass().is_none());
    assert_eq!(session.passes_done, 2);
    session.finish();
    assert_eq!((session.cur_w, session.cur_h), (400, 400));
    assert_eq!(session.live_buffers, 0);
    assert_eq!(session.releases, 2);
    assert_eq!(session.phase, Phase::Finished);
}

#[test]
fn scale_one_issues_single_identity_pass() {
    let mut session = ScaleSession::new(1, 50, 50, 3);
    let only = session.next_pass().unwrap();
    assert_eq!((only.in_w, only.in_h), (50, 50));
    assert_eq!((only.out_w, only.out_h), (50, 50));
    assert!(!session.record_pass());
    assert!(session.next_pass().is_none());
    session.finish();
    assert_eq!((session.cur_w, session.cur_h), (50, 50));
    assert_eq!(session.releases, 1);
    assert_eq!(session.live_buffers, 0);
}

#[test]
fn scale_thirty_two_runs_five_passes() {
    let mut session = ScaleSession::new(32, 7, 9, 4);
    let mut passes = 0;
    while let Some(_) = session.next_pass() {
        session.record_pass();
        passes += 1;
    }
    assert_eq!(passes, 5);
    session.finish();
    assert_eq!((session.cur_w, session.cur_h), (7 * 32, 9 * 32));
    assert_eq!(session.releases, 5);
    assert_eq!(session.live_buffers, 0);
}

#[test]
fn abort_after_a_pass_releases_the_live_buffer() {
    let mut session = ScaleSession::new(8, 10, 10, 3);
    session.record_pass();
    assert_eq!(session.live_buffers, 1);
    let owed = session.abort();
    assert_eq!(owed, 1);
    assert_eq!(session.live_buffers, 0);
    assert_eq!(session.releases, 1);
    assert_eq!(session.phase, Phase::Aborted);
}

#[test]
fn abort_before_any_pass_owes_nothing() {
    let mut session = ScaleSession::new(2, 10, 10, 3);
    let owed = session.abort();
    assert_eq!(owed, 0);
    assert_eq!(session.live_buffers, 0);
    assert_eq!(session.releases, 0);
}
