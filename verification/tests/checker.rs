use health::{Check, Config, Level, Reporter, Span, State, Status};

fn secs(n: u64) -> Span {
    Span::from_secs(n)
}

#[test]
fn config_defaults() {
    let config = Config::default();
    assert_eq!(secs(5), config.check_interval);
    assert_eq!(3, config.min_failures);
    assert_eq!(1, config.min_successes);
    assert_eq!(secs(15), config.leeway);
}

#[test]
fn state_defaults() {
    let state = State::default();
    assert_eq!(Status::Healthy, state.status);
    assert_eq!(Span::default(), state.last_update);
    assert_eq!(Check::Pass, state.last_check);
    assert_eq!(0, state.count);
}

#[test]
fn three_failures_make_unhealthy_under_default_config() {
    let config = Config::default();
    let mut state = State::default();

    let report = state.record(Check::Failed, secs(5), &config);
    assert_eq!(Level::Warn, report.level);
    assert_eq!(Status::Healthy, report.status);
    assert_eq!(1, report.count);
    assert_eq!(Check::Failed, report.check);

    let report = state.record(Check::Failed, secs(10), &config);
    assert_eq!(Level::Warn, report.level);
    assert_eq!(Status::Healthy, state.status);
    assert_eq!(2, state.count);

    let report = state.record(Check::Failed, secs(15), &config);
    assert_eq!(Level::Error, report.level);
    assert_eq!(Status::Unhealthy, state.status);
    assert_eq!(3, state.count);
    assert_eq!(secs(15), state.last_update);
    assert_eq!(Check::Failed, state.last_check);
}

#[test]
fn first_success_makes_healthy_under_default_config() {
    let config = Config::default();
    let mut state = State {
        status: Status::Unhealthy,
        last_update: secs(1),
        last_check: Check::Failed,
        count: 7,
    };
    let report = state.record(Check::Pass, secs(2), &config);
    assert_eq!(Level::Info, report.level);
    assert_eq!(Status::Healthy, report.status);
    assert_eq!(1, report.count);

    let report = state.record(Check::Pass, secs(3), &config);
    assert_eq!(Level::Debug, report.level);
    assert_eq!(2, report.count);
}

#[test]
fn unhealthy_and_passing_reports_info() {
    let config = Config {
        min_successes: 2,
        ..Config::default()
    };
    let mut state = State {
        status: Status::Unhealthy,
        last_update: secs(0),
        last_check: Check::Failed,
        count: 4,
    };
    let report = state.record(Check::Pass, secs(1), &config);
    assert_eq!(Level::Info, report.level);
    assert_eq!(Status::Unhealthy, report.status);
    let report = state.record(Check::Pass, secs(2), &config);
    assert_eq!(Level::Info, report.level);
    assert_eq!(Status::Healthy, report.status);
    let report = state.record(Check::Pass, secs(3), &config);
    assert_eq!(Level::Debug, report.level);
}

#[test]
fn a_pass_breaks_a_failure_streak() {
    let config = Config::default();
    let mut state = State::default();
    state.record(Check::Failed, secs(1), &config);
    state.record(Check::Failed, secs(2), &config);
    state.record(Check::Pass, secs(3), &config);
    assert_eq!(1, state.count);
    state.record(Check::Failed, secs(4), &config);
    state.record(Check::Failed, secs(5), &config);
    assert_eq!(Status::Healthy, state.status);
    state.record(Check::Failed, secs(6), &config);
    assert_eq!(Status::Unhealthy, state.status);
}

#[test]
fn count_saturates() {
    let config = Config {
        min_failures: 255,
        ..Config::default()
    };
    let mut state = State::default();
    for i in 0..300u64 {
        state.record(Check::Failed, secs(i), &config);
        if i < 254 {
            assert_eq!(Status::Healthy, state.status);
        }
    }
    assert_eq!(255, state.count);
    assert_eq!(Status::Unhealthy, state.status);
}

#[test]
fn zero_thresholds_flip_on_first_result() {
    let config = Config {
        min_failures: 0,
        min_successes: 0,
        ..Config::default()
    };
    let mut state = State::default();
    state.record(Check::Failed, secs(1), &config);
    assert_eq!(Status::Unhealthy, state.status);
    state.record(Check::Pass, secs(2), &config);
    assert_eq!(Status::Healthy, state.status);
}

#[test]
fn level_for_each_outcome() {
    let (pass, failed) = (Check::Pass, Check::Failed);
    let (healthy, unhealthy) = (Status::Healthy, Status::Unhealthy);
    assert_eq!(Level::Error, Level::for_outcome(healthy, unhealthy, failed));
    assert_eq!(Level::Error, Level::for_outcome(unhealthy, unhealthy, failed));
    assert_eq!(Level::Warn, Level::for_outcome(healthy, healthy, failed));
    assert_eq!(Level::Info, Level::for_outcome(unhealthy, unhealthy, pass));
    assert_eq!(Level::Info, Level::for_outcome(unhealthy, healthy, pass));
    assert_eq!(Level::Debug, Level::for_outcome(healthy, healthy, pass));
}

#[test]
fn status_goes_stale_after_leeway() {
    let config = Config::default();
    let mut state = State::default();
    state.record(Check::Pass, secs(10), &config);
    assert_eq!(Some(Status::Healthy), state.status_at(secs(10), config.leeway));
    assert_eq!(Some(Status::Healthy), state.status_at(secs(25), config.leeway));
    assert_eq!(None, state.status_at(Span::new(25, 1), config.leeway));
    assert_eq!(None, state.status_at(secs(100), config.leeway));
}

#[test]
fn fresh_update_is_current_even_with_zero_leeway() {
    let config = Config::default();
    let mut state = State::default();
    state.record(Check::Failed, Span::new(3, 500), &config);
    assert_eq!(Some(Status::Healthy), state.status_at(Span::new(3, 500), Span::default()));
    assert_eq!(None, state.status_at(Span::new(3, 501), Span::default()));
}

#[test]
fn span_arithmetic() {
    let a = Span::new(2, 1_500_000_000);
    assert_eq!(3, a.as_secs());
    assert_eq!(500_000_000, a.subsec_nanos());
    assert_eq!(Span::new(3, 500_000_000), a);

    let b = Span::new(1, 700_000_000);
    assert_eq!(Some(Span::new(1, 800_000_000)), a.checked_sub(&b));
    assert_eq!(None, b.checked_sub(&a));
    assert_eq!(Some(Span::default()), a.checked_sub(&a));
    assert_eq!(Some(Span::new(0, 100)), Span::new(4, 50).checked_sub(&Span::new(3, 999_999_950)));

    assert!(a.is_longer_than(&b));
    assert!(!b.is_longer_than(&a));
    assert!(!a.is_longer_than(&a));
    assert!(Span::new(1, 1).is_longer_than(&Span::new(1, 0)));
    assert_eq!(Span::from_secs(7), Span::new(7, 0));
    assert_eq!(Span::new(u64::MAX, 999_999_999).as_secs(), u64::MAX);
}

struct Fixed(Check);

impl Reporter for Fixed {
    fn last_check(&self) -> Check {
        self.0
    }
}

#[test]
fn reporter_defaults_follow_last_check() {
    let ok = Fixed(Check::Pass);
    assert_eq!(Status::Healthy, ok.raw_status());
    assert_eq!(Some(Status::Healthy), ok.status());
    assert_eq!(Check::Pass, ok.last_check());

    let bad = Fixed(Check::Failed);
    assert_eq!(Status::Unhealthy, bad.raw_status());
    assert_eq!(Some(Status::Unhealthy), bad.status());
}
