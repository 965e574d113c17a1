use health::{Check, Status};

#[test]
fn check_operations() {
    assert_eq!(Check::Pass, !Check::Failed);
    assert_eq!(Check::Failed, !Check::Pass);

    assert_eq!(Check::Pass, Check::Pass & Check::Pass);
    assert_eq!(Check::Failed, Check::Pass & Check::Failed);
    assert_eq!(Check::Failed, Check::Failed & Check::Pass);
    assert_eq!(Check::Failed, Check::Failed & Check::Failed);

    assert_eq!(Check::Pass, Check::Pass | Check::Pass);
    assert_eq!(Check::Pass, Check::Pass | Check::Failed);
    assert_eq!(Check::Pass, Check::Failed | Check::Pass);
    assert_eq!(Check::Failed, Check::Failed | Check::Failed);

    assert_eq!(Check::Failed, Check::Pass ^ Check::Pass);
    assert_eq!(Check::Pass, Check::Pass ^ Check::Failed);
    assert_eq!(Check::Pass, Check::Failed ^ Check::Pass);
    assert_eq!(Check::Failed, Check::Failed ^ Check::Failed);
}

#[test]
fn status_operations() {
    assert_eq!(Status::Healthy, !Status::Unhealthy);
    assert_eq!(Status::Unhealthy, !Status::Healthy);

    assert_eq!(Status::Healthy, Status::Healthy & Status::Healthy);
    assert_eq!(Status::Unhealthy, Status::Healthy & Status::Unhealthy);
    assert_eq!(Status::Unhealthy, Status::Unhealthy & Status::Healthy);
    assert_eq!(Status::Unhealthy, Status::Unhealthy & Status::Unhealthy);

    assert_eq!(Status::Healthy, Status::Healthy | Status::Healthy);
    assert_eq!(Status::Healthy, Status::Healthy | Status::Unhealthy);
    assert_eq!(Status::Healthy, Status::Unhealthy | Status::Healthy);
    assert_eq!(Status::Unhealthy, Status::Unhealthy | Status::Unhealthy);

    assert_eq!(Status::Unhealthy, Status::Healthy ^ Status::Healthy);
    assert_eq!(Status::Healthy, Status::Healthy ^ Status::Unhealthy);
    assert_eq!(Status::Healthy, Status::Unhealthy ^ Status::Healthy);
    assert_eq!(Status::Unhealthy, Status::Unhealthy ^ Status::Unhealthy);
}

#[test]
fn defaults_are_pass_and_healthy() {
    assert_eq!(Check::Pass, Check::default());
    assert_eq!(Status::Healthy, Status::default());
}

#[test]
fn status_from_check() {
    assert_eq!(Status::Healthy, Status::from(Check::Pass));
    assert_eq!(Status::Unhealthy, Status::from(Check::Failed));
    let s: Status = Check::Failed.into();
    assert_eq!(Status::Unhealthy, s);
}

const CHECKS: [Check; 2] = [Check::Pass, Check::Failed];
const STATUSES: [Status; 2] = [Status::Healthy, Status::Unhealthy];

#[test]
fn negation_is_an_involution() {
    for a in CHECKS {
        assert_eq!(a, !!a);
    }
    for a in STATUSES {
        assert_eq!(a, !!a);
    }
}

#[test]
fn de_morgan_holds() {
    for a in CHECKS {
        for b in CHECKS {
            assert_eq!(!(a & b), !a | !b);
            assert_eq!(!(a | b), !a & !b);
            assert_eq!(a ^ b, (a & !b) | (!a & b));
            assert_eq!(a & b, b & a);
            assert_eq!(a | b, b | a);
            assert_eq!(a ^ b, b ^ a);
            assert_eq!(a ^ b == Check::Pass, a != b);
        }
    }
    for a in STATUSES {
        for b in STATUSES {
            assert_eq!(!(a & b), !a | !b);
            assert_eq!(!(a | b), !a & !b);
            assert_eq!(a & b, b & a);
            assert_eq!(a | b, b | a);
            assert_eq!(a ^ b, b ^ a);
            assert_eq!(a ^ b == Status::Healthy, a != b);
        }
    }
}

#[test]
fn conversion_keeps_operators() {
    for a in CHECKS {
        assert_eq!(Status::from(!a), !Status::from(a));
        for b in CHECKS {
            assert_eq!(Status::from(a & b), Status::from(a) & Status::from(b));
            assert_eq!(Status::from(a | b), Status::from(a) | Status::from(b));
            assert_eq!(Status::from(a ^ b), Status::from(a) ^ Status::from(b));
            assert_eq!(Status::from(a) == Status::from(b), a == b);
        }
    }
}
