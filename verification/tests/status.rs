use ogcapi_jobs::error::JobError;
use ogcapi_jobs::status::{JobStatus, StatusSet};

const ALL: [JobStatus; 5] = [
    JobStatus::Accepted,
    JobStatus::Running,
    JobStatus::Successful,
    JobStatus::Failed,
    JobStatus::Dismissed,
];

#[test]
fn three_statuses_are_terminal() {
    assert!(!JobStatus::Accepted.is_terminal());
    assert!(!JobStatus::Running.is_terminal());
    assert!(JobStatus::Successful.is_terminal());
    assert!(JobStatus::Failed.is_terminal());
    assert!(JobStatus::Dismissed.is_terminal());
}

#[test]
fn transitions_follow_the_state_machine() {
    let allowed = [
        (JobStatus::Accepted, JobStatus::Running),
        (JobStatus::Accepted, JobStatus::Dismissed),
        (JobStatus::Running, JobStatus::Successful),
        (JobStatus::Running, JobStatus::Failed),
        (JobStatus::Running, JobStatus::Dismissed),
    ];
    for from in ALL {
        for to in ALL {
            assert_eq!(from.can_become(to), allowed.contains(&(from, to)), "{:?} -> {:?}", from, to);
        }
    }
}

#[test]
fn terminal_statuses_lead_nowhere() {
    for from in ALL {
        if from.is_terminal() {
            for to in ALL {
                assert!(!from.can_become(to));
            }
        }
    }
}

#[test]
fn statuses_are_published_in_lower_case() {
    assert_eq!(JobStatus::Accepted.as_str(), "accepted");
    assert_eq!(JobStatus::Running.as_str(), "running");
    assert_eq!(JobStatus::Successful.as_str(), "successful");
    assert_eq!(JobStatus::Failed.as_str(), "failed");
    assert_eq!(JobStatus::Dismissed.as_str(), "dismissed");
}

#[test]
fn published_names_read_back() {
    for s in ALL {
        assert_eq!(JobStatus::from_label(&s.as_str().to_string()), Some(s));
    }
    assert_eq!(JobStatus::from_label(&"Accepted".to_string()), None);
    assert_eq!(JobStatus::from_label(&"".to_string()), None);
    assert_eq!(JobStatus::from_label(&"done".to_string()), None);
}

#[test]
fn status_sets_hold_what_was_put_in() {
    let empty = StatusSet::empty();
    for s in ALL {
        assert!(!empty.contains(s));
        let one = StatusSet::only(s);
        for t in ALL {
            assert_eq!(one.contains(t), s == t);
        }
    }
    let two = StatusSet::empty().with(JobStatus::Running).with(JobStatus::Failed);
    assert!(two.contains(JobStatus::Running));
    assert!(two.contains(JobStatus::Failed));
    assert!(!two.contains(JobStatus::Accepted));
    assert_eq!(StatusSet::empty().with(JobStatus::Accepted).with(JobStatus::Running), StatusSet::active());
}

#[test]
fn the_active_set_is_the_set_of_non_terminal_statuses() {
    let active = StatusSet::active();
    for s in ALL {
        assert_eq!(active.contains(s), !s.is_terminal());
    }
}

#[test]
fn failures_map_to_status_codes() {
    assert_eq!(JobError::NotFound.status_code(), 404);
    assert_eq!(JobError::Conflict.status_code(), 409);
    assert_eq!(JobError::InvalidTransition.status_code(), 409);
    assert_eq!(JobError::ResultsNotReady.status_code(), 409);
    assert_eq!(JobError::ValidationError.status_code(), 400);
    assert_eq!(JobError::StorageUnavailable.status_code(), 503);
}

#[test]
fn only_an_unreachable_store_is_retryable() {
    assert!(JobError::StorageUnavailable.is_retryable());
    for e in [
        JobError::NotFound,
        JobError::Conflict,
        JobError::InvalidTransition,
        JobError::ResultsNotReady,
        JobError::ValidationError,
    ] {
        assert!(!e.is_retryable());
    }
}
