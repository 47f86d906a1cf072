use dts_developer_challenge::TodoStatus;

fn all_statuses() -> Vec<TodoStatus> {
    vec![
        TodoStatus::NotStarted,
        TodoStatus::InProgress,
        TodoStatus::Complete,
        TodoStatus::Cancelled,
        TodoStatus::Blocked,
    ]
}

#[test]
fn status_names() {
    assert_eq!(TodoStatus::NotStarted.as_str(), "NotStarted");
    assert_eq!(TodoStatus::InProgress.as_str(), "InProgress");
    assert_eq!(TodoStatus::Complete.as_str(), "Complete");
    assert_eq!(TodoStatus::Cancelled.as_str(), "Cancelled");
    assert_eq!(TodoStatus::Blocked.as_str(), "Blocked");
}

#[test]
fn status_round_trip_each() {
    for s in all_statuses() {
        assert_eq!(TodoStatus::from_name(s.as_str()), Some(s));
    }
}

#[test]
fn status_unknown_name_refused() {
    assert_eq!(TodoStatus::from_name("Done"), None);
    assert_eq!(TodoStatus::from_name(""), None);
    assert_eq!(TodoStatus::from_name("notstarted"), None);
    assert_eq!(TodoStatus::from_name("Blocked "), None);
}

#[test]
fn status_default_is_not_started() {
    assert_eq!(TodoStatus::default(), TodoStatus::NotStarted);
}
