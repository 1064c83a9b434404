use powerhouse::alert_actions::{authorize_alert_action, AlertActionConfirmation};

fn confirmation(confirmed: bool) -> AlertActionConfirmation {
    AlertActionConfirmation {
        action_id: "recheck-condition".to_owned(),
        title: "Recheck condition".to_owned(),
        confirmed,
        authorized: false,
        executable: false,
        requires_privilege: false,
        message: String::new(),
    }
}

#[test]
fn matching_confirmed_action_can_be_authorized_without_execution() {
    let result = authorize_alert_action(&confirmation(true), "recheck-condition")
        .expect("matching confirmed action");
    assert!(result.authorized);
    assert!(!result.requires_privilege);
}

#[test]
fn authorization_requires_matching_action_id() {
    let result = authorize_alert_action(&confirmation(true), "delete-everything");
    assert!(result.is_err());
}

#[test]
fn authorization_requires_confirmation() {
    let result = authorize_alert_action(&confirmation(false), "recheck-condition");
    assert!(result.is_err());
}

#[test]
fn privileged_action_cannot_be_authorized() {
    let mut value = confirmation(true);
    value.requires_privilege = true;
    let result = authorize_alert_action(&value, "recheck-condition");
    assert!(result.is_err());
}

#[test]
fn authorization_names_the_confirmed_action() {
    let result = authorize_alert_action(&confirmation(true), "recheck-condition").unwrap();
    assert_eq!(result.action_id, "recheck-condition");
    assert!(result.authorized);
}
