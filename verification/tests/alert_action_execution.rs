use powerhouse::alert_actions::{
    create_execution_request, evaluate_execution_eligibility, execute_alert_action,
    AlertActionAuthorization, AlertActionConfirmation, AlertActionExecutionRequest,
};

fn confirmation(
    confirmed: bool,
    authorized: bool,
    executable: bool,
) -> AlertActionConfirmation {
    AlertActionConfirmation {
        action_id: "recheck-condition".to_owned(),
        title: "Recheck condition".to_owned(),
        confirmed,
        authorized,
        executable,
        requires_privilege: false,
        message: String::new(),
    }
}

fn authorization(action_id: &str, authorized: bool) -> AlertActionAuthorization {
    AlertActionAuthorization {
        action_id: action_id.to_owned(),
        authorized,
        requires_privilege: false,
        message: String::new(),
    }
}

#[test]
fn confirmation_alone_is_not_execution_eligible() {
    let result = evaluate_execution_eligibility(&confirmation(true, false, false));
    assert!(!result.eligible);
    assert!(!result.authorized);
    assert!(!result.executable);
}

#[test]
fn eligibility_requires_all_non_privileged_gates() {
    let result = evaluate_execution_eligibility(&confirmation(true, true, true));
    assert!(result.eligible);
}

#[test]
fn privileged_confirmation_is_not_eligible() {
    let mut value = confirmation(true, true, true);
    value.requires_privilege = true;
    let result = evaluate_execution_eligibility(&value);
    assert!(!result.eligible);
}

#[test]
fn execution_request_requires_authorization() {
    let confirmation = confirmation(true, true, true);

    let result = create_execution_request(
        &confirmation,
        &authorization("recheck-condition", false),
    );

    assert!(result.is_err());
    assert_eq!(
        result.unwrap_err(),
        "execution requires explicit action authorization"
    );
}

#[test]
fn execution_request_requires_eligibility() {
    let confirmation = confirmation(true, true, false);

    let result = create_execution_request(
        &confirmation,
        &authorization("recheck-condition", true),
    );

    assert!(result.is_err());
}

#[test]
fn execution_request_rejects_mismatched_action_ids() {
    let confirmation = confirmation(true, true, true);

    let result =
        create_execution_request(&confirmation, &authorization("delete-everything", true));

    assert!(result.is_err());
    assert_eq!(
        result.unwrap_err(),
        "authorization does not match the confirmed action"
    );
}

#[test]
fn execution_request_accepts_only_allowlisted_action() {
    let confirmation = confirmation(true, true, true);
    let mut authorization = authorization("recheck-condition", true);
    authorization.action_id = "delete-everything".to_owned();

    let result = create_execution_request(&confirmation, &authorization);

    assert!(result.is_err());
    assert_eq!(
        result.unwrap_err(),
        "authorization does not match the confirmed action"
    );
}

#[test]
fn execution_request_rejects_unknown_confirmed_action() {
    let mut confirmation = confirmation(true, true, true);
    confirmation.action_id = "delete-everything".to_owned();

    let result =
        create_execution_request(&confirmation, &authorization("delete-everything", true));

    assert!(result.is_err());
    assert!(
        result
            .unwrap_err()
            .contains("action is not supported by the current execution capability set")
    );
}

#[test]
fn allowed_action_executes_without_privilege() {
    let request = AlertActionExecutionRequest {
        action_id: "recheck-condition".to_owned(),
    };

    let result = execute_alert_action(&request).expect("allowlisted action should execute");

    assert!(result.executed);
    assert_eq!(result.action_id, "recheck-condition");
}

#[test]
fn unknown_action_cannot_execute_directly() {
    let request = AlertActionExecutionRequest {
        action_id: "delete-everything".to_owned(),
    };

    let result = execute_alert_action(&request);

    assert!(result.is_err());
}

#[test]
fn a_request_that_passes_every_gate_executes() {
    let confirmation = confirmation(true, true, true);
    let request =
        create_execution_request(&confirmation, &authorization("recheck-condition", true)).unwrap();
    assert_eq!(request.action_id, "recheck-condition");
    let result = execute_alert_action(&request).unwrap();
    assert!(result.executed);
}

#[test]
fn unknown_action_error_names_the_action() {
    let request = AlertActionExecutionRequest { action_id: "delete-everything".to_owned() };
    let error = execute_alert_action(&request).unwrap_err();
    assert!(error.contains("delete-everything"));
}
