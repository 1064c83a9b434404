use powerhouse::alert_actions::{
    evaluate_action_eligibility, AlertActionConfirmation, AlertActionPreview,
};

fn preview() -> AlertActionPreview {
    AlertActionPreview {
        id: "recheck-condition".to_owned(),
        title: "Recheck condition".to_owned(),
        reason: "Verify persistence".to_owned(),
        scope: "Current observation".to_owned(),
        safety: "Preview only".to_owned(),
        requires_privilege: false,
        executable: false,
    }
}

fn confirmation(confirmed: bool, authorized: bool, executable: bool) -> AlertActionConfirmation {
    AlertActionConfirmation {
        action_id: "recheck-condition".to_owned(),
        title: "Recheck condition".to_owned(),
        confirmed,
        authorized,
        executable,
        requires_privilege: false,
        message: String::new(),
    }
}

#[test]
fn current_confirmation_is_not_execution_eligible() {
    let result = evaluate_action_eligibility(&preview(), &confirmation(true, false, false));
    assert!(!result.eligible);
    assert!(!result.authorized);
    assert!(!result.executable);
}

#[test]
fn mismatched_action_is_rejected() {
    let mut confirmation = confirmation(true, true, true);
    confirmation.action_id = "unknown-action".to_owned();
    let result = evaluate_action_eligibility(&preview(), &confirmation);
    assert!(!result.eligible);
}

#[test]
fn privilege_is_never_eligible() {
    let mut preview = preview();
    preview.requires_privilege = true;
    let confirmation = confirmation(true, true, true);
    let result = evaluate_action_eligibility(&preview, &confirmation);
    assert!(!result.eligible);
    assert!(result.requires_privilege);
}

#[test]
fn eligibility_does_not_execute() {
    let confirmation = confirmation(true, true, true);
    let result = evaluate_action_eligibility(&preview(), &confirmation);
    assert!(result.eligible);
    assert!(result.message.contains("separate boundary"));
}

#[test]
fn privileged_confirmation_is_never_eligible() {
    let mut confirmation = confirmation(true, true, true);
    confirmation.requires_privilege = true;
    let result = evaluate_action_eligibility(&preview(), &confirmation);
    assert!(!result.eligible);
    assert!(result.requires_privilege);
    assert_eq!(
        result.message,
        "Privileged actions are not eligible under the Step 65 execution boundary."
    );
}
