use camera_man::client_authorization::{
    authorize_client, ClientAuthorization, ClientDenialReason, ClientIdentity,
};

fn identity(signing_id: Option<&str>, pid: Option<i32>) -> ClientIdentity {
    ClientIdentity {
        client_id: String::from("6F9619FF-8B86-D011-B42D-00CF4FC964FF"),
        signing_id: signing_id.map(String::from),
        pid,
    }
}

#[test]
fn signed_consumer_is_allowed() {
    let identity = identity(Some("com.apple.quicktimeplayerx"), Some(4242));
    assert_eq!(authorize_client(&identity), ClientAuthorization::Allow);
}

#[test]
fn missing_signing_identity_is_denied() {
    let identity = identity(None, Some(4242));
    assert_eq!(
        authorize_client(&identity),
        ClientAuthorization::Deny(ClientDenialReason::UnidentifiedSigning)
    );
}

#[test]
fn blank_signing_identity_is_denied() {
    let identity = identity(Some("  "), Some(4242));
    assert_eq!(
        authorize_client(&identity),
        ClientAuthorization::Deny(ClientDenialReason::UnidentifiedSigning)
    );
}

#[test]
fn pid_is_audit_data_not_policy_input() {
    let signed_without_pid = identity(Some("com.example.consumer"), None);
    assert_eq!(
        authorize_client(&signed_without_pid),
        ClientAuthorization::Allow
    );

    let unsigned_with_pid = identity(None, Some(1));
    assert_eq!(
        authorize_client(&unsigned_with_pid),
        ClientAuthorization::Deny(ClientDenialReason::UnidentifiedSigning)
    );
}

#[test]
fn audit_line_reports_unknown_fields_explicitly() {
    let unidentified = identity(None, None);
    let line = unidentified.audit_line();
    assert!(line.contains("6F9619FF-8B86-D011-B42D-00CF4FC964FF"));
    assert!(line.contains("signing id unknown"));
    assert!(line.contains("pid unknown"));

    let identified = identity(Some("com.example.consumer"), Some(4242));
    let line = identified.audit_line();
    assert!(line.contains("signing id com.example.consumer"));
    assert!(line.contains("pid 4242"));
}

#[test]
fn denial_reason_has_stable_wording() {
    let reason = ClientDenialReason::UnidentifiedSigning;
    assert!(reason.reason().contains("signing"));
    assert_eq!(reason.reason().to_string(), reason.reason());
}
