use simse_core::remote_auth::{AuthClient, AuthState, RemoteError};

#[test]
fn new_client_is_not_authenticated() {
    let client = AuthClient::new();
    assert!(!client.is_authenticated());
    assert!(client.state().is_none());
}

#[test]
fn require_auth_fails_when_not_authenticated() {
    let client = AuthClient::new();
    let result = client.require_auth();
    assert!(result.is_err());
    match result.unwrap_err() {
        RemoteError::NotAuthenticated => {}
        _ => panic!("expected NotAuthenticated"),
    }
}

#[test]
fn logout_clears_state() {
    let client = AuthClient::new().signed_in(AuthState {
        user_id: "u1".into(),
        session_token: "session_abc".into(),
        team_id: None,
        role: None,
        api_url: "https://api.example.com".into(),
    });
    assert!(client.is_authenticated());
    assert_eq!(client.require_auth().unwrap().user_id, "u1");
    let client = client.logout();
    assert!(!client.is_authenticated());
}
