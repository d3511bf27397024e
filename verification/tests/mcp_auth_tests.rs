use agent_core::mcp_auth::{
    has_caller_supplied_credential, is_oauth_challenge, unauthorized_route, UnauthorizedRoute,
};

fn headers(name: &str, value: &str) -> Vec<(String, String)> {
    vec![(name.to_string(), value.to_string())]
}

#[test]
fn configured_credentials_require_nonempty_recognized_headers() {
    for name in ["Authorization", "AUTHORIZATION", "X-API-Key", "Api-Key"] {
        assert!(has_caller_supplied_credential(&headers(name, "synthetic-token")));
        for empty in ["", " \t "] {
            assert!(!has_caller_supplied_credential(&headers(name, empty)));
        }
    }
    assert!(!has_caller_supplied_credential(&headers("X-Request-Id", "not-a-credential")));
    assert!(!has_caller_supplied_credential(&[]));
}

#[test]
fn oauth_challenge_matches_parameter_names_not_quoted_descriptions() {
    for challenge in [
        r#"Bearer resource_metadata="https://mcp.example.test/.well-known/oauth-protected-resource""#,
        r#"Bearer realm="example", RESOURCE_METADATA = "https://mcp.example.test/metadata""#,
        r#"Basic realm="legacy", Bearer resource_metadata="https://mcp.example.test/metadata""#,
    ] {
        assert!(is_oauth_challenge(challenge.as_bytes()), "{challenge}");
    }
    for challenge in [
        "",
        "Bearer",
        r#"Bearer error="invalid_token""#,
        r#"Bearer error_description="missing resource_metadata=value""#,
        r#"Bearer error_description="escaped \"resource_metadata=value\"""#,
        r#"Bearer error_description="unterminated resource_metadata=value"#,
        r#"Bearer other_resource_metadata="https://mcp.example.test/metadata""#,
    ] {
        assert!(!is_oauth_challenge(challenge.as_bytes()), "{challenge}");
    }
}

#[test]
fn opaque_challenge_bytes_are_read_as_bytes() {
    assert!(is_oauth_challenge(
        b"Bearer realm=\"caf\xe9\", resource_metadata=\"https://mcp.example.test/metadata\""
    ));
    assert!(is_oauth_challenge(
        r#"Bearer realm="café", resource_metadata="https://mcp.example.test/metadata""#.as_bytes()
    ));
    assert!(!is_oauth_challenge(b"Bearer error_description=\"caf\xe9 missing resource_metadata=value\""));
    assert!(!is_oauth_challenge(b"Bearer resource_metadata"));
}

#[test]
fn genuine_oauth_wins_over_configured_credentials() {
    let creds = headers("Authorization", "stale-synthetic-token");
    let challenges = vec![
        br#"Basic realm="legacy""#.to_vec(),
        br#"Bearer resource_metadata="https://mcp.example.test/metadata""#.to_vec(),
    ];
    assert_eq!(unauthorized_route(&challenges, &creds), UnauthorizedRoute::OAuth);
    let quoted = vec![br#"Bearer error_description="missing resource_metadata=value""#.to_vec()];
    assert_eq!(unauthorized_route(&quoted, &creds), UnauthorizedRoute::CredentialsRejected);
    assert_eq!(unauthorized_route(&[], &creds), UnauthorizedRoute::CredentialsRejected);
    assert_eq!(unauthorized_route(&[], &[]), UnauthorizedRoute::OAuth);
}

#[test]
fn bare_401_with_configured_credentials_reports_rejection_without_oauth() {
    for challenges in [vec![], vec![br#"Bearer error="invalid_token""#.to_vec()]] {
        for name in ["Authorization", "X-API-Key", "Api-Key"] {
            let creds = headers(name, "synthetic-secret-value");
            assert_eq!(unauthorized_route(&challenges, &creds), UnauthorizedRoute::CredentialsRejected);
        }
    }
}

#[test]
fn all_challenges_are_preserved_and_genuine_oauth_still_wins() {
    let challenges = vec![
        br#"Basic realm="legacy""#.to_vec(),
        br#"Bearer resource_metadata="https://mcp.example.test/metadata""#.to_vec(),
    ];
    let creds = headers("Authorization", "stale-synthetic-token");
    assert_eq!(unauthorized_route(&challenges, &creds), UnauthorizedRoute::OAuth);
}

#[test]
fn opaque_auth_challenge_bytes_preserve_oauth_discrimination() {
    let cases: &[(&[u8], bool)] = &[
        (r#"Bearer realm="café", resource_metadata="https://mcp.example.test/metadata""#.as_bytes(), true),
        (b"Bearer realm=\"caf\xe9\", resource_metadata=\"https://mcp.example.test/metadata\"", true),
        (b"Bearer error_description=\"caf\xe9 missing resource_metadata=value\"", false),
    ];
    let creds = headers("Authorization", "synthetic-secret-value");
    for &(raw_challenge, expects_oauth) in cases {
        let route = unauthorized_route(&[raw_challenge.to_vec()], &creds);
        assert_eq!(route == UnauthorizedRoute::OAuth, expects_oauth);
        assert_eq!(route == UnauthorizedRoute::CredentialsRejected, !expects_oauth);
    }
}

#[test]
fn bare_401_without_credentials_preserves_oauth_behavior() {
    assert_eq!(unauthorized_route(&[], &[]), UnauthorizedRoute::OAuth);
}

#[test]
fn quoted_resource_metadata_does_not_start_oauth_after_credential_rejection() {
    let challenges = vec![br#"Bearer error_description="missing resource_metadata=value""#.to_vec()];
    let creds = headers("Authorization", "synthetic-token");
    assert_eq!(unauthorized_route(&challenges, &creds), UnauthorizedRoute::CredentialsRejected);
}
