use droidnode::brokers::oci_registry_broker::{
    choose_token, extract_challenge_param, token_url, Artifact, FetchAction, FetchEvent,
    OciRegistryBrokerImpl, RegistryFetch, MANIFEST_TYPES, USER_AGENT,
};
use droidnode::error::DroidError;
use droidnode::models::{Digest, ImageRef};

fn image() -> ImageRef {
    ImageRef::parse("ghcr.io/org/app:v1").unwrap()
}

fn response(status: u16, challenge: Option<&str>) -> FetchEvent {
    FetchEvent::Response { status, www_authenticate: challenge.map(|c| c.to_string()) }
}

fn step(fetch: &mut RegistryFetch, event: FetchEvent) -> FetchAction {
    assert!(fetch.is_awaiting(&event));
    fetch.step(event)
}

const CHALLENGE: &str = "Bearer realm=\"https://auth.x/token\",service=\"reg\",scope=\"repository:org/app:pull\"";

#[test]
fn parameters_of_challenges_are_found() {
    assert_eq!(extract_challenge_param(CHALLENGE, "realm").unwrap(), "https://auth.x/token");
    assert_eq!(extract_challenge_param(CHALLENGE, "service").unwrap(), "reg");
    assert_eq!(extract_challenge_param(CHALLENGE, "scope").unwrap(), "repository:org/app:pull");
    assert_eq!(extract_challenge_param(CHALLENGE, "error"), None);
    assert_eq!(extract_challenge_param("realm=\"open", "realm"), None);
    assert_eq!(extract_challenge_param("realm=\"\"", "realm").unwrap(), "");
    assert_eq!(extract_challenge_param("xrealm=\"1\",realm=\"2\"", "realm").unwrap(), "1");
}

#[test]
fn challenges_lead_to_tokens() {
    assert_eq!(
        token_url(CHALLENGE).unwrap(),
        "https://auth.x/token?service=reg&scope=repository:org/app:pull"
    );
    assert_eq!(token_url("Bearer realm=\"r\"").unwrap(), "r?service=&scope=");
    match token_url("Basic") {
        Err(DroidError::OciRegistry(m)) => assert_eq!(m, "missing realm in WWW-Authenticate"),
        other => panic!("{other:?}"),
    }
}

#[test]
fn tokens_have_two_names() {
    let s = |t: &str| Some(t.to_string());
    assert_eq!(choose_token(s("a"), s("b")).unwrap(), "a");
    assert_eq!(choose_token(None, s("b")).unwrap(), "b");
    match choose_token(None, None) {
        Err(DroidError::OciRegistry(m)) => assert_eq!(m, "token response contained no token"),
        other => panic!("{other:?}"),
    }
}

#[test]
fn manifests_are_requested_by_reference() {
    let (_, action) = OciRegistryBrokerImpl::new().fetch_manifest(&image());
    match action {
        FetchAction::Get { url, accept, authorization } => {
            assert_eq!(url, "https://ghcr.io/v2/org/app/manifests/v1");
            assert_eq!(accept.as_deref(), Some(MANIFEST_TYPES));
            assert_eq!(authorization, None);
        }
        other => panic!("{other:?}"),
    }
    assert_eq!(
        MANIFEST_TYPES,
        "application/vnd.oci.image.manifest.v1+json, application/vnd.docker.distribution.manifest.v2+json"
    );
    assert_eq!(USER_AGENT, "droidnode/0.1.0");
    assert_eq!(OciRegistryBrokerImpl::new().user_agent, "droidnode/0.1.0");
}

#[test]
fn blobs_are_requested_by_digest() {
    let digest = Digest::new("sha256:ab");
    let broker = OciRegistryBrokerImpl::new();
    for (_, action) in [broker.fetch_layer(&image(), &digest), broker.fetch_config(&image(), &digest)] {
        match action {
            FetchAction::Get { url, accept, authorization } => {
                assert_eq!(url, "https://ghcr.io/v2/org/app/blobs/sha256:ab");
                assert_eq!(accept, None);
                assert_eq!(authorization, None);
            }
            other => panic!("{other:?}"),
        }
    }
}

#[test]
fn granted_requests_are_accepted() {
    for status in [200u16, 204, 299] {
        let (mut fetch, _) = OciRegistryBrokerImpl::new().fetch_manifest(&image());
        assert!(matches!(step(&mut fetch, response(status, None)), FetchAction::Accept));
        assert!(!fetch.is_awaiting(&response(200, None)));
    }
}

#[test]
fn unauthorized_requests_are_sent_again_with_a_token() {
    let (mut fetch, _) = OciRegistryBrokerImpl::new().fetch_manifest(&image());
    match step(&mut fetch, response(401, Some(CHALLENGE))) {
        FetchAction::GetToken { url } => {
            assert_eq!(url, "https://auth.x/token?service=reg&scope=repository:org/app:pull")
        }
        other => panic!("{other:?}"),
    }
    let token = FetchEvent::Token { token: None, access_token: Some("t".to_string()) };
    match step(&mut fetch, token) {
        FetchAction::Get { url, accept, authorization } => {
            assert_eq!(url, "https://ghcr.io/v2/org/app/manifests/v1");
            assert_eq!(accept.as_deref(), Some(MANIFEST_TYPES));
            assert_eq!(authorization.as_deref(), Some("Bearer t"));
        }
        other => panic!("{other:?}"),
    }
    match step(&mut fetch, response(401, Some(CHALLENGE))) {
        FetchAction::Failed(DroidError::OciRegistry(m)) => {
            assert_eq!(m, "manifest fetch failed: 401 Unauthorized")
        }
        other => panic!("{other:?}"),
    }
}

#[test]
fn refused_fetches_say_what_was_fetched() {
    let broker = OciRegistryBrokerImpl::new();
    let digest = Digest::new("sha256:ab");
    match step(&mut broker.fetch_manifest(&image()).0, response(404, None)) {
        FetchAction::Failed(DroidError::ImageNotFound(m)) => assert_eq!(m, "org/app:v1"),
        other => panic!("{other:?}"),
    }
    match step(&mut broker.fetch_layer(&image(), &digest).0, response(404, None)) {
        FetchAction::Failed(DroidError::OciRegistry(m)) => {
            assert_eq!(m, "blob fetch failed: 404 Not Found")
        }
        other => panic!("{other:?}"),
    }
    match step(&mut broker.fetch_config(&image(), &digest).0, response(500, None)) {
        FetchAction::Failed(DroidError::OciRegistry(m)) => {
            assert_eq!(m, "config fetch failed: 500 Internal Server Error")
        }
        other => panic!("{other:?}"),
    }
    match step(&mut broker.fetch_layer(&image(), &digest).0, response(799, None)) {
        FetchAction::Failed(DroidError::OciRegistry(m)) => {
            assert_eq!(m, "blob fetch failed: 799 <unknown status code>")
        }
        other => panic!("{other:?}"),
    }
}

#[test]
fn refusals_follow_from_the_status_line() {
    match Artifact::Manifest.refuse("a:b", true, "500 X") {
        DroidError::OciRegistry(m) => assert_eq!(m, "manifest fetch failed: 500 X"),
        other => panic!("{other:?}"),
    }
    match Artifact::Manifest.refuse("a:b", false, "500 X") {
        DroidError::ImageNotFound(m) => assert_eq!(m, "a:b"),
        other => panic!("{other:?}"),
    }
}

#[test]
fn challenges_without_a_realm_end_the_fetch() {
    let (mut fetch, _) = OciRegistryBrokerImpl::new().fetch_manifest(&image());
    match step(&mut fetch, response(401, None)) {
        FetchAction::Failed(DroidError::OciRegistry(m)) => {
            assert_eq!(m, "missing realm in WWW-Authenticate")
        }
        other => panic!("{other:?}"),
    }
}

#[test]
fn answers_without_a_token_end_the_fetch() {
    let (mut fetch, _) = OciRegistryBrokerImpl::new().fetch_manifest(&image());
    step(&mut fetch, response(401, Some(CHALLENGE)));
    match step(&mut fetch, FetchEvent::Token { token: None, access_token: None }) {
        FetchAction::Failed(DroidError::OciRegistry(m)) => {
            assert_eq!(m, "token response contained no token")
        }
        other => panic!("{other:?}"),
    }
}

#[test]
fn requests_that_cannot_be_sent_end_the_fetch() {
    let (mut fetch, _) = OciRegistryBrokerImpl::new().fetch_manifest(&image());
    match step(&mut fetch, FetchEvent::Refused("down".to_string())) {
        FetchAction::Failed(DroidError::Http(m)) => assert_eq!(m, "down"),
        other => panic!("{other:?}"),
    }
}
