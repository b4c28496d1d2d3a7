//! What is asked of registries, and what becomes of their answers.
use vstd::prelude::*;

use crate::brokers::oci_registry_broker::{
    blob_address, challenge_param, choose_token, extract_challenge_param, is_fetch,
    manifest_address, token_address, token_url, Artifact, FetchAction, FetchEvent, FetchStage, OciRegistryBrokerImpl, RegistryFetch,
};
use crate::error::DroidError;
use crate::models::{Digest, ImageRef};
use crate::status::status_line;
use crate::text::law_the_first_occurrence_comes_first;

verus! {

/// The action requests what is at the address `url`, with a header that says who asks if
/// `authorization` is some. A manifest is asked for in the forms that the agent understands.
pub open spec fn asks_for(
    action: FetchAction,
    artifact: Artifact,
    url: Seq<char>,
    authorization: Option<Seq<char>>,
) -> bool {
    &&& action matches FetchAction::Get { url: u, accept: types, authorization: header }
    &&& u@ == url
    &&& (types is Some <==> artifact == Artifact::Manifest)
    &&& types matches Some(t) ==> t@
        == "application/vnd.oci.image.manifest.v1+json, application/vnd.docker.distribution.manifest.v2+json"@
    &&& (header is Some <==> authorization is Some)
    &&& header matches Some(h) ==> h@ == authorization->0
}

/// The action gives the fetch up for a trouble with the registry.
pub open spec fn fails_with(action: FetchAction, message: Seq<char>) -> bool {
    action matches FetchAction::Failed(DroidError::OciRegistry(m)) && m@ == message
}

/// The first request of a fetch asks for the artifact at its address, and does not say who asks.
pub proof fn law_the_first_request_has_no_token(fetch: RegistryFetch, action: FetchAction)
    requires
        fetch.is_request(None, action),
    ensures
        asks_for(action, fetch.artifact, fetch.url@, None),
{
}

/// Manifests are asked for by their tag or digest, and layers and configurations by their digest,
/// from the repository of the image at its registry.
pub proof fn law_artifacts_are_asked_of_their_repository(image_ref: ImageRef, digest: Digest)
    ensures
        manifest_address(image_ref) == "https://"@ + image_ref.registry@ + "/v2/"@
            + image_ref.repository@ + "/manifests/"@ + image_ref.reference@,
        blob_address(image_ref, digest) == "https://"@ + image_ref.registry@ + "/v2/"@
            + image_ref.repository@ + "/blobs/"@ + digest.0@,
{
}

/// When the token service has answered with a token, the artifact is requested again, from the
/// same address and with that token, whatever is fetched. An answer without one ends the fetch.
pub proof fn law_a_granted_token_is_sent(
    pre: RegistryFetch,
    post: RegistryFetch,
    action: FetchAction,
    token: Option<String>,
    access_token: Option<String>,
)
    requires
        pre.steps_to(FetchEvent::Token { token, access_token }, post, action),
    ensures
        token matches Some(t) ==> asks_for(
            action,
            pre.artifact,
            pre.url@,
            Some("Bearer "@ + t@),
        ),
        token is None ==> (access_token matches Some(t) ==> asks_for(
            action,
            pre.artifact,
            pre.url@,
            Some("Bearer "@ + t@),
        )),
        token is None && access_token is None ==> fails_with(
            action,
            "token response contained no token"@,
        ),
        token is Some || access_token is Some ==> post.stage == FetchStage::Second,
{
}

/// A request that is answered with 401 before any token was sent leads to the token service that
/// the challenge names. A challenge that names none ends the fetch.
pub proof fn law_a_challenge_leads_to_the_token_service(
    pre: RegistryFetch,
    post: RegistryFetch,
    action: FetchAction,
    www_authenticate: Option<String>,
)
    requires
        pre.stage == FetchStage::First,
        pre.steps_to(FetchEvent::Response { status: 401, www_authenticate }, post, action),
    ensures
        ({
            let challenge = match www_authenticate {
                Some(h) => h@,
                None => Seq::empty(),
            };
            let service = match challenge_param(challenge, "service"@) {
                Some(s) => s,
                None => Seq::empty(),
            };
            let scope = match challenge_param(challenge, "scope"@) {
                Some(s) => s,
                None => Seq::empty(),
            };
            match challenge_param(challenge, "realm"@) {
                Some(realm) => {
                    &&& action matches FetchAction::GetToken { url }
                    &&& url@ == realm + "?service="@ + service + "&scope="@ + scope
                    &&& post.stage == FetchStage::Token
                    &&& post.url == pre.url
                    &&& post.artifact == pre.artifact
                    &&& post.name == pre.name
                },
                None => fails_with(action, "missing realm in WWW-Authenticate"@),
            }
        }),
{
}

/// A parameter of a challenge has the value that stands between quotes behind its name, where the
/// name first stands with an equals sign and a quote behind it.
pub proof fn law_challenges_are_read(
    front: Seq<char>,
    key: Seq<char>,
    value: Seq<char>,
    rest: Seq<char>,
)
    requires
        !value.contains('"'),
        forall|j: int|
            0 <= j < front.len() ==> #[trigger] (front + (key + "=\""@) + value.push('"')
                + rest).subrange(j, j + (key + "=\""@).len()) != key + "=\""@,
    ensures
        challenge_param(front + (key + "=\""@) + value.push('"') + rest, key) == Some(value),
{
    let search = key + "=\""@;
    let header = front + search + value.push('"') + rest;
    law_the_first_occurrence_comes_first(header, search, 0);
    let at = front.len() as int;
    assert(header.subrange(at, at + search.len()) =~= search);
    let found = crate::text::first_occurrence(header, search, 0);
    assert(found == Some(at));
    let tail = header.skip(at + search.len());
    assert(tail =~= value.push('"') + rest);
    tail.index_of_first_ensures('"');
    assert(tail[value.len() as int] == '"');
    assert(tail.contains('"'));
    let end = tail.index_of_first('"')->0;
    if end < value.len() {
        assert(value[end] == '"');
    }
    assert(tail.take(value.len() as int) =~= value);
}

/// A parameter that a challenge does not name has no value.
pub proof fn law_challenges_without_a_parameter(header: Seq<char>, key: Seq<char>)
    requires
        forall|j: int|
            0 <= j && j + (key + "=\""@).len() <= header.len() ==> #[trigger] header.subrange(
                j,
                j + (key + "=\""@).len(),
            ) != key + "=\""@,
    ensures
        challenge_param(header, key) is None,
{
    law_the_first_occurrence_comes_first(header, key + "=\""@, 0);
}

/// A token is asked for at the address that the challenge names, for the service and the scope
/// that it names.
pub proof fn law_tokens_are_asked_for_by_service_and_scope(
    challenge: Seq<char>,
    realm: Seq<char>,
    service: Seq<char>,
    scope: Seq<char>,
)
    requires
        challenge_param(challenge, "realm"@) == Some(realm),
        challenge_param(challenge, "service"@) == Some(service),
        challenge_param(challenge, "scope"@) == Some(scope),
    ensures
        token_address(challenge) == Some(realm + "?service="@ + service + "&scope="@ + scope),
{
}

/// Any other answer is final: what was granted is accepted, and what was not fails. A manifest that
/// is refused before any token was sent is not there, under the name of its image, and any other
/// failure tells the status.
pub proof fn law_other_answers_are_final(
    pre: RegistryFetch,
    post: RegistryFetch,
    action: FetchAction,
    status: u16,
    www_authenticate: Option<String>,
)
    requires
        pre.awaits(FetchEvent::Response { status, www_authenticate }),
        pre.steps_to(FetchEvent::Response { status, www_authenticate }, post, action),
        status != 401 || pre.stage == FetchStage::Second,
    ensures
        post.stage == FetchStage::Over,
        200 <= status < 300 ==> action is Accept,
        !(200 <= status < 300) ==> match pre.artifact {
            Artifact::Manifest => if pre.stage == FetchStage::First {
                action matches FetchAction::Failed(DroidError::ImageNotFound(m)) && m@ == pre.name@
            } else {
                fails_with(action, "manifest fetch failed: "@ + status_line(status))
            },
            Artifact::Layer => fails_with(action, "blob fetch failed: "@ + status_line(status)),
            Artifact::Config => fails_with(action, "config fetch failed: "@ + status_line(status)),
        },
{
}

/// A request that is not answered ends the fetch for that reason.
pub proof fn law_unanswered_requests_end_a_fetch(
    pre: RegistryFetch,
    post: RegistryFetch,
    action: FetchAction,
    reason: String,
)
    requires
        pre.steps_to(FetchEvent::Refused(reason), post, action),
    ensures
        action == FetchAction::Failed(DroidError::Http(reason)),
        post.stage == FetchStage::Over,
{
}

/// In every fetch that is answered with 401 and then given a token, the artifact is requested
/// again from where it was requested first, with the token, and what that is answered is final.
pub proof fn law_a_fetch_is_repeated_with_its_token(
    states: Seq<RegistryFetch>,
    events: Seq<FetchEvent>,
    actions: Seq<FetchAction>,
    token: String,
)
    requires
        is_fetch(states, events, actions),
        events.len() >= 2,
        events[0] is Response,
        events[0]->Response_status == 401,
        events[1] is Token,
        events[1]->token == Some(token) || (events[1]->token is None && events[1]->access_token
            == Some(token)),
    ensures
        actions[0] is GetToken,
        asks_for(actions[1], states[0].artifact, states[0].url@, Some("Bearer "@ + token@)),
        events.len() > 2 ==> actions[2] is Accept || actions[2] is Failed,
{
    assert(states[0].awaits(events[0]));
    assert(states[1].awaits(events[1]));
    law_a_granted_token_is_sent(
        states[1],
        states[2],
        actions[1],
        events[1]->token,
        events[1]->access_token,
    );
    if events.len() > 2 {
        assert(states[2].awaits(events[2]));
    }
}

/// The fetch of a manifest begins with a request for it by its tag or digest, and without a
/// token. The image is named by its repository and its tag or digest.
pub proof fn law_manifests_are_fetched_by_reference(
    broker: &OciRegistryBrokerImpl,
    image_ref: &ImageRef,
    r: (RegistryFetch, FetchAction),
)
    requires
        call_ensures(OciRegistryBrokerImpl::fetch_manifest, (broker, image_ref), r),
    ensures
        r.0.stage == FetchStage::First,
        r.0.artifact == Artifact::Manifest,
        r.0.name@ == image_ref.repository@ + ":"@ + image_ref.reference@,
        asks_for(r.1, Artifact::Manifest, r.0.url@, None),
        r.0.url@ == "https://"@ + image_ref.registry@ + "/v2/"@ + image_ref.repository@
            + "/manifests/"@ + image_ref.reference@,
{
}

/// The fetch of a layer begins with a request for it by its digest, and without a token.
pub proof fn law_layers_are_fetched_by_digest(
    broker: &OciRegistryBrokerImpl,
    image_ref: &ImageRef,
    digest: &Digest,
    r: (RegistryFetch, FetchAction),
)
    requires
        call_ensures(OciRegistryBrokerImpl::fetch_layer, (broker, image_ref, digest), r),
    ensures
        r.0.stage == FetchStage::First,
        r.0.artifact == Artifact::Layer,
        r.0.name@ == image_ref.repository@ + ":"@ + image_ref.reference@,
        asks_for(r.1, Artifact::Layer, r.0.url@, None),
        r.0.url@ == "https://"@ + image_ref.registry@ + "/v2/"@ + image_ref.repository@
            + "/blobs/"@ + digest.0@,
{
}

/// The fetch of a configuration begins with a request for it by its digest, and without a token.
pub proof fn law_configurations_are_fetched_by_digest(
    broker: &OciRegistryBrokerImpl,
    image_ref: &ImageRef,
    digest: &Digest,
    r: (RegistryFetch, FetchAction),
)
    requires
        call_ensures(OciRegistryBrokerImpl::fetch_config, (broker, image_ref, digest), r),
    ensures
        r.0.stage == FetchStage::First,
        r.0.artifact == Artifact::Config,
        r.0.name@ == image_ref.repository@ + ":"@ + image_ref.reference@,
        asks_for(r.1, Artifact::Config, r.0.url@, None),
        r.0.url@ == "https://"@ + image_ref.registry@ + "/v2/"@ + image_ref.repository@
            + "/blobs/"@ + digest.0@,
{
}

/// The token of an answer is the one that it calls so, or else the one that it calls an access
/// token.
pub proof fn law_tokens_have_two_names(
    token: Option<String>,
    access_token: Option<String>,
    r: Result<String, DroidError>,
)
    requires
        call_ensures(choose_token, (token, access_token), r),
    ensures
        r is Ok <==> token is Some || access_token is Some,
        token is Some ==> r->Ok_0 == token->0,
        token is None && access_token is Some ==> r->Ok_0 == access_token->0,
{
}

/// A fetch takes the answer to what it asked last, and each step of it is one that the laws speak
/// of. Requests are sent in the name of the agent.
pub proof fn law_a_fetch_takes_the_answer_to_its_request(
    fetch: &RegistryFetch,
    asked: &FetchEvent,
    r: bool,
    pre: &mut RegistryFetch,
    event: FetchEvent,
    action: FetchAction,
    broker: OciRegistryBrokerImpl,
)
    requires
        call_ensures(RegistryFetch::is_awaiting, (fetch, asked), r),
        call_ensures(RegistryFetch::step, (pre, event), action),
        call_ensures(OciRegistryBrokerImpl::new, (), broker),
    ensures
        r == match fetch.stage {
            FetchStage::First | FetchStage::Second => asked is Response || asked is Refused,
            FetchStage::Token => asked is Token || asked is Refused,
            FetchStage::Over => false,
        },
        old(pre).steps_to(event, *final(pre), action),
        broker.user_agent@ == "droidnode/0.1.0"@,
{
}

/// The address of the token service is the one that the challenge names, and without a realm there
/// is none.
pub proof fn law_token_addresses_come_from_challenges(
    challenge: &str,
    url: Result<String, DroidError>,
    key: &str,
    value: Option<String>,
)
    requires
        call_ensures(token_url, (challenge,), url),
        call_ensures(extract_challenge_param, (challenge, key), value),
    ensures
        url is Ok <==> challenge_param(challenge@, "realm"@) is Some,
        url matches Ok(u) ==> token_address(challenge@) == Some(u@),
        value is Some <==> challenge_param(challenge@, key@) is Some,
        value matches Some(v) ==> challenge_param(challenge@, key@) == Some(v@),
{
}

} // verus!
