//! Fetches manifests, configurations and layers from image registries.
//!
//! A fetch is a conversation: [`RegistryFetch`] says which request is to be sent next,
//! its caller sends it and tells what came back, until the blob is accepted or the fetch
//! has failed.
use vstd::prelude::*;

use crate::error::DroidError;
use crate::models::{Digest, ImageRef};
use crate::status::{is_success, status_line, status_text, succeeded};
use crate::text::{
    cat2, cat3, cat5, chars_of, find_char, find_text, first_occurrence, text_of,
};

verus! {

/// How the agent introduces itself to registries.
pub const USER_AGENT: &'static str = "droidnode/0.1.0";

/// The kinds of manifest that the agent understands.
pub const MANIFEST_TYPES: &'static str = "application/vnd.oci.image.manifest.v1+json, application/vnd.docker.distribution.manifest.v2+json";

// ---------------------------------------------------------------------------
// Authentication
// ---------------------------------------------------------------------------

/// The value of a parameter of a challenge such as
/// `Bearer realm="...",service="...",scope="..."`.
pub open spec fn challenge_param(header: Seq<char>, key: Seq<char>) -> Option<Seq<char>> {
    let search = key + "=\""@;
    match first_occurrence(header, search, 0) {
        Some(i) => {
            let rest = header.skip(i + search.len());
            match rest.index_of_first('"') {
                Some(end) => Some(rest.take(end)),
                None => None,
            }
        },
        None => None,
    }
}

/// `value`, or nothing if it is absent.
pub open spec fn or_empty(value: Option<Seq<char>>) -> Seq<char> {
    match value {
        Some(v) => v,
        None => Seq::empty(),
    }
}

/// The address at which a challenge can be exchanged for a token.
pub open spec fn token_address(challenge: Seq<char>) -> Option<Seq<char>> {
    match challenge_param(challenge, "realm"@) {
        Some(realm) => Some(
            realm + "?service="@ + or_empty(challenge_param(challenge, "service"@)) + "&scope="@
                + or_empty(challenge_param(challenge, "scope"@)),
        ),
        None => None,
    }
}

/// The value of a parameter of a challenge.
pub fn extract_challenge_param(header: &str, key: &str) -> (r: Option<String>)
    ensures
        match r {
            Some(v) => challenge_param(header@, key@) == Some(v@),
            None => challenge_param(header@, key@) is None,
        },
{
    let hs = chars_of(header);
    let total: usize = hs.len();
    let search = chars_of(cat2(key, "=\"").as_str());
    match find_text(&hs, &search, 0) {
        Some(i) => {
            let start: usize = i + search.len();
            match find_char(&hs, '"', start) {
                Some(end) => {
                    assert(hs@.subrange(start as int, end as int) =~= hs@.skip(start as int).take(
                        end - start,
                    ));
                    Some(text_of(&hs, start, end))
                },
                None => None,
            }
        },
        None => None,
    }
}

/// The address at which the challenge in a `WWW-Authenticate` header can be exchanged for
/// a token.
pub fn token_url(www_authenticate: &str) -> (r: Result<String, DroidError>)
    ensures
        match r {
            Ok(url) => token_address(www_authenticate@) == Some(url@),
            Err(e) => token_address(www_authenticate@) is None && (e matches DroidError::OciRegistry(
                m,
            ) && m@ == "missing realm in WWW-Authenticate"@),
        },
{
    let realm: String = match extract_challenge_param(www_authenticate, "realm") {
        Some(realm) => realm,
        None => {
            return Err(DroidError::OciRegistry("missing realm in WWW-Authenticate".to_owned()));
        },
    };
    let service: String = match extract_challenge_param(www_authenticate, "service") {
        Some(service) => service,
        None => String::new(),
    };
    let scope: String = match extract_challenge_param(www_authenticate, "scope") {
        Some(scope) => scope,
        None => String::new(),
    };
    let url: String = cat5(
        realm.as_str(),
        "?service=",
        service.as_str(),
        "&scope=",
        scope.as_str(),
    );
    assert(url@ =~= token_address(www_authenticate@)->0);
    Ok(url)
}

/// The token in the answer of a token service, which may call it by either name.
pub fn choose_token(token: Option<String>, access_token: Option<String>) -> (r: Result<
    String,
    DroidError,
>)
    ensures
        match (token, access_token) {
            (Some(t), _) => r == Ok::<String, DroidError>(t),
            (None, Some(t)) => r == Ok::<String, DroidError>(t),
            (None, None) => r matches Err(DroidError::OciRegistry(m)) && m@
                == "token response contained no token"@,
        },
{
    match (token, access_token) {
        (Some(t), _) => Ok(t),
        (None, Some(t)) => Ok(t),
        (None, None) => Err(
            DroidError::OciRegistry("token response contained no token".to_owned()),
        ),
    }
}

// ---------------------------------------------------------------------------
// Responses
// ---------------------------------------------------------------------------

/// What is fetched.
#[derive(Debug, Clone, Copy, PartialEq, Eq, Structural)]
pub enum Artifact {
    Manifest,
    Layer,
    Config,
}

impl Artifact {
    /// Why a fetch that was answered with the status `status` has failed, for the image
    /// `name`. A manifest that is refused before any token was sent is not there.
    pub open spec fn refusal(
        self,
        name: Seq<char>,
        with_token: bool,
        status: Seq<char>,
        e: DroidError,
    ) -> bool {
        match self {
            Artifact::Manifest => if with_token {
                e matches DroidError::OciRegistry(m) && m@ == "manifest fetch failed: "@ + status
            } else {
                e matches DroidError::ImageNotFound(m) && m@ == name
            },
            Artifact::Layer => e matches DroidError::OciRegistry(m) && m@ == "blob fetch failed: "@
                + status,
            Artifact::Config => e matches DroidError::OciRegistry(m) && m@
                == "config fetch failed: "@ + status,
        }
    }

    /// Why a fetch that was answered with the status `status` has failed.
    pub fn refuse(&self, name: &str, with_token: bool, status: &str) -> (r: DroidError)
        ensures
            self.refusal(name@, with_token, status@, r),
    {
        match self {
            Artifact::Manifest => if with_token {
                DroidError::OciRegistry(cat2("manifest fetch failed: ", status))
            } else {
                DroidError::ImageNotFound(name.to_owned())
            },
            Artifact::Layer => DroidError::OciRegistry(cat2("blob fetch failed: ", status)),
            Artifact::Config => DroidError::OciRegistry(cat2("config fetch failed: ", status)),
        }
    }
}

// ---------------------------------------------------------------------------
// Fetches
// ---------------------------------------------------------------------------

/// What is to be done next.
#[derive(Debug)]
pub enum FetchAction {
    /// Request the artifact, with these headers.
    Get { url: String, accept: Option<String>, authorization: Option<String> },
    /// Request a token.
    GetToken { url: String },
    /// Read the artifact from the response that came last.
    Accept,
    /// The fetch has failed.
    Failed(DroidError),
}

/// What came of an action.
#[derive(Debug)]
pub enum FetchEvent {
    /// A response, with its `WWW-Authenticate` header where it has one that is text.
    Response { status: u16, www_authenticate: Option<String> },
    /// The answer of a token service.
    Token { token: Option<String>, access_token: Option<String> },
    /// The request could not be sent, or its answer not be read.
    Refused(String),
}

/// What the fetch waits for.
#[derive(Debug, Clone, Copy, PartialEq, Eq, Structural)]
pub enum FetchStage {
    /// The response to a request without a token.
    First,
    /// A token.
    Token,
    /// The response to a request with a token.
    Second,
    Over,
}

/// The fetch of one artifact.
#[derive(Debug)]
pub struct RegistryFetch {
    pub artifact: Artifact,
    pub url: String,
    /// The image that the artifact belongs to, as errors name it.
    pub name: String,
    pub stage: FetchStage,
}

impl RegistryFetch {
    /// The event answers the last action.
    pub open spec fn awaits(self, event: FetchEvent) -> bool {
        match self.stage {
            FetchStage::First | FetchStage::Second => event is Response || event is Refused,
            FetchStage::Token => event is Token || event is Refused,
            FetchStage::Over => false,
        }
    }

    /// The artifact is requested.
    pub open spec fn is_request(self, authorization: Option<Seq<char>>, action: FetchAction) -> bool {
        &&& action matches FetchAction::Get { url, accept, authorization: auth }
        &&& url@ == self.url@
        &&& match accept {
            Some(types) => self.artifact == Artifact::Manifest && types@ == MANIFEST_TYPES@,
            None => self.artifact != Artifact::Manifest,
        }
        &&& match auth {
            Some(a) => authorization == Some(a@),
            None => authorization is None,
        }
    }

    /// One step: `event` leads from `self` to `post`, where `action` is to be done.
    ///
    /// A request that is answered with 401 is sent once more with a token, for which the
    /// service is asked that the answer names. Any other answer is final.
    pub open spec fn steps_to(self, event: FetchEvent, post: Self, action: FetchAction) -> bool {
        match event {
            FetchEvent::Refused(m) => {
                &&& post == (RegistryFetch { stage: FetchStage::Over, ..self })
                &&& action == FetchAction::Failed(DroidError::Http(m))
            },
            FetchEvent::Response { status, www_authenticate } => if status == 401 && self.stage
                == FetchStage::First {
                let challenge = match www_authenticate {
                    Some(h) => h@,
                    None => Seq::empty(),
                };
                match token_address(challenge) {
                    Some(address) => {
                        &&& post == (RegistryFetch { stage: FetchStage::Token, ..self })
                        &&& action matches FetchAction::GetToken { url }
                        &&& url@ == address
                    },
                    None => {
                        &&& post == (RegistryFetch { stage: FetchStage::Over, ..self })
                        &&& action matches FetchAction::Failed(DroidError::OciRegistry(m))
                        &&& m@ == "missing realm in WWW-Authenticate"@
                    },
                }
            } else if is_success(status) {
                &&& post == (RegistryFetch { stage: FetchStage::Over, ..self })
                &&& action is Accept
            } else {
                &&& post == (RegistryFetch { stage: FetchStage::Over, ..self })
                &&& action matches FetchAction::Failed(e)
                &&& self.artifact.refusal(
                    self.name@,
                    self.stage == FetchStage::Second,
                    status_line(status),
                    e,
                )
            },
            FetchEvent::Token { token, access_token } => match (token, access_token) {
                (None, None) => {
                    &&& post == (RegistryFetch { stage: FetchStage::Over, ..self })
                    &&& action matches FetchAction::Failed(DroidError::OciRegistry(m))
                    &&& m@ == "token response contained no token"@
                },
                (Some(t), _) => {
                    &&& post == (RegistryFetch { stage: FetchStage::Second, ..self })
                    &&& self.is_request(Some("Bearer "@ + t@), action)
                },
                (None, Some(t)) => {
                    &&& post == (RegistryFetch { stage: FetchStage::Second, ..self })
                    &&& self.is_request(Some("Bearer "@ + t@), action)
                },
            },
        }
    }

    fn request(&self, authorization: Option<String>) -> (action: FetchAction)
        ensures
            self.is_request(
                match authorization {
                    Some(a) => Some(a@),
                    None => None,
                },
                action,
            ),
    {
        let accept: Option<String> = match self.artifact {
            Artifact::Manifest => Some(MANIFEST_TYPES.to_owned()),
            _ => None,
        };
        FetchAction::Get { url: self.url.clone(), accept, authorization }
    }

    /// Begins to fetch `artifact` of an image.
    fn begin(artifact: Artifact, url: String, image_ref: &ImageRef) -> (r: (Self, FetchAction))
        ensures
            r.0.artifact == artifact,
            r.0.url == url,
            r.0.name@ == image_ref.repository@ + ":"@ + image_ref.reference@,
            r.0.stage == FetchStage::First,
            r.0.is_request(None, r.1),
    {
        let name: String = cat3(image_ref.repository.as_str(), ":", image_ref.reference.as_str());
        let fetch = RegistryFetch { artifact, url, name, stage: FetchStage::First };
        let action = fetch.request(None);
        (fetch, action)
    }

    /// Whether an event answers the last action.
    pub fn is_awaiting(&self, event: &FetchEvent) -> (r: bool)
        ensures
            r == self.awaits(*event),
    {
        match self.stage {
            FetchStage::First | FetchStage::Second => matches!(event, FetchEvent::Response { .. })
                || matches!(event, FetchEvent::Refused(_)),
            FetchStage::Token => matches!(event, FetchEvent::Token { .. }) || matches!(
                event,
                FetchEvent::Refused(_)
            ),
            FetchStage::Over => false,
        }
    }

    /// Takes note of what came of the last action, and says what is to be done next.
    pub fn step(&mut self, event: FetchEvent) -> (action: FetchAction)
        requires
            old(self).awaits(event),
        ensures
            old(self).steps_to(event, *final(self), action),
    {
        match event {
            FetchEvent::Refused(m) => {
                self.stage = FetchStage::Over;
                FetchAction::Failed(DroidError::Http(m))
            },
            FetchEvent::Response { status, www_authenticate } => {
                let with_token = matches!(self.stage, FetchStage::Second);
                if status == 401 && !with_token {
                    let challenge: String = match www_authenticate {
                        Some(h) => h,
                        None => String::new(),
                    };
                    match token_url(challenge.as_str()) {
                        Ok(url) => {
                            self.stage = FetchStage::Token;
                            FetchAction::GetToken { url }
                        },
                        Err(e) => {
                            self.stage = FetchStage::Over;
                            FetchAction::Failed(e)
                        },
                    }
                } else {
                    self.stage = FetchStage::Over;
                    if succeeded(status) {
                        FetchAction::Accept
                    } else {
                        let text: String = status_text(status);
                        FetchAction::Failed(
                            self.artifact.refuse(self.name.as_str(), with_token, text.as_str()),
                        )
                    }
                }
            },
            FetchEvent::Token { token, access_token } => match choose_token(token, access_token) {
                Ok(t) => {
                    self.stage = FetchStage::Second;
                    self.request(Some(cat2("Bearer ", t.as_str())))
                },
                Err(e) => {
                    self.stage = FetchStage::Over;
                    FetchAction::Failed(e)
                },
            },
        }
    }
}

/// Fetches artifacts of images.
#[derive(Debug, Clone, Copy)]
pub struct OciRegistryBrokerImpl {
    /// How every request names its sender.
    pub user_agent: &'static str,
}

impl OciRegistryBrokerImpl {
    /// Requests are sent in the name of the agent.
    pub fn new() -> (r: Self)
        ensures
            r.user_agent@ == USER_AGENT@,
    {
        OciRegistryBrokerImpl { user_agent: USER_AGENT }
    }

    /// Begins to fetch the manifest of an image.
    pub fn fetch_manifest(&self, image_ref: &ImageRef) -> (r: (RegistryFetch, FetchAction))
        ensures
            r.0.artifact == Artifact::Manifest,
            r.0.url@ == manifest_address(*image_ref),
            r.0.name@ == image_ref.repository@ + ":"@ + image_ref.reference@,
            r.0.stage == FetchStage::First,
            r.0.is_request(None, r.1),
    {
        let url: String = cat5(
            image_ref.registry_url().as_str(),
            "/v2/",
            image_ref.repository.as_str(),
            "/manifests/",
            image_ref.reference.as_str(),
        );
        RegistryFetch::begin(Artifact::Manifest, url, image_ref)
    }

    /// Begins to fetch a layer of an image.
    pub fn fetch_layer(&self, image_ref: &ImageRef, digest: &Digest) -> (r: (
        RegistryFetch,
        FetchAction,
    ))
        ensures
            r.0.artifact == Artifact::Layer,
            r.0.url@ == blob_address(*image_ref, *digest),
            r.0.name@ == image_ref.repository@ + ":"@ + image_ref.reference@,
            r.0.stage == FetchStage::First,
            r.0.is_request(None, r.1),
    {
        let url: String = blob_url(image_ref, digest);
        RegistryFetch::begin(Artifact::Layer, url, image_ref)
    }

    /// Begins to fetch the configuration of an image.
    pub fn fetch_config(&self, image_ref: &ImageRef, digest: &Digest) -> (r: (
        RegistryFetch,
        FetchAction,
    ))
        ensures
            r.0.artifact == Artifact::Config,
            r.0.url@ == blob_address(*image_ref, *digest),
            r.0.name@ == image_ref.repository@ + ":"@ + image_ref.reference@,
            r.0.stage == FetchStage::First,
            r.0.is_request(None, r.1),
    {
        let url: String = blob_url(image_ref, digest);
        RegistryFetch::begin(Artifact::Config, url, image_ref)
    }
}

/// The address of the manifest of an image.
pub open spec fn manifest_address(image_ref: ImageRef) -> Seq<char> {
    "https://"@ + image_ref.registry@ + "/v2/"@ + image_ref.repository@ + "/manifests/"@
        + image_ref.reference@
}

/// The address of a blob of an image.
pub open spec fn blob_address(image_ref: ImageRef, digest: Digest) -> Seq<char> {
    "https://"@ + image_ref.registry@ + "/v2/"@ + image_ref.repository@ + "/blobs/"@ + digest.0@
}

fn blob_url(image_ref: &ImageRef, digest: &Digest) -> (r: String)
    ensures
        r@ == blob_address(*image_ref, *digest),
{
    cat5(
        image_ref.registry_url().as_str(),
        "/v2/",
        image_ref.repository.as_str(),
        "/blobs/",
        digest.0.as_str(),
    )
}

// ---------------------------------------------------------------------------

/// A token is asked for only after an answer with 401, and never twice in one fetch.
pub proof fn law_a_token_is_asked_for_once(
    pre: RegistryFetch,
    event: FetchEvent,
    post: RegistryFetch,
    action: FetchAction,
)
    requires
        pre.awaits(event),
        pre.steps_to(event, post, action),
        action is GetToken,
    ensures
        event is Response,
        event->Response_status == 401,
        pre.stage == FetchStage::First,
        post.stage == FetchStage::Token,
{
}

/// The stages of a fetch, in their order.
pub open spec fn stage_rank(s: FetchStage) -> int {
    match s {
        FetchStage::First => 0,
        FetchStage::Token => 1,
        FetchStage::Second => 2,
        FetchStage::Over => 3,
    }
}

/// A fetch comes to an end: it goes through its stages in order, and what is fetched and
/// from where stays the same.
pub proof fn law_a_fetch_ends(
    pre: RegistryFetch,
    event: FetchEvent,
    post: RegistryFetch,
    action: FetchAction,
)
    requires
        pre.awaits(event),
        pre.steps_to(event, post, action),
    ensures
        stage_rank(pre.stage) < stage_rank(post.stage),
        action is Accept || action is Failed <==> post.stage == FetchStage::Over,
        post.url == pre.url,
        post.artifact == pre.artifact,
{
}

/// An artifact is accepted only from a response whose status says that the request was
/// granted.
pub proof fn law_only_granted_responses_are_accepted(
    pre: RegistryFetch,
    event: FetchEvent,
    post: RegistryFetch,
    action: FetchAction,
)
    requires
        pre.awaits(event),
        pre.steps_to(event, post, action),
    ensures
        action is Accept <==> (event is Response && 200 <= event->Response_status < 300),
{
}

/// The record of a fetch: from the state `states[i]`, the event `events[i]` leads to the state
/// `states[i + 1]`, where `actions[i]` is to be done.
pub open spec fn is_fetch(
    states: Seq<RegistryFetch>,
    events: Seq<FetchEvent>,
    actions: Seq<FetchAction>,
) -> bool {
    &&& states.len() == events.len() + 1
    &&& states.len() == actions.len() + 1
    &&& states[0].stage == FetchStage::First
    &&& forall|i: int|
        0 <= i < events.len() ==> {
            &&& states[i].awaits(#[trigger] events[i])
            &&& states[i].steps_to(events[i], states[i + 1], actions[i])
        }
}

/// How often the artifact is requested.
pub open spec fn requests(actions: Seq<FetchAction>) -> nat
    decreases actions.len(),
{
    if actions.len() == 0 {
        0
    } else {
        requests(actions.drop_last()) + if actions.last() is Get {
            1nat
        } else {
            0nat
        }
    }
}

proof fn lemma_requests(
    states: Seq<RegistryFetch>,
    events: Seq<FetchEvent>,
    actions: Seq<FetchAction>,
    n: int,
)
    requires
        is_fetch(states, events, actions),
        0 <= n <= events.len(),
    ensures
        requests(actions.take(n)) <= 1,
        stage_rank(states[n].stage) < 2 ==> requests(actions.take(n)) == 0,
    decreases n,
{
    if n > 0 {
        lemma_requests(states, events, actions, n - 1);
        assert(states[n - 1].awaits(events[n - 1]));
        assert(actions.take(n).drop_last() =~= actions.take(n - 1));
        assert(actions.take(n).last() == actions[n - 1]);
    }
}

/// After its first request, an artifact is requested at most once more.
pub proof fn law_a_request_is_repeated_at_most_once(
    states: Seq<RegistryFetch>,
    events: Seq<FetchEvent>,
    actions: Seq<FetchAction>,
)
    requires
        is_fetch(states, events, actions),
    ensures
        requests(actions) <= 1,
{
    lemma_requests(states, events, actions, events.len() as int);
    assert(actions.take(events.len() as int) =~= actions);
}

} // verus!
