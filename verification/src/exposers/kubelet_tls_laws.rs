//! What holds of every setup of the kubelet endpoint.
use vstd::prelude::*;

use crate::config::{data_directory, set_or_below, Config, Environment};
use crate::error::DroidError;
use crate::exposers::kubelet_tls::{
    base64_text, certificate_pem, is_ascii_text, is_authority, is_issued, key_bytes, may_answer,
    names_trouble, pem_text, perform, SigningKey, TlsAction, TlsEvent, TlsSetup, TlsStage,
};
use crate::paths::path_joined;
use crate::text::views;

verus! {

/// The stages, in an order that every setup goes through them in.
pub open spec fn stage_rank(s: TlsStage) -> int {
    match s {
        TlsStage::MakingDir => 0,
        TlsStage::LookingForKey => 1,
        TlsStage::ReadingFile => 2,
        TlsStage::ReadingKey => 3,
        TlsStage::MakingKey => 4,
        TlsStage::SigningAuthority => 5,
        TlsStage::LookingForKeyAgain => 6,
        TlsStage::WritingKey => 7,
        TlsStage::LookingForCertificate => 8,
        TlsStage::WritingCertificate => 9,
        TlsStage::CheckingNames => 10,
        TlsStage::MakingServerKey => 11,
        TlsStage::SigningCertificate => 12,
        TlsStage::Configuring => 13,
        TlsStage::Over => 14,
    }
}

/// The action is the one that the setup waits for, and what the setup has gathered so far
/// fits together: the certificate of the authority is one for its key.
pub open spec fn is_sound(setup: TlsSetup, action: TlsAction) -> bool {
    let rank = stage_rank(setup.stage);
    &&& 5 <= rank < 14 ==> setup.authority_key.wf()
    &&& 6 <= rank < 14 ==> is_authority(setup.authority@, setup.authority_key.der@, None)
    &&& 12 <= rank < 14 ==> setup.server_key.wf()
    &&& match setup.stage {
        TlsStage::MakingDir => action is MakeDir,
        TlsStage::LookingForKey | TlsStage::LookingForKeyAgain => action matches TlsAction::LookFor {
            path,
        } && path@ == setup.key_path@,
        TlsStage::LookingForCertificate => action matches TlsAction::LookFor { path } && path@
            == setup.certificate_path@,
        TlsStage::ReadingFile => action matches TlsAction::Read { path } && path@ == setup.key_path@,
        TlsStage::ReadingKey => action is ReadKey,
        TlsStage::MakingKey | TlsStage::MakingServerKey => action is MakeKey,
        TlsStage::SigningAuthority => action matches TlsAction::SignAuthority { key, max_path }
            && key@ == setup.authority_key.der@ && max_path is None,
        TlsStage::WritingKey => action matches TlsAction::Write { path, text } && path@
            == setup.key_path@ && text@ == setup.authority_key.pem@,
        TlsStage::WritingCertificate => action matches TlsAction::Write { path, text } && path@
            == setup.certificate_path@ && text@ == pem_text(setup.authority@),
        TlsStage::CheckingNames => action matches TlsAction::CheckNames { names } && views(names@)
            == setup.names(),
        TlsStage::SigningCertificate => action matches TlsAction::SignCertificate {
            names,
            key,
            authority,
        } && views(names@) == setup.names() && key@ == setup.server_key.der@ && authority@
            == setup.authority_key.der@,
        TlsStage::Configuring => action matches TlsAction::Configure { certificate, private_key }
            && private_key@ == setup.server_key.der@ && is_issued(
            certificate@,
            setup.names(),
            setup.server_key.der@,
            setup.authority_key.der@,
        ),
        TlsStage::Over => action is Finished || action is Failed,
    }
}

/// Doing the action led to the event: where the action is to compute, to one that it can
/// lead to.
pub open spec fn is_answer(action: TlsAction, event: TlsEvent) -> bool {
    match action {
        TlsAction::ReadKey { .. }
        | TlsAction::MakeKey
        | TlsAction::SignAuthority { .. }
        | TlsAction::CheckNames { .. }
        | TlsAction::SignCertificate { .. } => may_answer(action, event),
        _ => true,
    }
}

/// Every step keeps together what belongs together.
pub proof fn law_steps_keep_the_setup_sound(
    pre: TlsSetup,
    done: TlsAction,
    event: TlsEvent,
    post: TlsSetup,
    action: TlsAction,
)
    requires
        is_sound(pre, done),
        is_answer(done, event),
        pre.awaits(event),
        pre.steps_to(event, post, action),
    ensures
        is_sound(post, action),
{
}

/// A setup comes to an end.
pub proof fn law_a_setup_ends(pre: TlsSetup, event: TlsEvent, post: TlsSetup, action: TlsAction)
    requires
        pre.awaits(event),
        pre.steps_to(event, post, action),
    ensures
        stage_rank(pre.stage) < stage_rank(post.stage) <= 14,
        action is Finished || action is Failed <==> post.stage == TlsStage::Over,
{
}

/// A file is written only after it was looked for and not found, so that what a first run
/// has kept is never written over.
pub proof fn law_kept_files_are_not_written_over(
    pre: TlsSetup,
    done: TlsAction,
    event: TlsEvent,
    post: TlsSetup,
    action: TlsAction,
)
    requires
        is_sound(pre, done),
        pre.awaits(event),
        pre.steps_to(event, post, action),
        action is Write,
    ensures
        event == TlsEvent::Found(false),
        done is LookFor,
        done->LookFor_path@ == action->Write_path@,
{
}

/// The key that is kept is the key of the authority, and the certificate that is kept is the
/// authority's own.
pub proof fn law_what_is_kept_is_the_authority(setup: TlsSetup, action: TlsAction)
    requires
        is_sound(setup, action),
        action is Write,
    ensures
        setup.authority_key.wf(),
        setup.stage == TlsStage::WritingKey ==> action->Write_text@ == setup.authority_key.pem@,
        setup.stage == TlsStage::WritingCertificate ==> action->Write_text@ == pem_text(
            setup.authority@,
        ) && is_authority(setup.authority@, setup.authority_key.der@, None),
{
}

/// A later start that reads the key that was kept has the same authority: reading the text
/// gives the key that it was written for.
pub proof fn law_the_authority_survives_restarts(
    first: TlsSetup,
    kept: TlsAction,
    pem: String,
    read: SigningKey,
)
    requires
        is_sound(first, kept),
        first.stage == TlsStage::WritingKey,
        kept matches TlsAction::Write { path, text } && text@ == pem@,
        may_answer(TlsAction::ReadKey { pem }, TlsEvent::Key(read)),
    ensures
        read.der@ == first.authority_key.der@,
{
}

/// The endpoint is served with a certificate for the node's name and address, issued by the
/// authority for the key that it is served with.
pub proof fn law_the_endpoint_is_served_with_an_issued_certificate(
    setup: TlsSetup,
    action: TlsAction,
)
    requires
        is_sound(setup, action),
        action is Configure,
    ensures
        is_issued(
            action->Configure_certificate@,
            setup.names(),
            setup.server_key.der@,
            setup.authority_key.der@,
        ),
        setup.server_key.wf(),
        action->Configure_private_key@ == setup.server_key.der@,
        is_authority(setup.authority@, setup.authority_key.der@, None),
{
}

/// Setups start sound.
pub proof fn law_setups_start_sound(setup: TlsSetup, action: TlsAction)
    requires
        setup.stage == TlsStage::MakingDir,
        action is MakeDir,
    ensures
        is_sound(setup, action),
{
}

/// The authority is kept in the directory that the agent keeps its other files in: in one
/// environment, the key and the certificate stand where proot, the layers and the root file
/// systems stand unless they have places of their own.
pub proof fn law_the_authority_is_kept_with_the_rest(
    env: Environment,
    setup: TlsSetup,
    config: Config,
)
    requires
        setup.keeps_files_in(data_directory(env.data_dir, env.home, env.user_profile)),
        config.is_for(env),
    ensures
        exists|dir: Seq<char>|
            {
                &&& #[trigger] setup.keeps_files_in(dir)
                &&& config.proot_path@ == set_or_below(env.proot_path, dir, "proot"@)
                &&& config.layers_root@ == set_or_below(env.layers_dir, dir, "layers"@)
                &&& config.rootfs_base@ == set_or_below(env.rootfs_dir, dir, "rootfs"@)
            },
{
    assert(setup.keeps_files_in(env.base_dir()));
}

/// Looks for a file.
pub open spec fn looks_for(action: TlsAction, path: String) -> bool {
    action matches TlsAction::LookFor { path: p } && p@ == path@
}

/// Writes a text to a file.
pub open spec fn writes(action: TlsAction, path: String, text: Seq<char>) -> bool {
    action matches TlsAction::Write { path: p, text: t } && p@ == path@ && t@ == text
}

/// The names are those that the node is known by: `droidnode` and its address.
pub open spec fn are_node_names(names: Seq<String>, local_ip: String) -> bool {
    &&& names.len() == 2
    &&& names[0]@ == "droidnode"@
    &&& names[1]@ == local_ip@
}

/// A setup that finds the key of an authority goes on with that key: the file is read, and what it
/// holds is taken for the key. Only where there is no such file is a key made.
pub proof fn law_a_kept_authority_is_used(
    pre: TlsSetup,
    event: TlsEvent,
    post: TlsSetup,
    action: TlsAction,
)
    requires
        pre.awaits(event),
        pre.steps_to(event, post, action),
    ensures
        pre.stage == TlsStage::LookingForKey ==> {
            &&& event == TlsEvent::Found(true) ==> post.stage == TlsStage::ReadingFile && (
            action matches TlsAction::Read { path } && path@ == pre.key_path@)
            &&& event == TlsEvent::Found(false) ==> post.stage == TlsStage::MakingKey && action
                is MakeKey
        },
        pre.stage == TlsStage::ReadingFile ==> (event matches TlsEvent::Text(pem) ==> post.stage
            == TlsStage::ReadingKey && action == (TlsAction::ReadKey { pem })),
        pre.stage == TlsStage::ReadingKey || pre.stage == TlsStage::MakingKey ==> (
        event matches TlsEvent::Key(key) ==> {
            &&& post.authority_key == key
            &&& post.stage == TlsStage::SigningAuthority
            &&& action matches TlsAction::SignAuthority { key: k, max_path }
            &&& k@ == key.der@
            &&& max_path is None
        }),
        post.authority_key != pre.authority_key ==> pre.stage == TlsStage::ReadingKey || pre.stage
            == TlsStage::MakingKey,
{
}

/// Once the authority has its certificate, its key is written if its file is not there, and then
/// its certificate if that file is not there. What is there is left as it is.
pub proof fn law_the_authority_is_kept(
    pre: TlsSetup,
    event: TlsEvent,
    post: TlsSetup,
    action: TlsAction,
)
    requires
        pre.awaits(event),
        pre.steps_to(event, post, action),
    ensures
        pre.stage == TlsStage::MakingDir ==> looks_for(action, pre.key_path) && post.stage
            == TlsStage::LookingForKey,
        pre.stage == TlsStage::SigningAuthority ==> (event matches TlsEvent::Certificate(der) ==> {
            &&& post.authority == der
            &&& post.stage == TlsStage::LookingForKeyAgain
            &&& looks_for(action, pre.key_path)
        }),
        pre.stage == TlsStage::LookingForKeyAgain ==> {
            &&& event == TlsEvent::Found(false) ==> post.stage == TlsStage::WritingKey && writes(
                action,
                pre.key_path,
                pre.authority_key.pem@,
            )
            &&& event == TlsEvent::Found(true) ==> post.stage == TlsStage::LookingForCertificate
                && looks_for(action, pre.certificate_path)
        },
        pre.stage == TlsStage::WritingKey && event is Done ==> post.stage
            == TlsStage::LookingForCertificate && looks_for(action, pre.certificate_path),
        pre.stage == TlsStage::LookingForCertificate && event == TlsEvent::Found(false)
            ==> post.stage == TlsStage::WritingCertificate && writes(
            action,
            pre.certificate_path,
            "-----BEGIN CERTIFICATE-----\n"@ + base64_text(pre.authority@)
                + "\n-----END CERTIFICATE-----\n"@,
        ),
        post.authority != pre.authority ==> pre.stage == TlsStage::SigningAuthority,
        post.key_path == pre.key_path,
        post.certificate_path == pre.certificate_path,
        post.local_ip == pre.local_ip,
{
}

/// The serving certificate is for the node by its name and its address, is made for a new key and
/// signed by the authority, and the endpoint is set up once it is served with that certificate
/// and that key.
pub proof fn law_the_endpoint_is_set_up_with_a_new_key(
    pre: TlsSetup,
    event: TlsEvent,
    post: TlsSetup,
    action: TlsAction,
)
    requires
        pre.awaits(event),
        pre.steps_to(event, post, action),
    ensures
        (pre.stage == TlsStage::LookingForCertificate && event == TlsEvent::Found(true)) || (
        pre.stage == TlsStage::WritingCertificate && event is Done) ==> {
            &&& post.stage == TlsStage::CheckingNames
            &&& action matches TlsAction::CheckNames { names }
            &&& are_node_names(names@, pre.local_ip)
        },
        pre.stage == TlsStage::CheckingNames && event is Done ==> post.stage
            == TlsStage::MakingServerKey && action is MakeKey,
        pre.stage == TlsStage::MakingServerKey ==> (event matches TlsEvent::Key(key) ==> {
            &&& post.server_key == key
            &&& post.stage == TlsStage::SigningCertificate
            &&& action matches TlsAction::SignCertificate { names, key: k, authority }
            &&& are_node_names(names@, pre.local_ip)
            &&& k@ == key.der@
            &&& authority@ == pre.authority_key.der@
        }),
        pre.stage == TlsStage::SigningCertificate ==> (event matches TlsEvent::Certificate(der)
            ==> {
            &&& post.stage == TlsStage::Configuring
            &&& action matches TlsAction::Configure { certificate, private_key }
            &&& certificate@ == der@
            &&& private_key@ == pre.server_key.der@
        }),
        pre.stage == TlsStage::Configuring && event is Done ==> action is Finished,
        action is Finished ==> pre.stage == TlsStage::Configuring && event is Done,
        post.server_key != pre.server_key ==> pre.stage == TlsStage::MakingServerKey,
{
    if let TlsAction::CheckNames { names } = action {
        assert(views(names@).len() == names@.len());
        assert(views(names@)[0] == names@[0]@);
        assert(views(names@)[1] == names@[1]@);
    }
    if let TlsAction::SignCertificate { names, .. } = action {
        assert(views(names@).len() == names@.len());
        assert(views(names@)[0] == names@[0]@);
        assert(views(names@)[1] == names@[1]@);
    }
}

/// What cannot be done ends the setup, and the error tells what it was and why.
pub proof fn law_trouble_ends_a_setup(
    pre: TlsSetup,
    reason: String,
    post: TlsSetup,
    action: TlsAction,
)
    requires
        pre.awaits(TlsEvent::Refused(reason)),
        pre.steps_to(TlsEvent::Refused(reason), post, action),
    ensures
        post.stage == TlsStage::Over,
        action matches TlsAction::Failed(DroidError::Config(m)) && m@ == (match pre.stage {
            TlsStage::ReadingFile => "CA key read: "@,
            TlsStage::ReadingKey => "CA key parse: "@,
            TlsStage::MakingKey => "CA key gen: "@,
            TlsStage::SigningAuthority => "CA self-sign: "@,
            TlsStage::WritingKey => "CA key write: "@,
            TlsStage::WritingCertificate => "CA cert write: "@,
            TlsStage::CheckingNames => "cert params: "@,
            TlsStage::MakingServerKey => "server key gen: "@,
            TlsStage::SigningCertificate => "sign: "@,
            _ => "tls: "@,
        }) + reason@,
{
}

/// A setup begins by making the directory that is set for the files of the agent, or else
/// `.droidnode` in the home directory, or else `.droidnode` in `/tmp`, and keeps the authority
/// there.
pub proof fn law_a_setup_begins_in_the_data_directory(
    data_dir: Option<String>,
    home: &Option<String>,
    user_profile: &Option<String>,
    local_ip: &str,
    r: (TlsSetup, TlsAction),
)
    requires
        call_ensures(TlsSetup::begin, (data_dir, home, user_profile, local_ip), r),
    ensures
        ({
            let dir = match (data_dir, *home, *user_profile) {
                (Some(d), _, _) => d@,
                (None, Some(h), _) => path_joined(h@, ".droidnode"@),
                (None, None, Some(u)) => path_joined(u@, ".droidnode"@),
                (None, None, None) => path_joined("/tmp"@, ".droidnode"@),
            };
            &&& r.1 matches TlsAction::MakeDir { path }
            &&& path@ == dir
            &&& r.0.key_path@ == path_joined(dir, "kubelet-ca.key"@)
            &&& r.0.certificate_path@ == path_joined(dir, "kubelet-ca.crt"@)
            &&& r.0.local_ip@ == local_ip@
            &&& r.0.stage == TlsStage::MakingDir
        }),
{
}

/// A certificate is written as the base64 form of its bytes between two lines that say what it is.
pub proof fn law_certificates_are_written_as_pem(der: &Vec<u8>, r: String)
    requires
        call_ensures(certificate_pem, (der,), r),
    ensures
        r@ == "-----BEGIN CERTIFICATE-----\n"@ + base64_text(der@)
            + "\n-----END CERTIFICATE-----\n"@,
{
}

/// What is to be computed is answered with a key for the text, or a new key, or a certificate for
/// just what was asked, or a refusal. Names are accepted just when all of them are ASCII.
pub proof fn law_what_is_computed_answers_what_was_asked(action: &TlsAction, r: Option<TlsEvent>)
    requires
        call_ensures(perform, (action,), r),
    ensures
        match action {
            TlsAction::ReadKey { pem } => r matches Some(event) && match event {
                TlsEvent::Key(key) => key_bytes(pem@) == Some(key.der@) && key_bytes(key.pem@)
                    == Some(key.der@),
                TlsEvent::Refused(_) => true,
                _ => false,
            },
            TlsAction::MakeKey => r matches Some(event) && match event {
                TlsEvent::Key(key) => key_bytes(key.pem@) == Some(key.der@),
                TlsEvent::Refused(_) => true,
                _ => false,
            },
            TlsAction::SignAuthority { key, max_path } => r matches Some(event) && match event {
                TlsEvent::Certificate(der) => is_authority(der@, key@, *max_path),
                TlsEvent::Refused(_) => true,
                _ => false,
            },
            TlsAction::CheckNames { names } => r matches Some(event) && match event {
                TlsEvent::Done => names_trouble(views(names@)) is None,
                TlsEvent::Refused(m) => names_trouble(views(names@)) == Some(m@),
                _ => false,
            },
            TlsAction::SignCertificate { names, key, authority } => r matches Some(event)
                && match event {
                TlsEvent::Certificate(der) => is_issued(der@, views(names@), key@, authority@),
                TlsEvent::Refused(_) => true,
                _ => false,
            },
            _ => r is None,
        },
{
}

/// Names are accepted just when every character of each of them is ASCII.
pub proof fn law_names_have_to_be_ascii(names: Seq<Seq<char>>)
    ensures
        names_trouble(names) is None <==> forall|i: int, j: int|
            0 <= i < names.len() && 0 <= j < names[i].len() ==> (#[trigger] names[i][j]) as u32
                <= 127,
    decreases names.len(),
{
    if names.len() > 0 {
        let rest = names.skip(1);
        law_names_have_to_be_ascii(rest);
        assert forall|i: int| 0 <= i < rest.len() implies rest[i] == names[i + 1] by {}
        if names_trouble(names) is None {
            assert forall|i: int, j: int| 0 <= i < names.len() && 0 <= j < names[i].len() implies (
            #[trigger] names[i][j]) as u32 <= 127 by {
                if i > 0 {
                    assert(rest[i - 1][j] as u32 <= 127);
                }
            }
        } else if forall|i: int, j: int|
            0 <= i < names.len() && 0 <= j < names[i].len() ==> (#[trigger] names[i][j]) as u32
                <= 127 {
            assert(is_ascii_text(names[0])) by {
                assert forall|j: int| 0 <= j < names[0].len() implies (
                #[trigger] names[0][j]) as u32 <= 127 by {}
            }
            assert forall|i: int, j: int| 0 <= i < rest.len() && 0 <= j < rest[i].len() implies (
            #[trigger] rest[i][j]) as u32 <= 127 by {
                assert(names[i + 1][j] as u32 <= 127);
            }
        }
    }
}

/// A setup takes the answer to what it asked last, and each step of it is one that the laws speak
/// of. Only what may fail can be refused.
pub proof fn law_a_setup_takes_the_answer_to_its_question(
    setup: &TlsSetup,
    asked: &TlsEvent,
    r: bool,
    pre: &mut TlsSetup,
    event: TlsEvent,
    action: TlsAction,
)
    requires
        call_ensures(TlsSetup::is_awaiting, (setup, asked), r),
        call_ensures(TlsSetup::step, (pre, event), action),
        asked matches TlsEvent::Certificate(der) ==> 4 * ((der@.len() + 2) / 3) <= isize::MAX,
    ensures
        r == match setup.stage {
            TlsStage::MakingDir => asked is Done,
            TlsStage::LookingForKey
            | TlsStage::LookingForKeyAgain
            | TlsStage::LookingForCertificate => asked is Found,
            TlsStage::ReadingFile => asked is Text || asked is Refused,
            TlsStage::ReadingKey
            | TlsStage::MakingKey
            | TlsStage::MakingServerKey => asked is Key || asked is Refused,
            TlsStage::SigningAuthority
            | TlsStage::SigningCertificate => asked is Certificate || asked is Refused,
            TlsStage::WritingKey
            | TlsStage::WritingCertificate
            | TlsStage::CheckingNames
            | TlsStage::Configuring => asked is Done || asked is Refused,
            TlsStage::Over => false,
        },
        old(pre).steps_to(event, *final(pre), action),
{
}

} // verus!
