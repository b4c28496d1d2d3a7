//! How the kubelet endpoint comes by its certificate.
//!
//! A certificate authority is made when the agent runs for the first time, and kept in
//! the data directory. Every start signs a new serving certificate with it, so that who
//! trusts the authority once trusts every certificate to come.
//!
//! [`TlsSetup`] says what is to be done next. [`perform`] does what is to be computed; what
//! is to be done to files is left to the caller.
use vstd::prelude::*;

use crate::config::{data_dir_or_home, data_directory};
use crate::error::DroidError;
use crate::paths::{path_join, path_joined};
use crate::text::{cat2, cat3, views};

verus! {

// ---------------------------------------------------------------------------
// Keys and certificates
// ---------------------------------------------------------------------------

/// The private key, in PKCS#8 form, that a PEM text holds, if it holds one of a kind that
/// certificates can be signed with.
pub uninterp spec fn key_bytes(pem: Seq<char>) -> Option<Seq<u8>>;

/// `der` is a certificate in the name of the authority with the key `key`, signed with that
/// key, which allows chains of at most `max_path` certificates below it. Keys are in PKCS#8
/// form.
pub uninterp spec fn is_authority(der: Seq<u8>, key: Seq<u8>, max_path: Option<u8>) -> bool;

/// `der` is a certificate for the key `key` and the names `names`, signed with the key
/// `authority` in the name of the authority with that key. Keys are in PKCS#8 form.
pub uninterp spec fn is_issued(
    der: Seq<u8>,
    names: Seq<Seq<char>>,
    key: Seq<u8>,
    authority: Seq<u8>,
) -> bool;

/// The character that stands for six bits.
pub open spec fn base64_digit(n: int) -> char {
    if n < 26 {
        ('A' as int + n) as char
    } else if n < 52 {
        ('a' as int + n - 26) as char
    } else if n < 62 {
        ('0' as int + n - 52) as char
    } else if n == 62 {
        '+'
    } else {
        '/'
    }
}

/// The base64 form of `bytes`: four characters for every three bytes, in the standard
/// alphabet and with padding.
pub open spec fn base64_text(bytes: Seq<u8>) -> Seq<char>
    decreases bytes.len(),
{
    if bytes.len() == 0 {
        Seq::empty()
    } else {
        let a = bytes[0] as int;
        let b = if bytes.len() > 1 {
            bytes[1] as int
        } else {
            0
        };
        let c = if bytes.len() > 2 {
            bytes[2] as int
        } else {
            0
        };
        let third = if bytes.len() > 1 {
            base64_digit(b % 16 * 4 + c / 64)
        } else {
            '='
        };
        let fourth = if bytes.len() > 2 {
            base64_digit(c % 64)
        } else {
            '='
        };
        let rest = if bytes.len() > 3 {
            base64_text(bytes.skip(3))
        } else {
            Seq::empty()
        };
        seq![base64_digit(a / 4), base64_digit(a % 4 * 16 + b / 16), third, fourth] + rest
    }
}

/// The length of the base64 form of `n` bytes.
pub open spec fn base64_len(n: nat) -> nat {
    (4 * ((n + 2) / 3)) as nat
}

/// A private key, in PKCS#8 form and as the PEM text that the agent writes for it.
#[derive(Debug)]
pub struct SigningKey {
    pub pem: String,
    pub der: Vec<u8>,
}

impl SigningKey {
    /// Both forms are of the same key.
    pub open spec fn wf(self) -> bool {
        key_bytes(self.pem@) == Some(self.der@)
    }
}

/// Calls `rcgen::KeyPair::from_pem`, `serialize_pem` and `serialize_der`. Claims that the key
/// that is read is a function of the text, and that reading the text that is written for it
/// gives the same key. Nothing is claimed of when a key is refused, nor of the reason: besides
/// the text, that depends on the random numbers of the system. Nor is it said how the written
/// text breaks its lines, which depends on the system too.
#[verifier::external_body]
fn read_key(pem: &str) -> (r: Result<(String, Vec<u8>), String>)
    ensures
        r matches Ok(key) ==> key_bytes(pem@) == Some(key.1@) && key_bytes(key.0@) == Some(key.1@),
{
    match rcgen::KeyPair::from_pem(pem) {
        Ok(key) => Ok((key.serialize_pem(), key.serialize_der())),
        Err(e) => Err(e.to_string()),
    }
}

/// Calls `rcgen::KeyPair::generate`, `serialize_pem` and `serialize_der`. Claims that reading
/// the PEM text gives the PKCS#8 form. Which key is made is left to chance.
#[verifier::external_body]
fn generate_key() -> (r: Result<(String, Vec<u8>), String>)
    ensures
        r matches Ok(key) ==> key_bytes(key.0@) == Some(key.1@),
{
    match rcgen::KeyPair::generate() {
        Ok(key) => Ok((key.serialize_pem(), key.serialize_der())),
        Err(e) => Err(e.to_string()),
    }
}

/// Calls `rcgen::CertificateParams::self_signed` on the default parameters of an authority,
/// with the key that `rcgen::KeyPair` reads from its PKCS#8 form. Claims that the result is a certificate of that authority, in DER form. Its signature is
/// left to chance, and so is whether there is one.
#[verifier::external_body]
fn sign_authority(key: &Vec<u8>, max_path: Option<u8>) -> (r: Result<Vec<u8>, String>)
    ensures
        r matches Ok(der) ==> is_authority(der@, key@, max_path),
{
    let key = rcgen::KeyPair::try_from(key.as_slice()).map_err(|e| e.to_string())?;
    let mut params = rcgen::CertificateParams::default();
    params.is_ca = rcgen::IsCa::Ca(match max_path {
        Some(n) => rcgen::BasicConstraints::Constrained(n),
        None => rcgen::BasicConstraints::Unconstrained,
    });
    let cert = params.self_signed(&key).map_err(|e| e.to_string())?;
    Ok(cert.der().to_vec())
}

/// The text is all ASCII.
pub open spec fn is_ascii_text(s: Seq<char>) -> bool {
    forall|i: int| 0 <= i < s.len() ==> (#[trigger] s[i]) as u32 <= 127
}

/// Why a certificate cannot have the names: the first that is not ASCII.
pub open spec fn names_trouble(names: Seq<Seq<char>>) -> Option<Seq<char>>
    decreases names.len(),
{
    if names.len() == 0 {
        None
    } else if is_ascii_text(names[0]) {
        names_trouble(names.skip(1))
    } else {
        Some("Invalid IA5String: '"@ + names[0] + "'"@)
    }
}

/// Calls `rcgen::CertificateParams::new`. Claims that names are accepted where all of them
/// are ASCII, and that otherwise the first that is not is named in the reason.
#[verifier::external_body]
fn check_names(names: Vec<String>) -> (r: Result<(), String>)
    ensures
        match r {
            Ok(_) => names_trouble(views(names@)) is None,
            Err(m) => names_trouble(views(names@)) == Some(m@),
        },
{
    match rcgen::CertificateParams::new(names) {
        Ok(_) => Ok(()),
        Err(e) => Err(e.to_string()),
    }
}

/// Calls `rcgen::CertificateParams::signed_by` on the parameters of `CertificateParams::new`,
/// with the default parameters of an authority as the issuer, of which its name counts, and
/// with the keys that `rcgen::KeyPair` reads from their PKCS#8 forms. Claims that the result is a certificate for the names and the key, in DER form, issued by
/// that authority. Its signature is left to chance, and so is whether there is one.
#[verifier::external_body]
fn sign_certificate(names: Vec<String>, key: &Vec<u8>, authority: &Vec<u8>) -> (r: Result<
    Vec<u8>,
    String,
>)
    ensures
        r matches Ok(der) ==> is_issued(der@, views(names@), key@, authority@),
{
    let key = rcgen::KeyPair::try_from(key.as_slice()).map_err(|e| e.to_string())?;
    let authority_key = rcgen::KeyPair::try_from(authority.as_slice()).map_err(|e| e.to_string())?;
    let authority = rcgen::CertificateParams::default()
        .self_signed(&authority_key)
        .map_err(|e| e.to_string())?;
    let params = rcgen::CertificateParams::new(names).map_err(|e| e.to_string())?;
    let cert = params.signed_by(&key, &authority, &authority_key).map_err(|e| e.to_string())?;
    Ok(cert.der().to_vec())
}

/// Calls `base64::engine::general_purpose::STANDARD.encode`. Claims that the result is the
/// base64 form of the bytes, where its length is one that a string can have.
#[verifier::external_body]
fn encode_base64(bytes: &Vec<u8>) -> (r: String)
    requires
        base64_len(bytes@.len()) <= isize::MAX,
    ensures
        r@ == base64_text(bytes@),
{
    base64::Engine::encode(&base64::engine::general_purpose::STANDARD, bytes)
}

/// A certificate as PEM text.
pub open spec fn pem_text(der: Seq<u8>) -> Seq<char> {
    "-----BEGIN CERTIFICATE-----\n"@ + base64_text(der) + "\n-----END CERTIFICATE-----\n"@
}

/// A certificate as PEM text.
pub fn certificate_pem(der: &Vec<u8>) -> (r: String)
    requires
        base64_len(der@.len()) <= isize::MAX,
    ensures
        r@ == pem_text(der@),
{
    cat3(
        "-----BEGIN CERTIFICATE-----\n",
        encode_base64(der).as_str(),
        "\n-----END CERTIFICATE-----\n",
    )
}

// ---------------------------------------------------------------------------
// The setup
// ---------------------------------------------------------------------------

/// The name by which every serving certificate knows the node, besides its address.
pub const SERVER_NAME: &'static str = "droidnode";

/// What is to be done next.
#[derive(Debug)]
pub enum TlsAction {
    /// Make a directory and those above it, if that can be done.
    MakeDir { path: String },
    /// Find out whether a file is there.
    LookFor { path: String },
    /// Read a file.
    Read { path: String },
    /// Write a file.
    Write { path: String, text: String },
    /// Read a private key.
    ReadKey { pem: String },
    /// Make a private key.
    MakeKey,
    /// Make the certificate of the authority.
    SignAuthority { key: Vec<u8>, max_path: Option<u8> },
    /// Find out whether a certificate can have these names.
    CheckNames { names: Vec<String> },
    /// Make the serving certificate.
    SignCertificate { names: Vec<String>, key: Vec<u8>, authority: Vec<u8> },
    /// Serve with this certificate and this key.
    Configure { certificate: Vec<u8>, private_key: Vec<u8> },
    /// The endpoint is set up.
    Finished,
    /// It cannot be set up.
    Failed(DroidError),
}

/// What came of an action.
#[derive(Debug)]
pub enum TlsEvent {
    /// It was done, or did not have to succeed.
    Done,
    /// Whether the file is there.
    Found(bool),
    /// What the file holds.
    Text(String),
    /// The key.
    Key(SigningKey),
    /// The certificate.
    Certificate(Vec<u8>),
    /// It could not be done.
    Refused(String),
}

/// What the setup waits for.
#[derive(Debug, Clone, Copy, PartialEq, Eq, Structural)]
pub enum TlsStage {
    MakingDir,
    LookingForKey,
    ReadingFile,
    ReadingKey,
    MakingKey,
    SigningAuthority,
    LookingForKeyAgain,
    WritingKey,
    LookingForCertificate,
    WritingCertificate,
    CheckingNames,
    MakingServerKey,
    SigningCertificate,
    Configuring,
    Over,
}

impl TlsStage {
    /// What the message starts with where the action of a stage cannot be done, and whether
    /// the setup fails then.
    pub open spec fn trouble(self) -> Option<Seq<char>> {
        match self {
            TlsStage::ReadingFile => Some("CA key read: "@),
            TlsStage::ReadingKey => Some("CA key parse: "@),
            TlsStage::MakingKey => Some("CA key gen: "@),
            TlsStage::SigningAuthority => Some("CA self-sign: "@),
            TlsStage::WritingKey => Some("CA key write: "@),
            TlsStage::WritingCertificate => Some("CA cert write: "@),
            TlsStage::CheckingNames => Some("cert params: "@),
            TlsStage::MakingServerKey => Some("server key gen: "@),
            TlsStage::SigningCertificate => Some("sign: "@),
            TlsStage::Configuring => Some("tls: "@),
            _ => None,
        }
    }

    fn trouble_text(&self) -> (r: &'static str)
        ensures
            self.trouble() is Some ==> self.trouble() == Some(r@),
    {
        match self {
            TlsStage::ReadingFile => "CA key read: ",
            TlsStage::ReadingKey => "CA key parse: ",
            TlsStage::MakingKey => "CA key gen: ",
            TlsStage::SigningAuthority => "CA self-sign: ",
            TlsStage::WritingKey => "CA key write: ",
            TlsStage::WritingCertificate => "CA cert write: ",
            TlsStage::CheckingNames => "cert params: ",
            TlsStage::MakingServerKey => "server key gen: ",
            TlsStage::SigningCertificate => "sign: ",
            _ => "tls: ",
        }
    }
}

/// The setup of the kubelet endpoint.
#[derive(Debug)]
pub struct TlsSetup {
    pub certificate_path: String,
    pub key_path: String,
    pub local_ip: String,
    /// The key of the authority, once there is one.
    pub authority_key: SigningKey,
    /// The certificate of the authority, once there is one.
    pub authority: Vec<u8>,
    /// The key of the serving certificate, once there is one.
    pub server_key: SigningKey,
    pub stage: TlsStage,
}

impl TlsSetup {
    /// The authority is kept in the directory `dir`.
    pub open spec fn keeps_files_in(self, dir: Seq<char>) -> bool {
        &&& self.certificate_path@ == path_joined(dir, "kubelet-ca.crt"@)
        &&& self.key_path@ == path_joined(dir, "kubelet-ca.key"@)
    }

    /// The names of the serving certificate.
    pub open spec fn names(self) -> Seq<Seq<char>> {
        seq![SERVER_NAME@, self.local_ip@]
    }

    /// The event answers the last action.
    pub open spec fn awaits(self, event: TlsEvent) -> bool {
        match event {
            TlsEvent::Refused(_) => self.stage.trouble() is Some,
            TlsEvent::Found(_) => self.stage == TlsStage::LookingForKey || self.stage
                == TlsStage::LookingForKeyAgain || self.stage == TlsStage::LookingForCertificate,
            TlsEvent::Text(_) => self.stage == TlsStage::ReadingFile,
            TlsEvent::Key(_) => self.stage == TlsStage::ReadingKey || self.stage
                == TlsStage::MakingKey || self.stage == TlsStage::MakingServerKey,
            TlsEvent::Certificate(der) => {
                &&& self.stage == TlsStage::SigningAuthority || self.stage
                    == TlsStage::SigningCertificate
                &&& base64_len(der@.len()) <= isize::MAX
            },
            TlsEvent::Done => self.stage == TlsStage::MakingDir || self.stage
                == TlsStage::WritingKey || self.stage == TlsStage::WritingCertificate || self.stage
                == TlsStage::CheckingNames || self.stage == TlsStage::Configuring,
        }
    }

    /// What holds between two steps.
    pub open spec fn wf(self) -> bool {
        base64_len(self.authority@.len()) <= isize::MAX
    }

    /// Everything but the stage is the same.
    pub open spec fn moves_to(self, stage: TlsStage, post: Self) -> bool {
        post == (TlsSetup { stage, ..self })
    }

    /// One step: `event` leads from `self` to `post`, where `action` is to be done.
    pub open spec fn steps_to(self, event: TlsEvent, post: Self, action: TlsAction) -> bool {
        match event {
            TlsEvent::Refused(m) => {
                &&& self.moves_to(TlsStage::Over, post)
                &&& action matches TlsAction::Failed(DroidError::Config(text))
                &&& text@ == self.stage.trouble()->0 + m@
            },
            TlsEvent::Found(found) => match self.stage {
                TlsStage::LookingForKey => if found {
                    &&& self.moves_to(TlsStage::ReadingFile, post)
                    &&& action matches TlsAction::Read { path } && path@ == self.key_path@
                } else {
                    &&& self.moves_to(TlsStage::MakingKey, post)
                    &&& action is MakeKey
                },
                TlsStage::LookingForKeyAgain => if found {
                    &&& self.moves_to(TlsStage::LookingForCertificate, post)
                    &&& action matches TlsAction::LookFor { path } && path@
                        == self.certificate_path@
                } else {
                    &&& self.moves_to(TlsStage::WritingKey, post)
                    &&& action matches TlsAction::Write { path, text } && path@ == self.key_path@
                        && text@ == self.authority_key.pem@
                },
                _ => if found {
                    &&& self.moves_to(TlsStage::CheckingNames, post)
                    &&& action matches TlsAction::CheckNames { names } && views(names@)
                        == self.names()
                } else {
                    &&& self.moves_to(TlsStage::WritingCertificate, post)
                    &&& action matches TlsAction::Write { path, text } && path@
                        == self.certificate_path@ && text@ == pem_text(self.authority@)
                },
            },
            TlsEvent::Text(pem) => {
                &&& self.moves_to(TlsStage::ReadingKey, post)
                &&& action matches TlsAction::ReadKey { pem: p } && p == pem
            },
            TlsEvent::Key(key) => if self.stage == TlsStage::MakingServerKey {
                &&& post == (TlsSetup {
                    server_key: key,
                    stage: TlsStage::SigningCertificate,
                    ..self
                })
                &&& action matches TlsAction::SignCertificate { names, key: k, authority }
                    && views(names@) == self.names() && k@ == key.der@ && authority@
                    == self.authority_key.der@
            } else {
                &&& post == (TlsSetup {
                    authority_key: key,
                    stage: TlsStage::SigningAuthority,
                    ..self
                })
                &&& action matches TlsAction::SignAuthority { key: k, max_path } && k@ == key.der@
                    && max_path is None
            },
            TlsEvent::Certificate(der) => if self.stage == TlsStage::SigningCertificate {
                &&& self.moves_to(TlsStage::Configuring, post)
                &&& action matches TlsAction::Configure { certificate, private_key }
                    && certificate == der && private_key@ == self.server_key.der@
            } else {
                &&& post == (TlsSetup {
                    authority: der,
                    stage: TlsStage::LookingForKeyAgain,
                    ..self
                })
                &&& action matches TlsAction::LookFor { path } && path@ == self.key_path@
            },
            TlsEvent::Done => match self.stage {
                TlsStage::MakingDir => {
                    &&& self.moves_to(TlsStage::LookingForKey, post)
                    &&& action matches TlsAction::LookFor { path } && path@ == self.key_path@
                },
                TlsStage::WritingKey => {
                    &&& self.moves_to(TlsStage::LookingForCertificate, post)
                    &&& action matches TlsAction::LookFor { path } && path@
                        == self.certificate_path@
                },
                TlsStage::WritingCertificate => {
                    &&& self.moves_to(TlsStage::CheckingNames, post)
                    &&& action matches TlsAction::CheckNames { names } && views(names@)
                        == self.names()
                },
                TlsStage::CheckingNames => {
                    &&& self.moves_to(TlsStage::MakingServerKey, post)
                    &&& action is MakeKey
                },
                _ => {
                    &&& self.moves_to(TlsStage::Over, post)
                    &&& action is Finished
                },
            },
        }
    }

    /// Begins to set up the endpoint of a node with the address `local_ip`, from the data
    /// directory, `HOME` and `USERPROFILE` as the environment sets them.
    pub fn begin(
        data_dir: Option<String>,
        home: &Option<String>,
        user_profile: &Option<String>,
        local_ip: &str,
    ) -> (r: (Self, TlsAction))
        ensures
            r.1 matches TlsAction::MakeDir { path } && path@ == data_directory(
                data_dir,
                *home,
                *user_profile,
            ),
            r.0.keeps_files_in(data_directory(data_dir, *home, *user_profile)),
            r.0.local_ip@ == local_ip@,
            r.0.stage == TlsStage::MakingDir,
            r.0.wf(),
    {
        let dir: String = data_dir_or_home(data_dir, home, user_profile);
        let setup = TlsSetup {
            certificate_path: path_join(dir.as_str(), "kubelet-ca.crt"),
            key_path: path_join(dir.as_str(), "kubelet-ca.key"),
            local_ip: local_ip.to_owned(),
            authority_key: SigningKey { pem: String::new(), der: Vec::new() },
            authority: Vec::new(),
            server_key: SigningKey { pem: String::new(), der: Vec::new() },
            stage: TlsStage::MakingDir,
        };
        (setup, TlsAction::MakeDir { path: dir })
    }

    /// Whether an event answers the last action.
    pub fn is_awaiting(&self, event: &TlsEvent) -> (r: bool)
        ensures
            r == self.awaits(*event),
    {
        match event {
            TlsEvent::Refused(_) => match self.stage {
                TlsStage::ReadingFile
                | TlsStage::ReadingKey
                | TlsStage::MakingKey
                | TlsStage::SigningAuthority
                | TlsStage::WritingKey
                | TlsStage::WritingCertificate
                | TlsStage::CheckingNames
                | TlsStage::MakingServerKey
                | TlsStage::SigningCertificate
                | TlsStage::Configuring => true,
                _ => false,
            },
            TlsEvent::Found(_) => self.stage == TlsStage::LookingForKey || self.stage
                == TlsStage::LookingForKeyAgain || self.stage == TlsStage::LookingForCertificate,
            TlsEvent::Text(_) => self.stage == TlsStage::ReadingFile,
            TlsEvent::Key(_) => self.stage == TlsStage::ReadingKey || self.stage
                == TlsStage::MakingKey || self.stage == TlsStage::MakingServerKey,
            TlsEvent::Certificate(der) => {
                let groups: usize = der.len() / 3;
                let rest: usize = if der.len() % 3 == 0 {
                    0
                } else {
                    1
                };
                let total: usize = groups + rest;
                (self.stage == TlsStage::SigningAuthority || self.stage
                    == TlsStage::SigningCertificate) && total <= isize::MAX as usize / 4
            },
            TlsEvent::Done => self.stage == TlsStage::MakingDir || self.stage
                == TlsStage::WritingKey || self.stage == TlsStage::WritingCertificate || self.stage
                == TlsStage::CheckingNames || self.stage == TlsStage::Configuring,
        }
    }

    fn check_names_action(&self) -> (action: TlsAction)
        ensures
            action matches TlsAction::CheckNames { names } && views(names@) == self.names(),
    {
        TlsAction::CheckNames { names: self.server_names() }
    }

    fn server_names(&self) -> (names: Vec<String>)
        ensures
            views(names@) == self.names(),
    {
        let mut names: Vec<String> = Vec::new();
        names.push(SERVER_NAME.to_owned());
        names.push(self.local_ip.clone());
        assert(views(names@) =~= self.names());
        names
    }

    /// Takes note of what came of the last action, and says what is to be done next.
    pub fn step(&mut self, event: TlsEvent) -> (action: TlsAction)
        requires
            old(self).wf(),
            old(self).awaits(event),
        ensures
            final(self).wf(),
            old(self).steps_to(event, *final(self), action),
    {
        match event {
            TlsEvent::Refused(m) => {
                let text: String = cat2(self.stage.trouble_text(), m.as_str());
                self.stage = TlsStage::Over;
                TlsAction::Failed(DroidError::Config(text))
            },
            TlsEvent::Found(found) => match self.stage {
                TlsStage::LookingForKey => if found {
                    self.stage = TlsStage::ReadingFile;
                    TlsAction::Read { path: self.key_path.clone() }
                } else {
                    self.stage = TlsStage::MakingKey;
                    TlsAction::MakeKey
                },
                TlsStage::LookingForKeyAgain => if found {
                    self.stage = TlsStage::LookingForCertificate;
                    TlsAction::LookFor { path: self.certificate_path.clone() }
                } else {
                    self.stage = TlsStage::WritingKey;
                    TlsAction::Write {
                        path: self.key_path.clone(),
                        text: self.authority_key.pem.clone(),
                    }
                },
                _ => if found {
                    self.stage = TlsStage::CheckingNames;
                    self.check_names_action()
                } else {
                    self.stage = TlsStage::WritingCertificate;
                    TlsAction::Write {
                        path: self.certificate_path.clone(),
                        text: certificate_pem(&self.authority),
                    }
                },
            },
            TlsEvent::Text(pem) => {
                self.stage = TlsStage::ReadingKey;
                TlsAction::ReadKey { pem }
            },
            TlsEvent::Key(key) => {
                let der: Vec<u8> = key.der.clone();
                assert(der@ =~= key.der@);
                if self.stage == TlsStage::MakingServerKey {
                    self.server_key = key;
                    self.stage = TlsStage::SigningCertificate;
                    let authority: Vec<u8> = self.authority_key.der.clone();
                    assert(authority@ =~= self.authority_key.der@);
                    TlsAction::SignCertificate { names: self.server_names(), key: der, authority }
                } else {
                    self.authority_key = key;
                    self.stage = TlsStage::SigningAuthority;
                    TlsAction::SignAuthority { key: der, max_path: None }
                }
            },
            TlsEvent::Certificate(der) => if self.stage == TlsStage::SigningCertificate {
                self.stage = TlsStage::Configuring;
                let private_key: Vec<u8> = self.server_key.der.clone();
                assert(private_key@ =~= self.server_key.der@);
                TlsAction::Configure { certificate: der, private_key }
            } else {
                self.authority = der;
                self.stage = TlsStage::LookingForKeyAgain;
                TlsAction::LookFor { path: self.key_path.clone() }
            },
            TlsEvent::Done => match self.stage {
                TlsStage::MakingDir => {
                    self.stage = TlsStage::LookingForKey;
                    TlsAction::LookFor { path: self.key_path.clone() }
                },
                TlsStage::WritingKey => {
                    self.stage = TlsStage::LookingForCertificate;
                    TlsAction::LookFor { path: self.certificate_path.clone() }
                },
                TlsStage::WritingCertificate => {
                    self.stage = TlsStage::CheckingNames;
                    self.check_names_action()
                },
                TlsStage::CheckingNames => {
                    self.stage = TlsStage::MakingServerKey;
                    TlsAction::MakeKey
                },
                _ => {
                    self.stage = TlsStage::Over;
                    TlsAction::Finished
                },
            },
        }
    }
}

/// The event is one that doing the action can lead to, where the action is to compute.
pub open spec fn may_answer(action: TlsAction, event: TlsEvent) -> bool {
    match action {
        TlsAction::ReadKey { pem } => event is Refused || (event matches TlsEvent::Key(key)
            && key_bytes(pem@) == Some(key.der@) && key.wf()),
        TlsAction::MakeKey => event is Refused || (event matches TlsEvent::Key(key) && key.wf()),
        TlsAction::SignAuthority { key, max_path } => event is Refused || (
        event matches TlsEvent::Certificate(der) && is_authority(der@, key@, max_path)),
        TlsAction::CheckNames { names } => match names_trouble(views(names@)) {
            Some(m) => event matches TlsEvent::Refused(text) && text@ == m,
            None => event is Done,
        },
        TlsAction::SignCertificate { names, key, authority } => event is Refused || (
        event matches TlsEvent::Certificate(der) && is_issued(
            der@,
            views(names@),
            key@,
            authority@,
        )),
        _ => false,
    }
}

/// Does an action that is to compute. Others are not for this.
pub fn perform(action: &TlsAction) -> (r: Option<TlsEvent>)
    ensures
        match action {
            TlsAction::ReadKey { .. }
            | TlsAction::MakeKey
            | TlsAction::SignAuthority { .. }
            | TlsAction::CheckNames { .. }
            | TlsAction::SignCertificate { .. } => r matches Some(event) && may_answer(
                *action,
                event,
            ),
            _ => r is None,
        },
{
    match action {
        TlsAction::ReadKey { pem } => Some(
            match read_key(pem.as_str()) {
                Ok((pem, der)) => TlsEvent::Key(SigningKey { pem, der }),
                Err(m) => TlsEvent::Refused(m),
            },
        ),
        TlsAction::MakeKey => Some(
            match generate_key() {
                Ok((pem, der)) => TlsEvent::Key(SigningKey { pem, der }),
                Err(m) => TlsEvent::Refused(m),
            },
        ),
        TlsAction::SignAuthority { key, max_path } => Some(
            match sign_authority(key, *max_path) {
                Ok(der) => TlsEvent::Certificate(der),
                Err(m) => TlsEvent::Refused(m),
            },
        ),
        TlsAction::CheckNames { names } => Some(
            match check_names(names.clone()) {
                Ok(_) => TlsEvent::Done,
                Err(m) => TlsEvent::Refused(m),
            },
        ),
        TlsAction::SignCertificate { names, key, authority } => Some(
            match sign_certificate(names.clone(), key, authority) {
                Ok(der) => TlsEvent::Certificate(der),
                Err(m) => TlsEvent::Refused(m),
            },
        ),
        _ => None,
    }
}

} // verus!
