//! Secret synchronization: the request model, the provider selection, the
//! parsing of provider-specific secret references, and the encoding of
//! fetched values for a Kubernetes secret.
//!
//! Fetching itself is network work done by the host; everything decided
//! around it — which provider, which object, which key, how the values are
//! encoded — is verified here.

use vstd::prelude::*;
use vstd::string::StringExecFns;
use vstd::string::StringSliceAdditionalSpecFns;

use base64::Engine;

use crate::command::ToolInvocation;
use crate::text::split_once_char_at;

verus! {

/// One secret to fetch and its destination key in the Kubernetes secret.
pub struct SecretSpec {
    /// The key name within the Kubernetes secret's data.
    pub name: String,
    /// The provider-specific key or path of the source value.
    pub value_from: String,
}

/// A full synchronization request: the provider, the destination, and the
/// secrets to fetch.
pub struct SyncRequest {
    /// The provider backend configuration.
    pub provider: ProviderConfig,
    /// The namespace to sync the secret into.
    pub namespace: String,
    /// The name of the Kubernetes secret to create or update.
    pub secret_name: String,
    /// The secrets to fetch, with their destination keys.
    pub secrets: Vec<SecretSpec>,
}

/// Connection parameters of a Vault server.
pub struct VaultConfig {
    /// The network address of the server.
    pub address: String,
    /// The authentication token for its API.
    pub token: String,
}

/// Configuration of the file-decryption provider: the encrypted file.
pub struct SopsConfig {
    pub file_path: String,
}

/// Configuration of the sealed-secrets provider. Empty: everything is
/// inferred from the cluster environment.
pub struct SealedSecretsConfig {}

/// The configuration of any supported secret provider.
pub enum ProviderConfig {
    Vault(VaultConfig),
    Sops(SopsConfig),
    SealedSecrets(SealedSecretsConfig),
}

/// The provider reading secrets decrypted in-cluster by the sealed-secrets
/// controller.
pub struct SealedSecretsProvider {}

impl SealedSecretsProvider {
    /// A new provider; it needs nothing beyond the cluster environment.
    pub fn new(_config: SealedSecretsConfig) -> (r: Result<Self, String>)
        ensures
            r is Ok,
    {
        Ok(Self {  })
    }
}

/// The capability interface of a secret backend. The host implements it
/// over its cluster or network client; nothing is assumed of an
/// implementation beyond its signature.
pub trait SecretProvider {
    /// Fetches one raw secret value by its provider-specific key.
    fn fetch_secret_value(&self, key: &str) -> (r: Result<String, String>);
}

/// The provider selected by the factory, with what it needs to run.
pub enum SelectedProvider {
    Vault(VaultConfig),
    Sops(SopsConfig),
    SealedSecrets(SealedSecretsProvider),
}

/// Instantiates the provider demanded by the configuration.
pub fn get_provider(config: ProviderConfig) -> (r: Result<SelectedProvider, String>)
    ensures
        r is Ok,
        config is Vault <==> (r matches Ok(p) && p is Vault),
        config is Sops <==> (r matches Ok(p) && p is Sops),
        config is SealedSecrets <==> (r matches Ok(p) && p is SealedSecrets),
{
    match config {
        ProviderConfig::Vault(conf) => Ok(SelectedProvider::Vault(conf)),
        ProviderConfig::Sops(conf) => Ok(SelectedProvider::Sops(conf)),
        ProviderConfig::SealedSecrets(conf) => {
            let provider = match SealedSecretsProvider::new(conf) {
                Ok(p) => p,
                Err(m) => {
                    return Err(m);
                },
            };
            Ok(SelectedProvider::SealedSecrets(provider))
        },
    }
}

/// A parsed sealed-secrets reference: `namespace/name:key`.
pub struct SecretRef {
    pub namespace: String,
    pub secret_name: String,
    pub data_key: String,
}

/// Splits a sealed-secrets reference `namespace/name:key` at its first `:`
/// and, within the left part, at its first `/`. Exactly the references of
/// that shape are accepted.
pub fn parse_secret_ref(key: &str) -> (r: Result<SecretRef, String>)
    requires
        key@.len() < usize::MAX - 1,
    ensures
        r matches Ok(t) ==> exists|i: int|
            {
                &&& 0 <= i < key@.len()
                &&& #[trigger] key@[i] == ':'
                &&& (forall|x: int| 0 <= x < i ==> key@[x] != ':')
                &&& t.data_key@ == key@.subrange(i + 1, key@.len() as int)
                &&& exists|j: int|
                    {
                        &&& 0 <= j < i
                        &&& #[trigger] key@[j] == '/'
                        &&& (forall|y: int| 0 <= y < j ==> key@[y] != '/')
                        &&& t.namespace@ == key@.subrange(0, j)
                        &&& t.secret_name@ == key@.subrange(j + 1, i)
                    }
            },
        (forall|i: int| 0 <= i < key@.len() ==> key@[i] != ':') ==> r is Err,
{
    let (i, left, data_key) = match split_once_char_at(key, ':') {
        Some(p) => p,
        None => {
            let mut m = String::new();
            m.append("Invalid sealed-secrets key format. Expected 'namespace/name:key', got '");
            m.append(key);
            m.append("'");
            return Err(m);
        },
    };
    match split_once_char_at(left.as_str(), '/') {
        Some((j, namespace, secret_name)) => {
            proof {
                assert(left@ == key@.subrange(0, i as int));
                assert(key@[j as int] == '/');
                assert forall|y: int| 0 <= y < j implies key@[y] != '/' by {
                    assert(left@[y] == key@[y]);
                }
                assert(namespace@ =~= key@.subrange(0, j as int));
                assert(secret_name@ =~= key@.subrange(j + 1, i as int));
            }
            Ok(SecretRef { namespace, secret_name, data_key })
        },
        None => {
            let mut m = String::new();
            m.append("Invalid sealed-secrets namespace/name format. Expected 'namespace/name', got '");
            m.append(left.as_str());
            m.append("'");
            Err(m)
        },
    }
}

/// What the standard base64 alphabet encodes the given bytes to.
pub uninterp spec fn b64_encoding(data: Seq<u8>) -> Seq<char>;

/// What standard base64 decoding yields for the given text: the bytes, or
/// nothing where the text is not valid base64.
pub uninterp spec fn b64_decoding(text: Seq<char>) -> Option<Seq<u8>>;

/// Relies on base64's standard-alphabet engine: the encoding of a byte
/// string is a function of those bytes alone, and empty input encodes to
/// empty output.
#[verifier::external_body]
pub(crate) fn base64_encode(data: &[u8]) -> (r: String)
    ensures
        r@ == b64_encoding(data@),
        data@.len() == 0 ==> r@.len() == 0,
{
    base64::engine::general_purpose::STANDARD.encode(data)
}

/// Relies on base64's standard-alphabet engine: decoding accepts a text or
/// rejects it as a function of its characters alone.
#[verifier::external_body]
pub(crate) fn base64_decode(text: &str) -> (r: Result<Vec<u8>, String>)
    ensures
        r matches Ok(v) ==> b64_decoding(text@) == Some(v@),
        r is Err ==> b64_decoding(text@) is None,
{
    match base64::engine::general_purpose::STANDARD.decode(text.as_bytes()) {
        Ok(v) => Ok(v),
        Err(e) => Err(e.to_string()),
    }
}

/// Relies on alloc's String::from_utf8: accepts exactly the valid UTF-8
/// byte strings and preserves the bytes.
#[verifier::external_body]
pub(crate) fn string_from_utf8(bytes: Vec<u8>) -> (r: Result<String, String>)
    ensures
        r matches Ok(s) ==> vstd::utf8::encode_utf8(s@) == bytes@,
        r is Err ==> !vstd::utf8::valid_utf8(bytes@),
{
    match String::from_utf8(bytes) {
        Ok(s) => Ok(s),
        Err(e) => Err(e.to_string()),
    }
}

/// Decodes one value read out of a Kubernetes secret: base64, then UTF-8.
/// Succeeds exactly on values that are valid base64 whose decoded bytes are
/// valid UTF-8, and then returns the text with those bytes.
pub fn decode_secret_value(encoded: &str) -> (r: Result<String, String>)
    ensures
        r matches Ok(s) ==> (b64_decoding(encoded@) matches Some(bytes)
            && vstd::utf8::encode_utf8(s@) == bytes),
        b64_decoding(encoded@) is None ==> r is Err,
{
    let bytes = match base64_decode(encoded) {
        Ok(v) => v,
        Err(m) => {
            return Err(m);
        },
    };
    string_from_utf8(bytes)
}

/// Encodes one fetched secret value for the Kubernetes secret's data map.
pub fn encode_secret_value(value: &str) -> (r: String)
    ensures
        r@ == b64_encoding(value.spec_bytes()),
{
    base64_encode(value.as_bytes())
}

/// Builds the data of the Kubernetes secret from the fetched values: each
/// destination key paired with the base64 encoding of its value's bytes.
pub fn build_secret_data(fetched: &Vec<(String, String)>) -> (r: Vec<(String, String)>)
    ensures
        r@.len() == fetched@.len(),
        forall|i: int|
            0 <= i < fetched@.len() ==> {
                &&& (#[trigger] r@[i]).0@ == fetched@[i].0@
                &&& r@[i].1@ == b64_encoding(vstd::utf8::encode_utf8(fetched@[i].1@))
            },
{
    let mut out: Vec<(String, String)> = Vec::new();
    let mut i: usize = 0;
    while i < fetched.len()
        invariant
            0 <= i <= fetched@.len(),
            out@.len() == i,
            forall|j: int|
                0 <= j < i ==> {
                    &&& (#[trigger] out@[j]).0@ == fetched@[j].0@
                    &&& out@[j].1@ == b64_encoding(vstd::utf8::encode_utf8(fetched@[j].1@))
                },
        decreases fetched@.len() - i,
    {
        let name = fetched[i].0.clone();
        let encoded = encode_secret_value(fetched[i].1.as_str());
        out.push((name, encoded));
        i += 1;
    }
    out
}

/// The invocation that decrypts a secrets file: `sops --decrypt <path>`.
pub fn sops_decrypt_invocation(file_path: &str) -> (r: ToolInvocation)
    ensures
        r.program@ == "sops"@,
        r.args@.len() == 2,
        r.args@[0]@ == "--decrypt"@,
        r.args@[1]@ == file_path@,
{
    let mut args: Vec<String> = Vec::new();
    args.push(String::from_str("--decrypt"));
    args.push(file_path.to_owned());
    ToolInvocation { program: String::from_str("sops"), args }
}

} // verus!
