use vstd::prelude::*;
use vstd::string::*;
use crate::utils::error::{ErrorKind, FerrumError};
use std::path::PathBuf;

verus! {

/// `std::path::PathBuf`, carried through as it is: the authority keeps the
/// two paths for its callers and never looks inside them.
#[verifier::external_type_specification]
#[verifier::external_body]
pub struct ExPathBuf(PathBuf);

/// The longest host name that a certificate is issued for, in characters.
pub const MAX_HOSTNAME_LEN: usize = 253;

/// The longest label of a host name, in characters.
pub const MAX_LABEL_LEN: usize = 63;

/// What the two files of the root authority hold: `None` for a file that does
/// not exist.
#[derive(Debug)]
pub struct RootFiles {
    pub certificate: Option<Vec<u8>>,
    pub private_key: Option<Vec<u8>>,
}

/// The contents of the two files as sequences of bytes.
pub struct RootFilesView {
    pub certificate: Option<Seq<u8>>,
    pub private_key: Option<Seq<u8>>,
}

impl View for RootFiles {
    type V = RootFilesView;

    open spec fn view(&self) -> RootFilesView {
        RootFilesView {
            certificate: match self.certificate {
                Some(bytes) => Some(bytes@),
                None => None,
            },
            private_key: match self.private_key {
                Some(bytes) => Some(bytes@),
                None => None,
            },
        }
    }
}

/// The root's certificate and private key, once loaded or generated.
pub struct RootAuthority {
    certificate: Vec<u8>,
    private_key: Vec<u8>,
}

/// The authority that signs a leaf certificate for each domain that a client
/// asks a tunnel for.
pub struct CertificateAuthority {
    ca_cert_path: PathBuf,
    ca_key_path: PathBuf,
    root: Option<RootAuthority>,
}

/// The certificate that a freshly generated root gets.
pub open spec fn fresh_root_certificate() -> Seq<u8> {
    "Placeholder CA certificate".spec_bytes()
}

/// The private key that a freshly generated root gets.
pub open spec fn fresh_root_key() -> Seq<u8> {
    "Placeholder CA key".spec_bytes()
}

/// What initialising does to the two files: both present, they stay as they
/// are; both missing, a fresh pair is generated; one present and one missing,
/// there is no answer and the files are not touched.
pub open spec fn init_files(files: RootFilesView) -> Option<RootFilesView> {
    if files.certificate is Some && files.private_key is Some {
        Some(files)
    } else if files.certificate is None && files.private_key is None {
        Some(
            RootFilesView {
                certificate: Some(fresh_root_certificate()),
                private_key: Some(fresh_root_key()),
            },
        )
    } else {
        None
    }
}

/// A letter, a digit, a hyphen or a dot.
pub open spec fn is_hostname_char(c: char) -> bool {
    ('a' <= c && c <= 'z') || ('A' <= c && c <= 'Z') || ('0' <= c && c <= '9') || c == '-' || c
        == '.'
}

/// A dot or a hyphen: what a label neither starts nor ends with.
pub open spec fn is_separator(c: char) -> bool {
    c == '-' || c == '.'
}

/// Whether some character of `domain` from `from` up to and including `to` is
/// a dot.
pub open spec fn has_dot(domain: Seq<char>, from: int, to: int) -> bool {
    exists|j: int| from <= j <= to && #[trigger] domain[j] == '.'
}

/// Whether a domain is a host name: not empty, at most `MAX_HOSTNAME_LEN`
/// characters, made of letters, digits, hyphens and dots, and every label
/// between the dots starts and ends with a letter or a digit and has at most
/// `MAX_LABEL_LEN` characters.
pub open spec fn valid_hostname(domain: Seq<char>) -> bool {
    &&& 0 < domain.len() <= MAX_HOSTNAME_LEN
    &&& forall|i: int| 0 <= i < domain.len() ==> is_hostname_char(#[trigger] domain[i])
    &&& !is_separator(domain[0])
    &&& !is_separator(domain[domain.len() - 1])
    &&& forall|i: int|
        0 <= i < domain.len() - 1 ==> !(#[trigger] domain[i] == '.' && is_separator(domain[i + 1]))
            && !(domain[i] == '-' && domain[i + 1] == '.')
    &&& forall|i: int|
        0 <= i && i + MAX_LABEL_LEN < domain.len() ==> #[trigger] has_dot(
            domain,
            i,
            i + MAX_LABEL_LEN,
        )
}

/// The certificate of the leaf for a domain, as text: a fixed line that ends
/// in the domain. It names its subject and carries no signature; encoding it
/// as X.509 and signing it with the root's key is the work of a TLS library.
pub open spec fn leaf_certificate(domain: Seq<char>) -> Seq<char> {
    "Placeholder certificate for "@ + domain
}

/// The private key of a leaf.
pub open spec fn leaf_key() -> Seq<u8> {
    "Placeholder key".spec_bytes()
}

fn hostname_char(c: char) -> (ok: bool)
    ensures
        ok == is_hostname_char(c),
{
    ('a' <= c && c <= 'z') || ('A' <= c && c <= 'Z') || ('0' <= c && c <= '9') || c == '-' || c
        == '.'
}

/// Decides whether a domain is a host name.
pub fn is_valid_hostname(domain: &str) -> (valid: bool)
    ensures
        valid == valid_hostname(domain@),
{
    let n: usize = domain.unicode_len();
    if n == 0 || n > MAX_HOSTNAME_LEN {
        return false;
    }
    let mut previous: char = domain.get_char(0);
    if previous == '-' || previous == '.' || !hostname_char(previous) {
        return false;
    }
    let mut i: usize = 1;
    let mut label: usize = 1;
    while i < n
        invariant
            1 <= i <= n,
            n == domain@.len(),
            previous == domain@[i - 1],
            !is_separator(domain@[0]),
            forall|j: int| 0 <= j < i ==> is_hostname_char(#[trigger] domain@[j]),
            forall|j: int|
                0 <= j < i - 1 ==> !(#[trigger] domain@[j] == '.' && is_separator(domain@[j + 1]))
                    && !(domain@[j] == '-' && domain@[j + 1] == '.'),
            label <= MAX_LABEL_LEN,
            label <= i,
            forall|j: int| i - label <= j < i ==> #[trigger] domain@[j] != '.',
            label < i ==> domain@[i - label - 1] == '.',
            forall|w: int|
                0 <= w && w + MAX_LABEL_LEN < i ==> #[trigger] has_dot(
                    domain@,
                    w,
                    w + MAX_LABEL_LEN,
                ),
        decreases n - i,
    {
        let current: char = domain.get_char(i);
        if !hostname_char(current) {
            return false;
        }
        if previous == '.' && (current == '-' || current == '.') {
            assert(domain@[i - 1] == '.' && is_separator(domain@[i - 1 + 1]));
            return false;
        }
        if previous == '-' && current == '.' {
            assert(domain@[i - 1] == '-' && domain@[i - 1 + 1] == '.');
            return false;
        }
        if current == '.' {
            label = 0;
        } else if label == MAX_LABEL_LEN {
            assert(!has_dot(domain@, i - MAX_LABEL_LEN, i - MAX_LABEL_LEN + MAX_LABEL_LEN));
            return false;
        } else {
            label = label + 1;
        }
        proof {
            assert forall|w: int| 0 <= w && w + MAX_LABEL_LEN < i + 1 implies #[trigger] has_dot(
                domain@,
                w,
                w + MAX_LABEL_LEN,
            ) by {
                if w + MAX_LABEL_LEN == i {
                    if current == '.' {
                        assert(domain@[i as int] == '.');
                    } else {
                        assert(domain@[i + 1 - label - 1] == '.');
                    }
                }
            }
        }
        previous = current;
        i = i + 1;
    }
    !(previous == '-' || previous == '.')
}

impl CertificateAuthority {
    /// Where the root's certificate is kept.
    pub closed spec fn cert_path(&self) -> PathBuf {
        self.ca_cert_path
    }

    /// Where the root's private key is kept.
    pub closed spec fn key_path(&self) -> PathBuf {
        self.ca_key_path
    }

    /// The root's certificate and key, once the authority is initialised.
    pub closed spec fn root(&self) -> Option<(Seq<u8>, Seq<u8>)> {
        match self.root {
            Some(root) => Some((root.certificate@, root.private_key@)),
            None => None,
        }
    }

    pub open spec fn spec_is_initialized(&self) -> bool {
        self.root() is Some
    }

    /// Whether the authority issues a certificate for the domain: it has its
    /// root, and the domain is a host name.
    pub open spec fn can_issue(&self, domain: Seq<char>) -> bool {
        self.spec_is_initialized() && valid_hostname(domain)
    }

    /// The public certificate of the root that issues for the domain, or
    /// `None` where the authority does not issue for it.
    pub open spec fn issuer_for(&self, domain: Seq<char>) -> Option<Seq<u8>> {
        match self.root() {
            Some((certificate, _)) if valid_hostname(domain) => Some(certificate),
            _ => None,
        }
    }

    /// An authority that keeps its root in the two files named. It has no root
    /// until `init` has run.
    pub fn new(ca_cert_path: PathBuf, ca_key_path: PathBuf) -> (ca: Self)
        ensures
            ca.cert_path() == ca_cert_path,
            ca.key_path() == ca_key_path,
            ca.root() is None,
    {
        CertificateAuthority { ca_cert_path, ca_key_path, root: None }
    }

    #[verifier::when_used_as_spec(spec_is_initialized)]
    pub fn is_initialized(&self) -> (initialized: bool)
        ensures
            initialized == self.spec_is_initialized(),
    {
        self.root.is_some()
    }

    /// The root after initialising on files that end as `after`: the root it
    /// had, if it had one, as a root is never changed once it is there; else
    /// the pair in the files.
    pub open spec fn root_after(&self, after: RootFilesView) -> Option<(Seq<u8>, Seq<u8>)> {
        if self.root() is Some {
            self.root()
        } else {
            Some((after.certificate->0, after.private_key->0))
        }
    }

    /// Loads the root from the two files, or generates it where both are
    /// missing, and returns what the files are to hold afterwards. With one
    /// file present and the other missing it fails and changes nothing.
    pub fn init(&mut self, files: RootFiles) -> (written: Result<RootFiles, FerrumError>)
        ensures
            final(self).cert_path() == old(self).cert_path(),
            final(self).key_path() == old(self).key_path(),
            match init_files(files@) {
                Some(after) => written matches Ok(out) && out@ == after && final(self).root()
                    == old(self).root_after(after),
                None => written matches Err(e) && e.kind() == ErrorKind::Certificate
                    && final(self).root() == old(self).root(),
            },
    {
        match (files.certificate, files.private_key) {
            (Some(certificate), Some(private_key)) => {
                let kept = RootFiles {
                    certificate: Some(copy_bytes(&certificate)),
                    private_key: Some(copy_bytes(&private_key)),
                };
                if self.root.is_none() {
                    self.root = Some(RootAuthority { certificate, private_key });
                }
                Ok(kept)
            },
            (None, None) => {
                let certificate = "Placeholder CA certificate".as_bytes_vec();
                let private_key = "Placeholder CA key".as_bytes_vec();
                let fresh = RootFiles {
                    certificate: Some(copy_bytes(&certificate)),
                    private_key: Some(copy_bytes(&private_key)),
                };
                if self.root.is_none() {
                    self.root = Some(RootAuthority { certificate, private_key });
                }
                Ok(fresh)
            },
            _ => Err(
                FerrumError::CertificateError(
                    String::from_str("exactly one of the root certificate and the root key exists"),
                ),
            ),
        }
    }

    /// The root's public certificate, once the authority has its root.
    pub fn root_certificate(&self) -> (certificate: Option<Vec<u8>>)
        ensures
            match self.root() {
                Some(root) => certificate matches Some(bytes) && bytes@ == root.0,
                None => certificate is None,
            },
    {
        match &self.root {
            Some(root) => Some(copy_bytes(&root.certificate)),
            None => None,
        }
    }

    /// Issues the certificate and the private key of a leaf for the domain.
    /// It fails where the domain is no host name or the authority has no root.
    pub fn generate_cert_for_domain(&self, domain: &str) -> (issued: Result<
        (Vec<u8>, Vec<u8>),
        FerrumError,
    >)
        ensures
            self.can_issue(domain@) ==> (issued matches Ok(pair) && pair.0@ == encode_leaf(domain@)
                && pair.1@ == leaf_key()),
            !self.can_issue(domain@) ==> (issued matches Err(e) && e.kind()
                == ErrorKind::Certificate),
    {
        if self.root.is_none() {
            return Err(
                FerrumError::CertificateError(
                    String::from_str("the root authority is not initialized"),
                ),
            );
        }
        if !is_valid_hostname(domain) {
            return Err(
                FerrumError::CertificateError(String::from_str("the domain is not a host name")),
            );
        }
        let text = String::from_str("Placeholder certificate for ").concat(domain);
        Ok((text.as_str().as_bytes_vec(), "Placeholder key".as_bytes_vec()))
    }

    pub fn get_ca_cert_path(&self) -> (path: &PathBuf)
        ensures
            *path == self.cert_path(),
    {
        &self.ca_cert_path
    }

    pub fn get_ca_key_path(&self) -> (path: &PathBuf)
        ensures
            *path == self.key_path(),
    {
        &self.ca_key_path
    }
}

/// The bytes of the certificate of the leaf for a domain.
pub open spec fn encode_leaf(domain: Seq<char>) -> Seq<u8> {
    vstd::utf8::encode_utf8(leaf_certificate(domain))
}

/// A copy of a sequence of bytes.
pub fn copy_bytes(bytes: &Vec<u8>) -> (copy: Vec<u8>)
    ensures
        copy@ == bytes@,
{
    let mut copy: Vec<u8> = Vec::new();
    let mut i: usize = 0;
    while i < bytes.len()
        invariant
            i <= bytes.len(),
            copy@ == bytes@.subrange(0, i as int),
        decreases bytes.len() - i,
    {
        copy.push(bytes[i]);
        assert(copy@ == bytes@.subrange(0, i + 1));
        i = i + 1;
    }
    assert(bytes@.subrange(0, bytes.len() as int) == bytes@);
    copy
}

/// The domain that a leaf's certificate was issued for, read from its bytes.
pub open spec fn subject_of(certificate: Seq<u8>) -> Seq<char> {
    vstd::utf8::decode_utf8(certificate).skip("Placeholder certificate for "@.len() as int)
}

/// The certificate issued for a domain carries that domain as its subject.
pub proof fn lemma_subject_matches(domain: Seq<char>)
    ensures
        subject_of(encode_leaf(domain)) == domain,
{
    vstd::utf8::encode_utf8_decode_utf8(leaf_certificate(domain));
    assert(leaf_certificate(domain).skip("Placeholder certificate for "@.len() as int) == domain);
}

/// Two different domains get two different certificates, each with its own
/// domain as subject.
pub proof fn lemma_distinct_domains_distinct_certificates(first: Seq<char>, second: Seq<char>)
    requires
        first != second,
    ensures
        subject_of(encode_leaf(first)) == first,
        subject_of(encode_leaf(second)) == second,
        encode_leaf(first) != encode_leaf(second),
{
    lemma_subject_matches(first);
    lemma_subject_matches(second);
}

/// Initialising twice is initialising once: what the first run leaves in the
/// two files, the second run finds and leaves byte for byte as it is.
pub proof fn lemma_init_idempotent(files: RootFilesView)
    requires
        init_files(files) is Some,
    ensures
        init_files(init_files(files)->0) == init_files(files),
{
}

} // verus!
