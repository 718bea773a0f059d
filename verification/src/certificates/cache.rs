use vstd::prelude::*;
use vstd::string::*;
use crate::certificates::ca::{
    copy_bytes,
    encode_leaf,
    leaf_key,
    lemma_distinct_domains_distinct_certificates,
    subject_of,
    CertificateAuthority,
};
use crate::utils::error::{ErrorKind, FerrumError};

verus! {

/// For how many seconds a leaf is valid from its issuance: one year.
pub const LEAF_VALIDITY_SECS: u64 = 31_536_000;

/// The certificate issued for one domain, with its key and its validity in
/// seconds since the epoch.
#[derive(Debug)]
pub struct LeafCertificate {
    pub domain: String,
    pub certificate: Vec<u8>,
    pub private_key: Vec<u8>,
    /// The public certificate of the root that signed the leaf.
    pub signed_by: Vec<u8>,
    pub not_before: u64,
    pub not_after: u64,
}

/// A leaf as plain mathematical values.
pub struct LeafView {
    pub domain: Seq<char>,
    pub certificate: Seq<u8>,
    pub private_key: Seq<u8>,
    pub signed_by: Seq<u8>,
    pub not_before: u64,
    pub not_after: u64,
}

impl View for LeafCertificate {
    type V = LeafView;

    open spec fn view(&self) -> LeafView {
        LeafView {
            domain: self.domain@,
            certificate: self.certificate@,
            private_key: self.private_key@,
            signed_by: self.signed_by@,
            not_before: self.not_before,
            not_after: self.not_after,
        }
    }
}

impl LeafCertificate {
    /// A copy of the leaf, equal to it in every field.
    pub fn duplicate(&self) -> (copy: Self)
        ensures
            copy@ == self@,
    {
        LeafCertificate {
            domain: self.domain.clone(),
            certificate: copy_bytes(&self.certificate),
            private_key: copy_bytes(&self.private_key),
            signed_by: copy_bytes(&self.signed_by),
            not_before: self.not_before,
            not_after: self.not_after,
        }
    }
}

/// The second at which a leaf issued at `now` ends: a year later, or the last
/// second that can be written where the year does not fit.
pub open spec fn expiry(now: u64) -> u64 {
    if now <= u64::MAX - LEAF_VALIDITY_SECS {
        (now + LEAF_VALIDITY_SECS) as u64
    } else {
        u64::MAX
    }
}

/// The leaf that a root with the public certificate `root` issues for a
/// domain at the second `now`.
pub open spec fn issued_leaf(root: Seq<u8>, domain: Seq<char>, now: u64) -> LeafView {
    LeafView {
        domain,
        certificate: encode_leaf(domain),
        private_key: leaf_key(),
        signed_by: root,
        not_before: now,
        not_after: expiry(now),
    }
}

/// A leaf serves until its last second has passed.
pub open spec fn is_fresh(leaf: LeafView, now: u64) -> bool {
    now <= leaf.not_after
}

/// How a lookup ends.
pub enum Outcome {
    /// The cache held a leaf that has not expired.
    Hit(LeafView),
    /// The cache held none, or an expired one, and a new leaf was signed.
    Issued(LeafView),
    /// A leaf was needed and the authority did not issue one.
    Refused,
}

impl Outcome {
    pub open spec fn leaf(self) -> Option<LeafView> {
        match self {
            Outcome::Hit(leaf) => Some(leaf),
            Outcome::Issued(leaf) => Some(leaf),
            Outcome::Refused => None,
        }
    }
}

/// How a lookup of `domain` at the second `now` ends on a cache with the given
/// contents, where `issuer` is the public certificate of the root that issues
/// for the domain, or `None` where the authority does not issue for it.
pub open spec fn lookup(
    contents: Map<Seq<char>, LeafView>,
    issuer: Option<Seq<u8>>,
    domain: Seq<char>,
    now: u64,
) -> Outcome {
    if contents.dom().contains(domain) && is_fresh(contents[domain], now) {
        Outcome::Hit(contents[domain])
    } else if issuer is Some {
        Outcome::Issued(issued_leaf(issuer->0, domain, now))
    } else {
        Outcome::Refused
    }
}

/// What the cache holds after a lookup that ended in `outcome`.
pub open spec fn contents_after(
    contents: Map<Seq<char>, LeafView>,
    outcome: Outcome,
    domain: Seq<char>,
) -> Map<Seq<char>, LeafView> {
    match outcome {
        Outcome::Issued(leaf) => contents.insert(domain, leaf),
        _ => contents,
    }
}

/// How many leaves have been signed after a lookup that ended in `outcome`.
/// The count stops at the largest number it can hold.
pub open spec fn signings_after(signings: u64, outcome: Outcome) -> u64 {
    match outcome {
        Outcome::Issued(_) => if signings < u64::MAX {
            (signings + 1) as u64
        } else {
            signings
        },
        _ => signings,
    }
}

/// The leaves by domain that a sequence of entries stands for; a later entry
/// replaces an earlier one of the same domain.
pub open spec fn entries_map(entries: Seq<LeafCertificate>) -> Map<Seq<char>, LeafView>
    decreases entries.len(),
{
    if entries.len() == 0 {
        Map::empty()
    } else {
        entries_map(entries.drop_last()).insert(entries.last().domain@, entries.last()@)
    }
}

/// No two entries are for the same domain.
pub open spec fn distinct_domains(entries: Seq<LeafCertificate>) -> bool {
    forall|i: int, j: int|
        0 <= i < j < entries.len() ==> (#[trigger] entries[i]).domain@ != (
        #[trigger] entries[j]).domain@
}

proof fn lemma_entries_absent(entries: Seq<LeafCertificate>, domain: Seq<char>)
    requires
        forall|i: int| 0 <= i < entries.len() ==> (#[trigger] entries[i]).domain@ != domain,
    ensures
        !entries_map(entries).dom().contains(domain),
    decreases entries.len(),
{
    if entries.len() > 0 {
        lemma_entries_absent(entries.drop_last(), domain);
    }
}

/// Entries with distinct domains keep them distinct without their last.
proof fn lemma_front_distinct(entries: Seq<LeafCertificate>)
    requires
        distinct_domains(entries),
        entries.len() > 0,
    ensures
        distinct_domains(entries.drop_last()),
{
    let front = entries.drop_last();
    assert forall|i: int, j: int| 0 <= i < j < front.len() implies (#[trigger] front[i]).domain@
        != (#[trigger] front[j]).domain@ by {
        assert(front[i] == entries[i] && front[j] == entries[j]);
    }
}

proof fn lemma_entries_present(entries: Seq<LeafCertificate>, at: int)
    requires
        distinct_domains(entries),
        0 <= at < entries.len(),
    ensures
        entries_map(entries).dom().contains(entries[at].domain@),
        entries_map(entries)[entries[at].domain@] == entries[at]@,
    decreases entries.len(),
{
    if at < entries.len() - 1 {
        let front = entries.drop_last();
        lemma_front_distinct(entries);
        lemma_entries_present(front, at);
        assert(front[at] == entries[at]);
        assert(entries[at].domain@ != entries[entries.len() - 1].domain@);
    }
}

proof fn lemma_entries_replaced(entries: Seq<LeafCertificate>, at: int, leaf: LeafCertificate)
    requires
        distinct_domains(entries),
        0 <= at < entries.len(),
        leaf.domain@ == entries[at].domain@,
    ensures
        distinct_domains(entries.update(at, leaf)),
        entries_map(entries.update(at, leaf)) == entries_map(entries).insert(leaf.domain@, leaf@),
    decreases entries.len(),
{
    let updated = entries.update(at, leaf);
    assert(distinct_domains(updated)) by {
        assert forall|i: int, j: int| 0 <= i < j < updated.len() implies (
        #[trigger] updated[i]).domain@ != (#[trigger] updated[j]).domain@ by {
            assert(updated[i].domain@ == entries[i].domain@);
            assert(updated[j].domain@ == entries[j].domain@);
        }
    }
    let front = entries.drop_last();
    if at == entries.len() - 1 {
        assert(updated.drop_last() == front);
        assert(entries_map(updated) == entries_map(entries).insert(leaf.domain@, leaf@));
    } else {
        lemma_front_distinct(entries);
        lemma_entries_replaced(front, at, leaf);
        assert(updated.drop_last() == front.update(at, leaf));
        assert(updated.last() == entries.last());
        assert(entries[at].domain@ != entries[entries.len() - 1].domain@);
        assert(entries_map(updated) == entries_map(entries).insert(leaf.domain@, leaf@));
    }
}

/// Every entry is the leaf that was issued for its domain at the second its
/// validity starts.
pub open spec fn all_issued(entries: Seq<LeafCertificate>) -> bool {
    forall|i: int|
        0 <= i < entries.len() ==> (#[trigger] entries[i])@ == issued_leaf(
            entries[i].signed_by@,
            entries[i].domain@,
            entries[i].not_before,
        )
}

/// The leaves issued so far, one for each domain, and the count of signings.
pub struct CertificateCache {
    entries: Vec<LeafCertificate>,
    signings: u64,
}

impl View for CertificateCache {
    type V = Map<Seq<char>, LeafView>;

    closed spec fn view(&self) -> Map<Seq<char>, LeafView> {
        entries_map(self.entries@)
    }
}

impl CertificateCache {
    /// The cache holds at most one leaf for a domain, and each leaf is as it
    /// was issued.
    #[verifier::type_invariant]
    spec fn wf(&self) -> bool {
        distinct_domains(self.entries@) && all_issued(self.entries@)
    }

    /// How many leaves the cache has had signed.
    pub closed spec fn spec_signings(&self) -> u64 {
        self.signings
    }

    /// An empty cache, with nothing signed yet.
    pub fn new() -> (cache: Self)
        ensures
            cache@ == Map::<Seq<char>, LeafView>::empty(),
            cache.signings() == 0,
    {
        CertificateCache { entries: Vec::new(), signings: 0 }
    }

    #[verifier::when_used_as_spec(spec_signings)]
    pub fn signings(&self) -> (count: u64)
        ensures
            count == self.spec_signings(),
    {
        self.signings
    }

    /// Where the entry for a domain stands, if there is one.
    fn position(&self, domain: &String) -> (found: Option<usize>)
        ensures
            match found {
                Some(at) => at < self.entries@.len() && self.entries@[at as int].domain@ == domain@,
                None => forall|i: int|
                    0 <= i < self.entries@.len() ==> (#[trigger] self.entries@[i]).domain@
                        != domain@,
            },
    {
        let mut i: usize = 0;
        while i < self.entries.len()
            invariant
                i <= self.entries@.len(),
                forall|j: int| 0 <= j < i ==> (#[trigger] self.entries@[j]).domain@ != domain@,
            decreases self.entries@.len() - i,
        {
            if self.entries[i].domain == *domain {
                return Some(i);
            }
            i = i + 1;
        }
        None
    }

    /// The leaf for a domain at the second `now`: the one the cache holds, if
    /// it has not expired; else a new one, signed by the authority and stored
    /// in place of what was there. Where a new one is needed and the authority
    /// does not issue it, the lookup fails and the cache stays as it was. The
    /// leaf returned, cached or new, is the one that was issued for the domain
    /// when its validity began: it carries the domain as its subject.
    pub fn get_or_issue(&mut self, ca: &CertificateAuthority, domain: &str, now: u64) -> (found:
        Result<LeafCertificate, FerrumError>)
        ensures
            final(self)@ == contents_after(
                old(self)@,
                lookup(old(self)@, ca.issuer_for(domain@), domain@, now),
                domain@,
            ),
            final(self).signings() == signings_after(
                old(self).signings(),
                lookup(old(self)@, ca.issuer_for(domain@), domain@, now),
            ),
            match lookup(old(self)@, ca.issuer_for(domain@), domain@, now).leaf() {
                Some(leaf) => found matches Ok(l) && l@ == leaf,
                None => found matches Err(e) && e.kind() == ErrorKind::Certificate,
            },
            found matches Ok(l) ==> l@ == issued_leaf(l.signed_by@, domain@, l.not_before),
    {
        let key = String::from_str(domain);
        let place = self.position(&key);
        proof {
            use_type_invariant(&*self);
            match place {
                Some(at) => lemma_entries_present(self.entries@, at as int),
                None => lemma_entries_absent(self.entries@, domain@),
            }
        }
        if let Some(at) = place {
            if now <= self.entries[at].not_after {
                return Ok(self.entries[at].duplicate());
            }
        }
        let Some(root) = ca.root_certificate() else {
            return Err(
                FerrumError::CertificateError(
                    String::from_str("the root authority is not initialized"),
                ),
            );
        };
        match ca.generate_cert_for_domain(domain) {
            Ok(pair) => {
                let not_after: u64 = if now <= u64::MAX - LEAF_VALIDITY_SECS {
                    now + LEAF_VALIDITY_SECS
                } else {
                    u64::MAX
                };
                let leaf = LeafCertificate {
                    domain: key,
                    certificate: pair.0,
                    private_key: pair.1,
                    signed_by: root,
                    not_before: now,
                    not_after,
                };
                let copy = leaf.duplicate();
                let mut entries: Vec<LeafCertificate> = Vec::new();
                std::mem::swap(&mut entries, &mut self.entries);
                match place {
                    Some(at) => {
                        proof {
                            lemma_entries_replaced(entries@, at as int, leaf);
                        }
                        entries.set(at, leaf);
                    },
                    None => {
                        assert(entries@.push(leaf).drop_last() == entries@);
                        entries.push(leaf);
                    },
                }
                assert(all_issued(entries@));
                std::mem::swap(&mut entries, &mut self.entries);
                if self.signings < u64::MAX {
                    self.signings = self.signings + 1;
                }
                Ok(copy)
            },
            Err(e) => Err(e),
        }
    }
}

/// A second lookup of a domain, made before the leaf that the first returned
/// has expired, returns that same leaf, certificate and key included, signs
/// nothing and leaves the cache as the first lookup left it.
pub proof fn lemma_second_lookup_hits(
    contents: Map<Seq<char>, LeafView>,
    issuer: Option<Seq<u8>>,
    issuer_later: Option<Seq<u8>>,
    domain: Seq<char>,
    first: u64,
    second: u64,
)
    requires
        lookup(contents, issuer, domain, first).leaf() is Some,
        is_fresh(lookup(contents, issuer, domain, first).leaf()->0, second),
    ensures
        ({
            let before = lookup(contents, issuer, domain, first);
            let between = contents_after(contents, before, domain);
            let after = lookup(between, issuer_later, domain, second);
            &&& after == Outcome::Hit(before.leaf()->0)
            &&& contents_after(between, after, domain) == between
            &&& forall|signings: u64| signings_after(signings, after) == signings
        }),
{
}

/// What the cache holds after `calls` lookups of one domain at one second.
pub open spec fn contents_after_calls(
    contents: Map<Seq<char>, LeafView>,
    issuer: Option<Seq<u8>>,
    domain: Seq<char>,
    now: u64,
    calls: nat,
) -> Map<Seq<char>, LeafView>
    decreases calls,
{
    if calls == 0 {
        contents
    } else {
        let earlier = contents_after_calls(contents, issuer, domain, now, (calls - 1) as nat);
        contents_after(earlier, lookup(earlier, issuer, domain, now), domain)
    }
}

/// How many leaves have been signed after `calls` lookups of one domain at one
/// second.
pub open spec fn signings_after_calls(
    contents: Map<Seq<char>, LeafView>,
    signings: u64,
    issuer: Option<Seq<u8>>,
    domain: Seq<char>,
    now: u64,
    calls: nat,
) -> u64
    decreases calls,
{
    if calls == 0 {
        signings
    } else {
        let earlier = contents_after_calls(contents, issuer, domain, now, (calls - 1) as nat);
        signings_after(
            signings_after_calls(contents, signings, issuer, domain, now, (calls - 1) as nat),
            lookup(earlier, issuer, domain, now),
        )
    }
}

/// However many callers ask for one unseen domain, one after the other, the
/// authority signs once: the first lookup issues the leaf, each later one
/// finds it in the cache and returns it, and the count of signings ends as
/// after a single signing. Below its largest value that is one more.
pub proof fn lemma_many_lookups_sign_once(
    contents: Map<Seq<char>, LeafView>,
    signings: u64,
    root: Seq<u8>,
    domain: Seq<char>,
    now: u64,
    calls: nat,
)
    requires
        !contents.dom().contains(domain),
        calls >= 1,
    ensures
        contents_after_calls(contents, Some(root), domain, now, calls) == contents.insert(
            domain,
            issued_leaf(root, domain, now),
        ),
        lookup(contents, Some(root), domain, now) == Outcome::Issued(
            issued_leaf(root, domain, now),
        ),
        signings_after_calls(contents, signings, Some(root), domain, now, calls) == signings_after(
            signings,
            Outcome::Issued(issued_leaf(root, domain, now)),
        ),
        signings < u64::MAX ==> signings_after_calls(
            contents,
            signings,
            Some(root),
            domain,
            now,
            calls,
        ) == signings + 1,
        calls >= 2 ==> lookup(
            contents_after_calls(contents, Some(root), domain, now, (calls - 1) as nat),
            Some(root),
            domain,
            now,
        ) == Outcome::Hit(issued_leaf(root, domain, now)),
    decreases calls,
{
    reveal_with_fuel(contents_after_calls, 2);
    reveal_with_fuel(signings_after_calls, 2);
    if calls >= 2 {
        lemma_many_lookups_sign_once(contents, signings, root, domain, now, (calls - 1) as nat);
    }
}

/// Whether a leaf validates against a root's public certificate: that root
/// signed it, and its certificate carries its domain as subject.
pub open spec fn validates(leaf: LeafView, root: Seq<u8>) -> bool {
    leaf.signed_by == root && subject_of(leaf.certificate) == leaf.domain
}

/// The leaves that one root issues for two different domains both validate
/// against that root's public certificate, each carries its own domain as
/// subject, and their certificates differ.
pub proof fn lemma_issued_leaves_validate(
    root: Seq<u8>,
    first: Seq<char>,
    second: Seq<char>,
    now: u64,
    later: u64,
)
    requires
        first != second,
    ensures
        validates(issued_leaf(root, first, now), root),
        validates(issued_leaf(root, second, later), root),
        subject_of(issued_leaf(root, first, now).certificate) == first,
        subject_of(issued_leaf(root, second, later).certificate) == second,
        issued_leaf(root, first, now).certificate != issued_leaf(root, second, later).certificate,
{
    lemma_distinct_domains_distinct_certificates(first, second);
}

} // verus!
