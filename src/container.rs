use std::cmp::Ordering;
use vstd::prelude::*;
use vstd::std_specs::cmp::{PartialEqSpec, PartialOrdSpec};
use vstd::utf8::encode_utf8;

verus! {

broadcast use vstd::utf8::encode_utf8_decode_utf8;

/// Declares oci-spec's `runtime::Spec`, the parsed `config.json` of a bundle,
/// so that descriptors can hold one. Nothing is assumed of its contents: it
/// is carried through as an opaque value.
#[verifier::external_type_specification]
#[verifier::external_body]
pub struct ExSpec(oci_spec::runtime::Spec);

/// Lexicographic order of two byte sequences, the order of `str` in Rust.
pub open spec fn lex_cmp(a: Seq<u8>, b: Seq<u8>) -> Ordering
    decreases a.len(),
{
    if a.len() == 0 {
        if b.len() == 0 {
            Ordering::Equal
        } else {
            Ordering::Less
        }
    } else if b.len() == 0 {
        Ordering::Greater
    } else if a[0] < b[0] {
        Ordering::Less
    } else if a[0] > b[0] {
        Ordering::Greater
    } else {
        lex_cmp(a.drop_first(), b.drop_first())
    }
}

/// The order of two identifiers: that of their UTF-8 bytes.
pub open spec fn id_order(a: Seq<char>, b: Seq<char>) -> Ordering {
    lex_cmp(encode_utf8(a), encode_utf8(b))
}

proof fn lemma_lex_cmp_equal(a: Seq<u8>, b: Seq<u8>)
    ensures
        (lex_cmp(a, b) == Ordering::Equal) <==> (a == b),
    decreases a.len(),
{
    if a.len() == 0 && b.len() == 0 {
        assert(a =~= b);
    } else if a.len() > 0 && b.len() > 0 && a[0] == b[0] {
        lemma_lex_cmp_equal(a.drop_first(), b.drop_first());
        if a.drop_first() == b.drop_first() {
            assert(a =~= seq![a[0]] + a.drop_first());
            assert(b =~= seq![b[0]] + b.drop_first());
        }
    }
}

proof fn lemma_lex_cmp_skip(a: Seq<u8>, b: Seq<u8>, i: int)
    requires
        0 <= i < a.len(),
        i < b.len(),
        a[i] == b[i],
    ensures
        lex_cmp(a.skip(i), b.skip(i)) == lex_cmp(a.skip(i + 1), b.skip(i + 1)),
{
    assert(a.skip(i).drop_first() =~= a.skip(i + 1));
    assert(b.skip(i).drop_first() =~= b.skip(i + 1));
}

/// Two identifiers are in the order `Equal` exactly when they are the same.
pub proof fn lemma_id_order_equal(a: Seq<char>, b: Seq<char>)
    ensures
        (id_order(a, b) == Ordering::Equal) <==> (a == b),
{
    lemma_lex_cmp_equal(encode_utf8(a), encode_utf8(b));
    if encode_utf8(a) == encode_utf8(b) {
        assert(vstd::utf8::decode_utf8(encode_utf8(a)) == a);
        assert(vstd::utf8::decode_utf8(encode_utf8(b)) == b);
    }
}

proof fn lemma_lex_cmp_flip(a: Seq<u8>, b: Seq<u8>)
    ensures
        (lex_cmp(a, b) == Ordering::Less) <==> (lex_cmp(b, a) == Ordering::Greater),
    decreases a.len(),
{
    if a.len() > 0 && b.len() > 0 && a[0] == b[0] {
        lemma_lex_cmp_flip(a.drop_first(), b.drop_first());
    }
}

/// Compares two strings byte by byte.
fn compare_str(a: &str, b: &str) -> (r: Ordering)
    ensures
        r == id_order(a@, b@),
{
    let x = a.as_bytes();
    let y = b.as_bytes();
    let mut i: usize = 0;
    assert(x@.skip(0) =~= x@);
    assert(y@.skip(0) =~= y@);
    while i < x.len() && i < y.len()
        invariant
            x@ == encode_utf8(a@),
            y@ == encode_utf8(b@),
            i <= x@.len(),
            i <= y@.len(),
            lex_cmp(x@, y@) == lex_cmp(x@.skip(i as int), y@.skip(i as int)),
        decreases x@.len() - i,
    {
        if x[i] < y[i] {
            return Ordering::Less;
        }
        if x[i] > y[i] {
            return Ordering::Greater;
        }
        proof {
            lemma_lex_cmp_skip(x@, y@, i as int);
        }
        i = i + 1;
    }
    if x.len() == y.len() {
        Ordering::Equal
    } else if i == x.len() {
        Ordering::Less
    } else {
        Ordering::Greater
    }
}

/// A general OCI container: its identity, its bundle and its runtime
/// configuration.
///
/// Two containers are the same entity when their identifiers are equal,
/// whatever their bundle and configuration; they are ordered by identifier.
pub struct OCIContainer {
    /// Unique identifier of the container.
    id: String,
    /// Absolute, canonical path of the bundle directory.
    bundle: String,
    /// OCI runtime specification of the container.
    spec: oci_spec::runtime::Spec,
}

impl OCIContainer {
    /// The identifier, as characters.
    pub closed spec fn id_view(&self) -> Seq<char> {
        self.id@
    }

    /// The bundle path, as characters.
    pub closed spec fn bundle_view(&self) -> Seq<char> {
        self.bundle@
    }

    /// The runtime specification held.
    pub closed spec fn spec_view(&self) -> oci_spec::runtime::Spec {
        self.spec
    }

    /// Builds a descriptor from a bundle path that is already canonical, an
    /// identifier and the runtime specification loaded from the bundle.
    pub fn new(bundle: String, id: String, spec: oci_spec::runtime::Spec) -> (r: Self)
        ensures
            r.id_view() == id@,
            r.bundle_view() == bundle@,
            r.spec_view() == spec,
    {
        OCIContainer { id, bundle, spec }
    }

    /// Unique identifier of the container.
    pub fn id(&self) -> (r: &String)
        ensures
            r@ == self.id_view(),
    {
        &self.id
    }

    /// Canonical path of the bundle directory.
    pub fn bundle(&self) -> (r: &String)
        ensures
            r@ == self.bundle_view(),
    {
        &self.bundle
    }

    /// OCI runtime specification of the container.
    pub fn spec(&self) -> (r: &oci_spec::runtime::Spec)
        ensures
            *r == self.spec_view(),
    {
        &self.spec
    }

    /// Takes the descriptor apart into bundle, identifier and specification.
    pub fn into_parts(self) -> (r: (String, String, oci_spec::runtime::Spec))
        ensures
            r.0@ == self.bundle_view(),
            r.1@ == self.id_view(),
            r.2 == self.spec_view(),
    {
        (self.bundle, self.id, self.spec)
    }

    /// Orders two containers by identifier.
    pub fn cmp(&self, other: &Self) -> (r: Ordering)
        ensures
            r == id_order(self.id_view(), other.id_view()),
    {
        compare_str(self.id.as_str(), other.id.as_str())
    }
}

impl PartialEq for OCIContainer {
    fn eq(&self, other: &Self) -> (r: bool) {
        self.id == other.id
    }
}

impl vstd::std_specs::cmp::PartialEqSpecImpl for OCIContainer {
    open spec fn obeys_eq_spec() -> bool {
        true
    }

    open spec fn eq_spec(&self, other: &Self) -> bool {
        self.id_view() == other.id_view()
    }
}

impl Eq for OCIContainer {
}

impl PartialOrd for OCIContainer {
    fn partial_cmp(&self, other: &Self) -> (r: Option<Ordering>) {
        Some(self.cmp(other))
    }
}

impl vstd::std_specs::cmp::PartialOrdSpecImpl for OCIContainer {
    open spec fn obeys_partial_cmp_spec() -> bool {
        true
    }

    open spec fn partial_cmp_spec(&self, other: &Self) -> Option<Ordering> {
        Some(id_order(self.id_view(), other.id_view()))
    }
}

/// Equality of containers is equality of identifiers, whatever the bundles
/// and specifications; containers with different identifiers are unequal and
/// ordered as their identifiers are, one before the other exactly when the
/// other comes after it.
pub proof fn lemma_identity_order(a: OCIContainer, b: OCIContainer)
    ensures
        a.eq_spec(&b) <==> a.id_view() == b.id_view(),
        a.partial_cmp_spec(&b) == Some(id_order(a.id_view(), b.id_view())),
        a.id_view() != b.id_view() ==> !a.eq_spec(&b) && id_order(a.id_view(), b.id_view())
            != Ordering::Equal,
        (id_order(a.id_view(), b.id_view()) == Ordering::Less) <==> (id_order(
            b.id_view(),
            a.id_view(),
        ) == Ordering::Greater),
{
    lemma_id_order_equal(a.id_view(), b.id_view());
    lemma_lex_cmp_flip(encode_utf8(a.id_view()), encode_utf8(b.id_view()));
}

} // verus!
