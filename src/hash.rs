use vstd::prelude::*;
use sha1::Digest;

verus! {

/// Computes the content digest of a source file from its bytes, fed in
/// chunks of any size, so that a file of any length is hashed in bounded
/// memory. It holds a SHA-1 hasher of the sha1 crate, whose type Verus cannot
/// declare.
#[verifier::external_body]
pub struct ContentHasher {
    inner: sha1::Sha1,
}

/// The bytes that a content hasher has absorbed so far.
pub uninterp spec fn absorbed(h: ContentHasher) -> Seq<u8>;

/// The lowercase hexadecimal SHA-1 digest of a byte sequence.
pub uninterp spec fn sha1_hex(bytes: Seq<u8>) -> Seq<char>;

impl View for ContentHasher {
    type V = Seq<u8>;

    /// The bytes fed so far.
    open spec fn view(&self) -> Seq<u8> {
        absorbed(*self)
    }
}

/// Relies on `Digest::new` of sha1: a fresh hasher has absorbed nothing.
#[verifier::external_body]
fn sha1_new() -> (r: ContentHasher)
    ensures
        absorbed(r) == Seq::<u8>::empty(),
{
    ContentHasher { inner: sha1::Sha1::new() }
}

/// Relies on `Digest::update` of sha1: the chunk is appended to what the
/// hasher has absorbed.
#[verifier::external_body]
fn sha1_update(h: &mut ContentHasher, chunk: &[u8])
    ensures
        absorbed(*final(h)) == absorbed(*old(h)) + chunk@,
{
    h.inner.update(chunk);
}

/// Relies on `Digest::finalize` of sha1, printed with `LowerHex`: the digest
/// of everything absorbed, as lowercase hexadecimal text.
#[verifier::external_body]
fn sha1_finalize_hex(h: ContentHasher) -> (r: String)
    ensures
        r@ == sha1_hex(absorbed(h)),
{
    format!("{:x}", h.inner.finalize())
}

impl ContentHasher {
    pub fn new() -> (r: ContentHasher)
        ensures
            r@ == Seq::<u8>::empty(),
    {
        sha1_new()
    }

    /// Feeds the next chunk of content.
    pub fn update(&mut self, chunk: &[u8])
        ensures
            final(self)@ == old(self)@ + chunk@,
    {
        sha1_update(self, chunk);
    }

    /// The digest of all the content fed.
    pub fn finish(self) -> (r: String)
        ensures
            r@ == sha1_hex(self@),
    {
        sha1_finalize_hex(self)
    }
}

/// The content digest of `data`.
pub fn content_digest(data: &[u8]) -> (r: String)
    ensures
        r@ == sha1_hex(data@),
{
    let mut h = ContentHasher::new();
    h.update(data);
    proof {
        assert(Seq::<u8>::empty() + data@ =~= data@);
    }
    h.finish()
}

/// Whether the stored digest record matches the current digest. An absent
/// record never matches; the comparison is exact, with no normalisation.
pub fn is_hash_same(stored: &Option<String>, current: &String) -> (r: bool)
    ensures
        r == (stored.is_some() && stored.unwrap()@ == current@),
{
    match stored {
        Some(s) => *s == *current,
        None => false,
    }
}

/// Hashing is deterministic: equal content gives equal digests.
pub proof fn lemma_digest_deterministic(a: Seq<u8>, b: Seq<u8>)
    requires
        a == b,
    ensures
        sha1_hex(a) == sha1_hex(b),
{
}

/// The digest depends on the content alone, not on how it was cut into
/// chunks: two chunkings of the same content give the same digest.
pub proof fn lemma_digest_chunking(first: Seq<Seq<u8>>, second: Seq<Seq<u8>>)
    requires
        first.flatten() == second.flatten(),
    ensures
        sha1_hex(first.flatten()) == sha1_hex(second.flatten()),
{
}

} // verus!
