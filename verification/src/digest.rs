//! Content digests: an MD5 accumulator fed chunk by chunk, the lower-case
//! hexadecimal form under which a digest names a file, and the random names
//! of spool files, which are spelled the same way.

use vstd::prelude::*;

verus! {

/// A running MD5 computation, as the `md5` crate keeps it.
#[verifier::external_body]
pub struct Md5State {
    inner: md5::Md5,
}

/// The bytes that an accumulator has been fed so far, in order.
pub uninterp spec fn absorbed(h: Md5State) -> Seq<u8>;

/// The MD5 digest of a byte string.
pub uninterp spec fn md5_sum(data: Seq<u8>) -> Seq<u8>;

/// `md5::Md5::new` (the `Digest` constructor): a fresh accumulator, which has
/// been fed nothing.
#[verifier::external_body]
fn md5_start() -> (h: Md5State)
    ensures
        absorbed(h) == Seq::<u8>::empty(),
{
    Md5State { inner: md5::Digest::new() }
}

/// `Digest::update` on `md5::Md5`: feeds `data` after what was fed before.
#[verifier::external_body]
fn md5_update(h: &mut Md5State, data: &[u8])
    ensures
        absorbed(*final(h)) == absorbed(*old(h)) + data@,
{
    md5::Digest::update(&mut h.inner, data)
}

/// `Digest::finalize` on `md5::Md5`: the digest of everything fed, which is
/// always 16 bytes long.
#[verifier::external_body]
fn md5_finalize(h: Md5State) -> (out: Vec<u8>)
    ensures
        out@ == md5_sum(absorbed(h)),
        out@.len() == 16,
{
    md5::Digest::finalize(h.inner).to_vec()
}

/// The lower-case hexadecimal digit of a value below sixteen.
pub open spec fn hex_digit(nibble: int) -> char
    recommends
        0 <= nibble < 16,
{
    "0123456789abcdef"@[nibble]
}

/// The lower-case hexadecimal spelling of a byte string: two digits per byte,
/// high half first.
pub open spec fn hex_string(data: Seq<u8>) -> Seq<char> {
    Seq::new(
        2 * data.len(),
        |i: int| if i % 2 == 0 { hex_digit(data[i / 2] as int / 16) } else { hex_digit(data[i / 2] as int % 16) },
    )
}

/// `hex::encode`: the lower-case hexadecimal spelling of `data`.
#[verifier::external_body]
pub(crate) fn hex_encode(data: &[u8]) -> (out: String)
    ensures
        out@ == hex_string(data@),
{
    hex::encode(data)
}

/// `OsRng::fill_bytes` of `rand_core`, on a buffer of sixteen bytes: sixteen
/// bytes from the operating system's source of randomness. Nothing is claimed
/// of them but their number. The call panics where the system cannot supply
/// random bytes.
#[verifier::external_body]
fn random_bytes() -> (out: Vec<u8>)
    ensures
        out@.len() == 16,
{
    let mut out: [u8; 16] = [0u8; 16];
    argon2::password_hash::rand_core::RngCore::fill_bytes(&mut argon2::password_hash::rand_core::OsRng, &mut out);
    out.to_vec()
}

/// The name of a spool file made from the given random bytes.
pub fn temp_filename_from(random: &[u8]) -> (name: String)
    ensures
        name@ == hex_string(random@),
{
    hex_encode(random)
}

/// A fresh, unpredictable name for a spool file: 32 hexadecimal digits that
/// spell sixteen random bytes.
pub fn temp_filename() -> (name: String)
    ensures
        name@.len() == 32,
        exists|random: Seq<u8>| random.len() == 16 && name@ == hex_string(random),
{
    let random = random_bytes();
    temp_filename_from(random.as_slice())
}

/// The digest under which a byte string is known: the hexadecimal spelling
/// of its MD5 sum.
pub open spec fn digest_text(data: Seq<u8>) -> Seq<char> {
    hex_string(md5_sum(data))
}

/// The bytes of a stream that arrives as `chunks`: the chunks laid end to end.
pub open spec fn stream_bytes(chunks: Seq<Seq<u8>>) -> Seq<u8>
    decreases chunks.len(),
{
    if chunks.len() == 0 {
        Seq::empty()
    } else {
        stream_bytes(chunks.drop_last()) + chunks.last()
    }
}

/// The contents of a list of buffers.
pub open spec fn chunk_views(chunks: Seq<Vec<u8>>) -> Seq<Seq<u8>> {
    chunks.map_values(|c: Vec<u8>| c@)
}

/// The identity of a file's content: the hexadecimal spelling of its MD5
/// sum, 32 characters long.
pub struct ContentDigest {
    hex: String,
}

impl ContentDigest {
    #[verifier::type_invariant]
    spec fn well_formed(self) -> bool {
        self.hex@.len() == 32
    }

    /// The digest as text.
    pub closed spec fn text(&self) -> Seq<char> {
        self.hex@
    }

    /// The digest as text.
    pub fn as_str(&self) -> (s: &str)
        ensures
            s@ == self.text(),
            s@.len() == 32,
    {
        proof {
            use_type_invariant(self);
        }
        self.hex.as_str()
    }
}

/// A content digest in the making: it is fed the chunks of a stream in the
/// order of their arrival and yields the digest of all of them together.
pub struct StreamDigest {
    state: Md5State,
}

impl StreamDigest {
    /// The bytes fed so far.
    pub closed spec fn bytes(&self) -> Seq<u8> {
        absorbed(self.state)
    }

    /// A digest computation that has seen no bytes yet.
    pub fn new() -> (fresh: StreamDigest)
        ensures
            fresh.bytes() == Seq::<u8>::empty(),
    {
        StreamDigest { state: md5_start() }
    }

    /// Feeds the next chunk of the stream.
    pub fn update(&mut self, chunk: &[u8])
        ensures
            final(self).bytes() == old(self).bytes() + chunk@,
    {
        md5_update(&mut self.state, chunk);
    }

    /// Ends the stream and yields the digest of everything fed.
    pub fn finish(self) -> (digest: ContentDigest)
        ensures
            digest.text() == digest_text(self.bytes()),
    {
        let sum = md5_finalize(self.state);
        let hex = hex_encode(sum.as_slice());
        ContentDigest { hex }
    }
}

/// The digest of a stream that arrives in `chunks`, fed one chunk at a time.
pub fn digest_chunks(chunks: &Vec<Vec<u8>>) -> (digest: ContentDigest)
    ensures
        digest.text() == digest_text(stream_bytes(chunk_views(chunks@))),
{
    let mut running = StreamDigest::new();
    let mut i: usize = 0;
    while i < chunks.len()
        invariant
            i <= chunks.len(),
            running.bytes() == stream_bytes(chunk_views(chunks@.take(i as int))),
        decreases chunks.len() - i,
    {
        running.update(chunks[i].as_slice());
        proof {
            let before = chunk_views(chunks@.take(i as int));
            let after = chunk_views(chunks@.take(i + 1));
            assert(after.drop_last() =~= before);
            assert(after.last() == chunks@[i as int]@);
        }
        i += 1;
    }
    proof {
        assert(chunks@.take(i as int) =~= chunks@);
    }
    running.finish()
}

/// Laying chunks end to end is the same whether done at once or in two parts.
pub proof fn stream_bytes_of_concatenation(a: Seq<Seq<u8>>, b: Seq<Seq<u8>>)
    ensures
        stream_bytes(a + b) == stream_bytes(a) + stream_bytes(b),
    decreases b.len(),
{
    if b.len() == 0 {
        assert(a + b =~= a);
        assert(stream_bytes(a) + stream_bytes(b) =~= stream_bytes(a));
    } else {
        stream_bytes_of_concatenation(a, b.drop_last());
        assert((a + b).drop_last() =~= a + b.drop_last());
        assert((a + b).last() == b.last());
        assert(stream_bytes(a + b) =~= stream_bytes(a) + stream_bytes(b));
    }
}

/// A stream's digest depends on its bytes alone: two ways of cutting the same
/// bytes into chunks give the same digest.
pub proof fn digest_ignores_chunk_boundaries(a: Seq<Seq<u8>>, b: Seq<Seq<u8>>)
    requires
        stream_bytes(a) == stream_bytes(b),
    ensures
        digest_text(stream_bytes(a)) == digest_text(stream_bytes(b)),
{
}

/// Cutting one chunk in two at any place leaves the stream's digest as it was.
pub proof fn digest_survives_a_cut(chunks: Seq<Seq<u8>>, at: int, cut: int)
    requires
        0 <= at < chunks.len(),
        0 <= cut <= chunks[at].len(),
    ensures
        digest_text(stream_bytes(chunks)) == digest_text(
            stream_bytes(
                chunks.take(at) + seq![chunks[at].take(cut), chunks[at].skip(cut)] + chunks.skip(at + 1),
            ),
        ),
{
    let head = chunks.take(at);
    let tail = chunks.skip(at + 1);
    let whole = seq![chunks[at]];
    let halves = seq![chunks[at].take(cut), chunks[at].skip(cut)];
    assert(chunks =~= head + whole + tail);
    stream_bytes_of_concatenation(head + whole, tail);
    stream_bytes_of_concatenation(head, whole);
    stream_bytes_of_concatenation(head + halves, tail);
    stream_bytes_of_concatenation(head, halves);
    assert(whole.drop_last() =~= Seq::<Seq<u8>>::empty());
    assert(stream_bytes(whole) =~= chunks[at]) by {
        assert(stream_bytes(whole.drop_last()) =~= Seq::<u8>::empty());
    }
    assert(halves.drop_last() =~= seq![chunks[at].take(cut)]);
    assert(halves.drop_last().drop_last() =~= Seq::<Seq<u8>>::empty());
    assert(stream_bytes(halves) =~= chunks[at]) by {
        assert(stream_bytes(halves.drop_last().drop_last()) =~= Seq::<u8>::empty());
        assert(stream_bytes(halves.drop_last()) =~= chunks[at].take(cut));
        assert(chunks[at].take(cut) + chunks[at].skip(cut) =~= chunks[at]);
    }
}

} // verus!
