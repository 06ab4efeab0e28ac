//! SHA-256 of contents that arrive block by block, rendered in lower-case hex.
use sha2::Digest;
use sha2::Sha256;
use vstd::prelude::*;

verus! {

/// Contents of this many bytes or more have no SHA-256: their length in bits
/// does not fit the 64 bits that the hash function gives it.
pub const HASH_LIMIT: u64 = 0x2000_0000_0000_0000;

/// `sha2::Sha256`, a hasher part of the way through its input.
#[verifier::external_type_specification]
#[verifier::external_body]
pub struct ExSha256(Sha256);

/// The bytes that a hasher has taken in so far.
pub uninterp spec fn taken_in(hasher: Sha256) -> Seq<u8>;

/// The SHA-256 of `bytes`, as `sha2` computes it.
pub uninterp spec fn sha256(bytes: Seq<u8>) -> Seq<u8>;

/// `Sha256::new`: the hasher has taken in nothing.
#[verifier::external_body]
fn sha256_new() -> (hasher: Sha256)
    ensures
        taken_in(hasher) == Seq::<u8>::empty(),
{
    Sha256::new()
}

/// `Sha256::update`: the hasher has taken in `data` after what it had.
#[verifier::external_body]
fn sha256_update(hasher: &mut Sha256, data: &[u8])
    requires
        taken_in(*old(hasher)).len() + data@.len() < HASH_LIMIT,
    ensures
        taken_in(*final(hasher)) == taken_in(*old(hasher)) + data@,
{
    hasher.update(data)
}

/// `Sha256::finalize`: the digest, 32 bytes, of everything taken in.
#[verifier::external_body]
fn sha256_finalize(hasher: Sha256) -> (digest: Vec<u8>)
    requires
        taken_in(hasher).len() < HASH_LIMIT,
    ensures
        digest@ == sha256(taken_in(hasher)),
        digest@.len() == 32,
{
    hasher.finalize().to_vec()
}

// ---------------------------------------------------------------------------
// Hex
// ---------------------------------------------------------------------------
/// The lower-case hex digit for `d`.
pub open spec fn hex_digit(d: nat) -> char {
    if d < 10 {
        ('0' as nat + d) as char
    } else {
        ('a' as nat + (d - 10)) as char
    }
}

/// Two hex digits per byte, the high half first.
pub open spec fn hex(bytes: Seq<u8>) -> Seq<char> {
    Seq::new(
        2 * bytes.len(),
        |i: int|
            if i % 2 == 0 {
                hex_digit((bytes[i / 2] / 16) as nat)
            } else {
                hex_digit((bytes[i / 2] % 16) as nat)
            },
    )
}

fn hex_char(d: u8) -> (c: char)
    requires
        d < 16,
    ensures
        c == hex_digit(d as nat),
{
    match d {
        0 => '0',
        1 => '1',
        2 => '2',
        3 => '3',
        4 => '4',
        5 => '5',
        6 => '6',
        7 => '7',
        8 => '8',
        9 => '9',
        10 => 'a',
        11 => 'b',
        12 => 'c',
        13 => 'd',
        14 => 'e',
        _ => 'f',
    }
}

/// Renders `bytes` in lower-case hex.
pub fn hex_of(bytes: &Vec<u8>) -> (s: String)
    ensures
        s@ == hex(bytes@),
{
    let mut s = String::new();
    let mut i: usize = 0;
    assert(s@ =~= hex(bytes@.take(0)));
    while i < bytes.len()
        invariant
            i <= bytes@.len(),
            s@ == hex(bytes@.take(i as int)),
        decreases bytes@.len() - i,
    {
        s.push(hex_char(bytes[i] / 16));
        s.push(hex_char(bytes[i] % 16));
        i += 1;
        assert(s@ =~= hex(bytes@.take(i as int)));
    }
    assert(bytes@.take(i as int) =~= bytes@);
    s
}

/// Hex loses nothing: equal renderings come from equal bytes.
pub proof fn hex_is_injective(a: Seq<u8>, b: Seq<u8>)
    requires
        hex(a) == hex(b),
    ensures
        a == b,
{
    assert(hex(a).len() == 2 * a.len());
    assert(hex(b).len() == 2 * b.len());
    assert forall|i: int| 0 <= i < a.len() implies a[i] == b[i] by {
        assert(hex(a)[2 * i] == hex(b)[2 * i]);
        assert(hex(a)[2 * i + 1] == hex(b)[2 * i + 1]);
        assert(hex(a)[2 * i] == hex_digit((a[i] / 16) as nat));
        assert(hex(b)[2 * i] == hex_digit((b[i] / 16) as nat));
        assert(hex(a)[2 * i + 1] == hex_digit((a[i] % 16) as nat));
        assert(hex(b)[2 * i + 1] == hex_digit((b[i] % 16) as nat));
    }
    assert(a =~= b);
}

// ---------------------------------------------------------------------------
// Contents
// ---------------------------------------------------------------------------
/// The hex SHA-256 by which contents are named and compared.
pub open spec fn content_sha(contents: Seq<u8>) -> Seq<char> {
    hex(sha256(contents))
}

/// Takes in contents block by block and names them by their SHA-256.
pub struct ContentHasher {
    inner: Sha256,
    total: u64,
}

impl View for ContentHasher {
    type V = Seq<u8>;

    /// The contents taken in so far.
    closed spec fn view(&self) -> Seq<u8> {
        taken_in(self.inner)
    }
}

impl ContentHasher {
    #[verifier::type_invariant]
    spec fn counts_its_bytes(self) -> bool {
        self.total == taken_in(self.inner).len() && self.total < HASH_LIMIT
    }

    /// A hasher that has taken in nothing.
    pub fn new() -> (hasher: Self)
        ensures
            hasher@ == Seq::<u8>::empty(),
    {
        ContentHasher { inner: sha256_new(), total: 0 }
    }

    /// Whether `len` more bytes stay under the limit of the hash function.
    pub fn has_room(&self, len: usize) -> (room: bool)
        ensures
            room <==> self@.len() + len < HASH_LIMIT,
    {
        proof {
            use_type_invariant(self);
        }
        (len as u64) < HASH_LIMIT - self.total
    }

    /// Takes in one more block.
    pub fn feed(self, block: &[u8]) -> (fed: Self)
        requires
            self@.len() + block@.len() < HASH_LIMIT,
        ensures
            fed@ == self@ + block@,
    {
        proof {
            use_type_invariant(&self);
        }
        let ContentHasher { inner, total } = self;
        let mut inner = inner;
        sha256_update(&mut inner, block);
        ContentHasher { inner, total: total + block.len() as u64 }
    }

    /// Names the contents taken in.
    pub fn finish(self) -> (sha: String)
        ensures
            sha@ == content_sha(self@),
            sha@.len() == 64,
    {
        proof {
            use_type_invariant(&self);
        }
        let digest = sha256_finalize(self.inner);
        hex_of(&digest)
    }
}

/// Names `contents` by their SHA-256.
pub fn sha_of(contents: &[u8]) -> (sha: String)
    requires
        contents@.len() < HASH_LIMIT,
    ensures
        sha@ == content_sha(contents@),
{
    let hasher = ContentHasher::new().feed(contents);
    assert(Seq::<u8>::empty() + contents@ =~= contents@);
    hasher.finish()
}

/// What comes next in hashing contents that are read block by block.
pub enum HashNext {
    /// Read the next block.
    More(ContentHasher),
    /// The contents have been read to the end.
    Done(String),
}

/// The step after a block was read, an empty one at the end of the contents.
pub open spec fn hashing_advances(so_far: Seq<u8>, block: Seq<u8>, next: HashNext) -> bool {
    if block.len() == 0 {
        next matches HashNext::Done(sha) && sha@ == content_sha(so_far) && sha@.len() == 64
    } else {
        next matches HashNext::More(hasher) && hasher@ == so_far + block
    }
}

impl ContentHasher {
    /// A block has been read, an empty one at the end of the contents.
    pub fn read(self, block: &[u8]) -> (next: HashNext)
        requires
            self@.len() + block@.len() < HASH_LIMIT,
        ensures
            hashing_advances(self@, block@, next),
    {
        if block.len() == 0 {
            HashNext::Done(self.finish())
        } else {
            HashNext::More(self.feed(block))
        }
    }
}

/// The contents that a row of blocks makes up.
pub open spec fn strung_together(blocks: Seq<Seq<u8>>) -> Seq<u8>
    decreases blocks.len(),
{
    if blocks.len() == 0 {
        Seq::empty()
    } else {
        strung_together(blocks.drop_last()) + blocks.last()
    }
}

/// The bytes of each block.
pub open spec fn block_bytes(blocks: Seq<Vec<u8>>) -> Seq<Seq<u8>> {
    blocks.map_values(|b: Vec<u8>| b@)
}

proof fn lemma_prefix_is_shorter(blocks: Seq<Seq<u8>>, k: int)
    requires
        0 <= k <= blocks.len(),
    ensures
        strung_together(blocks.take(k)).len() <= strung_together(blocks).len(),
    decreases blocks.len() - k,
{
    if k < blocks.len() {
        lemma_prefix_is_shorter(blocks, k + 1);
        assert(blocks.take(k + 1).drop_last() =~= blocks.take(k));
    } else {
        assert(blocks.take(k) =~= blocks);
    }
}

/// Names contents that are at hand as a row of blocks. The name depends on the
/// contents alone, not on how they are cut.
pub fn calculate_sha256(blocks: &Vec<Vec<u8>>) -> (sha: String)
    requires
        strung_together(block_bytes(blocks@)).len() < HASH_LIMIT,
    ensures
        sha@ == content_sha(strung_together(block_bytes(blocks@))),
{
    let ghost all = block_bytes(blocks@);
    let mut hasher = ContentHasher::new();
    let mut i: usize = 0;
    assert(all.take(0) =~= Seq::<Seq<u8>>::empty());
    while i < blocks.len()
        invariant
            i <= blocks@.len(),
            all == block_bytes(blocks@),
            strung_together(all).len() < HASH_LIMIT,
            hasher@ == strung_together(all.take(i as int)),
        decreases blocks@.len() - i,
    {
        proof {
            lemma_prefix_is_shorter(all, i + 1);
            assert(all.take(i + 1).drop_last() =~= all.take(i as int));
            assert(all.take(i + 1).last() == blocks@[i as int]@);
        }
        hasher = hasher.feed(blocks[i].as_slice());
        i += 1;
    }
    assert(all.take(i as int) =~= all);
    hasher.finish()
}

/// What a hex digit stands for.
pub open spec fn hex_value(c: char) -> int {
    if '0' <= c <= '9' {
        c as int - '0' as int
    } else {
        c as int - 'a' as int + 10
    }
}

/// Hex reads back as the bytes it was made of, two digits to the byte, the higher
/// one first, all of them digits or lower-case letters up to `f`.
pub proof fn hex_reads_back(bytes: Seq<u8>, i: int)
    requires
        0 <= i < bytes.len(),
    ensures
        hex(bytes).len() == 2 * bytes.len(),
        hex_value(hex(bytes)[2 * i]) * 16 + hex_value(hex(bytes)[2 * i + 1]) == bytes[i],
        '0' <= hex(bytes)[2 * i] <= '9' || 'a' <= hex(bytes)[2 * i] <= 'f',
        '0' <= hex(bytes)[2 * i + 1] <= '9' || 'a' <= hex(bytes)[2 * i + 1] <= 'f',
{
    assert(hex(bytes)[2 * i] == hex_digit((bytes[i] / 16) as nat));
    assert(hex(bytes)[2 * i + 1] == hex_digit((bytes[i] % 16) as nat));
}

/// Contents are named by the hex of their SHA-256, and blocks make up what they
/// make up in a row, however they are grouped.
pub proof fn blocks_make_up_their_row(a: Seq<Seq<u8>>, b: Seq<Seq<u8>>, block: Seq<u8>)
    ensures
        strung_together(Seq::<Seq<u8>>::empty()) == Seq::<u8>::empty(),
        strung_together(seq![block]) == block,
        strung_together(a + b) == strung_together(a) + strung_together(b),
        content_sha(block) == hex(sha256(block)),
    decreases b.len(),
{
    reveal_with_fuel(strung_together, 2);
    assert(seq![block].drop_last() =~= Seq::<Seq<u8>>::empty());
    assert(strung_together(seq![block]) =~= block);
    if b.len() == 0 {
        assert(a + b =~= a);
        assert(strung_together(a) + strung_together(b) =~= strung_together(a));
    } else {
        blocks_make_up_their_row(a, b.drop_last(), block);
        assert((a + b).drop_last() =~= a + b.drop_last());
        assert((a + b).last() == b.last());
        assert(strung_together(a + b) =~= strung_together(a) + strung_together(b));
    }
}

/// Contents that are read to their end, block by block, are named by the SHA-256
/// of all that was read.
pub proof fn what_was_read_is_what_is_hashed(
    so_far: Seq<u8>,
    block: Seq<u8>,
    more: HashNext,
    done: HashNext,
)
    requires
        block.len() > 0,
        hashing_advances(so_far, block, more),
        more matches HashNext::More(h) ==> hashing_advances(h@, Seq::<u8>::empty(), done),
    ensures
        more matches HashNext::More(h) && h@ == so_far + block,
        done matches HashNext::Done(sha) && sha@ == hex(sha256(so_far + block)),
{
}

} // verus!
