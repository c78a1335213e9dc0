use vstd::prelude::*;

use crate::hex_bytes::{hex_decoding, hex_encoding, is_hex_text, HexBytes};

verus! {

#[verifier::external_type_specification]
#[verifier::external_body]
pub struct ExBlock(bitcoin::Block);

#[verifier::external_type_specification]
#[verifier::external_body]
pub struct ExHeader(bitcoin::block::Header);

#[verifier::external_type_specification]
#[verifier::external_body]
pub struct ExEncodeError(bitcoin::consensus::encode::Error);

/// The consensus encoding of a block: its header, then its transactions.
pub uninterp spec fn encoding_of(b: bitcoin::Block) -> Seq<u8>;

/// The 80-byte consensus encoding of a block header.
pub uninterp spec fn header_encoding_of(h: bitcoin::block::Header) -> Seq<u8>;

/// The block hash of an encoded header: its double SHA-256, in the byte order
/// of the digest.
pub uninterp spec fn header_hash(header_bytes: Seq<u8>) -> Seq<u8>;

/// The weight of a block, in weight units.
pub uninterp spec fn weight_of(b: bitcoin::Block) -> u64;

/// The length of every witness item of every input of every transaction of a
/// block, in block order.
pub uninterp spec fn witness_lens_of(b: bitcoin::Block) -> Seq<usize>;

/// The ids of a block's transactions as the node prints them, in block order.
pub uninterp spec fn txids_of(b: bitcoin::Block) -> Seq<Seq<char>>;

/// The value of four bytes read little-endian from `at`.
pub open spec fn le_u32(s: Seq<u8>, at: int) -> int {
    s[at] + 256 * s[at + 1] + 65536 * s[at + 2] + 16777216 * s[at + 3]
}

/// The fields of a header as its 80 encoded bytes hold them: the version, the
/// previous hash, the merkle root, the time, the bits and the nonce, in that
/// order, integers little-endian and hashes as they stand.
pub open spec fn header_fields_match(f: HeaderFields, s: Seq<u8>) -> bool {
    &&& s.len() == 80
    &&& le_u32(s, 0) == (if f.version >= 0 {
        f.version as int
    } else {
        f.version as int + 0x1_0000_0000
    })
    &&& f.prev_blockhash@ == s.subrange(4, 36)
    &&& f.merkle_root@ == s.subrange(36, 68)
    &&& f.time as int == le_u32(s, 68)
    &&& f.bits as int == le_u32(s, 72)
    &&& f.nonce as int == le_u32(s, 76)
}

/// Relies on the public `header` field of bitcoin's Block: a block's encoding
/// starts with its header's.
#[verifier::external_body]
fn block_header(b: &bitcoin::Block) -> (r: bitcoin::block::Header)
    ensures
        header_encoding_of(r) == encoding_of(*b).subrange(0, 80),
{
    b.header
}

/// Relies on Block::block_hash: the double SHA-256 of the encoded header.
#[verifier::external_body]
fn block_hash_bytes(b: &bitcoin::Block) -> (r: [u8; 32])
    ensures
        r@ == header_hash(encoding_of(*b).subrange(0, 80)),
{
    bitcoin::hashes::Hash::to_byte_array(b.block_hash())
}

/// Relies on the public fields of bitcoin's block header, copied out one by
/// one; the header encodes them in this order, integers little-endian.
#[verifier::external_body]
fn header_fields(h: &bitcoin::block::Header) -> (r: HeaderFields)
    ensures
        header_fields_match(r, header_encoding_of(*h)),
{
    HeaderFields {
        version: h.version.to_consensus(),
        prev_blockhash: bitcoin::hashes::Hash::to_byte_array(h.prev_blockhash),
        merkle_root: bitcoin::hashes::Hash::to_byte_array(h.merkle_root),
        time: h.time,
        bits: h.bits.to_consensus(),
        nonce: h.nonce,
    }
}

/// Relies on Block::weight, in weight units.
#[verifier::external_body]
fn block_weight(b: &bitcoin::Block) -> (r: u64)
    ensures
        r == weight_of(*b),
{
    b.weight().to_wu()
}

/// Relies on Witness::iter: the length of every witness item of every input of
/// every transaction, in block order. Every item is written out whole in the
/// block's encoding, so together they are no longer than it.
#[verifier::external_body]
fn witness_item_lens(b: &bitcoin::Block) -> (r: Vec<usize>)
    ensures
        r@ == witness_lens_of(*b),
        total(r@) <= encoding_of(*b).len(),
{
    b.txdata.iter().flat_map(|tx| tx.input.iter()).flat_map(|i| i.witness.iter()).map(
        |w| w.len(),
    ).collect()
}

/// Relies on Transaction::txid and its Display: each id as the node prints it.
#[verifier::external_body]
fn block_txids(b: &bitcoin::Block) -> (r: Vec<String>)
    ensures
        r@.map_values(|t: String| t@) == txids_of(*b),
{
    b.txdata.iter().map(|tx| tx.txid().to_string()).collect()
}

/// Relies on bitcoin::consensus::serialize: the block's consensus encoding.
#[verifier::external_body]
fn encode_block(b: &bitcoin::Block) -> (r: Vec<u8>)
    ensures
        r@ == encoding_of(*b),
{
    bitcoin::consensus::serialize(b)
}

/// Relies on bitcoin::consensus::deserialize: a header takes exactly 80 bytes,
/// any 80 bytes read as one, and the whole input must be used.
#[verifier::external_body]
fn decode_header_bytes(data: &[u8]) -> (r: Result<
    bitcoin::block::Header,
    bitcoin::consensus::encode::Error,
>)
    ensures
        r is Ok <==> data@.len() == 80,
        r matches Ok(h) ==> header_encoding_of(h) == data@,
{
    bitcoin::consensus::deserialize(data)
}

/// The fields of a block header, as plain values.
#[derive(Clone, Copy, Debug, PartialEq, Eq)]
pub struct HeaderFields {
    pub version: i32,
    pub prev_blockhash: [u8; 32],
    pub merkle_root: [u8; 32],
    pub time: u32,
    pub bits: u32,
    pub nonce: u32,
}

/// What the fetcher reads of a block that a peer sent.
#[derive(Clone, Copy, Debug)]
pub struct FetchedBlock {
    pub hash: [u8; 32],
    pub header: HeaderFields,
}

impl FetchedBlock {
    /// The hash and header fields of a block.
    pub fn of(block: &bitcoin::Block) -> (r: FetchedBlock)
        ensures
            r.hash@ == header_hash(encoding_of(*block).subrange(0, 80)),
            header_fields_match(r.header, encoding_of(*block).subrange(0, 80)),
    {
        FetchedBlock { hash: block_hash_bytes(block), header: header_fields(&block_header(block)) }
    }
}

fn same_bytes(a: &[u8; 32], b: &[u8; 32]) -> (r: bool)
    ensures
        r == (a@ == b@),
{
    let mut i: usize = 0;
    while i < 32
        invariant
            i <= 32,
            a@.len() == 32,
            b@.len() == 32,
            forall|j: int| 0 <= j < i ==> a@[j] == b@[j],
        decreases 32 - i,
    {
        if a[i] != b[i] {
            return false;
        }
        i = i + 1;
    }
    assert(a@ =~= b@);
    true
}

/// Two headers agree on every field.
pub open spec fn same_header(a: HeaderFields, b: HeaderFields) -> bool {
    &&& a.version == b.version
    &&& a.prev_blockhash@ == b.prev_blockhash@
    &&& a.merkle_root@ == b.merkle_root@
    &&& a.time == b.time
    &&& a.bits == b.bits
    &&& a.nonce == b.nonce
}

/// A block from a peer is kept only if its hash is the one asked for and its
/// header is the node's header for that hash.
pub open spec fn block_acceptable(
    fetched: FetchedBlock,
    requested: [u8; 32],
    authoritative: HeaderFields,
) -> bool {
    fetched.hash@ == requested@ && same_header(fetched.header, authoritative)
}

impl HeaderFields {
    pub fn matches(&self, other: &HeaderFields) -> (r: bool)
        ensures
            r == same_header(*self, *other),
    {
        self.version == other.version && same_bytes(&self.prev_blockhash, &other.prev_blockhash)
            && same_bytes(&self.merkle_root, &other.merkle_root) && self.time == other.time
            && self.bits == other.bits && self.nonce == other.nonce
    }
}

impl FetchedBlock {
    /// Checks a peer's block against the requested hash and the node's header.
    pub fn is_acceptable(&self, requested: &[u8; 32], authoritative: &HeaderFields) -> (r: bool)
        ensures
            r == block_acceptable(*self, *requested, *authoritative),
    {
        same_bytes(&self.hash, requested) && self.header.matches(authoritative)
    }
}

/// The sum of a sequence of lengths.
pub open spec fn total(s: Seq<usize>) -> int
    decreases s.len(),
{
    if s.len() == 0 {
        0
    } else {
        total(s.drop_last()) + s.last()
    }
}

pub proof fn lemma_total_nonnegative(s: Seq<usize>)
    ensures
        total(s) >= 0,
    decreases s.len(),
{
    if s.len() > 0 {
        lemma_total_nonnegative(s.drop_last());
    }
}

/// The number of witness bytes, if it fits in a `usize`.
pub fn witness_total(lens: &Vec<usize>) -> (r: Option<usize>)
    ensures
        r is Some <==> total(lens@) <= usize::MAX,
        r matches Some(t) ==> t == total(lens@),
{
    let mut sum: usize = 0;
    let mut i: usize = 0;
    while i < lens.len()
        invariant
            i <= lens@.len(),
            sum == total(lens@.subrange(0, i as int)),
        decreases lens@.len() - i,
    {
        assert(lens@.subrange(0, i + 1).drop_last() =~= lens@.subrange(0, i as int));
        if sum > usize::MAX - lens[i] {
            proof {
                lemma_total_prefix_grows(lens@, i as int + 1);
            }
            return None;
        }
        sum = sum + lens[i];
        i = i + 1;
    }
    assert(lens@.subrange(0, i as int) =~= lens@);
    Some(sum)
}

/// A prefix never sums to more than the whole.
proof fn lemma_total_prefix_grows(s: Seq<usize>, k: int)
    requires
        0 <= k <= s.len(),
    ensures
        total(s.subrange(0, k)) <= total(s),
    decreases s.len() - k,
{
    if k < s.len() {
        lemma_total_prefix_grows(s, k + 1);
        assert(s.subrange(0, k + 1).drop_last() =~= s.subrange(0, k));
    } else {
        assert(s.subrange(0, k) =~= s);
    }
}

/// The figures for a block of `size` bytes, weighing `weight`, whose witness
/// items have the lengths `lens`; none where the witness bytes exceed the size.
pub open spec fn stats_of(size: int, weight: u64, lens: Seq<usize>) -> Option<BlockStats> {
    if 0 <= total(lens) <= size <= usize::MAX {
        Some(
            BlockStats {
                size: size as usize,
                strippedsize: if total(lens) > 0 {
                    Some((size - total(lens)) as usize)
                } else {
                    None
                },
                weight,
            },
        )
    } else {
        None
    }
}

/// Size figures of a block, as `getblock` reports them.
#[derive(Clone, Copy, Debug, PartialEq, Eq)]
pub struct BlockStats {
    pub size: usize,
    /// Present only when the block holds witness data.
    pub strippedsize: Option<usize>,
    pub weight: u64,
}

impl BlockStats {
    /// The figures for a block of `size` bytes, weighing `weight`, whose
    /// witness items have the given lengths; none where the witness bytes
    /// would exceed the size.
    pub fn compute(size: usize, weight: u64, witness_lens: &Vec<usize>) -> (r: Option<BlockStats>)
        ensures
            r == stats_of(size as int, weight, witness_lens@),
            r is Some <==> total(witness_lens@) <= size,
            r matches Some(s) ==> {
                &&& s.size == size
                &&& s.weight == weight
                &&& (s.strippedsize is Some <==> total(witness_lens@) > 0)
                &&& (s.strippedsize matches Some(st) ==> size - st == total(witness_lens@))
            },
    {
        proof {
            lemma_total_nonnegative(witness_lens@);
        }
        match witness_total(witness_lens) {
            None => None,
            Some(w) => {
                if w > size {
                    None
                } else {
                    let strippedsize = if w > 0 {
                        Some(size - w)
                    } else {
                        None
                    };
                    Some(BlockStats { size, strippedsize, weight })
                }
            },
        }
    }
}

impl BlockStats {
    /// The figures for a block whose witness bytes fit in its size.
    pub fn of_fitting(size: usize, weight: u64, witness_lens: &Vec<usize>) -> (r: BlockStats)
        requires
            total(witness_lens@) <= size,
        ensures
            Some(r) == stats_of(size as int, weight, witness_lens@),
    {
        proof {
            lemma_total_nonnegative(witness_lens@);
        }
        let mut sum: usize = 0;
        let mut i: usize = 0;
        while i < witness_lens.len()
            invariant
                i <= witness_lens@.len(),
                total(witness_lens@) <= size,
                sum == total(witness_lens@.subrange(0, i as int)),
            decreases witness_lens@.len() - i,
        {
            assert(witness_lens@.subrange(0, i + 1).drop_last() =~= witness_lens@.subrange(
                0,
                i as int,
            ));
            proof {
                lemma_total_prefix_grows(witness_lens@, i as int + 1);
            }
            sum = sum + witness_lens[i];
            i = i + 1;
        }
        assert(witness_lens@.subrange(0, i as int) =~= witness_lens@);
        let strippedsize = if sum > 0 {
            Some(size - sum)
        } else {
            None
        };
        BlockStats { size, strippedsize, weight }
    }
}

/// The `getblock` answer at verbosity 0: the block's encoding in hexadecimal.
pub fn hex_result(encoded: Vec<u8>) -> (r: String)
    ensures
        r@ == hex_encoding(encoded@),
{
    HexBytes(encoded).to_hex()
}

/// The figures and transaction ids of a block.
#[derive(Clone, Debug)]
pub struct BlockSummary {
    pub stats: BlockStats,
    pub txids: Vec<String>,
}

/// The size figures of a block, its size being the length of its encoding,
/// and its transaction ids.
pub fn summarize(block: &bitcoin::Block) -> (r: BlockSummary)
    ensures
        total(witness_lens_of(*block)) <= encoding_of(*block).len(),
        Some(r.stats) == stats_of(
            encoding_of(*block).len() as int,
            weight_of(*block),
            witness_lens_of(*block),
        ),
        r.txids@.map_values(|t: String| t@) == txids_of(*block),
{
    let size = encode_block(block).len();
    let weight = block_weight(block);
    let lens = witness_item_lens(block);
    BlockSummary { stats: BlockStats::of_fitting(size, weight, &lens), txids: block_txids(block) }
}

/// The consensus encoding of a block.
pub fn consensus_bytes(block: &bitcoin::Block) -> (r: Vec<u8>)
    ensures
        r@ == encoding_of(*block),
{
    encode_block(block)
}

impl HeaderFields {
    /// The fields of a header that the node sent as hexadecimal text, as
    /// `getblockheader` does when asked for the raw form; none where the text
    /// is not hexadecimal or does not hold exactly one header.
    pub fn from_hex(text: &str) -> (r: Option<HeaderFields>)
        ensures
            r is Some <==> is_hex_text(text@) && hex_decoding(text@).len() == 80,
            r matches Some(f) ==> header_fields_match(f, hex_decoding(text@)),
    {
        match HexBytes::from_hex(text) {
            Err(_) => None,
            Ok(bytes) => match decode_header_bytes(bytes.0.as_slice()) {
                Ok(h) => Some(header_fields(&h)),
                Err(_) => None,
            },
        }
    }
}

} // verus!
