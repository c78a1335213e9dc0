use vstd::prelude::*;

use crate::block::{
    consensus_bytes, encoding_of, hex_result, stats_of, summarize, total, txids_of, weight_of,
    witness_lens_of, lemma_total_nonnegative, BlockStats,
};
use crate::hex_bytes::{hex_decoding, hex_encoding, is_hex_text, lemma_hex_round_trip};
use crate::router::Verbosity;

verus! {

/// The `getblock` answer for a fetched block, before the node's header fields
/// and, at the highest level, the decoded transactions are added to it.
#[derive(Clone, Debug)]
pub enum BlockAnswer {
    /// Verbosity 0: the encoded block in hexadecimal.
    Hex(String),
    /// Verbosity 1: the size figures and the transaction ids in block order.
    Summary { stats: BlockStats, txids: Vec<String> },
    /// Verbosity 2: the size figures; each transaction is expanded beside them.
    Full { stats: BlockStats },
}

/// The shape that a verbosity level asks for.
pub open spec fn answer_fits(v: Verbosity, a: BlockAnswer) -> bool {
    match (v, a) {
        (Verbosity::Hex, BlockAnswer::Hex(_)) => true,
        (Verbosity::Summary, BlockAnswer::Summary { .. }) => true,
        (Verbosity::Full, BlockAnswer::Full { .. }) => true,
        _ => false,
    }
}

/// The figures that a summary or full answer reports for a block.
pub open spec fn block_stats_of(block: bitcoin::Block) -> Option<BlockStats> {
    stats_of(encoding_of(block).len() as int, weight_of(block), witness_lens_of(block))
}

/// What an answer holds, in terms of the block it is for.
pub open spec fn answer_holds(a: BlockAnswer, block: bitcoin::Block) -> bool {
    match a {
        BlockAnswer::Hex(t) => t@ == hex_encoding(encoding_of(block)),
        BlockAnswer::Summary { stats, txids } => Some(stats) == block_stats_of(block)
            && txids@.map_values(|t: String| t@) == txids_of(block),
        BlockAnswer::Full { stats } => Some(stats) == block_stats_of(block),
    }
}

/// Shapes the answer to `getblock` for a block that a peer delivered: at
/// level 0 the hexadecimal text of its encoding; above, its size (the length
/// of its encoding), weight and stripped size, and at level 1 its txids in
/// block order.
pub fn answer_block(verbosity: Verbosity, block: &bitcoin::Block) -> (r: BlockAnswer)
    ensures
        answer_fits(verbosity, r),
        answer_holds(r, *block),
{
    match verbosity {
        Verbosity::Hex => BlockAnswer::Hex(hex_result(consensus_bytes(block))),
        Verbosity::Summary => {
            let s = summarize(block);
            BlockAnswer::Summary { stats: s.stats, txids: s.txids }
        },
        Verbosity::Full => BlockAnswer::Full { stats: summarize(block).stats },
    }
}

/// The figures of a block whose witness bytes fit in its encoding, as
/// `summarize` shows they do for every block it reads: its size is the
/// encoding's length, the stripped size is reported exactly when there are
/// witness bytes, and then size minus stripped size is their number.
pub proof fn lemma_stripped_size_reports_witness(block: bitcoin::Block)
    requires
        total(witness_lens_of(block)) <= encoding_of(block).len() <= usize::MAX,
    ensures
        block_stats_of(block) matches Some(s) && s.size == encoding_of(block).len() && (
        s.strippedsize is Some <==> total(witness_lens_of(block)) > 0) && (s.strippedsize matches Some(
            st,
        ) ==> s.size - st == total(witness_lens_of(block))),
{
    lemma_total_nonnegative(witness_lens_of(block));
}

/// The level-0 answer is hexadecimal text that decodes to exactly the block's
/// encoding.
pub proof fn lemma_hex_answer_decodes(block: bitcoin::Block)
    ensures
        is_hex_text(hex_encoding(encoding_of(block))),
        hex_decoding(hex_encoding(encoding_of(block))) == encoding_of(block),
{
    lemma_hex_round_trip(encoding_of(block));
}

} // verus!
