use bitcoin::blockdata::constants::genesis_block;
use bitcoin::{Block, Network, OutPoint, ScriptBuf, Sequence, Transaction, TxIn, TxOut, Witness};
use btc_rpc_proxy::block::{
    consensus_bytes, hex_result, summarize, witness_total, BlockStats,
    FetchedBlock, HeaderFields,
};
use btc_rpc_proxy::hex_bytes::HexBytes;
use btc_rpc_proxy::proxy::{answer_block, BlockAnswer};
use btc_rpc_proxy::router::Verbosity;

fn segwit_block() -> Block {
    let mut block = genesis_block(Network::Regtest);
    let tx = Transaction {
        version: 2,
        lock_time: bitcoin::absolute::LockTime::ZERO,
        input: vec![TxIn {
            previous_output: OutPoint::null(),
            script_sig: ScriptBuf::new(),
            sequence: Sequence::MAX,
            witness: Witness::from_slice(&[vec![1u8, 2, 3], vec![4u8; 5]]),
        }],
        output: vec![TxOut { value: 50, script_pubkey: ScriptBuf::new() }],
    };
    block.txdata.push(tx);
    block
}

#[test]
fn stats_without_witness() {
    let s = BlockStats::compute(285, 1140, &vec![]).unwrap();
    assert_eq!(s, BlockStats { size: 285, strippedsize: None, weight: 1140 });
    let z = BlockStats::compute(285, 1140, &vec![0, 0]).unwrap();
    assert_eq!(z.strippedsize, None);
}

#[test]
fn stats_with_witness() {
    let s = BlockStats::compute(300, 1000, &vec![3, 5, 72]).unwrap();
    assert_eq!(s.strippedsize, Some(220));
    assert_eq!(s.size - s.strippedsize.unwrap(), 80);
    assert!(BlockStats::compute(10, 40, &vec![6, 5]).is_none());
    assert_eq!(witness_total(&vec![usize::MAX, 1]), None);
    assert_eq!(witness_total(&vec![usize::MAX]), Some(usize::MAX));
    assert_eq!(witness_total(&vec![]), Some(0));
}

#[test]
fn hex_answer_decodes_to_block() {
    let block = genesis_block(Network::Bitcoin);
    let text = hex_result(consensus_bytes(&block));
    assert!(text.starts_with("01000000"));
    assert_eq!(text.len(), 2 * 285);
    let bytes = HexBytes::from_hex(&text).unwrap().0;
    let back: bitcoin::Block = bitcoin::consensus::deserialize(&bytes).unwrap();
    assert_eq!(back, block);
    assert_eq!(back.block_hash(), block.block_hash());
    assert_eq!(consensus_bytes(&back), bytes);
}

#[test]
fn summary_of_genesis_block() {
    let block = genesis_block(Network::Bitcoin);
    let s = summarize(&block);
    assert_eq!(s.stats.size, 285);
    assert_eq!(s.stats.strippedsize, None);
    assert_eq!(s.stats.weight, 1140);
    assert_eq!(
        s.txids,
        vec!["4a5e1e4baab89f3a32518a88c31bc87f618f76673e2cc77ab2127b7afdeda33b".to_string()]
    );
}

#[test]
fn summary_of_segwit_block() {
    let block = segwit_block();
    let s = summarize(&block);
    assert_eq!(s.stats.size, block.size());
    assert_eq!(s.stats.strippedsize, Some(block.size() - 8));
    let base = block.strippedsize() as u64;
    assert_eq!(s.stats.weight, 4 * base + (block.size() as u64 - base));
    assert_eq!(s.stats.weight, block.weight().to_wu());
    assert_eq!(s.txids.len(), 2);
    assert_eq!(s.txids[1], block.txdata[1].txid().to_string());
}

#[test]
fn answers_by_verbosity() {
    let block = segwit_block();
    match answer_block(Verbosity::Hex, &block) {
        BlockAnswer::Hex(t) => assert_eq!(t, hex::encode(bitcoin::consensus::serialize(&block))),
        other => panic!("unexpected answer {:?}", other),
    }
    match answer_block(Verbosity::Summary, &block) {
        BlockAnswer::Summary { stats, txids } => {
            assert_eq!(stats.size, block.size());
            assert_eq!(txids[0], block.txdata[0].txid().to_string());
        }
        other => panic!("unexpected answer {:?}", other),
    }
    assert!(matches!(answer_block(Verbosity::Full, &block), BlockAnswer::Full { .. }));
}

#[test]
fn fetched_block_reads_hash_and_header() {
    let block = genesis_block(Network::Bitcoin);
    let f = FetchedBlock::of(&block);
    let mut expected = hex::decode("000000000019d6689c085ae165831e934ff763ae46a2a6c172b3f1b60a8ce26f").unwrap();
    expected.reverse();
    assert_eq!(f.hash.to_vec(), expected);
    assert_eq!(f.header.version, 1);
    assert_eq!(f.header.time, 1231006505);
    assert_eq!(f.header.bits, 0x1d00ffff);
    assert_eq!(f.header.nonce, 2083236893);
    assert_eq!(f.header.prev_blockhash, [0u8; 32]);
    assert!(f.is_acceptable(&f.hash, &f.header));
}

#[test]
fn header_from_raw_hex() {
    let text = "0100000000000000000000000000000000000000000000000000000000000000000000003ba3edfd7a7b12b27ac72c3e67768f617fc81bc3888a51323a9fb8aa4b1e5e4a29ab5f49ffff001d1dac2b7c";
    let h = HeaderFields::from_hex(text).unwrap();
    assert_eq!(h, FetchedBlock::of(&genesis_block(Network::Bitcoin)).header);
    assert_eq!(h.nonce, 2083236893);
    assert_eq!(HeaderFields::from_hex(&text.to_uppercase()), Some(h));
    assert_eq!(HeaderFields::from_hex(&text[..158]), None);
    assert_eq!(HeaderFields::from_hex("zz"), None);
    assert_eq!(HeaderFields::from_hex(&format!("{text}00")), None);
}

#[test]
fn header_is_the_head_of_the_encoding() {
    let block = segwit_block();
    let bytes = consensus_bytes(&block);
    let head = HexBytes(bytes[..80].to_vec()).to_hex();
    assert_eq!(HeaderFields::from_hex(&head), Some(FetchedBlock::of(&block).header));
    let s = summarize(&block);
    assert_eq!(s.stats.size, bytes.len());
}
