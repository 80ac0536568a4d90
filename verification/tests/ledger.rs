use blockchain::binary::hash_to_binary_representation;
use blockchain::block::Block;
use blockchain::chain::Blockchain;
use sha2::{Digest, Sha256};

fn mined_chain_with_len_2() -> Blockchain {
    let mut chain = Blockchain::new();
    chain.genesis();
    let tail_hash = chain.blocks[0].hash.clone();
    let block = Block::new(1, "new".to_string(), tail_hash).expect("mining found no nonce");
    chain.add_block(block);
    assert_eq!(chain.blocks.len(), 2);
    chain
}

#[test]
fn genesis_creates_single_block() {
    let mut chain = Blockchain::new();
    chain.genesis();
    assert_eq!(chain.blocks.len(), 1);
    assert_eq!(chain.blocks[0].id, 0);
    assert_eq!(chain.blocks[0].data, "genesis");
    assert_eq!(chain.blocks[0].prev_block_hash, "genesis");
}

#[test]
fn valid_append_grows_chain() {
    let mut chain = Blockchain::new();
    chain.genesis();
    let tail_hash = chain.blocks[0].hash.clone();
    let block =
        Block::new(1, "new".to_string(), tail_hash.clone()).expect("mining found no nonce");
    let block_hash = block.hash.clone();
    chain.add_block(block);
    assert_eq!(chain.blocks.len(), 2);
    assert_eq!(chain.blocks[1].id, 1);
    assert_eq!(chain.blocks[1].prev_block_hash, tail_hash);
    assert_eq!(chain.blocks[1].hash, block_hash);
}

#[test]
fn invalid_prev_hash_is_rejected() {
    let mut chain = Blockchain::new();
    chain.genesis();
    let block = Block::new(1, "new".to_string(), "wrong".to_string())
        .expect("mining found no nonce");
    chain.add_block(block);
    assert_eq!(chain.blocks.len(), 1);
}

#[test]
fn insufficient_difficulty_is_rejected() {
    let mut chain = Blockchain::new();
    chain.genesis();
    let tail = chain.blocks[0].clone();
    // Built by hand, mining skipped: 0xff... cannot start with two zero bits.
    let candidate = Block {
        id: 1,
        timestamp: 0,
        data: "payload".to_string(),
        prev_block_hash: tail.hash.clone(),
        hash: "ff".repeat(32),
        nonce: 0,
    };
    assert!(!chain.block_valid(&candidate, &tail));
    chain.add_block(candidate);
    assert_eq!(chain.blocks.len(), 1);
}

#[test]
fn undecodable_hash_is_rejected() {
    let mut chain = Blockchain::new();
    chain.genesis();
    let tail = chain.blocks[0].clone();
    let candidate = Block {
        id: 1,
        timestamp: 0,
        data: "payload".to_string(),
        prev_block_hash: tail.hash.clone(),
        hash: "not hex".to_string(),
        nonce: 0,
    };
    assert!(!chain.block_valid(&candidate, &tail));
}

#[test]
fn non_sequential_id_is_rejected() {
    let mut chain = Blockchain::new();
    chain.genesis();
    let tail_hash = chain.blocks[0].hash.clone();
    let block = Block::new(5, "new".to_string(), tail_hash).expect("mining found no nonce");
    chain.add_block(block);
    assert_eq!(chain.blocks.len(), 1);
}

#[test]
fn tampered_block_is_rejected() {
    let mut chain = Blockchain::new();
    chain.genesis();
    let tail = chain.blocks[0].clone();
    let mined = Block::new(1, "payload".to_string(), tail.hash.clone())
        .expect("mining found no nonce");
    assert!(chain.block_valid(&mined, &tail));
    let mut tampered = mined.clone();
    tampered.data = "forged payload".to_string();
    assert!(!chain.block_valid(&tampered, &tail));
    chain.add_block(tampered);
    assert_eq!(chain.blocks.len(), 1);
}

#[test]
fn rejection_leaves_chain_unchanged() {
    let mut chain = mined_chain_with_len_2();
    let ids: Vec<u64> = chain.blocks.iter().map(|b| b.id).collect();
    let hashes: Vec<String> = chain.blocks.iter().map(|b| b.hash.clone()).collect();
    let tail_hash = chain.blocks[1].hash.clone();

    let wrong_prev =
        Block::new(2, "a".to_string(), "wrong".to_string()).expect("mining found no nonce");
    chain.add_block(wrong_prev);
    let wrong_id =
        Block::new(7, "b".to_string(), tail_hash.clone()).expect("mining found no nonce");
    chain.add_block(wrong_id);
    let mut tampered =
        Block::new(2, "c".to_string(), tail_hash.clone()).expect("mining found no nonce");
    tampered.nonce = tampered.nonce.wrapping_add(1);
    chain.add_block(tampered);
    let weak = Block {
        id: 2,
        timestamp: 0,
        data: "d".to_string(),
        prev_block_hash: tail_hash,
        hash: "ff".repeat(32),
        nonce: 0,
    };
    chain.add_block(weak);

    assert_eq!(chain.blocks.len(), 2);
    for i in 0..2 {
        assert_eq!(chain.blocks[i].id, ids[i]);
        assert_eq!(chain.blocks[i].hash, hashes[i]);
    }
}

#[test]
fn digest_is_deterministic() {
    let block = Block::new(0, "genesis".to_string(), "genesis".to_string())
        .expect("mining found no nonce");
    assert_eq!(block.block_hash(), block.block_hash());
    assert_eq!(hex::encode(block.block_hash()), block.hash);
    assert_eq!(block.hash.len(), 64);
}

#[test]
fn mining_is_deterministic_for_fixed_timestamp() {
    let a = Block::with_timestamp(3, "data".to_string(), "prev".to_string(), 1000)
        .expect("mining found no nonce");
    let b = Block::with_timestamp(3, "data".to_string(), "prev".to_string(), 1000)
        .expect("mining found no nonce");
    assert_eq!(a.nonce, b.nonce);
    assert_eq!(a.hash, b.hash);
}

#[test]
fn grown_chain_keeps_links_ids_and_difficulty() {
    let mut chain = mined_chain_with_len_2();
    let tail_hash = chain.blocks[1].hash.clone();
    let block = Block::new(2, "third".to_string(), tail_hash).expect("mining found no nonce");
    chain.add_block(block);
    assert_eq!(chain.blocks.len(), 3);
    for i in 1..chain.blocks.len() {
        assert_eq!(chain.blocks[i].prev_block_hash, chain.blocks[i - 1].hash);
        assert_eq!(chain.blocks[i].id, chain.blocks[i - 1].id + 1);
    }
    for block in &chain.blocks {
        let raw = hex::decode(&block.hash).expect("stored hash must be hex");
        let bin = hash_to_binary_representation(&raw);
        assert!(bin.starts_with("00"));
        assert_eq!(hex::encode(block.block_hash()), block.hash);
    }
}

#[test]
fn binary_rendering_pads_every_byte() {
    assert_eq!(hash_to_binary_representation(&[]), "");
    assert_eq!(hash_to_binary_representation(&[1]), "00000001");
    assert_eq!(hash_to_binary_representation(&[0xff, 0x00]), "1111111100000000");
    assert_eq!(hash_to_binary_representation(&[0x40]), "01000000");
}

#[test]
fn digest_matches_canonical_json_sha256() {
    let data = "a\"\\\n\u{1}\u{e9} payload";
    let block = Block {
        id: 7,
        timestamp: -3,
        data: data.to_string(),
        prev_block_hash: "prev".to_string(),
        hash: String::new(),
        nonce: 42,
    };

    let mut map = serde_json::Map::new();
    map.insert("id".to_string(), serde_json::Value::from(7u64));
    map.insert("prev_block_hash".to_string(), serde_json::Value::from("prev"));
    map.insert("data".to_string(), serde_json::Value::from(data));
    map.insert("timestamp".to_string(), serde_json::Value::from(-3i64));
    map.insert("nonce".to_string(), serde_json::Value::from(42u64));
    let text = serde_json::Value::Object(map).to_string();
    let expected = Sha256::digest(text.as_bytes()).to_vec();

    assert_eq!(block.block_hash(), expected);
}

#[test]
fn digest_input_layout_is_fixed() {
    let block = Block {
        id: 0,
        timestamp: 0,
        data: "genesis".to_string(),
        prev_block_hash: "genesis".to_string(),
        hash: String::new(),
        nonce: 0,
    };
    let text =
        "{\"data\":\"genesis\",\"id\":0,\"nonce\":0,\"prev_block_hash\":\"genesis\",\"timestamp\":0}";
    let expected = Sha256::digest(text.as_bytes()).to_vec();
    assert_eq!(block.block_hash(), expected);
}

#[test]
fn mined_block_meets_difficulty() {
    let block = Block::with_timestamp(0, "genesis".to_string(), "genesis".to_string(), 99)
        .expect("mining found no nonce");
    let raw = block.block_hash();
    let bin = hash_to_binary_representation(&raw);
    assert!(bin.starts_with("00"));
    assert_eq!(hex::encode(&raw), block.hash);
}
