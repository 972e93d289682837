use vstd::prelude::*;
use crate::err::{errv, ErrKind, ErrV, ParseError};
use crate::json::Json;
use crate::num::u64_of_bytes;
use crate::path::{get_num_spec, get_str_spec, get_uint256_spec, sbytes, PathMap};
use crate::types::{BlockIdExt, BlockIdExtV, ShardIdent, MASTERCHAIN_ID, SHARD_FULL};

verus! {

/// A block identifier read from `wc`, `shard` (a hex string), `seqno`,
/// `root_hash` and `file_hash` fields; the tagged shard prefix must be
/// valid.
pub open spec fn separated_block_id_spec(o: Seq<(String, Json)>, p: Seq<Seq<char>>) -> Result<
    BlockIdExtV,
    ErrV,
> {
    match get_num_spec(o, p, "wc"@) {
        Err(e) => Err(e),
        Ok(wc) => match get_str_spec(o, p, "shard"@) {
            Err(e) => Err(e),
            Ok(s) => match u64_of_bytes(sbytes(s), 16) {
                None => Err(errv(ErrKind::ParseFailure, p, "shard"@)),
                Some(prefix) => if !ShardIdent::prefix_valid(prefix) {
                    Err(errv(ErrKind::SemanticInvalid, p, "shard"@))
                } else {
                    match get_num_spec(o, p, "seqno"@) {
                        Err(e) => Err(e),
                        Ok(seqno) => match get_uint256_spec(o, p, "root_hash"@) {
                            Err(e) => Err(e),
                            Ok(root_hash) => match get_uint256_spec(o, p, "file_hash"@) {
                                Err(e) => Err(e),
                                Ok(file_hash) => Ok(
                                    BlockIdExtV {
                                        shard: ShardIdent {
                                            workchain_id: wc as i32,
                                            shard_prefix_tagged: prefix,
                                        },
                                        seq_no: seqno as u32,
                                        root_hash,
                                        file_hash,
                                    },
                                ),
                            },
                        },
                    }
                },
            },
        },
    }
}

/// Parses a block identifier whose parts lie in separate fields.
pub fn parse_separated_block_id_ext(map_path: &PathMap) -> (r: Result<BlockIdExt, ParseError>)
    ensures
        match r {
            Ok(b) => separated_block_id_spec(map_path.entries(), map_path.pathv()) == Ok::<
                _,
                ErrV,
            >(b@),
            Err(e) => separated_block_id_spec(map_path.entries(), map_path.pathv()) == Err::<
                BlockIdExtV,
                _,
            >(e@),
        },
{
    let wc = map_path.get_num("wc")?;
    let s = map_path.get_str("shard")?;
    let prefix = match crate::num::parse_u64_bytes(s.as_str().as_bytes(), 16) {
        Some(v) => v,
        None => {
            return Err(ParseError::at(ErrKind::ParseFailure, &map_path.path, "shard"));
        },
    };
    let shard = match ShardIdent::with_tagged_prefix(
        #[verifier::truncate] (wc as i32),
        prefix,
    ) {
        Some(sh) => sh,
        None => {
            return Err(ParseError::at(ErrKind::SemanticInvalid, &map_path.path, "shard"));
        },
    };
    let seqno = map_path.get_num("seqno")?;
    let root_hash = map_path.get_uint256("root_hash")?;
    let file_hash = map_path.get_uint256("file_hash")?;
    Ok(
        BlockIdExt {
            shard,
            seq_no: #[verifier::truncate] (seqno as u32),
            root_hash,
            file_hash,
        },
    )
}

/// A masterchain block identifier read from the `mc_`-prefixed fields.
pub open spec fn mc_block_id_spec(o: Seq<(String, Json)>, p: Seq<Seq<char>>) -> Result<
    BlockIdExtV,
    ErrV,
> {
    match get_num_spec(o, p, "mc_block_seqno"@) {
        Err(e) => Err(e),
        Ok(seqno) => match get_uint256_spec(o, p, "mc_block_id"@) {
            Err(e) => Err(e),
            Ok(root_hash) => match get_uint256_spec(o, p, "mc_block_file_hash"@) {
                Err(e) => Err(e),
                Ok(file_hash) => Ok(
                    BlockIdExtV {
                        shard: ShardIdent {
                            workchain_id: MASTERCHAIN_ID,
                            shard_prefix_tagged: SHARD_FULL,
                        },
                        seq_no: seqno as u32,
                        root_hash,
                        file_hash,
                    },
                ),
            },
        },
    }
}

/// A block identifier read from `wc`, `shard`, `block_seqno`, `block_id`
/// and `block_file_hash` fields.
pub open spec fn plain_block_id_spec(o: Seq<(String, Json)>, p: Seq<Seq<char>>) -> Result<
    BlockIdExtV,
    ErrV,
> {
    match get_num_spec(o, p, "wc"@) {
        Err(e) => Err(e),
        Ok(wc) => match get_str_spec(o, p, "shard"@) {
            Err(e) => Err(e),
            Ok(s) => match u64_of_bytes(sbytes(s), 16) {
                None => Err(errv(ErrKind::ParseFailure, p, "shard"@)),
                Some(prefix) => if !ShardIdent::prefix_valid(prefix) {
                    Err(errv(ErrKind::SemanticInvalid, p, "shard"@))
                } else {
                    match get_num_spec(o, p, "block_seqno"@) {
                        Err(e) => Err(e),
                        Ok(seqno) => match get_uint256_spec(o, p, "block_id"@) {
                            Err(e) => Err(e),
                            Ok(root_hash) => match get_uint256_spec(o, p, "block_file_hash"@) {
                                Err(e) => Err(e),
                                Ok(file_hash) => Ok(
                                    BlockIdExtV {
                                        shard: ShardIdent {
                                            workchain_id: wc as i32,
                                            shard_prefix_tagged: prefix,
                                        },
                                        seq_no: seqno as u32,
                                        root_hash,
                                        file_hash,
                                    },
                                ),
                            },
                        },
                    }
                },
            },
        },
    }
}

/// The identifier decoding `parse_block_id_ext` performs: the masterchain
/// flavor reads the `mc_`-prefixed fields under a fixed masterchain shard;
/// the plain flavor reads `wc` and `shard` too.
pub open spec fn block_id_ext_spec(o: Seq<(String, Json)>, p: Seq<Seq<char>>, mc: bool) -> Result<
    BlockIdExtV,
    ErrV,
> {
    if mc {
        mc_block_id_spec(o, p)
    } else {
        plain_block_id_spec(o, p)
    }
}

/// Parses a block identifier from relay-receipt fields.
pub fn parse_block_id_ext(map_path: &PathMap, mc: bool) -> (r: Result<BlockIdExt, ParseError>)
    ensures
        match r {
            Ok(b) => block_id_ext_spec(map_path.entries(), map_path.pathv(), mc) == Ok::<
                _,
                ErrV,
            >(b@),
            Err(e) => block_id_ext_spec(map_path.entries(), map_path.pathv(), mc) == Err::<
                BlockIdExtV,
                _,
            >(e@),
        },
{
    if mc {
        let seqno = map_path.get_num("mc_block_seqno")?;
        let root_hash = map_path.get_uint256("mc_block_id")?;
        let file_hash = map_path.get_uint256("mc_block_file_hash")?;
        Ok(
            BlockIdExt {
                shard: ShardIdent::masterchain(),
                seq_no: #[verifier::truncate] (seqno as u32),
                root_hash,
                file_hash,
            },
        )
    } else {
        let wc = map_path.get_num("wc")?;
        let s = map_path.get_str("shard")?;
        let prefix = match crate::num::parse_u64_bytes(s.as_str().as_bytes(), 16) {
            Some(v) => v,
            None => {
                return Err(ParseError::at(ErrKind::ParseFailure, &map_path.path, "shard"));
            },
        };
        let shard = match ShardIdent::with_tagged_prefix(
            #[verifier::truncate] (wc as i32),
            prefix,
        ) {
            Some(sh) => sh,
            None => {
                return Err(ParseError::at(ErrKind::SemanticInvalid, &map_path.path, "shard"));
            },
        };
        let seqno = map_path.get_num("block_seqno")?;
        let root_hash = map_path.get_uint256("block_id")?;
        let file_hash = map_path.get_uint256("block_file_hash")?;
        Ok(
            BlockIdExt {
                shard,
                seq_no: #[verifier::truncate] (seqno as u32),
                root_hash,
                file_hash,
            },
        )
    }
}

} // verus!
