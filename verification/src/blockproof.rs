use vstd::prelude::*;
use crate::codec::{base64_decoded, base64_decode, hex_decoded, hex_decode, Hash256};
use crate::err::{errv, ErrKind, ErrV, ParseError};
use crate::json::{Json, JsonObj};
use crate::path::{
    cont_spec, get_num_spec, get_str_spec, get_uint256_spec, get_vec_spec, PathMap,
};
use crate::types::{BlockIdExt, BlockIdExtV, ShardIdent};

verus! {

/// A signature bundle attached to a proof: the aggregate weight, the
/// validator bookkeeping, and the ordered signer list.
#[derive(Clone, Debug)]
pub struct BlockSignatures {
    pub validator_list_hash_short: u32,
    pub catchain_seqno: u32,
    pub sig_weight: u64,
    pub sigs: Vec<(Hash256, Vec<u8>)>,
}

/// The mathematical content of a signature bundle.
pub ghost struct BlockSignaturesV {
    pub validator_list_hash_short: u32,
    pub catchain_seqno: u32,
    pub sig_weight: u64,
    pub sigs: Seq<(Seq<u8>, Seq<u8>)>,
}

impl View for BlockSignatures {
    type V = BlockSignaturesV;

    open spec fn view(&self) -> BlockSignaturesV {
        BlockSignaturesV {
            validator_list_hash_short: self.validator_list_hash_short,
            catchain_seqno: self.catchain_seqno,
            sig_weight: self.sig_weight,
            sigs: self.sigs@.map_values(|e: (Hash256, Vec<u8>)| (e.0@, e.1@)),
        }
    }
}

/// A block proof: the identifier of the proven block, the raw proof tree
/// as a single-root blob, and the optional signature bundle. Virtualizing
/// the blob into a readable block belongs to the external cell codec; its
/// header values enter through `BlockHeaderInfo`.
#[derive(Clone, Debug)]
pub struct BlockProof {
    pub proof_for: BlockIdExt,
    pub root: Vec<u8>,
    pub signatures: Option<BlockSignatures>,
}

/// The mathematical content of a block proof.
pub ghost struct BlockProofV {
    pub proof_for: BlockIdExtV,
    pub root: Seq<u8>,
    pub signatures: Option<BlockSignaturesV>,
}

impl View for BlockProof {
    type V = BlockProofV;

    open spec fn view(&self) -> BlockProofV {
        BlockProofV {
            proof_for: self.proof_for@,
            root: self.root@,
            signatures: match self.signatures {
                Some(s) => Some(s@),
                None => None,
            },
        }
    }
}

/// What the external cell codec reads from the virtualized proof: the
/// proven block's shard coordinates, sequence number and content hash.
#[derive(Clone, Debug)]
pub struct BlockHeaderInfo {
    pub workchain_id: i32,
    pub shard_prefix_tagged: u64,
    pub seq_no: u32,
    pub root_hash: Hash256,
}

/// One signer entry: a node identifier and a signature assembled from its
/// two hex halves.
pub open spec fn sig_entry_spec(o: Seq<(String, Json)>, p: Seq<Seq<char>>) -> Result<
    (Seq<u8>, Seq<u8>),
    ErrV,
> {
    match get_uint256_spec(o, p, "node_id"@) {
        Err(e) => Err(e),
        Ok(node_id) => match get_str_spec(o, p, "r"@) {
            Err(e) => Err(e),
            Ok(rs) => match get_str_spec(o, p, "s"@) {
                Err(e) => Err(e),
                Ok(ss) => match hex_decoded(crate::path::sbytes(rs)) {
                    None => Err(errv(ErrKind::ParseFailure, p, "r"@)),
                    Some(rb) => match hex_decoded(crate::path::sbytes(ss)) {
                        None => Err(errv(ErrKind::ParseFailure, p, "s"@)),
                        Some(sb) => if rb.len() != 32 {
                            Err(errv(ErrKind::SemanticInvalid, p, "r"@))
                        } else if sb.len() != 32 {
                            Err(errv(ErrKind::SemanticInvalid, p, "s"@))
                        } else {
                            Ok((node_id, rb + sb))
                        },
                    },
                },
            },
        },
    }
}

/// Parses one signer entry.
fn parse_sig_entry(m: &PathMap) -> (r: Result<(Hash256, Vec<u8>), ParseError>)
    ensures
        match r {
            Ok(kv) => sig_entry_spec(m.entries(), m.pathv()) == Ok::<_, ErrV>((kv.0@, kv.1@)),
            Err(e) => sig_entry_spec(m.entries(), m.pathv()) == Err::<(Seq<u8>, Seq<u8>), _>(e@),
        },
{
    let node_id = m.get_uint256("node_id")?;
    let rs = m.get_str("r")?;
    let ss = m.get_str("s")?;
    let mut rb = match hex_decode(rs.as_str().as_bytes()) {
        Some(v) => v,
        None => {
            return Err(ParseError::at(ErrKind::ParseFailure, &m.path, "r"));
        },
    };
    let mut sb = match hex_decode(ss.as_str().as_bytes()) {
        Some(v) => v,
        None => {
            return Err(ParseError::at(ErrKind::ParseFailure, &m.path, "s"));
        },
    };
    if rb.len() != 32 {
        return Err(ParseError::at(ErrKind::SemanticInvalid, &m.path, "r"));
    }
    if sb.len() != 32 {
        return Err(ParseError::at(ErrKind::SemanticInvalid, &m.path, "s"));
    }
    rb.append(&mut sb);
    Ok((node_id, rb))
}

/// The signer list, decoded in order.
pub open spec fn sigs_fold(
    items: Seq<Json>,
    p: Seq<Seq<char>>,
    acc: Seq<(Seq<u8>, Seq<u8>)>,
    i: int,
) -> Result<Seq<(Seq<u8>, Seq<u8>)>, ErrV>
    decreases items.len() - i,
{
    if i < 0 || i >= items.len() {
        Ok(acc)
    } else {
        match cont_spec(items[i], p, "signatures"@) {
            Err(e) => Err(e),
            Ok(o) => match sig_entry_spec(o, p.push("signatures"@)) {
                Err(e) => Err(e),
                Ok(kv) => sigs_fold(items, p, acc.push(kv), i + 1),
            },
        }
    }
}

/// A signer list, seen mathematically.
pub open spec fn sigs_v(s: Seq<(Hash256, Vec<u8>)>) -> Seq<(Seq<u8>, Seq<u8>)> {
    s.map_values(|e: (Hash256, Vec<u8>)| (e.0@, e.1@))
}

/// The optional signature bundle of a proof map: absent `signatures` means
/// an unsigned proof, never an error.
pub open spec fn signatures_spec(o: Seq<(String, Json)>, p: Seq<Seq<char>>) -> Result<
    Option<BlockSignaturesV>,
    ErrV,
> {
    match get_vec_spec(o, p, "signatures"@) {
        Err(_) => Ok(None),
        Ok(items) => match get_num_spec(o, p, "sig_weight"@) {
            Err(e) => Err(e),
            Ok(w) => match sigs_fold(items, p, Seq::empty(), 0) {
                Err(e) => Err(e),
                Ok(sigs) => match get_num_spec(o, p, "validator_list_hash_short"@) {
                    Err(e) => Err(e),
                    Ok(vl) => match get_num_spec(o, p, "catchain_seqno"@) {
                        Err(e) => Err(e),
                        Ok(cc) => Ok(
                            Some(
                                BlockSignaturesV {
                                    validator_list_hash_short: vl as u32,
                                    catchain_seqno: cc as u32,
                                    sig_weight: w as u64,
                                    sigs,
                                },
                            ),
                        ),
                    },
                },
            },
        },
    }
}

/// Parses the optional signature bundle.
#[verifier::loop_isolation(false)]
#[verifier::rlimit(60)]
fn parse_signatures(root: &PathMap) -> (r: Result<Option<BlockSignatures>, ParseError>)
    ensures
        match r {
            Ok(Some(b)) => signatures_spec(root.entries(), root.pathv()) == Ok::<_, ErrV>(
                Some(b@),
            ),
            Ok(None) => signatures_spec(root.entries(), root.pathv()) == Ok::<
                Option<BlockSignaturesV>,
                ErrV,
            >(None),
            Err(e) => signatures_spec(root.entries(), root.pathv()) == Err::<
                Option<BlockSignaturesV>,
                _,
            >(e@),
        },
{
    let items = match root.get_vec("signatures") {
        Ok(items) => items,
        Err(_) => {
            return Ok(None);
        },
    };
    let w = root.get_num("sig_weight")?;
    let mut sigs: Vec<(Hash256, Vec<u8>)> = Vec::new();
    let ghost pv = root.pathv();
    let ghost whole = sigs_fold(items@, pv, Seq::empty(), 0);
    let mut i: usize = 0;
    proof {
        assert(sigs_v(sigs@) =~= Seq::<(Seq<u8>, Seq<u8>)>::empty());
    }
    while i < items.len()
        invariant
            i <= items@.len(),
            sigs_fold(items@, pv, sigs_v(sigs@), i as int) == whole,
        decreases items@.len() - i,
    {
        let m = PathMap::cont(root, "signatures", &items[i])?;
        let kv = parse_sig_entry(&m)?;
        let ghost pre = sigs@;
        sigs.push(kv);
        proof {
            assert(sigs_v(sigs@) =~= sigs_v(pre).push((kv.0@, kv.1@)));
        }
        i += 1;
    }
    let vl = root.get_num("validator_list_hash_short")?;
    let cc = root.get_num("catchain_seqno")?;
    Ok(
        Some(
            BlockSignatures {
                validator_list_hash_short: #[verifier::truncate] (vl as u32),
                catchain_seqno: #[verifier::truncate] (cc as u32),
                sig_weight: #[verifier::truncate] (w as u64),
                sigs,
            },
        ),
    )
}

/// What parsing a proof map yields, given the file hash supplied by the
/// caller and the header values the external cell codec read from the
/// virtualized proof: the raw proof blob decoded from base64, the block
/// identifier assembled from the header, and the optional signatures.
pub open spec fn parse_block_proof_spec(
    o: Seq<(String, Json)>,
    file_hash: Seq<u8>,
    wc: i32,
    prefix: u64,
    seq_no: u32,
    root_hash: Seq<u8>,
) -> Result<BlockProofV, ErrV> {
    let p = seq!["root"@];
    match get_str_spec(o, p, "proof"@) {
        Err(e) => Err(e),
        Ok(s) => match base64_decoded(s@) {
            None => Err(errv(ErrKind::ParseFailure, p, "proof"@)),
            Some(root) => if !ShardIdent::prefix_valid(prefix) {
                Err(errv(ErrKind::SemanticInvalid, p, "proof"@))
            } else {
                match signatures_spec(o, p) {
                    Err(e) => Err(e),
                    Ok(signatures) => Ok(
                        BlockProofV {
                            proof_for: BlockIdExtV {
                                shard: ShardIdent { workchain_id: wc, shard_prefix_tagged: prefix },
                                seq_no,
                                root_hash,
                                file_hash,
                            },
                            root,
                            signatures,
                        },
                    ),
                }
            },
        },
    }
}

/// Parses a proof map into a block proof. The proven block's header values
/// come from the caller, which obtains them by virtualizing the proof blob
/// through the external cell codec.
pub fn parse_block_proof(map: &JsonObj, block_file_hash: Hash256, header: BlockHeaderInfo) -> (r:
    Result<BlockProof, ParseError>)
    ensures
        match r {
            Ok(b) => parse_block_proof_spec(
                map@,
                block_file_hash@,
                header.workchain_id,
                header.shard_prefix_tagged,
                header.seq_no,
                header.root_hash@,
            ) == Ok::<_, ErrV>(b@),
            Err(e) => parse_block_proof_spec(
                map@,
                block_file_hash@,
                header.workchain_id,
                header.shard_prefix_tagged,
                header.seq_no,
                header.root_hash@,
            ) == Err::<BlockProofV, _>(e@),
        },
{
    let root_ctx = PathMap::new(map);
    proof {
        assert(root_ctx.pathv() == seq!["root"@]);
    }
    let s = root_ctx.get_str("proof")?;
    let root = match base64_decode(s.as_str()) {
        Some(b) => b,
        None => {
            return Err(ParseError::at(ErrKind::ParseFailure, &root_ctx.path, "proof"));
        },
    };
    let shard = match ShardIdent::with_tagged_prefix(
        header.workchain_id,
        header.shard_prefix_tagged,
    ) {
        Some(sh) => sh,
        None => {
            return Err(ParseError::at(ErrKind::SemanticInvalid, &root_ctx.path, "proof"));
        },
    };
    let signatures = parse_signatures(&root_ctx)?;
    Ok(
        BlockProof {
            proof_for: BlockIdExt {
                shard,
                seq_no: header.seq_no,
                root_hash: header.root_hash,
                file_hash: block_file_hash,
            },
            root,
            signatures,
        },
    )
}

} // verus!
