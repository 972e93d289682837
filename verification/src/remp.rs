use vstd::prelude::*;
use crate::blockid::{mc_block_id_spec, parse_block_id_ext, plain_block_id_spec};
use crate::codec::Hash256;
use crate::err::{errv, ErrKind, ErrV, ParseError};
use crate::json::{str_eq, Json, JsonObj};
use crate::path::{get_base64_spec, get_num_spec, get_str_spec, get_uint256_spec, PathMap};
use crate::state::{hash_zero, zero_hash};
use crate::types::{BlockIdExt, BlockIdExtV, ShardIdent};

verus! {

/// The pipeline stage a relay status speaks of.
#[derive(Clone, Copy, Debug, PartialEq, Eq, Structural)]
pub enum RempMessageLevel {
    Collator,
    Fullnode,
    Masterchain,
    Queue,
    Shardchain,
}

/// The lifecycle status of a relayed message.
#[derive(Clone, Debug)]
pub enum RempMessageStatus {
    Accepted { level: RempMessageLevel, block_id: BlockIdExt, master_id: BlockIdExt },
    Duplicate { block_id: BlockIdExt },
    Ignored { level: RempMessageLevel, block_id: BlockIdExt },
    New,
    Rejected { level: RempMessageLevel, block_id: BlockIdExt, error: String },
    SentToValidators { sent_to: i32, total_validators: i32 },
    Timeout,
}

/// The mathematical content of a relay status.
pub ghost enum RempMessageStatusV {
    Accepted { level: RempMessageLevel, block_id: BlockIdExtV, master_id: BlockIdExtV },
    Duplicate { block_id: BlockIdExtV },
    Ignored { level: RempMessageLevel, block_id: BlockIdExtV },
    New,
    Rejected { level: RempMessageLevel, block_id: BlockIdExtV, error: Seq<char> },
    SentToValidators { sent_to: i32, total_validators: i32 },
    Timeout,
}

impl View for RempMessageStatus {
    type V = RempMessageStatusV;

    open spec fn view(&self) -> RempMessageStatusV {
        match self {
            RempMessageStatus::Accepted { level, block_id, master_id } => RempMessageStatusV::Accepted {
                level: *level,
                block_id: block_id@,
                master_id: master_id@,
            },
            RempMessageStatus::Duplicate { block_id } => RempMessageStatusV::Duplicate {
                block_id: block_id@,
            },
            RempMessageStatus::Ignored { level, block_id } => RempMessageStatusV::Ignored {
                level: *level,
                block_id: block_id@,
            },
            RempMessageStatus::New => RempMessageStatusV::New,
            RempMessageStatus::Rejected { level, block_id, error } => RempMessageStatusV::Rejected {
                level: *level,
                block_id: block_id@,
                error: error@,
            },
            RempMessageStatus::SentToValidators { sent_to, total_validators } => RempMessageStatusV::SentToValidators {
                sent_to: *sent_to,
                total_validators: *total_validators,
            },
            RempMessageStatus::Timeout => RempMessageStatusV::Timeout,
        }
    }
}

/// A relay receipt: the message, its status and its provenance. The
/// detached signature travels beside the receipt, never inside it.
#[derive(Clone, Debug)]
pub struct RempReceipt {
    pub message_id: Hash256,
    pub status: RempMessageStatus,
    pub timestamp: i64,
    pub source_id: Hash256,
}

/// The mathematical content of a relay receipt.
pub ghost struct RempReceiptV {
    pub message_id: Seq<u8>,
    pub status: RempMessageStatusV,
    pub timestamp: i64,
    pub source_id: Seq<u8>,
}

impl View for RempReceipt {
    type V = RempReceiptV;

    open spec fn view(&self) -> RempReceiptV {
        RempReceiptV {
            message_id: self.message_id@,
            status: self.status@,
            timestamp: self.timestamp,
            source_id: self.source_id@,
        }
    }
}

/// The empty block identifier, standing in when no masterchain block is
/// named.
pub open spec fn zero_block_id() -> BlockIdExtV {
    BlockIdExtV {
        shard: ShardIdent { workchain_id: 0, shard_prefix_tagged: 0 },
        seq_no: 0,
        root_hash: zero_hash(),
        file_hash: zero_hash(),
    }
}

/// Builds the empty block identifier.
fn block_id_zero() -> (r: BlockIdExt)
    ensures
        r@ == zero_block_id(),
{
    BlockIdExt {
        shard: ShardIdent { workchain_id: 0, shard_prefix_tagged: 0 },
        seq_no: 0,
        root_hash: hash_zero(),
        file_hash: hash_zero(),
    }
}

/// The pipeline level an acceptance tag names, when it is one.
pub open spec fn accepted_level_of(s: Seq<char>) -> Option<RempMessageLevel> {
    if s == "IncludedIntoBlock"@ {
        Some(RempMessageLevel::Collator)
    } else if s == "AcceptedByFullnode"@ {
        Some(RempMessageLevel::Fullnode)
    } else if s == "Finalized"@ {
        Some(RempMessageLevel::Masterchain)
    } else if s == "AcceptedByQueue"@ {
        Some(RempMessageLevel::Queue)
    } else if s == "IncludedIntoAcceptedBlock"@ {
        Some(RempMessageLevel::Shardchain)
    } else {
        None
    }
}

/// The pipeline level an ignore tag names, when it is one.
pub open spec fn ignored_level_of(s: Seq<char>) -> Option<RempMessageLevel> {
    if s == "IgnoredByCollator"@ {
        Some(RempMessageLevel::Collator)
    } else if s == "IgnoredByFullNode"@ {
        Some(RempMessageLevel::Fullnode)
    } else if s == "IgnoredByMasterchain"@ {
        Some(RempMessageLevel::Masterchain)
    } else if s == "IgnoredByQueue"@ {
        Some(RempMessageLevel::Queue)
    } else if s == "IgnoredByShardchain"@ {
        Some(RempMessageLevel::Shardchain)
    } else {
        None
    }
}

/// The pipeline level a rejection tag names, when it is one.
pub open spec fn rejected_level_of(s: Seq<char>) -> Option<RempMessageLevel> {
    if s == "RejectedByCollator"@ {
        Some(RempMessageLevel::Collator)
    } else if s == "RejectedByFullnode"@ {
        Some(RempMessageLevel::Fullnode)
    } else if s == "RejectedByMasterchain"@ {
        Some(RempMessageLevel::Masterchain)
    } else if s == "RejectedByQueue"@ {
        Some(RempMessageLevel::Queue)
    } else if s == "RejectedByShardchain"@ {
        Some(RempMessageLevel::Shardchain)
    } else {
        None
    }
}

/// The status a `kind` tag denotes, with the per-kind fields it requires:
/// acceptance tags need a block identifier and take the masterchain block
/// when it is readable; ignore and rejection tags need a block identifier,
/// the rejection also an error string; `SentToValidators` needs its two
/// counts; `PutIntoQueue` and `Timeout` need nothing; any other tag is
/// unknown.
pub open spec fn remp_status_spec(o: Seq<(String, Json)>, p: Seq<Seq<char>>, kind: Seq<char>) -> Result<
    RempMessageStatusV,
    ErrV,
> {
    if accepted_level_of(kind) is Some {
        match plain_block_id_spec(o, p) {
            Err(e) => Err(e),
            Ok(block_id) => {
                let master_id = match mc_block_id_spec(o, p) {
                    Ok(m) => m,
                    Err(_) => zero_block_id(),
                };
                Ok(
                    RempMessageStatusV::Accepted {
                        level: accepted_level_of(kind)->Some_0,
                        block_id,
                        master_id,
                    },
                )
            },
        }
    } else if kind == "Duplicate"@ {
        match plain_block_id_spec(o, p) {
            Err(e) => Err(e),
            Ok(block_id) => Ok(RempMessageStatusV::Duplicate { block_id }),
        }
    } else if ignored_level_of(kind) is Some {
        match plain_block_id_spec(o, p) {
            Err(e) => Err(e),
            Ok(block_id) => Ok(
                RempMessageStatusV::Ignored { level: ignored_level_of(kind)->Some_0, block_id },
            ),
        }
    } else if kind == "PutIntoQueue"@ {
        Ok(RempMessageStatusV::New)
    } else if rejected_level_of(kind) is Some {
        match plain_block_id_spec(o, p) {
            Err(e) => Err(e),
            Ok(block_id) => match get_str_spec(o, p, "error"@) {
                Err(e) => Err(e),
                Ok(error) => Ok(
                    RempMessageStatusV::Rejected {
                        level: rejected_level_of(kind)->Some_0,
                        block_id,
                        error: error@,
                    },
                ),
            },
        }
    } else if kind == "SentToValidators"@ {
        match get_num_spec(o, p, "sent_to"@) {
            Err(e) => Err(e),
            Ok(st) => match get_num_spec(o, p, "total_validators"@) {
                Err(e) => Err(e),
                Ok(tv) => Ok(
                    RempMessageStatusV::SentToValidators {
                        sent_to: st as i32,
                        total_validators: tv as i32,
                    },
                ),
            },
        }
    } else if kind == "Timeout"@ {
        Ok(RempMessageStatusV::Timeout)
    } else {
        Err(errv(ErrKind::UnknownTag, p, kind))
    }
}

/// What parsing a relay receipt map yields: the provenance fields, then
/// the status selected by the `kind` tag, returned beside the detached
/// signature bytes.
pub open spec fn parse_remp_status_spec(o: Seq<(String, Json)>) -> Result<
    (RempReceiptV, Seq<u8>),
    ErrV,
> {
    let p = seq!["root"@];
    match get_uint256_spec(o, p, "source_id"@) {
        Err(e) => Err(e),
        Ok(source_id) => match get_base64_spec(o, p, "signature"@) {
            Err(e) => Err(e),
            Ok(signature) => match get_num_spec(o, p, "timestamp"@) {
                Err(e) => Err(e),
                Ok(timestamp) => match get_uint256_spec(o, p, "message_id"@) {
                    Err(e) => Err(e),
                    Ok(message_id) => match get_str_spec(o, p, "kind"@) {
                        Err(e) => Err(e),
                        Ok(kind) => match remp_status_spec(o, p, kind@) {
                            Err(e) => Err(e),
                            Ok(status) => Ok(
                                (
                                    RempReceiptV { message_id, status, timestamp, source_id },
                                    signature,
                                ),
                            ),
                        },
                    },
                },
            },
        },
    }
}

/// Parses a relay receipt map into the receipt and its detached signature.
pub fn parse_remp_status(map: &JsonObj) -> (r: Result<(RempReceipt, Vec<u8>), ParseError>)
    ensures
        match r {
            Ok(t) => parse_remp_status_spec(map@) == Ok::<_, ErrV>((t.0@, t.1@)),
            Err(e) => parse_remp_status_spec(map@) == Err::<(RempReceiptV, Seq<u8>), _>(e@),
        },
{
    let root = PathMap::new(map);
    proof {
        assert(root.pathv() == seq!["root"@]);
    }
    let source_id = root.get_uint256("source_id")?;
    let signature = root.get_base64("signature")?;
    let timestamp = root.get_num("timestamp")?;
    let message_id = root.get_uint256("message_id")?;
    let kind_s = root.get_str("kind")?;
    let status = parse_status_by_kind(&root, kind_s.as_str())?;
    Ok((RempReceipt { message_id, status, timestamp, source_id }, signature))
}

/// Parses the status a `kind` tag selects, reading its per-kind fields.
#[verifier::rlimit(100)]
fn parse_status_by_kind(root: &PathMap, k: &str) -> (r: Result<RempMessageStatus, ParseError>)
    ensures
        match r {
            Ok(st) => remp_status_spec(root.entries(), root.pathv(), k@) == Ok::<_, ErrV>(st@),
            Err(e) => remp_status_spec(root.entries(), root.pathv(), k@) == Err::<
                RempMessageStatusV,
                _,
            >(e@),
        },
{
    let accepted: Option<RempMessageLevel> = if str_eq(k, "IncludedIntoBlock") {
        Some(RempMessageLevel::Collator)
    } else if str_eq(k, "AcceptedByFullnode") {
        Some(RempMessageLevel::Fullnode)
    } else if str_eq(k, "Finalized") {
        Some(RempMessageLevel::Masterchain)
    } else if str_eq(k, "AcceptedByQueue") {
        Some(RempMessageLevel::Queue)
    } else if str_eq(k, "IncludedIntoAcceptedBlock") {
        Some(RempMessageLevel::Shardchain)
    } else {
        None
    };
    proof {
        assert(accepted == accepted_level_of(k@));
    }
    let status: RempMessageStatus = if let Some(level) = accepted {
        let block_id = parse_block_id_ext(&root, false)?;
        let master_id = match parse_block_id_ext(&root, true) {
            Ok(m) => m,
            Err(_) => block_id_zero(),
        };
        RempMessageStatus::Accepted { level, block_id, master_id }
    } else if str_eq(k, "Duplicate") {
        let block_id = parse_block_id_ext(&root, false)?;
        RempMessageStatus::Duplicate { block_id }
    } else {
        let ignored: Option<RempMessageLevel> = if str_eq(k, "IgnoredByCollator") {
            Some(RempMessageLevel::Collator)
        } else if str_eq(k, "IgnoredByFullNode") {
            Some(RempMessageLevel::Fullnode)
        } else if str_eq(k, "IgnoredByMasterchain") {
            Some(RempMessageLevel::Masterchain)
        } else if str_eq(k, "IgnoredByQueue") {
            Some(RempMessageLevel::Queue)
        } else if str_eq(k, "IgnoredByShardchain") {
            Some(RempMessageLevel::Shardchain)
        } else {
            None
        };
        proof {
            assert(ignored == ignored_level_of(k@));
        }
        if let Some(level) = ignored {
            let block_id = parse_block_id_ext(&root, false)?;
            RempMessageStatus::Ignored { level, block_id }
        } else if str_eq(k, "PutIntoQueue") {
            RempMessageStatus::New
        } else {
            let rejected: Option<RempMessageLevel> = if str_eq(k, "RejectedByCollator") {
                Some(RempMessageLevel::Collator)
            } else if str_eq(k, "RejectedByFullnode") {
                Some(RempMessageLevel::Fullnode)
            } else if str_eq(k, "RejectedByMasterchain") {
                Some(RempMessageLevel::Masterchain)
            } else if str_eq(k, "RejectedByQueue") {
                Some(RempMessageLevel::Queue)
            } else if str_eq(k, "RejectedByShardchain") {
                Some(RempMessageLevel::Shardchain)
            } else {
                None
            };
            proof {
                assert(rejected == rejected_level_of(k@));
            }
            if let Some(level) = rejected {
                let block_id = parse_block_id_ext(&root, false)?;
                let error = root.get_str("error")?;
                RempMessageStatus::Rejected { level, block_id, error: error.clone() }
            } else if str_eq(k, "SentToValidators") {
                let st = root.get_num("sent_to")?;
                let tv = root.get_num("total_validators")?;
                RempMessageStatus::SentToValidators {
                    sent_to: #[verifier::truncate] (st as i32),
                    total_validators: #[verifier::truncate] (tv as i32),
                }
            } else if str_eq(k, "Timeout") {
                RempMessageStatus::Timeout
            } else {
                return Err(ParseError::at(ErrKind::UnknownTag, &root.path, k));
            }
        }
    };
    Ok(status)
}

/// An unrecognized relay `kind` tag fails with the unknown-tag error
/// naming the tag; every known tag selects its one documented status
/// shape in `remp_status_spec`.
pub proof fn lemma_unknown_tag(o: Seq<(String, Json)>, p: Seq<Seq<char>>, kind: Seq<char>)
    requires
        accepted_level_of(kind) is None,
        kind != "Duplicate"@,
        ignored_level_of(kind) is None,
        kind != "PutIntoQueue"@,
        rejected_level_of(kind) is None,
        kind != "SentToValidators"@,
        kind != "Timeout"@,
    ensures
        remp_status_spec(o, p, kind) == Err::<RempMessageStatusV, ErrV>(
            errv(ErrKind::UnknownTag, p, kind),
        ),
{
}

} // verus!
