//! Attestation operations: what the client sends to the EAS contract when it
//! creates one attestation or a batch, how it reads the attestation UIDs
//! from the transaction receipt, and the records it returns.

use vstd::prelude::*;
use vstd::string::*;
use vstd::utf8::*;

use crate::chain::is_address_text;
use crate::client::{address_bytes, address_error_text, address_from_str, lemma_address_text_parses};
use crate::encoding::{hash_bytes32, to_array32};
use crate::error::{ContractError, EasError};
use crate::hexcodec::{decode_hex_text, hex_decode_error_text, hex_decode_spec, hex_lower, prefixed_hex, strip_0x};
use crate::types::{zero_hex, Attestation, AttestationRequest, BatchAttestationResult, UtcTimestamp};

verus! {

/// The error that a UID text which does not denote 32 bytes is refused
/// with: a failed contract call, naming bad hex or the wrong length.
pub open spec fn uid_text_error(text: Seq<u8>, e: EasError) -> bool {
    match hex_decode_spec(strip_0x(text)) {
        None => e matches EasError::Contract(ContractError::CallFailed { details }) && details@
            == "bad hex: "@ + hex_decode_error_text(strip_0x(text)),
        Some(_) => e matches EasError::Contract(ContractError::CallFailed { details }) && details@
            == "expected 32 bytes"@,
    }
}

/// The 32 bytes of a decoded UID text for a contract call: a failed call
/// naming bad hex when the digits did not decode (`decoded` holds the
/// decoder's error text), or the wrong length.
pub fn uid_from_hex_outcome(decoded: Result<Vec<u8>, String>) -> (res: Result<[u8; 32], EasError>)
    ensures
        match decoded {
            Ok(v) => if v@.len() == 32 {
                res matches Ok(a) && a@ == v@
            } else {
                res matches Err(EasError::Contract(ContractError::CallFailed { details }))
                    && details@ == "expected 32 bytes"@
            },
            Err(m) => res matches Err(EasError::Contract(ContractError::CallFailed { details }))
                && details@ == "bad hex: "@ + m@,
        },
{
    match decoded {
        Err(m) => Err(
            EasError::Contract(
                ContractError::CallFailed { details: String::from_str("bad hex: ").concat(m.as_str()) },
            ),
        ),
        Ok(bytes) => {
            if bytes.len() == 32 {
                Ok(to_array32(&bytes))
            } else {
                Err(
                    EasError::Contract(
                        ContractError::CallFailed { details: String::from_str("expected 32 bytes") },
                    ),
                )
            }
        },
    }
}

/// Parses a bytes32 hex text, `0x`-prefixed or raw, for a contract call.
pub fn parse_bytes32(hex_str: &str) -> (res: Result<[u8; 32], EasError>)
    ensures
        match hash_bytes32(hex_str.spec_bytes()) {
            Some(b) => res matches Ok(a) && a@ == b,
            None => res matches Err(e) && uid_text_error(hex_str.spec_bytes(), e),
        },
{
    uid_from_hex_outcome(decode_hex_text(hex_str))
}

/// The error that an address text which does not parse is refused with.
pub open spec fn address_text_error(text: Seq<u8>, e: EasError) -> bool {
    e matches EasError::Config { message } && message@ == "invalid address: "@
        + address_error_text(text)
}

/// The 20 bytes of a parsed address, or the parser's error text as a
/// configuration error.
pub fn address_from_outcome(parsed: Result<[u8; 20], String>) -> (res: Result<[u8; 20], EasError>)
    ensures
        match parsed {
            Ok(a) => res == Ok::<[u8; 20], EasError>(a),
            Err(m) => res matches Err(EasError::Config { message }) && message@
                == "invalid address: "@ + m@,
        },
{
    match parsed {
        Ok(a) => Ok(a),
        Err(m) => Err(
            EasError::Config { message: String::from_str("invalid address: ").concat(m.as_str()) },
        ),
    }
}

/// Parses an Ethereum address text.
pub fn parse_address(hex_str: &str) -> (res: Result<[u8; 20], EasError>)
    ensures
        match address_bytes(hex_str.spec_bytes()) {
            Some(b) => res matches Ok(a) && a@ == b,
            None => res matches Err(e) && address_text_error(hex_str.spec_bytes(), e),
        },
{
    address_from_outcome(address_from_str(hex_str))
}

/// The data of one attestation as the EAS contract takes it; it is sent
/// with no value attached.
#[derive(Debug, Clone)]
pub struct RequestData {
    pub recipient: [u8; 20],
    pub expiration_time: u64,
    pub revocable: bool,
    pub ref_uid: [u8; 32],
    pub data: Vec<u8>,
}

/// A call of the contract's `attest`: a schema and one attestation.
#[derive(Debug, Clone)]
pub struct AttestCall {
    pub schema: [u8; 32],
    pub data: RequestData,
}

/// A call of the contract's `multiAttest` with one schema and its
/// attestations.
#[derive(Debug, Clone)]
pub struct MultiAttestCall {
    pub schema: [u8; 32],
    pub data: Vec<RequestData>,
}

/// The recipient and reference UID of a request both parse.
pub open spec fn request_parses(r: AttestationRequest) -> bool {
    &&& address_bytes(encode_utf8(r.recipient@)) is Some
    &&& hash_bytes32(encode_utf8(r.ref_uid@)) is Some
}

/// The error of a request whose recipient or reference UID does not parse:
/// the recipient's, if it fails, else the reference UID's.
pub open spec fn request_error(r: AttestationRequest, e: EasError) -> bool {
    if address_bytes(encode_utf8(r.recipient@)) is None {
        address_text_error(encode_utf8(r.recipient@), e)
    } else {
        uid_text_error(encode_utf8(r.ref_uid@), e)
    }
}

/// `d` carries the request `r`, its texts parsed.
pub open spec fn carries(d: RequestData, r: AttestationRequest) -> bool {
    &&& address_bytes(encode_utf8(r.recipient@)) == Some(d.recipient@)
    &&& hash_bytes32(encode_utf8(r.ref_uid@)) == Some(d.ref_uid@)
    &&& d.expiration_time == r.expiration_time
    &&& d.revocable == r.revocable
    &&& d.data@ == r.data@
}

/// The contract data of one request: its recipient and reference UID
/// parsed, the recipient first.
pub fn request_data(r: &AttestationRequest) -> (res: Result<RequestData, EasError>)
    ensures
        request_parses(*r) ==> (res matches Ok(d) && carries(d, *r)),
        !request_parses(*r) ==> (res matches Err(e) && request_error(*r, e)),
        res matches Ok(d) ==> {
            &&& address_bytes(encode_utf8(r.recipient@)) == Some(d.recipient@)
            &&& hash_bytes32(encode_utf8(r.ref_uid@)) == Some(d.ref_uid@)
            &&& d.expiration_time == r.expiration_time
            &&& d.revocable == r.revocable
            &&& d.data@ == r.data@
        },
{
    let recipient = parse_address(r.recipient.as_str())?;
    let ref_uid = parse_bytes32(r.ref_uid.as_str())?;
    let data = r.data.clone();
    assert(data@ =~= r.data@);
    Ok(
        RequestData {
            recipient,
            expiration_time: r.expiration_time,
            revocable: r.revocable,
            ref_uid,
            data,
        },
    )
}

/// The `attest` call for a request: its schema UID, recipient and
/// reference UID parsed, in that order.
pub fn prepare_attestation(request: &AttestationRequest) -> (res: Result<AttestCall, EasError>)
    ensures
        match hash_bytes32(encode_utf8(request.schema_uid@)) {
            None => res matches Err(e) && uid_text_error(encode_utf8(request.schema_uid@), e),
            Some(s) => if request_parses(*request) {
                res matches Ok(c) && c.schema@ == s && carries(c.data, *request)
            } else {
                res matches Err(e) && request_error(*request, e)
            },
        },
        res matches Ok(c) ==> {
            &&& hash_bytes32(encode_utf8(request.schema_uid@)) == Some(c.schema@)
            &&& address_bytes(encode_utf8(request.recipient@)) == Some(c.data.recipient@)
            &&& hash_bytes32(encode_utf8(request.ref_uid@)) == Some(c.data.ref_uid@)
            &&& c.data.expiration_time == request.expiration_time
            &&& c.data.revocable == request.revocable
            &&& c.data.data@ == request.data@
        },
{
    let schema = parse_bytes32(request.schema_uid.as_str())?;
    let data = request_data(request)?;
    Ok(AttestCall { schema, data })
}

/// The `multiAttest` call for a batch under one schema: refused when the
/// batch is empty, then when the schema UID does not parse, then with the
/// error of the first request that does not parse.
pub fn prepare_batch(schema_uid: &str, requests: &[AttestationRequest]) -> (res: Result<
    MultiAttestCall,
    EasError,
>)
    ensures
        requests@.len() == 0 ==> (res matches Err(EasError::Contract(ContractError::EmptyBatch))),
        requests@.len() > 0 ==> match hash_bytes32(schema_uid.spec_bytes()) {
            None => res matches Err(e) && uid_text_error(schema_uid.spec_bytes(), e),
            Some(s) => batch_outcome(s, requests@, res),
        },
        requests@.len() > 0 && hash_bytes32(schema_uid.spec_bytes()) is Some && (forall|j: int|
            0 <= j < requests@.len() ==> #[trigger] request_parses(requests@[j])) ==> (res matches Ok(
            c,
        ) && Some(c.schema@) == hash_bytes32(schema_uid.spec_bytes()) && c.data@.len()
            == requests@.len() && forall|j: int|
            #![trigger c.data@[j]]
            0 <= j < requests@.len() ==> {
                &&& address_bytes(encode_utf8(requests@[j].recipient@)) == Some(c.data@[j].recipient@)
                &&& hash_bytes32(encode_utf8(requests@[j].ref_uid@)) == Some(c.data@[j].ref_uid@)
                &&& c.data@[j].expiration_time == requests@[j].expiration_time
                &&& c.data@[j].revocable == requests@[j].revocable
                &&& c.data@[j].data@ == requests@[j].data@
            }),
{
    if requests.len() == 0 {
        return Err(EasError::Contract(ContractError::EmptyBatch));
    }
    let schema = parse_bytes32(schema_uid)?;
    let mut data: Vec<RequestData> = Vec::new();
    let mut i: usize = 0;
    while i < requests.len()
        invariant
            i <= requests@.len(),
            data@.len() == i,
            hash_bytes32(schema_uid.spec_bytes()) == Some(schema@),
            forall|j: int| 0 <= j < i ==> #[trigger] request_parses(requests@[j]),
            forall|j: int| 0 <= j < i ==> carries(#[trigger] data@[j], requests@[j]),
        decreases requests@.len() - i,
    {
        let d = match request_data(&requests[i]) {
            Ok(d) => d,
            Err(e) => {
                assert(!request_parses(requests@[i as int]));
                assert(request_error(requests@[i as int], e));
                assert(!(forall|j: int| 0 <= j < requests@.len() ==> #[trigger] request_parses(requests@[j])));
                return Err(e);
            },
        };
        data.push(d);
        i = i + 1;
    }
    Ok(MultiAttestCall { schema, data })
}

/// What a batch gives once its schema UID parsed to `schema`: the call with
/// every request carried in order, or the error of the first request that
/// does not parse.
pub open spec fn batch_outcome(
    schema: Seq<u8>,
    requests: Seq<AttestationRequest>,
    res: Result<MultiAttestCall, EasError>,
) -> bool {
    if forall|j: int| 0 <= j < requests.len() ==> #[trigger] request_parses(requests[j]) {
        res matches Ok(c) && c.schema@ == schema && c.data@.len() == requests.len() && forall|
            j: int,
        |
            0 <= j < requests.len() ==> carries(#[trigger] c.data@[j], requests[j])
    } else {
        res matches Err(e) && exists|k: int|
            0 <= k < requests.len() && (forall|j: int|
                0 <= j < k ==> #[trigger] request_parses(requests[j])) && !request_parses(
                requests[k],
            ) && request_error(#[trigger] requests[k], e)
    }
}

/// The contract data that carries a request holds the request's recipient
/// and reference UID as the bytes their texts denote, and its expiration
/// time, revocability and data unchanged.
pub proof fn lemma_carried_request_fields(d: RequestData, r: AttestationRequest)
    requires
        carries(d, r),
    ensures
        address_bytes(encode_utf8(r.recipient@)) == Some(d.recipient@),
        hash_bytes32(encode_utf8(r.ref_uid@)) == Some(d.ref_uid@),
        d.expiration_time == r.expiration_time,
        d.revocable == r.revocable,
        d.data@ == r.data@,
{
}

/// A batch whose requests all parse is sent whole and in the caller's
/// order: the `j`-th attestation of the call is made from the `j`-th
/// request, so the UIDs read back from the receipt line up with the
/// requests.
pub proof fn lemma_batch_keeps_request_order(
    schema: Seq<u8>,
    requests: Seq<AttestationRequest>,
    res: Result<MultiAttestCall, EasError>,
)
    requires
        batch_outcome(schema, requests, res),
        forall|j: int| 0 <= j < requests.len() ==> #[trigger] request_parses(requests[j]),
    ensures
        res matches Ok(c) && c.schema@ == schema && c.data@.len() == requests.len() && forall|j: int|
            #![trigger c.data@[j]]
            0 <= j < requests.len() ==> {
                &&& address_bytes(encode_utf8(requests[j].recipient@)) == Some(c.data@[j].recipient@)
                &&& hash_bytes32(encode_utf8(requests[j].ref_uid@)) == Some(c.data@[j].ref_uid@)
                &&& c.data@[j].expiration_time == requests[j].expiration_time
                &&& c.data@[j].revocable == requests[j].revocable
                &&& c.data@[j].data@ == requests[j].data@
            },
{
}

/// A log of a transaction receipt, as far as the client reads it: how many
/// topics it has and its data.
#[derive(Debug, Clone)]
pub struct ReceiptLog {
    pub topic_count: usize,
    pub data: Vec<u8>,
}

/// A log that carries an attestation UID: the `Attested` event has the
/// event signature and indexed topics, and the UID as the first 32 bytes of
/// its data.
pub open spec fn carries_uid(l: ReceiptLog) -> bool {
    l.topic_count >= 2 && l.data@.len() >= 32
}

/// The attestation UIDs of the logs, in order.
pub open spec fn log_uids(logs: Seq<ReceiptLog>) -> Seq<Seq<u8>>
    decreases logs.len(),
{
    if logs.len() == 0 {
        Seq::empty()
    } else {
        let rest = log_uids(logs.drop_last());
        if carries_uid(logs.last()) {
            rest.push(logs.last().data@.take(32))
        } else {
            rest
        }
    }
}

/// A single log gives an attestation UID exactly when it has at least two
/// topics and at least 32 bytes of data, and the UID is its first 32 bytes.
pub proof fn lemma_single_log_uid(l: ReceiptLog)
    ensures
        log_uids(seq![l]) == if l.topic_count >= 2 && l.data@.len() >= 32 {
            seq![l.data@.take(32)]
        } else {
            Seq::<Seq<u8>>::empty()
        },
{
    assert(seq![l].drop_last() =~= Seq::<ReceiptLog>::empty());
    assert(seq![l].last() == l);
    assert(log_uids(Seq::<ReceiptLog>::empty()) =~= Seq::<Seq<u8>>::empty());
    if l.topic_count >= 2 && l.data@.len() >= 32 {
        assert(Seq::<Seq<u8>>::empty().push(l.data@.take(32)) =~= seq![l.data@.take(32)]);
    }
}

/// The UIDs of a concatenation are those of its parts.
pub proof fn lemma_log_uids_concat(a: Seq<ReceiptLog>, b: Seq<ReceiptLog>)
    ensures
        log_uids(a + b) == log_uids(a) + log_uids(b),
    decreases b.len(),
{
    if b.len() == 0 {
        assert(a + b =~= a);
        assert(log_uids(a) + log_uids(b) =~= log_uids(a));
    } else {
        lemma_log_uids_concat(a, b.drop_last());
        assert((a + b).drop_last() =~= a + b.drop_last());
        assert((a + b).last() == b.last());
        if carries_uid(b.last()) {
            assert(log_uids(a) + log_uids(b) =~= (log_uids(a) + log_uids(b.drop_last())).push(
                b.last().data@.take(32),
            ));
        }
    }
}

/// The UIDs of the first `i + 1` logs, from those of the first `i`.
pub proof fn lemma_log_uids_step(logs: Seq<ReceiptLog>, i: int)
    requires
        0 <= i < logs.len(),
    ensures
        log_uids(logs.take(i + 1)) == if carries_uid(logs[i]) {
            log_uids(logs.take(i)).push(logs[i].data@.take(32))
        } else {
            log_uids(logs.take(i))
        },
{
    assert(logs.take(i + 1).drop_last() =~= logs.take(i));
    assert(logs.take(i + 1).last() == logs[i]);
}

/// Copies the first 32 bytes of some data into an array.
fn first_32(data: &Vec<u8>) -> (a: [u8; 32])
    requires
        data@.len() >= 32,
    ensures
        a@ == data@.take(32),
{
    let mut a = [0u8; 32];
    let mut i: usize = 0;
    while i < 32
        invariant
            i <= 32,
            data@.len() >= 32,
            forall|j: int| 0 <= j < i ==> a@[j] == data@[j],
        decreases 32 - i,
    {
        a[i] = data[i];
        i = i + 1;
    }
    assert(a@ =~= data@.take(32));
    a
}

/// The UID of a single attestation: that of the first log carrying one.
pub fn extract_uid_from_receipt(logs: &[ReceiptLog]) -> (res: Result<[u8; 32], EasError>)
    ensures
        log_uids(logs@).len() == 0 ==> (res matches Err(
            EasError::Contract(ContractError::UidExtractionFailed),
        )),
        log_uids(logs@).len() > 0 ==> (res matches Ok(u) && u@ == log_uids(logs@)[0]),
{
    let mut i: usize = 0;
    while i < logs.len()
        invariant
            i <= logs@.len(),
            log_uids(logs@.take(i as int)).len() == 0,
        decreases logs@.len() - i,
    {
        proof {
            lemma_log_uids_step(logs@, i as int);
        }
        let log = &logs[i];
        if log.topic_count >= 2 && log.data.len() >= 32 {
            let uid = first_32(&log.data);
            proof {
                lemma_log_uids_concat(logs@.take(i + 1), logs@.skip(i + 1));
                assert(logs@.take(i + 1) + logs@.skip(i + 1) =~= logs@);
                assert(log_uids(logs@.take(i + 1)) =~= seq![logs@[i as int].data@.take(32)]);
            }
            return Ok(uid);
        }
        i = i + 1;
    }
    assert(logs@.take(logs@.len() as int) =~= logs@);
    Err(EasError::Contract(ContractError::UidExtractionFailed))
}

/// The UIDs of a batch: those of all logs carrying one, in order.
pub fn extract_uids_from_receipt(logs: &[ReceiptLog]) -> (res: Result<Vec<[u8; 32]>, EasError>)
    ensures
        log_uids(logs@).len() == 0 ==> (res matches Err(
            EasError::Contract(ContractError::UidExtractionFailed),
        )),
        log_uids(logs@).len() > 0 ==> (res matches Ok(v) && v@.len() == log_uids(logs@).len()
            && forall|j: int| 0 <= j < v@.len() ==> (#[trigger] v@[j])@ == log_uids(logs@)[j]),
{
    let mut uids: Vec<[u8; 32]> = Vec::new();
    let mut i: usize = 0;
    while i < logs.len()
        invariant
            i <= logs@.len(),
            uids@.len() == log_uids(logs@.take(i as int)).len(),
            forall|j: int|
                0 <= j < uids@.len() ==> (#[trigger] uids@[j])@ == log_uids(logs@.take(i as int))[j],
        decreases logs@.len() - i,
    {
        proof {
            lemma_log_uids_step(logs@, i as int);
        }
        let log = &logs[i];
        if log.topic_count >= 2 && log.data.len() >= 32 {
            let uid = first_32(&log.data);
            uids.push(uid);
        }
        i = i + 1;
    }
    assert(logs@.take(logs@.len() as int) =~= logs@);
    if uids.len() == 0 {
        return Err(EasError::Contract(ContractError::UidExtractionFailed));
    }
    Ok(uids)
}

/// The record of an attestation just created from `request` in the
/// transaction `tx_hash`, with UID `uid`, at `now_secs` Unix seconds. The
/// attester is left empty.
pub fn attestation_from_receipt(
    request: &AttestationRequest,
    tx_hash: &[u8; 32],
    uid: &[u8; 32],
    now_secs: i64,
) -> (a: Attestation)
    ensures
        a.uid@ == "0x"@ + hex_lower(uid@),
        a.schema_uid@ == request.schema_uid@,
        a.data@ == request.data@,
        a.attester@ == Seq::<char>::empty(),
        a.recipient@ == request.recipient@,
        a.revocable == request.revocable,
        !a.revoked,
        a.timestamp == now_secs as u64,
        a.expiration_time == request.expiration_time,
        a.transaction_hash@ == "0x"@ + hex_lower(tx_hash@),
{
    let data = request.data.clone();
    assert(data@ =~= request.data@);
    Attestation {
        uid: prefixed_hex(uid),
        schema_uid: request.schema_uid.clone(),
        data,
        attester: String::new(),
        recipient: request.recipient.clone(),
        revocable: request.revocable,
        revoked: false,
        timestamp: now_secs as u64,
        expiration_time: request.expiration_time,
        transaction_hash: prefixed_hex(tx_hash),
    }
}

/// An attestation as the EAS contract stores it.
#[derive(Debug, Clone)]
pub struct OnchainAttestation {
    pub uid: [u8; 32],
    pub schema: [u8; 32],
    pub time: u64,
    pub expiration_time: u64,
    pub revocation_time: u64,
    pub ref_uid: [u8; 32],
    pub recipient: [u8; 20],
    pub attester: [u8; 20],
    pub revocable: bool,
    pub data: Vec<u8>,
}

/// The record of an attestation read from the contract: UIDs and addresses
/// as `0x` followed by lowercase hex, revoked when it has a revocation
/// time, and no transaction hash.
pub fn attestation_from_record(record: &OnchainAttestation) -> (a: Attestation)
    ensures
        a.uid@ == "0x"@ + hex_lower(record.uid@),
        a.schema_uid@ == "0x"@ + hex_lower(record.schema@),
        a.data@ == record.data@,
        a.attester@ == "0x"@ + hex_lower(record.attester@),
        a.recipient@ == "0x"@ + hex_lower(record.recipient@),
        a.revocable == record.revocable,
        a.revoked == (record.revocation_time > 0),
        a.timestamp == record.time,
        a.expiration_time == record.expiration_time,
        a.transaction_hash@ == Seq::<char>::empty(),
{
    let data = record.data.clone();
    assert(data@ =~= record.data@);
    Attestation {
        uid: prefixed_hex(&record.uid),
        schema_uid: prefixed_hex(&record.schema),
        data,
        attester: prefixed_hex(&record.attester),
        recipient: prefixed_hex(&record.recipient),
        revocable: record.revocable,
        revoked: record.revocation_time > 0,
        timestamp: record.time,
        expiration_time: record.expiration_time,
        transaction_hash: String::new(),
    }
}

/// The result of a batch: each UID and the transaction hash as `0x`
/// followed by lowercase hex, and the time of the batch.
pub fn batch_result(uids: &[[u8; 32]], tx_hash: &[u8; 32], timestamp: UtcTimestamp) -> (r:
    BatchAttestationResult)
    ensures
        r.uids@.len() == uids@.len(),
        forall|j: int| 0 <= j < uids@.len() ==> (#[trigger] r.uids@[j])@ == "0x"@ + hex_lower(uids@[j]@),
        r.transaction_hash@ == "0x"@ + hex_lower(tx_hash@),
        r.timestamp == timestamp,
{
    let mut texts: Vec<String> = Vec::new();
    let mut i: usize = 0;
    while i < uids.len()
        invariant
            i <= uids@.len(),
            texts@.len() == i,
            forall|j: int| 0 <= j < i ==> (#[trigger] texts@[j])@ == "0x"@ + hex_lower(uids@[j]@),
        decreases uids@.len() - i,
    {
        let t = prefixed_hex(&uids[i]);
        texts.push(t);
        i = i + 1;
    }
    BatchAttestationResult { uids: texts, transaction_hash: prefixed_hex(tx_hash), timestamp }
}

/// A request made by `AttestationRequest::simple` always has a recipient
/// and a reference UID that parse: the zero address and the zero bytes32.
pub proof fn lemma_simple_request_parses(r: AttestationRequest)
    requires
        r.recipient@ == zero_hex(40),
        r.ref_uid@ == zero_hex(64),
    ensures
        request_parses(r),
{
    reveal_strlit("0x");
    let a = zero_hex(40);
    assert(is_address_text(a)) by {
        assert forall|i: int| 2 <= i < 42 implies {
            let c = #[trigger] a[i];
            ('0' <= c <= '9') || ('a' <= c <= 'f') || ('A' <= c <= 'F')
        } by {
            assert(a[i] == '0');
        }
    }
    lemma_address_text_parses(a);
    let u = zero_hex(64);
    assert(is_ascii_chars(u)) by {
        assert forall|i: int| 0 <= i < u.len() implies '\0' <= #[trigger] u[i] <= '\u{7f}' by {
            if i >= 2 {
                assert(u[i] == '0');
            }
        }
    }
    is_ascii_chars_encode_utf8(u);
    let b = encode_utf8(u);
    assert(b[0] == u[0] as u8);
    assert(b[1] == u[1] as u8);
    let d = strip_0x(b);
    assert(d =~= b.skip(2));
    assert forall|i: int| 0 <= i < d.len() implies crate::hexcodec::is_hex_digit(#[trigger] d[i]) by {
        assert(d[i] == b[i + 2]);
        assert(b[i + 2] == u[i + 2] as u8);
        assert(u[i + 2] == '0');
    }
}

} // verus!
