//! The calls into the CKB crates and into `rand` that the context's logic makes.
//!
//! Each function here is trusted: Verus believes its contract and does not read its
//! body. Hash functions and random number generators are not written out; their
//! results are named by spec functions without a body.
use vstd::prelude::*;
use crate::types::{CellOutput, Header, Message, OutPoint, OutPointModel, Script, ScriptModel, CellOutputModel, zero_hash};
use ckb_types::packed;
use ckb_types::prelude::{Builder, Entity};
use rand::{Rng, SeedableRng};

verus! {

/// The hash that `packed::CellOutput::calc_data_hash` gives for the data.
pub uninterp spec fn calc_data_hash_of(data: Seq<u8>) -> Seq<u8>;

/// The hash that `packed::Script::calc_script_hash` gives for the script.
pub uninterp spec fn calc_script_hash_of(script: ScriptModel) -> Seq<u8>;

/// The hash that `packed::Header::calc_header_hash` gives for the header.
pub uninterp spec fn calc_header_hash_of(header: Header) -> Seq<u8>;

/// The two 32-byte blocks that `rand::rngs::StdRng`, seeded with `seed`, fills first.
pub uninterp spec fn std_rng_fills_of(seed: Seq<u8>) -> (Seq<u8>, Seq<u8>);

/// Calls `packed::CellOutput::calc_data_hash`: the all-zero hash for empty data,
/// otherwise the blake2b-256 hash of the data.
#[verifier::external_body]
pub(crate) fn calc_data_hash(data: &[u8]) -> (h: [u8; 32])
    ensures
        h@ == calc_data_hash_of(data@),
        data@.len() == 0 ==> h@ == zero_hash(),
{
    packed::CellOutput::calc_data_hash(data).into()
}

/// Calls `packed::Script::calc_script_hash` on the packed form of the script.
#[verifier::external_body]
pub(crate) fn calc_script_hash(s: &Script) -> (h: [u8; 32])
    ensures
        h@ == calc_script_hash_of(s@),
{
    packed::Script::new_builder()
        .code_hash(packed::Byte32::from(&s.code_hash))
        .hash_type(packed::Byte::new(s.hash_type))
        .args(packed::Bytes::from(s.args.as_slice()))
        .build()
        .calc_script_hash()
        .into()
}

/// Calls `packed::Header::calc_header_hash` on the packed form of the header.
#[verifier::external_body]
pub(crate) fn calc_header_hash(h: &Header) -> (r: [u8; 32])
    ensures
        r@ == calc_header_hash_of(*h),
{
    let raw = packed::RawHeader::new_builder()
        .version(h.version)
        .compact_target(h.compact_target)
        .timestamp(h.timestamp)
        .number(h.number)
        .epoch(h.epoch)
        .parent_hash(packed::Byte32::from(&h.parent_hash))
        .transactions_root(packed::Byte32::from(&h.transactions_root))
        .proposals_hash(packed::Byte32::from(&h.proposals_hash))
        .extra_hash(packed::Byte32::from(&h.extra_hash))
        .dao(packed::Byte32::from(&h.dao))
        .build();
    packed::Header::new_builder().raw(raw).nonce(h.nonce).build().calc_header_hash().into()
}

/// Number of shannons in the capacity that one byte occupies.
pub open spec fn shannons_per_byte() -> int {
    100_000_000
}

/// Bytes that a script occupies: code hash, hash type and arguments.
pub open spec fn script_occupied_bytes(s: ScriptModel) -> int {
    32 + 1 + s.args.len() as int
}

/// Bytes that a cell with `data_len` bytes of data occupies: the capacity field, the
/// data, the lock script and the type script if any.
pub open spec fn cell_occupied_bytes(c: CellOutputModel, data_len: int) -> int {
    8 + data_len + script_occupied_bytes(c.lock) + match c.type_ {
        Some(t) => script_occupied_bytes(t),
        None => 0,
    }
}

/// The occupied capacity in shannons, or `None` where it does not fit in a `u64`.
pub open spec fn occupied_capacity_of(c: CellOutputModel, data_len: int) -> Option<u64> {
    let shannons = cell_occupied_bytes(c, data_len) * shannons_per_byte();
    if shannons <= u64::MAX {
        Some(shannons as u64)
    } else {
        None
    }
}

/// Calls `Capacity::bytes` on the data length and `packed::CellOutput::occupied_capacity`:
/// one hundred million shannons per occupied byte, `None` on overflow.
#[verifier::external_body]
pub(crate) fn occupied_capacity(c: &CellOutput, data_len: usize) -> (r: Option<u64>)
    ensures
        r == occupied_capacity_of(c@, data_len as int),
{
    let pack = |x: &Script| packed::Script::new_builder()
        .code_hash(packed::Byte32::from(&x.code_hash))
        .hash_type(packed::Byte::new(x.hash_type))
        .args(packed::Bytes::from(x.args.as_slice()))
        .build();
    let cell = packed::CellOutput::new_builder().capacity(c.capacity).lock(pack(&c.lock))
        .type_(c.type_.as_ref().map(pack)).build();
    match ckb_types::core::Capacity::bytes(data_len) {
        Ok(d) => match cell.occupied_capacity(d) {
            Ok(cap) => Some(cap.as_u64()),
            Err(_) => None,
        },
        Err(_) => None,
    }
}

/// Fills 32 bytes from `rand::thread_rng`. Nothing is stated of the bytes.
#[verifier::external_body]
pub(crate) fn random_bytes() -> (r: [u8; 32]) {
    let mut buf = [0u8; 32];
    rand::thread_rng().fill(&mut buf);
    buf
}

/// Seeds `rand::rngs::StdRng` with `seed` and fills two 32-byte blocks from it, in order.
#[verifier::external_body]
pub(crate) fn seeded_random_pair(seed: &[u8; 32]) -> (r: ([u8; 32], [u8; 32]))
    ensures
        (r.0@, r.1@) == std_rng_fills_of(seed@),
{
    let mut rng = rand::rngs::StdRng::from_seed(*seed);
    let mut first = [0u8; 32];
    rng.fill(&mut first);
    let mut second = [0u8; 32];
    rng.fill(&mut second);
    (first, second)
}

/// The code hash of the type ID script: "TYPE_ID" in ASCII, right-aligned in 32 bytes.
pub open spec fn type_id_code_hash_bytes() -> Seq<u8> {
    Seq::new(25, |i: int| 0u8) + seq![0x54u8, 0x59u8, 0x50u8, 0x45u8, 0x5fu8, 0x49u8, 0x44u8]
}

/// Reads `ckb_chain_spec::consensus::TYPE_ID_CODE_HASH`.
#[verifier::external_body]
pub(crate) fn type_id_code_hash() -> (r: [u8; 32])
    ensures
        r@ == type_id_code_hash_bytes(),
{
    ckb_chain_spec::consensus::TYPE_ID_CODE_HASH.0
}

/// The little-endian `u32` in the four bytes of `b` from `at`.
pub open spec fn le_u32_at(b: Seq<u8>, at: int) -> u32 {
    (b[at] as int + b[at + 1] as int * 0x100 + b[at + 2] as int * 0x10000 + b[at + 3] as int
        * 0x1000000) as u32
}

/// Size in bytes of a serialized out point: a 32-byte hash and a 4-byte index.
pub open spec fn out_point_size() -> int {
    36
}

/// The out point serialized at item `i` of an out point vector.
pub open spec fn out_point_item(data: Seq<u8>, i: int) -> OutPointModel {
    let start = 4 + out_point_size() * i;
    OutPointModel { tx_hash: data.subrange(start, start + 32), index: le_u32_at(data, start + 32) }
}

/// An out point vector: a little-endian `u32` count followed by that many 36-byte out
/// points, and nothing else. `None` where the bytes are not one.
pub open spec fn parse_out_point_vec(data: Seq<u8>) -> Option<Seq<OutPointModel>> {
    if data.len() >= 4 && data.len() == 4 + out_point_size() * le_u32_at(data, 0) {
        Some(Seq::new(le_u32_at(data, 0) as nat, |i: int| out_point_item(data, i)))
    } else {
        None
    }
}

/// The size that `packed::OutPointVec::from_slice` computes from the count fits in a `usize`.
pub open spec fn out_point_vec_size_fits(data: Seq<u8>) -> bool {
    data.len() < 4 || 4 + out_point_size() * le_u32_at(data, 0) <= usize::MAX
}

/// Calls `packed::OutPointVec::from_slice` and reads out each out point.
#[verifier::external_body]
pub(crate) fn parse_out_points(data: &[u8]) -> (r: Option<Vec<OutPoint>>)
    requires
        out_point_vec_size_fits(data@),
    ensures
        r matches Some(v) ==> parse_out_point_vec(data@) == Some(v@.map_values(|o: OutPoint| o@)),
        r is None ==> parse_out_point_vec(data@) is None,
{
    match packed::OutPointVec::from_slice(data) {
        Ok(v) => {
            let mut out = Vec::new();
            for op in v.into_iter() {
                out.push(OutPoint { tx_hash: op.tx_hash().into(), index: op.index().into() });
            }
            Some(out)
        },
        Err(_) => None,
    }
}

/// `std::sync::Mutex`: a value behind a lock. Verus sees nothing inside it.
#[verifier::external_type_specification]
#[verifier::external_body]
#[verifier::reject_recursive_types(T)]
pub struct ExMutex<T: ?Sized>(std::sync::Mutex<T>);

/// Calls `std::sync::Mutex::new` on an empty list of messages.
#[verifier::external_body]
pub(crate) fn new_message_lock() -> (r: std::sync::Mutex<Vec<Message>>) {
    std::sync::Mutex::new(Vec::new())
}

/// Calls `std::sync::Mutex::try_lock` and copies the messages it guards, in order;
/// `None` where the lock is held at that moment, by this thread or another. A lock that
/// a panicking thread left poisoned still yields its messages. Nothing is stated of the
/// messages: every clone of a context holds the same lock and can add to the list.
#[verifier::external_body]
pub(crate) fn copy_locked_messages(lock: &std::sync::Mutex<Vec<Message>>) -> (r: Option<Vec<Message>>) {
    let guard = match lock.try_lock() {
        Ok(guard) => guard,
        Err(std::sync::TryLockError::Poisoned(e)) => e.into_inner(),
        Err(std::sync::TryLockError::WouldBlock) => return None,
    };
    Some(guard.iter().map(|m| Message { id: m.id, message: m.message.clone() }).collect())
}

/// The path that `std::path::PathBuf::push` makes of `base` and `part`.
pub uninterp spec fn pushed_path_of(base: Seq<char>, part: Seq<char>) -> Seq<char>;

/// The path that `std::path::PathBuf::pop` leaves of `path`.
pub uninterp spec fn popped_path_of(path: Seq<char>) -> Seq<char>;

/// The string that `str::replace` makes of `s`, with every match of `from` replaced by `to`.
pub uninterp spec fn replaced_of(s: Seq<char>, from: Seq<char>, to: Seq<char>) -> Seq<char>;

/// Calls `std::path::PathBuf::push` on `base` with `part`. Both are UTF-8, so the path
/// converts back to a string without loss.
#[verifier::external_body]
pub(crate) fn push_path(base: &str, part: &str) -> (r: String)
    ensures
        r@ == pushed_path_of(base@, part@),
{
    let mut p = std::path::PathBuf::from(base);
    p.push(part);
    p.to_string_lossy().into_owned()
}

/// Calls `std::path::PathBuf::pop` on `path`: the path without its last component.
#[verifier::external_body]
pub(crate) fn pop_path(path: &str) -> (r: String)
    ensures
        r@ == popped_path_of(path@),
{
    let mut p = std::path::PathBuf::from(path);
    p.pop();
    p.to_string_lossy().into_owned()
}

/// Calls `str::replace`: `s` with every match of `from` replaced by `to`.
#[verifier::external_body]
pub(crate) fn replace_text(s: &str, from: &str, to: &str) -> (r: String)
    ensures
        r@ == replaced_of(s@, from@, to@),
{
    s.replace(from, to)
}

/// Calls `String::push_str`: `s` followed by `t`.
#[verifier::external_body]
pub(crate) fn append_text(s: String, t: &str) -> (r: String)
    ensures
        r@ == s@ + t@,
{
    let mut s = s;
    s.push_str(t);
    s
}

} // verus!
