//! Planning of the per-block, per-address event query.
//!
//! A scan of one address in one block is a single filtered query against the
//! RPC endpoint: the block range covers exactly that block, the filter names
//! the address and the tracked event's selector, and the page size is capped.
//! Only the first page is consumed.  The selector itself comes from the
//! chain's selector computation, called through a trusted wrapper.

use crate::field::FieldValue;
use vstd::prelude::*;

verus! {

/// The page-size cap of one event query.
pub const CHUNK_SIZE: u64 = 100;

/// What the chain's selector computation returns for an event name: a digest
/// of the name, as its 32 big-endian value bytes.
pub uninterp spec fn selector_of(name: Seq<char>) -> Seq<u8>;

/// Relies on starknet's `get_selector_from_name`: the selector depends on the
/// name alone (a keccak digest trimmed to the field width, with two fixed
/// special cases), and a name is accepted exactly when it is ASCII.
#[verifier::external_body]
fn selector_from_name(name: &str) -> (r: Option<FieldValue>)
    ensures
        r matches Some(f) ==> f@ == selector_of(name@) && f@.len() == 32,
        r is Some <==> (forall|i: int| 0 <= i < name@.len() ==> (name@[i] as int) < 128),
{
    match starknet::core::utils::get_selector_from_name(name) {
        Ok(felt) => Some(FieldValue { bytes: felt.to_bytes_be().to_vec() }),
        Err(_) => None,
    }
}

/// The filter key of the tracked event: the selector of its name.
pub fn event_timeout_event_key() -> (r: FieldValue)
    ensures
        r@ == selector_of("EventTimeout"@),
        r.wf(),
{
    proof {
        reveal_strlit("EventTimeout");
        assert(forall|i: int|
            0 <= i < "EventTimeout"@.len() ==> (("EventTimeout"@[i]) as int) < 128);
    }
    match selector_from_name("EventTimeout") {
        Some(key) => key,
        None => vstd::pervasive::unreached(),
    }
}

/// One filtered event query: one block, one address, the tracked key, the
/// first page only.
pub struct ScanRequest {
    pub from_block: u64,
    pub to_block: u64,
    pub address: FieldValue,
    pub key: FieldValue,
    pub chunk_size: u64,
}

/// Plan the scan of one address in one block: the range covers exactly that
/// block, the filter carries the address and the tracked event's key, and
/// the page size is capped.
pub fn scan_request(block_number: u64, contract_address: FieldValue) -> (r: ScanRequest)
    requires
        contract_address.wf(),
    ensures
        r.from_block == block_number,
        r.to_block == block_number,
        r.address@ == contract_address@,
        r.address.wf(),
        r.key@ == selector_of("EventTimeout"@),
        r.key.wf(),
        r.chunk_size == 100,
{
    let key = event_timeout_event_key();
    ScanRequest {
        from_block: block_number,
        to_block: block_number,
        address: contract_address,
        key,
        chunk_size: CHUNK_SIZE,
    }
}

} // verus!
