//! Weights for the host capabilities a contract is allowed to call.

use crate::Weight;
use vstd::prelude::*;

verus! {

/// Describes the weight for each imported function that a contract is
/// allowed to call. Some fields are flat per-call costs, others are "per
/// unit" costs (per byte copied, per topic, per delta key) meant to be
/// multiplied by a runtime-supplied count.
#[derive(Clone, Copy, PartialEq, Eq, Structural, Debug)]
pub struct HostFnWeights {
    /// Weight of calling `seal_caller`.
    pub caller: Weight,
    /// Weight of calling `seal_address`.
    pub address: Weight,
    /// Weight of calling `seal_gas_left`.
    pub gas_left: Weight,
    /// Weight of calling `seal_balance`.
    pub balance: Weight,
    /// Weight of calling `seal_value_transferred`.
    pub value_transferred: Weight,
    /// Weight of calling `seal_minimum_balance`.
    pub minimum_balance: Weight,
    /// Weight of calling `seal_tombstone_deposit`.
    pub tombstone_deposit: Weight,
    /// Weight of calling `seal_rent_allowance`.
    pub rent_allowance: Weight,
    /// Weight of calling `seal_block_number`.
    pub block_number: Weight,
    /// Weight of calling `seal_now`.
    pub now: Weight,
    /// Weight of calling `seal_weight_to_fee`.
    pub weight_to_fee: Weight,
    /// Weight of calling `gas`.
    pub gas: Weight,
    /// Weight of calling `seal_input`.
    pub input: Weight,
    /// Weight per input byte copied to contract memory by `seal_input`.
    pub input_per_byte: Weight,
    /// Weight of calling `seal_return`.
    pub return_: Weight,
    /// Weight per byte returned through `seal_return`.
    pub return_per_byte: Weight,
    /// Weight of calling `seal_terminate`.
    pub terminate: Weight,
    /// Weight per byte of the terminated contract.
    pub terminate_per_code_byte: Weight,
    /// Weight of calling `seal_restore_to`.
    pub restore_to: Weight,
    /// Weight per byte of the restoring contract.
    pub restore_to_per_caller_code_byte: Weight,
    /// Weight per byte of the restored contract.
    pub restore_to_per_tombstone_code_byte: Weight,
    /// Weight per delta key supplied to `seal_restore_to`.
    pub restore_to_per_delta: Weight,
    /// Weight of calling `seal_random`.
    pub random: Weight,
    /// Weight of calling `seal_deposit_event`.
    pub deposit_event: Weight,
    /// Weight per topic supplied to `seal_deposit_event`.
    pub deposit_event_per_topic: Weight,
    /// Weight per byte of an event deposited through `seal_deposit_event`.
    pub deposit_event_per_byte: Weight,
    /// Weight of calling `seal_set_rent_allowance`.
    pub set_rent_allowance: Weight,
    /// Weight of calling `seal_set_storage`.
    pub set_storage: Weight,
    /// Weight per byte of an item stored with `seal_set_storage`.
    pub set_storage_per_byte: Weight,
    /// Weight of calling `seal_clear_storage`.
    pub clear_storage: Weight,
    /// Weight of calling `seal_get_storage`.
    pub get_storage: Weight,
    /// Weight per byte of an item received via `seal_get_storage`.
    pub get_storage_per_byte: Weight,
    /// Weight of calling `seal_transfer`.
    pub transfer: Weight,
    /// Weight of calling `seal_call`.
    pub call: Weight,
    /// Weight per byte of the called contract.
    pub call_per_code_byte: Weight,
    /// Weight surcharge that is claimed if `seal_call` does a balance
    /// transfer.
    pub call_transfer_surcharge: Weight,
    /// Weight per input byte supplied to `seal_call`.
    pub call_per_input_byte: Weight,
    /// Weight per output byte received through `seal_call`.
    pub call_per_output_byte: Weight,
    /// Weight of calling `seal_instantiate`.
    pub instantiate: Weight,
    /// Weight per byte of the instantiated contract.
    pub instantiate_per_code_byte: Weight,
    /// Weight per input byte supplied to `seal_instantiate`.
    pub instantiate_per_input_byte: Weight,
    /// Weight per output byte received through `seal_instantiate`.
    pub instantiate_per_output_byte: Weight,
    /// Weight per salt byte supplied to `seal_instantiate`.
    pub instantiate_per_salt_byte: Weight,
    /// Weight of calling `seal_hash_sha2_256`.
    pub hash_sha2_256: Weight,
    /// Weight per byte hashed by `seal_hash_sha2_256`.
    pub hash_sha2_256_per_byte: Weight,
    /// Weight of calling `seal_hash_keccak_256`.
    pub hash_keccak_256: Weight,
    /// Weight per byte hashed by `seal_hash_keccak_256`.
    pub hash_keccak_256_per_byte: Weight,
    /// Weight of calling `seal_hash_blake2_256`.
    pub hash_blake2_256: Weight,
    /// Weight per byte hashed by `seal_hash_blake2_256`.
    pub hash_blake2_256_per_byte: Weight,
    /// Weight of calling `seal_hash_blake2_128`.
    pub hash_blake2_128: Weight,
    /// Weight per byte hashed by `seal_hash_blake2_128`.
    pub hash_blake2_128_per_byte: Weight,
    /// Weight of calling `seal_rent_params`.
    pub rent_params: Weight,
}

impl HostFnWeights {
    /// The all-zero weight table: every host call is free. This is the
    /// starting point until a benchmark run supplies measured values.
    pub open spec fn spec_zeroed() -> HostFnWeights {
        HostFnWeights {
            caller: 0,
            address: 0,
            gas_left: 0,
            balance: 0,
            value_transferred: 0,
            minimum_balance: 0,
            tombstone_deposit: 0,
            rent_allowance: 0,
            block_number: 0,
            now: 0,
            weight_to_fee: 0,
            gas: 0,
            input: 0,
            input_per_byte: 0,
            return_: 0,
            return_per_byte: 0,
            terminate: 0,
            terminate_per_code_byte: 0,
            restore_to: 0,
            restore_to_per_caller_code_byte: 0,
            restore_to_per_tombstone_code_byte: 0,
            restore_to_per_delta: 0,
            random: 0,
            deposit_event: 0,
            deposit_event_per_topic: 0,
            deposit_event_per_byte: 0,
            set_rent_allowance: 0,
            set_storage: 0,
            set_storage_per_byte: 0,
            clear_storage: 0,
            get_storage: 0,
            get_storage_per_byte: 0,
            transfer: 0,
            call: 0,
            call_per_code_byte: 0,
            call_transfer_surcharge: 0,
            call_per_input_byte: 0,
            call_per_output_byte: 0,
            instantiate: 0,
            instantiate_per_code_byte: 0,
            instantiate_per_input_byte: 0,
            instantiate_per_output_byte: 0,
            instantiate_per_salt_byte: 0,
            hash_sha2_256: 0,
            hash_sha2_256_per_byte: 0,
            hash_keccak_256: 0,
            hash_keccak_256_per_byte: 0,
            hash_blake2_256: 0,
            hash_blake2_256_per_byte: 0,
            hash_blake2_128: 0,
            hash_blake2_128_per_byte: 0,
            rent_params: 0,
        }
    }
}

impl Default for HostFnWeights {
    fn default() -> (r: Self)
        ensures
            r == Self::spec_zeroed(),
    {
        HostFnWeights {
            caller: 0,
            address: 0,
            gas_left: 0,
            balance: 0,
            value_transferred: 0,
            minimum_balance: 0,
            tombstone_deposit: 0,
            rent_allowance: 0,
            block_number: 0,
            now: 0,
            weight_to_fee: 0,
            gas: 0,
            input: 0,
            input_per_byte: 0,
            return_: 0,
            return_per_byte: 0,
            terminate: 0,
            terminate_per_code_byte: 0,
            restore_to: 0,
            restore_to_per_caller_code_byte: 0,
            restore_to_per_tombstone_code_byte: 0,
            restore_to_per_delta: 0,
            random: 0,
            deposit_event: 0,
            deposit_event_per_topic: 0,
            deposit_event_per_byte: 0,
            set_rent_allowance: 0,
            set_storage: 0,
            set_storage_per_byte: 0,
            clear_storage: 0,
            get_storage: 0,
            get_storage_per_byte: 0,
            transfer: 0,
            call: 0,
            call_per_code_byte: 0,
            call_transfer_surcharge: 0,
            call_per_input_byte: 0,
            call_per_output_byte: 0,
            instantiate: 0,
            instantiate_per_code_byte: 0,
            instantiate_per_input_byte: 0,
            instantiate_per_output_byte: 0,
            instantiate_per_salt_byte: 0,
            hash_sha2_256: 0,
            hash_sha2_256_per_byte: 0,
            hash_keccak_256: 0,
            hash_keccak_256_per_byte: 0,
            hash_blake2_256: 0,
            hash_blake2_256_per_byte: 0,
            hash_blake2_128: 0,
            hash_blake2_128_per_byte: 0,
            rent_params: 0,
        }
    }
}

} // verus!
