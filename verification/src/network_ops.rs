//! Creating and reconfiguring the network: the one-time bootstrap and
//! the authority's configuration updates.

use vstd::prelude::*;

use crate::errors::ErrorCode;
use crate::hashing::spec_genesis_hash;
use crate::keys::{key_eq, Key};
use crate::network_config::{
    spec_measurement_listed, spec_measurements_after_add, CodeMeasurement, NetworkConfig,
    CODE_MEASUREMENT_CAPACITY,
};
use crate::node_ops::MAX_CID_LEN;
use crate::task::{Task, TaskStatus, TaskType};

verus! {

/// True when the record is a freshly allocated task slot: idle, empty,
/// and chained to the genesis digest.
pub open spec fn spec_is_initial_task(t: Task, slot: u64, chain: Seq<u8>) -> bool {
    &&& t.task_slot_id == slot
    &&& t.session_slot_id is None
    &&& t.status == TaskStatus::Ready
    &&& t.compute_node is None
    &&& t.task_type == TaskType::Completion(0)
    &&& t.chain_proof@ == chain
    &&& t.task_index == 0
    &&& t.max_task_cost == 0
    &&& t.max_call_count == 0
    &&& t.call_count == 0
    &&& t.input_cid is None
    &&& t.output_cid is None
    &&& t.pending_input_cid is None
    &&& t.pending_output_cid is None
    &&& t.validations@.len() == 0
}

/// Build one idle task slot chained to the given digest.
pub fn initial_task(slot: u64, chain_proof: [u8; 32]) -> (r: Task)
    ensures
        spec_is_initial_task(r, slot, chain_proof@),
{
    Task {
        task_slot_id: slot,
        session_slot_id: None,
        status: TaskStatus::Ready,
        compute_node: None,
        task_type: TaskType::Completion(0),
        chain_proof,
        task_index: 0,
        max_task_cost: 0,
        max_call_count: 0,
        call_count: 0,
        input_cid: None,
        output_cid: None,
        pending_input_cid: None,
        pending_output_cid: None,
        validations: Vec::new(),
    }
}

/// Pre-allocate the requested number of task slots, each idle and
/// chained to the genesis digest.
pub fn pre_allocate_tasks(allocate_tasks: u64, genesis: &[u8; 32]) -> (r: Vec<Task>)
    requires
        allocate_tasks <= usize::MAX,
    ensures
        r@.len() == allocate_tasks,
        forall|i: int|
            0 <= i < allocate_tasks ==> spec_is_initial_task(#[trigger] r@[i], i as u64, genesis@),
{
    let mut tasks: Vec<Task> = Vec::new();
    let count = allocate_tasks as usize;
    let mut i: usize = 0;
    while i < count
        invariant
            0 <= i <= count,
            count == allocate_tasks <= usize::MAX,
            tasks@.len() == i,
            forall|j: int|
                0 <= j < i ==> spec_is_initial_task(#[trigger] tasks@[j], j as u64, genesis@),
        decreases count - i,
    {
        tasks.push(initial_task(i as u64, *genesis));
        i = i + 1;
    }
    tasks
}

/// Why the bootstrap is refused, if it is.
pub open spec fn spec_initialize_network_result(
    measurement_count: int,
    cid_len: int,
) -> Result<(), ErrorCode> {
    if measurement_count == 0 {
        Err(ErrorCode::NeedAtLeastOneCodeMeasurement)
    } else if measurement_count > CODE_MEASUREMENT_CAPACITY {
        Err(ErrorCode::TooManyCodeMeasurements)
    } else if cid_len > MAX_CID_LEN {
        Err(ErrorCode::InvalidCID)
    } else {
        Ok(())
    }
}

/// The one-time bootstrap: create the configuration record under the
/// given authority, seed the approved measurement list (one to ten
/// entries), fix the validation quorum, and pre-allocate the requested
/// task slots, all chained to the genesis digest.
pub fn initialize_network(
    authority: Key,
    cid_config: Vec<u8>,
    allocate_tasks: u64,
    approved_code_measurements: Vec<CodeMeasurement>,
    required_validations: u32,
) -> (r: Result<(NetworkConfig, Vec<Task>), ErrorCode>)
    requires
        allocate_tasks <= usize::MAX,
    ensures
        match r {
            Ok((config, tasks)) => {
                &&& spec_initialize_network_result(
                    approved_code_measurements@.len() as int,
                    cid_config@.len() as int,
                ) is Ok
                &&& config.authority == authority
                &&& config.cid_config == cid_config
                &&& config.genesis_hash@ == spec_genesis_hash()
                &&& config.task_count == allocate_tasks
                &&& config.required_validations == required_validations
                &&& config.allowed_models@ == Seq::<u64>::empty()
                &&& config.approved_confidential_nodes@ == Seq::<Key>::empty()
                &&& config.approved_public_nodes@ == Seq::<Key>::empty()
                &&& config.agent_count == 0
                &&& config.session_count == 0
                &&& config.approved_code_measurements == approved_code_measurements
                &&& tasks@.len() == allocate_tasks
                &&& forall|i: int|
                    0 <= i < allocate_tasks ==> spec_is_initial_task(
                        #[trigger] tasks@[i],
                        i as u64,
                        spec_genesis_hash(),
                    )
            },
            Err(e) => spec_initialize_network_result(
                approved_code_measurements@.len() as int,
                cid_config@.len() as int,
            ) == Err::<(), ErrorCode>(e),
        },
{
    if approved_code_measurements.len() == 0 {
        return Err(ErrorCode::NeedAtLeastOneCodeMeasurement);
    }
    if approved_code_measurements.len() > CODE_MEASUREMENT_CAPACITY {
        return Err(ErrorCode::TooManyCodeMeasurements);
    }
    if cid_config.len() > MAX_CID_LEN {
        return Err(ErrorCode::InvalidCID);
    }
    let genesis = crate::hashing::genesis_hash();
    let tasks = pre_allocate_tasks(allocate_tasks, &genesis);
    let config = NetworkConfig {
        authority,
        cid_config,
        genesis_hash: genesis,
        task_count: allocate_tasks,
        required_validations,
        allowed_models: Vec::new(),
        approved_confidential_nodes: Vec::new(),
        approved_public_nodes: Vec::new(),
        agent_count: 0,
        session_count: 0,
        approved_code_measurements,
    };
    Ok((config, tasks))
}

/// Why a configuration update is refused, if it is.
pub open spec fn spec_update_network_config_result(
    config: NetworkConfig,
    caller: Seq<u8>,
    cid_config: Option<Vec<u8>>,
) -> Result<(), ErrorCode> {
    if config.authority@ != caller {
        Err(ErrorCode::InvalidAuthority)
    } else if match cid_config {
        Some(c) => c@.len() > MAX_CID_LEN,
        None => false,
    } {
        Err(ErrorCode::InvalidCID)
    } else {
        Ok(())
    }
}

/// The authority replaces the configuration reference, adds a code
/// measurement, or both.  A measurement already on the approved list
/// is left where it is; a new one goes to the front, evicting the
/// oldest entry once the list is at capacity.
pub fn update_network_config(
    config: &mut NetworkConfig,
    caller: &Key,
    cid_config: Option<Vec<u8>>,
    new_code_measurement: Option<CodeMeasurement>,
) -> (r: Result<(), ErrorCode>)
    ensures
        r == spec_update_network_config_result(*old(config), caller@, cid_config),
        r is Ok ==> *final(config) == (NetworkConfig {
            cid_config: final(config).cid_config,
            approved_code_measurements: final(config).approved_code_measurements,
            ..*old(config)
        }),
        r is Ok ==> final(config).cid_config == (match cid_config {
            Some(c) => c,
            None => old(config).cid_config,
        }),
        r is Ok ==> final(config).approved_code_measurements@ == (match new_code_measurement {
            Some(m) => if spec_measurement_listed(
                old(config).approved_code_measurements@,
                m.measurement@,
            ) {
                old(config).approved_code_measurements@
            } else {
                spec_measurements_after_add(old(config).approved_code_measurements@, m)
            },
            None => old(config).approved_code_measurements@,
        }),
        r is Err ==> *final(config) == *old(config),
{
    if !key_eq(&config.authority, caller) {
        return Err(ErrorCode::InvalidAuthority);
    }
    if let Some(c) = &cid_config {
        if c.len() > MAX_CID_LEN {
            return Err(ErrorCode::InvalidCID);
        }
    }
    if let Some(new_cid) = cid_config {
        config.cid_config = new_cid;
    }
    if let Some(measurement) = new_code_measurement {
        if !config.is_measurement_approved(&measurement.measurement) {
            config.add_code_measurement(measurement.measurement, measurement.version);
        }
    }
    Ok(())
}

} // verus!
