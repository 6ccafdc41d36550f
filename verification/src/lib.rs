//! Translation of quantum circuits into the instruction format of AQT
//! devices, the bookkeeping of a remote job from submission to its result,
//! and the decoding of measured samples into classical output registers.

pub mod backend;
pub mod decoder;
pub mod devices;
pub mod errors;
pub mod execution;
pub mod interface;
pub mod operations;
pub mod registers;

pub use backend::{
    AqtCircuit, AqtJob, AqtPayload, AqtQuerryResponse, AqtResourceDetails, AqtRunData, AqtRunResponse,
    Backend,
};
pub use devices::{AqtApi, AqtDevice};
pub use errors::{BackendError, Endpoint, NetworkFailure};
pub use execution::{Action, Execution, Method, Reply, Request};
pub use interface::{call_circuit, call_operation, Angle, AqtInstruction};
pub use operations::{Operation, Parameter};
pub use registers::{merge_results, RegisterMap, Registers};
