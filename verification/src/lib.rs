//! Verified building blocks of a lighting animation framework: attribute
//! state machines, node arithmetic and the decision logic of its control
//! interfaces.

pub mod effects;
pub mod text;
pub mod grpc_client;
pub mod proto;
pub mod introspection;
pub mod interface_grpc;
pub mod interface_cli;
pub mod interface_mqtt;
pub mod interface_restore;
pub mod grpc_cli;
pub mod lua;
