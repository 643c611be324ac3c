pub mod batch;
pub mod cache;
pub mod client;
pub mod commitment;
pub mod error;
pub mod fee;
pub mod header;
pub mod info;
pub mod meta;
pub mod payload;
pub mod quorum;
pub mod record;
pub mod response;
pub mod status;
pub mod verification;
pub mod wire;

pub use client::{
    EigenDaGrpcClient, EigenDaGrpcClientBuilder, GrpcCall, GrpcOutput, finish_dispersal,
    status_document, transport_outcome,
};
