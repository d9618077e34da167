//! Models that are already on this machine.
//!
//! Ollama keeps the weights of its models as GGUF blobs. This library finds them, works
//! out which HuggingFace model each was made of and what has to be fetched from there,
//! and turns the names of tensors that model code asks for into those of the file.
//!
//! - [`ollama`], [`manifest`], [`store`]: identifiers, manifests, and the local store;
//! - [`resolve`], [`load`], [`hub`]: from an Ollama model to its HuggingFace metadata;
//! - [`gguf`], [`rename`]: GGUF files, and the names of their tensors;
//! - [`list`](mod@list): the list of local models;
//! - [`text`], [`paths`], [`sorting`], [`json`]: what the others rest on;
//! - [`rename_rows`]: facts about the tables of tensor names;
//! - [`text_laws`], [`ollama_laws`], [`store_laws`], [`resolve_laws`], [`hub_laws`],
//!   [`list_laws`], [`rename_laws`], [`rename_names`]: what holds of them as a whole.
//!
//! Nothing here touches a disk or a network: the program reads, and hands over what it
//! read.
pub mod gguf;
pub mod hub;
pub mod hub_laws;
pub mod json;
pub mod list;
pub mod list_laws;
pub mod load;
pub mod manifest;
pub mod ollama;
pub mod ollama_laws;
pub mod paths;
pub mod rename;
pub mod rename_laws;
pub mod rename_names;
pub mod rename_rows;
pub mod resolve;
pub mod resolve_laws;
pub mod sorting;
pub mod store;
pub mod store_laws;
pub mod text;
pub mod text_laws;
