//! From model files to graphs.

pub mod dsl;
pub mod names;
pub mod onnx;
pub mod proto;
pub mod pt;
pub mod messages;
pub mod laws;
pub mod model_laws;
pub mod message_laws;
pub mod tensor_laws;
pub mod text_form;
pub mod leniency;
