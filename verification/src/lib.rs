pub mod eth2_input;
pub mod interpreter;
pub mod ir_filter;
pub mod ir_loader;
pub mod ir_types;
pub mod json;
pub mod primitives;
pub mod report;
pub mod stubs;
pub mod trace_check;
pub mod trace_format;
pub mod trace_types;
pub mod value;
