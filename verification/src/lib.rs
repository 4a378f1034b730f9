//! Compiler core for a line-oriented template format that describes a
//! hierarchical namespace: named regex patterns, named nodes and edges are
//! parsed one line at a time, checked by a section-ordering state machine,
//! and loaded into a directed graph plus two symbol tables.

pub mod components;
pub mod errors;
pub mod graph;
pub mod helpers;
pub mod laws;
pub mod loader;
pub mod parser;
pub mod pattern;
pub mod statemachine;
pub mod symbols;

pub use components::ParseResult;
pub use components::edge::Edge;
pub use components::metadata::Metadata;
pub use components::metadata::MetadataComponent;
pub use components::node::Node;
pub use components::regex::Regex;
pub use parser::header::Header;
pub use errors::JSPTemplateError;
pub use errors::JSPTemplateLineError;
pub use statemachine::State;
pub use statemachine::StateMachine;
pub use loader::Loader;
pub use loader::JGraphKeyMap;
pub use loader::RegexMap;
pub use graph::JGraph;
pub use graph::NIndex;
