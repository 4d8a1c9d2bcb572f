use vstd::prelude::*;

pub mod answer_map;
pub mod answers;
pub mod catalog;
pub mod decimal;
pub mod layout;
pub mod prompt;
pub mod protocol;
pub mod safe;
pub mod server;
pub mod source;
pub mod switches;
pub mod template;
pub mod text;
pub mod validation;
pub mod value;
