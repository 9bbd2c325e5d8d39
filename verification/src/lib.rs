pub mod air;
pub mod check_constraints;
pub mod field;
pub mod folder;
pub mod layout;
pub mod matrix;
pub mod symbolic;
pub mod symbolic_builder;
pub mod util;
