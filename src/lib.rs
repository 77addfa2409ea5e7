pub mod instruction;
pub mod lemmas;
pub mod machine;
pub mod memory;
pub mod registers;
