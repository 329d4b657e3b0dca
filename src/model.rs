pub mod elevator;
pub mod operation;
pub mod travel;
