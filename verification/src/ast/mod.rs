pub mod select;
pub mod ddl;
pub mod delete;
pub mod update;
pub mod query;
pub mod insert;
pub mod statement;
