pub mod create_task;
pub mod create_user;
pub mod delete_task;
pub mod login;
