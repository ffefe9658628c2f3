//! Client-side data modeling for a task-management web API: a credential
//! holder, a new-task request payload with optional fields, a tagged union
//! for the mutually exclusive due-date variants, and a verified JSON
//! serializer that emits exactly the keys that are set.

pub mod json;
pub mod new_task;
pub mod user;

pub use new_task::NewDue;
pub use new_task::NewTask;
pub use user::TodoistUser;
