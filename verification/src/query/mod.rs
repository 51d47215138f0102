//! The operations that a client can carry out, each as a value.

pub mod get_project_release_list;
pub mod get_project_release_list_page;
