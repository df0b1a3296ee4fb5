//! The variables of the requests that the project service answers. The
//! requests are sent elsewhere; here is what each of them carries.

pub mod create_md_project;
pub mod delete_md_project;
pub mod generate_concept;
pub mod generate_model;
pub mod get_md_project;
pub mod get_md_projects;
pub mod update_md_project;
