//! Account, follow and profile rules of the HelloJudge user service.

pub mod text;
pub mod numeric;
pub mod entity_model;
pub mod follow;
pub mod password;
pub mod pattern;
pub mod token;
pub mod forms;
pub mod login;
pub mod registration;
pub mod password_reset;
pub mod email_change;
pub mod admin_mode;
pub mod permission_group;
pub mod profile;
pub mod mail;
pub mod login_state;
pub mod laws;
