pub mod auth_wizard;
