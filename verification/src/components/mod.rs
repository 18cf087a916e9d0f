pub mod auth_wizard;
pub mod prot_play;
