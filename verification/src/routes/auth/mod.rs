pub mod login;
pub mod signup_activate_resend;
