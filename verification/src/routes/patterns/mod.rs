pub mod post;
pub mod post_tb303;
pub mod tb303_laws;
