pub mod health;
pub mod md2html;
