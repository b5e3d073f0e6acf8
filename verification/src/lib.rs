pub mod avatar;
pub mod filter;
pub mod filter_set;
pub mod indices;
pub mod json;
pub mod keys;
pub mod order;
pub mod people;
pub mod post;
pub mod people_laws;
pub mod person;
pub mod records;
pub mod search;
pub mod subscription_laws;
pub mod text;
pub mod url;
