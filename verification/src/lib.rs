pub mod decimal;
pub mod key;
pub mod model;
pub mod producer;
pub mod record;
pub mod route;
