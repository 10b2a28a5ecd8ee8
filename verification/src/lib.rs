pub mod message;
pub mod fees;
pub mod laws;
pub mod record;
pub mod scan;
