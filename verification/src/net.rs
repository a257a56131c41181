pub mod order;
pub mod socket;
