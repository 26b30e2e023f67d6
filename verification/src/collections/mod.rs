pub mod slot_bits;
pub mod waker_page;
