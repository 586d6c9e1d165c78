pub mod consumer;
pub mod data_frame;

pub use consumer::DefaultConsumer;
pub use consumer::DroppedValueConsumer;
pub use data_frame::DataFrame;
