pub mod conn_ep;
pub mod connless_ep;
pub mod cq;
pub mod ctx;
