pub mod addr;
pub mod async_;
pub mod caps;
pub mod comm;
pub mod conn_ep;
pub mod connless_ep;
pub mod cq;
pub mod domain;
pub mod ep;
pub mod error;
pub mod fid;
pub mod mr;
pub mod sync;
pub mod types;

pub use addr::{MapMappedAddress, MappedAddress, RawMappedAddress, TableMappedAddress, UnspecMappedAddress};
pub use caps::{get_eq, get_info, get_sync, EqCaps, FabInfoCaps, FdRetrievable, SyncCaps, WaitRetrievable, Waitable, Writable};
pub use caps::SyncCaps as CntrCaps;
pub use caps::SyncCaps as CqCaps;
pub use types::{AsFiType, DataType};
