//! Page-retrieval wire protocol between compute nodes and the page server,
//! and the tenant / timeline lifecycle that decides whether a page request
//! may be served.

pub mod id;
pub mod lsn;
pub mod models;
pub mod records;
pub mod reltag;
pub mod wire;
