//! Decision logic of a filesystem call auditor: which calls are recorded,
//! what each record says, and which descriptors are being followed.
//!
//! Nothing here touches the operating system. A caller forwards a call,
//! captures its result and error code, and hands those values in; the
//! functions here answer with the text to append to the trail, if any.

pub mod decimal;
pub mod scope;
pub mod registry;
pub mod record;
pub mod shim;
pub mod history;
