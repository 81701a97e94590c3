//! The logic of the WebAssembly modules that this host loads. A module
//! answers the host's call of its `proxy` export; on the way it may print
//! lines and call back into the host through the host's `proxy` import.
pub mod module1;
pub mod module_a;
pub mod module_home;
pub mod step;
