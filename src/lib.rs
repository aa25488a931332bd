pub mod helper;
pub mod laws;
pub mod plugin;
pub mod port_list;
pub mod process;
pub mod row;
pub mod socket;
