pub mod hid_tools;
pub mod protocol;
pub mod device;
pub mod ina219;
pub mod emc1403;
pub mod fan_control;
pub mod firmware;
pub mod report;
pub mod menubar;
pub mod psu_scan;
