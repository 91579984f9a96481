//! Names and states of the modules that the driver reports.
use vstd::prelude::*;

use crate::picontrol::{
    SDeviceInfo, PICONTROL_NOT_CONNECTED, PICONTROL_NOT_CONNECTED_MASK,
    PICONTROL_SW_MODBUS_RTU_MASTER, PICONTROL_SW_MODBUS_RTU_SLAVE, PICONTROL_SW_MODBUS_TCP_MASTER,
    PICONTROL_SW_MODBUS_TCP_SLAVE,
};

verus! {

/// The label of a module type code, its connection bit already masked off.
pub open spec fn module_label(code: u32) -> Seq<char> {
    if code == 95 {
        "RevPi Core"@
    } else if code == 96 {
        "RevPi DIO"@
    } else if code == 97 {
        "RevPi DI"@
    } else if code == 98 {
        "RevPi DO"@
    } else if code == 103 {
        "RevPi AIO"@
    } else if code == PICONTROL_SW_MODBUS_TCP_SLAVE {
        "ModbusTCP Slave Adapter"@
    } else if code == PICONTROL_SW_MODBUS_RTU_SLAVE {
        "ModbusRTU Slave Adapter"@
    } else if code == PICONTROL_SW_MODBUS_TCP_MASTER {
        "ModbusTCP Master Adapter"@
    } else if code == PICONTROL_SW_MODBUS_RTU_MASTER {
        "ModbusRTU Master Adapter"@
    } else if code == 100 {
        "Gateway DMX"@
    } else if code == 71 {
        "Gateway CANopen"@
    } else if code == 73 {
        "Gateway DeviceNet"@
    } else if code == 74 {
        "Gateway EtherCAT"@
    } else if code == 75 {
        "Gateway EtherNet/IP"@
    } else if code == 93 {
        "Gateway ModbusTCP"@
    } else if code == 76 {
        "Gateway Powerlink"@
    } else if code == 77 {
        "Gateway Profibus"@
    } else if code == 79 {
        "Gateway Profinet IRT"@
    } else if code == 81 {
        "Gateway SercosIII"@
    } else {
        "unknown moduletype"@
    }
}

/// A readable name for a module type; the connection bit is ignored.
pub fn get_module_name(moduletype: u32) -> (r: &'static str)
    ensures
        r@ == module_label(moduletype & PICONTROL_NOT_CONNECTED_MASK),
{
    let code = moduletype & PICONTROL_NOT_CONNECTED_MASK;
    if code == 95 {
        "RevPi Core"
    } else if code == 96 {
        "RevPi DIO"
    } else if code == 97 {
        "RevPi DI"
    } else if code == 98 {
        "RevPi DO"
    } else if code == 103 {
        "RevPi AIO"
    } else if code == PICONTROL_SW_MODBUS_TCP_SLAVE {
        "ModbusTCP Slave Adapter"
    } else if code == PICONTROL_SW_MODBUS_RTU_SLAVE {
        "ModbusRTU Slave Adapter"
    } else if code == PICONTROL_SW_MODBUS_TCP_MASTER {
        "ModbusTCP Master Adapter"
    } else if code == PICONTROL_SW_MODBUS_RTU_MASTER {
        "ModbusRTU Master Adapter"
    } else if code == 100 {
        "Gateway DMX"
    } else if code == 71 {
        "Gateway CANopen"
    } else if code == 73 {
        "Gateway DeviceNet"
    } else if code == 74 {
        "Gateway EtherCAT"
    } else if code == 75 {
        "Gateway EtherNet/IP"
    } else if code == 93 {
        "Gateway ModbusTCP"
    } else if code == 76 {
        "Gateway Powerlink"
    } else if code == 77 {
        "Gateway Profibus"
    } else if code == 79 {
        "Gateway Profinet IRT"
    } else if code == 81 {
        "Gateway SercosIII"
    } else {
        "unknown moduletype"
    }
}

/// Whether a module type carries the connection bit.
pub fn is_module_connected(moduletype: u32) -> (r: bool)
    ensures
        r == (moduletype & PICONTROL_NOT_CONNECTED != 0),
{
    moduletype & PICONTROL_NOT_CONNECTED > 0
}

/// What a device record says of its module's presence.
#[derive(Debug, Clone, Copy, PartialEq, Eq, Structural)]
pub enum ModuleStatus {
    /// The module is present and its data is available.
    Present,
    /// The module is configured but absent: no data is available.
    NotPresent,
    /// The module is present but not configured.
    NotConfigured,
}

/// The presence of a device record's module: present when it is active;
/// otherwise absent where its type carries the connection bit, and not
/// configured where it does not.
pub fn module_status(dev: &SDeviceInfo) -> (r: ModuleStatus)
    ensures
        dev.i8uActive > 0 ==> r == ModuleStatus::Present,
        dev.i8uActive == 0 && (dev.i16uModuleType as u32) & PICONTROL_NOT_CONNECTED != 0 ==> r
            == ModuleStatus::NotPresent,
        dev.i8uActive == 0 && (dev.i16uModuleType as u32) & PICONTROL_NOT_CONNECTED == 0 ==> r
            == ModuleStatus::NotConfigured,
{
    if dev.i8uActive > 0 {
        ModuleStatus::Present
    } else if is_module_connected(dev.i16uModuleType as u32) {
        ModuleStatus::NotPresent
    } else {
        ModuleStatus::NotConfigured
    }
}

} // verus!
