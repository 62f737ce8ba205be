use vstd::prelude::*;

verus! {

// The three bulk endpoints of a probe session.
pub const CMD_ENDPOINT_OUT: u8 = 0x01;
pub const CMD_ENDPOINT_IN: u8 = 0x81;
pub const TRACE_ENDPOINT_IN: u8 = 0x82;

// Command classes (first byte of every request frame).
pub const GET_VERSION: u8 = 0xF1;
pub const DEBUG_COMMAND: u8 = 0xF2;
pub const DFU_COMMAND: u8 = 0xF3;
pub const SWIM_COMMAND: u8 = 0xF4;
pub const GET_CURRENT_MODE: u8 = 0xF5;
pub const GET_TARGET_VOLTAGE: u8 = 0xF7;

// Mode codes returned by GET_CURRENT_MODE.
pub const DEV_DFU_MODE: u8 = 0x00;
pub const DEV_MASS_MODE: u8 = 0x01;
pub const DEV_DEBUG_MODE: u8 = 0x02;
pub const DEV_SWIM_MODE: u8 = 0x03;
pub const DEV_BOOTLOADER_MODE: u8 = 0x04;

// DFU command family.
pub const DFU_EXIT: u8 = 0x07;

// Status codes of the out-of-band read/write status check.
pub const DEBUG_ERR_OK: u8 = 0x80;
pub const DEBUG_ERR_FAULT: u8 = 0x81;

// DEBUG_COMMAND sub-opcodes shared by both API families.
pub const DEBUG_GETSTATUS: u8 = 0x01;
pub const DEBUG_FORCEDEBUG: u8 = 0x02;
pub const DEBUG_READMEM_32BIT: u8 = 0x07;
pub const DEBUG_WRITEMEM_32BIT: u8 = 0x08;
pub const DEBUG_RUNCORE: u8 = 0x09;
pub const DEBUG_STEPCORE: u8 = 0x0a;
pub const DEBUG_READMEM_8BIT: u8 = 0x0c;
pub const DEBUG_WRITEMEM_8BIT: u8 = 0x0d;
pub const DEBUG_READCOREID: u8 = 0x22;

// The argument of the APIv2 ENTER sub-opcode selecting SWD.
pub const DEBUG_ENTER_SWD: u8 = 0xa3;

// DEBUG_COMMAND sub-opcodes of the APIv2 family used by this driver.
pub const DEBUG_APIV2_ENTER: u8 = 0x30;
pub const DEBUG_APIV2_RESETSYS: u8 = 0x32;
pub const DEBUG_APIV2_READREG: u8 = 0x33;
pub const DEBUG_APIV2_WRITEREG: u8 = 0x34;
pub const DEBUG_APIV2_WRITEDEBUGREG: u8 = 0x35;
pub const DEBUG_APIV2_READDEBUGREG: u8 = 0x36;
pub const DEBUG_APIV2_READALLREGS: u8 = 0x3A;
pub const DEBUG_APIV2_GETLASTRWSTATUS: u8 = 0x3B;
pub const DEBUG_APIV2_START_TRACE_RX: u8 = 0x40;
pub const DEBUG_APIV2_STOP_TRACE_RX: u8 = 0x41;
pub const DEBUG_APIV2_GET_TRACE_NB: u8 = 0x42;
pub const DEBUG_APIV2_SWD_SET_FREQ: u8 = 0x43;

// Fixed debug-register addresses consumed by the trace subsystem.
pub const DCB_DHCSR: u32 = 0xE000EDF0;
pub const DCB_DEMCR: u32 = 0xE000EDFC;
pub const DCB_DEMCR_TRCENA: u32 = 1u32 << 24;

pub const TPIU_CSPSR: u32 = 0xe0040004;
pub const TPIU_ACPR: u32 = 0xE0040010;
pub const TPIU_SPPR: u32 = 0xE00400F0;
pub const TPIU_FFCR: u32 = 0xE0040304;
pub const TPIU_SPPR_TXMODE_NRZ: u32 = 2;

pub const ITM_LAR: u32 = 0xe0000fb0;
pub const ITM_TER: u32 = 0xe0000e00;
pub const ITM_TPR: u32 = 0xe0000e40;
pub const ITM_TCR: u32 = 0xe0000e80;
pub const ITM_TCR_SYNCENA: u32 = 1u32 << 2;
pub const ITM_TCR_ITMENA: u32 = 1u32 << 0;
/// The documented lock key accepted by ITM_LAR.
pub const SCS_LAR_KEY: u32 = 0xC5ACCE55;

pub const DWT_CTRL: u32 = 0xE0001000;

// Vendor debug-control register of STM32 targets.
pub const DBGMCU_CR: u32 = 0xe0042004;
pub const DBGMCU_CR_DEBUG_SLEEP: u32 = 1u32 << 0;
pub const DBGMCU_CR_DEBUG_STOP: u32 = 1u32 << 1;
pub const DBGMCU_CR_DEBUG_STANDBY: u32 = 1u32 << 2;
pub const DBGMCU_CR_DEBUG_TRACE_IOEN: u32 = 1u32 << 5;
pub const DBGMCU_IDCODE: u32 = 0xE0042000;

} // verus!
