use vstd::prelude::*;
use crate::cartridge::mirror::Mirror;
use super::mapper001::chr_bank::ChrBank;
use super::mapper001::control_register::ControlRegister;
use super::mapper001::prg_bank::PrgBank;
use super::mapper001::shift_register::ShiftRegister;
use super::mapper004::bank_select::BankSelect;
use super::mapper004::interrupt_request::InterruptRequest;
use super::mapper004::prg_ram_protect::PrgRamProtect;

verus! {

/// A mapper's state, as stored in a quick save.
#[derive(Debug)]
pub enum MapperSaveData {
    NoMapper,
    Mapper000(Mapper000SaveData),
    Mapper001(Mapper001SaveData),
    Mapper002(Mapper002SaveData),
    Mapper003(Mapper003SaveData),
    Mapper004(Mapper004SaveData),
    Mapper066(Mapper066SaveData),
}

#[derive(Debug)]
pub struct Mapper000SaveData {
    pub prg_banks: u8,
    pub chr_banks: u8,
    pub battery_backed_ram: bool,
}

#[derive(Debug)]
pub struct Mapper001SaveData {
    pub prg_banks: u8,
    pub chr_banks: u8,
    pub battery_backed_ram: bool,
    pub chr_bank: ChrBank,
    pub control_register: ControlRegister,
    pub prg_bank: PrgBank,
    pub ram: Vec<u8>,
    pub shift_register: ShiftRegister,
}

#[derive(Debug)]
pub struct Mapper002SaveData {
    pub prg_banks: u8,
    pub chr_banks: u8,
    pub prg_bank_low: u8,
    pub prg_bank_high: u8,
    pub battery_backed_ram: bool,
}

#[derive(Debug)]
pub struct Mapper003SaveData {
    pub prg_banks: u8,
    pub chr_banks: u8,
    pub battery_backed_ram: bool,
    pub chr_bank: u8,
}

#[derive(Debug)]
pub struct Mapper004SaveData {
    pub prg_banks: u8,
    pub chr_banks: u8,
    pub interrupt_request: InterruptRequest,
    pub bank_select: BankSelect,
    pub battery_backed_ram: bool,
    pub mirror: Mirror,
    pub prg_ram_protect: PrgRamProtect,
    pub ram: Vec<u8>,
}

#[derive(Debug)]
pub struct Mapper066SaveData {
    pub prg_banks: u8,
    pub chr_banks: u8,
    pub battery_backed_ram: bool,
    pub chr_bank: u8,
    pub prg_bank: u8,
}

} // verus!
