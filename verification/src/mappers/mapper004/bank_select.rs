use vstd::prelude::*;

verus! {

pub const BANK_REGISTER_LENGTH: usize = 8;
pub const CHR_BANK_LENGTH: usize = 8;
pub const PRG_BANK_LENGTH: usize = 4;

/// Size of one switchable PRG window.
pub const PRG_OFFSET: u32 = 0x2000;
/// Size of one switchable CHR window.
pub const CHR_OFFSET: u32 = 0x0400;

/// Which 8 KB PRG window is switchable.
#[derive(Clone, Copy, PartialEq, Eq, Structural, Debug)]
pub enum PrgBankMode {
    /// $8000-$9FFF swappable
    /// $C000-$DFFF fixed to second-last bank
    LowerSwappable,
    /// $C000-$DFFF swappable
    /// $8000-$9FFF fixed to second-last bank
    UpperSwappable,
}

/// Which half of the pattern tables holds the two 2 KB CHR windows.
#[derive(Clone, Copy, PartialEq, Eq, Structural, Debug)]
pub enum ChrA12Inversion {
    /// two 2 KB banks at $0000-$0FFF
    /// four 1 KB banks at $1000-$1FFF
    LowerTwo2KilobyteBanks,
    /// two 2 KB banks at $1000-$1FFF
    /// four 1 KB banks at $0000-$0FFF
    UpperTwo2KilobyteBanks,
}

/// The MMC3 bank select/bank data registers ($8000/$8001) and the windows they produce:
/// `prg_banks[i]` is the PRG offset of the 8 KB window at $8000 + i * $2000,
/// `chr_banks[i]` the CHR offset of the 1 KB window at i * $400.
#[derive(Clone, Copy, Debug)]
pub struct BankSelect {
    pub chr_banks: [u32; CHR_BANK_LENGTH],
    pub prg_banks: [u32; PRG_BANK_LENGTH],
    pub bank_registers: [u32; BANK_REGISTER_LENGTH],
    pub bank_register_index: usize,
    pub chr_inversion: ChrA12Inversion,
    pub number_prg_banks: u8,
    pub prg_bank_mode: PrgBankMode,
}

/// Index of the last 8 KB PRG bank of a board with `banks` 16 KB banks
/// (wrapping when there are none).
pub open spec fn last_prg_bank(banks: u8) -> u32 {
    (((banks as u32) * 2) as u32).wrapping_sub(1)
}

/// The PRG windows for the given bank registers.
pub open spec fn prg_windows(registers: [u32; BANK_REGISTER_LENGTH], mode: PrgBankMode, banks: u8) -> [u32; PRG_BANK_LENGTH] {
    let last = last_prg_bank(banks);
    let second_last = last.wrapping_sub(1);
    let swappable = (registers[6] & 0x3F) * PRG_OFFSET;
    let fixed = second_last.wrapping_mul(PRG_OFFSET);
    let window_1 = (registers[7] & 0x3F) * PRG_OFFSET;
    let window_3 = last.wrapping_mul(PRG_OFFSET);
    match mode {
        PrgBankMode::LowerSwappable => [swappable as u32, window_1 as u32, fixed, window_3],
        PrgBankMode::UpperSwappable => [fixed, window_1 as u32, swappable as u32, window_3],
    }
}

/// The CHR windows for the given bank registers: R0 and R1 select 2 KB banks (their low
/// bit ignored), each filling two consecutive 1 KB windows; R2-R5 select 1 KB banks.
pub open spec fn chr_windows(r: [u32; BANK_REGISTER_LENGTH], inversion: ChrA12Inversion) -> [u32; CHR_BANK_LENGTH] {
    let two_kb_0a = ((r[0] & 0xFE) * CHR_OFFSET) as u32;
    let two_kb_0b = ((r[0] & 0xFE) * CHR_OFFSET + CHR_OFFSET) as u32;
    let two_kb_1a = ((r[1] & 0xFE) * CHR_OFFSET) as u32;
    let two_kb_1b = ((r[1] & 0xFE) * CHR_OFFSET + CHR_OFFSET) as u32;
    let one_kb_2 = (r[2] * CHR_OFFSET) as u32;
    let one_kb_3 = (r[3] * CHR_OFFSET) as u32;
    let one_kb_4 = (r[4] * CHR_OFFSET) as u32;
    let one_kb_5 = (r[5] * CHR_OFFSET) as u32;
    match inversion {
        ChrA12Inversion::LowerTwo2KilobyteBanks => [
            two_kb_0a, two_kb_0b, two_kb_1a, two_kb_1b, one_kb_2, one_kb_3, one_kb_4, one_kb_5,
        ],
        ChrA12Inversion::UpperTwo2KilobyteBanks => [
            one_kb_2, one_kb_3, one_kb_4, one_kb_5, two_kb_0a, two_kb_0b, two_kb_1a, two_kb_1b,
        ],
    }
}

/// R0 and R1 each select a 2 KB CHR bank: the two 1 KB windows it fills are consecutive,
/// starting at a 2 KB boundary (the register's low bit ignored), at $0000-$0FFF, or at
/// $1000-$1FFF with A12 inverted.
pub proof fn lemma_two_kilobyte_chr_banks(r: [u32; BANK_REGISTER_LENGTH], inversion: ChrA12Inversion)
    requires
        forall|i: int| 0 <= i < BANK_REGISTER_LENGTH ==> #[trigger] r[i] <= 0xFF,
    ensures
        ({
            let w = chr_windows(r, inversion);
            let first: int = match inversion {
                ChrA12Inversion::LowerTwo2KilobyteBanks => 0,
                ChrA12Inversion::UpperTwo2KilobyteBanks => 4,
            };
            &&& w[first] == (r[0] & 0xFE) * 0x400
            &&& w[first + 1] == w[first] + 0x400
            &&& w[first + 2] == (r[1] & 0xFE) * 0x400
            &&& w[first + 3] == w[first + 2] + 0x400
            &&& w[first] % 0x800 == 0
            &&& w[first + 2] % 0x800 == 0
        }),
{
    let (r0, r1) = (r[0], r[1]);
    assert(r0 <= 0xFF && r1 <= 0xFF);
    assert((r0 & 0xFE) <= 0xFE && (r0 & 0xFE) % 2 == 0 && (r1 & 0xFE) <= 0xFE && (r1 & 0xFE) % 2 == 0)
        by (bit_vector)
        requires
            r0 <= 0xFF,
            r1 <= 0xFF;
    let (h0, h1) = ((r0 & 0xFE) as int, (r1 & 0xFE) as int);
    assert((h0 * 0x400) % 0x800 == 0 && (h1 * 0x400) % 0x800 == 0) by (nonlinear_arith)
        requires
            h0 % 2 == 0,
            h1 % 2 == 0;
}

/// The registers of a freshly powered board.
pub open spec fn initial_bank_select(number_prg_banks: u8) -> BankSelect {
    BankSelect {
        chr_banks: [0, 0, 0, 0, 0, 0, 0, 0],
        prg_banks: [0, 0, 0, 0],
        bank_registers: [0, 0, 0, 0, 0, 0, 0, 0],
        bank_register_index: 0,
        chr_inversion: ChrA12Inversion::LowerTwo2KilobyteBanks,
        number_prg_banks,
        prg_bank_mode: PrgBankMode::LowerSwappable,
    }
}

/// Every CHR window computed from byte-sized registers lies within 256 KB.
pub proof fn lemma_chr_windows_bounded(r: [u32; BANK_REGISTER_LENGTH], inversion: ChrA12Inversion)
    requires
        forall|i: int| 0 <= i < BANK_REGISTER_LENGTH ==> #[trigger] r[i] <= 0xFF,
    ensures
        forall|i: int| 0 <= i < CHR_BANK_LENGTH ==> #[trigger] chr_windows(r, inversion)[i] <= 0x40000,
{
    let (r0, r1, r2, r3, r4, r5) = (r[0], r[1], r[2], r[3], r[4], r[5]);
    assert(r0 <= 0xFF && r1 <= 0xFF && r2 <= 0xFF && r3 <= 0xFF && r4 <= 0xFF && r5 <= 0xFF);
    assert(r0 & 0xFE <= r0) by (bit_vector);
    assert(r1 & 0xFE <= r1) by (bit_vector);
    let w = chr_windows(r, inversion);
    assert(forall|i: int| 0 <= i < CHR_BANK_LENGTH ==> #[trigger] w[i] <= 0x40000) by {
        assert(w[0] <= 0x40000 && w[1] <= 0x40000 && w[2] <= 0x40000 && w[3] <= 0x40000);
        assert(w[4] <= 0x40000 && w[5] <= 0x40000 && w[6] <= 0x40000 && w[7] <= 0x40000);
    }
}

impl BankSelect {
    /// Bank register values are bytes written by the CPU, and the index names one of them.
    pub open spec fn inv(self) -> bool {
        &&& self.bank_register_index < BANK_REGISTER_LENGTH
        &&& forall|i: int| 0 <= i < BANK_REGISTER_LENGTH ==> #[trigger] self.bank_registers[i] <= 0xFF
        &&& forall|i: int| 0 <= i < CHR_BANK_LENGTH ==> #[trigger] self.chr_banks[i] <= 0x40000
    }

    pub open spec fn select_bank_spec(self, data: u8) -> BankSelect {
        BankSelect {
            bank_register_index: (data & 0b111) as usize,
            prg_bank_mode: if data & 0b0100_0000 == 0 {
                PrgBankMode::LowerSwappable
            } else {
                PrgBankMode::UpperSwappable
            },
            chr_inversion: if data & 0b1000_0000 == 0 {
                ChrA12Inversion::LowerTwo2KilobyteBanks
            } else {
                ChrA12Inversion::UpperTwo2KilobyteBanks
            },
            ..self
        }
    }

    pub open spec fn set_bank_data_spec(self, data: u8) -> BankSelect {
        let registers = vstd::array::spec_array_update(self.bank_registers, self.bank_register_index as int, data as u32);
        BankSelect {
            bank_registers: registers,
            prg_banks: prg_windows(registers, self.prg_bank_mode, self.number_prg_banks),
            chr_banks: chr_windows(registers, self.chr_inversion),
            ..self
        }
    }

    pub open spec fn reset_spec(self) -> BankSelect {
        let last = last_prg_bank(self.number_prg_banks);
        BankSelect {
            bank_register_index: 0,
            bank_registers: [0, 0, 0, 0, 0, 0, 0, 0],
            chr_banks: [0, 0, 0, 0, 0, 0, 0, 0],
            chr_inversion: ChrA12Inversion::LowerTwo2KilobyteBanks,
            prg_bank_mode: PrgBankMode::LowerSwappable,
            prg_banks: [0, PRG_OFFSET, last.wrapping_sub(1).wrapping_mul(PRG_OFFSET), last.wrapping_mul(PRG_OFFSET)],
            ..self
        }
    }

    pub fn new(number_prg_banks: u8) -> (r: Self)
        ensures
            r.inv(),
            r == initial_bank_select(number_prg_banks),
    {
        BankSelect {
            chr_banks: [0, 0, 0, 0, 0, 0, 0, 0],
            prg_banks: [0, 0, 0, 0],
            bank_registers: [0, 0, 0, 0, 0, 0, 0, 0],
            bank_register_index: 0,
            chr_inversion: ChrA12Inversion::LowerTwo2KilobyteBanks,
            number_prg_banks,
            prg_bank_mode: PrgBankMode::LowerSwappable,
        }
    }

    /// $8000 write: choose the register that the next $8001 write fills, and the modes.
    pub fn select_bank(&mut self, data: u8)
        requires
            old(self).inv(),
        ensures
            final(self).inv(),
            *final(self) == old(self).select_bank_spec(data),
    {
        assert(data & 0b111 < 8) by (bit_vector);
        self.bank_register_index = (data & 0b111) as usize;
        self.set_prg_bank_mode(data);
        self.set_chr_inversion(data);
    }

    /// $8001 write: fill the selected register and recompute every window.
    pub fn set_bank_data(&mut self, data: u8)
        requires
            old(self).inv(),
        ensures
            final(self).inv(),
            *final(self) == old(self).set_bank_data_spec(data),
    {
        self.bank_registers[self.bank_register_index] = data as u32;
        self.set_prg_banks();
        self.set_chr_banks();
        proof {
            lemma_chr_windows_bounded(self.bank_registers, self.chr_inversion);
        }
    }

    pub fn reset(&mut self)
        ensures
            final(self).inv(),
            *final(self) == old(self).reset_spec(),
    {
        self.bank_register_index = 0;
        self.bank_registers = [0, 0, 0, 0, 0, 0, 0, 0];
        self.chr_banks = [0, 0, 0, 0, 0, 0, 0, 0];
        self.chr_inversion = ChrA12Inversion::LowerTwo2KilobyteBanks;
        self.prg_bank_mode = PrgBankMode::LowerSwappable;
        let last = ((self.number_prg_banks as u32) * 2).wrapping_sub(1);
        self.prg_banks = [0, PRG_OFFSET, last.wrapping_sub(1).wrapping_mul(PRG_OFFSET), last.wrapping_mul(PRG_OFFSET)];
    }

    fn set_chr_banks(&mut self)
        requires
            old(self).inv(),
        ensures
            *final(self) == (BankSelect {
                chr_banks: chr_windows(old(self).bank_registers, old(self).chr_inversion),
                ..*old(self)
            }),
    {
        let r0 = self.bank_registers[0];
        let r1 = self.bank_registers[1];
        let r2 = self.bank_registers[2];
        let r3 = self.bank_registers[3];
        let r4 = self.bank_registers[4];
        let r5 = self.bank_registers[5];
        let ignore_bottom_bit: u32 = 0xFE;
        assert(r0 & 0xFE <= 0xFF) by (bit_vector) requires r0 <= 0xFF;
        assert(r1 & 0xFE <= 0xFF) by (bit_vector) requires r1 <= 0xFF;
        let two_kb_0a = (r0 & ignore_bottom_bit) * CHR_OFFSET;
        let two_kb_0b = two_kb_0a + CHR_OFFSET;
        let two_kb_1a = (r1 & ignore_bottom_bit) * CHR_OFFSET;
        let two_kb_1b = two_kb_1a + CHR_OFFSET;
        match self.chr_inversion {
            ChrA12Inversion::LowerTwo2KilobyteBanks => {
                self.chr_banks = [
                    two_kb_0a,
                    two_kb_0b,
                    two_kb_1a,
                    two_kb_1b,
                    r2 * CHR_OFFSET,
                    r3 * CHR_OFFSET,
                    r4 * CHR_OFFSET,
                    r5 * CHR_OFFSET,
                ];
            },
            ChrA12Inversion::UpperTwo2KilobyteBanks => {
                self.chr_banks = [
                    r2 * CHR_OFFSET,
                    r3 * CHR_OFFSET,
                    r4 * CHR_OFFSET,
                    r5 * CHR_OFFSET,
                    two_kb_0a,
                    two_kb_0b,
                    two_kb_1a,
                    two_kb_1b,
                ];
            },
        }
    }

    fn set_chr_inversion(&mut self, data: u8)
        ensures
            *final(self) == (BankSelect {
                chr_inversion: if data & 0b1000_0000 == 0 {
                    ChrA12Inversion::LowerTwo2KilobyteBanks
                } else {
                    ChrA12Inversion::UpperTwo2KilobyteBanks
                },
                ..*old(self)
            }),
    {
        self.chr_inversion = if data & 0b1000_0000 == 0 {
            ChrA12Inversion::LowerTwo2KilobyteBanks
        } else {
            ChrA12Inversion::UpperTwo2KilobyteBanks
        };
    }

    fn set_prg_banks(&mut self)
        requires
            old(self).inv(),
        ensures
            *final(self) == (BankSelect {
                prg_banks: prg_windows(old(self).bank_registers, old(self).prg_bank_mode, old(self).number_prg_banks),
                ..*old(self)
            }),
    {
        let ignore_top_two_bits: u32 = 0x3F;
        let last_bank = ((self.number_prg_banks as u32) * 2).wrapping_sub(1);
        let second_last_bank = last_bank.wrapping_sub(1);
        let r6 = self.bank_registers[6];
        let r7 = self.bank_registers[7];
        assert(r6 & 0x3F <= 0x3F) by (bit_vector);
        assert(r7 & 0x3F <= 0x3F) by (bit_vector);
        let swappable = (r6 & ignore_top_two_bits) * PRG_OFFSET;
        let fixed = second_last_bank.wrapping_mul(PRG_OFFSET);
        let window_1 = (r7 & ignore_top_two_bits) * PRG_OFFSET;
        let window_3 = last_bank.wrapping_mul(PRG_OFFSET);
        match self.prg_bank_mode {
            PrgBankMode::LowerSwappable => {
                self.prg_banks = [swappable, window_1, fixed, window_3];
            },
            PrgBankMode::UpperSwappable => {
                self.prg_banks = [fixed, window_1, swappable, window_3];
            },
        }
    }

    fn set_prg_bank_mode(&mut self, data: u8)
        ensures
            *final(self) == (BankSelect {
                prg_bank_mode: if data & 0b0100_0000 == 0 {
                    PrgBankMode::LowerSwappable
                } else {
                    PrgBankMode::UpperSwappable
                },
                ..*old(self)
            }),
    {
        self.prg_bank_mode = if data & 0b0100_0000 == 0 {
            PrgBankMode::LowerSwappable
        } else {
            PrgBankMode::UpperSwappable
        };
    }
}

} // verus!
