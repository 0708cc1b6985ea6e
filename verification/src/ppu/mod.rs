pub mod palette;
pub mod registers;
pub mod sprites;
pub mod laws;

use vstd::prelude::*;
use crate::cartridge::{Cartridge, CartridgeView};
use crate::cartridge::mirror::Mirror;
use palette::{Color, get_colors, system_palette};
use registers::{
    Control2C02, Mask2C02, Status2C02, ScrollAddress, control_mask, mask_bits, status_mask,
    scroll_mask, with_bits,
};

verus! {

/// Configure ppu to render in different ways
pub const CONTROL: u16 = 0x0000;
/// Decides what sprites or backgrounds are being drawn and what happens at the edges of the screen
pub const MASK: u16 = 0x0001;
pub const STATUS: u16 = 0x0002;
pub const OAM_ADDRESS: u16 = 0x0003;
pub const OAM_DATA: u16 = 0x0004;
/// Used for worlds larger than the current screen
pub const SCROLL: u16 = 0x0005;
/// The ppu address to send data to
pub const PPU_ADDRESS: u16 = 0x0006;
/// The data to send to the ppu address
pub const PPU_DATA: u16 = 0x0007;

pub const MAX_CLOCK_CYCLE: u16 = 341;
pub const MAX_SCANLINE: i16 = 261;

/// The 2C02 picture processing unit: its memories, registers and raster position.
/// The cartridge is plugged in here; the CPU bus reaches it through the PPU.
pub struct Olc2C02 {
    /// A full name table is 1KB and the NES can hold 2 name tables
    pub name_table: [[u8; 1024]; 2],
    pub pallete_table: [u8; 32],
    pub pattern_table: [[u8; 4096]; 2],
    /// Object attribute memory: the sprite table that OAM DMA fills.
    pub oam: [u8; 256],
    pub cartridge: Option<Cartridge>,
    pub nmi: bool,
    pub frame_complete: bool,
    pub colors: [Color; 64],
    pub scanline: i16,
    pub cycle: u16,
    pub status: u8,
    pub control: u8,
    pub mask: u8,
    pub address_latch: bool,
    pub ppu_data_buffer: u8,
    pub current_vram_address: u16,
    pub temp_vram_address: u16,
    pub fine_x_scroll: u8,
}

/// The abstract state of the PPU.
pub struct PpuView {
    pub name_table: Seq<Seq<u8>>,
    pub pallete_table: Seq<u8>,
    pub pattern_table: Seq<Seq<u8>>,
    pub oam: Seq<u8>,
    pub cartridge: Option<CartridgeView>,
    pub nmi: bool,
    pub frame_complete: bool,
    pub colors: Seq<Color>,
    pub scanline: i16,
    pub cycle: u16,
    pub status: u8,
    pub control: u8,
    pub mask: u8,
    pub address_latch: bool,
    pub ppu_data_buffer: u8,
    pub current_vram_address: u16,
    pub temp_vram_address: u16,
    pub fine_x_scroll: u8,
}

pub open spec fn cartridge_view(c: Option<Cartridge>) -> Option<CartridgeView> {
    match c {
        Some(c) => Some(c@),
        None => None,
    }
}

impl View for Olc2C02 {
    type V = PpuView;

    open spec fn view(&self) -> PpuView {
        PpuView {
            name_table: seq![self.name_table[0]@, self.name_table[1]@],
            pallete_table: self.pallete_table@,
            pattern_table: seq![self.pattern_table[0]@, self.pattern_table[1]@],
            oam: self.oam@,
            cartridge: cartridge_view(self.cartridge),
            nmi: self.nmi,
            frame_complete: self.frame_complete,
            colors: self.colors@,
            scanline: self.scanline,
            cycle: self.cycle,
            status: self.status,
            control: self.control,
            mask: self.mask,
            address_latch: self.address_latch,
            ppu_data_buffer: self.ppu_data_buffer,
            current_vram_address: self.current_vram_address,
            temp_vram_address: self.temp_vram_address,
            fine_x_scroll: self.fine_x_scroll,
        }
    }
}

/// Which of the two name tables a nametable offset (0..$FFF) lands in under `mirror`.
/// Boards with another mirroring reach neither.
pub open spec fn name_table_of(mirror: Mirror, offset: u16) -> Option<int> {
    match mirror {
        Mirror::Vertical => if offset <= 0x03FF {
            Some(0)
        } else if offset <= 0x07FF {
            Some(1)
        } else if offset <= 0x0BFF {
            Some(0)
        } else if offset <= 0x0FFF {
            Some(1)
        } else {
            None
        },
        Mirror::Horizontal => if offset <= 0x07FF {
            Some(0)
        } else if offset <= 0x0FFF {
            Some(1)
        } else {
            None
        },
        _ => None,
    }
}

/// The palette entry that `address` reaches: entries $10, $14, $18 and $1C mirror $00, $04,
/// $08 and $0C.
pub open spec fn palette_index(address: u16) -> int {
    let m = address & 0x001F;
    if m == 0x0010 {
        0
    } else if m == 0x0014 {
        4
    } else if m == 0x0018 {
        8
    } else if m == 0x001C {
        12
    } else {
        m as int
    }
}

/// One step of the vertical scroll position in a VRAM address: fine Y, then coarse Y. Coarse
/// Y wraps to 0 after row 29, switching to the other vertical nametable (bit 11) as it does,
/// and after row 31, leaving the nametable as it was.
pub open spec fn increment_y_spec(v: u16) -> u16 {
    if (v & 0x7000) != 0x7000 {
        (v + 0x1000) as u16
    } else {
        let v1 = v & !0x7000u16;
        let y = (v1 & 0x03E0) >> 5u16;
        let v2 = if y == 29 { v1 ^ 0x0800 } else { v1 };
        let y2: u16 = if y == 29 || y == 31 { 0 } else { (y + 1) as u16 };
        (v2 & !0x03E0u16) | (y2 << 5u16)
    }
}

/// Bounds of the byte fields the PPU picks out with masks.
pub proof fn lemma_byte_fields(b: u8, shift: u8)
    by (bit_vector)
    ensures
        b & 0x3F < 64,
        (b >> shift) & 0x01 <= 1,
{
}

/// Bounds of the address fields the PPU picks out with masks.
pub proof fn lemma_address_fields(a: u16)
    by (bit_vector)
    ensures
        a & 0x3FFF <= 0x3FFF,
        a & 0x0FFF < 4096,
        (a & 0x1000) >> 12u16 < 2,
        a & 0x03FF < 1024,
        (a & 0x03E0) >> 5u16 < 32,
        a & 0x001F < 32,
        a & 0x07FF < 2048,
        a & 0x0007 < 8,
        a & 0x0001 < 2,
        a <= 0x3FFF ==> a & 0x3FFF == a,
{
}

impl PpuView {
    pub open spec fn wf(self) -> bool {
        &&& self.cartridge matches Some(c) ==> c.wf()
        &&& self.name_table.len() == 2
        &&& self.name_table[0].len() == 1024
        &&& self.name_table[1].len() == 1024
        &&& self.pattern_table.len() == 2
        &&& self.pattern_table[0].len() == 4096
        &&& self.pattern_table[1].len() == 4096
        &&& self.pallete_table.len() == 32
        &&& self.oam.len() == 256
        &&& self.colors.len() == 64
        &&& -1 <= self.scanline <= 260
        &&& self.cycle < MAX_CLOCK_CYCLE
    }

    /// A PPUCTRL field: the nametable number, or 1 when a one-bit field is set.
    pub open spec fn control_flag(self, c: Control2C02) -> u8 {
        if c == Control2C02::NameTableAddress {
            self.control & 0x03
        } else if self.control & control_mask(c) > 0 {
            1
        } else {
            0
        }
    }

    /// A rendering switch of the mask register.
    pub open spec fn mask_flag(self, m: Mask2C02) -> bool {
        self.mask & mask_bits(m) > 0
    }

    pub open spec fn status_flag(self, s: Status2C02) -> u8 {
        if self.status & status_mask(s) > 0 {
            1
        } else {
            0
        }
    }

    /// How far a PPUDATA access moves the VRAM address: 32 (one row) or 1 (one column).
    pub open spec fn address_increment(self) -> u16 {
        if self.control_flag(Control2C02::VramAddress) == 1 {
            32
        } else {
            1
        }
    }

    pub open spec fn pattern_read(self, address: u16) -> u8 {
        self.pattern_table[((address & 0x1000) >> 12u16) as int][(address & 0x0FFF) as int]
    }

    /// A nametable read, from the table that the address's low 12 bits reach.
    pub open spec fn name_table_read(self, address: u16) -> u8 {
        let masked = address & 0x0FFF;
        match self.cartridge {
            Some(c) => match name_table_of(c.mirror, masked) {
                Some(k) => self.name_table[k][(masked & 0x03FF) as int],
                None => 0,
            },
            None => 0,
        }
    }

    /// A nametable write, to the table that the address's low 12 bits reach.
    pub open spec fn name_table_write(self, address: u16, data: u8) -> PpuView {
        let masked = address & 0x0FFF;
        match self.cartridge {
            Some(c) => match name_table_of(c.mirror, masked) {
                Some(k) => PpuView {
                    name_table: self.name_table.update(k, self.name_table[k].update((masked & 0x03FF) as int, data)),
                    ..self
                },
                None => self,
            },
            None => self,
        }
    }

    /// A read of the PPU bus: the cartridge first, then pattern, name and palette memory.
    pub open spec fn ppu_read_spec(self, address: u16) -> u8 {
        let a = address & 0x3FFF;
        let from_cartridge = match self.cartridge {
            Some(c) => c.ppu_read_spec(a),
            None => None,
        };
        match from_cartridge {
            Some(data) => data,
            None => if a <= 0x1FFF {
                self.pattern_read(a)
            } else if 0x2000 <= a && a <= 0x3EFF {
                self.name_table_read(a)
            } else if 0x3F00 <= a {
                self.pallete_table[palette_index(a)]
            } else {
                0
            },
        }
    }

    /// A write to the PPU's own memories at a PPU-bus address.
    pub open spec fn local_write(self, a: u16, data: u8) -> PpuView {
        if a <= 0x1FFF {
            let page = ((a & 0x1000) >> 12u16) as int;
            PpuView {
                pattern_table: self.pattern_table.update(page, self.pattern_table[page].update((a & 0x0FFF) as int, data)),
                ..self
            }
        } else if 0x2000 <= a && a <= 0x3EFF {
            self.name_table_write(a, data)
        } else if 0x3F00 <= a && a <= 0x3FFF {
            PpuView { pallete_table: self.pallete_table.update(palette_index(a), data), ..self }
        } else {
            self
        }
    }

    /// A write of the PPU bus: offered to the cartridge (at the address as given), then
    /// to pattern, name or palette memory.
    pub open spec fn ppu_write_spec(self, address: u16, data: u8) -> PpuView {
        let a = address & 0x3FFF;
        match self.cartridge {
            Some(c) => {
                let (c2, handled) = c.ppu_write_spec(address, data);
                let s = PpuView { cartridge: Some(c2), ..self };
                if handled {
                    s
                } else {
                    s.local_write(a, data)
                }
            },
            None => self.local_write(a, data),
        }
    }

    /// A CPU read of register `address` (0-7), and the byte it yields.
    pub open spec fn cpu_read_spec(self, address: u16) -> (PpuView, u8) {
        if address == STATUS {
            (
                PpuView { status: self.status & !0x80u8, address_latch: false, ..self },
                (self.status & 0xE0) | (self.ppu_data_buffer & 0x1F),
            )
        } else if address == PPU_DATA {
            let buffer = self.ppu_read_spec(self.current_vram_address);
            (
                PpuView {
                    ppu_data_buffer: buffer,
                    current_vram_address: self.current_vram_address.wrapping_add(self.address_increment()),
                    ..self
                },
                if self.current_vram_address > 0x3F00 { buffer } else { self.ppu_data_buffer },
            )
        } else {
            (self, 0)
        }
    }

    /// A CPU write of `data` to register `address` (0-7).
    pub open spec fn cpu_write_spec(self, address: u16, data: u8) -> PpuView {
        let t = self.temp_vram_address;
        if address == CONTROL {
            // t: ...BA.......... = d: ......BA
            PpuView { control: data, temp_vram_address: (t & !0x0C00u16) | (((data & 0x03) as u16) << 10u16), ..self }
        } else if address == MASK {
            PpuView { mask: data, ..self }
        } else if address == SCROLL {
            if !self.address_latch {
                // t: ....... ...HGFED = d: HGFED..., x: CBA = d: .....CBA
                PpuView {
                    temp_vram_address: (t & !0x001Fu16) | ((data >> 3u8) as u16),
                    fine_x_scroll: data & 0b111,
                    address_latch: true,
                    ..self
                }
            } else {
                // t: CBA..HGFED..... = d: HGFEDCBA
                PpuView {
                    temp_vram_address: (t & !0x73E0u16) | (((data >> 3u8) as u16) << 5u16) | (((data & 0b111) as u16) << 12u16),
                    address_latch: false,
                    ..self
                }
            }
        } else if address == PPU_ADDRESS {
            if !self.address_latch {
                // t: .FEDCBA........ = d: ..FEDCBA
                PpuView {
                    temp_vram_address: (t & !0x7F00u16) | (((data & 0x3F) as u16) << 8u16),
                    address_latch: true,
                    ..self
                }
            } else {
                // t: ....... HGFEDCBA = d: HGFEDCBA, v = t
                let t2 = (t & 0xFF00) | (data as u16);
                PpuView { temp_vram_address: t2, current_vram_address: t2, address_latch: false, ..self }
            }
        } else if address == PPU_DATA {
            let s = self.ppu_write_spec(self.current_vram_address, data);
            PpuView { current_vram_address: self.current_vram_address.wrapping_add(self.address_increment()), ..s }
        } else {
            self
        }
    }

    /// The colour of entry `pixel` of palette `palette_id`.
    pub open spec fn palette_color(self, palette_id: u16, pixel: u16) -> Color {
        let address = (0x3F00 + palette_id * 4 + pixel) as u16;
        self.colors[(self.ppu_read_spec(address) & 0x3F) as int]
    }

    /// Pixel (`x`, `y`) of the 128x128 picture of pattern table `pattern_index` drawn with
    /// palette `palette_id`: 16x16 tiles of 16 bytes, each row of a tile a low and a high
    /// plane byte 8 apart, the leftmost pixel in bit 7. The two plane bits are added.
    pub open spec fn pattern_pixel(self, pattern_index: u16, palette_id: u16, y: int, x: int) -> Color {
        let address = (pattern_index * 4096 + (y / 8) * 256 + (x / 8) * 16 + (y % 8)) as u16;
        let column = (7 - x % 8) as u8;
        let low = self.ppu_read_spec(address);
        let high = self.ppu_read_spec((address + 8) as u16);
        self.palette_color(palette_id, (((low >> column) & 0x01) + ((high >> column) & 0x01)) as u16)
    }

    /// The scroll work of a clock: with rendering switched on, scanline 256 steps the
    /// vertical position, 257 copies the horizontal bits of t into v, and 280 to 304 copy
    /// the vertical bits.
    pub open spec fn scroll_spec(self) -> PpuView {
        let v = self.current_vram_address;
        let t = self.temp_vram_address;
        if self.mask_flag(Mask2C02::RenderBackground) || self.mask_flag(Mask2C02::RenderSprite) {
            if self.scanline == 256 {
                PpuView { current_vram_address: increment_y_spec(v), ..self }
            } else if self.scanline == 257 {
                PpuView { current_vram_address: (v & !0x041Fu16) | (t & 0x041F), ..self }
            } else if 280 <= self.scanline && self.scanline <= 304 {
                PpuView { current_vram_address: (v & !0x7BE0u16) | (t & 0x7BE0), ..self }
            } else {
                self
            }
        } else {
            self
        }
    }

    /// One PPU clock: the vertical blank flag is cleared at the pre-render line and set
    /// (with an NMI when enabled) at line 241, the scroll work is done, and the raster
    /// advances: 341 dots a line, lines -1 to 260, the frame completing on the wrap.
    pub open spec fn clock_spec(self) -> PpuView {
        let s1 = if self.scanline == -1 && self.cycle == 1 {
            PpuView { status: self.status & !0x80u8, ..self }
        } else {
            self
        };
        let s2 = if s1.scanline == 241 && s1.cycle == 1 {
            PpuView {
                status: s1.status | 0x80,
                nmi: s1.control_flag(Control2C02::GenerateNmi) == 1 || s1.nmi,
                ..s1
            }
        } else {
            s1
        };
        let s3 = s2.scroll_spec();
        if s3.cycle + 1 >= MAX_CLOCK_CYCLE {
            if s3.scanline + 1 >= MAX_SCANLINE {
                PpuView { cycle: 0, scanline: -1i16, frame_complete: true, ..s3 }
            } else {
                PpuView { cycle: 0, scanline: (s3.scanline + 1) as i16, ..s3 }
            }
        } else {
            PpuView { cycle: (s3.cycle + 1) as u16, ..s3 }
        }
    }
}

/// The VRAM-address field updates that the register writes and the scroll copies make
/// bit by bit, each equal to one masked update.
proof fn lemma_loopy_updates(t: u16, v: u16, data: u8)
    by (bit_vector)
    ensures
        ({
            let ba = (data & 0x03) as u16;
            with_bits(with_bits(t, 0x0400, ((ba >> 0u16) & 0x01) > 0), 0x0800, ((ba >> 1u16) & 0x01) > 0)
                == (t & !0x0C00u16) | (((data & 0x03) as u16) << 10u16)
        }),
        ({
            let h = ((data & 0b11111000) >> 3u8) as u16;
            with_bits(with_bits(with_bits(with_bits(with_bits(t,
                0x0001, ((h >> 0u16) & 0x01) > 0),
                0x0002, ((h >> 1u16) & 0x01) > 0),
                0x0004, ((h >> 2u16) & 0x01) > 0),
                0x0008, ((h >> 3u16) & 0x01) > 0),
                0x0010, ((h >> 4u16) & 0x01) > 0)
                == (t & !0x001Fu16) | ((data >> 3u8) as u16)
        }),
        ({
            let c = (data & 0b111) as u16;
            let h = ((data & 0b11111000) as u16) >> 3u16;
            with_bits(with_bits(with_bits(with_bits(with_bits(with_bits(with_bits(with_bits(t,
                0x0020, ((h >> 0u16) & 0x01) > 0),
                0x0040, ((h >> 1u16) & 0x01) > 0),
                0x0080, ((h >> 2u16) & 0x01) > 0),
                0x0100, ((h >> 3u16) & 0x01) > 0),
                0x0200, ((h >> 4u16) & 0x01) > 0),
                0x1000, ((c >> 0u16) & 0x01) > 0),
                0x2000, ((c >> 1u16) & 0x01) > 0),
                0x4000, ((c >> 2u16) & 0x01) > 0)
                == (t & !0x73E0u16) | (((data >> 3u8) as u16) << 5u16) | (((data & 0b111) as u16) << 12u16)
        }),
        ({
            let f = data & 0b00111111;
            with_bits(with_bits(with_bits(with_bits(with_bits(with_bits(with_bits(t,
                0x0100, ((f >> 0u8) & 0x01) > 0),
                0x0200, ((f >> 1u8) & 0x01) > 0),
                0x0400, ((f >> 2u8) & 0x01) > 0),
                0x0800, ((f >> 3u8) & 0x01) > 0),
                0x1000, ((f >> 4u8) & 0x01) > 0),
                0x2000, ((f >> 5u8) & 0x01) > 0),
                0x4000, false)
                == (t & !0x7F00u16) | (((data & 0x3F) as u16) << 8u16)
        }),
        with_bits(with_bits(with_bits(with_bits(with_bits(with_bits(with_bits(with_bits(t,
            0x0001, ((data >> 0u8) & 0x01) > 0),
            0x0002, ((data >> 1u8) & 0x01) > 0),
            0x0004, ((data >> 2u8) & 0x01) > 0),
            0x0008, ((data >> 3u8) & 0x01) > 0),
            0x0010, ((data >> 4u8) & 0x01) > 0),
            0x0020, ((data >> 5u8) & 0x01) > 0),
            0x0040, ((data >> 6u8) & 0x01) > 0),
            0x0080, ((data >> 7u8) & 0x01) > 0)
            == (t & 0xFF00) | (data as u16),
        ({
            let f = t & 0x041F;
            with_bits(with_bits(with_bits(with_bits(with_bits(with_bits(v,
                0x0001, ((f >> 0u16) & 0x01) > 0),
                0x0002, ((f >> 1u16) & 0x01) > 0),
                0x0004, ((f >> 2u16) & 0x01) > 0),
                0x0008, ((f >> 3u16) & 0x01) > 0),
                0x0010, ((f >> 4u16) & 0x01) > 0),
                0x0400, ((f >> 10u16) & 0x01) > 0) | f
                == (v & !0x041Fu16) | (t & 0x041F)
        }),
        ({
            let f = t & 0x7BE0;
            with_bits(with_bits(with_bits(with_bits(with_bits(with_bits(with_bits(with_bits(with_bits(v,
                0x0020, ((f >> 5u16) & 0x01) > 0),
                0x0040, ((f >> 6u16) & 0x01) > 0),
                0x0080, ((f >> 7u16) & 0x01) > 0),
                0x0100, ((f >> 8u16) & 0x01) > 0),
                0x0200, ((f >> 9u16) & 0x01) > 0),
                0x0800, ((f >> 11u16) & 0x01) > 0),
                0x1000, ((f >> 12u16) & 0x01) > 0),
                0x2000, ((f >> 13u16) & 0x01) > 0),
                0x4000, ((f >> 14u16) & 0x01) > 0)
                == (v & !0x7BE0u16) | (t & 0x7BE0)
        }),
        (v & 0x7000) != 0x7000 ==> v + 0x1000 <= 0xFFFF,
{
}

impl PpuView {
    /// A PPU at power-on, with no cartridge.
    pub open spec fn initial() -> PpuView {
        PpuView {
            name_table: seq![Seq::new(1024, |i: int| 0u8), Seq::new(1024, |i: int| 0u8)],
            pallete_table: Seq::new(32, |i: int| 0u8),
            pattern_table: seq![Seq::new(4096, |i: int| 0u8), Seq::new(4096, |i: int| 0u8)],
            oam: Seq::new(256, |i: int| 0u8),
            cartridge: None,
            nmi: false,
            frame_complete: false,
            colors: system_palette()@,
            scanline: 0,
            cycle: 0,
            status: 0,
            control: 0,
            mask: 0,
            address_latch: false,
            ppu_data_buffer: 0,
            current_vram_address: 0,
            temp_vram_address: 0,
            fine_x_scroll: 0,
        }
    }
}

impl Olc2C02 {
    pub fn new() -> (r: Self)
        ensures
            r@ == PpuView::initial(),
            r@.wf(),
    {
        let r = Olc2C02 {
            name_table: [[0; 1024]; 2],
            pallete_table: [0; 32],
            pattern_table: [[0; 4096]; 2],
            oam: [0; 256],
            cartridge: None,
            nmi: false,
            scanline: 0,
            cycle: 0,
            frame_complete: false,
            colors: get_colors(),
            status: 0,
            control: 0,
            mask: 0,
            address_latch: false,
            ppu_data_buffer: 0,
            current_vram_address: 0,
            temp_vram_address: 0,
            fine_x_scroll: 0,
        };
        assert(r.name_table[0]@ =~= Seq::new(1024, |i: int| 0u8));
        assert(r.name_table[1]@ =~= Seq::new(1024, |i: int| 0u8));
        assert(r.pattern_table[0]@ =~= Seq::new(4096, |i: int| 0u8));
        assert(r.pattern_table[1]@ =~= Seq::new(4096, |i: int| 0u8));
        assert(r.pallete_table@ =~= Seq::new(32, |i: int| 0u8));
        assert(r.oam@ =~= Seq::new(256, |i: int| 0u8));
        r
    }

    /// Advance the PPU by one dot (see `PpuView::clock_spec`).
    pub fn clock(&mut self)
        requires
            old(self)@.wf(),
        ensures
            final(self)@.wf(),
            final(self)@ == old(self)@.clock_spec(),
    {
        if self.scanline == -1 && self.cycle == 1 {
            self.set_status(Status2C02::VerticalBlank, false);
        }
        if self.scanline == 241 && self.cycle == 1 {
            self.set_status(Status2C02::VerticalBlank, true);
            if self.get_control(Control2C02::GenerateNmi) == 1 {
                self.nmi = true;
            }
        }
        if self.scanline >= -1 || self.scanline < 240 {
            if self.get_mask(Mask2C02::RenderBackground) || self.get_mask(Mask2C02::RenderSprite) {
                let ghost v = self.current_vram_address;
                let ghost t = self.temp_vram_address;
                proof {
                    lemma_loopy_updates(t, v, 0);
                }
                if self.scanline == 256 {
                    // If rendering is enabled, the PPU increments the vertical position in v.
                    self.increment_y();
                } else if self.scanline == 257 {
                    // v: ....F.. ...EDCBA = t: ....F.....EDCBA
                    let fedcba = self.temp_vram_address & 0x41F;
                    self.set_current_address(ScrollAddress::CoarseX0, ((fedcba >> 0) & 0x01) > 0);
                    self.set_current_address(ScrollAddress::CoarseX1, ((fedcba >> 1) & 0x01) > 0);
                    self.set_current_address(ScrollAddress::CoarseX2, ((fedcba >> 2) & 0x01) > 0);
                    self.set_current_address(ScrollAddress::CoarseX3, ((fedcba >> 3) & 0x01) > 0);
                    self.set_current_address(ScrollAddress::CoarseX4, ((fedcba >> 4) & 0x01) > 0);
                    self.set_current_address(ScrollAddress::NameTableSelect0, ((fedcba >> 10) & 0x01) > 0);
                    self.current_vram_address = self.current_vram_address | fedcba;
                } else if self.scanline >= 280 && self.scanline <= 304 {
                    // v: IHGF.ED CBA..... = t: IHGF.ED CBA.....
                    let ihgfedcba = self.temp_vram_address & 0x7BE0;
                    self.set_current_address(ScrollAddress::CoarseY0, ((ihgfedcba >> 5) & 0x01) > 0);
                    self.set_current_address(ScrollAddress::CoarseY1, ((ihgfedcba >> 6) & 0x01) > 0);
                    self.set_current_address(ScrollAddress::CoarseY2, ((ihgfedcba >> 7) & 0x01) > 0);
                    self.set_current_address(ScrollAddress::CoarseY3, ((ihgfedcba >> 8) & 0x01) > 0);
                    self.set_current_address(ScrollAddress::CoarseY4, ((ihgfedcba >> 9) & 0x01) > 0);
                    self.set_current_address(ScrollAddress::NameTableSelect1, ((ihgfedcba >> 11) & 0x01) > 0);
                    self.set_current_address(ScrollAddress::FineYScroll0, ((ihgfedcba >> 12) & 0x01) > 0);
                    self.set_current_address(ScrollAddress::FineYScroll1, ((ihgfedcba >> 13) & 0x01) > 0);
                    self.set_current_address(ScrollAddress::FineYScroll2, ((ihgfedcba >> 14) & 0x01) > 0);
                }
            }
        }
        self.cycle = self.cycle + 1;
        if self.cycle >= MAX_CLOCK_CYCLE {
            self.cycle = 0;
            self.scanline = self.scanline + 1;
            if self.scanline >= MAX_SCANLINE {
                self.scanline = -1;
                self.frame_complete = true;
            }
        }
    }

    /// Read from the Main Bus
    pub fn cpu_read(&mut self, address: u16, read_only: bool) -> (r: u8)
        requires
            old(self)@.wf(),
        ensures
            final(self)@.wf(),
            (final(self)@, r) == old(self)@.cpu_read_spec(address),
    {
        let mut data: u8 = 0;
        match address {
            STATUS => {
                data = (self.status & 0xE0) | (self.ppu_data_buffer & 0x1F);
                self.set_status(Status2C02::VerticalBlank, false);
                self.address_latch = false;
            },
            PPU_DATA => {
                data = self.ppu_data_buffer;
                self.ppu_data_buffer = self.ppu_read(self.current_vram_address, read_only);
                if self.current_vram_address > crate::addresses::PALETTE_ADDRESS_LOWER {
                    data = self.ppu_data_buffer;
                }
                let address_increment: u16 = if self.get_control(Control2C02::VramAddress) == 1 { 32 } else { 1 };
                self.current_vram_address = self.current_vram_address.wrapping_add(address_increment);
            },
            // The other registers can't be read
            _ => (),
        };
        data
    }

    /// Write to the Main Bus
    pub fn cpu_write(&mut self, address: u16, data: u8)
        requires
            old(self)@.wf(),
        ensures
            final(self)@.wf(),
            final(self)@ == old(self)@.cpu_write_spec(address, data),
    {
        proof {
            lemma_loopy_updates(self.temp_vram_address, self.current_vram_address, data);
        }
        match address {
            CONTROL => {
                self.control = data;
                // t: ...BA.......... = d: ......BA
                let ba = (data & 0x03) as u16;
                self.set_temp_address(ScrollAddress::NameTableSelect0, ((ba >> 0) & 0x01) > 0);
                self.set_temp_address(ScrollAddress::NameTableSelect1, ((ba >> 1) & 0x01) > 0);
            },
            MASK => {
                self.mask = data;
            },
            SCROLL => {
                if !self.address_latch {
                    // t: ....... ...HGFED = d: HGFED...
                    // x:              CBA = d: .....CBA
                    let hgfed = ((data & 0b11111000) >> 3) as u16;
                    self.set_temp_address(ScrollAddress::CoarseX0, ((hgfed >> 0) & 0x01) > 0);
                    self.set_temp_address(ScrollAddress::CoarseX1, ((hgfed >> 1) & 0x01) > 0);
                    self.set_temp_address(ScrollAddress::CoarseX2, ((hgfed >> 2) & 0x01) > 0);
                    self.set_temp_address(ScrollAddress::CoarseX3, ((hgfed >> 3) & 0x01) > 0);
                    self.set_temp_address(ScrollAddress::CoarseX4, ((hgfed >> 4) & 0x01) > 0);
                    self.fine_x_scroll = data & 0b111;
                    self.address_latch = true;
                } else {
                    // t: CBA..HGFED..... = d: HGFEDCBA
                    let cba = (data & 0b111) as u16;
                    let hgfed = ((data & 0b11111000) as u16) >> 3;
                    self.set_temp_address(ScrollAddress::CoarseY0, ((hgfed >> 0) & 0x01) > 0);
                    self.set_temp_address(ScrollAddress::CoarseY1, ((hgfed >> 1) & 0x01) > 0);
                    self.set_temp_address(ScrollAddress::CoarseY2, ((hgfed >> 2) & 0x01) > 0);
                    self.set_temp_address(ScrollAddress::CoarseY3, ((hgfed >> 3) & 0x01) > 0);
                    self.set_temp_address(ScrollAddress::CoarseY4, ((hgfed >> 4) & 0x01) > 0);
                    self.set_temp_address(ScrollAddress::FineYScroll0, ((cba >> 0) & 0x01) > 0);
                    self.set_temp_address(ScrollAddress::FineYScroll1, ((cba >> 1) & 0x01) > 0);
                    self.set_temp_address(ScrollAddress::FineYScroll2, ((cba >> 2) & 0x01) > 0);
                    self.address_latch = false;
                }
            },
            PPU_ADDRESS => {
                if !self.address_latch {
                    // t: .FEDCBA........ = d: ..FEDCBA
                    let fedbca = data & 0b00111111;
                    self.set_temp_address(ScrollAddress::CoarseY3, ((fedbca >> 0) & 0x01) > 0);
                    self.set_temp_address(ScrollAddress::CoarseY4, ((fedbca >> 1) & 0x01) > 0);
                    self.set_temp_address(ScrollAddress::NameTableSelect0, ((fedbca >> 2) & 0x01) > 0);
                    self.set_temp_address(ScrollAddress::NameTableSelect1, ((fedbca >> 3) & 0x01) > 0);
                    self.set_temp_address(ScrollAddress::FineYScroll0, ((fedbca >> 4) & 0x01) > 0);
                    self.set_temp_address(ScrollAddress::FineYScroll1, ((fedbca >> 5) & 0x01) > 0);
                    self.set_temp_address(ScrollAddress::FineYScroll2, false);
                    self.address_latch = true;
                } else {
                    // t: ....... HGFEDCBA = d: HGFEDCBA
                    // v                   = t
                    self.set_temp_address(ScrollAddress::CoarseX0, ((data >> 0) & 0x01) > 0);
                    self.set_temp_address(ScrollAddress::CoarseX1, ((data >> 1) & 0x01) > 0);
                    self.set_temp_address(ScrollAddress::CoarseX2, ((data >> 2) & 0x01) > 0);
                    self.set_temp_address(ScrollAddress::CoarseX3, ((data >> 3) & 0x01) > 0);
                    self.set_temp_address(ScrollAddress::CoarseX4, ((data >> 4) & 0x01) > 0);
                    self.set_temp_address(ScrollAddress::CoarseY0, ((data >> 5) & 0x01) > 0);
                    self.set_temp_address(ScrollAddress::CoarseY1, ((data >> 6) & 0x01) > 0);
                    self.set_temp_address(ScrollAddress::CoarseY2, ((data >> 7) & 0x01) > 0);
                    self.current_vram_address = self.temp_vram_address;
                    self.address_latch = false;
                }
            },
            PPU_DATA => {
                self.ppu_write(self.current_vram_address, data);
                let address_increment: u16 = if self.get_control(Control2C02::VramAddress) == 1 { 32 } else { 1 };
                self.current_vram_address = self.current_vram_address.wrapping_add(address_increment);
            },
            // Status and the sprite memory registers take no writes
            _ => (),
        };
    }

    /// Read from the PPU Bus
    pub fn ppu_read(&mut self, address: u16, read_only: bool) -> (r: u8)
        requires
            old(self)@.wf(),
        ensures
            final(self)@ == old(self)@,
            r == old(self)@.ppu_read_spec(address),
    {
        proof {
            lemma_address_fields(address);
        }
        let mut data: u8 = 0;
        let ppu_address = address & crate::addresses::PPU_ADDRESS_END;
        match &mut self.cartridge {
            Some(c) => {
                if c.ppu_read(ppu_address, &mut data) {
                    return data;
                }
            },
            None => (),
        };
        if ppu_address <= crate::addresses::PATTERN_ADDRESS_UPPER {
            data = self.read_pattern_table_data(ppu_address);
        } else if ppu_address >= crate::addresses::NAME_TABLE_ADDRESS_LOWER
            && ppu_address <= crate::addresses::NAME_TABLE_ADDRESS_UPPER {
            data = self.read_name_table_data(ppu_address);
        } else if ppu_address >= crate::addresses::PALETTE_ADDRESS_LOWER
            && ppu_address <= crate::addresses::PALETTE_ADDRESS_UPPER {
            data = self.read_palette_table_data(ppu_address);
        }
        data
    }

    /// Write to the PPU Bus
    pub fn ppu_write(&mut self, address: u16, data: u8)
        requires
            old(self)@.wf(),
        ensures
            final(self)@.wf(),
            final(self)@ == old(self)@.ppu_write_spec(address, data),
    {
        proof {
            lemma_address_fields(address);
        }
        let ppu_address = address & crate::addresses::PPU_ADDRESS_END;
        match &mut self.cartridge {
            Some(c) => {
                if c.ppu_write(address, data) {
                    return;
                }
            },
            None => (),
        };
        if ppu_address <= crate::addresses::PATTERN_ADDRESS_UPPER {
            self.write_pattern_table_data(ppu_address, data);
        } else if ppu_address >= crate::addresses::NAME_TABLE_ADDRESS_LOWER
            && ppu_address <= crate::addresses::NAME_TABLE_ADDRESS_UPPER {
            self.write_name_table_data(ppu_address, data);
        } else if ppu_address >= crate::addresses::PALETTE_ADDRESS_LOWER
            && ppu_address <= crate::addresses::PALETTE_ADDRESS_UPPER {
            self.write_palette_table_data(ppu_address, data);
        }
    }

    /// See https://wiki.nesdev.com/w/index.php/PPU_scrolling#Wrapping_around
    fn increment_y(&mut self)
        ensures
            final(self)@ == (PpuView { current_vram_address: increment_y_spec(old(self).current_vram_address), ..old(self)@ }),
    {
        proof {
            lemma_loopy_updates(0, self.current_vram_address, 0);
            lemma_address_fields(self.current_vram_address & !0x7000u16);
        }
        if (self.current_vram_address & 0x7000) != 0x7000 {
            // If fine Y < 7 then increment fine Y
            self.current_vram_address = self.current_vram_address + 0x1000;
        } else {
            // Set fine Y to 0
            self.current_vram_address = self.current_vram_address & !0x7000u16;
            // Set y to coarse y
            let mut y = (self.current_vram_address & 0x03E0) >> 5;
            if y == 29 {
                // 29 is the last row of tiles in the name table: switch vertical nametable
                y = 0;
                self.current_vram_address = self.current_vram_address ^ 0x0800;
            } else if y == 31 {
                // Coarse Y can be set out of bounds and will wrap to 0
                y = 0;
            } else {
                y = y + 1;
            }
            // Put coarse Y back into address
            self.current_vram_address = (self.current_vram_address & !0x03E0u16) | (y << 5);
        }
    }

    fn read_pattern_table_data(&self, address: u16) -> (r: u8)
        requires
            self@.wf(),
            address <= 0x1FFF,
        ensures
            r == self@.pattern_read(address),
    {
        proof {
            lemma_address_fields(address);
        }
        let page = (address & 0x1000) >> 12;
        self.pattern_table[page as usize][(address & 0x0FFF) as usize]
    }

    fn write_pattern_table_data(&mut self, address: u16, data: u8)
        requires
            old(self)@.wf(),
            address <= 0x1FFF,
        ensures
            final(self)@.wf(),
            final(self)@ == old(self)@.local_write(address, data),
    {
        proof {
            lemma_address_fields(address);
        }
        let page = (address & 0x1000) >> 12;
        let mut table = self.pattern_table[page as usize];
        table[(address & 0x0FFF) as usize] = data;
        self.pattern_table[page as usize] = table;
        assert(self@.pattern_table =~= old(self)@.pattern_table.update(page as int, table@));
    }

    fn read_name_table_data(&self, address: u16) -> (r: u8)
        requires
            self@.wf(),
        ensures
            r == self@.name_table_read(address),
    {
        proof {
            lemma_address_fields(address);
        }
        let mut data: u8 = 0;
        let masked_address = address & 0x0FFF;
        proof {
            lemma_address_fields(masked_address);
        }
        // Offset by size of name table(1023)
        let address_offset = (masked_address & 0x03FF) as usize;
        match &self.cartridge {
            Some(c) => {
                match c.mirror {
                    Mirror::Vertical => {
                        if masked_address <= 0x03FF {
                            data = self.name_table[0][address_offset];
                        } else if masked_address >= 0x0400 && masked_address <= 0x07FF {
                            data = self.name_table[1][address_offset];
                        } else if masked_address >= 0x800 && masked_address <= 0x0BFF {
                            data = self.name_table[0][address_offset];
                        } else if masked_address >= 0x0C00 && masked_address <= 0x0FFF {
                            data = self.name_table[1][address_offset];
                        }
                    },
                    Mirror::Horizontal => {
                        if masked_address <= 0x03FF {
                            data = self.name_table[0][address_offset];
                        } else if masked_address >= 0x0400 && masked_address <= 0x07FF {
                            data = self.name_table[0][address_offset];
                        } else if masked_address >= 0x800 && masked_address <= 0x0BFF {
                            data = self.name_table[1][address_offset];
                        } else if masked_address >= 0x0C00 && masked_address <= 0x0FFF {
                            data = self.name_table[1][address_offset];
                        }
                    },
                    _ => (),
                };
            },
            None => (),
        };
        data
    }

    fn write_name_table_data(&mut self, address: u16, data: u8)
        requires
            old(self)@.wf(),
        ensures
            final(self)@.wf(),
            final(self)@ == old(self)@.name_table_write(address, data),
    {
        proof {
            lemma_address_fields(address);
            lemma_address_fields(address & 0x0FFF);
        }
        let masked_address = address & 0x0FFF;
        // Offset by size of name table(1023)
        let address_offset = (masked_address & 0x03FF) as usize;
        let mut table: usize = 2;
        match &self.cartridge {
            Some(c) => {
                match c.mirror {
                    Mirror::Vertical => {
                        if masked_address <= 0x03FF {
                            table = 0;
                        } else if masked_address >= 0x0400 && masked_address <= 0x07FF {
                            table = 1;
                        } else if masked_address >= 0x800 && masked_address <= 0x0BFF {
                            table = 0;
                        } else if masked_address >= 0x0C00 && masked_address <= 0x0FFF {
                            table = 1;
                        }
                    },
                    Mirror::Horizontal => {
                        if masked_address <= 0x03FF {
                            table = 0;
                        } else if masked_address >= 0x0400 && masked_address <= 0x07FF {
                            table = 0;
                        } else if masked_address >= 0x800 && masked_address <= 0x0BFF {
                            table = 1;
                        } else if masked_address >= 0x0C00 && masked_address <= 0x0FFF {
                            table = 1;
                        }
                    },
                    _ => (),
                };
            },
            None => (),
        };
        if table < 2 {
            let mut contents = self.name_table[table];
            contents[address_offset] = data;
            self.name_table[table] = contents;
            assert(self@.name_table =~= old(self)@.name_table.update(table as int, contents@));
        }
    }

    fn read_palette_table_data(&self, address: u16) -> (r: u8)
        requires
            self@.wf(),
        ensures
            r == self@.pallete_table[palette_index(address)],
    {
        let masked_address = palette_table_index(address);
        self.pallete_table[masked_address]
    }

    fn write_palette_table_data(&mut self, address: u16, data: u8)
        requires
            old(self)@.wf(),
        ensures
            final(self)@.wf(),
            final(self)@ == (PpuView { pallete_table: old(self)@.pallete_table.update(palette_index(address), data), ..old(self)@ }),
    {
        let masked_address = palette_table_index(address);
        self.pallete_table[masked_address] = data;
    }

    /// Draw pattern table `pattern_index` (a 128x128 picture of its 256 tiles) with
    /// palette `palette_id`. The PPU addresses this reaches must stay below $10000.
    pub fn get_pattern_table(&mut self, pattern_index: u16, palette_id: u16) -> (r: [[Color; 128]; 128])
        requires
            old(self)@.wf(),
            pattern_index <= 15,
            palette_id <= 0x303F,
        ensures
            final(self)@ == old(self)@,
            forall|y: int, x: int|
                0 <= y < 128 && 0 <= x < 128 ==> #[trigger] r[y][x] == old(self)@.pattern_pixel(pattern_index, palette_id, y, x),
    {
        let black = Color { r: 0, g: 0, b: 0 };
        let mut pattern_table: [[Color; 128]; 128] = [[black; 128]; 128];
        let mut y: usize = 0;
        while y < 128
            invariant
                y <= 128,
                pattern_index <= 15,
                palette_id <= 0x303F,
                self@ == old(self)@,
                self@.wf(),
                forall|yy: int, x: int|
                    0 <= yy < y && 0 <= x < 128 ==> #[trigger] pattern_table[yy][x] == self@.pattern_pixel(pattern_index, palette_id, yy, x),
            decreases 128 - y,
        {
            let mut row: [Color; 128] = [black; 128];
            let mut x: usize = 0;
            while x < 128
                invariant
                    x <= 128,
                    y < 128,
                    pattern_index <= 15,
                    palette_id <= 0x303F,
                    self@ == old(self)@,
                    self@.wf(),
                    forall|xx: int| 0 <= xx < x ==> #[trigger] row[xx] == self@.pattern_pixel(pattern_index, palette_id, y as int, xx),
                decreases 128 - x,
            {
                let color = self.get_pixel_of_pattern(pattern_index, palette_id, y as u16, x as u16);
                row[x] = color;
                x = x + 1;
            }
            pattern_table[y] = row;
            y = y + 1;
        }
        pattern_table
    }

    /// One pixel of `get_pattern_table`: tile (x / 8, y / 8), row y % 8, bit 7 - x % 8 of
    /// both planes.
    fn get_pixel_of_pattern(&mut self, pattern_index: u16, palette_id: u16, y: u16, x: u16) -> (r: Color)
        requires
            old(self)@.wf(),
            y < 128,
            x < 128,
            pattern_index <= 15,
            palette_id <= 0x303F,
        ensures
            final(self)@ == old(self)@,
            r == old(self)@.pattern_pixel(pattern_index, palette_id, y as int, x as int),
    {
        let tile_y = y / 8;
        let tile_x = x / 8;
        let row = y % 8;
        // We have 16 tiles which have 16 bytes of information
        let byte_offset = (tile_y * 256) + (tile_x * 16);
        assert(pattern_index * 4096 <= 15 * 4096) by (nonlinear_arith)
            requires
                pattern_index <= 15;
        let address = pattern_index * crate::memory_sizes::KILOBYTES_4 + byte_offset + row;
        let tile_lsb = self.ppu_read(address, false);
        let tile_msb = self.ppu_read(address + 8, false);
        let column = (7 - x % 8) as u8;
        proof {
            lemma_byte_fields(tile_lsb, column);
            lemma_byte_fields(tile_msb, column);
        }
        let pixel = ((tile_lsb >> column) & 0x01) + ((tile_msb >> column) & 0x01);
        self.get_color_from_palette(palette_id, pixel as u16)
    }

    fn get_color_from_palette(&mut self, palette_id: u16, pixel_id: u16) -> (r: Color)
        requires
            old(self)@.wf(),
            palette_id <= 0x303F,
            pixel_id <= 2,
        ensures
            final(self)@ == old(self)@,
            r == old(self)@.palette_color(palette_id, pixel_id),
    {
        let address = crate::addresses::PALETTE_ADDRESS_LOWER + (palette_id * 4) + pixel_id;
        // Make sure we don't go out of bounds
        let data = self.ppu_read(address, false);
        proof {
            lemma_byte_fields(data, 0);
        }
        let color_index = data & 0x3F;
        self.colors[color_index as usize]
    }

    fn get_control(&self, control: Control2C02) -> (r: u8)
        ensures
            r == self@.control_flag(control),
    {
        match control {
            Control2C02::NameTableAddress => self.control & 0x03,
            _ => if self.control & control.mask() > 0 {
                1
            } else {
                0
            },
        }
    }

    /// Reads a rendering switch from the mask register.
    fn get_mask(&self, mask: Mask2C02) -> (r: bool)
        ensures
            r == self@.mask_flag(mask),
    {
        self.mask & mask.mask() > 0
    }

    fn set_status(&mut self, status: Status2C02, value: bool)
        ensures
            final(self)@ == (PpuView {
                status: if value { old(self).status | status_mask(status) } else { old(self).status & !status_mask(status) },
                ..old(self)@
            }),
    {
        if value {
            self.status = self.status | status.mask();
        } else {
            self.status = self.status & !status.mask();
        }
    }

    fn get_status(&self, status: Status2C02) -> (r: u8)
        ensures
            r == self@.status_flag(status),
    {
        if self.status & status.mask() > 0 {
            1
        } else {
            0
        }
    }

    fn set_current_address(&mut self, scroll: ScrollAddress, value: bool)
        ensures
            final(self)@ == (PpuView {
                current_vram_address: with_bits(old(self).current_vram_address, scroll_mask(scroll), value),
                ..old(self)@
            }),
    {
        if value {
            self.current_vram_address = self.current_vram_address | scroll.mask();
        } else {
            self.current_vram_address = self.current_vram_address & !scroll.mask();
        }
    }

    fn set_temp_address(&mut self, scroll: ScrollAddress, value: bool)
        ensures
            final(self)@ == (PpuView {
                temp_vram_address: with_bits(old(self).temp_vram_address, scroll_mask(scroll), value),
                ..old(self)@
            }),
    {
        if value {
            self.temp_vram_address = self.temp_vram_address | scroll.mask();
        } else {
            self.temp_vram_address = self.temp_vram_address & !scroll.mask();
        }
    }
}

/// The index of the palette entry that `address` reaches.
fn palette_table_index(address: u16) -> (r: usize)
    ensures
        r == palette_index(address),
        r < 32,
{
    let mut masked_address = address & 0x001F;
    if masked_address == 0x0010 {
        masked_address = 0x0000;
    } else if masked_address == 0x0014 {
        masked_address = 0x0004;
    } else if masked_address == 0x0018 {
        masked_address = 0x0008;
    } else if masked_address == 0x001C {
        masked_address = 0x000C;
    }
    proof {
        lemma_address_fields(address);
    }
    masked_address as usize
}

} // verus!
