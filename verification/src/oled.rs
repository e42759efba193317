//! SSD1315 128x64 text display: framebuffer, dirty-page tracking, bounded
//! background flush, and status page rendering.
use vstd::prelude::*;

use vstd::string::StringSliceAdditionalSpecFns;

use crate::status::{HealthState, StatusPage, StatusView};

verus! {

pub const OLED_WIDTH: usize = 128;

pub const OLED_PAGE_COUNT: usize = 8;

pub const OLED_TEXT_ROWS: usize = 8;

pub const OLED_TEXT_COLUMNS: usize = 21;

pub const OLED_BUFFER_SIZE: usize = OLED_WIDTH * OLED_PAGE_COUNT;

/// Horizontal pitch of one character cell (5 glyph columns and 1 blank).
pub const OLED_CELL_WIDTH: usize = 6;

const CMD_LOWER_COLUMN: u8 = 0x00;

const CMD_HIGHER_COLUMN: u8 = 0x10;

const CMD_MEMORY_MODE: u8 = 0x20;

const CMD_FADE_BLINKING: u8 = 0x23;

const CMD_DEACTIVATE_SCROLL: u8 = 0x2e;

const CMD_START_LINE: u8 = 0x40;

const CMD_CONTRAST: u8 = 0x81;

const CMD_CHARGE_PUMP: u8 = 0x8d;

const CMD_SEGMENT_REMAP: u8 = 0xa1;

const CMD_RESUME_RAM: u8 = 0xa4;

const CMD_NORMAL_DISPLAY: u8 = 0xa6;

const CMD_MULTIPLEX: u8 = 0xa8;

const CMD_INTERNAL_IREF: u8 = 0xad;

const CMD_DISPLAY_OFF: u8 = 0xae;

const CMD_DISPLAY_ON: u8 = 0xaf;

const CMD_PAGE_BASE: u8 = 0xb0;

const CMD_COM_SCAN_DEC: u8 = 0xc8;

const CMD_DISPLAY_OFFSET: u8 = 0xd3;

const CMD_DISPLAY_CLOCK: u8 = 0xd5;

const CMD_ZOOM: u8 = 0xd6;

const CMD_PRECHARGE: u8 = 0xd9;

const CMD_COM_PINS: u8 = 0xda;

const CMD_VCOM_DESELECT: u8 = 0xdb;

const MEMORY_MODE_PAGE: u8 = 0x02;

const COM_PINS_ALTERNATIVE: u8 = 0x12;

const CLOCK_DEFAULT: u8 = 0x80;

const PRECHARGE_DEFAULT: u8 = 0xf1;

const IREF_INTERNAL_19UA: u8 = 0x10;

const VCOM_0P77: u8 = 0x20;

const CHARGE_PUMP_ON: u8 = 0x14;

/// Write-only display transport.
pub trait OledIo {
    fn reset(&mut self);

    fn write_command(&mut self, command: u8);

    fn write_data(&mut self, data: &[u8]);
}

// ---------------------------------------------------------------------------
// Glyphs and row layout
// ---------------------------------------------------------------------------

/// Lower-case letters are drawn with the upper-case glyphs.
pub open spec fn fold_case(c: u8) -> u8 {
    if 97 <= c <= 122 {
        (c - 32) as u8
    } else {
        c
    }
}

/// Column bitmap of the glyph drawn for `c`.
pub open spec fn spec_glyph(c: u8) -> Seq<u8> {
    spec_folded_glyph(fold_case(c))
}

/// Column bitmap of the 5x7 glyph drawn for an upper-case (or folded) character.
pub open spec fn spec_folded_glyph(c: u8) -> Seq<u8> {
    match c {
        48 => seq![0x3eu8, 0x51u8, 0x49u8, 0x45u8, 0x3eu8],
        49 => seq![0x00u8, 0x42u8, 0x7fu8, 0x40u8, 0x00u8],
        50 => seq![0x42u8, 0x61u8, 0x51u8, 0x49u8, 0x46u8],
        51 => seq![0x21u8, 0x41u8, 0x45u8, 0x4bu8, 0x31u8],
        52 => seq![0x18u8, 0x14u8, 0x12u8, 0x7fu8, 0x10u8],
        53 => seq![0x27u8, 0x45u8, 0x45u8, 0x45u8, 0x39u8],
        54 => seq![0x3cu8, 0x4au8, 0x49u8, 0x49u8, 0x30u8],
        55 => seq![0x01u8, 0x71u8, 0x09u8, 0x05u8, 0x03u8],
        56 => seq![0x36u8, 0x49u8, 0x49u8, 0x49u8, 0x36u8],
        57 => seq![0x06u8, 0x49u8, 0x49u8, 0x29u8, 0x1eu8],
        65 => seq![0x7eu8, 0x11u8, 0x11u8, 0x11u8, 0x7eu8],
        66 => seq![0x7fu8, 0x49u8, 0x49u8, 0x49u8, 0x36u8],
        67 => seq![0x3eu8, 0x41u8, 0x41u8, 0x41u8, 0x22u8],
        68 => seq![0x7fu8, 0x41u8, 0x41u8, 0x22u8, 0x1cu8],
        69 => seq![0x7fu8, 0x49u8, 0x49u8, 0x49u8, 0x41u8],
        70 => seq![0x7fu8, 0x09u8, 0x09u8, 0x09u8, 0x01u8],
        71 => seq![0x3eu8, 0x41u8, 0x49u8, 0x49u8, 0x7au8],
        72 => seq![0x7fu8, 0x08u8, 0x08u8, 0x08u8, 0x7fu8],
        73 => seq![0x00u8, 0x41u8, 0x7fu8, 0x41u8, 0x00u8],
        74 => seq![0x20u8, 0x40u8, 0x41u8, 0x3fu8, 0x01u8],
        75 => seq![0x7fu8, 0x08u8, 0x14u8, 0x22u8, 0x41u8],
        76 => seq![0x7fu8, 0x40u8, 0x40u8, 0x40u8, 0x40u8],
        77 => seq![0x7fu8, 0x02u8, 0x0cu8, 0x02u8, 0x7fu8],
        78 => seq![0x7fu8, 0x04u8, 0x08u8, 0x10u8, 0x7fu8],
        79 => seq![0x3eu8, 0x41u8, 0x41u8, 0x41u8, 0x3eu8],
        80 => seq![0x7fu8, 0x09u8, 0x09u8, 0x09u8, 0x06u8],
        81 => seq![0x3eu8, 0x41u8, 0x51u8, 0x21u8, 0x5eu8],
        82 => seq![0x7fu8, 0x09u8, 0x19u8, 0x29u8, 0x46u8],
        83 => seq![0x46u8, 0x49u8, 0x49u8, 0x49u8, 0x31u8],
        84 => seq![0x01u8, 0x01u8, 0x7fu8, 0x01u8, 0x01u8],
        85 => seq![0x3fu8, 0x40u8, 0x40u8, 0x40u8, 0x3fu8],
        86 => seq![0x1fu8, 0x20u8, 0x40u8, 0x20u8, 0x1fu8],
        87 => seq![0x3fu8, 0x40u8, 0x38u8, 0x40u8, 0x3fu8],
        88 => seq![0x63u8, 0x14u8, 0x08u8, 0x14u8, 0x63u8],
        89 => seq![0x07u8, 0x08u8, 0x70u8, 0x08u8, 0x07u8],
        90 => seq![0x61u8, 0x51u8, 0x49u8, 0x45u8, 0x43u8],
        43 => seq![0x08u8, 0x08u8, 0x3eu8, 0x08u8, 0x08u8],
        45 => seq![0x08u8, 0x08u8, 0x08u8, 0x08u8, 0x08u8],
        46 => seq![0x00u8, 0x60u8, 0x60u8, 0x00u8, 0x00u8],
        47 => seq![0x20u8, 0x10u8, 0x08u8, 0x04u8, 0x02u8],
        58 => seq![0x00u8, 0x36u8, 0x36u8, 0x00u8, 0x00u8],
        37 => seq![0x63u8, 0x13u8, 0x08u8, 0x64u8, 0x63u8],
        61 => seq![0x14u8, 0x14u8, 0x14u8, 0x14u8, 0x14u8],
        95 => seq![0x40u8, 0x40u8, 0x40u8, 0x40u8, 0x40u8],
        32 => seq![0x00u8, 0x00u8, 0x00u8, 0x00u8, 0x00u8],
        _ => seq![0x02u8, 0x01u8, 0x51u8, 0x09u8, 0x06u8],
    }
}

fn folded_glyph(c: u8) -> (g: [u8; 5])
    ensures
        g@ == spec_folded_glyph(c),
{
    let g: [u8; 5] = match c {
        48 => [0x3eu8, 0x51u8, 0x49u8, 0x45u8, 0x3eu8],
        49 => [0x00u8, 0x42u8, 0x7fu8, 0x40u8, 0x00u8],
        50 => [0x42u8, 0x61u8, 0x51u8, 0x49u8, 0x46u8],
        51 => [0x21u8, 0x41u8, 0x45u8, 0x4bu8, 0x31u8],
        52 => [0x18u8, 0x14u8, 0x12u8, 0x7fu8, 0x10u8],
        53 => [0x27u8, 0x45u8, 0x45u8, 0x45u8, 0x39u8],
        54 => [0x3cu8, 0x4au8, 0x49u8, 0x49u8, 0x30u8],
        55 => [0x01u8, 0x71u8, 0x09u8, 0x05u8, 0x03u8],
        56 => [0x36u8, 0x49u8, 0x49u8, 0x49u8, 0x36u8],
        57 => [0x06u8, 0x49u8, 0x49u8, 0x29u8, 0x1eu8],
        65 => [0x7eu8, 0x11u8, 0x11u8, 0x11u8, 0x7eu8],
        66 => [0x7fu8, 0x49u8, 0x49u8, 0x49u8, 0x36u8],
        67 => [0x3eu8, 0x41u8, 0x41u8, 0x41u8, 0x22u8],
        68 => [0x7fu8, 0x41u8, 0x41u8, 0x22u8, 0x1cu8],
        69 => [0x7fu8, 0x49u8, 0x49u8, 0x49u8, 0x41u8],
        70 => [0x7fu8, 0x09u8, 0x09u8, 0x09u8, 0x01u8],
        71 => [0x3eu8, 0x41u8, 0x49u8, 0x49u8, 0x7au8],
        72 => [0x7fu8, 0x08u8, 0x08u8, 0x08u8, 0x7fu8],
        73 => [0x00u8, 0x41u8, 0x7fu8, 0x41u8, 0x00u8],
        74 => [0x20u8, 0x40u8, 0x41u8, 0x3fu8, 0x01u8],
        75 => [0x7fu8, 0x08u8, 0x14u8, 0x22u8, 0x41u8],
        76 => [0x7fu8, 0x40u8, 0x40u8, 0x40u8, 0x40u8],
        77 => [0x7fu8, 0x02u8, 0x0cu8, 0x02u8, 0x7fu8],
        78 => [0x7fu8, 0x04u8, 0x08u8, 0x10u8, 0x7fu8],
        79 => [0x3eu8, 0x41u8, 0x41u8, 0x41u8, 0x3eu8],
        80 => [0x7fu8, 0x09u8, 0x09u8, 0x09u8, 0x06u8],
        81 => [0x3eu8, 0x41u8, 0x51u8, 0x21u8, 0x5eu8],
        82 => [0x7fu8, 0x09u8, 0x19u8, 0x29u8, 0x46u8],
        83 => [0x46u8, 0x49u8, 0x49u8, 0x49u8, 0x31u8],
        84 => [0x01u8, 0x01u8, 0x7fu8, 0x01u8, 0x01u8],
        85 => [0x3fu8, 0x40u8, 0x40u8, 0x40u8, 0x3fu8],
        86 => [0x1fu8, 0x20u8, 0x40u8, 0x20u8, 0x1fu8],
        87 => [0x3fu8, 0x40u8, 0x38u8, 0x40u8, 0x3fu8],
        88 => [0x63u8, 0x14u8, 0x08u8, 0x14u8, 0x63u8],
        89 => [0x07u8, 0x08u8, 0x70u8, 0x08u8, 0x07u8],
        90 => [0x61u8, 0x51u8, 0x49u8, 0x45u8, 0x43u8],
        43 => [0x08u8, 0x08u8, 0x3eu8, 0x08u8, 0x08u8],
        45 => [0x08u8, 0x08u8, 0x08u8, 0x08u8, 0x08u8],
        46 => [0x00u8, 0x60u8, 0x60u8, 0x00u8, 0x00u8],
        47 => [0x20u8, 0x10u8, 0x08u8, 0x04u8, 0x02u8],
        58 => [0x00u8, 0x36u8, 0x36u8, 0x00u8, 0x00u8],
        37 => [0x63u8, 0x13u8, 0x08u8, 0x64u8, 0x63u8],
        61 => [0x14u8, 0x14u8, 0x14u8, 0x14u8, 0x14u8],
        95 => [0x40u8, 0x40u8, 0x40u8, 0x40u8, 0x40u8],
        32 => [0x00u8, 0x00u8, 0x00u8, 0x00u8, 0x00u8],
        _ => [0x02u8, 0x01u8, 0x51u8, 0x09u8, 0x06u8],
    };
    assert(g@ =~= spec_folded_glyph(c));
    g
}

fn glyph_for_character(character: u8) -> (g: [u8; 5])
    ensures
        g@ == spec_glyph(character),
{
    let folded = if character >= 97 && character <= 122 {
        character - 32
    } else {
        character
    };
    folded_glyph(folded)
}

/// Pixel column `c` of a text row: character cell `c / 6`, glyph column
/// `c % 6` (the sixth column of each cell and the last two display columns are
/// blank).
pub open spec fn row_pixel(text: Seq<u8>, c: int) -> u8 {
    if c / 6 < OLED_TEXT_COLUMNS && c % 6 < 5 {
        spec_glyph(text[c / 6])[c % 6]
    } else {
        0
    }
}

/// The 128 display bytes of one text row.
pub open spec fn row_pixels(text: Seq<u8>) -> Seq<u8> {
    Seq::new(OLED_WIDTH as nat, |c: int| row_pixel(text, c))
}

/// The 128 bytes of display page `page` in the framebuffer.
pub open spec fn page_bytes(buffer: Seq<u8>, page: int) -> Seq<u8> {
    buffer.subrange(page * 128, page * 128 + 128)
}

/// Bit `k` of `mask` is set.
pub open spec fn page_bit(mask: u8, k: int) -> bool {
    mask & (1u8 << (k as u8)) != 0
}

/// The lowest dirty page, or 8 when none is dirty.
pub open spec fn first_dirty_page(mask: u8) -> int
    decreases 8int,
{
    first_dirty_from(mask, 0)
}

pub open spec fn first_dirty_from(mask: u8, k: int) -> int
    decreases 8 - k,
{
    if k >= 8 {
        8
    } else if page_bit(mask, k) {
        k
    } else {
        first_dirty_from(mask, k + 1)
    }
}

proof fn lemma_page_bits(m: u8, k: u8, j: u8)
    by (bit_vector)
    requires
        k < 8,
        j < 8,
    ensures
        ((m | (1u8 << k)) & (1u8 << j) != 0) == ((m & (1u8 << j) != 0) || k == j),
        ((m & !(1u8 << k)) & (1u8 << j) != 0) == ((m & (1u8 << j) != 0) && k != j),
        (0xffu8 & (1u8 << j)) != 0,
{
}

/// A page mask with none of its eight bits set is empty, and conversely.
proof fn lemma_no_page_bit(m: u8)
    by (bit_vector)
    ensures
        (m == 0) == (!page_bit(m, 0) && !page_bit(m, 1) && !page_bit(m, 2) && !page_bit(m, 3)
            && !page_bit(m, 4) && !page_bit(m, 5) && !page_bit(m, 6) && !page_bit(m, 7)),
{
}

proof fn lemma_first_dirty_from(mask: u8, k: int)
    requires
        0 <= k <= 8,
    ensures
        k <= first_dirty_from(mask, k) <= 8,
        first_dirty_from(mask, k) < 8 ==> page_bit(mask, first_dirty_from(mask, k)),
        forall|j: int| k <= j < first_dirty_from(mask, k) ==> !#[trigger] page_bit(mask, j),
    decreases 8 - k,
{
    if k < 8 && !page_bit(mask, k) {
        lemma_first_dirty_from(mask, k + 1);
    }
}

proof fn lemma_first_dirty_is(mask: u8, k: int, p: int)
    requires
        0 <= k <= p <= 8,
        forall|j: int| 0 <= j < p ==> !#[trigger] page_bit(mask, j),
        p == 8 || page_bit(mask, p),
    ensures
        first_dirty_from(mask, k) == p,
    decreases p - k,
{
    if k < p {
        lemma_first_dirty_is(mask, k + 1, p);
    }
}

/// Controller configuration sent by `init`, with the given contrast.
pub open spec fn init_commands(contrast: u8) -> Seq<u8> {
    seq![
        0xaeu8,
        0x20u8,
        0x02u8,
        0x40u8,
        0x23u8,
        0x00u8,
        0x2eu8,
        0xd6u8,
        0x00u8,
        0x81u8,
        contrast,
        0xa1u8,
        0xc8u8,
        0xa6u8,
        0xa8u8,
        0x3fu8,
        0xd3u8,
        0x00u8,
        0xd5u8,
        0x80u8,
        0xd9u8,
        0xf1u8,
        0xadu8,
        0x10u8,
        0xdau8,
        0x12u8,
        0xdbu8,
        0x20u8,
        0x8du8,
        0x14u8,
        0xa4u8,
        0xafu8,
    ]
}

/// Page-address commands that start the flush of `page` at column 0.
pub open spec fn page_select_commands(page: u8) -> Seq<u8> {
    seq![0xb0u8 | page, 0x00u8, 0x10u8]
}

/// The flush bookkeeping of the display: pages waiting to be sent and the
/// position inside the page being sent.
pub struct FlushCursor {
    pub dirty_pages: u8,
    pub active: bool,
    pub page: u8,
    pub column: u8,
}

/// One `service(m)` call on an initialized display: an idle cursor picks the
/// lowest dirty page at column 0; then up to `m` bytes of the page are sent,
/// and a page sent to its end is no longer dirty.
pub open spec fn service_step(c: FlushCursor, m: nat) -> FlushCursor {
    let first = first_dirty_page(c.dirty_pages);
    if m == 0 || (!c.active && first >= 8) {
        c
    } else {
        let page: u8 = if c.active { c.page } else { first as u8 };
        let column: int = if c.active { c.column as int } else { 0 };
        let transfer: int = if 128 - column < m { 128 - column } else { m as int };
        if column + transfer >= 128 {
            FlushCursor {
                dirty_pages: c.dirty_pages & !(1u8 << page),
                active: false,
                page,
                column: 0,
            }
        } else {
            FlushCursor {
                dirty_pages: c.dirty_pages,
                active: true,
                page,
                column: (column + transfer) as u8,
            }
        }
    }
}

/// `n` successive `service(m)` calls.
pub open spec fn service_steps(c: FlushCursor, m: nat, n: nat) -> FlushCursor
    decreases n,
{
    if n == 0 {
        c
    } else {
        service_steps(service_step(c, m), m, (n - 1) as nat)
    }
}

/// Number of `service(m)` calls that send one whole page: ceil(128 / m).
pub open spec fn calls_per_page(m: nat) -> nat {
    ((OLED_WIDTH + m - 1) / m as int) as nat
}

/// The dirty mask once pages `0..k` have been flushed after `init`.
pub open spec fn dirty_from(k: u8) -> u8 {
    (0xffu16 << (k as u16)) as u8
}

proof fn lemma_dirty_from(k: u8, j: u8)
    by (bit_vector)
    requires
        k < 8,
        j < 8,
    ensures
        (dirty_from(k) & (1u8 << j) != 0) == (j >= k),
        dirty_from(k) & !(1u8 << k) == dirty_from((k + 1) as u8),
        dirty_from(0) == 0xff,
        dirty_from(8) == 0,
{
}

proof fn lemma_calls_per_page(m: nat)
    requires
        m > 0,
    ensures
        calls_per_page(m) >= 1,
        calls_per_page(m) * m >= 128,
        (calls_per_page(m) - 1) * m < 128,
        m >= 128 ==> calls_per_page(m) == 1,
        m < 128 ==> calls_per_page(m) >= 2,
{
    let k = calls_per_page(m);
    let mi = m as int;
    let r = (127 + mi) % mi;
    assert(127 + mi == k * mi + r && 0 <= r < mi) by (nonlinear_arith)
        requires
            k == (127 + mi) / mi,
            r == (127 + mi) % mi,
            mi > 0,
    ;
    assert(k >= 1 && k * m >= 128 && (k - 1) * m < 128) by (nonlinear_arith)
        requires
            127 + m == k * m + r,
            0 <= r < m,
            m > 0,
            k >= 0,
    ;
    assert(m >= 128 ==> k == 1) by (nonlinear_arith)
        requires
            (k - 1) * m < 128,
            k >= 1,
    ;
    assert(m < 128 ==> k >= 2) by (nonlinear_arith)
        requires
            k * m >= 128,
            k >= 1,
    ;
}

proof fn lemma_service_steps_add(c: FlushCursor, m: nat, a: nat, b: nat)
    ensures
        service_steps(c, m, a + b) == service_steps(service_steps(c, m, a), m, b),
    decreases a,
{
    if a > 0 {
        lemma_service_steps_add(service_step(c, m), m, (a - 1) as nat, b);
        assert((a + b - 1) as nat == (a - 1) as nat + b);
    }
}

/// An active page whose remaining columns take `j` more calls is finished by
/// exactly those calls.
proof fn lemma_page_continues(c: FlushCursor, m: nat, j: nat)
    requires
        c.active,
        m > 0,
        j >= 1,
        c.column + (j - 1) * m < 128,
        c.column + j * m >= 128,
    ensures
        service_steps(c, m, j) == (FlushCursor {
            dirty_pages: c.dirty_pages & !(1u8 << c.page),
            active: false,
            page: c.page,
            column: 0,
        }),
    decreases j,
{
    if j > 1 {
        assert(j * m == (j - 1) * m + m && (j - 1) * m == (j - 2) * m + m && (j - 1) * m >= m)
            by (nonlinear_arith)
            requires
                j >= 2,
        ;
        let next = service_step(c, m);
        assert(next == FlushCursor { column: (c.column + m) as u8, ..c });
        lemma_page_continues(next, m, (j - 1) as nat);
        assert(service_steps(c, m, j) == service_steps(next, m, (j - 1) as nat));
    } else {
        assert(j * m == m) by (nonlinear_arith)
            requires
                j == 1,
        ;
        assert(service_steps(c, m, 1) == service_steps(service_step(c, m), m, 0));
    }
}

/// From an idle cursor whose dirty pages are `k..8`, one page's worth of
/// calls flushes page `k`.
proof fn lemma_page_flushed(c: FlushCursor, m: nat, k: u8)
    requires
        !c.active,
        c.dirty_pages == dirty_from(k),
        k < 8,
        m > 0,
    ensures
        service_steps(c, m, calls_per_page(m)) == (FlushCursor {
            dirty_pages: dirty_from((k + 1) as u8),
            active: false,
            page: k,
            column: 0,
        }),
{
    lemma_calls_per_page(m);
    lemma_dirty_from(k, k);
    assert forall|j: int| 0 <= j < k implies !#[trigger] page_bit(c.dirty_pages, j) by {
        lemma_dirty_from(k, j as u8);
    }
    lemma_first_dirty_is(c.dirty_pages, 0, k as int);
    let n = calls_per_page(m);
    let first = service_step(c, m);
    if m >= 128 {
        assert(service_steps(c, m, n) == service_steps(first, m, 0));
    } else {
        assert(first == FlushCursor {
            dirty_pages: c.dirty_pages,
            active: true,
            page: k,
            column: m as u8,
        });
        assert(m + ((n - 1) as nat - 1) * m == (n - 1) * m && m + (n - 1) * m == n * m)
            by (nonlinear_arith)
            requires
                n >= 2,
        ;
        lemma_page_continues(first, m, (n - 1) as nat);
    }
}

/// From an idle cursor whose dirty pages are `k..8`, the remaining pages'
/// calls leave the display idle.
proof fn lemma_pages_flushed(c: FlushCursor, m: nat, k: u8)
    requires
        !c.active,
        c.dirty_pages == dirty_from(k),
        k <= 8,
        m > 0,
    ensures
        service_steps(c, m, ((8 - k) * calls_per_page(m)) as nat).dirty_pages == 0,
        !service_steps(c, m, ((8 - k) * calls_per_page(m)) as nat).active,
    decreases 8 - k,
{
    lemma_dirty_from(0, 0);
    let n = calls_per_page(m);
    if k < 8 {
        let rest = ((8 - (k + 1)) * n) as nat;
        assert((8 - k) * n == n + (8 - (k + 1)) * n) by (nonlinear_arith);
        assert(((8 - k) * n) as nat == n + rest);
        lemma_service_steps_add(c, m, n, rest);
        lemma_page_flushed(c, m, k);
        let k1 = (k + 1) as u8;
        assert(((8 - k1) * n) as nat == rest);
        lemma_pages_flushed(service_steps(c, m, n), m, k1);
    } else {
        assert((8 - k) * n == 0) by (nonlinear_arith)
            requires
                k == 8,
        ;
    }
}

/// Right after `init` (every page dirty, no flush in progress),
/// 8 * ceil(128 / m) calls of `service(m)` with `m > 0` send the whole
/// framebuffer and leave the display idle.
pub proof fn lemma_init_flush_completes(c: FlushCursor, m: nat)
    requires
        c.dirty_pages == 0xff,
        !c.active,
        m > 0,
    ensures
        service_steps(c, m, (OLED_PAGE_COUNT * calls_per_page(m)) as nat).dirty_pages == 0,
        !service_steps(c, m, (OLED_PAGE_COUNT * calls_per_page(m)) as nat).active,
{
    lemma_dirty_from(0, 0);
    lemma_pages_flushed(c, m, 0);
    assert(((8 - 0) * calls_per_page(m)) as nat == (OLED_PAGE_COUNT * calls_per_page(m)) as nat);
}

/// One access to the controller through `OledIo`.
pub enum OledEvent {
    /// `reset`.
    Reset,
    /// `write_command` with this byte.
    Command(u8),
    /// One `write_data` call with these bytes.
    Data(Seq<u8>),
}

/// One `Command` event per byte, in order.
pub open spec fn command_events(bytes: Seq<u8>) -> Seq<OledEvent> {
    Seq::new(bytes.len(), |i: int| OledEvent::Command(bytes[i]))
}

/// SSD1315 framebuffer owner with dirty-page tracking and a bounded flush.
pub struct Ssd1315<I> {
    io: I,
    buffer: [u8; OLED_BUFFER_SIZE],
    contrast: u8,
    dirty_pages: u8,
    flush_page: u8,
    flush_column: u8,
    flush_active: bool,
    initialized: bool,
    /// Every controller access this driver has made, oldest first.
    events: Ghost<Seq<OledEvent>>,
}

impl<I: OledIo> Ssd1315<I> {
    pub closed spec fn spec_io(&self) -> I {
        self.io
    }

    pub closed spec fn spec_buffer(&self) -> Seq<u8> {
        self.buffer@
    }

    pub closed spec fn spec_contrast(&self) -> u8 {
        self.contrast
    }

    pub closed spec fn spec_dirty_pages(&self) -> u8 {
        self.dirty_pages
    }

    pub closed spec fn spec_flush_page(&self) -> u8 {
        self.flush_page
    }

    pub closed spec fn spec_flush_column(&self) -> u8 {
        self.flush_column
    }

    pub closed spec fn spec_flush_active(&self) -> bool {
        self.flush_active
    }

    pub closed spec fn spec_initialized(&self) -> bool {
        self.initialized
    }

    /// Every controller access made, oldest first.
    pub closed spec fn spec_events(&self) -> Seq<OledEvent> {
        self.events@
    }

    /// What `write_frame(frame)` makes of `self`: every page shows its text
    /// row, exactly the pages whose bytes changed become dirty, and nothing
    /// else changes (no controller access either).
    pub open spec fn spec_frame_written(&self, frame: OledTextFrame, after: Self) -> bool {
        &&& forall|r: int|
            0 <= r < OLED_TEXT_ROWS ==> #[trigger] page_bytes(after.spec_buffer(), r) == row_pixels(
                frame.rows_view()[r],
            )
        &&& forall|r: int|
            0 <= r < OLED_TEXT_ROWS ==> #[trigger] page_bit(after.spec_dirty_pages(), r) == (
            page_bit(self.spec_dirty_pages(), r) || page_bytes(self.spec_buffer(), r)
                != row_pixels(frame.rows_view()[r]))
        &&& after.spec_contrast() == self.spec_contrast()
        &&& after.spec_flush_page() == self.spec_flush_page()
        &&& after.spec_flush_column() == self.spec_flush_column()
        &&& after.spec_flush_active() == self.spec_flush_active()
        &&& after.spec_initialized() == self.spec_initialized()
        &&& after.spec_events() == self.spec_events()
        &&& after.spec_io() == self.spec_io()
    }

    /// Redrawing a frame on a fully flushed display that already shows it
    /// (the buffer an earlier `write_frame` of the same frame left, which
    /// `service` does not change) keeps the display idle.
    pub proof fn lemma_redraw_keeps_idle(
        before: Self,
        drawn: Self,
        frame: OledTextFrame,
        flushed: Self,
        redrawn: Self,
    )
        requires
            before.spec_frame_written(frame, drawn),
            flushed.spec_buffer() == drawn.spec_buffer(),
            flushed.spec_dirty_pages() == 0,
            !flushed.spec_flush_active(),
            flushed.spec_frame_written(frame, redrawn),
        ensures
            redrawn.spec_dirty_pages() == 0,
            !redrawn.spec_flush_active(),
    {
        assert forall|r: int| 0 <= r < OLED_TEXT_ROWS implies !#[trigger] page_bit(
            redrawn.spec_dirty_pages(),
            r,
        ) by {
            assert(page_bytes(flushed.spec_buffer(), r) == page_bytes(drawn.spec_buffer(), r));
            lemma_no_page_bit(flushed.spec_dirty_pages());
        }
        lemma_no_page_bit(redrawn.spec_dirty_pages());
    }

    /// Writing the blank frame to a fully flushed display whose framebuffer
    /// is still what `init` left (every pixel dark) keeps the display idle.
    pub proof fn lemma_blank_after_init_keeps_idle(
        flushed: Self,
        frame: OledTextFrame,
        redrawn: Self,
    )
        requires
            flushed.spec_buffer() == dark_buffer(),
            flushed.spec_dirty_pages() == 0,
            !flushed.spec_flush_active(),
            frame.rows_view() == Seq::new(OLED_TEXT_ROWS as nat, |r: int| blank_row()),
            flushed.spec_frame_written(frame, redrawn),
        ensures
            redrawn.spec_dirty_pages() == 0,
            !redrawn.spec_flush_active(),
    {
        lemma_blank_row_is_dark();
        assert forall|r: int| 0 <= r < OLED_TEXT_ROWS implies !#[trigger] page_bit(
            redrawn.spec_dirty_pages(),
            r,
        ) by {
            assert(page_bytes(dark_buffer(), r) == row_pixels(blank_row()));
            assert(frame.rows_view()[r] == blank_row());
            lemma_no_page_bit(flushed.spec_dirty_pages());
        }
        lemma_no_page_bit(redrawn.spec_dirty_pages());
    }

    pub open spec fn spec_flush_cursor(&self) -> FlushCursor {
        FlushCursor {
            dirty_pages: self.spec_dirty_pages(),
            active: self.spec_flush_active(),
            page: self.spec_flush_page(),
            column: self.spec_flush_column(),
        }
    }

    /// The flush cursor stays inside the framebuffer.
    pub open spec fn wf(&self) -> bool {
        &&& self.spec_buffer().len() == OLED_BUFFER_SIZE
        &&& self.spec_flush_page() < OLED_PAGE_COUNT
        &&& self.spec_flush_column() < OLED_WIDTH
    }

    pub fn new(io: I, contrast: u8) -> (d: Self)
        ensures
            d.wf(),
            d.spec_io() == io,
            d.spec_contrast() == contrast,
            d.spec_buffer() == dark_buffer(),
            d.spec_dirty_pages() == 0,
            d.spec_flush_page() == 0,
            d.spec_flush_column() == 0,
            !d.spec_flush_active(),
            !d.spec_initialized(),
            d.spec_events() == Seq::<OledEvent>::empty(),
    {
        let d = Ssd1315 {
            io,
            buffer: [0u8; OLED_BUFFER_SIZE],
            contrast,
            dirty_pages: 0,
            flush_page: 0,
            flush_column: 0,
            flush_active: false,
            initialized: false,
            events: Ghost(Seq::empty()),
        };
        assert(d.buffer@ =~= dark_buffer());
        d
    }

    /// Reset and configure the controller, clear the framebuffer and mark
    /// every page dirty so the next flush repaints the whole display.
    pub fn init(&mut self)
        requires
            old(self).wf(),
        ensures
            final(self).wf(),
            final(self).spec_buffer() == dark_buffer(),
            final(self).spec_dirty_pages() == 0xff,
            !final(self).spec_flush_active(),
            final(self).spec_initialized(),
            final(self).spec_contrast() == old(self).spec_contrast(),
            final(self).spec_flush_page() == old(self).spec_flush_page(),
            final(self).spec_flush_column() == old(self).spec_flush_column(),
            final(self).spec_events() == old(self).spec_events().push(OledEvent::Reset)
                + command_events(init_commands(old(self).spec_contrast())),
    {
        self.io.reset();
        self.events = Ghost(self.events@.push(OledEvent::Reset));
        self.command(CMD_DISPLAY_OFF);
        self.command_pair(CMD_MEMORY_MODE, MEMORY_MODE_PAGE);
        self.command(CMD_START_LINE);
        self.command_pair(CMD_FADE_BLINKING, 0x00);
        self.command(CMD_DEACTIVATE_SCROLL);
        self.command_pair(CMD_ZOOM, 0x00);
        let contrast = self.contrast;
        self.command_pair(CMD_CONTRAST, contrast);
        self.command(CMD_SEGMENT_REMAP);
        self.command(CMD_COM_SCAN_DEC);
        self.command(CMD_NORMAL_DISPLAY);
        self.command_pair(CMD_MULTIPLEX, 0x3f);
        self.command_pair(CMD_DISPLAY_OFFSET, 0x00);
        self.command_pair(CMD_DISPLAY_CLOCK, CLOCK_DEFAULT);
        self.command_pair(CMD_PRECHARGE, PRECHARGE_DEFAULT);
        self.command_pair(CMD_INTERNAL_IREF, IREF_INTERNAL_19UA);
        self.command_pair(CMD_COM_PINS, COM_PINS_ALTERNATIVE);
        self.command_pair(CMD_VCOM_DESELECT, VCOM_0P77);
        self.command_pair(CMD_CHARGE_PUMP, CHARGE_PUMP_ON);
        self.command(CMD_RESUME_RAM);
        self.command(CMD_DISPLAY_ON);
        assert(self.events@ =~= old(self).events@.push(OledEvent::Reset) + command_events(
            init_commands(contrast),
        ));
        let ghost sent = self.events@;
        let mut i: usize = 0;
        while i < OLED_BUFFER_SIZE
            invariant
                i <= OLED_BUFFER_SIZE,
                self.buffer@.len() == OLED_BUFFER_SIZE,
                forall|k: int| 0 <= k < i ==> self.buffer@[k] == 0u8,
                self.contrast == contrast,
                self.flush_page == old(self).flush_page,
                self.flush_column == old(self).flush_column,
                self.events@ == sent,
            decreases OLED_BUFFER_SIZE - i,
        {
            self.buffer[i] = 0;
            i = i + 1;
        }
        assert(self.buffer@ =~= dark_buffer());
        self.dirty_pages = 0xff;
        self.flush_active = false;
        self.initialized = true;
    }

    /// Record the contrast; an initialized display is sent it at once.
    pub fn set_contrast(&mut self, contrast: u8)
        ensures
            final(self).spec_contrast() == contrast,
            final(self).spec_buffer() == old(self).spec_buffer(),
            final(self).spec_dirty_pages() == old(self).spec_dirty_pages(),
            final(self).spec_flush_page() == old(self).spec_flush_page(),
            final(self).spec_flush_column() == old(self).spec_flush_column(),
            final(self).spec_flush_active() == old(self).spec_flush_active(),
            final(self).spec_initialized() == old(self).spec_initialized(),
            !old(self).spec_initialized() ==> final(self).spec_io() == old(self).spec_io(),
            final(self).spec_events() == if old(self).spec_initialized() {
                old(self).spec_events() + command_events(seq![0x81u8, contrast])
            } else {
                old(self).spec_events()
            },
    {
        self.contrast = contrast;
        if self.initialized {
            self.command_pair(CMD_CONTRAST, contrast);
            assert(self.events@ =~= old(self).events@ + command_events(seq![0x81u8, contrast]));
        }
    }

    pub fn contrast(&self) -> (c: u8)
        ensures
            c == self.spec_contrast(),
    {
        self.contrast
    }

    /// No page waits to be flushed and no flush is in progress.
    pub fn is_idle(&self) -> (b: bool)
        ensures
            b == (self.spec_dirty_pages() == 0 && !self.spec_flush_active()),
    {
        self.dirty_pages == 0 && !self.flush_active
    }

    /// Render a text frame into the framebuffer; exactly the pages whose
    /// bytes change are marked dirty (in addition to those already dirty).
    pub fn write_frame(&mut self, frame: &OledTextFrame)
        requires
            old(self).wf(),
        ensures
            final(self).wf(),
            forall|r: int|
                0 <= r < OLED_TEXT_ROWS ==> #[trigger] page_bytes(final(self).spec_buffer(), r)
                    == row_pixels(frame.rows_view()[r]),
            forall|r: int|
                0 <= r < OLED_TEXT_ROWS ==> #[trigger] page_bit(final(self).spec_dirty_pages(), r)
                    == (page_bit(old(self).spec_dirty_pages(), r) || page_bytes(
                    old(self).spec_buffer(),
                    r,
                ) != row_pixels(frame.rows_view()[r])),
            old(self).spec_dirty_pages() == 0 && (forall|r: int|
                0 <= r < OLED_TEXT_ROWS ==> #[trigger] page_bytes(old(self).spec_buffer(), r)
                    == row_pixels(frame.rows_view()[r])) ==> final(self).spec_dirty_pages() == 0,
            final(self).spec_contrast() == old(self).spec_contrast(),
            final(self).spec_flush_page() == old(self).spec_flush_page(),
            final(self).spec_flush_column() == old(self).spec_flush_column(),
            final(self).spec_flush_active() == old(self).spec_flush_active(),
            final(self).spec_initialized() == old(self).spec_initialized(),
            final(self).spec_events() == old(self).spec_events(),
            final(self).spec_io() == old(self).spec_io(),
            old(self).spec_frame_written(*frame, *final(self)),
    {
        let ghost old_self = *self;
        let mut row: usize = 0;
        while row < OLED_TEXT_ROWS
            invariant
                row <= OLED_TEXT_ROWS,
                self.wf(),
                forall|r: int|
                    0 <= r < row ==> #[trigger] page_bytes(self.spec_buffer(), r) == row_pixels(
                        frame.rows_view()[r],
                    ),
                forall|r: int|
                    row <= r < OLED_TEXT_ROWS ==> #[trigger] page_bytes(self.spec_buffer(), r)
                        == page_bytes(old_self.spec_buffer(), r),
                forall|r: int|
                    0 <= r < row ==> #[trigger] page_bit(self.spec_dirty_pages(), r) == (page_bit(
                        old_self.spec_dirty_pages(),
                        r,
                    ) || page_bytes(old_self.spec_buffer(), r) != row_pixels(
                        frame.rows_view()[r],
                    )),
                forall|r: int|
                    row <= r < OLED_TEXT_ROWS ==> #[trigger] page_bit(self.spec_dirty_pages(), r)
                        == page_bit(old_self.spec_dirty_pages(), r),
                self.contrast == old_self.contrast,
                self.flush_page == old_self.flush_page,
                self.flush_column == old_self.flush_column,
                self.flush_active == old_self.flush_active,
                self.initialized == old_self.initialized,
                self.events == old_self.events,
                self.io == old_self.io,
            decreases OLED_TEXT_ROWS - row,
        {
            let ghost before = *self;
            self.write_line(row, frame.row(row));
            proof {
                assert forall|r: int| 0 <= r < OLED_TEXT_ROWS && r != row implies #[trigger] page_bytes(
                    self.spec_buffer(),
                    r,
                ) == page_bytes(before.spec_buffer(), r) by {
                    assert(page_bytes(self.spec_buffer(), r) =~= page_bytes(before.spec_buffer(), r));
                }
            }
            row = row + 1;
        }
        proof {
            lemma_no_page_bit(self.dirty_pages);
            lemma_no_page_bit(old_self.dirty_pages);
        }
    }

    /// Service at most `max_data_bytes` of display RAM traffic.
    ///
    /// This method deliberately exposes a bounded background slice so the
    /// write-only software-SPI transport cannot turn one UI refresh into an
    /// unbounded full-frame burst in the control workload.
    pub fn service(&mut self, max_data_bytes: usize)
        requires
            old(self).wf(),
        ensures
            final(self).wf(),
            final(self).spec_flush_cursor() == if old(self).spec_initialized() {
                service_step(old(self).spec_flush_cursor(), max_data_bytes as nat)
            } else {
                old(self).spec_flush_cursor()
            },
            final(self).spec_buffer() == old(self).spec_buffer(),
            final(self).spec_contrast() == old(self).spec_contrast(),
            final(self).spec_initialized() == old(self).spec_initialized(),
            ({
                let o = *old(self);
                let f = *final(self);
                let first = first_dirty_page(o.spec_dirty_pages());
                let selecting = !o.spec_flush_active() && first < 8;
                let page: u8 = if selecting { first as u8 } else { o.spec_flush_page() };
                let column: int = if selecting { 0 } else { o.spec_flush_column() as int };
                let transfer = if 128 - column < max_data_bytes { 128 - column } else { max_data_bytes as int };
                &&& if !o.spec_initialized() || max_data_bytes == 0 || (!o.spec_flush_active()
                    && first >= 8) {
                    f.spec_events() == o.spec_events() && f.spec_io() == o.spec_io()
                } else {
                    f.spec_events() == (if selecting {
                        o.spec_events() + command_events(page_select_commands(page))
                    } else {
                        o.spec_events()
                    }).push(
                        OledEvent::Data(
                            o.spec_buffer().subrange(
                                page * 128 + column,
                                page * 128 + column + transfer,
                            ),
                        ),
                    )
                }
                &&& if !o.spec_initialized() || max_data_bytes == 0 || (!o.spec_flush_active() && first
                    >= 8) {
                    f.spec_dirty_pages() == o.spec_dirty_pages() && f.spec_flush_active()
                        == o.spec_flush_active() && f.spec_flush_page() == o.spec_flush_page()
                        && f.spec_flush_column() == o.spec_flush_column()
                } else if column + transfer >= 128 {
                    &&& f.spec_flush_page() == page
                    &&& !f.spec_flush_active()
                    &&& f.spec_flush_column() == 0
                    &&& forall|k: int|
                        0 <= k < 8 ==> #[trigger] page_bit(f.spec_dirty_pages(), k) == (page_bit(
                            o.spec_dirty_pages(),
                            k,
                        ) && k != page)
                } else {
                    &&& f.spec_flush_page() == page
                    &&& f.spec_flush_active()
                    &&& f.spec_flush_column() == column + transfer
                    &&& f.spec_dirty_pages() == o.spec_dirty_pages()
                }
            }),
    {
        if !self.initialized || max_data_bytes == 0 {
            return;
        }
        proof {
            lemma_first_dirty_from(self.dirty_pages, 0);
        }
        if !self.flush_active {
            let mut page: u8 = 0;
            while page < 8 && self.dirty_pages & (1u8 << page) == 0
                invariant
                    page <= 8,
                    forall|j: int| 0 <= j < page ==> !#[trigger] page_bit(self.dirty_pages, j),
                decreases 8 - page,
            {
                assert(!page_bit(self.dirty_pages, page as int));
                page = page + 1;
            }
            proof {
                lemma_first_dirty_is(self.dirty_pages, 0, page as int);
            }
            if page < 8 {
                self.flush_page = page;
                self.flush_column = 0;
                self.flush_active = true;
                let page_command = CMD_PAGE_BASE | page;
                self.command(page_command);
                self.command(CMD_LOWER_COLUMN);
                self.command(CMD_HIGHER_COLUMN);
                assert(self.events@ =~= old(self).events@ + command_events(
                    page_select_commands(page),
                ));
            }
        }
        if !self.flush_active {
            return;
        }
        let remaining: usize = OLED_WIDTH - self.flush_column as usize;
        let transfer: usize = if remaining < max_data_bytes {
            remaining
        } else {
            max_data_bytes
        };
        let base: usize = self.flush_page as usize * OLED_WIDTH + self.flush_column as usize;
        self.io.write_data(&self.buffer[base..base + transfer]);
        self.events = Ghost(
            self.events@.push(
                OledEvent::Data(self.buffer@.subrange(base as int, (base + transfer) as int)),
            ),
        );
        let advanced: usize = self.flush_column as usize + transfer;
        if advanced >= OLED_WIDTH {
            proof {
                lemma_page_bits(self.dirty_pages, self.flush_page, 0);
                assert forall|k: int| 0 <= k < 8 implies #[trigger] page_bit(
                    self.dirty_pages & !(1u8 << self.flush_page),
                    k,
                ) == (page_bit(self.dirty_pages, k) && k != self.flush_page) by {
                    lemma_page_bits(self.dirty_pages, self.flush_page, k as u8);
                }
            }
            self.dirty_pages = self.dirty_pages & !(1u8 << self.flush_page);
            self.flush_active = false;
            self.flush_column = 0;
        } else {
            self.flush_column = advanced as u8;
        }
    }

    pub fn into_inner(self) -> (io: I)
        ensures
            io == self.spec_io(),
    {
        self.io
    }

    fn write_line(&mut self, row: usize, text: &[u8; OLED_TEXT_COLUMNS])
        requires
            old(self).wf(),
            row < OLED_TEXT_ROWS,
        ensures
            final(self).wf(),
            page_bytes(final(self).spec_buffer(), row as int) == row_pixels(text@),
            forall|k: int|
                0 <= k < OLED_BUFFER_SIZE && !(row * 128 <= k < row * 128 + 128) ==> #[trigger] final(self).spec_buffer()[k] == old(self).spec_buffer()[k],
            page_bit(final(self).spec_dirty_pages(), row as int) == (page_bit(
                old(self).spec_dirty_pages(),
                row as int,
            ) || page_bytes(old(self).spec_buffer(), row as int) != row_pixels(text@)),
            forall|k: int|
                0 <= k < 8 && k != row ==> #[trigger] page_bit(final(self).spec_dirty_pages(), k)
                    == page_bit(old(self).spec_dirty_pages(), k),
            final(self).spec_contrast() == old(self).spec_contrast(),
            final(self).spec_flush_page() == old(self).spec_flush_page(),
            final(self).spec_flush_column() == old(self).spec_flush_column(),
            final(self).spec_flush_active() == old(self).spec_flush_active(),
            final(self).spec_initialized() == old(self).spec_initialized(),
            final(self).spec_events() == old(self).spec_events(),
            final(self).spec_io() == old(self).spec_io(),
    {
        let row_buffer = render_row(text);
        let base: usize = row * OLED_WIDTH;
        let mut differs = false;
        let mut c: usize = 0;
        while c < OLED_WIDTH
            invariant
                c <= OLED_WIDTH,
                base == row * 128,
                row < OLED_TEXT_ROWS,
                self.buffer@.len() == OLED_BUFFER_SIZE,
                row_buffer@ == row_pixels(text@),
                differs == exists|j: int| 0 <= j < c && self.buffer@[base + j] != row_buffer@[j],
                self.buffer@ == old(self).buffer@,
                self.dirty_pages == old(self).dirty_pages,
                self.flush_page == old(self).flush_page,
                self.flush_column == old(self).flush_column,
                self.flush_active == old(self).flush_active,
                self.initialized == old(self).initialized,
                self.contrast == old(self).contrast,
                self.events == old(self).events,
                self.io == old(self).io,
                old(self).wf(),
            decreases OLED_WIDTH - c,
        {
            if self.buffer[base + c] != row_buffer[c] {
                differs = true;
            }
            c = c + 1;
        }
        proof {
            if differs {
                let j = choose|j: int| 0 <= j < 128 && self.buffer@[base + j] != row_buffer@[j];
                assert(page_bytes(self.buffer@, row as int)[j] != row_pixels(text@)[j]);
            } else {
                assert(page_bytes(self.buffer@, row as int) =~= row_pixels(text@));
            }
            lemma_page_bits(self.dirty_pages, row as u8, 0);
            assert forall|k: int| 0 <= k < 8 implies #[trigger] page_bit(
                self.dirty_pages | (1u8 << (row as u8)),
                k,
            ) == (page_bit(self.dirty_pages, k) || k == row) by {
                lemma_page_bits(self.dirty_pages, row as u8, k as u8);
            }
        }
        if differs {
            let ghost before = self.buffer@;
            let mut c: usize = 0;
            while c < OLED_WIDTH
                invariant
                    c <= OLED_WIDTH,
                    base == row * 128,
                    row < OLED_TEXT_ROWS,
                    self.buffer@.len() == OLED_BUFFER_SIZE,
                    row_buffer@ == row_pixels(text@),
                    forall|j: int| 0 <= j < c ==> self.buffer@[base + j] == row_buffer@[j],
                    before.len() == OLED_BUFFER_SIZE,
                    before == old(self).buffer@,
                    forall|k: int|
                        0 <= k < OLED_BUFFER_SIZE && !(base <= k < base + c) ==> #[trigger] self.buffer@[k]
                            == before[k],
                    self.dirty_pages == old(self).dirty_pages,
                    self.flush_page == old(self).flush_page,
                    self.flush_column == old(self).flush_column,
                    self.flush_active == old(self).flush_active,
                    self.initialized == old(self).initialized,
                    self.contrast == old(self).contrast,
                    self.events == old(self).events,
                    self.io == old(self).io,
                    old(self).wf(),
                decreases OLED_WIDTH - c,
            {
                self.buffer[base + c] = row_buffer[c];
                c = c + 1;
            }
            assert(page_bytes(self.buffer@, row as int) =~= row_pixels(text@));
            let bit: u8 = 1u8 << (row as u8);
            self.dirty_pages = self.dirty_pages | bit;
        }
    }

    fn command(&mut self, command: u8)
        ensures
            final(self).spec_events() == old(self).spec_events().push(OledEvent::Command(command)),
            final(self).spec_buffer() == old(self).spec_buffer(),
            final(self).spec_contrast() == old(self).spec_contrast(),
            final(self).spec_dirty_pages() == old(self).spec_dirty_pages(),
            final(self).spec_flush_page() == old(self).spec_flush_page(),
            final(self).spec_flush_column() == old(self).spec_flush_column(),
            final(self).spec_flush_active() == old(self).spec_flush_active(),
            final(self).spec_initialized() == old(self).spec_initialized(),
    {
        self.io.write_command(command);
        self.events = Ghost(self.events@.push(OledEvent::Command(command)));
    }

    fn command_pair(&mut self, command: u8, value: u8)
        ensures
            final(self).spec_events() == old(self).spec_events().push(OledEvent::Command(command)).push(
                OledEvent::Command(value),
            ),
            final(self).spec_buffer() == old(self).spec_buffer(),
            final(self).spec_contrast() == old(self).spec_contrast(),
            final(self).spec_dirty_pages() == old(self).spec_dirty_pages(),
            final(self).spec_flush_page() == old(self).spec_flush_page(),
            final(self).spec_flush_column() == old(self).spec_flush_column(),
            final(self).spec_flush_active() == old(self).spec_flush_active(),
            final(self).spec_initialized() == old(self).spec_initialized(),
    {
        self.command(command);
        self.command(value);
    }
}

proof fn lemma_cell(c: int, i: int)
    requires
        i * 6 <= c < i * 6 + 6,
        0 <= i,
    ensures
        c / 6 == i,
        c % 6 == c - i * 6,
{
}

/// Draw the 21 character cells of one text row into 128 display bytes.
fn render_row(text: &[u8; OLED_TEXT_COLUMNS]) -> (out: [u8; OLED_WIDTH])
    ensures
        out@ == row_pixels(text@),
{
    let mut out = [0u8; OLED_WIDTH];
    let mut i: usize = 0;
    while i < OLED_TEXT_COLUMNS
        invariant
            i <= OLED_TEXT_COLUMNS,
            out@.len() == OLED_WIDTH,
            text@.len() == OLED_TEXT_COLUMNS,
            forall|c: int| 0 <= c < i * 6 ==> #[trigger] out@[c] == row_pixel(text@, c),
            forall|c: int| i * 6 <= c < OLED_WIDTH ==> #[trigger] out@[c] == 0,
        decreases OLED_TEXT_COLUMNS - i,
    {
        let glyph = glyph_for_character(text[i]);
        let offset: usize = i * 6;
        let mut j: usize = 0;
        while j < 5
            invariant
                j <= 5,
                i < OLED_TEXT_COLUMNS,
                offset == i * 6,
                out@.len() == OLED_WIDTH,
                text@.len() == OLED_TEXT_COLUMNS,
                glyph@ == spec_glyph(text@[i as int]),
                forall|c: int| 0 <= c < i * 6 ==> #[trigger] out@[c] == row_pixel(text@, c),
                forall|c: int| offset <= c < offset + j ==> #[trigger] out@[c] == glyph@[c - offset],
                forall|c: int| offset + j <= c < OLED_WIDTH ==> #[trigger] out@[c] == 0,
            decreases 5 - j,
        {
            out[offset + j] = glyph[j];
            j = j + 1;
        }
        proof {
            assert forall|c: int| 0 <= c < (i + 1) * 6 implies #[trigger] out@[c] == row_pixel(
                text@,
                c,
            ) by {
                if c >= i * 6 {
                    lemma_cell(c, i as int);
                }
            }
        }
        i = i + 1;
    }
    proof {
        assert forall|c: int| 0 <= c < OLED_WIDTH implies #[trigger] out@[c] == row_pixel(text@, c) by {
            if c >= 126 {
                assert(c / 6 >= 21);
            }
        }
    }
    assert(out@ =~= row_pixels(text@));
    out
}

// ---------------------------------------------------------------------------
// Text frames
// ---------------------------------------------------------------------------

/// Eight rows of 21 characters.
#[derive(Clone, Copy, Debug, PartialEq, Eq)]
pub struct OledTextFrame {
    rows: [[u8; OLED_TEXT_COLUMNS]; OLED_TEXT_ROWS],
}

/// A row of spaces.
pub open spec fn blank_row() -> Seq<u8> {
    Seq::new(OLED_TEXT_COLUMNS as nat, |i: int| 32u8)
}

/// A framebuffer with every pixel dark, as `init` leaves it.
pub open spec fn dark_buffer() -> Seq<u8> {
    Seq::new(OLED_BUFFER_SIZE as nat, |i: int| 0u8)
}

/// A blank text row renders to 128 dark columns, which is what every page
/// of the framebuffer holds after `init`: writing the blank frame to a
/// freshly initialized display marks no page dirty.
pub proof fn lemma_blank_row_is_dark()
    ensures
        row_pixels(blank_row()) == Seq::new(OLED_WIDTH as nat, |c: int| 0u8),
        forall|r: int|
            0 <= r < OLED_PAGE_COUNT ==> #[trigger] page_bytes(dark_buffer(), r) == row_pixels(
                blank_row(),
            ),
{
    assert(spec_glyph(32) =~= seq![0u8, 0u8, 0u8, 0u8, 0u8]);
    assert(row_pixels(blank_row()) =~= Seq::new(OLED_WIDTH as nat, |c: int| 0u8));
    assert forall|r: int| 0 <= r < OLED_PAGE_COUNT implies #[trigger] page_bytes(dark_buffer(), r)
        == row_pixels(blank_row()) by {
        assert(page_bytes(dark_buffer(), r) =~= Seq::new(OLED_WIDTH as nat, |c: int| 0u8));
    }
}

impl OledTextFrame {
    pub closed spec fn rows_view(&self) -> Seq<Seq<u8>> {
        Seq::new(OLED_TEXT_ROWS as nat, |r: int| self.rows@[r]@)
    }

    pub fn blank() -> (f: Self)
        ensures
            f.rows_view() == Seq::new(OLED_TEXT_ROWS as nat, |r: int| blank_row()),
    {
        let f = OledTextFrame { rows: [[32u8; OLED_TEXT_COLUMNS]; OLED_TEXT_ROWS] };
        assert forall|r: int| 0 <= r < OLED_TEXT_ROWS implies f.rows@[r]@ =~= blank_row() by {}
        assert(f.rows_view() =~= Seq::new(OLED_TEXT_ROWS as nat, |r: int| blank_row()));
        f
    }

    pub fn row(&self, index: usize) -> (r: &[u8; OLED_TEXT_COLUMNS])
        requires
            index < OLED_TEXT_ROWS,
        ensures
            r@ == self.rows_view()[index as int],
            r@.len() == OLED_TEXT_COLUMNS,
    {
        &self.rows[index]
    }
}

// ---------------------------------------------------------------------------
// Text layout
// ---------------------------------------------------------------------------

/// `row` with `bytes` written from column `start`, truncated at the row end.
pub open spec fn put_text(row: Seq<u8>, start: int, bytes: Seq<u8>) -> Seq<u8> {
    Seq::new(
        row.len(),
        |i: int|
            if start <= i < start + bytes.len() {
                bytes[i - start]
            } else {
                row[i]
            },
    )
}

/// Decimal digit values of `v`, least significant first.
pub open spec fn rev_digits(v: nat) -> Seq<u8>
    decreases v,
{
    if v < 10 {
        seq![v as u8]
    } else {
        seq![(v % 10) as u8] + rev_digits(v / 10)
    }
}

/// ASCII decimal text of `v`, most significant digit first, no padding.
pub open spec fn decimal_text(v: nat) -> Seq<u8> {
    let r = rev_digits(v);
    Seq::new(r.len(), |i: int| (48 + r[r.len() - 1 - i]) as u8)
}

/// ASCII of one hexadecimal digit, upper case.
pub open spec fn hex_digit(n: u8) -> u8 {
    if n < 10 {
        (48 + n) as u8
    } else {
        (65 + n - 10) as u8
    }
}

/// Eight upper-case hexadecimal digits of `v`, most significant first.
pub open spec fn hex_text(v: u32) -> Seq<u8> {
    Seq::new(8, |i: int| hex_digit(((v >> ((7 - i) * 4) as u32) & 0xfu32) as u8))
}

/// Magnitude of a signed value.
pub open spec fn magnitude(v: i32) -> nat {
    if v < 0 {
        (-v) as nat
    } else {
        v as nat
    }
}

/// A blank row starting with `label` followed by `value`.
pub open spec fn label_value_row(label: Seq<u8>, value: Seq<u8>) -> Seq<u8> {
    put_text(put_text(blank_row(), 0, label), label.len() as int, value)
}

/// A blank row starting with `text`.
pub open spec fn text_row(text: Seq<u8>) -> Seq<u8> {
    put_text(blank_row(), 0, text)
}

/// `label`, then `+` or `-`, then the decimal magnitude of `v`.
pub open spec fn signed_row(label: Seq<u8>, v: i32) -> Seq<u8> {
    label_value_row(
        label,
        seq![if v < 0 { 45u8 } else { 43u8 }] + decimal_text(magnitude(v)),
    )
}

/// `label`, then the decimal text of `v`.
pub open spec fn unsigned_row(label: Seq<u8>, v: u32) -> Seq<u8> {
    label_value_row(label, decimal_text(v as nat))
}

/// `label`, then eight hexadecimal digits of `v`.
pub open spec fn hex_row(label: Seq<u8>, v: u32) -> Seq<u8> {
    label_value_row(label, hex_text(v))
}

/// `10^n`.
pub open spec fn pow10(n: nat) -> nat
    decreases n,
{
    if n == 0 {
        1
    } else {
        10 * pow10((n - 1) as nat)
    }
}

proof fn lemma_rev_digits_len(v: nat, n: nat)
    requires
        v < pow10(n),
        n >= 1,
    ensures
        1 <= rev_digits(v).len() <= n,
    decreases n,
{
    if v >= 10 {
        if n == 1 {
            reveal_with_fuel(pow10, 2);
            assert(pow10(1) == 10);
        } else {
            let q = pow10((n - 1) as nat);
            assert(v / 10 < q) by (nonlinear_arith)
                requires
                    v < 10 * q,
            ;
            lemma_rev_digits_len(v / 10, (n - 1) as nat);
        }
    }
}

proof fn lemma_rev_digits_are_digits(v: nat)
    ensures
        forall|i: int| 0 <= i < rev_digits(v).len() ==> #[trigger] rev_digits(v)[i] < 10,
    decreases v,
{
    if v >= 10 {
        lemma_rev_digits_are_digits(v / 10);
        let r = rev_digits(v);
        assert forall|i: int| 0 <= i < r.len() implies #[trigger] r[i] < 10 by {
            if i > 0 {
                assert(r[i] == rev_digits(v / 10)[i - 1]);
            }
        }
    }
}

proof fn lemma_u32_has_at_most_ten_digits(v: u32)
    ensures
        1 <= rev_digits(v as nat).len() <= 10,
{
    reveal_with_fuel(pow10, 11);
    assert(pow10(10) == 10000000000);
    lemma_rev_digits_len(v as nat, 10);
}

proof fn lemma_rev_digits_nonempty(v: nat)
    ensures
        rev_digits(v).len() >= 1,
{
}

proof fn lemma_rev_digits_injective(a: nat, b: nat)
    requires
        rev_digits(a) == rev_digits(b),
    ensures
        a == b,
    decreases a,
{
    let ra = rev_digits(a);
    if a < 10 && b < 10 {
        assert(ra[0] == a as u8 && ra[0] == b as u8);
    } else if a < 10 {
        lemma_rev_digits_nonempty(b / 10);
        assert(rev_digits(b).len() >= 2);
    } else if b < 10 {
        lemma_rev_digits_nonempty(a / 10);
        assert(ra.len() >= 2);
    } else {
        assert(ra[0] == (a % 10) as u8 && ra[0] == (b % 10) as u8);
        assert(ra.subrange(1, ra.len() as int) =~= rev_digits(a / 10));
        assert(rev_digits(b).subrange(1, rev_digits(b).len() as int) =~= rev_digits(b / 10));
        lemma_rev_digits_injective(a / 10, b / 10);
    }
}

proof fn lemma_decimal_text_injective(a: nat, b: nat)
    requires
        decimal_text(a) == decimal_text(b),
    ensures
        a == b,
{
    let ra = rev_digits(a);
    let rb = rev_digits(b);
    lemma_rev_digits_are_digits(a);
    lemma_rev_digits_are_digits(b);
    assert(ra.len() == decimal_text(a).len() && rb.len() == decimal_text(b).len());
    assert forall|j: int| 0 <= j < ra.len() implies ra[j] == rb[j] by {
        let i = ra.len() - 1 - j;
        assert(decimal_text(a)[i] == (48 + ra[j]) as u8);
        assert(decimal_text(b)[i] == (48 + rb[j]) as u8);
    }
    assert(ra =~= rb);
    lemma_rev_digits_injective(a, b);
}

/// Decimal text is made of ASCII digits.
proof fn lemma_decimal_text_digits(v: nat)
    ensures
        decimal_text(v).len() == rev_digits(v).len(),
        forall|i: int|
            0 <= i < decimal_text(v).len() ==> 48 <= #[trigger] decimal_text(v)[i] <= 57,
{
    lemma_rev_digits_are_digits(v);
}

/// Where a labelled row holds its label, its value and its blank tail.
proof fn lemma_label_value_row_at(label: Seq<u8>, value: Seq<u8>)
    requires
        label.len() + value.len() <= OLED_TEXT_COLUMNS,
    ensures
        label_value_row(label, value).len() == OLED_TEXT_COLUMNS,
        forall|i: int|
            label.len() <= i < label.len() + value.len() ==> #[trigger] label_value_row(
                label,
                value,
            )[i] == value[i - label.len()],
        forall|i: int|
            label.len() + value.len() <= i < OLED_TEXT_COLUMNS ==> #[trigger] label_value_row(
                label,
                value,
            )[i] == 32u8,
{
}

/// Two values without spaces that fit behind the label are told apart by
/// their labelled rows.
proof fn lemma_value_recovered(label: Seq<u8>, a: Seq<u8>, b: Seq<u8>)
    requires
        label.len() + a.len() <= OLED_TEXT_COLUMNS,
        label.len() + b.len() <= OLED_TEXT_COLUMNS,
        forall|i: int| 0 <= i < a.len() ==> #[trigger] a[i] != 32u8,
        forall|i: int| 0 <= i < b.len() ==> #[trigger] b[i] != 32u8,
        label_value_row(label, a) == label_value_row(label, b),
    ensures
        a == b,
{
    lemma_label_value_row_at(label, a);
    lemma_label_value_row_at(label, b);
    let ra = label_value_row(label, a);
    let rb = label_value_row(label, b);
    if a.len() < b.len() {
        let i: int = (label.len() + a.len()) as int;
        assert(ra[i] == 32u8);
        assert(rb[i] == b[a.len() as int]);
    } else if b.len() < a.len() {
        let i: int = (label.len() + b.len()) as int;
        assert(rb[i] == 32u8);
        assert(ra[i] == a[b.len() as int]);
    } else {
        assert forall|j: int| 0 <= j < a.len() implies a[j] == b[j] by {
            assert(ra[label.len() + j] == a[j]);
            assert(rb[label.len() + j] == b[j]);
        }
        assert(a =~= b);
    }
}

/// Two values that differ at a column shown behind the label give different
/// labelled rows.
proof fn lemma_value_difference_shows(label: Seq<u8>, a: Seq<u8>, b: Seq<u8>, i: int)
    requires
        0 <= i < a.len(),
        i < b.len(),
        label.len() + i < OLED_TEXT_COLUMNS,
        a[i] != b[i],
    ensures
        label_value_row(label, a) != label_value_row(label, b),
{
    let k: int = label.len() + i;
    assert(label_value_row(label, a)[k] == a[i]);
    assert(label_value_row(label, b)[k] == b[i]);
}

/// The number that a string of ASCII decimal digits reads as, most
/// significant digit first.
pub open spec fn decimal_value(text: Seq<u8>) -> nat
    decreases text.len(),
{
    if text.len() == 0 {
        0
    } else {
        decimal_value(text.drop_last()) * 10 + (text.last() - 48) as nat
    }
}

/// Decimal text reads back as its number: it is made of ASCII digits, most
/// significant first, with no leading zero.
pub proof fn lemma_decimal_text_reads_back(v: nat)
    ensures
        decimal_value(decimal_text(v)) == v,
        decimal_text(v).len() >= 1,
        forall|i: int|
            0 <= i < decimal_text(v).len() ==> 48 <= #[trigger] decimal_text(v)[i] <= 57,
        decimal_text(v).len() > 1 ==> decimal_text(v)[0] != 48u8,
    decreases v,
{
    lemma_decimal_text_digits(v);
    lemma_rev_digits_nonempty(v);
    if v >= 10 {
        lemma_decimal_text_reads_back(v / 10);
        lemma_rev_digits_nonempty(v / 10);
        let t = decimal_text(v);
        let r = rev_digits(v);
        assert(r == seq![(v % 10) as u8] + rev_digits(v / 10));
        assert(t.drop_last() =~= decimal_text(v / 10));
        assert(t.last() == (48 + v % 10) as u8);
        assert(decimal_value(t) == decimal_value(t.drop_last()) * 10 + (t.last() - 48) as nat);
        assert(v == (v / 10) * 10 + v % 10);
        assert(t[0] == decimal_text(v / 10)[0]);
        if v / 10 < 10 {
            assert(rev_digits(v / 10) == seq![(v / 10) as u8]);
            assert(decimal_text(v / 10)[0] == (48 + v / 10) as u8);
        } else {
            lemma_rev_digits_nonempty(v / 10 / 10);
            assert(rev_digits(v / 10) == seq![(v / 10 % 10) as u8] + rev_digits(v / 10 / 10));
            assert(decimal_text(v / 10).len() > 1);
        }
    } else {
        let t = decimal_text(v);
        assert(rev_digits(v) == seq![v as u8]);
        assert(t.drop_last() =~= Seq::<u8>::empty());
        assert(decimal_value(t) == decimal_value(t.drop_last()) * 10 + (t.last() - 48) as nat);
        assert(decimal_value(Seq::<u8>::empty()) == 0);
    }
}

/// A signed row shows `-` behind the label exactly for a negative value,
/// `+` otherwise, and then the magnitude in decimal.
pub proof fn lemma_signed_row_layout(label: Seq<u8>, v: i32)
    requires
        label.len() <= 10,
    ensures
        signed_row(label, v)[label.len() as int] == if v < 0 {
            45u8
        } else {
            43u8
        },
        decimal_value(
            signed_row(label, v).subrange(
                label.len() + 1int,
                label.len() + 1int + decimal_text(magnitude(v)).len(),
            ),
        ) == magnitude(v),
        magnitude(v) == if v < 0 {
            -(v as int)
        } else {
            v as int
        },
{
    let value = seq![if v < 0 { 45u8 } else { 43u8 }] + decimal_text(magnitude(v));
    lemma_u32_has_at_most_ten_digits(magnitude(v) as u32);
    lemma_decimal_text_digits(magnitude(v));
    lemma_label_value_row_at(label, value);
    lemma_decimal_text_reads_back(magnitude(v));
    let row = signed_row(label, v);
    assert(row[label.len() as int] == value[0]);
    assert(row.subrange(label.len() + 1int, label.len() + 1int + decimal_text(magnitude(v)).len())
        =~= decimal_text(magnitude(v)));
}

/// An unsigned row shows the value in decimal right behind the label.
pub proof fn lemma_unsigned_row_layout(label: Seq<u8>, v: u32)
    requires
        label.len() <= 11,
    ensures
        decimal_value(
            unsigned_row(label, v).subrange(
                label.len() as int,
                (label.len() + decimal_text(v as nat).len()) as int,
            ),
        ) == v,
{
    lemma_u32_has_at_most_ten_digits(v);
    lemma_decimal_text_digits(v as nat);
    lemma_label_value_row_at(label, decimal_text(v as nat));
    lemma_decimal_text_reads_back(v as nat);
    assert(unsigned_row(label, v).subrange(
        label.len() as int,
        (label.len() + decimal_text(v as nat).len()) as int,
    ) =~= decimal_text(v as nat));
}

/// A signed row shows its value: behind a label of at most ten bytes, two
/// values give the same row exactly when they are equal.
pub proof fn lemma_signed_row_shows_value(label: Seq<u8>, a: i32, b: i32)
    requires
        label.len() <= 10,
    ensures
        (signed_row(label, a) == signed_row(label, b)) == (a == b),
{
    if signed_row(label, a) == signed_row(label, b) {
        let va = seq![if a < 0 { 45u8 } else { 43u8 }] + decimal_text(magnitude(a));
        let vb = seq![if b < 0 { 45u8 } else { 43u8 }] + decimal_text(magnitude(b));
        lemma_u32_has_at_most_ten_digits(magnitude(a) as u32);
        lemma_u32_has_at_most_ten_digits(magnitude(b) as u32);
        lemma_decimal_text_digits(magnitude(a));
        lemma_decimal_text_digits(magnitude(b));
        assert forall|i: int| 0 <= i < va.len() implies #[trigger] va[i] != 32u8 by {
            if i > 0 {
                assert(va[i] == decimal_text(magnitude(a))[i - 1]);
            }
        }
        assert forall|i: int| 0 <= i < vb.len() implies #[trigger] vb[i] != 32u8 by {
            if i > 0 {
                assert(vb[i] == decimal_text(magnitude(b))[i - 1]);
            }
        }
        lemma_value_recovered(label, va, vb);
        assert(va[0] == vb[0]);
        assert(va.subrange(1, va.len() as int) =~= decimal_text(magnitude(a)));
        assert(vb.subrange(1, vb.len() as int) =~= decimal_text(magnitude(b)));
        lemma_decimal_text_injective(magnitude(a), magnitude(b));
    }
}

/// An unsigned row shows its value: behind a label of at most eleven bytes,
/// two values give the same row exactly when they are equal.
pub proof fn lemma_unsigned_row_shows_value(label: Seq<u8>, a: u32, b: u32)
    requires
        label.len() <= 11,
    ensures
        (unsigned_row(label, a) == unsigned_row(label, b)) == (a == b),
{
    if unsigned_row(label, a) == unsigned_row(label, b) {
        lemma_u32_has_at_most_ten_digits(a);
        lemma_u32_has_at_most_ten_digits(b);
        lemma_decimal_text_digits(a as nat);
        lemma_decimal_text_digits(b as nat);
        lemma_value_recovered(label, decimal_text(a as nat), decimal_text(b as nat));
        lemma_decimal_text_injective(a as nat, b as nat);
    }
}

proof fn lemma_nibbles_determine(a: u32, b: u32)
    by (bit_vector)
    requires
        (a >> 28u32) & 0xfu32 == (b >> 28u32) & 0xfu32,
        (a >> 24u32) & 0xfu32 == (b >> 24u32) & 0xfu32,
        (a >> 20u32) & 0xfu32 == (b >> 20u32) & 0xfu32,
        (a >> 16u32) & 0xfu32 == (b >> 16u32) & 0xfu32,
        (a >> 12u32) & 0xfu32 == (b >> 12u32) & 0xfu32,
        (a >> 8u32) & 0xfu32 == (b >> 8u32) & 0xfu32,
        (a >> 4u32) & 0xfu32 == (b >> 4u32) & 0xfu32,
        (a >> 0u32) & 0xfu32 == (b >> 0u32) & 0xfu32,
    ensures
        a == b,
{
}

proof fn lemma_nibble_bound(a: u32, k: u32)
    by (bit_vector)
    ensures
        (a >> k) & 0xfu32 < 16,
{
}

proof fn lemma_hex_digit_at(a: u32, b: u32, i: int)
    requires
        0 <= i < 8,
        hex_text(a)[i] == hex_text(b)[i],
    ensures
        ((a >> ((7 - i) * 4) as u32) & 0xfu32) == ((b >> ((7 - i) * 4) as u32) & 0xfu32),
{
    lemma_nibble_bound(a, ((7 - i) * 4) as u32);
    lemma_nibble_bound(b, ((7 - i) * 4) as u32);
}

/// A hexadecimal row shows its value: behind a label of at most thirteen
/// bytes, two values give the same row exactly when they are equal.
pub proof fn lemma_hex_row_shows_value(label: Seq<u8>, a: u32, b: u32)
    requires
        label.len() <= 13,
    ensures
        (hex_row(label, a) == hex_row(label, b)) == (a == b),
{
    if hex_row(label, a) == hex_row(label, b) {
        let ha = hex_text(a);
        let hb = hex_text(b);
        assert forall|i: int| 0 <= i < 8 implies #[trigger] ha[i] != 32u8 by {
            lemma_nibble_bound(a, ((7 - i) * 4) as u32);
        }
        assert forall|i: int| 0 <= i < 8 implies #[trigger] hb[i] != 32u8 by {
            lemma_nibble_bound(b, ((7 - i) * 4) as u32);
        }
        lemma_value_recovered(label, ha, hb);
        lemma_hex_digit_at(a, b, 0);
        lemma_hex_digit_at(a, b, 1);
        lemma_hex_digit_at(a, b, 2);
        lemma_hex_digit_at(a, b, 3);
        lemma_hex_digit_at(a, b, 4);
        lemma_hex_digit_at(a, b, 5);
        lemma_hex_digit_at(a, b, 6);
        lemma_hex_digit_at(a, b, 7);
        lemma_nibbles_determine(a, b);
    }
}

fn write_bytes(row: &mut [u8; OLED_TEXT_COLUMNS], start: usize, bytes: &[u8])
    ensures
        final(row)@ == put_text(old(row)@, start as int, bytes@),
{
    if start >= OLED_TEXT_COLUMNS {
        assert(row@ =~= put_text(old(row)@, start as int, bytes@));
        return;
    }
    let mut offset: usize = 0;
    while offset < bytes.len() && offset < OLED_TEXT_COLUMNS - start
        invariant
            start < OLED_TEXT_COLUMNS,
            offset <= bytes@.len(),
            offset <= OLED_TEXT_COLUMNS - start,
            row@.len() == OLED_TEXT_COLUMNS,
            forall|i: int|
                0 <= i < OLED_TEXT_COLUMNS ==> #[trigger] row@[i] == if start <= i < start + offset {
                    bytes@[i - start]
                } else {
                    old(row)@[i]
                },
        decreases bytes@.len() - offset,
    {
        row[start + offset] = bytes[offset];
        offset = offset + 1;
    }
    assert(row@ =~= put_text(old(row)@, start as int, bytes@));
}

fn write_label_value(row: &mut [u8; OLED_TEXT_COLUMNS], label: &[u8], value: &[u8])
    ensures
        final(row)@ == put_text(put_text(old(row)@, 0, label@), label@.len() as int, value@),
{
    write_bytes(row, 0, label);
    write_bytes(row, label.len(), value);
}

/// Write the decimal text of `value` from column `start`.
fn write_u32_decimal(row: &mut [u8; OLED_TEXT_COLUMNS], start: usize, value: u32)
    ensures
        final(row)@ == put_text(old(row)@, start as int, decimal_text(value as nat)),
{
    let ghost full = rev_digits(value as nat);
    proof {
        lemma_u32_has_at_most_ten_digits(value);
        lemma_rev_digits_are_digits(value as nat);
    }
    let mut digits = [0u8; 10];
    let mut count: usize = 0;
    let mut rest: u32 = value;
    digits[count] = (rest % 10) as u8;
    count = count + 1;
    rest = rest / 10;
    while rest != 0 && count < 10
        invariant
            1 <= count <= 10,
            digits@.len() == 10,
            full == rev_digits(value as nat),
            full.len() <= 10,
            full == digits@.subrange(0, count as int) + if rest == 0 {
                Seq::<u8>::empty()
            } else {
                rev_digits(rest as nat)
            },
        decreases rest,
    {
        let ghost prefix = digits@.subrange(0, count as int);
        assert(rev_digits(rest as nat) == seq![(rest % 10) as u8] + rev_digits((rest / 10) as nat)
            || rest < 10);
        digits[count] = (rest % 10) as u8;
        assert(digits@.subrange(0, count + 1) =~= prefix.push((rest % 10) as u8));
        count = count + 1;
        rest = rest / 10;
    }
    proof {
        if rest != 0 {
            assert(rev_digits(rest as nat).len() >= 1);
        }
        assert(full =~= digits@.subrange(0, count as int));
    }
    let ghost text = decimal_text(value as nat);
    let mut j: usize = 0;
    let limit: usize = if start < OLED_TEXT_COLUMNS {
        OLED_TEXT_COLUMNS - start
    } else {
        0
    };
    while j < count && j < limit
        invariant
            j <= count,
            j <= limit,
            limit == if start < OLED_TEXT_COLUMNS {
                OLED_TEXT_COLUMNS - start
            } else {
                0
            },
            forall|i: int| 0 <= i < full.len() ==> #[trigger] full[i] < 10,
            count == full.len(),
            count <= 10,
            digits@.len() == 10,
            full =~= digits@.subrange(0, count as int),
            text == decimal_text(value as nat),
            full == rev_digits(value as nat),
            row@.len() == OLED_TEXT_COLUMNS,
            forall|i: int|
                0 <= i < OLED_TEXT_COLUMNS ==> #[trigger] row@[i] == if start <= i < start + j {
                    text[i - start]
                } else {
                    old(row)@[i]
                },
        decreases count - j,
    {
        let index = count - 1 - j;
        assert(digits@[index as int] == full[index as int]);
        row[start + j] = 48 + digits[index];
        j = j + 1;
    }
    assert(row@ =~= put_text(old(row)@, start as int, decimal_text(value as nat)));
}

fn write_unsigned(row: &mut [u8; OLED_TEXT_COLUMNS], label: &[u8], value: u32)
    ensures
        final(row)@ == put_text(
            put_text(old(row)@, 0, label@),
            label@.len() as int,
            decimal_text(value as nat),
        ),
{
    write_bytes(row, 0, label);
    write_u32_decimal(row, label.len(), value);
}

fn write_signed(row: &mut [u8; OLED_TEXT_COLUMNS], label: &[u8], value: i32)
    ensures
        final(row)@ == put_text(
            put_text(old(row)@, 0, label@),
            label@.len() as int,
            seq![if value < 0 { 45u8 } else { 43u8 }] + decimal_text(magnitude(value)),
        ),
{
    write_bytes(row, 0, label);
    let ghost labelled = row@;
    let mut cursor = label.len();
    let sign: u8 = if value < 0 {
        45
    } else {
        43
    };
    if cursor < OLED_TEXT_COLUMNS {
        row[cursor] = sign;
        cursor = cursor + 1;
    }
    let abs: u32 = if value < 0 {
        (-(value as i64)) as u32
    } else {
        value as u32
    };
    write_u32_decimal(row, cursor, abs);
    assert(row@ =~= put_text(
        labelled,
        label@.len() as int,
        seq![sign] + decimal_text(magnitude(value)),
    ));
}

fn write_hex32(row: &mut [u8; OLED_TEXT_COLUMNS], label: &[u8], value: u32)
    ensures
        final(row)@ == put_text(put_text(old(row)@, 0, label@), label@.len() as int, hex_text(value)),
{
    write_bytes(row, 0, label);
    let ghost labelled = row@;
    let start = label.len();
    let mut offset: usize = 0;
    let limit: usize = if start < OLED_TEXT_COLUMNS {
        OLED_TEXT_COLUMNS - start
    } else {
        0
    };
    while offset < 8 && offset < limit
        invariant
            offset <= 8,
            offset <= limit,
            limit == if start < OLED_TEXT_COLUMNS {
                OLED_TEXT_COLUMNS - start
            } else {
                0
            },
            labelled.len() == OLED_TEXT_COLUMNS,
            start == label@.len(),
            row@.len() == OLED_TEXT_COLUMNS,
            forall|i: int|
                0 <= i < OLED_TEXT_COLUMNS ==> #[trigger] row@[i] == if start <= i < start + offset {
                    hex_text(value)[i - start]
                } else {
                    labelled[i]
                },
        decreases 8 - offset,
    {
        let shift: u32 = (7 - offset) as u32;
        let nibble: u8 = ((value >> (shift * 4)) & 0x0f) as u8;
        proof {
            let x = (value >> (shift * 4)) & 0x0fu32;
            assert(x < 16) by (bit_vector)
                requires
                    x == (value >> (shift * 4)) & 0x0fu32,
            ;
        }
        row[start + offset] = if nibble < 10 {
            48 + nibble
        } else {
            65 + nibble - 10
        };
        offset = offset + 1;
    }
    assert(row@ =~= put_text(labelled, start as int, hex_text(value)));
}

// ---------------------------------------------------------------------------
// Status pages
// ---------------------------------------------------------------------------

pub open spec fn spec_cycle_name(cycle: u32) -> Seq<u8> {
    if cycle == 1 {
        "PRIMED".spec_bytes()
    } else if cycle == 2 {
        "REJECT".spec_bytes()
    } else if cycle == 3 {
        "COMPUTED".spec_bytes()
    } else if cycle == 4 {
        "ERROR".spec_bytes()
    } else {
        "IDLE".spec_bytes()
    }
}

pub open spec fn spec_regime_name(regime: u32) -> Seq<u8> {
    if regime == 1 {
        "CAPTURE".spec_bytes()
    } else if regime == 2 {
        "BALANCE".spec_bytes()
    } else {
        "SWING".spec_bytes()
    }
}

pub open spec fn spec_health_name(health: HealthState) -> Seq<u8> {
    match health {
        HealthState::Unknown => "UNKNOWN".spec_bytes(),
        HealthState::Healthy => "OK".spec_bytes(),
        HealthState::Late => "LATE".spec_bytes(),
        HealthState::Fault => "FAULT".spec_bytes(),
    }
}

pub open spec fn spec_yes_no(value: bool) -> Seq<u8> {
    if value {
        "YES".spec_bytes()
    } else {
        "NO".spec_bytes()
    }
}

pub open spec fn spec_on_off(value: bool) -> Seq<u8> {
    if value {
        "ON".spec_bytes()
    } else {
        "OFF".spec_bytes()
    }
}

fn cycle_name(cycle: u32) -> (s: &'static [u8])
    ensures
        s@ == spec_cycle_name(cycle),
{
    if cycle == 1 {
        "PRIMED".as_bytes()
    } else if cycle == 2 {
        "REJECT".as_bytes()
    } else if cycle == 3 {
        "COMPUTED".as_bytes()
    } else if cycle == 4 {
        "ERROR".as_bytes()
    } else {
        "IDLE".as_bytes()
    }
}

fn regime_name(regime: u32) -> (s: &'static [u8])
    ensures
        s@ == spec_regime_name(regime),
{
    if regime == 1 {
        "CAPTURE".as_bytes()
    } else if regime == 2 {
        "BALANCE".as_bytes()
    } else {
        "SWING".as_bytes()
    }
}

fn health_name(health: HealthState) -> (s: &'static [u8])
    ensures
        s@ == spec_health_name(health),
{
    match health {
        HealthState::Unknown => "UNKNOWN".as_bytes(),
        HealthState::Healthy => "OK".as_bytes(),
        HealthState::Late => "LATE".as_bytes(),
        HealthState::Fault => "FAULT".as_bytes(),
    }
}

fn yes_no(value: bool) -> (s: &'static [u8])
    ensures
        s@ == spec_yes_no(value),
{
    if value {
        "YES".as_bytes()
    } else {
        "NO".as_bytes()
    }
}

fn on_off(value: bool) -> (s: &'static [u8])
    ensures
        s@ == spec_on_off(value),
{
    if value {
        "ON".as_bytes()
    } else {
        "OFF".as_bytes()
    }
}

/// Footer shared by every page.
pub open spec fn footer_row() -> Seq<u8> {
    text_row("M:NEXT X:BACK".spec_bytes())
}

/// The eight text rows of one status page.
pub open spec fn spec_page_rows(view: StatusView, page: StatusPage) -> Seq<Seq<u8>> {
    match page {
        StatusPage::Status => seq![
            text_row("STATUS 1/5".spec_bytes()),
            label_value_row("CYCLE ".spec_bytes(), spec_cycle_name(view.cycle)),
            label_value_row("REGIME ".spec_bytes(), spec_regime_name(view.control_regime)),
            label_value_row("TIMING ".spec_bytes(), spec_health_name(view.timing)),
            label_value_row("WATCH ".spec_bytes(), spec_health_name(view.watchdog)),
            label_value_row("AUTH ".spec_bytes(), spec_yes_no(view.authorized)),
            label_value_row("TELEM ".spec_bytes(), spec_on_off(view.telemetry_enabled)),
            footer_row(),
        ],
        StatusPage::Sensor => seq![
            text_row("SENSOR 2/5".spec_bytes()),
            signed_row("TH mrad ".spec_bytes(), view.theta_mrad),
            signed_row("TD mr/s ".spec_bytes(), view.theta_dot_mrad_s),
            signed_row("PH mrad ".spec_bytes(), view.phi_mrad),
            signed_row("PD mr/s ".spec_bytes(), view.phi_dot_mrad_s),
            unsigned_row("ADC ".spec_bytes(), view.pendulum_adc as u32),
            signed_row("ENC ".spec_bytes(), view.arm_encoder_count),
            footer_row(),
        ],
        StatusPage::Safety => seq![
            text_row("SAFETY 3/5".spec_bytes()),
            label_value_row("TIMING ".spec_bytes(), spec_health_name(view.timing)),
            label_value_row("WATCH ".spec_bytes(), spec_health_name(view.watchdog)),
            hex_row("QUAL 0x".spec_bytes(), view.qualification_reasons),
            hex_row("AUTH 0x".spec_bytes(), view.authority_reasons),
            unsigned_row("MISS ".spec_bytes(), view.inferred_missed_ticks),
            unsigned_row("OVERRUN ".spec_bytes(), view.deadline_overruns),
            footer_row(),
        ],
        StatusPage::Control => seq![
            text_row("CONTROL 4/5".spec_bytes()),
            label_value_row("REGIME ".spec_bytes(), spec_regime_name(view.control_regime)),
            signed_row("DEM uNm ".spec_bytes(), view.demand_torque_unm),
            signed_row("CMD ppm ".spec_bytes(), view.bounded_command_ppm),
            signed_row("PRED uNm ".spec_bytes(), view.predicted_torque_unm),
            label_value_row("SAT ".spec_bytes(), spec_yes_no(view.actuator_saturated)),
            label_value_row("AUTH ".spec_bytes(), spec_yes_no(view.authorized)),
            footer_row(),
        ],
        StatusPage::Maintenance => seq![
            text_row("MAINT 5/5".spec_bytes()),
            label_value_row(
                "MOTOR SINK ".spec_bytes(),
                if view.motor_sink_bound {
                    "BOUND".spec_bytes()
                } else {
                    "UNBOUND".spec_bytes()
                },
            ),
            label_value_row(
                "D2 OUTPUT ".spec_bytes(),
                if view.motor_sink_bound {
                    "AUTH".spec_bytes()
                } else {
                    "SAFE OFF".spec_bytes()
                },
            ),
            label_value_row("TELEM ".spec_bytes(), spec_on_off(view.telemetry_enabled)),
            text_row("USER:TELEM TOGGLE".spec_bytes()),
            text_row("+/-:CONTRAST".spec_bytes()),
            text_row("SWD ACTIVE".spec_bytes()),
            footer_row(),
        ],
    }
}

proof fn lemma_ascii_literal(s: &str)
    requires
        vstd::string::is_ascii(s),
    ensures
        s.spec_bytes().len() == s@.len(),
        forall|i: int| 0 <= i < s@.len() ==> #[trigger] s.spec_bytes()[i] == s@[i] as u8,
{
    vstd::string::is_ascii_spec_bytes(s);
}

/// The first letter of each cycle name.
proof fn lemma_cycle_name_first(c: u32)
    ensures
        spec_cycle_name(c).len() >= 1,
        spec_cycle_name(c)[0] == if c == 1 {
            80u8
        } else if c == 2 {
            82u8
        } else if c == 3 {
            67u8
        } else if c == 4 {
            69u8
        } else {
            73u8
        },
{
    reveal_strlit("PRIMED");
    lemma_ascii_literal("PRIMED");
    reveal_strlit("REJECT");
    lemma_ascii_literal("REJECT");
    reveal_strlit("COMPUTED");
    lemma_ascii_literal("COMPUTED");
    reveal_strlit("ERROR");
    lemma_ascii_literal("ERROR");
    reveal_strlit("IDLE");
    lemma_ascii_literal("IDLE");
}

/// The first letter of each regime name.
proof fn lemma_regime_name_first(r: u32)
    ensures
        spec_regime_name(r).len() >= 1,
        spec_regime_name(r)[0] == if r == 1 {
            67u8
        } else if r == 2 {
            66u8
        } else {
            83u8
        },
{
    reveal_strlit("CAPTURE");
    lemma_ascii_literal("CAPTURE");
    reveal_strlit("BALANCE");
    lemma_ascii_literal("BALANCE");
    reveal_strlit("SWING");
    lemma_ascii_literal("SWING");
}

/// The first letter of each health name.
proof fn lemma_health_name_first(h: HealthState)
    ensures
        spec_health_name(h).len() >= 1,
        spec_health_name(h)[0] == match h {
            HealthState::Unknown => 85u8,
            HealthState::Healthy => 79u8,
            HealthState::Late => 76u8,
            HealthState::Fault => 70u8,
        },
{
    reveal_strlit("UNKNOWN");
    lemma_ascii_literal("UNKNOWN");
    reveal_strlit("OK");
    lemma_ascii_literal("OK");
    reveal_strlit("LATE");
    lemma_ascii_literal("LATE");
    reveal_strlit("FAULT");
    lemma_ascii_literal("FAULT");
}

/// YES/NO differ in their first letter, ON/OFF in their second.
proof fn lemma_flag_names()
    ensures
        spec_yes_no(true).len() >= 1 && spec_yes_no(false).len() >= 1,
        spec_yes_no(true)[0] != spec_yes_no(false)[0],
        spec_on_off(true).len() >= 2 && spec_on_off(false).len() >= 2,
        spec_on_off(true)[1] != spec_on_off(false)[1],
        "BOUND".spec_bytes().len() >= 1 && "UNBOUND".spec_bytes().len() >= 1,
        "BOUND".spec_bytes()[0] != "UNBOUND".spec_bytes()[0],
        "AUTH".spec_bytes().len() >= 1 && "SAFE OFF".spec_bytes().len() >= 1,
        "AUTH".spec_bytes()[0] != "SAFE OFF".spec_bytes()[0],
{
    reveal_strlit("YES");
    lemma_ascii_literal("YES");
    reveal_strlit("NO");
    lemma_ascii_literal("NO");
    reveal_strlit("ON");
    lemma_ascii_literal("ON");
    reveal_strlit("OFF");
    lemma_ascii_literal("OFF");
    reveal_strlit("BOUND");
    lemma_ascii_literal("BOUND");
    reveal_strlit("UNBOUND");
    lemma_ascii_literal("UNBOUND");
    reveal_strlit("AUTH");
    lemma_ascii_literal("AUTH");
    reveal_strlit("SAFE OFF");
    lemma_ascii_literal("SAFE OFF");
}

proof fn lemma_cycle_row(label: Seq<u8>, a: u32, b: u32)
    requires
        label.len() < OLED_TEXT_COLUMNS,
    ensures
        (label_value_row(label, spec_cycle_name(a)) == label_value_row(label, spec_cycle_name(b)))
            == (a == b || (!(1 <= a <= 4) && !(1 <= b <= 4))),
{
    lemma_cycle_name_first(a);
    lemma_cycle_name_first(b);
    if !(a == b || (!(1 <= a <= 4) && !(1 <= b <= 4))) {
        lemma_value_difference_shows(label, spec_cycle_name(a), spec_cycle_name(b), 0);
    }
}

proof fn lemma_regime_row(label: Seq<u8>, a: u32, b: u32)
    requires
        label.len() < OLED_TEXT_COLUMNS,
    ensures
        (label_value_row(label, spec_regime_name(a)) == label_value_row(
            label,
            spec_regime_name(b),
        )) == (a == b || (!(1 <= a <= 2) && !(1 <= b <= 2))),
{
    lemma_regime_name_first(a);
    lemma_regime_name_first(b);
    if !(a == b || (!(1 <= a <= 2) && !(1 <= b <= 2))) {
        lemma_value_difference_shows(label, spec_regime_name(a), spec_regime_name(b), 0);
    }
}

proof fn lemma_health_row(label: Seq<u8>, a: HealthState, b: HealthState)
    requires
        label.len() < OLED_TEXT_COLUMNS,
    ensures
        (label_value_row(label, spec_health_name(a)) == label_value_row(
            label,
            spec_health_name(b),
        )) == (a == b),
{
    lemma_health_name_first(a);
    lemma_health_name_first(b);
    if a != b {
        lemma_value_difference_shows(label, spec_health_name(a), spec_health_name(b), 0);
    }
}

proof fn lemma_yes_no_row(label: Seq<u8>, a: bool, b: bool)
    requires
        label.len() < OLED_TEXT_COLUMNS,
    ensures
        (label_value_row(label, spec_yes_no(a)) == label_value_row(label, spec_yes_no(b))) == (a
            == b),
{
    lemma_flag_names();
    if a != b {
        lemma_value_difference_shows(label, spec_yes_no(a), spec_yes_no(b), 0);
    }
}

proof fn lemma_on_off_row(label: Seq<u8>, a: bool, b: bool)
    requires
        label.len() + 1 < OLED_TEXT_COLUMNS,
    ensures
        (label_value_row(label, spec_on_off(a)) == label_value_row(label, spec_on_off(b))) == (a
            == b),
{
    lemma_flag_names();
    if a != b {
        lemma_value_difference_shows(label, spec_on_off(a), spec_on_off(b), 1);
    }
}

/// Each labelled row of the Status page shows the view field it names: two
/// views give the same row exactly when they agree on that field (cycle and
/// regime codes without a name of their own all show as IDLE and SWING).
pub proof fn lemma_status_page_shows_its_fields(v1: StatusView, v2: StatusView)
    ensures
        ({
            let r1 = spec_page_rows(v1, StatusPage::Status);
            let r2 = spec_page_rows(v2, StatusPage::Status);
            &&& r1[0] == r2[0]
            &&& r1[7] == r2[7]
            &&& (r1[1] == r2[1]) == (v1.cycle == v2.cycle || (!(1 <= v1.cycle <= 4) && !(1
                <= v2.cycle <= 4)))
            &&& (r1[2] == r2[2]) == (v1.control_regime == v2.control_regime || (!(1
                <= v1.control_regime <= 2) && !(1 <= v2.control_regime <= 2)))
            &&& (r1[3] == r2[3]) == (v1.timing == v2.timing)
            &&& (r1[4] == r2[4]) == (v1.watchdog == v2.watchdog)
            &&& (r1[5] == r2[5]) == (v1.authorized == v2.authorized)
            &&& (r1[6] == r2[6]) == (v1.telemetry_enabled == v2.telemetry_enabled)
        }),
{
    reveal_strlit("CYCLE ");
    lemma_ascii_literal("CYCLE ");
    reveal_strlit("REGIME ");
    lemma_ascii_literal("REGIME ");
    reveal_strlit("TIMING ");
    lemma_ascii_literal("TIMING ");
    reveal_strlit("WATCH ");
    lemma_ascii_literal("WATCH ");
    reveal_strlit("AUTH ");
    lemma_ascii_literal("AUTH ");
    reveal_strlit("TELEM ");
    lemma_ascii_literal("TELEM ");
    lemma_cycle_row("CYCLE ".spec_bytes(), v1.cycle, v2.cycle);
    lemma_regime_row("REGIME ".spec_bytes(), v1.control_regime, v2.control_regime);
    lemma_health_row("TIMING ".spec_bytes(), v1.timing, v2.timing);
    lemma_health_row("WATCH ".spec_bytes(), v1.watchdog, v2.watchdog);
    lemma_yes_no_row("AUTH ".spec_bytes(), v1.authorized, v2.authorized);
    lemma_on_off_row("TELEM ".spec_bytes(), v1.telemetry_enabled, v2.telemetry_enabled);
}

/// Each labelled row of the Sensor page shows the view field it names: two
/// views give the same row exactly when they agree on that field.
pub proof fn lemma_sensor_page_shows_its_fields(v1: StatusView, v2: StatusView)
    ensures
        ({
            let r1 = spec_page_rows(v1, StatusPage::Sensor);
            let r2 = spec_page_rows(v2, StatusPage::Sensor);
            &&& r1[0] == r2[0]
            &&& r1[7] == r2[7]
            &&& (r1[1] == r2[1]) == (v1.theta_mrad == v2.theta_mrad)
            &&& (r1[2] == r2[2]) == (v1.theta_dot_mrad_s == v2.theta_dot_mrad_s)
            &&& (r1[3] == r2[3]) == (v1.phi_mrad == v2.phi_mrad)
            &&& (r1[4] == r2[4]) == (v1.phi_dot_mrad_s == v2.phi_dot_mrad_s)
            &&& (r1[5] == r2[5]) == (v1.pendulum_adc == v2.pendulum_adc)
            &&& (r1[6] == r2[6]) == (v1.arm_encoder_count == v2.arm_encoder_count)
        }),
{
    reveal_strlit("TH mrad ");
    lemma_ascii_literal("TH mrad ");
    reveal_strlit("TD mr/s ");
    lemma_ascii_literal("TD mr/s ");
    reveal_strlit("PH mrad ");
    lemma_ascii_literal("PH mrad ");
    reveal_strlit("PD mr/s ");
    lemma_ascii_literal("PD mr/s ");
    reveal_strlit("ADC ");
    lemma_ascii_literal("ADC ");
    reveal_strlit("ENC ");
    lemma_ascii_literal("ENC ");
    lemma_signed_row_shows_value("TH mrad ".spec_bytes(), v1.theta_mrad, v2.theta_mrad);
    lemma_signed_row_shows_value(
        "TD mr/s ".spec_bytes(),
        v1.theta_dot_mrad_s,
        v2.theta_dot_mrad_s,
    );
    lemma_signed_row_shows_value("PH mrad ".spec_bytes(), v1.phi_mrad, v2.phi_mrad);
    lemma_signed_row_shows_value("PD mr/s ".spec_bytes(), v1.phi_dot_mrad_s, v2.phi_dot_mrad_s);
    lemma_unsigned_row_shows_value(
        "ADC ".spec_bytes(),
        v1.pendulum_adc as u32,
        v2.pendulum_adc as u32,
    );
    lemma_signed_row_shows_value("ENC ".spec_bytes(), v1.arm_encoder_count, v2.arm_encoder_count);
}

/// Each labelled row of the Safety page shows the view field it names: two
/// views give the same row exactly when they agree on that field.
pub proof fn lemma_safety_page_shows_its_fields(v1: StatusView, v2: StatusView)
    ensures
        ({
            let r1 = spec_page_rows(v1, StatusPage::Safety);
            let r2 = spec_page_rows(v2, StatusPage::Safety);
            &&& r1[0] == r2[0]
            &&& r1[7] == r2[7]
            &&& (r1[1] == r2[1]) == (v1.timing == v2.timing)
            &&& (r1[2] == r2[2]) == (v1.watchdog == v2.watchdog)
            &&& (r1[3] == r2[3]) == (v1.qualification_reasons == v2.qualification_reasons)
            &&& (r1[4] == r2[4]) == (v1.authority_reasons == v2.authority_reasons)
            &&& (r1[5] == r2[5]) == (v1.inferred_missed_ticks == v2.inferred_missed_ticks)
            &&& (r1[6] == r2[6]) == (v1.deadline_overruns == v2.deadline_overruns)
        }),
{
    reveal_strlit("TIMING ");
    lemma_ascii_literal("TIMING ");
    reveal_strlit("WATCH ");
    lemma_ascii_literal("WATCH ");
    reveal_strlit("QUAL 0x");
    lemma_ascii_literal("QUAL 0x");
    reveal_strlit("AUTH 0x");
    lemma_ascii_literal("AUTH 0x");
    reveal_strlit("MISS ");
    lemma_ascii_literal("MISS ");
    reveal_strlit("OVERRUN ");
    lemma_ascii_literal("OVERRUN ");
    lemma_health_row("TIMING ".spec_bytes(), v1.timing, v2.timing);
    lemma_health_row("WATCH ".spec_bytes(), v1.watchdog, v2.watchdog);
    lemma_hex_row_shows_value(
        "QUAL 0x".spec_bytes(),
        v1.qualification_reasons,
        v2.qualification_reasons,
    );
    lemma_hex_row_shows_value("AUTH 0x".spec_bytes(), v1.authority_reasons, v2.authority_reasons);
    lemma_unsigned_row_shows_value(
        "MISS ".spec_bytes(),
        v1.inferred_missed_ticks,
        v2.inferred_missed_ticks,
    );
    lemma_unsigned_row_shows_value(
        "OVERRUN ".spec_bytes(),
        v1.deadline_overruns,
        v2.deadline_overruns,
    );
}

/// Each labelled row of the Control page shows the view field it names: two
/// views give the same row exactly when they agree on that field (regime
/// codes without a name of their own all show as SWING).
pub proof fn lemma_control_page_shows_its_fields(v1: StatusView, v2: StatusView)
    ensures
        ({
            let r1 = spec_page_rows(v1, StatusPage::Control);
            let r2 = spec_page_rows(v2, StatusPage::Control);
            &&& r1[0] == r2[0]
            &&& r1[7] == r2[7]
            &&& (r1[1] == r2[1]) == (v1.control_regime == v2.control_regime || (!(1
                <= v1.control_regime <= 2) && !(1 <= v2.control_regime <= 2)))
            &&& (r1[2] == r2[2]) == (v1.demand_torque_unm == v2.demand_torque_unm)
            &&& (r1[3] == r2[3]) == (v1.bounded_command_ppm == v2.bounded_command_ppm)
            &&& (r1[4] == r2[4]) == (v1.predicted_torque_unm == v2.predicted_torque_unm)
            &&& (r1[5] == r2[5]) == (v1.actuator_saturated == v2.actuator_saturated)
            &&& (r1[6] == r2[6]) == (v1.authorized == v2.authorized)
        }),
{
    reveal_strlit("REGIME ");
    lemma_ascii_literal("REGIME ");
    reveal_strlit("DEM uNm ");
    lemma_ascii_literal("DEM uNm ");
    reveal_strlit("CMD ppm ");
    lemma_ascii_literal("CMD ppm ");
    reveal_strlit("PRED uNm ");
    lemma_ascii_literal("PRED uNm ");
    reveal_strlit("SAT ");
    lemma_ascii_literal("SAT ");
    reveal_strlit("AUTH ");
    lemma_ascii_literal("AUTH ");
    lemma_regime_row("REGIME ".spec_bytes(), v1.control_regime, v2.control_regime);
    lemma_signed_row_shows_value(
        "DEM uNm ".spec_bytes(),
        v1.demand_torque_unm,
        v2.demand_torque_unm,
    );
    lemma_signed_row_shows_value(
        "CMD ppm ".spec_bytes(),
        v1.bounded_command_ppm,
        v2.bounded_command_ppm,
    );
    lemma_signed_row_shows_value(
        "PRED uNm ".spec_bytes(),
        v1.predicted_torque_unm,
        v2.predicted_torque_unm,
    );
    lemma_yes_no_row("SAT ".spec_bytes(), v1.actuator_saturated, v2.actuator_saturated);
    lemma_yes_no_row("AUTH ".spec_bytes(), v1.authorized, v2.authorized);
}

/// Each labelled row of the Maintenance page shows the view field it names:
/// two views give the same row exactly when they agree on that field, and
/// the remaining rows are fixed text.
pub proof fn lemma_maintenance_page_shows_its_fields(v1: StatusView, v2: StatusView)
    ensures
        ({
            let r1 = spec_page_rows(v1, StatusPage::Maintenance);
            let r2 = spec_page_rows(v2, StatusPage::Maintenance);
            &&& r1[0] == r2[0]
            &&& (r1[1] == r2[1]) == (v1.motor_sink_bound == v2.motor_sink_bound)
            &&& (r1[2] == r2[2]) == (v1.motor_sink_bound == v2.motor_sink_bound)
            &&& (r1[3] == r2[3]) == (v1.telemetry_enabled == v2.telemetry_enabled)
            &&& r1[4] == r2[4]
            &&& r1[5] == r2[5]
            &&& r1[6] == r2[6]
            &&& r1[7] == r2[7]
        }),
{
    reveal_strlit("MOTOR SINK ");
    lemma_ascii_literal("MOTOR SINK ");
    reveal_strlit("D2 OUTPUT ");
    lemma_ascii_literal("D2 OUTPUT ");
    reveal_strlit("TELEM ");
    lemma_ascii_literal("TELEM ");
    lemma_flag_names();
    if v1.motor_sink_bound != v2.motor_sink_bound {
        lemma_value_difference_shows(
            "MOTOR SINK ".spec_bytes(),
            if v1.motor_sink_bound {
                "BOUND".spec_bytes()
            } else {
                "UNBOUND".spec_bytes()
            },
            if v2.motor_sink_bound {
                "BOUND".spec_bytes()
            } else {
                "UNBOUND".spec_bytes()
            },
            0,
        );
        lemma_value_difference_shows(
            "D2 OUTPUT ".spec_bytes(),
            if v1.motor_sink_bound {
                "AUTH".spec_bytes()
            } else {
                "SAFE OFF".spec_bytes()
            },
            if v2.motor_sink_bound {
                "AUTH".spec_bytes()
            } else {
                "SAFE OFF".spec_bytes()
            },
            0,
        );
    }
    lemma_on_off_row("TELEM ".spec_bytes(), v1.telemetry_enabled, v2.telemetry_enabled);
}

fn blank_text_row() -> (r: [u8; OLED_TEXT_COLUMNS])
    ensures
        r@ == blank_row(),
{
    let r = [32u8; OLED_TEXT_COLUMNS];
    assert(r@ =~= blank_row());
    r
}

fn text_line(text: &[u8]) -> (r: [u8; OLED_TEXT_COLUMNS])
    ensures
        r@ == text_row(text@),
{
    let mut r = blank_text_row();
    write_bytes(&mut r, 0, text);
    r
}

fn label_value_line(label: &[u8], value: &[u8]) -> (r: [u8; OLED_TEXT_COLUMNS])
    ensures
        r@ == label_value_row(label@, value@),
{
    let mut r = blank_text_row();
    write_label_value(&mut r, label, value);
    r
}

fn signed_line(label: &[u8], value: i32) -> (r: [u8; OLED_TEXT_COLUMNS])
    ensures
        r@ == signed_row(label@, value),
{
    let mut r = blank_text_row();
    write_signed(&mut r, label, value);
    r
}

fn unsigned_line(label: &[u8], value: u32) -> (r: [u8; OLED_TEXT_COLUMNS])
    ensures
        r@ == unsigned_row(label@, value),
{
    let mut r = blank_text_row();
    write_unsigned(&mut r, label, value);
    r
}

fn hex_line(label: &[u8], value: u32) -> (r: [u8; OLED_TEXT_COLUMNS])
    ensures
        r@ == hex_row(label@, value),
{
    let mut r = blank_text_row();
    write_hex32(&mut r, label, value);
    r
}

fn frame_of(
    r0: [u8; OLED_TEXT_COLUMNS],
    r1: [u8; OLED_TEXT_COLUMNS],
    r2: [u8; OLED_TEXT_COLUMNS],
    r3: [u8; OLED_TEXT_COLUMNS],
    r4: [u8; OLED_TEXT_COLUMNS],
    r5: [u8; OLED_TEXT_COLUMNS],
    r6: [u8; OLED_TEXT_COLUMNS],
    r7: [u8; OLED_TEXT_COLUMNS],
) -> (f: OledTextFrame)
    ensures
        f.rows_view() == seq![r0@, r1@, r2@, r3@, r4@, r5@, r6@, r7@],
{
    let f = OledTextFrame { rows: [r0, r1, r2, r3, r4, r5, r6, r7] };
    assert(f.rows_view() =~= seq![r0@, r1@, r2@, r3@, r4@, r5@, r6@, r7@]);
    f
}

fn render_status(view: StatusView) -> (f: OledTextFrame)
    ensures
        f.rows_view() == spec_page_rows(view, StatusPage::Status),
{
    frame_of(
        text_line("STATUS 1/5".as_bytes()),
        label_value_line("CYCLE ".as_bytes(), cycle_name(view.cycle)),
        label_value_line("REGIME ".as_bytes(), regime_name(view.control_regime)),
        label_value_line("TIMING ".as_bytes(), health_name(view.timing)),
        label_value_line("WATCH ".as_bytes(), health_name(view.watchdog)),
        label_value_line("AUTH ".as_bytes(), yes_no(view.authorized)),
        label_value_line("TELEM ".as_bytes(), on_off(view.telemetry_enabled)),
        text_line("M:NEXT X:BACK".as_bytes()),
    )
}

fn render_sensor(view: StatusView) -> (f: OledTextFrame)
    ensures
        f.rows_view() == spec_page_rows(view, StatusPage::Sensor),
{
    frame_of(
        text_line("SENSOR 2/5".as_bytes()),
        signed_line("TH mrad ".as_bytes(), view.theta_mrad),
        signed_line("TD mr/s ".as_bytes(), view.theta_dot_mrad_s),
        signed_line("PH mrad ".as_bytes(), view.phi_mrad),
        signed_line("PD mr/s ".as_bytes(), view.phi_dot_mrad_s),
        unsigned_line("ADC ".as_bytes(), view.pendulum_adc as u32),
        signed_line("ENC ".as_bytes(), view.arm_encoder_count),
        text_line("M:NEXT X:BACK".as_bytes()),
    )
}

fn render_safety(view: StatusView) -> (f: OledTextFrame)
    ensures
        f.rows_view() == spec_page_rows(view, StatusPage::Safety),
{
    frame_of(
        text_line("SAFETY 3/5".as_bytes()),
        label_value_line("TIMING ".as_bytes(), health_name(view.timing)),
        label_value_line("WATCH ".as_bytes(), health_name(view.watchdog)),
        hex_line("QUAL 0x".as_bytes(), view.qualification_reasons),
        hex_line("AUTH 0x".as_bytes(), view.authority_reasons),
        unsigned_line("MISS ".as_bytes(), view.inferred_missed_ticks),
        unsigned_line("OVERRUN ".as_bytes(), view.deadline_overruns),
        text_line("M:NEXT X:BACK".as_bytes()),
    )
}

fn render_control(view: StatusView) -> (f: OledTextFrame)
    ensures
        f.rows_view() == spec_page_rows(view, StatusPage::Control),
{
    frame_of(
        text_line("CONTROL 4/5".as_bytes()),
        label_value_line("REGIME ".as_bytes(), regime_name(view.control_regime)),
        signed_line("DEM uNm ".as_bytes(), view.demand_torque_unm),
        signed_line("CMD ppm ".as_bytes(), view.bounded_command_ppm),
        signed_line("PRED uNm ".as_bytes(), view.predicted_torque_unm),
        label_value_line("SAT ".as_bytes(), yes_no(view.actuator_saturated)),
        label_value_line("AUTH ".as_bytes(), yes_no(view.authorized)),
        text_line("M:NEXT X:BACK".as_bytes()),
    )
}

fn render_maintenance(view: StatusView) -> (f: OledTextFrame)
    ensures
        f.rows_view() == spec_page_rows(view, StatusPage::Maintenance),
{
    let sink: &[u8] = if view.motor_sink_bound {
        "BOUND".as_bytes()
    } else {
        "UNBOUND".as_bytes()
    };
    let output: &[u8] = if view.motor_sink_bound {
        "AUTH".as_bytes()
    } else {
        "SAFE OFF".as_bytes()
    };
    frame_of(
        text_line("MAINT 5/5".as_bytes()),
        label_value_line("MOTOR SINK ".as_bytes(), sink),
        label_value_line("D2 OUTPUT ".as_bytes(), output),
        label_value_line("TELEM ".as_bytes(), on_off(view.telemetry_enabled)),
        text_line("USER:TELEM TOGGLE".as_bytes()),
        text_line("+/-:CONTRAST".as_bytes()),
        text_line("SWD ACTIVE".as_bytes()),
        text_line("M:NEXT X:BACK".as_bytes()),
    )
}

pub struct OledRenderer;

impl OledRenderer {
    /// Lay out one status page of `view` as eight text rows.
    pub fn render(view: StatusView, page: StatusPage) -> (frame: OledTextFrame)
        ensures
            frame.rows_view() == spec_page_rows(view, page),
    {
        match page {
            StatusPage::Status => render_status(view),
            StatusPage::Sensor => render_sensor(view),
            StatusPage::Safety => render_safety(view),
            StatusPage::Control => render_control(view),
            StatusPage::Maintenance => render_maintenance(view),
        }
    }
}

} // verus!
