use vstd::prelude::*;

verus! {

/// The tty (DRM/KMS) backend. It holds no state of its own; running it is
/// the application's part.
pub struct TtyBackend;

impl TtyBackend {
    pub fn new() -> (b: TtyBackend) {
        TtyBackend
    }
}

impl Default for TtyBackend {
    fn default() -> (b: TtyBackend) {
        TtyBackend::new()
    }
}

/// Byte `k` of pixel `(x, y)` of the test gradient for animation step `phase`
/// (XRGB8888, little endian: blue, green, red, unused).
pub open spec fn gradient_byte(x: int, y: int, k: int, phase: u8) -> u8 {
    if k == 0 {
        ((x + phase) % 256) as u8
    } else if k == 1 {
        ((y + 2 * phase) % 256) as u8
    } else if k == 2 {
        ((3 * phase) % 256) as u8
    } else {
        0
    }
}

/// Row `y` of a buffer with `pitch` bytes per row starts at this byte.
pub open spec fn row_base(y: int, pitch: int) -> int {
    y * pitch
}

/// The last of the first `rows` rows whose pixels (`4 * width` bytes from
/// the row's start) cover byte `p`, or -1 if none does.
pub open spec fn covering_row(p: int, width: int, pitch: int, rows: int) -> int
    decreases rows,
{
    if rows <= 0 {
        -1
    } else if row_base(rows - 1, pitch) <= p < row_base(rows - 1, pitch) + 4 * width {
        rows - 1
    } else {
        covering_row(p, width, pitch, rows - 1)
    }
}

/// `bytes` after the first `rows` rows of the gradient are painted into it in
/// order: each byte holds what the last row that covers it painted, or keeps
/// its value if no row covers it.
pub open spec fn painted(bytes: Seq<u8>, width: int, rows: int, pitch: int, phase: u8) -> Seq<u8> {
    Seq::new(
        bytes.len(),
        |p: int|
            {
                let y = covering_row(p, width, pitch, rows);
                if y < 0 {
                    bytes[p]
                } else {
                    let offset = p - row_base(y, pitch);
                    gradient_byte(offset / 4, y, offset % 4, phase)
                }
            },
    )
}

proof fn lemma_row_base_monotone(y: int, rows: int, pitch: int)
    requires
        0 <= y < rows,
        pitch >= 0,
    ensures
        row_base(y, pitch) <= row_base(rows - 1, pitch),
        row_base(y, pitch) >= 0,
{
    assert(y * pitch <= (rows - 1) * pitch) by (nonlinear_arith)
        requires
            0 <= y <= rows - 1,
            pitch >= 0,
    ;
    assert(y * pitch >= 0) by (nonlinear_arith)
        requires
            0 <= y,
            pitch >= 0,
    ;
}

/// Within the first `rows` rows, the only row whose pixels cover a byte of
/// row `y`'s pixels is `y` itself, when rows lie at least a row of pixels apart.
proof fn lemma_covering_row_is_own_row(p: int, width: int, pitch: int, rows: int, y: int)
    requires
        0 <= y < rows,
        0 <= width,
        pitch >= 4 * width,
        y * pitch <= p < y * pitch + 4 * width,
    ensures
        covering_row(p, width, pitch, rows) == y,
    decreases rows,
{
    if rows - 1 > y {
        assert((rows - 1) * pitch >= (y + 1) * pitch) by (nonlinear_arith)
            requires
                rows - 1 >= y + 1,
                pitch >= 0,
        ;
        assert((y + 1) * pitch == y * pitch + pitch) by (nonlinear_arith);
        lemma_covering_row_is_own_row(p, width, pitch, rows - 1, y);
    }
}

/// Every pixel of a painted buffer holds the gradient, in every column and
/// every row: its blue byte is the column plus the phase, its green byte the
/// row plus twice the phase, its red byte three times the phase (each modulo
/// 256), and its fourth byte is zero. Rows are `pitch` bytes apart and a row
/// of pixels takes `4 * width` of them.
pub proof fn law_gradient_pixel_bytes(
    bytes: Seq<u8>,
    width: int,
    height: int,
    pitch: int,
    phase: u8,
    x: int,
    y: int,
)
    requires
        0 <= x < width,
        0 <= y < height,
        pitch >= 4 * width,
        (height - 1) * pitch + 4 * width <= bytes.len(),
    ensures
        painted(bytes, width, height, pitch, phase)[y * pitch + 4 * x] == ((x + phase) % 256) as u8,
        painted(bytes, width, height, pitch, phase)[y * pitch + 4 * x + 1] == ((y + 2 * phase)
            % 256) as u8,
        painted(bytes, width, height, pitch, phase)[y * pitch + 4 * x + 2] == ((3 * phase)
            % 256) as u8,
        painted(bytes, width, height, pitch, phase)[y * pitch + 4 * x + 3] == 0,
{
    lemma_row_base_monotone(y, height, pitch);
    let base = y * pitch;
    lemma_covering_row_is_own_row(base + 4 * x, width, pitch, height, y);
    lemma_covering_row_is_own_row(base + 4 * x + 1, width, pitch, height, y);
    lemma_covering_row_is_own_row(base + 4 * x + 2, width, pitch, height, y);
    lemma_covering_row_is_own_row(base + 4 * x + 3, width, pitch, height, y);
    assert((4 * x) / 4 == x && (4 * x) % 4 == 0);
    assert((4 * x + 1) / 4 == x && (4 * x + 1) % 4 == 1);
    assert((4 * x + 2) / 4 == x && (4 * x + 2) % 4 == 2);
    assert((4 * x + 3) / 4 == x && (4 * x + 3) % 4 == 3);
}

/// The four bytes of pixel `(x, y)` of the gradient for step `phase`.
fn gradient_pixel(x: usize, y: usize, phase: u8) -> (px: (u8, u8, u8, u8))
    ensures
        px.0 == gradient_byte(x as int, y as int, 0, phase),
        px.1 == gradient_byte(x as int, y as int, 1, phase),
        px.2 == gradient_byte(x as int, y as int, 2, phase),
        px.3 == gradient_byte(x as int, y as int, 3, phase),
{
    let xb = #[verifier::truncate] (x as u8);
    let yb = #[verifier::truncate] (y as u8);
    let blue = xb.wrapping_add(phase);
    let double = phase.wrapping_mul(2);
    let green = yb.wrapping_add(double);
    let red = phase.wrapping_mul(3);
    proof {
        let xi = x as int;
        let yi = y as int;
        let pi = phase as int;
        assert((x as u8) == x % 256) by (bit_vector);
        assert((y as u8) == y % 256) by (bit_vector);
        assert(blue as int == (xb as int + pi) % 256);
        assert(double as int == (2 * pi) % 256);
        assert(green as int == (yb as int + double as int) % 256);
        assert((xi % 256 + pi) % 256 == (xi + pi) % 256) by {
            vstd::arithmetic::div_mod::lemma_add_mod_noop_right(pi, xi, 256);
        }
        assert((yi % 256 + (2 * pi) % 256) % 256 == (yi + 2 * pi) % 256) by {
            vstd::arithmetic::div_mod::lemma_add_mod_noop(yi, 2 * pi, 256);
        }
    }
    (blue, green, red, 0)
}

/// Paints the first `height` rows of a test gradient into a buffer with
/// `pitch` bytes per row: each pixel's blue byte follows its column, its
/// green byte its row, its red byte the phase; the fourth byte is zero.
/// Rows are painted top to bottom, so where rows overlap the lower one wins.
pub fn fill_gradient(bytes: &mut [u8], width: usize, height: usize, pitch: usize, phase: u8)
    requires
        height > 0 ==> (height - 1) * pitch + 4 * width <= old(bytes)@.len(),
    ensures
        final(bytes)@ == painted(old(bytes)@, width as int, height as int, pitch as int, phase),
{
    let ghost start = bytes@;
    let total = bytes.len();
    let ghost len = bytes@.len();
    proof {
        assert(bytes@ =~= painted(start, width as int, 0, pitch as int, phase));
    }
    for y in 0..height
        invariant
            bytes@.len() == len,
            len == start.len(),
            total == len,
            height > 0 ==> (height - 1) * pitch + 4 * width <= len,
            bytes@ == painted(start, width as int, y as int, pitch as int, phase),
    {
        proof {
            lemma_row_base_monotone(y as int, height as int, pitch as int);
        }
        let base = y * pitch;
        let ghost before = bytes@;
        for x in 0..width
            invariant
                bytes@.len() == len,
                total == len,
                base == row_base(y as int, pitch as int),
                base + 4 * width <= len,
                forall|p: int|
                    0 <= p < len ==> #[trigger] bytes@[p] == (if base <= p < base + 4 * x {
                        gradient_byte((p - base) / 4, y as int, (p - base) % 4, phase)
                    } else {
                        before[p]
                    }),
        {
            let ghost prev = bytes@;
            let offset = base + x * 4;
            let px = gradient_pixel(x, y, phase);
            bytes[offset] = px.0;
            bytes[offset + 1] = px.1;
            bytes[offset + 2] = px.2;
            bytes[offset + 3] = px.3;
            proof {
                assert forall|p: int| 0 <= p < len implies #[trigger] bytes@[p] == (if base <= p
                    < base + 4 * (x + 1) {
                    gradient_byte((p - base) / 4, y as int, (p - base) % 4, phase)
                } else {
                    before[p]
                }) by {
                    if offset <= p < offset + 4 {
                        assert((p - base) / 4 == x as int);
                        assert((p - base) % 4 == p - offset);
                    } else {
                        assert(bytes@[p] == prev[p]);
                    }
                }
            }
        }
        proof {
            assert forall|p: int| 0 <= p < len implies #[trigger] bytes@[p] == painted(
                start,
                width as int,
                y + 1,
                pitch as int,
                phase,
            )[p] by {
                if !(base <= p < base + 4 * width) {
                    assert(covering_row(p, width as int, pitch as int, y + 1) == covering_row(
                        p,
                        width as int,
                        pitch as int,
                        y as int,
                    ));
                }
            }
            assert(bytes@ =~= painted(start, width as int, y + 1, pitch as int, phase));
        }
    }
}

/// The gradient's next animation step: three further, wrapping at 256.
pub fn next_phase(phase: u8) -> (next: u8)
    ensures
        next == (phase + 3) % 256,
{
    phase.wrapping_add(3)
}

/// What choosing an output needs to know of a connector.
#[derive(Debug, Clone, Copy)]
pub struct ConnectorSummary {
    pub connected: bool,
    pub mode_count: usize,
}

/// A connector that is connected and offers at least one mode.
pub open spec fn usable_connector(c: ConnectorSummary) -> bool {
    c.connected && c.mode_count > 0
}

/// A connector is usable exactly when it is connected and offers one mode
/// or more.
pub proof fn law_usable_connector_is_connected_with_a_mode(c: ConnectorSummary)
    ensures
        usable_connector(c) <==> (c.connected && c.mode_count >= 1),
{
}

/// The first usable connector, if any: the first that is connected and
/// offers at least one mode.
pub fn select_connector(connectors: &[ConnectorSummary]) -> (r: Option<usize>)
    ensures
        match r {
            Some(i) => i < connectors@.len() && usable_connector(connectors@[i as int]) && forall|
                j: int,
            |
                0 <= j < i ==> !usable_connector(#[trigger] connectors@[j]),
            None => forall|j: int|
                0 <= j < connectors@.len() ==> !usable_connector(#[trigger] connectors@[j]),
        },
        match r {
            Some(i) => connectors@[i as int].connected && connectors@[i as int].mode_count >= 1
                && forall|j: int|
                0 <= j < i ==> !(#[trigger] connectors@[j].connected && connectors@[j].mode_count
                    >= 1),
            None => forall|j: int|
                0 <= j < connectors@.len() ==> !(#[trigger] connectors@[j].connected
                    && connectors@[j].mode_count >= 1),
        },
{
    let n = connectors.len();
    for i in 0..n
        invariant
            n == connectors@.len(),
            forall|j: int| 0 <= j < i ==> !usable_connector(#[trigger] connectors@[j]),
    {
        let c = connectors[i];
        if c.connected && c.mode_count > 0 {
            return Some(i);
        }
    }
    None
}

/// The preferred handle if there is one, else the first fallback, else none.
pub fn preferred_or_first(preferred: Option<u32>, fallback: &[u32]) -> (r: Option<u32>)
    ensures
        r == (if preferred is Some {
            preferred
        } else if fallback@.len() > 0 {
            Some(fallback@[0])
        } else {
            None
        }),
{
    match preferred {
        Some(handle) => Some(handle),
        None => if fallback.len() > 0 {
            Some(fallback[0])
        } else {
            None
        },
    }
}

/// Why no output could be chosen.
#[derive(Debug, Clone, Copy, PartialEq, Eq, Structural)]
pub enum OutputError {
    NoConnector,
    NoMode,
    NoEncoder,
    NoCrtc,
}

impl OutputError {
    pub fn message(&self) -> (m: &'static str)
        ensures
            m@ == match *self {
                OutputError::NoConnector => "no connected drm connector with a mode"@,
                OutputError::NoMode => "connector has no drm mode"@,
                OutputError::NoEncoder => "connector has no encoder"@,
                OutputError::NoCrtc => "encoder has no usable crtc"@,
            },
    {
        match self {
            OutputError::NoConnector => "no connected drm connector with a mode",
            OutputError::NoMode => "connector has no drm mode",
            OutputError::NoEncoder => "connector has no encoder",
            OutputError::NoCrtc => "encoder has no usable crtc",
        }
    }
}

} // verus!
