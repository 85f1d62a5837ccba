//! Rendering a QR code into the raw BGRA pixel block the player's overlay
//! command takes.
//!
//! The picture is the module matrix magnified by an integer factor and
//! surrounded by a one-module quiet border on every side: a square of
//! `(width + 2) * magnification` pixels per side, four bytes per pixel,
//! light modules and border white, dark modules black. [`bgra_spec`] gives
//! the block byte for byte.

use vstd::prelude::*;

use crate::client::{Client, Error, OverlayAddOptions, OverlayAddOptionsModel};
use crate::message::Outcome;
use tokio::sync::oneshot;

verus! {

/// The overlay slot the QR code occupies.
pub const QR_CODE_OVERLAY_ID: u8 = 3;

/// Where the rendered QR code lies and how it was magnified.
#[derive(Debug, Clone)]
pub struct QrCodeParams {
    /// Path of the rendered pixel file.
    pub path: String,
    /// Width of the QR code in modules, border not counted.
    pub width: u32,
    /// Magnification: pixels per module side.
    pub magnification: u8,
    /// Whether the overlay is currently shown.
    pub active: bool,
}

/// One pixel: blue, green, red, alpha. White for the border and light
/// modules, black for dark modules.
pub open spec fn pixel(dark: bool) -> Seq<u8> {
    if dark {
        seq![0u8, 0u8, 0u8, 0u8]
    } else {
        seq![0xffu8, 0xffu8, 0xffu8, 0u8]
    }
}

/// `n` copies of the byte block `s`, one after the other.
pub open spec fn repeat(s: Seq<u8>, n: nat) -> Seq<u8>
    decreases n,
{
    if n == 0 {
        Seq::empty()
    } else {
        repeat(s, (n - 1) as nat) + s
    }
}

/// The first `c` modules of module row `r`, each magnified horizontally.
pub open spec fn cols_prefix(modules: Seq<bool>, width: nat, r: nat, c: nat, mag: nat) -> Seq<u8>
    decreases c,
{
    if c == 0 {
        Seq::empty()
    } else {
        cols_prefix(modules, width, r, (c - 1) as nat, mag) + repeat(
            pixel(modules[(r * width + (c - 1)) as int]),
            mag,
        )
    }
}

/// One scan row of module row `r`: the left border, the magnified modules,
/// the right border.
pub open spec fn scan_row(modules: Seq<bool>, width: nat, r: nat, mag: nat) -> Seq<u8> {
    repeat(pixel(false), mag) + cols_prefix(modules, width, r, width, mag) + repeat(
        pixel(false),
        mag,
    )
}

/// The first `r` module rows, each repeated `mag` scan rows.
pub open spec fn rows_prefix(modules: Seq<bool>, width: nat, r: nat, mag: nat) -> Seq<u8>
    decreases r,
{
    if r == 0 {
        Seq::empty()
    } else {
        rows_prefix(modules, width, (r - 1) as nat, mag) + repeat(
            scan_row(modules, width, (r - 1) as nat, mag),
            mag,
        )
    }
}

/// The whole picture: the top border band, every module row, the bottom
/// border band. Each band is `mag` scan rows of `(width + 2) * mag` white
/// pixels.
pub open spec fn bgra_spec(modules: Seq<bool>, width: nat, mag: nat) -> Seq<u8> {
    repeat(pixel(false), mag * (width + 2) * mag) + rows_prefix(modules, width, width, mag)
        + repeat(pixel(false), mag * (width + 2) * mag)
}

/// A QR code's module matrix: `width * width` modules in row-major order,
/// `true` for dark.
pub struct QrMatrix {
    width: usize,
    modules: Vec<bool>,
}

impl QrMatrix {
    /// The width in modules.
    pub closed spec fn spec_width(&self) -> nat {
        self.width as nat
    }

    /// The modules, row-major.
    pub closed spec fn spec_modules(&self) -> Seq<bool> {
        self.modules@
    }

    /// The matrix is square.
    pub open spec fn wf(&self) -> bool {
        self.spec_modules().len() == self.spec_width() * self.spec_width()
    }

    /// Wraps a row-major module list; fails unless it is a `width`-sided
    /// square.
    pub fn new(width: usize, modules: Vec<bool>) -> (r: Option<QrMatrix>)
        ensures
            match r {
                Some(m) => m.wf() && m.spec_width() == width && m.spec_modules() == modules@,
                None => modules@.len() != (width * width) as nat,
            },
    {
        let len = modules.len();
        match width.checked_mul(width) {
            Some(square) => if len == square {
                proof {
                    assert(modules@.len() == (width as int) * (width as int));
                }
                Some(QrMatrix { width, modules })
            } else {
                None
            },
            None => {
                proof {
                    assert(modules@.len() <= usize::MAX);
                    assert((width as int) * (width as int) > usize::MAX);
                }
                None
            },
        }
    }

    /// The width in modules.
    pub fn width(&self) -> (w: usize)
        ensures
            w == self.spec_width(),
    {
        self.width
    }

    /// Renders the magnified picture with its quiet border: exactly
    /// [`bgra_spec`].
    pub fn bgra_pixels(&self, magnification: u8) -> (out: Vec<u8>)
        requires
            self.wf(),
            self.spec_width() + 2 <= usize::MAX,
            4 * (self.spec_width() + 2) * (magnification as nat) * (self.spec_width() + 2) * (
            magnification as nat) <= usize::MAX,
        ensures
            out@ == bgra_spec(self.spec_modules(), self.spec_width(), magnification as nat),
    {
        let mag = magnification as usize;
        let width = self.width;
        let module_count = self.modules.len();
        proof {
            assert(self.spec_modules().len() <= usize::MAX);
        }
        proof {
            assert(mag * (width + 2) <= usize::MAX && mag * (width + 2) * mag <= usize::MAX)
                by (nonlinear_arith)
                requires
                    0 <= mag,
                    0 <= width,
                    4 * (width + 2) * mag * (width + 2) * mag <= usize::MAX,
            ;
        }
        let mut out: Vec<u8> = Vec::new();
        let border: usize = mag * (width + 2) * mag;
        push_pixel_run(&mut out, false, border);
        let mut r: usize = 0;
        while r < width
            invariant
                r <= width,
                width == self.spec_width(),
                mag == magnification as nat,
                self.wf(),
                self.spec_modules().len() <= usize::MAX,
                out@ == repeat(pixel(false), mag as nat * (width as nat + 2) * mag as nat)
                    + rows_prefix(self.spec_modules(), width as nat, r as nat, mag as nat),
            decreases width - r,
        {
            let mut k: usize = 0;
            let ghost row_start = out@;
            while k < mag
                invariant
                    k <= mag,
                    width == self.spec_width(),
                    mag == magnification as nat,
                    self.wf(),
                    self.spec_modules().len() <= usize::MAX,
                    r < width,
                    out@ == row_start + repeat(
                        scan_row(self.spec_modules(), width as nat, r as nat, mag as nat),
                        k as nat,
                    ),
                decreases mag - k,
            {
                let ghost scan_start = out@;
                push_pixel_run(&mut out, false, mag);
                let mut c: usize = 0;
                while c < width
                    invariant
                        c <= width,
                        width == self.spec_width(),
                        mag == magnification as nat,
                        self.wf(),
                        self.spec_modules().len() <= usize::MAX,
                        r < width,
                        out@ == scan_start + repeat(pixel(false), mag as nat) + cols_prefix(
                            self.spec_modules(),
                            width as nat,
                            r as nat,
                            c as nat,
                            mag as nat,
                        ),
                    decreases width - c,
                {
                    proof {
                        assert(r * width + c < width * width) by (nonlinear_arith)
                            requires
                                0 <= r < width,
                                0 <= c < width,
                        ;
                        assert(self.spec_modules().len() == width * width);
                        assert(width * width <= usize::MAX);
                    }
                    let dark = self.modules[r * width + c];
                    push_pixel_run(&mut out, dark, mag);
                    c = c + 1;
                }
                push_pixel_run(&mut out, false, mag);
                proof {
                    assert(out@ =~= scan_start + scan_row(
                        self.spec_modules(),
                        width as nat,
                        r as nat,
                        mag as nat,
                    ));
                    assert(out@ =~= row_start + repeat(
                        scan_row(self.spec_modules(), width as nat, r as nat, mag as nat),
                        k as nat + 1,
                    ));
                }
                k = k + 1;
            }
            proof {
                assert(out@ =~= repeat(pixel(false), mag as nat * (width as nat + 2) * mag as nat)
                    + rows_prefix(self.spec_modules(), width as nat, r as nat + 1, mag as nat));
            }
            r = r + 1;
        }
        push_pixel_run(&mut out, false, border);
        proof {
            assert(out@ =~= bgra_spec(self.spec_modules(), self.spec_width(), magnification as nat));
        }
        out
    }
}

/// Appends `n` copies of one pixel.
fn push_pixel_run(out: &mut Vec<u8>, dark: bool, n: usize)
    ensures
        final(out)@ == old(out)@ + repeat(pixel(dark), n as nat),
{
    let mut i: usize = 0;
    proof {
        assert(out@ =~= old(out)@ + repeat(pixel(dark), 0));
    }
    while i < n
        invariant
            i <= n,
            out@ == old(out)@ + repeat(pixel(dark), i as nat),
        decreases n - i,
    {
        if dark {
            out.push(0);
            out.push(0);
            out.push(0);
            out.push(0);
        } else {
            out.push(0xff);
            out.push(0xff);
            out.push(0xff);
            out.push(0);
        }
        proof {
            assert(out@ =~= old(out)@ + repeat(pixel(dark), i as nat + 1));
        }
        i = i + 1;
    }
}

/// The overlay options that place the QR code: the fixed overlay slot, a
/// fixed position, and the picture's square side of `(width + 2)` magnified
/// modules.
pub open spec fn qr_overlay_model(params: QrCodeParams) -> OverlayAddOptionsModel {
    OverlayAddOptionsModel {
        id: QR_CODE_OVERLAY_ID,
        x: 20,
        y: 20,
        file: params.path@,
        offset: 0,
        w: ((params.width + 2) * params.magnification as u32) as u32,
        h: ((params.width + 2) * params.magnification as u32) as u32,
    }
}

/// Builds the overlay options that place the QR code.
pub fn qr_overlay_options(params: &QrCodeParams) -> (o: OverlayAddOptions)
    requires
        params.width + 2 <= u32::MAX,
        (params.width + 2) * (params.magnification as int) <= u32::MAX,
    ensures
        o.deep_view() == qr_overlay_model(*params),
{
    let side: u32 = (params.width + 2) * (params.magnification as u32);
    OverlayAddOptions {
        id: QR_CODE_OVERLAY_ID,
        x: 20,
        y: 20,
        file: params.path.clone(),
        offset: 0,
        w: side,
        h: side,
    }
}

/// Asks the player to show the QR code overlay.
pub fn add_qr_code_overlay(mpv: &Client, params: &QrCodeParams) -> (r: Result<
    oneshot::Receiver<Outcome>,
    Error,
>)
    requires
        params.width + 2 <= u32::MAX,
        (params.width + 2) * (params.magnification as int) <= u32::MAX,
    ensures
        r matches Err(e) ==> e is CommandsChannelClosed,
{
    let opts = qr_overlay_options(params);
    mpv.overlay_add(&opts)
}

/// Asks the player to take the QR code overlay down.
pub fn remove_qr_code_overlay(mpv: &Client) -> (r: Result<oneshot::Receiver<Outcome>, Error>)
    ensures
        r matches Err(e) ==> e is CommandsChannelClosed,
{
    mpv.overlay_remove(QR_CODE_OVERLAY_ID)
}

} // verus!
