//! The drawing surface: an SSD1306 panel in buffered-graphics mode behind an
//! explicit clear / draw / flush lifecycle.
//!
//! Every draw call only mutates the driver's off-screen buffer; nothing is
//! visible until [`ScreenWriter::flush`] transmits the buffer over the bus.
//! The surface carries a ghost transcript of the commands drawn since the
//! last clear, so callers can reason about exactly what a frame holds.  The
//! device calls themselves are trusted wrappers around the `ssd1306`,
//! `embedded-graphics` and `rppal` crates.

use display_interface::DisplayError;
use display_interface_i2c::I2CInterface;
use embedded_graphics::draw_target::DrawTarget;
use embedded_graphics::geometry::Angle;
use embedded_graphics::geometry::Point as EgPoint;
use embedded_graphics::geometry::Size as EgSize;
use embedded_graphics::mono_font::iso_8859_1::{FONT_6X10, FONT_7X14_BOLD};
use embedded_graphics::mono_font::MonoTextStyleBuilder;
use embedded_graphics::pixelcolor::BinaryColor;
use embedded_graphics::primitives::{Arc, Line, Primitive, PrimitiveStyle, Rectangle};
use embedded_graphics::text::Text;
use embedded_graphics::Drawable;
use rppal::i2c::I2c;
use ssd1306::mode::BufferedGraphicsMode;
use ssd1306::prelude::DisplayConfig;
use ssd1306::rotation::DisplayRotation;
use ssd1306::size::DisplaySize128x64;
use ssd1306::Ssd1306;
use vstd::prelude::*;

use crate::render::{DrawCmd, DrawCmdView, FontId, Point, Size};

verus! {

#[verifier::external_type_specification]
#[verifier::external_body]
pub struct ExDisplayError(DisplayError);

#[verifier::external_type_specification]
#[verifier::external_body]
pub struct ExI2c(I2c);

#[verifier::external_type_specification]
#[verifier::external_body]
#[verifier::reject_recursive_types(I2C)]
pub struct ExI2CInterface<I2C>(I2CInterface<I2C>);

#[verifier::external_type_specification]
#[verifier::external_body]
pub struct ExDisplaySize128x64(DisplaySize128x64);

#[verifier::external_type_specification]
#[verifier::external_body]
pub struct ExDisplayRotation(DisplayRotation);

/// The owned SSD1306 driver in buffered graphics mode over I2C, held whole
/// behind an opaque handle: the driver type's generic parameters carry
/// bounds from the driver crates' own traits, which the verifier cannot
/// take in a declaration.
#[verifier::external_body]
struct DeviceHandle {
    display: Ssd1306<
        I2CInterface<I2c>,
        DisplaySize128x64,
        BufferedGraphicsMode<DisplaySize128x64>,
    >,
}

/// What went wrong at which step of the surface's lifecycle.
#[derive(Debug)]
pub enum ScreenWriterError {
    Init(DisplayError),
    Clear(DisplayError),
    Flush(DisplayError),
    Write(DisplayError),
}

/// Relies on `Ssd1306::new` and `into_buffered_graphics_mode`: pure
/// construction of the driver value, no bus traffic.
#[verifier::external_body]
fn device_new(interface: I2CInterface<I2c>, size: DisplaySize128x64, rotation: DisplayRotation)
    -> DeviceHandle {
    DeviceHandle { display: Ssd1306::new(interface, size, rotation).into_buffered_graphics_mode() }
}

/// Relies on `Ssd1306::init` (through `DisplayConfig`): configures the panel
/// over the bus and clears the off-screen buffer.
#[verifier::external_body]
fn device_init(device: &mut DeviceHandle) -> Result<(), DisplayError> {
    device.display.init()
}

/// Relies on the `DrawTarget` clear of `Ssd1306`'s buffered mode, whose
/// source only fills the off-screen buffer and always returns `Ok`.
#[verifier::external_body]
fn device_clear(device: &mut DeviceHandle) -> (r: Result<(), DisplayError>)
    ensures
        r is Ok,
{
    device.display.clear(BinaryColor::Off)
}

/// Relies on `Ssd1306::flush`: transmits the off-screen buffer over the bus.
#[verifier::external_body]
fn device_flush(device: &mut DeviceHandle) -> Result<(), DisplayError> {
    device.display.flush()
}

/// Relies on `embedded_graphics::text::Text` drawn into the buffered
/// display: rasterizes a text run into the off-screen buffer.
#[verifier::external_body]
fn device_draw_text(device: &mut DeviceHandle, text: &str, x: i32, y: i32, font: FontId) -> Result<
    (),
    DisplayError,
> {
    let style = MonoTextStyleBuilder::new().font(
        match font {
            FontId::Font6x10 => &FONT_6X10,
            FontId::Font7x14Bold => &FONT_7X14_BOLD,
        },
    ).text_color(BinaryColor::On).build();
    match Text::new(text, EgPoint::new(x, y), style).draw(&mut device.display) {
        Ok(_) => Ok(()),
        Err(e) => Err(e),
    }
}

/// Relies on `embedded_graphics::primitives::Line` drawn with a one-pixel
/// stroke into the off-screen buffer.
#[verifier::external_body]
fn device_draw_line(device: &mut DeviceHandle, x1: i32, y1: i32, x2: i32, y2: i32) -> Result<
    (),
    DisplayError,
> {
    let styled = Line::new(EgPoint::new(x1, y1), EgPoint::new(x2, y2)).into_styled(
        PrimitiveStyle::with_stroke(BinaryColor::On, 1),
    );
    match styled.draw(&mut device.display) {
        Ok(_) => Ok(()),
        Err(e) => Err(e),
    }
}

/// Relies on `embedded_graphics::primitives::Rectangle` drawn filled into
/// the off-screen buffer.
#[verifier::external_body]
fn device_draw_rect(device: &mut DeviceHandle, x: i32, y: i32, width: u32, height: u32) -> Result<
    (),
    DisplayError,
> {
    let styled = Rectangle::new(EgPoint::new(x, y), EgSize::new(width, height)).into_styled(
        PrimitiveStyle::with_fill(BinaryColor::On),
    );
    match styled.draw(&mut device.display) {
        Ok(_) => Ok(()),
        Err(e) => Err(e),
    }
}

/// Relies on `embedded_graphics::primitives::Arc` drawn with a one-pixel
/// stroke into the off-screen buffer; angles are given in whole degrees.
#[verifier::external_body]
fn device_draw_arc(
    device: &mut DeviceHandle,
    x: i32,
    y: i32,
    diameter: u32,
    start_deg: u16,
    sweep_deg: u16,
) -> Result<(), DisplayError> {
    let styled = Arc::new(
        EgPoint::new(x, y),
        diameter,
        Angle::from_degrees(start_deg.into()),
        Angle::from_degrees(sweep_deg.into()),
    ).into_styled(PrimitiveStyle::with_stroke(BinaryColor::On, 1));
    match styled.draw(&mut device.display) {
        Ok(_) => Ok(()),
        Err(e) => Err(e),
    }
}

/// The drawing surface: the owned driver plus the ghost transcript of the
/// commands drawn into the off-screen buffer since the last clear.
pub struct ScreenWriter {
    device: DeviceHandle,
    buffer: Ghost<Seq<DrawCmdView>>,
}

impl View for ScreenWriter {
    type V = Seq<DrawCmdView>;

    closed spec fn view(&self) -> Seq<DrawCmdView> {
        self.buffer@
    }
}

impl ScreenWriter {
    /// Establishes the device session: builds the driver, initializes the
    /// panel and starts from an empty buffer.  Fails with `Init` when the
    /// transport rejects initialization and with `Clear` when the initial
    /// clear cannot be committed.
    pub fn new(
        i2c_interface: I2CInterface<I2c>,
        size: DisplaySize128x64,
        rotation: DisplayRotation,
    ) -> (r: Result<ScreenWriter, ScreenWriterError>)
        ensures
            r matches Ok(w) ==> w@ == Seq::<DrawCmdView>::empty(),
            r matches Err(e) ==> (e matches ScreenWriterError::Init(_) || e
                matches ScreenWriterError::Clear(_)),
    {
        let mut device = device_new(i2c_interface, size, rotation);
        match device_init(&mut device) {
            Err(e) => Err(ScreenWriterError::Init(e)),
            Ok(()) => match device_clear(&mut device) {
                Err(e) => Err(ScreenWriterError::Clear(e)),
                Ok(()) => Ok(ScreenWriter { device, buffer: Ghost(Seq::empty()) }),
            },
        }
    }

    /// Resets the off-screen buffer to the background color.  With this
    /// driver the reset happens in memory and cannot fail.
    pub fn clear(&mut self) -> (r: Result<(), ScreenWriterError>)
        ensures
            r is Ok,
            final(self)@ == Seq::<DrawCmdView>::empty(),
    {
        match device_clear(&mut self.device) {
            Ok(()) => {
                self.buffer = Ghost(Seq::empty());
                Ok(())
            },
            Err(e) => Err(ScreenWriterError::Clear(e)),
        }
    }

    /// Rasterizes a text run at an absolute position into the off-screen
    /// buffer.
    pub fn write_text(&mut self, text: &str, pos: Point, font: FontId) -> (r: Result<
        (),
        ScreenWriterError,
    >)
        ensures
            r is Ok ==> final(self)@ == old(self)@.push(
                DrawCmdView::Text { text: text@, pos: pos, font: font },
            ),
            r is Err ==> final(self)@ == old(self)@,
            r matches Err(e) ==> e matches ScreenWriterError::Write(_),
    {
        match device_draw_text(&mut self.device, text, pos.x, pos.y, font) {
            Ok(()) => {
                self.buffer = Ghost(
                    self.buffer@.push(DrawCmdView::Text { text: text@, pos: pos, font: font }),
                );
                Ok(())
            },
            Err(e) => Err(ScreenWriterError::Write(e)),
        }
    }

    /// Rasterizes a one-pixel line into the off-screen buffer.
    pub fn write_line(&mut self, start: Point, end: Point) -> (r: Result<(), ScreenWriterError>)
        ensures
            r is Ok ==> final(self)@ == old(self)@.push(
                DrawCmdView::Line { start: start, end: end },
            ),
            r is Err ==> final(self)@ == old(self)@,
            r matches Err(e) ==> e matches ScreenWriterError::Write(_),
    {
        match device_draw_line(&mut self.device, start.x, start.y, end.x, end.y) {
            Ok(()) => {
                self.buffer = Ghost(self.buffer@.push(DrawCmdView::Line { start: start, end: end }));
                Ok(())
            },
            Err(e) => Err(ScreenWriterError::Write(e)),
        }
    }

    /// Rasterizes a filled rectangle into the off-screen buffer.
    pub fn write_box(&mut self, top_left: Point, size: Size) -> (r: Result<(), ScreenWriterError>)
        ensures
            r is Ok ==> final(self)@ == old(self)@.push(
                DrawCmdView::Rect { top_left: top_left, size: size },
            ),
            r is Err ==> final(self)@ == old(self)@,
            r matches Err(e) ==> e matches ScreenWriterError::Write(_),
    {
        match device_draw_rect(&mut self.device, top_left.x, top_left.y, size.width, size.height) {
            Ok(()) => {
                self.buffer = Ghost(
                    self.buffer@.push(DrawCmdView::Rect { top_left: top_left, size: size }),
                );
                Ok(())
            },
            Err(e) => Err(ScreenWriterError::Write(e)),
        }
    }

    /// Rasterizes a one-pixel arc into the off-screen buffer.
    fn write_arc(&mut self, top_left: Point, diameter: u32, start_deg: u16, sweep_deg: u16) -> (r:
        Result<(), ScreenWriterError>)
        ensures
            r is Ok ==> final(self)@ == old(self)@.push(
                DrawCmdView::Arc {
                    top_left: top_left,
                    diameter: diameter,
                    start_deg: start_deg,
                    sweep_deg: sweep_deg,
                },
            ),
            r is Err ==> final(self)@ == old(self)@,
            r matches Err(e) ==> e matches ScreenWriterError::Write(_),
    {
        match device_draw_arc(
            &mut self.device,
            top_left.x,
            top_left.y,
            diameter,
            start_deg,
            sweep_deg,
        ) {
            Ok(()) => {
                self.buffer = Ghost(
                    self.buffer@.push(
                        DrawCmdView::Arc {
                            top_left: top_left,
                            diameter: diameter,
                            start_deg: start_deg,
                            sweep_deg: sweep_deg,
                        },
                    ),
                );
                Ok(())
            },
            Err(e) => Err(ScreenWriterError::Write(e)),
        }
    }

    /// The liveness indicator: an arc whose start angle advances 36 degrees
    /// per animation frame with a fixed 245-degree sweep.
    pub fn write_loading_icon(&mut self, top_left: Point, size: u32, offset: u16) -> (r: Result<
        (),
        ScreenWriterError,
    >)
        requires
            offset < 10,
        ensures
            r is Ok ==> final(self)@ == old(self)@.push(
                DrawCmdView::Arc {
                    top_left: top_left,
                    diameter: size,
                    start_deg: (offset * 36) as u16,
                    sweep_deg: 245,
                },
            ),
            r is Err ==> final(self)@ == old(self)@,
            r matches Err(e) ==> e matches ScreenWriterError::Write(_),
    {
        let start: u16 = offset * 36;
        self.write_arc(top_left, size, start, 245)
    }

    /// Transmits the off-screen buffer to the panel.  The buffer itself is
    /// untouched; a failure here means the display can no longer be updated.
    pub fn flush(&mut self) -> (r: Result<(), ScreenWriterError>)
        ensures
            final(self)@ == old(self)@,
            r matches Err(e) ==> e matches ScreenWriterError::Flush(_),
    {
        match device_flush(&mut self.device) {
            Ok(()) => Ok(()),
            Err(e) => Err(ScreenWriterError::Flush(e)),
        }
    }

    /// Draws a pre-rendered command list into the buffer, in order.  On a
    /// raster fault the rest of the frame is abandoned: exactly the commands
    /// before the fault have been drawn.
    pub fn apply(&mut self, cmds: &Vec<DrawCmd>) -> (r: Result<(), ScreenWriterError>)
        ensures
            r is Ok ==> final(self)@ == old(self)@ + cmds.deep_view(),
            r matches Err(e) ==> ({
                &&& e matches ScreenWriterError::Write(_)
                &&& exists|k: int|
                    0 <= k <= cmds@.len() && final(self)@ == old(self)@ + cmds.deep_view().take(k)
            }),
    {
        let n = cmds.len();
        let mut i: usize = 0;
        proof {
            assert(self@ =~= old(self)@ + cmds.deep_view().take(0));
        }
        while i < n
            invariant
                i <= n,
                n == cmds@.len(),
                self@ == old(self)@ + cmds.deep_view().take(i as int),
            decreases n - i,
        {
            let r = match &cmds[i] {
                DrawCmd::Text { text, pos, font } => self.write_text(text.as_str(), *pos, *font),
                DrawCmd::Line { start, end } => self.write_line(*start, *end),
                DrawCmd::Rect { top_left, size } => self.write_box(*top_left, *size),
                DrawCmd::Arc { top_left, diameter, start_deg, sweep_deg } => self.write_arc(
                    *top_left,
                    *diameter,
                    *start_deg,
                    *sweep_deg,
                ),
            };
            match r {
                Ok(()) => {
                    proof {
                        assert(cmds.deep_view().take(i + 1) =~= cmds.deep_view().take(
                            i as int,
                        ).push(cmds@[i as int]@));
                    }
                    i = i + 1;
                },
                Err(e) => {
                    proof {
                        assert(final(self)@ == old(self)@ + cmds.deep_view().take(i as int));
                    }
                    return Err(e);
                },
            }
        }
        proof {
            assert(cmds.deep_view().take(n as int) =~= cmds.deep_view());
        }
        Ok(())
    }
}

} // verus!
