//! The display driver: the power-on and reset protocol of the panel, and
//! every draw as clear, compose, flush.
//!
//! The driver performs no input or output. An operation hands the host a
//! script of [`Command`]s, which the host performs in order on the reset
//! line and the bus. The host then reports how the bus write at the end of
//! the script went, with [`Display::complete_init`] after `init` and
//! `reset`, and with [`Display::complete_flush`] after a draw. Nothing is
//! retried: after a failure the caller decides whether to `reset`.

use crate::bitmap::Bitmap;
use crate::error::{DisplayError, TransportError};
use crate::frame::{
    bitmap_fits, blank_frame, blitted, frame_pixels, merged, FrameBuffer, FRAME_BYTES,
    PANEL_HEIGHT, PANEL_WIDTH,
};
use crate::luma::{lemma_product_bound, GrayImage};
use crate::normalize::{
    convert_dynamic_image_to_binary_raw, normalized, target_dimension,
};
use crate::text::{text_fits, text_raster};
use vstd::prelude::*;

verus! {

/// Column at which a printed text starts.
pub const TEXT_X: u32 = 0;

/// Row at which a printed text starts.
pub const TEXT_Y: u32 = 16;

/// Milliseconds for which the reset line is held high before the pulse.
pub const RESET_SETTLE_MS: u32 = 1;

/// Milliseconds for which the reset line is held low: the panel latches a
/// reset only after a pulse of this length.
pub const RESET_PULSE_MS: u32 = 10;

/// What the driver knows of the panel.
#[derive(Clone, Copy, Debug, PartialEq, Eq, Structural)]
pub enum DisplayState {
    /// The panel has not been initialised, or is being initialised.
    Uninitialized,
    /// The panel took its initialisation and accepts frames.
    Ready,
    /// The initialisation failed on the bus.
    Failed,
}

/// One step that the host performs for the driver.
#[derive(Debug, PartialEq, Eq)]
pub enum Command {
    /// Drive the reset line high: the panel runs.
    SetResetHigh,
    /// Drive the reset line low: the panel is held in reset.
    SetResetLow,
    /// Wait for at least this many milliseconds of elapsed time.
    DelayMs(u32),
    /// Write the panel's initialisation sequence to the bus.
    InitPanel,
    /// Write this frame to the bus.
    Flush(Vec<u8>),
}

impl Command {
    /// The command writes to the bus.
    pub open spec fn is_bus_write(self) -> bool {
        self is InitPanel || self is Flush
    }
}

/// The number of bus writes among the first `count` commands of a script.
pub open spec fn bus_writes_in(script: Seq<Command>, count: int) -> nat
    decreases count,
{
    if count <= 0 {
        0
    } else {
        bus_writes_in(script, count - 1) + (if script[count - 1].is_bus_write() {
            1nat
        } else {
            0nat
        })
    }
}

/// The number of bus writes that a script asks for.
pub open spec fn bus_writes(script: Seq<Command>) -> nat {
    bus_writes_in(script, script.len() as int)
}

/// Whether the reset line is high after the first `count` commands of a
/// script, if it was `high` before the script.
pub open spec fn line_high_after(script: Seq<Command>, high: bool, count: int) -> bool
    decreases count,
{
    if count <= 0 {
        high
    } else {
        match script[count - 1] {
            Command::SetResetHigh => true,
            Command::SetResetLow => false,
            _ => line_high_after(script, high, count - 1),
        }
    }
}

/// Whether a script leaves the reset line high, if it was `high` before.
pub open spec fn leaves_line_high(script: Seq<Command>, high: bool) -> bool {
    line_high_after(script, high, script.len() as int)
}

/// The milliseconds for which the first `count` commands of a script hold
/// the reset line low, if it was `high` before the script.
pub open spec fn low_millis_in(script: Seq<Command>, high: bool, count: int) -> nat
    decreases count,
{
    if count <= 0 {
        0
    } else {
        low_millis_in(script, high, count - 1) + (match script[count - 1] {
            Command::DelayMs(millis) => if line_high_after(script, high, count - 1) {
                0nat
            } else {
                millis as nat
            },
            _ => 0nat,
        })
    }
}

/// The script of `init`: the reset line is driven high, then the panel
/// gets its initialisation sequence.
pub open spec fn init_script() -> Seq<Command> {
    seq![Command::SetResetHigh, Command::InitPanel]
}

/// The reset pulse: high for a millisecond, low for ten, high again.
pub open spec fn reset_pulse() -> Seq<Command> {
    seq![
        Command::SetResetHigh,
        Command::DelayMs(RESET_SETTLE_MS),
        Command::SetResetLow,
        Command::DelayMs(RESET_PULSE_MS),
        Command::SetResetHigh,
    ]
}

/// The script of `reset`: the reset pulse, then the script of `init`.
pub open spec fn reset_script() -> Seq<Command> {
    reset_pulse() + init_script()
}

/// The script of a draw: the one command that writes `frame` to the bus.
pub open spec fn flushes(script: Seq<Command>, frame: Seq<u8>) -> bool {
    script.len() == 1 && (script[0] matches Command::Flush(bytes) && bytes@ == frame)
}

/// The commands that an operation handed out: none where it failed.
pub open spec fn issued(result: Result<Vec<Command>, DisplayError>) -> Seq<Command> {
    match result {
        Ok(script) => script@,
        Err(_) => Seq::empty(),
    }
}

/// A draw was refused because the panel is not ready.
pub open spec fn refused(result: Result<Vec<Command>, DisplayError>) -> bool {
    result matches Err(e) && e == DisplayError::NotReady
}

/// The result of an operation whose bus write had the given outcome: a
/// failure of the transport is handed on as it is.
pub open spec fn surfaced(outcome: Result<(), TransportError>) -> Result<(), DisplayError> {
    match outcome {
        Ok(_) => Ok(()),
        Err(e) => Err(DisplayError::Transport(e)),
    }
}

/// The mathematical model of the driver: its state and the bytes of its
/// frame buffer.
pub struct DisplayView {
    pub state: DisplayState,
    pub frame: Seq<u8>,
}

impl DisplayView {
    /// The frame buffer holds one frame.
    pub open spec fn wf(self) -> bool {
        self.frame.len() == FRAME_BYTES
    }

    /// The driver after it handed out the script of `init` or of `reset`:
    /// until the host reports the outcome, the panel counts as
    /// uninitialised.
    pub open spec fn initializing(self) -> DisplayView {
        DisplayView { state: DisplayState::Uninitialized, frame: self.frame }
    }

    /// The driver after the host reported the outcome of the
    /// initialisation sequence.
    pub open spec fn initialized(self, outcome: Result<(), TransportError>) -> DisplayView {
        DisplayView {
            state: if outcome is Ok {
                DisplayState::Ready
            } else {
                DisplayState::Failed
            },
            frame: self.frame,
        }
    }
}

/// The driver of the panel. It owns the frame buffer.
#[derive(Debug)]
pub struct Display {
    state: DisplayState,
    frame: FrameBuffer,
}

impl View for Display {
    type V = DisplayView;

    closed spec fn view(&self) -> DisplayView {
        DisplayView { state: self.state, frame: self.frame.bytes() }
    }
}

proof fn lemma_or_zero(b: u8)
    by (bit_vector)
    ensures
        0u8 | b == b,
{
}

/// A raster laid over the blank frame is that raster.
pub proof fn lemma_merged_with_blank(raster: Seq<u8>)
    requires
        raster.len() == FRAME_BYTES,
    ensures
        merged(blank_frame(), raster) == raster,
{
    assert forall|index: int| 0 <= index < FRAME_BYTES implies merged(blank_frame(), raster)[index]
        == raster[index] by {
        lemma_or_zero(raster[index]);
    }
    assert(merged(blank_frame(), raster) =~= raster);
}

/// A script of one flush asks for one bus write.
pub proof fn lemma_flush_is_one_write(script: Seq<Command>, frame: Seq<u8>)
    requires
        flushes(script, frame),
    ensures
        bus_writes(script) == 1,
{
    reveal_with_fuel(bus_writes_in, 2);
}

impl Display {
    /// The driver for a panel whose reset line and bus the host has
    /// acquired, the line as an output that is driven high.
    ///
    /// The host passes the outcome of each acquisition. Where one failed
    /// there is no driver: the failure is handed back, that of the reset
    /// line first.
    pub fn new(reset_line: Result<(), TransportError>, bus: Result<(), TransportError>) -> (result:
        Result<Display, TransportError>)
        ensures
            result is Ok <==> reset_line is Ok && bus is Ok,
            result matches Err(e) ==> (match reset_line {
                Err(line) => e == line,
                Ok(_) => bus == Err::<(), TransportError>(e),
            }),
            result matches Ok(display) ==> display@ == (DisplayView {
                state: DisplayState::Uninitialized,
                frame: blank_frame(),
            }),
    {
        match reset_line {
            Err(e) => Err(e),
            Ok(_) => match bus {
                Err(e) => Err(e),
                Ok(_) => Ok(Display { state: DisplayState::Uninitialized, frame: FrameBuffer::new() }),
            },
        }
    }

    /// What the driver knows of the panel.
    pub fn state(&self) -> (state: DisplayState)
        ensures
            state == self@.state,
            self@.wf(),
    {
        proof {
            use_type_invariant(&self.frame);
            self.frame.lemma_frame_length();
        }
        self.state
    }

    /// A copy of the frame buffer's bytes.
    pub fn frame(&self) -> (bytes: Vec<u8>)
        ensures
            bytes@ == self@.frame,
            self@.wf(),
    {
        self.frame.to_bytes()
    }

    /// Begins the initialisation of the panel, in any state.
    ///
    /// The host performs the script and reports the outcome of its bus
    /// write with `complete_init`. Until then the panel counts as
    /// uninitialised.
    pub fn init(&mut self) -> (script: Vec<Command>)
        ensures
            script@ == init_script(),
            final(self)@ == old(self)@.initializing(),
    {
        self.state = DisplayState::Uninitialized;
        let mut script: Vec<Command> = Vec::new();
        script.push(Command::SetResetHigh);
        script.push(Command::InitPanel);
        assert(script@ =~= init_script());
        script
    }

    /// Begins a full power cycle of the panel, in any state: the reset
    /// pulse, then the initialisation as `init` begins it.
    ///
    /// The host performs the script and reports the outcome of its bus
    /// write with `complete_init`. Until then the panel counts as
    /// uninitialised.
    pub fn reset(&mut self) -> (script: Vec<Command>)
        ensures
            script@ == reset_script(),
            final(self)@ == old(self)@.initializing(),
    {
        let mut script: Vec<Command> = Vec::new();
        script.push(Command::SetResetHigh);
        script.push(Command::DelayMs(RESET_SETTLE_MS));
        script.push(Command::SetResetLow);
        script.push(Command::DelayMs(RESET_PULSE_MS));
        script.push(Command::SetResetHigh);
        assert(script@ =~= reset_pulse());
        let mut rest: Vec<Command> = self.init();
        script.append(&mut rest);
        script
    }

    /// Takes the outcome of the bus write that ends the script of `init`
    /// or of `reset`: the panel is ready if the write succeeded and has
    /// failed if it did not. A failure is handed on to the caller.
    pub fn complete_init(&mut self, outcome: Result<(), TransportError>) -> (result: Result<
        (),
        DisplayError,
    >)
        ensures
            final(self)@ == old(self)@.initialized(outcome),
            result == surfaced(outcome),
    {
        match outcome {
            Ok(_) => {
                self.state = DisplayState::Ready;
                Ok(())
            },
            Err(e) => {
                self.state = DisplayState::Failed;
                Err(DisplayError::Transport(e))
            },
        }
    }

    /// Takes the outcome of the bus write that a draw asked for. A failure
    /// is handed on to the caller; the driver keeps its state and does not
    /// write again.
    pub fn complete_flush(&self, outcome: Result<(), TransportError>) -> (result: Result<
        (),
        DisplayError,
    >)
        ensures
            result == surfaced(outcome),
    {
        match outcome {
            Ok(_) => Ok(()),
            Err(e) => Err(DisplayError::Transport(e)),
        }
    }

    /// The script that writes the frame buffer to the bus.
    fn flush_script(&self) -> (script: Vec<Command>)
        ensures
            flushes(script@, self@.frame),
            bus_writes(script@) == 1,
    {
        let mut script: Vec<Command> = Vec::new();
        script.push(Command::Flush(self.frame.to_bytes()));
        proof {
            lemma_flush_is_one_write(script@, self@.frame);
        }
        script
    }

    /// Shows a text: clears the frame buffer, composes the text from
    /// column `TEXT_X` of row `TEXT_Y` in the panel's font, and hands out
    /// the flush of the whole frame.
    ///
    /// While the panel is not ready the draw is refused: the frame buffer
    /// stays as it was and nothing goes to the bus. A text that cannot be
    /// laid out inside the panel is rejected: the frame buffer is left
    /// blank and nothing goes to the bus.
    pub fn print(&mut self, text: &str) -> (result: Result<Vec<Command>, DisplayError>)
        ensures
            old(self)@.state != DisplayState::Ready ==> refused(result) && final(self)@ == old(
                self,
            )@,
            old(self)@.state == DisplayState::Ready ==> {
                &&& final(self)@.state == DisplayState::Ready
                &&& result is Ok <==> text_fits(text@, TEXT_X as int, TEXT_Y as int)
                &&& result matches Err(e) ==> e == DisplayError::Geometry && final(self)@.frame
                    == blank_frame()
                &&& result matches Ok(script) ==> final(self)@.frame == text_raster(
                    text@,
                    TEXT_X as int,
                    TEXT_Y as int,
                ) && flushes(script@, final(self)@.frame)
            },
            bus_writes(issued(result)) == (if result is Ok {
                1nat
            } else {
                0nat
            }),
    {
        if self.state != DisplayState::Ready {
            return Err(DisplayError::NotReady);
        }
        self.frame.clear();
        match self.frame.draw_text(text, TEXT_X, TEXT_Y) {
            Err(e) => Err(e),
            Ok(_) => {
                proof {
                    lemma_merged_with_blank(text_raster(text@, TEXT_X as int, TEXT_Y as int));
                }
                Ok(self.flush_script())
            },
        }
    }

    /// Shows a packed bitmap: clears the frame buffer, composes the
    /// bitmap at the origin, and hands out the flush of the whole frame.
    ///
    /// While the panel is not ready the draw is refused: the frame buffer
    /// stays as it was and nothing goes to the bus. A bitmap that is
    /// larger than the panel is rejected: the frame buffer is left blank
    /// and nothing goes to the bus.
    pub fn show(&mut self, bitmap: &Bitmap) -> (result: Result<Vec<Command>, DisplayError>)
        ensures
            old(self)@.state != DisplayState::Ready ==> refused(result) && final(self)@ == old(
                self,
            )@,
            old(self)@.state == DisplayState::Ready ==> {
                &&& final(self)@.state == DisplayState::Ready
                &&& result is Ok <==> bitmap_fits(bitmap@, 0, 0)
                &&& result matches Err(e) ==> e == DisplayError::Geometry && final(self)@.frame
                    == blank_frame()
                &&& result matches Ok(script) ==> frame_pixels(final(self)@.frame) == blitted(
                    frame_pixels(blank_frame()),
                    bitmap@,
                    0,
                    0,
                ) && flushes(script@, final(self)@.frame)
            },
            bus_writes(issued(result)) == (if result is Ok {
                1nat
            } else {
                0nat
            }),
    {
        if self.state != DisplayState::Ready {
            return Err(DisplayError::NotReady);
        }
        self.frame.clear();
        match self.frame.draw_bitmap(bitmap, 0, 0) {
            Err(e) => Err(e),
            Ok(_) => Ok(self.flush_script()),
        }
    }

    /// Shows a grayscale image of any dimensions: normalizes it to a
    /// packed bitmap and shows that.
    ///
    /// While the panel is not ready the draw is refused, and an image
    /// without pixels is rejected: in both cases the frame buffer stays
    /// as it was and nothing goes to the bus. An image whose target
    /// dimensions exceed the panel is rejected: the frame buffer is left
    /// blank and nothing goes to the bus.
    pub fn show_dynamic_image(&mut self, image: &GrayImage) -> (result: Result<
        Vec<Command>,
        DisplayError,
    >)
        ensures
            old(self)@.state != DisplayState::Ready ==> refused(result) && final(self)@ == old(
                self,
            )@,
            old(self)@.state == DisplayState::Ready ==> {
                let width = target_dimension(image@.width);
                let height = target_dimension(image@.height);
                let empty = image@.width == 0 || image@.height == 0;
                let fits = width <= PANEL_WIDTH && height <= PANEL_HEIGHT;
                &&& final(self)@.state == DisplayState::Ready
                &&& result is Ok <==> !empty && fits
                &&& result matches Err(e) ==> if empty {
                    e == DisplayError::InvalidDimensions && final(self)@ == old(self)@
                } else {
                    e == DisplayError::Geometry && final(self)@.frame == blank_frame()
                }
                &&& result matches Ok(script) ==> frame_pixels(final(self)@.frame) == blitted(
                    frame_pixels(blank_frame()),
                    normalized(image@, width, height),
                    0,
                    0,
                ) && flushes(script@, final(self)@.frame)
            },
            bus_writes(issued(result)) == (if result is Ok {
                1nat
            } else {
                0nat
            }),
    {
        if self.state != DisplayState::Ready {
            return Err(DisplayError::NotReady);
        }
        let width: u32 = image.width();
        let height: u32 = image.height();
        if width == 0 || height == 0 {
            return Err(DisplayError::InvalidDimensions);
        }
        if width >= PANEL_WIDTH || height >= PANEL_HEIGHT {
            self.frame.clear();
            return Err(DisplayError::Geometry);
        }
        proof {
            lemma_product_bound(
                target_dimension(width as int),
                target_dimension(height as int),
                PANEL_WIDTH as int,
                PANEL_HEIGHT as int,
            );
        }
        match convert_dynamic_image_to_binary_raw(image) {
            Err(e) => Err(e),
            Ok(bitmap) => self.show(&bitmap),
        }
    }
}

/// Recovery: whatever the driver's state, a reset followed by the host's
/// report leaves the panel ready if the initialisation went through and
/// failed if it did not. The script of the reset holds the reset line low
/// for the length of the pulse and no longer, leaves it high whatever its
/// level was, and writes to the bus once.
pub proof fn lemma_reset_recovers(
    before: DisplayView,
    outcome: Result<(), TransportError>,
    line_high: bool,
)
    ensures
        ({
            let after = before.initializing().initialized(outcome);
            &&& after.state == DisplayState::Ready || after.state == DisplayState::Failed
            &&& after.state == DisplayState::Ready <==> outcome is Ok
            &&& after.frame == before.frame
        }),
        leaves_line_high(reset_script(), line_high),
        leaves_line_high(init_script(), line_high),
        low_millis_in(reset_script(), line_high, reset_script().len() as int) == RESET_PULSE_MS,
        RESET_PULSE_MS >= 10 && RESET_SETTLE_MS >= 1,
        bus_writes(reset_script()) == 1,
        bus_writes(init_script()) == 1,
{
    reveal_with_fuel(line_high_after, 8);
    reveal_with_fuel(low_millis_in, 8);
    reveal_with_fuel(bus_writes_in, 8);
    let script = reset_script();
    assert(script.len() == 7);
    assert(script[0] == Command::SetResetHigh);
    assert(script[1] == Command::DelayMs(RESET_SETTLE_MS));
    assert(script[2] == Command::SetResetLow);
    assert(script[3] == Command::DelayMs(RESET_PULSE_MS));
    assert(script[4] == Command::SetResetHigh);
    assert(script[5] == Command::SetResetHigh);
    assert(script[6] == Command::InitPanel);
}

} // verus!
