//! The ST7789 command protocol engine.

use self::instruction::Instruction;
use self::transaction::{
    error_of, lemma_run_stops_at_first_failure, run, spec_advance, steps_view, Failure, Progress,
    Step, StepView, Transaction, TransactionView,
};
use vstd::prelude::*;

pub mod geometry;
pub mod graphics;
pub mod instruction;
pub mod transaction;

verus! {

/// Display orientation.
///
/// Each value stands for one setting of the controller's memory access
/// control register (row/column inversion and row/column exchange).
#[derive(Copy, Clone, Debug, PartialEq, Eq, Structural)]
pub enum Orientation {
    /// No inversion.
    Portrait,
    /// Column order inverted, rows and columns exchanged.
    Landscape,
    /// Row and column order inverted.
    PortraitSwapped,
    /// Row order inverted, rows and columns exchanged.
    LandscapeSwapped,
}

impl Orientation {
    /// The byte written to the memory access control register.
    pub open spec fn spec_code(self) -> u8 {
        match self {
            Orientation::Portrait => 0x00,
            Orientation::Landscape => 0x60,
            Orientation::PortraitSwapped => 0xC0,
            Orientation::LandscapeSwapped => 0xA0,
        }
    }

    /// True for the two orientations whose addressable grid is 240 wide and
    /// 320 high.
    pub open spec fn is_portrait(self) -> bool {
        self == Orientation::Portrait || self == Orientation::PortraitSwapped
    }

    /// The byte written to the memory access control register.
    #[verifier::when_used_as_spec(spec_code)]
    pub fn code(self) -> (c: u8)
        ensures
            c == self.spec_code(),
    {
        match self {
            Orientation::Portrait => 0x00,
            Orientation::Landscape => 0x60,
            Orientation::PortraitSwapped => 0xC0,
            Orientation::LandscapeSwapped => 0xA0,
        }
    }
}

impl Default for Orientation {
    fn default() -> (o: Self)
        ensures
            o == Orientation::Portrait,
    {
        Orientation::Portrait
    }
}

/// Tearing effect output setting.
#[derive(Copy, Clone, Debug, PartialEq, Eq, Structural)]
pub enum TearingEffect {
    /// Disable output.
    Off,
    /// Output vertical blanking information.
    Vertical,
    /// Output horizontal and vertical blanking information.
    HorizontalAndVertical,
}

/// State of the panel's backlight.
#[derive(Copy, Clone, Debug, PartialEq, Eq, Structural)]
pub enum BacklightState {
    On,
    Off,
}

/// What went wrong while talking to the panel.
#[derive(Debug, PartialEq, Eq)]
pub enum Error<PinE> {
    /// A command or data transmission failed.
    DisplayError,
    /// The reset line could not be driven.
    Pin(PinE),
}

/// Whether a visible area of `size_x` by `size_y` pixels fits on the
/// controller's 240 by 320 pixel RAM grid, in one of the two ways the grid
/// can be scanned.
pub open spec fn spec_fits_panel(size_x: u16, size_y: u16) -> bool {
    (size_x <= 240 && size_y <= 320) || (size_x <= 320 && size_y <= 240)
}

/// Whether a visible area of `size_x` by `size_y` pixels fits on the
/// controller's RAM grid.
#[verifier::when_used_as_spec(spec_fits_panel)]
pub fn fits_panel(size_x: u16, size_y: u16) -> (fits: bool)
    ensures
        fits == spec_fits_panel(size_x, size_y),
{
    (size_x <= 240 && size_y <= 320) || (size_x <= 320 && size_y <= 240)
}

/// ST7789 driver.
///
/// The driver owns the communication channel `DI` and, where the panel has
/// one wired, the hardware reset line `RST`. It never drives either itself:
/// every operation is handed out as a [`Transaction`] whose steps the owner
/// performs on them, one at a time.
pub struct ST7789<DI, RST> {
    // Display interface
    di: DI,
    // Reset pin.
    rst: Option<RST>,
    // Visible size (x, y)
    size_x: u16,
    size_y: u16,
    // Current orientation
    orientation: Orientation,
}

impl<DI, RST> ST7789<DI, RST> {
    /// The communication channel the driver owns.
    pub closed spec fn spec_interface(&self) -> DI {
        self.di
    }

    /// The reset line the driver owns, if any.
    pub closed spec fn spec_reset_line(&self) -> Option<RST> {
        self.rst
    }

    /// Width and height of the visible area, in pixels.
    pub closed spec fn visible_size(&self) -> (u16, u16) {
        (self.size_x, self.size_y)
    }

    /// The orientation that was last written to the panel.
    pub closed spec fn spec_orientation(&self) -> Orientation {
        self.orientation
    }

    /// The visible area fits on the controller's RAM grid.
    pub open spec fn wf(&self) -> bool {
        fits_panel(self.visible_size().0, self.visible_size().1)
    }

    /// Creates a new driver instance.
    ///
    /// * `di` - a display interface for talking with the display
    /// * `rst` - display hard reset pin
    /// * `size_x` - x axis resolution of the display in pixels
    /// * `size_y` - y axis resolution of the display in pixels
    pub fn new(di: DI, rst: Option<RST>, size_x: u16, size_y: u16) -> (driver: Self)
        requires
            fits_panel(size_x, size_y),
        ensures
            driver.wf(),
            driver.spec_interface() == di,
            driver.spec_reset_line() == rst,
            driver.visible_size() == (size_x, size_y),
            driver.spec_orientation() == Orientation::Portrait,
    {
        Self { di, rst, size_x, size_y, orientation: Orientation::default() }
    }

    /// Returns currently set orientation.
    #[verifier::when_used_as_spec(spec_orientation)]
    pub fn orientation(&self) -> (o: Orientation)
        ensures
            o == self.spec_orientation(),
    {
        self.orientation
    }

    /// Release resources allocated to this driver back.
    /// This returns the display interface and the RST pin deconstructing the driver.
    pub fn release(self) -> (parts: (DI, Option<RST>))
        ensures
            parts.0 == self.spec_interface(),
            parts.1 == self.spec_reset_line(),
    {
        (self.di, self.rst)
    }
}

} // verus!

verus! {

/// The two bytes of `value`, high byte first.
pub open spec fn be_bytes(value: u16) -> Seq<u8> {
    seq![(value / 256) as u8, (value % 256) as u8]
}

/// The reset pulse: the line is driven high, low and high again, with a
/// pause of ten microseconds after each change. Without a reset line there
/// is nothing to do.
pub open spec fn reset_script(has_reset: bool) -> Seq<StepView> {
    if has_reset {
        seq![
            StepView::ResetHigh,
            StepView::DelayUs(10),
            StepView::ResetLow,
            StepView::DelayUs(10),
            StepView::ResetHigh,
            StepView::DelayUs(10),
        ]
    } else {
        Seq::empty()
    }
}

/// The instructions that bring the panel up after the reset pulse, with the
/// pauses the controller asks for.
pub open spec fn wake_script() -> Seq<StepView> {
    seq![
        StepView::Command(Instruction::SWRESET),
        StepView::DelayUs(150_000),
        StepView::Command(Instruction::SLPOUT),
        StepView::DelayUs(10_000),
        StepView::Command(Instruction::INVOFF),
        StepView::Command(Instruction::VSCRDER),
        StepView::Data(seq![0u8, 0u8, 0x14u8, 0u8, 0u8, 0u8]),
        StepView::Command(Instruction::MADCTL),
        StepView::Data(seq![0u8]),
        StepView::Command(Instruction::COLMOD),
        StepView::Data(seq![0x55u8]),
        StepView::Command(Instruction::INVON),
        StepView::DelayUs(10_000),
        StepView::Command(Instruction::NORON),
        StepView::DelayUs(10_000),
        StepView::Command(Instruction::DISPON),
        StepView::DelayUs(10_000),
    ]
}

/// Initialisation: the reset pulse, then the wake-up instructions.
pub open spec fn init_script(has_reset: bool) -> Seq<StepView> {
    reset_script(has_reset) + wake_script()
}

/// Writing an orientation to the memory access control register.
pub open spec fn orientation_script(orientation: Orientation) -> Seq<StepView> {
    seq![StepView::Command(Instruction::MADCTL), StepView::Data(seq![orientation.spec_code()])]
}

/// Selecting the window of columns `sx..=ex` and rows `sy..=ey`.
pub open spec fn window_script(sx: u16, sy: u16, ex: u16, ey: u16) -> Seq<StepView> {
    seq![
        StepView::Command(Instruction::CASET),
        StepView::Data(be_bytes(sx)),
        StepView::Data(be_bytes(ex)),
        StepView::Command(Instruction::RASET),
        StepView::Data(be_bytes(sy)),
        StepView::Data(be_bytes(ey)),
    ]
}

/// Streaming `colors` into the window of columns `sx..=ex` and rows
/// `sy..=ey`.
pub open spec fn pixels_script(sx: u16, sy: u16, ex: u16, ey: u16, colors: Seq<u16>) -> Seq<
    StepView,
> {
    window_script(sx, sy, ex, ey) + seq![
        StepView::Command(Instruction::RAMWR),
        StepView::Pixels(colors),
    ]
}

/// Setting the vertical scroll start address.
pub open spec fn scroll_script(offset: u16) -> Seq<StepView> {
    seq![StepView::Command(Instruction::VSCAD), StepView::Data(be_bytes(offset))]
}

/// Configuring the tearing effect output.
pub open spec fn tearing_script(tearing_effect: TearingEffect) -> Seq<StepView> {
    match tearing_effect {
        TearingEffect::Off => seq![StepView::Command(Instruction::TEOFF)],
        TearingEffect::Vertical => seq![
            StepView::Command(Instruction::TEON),
            StepView::Data(seq![0u8]),
        ],
        TearingEffect::HorizontalAndVertical => seq![
            StepView::Command(Instruction::TEON),
            StepView::Data(seq![1u8]),
        ],
    }
}

/// The two bytes of `value`, high byte first.
fn to_be_bytes(value: u16) -> (bytes: Vec<u8>)
    ensures
        bytes@ == be_bytes(value),
{
    let mut bytes: Vec<u8> = Vec::new();
    bytes.push((value / 256) as u8);
    bytes.push((value % 256) as u8);
    assert(bytes@ =~= be_bytes(value));
    bytes
}

/// The step that sends `command`.
fn write_command(command: Instruction) -> (step: Step)
    ensures
        step@ == StepView::Command(command),
{
    Step::Command(command)
}

/// The step that sends `data`.
fn write_data(data: Vec<u8>) -> (step: Step)
    ensures
        step@ == StepView::Data(data@),
{
    Step::Data(data)
}

/// Appends to `steps` the steps that select the window of columns `sx..=ex`
/// and rows `sy..=ey`. The coordinates are sent as they are given.
fn set_address_window(steps: &mut Vec<Step>, sx: u16, sy: u16, ex: u16, ey: u16)
    ensures
        steps_view(final(steps)@) == steps_view(old(steps)@) + window_script(sx, sy, ex, ey),
{
    let ghost before = steps_view(steps@);
    steps.push(write_command(Instruction::CASET));
    steps.push(write_data(to_be_bytes(sx)));
    steps.push(write_data(to_be_bytes(ex)));
    steps.push(write_command(Instruction::RASET));
    steps.push(write_data(to_be_bytes(sy)));
    steps.push(write_data(to_be_bytes(ey)));
    assert(steps_view(steps@) =~= before + window_script(sx, sy, ex, ey));
}

/// Appends the reset pulse to `steps` where there is a reset line.
fn push_reset(steps: &mut Vec<Step>, has_reset: bool)
    ensures
        steps_view(final(steps)@) == steps_view(old(steps)@) + reset_script(has_reset),
{
    let ghost before = steps_view(steps@);
    if has_reset {
        steps.push(Step::ResetHigh);
        steps.push(Step::DelayUs(10));  // ensure the pin change will get registered
        steps.push(Step::ResetLow);
        steps.push(Step::DelayUs(10));  // ensure the pin change will get registered
        steps.push(Step::ResetHigh);
        steps.push(Step::DelayUs(10));  // ensure the pin change will get registered
    }
    assert(steps_view(steps@) =~= before + reset_script(has_reset));
}

/// A vector that holds the given bytes.
fn bytes1(a: u8) -> (bytes: Vec<u8>)
    ensures
        bytes@ == seq![a],
{
    let mut bytes: Vec<u8> = Vec::new();
    bytes.push(a);
    assert(bytes@ =~= seq![a]);
    bytes
}

impl<DI, RST> ST7789<DI, RST> {
    /// Whether the driver owns a reset line.
    pub open spec fn has_reset(&self) -> bool {
        self.spec_reset_line() is Some
    }

    /// The operation that initialises the display: the reset pulse where a
    /// reset line is there, then software reset, sleep out, inversion off,
    /// scroll area, memory access control for the default orientation,
    /// 16 bit colour, inversion on, normal mode and display on, each
    /// followed by the pause the controller needs.
    pub fn init(&self) -> (txn: Transaction)
        ensures
            txn@ == (TransactionView { steps: init_script(self.has_reset()), commit: None }),
    {
        let mut steps: Vec<Step> = Vec::new();
        assert(steps_view(steps@) =~= Seq::empty());
        push_reset(&mut steps, self.rst.is_some());
        let ghost reset = steps_view(steps@);
        assert(reset =~= reset_script(self.has_reset()));
        steps.push(write_command(Instruction::SWRESET));  // reset display
        steps.push(Step::DelayUs(150_000));
        steps.push(write_command(Instruction::SLPOUT));  // turn off sleep
        steps.push(Step::DelayUs(10_000));
        steps.push(write_command(Instruction::INVOFF));  // turn off invert
        steps.push(write_command(Instruction::VSCRDER));  // vertical scroll definition
        let mut scroll_area: Vec<u8> = Vec::new();
        scroll_area.push(0);
        scroll_area.push(0);
        scroll_area.push(0x14);
        scroll_area.push(0);
        scroll_area.push(0);
        scroll_area.push(0);
        assert(scroll_area@ =~= seq![0u8, 0u8, 0x14u8, 0u8, 0u8, 0u8]);
        steps.push(write_data(scroll_area));
        steps.push(write_command(Instruction::MADCTL));  // left -> right, bottom -> top RGB
        steps.push(write_data(bytes1(0b0000_0000)));
        steps.push(write_command(Instruction::COLMOD));  // 16bit 65k colors
        steps.push(write_data(bytes1(0b0101_0101)));
        steps.push(write_command(Instruction::INVON));
        steps.push(Step::DelayUs(10_000));
        steps.push(write_command(Instruction::NORON));  // turn on display
        steps.push(Step::DelayUs(10_000));
        steps.push(write_command(Instruction::DISPON));  // turn on display
        steps.push(Step::DelayUs(10_000));
        assert(steps_view(steps@) =~= reset + wake_script());
        Transaction::new(steps, None)
    }

    /// The operation that performs a hard reset using the RST pin sequence.
    /// It has no step where the driver owns no reset line.
    pub fn hard_reset(&self) -> (txn: Transaction)
        ensures
            txn@ == (TransactionView { steps: reset_script(self.has_reset()), commit: None }),
    {
        let mut steps: Vec<Step> = Vec::new();
        assert(steps_view(steps@) =~= Seq::empty());
        push_reset(&mut steps, self.rst.is_some());
        assert(steps_view(steps@) =~= reset_script(self.has_reset()));
        Transaction::new(steps, None)
    }

    /// The operation that sets the display orientation. The driver records
    /// the new orientation when the operation has ended in success, and not
    /// before.
    pub fn set_orientation(&self, orientation: Orientation) -> (txn: Transaction)
        ensures
            txn@ == (TransactionView {
                steps: orientation_script(orientation),
                commit: Some(orientation),
            }),
    {
        let mut steps: Vec<Step> = Vec::new();
        steps.push(write_command(Instruction::MADCTL));
        steps.push(write_data(bytes1(orientation.code())));
        assert(steps_view(steps@) =~= orientation_script(orientation));
        Transaction::new(steps, Some(orientation))
    }

    /// The operation that sets a pixel color at the given coords.
    ///
    /// * `x` - x coordinate
    /// * `y` - y coordinate
    /// * `color` - the Rgb565 color value
    pub fn set_pixel(&self, x: u16, y: u16, color: u16) -> (txn: Transaction)
        ensures
            txn@ == (TransactionView {
                steps: pixels_script(x, y, x, y, seq![color]),
                commit: None,
            }),
    {
        let mut colors: Vec<u16> = Vec::new();
        colors.push(color);
        assert(colors@ =~= seq![color]);
        self.set_pixels(x, y, x, y, colors)
    }

    /// The operation that sets pixel colors in given rectangle bounds.
    ///
    /// * `sx` - x coordinate start
    /// * `sy` - y coordinate start
    /// * `ex` - x coordinate end
    /// * `ey` - y coordinate end
    /// * `colors` - the pixel data, row by row
    pub fn set_pixels(&self, sx: u16, sy: u16, ex: u16, ey: u16, colors: Vec<u16>) -> (txn:
        Transaction)
        ensures
            txn@ == (TransactionView {
                steps: pixels_script(sx, sy, ex, ey, colors@),
                commit: None,
            }),
    {
        let mut steps: Vec<Step> = Vec::new();
        assert(steps_view(steps@) =~= Seq::empty());
        set_address_window(&mut steps, sx, sy, ex, ey);
        let ghost window = steps_view(steps@);
        assert(window =~= window_script(sx, sy, ex, ey));
        steps.push(write_command(Instruction::RAMWR));
        steps.push(Step::Pixels(colors));
        assert(steps_view(steps@) =~= pixels_script(sx, sy, ex, ey, colors@));
        Transaction::new(steps, None)
    }

    /// The operation that sets the scroll offset, "shifting" the displayed
    /// picture.
    ///
    /// * `offset` - scroll offset in pixels
    pub fn set_scroll_offset(&self, offset: u16) -> (txn: Transaction)
        ensures
            txn@ == (TransactionView { steps: scroll_script(offset), commit: None }),
    {
        let mut steps: Vec<Step> = Vec::new();
        steps.push(write_command(Instruction::VSCAD));
        steps.push(write_data(to_be_bytes(offset)));
        assert(steps_view(steps@) =~= scroll_script(offset));
        Transaction::new(steps, None)
    }

    /// The operation that configures the tearing effect output.
    pub fn set_tearing_effect(&self, tearing_effect: TearingEffect) -> (txn: Transaction)
        ensures
            txn@ == (TransactionView { steps: tearing_script(tearing_effect), commit: None }),
    {
        let mut steps: Vec<Step> = Vec::new();
        match tearing_effect {
            TearingEffect::Off => {
                steps.push(write_command(Instruction::TEOFF));
            },
            TearingEffect::Vertical => {
                steps.push(write_command(Instruction::TEON));
                steps.push(write_data(bytes1(0)));
            },
            TearingEffect::HorizontalAndVertical => {
                steps.push(write_command(Instruction::TEON));
                steps.push(write_data(bytes1(1)));
            },
        }
        assert(steps_view(steps@) =~= tearing_script(tearing_effect));
        Transaction::new(steps, None)
    }

    /// Moves an operation on by one step.
    ///
    /// `last` is the outcome of the step that was handed out before, and
    /// `Ok(())` for a transaction that was just made. After a failure no
    /// further step is handed out: the operation ends with the error for
    /// that failure. When no step is left the operation ends in success, and
    /// the orientation it was to set is recorded.
    pub fn advance<PinE>(&mut self, txn: Transaction, last: Result<(), Failure<PinE>>) -> (next:
        Progress<PinE>)
        ensures
            (final(self).spec_orientation(), next@) == spec_advance(
                old(self).spec_orientation(),
                txn@,
                last,
            ),
            final(self).spec_interface() == old(self).spec_interface(),
            final(self).spec_reset_line() == old(self).spec_reset_line(),
            final(self).visible_size() == old(self).visible_size(),
    {
        match last {
            Err(Failure::Bus) => Progress::Finished(Err(Error::DisplayError)),
            Err(Failure::Pin(e)) => Progress::Finished(Err(Error::Pin(e))),
            Ok(_) => match txn.take() {
                Ok((step, rest)) => Progress::Perform(step, rest),
                Err(commit) => {
                    match commit {
                        Some(orientation) => {
                            self.orientation = orientation;
                        },
                        None => {},
                    }
                    Progress::Finished(Ok(()))
                },
            },
        }
    }

    /// The communication channel, for performing a step on it.
    pub fn interface(&mut self) -> (di: &mut DI)
        ensures
            *di == old(self).spec_interface(),
            final(self).spec_interface() == *final(di),
            final(self).spec_reset_line() == old(self).spec_reset_line(),
            final(self).visible_size() == old(self).visible_size(),
            final(self).spec_orientation() == old(self).spec_orientation(),
    {
        &mut self.di
    }

    /// The reset line, if the driver owns one, for performing a step on it.
    pub fn reset_line(&mut self) -> (rst: Option<&mut RST>)
        ensures
            match old(self).spec_reset_line() {
                None => rst is None && final(self).spec_reset_line() is None,
                Some(line) => rst is Some && *rst.unwrap() == line && final(self).spec_reset_line()
                    == Some(*final(rst.unwrap())),
            },
            final(self).spec_interface() == old(self).spec_interface(),
            final(self).visible_size() == old(self).visible_size(),
            final(self).spec_orientation() == old(self).spec_orientation(),
    {
        self.rst.as_mut()
    }
}

} // verus!

verus! {

/// Initialisation issues the steps of [`init_script`] in their order, pauses
/// included, and nothing after a step that failed.
///
/// Where the step handed out as number `k` is the first to fail, the steps
/// handed out are exactly the first `k + 1` of the script and the operation
/// ends with the error for that failure; where no step fails, the whole
/// script is handed out and the operation ends in success. The orientation
/// on record is the same before and after in both cases.
pub proof fn lemma_init_sequence<PinE>(
    orientation: Orientation,
    has_reset: bool,
    reports: Seq<Result<(), Failure<PinE>>>,
    k: int,
)
    requires
        0 <= k <= init_script(has_reset).len() <= reports.len(),
        forall|j: int| 0 <= j < k ==> (#[trigger] reports[j]) is Ok,
        k < init_script(has_reset).len() ==> reports[k] is Err,
    ensures
        ({
            let txn = TransactionView { steps: init_script(has_reset), commit: None };
            let outcome = run(orientation, txn, reports);
            &&& outcome.orientation == orientation
            &&& k < init_script(has_reset).len() ==> outcome.issued == init_script(has_reset).take(
                k + 1,
            ) && outcome.result == Err::<(), Error<PinE>>(error_of(reports[k]->Err_0))
            &&& k == init_script(has_reset).len() ==> outcome.issued == init_script(has_reset)
                && outcome.result == Ok::<(), Error<PinE>>(())
        }),
{
    let txn = TransactionView { steps: init_script(has_reset), commit: None };
    lemma_run_stops_at_first_failure(orientation, txn, reports, k);
}

/// A change of orientation takes effect in the driver only after both of
/// its transmissions succeeded.
///
/// Where the command or its data byte fails, the orientation on record is
/// the one from before and the operation ends with the error for that
/// failure; where both succeed, it is the new one.
pub proof fn lemma_orientation_follows_hardware<PinE>(
    before: Orientation,
    wanted: Orientation,
    reports: Seq<Result<(), Failure<PinE>>>,
)
    requires
        reports.len() >= 2,
    ensures
        ({
            let txn = TransactionView {
                steps: orientation_script(wanted),
                commit: Some(wanted),
            };
            let outcome = run(before, txn, reports);
            &&& reports[0] is Ok && reports[1] is Ok ==> outcome.orientation == wanted
                && outcome.result == Ok::<(), Error<PinE>>(()) && outcome.issued
                == orientation_script(wanted)
            &&& reports[0] is Err ==> outcome.orientation == before && outcome.result == Err::<
                (),
                Error<PinE>,
            >(error_of(reports[0]->Err_0)) && outcome.issued == orientation_script(wanted).take(1)
            &&& reports[0] is Ok && reports[1] is Err ==> outcome.orientation == before
                && outcome.result == Err::<(), Error<PinE>>(error_of(reports[1]->Err_0))
                && outcome.issued == orientation_script(wanted)
        }),
{
    let txn = TransactionView { steps: orientation_script(wanted), commit: Some(wanted) };
    if reports[0] is Err {
        lemma_run_stops_at_first_failure(before, txn, reports, 0);
    } else if reports[1] is Err {
        lemma_run_stops_at_first_failure(before, txn, reports, 1);
        assert(txn.steps.take(2) =~= txn.steps);
    } else {
        lemma_run_stops_at_first_failure(before, txn, reports, 2);
    }
}

} // verus!
