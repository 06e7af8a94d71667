//! Types of the swaybar protocol, as the bar and its blocks see them.
use vstd::prelude::*;

use crate::text::{ascii_eq_ignore_case, eq_ignore_ascii_case_spec, opt_text_view};

verus! {

/// Operating system signals that the bar and its blocks can listen for.
#[derive(Clone, Copy, Debug, PartialEq, Eq, Hash, Structural)]
pub enum Signal {
    SigAlrm,
    SigChld,
    SigCont,
    SigHup,
    SigInt,
    SigIo,
    SigPipe,
    SigQuit,
    SigStop,
    SigTerm,
    SigUsr1,
    SigUsr2,
    SigWinch,
}

/// The conventional upper-case name of each signal.
pub open spec fn signal_name_spec(s: Signal) -> Seq<char> {
    match s {
        Signal::SigAlrm => "SIGALRM"@,
        Signal::SigChld => "SIGCHLD"@,
        Signal::SigCont => "SIGCONT"@,
        Signal::SigHup => "SIGHUP"@,
        Signal::SigInt => "SIGINT"@,
        Signal::SigIo => "SIGIO"@,
        Signal::SigPipe => "SIGPIPE"@,
        Signal::SigQuit => "SIGQUIT"@,
        Signal::SigStop => "SIGSTOP"@,
        Signal::SigTerm => "SIGTERM"@,
        Signal::SigUsr1 => "SIGUSR1"@,
        Signal::SigUsr2 => "SIGUSR2"@,
        Signal::SigWinch => "SIGWINCH"@,
    }
}

impl Signal {
    /// The signal's name, such as `SIGCONT`, as it is written in
    /// configuration files and logs.
    pub fn name(self) -> (r: &'static str)
        ensures
            r@ == signal_name_spec(self),
    {
        match self {
            Signal::SigAlrm => "SIGALRM",
            Signal::SigChld => "SIGCHLD",
            Signal::SigCont => "SIGCONT",
            Signal::SigHup => "SIGHUP",
            Signal::SigInt => "SIGINT",
            Signal::SigIo => "SIGIO",
            Signal::SigPipe => "SIGPIPE",
            Signal::SigQuit => "SIGQUIT",
            Signal::SigStop => "SIGSTOP",
            Signal::SigTerm => "SIGTERM",
            Signal::SigUsr1 => "SIGUSR1",
            Signal::SigUsr2 => "SIGUSR2",
            Signal::SigWinch => "SIGWINCH",
        }
    }
}

/// Header object as defined in `swaybar-protocol(7)`.
#[derive(Clone, Copy, Debug, PartialEq, Eq, Hash, Structural)]
pub struct Header {
    /// "The protocol version to use. Currently, this must be 1"
    pub version: i32,
    /// "Whether to receive click event information to standard input"
    pub click_events: Option<bool>,
    /// "The signal that swaybar should send to continue processing"
    pub cont_signal: Option<Signal>,
    /// "The signal that swaybar should send to stop processing"
    pub stop_signal: Option<Signal>,
}

/// Default value of [`Header::version`].
pub const DEFAULT_VERSION: i32 = 1;

/// Default value of [`Header::cont_signal`].
pub const DEFAULT_CONT_SIG: Signal = Signal::SigCont;

/// Default value of [`Header::stop_signal`].
pub const DEFAULT_STOP_SIG: Signal = Signal::SigStop;

impl Header {
    /// The protocol version a header has when none is configured.
    pub fn default_version() -> (r: i32)
        ensures
            r == DEFAULT_VERSION,
    {
        DEFAULT_VERSION
    }

    /// The signal on which the bar reloads its configuration.
    pub fn effective_cont_signal(&self) -> (r: Signal)
        ensures
            r == (match self.cont_signal {
                Some(s) => s,
                None => DEFAULT_CONT_SIG,
            }),
    {
        match self.cont_signal {
            Some(s) => s,
            None => DEFAULT_CONT_SIG,
        }
    }

    /// The signal on which the bar shuts down.
    pub fn effective_stop_signal(&self) -> (r: Signal)
        ensures
            r == (match self.stop_signal {
                Some(s) => s,
                None => DEFAULT_STOP_SIG,
            }),
    {
        match self.stop_signal {
            Some(s) => s,
            None => DEFAULT_STOP_SIG,
        }
    }
}

impl Default for Header {
    fn default() -> (r: Header)
        ensures
            r == (Header {
                version: DEFAULT_VERSION,
                click_events: Some(false),
                cont_signal: Some(DEFAULT_CONT_SIG),
                stop_signal: Some(DEFAULT_STOP_SIG),
            }),
    {
        Header {
            version: DEFAULT_VERSION,
            click_events: Some(false),
            cont_signal: Some(DEFAULT_CONT_SIG),
            stop_signal: Some(DEFAULT_STOP_SIG),
        }
    }
}

/// Body alignment, as defined in `swaybar-protocol(7)`.
#[derive(Clone, Copy, Debug, PartialEq, Eq, Hash, Structural)]
pub enum Align {
    /// Left alignment
    Left,
    /// Right alignment
    Right,
    /// Center alignment
    Center,
}

/// The alignment that a line of text names, compared without regard to
/// ASCII case.
pub open spec fn align_of(s: Seq<char>) -> Option<Align> {
    if eq_ignore_ascii_case_spec(s, "left"@) {
        Some(Align::Left)
    } else if eq_ignore_ascii_case_spec(s, "right"@) {
        Some(Align::Right)
    } else if eq_ignore_ascii_case_spec(s, "center"@) {
        Some(Align::Center)
    } else {
        None
    }
}

impl Align {
    /// Reads an alignment: `left`, `right` or `center`, in any ASCII case.
    pub fn parse(s: &str) -> (r: Option<Align>)
        ensures
            r == align_of(s@),
    {
        if ascii_eq_ignore_case(s, "left") {
            Some(Align::Left)
        } else if ascii_eq_ignore_case(s, "right") {
            Some(Align::Right)
        } else if ascii_eq_ignore_case(s, "center") {
            Some(Align::Center)
        } else {
            None
        }
    }
}

impl core::str::FromStr for Align {
    type Err = ();

    fn from_str(s: &str) -> Result<Align, ()> {
        match Align::parse(s) {
            Some(a) => Ok(a),
            None => Err(()),
        }
    }
}

/// Body markup, as defined in `swaybar-protocol(7)`.
#[derive(Clone, Copy, Debug, PartialEq, Eq, Hash, Structural)]
pub enum Markup {
    /// Pango markup
    Pango,
    /// No markup, plain text
    Plain,
}

/// The markup that a line of text names, compared without regard to ASCII
/// case.
pub open spec fn markup_of(s: Seq<char>) -> Option<Markup> {
    if eq_ignore_ascii_case_spec(s, "pango"@) {
        Some(Markup::Pango)
    } else if eq_ignore_ascii_case_spec(s, "none"@) {
        Some(Markup::Plain)
    } else {
        None
    }
}

impl Markup {
    /// Reads a markup kind: `pango` or `none`, in any ASCII case.
    pub fn parse(s: &str) -> (r: Option<Markup>)
        ensures
            r == markup_of(s@),
    {
        if ascii_eq_ignore_case(s, "pango") {
            Some(Markup::Pango)
        } else if ascii_eq_ignore_case(s, "none") {
            Some(Markup::Plain)
        } else {
            None
        }
    }
}

impl core::str::FromStr for Markup {
    type Err = ();

    fn from_str(s: &str) -> Result<Markup, ()> {
        match Markup::parse(s) {
            Some(m) => Ok(m),
            None => Err(()),
        }
    }
}

/// Body element as defined in `swaybar-protocol(7)`: the display state of
/// one block.
#[derive(Clone, Debug, PartialEq, Eq, Hash)]
pub struct Body {
    /// "The text that will be displayed. If missing, the block will be skipped."
    pub full_text: Option<String>,
    /// "If given and the text needs to be shortened due to space, this will be
    /// displayed instead of `full_text`"
    pub short_text: Option<String>,
    /// "The text color to use in #RRGGBBAA or #RRGGBB notation"
    pub color: Option<String>,
    /// "The background color for the block in #RRGGBBAA or #RRGGBB notation"
    pub background: Option<String>,
    /// "The border color for the block in #RRGGBBAA or #RRGGBB notation"
    pub border: Option<String>,
    /// "The height in pixels of the top border. The default is 1"
    pub border_top: Option<u32>,
    /// "The height in pixels of the bottom border. The default is 1"
    pub border_bottom: Option<u32>,
    /// "The width in pixels of the left border. The default is 1"
    pub border_left: Option<u32>,
    /// "The width in pixels of the right border. The default is 1"
    pub border_right: Option<u32>,
    /// "The minimum width to use for the block."
    pub min_width: Option<String>,
    /// "how the text should be aligned inside of the block"
    pub align: Option<Align>,
    /// "A name for the block. This is only used to identify the block for
    /// click events."
    pub name: Option<String>,
    /// "The instance of the name for the block."
    pub instance: Option<String>,
    /// "Whether the block should be displayed as urgent."
    pub urgent: Option<bool>,
    /// "Whether the bar separator should be drawn after the block."
    pub separator: Option<bool>,
    /// "The amount of pixels to leave blank after the block."
    pub separator_block_width: Option<u32>,
    /// "The type of markup to use when parsing the text for the block."
    pub markup: Option<Markup>,
}

/// The mathematical model of a [`Body`]: its text fields as character
/// sequences.
pub struct BodyView {
    pub full_text: Option<Seq<char>>,
    pub short_text: Option<Seq<char>>,
    pub color: Option<Seq<char>>,
    pub background: Option<Seq<char>>,
    pub border: Option<Seq<char>>,
    pub border_top: Option<u32>,
    pub border_bottom: Option<u32>,
    pub border_left: Option<u32>,
    pub border_right: Option<u32>,
    pub min_width: Option<Seq<char>>,
    pub align: Option<Align>,
    pub name: Option<Seq<char>>,
    pub instance: Option<Seq<char>>,
    pub urgent: Option<bool>,
    pub separator: Option<bool>,
    pub separator_block_width: Option<u32>,
    pub markup: Option<Markup>,
}

impl View for Body {
    type V = BodyView;

    open spec fn view(&self) -> BodyView {
        BodyView {
            full_text: opt_text_view(self.full_text),
            short_text: opt_text_view(self.short_text),
            color: opt_text_view(self.color),
            background: opt_text_view(self.background),
            border: opt_text_view(self.border),
            border_top: self.border_top,
            border_bottom: self.border_bottom,
            border_left: self.border_left,
            border_right: self.border_right,
            min_width: opt_text_view(self.min_width),
            align: self.align,
            name: opt_text_view(self.name),
            instance: opt_text_view(self.instance),
            urgent: self.urgent,
            separator: self.separator,
            separator_block_width: self.separator_block_width,
            markup: self.markup,
        }
    }
}

/// A body with every field unset.
pub open spec fn blank_body() -> BodyView {
    BodyView {
        full_text: None,
        short_text: None,
        color: None,
        background: None,
        border: None,
        border_top: None,
        border_bottom: None,
        border_left: None,
        border_right: None,
        min_width: None,
        align: None,
        name: None,
        instance: None,
        urgent: None,
        separator: None,
        separator_block_width: None,
        markup: None,
    }
}

/// The body that the protocol describes as the defaults.
pub open spec fn protocol_default_body() -> BodyView {
    BodyView {
        border_top: Some(1),
        border_bottom: Some(1),
        border_left: Some(1),
        border_right: Some(1),
        align: Some(Align::Left),
        separator_block_width: Some(9),
        markup: Some(Markup::Plain),
        ..blank_body()
    }
}

impl Body {
    /// Returns a new [`Body`] with all optional fields blank.
    pub fn new() -> (r: Body)
        ensures
            r@ == blank_body(),
    {
        Body {
            full_text: None,
            short_text: None,
            color: None,
            background: None,
            border: None,
            border_top: None,
            border_bottom: None,
            border_left: None,
            border_right: None,
            min_width: None,
            align: None,
            name: None,
            instance: None,
            urgent: None,
            separator: None,
            separator_block_width: None,
            markup: None,
        }
    }
}

impl Default for Body {
    fn default() -> (r: Body)
        ensures
            r@ == protocol_default_body(),
    {
        Body {
            full_text: None,
            short_text: None,
            color: None,
            background: None,
            border: None,
            border_top: Some(1),
            border_bottom: Some(1),
            border_left: Some(1),
            border_right: Some(1),
            min_width: None,
            align: Some(Align::Left),
            name: None,
            instance: None,
            urgent: None,
            separator: None,
            separator_block_width: Some(9),
            markup: Some(Markup::Plain),
        }
    }
}

/// Click event, as defined in `swaybar-protocol(7)`.
#[derive(Clone, Debug, PartialEq, Eq, Hash)]
pub struct ClickEvent {
    /// "The name of the block, if set"
    pub name: Option<String>,
    /// "The instance of the block, if set"
    pub instance: Option<String>,
    /// "The x location that the click occurred at"
    pub x: i32,
    /// "The y location that the click occurred at"
    pub y: i32,
    /// "The x11 button number for the click."
    pub button: i32,
    /// "The event code that corresponds to the button for the click"
    pub event: i32,
    /// "The x location of the click relative to the top-left of the block"
    pub relative_x: i32,
    /// "The y location of the click relative to the top-left of the block"
    pub relative_y: i32,
    /// "The width of the block in pixels"
    pub width: u32,
    /// "The height of the block in pixels"
    pub height: u32,
}

} // verus!
