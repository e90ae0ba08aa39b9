//! UI2 window options: size limits, resize and scrollbar behaviour, and the
//! HTML/CSS description kept beside each window.

use vstd::prelude::*;
use crate::text;

verus! {

#[derive(Debug, Clone, Copy, PartialEq, Eq, Structural)]
pub struct Ui2Size {
    pub width: u32,
    pub height: u32,
}

impl Ui2Size {
    pub fn new(width: u32, height: u32) -> (s: Self)
        ensures
            s.width == width,
            s.height == height,
    {
        Self { width, height }
    }
}

impl Default for Ui2Size {
    fn default() -> (s: Self)
        ensures
            s.width == 0,
            s.height == 0,
    {
        Self { width: 0, height: 0 }
    }
}

#[derive(Debug, Clone, Copy, PartialEq, Eq, Structural)]
pub enum Ui2ResizeMode {
    /// Not resizable (serialized as `none`).
    Fixed,
    Width,
    Height,
    Both,
}

pub open spec fn resize_mode_text(m: Ui2ResizeMode) -> Seq<char> {
    match m {
        Ui2ResizeMode::Fixed => "none"@,
        Ui2ResizeMode::Width => "width"@,
        Ui2ResizeMode::Height => "height"@,
        Ui2ResizeMode::Both => "both"@,
    }
}

impl Ui2ResizeMode {
    pub fn as_str(self) -> (s: &'static str)
        ensures
            s@ == resize_mode_text(self),
    {
        match self {
            Self::Fixed => "none",
            Self::Width => "width",
            Self::Height => "height",
            Self::Both => "both",
        }
    }

    /// The values a resize-mode selector offers, in declaration order.
    pub fn options() -> (v: Vec<String>)
        ensures
            text::strings_view(v@) == seq!["none"@, "width"@, "height"@, "both"@],
    {
        let v = vec![text::owned("none"), text::owned("width"), text::owned("height"), text::owned("both")];
        proof {
            assert(text::strings_view(v@) =~= seq!["none"@, "width"@, "height"@, "both"@]);
        }
        v
    }
}

impl Default for Ui2ResizeMode {
    fn default() -> (m: Self)
        ensures
            m == Ui2ResizeMode::Both,
    {
        Self::Both
    }
}

#[derive(Debug, Clone, Copy, PartialEq, Eq, Structural)]
pub enum Ui2ScrollbarMode {
    /// No scrollbars (serialized as `none`).
    Off,
    Horizontal,
    Vertical,
    Both,
    Auto,
}

pub open spec fn scrollbar_mode_text(m: Ui2ScrollbarMode) -> Seq<char> {
    match m {
        Ui2ScrollbarMode::Off => "none"@,
        Ui2ScrollbarMode::Horizontal => "horizontal"@,
        Ui2ScrollbarMode::Vertical => "vertical"@,
        Ui2ScrollbarMode::Both => "both"@,
        Ui2ScrollbarMode::Auto => "auto"@,
    }
}

impl Ui2ScrollbarMode {
    pub fn as_str(self) -> (s: &'static str)
        ensures
            s@ == scrollbar_mode_text(self),
    {
        match self {
            Self::Off => "none",
            Self::Horizontal => "horizontal",
            Self::Vertical => "vertical",
            Self::Both => "both",
            Self::Auto => "auto",
        }
    }

    pub fn options() -> (v: Vec<String>)
        ensures
            text::strings_view(v@) == seq![
                "none"@,
                "horizontal"@,
                "vertical"@,
                "both"@,
                "auto"@,
            ],
    {
        let v = vec![
            text::owned("none"),
            text::owned("horizontal"),
            text::owned("vertical"),
            text::owned("both"),
            text::owned("auto"),
        ];
        proof {
            assert(text::strings_view(v@) =~= seq![
                "none"@,
                "horizontal"@,
                "vertical"@,
                "both"@,
                "auto"@,
            ]);
        }
        v
    }

    /// A horizontal scrollbar shows in the horizontal, both and auto modes.
    pub fn horizontal_visible(self) -> (b: bool)
        ensures
            b == (self == Ui2ScrollbarMode::Horizontal || self == Ui2ScrollbarMode::Both || self
                == Ui2ScrollbarMode::Auto),
    {
        matches!(self, Self::Horizontal | Self::Both | Self::Auto)
    }

    /// A vertical scrollbar shows in the vertical, both and auto modes.
    pub fn vertical_visible(self) -> (b: bool)
        ensures
            b == (self == Ui2ScrollbarMode::Vertical || self == Ui2ScrollbarMode::Both || self
                == Ui2ScrollbarMode::Auto),
    {
        matches!(self, Self::Vertical | Self::Both | Self::Auto)
    }
}

impl Default for Ui2ScrollbarMode {
    fn default() -> (m: Self)
        ensures
            m == Ui2ScrollbarMode::Off,
    {
        Self::Off
    }
}

#[derive(Debug, Clone, Copy, PartialEq, Eq, Structural)]
pub enum Ui2VerticalScrollbarSide {
    Left,
    Right,
}

impl Ui2VerticalScrollbarSide {
    pub fn as_str(self) -> (s: &'static str)
        ensures
            s@ == (match self {
                Ui2VerticalScrollbarSide::Left => "left"@,
                Ui2VerticalScrollbarSide::Right => "right"@,
            }),
    {
        match self {
            Self::Left => "left",
            Self::Right => "right",
        }
    }

    /// The name of the matching `vui2::VerticalScrollbarSide` variant.
    pub fn vui2_variant(self) -> (s: &'static str)
        ensures
            s@ == (match self {
                Ui2VerticalScrollbarSide::Left => "Left"@,
                Ui2VerticalScrollbarSide::Right => "Right"@,
            }),
    {
        match self {
            Self::Left => "Left",
            Self::Right => "Right",
        }
    }

    pub fn options() -> (v: Vec<String>)
        ensures
            text::strings_view(v@) == seq!["left"@, "right"@],
    {
        let v = vec![text::owned("left"), text::owned("right")];
        proof {
            assert(text::strings_view(v@) =~= seq!["left"@, "right"@]);
        }
        v
    }
}

impl Default for Ui2VerticalScrollbarSide {
    fn default() -> (s: Self)
        ensures
            s == Ui2VerticalScrollbarSide::Left,
    {
        Self::Left
    }
}

#[derive(Debug, Clone, Copy, PartialEq, Eq, Structural)]
pub enum Ui2HorizontalScrollbarSide {
    Top,
    Bottom,
}

impl Ui2HorizontalScrollbarSide {
    pub fn as_str(self) -> (s: &'static str)
        ensures
            s@ == (match self {
                Ui2HorizontalScrollbarSide::Top => "top"@,
                Ui2HorizontalScrollbarSide::Bottom => "bottom"@,
            }),
    {
        match self {
            Self::Top => "top",
            Self::Bottom => "bottom",
        }
    }

    /// The name of the matching `vui2::HorizontalScrollbarSide` variant.
    pub fn vui2_variant(self) -> (s: &'static str)
        ensures
            s@ == (match self {
                Ui2HorizontalScrollbarSide::Top => "Top"@,
                Ui2HorizontalScrollbarSide::Bottom => "Bottom"@,
            }),
    {
        match self {
            Self::Top => "Top",
            Self::Bottom => "Bottom",
        }
    }

    pub fn options() -> (v: Vec<String>)
        ensures
            text::strings_view(v@) == seq!["top"@, "bottom"@],
    {
        let v = vec![text::owned("top"), text::owned("bottom")];
        proof {
            assert(text::strings_view(v@) =~= seq!["top"@, "bottom"@]);
        }
        v
    }
}

impl Default for Ui2HorizontalScrollbarSide {
    fn default() -> (s: Self)
        ensures
            s == Ui2HorizontalScrollbarSide::Bottom,
    {
        Self::Bottom
    }
}

#[derive(Debug, Clone, Copy, PartialEq, Eq, Structural)]
pub struct Ui2WindowOptions {
    pub min_size: Ui2Size,
    pub max_size: Option<Ui2Size>,
    pub resize_mode: Ui2ResizeMode,
    pub scrollbars: Ui2ScrollbarMode,
    pub vertical_scrollbar_side: Ui2VerticalScrollbarSide,
    pub horizontal_scrollbar_side: Ui2HorizontalScrollbarSide,
    pub hit_test_visible: bool,
    pub preserve_scale: bool,
}

/// The options a window has when nothing else is said: at least 320x240, no
/// maximum, resizable both ways, no scrollbars (left and bottom when shown),
/// hit-testable, not scale-preserving.
pub open spec fn default_window_options() -> Ui2WindowOptions {
    Ui2WindowOptions {
        min_size: Ui2Size { width: 320, height: 240 },
        max_size: None,
        resize_mode: Ui2ResizeMode::Both,
        scrollbars: Ui2ScrollbarMode::Off,
        vertical_scrollbar_side: Ui2VerticalScrollbarSide::Left,
        horizontal_scrollbar_side: Ui2HorizontalScrollbarSide::Bottom,
        hit_test_visible: true,
        preserve_scale: false,
    }
}

impl Default for Ui2WindowOptions {
    fn default() -> (o: Self)
        ensures
            o == default_window_options(),
    {
        Self {
            min_size: Ui2Size::new(320, 240),
            max_size: None,
            resize_mode: Ui2ResizeMode::Both,
            scrollbars: Ui2ScrollbarMode::Off,
            vertical_scrollbar_side: Ui2VerticalScrollbarSide::Left,
            horizontal_scrollbar_side: Ui2HorizontalScrollbarSide::Bottom,
            hit_test_visible: true,
            preserve_scale: false,
        }
    }
}

#[derive(Debug, Clone, PartialEq, Eq)]
pub struct Ui2HtmlCssDescription {
    pub html: String,
    pub css: String,
}

pub open spec fn default_description_html() -> Seq<char> {
    "<main class=\"ui2-window\" data-layout=\"absolute\"><section class=\"ui2-surface\"></section></main>"@
}

pub open spec fn default_description_css() -> Seq<char> {
    ".ui2-window { position: relative; width: 100%; height: 100%; overflow: hidden; }\n.ui2-surface { position: relative; min-width: 100%; min-height: 100%; }\n"@
}

impl Default for Ui2HtmlCssDescription {
    fn default() -> (d: Self)
        ensures
            d.html@ == default_description_html(),
            d.css@ == default_description_css(),
    {
        Self {
            html: text::owned(
                "<main class=\"ui2-window\" data-layout=\"absolute\"><section class=\"ui2-surface\"></section></main>",
            ),
            css: text::owned(
                ".ui2-window { position: relative; width: 100%; height: 100%; overflow: hidden; }\n.ui2-surface { position: relative; min-width: 100%; min-height: 100%; }\n",
            ),
        }
    }
}

impl Ui2HtmlCssDescription {
    /// A copy holding the same HTML and CSS.
    pub fn duplicate(&self) -> (d: Self)
        ensures
            d.html@ == self.html@,
            d.css@ == self.css@,
    {
        Self { html: self.html.clone(), css: self.css.clone() }
    }
}

} // verus!
