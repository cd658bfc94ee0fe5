//! The fluent builder API: anything that can be turned into a styled text
//! value, with sugar methods for every named color and attribute.

use vstd::prelude::*;

use crate::color::Color;
use crate::colored_string::ColoredString;
use crate::colored_string::StyledView;
use crate::customcolors::CustomColor;
use crate::hex::parse_hex;
use crate::hex::spec_parse_hex;
use crate::style::Styles;

verus! {

/// The trait that enables a value (a string slice or an already styled
/// text) to be given color and attributes through chainable calls.
///
/// Each call fills or replaces one slot of the result: foreground and
/// background take the last value written, attributes accumulate.
pub trait Colorize: Sized {
    /// The styled value this receiver stands for: its text and whatever
    /// slots it already carries.
    spec fn styled_view(self) -> StyledView;

    /// Sets or replaces the foreground color.
    fn color(self, color: Color) -> (r: ColoredString)
        ensures
            r@ == (StyledView { fg: Some(color), ..self.styled_view() }),
    ;

    /// Sets or replaces the background color.
    fn on_color(self, color: Color) -> (r: ColoredString)
        ensures
            r@ == (StyledView { bg: Some(color), ..self.styled_view() }),
    ;

    /// Drops every color and attribute, keeping only the text.
    fn clear(self) -> (r: ColoredString)
        ensures
            r@ == (StyledView {
                fg: None,
                bg: None,
                mask: 0,
                ..self.styled_view()
            }),
    ;

    /// Adds one attribute to the set, keeping everything else.
    fn style_flag(self, style: Styles) -> (r: ColoredString)
        ensures
            r@ == (StyledView {
                mask: self.styled_view().mask | style.spec_to_u8(),
                ..self.styled_view()
            }),
    ;

    /// Turns the receiver into a styled value without changing anything.
    fn do_nothing(self) -> (r: ColoredString)
        ensures
            r@ == self.styled_view(),
    ;

    fn black(self) -> (r: ColoredString)
        ensures
            r@ == (StyledView { fg: Some(Color::Black), ..self.styled_view() }),
    {
        self.color(Color::Black)
    }

    fn red(self) -> (r: ColoredString)
        ensures
            r@ == (StyledView { fg: Some(Color::Red), ..self.styled_view() }),
    {
        self.color(Color::Red)
    }

    fn green(self) -> (r: ColoredString)
        ensures
            r@ == (StyledView { fg: Some(Color::Green), ..self.styled_view() }),
    {
        self.color(Color::Green)
    }

    fn yellow(self) -> (r: ColoredString)
        ensures
            r@ == (StyledView { fg: Some(Color::Yellow), ..self.styled_view() }),
    {
        self.color(Color::Yellow)
    }

    fn blue(self) -> (r: ColoredString)
        ensures
            r@ == (StyledView { fg: Some(Color::Blue), ..self.styled_view() }),
    {
        self.color(Color::Blue)
    }

    fn magenta(self) -> (r: ColoredString)
        ensures
            r@ == (StyledView { fg: Some(Color::Magenta), ..self.styled_view() }),
    {
        self.color(Color::Magenta)
    }

    fn purple(self) -> (r: ColoredString)
        ensures
            r@ == (StyledView { fg: Some(Color::Magenta), ..self.styled_view() }),
    {
        self.color(Color::Magenta)
    }

    fn cyan(self) -> (r: ColoredString)
        ensures
            r@ == (StyledView { fg: Some(Color::Cyan), ..self.styled_view() }),
    {
        self.color(Color::Cyan)
    }

    fn white(self) -> (r: ColoredString)
        ensures
            r@ == (StyledView { fg: Some(Color::White), ..self.styled_view() }),
    {
        self.color(Color::White)
    }

    fn bright_black(self) -> (r: ColoredString)
        ensures
            r@ == (StyledView { fg: Some(Color::BrightBlack), ..self.styled_view() }),
    {
        self.color(Color::BrightBlack)
    }

    fn bright_red(self) -> (r: ColoredString)
        ensures
            r@ == (StyledView { fg: Some(Color::BrightRed), ..self.styled_view() }),
    {
        self.color(Color::BrightRed)
    }

    fn bright_green(self) -> (r: ColoredString)
        ensures
            r@ == (StyledView { fg: Some(Color::BrightGreen), ..self.styled_view() }),
    {
        self.color(Color::BrightGreen)
    }

    fn bright_yellow(self) -> (r: ColoredString)
        ensures
            r@ == (StyledView { fg: Some(Color::BrightYellow), ..self.styled_view() }),
    {
        self.color(Color::BrightYellow)
    }

    fn bright_blue(self) -> (r: ColoredString)
        ensures
            r@ == (StyledView { fg: Some(Color::BrightBlue), ..self.styled_view() }),
    {
        self.color(Color::BrightBlue)
    }

    fn bright_magenta(self) -> (r: ColoredString)
        ensures
            r@ == (StyledView { fg: Some(Color::BrightMagenta), ..self.styled_view() }),
    {
        self.color(Color::BrightMagenta)
    }

    fn bright_purple(self) -> (r: ColoredString)
        ensures
            r@ == (StyledView { fg: Some(Color::BrightMagenta), ..self.styled_view() }),
    {
        self.color(Color::BrightMagenta)
    }

    fn bright_cyan(self) -> (r: ColoredString)
        ensures
            r@ == (StyledView { fg: Some(Color::BrightCyan), ..self.styled_view() }),
    {
        self.color(Color::BrightCyan)
    }

    fn bright_white(self) -> (r: ColoredString)
        ensures
            r@ == (StyledView { fg: Some(Color::BrightWhite), ..self.styled_view() }),
    {
        self.color(Color::BrightWhite)
    }

    /// Applies the color only when `cond` holds; otherwise the receiver
    /// is left as it is.
    fn black_if(self, cond: bool) -> (r: ColoredString)
        ensures
            cond ==> r@ == (StyledView { fg: Some(Color::Black), ..self.styled_view() }),
            !cond ==> r@ == self.styled_view(),
    {
        if cond {
            self.color(Color::Black)
        } else {
            self.do_nothing()
        }
    }

    /// Applies the color only when `cond` holds; otherwise the receiver
    /// is left as it is.
    fn red_if(self, cond: bool) -> (r: ColoredString)
        ensures
            cond ==> r@ == (StyledView { fg: Some(Color::Red), ..self.styled_view() }),
            !cond ==> r@ == self.styled_view(),
    {
        if cond {
            self.color(Color::Red)
        } else {
            self.do_nothing()
        }
    }

    /// Applies the color only when `cond` holds; otherwise the receiver
    /// is left as it is.
    fn green_if(self, cond: bool) -> (r: ColoredString)
        ensures
            cond ==> r@ == (StyledView { fg: Some(Color::Green), ..self.styled_view() }),
            !cond ==> r@ == self.styled_view(),
    {
        if cond {
            self.color(Color::Green)
        } else {
            self.do_nothing()
        }
    }

    /// Applies the color only when `cond` holds; otherwise the receiver
    /// is left as it is.
    fn yellow_if(self, cond: bool) -> (r: ColoredString)
        ensures
            cond ==> r@ == (StyledView { fg: Some(Color::Yellow), ..self.styled_view() }),
            !cond ==> r@ == self.styled_view(),
    {
        if cond {
            self.color(Color::Yellow)
        } else {
            self.do_nothing()
        }
    }

    /// Applies the color only when `cond` holds; otherwise the receiver
    /// is left as it is.
    fn blue_if(self, cond: bool) -> (r: ColoredString)
        ensures
            cond ==> r@ == (StyledView { fg: Some(Color::Blue), ..self.styled_view() }),
            !cond ==> r@ == self.styled_view(),
    {
        if cond {
            self.color(Color::Blue)
        } else {
            self.do_nothing()
        }
    }

    /// Applies the color only when `cond` holds; otherwise the receiver
    /// is left as it is.
    fn magenta_if(self, cond: bool) -> (r: ColoredString)
        ensures
            cond ==> r@ == (StyledView { fg: Some(Color::Magenta), ..self.styled_view() }),
            !cond ==> r@ == self.styled_view(),
    {
        if cond {
            self.color(Color::Magenta)
        } else {
            self.do_nothing()
        }
    }

    /// Applies the color only when `cond` holds; otherwise the receiver
    /// is left as it is.
    fn purple_if(self, cond: bool) -> (r: ColoredString)
        ensures
            cond ==> r@ == (StyledView { fg: Some(Color::Magenta), ..self.styled_view() }),
            !cond ==> r@ == self.styled_view(),
    {
        if cond {
            self.color(Color::Magenta)
        } else {
            self.do_nothing()
        }
    }

    /// Applies the color only when `cond` holds; otherwise the receiver
    /// is left as it is.
    fn cyan_if(self, cond: bool) -> (r: ColoredString)
        ensures
            cond ==> r@ == (StyledView { fg: Some(Color::Cyan), ..self.styled_view() }),
            !cond ==> r@ == self.styled_view(),
    {
        if cond {
            self.color(Color::Cyan)
        } else {
            self.do_nothing()
        }
    }

    /// Applies the color only when `cond` holds; otherwise the receiver
    /// is left as it is.
    fn white_if(self, cond: bool) -> (r: ColoredString)
        ensures
            cond ==> r@ == (StyledView { fg: Some(Color::White), ..self.styled_view() }),
            !cond ==> r@ == self.styled_view(),
    {
        if cond {
            self.color(Color::White)
        } else {
            self.do_nothing()
        }
    }

    /// Applies the color only when `cond` holds; otherwise the receiver
    /// is left as it is.
    fn bright_black_if(self, cond: bool) -> (r: ColoredString)
        ensures
            cond ==> r@ == (StyledView { fg: Some(Color::BrightBlack), ..self.styled_view() }),
            !cond ==> r@ == self.styled_view(),
    {
        if cond {
            self.color(Color::BrightBlack)
        } else {
            self.do_nothing()
        }
    }

    /// Applies the color only when `cond` holds; otherwise the receiver
    /// is left as it is.
    fn bright_red_if(self, cond: bool) -> (r: ColoredString)
        ensures
            cond ==> r@ == (StyledView { fg: Some(Color::BrightRed), ..self.styled_view() }),
            !cond ==> r@ == self.styled_view(),
    {
        if cond {
            self.color(Color::BrightRed)
        } else {
            self.do_nothing()
        }
    }

    /// Applies the color only when `cond` holds; otherwise the receiver
    /// is left as it is.
    fn bright_green_if(self, cond: bool) -> (r: ColoredString)
        ensures
            cond ==> r@ == (StyledView { fg: Some(Color::BrightGreen), ..self.styled_view() }),
            !cond ==> r@ == self.styled_view(),
    {
        if cond {
            self.color(Color::BrightGreen)
        } else {
            self.do_nothing()
        }
    }

    /// Applies the color only when `cond` holds; otherwise the receiver
    /// is left as it is.
    fn bright_yellow_if(self, cond: bool) -> (r: ColoredString)
        ensures
            cond ==> r@ == (StyledView { fg: Some(Color::BrightYellow), ..self.styled_view() }),
            !cond ==> r@ == self.styled_view(),
    {
        if cond {
            self.color(Color::BrightYellow)
        } else {
            self.do_nothing()
        }
    }

    /// Applies the color only when `cond` holds; otherwise the receiver
    /// is left as it is.
    fn bright_blue_if(self, cond: bool) -> (r: ColoredString)
        ensures
            cond ==> r@ == (StyledView { fg: Some(Color::BrightBlue), ..self.styled_view() }),
            !cond ==> r@ == self.styled_view(),
    {
        if cond {
            self.color(Color::BrightBlue)
        } else {
            self.do_nothing()
        }
    }

    /// Applies the color only when `cond` holds; otherwise the receiver
    /// is left as it is.
    fn bright_magenta_if(self, cond: bool) -> (r: ColoredString)
        ensures
            cond ==> r@ == (StyledView { fg: Some(Color::BrightMagenta), ..self.styled_view() }),
            !cond ==> r@ == self.styled_view(),
    {
        if cond {
            self.color(Color::BrightMagenta)
        } else {
            self.do_nothing()
        }
    }

    /// Applies the color only when `cond` holds; otherwise the receiver
    /// is left as it is.
    fn bright_purple_if(self, cond: bool) -> (r: ColoredString)
        ensures
            cond ==> r@ == (StyledView { fg: Some(Color::BrightMagenta), ..self.styled_view() }),
            !cond ==> r@ == self.styled_view(),
    {
        if cond {
            self.color(Color::BrightMagenta)
        } else {
            self.do_nothing()
        }
    }

    /// Applies the color only when `cond` holds; otherwise the receiver
    /// is left as it is.
    fn bright_cyan_if(self, cond: bool) -> (r: ColoredString)
        ensures
            cond ==> r@ == (StyledView { fg: Some(Color::BrightCyan), ..self.styled_view() }),
            !cond ==> r@ == self.styled_view(),
    {
        if cond {
            self.color(Color::BrightCyan)
        } else {
            self.do_nothing()
        }
    }

    /// Applies the color only when `cond` holds; otherwise the receiver
    /// is left as it is.
    fn bright_white_if(self, cond: bool) -> (r: ColoredString)
        ensures
            cond ==> r@ == (StyledView { fg: Some(Color::BrightWhite), ..self.styled_view() }),
            !cond ==> r@ == self.styled_view(),
    {
        if cond {
            self.color(Color::BrightWhite)
        } else {
            self.do_nothing()
        }
    }

    fn on_black(self) -> (r: ColoredString)
        ensures
            r@ == (StyledView { bg: Some(Color::Black), ..self.styled_view() }),
    {
        self.on_color(Color::Black)
    }

    fn on_red(self) -> (r: ColoredString)
        ensures
            r@ == (StyledView { bg: Some(Color::Red), ..self.styled_view() }),
    {
        self.on_color(Color::Red)
    }

    fn on_green(self) -> (r: ColoredString)
        ensures
            r@ == (StyledView { bg: Some(Color::Green), ..self.styled_view() }),
    {
        self.on_color(Color::Green)
    }

    fn on_yellow(self) -> (r: ColoredString)
        ensures
            r@ == (StyledView { bg: Some(Color::Yellow), ..self.styled_view() }),
    {
        self.on_color(Color::Yellow)
    }

    fn on_blue(self) -> (r: ColoredString)
        ensures
            r@ == (StyledView { bg: Some(Color::Blue), ..self.styled_view() }),
    {
        self.on_color(Color::Blue)
    }

    fn on_magenta(self) -> (r: ColoredString)
        ensures
            r@ == (StyledView { bg: Some(Color::Magenta), ..self.styled_view() }),
    {
        self.on_color(Color::Magenta)
    }

    fn on_purple(self) -> (r: ColoredString)
        ensures
            r@ == (StyledView { bg: Some(Color::Magenta), ..self.styled_view() }),
    {
        self.on_color(Color::Magenta)
    }

    fn on_cyan(self) -> (r: ColoredString)
        ensures
            r@ == (StyledView { bg: Some(Color::Cyan), ..self.styled_view() }),
    {
        self.on_color(Color::Cyan)
    }

    fn on_white(self) -> (r: ColoredString)
        ensures
            r@ == (StyledView { bg: Some(Color::White), ..self.styled_view() }),
    {
        self.on_color(Color::White)
    }

    fn on_bright_black(self) -> (r: ColoredString)
        ensures
            r@ == (StyledView { bg: Some(Color::BrightBlack), ..self.styled_view() }),
    {
        self.on_color(Color::BrightBlack)
    }

    fn on_bright_red(self) -> (r: ColoredString)
        ensures
            r@ == (StyledView { bg: Some(Color::BrightRed), ..self.styled_view() }),
    {
        self.on_color(Color::BrightRed)
    }

    fn on_bright_green(self) -> (r: ColoredString)
        ensures
            r@ == (StyledView { bg: Some(Color::BrightGreen), ..self.styled_view() }),
    {
        self.on_color(Color::BrightGreen)
    }

    fn on_bright_yellow(self) -> (r: ColoredString)
        ensures
            r@ == (StyledView { bg: Some(Color::BrightYellow), ..self.styled_view() }),
    {
        self.on_color(Color::BrightYellow)
    }

    fn on_bright_blue(self) -> (r: ColoredString)
        ensures
            r@ == (StyledView { bg: Some(Color::BrightBlue), ..self.styled_view() }),
    {
        self.on_color(Color::BrightBlue)
    }

    fn on_bright_magenta(self) -> (r: ColoredString)
        ensures
            r@ == (StyledView { bg: Some(Color::BrightMagenta), ..self.styled_view() }),
    {
        self.on_color(Color::BrightMagenta)
    }

    fn on_bright_purple(self) -> (r: ColoredString)
        ensures
            r@ == (StyledView { bg: Some(Color::BrightMagenta), ..self.styled_view() }),
    {
        self.on_color(Color::BrightMagenta)
    }

    fn on_bright_cyan(self) -> (r: ColoredString)
        ensures
            r@ == (StyledView { bg: Some(Color::BrightCyan), ..self.styled_view() }),
    {
        self.on_color(Color::BrightCyan)
    }

    fn on_bright_white(self) -> (r: ColoredString)
        ensures
            r@ == (StyledView { bg: Some(Color::BrightWhite), ..self.styled_view() }),
    {
        self.on_color(Color::BrightWhite)
    }

    /// Applies the background color only when `cond` holds; otherwise the
    /// receiver is left as it is.
    fn on_black_if(self, cond: bool) -> (r: ColoredString)
        ensures
            cond ==> r@ == (StyledView { bg: Some(Color::Black), ..self.styled_view() }),
            !cond ==> r@ == self.styled_view(),
    {
        if cond {
            self.on_color(Color::Black)
        } else {
            self.do_nothing()
        }
    }

    /// Applies the background color only when `cond` holds; otherwise the
    /// receiver is left as it is.
    fn on_red_if(self, cond: bool) -> (r: ColoredString)
        ensures
            cond ==> r@ == (StyledView { bg: Some(Color::Red), ..self.styled_view() }),
            !cond ==> r@ == self.styled_view(),
    {
        if cond {
            self.on_color(Color::Red)
        } else {
            self.do_nothing()
        }
    }

    /// Applies the background color only when `cond` holds; otherwise the
    /// receiver is left as it is.
    fn on_green_if(self, cond: bool) -> (r: ColoredString)
        ensures
            cond ==> r@ == (StyledView { bg: Some(Color::Green), ..self.styled_view() }),
            !cond ==> r@ == self.styled_view(),
    {
        if cond {
            self.on_color(Color::Green)
        } else {
            self.do_nothing()
        }
    }

    /// Applies the background color only when `cond` holds; otherwise the
    /// receiver is left as it is.
    fn on_yellow_if(self, cond: bool) -> (r: ColoredString)
        ensures
            cond ==> r@ == (StyledView { bg: Some(Color::Yellow), ..self.styled_view() }),
            !cond ==> r@ == self.styled_view(),
    {
        if cond {
            self.on_color(Color::Yellow)
        } else {
            self.do_nothing()
        }
    }

    /// Applies the background color only when `cond` holds; otherwise the
    /// receiver is left as it is.
    fn on_blue_if(self, cond: bool) -> (r: ColoredString)
        ensures
            cond ==> r@ == (StyledView { bg: Some(Color::Blue), ..self.styled_view() }),
            !cond ==> r@ == self.styled_view(),
    {
        if cond {
            self.on_color(Color::Blue)
        } else {
            self.do_nothing()
        }
    }

    /// Applies the background color only when `cond` holds; otherwise the
    /// receiver is left as it is.
    fn on_magenta_if(self, cond: bool) -> (r: ColoredString)
        ensures
            cond ==> r@ == (StyledView { bg: Some(Color::Magenta), ..self.styled_view() }),
            !cond ==> r@ == self.styled_view(),
    {
        if cond {
            self.on_color(Color::Magenta)
        } else {
            self.do_nothing()
        }
    }

    /// Applies the background color only when `cond` holds; otherwise the
    /// receiver is left as it is.
    fn on_purple_if(self, cond: bool) -> (r: ColoredString)
        ensures
            cond ==> r@ == (StyledView { bg: Some(Color::Magenta), ..self.styled_view() }),
            !cond ==> r@ == self.styled_view(),
    {
        if cond {
            self.on_color(Color::Magenta)
        } else {
            self.do_nothing()
        }
    }

    /// Applies the background color only when `cond` holds; otherwise the
    /// receiver is left as it is.
    fn on_cyan_if(self, cond: bool) -> (r: ColoredString)
        ensures
            cond ==> r@ == (StyledView { bg: Some(Color::Cyan), ..self.styled_view() }),
            !cond ==> r@ == self.styled_view(),
    {
        if cond {
            self.on_color(Color::Cyan)
        } else {
            self.do_nothing()
        }
    }

    /// Applies the background color only when `cond` holds; otherwise the
    /// receiver is left as it is.
    fn on_white_if(self, cond: bool) -> (r: ColoredString)
        ensures
            cond ==> r@ == (StyledView { bg: Some(Color::White), ..self.styled_view() }),
            !cond ==> r@ == self.styled_view(),
    {
        if cond {
            self.on_color(Color::White)
        } else {
            self.do_nothing()
        }
    }

    /// Applies the background color only when `cond` holds; otherwise the
    /// receiver is left as it is.
    fn on_bright_black_if(self, cond: bool) -> (r: ColoredString)
        ensures
            cond ==> r@ == (StyledView { bg: Some(Color::BrightBlack), ..self.styled_view() }),
            !cond ==> r@ == self.styled_view(),
    {
        if cond {
            self.on_color(Color::BrightBlack)
        } else {
            self.do_nothing()
        }
    }

    /// Applies the background color only when `cond` holds; otherwise the
    /// receiver is left as it is.
    fn on_bright_red_if(self, cond: bool) -> (r: ColoredString)
        ensures
            cond ==> r@ == (StyledView { bg: Some(Color::BrightRed), ..self.styled_view() }),
            !cond ==> r@ == self.styled_view(),
    {
        if cond {
            self.on_color(Color::BrightRed)
        } else {
            self.do_nothing()
        }
    }

    /// Applies the background color only when `cond` holds; otherwise the
    /// receiver is left as it is.
    fn on_bright_green_if(self, cond: bool) -> (r: ColoredString)
        ensures
            cond ==> r@ == (StyledView { bg: Some(Color::BrightGreen), ..self.styled_view() }),
            !cond ==> r@ == self.styled_view(),
    {
        if cond {
            self.on_color(Color::BrightGreen)
        } else {
            self.do_nothing()
        }
    }

    /// Applies the background color only when `cond` holds; otherwise the
    /// receiver is left as it is.
    fn on_bright_yellow_if(self, cond: bool) -> (r: ColoredString)
        ensures
            cond ==> r@ == (StyledView { bg: Some(Color::BrightYellow), ..self.styled_view() }),
            !cond ==> r@ == self.styled_view(),
    {
        if cond {
            self.on_color(Color::BrightYellow)
        } else {
            self.do_nothing()
        }
    }

    /// Applies the background color only when `cond` holds; otherwise the
    /// receiver is left as it is.
    fn on_bright_blue_if(self, cond: bool) -> (r: ColoredString)
        ensures
            cond ==> r@ == (StyledView { bg: Some(Color::BrightBlue), ..self.styled_view() }),
            !cond ==> r@ == self.styled_view(),
    {
        if cond {
            self.on_color(Color::BrightBlue)
        } else {
            self.do_nothing()
        }
    }

    /// Applies the background color only when `cond` holds; otherwise the
    /// receiver is left as it is.
    fn on_bright_magenta_if(self, cond: bool) -> (r: ColoredString)
        ensures
            cond ==> r@ == (StyledView { bg: Some(Color::BrightMagenta), ..self.styled_view() }),
            !cond ==> r@ == self.styled_view(),
    {
        if cond {
            self.on_color(Color::BrightMagenta)
        } else {
            self.do_nothing()
        }
    }

    /// Applies the background color only when `cond` holds; otherwise the
    /// receiver is left as it is.
    fn on_bright_purple_if(self, cond: bool) -> (r: ColoredString)
        ensures
            cond ==> r@ == (StyledView { bg: Some(Color::BrightMagenta), ..self.styled_view() }),
            !cond ==> r@ == self.styled_view(),
    {
        if cond {
            self.on_color(Color::BrightMagenta)
        } else {
            self.do_nothing()
        }
    }

    /// Applies the background color only when `cond` holds; otherwise the
    /// receiver is left as it is.
    fn on_bright_cyan_if(self, cond: bool) -> (r: ColoredString)
        ensures
            cond ==> r@ == (StyledView { bg: Some(Color::BrightCyan), ..self.styled_view() }),
            !cond ==> r@ == self.styled_view(),
    {
        if cond {
            self.on_color(Color::BrightCyan)
        } else {
            self.do_nothing()
        }
    }

    /// Applies the background color only when `cond` holds; otherwise the
    /// receiver is left as it is.
    fn on_bright_white_if(self, cond: bool) -> (r: ColoredString)
        ensures
            cond ==> r@ == (StyledView { bg: Some(Color::BrightWhite), ..self.styled_view() }),
            !cond ==> r@ == self.styled_view(),
    {
        if cond {
            self.on_color(Color::BrightWhite)
        } else {
            self.do_nothing()
        }
    }

    fn bold(self) -> (r: ColoredString)
        ensures
            r@ == (StyledView {
                mask: self.styled_view().mask | Styles::Bold.spec_to_u8(),
                ..self.styled_view()
            }),
    {
        self.style_flag(Styles::Bold)
    }

    fn dimmed(self) -> (r: ColoredString)
        ensures
            r@ == (StyledView {
                mask: self.styled_view().mask | Styles::Dimmed.spec_to_u8(),
                ..self.styled_view()
            }),
    {
        self.style_flag(Styles::Dimmed)
    }

    fn italic(self) -> (r: ColoredString)
        ensures
            r@ == (StyledView {
                mask: self.styled_view().mask | Styles::Italic.spec_to_u8(),
                ..self.styled_view()
            }),
    {
        self.style_flag(Styles::Italic)
    }

    fn underline(self) -> (r: ColoredString)
        ensures
            r@ == (StyledView {
                mask: self.styled_view().mask | Styles::Underline.spec_to_u8(),
                ..self.styled_view()
            }),
    {
        self.style_flag(Styles::Underline)
    }

    fn blink(self) -> (r: ColoredString)
        ensures
            r@ == (StyledView {
                mask: self.styled_view().mask | Styles::Blink.spec_to_u8(),
                ..self.styled_view()
            }),
    {
        self.style_flag(Styles::Blink)
    }

    fn reversed(self) -> (r: ColoredString)
        ensures
            r@ == (StyledView {
                mask: self.styled_view().mask | Styles::Reversed.spec_to_u8(),
                ..self.styled_view()
            }),
    {
        self.style_flag(Styles::Reversed)
    }

    fn hidden(self) -> (r: ColoredString)
        ensures
            r@ == (StyledView {
                mask: self.styled_view().mask | Styles::Hidden.spec_to_u8(),
                ..self.styled_view()
            }),
    {
        self.style_flag(Styles::Hidden)
    }

    fn strikethrough(self) -> (r: ColoredString)
        ensures
            r@ == (StyledView {
                mask: self.styled_view().mask | Styles::Strikethrough.spec_to_u8(),
                ..self.styled_view()
            }),
    {
        self.style_flag(Styles::Strikethrough)
    }

    /// The same as `clear`: only the text remains.
    fn normal(self) -> (r: ColoredString)
        ensures
            r@ == (StyledView {
                fg: None,
                bg: None,
                mask: 0,
                ..self.styled_view()
            }),
    {
        self.clear()
    }

    /// Colors with an entry of the 256-color palette.
    fn ansi256color(self, idx: u8) -> (r: ColoredString)
        ensures
            r@ == (StyledView { fg: Some(Color::Ansi256 { idx }), ..self.styled_view() }),
    {
        self.color(Color::Ansi256 { idx })
    }

    /// Colors with a 24-bit RGB value.
    fn truecolor(self, r: u8, g: u8, b: u8) -> (res: ColoredString)
        ensures
            res@ == (StyledView { fg: Some(Color::TrueColor { r, g, b }), ..self.styled_view() }),
    {
        self.color(Color::TrueColor { r, g, b })
    }

    /// Colors with a custom color, rendered as truecolor.
    fn custom_color(self, color: CustomColor) -> (r: ColoredString)
        ensures
            r@ == (StyledView {
                fg: Some(Color::TrueColor { r: color.r, g: color.g, b: color.b }),
                ..self.styled_view()
            }),
    {
        self.color(Color::TrueColor { r: color.r, g: color.g, b: color.b })
    }

    /// Colors with a hex color given as 3 or 6 hex digits, with an optional
    /// leading `#`. The input must be well formed; see `try_hexcolor` for
    /// the fallible variant.
    fn hexcolor(self, hex: &str) -> (r: ColoredString)
        requires
            spec_parse_hex(hex@) is Some,
        ensures
            r@ == (StyledView { fg: spec_parse_hex(hex@), ..self.styled_view() }),
    {
        let c = parse_hex(hex).unwrap();
        self.color(c)
    }

    /// Colors with a hex color when the input parses; `None` exactly on
    /// malformed input.
    fn try_hexcolor(self, hex: &str) -> (r: Option<ColoredString>)
        ensures
            match spec_parse_hex(hex@) {
                Some(c) => r matches Some(cs) && cs@ == (StyledView {
                    fg: Some(c),
                    ..self.styled_view()
                }),
                None => r is None,
            },
    {
        match parse_hex(hex) {
            Some(c) => Some(self.color(c)),
            None => None,
        }
    }

    /// Sets the background to an entry of the 256-color palette.
    fn on_ansi256color(self, idx: u8) -> (r: ColoredString)
        ensures
            r@ == (StyledView { bg: Some(Color::Ansi256 { idx }), ..self.styled_view() }),
    {
        self.on_color(Color::Ansi256 { idx })
    }

    /// Sets the background to a 24-bit RGB value.
    fn on_truecolor(self, r: u8, g: u8, b: u8) -> (res: ColoredString)
        ensures
            res@ == (StyledView { bg: Some(Color::TrueColor { r, g, b }), ..self.styled_view() }),
    {
        self.on_color(Color::TrueColor { r, g, b })
    }

    /// Sets the background to a custom color, rendered as truecolor.
    fn on_custom_color(self, color: CustomColor) -> (r: ColoredString)
        ensures
            r@ == (StyledView {
                bg: Some(Color::TrueColor { r: color.r, g: color.g, b: color.b }),
                ..self.styled_view()
            }),
    {
        self.on_color(Color::TrueColor { r: color.r, g: color.g, b: color.b })
    }

    /// Sets the background to a hex color given as 3 or 6 hex digits, with
    /// an optional leading `#`. The input must be well formed; see
    /// `try_on_hexcolor` for the fallible variant.
    fn on_hexcolor(self, hex: &str) -> (r: ColoredString)
        requires
            spec_parse_hex(hex@) is Some,
        ensures
            r@ == (StyledView { bg: spec_parse_hex(hex@), ..self.styled_view() }),
    {
        let c = parse_hex(hex).unwrap();
        self.on_color(c)
    }

    /// Sets the background to a hex color when the input parses; `None`
    /// exactly on malformed input.
    fn try_on_hexcolor(self, hex: &str) -> (r: Option<ColoredString>)
        ensures
            match spec_parse_hex(hex@) {
                Some(c) => r matches Some(cs) && cs@ == (StyledView {
                    bg: Some(c),
                    ..self.styled_view()
                }),
                None => r is None,
            },
    {
        match parse_hex(hex) {
            Some(c) => Some(self.on_color(c)),
            None => None,
        }
    }
}

impl Colorize for ColoredString {
    open spec fn styled_view(self) -> StyledView {
        self@
    }

    fn color(self, color: Color) -> (r: ColoredString) {
        let mut r = self;
        r.fgcolor = Some(color);
        r
    }

    fn on_color(self, color: Color) -> (r: ColoredString) {
        let mut r = self;
        r.bgcolor = Some(color);
        r
    }

    fn clear(self) -> (r: ColoredString) {
        ColoredString {
            input: self.input,
            fgcolor: None,
            bgcolor: None,
            style: crate::style::Style(0),
        }
    }

    fn style_flag(self, style: Styles) -> (r: ColoredString) {
        let mut r = self;
        r.style.add(style);
        r
    }

    fn do_nothing(self) -> (r: ColoredString) {
        self
    }
}

impl Colorize for &str {
    open spec fn styled_view(self) -> StyledView {
        StyledView { text: self@, fg: None, bg: None, mask: 0 }
    }

    fn color(self, color: Color) -> (r: ColoredString) {
        ColoredString {
            input: String::from_str(self),
            fgcolor: Some(color),
            bgcolor: None,
            style: crate::style::Style(0),
        }
    }

    fn on_color(self, color: Color) -> (r: ColoredString) {
        ColoredString {
            input: String::from_str(self),
            fgcolor: None,
            bgcolor: Some(color),
            style: crate::style::Style(0),
        }
    }

    fn clear(self) -> (r: ColoredString) {
        ColoredString {
            input: String::from_str(self),
            fgcolor: None,
            bgcolor: None,
            style: crate::style::Style(0),
        }
    }

    fn style_flag(self, style: Styles) -> (r: ColoredString) {
        let m = style.to_u8();
        proof {
            assert(0u8 | m == m) by (bit_vector);
        }
        ColoredString {
            input: String::from_str(self),
            fgcolor: None,
            bgcolor: None,
            style: crate::style::Style(m),
        }
    }

    fn do_nothing(self) -> (r: ColoredString) {
        ColoredString {
            input: String::from_str(self),
            fgcolor: None,
            bgcolor: None,
            style: crate::style::Style(0),
        }
    }
}

} // verus!
