//! Select Graphic Rendition: how a parameter list updates the pen.

use vstd::prelude::*;

use crate::cell::{ansi_color_spec, ansi_to_color, CellAttributes, Color};
use crate::screen::{ScreenView, TerminalBuffer};

verus! {

/// The pen after one walk over `params` from the left, starting from
/// `(fg, bg, at)`. Parameters `38` and `48` consume an extended-colour
/// introducer (`5` plus a palette index, or `2` plus three channel values
/// taken modulo 256, missing trailing values defaulting to zero); every
/// other recognised parameter consumes itself alone; unknown parameters
/// are skipped.
pub open spec fn sgr_walk(fg: Color, bg: Color, at: CellAttributes, params: Seq<u16>) -> (
    Color,
    Color,
    CellAttributes,
)
    decreases params.len(),
{
    if params.len() == 0 {
        (fg, bg, at)
    } else {
        let p = params[0];
        let rest = params.skip(1);
        if p == 0 {
            sgr_walk(Color::Reset, Color::Reset, CellAttributes::none_spec(), rest)
        } else if p == 1 {
            sgr_walk(fg, bg, CellAttributes { bold: true, ..at }, rest)
        } else if p == 3 {
            sgr_walk(fg, bg, CellAttributes { italic: true, ..at }, rest)
        } else if p == 4 {
            sgr_walk(fg, bg, CellAttributes { underline: true, ..at }, rest)
        } else if p == 5 || p == 6 {
            sgr_walk(fg, bg, CellAttributes { blink: true, ..at }, rest)
        } else if p == 7 {
            sgr_walk(fg, bg, CellAttributes { reverse: true, ..at }, rest)
        } else if p == 8 {
            sgr_walk(fg, bg, CellAttributes { hidden: true, ..at }, rest)
        } else if p == 9 {
            sgr_walk(fg, bg, CellAttributes { strikethrough: true, ..at }, rest)
        } else if p == 21 || p == 22 {
            sgr_walk(fg, bg, CellAttributes { bold: false, ..at }, rest)
        } else if p == 23 {
            sgr_walk(fg, bg, CellAttributes { italic: false, ..at }, rest)
        } else if p == 24 {
            sgr_walk(fg, bg, CellAttributes { underline: false, ..at }, rest)
        } else if p == 25 {
            sgr_walk(fg, bg, CellAttributes { blink: false, ..at }, rest)
        } else if p == 27 {
            sgr_walk(fg, bg, CellAttributes { reverse: false, ..at }, rest)
        } else if p == 28 {
            sgr_walk(fg, bg, CellAttributes { hidden: false, ..at }, rest)
        } else if p == 29 {
            sgr_walk(fg, bg, CellAttributes { strikethrough: false, ..at }, rest)
        } else if 30 <= p && p <= 37 {
            sgr_walk(ansi_color_spec((p - 30) as u16), bg, at, rest)
        } else if p == 39 {
            sgr_walk(Color::Reset, bg, at, rest)
        } else if 40 <= p && p <= 47 {
            sgr_walk(fg, ansi_color_spec((p - 40) as u16), at, rest)
        } else if p == 49 {
            sgr_walk(fg, Color::Reset, at, rest)
        } else if 90 <= p && p <= 97 {
            sgr_walk(ansi_color_spec((p - 90 + 8) as u16), bg, at, rest)
        } else if 100 <= p && p <= 107 {
            sgr_walk(fg, ansi_color_spec((p - 100 + 8) as u16), at, rest)
        } else if p == 38 || p == 48 {
            if params.len() < 2 {
                (fg, bg, at)
            } else {
                let mode = params[1];
                if mode == 5 {
                    if params.len() >= 3 {
                        let c = ansi_color_spec(params[2]);
                        if p == 38 {
                            sgr_walk(c, bg, at, params.skip(3))
                        } else {
                            sgr_walk(fg, c, at, params.skip(3))
                        }
                    } else {
                        sgr_walk(fg, bg, at, params.skip(2))
                    }
                } else if mode == 2 {
                    let r = if params.len() >= 3 {
                        params[2]
                    } else {
                        0
                    };
                    let g = if params.len() >= 4 {
                        params[3]
                    } else {
                        0
                    };
                    let b = if params.len() >= 5 {
                        params[4]
                    } else {
                        0
                    };
                    let c = Color::Rgb((r % 256) as u8, (g % 256) as u8, (b % 256) as u8);
                    let consumed = if params.len() >= 5 {
                        5int
                    } else {
                        params.len() as int
                    };
                    if p == 38 {
                        sgr_walk(c, bg, at, params.skip(consumed))
                    } else {
                        sgr_walk(fg, c, at, params.skip(consumed))
                    }
                } else {
                    sgr_walk(fg, bg, at, params.skip(2))
                }
            }
        } else {
            sgr_walk(fg, bg, at, rest)
        }
    }
}

/// The pen after a whole SGR sequence: an empty parameter list resets the
/// pen, otherwise the parameters are walked left to right.
pub open spec fn sgr_spec(fg: Color, bg: Color, at: CellAttributes, params: Seq<u16>) -> (
    Color,
    Color,
    CellAttributes,
) {
    if params.len() == 0 {
        (Color::Reset, Color::Reset, CellAttributes::none_spec())
    } else {
        sgr_walk(fg, bg, at, params)
    }
}

impl TerminalBuffer {
    /// Apply an SGR parameter list to the pen (see [`sgr_spec`]). Nothing
    /// but the pen changes.
    pub fn handle_sgr(&mut self, params: &Vec<u16>)
        requires
            old(self).wf(),
        ensures
            final(self).wf(),
            final(self)@ == ({
                let (f, b, a) = sgr_spec(old(self)@.fg, old(self)@.bg, old(self)@.attrs, params@);
                ScreenView { fg: f, bg: b, attrs: a, ..old(self)@ }
            }),
    {
        if params.len() == 0 {
            self.reset_attributes();
            return ;
        }
        let (pen0, pen1, pen2) = self.pen();
        let mut fg = pen0;
        let mut bg = pen1;
        let mut at = pen2;
        let len = params.len();
        let mut i: usize = 0;
        proof {
            assert(params@.skip(0) =~= params@);
        }
        while i < len
            invariant
                old(self).wf(),
                self@ == old(self)@,
                len == params@.len(),
                i <= len,
                sgr_walk(fg, bg, at, params@.skip(i as int)) == sgr_walk(
                    old(self)@.fg,
                    old(self)@.bg,
                    old(self)@.attrs,
                    params@,
                ),
            decreases len - i,
        {
            let ghost i0 = i as int;
            let ghost before = params@.skip(i as int);
            proof {
                assert(before[0] == params@[i as int]);
                assert(before.skip(1) =~= params@.skip(i0 + 1));
            }
            let p = params[i];
            if p == 0 {
                fg = Color::Reset;
                bg = Color::Reset;
                at = CellAttributes::none();
                i = i + 1;
            } else if p == 1 {
                at.bold = true;
                i = i + 1;
            } else if p == 3 {
                at.italic = true;
                i = i + 1;
            } else if p == 4 {
                at.underline = true;
                i = i + 1;
            } else if p == 5 || p == 6 {
                at.blink = true;
                i = i + 1;
            } else if p == 7 {
                at.reverse = true;
                i = i + 1;
            } else if p == 8 {
                at.hidden = true;
                i = i + 1;
            } else if p == 9 {
                at.strikethrough = true;
                i = i + 1;
            } else if p == 21 || p == 22 {
                at.bold = false;
                i = i + 1;
            } else if p == 23 {
                at.italic = false;
                i = i + 1;
            } else if p == 24 {
                at.underline = false;
                i = i + 1;
            } else if p == 25 {
                at.blink = false;
                i = i + 1;
            } else if p == 27 {
                at.reverse = false;
                i = i + 1;
            } else if p == 28 {
                at.hidden = false;
                i = i + 1;
            } else if p == 29 {
                at.strikethrough = false;
                i = i + 1;
            } else if 30 <= p && p <= 37 {
                fg = ansi_to_color(p - 30);
                i = i + 1;
            } else if p == 39 {
                fg = Color::Reset;
                i = i + 1;
            } else if 40 <= p && p <= 47 {
                bg = ansi_to_color(p - 40);
                i = i + 1;
            } else if p == 49 {
                bg = Color::Reset;
                i = i + 1;
            } else if 90 <= p && p <= 97 {
                fg = ansi_to_color(p - 90 + 8);
                i = i + 1;
            } else if 100 <= p && p <= 107 {
                bg = ansi_to_color(p - 100 + 8);
                i = i + 1;
            } else if p == 38 || p == 48 {
                if len - i < 2 {
                    // A bare extended-colour introducer at the end of the
                    // list changes nothing and ends the walk.
                    proof {
                        assert(params@.skip(len as int) =~= Seq::<u16>::empty());
                    }
                    i = len;
                } else {
                    let mode = params[i + 1];
                    if mode == 5 {
                        if len - i > 2 {
                            let c = ansi_to_color(params[i + 2]);
                            if p == 38 {
                                fg = c;
                            } else {
                                bg = c;
                            }
                            proof {
                                assert(params@.skip(i as int).skip(3) =~= params@.skip(
                                    i as int + 3,
                                ));
                            }
                            i = i + 3;
                        } else {
                            proof {
                                assert(params@.skip(i as int).skip(2) =~= params@.skip(
                                    i as int + 2,
                                ));
                            }
                            i = i + 2;
                        }
                    } else if mode == 2 {
                        let r = if len - i > 2 {
                            params[i + 2]
                        } else {
                            0
                        };
                        let g = if len - i > 3 {
                            params[i + 3]
                        } else {
                            0
                        };
                        let b = if len - i > 4 {
                            params[i + 4]
                        } else {
                            0
                        };
                        let c = Color::Rgb((r % 256) as u8, (g % 256) as u8, (b % 256) as u8);
                        if p == 38 {
                            fg = c;
                        } else {
                            bg = c;
                        }
                        let consumed = if len - i >= 5 {
                            5
                        } else {
                            len - i
                        };
                        proof {
                            assert(params@.skip(i as int).skip(consumed as int) =~= params@.skip(
                                i as int + consumed as int,
                            ));
                        }
                        i = i + consumed;
                    } else {
                        proof {
                            assert(params@.skip(i as int).skip(2) =~= params@.skip(i as int + 2));
                        }
                        i = i + 2;
                    }
                }
            } else {
                i = i + 1;
            }
        }
        self.set_pen(fg, bg, at);
    }
}

} // verus!
