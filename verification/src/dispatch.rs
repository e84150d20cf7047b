//! Applying parser events to the screen buffer, and the byte-stream entry
//! point [`TerminalBuffer::process`].

use vstd::prelude::*;

use crate::cell::Color;
use crate::parser::{
    event_view, parser_step_spec, ParserModel, ParserState, VtEvent, VtEventModel, VtParser,
};
use crate::screen::{
    backspace_spec, carriage_return_spec, clear_spec, cursor_back_spec, cursor_column_spec,
    cursor_down_clamped_spec, cursor_position_spec, delete_chars_spec, delete_lines_spec,
    erase_chars_spec, erase_line_spec, erase_screen_spec, insert_chars_spec, insert_lines_spec,
    move_down_spec, move_up_spec, reset_spec, restore_cursor_spec, reverse_index_spec,
    scroll_down_spec, scroll_up_spec, set_scroll_region_spec, tab_spec, move_down_one_spec,
    cursor_forward_spec, print_spec, ScreenView, TerminalBuffer,
};
use crate::sgr::sgr_spec;

verus! {

/// The parameter at `i`, or `default` where the list is shorter.
pub open spec fn param_at_spec(params: Seq<u16>, i: int, default: u16) -> u16 {
    if i < params.len() {
        params[i]
    } else {
        default
    }
}

/// The count a sequence acts with: its first parameter, defaulting to 1
/// and clamped to at least 1.
pub open spec fn count_spec(params: Seq<u16>) -> u16 {
    let n = param_at_spec(params, 0, 1);
    if n >= 1 {
        n
    } else {
        1
    }
}

/// DEC private mode changes, walked left to right: parameter 25 switches
/// cursor visibility, parameter 6 origin mode; everything else is ignored.
pub open spec fn dec_modes_spec(v: ScreenView, params: Seq<u16>, on: bool) -> ScreenView
    decreases params.len(),
{
    if params.len() == 0 {
        v
    } else {
        let v1 = if params[0] == 25 {
            ScreenView { cursor_visible: on, ..v }
        } else if params[0] == 6 {
            ScreenView { origin_mode: on, ..v }
        } else {
            v
        };
        dec_modes_spec(v1, params.skip(1), on)
    }
}

/// The screen after a CSI sequence, by final byte; an unrecognised final
/// byte changes nothing. Counts default to 1; erase modes default to 0.
pub open spec fn csi_apply_spec(
    v: ScreenView,
    params: Seq<u16>,
    intermediates: Seq<u8>,
    f: u8,
) -> ScreenView {
    let n = count_spec(params) as nat;
    if f == 0x41 {
        // A: cursor up
        move_up_spec(v, n)
    } else if f == 0x42 || f == 0x65 {
        // B, e: cursor down, clamped at the scroll bottom
        cursor_down_clamped_spec(v, n)
    } else if f == 0x43 || f == 0x61 {
        // C, a: cursor forward
        cursor_forward_spec(v, n)
    } else if f == 0x44 {
        // D: cursor back
        cursor_back_spec(v, n)
    } else if f == 0x45 {
        // E: cursor next line (may scroll)
        carriage_return_spec(move_down_spec(v, n))
    } else if f == 0x46 {
        // F: cursor previous line
        carriage_return_spec(move_up_spec(v, n))
    } else if f == 0x47 || f == 0x60 {
        // G, `: cursor to column
        cursor_column_spec(v, n)
    } else if f == 0x64 {
        // d: cursor to row, column kept
        cursor_position_spec(v, n, v.cursor_col + 1)
    } else if f == 0x48 || f == 0x66 {
        // H, f: cursor position
        cursor_position_spec(
            v,
            param_at_spec(params, 0, 1) as nat,
            param_at_spec(params, 1, 1) as nat,
        )
    } else if f == 0x4A {
        // J: erase in display
        let mode = param_at_spec(params, 0, 0);
        if mode == 0 || mode == 1 {
            erase_screen_spec(v, mode as int)
        } else if mode == 2 || mode == 3 {
            clear_spec(v)
        } else {
            v
        }
    } else if f == 0x4B {
        // K: erase in line
        let mode = param_at_spec(params, 0, 0);
        if mode <= 2 {
            erase_line_spec(v, mode as int)
        } else {
            v
        }
    } else if f == 0x4C {
        // L: insert lines
        insert_lines_spec(v, n)
    } else if f == 0x4D {
        // M: delete lines
        delete_lines_spec(v, n)
    } else if f == 0x50 {
        // P: delete characters
        delete_chars_spec(v, n)
    } else if f == 0x40 {
        // @: insert blanks
        insert_chars_spec(v, n)
    } else if f == 0x58 {
        // X: erase characters
        erase_chars_spec(v, n)
    } else if f == 0x53 {
        // S: scroll up
        scroll_up_spec(v, n)
    } else if f == 0x54 {
        // T: scroll down
        scroll_down_spec(v, n)
    } else if f == 0x72 {
        // r: set scroll region
        set_scroll_region_spec(
            v,
            param_at_spec(params, 0, 1) as nat,
            param_at_spec(params, 1, v.height as u16) as nat,
        )
    } else if f == 0x6D {
        // m: select graphic rendition
        let (fg, bg, at) = sgr_spec(v.fg, v.bg, v.attrs, params);
        ScreenView { fg, bg, attrs: at, ..v }
    } else if f == 0x68 {
        // h: DEC private set
        if intermediates.len() >= 1 && intermediates[0] == 0x3F {
            dec_modes_spec(v, params, true)
        } else {
            v
        }
    } else if f == 0x6C {
        // l: DEC private reset
        if intermediates.len() >= 1 && intermediates[0] == 0x3F {
            dec_modes_spec(v, params, false)
        } else {
            v
        }
    } else if f == 0x73 {
        // s: save cursor
        ScreenView { saved_cursor: Some((v.cursor_row, v.cursor_col)), ..v }
    } else if f == 0x75 {
        // u: restore cursor
        restore_cursor_spec(v)
    } else {
        v
    }
}

/// The screen after a short escape sequence; only sequences without
/// intermediate bytes are recognised.
pub open spec fn esc_apply_spec(v: ScreenView, intermediates: Seq<u8>, f: u8) -> ScreenView {
    if intermediates.len() != 0 {
        v
    } else if f == 0x37 {
        // 7: save cursor
        ScreenView { saved_cursor: Some((v.cursor_row, v.cursor_col)), ..v }
    } else if f == 0x38 {
        // 8: restore cursor
        restore_cursor_spec(v)
    } else if f == 0x44 {
        // D: index
        move_down_one_spec(v)
    } else if f == 0x45 {
        // E: next line
        carriage_return_spec(move_down_one_spec(v))
    } else if f == 0x4D {
        // M: reverse index
        reverse_index_spec(v)
    } else if f == 0x63 {
        // c: full reset
        reset_spec(v)
    } else {
        v
    }
}

/// The screen after a C0 control byte: BS, HT, LF/VT/FF and CR act, the
/// rest (BEL included) are ignored.
pub open spec fn execute_spec(v: ScreenView, b: u8) -> ScreenView {
    if b == 0x08 {
        backspace_spec(v)
    } else if b == 0x09 {
        tab_spec(v)
    } else if b == 0x0A || b == 0x0B || b == 0x0C {
        move_down_one_spec(v)
    } else if b == 0x0D {
        carriage_return_spec(v)
    } else {
        v
    }
}

/// The screen after an OSC string: `0;title` and `2;title` record the
/// title, everything else is ignored.
pub open spec fn osc_apply_spec(v: ScreenView, parts: Seq<Seq<u8>>) -> ScreenView {
    if parts.len() >= 2 && (parts[0] == seq![0x30u8] || parts[0] == seq![0x32u8]) {
        ScreenView { title: Some(parts[1]), ..v }
    } else {
        v
    }
}

/// The screen after one semantic event.
pub open spec fn apply_event_spec(v: ScreenView, ev: VtEventModel) -> ScreenView {
    match ev {
        VtEventModel::Print(c) => print_spec(v, c),
        VtEventModel::Execute(b) => execute_spec(v, b),
        VtEventModel::Csi { params, intermediates, final_byte } => csi_apply_spec(
            v,
            params,
            intermediates,
            final_byte,
        ),
        VtEventModel::Esc { intermediates, final_byte } => esc_apply_spec(
            v,
            intermediates,
            final_byte,
        ),
        VtEventModel::Osc { parts } => osc_apply_spec(v, parts),
    }
}

/// The screen and parser after a whole byte stream, one byte at a time.
pub open spec fn process_bytes_spec(v: ScreenView, m: ParserModel, bytes: Seq<u8>) -> (
    ScreenView,
    ParserModel,
)
    decreases bytes.len(),
{
    if bytes.len() == 0 {
        (v, m)
    } else {
        let (m1, ev) = parser_step_spec(m, bytes[0]);
        let v1 = match ev {
            Some(e) => apply_event_spec(v, e),
            None => v,
        };
        process_bytes_spec(v1, m1, bytes.skip(1))
    }
}

impl TerminalBuffer {
    /// Apply the DEC private mode parameters.
    fn apply_dec_modes(&mut self, params: &Vec<u16>, on: bool)
        requires
            old(self).wf(),
        ensures
            final(self).wf(),
            final(self)@ == dec_modes_spec(old(self)@, params@, on),
    {
        let len = params.len();
        let mut i: usize = 0;
        proof {
            assert(params@.skip(0) =~= params@);
        }
        while i < len
            invariant
                self.wf(),
                len == params@.len(),
                i <= len,
                dec_modes_spec(self@, params@.skip(i as int), on) == dec_modes_spec(
                    old(self)@,
                    params@,
                    on,
                ),
            decreases len - i,
        {
            let ghost i0 = i as int;
            proof {
                assert(params@.skip(i0)[0] == params@[i0]);
                assert(params@.skip(i0).skip(1) =~= params@.skip(i0 + 1));
            }
            let p = params[i];
            if p == 25 {
                self.set_cursor_visible(on);
            } else if p == 6 {
                self.set_origin_mode(on);
            }
            i = i + 1;
        }
        proof {
            assert(params@.skip(len as int) =~= Seq::<u16>::empty());
        }
    }

    /// Apply one semantic event to the screen (see [`apply_event_spec`]).
    pub fn apply_event(&mut self, ev: &VtEvent)
        requires
            old(self).wf(),
        ensures
            final(self).wf(),
            final(self)@ == apply_event_spec(old(self)@, ev@),
    {
        match ev {
            VtEvent::Print(c) => {
                self.write_char(*c);
            },
            VtEvent::Execute(b) => {
                let b = *b;
                if b == 0x08 {
                    self.backspace();
                } else if b == 0x09 {
                    self.tab();
                } else if b == 0x0A || b == 0x0B || b == 0x0C {
                    self.linefeed();
                } else if b == 0x0D {
                    self.carriage_return();
                }
            },
            VtEvent::Csi { params, intermediates, final_byte } => {
                self.apply_csi(params, intermediates, *final_byte);
            },
            VtEvent::Esc { intermediates, final_byte } => {
                let f = *final_byte;
                if intermediates.len() != 0 {
                    // Charset designations and other intermediated
                    // sequences are not emulated.
                } else if f == 0x37 {
                    self.save_cursor();
                } else if f == 0x38 {
                    self.restore_cursor();
                } else if f == 0x44 {
                    self.linefeed();
                } else if f == 0x45 {
                    self.linefeed();
                    self.carriage_return();
                } else if f == 0x4D {
                    self.reverse_index();
                } else if f == 0x63 {
                    self.reset();
                }
            },
            VtEvent::Osc { parts } => {
                if parts.len() >= 2 {
                    let head = &parts[0];
                    if head.len() == 1 && (head[0] == 0x30 || head[0] == 0x32) {
                        proof {
                            if head@[0] == 0x30 {
                                assert(head@ =~= seq![0x30u8]);
                            } else {
                                assert(head@ =~= seq![0x32u8]);
                            }
                        }
                        let title = vstd::slice::slice_to_vec(parts[1].as_slice());
                        self.set_title(title);
                    }
                }
            },
        }
    }

    /// Apply a CSI sequence (see [`csi_apply_spec`]).
    fn apply_csi(&mut self, params: &Vec<u16>, intermediates: &Vec<u8>, f: u8)
        requires
            old(self).wf(),
        ensures
            final(self).wf(),
            final(self)@ == csi_apply_spec(old(self)@, params@, intermediates@, f),
    {
        let n = {
            let n0 = if params.len() >= 1 {
                params[0]
            } else {
                1
            };
            if n0 >= 1 {
                n0
            } else {
                1
            }
        };
        if f == 0x41 {
            self.move_cursor_up(n);
        } else if f == 0x42 || f == 0x65 {
            self.cursor_down_clamped(n);
        } else if f == 0x43 || f == 0x61 {
            self.cursor_forward(n);
        } else if f == 0x44 {
            self.cursor_back(n);
        } else if f == 0x45 {
            self.move_cursor_down(n);
            self.carriage_return();
        } else if f == 0x46 {
            self.move_cursor_up(n);
            self.carriage_return();
        } else if f == 0x47 || f == 0x60 {
            self.cursor_column(n);
        } else if f == 0x64 {
            let col = self.cursor().1;
            if col < 0xFFFF {
                self.set_cursor_position(n, col + 1);
            } else {
                // The column is already at the numeric ceiling; passing it
                // unchanged clamps to the same place.
                self.set_cursor_position(n, col);
                proof {
                    assert(cursor_position_spec(old(self)@, n as nat, col as nat)
                        =~~= cursor_position_spec(
                        old(self)@,
                        n as nat,
                        old(self)@.cursor_col + 1,
                    ));
                }
            }
        } else if f == 0x48 || f == 0x66 {
            let row = if params.len() >= 1 {
                params[0]
            } else {
                1
            };
            let col = if params.len() >= 2 {
                params[1]
            } else {
                1
            };
            self.set_cursor_position(row, col);
        } else if f == 0x4A {
            let mode = if params.len() >= 1 {
                params[0]
            } else {
                0
            };
            if mode == 0 {
                self.clear_to_end_of_screen();
            } else if mode == 1 {
                self.clear_to_start_of_screen();
            } else if mode == 2 || mode == 3 {
                self.clear();
            }
        } else if f == 0x4B {
            let mode = if params.len() >= 1 {
                params[0]
            } else {
                0
            };
            if mode == 0 {
                self.clear_to_end_of_line();
            } else if mode == 1 {
                self.clear_to_start_of_line();
            } else if mode == 2 {
                self.clear_line();
            }
        } else if f == 0x4C {
            self.insert_lines(n);
        } else if f == 0x4D {
            self.delete_lines(n);
        } else if f == 0x50 {
            self.delete_chars(n);
        } else if f == 0x40 {
            self.insert_chars(n);
        } else if f == 0x58 {
            self.erase_chars(n);
        } else if f == 0x53 {
            self.scroll_up(n);
        } else if f == 0x54 {
            self.scroll_down(n);
        } else if f == 0x72 {
            let top = if params.len() >= 1 {
                params[0]
            } else {
                1
            };
            let bottom = if params.len() >= 2 {
                params[1]
            } else {
                self.size().1
            };
            self.set_scroll_region(top, bottom);
        } else if f == 0x6D {
            self.handle_sgr(params);
        } else if f == 0x68 {
            if intermediates.len() >= 1 && intermediates[0] == 0x3F {
                self.apply_dec_modes(params, true);
            }
        } else if f == 0x6C {
            if intermediates.len() >= 1 && intermediates[0] == 0x3F {
                self.apply_dec_modes(params, false);
            }
        } else if f == 0x73 {
            self.save_cursor();
        } else if f == 0x75 {
            self.restore_cursor();
        }
    }

    /// Feed a chunk of raw bytes through a fresh escape-sequence parser
    /// into the screen: the result is exactly [`process_bytes_spec`] from
    /// the current screen and the parser's initial state. A sequence split
    /// across two chunks is dropped at the boundary.
    pub fn process(&mut self, data: &[u8])
        requires
            old(self).wf(),
        ensures
            final(self).wf(),
            final(self)@ == process_bytes_spec(
                old(self)@,
                crate::parser::init_parser_model(),
                data@,
            ).0,
    {
        let mut parser = VtParser::new();
        let len = data.len();
        let mut i: usize = 0;
        proof {
            assert(data@.skip(0) =~= data@);
        }
        while i < len
            invariant
                self.wf(),
                parser.wf(),
                len == data@.len(),
                i <= len,
                process_bytes_spec(self@, parser@, data@.skip(i as int)) == process_bytes_spec(
                    old(self)@,
                    crate::parser::init_parser_model(),
                    data@,
                ),
            decreases len - i,
        {
            let ghost i0 = i as int;
            proof {
                assert(data@.skip(i0)[0] == data@[i0]);
                assert(data@.skip(i0).skip(1) =~= data@.skip(i0 + 1));
            }
            let b = data[i];
            let ev = parser.advance(b);
            if let Some(e) = ev {
                self.apply_event(&e);
            }
            i = i + 1;
        }
        proof {
            assert(data@.skip(len as int) =~= Seq::<u8>::empty());
        }
    }
}

} // verus!
