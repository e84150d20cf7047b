//! The escape-sequence parser: a byte-at-a-time automaton that turns a raw
//! byte stream into semantic events.
//!
//! The automaton follows the classic VT500-series parser: printable bytes
//! (and UTF-8 sequences) become [`VtEvent::Print`], C0 controls become
//! [`VtEvent::Execute`], `ESC [ ... final` becomes [`VtEvent::Csi`],
//! `ESC ] ... BEL|ST` becomes [`VtEvent::Osc`], and short `ESC final`
//! sequences become [`VtEvent::Esc`]. DCS/SOS/PM/APC strings are consumed
//! and dropped. Malformed input is dropped silently; the parser never
//! grows beyond a small fixed budget for pending parameters.
//!
//! Every step is [`parser_step_spec`], a function of the previous state
//! and the byte alone: parsing is deterministic.

use vstd::prelude::*;

verus! {

/// Most numeric parameters a CSI sequence may carry; later ones are
/// dropped.
pub const MAX_PARAMS: usize = 16;

/// Most intermediate (and private-marker) bytes kept for a sequence.
pub const MAX_INTERMEDIATES: usize = 2;

/// Most `;`-separated parts kept for an OSC string.
pub const MAX_OSC_PARTS: usize = 16;

/// Longest OSC part kept, in bytes.
pub const MAX_OSC_LEN: usize = 1024;

/// A semantic event produced by the parser.
pub enum VtEvent {
    /// A displayable code point.
    Print(char),
    /// A C0 control byte.
    Execute(u8),
    /// A `CSI params intermediates final` sequence.
    Csi { params: Vec<u16>, intermediates: Vec<u8>, final_byte: u8 },
    /// A short `ESC intermediates final` sequence.
    Esc { intermediates: Vec<u8>, final_byte: u8 },
    /// An OSC string, split on `;`.
    Osc { parts: Vec<Vec<u8>> },
}

/// The model of a [`VtEvent`].
#[verifier::ext_equal]
pub ghost enum VtEventModel {
    Print(char),
    Execute(u8),
    Csi { params: Seq<u16>, intermediates: Seq<u8>, final_byte: u8 },
    Esc { intermediates: Seq<u8>, final_byte: u8 },
    Osc { parts: Seq<Seq<u8>> },
}

impl View for VtEvent {
    type V = VtEventModel;

    open spec fn view(&self) -> VtEventModel {
        match self {
            VtEvent::Print(c) => VtEventModel::Print(*c),
            VtEvent::Execute(b) => VtEventModel::Execute(*b),
            VtEvent::Csi { params, intermediates, final_byte } => VtEventModel::Csi {
                params: params@,
                intermediates: intermediates@,
                final_byte: *final_byte,
            },
            VtEvent::Esc { intermediates, final_byte } => VtEventModel::Esc {
                intermediates: intermediates@,
                final_byte: *final_byte,
            },
            VtEvent::Osc { parts } => VtEventModel::Osc {
                parts: Seq::new(parts@.len() as nat, |i: int| parts@[i]@),
            },
        }
    }
}

/// The view of an optional event.
pub open spec fn event_view(r: Option<VtEvent>) -> Option<VtEventModel> {
    match r {
        Some(ev) => Some(ev@),
        None => None,
    }
}

/// The automaton's states.
#[derive(Debug, Clone, Copy, PartialEq, Eq, Structural)]
pub enum ParserState {
    /// Plain text.
    Ground,
    /// After a lone ESC.
    Escape,
    /// After ESC plus at least one intermediate byte.
    EscapeIntermediate,
    /// Inside `ESC [ ...`, collecting parameters and intermediates.
    Csi,
    /// Inside `ESC ] ...`, collecting the string.
    Osc,
    /// Inside an OSC string, after an ESC (awaiting the `\` of ST).
    OscEsc,
    /// Inside a DCS/SOS/PM/APC string, which is consumed and dropped.
    IgnoreString,
    /// Inside an ignored string, after an ESC.
    IgnoreStringEsc,
    /// Collecting the continuation bytes of a UTF-8 sequence.
    Utf8Collect,
}

/// The mathematical model of the parser.
#[verifier::ext_equal]
pub ghost struct ParserModel {
    pub state: ParserState,
    pub params: Seq<u16>,
    pub current: u16,
    pub has_param: bool,
    pub in_subparam: bool,
    pub intermediates: Seq<u8>,
    pub osc_parts: Seq<Seq<u8>>,
    pub osc_current: Seq<u8>,
    pub utf8_bytes: Seq<u8>,
    pub utf8_need: nat,
}

/// `params` with `v` appended, unless the budget is exhausted.
pub open spec fn push_param_spec(params: Seq<u16>, v: u16) -> Seq<u16> {
    if params.len() < MAX_PARAMS as nat {
        params.push(v)
    } else {
        params
    }
}

/// `ints` with `b` appended, unless the budget is exhausted.
pub open spec fn push_intermediate_spec(ints: Seq<u8>, b: u8) -> Seq<u8> {
    if ints.len() < MAX_INTERMEDIATES as nat {
        ints.push(b)
    } else {
        ints
    }
}

/// Decimal accumulation of one digit, saturating at `u16::MAX`.
pub open spec fn accumulate_param_spec(current: u16, digit: u8) -> u16 {
    let next = current * 10 + (digit - 0x30);
    if next <= u16::MAX {
        next as u16
    } else {
        u16::MAX
    }
}

/// The model with the CSI collectors cleared and the state set to `Csi`.
pub open spec fn enter_csi_spec(m: ParserModel) -> ParserModel {
    ParserModel {
        state: ParserState::Csi,
        params: Seq::empty(),
        current: 0,
        has_param: false,
        in_subparam: false,
        intermediates: Seq::empty(),
        ..m
    }
}

/// The model with the OSC collectors cleared and the state set to `Osc`.
pub open spec fn enter_osc_spec(m: ParserModel) -> ParserModel {
    ParserModel {
        state: ParserState::Osc,
        osc_parts: Seq::empty(),
        osc_current: Seq::empty(),
        ..m
    }
}

/// The model with intermediates cleared and the state set to `Escape`.
pub open spec fn enter_escape_spec(m: ParserModel) -> ParserModel {
    ParserModel { state: ParserState::Escape, intermediates: Seq::empty(), ..m }
}

/// The model back in `Ground` with the CSI collectors cleared.
pub open spec fn csi_done_spec(m: ParserModel) -> ParserModel {
    ParserModel {
        state: ParserState::Ground,
        params: Seq::empty(),
        current: 0,
        has_param: false,
        in_subparam: false,
        intermediates: Seq::empty(),
        ..m
    }
}

/// The model back in `Ground` with the OSC collectors cleared.
pub open spec fn osc_done_spec(m: ParserModel) -> ParserModel {
    ParserModel {
        state: ParserState::Ground,
        osc_parts: Seq::empty(),
        osc_current: Seq::empty(),
        ..m
    }
}

/// The model back in `Ground` with the UTF-8 collector cleared.
pub open spec fn utf8_done_spec(m: ParserModel) -> ParserModel {
    ParserModel { state: ParserState::Ground, utf8_bytes: Seq::empty(), utf8_need: 0, ..m }
}

/// The completed OSC parts: the pending part is appended within the
/// budget.
pub open spec fn osc_finished_parts_spec(m: ParserModel) -> Seq<Seq<u8>> {
    if m.osc_parts.len() < MAX_OSC_PARTS as nat {
        m.osc_parts.push(m.osc_current)
    } else {
        m.osc_parts
    }
}

/// The number of continuation bytes a UTF-8 lead byte announces, or 0 for
/// a byte that cannot begin a multi-byte sequence.
pub open spec fn utf8_need_spec(b: u8) -> nat {
    if 0xC2 <= b && b <= 0xDF {
        1
    } else if 0xE0 <= b && b <= 0xEF {
        2
    } else if 0xF0 <= b && b <= 0xF4 {
        3
    } else {
        0
    }
}

/// The code point encoded by a complete 2-, 3- or 4-byte UTF-8 sequence.
pub open spec fn utf8_codepoint_spec(bytes: Seq<u8>) -> int {
    if bytes.len() == 2 {
        (bytes[0] - 0xC0) * 0x40 + (bytes[1] - 0x80)
    } else if bytes.len() == 3 {
        (bytes[0] - 0xE0) * 0x1000 + (bytes[1] - 0x80) * 0x40 + (bytes[2] - 0x80)
    } else {
        (bytes[0] - 0xF0) * 0x40000 + (bytes[1] - 0x80) * 0x1000 + (bytes[2] - 0x80) * 0x40 + (
        bytes[3] - 0x80)
    }
}

/// Whether `cp` is a Unicode scalar value (not a surrogate, in range).
pub open spec fn is_scalar_spec(cp: int) -> bool {
    (0 <= cp && cp < 0xD800) || (0xE000 <= cp && cp <= 0x10FFFF)
}

/// One step from `Ground`.
pub open spec fn ground_step_spec(m: ParserModel, b: u8) -> (ParserModel, Option<VtEventModel>) {
    if b == 0x1B {
        (enter_escape_spec(m), None)
    } else if b < 0x20 {
        (m, Some(VtEventModel::Execute(b)))
    } else if b <= 0x7E {
        (m, Some(VtEventModel::Print((b as u32) as char)))
    } else if b == 0x7F {
        (m, None)
    } else if utf8_need_spec(b) > 0 {
        (
            ParserModel {
                state: ParserState::Utf8Collect,
                utf8_bytes: seq![b],
                utf8_need: utf8_need_spec(b),
                ..m
            },
            None,
        )
    } else {
        (m, None)
    }
}

/// One step from `Escape`.
pub open spec fn escape_step_spec(m: ParserModel, b: u8) -> (ParserModel, Option<VtEventModel>) {
    if b == 0x1B {
        (enter_escape_spec(m), None)
    } else if b < 0x20 {
        (m, Some(VtEventModel::Execute(b)))
    } else if b <= 0x2F {
        (
            ParserModel {
                state: ParserState::EscapeIntermediate,
                intermediates: push_intermediate_spec(m.intermediates, b),
                ..m
            },
            None,
        )
    } else if b == 0x5B {
        (enter_csi_spec(m), None)
    } else if b == 0x5D {
        (enter_osc_spec(m), None)
    } else if b == 0x50 || b == 0x58 || b == 0x5E || b == 0x5F {
        (ParserModel { state: ParserState::IgnoreString, ..m }, None)
    } else if b <= 0x7E {
        (
            ParserModel { state: ParserState::Ground, intermediates: Seq::empty(), ..m },
            Some(VtEventModel::Esc { intermediates: m.intermediates, final_byte: b }),
        )
    } else {
        (m, None)
    }
}

/// One step from `EscapeIntermediate`.
pub open spec fn escape_intermediate_step_spec(m: ParserModel, b: u8) -> (
    ParserModel,
    Option<VtEventModel>,
) {
    if b == 0x1B {
        (enter_escape_spec(m), None)
    } else if b < 0x20 {
        (m, Some(VtEventModel::Execute(b)))
    } else if b <= 0x2F {
        (ParserModel { intermediates: push_intermediate_spec(m.intermediates, b), ..m }, None)
    } else if b <= 0x7E {
        (
            ParserModel { state: ParserState::Ground, intermediates: Seq::empty(), ..m },
            Some(VtEventModel::Esc { intermediates: m.intermediates, final_byte: b }),
        )
    } else {
        (m, None)
    }
}

/// One step from `Csi`.
pub open spec fn csi_step_spec(m: ParserModel, b: u8) -> (ParserModel, Option<VtEventModel>) {
    if b == 0x1B {
        (enter_escape_spec(m), None)
    } else if b < 0x20 {
        (m, Some(VtEventModel::Execute(b)))
    } else if 0x30 <= b && b <= 0x39 {
        if m.in_subparam {
            (m, None)
        } else {
            (
                ParserModel { current: accumulate_param_spec(m.current, b), has_param: true, ..m },
                None,
            )
        }
    } else if b == 0x3B {
        (
            ParserModel {
                params: push_param_spec(m.params, m.current),
                current: 0,
                has_param: true,
                in_subparam: false,
                ..m
            },
            None,
        )
    } else if b == 0x3A {
        (ParserModel { in_subparam: true, ..m }, None)
    } else if (0x20 <= b && b <= 0x2F) || (0x3C <= b && b <= 0x3F) {
        (ParserModel { intermediates: push_intermediate_spec(m.intermediates, b), ..m }, None)
    } else if 0x40 <= b && b <= 0x7E {
        let params = if m.has_param {
            push_param_spec(m.params, m.current)
        } else {
            m.params
        };
        (
            csi_done_spec(m),
            Some(VtEventModel::Csi { params, intermediates: m.intermediates, final_byte: b }),
        )
    } else {
        (m, None)
    }
}

/// One step from `Osc`.
pub open spec fn osc_step_spec(m: ParserModel, b: u8) -> (ParserModel, Option<VtEventModel>) {
    if b == 0x07 {
        (osc_done_spec(m), Some(VtEventModel::Osc { parts: osc_finished_parts_spec(m) }))
    } else if b == 0x1B {
        (ParserModel { state: ParserState::OscEsc, ..m }, None)
    } else if b == 0x3B {
        if m.osc_parts.len() < MAX_OSC_PARTS as nat {
            (
                ParserModel {
                    osc_parts: m.osc_parts.push(m.osc_current),
                    osc_current: Seq::empty(),
                    ..m
                },
                None,
            )
        } else {
            (m, None)
        }
    } else if b >= 0x20 {
        if m.osc_current.len() < MAX_OSC_LEN as nat {
            (ParserModel { osc_current: m.osc_current.push(b), ..m }, None)
        } else {
            (m, None)
        }
    } else {
        (m, None)
    }
}

/// One step from `OscEsc`: a `\` completes the string terminator and the
/// OSC dispatches; anything else abandons the OSC and is handled as if the
/// ESC had opened a fresh escape sequence.
pub open spec fn osc_esc_step_spec(m: ParserModel, b: u8) -> (ParserModel, Option<VtEventModel>) {
    if b == 0x5C {
        (osc_done_spec(m), Some(VtEventModel::Osc { parts: osc_finished_parts_spec(m) }))
    } else {
        escape_step_spec(enter_escape_spec(m), b)
    }
}

/// One step from `IgnoreString`.
pub open spec fn ignore_string_step_spec(m: ParserModel, b: u8) -> (
    ParserModel,
    Option<VtEventModel>,
) {
    if b == 0x1B {
        (ParserModel { state: ParserState::IgnoreStringEsc, ..m }, None)
    } else if b == 0x07 {
        (ParserModel { state: ParserState::Ground, ..m }, None)
    } else {
        (m, None)
    }
}

/// One step from `IgnoreStringEsc`.
pub open spec fn ignore_string_esc_step_spec(m: ParserModel, b: u8) -> (
    ParserModel,
    Option<VtEventModel>,
) {
    if b == 0x5C {
        (ParserModel { state: ParserState::Ground, ..m }, None)
    } else if b == 0x1B {
        (m, None)
    } else {
        (ParserModel { state: ParserState::IgnoreString, ..m }, None)
    }
}

/// One step from `Utf8Collect`: a continuation byte is collected and, once
/// the sequence is complete, decoded (a value that is no Unicode scalar is
/// dropped); any other byte abandons the sequence and is handled from
/// `Ground`.
pub open spec fn utf8_step_spec(m: ParserModel, b: u8) -> (ParserModel, Option<VtEventModel>) {
    if 0x80 <= b && b <= 0xBF {
        let bytes = m.utf8_bytes.push(b);
        if bytes.len() == m.utf8_need + 1 {
            let cp = utf8_codepoint_spec(bytes);
            if is_scalar_spec(cp) {
                (utf8_done_spec(m), Some(VtEventModel::Print((cp as u32) as char)))
            } else {
                (utf8_done_spec(m), None)
            }
        } else {
            (ParserModel { utf8_bytes: bytes, ..m }, None)
        }
    } else {
        ground_step_spec(utf8_done_spec(m), b)
    }
}

/// One step of the automaton: a function of the previous state and the
/// byte alone.
pub open spec fn parser_step_spec(m: ParserModel, b: u8) -> (ParserModel, Option<VtEventModel>) {
    match m.state {
        ParserState::Ground => ground_step_spec(m, b),
        ParserState::Escape => escape_step_spec(m, b),
        ParserState::EscapeIntermediate => escape_intermediate_step_spec(m, b),
        ParserState::Csi => csi_step_spec(m, b),
        ParserState::Osc => osc_step_spec(m, b),
        ParserState::OscEsc => osc_esc_step_spec(m, b),
        ParserState::IgnoreString => ignore_string_step_spec(m, b),
        ParserState::IgnoreStringEsc => ignore_string_esc_step_spec(m, b),
        ParserState::Utf8Collect => utf8_step_spec(m, b),
    }
}

impl ParserModel {
    /// The parser's internal budget invariant: collectors stay within
    /// their fixed caps, and a pending UTF-8 sequence is consistent (a
    /// valid lead byte, only continuation bytes after it, not yet
    /// complete).
    pub open spec fn wf(self) -> bool {
        &&& self.params.len() <= MAX_PARAMS as nat
        &&& self.intermediates.len() <= MAX_INTERMEDIATES as nat
        &&& self.osc_parts.len() <= MAX_OSC_PARTS as nat
        &&& self.osc_current.len() <= MAX_OSC_LEN as nat
        &&& self.utf8_bytes.len() <= 4
        &&& (self.state == ParserState::Utf8Collect ==> {
            &&& 1 <= self.utf8_bytes.len()
            &&& self.utf8_bytes.len() <= self.utf8_need
            &&& self.utf8_need == utf8_need_spec(self.utf8_bytes[0])
            &&& 1 <= self.utf8_need && self.utf8_need <= 3
            &&& forall|i: int|
                1 <= i < self.utf8_bytes.len() ==> 0x80 <= #[trigger] self.utf8_bytes[i]
                    && self.utf8_bytes[i] <= 0xBF
        })
    }
}

/// Relies on `char::from_u32` of std: it returns `Some` exactly on
/// Unicode scalar values (below the surrogate range or between it and
/// `0x10FFFF`), and the character then carries that code point.
#[verifier::external_body]
fn char_from_u32(v: u32) -> (r: Option<char>)
    ensures
        r == if is_scalar_spec(v as int) {
            Some(v as char)
        } else {
            None::<char>
        },
{
    char::from_u32(v)
}

/// The parser's initial state: ground, with all collectors empty.
pub open spec fn init_parser_model() -> ParserModel {
    ParserModel {
        state: ParserState::Ground,
        params: Seq::empty(),
        current: 0,
        has_param: false,
        in_subparam: false,
        intermediates: Seq::empty(),
        osc_parts: Seq::empty(),
        osc_current: Seq::empty(),
        utf8_bytes: Seq::empty(),
        utf8_need: 0,
    }
}

/// The escape-sequence parser.
pub struct VtParser {
    state: ParserState,
    params: Vec<u16>,
    current: u16,
    has_param: bool,
    in_subparam: bool,
    intermediates: Vec<u8>,
    osc_parts: Vec<Vec<u8>>,
    osc_current: Vec<u8>,
    utf8_bytes: Vec<u8>,
    utf8_need: u8,
}

impl View for VtParser {
    type V = ParserModel;

    closed spec fn view(&self) -> ParserModel {
        ParserModel {
            state: self.state,
            params: self.params@,
            current: self.current,
            has_param: self.has_param,
            in_subparam: self.in_subparam,
            intermediates: self.intermediates@,
            osc_parts: Seq::new(self.osc_parts@.len() as nat, |i: int| self.osc_parts@[i]@),
            osc_current: self.osc_current@,
            utf8_bytes: self.utf8_bytes@,
            utf8_need: self.utf8_need as nat,
        }
    }
}

impl VtParser {
    /// The parser is well formed.
    pub open spec fn wf(&self) -> bool {
        self@.wf()
    }

    /// A fresh parser in the ground state.
    pub fn new() -> (r: VtParser)
        ensures
            r.wf(),
            r@ == init_parser_model(),
    {
        let p = VtParser {
            state: ParserState::Ground,
            params: Vec::new(),
            current: 0,
            has_param: false,
            in_subparam: false,
            intermediates: Vec::new(),
            osc_parts: Vec::new(),
            osc_current: Vec::new(),
            utf8_bytes: Vec::new(),
            utf8_need: 0,
        };
        proof {
            assert(p@ =~~= init_parser_model());
        }
        p
    }

    /// One byte of input; at most one event comes out. The new state and
    /// the event are exactly those of [`parser_step_spec`].
    pub fn advance(&mut self, b: u8) -> (r: Option<VtEvent>)
        requires
            old(self).wf(),
        ensures
            final(self).wf(),
            final(self)@ == parser_step_spec(old(self)@, b).0,
            event_view(r) == parser_step_spec(old(self)@, b).1,
    {
        match self.state {
            ParserState::Ground => self.ground_byte(b),
            ParserState::Escape => self.escape_byte(b),
            ParserState::EscapeIntermediate => self.escape_intermediate_byte(b),
            ParserState::Csi => self.csi_byte(b),
            ParserState::Osc => self.osc_byte(b),
            ParserState::OscEsc => self.osc_esc_byte(b),
            ParserState::IgnoreString => self.ignore_string_byte(b),
            ParserState::IgnoreStringEsc => self.ignore_string_esc_byte(b),
            ParserState::Utf8Collect => self.utf8_byte(b),
        }
    }

    /// Clear the intermediates and enter the `Escape` state.
    fn enter_escape(&mut self)
        ensures
            final(self)@ == enter_escape_spec(old(self)@),
    {
        self.state = ParserState::Escape;
        self.intermediates = Vec::new();
        proof {
            assert(self@ =~~= enter_escape_spec(old(self)@));
        }
    }

    /// One byte in the `Ground` state.
    fn ground_byte(&mut self, b: u8) -> (r: Option<VtEvent>)
        requires
            old(self).wf(),
        ensures
            final(self).wf(),
            final(self)@ == ground_step_spec(old(self)@, b).0,
            event_view(r) == ground_step_spec(old(self)@, b).1,
    {
        if b == 0x1B {
            self.enter_escape();
            None
        } else if b < 0x20 {
            Some(VtEvent::Execute(b))
        } else if b <= 0x7E {
            Some(VtEvent::Print(b as char))
        } else if b == 0x7F {
            None
        } else if (0xC2 <= b && b <= 0xDF) || (0xE0 <= b && b <= 0xEF) || (0xF0 <= b && b <= 0xF4) {
            let need: u8 = if b <= 0xDF {
                1
            } else if b <= 0xEF {
                2
            } else {
                3
            };
            let mut bytes: Vec<u8> = Vec::new();
            bytes.push(b);
            self.utf8_bytes = bytes;
            self.utf8_need = need;
            self.state = ParserState::Utf8Collect;
            proof {
                assert(self@ =~~= ground_step_spec(old(self)@, b).0);
            }
            None
        } else {
            None
        }
    }

    /// One byte in the `Escape` state.
    fn escape_byte(&mut self, b: u8) -> (r: Option<VtEvent>)
        requires
            old(self).wf(),
        ensures
            final(self).wf(),
            final(self)@ == escape_step_spec(old(self)@, b).0,
            event_view(r) == escape_step_spec(old(self)@, b).1,
    {
        if b == 0x1B {
            self.enter_escape();
            None
        } else if b < 0x20 {
            Some(VtEvent::Execute(b))
        } else if b <= 0x2F {
            if self.intermediates.len() < MAX_INTERMEDIATES {
                self.intermediates.push(b);
            }
            self.state = ParserState::EscapeIntermediate;
            proof {
                assert(self@ =~~= escape_step_spec(old(self)@, b).0);
            }
            None
        } else if b == 0x5B {
            self.state = ParserState::Csi;
            self.params = Vec::new();
            self.current = 0;
            self.has_param = false;
            self.in_subparam = false;
            self.intermediates = Vec::new();
            proof {
                assert(self@ =~~= enter_csi_spec(old(self)@));
            }
            None
        } else if b == 0x5D {
            self.state = ParserState::Osc;
            self.osc_parts = Vec::new();
            self.osc_current = Vec::new();
            proof {
                assert(self@ =~~= enter_osc_spec(old(self)@));
            }
            None
        } else if b == 0x50 || b == 0x58 || b == 0x5E || b == 0x5F {
            self.state = ParserState::IgnoreString;
            proof {
                assert(self@ =~~= (ParserModel { state: ParserState::IgnoreString, ..old(self)@ }));
            }
            None
        } else if b <= 0x7E {
            let mut ints: Vec<u8> = Vec::new();
            core::mem::swap(&mut ints, &mut self.intermediates);
            self.state = ParserState::Ground;
            proof {
                assert(self@ =~~= escape_step_spec(old(self)@, b).0);
            }
            Some(VtEvent::Esc { intermediates: ints, final_byte: b })
        } else {
            None
        }
    }

    /// One byte in the `EscapeIntermediate` state.
    fn escape_intermediate_byte(&mut self, b: u8) -> (r: Option<VtEvent>)
        requires
            old(self).wf(),
        ensures
            final(self).wf(),
            final(self)@ == escape_intermediate_step_spec(old(self)@, b).0,
            event_view(r) == escape_intermediate_step_spec(old(self)@, b).1,
    {
        if b == 0x1B {
            self.enter_escape();
            None
        } else if b < 0x20 {
            Some(VtEvent::Execute(b))
        } else if b <= 0x2F {
            if self.intermediates.len() < MAX_INTERMEDIATES {
                self.intermediates.push(b);
            }
            proof {
                assert(self@ =~~= escape_intermediate_step_spec(old(self)@, b).0);
            }
            None
        } else if b <= 0x7E {
            let mut ints: Vec<u8> = Vec::new();
            core::mem::swap(&mut ints, &mut self.intermediates);
            self.state = ParserState::Ground;
            proof {
                assert(self@ =~~= escape_intermediate_step_spec(old(self)@, b).0);
            }
            Some(VtEvent::Esc { intermediates: ints, final_byte: b })
        } else {
            None
        }
    }

    /// One byte in the `Csi` state.
    fn csi_byte(&mut self, b: u8) -> (r: Option<VtEvent>)
        requires
            old(self).wf(),
        ensures
            final(self).wf(),
            final(self)@ == csi_step_spec(old(self)@, b).0,
            event_view(r) == csi_step_spec(old(self)@, b).1,
    {
        if b == 0x1B {
            self.enter_escape();
            None
        } else if b < 0x20 {
            Some(VtEvent::Execute(b))
        } else if 0x30 <= b && b <= 0x39 {
            if !self.in_subparam {
                let next: u32 = (self.current as u32) * 10 + ((b - 0x30) as u32);
                self.current = if next <= 0xFFFF {
                    next as u16
                } else {
                    0xFFFF
                };
                self.has_param = true;
            }
            proof {
                assert(self@ =~~= csi_step_spec(old(self)@, b).0);
            }
            None
        } else if b == 0x3B {
            if self.params.len() < MAX_PARAMS {
                self.params.push(self.current);
            }
            self.current = 0;
            self.has_param = true;
            self.in_subparam = false;
            proof {
                assert(self@ =~~= csi_step_spec(old(self)@, b).0);
            }
            None
        } else if b == 0x3A {
            self.in_subparam = true;
            proof {
                assert(self@ =~~= csi_step_spec(old(self)@, b).0);
            }
            None
        } else if (0x20 <= b && b <= 0x2F) || (0x3C <= b && b <= 0x3F) {
            if self.intermediates.len() < MAX_INTERMEDIATES {
                self.intermediates.push(b);
            }
            proof {
                assert(self@ =~~= csi_step_spec(old(self)@, b).0);
            }
            None
        } else if 0x40 <= b && b <= 0x7E {
            if self.has_param && self.params.len() < MAX_PARAMS {
                self.params.push(self.current);
            }
            let mut params: Vec<u16> = Vec::new();
            core::mem::swap(&mut params, &mut self.params);
            let mut ints: Vec<u8> = Vec::new();
            core::mem::swap(&mut ints, &mut self.intermediates);
            self.current = 0;
            self.has_param = false;
            self.in_subparam = false;
            self.state = ParserState::Ground;
            proof {
                assert(self@ =~~= csi_done_spec(old(self)@));
            }
            Some(VtEvent::Csi { params, intermediates: ints, final_byte: b })
        } else {
            None
        }
    }

    /// Finish the OSC string: the pending part joins the completed ones
    /// (within the budget) and the collectors are cleared.
    fn finish_osc(&mut self) -> (r: Vec<Vec<u8>>)
        ensures
            Seq::new(r@.len() as nat, |i: int| r@[i]@) == osc_finished_parts_spec(old(self)@),
            final(self)@ == osc_done_spec(old(self)@),
    {
        if self.osc_parts.len() < MAX_OSC_PARTS {
            let mut cur: Vec<u8> = Vec::new();
            core::mem::swap(&mut cur, &mut self.osc_current);
            self.osc_parts.push(cur);
        } else {
            self.osc_current = Vec::new();
        }
        let mut parts: Vec<Vec<u8>> = Vec::new();
        core::mem::swap(&mut parts, &mut self.osc_parts);
        self.state = ParserState::Ground;
        proof {
            assert(Seq::new(parts@.len() as nat, |i: int| parts@[i]@) =~~= osc_finished_parts_spec(
                old(self)@,
            ));
            assert(self@ =~~= osc_done_spec(old(self)@));
        }
        parts
    }

    /// One byte in the `Osc` state.
    fn osc_byte(&mut self, b: u8) -> (r: Option<VtEvent>)
        requires
            old(self).wf(),
        ensures
            final(self).wf(),
            final(self)@ == osc_step_spec(old(self)@, b).0,
            event_view(r) == osc_step_spec(old(self)@, b).1,
    {
        if b == 0x07 {
            let parts = self.finish_osc();
            Some(VtEvent::Osc { parts })
        } else if b == 0x1B {
            self.state = ParserState::OscEsc;
            proof {
                assert(self@ =~~= osc_step_spec(old(self)@, b).0);
            }
            None
        } else if b == 0x3B {
            if self.osc_parts.len() < MAX_OSC_PARTS {
                let mut cur: Vec<u8> = Vec::new();
                core::mem::swap(&mut cur, &mut self.osc_current);
                self.osc_parts.push(cur);
                proof {
                    assert(self@ =~~= osc_step_spec(old(self)@, b).0);
                }
            }
            None
        } else if b >= 0x20 {
            if self.osc_current.len() < MAX_OSC_LEN {
                self.osc_current.push(b);
                proof {
                    assert(self@ =~~= osc_step_spec(old(self)@, b).0);
                }
            }
            None
        } else {
            None
        }
    }

    /// One byte in the `OscEsc` state.
    fn osc_esc_byte(&mut self, b: u8) -> (r: Option<VtEvent>)
        requires
            old(self).wf(),
        ensures
            final(self).wf(),
            final(self)@ == osc_esc_step_spec(old(self)@, b).0,
            event_view(r) == osc_esc_step_spec(old(self)@, b).1,
    {
        if b == 0x5C {
            let parts = self.finish_osc();
            Some(VtEvent::Osc { parts })
        } else {
            self.enter_escape();
            self.escape_byte(b)
        }
    }

    /// One byte in the `IgnoreString` state.
    fn ignore_string_byte(&mut self, b: u8) -> (r: Option<VtEvent>)
        requires
            old(self).wf(),
        ensures
            final(self).wf(),
            final(self)@ == ignore_string_step_spec(old(self)@, b).0,
            event_view(r) == ignore_string_step_spec(old(self)@, b).1,
    {
        if b == 0x1B {
            self.state = ParserState::IgnoreStringEsc;
            proof {
                assert(self@ =~~= ignore_string_step_spec(old(self)@, b).0);
            }
        } else if b == 0x07 {
            self.state = ParserState::Ground;
            proof {
                assert(self@ =~~= ignore_string_step_spec(old(self)@, b).0);
            }
        }
        None
    }

    /// One byte in the `IgnoreStringEsc` state.
    fn ignore_string_esc_byte(&mut self, b: u8) -> (r: Option<VtEvent>)
        requires
            old(self).wf(),
        ensures
            final(self).wf(),
            final(self)@ == ignore_string_esc_step_spec(old(self)@, b).0,
            event_view(r) == ignore_string_esc_step_spec(old(self)@, b).1,
    {
        if b == 0x5C {
            self.state = ParserState::Ground;
            proof {
                assert(self@ =~~= ignore_string_esc_step_spec(old(self)@, b).0);
            }
        } else if b != 0x1B {
            self.state = ParserState::IgnoreString;
            proof {
                assert(self@ =~~= ignore_string_esc_step_spec(old(self)@, b).0);
            }
        }
        None
    }

    /// One byte in the `Utf8Collect` state.
    fn utf8_byte(&mut self, b: u8) -> (r: Option<VtEvent>)
        requires
            old(self).wf(),
            old(self)@.state == ParserState::Utf8Collect,
        ensures
            final(self).wf(),
            final(self)@ == utf8_step_spec(old(self)@, b).0,
            event_view(r) == utf8_step_spec(old(self)@, b).1,
    {
        if 0x80 <= b && b <= 0xBF {
            self.utf8_bytes.push(b);
            if self.utf8_bytes.len() == (self.utf8_need as usize) + 1 {
                let bytes = &self.utf8_bytes;
                let cp: u32 = if bytes.len() == 2 {
                    ((bytes[0] as u32) - 0xC0) * 0x40 + ((bytes[1] as u32) - 0x80)
                } else if bytes.len() == 3 {
                    ((bytes[0] as u32) - 0xE0) * 0x1000 + ((bytes[1] as u32) - 0x80) * 0x40 + ((
                    bytes[2] as u32) - 0x80)
                } else {
                    ((bytes[0] as u32) - 0xF0) * 0x40000 + ((bytes[1] as u32) - 0x80) * 0x1000 + ((
                    bytes[2] as u32) - 0x80) * 0x40 + ((bytes[3] as u32) - 0x80)
                };
                self.utf8_bytes = Vec::new();
                self.utf8_need = 0;
                self.state = ParserState::Ground;
                proof {
                    assert(self@ =~~= utf8_done_spec(old(self)@));
                }
                match char_from_u32(cp) {
                    Some(c) => Some(VtEvent::Print(c)),
                    None => None,
                }
            } else {
                proof {
                    assert(self@ =~~= utf8_step_spec(old(self)@, b).0);
                }
                None
            }
        } else {
            self.utf8_bytes = Vec::new();
            self.utf8_need = 0;
            self.state = ParserState::Ground;
            proof {
                assert(self@ =~~= utf8_done_spec(old(self)@));
            }
            self.ground_byte(b)
        }
    }
}

} // verus!
