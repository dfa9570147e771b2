//! The numeric editing engine: a single-line prompt specialized for numbers.
//! It extends the text engine's buffer handling with a sign toggle and
//! single-decimal-point tracking: `-` flips the sign on signed kinds, `.`
//! inserts the point or moves it to the caret on fractional kinds, and
//! submission strips a trailing point and rejects an empty value in place.
use crate::buffer::{op_split, BufOp, SplitBuffer};
use crate::charseq::{chars_of, string_of};
use crate::colors::{color_parts, modifier_parts, styled, Color, Modifier};
use crate::common::{
    opt_view, or_true, outcome_view, trunc16, KeyEvent, PromptError, PromptRun, PromptType,
    StepStatus,
};
use crate::esc::{
    clear_line_seq, csi_clear_line, csi_goto, csi_left, csi_up, goto_seq, left_seq, up_seq,
};
use crate::text_prompt::{cancel_marker_spec, submit_tail_spec};
use crate::theme::{default_hint_chars, default_hint_spec, extra_part_chars, extra_part_spec, glyph};
use vstd::prelude::*;

verus! {

/// A numeric prompt: its descriptive fields and its remembered anchor row.
#[derive(Debug)]
pub struct NumberPrompt {
    pub prefix: String,
    pub text: String,
    pub default: Option<String>,
    pub extra: Option<String>,
    pub line: Option<u16>,
    pub prompt_type: PromptType,
}

/// The live state of one numeric editing attempt: the buffer, the sign
/// (`true` is positive), whether a decimal point was recorded and at which
/// offset, and the row just past the prompt.
#[derive(Debug)]
pub struct NumAttempt {
    pub buf: SplitBuffer,
    pub sign: bool,
    pub has_dot: bool,
    pub dot_pos: usize,
    pub end_line: u16,
}

/// The mathematical numeric editing state.
pub ghost struct NumState {
    pub buf: (Seq<char>, Seq<char>),
    pub sign: bool,
    pub has_dot: bool,
    pub dot_pos: nat,
}

/// The effect of one key event on a numeric attempt.
pub ghost struct NumStep {
    pub state: NumState,
    pub status: StepStatus,
    pub out: Seq<char>,
}

impl NumAttempt {
    /// The state this attempt stands in.
    pub open spec fn state(self) -> NumState {
        NumState {
            buf: (self.buf.before@, self.buf.after@),
            sign: self.sign,
            has_dot: self.has_dot,
            dot_pos: self.dot_pos as nat,
        }
    }
}

/// Whether `c` is a decimal digit.
pub open spec fn is_digit(c: char) -> bool {
    '0' <= c && c <= '9'
}

/// The rendered value: a literal `-` before the content when the sign is
/// negative, nothing when it is positive.
pub open spec fn num_rendered(sign: bool, buf: (Seq<char>, Seq<char>)) -> Seq<char> {
    (if sign {
        Seq::<char>::empty()
    } else {
        seq!['-']
    }) + buf.0 + buf.1
}

/// The numeric prompt line: move far left, erase the line, then the bold
/// bright-green prefix, the bold text, the glyph, and the annotation.
pub open spec fn num_prompt_text_spec(
    prefix: Seq<char>,
    text: Seq<char>,
    extra: Option<Seq<char>>,
) -> Seq<char> {
    csi_left(999) + csi_clear_line() + styled(
        modifier_parts(Modifier::Bold),
        styled(color_parts(Color::GreenBright), prefix),
    ) + seq![' '] + styled(modifier_parts(Modifier::Bold), text) + seq![' '] + glyph()
        + extra_part_spec(extra)
}

/// The numeric default hint: erase the line, then the dim hint; nothing when
/// no default exists.
pub open spec fn num_default_out_spec(default: Option<Seq<char>>) -> Seq<char> {
    match default {
        Option::None => Seq::<char>::empty(),
        Option::Some(d) => csi_left(999) + csi_clear_line() + default_hint_spec(
            Option::Some(d),
        ),
    }
}

/// The numeric redraw: step one row down, erase it, move back up, then the
/// prompt line, the rendered value in cyan, and the cursor moved left past
/// the after-segment.
pub open spec fn num_update_spec(p: NumberPrompt, st: NumState) -> Seq<char> {
    seq!['\n'] + csi_left(99) + csi_clear_line() + csi_up(1) + num_prompt_text_spec(
        p.prefix@,
        p.text@,
        opt_view(p.extra),
    ) + styled(color_parts(Color::Cyan), num_rendered(st.sign, st.buf)) + if st.buf.1.len() >= 1 {
        csi_left(trunc16(st.buf.1.len()))
    } else {
        Seq::<char>::empty()
    }
}

/// The numeric inline error: step one row down, erase it, write the message
/// in red, move back up, and redraw the prompt line with the rendered value.
pub open spec fn num_send_err_spec(p: NumberPrompt, st: NumState, msg: Seq<char>) -> Seq<char> {
    seq!['\n'] + csi_left(9999) + csi_clear_line() + csi_clear_line() + styled(
        color_parts(Color::Red),
        msg,
    ) + csi_up(1) + num_prompt_text_spec(p.prefix@, p.text@, opt_view(p.extra)) + styled(
        color_parts(Color::Cyan),
        num_rendered(st.sign, st.buf),
    ) + if st.buf.1.len() >= 1 {
        csi_left(trunc16(st.buf.1.len()))
    } else {
        Seq::<char>::empty()
    }
}

/// The state after typing `.`: a recorded point is moved to the caret —
/// removed from whichever segment the recorded offset designates (the offset
/// clamped into range), then re-inserted just before the caret; a missing
/// point is inserted there.
pub open spec fn dot_press_state(st: NumState) -> NumState {
    let pre = st.buf.0;
    let post = st.buf.1;
    if st.has_dot {
        if st.dot_pos <= pre.len() {
            let pre2 = if st.dot_pos >= 1 {
                pre.remove(st.dot_pos as int - 1)
            } else {
                pre
            };
            let pre3 = pre2.push('.');
            NumState { buf: (pre3, post), sign: st.sign, has_dot: true, dot_pos: pre3.len() }
        } else {
            let idx = st.dot_pos - pre.len();
            let idxc = if idx > post.len() {
                post.len()
            } else {
                idx as nat
            };
            let post2 = if idxc >= 1 {
                post.remove(idxc as int - 1)
            } else {
                post
            };
            let pre2 = pre.push('.');
            NumState { buf: (pre2, post2), sign: st.sign, has_dot: true, dot_pos: pre2.len() }
        }
    } else {
        let pre2 = pre.push('.');
        NumState { buf: (pre2, post), sign: st.sign, has_dot: true, dot_pos: pre2.len() }
    }
}

/// What one key event does to a numeric attempt.
pub open spec fn num_step_spec(
    p: NumberPrompt,
    st: NumState,
    end_line: u16,
    ev: KeyEvent,
) -> NumStep
    recommends
        p.prompt_type.is_numeric(),
{
    if ev.is_cancel() {
        NumStep {
            state: st,
            status: StepStatus::Cancelled,
            out: num_update_spec(p, st) + cancel_marker_spec(),
        }
    } else {
        match ev {
            KeyEvent::Char(ch) => if ch == '\n' {
                num_enter_spec(p, st, end_line)
            } else if is_digit(ch) {
                let st2 = NumState { buf: op_split(st.buf, BufOp::Insert(ch)), ..st };
                NumStep { state: st2, status: StepStatus::Editing, out: num_update_spec(p, st2) }
            } else if ch == '-' {
                if !p.prompt_type.is_signed() {
                    NumStep {
                        state: st,
                        status: StepStatus::Editing,
                        out: num_send_err_spec(
                            p,
                            st,
                            "The number is unsigned, cannot be negative."@,
                        ),
                    }
                } else {
                    let st2 = NumState { sign: !st.sign, ..st };
                    NumStep {
                        state: st2,
                        status: StepStatus::Editing,
                        out: num_update_spec(p, st2),
                    }
                }
            } else if ch == '.' {
                if !p.prompt_type.is_fractional() {
                    NumStep {
                        state: st,
                        status: StepStatus::Editing,
                        out: num_send_err_spec(p, st, "The number is integer, cannot has dot."@),
                    }
                } else {
                    let st2 = dot_press_state(st);
                    NumStep {
                        state: st2,
                        status: StepStatus::Editing,
                        out: num_update_spec(p, st2),
                    }
                }
            } else {
                NumStep { state: st, status: StepStatus::Editing, out: Seq::empty() }
            },
            KeyEvent::Left => if st.buf.0.len() > 0 {
                let st2 = NumState { buf: op_split(st.buf, BufOp::MoveLeft), ..st };
                NumStep { state: st2, status: StepStatus::Editing, out: num_update_spec(p, st2) }
            } else {
                NumStep { state: st, status: StepStatus::Editing, out: Seq::empty() }
            },
            KeyEvent::Right => {
                let st2 = NumState { buf: op_split(st.buf, BufOp::MoveRight), ..st };
                NumStep { state: st2, status: StepStatus::Editing, out: num_update_spec(p, st2) }
            },
            KeyEvent::Backspace => if st.buf.0.len() > 0 {
                let popped = st.buf.0.last();
                let st2 = NumState {
                    buf: op_split(st.buf, BufOp::DeleteBefore),
                    has_dot: if popped == '.' {
                        false
                    } else {
                        st.has_dot
                    },
                    ..st
                };
                NumStep { state: st2, status: StepStatus::Editing, out: num_update_spec(p, st2) }
            } else {
                NumStep { state: st, status: StepStatus::Editing, out: Seq::empty() }
            },
            KeyEvent::Delete => if st.buf.1.len() > 0 {
                let st2 = NumState { buf: op_split(st.buf, BufOp::DeleteAfter), ..st };
                NumStep { state: st2, status: StepStatus::Editing, out: num_update_spec(p, st2) }
            } else {
                NumStep { state: st, status: StepStatus::Editing, out: Seq::empty() }
            },
            KeyEvent::Home | KeyEvent::PageUp => {
                let st2 = NumState { buf: op_split(st.buf, BufOp::MoveToStart), ..st };
                NumStep { state: st2, status: StepStatus::Editing, out: num_update_spec(p, st2) }
            },
            KeyEvent::End | KeyEvent::PageDown => {
                let st2 = NumState { buf: op_split(st.buf, BufOp::MoveToEnd), ..st };
                NumStep { state: st2, status: StepStatus::Editing, out: num_update_spec(p, st2) }
            },
            _ => NumStep { state: st, status: StepStatus::Editing, out: Seq::empty() },
        }
    }
}

/// Enter: substitute the default when the value is empty; strip a trailing
/// decimal point; reject a still-empty value in place, else submit.
pub open spec fn num_enter_spec(p: NumberPrompt, st: NumState, end_line: u16) -> NumStep {
    let content = st.buf.0 + st.buf.1;
    let substituted = content.len() == 0 && opt_view(p.default) is Some;
    let st1 = if substituted {
        NumState { buf: (opt_view(p.default)->Some_0, Seq::<char>::empty()), ..st }
    } else {
        st
    };
    let out1 = if substituted {
        num_update_spec(p, st1)
    } else {
        Seq::<char>::empty()
    };
    let c1 = st1.buf.0 + st1.buf.1;
    let trailing = c1.len() >= 1 && c1.last() == '.';
    let st2 = if trailing {
        NumState {
            buf: (c1.drop_last(), Seq::<char>::empty()),
            sign: st1.sign,
            has_dot: false,
            dot_pos: st1.dot_pos,
        }
    } else {
        st1
    };
    if (st2.buf.0 + st2.buf.1).len() == 0 {
        NumStep {
            state: st2,
            status: StepStatus::Editing,
            out: out1 + num_send_err_spec(p, st2, "The value must has length of 1 or more."@),
        }
    } else {
        NumStep { state: st2, status: StepStatus::Submitted, out: out1 + submit_tail_spec(
            end_line,
        ) }
    }
}

/// The row just past the numeric prompt for this attempt.
pub open spec fn spec_num_end_line(line: Option<u16>, cursor_row: u16, go_back: bool) -> u16 {
    match line {
        Option::None => (cursor_row + 1) as u16,
        Option::Some(l) => if go_back {
            (cursor_row + 1) as u16
        } else {
            (l + 1) as u16
        },
    }
}

/// The output of starting a numeric attempt.
pub open spec fn num_begin_out_spec(
    line: Option<u16>,
    prefix: Seq<char>,
    text: Seq<char>,
    extra: Option<Seq<char>>,
    default: Option<Seq<char>>,
) -> Seq<char> {
    (match line {
        Option::None => Seq::<char>::empty(),
        Option::Some(l) => csi_goto(0, l as nat),
    }) + num_prompt_text_spec(prefix, text, extra) + num_default_out_spec(default)
}

/// A fresh numeric attempt: empty buffer, positive sign, no recorded point.
pub open spec fn num_fresh_state() -> NumState {
    NumState {
        buf: (Seq::<char>::empty(), Seq::<char>::empty()),
        sign: true,
        has_dot: false,
        dot_pos: 0,
    }
}

/// Driving a numeric attempt over `events` until it submits, cancels, or the
/// events run out. A submission yields the rendered value, sign included.
pub open spec fn num_run_spec(
    p: NumberPrompt,
    st: NumState,
    end_line: u16,
    events: Seq<KeyEvent>,
) -> PromptRun
    decreases events.len(),
{
    if events.len() == 0 {
        PromptRun { outcome: Option::None, out: Seq::empty(), used: 0 }
    } else {
        let stp = num_step_spec(p, st, end_line, events.first());
        if stp.status == StepStatus::Cancelled {
            PromptRun {
                outcome: Option::Some(Err(PromptError::KeyboardInterrupt)),
                out: stp.out,
                used: 1,
            }
        } else if stp.status == StepStatus::Submitted {
            PromptRun {
                outcome: Option::Some(Ok(num_rendered(stp.state.sign, stp.state.buf))),
                out: stp.out,
                used: 1,
            }
        } else {
            let rest = num_run_spec(p, stp.state, end_line, events.drop_first());
            PromptRun { outcome: rest.outcome, out: stp.out + rest.out, used: rest.used + 1 }
        }
    }
}

/// The numeric prompt after an attempt started.
pub open spec fn num_anchored(p: NumberPrompt, cursor_row: u16) -> NumberPrompt {
    NumberPrompt {
        line: Some(
            match p.line {
                Option::None => cursor_row,
                Option::Some(l) => l,
            },
        ),
        ..p
    }
}

/// One whole numeric attempt: the output of starting it, then the run.
pub open spec fn num_attempt_spec(
    p: NumberPrompt,
    cursor_row: u16,
    go_back: Option<bool>,
    events: Seq<KeyEvent>,
) -> PromptRun {
    let end_line = spec_num_end_line(p.line, cursor_row, or_true(go_back));
    let begin_out = num_begin_out_spec(
        p.line,
        p.prefix@,
        p.text@,
        opt_view(p.extra),
        opt_view(p.default),
    );
    let run = num_run_spec(num_anchored(p, cursor_row), num_fresh_state(), end_line, events);
    PromptRun { outcome: run.outcome, out: begin_out + run.out, used: run.used }
}

impl NumberPrompt {
    /// The numeric prompt line, as characters.
    fn prompt_text_chars(&self) -> (r: Vec<char>)
        ensures
            r@ == num_prompt_text_spec(self.prefix@, self.text@, opt_view(self.extra)),
    {
        let mut out = left_seq(999);
        let mut part = clear_line_seq();
        out.append(&mut part);
        let mut part = Modifier::Bold.apply_chars(
            &Color::GreenBright.apply_chars(&chars_of(self.prefix.as_str())),
        );
        out.append(&mut part);
        out.push(' ');
        let mut part = Modifier::Bold.apply_chars(&chars_of(self.text.as_str()));
        out.append(&mut part);
        out.push(' ');
        out.push('\u{203a}');
        let mut part = extra_part_chars(&self.extra);
        out.append(&mut part);
        proof {
            assert(out@ =~= num_prompt_text_spec(self.prefix@, self.text@, opt_view(self.extra)));
        }
        out
    }

    /// The numeric prompt line of this prompt.
    pub fn prompt_line(&self) -> (r: String)
        ensures
            r@ == num_prompt_text_spec(self.prefix@, self.text@, opt_view(self.extra)),
    {
        string_of(&self.prompt_text_chars())
    }

    /// The numeric default hint output.
    fn default_out_chars(&self) -> (r: Vec<char>)
        ensures
            r@ == num_default_out_spec(opt_view(self.default)),
    {
        match &self.default {
            Option::None => Vec::new(),
            Option::Some(_) => {
                let mut out = left_seq(999);
                let mut part = clear_line_seq();
                out.append(&mut part);
                let mut part = default_hint_chars(&self.default);
                out.append(&mut part);
                proof {
                    assert(out@ =~= num_default_out_spec(opt_view(self.default)));
                }
                out
            },
        }
    }

    /// The rendered value and trailing cursor move of a redraw.
    fn value_tail_chars(&self, a: &NumAttempt) -> (r: Vec<char>)
        ensures
            r@ == styled(color_parts(Color::Cyan), num_rendered(a.sign, a.state().buf)) + if a
                .buf
                .after@
                .len() >= 1 {
                csi_left(trunc16(a.buf.after@.len()))
            } else {
                Seq::<char>::empty()
            },
    {
        let mut val: Vec<char> = Vec::new();
        if !a.sign {
            val.push('-');
        }
        let mut content = a.buf.content();
        val.append(&mut content);
        proof {
            assert(val@ =~= num_rendered(a.sign, a.state().buf));
        }
        let mut out = Color::Cyan.apply_chars(&val);
        let plen = a.buf.after.len();
        if plen >= 1 {
            let n: u16 = (plen % 0x10000) as u16;
            proof {
                assert(n as nat == trunc16(a.buf.after@.len()));
            }
            let mut l = left_seq(n);
            out.append(&mut l);
        }
        out
    }

    /// The numeric redraw for the attempt, as characters.
    fn update_chars(&self, a: &NumAttempt) -> (r: Vec<char>)
        ensures
            r@ == num_update_spec(*self, a.state()),
    {
        let mut out: Vec<char> = Vec::new();
        out.push('\n');
        let mut part = left_seq(99);
        out.append(&mut part);
        let mut part = clear_line_seq();
        out.append(&mut part);
        let mut part = up_seq(1);
        out.append(&mut part);
        let mut part = self.prompt_text_chars();
        out.append(&mut part);
        let mut part = self.value_tail_chars(a);
        out.append(&mut part);
        proof {
            assert(out@ =~= num_update_spec(*self, a.state()));
        }
        out
    }

    /// The numeric inline error for the attempt, as characters.
    fn send_err_chars(&self, a: &NumAttempt, msg: &str) -> (r: Vec<char>)
        ensures
            r@ == num_send_err_spec(*self, a.state(), msg@),
    {
        let mut out: Vec<char> = Vec::new();
        out.push('\n');
        let mut part = left_seq(9999);
        out.append(&mut part);
        let mut part = clear_line_seq();
        out.append(&mut part);
        let mut part = clear_line_seq();
        out.append(&mut part);
        let mut part = Color::Red.apply_chars(&chars_of(msg));
        out.append(&mut part);
        let mut part = up_seq(1);
        out.append(&mut part);
        let mut part = self.prompt_text_chars();
        out.append(&mut part);
        let mut part = self.value_tail_chars(a);
        out.append(&mut part);
        proof {
            assert(out@ =~= num_send_err_spec(*self, a.state(), msg@));
        }
        out
    }
}

impl NumAttempt {
    /// The rendered value, as characters.
    pub(crate) fn rendered_chars(&self) -> (r: Vec<char>)
        ensures
            r@ == num_rendered(self.sign, self.state().buf),
    {
        let mut val: Vec<char> = Vec::new();
        if !self.sign {
            val.push('-');
        }
        let mut content = self.buf.content();
        val.append(&mut content);
        proof {
            assert(val@ =~= num_rendered(self.sign, self.state().buf));
        }
        val
    }

    /// The rendered value: a literal `-` before the content when the sign is
    /// negative.
    pub fn rendered(&self) -> (r: String)
        ensures
            r@ == num_rendered(self.sign, self.state().buf),
    {
        string_of(&self.rendered_chars())
    }
}

impl NumberPrompt {
    /// Starts one numeric editing attempt, as characters.
    fn begin_chars(&mut self, cursor_row: u16, go_back: Option<bool>) -> (r: (
        NumAttempt,
        Vec<char>,
    ))
        requires
            1 <= cursor_row < u16::MAX,
            old(self).line matches Some(l) ==> 1 <= l < u16::MAX,
        ensures
            *final(self) == num_anchored(*old(self), cursor_row),
            r.0.state() == num_fresh_state(),
            r.0.end_line == spec_num_end_line(old(self).line, cursor_row, or_true(go_back)),
            r.0.end_line >= 1,
            r.1@ == num_begin_out_spec(
                old(self).line,
                old(self).prefix@,
                old(self).text@,
                opt_view(old(self).extra),
                opt_view(old(self).default),
            ),
    {
        let go_back = match go_back {
            Option::Some(v) => v,
            Option::None => true,
        };
        let mut out: Vec<char> = Vec::new();
        let end_line: u16;
        match self.line {
            Option::None => {
                self.line = Option::Some(cursor_row);
                end_line = cursor_row + 1;
            },
            Option::Some(l) => {
                let mut jump = goto_seq(0, l);
                out.append(&mut jump);
                end_line = if go_back {
                    cursor_row + 1
                } else {
                    l + 1
                };
            },
        }
        let mut part = self.prompt_text_chars();
        out.append(&mut part);
        let mut part = self.default_out_chars();
        out.append(&mut part);
        proof {
            assert(out@ =~= num_begin_out_spec(
                old(self).line,
                old(self).prefix@,
                old(self).text@,
                opt_view(old(self).extra),
                opt_view(old(self).default),
            ));
        }
        (
            NumAttempt {
                buf: SplitBuffer::new(),
                sign: true,
                has_dot: false,
                dot_pos: 0,
                end_line,
            },
            out,
        )
    }

    /// Starts one numeric editing attempt. Records the anchor row on first
    /// use; on a retry, emits a jump back to the anchor. Returns the fresh
    /// attempt state and the exact output to write.
    pub fn begin(&mut self, cursor_row: u16, go_back: Option<bool>) -> (r: (NumAttempt, String))
        requires
            1 <= cursor_row < u16::MAX,
            old(self).line matches Some(l) ==> 1 <= l < u16::MAX,
        ensures
            *final(self) == num_anchored(*old(self), cursor_row),
            r.0.state() == num_fresh_state(),
            r.0.end_line == spec_num_end_line(old(self).line, cursor_row, or_true(go_back)),
            r.0.end_line >= 1,
            r.1@ == num_begin_out_spec(
                old(self).line,
                old(self).prefix@,
                old(self).text@,
                opt_view(old(self).extra),
                opt_view(old(self).default),
            ),
    {
        let (a, out) = self.begin_chars(cursor_row, go_back);
        (a, string_of(&out))
    }

    /// Enter: substitute the default when the value is empty, strip a
    /// trailing decimal point, reject a still-empty value in place, else
    /// submit.
    #[verifier::rlimit(100)]
    fn enter_step(&self, a: &mut NumAttempt) -> (r: (StepStatus, Vec<char>))
        requires
            old(a).end_line >= 1,
        ensures
            ({
                let sp = num_enter_spec(*self, old(a).state(), old(a).end_line);
                &&& final(a).state() == sp.state
                &&& final(a).end_line == old(a).end_line
                &&& r.0 == sp.status
                &&& r.1@ == sp.out
            }),
    {
        let mut out: Vec<char> = Vec::new();
        if a.buf.before.len() == 0 && a.buf.after.len() == 0 && self.default.is_some() {
            match &self.default {
                Option::Some(d) => {
                    a.buf.before = chars_of(d.as_str());
                    a.buf.after = Vec::new();
                },
                Option::None => {},
            }
            let mut upd = self.update_chars(a);
            out.append(&mut upd);
        }
        let blen = a.buf.before.len();
        let alen = a.buf.after.len();
        let last_dot = if alen >= 1 {
            a.buf.after[alen - 1] == '.'
        } else if blen >= 1 {
            a.buf.before[blen - 1] == '.'
        } else {
            false
        };
        proof {
            let c1 = a.buf.before@ + a.buf.after@;
            assert(last_dot == (c1.len() >= 1 && c1.last() == '.'));
        }
        if last_dot {
            a.buf.move_to_end();
            a.buf.before.pop();
            a.has_dot = false;
        }
        if a.buf.before.len() == 0 && a.buf.after.len() == 0 {
            let mut e = self.send_err_chars(a, "The value must has length of 1 or more.");
            out.append(&mut e);
            proof {
                let sp = num_enter_spec(*self, old(a).state(), old(a).end_line);
                assert(a.state() == sp.state);
                assert(out@ =~= sp.out);
            }
            (StepStatus::Editing, out)
        } else {
            let mut tail = goto_seq(9999, a.end_line - 1);
            out.append(&mut tail);
            out.push('\n');
            let mut cl = clear_line_seq();
            out.append(&mut cl);
            proof {
                let sp = num_enter_spec(*self, old(a).state(), old(a).end_line);
                assert(a.state() == sp.state);
                assert(out@ =~= sp.out);
            }
            (StepStatus::Submitted, out)
        }
    }

    /// Typing `.` on a fractional kind: insert the point at the caret, or
    /// move a recorded one there.
    fn dot_step(&self, a: &mut NumAttempt) -> (r: Vec<char>)
        ensures
            final(a).state() == dot_press_state(old(a).state()),
            final(a).end_line == old(a).end_line,
            r@ == num_update_spec(*self, dot_press_state(old(a).state())),
    {
        if a.has_dot {
            if a.dot_pos <= a.buf.before.len() {
                if a.dot_pos >= 1 {
                    a.buf.before.remove(a.dot_pos - 1);
                }
                a.buf.before.push('.');
                a.dot_pos = a.buf.before.len();
            } else {
                let idx = a.dot_pos - a.buf.before.len();
                let alen = a.buf.after.len();
                let idxc = if idx > alen {
                    alen
                } else {
                    idx
                };
                if idxc >= 1 {
                    a.buf.after.remove(idxc - 1);
                }
                a.buf.before.push('.');
                a.dot_pos = a.buf.before.len();
            }
        } else {
            a.has_dot = true;
            a.buf.before.push('.');
            a.dot_pos = a.buf.before.len();
        }
        proof {
            assert(a.state() == dot_press_state(old(a).state()));
        }
        self.update_chars(a)
    }

    /// Applies one key event to the numeric attempt, as characters.
    #[verifier::rlimit(100)]
    fn step_chars(&self, a: &mut NumAttempt, ev: &KeyEvent) -> (r: (StepStatus, Vec<char>))
        requires
            old(a).end_line >= 1,
            self.prompt_type.is_numeric(),
        ensures
            ({
                let sp = num_step_spec(*self, old(a).state(), old(a).end_line, *ev);
                &&& final(a).state() == sp.state
                &&& final(a).end_line == old(a).end_line
                &&& r.0 == sp.status
                &&& r.1@ == sp.out
            }),
    {
        match ev {
            KeyEvent::CtrlC | KeyEvent::Esc => {
                let mut out = self.update_chars(a);
                let mut mark = Color::Red.apply_chars(&chars_of("<cancelled>"));
                out.append(&mut mark);
                out.push('\n');
                proof {
                    assert(out@ =~= num_update_spec(*self, a.state()) + cancel_marker_spec());
                }
                (StepStatus::Cancelled, out)
            },
            KeyEvent::Char(ch) => {
                if *ch == '\n' {
                    self.enter_step(a)
                } else if *ch >= '0' && *ch <= '9' {
                    a.buf.insert(*ch);
                    (StepStatus::Editing, self.update_chars(a))
                } else if *ch == '-' {
                    let signed = match self.prompt_type {
                        PromptType::Int | PromptType::Float => true,
                        _ => false,
                    };
                    if !signed {
                        (
                            StepStatus::Editing,
                            self.send_err_chars(a, "The number is unsigned, cannot be negative."),
                        )
                    } else {
                        a.sign = !a.sign;
                        (StepStatus::Editing, self.update_chars(a))
                    }
                } else if *ch == '.' {
                    let fractional = match self.prompt_type {
                        PromptType::Float | PromptType::UFloat => true,
                        _ => false,
                    };
                    if !fractional {
                        (
                            StepStatus::Editing,
                            self.send_err_chars(a, "The number is integer, cannot has dot."),
                        )
                    } else {
                        (StepStatus::Editing, self.dot_step(a))
                    }
                } else {
                    (StepStatus::Editing, Vec::new())
                }
            },
            KeyEvent::Left => {
                if a.buf.move_left() {
                    (StepStatus::Editing, self.update_chars(a))
                } else {
                    (StepStatus::Editing, Vec::new())
                }
            },
            KeyEvent::Right => {
                a.buf.move_right();
                (StepStatus::Editing, self.update_chars(a))
            },
            KeyEvent::Backspace => {
                match a.buf.delete_before() {
                    Option::Some(popped) => {
                        if popped == '.' {
                            a.has_dot = false;
                        }
                        (StepStatus::Editing, self.update_chars(a))
                    },
                    Option::None => (StepStatus::Editing, Vec::new()),
                }
            },
            KeyEvent::Delete => {
                if a.buf.delete_after() {
                    (StepStatus::Editing, self.update_chars(a))
                } else {
                    (StepStatus::Editing, Vec::new())
                }
            },
            KeyEvent::Home | KeyEvent::PageUp => {
                a.buf.move_to_start();
                (StepStatus::Editing, self.update_chars(a))
            },
            KeyEvent::End | KeyEvent::PageDown => {
                a.buf.move_to_end();
                (StepStatus::Editing, self.update_chars(a))
            },
            KeyEvent::Other => (StepStatus::Editing, Vec::new()),
        }
    }

    /// Applies one key event to the numeric attempt; returns how the attempt
    /// stands and the exact output to write.
    pub fn step(&self, a: &mut NumAttempt, ev: &KeyEvent) -> (r: (StepStatus, String))
        requires
            old(a).end_line >= 1,
            self.prompt_type.is_numeric(),
        ensures
            ({
                let sp = num_step_spec(*self, old(a).state(), old(a).end_line, *ev);
                &&& final(a).state() == sp.state
                &&& final(a).end_line == old(a).end_line
                &&& r.0 == sp.status
                &&& r.1@ == sp.out
            }),
    {
        let (status, out) = self.step_chars(a, ev);
        (status, string_of(&out))
    }

    /// Runs the numeric attempt over `events[i..]`, appending all output.
    #[verifier::rlimit(100)]
    fn run_steps(
        &self,
        a: &mut NumAttempt,
        events: &Vec<KeyEvent>,
        i: usize,
        out: &mut Vec<char>,
    ) -> (r: (Option<Result<String, PromptError>>, usize))
        requires
            old(a).end_line >= 1,
            self.prompt_type.is_numeric(),
            i <= events@.len(),
        ensures
            ({
                let run = num_run_spec(
                    *self,
                    old(a).state(),
                    old(a).end_line,
                    events@.skip(i as int),
                );
                &&& outcome_view(r.0) == run.outcome
                &&& final(out)@ == old(out)@ + run.out
                &&& r.1 == i + run.used
                &&& r.1 <= events@.len()
            }),
        decreases events@.len() - i,
    {
        if i == events.len() {
            proof {
                assert(events@.skip(i as int).len() == 0);
            }
            (Option::None, i)
        } else {
            proof {
                assert(events@.skip(i as int).first() == events@[i as int]);
                assert(events@.skip(i as int).drop_first() =~= events@.skip(i as int + 1));
            }
            let ev = events[i];
            let (status, mut step_out) = self.step_chars(a, &ev);
            out.append(&mut step_out);
            match status {
                StepStatus::Cancelled => (
                    Option::Some(Err(PromptError::KeyboardInterrupt)),
                    i + 1,
                ),
                StepStatus::Submitted => (
                    Option::Some(Ok(a.rendered())),
                    i + 1,
                ),
                StepStatus::Editing => {
                    let r = self.run_steps(a, events, i + 1, out);
                    proof {
                        assert(out@ =~= old(out)@ + num_run_spec(
                            *self,
                            old(a).state(),
                            old(a).end_line,
                            events@.skip(i as int),
                        ).out);
                    }
                    r
                },
            }
        }
    }

    /// Drives one numeric attempt over a scripted sequence of key events,
    /// starting from the reported cursor row. Returns the outcome — `None`
    /// when the events ran out mid-edit — and the exact output an interactive
    /// attempt would have written.
    pub fn prompt_events(
        &mut self,
        events: &Vec<KeyEvent>,
        cursor_row: u16,
        go_back: Option<bool>,
    ) -> (r: (Option<Result<String, PromptError>>, String))
        requires
            old(self).prompt_type.is_numeric(),
            1 <= cursor_row < u16::MAX,
            old(self).line matches Some(l) ==> 1 <= l < u16::MAX,
        ensures
            ({
                let att = num_attempt_spec(*old(self), cursor_row, go_back, events@);
                &&& *final(self) == num_anchored(*old(self), cursor_row)
                &&& outcome_view(r.0) == att.outcome
                &&& r.1@ == att.out
            }),
    {
        let (mut a, mut out) = self.begin_chars(cursor_row, go_back);
        let (outcome, _) = self.run_steps(&mut a, events, 0, &mut out);
        proof {
            assert(events@.skip(0) =~= events@);
            assert(out@ =~= num_attempt_spec(*old(self), cursor_row, go_back, events@).out);
        }
        (outcome, string_of(&out))
    }

    /// Checks this prompt's kind and, when it is numeric, drives one attempt
    /// over the scripted events; the numeric engine validates in place, so no
    /// retry loop wraps it. On a kind the numeric engine does not drive,
    /// returns the usage error and writes nothing.
    pub fn prompt_handled_events(
        &mut self,
        events: &Vec<KeyEvent>,
        cursor_row: u16,
        go_back: Option<bool>,
    ) -> (r: (Option<Result<String, PromptError>>, String))
        requires
            1 <= cursor_row < u16::MAX,
            old(self).line matches Some(l) ==> 1 <= l < u16::MAX,
        ensures
            !old(self).prompt_type.is_numeric() ==> {
                &&& r.0 matches Some(e) && e matches Err(pe) && pe matches PromptError::Custom(m)
                    && m@ == "Prompt struct only can be Int, UInt, Float or UFloat"@
                &&& r.1@ == Seq::<char>::empty()
                &&& *final(self) == *old(self)
            },
            old(self).prompt_type.is_numeric() ==> ({
                let att = num_attempt_spec(*old(self), cursor_row, go_back, events@);
                &&& *final(self) == num_anchored(*old(self), cursor_row)
                &&& outcome_view(r.0) == att.outcome
                &&& r.1@ == att.out
            }),
    {
        let numeric = match self.prompt_type {
            PromptType::Int | PromptType::UInt | PromptType::Float | PromptType::UFloat => true,
            _ => false,
        };
        if !numeric {
            return (
                Option::Some(
                    Err(
                        PromptError::Custom(
                            "Prompt struct only can be Int, UInt, Float or UFloat".to_owned(),
                        ),
                    ),
                ),
                String::new(),
            );
        }
        self.prompt_events(events, cursor_row, go_back)
    }
}


/// How many decimal points a sequence holds.
pub open spec fn dot_count(s: Seq<char>) -> nat
    decreases s.len(),
{
    if s.len() == 0 {
        0
    } else {
        dot_count(s.drop_last()) + if s.last() == '.' {
            1nat
        } else {
            0nat
        }
    }
}

/// Counting decimal points distributes over concatenation.
pub proof fn lemma_dot_count_add(a: Seq<char>, b: Seq<char>)
    ensures
        dot_count(a + b) == dot_count(a) + dot_count(b),
    decreases b.len(),
{
    if b.len() == 0 {
        assert(a + b =~= a);
    } else {
        lemma_dot_count_add(a, b.drop_last());
        assert((a + b).drop_last() =~= a + b.drop_last());
        assert((a + b).last() == b.last());
    }
}

/// The recorded decimal-point fields describe the buffer: with a recorded
/// point the content holds exactly one `.`, at the recorded offset; without
/// one it holds none.
pub open spec fn dot_ok(st: NumState) -> bool {
    let content = st.buf.0 + st.buf.1;
    &&& st.has_dot ==> 1 <= st.dot_pos <= content.len() && content[st.dot_pos as int - 1] == '.'
        && dot_count(content) == 1
    &&& !st.has_dot ==> dot_count(content) == 0
}

/// Typing `.` moves the point to the caret: afterwards the buffer holds
/// exactly one decimal point, it sits just before the caret, the recorded
/// offset describes it again, and every other character is kept in order.
pub proof fn lemma_dot_moves_to_caret(st: NumState)
    requires
        dot_ok(st),
    ensures
        ({
            let st2 = dot_press_state(st);
            let c = st.buf.0 + st.buf.1;
            let c2 = st2.buf.0 + st2.buf.1;
            &&& dot_ok(st2)
            &&& st2.has_dot
            &&& st2.buf.0.len() >= 1 && st2.buf.0.last() == '.'
            &&& st2.dot_pos == st2.buf.0.len()
            &&& dot_count(c2) == 1
            &&& c2.remove(st2.dot_pos as int - 1) == if st.has_dot {
                c.remove(st.dot_pos as int - 1)
            } else {
                c
            }
        }),
{
    let pre = st.buf.0;
    let post = st.buf.1;
    let c = pre + post;
    let st2 = dot_press_state(st);
    let c2 = st2.buf.0 + st2.buf.1;
    let dotseq = seq!['.'];
    assert(dotseq.len() == 1);
    assert(dotseq.last() == '.');
    assert(dotseq.drop_last() =~= Seq::<char>::empty());
    assert(dot_count(dotseq.drop_last()) == 0);
    assert(dot_count(dotseq) == 1);
    if !st.has_dot {
        lemma_dot_count_add(pre, post);
        assert(c2 =~= (pre + dotseq) + post);
        lemma_dot_count_add(pre, dotseq);
        lemma_dot_count_add(pre + dotseq, post);
        assert(c2[st2.dot_pos as int - 1] == '.');
        assert(c2.remove(st2.dot_pos as int - 1) =~= c);
    } else if st.dot_pos <= pre.len() {
        let dp = st.dot_pos as int;
        let a = pre.subrange(0, dp - 1);
        let b = pre.subrange(dp, pre.len() as int);
        assert(pre[dp - 1] == c[dp - 1]);
        assert(pre =~= (a + dotseq) + b);
        lemma_dot_count_add(a, dotseq);
        lemma_dot_count_add(a + dotseq, b);
        lemma_dot_count_add(pre, post);
        assert(dot_count(a) + dot_count(b) + dot_count(post) == 0);
        let pre2 = pre.remove(dp - 1);
        assert(pre2 =~= a + b);
        let pre3 = pre2.push('.');
        assert(st2.buf.0 == pre3);
        assert(c2 =~= ((a + b) + dotseq) + post);
        lemma_dot_count_add(a, b);
        lemma_dot_count_add(a + b, dotseq);
        lemma_dot_count_add((a + b) + dotseq, post);
        assert(dot_count(c2) == 1);
        assert(c2[st2.dot_pos as int - 1] == '.');
        assert(c2.remove(st2.dot_pos as int - 1) =~= (a + b) + post);
        assert(c.remove(dp - 1) =~= (a + b) + post);
    } else {
        let dp = st.dot_pos as int;
        let idx = dp - pre.len() as int;
        assert(1 <= idx && idx <= post.len());
        let a = post.subrange(0, idx - 1);
        let b = post.subrange(idx, post.len() as int);
        assert(post[idx - 1] == c[dp - 1]);
        assert(post =~= (a + dotseq) + b);
        lemma_dot_count_add(a, dotseq);
        lemma_dot_count_add(a + dotseq, b);
        lemma_dot_count_add(pre, post);
        assert(dot_count(pre) + dot_count(a) + dot_count(b) == 0);
        let post2 = post.remove(idx - 1);
        assert(post2 =~= a + b);
        let pre2 = pre.push('.');
        assert(st2.buf.0 == pre2);
        assert(c2 =~= ((pre + dotseq) + a) + b);
        lemma_dot_count_add(pre, dotseq);
        lemma_dot_count_add(pre + dotseq, a);
        lemma_dot_count_add((pre + dotseq) + a, b);
        assert(dot_count(c2) == 1);
        assert(c2[st2.dot_pos as int - 1] == '.');
        assert(c2.remove(st2.dot_pos as int - 1) =~= (pre + a) + b);
        assert(c.remove(dp - 1) =~= (pre + a) + b);
    }
}

/// On a fractional kind, the `.` key performs exactly the relocation above
/// and the attempt goes on editing.
pub proof fn lemma_dot_step(p: NumberPrompt, st: NumState, end_line: u16)
    requires
        p.prompt_type.is_numeric(),
        p.prompt_type.is_fractional(),
        dot_ok(st),
    ensures
        ({
            let r = num_step_spec(p, st, end_line, KeyEvent::Char('.'));
            &&& r.status == StepStatus::Editing
            &&& r.state == dot_press_state(st)
            &&& dot_ok(r.state)
        }),
{
    lemma_dot_moves_to_caret(st);
}

/// Typing `.` twice never yields two decimal points: after the second press
/// the buffer still holds exactly one, just before the caret.
pub proof fn lemma_second_dot_keeps_single(p: NumberPrompt, st: NumState, end_line: u16)
    requires
        p.prompt_type.is_numeric(),
        p.prompt_type.is_fractional(),
        dot_ok(st),
    ensures
        ({
            let st1 = num_step_spec(p, st, end_line, KeyEvent::Char('.')).state;
            let st2 = num_step_spec(p, st1, end_line, KeyEvent::Char('.')).state;
            &&& dot_count(st2.buf.0 + st2.buf.1) == 1
            &&& st2.buf.0.len() >= 1 && st2.buf.0.last() == '.'
            &&& st2.dot_pos == st2.buf.0.len()
        }),
{
    lemma_dot_step(p, st, end_line);
    lemma_dot_step(p, dot_press_state(st), end_line);
}

/// `-` on an unsigned kind is rejected: the buffer, sign and point tracking
/// are unchanged — no character is appended — and the inline error is the
/// output.
pub proof fn lemma_minus_rejected_on_unsigned(p: NumberPrompt, st: NumState, end_line: u16)
    requires
        p.prompt_type.is_numeric(),
        !p.prompt_type.is_signed(),
    ensures
        ({
            let r = num_step_spec(p, st, end_line, KeyEvent::Char('-'));
            &&& r.state == st
            &&& r.status == StepStatus::Editing
            &&& r.out == num_send_err_spec(p, st, "The number is unsigned, cannot be negative."@)
        }),
{
}

/// `-` on a signed kind toggles the sign without altering the digits, and a
/// second `-` toggles it back.
pub proof fn lemma_minus_toggles_sign(p: NumberPrompt, st: NumState, end_line: u16)
    requires
        p.prompt_type.is_signed(),
    ensures
        ({
            let r = num_step_spec(p, st, end_line, KeyEvent::Char('-'));
            &&& r.state == (NumState { sign: !st.sign, ..st })
            &&& r.status == StepStatus::Editing
            &&& num_step_spec(p, r.state, end_line, KeyEvent::Char('-')).state == st
        }),
{
}

/// A submitted value never ends in a bare decimal point: Enter on a buffer
/// ending in `.` strips the point, clears the point tracking, keeps the sign,
/// and submits.
pub proof fn lemma_enter_strips_trailing_dot(p: NumberPrompt, st: NumState, end_line: u16)
    requires
        ({
            let c = st.buf.0 + st.buf.1;
            c.len() >= 2 && c.last() == '.'
        }),
    ensures
        ({
            let r = num_enter_spec(p, st, end_line);
            &&& r.status == StepStatus::Submitted
            &&& !r.state.has_dot
            &&& r.state.buf.0 + r.state.buf.1 == (st.buf.0 + st.buf.1).drop_last()
            &&& r.state.sign == st.sign
        }),
{
    let c = st.buf.0 + st.buf.1;
    let r = num_enter_spec(p, st, end_line);
    assert(r.state.buf.0 + r.state.buf.1 =~= c.drop_last());
}

/// A cancel key ends the numeric step as a cancellation whatever the state
/// holds, and a run whose next event is a cancel key ends as a keyboard
/// interrupt: the buffer's prior content is discarded.
pub proof fn lemma_num_cancel_is_cancellation(
    p: NumberPrompt,
    st: NumState,
    end_line: u16,
    events: Seq<KeyEvent>,
)
    requires
        events.len() > 0,
        events.first().is_cancel(),
    ensures
        num_step_spec(p, st, end_line, events.first()).status == StepStatus::Cancelled,
        num_run_spec(p, st, end_line, events).outcome == Some(
            Err::<Seq<char>, PromptError>(PromptError::KeyboardInterrupt),
        ),
{
}


} // verus!
