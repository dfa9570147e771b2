//! The text editing engine: a free-form single-line prompt. Key events drive
//! the cursor-split buffer; every accepted event yields the exact redraw
//! output; Enter substitutes the default when the buffer is empty and then
//! submits; Ctrl-C and Esc cancel.
use crate::buffer::{op_split, BufOp, SplitBuffer};
use crate::charseq::{chars_of, string_of};
use crate::colors::{color_parts, styled, Color};
use crate::common::{
    opt_view, or_true, outcome_view, trunc16, KeyEvent, PromptError, PromptRun, PromptType,
    StepStatus,
};
use crate::esc::{clear_line_seq, csi_clear_line, csi_goto, csi_left, goto_seq, left_seq};
use crate::from_str::{lower_of, spec_bool_token};
use vstd::prelude::*;

verus! {

/// A text prompt: its descriptive fields and its remembered anchor row.
#[derive(Clone, Debug)]
pub struct Prompt {
    pub prefix: String,
    pub text: String,
    pub default: Option<String>,
    pub extra: Option<String>,
    pub line: Option<u16>,
    pub prompt_type: PromptType,
}

/// The live state of one editing attempt: the buffer and the row just past
/// the prompt.
#[derive(Debug)]
pub struct TextAttempt {
    pub buf: SplitBuffer,
    pub end_line: u16,
}

/// The effect of one key event on an attempt: the buffer afterwards, how the
/// attempt stands, and the exact redraw output.
pub ghost struct TextStep {
    pub buf: (Seq<char>, Seq<char>),
    pub status: StepStatus,
    pub out: Seq<char>,
}

/// The redraw written after an accepted key event: the themed prompt line,
/// the content in cyan, then the cursor moved left past the after-segment.
pub open spec fn text_update_spec(p: Prompt, buf: (Seq<char>, Seq<char>)) -> Seq<char> {
    crate::theme::prompt_text_spec(p.prefix@, p.text@, opt_view(p.extra)) + styled(
        color_parts(Color::Cyan),
        buf.0 + buf.1,
    ) + if buf.1.len() >= 1 {
        csi_left(trunc16(buf.1.len()))
    } else {
        Seq::<char>::empty()
    }
}

/// The cancellation marker: `<cancelled>` in red, then a newline.
pub open spec fn cancel_marker_spec() -> Seq<char> {
    styled(color_parts(Color::Red), "<cancelled>"@) + seq!['\n']
}

/// The output finishing a submission: jump past the prompt block and erase
/// that line.
pub open spec fn submit_tail_spec(end_line: u16) -> Seq<char>
    recommends
        end_line >= 1,
{
    csi_goto(9999, (end_line - 1) as nat) + seq!['\n'] + csi_clear_line()
}

/// What one key event does to a text attempt.
pub open spec fn text_step_spec(
    p: Prompt,
    buf: (Seq<char>, Seq<char>),
    end_line: u16,
    ev: KeyEvent,
) -> TextStep {
    if ev.is_cancel() {
        TextStep {
            buf,
            status: StepStatus::Cancelled,
            out: text_update_spec(p, buf) + cancel_marker_spec(),
        }
    } else {
        match ev {
            KeyEvent::Char(ch) => if ch == '\n' {
                let substituted = (buf.0 + buf.1).len() == 0 && opt_view(p.default) is Some;
                let buf2 = if substituted {
                    (opt_view(p.default)->Some_0, Seq::<char>::empty())
                } else {
                    buf
                };
                let sub_out = if substituted {
                    text_update_spec(p, buf2)
                } else {
                    Seq::<char>::empty()
                };
                TextStep {
                    buf: buf2,
                    status: StepStatus::Submitted,
                    out: sub_out + submit_tail_spec(end_line),
                }
            } else {
                let buf2 = op_split(buf, BufOp::Insert(ch));
                TextStep { buf: buf2, status: StepStatus::Editing, out: text_update_spec(p, buf2) }
            },
            KeyEvent::Left => if buf.0.len() > 0 {
                let buf2 = op_split(buf, BufOp::MoveLeft);
                TextStep { buf: buf2, status: StepStatus::Editing, out: text_update_spec(p, buf2) }
            } else {
                TextStep { buf, status: StepStatus::Editing, out: Seq::empty() }
            },
            KeyEvent::Right => {
                let buf2 = op_split(buf, BufOp::MoveRight);
                TextStep { buf: buf2, status: StepStatus::Editing, out: text_update_spec(p, buf2) }
            },
            KeyEvent::Backspace => if buf.0.len() > 0 {
                let buf2 = op_split(buf, BufOp::DeleteBefore);
                TextStep { buf: buf2, status: StepStatus::Editing, out: text_update_spec(p, buf2) }
            } else {
                TextStep { buf, status: StepStatus::Editing, out: Seq::empty() }
            },
            KeyEvent::Delete => if buf.1.len() > 0 {
                let buf2 = op_split(buf, BufOp::DeleteAfter);
                TextStep { buf: buf2, status: StepStatus::Editing, out: text_update_spec(p, buf2) }
            } else {
                TextStep { buf, status: StepStatus::Editing, out: Seq::empty() }
            },
            KeyEvent::Home | KeyEvent::PageUp => {
                let buf2 = op_split(buf, BufOp::MoveToStart);
                TextStep { buf: buf2, status: StepStatus::Editing, out: text_update_spec(p, buf2) }
            },
            KeyEvent::End | KeyEvent::PageDown => {
                let buf2 = op_split(buf, BufOp::MoveToEnd);
                TextStep { buf: buf2, status: StepStatus::Editing, out: text_update_spec(p, buf2) }
            },
            _ => TextStep { buf, status: StepStatus::Editing, out: Seq::empty() },
        }
    }
}

/// The row just past the text prompt for this attempt: one below a fresh
/// anchor; on a retry, the caller's row when going back, else one below the
/// anchor.
pub open spec fn spec_text_end_line(line: Option<u16>, cursor_row: u16, go_back: bool) -> u16 {
    match line {
        Option::None => (cursor_row + 1) as u16,
        Option::Some(l) => if go_back {
            cursor_row
        } else {
            (l + 1) as u16
        },
    }
}

/// The output of starting an attempt: on a retry, first a jump to the anchor
/// row; then the themed prompt line and the default hint.
pub open spec fn text_begin_out_spec(
    line: Option<u16>,
    prefix: Seq<char>,
    text: Seq<char>,
    extra: Option<Seq<char>>,
    default: Option<Seq<char>>,
) -> Seq<char> {
    (match line {
        Option::None => Seq::<char>::empty(),
        Option::Some(l) => csi_goto(0, l as nat),
    }) + crate::theme::prompt_text_spec(prefix, text, extra)
        + crate::theme::default_hint_spec(default)
}

/// Driving an attempt over `events`, one step at a time, until one submits or
/// cancels, or the events run out.
pub open spec fn text_run_spec(
    p: Prompt,
    buf: (Seq<char>, Seq<char>),
    end_line: u16,
    events: Seq<KeyEvent>,
) -> PromptRun
    decreases events.len(),
{
    if events.len() == 0 {
        PromptRun { outcome: Option::None, out: Seq::empty(), used: 0 }
    } else {
        let st = text_step_spec(p, buf, end_line, events.first());
        if st.status == StepStatus::Cancelled {
            PromptRun {
                outcome: Option::Some(Err(PromptError::KeyboardInterrupt)),
                out: st.out,
                used: 1,
            }
        } else if st.status == StepStatus::Submitted {
            PromptRun { outcome: Option::Some(Ok(st.buf.0 + st.buf.1)), out: st.out, used: 1 }
        } else {
            let rest = text_run_spec(p, st.buf, end_line, events.drop_first());
            PromptRun { outcome: rest.outcome, out: st.out + rest.out, used: rest.used + 1 }
        }
    }
}

/// The prompt after an attempt started: a fresh anchor row is recorded, an
/// existing one is kept.
pub open spec fn anchored(p: Prompt, cursor_row: u16) -> Prompt {
    Prompt {
        line: Some(
            match p.line {
                Option::None => cursor_row,
                Option::Some(l) => l,
            },
        ),
        ..p
    }
}

/// One whole attempt: the output of starting it, then the run over `events`.
pub open spec fn text_attempt_spec(
    p: Prompt,
    cursor_row: u16,
    go_back: Option<bool>,
    events: Seq<KeyEvent>,
) -> PromptRun {
    let end_line = spec_text_end_line(p.line, cursor_row, or_true(go_back));
    let begin_out = text_begin_out_spec(
        p.line,
        p.prefix@,
        p.text@,
        opt_view(p.extra),
        opt_view(p.default),
    );
    let run = text_run_spec(
        anchored(p, cursor_row),
        (Seq::<char>::empty(), Seq::<char>::empty()),
        end_line,
        events,
    );
    PromptRun { outcome: run.outcome, out: begin_out + run.out, used: run.used }
}

/// The rejection message for a submitted text value, or `None` when it is
/// accepted: a `String` prompt rejects empty text; a `Bool` prompt rejects
/// anything that is not a boolean token.
pub open spec fn validation_of(kind: PromptType, v: Seq<char>) -> Option<Seq<char>>
    recommends
        kind.is_textual(),
{
    if kind == PromptType::String {
        if v.len() == 0 {
            Option::Some("The text should contain 1 character or more"@)
        } else {
            Option::None
        }
    } else {
        if spec_bool_token(lower_of(v)) is Some {
            Option::None
        } else {
            Option::Some("The provided value is invalid. (yes|y|true|no|n|false)"@)
        }
    }
}

/// The inline error line written above the prompt on a rejected value.
pub open spec fn send_err_spec(msg: Seq<char>) -> Seq<char> {
    csi_left(99) + csi_clear_line() + csi_clear_line() + styled(color_parts(Color::Red), msg)
}

/// The retry loop: attempts over `events`, each followed by validation; a
/// rejected value writes an inline error and starts the next attempt on the
/// remaining events.
pub open spec fn text_handled_spec(
    p: Prompt,
    cursor_row: u16,
    go_back: Option<bool>,
    events: Seq<KeyEvent>,
) -> PromptRun
    decreases events.len(),
{
    let att = text_attempt_spec(p, cursor_row, go_back, events);
    match att.outcome {
        Option::None => att,
        Option::Some(Err(e)) => att,
        Option::Some(Ok(v)) => match validation_of(p.prompt_type, v) {
            Option::None => att,
            Option::Some(msg) => if events.len() == 0 {
                att
            } else {
                let adv = if att.used < 1 {
                    1
                } else if att.used > events.len() {
                    events.len()
                } else {
                    att.used
                };
                let rest = text_handled_spec(
                    anchored(p, cursor_row),
                    cursor_row,
                    go_back,
                    events.skip(adv as int),
                );
                PromptRun {
                    outcome: rest.outcome,
                    out: att.out + send_err_spec(msg) + rest.out,
                    used: adv + rest.used,
                }
            },
        },
    }
}

/// A run consumes no more events than there are; it consumes at least one
/// whenever it reaches an outcome, and all of them when it does not.
pub proof fn lemma_run_used(
    p: Prompt,
    buf: (Seq<char>, Seq<char>),
    end_line: u16,
    events: Seq<KeyEvent>,
)
    ensures
        text_run_spec(p, buf, end_line, events).used <= events.len(),
        text_run_spec(p, buf, end_line, events).outcome is Some ==> text_run_spec(
            p,
            buf,
            end_line,
            events,
        ).used >= 1,
        text_run_spec(p, buf, end_line, events).outcome is None ==> text_run_spec(
            p,
            buf,
            end_line,
            events,
        ).used == events.len(),
    decreases events.len(),
{
    if events.len() > 0 {
        let st = text_step_spec(p, buf, end_line, events.first());
        if st.status == StepStatus::Editing {
            lemma_run_used(p, st.buf, end_line, events.drop_first());
        }
    }
}

/// The message rejecting a submitted text value, or `None` when it is
/// accepted.
pub fn validate_text_value(kind: PromptType, value: &String) -> (r: Option<String>)
    requires
        kind.is_textual(),
    ensures
        opt_view(r) == validation_of(kind, value@),
{
    match kind {
        PromptType::String => {
            if value.as_str().is_empty() {
                Option::Some("The text should contain 1 character or more".to_owned())
            } else {
                Option::None
            }
        },
        _ => {
            match crate::from_str::parse_bool(value.as_str()) {
                Ok(_) => Option::None,
                Err(_) => Option::Some(
                    "The provided value is invalid. (yes|y|true|no|n|false)".to_owned(),
                ),
            }
        },
    }
}

/// The inline error line written above the text prompt for a rejection
/// message.
pub fn send_err_line(msg: &String) -> (r: String)
    ensures
        r@ == send_err_spec(msg@),
{
    string_of(&send_err_chars(msg))
}

/// The inline error line for a rejection message, as characters.
pub(crate) fn send_err_chars(msg: &String) -> (r: Vec<char>)
    ensures
        r@ == send_err_spec(msg@),
{
    let mut out = left_seq(99);
    let mut part = clear_line_seq();
    out.append(&mut part);
    let mut part = clear_line_seq();
    out.append(&mut part);
    let mut part = Color::Red.apply_chars(&chars_of(msg.as_str()));
    out.append(&mut part);
    proof {
        assert(out@ =~= send_err_spec(msg@));
    }
    out
}

impl Prompt {
    /// The themed prompt line of this prompt.
    pub fn prompt_line(&self) -> (r: String)
        ensures
            r@ == crate::theme::prompt_text_spec(self.prefix@, self.text@, opt_view(self.extra)),
    {
        crate::theme::themed_prompt_text(self.prefix.as_str(), self.text.as_str(), &self.extra)
    }

    /// The default-value hint of this prompt.
    pub fn default_hint(&self) -> (r: String)
        ensures
            r@ == crate::theme::default_hint_spec(opt_view(self.default)),
    {
        crate::theme::themed_default_hint(&self.default)
    }

    /// The redraw for the given buffer, as characters.
    fn update_chars(&self, buf: &SplitBuffer) -> (r: Vec<char>)
        ensures
            r@ == text_update_spec(*self, buf.view_pair()),
    {
        let mut out = crate::theme::prompt_text_chars(
            self.prefix.as_str(),
            self.text.as_str(),
            &self.extra,
        );
        let mut mid = Color::Cyan.apply_chars(&buf.content());
        out.append(&mut mid);
        let plen = buf.after.len();
        if plen >= 1 {
            let n: u16 = (plen % 0x10000) as u16;
            proof {
                assert(n as nat == trunc16(buf.after@.len()));
            }
            let mut l = left_seq(n);
            out.append(&mut l);
        }
        proof {
            assert(out@ =~= text_update_spec(*self, buf.view_pair()));
        }
        out
    }

    /// Starts one editing attempt, as characters.
    fn begin_chars(&mut self, cursor_row: u16, go_back: Option<bool>) -> (r: (
        TextAttempt,
        Vec<char>,
    ))
        requires
            1 <= cursor_row < u16::MAX,
            old(self).line matches Some(l) ==> 1 <= l < u16::MAX,
        ensures
            *final(self) == (Prompt {
                line: Some(
                    match old(self).line {
                        Option::None => cursor_row,
                        Option::Some(l) => l,
                    },
                ),
                ..*old(self)
            }),
            r.0.buf.view_pair() == (Seq::<char>::empty(), Seq::<char>::empty()),
            r.0.end_line == spec_text_end_line(old(self).line, cursor_row, or_true(go_back)),
            r.0.end_line >= 1,
            r.1@ == text_begin_out_spec(
                old(self).line,
                old(self).prefix@,
                old(self).text@,
                opt_view(old(self).extra),
                opt_view(old(self).default),
            ),
    {
        let go_back = match go_back {
            Option::Some(v) => v,
            Option::None => true,
        };
        let mut out: Vec<char> = Vec::new();
        let end_line: u16;
        match self.line {
            Option::None => {
                self.line = Option::Some(cursor_row);
                end_line = cursor_row + 1;
            },
            Option::Some(l) => {
                let mut jump = goto_seq(0, l);
                out.append(&mut jump);
                end_line = if go_back {
                    cursor_row
                } else {
                    l + 1
                };
            },
        }
        let mut part = crate::theme::prompt_text_chars(
            self.prefix.as_str(),
            self.text.as_str(),
            &self.extra,
        );
        out.append(&mut part);
        let mut part = crate::theme::default_hint_chars(&self.default);
        out.append(&mut part);
        proof {
            assert(out@ =~= text_begin_out_spec(
                old(self).line,
                old(self).prefix@,
                old(self).text@,
                opt_view(old(self).extra),
                opt_view(old(self).default),
            ));
        }
        (TextAttempt { buf: SplitBuffer::new(), end_line }, out)
    }

    /// Starts one editing attempt. Records the anchor row on first use;
    /// on a retry, emits a jump back to the anchor. Returns the fresh attempt
    /// state and the exact output to write.
    pub fn begin(&mut self, cursor_row: u16, go_back: Option<bool>) -> (r: (TextAttempt, String))
        requires
            1 <= cursor_row < u16::MAX,
            old(self).line matches Some(l) ==> 1 <= l < u16::MAX,
        ensures
            *final(self) == anchored(*old(self), cursor_row),
            r.0.buf.view_pair() == (Seq::<char>::empty(), Seq::<char>::empty()),
            r.0.end_line == spec_text_end_line(old(self).line, cursor_row, or_true(go_back)),
            r.0.end_line >= 1,
            r.1@ == text_begin_out_spec(
                old(self).line,
                old(self).prefix@,
                old(self).text@,
                opt_view(old(self).extra),
                opt_view(old(self).default),
            ),
    {
        let (a, out) = self.begin_chars(cursor_row, go_back);
        (a, string_of(&out))
    }

    /// Applies one key event to the attempt, as characters.
    fn step_chars(&self, a: &mut TextAttempt, ev: &KeyEvent) -> (r: (StepStatus, Vec<char>))
        requires
            old(a).end_line >= 1,
        ensures
            ({
                let sp = text_step_spec(*self, old(a).buf.view_pair(), old(a).end_line, *ev);
                &&& final(a).buf.view_pair() == sp.buf
                &&& final(a).end_line == old(a).end_line
                &&& r.0 == sp.status
                &&& r.1@ == sp.out
            }),
    {
        match ev {
            KeyEvent::CtrlC | KeyEvent::Esc => {
                let mut out = self.update_chars(&a.buf);
                let mut mark = Color::Red.apply_chars(&chars_of("<cancelled>"));
                out.append(&mut mark);
                out.push('\n');
                proof {
                    assert(out@ =~= text_update_spec(*self, a.buf.view_pair())
                        + cancel_marker_spec());
                }
                (StepStatus::Cancelled, out)
            },
            KeyEvent::Char(ch) => {
                if *ch == '\n' {
                    let mut out: Vec<char> = Vec::new();
                    if a.buf.before.len() == 0 && a.buf.after.len() == 0 && self.default.is_some()
                    {
                        match &self.default {
                            Option::Some(d) => {
                                a.buf.before = chars_of(d.as_str());
                                a.buf.after = Vec::new();
                            },
                            Option::None => {},
                        }
                        let mut upd = self.update_chars(&a.buf);
                        out.append(&mut upd);
                    }
                    let mut tail = goto_seq(9999, a.end_line - 1);
                    out.append(&mut tail);
                    out.push('\n');
                    let mut cl = clear_line_seq();
                    out.append(&mut cl);
                    proof {
                        let sp = text_step_spec(
                            *self,
                            old(a).buf.view_pair(),
                            old(a).end_line,
                            *ev,
                        );
                        assert((old(a).buf.before@ + old(a).buf.after@).len() == 0 <==> (old(
                            a,
                        ).buf.before@.len() == 0 && old(a).buf.after@.len() == 0));
                        assert(out@ =~= sp.out);
                        assert(a.buf.view_pair() == sp.buf);
                    }
                    (StepStatus::Submitted, out)
                } else {
                    a.buf.insert(*ch);
                    (StepStatus::Editing, self.update_chars(&a.buf))
                }
            },
            KeyEvent::Left => {
                if a.buf.move_left() {
                    (StepStatus::Editing, self.update_chars(&a.buf))
                } else {
                    (StepStatus::Editing, Vec::new())
                }
            },
            KeyEvent::Right => {
                a.buf.move_right();
                (StepStatus::Editing, self.update_chars(&a.buf))
            },
            KeyEvent::Backspace => {
                match a.buf.delete_before() {
                    Option::Some(_) => (StepStatus::Editing, self.update_chars(&a.buf)),
                    Option::None => (StepStatus::Editing, Vec::new()),
                }
            },
            KeyEvent::Delete => {
                if a.buf.delete_after() {
                    (StepStatus::Editing, self.update_chars(&a.buf))
                } else {
                    (StepStatus::Editing, Vec::new())
                }
            },
            KeyEvent::Home | KeyEvent::PageUp => {
                a.buf.move_to_start();
                (StepStatus::Editing, self.update_chars(&a.buf))
            },
            KeyEvent::End | KeyEvent::PageDown => {
                a.buf.move_to_end();
                (StepStatus::Editing, self.update_chars(&a.buf))
            },
            KeyEvent::Other => (StepStatus::Editing, Vec::new()),
        }
    }

    /// Applies one key event to the attempt; returns how the attempt stands
    /// and the exact output to write.
    pub fn step(&self, a: &mut TextAttempt, ev: &KeyEvent) -> (r: (StepStatus, String))
        requires
            old(a).end_line >= 1,
        ensures
            ({
                let sp = text_step_spec(*self, old(a).buf.view_pair(), old(a).end_line, *ev);
                &&& final(a).buf.view_pair() == sp.buf
                &&& final(a).end_line == old(a).end_line
                &&& r.0 == sp.status
                &&& r.1@ == sp.out
            }),
    {
        let (status, out) = self.step_chars(a, ev);
        (status, string_of(&out))
    }

    /// Runs the attempt over `events[i..]`, appending all output to `out`.
    /// Returns the outcome and the index just past the last consumed event.
    fn run_steps(
        &self,
        a: &mut TextAttempt,
        events: &Vec<KeyEvent>,
        i: usize,
        out: &mut Vec<char>,
    ) -> (r: (Option<Result<String, PromptError>>, usize))
        requires
            old(a).end_line >= 1,
            i <= events@.len(),
        ensures
            ({
                let run = text_run_spec(
                    *self,
                    old(a).buf.view_pair(),
                    old(a).end_line,
                    events@.skip(i as int),
                );
                &&& outcome_view(r.0) == run.outcome
                &&& final(out)@ == old(out)@ + run.out
                &&& r.1 == i + run.used
                &&& r.1 <= events@.len()
            }),
        decreases events@.len() - i,
    {
        if i == events.len() {
            proof {
                assert(events@.skip(i as int).len() == 0);
            }
            (Option::None, i)
        } else {
            proof {
                assert(events@.skip(i as int).first() == events@[i as int]);
                assert(events@.skip(i as int).drop_first() =~= events@.skip(i as int + 1));
            }
            let ev = events[i];
            let (status, mut step_out) = self.step_chars(a, &ev);
            out.append(&mut step_out);
            match status {
                StepStatus::Cancelled => (
                    Option::Some(Err(PromptError::KeyboardInterrupt)),
                    i + 1,
                ),
                StepStatus::Submitted => (
                    Option::Some(Ok(string_of(&a.buf.content()))),
                    i + 1,
                ),
                StepStatus::Editing => {
                    let r = self.run_steps(a, events, i + 1, out);
                    proof {
                        assert(out@ =~= old(out)@ + text_run_spec(
                            *self,
                            old(a).buf.view_pair(),
                            old(a).end_line,
                            events@.skip(i as int),
                        ).out);
                    }
                    r
                },
            }
        }
    }

    /// One attempt over `events[i..]`: begin, then step until an outcome or
    /// the end of the events. Appends the output; returns the outcome and the
    /// index just past the last consumed event.
    fn attempt_from(
        &mut self,
        events: &Vec<KeyEvent>,
        i: usize,
        cursor_row: u16,
        go_back: Option<bool>,
        out: &mut Vec<char>,
    ) -> (r: (Option<Result<String, PromptError>>, usize))
        requires
            1 <= cursor_row < u16::MAX,
            old(self).line matches Some(l) ==> 1 <= l < u16::MAX,
            i <= events@.len(),
        ensures
            ({
                let att = text_attempt_spec(
                    *old(self),
                    cursor_row,
                    go_back,
                    events@.skip(i as int),
                );
                &&& *final(self) == anchored(*old(self), cursor_row)
                &&& outcome_view(r.0) == att.outcome
                &&& final(out)@ == old(out)@ + att.out
                &&& r.1 == i + att.used
                &&& r.1 <= events@.len()
            }),
    {
        let (mut a, mut bout) = self.begin_chars(cursor_row, go_back);
        out.append(&mut bout);
        let r = self.run_steps(&mut a, events, i, out);
        proof {
            assert(out@ =~= old(out)@ + text_attempt_spec(
                *old(self),
                cursor_row,
                go_back,
                events@.skip(i as int),
            ).out);
        }
        r
    }

    /// Drives one editing attempt over a scripted sequence of key events,
    /// starting from the reported cursor row. Returns the outcome — `None`
    /// when the events ran out mid-edit — and the exact output an interactive
    /// attempt would have written.
    pub fn prompt_events(
        &mut self,
        events: &Vec<KeyEvent>,
        cursor_row: u16,
        go_back: Option<bool>,
    ) -> (r: (Option<Result<String, PromptError>>, String))
        requires
            1 <= cursor_row < u16::MAX,
            old(self).line matches Some(l) ==> 1 <= l < u16::MAX,
        ensures
            ({
                let att = text_attempt_spec(*old(self), cursor_row, go_back, events@);
                &&& *final(self) == anchored(*old(self), cursor_row)
                &&& outcome_view(r.0) == att.outcome
                &&& r.1@ == att.out
            }),
    {
        let mut out: Vec<char> = Vec::new();
        let (outcome, _) = self.attempt_from(events, 0, cursor_row, go_back, &mut out);
        proof {
            assert(events@.skip(0) =~= events@);
        }
        (outcome, string_of(&out))
    }

    /// The retry loop from `events[i..]`: attempts followed by validation,
    /// an inline error and a fresh attempt on each rejection.
    #[verifier::rlimit(100)]
    fn handled_from(
        &mut self,
        events: &Vec<KeyEvent>,
        i: usize,
        cursor_row: u16,
        go_back: Option<bool>,
        out: &mut Vec<char>,
    ) -> (r: Option<Result<String, PromptError>>)
        requires
            old(self).prompt_type.is_textual(),
            1 <= cursor_row < u16::MAX,
            old(self).line matches Some(l) ==> 1 <= l < u16::MAX,
            i <= events@.len(),
        ensures
            ({
                let h = text_handled_spec(*old(self), cursor_row, go_back, events@.skip(i as int));
                &&& *final(self) == anchored(*old(self), cursor_row)
                &&& outcome_view(r) == h.outcome
                &&& final(out)@ == old(out)@ + h.out
            }),
        decreases events@.len() - i,
    {
        let ghost rem = events@.skip(i as int);
        let (outcome, j) = self.attempt_from(events, i, cursor_row, go_back, out);
        match outcome {
            Option::None => Option::None,
            Option::Some(Err(e)) => Option::Some(Err(e)),
            Option::Some(Ok(v)) => {
                match validate_text_value(self.prompt_type, &v) {
                    Option::None => Option::Some(Ok(v)),
                    Option::Some(msg) => {
                        proof {
                            lemma_run_used(
                                anchored(*old(self), cursor_row),
                                (Seq::<char>::empty(), Seq::<char>::empty()),
                                spec_text_end_line(old(self).line, cursor_row, or_true(go_back)),
                                rem,
                            );
                            assert(rem.skip(
                                (j - i) as int,
                            ) =~= events@.skip(j as int));
                        }
                        let mut err = send_err_chars(&msg);
                        out.append(&mut err);
                        let r = self.handled_from(events, j, cursor_row, go_back, out);
                        proof {
                            assert(out@ =~= old(out)@ + text_handled_spec(
                                *old(self),
                                cursor_row,
                                go_back,
                                rem,
                            ).out);
                        }
                        r
                    },
                }
            },
        }
    }

    /// Checks this prompt's kind and, when it is textual, runs the retry loop
    /// over the scripted events: each attempt's value is validated, a
    /// rejected one writes an inline error and the loop re-prompts on the
    /// remaining events. On a kind the text engine does not drive, returns
    /// the usage error and writes nothing.
    pub fn prompt_handled_events(
        &mut self,
        events: &Vec<KeyEvent>,
        cursor_row: u16,
        go_back: Option<bool>,
    ) -> (r: (Option<Result<String, PromptError>>, String))
        requires
            1 <= cursor_row < u16::MAX,
            old(self).line matches Some(l) ==> 1 <= l < u16::MAX,
        ensures
            !old(self).prompt_type.is_textual() ==> {
                &&& r.0 matches Some(e) && e matches Err(pe) && pe matches PromptError::Custom(m)
                    && m@
                    == "Prompt struct only can be String, Bool, FilePath or FilePathExisting"@
                &&& r.1@ == Seq::<char>::empty()
                &&& *final(self) == *old(self)
            },
            old(self).prompt_type.is_textual() ==> ({
                let h = text_handled_spec(*old(self), cursor_row, go_back, events@);
                &&& *final(self) == anchored(*old(self), cursor_row)
                &&& outcome_view(r.0) == h.outcome
                &&& r.1@ == h.out
            }),
    {
        let textual = match self.prompt_type {
            PromptType::String | PromptType::Bool => true,
            _ => false,
        };
        if !textual {
            return (
                Option::Some(
                    Err(
                        PromptError::Custom(
                            "Prompt struct only can be String, Bool, FilePath or FilePathExisting".to_owned(),
                        ),
                    ),
                ),
                String::new(),
            );
        }
        let mut out: Vec<char> = Vec::new();
        let outcome = self.handled_from(events, 0, cursor_row, go_back, &mut out);
        proof {
            assert(events@.skip(0) =~= events@);
        }
        (outcome, string_of(&out))
    }
}

/// Submitting on an empty buffer when a default exists yields the default
/// exactly.
pub proof fn lemma_empty_submit_yields_default(p: Prompt, end_line: u16)
    requires
        opt_view(p.default) is Some,
    ensures
        ({
            let st = text_step_spec(
                p,
                (Seq::<char>::empty(), Seq::<char>::empty()),
                end_line,
                KeyEvent::Char('\n'),
            );
            &&& st.status == StepStatus::Submitted
            &&& st.buf.0 + st.buf.1 == opt_view(p.default)->Some_0
        }),
{
    let st = text_step_spec(
        p,
        (Seq::<char>::empty(), Seq::<char>::empty()),
        end_line,
        KeyEvent::Char('\n'),
    );
    assert((Seq::<char>::empty() + Seq::<char>::empty()).len() == 0);
    assert(st.buf.0 + st.buf.1 =~= opt_view(p.default)->Some_0);
}

/// A cancel key ends the step as a cancellation whatever the buffer holds,
/// and a run whose next event is a cancel key ends as a keyboard interrupt:
/// the buffer's prior content is discarded.
pub proof fn lemma_cancel_is_cancellation(
    p: Prompt,
    buf: (Seq<char>, Seq<char>),
    end_line: u16,
    events: Seq<KeyEvent>,
)
    requires
        events.len() > 0,
        events.first().is_cancel(),
    ensures
        text_step_spec(p, buf, end_line, events.first()).status == StepStatus::Cancelled,
        text_run_spec(p, buf, end_line, events).outcome == Some(
            Err::<Seq<char>, PromptError>(PromptError::KeyboardInterrupt),
        ),
{
}

} // verus!
