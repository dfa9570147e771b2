//! The cursor-split edit buffer: the text before the caret and the text after
//! it, held as two segments. The logical content is always `before ++ after`,
//! with the caret at the boundary.
//!
//! The buffer's operations are proved against a flat reference model — a
//! content sequence plus a cursor index — so that any sequence of operations
//! yields the same content and caret position as splicing a single string.
use vstd::prelude::*;

verus! {

/// One edit-buffer operation.
#[derive(Clone, Copy, Debug)]
pub enum BufOp {
    Insert(char),
    DeleteBefore,
    DeleteAfter,
    MoveLeft,
    MoveRight,
    MoveToStart,
    MoveToEnd,
}

/// The effect of `op` on a split buffer `(before, after)`.
pub open spec fn op_split(b: (Seq<char>, Seq<char>), op: BufOp) -> (Seq<char>, Seq<char>) {
    match op {
        BufOp::Insert(ch) => (b.0.push(ch), b.1),
        BufOp::DeleteBefore => if b.0.len() > 0 {
            (b.0.drop_last(), b.1)
        } else {
            b
        },
        BufOp::DeleteAfter => if b.1.len() > 0 {
            (b.0, b.1.drop_first())
        } else {
            b
        },
        BufOp::MoveLeft => if b.0.len() > 0 {
            (b.0.drop_last(), seq![b.0.last()] + b.1)
        } else {
            b
        },
        BufOp::MoveRight => if b.1.len() > 0 {
            (b.0.push(b.1.first()), b.1.drop_first())
        } else {
            b
        },
        BufOp::MoveToStart => (Seq::empty(), b.0 + b.1),
        BufOp::MoveToEnd => (b.0 + b.1, Seq::empty()),
    }
}

/// The effect of `op` on the flat reference model: a content string spliced
/// at a cursor index.
pub open spec fn op_flat(m: (Seq<char>, nat), op: BufOp) -> (Seq<char>, nat) {
    match op {
        BufOp::Insert(ch) => (
            m.0.take(m.1 as int) + seq![ch] + m.0.skip(m.1 as int),
            m.1 + 1,
        ),
        BufOp::DeleteBefore => if m.1 > 0 {
            (m.0.take(m.1 as int - 1) + m.0.skip(m.1 as int), (m.1 - 1) as nat)
        } else {
            m
        },
        BufOp::DeleteAfter => if m.1 < m.0.len() {
            (m.0.take(m.1 as int) + m.0.skip(m.1 as int + 1), m.1)
        } else {
            m
        },
        BufOp::MoveLeft => if m.1 > 0 {
            (m.0, (m.1 - 1) as nat)
        } else {
            m
        },
        BufOp::MoveRight => if m.1 < m.0.len() {
            (m.0, m.1 + 1)
        } else {
            m
        },
        BufOp::MoveToStart => (m.0, 0),
        BufOp::MoveToEnd => (m.0, m.0.len()),
    }
}

/// The flat model a split buffer stands for: its content and its caret index.
pub open spec fn flat_of(b: (Seq<char>, Seq<char>)) -> (Seq<char>, nat) {
    (b.0 + b.1, b.0.len())
}

/// `op` acts the same on a split buffer as on its flat model.
pub proof fn lemma_op_split_matches_flat(b: (Seq<char>, Seq<char>), op: BufOp)
    ensures
        flat_of(op_split(b, op)) == op_flat(flat_of(b), op),
{
    let f = flat_of(b);
    match op {
        BufOp::Insert(ch) => {
            assert(flat_of(op_split(b, op)).0 =~= op_flat(f, op).0);
        },
        BufOp::DeleteBefore => {
            if b.0.len() > 0 {
                assert(flat_of(op_split(b, op)).0 =~= op_flat(f, op).0);
            }
        },
        BufOp::DeleteAfter => {
            if b.1.len() > 0 {
                assert(flat_of(op_split(b, op)).0 =~= op_flat(f, op).0);
            }
        },
        BufOp::MoveLeft => {
            if b.0.len() > 0 {
                assert(flat_of(op_split(b, op)).0 =~= op_flat(f, op).0);
            }
        },
        BufOp::MoveRight => {
            if b.1.len() > 0 {
                assert(flat_of(op_split(b, op)).0 =~= op_flat(f, op).0);
            }
        },
        BufOp::MoveToStart => {
            assert(flat_of(op_split(b, op)).0 =~= op_flat(f, op).0);
        },
        BufOp::MoveToEnd => {
            assert(flat_of(op_split(b, op)).0 =~= op_flat(f, op).0);
        },
    }
}

/// `ops` applied in order to a split buffer.
pub open spec fn apply_ops_split(b: (Seq<char>, Seq<char>), ops: Seq<BufOp>) -> (
    Seq<char>,
    Seq<char>,
)
    decreases ops.len(),
{
    if ops.len() == 0 {
        b
    } else {
        apply_ops_split(op_split(b, ops.first()), ops.drop_first())
    }
}

/// `ops` applied in order to a flat model.
pub open spec fn apply_ops_flat(m: (Seq<char>, nat), ops: Seq<BufOp>) -> (Seq<char>, nat)
    decreases ops.len(),
{
    if ops.len() == 0 {
        m
    } else {
        apply_ops_flat(op_flat(m, ops.first()), ops.drop_first())
    }
}

/// After any sequence of operations — and so after any prefix of a longer
/// sequence — the buffer's content `before ++ after` and its caret position
/// equal those of the flat string-splice model applied operation by
/// operation.
pub proof fn lemma_buffer_matches_flat_model(b: (Seq<char>, Seq<char>), ops: Seq<BufOp>)
    ensures
        flat_of(apply_ops_split(b, ops)) == apply_ops_flat(flat_of(b), ops),
    decreases ops.len(),
{
    if ops.len() > 0 {
        lemma_op_split_matches_flat(b, ops.first());
        lemma_buffer_matches_flat_model(op_split(b, ops.first()), ops.drop_first());
    }
}

/// The cursor-split edit buffer.
#[derive(Clone, Debug)]
pub struct SplitBuffer {
    pub before: Vec<char>,
    pub after: Vec<char>,
}

impl SplitBuffer {
    /// The pair of segment views.
    pub open spec fn view_pair(self) -> (Seq<char>, Seq<char>) {
        (self.before@, self.after@)
    }

    /// The logical content: `before ++ after`.
    pub open spec fn content_spec(self) -> Seq<char> {
        self.before@ + self.after@
    }

    /// An empty buffer with the caret at position zero.
    pub fn new() -> (r: SplitBuffer)
        ensures
            r.before@ == Seq::<char>::empty(),
            r.after@ == Seq::<char>::empty(),
    {
        SplitBuffer { before: Vec::new(), after: Vec::new() }
    }

    /// Appends `ch` just before the caret.
    pub fn insert(&mut self, ch: char)
        ensures
            final(self).view_pair() == op_split(old(self).view_pair(), BufOp::Insert(ch)),
    {
        self.before.push(ch);
    }

    /// Removes the character just before the caret, if any.
    pub fn delete_before(&mut self) -> (removed: Option<char>)
        ensures
            final(self).view_pair() == op_split(old(self).view_pair(), BufOp::DeleteBefore),
            removed == if old(self).before@.len() > 0 {
                Some(old(self).before@.last())
            } else {
                Option::<char>::None
            },
    {
        self.before.pop()
    }

    /// Removes the character just after the caret, if any.
    pub fn delete_after(&mut self) -> (removed: bool)
        ensures
            final(self).view_pair() == op_split(old(self).view_pair(), BufOp::DeleteAfter),
            removed == (old(self).after@.len() > 0),
    {
        if self.after.len() >= 1 {
            self.after.remove(0);
            proof {
                assert(self.after@ =~= old(self).after@.drop_first());
            }
            true
        } else {
            false
        }
    }

    /// Moves the caret one character left, if possible.
    pub fn move_left(&mut self) -> (moved: bool)
        ensures
            final(self).view_pair() == op_split(old(self).view_pair(), BufOp::MoveLeft),
            moved == (old(self).before@.len() > 0),
    {
        match self.before.pop() {
            Option::None => false,
            Option::Some(ch) => {
                self.after.insert(0, ch);
                proof {
                    assert(self.after@ =~= seq![old(self).before@.last()] + old(self).after@);
                }
                true
            },
        }
    }

    /// Moves the caret one character right; a no-op when nothing follows it.
    pub fn move_right(&mut self)
        ensures
            final(self).view_pair() == op_split(old(self).view_pair(), BufOp::MoveRight),
    {
        if self.after.len() >= 1 {
            let ch = self.after.remove(0);
            self.before.push(ch);
            proof {
                assert(self.after@ =~= old(self).after@.drop_first());
            }
        }
    }

    /// Moves the entire content after the caret.
    pub fn move_to_start(&mut self)
        ensures
            final(self).view_pair() == op_split(old(self).view_pair(), BufOp::MoveToStart),
    {
        self.before.append(&mut self.after);
        core::mem::swap(&mut self.before, &mut self.after);
    }

    /// Moves the entire content before the caret.
    pub fn move_to_end(&mut self)
        ensures
            final(self).view_pair() == op_split(old(self).view_pair(), BufOp::MoveToEnd),
    {
        self.before.append(&mut self.after);
    }

    /// Applies one operation.
    pub fn apply(&mut self, op: BufOp)
        ensures
            final(self).view_pair() == op_split(old(self).view_pair(), op),
    {
        match op {
            BufOp::Insert(ch) => self.insert(ch),
            BufOp::DeleteBefore => {
                self.delete_before();
            },
            BufOp::DeleteAfter => {
                self.delete_after();
            },
            BufOp::MoveLeft => {
                self.move_left();
            },
            BufOp::MoveRight => self.move_right(),
            BufOp::MoveToStart => self.move_to_start(),
            BufOp::MoveToEnd => self.move_to_end(),
        }
    }

    /// The full content, `before ++ after`.
    pub fn content(&self) -> (r: Vec<char>)
        ensures
            r@ == self.content_spec(),
    {
        let mut r = self.before.clone();
        let mut tail = self.after.clone();
        r.append(&mut tail);
        r
    }
}

} // verus!
