use rusky_prompt::{BufOp, SplitBuffer};

fn content_string(b: &SplitBuffer) -> String {
    b.content().iter().collect()
}

/// A reference model: the flat content string and a cursor index, spliced per
/// operation exactly as each operation documents.
fn splice(model: (String, usize), op: BufOp) -> (String, usize) {
    let (s, k) = model;
    let chars: Vec<char> = s.chars().collect();
    match op {
        BufOp::Insert(ch) => {
            let mut v = chars.clone();
            v.insert(k, ch);
            (v.into_iter().collect(), k + 1)
        }
        BufOp::DeleteBefore => {
            if k > 0 {
                let mut v = chars.clone();
                v.remove(k - 1);
                (v.into_iter().collect(), k - 1)
            } else {
                (s, k)
            }
        }
        BufOp::DeleteAfter => {
            if k < chars.len() {
                let mut v = chars.clone();
                v.remove(k);
                (v.into_iter().collect(), k)
            } else {
                (s, k)
            }
        }
        BufOp::MoveLeft => (s, if k > 0 { k - 1 } else { k }),
        BufOp::MoveRight => (s, if k < chars.len() { k + 1 } else { k }),
        BufOp::MoveToStart => (s, 0),
        BufOp::MoveToEnd => {
            let n = chars.len();
            (s, n)
        }
    }
}

#[test]
fn buffer_matches_splice_model_on_every_prefix() {
    let ops = vec![
        BufOp::Insert('a'),
        BufOp::Insert('b'),
        BufOp::Insert('c'),
        BufOp::MoveLeft,
        BufOp::Insert('X'),
        BufOp::MoveToStart,
        BufOp::DeleteAfter,
        BufOp::MoveRight,
        BufOp::Insert('y'),
        BufOp::MoveToEnd,
        BufOp::DeleteBefore,
        BufOp::MoveRight,
        BufOp::MoveLeft,
        BufOp::DeleteAfter,
        BufOp::Insert('z'),
    ];
    let mut buf = SplitBuffer::new();
    let mut model: (String, usize) = (String::new(), 0);
    for op in ops {
        buf.apply(op);
        model = splice(model, op);
        assert_eq!(content_string(&buf), model.0);
        assert_eq!(buf.before.len(), model.1);
    }
}

#[test]
fn insert_splits_at_cursor() {
    let mut b = SplitBuffer::new();
    b.insert('a');
    b.insert('b');
    b.insert('c');
    b.move_left();
    b.insert('X');
    assert_eq!(content_string(&b), "abXc");
}

#[test]
fn move_right_at_end_is_noop() {
    let mut b = SplitBuffer::new();
    b.insert('q');
    b.move_right();
    assert_eq!(content_string(&b), "q");
    assert_eq!(b.before.len(), 1);
    assert_eq!(b.after.len(), 0);
}

#[test]
fn delete_before_and_after() {
    let mut b = SplitBuffer::new();
    b.insert('a');
    b.insert('b');
    b.insert('c');
    b.move_to_start();
    assert!(b.delete_after());
    assert_eq!(content_string(&b), "bc");
    assert_eq!(b.delete_before(), None);
    b.move_to_end();
    assert_eq!(b.delete_before(), Some('c'));
    assert_eq!(content_string(&b), "b");
}
