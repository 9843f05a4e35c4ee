//! The text of build instructions, as spec functions over characters, and the
//! executable pieces that assemble it.
use vstd::prelude::*;
use vstd::string::StringExecFns;

verus! {

/// A value fits on one instruction line when it holds no line feed.
pub open spec fn single_line(s: Seq<char>) -> bool {
    !s.contains('\n')
}

/// The views of a slice of string slices.
pub open spec fn texts(v: Seq<&str>) -> Seq<Seq<char>> {
    v.map_values(|s: &str| s@)
}

/// Every value of `vs` fits on one line.
pub open spec fn all_single_line(vs: Seq<Seq<char>>) -> bool {
    forall|i: int| 0 <= i < vs.len() ==> single_line(#[trigger] vs[i])
}

/// One instruction line: the prefix, the value and a line feed.
pub open spec fn instruction_line(prefix: Seq<char>, value: Seq<char>) -> Seq<char> {
    prefix + value + seq!['\n']
}

/// One instruction line for each value, in order.
pub open spec fn instruction_lines(prefix: Seq<char>, values: Seq<Seq<char>>) -> Seq<char>
    decreases values.len(),
{
    if values.len() == 0 {
        Seq::empty()
    } else {
        instruction_lines(prefix, values.drop_last()) + instruction_line(prefix, values.last())
    }
}

/// Appends `prefix`, `value` and a line feed to `buf`.
pub fn push_line(buf: &mut String, prefix: &str, value: &str)
    ensures
        final(buf)@ == old(buf)@ + instruction_line(prefix@, value@),
{
    buf.append(prefix);
    buf.append(value);
    buf.append("\n");
    proof {
        reveal_strlit("\n");
        assert(final(buf)@ =~= old(buf)@ + instruction_line(prefix@, value@));
    }
}

/// Appends one instruction line for each of `values`, in order.
pub fn push_lines(buf: &mut String, prefix: &str, values: &[&str])
    ensures
        final(buf)@ == old(buf)@ + instruction_lines(prefix@, texts(values@)),
{
    let ghost start = buf@;
    let mut i: usize = 0;
    while i < values.len()
        invariant
            i <= values@.len(),
            buf@ == start + instruction_lines(prefix@, texts(values@.take(i as int))),
        decreases values@.len() - i,
    {
        push_line(buf, prefix, values[i]);
        proof {
            let done = texts(values@.take(i as int));
            let next = texts(values@.take(i + 1));
            assert(next.drop_last() =~= done);
            assert(next.last() == values@[i as int]@);
            assert(buf@ =~= start + instruction_lines(prefix@, next));
        }
        i = i + 1;
    }
    proof {
        assert(values@.take(i as int) =~= values@);
    }
}

/// Whether `s` holds a line feed.
pub fn has_newline(s: &str) -> (r: bool)
    ensures
        r == !single_line(s@),
{
    let mut found = false;
    for c in it: s.chars()
        invariant
            it.seq() == s@,
            found == it.seq().take(it.index() as int).contains('\n'),
    {
        let ghost was = found;
        if c == '\n' {
            found = true;
        }
        proof {
            let k = it.index() as int;
            let seen = it.seq().take(k);
            assert(it.seq().take(k + 1) =~= seen.push(c));
            if c == '\n' {
                assert(seen.push(c)[k] == '\n');
            } else if !was {
                assert forall|j: int| 0 <= j < k + 1 implies seen.push(c)[j] != '\n' by {
                    if j < k {
                        assert(seen[j] != '\n');
                    }
                }
            } else {
                let j = choose|j: int| 0 <= j < k && seen[j] == '\n';
                assert(seen.push(c)[j] == '\n');
            }
        }
    }
    proof {
        assert(s@.take(s@.len() as int) =~= s@);
    }
    found
}

/// The characters after the last line feed of `s`.
pub open spec fn open_line(s: Seq<char>) -> Seq<char>
    decreases s.len(),
{
    if s.len() == 0 || s.last() == '\n' {
        Seq::empty()
    } else {
        open_line(s.drop_last()).push(s.last())
    }
}

/// A line without the carriage return that ends it, if one does.
pub open spec fn strip_cr(l: Seq<char>) -> Seq<char> {
    if l.len() > 0 && l.last() == '\r' {
        l.drop_last()
    } else {
        l
    }
}

/// The lines of `s` that a line feed ends, in order, without their line feeds.
pub open spec fn raw_ended_lines(s: Seq<char>) -> Seq<Seq<char>>
    decreases s.len(),
{
    if s.len() == 0 {
        Seq::empty()
    } else if s.last() == '\n' {
        raw_ended_lines(s.drop_last()).push(open_line(s.drop_last()))
    } else {
        raw_ended_lines(s.drop_last())
    }
}

/// The lines of `s` that a line feed ends, in order, each without a carriage
/// return just before its line feed.
pub open spec fn ended_lines(s: Seq<char>) -> Seq<Seq<char>> {
    raw_ended_lines(s).map_values(|l: Seq<char>| strip_cr(l))
}

/// The lines of `s`: those that a line feed ends, then the characters after the
/// last line feed as one more line when there are any. A carriage return at the
/// very end stays in the last line. An empty text is one empty line.
pub open spec fn text_lines(s: Seq<char>) -> Seq<Seq<char>> {
    if s.len() == 0 {
        seq![Seq::empty()]
    } else if open_line(s).len() == 0 {
        ended_lines(s)
    } else {
        ended_lines(s).push(open_line(s))
    }
}

/// Appends one instruction line for each line of `msg`.
pub fn push_text_lines(buf: &mut String, prefix: &str, msg: &str)
    ensures
        final(buf)@ == old(buf)@ + instruction_lines(prefix@, text_lines(msg@)),
{
    let ghost start_buf = buf@;
    let n = msg.unicode_len();
    let mut start: usize = 0;
    let mut i: usize = 0;
    let mut prev_cr = false;
    for c in it: msg.chars()
        invariant
            it.seq() == msg@,
            n == msg@.len(),
            i == it.index(),
            start <= i <= n,
            open_line(msg@.take(i as int)) == msg@.subrange(start as int, i as int),
            prev_cr == (start < i && msg@[i - 1] == '\r'),
            buf@ == start_buf + instruction_lines(prefix@, ended_lines(msg@.take(i as int))),
    {
        let ghost seen = msg@.take(i as int);
        let ghost next = msg@.take(i + 1);
        proof {
            assert(next.drop_last() =~= seen);
            assert(next.last() == c);
        }
        if c == '\n' {
            let end = if prev_cr { i - 1 } else { i };
            push_line(buf, prefix, msg.substring_char(start, end));
            proof {
                let line = msg@.subrange(start as int, i as int);
                assert(msg@.subrange(start as int, end as int) == strip_cr(line)) by {
                    if prev_cr {
                        assert(line.drop_last() =~= msg@.subrange(start as int, end as int));
                    }
                }
                let done = ended_lines(next);
                assert(raw_ended_lines(next) == raw_ended_lines(seen).push(line));
                assert(done =~= ended_lines(seen).push(strip_cr(line)));
                assert(done.drop_last() =~= ended_lines(seen));
                assert(buf@ =~= start_buf + instruction_lines(prefix@, done));
                assert(open_line(next) =~= msg@.subrange(i + 1, i + 1));
            }
            start = i + 1;
            prev_cr = false;
        } else {
            prev_cr = c == '\r';
            proof {
                assert(raw_ended_lines(next) == raw_ended_lines(seen));
                assert(open_line(next) =~= msg@.subrange(start as int, i + 1));
            }
        }
        i = i + 1;
    }
    proof {
        assert(msg@.take(n as int) =~= msg@);
    }
    if n == 0 {
        push_line(buf, prefix, "");
        proof {
            reveal_strlit("");
            let one: Seq<Seq<char>> = seq![Seq::empty()];
            assert(one.drop_last() =~= Seq::<Seq<char>>::empty());
            assert(ended_lines(msg@) =~= Seq::<Seq<char>>::empty());
            assert(text_lines(msg@) == one);
            assert(buf@ =~= start_buf + instruction_lines(prefix@, one));
        }
    } else if start < n {
        push_line(buf, prefix, msg.substring_char(start, n));
        proof {
            let all = ended_lines(msg@).push(open_line(msg@));
            assert(all.drop_last() =~= ended_lines(msg@));
        }
    } else {
        proof {
            assert(buf@ =~= start_buf + instruction_lines(prefix@, text_lines(msg@)));
        }
    }
}

/// A value between double quotes.
pub open spec fn quoted(v: Seq<char>) -> Seq<char> {
    "\""@ + v + "\""@
}

/// The values, each between double quotes, separated by a comma and a space.
pub open spec fn quoted_list(vs: Seq<Seq<char>>) -> Seq<char>
    decreases vs.len(),
{
    if vs.len() == 0 {
        Seq::empty()
    } else if vs.len() == 1 {
        quoted(vs[0])
    } else {
        quoted_list(vs.drop_last()) + ", "@ + quoted(vs.last())
    }
}

/// Appends the quoted list of `values` to `buf`.
pub fn push_quoted_list(buf: &mut String, values: &[&str])
    ensures
        final(buf)@ == old(buf)@ + quoted_list(texts(values@)),
{
    let ghost start = buf@;
    let mut i: usize = 0;
    while i < values.len()
        invariant
            i <= values@.len(),
            buf@ == start + quoted_list(texts(values@.take(i as int))),
        decreases values@.len() - i,
    {
        let ghost done = texts(values@.take(i as int));
        let ghost next = texts(values@.take(i + 1));
        if i > 0 {
            buf.append(", ");
        }
        buf.append("\"");
        buf.append(values[i]);
        buf.append("\"");
        proof {
            assert(next.drop_last() =~= done);
            assert(next.last() == values@[i as int]@);
            if i == 0 {
                assert(next =~= seq![values@[0]@]);
            }
            assert(buf@ =~= start + quoted_list(next));
        }
        i = i + 1;
    }
    proof {
        assert(values@.take(i as int) =~= values@);
    }
}

} // verus!
