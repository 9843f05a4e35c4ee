//! What holds of the instruction text and of the sink across calls.
use vstd::prelude::*;

use crate::cargo_build_out::{OutView, WriteError};
use crate::format::{
    all_single_line, ended_lines, instruction_line, instruction_lines, open_line,
    quoted, quoted_list, raw_ended_lines, single_line, strip_cr, text_lines,
};
use crate::functions::{cfg_line, check_cfg_line, check_cfg_lines};

verus! {

proof fn lemma_no_newline_lines(s: Seq<char>)
    requires
        single_line(s),
    ensures
        raw_ended_lines(s) == Seq::<Seq<char>>::empty(),
        open_line(s) == s,
    decreases s.len(),
{
    if s.len() > 0 {
        assert(s[s.len() - 1] != '\n');
        let t = s.drop_last();
        assert(single_line(t)) by {
            assert forall|i: int| 0 <= i < t.len() implies t[i] != '\n' by {
                assert(s[i] != '\n');
            }
        }
        lemma_no_newline_lines(t);
        assert(t.push(s.last()) =~= s);
    }
}

proof fn lemma_lines_append(x: Seq<char>, y: Seq<char>)
    requires
        open_line(x) == Seq::<char>::empty(),
    ensures
        raw_ended_lines(x + y) == raw_ended_lines(x) + raw_ended_lines(y),
        open_line(x + y) == open_line(y),
    decreases y.len(),
{
    if y.len() == 0 {
        assert(x + y =~= x);
        assert(raw_ended_lines(x) + raw_ended_lines(y) =~= raw_ended_lines(x));
    } else {
        lemma_lines_append(x, y.drop_last());
        assert((x + y).drop_last() =~= x + y.drop_last());
        assert((x + y).last() == y.last());
        if y.last() == '\n' {
            assert(raw_ended_lines(x + y) =~= raw_ended_lines(x) + raw_ended_lines(y));
        }
    }
}

/// A text that holds no line feed, followed by one, is a single line: that
/// text.
proof fn lemma_one_line(body: Seq<char>)
    requires
        single_line(body),
    ensures
        raw_ended_lines(body.push('\n')) == seq![body],
        open_line(body.push('\n')) == Seq::<char>::empty(),
{
    lemma_no_newline_lines(body);
    assert(body.push('\n').drop_last() =~= body);
    assert(seq![body] =~= Seq::<Seq<char>>::empty().push(body));
}

proof fn lemma_join_single_line(a: Seq<char>, b: Seq<char>)
    requires
        single_line(a),
        single_line(b),
    ensures
        single_line(a + b),
{
    assert forall|i: int| 0 <= i < (a + b).len() implies (a + b)[i] != '\n' by {
        if i < a.len() {
            assert(a[i] != '\n');
        } else {
            assert(b[i - a.len()] != '\n');
        }
    }
}

/// The list instructions write exactly one line per value, in order: the
/// prefix and the value, ended by a single line feed, with nothing after the
/// last line feed.
pub proof fn law_one_line_per_value(prefix: Seq<char>, values: Seq<Seq<char>>)
    requires
        single_line(prefix),
        all_single_line(values),
    ensures
        raw_ended_lines(instruction_lines(prefix, values)) == values.map_values(
            |v: Seq<char>| prefix + v,
        ),
        open_line(instruction_lines(prefix, values)) == Seq::<char>::empty(),
    decreases values.len(),
{
    if values.len() > 0 {
        let init = values.drop_last();
        assert forall|i: int| 0 <= i < init.len() implies single_line(#[trigger] init[i]) by {
            assert(single_line(values[i]));
        }
        law_one_line_per_value(prefix, init);
        let v = values.last();
        assert(single_line(values[values.len() - 1]));
        lemma_join_single_line(prefix, v);
        lemma_one_line(prefix + v);
        assert(instruction_line(prefix, v) =~= (prefix + v).push('\n'));
        lemma_lines_append(instruction_lines(prefix, init), instruction_line(prefix, v));
        assert(values.map_values(|w: Seq<char>| prefix + w) =~= init.map_values(
            |w: Seq<char>| prefix + w,
        ) + seq![prefix + v]);
    } else {
        assert(values.map_values(|w: Seq<char>| prefix + w) =~= Seq::<Seq<char>>::empty());
    }
}

proof fn lemma_text_lines_single(s: Seq<char>)
    ensures
        single_line(open_line(s)),
        forall|i: int|
            0 <= i < raw_ended_lines(s).len() ==> single_line(#[trigger] raw_ended_lines(s)[i]),
    decreases s.len(),
{
    if s.len() > 0 {
        let t = s.drop_last();
        lemma_text_lines_single(t);
        if s.last() != '\n' {
            let o = open_line(t);
            assert forall|i: int| 0 <= i < o.push(s.last()).len() implies o.push(s.last())[i]
                != '\n' by {
                if i < o.len() {
                    assert(o[i] != '\n');
                }
            }
        } else {
            assert forall|i: int| 0 <= i < raw_ended_lines(s).len() implies single_line(
                #[trigger] raw_ended_lines(s)[i],
            ) by {
                if i < raw_ended_lines(t).len() {
                    assert(raw_ended_lines(s)[i] == raw_ended_lines(t)[i]);
                }
            }
        }
    }
}

/// `error` and `warning` write exactly one line for each line of the message,
/// in order, and nothing after the last line feed.
pub proof fn law_one_line_per_message_line(prefix: Seq<char>, msg: Seq<char>)
    requires
        single_line(prefix),
    ensures
        raw_ended_lines(instruction_lines(prefix, text_lines(msg))) == text_lines(msg).map_values(
            |l: Seq<char>| prefix + l,
        ),
        open_line(instruction_lines(prefix, text_lines(msg))) == Seq::<char>::empty(),
{
    lemma_text_lines_single(msg);
    let ls = text_lines(msg);
    assert forall|i: int| 0 <= i < ls.len() implies single_line(#[trigger] ls[i]) by {
        let raw = raw_ended_lines(msg);
        if msg.len() == 0 {
            assert(ls[i] == Seq::<char>::empty());
        } else if i < raw.len() {
            let l = raw[i];
            assert(single_line(l));
            assert(ended_lines(msg)[i] == strip_cr(l));
            assert forall|j: int| 0 <= j < strip_cr(l).len() implies strip_cr(l)[j] != '\n' by {
                assert(l[j] != '\n');
            }
        }
    }
    law_one_line_per_value(prefix, ls);
}

/// `rustc_cfg` writes a single line.
pub proof fn law_cfg_one_line(name: Seq<char>, value: Option<Seq<char>>)
    requires
        single_line(name),
        value is Some ==> single_line(value->0),
    ensures
        raw_ended_lines(cfg_line(name, value)) == seq![cfg_line(name, value).drop_last()],
        open_line(cfg_line(name, value)) == Seq::<char>::empty(),
{
    reveal_strlit("cargo::rustc-cfg=");
    reveal_strlit("=\"");
    reveal_strlit("\"");
    let head = "cargo::rustc-cfg="@ + name;
    lemma_join_single_line("cargo::rustc-cfg="@, name);
    let body = match value {
        Some(v) => {
            lemma_join_single_line("=\""@, v);
            lemma_join_single_line("=\""@ + v, "\""@);
            lemma_join_single_line(head, "=\""@ + v + "\""@);
            head + ("=\""@ + v + "\""@)
        },
        None => head,
    };
    assert(cfg_line(name, value) =~= body.push('\n'));
    assert(cfg_line(name, value).drop_last() =~= body);
    lemma_one_line(body);
}

/// `rustc_check_cfg` writes a single line.
pub proof fn law_check_cfg_one_line(name: Seq<char>, values: Seq<Seq<char>>)
    requires
        single_line(name),
        all_single_line(values),
    ensures
        raw_ended_lines(check_cfg_line(name, values)) == seq![
            check_cfg_line(name, values).drop_last(),
        ],
        open_line(check_cfg_line(name, values)) == Seq::<char>::empty(),
{
    reveal_strlit("cargo::rustc-check-cfg=cfg(");
    reveal_strlit(")");
    reveal_strlit(", values(");
    reveal_strlit("))");
    let head = "cargo::rustc-check-cfg=cfg("@ + name;
    lemma_join_single_line("cargo::rustc-check-cfg=cfg("@, name);
    let tail = if values.len() == 0 {
        ")"@
    } else {
        lemma_quoted_list_single_line(values);
        lemma_join_single_line(", values("@, quoted_list(values));
        lemma_join_single_line(", values("@ + quoted_list(values), "))"@);
        ", values("@ + quoted_list(values) + "))"@
    };
    lemma_join_single_line(head, tail);
    assert(check_cfg_line(name, values) =~= (head + tail).push('\n'));
    assert(check_cfg_line(name, values).drop_last() =~= head + tail);
    lemma_one_line(head + tail);
}

proof fn lemma_quoted_list_single_line(values: Seq<Seq<char>>)
    requires
        all_single_line(values),
    ensures
        single_line(quoted_list(values)),
    decreases values.len(),
{
    reveal_strlit("\"");
    reveal_strlit(", ");
    if values.len() > 0 {
        let v = values.last();
        assert(single_line(values[values.len() - 1]));
        lemma_join_single_line("\""@, v);
        lemma_join_single_line("\""@ + v, "\""@);
        if values.len() == 1 {
            assert(values[0] == v);
        } else {
            let init = values.drop_last();
            assert forall|i: int| 0 <= i < init.len() implies single_line(#[trigger] init[i]) by {
                assert(single_line(values[i]));
            }
            lemma_quoted_list_single_line(init);
            lemma_join_single_line(quoted_list(init), ", "@);
            lemma_join_single_line(quoted_list(init) + ", "@, quoted(v));
        }
    }
}

/// `rustc_check_cfgs` writes exactly one line per name, in order.
pub proof fn law_check_cfgs_one_line_per_name(names: Seq<Seq<char>>)
    requires
        all_single_line(names),
    ensures
        raw_ended_lines(check_cfg_lines(names)) == names.map_values(
            |n: Seq<char>| check_cfg_line(n, Seq::empty()).drop_last(),
        ),
        open_line(check_cfg_lines(names)) == Seq::<char>::empty(),
    decreases names.len(),
{
    if names.len() > 0 {
        let init = names.drop_last();
        assert forall|i: int| 0 <= i < init.len() implies single_line(#[trigger] init[i]) by {
            assert(single_line(names[i]));
        }
        law_check_cfgs_one_line_per_name(init);
        let n = names.last();
        assert(single_line(names[names.len() - 1]));
        law_check_cfg_one_line(n, Seq::empty());
        lemma_lines_append(check_cfg_lines(init), check_cfg_line(n, Seq::empty()));
        assert(names.map_values(|m: Seq<char>| check_cfg_line(m, Seq::empty()).drop_last())
            =~= init.map_values(|m: Seq<char>| check_cfg_line(m, Seq::empty()).drop_last())
            + seq![check_cfg_line(n, Seq::empty()).drop_last()]);
    } else {
        assert(names.map_values(|m: Seq<char>| check_cfg_line(m, Seq::empty()).drop_last())
            =~= Seq::<Seq<char>>::empty());
    }
}

/// `rustc_env` and `metadata` write a single line: the prefix, the key, `=` and
/// the value.
pub proof fn law_key_value_one_line(key: Seq<char>, value: Seq<char>)
    requires
        single_line(key),
        single_line(value),
    ensures
        raw_ended_lines("cargo::rustc-env="@ + key + "="@ + value + seq!['\n']) == seq![
            "cargo::rustc-env="@ + key + "="@ + value,
        ],
        raw_ended_lines("cargo::metadata="@ + key + "="@ + value + seq!['\n']) == seq![
            "cargo::metadata="@ + key + "="@ + value,
        ],
{
    reveal_strlit("cargo::rustc-env=");
    reveal_strlit("cargo::metadata=");
    reveal_strlit("=");
    lemma_join_single_line(key, "="@);
    lemma_join_single_line(key + "="@, value);
    let kv = key + "="@ + value;
    lemma_join_single_line("cargo::rustc-env="@, kv);
    lemma_join_single_line("cargo::metadata="@, kv);
    let env = "cargo::rustc-env="@ + key + "="@ + value;
    let meta = "cargo::metadata="@ + key + "="@ + value;
    assert(env =~= "cargo::rustc-env="@ + kv);
    assert(meta =~= "cargo::metadata="@ + kv);
    assert(env + seq!['\n'] =~= env.push('\n'));
    assert(meta + seq!['\n'] =~= meta.push('\n'));
    lemma_one_line(env);
    lemma_one_line(meta);
}

/// A value that holds a line feed is refused before anything is written: no
/// list of values that holds it meets the list emitters' requirement, so no
/// call with it is made and no partial line can reach the sink, wherever in
/// the list the value stands.
pub proof fn law_newline_value_refused(values: Seq<Seq<char>>, i: int)
    requires
        0 <= i < values.len(),
        values[i].contains('\n'),
    ensures
        !all_single_line(values),
{
    assert(!single_line(values[i]));
}

/// The text of `texts`, one after another.
pub open spec fn concat(texts: Seq<Seq<char>>) -> Seq<char>
    decreases texts.len(),
{
    if texts.len() == 0 {
        Seq::empty()
    } else {
        concat(texts.drop_last()) + texts.last()
    }
}

/// Once a capture that starts empty is installed, a run of writes (`views[i]`
/// to `views[i + 1]` with result `results[i]`, as every emitter's contract
/// states it) all succeed, and the capture then holds exactly their texts, one
/// after another in call order.
pub proof fn law_capture_round_trip(
    start: OutView,
    views: Seq<OutView>,
    results: Seq<Result<(), WriteError>>,
    texts: Seq<Seq<char>>,
)
    requires
        views.len() == texts.len() + 1,
        results.len() == texts.len(),
        views[0] == start.with_capture(Seq::empty()),
        forall|i: int|
            0 <= i < texts.len() ==> #[trigger] views[i].wrote(views[i + 1], results[i], texts[i]),
    ensures
        forall|i: int| 0 <= i < results.len() ==> #[trigger] results[i] is Ok,
        views.last() == start.with_capture(concat(texts)),
    decreases texts.len(),
{
    if texts.len() == 0 {
        assert(start.with_capture(concat(texts)) == start.with_capture(Seq::empty()));
    } else {
        let n = texts.len() - 1;
        law_capture_round_trip(start, views.drop_last(), results.drop_last(), texts.drop_last());
        assert(views.drop_last().last() == views[n]);
        assert(views[n].wrote(views[n + 1], results[n], texts[n]));
        assert(results.drop_last().len() == n);
        assert forall|i: int| 0 <= i < results.len() implies #[trigger] results[i] is Ok by {
            if i < n {
                assert(results.drop_last()[i] is Ok);
            }
        }
    }
}

/// After `reset`, a write reaches no capture: the sink holds none, and what it
/// writes goes to standard output.
pub proof fn law_reset_restores_stdout(
    before: OutView,
    after: OutView,
    r: Result<(), WriteError>,
    text: Seq<char>,
)
    requires
        before.without_capture().wrote(after, r, text),
    ensures
        after.capture is None,
        r is Ok ==> after.printed == before.printed + text,
        r is Err ==> after.printed == before.printed,
{
}

} // verus!
