use vstd::prelude::*;

verus! {

/// The rendered arguments of one console call, separated by single spaces.
pub open spec fn joined(parts: Seq<Seq<char>>) -> Seq<char>
    decreases parts.len(),
{
    if parts.len() == 0 {
        Seq::empty()
    } else if parts.len() == 1 {
        parts[0]
    } else {
        joined(parts.drop_last()) + seq![' '] + parts.last()
    }
}

/// The line a console call writes: its rendered arguments, space-separated,
/// ending in a newline.
pub open spec fn log_line(parts: Seq<Seq<char>>) -> Seq<char> {
    joined(parts) + seq!['\n']
}

pub open spec fn views(parts: Seq<String>) -> Seq<Seq<char>> {
    parts.map_values(|s: String| s@)
}

/// Builds the line that `console.log`, `info`, `warn` and `error` write for
/// the given renderings of their arguments.
pub fn render_log_line(parts: &Vec<String>) -> (r: String)
    ensures
        r@ == log_line(views(parts@)),
{
    let mut out = String::new();
    let mut i: usize = 0;
    while i < parts.len()
        invariant
            i <= parts@.len(),
            out@ == joined(views(parts@.take(i as int))),
        decreases parts@.len() - i,
    {
        proof {
            let next = views(parts@.take(i as int + 1));
            assert(next.drop_last() =~= views(parts@.take(i as int)));
            assert(next.last() == parts@[i as int]@);
        }
        if i > 0 {
            out.append(" ");
        }
        out.append(parts[i].as_str());
        proof {
            reveal_strlit(" ");
            if i == 0 {
                assert(out@ =~= joined(views(parts@.take(1))));
            } else {
                assert(out@ =~= joined(views(parts@.take(i as int + 1))));
            }
        }
        i = i + 1;
    }
    proof {
        assert(parts@.take(parts@.len() as int) =~= parts@);
    }
    out.append("\n");
    proof {
        reveal_strlit("\n");
    }
    out
}

/// No part holds a line break.
pub open spec fn no_line_breaks(parts: Seq<Seq<char>>) -> bool {
    forall|k: int, i: int| 0 <= k < parts.len() && 0 <= i < parts[k].len() ==> parts[k][i] != '\n'
}

proof fn lemma_joined_has_no_line_break(parts: Seq<Seq<char>>)
    requires
        no_line_breaks(parts),
    ensures
        forall|i: int| 0 <= i < joined(parts).len() ==> joined(parts)[i] != '\n',
    decreases parts.len(),
{
    if parts.len() > 1 {
        let front = parts.drop_last();
        assert(no_line_breaks(front)) by {
            assert forall|k: int, i: int| 0 <= k < front.len() && 0 <= i < front[k].len() implies front[k][i] != '\n' by {
                assert(front[k] == parts[k]);
            }
        }
        lemma_joined_has_no_line_break(front);
        let last = parts.last();
        assert forall|i: int| 0 <= i < joined(parts).len() implies joined(parts)[i] != '\n' by {
            let head = joined(front) + seq![' '];
            if i >= head.len() {
                assert(joined(parts)[i] == last[i - head.len()]);
                assert(parts[parts.len() - 1] == last);
            } else if i < joined(front).len() {
                assert(joined(parts)[i] == joined(front)[i]);
            }
        }
    } else if parts.len() == 1 {
        assert forall|i: int| 0 <= i < joined(parts).len() implies joined(parts)[i] != '\n' by {
            assert(joined(parts)[i] == parts[0][i]);
        }
    }
}

/// A console call whose rendered arguments hold no line break writes exactly
/// one line: its only line break is the last character.
pub proof fn lemma_log_line_is_one_line(parts: Seq<Seq<char>>)
    requires
        no_line_breaks(parts),
    ensures
        log_line(parts).last() == '\n',
        forall|i: int| 0 <= i < log_line(parts).len() - 1 ==> log_line(parts)[i] != '\n',
{
    lemma_joined_has_no_line_break(parts);
    assert forall|i: int| 0 <= i < log_line(parts).len() - 1 implies log_line(parts)[i] != '\n' by {
        assert(log_line(parts)[i] == joined(parts)[i]);
    }
}

/// The names under which the console object exposes its logging function,
/// all with the same behaviour.
pub fn console_method_names() -> (r: Vec<String>)
    ensures
        views(r@) == seq!["log"@, "info"@, "warn"@, "error"@],
{
    let mut r: Vec<String> = Vec::new();
    r.push(String::from_str("log"));
    r.push(String::from_str("info"));
    r.push(String::from_str("warn"));
    r.push(String::from_str("error"));
    assert(views(r@) =~= seq!["log"@, "info"@, "warn"@, "error"@]);
    r
}

} // verus!
