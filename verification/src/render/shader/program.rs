//! Shader programs: annotation of their GLSL sources.

use vstd::prelude::*;
use vstd::std_specs::iter::IteratorSpec;
use vstd::string::StringExecFns;

use crate::logger::{decimal, decimal_len, write_decimal};
use crate::resource::push_char;

verus! {

/// A line without its carriage return, if it ends with one.
pub open spec fn strip_cr(line: Seq<char>) -> Seq<char> {
    if line.len() > 0 && line.last() == '\r' {
        line.drop_last()
    } else {
        line
    }
}

/// The lines of `s`, the current line being `cur` and the lines already ended `done`: a line ends
/// at a line feed, which it does not include, nor a carriage return just before it; the last line
/// needs no line feed, and an empty last line is no line.
pub open spec fn lines_from(s: Seq<char>, cur: Seq<char>, done: Seq<Seq<char>>) -> Seq<Seq<char>>
    decreases s.len(),
{
    if s.len() == 0 {
        if cur.len() == 0 {
            done
        } else {
            done.push(cur)
        }
    } else if s[0] == '\n' {
        lines_from(s.drop_first(), Seq::empty(), done.push(strip_cr(cur)))
    } else {
        lines_from(s.drop_first(), cur.push(s[0]), done)
    }
}

/// The lines of a text, as Rust's `str::lines` gives them.
pub open spec fn text_lines(s: Seq<char>) -> Seq<Seq<char>> {
    lines_from(s, Seq::empty(), Seq::empty())
}

/// Split a text into lines, as Rust's `str::lines` does.
pub fn lines(s: &str) -> (res: Vec<String>)
    ensures
        res@.map_values(|l: String| l@) == text_lines(s@),
{
    let ghost chars = s@;
    let mut it = s.chars();
    proof {
        broadcast use vstd::string::axiom_spec_iter;
    }
    let ghost mut i: int = 0;
    let mut done: Vec<String> = Vec::new();
    let mut cur = String::new();
    let mut pending_cr = false;
    assert(done@.map_values(|l: String| l@) =~= Seq::<Seq<char>>::empty());
    assert(chars.skip(0) =~= chars);
    assert(cur@ =~= Seq::<char>::empty());
    loop
        invariant
            it.obeys_prophetic_iter_laws(),
            chars == s@,
            0 <= i <= chars.len(),
            it.remaining() == chars.skip(i),
            !pending_cr ==> (cur@.len() == 0 || cur@.last() != '\r'),
            text_lines(chars) == lines_from(
                chars.skip(i),
                if pending_cr {
                    cur@.push('\r')
                } else {
                    cur@
                },
                done@.map_values(|l: String| l@),
            ),
        ensures
            i == chars.len(),
            text_lines(chars) == lines_from(
                chars.skip(i),
                if pending_cr {
                    cur@.push('\r')
                } else {
                    cur@
                },
                done@.map_values(|l: String| l@),
            ),
        decreases chars.len() - i,
    {
        let next = it.next();
        proof {
            broadcast use vstd::string::next_postcondition;
        }
        match next {
            None => {
                assert(chars.skip(i).len() == 0);
                break;
            },
            Some(c) => {
                let ghost rest = chars.skip(i);
                assert(rest.len() > 0 && rest[0] == c);
                assert(rest.drop_first() =~= chars.skip(i + 1));
                let ghost full = if pending_cr {
                    cur@.push('\r')
                } else {
                    cur@
                };
                let ghost dv = done@.map_values(|l: String| l@);
                if c == '\n' {
                    assert(strip_cr(full) == cur@) by {
                        if pending_cr {
                            assert(full.drop_last() =~= cur@);
                        } else {
                            assert(cur@.len() == 0 || cur@.last() != '\r');
                        }
                    }
                    let line = cur;
                    cur = String::new();
                    pending_cr = false;
                    let ghost lv = line@;
                    done.push(line);
                    assert(done@.map_values(|l: String| l@) =~= dv.push(lv));
                } else {
                    if pending_cr {
                        push_char(&mut cur, '\r');
                        pending_cr = false;
                    }
                    if c == '\r' {
                        pending_cr = true;
                    } else {
                        push_char(&mut cur, c);
                    }
                }
                proof {
                    i = i + 1;
                }
            },
        }
    }
    if pending_cr {
        push_char(&mut cur, '\r');
    }
    assert(chars.skip(i).len() == 0);
    if !cur.as_str().is_empty() {
        let ghost dv = done@.map_values(|l: String| l@);
        let ghost cv = cur@;
        done.push(cur);
        assert(done@.map_values(|l: String| l@) =~= dv.push(cv));
    }
    done
}

/// `n` in decimal, right-aligned with spaces on `width` characters.
pub open spec fn right_aligned(n: nat, width: nat) -> Seq<char> {
    let d = decimal(n);
    if d.len() < width {
        Seq::new((width - d.len()) as nat, |i: int| ' ') + d
    } else {
        d
    }
}

/// The annotated source of a shader: each line prefixed with its number, from one, right-aligned
/// on three characters, and a colon.
pub open spec fn annotated(lines: Seq<Seq<char>>) -> Seq<Seq<char>> {
    Seq::new(lines.len(), |i: int| right_aligned((i + 1) as nat, 3) + ": "@ + lines[i])
}

/// Annotate the source of a shader with line numbers, for display.
pub fn annotate_shader(s: &str) -> (res: Vec<String>)
    ensures
        res@.map_values(|l: String| l@) == annotated(text_lines(s@)),
{
    let ls = lines(s);
    let ghost lv = ls@.map_values(|l: String| l@);
    let mut res: Vec<String> = Vec::new();
    let mut i: usize = 0;
    proof {
        reveal_strlit(": ");
        reveal_strlit(" ");
    }
    while i < ls.len()
        invariant
            i <= ls@.len(),
            lv == ls@.map_values(|l: String| l@),
            lv == text_lines(s@),
            ": "@ == seq![':', ' '],
            " "@ == seq![' '],
            res@.len() == i,
            forall|j: int| 0 <= j < i ==> #[trigger] res@[j]@ == annotated(lv)[j],
        decreases ls@.len() - i,
    {
        let n = (i as u64) + 1;
        let len = decimal_len(n);
        let mut line = String::new();
        let mut k: u64 = len;
        while k < 3
            invariant
                len == decimal(n as nat).len(),
                len <= k,
                k <= 3 || k == len,
                " "@ == seq![' '],
                line@ == Seq::new((k - len) as nat, |j: int| ' '),
            decreases 3 - k,
        {
            line.append(" ");
            assert(line@ =~= Seq::new((k + 1 - len) as nat, |j: int| ' '));
            k = k + 1;
        }
        assert(line@ + decimal(n as nat) =~= right_aligned(n as nat, 3)) by {
            if len >= 3 {
                assert(Seq::new((k - len) as nat, |j: int| ' ') =~= Seq::<char>::empty());
            }
        }
        write_decimal(&mut line, n);
        line.append(": ");
        line.append(ls[i].as_str());
        assert(line@ =~= annotated(lv)[i as int]);
        res.push(line);
        i = i + 1;
    }
    assert(res@.map_values(|l: String| l@) =~= annotated(lv));
    res
}

} // verus!
