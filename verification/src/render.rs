//! Terminal renderer for the model's replies.
//!
//! [`format_response`] works line by line. A line that begins with the
//! literal prefix `### ` is wrapped whole in a bold-green escape pair. On
//! any other line, each `**` marker toggles bold: text before the first
//! marker is copied verbatim, text between a marker and the next is wrapped
//! in bold-on/bold-off escapes, and an odd number of markers leaves the last
//! bold-on escape open for the rest of the line. Every processed line is
//! followed by a newline. No other markdown construct is recognized.
use vstd::prelude::*;

verus! {

/// The escape that turns bold on.
pub open spec fn esc_bold() -> Seq<char> {
    seq!['\x1b', '[', '1', 'm']
}

/// The escape that resets all formatting.
pub open spec fn esc_reset() -> Seq<char> {
    seq!['\x1b', '[', '0', 'm']
}

/// The escape that turns bold green on, used for heading lines.
pub open spec fn esc_header() -> Seq<char> {
    seq!['\x1b', '[', '1', ';', '3', '2', 'm']
}

/// A heading line: one that begins with the four characters `### `.
pub open spec fn is_header(line: Seq<char>) -> bool {
    line.len() >= 4 && line[0] == '#' && line[1] == '#' && line[2] == '#' && line[3] == ' '
}

/// A line with its `**` markers turned into bold toggles: `bold` says
/// whether bold is currently on. Ordinary characters are copied; each
/// marker emits bold-on or reset and flips the state; a lone trailing `*`
/// is an ordinary character.
pub open spec fn bold_render(line: Seq<char>, bold: bool) -> Seq<char>
    decreases line.len(),
{
    if line.len() == 0 {
        Seq::empty()
    } else if line.len() >= 2 && line[0] == '*' && line[1] == '*' {
        (if bold {
            esc_reset()
        } else {
            esc_bold()
        }) + bold_render(line.skip(2), !bold)
    } else {
        seq![line[0]] + bold_render(line.skip(1), bold)
    }
}

/// One line of output: a heading line is wrapped whole in the bold-green
/// pair, any other line gets its bold markers processed with bold off at
/// the start.
pub open spec fn rendered_line(line: Seq<char>) -> Seq<char> {
    if is_header(line) {
        esc_header() + line + esc_reset()
    } else {
        bold_render(line, false)
    }
}

/// A line as a line feed ends it: the carriage return of a `\r\n` ending
/// is not part of the line.
pub open spec fn strip_cr(line: Seq<char>) -> Seq<char> {
    if line.len() > 0 && line.last() == '\r' {
        line.drop_last()
    } else {
        line
    }
}

/// The rendering of `text` when `line` has already been read as the start
/// of the current line. Each line feed ends a line, whose rendering is
/// emitted followed by a newline; input that ends without a line feed still
/// ends its last line, but keeps a trailing carriage return.
pub open spec fn rendered_rest(text: Seq<char>, line: Seq<char>) -> Seq<char>
    decreases text.len(),
{
    if text.len() == 0 {
        if line.len() == 0 {
            Seq::empty()
        } else {
            rendered_line(line) + seq!['\n']
        }
    } else if text[0] == '\n' {
        rendered_line(strip_cr(line)) + seq!['\n'] + rendered_rest(text.skip(1), Seq::empty())
    } else {
        rendered_rest(text.skip(1), line.push(text[0]))
    }
}

/// The full rendering of a reply.
pub open spec fn rendered(text: Seq<char>) -> Seq<char> {
    rendered_rest(text, Seq::empty())
}

/// Appends to `out` the rendering of the line `s[from..to]`.
fn append_rendered_line(s: &str, from: usize, to: usize, out: &mut String)
    requires
        from <= to <= s@.len(),
    ensures
        final(out)@ == old(out)@ + rendered_line(s@.subrange(from as int, to as int)),
{
    let line = s.substring_char(from, to);
    let m = to - from;
    if m >= 4 && line.get_char(0) == '#' && line.get_char(1) == '#' && line.get_char(2) == '#'
        && line.get_char(3) == ' ' {
        let ghost entry = out@;
        out.append("\x1b[1;32m");
        out.append(line);
        out.append("\x1b[0m");
        proof {
            reveal_strlit("\x1b[1;32m");
            reveal_strlit("\x1b[0m");
            assert("\x1b[1;32m"@ =~= esc_header());
            assert("\x1b[0m"@ =~= esc_reset());
            assert(is_header(line@));
            assert(out@ =~= entry + rendered_line(line@));
        }
    } else {
        proof {
            assert(!is_header(line@));
        }
        let ghost entry = out@;
        let mut i: usize = 0;
        let mut bold = false;
        proof {
            assert(line@.skip(0) =~= line@);
            assert(out@ + bold_render(line@.skip(0), false) =~= entry + bold_render(line@, false));
        }
        while i < m
            invariant
                m == line@.len(),
                0 <= i <= m,
                out@ + bold_render(line@.skip(i as int), bold) == entry + bold_render(
                    line@,
                    false,
                ),
            decreases m - i,
        {
            let ghost rest = line@.skip(i as int);
            if i + 1 < m && line.get_char(i) == '*' && line.get_char(i + 1) == '*' {
                let ghost at = out@;
                if bold {
                    out.append("\x1b[0m");
                } else {
                    out.append("\x1b[1m");
                }
                proof {
                    reveal_strlit("\x1b[0m");
                    reveal_strlit("\x1b[1m");
                    assert("\x1b[0m"@ =~= esc_reset());
                    assert("\x1b[1m"@ =~= esc_bold());
                    assert(rest[0] == '*' && rest[1] == '*');
                    assert(rest.skip(2) =~= line@.skip(i as int + 2));
                    assert(bold_render(rest, bold) == (if bold {
                        esc_reset()
                    } else {
                        esc_bold()
                    }) + bold_render(rest.skip(2), !bold));
                    assert(out@ + bold_render(line@.skip(i as int + 2), !bold) =~= at + bold_render(
                        rest,
                        bold,
                    ));
                }
                bold = !bold;
                i += 2;
            } else {
                let ghost at = out@;
                out.append(line.substring_char(i, i + 1));
                proof {
                    assert(line@.subrange(i as int, i as int + 1) =~= seq![rest[0]]);
                    assert(rest.skip(1) =~= line@.skip(i as int + 1));
                    assert(bold_render(rest, bold) == seq![rest[0]] + bold_render(
                        rest.skip(1),
                        bold,
                    ));
                    assert(out@ + bold_render(line@.skip(i as int + 1), bold) =~= at + bold_render(
                        rest,
                        bold,
                    ));
                }
                i += 1;
            }
        }
        proof {
            assert(line@.skip(m as int) =~= Seq::<char>::empty());
            assert(out@ + bold_render(line@.skip(m as int), bold) =~= out@);
            assert(out@ =~= entry + rendered_line(line@));
        }
    }
}

/// Renders one reply for the terminal, line by line: heading lines are
/// wrapped in the bold-green pair, `**` markers toggle bold on all other
/// lines, and each line of input yields one newline-terminated line of
/// output.
pub fn format_response(response: &str) -> (out: String)
    ensures
        out@ == rendered(response@),
{
    let n = response.unicode_len();
    let mut out = String::new();
    let mut ls: usize = 0;
    let mut i: usize = 0;
    proof {
        assert(response@.skip(0) =~= response@);
        assert(response@.subrange(0, 0) =~= Seq::<char>::empty());
        assert(out@ + rendered_rest(response@, Seq::empty()) =~= rendered(response@));
    }
    while i < n
        invariant
            n == response@.len(),
            0 <= ls <= i <= n,
            out@ + rendered_rest(response@.skip(i as int), response@.subrange(ls as int, i as int))
                == rendered(response@),
        decreases n - i,
    {
        let ghost rest = response@.skip(i as int);
        let ghost cur = response@.subrange(ls as int, i as int);
        let c = response.get_char(i);
        if c == '\n' {
            let le: usize = if i > ls && response.get_char(i - 1) == '\r' {
                i - 1
            } else {
                i
            };
            proof {
                if i > ls && response@[i as int - 1] == '\r' {
                    assert(cur.len() > 0 && cur.last() == '\r');
                    assert(cur.drop_last() =~= response@.subrange(ls as int, le as int));
                } else {
                    assert(strip_cr(cur) =~= response@.subrange(ls as int, le as int));
                }
            }
            let ghost at = out@;
            append_rendered_line(response, ls, le, &mut out);
            out.append("\n");
            proof {
                reveal_strlit("\n");
                assert("\n"@ =~= seq!['\n']);
                assert(rest[0] == '\n');
                assert(rest.skip(1) =~= response@.skip(i as int + 1));
                assert(rendered_rest(rest, cur) == rendered_line(strip_cr(cur)) + seq!['\n']
                    + rendered_rest(response@.skip(i as int + 1), Seq::<char>::empty()));
                assert(out@ + rendered_rest(response@.skip(i as int + 1), Seq::<char>::empty())
                    =~= at + rendered_rest(rest, cur));
            }
            i += 1;
            ls = i;
            proof {
                assert(response@.subrange(ls as int, i as int) =~= Seq::<char>::empty());
            }
        } else {
            proof {
                assert(rest[0] == response@[i as int] && rest[0] != '\n');
                assert(rest.skip(1) =~= response@.skip(i as int + 1));
                assert(cur.push(response@[i as int]) =~= response@.subrange(
                    ls as int,
                    i as int + 1,
                ));
                assert(rendered_rest(rest, cur) == rendered_rest(
                    response@.skip(i as int + 1),
                    cur.push(rest[0]),
                ));
            }
            i += 1;
        }
    }
    proof {
        assert(response@.skip(n as int) =~= Seq::<char>::empty());
    }
    if ls < n {
        let ghost last_line = response@.subrange(ls as int, n as int);
        proof {
            assert(last_line.len() > 0);
            assert(rendered_rest(Seq::<char>::empty(), last_line) == rendered_line(last_line)
                + seq!['\n']);
        }
        let ghost at = out@;
        append_rendered_line(response, ls, n, &mut out);
        out.append("\n");
        proof {
            reveal_strlit("\n");
            assert("\n"@ =~= seq!['\n']);
            assert(out@ =~= at + rendered_rest(Seq::<char>::empty(), last_line));
        }
    } else {
        proof {
            assert(rendered_rest(Seq::<char>::empty(), Seq::<char>::empty())
                == Seq::<char>::empty());
            assert(out@ + Seq::<char>::empty() =~= out@);
        }
    }
    out
}

} // verus!
