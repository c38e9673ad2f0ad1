//! The renderer: the status line (`Every <interval>s: <command>` with the
//! timestamp right-aligned to the terminal width), and the captured output
//! cut down to the visible rows and columns. Everything is produced as a
//! vector of lines; writing them to the terminal happens outside the library.

use crate::config::WatchOpts;
use crate::lines::spec_lines;
use crate::lines::split_lines;
use crate::text::spec_decimal;
use crate::text::spec_digit;
use crate::text::spec_spaces;
use crate::text::decimal;
use crate::text::spaces;
use vstd::prelude::*;

verus! {

/// How many padding spaces stand between the left text and the timestamp:
/// whatever is left of the width, clamped to zero when the width is too
/// small rather than underflowing.
pub open spec fn spec_pad(left: Seq<char>, ts: Seq<char>, width: nat) -> nat {
    if left.len() + ts.len() <= width {
        (width - left.len() - ts.len()) as nat
    } else {
        0
    }
}

/// The status line: left text, padding, then the timestamp, truncated to
/// exactly the terminal width.
pub open spec fn spec_status_line(left: Seq<char>, ts: Seq<char>, width: nat) -> Seq<char> {
    (left + spec_spaces(spec_pad(left, ts, width)) + ts).take(width as int)
}

/// The rendered status line always occupies the terminal width exactly: the
/// padding fills the line when the parts fit, and the line is truncated, not
/// wrapped and never underflowed, when they do not.
pub proof fn lemma_status_line_width(left: Seq<char>, ts: Seq<char>, width: nat)
    ensures
        spec_status_line(left, ts, width).len() == width,
{
    assert(left.len() + spec_spaces(spec_pad(left, ts, width)).len() + ts.len() >= width);
}

/// Builds the status line for the current terminal width.
pub fn status_line(left: &str, ts: &str, width: usize) -> (r: String)
    ensures
        r@ == spec_status_line(left@, ts@, width as nat),
        r@.len() == width as nat,
{
    proof {
        lemma_status_line_width(left@, ts@, width as nat);
    }
    let ll = left.unicode_len();
    let tl = ts.unicode_len();
    let pad: usize = if ll <= width && tl <= width - ll {
        width - ll - tl
    } else {
        0
    };
    let mut s = String::from_str(left);
    let fill = spaces(pad);
    s.append(fill.as_str());
    s.append(ts);
    let total = s.unicode_len();
    if total > width {
        let r = String::from_str(s.as_str().substring_char(0, width));
        r
    } else {
        proof {
            assert(s@.take(width as int) =~= s@);
        }
        s
    }
}

/// A line cut to the column budget: never wrapped, and kept whole when it
/// already fits.
pub open spec fn spec_truncate(l: Seq<char>, width: nat) -> Seq<char> {
    if l.len() <= width {
        l
    } else {
        l.take(width as int)
    }
}

/// Truncates one output line to the terminal width.
pub fn truncate_line(line: &str, width: usize) -> (r: String)
    ensures
        r@ == spec_truncate(line@, width as nat),
{
    let n = line.unicode_len();
    if n <= width {
        String::from_str(line)
    } else {
        String::from_str(line.substring_char(0, width))
    }
}

/// How many output rows fit under the status header: the height less the
/// three rows reserved for the header, clamped to zero on tiny terminals.
pub open spec fn output_rows(height: nat) -> nat {
    if height >= 3 {
        (height - 3) as nat
    } else {
        0
    }
}

/// The visible part of the output: at most `budget` lines, in their original
/// order, each truncated to the column budget.
pub open spec fn spec_visible(ls: Seq<Seq<char>>, width: nat, budget: nat) -> Seq<Seq<char>> {
    let cut = if ls.len() <= budget {
        ls
    } else {
        ls.take(budget as int)
    };
    cut.map_values(|l: Seq<char>| spec_truncate(l, width))
}

/// When the output fits the visible area — no more lines than the budget and
/// no line wider than the terminal — it is shown exactly as captured.
pub proof fn lemma_visible_round_trip(ls: Seq<Seq<char>>, width: nat, budget: nat)
    requires
        ls.len() <= budget,
        forall|i: int| 0 <= i < ls.len() ==> (#[trigger] ls[i]).len() <= width,
    ensures
        spec_visible(ls, width, budget) == ls,
{
    assert(spec_visible(ls, width, budget) =~= ls);
}

/// When the output is taller than the budget, exactly `budget` lines are
/// shown, in order, each the truncation of the corresponding captured line.
pub proof fn lemma_visible_truncates(ls: Seq<Seq<char>>, width: nat, budget: nat)
    requires
        ls.len() > budget,
    ensures
        spec_visible(ls, width, budget).len() == budget,
        forall|i: int|
            0 <= i < budget ==> spec_visible(ls, width, budget)[i] == spec_truncate(
                ls[i],
                width,
            ),
{
}

/// Cuts the split output down to the visible rows and columns.
pub fn visible_output(lines: &Vec<String>, width: usize, budget: usize) -> (r: Vec<String>)
    ensures
        r.deep_view() == spec_visible(lines.deep_view(), width as nat, budget as nat),
{
    let ghost dv = lines.deep_view();
    let count: usize = if lines.len() <= budget {
        lines.len()
    } else {
        budget
    };
    let mut r: Vec<String> = Vec::new();
    let mut i: usize = 0;
    while i < count
        invariant
            i <= count <= lines.len() == dv.len(),
            count <= budget,
            dv == lines.deep_view(),
            r.deep_view() =~= dv.take(i as int).map_values(
                |l: Seq<char>| spec_truncate(l, width as nat),
            ),
        decreases count - i,
    {
        let line = truncate_line(lines[i].as_str(), width);
        let ghost before = r.deep_view();
        let ghost prev = r@;
        r.push(line);
        proof {
            assert(dv[i as int] == lines@[i as int]@);
            assert forall|k: int| 0 <= k < prev.len() implies r.deep_view()[k] == before[k] by {
                assert(r@[k] == prev[k]);
                assert(before[k] == prev[k]@);
            }
            assert(r.deep_view()[prev.len() as int] == line@);
            assert(r.deep_view() =~= before.push(line@));
            assert(r.deep_view() =~= dv.take(i + 1).map_values(
                |l: Seq<char>| spec_truncate(l, width as nat),
            ));
        }
        i = i + 1;
    }
    proof {
        if dv.len() <= budget as nat {
            assert(dv.take(count as int) =~= dv);
        }
        assert(r.deep_view() =~= spec_visible(dv, width as nat, budget as nat));
    }
    r
}

/// The text standing left of the padding in the status line:
/// `Every <seconds>.<centiseconds>s: ` followed by the command. The interval
/// is printed in seconds with two decimal places, centiseconds truncated.
pub open spec fn spec_status_prefix(interval_ms: u64) -> Seq<char> {
    "Every "@ + spec_decimal(interval_ms as nat / 1000) + "."@ + seq![
        spec_digit(((interval_ms as nat % 1000) / 10) / 10),
        spec_digit(((interval_ms as nat % 1000) / 10) % 10),
    ] + "s: "@
}

/// Formats the `Every <interval>s: ` label from the interval in milliseconds.
pub fn status_prefix(interval_ms: u64) -> (r: String)
    ensures
        r@ == spec_status_prefix(interval_ms),
{
    let mut r = String::from_str("Every ");
    let secs = decimal(interval_ms / 1000);
    r.append(secs.as_str());
    r.append(".");
    let centis = (interval_ms % 1000) / 10;
    let d1 = decimal(centis / 10);
    r.append(d1.as_str());
    let d2 = decimal(centis % 10);
    r.append(d2.as_str());
    r.append("s: ");
    proof {
        assert(r@ =~= spec_status_prefix(interval_ms));
    }
    r
}

/// The full left text of the status line for this configuration.
pub open spec fn spec_status_left(opts: WatchOpts) -> Seq<char> {
    spec_status_prefix(opts.interval_ms) + opts.command@
}

/// One whole frame as its lines: the status line and a blank row (unless the
/// title is suppressed), then the visible part of the output.
pub open spec fn spec_frame(
    no_title: bool,
    left: Seq<char>,
    ts: Seq<char>,
    content: Seq<char>,
    width: nat,
    height: nat,
) -> Seq<Seq<char>> {
    if no_title {
        spec_visible(spec_lines(content), width, height)
    } else {
        seq![spec_status_line(left, ts, width), Seq::<char>::empty()] + spec_visible(
            spec_lines(content),
            width,
            output_rows(height),
        )
    }
}

/// Renders one frame from already-decoded output text: the verified half of
/// rendering, shared by every caller whatever the bytes decoded to.
pub fn render_text_frame(
    no_title: bool,
    left: &str,
    ts: &str,
    content: &str,
    width: u16,
    height: u16,
) -> (r: Vec<String>)
    ensures
        r.deep_view() == spec_frame(no_title, left@, ts@, content@, width as nat, height as nat),
{
    let w: usize = width as usize;
    let all_lines = split_lines(content);
    if no_title {
        let r = visible_output(&all_lines, w, height as usize);
        r
    } else {
        let budget: usize = if height as usize >= 3 {
            height as usize - 3
        } else {
            0
        };
        let mut r: Vec<String> = Vec::new();
        r.push(status_line(left, ts, w));
        r.push(String::new());
        let body = visible_output(&all_lines, w, budget);
        let ghost header = seq![
            spec_status_line(left@, ts@, width as nat),
            Seq::<char>::empty(),
        ];
        let ghost body_view = body.deep_view();
        let mut j: usize = 0;
        while j < body.len()
            invariant
                j <= body.len(),
                body.deep_view() == body_view,
                r.deep_view() =~= header + body_view.take(j as int),
            decreases body.len() - j,
        {
            let line = body[j].clone();
            let ghost before = r.deep_view();
            let ghost prev = r@;
            r.push(line);
            proof {
                assert(body_view[j as int] == body@[j as int]@);
                assert forall|k: int| 0 <= k < prev.len() implies r.deep_view()[k]
                    == before[k] by {
                    assert(r@[k] == prev[k]);
                    assert(before[k] == prev[k]@);
                }
                assert(r.deep_view()[prev.len() as int] == body_view[j as int]);
                assert(r.deep_view() =~= before.push(body_view[j as int]));
                assert(header + body_view.take(j + 1) =~= (header + body_view.take(
                    j as int,
                )).push(body_view[j as int]));
                assert(r.deep_view() =~= header + body_view.take(j + 1));
            }
            j = j + 1;
        }
        proof {
            assert(body_view.take(body_view.len() as int) =~= body_view);
            assert(r.deep_view() =~= spec_frame(
                no_title,
                left@,
                ts@,
                content@,
                width as nat,
                height as nat,
            ));
        }
        r
    }
}

/// What `String::from_utf8_lossy` decodes the captured bytes to.
pub uninterp spec fn lossy_utf8_of(bytes: Seq<u8>) -> Seq<char>;

/// Relies on String::from_utf8_lossy: the decoding is a function of the bytes
/// alone, and invalid sequences become replacement characters instead of
/// aborting the render.
#[verifier::external_body]
fn decode_lossy(bytes: &[u8]) -> (r: String)
    ensures
        r@ == lossy_utf8_of(bytes@),
{
    String::from_utf8_lossy(bytes).into_owned()
}

/// Renders one frame from the raw captured bytes: decodes them tolerantly,
/// builds the status left text from the configuration, and lays the frame
/// out for the given terminal size.
pub fn render_frame(
    opts: &WatchOpts,
    ts: &str,
    output: &[u8],
    width: u16,
    height: u16,
) -> (r: Vec<String>)
    ensures
        r.deep_view() == spec_frame(
            opts.no_title,
            spec_status_left(*opts),
            ts@,
            lossy_utf8_of(output@),
            width as nat,
            height as nat,
        ),
{
    let content = decode_lossy(output);
    let mut left = status_prefix(opts.interval_ms);
    left.append(opts.command.as_str());
    render_text_frame(opts.no_title, left.as_str(), ts, content.as_str(), width, height)
}

} // verus!
