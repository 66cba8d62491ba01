//! What is written for the collected files, and what the preview shows and
//! asks.
use vstd::prelude::*;

use crate::filter::{FileEntry, FilterReason};
use crate::i18n::{tr, tr_text, Lang, Msg};
use crate::text::{
    decimal, eq_ascii_nocase, eq_ignore_ascii_case, pop_char, push_char, replace, replace_all,
    to_decimal, trim, trimmed,
};

verus! {

/// The positions of the collected entries, in order.
pub open spec fn ok_positions(s: Seq<FileEntry>) -> Seq<int>
    decreases s.len(),
{
    if s.len() == 0 {
        Seq::empty()
    } else if s.last().status is Ok {
        ok_positions(s.drop_last()).push(s.len() - 1)
    } else {
        ok_positions(s.drop_last())
    }
}

/// The positions of the collected entries, in order.
pub fn ok_entry_indices(entries: &Vec<FileEntry>) -> (r: Vec<usize>)
    ensures
        r@.len() == ok_positions(entries@).len(),
        forall|k: int| 0 <= k < r@.len() ==> r@[k] as int == ok_positions(entries@)[k],
{
    let mut r: Vec<usize> = Vec::new();
    let mut i: usize = 0;
    while i < entries.len()
        invariant
            i <= entries@.len(),
            r@.len() == ok_positions(entries@.take(i as int)).len(),
            forall|k: int|
                0 <= k < r@.len() ==> r@[k] as int == ok_positions(entries@.take(i as int))[k],
        decreases entries@.len() - i,
    {
        assert(entries@.take(i + 1).drop_last() == entries@.take(i as int));
        if entries[i].status.is_ok() {
            r.push(i);
        }
        i += 1;
    }
    assert(entries@.take(entries@.len() as int) == entries@);
    r
}

/// `n` line ends.
pub open spec fn newlines(n: nat) -> Seq<char>
    decreases n,
{
    if n == 0 {
        Seq::empty()
    } else {
        newlines((n - 1) as nat).push('\n')
    }
}

/// A file's content without one trailing line end, if it has one.
pub open spec fn without_final_newline(s: Seq<char>) -> Seq<char> {
    if s.len() > 0 && s.last() == '\n' {
        s.drop_last()
    } else {
        s
    }
}

/// What is written for one collected file: its relative path on a line, its
/// content without one trailing line end on the next, then, unless it is the
/// last collected file, the separator's empty lines.
pub open spec fn block_text(rel: Seq<char>, content: Seq<char>, more_follow: bool, sep: u8) -> Seq<
    char,
> {
    rel + "\n"@ + without_final_newline(content) + "\n"@ + (if more_follow {
        newlines(sep as nat)
    } else {
        Seq::empty()
    })
}

/// The text written for the collected file at `position` (from 0) among
/// `total` collected files.
pub fn copy_block(rel: &str, content: String, position: usize, total: usize, sep: u8) -> (s:
    String)
    ensures
        s@ == block_text(rel@, content@, position + 1 < total, sep),
{
    let mut body = content;
    let ghost c = body@;
    match pop_char(&mut body) {
        Some(ch) => {
            if ch != '\n' {
                push_char(&mut body, ch);
                assert(body@ == c);
            }
        },
        None => {},
    }
    let mut s = String::from_str(rel);
    s.append("\n");
    s.append(body.as_str());
    s.append("\n");
    if position < total && total - position > 1 {
        let mut k: u8 = 0;
        let ghost base = s@;
        while k < sep
            invariant
                k <= sep,
                s@ == base + newlines(k as nat),
            decreases sep - k,
        {
            proof {
                reveal_strlit("\n");
            }
            s.append("\n");
            assert(s@ == base + newlines((k + 1) as nat));
            k += 1;
        }
    }
    s
}

/// The heading of the preview: how many files will be copied.
pub open spec fn title_text(lang: Lang, total_ok: nat) -> Seq<char> {
    "\n["@ + replace_all(tr_text(Msg::PreviewTitle, lang), "{}"@, decimal(total_ok)) + "]"@
}

/// The heading of the preview.
pub fn preview_title(lang: Lang, total_ok: usize) -> (s: String)
    ensures
        s@ == title_text(lang, total_ok as nat),
{
    let t = tr(Msg::PreviewTitle, lang);
    let n = to_decimal(total_ok);
    proof {
        reveal_strlit("{}");
    }
    let r = replace(t.as_str(), "{}", n.as_str());
    let mut s = String::from_str("\n[");
    s.append(r.as_str());
    s.append("]");
    s
}

/// The message that marks an entry's status.
pub open spec fn marker_msg(status: Result<(), FilterReason>) -> Msg {
    match status {
        Ok(_) => Msg::StatusOk,
        Err(FilterReason::Excluded) => Msg::StatusExcl,
        Err(FilterReason::SystemDir) => Msg::StatusSys,
        Err(FilterReason::Extension) => Msg::StatusExt,
        Err(FilterReason::NotIncluded) => Msg::StatusNotIncl,
    }
}

/// The mark shown after an entry in the preview.
pub fn status_marker(status: Result<(), FilterReason>, lang: Lang) -> (s: String)
    ensures
        s@ == tr_text(marker_msg(status), lang),
{
    match status {
        Ok(_) => tr(Msg::StatusOk, lang),
        Err(FilterReason::Excluded) => tr(Msg::StatusExcl, lang),
        Err(FilterReason::SystemDir) => tr(Msg::StatusSys, lang),
        Err(FilterReason::Extension) => tr(Msg::StatusExt, lang),
        Err(FilterReason::NotIncluded) => tr(Msg::StatusNotIncl, lang),
    }
}

/// `n` spaces.
pub open spec fn spaces(n: nat) -> Seq<char>
    decreases n,
{
    if n == 0 {
        Seq::empty()
    } else {
        spaces((n - 1) as nat).push(' ')
    }
}

/// `s` right-aligned in a field of `width` characters.
pub open spec fn right_aligned(s: Seq<char>, width: nat) -> Seq<char> {
    if s.len() < width {
        spaces((width - s.len()) as nat) + s
    } else {
        s
    }
}

/// A line of the preview: the number right-aligned in four columns, the
/// relative path and the mark.
pub open spec fn preview_line_text(number: nat, rel: Seq<char>, marker: Seq<char>) -> Seq<char> {
    right_aligned(decimal(number), 4) + ". "@ + rel + " "@ + marker
}

/// A line of the preview.
pub fn preview_line(number: usize, rel: &str, marker: &str) -> (s: String)
    ensures
        s@ == preview_line_text(number as nat, rel@, marker@),
{
    let digits = to_decimal(number);
    let d = crate::text::chars_of(digits.as_str());
    let pad: usize = if d.len() < 4 { 4 - d.len() } else { 0 };
    let mut s = String::new();
    let mut k: usize = 0;
    while k < pad
        invariant
            k <= pad,
            s@ == spaces(k as nat),
        decreases pad - k,
    {
        push_char(&mut s, ' ');
        k += 1;
    }
    assert(right_aligned(d@, 4) == spaces(pad as nat) + d@);
    s.append(digits.as_str());
    s.append(". ");
    s.append(rel);
    s.append(" ");
    s.append(marker);
    s
}

/// Whether the answer at a pause ends the preview: `q` in either case.
pub fn is_quit_answer(input: &str) -> (r: bool)
    ensures
        r == eq_ascii_nocase(trimmed(input@), "q"@),
{
    let t = trim(input);
    eq_ignore_ascii_case(t.as_str(), "q")
}

/// Whether the answer to the final question asks for the copy: the word for
/// "yes" of the language, or `y`, in either case.
pub fn is_confirm_answer(input: &str, lang: Lang) -> (r: bool)
    ensures
        r == (eq_ascii_nocase(trimmed(input@), tr_text(Msg::Yes, lang)) || eq_ascii_nocase(
            trimmed(input@),
            "y"@,
        )),
{
    let t = trim(input);
    let yes = tr(Msg::Yes, lang);
    eq_ignore_ascii_case(t.as_str(), yes.as_str()) || eq_ignore_ascii_case(t.as_str(), "y")
}

/// Whether the preview ends with the question whether to copy: only when it
/// is interactive and something would be copied.
pub fn asks_to_copy(interactive: bool, total_ok: usize) -> (r: bool)
    ensures
        r == (interactive && total_ok > 0),
{
    interactive && total_ok > 0
}

/// What the preview waits for after it has shown a run of lines.
#[derive(Debug, Clone, Copy, PartialEq, Eq, Structural)]
pub enum PreviewWait {
    /// A page is full: an answer decides whether to go on from this line.
    Page(usize),
    /// The list is over: an answer decides whether to copy.
    Confirm,
    /// Nothing more is asked; the preview ends with this verdict on copying.
    Done(bool),
}

/// What the preview does after an answer.
#[derive(Debug, Clone, Copy, PartialEq, Eq, Structural)]
pub enum PreviewNext {
    /// Show the lines from this one on.
    Continue(usize),
    /// End the preview; copy when `true`.
    Finish(bool),
}

/// Where a run of lines that starts at `from` ends: at the end of the page
/// in an interactive preview (pages of 50 lines), at the end of the list
/// otherwise.
pub open spec fn page_end(from: int, n: int, interactive: bool) -> int {
    if interactive && (from / 50 + 1) * 50 < n {
        (from / 50 + 1) * 50
    } else {
        n
    }
}

/// The preview's line for the entry at position `k`, numbered from 1.
pub open spec fn line_at(entries: Seq<FileEntry>, lang: Lang, k: int) -> Seq<char> {
    preview_line_text((k + 1) as nat, entries[k].rel_path@, tr_text(marker_msg(entries[k].status), lang))
}

/// What the preview shows from the line at `from` on, and what it then
/// waits for: the lines up to the end of the page; at a full page of an
/// interactive preview, the question whether to go on; at the end of the
/// list, in an interactive preview with something to copy, the question
/// whether to copy; otherwise nothing more, and no copy.
pub open spec fn run_spec(entries: Seq<FileEntry>, lang: Lang, interactive: bool, from: int) -> (
    Seq<Seq<char>>,
    PreviewWait,
) {
    let n = entries.len() as int;
    let stop = if from < n {
        page_end(from, n, interactive)
    } else {
        from
    };
    let shown = Seq::new((stop - from) as nat, |i: int| line_at(entries, lang, from + i));
    if from < n && interactive && stop % 50 == 0 {
        (shown.push("\n"@ + tr_text(Msg::PreviewNext, lang)), PreviewWait::Page(stop as usize))
    } else if interactive && ok_positions(entries).len() > 0 {
        (shown.push("\n"@ + tr_text(Msg::RunCopyPrompt, lang)), PreviewWait::Confirm)
    } else {
        (shown, PreviewWait::Done(false))
    }
}

/// Shows the preview's lines from `from` on, as `run_spec` describes.
pub fn preview_run(entries: &Vec<FileEntry>, lang: Lang, interactive: bool, from: usize) -> (r: (
    Vec<String>,
    PreviewWait,
))
    ensures
        r.0.deep_view() == run_spec(entries@, lang, interactive, from as int).0,
        r.1 == run_spec(entries@, lang, interactive, from as int).1,
{
    let n = entries.len();
    let stop = if from < n {
        if interactive && 50 - from % 50 < n - from {
            from + (50 - from % 50)
        } else {
            n
        }
    } else {
        from
    };
    assert(from < n ==> stop == page_end(from as int, n as int, interactive));
    let mut out: Vec<String> = Vec::new();
    let mut k = from;
    while k < stop
        invariant
            from <= k <= stop,
            stop <= n || stop == from,
            n == entries@.len(),
            out@.len() == k - from,
            forall|i: int|
                0 <= i < k - from ==> #[trigger] out@[i]@ == line_at(entries@, lang, from + i),
        decreases stop - k,
    {
        let marker = status_marker(entries[k].status, lang);
        out.push(preview_line(k + 1, entries[k].rel_path.as_str(), marker.as_str()));
        k += 1;
    }
    let total_ok = ok_entry_indices(entries).len();
    if from < n && interactive && stop % 50 == 0 {
        let mut q = String::from_str("\n");
        q.append(tr(Msg::PreviewNext, lang).as_str());
        out.push(q);
        assert(out.deep_view() =~= run_spec(entries@, lang, interactive, from as int).0);
        (out, PreviewWait::Page(stop))
    } else if asks_to_copy(interactive, total_ok) {
        let mut q = String::from_str("\n");
        q.append(tr(Msg::RunCopyPrompt, lang).as_str());
        out.push(q);
        assert(out.deep_view() =~= run_spec(entries@, lang, interactive, from as int).0);
        (out, PreviewWait::Confirm)
    } else {
        assert(out.deep_view() =~= run_spec(entries@, lang, interactive, from as int).0);
        (out, PreviewWait::Done(false))
    }
}

/// What the preview does with an answer: at a full page, `q` ends it without
/// copying and anything else goes on; at the question whether to copy, a
/// "yes" copies; when nothing was asked, the verdict stands.
pub open spec fn answer_spec(wait: PreviewWait, input: Seq<char>, lang: Lang) -> PreviewNext {
    match wait {
        PreviewWait::Page(k) => if eq_ascii_nocase(trimmed(input), "q"@) {
            PreviewNext::Finish(false)
        } else {
            PreviewNext::Continue(k)
        },
        PreviewWait::Confirm => PreviewNext::Finish(
            eq_ascii_nocase(trimmed(input), tr_text(Msg::Yes, lang)) || eq_ascii_nocase(
                trimmed(input),
                "y"@,
            ),
        ),
        PreviewWait::Done(b) => PreviewNext::Finish(b),
    }
}

/// Takes the answer to what the preview waits for.
pub fn preview_answer(wait: PreviewWait, input: &str, lang: Lang) -> (r: PreviewNext)
    ensures
        r == answer_spec(wait, input@, lang),
{
    match wait {
        PreviewWait::Page(k) => if is_quit_answer(input) {
            PreviewNext::Finish(false)
        } else {
            PreviewNext::Continue(k)
        },
        PreviewWait::Confirm => PreviewNext::Finish(is_confirm_answer(input, lang)),
        PreviewWait::Done(b) => PreviewNext::Finish(b),
    }
}

} // verus!
