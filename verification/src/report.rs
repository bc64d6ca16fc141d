//! How what a command wrote is laid out for the operator: wrapped to a width
//! and indented.

use crate::text::{
    chars_of, from_utf8_lossy, is_whitespace, lossy_text, string_of, text_view, white_space,
};
use vstd::prelude::*;
use vstd::string::*;
use vstd::utf8::*;

verus! {

/// The views of a vector of texts.
pub open spec fn views(texts: Seq<Vec<char>>) -> Seq<Seq<char>> {
    Seq::new(texts.len(), |i: int| texts[i]@)
}

/// The width of a text: the number of bytes of its UTF-8 form.
pub open spec fn width(text: Seq<char>) -> nat {
    encode_utf8(text).len()
}

/// The pieces of a text between its newlines, in order. A text of `n` newlines
/// has `n + 1` pieces, of which any may be empty.
pub open spec fn pieces(text: Seq<char>) -> Seq<Seq<char>>
    decreases text.len(),
{
    if text.len() == 0 {
        seq![Seq::empty()]
    } else {
        let before = pieces(text.drop_last());
        if text.last() == '\n' {
            before.push(Seq::empty())
        } else {
            before.drop_last().push(before.last().push(text.last()))
        }
    }
}

/// A text has at least one piece.
pub proof fn lemma_pieces_nonempty(text: Seq<char>)
    ensures
        pieces(text).len() >= 1,
    decreases text.len(),
{
    if text.len() > 0 {
        lemma_pieces_nonempty(text.drop_last());
    }
}

/// The width of one character.
fn char_width(c: char) -> (n: u128)
    ensures
        n == width(seq![c]),
        1 <= n <= 4,
{
    let v = c as u32;
    proof {
        let s = seq![c];
        assert(s.drop_first() =~= Seq::<char>::empty());
        assert(encode_utf8(s.drop_first()) =~= Seq::<u8>::empty());
        assert(encode_utf8(s) =~= encode_scalar(s[0] as u32));
    }
    if v <= 0x7f {
        1
    } else if v <= 0x7ff {
        2
    } else if v <= 0xffff {
        3
    } else {
        4
    }
}

/// Widths add up.
pub proof fn lemma_width_add(a: Seq<char>, b: Seq<char>)
    ensures
        width(a + b) == width(a) + width(b),
    decreases a.len(),
{
    if a.len() == 0 {
        assert(a + b =~= b);
    } else {
        lemma_width_add(a.drop_first(), b);
        assert((a + b).drop_first() =~= a.drop_first() + b);
    }
}

/// The width of a text.
fn width_of(text: &Vec<char>) -> (n: u128)
    ensures
        n == width(text@),
        n <= 4 * text@.len(),
{
    let mut n: u128 = 0;
    let mut i: usize = 0;
    while i < text.len()
        invariant
            i <= text.len(),
            n == width(text@.take(i as int)),
            n <= 4 * i,
        decreases text.len() - i,
    {
        let w = char_width(text[i]);
        proof {
            lemma_width_add(text@.take(i as int), seq![text@[i as int]]);
            assert(text@.take(i as int + 1) =~= text@.take(i as int) + seq![text@[i as int]]);
        }
        n = n + w;
        i = i + 1;
    }
    assert(text@.take(text@.len() as int) =~= text@);
    n
}

/// Splits a text at its newlines.
fn split_pieces(text: &Vec<char>) -> (r: Vec<Vec<char>>)
    ensures
        views(r@) == pieces(text@),
{
    let mut done: Vec<Vec<char>> = Vec::new();
    let mut current: Vec<char> = Vec::new();
    let mut i: usize = 0;
    while i < text.len()
        invariant
            i <= text.len(),
            views(done@).push(current@) == pieces(text@.take(i as int)),
        decreases text.len() - i,
    {
        let c = text[i];
        proof {
            let next = text@.take(i as int + 1);
            assert(next.drop_last() =~= text@.take(i as int));
            assert(next.last() == c);
            let before = pieces(text@.take(i as int));
            assert(before.drop_last() =~= views(done@));
            assert(before.last() == current@);
        }
        if c == '\n' {
            let ghost old_done = done@;
            done.push(current);
            current = Vec::new();
            assert(views(done@) =~= views(old_done).push(done@.last()@));
        } else {
            current.push(c);
        }
        i = i + 1;
    }
    assert(text@.take(text@.len() as int) =~= text@);
    let ghost old_done = done@;
    done.push(current);
    assert(views(done@) =~= views(old_done).push(done@.last()@));
    done
}

/// Whether a line holds nothing but white space.
pub open spec fn is_blank(line: Seq<char>) -> bool {
    forall|i: int| 0 <= i < line.len() ==> white_space(#[trigger] line[i])
}

/// The words of a line: its longest runs of characters that are no white
/// space, in order.
pub open spec fn words(line: Seq<char>) -> Seq<Seq<char>>
    decreases line.len(),
{
    if line.len() == 0 {
        Seq::empty()
    } else {
        let before = words(line.drop_last());
        let c = line.last();
        if white_space(c) {
            before
        } else if line.len() >= 2 && !white_space(line[line.len() - 2]) {
            before.drop_last().push(before.last().push(c))
        } else {
            before.push(seq![c])
        }
    }
}

/// Words packed greedily into lines of at most `wrap` bytes: the text of the
/// lines that are full, each with its newline, and the line that is still
/// open. A word joins the open line behind one space unless the line, the
/// space and the word together would pass `wrap`; then the open line is closed
/// and the word starts the next. A word is never broken, so a word wider than
/// `wrap` stands alone on a line that is too wide.
pub open spec fn pack(words: Seq<Seq<char>>, wrap: nat) -> (Seq<char>, Seq<char>)
    decreases words.len(),
{
    if words.len() == 0 {
        (Seq::empty(), Seq::empty())
    } else {
        let (full, open) = pack(words.drop_last(), wrap);
        let word = words.last();
        let (full, open) = if width(open) + width(word) + 1 > wrap {
            (full + open + seq!['\n'], Seq::empty())
        } else {
            (full, open)
        };
        if open.len() == 0 {
            (full, word)
        } else {
            (full, open + seq![' '] + word)
        }
    }
}

/// The line that packing leaves open holds a single word or fits in `wrap`
/// bytes: only a word that is too wide by itself makes a line too wide.
pub proof fn lemma_open_line_fits(words: Seq<Seq<char>>, wrap: nat)
    requires
        words.len() > 0,
    ensures
        pack(words, wrap).1 == words.last() || width(pack(words, wrap).1) <= wrap,
{
    let (full, open) = pack(words.drop_last(), wrap);
    let word = words.last();
    if !(width(open) + width(word) + 1 > wrap) && open.len() != 0 {
        lemma_width_add(open, seq![' ']);
        lemma_width_add(open + seq![' '], word);
        let space = seq![' '];
        assert(space.drop_first() =~= Seq::<char>::empty());
        assert(encode_utf8(space.drop_first()) =~= Seq::<u8>::empty());
        assert(encode_utf8(space) =~= encode_scalar(space[0] as u32));
    }
}

/// One line wrapped to `wrap` bytes: a lone newline for a blank line, and
/// else its words packed, every line closed by a newline.
pub open spec fn wrapped_line(line: Seq<char>, wrap: nat) -> Seq<char> {
    if is_blank(line) {
        seq!['\n']
    } else {
        pack(words(line), wrap).0 + pack(words(line), wrap).1 + seq!['\n']
    }
}

/// Lines wrapped one after the other.
pub open spec fn wrapped_lines(lines: Seq<Seq<char>>, wrap: nat) -> Seq<char>
    decreases lines.len(),
{
    if lines.len() == 0 {
        Seq::empty()
    } else {
        wrapped_lines(lines.drop_last(), wrap) + wrapped_line(lines.last(), wrap)
    }
}

/// A text wrapped to `wrap` bytes: each of its pieces between newlines,
/// wrapped.
pub open spec fn wrapped(text: Seq<char>, wrap: nat) -> Seq<char> {
    wrapped_lines(pieces(text), wrap)
}

/// Whether a line holds nothing but white space.
fn blank(line: &Vec<char>) -> (r: bool)
    ensures
        r == is_blank(line@),
{
    let mut i: usize = 0;
    while i < line.len()
        invariant
            i <= line.len(),
            forall|j: int| 0 <= j < i ==> white_space(#[trigger] line@[j]),
        decreases line.len() - i,
    {
        if !is_whitespace(line[i]) {
            return false;
        }
        i = i + 1;
    }
    true
}

/// A line that ends in a character that is no white space ends in a word.
proof fn lemma_words_open(line: Seq<char>)
    requires
        line.len() > 0,
        !white_space(line.last()),
    ensures
        words(line).len() > 0,
        words(line).last().len() > 0,
    decreases line.len(),
{
    if line.len() >= 2 && !white_space(line[line.len() - 2]) {
        assert(line.drop_last().last() == line[line.len() - 2]);
        lemma_words_open(line.drop_last());
    }
}

/// The words of a line.
fn split_words(line: &Vec<char>) -> (r: Vec<Vec<char>>)
    ensures
        views(r@) == words(line@),
{
    let mut done: Vec<Vec<char>> = Vec::new();
    let mut current: Vec<char> = Vec::new();
    let mut in_word = false;
    let mut i: usize = 0;
    while i < line.len()
        invariant
            i <= line.len(),
            in_word <==> i > 0 && !white_space(line@[i - 1]),
            in_word ==> views(done@).push(current@) == words(line@.take(i as int)),
            !in_word ==> views(done@) == words(line@.take(i as int)) && current@.len() == 0,
        decreases line.len() - i,
    {
        let c = line[i];
        proof {
            let next = line@.take(i as int + 1);
            assert(next.drop_last() =~= line@.take(i as int));
            assert(next.last() == c);
            if i > 0 {
                assert(next[next.len() - 2] == line@[i - 1]);
            }
            if in_word {
                let before = words(line@.take(i as int));
                assert(before.drop_last() =~= views(done@));
                assert(before.last() == current@);
            }
        }
        if is_whitespace(c) {
            if in_word {
                let ghost old_done = done@;
                done.push(current);
                current = Vec::new();
                assert(views(done@) =~= views(old_done).push(done@.last()@));
            }
            in_word = false;
        } else {
            current.push(c);
            proof {
                if !in_word {
                    assert(current@ =~= seq![c]);
                }
            }
            in_word = true;
        }
        i = i + 1;
    }
    assert(line@.take(line@.len() as int) =~= line@);
    if in_word {
        let ghost old_done = done@;
        done.push(current);
        assert(views(done@) =~= views(old_done).push(done@.last()@));
    }
    done
}

/// Wraps one line to `wrap` bytes and writes it behind `out`.
fn wrap_line(line: &Vec<char>, wrap: usize, out: &mut Vec<char>)
    ensures
        final(out)@ == old(out)@ + wrapped_line(line@, wrap as nat),
{
    if blank(line) {
        out.push('\n');
        assert(out@ =~= old(out)@ + seq!['\n']);
        return ;
    }
    let words = split_words(line);
    let mut open: Vec<char> = Vec::new();
    let mut open_width: u128 = 0;
    let mut k: usize = 0;
    while k < words.len()
        invariant
            k <= words.len(),
            views(words@) == crate::report::words(line@),
            out@ == old(out)@ + pack(views(words@).take(k as int), wrap as nat).0,
            open@ == pack(views(words@).take(k as int), wrap as nat).1,
            open_width == width(open@),
            open_width <= 4 * open@.len(),
        decreases words.len() - k,
    {
        let word = &words[k];
        let word_width = width_of(word);
        proof {
            let taken = views(words@).take(k as int + 1);
            assert(taken.drop_last() =~= views(words@).take(k as int));
            assert(taken.last() == word@);
        }
        let ghost before = pack(views(words@).take(k as int), wrap as nat);
        let open_len = open.len();
        let word_len = word.len();
        assert(open_width + word_width + 1 <= 4 * open_len + 4 * word_len + 1);
        if open_width + word_width + 1 > wrap as u128 {
            let ghost out_before = out@;
            out.append(&mut open);
            out.push('\n');
            open_width = 0;
            assert(out@ =~= old(out)@ + (before.0 + before.1 + seq!['\n']));
            assert(open@ =~= Seq::<char>::empty());
            assert(encode_utf8(Seq::<char>::empty()) =~= Seq::<u8>::empty());
        }
        if open.len() != 0 {
            let ghost open_before = open@;
            open.push(' ');
            proof {
                lemma_width_add(open_before, seq![' ']);
                assert(open@ =~= open_before + seq![' ']);
            }
            let space = char_width(' ');
            open_width = open_width + space;
        }
        let ghost open_before = open@;
        open.extend_from_slice(word.as_slice());
        proof {
            lemma_width_add(open_before, word@);
            assert(open@ =~= open_before + word@);
        }
        open_width = open_width + word_width;
        k = k + 1;
    }
    assert(views(words@).take(words@.len() as int) =~= views(words@));
    let ghost packed = pack(crate::report::words(line@), wrap as nat);
    out.append(&mut open);
    out.push('\n');
    assert(out@ =~= old(out)@ + (packed.0 + packed.1 + seq!['\n']));
}

/// Wraps a text to `wrap` bytes a line.
pub fn wrap_text_to_len(text: &str, wrap: usize) -> (r: String)
    ensures
        r@ == wrapped(text@, wrap as nat),
{
    let chars = chars_of(text);
    let out = wrap_chars(&chars, wrap);
    string_of(&out)
}

/// Wraps a text to `wrap` bytes a line.
fn wrap_chars(text: &Vec<char>, wrap: usize) -> (out: Vec<char>)
    ensures
        out@ == wrapped(text@, wrap as nat),
{
    let lines = split_pieces(text);
    let mut out: Vec<char> = Vec::new();
    let mut k: usize = 0;
    while k < lines.len()
        invariant
            k <= lines.len(),
            views(lines@) == pieces(text@),
            out@ == wrapped_lines(views(lines@).take(k as int), wrap as nat),
        decreases lines.len() - k,
    {
        proof {
            let taken = views(lines@).take(k as int + 1);
            assert(taken.drop_last() =~= views(lines@).take(k as int));
            assert(taken.last() == lines@[k as int]@);
        }
        wrap_line(&lines[k], wrap, &mut out);
        k = k + 1;
    }
    assert(views(lines@).take(lines@.len() as int) =~= views(lines@));
    out
}

/// A line without the carriage return that may end it.
pub open spec fn without_return(line: Seq<char>) -> Seq<char> {
    if line.len() > 0 && line.last() == '\r' {
        line.drop_last()
    } else {
        line
    }
}

/// The lines of a text: its pieces between newlines, each without the
/// carriage return that may stand before its newline. A last piece that is
/// empty is no line, so a text that ends in a newline has the lines of the
/// text without it, and the empty text has none.
pub open spec fn lines(text: Seq<char>) -> Seq<Seq<char>> {
    let all = pieces(text);
    let count = if all.last().len() == 0 {
        all.len() - 1
    } else {
        all.len() as int
    };
    Seq::new(
        count as nat,
        |i: int|
            if i < all.len() - 1 {
                without_return(all[i])
            } else {
                all[i]
            },
    )
}

/// A run of `n` spaces.
pub open spec fn spaces(n: nat) -> Seq<char> {
    Seq::new(n, |i: int| ' ')
}

/// Lines behind `n` spaces each, with a newline between one and the next and
/// none at the end.
pub open spec fn indented_lines(lines: Seq<Seq<char>>, n: nat) -> Seq<char>
    decreases lines.len(),
{
    if lines.len() == 0 {
        Seq::empty()
    } else if lines.len() == 1 {
        spaces(n) + lines[0]
    } else {
        indented_lines(lines.drop_last(), n) + seq!['\n'] + spaces(n) + lines.last()
    }
}

/// A text with each of its lines behind `n` spaces.
pub open spec fn indented(text: Seq<char>, n: nat) -> Seq<char> {
    indented_lines(lines(text), n)
}

/// Writes `n` spaces and the first `keep` characters of `line` behind `out`.
fn push_indented(out: &mut Vec<char>, n: usize, line: &Vec<char>, keep: usize)
    requires
        keep <= line@.len(),
    ensures
        final(out)@ == old(out)@ + spaces(n as nat) + line@.take(keep as int),
{
    let mut i: usize = 0;
    while i < n
        invariant
            i <= n,
            out@ == old(out)@ + spaces(i as nat),
        decreases n - i,
    {
        out.push(' ');
        i = i + 1;
        assert(out@ =~= old(out)@ + spaces(i as nat));
    }
    let mut j: usize = 0;
    while j < keep
        invariant
            j <= keep <= line@.len(),
            out@ == old(out)@ + spaces(n as nat) + line@.take(j as int),
        decreases keep - j,
    {
        out.push(line[j]);
        j = j + 1;
        assert(out@ =~= old(out)@ + spaces(n as nat) + line@.take(j as int));
    }
}

/// Puts each line of a text behind `n` spaces.
fn indent_chars(text: &Vec<char>, n: usize) -> (out: Vec<char>)
    ensures
        out@ == indented(text@, n as nat),
{
    let all = split_pieces(text);
    proof {
        lemma_pieces_nonempty(text@);
    }
    let last = all.len() - 1;
    assert(views(all@).last() == all@[last as int]@);
    let count = if all[last].len() == 0 {
        last
    } else {
        all.len()
    };
    let mut out: Vec<char> = Vec::new();
    let mut k: usize = 0;
    while k < count
        invariant
            k <= count <= all.len(),
            last == all.len() - 1,
            views(all@) == pieces(text@),
            count == lines(text@).len(),
            out@ == indented_lines(lines(text@).take(k as int), n as nat),
        decreases count - k,
    {
        let piece = &all[k];
        let keep = if k < last && piece.len() > 0 && piece[piece.len() - 1] == '\r' {
            piece.len() - 1
        } else {
            piece.len()
        };
        proof {
            let taken = lines(text@).take(k as int + 1);
            assert(taken.drop_last() =~= lines(text@).take(k as int));
            assert(views(all@)[k as int] == piece@);
            assert(taken.last() =~= piece@.take(keep as int));
        }
        if k > 0 {
            out.push('\n');
        }
        let ghost before = out@;
        push_indented(&mut out, n, piece, keep);
        proof {
            let taken = lines(text@).take(k as int + 1);
            if k == 0 {
                assert(taken.len() == 1);
                assert(out@ =~= spaces(n as nat) + taken[0]);
            } else {
                assert(out@ =~= indented_lines(taken.drop_last(), n as nat) + seq!['\n'] + spaces(
                    n as nat,
                ) + taken.last());
            }
        }
        k = k + 1;
    }
    assert(lines(text@).take(count as int) =~= lines(text@));
    out
}

/// Puts each line of a text behind `indentation` spaces.
pub fn indent(text: &str, indentation: usize) -> (r: String)
    ensures
        r@ == indented(text@, indentation as nat),
{
    let chars = chars_of(text);
    let out = indent_chars(&chars, indentation);
    string_of(&out)
}

/// A text as the operator sees it: wrapped to `wrap` bytes a line, then each
/// line behind `indentation` spaces.
pub open spec fn laid_out(text: Seq<char>, indentation: nat, wrap: nat) -> Seq<char> {
    indented(wrapped(text, wrap), indentation)
}

/// Lays out a text: wraps it to `wrap` bytes a line and puts each line behind
/// `indentation` spaces.
pub fn lay_out(text: &str, indentation: usize, wrap: usize) -> (r: String)
    ensures
        r@ == laid_out(text@, indentation as nat, wrap as nat),
{
    let chars = chars_of(text);
    let folded = wrap_chars(&chars, wrap);
    let out = indent_chars(&folded, indentation);
    string_of(&out)
}

/// The status of a command and what it wrote to its two streams, each laid
/// out. What is no UTF-8 in a stream is replaced before.
pub fn get_indented_output(
    status: &str,
    stdout: &[u8],
    stderr: &[u8],
    indentation: usize,
    wrap: usize,
) -> (r: (String, String, String))
    ensures
        r.0@ == laid_out(status@, indentation as nat, wrap as nat),
        r.1@ == laid_out(lossy_text(stdout@), indentation as nat, wrap as nat),
        r.2@ == laid_out(lossy_text(stderr@), indentation as nat, wrap as nat),
{
    let stdout = from_utf8_lossy(stdout);
    let stderr = from_utf8_lossy(stderr);
    (
        lay_out(status, indentation, wrap),
        lay_out(stdout.as_str(), indentation, wrap),
        lay_out(stderr.as_str(), indentation, wrap),
    )
}

/// Whether `shown` is `text` as a terminal is asked to show it in bold, or
/// `text` itself, as it is shown where colours are switched off.
pub open spec fn is_emphasis_of(shown: Seq<char>, text: Seq<char>) -> bool {
    shown == text || shown == "\x1b[1m"@ + text + "\x1b[0m"@
}

/// `console::style(..).bold()`, written out. Trusted: the result is the text
/// between the codes that switch bold on and all styles off, or, where the
/// process has colours switched off, the text alone.
#[verifier::external_body]
fn bold(text: &str) -> (r: String)
    ensures
        is_emphasis_of(r@, text@),
{
    console::style(text).bold().to_string()
}

/// One stream of a report: its header and what was written, a line each; or
/// nothing where the stream is not shown.
pub open spec fn section(header: Seq<char>, body: Option<Seq<char>>) -> Seq<char> {
    match body {
        Some(body) => header + seq!['\n'] + body + seq!['\n'],
        None => Seq::empty(),
    }
}

/// The report of a command under given headers: the status under its header,
/// then the two streams, with an empty line between them.
pub open spec fn report_text(
    headers: (Seq<char>, Seq<char>, Seq<char>),
    status: Seq<char>,
    stdout: Option<Seq<char>>,
    stderr: Option<Seq<char>>,
) -> Seq<char> {
    headers.0 + seq!['\n'] + status + seq!['\n'] + section(headers.1, stdout) + seq!['\n']
        + section(headers.2, stderr)
}

/// Writes one stream of a report behind `out`.
fn push_section(out: &mut String, header: &str, body: &Option<String>)
    ensures
        final(out)@ == old(out)@ + section(header@, text_view(*body)),
{
    match body {
        Some(body) => {
            out.append(header);
            out.append("\n");
            out.append(body.as_str());
            out.append("\n");
            proof {
                reveal_strlit("\n");
                assert("\n"@ =~= seq!['\n']);
                assert(out@ =~= old(out)@ + (header@ + seq!['\n'] + body@ + seq!['\n']));
            }
        },
        None => {
            assert(out@ =~= old(out)@ + Seq::<char>::empty());
        },
    }
}

/// The report of a command under the three headers given: for the status, for
/// the output stream and for the error stream.
pub fn report_under(
    headers: (&str, &str, &str),
    status: &str,
    stdout: &Option<String>,
    stderr: &Option<String>,
) -> (r: String)
    ensures
        r@ == report_text(
            (headers.0@, headers.1@, headers.2@),
            status@,
            text_view(*stdout),
            text_view(*stderr),
        ),
{
    let mut out = String::from_str(headers.0);
    out.append("\n");
    out.append(status);
    out.append("\n");
    push_section(&mut out, headers.1, stdout);
    out.append("\n");
    push_section(&mut out, headers.2, stderr);
    proof {
        reveal_strlit("\n");
        assert("\n"@ =~= seq!['\n']);
        assert(out@ =~= report_text(
            (headers.0@, headers.1@, headers.2@),
            status@,
            text_view(*stdout),
            text_view(*stderr),
        ));
    }
    out
}

/// Whether `text` is the report of a command under the usual three headers,
/// each shown in bold or plain.
pub open spec fn is_report(
    text: Seq<char>,
    status: Seq<char>,
    stdout: Option<Seq<char>>,
    stderr: Option<Seq<char>>,
) -> bool {
    exists|headers: (Seq<char>, Seq<char>, Seq<char>)|
        {
            &&& is_emphasis_of(headers.0, "  Status:"@)
            &&& is_emphasis_of(headers.1, "  Stdout:"@)
            &&& is_emphasis_of(headers.2, "  Stderr:"@)
            &&& text == #[trigger] report_text(headers, status, stdout, stderr)
        }
}

/// The report of a command: its status and what it wrote to its streams,
/// under headers that stand out where the terminal lets them.
pub fn log_output_int(status: String, stdout: Option<String>, stderr: Option<String>) -> (r: String)
    ensures
        is_report(r@, status@, text_view(stdout), text_view(stderr)),
{
    let status_header = bold("  Status:");
    let stdout_header = bold("  Stdout:");
    let stderr_header = bold("  Stderr:");
    let r = report_under(
        (status_header.as_str(), stdout_header.as_str(), stderr_header.as_str()),
        status.as_str(),
        &stdout,
        &stderr,
    );
    assert(r@ == report_text(
        (status_header@, stdout_header@, stderr_header@),
        status@,
        text_view(stdout),
        text_view(stderr),
    ));
    r
}

/// The report of a command that has run, as it is logged: its status and its
/// two streams, wrapped to 120 bytes a line behind four spaces.
pub fn log_output(status: &str, stdout: &[u8], stderr: &[u8]) -> (r: String)
    ensures
        is_report(
            r@,
            laid_out(status@, 4, 120),
            Some(laid_out(lossy_text(stdout@), 4, 120)),
            Some(laid_out(lossy_text(stderr@), 4, 120)),
        ),
{
    let (status, stdout, stderr) = get_indented_output(status, stdout, stderr, 4, 120);
    log_output_int(status, Some(stdout), Some(stderr))
}

} // verus!
