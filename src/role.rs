use std::io::BufRead;
use stringreader::StringReader;
use vstd::prelude::*;

verus! {

/// Index of the first newline at or after `i`, or the length of `s` if
/// there is none.
pub open spec fn line_end_from(s: Seq<char>, i: nat) -> nat
    decreases s.len() - i,
{
    if i >= s.len() || s[i as int] == '\n' {
        i
    } else {
        line_end_from(s, i + 1)
    }
}

/// A line as `BufRead::lines` hands it out: a carriage return that stood
/// before the newline is dropped.
pub open spec fn strip_cr(l: Seq<char>) -> Seq<char> {
    if l.len() > 0 && l.last() == '\r' {
        l.drop_last()
    } else {
        l
    }
}

/// The lines of a text: split at each newline, the newline itself and a
/// carriage return before it removed, no empty line after a final newline.
pub open spec fn lines_of(s: Seq<char>) -> Seq<Seq<char>>
    decreases s.len(),
{
    if s.len() == 0 {
        seq![]
    } else {
        let k = line_end_from(s, 0);
        if k >= s.len() {
            seq![s]
        } else {
            seq![strip_cr(s.subrange(0, k as int))] + lines_of(s.subrange(k + 1 as int, s.len() as int))
        }
    }
}

/// The line prefix that carries a server's role in a `stat` response.
pub open spec fn mode_prefix() -> Seq<char> {
    seq!['M', 'o', 'd', 'e', ':']
}

pub open spec fn is_mode_line(l: Seq<char>) -> bool {
    l.len() >= 5 && l.subrange(0, 5) == mode_prefix()
}

/// What follows the prefix on the first mode line, if any line is one.
pub open spec fn role_in(lines: Seq<Seq<char>>) -> Option<Seq<char>>
    decreases lines.len(),
{
    if lines.len() == 0 {
        None
    } else if is_mode_line(lines[0]) {
        Some(lines[0].subrange(5, lines[0].len() as int))
    } else {
        role_in(lines.drop_first())
    }
}

/// The role reported by a `stat` response: the text after `Mode:` on its
/// first such line, or the whole response when no line carries it.
pub open spec fn role_text(rsp: Seq<char>) -> Seq<char> {
    match role_in(lines_of(rsp)) {
        Some(r) => r,
        None => rsp,
    }
}

/// Relies on `stringreader::StringReader` (a `Read` over the bytes of a
/// string) and `std::io::BufRead::lines`, which splits at `\n` and drops a
/// `\r` before it. The reader never fails and the bytes of a `str` cut at
/// `\n` are UTF-8, so the iterator yields no error and the result is `Some`.
#[verifier::external_body]
fn split_lines(s: &str) -> (r: Option<Vec<String>>)
    ensures
        r is Some,
        r matches Some(v) ==> v@.map_values(|l: String| l@) == lines_of(s@),
{
    let reader = std::io::BufReader::new(StringReader::new(s));
    reader.lines().collect::<std::io::Result<Vec<String>>>().ok()
}

fn is_mode_line_exec(l: &str) -> (b: bool)
    ensures
        b == is_mode_line(l@),
{
    if l.unicode_len() < 5 {
        return false;
    }
    let b = l.get_char(0) == 'M' && l.get_char(1) == 'o' && l.get_char(2) == 'd' && l.get_char(3)
        == 'e' && l.get_char(4) == ':';
    assert(b == (l@.subrange(0, 5) =~= mode_prefix()));
    b
}

/// Scans the lines of a response for the first mode line and returns what
/// follows its prefix, untrimmed; returns the whole response when no line
/// is a mode line.
pub fn role_from_lines(rsp: &str, lines: &Vec<String>) -> (r: String)
    ensures
        r@ == (match role_in(lines@.map_values(|l: String| l@)) {
            Some(x) => x,
            None => rsp@,
        }),
{
    let ghost all = lines@.map_values(|l: String| l@);
    let mut i: usize = 0;
    assert(all.subrange(0, all.len() as int) =~= all);
    while i < lines.len()
        invariant
            i <= lines.len(),
            all == lines@.map_values(|l: String| l@),
            role_in(all) == role_in(all.subrange(i as int, all.len() as int)),
        decreases lines.len() - i,
    {
        let ghost rest = all.subrange(i as int, all.len() as int);
        assert(rest.drop_first() =~= all.subrange(i + 1, all.len() as int));
        assert(rest[0] == lines@[i as int]@);
        if is_mode_line_exec(lines[i].as_str()) {
            let n = lines[i].unicode_len();
            let tail = lines[i].as_str().substring_char(5, n);
            return String::from_str(tail);
        }
        i = i + 1;
    }
    assert(all.subrange(i as int, all.len() as int) =~= Seq::<Seq<char>>::empty());
    String::from_str(rsp)
}

/// Post-processes a `stat` response for the role alias: the role the
/// response reports, or the whole response when it reports none.
pub fn extract_role(rsp: &str) -> (r: String)
    ensures
        r@ == role_text(rsp@),
{
    let lines = split_lines(rsp).unwrap();
    role_from_lines(rsp, &lines)
}

} // verus!
