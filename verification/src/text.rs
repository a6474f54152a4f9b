//! Character-level text building: decimal rendering, UTF-8 widths, trimming,
//! line splitting and indented bodies, each specified over `Seq<char>`.

use vstd::prelude::*;

verus! {

broadcast use vstd::string::group_string_axioms;

/// Appends one character to a string (`String::push`).
#[verifier::external_body]
pub(crate) fn push_char(s: &mut String, c: char)
    ensures
        final(s)@ == old(s)@.push(c),
{
    s.push(c);
}

/// The characters of a string slice, in order.
pub fn chars_of(s: &str) -> (v: Vec<char>)
    ensures
        v@ == s@,
{
    let mut v: Vec<char> = Vec::new();
    for c in it: s.chars()
        invariant
            v@ == it.seq().take(it.index() as int),
            it.seq() == s@,
    {
        v.push(c);
    }
    v
}

/// Appends a run of characters to a string.
pub fn push_chars(s: &mut String, cs: &Vec<char>, from: usize, to: usize)
    requires
        from <= to <= cs@.len(),
    ensures
        final(s)@ == old(s)@ + cs@.subrange(from as int, to as int),
{
    let mut i = from;
    while i < to
        invariant
            from <= i <= to <= cs@.len(),
            s@ == old(s)@ + cs@.subrange(from as int, i as int),
        decreases to - i,
    {
        push_char(s, cs[i]);
        assert(cs@.subrange(from as int, i + 1) == cs@.subrange(from as int, i as int).push(cs@[i as int]));
        i += 1;
    }
}

/// The ASCII character for a decimal digit.
pub open spec fn digit_char(d: nat) -> char {
    (48 + d) as char
}

/// Decimal rendering of a natural number, without leading zeros.
pub open spec fn decimal(n: nat) -> Seq<char>
    decreases n,
{
    if n < 10 {
        seq![digit_char(n)]
    } else {
        decimal(n / 10).push(digit_char(n % 10))
    }
}

/// Decimal rendering padded with zeros to at least two characters (`{:02}`).
pub open spec fn two_digits(n: nat) -> Seq<char> {
    if n < 10 {
        seq!['0', digit_char(n)]
    } else {
        decimal(n)
    }
}

fn digit(d: u64) -> (c: char)
    requires
        d < 10,
    ensures
        c == digit_char(d as nat),
{
    let b: u8 = 48 + d as u8;
    b as char
}

/// Appends the decimal rendering of `n`.
pub fn push_decimal(s: &mut String, n: u64)
    ensures
        final(s)@ == old(s)@ + decimal(n as nat),
    decreases n,
{
    if n >= 10 {
        push_decimal(s, n / 10);
    }
    push_char(s, digit(n % 10));
}

/// Appends `n` zero-padded to two digits.
pub fn push_two_digits(s: &mut String, n: u64)
    ensures
        final(s)@ == old(s)@ + two_digits(n as nat),
{
    if n < 10 {
        push_char(s, '0');
        push_char(s, digit(n));
        assert(s@ == old(s)@ + two_digits(n as nat));
    } else {
        push_decimal(s, n);
    }
}

/// `HH:MM:SS` for a number of whole seconds; hours are not capped.
pub open spec fn clock_text(secs: nat) -> Seq<char> {
    two_digits(secs / 3600) + seq![':'] + two_digits((secs % 3600) / 60) + seq![':']
        + two_digits(secs % 60)
}

/// `MM:SS` for a number of whole seconds; minutes are not capped.
pub open spec fn minutes_text(secs: nat) -> Seq<char> {
    two_digits(secs / 60) + seq![':'] + two_digits(secs % 60)
}

/// Renders an elapsed time of `secs` whole seconds as `HH:MM:SS`.
pub fn format_elapsed(secs: u64) -> (r: String)
    ensures
        r@ == clock_text(secs as nat),
{
    let mut r = String::new();
    push_two_digits(&mut r, secs / 3600);
    push_char(&mut r, ':');
    push_two_digits(&mut r, (secs % 3600) / 60);
    push_char(&mut r, ':');
    push_two_digits(&mut r, secs % 60);
    r
}

/// Renders an elapsed time of `secs` whole seconds as `MM:SS`.
pub fn format_mmss(secs: u64) -> (r: String)
    ensures
        r@ == minutes_text(secs as nat),
{
    let mut r = String::new();
    push_two_digits(&mut r, secs / 60);
    push_char(&mut r, ':');
    push_two_digits(&mut r, secs % 60);
    r
}

/// Number of bytes in the UTF-8 encoding of one character.
pub open spec fn utf8_width(c: char) -> nat {
    if (c as u32) < 0x80 {
        1
    } else if (c as u32) < 0x800 {
        2
    } else if (c as u32) < 0x10000 {
        3
    } else {
        4
    }
}

/// Number of bytes in the UTF-8 encoding of a character sequence.
pub open spec fn byte_len(s: Seq<char>) -> nat
    decreases s.len(),
{
    if s.len() == 0 {
        0
    } else {
        byte_len(s.drop_last()) + utf8_width(s.last())
    }
}

/// The UTF-8 byte length agrees with vstd's encoding of the sequence.
pub proof fn lemma_byte_len_is_encoding_len(s: Seq<char>)
    ensures
        byte_len(s) == vstd::utf8::encode_utf8(s).len(),
    decreases s.len(),
{
    if s.len() > 0 {
        lemma_byte_len_is_encoding_len(s.drop_last());
        lemma_encode_push(s.drop_last(), s.last());
        assert(s.drop_last().push(s.last()) == s);
        let c = s.last();
        assert(vstd::utf8::is_scalar(c as u32)) by {
            vstd::utf8::char_is_scalar(c);
        }
    }
}

proof fn lemma_encode_push(s: Seq<char>, c: char)
    ensures
        vstd::utf8::encode_utf8(s.push(c)) == vstd::utf8::encode_utf8(s)
            + vstd::utf8::encode_scalar(c as u32),
    decreases s.len(),
{
    let e = vstd::utf8::encode_scalar(c as u32);
    if s.len() == 0 {
        assert(s.push(c).drop_first() == Seq::<char>::empty());
        assert(vstd::utf8::encode_utf8(Seq::<char>::empty()) == Seq::<u8>::empty());
        assert(vstd::utf8::encode_utf8(s.push(c)) == e + Seq::<u8>::empty());
        assert(e + Seq::<u8>::empty() == e);
        assert(Seq::<u8>::empty() + e == e);
    } else {
        lemma_encode_push(s.drop_first(), c);
        assert(s.push(c).drop_first() == s.drop_first().push(c));
        let h = vstd::utf8::encode_scalar(s[0] as u32);
        let t = vstd::utf8::encode_utf8(s.drop_first());
        assert(vstd::utf8::encode_utf8(s.push(c)) == h + (t + e));
        assert(h + (t + e) == (h + t) + e);
    }
}

/// The default label for a command: the command itself, or its first 30
/// characters followed by `...` when it is longer than 30 characters.
pub open spec fn default_label(command: Seq<char>) -> Seq<char> {
    if command.len() > 30 {
        command.take(30) + seq!['.', '.', '.']
    } else {
        command
    }
}

/// The label shown for a command: the custom message when one is set,
/// otherwise `default_label` of the command.
pub open spec fn display_label(message: Option<Seq<char>>, command: Seq<char>) -> Seq<char> {
    match message {
        Some(m) => m,
        None => default_label(command),
    }
}

/// Computes the label shown for a command.
pub fn derive_display_message(message: &Option<String>, command: &str) -> (r: String)
    ensures
        r@ == display_label(
            match message {
                Some(m) => Some(m@),
                None => None,
            },
            command@,
        ),
{
    match message {
        Some(m) => m.clone(),
        None => {
            let cs = chars_of(command);
            if cs.len() > 30 {
                let mut r = String::new();
                push_chars(&mut r, &cs, 0, 30);
                r.append("...");
                proof {
                    reveal_strlit("...");
                    assert(cs@.subrange(0, 30) == cs@.take(30));
                }
                r
            } else {
                command.to_owned()
            }
        }
    }
}

/// `s` shortened to at most `max` characters, ending in `…` when cut.
pub open spec fn truncated(s: Seq<char>, max: nat) -> Seq<char> {
    if max == 0 {
        seq![]
    } else if s.len() <= max {
        s
    } else if max <= 1 {
        s.take(max as int)
    } else {
        s.take(max - 1).push('…')
    }
}

/// Shortens a label to at most `max` characters.
pub fn truncate_label(s: &str, max: usize) -> (r: String)
    ensures
        r@ == truncated(s@, max as nat),
{
    if max == 0 {
        return String::new();
    }
    let cs = chars_of(s);
    if cs.len() <= max {
        return s.to_owned();
    }
    let mut r = String::new();
    if max <= 1 {
        push_chars(&mut r, &cs, 0, max);
        assert(cs@.subrange(0, max as int) == cs@.take(max as int));
        return r;
    }
    push_chars(&mut r, &cs, 0, max - 1);
    push_char(&mut r, '…');
    assert(cs@.subrange(0, max - 1) == cs@.take(max - 1));
    r
}

/// Unicode `White_Space`, as `char::is_whitespace` decides it.
pub open spec fn is_whitespace(c: char) -> bool {
    let u = c as u32;
    ||| u == 0x20
    ||| 0x09 <= u <= 0x0d
    ||| u == 0x85
    ||| u == 0xa0
    ||| u == 0x1680
    ||| 0x2000 <= u <= 0x200a
    ||| u == 0x2028
    ||| u == 0x2029
    ||| u == 0x202f
    ||| u == 0x205f
    ||| u == 0x3000
}

/// Whether a character is Unicode whitespace.
pub fn char_is_whitespace(c: char) -> (b: bool)
    ensures
        b == is_whitespace(c),
{
    let u = c as u32;
    u == 0x20 || (0x09 <= u && u <= 0x0d) || u == 0x85 || u == 0xa0 || u == 0x1680 || (0x2000
        <= u && u <= 0x200a) || u == 0x2028 || u == 0x2029 || u == 0x202f || u == 0x205f || u
        == 0x3000
}

/// `s` without leading whitespace.
pub open spec fn trim_start(s: Seq<char>) -> Seq<char>
    decreases s.len(),
{
    if s.len() > 0 && is_whitespace(s[0]) {
        trim_start(s.drop_first())
    } else {
        s
    }
}

/// `s` without trailing whitespace.
pub open spec fn trim_end(s: Seq<char>) -> Seq<char>
    decreases s.len(),
{
    if s.len() > 0 && is_whitespace(s.last()) {
        trim_end(s.drop_last())
    } else {
        s
    }
}

/// `s` without leading or trailing whitespace (`str::trim`).
pub open spec fn trim(s: Seq<char>) -> Seq<char> {
    trim_end(trim_start(s))
}

/// Index of the first `\n` in `s`, or -1 when there is none.
pub open spec fn newline_index(s: Seq<char>) -> int
    decreases s.len(),
{
    if s.len() == 0 {
        -1
    } else if s[0] == '\n' {
        0
    } else {
        let j = newline_index(s.drop_first());
        if j < 0 {
            -1
        } else {
            j + 1
        }
    }
}

/// A line without the `\r` of a `\r\n` ending.
pub open spec fn strip_cr(l: Seq<char>) -> Seq<char> {
    if l.len() > 0 && l.last() == '\r' {
        l.drop_last()
    } else {
        l
    }
}

/// The lines of `s` as `str::lines` yields them: split at `\n`, a `\r`
/// before the `\n` dropped, and no empty line after a final `\n`.
pub open spec fn lines(s: Seq<char>) -> Seq<Seq<char>>
    decreases s.len(),
{
    if s.len() == 0 {
        seq![]
    } else {
        let i = newline_index(s);
        if i < 0 || i >= s.len() {
            seq![s]
        } else {
            seq![strip_cr(s.take(i))] + lines(s.skip(i + 1))
        }
    }
}

/// Each line preceded by `prefix` and followed by `\n`.
pub open spec fn indent_lines(prefix: Seq<char>, ls: Seq<Seq<char>>) -> Seq<char>
    decreases ls.len(),
{
    if ls.len() == 0 {
        seq![]
    } else {
        prefix + ls[0] + seq!['\n'] + indent_lines(prefix, ls.drop_first())
    }
}

/// The body printed under a status line: the lines of the trimmed output,
/// each indented by `prefix`; empty when the output is all whitespace.
pub open spec fn body_text(prefix: Seq<char>, output: Seq<char>) -> Seq<char> {
    indent_lines(prefix, lines(trim(output)))
}

proof fn lemma_trim_start_skip(s: Seq<char>, k: int)
    requires
        0 <= k <= s.len(),
        forall|i: int| 0 <= i < k ==> is_whitespace(#[trigger] s[i]),
        k == s.len() || !is_whitespace(s[k]),
    ensures
        trim_start(s) == s.skip(k),
    decreases k,
{
    if k == 0 {
        assert(s.skip(0) == s);
    } else {
        assert forall|i: int| 0 <= i < k - 1 implies is_whitespace(#[trigger] s.drop_first()[i]) by {
            assert(s.drop_first()[i] == s[i + 1]);
        }
        lemma_trim_start_skip(s.drop_first(), k - 1);
        assert(s.drop_first().skip(k - 1) == s.skip(k));
    }
}

proof fn lemma_trim_end_take(s: Seq<char>, h: int)
    requires
        0 <= h <= s.len(),
        forall|i: int| h <= i < s.len() ==> is_whitespace(#[trigger] s[i]),
        h == 0 || !is_whitespace(s[h - 1]),
    ensures
        trim_end(s) == s.take(h),
    decreases s.len() - h,
{
    if h == s.len() {
        assert(s.take(h) == s);
    } else {
        assert forall|i: int| h <= i < s.drop_last().len() implies is_whitespace(
            #[trigger] s.drop_last()[i],
        ) by {
            assert(s.drop_last()[i] == s[i]);
        }
        lemma_trim_end_take(s.drop_last(), h);
        assert(s.drop_last().take(h) == s.take(h));
    }
}

proof fn lemma_newline_index(r: Seq<char>, k: int)
    requires
        0 <= k <= r.len(),
        forall|m: int| 0 <= m < k ==> #[trigger] r[m] != '\n',
        k == r.len() || r[k] == '\n',
    ensures
        newline_index(r) == (if k < r.len() {
            k
        } else {
            -1
        }),
    decreases k,
{
    if r.len() == 0 {
    } else if k == 0 {
    } else {
        assert forall|m: int| 0 <= m < k - 1 implies #[trigger] r.drop_first()[m] != '\n' by {
            assert(r.drop_first()[m] == r[m + 1]);
        }
        lemma_newline_index(r.drop_first(), k - 1);
    }
}

/// Appends the indented body of `stdout` followed by `stderr`.
pub fn push_body(s: &mut String, prefix: &str, stdout: &str, stderr: &str)
    ensures
        final(s)@ == old(s)@ + body_text(prefix@, stdout@ + stderr@),
{
    let mut cs = chars_of(stdout);
    let es = chars_of(stderr);
    let mut k: usize = 0;
    while k < es.len()
        invariant
            k <= es@.len(),
            cs@ == stdout@ + es@.take(k as int),
            es@ == stderr@,
        decreases es@.len() - k,
    {
        cs.push(es[k]);
        assert(es@.take(k + 1) == es@.take(k as int).push(es@[k as int]));
        k += 1;
    }
    assert(es@.take(k as int) == es@);
    let ghost all = cs@;
    let n = cs.len();
    let mut lo: usize = 0;
    while lo < n && char_is_whitespace(cs[lo])
        invariant
            lo <= n == cs@.len(),
            forall|i: int| 0 <= i < lo ==> is_whitespace(#[trigger] cs@[i]),
        decreases n - lo,
    {
        lo += 1;
    }
    let mut hi: usize = n;
    while hi > lo && char_is_whitespace(cs[hi - 1])
        invariant
            lo <= hi <= n == cs@.len(),
            forall|i: int| hi <= i < n ==> is_whitespace(#[trigger] cs@[i]),
        decreases hi,
    {
        hi -= 1;
    }
    let ghost t = all.subrange(lo as int, hi as int);
    proof {
        lemma_trim_start_skip(all, lo as int);
        let sk = all.skip(lo as int);
        assert forall|i: int| hi - lo <= i < sk.len() implies is_whitespace(#[trigger] sk[i]) by {
            assert(sk[i] == all[i + lo]);
        }
        if hi > lo {
            assert(sk[hi - lo - 1] == all[hi - 1]);
        }
        lemma_trim_end_take(sk, hi - lo);
        assert(sk.take(hi - lo) == t);
    }
    let ghost base = s@;
    let mut pos: usize = lo;
    while pos < hi
        invariant
            lo <= pos <= hi <= n == cs@.len(),
            cs@ == all,
            t == all.subrange(lo as int, hi as int),
            base + indent_lines(prefix@, lines(t)) == s@ + indent_lines(
                prefix@,
                lines(all.subrange(pos as int, hi as int)),
            ),
        decreases hi - pos,
    {
        let ghost r = all.subrange(pos as int, hi as int);
        let ghost before = s@;
        let mut j: usize = pos;
        while j < hi && cs[j] != '\n'
            invariant
                pos <= j <= hi <= n == cs@.len(),
                forall|m: int| pos <= m < j ==> #[trigger] cs@[m] != '\n',
            decreases hi - j,
        {
            j += 1;
        }
        proof {
            assert forall|m: int| 0 <= m < j - pos implies #[trigger] r[m] != '\n' by {
                assert(r[m] == cs@[m + pos]);
            }
            lemma_newline_index(r, j - pos);
        }
        s.append(prefix);
        if j < hi {
            let e = if j > pos && cs[j - 1] == '\r' {
                j - 1
            } else {
                j
            };
            push_chars(s, &cs, pos, e);
            push_char(s, '\n');
            proof {
                let line = r.take(j - pos);
                assert(line == all.subrange(pos as int, j as int));
                if j > pos && cs@[j - 1] == '\r' {
                    assert(strip_cr(line) == all.subrange(pos as int, e as int));
                } else {
                    assert(strip_cr(line) == all.subrange(pos as int, e as int));
                }
                assert(r.skip(j - pos + 1) == all.subrange(j + 1, hi as int));
                let ls = lines(r);
                assert(ls == seq![strip_cr(line)] + lines(all.subrange(j + 1, hi as int)));
                assert(ls[0] == strip_cr(line));
                assert(ls.drop_first() == lines(all.subrange(j + 1, hi as int)));
                let rest = indent_lines(prefix@, lines(all.subrange(j + 1, hi as int)));
                assert(indent_lines(prefix@, ls) == prefix@ + strip_cr(line) + seq!['\n'] + rest);
                assert(s@ == before + prefix@ + strip_cr(line) + seq!['\n']);
                assert(before + (prefix@ + strip_cr(line) + seq!['\n'] + rest) == s@ + rest);
            }
            pos = j + 1;
        } else {
            push_chars(s, &cs, pos, hi);
            push_char(s, '\n');
            proof {
                let ls = lines(r);
                assert(ls == seq![r]);
                assert(ls.drop_first() == Seq::<Seq<char>>::empty());
                assert(indent_lines(prefix@, ls.drop_first()) == Seq::<char>::empty());
                assert(all.subrange(hi as int, hi as int) == Seq::<char>::empty());
                assert(lines(all.subrange(hi as int, hi as int)) == Seq::<Seq<char>>::empty());
                assert(indent_lines(prefix@, ls) == prefix@ + r + seq!['\n'] + Seq::<char>::empty());
                assert(s@ == before + prefix@ + r + seq!['\n']);
                assert(before + (prefix@ + r + seq!['\n'] + Seq::<char>::empty()) == s@ + Seq::<
                    char,
                >::empty());
            }
            pos = hi;
        }
    }
    proof {
        assert(all.subrange(hi as int, hi as int) == Seq::<char>::empty());
        assert(lines(Seq::<char>::empty()) == Seq::<Seq<char>>::empty());
    }
}

/// What `String::from_utf8_lossy` makes of a byte sequence that is not
/// valid UTF-8 (invalid parts replaced by U+FFFD, as std does it).
pub uninterp spec fn lossy_text(bytes: Seq<u8>) -> Seq<char>;

/// The text of a byte sequence decoded leniently: valid UTF-8 decodes to
/// its characters, anything else as `lossy_text` says.
pub open spec fn lenient_text(bytes: Seq<u8>) -> Seq<char> {
    if vstd::utf8::valid_utf8(bytes) {
        vstd::utf8::decode_utf8(bytes)
    } else {
        lossy_text(bytes)
    }
}

/// `String::from_utf8_lossy`: decodes bytes as UTF-8, replacing invalid
/// sequences with U+FFFD. Claimed: valid UTF-8 decodes exactly, as std
/// documents; for other input the result depends on the bytes alone
/// (named `lossy_text`), and what it is is not stated.
#[verifier::external_body]
fn utf8_lossy(bytes: &[u8]) -> (s: String)
    ensures
        vstd::utf8::valid_utf8(bytes@) ==> s@ == vstd::utf8::decode_utf8(bytes@),
        !vstd::utf8::valid_utf8(bytes@) ==> s@ == lossy_text(bytes@),
{
    String::from_utf8_lossy(bytes).into_owned()
}

/// The text kept from a stream captured up to `limit` bytes: when more
/// than `limit` bytes arrived, the first `limit` of them followed by a note
/// of the truncation; otherwise all of them.
pub open spec fn bounded_text(bytes: Seq<u8>, limit: nat) -> Seq<char> {
    if bytes.len() > limit {
        lenient_text(bytes.take(limit as int)) + truncation_note(limit)
    } else {
        lenient_text(bytes)
    }
}

/// The note that ends output cut at `limit` bytes.
pub open spec fn truncation_note(limit: nat) -> Seq<char> {
    "\n... [output truncated at "@ + decimal(limit) + " bytes]"@
}

/// Appends the note that marks output cut at `limit` bytes.
pub fn push_truncation_note(s: &mut String, limit: usize)
    ensures
        final(s)@ == old(s)@ + truncation_note(limit as nat),
{
    s.append("\n... [output truncated at ");
    push_decimal(s, limit as u64);
    s.append(" bytes]");
}

/// Turns the bytes read from a stream (at most `limit + 1` of them) into
/// the captured text.
pub fn read_bounded(captured: &[u8], limit: usize) -> (s: String)
    ensures
        s@ == bounded_text(captured@, limit as nat),
{
    if captured.len() > limit {
        let mut kept: Vec<u8> = Vec::new();
        let mut i: usize = 0;
        while i < limit
            invariant
                i <= limit < captured@.len(),
                kept@ == captured@.take(i as int),
            decreases limit - i,
        {
            kept.push(captured[i]);
            assert(captured@.take(i + 1) == captured@.take(i as int).push(captured@[i as int]));
            i += 1;
        }
        let mut s = utf8_lossy(kept.as_slice());
        push_truncation_note(&mut s, limit);
        s
    } else {
        utf8_lossy(captured)
    }
}

} // verus!
