use vstd::prelude::*;

verus! {

/// Echoed command text is removed only when its first occurrence starts
/// within this many characters of the start of the cleaned output.
pub const ECHO_WINDOW: usize = 100;

/// What strip_ansi_escapes::strip returns for a byte stream: a function of
/// the bytes alone.
pub uninterp spec fn stripped_of(b: Seq<u8>) -> Seq<u8>;

/// Relies on strip_ansi_escapes::strip: the printable remainder of a byte
/// stream once terminal control and escape sequences are removed, a function
/// of the bytes alone; for an empty stream it writes nothing.
#[verifier::external_body]
fn strip_controls(b: &Vec<u8>) -> (r: Vec<u8>)
    ensures
        r@ == stripped_of(b@),
        b@.len() == 0 ==> r@.len() == 0,
{
    strip_ansi_escapes::strip(b)
}

/// What String::from_utf8_lossy returns for a byte stream: a function of the
/// bytes alone.
pub uninterp spec fn lossy_of(b: Seq<u8>) -> Seq<char>;

/// Relies on String::from_utf8_lossy: the text read from a byte stream with
/// each invalid UTF-8 sequence replaced, a function of the bytes alone; an
/// empty stream gives the empty string.
#[verifier::external_body]
fn bytes_to_text(b: &Vec<u8>) -> (r: String)
    ensures
        r@ == lossy_of(b@),
        b@.len() == 0 ==> r@.len() == 0,
{
    String::from_utf8_lossy(b).into_owned()
}

/// What char::is_whitespace returns: whether the character has the Unicode
/// White_Space property, a function of the character alone.
pub uninterp spec fn white_of(c: char) -> bool;

/// Relies on char::is_whitespace.
#[verifier::external_body]
fn is_white(c: char) -> (r: bool)
    ensures
        r == white_of(c),
{
    c.is_whitespace()
}

/// `s` with every trailing carriage return and line feed removed.
pub open spec fn dropped_crlf_back(s: Seq<char>) -> Seq<char>
    decreases s.len(),
{
    if s.len() > 0 && (s.last() == '\r' || s.last() == '\n') {
        dropped_crlf_back(s.drop_last())
    } else {
        s
    }
}

/// The command text as it is handed to the shell: ending in exactly one
/// line terminator, however many it ended in before.
pub open spec fn normalized(c: Seq<char>) -> Seq<char> {
    dropped_crlf_back(c).push('\n')
}

/// Whether `p` occurs in `t` starting at character position `i`.
pub open spec fn occurs_at(t: Seq<char>, p: Seq<char>, i: int) -> bool {
    &&& 0 <= i
    &&& i + p.len() <= t.len()
    &&& t.subrange(i, i + p.len()) == p
}

/// The first position at or after `i` where `p` occurs in `t`.
pub open spec fn find_from(t: Seq<char>, p: Seq<char>, i: int) -> Option<int>
    decreases t.len() + 1 - i,
{
    if i + p.len() > t.len() {
        None
    } else if occurs_at(t, p, i) {
        Some(i)
    } else {
        find_from(t, p, i + 1)
    }
}

/// `s` with its leading whitespace removed.
pub open spec fn trim_front(s: Seq<char>) -> Seq<char>
    decreases s.len(),
{
    if s.len() > 0 && white_of(s[0]) {
        trim_front(s.drop_first())
    } else {
        s
    }
}

/// `s` with its trailing whitespace removed.
pub open spec fn trim_back(s: Seq<char>) -> Seq<char>
    decreases s.len(),
{
    if s.len() > 0 && white_of(s.last()) {
        trim_back(s.drop_last())
    } else {
        s
    }
}

/// The command text as it is searched for in captured output: leading and
/// trailing whitespace removed.
pub open spec fn trimmed_of(s: Seq<char>) -> Seq<char> {
    trim_back(trim_front(s))
}

/// `s` with every leading carriage return and line feed removed.
pub open spec fn dropped_crlf(s: Seq<char>) -> Seq<char>
    decreases s.len(),
{
    if s.len() > 0 && (s[0] == '\r' || s[0] == '\n') {
        dropped_crlf(s.drop_first())
    } else {
        s
    }
}

/// How the echoed command is removed from cleaned output: when the trimmed
/// command first occurs within the first `ECHO_WINDOW` characters, everything
/// through that occurrence and any line terminators immediately after it is
/// discarded; otherwise the text is kept whole.
pub open spec fn echo_removed(t: Seq<char>, c: Seq<char>) -> Seq<char> {
    let p = trimmed_of(c);
    match find_from(t, p, 0) {
        Some(i) => if i < ECHO_WINDOW as int {
            dropped_crlf(t.subrange(i + p.len(), t.len() as int))
        } else {
            t
        },
        None => t,
    }
}

/// The whole cleaning pipeline applied to one capture's bytes: control
/// sequences stripped, the remainder read as text, the echoed command
/// removed.
pub open spec fn cleaned_output(bytes: Seq<u8>, cmd: Seq<char>) -> Seq<char> {
    echo_removed(lossy_of(stripped_of(bytes)), cmd)
}

proof fn lemma_dropped_crlf_back_at(s: Seq<char>, b: int)
    requires
        0 <= b <= s.len(),
        forall|j: int| b <= j < s.len() ==> (s[j] == '\r' || s[j] == '\n'),
        b == 0 || !(s[b - 1] == '\r' || s[b - 1] == '\n'),
    ensures
        dropped_crlf_back(s) == s.subrange(0, b),
    decreases s.len(),
{
    if b == s.len() {
        assert(s.subrange(0, b) =~= s);
    } else {
        let t = s.drop_last();
        assert(forall|j: int| b <= j < t.len() ==> (t[j] == '\r' || t[j] == '\n'));
        lemma_dropped_crlf_back_at(t, b);
        assert(t.subrange(0, b) =~= s.subrange(0, b));
    }
}

/// Normalizes command text to end in exactly one line terminator before it
/// is written to a session's input sink: every trailing carriage return and
/// line feed is removed, and one line feed appended.
pub fn normalize_command(cmd: &String) -> (r: String)
    ensures
        r@ == normalized(cmd@),
{
    let s = cmd.as_str();
    let n = s.unicode_len();
    let mut b: usize = n;
    loop
        invariant_except_break
            b <= n,
            n == s@.len(),
            forall|j: int| b <= j < n ==> (s@[j] == '\r' || s@[j] == '\n'),
        ensures
            b <= n,
            (forall|j: int| b <= j < n ==> (s@[j] == '\r' || s@[j] == '\n')),
            b == 0 || !(s@[b - 1] == '\r' || s@[b - 1] == '\n'),
        decreases b,
    {
        if b == 0 {
            break;
        }
        let c = s.get_char(b - 1);
        if c != '\r' && c != '\n' {
            break;
        }
        b -= 1;
    }
    let mut r = s.substring_char(0, b).to_owned();
    r.append("\n");
    proof {
        lemma_dropped_crlf_back_at(s@, b as int);
        reveal_strlit("\n");
        assert(r@ =~= normalized(cmd@));
    }
    r
}

/// Whether `pat` occurs in `text` at character position `i`.
fn match_at(text: &str, pat: &str, i: usize) -> (r: bool)
    requires
        i + pat@.len() <= text@.len(),
    ensures
        r == occurs_at(text@, pat@, i as int),
{
    let m = pat.unicode_len();
    let n = text.unicode_len();
    let mut k: usize = 0;
    while k < m
        invariant
            n == text@.len(),
            i + m <= n,
            m == pat@.len(),
            k <= m,
            forall|j: int| 0 <= j < k ==> text@[i + j] == pat@[j],
        decreases m - k,
    {
        if text.get_char(i + k) != pat.get_char(k) {
            proof {
                if occurs_at(text@, pat@, i as int) {
                    assert(text@.subrange(i as int, i + pat@.len())[k as int] == pat@[k as int]);
                }
            }
            return false;
        }
        k += 1;
    }
    proof {
        assert(text@.subrange(i as int, i + pat@.len()) =~= pat@);
    }
    true
}

proof fn lemma_find_from_some(t: Seq<char>, p: Seq<char>, i: int, r: int)
    requires
        0 <= i,
        find_from(t, p, i) == Some(r),
    ensures
        i <= r,
        occurs_at(t, p, r),
    decreases t.len() - i,
{
    if i + p.len() > t.len() {
    } else if occurs_at(t, p, i) {
    } else {
        if p.len() == 0 {
            assert(t.subrange(i, i) =~= p);
            assert(false);
        }
        lemma_find_from_some(t, p, i + 1, r);
    }
}

/// The first character position where `pat` occurs in `text`, the position
/// that decides whether an echoed command is stripped.
pub fn find_sub(text: &str, pat: &str) -> (r: Option<usize>)
    ensures
        r matches Some(i) ==> find_from(text@, pat@, 0) == Some(i as int),
        r is None ==> find_from(text@, pat@, 0) is None,
{
    let n = text.unicode_len();
    let m = pat.unicode_len();
    if m > n {
        return None;
    }
    if m == 0 {
        proof {
            assert(text@.subrange(0, 0) =~= pat@);
        }
        return Some(0);
    }
    let mut i: usize = 0;
    while i <= n - m
        invariant
            1 <= m <= n,
            n == text@.len(),
            m == pat@.len(),
            i <= n - m + 1,
            find_from(text@, pat@, 0) == find_from(text@, pat@, i as int),
        decreases n - i,
    {
        if match_at(text, pat, i) {
            return Some(i);
        }
        i += 1;
    }
    None
}

proof fn lemma_trim_front_at(s: Seq<char>, a: int)
    requires
        0 <= a <= s.len(),
        forall|j: int| 0 <= j < a ==> white_of(s[j]),
        a == s.len() || !white_of(s[a]),
    ensures
        trim_front(s) == s.subrange(a, s.len() as int),
    decreases a,
{
    if a == 0 {
        assert(s.subrange(0, s.len() as int) =~= s);
    } else {
        let t = s.drop_first();
        assert(forall|j: int| 0 <= j < a - 1 ==> white_of(t[j]));
        lemma_trim_front_at(t, a - 1);
        assert(t.subrange(a - 1, t.len() as int) =~= s.subrange(a, s.len() as int));
    }
}

proof fn lemma_trim_back_at(s: Seq<char>, b: int)
    requires
        0 <= b <= s.len(),
        forall|j: int| b <= j < s.len() ==> white_of(s[j]),
        b == 0 || !white_of(s[b - 1]),
    ensures
        trim_back(s) == s.subrange(0, b),
    decreases s.len(),
{
    if b == s.len() {
        assert(s.subrange(0, b) =~= s);
    } else {
        let t = s.drop_last();
        assert(forall|j: int| b <= j < t.len() ==> white_of(t[j]));
        lemma_trim_back_at(t, b);
        assert(t.subrange(0, b) =~= s.subrange(0, b));
    }
}

proof fn lemma_dropped_crlf_at(s: Seq<char>, a: int)
    requires
        0 <= a <= s.len(),
        forall|j: int| 0 <= j < a ==> (s[j] == '\r' || s[j] == '\n'),
        a == s.len() || !(s[a] == '\r' || s[a] == '\n'),
    ensures
        dropped_crlf(s) == s.subrange(a, s.len() as int),
    decreases a,
{
    if a == 0 {
        assert(s.subrange(0, s.len() as int) =~= s);
    } else {
        let t = s.drop_first();
        assert(forall|j: int| 0 <= j < a - 1 ==> (t[j] == '\r' || t[j] == '\n'));
        lemma_dropped_crlf_at(t, a - 1);
        assert(t.subrange(a - 1, t.len() as int) =~= s.subrange(a, s.len() as int));
    }
}

/// The text with leading and trailing whitespace removed, the form in which
/// an echoed command is matched against captured output.
pub fn trim_ws<'a>(s: &'a str) -> (r: &'a str)
    ensures
        r@ == trimmed_of(s@),
{
    let n = s.unicode_len();
    let mut a: usize = 0;
    loop
        invariant_except_break
            a <= n,
            n == s@.len(),
            forall|j: int| 0 <= j < a ==> white_of(s@[j]),
        ensures
            a <= n,
            n == s@.len(),
            (forall|j: int| 0 <= j < a ==> white_of(s@[j])),
            a == n || !white_of(s@[a as int]),
        decreases n - a,
    {
        if a >= n {
            break;
        }
        if !is_white(s.get_char(a)) {
            break;
        }
        a += 1;
    }
    let mut b: usize = n;
    loop
        invariant_except_break
            a <= b <= n,
            n == s@.len(),
            forall|j: int| b <= j < n ==> white_of(s@[j]),
        ensures
            a <= b <= n,
            (forall|j: int| b <= j < n ==> white_of(s@[j])),
            b == a || !white_of(s@[b - 1]),
        decreases b,
    {
        if b <= a {
            break;
        }
        if !is_white(s.get_char(b - 1)) {
            break;
        }
        b -= 1;
    }
    let r = s.substring_char(a, b);
    proof {
        lemma_trim_front_at(s@, a as int);
        let u = s@.subrange(a as int, n as int);
        assert(forall|j: int| b - a <= j < u.len() ==> white_of(u[j]));
        assert(b - a == 0 || !white_of(u[b - a - 1]));
        lemma_trim_back_at(u, b - a);
        assert(u.subrange(0, b - a) =~= s@.subrange(a as int, b as int));
    }
    r
}

/// Removes the echoed command from cleaned output text, as `echo_removed`
/// states.
pub fn remove_echo<'a>(text: &'a str, command: &str) -> (r: &'a str)
    ensures
        r@ == echo_removed(text@, command@),
{
    let p = trim_ws(command);
    let found = find_sub(text, p);
    match found {
        Some(i) => {
            if i < ECHO_WINDOW {
                proof {
                    lemma_find_from_some(text@, p@, 0, i as int);
                }
                let m = p.unicode_len();
                let n = text.unicode_len();
                let mut pos: usize = i + m;
                loop
                    invariant_except_break
                        i + m <= pos <= n,
                        n == text@.len(),
                        forall|j: int| i + m <= j < pos ==> (text@[j] == '\r' || text@[j] == '\n'),
                    ensures
                        i + m <= pos <= n,
                        (forall|j: int| i + m <= j < pos ==> (text@[j] == '\r' || text@[j] == '\n')),
                        pos == n || !(text@[pos as int] == '\r' || text@[pos as int] == '\n'),
                    decreases n - pos,
                {
                    if pos >= n {
                        break;
                    }
                    let c = text.get_char(pos);
                    if c != '\r' && c != '\n' {
                        break;
                    }
                    pos += 1;
                }
                let r = text.substring_char(pos, n);
                proof {
                    let u = text@.subrange(i + p@.len(), n as int);
                    assert(forall|j: int| 0 <= j < pos - i - p@.len() ==> (u[j] == '\r' || u[j] == '\n'));
                    lemma_dropped_crlf_at(u, pos - i - p@.len());
                    assert(u.subrange(pos - i - p@.len(), u.len() as int) =~= text@.subrange(
                        pos as int,
                        n as int,
                    ));
                }
                r
            } else {
                text
            }
        },
        None => text,
    }
}

/// Law (echo removal at the head): when the trimmed command occurs at the
/// very start of the cleaned text — a shell that echoes the command before
/// its output — everything through the echo and the line terminators right
/// after it is removed, leaving exactly the rest. With text
/// `echo ++ "\n" ++ out` this is `dropped_crlf("\n" ++ out)`, so the output
/// alone.
pub proof fn lemma_echo_removed_at_start(t: Seq<char>, c: Seq<char>)
    requires
        occurs_at(t, trimmed_of(c), 0),
    ensures
        echo_removed(t, c) == dropped_crlf(
            t.subrange(trimmed_of(c).len() as int, t.len() as int),
        ),
{
    let p = trimmed_of(c);
    assert(find_from(t, p, 0) == Some(0int));
}

proof fn lemma_echo_removed_empty(c: Seq<char>)
    ensures
        echo_removed(Seq::<char>::empty(), c).len() == 0,
{
    let p = trimmed_of(c);
    let t = Seq::<char>::empty();
    if p.len() == 0 {
        assert(t.subrange(0, 0) =~= p);
        assert(occurs_at(t, p, 0));
        assert(find_from(t, p, 0) == Some(0int));
    } else {
        assert(find_from(t, p, 0) is None);
    }
}

/// The cleaning pipeline run after a capture ends: strips terminal control
/// sequences, reads the bytes as text, and removes the echoed command.
pub fn clean_output(bytes: &Vec<u8>, command: &String) -> (r: String)
    ensures
        r@ == cleaned_output(bytes@, command@),
        bytes@.len() == 0 ==> r@.len() == 0,
{
    let stripped = strip_controls(bytes);
    let text = bytes_to_text(&stripped);
    let cleaned = remove_echo(text.as_str(), command.as_str());
    let r = cleaned.to_owned();
    proof {
        if bytes@.len() == 0 {
            assert(text@ =~= Seq::<char>::empty());
            lemma_echo_removed_empty(command@);
        }
    }
    r
}

} // verus!

