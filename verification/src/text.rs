use vstd::prelude::*;

verus! {

/// `String::push` appends one character to the end of the string.
pub assume_specification[ String::push ](s: &mut String, ch: char)
    ensures
        final(s)@ == old(s)@.push(ch),
;

// ---------------------------------------------------------------------------
// Decimal numbers
// ---------------------------------------------------------------------------

/// The ASCII digit for `d` (meant for `d < 10`).
pub open spec fn digit_char(d: nat) -> char {
    (48 + d) as char
}

/// Decimal representation of `n`, most significant digit first, no padding.
pub open spec fn decimal(n: nat) -> Seq<char>
    decreases n,
{
    if n < 10 {
        seq![digit_char(n)]
    } else {
        decimal(n / 10).push(digit_char(n % 10))
    }
}

/// `count` copies of `c`.
pub open spec fn repeat_char(c: char, count: nat) -> Seq<char> {
    Seq::new(count, |i: int| c)
}

/// `n` in decimal, padded on the left with zeros to at least `width` digits.
pub open spec fn zero_padded(n: nat, width: nat) -> Seq<char> {
    let digits = decimal(n);
    if digits.len() < width {
        repeat_char('0', (width - digits.len()) as nat) + digits
    } else {
        digits
    }
}

/// `n` as `format!("{:0w$}", n)` writes a signed integer: the sign counts
/// towards the width and the zeros go between the sign and the digits.
pub open spec fn signed_zero_padded(n: int, width: nat) -> Seq<char> {
    if n < 0 {
        seq!['-'] + zero_padded((-n) as nat, if width > 0 { (width - 1) as nat } else { 0 })
    } else {
        zero_padded(n as nat, width)
    }
}

fn digit(d: u64) -> (c: char)
    requires
        d < 10,
    ensures
        c == digit_char(d as nat),
{
    let b: u8 = d as u8;
    (b + 48) as char
}

/// Appends the decimal digits of `n`.
pub fn push_decimal(s: &mut String, n: u64)
    ensures
        final(s)@ == old(s)@ + decimal(n as nat),
    decreases n,
{
    if n < 10 {
        s.push(digit(n));
        assert(old(s)@.push(digit_char(n as nat)) =~= old(s)@ + decimal(n as nat));
    } else {
        push_decimal(s, n / 10);
        s.push(digit(n % 10));
        assert(old(s)@ + decimal(n as nat) =~= (old(s)@ + decimal((n / 10) as nat)).push(
            digit_char((n % 10) as nat),
        ));
    }
}

/// Appends `n` zero-padded to at least `width` digits.
pub fn push_zero_padded(s: &mut String, n: u64, width: usize)
    ensures
        final(s)@ == old(s)@ + zero_padded(n as nat, width as nat),
{
    let mut digits = String::new();
    push_decimal(&mut digits, n);
    assert(digits@ =~= decimal(n as nat));
    let len = digits.as_str().unicode_len();
    let ghost start = s@;
    if len < width {
        let mut k: usize = 0;
        while k < width - len
            invariant
                k <= width - len,
                len < width,
                s@ == start + repeat_char('0', k as nat),
            decreases width - len - k,
        {
            s.push('0');
            k = k + 1;
            assert(s@ =~= start + repeat_char('0', k as nat));
        }
    }
    s.append(digits.as_str());
    assert(s@ =~= start + zero_padded(n as nat, width as nat));
}

// ---------------------------------------------------------------------------
// Whitespace
// ---------------------------------------------------------------------------

/// Characters with the Unicode `White_Space` property, which `str::trim` strips.
pub open spec fn is_white_space(c: char) -> bool {
    let u = c as u32;
    ||| 9 <= u <= 13
    ||| u == 32
    ||| u == 0x85
    ||| u == 0xA0
    ||| u == 0x1680
    ||| 0x2000 <= u <= 0x200A
    ||| u == 0x2028
    ||| u == 0x2029
    ||| u == 0x202F
    ||| u == 0x205F
    ||| u == 0x3000
}

fn white_space(c: char) -> (b: bool)
    ensures
        b == is_white_space(c),
{
    let u = c as u32;
    (9 <= u && u <= 13) || u == 32 || u == 0x85 || u == 0xA0 || u == 0x1680 || (0x2000 <= u
        && u <= 0x200A) || u == 0x2028 || u == 0x2029 || u == 0x202F || u == 0x205F || u == 0x3000
}

/// `s` without its leading white space.
pub open spec fn trim_start(s: Seq<char>) -> Seq<char>
    decreases s.len(),
{
    if s.len() > 0 && is_white_space(s[0]) {
        trim_start(s.drop_first())
    } else {
        s
    }
}

/// `s` without its trailing white space.
pub open spec fn trim_end(s: Seq<char>) -> Seq<char>
    decreases s.len(),
{
    if s.len() > 0 && is_white_space(s.last()) {
        trim_end(s.drop_last())
    } else {
        s
    }
}

/// `s` without leading or trailing white space, as `str::trim` returns it.
pub open spec fn trimmed(s: Seq<char>) -> Seq<char> {
    trim_end(trim_start(s))
}

/// The text of `s` with leading and trailing white space removed.
pub fn trim(s: &str) -> (r: String)
    ensures
        r@ == trimmed(s@),
{
    let len = s.unicode_len();
    let mut i: usize = 0;
    assert(s@.subrange(0, len as int) =~= s@);
    while i < len && white_space(s.get_char(i))
        invariant
            len == s@.len(),
            i <= len,
            trim_start(s@) == trim_start(s@.subrange(i as int, len as int)),
        decreases len - i,
    {
        assert(s@.subrange(i as int, len as int).drop_first() =~= s@.subrange(
            i + 1,
            len as int,
        ));
        i = i + 1;
    }
    assert(trim_start(s@) == s@.subrange(i as int, len as int));
    let mut j: usize = len;
    while j > i && white_space(s.get_char(j - 1))
        invariant
            len == s@.len(),
            i <= j <= len,
            trim_end(s@.subrange(i as int, len as int)) == trim_end(
                s@.subrange(i as int, j as int),
            ),
        decreases j,
    {
        assert(s@.subrange(i as int, j as int).drop_last() =~= s@.subrange(
            i as int,
            j - 1,
        ));
        j = j - 1;
    }
    assert(trim_end(s@.subrange(i as int, j as int)) == s@.subrange(i as int, j as int));
    String::from_str(s.substring_char(i, j))
}

/// Characters that `u8::is_ascii_whitespace` accepts: space, tab, line
/// feed, form feed and carriage return.
pub open spec fn is_ascii_white_space(c: char) -> bool {
    c == ' ' || c == '\t' || c == '\n' || c == '\x0C' || c == '\r'
}

/// The words of `s` as `str::split_ascii_whitespace` yields them: the
/// maximal runs of characters that are not ASCII white space.
pub open spec fn ascii_words(s: Seq<char>) -> Seq<Seq<char>>
    decreases s.len(),
{
    if s.len() == 0 {
        seq![]
    } else if is_ascii_white_space(s.last()) {
        ascii_words(s.drop_last())
    } else {
        let w = ascii_words(s.drop_last());
        if s.len() >= 2 && !is_ascii_white_space(s[s.len() - 2]) {
            w.update(w.len() - 1, w.last().push(s.last()))
        } else {
            w.push(seq![s.last()])
        }
    }
}

/// The state of reading a command line: the finished words, the word being
/// read, whether a word is open (a quoted empty word counts), and whether the
/// reader is inside double quotes.
pub open spec fn lex_step(
    st: (Seq<Seq<char>>, Seq<char>, bool, bool),
    c: char,
) -> (Seq<Seq<char>>, Seq<char>, bool, bool) {
    if st.3 {
        if c == '"' {
            (st.0, st.1, true, false)
        } else {
            (st.0, st.1.push(c), true, true)
        }
    } else if c == '"' {
        (st.0, st.1, true, true)
    } else if is_ascii_white_space(c) {
        if st.2 {
            (st.0.push(st.1), seq![], false, false)
        } else {
            (st.0, st.1, false, false)
        }
    } else {
        (st.0, st.1.push(c), true, false)
    }
}

/// The reader's state after all of `s`.
pub open spec fn lex(s: Seq<char>) -> (Seq<Seq<char>>, Seq<char>, bool, bool)
    decreases s.len(),
{
    if s.len() == 0 {
        (seq![], seq![], false, false)
    } else {
        lex_step(lex(s.drop_last()), s.last())
    }
}

/// The arguments of a command line as a shell would split it on double
/// quotes: ASCII white space separates arguments, except inside double
/// quotes, and the quote marks themselves are dropped; `""` is an empty
/// argument, and an unclosed quote runs to the end of the line.
pub open spec fn command_words(s: Seq<char>) -> Seq<Seq<char>> {
    let st = lex(s);
    if st.2 {
        st.0.push(st.1)
    } else {
        st.0
    }
}

/// The arguments of a command line, split as `command_words` describes.
pub fn split_command_words(s: &str) -> (words: Vec<String>)
    ensures
        string_views(words@) == command_words(s@),
{
    let len = s.unicode_len();
    let mut words: Vec<String> = Vec::new();
    let mut cur = String::new();
    let mut open = false;
    let mut quoted = false;
    let mut i: usize = 0;
    while i < len
        invariant
            len == s@.len(),
            i <= len,
            (string_views(words@), cur@, open, quoted) == lex(s@.take(i as int)),
        decreases len - i,
    {
        let c = s.get_char(i);
        let ghost prev = s@.take(i as int);
        assert(s@.take(i + 1).drop_last() =~= prev);
        assert(s@.take(i + 1).last() == c);
        if quoted {
            if c == '"' {
                quoted = false;
            } else {
                cur.push(c);
            }
        } else if c == '"' {
            open = true;
            quoted = true;
        } else if c == ' ' || c == '\t' || c == '\n' || c == '\x0C' || c == '\r' {
            if open {
                let ghost before = words@;
                let done = cur;
                words.push(done);
                assert(string_views(words@) =~= string_views(before).push(done@));
                cur = String::new();
                open = false;
            }
        } else {
            cur.push(c);
            open = true;
        }
        i = i + 1;
    }
    assert(s@.take(len as int) =~= s@);
    if open {
        let ghost before = words@;
        let done = cur;
        words.push(done);
        assert(string_views(words@) =~= string_views(before).push(done@));
    }
    words
}

// ---------------------------------------------------------------------------
// Joining
// ---------------------------------------------------------------------------

/// The items of `list` with `sep` between each two, as `[T]::join` gives.
pub open spec fn joined(list: Seq<Seq<char>>, sep: Seq<char>) -> Seq<char>
    decreases list.len(),
{
    if list.len() == 0 {
        seq![]
    } else if list.len() == 1 {
        list[0]
    } else {
        joined(list.drop_last(), sep) + sep + list.last()
    }
}

/// The views of a list of strings.
pub open spec fn string_views(list: Seq<String>) -> Seq<Seq<char>> {
    list.map_values(|t: String| t@)
}

/// The items of `list` joined by `sep`.
pub fn join(list: &Vec<String>, sep: &str) -> (r: String)
    ensures
        r@ == joined(string_views(list@), sep@),
{
    let mut r = String::new();
    let ghost views = string_views(list@);
    let mut i: usize = 0;
    while i < list.len()
        invariant
            i <= list@.len(),
            views == string_views(list@),
            r@ == joined(views.take(i as int), sep@),
        decreases list@.len() - i,
    {
        assert(views.take(i + 1).drop_last() =~= views.take(i as int));
        if i > 0 {
            r.append(sep);
        } else {
            assert(r@ =~= seq![]);
        }
        r.append(list[i].as_str());
        assert(views.take(i + 1).last() == list@[i as int]@);
        if i == 0 {
            assert(r@ =~= views.take(1)[0]);
        }
        i = i + 1;
    }
    assert(views.take(list@.len() as int) =~= views);
    r
}

/// The dependency line of the context pane: "after: " and the ids joined by ", ".
pub fn after_label(after_ids: &Vec<String>) -> (label: String)
    ensures
        label@ == "after: "@ + joined(string_views(after_ids@), ", "@),
{
    let mut label = String::from_str("after: ");
    let ids = join(after_ids, ", ");
    label.append(ids.as_str());
    label
}

/// The tag line of the context pane: the tags joined by two spaces.
pub fn tags_label(tags: &Vec<String>) -> (label: String)
    ensures
        label@ == joined(string_views(tags@), "  "@),
{
    join(tags, "  ")
}

} // verus!
