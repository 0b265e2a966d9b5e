use vstd::prelude::*;
use vstd::string::{StrSliceExecFns, StringExecFns};

verus! {

/// White space as Unicode defines it, which is what `char::is_whitespace`
/// tests for.
pub open spec fn is_space(c: char) -> bool {
    let u = c as u32;
    ||| 0x09 <= u <= 0x0D
    ||| u == 0x20
    ||| u == 0x85
    ||| u == 0xA0
    ||| u == 0x1680
    ||| 0x2000 <= u <= 0x200A
    ||| u == 0x2028
    ||| u == 0x2029
    ||| u == 0x202F
    ||| u == 0x205F
    ||| u == 0x3000
}

pub fn is_space_char(c: char) -> (r: bool)
    ensures
        r == is_space(c),
{
    let u = c as u32;
    (0x09 <= u && u <= 0x0D) || u == 0x20 || u == 0x85 || u == 0xA0 || u == 0x1680 || (0x2000
        <= u && u <= 0x200A) || u == 0x2028 || u == 0x2029 || u == 0x202F || u == 0x205F || u
        == 0x3000
}

/// Text laid out so far, and how long its last line is.
pub struct Layout {
    pub text: Seq<char>,
    pub line_len: nat,
}

/// Places word `w` after the layout: on a new line when it would make the
/// current line longer than `max`, and after a space unless it opens its line.
pub open spec fn place_word(l: Layout, w: Seq<char>, max: nat) -> Layout {
    let l1 = if l.line_len + w.len() > max {
        Layout { text: l.text.push('\n'), line_len: 0 }
    } else {
        l
    };
    let l2 = if l1.line_len > 0 {
        Layout { text: l1.text.push(' '), line_len: l1.line_len + 1 }
    } else {
        l1
    };
    Layout { text: l2.text + w, line_len: l2.line_len + w.len() }
}

/// Reading `s` from the start: the layout of the words finished so far, and
/// the word still being read at its end. Words are the runs of characters
/// between white space.
pub open spec fn scan(s: Seq<char>, max: nat) -> (Layout, Seq<char>)
    decreases s.len(),
{
    if s.len() == 0 {
        (Layout { text: Seq::empty(), line_len: 0 }, Seq::empty())
    } else {
        let (l, w) = scan(s.drop_last(), max);
        let c = s.last();
        if !is_space(c) {
            (l, w.push(c))
        } else if w.len() > 0 {
            (place_word(l, w, max), Seq::empty())
        } else {
            (l, w)
        }
    }
}

/// The words of `s`, laid out in lines of at most `max` characters where the
/// words allow, one space between words of a line.
pub open spec fn wrapped(s: Seq<char>, max: nat) -> Seq<char> {
    let (l, w) = scan(s, max);
    if w.len() > 0 {
        place_word(l, w, max).text
    } else {
        l.text
    }
}

fn place(text: &mut String, line_len: &mut usize, w: &str, max: usize)
    requires
        *old(line_len) <= old(text)@.len(),
        old(text)@.len() + w@.len() + 2 <= usize::MAX,
    ensures
        (Layout { text: final(text)@, line_len: *final(line_len) as nat }) == place_word(
            Layout { text: old(text)@, line_len: *old(line_len) as nat },
            w@,
            max as nat,
        ),
        *final(line_len) <= final(text)@.len(),
        final(text)@.len() <= old(text)@.len() + w@.len() + 2,
{
    proof {
        reveal_strlit("\n");
        reveal_strlit(" ");
    }
    let wl = w.unicode_len();
    let ghost l0 = Layout { text: text@, line_len: *line_len as nat };
    let ghost l1 = if l0.line_len + w@.len() > max as nat {
        Layout { text: l0.text.push('\n'), line_len: 0 }
    } else {
        l0
    };
    if *line_len + wl > max {
        text.append("\n");
        assert(text@ =~= l0.text.push('\n'));
        *line_len = 0;
    }
    assert(text@ == l1.text && *line_len as nat == l1.line_len);
    let ghost l2 = if l1.line_len > 0 {
        Layout { text: l1.text.push(' '), line_len: l1.line_len + 1 }
    } else {
        l1
    };
    if *line_len > 0 {
        text.append(" ");
        assert(text@ =~= l1.text.push(' '));
        *line_len = *line_len + 1;
    }
    assert(text@ == l2.text && *line_len as nat == l2.line_len);
    text.append(w);
    *line_len = *line_len + wl;
}

/// Lays `input` out in lines of at most `max_line_length` characters where
/// its words allow: words are separated by one space, and a word that would
/// overflow its line starts a new one.
pub fn insert_line_breaks(input: &str, max_line_length: usize) -> (r: String)
    requires
        input@.len() <= usize::MAX / 4,
    ensures
        r@ == wrapped(input@, max_line_length as nat),
{
    let ghost s = input@;
    let ghost max = max_line_length as nat;
    let n = input.unicode_len();
    let mut result = String::new();
    let mut line_len: usize = 0;
    let mut start: usize = 0;
    let mut i: usize = 0;
    assert(s.take(0) =~= Seq::<char>::empty());
    while i < n
        invariant
            n == s.len(),
            s == input@,
            max == max_line_length as nat,
            n <= usize::MAX / 4,
            start <= i <= n,
            scan(s.take(i as int), max).0 == (Layout { text: result@, line_len: line_len as nat }),
            scan(s.take(i as int), max).1 == s.subrange(start as int, i as int),
            result@.len() <= 2 * start,
            line_len <= result@.len(),
        decreases n - i,
    {
        let c = input.get_char(i);
        let ghost before = s.take(i as int);
        assert(s.take(i + 1).drop_last() =~= before);
        assert(s.take(i + 1).last() == c);
        if is_space_char(c) {
            if start < i {
                let w = input.substring_char(start, i);
                place(&mut result, &mut line_len, w, max_line_length);
            }
            assert(s.subrange(i + 1, i + 1) =~= Seq::<char>::empty());
            start = i + 1;
        } else {
            assert(s.subrange(start as int, i as int).push(c) =~= s.subrange(
                start as int,
                i + 1,
            ));
        }
        i = i + 1;
    }
    assert(s.take(n as int) =~= s);
    if start < n {
        let w = input.substring_char(start, n);
        place(&mut result, &mut line_len, w, max_line_length);
    }
    result
}

} // verus!
