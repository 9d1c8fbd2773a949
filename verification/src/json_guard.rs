//! Which texts the JSON reader of `rustc_serialize` reads without a panic.
//!
//! Its parser keeps the position and length of each object key in `u16`
//! fields, builds nested values by recursion, adds up the digits of an
//! exponent in a `usize` without a check, and pops the wrong entry of its
//! stack on a comma just before a `}`. A text is read only when its UTF-8
//! encoding fits the `u16` positions, its arrays and objects nest no deeper
//! than `MAX_JSON_DEPTH`, and, outside strings, no exponent overflows a `usize`
//! and no `}` follows a comma. Where the reader meets a syntax error it stops,
//! and up to that point its reading of strings is the one `lex` below follows.
use vstd::prelude::*;

verus! {

/// The most bytes the text's UTF-8 encoding may have: every key position and
/// length then fits in a `u16`.
pub const MAX_JSON_BYTES: usize = 65535;

/// The deepest that arrays and objects may nest.
pub const MAX_JSON_DEPTH: i64 = 256;

pub open spec fn is_opener(c: char) -> bool {
    c == '[' || c == '{'
}

pub open spec fn is_closer(c: char) -> bool {
    c == ']' || c == '}'
}

pub open spec fn is_json_space(c: char) -> bool {
    c == ' ' || c == '\n' || c == '\t' || c == '\r'
}

pub open spec fn is_digit(c: char) -> bool {
    '0' <= c && c <= '9'
}

pub open spec fn digit_value(c: char) -> nat {
    (c as nat - '0' as nat) as nat
}

/// Where the reading stands with respect to an exponent.
pub enum ExponentPos {
    /// In no exponent.
    Outside,
    /// Just after an `e` or `E` outside strings.
    Mark,
    /// Just after the sign that follows such a mark.
    Sign,
    /// In the digits of an exponent, whose value so far is given.
    Digits(nat),
}

/// The lexical state after reading a text from its start.
pub struct LexState {
    /// Inside a string.
    pub in_string: bool,
    /// Inside a string, just after a backslash.
    pub escaped: bool,
    /// How many arrays and objects are open: `[` and `{` outside strings
    /// count up, `]` and `}` outside strings count down.
    pub depth: int,
    /// The last character that is no JSON white space.
    pub last_significant: Option<char>,
    /// Where the reading stands with respect to an exponent.
    pub exponent: ExponentPos,
}

pub open spec fn lex_start() -> LexState {
    LexState {
        in_string: false,
        escaped: false,
        depth: 0,
        last_significant: None,
        exponent: ExponentPos::Outside,
    }
}

/// The lexical state after one more character.
pub open spec fn lex_step(st: LexState, c: char) -> LexState {
    let last_significant = if is_json_space(c) {
        st.last_significant
    } else {
        Some(c)
    };
    if st.in_string {
        LexState {
            in_string: st.escaped || c != '"',
            escaped: !st.escaped && c == '\\',
            depth: st.depth,
            last_significant,
            exponent: ExponentPos::Outside,
        }
    } else {
        LexState {
            in_string: c == '"',
            escaped: false,
            depth: if is_opener(c) {
                st.depth + 1
            } else if is_closer(c) {
                st.depth - 1
            } else {
                st.depth
            },
            last_significant,
            exponent: if c == 'e' || c == 'E' {
                ExponentPos::Mark
            } else if (c == '+' || c == '-') && st.exponent is Mark {
                ExponentPos::Sign
            } else if is_digit(c) {
                match st.exponent {
                    ExponentPos::Mark | ExponentPos::Sign => ExponentPos::Digits(digit_value(c)),
                    ExponentPos::Digits(v) => ExponentPos::Digits(v * 10 + digit_value(c)),
                    ExponentPos::Outside => ExponentPos::Outside,
                }
            } else {
                ExponentPos::Outside
            },
        }
    }
}

/// The lexical state after reading `s`.
pub open spec fn lex(s: Seq<char>) -> LexState
    decreases s.len(),
{
    if s.len() == 0 {
        lex_start()
    } else {
        lex_step(lex(s.drop_last()), s.last())
    }
}

/// Whether the JSON reader reads `s` without a panic: its encoding fits
/// `MAX_JSON_BYTES`, nesting stays within `MAX_JSON_DEPTH`, no exponent value
/// exceeds `usize::MAX`, and no `}` outside strings follows a comma with only
/// white space between.
pub open spec fn json_text_is_bounded(s: Seq<char>) -> bool {
    &&& vstd::utf8::encode_utf8(s).len() <= MAX_JSON_BYTES
    &&& forall|k: int| 0 <= k <= s.len() ==> #[trigger] lex(s.take(k)).depth <= MAX_JSON_DEPTH
    &&& forall|k: int|
        0 <= k <= s.len() ==> (#[trigger] lex(s.take(k)).exponent matches ExponentPos::Digits(v) ==> v
            <= usize::MAX)
    &&& forall|j: int|
        0 <= j < s.len() && s[j] == '}' && !(#[trigger] lex(s.take(j))).in_string ==> lex(
            s.take(j),
        ).last_significant != Some(',')
}

/// Where the reading stands with respect to an exponent, with the value so far.
enum ExpRun {
    Outside,
    Mark,
    Sign,
    Digits(usize),
}

spec fn exp_run_view(e: ExpRun) -> ExponentPos {
    match e {
        ExpRun::Outside => ExponentPos::Outside,
        ExpRun::Mark => ExponentPos::Mark,
        ExpRun::Sign => ExponentPos::Sign,
        ExpRun::Digits(v) => ExponentPos::Digits(v as nat),
    }
}

proof fn lemma_lex_take_step(s: Seq<char>, i: int)
    requires
        0 <= i < s.len(),
    ensures
        lex(s.take(i + 1)) == lex_step(lex(s.take(i)), s[i]),
{
    assert(s.take(i + 1).drop_last() =~= s.take(i));
}

proof fn lemma_encode_len(s: Seq<char>)
    ensures
        vstd::utf8::encode_utf8(s).len() >= s.len(),
    decreases s.len(),
{
    if s.len() > 0 {
        lemma_encode_len(s.drop_first());
    }
}

/// Whether the JSON reader reads `text` without a panic, by the bounds above.
pub fn json_text_bounded(text: &str) -> (r: bool)
    ensures
        r == json_text_is_bounded(text@),
{
    let bytes = text.as_bytes();
    assert(bytes@ == vstd::utf8::encode_utf8(text@));
    if bytes.len() > MAX_JSON_BYTES {
        return false;
    }
    let v = crate::update::chars_of(text);
    let ghost s = text@;
    proof {
        assert(s.take(0) =~= Seq::<char>::empty());
        lemma_encode_len(s);
    }
    let mut in_string = false;
    let mut escaped = false;
    let mut depth: i64 = 0;
    let mut last: Option<char> = None;
    let mut exp = ExpRun::Outside;
    let mut i: usize = 0;
    while i < v.len()
        invariant
            v@ == s,
            s == text@,
            vstd::utf8::encode_utf8(s).len() <= MAX_JSON_BYTES,
            v@.len() <= MAX_JSON_BYTES,
            i <= v@.len(),
            -(i as int) <= depth <= i,
            in_string == lex(s.take(i as int)).in_string,
            escaped == lex(s.take(i as int)).escaped,
            depth == lex(s.take(i as int)).depth,
            last == lex(s.take(i as int)).last_significant,
            exp_run_view(exp) == lex(s.take(i as int)).exponent,
            forall|k: int| 0 <= k <= i ==> #[trigger] lex(s.take(k)).depth <= MAX_JSON_DEPTH,
            forall|k: int|
                0 <= k <= i ==> (#[trigger] lex(s.take(k)).exponent matches ExponentPos::Digits(w)
                    ==> w <= usize::MAX),
            forall|j: int|
                0 <= j < i && s[j] == '}' && !(#[trigger] lex(s.take(j))).in_string ==> lex(
                    s.take(j),
                ).last_significant != Some(','),
        decreases v@.len() - i,
    {
        let c = v[i];
        proof {
            lemma_lex_take_step(s, i as int);
        }
        if !in_string && c == '}' && last == Some(',') {
            return false;
        }
        let next_last = if c == ' ' || c == '\n' || c == '\t' || c == '\r' {
            last
        } else {
            Some(c)
        };
        if in_string {
            in_string = escaped || c != '"';
            escaped = !escaped && c == '\\';
            exp = ExpRun::Outside;
        } else {
            in_string = c == '"';
            escaped = false;
            if c == '[' || c == '{' {
                depth = depth + 1;
            } else if c == ']' || c == '}' {
                depth = depth - 1;
            }
            let is_mark = match exp {
                ExpRun::Mark => true,
                _ => false,
            };
            if c == 'e' || c == 'E' {
                exp = ExpRun::Mark;
            } else if (c == '+' || c == '-') && is_mark {
                exp = ExpRun::Sign;
            } else if '0' <= c && c <= '9' {
                let d = (c as u32 - '0' as u32) as usize;
                assert(d as nat == digit_value(c));
                match exp {
                    ExpRun::Mark | ExpRun::Sign => {
                        exp = ExpRun::Digits(d);
                    },
                    ExpRun::Digits(w) => {
                        let grown = match w.checked_mul(10) {
                            Some(t) => t.checked_add(d),
                            None => None,
                        };
                        match grown {
                            Some(g) => {
                                exp = ExpRun::Digits(g);
                            },
                            None => {
                                assert(lex(s.take(i + 1)).exponent == ExponentPos::Digits(
                                    w as nat * 10 + d as nat,
                                ));
                                return false;
                            },
                        }
                    },
                    ExpRun::Outside => {},
                }
            } else {
                exp = ExpRun::Outside;
            }
        }
        last = next_last;
        if depth > MAX_JSON_DEPTH {
            assert(lex(s.take(i + 1)).depth > MAX_JSON_DEPTH);
            return false;
        }
        i = i + 1;
    }
    assert(s.take(s.len() as int) =~= s);
    true
}

} // verus!
