//! Configuration parsing: a whitespace-delimited text blob yields the
//! credential tokens (each holding a colon), at most one chat identifier
//! (`#` followed by the identifier; the last one wins), and at most one
//! display time-zone override (`T` followed by a signed whole-hour
//! offset; the last one wins, and any malformed or out-of-range one is
//! fatal). Missing credentials or a missing chat identifier are fatal
//! as well.

use vstd::prelude::*;
use vstd::string::StrSliceExecFns;

verus! {

/// ASCII whitespace, the separators between configuration tokens.
pub open spec fn is_space(c: char) -> bool {
    c == ' ' || c == '\n' || c == '\t' || c == '\r'
}

/// Length of the leading run of non-space characters.
pub open spec fn token_len(s: Seq<char>) -> nat
    decreases s.len(),
{
    if s.len() == 0 || is_space(s[0]) {
        0
    } else {
        1 + token_len(s.drop_first())
    }
}

/// The whitespace-separated tokens of the text, in order.
pub open spec fn split_ws(s: Seq<char>) -> Seq<Seq<char>>
    decreases s.len(),
    via split_ws_decreases
{
    if s.len() == 0 {
        Seq::empty()
    } else if is_space(s[0]) {
        split_ws(s.drop_first())
    } else {
        seq![s.take(token_len(s) as int)] + split_ws(s.skip(token_len(s) as int))
    }
}

/// A token never runs past the end of the text.
proof fn lemma_token_len_le(s: Seq<char>)
    ensures
        token_len(s) <= s.len(),
    decreases s.len(),
{
    if !(s.len() == 0 || is_space(s[0])) {
        lemma_token_len_le(s.drop_first());
    }
}

#[via_fn]
proof fn split_ws_decreases(s: Seq<char>) {
    if s.len() > 0 && !is_space(s[0]) {
        lemma_token_len_le(s);
        assert(token_len(s) == 1 + token_len(s.drop_first()));
    }
}

/// The views of a list of owned strings.
pub open spec fn views(v: Seq<String>) -> Seq<Seq<char>> {
    v.map_values(|t: String| t@)
}

/// A chat-identifier token: `#` followed by the identifier.
pub open spec fn is_chat_tok(t: Seq<char>) -> bool {
    t.len() > 0 && t[0] == '#'
}

/// A time-zone token: `T` followed by a signed whole-hour offset.
pub open spec fn is_tz_tok(t: Seq<char>) -> bool {
    t.len() > 0 && t[0] == 'T'
}

/// Whether the token holds a colon anywhere.
pub open spec fn has_colon(t: Seq<char>) -> bool {
    exists|i: int| 0 <= i < t.len() && t[i] == ':'
}

/// A credential token: neither marker, and shaped `credential:token`.
pub open spec fn is_cred_tok(t: Seq<char>) -> bool {
    !is_chat_tok(t) && !is_tz_tok(t) && has_colon(t)
}

/// The chat identifier the token list yields: the last `#` token's body.
pub open spec fn chat_of(toks: Seq<Seq<char>>) -> Option<Seq<char>>
    decreases toks.len(),
{
    if toks.len() == 0 {
        None
    } else if is_chat_tok(toks.last()) {
        Some(toks.last().skip(1))
    } else {
        chat_of(toks.drop_last())
    }
}

/// The time-zone override body the token list yields: the last `T`
/// token's body.
pub open spec fn tz_tok_of(toks: Seq<Seq<char>>) -> Option<Seq<char>>
    decreases toks.len(),
{
    if toks.len() == 0 {
        None
    } else if is_tz_tok(toks.last()) {
        Some(toks.last().skip(1))
    } else {
        tz_tok_of(toks.drop_last())
    }
}

/// The credential tokens, in order.
pub open spec fn creds_of(toks: Seq<Seq<char>>) -> Seq<Seq<char>>
    decreases toks.len(),
{
    if toks.len() == 0 {
        Seq::empty()
    } else if is_cred_tok(toks.last()) {
        creds_of(toks.drop_last()).push(toks.last())
    } else {
        creds_of(toks.drop_last())
    }
}

/// A decimal digit.
pub open spec fn is_digit(c: char) -> bool {
    48 <= c as u32 <= 57
}

/// The value of a digit string, most significant digit first.
pub open spec fn digits_val(t: Seq<char>) -> int
    decreases t.len(),
{
    if t.len() == 0 {
        0
    } else {
        digits_val(t.drop_last()) * 10 + (t.last() as u32 - 48)
    }
}

/// The digit part of a time-zone body: everything after an optional
/// leading sign.
pub open spec fn tz_digits(t: Seq<char>) -> Seq<char> {
    if t.len() > 0 && (t[0] == '+' || t[0] == '-') {
        t.skip(1)
    } else {
        t
    }
}

/// The sign of a time-zone body.
pub open spec fn tz_sign(t: Seq<char>) -> int {
    if t.len() > 0 && t[0] == '-' {
        -1
    } else {
        1
    }
}

/// The signed hour value of a time-zone body.
pub open spec fn tz_value(t: Seq<char>) -> int {
    tz_sign(t) * digits_val(tz_digits(t))
}

/// A usable time-zone body: a signed non-empty digit string whose hour
/// value names a real UTC offset. Anything else aborts startup, as does
/// an offset of a full day or more.
pub open spec fn tz_ok(t: Seq<char>) -> bool {
    &&& tz_digits(t).len() > 0
    &&& (forall|i: int| 0 <= i < tz_digits(t).len() ==> is_digit(#[trigger] tz_digits(t)[i]))
    &&& -23 <= tz_value(t) <= 23
}

/// Every time-zone token in the list is usable.
pub open spec fn all_tz_ok(toks: Seq<Seq<char>>) -> bool {
    forall|k: int|
        0 <= k < toks.len() && is_tz_tok(#[trigger] toks[k]) ==> tz_ok(toks[k].skip(1))
}

/// A configuration that lets the process start: every time-zone token
/// usable, at least one credential, and a non-empty chat identifier.
pub open spec fn config_ok(toks: Seq<Seq<char>>) -> bool {
    &&& all_tz_ok(toks)
    &&& creds_of(toks).len() > 0
    &&& chat_of(toks) is Some
    &&& chat_of(toks)->0.len() > 0
}

/// The startup configuration: the credential tokens in file order, the
/// chat identifier, and the optional whole-hour time-zone override.
#[derive(Debug)]
pub struct Config {
    /// The `credential:token` entries, one endpoint each, in file order.
    pub creds: Vec<String>,
    /// The target chat identifier, without its `#` marker.
    pub chat_id: String,
    /// The display time-zone override in hours east, if any was given.
    pub tz_hours: Option<i64>,
}

/// Why a configuration cannot start the process.
#[derive(Clone, Copy, Debug, PartialEq, Eq, Structural)]
pub enum ConfigError {
    /// A time-zone token is not a signed whole-hour offset, or is out
    /// of range.
    BadTimezone,
    /// No credential token at all.
    NoCredentials,
    /// No chat identifier, or an empty one.
    NoChat,
}

/// A digit string has a non-negative value.
proof fn lemma_digits_val_nonneg(t: Seq<char>)
    requires
        forall|i: int| 0 <= i < t.len() ==> is_digit(#[trigger] t[i]),
    ensures
        digits_val(t) >= 0,
    decreases t.len(),
{
    if t.len() > 0 {
        lemma_digits_val_nonneg(t.drop_last());
    }
}

/// Extending a digit string never shrinks its value.
proof fn lemma_digits_val_prefix(t: Seq<char>, k: int)
    requires
        forall|i: int| 0 <= i < t.len() ==> is_digit(#[trigger] t[i]),
        0 <= k <= t.len(),
    ensures
        digits_val(t.take(k)) <= digits_val(t),
    decreases t.len() - k,
{
    if k == t.len() {
        assert(t.take(k) =~= t);
    } else {
        assert(t.take(k + 1).drop_last() =~= t.take(k));
        lemma_digits_val_nonneg(t.take(k));
        lemma_digits_val_prefix(t, k + 1);
    }
}

/// A token is exactly the leading non-space run that ends the text or
/// meets a space.
proof fn lemma_token_len(t: Seq<char>, k: int)
    requires
        0 <= k <= t.len(),
        forall|m: int| 0 <= m < k ==> !is_space(#[trigger] t[m]),
        k == t.len() || is_space(t[k]),
    ensures
        token_len(t) == k,
    decreases k,
{
    if k > 0 {
        lemma_token_len(t.drop_first(), k - 1);
    }
}

/// Splits the text at ASCII whitespace into its tokens, in order.
pub fn tokenize(s: &str) -> (v: Vec<String>)
    ensures
        views(v@) == split_ws(s@),
{
    let n = s.unicode_len();
    let mut v: Vec<String> = Vec::new();
    let mut i: usize = 0;
    proof {
        assert(s@.skip(0) =~= s@);
        assert(views(v@) =~= Seq::<Seq<char>>::empty());
        assert(views(v@) + split_ws(s@.skip(0)) =~= split_ws(s@));
    }
    while i < n
        invariant
            n == s@.len(),
            i <= n,
            views(v@) + split_ws(s@.skip(i as int)) =~= split_ws(s@),
        decreases n - i,
    {
        let c = s.get_char(i);
        if c == ' ' || c == '\n' || c == '\t' || c == '\r' {
            proof {
                assert(s@.skip(i as int).drop_first() =~= s@.skip(i as int + 1));
            }
            i = i + 1;
        } else {
            let mut j: usize = i;
            loop
                invariant
                    n == s@.len(),
                    i <= j <= n,
                    forall|m: int| i <= m < j ==> !is_space(#[trigger] s@[m]),
                ensures
                    i <= j <= n,
                    forall|m: int| i <= m < j ==> !is_space(#[trigger] s@[m]),
                    j == n || is_space(s@[j as int]),
                decreases n - j,
            {
                if j >= n {
                    break ;
                }
                let c2 = s.get_char(j);
                if c2 == ' ' || c2 == '\n' || c2 == '\t' || c2 == '\r' {
                    break ;
                }
                j = j + 1;
            }
            proof {
                let t = s@.skip(i as int);
                assert forall|m: int| 0 <= m < j - i implies !is_space(#[trigger] t[m]) by {
                    assert(t[m] == s@[i + m]);
                }
                if j < n {
                    assert(t[j - i] == s@[j as int]);
                }
                lemma_token_len(t, j - i);
                assert(t.take(j - i) =~= s@.subrange(i as int, j as int));
                assert(t.skip(j - i) =~= s@.skip(j as int));
            }
            let tok = s.substring_char(i, j).to_owned();
            let ghost prev = views(v@);
            v.push(tok);
            proof {
                assert(views(v@) =~= prev.push(s@.subrange(i as int, j as int)));
                assert(views(v@) + split_ws(s@.skip(j as int)) =~= split_ws(s@));
            }
            i = j;
        }
    }
    proof {
        assert(s@.skip(n as int) =~= Seq::<char>::empty());
        assert(views(v@) =~= split_ws(s@));
    }
    v
}

/// Scans a token for a colon.
fn token_has_colon(t: &str) -> (b: bool)
    ensures
        b == has_colon(t@),
{
    let n = t.unicode_len();
    let mut i: usize = 0;
    while i < n
        invariant
            n == t@.len(),
            i <= n,
            forall|j: int| 0 <= j < i ==> t@[j] != ':',
        decreases n - i,
    {
        if t.get_char(i) == ':' {
            return true;
        }
        i = i + 1;
    }
    false
}

/// Parses a time-zone body into its hour offset; `None` exactly when the
/// body is not a usable offset.
fn parse_tz_body(body: &str) -> (r: Option<i64>)
    ensures
        r is Some <==> tz_ok(body@),
        r is Some ==> r->0 == tz_value(body@),
{
    let n = body.unicode_len();
    let mut start: usize = 0;
    let mut neg = false;
    if n > 0 {
        let c0 = body.get_char(0);
        if c0 == '+' {
            start = 1;
        } else if c0 == '-' {
            neg = true;
            start = 1;
        }
    }
    proof {
        if start == 0 {
            assert(tz_digits(body@) =~= body@.skip(0));
            assert(body@.skip(0) =~= body@);
        } else {
            assert(tz_digits(body@) =~= body@.skip(1));
        }
    }
    let ghost digs = tz_digits(body@);
    if start >= n {
        return None;
    }
    let mut acc: i64 = 0;
    let mut j: usize = start;
    while j < n
        invariant
            n == body@.len(),
            start <= j <= n,
            start < n,
            digs == tz_digits(body@),
            digs.len() == n - start,
            forall|m: int| start <= m < n ==> digs[m - start] == body@[m],
            forall|m: int| 0 <= m < j - start ==> is_digit(#[trigger] digs[m]),
            0 <= acc <= 23,
            acc == digits_val(digs.take(j - start)),
        decreases n - j,
    {
        let c = body.get_char(j);
        let u = c as u32;
        if u < 48 || u > 57 {
            return None;
        }
        let d = (u - 48) as i64;
        proof {
            assert(digs.take(j + 1 - start).drop_last() =~= digs.take(j - start));
        }
        if acc > 2 || acc * 10 + d > 23 {
            proof {
                assert(digits_val(digs.take(j + 1 - start)) > 23);
                if tz_ok(body@) {
                    lemma_digits_val_prefix(digs, j + 1 - start);
                    lemma_digits_val_nonneg(digs);
                }
            }
            return None;
        }
        acc = acc * 10 + d;
        j = j + 1;
    }
    proof {
        assert(digs.take(n - start) =~= digs);
    }
    if neg {
        Some(-acc)
    } else {
        Some(acc)
    }
}

/// Reads the whole configuration text. On success the credentials come
/// in file order, the chat identifier is the last one named, and the
/// time-zone override is the last one named, if any. The errors come in
/// the order startup would hit them: a bad time-zone token first, then
/// missing credentials, then a missing or empty chat identifier.
pub fn parse_config(s: &str) -> (r: Result<Config, ConfigError>)
    ensures
        r is Ok <==> config_ok(split_ws(s@)),
        r is Ok ==> views(r->Ok_0.creds@) == creds_of(split_ws(s@)),
        r is Ok ==> r->Ok_0.chat_id@ == chat_of(split_ws(s@))->0,
        r is Ok ==> r->Ok_0.tz_hours == (match tz_tok_of(split_ws(s@)) {
            Option::None => Option::<i64>::None,
            Option::Some(b) => Option::Some(tz_value(b) as i64),
        }),
        !all_tz_ok(split_ws(s@)) ==> r is Err && r->Err_0 == ConfigError::BadTimezone,
        all_tz_ok(split_ws(s@)) && creds_of(split_ws(s@)).len() == 0 ==> r is Err && r->Err_0
            == ConfigError::NoCredentials,
        all_tz_ok(split_ws(s@)) && creds_of(split_ws(s@)).len() > 0 && !config_ok(split_ws(s@))
            ==> r is Err && r->Err_0 == ConfigError::NoChat,
{
    let toks = tokenize(s);
    let ghost tseq = split_ws(s@);
    let mut creds: Vec<String> = Vec::new();
    let mut chat: Option<String> = None;
    let mut tz: Option<i64> = None;
    let mut k: usize = 0;
    proof {
        assert(tseq.take(0) =~= Seq::<Seq<char>>::empty());
        assert(views(creds@) =~= creds_of(tseq.take(0)));
    }
    while k < toks.len()
        invariant
            tseq == split_ws(s@),
            views(toks@) == tseq,
            k <= toks@.len(),
            all_tz_ok(tseq.take(k as int)),
            views(creds@) == creds_of(tseq.take(k as int)),
            chat is Some <==> chat_of(tseq.take(k as int)) is Some,
            chat is Some ==> chat->0@ == chat_of(tseq.take(k as int))->0,
            tz == (match tz_tok_of(tseq.take(k as int)) {
                Option::None => Option::<i64>::None,
                Option::Some(b) => Option::Some(tz_value(b) as i64),
            }),
        decreases toks@.len() - k,
    {
        proof {
            assert(tseq.take(k as int + 1).drop_last() =~= tseq.take(k as int));
            assert(tseq.take(k as int + 1).last() == tseq[k as int]);
        }
        let t = &toks[k];
        proof {
            assert(views(toks@)[k as int] == toks@[k as int]@);
            assert(t@ == tseq[k as int]);
        }
        let n = t.as_str().unicode_len();
        if n > 0 && t.as_str().get_char(0) == '#' {
            let body = t.as_str().substring_char(1, n).to_owned();
            proof {
                assert(body@ =~= tseq[k as int].skip(1));
            }
            chat = Some(body);
        } else if n > 0 && t.as_str().get_char(0) == 'T' {
            let body = t.as_str().substring_char(1, n);
            proof {
                assert(body@ =~= tseq[k as int].skip(1));
            }
            match parse_tz_body(body) {
                Some(hours) => {
                    tz = Some(hours);
                },
                None => {
                    proof {
                        assert(is_tz_tok(tseq[k as int]));
                        assert(!all_tz_ok(tseq));
                    }
                    return Err(ConfigError::BadTimezone);
                },
            }
        } else {
            if token_has_colon(t.as_str()) {
                let ghost prev = views(creds@);
                let tok = t.clone();
                creds.push(tok);
                proof {
                    assert(views(creds@) =~= prev.push(tseq[k as int]));
                }
            }
        }
        proof {
            assert forall|m: int|
                0 <= m < tseq.take(k as int + 1).len() && is_tz_tok(
                    #[trigger] tseq.take(k as int + 1)[m],
                ) implies tz_ok(tseq.take(k as int + 1)[m].skip(1)) by {
                if m < k as int {
                    assert(tseq.take(k as int)[m] == tseq.take(k as int + 1)[m]);
                }
            }
        }
        k = k + 1;
    }
    proof {
        assert(tseq.take(toks@.len() as int) =~= tseq);
    }
    if creds.len() == 0 {
        return Err(ConfigError::NoCredentials);
    }
    match chat {
        None => Err(ConfigError::NoChat),
        Some(c) => {
            if c.as_str().unicode_len() == 0 {
                Err(ConfigError::NoChat)
            } else {
                Ok(Config { creds, chat_id: c, tz_hours: tz })
            }
        },
    }
}

/// The time-zone offset in seconds east for a whole-hour override.
pub fn tz_offset_secs(hours: i64) -> (r: i64)
    requires
        -23 <= hours <= 23,
    ensures
        r == hours * 3600,
{
    hours * 3600
}

} // verus!
