//! Search text normalization for the track catalog: folds titles, artists
//! and other tag fragments into a canonical lower-case ASCII form so that
//! full-text lookups match regardless of accents, punctuation and spacing.
//!
//! A fragment is first decomposed (compatibility decomposition), then every
//! ASCII letter or digit is kept lower-cased, every run of punctuation,
//! whitespace or control characters becomes a single space, and everything
//! else — combining marks, non-ASCII symbols — is dropped.

use vstd::prelude::*;
use vstd::string::StringExecFns;
use unicode_normalization::UnicodeNormalization;

verus! {

/// The compatibility decomposition (NFKD) of a character sequence.
pub uninterp spec fn nfkd_of(s: Seq<char>) -> Seq<char>;

/// Relies on `unicode_normalization::UnicodeNormalization::nfkd`: the
/// compatibility decomposition of a string is a function of its characters
/// alone, and an empty string decomposes to an empty sequence.
#[verifier::external_body]
fn nfkd_chars(s: &str) -> (r: Vec<char>)
    ensures
        r@ == nfkd_of(s@),
        s@.len() == 0 ==> r@.len() == 0,
{
    s.nfkd().collect()
}

/// Relies on `String: FromIterator<char>`: collecting characters yields
/// the string of exactly those characters, in order.
#[verifier::external_body]
fn chars_to_string(cs: &Vec<char>) -> (r: String)
    ensures
        r@ == cs@,
{
    cs.iter().collect()
}

/// An ASCII letter or digit: the characters a normalized fragment keeps.
pub open spec fn spec_is_ascii_alphanumeric(c: char) -> bool {
    ||| '0' as int <= c as int <= '9' as int
    ||| 'a' as int <= c as int <= 'z' as int
    ||| 'A' as int <= c as int <= 'Z' as int
}

/// An ASCII punctuation character: `!`..`/`, `:`..`@`, `[`..`` ` ``,
/// `{`..`~`.
pub open spec fn spec_is_ascii_punctuation(c: char) -> bool {
    ||| 33 <= c as int <= 47
    ||| 58 <= c as int <= 64
    ||| 91 <= c as int <= 96
    ||| 123 <= c as int <= 126
}

/// An ASCII control character: `0x00`..`0x1F` and `0x7F`.
pub open spec fn spec_is_ascii_control(c: char) -> bool {
    c as int <= 31 || c as int == 127
}

/// A character with the Unicode `White_Space` property.
pub open spec fn spec_is_unicode_whitespace(c: char) -> bool {
    ||| 9 <= c as int <= 13
    ||| c as int == 32
    ||| c as int == 133
    ||| c as int == 160
    ||| c as int == 5760
    ||| 8192 <= c as int <= 8202
    ||| c as int == 8232
    ||| c as int == 8233
    ||| c as int == 8239
    ||| c as int == 8287
    ||| c as int == 12288
}

/// A character a normalized fragment turns into a space: ASCII
/// punctuation, whitespace, or an ASCII control character.
pub open spec fn spec_is_separator(c: char) -> bool {
    spec_is_ascii_punctuation(c) || spec_is_unicode_whitespace(c) || spec_is_ascii_control(c)
}

/// The ASCII lower-case mapping: `A`..`Z` shift down, all else unchanged.
pub open spec fn spec_to_ascii_lower(c: char) -> char {
    if 'A' as int <= c as int <= 'Z' as int {
        ((c as int) + 32) as char
    } else {
        c
    }
}

/// Lower-cases one ASCII letter; other characters pass unchanged.
fn to_ascii_lower(c: char) -> (r: char)
    ensures
        r == spec_to_ascii_lower(c),
{
    let u: u32 = c as u32;
    if 65 <= u && u <= 90 {
        ((u as u8) + 32) as char
    } else {
        c
    }
}

/// Whether the fragment fold keeps this character (lower-cased).
fn is_kept(c: char) -> (r: bool)
    ensures
        r == spec_is_ascii_alphanumeric(c),
{
    let u: u32 = c as u32;
    (48 <= u && u <= 57) || (97 <= u && u <= 122) || (65 <= u && u <= 90)
}

/// Whether the fragment fold turns this character into a space.
fn is_separator(c: char) -> (r: bool)
    ensures
        r == spec_is_separator(c),
{
    let u: u32 = c as u32;
    (33 <= u && u <= 47) || (58 <= u && u <= 64) || (91 <= u && u <= 96)
        || (123 <= u && u <= 126) || (9 <= u && u <= 13) || u == 32 || u == 133 || u == 160
        || u == 5760 || (8192 <= u && u <= 8202) || u == 8232 || u == 8233 || u == 8239
        || u == 8287 || u == 12288 || u <= 31 || u == 127
}

/// The fragment fold over already-decomposed characters: ASCII letters and
/// digits are kept lower-cased, separators collapse into single spaces
/// (never leading), and all other characters are dropped.
pub open spec fn spec_fold_chars(cs: Seq<char>) -> Seq<char>
    decreases cs.len(),
{
    if cs.len() == 0 {
        Seq::empty()
    } else {
        let prev = spec_fold_chars(cs.drop_last());
        let c = cs.last();
        if spec_is_ascii_alphanumeric(c) {
            prev.push(spec_to_ascii_lower(c))
        } else if spec_is_separator(c) {
            if prev.len() == 0 || prev.last() == ' ' {
                prev
            } else {
                prev.push(' ')
            }
        } else {
            prev
        }
    }
}

/// A fully normalized fragment: the fold of the compatibility
/// decomposition, with the at most one trailing space removed.
pub open spec fn spec_normalize_fragment(s: Seq<char>) -> Seq<char> {
    let folded = spec_fold_chars(nfkd_of(s));
    if folded.len() > 0 && folded.last() == ' ' {
        folded.drop_last()
    } else {
        folded
    }
}

/// Normalizes one text fragment for search: compatibility-decomposed,
/// lower-cased ASCII letters and digits kept, punctuation and whitespace
/// collapsed to single interior spaces, everything else dropped.
pub fn normalize_fragment(value: &str) -> (r: String)
    ensures
        r@ == spec_normalize_fragment(value@),
{
    let decomposed = nfkd_chars(value);
    let ghost whole: Seq<char> = decomposed@;
    let mut out: Vec<char> = Vec::new();
    let mut i: usize = 0;
    while i < decomposed.len()
        invariant
            i <= decomposed.len(),
            whole == decomposed@,
            out@ == spec_fold_chars(whole.subrange(0, i as int)),
        decreases decomposed.len() - i,
    {
        let c = decomposed[i];
        proof {
            assert(whole.subrange(0, i + 1).drop_last() == whole.subrange(0, i as int));
            assert(whole.subrange(0, i + 1).last() == whole[i as int]);
        }
        if is_kept(c) {
            out.push(to_ascii_lower(c));
        } else if is_separator(c) {
            if out.len() > 0 {
                let last = out[out.len() - 1];
                if last != ' ' {
                    out.push(' ');
                }
            }
        }
        i += 1;
    }
    proof {
        assert(whole.subrange(0, whole.len() as int) == whole);
    }
    if out.len() > 0 {
        let last = out[out.len() - 1];
        if last == ' ' {
            out.pop();
        }
    }
    chars_to_string(&out)
}

/// Non-empty fragments joined with single spaces; empty fragments
/// contribute nothing, not even a space.
pub open spec fn spec_space_join(frags: Seq<Seq<char>>) -> Seq<char>
    decreases frags.len(),
{
    if frags.len() == 0 {
        Seq::empty()
    } else {
        let prev = spec_space_join(frags.drop_last());
        let f = frags.last();
        if f.len() == 0 {
            prev
        } else if prev.len() == 0 {
            f
        } else {
            prev + seq![' '] + f
        }
    }
}

/// Appends a fragment to a space-joined accumulator exactly as
/// [`spec_space_join`] does: nothing for an empty fragment, no leading
/// space for the first one.
fn append_joined(out: &mut String, fragment: &str)
    ensures
        final(out)@ == ({
            if fragment@.len() == 0 {
                old(out)@
            } else if old(out)@.len() == 0 {
                fragment@
            } else {
                old(out)@ + seq![' '] + fragment@
            }
        }),
{
    proof {
        reveal_strlit(" ");
    }
    if fragment.unicode_len() == 0 {
        return ;
    }
    if out.as_str().unicode_len() > 0 {
        out.append(" ");
        proof {
            assert(" "@ =~= seq![' ']);
        }
    }
    out.append(fragment);
}

/// Joins the normalizations of the given fragments with single spaces,
/// skipping fragments that normalize to nothing.
pub fn normalize_search_text(parts: &[&str]) -> (r: String)
    ensures
        r@ == spec_space_join(
            parts@.map_values(|p: &str| spec_normalize_fragment(p@)),
        ),
{
    let ghost normalized: Seq<Seq<char>> = parts@.map_values(
        |p: &str| spec_normalize_fragment(p@),
    );
    let mut out = String::new();
    let mut i: usize = 0;
    while i < parts.len()
        invariant
            i <= parts.len(),
            normalized == parts@.map_values(|p: &str| spec_normalize_fragment(p@)),
            normalized.len() == parts@.len(),
            out@ == spec_space_join(normalized.subrange(0, i as int)),
        decreases parts.len() - i,
    {
        let piece = normalize_fragment(parts[i]);
        proof {
            assert(normalized.subrange(0, i + 1).drop_last() == normalized.subrange(0, i as int));
            assert(normalized.subrange(0, i + 1).last() == normalized[i as int]);
        }
        append_joined(&mut out, piece.as_str());
        i += 1;
    }
    proof {
        assert(normalized.subrange(0, normalized.len() as int) == normalized);
    }
    out
}

/// An ASCII whitespace character: tab, line feed, form feed, carriage
/// return, or space.
pub open spec fn spec_is_ascii_space(c: char) -> bool {
    c as int == 9 || c as int == 10 || c as int == 12 || c as int == 13 || c as int == 32
}

/// An ASCII decimal digit.
pub open spec fn spec_is_ascii_digit(c: char) -> bool {
    '0' as int <= c as int <= '9' as int
}

/// The first index at or after `i` that does not hold ASCII whitespace.
pub open spec fn spec_skip_spaces(s: Seq<char>, i: int) -> int
    decreases s.len() - i,
    when 0 <= i <= s.len()
{
    if i < s.len() && spec_is_ascii_space(s[i]) {
        spec_skip_spaces(s, i + 1)
    } else {
        i
    }
}

/// The first index at or after `i` that does not hold an ASCII digit.
pub open spec fn spec_skip_digits(s: Seq<char>, i: int) -> int
    decreases s.len() - i,
    when 0 <= i <= s.len()
{
    if i < s.len() && spec_is_ascii_digit(s[i]) {
        spec_skip_digits(s, i + 1)
    } else {
        i
    }
}

proof fn lemma_skip_spaces_bounds(s: Seq<char>, i: int)
    requires
        0 <= i <= s.len(),
    ensures
        i <= spec_skip_spaces(s, i) <= s.len(),
    decreases s.len() - i,
{
    if i < s.len() && spec_is_ascii_space(s[i]) {
        lemma_skip_spaces_bounds(s, i + 1);
    }
}

proof fn lemma_skip_digits_bounds(s: Seq<char>, i: int)
    requires
        0 <= i <= s.len(),
    ensures
        i <= spec_skip_digits(s, i) <= s.len(),
    decreases s.len() - i,
{
    if i < s.len() && spec_is_ascii_digit(s[i]) {
        lemma_skip_digits_bounds(s, i + 1);
    }
}

fn is_ascii_space_char(c: char) -> (r: bool)
    ensures
        r == spec_is_ascii_space(c),
{
    let u: u32 = c as u32;
    u == 9 || u == 10 || u == 12 || u == 13 || u == 32
}

fn is_ascii_digit_char(c: char) -> (r: bool)
    ensures
        r == spec_is_ascii_digit(c),
{
    let u: u32 = c as u32;
    48 <= u && u <= 57
}

/// Advances over ASCII whitespace starting at `from`.
fn skip_ascii_spaces(value: &str, from: usize) -> (r: usize)
    requires
        from <= value@.len(),
    ensures
        r == spec_skip_spaces(value@, from as int),
        from <= r <= value@.len(),
{
    let n = value.unicode_len();
    let mut i = from;
    loop
        invariant
            from <= i <= n,
            n == value@.len(),
            spec_skip_spaces(value@, from as int) == spec_skip_spaces(value@, i as int),
        ensures
            i == spec_skip_spaces(value@, from as int),
        decreases n - i,
    {
        if i >= n {
            break ;
        }
        if !is_ascii_space_char(value.get_char(i)) {
            break ;
        }
        i += 1;
    }
    i
}

/// Advances over ASCII digits starting at `from`.
fn skip_ascii_digits(value: &str, from: usize) -> (r: usize)
    requires
        from <= value@.len(),
    ensures
        r == spec_skip_digits(value@, from as int),
        from <= r <= value@.len(),
{
    let n = value.unicode_len();
    let mut i = from;
    loop
        invariant
            from <= i <= n,
            n == value@.len(),
            spec_skip_digits(value@, from as int) == spec_skip_digits(value@, i as int),
        ensures
            i == spec_skip_digits(value@, from as int),
        decreases n - i,
    {
        if i >= n {
            break ;
        }
        if !is_ascii_digit_char(value.get_char(i)) {
            break ;
        }
        i += 1;
    }
    i
}

/// What stripping a leading track number leaves: when the text starts
/// with optional whitespace, then digits, then optional whitespace, then
/// one of `-`, `.` or `_`, everything through that delimiter and any
/// whitespace after it goes; in every other shape the text is unchanged.
pub open spec fn spec_strip_leading_track_number(s: Seq<char>) -> Seq<char> {
    let ws = spec_skip_spaces(s, 0);
    let digits_end = spec_skip_digits(s, ws);
    if digits_end == ws {
        s
    } else {
        let after = spec_skip_spaces(s, digits_end);
        if after < s.len() && (s[after] == '-' || s[after] == '.' || s[after] == '_') {
            s.subrange(spec_skip_spaces(s, after + 1), s.len() as int)
        } else {
            s
        }
    }
}

/// Strips a leading track number such as `01 - ` or `3.` from a title;
/// titles that do not start with a number followed by a delimiter pass
/// through unchanged.
pub fn strip_leading_track_number(value: &str) -> (r: &str)
    ensures
        r@ == spec_strip_leading_track_number(value@),
{
    let n = value.unicode_len();
    let ws = skip_ascii_spaces(value, 0);
    let digits_end = skip_ascii_digits(value, ws);
    if digits_end == ws {
        return value;
    }
    let after = skip_ascii_spaces(value, digits_end);
    if after < n {
        let c = value.get_char(after);
        let u: u32 = c as u32;
        if u == 45 || u == 46 || u == 95 {
            proof {
                assert(c == '-' || c == '.' || c == '_');
            }
            let start = skip_ascii_spaces(value, after + 1);
            return value.substring_char(start, n);
        }
    }
    proof {
        assert(!(after < value@.len() && (value@[after as int] == '-'
            || value@[after as int] == '.' || value@[after as int] == '_')));
    }
    value
}

/// The first index at or after `i` that does not hold Unicode whitespace.
pub open spec fn spec_skip_uws(s: Seq<char>, i: int) -> int
    decreases s.len() - i,
    when 0 <= i <= s.len()
{
    if i < s.len() && spec_is_unicode_whitespace(s[i]) {
        spec_skip_uws(s, i + 1)
    } else {
        i
    }
}

/// The first index at or before `j` such that no Unicode whitespace
/// stands immediately before it.
pub open spec fn spec_rskip_uws(s: Seq<char>, j: int) -> int
    decreases j,
    when 0 <= j <= s.len()
{
    if j > 0 && spec_is_unicode_whitespace(s[j - 1]) {
        spec_rskip_uws(s, j - 1)
    } else {
        j
    }
}

proof fn lemma_skip_uws_bounds(s: Seq<char>, i: int)
    requires
        0 <= i <= s.len(),
    ensures
        i <= spec_skip_uws(s, i) <= s.len(),
    decreases s.len() - i,
{
    if i < s.len() && spec_is_unicode_whitespace(s[i]) {
        lemma_skip_uws_bounds(s, i + 1);
    }
}

proof fn lemma_rskip_uws_bounds(s: Seq<char>, j: int)
    requires
        0 <= j <= s.len(),
    ensures
        0 <= spec_rskip_uws(s, j) <= j,
    decreases j,
{
    if j > 0 && spec_is_unicode_whitespace(s[j - 1]) {
        lemma_rskip_uws_bounds(s, j - 1);
    }
}

/// A sequence with its leading and trailing Unicode whitespace removed.
pub open spec fn spec_trim(t: Seq<char>) -> Seq<char> {
    let start = spec_skip_uws(t, 0);
    let end = spec_rskip_uws(t, t.len() as int);
    if start < end {
        t.subrange(start, end)
    } else {
        Seq::empty()
    }
}

fn is_unicode_ws_char(c: char) -> (r: bool)
    ensures
        r == spec_is_unicode_whitespace(c),
{
    let u: u32 = c as u32;
    (9 <= u && u <= 13) || u == 32 || u == 133 || u == 160 || u == 5760
        || (8192 <= u && u <= 8202) || u == 8232 || u == 8233 || u == 8239 || u == 8287
        || u == 12288
}

/// The trimmed chunk `s[a..b]` as a token list: a single token when the
/// trim leaves anything, nothing otherwise.
pub open spec fn spec_chunk_tokens(s: Seq<char>, a: int, b: int) -> Seq<Seq<char>> {
    let t = spec_trim(s.subrange(a, b));
    if t.len() > 0 {
        seq![t]
    } else {
        Seq::empty()
    }
}

/// Trims the chunk `value[a..b]` and appends it to the token list when
/// anything remains.
fn push_trimmed_chunk<'a>(tokens: &mut Vec<&'a str>, value: &'a str, a: usize, b: usize)
    requires
        a <= b <= value@.len(),
    ensures
        final(tokens).deep_view() == old(tokens).deep_view() + spec_chunk_tokens(
            value@,
            a as int,
            b as int,
        ),
{
    let ghost chunk = value@.subrange(a as int, b as int);
    proof {
        lemma_skip_uws_bounds(chunk, 0);
        lemma_rskip_uws_bounds(chunk, chunk.len() as int);
    }
    let len: usize = b - a;
    let mut start_off: usize = 0;
    loop
        invariant
            0 <= start_off <= len,
            a <= b <= value@.len(),
            len == b - a,
            chunk == value@.subrange(a as int, b as int),
            spec_skip_uws(chunk, 0) == spec_skip_uws(chunk, start_off as int),
        ensures
            start_off == spec_skip_uws(chunk, 0),
            start_off == spec_skip_uws(chunk, start_off as int),
            chunk == value@.subrange(a as int, b as int),
            len == b - a,
        decreases len - start_off,
    {
        if start_off >= len {
            break ;
        }
        let c = value.get_char(a + start_off);
        proof {
            assert(chunk[start_off as int] == value@[a + start_off]);
        }
        if !is_unicode_ws_char(c) {
            break ;
        }
        start_off += 1;
    }
    proof {
        if start_off < len && spec_is_unicode_whitespace(chunk[start_off as int]) {
            lemma_skip_uws_bounds(chunk, start_off + 1);
            assert(false);
        }
    }
    if start_off == len {
        proof {
            lemma_rskip_uws_bounds(chunk, chunk.len() as int);
            assert(spec_trim(chunk).len() == 0);
            assert(tokens.deep_view() =~= tokens.deep_view() + spec_chunk_tokens(
                value@, a as int, b as int));
        }
        return ;
    }
    let mut end_off: usize = len;
    loop
        invariant
            start_off < end_off <= len,
            a <= b <= value@.len(),
            len == b - a,
            chunk == value@.subrange(a as int, b as int),
            start_off == spec_skip_uws(chunk, 0),
            !spec_is_unicode_whitespace(chunk[start_off as int]),
            spec_rskip_uws(chunk, len as int) == spec_rskip_uws(chunk, end_off as int),
        ensures
            end_off == spec_rskip_uws(chunk, len as int),
            start_off < end_off <= len,
            chunk == value@.subrange(a as int, b as int),
            len == b - a,
        decreases end_off,
    {
        let c = value.get_char(a + end_off - 1);
        proof {
            assert(chunk[end_off - 1] == value@[a + end_off - 1]);
        }
        if !is_unicode_ws_char(c) {
            break ;
        }
        end_off -= 1;
    }
    let token = value.substring_char(a + start_off, a + end_off);
    proof {
        assert(token@ =~= chunk.subrange(start_off as int, end_off as int));
        assert(spec_trim(chunk) == chunk.subrange(start_off as int, end_off as int));
    }
    tokens.push(token);
    proof {
        assert(final(tokens).deep_view() =~= old(tokens).deep_view() + spec_chunk_tokens(
            value@, a as int, b as int));
    }
}

/// The word ` feat ` as characters.
pub open spec fn spec_feat_pat() -> Seq<char> {
    seq![' ', 'f', 'e', 'a', 't', ' ']
}

/// The word ` ft ` as characters.
pub open spec fn spec_ft_pat() -> Seq<char> {
    seq![' ', 'f', 't', ' ']
}

/// The word ` featuring ` as characters.
pub open spec fn spec_featuring_pat() -> Seq<char> {
    seq![' ', 'f', 'e', 'a', 't', 'u', 'r', 'i', 'n', 'g', ' ']
}

/// Whether `pat` occurs at position `i` of `s` when `s` is compared
/// ASCII-case-insensitively.
pub open spec fn spec_lower_matches_at(s: Seq<char>, i: int, pat: Seq<char>) -> bool {
    &&& i + pat.len() <= s.len()
    &&& forall|k: int| 0 <= k < pat.len() ==> spec_to_ascii_lower(s[i + k]) == pat[k]
}

/// Tests `pat` at position `i` of `value`, lower-casing ASCII letters of
/// `value` before comparing.
fn lower_matches_at(value: &str, i: usize, pat: &Vec<char>) -> (r: bool)
    requires
        i <= value@.len(),
    ensures
        r == spec_lower_matches_at(value@, i as int, pat@),
{
    let n = value.unicode_len();
    if pat.len() > n - i {
        return false;
    }
    let mut k: usize = 0;
    while k < pat.len()
        invariant
            k <= pat@.len(),
            i + pat@.len() <= value@.len(),
            n == value@.len(),
            forall|j: int| 0 <= j < k ==> spec_to_ascii_lower(value@[i + j]) == pat@[j],
        decreases pat@.len() - k,
    {
        if to_ascii_lower(value.get_char(i + k)) != pat[k] {
            return false;
        }
        k += 1;
    }
    true
}

/// The length of the artist-list delimiter starting at position `i` of
/// `s`: one of the separator characters `&`, `,`, `;`, or one of the
/// (case-insensitive) words ` feat `, ` ft `, ` featuring `; zero when no
/// delimiter starts here.
pub open spec fn spec_delim_len(s: Seq<char>, i: int) -> int {
    if i < s.len() && (s[i] == '&' || s[i] == ',' || s[i] == ';') {
        1
    } else if spec_lower_matches_at(s, i, spec_feat_pat()) {
        6
    } else if spec_lower_matches_at(s, i, spec_ft_pat()) {
        4
    } else if spec_lower_matches_at(s, i, spec_featuring_pat()) {
        11
    } else {
        0
    }
}

/// Measures the artist-list delimiter at position `i`, if any.
fn delim_len_at(value: &str, i: usize) -> (d: usize)
    requires
        i < value@.len(),
    ensures
        d == spec_delim_len(value@, i as int),
        i + d <= value@.len(),
{
    let c = value.get_char(i);
    let u: u32 = c as u32;
    if u == 38 || u == 44 || u == 59 {
        proof {
            assert(c == '&' || c == ',' || c == ';');
        }
        return 1;
    }
    proof {
        assert(!(value@[i as int] == '&' || value@[i as int] == ',' || value@[i as int] == ';'));
    }
    let feat: Vec<char> = vec![' ', 'f', 'e', 'a', 't', ' '];
    let ft: Vec<char> = vec![' ', 'f', 't', ' '];
    let featuring: Vec<char> = vec![' ', 'f', 'e', 'a', 't', 'u', 'r', 'i', 'n', 'g', ' '];
    proof {
        assert(feat@ =~= spec_feat_pat());
        assert(ft@ =~= spec_ft_pat());
        assert(featuring@ =~= spec_featuring_pat());
    }
    if lower_matches_at(value, i, &feat) {
        6
    } else if lower_matches_at(value, i, &ft) {
        4
    } else if lower_matches_at(value, i, &featuring) {
        11
    } else {
        0
    }
}

/// The artist tokens of `s[start..]`, scanning for the next delimiter
/// from position `i`: each delimiter ends a chunk, chunks are trimmed,
/// and empty chunks vanish.
pub open spec fn spec_split_from(s: Seq<char>, start: int, i: int) -> Seq<Seq<char>>
    decreases s.len() - i,
    when 0 <= start <= i <= s.len()
{
    if i >= s.len() {
        spec_chunk_tokens(s, start, s.len() as int)
    } else {
        let d = spec_delim_len(s, i);
        if d > 0 {
            spec_chunk_tokens(s, start, i) + spec_split_from(s, i + d, i + d)
        } else {
            spec_split_from(s, start, i + 1)
        }
    }
}

/// How an artist field splits into individual artist tokens: chunks
/// between delimiters, trimmed, empties dropped — and when nothing at all
/// remains, the whole field as the one token.
pub open spec fn spec_split_artist_tokens(s: Seq<char>) -> Seq<Seq<char>> {
    let toks = spec_split_from(s, 0, 0);
    if toks.len() == 0 {
        seq![s]
    } else {
        toks
    }
}

/// Splits an artist field on `&`, `,`, `;` and the words `feat`, `ft`,
/// `featuring` (case-insensitive, set off by spaces), trimming each token
/// and dropping empty ones. A field that yields no tokens at all comes
/// back whole as its own single token.
pub fn split_artist_tokens<'a>(value: &'a str) -> (tokens: Vec<&'a str>)
    ensures
        tokens.deep_view() == spec_split_artist_tokens(value@),
{
    let n = value.unicode_len();
    let mut tokens: Vec<&'a str> = Vec::new();
    let mut start: usize = 0;
    let mut i: usize = 0;
    while i < n
        invariant
            0 <= start <= i <= n,
            n == value@.len(),
            spec_split_from(value@, 0, 0) == tokens.deep_view() + spec_split_from(
                value@,
                start as int,
                i as int,
            ),
        decreases n - i,
    {
        let d = delim_len_at(value, i);
        if d > 0 {
            push_trimmed_chunk(&mut tokens, value, start, i);
            i += d;
            start = i;
        } else {
            i += 1;
        }
    }
    push_trimmed_chunk(&mut tokens, value, start, n);
    proof {
        assert(tokens.deep_view() =~= spec_split_from(value@, 0, 0));
    }
    if tokens.len() == 0 {
        proof {
            assert(spec_split_from(value@, 0, 0).len() == 0);
        }
        tokens.push(value);
        proof {
            assert(tokens.deep_view() =~= seq![value@]);
        }
    }
    tokens
}

/// The decimal digit character for a value in `0..=9`.
pub open spec fn spec_digit_char(d: int) -> char {
    (('0' as int) + d) as char
}

/// The decimal digits of a non-negative number, most significant first.
pub open spec fn spec_nat_decimal(n: int) -> Seq<char>
    decreases n,
    when n >= 0
{
    if n < 10 {
        seq![spec_digit_char(n)]
    } else {
        spec_nat_decimal(n / 10).push(spec_digit_char(n % 10))
    }
}

/// The decimal rendering of an integer, with a leading minus sign when
/// negative.
pub open spec fn spec_int_decimal(n: int) -> Seq<char> {
    if n < 0 {
        seq!['-'] + spec_nat_decimal(-n)
    } else {
        spec_nat_decimal(n)
    }
}

fn digit_char(d: u32) -> (c: char)
    requires
        d <= 9,
    ensures
        c == spec_digit_char(d as int),
{
    ((48 + d as u8) as u8) as char
}

fn push_nat_decimal(out: &mut Vec<char>, n: u32)
    ensures
        final(out)@ == old(out)@ + spec_nat_decimal(n as int),
    decreases n,
{
    if n < 10 {
        out.push(digit_char(n));
        proof {
            assert(final(out)@ =~= old(out)@ + spec_nat_decimal(n as int));
        }
    } else {
        proof {
            assert(n / 10 < n) by (nonlinear_arith)
                requires
                    n >= 10,
            ;
        }
        push_nat_decimal(out, n / 10);
        out.push(digit_char(n % 10));
        proof {
            assert(final(out)@ =~= old(out)@ + spec_nat_decimal(n as int));
        }
    }
}

/// Renders an integer in decimal, as catalog numbers such as years and
/// track numbers appear in search text.
pub fn int_to_decimal_string(n: i32) -> (r: String)
    ensures
        r@ == spec_int_decimal(n as int),
{
    let mut out: Vec<char> = Vec::new();
    let magnitude: u32 = if n < 0 {
        out.push('-');
        (-(n as i64)) as u32
    } else {
        n as u32
    };
    push_nat_decimal(&mut out, magnitude);
    proof {
        if n < 0 {
            assert(out@ =~= seq!['-'] + spec_nat_decimal(-(n as int)));
        }
    }
    chars_to_string(&out)
}

/// A normalized fragment appended to a value list when anything of it
/// remains.
pub open spec fn spec_push_normalized(values: Seq<Seq<char>>, v: Seq<char>) -> Seq<Seq<char>> {
    let n = spec_normalize_fragment(v);
    if n.len() == 0 {
        values
    } else {
        values.push(n)
    }
}

/// Every fragment of `parts`, in order, appended to `values` as
/// [`spec_push_normalized`] does.
pub open spec fn spec_push_all_normalized(
    values: Seq<Seq<char>>,
    parts: Seq<Seq<char>>,
) -> Seq<Seq<char>>
    decreases parts.len(),
{
    if parts.len() == 0 {
        values
    } else {
        spec_push_normalized(spec_push_all_normalized(values, parts.drop_last()), parts.last())
    }
}

/// Normalizes a fragment and appends it to the value list unless nothing
/// of it remains.
pub fn push_normalized(values: &mut Vec<String>, value: &str)
    ensures
        final(values).deep_view() == spec_push_normalized(old(values).deep_view(), value@),
{
    let normalized = normalize_fragment(value);
    if normalized.as_str().unicode_len() > 0 {
        values.push(normalized);
        proof {
            assert(final(values).deep_view() =~= spec_push_normalized(
                old(values).deep_view(), value@));
        }
    } else {
        proof {
            assert(final(values).deep_view() =~= spec_push_normalized(
                old(values).deep_view(), value@));
        }
    }
}

/// Normalizes every token of a split artist field into the value list.
fn push_artist_tokens(values: &mut Vec<String>, artist: &str)
    ensures
        final(values).deep_view() == spec_push_all_normalized(
            old(values).deep_view(),
            spec_split_artist_tokens(artist@),
        ),
{
    let tokens = split_artist_tokens(artist);
    let ghost toks: Seq<Seq<char>> = tokens.deep_view();
    let mut i: usize = 0;
    while i < tokens.len()
        invariant
            i <= tokens.deep_view().len(),
            toks == tokens.deep_view(),
            tokens.deep_view().len() == tokens@.len(),
            values.deep_view() == spec_push_all_normalized(
                old(values).deep_view(),
                toks.subrange(0, i as int),
            ),
        decreases tokens@.len() - i,
    {
        proof {
            assert(toks.subrange(0, i + 1).drop_last() == toks.subrange(0, i as int));
            assert(toks.subrange(0, i + 1).last() == toks[i as int]);
            assert(tokens[i as int]@ == toks[i as int]);
        }
        push_normalized(values, tokens[i]);
        i += 1;
    }
    proof {
        assert(toks.subrange(0, toks.len() as int) == toks);
    }
}

/// Normalizes every fragment of a list field into the value list.
fn push_fragment_list(values: &mut Vec<String>, fragments: &[&str])
    ensures
        final(values).deep_view() == spec_push_all_normalized(
            old(values).deep_view(),
            fragments.deep_view(),
        ),
{
    let ghost frags: Seq<Seq<char>> = fragments.deep_view();
    let mut i: usize = 0;
    while i < fragments.len()
        invariant
            i <= fragments.deep_view().len(),
            frags == fragments.deep_view(),
            fragments.deep_view().len() == fragments@.len(),
            values.deep_view() == spec_push_all_normalized(
                old(values).deep_view(),
                frags.subrange(0, i as int),
            ),
        decreases fragments@.len() - i,
    {
        proof {
            assert(frags.subrange(0, i + 1).drop_last() == frags.subrange(0, i as int));
            assert(frags.subrange(0, i + 1).last() == frags[i as int]);
            assert(fragments[i as int]@ == frags[i as int]);
        }
        push_normalized(values, fragments[i]);
        i += 1;
    }
    proof {
        assert(frags.subrange(0, frags.len() as int) == frags);
    }
}

/// Appends a catalog number in decimal to the value list.
fn push_decimal(values: &mut Vec<String>, n: i32)
    ensures
        final(values).deep_view() == old(values).deep_view().push(spec_int_decimal(n as int)),
{
    let rendered = int_to_decimal_string(n);
    values.push(rendered);
    proof {
        assert(final(values).deep_view() =~= old(values).deep_view().push(
            spec_int_decimal(n as int)));
    }
}

/// The tag fragments of one track that feed its search text.
#[derive(Debug, Default, Clone)]
pub struct TrackSearchParts<'a> {
    pub title: Option<&'a str>,
    pub artist: Option<&'a str>,
    pub album: Option<&'a str>,
    pub album_artist: Option<&'a str>,
    pub genres: Option<&'a [&'a str]>,
    pub comments: Option<&'a [&'a str]>,
    pub label: Option<&'a str>,
    pub filename: Option<&'a str>,
    pub year: Option<i32>,
    pub track_number: Option<i32>,
    pub disc_number: Option<i32>,
}

/// The ordered value list a track's search text is joined from: the title
/// with its leading track number stripped, each artist and album-artist
/// token, the album, the genres, the comments, the label and the file
/// name — each normalized, empties dropped — then year, track number and
/// disc number in decimal.
pub open spec fn spec_track_values<'a>(parts: TrackSearchParts<'a>) -> Seq<Seq<char>> {
    let v = Seq::<Seq<char>>::empty();
    let v = match parts.title {
        Some(t) => spec_push_normalized(v, spec_strip_leading_track_number(t@)),
        None => v,
    };
    let v = match parts.artist {
        Some(a) => spec_push_all_normalized(v, spec_split_artist_tokens(a@)),
        None => v,
    };
    let v = match parts.album_artist {
        Some(a) => spec_push_all_normalized(v, spec_split_artist_tokens(a@)),
        None => v,
    };
    let v = match parts.album {
        Some(a) => spec_push_normalized(v, a@),
        None => v,
    };
    let v = match parts.genres {
        Some(g) => spec_push_all_normalized(v, g.deep_view()),
        None => v,
    };
    let v = match parts.comments {
        Some(c) => spec_push_all_normalized(v, c.deep_view()),
        None => v,
    };
    let v = match parts.label {
        Some(l) => spec_push_normalized(v, l@),
        None => v,
    };
    let v = match parts.filename {
        Some(f) => spec_push_normalized(v, f@),
        None => v,
    };
    let v = match parts.year {
        Some(y) => v.push(spec_int_decimal(y as int)),
        None => v,
    };
    let v = match parts.track_number {
        Some(t) => v.push(spec_int_decimal(t as int)),
        None => v,
    };
    match parts.disc_number {
        Some(d) => v.push(spec_int_decimal(d as int)),
        None => v,
    }
}

/// Builds the search text of one track: every tag fragment normalized in
/// a fixed order and joined with single spaces; see
/// [`spec_track_values`].
pub fn normalize_track_search_text(parts: TrackSearchParts<'_>) -> (r: String)
    ensures
        r@ == spec_space_join(spec_track_values(parts)),
{
    let mut values: Vec<String> = Vec::new();
    proof {
        assert(values.deep_view() =~= Seq::<Seq<char>>::empty());
    }
    if let Some(title) = parts.title {
        let trimmed = strip_leading_track_number(title);
        push_normalized(&mut values, trimmed);
    }
    if let Some(artist) = parts.artist {
        push_artist_tokens(&mut values, artist);
    }
    if let Some(album_artist) = parts.album_artist {
        push_artist_tokens(&mut values, album_artist);
    }
    if let Some(album) = parts.album {
        push_normalized(&mut values, album);
    }
    if let Some(genres) = parts.genres {
        push_fragment_list(&mut values, genres);
    }
    if let Some(comments) = parts.comments {
        push_fragment_list(&mut values, comments);
    }
    if let Some(label) = parts.label {
        push_normalized(&mut values, label);
    }
    if let Some(filename) = parts.filename {
        push_normalized(&mut values, filename);
    }
    if let Some(year) = parts.year {
        push_decimal(&mut values, year);
    }
    if let Some(track_number) = parts.track_number {
        push_decimal(&mut values, track_number);
    }
    if let Some(disc_number) = parts.disc_number {
        push_decimal(&mut values, disc_number);
    }
    let ghost vals: Seq<Seq<char>> = values.deep_view();
    proof {
        assert(vals == spec_track_values(parts));
    }
    let mut out = String::new();
    let mut i: usize = 0;
    while i < values.len()
        invariant
            i <= values.deep_view().len(),
            vals == values.deep_view(),
            values.deep_view().len() == values@.len(),
            out@ == spec_space_join(vals.subrange(0, i as int)),
        decreases values@.len() - i,
    {
        proof {
            assert(vals.subrange(0, i + 1).drop_last() == vals.subrange(0, i as int));
            assert(vals.subrange(0, i + 1).last() == vals[i as int]);
            assert(values[i as int]@ == vals[i as int]);
        }
        append_joined(&mut out, values[i].as_str());
        i += 1;
    }
    proof {
        assert(vals.subrange(0, vals.len() as int) == vals);
    }
    out
}

} // verus!
