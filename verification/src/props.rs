//! Proofs about the model: facts the scanner's verification leans on, and
//! the laws of the pass stated as public proof functions.

use vstd::prelude::*;

use crate::diag::TokenisationErrorV;
use crate::model;
use crate::model::Cursor;
use crate::token::{TokenTypeV, TokenV};

verus! {

/// A run of decimal digits never has a negative value.
pub proof fn lemma_digits_value_nonneg(s: Seq<char>)
    requires
        forall|k: int| 0 <= k < s.len() ==> model::is_digit_char(s[k]),
    ensures
        model::digits_value(s) >= 0,
    decreases s.len(),
{
    if s.len() > 0 {
        lemma_digits_value_nonneg(s.drop_last());
    }
}

/// Dropping digits from the tail of a run never increases its value.
pub proof fn lemma_digits_value_prefix_le(s: Seq<char>, i: int)
    requires
        forall|k: int| 0 <= k < s.len() ==> model::is_digit_char(s[k]),
        0 <= i <= s.len(),
    ensures
        model::digits_value(s.take(i)) <= model::digits_value(s),
    decreases s.len() - i,
{
    if i == s.len() {
        assert(s.take(i) =~= s);
    } else {
        lemma_digits_value_prefix_le(s.drop_last(), i);
        lemma_digits_value_nonneg(s.drop_last());
        assert(s.drop_last().take(i) =~= s.take(i));
    }
}

/// Skipping whitespace never moves the cursor backwards nor past the end.
pub proof fn lemma_skip_ws_bounds(s: Seq<char>, cur: Cursor)
    requires
        model::cursor_in_range(s, cur),
    ensures
        model::cursor_in_range(s, model::skip_ws(s, cur)),
        cur.index <= model::skip_ws(s, cur).index,
    decreases s.len() - cur.index,
{
    if 0 <= cur.index < s.len() {
        let c = s[cur.index];
        if c == ' ' || c == '\t' || c == '\r' {
            lemma_skip_ws_bounds(s, model::advanced(cur));
        } else if c == '\n' {
            lemma_skip_ws_bounds(s, Cursor { index: cur.index + 1, line: cur.line + 1, column: 1 });
        }
    }
}

/// The numeric walk never moves the cursor backwards nor past the end.
pub proof fn lemma_scan_number_bounds(
    s: Seq<char>,
    fname: Seq<char>,
    cur: Cursor,
    acc: Seq<char>,
    is_float: bool,
)
    requires
        model::cursor_in_range(s, cur),
    ensures
        ({
            match model::scan_number_loop(s, fname, cur, acc, is_float) {
                model::NumScan::Done { cur: end, text, is_float: fl } => cur.index <= end.index
                    <= s.len(),
                model::NumScan::Fail { err } => true,
            }
        }),
    decreases s.len() - cur.index,
{
    if 0 <= cur.index < s.len() {
        let c = s[cur.index];
        if model::is_digit_char(c) {
            lemma_scan_number_bounds(s, fname, model::advanced(cur), acc.push(c), is_float);
        } else if c == '.' {
            if cur.index + 1 < s.len() && s[cur.index + 1] == '.' {
            } else if !is_float {
                lemma_scan_number_bounds(s, fname, model::advanced(cur), acc.push('.'), true);
            }
        }
    }
}

/// The identifier walk never moves the cursor backwards nor past the end.
pub proof fn lemma_scan_ident_bounds(s: Seq<char>, cur: Cursor, acc: Seq<char>)
    requires
        model::cursor_in_range(s, cur),
    ensures
        cur.index <= model::scan_ident_loop(s, cur, acc).0.index <= s.len(),
    decreases s.len() - cur.index,
{
    if 0 <= cur.index < s.len() && model::is_ident_char(s[cur.index]) {
        lemma_scan_ident_bounds(s, model::advanced(cur), acc.push(s[cur.index]));
    }
}

/// The string walk, when it finds the closing quote, has consumed at
/// least that quote and never runs past the end.
pub proof fn lemma_scan_string_bounds(
    s: Seq<char>,
    fname: Seq<char>,
    cur: Cursor,
    acc: Seq<char>,
    escape: bool,
)
    requires
        model::cursor_in_range(s, cur),
    ensures
        ({
            match model::scan_string_loop(s, fname, cur, acc, escape) {
                model::StrScan::Done { cur: end, value } => cur.index < end.index <= s.len(),
                model::StrScan::Fail { err } => true,
            }
        }),
    decreases s.len() - cur.index,
{
    if 0 <= cur.index < s.len() {
        let c = s[cur.index];
        let next = model::advanced(cur);
        if escape {
            match model::escape_char(c) {
                Some(e) => lemma_scan_string_bounds(s, fname, next, acc.push(e), false),
                None => {},
            }
        } else if c == '\\' {
            lemma_scan_string_bounds(s, fname, next, acc, true);
        } else if c == '"' {
        } else {
            lemma_scan_string_bounds(s, fname, next, acc.push(c), false);
        }
    }
}

/// A step of the scanning loop that yields a token other than the end
/// marker strictly advances the cursor, and never past the end: the
/// guard branch inside `model::spec_tokenize_from` is dead.
pub proof fn lemma_get_token_advances(s: Seq<char>, fname: Seq<char>, cur: Cursor)
    requires
        model::cursor_in_range(s, cur),
    ensures
        ({
            match model::spec_get_token(s, fname, cur) {
                Ok((t, next)) => t.token_type is EOF || (cur.index < next.index <= s.len()),
                Err(e) => true,
            }
        }),
{
    lemma_skip_ws_bounds(s, cur);
    let at = model::skip_ws(s, cur);
    if at.index < s.len() {
        let c = s[at.index];
        let a2 = model::advanced(at);
        if c == '-' {
            if at.index + 1 < s.len() && model::is_digit_char(s[at.index + 1]) {
                lemma_scan_number_bounds(s, fname, a2, Seq::empty(), false);
            }
        } else if model::is_op_start_char(c) {
        } else if model::is_digit_char(c) {
            assert(model::scan_number_loop(s, fname, at, Seq::empty(), false)
                == model::scan_number_loop(s, fname, a2, Seq::empty().push(c), false));
            lemma_scan_number_bounds(s, fname, a2, Seq::empty().push(c), false);
        } else if model::is_letter_char(c) {
            assert(model::scan_ident_loop(s, at, Seq::empty()) == model::scan_ident_loop(
                s,
                a2,
                Seq::empty().push(c),
            ));
            lemma_scan_ident_bounds(s, a2, Seq::empty().push(c));
        } else if c == '"' {
            lemma_scan_string_bounds(s, fname, a2, Seq::empty(), false);
        }
    }
}

/// Whitespace carries the cursor to the end of the input.
proof fn lemma_skip_ws_all_ws(s: Seq<char>, cur: Cursor)
    requires
        model::cursor_in_range(s, cur),
        forall|i: int| cur.index <= i < s.len() ==> model::is_ws_char(s[i]),
    ensures
        model::skip_ws(s, cur).index == s.len(),
    decreases s.len() - cur.index,
{
    if 0 <= cur.index < s.len() {
        let c = s[cur.index];
        if c == '\n' {
            lemma_skip_ws_all_ws(s, Cursor { index: cur.index + 1, line: cur.line + 1, column: 1 });
        } else {
            lemma_skip_ws_all_ws(s, model::advanced(cur));
        }
    }
}

/// A source containing only whitespace tokenises to the empty sequence
/// and no error.
pub proof fn lemma_whitespace_only_tokenizes_empty(s: Seq<char>, fname: Seq<char>)
    requires
        forall|i: int| 0 <= i < s.len() ==> model::is_ws_char(s[i]),
    ensures
        model::spec_tokenize(s, fname) == Ok::<Seq<TokenV>, TokenisationErrorV>(
            Seq::<TokenV>::empty(),
        ),
{
    lemma_skip_ws_all_ws(s, model::start_cursor());
}

/// The numeric walk over a tail of digits consumes all of them, moving
/// the column by their count.
proof fn lemma_scan_all_digits(s: Seq<char>, fname: Seq<char>, cur: Cursor, acc: Seq<char>)
    requires
        model::cursor_in_range(s, cur),
        forall|i: int| cur.index <= i < s.len() ==> model::is_digit_char(s[i]),
    ensures
        model::scan_number_loop(s, fname, cur, acc, false) == (model::NumScan::Done {
            cur: Cursor {
                index: s.len() as int,
                line: cur.line,
                column: cur.column + (s.len() - cur.index),
            },
            text: acc + s.subrange(cur.index, s.len() as int),
            is_float: false,
        }),
    decreases s.len() - cur.index,
{
    if 0 <= cur.index < s.len() {
        let c = s[cur.index];
        lemma_scan_all_digits(s, fname, model::advanced(cur), acc.push(c));
        assert(acc.push(c) + s.subrange(cur.index + 1, s.len() as int) =~= acc + s.subrange(
            cur.index,
            s.len() as int,
        ));
    } else {
        assert(acc + s.subrange(cur.index, s.len() as int) =~= acc);
    }
}

/// A source that is one valid integer literal within the 64-bit signed
/// range tokenises to exactly one integer token carrying its value, with
/// the end position and length of the digit run.
pub proof fn lemma_integer_literal(s: Seq<char>, fname: Seq<char>)
    requires
        s.len() >= 1,
        forall|i: int| 0 <= i < s.len() ==> model::is_digit_char(s[i]),
        model::digits_value(s) <= i64::MAX,
    ensures
        model::spec_tokenize(s, fname) == Ok::<Seq<TokenV>, TokenisationErrorV>(
            seq![
                TokenV {
                    token_type: TokenTypeV::Int(model::digits_value(s)),
                    line: 1,
                    column: s.len() as int + 1,
                    index: s.len() as int,
                    filename: fname,
                    length: s.len() as int,
                },
            ],
        ),
{
    let start = model::start_cursor();
    lemma_scan_all_digits(s, fname, start, Seq::empty());
    assert(Seq::<char>::empty() + s.subrange(0, s.len() as int) =~= s);
    let t = model::spec_get_token(s, fname, start);
    let rest = model::spec_tokenize_from(
        s,
        fname,
        Cursor { index: s.len() as int, line: 1, column: s.len() as int + 1 },
    );
    assert(rest == Ok::<Seq<TokenV>, TokenisationErrorV>(Seq::<TokenV>::empty()));
    assert(model::spec_tokenize(s, fname) matches Ok(ts) && ts =~= seq![
        TokenV {
            token_type: TokenTypeV::Int(model::digits_value(s)),
            line: 1,
            column: s.len() as int + 1,
            index: s.len() as int,
            filename: fname,
            length: s.len() as int,
        },
    ]);
}

/// A minus sign directly followed by a valid integer literal tokenises
/// to exactly one integer token carrying the negated value — not to a
/// subtraction operator and a separate literal. The token's length
/// spans the digit run alone, not the sign.
pub proof fn lemma_negative_integer_literal(s: Seq<char>, fname: Seq<char>)
    requires
        s.len() >= 1,
        forall|i: int| 0 <= i < s.len() ==> model::is_digit_char(s[i]),
        model::digits_value(s) <= i64::MAX,
    ensures
        model::spec_tokenize(seq!['-'] + s, fname) == Ok::<Seq<TokenV>, TokenisationErrorV>(
            seq![
                TokenV {
                    token_type: TokenTypeV::Int(-model::digits_value(s)),
                    line: 1,
                    column: s.len() as int + 2,
                    index: s.len() as int + 1,
                    filename: fname,
                    length: s.len() as int,
                },
            ],
        ),
{
    let src = seq!['-'] + s;
    let start = model::start_cursor();
    let after_sign = Cursor { index: 1, line: 1, column: 2 };
    assert(forall|i: int| 1 <= i < src.len() ==> model::is_digit_char(src[i]));
    lemma_scan_all_digits(src, fname, after_sign, Seq::empty());
    assert(Seq::<char>::empty() + src.subrange(1, src.len() as int) =~= s);
    let end = Cursor { index: src.len() as int, line: 1, column: src.len() as int + 1 };
    let rest = model::spec_tokenize_from(src, fname, end);
    assert(rest == Ok::<Seq<TokenV>, TokenisationErrorV>(Seq::<TokenV>::empty()));
    assert(model::spec_tokenize(src, fname) matches Ok(ts) && ts =~= seq![
        TokenV {
            token_type: TokenTypeV::Int(-model::digits_value(s)),
            line: 1,
            column: s.len() as int + 2,
            index: s.len() as int + 1,
            filename: fname,
            length: s.len() as int,
        },
    ]);
}

/// The numeric walk only ever adds to the collected text.
proof fn lemma_scan_number_text_grows(
    s: Seq<char>,
    fname: Seq<char>,
    cur: Cursor,
    acc: Seq<char>,
    is_float: bool,
)
    requires
        model::cursor_in_range(s, cur),
    ensures
        ({
            match model::scan_number_loop(s, fname, cur, acc, is_float) {
                model::NumScan::Done { cur: end, text, is_float: fl } => text.len() >= acc.len(),
                model::NumScan::Fail { err } => true,
            }
        }),
    decreases s.len() - cur.index,
{
    if 0 <= cur.index < s.len() {
        let c = s[cur.index];
        if model::is_digit_char(c) {
            lemma_scan_number_text_grows(s, fname, model::advanced(cur), acc.push(c), is_float);
        } else if c == '.' {
            if cur.index + 1 < s.len() && s[cur.index + 1] == '.' {
            } else if !is_float {
                lemma_scan_number_text_grows(s, fname, model::advanced(cur), acc.push('.'), true);
            }
        }
    }
}

/// The identifier walk only ever adds to the collected text.
proof fn lemma_scan_ident_text_grows(s: Seq<char>, cur: Cursor, acc: Seq<char>)
    requires
        model::cursor_in_range(s, cur),
    ensures
        model::scan_ident_loop(s, cur, acc).1.len() >= acc.len(),
    decreases s.len() - cur.index,
{
    if 0 <= cur.index < s.len() && model::is_ident_char(s[cur.index]) {
        lemma_scan_ident_text_grows(s, model::advanced(cur), acc.push(s[cur.index]));
    }
}

/// A step of the scanning loop that yields a token other than the end
/// marker yields one that spans at least one source character and
/// carries the scan's filename.
proof fn lemma_get_token_shape(s: Seq<char>, fname: Seq<char>, cur: Cursor)
    requires
        model::cursor_in_range(s, cur),
    ensures
        ({
            match model::spec_get_token(s, fname, cur) {
                Ok((t, next)) => t.token_type is EOF || (t.length >= 1 && t.filename == fname),
                Err(e) => true,
            }
        }),
{
    lemma_skip_ws_bounds(s, cur);
    let at = model::skip_ws(s, cur);
    if at.index < s.len() {
        let c = s[at.index];
        let a2 = model::advanced(at);
        if c == '-' {
            if at.index + 1 < s.len() && model::is_digit_char(s[at.index + 1]) {
                assert(model::scan_number_loop(s, fname, a2, Seq::empty(), false)
                    == model::scan_number_loop(
                    s,
                    fname,
                    model::advanced(a2),
                    Seq::empty().push(s[a2.index]),
                    false,
                ));
                lemma_scan_number_text_grows(
                    s,
                    fname,
                    model::advanced(a2),
                    Seq::empty().push(s[a2.index]),
                    false,
                );
            }
        } else if model::is_op_start_char(c) {
        } else if model::is_digit_char(c) {
            assert(model::scan_number_loop(s, fname, at, Seq::empty(), false)
                == model::scan_number_loop(s, fname, a2, Seq::empty().push(c), false));
            lemma_scan_number_text_grows(s, fname, a2, Seq::empty().push(c), false);
        } else if model::is_letter_char(c) {
            assert(model::scan_ident_loop(s, at, Seq::empty()) == model::scan_ident_loop(
                s,
                a2,
                Seq::empty().push(c),
            ));
            lemma_scan_ident_text_grows(s, a2, Seq::empty().push(c));
        }
    }
}

/// Every token of a successful pass spans at least one source
/// character, none is the synthetic end-of-input marker, and each
/// carries the filename the scan was given.
pub proof fn lemma_tokens_are_substantial(s: Seq<char>, fname: Seq<char>, cur: Cursor)
    requires
        model::cursor_in_range(s, cur),
    ensures
        ({
            match model::spec_tokenize_from(s, fname, cur) {
                Ok(ts) => forall|i: int|
                    0 <= i < ts.len() ==> (#[trigger] ts[i]).length >= 1 && !(ts[i].token_type
                        is EOF) && ts[i].filename == fname,
                Err(e) => true,
            }
        }),
    decreases s.len() - cur.index,
{
    lemma_get_token_advances(s, fname, cur);
    lemma_get_token_shape(s, fname, cur);
    match model::spec_get_token(s, fname, cur) {
        Ok((t, next)) => {
            if !(t.token_type is EOF) && cur.index < next.index <= s.len() {
                lemma_tokens_are_substantial(s, fname, next);
            }
        },
        Err(e) => {},
    }
}

/// Tokenisation is pure: `Lexer::tokenise` promises its outcome equals
/// `model::spec_tokenize_from` of the source, filename and cursor alone,
/// so two passes over the same source under the same filename yield
/// structurally identical outcomes.
pub proof fn lemma_tokenize_deterministic(
    s: Seq<char>,
    fname: Seq<char>,
    r1: Result<Seq<TokenV>, TokenisationErrorV>,
    r2: Result<Seq<TokenV>, TokenisationErrorV>,
)
    requires
        r1 == model::spec_tokenize(s, fname),
        r2 == model::spec_tokenize(s, fname),
    ensures
        r1 == r2,
{
}

} // verus!
