//! A concrete streaming unit for the kit grammar: one line-delimited record
//! holding a value — a number, string, identifier, bracketed list, or braced
//! map — parsed with an explicit recursion limit.

use vstd::prelude::*;
use crate::config::ParseConfig;
use crate::error::Error;
use crate::incremental::{spec_scan_boundary, ChunkBoundary, IncrementalParse};
use crate::parse::{Parse, ParseError, Peek};
use crate::pipeline::ParseCheckpoint;
use crate::span::{RawSpan, Span, Spanned};
use crate::stream::{next_sig, SpannedToken, TokenStream};
use crate::tokens::{ColonToken, IdentToken, NumberToken, StringToken};
use crate::token::{is_skip_token, spec_is_skip, token_text, Token, TokenV};

verus! {

broadcast use vstd::seq::axiom_seq_index_decreases, vstd::std_specs::vec::axiom_vec_decreases_to_view;


/// A parsed value of the record grammar.
#[derive(Debug)]
pub enum Value {
    /// An integer literal.
    Number(i64),
    /// A double-quoted string, without its quotes.
    Text(String),
    /// A bare identifier.
    Word(String),
    /// A bracketed, comma-separated list: `[v, v, ...]`.
    List(Vec<Value>),
    /// A braced, comma-separated map with string keys: `{"k": v, ...}`;
    /// the key at index `i` belongs to the value at index `i`.
    Table { keys: Vec<String>, values: Vec<Value> },
}

/// One complete parse unit: a value and the span it covers.
#[derive(Debug)]
pub struct Record {
    /// The parsed value.
    pub value: Value,
    /// The byte range of the value's tokens.
    pub span: Span,
}

/// The mathematical value of a [`Value`]: payloads become sequences and
/// integers, so that parse results can be pinned down in specifications.
pub enum ValueV {
    Number(int),
    Text(Seq<char>),
    Word(Seq<char>),
    List(Seq<ValueV>),
    Table { keys: Seq<Seq<char>>, values: Seq<ValueV> },
}

impl View for Value {
    type V = ValueV;

    open spec fn view(&self) -> ValueV
        decreases self,
    {
        match self {
            Value::Number(n) => ValueV::Number(*n as int),
            Value::Text(s) => ValueV::Text(s@),
            Value::Word(s) => ValueV::Word(s@),
            Value::List(items) => ValueV::List(
                Seq::new(
                    items@.len(),
                    |i: int|
                        if 0 <= i < items@.len() {
                            items@[i].view()
                        } else {
                            ValueV::Number(0)
                        },
                ),
            ),
            Value::Table { keys, values } => ValueV::Table {
                keys: Seq::new(keys@.len(), |i: int| keys@[i]@),
                values: Seq::new(
                    values@.len(),
                    |i: int|
                        if 0 <= i < values@.len() {
                            values@[i].view()
                        } else {
                            ValueV::Number(0)
                        },
                ),
            },
        }
    }
}

/// The views of a vector of values, element-wise.
pub open spec fn views_of(items: Seq<Value>) -> Seq<ValueV> {
    Seq::new(items.len(), |k: int| items[k]@)
}

/// The views of a vector of keys, element-wise.
pub open spec fn key_views(keys: Seq<String>) -> Seq<Seq<char>> {
    Seq::new(keys.len(), |k: int| keys[k]@)
}

/// The first index at or after `i` holding a non-trivia token, as a spec.
pub open spec fn spec_skip_trivia(toks: Seq<SpannedToken>, i: int) -> int
    decreases toks.len() - i,
{
    if i < 0 || i >= toks.len() {
        i
    } else if spec_is_skip(toks[i].value@) {
        spec_skip_trivia(toks, i + 1)
    } else {
        i
    }
}

/// The record grammar, as a deterministic specification mirroring the
/// parser: `Some((value, end))` exactly when one value starts at the first
/// significant token at or after `i` and ends at `end`; `None` exactly when
/// the input fails the grammar (or the recursion limit) there.
pub open spec fn spec_parse_value(
    toks: Seq<SpannedToken>,
    i: int,
    depth: int,
    limit: int,
) -> Option<(ValueV, int)>
    decreases toks.len() - i, 0int,
{
    let p = spec_skip_trivia(toks, i);
    if p < i || p >= toks.len() {
        None
    } else {
        match toks[p].value@ {
            TokenV::Number(n) => Some((ValueV::Number(n), p + 1)),
            TokenV::Str(s) => Some((ValueV::Text(s), p + 1)),
            TokenV::Ident(s) => Some((ValueV::Word(s), p + 1)),
            TokenV::LBracket => if depth + 1 > limit {
                None
            } else {
                match spec_parse_list(toks, p + 1, depth + 1, limit, Seq::empty()) {
                    Some((items, end)) => Some((ValueV::List(items), end)),
                    None => None,
                }
            },
            TokenV::LBrace => if depth + 1 > limit {
                None
            } else {
                match spec_parse_table(
                    toks,
                    p + 1,
                    depth + 1,
                    limit,
                    Seq::empty(),
                    Seq::empty(),
                ) {
                    Some((keys, values, end)) => Some((ValueV::Table { keys, values }, end)),
                    None => None,
                }
            },
            _ => None,
        }
    }
}

/// The rest of a bracketed list, mirroring the parser: the closing bracket
/// ends it, a separator is followed by one more element.
pub open spec fn spec_parse_list(
    toks: Seq<SpannedToken>,
    i: int,
    depth: int,
    limit: int,
    items: Seq<ValueV>,
) -> Option<(Seq<ValueV>, int)>
    decreases toks.len() - i, 1int,
{
    let p = spec_skip_trivia(toks, i);
    if p < i || p >= toks.len() {
        None
    } else if toks[p].value@ is RBracket {
        Some((items, p + 1))
    } else if toks[p].value@ is Comma {
        if items.len() == 0 {
            None
        } else {
            match spec_parse_value(toks, p + 1, depth, limit) {
                Some((v, end)) => if p + 1 < end <= toks.len() {
                    spec_parse_list(toks, end, depth, limit, items.push(v))
                } else {
                    None
                },
                None => None,
            }
        }
    } else {
        if items.len() > 0 {
            None
        } else {
            match spec_parse_value(toks, p, depth, limit) {
                Some((v, end)) => if p < end <= toks.len() {
                    spec_parse_list(toks, end, depth, limit, items.push(v))
                } else {
                    None
                },
                None => None,
            }
        }
    }
}

/// The rest of a braced table, mirroring the parser.
pub open spec fn spec_parse_table(
    toks: Seq<SpannedToken>,
    i: int,
    depth: int,
    limit: int,
    keys: Seq<Seq<char>>,
    values: Seq<ValueV>,
) -> Option<(Seq<Seq<char>>, Seq<ValueV>, int)>
    decreases toks.len() - i, 1int,
{
    let p = spec_skip_trivia(toks, i);
    if p < i || p >= toks.len() {
        None
    } else if toks[p].value@ is RBrace {
        Some((keys, values, p + 1))
    } else if toks[p].value@ is Comma && values.len() > 0 {
        match spec_parse_entry(toks, p + 1, depth, limit) {
            Some((k, v, end)) => if p + 1 < end <= toks.len() {
                spec_parse_table(toks, end, depth, limit, keys.push(k), values.push(v))
            } else {
                None
            },
            None => None,
        }
    } else {
        if values.len() > 0 {
            None
        } else {
            match spec_parse_entry(toks, p, depth, limit) {
                Some((k, v, end)) => if p < end <= toks.len() {
                    spec_parse_table(toks, end, depth, limit, keys.push(k), values.push(v))
                } else {
                    None
                },
                None => None,
            }
        }
    }
}

/// One `"key": value` entry, mirroring the parser.
pub open spec fn spec_parse_entry(
    toks: Seq<SpannedToken>,
    i: int,
    depth: int,
    limit: int,
) -> Option<(Seq<char>, ValueV, int)>
    decreases toks.len() - i, 0int,
{
    let k = spec_skip_trivia(toks, i);
    if k < i || k >= toks.len() {
        None
    } else {
        match toks[k].value@ {
            TokenV::Str(key) => {
                let c = spec_skip_trivia(toks, k + 1);
                if c < k + 1 || c >= toks.len() {
                    None
                } else if toks[c].value@ is Colon {
                    match spec_parse_value(toks, c + 1, depth, limit) {
                        Some((v, end)) => Some((key, v, end)),
                        None => None,
                    }
                } else {
                    None
                }
            },
            _ => None,
        }
    }
}

/// The first index at or after `i` holding a non-trivia token.
fn skip_trivia(tokens: &[SpannedToken], i: usize) -> (j: usize)
    requires
        i <= tokens@.len(),
    ensures
        i <= j <= tokens@.len(),
        j < tokens@.len() ==> !spec_is_skip(tokens@[j as int].value@),
        j == spec_skip_trivia(tokens@, i as int),
    decreases tokens@.len() - i,
{
    if i >= tokens.len() {
        i
    } else if is_skip_token(&tokens[i].value) {
        skip_trivia(tokens, i + 1)
    } else {
        i
    }
}

/// Parses one value starting at the first significant token at or after `i`.
///
/// `depth` counts the delimiters already entered; entering one more while
/// `depth + 1 > limit` fails with the embedded
/// [`Error::RecursionLimitExceeded`]. On success the returned index lies
/// strictly past `i`, within bounds; on failure the consumed amount is
/// unspecified.
pub fn parse_value(tokens: &[SpannedToken], i: usize, depth: usize, limit: usize) -> (r: Result<
    (Value, usize),
    ParseError,
>)
    requires
        i <= tokens@.len(),
        depth <= i,
    ensures
        r matches Ok(p) ==> i < p.1 <= tokens@.len() && spec_parse_value(
            tokens@,
            i as int,
            depth as int,
            limit as int,
        ) == Some((p.0@, p.1 as int)),
        r is Err ==> spec_parse_value(tokens@, i as int, depth as int, limit as int) is None,
    decreases tokens@.len() - i, 0int,
{
    let p = skip_trivia(tokens, i);
    if p >= tokens.len() {
        return Err(ParseError::Empty { expect: "value" });
    }
    let t = &tokens[p];
    match &t.value {
        Token::Number(n) => Ok((Value::Number(*n), p + 1)),
        Token::Str(s) => Ok((Value::Text(s.clone()), p + 1)),
        Token::Ident(s) => Ok((Value::Word(s.clone()), p + 1)),
        Token::LBracket => {
            let entered = depth + 1;
            if entered > limit {
                return Err(
                    ParseError::Core(Error::RecursionLimitExceeded { depth: entered, limit }),
                );
            }
            let fresh: Vec<Value> = Vec::new();
            proof {
                assert(views_of(fresh@) =~= Seq::<ValueV>::empty());
            }
            match parse_list_items(tokens, p + 1, entered, limit, fresh) {
                Ok((items, end)) => {
                    proof {
                        let lv = Value::List(items)@;
                        assert(lv is List);
                        assert(lv->List_0 =~= views_of(items@));
                    }
                    Ok((Value::List(items), end))
                },
                Err(e) => Err(e),
            }
        },
        Token::LBrace => {
            let entered = depth + 1;
            if entered > limit {
                return Err(
                    ParseError::Core(Error::RecursionLimitExceeded { depth: entered, limit }),
                );
            }
            let fresh_keys: Vec<String> = Vec::new();
            let fresh_values: Vec<Value> = Vec::new();
            proof {
                assert(key_views(fresh_keys@) =~= Seq::<Seq<char>>::empty());
                assert(views_of(fresh_values@) =~= Seq::<ValueV>::empty());
            }
            match parse_map_items(tokens, p + 1, entered, limit, fresh_keys, fresh_values) {
                Ok((keys, values, end)) => {
                    proof {
                        let tv = Value::Table { keys, values }@;
                        assert(tv is Table);
                        assert(tv->Table_keys =~= key_views(keys@));
                        assert(tv->Table_values =~= views_of(values@));
                    }
                    Ok((Value::Table { keys, values }, end))
                },
                Err(e) => Err(e),
            }
        },
        _ => Err(ParseError::Expected { expect: "value", found: token_text(&t.value) }),
    }
}

/// Parses the rest of a bracketed list after the opening bracket (or after
/// a separator): either the closing bracket, or one more element.
fn parse_list_items(
    tokens: &[SpannedToken],
    i: usize,
    depth: usize,
    limit: usize,
    items: Vec<Value>,
) -> (r: Result<(Vec<Value>, usize), ParseError>)
    requires
        i <= tokens@.len(),
        depth <= i,
    ensures
        r matches Ok(p) ==> i <= p.1 <= tokens@.len() && spec_parse_list(
            tokens@,
            i as int,
            depth as int,
            limit as int,
            views_of(items@),
        ) == Some((views_of(p.0@), p.1 as int)),
        r is Err ==> spec_parse_list(
            tokens@,
            i as int,
            depth as int,
            limit as int,
            views_of(items@),
        ) is None,
    decreases tokens@.len() - i, 1int,
{
    let p = skip_trivia(tokens, i);
    if p >= tokens.len() {
        return Err(ParseError::Empty { expect: "]" });
    }
    let mut items = items;
    let ghost items0 = items@;
    match &tokens[p].value {
        Token::RBracket => Ok((items, p + 1)),
        Token::Comma => {
            if items.is_empty() {
                return Err(
                    ParseError::Expected { expect: "value", found: token_text(&tokens[p].value) },
                );
            }
            let (elem, end) = match parse_value(tokens, p + 1, depth, limit) {
                Ok(pair) => pair,
                Err(e) => {
                    return Err(e);
                },
            };
            items.push(elem);
            proof {
                assert(views_of(items@) =~= views_of(items0).push(elem@));
            }
            parse_list_items(tokens, end, depth, limit, items)
        },
        _ => {
            if !items.is_empty() {
                return Err(
                    ParseError::Expected {
                        expect: ", or ]",
                        found: token_text(&tokens[p].value),
                    },
                );
            }
            let (elem, end) = match parse_value(tokens, p, depth, limit) {
                Ok(pair) => pair,
                Err(e) => {
                    return Err(e);
                },
            };
            items.push(elem);
            proof {
                assert(views_of(items@) =~= views_of(items0).push(elem@));
            }
            parse_list_items(tokens, end, depth, limit, items)
        },
    }
}

/// Parses the rest of a braced map after the opening brace (or after a
/// separator): either the closing brace, or one more `"key": value` entry.
fn parse_map_items(
    tokens: &[SpannedToken],
    i: usize,
    depth: usize,
    limit: usize,
    keys: Vec<String>,
    values: Vec<Value>,
) -> (r: Result<(Vec<String>, Vec<Value>, usize), ParseError>)
    requires
        i <= tokens@.len(),
        depth <= i,
    ensures
        r matches Ok(p) ==> i <= p.2 <= tokens@.len() && spec_parse_table(
            tokens@,
            i as int,
            depth as int,
            limit as int,
            key_views(keys@),
            views_of(values@),
        ) == Some((key_views(p.0@), views_of(p.1@), p.2 as int)),
        r is Err ==> spec_parse_table(
            tokens@,
            i as int,
            depth as int,
            limit as int,
            key_views(keys@),
            views_of(values@),
        ) is None,
    decreases tokens@.len() - i, 1int,
{
    let p = skip_trivia(tokens, i);
    if p >= tokens.len() {
        return Err(ParseError::Empty { expect: "}" });
    }
    let mut keys = keys;
    let mut values = values;
    let ghost keys0 = keys@;
    let ghost values0 = values@;
    match &tokens[p].value {
        Token::RBrace => Ok((keys, values, p + 1)),
        Token::Comma if !values.is_empty() => {
            let (key, value, end) = match parse_map_entry(tokens, p + 1, depth, limit) {
                Ok(triple) => triple,
                Err(e) => {
                    return Err(e);
                },
            };
            keys.push(key);
            values.push(value);
            proof {
                assert(key_views(keys@) =~= key_views(keys0).push(key@));
                assert(views_of(values@) =~= views_of(values0).push(value@));
            }
            parse_map_items(tokens, end, depth, limit, keys, values)
        },
        _ => {
            if !values.is_empty() {
                return Err(
                    ParseError::Expected {
                        expect: ", or }",
                        found: token_text(&tokens[p].value),
                    },
                );
            }
            let (key, value, end) = match parse_map_entry(tokens, p, depth, limit) {
                Ok(triple) => triple,
                Err(e) => {
                    return Err(e);
                },
            };
            keys.push(key);
            values.push(value);
            proof {
                assert(key_views(keys@) =~= key_views(keys0).push(key@));
                assert(views_of(values@) =~= views_of(values0).push(value@));
            }
            parse_map_items(tokens, end, depth, limit, keys, values)
        },
    }
}

/// Parses one `"key": value` entry starting at or after `i`.
fn parse_map_entry(tokens: &[SpannedToken], i: usize, depth: usize, limit: usize) -> (r: Result<
    (String, Value, usize),
    ParseError,
>)
    requires
        i <= tokens@.len(),
        depth <= i,
    ensures
        r matches Ok(p) ==> i < p.2 <= tokens@.len() && spec_parse_entry(
            tokens@,
            i as int,
            depth as int,
            limit as int,
        ) == Some((p.0@, p.1@, p.2 as int)),
        r is Err ==> spec_parse_entry(tokens@, i as int, depth as int, limit as int) is None,
    decreases tokens@.len() - i, 0int,
{
    let k = skip_trivia(tokens, i);
    if k >= tokens.len() {
        return Err(ParseError::Empty { expect: "string key" });
    }
    let key = match &tokens[k].value {
        Token::Str(s) => s.clone(),
        other => {
            return Err(ParseError::Expected { expect: "string key", found: token_text(other) });
        },
    };
    let c = skip_trivia(tokens, k + 1);
    if c >= tokens.len() {
        return Err(ParseError::Empty { expect: ":" });
    }
    match &tokens[c].value {
        Token::Colon => {},
        other => {
            return Err(ParseError::Expected { expect: ":", found: token_text(other) });
        },
    }
    match parse_value(tokens, c + 1, depth, limit) {
        Ok((value, end)) => Ok((key, value, end)),
        Err(e) => Err(e),
    }
}

/// The concrete boundary scan for records: a `Newline` at depth 0 ends a
/// unit; braces and brackets open and close nesting.
pub open spec fn spec_record_scan(toks: Seq<SpannedToken>, i: int, depth: int) -> Option<int>
    decreases toks.len() - i,
{
    if i < 0 || i >= toks.len() {
        None
    } else {
        let d = depth + spec_record_delta(toks[i]);
        if d == 0 && toks[i].value@ is Newline {
            Some(i + 1)
        } else {
            spec_record_scan(toks, i + 1, d)
        }
    }
}

/// The concrete depth delta of a token for the record grammar.
pub open spec fn spec_record_delta(t: SpannedToken) -> int {
    match t.value@ {
        TokenV::LBrace | TokenV::LBracket => 1,
        TokenV::RBrace | TokenV::RBracket => -1,
        _ => 0,
    }
}

/// The executable record boundary scan; what it returns is pinned by
/// [`spec_record_scan`].
pub fn record_find_boundary(tokens: &[SpannedToken], i: usize, depth: i128) -> (r: Option<usize>)
    requires
        -(i as int) - 1 <= depth <= i as int + 1,
    ensures
        r matches Some(k) ==> spec_record_scan(tokens@, i as int, depth as int) == Some(k as int)
            && i < k <= tokens@.len(),
        r is None ==> spec_record_scan(tokens@, i as int, depth as int) is None,
    decreases tokens@.len() - i,
{
    if i >= tokens.len() {
        return None;
    }
    let d: i128 = match tokens[i].value {
        Token::LBrace | Token::LBracket => 1,
        Token::RBrace | Token::RBracket => -1,
        _ => 0,
    };
    let new_depth = depth + d;
    if new_depth == 0 && matches!(tokens[i].value, Token::Newline) {
        Some(i + 1)
    } else {
        record_find_boundary(tokens, i + 1, new_depth)
    }
}

impl ChunkBoundary for Record {
    type Token = SpannedToken;

    open spec fn spec_boundary(t: SpannedToken) -> bool {
        t.value@ is Newline
    }

    open spec fn spec_delta(t: SpannedToken) -> int {
        match t.value@ {
            TokenV::LBrace | TokenV::LBracket => 1,
            TokenV::RBrace | TokenV::RBracket => -1,
            _ => 0,
        }
    }

    open spec fn spec_ignorable(t: SpannedToken) -> bool {
        t.value@ is Whitespace
    }

    fn is_boundary_token(token: &SpannedToken) -> (b: bool) {
        matches!(token.value, Token::Newline)
    }

    fn depth_delta(token: &SpannedToken) -> (d: i32) {
        match token.value {
            Token::LBrace | Token::LBracket => 1,
            Token::RBrace | Token::RBracket => -1,
            _ => 0,
        }
    }

    fn is_ignorable(token: &SpannedToken) -> (b: bool) {
        matches!(token.value, Token::Whitespace)
    }

    fn find_boundary(tokens: &[SpannedToken], start: usize) -> Option<usize> {
        record_find_boundary(tokens, start, 0)
    }

    fn has_complete_chunk(tokens: &[SpannedToken], start: usize) -> bool {
        match record_find_boundary(tokens, start, 0) {
            Some(_) => true,
            None => false,
        }
    }
}

/// The concrete record scan agrees with the generic chunk-boundary scan
/// instantiated at [`Record`], so the lemmas about the generic scan apply
/// to records.
pub proof fn lemma_record_scan_matches(toks: Seq<SpannedToken>, i: int, depth: int)
    ensures
        spec_record_scan(toks, i, depth) == spec_scan_boundary::<Record>(toks, i, depth),
    decreases toks.len() - i,
{
    if 0 <= i < toks.len() {
        lemma_record_scan_matches(toks, i + 1, depth + spec_record_delta(toks[i]));
    }
}

/// Whether a token contributes a value (anything but trivia and closing
/// delimiters), for deciding end-of-input completion.
pub open spec fn spec_is_value_token(t: SpannedToken) -> bool {
    match t.value@ {
        TokenV::Whitespace | TokenV::Newline | TokenV::RBrace | TokenV::RBracket => false,
        _ => true,
    }
}

/// The total depth change of the prefix `[0, j)`, per the record grammar.
pub open spec fn spec_record_prefix_depth(toks: Seq<SpannedToken>, j: int) -> int
    decreases j,
{
    if j <= 0 {
        0
    } else {
        spec_record_prefix_depth(toks, j - 1) + spec_record_delta(toks[j - 1])
    }
}

/// Whether the prefix `[0, j)` holds at least one value token.
pub open spec fn spec_record_prefix_has_value(toks: Seq<SpannedToken>, j: int) -> bool
    decreases j,
{
    if j <= 0 {
        false
    } else {
        spec_record_prefix_has_value(toks, j - 1) || spec_is_value_token(toks[j - 1])
    }
}

/// Whether the whole remainder is a complete unit at end of input: it holds
/// a value token and its delimiters are balanced overall.
pub open spec fn spec_record_eof_complete(toks: Seq<SpannedToken>) -> bool {
    spec_record_prefix_has_value(toks, toks.len() as int) && spec_record_prefix_depth(
        toks,
        toks.len() as int,
    ) == 0
}

/// Holding a value token means some position holds one.
pub proof fn lemma_prefix_has_value_exists(toks: Seq<SpannedToken>, j: int)
    requires
        0 <= j <= toks.len(),
    ensures
        spec_record_prefix_has_value(toks, j) <==> exists|k: int|
            0 <= k < j && spec_is_value_token(#[trigger] toks[k]),
    decreases j,
{
    if j > 0 {
        lemma_prefix_has_value_exists(toks, j - 1);
    }
}

/// One whole chunk as a record, mirroring `parse_chunk`: exactly one value
/// surrounded by trivia, paired with the span from its first to its last
/// token.
pub open spec fn spec_parse_record(chunk: Seq<SpannedToken>, limit: int) -> Option<(ValueV, Span)> {
    let p = spec_skip_trivia(chunk, 0);
    if p >= chunk.len() {
        None
    } else {
        match spec_parse_value(chunk, p, 0, limit) {
            Some((v, end)) => {
                let rest = spec_skip_trivia(chunk, end);
                if rest < chunk.len() {
                    None
                } else {
                    Some(
                        (
                            v,
                            Span::Known(
                                RawSpan {
                                    start: chunk[p].span.spec_start() as usize,
                                    end: chunk[end - 1].span.spec_end() as usize,
                                },
                            ),
                        ),
                    )
                }
            },
            None => None,
        }
    }
}

/// The next chunk visible from `cursor`, mirroring the incremental step: the
/// boundary one past a depth-0 newline, or — only once the caller has
/// signalled end of input — the whole remainder when it is complete there;
/// paired with the chunk end after stripping a trailing newline.
pub open spec fn spec_next_chunk(toks: Seq<SpannedToken>, cursor: int, at_eof: bool) -> Option<
    (int, int),
> {
    let rem = toks.subrange(cursor, toks.len() as int);
    let found = match spec_record_scan(rem, 0, 0) {
        Some(b) => Some(b),
        None => if at_eof && spec_record_eof_complete(rem) {
            Some(rem.len() as int)
        } else {
            None
        },
    };
    match found {
        Some(b) => Some(
            (
                b,
                if 0 < b <= rem.len() && rem[b - 1].value@ is Newline {
                    b - 1
                } else {
                    b
                },
            ),
        ),
        None => None,
    }
}

/// The record boundary scan only returns positions past its start, within
/// the sequence.
pub proof fn lemma_record_scan_in_range(toks: Seq<SpannedToken>, i: int, depth: int)
    requires
        0 <= i,
    ensures
        spec_record_scan(toks, i, depth) matches Some(k) ==> i < k <= toks.len(),
    decreases toks.len() - i,
{
    if i < toks.len() {
        let d = depth + spec_record_delta(toks[i]);
        if !(d == 0 && toks[i].value@ is Newline) {
            lemma_record_scan_in_range(toks, i + 1, d);
        }
    }
}

/// A visible chunk covers at least one token and stays within the
/// remainder, and stripping the trailing newline only shortens it.
pub proof fn lemma_next_chunk_bounds(toks: Seq<SpannedToken>, cursor: int, at_eof: bool)
    requires
        0 <= cursor < toks.len(),
    ensures
        spec_next_chunk(toks, cursor, at_eof) matches Some(nc) ==> 1 <= nc.0 <= toks.len()
            - cursor && 0 <= nc.1 <= nc.0,
{
    let rem = toks.subrange(cursor, toks.len() as int);
    lemma_record_scan_in_range(rem, 0, 0);
}

impl Record {
    /// Whether the whole remainder forms a complete unit at end of input: it
    /// holds at least one value token and its delimiters are balanced.
    fn is_complete_at_eof(tokens: &[SpannedToken]) -> (b: bool)
        ensures
            b == spec_record_eof_complete(tokens@),
    {
        let n = tokens.len();
        let mut depth: i128 = 0;
        let mut has_value = false;
        let mut i: usize = 0;
        while i < n
            invariant
                i <= n,
                n == tokens@.len(),
                -(i as int) <= depth <= i as int,
                depth == spec_record_prefix_depth(tokens@, i as int),
                has_value == spec_record_prefix_has_value(tokens@, i as int),
            decreases n - i,
        {
            match &tokens[i].value {
                Token::LBrace | Token::LBracket => {
                    depth = depth + 1;
                    has_value = true;
                },
                Token::RBrace | Token::RBracket => {
                    depth = depth - 1;
                },
                Token::Whitespace | Token::Newline => {},
                _ => {
                    has_value = true;
                },
            }
            i = i + 1;
        }
        has_value && depth == 0
    }

    /// Whether every token of the chunk is trivia, so that the chunk is an
    /// empty line to be skipped rather than parsed.
    fn chunk_is_blank(tokens: &[SpannedToken], end: usize) -> (b: bool)
        requires
            end <= tokens@.len(),
        ensures
            b == (skip_to_end(tokens@, 0, end as int)),
    {
        let mut i: usize = 0;
        while i < end
            invariant
                i <= end <= tokens@.len(),
                forall|j: int| 0 <= j < i ==> spec_is_skip(tokens@[j].value@),
            decreases end - i,
        {
            if !is_skip_token(&tokens[i].value) {
                return false;
            }
            i = i + 1;
        }
        true
    }

    /// Parses one chunk as a record: leading and trailing trivia allowed,
    /// exactly one value inside.
    pub fn parse_chunk(chunk: &[SpannedToken], config: &ParseConfig) -> (r: Result<
        Record,
        ParseError,
    >)
        ensures
            r matches Ok(rec) ==> spec_parse_record(chunk@, config.max_recursion_depth as int)
                == Some((rec.value@, rec.span)),
            r is Err ==> spec_parse_record(chunk@, config.max_recursion_depth as int) is None,
            r is Ok ==> !skip_to_end(chunk@, 0, chunk@.len() as int),
            skip_to_end(chunk@, 0, chunk@.len() as int) ==> r == Err::<Record, ParseError>(
                (ParseError::Empty { expect: "value" }),
            ),
    {
        let p = skip_trivia(chunk, 0);
        if p >= chunk.len() {
            return Err(ParseError::Empty { expect: "value" });
        }
        let (value, end) = match parse_value(chunk, p, 0, config.max_recursion_depth) {
            Ok(pair) => pair,
            Err(e) => {
                return Err(e);
            },
        };
        let rest = skip_trivia(chunk, end);
        if rest < chunk.len() {
            return Err(
                ParseError::Expected {
                    expect: "end of record",
                    found: token_text(&chunk[rest].value),
                },
            );
        }
        let span = Span::new(chunk[p].span.start(), chunk[end - 1].span.end());
        Ok(Record { value, span })
    }

    /// One incremental parse attempt with an explicit configuration; the
    /// core of [`IncrementalParse::parse_incremental`].
    ///
    /// Finds the next chunk boundary from the checkpoint; without one, the
    /// remainder is treated as a final chunk only when `at_eof` says the
    /// caller has signalled end of input and the remainder is complete
    /// there. A blank chunk advances the checkpoint without producing a
    /// record. The returned cursor never moves backwards, stays within the
    /// tokens, and strictly advances whenever a record is produced.
    pub fn parse_incremental_with(
        tokens: &[SpannedToken],
        checkpoint: &ParseCheckpoint,
        config: &ParseConfig,
        at_eof: bool,
    ) -> (r: Result<(Option<Record>, ParseCheckpoint), ParseError>)
        ensures
            r matches Ok(p) ==> {
                let rem = tokens@.subrange(checkpoint.cursor as int, tokens@.len() as int);
                &&& p.1.cursor >= checkpoint.cursor
                &&& p.1.cursor > checkpoint.cursor ==> p.1.cursor <= tokens@.len()
                    && p.1.tokens_consumed == p.1.cursor
                &&& p.0 is Some ==> p.1.cursor > checkpoint.cursor
                &&& (p.0 is None && p.1.cursor == checkpoint.cursor) ==> p.1 == *checkpoint
                &&& (p.0 is None && p.1.cursor == checkpoint.cursor && checkpoint.cursor
                    < tokens@.len()) ==> spec_next_chunk(tokens@, checkpoint.cursor as int, at_eof)
                    is None
                &&& (checkpoint.cursor < tokens@.len() && spec_record_scan(rem, 0, 0) is Some)
                    ==> p.1.cursor > checkpoint.cursor
            },
            ({
                let cursor = checkpoint.cursor as int;
                let rem = tokens@.subrange(cursor, tokens@.len() as int);
                let limit = config.max_recursion_depth as int;
                &&& cursor >= tokens@.len() ==> r == Ok::<
                    (Option<Record>, ParseCheckpoint),
                    ParseError,
                >((None, *checkpoint))
                &&& (cursor < tokens@.len() && spec_next_chunk(tokens@, cursor, at_eof) is None)
                    ==> r == Ok::<(Option<Record>, ParseCheckpoint), ParseError>(
                    (None, *checkpoint),
                )
                &&& (cursor < tokens@.len() && spec_next_chunk(tokens@, cursor, at_eof) is Some)
                    ==> {
                    let nc = spec_next_chunk(tokens@, cursor, at_eof)->0;
                    let chunk = rem.subrange(0, nc.1);
                    let advanced = ParseCheckpoint {
                        cursor: (cursor + nc.0) as usize,
                        tokens_consumed: (cursor + nc.0) as usize,
                        state: 0,
                    };
                    &&& skip_to_end(rem, 0, nc.1) ==> r == Ok::<
                        (Option<Record>, ParseCheckpoint),
                        ParseError,
                    >((None, advanced))
                    &&& (!skip_to_end(rem, 0, nc.1) && spec_parse_record(chunk, limit) is Some)
                        ==> {
                        let pr = spec_parse_record(chunk, limit)->0;
                        &&& r matches Ok(p)
                        &&& r->Ok_0.1 == advanced
                        &&& r->Ok_0.0 matches Some(rec)
                        &&& r->Ok_0.0->0.value@ == pr.0
                        &&& r->Ok_0.0->0.span == pr.1
                    }
                    &&& (!skip_to_end(rem, 0, nc.1) && spec_parse_record(chunk, limit) is None)
                        ==> r is Err
                }
            }),
    {
        let start = checkpoint.cursor;
        if start >= tokens.len() {
            return Ok((None, *checkpoint));
        }
        let remaining = &tokens[start..tokens.len()];
        let boundary = match record_find_boundary(remaining, 0, 0) {
            Some(b) => b,
            None => {
                if at_eof && Record::is_complete_at_eof(remaining) {
                    remaining.len()
                } else {
                    return Ok((None, *checkpoint));
                }
            },
        };
        // Strip the trailing newline from the chunk handed to the parser.
        let chunk_end = if boundary > 0 && matches!(
            remaining[boundary - 1].value,
            Token::Newline,
        ) {
            boundary - 1
        } else {
            boundary
        };
        let new_cursor = start + boundary;
        let advanced = ParseCheckpoint { cursor: new_cursor, tokens_consumed: new_cursor, state: 0 };
        if Record::chunk_is_blank(remaining, chunk_end) {
            return Ok((None, advanced));
        }
        let chunk = &remaining[0..chunk_end];
        match Record::parse_chunk(chunk, config) {
            Ok(record) => Ok((Some(record), advanced)),
            Err(e) => Err(e),
        }
    }
}

impl Peek for Value {
    open spec fn spec_is(t: TokenV) -> bool {
        t is Number || t is Str || t is Ident
    }

    fn is(token: &Token) -> (b: bool) {
        matches!(token, Token::Number(_) | Token::Str(_) | Token::Ident(_))
    }
}

impl Parse for Value {
    /// Parses one scalar value from the stream — a number, a string, or an
    /// identifier — exactly when the next significant token is one,
    /// advancing past it; anything else is an error.
    fn parse(stream: &mut TokenStream) -> (r: Result<Self, ParseError>)
        ensures
            ({
                let sig = next_sig(
                    old(stream).spec_tokens(),
                    old(stream).spec_cursor(),
                    old(stream).spec_range_end(),
                );
                let matched = sig is Some && {
                    let t = old(stream).spec_tokens()[sig->0].value@;
                    t is Number || t is Str || t is Ident
                };
                &&& r is Ok <==> matched
                &&& matched ==> final(stream).spec_tokens() == old(stream).spec_tokens()
                    && final(stream).spec_range_start() == old(stream).spec_range_start()
                    && final(stream).spec_range_end() == old(stream).spec_range_end()
                    && final(stream).spec_cursor() == sig->0 + 1
                &&& matched ==> r->Ok_0@ == (match old(stream).spec_tokens()[sig->0].value@ {
                    TokenV::Number(n) => ValueV::Number(n),
                    TokenV::Str(text) => ValueV::Text(text),
                    TokenV::Ident(word) => ValueV::Word(word),
                    _ => ValueV::Number(0),
                })
            }),
    {
        let kind: u8 = match stream.peek_token() {
            Some(tok) => match &tok.value {
                Token::Number(_) => 1,
                Token::Str(_) => 2,
                Token::Ident(_) => 3,
                _ => 0,
            },
            None => 4,
        };
        if kind == 1 {
            match NumberToken::parse(stream) {
                Ok(t) => Ok(Value::Number(t.0)),
                Err(e) => Err(e),
            }
        } else if kind == 2 {
            match StringToken::parse(stream) {
                Ok(t) => Ok(Value::Text(t.0)),
                Err(e) => Err(e),
            }
        } else if kind == 3 {
            match IdentToken::parse(stream) {
                Ok(t) => Ok(Value::Word(t.0)),
                Err(e) => Err(e),
            }
        } else if kind == 0 {
            match stream.next() {
                Some(tok) => Err(
                    ParseError::Expected { expect: "value", found: token_text(&tok.value) },
                ),
                None => Err(ParseError::Empty { expect: "value" }),
            }
        } else {
            Err(ParseError::Empty { expect: "value" })
        }
    }
}

/// A `key: value` pair, with the exact tokens of the key and the colon.
#[derive(Debug)]
pub struct KeyValue {
    /// The identifier key with its span.
    pub key: Spanned<IdentToken>,
    /// The colon between key and value, with its span.
    pub colon: Spanned<ColonToken>,
    /// The scalar value.
    pub value: Value,
}

impl Parse for KeyValue {
    /// Parses `key : value` from the stream, in that order: the key must be
    /// the first significant token and an identifier, whose text the result
    /// carries; the colon and scalar value follow under their own parse
    /// contracts.
    fn parse(stream: &mut TokenStream) -> (r: Result<Self, ParseError>)
        ensures
            r matches Ok(kv) ==> ({
                let sig = next_sig(
                    old(stream).spec_tokens(),
                    old(stream).spec_cursor(),
                    old(stream).spec_range_end(),
                );
                &&& sig is Some
                &&& old(stream).spec_tokens()[sig->0].value@ is Ident
                &&& kv.key.value.0@ == old(stream).spec_tokens()[sig->0].value@->Ident_0
            }),
    {
        let key_start = match stream.peek_token() {
            Some(t) => t.span.start(),
            None => 0,
        };
        let key_tok = match IdentToken::parse(stream) {
            Ok(k) => k,
            Err(e) => {
                return Err(e);
            },
        };
        let key_end = match stream.last_span() {
            Some(sp) => sp.end(),
            None => key_start,
        };
        let key = Spanned::new(key_start, key_end, key_tok);
        let colon_start = match stream.peek_token() {
            Some(t) => t.span.start(),
            None => 0,
        };
        let colon_tok = match ColonToken::parse(stream) {
            Ok(c) => c,
            Err(e) => {
                return Err(e);
            },
        };
        let colon_end = match stream.last_span() {
            Some(sp) => sp.end(),
            None => colon_start,
        };
        let colon = Spanned::new(colon_start, colon_end, colon_tok);
        let value = match Value::parse(stream) {
            Ok(v) => v,
            Err(e) => {
                return Err(e);
            },
        };
        Ok(KeyValue { key, colon, value })
    }
}

/// Whether every token of `[i, end)` is trivia.
pub open spec fn skip_to_end(toks: Seq<SpannedToken>, i: int, end: int) -> bool {
    forall|j: int| i <= j < end ==> spec_is_skip(toks[j].value@)
}

impl IncrementalParse for Record {
    type Token = SpannedToken;

    type Error = ParseError;

    /// One incremental parse attempt with the default configuration: the
    /// same step as [`Record::parse_incremental_with`] at recursion limit
    /// 128, without end-of-input completion (the caller signals end of
    /// input through its final drain, not through this trait).
    fn parse_incremental(tokens: &[SpannedToken], checkpoint: &ParseCheckpoint) -> (r: Result<
        (Option<Record>, ParseCheckpoint),
        ParseError,
    >)
        ensures
            ({
                let cursor = checkpoint.cursor as int;
                let rem = tokens@.subrange(cursor, tokens@.len() as int);
                &&& cursor >= tokens@.len() ==> r == Ok::<
                    (Option<Record>, ParseCheckpoint),
                    ParseError,
                >((None, *checkpoint))
                &&& (cursor < tokens@.len() && spec_next_chunk(tokens@, cursor, false) is None)
                    ==> r == Ok::<(Option<Record>, ParseCheckpoint), ParseError>(
                    (None, *checkpoint),
                )
                &&& (cursor < tokens@.len() && spec_next_chunk(tokens@, cursor, false) is Some)
                    ==> {
                    let nc = spec_next_chunk(tokens@, cursor, false)->0;
                    let chunk = rem.subrange(0, nc.1);
                    let advanced = ParseCheckpoint {
                        cursor: (cursor + nc.0) as usize,
                        tokens_consumed: (cursor + nc.0) as usize,
                        state: 0,
                    };
                    &&& skip_to_end(rem, 0, nc.1) ==> r == Ok::<
                        (Option<Record>, ParseCheckpoint),
                        ParseError,
                    >((None, advanced))
                    &&& (!skip_to_end(rem, 0, nc.1) && spec_parse_record(chunk, 128) is Some)
                        ==> {
                        let pr = spec_parse_record(chunk, 128)->0;
                        &&& r matches Ok(p)
                        &&& r->Ok_0.1 == advanced
                        &&& r->Ok_0.0 matches Some(rec)
                        &&& r->Ok_0.0->0.value@ == pr.0
                        &&& r->Ok_0.0->0.span == pr.1
                    }
                    &&& (!skip_to_end(rem, 0, nc.1) && spec_parse_record(chunk, 128) is None)
                        ==> r is Err
                }
            }),
    {
        let config = ParseConfig::new();
        Record::parse_incremental_with(tokens, checkpoint, &config, false)
    }

    /// Whether a chunk boundary is visible from the checkpoint.
    fn can_parse(tokens: &[SpannedToken], checkpoint: &ParseCheckpoint) -> (b: bool)
        ensures
            b == (checkpoint.cursor < tokens@.len() && spec_record_scan(
                tokens@.subrange(checkpoint.cursor as int, tokens@.len() as int),
                0,
                0,
            ) is Some),
    {
        if checkpoint.cursor >= tokens.len() {
            return false;
        }
        let remaining = &tokens[checkpoint.cursor..tokens.len()];
        match record_find_boundary(remaining, 0, 0) {
            Some(_) => true,
            None => false,
        }
    }
}

} // verus!
