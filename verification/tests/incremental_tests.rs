//! Tests for the incremental lexing and parsing infrastructure, driven by a
//! small mock lexer and parser.

use synkit::{
    IncrementalLexer, IncrementalParse, LexerCapacityHint, ParseCheckpoint, ParseState,
    StreamConfig, StreamError,
};

#[derive(Debug, Clone, PartialEq)]
pub enum MockToken {
    Number(i64),
    Plus,
    Minus,
}

pub struct MockLexer {
    buffer: String,
    offset: usize,
}

impl IncrementalLexer for MockLexer {
    type Token = MockToken;
    type Spanned = MockToken;
    type Error = String;

    fn new() -> Self {
        Self {
            buffer: String::new(),
            offset: 0,
        }
    }

    fn feed(&mut self, chunk: &str) -> Result<Vec<Self::Spanned>, Self::Error> {
        self.buffer.push_str(chunk);
        let mut tokens = Vec::new();

        let bytes = self.buffer.as_bytes();
        let mut i = 0;

        while i < bytes.len() {
            let c = bytes[i];
            match c {
                b' ' | b'\t' | b'\n' => {
                    i += 1;
                }
                b'+' => {
                    tokens.push(MockToken::Plus);
                    i += 1;
                }
                b'-' => {
                    tokens.push(MockToken::Minus);
                    i += 1;
                }
                b'0'..=b'9' => {
                    let start = i;
                    while i < bytes.len() && bytes[i].is_ascii_digit() {
                        i += 1;
                    }
                    let s = &self.buffer[start..i];
                    let n: i64 = s.parse().map_err(|e| format!("invalid number: {}", e))?;
                    tokens.push(MockToken::Number(n));
                }
                _ => {
                    return Err(format!("unexpected character: {}", c as char));
                }
            }
        }

        self.offset += self.buffer.len();
        self.buffer.clear();

        Ok(tokens)
    }

    fn finish(self) -> Result<Vec<Self::Spanned>, Self::Error> {
        if !self.buffer.is_empty() {
            Err("incomplete token at end of input".to_string())
        } else {
            Ok(vec![])
        }
    }

    fn offset(&self) -> usize {
        self.offset
    }
}

#[derive(Debug, Clone, PartialEq)]
pub struct Expr {
    pub value: i64,
}

impl IncrementalParse for Expr {
    type Token = MockToken;
    type Error = String;

    fn parse_incremental(
        tokens: &[MockToken],
        checkpoint: &ParseCheckpoint,
    ) -> Result<(Option<Self>, ParseCheckpoint), Self::Error> {
        let mut cursor = checkpoint.cursor;

        if cursor >= tokens.len() {
            return Ok((None, *checkpoint));
        }

        match &tokens[cursor] {
            MockToken::Number(n) => {
                let node = Expr { value: *n };
                let new_checkpoint = ParseCheckpoint {
                    cursor: cursor + 1,
                    tokens_consumed: checkpoint.tokens_consumed + 1,
                    state: 0,
                };
                Ok((Some(node), new_checkpoint))
            }
            MockToken::Plus | MockToken::Minus => {
                cursor += 1;
                if cursor >= tokens.len() {
                    return Ok((None, *checkpoint));
                }
                match &tokens[cursor] {
                    MockToken::Number(n) => {
                        let node = Expr { value: *n };
                        let new_checkpoint = ParseCheckpoint {
                            cursor: cursor + 1,
                            tokens_consumed: checkpoint.tokens_consumed + 2,
                            state: 0,
                        };
                        Ok((Some(node), new_checkpoint))
                    }
                    _ => Err("expected number after operator".to_string()),
                }
            }
        }
    }

    fn can_parse(tokens: &[MockToken], checkpoint: &ParseCheckpoint) -> bool {
        checkpoint.cursor < tokens.len()
    }
}

#[test]
fn test_parse_state_enum() {
    assert_eq!(ParseState::NeedMore, ParseState::NeedMore);
    assert_eq!(ParseState::Complete, ParseState::Complete);
    assert_eq!(ParseState::Error, ParseState::Error);
    assert_ne!(ParseState::NeedMore, ParseState::Complete);
}

#[test]
fn test_parse_checkpoint_default() {
    let cp = ParseCheckpoint::default();
    assert_eq!(cp.cursor, 0);
    assert_eq!(cp.tokens_consumed, 0);
    assert_eq!(cp.state, 0);
}

#[test]
fn test_stream_error_display() {
    let err = StreamError::ChannelClosed;
    assert_eq!(err.describe(), "channel closed unexpectedly");

    let err = StreamError::LexError("bad token".to_string());
    assert_eq!(err.describe(), "lex error: bad token");

    let err = StreamError::ParseError("syntax error".to_string());
    assert_eq!(err.describe(), "parse error: syntax error");

    let err = StreamError::IncompleteInput;
    assert_eq!(err.describe(), "incomplete input at end of stream");
}

#[test]
fn test_stream_config_default() {
    let config = StreamConfig::default();
    assert_eq!(config.token_buffer_size, 1024);
    assert_eq!(config.ast_buffer_size, 64);
    assert_eq!(config.max_chunk_size, 64 * 1024);
}

#[test]
fn test_mock_lexer_basic() {
    let mut lexer = MockLexer::new();

    let tokens = lexer.feed("42").unwrap();
    assert_eq!(tokens.len(), 1);
    assert_eq!(tokens[0], MockToken::Number(42));

    let tokens = lexer.feed(" + ").unwrap();
    assert_eq!(tokens.len(), 1);
    assert_eq!(tokens[0], MockToken::Plus);

    let tokens = lexer.feed("123").unwrap();
    assert_eq!(tokens.len(), 1);
    assert_eq!(tokens[0], MockToken::Number(123));

    let remaining = lexer.finish().unwrap();
    assert!(remaining.is_empty());
}

#[test]
fn test_mock_lexer_multiple_tokens() {
    let mut lexer = MockLexer::new();
    let tokens = lexer.feed("1 + 2 - 3").unwrap();

    assert_eq!(tokens.len(), 5);
    assert_eq!(tokens[0], MockToken::Number(1));
    assert_eq!(tokens[1], MockToken::Plus);
    assert_eq!(tokens[2], MockToken::Number(2));
    assert_eq!(tokens[3], MockToken::Minus);
    assert_eq!(tokens[4], MockToken::Number(3));
}

#[test]
fn test_mock_lexer_error() {
    let mut lexer = MockLexer::new();
    let err = lexer.feed("42 @ 7").unwrap_err();
    assert!(err.contains("unexpected character"));
}

#[test]
fn test_incremental_parse_basic() {
    let tokens = vec![MockToken::Number(42)];
    let checkpoint = ParseCheckpoint::default();

    let (result, new_cp) = Expr::parse_incremental(&tokens, &checkpoint).unwrap();
    assert!(result.is_some());
    assert_eq!(result.unwrap().value, 42);
    assert_eq!(new_cp.cursor, 1);
    assert_eq!(new_cp.tokens_consumed, 1);
}

#[test]
fn test_incremental_parse_needs_more() {
    let tokens: Vec<MockToken> = vec![];
    let checkpoint = ParseCheckpoint::default();

    let (result, _) = Expr::parse_incremental(&tokens, &checkpoint).unwrap();
    assert!(result.is_none());
}

#[test]
fn test_incremental_parse_with_operator() {
    let tokens = vec![MockToken::Plus, MockToken::Number(7)];
    let checkpoint = ParseCheckpoint::default();

    let (result, new_cp) = Expr::parse_incremental(&tokens, &checkpoint).unwrap();
    assert!(result.is_some());
    assert_eq!(result.unwrap().value, 7);
    assert_eq!(new_cp.cursor, 2);
    assert_eq!(new_cp.tokens_consumed, 2);
}

#[test]
fn test_can_parse() {
    let tokens = vec![MockToken::Number(1)];
    let checkpoint = ParseCheckpoint::default();

    assert!(Expr::can_parse(&tokens, &checkpoint));

    let empty: Vec<MockToken> = vec![];
    assert!(!Expr::can_parse(&empty, &checkpoint));

    let consumed_cp = ParseCheckpoint {
        cursor: 1,
        tokens_consumed: 1,
        state: 0,
    };
    assert!(!Expr::can_parse(&tokens, &consumed_cp));
}

#[test]
fn test_feed_into_appends() {
    let mut lexer = MockLexer::new();
    let mut buffer = vec![MockToken::Plus];
    let count = lexer.feed_into("1 2", &mut buffer).unwrap();
    assert_eq!(count, 2);
    assert_eq!(
        buffer,
        vec![MockToken::Plus, MockToken::Number(1), MockToken::Number(2)]
    );
}

#[test]
fn test_stream_config_presets() {
    let small = StreamConfig::small();
    assert_eq!(small.token_buffer_size, 128);
    assert_eq!(small.ast_buffer_size, 16);
    assert_eq!(small.max_chunk_size, 4 * 1024);

    let large = StreamConfig::large();
    assert_eq!(large.token_buffer_size, 8192);
    assert_eq!(large.ast_buffer_size, 512);
    assert_eq!(large.max_chunk_size, 256 * 1024);

    let derived = StreamConfig::from_chunk_size(8192);
    assert_eq!(derived.token_buffer_size, 2048);
    assert_eq!(derived.ast_buffer_size, 128);
    assert_eq!(derived.max_chunk_size, 16384);
    assert_eq!(derived.lexer_hint.buffer_capacity, 8192);
    assert_eq!(derived.lexer_hint.tokens_per_chunk, 2048);
}

#[test]
fn test_lexer_capacity_hint_presets() {
    let small = LexerCapacityHint::small();
    assert_eq!(small.buffer_capacity, 256);
    assert_eq!(small.tokens_per_chunk, 32);
    let medium = LexerCapacityHint::default();
    assert_eq!(medium.buffer_capacity, 4096);
    assert_eq!(medium.tokens_per_chunk, 256);
    let large = LexerCapacityHint::large();
    assert_eq!(large.buffer_capacity, 65536);
    assert_eq!(large.tokens_per_chunk, 2048);
    let derived = LexerCapacityHint::from_chunk_size(1000);
    assert_eq!(derived.buffer_capacity, 1000);
    assert_eq!(derived.tokens_per_chunk, 250);
}

