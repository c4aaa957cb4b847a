//! End-to-end scenarios for the streaming pipeline: batch parsing,
//! chunk-split inputs, boundary detection inside brackets, buffer overflow,
//! draining, incomplete input, and the recursion limit.

use synkit::incremental::ChunkBoundary;
use synkit::lexer::lex_str;
use synkit::{
    parse_available_chunks, Error, IncrementalBuffer, LexerStage, ParseConfig, ParseError,
    ParserStage, Record, Span, Spanned, SpannedToken, StreamConfig, StreamError, Token,
    TokenStream, Value,
};

/// Lexes a full source with the kit lexer, as a batch.
fn lex_all(source: &str) -> Vec<SpannedToken> {
    lex_str(source, 0).expect("lex failed")
}

/// Runs the full synchronous pipeline over source chunks: lexer stage, then
/// parser stage token by token, then close.
fn run_pipeline(
    chunks: &[&str],
    config: StreamConfig,
    parse_config: ParseConfig,
) -> Result<Vec<Record>, StreamError> {
    let mut lexer = LexerStage::new(config);
    let mut parser = ParserStage::new(config, parse_config);
    let mut out = Vec::new();
    for chunk in chunks {
        let tokens = lexer.feed(chunk)?;
        for token in tokens {
            parser.on_token(token, &mut out)?;
        }
    }
    let tokens = lexer.finish()?;
    for token in tokens {
        parser.on_token(token, &mut out)?;
    }
    parser.on_close(&mut out)?;
    Ok(out)
}

fn expect_single_entry(record: &Record, key: &str, number: i64) {
    match &record.value {
        Value::Table { keys, values } => {
            assert_eq!(keys.len(), 1);
            assert_eq!(keys[0], key);
            assert!(matches!(values[0], Value::Number(n) if n == number));
        }
        other => panic!("expected a table value, got {:?}", other),
    }
}

#[test]
fn batch_parse_line_delimited() {
    // Two line-delimited records, parsed as a batch.
    let source = "{\"a\":1}\n{\"b\":2}\n";
    let mut buffer = IncrementalBuffer::new();
    buffer.extend(lex_all(source));
    let config = ParseConfig::new();
    let records =
        parse_available_chunks::<Record, ParseError, _>(&mut buffer, |chunk: &[SpannedToken]| {
            Record::parse_chunk(chunk, &config)
        })
        .expect("batch parse failed");

    assert_eq!(records.len(), 2);
    expect_single_entry(&records[0], "a", 1);
    expect_single_entry(&records[1], "b", 2);

    // The stream sees the same input as fully consumable.
    let mut ts = TokenStream::lex(source).expect("lex failed");
    while ts.next().is_some() {}
    assert!(ts.ensure_consumed().is_ok());
}

#[test]
fn streaming_split_mid_token() {
    // Chunk boundaries fall inside a token and inside the record.
    let records = run_pipeline(
        &["{\"na", "me\":", " \"Alice\"}\n"],
        StreamConfig::small(),
        ParseConfig::new(),
    )
    .expect("pipeline failed");

    assert_eq!(records.len(), 1);
    match &records[0].value {
        Value::Table { keys, values } => {
            assert_eq!(keys, &vec!["name".to_string()]);
            assert!(matches!(&values[0], Value::Text(s) if s == "Alice"));
        }
        other => panic!("expected a table value, got {:?}", other),
    }
}

#[test]
fn boundary_inside_brackets() {
    // The newline nested inside the brackets is not a unit boundary; only
    // the final newline at depth 0 ends the chunk.
    let toks: Vec<SpannedToken> = vec![
        Spanned::new(0, 1, Token::LBrace),
        Spanned::new(1, 4, Token::Str("a".to_string())),
        Spanned::new(4, 5, Token::Colon),
        Spanned::new(5, 6, Token::LBracket),
        Spanned::new(6, 7, Token::Newline),
        Spanned::new(7, 8, Token::RBracket),
        Spanned::new(8, 9, Token::RBrace),
        Spanned::new(9, 10, Token::Newline),
    ];
    assert_eq!(<Record as ChunkBoundary>::find_boundary(&toks, 0), Some(8));
    assert!(<Record as ChunkBoundary>::has_complete_chunk(&toks, 0));
}

#[test]
fn buffer_overflow_without_boundary() {
    // token_buffer_size = 4, so the buffer may hold at most 8 tokens; the
    // ninth token, with no boundary in sight, overflows.
    let config = StreamConfig {
        token_buffer_size: 4,
        ..StreamConfig::small()
    };
    let mut parser = ParserStage::new(config, ParseConfig::new());
    let mut out = Vec::new();

    let mut result = Ok(());
    let mut fed = 0;
    for i in 0..10u32 {
        let tok = if i == 0 {
            Token::LBracket
        } else {
            Token::Number(i as i64)
        };
        let span_start = i as usize;
        result = parser.on_token(Spanned::new(span_start, span_start + 1, tok), &mut out);
        fed += 1;
        if result.is_err() {
            break;
        }
    }
    assert_eq!(fed, 9);
    assert_eq!(
        result,
        Err(StreamError::BufferOverflow { current: 9, max: 8 })
    );
    assert!(out.is_empty());
}

#[test]
fn five_units_arrive_in_order() {
    // Five complete units drain through the pipeline in source order; the
    // consumer receives exactly five.
    let records = run_pipeline(
        &["1\n2\n", "3\n", "4\n5\n"],
        StreamConfig::small(),
        ParseConfig::new(),
    )
    .expect("pipeline failed");

    assert_eq!(records.len(), 5);
    for (idx, record) in records.iter().enumerate() {
        assert!(matches!(record.value, Value::Number(n) if n == idx as i64 + 1));
    }
}

#[test]
fn incomplete_at_end_of_input() {
    // No closing brace and no trailing newline: the final drain fails.
    let result = run_pipeline(
        &["{\"a\": 1,"],
        StreamConfig::small(),
        ParseConfig::new(),
    );
    assert!(matches!(result, Err(StreamError::IncompleteInput)));
}

#[test]
fn recursion_limit_exceeded() {
    // With a recursion limit of 3, the fourth nested bracket fails.
    let config = ParseConfig::new().with_max_recursion_depth(3);
    let toks = lex_all("[[[[1]]]]");
    let result = Record::parse_chunk(&toks, &config);
    assert_eq!(
        result.unwrap_err(),
        ParseError::Core(Error::RecursionLimitExceeded { depth: 4, limit: 3 })
    );

    // Three levels parse fine under the same limit.
    let ok = Record::parse_chunk(&lex_all("[[[1]]]"), &config);
    assert!(ok.is_ok());
}

#[test]
fn streamed_equals_batch() {
    // The streaming pipeline emits the same records, in the same order, as
    // a batch parse of the full input.
    let source = "{\"a\":1}\n[1, 2, 3]\n\"hi\"\n42\n";

    let mut buffer = IncrementalBuffer::new();
    buffer.extend(lex_all(source));
    let config = ParseConfig::new();
    let batch =
        parse_available_chunks::<Record, ParseError, _>(&mut buffer, |chunk: &[SpannedToken]| {
            Record::parse_chunk(chunk, &config)
        })
        .expect("batch parse failed");

    let streamed = run_pipeline(
        &["{\"a\":1}\n[1, ", "2, 3]\n\"h", "i\"\n42\n"],
        StreamConfig::small(),
        ParseConfig::new(),
    )
    .expect("pipeline failed");

    assert_eq!(batch.len(), 4);
    assert_eq!(streamed.len(), batch.len());
    for (b, s) in batch.iter().zip(streamed.iter()) {
        assert_eq!(format!("{:?}", b.value), format!("{:?}", s.value));
        assert_eq!(b.span, s.span);
    }
}

#[test]
fn chunk_too_large_rejected() {
    let config = StreamConfig {
        max_chunk_size: 4,
        ..StreamConfig::small()
    };
    let mut lexer = LexerStage::new(config);
    let result = lexer.feed("12345\n");
    assert_eq!(
        result,
        Err(StreamError::ChunkTooLarge { size: 6, max: 4 })
    );

    // A chunk within the bound is accepted.
    let mut lexer = LexerStage::new(config);
    assert!(lexer.feed("1\n").is_ok());
}

#[test]
fn blank_lines_are_skipped() {
    let records = run_pipeline(
        &["\n  \n7\n\n8\n"],
        StreamConfig::small(),
        ParseConfig::new(),
    )
    .expect("pipeline failed");
    assert_eq!(records.len(), 2);
    assert!(matches!(records[0].value, Value::Number(7)));
    assert!(matches!(records[1].value, Value::Number(8)));
}

#[test]
fn compaction_keeps_memory_bounded() {
    // A long run of units through a tiny buffer: compaction keeps the
    // pipeline going where an unbounded buffer would overflow.
    let config = StreamConfig {
        token_buffer_size: 4,
        ..StreamConfig::small()
    };
    let mut lexer = LexerStage::new(config);
    let mut parser = ParserStage::new(config, ParseConfig::new());
    let mut out = Vec::new();
    for i in 0..100u32 {
        let chunk = format!("{}\n", i);
        let tokens = lexer.feed(&chunk).expect("lex failed");
        for token in tokens {
            parser.on_token(token, &mut out).expect("parser failed");
        }
    }
    parser.on_close(&mut out).expect("close failed");
    assert_eq!(out.len(), 100);
    assert!(matches!(out[99].value, Value::Number(99)));
}

#[test]
fn record_span_covers_value() {
    let source = "{\"a\":1}\n";
    let records = run_pipeline(&[source], StreamConfig::small(), ParseConfig::new())
        .expect("pipeline failed");
    assert_eq!(records.len(), 1);
    assert_eq!(records[0].span, Span::new(0, 7));
}

#[test]
fn lex_error_surfaces_through_pipeline() {
    let result = run_pipeline(&["@\n"], StreamConfig::small(), ParseConfig::new());
    assert!(matches!(result, Err(StreamError::LexError(_))));
}

#[test]
fn parse_error_surfaces_through_pipeline() {
    // A malformed list: the missing separator surfaces as a parse error.
    let result = run_pipeline(&["[1 2]\n"], StreamConfig::small(), ParseConfig::new());
    match result {
        Err(StreamError::ParseError(msg)) => {
            assert!(msg.starts_with("expected"));
        }
        other => panic!("expected a parse error, got {:?}", other),
    }
}

#[test]
fn stream_error_rare_kinds_describe() {
    assert_eq!(StreamError::Timeout.describe(), "timeout waiting for input");
    let e = StreamError::ResourceLimit {
        resource: "tokens",
        current: 11,
        max: 10,
    };
    assert_eq!(e.describe(), "tokens limit exceeded: 11 > 10");
    let e = StreamError::ChunkTooLarge { size: 9, max: 8 };
    assert_eq!(e.describe(), "chunk size 9 exceeds maximum 8");
    let e = StreamError::BufferOverflow { current: 9, max: 8 };
    assert_eq!(e.describe(), "buffer size 9 exceeds maximum 8");
}

#[test]
fn balanced_tail_completes_only_at_close() {
    // A balanced unit without a trailing newline is not emitted mid-stream;
    // the close signal completes it.
    let config = StreamConfig::small();
    let mut parser = ParserStage::new(config, ParseConfig::new());
    let mut out = Vec::new();
    for token in lex_all("7") {
        parser.on_token(token, &mut out).expect("token failed");
    }
    assert!(out.is_empty());
    parser.on_close(&mut out).expect("close failed");
    assert_eq!(out.len(), 1);
    assert!(matches!(out[0].value, Value::Number(7)));
}

#[test]
fn two_values_on_one_line_fail_at_the_boundary() {
    // Two values before the newline form one malformed chunk; end-of-input
    // completion never fires mid-stream, so the newline decides.
    let result = run_pipeline(&["1 2\n"], StreamConfig::small(), ParseConfig::new());
    assert!(matches!(result, Err(StreamError::ParseError(_))));
}

