use kitoken::{Configuration, DecodeError, EncodeError, Kitoken, Metadata, Model, Token};
use kitoken_embed::tokenizer::{check_text, decode_outcome, encode_outcome, TokenizerError};

/// Encodes bytes the way a caller of the library does: the text is checked,
/// the tokenizer is asked, and its answer is turned into the result.
fn encode(tokenizer: &Kitoken, text: &[u8]) -> Result<Vec<u32>, TokenizerError> {
    let text = check_text(text)?;
    encode_outcome(tokenizer.encode(text, false))
}

/// Decodes tokens the way a caller of the library does.
fn decode(tokenizer: &Kitoken, tokens: &[u32]) -> Result<Vec<u8>, TokenizerError> {
    decode_outcome(tokenizer.decode(tokens, false))
}

/// A byte-pair tokenizer over the letters a, b and c, with one merge.
fn tokenizer() -> Kitoken {
    let vocab = vec![
        Token { id: 0, bytes: b"a".to_vec() },
        Token { id: 1, bytes: b"b".to_vec() },
        Token { id: 2, bytes: b"c".to_vec() },
        Token { id: 3, bytes: b"ab".to_vec() },
    ];
    let model = Model::BytePair { vocab, chars: false };
    Kitoken::new(model, Vec::new(), Configuration::default(), Metadata::default()).unwrap()
}

#[test]
fn text_is_encoded_into_token_ids() {
    assert_eq!(encode(&tokenizer(), b"abcab").unwrap(), vec![3, 2, 3]);
    assert_eq!(encode(&tokenizer(), b"cba").unwrap(), vec![2, 1, 0]);
    assert_eq!(encode(&tokenizer(), b"").unwrap(), Vec::<u32>::new());
}

#[test]
fn token_ids_are_decoded_into_bytes() {
    assert_eq!(decode(&tokenizer(), &[3, 2, 3]).unwrap(), b"abcab".to_vec());
    assert_eq!(decode(&tokenizer(), &[]).unwrap(), Vec::<u8>::new());
}

#[test]
fn decoding_undoes_encoding() {
    let tokenizer = tokenizer();
    let text = b"abbacabcab";
    let tokens = encode(&tokenizer, text).unwrap();
    assert_eq!(decode(&tokenizer, &tokens).unwrap(), text.to_vec());
}

#[test]
fn tokenizer_read_from_its_definition_gives_the_same_tokens() {
    let restored = Kitoken::from_slice(&tokenizer().to_vec()).unwrap();
    assert_eq!(encode(&restored, b"abcab").unwrap(), vec![3, 2, 3]);
    assert_eq!(decode(&restored, &[3, 2, 3]).unwrap(), b"abcab".to_vec());
}

#[test]
fn text_that_is_not_utf8_is_refused() {
    let tokenizer = tokenizer();
    assert!(matches!(encode(&tokenizer, &[0x61, 0xff, 0x62]), Err(TokenizerError::InvalidUtf8(_))));
    assert!(matches!(encode(&tokenizer, &[0xc3]), Err(TokenizerError::InvalidUtf8(_))));
    assert!(matches!(encode(&tokenizer, &[0xed, 0xa0, 0x80]), Err(TokenizerError::InvalidUtf8(_))));
}

#[test]
fn text_without_tokens_fails_to_encode() {
    assert!(matches!(encode(&tokenizer(), b"abd"), Err(TokenizerError::EncodeFailed(_))));
    assert!(matches!(encode(&tokenizer(), "aé".as_bytes()), Err(TokenizerError::EncodeFailed(_))));
}

#[test]
fn unknown_token_fails_to_decode() {
    assert!(matches!(decode(&tokenizer(), &[0, 77]), Err(TokenizerError::DecodeFailed(_))));
}

#[test]
fn decoded_bytes_are_handed_on_as_they_came() {
    assert_eq!(decode_outcome(Ok(vec![97, 0, 255])).unwrap(), vec![97, 0, 255]);
    assert_eq!(decode_outcome(Ok(Vec::new())).unwrap(), Vec::<u8>::new());
}

#[test]
fn failure_to_decode_keeps_the_cause() {
    let result = decode_outcome(Err(DecodeError::InvalidToken(77)));
    assert!(matches!(result, Err(TokenizerError::DecodeFailed(DecodeError::InvalidToken(77)))));
    // The same cause comes out of a real tokenizer.
    assert!(matches!(
        decode(&tokenizer(), &[0, 77]),
        Err(TokenizerError::DecodeFailed(DecodeError::InvalidToken(77)))
    ));
}

#[test]
fn well_formed_bytes_are_read_as_their_text() {
    assert_eq!(check_text(b"abc").unwrap(), "abc");
    assert_eq!(check_text("a\u{e9}\u{4e2d}\u{1f600}".as_bytes()).unwrap(), "a\u{e9}\u{4e2d}\u{1f600}");
    assert_eq!(check_text(b"").unwrap(), "");
}

#[test]
fn malformed_bytes_are_no_text() {
    assert!(matches!(check_text(&[0x61, 0xff, 0x62]), Err(TokenizerError::InvalidUtf8(_))));
    assert!(matches!(check_text(&[0xc3]), Err(TokenizerError::InvalidUtf8(_))));
    assert!(matches!(check_text(&[0xc0, 0x80]), Err(TokenizerError::InvalidUtf8(_))));
    assert!(matches!(check_text(&[0xed, 0xa0, 0x80]), Err(TokenizerError::InvalidUtf8(_))));
    assert!(matches!(check_text(&[0xf4, 0x90, 0x80, 0x80]), Err(TokenizerError::InvalidUtf8(_))));
}

#[test]
fn encoded_tokens_are_handed_on_as_they_came() {
    assert_eq!(encode_outcome(Ok(vec![3, 0, 3])).unwrap(), vec![3, 0, 3]);
    assert_eq!(encode_outcome(Ok(Vec::new())).unwrap(), Vec::<u32>::new());
}

#[test]
fn failure_to_encode_keeps_the_cause() {
    let result = encode_outcome(Err(EncodeError::InvalidPiece(vec![100])));
    match result {
        Err(TokenizerError::EncodeFailed(EncodeError::InvalidPiece(piece))) => {
            assert_eq!(piece, vec![100])
        }
        other => panic!("expected the tokenizer's error, got {:?}", other),
    }
    // The same cause comes out of a real tokenizer.
    match encode(&tokenizer(), b"abd") {
        Err(TokenizerError::EncodeFailed(EncodeError::InvalidPiece(piece))) => {
            assert_eq!(piece, vec![100])
        }
        other => panic!("expected the tokenizer's error, got {:?}", other),
    }
}
