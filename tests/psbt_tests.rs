use bdk::bitcoin::consensus::{deserialize, serialize};
use bdk::bitcoin::util::psbt::PartiallySignedTransaction;
use wallet_core::{accept_signed_reply, deserialize_psbt_b64, WalletError};

const PSBT_B64: &str = "cHNidP8BAIkCAAAAASB66YXXh9/mFD1cWPrXnMcQXg55n88DO38roX5i17MgAAAAAAD/////AlY9AwAAAAAAIgAgGYmVNLmgEQQ8DdV8P/mjgcNSLF8nxqQjGQhbVspUOh1q3AIAAAAAACIAIGGLR6B+vsyk4VbtsbnqfCS97gE5/ASSN5Zf/a9W1e5zAAAAAAABASuAGgYAAAAAACIAIBFI6T6TFeN9vtISG+UjklevNa3AP/38XZFLCDr6RNq4IgICX+c3E3bVPPiieDkXwovzC9aQsKTUogdpAJPKK5IO4HZHMEQCIAfgazYuiZEqvUZh9HlFQwc5sAaoXRsqFsAdwaS9B6yrAiBhV216qDSYi3q5TvIdjuvZlupZ6iBSmhmxXwyc6+PYrAEiAgKz/pNTACCoKU8OUn4z+9/xhPBH62taFVijUvYsKZcvikcwRAIgAnh/km1oF1BEMe4oEYO4EZtoRb+qa++uReE7bUMMnS8CIChZ8UmmzSauLwOhB+fzPH2Rcw2t4wX+B3uuZ3tdRJUqAQEFR1IhArP+k1MAIKgpTw5SfjP73/GE8Efra1oVWKNS9iwply+KIQJf5zcTdtU8+KJ4ORfCi/ML1pCwpNSiB2kAk8orkg7gdlKuAAEBR1IhAoPvdlN/LViuOqOkvYrkHD8jDMrf+xoL08pQTYcc/wXnIQNT15zAyxOW9M4njQBfFtlI4Cpq7J7REJ8TdH7LFQeze1KuAAEBR1IhArOTckF3e2Zl4NaU5S+cGxiEM2Qd+FLab8Qhh7XYo2ijIQNM3UdPAcxap/+DSti8yIKofoVK/8d1SGvCqfYuj0m9eFKuAA==";

#[test]
fn base64_and_consensus_encoding_round_trip() {
    let bytes = base64::decode(PSBT_B64).unwrap();
    assert_eq!(base64::decode(base64::encode(&bytes)).unwrap(), bytes);
    let psbt: PartiallySignedTransaction = deserialize(&bytes).unwrap();
    assert_eq!(serialize(&psbt), bytes);
    let again: PartiallySignedTransaction = deserialize(&serialize(&psbt)).unwrap();
    assert_eq!(again, psbt);
    for sample in [vec![], vec![0u8], vec![1, 2, 3, 4, 5], (0..=255u8).collect::<Vec<u8>>()] {
        assert_eq!(base64::decode(base64::encode(&sample)).unwrap(), sample);
    }
}

#[test]
fn reads_a_base64_psbt() {
    let psbt = deserialize_psbt_b64(PSBT_B64).unwrap();
    let bytes = base64::decode(PSBT_B64).unwrap();
    assert_eq!(serialize(&psbt), bytes);
}

#[test]
fn rejects_text_that_is_not_base64() {
    assert_eq!(deserialize_psbt_b64("not base64 !!").err(), Some(WalletError::MalformedPsbt));
}

#[test]
fn rejects_base64_that_is_not_a_psbt() {
    let text = base64::encode(b"hello world");
    assert_eq!(deserialize_psbt_b64(&text).err(), Some(WalletError::MalformedPsbt));
}

#[test]
fn device_refusal_leaves_the_psbt_alone() {
    let mut psbt = deserialize_psbt_b64(PSBT_B64).unwrap();
    let before = psbt.clone();
    assert_eq!(accept_signed_reply(&mut psbt, None), Err(WalletError::UserCanceledOrDeviceError));
    assert_eq!(psbt, before);
    let garbled = Some(String::from("%%%"));
    assert_eq!(accept_signed_reply(&mut psbt, garbled), Err(WalletError::UserCanceledOrDeviceError));
    assert_eq!(psbt, before);
}

#[test]
fn device_answer_replaces_the_psbt() {
    let bytes = base64::decode(PSBT_B64).unwrap();
    let mut psbt: PartiallySignedTransaction = deserialize(&bytes).unwrap();
    psbt.inputs[0].partial_sigs.clear();
    let stripped = psbt.clone();
    assert_ne!(stripped, deserialize::<PartiallySignedTransaction>(&bytes).unwrap());
    assert_eq!(accept_signed_reply(&mut psbt, Some(PSBT_B64.to_string())), Ok(()));
    assert_eq!(psbt, deserialize::<PartiallySignedTransaction>(&bytes).unwrap());
}
